use mpc_ecdsa::curve::Pt;
use mpc_ecdsa::li17_key_gen::{
    li17_p1_key_gen1, li17_p1_key_gen2, li17_p2_key_gen1, li17_p2_key_gen2, Li17SignP2Context,
};
use mpc_ecdsa::li17_refresh::{
    li17_p1_refresh1, li17_p1_refresh2, li17_p2_refresh1, li17_p2_refresh2,
};
use mpc_ecdsa::li17_sign::{li17_p1_sign1, li17_p1_sign2, li17_p2_sign1, li17_p2_sign2};
use multi_party_ecdsa::protocols::two_party_ecdsa::lindell_2017::party_one;
use multi_party_ecdsa::utilities::zk_pdl_with_slack::PDLwSlackStatement;
use k256::ecdsa::signature::Verifier;
use k256::ecdsa::{Signature, VerifyingKey};
use sha2::{Digest, Sha256};

pub fn check_sig(r: &[u8], s: &[u8], msg: &[u8], pk: &Pt) {
    let slice = pk.to_bytes(false);
    let mut raw_pk = Vec::new();
    if slice.len() != 65 {
        raw_pk.insert(0, 4u8);
        raw_pk.extend(vec![0u8; 64 - slice.len()]);
        raw_pk.extend(slice);
    } else {
        raw_pk.extend(slice);
    }

    assert_eq!(raw_pk.len(), 65);

    let public_key: VerifyingKey = VerifyingKey::from_sec1_bytes(&raw_pk).unwrap();

    let signature = Signature::from_scalars(
        *k256::FieldBytes::from_slice(r),
        *k256::FieldBytes::from_slice(s),
    )
    .unwrap();

    let is_correct = public_key.verify(msg, &signature).is_ok();
    assert!(is_correct);
}

#[test]
fn keygen() {
    let (msg1p1, context1p1) = li17_p1_key_gen1().unwrap();

    let (msg1p2, context1p2) = li17_p2_key_gen1(msg1p1).unwrap();

    let (msg2p1, _sign_context_p1) = li17_p1_key_gen2(msg1p2, context1p1).unwrap();

    let (_pk, _sign_context_p2) = li17_p2_key_gen2(msg2p1, context1p2).unwrap();
}

#[test]
fn sign() {
    // keygen
    let (msg1p1, context1p1) = li17_p1_key_gen1().unwrap();

    let (msg1p2, context1p2) = li17_p2_key_gen1(msg1p1).unwrap();

    let (msg2p1, sign_context_p1) = li17_p1_key_gen2(msg1p2, context1p1).unwrap();

    let (pk, sign_context_p2) = li17_p2_key_gen2(msg2p1, context1p2).unwrap();

    // sign
    let mut hasher = Sha256::new();
    hasher.update(b"random message");
    let hash = hasher.finalize().to_vec();

    let (smsg1p2, context1p2) = li17_p2_sign1(sign_context_p2, &hash).unwrap();

    let (smsg1p1, context1p1) = li17_p1_sign1(smsg1p2, sign_context_p1, &hash).unwrap();

    let smsg2p2 = li17_p2_sign2(smsg1p1, context1p2).unwrap();

    let sig = li17_p1_sign2(smsg2p2, context1p1).unwrap();

    check_sig(&sig[..32], &sig[32..], "random message".as_bytes(), &pk);
}

#[test]
fn refresh_and_sign() {
    // keygen
    let (msg1p1, context1p1) = li17_p1_key_gen1().unwrap();

    let (msg1p2, context1p2) = li17_p2_key_gen1(msg1p1).unwrap();

    let (msg2p1, sign_context_p1) = li17_p1_key_gen2(msg1p2, context1p1).unwrap();

    let (pk, sign_context_p2) = li17_p2_key_gen2(msg2p1, context1p2).unwrap();

    // refresh
    let (msg1p1, context1p1) = li17_p1_refresh1(sign_context_p1).unwrap();

    let (msg1p2, context1p2) = li17_p2_refresh1(msg1p1, sign_context_p2).unwrap();

    let (msg2p1, sign_context_p1) = li17_p1_refresh2(msg1p2, context1p1).unwrap();

    let sign_context_p2 = li17_p2_refresh2(msg2p1, context1p2).unwrap();

    // sign
    let mut hasher = Sha256::new();
    hasher.update(b"random message");
    let hash = hasher.finalize().to_vec();

    let (smsg1p2, context1p2) = li17_p2_sign1(sign_context_p2, &hash).unwrap();

    let (smsg1p1, context1p1) = li17_p1_sign1(smsg1p2, sign_context_p1, &hash).unwrap();

    let smsg2p2 = li17_p2_sign2(smsg1p1, context1p2).unwrap();

    let sig = li17_p1_sign2(smsg2p2, context1p1).unwrap();

    check_sig(&sig[..32], &sig[32..], "random message".as_bytes(), &pk);
}

#[test]
fn twice_refresh_and_sign() {
    // keygen
    let (msg1p1, context1p1) = li17_p1_key_gen1().unwrap();

    let (msg1p2, context1p2) = li17_p2_key_gen1(msg1p1).unwrap();

    let (msg2p1, sign_context_p1) = li17_p1_key_gen2(msg1p2, context1p1).unwrap();

    let (pk, sign_context_p2) = li17_p2_key_gen2(msg2p1, context1p2).unwrap();

    // refresh
    let (msg1p1, context1p1) = li17_p1_refresh1(sign_context_p1).unwrap();

    let (msg1p2, context1p2) = li17_p2_refresh1(msg1p1, sign_context_p2).unwrap();

    let (msg2p1, sign_context_p1) = li17_p1_refresh2(msg1p2, context1p1).unwrap();

    let sign_context_p2 = li17_p2_refresh2(msg2p1, context1p2).unwrap();

    // refresh 2
    let (msg1p1, context1p1) = li17_p1_refresh1(sign_context_p1).unwrap();

    let (msg1p2, context1p2) = li17_p2_refresh1(msg1p1, sign_context_p2).unwrap();

    let (msg2p1, sign_context_p1) = li17_p1_refresh2(msg1p2, context1p1).unwrap();

    let sign_context_p2 = li17_p2_refresh2(msg2p1, context1p2).unwrap();

    // sign
    let mut hasher = Sha256::new();
    hasher.update(b"random message");
    let hash = hasher.finalize().to_vec();

    let (smsg1p2, context1p2) = li17_p2_sign1(sign_context_p2, &hash).unwrap();

    let (smsg1p1, context1p1) = li17_p1_sign1(smsg1p2, sign_context_p1, &hash).unwrap();

    let smsg2p2 = li17_p2_sign2(smsg1p1, context1p2).unwrap();

    let sig = li17_p1_sign2(smsg2p2, context1p1).unwrap();

    check_sig(&sig[..32], &sig[32..], "random message".as_bytes(), &pk);
}

#[test]
fn stale_share_fails_after_refresh() {
    // keygen
    let (msg1p1, context1p1) = li17_p1_key_gen1().unwrap();
    let (msg1p2, context1p2) = li17_p2_key_gen1(msg1p1).unwrap();
    let (msg2p1, sign_context_p1) = li17_p1_key_gen2(msg1p2, context1p1).unwrap();
    let (_pk, sign_context_p2) = li17_p2_key_gen2(msg2p1, context1p2).unwrap();

    // keep a pre-refresh copy of party 2's signing context; the private
    // parts are copied through their serde round trip
    let stale_private = serde_json::from_str(
        &serde_json::to_string(&sign_context_p2.p2_private).unwrap(),
    )
    .unwrap();
    let stale_paillier = serde_json::from_str(
        &serde_json::to_string(&sign_context_p2.p2_paillier_public).unwrap(),
    )
    .unwrap();
    let stale_p2 = Li17SignP2Context {
        public: sign_context_p2.public.clone(),
        public_p1: sign_context_p2.public_p1.clone(),
        public_p2: sign_context_p2.public_p2.clone(),
        p2_private: stale_private,
        p2_paillier_public: stale_paillier,
    };

    // refresh both parties
    let (msg1p1, context1p1) = li17_p1_refresh1(sign_context_p1).unwrap();
    let (msg1p2, context1p2) = li17_p2_refresh1(msg1p1, sign_context_p2).unwrap();
    let (msg2p1, sign_context_p1) = li17_p1_refresh2(msg1p2, context1p1).unwrap();
    let _sign_context_p2 = li17_p2_refresh2(msg2p1, context1p2).unwrap();

    // party 2 signs with its pre-refresh material against party 1's
    // refreshed share: the combined signature cannot verify
    let mut hasher = Sha256::new();
    hasher.update(b"random message");
    let hash = hasher.finalize().to_vec();

    let (smsg1p2, context1p2) = li17_p2_sign1(stale_p2, &hash).unwrap();
    let (smsg1p1, context1p1) = li17_p1_sign1(smsg1p2, sign_context_p1, &hash).unwrap();
    let smsg2p2 = li17_p2_sign2(smsg1p1, context1p2).unwrap();
    let r = li17_p1_sign2(smsg2p2, context1p1);
    assert!(r.is_err());
}

#[test]
fn keygen_detects_flipped_commitment_bit() {
    let (msg1p1, context1p1) = li17_p1_key_gen1().unwrap();

    // flip the lowest bit of party 1's public-share commitment on the
    // way to party 2
    let tampered = party_one::KeyGenFirstMsg {
        pk_commitment: &msg1p1.pk_commitment ^ &curv::BigInt::from(1u64),
        zk_pok_commitment: msg1p1.zk_pok_commitment.clone(),
    };

    let (msg1p2, context1p2) = li17_p2_key_gen1(tampered).unwrap();

    // party 1 decommits honestly
    let (msg2p1, _sign_context_p1) = li17_p1_key_gen2(msg1p2, context1p1).unwrap();

    // party 2 must reject the decommitment against the flipped commitment
    let r = li17_p2_key_gen2(msg2p1, context1p2);
    assert!(r.is_err());
}

#[test]
fn keygen_rejects_malformed_pdl_statement() {
    let (msg1p1, context1p1) = li17_p1_key_gen1().unwrap();
    let (msg1p2, context1p2) = li17_p2_key_gen1(msg1p1).unwrap();
    let (msg2p1, _sign_context_p1) = li17_p1_key_gen2(msg1p2, context1p1).unwrap();

    // a PDL statement with a degenerate auxiliary modulus must be
    // rejected with an error, not a crash inside the verifier
    let (m0, m1, st, m3, m4, m5, m6) = msg2p1;
    let bad_statement = PDLwSlackStatement {
        ciphertext: st.ciphertext.clone(),
        ek: st.ek.clone(),
        Q: st.Q.clone(),
        G: st.G.clone(),
        h1: st.h1.clone(),
        h2: st.h2.clone(),
        N_tilde: curv::BigInt::from(1u64),
    };
    let r = li17_p2_key_gen2((m0, m1, bad_statement, m3, m4, m5, m6), context1p2);
    assert!(r.is_err());
}
