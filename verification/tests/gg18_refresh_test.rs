use mpc_ecdsa::curve::Pt;
use mpc_ecdsa::gg18_refresh::{
    gg18_refresh1, gg18_refresh2, gg18_refresh3, gg18_refresh4, PSSFirstMessage,
};
use mpc_ecdsa::gg18_sign::{
    gg18_sign1, gg18_sign10, gg18_sign2, gg18_sign3, gg18_sign4, gg18_sign5, gg18_sign6,
    gg18_sign7, gg18_sign8, gg18_sign9,
};
use mpc_ecdsa::key_gen::{key_gen_1, key_gen_2, key_gen_3, key_gen_4, key_gen_5, key_gen_6};
use multi_party_ecdsa::protocols::multi_party_ecdsa::gg_2018::party_i::KeyGenBroadcastMessage1;
use zk_paillier::zkproofs::NiCorrectKeyProof;
use k256::ecdsa::signature::Verifier;
use k256::ecdsa::{Signature, VerifyingKey};
use sha2::{Digest, Sha256};

pub fn check_sig(r: &[u8], s: &[u8], msg: &[u8], pk: &Pt) {
    let slice = pk.to_bytes(false);
    let mut raw_pk = Vec::new();
    if slice.len() != 65 {
        raw_pk.insert(0, 4u8);
        raw_pk.extend(vec![0u8; 64 - slice.len()]);
        raw_pk.extend(slice);
    } else {
        raw_pk.extend(slice);
    }

    assert_eq!(raw_pk.len(), 65);

    let public_key: VerifyingKey = VerifyingKey::from_sec1_bytes(&raw_pk).unwrap();

    let signature = Signature::from_scalars(
        *k256::FieldBytes::from_slice(r),
        *k256::FieldBytes::from_slice(s),
    )
    .unwrap();

    let is_correct = public_key.verify(msg, &signature).is_ok();
    assert!(is_correct);
}

#[test]
fn t2_of_n2() {
    // keygen1
    let (kg_msg1_p0, kg_context1_p0) = key_gen_1(2, 2, 0).unwrap();
    let (kg_msg1_p1, kg_context1_p1) = key_gen_1(2, 2, 1).unwrap();

    // keygen2
    let (kg_msg2_p0, kg_context2_p0) = key_gen_2(vec![kg_msg1_p1.clone()], kg_context1_p0).unwrap();
    let (kg_msg2_p1, kg_context2_p1) = key_gen_2(vec![kg_msg1_p0.clone()], kg_context1_p1).unwrap();

    // keygen3
    let (kg_msg3_p0, kg_context3_p0) = key_gen_3(vec![kg_msg2_p1.clone()], kg_context2_p0).unwrap();
    let (kg_msg3_p1, kg_context3_p1) = key_gen_3(vec![kg_msg2_p0.clone()], kg_context2_p1).unwrap();

    // keygen4
    let (kg_msg4_p0, kg_context4_p0) =
        key_gen_4(vec![kg_msg3_p1[0].clone()], kg_context3_p0).unwrap();
    let (kg_msg4_p1, kg_context4_p1) =
        key_gen_4(vec![kg_msg3_p0[0].clone()], kg_context3_p1).unwrap();

    // keygen5
    let (kg_msg5_p0, kg_context5_p0) = key_gen_5(vec![kg_msg4_p1.clone()], kg_context4_p0).unwrap();
    let (kg_msg5_p1, kg_context5_p1) = key_gen_5(vec![kg_msg4_p0.clone()], kg_context4_p1).unwrap();

    // keygen6
    let sign_context_p0 = key_gen_6(vec![kg_msg5_p1.clone()], kg_context5_p0).unwrap();
    let sign_context_p1 = key_gen_6(vec![kg_msg5_p0.clone()], kg_context5_p1).unwrap();

    let pk_p0 = sign_context_p0.pk.clone();
    let pk_p1 = sign_context_p1.pk.clone();

    // hash msg
    let mut hasher = Sha256::new();
    hasher.update(b"random message");
    let hash = hasher.finalize().to_vec();

    // refresh
    let (ref_msg1_p0, ref_context1_p0) = gg18_refresh1(sign_context_p0).unwrap();
    let (ref_msg1_p1, ref_context1_p1) = gg18_refresh1(sign_context_p1).unwrap();

    let (ref_msg2_p0, ref_context2_p0) =
        gg18_refresh2(vec![ref_msg1_p1.clone()], ref_context1_p0).unwrap();
    let (ref_msg2_p1, ref_context2_p1) =
        gg18_refresh2(vec![ref_msg1_p0.clone()], ref_context1_p1).unwrap();

    let (ref_msg3_p0, ref_context3_p0) =
        gg18_refresh3(vec![ref_msg2_p1.clone()], ref_context2_p0).unwrap();
    let (ref_msg3_p1, ref_context3_p1) =
        gg18_refresh3(vec![ref_msg2_p0.clone()], ref_context2_p1).unwrap();

    let c0 = gg18_refresh4(vec![ref_msg3_p1.clone()], ref_context3_p0).unwrap();
    let c1 = gg18_refresh4(vec![ref_msg3_p0.clone()], ref_context3_p1).unwrap();

    // sign with the refreshed contexts
    let (sign_msg1_p0, sign_context1_p0) = gg18_sign1(c0, vec![0, 1], 0, hash.clone()).unwrap();
    let (sign_msg1_p1, sign_context1_p1) = gg18_sign1(c1, vec![0, 1], 1, hash.clone()).unwrap();

    let (sign_msg2_p0, sign_context2_p0) =
        gg18_sign2(vec![sign_msg1_p1.clone()], sign_context1_p0).unwrap();
    let (sign_msg2_p1, sign_context2_p1) =
        gg18_sign2(vec![sign_msg1_p0.clone()], sign_context1_p1).unwrap();

    let (sign_msg3_p0, sign_context3_p0) =
        gg18_sign3(vec![sign_msg2_p1[0].clone()], sign_context2_p0).unwrap();
    let (sign_msg3_p1, sign_context3_p1) =
        gg18_sign3(vec![sign_msg2_p0[0].clone()], sign_context2_p1).unwrap();

    let (sign_msg4_p0, sign_context4_p0) =
        gg18_sign4(vec![sign_msg3_p1.clone()], sign_context3_p0).unwrap();
    let (sign_msg4_p1, sign_context4_p1) =
        gg18_sign4(vec![sign_msg3_p0.clone()], sign_context3_p1).unwrap();

    let (sign_msg5_p0, sign_context5_p0) =
        gg18_sign5(vec![sign_msg4_p1.clone()], sign_context4_p0).unwrap();
    let (sign_msg5_p1, sign_context5_p1) =
        gg18_sign5(vec![sign_msg4_p0.clone()], sign_context4_p1).unwrap();

    let (sign_msg6_p0, sign_context6_p0) =
        gg18_sign6(vec![sign_msg5_p1.clone()], sign_context5_p0).unwrap();
    let (sign_msg6_p1, sign_context6_p1) =
        gg18_sign6(vec![sign_msg5_p0.clone()], sign_context5_p1).unwrap();

    let (sign_msg7_p0, sign_context7_p0) =
        gg18_sign7(vec![sign_msg6_p1.clone()], sign_context6_p0).unwrap();
    let (sign_msg7_p1, sign_context7_p1) =
        gg18_sign7(vec![sign_msg6_p0.clone()], sign_context6_p1).unwrap();

    let (sign_msg8_p0, sign_context8_p0) =
        gg18_sign8(vec![sign_msg7_p1.clone()], sign_context7_p0).unwrap();
    let (sign_msg8_p1, sign_context8_p1) =
        gg18_sign8(vec![sign_msg7_p0.clone()], sign_context7_p1).unwrap();

    let (sign_msg9_p0, sign_context9_p0) =
        gg18_sign9(vec![sign_msg8_p1.clone()], sign_context8_p0).unwrap();
    let (sign_msg9_p1, sign_context9_p1) =
        gg18_sign9(vec![sign_msg8_p0.clone()], sign_context8_p1).unwrap();

    let signature_p0 = gg18_sign10(vec![sign_msg9_p1.clone()], sign_context9_p0).unwrap();
    let signature_p1 = gg18_sign10(vec![sign_msg9_p0.clone()], sign_context9_p1).unwrap();

    // the signatures made after the refresh verify under the original keys
    check_sig(&signature_p0[..32], &signature_p0[32..], "random message".as_bytes(), &pk_p0);
    check_sig(&signature_p1[..32], &signature_p1[32..], "random message".as_bytes(), &pk_p1);
}

#[test]
fn refresh_detects_flipped_commitment_bit() {
    // keygen for two parties
    let (kg_msg1_p0, kg_context1_p0) = key_gen_1(2, 2, 0).unwrap();
    let (kg_msg1_p1, kg_context1_p1) = key_gen_1(2, 2, 1).unwrap();
    let (kg_msg2_p0, kg_context2_p0) = key_gen_2(vec![kg_msg1_p1.clone()], kg_context1_p0).unwrap();
    let (kg_msg2_p1, kg_context2_p1) = key_gen_2(vec![kg_msg1_p0.clone()], kg_context1_p1).unwrap();
    let (kg_msg3_p0, kg_context3_p0) = key_gen_3(vec![kg_msg2_p1.clone()], kg_context2_p0).unwrap();
    let (kg_msg3_p1, kg_context3_p1) = key_gen_3(vec![kg_msg2_p0.clone()], kg_context2_p1).unwrap();
    let (kg_msg4_p0, kg_context4_p0) =
        key_gen_4(vec![kg_msg3_p1[0].clone()], kg_context3_p0).unwrap();
    let (kg_msg4_p1, kg_context4_p1) =
        key_gen_4(vec![kg_msg3_p0[0].clone()], kg_context3_p1).unwrap();
    let (kg_msg5_p0, kg_context5_p0) = key_gen_5(vec![kg_msg4_p1.clone()], kg_context4_p0).unwrap();
    let (kg_msg5_p1, kg_context5_p1) = key_gen_5(vec![kg_msg4_p0.clone()], kg_context4_p1).unwrap();
    let sign_context_p0 = key_gen_6(vec![kg_msg5_p1.clone()], kg_context5_p0).unwrap();
    let sign_context_p1 = key_gen_6(vec![kg_msg5_p0.clone()], kg_context5_p1).unwrap();

    let (ref_msg1_p0, ref_context1_p0) = gg18_refresh1(sign_context_p0).unwrap();
    let (ref_msg1_p1, ref_context1_p1) = gg18_refresh1(sign_context_p1).unwrap();

    // flip the lowest bit of the counterparty's nonce commitment on the
    // way to party 0
    let flipped = PSSFirstMessage {
        k_commitment: &ref_msg1_p1.k_commitment ^ &curv::BigInt::from(1u64),
        zk_pok_commitment: ref_msg1_p1.zk_pok_commitment.clone(),
    };

    let (_ref_msg2_p0, ref_context2_p0) = gg18_refresh2(vec![flipped], ref_context1_p0).unwrap();
    let (ref_msg2_p1, _ref_context2_p1) =
        gg18_refresh2(vec![ref_msg1_p0.clone()], ref_context1_p1).unwrap();

    // party 1's honest reveal can no longer match the flipped commitment
    let r = gg18_refresh3(vec![ref_msg2_p1], ref_context2_p0);
    assert!(r.is_err());
}

#[test]
fn refresh_rejects_wrong_message_count() {
    let (kg_msg1_p0, kg_context1_p0) = key_gen_1(2, 2, 0).unwrap();
    let (kg_msg1_p1, kg_context1_p1) = key_gen_1(2, 2, 1).unwrap();
    let (kg_msg2_p0, kg_context2_p0) = key_gen_2(vec![kg_msg1_p1.clone()], kg_context1_p0).unwrap();
    let (kg_msg2_p1, kg_context2_p1) = key_gen_2(vec![kg_msg1_p0.clone()], kg_context1_p1).unwrap();
    let (kg_msg3_p0, kg_context3_p0) = key_gen_3(vec![kg_msg2_p1.clone()], kg_context2_p0).unwrap();
    let (kg_msg3_p1, kg_context3_p1) = key_gen_3(vec![kg_msg2_p0.clone()], kg_context2_p1).unwrap();
    let (kg_msg4_p0, kg_context4_p0) =
        key_gen_4(vec![kg_msg3_p1[0].clone()], kg_context3_p0).unwrap();
    let (kg_msg4_p1, kg_context4_p1) =
        key_gen_4(vec![kg_msg3_p0[0].clone()], kg_context3_p1).unwrap();
    let (kg_msg5_p0, kg_context5_p0) = key_gen_5(vec![kg_msg4_p1.clone()], kg_context4_p0).unwrap();
    let (kg_msg5_p1, kg_context5_p1) = key_gen_5(vec![kg_msg4_p0.clone()], kg_context4_p1).unwrap();
    let sign_context_p0 = key_gen_6(vec![kg_msg5_p1.clone()], kg_context5_p0).unwrap();
    let sign_context_p1 = key_gen_6(vec![kg_msg5_p0.clone()], kg_context5_p1).unwrap();

    let (ref_msg1_p0, _c0) = gg18_refresh1(sign_context_p0).unwrap();
    let (ref_msg1_p1, ref_context1_p1) = gg18_refresh1(sign_context_p1).unwrap();

    let r = gg18_refresh2(
        vec![ref_msg1_p0.clone(), ref_msg1_p1.clone()],
        ref_context1_p1,
    );
    assert!(r.is_err());
}

fn dup_sign_ctx(c: &mpc_ecdsa::key_gen::SignContext) -> mpc_ecdsa::key_gen::SignContext {
    mpc_ecdsa::key_gen::SignContext {
        threshold: c.threshold,
        index: c.index,
        party_keys: c.party_keys.clone(),
        vss_scheme_vec: c.vss_scheme_vec.clone(),
        shared_keys: serde_json::from_str(&serde_json::to_string(&c.shared_keys).unwrap())
            .unwrap(),
        paillier_key_vec: c.paillier_key_vec.clone(),
        pk: c.pk.clone(),
    }
}

#[test]
fn stale_gg18_share_fails_after_refresh() {
    // keygen for two parties
    let (kg_msg1_p0, kg_context1_p0) = key_gen_1(2, 2, 0).unwrap();
    let (kg_msg1_p1, kg_context1_p1) = key_gen_1(2, 2, 1).unwrap();
    let (kg_msg2_p0, kg_context2_p0) = key_gen_2(vec![kg_msg1_p1.clone()], kg_context1_p0).unwrap();
    let (kg_msg2_p1, kg_context2_p1) = key_gen_2(vec![kg_msg1_p0.clone()], kg_context1_p1).unwrap();
    let (kg_msg3_p0, kg_context3_p0) = key_gen_3(vec![kg_msg2_p1.clone()], kg_context2_p0).unwrap();
    let (kg_msg3_p1, kg_context3_p1) = key_gen_3(vec![kg_msg2_p0.clone()], kg_context2_p1).unwrap();
    let (kg_msg4_p0, kg_context4_p0) =
        key_gen_4(vec![kg_msg3_p1[0].clone()], kg_context3_p0).unwrap();
    let (kg_msg4_p1, kg_context4_p1) =
        key_gen_4(vec![kg_msg3_p0[0].clone()], kg_context3_p1).unwrap();
    let (kg_msg5_p0, kg_context5_p0) = key_gen_5(vec![kg_msg4_p1.clone()], kg_context4_p0).unwrap();
    let (kg_msg5_p1, kg_context5_p1) = key_gen_5(vec![kg_msg4_p0.clone()], kg_context4_p1).unwrap();
    let sign_context_p0 = key_gen_6(vec![kg_msg5_p1.clone()], kg_context5_p0).unwrap();
    let sign_context_p1 = key_gen_6(vec![kg_msg5_p0.clone()], kg_context5_p1).unwrap();

    // keep a pre-refresh copy of party 0's context
    let stale_p0 = dup_sign_ctx(&sign_context_p0);

    // refresh both parties
    let (ref_msg1_p0, ref_context1_p0) = gg18_refresh1(sign_context_p0).unwrap();
    let (ref_msg1_p1, ref_context1_p1) = gg18_refresh1(sign_context_p1).unwrap();
    let (ref_msg2_p0, ref_context2_p0) =
        gg18_refresh2(vec![ref_msg1_p1.clone()], ref_context1_p0).unwrap();
    let (ref_msg2_p1, ref_context2_p1) =
        gg18_refresh2(vec![ref_msg1_p0.clone()], ref_context1_p1).unwrap();
    let (ref_msg3_p0, ref_context3_p0) =
        gg18_refresh3(vec![ref_msg2_p1.clone()], ref_context2_p0).unwrap();
    let (ref_msg3_p1, ref_context3_p1) =
        gg18_refresh3(vec![ref_msg2_p0.clone()], ref_context2_p1).unwrap();
    let _c0 = gg18_refresh4(vec![ref_msg3_p1.clone()], ref_context3_p0).unwrap();
    let c1 = gg18_refresh4(vec![ref_msg3_p0.clone()], ref_context3_p1).unwrap();

    // party 0 signs with its pre-refresh share and commitment set,
    // party 1 with the refreshed ones: the MtA point checks of round 3
    // must reject the stale material
    let mut hasher = Sha256::new();
    hasher.update(b"random message");
    let hash = hasher.finalize().to_vec();

    let (sign_msg1_p0, sign_context1_p0) =
        gg18_sign1(stale_p0, vec![0, 1], 0, hash.clone()).unwrap();
    let (sign_msg1_p1, sign_context1_p1) = gg18_sign1(c1, vec![0, 1], 1, hash.clone()).unwrap();
    let (sign_msg2_p0, _sign_context2_p0) =
        gg18_sign2(vec![sign_msg1_p1.clone()], sign_context1_p0).unwrap();
    let (sign_msg2_p1, sign_context2_p1) =
        gg18_sign2(vec![sign_msg1_p0.clone()], sign_context1_p1).unwrap();
    let _ = sign_msg2_p1;

    // party 1 checks party 0's proved key-share point against the
    // post-refresh commitment set
    let r = gg18_sign3(vec![sign_msg2_p0[0].clone()], sign_context2_p1);
    assert!(r.is_err());
}

#[test]
fn keygen_rejects_malformed_correct_key_proof() {
    let (kg_msg1_p0, _kg_context1_p0) = key_gen_1(2, 2, 0).unwrap();
    let (_kg_msg1_p1, kg_context1_p1) = key_gen_1(2, 2, 1).unwrap();

    // a broadcast whose correct-key proof is too short to verify must
    // be rejected with an error, not a crash
    let malformed = KeyGenBroadcastMessage1 {
        e: kg_msg1_p0.e.clone(),
        com: kg_msg1_p0.com.clone(),
        correct_key_proof: NiCorrectKeyProof { sigma_vec: Vec::new() },
    };

    let (kg_msg2_p1, kg_context2_p1) = key_gen_2(vec![malformed], kg_context1_p1).unwrap();
    let r = key_gen_3(vec![kg_msg2_p1.clone()], kg_context2_p1);
    assert!(r.is_err());
}
