use mpc_ecdsa::curve::Pt;
use mpc_ecdsa::gg18_sign::{
    gg18_sign1, gg18_sign10, gg18_sign2, gg18_sign3, gg18_sign4, gg18_sign5, gg18_sign6,
    gg18_sign7, gg18_sign8, gg18_sign9,
};
use mpc_ecdsa::key_gen::{key_gen_1, key_gen_2, key_gen_3, key_gen_4, key_gen_5, key_gen_6};
use k256::ecdsa::signature::Verifier;
use k256::ecdsa::{Signature, VerifyingKey};
use sha2::{Digest, Sha256};

pub fn check_sig(r: &[u8], s: &[u8], msg: &[u8], pk: &Pt) {
    let slice = pk.to_bytes(false);
    let mut raw_pk = Vec::new();
    if slice.len() != 65 {
        raw_pk.insert(0, 4u8);
        raw_pk.extend(vec![0u8; 64 - slice.len()]);
        raw_pk.extend(slice);
    } else {
        raw_pk.extend(slice);
    }

    assert_eq!(raw_pk.len(), 65);

    let public_key: VerifyingKey = VerifyingKey::from_sec1_bytes(&raw_pk).unwrap();

    let signature = Signature::from_scalars(
        *k256::FieldBytes::from_slice(r),
        *k256::FieldBytes::from_slice(s),
    )
    .unwrap();

    let is_correct = public_key.verify(msg, &signature).is_ok();
    assert!(is_correct);
}

#[test]
fn t3_of_n4() {
    // keygen1
    let (kg_msg1_p0, kg_context1_p0) = key_gen_1(4, 3, 0).unwrap();
    let (kg_msg1_p1, kg_context1_p1) = key_gen_1(4, 3, 1).unwrap();
    let (kg_msg1_p2, kg_context1_p2) = key_gen_1(4, 3, 2).unwrap();
    let (kg_msg1_p3, kg_context1_p3) = key_gen_1(4, 3, 3).unwrap();

    // keygen2
    let (kg_msg2_p0, kg_context2_p0) = key_gen_2(
        vec![kg_msg1_p1.clone(), kg_msg1_p2.clone(), kg_msg1_p3.clone()],
        kg_context1_p0,
    )
    .unwrap();
    let (kg_msg2_p1, kg_context2_p1) = key_gen_2(
        vec![kg_msg1_p0.clone(), kg_msg1_p2.clone(), kg_msg1_p3.clone()],
        kg_context1_p1,
    )
    .unwrap();
    let (kg_msg2_p2, kg_context2_p2) = key_gen_2(
        vec![kg_msg1_p0.clone(), kg_msg1_p1.clone(), kg_msg1_p3.clone()],
        kg_context1_p2,
    )
    .unwrap();
    let (kg_msg2_p3, kg_context2_p3) = key_gen_2(
        vec![kg_msg1_p0.clone(), kg_msg1_p1.clone(), kg_msg1_p2.clone()],
        kg_context1_p3,
    )
    .unwrap();

    // keygen3
    let (kg_msg3_p0, kg_context3_p0) = key_gen_3(
        vec![kg_msg2_p1.clone(), kg_msg2_p2.clone(), kg_msg2_p3.clone()],
        kg_context2_p0,
    )
    .unwrap();
    let (kg_msg3_p1, kg_context3_p1) = key_gen_3(
        vec![kg_msg2_p0.clone(), kg_msg2_p2.clone(), kg_msg2_p3.clone()],
        kg_context2_p1,
    )
    .unwrap();
    let (kg_msg3_p2, kg_context3_p2) = key_gen_3(
        vec![kg_msg2_p0.clone(), kg_msg2_p1.clone(), kg_msg2_p3.clone()],
        kg_context2_p2,
    )
    .unwrap();
    let (kg_msg3_p3, kg_context3_p3) = key_gen_3(
        vec![kg_msg2_p0.clone(), kg_msg2_p1.clone(), kg_msg2_p2.clone()],
        kg_context2_p3,
    )
    .unwrap();

    // keygen4
    let (kg_msg4_p0, kg_context4_p0) = key_gen_4(
        vec![kg_msg3_p1[0].clone(), kg_msg3_p2[0].clone(), kg_msg3_p3[0].clone()],
        kg_context3_p0,
    )
    .unwrap();
    let (kg_msg4_p1, kg_context4_p1) = key_gen_4(
        vec![kg_msg3_p0[0].clone(), kg_msg3_p2[1].clone(), kg_msg3_p3[1].clone()],
        kg_context3_p1,
    )
    .unwrap();
    let (kg_msg4_p2, kg_context4_p2) = key_gen_4(
        vec![kg_msg3_p0[1].clone(), kg_msg3_p1[1].clone(), kg_msg3_p3[2].clone()],
        kg_context3_p2,
    )
    .unwrap();
    let (kg_msg4_p3, kg_context4_p3) = key_gen_4(
        vec![kg_msg3_p0[2].clone(), kg_msg3_p1[2].clone(), kg_msg3_p2[2].clone()],
        kg_context3_p3,
    )
    .unwrap();

    // keygen5
    let (kg_msg5_p0, kg_context5_p0) = key_gen_5(
        vec![kg_msg4_p1.clone(), kg_msg4_p2.clone(), kg_msg4_p3.clone()],
        kg_context4_p0,
    )
    .unwrap();
    let (kg_msg5_p1, kg_context5_p1) = key_gen_5(
        vec![kg_msg4_p0.clone(), kg_msg4_p2.clone(), kg_msg4_p3.clone()],
        kg_context4_p1,
    )
    .unwrap();
    let (kg_msg5_p2, kg_context5_p2) = key_gen_5(
        vec![kg_msg4_p0.clone(), kg_msg4_p1.clone(), kg_msg4_p3.clone()],
        kg_context4_p2,
    )
    .unwrap();
    let (kg_msg5_p3, kg_context5_p3) = key_gen_5(
        vec![kg_msg4_p0.clone(), kg_msg4_p1.clone(), kg_msg4_p2.clone()],
        kg_context4_p3,
    )
    .unwrap();

    // keygen6
    let sign_context_p0 = key_gen_6(
        vec![kg_msg5_p1.clone(), kg_msg5_p2.clone(), kg_msg5_p3.clone()],
        kg_context5_p0,
    )
    .unwrap();
    let _sign_context_p1 = key_gen_6(
        vec![kg_msg5_p0.clone(), kg_msg5_p2.clone(), kg_msg5_p3.clone()],
        kg_context5_p1,
    )
    .unwrap();
    let sign_context_p2 = key_gen_6(
        vec![kg_msg5_p0.clone(), kg_msg5_p1.clone(), kg_msg5_p3.clone()],
        kg_context5_p2,
    )
    .unwrap();
    let sign_context_p3 = key_gen_6(
        vec![kg_msg5_p0.clone(), kg_msg5_p1.clone(), kg_msg5_p2.clone()],
        kg_context5_p3,
    )
    .unwrap();

    let pk_p0 = sign_context_p0.pk.clone();
    let pk_p2 = sign_context_p2.pk.clone();

    // hash msg
    let mut hasher = Sha256::new();
    hasher.update(b"random message");
    let hash = hasher.finalize().to_vec();

    // sign1: participants are keygen parties 2, 3 and 0
    let (sign_msg1_p0, sign_context1_p0) =
        gg18_sign1(sign_context_p0, vec![2, 3, 0], 2, hash.clone()).unwrap();
    let (sign_msg1_p2, sign_context1_p2) =
        gg18_sign1(sign_context_p2, vec![2, 3, 0], 0, hash.clone()).unwrap();
    let (sign_msg1_p3, sign_context1_p3) =
        gg18_sign1(sign_context_p3, vec![2, 3, 0], 1, hash.clone()).unwrap();

    // sign2
    let (sign_msg2_p0, sign_context2_p0) =
        gg18_sign2(vec![sign_msg1_p2.clone(), sign_msg1_p3.clone()], sign_context1_p0).unwrap();
    let (sign_msg2_p2, sign_context2_p2) =
        gg18_sign2(vec![sign_msg1_p3.clone(), sign_msg1_p0.clone()], sign_context1_p2).unwrap();
    let (sign_msg2_p3, sign_context2_p3) =
        gg18_sign2(vec![sign_msg1_p2.clone(), sign_msg1_p0.clone()], sign_context1_p3).unwrap();

    // sign3
    let (sign_msg3_p0, sign_context3_p0) =
        gg18_sign3(vec![sign_msg2_p2[1].clone(), sign_msg2_p3[1].clone()], sign_context2_p0)
            .unwrap();
    let (sign_msg3_p2, sign_context3_p2) =
        gg18_sign3(vec![sign_msg2_p3[0].clone(), sign_msg2_p0[0].clone()], sign_context2_p2)
            .unwrap();
    let (sign_msg3_p3, sign_context3_p3) =
        gg18_sign3(vec![sign_msg2_p2[0].clone(), sign_msg2_p0[1].clone()], sign_context2_p3)
            .unwrap();

    // sign4
    let (sign_msg4_p0, sign_context4_p0) =
        gg18_sign4(vec![sign_msg3_p2.clone(), sign_msg3_p3.clone()], sign_context3_p0).unwrap();
    let (sign_msg4_p2, sign_context4_p2) =
        gg18_sign4(vec![sign_msg3_p3.clone(), sign_msg3_p0.clone()], sign_context3_p2).unwrap();
    let (sign_msg4_p3, sign_context4_p3) =
        gg18_sign4(vec![sign_msg3_p2.clone(), sign_msg3_p0.clone()], sign_context3_p3).unwrap();

    // sign5
    let (sign_msg5_p0, sign_context5_p0) =
        gg18_sign5(vec![sign_msg4_p2.clone(), sign_msg4_p3.clone()], sign_context4_p0).unwrap();
    let (sign_msg5_p2, sign_context5_p2) =
        gg18_sign5(vec![sign_msg4_p3.clone(), sign_msg4_p0.clone()], sign_context4_p2).unwrap();
    let (sign_msg5_p3, sign_context5_p3) =
        gg18_sign5(vec![sign_msg4_p2.clone(), sign_msg4_p0.clone()], sign_context4_p3).unwrap();

    // sign6
    let (sign_msg6_p0, sign_context6_p0) =
        gg18_sign6(vec![sign_msg5_p2.clone(), sign_msg5_p3.clone()], sign_context5_p0).unwrap();
    let (sign_msg6_p2, sign_context6_p2) =
        gg18_sign6(vec![sign_msg5_p3.clone(), sign_msg5_p0.clone()], sign_context5_p2).unwrap();
    let (sign_msg6_p3, sign_context6_p3) =
        gg18_sign6(vec![sign_msg5_p2.clone(), sign_msg5_p0.clone()], sign_context5_p3).unwrap();

    // sign7
    let (sign_msg7_p0, sign_context7_p0) =
        gg18_sign7(vec![sign_msg6_p2.clone(), sign_msg6_p3.clone()], sign_context6_p0).unwrap();
    let (sign_msg7_p2, sign_context7_p2) =
        gg18_sign7(vec![sign_msg6_p3.clone(), sign_msg6_p0.clone()], sign_context6_p2).unwrap();
    let (sign_msg7_p3, sign_context7_p3) =
        gg18_sign7(vec![sign_msg6_p2.clone(), sign_msg6_p0.clone()], sign_context6_p3).unwrap();

    // sign8
    let (sign_msg8_p0, sign_context8_p0) =
        gg18_sign8(vec![sign_msg7_p2.clone(), sign_msg7_p3.clone()], sign_context7_p0).unwrap();
    let (sign_msg8_p2, sign_context8_p2) =
        gg18_sign8(vec![sign_msg7_p3.clone(), sign_msg7_p0.clone()], sign_context7_p2).unwrap();
    let (sign_msg8_p3, sign_context8_p3) =
        gg18_sign8(vec![sign_msg7_p2.clone(), sign_msg7_p0.clone()], sign_context7_p3).unwrap();

    // sign9
    let (sign_msg9_p0, sign_context9_p0) =
        gg18_sign9(vec![sign_msg8_p2.clone(), sign_msg8_p3.clone()], sign_context8_p0).unwrap();
    let (sign_msg9_p2, sign_context9_p2) =
        gg18_sign9(vec![sign_msg8_p3.clone(), sign_msg8_p0.clone()], sign_context8_p2).unwrap();
    let (sign_msg9_p3, sign_context9_p3) =
        gg18_sign9(vec![sign_msg8_p2.clone(), sign_msg8_p0.clone()], sign_context8_p3).unwrap();

    // sign10
    let signature_p0 =
        gg18_sign10(vec![sign_msg9_p2.clone(), sign_msg9_p3.clone()], sign_context9_p0).unwrap();
    let signature_p2 =
        gg18_sign10(vec![sign_msg9_p3.clone(), sign_msg9_p0.clone()], sign_context9_p2).unwrap();
    let signature_p3 =
        gg18_sign10(vec![sign_msg9_p2.clone(), sign_msg9_p0.clone()], sign_context9_p3).unwrap();

    check_sig(&signature_p0[..32], &signature_p0[32..], "random message".as_bytes(), &pk_p0);
    check_sig(&signature_p2[..32], &signature_p2[32..], "random message".as_bytes(), &pk_p2);
    check_sig(&signature_p3[..32], &signature_p3[32..], "random message".as_bytes(), &pk_p0);
}

#[test]
fn keygen_rejects_bad_parameters() {
    // threshold above the party count, zero threshold, index out of range
    assert!(key_gen_1(2, 3, 0).is_err());
    assert!(key_gen_1(2, 0, 0).is_err());
    assert!(key_gen_1(2, 2, 2).is_err());
    assert!(key_gen_1(1, 1, 0).is_ok());
}

#[test]
fn keygen_rejects_wrong_message_count() {
    let (_msg_p0, context1_p0) = key_gen_1(2, 2, 0).unwrap();
    let (msg_p1, _context1_p1) = key_gen_1(2, 2, 1).unwrap();
    // two messages where one is expected
    let r = key_gen_2(vec![msg_p1.clone(), msg_p1.clone()], context1_p0);
    assert!(r.is_err());
}

#[test]
fn keygen_rejects_foreign_decommitment() {
    // two independent ceremonies; a decommitment from the second is
    // delivered into the first and must fail the round-3 verification
    let (a_msg1_p0, a_context1_p0) = key_gen_1(2, 2, 0).unwrap();
    let (a_msg1_p1, _a_context1_p1) = key_gen_1(2, 2, 1).unwrap();
    let (_b_msg1_p0, b_context1_p0) = key_gen_1(2, 2, 0).unwrap();

    let (_a_msg2_p0, a_context2_p0) = key_gen_2(vec![a_msg1_p1.clone()], a_context1_p0).unwrap();
    let _ = a_msg1_p0;

    // the foreign party decommits in its own ceremony
    let (b_msg2_p0, _b_context2_p0) =
        key_gen_2(vec![a_msg1_p1.clone()], b_context1_p0).unwrap();

    let r = key_gen_3(vec![b_msg2_p0], a_context2_p0);
    assert!(r.is_err());
}

fn dup_sign_context(c: &mpc_ecdsa::key_gen::SignContext) -> mpc_ecdsa::key_gen::SignContext {
    mpc_ecdsa::key_gen::SignContext {
        threshold: c.threshold,
        index: c.index,
        party_keys: c.party_keys.clone(),
        vss_scheme_vec: c.vss_scheme_vec.clone(),
        shared_keys: serde_json::from_str(&serde_json::to_string(&c.shared_keys).unwrap())
            .unwrap(),
        paillier_key_vec: c.paillier_key_vec.clone(),
        pk: c.pk.clone(),
    }
}

fn run_two_party_sign(
    ca: mpc_ecdsa::key_gen::SignContext,
    cb: mpc_ecdsa::key_gen::SignContext,
    indices: Vec<u16>,
    hash: Vec<u8>,
) -> Vec<u8> {
    let (m1a, c1a) = gg18_sign1(ca, indices.clone(), 0, hash.clone()).unwrap();
    let (m1b, c1b) = gg18_sign1(cb, indices.clone(), 1, hash.clone()).unwrap();
    let (m2a, c2a) = gg18_sign2(vec![m1b.clone()], c1a).unwrap();
    let (m2b, c2b) = gg18_sign2(vec![m1a.clone()], c1b).unwrap();
    let (m3a, c3a) = gg18_sign3(vec![m2b[0].clone()], c2a).unwrap();
    let (m3b, c3b) = gg18_sign3(vec![m2a[0].clone()], c2b).unwrap();
    let (m4a, c4a) = gg18_sign4(vec![m3b.clone()], c3a).unwrap();
    let (m4b, c4b) = gg18_sign4(vec![m3a.clone()], c3b).unwrap();
    let (m5a, c5a) = gg18_sign5(vec![m4b.clone()], c4a).unwrap();
    let (m5b, c5b) = gg18_sign5(vec![m4a.clone()], c4b).unwrap();
    let (m6a, c6a) = gg18_sign6(vec![m5b.clone()], c5a).unwrap();
    let (m6b, c6b) = gg18_sign6(vec![m5a.clone()], c5b).unwrap();
    let (m7a, c7a) = gg18_sign7(vec![m6b.clone()], c6a).unwrap();
    let (m7b, c7b) = gg18_sign7(vec![m6a.clone()], c6b).unwrap();
    let (m8a, c8a) = gg18_sign8(vec![m7b.clone()], c7a).unwrap();
    let (m8b, c8b) = gg18_sign8(vec![m7a.clone()], c7b).unwrap();
    let (_m9a, c9a) = gg18_sign9(vec![m8b.clone()], c8a).unwrap();
    let (m9b, _c9b) = gg18_sign9(vec![m8a.clone()], c8b).unwrap();
    gg18_sign10(vec![m9b], c9a).unwrap()
}

#[test]
fn t2_of_n3_two_subsets() {
    // 2-of-3 key generation
    let (m1_p0, c1_p0) = key_gen_1(3, 2, 0).unwrap();
    let (m1_p1, c1_p1) = key_gen_1(3, 2, 1).unwrap();
    let (m1_p2, c1_p2) = key_gen_1(3, 2, 2).unwrap();
    let (m2_p0, c2_p0) = key_gen_2(vec![m1_p1.clone(), m1_p2.clone()], c1_p0).unwrap();
    let (m2_p1, c2_p1) = key_gen_2(vec![m1_p0.clone(), m1_p2.clone()], c1_p1).unwrap();
    let (m2_p2, c2_p2) = key_gen_2(vec![m1_p0.clone(), m1_p1.clone()], c1_p2).unwrap();
    let (m3_p0, c3_p0) = key_gen_3(vec![m2_p1.clone(), m2_p2.clone()], c2_p0).unwrap();
    let (m3_p1, c3_p1) = key_gen_3(vec![m2_p0.clone(), m2_p2.clone()], c2_p1).unwrap();
    let (m3_p2, c3_p2) = key_gen_3(vec![m2_p0.clone(), m2_p1.clone()], c2_p2).unwrap();
    let (m4_p0, c4_p0) = key_gen_4(vec![m3_p1[0].clone(), m3_p2[0].clone()], c3_p0).unwrap();
    let (m4_p1, c4_p1) = key_gen_4(vec![m3_p0[0].clone(), m3_p2[1].clone()], c3_p1).unwrap();
    let (m4_p2, c4_p2) = key_gen_4(vec![m3_p0[1].clone(), m3_p1[1].clone()], c3_p2).unwrap();
    let (m5_p0, c5_p0) = key_gen_5(vec![m4_p1.clone(), m4_p2.clone()], c4_p0).unwrap();
    let (m5_p1, c5_p1) = key_gen_5(vec![m4_p0.clone(), m4_p2.clone()], c4_p1).unwrap();
    let (m5_p2, c5_p2) = key_gen_5(vec![m4_p0.clone(), m4_p1.clone()], c4_p2).unwrap();
    let s_p0 = key_gen_6(vec![m5_p1.clone(), m5_p2.clone()], c5_p0).unwrap();
    let s_p1 = key_gen_6(vec![m5_p0.clone(), m5_p2.clone()], c5_p1).unwrap();
    let s_p2 = key_gen_6(vec![m5_p0.clone(), m5_p1.clone()], c5_p2).unwrap();

    let pk = s_p0.pk.clone();

    let mut hasher = Sha256::new();
    hasher.update(b"random message");
    let hash = hasher.finalize().to_vec();

    let s_p2_again = dup_sign_context(&s_p2);

    // subset {0, 2}
    let sig_a = run_two_party_sign(s_p0, s_p2, vec![0, 2], hash.clone());
    check_sig(&sig_a[..32], &sig_a[32..], "random message".as_bytes(), &pk);

    // subset {1, 2} of the same key
    let sig_b = run_two_party_sign(s_p1, s_p2_again, vec![1, 2], hash.clone());
    check_sig(&sig_b[..32], &sig_b[32..], "random message".as_bytes(), &pk);
}

#[test]
fn sign_detects_tampered_decommitment() {
    // 2-of-2 key generation
    let (m1_p0, c1_p0) = key_gen_1(2, 2, 0).unwrap();
    let (m1_p1, c1_p1) = key_gen_1(2, 2, 1).unwrap();
    let (m2_p0, c2_p0) = key_gen_2(vec![m1_p1.clone()], c1_p0).unwrap();
    let (m2_p1, c2_p1) = key_gen_2(vec![m1_p0.clone()], c1_p1).unwrap();
    let (m3_p0, c3_p0) = key_gen_3(vec![m2_p1.clone()], c2_p0).unwrap();
    let (m3_p1, c3_p1) = key_gen_3(vec![m2_p0.clone()], c2_p1).unwrap();
    let (m4_p0, c4_p0) = key_gen_4(vec![m3_p1[0].clone()], c3_p0).unwrap();
    let (m4_p1, c4_p1) = key_gen_4(vec![m3_p0[0].clone()], c3_p1).unwrap();
    let (m5_p0, c5_p0) = key_gen_5(vec![m4_p1.clone()], c4_p0).unwrap();
    let (m5_p1, c5_p1) = key_gen_5(vec![m4_p0.clone()], c4_p1).unwrap();
    let s_p0 = key_gen_6(vec![m5_p1.clone()], c5_p0).unwrap();
    let s_p1 = key_gen_6(vec![m5_p0.clone()], c5_p1).unwrap();

    let mut hasher = Sha256::new();
    hasher.update(b"random message");
    let hash = hasher.finalize().to_vec();

    let (sm1_p0, sc1_p0) = gg18_sign1(s_p0, vec![0, 1], 0, hash.clone()).unwrap();
    let (sm1_p1, sc1_p1) = gg18_sign1(s_p1, vec![0, 1], 1, hash.clone()).unwrap();
    let (sm2_p0, sc2_p0) = gg18_sign2(vec![sm1_p1.clone()], sc1_p0).unwrap();
    let (sm2_p1, sc2_p1) = gg18_sign2(vec![sm1_p0.clone()], sc1_p1).unwrap();
    let (sm3_p0, sc3_p0) = gg18_sign3(vec![sm2_p1[0].clone()], sc2_p0).unwrap();
    let (sm3_p1, sc3_p1) = gg18_sign3(vec![sm2_p0[0].clone()], sc2_p1).unwrap();
    let (sm4_p0, sc4_p0) = gg18_sign4(vec![sm3_p1.clone()], sc3_p0).unwrap();
    let (_sm4_p1, _sc4_p1) = gg18_sign4(vec![sm3_p0.clone()], sc3_p1).unwrap();

    // deliver party 0 its own round-4 decommitment in place of the
    // peer's: it cannot open the peer's round-1 commitment
    let r = gg18_sign5(vec![sm4_p0.clone()], sc4_p0);
    assert!(r.is_err());
}

#[test]
fn sign_rejects_duplicate_participants() {
    let (kg_msg1_p0, kg_context1_p0) = key_gen_1(2, 2, 0).unwrap();
    let (kg_msg1_p1, kg_context1_p1) = key_gen_1(2, 2, 1).unwrap();
    let (kg_msg2_p0, kg_context2_p0) = key_gen_2(vec![kg_msg1_p1.clone()], kg_context1_p0).unwrap();
    let (kg_msg2_p1, kg_context2_p1) = key_gen_2(vec![kg_msg1_p0.clone()], kg_context1_p1).unwrap();
    let (kg_msg3_p0, kg_context3_p0) = key_gen_3(vec![kg_msg2_p1.clone()], kg_context2_p0).unwrap();
    let (kg_msg3_p1, kg_context3_p1) = key_gen_3(vec![kg_msg2_p0.clone()], kg_context2_p1).unwrap();
    let (kg_msg4_p0, kg_context4_p0) =
        key_gen_4(vec![kg_msg3_p1[0].clone()], kg_context3_p0).unwrap();
    let (kg_msg4_p1, kg_context4_p1) =
        key_gen_4(vec![kg_msg3_p0[0].clone()], kg_context3_p1).unwrap();
    let (kg_msg5_p0, kg_context5_p0) = key_gen_5(vec![kg_msg4_p1.clone()], kg_context4_p0).unwrap();
    let (kg_msg5_p1, kg_context5_p1) = key_gen_5(vec![kg_msg4_p0.clone()], kg_context4_p1).unwrap();
    let sign_context_p0 = key_gen_6(vec![kg_msg5_p1.clone()], kg_context5_p0).unwrap();
    let _sign_context_p1 = key_gen_6(vec![kg_msg5_p0.clone()], kg_context5_p1).unwrap();

    let mut hasher = Sha256::new();
    hasher.update(b"random message");
    let hash = hasher.finalize().to_vec();

    // a participant list with a repeated entry must be rejected with an
    // error, not a crash inside the Lagrange reweighting
    let r = gg18_sign1(sign_context_p0, vec![0, 0], 0, hash);
    assert!(r.is_err());
}
