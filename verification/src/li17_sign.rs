//! Signing for the two-party scheme. Party two commits to an ephemeral
//! key, party one answers with its own, party two decommits and sends a
//! Paillier-encrypted partial signature, and party one decrypts,
//! assembles (r, s), and self-verifies before returning the signature
//! bytes. A failed self-check is a terminal error; no unverified
//! signature is ever returned.
use vstd::prelude::*;

use crate::curve::{big_of_bytes, bytes_of_big, pt_is_zero, scalar_is_zero, sc_of_big, Pt};
use crate::li17_key_gen::{Li17SignP1Context, Li17SignP2Context};
use crate::curve::hash_com;
use crate::gg18_primitives::paillier_wf;
use crate::li17_primitives::{
    p1_eph_create, p1_eph_msg_ok, p1_eph_msg_public_share, p1_eph_secret, p1_eph_share,
    p1_sig_compute, p1_sig_of, p1_sig_r, p1_sig_s, p2_eph2_public_share, p2_eph2_share,
    p2_eph_commit, p2_eph_decommit_ok, p2_eph_public, p2_eph_secret, p2_eph_verify_decommit,
    p2_ephm1_pk_com, p2_ephm1_zk_com, p2_ephwit_pk_blind, p2_ephwit_proof_hash, p2_ephwit_share,
    p2_ephwit_zk_blind, p2_partial_sig, partial_sig_c3, pp_ek, psig_c3, sig_r_big, sig_s_big,
};
use multi_party_ecdsa::protocols::two_party_ecdsa::lindell_2017::{party_one, party_two};

verus! {

use crate::li17_primitives::p1_eph_verify;

pub struct Li17SignP2Context1 {
    pub public: Pt,
    pub p2_private: party_two::Party2Private,
    pub p2_paillier_public: party_two::PaillierPublic,
    pub hash: curv::BigInt,
    pub p2_eph_comm_witness: party_two::EphCommWitness,
    pub p2_eph_ec_key_pair: party_two::EphEcKeyPair,
}

pub type Li17SignP2Msg1 = party_two::EphKeyGenFirstMsg;

pub type Li17SignP2Msg2 = (party_two::PartialSig, party_two::EphKeyGenSecondMsg);

pub struct Li17SignP1Context1 {
    pub public: Pt,
    pub p1_private: party_one::Party1Private,
    pub hash: curv::BigInt,
    pub p1_eph_ec_key_pair: party_one::EphEcKeyPair,
    pub p1_msg1_from_p2: Li17SignP2Msg1,
}

/// Party two, round 1: sample an ephemeral key pair and commit to its
/// public share and proof digest — party two commits before party one
/// reveals anything ephemeral; the message hash is fixed for the whole
/// ceremony here.
pub fn li17_p2_sign1(context: Li17SignP2Context, message_hash: &Vec<u8>) -> (r: Result<
    (Li17SignP2Msg1, Li17SignP2Context1),
    &'static str,
>)
    ensures
        r is Ok,
        r is Ok ==> {
            let ctx = r->Ok_0.1;
            let msg = r->Ok_0.0;
            &&& ctx.public == context.public
            &&& ctx.p2_private == context.p2_private
            &&& ctx.p2_paillier_public == context.p2_paillier_public
            &&& ctx.hash == big_of_bytes(message_hash@)
            &&& !scalar_is_zero(p2_eph_secret(ctx.p2_eph_ec_key_pair))
            &&& p2_ephwit_share(ctx.p2_eph_comm_witness) == p2_eph_public(ctx.p2_eph_ec_key_pair)
            &&& p2_ephm1_pk_com(msg) == hash_com(
                crate::curve::pt_to_big(p2_ephwit_share(ctx.p2_eph_comm_witness)),
                p2_ephwit_pk_blind(ctx.p2_eph_comm_witness),
            )
            &&& p2_ephm1_zk_com(msg) == hash_com(
                p2_ephwit_proof_hash(ctx.p2_eph_comm_witness),
                p2_ephwit_zk_blind(ctx.p2_eph_comm_witness),
            )
        },
{
    let (eph_party_two_first_message, eph_comm_witness, eph_ec_key_pair_party2) = p2_eph_commit();

    let context1 = Li17SignP2Context1 {
        public: context.public,
        p2_private: context.p2_private,
        p2_paillier_public: context.p2_paillier_public,
        hash: crate::curve::big_from_bytes(message_hash.as_slice()),
        p2_eph_comm_witness: eph_comm_witness,
        p2_eph_ec_key_pair: eph_ec_key_pair_party2,
    };
    Ok((eph_party_two_first_message, context1))
}

/// Party two, round 2: verify party one's ephemeral proof, decommit,
/// and compute the Paillier-encrypted partial signature from the
/// private share and the message hash.
pub fn li17_p2_sign2(msg: Li17SignP1Msg1, context: Li17SignP2Context1) -> (r: Result<
    Li17SignP2Msg2,
    &'static str,
>)
    requires
        !scalar_is_zero(p2_eph_secret(context.p2_eph_ec_key_pair)),
    ensures
        r is Ok <==> p1_eph_msg_ok(msg) && !pt_is_zero(p1_eph_share(msg)) && paillier_wf(
            pp_ek(context.p2_paillier_public),
        ),
{
    let eph_party_two_second_message = match p2_eph_verify_decommit(
        context.p2_eph_comm_witness,
        &msg,
    ) {
        Ok(m) => m,
        Err(_) => {
            return Err("party1 DLog proof failed");
        },
    };

    let p1_share = p1_eph_msg_public_share(&msg);
    if crate::curve::point_is_zero_exec(&p1_share) {
        return Err("degenerate ephemeral nonce point");
    }

    let zero = crate::curve::big_from_u64(0);
    let ek = crate::li17_primitives::pp_get_ek(&context.p2_paillier_public);
    if !crate::curve::big_greater(&crate::gg18_primitives::ek_get_n(&ek), &zero)
        || !crate::curve::big_greater(&crate::gg18_primitives::ek_get_nn(&ek), &zero) {
        return Err("malformed paillier key");
    }

    let partial_sig = p2_partial_sig(
        &context.p2_paillier_public,
        &context.p2_private,
        &context.p2_eph_ec_key_pair,
        &p1_share,
        &context.hash,
    );
    Ok((partial_sig, eph_party_two_second_message))
}

pub type Li17SignP1Msg1 = party_one::EphKeyGenFirstMsg;

/// Party one, round 1: sample an ephemeral key pair after receiving
/// party two's commitment, which is retained for the decommit check.
pub fn li17_p1_sign1(
    msg: Li17SignP2Msg1,
    context: Li17SignP1Context,
    message_hash: &Vec<u8>,
) -> (r: Result<(Li17SignP1Msg1, Li17SignP1Context1), &'static str>)
    ensures
        r is Ok,
        r is Ok ==> {
            let ctx = r->Ok_0.1;
            &&& ctx.public == context.public
            &&& ctx.p1_private == context.p1_private
            &&& ctx.hash == big_of_bytes(message_hash@)
            &&& ctx.p1_msg1_from_p2 == msg
            &&& !scalar_is_zero(p1_eph_secret(ctx.p1_eph_ec_key_pair))
        },
{
    let (eph_party_one_first_message, eph_ec_key_pair_party1) = p1_eph_create();
    let context2 = Li17SignP1Context1 {
        public: context.public,
        p1_private: context.p1_private,
        hash: crate::curve::big_from_bytes(message_hash.as_slice()),
        p1_eph_ec_key_pair: eph_ec_key_pair_party1,
        p1_msg1_from_p2: msg,
    };
    Ok((eph_party_one_first_message, context2))
}

/// A big-endian integer encoding left-padded with zero bytes to
/// exactly 32 bytes.
pub open spec fn pad32(s: Seq<u8>) -> Seq<u8>
    recommends
        s.len() <= 32,
{
    Seq::new((32 - s.len()) as nat, |i: int| 0u8) + s
}

/// Left-pads a big-endian integer encoding to exactly 32 bytes.
fn pad_to_32(v: Vec<u8>) -> (r: Result<Vec<u8>, &'static str>)
    ensures
        r is Ok <==> v@.len() <= 32,
        r is Ok ==> r->Ok_0@ == pad32(v@) && r->Ok_0@.len() == 32,
{
    if v.len() > 32 {
        return Err("signature component too long");
    }
    let mut out: Vec<u8> = Vec::new();
    let pad = 32 - v.len();
    let mut k: usize = 0;
    while k < pad
        invariant
            k <= pad,
            out@.len() == k,
            forall|j: int| 0 <= j < k ==> out@[j] == 0u8,
        decreases pad - k,
    {
        out.push(0u8);
        k = k + 1;
    }
    let mut tail = v;
    out.append(&mut tail);
    proof {
        assert(out@ =~= pad32(v@));
    }
    Ok(out)
}

/// Party one, round 2: check party two's decommitment against its
/// commitment, decrypt and combine into the full (r, s), and verify the
/// signature against the joint public key before returning exactly the
/// two 32-byte big-endian components of that signature concatenated.
pub fn li17_p1_sign2(msg: Li17SignP2Msg2, context: Li17SignP1Context1) -> (r: Result<
    Vec<u8>,
    &'static str,
>)
    requires
        !scalar_is_zero(p1_eph_secret(context.p1_eph_ec_key_pair)),
    ensures
        r is Ok <==> {
            let sg = p1_sig_of(
                context.p1_private,
                psig_c3(msg.0),
                context.p1_eph_ec_key_pair,
                p2_eph2_share(msg.1),
            );
            &&& p2_eph_decommit_ok(context.p1_msg1_from_p2, msg.1)
            &&& !pt_is_zero(p2_eph2_share(msg.1))
            &&& crate::gg18_primitives::ecdsa_sig_ok(
                sc_of_big(sig_r_big(sg)),
                sc_of_big(sig_s_big(sg)),
                context.public,
                context.hash,
            )
            &&& bytes_of_big(sig_r_big(sg)).len() <= 32
            &&& bytes_of_big(sig_s_big(sg)).len() <= 32
        },
        r is Ok ==> {
            let sg = p1_sig_of(
                context.p1_private,
                psig_c3(msg.0),
                context.p1_eph_ec_key_pair,
                p2_eph2_share(msg.1),
            );
            &&& r->Ok_0@ == pad32(bytes_of_big(sig_r_big(sg))) + pad32(bytes_of_big(sig_s_big(sg)))
            &&& r->Ok_0@.len() == 64
        },
{
    let (partial_sig, eph_party_two_second_message) = msg;

    if !p1_eph_verify(&context.p1_msg1_from_p2, &eph_party_two_second_message) {
        return Err("party2 decommit failed");
    }

    let p2_share = p2_eph2_public_share(&eph_party_two_second_message);
    if crate::curve::point_is_zero_exec(&p2_share) {
        return Err("degenerate ephemeral nonce point");
    }

    let sig = p1_sig_compute(
        &context.p1_private,
        &partial_sig_c3(&partial_sig),
        &context.p1_eph_ec_key_pair,
        &p2_share,
    );

    let r_big = p1_sig_r(&sig);
    let s_big = p1_sig_s(&sig);
    let r_fe = crate::curve::scalar_from_big(&r_big);
    let s_fe = crate::curve::scalar_from_big(&s_big);
    if !crate::gg18_primitives::ecdsa_verify(&r_fe, &s_fe, &context.public, &context.hash) {
        return Err("invalid signature");
    }

    let r_bytes = match pad_to_32(crate::curve::big_to_bytes(&r_big)) {
        Ok(v) => v,
        Err(e) => {
            return Err(e);
        },
    };
    let mut s_bytes = match pad_to_32(crate::curve::big_to_bytes(&s_big)) {
        Ok(v) => v,
        Err(e) => {
            return Err(e);
        },
    };
    let mut out = r_bytes;
    out.append(&mut s_bytes);
    Ok(out)
}

} // verus!
