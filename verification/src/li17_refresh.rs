//! Share refresh for the two-party scheme. A coin-flip sub-protocol
//! jointly derives a blinding scalar unknown to either party alone;
//! party one rescales its share by it and re-encrypts under a fresh
//! Paillier key with a new proof bundle, party two rescales by the
//! inverse and verifies the new proofs. The joint public key is
//! invariant and the refresh can be repeated any number of times.
use vstd::prelude::*;

use crate::curve::{
    cf_commit_ok, cf_final, cf_msg1_com, cf_msg2_com, cf_reveal_ok, coin_flip_commit,
    coin_flip_commit_check, coin_flip_finalize, coin_flip_msg1_com, coin_flip_msg2_com,
    coin_flip_reveal, coin_flip_reveal_check, coin_flip_share, coin_res, pt_mul, sc_inv,
    scalar_is_zero, CoinFlipMsg1, CoinFlipMsg2, Pt, Sc,
};
use crate::li17_key_gen::{Li17SignP1Context, Li17SignP2Context};
use crate::curve::coprime;
use crate::li17_primitives::{
    check_pdl_statement, correct_key_inputs_ok, correct_key_ok, ni_proof_len, p1_refresh_private,
    p2_paillier_public_new, p2_pdl_verify, p2_update_private, p2_verify_correct_key, pdl_ok,
    pdl_statement_ok, pdlpf_z, pdlst_n_tilde, pp_ek, pp_share,
};
use multi_party_ecdsa::protocols::two_party_ecdsa::lindell_2017::{party_one, party_two};

verus! {

pub struct Li17RefreshP1Context1 {
    pub public: Pt,
    pub public_p1: Pt,
    pub public_p2: Pt,
    pub p1_private: party_one::Party1Private,
    pub p1_m1: Sc,
    pub p1_r1: Sc,
}

pub type Li17RefreshP1Msg1 = CoinFlipMsg1;

pub type Li17RefreshP1Msg2 = (
    CoinFlipMsg2,
    zk_paillier::zkproofs::NiCorrectKeyProof,
    multi_party_ecdsa::utilities::zk_pdl_with_slack::PDLwSlackStatement,
    multi_party_ecdsa::utilities::zk_pdl_with_slack::PDLwSlackProof,
    zk_paillier::zkproofs::CompositeDLogProof,
    kzen_paillier::EncryptionKey,
    curv::BigInt,
);

pub struct Li17RefreshP2Context1 {
    pub public: Pt,
    pub public_p1: Pt,
    pub public_p2: Pt,
    pub p2_private: party_two::Party2Private,
    pub p2_coin_flip_seed: Sc,
    pub p2_msg1_from_p1: CoinFlipMsg1,
}

pub type Li17RefreshP2Msg1 = Sc;

/// Party one, round 1: commit to a fresh coin-flip seed. The public
/// key material is carried through unchanged.
pub fn li17_p1_refresh1(context: Li17SignP1Context) -> (r: Result<
    (Li17RefreshP1Msg1, Li17RefreshP1Context1),
    &'static str,
>)
    ensures
        r is Ok,
        r is Ok ==> {
            let ctx = r->Ok_0.1;
            &&& cf_commit_ok(r->Ok_0.0)
            &&& ctx.public == context.public
            &&& ctx.public_p1 == context.public_p1
            &&& ctx.public_p2 == context.public_p2
            &&& ctx.p1_private == context.p1_private
        },
{
    let (p1_coin_flip_first_message, m1, r1) = coin_flip_commit();

    let context1 = Li17RefreshP1Context1 {
        public: context.public,
        public_p1: context.public_p1,
        public_p2: context.public_p2,
        p1_private: context.p1_private,
        p1_m1: m1,
        p1_r1: r1,
    };
    Ok((p1_coin_flip_first_message, context1))
}

/// Party one, round 2: reveal the committed seed, derive the joint
/// blinding scalar, rescale the public shares, and re-encrypt the
/// rescaled private share under a fresh Paillier key with a new
/// correct-key and PDL proof bundle. The joint public key is unchanged.
pub fn li17_p1_refresh2(msg: Li17RefreshP2Msg1, context: Li17RefreshP1Context1) -> (r: Result<
    (Li17RefreshP1Msg2, Li17SignP1Context),
    &'static str,
>)
    ensures
        r is Ok <==> !scalar_is_zero(coin_res(context.p1_m1, msg)),
        r is Ok ==> {
            let ctx = r->Ok_0.1;
            let res = coin_res(context.p1_m1, msg);
            &&& ctx.public == context.public
            &&& ctx.public_p1 == pt_mul(context.public_p1, res)
            &&& ctx.public_p2 == pt_mul(context.public_p2, sc_inv(res))
            &&& coprime(pdlpf_z(r->Ok_0.0.3), pdlst_n_tilde(r->Ok_0.0.2))
        },
{
    let revealed = coin_flip_reveal(&msg, &context.p1_m1, &context.p1_r1);
    let (p1_second_message, res) = revealed;

    let res_inv = match crate::curve::scalar_invert(&res) {
        Some(v) => v,
        None => {
            return Err("degenerate refresh factor");
        },
    };

    let refreshed = p1_refresh_private(&context.p1_private, &crate::curve::scalar_to_big(&res));
    let (
        ek_new,
        c_key_new,
        new_private,
        correct_key_proof,
        pdl_statement,
        pdl_proof,
        composite_dlog_proof,
    ) = refreshed;

    let sign_context = Li17SignP1Context {
        public: context.public,
        public_p1: crate::curve::point_mul(&context.public_p1, &res),
        public_p2: crate::curve::point_mul(&context.public_p2, &res_inv),
        p1_private: new_private,
    };

    Ok((
        (
            p1_second_message,
            correct_key_proof,
            pdl_statement,
            pdl_proof,
            composite_dlog_proof,
            ek_new,
            c_key_new,
        ),
        sign_context,
    ))
}

/// Party two, round 1: check the coin-flip commitment proof and answer
/// with a fresh seed of its own.
pub fn li17_p2_refresh1(msg: Li17RefreshP1Msg1, context: Li17SignP2Context) -> (r: Result<
    (Li17RefreshP2Msg1, Li17RefreshP2Context1),
    &'static str,
>)
    ensures
        r is Ok <==> cf_commit_ok(msg),
        r is Ok ==> {
            let ctx = r->Ok_0.1;
            &&& ctx.p2_msg1_from_p1 == msg
            &&& r->Ok_0.0 == ctx.p2_coin_flip_seed
            &&& ctx.public == context.public
            &&& ctx.public_p1 == context.public_p1
            &&& ctx.public_p2 == context.public_p2
            &&& ctx.p2_private == context.p2_private
        },
{
    if !coin_flip_commit_check(&msg) {
        return Err("coin flip commitment proof failed");
    }
    let p2_coin_flip_seed = coin_flip_share(&msg);
    let out_seed = p2_coin_flip_seed.clone();
    let context2 = Li17RefreshP2Context1 {
        public: context.public,
        public_p1: context.public_p1,
        public_p2: context.public_p2,
        p2_private: context.p2_private,
        p2_coin_flip_seed,
        p2_msg1_from_p1: msg,
    };
    Ok((out_seed, context2))
}

/// Party two, round 2: check the coin-flip reveal against the round-1
/// commitment, derive the joint blinding scalar, check the shape and
/// validity of the fresh correct-key and PDL proofs over the
/// re-encrypted share, and rescale the public shares and the private
/// key by the inverse. The joint public key is unchanged. The PDL
/// proof's private commitment value cannot be inspected and is required
/// instead; it holds of every proof bundle party one's rounds emit.
pub fn li17_p2_refresh2(msg: Li17RefreshP1Msg2, context: Li17RefreshP2Context1) -> (r: Result<
    Li17SignP2Context,
    &'static str,
>)
    requires
        coprime(pdlpf_z(msg.3), pdlst_n_tilde(msg.2)),
    ensures
        r is Ok <==> {
            let res = cf_final(msg.0, context.p2_coin_flip_seed);
            &&& cf_reveal_ok(msg.0)
            &&& cf_msg2_com(msg.0) == cf_msg1_com(context.p2_msg1_from_p1)
            &&& pdl_statement_ok(msg.2)
            &&& pdl_ok(msg.4, msg.2, msg.3, msg.5, msg.6, pt_mul(context.public_p1, res))
            &&& correct_key_inputs_ok(msg.1, msg.5)
            &&& correct_key_ok(msg.1, msg.5)
            &&& !scalar_is_zero(res)
        },
        r is Ok ==> {
            let ctx = r->Ok_0;
            let res = cf_final(msg.0, context.p2_coin_flip_seed);
            &&& ctx.public == context.public
            &&& ctx.public_p1 == pt_mul(context.public_p1, res)
            &&& ctx.public_p2 == pt_mul(context.public_p2, sc_inv(res))
            &&& pp_ek(ctx.p2_paillier_public) == msg.5
            &&& pp_share(ctx.p2_paillier_public) == msg.6
        },
{
    let (reveal, correct_key_proof, pdl_statement, pdl_proof, composite_dlog_proof, ek_new, c_new) =
        msg;

    if !coin_flip_reveal_check(&reveal) {
        return Err("proof failed");
    }
    let committed = coin_flip_msg1_com(&context.p2_msg1_from_p1);
    if !crate::curve::point_eq(&coin_flip_msg2_com(&reveal), &committed) {
        return Err("proof failed");
    }
    let res = coin_flip_finalize(&reveal, &context.p2_coin_flip_seed, &committed);

    if !check_pdl_statement(&pdl_statement) {
        return Err("proof failed");
    }

    let zero = crate::curve::big_from_u64(0);
    if ni_proof_len(&correct_key_proof) < 11 || !crate::curve::big_greater(
        &crate::gg18_primitives::ek_get_n(&ek_new),
        &zero,
    ) {
        return Err("proof failed");
    }

    let party_two_paillier = p2_paillier_public_new(ek_new, c_new);

    let q1 = crate::curve::point_mul(&context.public_p1, &res);
    if !p2_pdl_verify(
        &composite_dlog_proof,
        &pdl_statement,
        &pdl_proof,
        &party_two_paillier,
        &q1,
    ) {
        return Err("proof failed");
    }

    if !p2_verify_correct_key(correct_key_proof, &crate::li17_primitives::pp_get_ek(
        &party_two_paillier,
    )) {
        return Err("proof failed");
    }

    let res_inv = match crate::curve::scalar_invert(&res) {
        Some(v) => v,
        None => {
            return Err("degenerate refresh factor");
        },
    };

    let sign_context = Li17SignP2Context {
        public: context.public,
        public_p1: q1,
        public_p2: crate::curve::point_mul(&context.public_p2, &res_inv),
        p2_private: p2_update_private(
            &context.p2_private,
            &crate::curve::scalar_to_big(&res_inv),
        ),
        p2_paillier_public: party_two_paillier,
    };
    Ok(sign_context)
}

} // verus!
