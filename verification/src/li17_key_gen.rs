//! Key generation for the two-party scheme with asymmetric roles.
//! Party one holds a Paillier key pair over its share; party two ends
//! with party one's Paillier public key and encrypted share, plus the
//! proofs binding them to party one's public point.
use vstd::prelude::*;

use crate::curve::Pt;
use crate::curve::{coprime, hash_com, pt_to_big};
use crate::li17_primitives::{
    check_pdl_statement, correct_key_inputs_ok, correct_key_ok, ni_proof_len, p1_comwit_pk_blind,
    p1_comwit_proof_t, p1_comwit_share, p1_comwit_zk_blind, p1_compute_pubkey,
    p1_correct_key_proof, p1_decommit_ok, p1_generate_paillier, p1_keygen_commit, p1_kgm1_pk_com,
    p1_kgm1_zk_com, p1_kgm2_public_share, p1_kgm2_witness, p1_kp_public, p1_kp_public_exec,
    p1_pdl_proof, p1_pub_of, p1_set_private, p1_verify_decommit, p2_compute_pubkey,
    p2_keygen_create, p2_kgm1_public_share, p2_kgm1_share, p2_kg_msg_dlog_ok, p2_kp_public,
    p2_kp_public_exec, p2_paillier_public_new, p2_pdl_verify, p2_pub_of, p2_set_private,
    p2_verify_commitments_and_dlog, p2_verify_correct_key, pdl_ok, pdl_statement_ok, pdlpf_z,
    pdlst_n_tilde, pp_ek, pp_share,
};
use multi_party_ecdsa::protocols::two_party_ecdsa::lindell_2017::{party_one, party_two};

verus! {

// party one structures
pub struct Li17KeyGenP1Context1 {
    pub p1_ec_key_pair: party_one::EcKeyPair,
    pub p1_comm_witness: party_one::CommWitness,
}

pub type Li17KeyGenP1Msg1 = party_one::KeyGenFirstMsg;

/// Party one's long-term signing context: the joint public key, both
/// public shares, and party one's private material.
pub struct Li17SignP1Context {
    pub public: Pt,
    pub public_p1: Pt,
    pub public_p2: Pt,
    pub p1_private: party_one::Party1Private,
}

pub type Li17KeyGenP1Msg2 = (
    party_one::KeyGenSecondMsg,
    zk_paillier::zkproofs::NiCorrectKeyProof,
    multi_party_ecdsa::utilities::zk_pdl_with_slack::PDLwSlackStatement,
    multi_party_ecdsa::utilities::zk_pdl_with_slack::PDLwSlackProof,
    zk_paillier::zkproofs::CompositeDLogProof,
    kzen_paillier::EncryptionKey,
    curv::BigInt,
);

// party two structures
pub struct Li17KeyGenP2Context1 {
    pub p2_msg1_from_p1: party_one::KeyGenFirstMsg,
    pub p2_ec_key_pair: party_two::EcKeyPair,
}

pub type Li17KeyGenP2Msg1 = party_two::KeyGenFirstMsg;

/// Party two's long-term signing context: the joint public key, both
/// public shares, party two's private share, and party one's Paillier
/// public view.
pub struct Li17SignP2Context {
    pub public: Pt,
    pub public_p1: Pt,
    pub public_p2: Pt,
    pub p2_private: party_two::Party2Private,
    pub p2_paillier_public: party_two::PaillierPublic,
}

pub type Li17KeyGenP2Msg2 = Pt;

/// Party one, round 1: create an EC key pair and broadcast hash
/// commitments to its public share and to its proof's commitment point;
/// the retained witness opens both, and nothing that depends on the
/// secret share is revealed yet.
pub fn li17_p1_key_gen1() -> (r: Result<(Li17KeyGenP1Msg1, Li17KeyGenP1Context1), &'static str>)
    ensures
        r is Ok,
        r is Ok ==> {
            let ctx = r->Ok_0.1;
            let msg = r->Ok_0.0;
            &&& p1_comwit_share(ctx.p1_comm_witness) == p1_kp_public(ctx.p1_ec_key_pair)
            &&& p1_kgm1_pk_com(msg) == hash_com(
                pt_to_big(p1_comwit_share(ctx.p1_comm_witness)),
                p1_comwit_pk_blind(ctx.p1_comm_witness),
            )
            &&& p1_kgm1_zk_com(msg) == hash_com(
                p1_comwit_proof_t(ctx.p1_comm_witness),
                p1_comwit_zk_blind(ctx.p1_comm_witness),
            )
        },
{
    let (party1_first_message, p1_comm_witness, p1_ec_key_pair) = p1_keygen_commit();
    let context1 = Li17KeyGenP1Context1 { p1_ec_key_pair, p1_comm_witness };
    Ok((party1_first_message, context1))
}

/// Party one, round 2: verify party two's discrete-log proof, decommit,
/// generate the Paillier key pair with the encrypted share, and produce
/// the correct-key and PDL proof bundle. The joint public key is party
/// two's share raised to party one's secret.
pub fn li17_p1_key_gen2(msg: Li17KeyGenP2Msg1, context: Li17KeyGenP1Context1) -> (r: Result<
    (Li17KeyGenP1Msg2, Li17SignP1Context),
    &'static str,
>)
    ensures
        r is Ok <==> p2_kg_msg_dlog_ok(msg),
        r is Ok ==> {
            let ctx = r->Ok_0.1;
            &&& p1_kgm2_witness(r->Ok_0.0.0) == context.p1_comm_witness
            &&& ctx.public == p1_pub_of(ctx.p1_private, p2_kgm1_share(msg))
            &&& ctx.public_p1 == p1_kp_public(context.p1_ec_key_pair)
            &&& ctx.public_p2 == p2_kgm1_share(msg)
            &&& coprime(pdlpf_z(r->Ok_0.0.3), pdlst_n_tilde(r->Ok_0.0.2))
        },
{
    let p1_second_message = match p1_verify_decommit(context.p1_comm_witness, &msg) {
        Ok(m) => m,
        Err(_) => {
            return Err("failed to verify and decommit");
        },
    };

    let paillier_key_pair = p1_generate_paillier(&context.p1_ec_key_pair);
    let party_one_private = p1_set_private(&context.p1_ec_key_pair, &paillier_key_pair);

    let correct_key_proof = p1_correct_key_proof(&paillier_key_pair);
    let (pdl_statement, pdl_proof, composite_dlog_proof) = p1_pdl_proof(
        &party_one_private,
        &paillier_key_pair,
    );
    let ek = crate::li17_primitives::paillier_kp_ek(&paillier_key_pair);
    let encrypted_share = crate::li17_primitives::paillier_kp_encrypted_share(&paillier_key_pair);

    let p2_share = p2_kgm1_public_share(&msg);
    let public_key = p1_compute_pubkey(&party_one_private, &p2_share);
    let sign_context = Li17SignP1Context {
        public: public_key,
        public_p1: p1_kp_public_exec(&context.p1_ec_key_pair),
        public_p2: p2_share,
        p1_private: party_one_private,
    };

    Ok((
        (
            p1_second_message,
            correct_key_proof,
            pdl_statement,
            pdl_proof,
            composite_dlog_proof,
            ek,
            encrypted_share,
        ),
        sign_context,
    ))
}

/// Party two, round 1: create an EC key pair, triggered by party one's
/// commitment message, which is retained for the later decommit check.
pub fn li17_p2_key_gen1(msg: Li17KeyGenP1Msg1) -> (r: Result<
    (Li17KeyGenP2Msg1, Li17KeyGenP2Context1),
    &'static str,
>)
    ensures
        r is Ok,
        r is Ok ==> {
            let ctx = r->Ok_0.1;
            &&& ctx.p2_msg1_from_p1 == msg
            &&& p2_kgm1_share(r->Ok_0.0) == p2_kp_public(ctx.p2_ec_key_pair)
        },
{
    let (p2_first_message, p2_ec_key_pair) = p2_keygen_create();
    let context2 = Li17KeyGenP2Context1 { p2_msg1_from_p1: msg, p2_ec_key_pair };
    Ok((p2_first_message, context2))
}

/// Party two, round 2: verify party one's decommitment and discrete-log
/// proof, the shape and validity of the Paillier correct-key proof, and
/// the shape and validity of the PDL bundle binding the encrypted share
/// to party one's point; derive the joint public key as party one's
/// share raised to party two's secret. The one shape that cannot be
/// inspected — the PDL proof's private commitment value — is required
/// instead, and holds of every proof bundle party one's rounds emit.
pub fn li17_p2_key_gen2(msg: Li17KeyGenP1Msg2, context: Li17KeyGenP2Context1) -> (r: Result<
    (Li17KeyGenP2Msg2, Li17SignP2Context),
    &'static str,
>)
    requires
        coprime(pdlpf_z(msg.3), pdlst_n_tilde(msg.2)),
    ensures
        r is Ok <==> {
            &&& p1_decommit_ok(context.p2_msg1_from_p1, msg.0)
            &&& correct_key_inputs_ok(msg.1, msg.5)
            &&& correct_key_ok(msg.1, msg.5)
            &&& pdl_statement_ok(msg.2)
            &&& pdl_ok(msg.4, msg.2, msg.3, msg.5, msg.6, p1_comwit_share(p1_kgm2_witness(msg.0)))
        },
        r is Ok ==> {
            let ctx = r->Ok_0.1;
            &&& ctx.public == p2_pub_of(
                context.p2_ec_key_pair,
                p1_comwit_share(p1_kgm2_witness(msg.0)),
            )
            &&& r->Ok_0.0 == ctx.public
            &&& ctx.public_p1 == p1_comwit_share(p1_kgm2_witness(msg.0))
            &&& ctx.public_p2 == p2_kp_public(context.p2_ec_key_pair)
            &&& pp_ek(ctx.p2_paillier_public) == msg.5
            &&& pp_share(ctx.p2_paillier_public) == msg.6
        },
{
    let (
        party_one_second_message,
        correct_key_proof,
        pdl_statement,
        pdl_proof,
        composite_dlog_proof,
        paillier_ek,
        paillier_encrypted_share,
    ) = msg;

    if !p2_verify_commitments_and_dlog(&context.p2_msg1_from_p1, &party_one_second_message) {
        return Err("failed to verify commitments and DLog proof");
    }

    let zero = crate::curve::big_from_u64(0);
    if ni_proof_len(&correct_key_proof) < 11 || !crate::curve::big_greater(
        &crate::gg18_primitives::ek_get_n(&paillier_ek),
        &zero,
    ) {
        return Err("bad paillier key");
    }
    if !p2_verify_correct_key(correct_key_proof, &paillier_ek) {
        return Err("bad paillier key");
    }

    if !check_pdl_statement(&pdl_statement) {
        return Err("PDL error");
    }

    let party_two_paillier = p2_paillier_public_new(paillier_ek, paillier_encrypted_share);

    let p1_share = p1_kgm2_public_share(&party_one_second_message);
    if !p2_pdl_verify(
        &composite_dlog_proof,
        &pdl_statement,
        &pdl_proof,
        &party_two_paillier,
        &p1_share,
    ) {
        return Err("PDL error");
    }

    let party_two_private = p2_set_private(&context.p2_ec_key_pair);
    let public_key = p2_compute_pubkey(&context.p2_ec_key_pair, &p1_share);

    let sign_context = Li17SignP2Context {
        public: public_key.clone(),
        public_p1: p1_share,
        public_p2: p2_kp_public_exec(&context.p2_ec_key_pair),
        p2_private: party_two_private,
        p2_paillier_public: party_two_paillier,
    };

    Ok((public_key, sign_context))
}

} // verus!
