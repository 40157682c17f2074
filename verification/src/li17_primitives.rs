//! Trusted boundary around the multi_party_ecdsa crate's two-party
//! scheme with asymmetric roles, together with the zk_paillier proof
//! types it exchanges.
//!
//! Each wrapper makes one call into the outside crate; deterministic
//! verification outcomes and public fields are given uninterpreted
//! names so that the round contracts can speak about them.
use vstd::prelude::*;

use crate::curve::{
    big_gt_spec, big_of_u64, coprime, gcd_of, hash_com, pow2_big, pt_is_zero, pt_to_big,
    scalar_is_zero, Pt, Sc,
};
use crate::gg18_primitives::{ek_n, ek_nn, paillier_wf};
use multi_party_ecdsa::protocols::two_party_ecdsa::lindell_2017::{party_one, party_two};

verus! {

#[verifier::external_type_specification]
#[verifier::external_body]
pub struct ExP1EcKeyPair(party_one::EcKeyPair);

#[verifier::external_type_specification]
#[verifier::external_body]
pub struct ExP1CommWitness(party_one::CommWitness);

#[verifier::external_type_specification]
#[verifier::external_body]
pub struct ExP1KeyGenFirstMsg(party_one::KeyGenFirstMsg);

#[verifier::external_type_specification]
#[verifier::external_body]
pub struct ExP1KeyGenSecondMsg(party_one::KeyGenSecondMsg);

#[verifier::external_type_specification]
#[verifier::external_body]
pub struct ExPaillierKeyPair(party_one::PaillierKeyPair);

#[verifier::external_type_specification]
#[verifier::external_body]
pub struct ExParty1Private(party_one::Party1Private);

#[verifier::external_type_specification]
#[verifier::external_body]
pub struct ExP1EphEcKeyPair(party_one::EphEcKeyPair);

#[verifier::external_type_specification]
#[verifier::external_body]
pub struct ExP1EphKeyGenFirstMsg(party_one::EphKeyGenFirstMsg);

#[verifier::external_type_specification]
#[verifier::external_body]
pub struct ExP1EphKeyGenSecondMsg(party_one::EphKeyGenSecondMsg);

#[verifier::external_type_specification]
#[verifier::external_body]
pub struct ExP1Signature(party_one::Signature);

#[verifier::external_type_specification]
#[verifier::external_body]
pub struct ExP2EcKeyPair(party_two::EcKeyPair);

#[verifier::external_type_specification]
#[verifier::external_body]
pub struct ExP2KeyGenFirstMsg(party_two::KeyGenFirstMsg);

#[verifier::external_type_specification]
#[verifier::external_body]
pub struct ExP2KeyGenSecondMsg(party_two::KeyGenSecondMsg);

#[verifier::external_type_specification]
#[verifier::external_body]
pub struct ExParty2Private(party_two::Party2Private);

#[verifier::external_type_specification]
#[verifier::external_body]
pub struct ExPaillierPublic(party_two::PaillierPublic);

#[verifier::external_type_specification]
#[verifier::external_body]
pub struct ExP2EphCommWitness(party_two::EphCommWitness);

#[verifier::external_type_specification]
#[verifier::external_body]
pub struct ExP2EphEcKeyPair(party_two::EphEcKeyPair);

#[verifier::external_type_specification]
#[verifier::external_body]
pub struct ExP2EphKeyGenFirstMsg(party_two::EphKeyGenFirstMsg);

#[verifier::external_type_specification]
#[verifier::external_body]
pub struct ExP2EphKeyGenSecondMsg(party_two::EphKeyGenSecondMsg);

#[verifier::external_type_specification]
#[verifier::external_body]
pub struct ExPartialSig(party_two::PartialSig);

#[verifier::external_type_specification]
#[verifier::external_body]
pub struct ExNiCorrectKeyProof(zk_paillier::zkproofs::NiCorrectKeyProof);

#[verifier::external_type_specification]
#[verifier::external_body]
pub struct ExCompositeDLogProof(zk_paillier::zkproofs::CompositeDLogProof);

#[verifier::external_type_specification]
#[verifier::external_body]
pub struct ExPDLwSlackStatement(
    multi_party_ecdsa::utilities::zk_pdl_with_slack::PDLwSlackStatement,
);

#[verifier::external_type_specification]
#[verifier::external_body]
pub struct ExPDLwSlackProof(multi_party_ecdsa::utilities::zk_pdl_with_slack::PDLwSlackProof);

// ---------------------------------------------------------------------
// Names for fields and deterministic outcomes.
// ---------------------------------------------------------------------

pub uninterp spec fn p1_kp_public(kp: party_one::EcKeyPair) -> Pt;

pub uninterp spec fn p1_kgm1_pk_com(m: party_one::KeyGenFirstMsg) -> curv::BigInt;

pub uninterp spec fn p1_kgm1_zk_com(m: party_one::KeyGenFirstMsg) -> curv::BigInt;

pub uninterp spec fn p1_comwit_pk_blind(w: party_one::CommWitness) -> curv::BigInt;

pub uninterp spec fn p1_comwit_zk_blind(w: party_one::CommWitness) -> curv::BigInt;

pub uninterp spec fn p1_comwit_proof_t(w: party_one::CommWitness) -> curv::BigInt;

pub uninterp spec fn p1_comwit_share(w: party_one::CommWitness) -> Pt;

pub uninterp spec fn p2_kg_msg_dlog_ok(m: party_two::KeyGenFirstMsg) -> bool;

pub uninterp spec fn p1_kgm2_witness(m: party_one::KeyGenSecondMsg) -> party_one::CommWitness;

pub uninterp spec fn paillier_ek(kp: party_one::PaillierKeyPair) -> kzen_paillier::EncryptionKey;

pub uninterp spec fn paillier_c(kp: party_one::PaillierKeyPair) -> curv::BigInt;

pub uninterp spec fn p1_pub_of(p: party_one::Party1Private, other: Pt) -> Pt;

pub uninterp spec fn p2_kgm1_share(m: party_two::KeyGenFirstMsg) -> Pt;

pub uninterp spec fn p1_decommit_ok(
    m1: party_one::KeyGenFirstMsg,
    m2: party_one::KeyGenSecondMsg,
) -> bool;

pub uninterp spec fn pp_ek(pp: party_two::PaillierPublic) -> kzen_paillier::EncryptionKey;

pub uninterp spec fn pp_share(pp: party_two::PaillierPublic) -> curv::BigInt;

pub uninterp spec fn correct_key_ok(
    proof: zk_paillier::zkproofs::NiCorrectKeyProof,
    ek: kzen_paillier::EncryptionKey,
) -> bool;

pub uninterp spec fn pdl_ok(
    cdp: zk_paillier::zkproofs::CompositeDLogProof,
    st: multi_party_ecdsa::utilities::zk_pdl_with_slack::PDLwSlackStatement,
    pf: multi_party_ecdsa::utilities::zk_pdl_with_slack::PDLwSlackProof,
    ek: kzen_paillier::EncryptionKey,
    ciphertext: curv::BigInt,
    q1: Pt,
) -> bool;

pub uninterp spec fn p2_pub_of(kp: party_two::EcKeyPair, other: Pt) -> Pt;

pub uninterp spec fn p2_kp_public(kp: party_two::EcKeyPair) -> Pt;

pub uninterp spec fn p2_eph_secret(kp: party_two::EphEcKeyPair) -> Sc;

pub uninterp spec fn p2_eph_public(kp: party_two::EphEcKeyPair) -> Pt;

pub uninterp spec fn p2_ephm1_pk_com(m: party_two::EphKeyGenFirstMsg) -> curv::BigInt;

pub uninterp spec fn p2_ephm1_zk_com(m: party_two::EphKeyGenFirstMsg) -> curv::BigInt;

pub uninterp spec fn p2_ephwit_share(w: party_two::EphCommWitness) -> Pt;

pub uninterp spec fn p2_ephwit_pk_blind(w: party_two::EphCommWitness) -> curv::BigInt;

pub uninterp spec fn p2_ephwit_zk_blind(w: party_two::EphCommWitness) -> curv::BigInt;

pub uninterp spec fn p2_ephwit_proof_hash(w: party_two::EphCommWitness) -> curv::BigInt;

pub uninterp spec fn ni_proof_sigma_count(p: zk_paillier::zkproofs::NiCorrectKeyProof) -> nat;

pub uninterp spec fn pdlst_n_tilde(
    st: multi_party_ecdsa::utilities::zk_pdl_with_slack::PDLwSlackStatement,
) -> curv::BigInt;

pub uninterp spec fn pdlst_h1(
    st: multi_party_ecdsa::utilities::zk_pdl_with_slack::PDLwSlackStatement,
) -> curv::BigInt;

pub uninterp spec fn pdlst_h2(
    st: multi_party_ecdsa::utilities::zk_pdl_with_slack::PDLwSlackStatement,
) -> curv::BigInt;

pub uninterp spec fn pdlst_ciphertext(
    st: multi_party_ecdsa::utilities::zk_pdl_with_slack::PDLwSlackStatement,
) -> curv::BigInt;

pub uninterp spec fn pdlst_ek(
    st: multi_party_ecdsa::utilities::zk_pdl_with_slack::PDLwSlackStatement,
) -> kzen_paillier::EncryptionKey;

pub uninterp spec fn pdlpf_z(
    pf: multi_party_ecdsa::utilities::zk_pdl_with_slack::PDLwSlackProof,
) -> curv::BigInt;

/// The inputs on which the correct-key verifier is total: a proof
/// carrying at least the eleven sigma values it reads, over a positive
/// modulus.
pub open spec fn correct_key_inputs_ok(
    proof: zk_paillier::zkproofs::NiCorrectKeyProof,
    ek: kzen_paillier::EncryptionKey,
) -> bool {
    &&& ni_proof_sigma_count(proof) >= 11
    &&& big_gt_spec(ek_n(ek), big_of_u64(0))
}

/// The statement fields the PDL verifier reduces and inverts by, all
/// publicly checkable: a modulus above two to the 128 with both bases
/// coprime to it, a Paillier key with positive moduli, and a ciphertext
/// invertible modulo the squared modulus.
pub open spec fn pdl_statement_ok(
    st: multi_party_ecdsa::utilities::zk_pdl_with_slack::PDLwSlackStatement,
) -> bool {
    &&& big_gt_spec(pdlst_n_tilde(st), pow2_big(128))
    &&& gcd_of(pdlst_h1(st), pdlst_n_tilde(st)) == big_of_u64(1)
    &&& gcd_of(pdlst_h2(st), pdlst_n_tilde(st)) == big_of_u64(1)
    &&& paillier_wf(pdlst_ek(st))
    &&& gcd_of(pdlst_ciphertext(st), ek_nn(pdlst_ek(st))) == big_of_u64(1)
}

/// The inputs on which the PDL verifier is total: a checkable statement
/// together with a proof whose commitment value is invertible modulo
/// the statement modulus. The proof's commitment field is private to
/// the outside crate, so the latter cannot be checked by the receiver;
/// every proof the prover wrappers return satisfies it.
pub open spec fn pdl_inputs_ok(
    st: multi_party_ecdsa::utilities::zk_pdl_with_slack::PDLwSlackStatement,
    pf: multi_party_ecdsa::utilities::zk_pdl_with_slack::PDLwSlackProof,
) -> bool {
    &&& pdl_statement_ok(st)
    &&& coprime(pdlpf_z(pf), pdlst_n_tilde(st))
}

pub uninterp spec fn p1_eph_secret(kp: party_one::EphEcKeyPair) -> Sc;

pub uninterp spec fn p1_eph_msg_ok(m: party_one::EphKeyGenFirstMsg) -> bool;

pub uninterp spec fn p1_eph_share(m: party_one::EphKeyGenFirstMsg) -> Pt;

pub uninterp spec fn p2_eph_decommit_ok(
    m1: party_two::EphKeyGenFirstMsg,
    m2: party_two::EphKeyGenSecondMsg,
) -> bool;

pub uninterp spec fn p2_eph2_share(m: party_two::EphKeyGenSecondMsg) -> Pt;

pub uninterp spec fn psig_c3(p: party_two::PartialSig) -> curv::BigInt;

pub uninterp spec fn sig_r_big(s: party_one::Signature) -> curv::BigInt;

pub uninterp spec fn p1_sig_of(
    p: party_one::Party1Private,
    c3: curv::BigInt,
    kp: party_one::EphEcKeyPair,
    other: Pt,
) -> party_one::Signature;

pub uninterp spec fn sig_s_big(s: party_one::Signature) -> curv::BigInt;

// ---------------------------------------------------------------------
// Party one: key generation.
// ---------------------------------------------------------------------

/// Relies on party_one::KeyGenFirstMsg::create_commitments: a fresh EC
/// key pair, hash commitments to its public share and to the proof's
/// commitment point under fresh blinding factors, and the witness
/// opening both; the witness carries the key pair's public share.
#[verifier::external_body]
pub fn p1_keygen_commit() -> (r: (
    party_one::KeyGenFirstMsg,
    party_one::CommWitness,
    party_one::EcKeyPair,
))
    ensures
        p1_comwit_share(r.1) == p1_kp_public(r.2),
        p1_kgm1_pk_com(r.0) == hash_com(pt_to_big(p1_comwit_share(r.1)), p1_comwit_pk_blind(r.1)),
        p1_kgm1_zk_com(r.0) == hash_com(p1_comwit_proof_t(r.1), p1_comwit_zk_blind(r.1)),
{
    party_one::KeyGenFirstMsg::create_commitments()
}

/// Relies on party_one::KeyGenSecondMsg::verify_and_decommit: succeeds
/// exactly when the counterparty's discrete-log proof verifies, and
/// then wraps the witness unchanged.
#[verifier::external_body]
pub fn p1_verify_decommit(
    w: party_one::CommWitness,
    msg: &party_two::KeyGenFirstMsg,
) -> (r: Result<party_one::KeyGenSecondMsg, ()>)
    ensures
        r is Ok <==> p2_kg_msg_dlog_ok(*msg),
        r is Ok ==> p1_kgm2_witness(r->Ok_0) == w,
{
    match party_one::KeyGenSecondMsg::verify_and_decommit(w, &msg.d_log_proof) {
        Ok(m) => Ok(m),
        Err(_) => Err(()),
    }
}

/// Relies on party_one::PaillierKeyPair::generate_keypair_and_encrypted_share:
/// a fresh Paillier key pair with the EC secret share encrypted under it.
#[verifier::external_body]
pub fn p1_generate_paillier(kp: &party_one::EcKeyPair) -> (r: party_one::PaillierKeyPair) {
    party_one::PaillierKeyPair::generate_keypair_and_encrypted_share(kp)
}

/// Relies on party_one::Party1Private::set_private_key: repackages the
/// EC and Paillier secrets.
#[verifier::external_body]
pub fn p1_set_private(
    ec: &party_one::EcKeyPair,
    paillier_kp: &party_one::PaillierKeyPair,
) -> (r: party_one::Party1Private) {
    party_one::Party1Private::set_private_key(ec, paillier_kp)
}

/// Relies on party_one::PaillierKeyPair::generate_ni_proof_correct_key.
#[verifier::external_body]
pub fn p1_correct_key_proof(
    kp: &party_one::PaillierKeyPair,
) -> (r: zk_paillier::zkproofs::NiCorrectKeyProof) {
    party_one::PaillierKeyPair::generate_ni_proof_correct_key(kp)
}

/// Relies on party_one::PaillierKeyPair::pdl_proof: the statement and
/// proofs binding the Paillier ciphertext to the EC share. The
/// auxiliary modulus is a product of two fresh 1024-bit primes and the
/// generator inverts both bases, so every statement this call returns
/// has a modulus above two to the 128 with both bases coprime to it;
/// the proof's commitment value is a product of powers of those bases,
/// so it is coprime to the modulus on every outcome as well.
#[verifier::external_body]
pub fn p1_pdl_proof(p: &party_one::Party1Private, kp: &party_one::PaillierKeyPair) -> (r: (
    multi_party_ecdsa::utilities::zk_pdl_with_slack::PDLwSlackStatement,
    multi_party_ecdsa::utilities::zk_pdl_with_slack::PDLwSlackProof,
    zk_paillier::zkproofs::CompositeDLogProof,
))
    ensures
        big_gt_spec(pdlst_n_tilde(r.0), pow2_big(128)),
        gcd_of(pdlst_h1(r.0), pdlst_n_tilde(r.0)) == big_of_u64(1),
        gcd_of(pdlst_h2(r.0), pdlst_n_tilde(r.0)) == big_of_u64(1),
        coprime(pdlpf_z(r.1), pdlst_n_tilde(r.0)),
{
    party_one::PaillierKeyPair::pdl_proof(p, kp)
}

/// Relies on the public ek field of PaillierKeyPair.
#[verifier::external_body]
pub fn paillier_kp_ek(kp: &party_one::PaillierKeyPair) -> (r: kzen_paillier::EncryptionKey)
    ensures
        r == paillier_ek(*kp),
{
    kp.ek.clone()
}

/// Relies on the public encrypted_share field of PaillierKeyPair.
#[verifier::external_body]
pub fn paillier_kp_encrypted_share(kp: &party_one::PaillierKeyPair) -> (r: curv::BigInt)
    ensures
        r == paillier_c(*kp),
{
    kp.encrypted_share.clone()
}

/// Relies on party_one::compute_pubkey: the counterparty's public share
/// raised to this party's secret, a deterministic function of both.
#[verifier::external_body]
pub fn p1_compute_pubkey(p: &party_one::Party1Private, other: &Pt) -> (r: Pt)
    ensures
        r == p1_pub_of(*p, *other),
{
    Pt { inner: party_one::compute_pubkey(p, &other.inner) }
}

/// Relies on the public public_share field of party_one::EcKeyPair.
#[verifier::external_body]
pub fn p1_kp_public_exec(kp: &party_one::EcKeyPair) -> (r: Pt)
    ensures
        r == p1_kp_public(*kp),
{
    Pt { inner: kp.public_share.clone() }
}

/// Relies on the public comm_witness.public_share field of
/// party_one::KeyGenSecondMsg.
#[verifier::external_body]
pub fn p1_kgm2_public_share(m: &party_one::KeyGenSecondMsg) -> (r: Pt)
    ensures
        r == p1_comwit_share(p1_kgm2_witness(*m)),
{
    Pt { inner: m.comm_witness.public_share.clone() }
}

// ---------------------------------------------------------------------
// Party two: key generation.
// ---------------------------------------------------------------------

/// Relies on party_two::KeyGenFirstMsg::create: a fresh EC key pair and
/// the proof message carrying its public share.
#[verifier::external_body]
pub fn p2_keygen_create() -> (r: (party_two::KeyGenFirstMsg, party_two::EcKeyPair))
    ensures
        p2_kgm1_share(r.0) == p2_kp_public(r.1),
{
    party_two::KeyGenFirstMsg::create()
}

/// Relies on party_two::KeyGenSecondMsg::verify_commitments_and_dlog_proof:
/// succeeds exactly when both round-1 hash commitments open to the
/// revealed values and the discrete-log proof verifies.
#[verifier::external_body]
pub fn p2_verify_commitments_and_dlog(
    m1: &party_one::KeyGenFirstMsg,
    m2: &party_one::KeyGenSecondMsg,
) -> (r: bool)
    ensures
        r == p1_decommit_ok(*m1, *m2),
{
    party_two::KeyGenSecondMsg::verify_commitments_and_dlog_proof(m1, m2).is_ok()
}

/// Relies on the public fields of party_two::PaillierPublic; builds the
/// counterparty's Paillier view from its two components.
#[verifier::external_body]
pub fn p2_paillier_public_new(
    ek: kzen_paillier::EncryptionKey,
    encrypted_share: curv::BigInt,
) -> (r: party_two::PaillierPublic)
    ensures
        pp_ek(r) == ek,
        pp_share(r) == encrypted_share,
{
    party_two::PaillierPublic { ek, encrypted_secret_share: encrypted_share }
}

/// Relies on the public ek field of party_two::PaillierPublic.
#[verifier::external_body]
pub fn pp_get_ek(pp: &party_two::PaillierPublic) -> (r: kzen_paillier::EncryptionKey)
    ensures
        r == pp_ek(*pp),
{
    pp.ek.clone()
}

/// Relies on the public sigma_vec field of NiCorrectKeyProof: how many
/// sigma values the proof carries.
#[verifier::external_body]
pub fn ni_proof_len(p: &zk_paillier::zkproofs::NiCorrectKeyProof) -> (r: usize)
    ensures
        r == ni_proof_sigma_count(*p),
{
    p.sigma_vec.len()
}

/// Relies on party_two::PaillierPublic::verify_ni_proof_correct_key: a
/// deterministic check of the correct-key proof and a minimum key size.
/// The verifier reads a fixed count of eleven sigma values and reduces
/// modulo the key's modulus, so shorter proofs and non-positive moduli
/// are excluded.
#[verifier::external_body]
pub fn p2_verify_correct_key(
    proof: zk_paillier::zkproofs::NiCorrectKeyProof,
    ek: &kzen_paillier::EncryptionKey,
) -> (r: bool)
    requires
        correct_key_inputs_ok(proof, *ek),
    ensures
        r == correct_key_ok(proof, *ek),
{
    party_two::PaillierPublic::verify_ni_proof_correct_key(proof, ek).is_ok()
}

/// Relies on the public N_tilde field of PDLwSlackStatement.
#[verifier::external_body]
pub fn pdlst_get_n_tilde(
    st: &multi_party_ecdsa::utilities::zk_pdl_with_slack::PDLwSlackStatement,
) -> (r: curv::BigInt)
    ensures
        r == pdlst_n_tilde(*st),
{
    st.N_tilde.clone()
}

/// Relies on the public h1 field of PDLwSlackStatement.
#[verifier::external_body]
pub fn pdlst_get_h1(
    st: &multi_party_ecdsa::utilities::zk_pdl_with_slack::PDLwSlackStatement,
) -> (r: curv::BigInt)
    ensures
        r == pdlst_h1(*st),
{
    st.h1.clone()
}

/// Relies on the public h2 field of PDLwSlackStatement.
#[verifier::external_body]
pub fn pdlst_get_h2(
    st: &multi_party_ecdsa::utilities::zk_pdl_with_slack::PDLwSlackStatement,
) -> (r: curv::BigInt)
    ensures
        r == pdlst_h2(*st),
{
    st.h2.clone()
}

/// Relies on the public ciphertext field of PDLwSlackStatement.
#[verifier::external_body]
pub fn pdlst_get_ciphertext(
    st: &multi_party_ecdsa::utilities::zk_pdl_with_slack::PDLwSlackStatement,
) -> (r: curv::BigInt)
    ensures
        r == pdlst_ciphertext(*st),
{
    st.ciphertext.clone()
}

/// Relies on the public ek field of PDLwSlackStatement.
#[verifier::external_body]
pub fn pdlst_get_ek(
    st: &multi_party_ecdsa::utilities::zk_pdl_with_slack::PDLwSlackStatement,
) -> (r: kzen_paillier::EncryptionKey)
    ensures
        r == pdlst_ek(*st),
{
    st.ek.clone()
}

/// Checks the statement fields that the PDL verifier reduces and
/// inverts by.
pub fn check_pdl_statement(
    st: &multi_party_ecdsa::utilities::zk_pdl_with_slack::PDLwSlackStatement,
) -> (r: bool)
    ensures
        r == pdl_statement_ok(*st),
{
    let one = crate::curve::big_from_u64(1);
    let zero = crate::curve::big_from_u64(0);
    let n_tilde = pdlst_get_n_tilde(st);
    let ek = pdlst_get_ek(st);
    let sound = crate::curve::big_greater(&n_tilde, &crate::curve::big_pow2(128))
        && crate::curve::big_eq(&crate::curve::big_gcd(&pdlst_get_h1(st), &n_tilde), &one)
        && crate::curve::big_eq(&crate::curve::big_gcd(&pdlst_get_h2(st), &n_tilde), &one)
        && crate::curve::big_greater(&crate::gg18_primitives::ek_get_n(&ek), &zero)
        && crate::curve::big_greater(&crate::gg18_primitives::ek_get_nn(&ek), &zero)
        && crate::curve::big_eq(
        &crate::curve::big_gcd(&pdlst_get_ciphertext(st), &crate::gg18_primitives::ek_get_nn(&ek)),
        &one,
    );
    sound
}

/// Relies on party_two::PaillierPublic::pdl_verify: a deterministic
/// check that the statement matches the Paillier view and the point,
/// and that both proofs verify. The underlying verifiers assert the
/// statement's modulus size and coprimality of its bases, and invert
/// the ciphertext and the proof commitment, so statements and proofs
/// outside pdl_inputs_ok are excluded.
#[verifier::external_body]
pub fn p2_pdl_verify(
    cdp: &zk_paillier::zkproofs::CompositeDLogProof,
    st: &multi_party_ecdsa::utilities::zk_pdl_with_slack::PDLwSlackStatement,
    pf: &multi_party_ecdsa::utilities::zk_pdl_with_slack::PDLwSlackProof,
    pp: &party_two::PaillierPublic,
    q1: &Pt,
) -> (r: bool)
    requires
        pdl_inputs_ok(*st, *pf),
    ensures
        r == pdl_ok(*cdp, *st, *pf, pp_ek(*pp), pp_share(*pp), *q1),
{
    party_two::PaillierPublic::pdl_verify(cdp, st, pf, pp, &q1.inner).is_ok()
}

/// Relies on party_two::Party2Private::set_private_key.
#[verifier::external_body]
pub fn p2_set_private(kp: &party_two::EcKeyPair) -> (r: party_two::Party2Private) {
    party_two::Party2Private::set_private_key(kp)
}

/// Relies on party_two::Party2Private::update_private_key: rescales the
/// secret share by the factor.
#[verifier::external_body]
pub fn p2_update_private(
    p: &party_two::Party2Private,
    factor: &curv::BigInt,
) -> (r: party_two::Party2Private) {
    party_two::Party2Private::update_private_key(p, factor)
}

/// Relies on party_two::compute_pubkey: the counterparty's public share
/// raised to this party's secret, a deterministic function of both.
#[verifier::external_body]
pub fn p2_compute_pubkey(kp: &party_two::EcKeyPair, other: &Pt) -> (r: Pt)
    ensures
        r == p2_pub_of(*kp, *other),
{
    Pt { inner: party_two::compute_pubkey(kp, &other.inner) }
}

/// Relies on the public public_share field of party_two::EcKeyPair.
#[verifier::external_body]
pub fn p2_kp_public_exec(kp: &party_two::EcKeyPair) -> (r: Pt)
    ensures
        r == p2_kp_public(*kp),
{
    Pt { inner: kp.public_share.clone() }
}

/// Relies on the public public_share field of party_two::KeyGenFirstMsg.
#[verifier::external_body]
pub fn p2_kgm1_public_share(m: &party_two::KeyGenFirstMsg) -> (r: Pt)
    ensures
        r == p2_kgm1_share(*m),
{
    Pt { inner: m.public_share.clone() }
}

// ---------------------------------------------------------------------
// Signing.
// ---------------------------------------------------------------------

/// Relies on party_two::EphKeyGenFirstMsg::create_commitments: a fresh
/// nonzero ephemeral key pair, hash commitments to its public share and
/// to the digest of its ECDDH proof commitments under fresh blinding
/// factors, and the witness opening both.
#[verifier::external_body]
pub fn p2_eph_commit() -> (r: (
    party_two::EphKeyGenFirstMsg,
    party_two::EphCommWitness,
    party_two::EphEcKeyPair,
))
    ensures
        !scalar_is_zero(p2_eph_secret(r.2)),
        p2_ephwit_share(r.1) == p2_eph_public(r.2),
        p2_ephm1_pk_com(r.0) == hash_com(
            pt_to_big(p2_ephwit_share(r.1)),
            p2_ephwit_pk_blind(r.1),
        ),
        p2_ephm1_zk_com(r.0) == hash_com(p2_ephwit_proof_hash(r.1), p2_ephwit_zk_blind(r.1)),
{
    party_two::EphKeyGenFirstMsg::create_commitments()
}

/// Relies on party_two::EphKeyGenSecondMsg::verify_and_decommit:
/// succeeds exactly when the counterparty's ephemeral ECDDH proof
/// verifies, then reveals the commit witness.
#[verifier::external_body]
pub fn p2_eph_verify_decommit(
    w: party_two::EphCommWitness,
    m: &party_one::EphKeyGenFirstMsg,
) -> (r: Result<party_two::EphKeyGenSecondMsg, ()>)
    ensures
        r is Ok <==> p1_eph_msg_ok(*m),
{
    match party_two::EphKeyGenSecondMsg::verify_and_decommit(w, m) {
        Ok(m2) => Ok(m2),
        Err(_) => Err(()),
    }
}

/// Relies on the public public_share field of
/// party_one::EphKeyGenFirstMsg.
#[verifier::external_body]
pub fn p1_eph_msg_public_share(m: &party_one::EphKeyGenFirstMsg) -> (r: Pt)
    ensures
        r == p1_eph_share(*m),
{
    Pt { inner: m.public_share.clone() }
}

/// Relies on party_two::PartialSig::compute: the Paillier-encrypted
/// partial signature. The underlying call inverts the ephemeral secret,
/// reads the x coordinate of the joint nonce point, and samples and
/// reduces by the Paillier moduli, so a zero secret, an identity
/// counterparty point and non-positive moduli are excluded; in the
/// prime-order group, a non-identity point times a nonzero scalar is
/// never the identity.
#[verifier::external_body]
pub fn p2_partial_sig(
    pp: &party_two::PaillierPublic,
    private: &party_two::Party2Private,
    kp: &party_two::EphEcKeyPair,
    p1_pub: &Pt,
    hash: &curv::BigInt,
) -> (r: party_two::PartialSig)
    requires
        !scalar_is_zero(p2_eph_secret(*kp)),
        !pt_is_zero(*p1_pub),
        paillier_wf(pp_ek(*pp)),
{
    party_two::PartialSig::compute(
        &pp.ek,
        &pp.encrypted_secret_share,
        private,
        kp,
        &p1_pub.inner,
        hash,
    )
}

/// Relies on party_one::EphKeyGenFirstMsg::create: a fresh nonzero
/// ephemeral key pair with an ECDDH proof.
#[verifier::external_body]
pub fn p1_eph_create() -> (r: (party_one::EphKeyGenFirstMsg, party_one::EphEcKeyPair))
    ensures
        !scalar_is_zero(p1_eph_secret(r.1)),
{
    party_one::EphKeyGenFirstMsg::create()
}

/// Relies on party_one::EphKeyGenSecondMsg::verify_commitments_and_dlog_proof:
/// a deterministic check that the counterparty's commitments open to
/// the revealed values and its ECDDH proof verifies.
#[verifier::external_body]
pub fn p1_eph_verify(
    m1: &party_two::EphKeyGenFirstMsg,
    m2: &party_two::EphKeyGenSecondMsg,
) -> (r: bool)
    ensures
        r == p2_eph_decommit_ok(*m1, *m2),
{
    party_one::EphKeyGenSecondMsg::verify_commitments_and_dlog_proof(m1, m2).is_ok()
}

/// Relies on the public comm_witness.public_share field of
/// party_two::EphKeyGenSecondMsg.
#[verifier::external_body]
pub fn p2_eph2_public_share(m: &party_two::EphKeyGenSecondMsg) -> (r: Pt)
    ensures
        r == p2_eph2_share(*m),
{
    Pt { inner: m.comm_witness.public_share.clone() }
}

/// Relies on the public c3 field of party_two::PartialSig.
#[verifier::external_body]
pub fn partial_sig_c3(p: &party_two::PartialSig) -> (r: curv::BigInt)
    ensures
        r == psig_c3(*p),
{
    p.c3.clone()
}

/// Relies on party_one::Signature::compute: decrypts the counterparty's
/// partial signature and assembles (r, s), a deterministic function of
/// its arguments. The underlying call inverts the ephemeral secret and
/// reads the x coordinate of the joint nonce point, so a zero secret
/// and an identity counterparty point are excluded; in the prime-order
/// group, a non-identity point times a nonzero scalar is never the
/// identity.
#[verifier::external_body]
pub fn p1_sig_compute(
    private: &party_one::Party1Private,
    c3: &curv::BigInt,
    kp: &party_one::EphEcKeyPair,
    other_pub: &Pt,
) -> (r: party_one::Signature)
    requires
        !scalar_is_zero(p1_eph_secret(*kp)),
        !pt_is_zero(*other_pub),
    ensures
        r == p1_sig_of(*private, *c3, *kp, *other_pub),
{
    party_one::Signature::compute(private, c3, kp, &other_pub.inner)
}

/// Relies on the public r field of party_one::Signature.
#[verifier::external_body]
pub fn p1_sig_r(s: &party_one::Signature) -> (r: curv::BigInt)
    ensures
        r == sig_r_big(*s),
{
    s.r.clone()
}

/// Relies on the public s field of party_one::Signature.
#[verifier::external_body]
pub fn p1_sig_s(s: &party_one::Signature) -> (r: curv::BigInt)
    ensures
        r == sig_s_big(*s),
{
    s.s.clone()
}

// ---------------------------------------------------------------------
// Refresh.
// ---------------------------------------------------------------------

/// Relies on party_one::Party1Private::refresh_private_key: a fresh
/// Paillier key pair, the rescaled share encrypted under it, and the
/// correct-key and PDL proof bundle for the new key. As for p1_pdl_proof,
/// every statement and proof this call returns has the commitment value
/// coprime to the fresh auxiliary modulus.
#[verifier::external_body]
pub fn p1_refresh_private(p: &party_one::Party1Private, factor: &curv::BigInt) -> (r: (
    kzen_paillier::EncryptionKey,
    curv::BigInt,
    party_one::Party1Private,
    zk_paillier::zkproofs::NiCorrectKeyProof,
    multi_party_ecdsa::utilities::zk_pdl_with_slack::PDLwSlackStatement,
    multi_party_ecdsa::utilities::zk_pdl_with_slack::PDLwSlackProof,
    zk_paillier::zkproofs::CompositeDLogProof,
))
    ensures
        coprime(pdlpf_z(r.5), pdlst_n_tilde(r.4)),
{
    party_one::Party1Private::refresh_private_key(p, factor)
}

} // verus!
