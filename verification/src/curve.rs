//! Trusted boundary around the curv crate: curve points, scalars, big
//! integers, hash commitments, discrete-log proofs, Feldman VSS and the
//! two-party coin-flip protocol.
//!
//! The generic curv types are carried in opaque wrapper structs fixed to
//! the secp256k1 curve and Sha256. Deterministic operations are given
//! uninterpreted names so that contracts can relate round outputs to
//! round inputs; randomized operations promise only what holds of every
//! outcome.
use vstd::prelude::*;

verus! {

use curv::arithmetic::traits::BasicOps;
use curv::arithmetic::Integer;
use curv::cryptographic_primitives::commitments::traits::Commitment;
use curv::cryptographic_primitives::hashing::DigestExt;
use sha2::Digest;

#[verifier::external_type_specification]
#[verifier::external_body]
pub struct ExBigInt(curv::BigInt);

/// A point of the protocol's elliptic-curve group, carried opaquely.
#[verifier::external_body]
pub struct Pt {
    pub(crate) inner: curv::elliptic::curves::Point<curv::elliptic::curves::Secp256k1>,
}

/// A scalar of the protocol's elliptic-curve group, carried opaquely.
#[verifier::external_body]
pub struct Sc {
    pub(crate) inner: curv::elliptic::curves::Scalar<curv::elliptic::curves::Secp256k1>,
}

/// A non-interactive proof of knowledge of a discrete logarithm.
#[verifier::external_body]
pub struct DlogPf {
    pub(crate) inner: curv::cryptographic_primitives::proofs::sigma_dlog::DLogProof<
        curv::elliptic::curves::Secp256k1,
        sha2::Sha256,
    >,
}

/// A zero-knowledge proof of correct homomorphic-ElGamal encryption.
#[verifier::external_body]
pub struct HegPf {
    pub(crate) inner: curv::cryptographic_primitives::proofs::sigma_correct_homomorphic_elgamal_enc::HomoELGamalProof<
        curv::elliptic::curves::Secp256k1,
        sha2::Sha256,
    >,
}

/// A Feldman verifiable-secret-sharing scheme: parameters plus the
/// public commitments to the polynomial coefficients.
#[verifier::external_body]
pub struct Vss {
    pub(crate) inner: curv::cryptographic_primitives::secret_sharing::feldman_vss::VerifiableSS<
        curv::elliptic::curves::Secp256k1,
    >,
}

/// A commit/reveal witness: two blinding factors, a public share and a
/// discrete-log proof.
#[verifier::external_body]
pub struct ComWit {
    pub(crate) inner: curv::cryptographic_primitives::twoparty::dh_key_exchange_variant_with_pok_comm::CommWitness<
        curv::elliptic::curves::Secp256k1,
        sha2::Sha256,
    >,
}

/// The committing party's first coin-flip message (a Pedersen proof).
#[verifier::external_body]
pub struct CoinFlipMsg1 {
    pub(crate) inner: curv::cryptographic_primitives::twoparty::coin_flip_optimal_rounds::Party1FirstMessage<
        curv::elliptic::curves::Secp256k1,
        sha2::Sha256,
    >,
}

/// The committing party's second coin-flip message (the reveal).
#[verifier::external_body]
pub struct CoinFlipMsg2 {
    pub(crate) inner: curv::cryptographic_primitives::twoparty::coin_flip_optimal_rounds::Party1SecondMessage<
        curv::elliptic::curves::Secp256k1,
        sha2::Sha256,
    >,
}

impl Clone for Pt {
    /// Relies on curv's derived Clone returning an equal value.
    #[verifier::external_body]
    fn clone(&self) -> (r: Self)
        ensures
            r == *self,
    {
        Pt { inner: self.inner.clone() }
    }
}

impl Clone for Sc {
    /// Relies on curv's derived Clone returning an equal value.
    #[verifier::external_body]
    fn clone(&self) -> (r: Self)
        ensures
            r == *self,
    {
        Sc { inner: self.inner.clone() }
    }
}

impl Clone for DlogPf {
    /// Relies on curv's derived Clone returning an equal value.
    #[verifier::external_body]
    fn clone(&self) -> (r: Self)
        ensures
            r == *self,
    {
        DlogPf { inner: self.inner.clone() }
    }
}

impl Clone for HegPf {
    /// Relies on curv's derived Clone returning an equal value.
    #[verifier::external_body]
    fn clone(&self) -> (r: Self)
        ensures
            r == *self,
    {
        HegPf { inner: self.inner.clone() }
    }
}

impl Clone for Vss {
    /// Relies on curv's derived Clone returning an equal value.
    #[verifier::external_body]
    fn clone(&self) -> (r: Self)
        ensures
            r == *self,
    {
        Vss { inner: self.inner.clone() }
    }
}

impl Clone for ComWit {
    /// Relies on curv's derived Clone returning an equal value.
    #[verifier::external_body]
    fn clone(&self) -> (r: Self)
        ensures
            r == *self,
    {
        ComWit { inner: self.inner.clone() }
    }
}

impl Clone for CoinFlipMsg1 {
    /// Relies on curv's derived Clone returning an equal value.
    #[verifier::external_body]
    fn clone(&self) -> (r: Self)
        ensures
            r == *self,
    {
        CoinFlipMsg1 { inner: self.inner.clone() }
    }
}

impl Clone for CoinFlipMsg2 {
    /// Relies on curv's derived Clone returning an equal value.
    #[verifier::external_body]
    fn clone(&self) -> (r: Self)
        ensures
            r == *self,
    {
        CoinFlipMsg2 { inner: self.inner.clone() }
    }
}

/// Relies on the derived Clone of curv's BigInt returning an equal value.
#[verifier::external_body]
pub fn big_clone(v: &curv::BigInt) -> (r: curv::BigInt)
    ensures
        r == *v,
{
    v.clone()
}

// ---------------------------------------------------------------------
// Scalar arithmetic.
// ---------------------------------------------------------------------

pub uninterp spec fn scalar_is_zero(s: Sc) -> bool;

pub uninterp spec fn sc_add(a: Sc, b: Sc) -> Sc;

pub uninterp spec fn sc_mul(a: Sc, b: Sc) -> Sc;

pub uninterp spec fn sc_inv(s: Sc) -> Sc;

pub uninterp spec fn sc_of_big(b: curv::BigInt) -> Sc;

pub uninterp spec fn big_of_sc(s: Sc) -> curv::BigInt;

pub uninterp spec fn sc_bytes(s: Sc) -> Seq<u8>;

/// Sum of a scalar sequence under sc_add, folded from the left.
pub open spec fn sum_scs(s: Seq<Sc>) -> Sc
    recommends
        s.len() > 0,
    decreases s.len(),
{
    if s.len() <= 1 {
        s[0]
    } else {
        sc_add(sum_scs(s.drop_last()), s.last())
    }
}

/// Relies on curv's Scalar::random, which samples a random nonzero scalar.
#[verifier::external_body]
pub fn scalar_random() -> (r: Sc)
    ensures
        !scalar_is_zero(r),
{
    Sc { inner: curv::elliptic::curves::Scalar::random() }
}

/// Relies on curv's scalar addition modulo the group order.
#[verifier::external_body]
pub fn scalar_add(a: &Sc, b: &Sc) -> (r: Sc)
    ensures
        r == sc_add(*a, *b),
{
    Sc { inner: &a.inner + &b.inner }
}

/// Relies on curv's scalar multiplication modulo the group order.
#[verifier::external_body]
pub fn scalar_mul(a: &Sc, b: &Sc) -> (r: Sc)
    ensures
        r == sc_mul(*a, *b),
{
    Sc { inner: &a.inner * &b.inner }
}

/// Relies on curv's Scalar::invert: Some(inverse) for nonzero, None for zero.
#[verifier::external_body]
pub fn scalar_invert(s: &Sc) -> (r: Option<Sc>)
    ensures
        r is Some <==> !scalar_is_zero(*s),
        r is Some ==> r->0 == sc_inv(*s),
{
    s.inner.invert().map(|v| Sc { inner: v })
}

/// Relies on curv's Scalar::is_zero.
#[verifier::external_body]
pub fn scalar_is_zero_exec(s: &Sc) -> (r: bool)
    ensures
        r == scalar_is_zero(*s),
{
    s.inner.is_zero()
}

/// Relies on curv's Scalar::from(&BigInt): reduction modulo the group order.
#[verifier::external_body]
pub fn scalar_from_big(b: &curv::BigInt) -> (r: Sc)
    ensures
        r == sc_of_big(*b),
{
    Sc { inner: curv::elliptic::curves::Scalar::from(b) }
}

/// Relies on curv's Scalar::to_bigint.
#[verifier::external_body]
pub fn scalar_to_big(s: &Sc) -> (r: curv::BigInt)
    ensures
        r == big_of_sc(*s),
{
    s.inner.to_bigint()
}

/// Relies on curv's Scalar::to_bytes: the 32-byte big-endian encoding.
#[verifier::external_body]
pub fn scalar_to_bytes(s: &Sc) -> (r: Vec<u8>)
    ensures
        r@ == sc_bytes(*s),
        r@.len() == 32,
{
    s.inner.to_bytes().as_ref().to_vec()
}

// ---------------------------------------------------------------------
// Point arithmetic.
// ---------------------------------------------------------------------

pub uninterp spec fn pt_add(a: Pt, b: Pt) -> Pt;

pub uninterp spec fn pt_mul(p: Pt, s: Sc) -> Pt;

pub uninterp spec fn g_mul(s: Sc) -> Pt;

pub uninterp spec fn pt_has_x(p: Pt) -> bool;

pub uninterp spec fn pt_is_zero(p: Pt) -> bool;

pub uninterp spec fn pt_to_big(p: Pt) -> curv::BigInt;

pub uninterp spec fn pt_bytes(p: Pt, compressed: bool) -> Seq<u8>;

/// Sum of a point sequence under pt_add, folded from the left.
pub open spec fn sum_pts(s: Seq<Pt>) -> Pt
    recommends
        s.len() > 0,
    decreases s.len(),
{
    if s.len() <= 1 {
        s[0]
    } else {
        pt_add(sum_pts(s.drop_last()), s.last())
    }
}

/// Relies on curv's point addition.
#[verifier::external_body]
pub fn point_add(a: &Pt, b: &Pt) -> (r: Pt)
    ensures
        r == pt_add(*a, *b),
{
    Pt { inner: &a.inner + &b.inner }
}

/// Relies on curv's point-scalar multiplication.
#[verifier::external_body]
pub fn point_mul(p: &Pt, s: &Sc) -> (r: Pt)
    ensures
        r == pt_mul(*p, *s),
{
    Pt { inner: &p.inner * &s.inner }
}

/// Relies on curv's generator-scalar multiplication.
#[verifier::external_body]
pub fn generator_mul(s: &Sc) -> (r: Pt)
    ensures
        r == g_mul(*s),
{
    Pt {
        inner: curv::elliptic::curves::Point::<curv::elliptic::curves::Secp256k1>::generator()
            * &s.inner,
    }
}

/// Relies on curv's PartialEq for Point: equality of group elements.
#[verifier::external_body]
pub fn point_eq(a: &Pt, b: &Pt) -> (r: bool)
    ensures
        r == (*a == *b),
{
    a.inner == b.inner
}

/// Relies on curv's Point::is_zero: whether the point is the identity
/// element of the group.
#[verifier::external_body]
pub fn point_is_zero_exec(p: &Pt) -> (r: bool)
    ensures
        r == pt_is_zero(*p),
{
    p.inner.is_zero()
}

/// Relies on curv's Point::x_coord returning Some exactly for points
/// that have an affine x coordinate.
#[verifier::external_body]
pub fn point_has_x_exec(p: &Pt) -> (r: bool)
    ensures
        r == pt_has_x(*p),
{
    p.inner.x_coord().is_some()
}

/// Relies on curv's Point::to_bytes (compressed form) and
/// BigInt::from_bytes: the point encoded as a big integer.
#[verifier::external_body]
pub fn point_to_big(p: &Pt) -> (r: curv::BigInt)
    ensures
        r == pt_to_big(*p),
{
    curv::arithmetic::Converter::from_bytes(p.inner.to_bytes(true).as_ref())
}

impl Pt {
    /// Relies on curv's Point::to_bytes: the SEC1 encoding of the point.
    #[verifier::external_body]
    pub fn to_bytes(&self, compressed: bool) -> (r: Vec<u8>)
        ensures
            r@ == pt_bytes(*self, compressed),
    {
        self.inner.to_bytes(compressed).as_ref().to_vec()
    }
}

// ---------------------------------------------------------------------
// Big integers and hashing.
// ---------------------------------------------------------------------

pub uninterp spec fn big_of_bytes(b: Seq<u8>) -> curv::BigInt;

pub uninterp spec fn bytes_of_big(b: curv::BigInt) -> Seq<u8>;

pub uninterp spec fn big_of_u64(n: u64) -> curv::BigInt;

pub uninterp spec fn hash_com(m: curv::BigInt, blind: curv::BigInt) -> curv::BigInt;

pub uninterp spec fn hash2(a: curv::BigInt, b: curv::BigInt) -> curv::BigInt;

pub uninterp spec fn hash3(a: curv::BigInt, b: curv::BigInt, c: curv::BigInt) -> curv::BigInt;

/// Relies on curv's BigInt::from_bytes: big-endian interpretation.
#[verifier::external_body]
pub fn big_from_bytes(b: &[u8]) -> (r: curv::BigInt)
    ensures
        r == big_of_bytes(b@),
{
    curv::arithmetic::Converter::from_bytes(b)
}

/// Relies on curv's BigInt::to_bytes: the minimal big-endian encoding,
/// at most as many bytes as the integer's bit length requires.
#[verifier::external_body]
pub fn big_to_bytes(b: &curv::BigInt) -> (r: Vec<u8>)
    ensures
        r@ == bytes_of_big(*b),
{
    curv::arithmetic::Converter::to_bytes(b)
}

/// Relies on curv's BigInt conversion from u64.
#[verifier::external_body]
pub fn big_from_u64(n: u64) -> (r: curv::BigInt)
    ensures
        r == big_of_u64(n),
{
    curv::BigInt::from(n)
}

/// Relies on curv's PartialEq for BigInt.
#[verifier::external_body]
pub fn big_eq(a: &curv::BigInt, b: &curv::BigInt) -> (r: bool)
    ensures
        r == (*a == *b),
{
    a == b
}

/// Relies on curv's BigInt::sample: a random integer of the given bit size.
#[verifier::external_body]
pub fn big_sample(bits: usize) -> (r: curv::BigInt)
{
    curv::arithmetic::Samplable::sample(bits)
}

pub uninterp spec fn gcd_of(a: curv::BigInt, b: curv::BigInt) -> curv::BigInt;

pub uninterp spec fn coprime(a: curv::BigInt, b: curv::BigInt) -> bool;

pub uninterp spec fn big_gt_spec(a: curv::BigInt, b: curv::BigInt) -> bool;

pub uninterp spec fn pow2_big(k: u32) -> curv::BigInt;

/// Relies on curv's BigInt::gcd, the greatest common divisor.
#[verifier::external_body]
pub fn big_gcd(a: &curv::BigInt, b: &curv::BigInt) -> (r: curv::BigInt)
    ensures
        r == gcd_of(*a, *b),
{
    a.gcd(b)
}

/// Relies on curv's BigInt::gcd and equality: whether the greatest
/// common divisor of the two integers is one.
#[verifier::external_body]
pub fn big_coprime(a: &curv::BigInt, b: &curv::BigInt) -> (r: bool)
    ensures
        r == coprime(*a, *b),
{
    a.gcd(b) == curv::BigInt::from(1u64)
}

/// Relies on curv's Ord for BigInt: whether a is strictly greater than b.
#[verifier::external_body]
pub fn big_greater(a: &curv::BigInt, b: &curv::BigInt) -> (r: bool)
    ensures
        r == big_gt_spec(*a, *b),
{
    a > b
}

/// Relies on curv's BigInt exponentiation: two raised to the given power.
#[verifier::external_body]
pub fn big_pow2(k: u32) -> (r: curv::BigInt)
    ensures
        r == pow2_big(k),
{
    curv::BigInt::from(2u64).pow(k)
}

/// Relies on curv's HashCommitment with user-defined randomness: a
/// Sha256-based commitment, a deterministic function of message and blind.
#[verifier::external_body]
pub fn hash_commit(m: &curv::BigInt, blind: &curv::BigInt) -> (r: curv::BigInt)
    ensures
        r == hash_com(*m, *blind),
{
    curv::cryptographic_primitives::commitments::hash_commitment::HashCommitment::<sha2::Sha256>::
    create_commitment_with_user_defined_randomness(m, blind)
}

/// Relies on Sha256 over two big integers via curv's DigestExt.
#[verifier::external_body]
pub fn hash_two_bigs(a: &curv::BigInt, b: &curv::BigInt) -> (r: curv::BigInt)
    ensures
        r == hash2(*a, *b),
{
    sha2::Sha256::new().chain_bigint(a).chain_bigint(b).result_bigint()
}

/// Relies on Sha256 over three big integers via curv's DigestExt.
#[verifier::external_body]
pub fn hash_three_bigs(a: &curv::BigInt, b: &curv::BigInt, c: &curv::BigInt) -> (r: curv::BigInt)
    ensures
        r == hash3(*a, *b, *c),
{
    sha2::Sha256::new().chain_bigint(a).chain_bigint(b).chain_bigint(c).result_bigint()
}

// ---------------------------------------------------------------------
// Discrete-log proofs.
// ---------------------------------------------------------------------

pub uninterp spec fn dlog_ok(p: DlogPf) -> bool;

pub uninterp spec fn dlog_pf_pk(p: DlogPf) -> Pt;

pub uninterp spec fn dlog_pf_t_big(p: DlogPf) -> curv::BigInt;

/// Relies on curv's DLogProof::prove; the proof's pk field is the
/// generator raised to the witness.
#[verifier::external_body]
pub fn dlog_prove(s: &Sc) -> (r: DlogPf)
    ensures
        dlog_pf_pk(r) == g_mul(*s),
        dlog_ok(r),
{
    DlogPf {
        inner: curv::cryptographic_primitives::proofs::sigma_dlog::DLogProof::prove(&s.inner),
    }
}

/// Relies on curv's DLogProof::verify, a deterministic check of the proof.
#[verifier::external_body]
pub fn dlog_verify(p: &DlogPf) -> (r: bool)
    ensures
        r == dlog_ok(*p),
{
    curv::cryptographic_primitives::proofs::sigma_dlog::DLogProof::verify(&p.inner).is_ok()
}

/// Relies on the public pk field of curv's DLogProof.
#[verifier::external_body]
pub fn dlog_proof_pk(p: &DlogPf) -> (r: Pt)
    ensures
        r == dlog_pf_pk(*p),
{
    Pt { inner: p.inner.pk.clone() }
}

/// Relies on the public pk_t_rand_commitment field of curv's DLogProof,
/// encoded as a big integer from its compressed point bytes.
#[verifier::external_body]
pub fn dlog_proof_t_big(p: &DlogPf) -> (r: curv::BigInt)
    ensures
        r == dlog_pf_t_big(*p),
{
    curv::arithmetic::Converter::from_bytes(
        p.inner.pk_t_rand_commitment.to_bytes(true).as_ref(),
    )
}

// ---------------------------------------------------------------------
// Commit/reveal witnesses.
// ---------------------------------------------------------------------

pub uninterp spec fn comwit_pk_blind(w: ComWit) -> curv::BigInt;

pub uninterp spec fn comwit_zk_blind(w: ComWit) -> curv::BigInt;

pub uninterp spec fn comwit_share(w: ComWit) -> Pt;

pub uninterp spec fn comwit_proof(w: ComWit) -> DlogPf;

/// Relies on the public fields of curv's CommWitness; builds a witness
/// from its four components.
#[verifier::external_body]
pub fn comwit_new(pk_blind: curv::BigInt, zk_blind: curv::BigInt, share: Pt, proof: DlogPf) -> (r:
    ComWit)
    ensures
        comwit_pk_blind(r) == pk_blind,
        comwit_zk_blind(r) == zk_blind,
        comwit_share(r) == share,
        comwit_proof(r) == proof,
{
    ComWit {
        inner: curv::cryptographic_primitives::twoparty::dh_key_exchange_variant_with_pok_comm::CommWitness {
            pk_commitment_blind_factor: pk_blind,
            zk_pok_blind_factor: zk_blind,
            public_share: share.inner,
            d_log_proof: proof.inner,
        },
    }
}

/// Relies on the public pk_commitment_blind_factor field of CommWitness.
#[verifier::external_body]
pub fn comwit_get_pk_blind(w: &ComWit) -> (r: curv::BigInt)
    ensures
        r == comwit_pk_blind(*w),
{
    w.inner.pk_commitment_blind_factor.clone()
}

/// Relies on the public zk_pok_blind_factor field of CommWitness.
#[verifier::external_body]
pub fn comwit_get_zk_blind(w: &ComWit) -> (r: curv::BigInt)
    ensures
        r == comwit_zk_blind(*w),
{
    w.inner.zk_pok_blind_factor.clone()
}

/// Relies on the public public_share field of CommWitness.
#[verifier::external_body]
pub fn comwit_get_share(w: &ComWit) -> (r: Pt)
    ensures
        r == comwit_share(*w),
{
    Pt { inner: w.inner.public_share.clone() }
}

/// Relies on the public d_log_proof field of CommWitness.
#[verifier::external_body]
pub fn comwit_get_proof(w: &ComWit) -> (r: DlogPf)
    ensures
        r == comwit_proof(*w),
{
    DlogPf { inner: w.inner.d_log_proof.clone() }
}

// ---------------------------------------------------------------------
// Feldman VSS.
// ---------------------------------------------------------------------

pub uninterp spec fn vss_n_commitments(v: Vss) -> nat;

pub uninterp spec fn vss_with_shifted_linear_coeff(v: Vss, p: Pt) -> Vss;

/// Relies on the public commitments field of curv's VerifiableSS.
#[verifier::external_body]
pub fn vss_commitments_len(v: &Vss) -> (r: usize)
    ensures
        r == vss_n_commitments(*v),
{
    v.inner.commitments.len()
}

/// Relies on the public parameters and commitments fields of curv's
/// VerifiableSS and on curv's point addition: a copy of the scheme
/// whose degree-one coefficient commitment is shifted by the given
/// point, a deterministic function of both arguments.
#[verifier::external_body]
pub fn vss_shift_linear(v: &Vss, p: &Pt) -> (r: Vss)
    requires
        vss_n_commitments(*v) >= 2,
    ensures
        r == vss_with_shifted_linear_coeff(*v, *p),
        vss_n_commitments(r) == vss_n_commitments(*v),
{
    let mut commitments = v.inner.commitments.clone();
    commitments[1] = &commitments[1] + &p.inner;
    Vss {
        inner: curv::cryptographic_primitives::secret_sharing::feldman_vss::VerifiableSS {
            parameters: v.inner.parameters.clone(),
            commitments,
        },
    }
}

// ---------------------------------------------------------------------
// Coin flip with optimal rounds.
// ---------------------------------------------------------------------

pub uninterp spec fn cf_commit_ok(m: CoinFlipMsg1) -> bool;

pub uninterp spec fn cf_reveal_ok(m: CoinFlipMsg2) -> bool;

pub uninterp spec fn cf_msg1_com(m: CoinFlipMsg1) -> Pt;

pub uninterp spec fn cf_msg2_com(m: CoinFlipMsg2) -> Pt;

pub uninterp spec fn coin_res(seed1: Sc, seed2: Sc) -> Sc;

pub uninterp spec fn cf_final(m: CoinFlipMsg2, seed2: Sc) -> Sc;

/// Relies on curv's coin_flip_optimal_rounds Party1FirstMessage::commit:
/// a fresh seed, blinding and Pedersen commitment proof.
#[verifier::external_body]
pub fn coin_flip_commit() -> (r: (CoinFlipMsg1, Sc, Sc))
    ensures
        cf_commit_ok(r.0),
{
    let (m, seed, blinding) = curv::cryptographic_primitives::twoparty::coin_flip_optimal_rounds::Party1FirstMessage::<
        curv::elliptic::curves::Secp256k1,
        sha2::Sha256,
    >::commit();
    (CoinFlipMsg1 { inner: m }, Sc { inner: seed }, Sc { inner: blinding })
}

/// Relies on curv's PedersenProof::verify, a deterministic check of the
/// commit message.
#[verifier::external_body]
pub fn coin_flip_commit_check(m: &CoinFlipMsg1) -> (r: bool)
    ensures
        r == cf_commit_ok(*m),
{
    curv::cryptographic_primitives::proofs::sigma_valid_pedersen::PedersenProof::verify(
        &m.inner.proof,
    )
    .is_ok()
}

/// Relies on curv's Party2FirstMessage::share: verifies the commit
/// message (panics when invalid, so that input is excluded) and samples
/// the counterparty seed.
#[verifier::external_body]
pub fn coin_flip_share(m: &CoinFlipMsg1) -> (r: Sc)
    requires
        cf_commit_ok(*m),
{
    Sc {
        inner: curv::cryptographic_primitives::twoparty::coin_flip_optimal_rounds::Party2FirstMessage::share(
            &m.inner.proof,
        )
        .seed,
    }
}

/// Relies on curv's Party1SecondMessage::reveal: the joint result is the
/// xor of the two seeds.
#[verifier::external_body]
pub fn coin_flip_reveal(seed2: &Sc, seed1: &Sc, blinding: &Sc) -> (r: (CoinFlipMsg2, Sc))
    ensures
        r.1 == coin_res(*seed1, *seed2),
{
    let (m, res) = curv::cryptographic_primitives::twoparty::coin_flip_optimal_rounds::Party1SecondMessage::<
        curv::elliptic::curves::Secp256k1,
        sha2::Sha256,
    >::reveal(&seed2.inner, &seed1.inner, &blinding.inner);
    (CoinFlipMsg2 { inner: m }, Sc { inner: res })
}

/// Relies on curv's PedersenBlindingProof::verify, a deterministic check
/// of the reveal message.
#[verifier::external_body]
pub fn coin_flip_reveal_check(m: &CoinFlipMsg2) -> (r: bool)
    ensures
        r == cf_reveal_ok(*m),
{
    curv::cryptographic_primitives::proofs::sigma_valid_pedersen_blind::PedersenBlindingProof::verify(
        &m.inner.proof,
    )
    .is_ok()
}

/// Relies on the public com field of the Pedersen proof in the commit
/// message.
#[verifier::external_body]
pub fn coin_flip_msg1_com(m: &CoinFlipMsg1) -> (r: Pt)
    ensures
        r == cf_msg1_com(*m),
{
    Pt { inner: m.inner.proof.com.clone() }
}

/// Relies on the public com field of the Pedersen blinding proof in the
/// reveal message.
#[verifier::external_body]
pub fn coin_flip_msg2_com(m: &CoinFlipMsg2) -> (r: Pt)
    ensures
        r == cf_msg2_com(*m),
{
    Pt { inner: m.inner.proof.com.clone() }
}

/// Relies on curv's coin_flip_optimal_rounds::finalize: the revealed
/// seed xored with the receiving party's own seed. The underlying call
/// panics when the reveal proof is invalid or its commitment differs
/// from the committed one, so those inputs are excluded.
#[verifier::external_body]
pub fn coin_flip_finalize(m: &CoinFlipMsg2, seed2: &Sc, com: &Pt) -> (r: Sc)
    requires
        cf_reveal_ok(*m),
        cf_msg2_com(*m) == *com,
    ensures
        r == cf_final(*m, *seed2),
{
    Sc {
        inner: curv::cryptographic_primitives::twoparty::coin_flip_optimal_rounds::finalize(
            &m.inner.proof,
            &seed2.inner,
            &com.inner,
        ),
    }
}

/// Folds a nonempty vector of points into their sum under pt_add.
pub fn sum_points(v: &Vec<Pt>) -> (r: Pt)
    requires
        v@.len() > 0,
    ensures
        r == sum_pts(v@),
{
    let mut acc = v[0].clone();
    let mut k: usize = 1;
    while k < v.len()
        invariant
            1 <= k <= v@.len(),
            acc == sum_pts(v@.subrange(0, k as int)),
        decreases v@.len() - k,
    {
        acc = point_add(&acc, &v[k]);
        proof {
            assert(v@.subrange(0, k + 1 as int).drop_last() =~= v@.subrange(0, k as int));
            assert(v@.subrange(0, k + 1 as int).last() == v@[k as int]);
        }
        k = k + 1;
    }
    proof {
        assert(v@.subrange(0, v@.len() as int) =~= v@);
    }
    acc
}

/// Folds a nonempty vector of scalars into their sum under sc_add.
pub fn sum_scalars(v: &Vec<Sc>) -> (r: Sc)
    requires
        v@.len() > 0,
    ensures
        r == sum_scs(v@),
{
    let mut acc = v[0].clone();
    let mut k: usize = 1;
    while k < v.len()
        invariant
            1 <= k <= v@.len(),
            acc == sum_scs(v@.subrange(0, k as int)),
        decreases v@.len() - k,
    {
        acc = scalar_add(&acc, &v[k]);
        proof {
            assert(v@.subrange(0, k + 1 as int).drop_last() =~= v@.subrange(0, k as int));
            assert(v@.subrange(0, k + 1 as int).last() == v@[k as int]);
        }
        k = k + 1;
    }
    proof {
        assert(v@.subrange(0, v@.len() as int) =~= v@);
    }
    acc
}

} // verus!
