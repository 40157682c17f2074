//! Trusted boundary around the multi_party_ecdsa crate's general
//! threshold scheme: per-party key material, the keygen phase checks,
//! the multiplicative-to-additive exchange and the signing phases.
//!
//! Each wrapper makes one call into the outside crate; its contract
//! states what the crate's source shows of that call, over the names of
//! src/curve.rs and the names declared here.
use vstd::prelude::*;

use crate::curve::{
    big_gt_spec, big_of_u64, dlog_ok, hash_com, pt_has_x, pt_mul, pt_to_big, sc_add, sc_mul,
    sum_pts, sum_scs, DlogPf, HegPf, Pt, Sc, Vss,
};

verus! {

#[verifier::external_type_specification]
#[verifier::external_body]
pub struct ExKeyGenBroadcastMessage1(
    multi_party_ecdsa::protocols::multi_party_ecdsa::gg_2018::party_i::KeyGenBroadcastMessage1,
);

#[verifier::external_type_specification]
#[verifier::external_body]
pub struct ExKeyGenDecommitMessage1(
    multi_party_ecdsa::protocols::multi_party_ecdsa::gg_2018::party_i::KeyGenDecommitMessage1,
);

#[verifier::external_type_specification]
#[verifier::external_body]
pub struct ExSharedKeys(
    multi_party_ecdsa::protocols::multi_party_ecdsa::gg_2018::party_i::SharedKeys,
);

#[verifier::external_type_specification]
#[verifier::external_body]
pub struct ExPartyPrivate(
    multi_party_ecdsa::protocols::multi_party_ecdsa::gg_2018::party_i::PartyPrivate,
);

#[verifier::external_type_specification]
#[verifier::external_body]
pub struct ExSignKeys(multi_party_ecdsa::protocols::multi_party_ecdsa::gg_2018::party_i::SignKeys);

#[verifier::external_type_specification]
#[verifier::external_body]
pub struct ExSignBroadcastPhase1(
    multi_party_ecdsa::protocols::multi_party_ecdsa::gg_2018::party_i::SignBroadcastPhase1,
);

#[verifier::external_type_specification]
#[verifier::external_body]
pub struct ExSignDecommitPhase1(
    multi_party_ecdsa::protocols::multi_party_ecdsa::gg_2018::party_i::SignDecommitPhase1,
);

#[verifier::external_type_specification]
#[verifier::external_body]
pub struct ExLocalSignature(
    multi_party_ecdsa::protocols::multi_party_ecdsa::gg_2018::party_i::LocalSignature,
);

#[verifier::external_type_specification]
#[verifier::external_body]
pub struct ExPhase5Com1(
    multi_party_ecdsa::protocols::multi_party_ecdsa::gg_2018::party_i::Phase5Com1,
);

#[verifier::external_type_specification]
#[verifier::external_body]
pub struct ExPhase5Com2(
    multi_party_ecdsa::protocols::multi_party_ecdsa::gg_2018::party_i::Phase5Com2,
);

#[verifier::external_type_specification]
#[verifier::external_body]
pub struct ExPhase5ADecom1(
    multi_party_ecdsa::protocols::multi_party_ecdsa::gg_2018::party_i::Phase5ADecom1,
);

#[verifier::external_type_specification]
#[verifier::external_body]
pub struct ExPhase5DDecom2(
    multi_party_ecdsa::protocols::multi_party_ecdsa::gg_2018::party_i::Phase5DDecom2,
);

#[verifier::external_type_specification]
#[verifier::external_body]
pub struct ExSignatureRecid(
    multi_party_ecdsa::protocols::multi_party_ecdsa::gg_2018::party_i::SignatureRecid,
);

#[verifier::external_type_specification]
#[verifier::external_body]
pub struct ExMessageA(multi_party_ecdsa::utilities::mta::MessageA);

#[verifier::external_type_specification]
#[verifier::external_body]
pub struct ExMessageB(multi_party_ecdsa::utilities::mta::MessageB);

#[verifier::external_type_specification]
#[verifier::external_body]
pub struct ExEncryptionKey(kzen_paillier::EncryptionKey);

/// A party's long-term key material: the secret summand, its public
/// point and a Paillier key pair.
#[verifier::external_body]
pub struct GgKeys {
    inner: multi_party_ecdsa::protocols::multi_party_ecdsa::gg_2018::party_i::Keys,
}

impl Clone for GgKeys {
    /// Relies on the crate's derived Clone returning an equal value.
    #[verifier::external_body]
    fn clone(&self) -> (r: Self)
        ensures
            r == *self,
    {
        GgKeys { inner: self.inner.clone() }
    }
}

/// Relies on the derived Clone implementations of the declared
/// multi_party_ecdsa and paillier types returning an equal value.
#[verifier::external_body]
pub fn dup<T: Clone>(v: &T) -> (r: T)
    ensures
        r == *v,
{
    v.clone()
}

// ---------------------------------------------------------------------
// Names for fields and deterministic outcomes.
// ---------------------------------------------------------------------

pub uninterp spec fn keys_point(k: GgKeys) -> Pt;

pub uninterp spec fn bc_com(
    b: multi_party_ecdsa::protocols::multi_party_ecdsa::gg_2018::party_i::KeyGenBroadcastMessage1,
) -> curv::BigInt;

pub uninterp spec fn bc_proof_sigma_count(
    b: multi_party_ecdsa::protocols::multi_party_ecdsa::gg_2018::party_i::KeyGenBroadcastMessage1,
) -> nat;

pub uninterp spec fn decom_blind(
    d: multi_party_ecdsa::protocols::multi_party_ecdsa::gg_2018::party_i::KeyGenDecommitMessage1,
) -> curv::BigInt;

pub uninterp spec fn ek_n(ek: kzen_paillier::EncryptionKey) -> curv::BigInt;

pub uninterp spec fn ek_nn(ek: kzen_paillier::EncryptionKey) -> curv::BigInt;

/// A Paillier encryption key whose modulus and squared modulus are
/// positive: the shape every arithmetic call into the Paillier crate is
/// total for.
pub open spec fn paillier_wf(ek: kzen_paillier::EncryptionKey) -> bool {
    &&& big_gt_spec(ek_n(ek), big_of_u64(0))
    &&& big_gt_spec(ek_nn(ek), big_of_u64(0))
}

pub uninterp spec fn decom_point(
    d: multi_party_ecdsa::protocols::multi_party_ecdsa::gg_2018::party_i::KeyGenDecommitMessage1,
) -> Pt;

pub uninterp spec fn bc_key(
    b: multi_party_ecdsa::protocols::multi_party_ecdsa::gg_2018::party_i::KeyGenBroadcastMessage1,
) -> kzen_paillier::EncryptionKey;

pub uninterp spec fn keygen_coms_ok(
    decoms: Seq<
        multi_party_ecdsa::protocols::multi_party_ecdsa::gg_2018::party_i::KeyGenDecommitMessage1,
    >,
    bcs: Seq<
        multi_party_ecdsa::protocols::multi_party_ecdsa::gg_2018::party_i::KeyGenBroadcastMessage1,
    >,
) -> bool;

pub uninterp spec fn keygen_shares_ok(
    points: Seq<Pt>,
    shares: Seq<Sc>,
    schemes: Seq<Vss>,
    index: u16,
) -> bool;

pub uninterp spec fn shared_y(
    k: multi_party_ecdsa::protocols::multi_party_ecdsa::gg_2018::party_i::SharedKeys,
) -> Pt;

pub uninterp spec fn signkeys_w(
    k: multi_party_ecdsa::protocols::multi_party_ecdsa::gg_2018::party_i::SignKeys,
) -> Sc;

pub uninterp spec fn signkeys_k(
    k: multi_party_ecdsa::protocols::multi_party_ecdsa::gg_2018::party_i::SignKeys,
) -> Sc;

pub uninterp spec fn signkeys_g_gamma(
    k: multi_party_ecdsa::protocols::multi_party_ecdsa::gg_2018::party_i::SignKeys,
) -> Pt;

pub uninterp spec fn sign_bc_com(
    b: multi_party_ecdsa::protocols::multi_party_ecdsa::gg_2018::party_i::SignBroadcastPhase1,
) -> curv::BigInt;

pub uninterp spec fn sign_decom_blind(
    d: multi_party_ecdsa::protocols::multi_party_ecdsa::gg_2018::party_i::SignDecommitPhase1,
) -> curv::BigInt;

pub uninterp spec fn private_of(
    k: GgKeys,
    s: multi_party_ecdsa::protocols::multi_party_ecdsa::gg_2018::party_i::SharedKeys,
) -> multi_party_ecdsa::protocols::multi_party_ecdsa::gg_2018::party_i::PartyPrivate;

pub uninterp spec fn w_of(
    p: multi_party_ecdsa::protocols::multi_party_ecdsa::gg_2018::party_i::PartyPrivate,
    v: Vss,
    index: u16,
    s: Seq<u16>,
) -> Sc;

pub uninterp spec fn mta_alpha(
    m: multi_party_ecdsa::utilities::mta::MessageB,
    k: GgKeys,
    sk: multi_party_ecdsa::protocols::multi_party_ecdsa::gg_2018::party_i::SignKeys,
) -> Sc;

pub uninterp spec fn shared_x(
    k: multi_party_ecdsa::protocols::multi_party_ecdsa::gg_2018::party_i::SharedKeys,
) -> Sc;

pub uninterp spec fn sign_decom_gamma(
    d: multi_party_ecdsa::protocols::multi_party_ecdsa::gg_2018::party_i::SignDecommitPhase1,
) -> Pt;

pub uninterp spec fn mta_a_plain(m: multi_party_ecdsa::utilities::mta::MessageA) -> bool;

pub uninterp spec fn mta_b_ok(
    m: multi_party_ecdsa::utilities::mta::MessageB,
    k: GgKeys,
    sk: multi_party_ecdsa::protocols::multi_party_ecdsa::gg_2018::party_i::SignKeys,
) -> bool;

pub uninterp spec fn msgb_b_pk(m: multi_party_ecdsa::utilities::mta::MessageB) -> Pt;

pub uninterp spec fn phase4_ok(
    m_bs: Seq<multi_party_ecdsa::utilities::mta::MessageB>,
    decoms: Seq<
        multi_party_ecdsa::protocols::multi_party_ecdsa::gg_2018::party_i::SignDecommitPhase1,
    >,
    bcs: Seq<multi_party_ecdsa::protocols::multi_party_ecdsa::gg_2018::party_i::SignBroadcastPhase1>,
) -> bool;

pub uninterp spec fn localsig_r_point(
    l: multi_party_ecdsa::protocols::multi_party_ecdsa::gg_2018::party_i::LocalSignature,
) -> Pt;

pub uninterp spec fn localsig_m(
    l: multi_party_ecdsa::protocols::multi_party_ecdsa::gg_2018::party_i::LocalSignature,
) -> curv::BigInt;

pub uninterp spec fn localsig_y(
    l: multi_party_ecdsa::protocols::multi_party_ecdsa::gg_2018::party_i::LocalSignature,
) -> Pt;

pub uninterp spec fn localsig_s(
    l: multi_party_ecdsa::protocols::multi_party_ecdsa::gg_2018::party_i::LocalSignature,
) -> Sc;

pub uninterp spec fn p5a_v_point(
    d: multi_party_ecdsa::protocols::multi_party_ecdsa::gg_2018::party_i::Phase5ADecom1,
) -> Pt;

pub uninterp spec fn phase5c_ok(
    l: multi_party_ecdsa::protocols::multi_party_ecdsa::gg_2018::party_i::LocalSignature,
    decoms: Seq<multi_party_ecdsa::protocols::multi_party_ecdsa::gg_2018::party_i::Phase5ADecom1>,
    coms: Seq<multi_party_ecdsa::protocols::multi_party_ecdsa::gg_2018::party_i::Phase5Com1>,
    hegs: Seq<HegPf>,
    dlogs: Seq<DlogPf>,
    r_point: Pt,
) -> bool;

pub uninterp spec fn phase5d_ok(
    l: multi_party_ecdsa::protocols::multi_party_ecdsa::gg_2018::party_i::LocalSignature,
    decoms2: Seq<multi_party_ecdsa::protocols::multi_party_ecdsa::gg_2018::party_i::Phase5DDecom2>,
    coms2: Seq<multi_party_ecdsa::protocols::multi_party_ecdsa::gg_2018::party_i::Phase5Com2>,
    decoms1: Seq<multi_party_ecdsa::protocols::multi_party_ecdsa::gg_2018::party_i::Phase5ADecom1>,
) -> bool;

pub uninterp spec fn sigrec_r(
    s: multi_party_ecdsa::protocols::multi_party_ecdsa::gg_2018::party_i::SignatureRecid,
) -> Sc;

pub uninterp spec fn sigrec_s(
    s: multi_party_ecdsa::protocols::multi_party_ecdsa::gg_2018::party_i::SignatureRecid,
) -> Sc;

pub uninterp spec fn ecdsa_sig_ok(r: Sc, s: Sc, y: Pt, m: curv::BigInt) -> bool;

// ---------------------------------------------------------------------
// Key generation.
// ---------------------------------------------------------------------

/// Relies on Keys::create: a fresh secret summand and Paillier key pair.
#[verifier::external_body]
pub fn keys_create(index: u16) -> (r: GgKeys) {
    GgKeys {
        inner: multi_party_ecdsa::protocols::multi_party_ecdsa::gg_2018::party_i::Keys::create(
            index,
        ),
    }
}

/// Relies on Keys::phase1_broadcast_phase3_proof_of_correct_key: the
/// decommitment carries the party's public point y_i, and the broadcast
/// commitment is the hash commitment to that point under the
/// decommitment's blinding factor.
#[verifier::external_body]
pub fn keys_phase1_broadcast(k: &GgKeys) -> (r: (
    multi_party_ecdsa::protocols::multi_party_ecdsa::gg_2018::party_i::KeyGenBroadcastMessage1,
    multi_party_ecdsa::protocols::multi_party_ecdsa::gg_2018::party_i::KeyGenDecommitMessage1,
))
    ensures
        decom_point(r.1) == keys_point(*k),
        bc_com(r.0) == hash_com(pt_to_big(decom_point(r.1)), decom_blind(r.1)),
{
    let (bc, decom) = k.inner.phase1_broadcast_phase3_proof_of_correct_key();
    (bc, decom)
}

/// Relies on the public y_i field of KeyGenDecommitMessage1.
#[verifier::external_body]
pub fn decom_get_point(
    d: &multi_party_ecdsa::protocols::multi_party_ecdsa::gg_2018::party_i::KeyGenDecommitMessage1,
) -> (r: Pt)
    ensures
        r == decom_point(*d),
{
    Pt { inner: d.y_i.clone() }
}

/// Relies on the public e field of KeyGenBroadcastMessage1: the sender's
/// Paillier encryption key.
#[verifier::external_body]
pub fn bc_get_key(
    b: &multi_party_ecdsa::protocols::multi_party_ecdsa::gg_2018::party_i::KeyGenBroadcastMessage1,
) -> (r: kzen_paillier::EncryptionKey)
    ensures
        r == bc_key(*b),
{
    b.e.clone()
}

/// Relies on the public sigma_vec field of the correct-key proof inside
/// KeyGenBroadcastMessage1: how many sigma values the proof carries.
#[verifier::external_body]
pub fn bc_get_sigma_count(
    b: &multi_party_ecdsa::protocols::multi_party_ecdsa::gg_2018::party_i::KeyGenBroadcastMessage1,
) -> (r: usize)
    ensures
        r == bc_proof_sigma_count(*b),
{
    b.correct_key_proof.sigma_vec.len()
}

/// Relies on the public n field of the Paillier encryption key.
#[verifier::external_body]
pub fn ek_get_n(ek: &kzen_paillier::EncryptionKey) -> (r: curv::BigInt)
    ensures
        r == ek_n(*ek),
{
    ek.n.clone()
}

/// Relies on the public nn field of the Paillier encryption key.
#[verifier::external_body]
pub fn ek_get_nn(ek: &kzen_paillier::EncryptionKey) -> (r: curv::BigInt)
    ensures
        r == ek_nn(*ek),
{
    ek.nn.clone()
}

/// Relies on Keys::phase1_verify_com_phase3_verify_correct_key_phase2_distribute:
/// it checks every hash commitment against its decommitment and every
/// Paillier correct-key proof, then shares the party's secret summand;
/// it succeeds exactly when all those checks pass. The underlying call
/// asserts both vector lengths equal the party count and that the degree
/// parameter is below it; the correct-key verifier reads a fixed count
/// of eleven sigma values from each peer proof and reduces modulo each
/// peer's modulus, so shorter proofs and non-positive moduli are
/// excluded as well.
#[verifier::external_body]
pub fn keys_phase1_verify_distribute(
    k: &GgKeys,
    degree: u16,
    parties: u16,
    decoms: &Vec<
        multi_party_ecdsa::protocols::multi_party_ecdsa::gg_2018::party_i::KeyGenDecommitMessage1,
    >,
    bcs: &Vec<
        multi_party_ecdsa::protocols::multi_party_ecdsa::gg_2018::party_i::KeyGenBroadcastMessage1,
    >,
) -> (r: Result<(Vss, Vec<Sc>), ()>)
    requires
        decoms@.len() == parties,
        bcs@.len() == parties,
        degree < parties,
        forall|i: int|
            0 <= i < bcs@.len() ==> bc_proof_sigma_count(#[trigger] bcs@[i]) >= 11 && big_gt_spec(
                ek_n(bc_key(bcs@[i])),
                big_of_u64(0),
            ),
    ensures
        r is Ok <==> keygen_coms_ok(decoms@, bcs@),
        r is Ok ==> r->Ok_0.1@.len() == parties && crate::curve::vss_n_commitments(r->Ok_0.0)
            == degree + 1,
{
    let params = multi_party_ecdsa::protocols::multi_party_ecdsa::gg_2018::party_i::Parameters {
        threshold: degree,
        share_count: parties,
    };
    match k.inner.phase1_verify_com_phase3_verify_correct_key_phase2_distribute(&params, decoms, bcs) {
        Ok((vss, shares, _)) => Ok((
            Vss { inner: vss },
            shares.into_iter().map(|s| Sc { inner: s }).collect(),
        )),
        Err(_) => Err(()),
    }
}

/// Relies on Keys::phase2_verify_vss_construct_keypair_phase3_pok_dlog:
/// it validates every received secret share against its commitment
/// vector and checks each vector's head against the sender's public
/// point; on success the shared public key is the sum of the public
/// points. The underlying call asserts the three vector lengths equal
/// the party count and reads the head commitment of every scheme, so
/// those inputs are excluded.
#[verifier::external_body]
pub fn keys_phase2_verify_vss(
    k: &GgKeys,
    degree: u16,
    parties: u16,
    points: &Vec<Pt>,
    shares: &Vec<Sc>,
    schemes: &Vec<Vss>,
    index: u16,
) -> (r: Result<
    (multi_party_ecdsa::protocols::multi_party_ecdsa::gg_2018::party_i::SharedKeys, DlogPf),
    (),
>)
    requires
        points@.len() == parties,
        shares@.len() == parties,
        schemes@.len() == parties,
        degree < parties,
        forall|i: int| 0 <= i < schemes@.len() ==> crate::curve::vss_n_commitments(schemes@[i]) > 0,
    ensures
        r is Ok <==> keygen_shares_ok(points@, shares@, schemes@, index),
        r is Ok ==> shared_y(r->Ok_0.0) == sum_pts(points@),
{
    let params = multi_party_ecdsa::protocols::multi_party_ecdsa::gg_2018::party_i::Parameters {
        threshold: degree,
        share_count: parties,
    };
    let y_vec: Vec<_> = points.iter().map(|p| p.inner.clone()).collect();
    let s_vec: Vec<_> = shares.iter().map(|s| s.inner.clone()).collect();
    let v_vec: Vec<_> = schemes.iter().map(|v| v.inner.clone()).collect();
    match k.inner.phase2_verify_vss_construct_keypair_phase3_pok_dlog(&params, &y_vec, &s_vec, &v_vec, index) {
        Ok((sk, pf)) => Ok((sk, DlogPf { inner: pf })),
        Err(_) => Err(()),
    }
}

/// Relies on Keys::verify_dlog_proofs: it succeeds exactly when every
/// proof in the vector verifies. The underlying call asserts both vector
/// lengths equal the party count, so those inputs are excluded.
#[verifier::external_body]
pub fn keys_verify_dlog_proofs(
    degree: u16,
    parties: u16,
    proofs: &Vec<DlogPf>,
    points: &Vec<Pt>,
) -> (r: bool)
    requires
        proofs@.len() == parties,
        points@.len() == parties,
    ensures
        r <==> (forall|i: int| 0 <= i < proofs@.len() ==> dlog_ok(proofs@[i])),
{
    let params =
        multi_party_ecdsa::protocols::multi_party_ecdsa::gg_2018::party_i::Parameters {
            threshold: degree,
            share_count: parties,
        };
    let p_vec: Vec<_> = proofs.iter().map(|p| p.inner.clone()).collect();
    let y_vec: Vec<_> = points.iter().map(|p| p.inner.clone()).collect();
    multi_party_ecdsa::protocols::multi_party_ecdsa::gg_2018::party_i::Keys::verify_dlog_proofs(
        &params,
        &p_vec,
        &y_vec,
    )
    .is_ok()
}

// ---------------------------------------------------------------------
// Signing.
// ---------------------------------------------------------------------

/// Relies on PartyPrivate::set_private: repackages the long-term key
/// material, a deterministic function of both inputs.
#[verifier::external_body]
pub fn party_private_set(
    k: &GgKeys,
    shared: &multi_party_ecdsa::protocols::multi_party_ecdsa::gg_2018::party_i::SharedKeys,
) -> (r: multi_party_ecdsa::protocols::multi_party_ecdsa::gg_2018::party_i::PartyPrivate)
    ensures
        r == private_of(*k, *shared),
{
    multi_party_ecdsa::protocols::multi_party_ecdsa::gg_2018::party_i::PartyPrivate::set_private(
        k.inner.clone(),
        shared.clone(),
    )
}

/// Relies on SignKeys::create: derives the signing weight for the chosen
/// participant subset — a deterministic Lagrange reweighting of the
/// long-term share — and samples fresh nonce material. The underlying
/// Lagrange mapping panics when the subset does not contain the index
/// or holds a duplicate entry, and increments each entry as a u16, so
/// those inputs are excluded.
#[verifier::external_body]
pub fn sign_keys_create(
    private: &multi_party_ecdsa::protocols::multi_party_ecdsa::gg_2018::party_i::PartyPrivate,
    vss: &Vss,
    index: u16,
    s: &Vec<u16>,
) -> (r: multi_party_ecdsa::protocols::multi_party_ecdsa::gg_2018::party_i::SignKeys)
    requires
        s@.contains(index),
        forall|a: int, b: int| 0 <= a < b < s@.len() ==> s@[a] != s@[b],
        forall|j: int| 0 <= j < s@.len() ==> (#[trigger] s@[j]) < u16::MAX,
    ensures
        signkeys_w(r) == w_of(*private, *vss, index, s@),
{
    multi_party_ecdsa::protocols::multi_party_ecdsa::gg_2018::party_i::SignKeys::create(
        private,
        &vss.inner,
        index,
        s,
    )
}

/// Relies on the public y field of SharedKeys: the aggregate public key.
#[verifier::external_body]
pub fn shared_keys_get_y(
    k: &multi_party_ecdsa::protocols::multi_party_ecdsa::gg_2018::party_i::SharedKeys,
) -> (r: Pt)
    ensures
        r == shared_y(*k),
{
    Pt { inner: k.y.clone() }
}

/// Relies on the public fields of SharedKeys: a copy whose secret share
/// is shifted by the given scalar while the aggregate public key stays
/// as it was.
#[verifier::external_body]
pub fn shared_keys_shift(
    k: &multi_party_ecdsa::protocols::multi_party_ecdsa::gg_2018::party_i::SharedKeys,
    delta: &Sc,
) -> (r: multi_party_ecdsa::protocols::multi_party_ecdsa::gg_2018::party_i::SharedKeys)
    ensures
        shared_y(r) == shared_y(*k),
        shared_x(r) == sc_add(shared_x(*k), *delta),
{
    multi_party_ecdsa::protocols::multi_party_ecdsa::gg_2018::party_i::SharedKeys {
        y: k.y.clone(),
        x_i: &k.x_i + &delta.inner,
    }
}

pub uninterp spec fn signkeys_gamma(
    k: multi_party_ecdsa::protocols::multi_party_ecdsa::gg_2018::party_i::SignKeys,
) -> Sc;

/// Relies on the public gamma_i field of SignKeys.
#[verifier::external_body]
pub fn sign_keys_gamma(
    k: &multi_party_ecdsa::protocols::multi_party_ecdsa::gg_2018::party_i::SignKeys,
) -> (r: Sc)
    ensures
        r == signkeys_gamma(*k),
{
    Sc { inner: k.gamma_i.clone() }
}

/// Relies on the public w_i field of SignKeys.
#[verifier::external_body]
pub fn sign_keys_w(
    k: &multi_party_ecdsa::protocols::multi_party_ecdsa::gg_2018::party_i::SignKeys,
) -> (r: Sc)
    ensures
        r == signkeys_w(*k),
{
    Sc { inner: k.w_i.clone() }
}

/// Relies on Keys::get_commitments_to_xi: one summed point commitment
/// per party. The underlying call converts the length to u16 and reads
/// the head commitment of every scheme, so those inputs are excluded.
#[verifier::external_body]
pub fn keys_commitments_to_xi(schemes: &Vec<Vss>) -> (r: Vec<Pt>)
    requires
        schemes@.len() <= u16::MAX,
        forall|i: int| 0 <= i < schemes@.len() ==> crate::curve::vss_n_commitments(schemes@[i]) > 0,
    ensures
        r@.len() == schemes@.len(),
{
    let v_vec: Vec<_> = schemes.iter().map(|v| v.inner.clone()).collect();
    multi_party_ecdsa::protocols::multi_party_ecdsa::gg_2018::party_i::Keys::get_commitments_to_xi(
        &v_vec,
    )
    .into_iter()
    .map(|p| Pt { inner: p })
    .collect()
}

pub uninterp spec fn xi_updated(com: Pt, vss: Vss, index: u16, s: Seq<u16>) -> Pt;

/// Relies on Keys::update_commitments_to_xi: rescales a point commitment
/// by the Lagrange coefficient of the chosen subset, a deterministic
/// function of its arguments. The underlying mapping panics when the
/// subset does not contain the index or holds a duplicate entry, and
/// increments each entry as a u16, so those inputs are excluded.
#[verifier::external_body]
pub fn keys_update_commitment_to_xi(com: &Pt, vss: &Vss, index: u16, s: &Vec<u16>) -> (r: Pt)
    requires
        s@.contains(index),
        forall|a: int, b: int| 0 <= a < b < s@.len() ==> s@[a] != s@[b],
        forall|j: int| 0 <= j < s@.len() ==> (#[trigger] s@[j]) < u16::MAX,
    ensures
        r == xi_updated(*com, *vss, index, s@),
{
    Pt {
        inner: multi_party_ecdsa::protocols::multi_party_ecdsa::gg_2018::party_i::Keys::update_commitments_to_xi(
            &com.inner,
            &vss.inner,
            index,
            s,
        ),
    }
}

/// Relies on SignKeys::phase1_broadcast: a hash commitment to the
/// party's nonce point g_gamma_i under a fresh blinding factor, and the
/// decommitment that carries that point and blinding factor.
#[verifier::external_body]
pub fn sign_keys_phase1_broadcast(
    k: &multi_party_ecdsa::protocols::multi_party_ecdsa::gg_2018::party_i::SignKeys,
) -> (r: (
    multi_party_ecdsa::protocols::multi_party_ecdsa::gg_2018::party_i::SignBroadcastPhase1,
    multi_party_ecdsa::protocols::multi_party_ecdsa::gg_2018::party_i::SignDecommitPhase1,
))
    ensures
        sign_decom_gamma(r.1) == signkeys_g_gamma(*k),
        sign_bc_com(r.0) == hash_com(pt_to_big(signkeys_g_gamma(*k)), sign_decom_blind(r.1)),
{
    k.phase1_broadcast()
}

/// Relies on the public g_gamma_i field of SignDecommitPhase1.
#[verifier::external_body]
pub fn sign_decom_get_gamma(
    d: &multi_party_ecdsa::protocols::multi_party_ecdsa::gg_2018::party_i::SignDecommitPhase1,
) -> (r: Pt)
    ensures
        r == sign_decom_gamma(*d),
{
    Pt { inner: d.g_gamma_i.clone() }
}

/// Relies on MessageA::a with no range-proof statements: a Paillier
/// encryption of the party's nonce share under its own key.
#[verifier::external_body]
pub fn mta_message_a(
    k: &multi_party_ecdsa::protocols::multi_party_ecdsa::gg_2018::party_i::SignKeys,
    keys: &GgKeys,
) -> (r: multi_party_ecdsa::utilities::mta::MessageA) {
    multi_party_ecdsa::utilities::mta::MessageA::a(&k.k_i, &keys.inner.ek, &[]).0
}

/// Relies on MessageB::b with no range-proof statements: it fails
/// exactly when the received MessageA carries range proofs, since none
/// are expected here. The underlying call samples below the modulus and
/// reduces modulo the squared modulus, so keys without positive moduli
/// are excluded.
#[verifier::external_body]
pub fn mta_message_b(
    secret: &Sc,
    ek: &kzen_paillier::EncryptionKey,
    m_a: multi_party_ecdsa::utilities::mta::MessageA,
) -> (r: Result<(multi_party_ecdsa::utilities::mta::MessageB, Sc), ()>)
    requires
        paillier_wf(*ek),
    ensures
        r is Ok <==> mta_a_plain(m_a),
{
    match multi_party_ecdsa::utilities::mta::MessageB::b(
        &secret.inner,
        ek,
        m_a,
        &[],
    ) {
        Ok((m_b, beta, _, _)) => Ok((m_b, Sc { inner: beta })),
        Err(_) => Err(()),
    }
}

/// Relies on MessageB::verify_proofs_get_alpha: decrypts the cross term
/// — a deterministic function of the message and this party's keys —
/// and succeeds exactly when both discrete-log proofs verify and the
/// ciphertext is consistent with them.
#[verifier::external_body]
pub fn mta_verify_get_alpha(
    m: &multi_party_ecdsa::utilities::mta::MessageB,
    keys: &GgKeys,
    sk: &multi_party_ecdsa::protocols::multi_party_ecdsa::gg_2018::party_i::SignKeys,
) -> (r: Result<Sc, ()>)
    ensures
        r is Ok <==> mta_b_ok(*m, *keys, *sk),
        r is Ok ==> r->Ok_0 == mta_alpha(*m, *keys, *sk),
{
    match m.verify_proofs_get_alpha(&keys.inner.dk, &sk.k_i) {
        Ok((alpha, _)) => Ok(Sc { inner: alpha }),
        Err(_) => Err(()),
    }
}

/// Relies on the public b_proof.pk field of MessageB: the point the
/// sender proved knowledge for.
#[verifier::external_body]
pub fn msgb_get_b_pk(m: &multi_party_ecdsa::utilities::mta::MessageB) -> (r: Pt)
    ensures
        r == msgb_b_pk(*m),
{
    Pt { inner: m.b_proof.pk.clone() }
}

/// Relies on SignKeys::phase2_delta_i: the party's additive delta
/// share, k_i*gamma_i plus the sum of all cross terms. The underlying
/// call asserts equal vector lengths, so other inputs are excluded.
#[verifier::external_body]
pub fn sign_keys_phase2_delta_i(
    k: &multi_party_ecdsa::protocols::multi_party_ecdsa::gg_2018::party_i::SignKeys,
    alphas: &Vec<Sc>,
    betas: &Vec<Sc>,
) -> (r: Sc)
    requires
        alphas@.len() == betas@.len(),
    ensures
        alphas@.len() == 0 ==> r == sc_mul(signkeys_k(*k), signkeys_gamma(*k)),
        alphas@.len() > 0 ==> r == sc_add(
            sc_mul(signkeys_k(*k), signkeys_gamma(*k)),
            sum_scs(alphas@ + betas@),
        ),
{
    let a_vec: Vec<_> = alphas.iter().map(|s| s.inner.clone()).collect();
    let b_vec: Vec<_> = betas.iter().map(|s| s.inner.clone()).collect();
    Sc { inner: k.phase2_delta_i(&a_vec, &b_vec) }
}

/// Relies on SignKeys::phase2_sigma_i: the party's additive sigma
/// share, k_i*w_i plus the sum of all cross terms. The underlying call
/// asserts equal vector lengths, so other inputs are excluded.
#[verifier::external_body]
pub fn sign_keys_phase2_sigma_i(
    k: &multi_party_ecdsa::protocols::multi_party_ecdsa::gg_2018::party_i::SignKeys,
    mius: &Vec<Sc>,
    nis: &Vec<Sc>,
) -> (r: Sc)
    requires
        mius@.len() == nis@.len(),
    ensures
        mius@.len() == 0 ==> r == sc_mul(signkeys_k(*k), signkeys_w(*k)),
        mius@.len() > 0 ==> r == sc_add(
            sc_mul(signkeys_k(*k), signkeys_w(*k)),
            sum_scs(mius@ + nis@),
        ),
{
    let m_vec: Vec<_> = mius.iter().map(|s| s.inner.clone()).collect();
    let n_vec: Vec<_> = nis.iter().map(|s| s.inner.clone()).collect();
    Sc { inner: k.phase2_sigma_i(&m_vec, &n_vec) }
}

/// Relies on SignKeys::phase4: checks every nonce decommitment against
/// its round-one commitment and the MtA proof's point, and on success
/// returns the sum of the revealed nonce points scaled by delta_inv.
#[verifier::external_body]
pub fn sign_keys_phase4(
    delta_inv: &Sc,
    m_bs: &Vec<multi_party_ecdsa::utilities::mta::MessageB>,
    decoms: &Vec<
        multi_party_ecdsa::protocols::multi_party_ecdsa::gg_2018::party_i::SignDecommitPhase1,
    >,
    bcs: &Vec<multi_party_ecdsa::protocols::multi_party_ecdsa::gg_2018::party_i::SignBroadcastPhase1>,
) -> (r: Result<Pt, ()>)
    requires
        m_bs@.len() <= decoms@.len(),
        m_bs@.len() <= bcs@.len(),
    ensures
        r is Ok <==> phase4_ok(m_bs@, decoms@, bcs@),
        r is Ok && decoms@.len() > 0 ==> r->Ok_0 == pt_mul(
            sum_pts(decoms@.map_values(|d| sign_decom_gamma(d))),
            *delta_inv,
        ),
{
    let b_proofs: Vec<_> = m_bs.iter().map(|m| &m.b_proof).collect();
    match multi_party_ecdsa::protocols::multi_party_ecdsa::gg_2018::party_i::SignKeys::phase4(
        &delta_inv.inner,
        &b_proofs,
        decoms.clone(),
        bcs,
    ) {
        Ok(p) => Ok(Pt { inner: p }),
        Err(_) => Err(()),
    }
}

/// Relies on LocalSignature::phase5_local_sig: assembles the local
/// signature state; its R, message and public-key fields are the
/// arguments handed in. The underlying call reads the x coordinate of
/// R, so points without one are excluded.
#[verifier::external_body]
pub fn local_sig_phase5(
    k: &multi_party_ecdsa::protocols::multi_party_ecdsa::gg_2018::party_i::SignKeys,
    message: &curv::BigInt,
    r_point: &Pt,
    sigma: &Sc,
    y: &Pt,
) -> (r: multi_party_ecdsa::protocols::multi_party_ecdsa::gg_2018::party_i::LocalSignature)
    requires
        pt_has_x(*r_point),
    ensures
        localsig_r_point(r) == *r_point,
        localsig_m(r) == *message,
        localsig_y(r) == *y,
{
    multi_party_ecdsa::protocols::multi_party_ecdsa::gg_2018::party_i::LocalSignature::phase5_local_sig(
        &k.k_i,
        message,
        &r_point.inner,
        &sigma.inner,
        &y.inner,
    )
}

/// Relies on LocalSignature::phase5a_broadcast_5b_zkproof: a commitment
/// to the phase-5 values, their decommitment, a homomorphic-ElGamal
/// proof and a discrete-log proof.
#[verifier::external_body]
pub fn local_sig_phase5a(
    l: &multi_party_ecdsa::protocols::multi_party_ecdsa::gg_2018::party_i::LocalSignature,
) -> (r: (
    multi_party_ecdsa::protocols::multi_party_ecdsa::gg_2018::party_i::Phase5Com1,
    multi_party_ecdsa::protocols::multi_party_ecdsa::gg_2018::party_i::Phase5ADecom1,
    HegPf,
    DlogPf,
)) {
    let (com, decom, heg, dlog) = l.phase5a_broadcast_5b_zkproof();
    (com, decom, HegPf { inner: heg }, DlogPf { inner: dlog })
}

/// Relies on the public V_i field of Phase5ADecom1.
#[verifier::external_body]
pub fn p5a_get_v(
    d: &multi_party_ecdsa::protocols::multi_party_ecdsa::gg_2018::party_i::Phase5ADecom1,
) -> (r: Pt)
    ensures
        r == p5a_v_point(*d),
{
    Pt { inner: d.V_i.clone() }
}

/// Relies on LocalSignature::phase5c: checks every phase-5 decommitment
/// against its commitment together with its ElGamal and discrete-log
/// proofs, and commits to the second-layer values; it also fails when
/// its own R field has no x coordinate. The underlying call asserts the
/// first two lengths are equal and indexes the proof vectors up to that
/// length, so shorter ones are excluded.
#[verifier::external_body]
pub fn local_sig_phase5c(
    l: &multi_party_ecdsa::protocols::multi_party_ecdsa::gg_2018::party_i::LocalSignature,
    decoms: &Vec<multi_party_ecdsa::protocols::multi_party_ecdsa::gg_2018::party_i::Phase5ADecom1>,
    coms: &Vec<multi_party_ecdsa::protocols::multi_party_ecdsa::gg_2018::party_i::Phase5Com1>,
    hegs: &Vec<HegPf>,
    dlogs: &Vec<DlogPf>,
    v_i: &Pt,
    r_point: &Pt,
) -> (r: Result<
    (
        multi_party_ecdsa::protocols::multi_party_ecdsa::gg_2018::party_i::Phase5Com2,
        multi_party_ecdsa::protocols::multi_party_ecdsa::gg_2018::party_i::Phase5DDecom2,
    ),
    (),
>)
    requires
        decoms@.len() == coms@.len(),
        hegs@.len() >= coms@.len(),
        dlogs@.len() >= coms@.len(),
    ensures
        r is Ok <==> (phase5c_ok(*l, decoms@, coms@, hegs@, dlogs@, *r_point) && pt_has_x(localsig_r_point(*l))),
{
    let h_vec: Vec<_> = hegs.iter().map(|h| h.inner.clone()).collect();
    let d_vec: Vec<_> = dlogs.iter().map(|d| d.inner.clone()).collect();
    match l.phase5c(
        decoms,
        coms,
        &h_vec,
        &d_vec,
        &v_i.inner,
        &r_point.inner,
    ) {
        Ok(pair) => Ok(pair),
        Err(_) => Err(()),
    }
}

/// Relies on LocalSignature::phase5d: checks every second-layer
/// decommitment against its commitment and the aggregated consistency
/// equation, and on success hands out the party's partial signature
/// scalar. The underlying call asserts the vector lengths are equal.
#[verifier::external_body]
pub fn local_sig_phase5d(
    l: &multi_party_ecdsa::protocols::multi_party_ecdsa::gg_2018::party_i::LocalSignature,
    decoms2: &Vec<multi_party_ecdsa::protocols::multi_party_ecdsa::gg_2018::party_i::Phase5DDecom2>,
    coms2: &Vec<multi_party_ecdsa::protocols::multi_party_ecdsa::gg_2018::party_i::Phase5Com2>,
    decoms1: &Vec<multi_party_ecdsa::protocols::multi_party_ecdsa::gg_2018::party_i::Phase5ADecom1>,
) -> (r: Result<Sc, ()>)
    requires
        decoms2@.len() == decoms1@.len(),
        decoms2@.len() == coms2@.len(),
    ensures
        r is Ok <==> phase5d_ok(*l, decoms2@, coms2@, decoms1@),
        r is Ok ==> r->Ok_0 == localsig_s(*l),
{
    match l.phase5d(decoms2, coms2, decoms1) {
        Ok(s) => Ok(Sc { inner: s }),
        Err(_) => Err(()),
    }
}

pub uninterp spec fn output_sig_ok(
    l: multi_party_ecdsa::protocols::multi_party_ecdsa::gg_2018::party_i::LocalSignature,
    s_vec: Seq<Sc>,
) -> bool;

/// Relies on LocalSignature::output_signature: combines the partial
/// signature scalars, normalizes s, and verifies the ECDSA signature
/// against its own public key and message before returning it, all a
/// deterministic function of the local state and the shares.
#[verifier::external_body]
pub fn local_sig_output(
    l: &multi_party_ecdsa::protocols::multi_party_ecdsa::gg_2018::party_i::LocalSignature,
    s_vec: &Vec<Sc>,
) -> (r: Result<
    multi_party_ecdsa::protocols::multi_party_ecdsa::gg_2018::party_i::SignatureRecid,
    (),
>)
    ensures
        r is Ok <==> output_sig_ok(*l, s_vec@),
        r is Ok ==> ecdsa_sig_ok(
            sigrec_r(r->Ok_0),
            sigrec_s(r->Ok_0),
            localsig_y(*l),
            localsig_m(*l),
        ),
{
    let v: Vec<_> = s_vec.iter().map(|s| s.inner.clone()).collect();
    match l.output_signature(&v) {
        Ok(sig) => Ok(sig),
        Err(_) => Err(()),
    }
}

/// Relies on the public r field of SignatureRecid.
#[verifier::external_body]
pub fn sigrec_get_r(
    s: &multi_party_ecdsa::protocols::multi_party_ecdsa::gg_2018::party_i::SignatureRecid,
) -> (r: Sc)
    ensures
        r == sigrec_r(*s),
{
    Sc { inner: s.r.clone() }
}

/// Relies on the public s field of SignatureRecid.
#[verifier::external_body]
pub fn sigrec_get_s(
    s: &multi_party_ecdsa::protocols::multi_party_ecdsa::gg_2018::party_i::SignatureRecid,
) -> (r: Sc)
    ensures
        r == sigrec_s(*s),
{
    Sc { inner: s.s.clone() }
}

/// Relies on gg_2018's verify: the standard ECDSA verification equation
/// over the crate's curve, a deterministic function of its arguments.
#[verifier::external_body]
pub fn ecdsa_verify(r: &Sc, s: &Sc, y: &Pt, m: &curv::BigInt) -> (res: bool)
    ensures
        res == ecdsa_sig_ok(*r, *s, *y, *m),
{
    let sig = multi_party_ecdsa::protocols::multi_party_ecdsa::gg_2018::party_i::SignatureRecid {
        r: r.inner.clone(),
        s: s.inner.clone(),
        recid: 0,
    };
    multi_party_ecdsa::protocols::multi_party_ecdsa::gg_2018::party_i::verify(
        &sig,
        &y.inner,
        m,
    )
    .is_ok()
}

} // verus!
