//! Signing for the general threshold scheme: t cooperating parties,
//! given a message hash and the agreed participant index list.
//!
//! Nine message rounds and a terminal combination step. Inbound peer
//! vectors are pre-ordered to match the participant list with the
//! caller's own entry missing; each round reinserts the caller's own
//! value at its threshold index before positional processing. Every
//! verification failure is a terminal error and no partial signature is
//! ever returned.
use vstd::prelude::*;

use crate::curve::{
    pt_add, pt_has_x, pt_mul, sc_add, sc_inv, sc_mul, scalar_is_zero, sum_pts, sum_scs, DlogPf,
    HegPf, Pt, Sc, Vss,
};
use crate::gg18_primitives::{
    dup, ek_get_n, ek_get_nn, keys_commitments_to_xi, keys_update_commitment_to_xi,
    local_sig_output, local_sig_phase5,
    local_sig_phase5a, local_sig_phase5c, local_sig_phase5d, localsig_m, localsig_r_point,
    localsig_s, localsig_y, mta_a_plain, mta_b_ok, mta_message_a, mta_message_b,
    mta_alpha, mta_verify_get_alpha, msgb_b_pk, msgb_get_b_pk, p5a_get_v, paillier_wf,
    party_private_set, phase4_ok, phase5c_ok, phase5d_ok, sigrec_get_r, sigrec_get_s, sigrec_r,
    sigrec_s, sign_bc_com, sign_decom_blind, sign_decom_gamma, sign_decom_get_gamma,
    sign_keys_create, sign_keys_phase1_broadcast, sign_keys_phase2_delta_i,
    sign_keys_phase2_sigma_i, sign_keys_phase4, signkeys_g_gamma, signkeys_gamma, signkeys_k,
    signkeys_w, w_of, xi_updated, GgKeys,
};
use crate::key_gen::SignContext;
use multi_party_ecdsa::protocols::multi_party_ecdsa::gg_2018::party_i::{
    Phase5ADecom1, Phase5Com1, Phase5Com2, Phase5DDecom2, SignBroadcastPhase1, SignDecommitPhase1,
    SignKeys,
};
use multi_party_ecdsa::utilities::mta::{MessageA, MessageB};

verus! {

pub type GG18SignMsg1 = (SignBroadcastPhase1, MessageA);

pub type GG18SignMsg2 = (MessageB, MessageB);

pub type GG18SignMsg3 = Sc;

pub type GG18SignMsg4 = SignDecommitPhase1;

pub type GG18SignMsg5 = Phase5Com1;

pub type GG18SignMsg6 = (Phase5ADecom1, HegPf, DlogPf);

pub type GG18SignMsg7 = Phase5Com2;

pub type GG18SignMsg8 = Phase5DDecom2;

pub type GG18SignMsg9 = Sc;

pub struct GG18SignContext1 {
    pub indices: Vec<u16>,
    pub threshold_index: usize,
    pub message_hash: Vec<u8>,
    pub threshold: u16,
    pub party_id: u16,
    pub party_keys: GgKeys,
    pub vss_scheme_vec: Vec<Vss>,
    pub paillier_key_vec: Vec<kzen_paillier::EncryptionKey>,
    pub y_sum: Pt,
    pub sign_keys: SignKeys,
    pub xi_com_vec: Vec<Pt>,
    pub com: SignBroadcastPhase1,
    pub decommit: SignDecommitPhase1,
}

pub struct GG18SignContext2 {
    pub indices: Vec<u16>,
    pub threshold_index: usize,
    pub message_hash: Vec<u8>,
    pub threshold: u16,
    pub party_id: u16,
    pub party_keys: GgKeys,
    pub vss_scheme_vec: Vec<Vss>,
    pub y_sum: Pt,
    pub sign_keys: SignKeys,
    pub xi_com_vec: Vec<Pt>,
    pub decommit: SignDecommitPhase1,
    pub bc1_vec: Vec<SignBroadcastPhase1>,
    pub beta_vec: Vec<Sc>,
    pub ni_vec: Vec<Sc>,
}

pub struct GG18SignContext3 {
    pub indices: Vec<u16>,
    pub threshold_index: usize,
    pub message_hash: Vec<u8>,
    pub threshold: u16,
    pub party_id: u16,
    pub y_sum: Pt,
    pub sign_keys: SignKeys,
    pub decommit: SignDecommitPhase1,
    pub bc1_vec: Vec<SignBroadcastPhase1>,
    pub m_b_gamma_rec_vec: Vec<MessageB>,
    pub delta_i: Sc,
    pub sigma: Sc,
}

pub struct GG18SignContext4 {
    pub indices: Vec<u16>,
    pub threshold_index: usize,
    pub message_hash: Vec<u8>,
    pub threshold: u16,
    pub party_id: u16,
    pub y_sum: Pt,
    pub sign_keys: SignKeys,
    pub decommit: SignDecommitPhase1,
    pub bc1_vec: Vec<SignBroadcastPhase1>,
    pub m_b_gamma_rec_vec: Vec<MessageB>,
    pub sigma: Sc,
    pub delta_inv: Sc,
}

pub struct GG18SignContext5 {
    pub indices: Vec<u16>,
    pub threshold_index: usize,
    pub threshold: u16,
    pub party_id: u16,
    pub local_sig: multi_party_ecdsa::protocols::multi_party_ecdsa::gg_2018::party_i::LocalSignature,
    pub phase5_com: Phase5Com1,
    pub phase_5a_decom: Phase5ADecom1,
    pub helgamal_proof: HegPf,
    pub dlog_proof_rho: DlogPf,
    pub r: Pt,
}

pub struct GG18SignContext6 {
    pub indices: Vec<u16>,
    pub threshold_index: usize,
    pub threshold: u16,
    pub party_id: u16,
    pub local_sig: multi_party_ecdsa::protocols::multi_party_ecdsa::gg_2018::party_i::LocalSignature,
    pub phase_5a_decom: Phase5ADecom1,
    pub helgamal_proof: HegPf,
    pub dlog_proof_rho: DlogPf,
    pub r: Pt,
    pub commit5a_vec: Vec<Phase5Com1>,
}

pub struct GG18SignContext7 {
    pub indices: Vec<u16>,
    pub threshold_index: usize,
    pub threshold: u16,
    pub party_id: u16,
    pub local_sig: multi_party_ecdsa::protocols::multi_party_ecdsa::gg_2018::party_i::LocalSignature,
    pub phase_5a_decom: Phase5ADecom1,
    pub decommit5a_and_elgamal_and_dlog_vec_includes_i: Vec<GG18SignMsg6>,
    pub phase_5a_decomm_vec: Vec<Phase5ADecom1>,
    pub phase5_com2: Phase5Com2,
    pub phase_5d_decom2: Phase5DDecom2,
}

pub struct GG18SignContext8 {
    pub indices: Vec<u16>,
    pub threshold_index: usize,
    pub threshold: u16,
    pub party_id: u16,
    pub local_sig: multi_party_ecdsa::protocols::multi_party_ecdsa::gg_2018::party_i::LocalSignature,
    pub phase_5a_decom: Phase5ADecom1,
    pub decommit5a_and_elgamal_and_dlog_vec_includes_i: Vec<GG18SignMsg6>,
    pub phase_5a_decomm_vec: Vec<Phase5ADecom1>,
    pub phase_5d_decom2: Phase5DDecom2,
    pub commit5c_vec: Vec<Phase5Com2>,
}

pub struct GG18SignContext9 {
    pub threshold: u16,
    pub local_sig: multi_party_ecdsa::protocols::multi_party_ecdsa::gg_2018::party_i::LocalSignature,
}

/// The shape a signing session start must have: the participant list
/// matches the threshold, contains the caller at its threshold index,
/// and stays within the key-generation party count.
pub open spec fn sign1_shape_ok(
    context: SignContext,
    indices: Seq<u16>,
    threshold_index: int,
) -> bool {
    let n = context.vss_scheme_vec@.len();
    &&& context.threshold >= 1
    &&& indices.len() == context.threshold
    &&& 0 <= threshold_index < indices.len()
    &&& indices[threshold_index] == context.index
    &&& (forall|j: int| 0 <= j < indices.len() ==> (indices[j] as int) < n)
    &&& indices_distinct(indices)
    &&& context.paillier_key_vec@.len() == n
    &&& (context.index as int) < n
    &&& 1 <= n <= u16::MAX
}

/// A participant list with no repeated entry and every entry below the
/// largest u16, as the Lagrange reweighting demands.
pub open spec fn indices_distinct(indices: Seq<u16>) -> bool {
    &&& (forall|a: int, b: int| 0 <= a < b < indices.len() ==> indices[a] != indices[b])
    &&& (forall|j: int| 0 <= j < indices.len() ==> (#[trigger] indices[j]) < u16::MAX)
}

/// Checks a participant list for repeated entries or entries at the
/// largest u16 value.
fn check_indices_distinct(indices: &Vec<u16>) -> (r: bool)
    ensures
        r == indices_distinct(indices@),
{
    let mut i: usize = 0;
    while i < indices.len()
        invariant
            i <= indices@.len(),
            forall|a: int, b: int| 0 <= a < b < i ==> indices@[a] != indices@[b],
            forall|j: int| 0 <= j < i ==> (#[trigger] indices@[j]) < u16::MAX,
        decreases indices@.len() - i,
    {
        if indices[i] == u16::MAX {
            return false;
        }
        let mut j: usize = 0;
        while j < i
            invariant
                j <= i < indices@.len(),
                forall|a: int| 0 <= a < j ==> indices@[a] != indices@[i as int],
            decreases i - j,
        {
            if indices[j] == indices[i] {
                return false;
            }
            j = j + 1;
        }
        i = i + 1;
    }
    true
}

/// The keygen index of the j-th peer of a session whose own position is
/// threshold_index: peers keep their order, the caller's slot is skipped.
pub open spec fn peer_slot(threshold_index: int, j: int) -> int {
    if j < threshold_index {
        j
    } else {
        j + 1
    }
}

/// Round 1: derive the signing key for the chosen participant subset,
/// commit to a fresh nonce point — the retained decommitment opens the
/// outbound commitment to it — and open the MtA exchanges with a
/// Paillier encryption of the nonce share. Succeeds exactly for a
/// well-shaped session start over a well-formed key-generation output.
pub fn gg18_sign1(
    context: SignContext,
    indices: Vec<u16>,
    threshold_index: usize,
    message_hash: Vec<u8>,
) -> (r: Result<(GG18SignMsg1, GG18SignContext1), &'static str>)
    ensures
        r is Ok <==> sign1_shape_ok(context, indices@, threshold_index as int) && (forall|j: int|
            0 <= j < context.vss_scheme_vec@.len() ==> crate::curve::vss_n_commitments(
                #[trigger] context.vss_scheme_vec@[j],
            ) > 0),
        r is Ok ==> {
            let ctx = r->Ok_0.1;
            &&& ctx.indices == indices
            &&& ctx.threshold_index == threshold_index
            &&& ctx.message_hash == message_hash
            &&& ctx.threshold == context.threshold
            &&& ctx.party_id == context.index
            &&& ctx.party_keys == context.party_keys
            &&& ctx.vss_scheme_vec == context.vss_scheme_vec
            &&& ctx.paillier_key_vec == context.paillier_key_vec
            &&& ctx.y_sum == context.pk
            &&& ctx.xi_com_vec@.len() == context.vss_scheme_vec@.len()
            &&& r->Ok_0.0.0 == ctx.com
            &&& sign_decom_gamma(ctx.decommit) == signkeys_g_gamma(ctx.sign_keys)
            &&& sign_bc_com(ctx.com) == crate::curve::hash_com(
                crate::curve::pt_to_big(signkeys_g_gamma(ctx.sign_keys)),
                sign_decom_blind(ctx.decommit),
            )
            &&& signkeys_w(ctx.sign_keys) == w_of(
                crate::gg18_primitives::private_of(context.party_keys, context.shared_keys),
                context.vss_scheme_vec@[context.index as int],
                context.index,
                indices@,
            )
        },
{
    let n = context.vss_scheme_vec.len();
    if context.threshold < 1 || indices.len() != context.threshold as usize || threshold_index
        >= indices.len() || context.paillier_key_vec.len() != n || context.index as usize >= n
        || n < 1 || n > u16::MAX as usize {
        return Err("invalid session parameters");
    }
    if indices[threshold_index] != context.index {
        return Err("invalid session parameters");
    }
    let mut k: usize = 0;
    while k < indices.len()
        invariant
            k <= indices@.len(),
            n == context.vss_scheme_vec@.len(),
            forall|j: int| 0 <= j < k ==> (indices@[j] as int) < n,
        decreases indices@.len() - k,
    {
        if indices[k] as usize >= n {
            return Err("invalid session parameters");
        }
        k = k + 1;
    }
    if !check_indices_distinct(&indices) {
        return Err("invalid session parameters");
    }
    let mut k: usize = 0;
    while k < context.vss_scheme_vec.len()
        invariant
            k <= context.vss_scheme_vec@.len(),
            forall|j: int|
                0 <= j < k ==> crate::curve::vss_n_commitments(
                    #[trigger] context.vss_scheme_vec@[j],
                ) > 0,
        decreases context.vss_scheme_vec@.len() - k,
    {
        if crate::curve::vss_commitments_len(&context.vss_scheme_vec[k]) == 0 {
            return Err("malformed commitment vector");
        }
        k = k + 1;
    }

    let private = party_private_set(&context.party_keys, &context.shared_keys);
    proof {
        assert(indices@.contains(indices@[threshold_index as int]));
    }
    let sign_keys = sign_keys_create(
        &private,
        &context.vss_scheme_vec[context.index as usize],
        context.index,
        &indices,
    );

    let xi_com_vec = keys_commitments_to_xi(&context.vss_scheme_vec);
    let (com, decommit) = sign_keys_phase1_broadcast(&sign_keys);
    let m_a_k = mta_message_a(&sign_keys, &context.party_keys);

    let msg_com = dup(&com);
    let context1 = GG18SignContext1 {
        indices,
        threshold_index,
        message_hash,
        threshold: context.threshold,
        party_id: context.index,
        party_keys: context.party_keys,
        vss_scheme_vec: context.vss_scheme_vec,
        paillier_key_vec: context.paillier_key_vec,
        y_sum: context.pk,
        sign_keys,
        xi_com_vec,
        com,
        decommit,
    };
    Ok(((msg_com, m_a_k), context1))
}

/// The shape rounds 2 and later expect of the carried participant data.
pub open spec fn peers_shape_ok(
    indices: Seq<u16>,
    threshold_index: int,
    threshold: u16,
    n_messages: int,
) -> bool {
    &&& threshold >= 1
    &&& n_messages + 1 == threshold
    &&& indices.len() == threshold
    &&& 0 <= threshold_index < indices.len()
}

/// Round 2: collect the round-1 commitments, reinsert our own, and
/// answer every peer's MtA opening with two encrypted responses, one
/// for the nonce blinding and one for the key share. Succeeds exactly
/// when the vectors are well-shaped and no peer attached unexpected
/// range proofs to its opening.
pub fn gg18_sign2(messages: Vec<GG18SignMsg1>, context: GG18SignContext1) -> (r: Result<
    (Vec<GG18SignMsg2>, GG18SignContext2),
    &'static str,
>)
    ensures
        r is Ok <==> {
            &&& peers_shape_ok(
                context.indices@,
                context.threshold_index as int,
                context.threshold,
                messages@.len() as int,
            )
            &&& (forall|j: int|
                0 <= j < context.indices@.len() ==> (context.indices@[j] as int)
                    < context.paillier_key_vec@.len())
            &&& (forall|j: int|
                #![trigger peer_slot(context.threshold_index as int, j)]
                0 <= j < messages@.len() ==> paillier_wf(
                    context.paillier_key_vec@[context.indices@[peer_slot(
                        context.threshold_index as int,
                        j,
                    )] as int],
                ))
            &&& (forall|j: int|
                #![trigger messages@[j]]
                0 <= j < messages@.len() ==> mta_a_plain(messages@[j].1))
        },
        r is Ok ==> {
            let ctx = r->Ok_0.1;
            &&& ctx.bc1_vec@ == messages@.map_values(|m: GG18SignMsg1| m.0).insert(
                context.threshold_index as int,
                context.com,
            )
            &&& r->Ok_0.0@.len() == messages@.len()
            &&& ctx.beta_vec@.len() == messages@.len()
            &&& ctx.ni_vec@.len() == messages@.len()
            &&& ctx.indices == context.indices
            &&& ctx.threshold_index == context.threshold_index
            &&& ctx.message_hash == context.message_hash
            &&& ctx.threshold == context.threshold
            &&& ctx.party_id == context.party_id
            &&& ctx.party_keys == context.party_keys
            &&& ctx.vss_scheme_vec == context.vss_scheme_vec
            &&& ctx.y_sum == context.y_sum
            &&& ctx.sign_keys == context.sign_keys
            &&& ctx.xi_com_vec == context.xi_com_vec
            &&& ctx.decommit == context.decommit
        },
{
    if context.threshold < 1 || messages.len() != context.threshold as usize - 1
        || context.indices.len() != context.threshold as usize || context.threshold_index
        >= context.indices.len() {
        return Err("wrong number of messages");
    }
    let mut k: usize = 0;
    while k < context.indices.len()
        invariant
            k <= context.indices@.len(),
            forall|j: int|
                0 <= j < k ==> (context.indices@[j] as int) < context.paillier_key_vec@.len(),
        decreases context.indices@.len() - k,
    {
        if context.indices[k] as usize >= context.paillier_key_vec.len() {
            return Err("wrong number of messages");
        }
        k = k + 1;
    }

    let mut bc_in: Vec<SignBroadcastPhase1> = Vec::new();
    let mut m_a_vec: Vec<MessageA> = Vec::new();
    let mut k: usize = 0;
    while k < messages.len()
        invariant
            k <= messages@.len(),
            bc_in@.len() == k,
            m_a_vec@.len() == k,
            forall|j: int|
                #![trigger messages@[j]]
                0 <= j < k ==> bc_in@[j] == messages@[j].0 && m_a_vec@[j] == messages@[j].1,
        decreases messages@.len() - k,
    {
        let (part_a, part_b) = dup(&messages[k]);
        bc_in.push(part_a);
        m_a_vec.push(part_b);
        k = k + 1;
    }
    proof {
        assert(bc_in@ =~= messages@.map_values(|m: GG18SignMsg1| m.0));
    }
    let mut bc1_vec = bc_in;
    bc1_vec.insert(context.threshold_index, dup(&context.com));

    let zero = crate::curve::big_from_u64(0);
    let mut send_vec: Vec<GG18SignMsg2> = Vec::new();
    let mut beta_vec: Vec<Sc> = Vec::new();
    let mut ni_vec: Vec<Sc> = Vec::new();
    let mut j: usize = 0;
    while j < m_a_vec.len()
        invariant
            j <= m_a_vec@.len(),
            m_a_vec@.len() == messages@.len(),
            send_vec@.len() == j,
            beta_vec@.len() == j,
            ni_vec@.len() == j,
            zero == crate::curve::big_of_u64(0),
            context.threshold_index < context.indices@.len(),
            m_a_vec@.len() + 1 == context.indices@.len(),
            forall|i: int|
                0 <= i < context.indices@.len() ==> (context.indices@[i] as int)
                    < context.paillier_key_vec@.len(),
            forall|i: int|
                #![trigger peer_slot(context.threshold_index as int, i)]
                0 <= i < j ==> paillier_wf(
                    context.paillier_key_vec@[context.indices@[peer_slot(
                        context.threshold_index as int,
                        i,
                    )] as int],
                ),
            forall|i: int|
                #![trigger messages@[i]]
                0 <= i < m_a_vec@.len() ==> m_a_vec@[i] == messages@[i].1,
            forall|i: int|
                #![trigger m_a_vec@[i]]
                0 <= i < j ==> mta_a_plain(m_a_vec@[i]),
        decreases m_a_vec@.len() - j,
    {
        let slot = if j < context.threshold_index {
            j
        } else {
            j + 1
        };
        proof {
            assert(slot as int == peer_slot(context.threshold_index as int, j as int));
        }
        let ek = &context.paillier_key_vec[context.indices[slot] as usize];
        let ek_sound = crate::curve::big_greater(&ek_get_n(ek), &zero) && crate::curve::big_greater(
            &ek_get_nn(ek),
            &zero,
        );
        if !ek_sound {
            proof {
                assert(!paillier_wf(
                    context.paillier_key_vec@[context.indices@[peer_slot(
                        context.threshold_index as int,
                        j as int,
                    )] as int],
                ));
            }
            return Err("malformed paillier key");
        }
        let result1 = mta_message_b(&crate::gg18_primitives::sign_keys_gamma(&context.sign_keys), ek, dup(&m_a_vec[j]));
        let result2 = mta_message_b(&crate::gg18_primitives::sign_keys_w(&context.sign_keys), ek, dup(&m_a_vec[j]));
        let (m_b_gamma, beta_gamma) = match result1 {
            Ok(v) => v,
            Err(_) => {
                proof {
                    assert(!mta_a_plain(messages@[j as int].1));
                }
                return Err("mta message B failed");
            },
        };
        let (m_b_w, beta_wi) = match result2 {
            Ok(v) => v,
            Err(_) => {
                proof {
                    assert(!mta_a_plain(messages@[j as int].1));
                }
                return Err("mta message B failed");
            },
        };
        send_vec.push((m_b_gamma, m_b_w));
        beta_vec.push(beta_gamma);
        ni_vec.push(beta_wi);
        j = j + 1;
    }

    proof {
        assert forall|i: int| 0 <= i < messages@.len() implies mta_a_plain(
            #[trigger] messages@[i].1,
        ) by {
            assert(m_a_vec@[i] == messages@[i].1);
            assert(mta_a_plain(m_a_vec@[i]));
        }
    }
    let context2 = GG18SignContext2 {
        indices: context.indices,
        threshold_index: context.threshold_index,
        message_hash: context.message_hash,
        threshold: context.threshold,
        party_id: context.party_id,
        party_keys: context.party_keys,
        vss_scheme_vec: context.vss_scheme_vec,
        y_sum: context.y_sum,
        sign_keys: context.sign_keys,
        xi_com_vec: context.xi_com_vec,
        decommit: context.decommit,
        bc1_vec,
        beta_vec,
        ni_vec,
    };
    Ok((send_vec, context2))
}

/// Round 3: verify both MtA responses of every peer, recovering the
/// additive cross terms, check each peer's proved point against the
/// rescaled commitment to its key share, and derive this party's delta
/// share k_i*gamma_i plus all cross terms and sigma share k_i*w_i plus
/// all cross terms.
pub fn gg18_sign3(messages: Vec<GG18SignMsg2>, context: GG18SignContext2) -> (r: Result<
    (GG18SignMsg3, GG18SignContext3),
    &'static str,
>)
    ensures
        r is Ok ==> {
            let ctx = r->Ok_0.1;
            &&& (forall|j: int|
                #![trigger messages@[j]]
                0 <= j < messages@.len() ==> mta_b_ok(
                    messages@[j].0,
                    context.party_keys,
                    context.sign_keys,
                ) && mta_b_ok(messages@[j].1, context.party_keys, context.sign_keys))
            &&& (forall|j: int|
                #![trigger messages@[j]]
                0 <= j < messages@.len() ==> msgb_b_pk(messages@[j].1) == {
                    let slot = peer_slot(context.threshold_index as int, j);
                    let key_index = context.indices@[slot];
                    xi_updated(
                        context.xi_com_vec@[key_index as int],
                        context.vss_scheme_vec@[key_index as int],
                        key_index,
                        context.indices@,
                    )
                })
            &&& r->Ok_0.0 == ctx.delta_i
            &&& messages@.len() == 0 ==> ctx.delta_i == sc_mul(
                signkeys_k(context.sign_keys),
                signkeys_gamma(context.sign_keys),
            ) && ctx.sigma == sc_mul(signkeys_k(context.sign_keys), signkeys_w(context.sign_keys))
            &&& messages@.len() > 0 ==> ctx.delta_i == sc_add(
                sc_mul(signkeys_k(context.sign_keys), signkeys_gamma(context.sign_keys)),
                sum_scs(
                    messages@.map_values(
                        |m: GG18SignMsg2| mta_alpha(m.0, context.party_keys, context.sign_keys),
                    ) + context.beta_vec@,
                ),
            )
            &&& messages@.len() > 0 ==> ctx.sigma == sc_add(
                sc_mul(signkeys_k(context.sign_keys), signkeys_w(context.sign_keys)),
                sum_scs(
                    messages@.map_values(
                        |m: GG18SignMsg2| mta_alpha(m.1, context.party_keys, context.sign_keys),
                    ) + context.ni_vec@,
                ),
            )
            &&& ctx.m_b_gamma_rec_vec@ == messages@.map_values(|m: GG18SignMsg2| m.0)
            &&& ctx.indices == context.indices
            &&& ctx.threshold_index == context.threshold_index
            &&& ctx.message_hash == context.message_hash
            &&& ctx.threshold == context.threshold
            &&& ctx.party_id == context.party_id
            &&& ctx.y_sum == context.y_sum
            &&& ctx.sign_keys == context.sign_keys
            &&& ctx.decommit == context.decommit
            &&& ctx.bc1_vec == context.bc1_vec
        },
        r is Err ==> !{
            &&& peers_shape_ok(
                context.indices@,
                context.threshold_index as int,
                context.threshold,
                messages@.len() as int,
            )
            &&& context.beta_vec@.len() == messages@.len()
            &&& context.ni_vec@.len() == messages@.len()
            &&& (forall|j: int|
                #![trigger context.indices@[j]]
                0 <= j < context.indices@.len() ==> (context.indices@[j] as int)
                    < context.xi_com_vec@.len() && (context.indices@[j] as int)
                    < context.vss_scheme_vec@.len())
            &&& indices_distinct(context.indices@)
            &&& (forall|j: int|
                #![trigger messages@[j]]
                0 <= j < messages@.len() ==> mta_b_ok(
                    messages@[j].0,
                    context.party_keys,
                    context.sign_keys,
                ) && mta_b_ok(messages@[j].1, context.party_keys, context.sign_keys))
            &&& (forall|j: int|
                #![trigger messages@[j]]
                0 <= j < messages@.len() ==> msgb_b_pk(messages@[j].1) == {
                    let slot = peer_slot(context.threshold_index as int, j);
                    let key_index = context.indices@[slot];
                    xi_updated(
                        context.xi_com_vec@[key_index as int],
                        context.vss_scheme_vec@[key_index as int],
                        key_index,
                        context.indices@,
                    )
                })
        },
{
    if context.threshold < 1 || messages.len() != context.threshold as usize - 1
        || context.indices.len() != context.threshold as usize || context.threshold_index
        >= context.indices.len() || context.beta_vec.len() != messages.len()
        || context.ni_vec.len() != messages.len() {
        return Err("wrong number of messages");
    }
    let mut k: usize = 0;
    while k < context.indices.len()
        invariant
            k <= context.indices@.len(),
            forall|j: int|
                0 <= j < k ==> (context.indices@[j] as int) < context.xi_com_vec@.len() && (
                context.indices@[j] as int) < context.vss_scheme_vec@.len(),
        decreases context.indices@.len() - k,
    {
        if context.indices[k] as usize >= context.xi_com_vec.len() || context.indices[k] as usize
            >= context.vss_scheme_vec.len() {
            proof {
                assert(!((context.indices@[k as int] as int) < context.xi_com_vec@.len() && (
                context.indices@[k as int] as int) < context.vss_scheme_vec@.len()));
            }
            return Err("wrong number of messages");
        }
        k = k + 1;
    }
    if !check_indices_distinct(&context.indices) {
        return Err("wrong number of messages");
    }

    let mut m_b_gamma_rec_vec: Vec<MessageB> = Vec::new();
    let mut m_b_w_rec_vec: Vec<MessageB> = Vec::new();
    let mut k: usize = 0;
    while k < messages.len()
        invariant
            k <= messages@.len(),
            m_b_gamma_rec_vec@.len() == k,
            m_b_w_rec_vec@.len() == k,
            forall|j: int|
                #![trigger messages@[j]]
                0 <= j < k ==> m_b_gamma_rec_vec@[j] == messages@[j].0 && m_b_w_rec_vec@[j]
                    == messages@[j].1,
        decreases messages@.len() - k,
    {
        let (part_g, part_w) = dup(&messages[k]);
        m_b_gamma_rec_vec.push(part_g);
        m_b_w_rec_vec.push(part_w);
        k = k + 1;
    }
    proof {
        assert(m_b_gamma_rec_vec@ =~= messages@.map_values(|m: GG18SignMsg2| m.0));
    }

    let mut alpha_vec: Vec<Sc> = Vec::new();
    let mut miu_vec: Vec<Sc> = Vec::new();
    let mut j: usize = 0;
    while j < messages.len()
        invariant
            j <= messages@.len(),
            m_b_gamma_rec_vec@.len() == messages@.len(),
            m_b_w_rec_vec@.len() == messages@.len(),
            context.threshold_index < context.indices@.len(),
            messages@.len() + 1 == context.indices@.len(),
            indices_distinct(context.indices@),
            forall|i: int|
                0 <= i < context.indices@.len() ==> (context.indices@[i] as int)
                    < context.xi_com_vec@.len() && (context.indices@[i] as int)
                    < context.vss_scheme_vec@.len(),
            forall|i: int|
                #![trigger messages@[i]]
                0 <= i < messages@.len() ==> m_b_gamma_rec_vec@[i] == messages@[i].0
                    && m_b_w_rec_vec@[i] == messages@[i].1,
            alpha_vec@.len() == j,
            miu_vec@.len() == j,
            forall|i: int|
                #![trigger messages@[i]]
                0 <= i < j ==> mta_b_ok(
                    messages@[i].0,
                    context.party_keys,
                    context.sign_keys,
                ) && mta_b_ok(messages@[i].1, context.party_keys, context.sign_keys),
            forall|i: int|
                #![trigger messages@[i]]
                0 <= i < j ==> alpha_vec@[i] == mta_alpha(
                    messages@[i].0,
                    context.party_keys,
                    context.sign_keys,
                ) && miu_vec@[i] == mta_alpha(messages@[i].1, context.party_keys, context.sign_keys),
            forall|i: int|
                #![trigger messages@[i]]
                0 <= i < j ==> msgb_b_pk(messages@[i].1) == {
                    let slot = peer_slot(context.threshold_index as int, i);
                    let key_index = context.indices@[slot];
                    xi_updated(
                        context.xi_com_vec@[key_index as int],
                        context.vss_scheme_vec@[key_index as int],
                        key_index,
                        context.indices@,
                    )
                },
        decreases messages@.len() - j,
    {
        let alpha = match mta_verify_get_alpha(
            &m_b_gamma_rec_vec[j],
            &context.party_keys,
            &context.sign_keys,
        ) {
            Ok(v) => v,
            Err(_) => {
                proof {
                    assert(!mta_b_ok(messages@[j as int].0, context.party_keys, context.sign_keys));
                }
                return Err("wrong dlog or m_b");
            },
        };
        let miu = match mta_verify_get_alpha(
            &m_b_w_rec_vec[j],
            &context.party_keys,
            &context.sign_keys,
        ) {
            Ok(v) => v,
            Err(_) => {
                proof {
                    assert(!mta_b_ok(messages@[j as int].1, context.party_keys, context.sign_keys));
                }
                return Err("wrong dlog or m_b");
            },
        };
        alpha_vec.push(alpha);
        miu_vec.push(miu);

        let slot = if j < context.threshold_index {
            j
        } else {
            j + 1
        };
        let key_index = context.indices[slot];
        proof {
            assert(context.indices@.contains(context.indices@[slot as int]));
        }
        let g_w_i = keys_update_commitment_to_xi(
            &context.xi_com_vec[key_index as usize],
            &context.vss_scheme_vec[key_index as usize],
            key_index,
            &context.indices,
        );
        if !crate::curve::point_eq(&msgb_get_b_pk(&m_b_w_rec_vec[j]), &g_w_i) {
            proof {
                assert(msgb_b_pk(messages@[j as int].1) != {
                    let slot = peer_slot(context.threshold_index as int, j as int);
                    let key_index = context.indices@[slot];
                    xi_updated(
                        context.xi_com_vec@[key_index as int],
                        context.vss_scheme_vec@[key_index as int],
                        key_index,
                        context.indices@,
                    )
                });
            }
            return Err("mta b proof mismatch");
        }
        j = j + 1;
    }

    proof {
        assert(alpha_vec@ =~= messages@.map_values(
            |m: GG18SignMsg2| mta_alpha(m.0, context.party_keys, context.sign_keys),
        ));
        assert(miu_vec@ =~= messages@.map_values(
            |m: GG18SignMsg2| mta_alpha(m.1, context.party_keys, context.sign_keys),
        ));
    }
    let delta_i = sign_keys_phase2_delta_i(&context.sign_keys, &alpha_vec, &context.beta_vec);
    let sigma = sign_keys_phase2_sigma_i(&context.sign_keys, &miu_vec, &context.ni_vec);

    let msg = delta_i.clone();
    let context3 = GG18SignContext3 {
        indices: context.indices,
        threshold_index: context.threshold_index,
        message_hash: context.message_hash,
        threshold: context.threshold,
        party_id: context.party_id,
        y_sum: context.y_sum,
        sign_keys: context.sign_keys,
        decommit: context.decommit,
        bc1_vec: context.bc1_vec,
        m_b_gamma_rec_vec,
        delta_i,
        sigma,
    };
    Ok((msg, context3))
}

/// Round 4: collect the delta shares, reinsert our own, and reconstruct
/// the inverse of their sum. A zero sum is a terminal error rather than
/// a crash, and broadcastable only by misbehaving peers.
pub fn gg18_sign4(messages: Vec<GG18SignMsg3>, context: GG18SignContext3) -> (r: Result<
    (GG18SignMsg4, GG18SignContext4),
    &'static str,
>)
    ensures
        r is Ok <==> peers_shape_ok(
            context.indices@,
            context.threshold_index as int,
            context.threshold,
            messages@.len() as int,
        ) && !scalar_is_zero(
            sum_scs(messages@.insert(context.threshold_index as int, context.delta_i)),
        ),
        r is Ok ==> {
            let ctx = r->Ok_0.1;
            &&& ctx.delta_inv == sc_inv(
                sum_scs(messages@.insert(context.threshold_index as int, context.delta_i)),
            )
            &&& r->Ok_0.0 == context.decommit
            &&& ctx.decommit == context.decommit
            &&& ctx.indices == context.indices
            &&& ctx.threshold_index == context.threshold_index
            &&& ctx.message_hash == context.message_hash
            &&& ctx.threshold == context.threshold
            &&& ctx.party_id == context.party_id
            &&& ctx.y_sum == context.y_sum
            &&& ctx.sign_keys == context.sign_keys
            &&& ctx.bc1_vec == context.bc1_vec
            &&& ctx.m_b_gamma_rec_vec == context.m_b_gamma_rec_vec
            &&& ctx.sigma == context.sigma
        },
{
    if context.threshold < 1 || messages.len() != context.threshold as usize - 1
        || context.indices.len() != context.threshold as usize || context.threshold_index
        >= context.indices.len() {
        return Err("wrong number of messages");
    }
    let mut delta_vec = messages;
    delta_vec.insert(context.threshold_index, context.delta_i.clone());

    let delta_sum = crate::curve::sum_scalars(&delta_vec);
    let delta_inv = match crate::curve::scalar_invert(&delta_sum) {
        Some(v) => v,
        None => {
            return Err("sum of deltas is zero");
        },
    };

    let msg = dup(&context.decommit);
    let context4 = GG18SignContext4 {
        indices: context.indices,
        threshold_index: context.threshold_index,
        message_hash: context.message_hash,
        threshold: context.threshold,
        party_id: context.party_id,
        y_sum: context.y_sum,
        sign_keys: context.sign_keys,
        decommit: context.decommit,
        bc1_vec: context.bc1_vec,
        m_b_gamma_rec_vec: context.m_b_gamma_rec_vec,
        sigma: context.sigma,
        delta_inv,
    };
    Ok((msg, context4))
}

/// Round 5: open the round-1 nonce commitments. Every peer's revealed
/// point is checked against its commitment and against the point it
/// proved in the MtA exchange; the aggregate nonce point R then
/// combines all revealed points scaled by the reconstructed inverse,
/// and the local signature state is assembled over it.
pub fn gg18_sign5(messages: Vec<GG18SignMsg4>, context: GG18SignContext4) -> (r: Result<
    (GG18SignMsg5, GG18SignContext5),
    &'static str,
>)
    ensures
        r is Ok <==> {
            let r_point = if messages@.len() > 0 {
                pt_add(
                    pt_mul(
                        sum_pts(
                            messages@.map_values(|d: SignDecommitPhase1| sign_decom_gamma(d)),
                        ),
                        context.delta_inv,
                    ),
                    pt_mul(sign_decom_gamma(context.decommit), context.delta_inv),
                )
            } else {
                pt_mul(sign_decom_gamma(context.decommit), context.delta_inv)
            };
            &&& peers_shape_ok(
                context.indices@,
                context.threshold_index as int,
                context.threshold,
                messages@.len() as int,
            )
            &&& context.bc1_vec@.len() == context.threshold
            &&& context.m_b_gamma_rec_vec@.len() == messages@.len()
            &&& phase4_ok(context.m_b_gamma_rec_vec@, messages@, context.bc1_vec@.remove(
                context.threshold_index as int,
            ))
            &&& pt_has_x(r_point)
        },
        r is Ok ==> {
            let ctx = r->Ok_0.1;
            let r_point = if messages@.len() > 0 {
                pt_add(
                    pt_mul(
                        sum_pts(
                            messages@.map_values(|d: SignDecommitPhase1| sign_decom_gamma(d)),
                        ),
                        context.delta_inv,
                    ),
                    pt_mul(sign_decom_gamma(context.decommit), context.delta_inv),
                )
            } else {
                pt_mul(sign_decom_gamma(context.decommit), context.delta_inv)
            };
            &&& phase4_ok(context.m_b_gamma_rec_vec@, messages@, context.bc1_vec@.remove(
                context.threshold_index as int,
            ))
            &&& messages@.len() > 0 ==> ctx.r == r_point
            &&& localsig_r_point(ctx.local_sig) == ctx.r
            &&& localsig_m(ctx.local_sig) == crate::curve::big_of_bytes(context.message_hash@)
            &&& localsig_y(ctx.local_sig) == context.y_sum
            &&& pt_has_x(ctx.r)
            &&& r->Ok_0.0 == ctx.phase5_com
            &&& ctx.indices == context.indices
            &&& ctx.threshold_index == context.threshold_index
            &&& ctx.threshold == context.threshold
            &&& ctx.party_id == context.party_id
        },
{
    if context.threshold < 1 || messages.len() != context.threshold as usize - 1
        || context.indices.len() != context.threshold as usize || context.threshold_index
        >= context.indices.len() || context.bc1_vec.len() != context.threshold as usize
        || context.m_b_gamma_rec_vec.len() != messages.len() {
        return Err("wrong number of messages");
    }
    let mut bc1_vec = context.bc1_vec;
    let decommit_vec = messages;
    let decomm_i = &context.decommit;
    bc1_vec.remove(context.threshold_index);

    let r_part = match sign_keys_phase4(
        &context.delta_inv,
        &context.m_b_gamma_rec_vec,
        &decommit_vec,
        &bc1_vec,
    ) {
        Ok(v) => v,
        Err(_) => {
            return Err("bad gamma_i decommit");
        },
    };
    let own_part = crate::curve::point_mul(&sign_decom_get_gamma(decomm_i), &context.delta_inv);
    let r_point = if decommit_vec.len() > 0 {
        crate::curve::point_add(&r_part, &own_part)
    } else {
        own_part
    };

    if !crate::curve::point_has_x_exec(&r_point) {
        return Err("nonce point has no x coordinate");
    }

    let message_bn = crate::curve::big_from_bytes(context.message_hash.as_slice());
    let local_sig = local_sig_phase5(
        &context.sign_keys,
        &message_bn,
        &r_point,
        &context.sigma,
        &context.y_sum,
    );

    let parts = local_sig_phase5a(&local_sig);
    let (phase5_com, phase_5a_decom, helgamal_proof, dlog_proof_rho) = parts;

    let msg = dup(&phase5_com);
    let context5 = GG18SignContext5 {
        indices: context.indices,
        threshold_index: context.threshold_index,
        threshold: context.threshold,
        party_id: context.party_id,
        local_sig,
        phase5_com,
        phase_5a_decom,
        helgamal_proof,
        dlog_proof_rho,
        r: r_point,
    };
    Ok((msg, context5))
}

/// Round 6: collect the phase-5 commitments, reinsert our own, and
/// reveal our phase-5 decommitment together with its two proofs.
pub fn gg18_sign6(messages: Vec<GG18SignMsg5>, context: GG18SignContext5) -> (r: Result<
    (GG18SignMsg6, GG18SignContext6),
    &'static str,
>)
    ensures
        r is Ok <==> peers_shape_ok(
            context.indices@,
            context.threshold_index as int,
            context.threshold,
            messages@.len() as int,
        ),
        r is Ok ==> {
            let ctx = r->Ok_0.1;
            &&& ctx.commit5a_vec@ == messages@.insert(
                context.threshold_index as int,
                context.phase5_com,
            )
            &&& r->Ok_0.0.0 == context.phase_5a_decom
            &&& r->Ok_0.0.1 == context.helgamal_proof
            &&& r->Ok_0.0.2 == context.dlog_proof_rho
            &&& ctx.phase_5a_decom == context.phase_5a_decom
            &&& ctx.helgamal_proof == context.helgamal_proof
            &&& ctx.dlog_proof_rho == context.dlog_proof_rho
            &&& ctx.local_sig == context.local_sig
            &&& ctx.r == context.r
            &&& ctx.indices == context.indices
            &&& ctx.threshold_index == context.threshold_index
            &&& ctx.threshold == context.threshold
            &&& ctx.party_id == context.party_id
        },
{
    if context.threshold < 1 || messages.len() != context.threshold as usize - 1
        || context.indices.len() != context.threshold as usize || context.threshold_index
        >= context.indices.len() {
        return Err("wrong number of messages");
    }
    let mut commit5a_vec = messages;
    commit5a_vec.insert(context.threshold_index, dup(&context.phase5_com));

    let msg = (
        dup(&context.phase_5a_decom),
        context.helgamal_proof.clone(),
        context.dlog_proof_rho.clone(),
    );
    let context6 = GG18SignContext6 {
        indices: context.indices,
        threshold_index: context.threshold_index,
        threshold: context.threshold,
        party_id: context.party_id,
        local_sig: context.local_sig,
        phase_5a_decom: context.phase_5a_decom,
        helgamal_proof: context.helgamal_proof,
        dlog_proof_rho: context.dlog_proof_rho,
        r: context.r,
        commit5a_vec,
    };
    Ok((msg, context6))
}

/// Round 7: open the phase-5 commitments: every peer's decommitment is
/// checked against its commitment together with its homomorphic-ElGamal
/// and discrete-log proofs, and the second-layer commitment is produced.
pub fn gg18_sign7(messages: Vec<GG18SignMsg6>, context: GG18SignContext6) -> (r: Result<
    (GG18SignMsg7, GG18SignContext7),
    &'static str,
>)
    ensures
        r is Ok ==> {
            let ctx = r->Ok_0.1;
            &&& phase5c_ok(
                context.local_sig,
                messages@.map_values(|m: GG18SignMsg6| m.0),
                context.commit5a_vec@.remove(context.threshold_index as int),
                messages@.map_values(|m: GG18SignMsg6| m.1),
                messages@.map_values(|m: GG18SignMsg6| m.2),
                context.r,
            )
            &&& pt_has_x(localsig_r_point(context.local_sig))
            &&& ctx.decommit5a_and_elgamal_and_dlog_vec_includes_i@ == messages@.insert(
                context.threshold_index as int,
                (context.phase_5a_decom, context.helgamal_proof, context.dlog_proof_rho),
            )
            &&& ctx.phase_5a_decomm_vec@ == messages@.map_values(|m: GG18SignMsg6| m.0)
            &&& r->Ok_0.0 == ctx.phase5_com2
            &&& ctx.local_sig == context.local_sig
            &&& ctx.phase_5a_decom == context.phase_5a_decom
            &&& ctx.indices == context.indices
            &&& ctx.threshold_index == context.threshold_index
            &&& ctx.threshold == context.threshold
            &&& ctx.party_id == context.party_id
        },
        r is Err ==> !{
            &&& peers_shape_ok(
                context.indices@,
                context.threshold_index as int,
                context.threshold,
                messages@.len() as int,
            )
            &&& context.commit5a_vec@.len() == context.threshold
            &&& phase5c_ok(
                context.local_sig,
                messages@.map_values(|m: GG18SignMsg6| m.0),
                context.commit5a_vec@.remove(context.threshold_index as int),
                messages@.map_values(|m: GG18SignMsg6| m.1),
                messages@.map_values(|m: GG18SignMsg6| m.2),
                context.r,
            )
            &&& pt_has_x(localsig_r_point(context.local_sig))
        },
{
    if context.threshold < 1 || messages.len() != context.threshold as usize - 1
        || context.indices.len() != context.threshold as usize || context.threshold_index
        >= context.indices.len() || context.commit5a_vec.len() != context.threshold as usize {
        return Err("wrong number of messages");
    }
    let mut commit5a_vec = context.commit5a_vec;
    commit5a_vec.remove(context.threshold_index);

    let mut decom_vec: Vec<Phase5ADecom1> = Vec::new();
    let mut heg_vec: Vec<HegPf> = Vec::new();
    let mut dlog_vec: Vec<DlogPf> = Vec::new();
    let mut includes_i: Vec<GG18SignMsg6> = Vec::new();
    let mut k: usize = 0;
    while k < messages.len()
        invariant
            k <= messages@.len(),
            decom_vec@.len() == k,
            heg_vec@.len() == k,
            dlog_vec@.len() == k,
            includes_i@.len() == k,
            forall|j: int|
                #![trigger messages@[j]]
                0 <= j < k ==> decom_vec@[j] == messages@[j].0 && heg_vec@[j] == messages@[j].1
                    && dlog_vec@[j] == messages@[j].2 && includes_i@[j] == messages@[j],
        decreases messages@.len() - k,
    {
        let (part_d, part_h, part_p) = dup(&messages[k]);
        includes_i.push(dup(&messages[k]));
        decom_vec.push(part_d);
        heg_vec.push(part_h);
        dlog_vec.push(part_p);
        k = k + 1;
    }
    proof {
        assert(decom_vec@ =~= messages@.map_values(|m: GG18SignMsg6| m.0));
        assert(heg_vec@ =~= messages@.map_values(|m: GG18SignMsg6| m.1));
        assert(dlog_vec@ =~= messages@.map_values(|m: GG18SignMsg6| m.2));
        assert(includes_i@ =~= messages@);
    }
    let mut decommit5a_and_elgamal_and_dlog_vec_includes_i = includes_i;
    decommit5a_and_elgamal_and_dlog_vec_includes_i.insert(
        context.threshold_index,
        (
            dup(&context.phase_5a_decom),
            context.helgamal_proof.clone(),
            context.dlog_proof_rho.clone(),
        ),
    );

    let v_i = p5a_get_v(&context.phase_5a_decom);
    let second = match local_sig_phase5c(
        &context.local_sig,
        &decom_vec,
        &commit5a_vec,
        &heg_vec,
        &dlog_vec,
        &v_i,
        &context.r,
    ) {
        Ok(v) => v,
        Err(_) => {
            return Err("error phase5");
        },
    };
    let (phase5_com2, phase_5d_decom2) = second;

    let msg = dup(&phase5_com2);
    let context7 = GG18SignContext7 {
        indices: context.indices,
        threshold_index: context.threshold_index,
        threshold: context.threshold,
        party_id: context.party_id,
        local_sig: context.local_sig,
        phase_5a_decom: context.phase_5a_decom,
        decommit5a_and_elgamal_and_dlog_vec_includes_i,
        phase_5a_decomm_vec: decom_vec,
        phase5_com2,
        phase_5d_decom2,
    };
    Ok((msg, context7))
}

/// Round 8: collect the second-layer commitments, reinsert our own, and
/// reveal our second-layer decommitment.
pub fn gg18_sign8(messages: Vec<GG18SignMsg7>, context: GG18SignContext7) -> (r: Result<
    (GG18SignMsg8, GG18SignContext8),
    &'static str,
>)
    ensures
        r is Ok <==> peers_shape_ok(
            context.indices@,
            context.threshold_index as int,
            context.threshold,
            messages@.len() as int,
        ),
        r is Ok ==> {
            let ctx = r->Ok_0.1;
            &&& ctx.commit5c_vec@ == messages@.insert(
                context.threshold_index as int,
                context.phase5_com2,
            )
            &&& r->Ok_0.0 == context.phase_5d_decom2
            &&& ctx.phase_5d_decom2 == context.phase_5d_decom2
            &&& ctx.local_sig == context.local_sig
            &&& ctx.decommit5a_and_elgamal_and_dlog_vec_includes_i
                == context.decommit5a_and_elgamal_and_dlog_vec_includes_i
            &&& ctx.phase_5a_decomm_vec == context.phase_5a_decomm_vec
            &&& ctx.phase_5a_decom == context.phase_5a_decom
            &&& ctx.indices == context.indices
            &&& ctx.threshold_index == context.threshold_index
            &&& ctx.threshold == context.threshold
            &&& ctx.party_id == context.party_id
        },
{
    if context.threshold < 1 || messages.len() != context.threshold as usize - 1
        || context.indices.len() != context.threshold as usize || context.threshold_index
        >= context.indices.len() {
        return Err("wrong number of messages");
    }
    let mut commit5c_vec = messages;
    commit5c_vec.insert(context.threshold_index, dup(&context.phase5_com2));

    let msg = dup(&context.phase_5d_decom2);
    let context8 = GG18SignContext8 {
        indices: context.indices,
        threshold_index: context.threshold_index,
        threshold: context.threshold,
        party_id: context.party_id,
        local_sig: context.local_sig,
        phase_5a_decom: context.phase_5a_decom,
        decommit5a_and_elgamal_and_dlog_vec_includes_i: context
            .decommit5a_and_elgamal_and_dlog_vec_includes_i,
        phase_5a_decomm_vec: context.phase_5a_decomm_vec,
        phase_5d_decom2: context.phase_5d_decom2,
        commit5c_vec,
    };
    Ok((msg, context8))
}

/// Round 9: open the second-layer commitments; every decommitment is
/// checked against its commitment and the aggregated consistency
/// equation before this party's partial signature scalar is released.
pub fn gg18_sign9(messages: Vec<GG18SignMsg8>, context: GG18SignContext8) -> (r: Result<
    (GG18SignMsg9, GG18SignContext9),
    &'static str,
>)
    ensures
        r is Ok ==> {
            let merged = messages@.insert(context.threshold_index as int, context.phase_5d_decom2);
            &&& phase5d_ok(
                context.local_sig,
                merged,
                context.commit5c_vec@,
                context.decommit5a_and_elgamal_and_dlog_vec_includes_i@.map_values(
                    |m: GG18SignMsg6| m.0,
                ),
            )
            &&& r->Ok_0.0 == localsig_s(context.local_sig)
            &&& r->Ok_0.1.local_sig == context.local_sig
            &&& r->Ok_0.1.threshold == context.threshold
        },
        r is Err ==> !{
            &&& context.threshold >= 1
            &&& messages@.len() + 1 == context.threshold
            &&& context.threshold_index < context.threshold
            &&& context.commit5c_vec@.len() == context.threshold
            &&& context.decommit5a_and_elgamal_and_dlog_vec_includes_i@.len() == context.threshold
            &&& phase5d_ok(
                context.local_sig,
                messages@.insert(context.threshold_index as int, context.phase_5d_decom2),
                context.commit5c_vec@,
                context.decommit5a_and_elgamal_and_dlog_vec_includes_i@.map_values(
                    |m: GG18SignMsg6| m.0,
                ),
            )
        },
{
    if context.threshold < 1 || messages.len() != context.threshold as usize - 1
        || context.threshold_index >= context.threshold as usize || context.commit5c_vec.len()
        != context.threshold as usize
        || context.decommit5a_and_elgamal_and_dlog_vec_includes_i.len() != context.threshold
        as usize {
        return Err("wrong number of messages");
    }
    let mut decommit5d_vec = messages;
    decommit5d_vec.insert(context.threshold_index, dup(&context.phase_5d_decom2));

    let mut phase_5a_decomm_vec_includes_i: Vec<Phase5ADecom1> = Vec::new();
    let mut k: usize = 0;
    while k < context.decommit5a_and_elgamal_and_dlog_vec_includes_i.len()
        invariant
            k <= context.decommit5a_and_elgamal_and_dlog_vec_includes_i@.len(),
            phase_5a_decomm_vec_includes_i@.len() == k,
            forall|j: int|
                #![trigger context.decommit5a_and_elgamal_and_dlog_vec_includes_i@[j]]
                0 <= j < k ==> phase_5a_decomm_vec_includes_i@[j]
                    == context.decommit5a_and_elgamal_and_dlog_vec_includes_i@[j].0,
        decreases context.decommit5a_and_elgamal_and_dlog_vec_includes_i@.len() - k,
    {
        let (part_d, part_h, part_p) = dup(&context.decommit5a_and_elgamal_and_dlog_vec_includes_i[k]);
        phase_5a_decomm_vec_includes_i.push(part_d);
        k = k + 1;
    }
    proof {
        assert(phase_5a_decomm_vec_includes_i@
            =~= context.decommit5a_and_elgamal_and_dlog_vec_includes_i@.map_values(
            |m: GG18SignMsg6| m.0,
        ));
    }

    let s_i = match local_sig_phase5d(
        &context.local_sig,
        &decommit5d_vec,
        &context.commit5c_vec,
        &phase_5a_decomm_vec_includes_i,
    ) {
        Ok(v) => v,
        Err(_) => {
            return Err("bad com 5d");
        },
    };

    let context9 = GG18SignContext9 { threshold: context.threshold, local_sig: context.local_sig };
    Ok((s_i, context9))
}

/// Terminal step: combine all partial signature scalars into the full
/// signature, verify it against the aggregate public key and message,
/// and return the two 32-byte big-endian components concatenated. An
/// invalid combination is a terminal error; no unverified signature is
/// ever returned.
pub fn gg18_sign10(messages: Vec<GG18SignMsg9>, context: GG18SignContext9) -> (r: Result<
    Vec<u8>,
    &'static str,
>)
    ensures
        r is Ok <==> context.threshold >= 1 && messages@.len() + 1 == context.threshold
            && crate::gg18_primitives::output_sig_ok(context.local_sig, messages@),
        r is Ok ==> r->Ok_0@.len() == 64,
        r is Ok ==> exists|rs: Sc, ss: Sc|
            #[trigger] crate::gg18_primitives::ecdsa_sig_ok(
                rs,
                ss,
                localsig_y(context.local_sig),
                localsig_m(context.local_sig),
            ) && r->Ok_0@ == crate::curve::sc_bytes(rs) + crate::curve::sc_bytes(ss),
{
    if context.threshold < 1 || messages.len() != context.threshold as usize - 1 {
        return Err("wrong number of messages");
    }
    let sig = match local_sig_output(&context.local_sig, &messages) {
        Ok(v) => v,
        Err(_) => {
            return Err("verification failed");
        },
    };
    let r_scalar = sigrec_get_r(&sig);
    let s_scalar = sigrec_get_s(&sig);
    let mut out = crate::curve::scalar_to_bytes(&r_scalar);
    let mut s_bytes = crate::curve::scalar_to_bytes(&s_scalar);
    out.append(&mut s_bytes);
    proof {
        assert(crate::gg18_primitives::ecdsa_sig_ok(
            sigrec_r(sig),
            sigrec_s(sig),
            localsig_y(context.local_sig),
            localsig_m(context.local_sig),
        ) && out@ == crate::curve::sc_bytes(sigrec_r(sig)) + crate::curve::sc_bytes(
            sigrec_s(sig),
        ));
    }
    Ok(out)
}

} // verus!
