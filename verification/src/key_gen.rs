//! Distributed key generation for the general threshold scheme: n
//! parties, threshold t with 1 <= t <= n.
//!
//! Each round takes the inbound peer messages, pre-ordered to match the
//! agreed party list with the caller's own entry missing, and the
//! current context; it reinserts the caller's own value at its index
//! before any positional processing. A malformed message vector or a
//! failed verification is a terminal error, never a panic.
use vstd::prelude::*;

use crate::curve::{sum_pts, DlogPf, Pt, Sc, Vss};
use crate::gg18_primitives::{
    bc_com, bc_get_key, bc_get_sigma_count, bc_key, bc_proof_sigma_count, decom_blind,
    decom_get_point, decom_point, dup, ek_get_n, ek_n, keygen_coms_ok, keygen_shares_ok,
    keys_create, keys_phase1_broadcast, keys_phase1_verify_distribute, keys_phase2_verify_vss,
    keys_point, keys_verify_dlog_proofs, shared_y, GgKeys,
};
use multi_party_ecdsa::protocols::multi_party_ecdsa::gg_2018::party_i::{
    KeyGenBroadcastMessage1, KeyGenDecommitMessage1, SharedKeys,
};

verus! {

use crate::curve::dlog_ok;

pub type KeyGenMsg1 = KeyGenBroadcastMessage1;

pub type KeyGenMsg2 = KeyGenDecommitMessage1;

pub type KeyGenMsg3 = Sc;

pub type KeyGenMsg4 = Vss;

pub type KeyGenMsg5 = DlogPf;

pub struct KeyGenContext1 {
    pub threshold: u16,
    pub parties: u16,
    pub index: u16,
    pub party_keys: GgKeys,
    pub bc_i: KeyGenBroadcastMessage1,
    pub decom_i: KeyGenDecommitMessage1,
}

pub struct KeyGenContext2 {
    pub threshold: u16,
    pub parties: u16,
    pub index: u16,
    pub party_keys: GgKeys,
    pub bc1_vec: Vec<KeyGenBroadcastMessage1>,
    pub decom_i: KeyGenDecommitMessage1,
}

pub struct KeyGenContext3 {
    pub threshold: u16,
    pub parties: u16,
    pub index: u16,
    pub party_keys: GgKeys,
    pub bc1_vec: Vec<KeyGenBroadcastMessage1>,
    pub vss_scheme: Vss,
    pub secret_shares: Vec<Sc>,
    pub y_sum: Pt,
    pub point_vec: Vec<Pt>,
}

pub struct KeyGenContext4 {
    pub threshold: u16,
    pub parties: u16,
    pub index: u16,
    pub party_keys: GgKeys,
    pub bc1_vec: Vec<KeyGenBroadcastMessage1>,
    pub vss_scheme: Vss,
    pub y_sum: Pt,
    pub point_vec: Vec<Pt>,
    pub party_shares: Vec<Sc>,
}

pub struct KeyGenContext5 {
    pub threshold: u16,
    pub parties: u16,
    pub index: u16,
    pub party_keys: GgKeys,
    pub bc1_vec: Vec<KeyGenBroadcastMessage1>,
    pub vss_scheme_vec: Vec<Vss>,
    pub y_sum: Pt,
    pub point_vec: Vec<Pt>,
    pub shared_keys: SharedKeys,
    pub dlog_proof: DlogPf,
}

/// The terminal key-generation artifact: everything a signing or
/// refresh session starts from.
pub struct SignContext {
    pub threshold: u16,
    pub index: u16,
    pub party_keys: GgKeys,
    pub vss_scheme_vec: Vec<Vss>,
    pub shared_keys: SharedKeys,
    pub paillier_key_vec: Vec<kzen_paillier::EncryptionKey>,
    pub pk: Pt,
}

/// Round 1: sample long-term key material and commit to it: the
/// broadcast carries the hash commitment that the retained decommitment
/// opens to the party's public point. Succeeds exactly for parameters
/// the scheme admits: 1 <= threshold <= parties and an own index below
/// the party count.
pub fn key_gen_1(parties: u16, threshold: u16, index: u16) -> (r: Result<
    (KeyGenMsg1, KeyGenContext1),
    &'static str,
>)
    ensures
        r is Ok <==> 1 <= threshold <= parties && index < parties,
        r is Ok ==> {
            let ctx = r->Ok_0.1;
            &&& ctx.threshold == threshold
            &&& ctx.parties == parties
            &&& ctx.index == index
            &&& r->Ok_0.0 == ctx.bc_i
            &&& decom_point(ctx.decom_i) == keys_point(ctx.party_keys)
            &&& bc_com(ctx.bc_i) == crate::curve::hash_com(
                crate::curve::pt_to_big(decom_point(ctx.decom_i)),
                decom_blind(ctx.decom_i),
            )
        },
{
    if threshold < 1 || threshold > parties || index >= parties {
        return Err("invalid session parameters");
    }
    let party_keys = keys_create(index);
    let (bc_i, decom_i) = keys_phase1_broadcast(&party_keys);
    let msg = dup(&bc_i);
    let context1 = KeyGenContext1 { threshold, parties, index, party_keys, bc_i, decom_i };
    Ok((msg, context1))
}

/// Round 2: collect the peers' commitments, reinsert our own at our
/// index, and reveal our decommitment.
pub fn key_gen_2(messages: Vec<KeyGenMsg1>, context: KeyGenContext1) -> (r: Result<
    (KeyGenMsg2, KeyGenContext2),
    &'static str,
>)
    ensures
        r is Ok <==> messages@.len() + 1 == context.parties && context.index < context.parties,
        r is Ok ==> {
            let ctx = r->Ok_0.1;
            &&& ctx.bc1_vec@ == messages@.insert(context.index as int, context.bc_i)
            &&& r->Ok_0.0 == context.decom_i
            &&& ctx.decom_i == context.decom_i
            &&& ctx.threshold == context.threshold
            &&& ctx.parties == context.parties
            &&& ctx.index == context.index
            &&& ctx.party_keys == context.party_keys
        },
{
    if context.parties == 0 || messages.len() != context.parties as usize - 1
        || context.index >= context.parties {
        return Err("wrong number of messages");
    }
    let mut bc1_vec = messages;
    bc1_vec.insert(context.index as usize, context.bc_i);
    let msg = dup(&context.decom_i);
    let context2 = KeyGenContext2 {
        threshold: context.threshold,
        parties: context.parties,
        index: context.index,
        party_keys: context.party_keys,
        bc1_vec,
        decom_i: context.decom_i,
    };
    Ok((msg, context2))
}

/// The checkable shape of a round-1 broadcast: a correct-key proof with
/// at least the eleven sigma values its verifier reads, over a positive
/// Paillier modulus.
pub open spec fn bc_shape_ok(
    b: multi_party_ecdsa::protocols::multi_party_ecdsa::gg_2018::party_i::KeyGenBroadcastMessage1,
) -> bool {
    &&& bc_proof_sigma_count(b) >= 11
    &&& crate::curve::big_gt_spec(ek_n(bc_key(b)), crate::curve::big_of_u64(0))
}

/// Round 3: verify every commitment against its decommitment and every
/// Paillier correct-key proof, derive the aggregate public key as the
/// sum of all committed points, and secret-share our own summand. The
/// outbound shares must travel over confidential channels; the share
/// destined for peer j sits at position j of the output (our own
/// removed).
pub fn key_gen_3(messages: Vec<KeyGenMsg2>, context: KeyGenContext2) -> (r: Result<
    (Vec<KeyGenMsg3>, KeyGenContext3),
    &'static str,
>)
    ensures
        r is Ok <==> {
            &&& messages@.len() + 1 == context.parties
            &&& context.index < context.parties
            &&& 1 <= context.threshold <= context.parties
            &&& context.bc1_vec@.len() == context.parties
            &&& (forall|i: int| 0 <= i < context.bc1_vec@.len() ==> bc_shape_ok(
                #[trigger] context.bc1_vec@[i],
            ))
            &&& keygen_coms_ok(
                messages@.insert(context.index as int, context.decom_i),
                context.bc1_vec@,
            )
        },
        r is Ok ==> {
            let ctx = r->Ok_0.1;
            &&& ctx.point_vec@ == messages@.insert(context.index as int, context.decom_i)
                .map_values(|d: KeyGenDecommitMessage1| decom_point(d))
            &&& ctx.y_sum == sum_pts(ctx.point_vec@)
            &&& ctx.secret_shares@.len() == context.parties
            &&& r->Ok_0.0@ == ctx.secret_shares@.remove(context.index as int)
            &&& ctx.bc1_vec == context.bc1_vec
            &&& ctx.threshold == context.threshold
            &&& ctx.parties == context.parties
            &&& ctx.index == context.index
            &&& ctx.party_keys == context.party_keys
        },
{
    if context.parties == 0 || messages.len() != context.parties as usize - 1
        || context.index >= context.parties || context.threshold < 1
        || context.threshold > context.parties
        || context.bc1_vec.len() != context.parties as usize {
        return Err("wrong number of messages");
    }
    let zero = crate::curve::big_from_u64(0);
    let mut k: usize = 0;
    while k < context.bc1_vec.len()
        invariant
            k <= context.bc1_vec@.len(),
            zero == crate::curve::big_of_u64(0),
            forall|i: int| 0 <= i < k ==> bc_shape_ok(#[trigger] context.bc1_vec@[i]),
        decreases context.bc1_vec@.len() - k,
    {
        let sound = bc_get_sigma_count(&context.bc1_vec[k]) >= 11 && crate::curve::big_greater(
            &ek_get_n(&bc_get_key(&context.bc1_vec[k])),
            &zero,
        );
        if !sound {
            proof {
                assert(!bc_shape_ok(context.bc1_vec@[k as int]));
            }
            return Err("malformed key broadcast");
        }
        k = k + 1;
    }

    let mut decom_vec = messages;
    decom_vec.insert(context.index as usize, dup(&context.decom_i));

    let mut point_vec: Vec<Pt> = Vec::new();
    let mut k: usize = 0;
    while k < decom_vec.len()
        invariant
            k <= decom_vec@.len(),
            point_vec@.len() == k,
            forall|j: int| 0 <= j < k ==> point_vec@[j] == decom_point(decom_vec@[j]),
        decreases decom_vec@.len() - k,
    {
        point_vec.push(decom_get_point(&decom_vec[k]));
        k = k + 1;
    }
    proof {
        assert(point_vec@ =~= decom_vec@.map_values(|d: KeyGenDecommitMessage1| decom_point(d)));
    }
    let y_sum = crate::curve::sum_points(&point_vec);

    let shared = match keys_phase1_verify_distribute(
        &context.party_keys,
        context.threshold - 1,
        context.parties,
        &decom_vec,
        &context.bc1_vec,
    ) {
        Ok(v) => v,
        Err(_) => {
            return Err("invalid key");
        },
    };
    let (vss_scheme, secret_shares) = shared;

    let mut messages_output: Vec<Sc> = Vec::new();
    let mut k: usize = 0;
    while k < secret_shares.len()
        invariant
            k <= secret_shares@.len(),
            messages_output@ =~= if k <= context.index {
                secret_shares@.subrange(0, k as int)
            } else {
                secret_shares@.subrange(0, k as int).remove(context.index as int)
            },
        decreases secret_shares@.len() - k,
    {
        if k != context.index as usize {
            messages_output.push(secret_shares[k].clone());
        }
        k = k + 1;
    }
    proof {
        assert(secret_shares@.subrange(0, secret_shares@.len() as int) =~= secret_shares@);
        assert(messages_output@ =~= secret_shares@.remove(context.index as int));
    }

    let context3 = KeyGenContext3 {
        threshold: context.threshold,
        parties: context.parties,
        index: context.index,
        party_keys: context.party_keys,
        bc1_vec: context.bc1_vec,
        vss_scheme,
        secret_shares,
        y_sum,
        point_vec,
    };
    Ok((messages_output, context3))
}

/// Round 4: collect the peers' secret shares addressed to us, reinsert
/// our own, and broadcast our commitment vector.
pub fn key_gen_4(messages: Vec<KeyGenMsg3>, context: KeyGenContext3) -> (r: Result<
    (KeyGenMsg4, KeyGenContext4),
    &'static str,
>)
    ensures
        r is Ok <==> {
            &&& messages@.len() + 1 == context.parties
            &&& context.index < context.parties
            &&& context.secret_shares@.len() == context.parties
        },
        r is Ok ==> {
            let ctx = r->Ok_0.1;
            &&& ctx.party_shares@ == messages@.insert(
                context.index as int,
                context.secret_shares@[context.index as int],
            )
            &&& r->Ok_0.0 == ctx.vss_scheme
            &&& ctx.vss_scheme == context.vss_scheme
            &&& ctx.y_sum == context.y_sum
            &&& ctx.point_vec == context.point_vec
            &&& ctx.bc1_vec == context.bc1_vec
            &&& ctx.threshold == context.threshold
            &&& ctx.parties == context.parties
            &&& ctx.index == context.index
            &&& ctx.party_keys == context.party_keys
        },
{
    if context.parties == 0 || messages.len() != context.parties as usize - 1
        || context.index >= context.parties
        || context.secret_shares.len() != context.parties as usize {
        return Err("wrong number of messages");
    }
    let mut party_shares = messages;
    party_shares.insert(context.index as usize, context.secret_shares[context.index as usize].clone());

    let msg = context.vss_scheme.clone();
    let context4 = KeyGenContext4 {
        threshold: context.threshold,
        parties: context.parties,
        index: context.index,
        party_keys: context.party_keys,
        bc1_vec: context.bc1_vec,
        vss_scheme: context.vss_scheme,
        y_sum: context.y_sum,
        point_vec: context.point_vec,
        party_shares,
    };
    Ok((msg, context4))
}

/// Round 5: collect all commitment vectors, verify every received share
/// against them and their heads against the committed points, derive
/// the long-term key share, and broadcast a discrete-log proof of it.
pub fn key_gen_5(messages: Vec<KeyGenMsg4>, context: KeyGenContext4) -> (r: Result<
    (KeyGenMsg5, KeyGenContext5),
    &'static str,
>)
    ensures
        r is Ok ==> {
            let ctx = r->Ok_0.1;
            &&& ctx.vss_scheme_vec@ == messages@.insert(context.index as int, context.vss_scheme)
            &&& keygen_shares_ok(
                context.point_vec@,
                context.party_shares@,
                ctx.vss_scheme_vec@,
                (context.index + 1) as u16,
            )
            &&& shared_y(ctx.shared_keys) == sum_pts(context.point_vec@)
            &&& r->Ok_0.0 == ctx.dlog_proof
            &&& ctx.y_sum == context.y_sum
            &&& ctx.point_vec == context.point_vec
            &&& ctx.bc1_vec == context.bc1_vec
            &&& ctx.threshold == context.threshold
            &&& ctx.parties == context.parties
            &&& ctx.index == context.index
            &&& ctx.party_keys == context.party_keys
        },
        r is Err ==> {
            ||| !{
                &&& messages@.len() + 1 == context.parties
                &&& context.index < context.parties
                &&& 1 <= context.threshold <= context.parties
                &&& context.point_vec@.len() == context.parties
                &&& context.party_shares@.len() == context.parties
            }
            ||| exists|j: int|
                0 <= j < messages@.insert(context.index as int, context.vss_scheme).len()
                    && crate::curve::vss_n_commitments(
                    #[trigger] messages@.insert(context.index as int, context.vss_scheme)[j],
                ) == 0
            ||| !keygen_shares_ok(
                context.point_vec@,
                context.party_shares@,
                messages@.insert(context.index as int, context.vss_scheme),
                (context.index + 1) as u16,
            )
        },
{
    if context.parties == 0 || messages.len() != context.parties as usize - 1
        || context.index >= context.parties || context.threshold < 1
        || context.threshold > context.parties
        || context.point_vec.len() != context.parties as usize
        || context.party_shares.len() != context.parties as usize {
        return Err("wrong number of messages");
    }
    let mut vss_scheme_vec = messages;
    vss_scheme_vec.insert(context.index as usize, context.vss_scheme.clone());

    let mut k: usize = 0;
    while k < vss_scheme_vec.len()
        invariant
            k <= vss_scheme_vec@.len(),
            context.index as int <= messages@.len(),
            vss_scheme_vec@ == messages@.insert(context.index as int, context.vss_scheme),
            forall|j: int|
                0 <= j < k ==> crate::curve::vss_n_commitments(vss_scheme_vec@[j]) > 0,
        decreases vss_scheme_vec@.len() - k,
    {
        if crate::curve::vss_commitments_len(&vss_scheme_vec[k]) == 0 {
            proof {
                assert(crate::curve::vss_n_commitments(
                    messages@.insert(context.index as int, context.vss_scheme)[k as int],
                ) == 0);
            }
            return Err("malformed commitment vector");
        }
        k = k + 1;
    }

    let verified = match keys_phase2_verify_vss(
        &context.party_keys,
        context.threshold - 1,
        context.parties,
        &context.point_vec,
        &context.party_shares,
        &vss_scheme_vec,
        context.index + 1,
    ) {
        Ok(v) => v,
        Err(_) => {
            return Err("invalid vss");
        },
    };
    let (shared_keys, dlog_proof) = verified;

    let msg = dlog_proof.clone();
    let context5 = KeyGenContext5 {
        threshold: context.threshold,
        parties: context.parties,
        index: context.index,
        party_keys: context.party_keys,
        bc1_vec: context.bc1_vec,
        vss_scheme_vec,
        y_sum: context.y_sum,
        point_vec: context.point_vec,
        shared_keys,
        dlog_proof,
    };
    Ok((msg, context5))
}

/// Round 6: verify every party's discrete-log proof of its key share
/// and assemble the terminal signing context. The aggregate public key
/// is the sum of the committed points of round 3, and the Paillier key
/// list is read off the round-2 broadcasts in party order.
pub fn key_gen_6(messages: Vec<KeyGenMsg5>, context: KeyGenContext5) -> (r: Result<
    SignContext,
    &'static str,
>)
    ensures
        r is Ok <==> {
            &&& messages@.len() + 1 == context.parties
            &&& context.index < context.parties
            &&& context.point_vec@.len() == context.parties
            &&& context.bc1_vec@.len() == context.parties
            &&& (forall|j: int|
                0 <= j < context.parties ==> dlog_ok(
                    #[trigger] messages@.insert(context.index as int, context.dlog_proof)[j],
                ))
        },
        r is Ok ==> {
            let ctx = r->Ok_0;
            &&& ctx.pk == context.y_sum
            &&& ctx.paillier_key_vec@ == context.bc1_vec@.map_values(
                |b: KeyGenBroadcastMessage1| bc_key(b),
            )
            &&& ctx.vss_scheme_vec == context.vss_scheme_vec
            &&& ctx.shared_keys == context.shared_keys
            &&& ctx.threshold == context.threshold
            &&& ctx.index == context.index
            &&& ctx.party_keys == context.party_keys
        },
{
    if context.parties == 0 || messages.len() != context.parties as usize - 1
        || context.index >= context.parties
        || context.point_vec.len() != context.parties as usize
        || context.bc1_vec.len() != context.parties as usize {
        return Err("wrong number of messages");
    }
    let mut dlog_proof_vec = messages;
    dlog_proof_vec.insert(context.index as usize, context.dlog_proof.clone());

    if !keys_verify_dlog_proofs(
        context.threshold,
        context.parties,
        &dlog_proof_vec,
        &context.point_vec,
    ) {
        return Err("bad dlog proof");
    }

    let mut paillier_key_vec: Vec<kzen_paillier::EncryptionKey> = Vec::new();
    let mut k: usize = 0;
    while k < context.bc1_vec.len()
        invariant
            k <= context.bc1_vec@.len(),
            paillier_key_vec@.len() == k,
            forall|j: int| 0 <= j < k ==> paillier_key_vec@[j] == bc_key(context.bc1_vec@[j]),
        decreases context.bc1_vec@.len() - k,
    {
        paillier_key_vec.push(bc_get_key(&context.bc1_vec[k]));
        k = k + 1;
    }
    proof {
        assert(paillier_key_vec@ =~= context.bc1_vec@.map_values(
            |b: KeyGenBroadcastMessage1| bc_key(b),
        ));
    }

    let sign_context = SignContext {
        threshold: context.threshold,
        index: context.index,
        party_keys: context.party_keys,
        vss_scheme_vec: context.vss_scheme_vec,
        shared_keys: context.shared_keys,
        paillier_key_vec,
        pk: context.y_sum,
    };
    Ok(sign_context)
}

/// A party's inbound vector is the broadcast with its own entry
/// missing; reinserting its own value at its own index restores the
/// broadcast exactly.
pub proof fn lemma_reinsert_own_message<T>(s: Seq<T>, i: int)
    requires
        0 <= i < s.len(),
    ensures
        s.remove(i).insert(i, s[i]) == s,
{
    assert(s.remove(i).insert(i, s[i]) =~= s);
}

/// Law: all parties that observe the same round-2 decommitment
/// broadcast derive the same aggregate public key. Party p's merged
/// vector is the broadcast without its own entry with its own
/// decommitment reinserted at index p, exactly as key_gen_3 builds it,
/// and its aggregate key is the sum of the committed points of that
/// vector.
pub proof fn lemma_keygen_aggregate_key_agreement(
    decoms: Seq<KeyGenDecommitMessage1>,
    a: int,
    b: int,
)
    requires
        0 <= a < decoms.len(),
        0 <= b < decoms.len(),
    ensures
        sum_pts(
            decoms.remove(a).insert(a, decoms[a]).map_values(
                |d: KeyGenDecommitMessage1| decom_point(d),
            ),
        ) == sum_pts(
            decoms.remove(b).insert(b, decoms[b]).map_values(
                |d: KeyGenDecommitMessage1| decom_point(d),
            ),
        ),
{
    lemma_reinsert_own_message(decoms, a);
    lemma_reinsert_own_message(decoms, b);
}

} // verus!
