//! Share refresh for the general threshold scheme, restricted to
//! exactly two parties: a commit/reveal exchange of fresh nonces, a
//! joint Fiat-Shamir challenge, and a consistency check that binds both
//! contributions to the shared public key. The aggregate public key is
//! invariant across the whole session.
use vstd::prelude::*;

use crate::curve::{
    big_of_u64, comwit_get_pk_blind, comwit_get_proof, comwit_get_share, comwit_get_zk_blind,
    comwit_new, comwit_pk_blind, comwit_proof, comwit_share, comwit_zk_blind, dlog_ok,
    dlog_pf_t_big, dlog_prove, dlog_proof_t_big, dlog_verify, g_mul, hash2, hash3, hash_com,
    hash_commit, hash_three_bigs, hash_two_bigs, pt_add, pt_mul, pt_to_big, sc_add, sc_mul,
    sc_of_big, vss_n_commitments, vss_with_shifted_linear_coeff, ComWit, Pt, Sc, Vss,
};
use crate::gg18_primitives::{
    party_private_set, private_of, shared_keys_get_y, shared_keys_shift, shared_x, shared_y,
    sign_keys_create, sign_keys_w, w_of, GgKeys,
};
use crate::key_gen::SignContext;
use multi_party_ecdsa::protocols::multi_party_ecdsa::gg_2018::party_i::SharedKeys;

verus! {

/// The first refresh broadcast: hash commitments to a fresh nonce point
/// and to the accompanying proof-of-knowledge commitment.
pub struct PSSFirstMessage {
    pub k_commitment: curv::BigInt,
    pub zk_pok_commitment: curv::BigInt,
}

impl Clone for PSSFirstMessage {
    fn clone(&self) -> (r: Self)
        ensures
            r == *self,
    {
        PSSFirstMessage {
            k_commitment: crate::curve::big_clone(&self.k_commitment),
            zk_pok_commitment: crate::curve::big_clone(&self.zk_pok_commitment),
        }
    }
}

pub type GG18RefreshMsg1 = PSSFirstMessage;

pub type GG18RefreshMsg2 = ComWit;

pub type GG18RefreshMsg3 = Sc;

pub struct GG18RefreshContext1 {
    pub threshold: u16,
    pub index: u16,
    pub party_keys: GgKeys,
    pub vss_scheme_vec: Vec<Vss>,
    pub shared_keys: SharedKeys,
    pub paillier_key_vec: Vec<kzen_paillier::EncryptionKey>,
    pub pk: Pt,
    pub pss_first_message: PSSFirstMessage,
    pub com_witness: ComWit,
    pub k_i: Sc,
}

pub struct GG18RefreshContext2 {
    pub threshold: u16,
    pub index: u16,
    pub party_keys: GgKeys,
    pub vss_scheme_vec: Vec<Vss>,
    pub shared_keys: SharedKeys,
    pub paillier_key_vec: Vec<kzen_paillier::EncryptionKey>,
    pub pk: Pt,
    pub com_witness: ComWit,
    pub zk_comm_vec: Vec<PSSFirstMessage>,
    pub k_i: Sc,
}

pub struct GG18RefreshContext3 {
    pub threshold: u16,
    pub index: u16,
    pub party_keys: GgKeys,
    pub vss_scheme_vec: Vec<Vss>,
    pub shared_keys: SharedKeys,
    pub paillier_key_vec: Vec<kzen_paillier::EncryptionKey>,
    pub pk: Pt,
    pub z_b: Sc,
    pub epoch: curv::BigInt,
    pub k_point: Pt,
    pub d: curv::BigInt,
    pub e_fe: Sc,
}

/// Round 1: sample a fresh nonce, prove knowledge of it, and commit to
/// both the nonce point and the proof commitment. The long-term key
/// material and the public key are carried through unchanged.
pub fn gg18_refresh1(context: SignContext) -> (r: Result<
    (GG18RefreshMsg1, GG18RefreshContext1),
    &'static str,
>)
    ensures
        r is Ok,
        r is Ok ==> {
            let ctx = r->Ok_0.1;
            let w = ctx.com_witness;
            &&& r->Ok_0.0 == ctx.pss_first_message
            &&& ctx.pss_first_message.k_commitment == hash_com(
                pt_to_big(comwit_share(w)),
                comwit_pk_blind(w),
            )
            &&& ctx.pss_first_message.zk_pok_commitment == hash_com(
                dlog_pf_t_big(comwit_proof(w)),
                comwit_zk_blind(w),
            )
            &&& comwit_share(w) == g_mul(ctx.k_i)
            &&& dlog_ok(comwit_proof(w))
            &&& ctx.pk == context.pk
            &&& ctx.threshold == context.threshold
            &&& ctx.index == context.index
            &&& ctx.party_keys == context.party_keys
            &&& ctx.vss_scheme_vec == context.vss_scheme_vec
            &&& ctx.shared_keys == context.shared_keys
            &&& ctx.paillier_key_vec == context.paillier_key_vec
        },
{
    let k_i = crate::curve::scalar_random();
    let g_k_i = crate::curve::generator_mul(&k_i);
    let d_log_proof = dlog_prove(&k_i);

    let pk_commitment_blind_factor = crate::curve::big_sample(256);
    let k_commitment = hash_commit(
        &crate::curve::point_to_big(&g_k_i),
        &pk_commitment_blind_factor,
    );

    let zk_pok_blind_factor = crate::curve::big_sample(256);
    let zk_pok_commitment = hash_commit(&dlog_proof_t_big(&d_log_proof), &zk_pok_blind_factor);

    let com_witness = comwit_new(
        pk_commitment_blind_factor,
        zk_pok_blind_factor,
        g_k_i,
        d_log_proof,
    );

    let pss_first_message = PSSFirstMessage { k_commitment, zk_pok_commitment };
    let msg = pss_first_message.clone();

    let context1 = GG18RefreshContext1 {
        threshold: context.threshold,
        index: context.index,
        party_keys: context.party_keys,
        vss_scheme_vec: context.vss_scheme_vec,
        shared_keys: context.shared_keys,
        paillier_key_vec: context.paillier_key_vec,
        pk: context.pk,
        pss_first_message,
        com_witness,
        k_i,
    };
    Ok((msg, context1))
}

/// Round 2: collect the counterparty's commitment message, reinsert our
/// own at our index, and reveal our commit witness.
pub fn gg18_refresh2(messages: Vec<GG18RefreshMsg1>, context: GG18RefreshContext1) -> (r: Result<
    (GG18RefreshMsg2, GG18RefreshContext2),
    &'static str,
>)
    ensures
        r is Ok <==> messages@.len() == 1 && context.index < 2,
        r is Ok ==> {
            let ctx = r->Ok_0.1;
            &&& ctx.zk_comm_vec@ == messages@.insert(
                context.index as int,
                context.pss_first_message,
            )
            &&& r->Ok_0.0 == context.com_witness
            &&& ctx.com_witness == context.com_witness
            &&& ctx.k_i == context.k_i
            &&& ctx.pk == context.pk
            &&& ctx.threshold == context.threshold
            &&& ctx.index == context.index
            &&& ctx.party_keys == context.party_keys
            &&& ctx.vss_scheme_vec == context.vss_scheme_vec
            &&& ctx.shared_keys == context.shared_keys
            &&& ctx.paillier_key_vec == context.paillier_key_vec
        },
{
    if messages.len() != 1 || context.index >= 2 {
        return Err("wrong number of messages");
    }
    let mut zk_comm_vec = messages;
    zk_comm_vec.insert(context.index as usize, context.pss_first_message.clone());
    let msg = context.com_witness.clone();
    let context2 = GG18RefreshContext2 {
        threshold: context.threshold,
        index: context.index,
        party_keys: context.party_keys,
        vss_scheme_vec: context.vss_scheme_vec,
        shared_keys: context.shared_keys,
        paillier_key_vec: context.paillier_key_vec,
        pk: context.pk,
        com_witness: context.com_witness,
        zk_comm_vec,
        k_i: context.k_i,
    };
    Ok((msg, context2))
}

/// What round 3 demands of the counterparty's reveal: both hash
/// commitments of round 1 open to the revealed values and the
/// discrete-log proof verifies.
pub open spec fn refresh_reveal_ok(commitment: PSSFirstMessage, w: ComWit) -> bool {
    &&& commitment.k_commitment == hash_com(pt_to_big(comwit_share(w)), comwit_pk_blind(w))
    &&& commitment.zk_pok_commitment == hash_com(dlog_pf_t_big(comwit_proof(w)), comwit_zk_blind(w))
    &&& dlog_ok(comwit_proof(w))
}

/// Round 3: verify the counterparty's reveal against its round-1
/// commitments, derive the joint nonce point K and the Fiat-Shamir
/// challenge from K, a hash of both nonce points and the session epoch,
/// and answer with this party's z contribution e*w_i + k_i.
pub fn gg18_refresh3(messages: Vec<GG18RefreshMsg2>, context: GG18RefreshContext2) -> (r: Result<
    (GG18RefreshMsg3, GG18RefreshContext3),
    &'static str,
>)
    ensures
        r is Ok <==> {
            let merged = messages@.insert(context.index as int, context.com_witness);
            let peer = if context.index == 0 {
                1int
            } else {
                0int
            };
            &&& messages@.len() == 1
            &&& context.index < 2
            &&& context.zk_comm_vec@.len() == 2
            &&& context.vss_scheme_vec@.len() == 2
            &&& refresh_reveal_ok(context.zk_comm_vec@[peer], merged[peer])
        },
        r is Ok ==> {
            let ctx = r->Ok_0.1;
            let merged = messages@.insert(context.index as int, context.com_witness);
            &&& r->Ok_0.0 == ctx.z_b
            &&& ctx.k_point == pt_add(comwit_share(merged[0]), comwit_share(merged[1]))
            &&& ctx.d == hash2(
                pt_to_big(comwit_share(merged[0])),
                pt_to_big(comwit_share(merged[1])),
            )
            &&& ctx.epoch == big_of_u64(1)
            &&& ctx.e_fe == sc_of_big(hash3(pt_to_big(ctx.k_point), ctx.d, ctx.epoch))
            &&& ctx.z_b == sc_add(
                sc_mul(
                    ctx.e_fe,
                    w_of(
                        private_of(context.party_keys, context.shared_keys),
                        context.vss_scheme_vec@[context.index as int],
                        context.index,
                        seq![0u16, 1u16],
                    ),
                ),
                context.k_i,
            )
            &&& ctx.pk == context.pk
            &&& ctx.threshold == context.threshold
            &&& ctx.index == context.index
            &&& ctx.party_keys == context.party_keys
            &&& ctx.vss_scheme_vec == context.vss_scheme_vec
            &&& ctx.shared_keys == context.shared_keys
            &&& ctx.paillier_key_vec == context.paillier_key_vec
        },
{
    if messages.len() != 1 || context.index >= 2 || context.zk_comm_vec.len() != 2
        || context.vss_scheme_vec.len() != 2 {
        return Err("wrong number of messages");
    }
    let mut merged = messages;
    merged.insert(context.index as usize, context.com_witness.clone());

    let peer: usize = if context.index == 0 {
        1
    } else {
        0
    };
    let peer_share = comwit_get_share(&merged[peer]);
    let peer_proof = comwit_get_proof(&merged[peer]);
    let expected_k_com = hash_commit(
        &crate::curve::point_to_big(&peer_share),
        &comwit_get_pk_blind(&merged[peer]),
    );
    if !crate::curve::big_eq(&context.zk_comm_vec[peer].k_commitment, &expected_k_com) {
        return Err("msg");
    }
    let expected_zk_com = hash_commit(
        &dlog_proof_t_big(&peer_proof),
        &comwit_get_zk_blind(&merged[peer]),
    );
    if !crate::curve::big_eq(&context.zk_comm_vec[peer].zk_pok_commitment, &expected_zk_com) {
        return Err("msg");
    }
    if !dlog_verify(&peer_proof) {
        return Err("error zk-dlog verify");
    }

    let share0 = comwit_get_share(&merged[0]);
    let share1 = comwit_get_share(&merged[1]);
    let d = hash_two_bigs(
        &crate::curve::point_to_big(&share0),
        &crate::curve::point_to_big(&share1),
    );
    let k_point = crate::curve::point_add(&share0, &share1);
    let epoch = crate::curve::big_from_u64(1);
    let e = hash_three_bigs(&crate::curve::point_to_big(&k_point), &d, &epoch);

    let private = party_private_set(&context.party_keys, &context.shared_keys);
    let mut subset: Vec<u16> = Vec::new();
    subset.push(0);
    subset.push(1);
    proof {
        assert(subset@ =~= seq![0u16, 1u16]);
        assert(subset@[context.index as int] == context.index);
        assert(subset@.contains(context.index));
        assert forall|a: int, b: int| 0 <= a < b < subset@.len() implies subset@[a] != subset@[b]
        by {
            assert(a == 0 && b == 1);
        }
    }
    let sign_keys = sign_keys_create(
        &private,
        &context.vss_scheme_vec[context.index as usize],
        context.index,
        &subset,
    );
    let e_fe = crate::curve::scalar_from_big(&e);
    let z_b = crate::curve::scalar_add(
        &crate::curve::scalar_mul(&e_fe, &sign_keys_w(&sign_keys)),
        &context.k_i,
    );

    let msg = z_b.clone();
    let context3 = GG18RefreshContext3 {
        threshold: context.threshold,
        index: context.index,
        party_keys: context.party_keys,
        vss_scheme_vec: context.vss_scheme_vec,
        shared_keys: context.shared_keys,
        paillier_key_vec: context.paillier_key_vec,
        pk: context.pk,
        z_b,
        epoch,
        k_point,
        d,
        e_fe,
    };
    Ok((msg, context3))
}

/// Round 4: combine both z contributions and check them against the
/// challenge and the shared public key: z*G must equal e*Y + K. On
/// success each party adds d times its one-based share point to its
/// long-term secret share — across the two parties this distributes the
/// polynomial d*X, a sharing of zero, so the aggregate public key is
/// unchanged — and shifts the degree-one coefficient commitment of the
/// first scheme by d*G so that the commitment set matches the new
/// shares and the old shares no longer verify against it.
pub fn gg18_refresh4(messages: Vec<GG18RefreshMsg3>, context: GG18RefreshContext3) -> (r: Result<
    SignContext,
    &'static str,
>)
    ensures
        r is Ok <==> {
            &&& messages@.len() == 1
            &&& context.index < 2
            &&& context.vss_scheme_vec@.len() == 2
            &&& vss_n_commitments(context.vss_scheme_vec@[0]) >= 2
            &&& g_mul(sc_add(messages@[0], context.z_b)) == pt_add(
                pt_mul(shared_y(context.shared_keys), context.e_fe),
                context.k_point,
            )
        },
        r is Ok ==> {
            let ctx = r->Ok_0;
            let d_fe = sc_of_big(context.d);
            &&& ctx.pk == context.pk
            &&& shared_y(ctx.shared_keys) == shared_y(context.shared_keys)
            &&& shared_x(ctx.shared_keys) == sc_add(
                shared_x(context.shared_keys),
                sc_mul(d_fe, sc_of_big(big_of_u64((context.index + 1) as u64))),
            )
            &&& ctx.vss_scheme_vec@ == context.vss_scheme_vec@.update(
                0,
                vss_with_shifted_linear_coeff(context.vss_scheme_vec@[0], g_mul(d_fe)),
            )
            &&& ctx.threshold == context.threshold
            &&& ctx.index == context.index
            &&& ctx.party_keys == context.party_keys
            &&& ctx.paillier_key_vec == context.paillier_key_vec
        },
{
    if messages.len() != 1 || context.index >= 2 || context.vss_scheme_vec.len() != 2 {
        return Err("wrong number of messages");
    }
    if crate::curve::vss_commitments_len(&context.vss_scheme_vec[0]) < 2 {
        return Err("malformed commitment vector");
    }
    let z = crate::curve::scalar_add(&messages[0], &context.z_b);
    let z_g = crate::curve::generator_mul(&z);
    let e_pk = crate::curve::point_mul(&shared_keys_get_y(&context.shared_keys), &context.e_fe);
    let e_pk_k = crate::curve::point_add(&e_pk, &context.k_point);
    if !crate::curve::point_eq(&z_g, &e_pk_k) {
        return Err("refresh consistency check failed");
    }

    let d_fe = crate::curve::scalar_from_big(&context.d);
    let own_point = crate::curve::scalar_from_big(
        &crate::curve::big_from_u64((context.index + 1) as u64),
    );
    let shift = crate::curve::scalar_mul(&d_fe, &own_point);
    let shared_keys = shared_keys_shift(&context.shared_keys, &shift);

    let g_d = crate::curve::generator_mul(&d_fe);
    let mut vss_scheme_vec = context.vss_scheme_vec;
    let shifted = crate::curve::vss_shift_linear(&vss_scheme_vec[0], &g_d);
    vss_scheme_vec.set(0, shifted);

    let refreshed = SignContext {
        threshold: context.threshold,
        index: context.index,
        party_keys: context.party_keys,
        vss_scheme_vec,
        shared_keys,
        paillier_key_vec: context.paillier_key_vec,
        pk: context.pk,
    };
    Ok(refreshed)
}

} // verus!
