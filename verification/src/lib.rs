//! Threshold-ECDSA protocol sessions: a general n-party scheme
//! (key generation, signing, share refresh) and a two-party scheme with
//! asymmetric roles (key generation, signing, refresh).
//!
//! Each protocol round is a function from the inbound peer messages and
//! the current session context to an outbound message and the next
//! context, or a terminal error. The cryptographic primitives come from
//! outside crates and are reached through a small trusted boundary; the
//! round sequencing, peer-message bookkeeping and failure discipline are
//! verified.
pub mod curve;
pub mod gg18_primitives;
pub mod key_gen;
pub mod gg18_sign;
pub mod gg18_refresh;
pub mod li17_primitives;
pub mod li17_key_gen;
pub mod li17_sign;
pub mod li17_refresh;
