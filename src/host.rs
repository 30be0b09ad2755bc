//! The hashing primitives of the Soroban host.
//!
//! Each wrapper makes one host call and converts its arguments and result
//! between plain byte vectors and the host's types. What a call returns is a
//! function of its arguments alone, and is named by a spec function.

use soroban_sdk::crypto::BnScalar;
use soroban_sdk::{Bytes, Env, U256};
use vstd::prelude::*;

verus! {

#[verifier::external_type_specification]
#[verifier::external_body]
pub struct ExEnv(Env);

/// The SHA-256 digest of a byte string.
pub uninterp spec fn sha256_of(data: Seq<u8>) -> Seq<u8>;

/// The Poseidon2 hash (width 4, over the BN254 scalar field) of two field
/// elements, each given as 32 big-endian bytes.
pub uninterp spec fn poseidon2_of(a: Seq<u8>, b: Seq<u8>) -> Seq<u8>;

/// Relies on `Crypto::sha256` of soroban-sdk: the 32-byte SHA-256 digest of
/// the data.
#[verifier::external_body]
pub(crate) fn sha256(env: &Env, data: &Vec<u8>) -> (r: [u8; 32])
    ensures
        r@ == sha256_of(data@),
{
    env.crypto().sha256(&Bytes::from_slice(env, data.as_slice())).to_array()
}

/// Relies on `soroban_poseidon::poseidon2_hash::<4, BnScalar>` on the two
/// elements that `U256::from_be_bytes` reads from `a` and `b`, and on
/// `U256::to_be_bytes` for the 32 bytes of the result. The hash panics on an
/// element at or above the field modulus; an element whose top byte is zero
/// lies below it.
#[verifier::external_body]
pub(crate) fn poseidon2(env: &Env, a: &[u8; 32], b: &[u8; 32]) -> (r: [u8; 32])
    requires
        a[0] == 0,
        b[0] == 0,
    ensures
        r@ == poseidon2_of(a@, b@),
{
    let x = U256::from_be_bytes(env, &Bytes::from_array(env, a));
    let y = U256::from_be_bytes(env, &Bytes::from_array(env, b));
    let inputs = soroban_sdk::Vec::from_array(env, [x, y]);
    let seed = soroban_poseidon::poseidon2_hash::<4, BnScalar>(env, &inputs);
    let mut out = [0u8; 32];
    seed.to_be_bytes().copy_into_slice(&mut out);
    out
}

} // verus!
