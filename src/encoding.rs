//! Byte encodings shared by the verifier and the game: 32-byte big-endian
//! field elements and the 64-byte public-input buffer `commitment || target`.

use vstd::prelude::*;

verus! {

/// Length of one encoded field element.
pub const FIELD_BYTES: usize = 32;

/// Length of the public-input buffer: a commitment and a target.
pub const PUBLIC_INPUT_BYTES: usize = 64;

/// The four big-endian bytes of `t`.
pub open spec fn be_u32(t: u32) -> Seq<u8> {
    seq![(t >> 24u32) as u8, (t >> 16u32) as u8, (t >> 8u32) as u8, t as u8]
}

/// The unsigned integer whose big-endian bytes are `b[0..4]`.
pub open spec fn u32_of_be(b: Seq<u8>) -> u32 {
    ((b[0] as u32) << 24u32) | ((b[1] as u32) << 16u32) | ((b[2] as u32) << 8u32) | (b[3] as u32)
}

/// `t` as a 32-byte big-endian field element: 28 zero bytes, then `be_u32(t)`.
pub open spec fn field_of_u32(t: u32) -> Seq<u8> {
    Seq::new(28, |i: int| 0u8) + be_u32(t)
}

/// The public inputs handed to the verifier for a commitment and a target.
pub open spec fn public_inputs_of(commitment: Seq<u8>, target: u32) -> Seq<u8> {
    commitment + field_of_u32(target)
}

/// A 32-byte digest cut to a field element: a zero byte, then the digest's
/// first 31 bytes.
pub open spec fn address_field_of(digest: Seq<u8>) -> Seq<u8> {
    seq![0u8] + digest.subrange(0, 31)
}

/// The target drawn from a 32-byte seed: its last byte modulo 100.
pub open spec fn target_of_seed(seed: Seq<u8>) -> u32 {
    (seed[31] as u32) % 100
}

/// Whether `pi` has the shape of a public-input buffer: 64 bytes, of which
/// bytes 32 to 59 are zero.
pub open spec fn well_formed_inputs(pi: Seq<u8>) -> bool {
    &&& pi.len() == PUBLIC_INPUT_BYTES
    &&& forall|i: int| 32 <= i < 60 ==> pi[i] == 0
}

proof fn lemma_be_u32_round_trip(t: u32)
    ensures
        u32_of_be(be_u32(t)) == t,
{
    let b = be_u32(t);
    assert(b[0] == (t >> 24u32) as u8 && b[1] == (t >> 16u32) as u8 && b[2] == (t >> 8u32) as u8
        && b[3] == t as u8);
    assert(((((t >> 24u32) as u8) as u32) << 24u32) | ((((t >> 16u32) as u8) as u32) << 16u32)
        | ((((t >> 8u32) as u8) as u32) << 8u32) | ((t as u8) as u32) == t) by (bit_vector);
}

/// `t` as a 32-byte big-endian field element.
pub fn field_from_u32(t: u32) -> (r: [u8; 32])
    ensures
        r@ == field_of_u32(t),
{
    let mut r = [0u8; 32];
    r[28] = (t >> 24) as u8;
    r[29] = (t >> 16) as u8;
    r[30] = (t >> 8) as u8;
    r[31] = t as u8;
    assert(r@ =~= field_of_u32(t));
    r
}

/// Concatenates the commitment and the target, encoded as a field element,
/// into the 64-byte public-input buffer.
pub fn encode_public_inputs(commitment: &[u8; 32], target: u32) -> (r: Vec<u8>)
    ensures
        r@ == public_inputs_of(commitment@, target),
        r@.len() == PUBLIC_INPUT_BYTES,
{
    let field = field_from_u32(target);
    let mut r: Vec<u8> = Vec::with_capacity(PUBLIC_INPUT_BYTES);
    let mut i: usize = 0;
    while i < 32
        invariant
            i <= 32,
            r@ =~= commitment@.subrange(0, i as int),
        decreases 32 - i,
    {
        r.push(commitment[i]);
        i += 1;
    }
    let mut j: usize = 0;
    while j < 32
        invariant
            j <= 32,
            field@ == field_of_u32(target),
            r@ =~= commitment@ + field@.subrange(0, j as int),
        decreases 32 - j,
    {
        r.push(field[j]);
        j += 1;
    }
    assert(field@.subrange(0, 32) =~= field@);
    r
}

/// Reads a public-input buffer back into its commitment and target.
/// Returns `None` unless the buffer is well formed.
pub fn decode_public_inputs(pi: &Vec<u8>) -> (r: Option<([u8; 32], u32)>)
    ensures
        r is Some <==> well_formed_inputs(pi@),
        r matches Some((c, t)) ==> c@ == pi@.subrange(0, 32) && t == u32_of_be(
            pi@.subrange(60, 64),
        ),
{
    if pi.len() != PUBLIC_INPUT_BYTES {
        return None;
    }
    let mut k: usize = 32;
    while k < 60
        invariant
            32 <= k <= 60,
            pi@.len() == PUBLIC_INPUT_BYTES,
            forall|i: int| 32 <= i < k ==> pi@[i] == 0,
        decreases 60 - k,
    {
        if pi[k] != 0 {
            return None;
        }
        k += 1;
    }
    let mut c = [0u8; 32];
    let mut i: usize = 0;
    while i < 32
        invariant
            i <= 32,
            pi@.len() == PUBLIC_INPUT_BYTES,
            forall|m: int| 0 <= m < i ==> c@[m] == pi@[m],
        decreases 32 - i,
    {
        c[i] = pi[i];
        i += 1;
    }
    assert(c@ =~= pi@.subrange(0, 32));
    let t: u32 = ((pi[60] as u32) << 24) | ((pi[61] as u32) << 16) | ((pi[62] as u32) << 8) | (
    pi[63] as u32);
    Some((c, t))
}

/// Public inputs round-trip: the first 32 bytes of the buffer are the
/// commitment, bytes 32 to 59 are zero, and bytes 60 to 63 read big-endian
/// give back the target.
pub proof fn lemma_public_inputs_round_trip(commitment: Seq<u8>, target: u32)
    requires
        commitment.len() == FIELD_BYTES,
    ensures
        well_formed_inputs(public_inputs_of(commitment, target)),
        public_inputs_of(commitment, target).subrange(0, 32) == commitment,
        u32_of_be(public_inputs_of(commitment, target).subrange(60, 64)) == target,
{
    let pi = public_inputs_of(commitment, target);
    assert(pi.subrange(0, 32) =~= commitment);
    assert(pi.subrange(60, 64) =~= be_u32(target));
    lemma_be_u32_round_trip(target);
}

/// Cuts a 32-byte digest to a field element: a zero byte, then the digest's
/// first 31 bytes.
pub fn address_field(digest: &[u8; 32]) -> (r: [u8; 32])
    ensures
        r@ == address_field_of(digest@),
        r[0] == 0,
{
    let mut r = [0u8; 32];
    let mut i: usize = 1;
    while i < 32
        invariant
            1 <= i <= 32,
            r[0] == 0,
            forall|m: int| 1 <= m < i ==> r@[m] == digest@[m - 1],
        decreases 32 - i,
    {
        r[i] = digest[i - 1];
        i += 1;
    }
    assert(r@ =~= address_field_of(digest@));
    r
}

/// The target drawn from a seed: its last byte modulo 100.
pub fn target_from_seed(seed: &[u8; 32]) -> (r: u32)
    ensures
        r == target_of_seed(seed@),
        r < 100,
{
    (seed[31] as u32) % 100
}

} // verus!
