//! Little-endian integer fields of persisted records and instruction payloads.
//!
//! Integers travel in the Borsh encoding: fixed width, least significant byte
//! first. The meaning of that encoding is given here as two spec functions,
//! `le_value` and `le_bytes`, which are proved to be inverse to each other.
//! The conversions themselves are done by the `borsh` crate.
use vstd::prelude::*;

use crate::key::Key;

verus! {

/// The number that the byte string `s` denotes, least significant byte first.
pub open spec fn le_value(s: Seq<u8>) -> nat
    decreases s.len(),
{
    if s.len() == 0 {
        0
    } else {
        s[0] as nat + 256 * le_value(s.drop_first())
    }
}

/// The `len` low-order bytes of `v`, least significant byte first.
pub open spec fn le_bytes(v: nat, len: nat) -> Seq<u8>
    decreases len,
{
    if len == 0 {
        Seq::empty()
    } else {
        seq![(v % 256) as u8] + le_bytes(v / 256, (len - 1) as nat)
    }
}

/// The number of values that `len` bytes can hold: 256 to the power `len`.
pub open spec fn radix(len: nat) -> nat
    decreases len,
{
    if len == 0 {
        1
    } else {
        256 * radix((len - 1) as nat)
    }
}

/// `le_bytes(v, len)` is `len` bytes long.
pub proof fn lemma_le_bytes_len(v: nat, len: nat)
    ensures
        le_bytes(v, len).len() == len,
    decreases len,
{
    if len > 0 {
        lemma_le_bytes_len(v / 256, (len - 1) as nat);
    }
}

/// A byte string denotes a number below `radix` of its length.
pub proof fn lemma_le_value_bound(s: Seq<u8>)
    ensures
        le_value(s) < radix(s.len()),
    decreases s.len(),
{
    if s.len() > 0 {
        lemma_le_value_bound(s.drop_first());
    }
}

/// Decoding what was encoded gives the number back, if it fits in `len` bytes.
pub proof fn lemma_le_value_of_bytes(v: nat, len: nat)
    requires
        v < radix(len),
    ensures
        le_value(le_bytes(v, len)) == v,
    decreases len,
{
    if len > 0 {
        let rest = le_bytes(v / 256, (len - 1) as nat);
        let s = le_bytes(v, len);
        lemma_le_value_of_bytes(v / 256, (len - 1) as nat);
        assert(s.drop_first() =~= rest);
        assert(s[0] == (v % 256) as u8);
    }
}

/// Encoding what was decoded gives the bytes back.
pub proof fn lemma_le_bytes_of_value(s: Seq<u8>)
    ensures
        le_bytes(le_value(s), s.len()) =~= s,
    decreases s.len(),
{
    if s.len() > 0 {
        let v = le_value(s);
        let tail = s.drop_first();
        lemma_le_bytes_of_value(tail);
        assert(v % 256 == s[0] as nat);
        assert(v / 256 == le_value(tail));
    }
}

/// Eight bytes hold exactly the values of a `u64`, sixteen those of a `u128`.
pub proof fn lemma_radix_values()
    ensures
        radix(8) == 0x1_0000_0000_0000_0000,
        radix(16) == 0x1_0000_0000_0000_0000_0000_0000_0000_0000,
{
    reveal_with_fuel(radix, 17);
}

/// The `u64` that a standalone field of eight bytes holds; any other length
/// is malformed.
pub open spec fn spec_decode_u64(s: Seq<u8>) -> Option<u64> {
    if s.len() == 8 {
        Some(le_value(s) as u64)
    } else {
        None
    }
}

/// The `u128` that a standalone field of sixteen bytes holds; any other
/// length is malformed.
pub open spec fn spec_decode_u128(s: Seq<u8>) -> Option<u128> {
    if s.len() == 16 {
        Some(le_value(s) as u128)
    } else {
        None
    }
}

/// Decodes a `u64` with Borsh's `try_from_slice`.
///
/// Trusted: Borsh reads exactly eight bytes, least significant first, and
/// rejects any input that is shorter or longer.
#[verifier::external_body]
fn borsh_u64_from_slice(bytes: &[u8]) -> (r: Option<u64>)
    ensures
        r == spec_decode_u64(bytes@),
{
    <u64 as borsh::BorshDeserialize>::try_from_slice(bytes).ok()
}

/// Decodes a `u128` with Borsh's `try_from_slice`.
///
/// Trusted: Borsh reads exactly sixteen bytes, least significant first, and
/// rejects any input that is shorter or longer.
#[verifier::external_body]
fn borsh_u128_from_slice(bytes: &[u8]) -> (r: Option<u128>)
    ensures
        r == spec_decode_u128(bytes@),
{
    <u128 as borsh::BorshDeserialize>::try_from_slice(bytes).ok()
}

/// Encodes a `u64` with `borsh::to_vec`.
///
/// Trusted: Borsh writes the eight bytes of the value, least significant
/// first; writing into a vector does not fail.
#[verifier::external_body]
fn borsh_u64_to_vec(v: u64) -> (r: Vec<u8>)
    ensures
        r@ == le_bytes(v as nat, 8),
{
    borsh::to_vec(&v).unwrap_or_default()
}

/// Encodes a `u128` with `borsh::to_vec`.
///
/// Trusted: Borsh writes the sixteen bytes of the value, least significant
/// first; writing into a vector does not fail.
#[verifier::external_body]
fn borsh_u128_to_vec(v: u128) -> (r: Vec<u8>)
    ensures
        r@ == le_bytes(v as nat, 16),
{
    borsh::to_vec(&v).unwrap_or_default()
}

/// Decodes a standalone `u64`: `Some` exactly when `bytes` is eight bytes long.
pub fn decode_u64(bytes: &[u8]) -> (r: Option<u64>)
    ensures
        r == spec_decode_u64(bytes@),
        r matches Some(v) ==> v as nat == le_value(bytes@),
{
    proof {
        lemma_le_value_bound(bytes@);
        lemma_radix_values();
    }
    borsh_u64_from_slice(bytes)
}

/// Reads the `u64` that occupies `data[at .. at + 8]`.
pub fn read_u64(data: &[u8], at: usize) -> (v: u64)
    requires
        at + 8 <= data@.len(),
    ensures
        v as nat == le_value(data@.subrange(at as int, at + 8)),
{
    let len: usize = data.len();
    assert(at + 8 <= len);
    let field = vstd::slice::slice_subrange(data, at, at + 8);
    proof {
        lemma_le_value_bound(field@);
        lemma_radix_values();
    }
    borsh_u64_from_slice(field).unwrap()
}

/// Reads the `u128` that occupies `data[at .. at + 16]`.
pub fn read_u128(data: &[u8], at: usize) -> (v: u128)
    requires
        at + 16 <= data@.len(),
    ensures
        v as nat == le_value(data@.subrange(at as int, at + 16)),
{
    let len: usize = data.len();
    assert(at + 16 <= len);
    let field = vstd::slice::slice_subrange(data, at, at + 16);
    proof {
        lemma_le_value_bound(field@);
        lemma_radix_values();
    }
    borsh_u128_from_slice(field).unwrap()
}

/// Reads the address that occupies `data[at .. at + 32]`.
pub fn read_key(data: &[u8], at: usize) -> (key: Key)
    requires
        at + 32 <= data@.len(),
    ensures
        key@ == data@.subrange(at as int, at + 32),
{
    let len: usize = data.len();
    let mut bytes: [u8; 32] = [0u8; 32];
    let mut i: usize = 0;
    while i < 32
        invariant
            i <= 32,
            at + 32 <= data@.len() == len,
            forall|j: int| 0 <= j < i ==> bytes[j] == data@[at + j],
        decreases 32 - i,
    {
        bytes[i] = data[at + i];
        i += 1;
    }
    let key = Key::new(bytes);
    assert(key@ =~= data@.subrange(at as int, at + 32));
    key
}

/// Appends the eight bytes of `v` to `out`.
pub fn put_u64(out: &mut Vec<u8>, v: u64)
    ensures
        final(out)@ == old(out)@ + le_bytes(v as nat, 8),
{
    let mut field = borsh_u64_to_vec(v);
    out.append(&mut field);
}

/// Appends the sixteen bytes of `v` to `out`.
pub fn put_u128(out: &mut Vec<u8>, v: u128)
    ensures
        final(out)@ == old(out)@ + le_bytes(v as nat, 16),
{
    let mut field = borsh_u128_to_vec(v);
    out.append(&mut field);
}

/// Appends the 32 bytes of `key` to `out`.
pub fn put_key(out: &mut Vec<u8>, key: &Key)
    ensures
        final(out)@ == old(out)@ + key@,
{
    let mut i: usize = 0;
    while i < 32
        invariant
            i <= 32,
            out@ == old(out)@ + key@.subrange(0, i as int),
        decreases 32 - i,
    {
        out.push(key.bytes[i]);
        i += 1;
        assert(out@ =~= old(out)@ + key@.subrange(0, i as int));
    }
    assert(key@.subrange(0, 32) =~= key@);
}

} // verus!
