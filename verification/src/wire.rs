//! The primitive layouts that records and instructions are made of:
//! little-endian integers, raw 32-byte addresses, one-byte flags and
//! length-prefixed UTF-8 text.

use vstd::prelude::*;
use vstd::bytes::*;
use vstd::slice::*;
use vstd::utf8::*;
use crate::address::Address;

verus! {

/// The unsigned number with the same 64 bits as `x` in two's complement.
pub open spec fn i64_bits(x: i64) -> u64 {
    if x >= 0 {
        x as u64
    } else {
        (x + 0x1_0000_0000_0000_0000) as u64
    }
}

/// The signed number with the same 64 bits as `b` in two's complement.
pub open spec fn bits_i64(b: u64) -> i64 {
    if b < 0x8000_0000_0000_0000 {
        b as i64
    } else {
        (b - 0x1_0000_0000_0000_0000) as i64
    }
}

/// Reading the bits of a signed number back gives the number, and the other
/// way round.
pub proof fn i64_bits_round_trip(x: i64, b: u64)
    ensures
        bits_i64(i64_bits(x)) == x,
        i64_bits(bits_i64(b)) == b,
{
}

/// The byte that stands for a flag.
pub open spec fn flag_byte(b: bool) -> u8 {
    if b {
        1u8
    } else {
        0u8
    }
}

/// The bytes of a text: the length of its UTF-8 form as a little-endian
/// `u32`, then that form.
pub open spec fn text_bytes(s: Seq<char>) -> Seq<u8> {
    spec_u32_to_le_bytes(encode_utf8(s).len() as u32) + encode_utf8(s)
}

/// Whether a text is short enough for its length to be written.
pub open spec fn text_fits(s: Seq<char>) -> bool {
    encode_utf8(s).len() <= u32::MAX
}

/// The bits of a signed number, as an unsigned one.
pub fn i64_to_bits(x: i64) -> (b: u64)
    ensures
        b == i64_bits(x),
{
    if x >= 0 {
        x as u64
    } else {
        ((x - i64::MIN) as u64) + 0x8000_0000_0000_0000u64
    }
}

/// The signed number that has the given bits.
pub fn i64_from_bits(b: u64) -> (x: i64)
    ensures
        x == bits_i64(b),
{
    if b < 0x8000_0000_0000_0000u64 {
        b as i64
    } else {
        ((b - 0x8000_0000_0000_0000u64) as i64) + i64::MIN
    }
}

/// The address stored in the 32 bytes of `data` that start at `at`.
pub(crate) fn read_address(data: &[u8], at: usize) -> (a: Address)
    requires
        at + 32 <= data@.len(),
    ensures
        a@ == data@.subrange(at as int, at + 32),
{
    let len: usize = data.len();
    let mut bytes: [u8; 32] = [0u8; 32];
    let mut i: usize = 0;
    while i < 32
        invariant
            i <= 32,
            at + 32 <= data@.len(),
            data@.len() == len,
            forall|j: int| 0 <= j < i ==> bytes@[j] == data@[at + j],
        decreases 32 - i,
    {
        bytes[i] = data[at + i];
        i += 1;
    }
    assert(bytes@ =~= data@.subrange(at as int, at + 32));
    Address::new(bytes)
}

/// The number stored, little end first, in the 8 bytes that start at `at`.
pub(crate) fn read_u64(data: &[u8], at: usize) -> (x: u64)
    requires
        at + 8 <= data@.len(),
    ensures
        x == spec_u64_from_le_bytes(data@.subrange(at as int, at + 8)),
{
    let len: usize = data.len();
    u64_from_le_bytes(slice_subrange(data, at, at + 8))
}

/// The number stored, little end first, in the 4 bytes that start at `at`.
pub(crate) fn read_u32(data: &[u8], at: usize) -> (x: u32)
    requires
        at + 4 <= data@.len(),
    ensures
        x == spec_u32_from_le_bytes(data@.subrange(at as int, at + 4)),
{
    let len: usize = data.len();
    u32_from_le_bytes(slice_subrange(data, at, at + 4))
}

/// A copy of the bytes of `data` from `from` up to `to`.
pub(crate) fn copy_range(data: &[u8], from: usize, to: usize) -> (v: Vec<u8>)
    requires
        from <= to <= data@.len(),
    ensures
        v@ == data@.subrange(from as int, to as int),
{
    slice_to_vec(slice_subrange(data, from, to))
}

/// Appends the 32 bytes of an address.
pub fn push_address(out: &mut Vec<u8>, a: &Address)
    ensures
        final(out)@ == old(out)@ + a@,
{
    let bytes = a.to_vec();
    out.extend_from_slice(bytes.as_slice());
}

/// Appends a number, little end first.
pub fn push_u64(out: &mut Vec<u8>, x: u64)
    ensures
        final(out)@ == old(out)@ + spec_u64_to_le_bytes(x),
{
    let bytes = u64_to_le_bytes(x);
    out.extend_from_slice(bytes.as_slice());
}

/// Appends a text with its length in front; `false`, and nothing appended,
/// where the text is too long for its length to be written.
pub fn push_text(out: &mut Vec<u8>, s: &str) -> (done: bool)
    ensures
        done == text_fits(s@),
        done ==> final(out)@ == old(out)@ + text_bytes(s@),
        !done ==> final(out)@ == old(out)@,
{
    let bytes = s.as_bytes();
    let n: usize = bytes.len();
    if n > 0xffff_ffff {
        return false;
    }
    let prefix = u32_to_le_bytes(n as u32);
    out.extend_from_slice(prefix.as_slice());
    out.extend_from_slice(bytes);
    assert(final(out)@ =~= old(out)@ + text_bytes(s@));
    true
}

/// `String::from_utf8` of std: the text that the bytes spell in UTF-8, and
/// `None` exactly where they are not well-formed UTF-8.
#[verifier::external_body]
pub(crate) fn text_from_utf8(bytes: Vec<u8>) -> (text: Option<String>)
    ensures
        text is Some <==> valid_utf8(bytes@),
        text is Some ==> text->0@ == decode_utf8(bytes@),
{
    String::from_utf8(bytes).ok()
}

} // verus!
