//! Moving single values of the SCALE wire encoding from an input cursor to an
//! output buffer.
//!
//! Integers of fixed width and booleans are read here, byte by byte. Compact
//! integers and strings are read and written by `parity_scale_codec`; the
//! functions that call it are the only ones in this file whose contracts are
//! taken on trust, and each says so.

use crate::error::DecodeError;
use parity_scale_codec::{Compact, Decode, Encode};
use vstd::prelude::*;
use vstd::slice::slice_subrange;
use vstd::utf8::encode_utf8;

verus! {

#[verifier::external_type_specification]
#[verifier::external_body]
pub struct ExCodecError(parity_scale_codec::Error);

/// What is left of the input after one value was read from its front, and
/// the bytes that were written for that value.
pub struct Walked {
    /// The input that follows the value.
    pub rest: Seq<u8>,
    /// The bytes that the value is written as.
    pub out: Seq<u8>,
}

/// `after` is `before` without its first `n` bytes.
pub open spec fn consumed(before: Seq<u8>, after: Seq<u8>, n: nat) -> bool {
    n <= before.len() && after == before.skip(n as int)
}

/// A call that returned `r` did to the cursor and to the buffer what
/// `expected` says: on success the cursor stands at `expected.rest` and the
/// buffer grew by `expected.out`; on failure the error is the expected one.
pub open spec fn walked_as(
    r: Result<(), DecodeError>,
    input_after: Seq<u8>,
    output_before: Seq<u8>,
    output_after: Seq<u8>,
    expected: Result<Walked, DecodeError>,
) -> bool {
    match r {
        Ok(()) => expected matches Ok(w) && input_after == w.rest && output_after == output_before
            + w.out,
        Err(e) => expected == Err::<Walked, DecodeError>(e),
    }
}

/// The value of four bytes read as a little-endian integer.
pub open spec fn le_u32(b: Seq<u8>) -> int
    recommends
        b.len() >= 4,
{
    b[0] as int + b[1] as int * 0x100 + b[2] as int * 0x1_0000 + b[3] as int * 0x100_0000
}

/// What `Compact::<u8>::decode` makes of `input`: the value and the number of
/// bytes it read, or `None` where it rejects the input.
pub uninterp spec fn compact_u8_decoded(input: Seq<u8>) -> Option<(u8, nat)>;

/// What `Compact::<u16>::decode` makes of `input`: the value and the number
/// of bytes it read, or `None` where it rejects the input.
pub uninterp spec fn compact_u16_decoded(input: Seq<u8>) -> Option<(u16, nat)>;

/// What `Compact::<u32>::decode` makes of `input`: the value and the number
/// of bytes it read, or `None` where it rejects the input.
pub uninterp spec fn compact_u32_decoded(input: Seq<u8>) -> Option<(u32, nat)>;

/// What `Compact::<u64>::decode` makes of `input`: the value and the number
/// of bytes it read, or `None` where it rejects the input.
pub uninterp spec fn compact_u64_decoded(input: Seq<u8>) -> Option<(u64, nat)>;

/// What `Compact::<u128>::decode` makes of `input`: the value and the number
/// of bytes it read, or `None` where it rejects the input.
pub uninterp spec fn compact_u128_decoded(input: Seq<u8>) -> Option<(u128, nat)>;

/// What `String::decode` makes of `input`: the text and the number of bytes
/// it read, or `None` where it rejects the input.
pub uninterp spec fn str_decoded(input: Seq<u8>) -> Option<(Seq<char>, nat)>;

/// What `Vec::<u8>::decode` makes of `input`: the bytes and the number of
/// bytes it read, or `None` where it rejects the input.
pub uninterp spec fn byte_vec_decoded(input: Seq<u8>) -> Option<(Seq<u8>, nat)>;

/// The bytes that `Compact::<u8>::encode_to` writes for `value`.
pub uninterp spec fn compact_u8_encoded(value: u8) -> Seq<u8>;

/// The bytes that `Compact::<u16>::encode_to` writes for `value`.
pub uninterp spec fn compact_u16_encoded(value: u16) -> Seq<u8>;

/// The bytes that `Compact::<u32>::encode_to` writes for `value`.
pub uninterp spec fn compact_u32_encoded(value: u32) -> Seq<u8>;

/// The bytes that `Compact::<u64>::encode_to` writes for `value`.
pub uninterp spec fn compact_u64_encoded(value: u64) -> Seq<u8>;

/// The bytes that `Compact::<u128>::encode_to` writes for `value`.
pub uninterp spec fn compact_u128_encoded(value: u128) -> Seq<u8>;

/// The bytes that `str::encode_to` writes for `text`.
pub uninterp spec fn str_encoded(text: Seq<char>) -> Seq<u8>;

/// Calls `<Compact<u8> as Decode>::decode` on the cursor. Trusted: the value
/// and the number of bytes read depend on the bytes under the cursor alone,
/// and on success the cursor has moved past exactly the bytes read.
#[verifier::external_body]
pub(crate) fn decode_compact_u8(input: &mut &[u8]) -> (r: Result<u8, parity_scale_codec::Error>)
    ensures
        match r {
            Ok(v) => compact_u8_decoded(old(input)@) matches Some((w, n)) && w == v && consumed(
                old(input)@,
                final(input)@,
                n,
            ),
            Err(_) => compact_u8_decoded(old(input)@) is None,
        },
{
    match Compact::<u8>::decode(input) {
        Ok(c) => Ok(c.0),
        Err(e) => Err(e),
    }
}

/// Calls `<Compact<u16> as Decode>::decode` on the cursor. Trusted: the value
/// and the number of bytes read depend on the bytes under the cursor alone,
/// and on success the cursor has moved past exactly the bytes read.
#[verifier::external_body]
pub(crate) fn decode_compact_u16(input: &mut &[u8]) -> (r: Result<u16, parity_scale_codec::Error>)
    ensures
        match r {
            Ok(v) => compact_u16_decoded(old(input)@) matches Some((w, n)) && w == v && consumed(
                old(input)@,
                final(input)@,
                n,
            ),
            Err(_) => compact_u16_decoded(old(input)@) is None,
        },
{
    match Compact::<u16>::decode(input) {
        Ok(c) => Ok(c.0),
        Err(e) => Err(e),
    }
}

/// Calls `<Compact<u32> as Decode>::decode` on the cursor. Trusted: the value
/// and the number of bytes read depend on the bytes under the cursor alone,
/// and on success the cursor has moved past exactly the bytes read.
#[verifier::external_body]
pub(crate) fn decode_compact_u32(input: &mut &[u8]) -> (r: Result<u32, parity_scale_codec::Error>)
    ensures
        match r {
            Ok(v) => compact_u32_decoded(old(input)@) matches Some((w, n)) && w == v && consumed(
                old(input)@,
                final(input)@,
                n,
            ),
            Err(_) => compact_u32_decoded(old(input)@) is None,
        },
{
    match Compact::<u32>::decode(input) {
        Ok(c) => Ok(c.0),
        Err(e) => Err(e),
    }
}

/// Calls `<Compact<u64> as Decode>::decode` on the cursor. Trusted: the value
/// and the number of bytes read depend on the bytes under the cursor alone,
/// and on success the cursor has moved past exactly the bytes read.
#[verifier::external_body]
pub(crate) fn decode_compact_u64(input: &mut &[u8]) -> (r: Result<u64, parity_scale_codec::Error>)
    ensures
        match r {
            Ok(v) => compact_u64_decoded(old(input)@) matches Some((w, n)) && w == v && consumed(
                old(input)@,
                final(input)@,
                n,
            ),
            Err(_) => compact_u64_decoded(old(input)@) is None,
        },
{
    match Compact::<u64>::decode(input) {
        Ok(c) => Ok(c.0),
        Err(e) => Err(e),
    }
}

/// Calls `<Compact<u128> as Decode>::decode` on the cursor. Trusted: the
/// value and the number of bytes read depend on the bytes under the cursor
/// alone, and on success the cursor has moved past exactly the bytes read.
#[verifier::external_body]
pub(crate) fn decode_compact_u128(input: &mut &[u8]) -> (r: Result<
    u128,
    parity_scale_codec::Error,
>)
    ensures
        match r {
            Ok(v) => compact_u128_decoded(old(input)@) matches Some((w, n)) && w == v && consumed(
                old(input)@,
                final(input)@,
                n,
            ),
            Err(_) => compact_u128_decoded(old(input)@) is None,
        },
{
    match Compact::<u128>::decode(input) {
        Ok(c) => Ok(c.0),
        Err(e) => Err(e),
    }
}

/// Calls `<String as Decode>::decode` on the cursor. Trusted: the text and
/// the number of bytes read depend on the bytes under the cursor alone, and
/// on success the cursor has moved past exactly the bytes read.
#[verifier::external_body]
pub(crate) fn decode_str(input: &mut &[u8]) -> (r: Result<String, parity_scale_codec::Error>)
    ensures
        match r {
            Ok(s) => str_decoded(old(input)@) matches Some((t, n)) && t == s@ && consumed(
                old(input)@,
                final(input)@,
                n,
            ),
            Err(_) => str_decoded(old(input)@) is None,
        },
{
    String::decode(input)
}

/// Calls `<Vec<u8> as Decode>::decode` on the cursor. Trusted: the bytes and
/// the number of bytes read depend on the bytes under the cursor alone, and
/// on success the cursor has moved past exactly the bytes read.
#[verifier::external_body]
pub(crate) fn decode_byte_vec(input: &mut &[u8]) -> (r: Result<Vec<u8>, parity_scale_codec::Error>)
    ensures
        match r {
            Ok(v) => byte_vec_decoded(old(input)@) matches Some((w, n)) && w == v@ && consumed(
                old(input)@,
                final(input)@,
                n,
            ),
            Err(_) => byte_vec_decoded(old(input)@) is None,
        },
{
    Vec::<u8>::decode(input)
}

/// Calls `Encode::encode_to` on `Compact(value)`. Trusted: the buffer grows
/// at its end, by bytes that depend on `value` alone.
#[verifier::external_body]
pub(crate) fn encode_compact_u8(value: u8, output: &mut Vec<u8>)
    ensures
        final(output)@ == old(output)@ + compact_u8_encoded(value),
{
    Compact(value).encode_to(output)
}

/// Calls `Encode::encode_to` on `Compact(value)`. Trusted: the buffer grows
/// at its end, by bytes that depend on `value` alone.
#[verifier::external_body]
pub(crate) fn encode_compact_u16(value: u16, output: &mut Vec<u8>)
    ensures
        final(output)@ == old(output)@ + compact_u16_encoded(value),
{
    Compact(value).encode_to(output)
}

/// Calls `Encode::encode_to` on `Compact(value)`. Trusted: the buffer grows
/// at its end, by bytes that depend on `value` alone.
#[verifier::external_body]
pub(crate) fn encode_compact_u32(value: u32, output: &mut Vec<u8>)
    ensures
        final(output)@ == old(output)@ + compact_u32_encoded(value),
{
    Compact(value).encode_to(output)
}

/// Calls `Encode::encode_to` on `Compact(value)`. Trusted: the buffer grows
/// at its end, by bytes that depend on `value` alone.
#[verifier::external_body]
pub(crate) fn encode_compact_u64(value: u64, output: &mut Vec<u8>)
    ensures
        final(output)@ == old(output)@ + compact_u64_encoded(value),
{
    Compact(value).encode_to(output)
}

/// Calls `Encode::encode_to` on `Compact(value)`. Trusted: the buffer grows
/// at its end, by bytes that depend on `value` alone.
#[verifier::external_body]
pub(crate) fn encode_compact_u128(value: u128, output: &mut Vec<u8>)
    ensures
        final(output)@ == old(output)@ + compact_u128_encoded(value),
{
    Compact(value).encode_to(output)
}

/// Calls `<str as Encode>::encode_to`, which panics on a text of more than
/// `u32::MAX` bytes. Trusted: on any shorter text the buffer grows at its
/// end, by bytes that depend on the text alone.
#[verifier::external_body]
pub(crate) fn encode_str(text: &str, output: &mut Vec<u8>)
    requires
        encode_utf8(text@).len() as usize <= u32::MAX,
    ensures
        final(output)@ == old(output)@ + str_encoded(text@),
{
    text.encode_to(output)
}

/// Reading one byte.
pub open spec fn byte_read(input: Seq<u8>) -> Result<(u8, Seq<u8>), DecodeError> {
    if input.len() >= 1 {
        Ok((input[0], input.skip(1)))
    } else {
        Err(DecodeError::Codec)
    }
}

/// Reading a `u32` of four little-endian bytes.
pub open spec fn u32_read(input: Seq<u8>) -> Result<(u32, Seq<u8>), DecodeError> {
    if input.len() >= 4 {
        Ok((le_u32(input) as u32, input.skip(4)))
    } else {
        Err(DecodeError::Codec)
    }
}

/// Reading a compact length or count.
pub open spec fn count_read(input: Seq<u8>) -> Result<(u32, Seq<u8>), DecodeError> {
    match compact_u32_decoded(input) {
        Some((v, n)) => Ok((v, input.skip(n as int))),
        None => Err(DecodeError::Codec),
    }
}

/// Moving `n` bytes as they are.
pub open spec fn bytes_walked(input: Seq<u8>, n: nat) -> Result<Walked, DecodeError> {
    if input.len() >= n {
        Ok(Walked { rest: input.skip(n as int), out: input.take(n as int) })
    } else {
        Err(DecodeError::Codec)
    }
}

/// Moving a boolean: one byte, which is 0 or 1.
pub open spec fn bool_walked(input: Seq<u8>) -> Result<Walked, DecodeError> {
    if input.len() >= 1 && input[0] <= 1 {
        Ok(Walked { rest: input.skip(1), out: input.take(1) })
    } else {
        Err(DecodeError::Codec)
    }
}

/// Moving a string: what the codec decodes is encoded again.
pub open spec fn str_walked(input: Seq<u8>) -> Result<Walked, DecodeError> {
    match str_decoded(input) {
        Some((text, n)) => if encode_utf8(text).len() as usize <= u32::MAX {
            Ok(Walked { rest: input.skip(n as int), out: str_encoded(text) })
        } else {
            Err(DecodeError::Codec)
        },
        None => Err(DecodeError::Codec),
    }
}

/// Moving a compact `u8`: what the codec decodes is encoded again.
pub open spec fn compact_u8_walked(input: Seq<u8>) -> Result<Walked, DecodeError> {
    match compact_u8_decoded(input) {
        Some((v, n)) => Ok(Walked { rest: input.skip(n as int), out: compact_u8_encoded(v) }),
        None => Err(DecodeError::Codec),
    }
}

/// Moving a compact `u16`: what the codec decodes is encoded again.
pub open spec fn compact_u16_walked(input: Seq<u8>) -> Result<Walked, DecodeError> {
    match compact_u16_decoded(input) {
        Some((v, n)) => Ok(Walked { rest: input.skip(n as int), out: compact_u16_encoded(v) }),
        None => Err(DecodeError::Codec),
    }
}

/// Moving a compact `u32`: what the codec decodes is encoded again.
pub open spec fn compact_u32_walked(input: Seq<u8>) -> Result<Walked, DecodeError> {
    match compact_u32_decoded(input) {
        Some((v, n)) => Ok(Walked { rest: input.skip(n as int), out: compact_u32_encoded(v) }),
        None => Err(DecodeError::Codec),
    }
}

/// Moving a compact `u64`: what the codec decodes is encoded again.
pub open spec fn compact_u64_walked(input: Seq<u8>) -> Result<Walked, DecodeError> {
    match compact_u64_decoded(input) {
        Some((v, n)) => Ok(Walked { rest: input.skip(n as int), out: compact_u64_encoded(v) }),
        None => Err(DecodeError::Codec),
    }
}

/// Moving a compact `u128`: what the codec decodes is encoded again.
pub open spec fn compact_u128_walked(input: Seq<u8>) -> Result<Walked, DecodeError> {
    match compact_u128_decoded(input) {
        Some((v, n)) => Ok(Walked { rest: input.skip(n as int), out: compact_u128_encoded(v) }),
        None => Err(DecodeError::Codec),
    }
}

/// Reads one byte and moves the cursor past it.
pub fn read_byte(input: &mut &[u8]) -> (r: Result<u8, DecodeError>)
    ensures
        match r {
            Ok(b) => byte_read(old(input)@) == Ok::<(u8, Seq<u8>), DecodeError>((b, final(input)@)),
            Err(e) => byte_read(old(input)@) == Err::<(u8, Seq<u8>), DecodeError>(e) && final(input)@
                == old(input)@,
        },
{
    if input.len() < 1 {
        return Err(DecodeError::Codec);
    }
    let b = input[0];
    *input = slice_subrange(*input, 1, input.len());
    Ok(b)
}

/// Reads a `u32` of four little-endian bytes and moves the cursor past them.
pub fn read_u32(input: &mut &[u8]) -> (r: Result<u32, DecodeError>)
    ensures
        match r {
            Ok(v) => u32_read(old(input)@) == Ok::<(u32, Seq<u8>), DecodeError>((v, final(input)@)),
            Err(e) => u32_read(old(input)@) == Err::<(u32, Seq<u8>), DecodeError>(e) && final(input)@
                == old(input)@,
        },
{
    if input.len() < 4 {
        return Err(DecodeError::Codec);
    }
    let v: u32 = input[0] as u32 + input[1] as u32 * 0x100 + input[2] as u32 * 0x1_0000 + input[3] as u32
        * 0x100_0000;
    *input = slice_subrange(*input, 4, input.len());
    Ok(v)
}

/// Reads a compact length or count and moves the cursor past it.
pub fn read_count(input: &mut &[u8]) -> (r: Result<u32, DecodeError>)
    ensures
        match r {
            Ok(v) => count_read(old(input)@) == Ok::<(u32, Seq<u8>), DecodeError>((v, final(input)@)),
            Err(e) => count_read(old(input)@) == Err::<(u32, Seq<u8>), DecodeError>(e),
        },
{
    match decode_compact_u32(input) {
        Ok(v) => Ok(v),
        Err(_) => Err(DecodeError::Codec),
    }
}

/// Moves `n` bytes from the cursor to the end of the buffer. Fails, and
/// changes nothing, where fewer than `n` bytes are left.
pub fn copy_bytes(input: &mut &[u8], n: usize, output: &mut Vec<u8>) -> (r: Result<(), DecodeError>)
    ensures
        walked_as(
            r,
            final(input)@,
            old(output)@,
            final(output)@,
            bytes_walked(old(input)@, n as nat),
        ),
        r is Err ==> final(input)@ == old(input)@ && final(output)@ == old(output)@,
{
    if input.len() < n {
        return Err(DecodeError::Codec);
    }
    let ghost before = output@;
    let head = slice_subrange(*input, 0, n);
    output.extend_from_slice(head);
    assert(output@ =~= before + head@);
    *input = slice_subrange(*input, n, input.len());
    Ok(())
}

/// Moves a boolean from the cursor to the end of the buffer.
pub fn copy_bool(input: &mut &[u8], output: &mut Vec<u8>) -> (r: Result<(), DecodeError>)
    ensures
        walked_as(r, final(input)@, old(output)@, final(output)@, bool_walked(old(input)@)),
{
    if input.len() < 1 || input[0] > 1 {
        return Err(DecodeError::Codec);
    }
    copy_bytes(input, 1, output)
}

/// Moves a string from the cursor to the end of the buffer.
pub fn copy_str(input: &mut &[u8], output: &mut Vec<u8>) -> (r: Result<(), DecodeError>)
    ensures
        walked_as(r, final(input)@, old(output)@, final(output)@, str_walked(old(input)@)),
{
    match decode_str(input) {
        Ok(text) => {
            if text.as_str().len() > u32::MAX as usize {
                return Err(DecodeError::Codec);
            }
            encode_str(text.as_str(), output);
            Ok(())
        },
        Err(_) => Err(DecodeError::Codec),
    }
}

/// Moves a compact `u8` from the cursor to the end of the buffer.
pub fn copy_compact_u8(input: &mut &[u8], output: &mut Vec<u8>) -> (r: Result<(), DecodeError>)
    ensures
        walked_as(r, final(input)@, old(output)@, final(output)@, compact_u8_walked(old(input)@)),
{
    match decode_compact_u8(input) {
        Ok(v) => {
            encode_compact_u8(v, output);
            Ok(())
        },
        Err(_) => Err(DecodeError::Codec),
    }
}

/// Moves a compact `u16` from the cursor to the end of the buffer.
pub fn copy_compact_u16(input: &mut &[u8], output: &mut Vec<u8>) -> (r: Result<(), DecodeError>)
    ensures
        walked_as(r, final(input)@, old(output)@, final(output)@, compact_u16_walked(old(input)@)),
{
    match decode_compact_u16(input) {
        Ok(v) => {
            encode_compact_u16(v, output);
            Ok(())
        },
        Err(_) => Err(DecodeError::Codec),
    }
}

/// Moves a compact `u32` from the cursor to the end of the buffer.
pub fn copy_compact_u32(input: &mut &[u8], output: &mut Vec<u8>) -> (r: Result<(), DecodeError>)
    ensures
        walked_as(r, final(input)@, old(output)@, final(output)@, compact_u32_walked(old(input)@)),
{
    match decode_compact_u32(input) {
        Ok(v) => {
            encode_compact_u32(v, output);
            Ok(())
        },
        Err(_) => Err(DecodeError::Codec),
    }
}

/// Moves a compact `u64` from the cursor to the end of the buffer.
pub fn copy_compact_u64(input: &mut &[u8], output: &mut Vec<u8>) -> (r: Result<(), DecodeError>)
    ensures
        walked_as(r, final(input)@, old(output)@, final(output)@, compact_u64_walked(old(input)@)),
{
    match decode_compact_u64(input) {
        Ok(v) => {
            encode_compact_u64(v, output);
            Ok(())
        },
        Err(_) => Err(DecodeError::Codec),
    }
}

/// Moves a compact `u128` from the cursor to the end of the buffer.
pub fn copy_compact_u128(input: &mut &[u8], output: &mut Vec<u8>) -> (r: Result<(), DecodeError>)
    ensures
        walked_as(
            r,
            final(input)@,
            old(output)@,
            final(output)@,
            compact_u128_walked(old(input)@),
        ),
{
    match decode_compact_u128(input) {
        Ok(v) => {
            encode_compact_u128(v, output);
            Ok(())
        },
        Err(_) => Err(DecodeError::Codec),
    }
}

} // verus!
