use vstd::prelude::*;
use vstd::utf8::{decode_utf8, valid_utf8};
use crate::error::ReplayError;

verus! {

/// Agreement between one executable decode step and its specification: the
/// same success or failure, the same value (up to its view) and the same new
/// cursor position.
pub open spec fn step_for<E: View>(
    r: Result<(E, usize), ReplayError>,
    s: Result<(E::V, int), ReplayError>,
) -> bool {
    match (r, s) {
        (Ok((v, p)), Ok((w, q))) => v@ == w && p as int == q,
        (Err(e), Err(f)) => e == f,
        _ => false,
    }
}

/// Agreement between one executable decode step returning a vector of items
/// and its specification, the items compared by their views.
pub open spec fn step_for_seq<E: View>(
    r: Result<(Vec<E>, usize), ReplayError>,
    s: Result<(Seq<E::V>, int), ReplayError>,
) -> bool {
    match (r, s) {
        (Ok((v, p)), Ok((w, q))) => v@.map_values(|e: E| e@) == w && p as int == q,
        (Err(e), Err(f)) => e == f,
        _ => false,
    }
}

/// Prefixing a successful decode of a sequence of items with items already
/// decoded; a failure stays the same failure.
pub open spec fn prepend_decoded<V>(
    prefix: Seq<V>,
    r: Result<(Seq<V>, int), ReplayError>,
) -> Result<(Seq<V>, int), ReplayError> {
    match r {
        Err(e) => Err(e),
        Ok((s, p)) => Ok((prefix + s, p)),
    }
}

/// True when a decode step failed for want of bytes.
pub open spec fn is_eof<V>(r: Result<(V, int), ReplayError>) -> bool {
    r matches Err(e) && e matches ReplayError::UnexpectedEof(_)
}

/// How a decode step behaves when the buffer is cut to `m` bytes: content
/// the full decode never consumed may go without changing the result, while
/// a cut into consumed content leaves only an out-of-bytes failure.
pub open spec fn prefix_stable<V>(
    full: Result<(V, int), ReplayError>,
    cut: Result<(V, int), ReplayError>,
    m: int,
) -> bool {
    full matches Ok((v, p)) ==> if p <= m {
        cut == full
    } else {
        is_eof(cut)
    }
}

/// A decode step that succeeds ends between its start and the buffer's end.
pub open spec fn ok_in_range<V>(r: Result<(V, int), ReplayError>, pos: int, len: int) -> bool {
    r matches Ok((v, p)) ==> pos <= p <= len
}

/// The unsigned value of two little-endian bytes.
pub open spec fn spec_le_u16(s: Seq<u8>) -> u16
    recommends
        s.len() == 2,
{
    (s[0] + s[1] * 0x100) as u16
}

/// The unsigned value of four little-endian bytes.
pub open spec fn spec_le_u32(s: Seq<u8>) -> u32
    recommends
        s.len() == 4,
{
    (s[0] + s[1] * 0x100 + s[2] * 0x10000 + s[3] * 0x1000000) as u32
}

/// The two's-complement signed reading of a 32-bit value.
pub open spec fn spec_i32_reading(u: u32) -> int {
    if u < 0x8000_0000 {
        u as int
    } else {
        u - 0x1_0000_0000
    }
}

/// The signed value of four little-endian bytes.
pub open spec fn spec_le_i32(s: Seq<u8>) -> i32
    recommends
        s.len() == 4,
{
    spec_i32_reading(spec_le_u32(s)) as i32
}

/// Reading four little-endian bytes as an unsigned 32-bit value at `pos`;
/// a short read fails `UnexpectedEof` at the read's start.
pub open spec fn spec_read_u32(bytes: Seq<u8>, pos: int) -> Result<(u32, int), ReplayError> {
    if pos + 4 <= bytes.len() {
        Ok((spec_le_u32(bytes.subrange(pos, pos + 4)), pos + 4))
    } else {
        Err(ReplayError::UnexpectedEof(pos as usize))
    }
}

/// Reading four little-endian bytes as a signed 32-bit value at `pos`.
pub open spec fn spec_read_i32(bytes: Seq<u8>, pos: int) -> Result<(i32, int), ReplayError> {
    match spec_read_u32(bytes, pos) {
        Ok((u, p)) => Ok((spec_i32_reading(u) as i32, p)),
        Err(e) => Err(e),
    }
}

/// Reading two little-endian bytes as an unsigned 16-bit value at `pos`.
pub open spec fn spec_read_u16(bytes: Seq<u8>, pos: int) -> Result<(u16, int), ReplayError> {
    if pos + 2 <= bytes.len() {
        Ok((spec_le_u16(bytes.subrange(pos, pos + 2)), pos + 2))
    } else {
        Err(ReplayError::UnexpectedEof(pos as usize))
    }
}

/// Reading one byte as a boolean at `pos`: the byte must be exactly 0 or 1,
/// anything else fails `InvalidBoolEncoding`.
pub open spec fn spec_read_bool(bytes: Seq<u8>, pos: int) -> Result<(bool, int), ReplayError> {
    if pos + 1 <= bytes.len() {
        if bytes[pos] == 0 {
            Ok((false, pos + 1))
        } else if bytes[pos] == 1 {
            Ok((true, pos + 1))
        } else {
            Err(ReplayError::InvalidBoolEncoding)
        }
    } else {
        Err(ReplayError::UnexpectedEof(pos as usize))
    }
}

/// Reading a length-prefixed UTF-8 string at `pos`: a signed 4-byte length,
/// then that many bytes of character data. A negative length fails
/// `MalformedCount`; bytes that are not UTF-8 fail `InvalidStringEncoding`.
pub open spec fn spec_read_string(bytes: Seq<u8>, pos: int) -> Result<
    (Seq<char>, int),
    ReplayError,
> {
    match spec_read_i32(bytes, pos) {
        Err(e) => Err(e),
        Ok((n, p)) => if n < 0 {
            Err(ReplayError::MalformedCount)
        } else if p + n > bytes.len() {
            Err(ReplayError::UnexpectedEof(p as usize))
        } else {
            let data = bytes.subrange(p, p + n);
            if valid_utf8(data) {
                Ok((decode_utf8(data), p + n))
            } else {
                Err(ReplayError::InvalidStringEncoding)
            }
        },
    }
}

/// Cutting the buffer behind an unsigned 32-bit read leaves it unchanged;
/// cutting into it leaves only an out-of-bytes failure.
pub proof fn lemma_read_u32_prefix(bytes: Seq<u8>, pos: int, m: int)
    requires
        0 <= pos <= m <= bytes.len(),
    ensures
        ok_in_range(spec_read_u32(bytes, pos), pos, bytes.len() as int),
        prefix_stable(spec_read_u32(bytes, pos), spec_read_u32(bytes.take(m), pos), m),
{
    if pos + 4 <= m {
        assert(bytes.take(m).subrange(pos, pos + 4) =~= bytes.subrange(pos, pos + 4));
    }
}

/// As for the unsigned read, for the signed 32-bit read.
pub proof fn lemma_read_i32_prefix(bytes: Seq<u8>, pos: int, m: int)
    requires
        0 <= pos <= m <= bytes.len(),
    ensures
        ok_in_range(spec_read_i32(bytes, pos), pos, bytes.len() as int),
        prefix_stable(spec_read_i32(bytes, pos), spec_read_i32(bytes.take(m), pos), m),
{
    lemma_read_u32_prefix(bytes, pos, m);
}

/// As for the unsigned 32-bit read, for the boolean read.
pub proof fn lemma_read_bool_prefix(bytes: Seq<u8>, pos: int, m: int)
    requires
        0 <= pos <= m <= bytes.len(),
    ensures
        ok_in_range(spec_read_bool(bytes, pos), pos, bytes.len() as int),
        prefix_stable(spec_read_bool(bytes, pos), spec_read_bool(bytes.take(m), pos), m),
{
}

/// As for the unsigned 32-bit read, for the string read.
pub proof fn lemma_read_string_prefix(bytes: Seq<u8>, pos: int, m: int)
    requires
        0 <= pos <= m <= bytes.len(),
    ensures
        ok_in_range(spec_read_string(bytes, pos), pos, bytes.len() as int),
        prefix_stable(spec_read_string(bytes, pos), spec_read_string(bytes.take(m), pos), m),
{
    lemma_read_i32_prefix(bytes, pos, m);
    match spec_read_string(bytes, pos) {
        Ok((chars, end)) => {
            let (n, p) = spec_read_i32(bytes, pos)->Ok_0;
            if end <= m {
                assert(bytes.take(m).subrange(p, p + n) =~= bytes.subrange(p, p + n));
            }
        },
        Err(_) => {},
    }
}

/// Reads four little-endian bytes as an unsigned 32-bit value.
pub(crate) fn read_u32(bytes: &[u8], pos: usize) -> (r: Result<(u32, usize), ReplayError>)
    requires
        pos <= bytes@.len(),
    ensures
        step_for(r, spec_read_u32(bytes@, pos as int)),
{
    if bytes.len() - pos >= 4 {
        let b0 = bytes[pos] as u32;
        let b1 = bytes[pos + 1] as u32;
        let b2 = bytes[pos + 2] as u32;
        let b3 = bytes[pos + 3] as u32;
        let v = b0 + b1 * 0x100 + b2 * 0x10000 + b3 * 0x1000000;
        proof {
            let s = bytes@.subrange(pos as int, pos as int + 4);
            assert(s[0] == bytes@[pos as int]);
            assert(s[1] == bytes@[pos as int + 1]);
            assert(s[2] == bytes@[pos as int + 2]);
            assert(s[3] == bytes@[pos as int + 3]);
        }
        Ok((v, pos + 4))
    } else {
        Err(ReplayError::UnexpectedEof(pos))
    }
}

/// Reads four little-endian bytes as a signed 32-bit value.
pub(crate) fn read_i32(bytes: &[u8], pos: usize) -> (r: Result<(i32, usize), ReplayError>)
    requires
        pos <= bytes@.len(),
    ensures
        step_for(r, spec_read_i32(bytes@, pos as int)),
{
    match read_u32(bytes, pos) {
        Ok((u, p)) => {
            let v: i32 = if u < 0x8000_0000 {
                u as i32
            } else {
                ((u as i64) - 0x1_0000_0000i64) as i32
            };
            Ok((v, p))
        },
        Err(e) => Err(e),
    }
}

/// Reads two little-endian bytes as an unsigned 16-bit value.
pub(crate) fn read_u16(bytes: &[u8], pos: usize) -> (r: Result<(u16, usize), ReplayError>)
    requires
        pos <= bytes@.len(),
    ensures
        step_for(r, spec_read_u16(bytes@, pos as int)),
{
    if bytes.len() - pos >= 2 {
        let b0 = bytes[pos] as u16;
        let b1 = bytes[pos + 1] as u16;
        proof {
            let s = bytes@.subrange(pos as int, pos as int + 2);
            assert(s[0] == bytes@[pos as int]);
            assert(s[1] == bytes@[pos as int + 1]);
        }
        Ok((b0 + b1 * 0x100, pos + 2))
    } else {
        Err(ReplayError::UnexpectedEof(pos))
    }
}

/// Reads one byte as a boolean, accepting exactly 0 and 1.
pub(crate) fn read_boolean(bytes: &[u8], pos: usize) -> (r: Result<(bool, usize), ReplayError>)
    requires
        pos <= bytes@.len(),
    ensures
        step_for(r, spec_read_bool(bytes@, pos as int)),
{
    if bytes.len() - pos >= 1 {
        let b = bytes[pos];
        if b == 0 {
            Ok((false, pos + 1))
        } else if b == 1 {
            Ok((true, pos + 1))
        } else {
            Err(ReplayError::InvalidBoolEncoding)
        }
    } else {
        Err(ReplayError::UnexpectedEof(pos))
    }
}

/// Relies on `String::from_utf8`: it succeeds exactly on valid UTF-8 input
/// and yields the character sequence that the bytes encode, per the UTF-8
/// scheme that `vstd::utf8` specifies.
#[verifier::external_body]
fn utf8_to_string(bytes: &[u8]) -> (r: Option<String>)
    ensures
        r is Some <==> valid_utf8(bytes@),
        r matches Some(s) ==> s@ == decode_utf8(bytes@),
{
    String::from_utf8(bytes.to_vec()).ok()
}

/// Reads a length-prefixed UTF-8 string: a signed 4-byte length, then that
/// many bytes of character data.
pub(crate) fn read_string(bytes: &[u8], pos: usize) -> (r: Result<(String, usize), ReplayError>)
    requires
        pos <= bytes@.len(),
    ensures
        step_for(r, spec_read_string(bytes@, pos as int)),
{
    let (n, p) = match read_i32(bytes, pos) {
        Ok(v) => v,
        Err(e) => { return Err(e); },
    };
    if n < 0 {
        return Err(ReplayError::MalformedCount);
    }
    let count = n as usize;
    if count > bytes.len() - p {
        return Err(ReplayError::UnexpectedEof(p));
    }
    let data = &bytes[p..p + count];
    match utf8_to_string(data) {
        Some(s) => Ok((s, p + count)),
        None => Err(ReplayError::InvalidStringEncoding),
    }
}

} // verus!
