use vstd::prelude::*;
use crate::cursor::{read_i32, read_u16, read_u32, spec_le_i32, spec_le_u16, spec_le_u32};
use crate::quaternion::Quaternion;
use crate::vector2::Vector2;
use crate::vector3::Vector3;

verus! {

/// A curve element type that the wire format stores as fixed-width records:
/// `spec_decode` is the value one record denotes, field by field, little-
/// endian, and `decode_record` computes exactly that value.
pub trait WireElem: Sized {
    /// Width in bytes of one value record of this type.
    spec fn spec_width() -> int;

    /// The value that one record of `Self::spec_width()` bytes denotes.
    spec fn spec_decode(rec: Seq<u8>) -> Self;

    /// Every record width is positive and at most a quaternion's.
    proof fn lemma_width_bounds()
        ensures
            1 <= Self::spec_width() <= 16,
    ;

    /// Width in bytes of one value record of this type.
    fn width() -> (w: usize)
        ensures
            w as int == Self::spec_width(),
    ;

    /// Decodes the record that begins at `pos`.
    fn decode_record(bytes: &[u8], pos: usize) -> (r: Self)
        requires
            pos + Self::spec_width() <= bytes@.len(),
        ensures
            r == Self::spec_decode(
                bytes@.subrange(pos as int, pos as int + Self::spec_width()),
            ),
    ;
}

impl WireElem for u32 {
    open spec fn spec_width() -> int {
        4
    }

    open spec fn spec_decode(rec: Seq<u8>) -> u32 {
        spec_le_u32(rec)
    }

    proof fn lemma_width_bounds() {
    }

    fn width() -> usize {
        4
    }

    fn decode_record(bytes: &[u8], pos: usize) -> (r: u32) {
        let r = match read_u32(bytes, pos) {
            Ok((v, _)) => v,
            Err(_) => {
                proof {
                    assert(false);  // the caller supplies enough bytes
                }
                0
            },
        };
        r
    }
}

impl WireElem for i32 {
    open spec fn spec_width() -> int {
        4
    }

    open spec fn spec_decode(rec: Seq<u8>) -> i32 {
        spec_le_i32(rec)
    }

    proof fn lemma_width_bounds() {
    }

    fn width() -> usize {
        4
    }

    fn decode_record(bytes: &[u8], pos: usize) -> (r: i32) {
        let r = match read_i32(bytes, pos) {
            Ok((v, _)) => v,
            Err(_) => {
                proof {
                    assert(false);  // the caller supplies enough bytes
                }
                0
            },
        };
        r
    }
}

impl WireElem for u16 {
    open spec fn spec_width() -> int {
        2
    }

    open spec fn spec_decode(rec: Seq<u8>) -> u16 {
        spec_le_u16(rec)
    }

    proof fn lemma_width_bounds() {
    }

    fn width() -> usize {
        2
    }

    fn decode_record(bytes: &[u8], pos: usize) -> (r: u16) {
        let r = match read_u16(bytes, pos) {
            Ok((v, _)) => v,
            Err(_) => {
                proof {
                    assert(false);  // the caller supplies enough bytes
                }
                0
            },
        };
        r
    }
}

impl WireElem for bool {
    open spec fn spec_width() -> int {
        1
    }

    open spec fn spec_decode(rec: Seq<u8>) -> bool {
        rec[0] != 0
    }

    proof fn lemma_width_bounds() {
    }

    fn width() -> usize {
        1
    }

    fn decode_record(bytes: &[u8], pos: usize) -> (r: bool) {
        bytes[pos] != 0
    }
}

impl WireElem for Vector2 {
    open spec fn spec_width() -> int {
        8
    }

    open spec fn spec_decode(rec: Seq<u8>) -> Vector2 {
        Vector2 { x: spec_le_u32(rec.subrange(0, 4)), y: spec_le_u32(rec.subrange(4, 8)) }
    }

    proof fn lemma_width_bounds() {
    }

    fn width() -> usize {
        8
    }

    fn decode_record(bytes: &[u8], pos: usize) -> (r: Vector2) {
        proof {
            assert(<Vector2 as WireElem>::spec_width() == 8);
            assert(bytes.len() == bytes@.len());
        }
        let x = u32::decode_record(bytes, pos);
        let y = u32::decode_record(bytes, pos + 4);
        proof {
            let rec = bytes@.subrange(pos as int, pos as int + 8);
            assert(rec.subrange(0, 4) =~= bytes@.subrange(pos as int, pos as int + 4));
            assert(rec.subrange(4, 8) =~= bytes@.subrange(pos as int + 4, pos as int + 8));
        }
        Vector2 { x, y }
    }
}

impl WireElem for Vector3 {
    open spec fn spec_width() -> int {
        12
    }

    open spec fn spec_decode(rec: Seq<u8>) -> Vector3 {
        Vector3 {
            x: spec_le_u32(rec.subrange(0, 4)),
            y: spec_le_u32(rec.subrange(4, 8)),
            z: spec_le_u32(rec.subrange(8, 12)),
        }
    }

    proof fn lemma_width_bounds() {
    }

    fn width() -> usize {
        12
    }

    fn decode_record(bytes: &[u8], pos: usize) -> (r: Vector3) {
        proof {
            assert(<Vector3 as WireElem>::spec_width() == 12);
            assert(bytes.len() == bytes@.len());
        }
        let x = u32::decode_record(bytes, pos);
        let y = u32::decode_record(bytes, pos + 4);
        let z = u32::decode_record(bytes, pos + 8);
        proof {
            let rec = bytes@.subrange(pos as int, pos as int + 12);
            assert(rec.subrange(0, 4) =~= bytes@.subrange(pos as int, pos as int + 4));
            assert(rec.subrange(4, 8) =~= bytes@.subrange(pos as int + 4, pos as int + 8));
            assert(rec.subrange(8, 12) =~= bytes@.subrange(pos as int + 8, pos as int + 12));
        }
        Vector3 { x, y, z }
    }
}

impl WireElem for Quaternion {
    open spec fn spec_width() -> int {
        16
    }

    open spec fn spec_decode(rec: Seq<u8>) -> Quaternion {
        Quaternion {
            x: spec_le_u32(rec.subrange(0, 4)),
            y: spec_le_u32(rec.subrange(4, 8)),
            z: spec_le_u32(rec.subrange(8, 12)),
            w: spec_le_u32(rec.subrange(12, 16)),
        }
    }

    proof fn lemma_width_bounds() {
    }

    fn width() -> usize {
        16
    }

    fn decode_record(bytes: &[u8], pos: usize) -> (r: Quaternion) {
        proof {
            assert(<Quaternion as WireElem>::spec_width() == 16);
            assert(bytes.len() == bytes@.len());
        }
        let x = u32::decode_record(bytes, pos);
        let y = u32::decode_record(bytes, pos + 4);
        let z = u32::decode_record(bytes, pos + 8);
        let w = u32::decode_record(bytes, pos + 12);
        proof {
            let rec = bytes@.subrange(pos as int, pos as int + 16);
            assert(rec.subrange(0, 4) =~= bytes@.subrange(pos as int, pos as int + 4));
            assert(rec.subrange(4, 8) =~= bytes@.subrange(pos as int + 4, pos as int + 8));
            assert(rec.subrange(8, 12) =~= bytes@.subrange(pos as int + 8, pos as int + 12));
            assert(rec.subrange(12, 16) =~= bytes@.subrange(pos as int + 12, pos as int + 16));
        }
        Quaternion { x, y, z, w }
    }
}

} // verus!
