use vstd::prelude::*;
use crate::cursor::{ok_in_range, prefix_stable, step_for};
use crate::error::ReplayError;
use crate::quaternion::Quaternion;
use crate::rewind_curve::{IRewindCurve, IRewindCurveV};
use crate::rewind_curve_fitter::{
    lemma_read_fitter_array_prefix, lemma_read_fitter_prefix, spec_read_fitter,
    spec_read_fitter_array, RewindCurveFitter, RewindCurveFitterArray,
};
use crate::vector2::Vector2;
use crate::vector3::Vector3;

verus! {

/// Closed set of type tags that a replay stream may attach to a curve.
#[derive(Debug, Clone, Copy, PartialEq, Eq, Structural)]
pub enum RewindCurveType {
    Unknown,
    Float,
    Int,
    Bool,
    Vector2,
    Vector3,
    Quaternion,
    UShort,
    UInt32,
    UInt32Array,
    Int32Array,
}

impl RewindCurveType {
    /// The raw wire value standing for this tag: `Unknown` is -1, the rest
    /// are numbered upward from 0 in declaration order.
    pub open spec fn spec_raw(self) -> int {
        match self {
            RewindCurveType::Unknown => -1,
            RewindCurveType::Float => 0,
            RewindCurveType::Int => 1,
            RewindCurveType::Bool => 2,
            RewindCurveType::Vector2 => 3,
            RewindCurveType::Vector3 => 4,
            RewindCurveType::Quaternion => 5,
            RewindCurveType::UShort => 6,
            RewindCurveType::UInt32 => 7,
            RewindCurveType::UInt32Array => 8,
            RewindCurveType::Int32Array => 9,
        }
    }

    /// Checked mapping from a raw wire value to a tag: the inverse of
    /// [`Self::spec_raw`] where one exists, and `UnknownCurveType` elsewhere.
    pub open spec fn spec_from_i32(raw: i32) -> Result<RewindCurveType, ReplayError> {
        if raw == -1 {
            Ok(RewindCurveType::Unknown)
        } else if raw == 0 {
            Ok(RewindCurveType::Float)
        } else if raw == 1 {
            Ok(RewindCurveType::Int)
        } else if raw == 2 {
            Ok(RewindCurveType::Bool)
        } else if raw == 3 {
            Ok(RewindCurveType::Vector2)
        } else if raw == 4 {
            Ok(RewindCurveType::Vector3)
        } else if raw == 5 {
            Ok(RewindCurveType::Quaternion)
        } else if raw == 6 {
            Ok(RewindCurveType::UShort)
        } else if raw == 7 {
            Ok(RewindCurveType::UInt32)
        } else if raw == 8 {
            Ok(RewindCurveType::UInt32Array)
        } else if raw == 9 {
            Ok(RewindCurveType::Int32Array)
        } else {
            Err(ReplayError::UnknownCurveType)
        }
    }

    /// Creates a [`RewindCurveType`] from a raw [`i32`] read off the wire,
    /// rejecting every value outside the closed tag set.
    pub fn from_i32(raw: i32) -> (r: Result<RewindCurveType, ReplayError>)
        ensures
            r == Self::spec_from_i32(raw),
            r matches Ok(t) ==> t.spec_raw() == raw as int,
    {
        match raw {
            -1 => Ok(RewindCurveType::Unknown),
            0 => Ok(RewindCurveType::Float),
            1 => Ok(RewindCurveType::Int),
            2 => Ok(RewindCurveType::Bool),
            3 => Ok(RewindCurveType::Vector2),
            4 => Ok(RewindCurveType::Vector3),
            5 => Ok(RewindCurveType::Quaternion),
            6 => Ok(RewindCurveType::UShort),
            7 => Ok(RewindCurveType::UInt32),
            8 => Ok(RewindCurveType::UInt32Array),
            9 => Ok(RewindCurveType::Int32Array),
            _ => Err(ReplayError::UnknownCurveType),
        }
    }

    /// The width in bytes of one raw value record carrying this tag.
    /// The array tags and `Unknown` have no direct width.
    pub open spec fn spec_size(self) -> Option<usize> {
        match self {
            RewindCurveType::Unknown => None,
            RewindCurveType::Float => Some(4usize),
            RewindCurveType::Int => Some(4usize),
            RewindCurveType::Bool => Some(1usize),
            RewindCurveType::Vector2 => Some(8usize),
            RewindCurveType::Vector3 => Some(12usize),
            RewindCurveType::Quaternion => Some(16usize),
            RewindCurveType::UShort => Some(2usize),
            RewindCurveType::UInt32 => Some(4usize),
            RewindCurveType::UInt32Array => None,
            RewindCurveType::Int32Array => None,
        }
    }

    /// Returns the byte width of one value record of this tag, or `None`
    /// for the tags that have no direct width.
    pub fn size(&self) -> (r: Option<usize>)
        ensures
            r == self.spec_size(),
    {
        match self {
            RewindCurveType::Float => Some(4),
            RewindCurveType::Int => Some(4),
            RewindCurveType::Bool => Some(1),
            RewindCurveType::Vector2 => Some(8),
            RewindCurveType::Vector3 => Some(12),
            RewindCurveType::Quaternion => Some(16),
            RewindCurveType::UShort => Some(2),
            RewindCurveType::UInt32 => Some(4),
            _ => None,
        }
    }

    /// The element tag that an array tag's entries carry.
    pub open spec fn spec_element_type(self) -> Result<RewindCurveType, ReplayError> {
        match self {
            RewindCurveType::UInt32Array => Ok(RewindCurveType::UInt32),
            RewindCurveType::Int32Array => Ok(RewindCurveType::Int),
            _ => Err(ReplayError::NotAnArrayType),
        }
    }

    /// Returns the matching item tag for an array tag, and `NotAnArrayType`
    /// for every tag that is not an array.
    pub fn get_curve_type_for_array_type(&self) -> (r: Result<RewindCurveType, ReplayError>)
        ensures
            r == self.spec_element_type(),
    {
        match self {
            RewindCurveType::UInt32Array => Ok(RewindCurveType::UInt32),
            RewindCurveType::Int32Array => Ok(RewindCurveType::Int),
            _ => Err(ReplayError::NotAnArrayType),
        }
    }
}

/// Decoding the field payload that `tag` names, at `pos`: one fitter (or,
/// for the array tags, one fitter array) decoded against `tag` itself as the
/// expected tag. `Unknown` names no payload and fails `UnknownCurveType`.
pub open spec fn spec_read_variant(bytes: Seq<u8>, pos: int, tag: RewindCurveType) -> Result<
    (IRewindCurveV, int),
    ReplayError,
> {
    match tag {
        RewindCurveType::Unknown => Err(ReplayError::UnknownCurveType),
        RewindCurveType::Float => match spec_read_fitter::<u32>(bytes, pos, tag) {
            Err(e) => Err(e),
            Ok((f, p)) => Ok((IRewindCurveV::Float(f), p)),
        },
        RewindCurveType::Int => match spec_read_fitter::<i32>(bytes, pos, tag) {
            Err(e) => Err(e),
            Ok((f, p)) => Ok((IRewindCurveV::Int(f), p)),
        },
        RewindCurveType::Bool => match spec_read_fitter::<bool>(bytes, pos, tag) {
            Err(e) => Err(e),
            Ok((f, p)) => Ok((IRewindCurveV::Bool(f), p)),
        },
        RewindCurveType::Vector2 => match spec_read_fitter::<Vector2>(bytes, pos, tag) {
            Err(e) => Err(e),
            Ok((f, p)) => Ok((IRewindCurveV::Vector2(f), p)),
        },
        RewindCurveType::Vector3 => match spec_read_fitter::<Vector3>(bytes, pos, tag) {
            Err(e) => Err(e),
            Ok((f, p)) => Ok((IRewindCurveV::Vector3(f), p)),
        },
        RewindCurveType::Quaternion => match spec_read_fitter::<Quaternion>(bytes, pos, tag) {
            Err(e) => Err(e),
            Ok((f, p)) => Ok((IRewindCurveV::Quaternion(f), p)),
        },
        RewindCurveType::UShort => match spec_read_fitter::<u16>(bytes, pos, tag) {
            Err(e) => Err(e),
            Ok((f, p)) => Ok((IRewindCurveV::UShort(f), p)),
        },
        RewindCurveType::UInt32 => match spec_read_fitter::<u32>(bytes, pos, tag) {
            Err(e) => Err(e),
            Ok((f, p)) => Ok((IRewindCurveV::UInt32(f), p)),
        },
        RewindCurveType::UInt32Array => match spec_read_fitter_array::<u32>(bytes, pos, tag) {
            Err(e) => Err(e),
            Ok((a, p)) => Ok((IRewindCurveV::UInt32Array(a), p)),
        },
        RewindCurveType::Int32Array => match spec_read_fitter_array::<i32>(bytes, pos, tag) {
            Err(e) => Err(e),
            Ok((a, p)) => Ok((IRewindCurveV::Int32Array(a), p)),
        },
    }
}

/// Cutting the buffer behind a fully decoded field payload leaves the
/// decode unchanged; cutting into it leaves only an out-of-bytes failure.
pub proof fn lemma_read_variant_prefix(bytes: Seq<u8>, pos: int, m: int, tag: RewindCurveType)
    requires
        0 <= pos <= m <= bytes.len(),
    ensures
        ok_in_range(spec_read_variant(bytes, pos, tag), pos, bytes.len() as int),
        prefix_stable(
            spec_read_variant(bytes, pos, tag),
            spec_read_variant(bytes.take(m), pos, tag),
            m,
        ),
{
    match tag {
        RewindCurveType::Unknown => {},
        RewindCurveType::Float => lemma_read_fitter_prefix::<u32>(bytes, pos, m, tag),
        RewindCurveType::Int => lemma_read_fitter_prefix::<i32>(bytes, pos, m, tag),
        RewindCurveType::Bool => lemma_read_fitter_prefix::<bool>(bytes, pos, m, tag),
        RewindCurveType::Vector2 => lemma_read_fitter_prefix::<Vector2>(bytes, pos, m, tag),
        RewindCurveType::Vector3 => lemma_read_fitter_prefix::<Vector3>(bytes, pos, m, tag),
        RewindCurveType::Quaternion => lemma_read_fitter_prefix::<Quaternion>(bytes, pos, m, tag),
        RewindCurveType::UShort => lemma_read_fitter_prefix::<u16>(bytes, pos, m, tag),
        RewindCurveType::UInt32 => lemma_read_fitter_prefix::<u32>(bytes, pos, m, tag),
        RewindCurveType::UInt32Array => lemma_read_fitter_array_prefix::<u32>(bytes, pos, m, tag),
        RewindCurveType::Int32Array => lemma_read_fitter_array_prefix::<i32>(bytes, pos, m, tag),
    }
}

impl RewindCurveType {
    /// Decodes the field payload that this tag names, dispatching to the
    /// matching fitter (or fitter array) decode with this tag itself as the
    /// expected tag.
    pub fn read_from(&self, bytes: &[u8], pos: usize) -> (r: Result<
        (IRewindCurve, usize),
        ReplayError,
    >)
        requires
            pos <= bytes@.len(),
        ensures
            step_for(r, spec_read_variant(bytes@, pos as int, *self)),
            r matches Ok((c, p)) ==> c.wf() && pos <= p <= bytes@.len() && c@.tag() == *self,
    {
        match self {
            RewindCurveType::Unknown => Err(ReplayError::UnknownCurveType),
            RewindCurveType::Float => match RewindCurveFitter::<u32>::read_from(
                bytes,
                pos,
                RewindCurveType::Float,
            ) {
                Ok((f, p)) => Ok((IRewindCurve::Float(f), p)),
                Err(e) => Err(e),
            },
            RewindCurveType::Int => match RewindCurveFitter::<i32>::read_from(
                bytes,
                pos,
                RewindCurveType::Int,
            ) {
                Ok((f, p)) => Ok((IRewindCurve::Int(f), p)),
                Err(e) => Err(e),
            },
            RewindCurveType::Bool => match RewindCurveFitter::<bool>::read_from(
                bytes,
                pos,
                RewindCurveType::Bool,
            ) {
                Ok((f, p)) => Ok((IRewindCurve::Bool(f), p)),
                Err(e) => Err(e),
            },
            RewindCurveType::Vector2 => match RewindCurveFitter::<Vector2>::read_from(
                bytes,
                pos,
                RewindCurveType::Vector2,
            ) {
                Ok((f, p)) => Ok((IRewindCurve::Vector2(f), p)),
                Err(e) => Err(e),
            },
            RewindCurveType::Vector3 => match RewindCurveFitter::<Vector3>::read_from(
                bytes,
                pos,
                RewindCurveType::Vector3,
            ) {
                Ok((f, p)) => Ok((IRewindCurve::Vector3(f), p)),
                Err(e) => Err(e),
            },
            RewindCurveType::Quaternion => match RewindCurveFitter::<Quaternion>::read_from(
                bytes,
                pos,
                RewindCurveType::Quaternion,
            ) {
                Ok((f, p)) => Ok((IRewindCurve::Quaternion(f), p)),
                Err(e) => Err(e),
            },
            RewindCurveType::UShort => match RewindCurveFitter::<u16>::read_from(
                bytes,
                pos,
                RewindCurveType::UShort,
            ) {
                Ok((f, p)) => Ok((IRewindCurve::UShort(f), p)),
                Err(e) => Err(e),
            },
            RewindCurveType::UInt32 => match RewindCurveFitter::<u32>::read_from(
                bytes,
                pos,
                RewindCurveType::UInt32,
            ) {
                Ok((f, p)) => Ok((IRewindCurve::UInt32(f), p)),
                Err(e) => Err(e),
            },
            RewindCurveType::UInt32Array => match RewindCurveFitterArray::<u32>::read_from(
                bytes,
                pos,
                RewindCurveType::UInt32Array,
            ) {
                Ok((a, p)) => Ok((IRewindCurve::UInt32Array(a), p)),
                Err(e) => Err(e),
            },
            RewindCurveType::Int32Array => match RewindCurveFitterArray::<i32>::read_from(
                bytes,
                pos,
                RewindCurveType::Int32Array,
            ) {
                Ok((a, p)) => Ok((IRewindCurve::Int32Array(a), p)),
                Err(e) => Err(e),
            },
        }
    }
}

/// Width consistency: a three-component vector record is exactly three float
/// records wide and a quaternion record exactly four, while the array tags
/// expose no direct byte width of their own.
pub proof fn lemma_width_consistency()
    ensures
        RewindCurveType::Float.spec_size() matches Some(f)
            && RewindCurveType::Vector3.spec_size() matches Some(v) && v == 3 * f,
        RewindCurveType::Float.spec_size() matches Some(f)
            && RewindCurveType::Quaternion.spec_size() matches Some(q) && q == 4 * f,
        RewindCurveType::UInt32Array.spec_size() is None,
        RewindCurveType::Int32Array.spec_size() is None,
{
}

} // verus!
