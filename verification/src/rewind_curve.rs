use vstd::prelude::*;
use vstd::arithmetic::div_mod::lemma_fundamental_div_mod;
use vstd::arithmetic::div_mod::lemma_mod_bound;
use vstd::arithmetic::mul::lemma_mul_inequality;
use crate::circular_buffer::CircularBuffer;
use crate::cursor::{
    lemma_read_bool_prefix, lemma_read_i32_prefix, ok_in_range, prefix_stable, read_boolean,
    read_i32, read_u32, spec_le_u32, spec_read_bool, spec_read_i32, step_for,
};
use crate::error::ReplayError;
use crate::quaternion::Quaternion;
use crate::rewind_curve_fitter::{
    RewindCurveFitter, RewindCurveFitterArray, RewindCurveFitterArrayV, RewindCurveFitterV,
};
use crate::rewind_curve_type::RewindCurveType;
use crate::vector2::Vector2;
use crate::vector3::Vector3;
use crate::wire::WireElem;

verus! {

/// The mathematical value of one decoded field payload: one case per member
/// of the closed tag set, scalar cases holding a fitter and array cases a
/// fitter array.
pub enum IRewindCurveV {
    Float(RewindCurveFitterV<u32>),
    Int(RewindCurveFitterV<i32>),
    Bool(RewindCurveFitterV<bool>),
    Vector2(RewindCurveFitterV<Vector2>),
    Vector3(RewindCurveFitterV<Vector3>),
    Quaternion(RewindCurveFitterV<Quaternion>),
    UShort(RewindCurveFitterV<u16>),
    UInt32(RewindCurveFitterV<u32>),
    UInt32Array(RewindCurveFitterArrayV<u32>),
    Int32Array(RewindCurveFitterArrayV<i32>),
}

impl IRewindCurveV {
    /// The tag that this payload's case carries.
    pub open spec fn tag(self) -> RewindCurveType {
        match self {
            IRewindCurveV::Float(_) => RewindCurveType::Float,
            IRewindCurveV::Int(_) => RewindCurveType::Int,
            IRewindCurveV::Bool(_) => RewindCurveType::Bool,
            IRewindCurveV::Vector2(_) => RewindCurveType::Vector2,
            IRewindCurveV::Vector3(_) => RewindCurveType::Vector3,
            IRewindCurveV::Quaternion(_) => RewindCurveType::Quaternion,
            IRewindCurveV::UShort(_) => RewindCurveType::UShort,
            IRewindCurveV::UInt32(_) => RewindCurveType::UInt32,
            IRewindCurveV::UInt32Array(_) => RewindCurveType::UInt32Array,
            IRewindCurveV::Int32Array(_) => RewindCurveType::Int32Array,
        }
    }
}

/// One decoded field payload: a tagged union with one case per member of the
/// closed tag set, in place of dynamic dispatch over boxed payloads.
#[derive(Debug, Clone, PartialEq)]
pub enum IRewindCurve {
    Float(RewindCurveFitter<u32>),
    Int(RewindCurveFitter<i32>),
    Bool(RewindCurveFitter<bool>),
    Vector2(RewindCurveFitter<Vector2>),
    Vector3(RewindCurveFitter<Vector3>),
    Quaternion(RewindCurveFitter<Quaternion>),
    UShort(RewindCurveFitter<u16>),
    UInt32(RewindCurveFitter<u32>),
    UInt32Array(RewindCurveFitterArray<u32>),
    Int32Array(RewindCurveFitterArray<i32>),
}

impl View for IRewindCurve {
    type V = IRewindCurveV;

    open spec fn view(&self) -> IRewindCurveV {
        match self {
            IRewindCurve::Float(f) => IRewindCurveV::Float(f@),
            IRewindCurve::Int(f) => IRewindCurveV::Int(f@),
            IRewindCurve::Bool(f) => IRewindCurveV::Bool(f@),
            IRewindCurve::Vector2(f) => IRewindCurveV::Vector2(f@),
            IRewindCurve::Vector3(f) => IRewindCurveV::Vector3(f@),
            IRewindCurve::Quaternion(f) => IRewindCurveV::Quaternion(f@),
            IRewindCurve::UShort(f) => IRewindCurveV::UShort(f@),
            IRewindCurve::UInt32(f) => IRewindCurveV::UInt32(f@),
            IRewindCurve::UInt32Array(a) => IRewindCurveV::UInt32Array(a@),
            IRewindCurve::Int32Array(a) => IRewindCurveV::Int32Array(a@),
        }
    }
}

impl IRewindCurve {
    /// The tag that this payload's case carries.
    pub fn curve_type(&self) -> (t: RewindCurveType)
        ensures
            t == self@.tag(),
    {
        match self {
            IRewindCurve::Float(_) => RewindCurveType::Float,
            IRewindCurve::Int(_) => RewindCurveType::Int,
            IRewindCurve::Bool(_) => RewindCurveType::Bool,
            IRewindCurve::Vector2(_) => RewindCurveType::Vector2,
            IRewindCurve::Vector3(_) => RewindCurveType::Vector3,
            IRewindCurve::Quaternion(_) => RewindCurveType::Quaternion,
            IRewindCurve::UShort(_) => RewindCurveType::UShort,
            IRewindCurve::UInt32(_) => RewindCurveType::UInt32,
            IRewindCurve::UInt32Array(_) => RewindCurveType::UInt32Array,
            IRewindCurve::Int32Array(_) => RewindCurveType::Int32Array,
        }
    }

    /// Narrows to the float case; any other case fails
    /// `MismatchedCurveTypes` naming the asked-for and the found tag.
    pub fn as_float(&self) -> (r: Result<&RewindCurveFitter<u32>, ReplayError>)
        ensures
            match r {
                Ok(f) => self@ == IRewindCurveV::Float(f@),
                Err(e) => self@.tag() != RewindCurveType::Float && e == (
                ReplayError::MismatchedCurveTypes {
                    expected: RewindCurveType::Float,
                    found: self@.tag(),
                }),
            },
    {
        match self {
            IRewindCurve::Float(f) => Ok(f),
            _ => Err(
                ReplayError::MismatchedCurveTypes {
                    expected: RewindCurveType::Float,
                    found: self.curve_type(),
                },
            ),
        }
    }

    /// Narrows to the signed-integer case.
    pub fn as_int(&self) -> (r: Result<&RewindCurveFitter<i32>, ReplayError>)
        ensures
            match r {
                Ok(f) => self@ == IRewindCurveV::Int(f@),
                Err(e) => self@.tag() != RewindCurveType::Int && e == (
                ReplayError::MismatchedCurveTypes {
                    expected: RewindCurveType::Int,
                    found: self@.tag(),
                }),
            },
    {
        match self {
            IRewindCurve::Int(f) => Ok(f),
            _ => Err(
                ReplayError::MismatchedCurveTypes {
                    expected: RewindCurveType::Int,
                    found: self.curve_type(),
                },
            ),
        }
    }

    /// Narrows to the boolean case.
    pub fn as_bool(&self) -> (r: Result<&RewindCurveFitter<bool>, ReplayError>)
        ensures
            match r {
                Ok(f) => self@ == IRewindCurveV::Bool(f@),
                Err(e) => self@.tag() != RewindCurveType::Bool && e == (
                ReplayError::MismatchedCurveTypes {
                    expected: RewindCurveType::Bool,
                    found: self@.tag(),
                }),
            },
    {
        match self {
            IRewindCurve::Bool(f) => Ok(f),
            _ => Err(
                ReplayError::MismatchedCurveTypes {
                    expected: RewindCurveType::Bool,
                    found: self.curve_type(),
                },
            ),
        }
    }

    /// Narrows to the two-component vector case.
    pub fn as_vector2(&self) -> (r: Result<&RewindCurveFitter<Vector2>, ReplayError>)
        ensures
            match r {
                Ok(f) => self@ == IRewindCurveV::Vector2(f@),
                Err(e) => self@.tag() != RewindCurveType::Vector2 && e == (
                ReplayError::MismatchedCurveTypes {
                    expected: RewindCurveType::Vector2,
                    found: self@.tag(),
                }),
            },
    {
        match self {
            IRewindCurve::Vector2(f) => Ok(f),
            _ => Err(
                ReplayError::MismatchedCurveTypes {
                    expected: RewindCurveType::Vector2,
                    found: self.curve_type(),
                },
            ),
        }
    }

    /// Narrows to the three-component vector case.
    pub fn as_vector3(&self) -> (r: Result<&RewindCurveFitter<Vector3>, ReplayError>)
        ensures
            match r {
                Ok(f) => self@ == IRewindCurveV::Vector3(f@),
                Err(e) => self@.tag() != RewindCurveType::Vector3 && e == (
                ReplayError::MismatchedCurveTypes {
                    expected: RewindCurveType::Vector3,
                    found: self@.tag(),
                }),
            },
    {
        match self {
            IRewindCurve::Vector3(f) => Ok(f),
            _ => Err(
                ReplayError::MismatchedCurveTypes {
                    expected: RewindCurveType::Vector3,
                    found: self.curve_type(),
                },
            ),
        }
    }

    /// Narrows to the quaternion case.
    pub fn as_quaternion(&self) -> (r: Result<&RewindCurveFitter<Quaternion>, ReplayError>)
        ensures
            match r {
                Ok(f) => self@ == IRewindCurveV::Quaternion(f@),
                Err(e) => self@.tag() != RewindCurveType::Quaternion && e == (
                ReplayError::MismatchedCurveTypes {
                    expected: RewindCurveType::Quaternion,
                    found: self@.tag(),
                }),
            },
    {
        match self {
            IRewindCurve::Quaternion(f) => Ok(f),
            _ => Err(
                ReplayError::MismatchedCurveTypes {
                    expected: RewindCurveType::Quaternion,
                    found: self.curve_type(),
                },
            ),
        }
    }

    /// Narrows to the unsigned 16-bit case.
    pub fn as_ushort(&self) -> (r: Result<&RewindCurveFitter<u16>, ReplayError>)
        ensures
            match r {
                Ok(f) => self@ == IRewindCurveV::UShort(f@),
                Err(e) => self@.tag() != RewindCurveType::UShort && e == (
                ReplayError::MismatchedCurveTypes {
                    expected: RewindCurveType::UShort,
                    found: self@.tag(),
                }),
            },
    {
        match self {
            IRewindCurve::UShort(f) => Ok(f),
            _ => Err(
                ReplayError::MismatchedCurveTypes {
                    expected: RewindCurveType::UShort,
                    found: self.curve_type(),
                },
            ),
        }
    }

    /// Narrows to the unsigned 32-bit case.
    pub fn as_uint32(&self) -> (r: Result<&RewindCurveFitter<u32>, ReplayError>)
        ensures
            match r {
                Ok(f) => self@ == IRewindCurveV::UInt32(f@),
                Err(e) => self@.tag() != RewindCurveType::UInt32 && e == (
                ReplayError::MismatchedCurveTypes {
                    expected: RewindCurveType::UInt32,
                    found: self@.tag(),
                }),
            },
    {
        match self {
            IRewindCurve::UInt32(f) => Ok(f),
            _ => Err(
                ReplayError::MismatchedCurveTypes {
                    expected: RewindCurveType::UInt32,
                    found: self.curve_type(),
                },
            ),
        }
    }

    /// Narrows to the unsigned 32-bit array case.
    pub fn as_uint32_array(&self) -> (r: Result<&RewindCurveFitterArray<u32>, ReplayError>)
        ensures
            match r {
                Ok(a) => self@ == IRewindCurveV::UInt32Array(a@),
                Err(e) => self@.tag() != RewindCurveType::UInt32Array && e == (
                ReplayError::MismatchedCurveTypes {
                    expected: RewindCurveType::UInt32Array,
                    found: self@.tag(),
                }),
            },
    {
        match self {
            IRewindCurve::UInt32Array(a) => Ok(a),
            _ => Err(
                ReplayError::MismatchedCurveTypes {
                    expected: RewindCurveType::UInt32Array,
                    found: self.curve_type(),
                },
            ),
        }
    }

    /// Narrows to the signed 32-bit array case.
    pub fn as_int32_array(&self) -> (r: Result<&RewindCurveFitterArray<i32>, ReplayError>)
        ensures
            match r {
                Ok(a) => self@ == IRewindCurveV::Int32Array(a@),
                Err(e) => self@.tag() != RewindCurveType::Int32Array && e == (
                ReplayError::MismatchedCurveTypes {
                    expected: RewindCurveType::Int32Array,
                    found: self@.tag(),
                }),
            },
    {
        match self {
            IRewindCurve::Int32Array(a) => Ok(a),
            _ => Err(
                ReplayError::MismatchedCurveTypes {
                    expected: RewindCurveType::Int32Array,
                    found: self.curve_type(),
                },
            ),
        }
    }

    pub open spec fn wf(&self) -> bool {
        match self {
            IRewindCurve::Float(f) => f.wf(),
            IRewindCurve::Int(f) => f.wf(),
            IRewindCurve::Bool(f) => f.wf(),
            IRewindCurve::Vector2(f) => f.wf(),
            IRewindCurve::Vector3(f) => f.wf(),
            IRewindCurve::Quaternion(f) => f.wf(),
            IRewindCurve::UShort(f) => f.wf(),
            IRewindCurve::UInt32(f) => f.wf(),
            IRewindCurve::UInt32Array(a) => a.wf(),
            IRewindCurve::Int32Array(a) => a.wf(),
        }
    }
}

/// `n` non-negative records of `w` bytes each fit into `a` bytes exactly
/// when `n` is at most `a / w`.
pub proof fn lemma_fits_iff_le_div(n: int, a: int, w: int)
    requires
        w > 0,
        0 <= a,
        0 <= n,
    ensures
        n <= a / w <==> n * w <= a,
        0 <= (a / w) * w <= a,
{
    lemma_fundamental_div_mod(a, w);
    lemma_mod_bound(a, w);
    vstd::arithmetic::div_mod::lemma_div_pos_is_pos(a, w);
    let q = a / w;
    assert(w * q == q * w) by (nonlinear_arith);
    if n <= q {
        lemma_mul_inequality(n, q, w);
    }
    if n > q {
        lemma_mul_inequality(q + 1, n, w);
        assert((q + 1) * w == q * w + w) by (nonlinear_arith);
    }
}

/// The mathematical value of a decoded sample curve: the fitter-level
/// interpolation flag read at the curve body's start, the timestamps as
/// 32-bit float bit patterns, and one decoded value record per timestamp.
pub struct RewindCurveV<T> {
    pub interpolated: bool,
    pub times: Seq<u32>,
    pub values: Seq<T>,
}

/// A time-stamped sample series for one field. Timestamps are the IEEE 754
/// bit patterns of the little-endian 32-bit floats read off the wire; the
/// two ring buffers were constructed with capacity equal to the declared
/// sample count and filled exactly to capacity.
#[derive(Debug, Clone, PartialEq)]
pub struct RewindCurve<T> {
    pub interpolated: bool,
    pub times: CircularBuffer<u32>,
    pub values: CircularBuffer<T>,
}

impl<T> View for RewindCurve<T> {
    type V = RewindCurveV<T>;

    open spec fn view(&self) -> RewindCurveV<T> {
        RewindCurveV { interpolated: self.interpolated, times: self.times@, values: self.values@ }
    }
}

impl<T> RewindCurve<T> {
    /// Both ring buffers are internally consistent, hold one entry per
    /// declared sample, and sit at exactly their capacity.
    pub open spec fn wf(&self) -> bool {
        &&& self.times.wf()
        &&& self.values.wf()
        &&& self.times@.len() == self.values@.len()
        &&& self.times.spec_capacity() == self.times@.len()
        &&& self.values.spec_capacity() == self.values@.len()
    }
}

/// Decoding one curve body at `pos`: a sample count (negative fails
/// `MalformedCount`), a strict boolean, the timestamps read four bytes at a
/// time (a short read fails at the offset of the first timestamp that cannot
/// be read whole), then all value records as one block (a short block fails
/// at the block's start).
pub open spec fn spec_read_curve<T: WireElem>(bytes: Seq<u8>, pos: int) -> Result<
    (RewindCurveV<T>, int),
    ReplayError,
> {
    match spec_read_i32(bytes, pos) {
        Err(e) => Err(e),
        Ok((count, p1)) => if count < 0 {
            Err(ReplayError::MalformedCount)
        } else {
            match spec_read_bool(bytes, p1) {
                Err(e) => Err(e),
                Ok((interpolated, p2)) => if count > (bytes.len() - p2) / 4 {
                    Err(ReplayError::UnexpectedEof((p2 + 4 * ((bytes.len() - p2) / 4)) as usize))
                } else {
                    let p3 = p2 + 4 * count;
                    let w = T::spec_width();
                    if count * w > bytes.len() - p3 {
                        Err(ReplayError::UnexpectedEof(p3 as usize))
                    } else {
                        Ok(
                            (
                                RewindCurveV {
                                    interpolated,
                                    times: Seq::new(
                                        count as nat,
                                        |i: int| spec_le_u32(
                                            bytes.subrange(p2 + 4 * i, p2 + 4 * i + 4),
                                        ),
                                    ),
                                    values: Seq::new(
                                        count as nat,
                                        |i: int| T::spec_decode(
                                            bytes.subrange(p3 + w * i, p3 + w * i + w),
                                        ),
                                    ),
                                },
                                p3 + count * w,
                            ),
                        )
                    }
                },
            }
        },
    }
}

/// Cutting the buffer behind a fully decoded curve body leaves the decode
/// unchanged; cutting into it leaves only an out-of-bytes failure.
pub proof fn lemma_read_curve_prefix<T: WireElem>(bytes: Seq<u8>, pos: int, m: int)
    requires
        0 <= pos <= m <= bytes.len(),
    ensures
        ok_in_range(spec_read_curve::<T>(bytes, pos), pos, bytes.len() as int),
        prefix_stable(spec_read_curve::<T>(bytes, pos), spec_read_curve::<T>(bytes.take(m), pos), m),
{
    lemma_read_i32_prefix(bytes, pos, m);
    T::lemma_width_bounds();
    let cutb = bytes.take(m);
    match spec_read_curve::<T>(bytes, pos) {
        Err(_) => {},
        Ok((curve, end)) => {
            let (count, p1) = spec_read_i32(bytes, pos)->Ok_0;
            let (interpolated, p2) = spec_read_bool(bytes, p1)->Ok_0;
            if p1 <= m {
                lemma_read_bool_prefix(bytes, p1, m);
            }
            let w = T::spec_width();
            let p3 = p2 + 4 * count;
            lemma_fits_iff_le_div(count as int, bytes.len() - p2, 4);
            lemma_fits_iff_le_div(count as int, bytes.len() - p3, w);
            assert(count * w >= 0) by (nonlinear_arith)
                requires count >= 0, w >= 1;
            if p1 <= m && p2 <= m {
                lemma_fits_iff_le_div(count as int, m - p2, 4);
                if p3 <= m {
                    lemma_fits_iff_le_div(count as int, m - p3, w);
                }
                if end <= m {
                    assert forall|i: int| 0 <= i < count implies #[trigger] cutb.subrange(
                        p2 + 4 * i,
                        p2 + 4 * i + 4,
                    ) == bytes.subrange(p2 + 4 * i, p2 + 4 * i + 4) by {
                        assert(cutb.subrange(p2 + 4 * i, p2 + 4 * i + 4) =~= bytes.subrange(
                            p2 + 4 * i,
                            p2 + 4 * i + 4,
                        ));
                    }
                    assert forall|i: int| 0 <= i < count implies #[trigger] cutb.subrange(
                        p3 + w * i,
                        p3 + w * i + w,
                    ) == bytes.subrange(p3 + w * i, p3 + w * i + w) by {
                        lemma_mul_inequality(i + 1, count as int, w);
                        assert((i + 1) * w == i * w + w) by (nonlinear_arith);
                        assert(w * i == i * w) by (nonlinear_arith);
                        assert(cutb.subrange(p3 + w * i, p3 + w * i + w) =~= bytes.subrange(
                            p3 + w * i,
                            p3 + w * i + w,
                        ));
                    }
                    let times_cut = Seq::new(
                        count as nat,
                        |i: int| spec_le_u32(cutb.subrange(p2 + 4 * i, p2 + 4 * i + 4)),
                    );
                    let times_full = Seq::new(
                        count as nat,
                        |i: int| spec_le_u32(bytes.subrange(p2 + 4 * i, p2 + 4 * i + 4)),
                    );
                    assert(times_cut =~= times_full);
                    let values_cut = Seq::new(
                        count as nat,
                        |i: int| T::spec_decode(cutb.subrange(p3 + w * i, p3 + w * i + w)),
                    );
                    let values_full = Seq::new(
                        count as nat,
                        |i: int| T::spec_decode(bytes.subrange(p3 + w * i, p3 + w * i + w)),
                    );
                    assert(values_cut =~= values_full);
                }
            }
        },
    }
}

impl<T: WireElem> RewindCurve<T> {
    /// Decodes one curve body beginning at `pos`, the tag already validated
    /// by the caller.
    pub fn read_from(bytes: &[u8], pos: usize) -> (r: Result<(RewindCurve<T>, usize), ReplayError>)
        requires
            pos <= bytes@.len(),
        ensures
            step_for(r, spec_read_curve::<T>(bytes@, pos as int)),
            r matches Ok((c, p)) ==> c.wf() && pos <= p <= bytes@.len(),
    {
        let len = bytes.len();
        let (count, p1) = match read_i32(bytes, pos) {
            Ok(v) => v,
            Err(e) => { return Err(e); },
        };
        if count < 0 {
            return Err(ReplayError::MalformedCount);
        }
        let (interpolated, p2) = match read_boolean(bytes, p1) {
            Ok(v) => v,
            Err(e) => { return Err(e); },
        };
        let count_us = count as usize;

        // timestamps: four bytes each
        let times_avail = (len - p2) / 4;
        proof {
            lemma_fits_iff_le_div(count as int, len as int - p2 as int, 4);
        }
        if count_us > times_avail {
            return Err(ReplayError::UnexpectedEof(p2 + 4 * times_avail));
        }
        let mut times: CircularBuffer<u32> = CircularBuffer::with_capacity(count_us);
        let mut i: usize = 0;
        while i < count_us
            invariant
                len == bytes@.len(),
                p2 + 4 * count_us <= len,
                i <= count_us,
                times.wf(),
                times.spec_capacity() == count_us,
                times@.len() == i,
                forall|j: int|
                    0 <= j < i ==> times@[j] == spec_le_u32(
                        #[trigger] bytes@.subrange(p2 + 4 * j, p2 + 4 * j + 4),
                    ),
            decreases count_us - i,
        {
            let t = match read_u32(bytes, p2 + 4 * i) {
                Ok((v, _)) => v,
                Err(_) => {
                    proof {
                        assert(false);
                    }
                    0
                },
            };
            times.push_back(t);
            i = i + 1;
        }

        // value records: one block of count * width bytes
        let w = T::width();
        proof {
            T::lemma_width_bounds();
        }
        let p3 = p2 + 4 * count_us;
        let values_avail = (len - p3) / w;
        proof {
            lemma_fits_iff_le_div(count as int, len as int - p3 as int, w as int);
        }
        if count_us > values_avail {
            return Err(ReplayError::UnexpectedEof(p3));
        }
        let mut values: CircularBuffer<T> = CircularBuffer::with_capacity(count_us);
        let mut i: usize = 0;
        while i < count_us
            invariant
                len == bytes@.len(),
                p3 + count_us * w <= len,
                w == T::spec_width(),
                1 <= w <= 16,
                i <= count_us,
                values.wf(),
                values.spec_capacity() == count_us,
                values@.len() == i,
                forall|j: int|
                    0 <= j < i ==> values@[j] == T::spec_decode(
                        #[trigger] bytes@.subrange(p3 + w * j, p3 + w * j + w),
                    ),
            decreases count_us - i,
        {
            proof {
                lemma_mul_inequality(i as int + 1, count_us as int, w as int);
                assert((i as int + 1) * (w as int) == i as int * (w as int) + w as int)
                    by (nonlinear_arith);
            }
            let v = T::decode_record(bytes, p3 + w * i);
            values.push_back(v);
            i = i + 1;
        }

        let curve = RewindCurve { interpolated, times, values };
        let end = p3 + w * count_us;
        proof {
            let spec_times = Seq::new(
                count as nat,
                |i: int| spec_le_u32(bytes@.subrange(p2 + 4 * i, p2 + 4 * i + 4)),
            );
            let spec_values = Seq::new(
                count as nat,
                |i: int| T::spec_decode(
                    bytes@.subrange(p3 + T::spec_width() * i, p3 + T::spec_width() * i
                        + T::spec_width()),
                ),
            );
            assert(curve@.times =~= spec_times);
            assert(curve@.values =~= spec_values);
        }
        Ok((curve, end))
    }
}

} // verus!
