use vstd::prelude::*;
use crate::cursor::{
    lemma_read_bool_prefix, lemma_read_i32_prefix, ok_in_range, prefix_stable, prepend_decoded,
    read_boolean, read_i32, spec_read_bool, spec_read_i32, step_for,
};
use crate::error::ReplayError;
use crate::rewind_curve::{lemma_read_curve_prefix, spec_read_curve, RewindCurve, RewindCurveV};
use crate::rewind_curve_type::RewindCurveType;
use crate::wire::WireElem;

verus! {

/// The mathematical value of a decoded curve fitter: the fitter-level
/// interpolation flag (authoritative for consumers, distinct from the flag
/// inside the curve body) and the curve itself.
pub struct RewindCurveFitterV<T> {
    pub interpolated: bool,
    pub curve: RewindCurveV<T>,
}

/// A validated wrapper around one curve: its declared type tag was checked
/// against the tag the caller expected before the curve was decoded.
#[derive(Debug, Clone, PartialEq)]
pub struct RewindCurveFitter<T> {
    pub interpolated: bool,
    pub curve: RewindCurve<T>,
}

impl<T> View for RewindCurveFitter<T> {
    type V = RewindCurveFitterV<T>;

    open spec fn view(&self) -> RewindCurveFitterV<T> {
        RewindCurveFitterV { interpolated: self.interpolated, curve: self.curve@ }
    }
}

impl<T> RewindCurveFitter<T> {
    pub open spec fn wf(&self) -> bool {
        self.curve.wf()
    }
}

/// Decoding one fitter at `pos` against the tag the caller expects: the tag
/// is re-read from the stream and checked — a tag outside the closed set
/// fails `UnknownCurveType`, a tag different from `expected` fails
/// `MismatchedCurveTypes` — then the fitter-level flag and the curve body.
pub open spec fn spec_read_fitter<T: WireElem>(
    bytes: Seq<u8>,
    pos: int,
    expected: RewindCurveType,
) -> Result<(RewindCurveFitterV<T>, int), ReplayError> {
    match spec_read_i32(bytes, pos) {
        Err(e) => Err(e),
        Ok((raw, p1)) => match RewindCurveType::spec_from_i32(raw) {
            Err(e) => Err(e),
            Ok(found) => if found != expected {
                Err(ReplayError::MismatchedCurveTypes { expected, found })
            } else {
                match spec_read_bool(bytes, p1) {
                    Err(e) => Err(e),
                    Ok((interpolated, p2)) => match spec_read_curve::<T>(bytes, p2) {
                        Err(e) => Err(e),
                        Ok((curve, p3)) => Ok((RewindCurveFitterV { interpolated, curve }, p3)),
                    },
                }
            },
        },
    }
}

/// Tag round-trip: a fitter decode succeeds only when the tag read from the
/// stream names exactly the caller-supplied expected tag, and a stream whose
/// tag decodes to a different member of the closed set fails
/// `MismatchedCurveTypes` naming both tags.
pub proof fn lemma_fitter_tag_round_trip<T: WireElem>(
    bytes: Seq<u8>,
    pos: int,
    expected: RewindCurveType,
)
    ensures
        spec_read_fitter::<T>(bytes, pos, expected) is Ok ==> (match spec_read_i32(bytes, pos) {
            Ok((raw, _)) => RewindCurveType::spec_from_i32(raw) == Ok::<
                RewindCurveType,
                ReplayError,
            >(expected),
            Err(_) => false,
        }),
        (match spec_read_i32(bytes, pos) {
            Ok((raw, _)) => match RewindCurveType::spec_from_i32(raw) {
                Ok(found) => found != expected ==> spec_read_fitter::<T>(bytes, pos, expected)
                    == Err::<(RewindCurveFitterV<T>, int), ReplayError>(
                    ReplayError::MismatchedCurveTypes { expected, found },
                ),
                Err(_) => true,
            },
            Err(_) => true,
        }),
{
}

/// The mathematical value of a decoded fitter array: the array-level flag,
/// the declared element count, and the elements, each carrying the array's
/// flag in place of its own.
pub struct RewindCurveFitterArrayV<T> {
    pub interpolated: bool,
    pub count: i32,
    pub curves: Seq<RewindCurveFitterV<T>>,
}

/// A validated wrapper around a sequence of fitters sharing one element tag.
#[derive(Debug, Clone, PartialEq)]
pub struct RewindCurveFitterArray<T> {
    pub interpolated: bool,
    pub count: i32,
    pub curves: Vec<RewindCurveFitter<T>>,
}

impl<T> View for RewindCurveFitterArray<T> {
    type V = RewindCurveFitterArrayV<T>;

    open spec fn view(&self) -> RewindCurveFitterArrayV<T> {
        RewindCurveFitterArrayV {
            interpolated: self.interpolated,
            count: self.count,
            curves: self.curves@.map_values(|c: RewindCurveFitter<T>| c@),
        }
    }
}

impl<T> RewindCurveFitterArray<T> {
    pub open spec fn wf(&self) -> bool {
        &&& forall|i: int| 0 <= i < self.curves@.len() ==> (#[trigger] self.curves@[i]).wf()
        &&& self.count == self.curves@.len()
    }
}

/// Decoding `n` consecutive fitters at `pos`, each against the element tag
/// `elem_tag`, and overriding every element's own interpolation flag with
/// the array-level `flag`.
pub open spec fn spec_read_fitter_seq<T: WireElem>(
    bytes: Seq<u8>,
    pos: int,
    elem_tag: RewindCurveType,
    flag: bool,
    n: nat,
) -> Result<(Seq<RewindCurveFitterV<T>>, int), ReplayError>
    decreases n,
{
    if n == 0 {
        Ok((Seq::empty(), pos))
    } else {
        match spec_read_fitter::<T>(bytes, pos, elem_tag) {
            Err(e) => Err(e),
            Ok((f, p)) => prepend_decoded(
                seq![RewindCurveFitterV { interpolated: flag, curve: f.curve }],
                spec_read_fitter_seq::<T>(bytes, p, elem_tag, flag, (n - 1) as nat),
            ),
        }
    }
}

/// Decoding one fitter array at `pos` against the expected array tag: the
/// tag is re-read and checked as for a fitter, then the array-level flag,
/// the element count (negative fails `MalformedCount`), and that many
/// fitters against the array tag's element tag.
pub open spec fn spec_read_fitter_array<T: WireElem>(
    bytes: Seq<u8>,
    pos: int,
    expected: RewindCurveType,
) -> Result<(RewindCurveFitterArrayV<T>, int), ReplayError> {
    match spec_read_i32(bytes, pos) {
        Err(e) => Err(e),
        Ok((raw, p1)) => match RewindCurveType::spec_from_i32(raw) {
            Err(e) => Err(e),
            Ok(found) => if found != expected {
                Err(ReplayError::MismatchedCurveTypes { expected, found })
            } else {
                match spec_read_bool(bytes, p1) {
                    Err(e) => Err(e),
                    Ok((interpolated, p2)) => match spec_read_i32(bytes, p2) {
                        Err(e) => Err(e),
                        Ok((count, p3)) => if count < 0 {
                            Err(ReplayError::MalformedCount)
                        } else {
                            match found.spec_element_type() {
                                Err(e) => Err(e),
                                Ok(elem_tag) => match spec_read_fitter_seq::<T>(
                                    bytes,
                                    p3,
                                    elem_tag,
                                    interpolated,
                                    count as nat,
                                ) {
                                    Err(e) => Err(e),
                                    Ok((curves, p4)) => Ok(
                                        (
                                            RewindCurveFitterArrayV { interpolated, count, curves },
                                            p4,
                                        ),
                                    ),
                                },
                            }
                        },
                    },
                }
            },
        },
    }
}

impl<T: WireElem> RewindCurveFitterArray<T> {
    /// Decodes one fitter array beginning at `pos`, checking the stream's
    /// tag against `expected`, then decoding the declared number of element
    /// fitters against the matching element tag.
    #[verifier::loop_isolation(false)]
    pub fn read_from(bytes: &[u8], pos: usize, expected: RewindCurveType) -> (r: Result<
        (RewindCurveFitterArray<T>, usize),
        ReplayError,
    >)
        requires
            pos <= bytes@.len(),
        ensures
            step_for(r, spec_read_fitter_array::<T>(bytes@, pos as int, expected)),
            r matches Ok((a, p)) ==> a.wf() && pos <= p <= bytes@.len(),
    {
        let (raw, p1) = match read_i32(bytes, pos) {
            Ok(v) => v,
            Err(e) => { return Err(e); },
        };
        let found = match RewindCurveType::from_i32(raw) {
            Ok(t) => t,
            Err(e) => { return Err(e); },
        };
        if found != expected {
            return Err(ReplayError::MismatchedCurveTypes { expected, found });
        }
        let (interpolated, p2) = match read_boolean(bytes, p1) {
            Ok(v) => v,
            Err(e) => { return Err(e); },
        };
        let (count, p3) = match read_i32(bytes, p2) {
            Ok(v) => v,
            Err(e) => { return Err(e); },
        };
        if count < 0 {
            return Err(ReplayError::MalformedCount);
        }
        let elem_tag = match found.get_curve_type_for_array_type() {
            Ok(t) => t,
            Err(e) => { return Err(e); },
        };
        let count_us = count as usize;
        let mut curves: Vec<RewindCurveFitter<T>> = Vec::new();
        let mut cur: usize = p3;
        let mut i: usize = 0;
        while i < count_us
            invariant
                pos <= cur <= bytes@.len(),
                i <= count_us,
                curves@.len() == i,
                forall|j: int| 0 <= j < i ==> (#[trigger] curves@[j]).wf(),
                prepend_decoded(
                    curves@.map_values(|c: RewindCurveFitter<T>| c@),
                    spec_read_fitter_seq::<T>(
                        bytes@,
                        cur as int,
                        elem_tag,
                        interpolated,
                        (count_us - i) as nat,
                    ),
                ) == spec_read_fitter_seq::<T>(
                    bytes@,
                    p3 as int,
                    elem_tag,
                    interpolated,
                    count_us as nat,
                ),
            decreases count_us - i,
        {
            let ghost prefix = curves@.map_values(|c: RewindCurveFitter<T>| c@);
            let (mut f, p) = match RewindCurveFitter::<T>::read_from(bytes, cur, elem_tag) {
                Ok(v) => v,
                Err(e) => { return Err(e); },
            };
            f.interpolated = interpolated;
            curves.push(f);
            proof {
                let rest = spec_read_fitter_seq::<T>(
                    bytes@,
                    p as int,
                    elem_tag,
                    interpolated,
                    (count_us - i - 1) as nat,
                );
                let one = seq![RewindCurveFitterV { interpolated, curve: f@.curve }];
                assert(curves@.map_values(|c: RewindCurveFitter<T>| c@) =~= prefix + one);
                if rest is Ok {
                    let (s, q) = rest->Ok_0;
                    assert((prefix + one) + s =~= prefix + (one + s));
                }
            }
            cur = p;
            i = i + 1;
        }
        proof {
            assert(curves@.map_values(|c: RewindCurveFitter<T>| c@) + Seq::<
                RewindCurveFitterV<T>,
            >::empty() =~= curves@.map_values(|c: RewindCurveFitter<T>| c@));
        }
        Ok((RewindCurveFitterArray { interpolated, count, curves }, cur))
    }
}

/// Cutting the buffer behind a fully decoded fitter leaves the decode
/// unchanged; cutting into it leaves only an out-of-bytes failure.
pub proof fn lemma_read_fitter_prefix<T: WireElem>(
    bytes: Seq<u8>,
    pos: int,
    m: int,
    expected: RewindCurveType,
)
    requires
        0 <= pos <= m <= bytes.len(),
    ensures
        ok_in_range(spec_read_fitter::<T>(bytes, pos, expected), pos, bytes.len() as int),
        prefix_stable(
            spec_read_fitter::<T>(bytes, pos, expected),
            spec_read_fitter::<T>(bytes.take(m), pos, expected),
            m,
        ),
{
    lemma_read_i32_prefix(bytes, pos, m);
    match spec_read_fitter::<T>(bytes, pos, expected) {
        Err(_) => {},
        Ok((f, end)) => {
            let (raw, p1) = spec_read_i32(bytes, pos)->Ok_0;
            let (flag, p2) = spec_read_bool(bytes, p1)->Ok_0;
            lemma_read_curve_prefix::<T>(bytes, p2, bytes.len() as int);
            if p1 <= m {
                lemma_read_bool_prefix(bytes, p1, m);
                if p2 <= m {
                    lemma_read_curve_prefix::<T>(bytes, p2, m);
                }
            }
        },
    }
}

/// As for one fitter, for `n` consecutive fitters.
pub proof fn lemma_read_fitter_seq_prefix<T: WireElem>(
    bytes: Seq<u8>,
    pos: int,
    m: int,
    elem_tag: RewindCurveType,
    flag: bool,
    n: nat,
)
    requires
        0 <= pos <= m <= bytes.len(),
    ensures
        ok_in_range(spec_read_fitter_seq::<T>(bytes, pos, elem_tag, flag, n), pos, bytes.len() as int),
        prefix_stable(
            spec_read_fitter_seq::<T>(bytes, pos, elem_tag, flag, n),
            spec_read_fitter_seq::<T>(bytes.take(m), pos, elem_tag, flag, n),
            m,
        ),
    decreases n,
{
    if n > 0 {
        lemma_read_fitter_prefix::<T>(bytes, pos, m, elem_tag);
        match spec_read_fitter_seq::<T>(bytes, pos, elem_tag, flag, n) {
            Err(_) => {},
            Ok((s, q)) => {
                let (f, p) = spec_read_fitter::<T>(bytes, pos, elem_tag)->Ok_0;
                if p <= m {
                    lemma_read_fitter_seq_prefix::<T>(bytes, p, m, elem_tag, flag, (n - 1) as nat);
                } else {
                    lemma_read_fitter_seq_prefix::<T>(
                        bytes,
                        p,
                        bytes.len() as int,
                        elem_tag,
                        flag,
                        (n - 1) as nat,
                    );
                }
            },
        }
    }
}

/// As for one fitter, for a whole fitter array.
pub proof fn lemma_read_fitter_array_prefix<T: WireElem>(
    bytes: Seq<u8>,
    pos: int,
    m: int,
    expected: RewindCurveType,
)
    requires
        0 <= pos <= m <= bytes.len(),
    ensures
        ok_in_range(spec_read_fitter_array::<T>(bytes, pos, expected), pos, bytes.len() as int),
        prefix_stable(
            spec_read_fitter_array::<T>(bytes, pos, expected),
            spec_read_fitter_array::<T>(bytes.take(m), pos, expected),
            m,
        ),
{
    lemma_read_i32_prefix(bytes, pos, m);
    match spec_read_fitter_array::<T>(bytes, pos, expected) {
        Err(_) => {},
        Ok((arr, end)) => {
            let (raw, p1) = spec_read_i32(bytes, pos)->Ok_0;
            let (flag, p2) = spec_read_bool(bytes, p1)->Ok_0;
            let (count, p3) = spec_read_i32(bytes, p2)->Ok_0;
            let elem_tag = expected.spec_element_type()->Ok_0;
            lemma_read_fitter_seq_prefix::<T>(
                bytes,
                p3,
                bytes.len() as int,
                elem_tag,
                flag,
                count as nat,
            );
            if p1 <= m {
                lemma_read_bool_prefix(bytes, p1, m);
                if p2 <= m {
                    lemma_read_i32_prefix(bytes, p2, m);
                    if p3 <= m {
                        lemma_read_fitter_seq_prefix::<T>(bytes, p3, m, elem_tag, flag, count as nat);
                    }
                }
            }
        },
    }
}

impl<T: WireElem> RewindCurveFitter<T> {
    /// Decodes one fitter beginning at `pos`, checking the stream's tag
    /// against `expected` before decoding the curve body.
    pub fn read_from(bytes: &[u8], pos: usize, expected: RewindCurveType) -> (r: Result<
        (RewindCurveFitter<T>, usize),
        ReplayError,
    >)
        requires
            pos <= bytes@.len(),
        ensures
            step_for(r, spec_read_fitter::<T>(bytes@, pos as int, expected)),
            r matches Ok((f, p)) ==> f.wf() && pos <= p <= bytes@.len(),
    {
        let (raw, p1) = match read_i32(bytes, pos) {
            Ok(v) => v,
            Err(e) => { return Err(e); },
        };
        let found = match RewindCurveType::from_i32(raw) {
            Ok(t) => t,
            Err(e) => { return Err(e); },
        };
        if found != expected {
            return Err(ReplayError::MismatchedCurveTypes { expected, found });
        }
        let (interpolated, p2) = match read_boolean(bytes, p1) {
            Ok(v) => v,
            Err(e) => { return Err(e); },
        };
        let (curve, p3) = match RewindCurve::<T>::read_from(bytes, p2) {
            Ok(v) => v,
            Err(e) => { return Err(e); },
        };
        Ok((RewindCurveFitter { interpolated, curve }, p3))
    }
}

} // verus!
