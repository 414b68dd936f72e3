use vstd::prelude::*;
use crate::cursor::{
    lemma_read_i32_prefix, lemma_read_string_prefix, lemma_read_u32_prefix, ok_in_range,
    prefix_stable, prepend_decoded, read_i32, read_string, read_u32, spec_read_i32,
    spec_read_string, spec_read_u32, step_for, step_for_seq,
};
use crate::error::ReplayError;
use crate::rewind_curve::{IRewindCurve, IRewindCurveV};
use crate::rewind_curve_type::{lemma_read_variant_prefix, spec_read_variant, RewindCurveType};
use crate::vector3::Vector3;

verus! {

/// The mathematical value of one decoded field: its stream index, its name,
/// its validated tag, and the payload the tag names.
pub struct RewindableDataV {
    pub index: i32,
    pub text: Seq<char>,
    pub rewind_type: RewindCurveType,
    pub curve: IRewindCurveV,
}

/// One named, tagged field of a rewindable, holding its decoded payload.
#[derive(Debug, Clone, PartialEq)]
pub struct RewindableData {
    pub index: i32,
    pub text: String,
    pub rewind_type: RewindCurveType,
    pub curve: IRewindCurve,
}

impl View for RewindableData {
    type V = RewindableDataV;

    open spec fn view(&self) -> RewindableDataV {
        RewindableDataV {
            index: self.index,
            text: self.text@,
            rewind_type: self.rewind_type,
            curve: self.curve@,
        }
    }
}

impl RewindableData {
    /// The payload is consistent and its case carries exactly the tag
    /// recorded at the field level.
    pub open spec fn wf(&self) -> bool {
        &&& self.curve.wf()
        &&& self.curve@.tag() == self.rewind_type
    }
}

/// Decoding one field at `pos`: its index, its name, its raw tag — checked
/// against the closed set — and the payload that the tag names, decoded with
/// that same tag as the expected tag.
pub open spec fn spec_read_field(bytes: Seq<u8>, pos: int) -> Result<
    (RewindableDataV, int),
    ReplayError,
> {
    match spec_read_i32(bytes, pos) {
        Err(e) => Err(e),
        Ok((index, p1)) => match spec_read_string(bytes, p1) {
            Err(e) => Err(e),
            Ok((text, p2)) => match spec_read_i32(bytes, p2) {
                Err(e) => Err(e),
                Ok((raw, p3)) => match RewindCurveType::spec_from_i32(raw) {
                    Err(e) => Err(e),
                    Ok(tag) => match spec_read_variant(bytes, p3, tag) {
                        Err(e) => Err(e),
                        Ok((curve, p4)) => Ok(
                            (RewindableDataV { index, text, rewind_type: tag, curve }, p4),
                        ),
                    },
                },
            },
        },
    }
}

/// Decoding `n` consecutive fields at `pos`.
pub open spec fn spec_read_fields(bytes: Seq<u8>, pos: int, n: nat) -> Result<
    (Seq<RewindableDataV>, int),
    ReplayError,
>
    decreases n,
{
    if n == 0 {
        Ok((Seq::empty(), pos))
    } else {
        match spec_read_field(bytes, pos) {
            Err(e) => Err(e),
            Ok((f, p)) => prepend_decoded(
                seq![f],
                spec_read_fields(bytes, p, (n - 1) as nat),
            ),
        }
    }
}

/// Decoding a rewindable's field list at `pos`: a field count (negative
/// fails `MalformedCount`), then exactly that many fields in stream order.
pub open spec fn spec_read_field_list(bytes: Seq<u8>, pos: int) -> Result<
    (Seq<RewindableDataV>, int),
    ReplayError,
> {
    match spec_read_i32(bytes, pos) {
        Err(e) => Err(e),
        Ok((num, p1)) => if num < 0 {
            Err(ReplayError::MalformedCount)
        } else {
            spec_read_fields(bytes, p1, num as nat)
        },
    }
}

/// Cutting the buffer behind a fully decoded field leaves the decode
/// unchanged; cutting into it leaves only an out-of-bytes failure.
pub proof fn lemma_read_field_prefix(bytes: Seq<u8>, pos: int, m: int)
    requires
        0 <= pos <= m <= bytes.len(),
    ensures
        ok_in_range(spec_read_field(bytes, pos), pos, bytes.len() as int),
        prefix_stable(spec_read_field(bytes, pos), spec_read_field(bytes.take(m), pos), m),
{
    lemma_read_i32_prefix(bytes, pos, m);
    match spec_read_field(bytes, pos) {
        Err(_) => {},
        Ok((f, end)) => {
            let (index, p1) = spec_read_i32(bytes, pos)->Ok_0;
            let (text, p2) = spec_read_string(bytes, p1)->Ok_0;
            let (raw, p3) = spec_read_i32(bytes, p2)->Ok_0;
            let tag = RewindCurveType::spec_from_i32(raw)->Ok_0;
            lemma_read_variant_prefix(bytes, p3, bytes.len() as int, tag);
            if p1 <= m {
                lemma_read_string_prefix(bytes, p1, m);
                if p2 <= m {
                    lemma_read_i32_prefix(bytes, p2, m);
                    if p3 <= m {
                        lemma_read_variant_prefix(bytes, p3, m, tag);
                    }
                }
            }
        },
    }
}

/// As for one field, for `n` consecutive fields.
pub proof fn lemma_read_fields_prefix(bytes: Seq<u8>, pos: int, m: int, n: nat)
    requires
        0 <= pos <= m <= bytes.len(),
    ensures
        ok_in_range(spec_read_fields(bytes, pos, n), pos, bytes.len() as int),
        prefix_stable(spec_read_fields(bytes, pos, n), spec_read_fields(bytes.take(m), pos, n), m),
    decreases n,
{
    if n > 0 {
        lemma_read_field_prefix(bytes, pos, m);
        match spec_read_fields(bytes, pos, n) {
            Err(_) => {},
            Ok((s, q)) => {
                let (f, p) = spec_read_field(bytes, pos)->Ok_0;
                if p <= m {
                    lemma_read_fields_prefix(bytes, p, m, (n - 1) as nat);
                } else {
                    lemma_read_fields_prefix(bytes, p, bytes.len() as int, (n - 1) as nat);
                }
            },
        }
    }
}

/// As for the fields themselves, for a whole field list with its count.
pub proof fn lemma_read_field_list_prefix(bytes: Seq<u8>, pos: int, m: int)
    requires
        0 <= pos <= m <= bytes.len(),
    ensures
        ok_in_range(spec_read_field_list(bytes, pos), pos, bytes.len() as int),
        prefix_stable(
            spec_read_field_list(bytes, pos),
            spec_read_field_list(bytes.take(m), pos),
            m,
        ),
{
    lemma_read_i32_prefix(bytes, pos, m);
    match spec_read_field_list(bytes, pos) {
        Err(_) => {},
        Ok((s, q)) => {
            let (num, p1) = spec_read_i32(bytes, pos)->Ok_0;
            if p1 <= m {
                lemma_read_fields_prefix(bytes, p1, m, num as nat);
            } else {
                lemma_read_fields_prefix(bytes, p1, bytes.len() as int, num as nat);
            }
        },
    }
}

impl RewindableData {
    /// Decodes a rewindable's field list beginning at `pos`: the declared
    /// number of fields, each dispatched on its own validated tag.
    #[verifier::loop_isolation(false)]
    pub fn read_from(bytes: &[u8], pos: usize) -> (r: Result<
        (Vec<RewindableData>, usize),
        ReplayError,
    >)
        requires
            pos <= bytes@.len(),
        ensures
            step_for_seq(r, spec_read_field_list(bytes@, pos as int)),
            r matches Ok((fields, p)) ==> pos <= p <= bytes@.len() && forall|i: int|
                0 <= i < fields@.len() ==> (#[trigger] fields@[i]).wf(),
    {
        let (num, p1) = match read_i32(bytes, pos) {
            Ok(v) => v,
            Err(e) => { return Err(e); },
        };
        if num < 0 {
            return Err(ReplayError::MalformedCount);
        }
        let count_us = num as usize;
        let mut fields: Vec<RewindableData> = Vec::new();
        let mut cur: usize = p1;
        let mut i: usize = 0;
        while i < count_us
            invariant
                pos <= cur <= bytes@.len(),
                i <= count_us,
                fields@.len() == i,
                forall|j: int| 0 <= j < i ==> (#[trigger] fields@[j]).wf(),
                prepend_decoded(
                    fields@.map_values(|f: RewindableData| f@),
                    spec_read_fields(bytes@, cur as int, (count_us - i) as nat),
                ) == spec_read_fields(bytes@, p1 as int, count_us as nat),
            decreases count_us - i,
        {
            let ghost prefix = fields@.map_values(|f: RewindableData| f@);
            let (index, q1) = match read_i32(bytes, cur) {
                Ok(v) => v,
                Err(e) => { return Err(e); },
            };
            let (text, q2) = match read_string(bytes, q1) {
                Ok(v) => v,
                Err(e) => { return Err(e); },
            };
            let (raw, q3) = match read_i32(bytes, q2) {
                Ok(v) => v,
                Err(e) => { return Err(e); },
            };
            let tag = match RewindCurveType::from_i32(raw) {
                Ok(t) => t,
                Err(e) => { return Err(e); },
            };
            let (curve, q4) = match tag.read_from(bytes, q3) {
                Ok(v) => v,
                Err(e) => { return Err(e); },
            };
            let field = RewindableData { index, text, rewind_type: tag, curve };
            fields.push(field);
            proof {
                let rest = spec_read_fields(bytes@, q4 as int, (count_us - i - 1) as nat);
                let one = seq![field@];
                assert(fields@.map_values(|f: RewindableData| f@) =~= prefix + one);
                if rest is Ok {
                    let (s, q) = rest->Ok_0;
                    assert((prefix + one) + s =~= prefix + (one + s));
                }
            }
            cur = q4;
            i = i + 1;
        }
        proof {
            assert(fields@.map_values(|f: RewindableData| f@) + Seq::<RewindableDataV>::empty()
                =~= fields@.map_values(|f: RewindableData| f@));
        }
        Ok((fields, cur))
    }
}

/// The position of the first field named `name`, or -1 when none carries it.
pub open spec fn spec_first_field_named(fields: Seq<RewindableDataV>, name: Seq<char>) -> int
    decreases fields.len(),
{
    if fields.len() == 0 {
        -1
    } else if fields[0].text == name {
        0
    } else {
        let rest = spec_first_field_named(fields.drop_first(), name);
        if rest < 0 {
            -1
        } else {
            rest + 1
        }
    }
}

/// A scan that saw no field named `name` before position `i`, and one at
/// `i`, has found the first.
proof fn lemma_first_field_found(fields: Seq<RewindableDataV>, name: Seq<char>, i: int)
    requires
        0 <= i < fields.len(),
        fields[i].text == name,
        forall|j: int| 0 <= j < i ==> fields[j].text != name,
    ensures
        spec_first_field_named(fields, name) == i,
    decreases i,
{
    if i > 0 {
        lemma_first_field_found(fields.drop_first(), name, i - 1);
    }
}

/// A scan that saw no field named `name` anywhere finds none.
proof fn lemma_first_field_none(fields: Seq<RewindableDataV>, name: Seq<char>)
    requires
        forall|j: int| 0 <= j < fields.len() ==> fields[j].text != name,
    ensures
        spec_first_field_named(fields, name) == -1,
    decreases fields.len(),
{
    if fields.len() > 0 {
        lemma_first_field_none(fields.drop_first(), name);
    }
}

/// The mathematical value of one decoded rewindable: its two names, its
/// reference position, and its fields in stream order.
pub struct RewindableV {
    pub game_object_name: Seq<char>,
    pub type_label: Seq<char>,
    pub ref_pos: Vector3,
    pub data: Seq<RewindableDataV>,
}

/// One in-game object whose state over the session was recorded as a set of
/// time-sampled fields. Its identity for extraction is `type_label`; the
/// order of `data` is stream order.
#[derive(Debug, Clone, PartialEq)]
pub struct Rewindable {
    pub game_object_name: String,
    pub type_label: String,
    pub ref_pos: Vector3,
    pub data: Vec<RewindableData>,
}

impl View for Rewindable {
    type V = RewindableV;

    open spec fn view(&self) -> RewindableV {
        RewindableV {
            game_object_name: self.game_object_name@,
            type_label: self.type_label@,
            ref_pos: self.ref_pos,
            data: self.data@.map_values(|f: RewindableData| f@),
        }
    }
}

impl Rewindable {
    pub open spec fn wf(&self) -> bool {
        forall|i: int| 0 <= i < self.data@.len() ==> (#[trigger] self.data@[i]).wf()
    }
}

/// Decoding one rewindable at `pos`: the object name, the type name, three
/// float bit patterns of the reference position, then the field list.
pub open spec fn spec_read_rewindable(bytes: Seq<u8>, pos: int) -> Result<
    (RewindableV, int),
    ReplayError,
> {
    match spec_read_string(bytes, pos) {
        Err(e) => Err(e),
        Ok((game_object_name, p1)) => match spec_read_string(bytes, p1) {
            Err(e) => Err(e),
            Ok((type_label, p2)) => match spec_read_u32(bytes, p2) {
                Err(e) => Err(e),
                Ok((x, p3)) => match spec_read_u32(bytes, p3) {
                    Err(e) => Err(e),
                    Ok((y, p4)) => match spec_read_u32(bytes, p4) {
                        Err(e) => Err(e),
                        Ok((z, p5)) => match spec_read_field_list(bytes, p5) {
                            Err(e) => Err(e),
                            Ok((data, p6)) => Ok(
                                (
                                    RewindableV {
                                        game_object_name,
                                        type_label,
                                        ref_pos: Vector3 { x, y, z },
                                        data,
                                    },
                                    p6,
                                ),
                            ),
                        },
                    },
                },
            },
        },
    }
}

impl Rewindable {
    /// Decodes one rewindable beginning at `pos`.
    pub fn read_from(bytes: &[u8], pos: usize) -> (r: Result<(Rewindable, usize), ReplayError>)
        requires
            pos <= bytes@.len(),
        ensures
            step_for(r, spec_read_rewindable(bytes@, pos as int)),
            r matches Ok((rw, p)) ==> rw.wf() && pos <= p <= bytes@.len(),
    {
        let (game_object_name, p1) = match read_string(bytes, pos) {
            Ok(v) => v,
            Err(e) => { return Err(e); },
        };
        let (type_label, p2) = match read_string(bytes, p1) {
            Ok(v) => v,
            Err(e) => { return Err(e); },
        };
        let (x, p3) = match read_u32(bytes, p2) {
            Ok(v) => v,
            Err(e) => { return Err(e); },
        };
        let (y, p4) = match read_u32(bytes, p3) {
            Ok(v) => v,
            Err(e) => { return Err(e); },
        };
        let (z, p5) = match read_u32(bytes, p4) {
            Ok(v) => v,
            Err(e) => { return Err(e); },
        };
        let (data, p6) = match RewindableData::read_from(bytes, p5) {
            Ok(v) => v,
            Err(e) => { return Err(e); },
        };
        Ok((Rewindable { game_object_name, type_label, ref_pos: Vector3 { x, y, z }, data }, p6))
    }

    /// Looks up the first field named `name`, without re-decoding anything;
    /// a rewindable without such a field fails `MissingField` naming it.
    #[verifier::loop_isolation(false)]
    pub fn field_by_name(&self, name: &str) -> (r: Result<&RewindableData, ReplayError>)
        ensures
            ({
                let idx = spec_first_field_named(self@.data, name@);
                match r {
                    Ok(f) => idx >= 0 && f@ == self@.data[idx],
                    Err(e) => idx == -1 && (e matches ReplayError::MissingField(s) && s@ == name@),
                }
            }),
    {
        let n = self.data.len();
        let mut i: usize = 0;
        while i < n
            invariant
                i <= n,
                forall|j: int| 0 <= j < i ==> (#[trigger] self@.data[j]).text != name@,
            decreases n - i,
        {
            let field = &self.data[i];
            if field.text == name.to_owned() {
                proof {
                    assert(self@.data[i as int].text == name@);
                    lemma_first_field_found(self@.data, name@, i as int);
                }
                return Ok(field);
            }
            i = i + 1;
        }
        proof {
            lemma_first_field_none(self@.data, name@);
        }
        Err(ReplayError::MissingField(name.to_owned()))
    }
}

/// Cutting the buffer behind a fully decoded rewindable leaves the decode
/// unchanged; cutting into it leaves only an out-of-bytes failure.
pub proof fn lemma_read_rewindable_prefix(bytes: Seq<u8>, pos: int, m: int)
    requires
        0 <= pos <= m <= bytes.len(),
    ensures
        ok_in_range(spec_read_rewindable(bytes, pos), pos, bytes.len() as int),
        prefix_stable(
            spec_read_rewindable(bytes, pos),
            spec_read_rewindable(bytes.take(m), pos),
            m,
        ),
{
    lemma_read_string_prefix(bytes, pos, m);
    match spec_read_rewindable(bytes, pos) {
        Err(_) => {},
        Ok((rw, end)) => {
            let (go, p1) = spec_read_string(bytes, pos)->Ok_0;
            let (ty, p2) = spec_read_string(bytes, p1)->Ok_0;
            let (x, p3) = spec_read_u32(bytes, p2)->Ok_0;
            let (y, p4) = spec_read_u32(bytes, p3)->Ok_0;
            let (z, p5) = spec_read_u32(bytes, p4)->Ok_0;
            lemma_read_field_list_prefix(bytes, p5, bytes.len() as int);
            if p1 <= m {
                lemma_read_string_prefix(bytes, p1, m);
                if p2 <= m {
                    lemma_read_u32_prefix(bytes, p2, m);
                    if p3 <= m {
                        lemma_read_u32_prefix(bytes, p3, m);
                        if p4 <= m {
                            lemma_read_u32_prefix(bytes, p4, m);
                            if p5 <= m {
                                lemma_read_field_list_prefix(bytes, p5, m);
                            }
                        }
                    }
                }
            }
        },
    }
}

} // verus!
