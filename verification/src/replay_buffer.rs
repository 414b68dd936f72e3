use vstd::prelude::*;
use crate::cursor::{
    lemma_read_i32_prefix, ok_in_range, prefix_stable, prepend_decoded, read_i32, spec_read_i32,
};
use crate::error::ReplayError;
use crate::objects::{Bumper, Elevator, Marble, Powerup};
use crate::rewindable::{
    lemma_read_rewindable_prefix, spec_read_rewindable, Rewindable, RewindableV,
};

verus! {

/// The header information for a decoded replay buffer.
#[derive(Debug, Clone, Copy, PartialEq, Eq, Structural)]
pub struct ReplayHeader {
    pub session: i32,
    pub version: i32,
}

/// The mathematical value of a fully decoded replay buffer.
pub struct ReplayBufferV {
    pub header: ReplayHeader,
    pub rewindable_count: i32,
    pub rewindables: Seq<RewindableV>,
}

/// A fully decoded replay buffer: the header, the rewindable count declared
/// by the stream, and the rewindables in stream order. Mutated only by the
/// extraction operations, which remove matching entries and preserve the
/// relative order of the remainder.
#[derive(Debug, Clone, PartialEq)]
pub struct ReplayBuffer {
    pub header: ReplayHeader,
    pub rewindable_count: i32,
    pub rewindables: Vec<Rewindable>,
}

impl View for ReplayBuffer {
    type V = ReplayBufferV;

    open spec fn view(&self) -> ReplayBufferV {
        ReplayBufferV {
            header: self.header,
            rewindable_count: self.rewindable_count,
            rewindables: self.rewindables@.map_values(|r: Rewindable| r@),
        }
    }
}

impl ReplayBuffer {
    pub open spec fn wf(&self) -> bool {
        forall|i: int| 0 <= i < self.rewindables@.len() ==> (#[trigger] self.rewindables@[i]).wf()
    }
}

/// What raw-deflate decompression yields on the given bytes: the
/// decompressed stream on a well-formed input, nothing on a malformed one.
/// The outcome depends on the input bytes alone.
pub uninterp spec fn inflate_of(compressed: Seq<u8>) -> Option<Seq<u8>>;

#[verifier::external_type_specification]
#[verifier::external_body]
pub struct ExDecompressError(miniz_oxide::inflate::DecompressError);

/// Relies on `miniz_oxide::inflate::decompress_to_vec`: whole-buffer
/// raw-deflate decompression, a pure function of the input bytes that
/// succeeds exactly on well-formed streams.
#[verifier::external_body]
fn inflate(compressed: &[u8]) -> (r: Result<Vec<u8>, miniz_oxide::inflate::DecompressError>)
    ensures
        r is Ok <==> inflate_of(compressed@) is Some,
        r matches Ok(v) ==> inflate_of(compressed@) == Some(v@),
{
    miniz_oxide::inflate::decompress_to_vec(compressed)
}

/// Decoding `n` consecutive rewindables at `pos`.
pub open spec fn spec_read_rewindables(bytes: Seq<u8>, pos: int, n: nat) -> Result<
    (Seq<RewindableV>, int),
    ReplayError,
>
    decreases n,
{
    if n == 0 {
        Ok((Seq::empty(), pos))
    } else {
        match spec_read_rewindable(bytes, pos) {
            Err(e) => Err(e),
            Ok((rw, p)) => prepend_decoded(
                seq![rw],
                spec_read_rewindables(bytes, p, (n - 1) as nat),
            ),
        }
    }
}

/// Decoding the decompressed stream: a rewindable count (negative fails
/// `MalformedCount`), then exactly that many rewindables. The position after
/// the last rewindable is returned; trailing bytes beyond it are ignored.
pub open spec fn spec_decode_inner(data: Seq<u8>) -> Result<
    (i32, Seq<RewindableV>, int),
    ReplayError,
> {
    match spec_read_i32(data, 0) {
        Err(e) => Err(e),
        Ok((count, q1)) => if count < 0 {
            Err(ReplayError::MalformedCount)
        } else {
            match spec_read_rewindables(data, q1, count as nat) {
                Err(e) => Err(e),
                Ok((rewindables, q2)) => Ok((count, rewindables, q2)),
            }
        },
    }
}

/// Decoding a whole replay buffer: the two header words, raw-deflate
/// decompression of every remaining byte (a malformed stream fails
/// `DecompressionError`), then over the decompressed bytes a rewindable
/// count (negative fails `MalformedCount`) and exactly that many
/// rewindables. Trailing bytes after the last rewindable are ignored.
pub open spec fn spec_decode_replay_buffer(raw: Seq<u8>) -> Result<ReplayBufferV, ReplayError> {
    match spec_read_i32(raw, 0) {
        Err(e) => Err(e),
        Ok((session, p1)) => match spec_read_i32(raw, p1) {
            Err(e) => Err(e),
            Ok((version, p2)) => match inflate_of(raw.subrange(p2, raw.len() as int)) {
                None => Err(ReplayError::DecompressionError),
                Some(data) => match spec_decode_inner(data) {
                    Err(e) => Err(e),
                    Ok((count, rewindables, _)) => Ok(
                        ReplayBufferV {
                            header: ReplayHeader { session, version },
                            rewindable_count: count,
                            rewindables,
                        },
                    ),
                },
            },
        },
    }
}

/// Decodes a raw replay buffer: header, decompression, and every declared
/// rewindable, in stream order.
#[verifier::loop_isolation(false)]
#[verifier::rlimit(50)]
pub fn decode_replay_buffer(raw: &[u8]) -> (r: Result<ReplayBuffer, ReplayError>)
    ensures
        match r {
            Ok(b) => spec_decode_replay_buffer(raw@) == Ok::<ReplayBufferV, ReplayError>(b@)
                && b.wf() && b@.rewindable_count == b@.rewindables.len(),
            Err(e) => spec_decode_replay_buffer(raw@) == Err::<ReplayBufferV, ReplayError>(e),
        },
{
    let len = raw.len();
    let (session, p1) = match read_i32(raw, 0) {
        Ok(v) => v,
        Err(e) => { return Err(e); },
    };
    let (version, p2) = match read_i32(raw, p1) {
        Ok(v) => v,
        Err(e) => { return Err(e); },
    };
    let header = ReplayHeader { session, version };

    let compressed = &raw[p2..len];
    let data = match inflate(compressed) {
        Ok(v) => v,
        Err(_) => { return Err(ReplayError::DecompressionError); },
    };
    let bytes = data.as_slice();

    let (count, q1) = match read_i32(bytes, 0) {
        Ok(v) => v,
        Err(e) => { return Err(e); },
    };
    if count < 0 {
        return Err(ReplayError::MalformedCount);
    }
    let count_us = count as usize;
    let mut rewindables: Vec<Rewindable> = Vec::new();
    let mut cur: usize = q1;
    let mut i: usize = 0;
    while i < count_us
        invariant
            cur <= bytes@.len(),
            i <= count_us,
            rewindables@.len() == i,
            forall|j: int| 0 <= j < i ==> (#[trigger] rewindables@[j]).wf(),
            prepend_decoded(
                rewindables@.map_values(|r: Rewindable| r@),
                spec_read_rewindables(bytes@, cur as int, (count_us - i) as nat),
            ) == spec_read_rewindables(bytes@, q1 as int, count_us as nat),
        decreases count_us - i,
    {
        let ghost prefix = rewindables@.map_values(|r: Rewindable| r@);
        let (rw, p) = match Rewindable::read_from(bytes, cur) {
            Ok(v) => v,
            Err(e) => { return Err(e); },
        };
        rewindables.push(rw);
        proof {
            let rest = spec_read_rewindables(bytes@, p as int, (count_us - i - 1) as nat);
            let one = seq![rw@];
            assert(rewindables@.map_values(|r: Rewindable| r@) =~= prefix + one);
            if rest is Ok {
                let (s, q) = rest->Ok_0;
                assert((prefix + one) + s =~= prefix + (one + s));
            }
        }
        cur = p;
        i = i + 1;
    }
    proof {
        assert(rewindables@.map_values(|r: Rewindable| r@) + Seq::<RewindableV>::empty()
            =~= rewindables@.map_values(|r: Rewindable| r@));
    }
    Ok(ReplayBuffer { header, rewindable_count: count, rewindables })
}

/// Determinism: what a replay buffer decodes to is a function of the raw
/// bytes alone, so decoding structurally equal byte buffers yields
/// structurally equal results — the same counts, field order and values, or
/// the same error.
pub proof fn lemma_decode_deterministic(raw1: Seq<u8>, raw2: Seq<u8>)
    requires
        raw1 == raw2,
    ensures
        spec_decode_replay_buffer(raw1) == spec_decode_replay_buffer(raw2),
{
}

/// As for one rewindable, for `n` consecutive rewindables.
pub proof fn lemma_read_rewindables_prefix(bytes: Seq<u8>, pos: int, m: int, n: nat)
    requires
        0 <= pos <= m <= bytes.len(),
    ensures
        ok_in_range(spec_read_rewindables(bytes, pos, n), pos, bytes.len() as int),
        prefix_stable(
            spec_read_rewindables(bytes, pos, n),
            spec_read_rewindables(bytes.take(m), pos, n),
            m,
        ),
    decreases n,
{
    if n > 0 {
        lemma_read_rewindable_prefix(bytes, pos, m);
        match spec_read_rewindables(bytes, pos, n) {
            Err(_) => {},
            Ok((s, q)) => {
                let (rw, p) = spec_read_rewindable(bytes, pos)->Ok_0;
                if p <= m {
                    lemma_read_rewindables_prefix(bytes, p, m, (n - 1) as nat);
                } else {
                    lemma_read_rewindables_prefix(bytes, p, bytes.len() as int, (n - 1) as nat);
                }
            },
        }
    }
}

/// Truncation safety over the decompressed stream: cutting the stream to
/// `m` bytes behind everything a successful decode consumed leaves the
/// decode unchanged, while a cut into consumed content makes it fail with
/// `UnexpectedEof` — never succeed differently, and never read past the end.
pub proof fn lemma_truncation_safety(data: Seq<u8>, m: int)
    requires
        0 <= m <= data.len(),
        spec_decode_inner(data) is Ok,
    ensures
        ({
            let (count, rewindables, end) = spec_decode_inner(data)->Ok_0;
            &&& end <= data.len()
            &&& if end <= m {
                spec_decode_inner(data.take(m)) == spec_decode_inner(data)
            } else {
                spec_decode_inner(data.take(m)) matches Err(e) && e matches
                    ReplayError::UnexpectedEof(_)
            }
        }),
{
    lemma_read_i32_prefix(data, 0, m);
    let (count, q1) = spec_read_i32(data, 0)->Ok_0;
    if q1 <= m {
        lemma_read_rewindables_prefix(data, q1, m, count as nat);
    } else {
        lemma_read_rewindables_prefix(data, q1, data.len() as int, count as nat);
    }
}

/// Truncation safety at the very front: a raw buffer too short to hold the
/// two header words fails with `UnexpectedEof` before anything else runs.
pub proof fn lemma_short_header_fails(raw: Seq<u8>)
    requires
        raw.len() < 8,
    ensures
        spec_decode_replay_buffer(raw) matches Err(e) && e matches ReplayError::UnexpectedEof(_),
{
}

/// The position of the first rewindable whose type name is `name`, or -1
/// when none carries it.
pub open spec fn spec_first_index_named(rs: Seq<RewindableV>, name: Seq<char>) -> int
    decreases rs.len(),
{
    if rs.len() == 0 {
        -1
    } else if rs[0].type_label == name {
        0
    } else {
        let rest = spec_first_index_named(rs.drop_first(), name);
        if rest < 0 {
            -1
        } else {
            rest + 1
        }
    }
}

/// The rewindables whose type name is `name`, in their original order.
pub open spec fn spec_named(rs: Seq<RewindableV>, name: Seq<char>) -> Seq<RewindableV>
    decreases rs.len(),
{
    if rs.len() == 0 {
        Seq::empty()
    } else {
        let front = spec_named(rs.drop_last(), name);
        if rs.last().type_label == name {
            front.push(rs.last())
        } else {
            front
        }
    }
}

/// The rewindables whose type name is not `name`, in their original order.
pub open spec fn spec_unnamed(rs: Seq<RewindableV>, name: Seq<char>) -> Seq<RewindableV>
    decreases rs.len(),
{
    if rs.len() == 0 {
        Seq::empty()
    } else {
        let front = spec_unnamed(rs.drop_last(), name);
        if rs.last().type_label != name {
            front.push(rs.last())
        } else {
            front
        }
    }
}

/// A scan that saw no entry named `name` before position `i`, and one at
/// `i`, has found the first.
proof fn lemma_first_index_found(rs: Seq<RewindableV>, name: Seq<char>, i: int)
    requires
        0 <= i < rs.len(),
        rs[i].type_label == name,
        forall|j: int| 0 <= j < i ==> rs[j].type_label != name,
    ensures
        spec_first_index_named(rs, name) == i,
    decreases i,
{
    if i > 0 {
        lemma_first_index_found(rs.drop_first(), name, i - 1);
    }
}

/// A scan that saw no entry named `name` anywhere finds none.
proof fn lemma_first_index_none(rs: Seq<RewindableV>, name: Seq<char>)
    requires
        forall|j: int| 0 <= j < rs.len() ==> rs[j].type_label != name,
    ensures
        spec_first_index_named(rs, name) == -1,
    decreases rs.len(),
{
    if rs.len() > 0 {
        lemma_first_index_none(rs.drop_first(), name);
    }
}

/// True when the rewindable's type name equals `name`.
fn is_named(r: &Rewindable, name: &str) -> (b: bool)
    ensures
        b == (r@.type_label == name@),
{
    r.type_label == name.to_owned()
}

impl ReplayBuffer {
    /// Removes and returns the first rewindable whose type name is
    /// `MarbleController`: the player object. Fails `NoMarbleController`
    /// when none exists; the relative order of the rest is preserved.
    #[verifier::loop_isolation(false)]
    pub fn get_marble(&mut self) -> (r: Result<Marble, ReplayError>)
        requires
            old(self).wf(),
        ensures
            final(self).wf(),
            final(self).header == old(self).header,
            final(self).rewindable_count == old(self).rewindable_count,
            ({
                let idx = spec_first_index_named(old(self)@.rewindables, "MarbleController"@);
                match r {
                    Ok(m) => idx >= 0 && m@ == old(self)@.rewindables[idx] && m.inner.wf()
                        && final(self)@.rewindables == old(self)@.rewindables.remove(idx),
                    Err(e) => e == ReplayError::NoMarbleController && idx == -1
                        && final(self)@.rewindables == old(self)@.rewindables,
                }
            }),
    {
        let n = self.rewindables.len();
        let mut i: usize = 0;
        while i < n
            invariant
                i <= n,
                *self == *old(self),
                forall|j: int|
                    0 <= j < i ==> (#[trigger] old(self)@.rewindables[j]).type_label
                        != "MarbleController"@,
            decreases n - i,
        {
            if is_named(&self.rewindables[i], "MarbleController") {
                proof {
                    lemma_first_index_found(
                        old(self)@.rewindables,
                        "MarbleController"@,
                        i as int,
                    );
                }
                let inner = self.rewindables.remove(i);
                proof {
                    assert(self.rewindables@.map_values(|r: Rewindable| r@) =~= old(
                        self,
                    )@.rewindables.remove(i as int));
                }
                return Ok(Marble { inner });
            }
            i = i + 1;
        }
        proof {
            lemma_first_index_none(old(self)@.rewindables, "MarbleController"@);
        }
        Err(ReplayError::NoMarbleController)
    }

    /// Removes every rewindable whose type name is `name`, handing the
    /// removed entries back in order; what stays keeps its relative order.
    #[verifier::loop_isolation(false)]
    fn extract_named(&mut self, name: &str) -> (out: Vec<Rewindable>)
        requires
            old(self).wf(),
        ensures
            final(self).wf(),
            final(self).header == old(self).header,
            final(self).rewindable_count == old(self).rewindable_count,
            final(self)@.rewindables == spec_unnamed(old(self)@.rewindables, name@),
            out@.map_values(|r: Rewindable| r@) == spec_named(old(self)@.rewindables, name@),
            forall|i: int| 0 <= i < out@.len() ==> (#[trigger] out@[i]).wf(),
    {
        let ghost old_rs = old(self)@.rewindables;
        let mut kept: Vec<Rewindable> = Vec::new();
        let mut out: Vec<Rewindable> = Vec::new();
        let n = self.rewindables.len();
        let mut i: usize = 0;
        while i < n
            invariant
                i <= n,
                self.header == old(self).header,
                self.rewindable_count == old(self).rewindable_count,
                self.rewindables@.len() == n - i,
                self.rewindables@.map_values(|r: Rewindable| r@) == old_rs.skip(i as int),
                forall|j: int|
                    0 <= j < self.rewindables@.len() ==> (#[trigger] self.rewindables@[j]).wf(),
                kept@.map_values(|r: Rewindable| r@) == spec_unnamed(old_rs.take(i as int), name@),
                out@.map_values(|r: Rewindable| r@) == spec_named(old_rs.take(i as int), name@),
                forall|j: int| 0 <= j < kept@.len() ==> (#[trigger] kept@[j]).wf(),
                forall|j: int| 0 <= j < out@.len() ==> (#[trigger] out@[j]).wf(),
            decreases n - i,
        {
            let ghost kept_pre = kept@.map_values(|r: Rewindable| r@);
            let ghost out_pre = out@.map_values(|r: Rewindable| r@);
            let ghost rem_pre = self.rewindables@;
            let rw = self.rewindables.remove(0);
            proof {
                assert(rem_pre.map_values(|r: Rewindable| r@)[0] == rem_pre[0]@);
                assert(rw@ == old_rs.skip(i as int)[0]);
                assert(rw@ == old_rs[i as int]);
                assert forall|j: int| 0 <= j < self.rewindables@.len() implies
                    self.rewindables@.map_values(|r: Rewindable| r@)[j] == #[trigger] old_rs.skip(
                    i as int + 1,
                )[j] by {
                    assert(self.rewindables@[j] == rem_pre[j + 1]);
                    assert(rem_pre.map_values(|r: Rewindable| r@)[j + 1] == rem_pre[j + 1]@);
                    assert(old_rs.skip(i as int)[j + 1] == old_rs[i + 1 + j]);
                }
                assert(self.rewindables@.map_values(|r: Rewindable| r@) =~= old_rs.skip(
                    i as int + 1,
                ));
            }
            let matched = is_named(&rw, name);
            if matched {
                out.push(rw);
            } else {
                kept.push(rw);
            }
            proof {
                let t = old_rs.take(i as int + 1);
                assert(t.drop_last() =~= old_rs.take(i as int));
                assert(t.last() == old_rs[i as int]);
                if matched {
                    assert(out@.map_values(|r: Rewindable| r@) =~= out_pre.push(old_rs[i as int]));
                } else {
                    assert(kept@.map_values(|r: Rewindable| r@) =~= kept_pre.push(
                        old_rs[i as int],
                    ));
                }
            }
            i = i + 1;
        }
        proof {
            assert(old_rs.take(n as int) =~= old_rs);
        }
        self.rewindables = kept;
        out
    }

    /// Removes and returns every rewindable whose type name is `Powerup`.
    /// An empty result is not an error.
    pub fn get_powerups(&mut self) -> (r: Result<Vec<Powerup>, ReplayError>)
        requires
            old(self).wf(),
        ensures
            final(self).wf(),
            final(self).header == old(self).header,
            final(self).rewindable_count == old(self).rewindable_count,
            final(self)@.rewindables == spec_unnamed(old(self)@.rewindables, "Powerup"@),
            r matches Ok(v) && v@.map_values(|p: Powerup| p@) == spec_named(
                old(self)@.rewindables,
                "Powerup"@,
            ),
    {
        let mut found = self.extract_named("Powerup");
        let mut out: Vec<Powerup> = Vec::new();
        let ghost target = spec_named(old(self)@.rewindables, "Powerup"@);
        while found.len() > 0
            invariant
                out@.map_values(|p: Powerup| p@) + found@.map_values(|r: Rewindable| r@)
                    == target,
            decreases found@.len(),
        {
            let ghost out_pre = out@.map_values(|p: Powerup| p@);
            let ghost found_pre = found@.map_values(|r: Rewindable| r@);
            let rw = found.remove(0);
            out.push(Powerup { inner: rw });
            proof {
                assert(out@.map_values(|p: Powerup| p@) =~= out_pre.push(found_pre[0]));
                assert(found@.map_values(|r: Rewindable| r@) =~= found_pre.drop_first());
                assert(out_pre.push(found_pre[0]) + found_pre.drop_first() =~= out_pre + found_pre);
            }
        }
        proof {
            assert(out@.map_values(|p: Powerup| p@) + found@.map_values(
                |r: Rewindable| r@,
            ) =~= out@.map_values(|p: Powerup| p@));
        }
        Ok(out)
    }

    /// Removes and returns every rewindable whose type name is
    /// `BumperController`. An empty result is not an error.
    pub fn get_bumpers(&mut self) -> (r: Result<Vec<Bumper>, ReplayError>)
        requires
            old(self).wf(),
        ensures
            final(self).wf(),
            final(self).header == old(self).header,
            final(self).rewindable_count == old(self).rewindable_count,
            final(self)@.rewindables == spec_unnamed(old(self)@.rewindables, "BumperController"@),
            r matches Ok(v) && v@.map_values(|b: Bumper| b@) == spec_named(
                old(self)@.rewindables,
                "BumperController"@,
            ),
    {
        let mut found = self.extract_named("BumperController");
        let mut out: Vec<Bumper> = Vec::new();
        let ghost target = spec_named(old(self)@.rewindables, "BumperController"@);
        while found.len() > 0
            invariant
                out@.map_values(|b: Bumper| b@) + found@.map_values(|r: Rewindable| r@)
                    == target,
            decreases found@.len(),
        {
            let ghost out_pre = out@.map_values(|b: Bumper| b@);
            let ghost found_pre = found@.map_values(|r: Rewindable| r@);
            let rw = found.remove(0);
            out.push(Bumper { inner: rw });
            proof {
                assert(out@.map_values(|b: Bumper| b@) =~= out_pre.push(found_pre[0]));
                assert(found@.map_values(|r: Rewindable| r@) =~= found_pre.drop_first());
                assert(out_pre.push(found_pre[0]) + found_pre.drop_first() =~= out_pre + found_pre);
            }
        }
        proof {
            assert(out@.map_values(|b: Bumper| b@) + found@.map_values(
                |r: Rewindable| r@,
            ) =~= out@.map_values(|b: Bumper| b@));
        }
        Ok(out)
    }

    /// Removes and returns every rewindable whose type name is
    /// `ElevatorMover`. An empty result is not an error.
    pub fn get_elevators(&mut self) -> (r: Result<Vec<Elevator>, ReplayError>)
        requires
            old(self).wf(),
        ensures
            final(self).wf(),
            final(self).header == old(self).header,
            final(self).rewindable_count == old(self).rewindable_count,
            final(self)@.rewindables == spec_unnamed(old(self)@.rewindables, "ElevatorMover"@),
            r matches Ok(v) && v@.map_values(|e: Elevator| e@) == spec_named(
                old(self)@.rewindables,
                "ElevatorMover"@,
            ),
    {
        let mut found = self.extract_named("ElevatorMover");
        let mut out: Vec<Elevator> = Vec::new();
        let ghost target = spec_named(old(self)@.rewindables, "ElevatorMover"@);
        while found.len() > 0
            invariant
                out@.map_values(|e: Elevator| e@) + found@.map_values(|r: Rewindable| r@)
                    == target,
            decreases found@.len(),
        {
            let ghost out_pre = out@.map_values(|e: Elevator| e@);
            let ghost found_pre = found@.map_values(|r: Rewindable| r@);
            let rw = found.remove(0);
            out.push(Elevator { inner: rw });
            proof {
                assert(out@.map_values(|e: Elevator| e@) =~= out_pre.push(found_pre[0]));
                assert(found@.map_values(|r: Rewindable| r@) =~= found_pre.drop_first());
                assert(out_pre.push(found_pre[0]) + found_pre.drop_first() =~= out_pre + found_pre);
            }
        }
        proof {
            assert(out@.map_values(|e: Elevator| e@) + found@.map_values(
                |r: Rewindable| r@,
            ) =~= out@.map_values(|e: Elevator| e@));
        }
        Ok(out)
    }
}

} // verus!
