use vstd::prelude::*;
use vstd::pervasive::VecAdditionalExecFns;

verus! {

/// The Euclidean remainder of `a` by `m`, written out for arguments below
/// `2 * m`: the single subtraction that the wraparound index arithmetic
/// performs.
proof fn lemma_mod_range(a: int, m: int)
    requires
        m > 0,
        0 <= a < 2 * m,
    ensures
        a % m == if a < m { a } else { a - m },
        0 <= a % m < m,
{
    if a < m {
        assert(a % m == a) by (nonlinear_arith)
            requires m > 0, 0 <= a < m;
    } else {
        assert(a % m == a - m) by (nonlinear_arith)
            requires m > 0, m <= a < 2 * m;
    }
}

/// Fixed-capacity circular store.
///
/// The capacity is fixed at construction and never grows. `push_back` on a
/// full buffer overwrites the oldest element (logical index 0) and advances
/// the window start; `push_front` on a full buffer symmetrically overwrites
/// the newest element. The view is the sequence of logically stored
/// elements, oldest first.
#[derive(Debug, Clone, PartialEq)]
pub struct CircularBuffer<T> {
    buffer: Vec<Option<T>>,
    start: usize,
    end: usize,
    size: usize,
}

/// One abstract `push_back` step on a ring buffer of capacity `cap` holding
/// `s`: appends while there is room, otherwise drops the oldest element and
/// appends.
pub open spec fn spec_ring_push_back<T>(s: Seq<T>, cap: nat, v: T) -> Seq<T> {
    if s.len() < cap {
        s.push(v)
    } else {
        s.drop_first().push(v)
    }
}

/// One abstract `push_front` step on a ring buffer of capacity `cap` holding
/// `s`: prepends while there is room, otherwise drops the newest element and
/// prepends.
pub open spec fn spec_ring_push_front<T>(s: Seq<T>, cap: nat, v: T) -> Seq<T> {
    if s.len() < cap {
        seq![v] + s
    } else {
        seq![v] + s.drop_last()
    }
}

impl<T> CircularBuffer<T> {
    /// The fixed number of slots.
    pub closed spec fn spec_capacity(&self) -> nat {
        self.buffer@.len()
    }

    /// The physical slot that holds logical index `i`.
    pub closed spec fn slot(&self, i: int) -> int {
        (self.start + i) % (self.buffer@.len() as int)
    }

    /// Internal consistency: the window start lies inside the storage, the
    /// write position follows the stored elements, and every logical slot is
    /// occupied.
    pub closed spec fn wf(&self) -> bool {
        &&& self.size <= self.buffer@.len()
        &&& if self.buffer@.len() == 0 {
            self.start == 0 && self.end == 0 && self.size == 0
        } else {
            &&& self.start < self.buffer@.len()
            &&& self.end == self.slot(self.size as int)
            &&& forall|i: int| 0 <= i < self.size ==> (#[trigger] self.buffer@[self.slot(i)]) is Some
        }
    }

    /// Creates an empty buffer with no storage: capacity 0.
    pub fn new() -> (r: Self)
        ensures
            r.wf(),
            r@ == Seq::<T>::empty(),
            r.spec_capacity() == 0,
    {
        CircularBuffer { buffer: Vec::new(), start: 0, end: 0, size: 0 }
    }

    /// Creates an empty buffer backed by `capacity` slots.
    pub fn with_capacity(capacity: usize) -> (r: Self)
        ensures
            r.wf(),
            r@ == Seq::<T>::empty(),
            r.spec_capacity() == capacity,
    {
        let mut buffer: Vec<Option<T>> = Vec::with_capacity(capacity);
        let mut i: usize = 0;
        while i < capacity
            invariant
                i <= capacity,
                buffer@.len() == i,
            decreases capacity - i,
        {
            buffer.push(None);
            i = i + 1;
        }
        let r = CircularBuffer { buffer, start: 0, end: 0, size: 0 };
        proof {
            if capacity > 0 {
                assert((0int + 0int) % (capacity as int) == 0int) by (nonlinear_arith)
                    requires capacity > 0;
            }
            assert(r@ =~= Seq::<T>::empty());
        }
        r
    }

    /// Number of slots, fixed at construction.
    pub fn capacity(&self) -> (r: usize)
        ensures
            r == self.spec_capacity(),
    {
        self.buffer.len()
    }

    /// True when every slot is occupied.
    pub fn is_full(&self) -> (r: bool)
        requires
            self.wf(),
        ensures
            r == (self@.len() == self.spec_capacity()),
    {
        self.size == self.buffer.len()
    }

    /// True when nothing is stored.
    pub fn is_empty(&self) -> (r: bool)
        requires
            self.wf(),
        ensures
            r == (self@.len() == 0),
    {
        self.size == 0
    }

    /// Number of elements logically stored.
    pub fn size(&self) -> (r: usize)
        ensures
            r == self@.len(),
    {
        self.size
    }

    /// The physical slot backing logical index `idx`, by wraparound
    /// arithmetic over the window start.
    pub fn internal_index(&self, idx: usize) -> (r: usize)
        requires
            self.wf(),
            idx < self@.len(),
        ensures
            r == self.slot(idx as int),
            r < self.spec_capacity(),
    {
        let len = self.buffer.len();
        proof {
            lemma_mod_range(self.start + idx as int, len as int);
        }
        if idx < len - self.start {
            self.start + idx
        } else {
            idx - (len - self.start)
        }
    }

    /// The element at logical index `idx`, counting from the oldest.
    pub fn get(&self, idx: usize) -> (r: &T)
        requires
            self.wf(),
            idx < self@.len(),
        ensures
            *r == self@[idx as int],
    {
        let real_idx = self.internal_index(idx);
        proof {
            assert(self.buffer@[self.slot(idx as int)] is Some);
        }
        self.buffer[real_idx].as_ref().unwrap()
    }

    /// Replaces the element at logical index `idx`, leaving the rest of the
    /// buffer unchanged.
    pub fn set(&mut self, idx: usize, value: T)
        requires
            old(self).wf(),
            idx < old(self)@.len(),
        ensures
            final(self).wf(),
            final(self).spec_capacity() == old(self).spec_capacity(),
            final(self)@ == old(self)@.update(idx as int, value),
    {
        let real_idx = self.internal_index(idx);
        self.buffer.set(real_idx, Some(value));
        proof {
            let m = self.buffer@.len() as int;
            lemma_mod_range(self.start + idx as int, m);
            assert forall|i: int| 0 <= i < self.size implies (#[trigger] self.buffer@[self.slot(
                i,
            )]) is Some && (i != idx ==> self.buffer@[self.slot(i)] == old(self).buffer@[old(
                self,
            ).slot(i)]) by {
                lemma_mod_range(self.start + i, m);
                assert(old(self).buffer@[old(self).slot(i)] is Some);
            }
            assert(self@ =~= old(self)@.update(idx as int, value));
        }
    }

    /// The oldest element: the one at logical index 0.
    pub fn fast_front(&self) -> (r: &T)
        requires
            self.wf(),
            self@.len() > 0,
        ensures
            *r == self@[0],
    {
        proof {
            lemma_mod_range(self.start as int + 0, self.buffer@.len() as int);
            assert(self.buffer@[self.slot(0)] is Some);
        }
        self.buffer[self.start].as_ref().unwrap()
    }

    /// The newest element: the one at the highest logical index.
    pub fn fast_back(&self) -> (r: &T)
        requires
            self.wf(),
            self@.len() > 0,
        ensures
            *r == self@[self@.len() - 1],
    {
        let real_idx = self.internal_index(self.size - 1);
        proof {
            assert(self.buffer@[self.slot(self@.len() - 1)] is Some);
        }
        self.buffer[real_idx].as_ref().unwrap()
    }

    /// Appends `value` at the back. While there is room the size grows by
    /// one; on a full buffer the oldest element is overwritten and the
    /// window start advances, so the size stays at capacity.
    pub fn push_back(&mut self, value: T)
        requires
            old(self).wf(),
            old(self).spec_capacity() > 0,
        ensures
            final(self).wf(),
            final(self).spec_capacity() == old(self).spec_capacity(),
            final(self)@ == spec_ring_push_back(old(self)@, old(self).spec_capacity(), value),
    {
        let len = self.buffer.len();
        let ghost prev = *self;
        self.buffer.set(self.end, Some(value));
        self.end = if self.end + 1 == len { 0 } else { self.end + 1 };
        if self.size == len {
            self.start = self.end;
        } else {
            self.size = self.size + 1;
        }
        proof {
            let m = len as int;
            let start0 = prev.start as int;
            let size0 = prev.size as int;
            lemma_mod_range(start0 + size0, m);
            if size0 < m {
                // room left: the write lands on the free slot after the window
                lemma_mod_range(start0 + size0 + 1, m);
                assert forall|i: int| 0 <= i < self.size implies (#[trigger] self.buffer@[self.slot(
                    i,
                )]) is Some && self@[i] == (if i < size0 {
                    prev@[i]
                } else {
                    value
                }) by {
                    lemma_mod_range(start0 + i, m);
                    if i < size0 {
                        assert(prev.buffer@[prev.slot(i)] is Some);
                    }
                }
                assert(self@ =~= prev@.push(value));
            } else {
                // full: the oldest slot is overwritten and the window advances
                lemma_mod_range(start0 + m, m);
                lemma_mod_range(start0 + 1, m);
                let start1 = self.start as int;
                lemma_mod_range(start1 + m, m);
                assert forall|i: int| 0 <= i < m implies (#[trigger] self.buffer@[self.slot(i)])
                    is Some && self@[i] == (if i < m - 1 {
                    prev@[i + 1]
                } else {
                    value
                }) by {
                    lemma_mod_range(start1 + i, m);
                    if i < m - 1 {
                        lemma_mod_range(start0 + i + 1, m);
                        assert(prev.buffer@[prev.slot(i + 1)] is Some);
                    }
                }
                assert(self@ =~= prev@.drop_first().push(value));
            }
        }
    }

    /// Prepends `value` at the front. While there is room the size grows by
    /// one; on a full buffer the newest element is overwritten, so the size
    /// stays at capacity.
    pub fn push_front(&mut self, value: T)
        requires
            old(self).wf(),
            old(self).spec_capacity() > 0,
        ensures
            final(self).wf(),
            final(self).spec_capacity() == old(self).spec_capacity(),
            final(self)@ == spec_ring_push_front(old(self)@, old(self).spec_capacity(), value),
    {
        let len = self.buffer.len();
        let ghost prev = *self;
        let full = self.size == len;
        self.start = if self.start == 0 { len - 1 } else { self.start - 1 };
        if full {
            self.end = self.start;
        } else {
            self.size = self.size + 1;
        }
        self.buffer.set(self.start, Some(value));
        proof {
            let m = len as int;
            let start0 = prev.start as int;
            let size0 = prev.size as int;
            let start1 = self.start as int;
            lemma_mod_range(start0 + size0, m);
            lemma_mod_range(start0 - 1 + m, m);
            lemma_mod_range(start1 + self.size as int, m);
            assert forall|i: int| 0 <= i < self.size implies (#[trigger] self.buffer@[self.slot(i)])
                is Some && self@[i] == (if i == 0 {
                value
            } else {
                prev@[i - 1]
            }) by {
                lemma_mod_range(start1 + i, m);
                if i > 0 {
                    lemma_mod_range(start0 + i - 1, m);
                    assert(prev.buffer@[prev.slot(i - 1)] is Some);
                }
            }
            if size0 < m {
                assert(self@ =~= seq![value] + prev@);
            } else {
                assert(self@ =~= seq![value] + prev@.drop_last());
            }
        }
    }
}

impl<T> View for CircularBuffer<T> {
    type V = Seq<T>;

    closed spec fn view(&self) -> Seq<T> {
        Seq::new(self.size as nat, |i: int| self.buffer@[self.slot(i)].unwrap())
    }
}

/// The contents of a ring buffer of capacity `cap` after the elements of
/// `elems` are pushed at the back, in order, starting from empty.
pub open spec fn spec_ring_fill<T>(cap: nat, elems: Seq<T>) -> Seq<T>
    decreases elems.len(),
{
    if elems.len() == 0 {
        Seq::empty()
    } else {
        spec_ring_push_back(spec_ring_fill(cap, elems.drop_last()), cap, elems.last())
    }
}

/// While no more elements are pushed than the capacity, filling stores them
/// all, in push order.
pub proof fn lemma_ring_fill_in_order<T>(cap: nat, elems: Seq<T>)
    requires
        elems.len() <= cap,
    ensures
        spec_ring_fill(cap, elems) == elems,
    decreases elems.len(),
{
    if elems.len() == 0 {
        assert(spec_ring_fill(cap, elems) =~= elems);
    } else {
        lemma_ring_fill_in_order(cap, elems.drop_last());
        assert(spec_ring_fill(cap, elems) =~= elems);
    }
}

/// Pushing exactly `capacity` elements into an empty ring buffer stores them
/// in push order, so reading each logical index yields the element pushed at
/// that position; one more push on the now-full buffer drops logical index 0,
/// shifts the window, and leaves the size unchanged at capacity.
pub proof fn lemma_ring_buffer_push_order<T>(cap: nat, elems: Seq<T>, extra: T)
    requires
        elems.len() == cap,
    ensures
        spec_ring_fill(cap, elems) == elems,
        spec_ring_push_back(elems, cap, extra) == elems.drop_first().push(extra),
        cap > 0 ==> spec_ring_push_back(elems, cap, extra).len() == cap,
        forall|i: int| #![auto] 0 <= i < cap - 1 ==> spec_ring_push_back(elems, cap, extra)[i]
            == elems[i + 1],
{
    lemma_ring_fill_in_order(cap, elems);
}

} // verus!
