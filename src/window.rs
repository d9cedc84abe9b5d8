//! The fixed-capacity sliding window of samples behind the chart.
//!
//! The window is a ring: an arena of `CAPACITY` slots and a cursor at the
//! oldest slot. A push overwrites the oldest slot and moves the cursor on, so
//! the length never changes and nothing is allocated after construction.

use vstd::prelude::*;
use crate::sample::{sentinel, LoadAvgValue};

verus! {

/// Number of samples a window holds.
pub const CAPACITY: usize = 200;

/// The contents after pushing `v` onto contents `s`: the oldest leaves,
/// `v` joins at the back.
pub open spec fn pushed(s: Seq<LoadAvgValue>, v: LoadAvgValue) -> Seq<LoadAvgValue> {
    s.drop_first().push(v)
}

/// The contents after pushing each of `vs`, in order, onto contents `s`.
pub open spec fn pushed_all(s: Seq<LoadAvgValue>, vs: Seq<LoadAvgValue>) -> Seq<LoadAvgValue>
    decreases vs.len(),
{
    if vs.len() == 0 {
        s
    } else {
        pushed(pushed_all(s, vs.drop_last()), vs.last())
    }
}

/// The contents of a fresh window: `CAPACITY` sentinel samples.
pub open spec fn fresh() -> Seq<LoadAvgValue> {
    Seq::new(CAPACITY as nat, |i: int| sentinel())
}

/// The window as the chart reads it: each sample with its position,
/// oldest first.
pub open spec fn indexed(s: Seq<LoadAvgValue>) -> Seq<(usize, LoadAvgValue)> {
    Seq::new(s.len(), |i: int| (i as usize, s[i]))
}

/// Pushing keeps the length: from contents of `CAPACITY` samples, any
/// sequence of pushes leaves exactly `CAPACITY` samples.
pub proof fn lemma_pushes_keep_length(s: Seq<LoadAvgValue>, vs: Seq<LoadAvgValue>)
    requires
        s.len() == CAPACITY,
    ensures
        pushed_all(s, vs).len() == CAPACITY,
    decreases vs.len(),
{
    if vs.len() > 0 {
        lemma_pushes_keep_length(s, vs.drop_last());
    }
}

/// After a run of pushes the window holds the last `CAPACITY` samples of the
/// old contents and the pushed ones taken together, in order.
pub proof fn lemma_pushes_shift(s: Seq<LoadAvgValue>, vs: Seq<LoadAvgValue>)
    requires
        s.len() == CAPACITY,
    ensures
        pushed_all(s, vs) == (s + vs).subrange(vs.len() as int, vs.len() + CAPACITY),
    decreases vs.len(),
{
    if vs.len() > 0 {
        let prev = vs.drop_last();
        lemma_pushes_shift(s, prev);
        assert(s + vs == (s + prev).push(vs.last()));
        assert(pushed_all(s, vs) =~= (s + vs).subrange(vs.len() as int, vs.len() + CAPACITY));
    }
}

/// First in, first out: after pushing at least `CAPACITY` samples the window
/// holds exactly the last `CAPACITY` of them in push order; what it held
/// before, and the earlier pushes, are gone.
pub proof fn lemma_fifo(s: Seq<LoadAvgValue>, vs: Seq<LoadAvgValue>)
    requires
        s.len() == CAPACITY,
        vs.len() >= CAPACITY,
    ensures
        pushed_all(s, vs) == vs.subrange(vs.len() - CAPACITY, vs.len() as int),
{
    lemma_pushes_shift(s, vs);
    assert((s + vs).subrange(vs.len() as int, vs.len() + CAPACITY) =~= vs.subrange(
        vs.len() - CAPACITY,
        vs.len() as int,
    ));
}

/// A window of exactly `CAPACITY` samples, oldest first, that remembers
/// whether it has received any sample since it was built.
pub struct SlidingWindow {
    slots: Vec<LoadAvgValue>,
    head: usize,
    received: bool,
}

impl View for SlidingWindow {
    type V = Seq<LoadAvgValue>;

    /// The samples, oldest first.
    closed spec fn view(&self) -> Seq<LoadAvgValue> {
        Seq::new(CAPACITY as nat, |i: int| self.slots@[(self.head + i) % (CAPACITY as int)])
    }
}

impl Default for SlidingWindow {
    fn default() -> (w: Self)
        ensures
            w.well_formed(),
            w@ == fresh(),
            !w.has_received(),
    {
        SlidingWindow::new()
    }
}

impl SlidingWindow {
    /// The arena holds exactly `CAPACITY` slots and the cursor points into it.
    pub closed spec fn well_formed(&self) -> bool {
        &&& self.slots@.len() == CAPACITY
        &&& self.head < CAPACITY
    }

    /// Every window, in every state, holds exactly `CAPACITY` samples.
    pub proof fn lemma_length_is_capacity(&self)
        ensures
            self@.len() == CAPACITY,
    {
    }

    /// Whether any sample has been pushed since construction.
    pub closed spec fn has_received(&self) -> bool {
        self.received
    }

    /// A window of `CAPACITY` sentinel samples that has received nothing.
    pub fn new() -> (w: SlidingWindow)
        ensures
            w.well_formed(),
            w@ == fresh(),
            !w.has_received(),
    {
        let mut slots: Vec<LoadAvgValue> = Vec::with_capacity(CAPACITY);
        let mut i: usize = 0;
        while i < CAPACITY
            invariant
                i <= CAPACITY,
                slots@.len() == i,
                forall|j: int| 0 <= j < i ==> slots@[j] == sentinel(),
            decreases CAPACITY - i,
        {
            slots.push(LoadAvgValue::default());
            i = i + 1;
        }
        let w = SlidingWindow { slots, head: 0, received: false };
        assert(w@ =~= fresh());
        w
    }

    /// Number of samples held; always `CAPACITY`.
    pub fn len(&self) -> (n: usize)
        ensures
            n == self@.len(),
            n == CAPACITY,
    {
        CAPACITY
    }

    /// Evicts the oldest sample and appends `value` as the newest.
    pub fn push(&mut self, value: LoadAvgValue)
        requires
            old(self).well_formed(),
        ensures
            final(self).well_formed(),
            final(self)@ == pushed(old(self)@, value),
            final(self)@.len() == CAPACITY,
            final(self).has_received(),
    {
        let h = self.head;
        self.slots.set(h, value);
        self.head = if h + 1 == CAPACITY {
            0
        } else {
            h + 1
        };
        self.received = true;
        assert(self@ =~= pushed(old(self)@, value));
    }

    /// The sample at position `i`, counting from the oldest.
    pub fn get(&self, i: usize) -> (v: LoadAvgValue)
        requires
            self.well_formed(),
            i < CAPACITY,
        ensures
            v == self@[i as int],
    {
        let k = if self.head + i >= CAPACITY {
            self.head + i - CAPACITY
        } else {
            self.head + i
        };
        self.slots[k]
    }

    /// The most recently pushed sample, or `None` while the window holds
    /// only the sentinels it was built with.
    pub fn last(&self) -> (r: Option<LoadAvgValue>)
        requires
            self.well_formed(),
        ensures
            r == (if self.has_received() {
                Some(self@.last())
            } else {
                None::<LoadAvgValue>
            }),
    {
        if self.received {
            Some(self.get(CAPACITY - 1))
        } else {
            None
        }
    }

    /// Every sample with its position, oldest first. Reading does not
    /// change the window, so two reads with no push between them agree.
    pub fn iterate(&self) -> (r: Vec<(usize, LoadAvgValue)>)
        requires
            self.well_formed(),
        ensures
            r@ == indexed(self@),
    {
        let mut r: Vec<(usize, LoadAvgValue)> = Vec::with_capacity(CAPACITY);
        let mut i: usize = 0;
        while i < CAPACITY
            invariant
                self.well_formed(),
                i <= CAPACITY,
                r@.len() == i,
                forall|j: int| 0 <= j < i ==> r@[j] == (j as usize, self@[j]),
            decreases CAPACITY - i,
        {
            r.push((i, self.get(i)));
            i = i + 1;
        }
        assert(r@ =~= indexed(self@));
        r
    }
}

} // verus!
