//! Memoised chart geometry with explicit invalidation.
//!
//! The cache keeps at most one rendered result together with the surface
//! bounds it was drawn for. A request with the same bounds is served from the
//! cache until `invalidate` drops the result; any other request draws afresh.

use vstd::prelude::*;

verus! {

/// The size of a drawing surface, as exact encodings of its width and height.
/// Two bounds are the same surface size exactly when both fields agree.
#[derive(Debug, Clone, Copy, PartialEq, Eq, Structural)]
pub struct Bounds {
    pub width: u32,
    pub height: u32,
}

/// Number of times one request with `bounds` draws afresh, for a cache whose
/// current result was drawn for `key` (`None`: no valid result).
pub open spec fn computes(key: Option<Bounds>, bounds: Bounds) -> nat {
    if key == Some(bounds) {
        0
    } else {
        1
    }
}

/// Number of times a run of requests, with the bounds in `calls` in order,
/// draws afresh, starting from a cache whose result is for `key`. After each
/// request the cache holds a result for that request's bounds.
pub open spec fn computes_all(key: Option<Bounds>, calls: Seq<Bounds>) -> nat
    decreases calls.len(),
{
    if calls.len() == 0 {
        0
    } else {
        computes(key, calls[0]) + computes_all(Some(calls[0]), calls.drop_first())
    }
}

/// Once per invalidation: after `invalidate`, a run of one or more requests
/// with the same bounds draws exactly once; the first request draws and the
/// rest are served from the cache.
pub proof fn lemma_computes_once(bounds: Bounds, n: nat)
    requires
        n >= 1,
    ensures
        computes_all(None, Seq::new(n, |i: int| bounds)) == 1,
{
    let calls = Seq::new(n, |i: int| bounds);
    lemma_served_from_cache(bounds, (n - 1) as nat);
    assert(calls.drop_first() =~= Seq::new((n - 1) as nat, |i: int| bounds));
}

/// A cache that holds a result for `bounds` serves any number of requests
/// with those bounds without drawing.
pub proof fn lemma_served_from_cache(bounds: Bounds, n: nat)
    ensures
        computes_all(Some(bounds), Seq::new(n, |i: int| bounds)) == 0,
    decreases n,
{
    if n > 0 {
        let calls = Seq::new(n, |i: int| bounds);
        lemma_served_from_cache(bounds, (n - 1) as nat);
        assert(calls.drop_first() =~= Seq::new((n - 1) as nat, |i: int| bounds));
    }
}

/// At most one drawn result of type `G`, with the bounds it was drawn for.
pub struct RedrawCache<G> {
    memo: Option<(Bounds, G)>,
    computations: Ghost<nat>,
}

impl<G> RedrawCache<G> {
    /// The bounds of the held result, or `None` when there is no valid result.
    pub closed spec fn key(&self) -> Option<Bounds> {
        match self.memo {
            Some((b, _)) => Some(b),
            None => None,
        }
    }

    /// The held result, when there is a valid one.
    pub closed spec fn memo(&self) -> Option<G> {
        match self.memo {
            Some((_, g)) => Some(g),
            None => None,
        }
    }

    /// How many times this cache has drawn a result since it was made.
    pub closed spec fn computations(&self) -> nat {
        self.computations@
    }

    /// An empty cache: the first request draws.
    pub fn new() -> (c: RedrawCache<G>)
        ensures
            c.key() == None::<Bounds>,
            c.memo() == None::<G>,
            c.computations() == 0,
    {
        RedrawCache { memo: None, computations: Ghost(0) }
    }

    /// Marks the held result stale: the next request draws afresh.
    pub fn invalidate(&mut self)
        ensures
            final(self).key() == None::<Bounds>,
            final(self).memo() == None::<G>,
            final(self).computations() == old(self).computations(),
    {
        self.memo = None;
    }

    /// Whether a valid result is held.
    pub fn is_valid(&self) -> (r: bool)
        ensures
            r == self.key().is_some(),
    {
        self.memo.is_some()
    }

    /// The result for `bounds`. When the cache holds one for these bounds it
    /// hands that result out and does not call `compute_fn`; otherwise it
    /// calls `compute_fn` once with `bounds`, keeps the result for later
    /// requests, and hands it out.
    pub fn get_or_compute<F: FnOnce(Bounds) -> G>(&mut self, bounds: Bounds, compute_fn: F) -> (r: &G)
        requires
            compute_fn.requires((bounds,)),
        ensures
            final(self).key() == Some(bounds),
            final(self).memo() == Some(*r),
            final(self).computations() == old(self).computations() + computes(old(self).key(), bounds),
            old(self).key() == Some(bounds) ==> final(self).memo() == old(self).memo(),
            old(self).key() != Some(bounds) ==> compute_fn.ensures((bounds,), *r),
    {
        let hit = match &self.memo {
            Some((b, _)) => *b == bounds,
            None => false,
        };
        if !hit {
            let g = compute_fn(bounds);
            self.memo = Some((bounds, g));
            self.computations = Ghost(self.computations@ + 1);
        }
        let kept: &(Bounds, G) = self.memo.as_ref().unwrap();
        &kept.1
    }
}

} // verus!
