//! The load-average view: a sliding window of samples, the chart data drawn
//! from it, and the cache of the drawn chart.
//!
//! Every change to the window goes through `push_load_avg`, which also drops
//! the cached chart, so a cached chart always shows the current window.

use vstd::prelude::*;
use crate::redraw::{computes, Bounds, RedrawCache};
use crate::sample::{normalized, LoadAvgValue, RawLoadAvg};
use crate::window::{fresh, pushed, SlidingWindow, CAPACITY};

verus! {

/// Upper end of the chart's vertical axis above the newest reading, in
/// hundredths (2.5).
pub const Y_HEADROOM: u64 = 250;

/// Upper end of the vertical axis while no reading has arrived, in
/// hundredths (1.0).
pub const Y_DEFAULT_END: u64 = 100;

/// Messages of the view. The chart is passive and takes no input; the one
/// message exists only because a message type needs a value, and it changes
/// nothing.
#[derive(Debug, Clone, Copy, PartialEq, Eq, Structural)]
pub enum LoadAvgMessage {
    Idle,
}

/// One of the three plotted series.
#[derive(Debug, Clone, Copy, PartialEq, Eq, Structural)]
pub enum Series {
    OneMinute,
    FiveMinute,
    FifteenMinute,
}

/// The reading of `v` that series `which` plots.
pub open spec fn reading(v: LoadAvgValue, which: Series) -> u64 {
    match which {
        Series::OneMinute => v.one_m,
        Series::FiveMinute => v.five_m,
        Series::FifteenMinute => v.fifteen_m,
    }
}

/// The points series `which` plots for the samples `s`: each sample's
/// position and reading, oldest first, leaving out zero readings (a zero
/// stands for a slot not yet filled).
pub open spec fn series_points(s: Seq<LoadAvgValue>, which: Series) -> Seq<(usize, u64)>
    decreases s.len(),
{
    if s.len() == 0 {
        Seq::empty()
    } else {
        let prev = series_points(s.drop_last(), which);
        let v = reading(s.last(), which);
        if v != 0 {
            prev.push(((s.len() - 1) as usize, v))
        } else {
            prev
        }
    }
}

/// Upper end of the vertical axis, in hundredths: the newest reading's
/// one-minute value plus the headroom, or the default while there is none.
pub open spec fn y_end(last: Option<LoadAvgValue>) -> int {
    match last {
        Some(v) => v.one_m + Y_HEADROOM,
        None => Y_DEFAULT_END as int,
    }
}

/// Everything the renderer needs to draw the chart.
pub struct ChartData {
    /// Upper end of the vertical axis, in hundredths.
    pub y_end: u128,
    /// Last position on the horizontal axis.
    pub x_end: usize,
    pub one_m: Vec<(usize, u64)>,
    pub five_m: Vec<(usize, u64)>,
    pub fifteen_m: Vec<(usize, u64)>,
}

impl ChartData {
    /// This is the chart of samples `s`, whose newest real reading is `last`.
    pub open spec fn describes(&self, s: Seq<LoadAvgValue>, last: Option<LoadAvgValue>) -> bool {
        &&& self.y_end == y_end(last)
        &&& self.x_end == s.len() - 1
        &&& self.one_m@ == series_points(s, Series::OneMinute)
        &&& self.five_m@ == series_points(s, Series::FiveMinute)
        &&& self.fifteen_m@ == series_points(s, Series::FifteenMinute)
    }
}

impl SlidingWindow {
    /// The newest real reading, as `last` returns it.
    pub open spec fn newest(&self) -> Option<LoadAvgValue> {
        if self.has_received() {
            Some(self@.last())
        } else {
            None
        }
    }

    /// The points of series `which`: position and reading of every sample
    /// whose reading is not zero, oldest first.
    pub fn series(&self, which: Series) -> (r: Vec<(usize, u64)>)
        requires
            self.well_formed(),
        ensures
            r@ == series_points(self@, which),
    {
        proof {
            self.lemma_length_is_capacity();
        }
        let mut r: Vec<(usize, u64)> = Vec::new();
        let mut i: usize = 0;
        while i < CAPACITY
            invariant
                self.well_formed(),
                i <= CAPACITY,
                self@.len() == CAPACITY,
                r@ == series_points(self@.take(i as int), which),
            decreases CAPACITY - i,
        {
            let v = self.get(i);
            let x = match which {
                Series::OneMinute => v.one_m,
                Series::FiveMinute => v.five_m,
                Series::FifteenMinute => v.fifteen_m,
            };
            assert(self@.take(i + 1).drop_last() =~= self@.take(i as int));
            if x != 0 {
                r.push((i, x));
            }
            i = i + 1;
        }
        assert(self@.take(CAPACITY as int) =~= self@);
        r
    }

    /// Upper end of the vertical axis, in hundredths.
    pub fn y_spec_end(&self) -> (r: u128)
        requires
            self.well_formed(),
        ensures
            r == y_end(self.newest()),
    {
        match self.last() {
            Some(v) => v.one_m as u128 + Y_HEADROOM as u128,
            None => Y_DEFAULT_END as u128,
        }
    }

    /// The chart of the current contents.
    pub fn chart_data(&self) -> (d: ChartData)
        requires
            self.well_formed(),
        ensures
            d.describes(self@, self.newest()),
    {
        ChartData {
            y_end: self.y_spec_end(),
            x_end: self.len() - 1,
            one_m: self.series(Series::OneMinute),
            five_m: self.series(Series::FiveMinute),
            fifteen_m: self.series(Series::FifteenMinute),
        }
    }
}

/// The chart of load averages: the window of samples and the cache of its
/// drawn geometry (of type `G`).
pub struct LoadAvgView<G> {
    window: SlidingWindow,
    cache: RedrawCache<G>,
    drawn_from: Ghost<ChartData>,
}

impl<G> Default for LoadAvgView<G> {
    fn default() -> (v: Self)
        ensures
            v.well_formed(),
            v.samples() == fresh(),
            v.newest() == None::<LoadAvgValue>,
            v.cache_key() == None::<Bounds>,
            v.cached() == None::<G>,
            v.computations() == 0,
            v.coherent(),
    {
        LoadAvgView::new()
    }
}

impl<G> LoadAvgView<G> {
    /// The window's samples, oldest first.
    pub closed spec fn samples(&self) -> Seq<LoadAvgValue> {
        self.window@
    }

    /// The newest real reading, if any has arrived.
    pub closed spec fn newest(&self) -> Option<LoadAvgValue> {
        self.window.newest()
    }

    /// Bounds of the cached chart, or `None` when it must be drawn afresh.
    pub closed spec fn cache_key(&self) -> Option<Bounds> {
        self.cache.key()
    }

    /// The cached chart, when there is a valid one.
    pub closed spec fn cached(&self) -> Option<G> {
        self.cache.memo()
    }

    /// How many times the chart has been drawn.
    pub closed spec fn computations(&self) -> nat {
        self.cache.computations()
    }

    /// The chart data the cached chart was drawn from.
    pub closed spec fn drawn_from(&self) -> ChartData {
        self.drawn_from@
    }

    /// The cached chart, if any, shows the current window.
    pub open spec fn coherent(&self) -> bool {
        self.cache_key() is Some ==> self.drawn_from().describes(self.samples(), self.newest())
    }

    pub closed spec fn well_formed(&self) -> bool {
        self.window.well_formed()
    }

    /// A view of `CAPACITY` sentinel samples with nothing drawn yet.
    pub fn new() -> (v: LoadAvgView<G>)
        ensures
            v.well_formed(),
            v.samples() == fresh(),
            v.newest() == None::<LoadAvgValue>,
            v.cache_key() == None::<Bounds>,
            v.cached() == None::<G>,
            v.computations() == 0,
            v.coherent(),
    {
        let window = SlidingWindow::new();
        let cache = RedrawCache::new();
        LoadAvgView { window, cache, drawn_from: Ghost(arbitrary()) }
    }

    /// The window of samples.
    pub fn window(&self) -> (w: &SlidingWindow)
        requires
            self.well_formed(),
        ensures
            w.well_formed(),
            w@ == self.samples(),
            w.newest() == self.newest(),
    {
        &self.window
    }

    /// Takes one reading: rounds each raw value to hundredths and pushes the
    /// sample, evicting the oldest. The cached chart is left as it is; pair
    /// this with `clear_canvas_cache`, as `ingest` does.
    pub fn push_load_avg(&mut self, load_avg: RawLoadAvg)
        requires
            old(self).well_formed(),
        ensures
            final(self).well_formed(),
            final(self).samples() == pushed(old(self).samples(), normalized(load_avg)),
            final(self).newest() == Some(normalized(load_avg)),
            final(self).cache_key() == old(self).cache_key(),
            final(self).cached() == old(self).cached(),
            final(self).computations() == old(self).computations(),
            final(self).drawn_from() == old(self).drawn_from(),
    {
        let value = LoadAvgValue::from_raw(load_avg);
        self.window.push(value);
    }

    /// Drops the cached chart so that the next draw starts afresh.
    pub fn clear_canvas_cache(&mut self)
        requires
            old(self).well_formed(),
        ensures
            final(self).well_formed(),
            final(self).samples() == old(self).samples(),
            final(self).newest() == old(self).newest(),
            final(self).cache_key() == None::<Bounds>,
            final(self).cached() == None::<G>,
            final(self).computations() == old(self).computations(),
            final(self).coherent(),
    {
        self.cache.invalidate();
    }

    /// One ingestion step: pushes the reading and drops the cached chart, so
    /// the next draw shows the new window.
    pub fn ingest(&mut self, load_avg: RawLoadAvg)
        requires
            old(self).well_formed(),
        ensures
            final(self).well_formed(),
            final(self).samples() == pushed(old(self).samples(), normalized(load_avg)),
            final(self).newest() == Some(normalized(load_avg)),
            final(self).cache_key() == None::<Bounds>,
            final(self).cached() == None::<G>,
            final(self).computations() == old(self).computations(),
            final(self).coherent(),
    {
        self.push_load_avg(load_avg);
        self.clear_canvas_cache();
    }

    /// Reacts to a message; the chart takes no input, so nothing changes.
    pub fn update(&mut self, msg: LoadAvgMessage)
        ensures
            *final(self) == *old(self),
    {
        match msg {
            LoadAvgMessage::Idle => {},
        }
    }

    /// The chart for a surface of size `bounds`. The cached chart is reused
    /// when it was drawn for these bounds; otherwise `draw_fn` draws it once
    /// from the current chart data, and the result is cached.
    pub fn draw<F: FnOnce(Bounds, ChartData) -> G>(&mut self, bounds: Bounds, draw_fn: F) -> (r: &G)
        requires
            old(self).well_formed(),
            forall|d: ChartData| draw_fn.requires((bounds, d)),
        ensures
            final(self).well_formed(),
            final(self).samples() == old(self).samples(),
            final(self).newest() == old(self).newest(),
            final(self).cache_key() == Some(bounds),
            final(self).cached() == Some(*r),
            final(self).computations() == old(self).computations() + computes(
                old(self).cache_key(),
                bounds,
            ),
            old(self).cache_key() == Some(bounds) ==> {
                &&& final(self).cached() == old(self).cached()
                &&& final(self).drawn_from() == old(self).drawn_from()
            },
            old(self).cache_key() != Some(bounds) ==> {
                &&& final(self).drawn_from().describes(old(self).samples(), old(self).newest())
                &&& draw_fn.ensures((bounds, final(self).drawn_from()), *r)
            },
            old(self).coherent() ==> final(self).coherent(),
    {
        let data = self.window.chart_data();
        let ghost snapshot = data;
        self.drawn_from = Ghost(
            if self.cache.key() == Some(bounds) {
                self.drawn_from@
            } else {
                snapshot
            },
        );
        let compute = move |b: Bounds| -> (g: G)
            requires
                draw_fn.requires((b, data)),
            ensures
                draw_fn.ensures((b, snapshot), g),
            { draw_fn(b, data) };
        self.cache.get_or_compute(bounds, compute)
    }
}

} // verus!
