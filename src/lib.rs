//! Verified core of a load-average monitor: the fixed-point sample type,
//! the fixed-capacity sliding window that feeds the chart, and the redraw
//! cache that keeps chart geometry until the window changes.

pub mod sample;
pub mod window;
pub mod redraw;
pub mod view;
