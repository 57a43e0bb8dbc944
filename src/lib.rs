//! Turns pixel- or line-based scroll input into whole discrete steps per axis.
//!
//! Offsets are exact fixed-point values: every amount counts thousandths of a
//! pixel or of a line, so accumulation never drifts. Time is supplied by the
//! caller as a reading of a monotonic clock in nanoseconds.
mod axis;
mod laws;
mod scroll;

pub use axis::{
    axis_pending, axis_steps, carried_in, expired, remainder, steps_of, Scroll, LINE_UNITS,
    MAX_AXIS_DELTA, SCROLL_PIXELS, SCROLL_TIMEOUT, SUBUNITS,
};
pub use laws::{
    axis_run, is_burst, lemma_burst_conserves, lemma_burst_whole_steps, lemma_fresh_merges,
    lemma_idle_update, lemma_remainder_bounds, lemma_stale_discarded, lemma_zero_clears, total,
};
pub use scroll::{
    idle, scroll_next, scroll_steps, DiscreteScrollDelta, DiscreteScrollState, ScrollDelta,
    ScrollView,
};
