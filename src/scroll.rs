use vstd::prelude::*;

use crate::axis::{axis_pending, axis_steps, Scroll, SCROLL_PIXELS};

verus! {

/// One scroll event. Offsets count thousandths of a pixel or of a line.
#[derive(Debug, Clone, Copy, PartialEq, Eq)]
pub enum ScrollDelta {
    /// Pixel-precise offsets.
    Pixels { x: i32, y: i32 },
    /// Offsets already in lines, one line being one discrete step.
    Lines { x: i32, y: i32 },
}

impl ScrollDelta {
    /// The event's horizontal offset in axis units (thousandths of a pixel).
    pub open spec fn x_units(self) -> int {
        match self {
            ScrollDelta::Pixels { x, .. } => x as int,
            ScrollDelta::Lines { x, .. } => x as int * SCROLL_PIXELS,
        }
    }

    /// The event's vertical offset in axis units (thousandths of a pixel).
    pub open spec fn y_units(self) -> int {
        match self {
            ScrollDelta::Pixels { y, .. } => y as int,
            ScrollDelta::Lines { y, .. } => y as int * SCROLL_PIXELS,
        }
    }

    /// Both offsets in axis units.
    pub fn axis_units(self) -> (r: (i64, i64))
        ensures
            r.0 as int == self.x_units(),
            r.1 as int == self.y_units(),
    {
        match self {
            ScrollDelta::Pixels { x, y } => (x as i64, y as i64),
            ScrollDelta::Lines { x, y } => (x as i64 * SCROLL_PIXELS, y as i64 * SCROLL_PIXELS),
        }
    }
}

/// A scroll delta with discrete integer deltas.
#[derive(Debug, Default, Clone, Copy, PartialEq, Eq)]
pub struct DiscreteScrollDelta {
    pub x: isize,
    pub y: isize,
}

/// Pending state of both axes: horizontal, then vertical.
pub type ScrollView = (Option<(int, u64)>, Option<(int, u64)>);

/// The state with nothing pending on either axis.
pub open spec fn idle() -> ScrollView {
    (None, None)
}

/// Steps that `delta` at `now` yields on each axis from state `s`.
pub open spec fn scroll_steps(s: ScrollView, delta: ScrollDelta, now: u64) -> (int, int) {
    (axis_steps(s.0, delta.x_units(), now), axis_steps(s.1, delta.y_units(), now))
}

/// State after `delta` arrives at `now` in state `s`.
pub open spec fn scroll_next(s: ScrollView, delta: ScrollDelta, now: u64) -> ScrollView {
    (axis_pending(s.0, delta.x_units(), now), axis_pending(s.1, delta.y_units(), now))
}

/// Accumulates pixel or line scrolls and converts them into an integer
/// delta between discrete options.
#[derive(Debug)]
pub struct DiscreteScrollState {
    x: Scroll,
    y: Scroll,
}

impl DiscreteScrollState {
    pub closed spec fn view(&self) -> ScrollView {
        (self.x@, self.y@)
    }

    pub fn new() -> (r: Self)
        ensures
            r@ == idle(),
    {
        DiscreteScrollState { x: Scroll::new(), y: Scroll::new() }
    }

    /// Drops pending leftovers on both axes.
    pub fn reset(&mut self)
        ensures
            final(self)@ == idle(),
    {
        self.x.reset();
        self.y.reset();
    }

    /// Accumulates `delta`, received at time `now`, and returns the whole steps per axis.
    pub fn update(&mut self, delta: ScrollDelta, now: u64) -> (r: DiscreteScrollDelta)
        ensures
            (r.x as int, r.y as int) == scroll_steps(old(self)@, delta, now),
            final(self)@ == scroll_next(old(self)@, delta, now),
    {
        let (dx, dy) = delta.axis_units();
        let x = self.x.update(dx, now);
        let y = self.y.update(dy, now);
        DiscreteScrollDelta { x, y }
    }

    /// The horizontal axis.
    pub fn x(&self) -> (r: &Scroll)
        ensures
            r@ == self@.0,
    {
        &self.x
    }

    /// The vertical axis.
    pub fn y(&self) -> (r: &Scroll)
        ensures
            r@ == self@.1,
    {
        &self.y
    }
}

impl Default for DiscreteScrollState {
    fn default() -> (r: Self)
        ensures
            r@ == idle(),
    {
        DiscreteScrollState::new()
    }
}

} // verus!
