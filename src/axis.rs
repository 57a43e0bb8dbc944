use vstd::prelude::*;

verus! {

/// Number of scroll pixels that make one discrete step.
pub const SCROLL_PIXELS: i64 = 24;

/// Every offset counts thousandths of a pixel (or of a line).
pub const SUBUNITS: i64 = 1000;

/// Axis units (thousandths of a pixel) in one discrete step.
pub const LINE_UNITS: i64 = SCROLL_PIXELS * SUBUNITS;

/// Largest magnitude of one axis delta: a 32-bit line offset scaled to axis units.
pub const MAX_AXIS_DELTA: i64 = 0x8000_0000 * SCROLL_PIXELS;

/// Nanoseconds after which a pending fractional scroll is dropped.
pub const SCROLL_TIMEOUT: u64 = 100_000_000;

/// Whole steps in `total`, truncated toward zero.
pub open spec fn steps_of(total: int) -> int {
    if total >= 0 {
        total / (LINE_UNITS as int)
    } else {
        -((-total) / (LINE_UNITS as int))
    }
}

/// What is left of `total` once its whole steps are taken out; it has the sign of `total`.
pub open spec fn remainder(total: int) -> int {
    total - steps_of(total) * LINE_UNITS
}

/// A pending value recorded at `at` is stale at `now` (time running backwards counts as none passed).
pub open spec fn expired(at: u64, now: u64) -> bool {
    now > at && now - at > SCROLL_TIMEOUT
}

/// The leftover that a non-zero delta at `now` builds on.
pub open spec fn carried_in(pending: Option<(int, u64)>, now: u64) -> int {
    match pending {
        Some((leftover, at)) => if expired(at, now) { 0 } else { leftover },
        None => 0,
    }
}

/// Steps emitted by one axis update.
pub open spec fn axis_steps(pending: Option<(int, u64)>, delta: int, now: u64) -> int {
    if delta == 0 {
        0
    } else {
        steps_of(carried_in(pending, now) + delta)
    }
}

/// Pending state after one axis update.
pub open spec fn axis_pending(pending: Option<(int, u64)>, delta: int, now: u64) -> Option<(int, u64)> {
    if delta == 0 {
        None
    } else {
        Some((remainder(carried_in(pending, now) + delta), now))
    }
}

/// Scroll over a single axis: the fractional leftover of recent input and when it was recorded.
#[derive(Debug)]
pub struct Scroll {
    pending: Option<(i64, u64)>,
}

impl Scroll {
    #[verifier::type_invariant]
    spec fn leftover_in_range(self) -> bool {
        match self.pending {
            Some((leftover, _)) => -LINE_UNITS < leftover < LINE_UNITS,
            None => true,
        }
    }

    /// The pending leftover and its timestamp, if any.
    pub closed spec fn view(&self) -> Option<(int, u64)> {
        match self.pending {
            Some((leftover, at)) => Some((leftover as int, at)),
            None => None,
        }
    }

    pub fn new() -> (r: Self)
        ensures
            r@ == None::<(int, u64)>,
    {
        Scroll { pending: None }
    }

    /// Drops any pending leftover.
    pub fn reset(&mut self)
        ensures
            final(self)@ == None::<(int, u64)>,
    {
        self.pending = None;
    }

    /// The pending leftover (in axis units) and the time it was recorded.
    pub fn pending(&self) -> (r: Option<(i64, u64)>)
        ensures
            match r {
                Some((leftover, at)) => self@ == Some((leftover as int, at)),
                None => self@ == None::<(int, u64)>,
            },
    {
        self.pending
    }

    /// Adds `delta` axis units at time `now` and returns the whole steps that completes.
    pub fn update(&mut self, delta: i64, now: u64) -> (r: isize)
        requires
            -MAX_AXIS_DELTA <= delta <= MAX_AXIS_DELTA,
        ensures
            r as int == axis_steps(old(self)@, delta as int, now),
            final(self)@ == axis_pending(old(self)@, delta as int, now),
    {
        proof {
            use_type_invariant(&*self);
        }
        if delta == 0 {
            self.pending = None;
            return 0;
        }
        let previous: i64 = match self.pending {
            Some((leftover, at)) => {
                if now > at && now - at > SCROLL_TIMEOUT {
                    0
                } else {
                    leftover
                }
            },
            None => 0,
        };
        let total: i64 = previous + delta;
        let (steps, rest) = if total >= 0 {
            let t = total as u64;
            ((t / LINE_UNITS as u64) as i64, (t % LINE_UNITS as u64) as i64)
        } else {
            let t = (-total) as u64;
            (-((t / LINE_UNITS as u64) as i64), -((t % LINE_UNITS as u64) as i64))
        };
        self.pending = Some((rest, now));
        steps as isize
    }
}

impl Default for Scroll {
    fn default() -> (r: Self)
        ensures
            r@ == None::<(int, u64)>,
    {
        Scroll::new()
    }
}

} // verus!
