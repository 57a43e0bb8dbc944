use discrete_scroll::{
    DiscreteScrollDelta, DiscreteScrollState, Scroll, ScrollDelta, LINE_UNITS, SCROLL_TIMEOUT,
};

const MS: u64 = 1_000_000;

#[test]
fn burst_of_pixels_sums_to_whole_steps() {
    let mut s = DiscreteScrollState::new();
    let xs = [10_000, 10_000, 7_500, 12_500, 8_000];
    let mut sum: isize = 0;
    for (i, x) in xs.iter().enumerate() {
        sum += s.update(ScrollDelta::Pixels { x: *x, y: 0 }, i as u64 * 50 * MS).x;
    }
    assert_eq!(sum, 2);
    assert_eq!(s.x().pending(), Some((0, 200 * MS)));
}

#[test]
fn burst_with_direction_change_sums_to_whole_steps() {
    let mut s = Scroll::new();
    let deltas = [30_000, -7_000, 20_000, -19_000, 24_000];
    let mut sum: isize = 0;
    for (i, d) in deltas.iter().enumerate() {
        sum += s.update(*d, i as u64 * 10 * MS);
    }
    assert_eq!(sum, 2);
    assert_eq!(s.pending(), Some((0, 40 * MS)));
}

#[test]
fn zero_delta_clears_axis() {
    let mut primed = Scroll::new();
    assert_eq!(primed.update(14_400, 0), 0);
    assert_eq!(primed.update(0, MS), 0);
    assert_eq!(primed.pending(), None);
    let mut fresh = Scroll::new();
    assert_eq!(primed.update(14_400, 2 * MS), fresh.update(14_400, 2 * MS));
    assert_eq!(primed.pending(), fresh.pending());
    assert_eq!(primed.pending(), Some((14_400, 2 * MS)));
}

#[test]
fn stale_leftover_is_discarded() {
    let mut s = DiscreteScrollState::new();
    let r = s.update(ScrollDelta::Lines { x: 0, y: 900 }, 0);
    assert_eq!(r, DiscreteScrollDelta { x: 0, y: 0 });
    assert_eq!(s.y().pending(), Some((21_600, 0)));
    let r = s.update(ScrollDelta::Lines { x: 0, y: 900 }, 150 * MS);
    assert_eq!(r, DiscreteScrollDelta { x: 0, y: 0 });
    assert_eq!(s.y().pending(), Some((21_600, 150 * MS)));
}

#[test]
fn fresh_leftover_merges() {
    let mut s = DiscreteScrollState::new();
    let r = s.update(ScrollDelta::Lines { x: 600, y: 0 }, 0);
    assert_eq!(r.x, 0);
    assert_eq!(s.x().pending(), Some((14_400, 0)));
    let r = s.update(ScrollDelta::Lines { x: 600, y: 0 }, 60 * MS);
    assert_eq!(r.x, 1);
    assert_eq!(s.x().pending(), Some((4_800, 60 * MS)));
}

#[test]
fn leftover_at_exactly_the_timeout_still_merges() {
    let mut s = Scroll::new();
    assert_eq!(s.update(21_600, 5), 0);
    assert_eq!(s.update(21_600, 5 + SCROLL_TIMEOUT), 1);
    assert_eq!(s.pending(), Some((19_200, 5 + SCROLL_TIMEOUT)));
    assert_eq!(s.update(21_600, 6 + 2 * SCROLL_TIMEOUT), 0);
}

#[test]
fn clock_running_backwards_keeps_leftover() {
    let mut s = Scroll::new();
    assert_eq!(s.update(21_600, 500 * MS), 0);
    assert_eq!(s.update(21_600, 0), 1);
}

#[test]
fn reset_then_update_matches_fresh() {
    let mut used = DiscreteScrollState::new();
    used.update(ScrollDelta::Pixels { x: 20_000, y: -20_000 }, 0);
    used.reset();
    assert_eq!(used.x().pending(), None);
    assert_eq!(used.y().pending(), None);
    let mut fresh = DiscreteScrollState::default();
    let event = ScrollDelta::Pixels { x: 10_000, y: -10_000 };
    let a = used.update(event, MS);
    let b = fresh.update(event, MS);
    assert_eq!(a, b);
    assert_eq!(a, DiscreteScrollDelta { x: 0, y: 0 });
    assert_eq!(used.x().pending(), fresh.x().pending());
    assert_eq!(used.y().pending(), fresh.y().pending());
}

#[test]
fn line_events_pass_through() {
    let mut s = DiscreteScrollState::new();
    let r = s.update(ScrollDelta::Lines { x: 2_000, y: -1_000 }, 3);
    assert_eq!(r, DiscreteScrollDelta { x: 2, y: -1 });
    assert_eq!(s.x().pending(), Some((0, 3)));
    assert_eq!(s.y().pending(), Some((0, 3)));
}

#[test]
fn pixel_event_steps_and_clears_other_axis() {
    let mut s = DiscreteScrollState::new();
    s.update(ScrollDelta::Pixels { x: 0, y: 12_000 }, 0);
    assert_eq!(s.y().pending(), Some((12_000, 0)));
    let r = s.update(ScrollDelta::Pixels { x: 48_000, y: 0 }, 10 * MS);
    assert_eq!(r, DiscreteScrollDelta { x: 2, y: 0 });
    assert_eq!(s.y().pending(), None);
    assert_eq!(s.x().pending(), Some((0, 10 * MS)));
}

#[test]
fn negative_scroll_truncates_toward_zero() {
    let mut s = Scroll::new();
    assert_eq!(s.update(-30_000, 0), -1);
    assert_eq!(s.pending(), Some((-6_000, 0)));
    assert_eq!(s.update(-18_000, 1), -1);
    assert_eq!(s.pending(), Some((0, 1)));
}

#[test]
fn largest_line_offset() {
    let mut s = DiscreteScrollState::new();
    let r = s.update(ScrollDelta::Lines { x: i32::MAX, y: i32::MIN }, 0);
    assert_eq!(r, DiscreteScrollDelta { x: 2_147_483, y: -2_147_483 });
    assert_eq!(s.x().pending(), Some((i32::MAX as i64 * 24 - 2_147_483 * LINE_UNITS, 0)));
    assert_eq!(s.y().pending(), Some((i32::MIN as i64 * 24 + 2_147_483 * LINE_UNITS, 0)));
}

#[test]
fn new_state_is_idle() {
    let s = DiscreteScrollState::default();
    assert_eq!(s.x().pending(), None);
    assert_eq!(s.y().pending(), None);
    assert_eq!(Scroll::default().pending(), None);
    assert_eq!(DiscreteScrollDelta::default(), DiscreteScrollDelta { x: 0, y: 0 });
}
