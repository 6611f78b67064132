//! Gesture synthesis: each gesture becomes a sequence of HID reports with delays.

use vstd::prelude::*;
use crate::cmd::{GestureConfig, Point};
use crate::hid::HidReport;

verus! {

/// A single step in a gesture sequence.
#[derive(Debug, Clone, Copy, PartialEq, Eq, Structural)]
pub struct GestureStep {
    /// The HID report to send.
    pub report: HidReport,
    /// Delay before next step (milliseconds). 0 = send immediately.
    pub delay_ms: u16,
}

/// Result of synthesizing a gesture into a sequence of HID reports.
#[derive(Debug)]
pub struct GestureSequence {
    pub steps: Vec<GestureStep>,
}

impl View for GestureSequence {
    type V = Seq<GestureStep>;

    open spec fn view(&self) -> Seq<GestureStep> {
        self.steps@
    }
}

/// A touch at `(x, y)` (clamped into the HID range) followed by `delay_ms`.
pub open spec fn touch_step(x: u16, y: u16, delay_ms: u16) -> GestureStep {
    GestureStep { report: HidReport::touch_spec(x, y), delay_ms }
}

/// A release followed by `delay_ms`.
pub open spec fn release_step(delay_ms: u16) -> GestureStep {
    GestureStep { report: HidReport::release_spec(), delay_ms }
}

/// Every report of the sequence is a clamped touch or a release.
pub open spec fn all_reports_wf(steps: Seq<GestureStep>) -> bool {
    forall|i: int| 0 <= i < steps.len() ==> #[trigger] steps[i].report.wf()
}

/// TAP: touch held for the configured tap delay, then release.
pub open spec fn tap_spec(x: u16, y: u16, g: GestureConfig) -> Seq<GestureStep> {
    seq![touch_step(x, y, g.tap_delay_ms), release_step(0)]
}

/// DOWN and MOVE: a single immediate touch.
pub open spec fn single_touch_spec(x: u16, y: u16) -> Seq<GestureStep> {
    seq![touch_step(x, y, 0)]
}

/// UP: a single immediate release.
pub open spec fn up_spec() -> Seq<GestureStep> {
    seq![release_step(0)]
}

/// DOUBLE TAP: tap, a 5 ms gap, tap.
pub open spec fn dtap_spec(x: u16, y: u16, g: GestureConfig) -> Seq<GestureStep> {
    seq![
        touch_step(x, y, g.tap_delay_ms),
        release_step(5),
        touch_step(x, y, g.tap_delay_ms),
        release_step(0),
    ]
}

/// LONG PRESS: touch held for `duration_ms`, then release.
pub open spec fn long_press_spec(x: u16, y: u16, duration_ms: u16) -> Seq<GestureStep> {
    seq![touch_step(x, y, duration_ms), release_step(0)]
}

/// Number of moves a swipe makes after its first touch: `num_steps`, and at
/// least one (the move onto the end point).
pub open spec fn swipe_move_count(num_steps: u8) -> nat {
    if num_steps < 1 { 1 } else { num_steps as nat }
}

/// Delay after each swipe move: the tap delay spread over the steps, at least 1 ms.
pub open spec fn swipe_delay(tap_delay_ms: u16, num_steps: u8) -> u16 {
    let divisor: u16 = if num_steps < 1 { 1 } else { num_steps as u16 };
    if tap_delay_ms / divisor < 1 { 1 } else { (tap_delay_ms / divisor) as u16 }
}

/// SWIPE: touch at `from`, a move to each interior waypoint, a move to `to`, release.
///
/// The waypoints are the interpolated positions of all moves but the last.
pub open spec fn swipe_spec(
    from: Point,
    to: Point,
    num_steps: u8,
    g: GestureConfig,
    waypoints: Seq<Point>,
) -> Seq<GestureStep> {
    let d = swipe_delay(g.tap_delay_ms, num_steps);
    seq![touch_step(from.x, from.y, 0)]
        + waypoints.map_values(|p: Point| touch_step(p.x, p.y, d))
        + seq![touch_step(to.x, to.y, d), release_step(0)]
}

impl Clone for GestureSequence {
    fn clone(&self) -> (r: Self)
        ensures
            r@ == self@,
    {
        let mut steps: Vec<GestureStep> = Vec::new();
        let mut i: usize = 0;
        while i < self.steps.len()
            invariant
                i <= self@.len(),
                steps@ == self@.take(i as int),
            decreases self@.len() - i,
        {
            steps.push(self.steps[i]);
            i = i + 1;
            assert(steps@ =~= self@.take(i as int));
        }
        assert(self@.take(i as int) =~= self@);
        GestureSequence { steps }
    }
}

impl GestureSequence {
    /// An empty sequence.
    pub fn new() -> (s: Self)
        ensures
            s@ == Seq::<GestureStep>::empty(),
    {
        GestureSequence { steps: Vec::new() }
    }

    /// Append a touch at `(x, y)` (clamped) followed by `delay_ms`.
    pub fn push_touch(&mut self, x: u16, y: u16, delay_ms: u16)
        ensures
            final(self)@ == old(self)@.push(touch_step(x, y, delay_ms)),
    {
        let report = HidReport::touch(x, y);
        self.steps.push(GestureStep { report, delay_ms });
    }

    /// Append a release followed by `delay_ms`.
    pub fn push_release(&mut self, delay_ms: u16)
        ensures
            final(self)@ == old(self)@.push(release_step(delay_ms)),
    {
        let report = HidReport::release();
        self.steps.push(GestureStep { report, delay_ms });
    }

    /// The 8-byte wire frame of every step, in order: what goes out over the
    /// HID input characteristic.
    pub fn report_frames(&self) -> (frames: Vec<[u8; 8]>)
        ensures
            frames@.len() == self@.len(),
            forall|i: int| 0 <= i < self@.len() ==> (#[trigger] frames@[i])@ == self@[i].report.encoded(),
    {
        let mut frames: Vec<[u8; 8]> = Vec::new();
        let mut i: usize = 0;
        while i < self.steps.len()
            invariant
                i <= self@.len(),
                frames@.len() == i,
                forall|j: int| 0 <= j < i ==> (#[trigger] frames@[j])@ == self@[j].report.encoded(),
            decreases self@.len() - i,
        {
            let bytes = self.steps[i].report.to_bytes();
            frames.push(bytes);
            i = i + 1;
        }
        frames
    }
}

/// Synthesize a TAP gesture: DOWN at (x,y) -> delay -> UP.
pub fn synthesize_tap(x: u16, y: u16, gesture: &GestureConfig) -> (seq: GestureSequence)
    ensures
        seq@ == tap_spec(x, y, *gesture),
        seq@.len() == 2,
        seq@[0].report.tip_switch,
        seq@[0].report.contact_id == 1,
        seq@[0].report.contact_count == 1,
        seq@[0].report.x == (if x <= 4095 { x } else { 4095u16 }),
        seq@[0].report.y == (if y <= 4095 { y } else { 4095u16 }),
        seq@[0].delay_ms == gesture.tap_delay_ms,
        !seq@[1].report.tip_switch,
        seq@[1].report.contact_id == 0,
        seq@[1].report.contact_count == 0,
        seq@[1].report.x == 0,
        seq@[1].report.y == 0,
        seq@[1].delay_ms == 0,
        all_reports_wf(seq@),
{
    let mut seq = GestureSequence::new();
    seq.push_touch(x, y, gesture.tap_delay_ms);
    seq.push_release(0);
    seq
}

/// Synthesize a DOWN event.
pub fn synthesize_down(x: u16, y: u16) -> (seq: GestureSequence)
    ensures
        seq@ == single_touch_spec(x, y),
        seq@.len() == 1,
        seq@[0].report.tip_switch,
        seq@[0].report.contact_id == 1,
        seq@[0].report.contact_count == 1,
        seq@[0].report.x == (if x <= 4095 { x } else { 4095u16 }),
        seq@[0].report.y == (if y <= 4095 { y } else { 4095u16 }),
        seq@[0].delay_ms == 0,
        all_reports_wf(seq@),
{
    let mut seq = GestureSequence::new();
    seq.push_touch(x, y, 0);
    seq
}

/// Synthesize a MOVE event.
pub fn synthesize_move(x: u16, y: u16) -> (seq: GestureSequence)
    ensures
        seq@ == single_touch_spec(x, y),
        seq@.len() == 1,
        seq@[0].report.tip_switch,
        seq@[0].report.contact_id == 1,
        seq@[0].report.contact_count == 1,
        seq@[0].report.x == (if x <= 4095 { x } else { 4095u16 }),
        seq@[0].report.y == (if y <= 4095 { y } else { 4095u16 }),
        seq@[0].delay_ms == 0,
        all_reports_wf(seq@),
{
    let mut seq = GestureSequence::new();
    seq.push_touch(x, y, 0);
    seq
}

/// Synthesize an UP (release) event.
pub fn synthesize_up() -> (seq: GestureSequence)
    ensures
        seq@ == up_spec(),
        seq@.len() == 1,
        !seq@[0].report.tip_switch,
        seq@[0].report.contact_id == 0,
        seq@[0].report.contact_count == 0,
        seq@[0].report.x == 0,
        seq@[0].report.y == 0,
        seq@[0].delay_ms == 0,
        all_reports_wf(seq@),
{
    let mut seq = GestureSequence::new();
    seq.push_release(0);
    seq
}

/// Synthesize a SWIPE: DOWN at `from` -> `num_steps` interpolated MOVEs -> UP.
///
/// The swipe makes `m = max(num_steps, 1)` moves; move `i` (for `1 <= i <= m`)
/// goes to the interpolation of `from` and `to` at `i / m`. `waypoints` are the
/// interpolated interior positions, moves `1 .. m - 1`; the final move lands
/// exactly on `to`.
pub fn synthesize_swipe(
    from: Point,
    to: Point,
    num_steps: u8,
    gesture: &GestureConfig,
    waypoints: &Vec<Point>,
) -> (seq: GestureSequence)
    requires
        waypoints@.len() + 1 == swipe_move_count(num_steps),
    ensures
        seq@ == swipe_spec(from, to, num_steps, *gesture, waypoints@),
        seq@.len() == waypoints@.len() + 3,
        seq@[0].report.tip_switch,
        seq@[0].report.contact_id == 1,
        seq@[0].report.contact_count == 1,
        seq@[0].report.x == (if from.x <= 4095 { from.x } else { 4095u16 }),
        seq@[0].report.y == (if from.y <= 4095 { from.y } else { 4095u16 }),
        seq@[0].delay_ms == 0,
        seq@[seq@.len() - 2].report.tip_switch,
        seq@[seq@.len() - 2].report.contact_id == 1,
        seq@[seq@.len() - 2].report.contact_count == 1,
        seq@[seq@.len() - 2].report.x == (if to.x <= 4095 { to.x } else { 4095u16 }),
        seq@[seq@.len() - 2].report.y == (if to.y <= 4095 { to.y } else { 4095u16 }),
        seq@[seq@.len() - 2].delay_ms == (if gesture.tap_delay_ms / (if num_steps < 1 { 1u16 } else { num_steps as u16 }) < 1 { 1u16 } else { (gesture.tap_delay_ms / (if num_steps < 1 { 1u16 } else { num_steps as u16 })) as u16 }),
        !seq@[seq@.len() - 1].report.tip_switch,
        seq@[seq@.len() - 1].report.contact_id == 0,
        seq@[seq@.len() - 1].report.contact_count == 0,
        seq@[seq@.len() - 1].report.x == 0,
        seq@[seq@.len() - 1].report.y == 0,
        seq@[seq@.len() - 1].delay_ms == 0,
        forall|i: int|
            #![trigger waypoints@[i]]
            0 <= i < waypoints@.len() ==> {
                &&& seq@[i + 1].report.tip_switch
                &&& seq@[i + 1].report.contact_id == 1
                &&& seq@[i + 1].report.contact_count == 1
                &&& seq@[i + 1].report.x == (if waypoints@[i].x <= 4095 { waypoints@[i].x } else { 4095u16 })
                &&& seq@[i + 1].report.y == (if waypoints@[i].y <= 4095 { waypoints@[i].y } else { 4095u16 })
                &&& seq@[i + 1].delay_ms == (if gesture.tap_delay_ms / (if num_steps < 1 { 1u16 } else { num_steps as u16 }) < 1 { 1u16 } else { (gesture.tap_delay_ms / (if num_steps < 1 { 1u16 } else { num_steps as u16 })) as u16 })
            },
        seq@.len() == swipe_move_count(num_steps) + 2,
        all_reports_wf(seq@),
{
    let divisor: u16 = if num_steps < 1 { 1 } else { num_steps as u16 };
    let q: u16 = gesture.tap_delay_ms / divisor;
    let delay: u16 = if q < 1 { 1 } else { q };
    let ghost d = swipe_delay(gesture.tap_delay_ms, num_steps);
    assert(delay == d);
    let ghost mv = |p: Point| touch_step(p.x, p.y, d);

    let mut seq = GestureSequence::new();
    seq.push_touch(from.x, from.y, 0);
    let mut i: usize = 0;
    while i < waypoints.len()
        invariant
            i <= waypoints@.len(),
            delay == d,
            mv == (|p: Point| touch_step(p.x, p.y, d)),
            seq@ == seq![touch_step(from.x, from.y, 0)] + waypoints@.take(i as int).map_values(mv),
        decreases waypoints@.len() - i,
    {
        let p = waypoints[i];
        seq.push_touch(p.x, p.y, delay);
        proof {
            assert(waypoints@.take(i + 1) =~= waypoints@.take(i as int).push(p));
            assert(waypoints@.take(i as int).push(p).map_values(mv) =~= waypoints@.take(
                i as int,
            ).map_values(mv).push(mv(p)));
        }
        i = i + 1;
    }
    assert(waypoints@.take(i as int) =~= waypoints@);
    seq.push_touch(to.x, to.y, delay);
    seq.push_release(0);
    assert(seq@ =~= swipe_spec(from, to, num_steps, *gesture, waypoints@));
    seq
}

/// Synthesize a DOUBLE TAP: two quick taps at the same position.
pub fn synthesize_dtap(x: u16, y: u16, gesture: &GestureConfig) -> (seq: GestureSequence)
    ensures
        seq@ == dtap_spec(x, y, *gesture),
        seq@.len() == 4,
        seq@[0].report.tip_switch,
        seq@[0].report.contact_id == 1,
        seq@[0].report.contact_count == 1,
        seq@[0].report.x == (if x <= 4095 { x } else { 4095u16 }),
        seq@[0].report.y == (if y <= 4095 { y } else { 4095u16 }),
        seq@[0].delay_ms == gesture.tap_delay_ms,
        !seq@[1].report.tip_switch,
        seq@[1].report.contact_id == 0,
        seq@[1].report.contact_count == 0,
        seq@[1].report.x == 0,
        seq@[1].report.y == 0,
        seq@[1].delay_ms == 5,
        seq@[2].report.tip_switch,
        seq@[2].report.contact_id == 1,
        seq@[2].report.contact_count == 1,
        seq@[2].report.x == (if x <= 4095 { x } else { 4095u16 }),
        seq@[2].report.y == (if y <= 4095 { y } else { 4095u16 }),
        seq@[2].delay_ms == gesture.tap_delay_ms,
        !seq@[3].report.tip_switch,
        seq@[3].report.contact_id == 0,
        seq@[3].report.contact_count == 0,
        seq@[3].report.x == 0,
        seq@[3].report.y == 0,
        seq@[3].delay_ms == 0,
        all_reports_wf(seq@),
{
    let mut seq = GestureSequence::new();
    seq.push_touch(x, y, gesture.tap_delay_ms);
    seq.push_release(5);
    seq.push_touch(x, y, gesture.tap_delay_ms);
    seq.push_release(0);
    seq
}

/// Synthesize a LONG PRESS: DOWN -> hold -> UP.
pub fn synthesize_long_press(x: u16, y: u16, duration_ms: u16) -> (seq: GestureSequence)
    ensures
        seq@ == long_press_spec(x, y, duration_ms),
        seq@.len() == 2,
        seq@[0].report.tip_switch,
        seq@[0].report.contact_id == 1,
        seq@[0].report.contact_count == 1,
        seq@[0].report.x == (if x <= 4095 { x } else { 4095u16 }),
        seq@[0].report.y == (if y <= 4095 { y } else { 4095u16 }),
        seq@[0].delay_ms == duration_ms,
        !seq@[1].report.tip_switch,
        seq@[1].report.contact_id == 0,
        seq@[1].report.contact_count == 0,
        seq@[1].report.x == 0,
        seq@[1].report.y == 0,
        seq@[1].delay_ms == 0,
        all_reports_wf(seq@),
{
    let mut seq = GestureSequence::new();
    seq.push_touch(x, y, duration_ms);
    seq.push_release(0);
    seq
}

} // verus!
