//! Single-touch BLE HID touch bridge: command model, gesture synthesis,
//! HID report encoding and settings PATCH semantics.

pub mod cmd;
pub mod control;
pub mod flash;
pub mod gesture;
pub mod hid;
pub mod serial;
pub mod settings;

use vstd::prelude::*;
use crate::cmd::{Cmd, Point};
use crate::gesture::{
    GestureSequence, dtap_spec, long_press_spec, single_touch_spec, swipe_move_count,
    swipe_spec, tap_spec, up_spec, all_reports_wf, synthesize_tap, synthesize_down,
    synthesize_move, synthesize_up, synthesize_swipe, synthesize_dtap, synthesize_long_press,
};
use crate::settings::Settings;

verus! {

/// The steps that a gesture command produces, with the gesture settings `g`
/// and, for a swipe, the interior waypoints `waypoints`.
pub open spec fn gesture_steps(cmd: Cmd, g: cmd::GestureConfig, waypoints: Seq<Point>) -> Seq<
    gesture::GestureStep,
> {
    match cmd {
        Cmd::Tap { x, y } => tap_spec(x, y, g),
        Cmd::Down { x, y } => single_touch_spec(x, y),
        Cmd::Move { x, y } => single_touch_spec(x, y),
        Cmd::Up => up_spec(),
        Cmd::Swipe { from, to, steps } => swipe_spec(from, to, steps, g, waypoints),
        Cmd::Dtap { x, y } => dtap_spec(x, y, g),
        Cmd::LongPress { x, y, duration_ms } => long_press_spec(x, y, duration_ms),
        _ => Seq::empty(),
    }
}

/// Process a command and return the appropriate gesture sequence.
///
/// The coordinates of `cmd` are HID logical coordinates (the source-pixel
/// transform is applied before this call). For a swipe, `swipe_waypoints` holds
/// the interpolated interior positions; other commands ignore it.
///
/// Returns `None` for commands that don't produce touch events
/// (Config, GetSettings, Pair, Unpair, ListBonds).
pub fn process_cmd(cmd: &Cmd, settings: &Settings, swipe_waypoints: &Vec<Point>) -> (r: Option<
    GestureSequence,
>)
    requires
        *cmd matches Cmd::Swipe { steps, .. } ==> swipe_waypoints@.len() + 1
            == swipe_move_count(steps),
    ensures
        r is Some <==> cmd.is_gesture(),
        r matches Some(seq) ==> seq@ == gesture_steps(*cmd, settings.gesture, swipe_waypoints@),
        r matches Some(seq) ==> all_reports_wf(seq@),
{
    match *cmd {
        Cmd::Tap { x, y } => Some(synthesize_tap(x, y, &settings.gesture)),
        Cmd::Down { x, y } => Some(synthesize_down(x, y)),
        Cmd::Move { x, y } => Some(synthesize_move(x, y)),
        Cmd::Up => Some(synthesize_up()),
        Cmd::Swipe { from, to, steps } => Some(
            synthesize_swipe(from, to, steps, &settings.gesture, swipe_waypoints),
        ),
        Cmd::Dtap { x, y } => Some(synthesize_dtap(x, y, &settings.gesture)),
        Cmd::LongPress { x, y, duration_ms } => Some(synthesize_long_press(x, y, duration_ms)),
        Cmd::Config { .. } => None,
        Cmd::GetSettings => None,
        Cmd::Pair => None,
        Cmd::Unpair => None,
        Cmd::ListBonds => None,
    }
}

/// Every gesture except DOWN and MOVE ends with the finger lifted, and every
/// gesture except UP starts with a touch.
pub proof fn lemma_gesture_touch_then_release(
    cmd: Cmd,
    g: cmd::GestureConfig,
    waypoints: Seq<Point>,
)
    requires
        cmd.is_gesture(),
        cmd matches Cmd::Swipe { steps, .. } ==> waypoints.len() + 1 == swipe_move_count(steps),
    ensures
        gesture_steps(cmd, g, waypoints).len() > 0,
        !(cmd is Down || cmd is Move) ==> gesture_steps(cmd, g, waypoints).last().report
            == hid::HidReport::release_spec(),
        !(cmd is Up) ==> gesture_steps(cmd, g, waypoints)[0].report.tip_switch,
{
    match cmd {
        Cmd::Swipe { from, to, steps } => {
            let d = gesture::swipe_delay(g.tap_delay_ms, steps);
            let s = gesture_steps(cmd, g, waypoints);
            let mid = waypoints.map_values(|p: Point| gesture::touch_step(p.x, p.y, d));
            assert(s == seq![gesture::touch_step(from.x, from.y, 0)] + mid + seq![
                gesture::touch_step(to.x, to.y, d),
                gesture::release_step(0),
            ]);
            assert(s[0] == gesture::touch_step(from.x, from.y, 0));
            assert(s.last() == gesture::release_step(0));
        },
        _ => {},
    }
}

/// Where each gesture touches: every touch report of a tap, down, move, double
/// tap or long press at `(x, y)` is at `(min(x, 4095), min(y, 4095))` and every
/// other report is a release with all fields zero; a swipe touches first at
/// `from`, makes its last move onto `to`, and then releases. A tap and each tap
/// of a double tap hold for the tap delay, a long press for its duration.
pub proof fn lemma_gesture_positions(cmd: Cmd, g: cmd::GestureConfig, waypoints: Seq<Point>)
    requires
        cmd matches Cmd::Swipe { steps, .. } ==> waypoints.len() + 1 == swipe_move_count(steps),
    ensures
        match cmd {
            Cmd::Tap { x, y } | Cmd::Down { x, y } | Cmd::Move { x, y } | Cmd::Dtap { x, y }
            | Cmd::LongPress { x, y, .. } => {
                &&& gesture_steps(cmd, g, waypoints).len() > 0
                &&& gesture_steps(cmd, g, waypoints)[0].report.tip_switch
                &&& forall|i: int|
                    0 <= i < gesture_steps(cmd, g, waypoints).len() ==> {
                        let r = (#[trigger] gesture_steps(cmd, g, waypoints)[i]).report;
                        if r.tip_switch {
                            &&& r.x == (if x <= 4095 { x } else { 4095u16 })
                            &&& r.y == (if y <= 4095 { y } else { 4095u16 })
                            &&& r.contact_id == 1 && r.contact_count == 1
                        } else {
                            r.x == 0 && r.y == 0 && r.contact_id == 0 && r.contact_count == 0
                        }
                    }
            },
            Cmd::Swipe { from, to, .. } => {
                let s = gesture_steps(cmd, g, waypoints);
                &&& s.len() >= 3
                &&& s[0].report.tip_switch
                &&& s[0].report.x == (if from.x <= 4095 { from.x } else { 4095u16 })
                &&& s[0].report.y == (if from.y <= 4095 { from.y } else { 4095u16 })
                &&& s[s.len() - 2].report.tip_switch
                &&& s[s.len() - 2].report.x == (if to.x <= 4095 { to.x } else { 4095u16 })
                &&& s[s.len() - 2].report.y == (if to.y <= 4095 { to.y } else { 4095u16 })
                &&& !s[s.len() - 1].report.tip_switch
            },
            _ => true,
        },
        cmd matches Cmd::Tap { .. } ==> gesture_steps(cmd, g, waypoints)[0].delay_ms
            == g.tap_delay_ms,
        cmd matches Cmd::Dtap { .. } ==> gesture_steps(cmd, g, waypoints)[0].delay_ms
            == g.tap_delay_ms && gesture_steps(cmd, g, waypoints)[2].delay_ms == g.tap_delay_ms,
        cmd matches Cmd::LongPress { duration_ms, .. } ==> gesture_steps(cmd, g, waypoints)[0].delay_ms
            == duration_ms,
{
    let s = gesture_steps(cmd, g, waypoints);
    match cmd {
        Cmd::Swipe { from, to, steps } => {
            let d = gesture::swipe_delay(g.tap_delay_ms, steps);
            let mid = waypoints.map_values(|p: Point| gesture::touch_step(p.x, p.y, d));
            assert(s == seq![gesture::touch_step(from.x, from.y, 0)] + mid + seq![
                gesture::touch_step(to.x, to.y, d),
                gesture::release_step(0),
            ]);
            assert(s[s.len() - 2] == gesture::touch_step(to.x, to.y, d));
            assert(s[s.len() - 1] == gesture::release_step(0));
        },
        _ => {},
    }
}

} // verus!
