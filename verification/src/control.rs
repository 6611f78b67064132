//! Decisions of the command loop: what each command does to the settings and
//! what the device does next. Reading lines, persisting settings, sending HID
//! frames and writing replies are performed by the caller.

use vstd::prelude::*;
use crate::cmd::{Cmd, Point};
use crate::gesture::{GestureSequence, swipe_move_count, all_reports_wf};
use crate::settings::{Settings, SettingsPatch, merge_spec};
use crate::{gesture_steps, process_cmd};

verus! {

/// Fixed replies written back over the serial line.
#[derive(Debug, Clone, Copy, PartialEq, Eq, Structural)]
pub enum Reply {
    /// The merged settings were persisted.
    ConfigSaved,
    /// Pairing with the next connecting device was started.
    PairingInitiated,
    /// Stored bonds were cleared.
    BondsCleared,
    /// The list of bonded devices (none are tracked).
    BondList,
    /// A gesture's reports were sent.
    GestureSent,
    /// A gesture command produced no reports.
    NoGesture,
}

/// The JSON text of a fixed reply.
pub open spec fn reply_text(r: Reply) -> Seq<char> {
    match r {
        Reply::ConfigSaved => "{\"ok\":true,\"status\":\"config saved\"}"@,
        Reply::PairingInitiated => "{\"ok\":true,\"status\":\"pairing initiated\"}"@,
        Reply::BondsCleared => "{\"ok\":true,\"status\":\"bonds cleared\"}"@,
        Reply::BondList => "{\"bonds\":[]}"@,
        Reply::GestureSent => "{\"ok\":true,\"status\":\"gesture sent\"}"@,
        Reply::NoGesture => "{\"ok\":false,\"error\":\"no gesture produced\"}"@,
    }
}

impl Reply {
    /// The JSON text of this reply.
    pub fn text(&self) -> (t: &'static str)
        ensures
            t@ == reply_text(*self),
    {
        match self {
            Reply::ConfigSaved => "{\"ok\":true,\"status\":\"config saved\"}",
            Reply::PairingInitiated => "{\"ok\":true,\"status\":\"pairing initiated\"}",
            Reply::BondsCleared => "{\"ok\":true,\"status\":\"bonds cleared\"}",
            Reply::BondList => "{\"bonds\":[]}",
            Reply::GestureSent => "{\"ok\":true,\"status\":\"gesture sent\"}",
            Reply::NoGesture => "{\"ok\":false,\"error\":\"no gesture produced\"}",
        }
    }
}

/// The reply to a line that failed: `{"ok":false,"error":"<message>"}`.
pub open spec fn error_reply_text(message: Seq<char>) -> Seq<char> {
    "{\"ok\":false,\"error\":\""@ + message + "\"}"@
}

/// The JSON reply for a failure with the given message (a parse or storage error).
pub fn error_reply(message: &str) -> (r: String)
    ensures
        r@ == error_reply_text(message@),
{
    let mut r = String::from_str("{\"ok\":false,\"error\":\"");
    r.append(message);
    r.append("\"}");
    r
}

/// An empty line carries no command and gets no reply.
pub fn is_blank_line(line: &str) -> (r: bool)
    ensures
        r == (line@.len() == 0),
{
    line.is_empty()
}

/// What the device does after a command.
#[derive(Debug)]
pub enum Action {
    /// Persist the (new) settings; reply [`Reply::ConfigSaved`] when that succeeds,
    /// the storage error otherwise.
    SaveSettings,
    /// Reply with the current settings as JSON.
    SendSettings,
    /// Send the frames of this gesture over BLE, then reply [`Reply::GestureSent`].
    SendGesture(GestureSequence),
    /// Reply with a fixed text.
    Respond(Reply),
}

/// The patch that a `config` command carries.
pub open spec fn config_patch(cmd: Cmd) -> SettingsPatch {
    match cmd {
        Cmd::Config { screen, window, hid, gesture } => SettingsPatch {
            screen,
            window,
            hid,
            gesture,
        },
        _ => SettingsPatch { screen: None, window: None, hid: None, gesture: None },
    }
}

/// Decide what a parsed command does: the settings after it, and the next action.
///
/// `config` merges its patch into the settings and asks for them to be saved;
/// every other command leaves the settings as they are. Gesture commands (whose
/// coordinates are HID logical coordinates) produce their report sequence.
pub fn handle_cmd(cmd: &Cmd, settings: &Settings, swipe_waypoints: &Vec<Point>) -> (r: (
    Settings,
    Action,
))
    requires
        *cmd matches Cmd::Swipe { steps, .. } ==> swipe_waypoints@.len() + 1
            == swipe_move_count(steps),
    ensures
        cmd is Config ==> r.0 == merge_spec(*settings, config_patch(*cmd)),
        match *cmd {
            Cmd::Config { screen, window, hid, gesture } => r.0 == merge_spec(
                *settings,
                SettingsPatch { screen, window, hid, gesture },
            ),
            _ => true,
        },
        !(cmd is Config) ==> r.0 == *settings,
        cmd is Config <==> r.1 is SaveSettings,
        cmd is GetSettings <==> r.1 is SendSettings,
        cmd is Pair <==> r.1 == Action::Respond(Reply::PairingInitiated),
        cmd is Unpair <==> r.1 == Action::Respond(Reply::BondsCleared),
        cmd is ListBonds <==> r.1 == Action::Respond(Reply::BondList),
        cmd.is_gesture() <==> r.1 is SendGesture,
        r.1 matches Action::SendGesture(seq) ==> seq@ == gesture_steps(
            *cmd,
            settings.gesture,
            swipe_waypoints@,
        ) && all_reports_wf(seq@),
{
    match *cmd {
        Cmd::Config { screen, window, hid, gesture } => {
            let patch = SettingsPatch { screen, window, hid, gesture };
            (Settings::merge(settings, &patch), Action::SaveSettings)
        },
        Cmd::GetSettings => (*settings, Action::SendSettings),
        Cmd::Pair => (*settings, Action::Respond(Reply::PairingInitiated)),
        Cmd::Unpair => (*settings, Action::Respond(Reply::BondsCleared)),
        Cmd::ListBonds => (*settings, Action::Respond(Reply::BondList)),
        _ => {
            let seq = process_cmd(cmd, settings, swipe_waypoints);
            match seq {
                Some(seq) => (*settings, Action::SendGesture(seq)),
                None => {
                    // every remaining command is a gesture, which always yields reports
                    assert(false);
                    (*settings, Action::Respond(Reply::NoGesture))
                },
            }
        },
    }
}

} // verus!
