//! Commands received over the serial line, and the configuration records they carry.
//!
//! The window scale factor is a 32-bit IEEE-754 value; the library keeps it as its
//! bit pattern (`scale_bits`) and only copies it, so no floating-point arithmetic
//! happens here.

use vstd::prelude::*;

verus! {

/// A point: source pixels when it arrives, HID logical units once transformed.
#[derive(Debug, Clone, Copy, PartialEq, Eq, Structural)]
pub struct Point {
    pub x: u16,
    pub y: u16,
}

/// Commands received over CDC-ACM serial.
///
/// Each line on the serial port is one JSON object matching this enum; the
/// `"cmd"` field names the variant in snake case.
#[derive(Debug, Clone, Copy, PartialEq, Eq, Structural)]
pub enum Cmd {
    /// Single tap at (x, y). Synthesizes DOWN -> short delay -> UP.
    Tap { x: u16, y: u16 },
    /// Finger down at (x, y). Start of a drag/gesture.
    Down { x: u16, y: u16 },
    /// Finger move to (x, y). Must follow a Down.
    Move { x: u16, y: u16 },
    /// Finger up. Ends current touch.
    Up,
    /// Swipe from one point to another, interpolated over `steps` moves.
    Swipe { from: Point, to: Point, steps: u8 },
    /// Double tap at (x, y). Two quick taps.
    Dtap { x: u16, y: u16 },
    /// Long press: DOWN -> hold for `duration_ms` -> UP.
    LongPress { x: u16, y: u16, duration_ms: u16 },
    /// Update settings (PATCH: missing fields are kept as they are).
    Config {
        screen: Option<ScreenConfigPatch>,
        window: Option<WindowConfigPatch>,
        hid: Option<HidConfigPatch>,
        gesture: Option<GestureConfigPatch>,
    },
    /// Query current full settings.
    GetSettings,
    /// Start BLE pairing/bonding with next connecting device.
    Pair,
    /// Clear all stored BLE bonds.
    Unpair,
    /// List currently bonded BLE devices.
    ListBonds,
}

impl Cmd {
    /// Commands that synthesize touch input.
    pub open spec fn is_gesture(self) -> bool {
        ||| self is Tap
        ||| self is Down
        ||| self is Move
        ||| self is Up
        ||| self is Swipe
        ||| self is Dtap
        ||| self is LongPress
    }
}

/// The screen points a command names, in order: one for tap, down, move, double
/// tap and long press, `from` then `to` for a swipe, none otherwise.
pub open spec fn points_spec(cmd: Cmd) -> Seq<Point> {
    match cmd {
        Cmd::Tap { x, y } => seq![Point { x, y }],
        Cmd::Down { x, y } => seq![Point { x, y }],
        Cmd::Move { x, y } => seq![Point { x, y }],
        Cmd::Swipe { from, to, .. } => seq![from, to],
        Cmd::Dtap { x, y } => seq![Point { x, y }],
        Cmd::LongPress { x, y, .. } => seq![Point { x, y }],
        _ => Seq::empty(),
    }
}

/// The command with its points replaced, in the order of [`points_spec`];
/// every other field is kept.
pub open spec fn with_points_spec(cmd: Cmd, pts: Seq<Point>) -> Cmd {
    match cmd {
        Cmd::Tap { .. } => Cmd::Tap { x: pts[0].x, y: pts[0].y },
        Cmd::Down { .. } => Cmd::Down { x: pts[0].x, y: pts[0].y },
        Cmd::Move { .. } => Cmd::Move { x: pts[0].x, y: pts[0].y },
        Cmd::Swipe { steps, .. } => Cmd::Swipe { from: pts[0], to: pts[1], steps },
        Cmd::Dtap { .. } => Cmd::Dtap { x: pts[0].x, y: pts[0].y },
        Cmd::LongPress { duration_ms, .. } => Cmd::LongPress {
            x: pts[0].x,
            y: pts[0].y,
            duration_ms,
        },
        other => other,
    }
}

impl Cmd {
    /// The screen points this command names (the ones a coordinate transform moves).
    pub fn points(&self) -> (r: Vec<Point>)
        ensures
            r@ == points_spec(*self),
            match *self {
                Cmd::Tap { x, y } => r@.len() == 1 && r@[0].x == x && r@[0].y == y,
                Cmd::Down { x, y } => r@.len() == 1 && r@[0].x == x && r@[0].y == y,
                Cmd::Move { x, y } => r@.len() == 1 && r@[0].x == x && r@[0].y == y,
                Cmd::Swipe { from, to, .. } => r@.len() == 2 && r@[0].x == from.x && r@[0].y
                    == from.y && r@[1].x == to.x && r@[1].y == to.y,
                Cmd::Dtap { x, y } => r@.len() == 1 && r@[0].x == x && r@[0].y == y,
                Cmd::LongPress { x, y, .. } => r@.len() == 1 && r@[0].x == x && r@[0].y == y,
                _ => r@.len() == 0,
            },
    {
        let mut r: Vec<Point> = Vec::new();
        match *self {
            Cmd::Tap { x, y } => r.push(Point { x, y }),
            Cmd::Down { x, y } => r.push(Point { x, y }),
            Cmd::Move { x, y } => r.push(Point { x, y }),
            Cmd::Swipe { from, to, .. } => {
                r.push(from);
                r.push(to);
            },
            Cmd::Dtap { x, y } => r.push(Point { x, y }),
            Cmd::LongPress { x, y, .. } => r.push(Point { x, y }),
            _ => {},
        }
        assert(r@ =~= points_spec(*self));
        r
    }

    /// This command with its points replaced by `pts`, given in the order of
    /// [`Cmd::points`] (e.g. the transformed points).
    pub fn with_points(&self, pts: &Vec<Point>) -> (r: Cmd)
        requires
            pts@.len() == points_spec(*self).len(),
        ensures
            r == with_points_spec(*self, pts@),
            match *self {
                Cmd::Tap { .. } => r matches Cmd::Tap { x, y } && x == pts@[0].x && y == pts@[0].y,
                Cmd::Down { .. } => r matches Cmd::Down { x, y } && x == pts@[0].x && y == pts@[0].y,
                Cmd::Move { .. } => r matches Cmd::Move { x, y } && x == pts@[0].x && y == pts@[0].y,
                Cmd::Swipe { steps, .. } => r matches Cmd::Swipe { from, to, steps: s } && from.x
                    == pts@[0].x && from.y == pts@[0].y && to.x == pts@[1].x && to.y == pts@[1].y
                    && s == steps,
                Cmd::Dtap { .. } => r matches Cmd::Dtap { x, y } && x == pts@[0].x && y == pts@[0].y,
                Cmd::LongPress { duration_ms, .. } => r matches Cmd::LongPress { x, y, duration_ms: d }
                    && x == pts@[0].x && y == pts@[0].y && d == duration_ms,
                _ => r == *self,
            },
    {
        match *self {
            Cmd::Tap { .. } => Cmd::Tap { x: pts[0].x, y: pts[0].y },
            Cmd::Down { .. } => Cmd::Down { x: pts[0].x, y: pts[0].y },
            Cmd::Move { .. } => Cmd::Move { x: pts[0].x, y: pts[0].y },
            Cmd::Swipe { steps, .. } => Cmd::Swipe { from: pts[0], to: pts[1], steps },
            Cmd::Dtap { .. } => Cmd::Dtap { x: pts[0].x, y: pts[0].y },
            Cmd::LongPress { duration_ms, .. } => Cmd::LongPress {
                x: pts[0].x,
                y: pts[0].y,
                duration_ms,
            },
            other => other,
        }
    }
}

/// Replacing a command's points by its own points gives the command back, and
/// replacing them by any points of the right number gives a command of the same
/// kind whose points are those.
pub proof fn lemma_points_round_trip(cmd: Cmd, pts: Seq<Point>)
    requires
        pts.len() == points_spec(cmd).len(),
    ensures
        with_points_spec(cmd, points_spec(cmd)) == cmd,
        points_spec(with_points_spec(cmd, pts)) == pts,
        with_points_spec(cmd, pts).is_gesture() == cmd.is_gesture(),
{
    match cmd {
        Cmd::Swipe { .. } => {
            assert(points_spec(with_points_spec(cmd, pts)) =~= pts);
        },
        Cmd::Tap { .. } | Cmd::Down { .. } | Cmd::Move { .. } | Cmd::Dtap { .. }
        | Cmd::LongPress { .. } => {
            assert(points_spec(with_points_spec(cmd, pts)) =~= pts);
        },
        _ => {
            assert(points_spec(with_points_spec(cmd, pts)) =~= pts);
        },
    }
}

/// The points of a command are its own coordinates, x in x and y in y (a
/// swipe's `from` first, then `to`); putting points back writes each point's
/// x into the command's x and its y into the command's y, keeping every other
/// field.
pub proof fn lemma_points_are_coordinates(cmd: Cmd, p: Point, q: Point)
    ensures
        match cmd {
            Cmd::Tap { x, y } => {
                &&& points_spec(cmd).len() == 1
                &&& points_spec(cmd)[0].x == x && points_spec(cmd)[0].y == y
                &&& with_points_spec(cmd, seq![p]) == Cmd::Tap { x: p.x, y: p.y }
            },
            Cmd::Down { x, y } => {
                &&& points_spec(cmd).len() == 1
                &&& points_spec(cmd)[0].x == x && points_spec(cmd)[0].y == y
                &&& with_points_spec(cmd, seq![p]) == Cmd::Down { x: p.x, y: p.y }
            },
            Cmd::Move { x, y } => {
                &&& points_spec(cmd).len() == 1
                &&& points_spec(cmd)[0].x == x && points_spec(cmd)[0].y == y
                &&& with_points_spec(cmd, seq![p]) == Cmd::Move { x: p.x, y: p.y }
            },
            Cmd::Swipe { from, to, steps } => {
                &&& points_spec(cmd).len() == 2
                &&& points_spec(cmd)[0].x == from.x && points_spec(cmd)[0].y == from.y
                &&& points_spec(cmd)[1].x == to.x && points_spec(cmd)[1].y == to.y
                &&& with_points_spec(cmd, seq![p, q]) == Cmd::Swipe {
                    from: Point { x: p.x, y: p.y },
                    to: Point { x: q.x, y: q.y },
                    steps,
                }
            },
            Cmd::Dtap { x, y } => {
                &&& points_spec(cmd).len() == 1
                &&& points_spec(cmd)[0].x == x && points_spec(cmd)[0].y == y
                &&& with_points_spec(cmd, seq![p]) == Cmd::Dtap { x: p.x, y: p.y }
            },
            Cmd::LongPress { x, y, duration_ms } => {
                &&& points_spec(cmd).len() == 1
                &&& points_spec(cmd)[0].x == x && points_spec(cmd)[0].y == y
                &&& with_points_spec(cmd, seq![p]) == Cmd::LongPress { x: p.x, y: p.y, duration_ms }
            },
            _ => points_spec(cmd).len() == 0 && with_points_spec(cmd, Seq::empty()) == cmd,
        },
{
}

/// Interpolation steps of a swipe that does not name them.
pub fn default_swipe_steps() -> (r: u8)
    ensures
        r == 10,
{
    10
}

/// Hold time of a long press that does not name it.
pub fn default_long_press_ms() -> (r: u16)
    ensures
        r == 800,
{
    800
}

/// Default physical screen width in pixels.
pub fn default_width_px() -> (r: u16)
    ensures
        r == 1080,
{
    1080
}

/// Default physical screen height in pixels.
pub fn default_height_px() -> (r: u16)
    ensures
        r == 2340,
{
    2340
}

/// Bit pattern of the default window scale, the IEEE-754 single `1.0`.
pub fn default_scale_bits() -> (r: u32)
    ensures
        r == 0x3f80_0000,
{
    0x3f80_0000
}

/// Default vertical offset of the source viewport, in physical pixels.
pub fn default_offset_y() -> (r: i16)
    ensures
        r == 60,
{
    60
}

/// Default interval between HID reports.
pub fn default_report_interval_ms() -> (r: u8)
    ensures
        r == 20,
{
    20
}

/// Default finger-down time of a tap.
pub fn default_tap_delay_ms() -> (r: u16)
    ensures
        r == 50,
{
    50
}

/// Default swipe step count of the gesture configuration.
pub fn default_swipe_steps_cfg() -> (r: u8)
    ensures
        r == 10,
{
    10
}

/// Screen physical dimensions in pixels.
#[derive(Debug, Clone, Copy, PartialEq, Eq, Structural)]
pub struct ScreenConfig {
    pub width_px: u16,
    pub height_px: u16,
}

impl Default for ScreenConfig {
    fn default() -> (r: Self)
        ensures
            r == (ScreenConfig { width_px: 1080, height_px: 2340 }),
    {
        ScreenConfig { width_px: default_width_px(), height_px: default_height_px() }
    }
}

/// Source viewport offset and scale factor (e.g. for DPR or overlay chrome).
///
/// `scale_bits` is the bit pattern of the IEEE-754 single-precision scale.
#[derive(Debug, Clone, Copy, PartialEq, Eq, Structural)]
pub struct WindowConfig {
    pub scale_bits: u32,
    pub offset_x: i16,
    pub offset_y: i16,
}

impl Default for WindowConfig {
    fn default() -> (r: Self)
        ensures
            r == (WindowConfig { scale_bits: 0x3f80_0000, offset_x: 0, offset_y: 60 }),
    {
        WindowConfig { scale_bits: default_scale_bits(), offset_x: 0, offset_y: default_offset_y() }
    }
}

/// BLE HID configuration.
#[derive(Debug, Clone, Copy, PartialEq, Eq, Structural)]
pub struct HidConfig {
    pub report_interval_ms: u8,
}

impl Default for HidConfig {
    fn default() -> (r: Self)
        ensures
            r == (HidConfig { report_interval_ms: 20 }),
    {
        HidConfig { report_interval_ms: default_report_interval_ms() }
    }
}

/// Gesture timing configuration.
#[derive(Debug, Clone, Copy, PartialEq, Eq, Structural)]
pub struct GestureConfig {
    pub tap_delay_ms: u16,
    pub swipe_steps: u8,
}

impl Default for GestureConfig {
    fn default() -> (r: Self)
        ensures
            r == (GestureConfig { tap_delay_ms: 50, swipe_steps: 10 }),
    {
        GestureConfig { tap_delay_ms: default_tap_delay_ms(), swipe_steps: default_swipe_steps_cfg() }
    }
}

/// Per-field PATCH of [`ScreenConfig`]: `None` keeps the current value.
#[derive(Debug, Clone, Copy, PartialEq, Eq, Structural)]
pub struct ScreenConfigPatch {
    pub width_px: Option<u16>,
    pub height_px: Option<u16>,
}

/// Per-field PATCH of [`WindowConfig`]: `None` keeps the current value.
#[derive(Debug, Clone, Copy, PartialEq, Eq, Structural)]
pub struct WindowConfigPatch {
    pub scale_bits: Option<u32>,
    pub offset_x: Option<i16>,
    pub offset_y: Option<i16>,
}

/// Per-field PATCH of [`HidConfig`]: `None` keeps the current value.
#[derive(Debug, Clone, Copy, PartialEq, Eq, Structural)]
pub struct HidConfigPatch {
    pub report_interval_ms: Option<u8>,
}

/// Per-field PATCH of [`GestureConfig`]: `None` keeps the current value.
#[derive(Debug, Clone, Copy, PartialEq, Eq, Structural)]
pub struct GestureConfigPatch {
    pub tap_delay_ms: Option<u16>,
    pub swipe_steps: Option<u8>,
}

impl Default for ScreenConfigPatch {
    fn default() -> (r: Self)
        ensures
            r == (ScreenConfigPatch { width_px: None, height_px: None }),
    {
        ScreenConfigPatch { width_px: None, height_px: None }
    }
}

impl Default for WindowConfigPatch {
    fn default() -> (r: Self)
        ensures
            r == (WindowConfigPatch { scale_bits: None, offset_x: None, offset_y: None }),
    {
        WindowConfigPatch { scale_bits: None, offset_x: None, offset_y: None }
    }
}

impl Default for HidConfigPatch {
    fn default() -> (r: Self)
        ensures
            r == (HidConfigPatch { report_interval_ms: None }),
    {
        HidConfigPatch { report_interval_ms: None }
    }
}

impl Default for GestureConfigPatch {
    fn default() -> (r: Self)
        ensures
            r == (GestureConfigPatch { tap_delay_ms: None, swipe_steps: None }),
    {
        GestureConfigPatch { tap_delay_ms: None, swipe_steps: None }
    }
}

} // verus!
