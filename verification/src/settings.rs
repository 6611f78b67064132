//! Device settings and their per-field PATCH merge.

use vstd::prelude::*;
use crate::cmd::{
    GestureConfig, GestureConfigPatch, HidConfig, HidConfigPatch, ScreenConfig,
    ScreenConfigPatch, WindowConfig, WindowConfigPatch,
};

verus! {

/// Full settings blob, stored as a single JSON value.
#[derive(Debug, Clone, Copy, PartialEq, Eq, Structural)]
pub struct Settings {
    pub screen: ScreenConfig,
    pub window: WindowConfig,
    pub hid: HidConfig,
    pub gesture: GestureConfig,
}

/// PATCH-compatible settings (all fields optional, per field inside each group).
#[derive(Debug, Clone, Copy, PartialEq, Eq, Structural)]
pub struct SettingsPatch {
    pub screen: Option<ScreenConfigPatch>,
    pub window: Option<WindowConfigPatch>,
    pub hid: Option<HidConfigPatch>,
    pub gesture: Option<GestureConfigPatch>,
}

/// The default settings.
pub open spec fn default_settings() -> Settings {
    Settings {
        screen: ScreenConfig { width_px: 1080, height_px: 2340 },
        window: WindowConfig { scale_bits: 0x3f80_0000, offset_x: 0, offset_y: 60 },
        hid: HidConfig { report_interval_ms: 20 },
        gesture: GestureConfig { tap_delay_ms: 50, swipe_steps: 10 },
    }
}

/// The patched value when present, else the current one.
pub open spec fn patched<T>(patch: Option<T>, current: T) -> T {
    match patch {
        Some(v) => v,
        None => current,
    }
}

/// The merge of `patch` into `current`: each field the patch sends replaces the
/// current one, every other field is kept.
pub open spec fn merge_spec(current: Settings, patch: SettingsPatch) -> Settings {
    Settings {
        screen: match patch.screen {
            Some(p) => ScreenConfig {
                width_px: patched(p.width_px, current.screen.width_px),
                height_px: patched(p.height_px, current.screen.height_px),
            },
            None => current.screen,
        },
        window: match patch.window {
            Some(p) => WindowConfig {
                scale_bits: patched(p.scale_bits, current.window.scale_bits),
                offset_x: patched(p.offset_x, current.window.offset_x),
                offset_y: patched(p.offset_y, current.window.offset_y),
            },
            None => current.window,
        },
        hid: match patch.hid {
            Some(p) => HidConfig {
                report_interval_ms: patched(p.report_interval_ms, current.hid.report_interval_ms),
            },
            None => current.hid,
        },
        gesture: match patch.gesture {
            Some(p) => GestureConfig {
                tap_delay_ms: patched(p.tap_delay_ms, current.gesture.tap_delay_ms),
                swipe_steps: patched(p.swipe_steps, current.gesture.swipe_steps),
            },
            None => current.gesture,
        },
    }
}

/// The patch that sends nothing.
pub open spec fn empty_patch() -> SettingsPatch {
    SettingsPatch { screen: None, window: None, hid: None, gesture: None }
}

impl Default for Settings {
    fn default() -> (r: Self)
        ensures
            r == default_settings(),
    {
        Settings {
            screen: ScreenConfig::default(),
            window: WindowConfig::default(),
            hid: HidConfig::default(),
            gesture: GestureConfig::default(),
        }
    }
}

impl Default for SettingsPatch {
    fn default() -> (r: Self)
        ensures
            r == empty_patch(),
    {
        SettingsPatch { screen: None, window: None, hid: None, gesture: None }
    }
}

fn keep_or<T: Copy>(patch: Option<T>, current: T) -> (r: T)
    ensures
        r == patched(patch, current),
{
    match patch {
        Some(v) => v,
        None => current,
    }
}

impl Settings {
    /// Merge a PATCH object into current settings.
    ///
    /// Only fields present in `patch` overwrite the current values.
    /// Missing fields (None) are kept from `current`.
    pub fn merge(current: &Settings, patch: &SettingsPatch) -> (r: Settings)
        ensures
            r == merge_spec(*current, *patch),
            patch.screen is None ==> r.screen == current.screen,
            patch.screen is Some && patch.screen.unwrap().width_px is None ==> r.screen.width_px == current.screen.width_px,
            patch.screen is Some && patch.screen.unwrap().width_px is Some ==> r.screen.width_px == patch.screen.unwrap().width_px.unwrap(),
            patch.screen is Some && patch.screen.unwrap().height_px is None ==> r.screen.height_px == current.screen.height_px,
            patch.screen is Some && patch.screen.unwrap().height_px is Some ==> r.screen.height_px == patch.screen.unwrap().height_px.unwrap(),
            patch.window is None ==> r.window == current.window,
            patch.window is Some && patch.window.unwrap().scale_bits is None ==> r.window.scale_bits == current.window.scale_bits,
            patch.window is Some && patch.window.unwrap().scale_bits is Some ==> r.window.scale_bits == patch.window.unwrap().scale_bits.unwrap(),
            patch.window is Some && patch.window.unwrap().offset_x is None ==> r.window.offset_x == current.window.offset_x,
            patch.window is Some && patch.window.unwrap().offset_x is Some ==> r.window.offset_x == patch.window.unwrap().offset_x.unwrap(),
            patch.window is Some && patch.window.unwrap().offset_y is None ==> r.window.offset_y == current.window.offset_y,
            patch.window is Some && patch.window.unwrap().offset_y is Some ==> r.window.offset_y == patch.window.unwrap().offset_y.unwrap(),
            patch.hid is None ==> r.hid == current.hid,
            patch.hid is Some && patch.hid.unwrap().report_interval_ms is None ==> r.hid.report_interval_ms == current.hid.report_interval_ms,
            patch.hid is Some && patch.hid.unwrap().report_interval_ms is Some ==> r.hid.report_interval_ms == patch.hid.unwrap().report_interval_ms.unwrap(),
            patch.gesture is None ==> r.gesture == current.gesture,
            patch.gesture is Some && patch.gesture.unwrap().tap_delay_ms is None ==> r.gesture.tap_delay_ms == current.gesture.tap_delay_ms,
            patch.gesture is Some && patch.gesture.unwrap().tap_delay_ms is Some ==> r.gesture.tap_delay_ms == patch.gesture.unwrap().tap_delay_ms.unwrap(),
            patch.gesture is Some && patch.gesture.unwrap().swipe_steps is None ==> r.gesture.swipe_steps == current.gesture.swipe_steps,
            patch.gesture is Some && patch.gesture.unwrap().swipe_steps is Some ==> r.gesture.swipe_steps == patch.gesture.unwrap().swipe_steps.unwrap(),
    {
        let screen = match patch.screen {
            Some(p) => ScreenConfig {
                width_px: keep_or(p.width_px, current.screen.width_px),
                height_px: keep_or(p.height_px, current.screen.height_px),
            },
            None => current.screen,
        };
        let window = match patch.window {
            Some(p) => WindowConfig {
                scale_bits: keep_or(p.scale_bits, current.window.scale_bits),
                offset_x: keep_or(p.offset_x, current.window.offset_x),
                offset_y: keep_or(p.offset_y, current.window.offset_y),
            },
            None => current.window,
        };
        let hid = match patch.hid {
            Some(p) => HidConfig {
                report_interval_ms: keep_or(p.report_interval_ms, current.hid.report_interval_ms),
            },
            None => current.hid,
        };
        let gesture = match patch.gesture {
            Some(p) => GestureConfig {
                tap_delay_ms: keep_or(p.tap_delay_ms, current.gesture.tap_delay_ms),
                swipe_steps: keep_or(p.swipe_steps, current.gesture.swipe_steps),
            },
            None => current.gesture,
        };
        Settings { screen, window, hid, gesture }
    }
}

/// Merging a patch that sends nothing leaves the settings unchanged.
pub proof fn lemma_merge_empty_patch(current: Settings)
    ensures
        merge_spec(current, empty_patch()) == current,
{
}

/// Merging the same patch twice is the same as merging it once.
pub proof fn lemma_merge_idempotent(current: Settings, patch: SettingsPatch)
    ensures
        merge_spec(merge_spec(current, patch), patch) == merge_spec(current, patch),
{
}

/// PATCH semantics of the merge, field by field: a group the patch leaves out is
/// kept whole; inside a group it sends, each field it sends takes the sent value
/// and each field it leaves out keeps the current value, whatever that value is.
pub proof fn lemma_merge_fieldwise(current: Settings, patch: SettingsPatch)
    ensures
        patch.screen is None ==> merge_spec(current, patch).screen == current.screen,
        patch.screen is Some && patch.screen.unwrap().width_px is None ==> merge_spec(current, patch).screen.width_px == current.screen.width_px,
        patch.screen is Some && patch.screen.unwrap().width_px is Some ==> merge_spec(current, patch).screen.width_px == patch.screen.unwrap().width_px.unwrap(),
        patch.screen is Some && patch.screen.unwrap().height_px is None ==> merge_spec(current, patch).screen.height_px == current.screen.height_px,
        patch.screen is Some && patch.screen.unwrap().height_px is Some ==> merge_spec(current, patch).screen.height_px == patch.screen.unwrap().height_px.unwrap(),
        patch.window is None ==> merge_spec(current, patch).window == current.window,
        patch.window is Some && patch.window.unwrap().scale_bits is None ==> merge_spec(current, patch).window.scale_bits == current.window.scale_bits,
        patch.window is Some && patch.window.unwrap().scale_bits is Some ==> merge_spec(current, patch).window.scale_bits == patch.window.unwrap().scale_bits.unwrap(),
        patch.window is Some && patch.window.unwrap().offset_x is None ==> merge_spec(current, patch).window.offset_x == current.window.offset_x,
        patch.window is Some && patch.window.unwrap().offset_x is Some ==> merge_spec(current, patch).window.offset_x == patch.window.unwrap().offset_x.unwrap(),
        patch.window is Some && patch.window.unwrap().offset_y is None ==> merge_spec(current, patch).window.offset_y == current.window.offset_y,
        patch.window is Some && patch.window.unwrap().offset_y is Some ==> merge_spec(current, patch).window.offset_y == patch.window.unwrap().offset_y.unwrap(),
        patch.hid is None ==> merge_spec(current, patch).hid == current.hid,
        patch.hid is Some && patch.hid.unwrap().report_interval_ms is None ==> merge_spec(current, patch).hid.report_interval_ms == current.hid.report_interval_ms,
        patch.hid is Some && patch.hid.unwrap().report_interval_ms is Some ==> merge_spec(current, patch).hid.report_interval_ms == patch.hid.unwrap().report_interval_ms.unwrap(),
        patch.gesture is None ==> merge_spec(current, patch).gesture == current.gesture,
        patch.gesture is Some && patch.gesture.unwrap().tap_delay_ms is None ==> merge_spec(current, patch).gesture.tap_delay_ms == current.gesture.tap_delay_ms,
        patch.gesture is Some && patch.gesture.unwrap().tap_delay_ms is Some ==> merge_spec(current, patch).gesture.tap_delay_ms == patch.gesture.unwrap().tap_delay_ms.unwrap(),
        patch.gesture is Some && patch.gesture.unwrap().swipe_steps is None ==> merge_spec(current, patch).gesture.swipe_steps == current.gesture.swipe_steps,
        patch.gesture is Some && patch.gesture.unwrap().swipe_steps is Some ==> merge_spec(current, patch).gesture.swipe_steps == patch.gesture.unwrap().swipe_steps.unwrap(),
{
}

} // verus!
