use ble_touch::cmd::{
    GestureConfig, GestureConfigPatch, HidConfig, HidConfigPatch, ScreenConfig,
    ScreenConfigPatch, WindowConfig, WindowConfigPatch,
};
use ble_touch::settings::{Settings, SettingsPatch};

#[test]
fn settings_defaults_are_sensible() {
    let s = Settings::default();
    assert_eq!(s.screen.width_px, 1080);
    assert_eq!(s.screen.height_px, 2340);
    assert_eq!(f32::from_bits(s.window.scale_bits), 1.0);
    assert_eq!(s.window.offset_x, 0);
    assert_eq!(s.window.offset_y, 60);
    assert_eq!(s.hid.report_interval_ms, 20);
    assert_eq!(s.gesture.tap_delay_ms, 50);
}

#[test]
fn settings_merge_partial_patch() {
    let current = Settings {
        screen: ScreenConfig { width_px: 1080, height_px: 2340 },
        window: WindowConfig { scale_bits: 3.0f32.to_bits(), offset_x: 0, offset_y: 60 },
        ..Default::default()
    };

    let patch = SettingsPatch {
        window: Some(WindowConfigPatch {
            scale_bits: Some(2.5f32.to_bits()),
            offset_x: None,
            offset_y: Some(40),
        }),
        ..Default::default()
    };

    let merged = Settings::merge(&current, &patch);
    // Patched fields changed
    assert_eq!(f32::from_bits(merged.window.scale_bits), 2.5);
    assert_eq!(merged.window.offset_y, 40);
    // Unpatched fields within window preserved
    assert_eq!(merged.window.offset_x, 0);
    // Unpatched sub-structs preserved
    assert_eq!(merged.screen.width_px, 1080);
    assert_eq!(merged.hid.report_interval_ms, 20);
}

#[test]
fn settings_merge_empty_patch_preserves_all() {
    let current = Settings::default();
    let patch = SettingsPatch::default();
    let merged = Settings::merge(&current, &patch);
    assert_eq!(merged.screen.width_px, current.screen.width_px);
    assert_eq!(merged.window.scale_bits, current.window.scale_bits);
}

#[test]
fn merge_screen_width_only_keeps_height() {
    let current = Settings::default();
    let patch = SettingsPatch {
        screen: Some(ScreenConfigPatch { width_px: Some(1440), height_px: None }),
        ..Default::default()
    };
    let merged = Settings::merge(&current, &patch);
    assert_eq!(merged.screen.width_px, 1440);
    assert_eq!(merged.screen.height_px, 2340);
}

#[test]
fn merge_every_field() {
    let current = Settings::default();
    let patch = SettingsPatch {
        screen: Some(ScreenConfigPatch { width_px: Some(720), height_px: Some(1280) }),
        window: Some(WindowConfigPatch {
            scale_bits: Some(2.0f32.to_bits()),
            offset_x: Some(-5),
            offset_y: Some(-7),
        }),
        hid: Some(HidConfigPatch { report_interval_ms: Some(15) }),
        gesture: Some(GestureConfigPatch { tap_delay_ms: Some(80), swipe_steps: Some(4) }),
    };
    let merged = Settings::merge(&current, &patch);
    assert_eq!(merged.screen, ScreenConfig { width_px: 720, height_px: 1280 });
    assert_eq!(
        merged.window,
        WindowConfig { scale_bits: 2.0f32.to_bits(), offset_x: -5, offset_y: -7 }
    );
    assert_eq!(merged.hid, HidConfig { report_interval_ms: 15 });
    assert_eq!(merged.gesture, GestureConfig { tap_delay_ms: 80, swipe_steps: 4 });
}

#[test]
fn merge_twice_same_as_once() {
    let current = Settings::default();
    let patch = SettingsPatch {
        gesture: Some(GestureConfigPatch { tap_delay_ms: Some(99), swipe_steps: None }),
        hid: Some(HidConfigPatch { report_interval_ms: None }),
        ..Default::default()
    };
    let once = Settings::merge(&current, &patch);
    let twice = Settings::merge(&once, &patch);
    assert_eq!(once, twice);
    assert_eq!(once.gesture.tap_delay_ms, 99);
    assert_eq!(once.gesture.swipe_steps, 10);
    assert_eq!(once.hid.report_interval_ms, 20);
}

#[test]
fn empty_patch_is_identity_on_custom_settings() {
    let current = Settings {
        screen: ScreenConfig { width_px: 1, height_px: 2 },
        window: WindowConfig { scale_bits: 0.5f32.to_bits(), offset_x: 3, offset_y: 4 },
        hid: HidConfig { report_interval_ms: 5 },
        gesture: GestureConfig { tap_delay_ms: 6, swipe_steps: 7 },
    };
    assert_eq!(Settings::merge(&current, &SettingsPatch::default()), current);
}

#[test]
fn config_defaults() {
    assert_eq!(ScreenConfig::default(), ScreenConfig { width_px: 1080, height_px: 2340 });
    assert_eq!(WindowConfig::default().offset_y, 60);
    assert_eq!(HidConfig::default().report_interval_ms, 20);
    assert_eq!(GestureConfig::default(), GestureConfig { tap_delay_ms: 50, swipe_steps: 10 });
    assert_eq!(ble_touch::cmd::default_swipe_steps(), 10);
    assert_eq!(ble_touch::cmd::default_long_press_ms(), 800);
    assert_eq!(ble_touch::cmd::default_scale_bits(), 1.0f32.to_bits());
}
