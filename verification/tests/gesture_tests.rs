use ble_touch::cmd::{GestureConfig, Point};
use ble_touch::gesture::{
    synthesize_down, synthesize_dtap, synthesize_long_press, synthesize_move, synthesize_swipe,
    synthesize_tap, synthesize_up, GestureSequence,
};

fn default_gesture() -> GestureConfig {
    GestureConfig::default()
}

fn lerp(a: f32, b: f32, t: f32) -> f32 {
    a + (b - a) * t
}

/// Interior swipe positions, interpolated in single precision at `i / m`,
/// `m = max(num_steps, 1)` moves.
fn interior_waypoints(from: Point, to: Point, num_steps: u8) -> Vec<Point> {
    let moves = num_steps.max(1) as usize;
    let mut points = Vec::new();
    for i in 1..moves {
        let t = i as f32 / moves as f32;
        points.push(Point {
            x: lerp(from.x as f32, to.x as f32, t) as u16,
            y: lerp(from.y as f32, to.y as f32, t) as u16,
        });
    }
    points
}

fn swipe(from: Point, to: Point, num_steps: u8, gesture: &GestureConfig) -> GestureSequence {
    let waypoints = interior_waypoints(from, to, num_steps);
    synthesize_swipe(from, to, num_steps, gesture, &waypoints)
}

#[test]
fn tap_produces_down_then_up() {
    let seq = synthesize_tap(500, 1000, &default_gesture());
    assert_eq!(seq.steps.len(), 2);
    // First step: touch at (500, 1000)
    assert!(seq.steps[0].report.tip_switch);
    assert_eq!(seq.steps[0].report.x, 500);
    assert_eq!(seq.steps[0].report.y, 1000);
    // Second step: release
    assert!(!seq.steps[1].report.tip_switch);
    assert_eq!(seq.steps[1].report.contact_count, 0);
}

#[test]
fn down_produces_single_touch() {
    let seq = synthesize_down(300, 600);
    assert_eq!(seq.steps.len(), 1);
    assert!(seq.steps[0].report.tip_switch);
}

#[test]
fn up_produces_single_release() {
    let seq = synthesize_up();
    assert_eq!(seq.steps.len(), 1);
    assert!(!seq.steps[0].report.tip_switch);
}

#[test]
fn swipe_interpolates_path() {
    let from = Point { x: 0, y: 0 };
    let to = Point { x: 400, y: 800 };
    let seq = swipe(from, to, 5, &default_gesture());

    // Should have at least: down + intermediates + release
    assert!(seq.steps.len() >= 3);

    // First point is from
    assert_eq!(seq.steps[0].report.x, 0);
    assert_eq!(seq.steps[0].report.y, 0);

    // Last touch before release should be near `to`
    let last_touch = seq.steps.iter().filter(|s| s.report.tip_switch).last().unwrap();
    assert!(last_touch.report.x >= 395);
    assert!(last_touch.report.y >= 795);

    // Final step is release
    assert!(!seq.steps.last().unwrap().report.tip_switch);
}

#[test]
fn dtap_has_four_steps() {
    let seq = synthesize_dtap(200, 400, &default_gesture());
    // touch -> release -> touch -> release
    assert_eq!(seq.steps.len(), 4);
    assert!(seq.steps[0].report.tip_switch);
    assert!(!seq.steps[1].report.tip_switch);
    assert!(seq.steps[2].report.tip_switch);
    assert!(!seq.steps[3].report.tip_switch);
}

#[test]
fn long_press_has_hold_delay() {
    let seq = synthesize_long_press(500, 1000, 800);
    assert_eq!(seq.steps.len(), 2);
    // Touch step should have the duration delay
    assert_eq!(seq.steps[0].delay_ms, 800);
    assert!(seq.steps[0].report.tip_switch);
}

#[test]
fn swipe_min_steps_clamped() {
    let from = Point { x: 0, y: 0 };
    let to = Point { x: 100, y: 200 };
    let seq = swipe(from, to, 0, &default_gesture());
    // Even with 0 steps, should produce at least from + release
    assert!(seq.steps.len() >= 2);
}

#[test]
fn gesture_reports_clamped_to_4095() {
    let seq = synthesize_tap(5000, 5000, &default_gesture());
    assert_eq!(seq.steps[0].report.x, 4095);
    assert_eq!(seq.steps[0].report.y, 4095);
}

#[test]
fn swipe_exact_steps_and_delays() {
    let from = Point { x: 0, y: 0 };
    let to = Point { x: 400, y: 800 };
    let seq = swipe(from, to, 5, &default_gesture());
    // touch(from) + 5 moves (4 interior + to) + release
    assert_eq!(seq.steps.len(), 7);
    let xs: Vec<u16> = seq.steps.iter().map(|s| s.report.x).collect();
    assert_eq!(xs, vec![0, 80, 160, 240, 320, 400, 0]);
    let ys: Vec<u16> = seq.steps.iter().map(|s| s.report.y).collect();
    assert_eq!(ys, vec![0, 160, 320, 480, 640, 800, 0]);
    let delays: Vec<u16> = seq.steps.iter().map(|s| s.delay_ms).collect();
    // 50 ms tap delay over 5 steps = 10 ms per move
    assert_eq!(delays, vec![0, 10, 10, 10, 10, 10, 0]);
}

#[test]
fn swipe_with_zero_steps_moves_straight_to_end() {
    let from = Point { x: 10, y: 20 };
    let to = Point { x: 100, y: 200 };
    let seq = swipe(from, to, 0, &default_gesture());
    assert_eq!(seq.steps.len(), 3);
    assert_eq!((seq.steps[1].report.x, seq.steps[1].report.y), (100, 200));
    // tap delay divided by max(0, 1)
    assert_eq!(seq.steps[1].delay_ms, 50);
}

#[test]
fn swipe_delay_never_below_one_ms() {
    let cfg = GestureConfig { tap_delay_ms: 3, swipe_steps: 10 };
    let from = Point { x: 0, y: 0 };
    let to = Point { x: 90, y: 90 };
    let seq = swipe(from, to, 10, &cfg);
    assert_eq!(seq.steps.len(), 12);
    for s in &seq.steps[1..11] {
        assert_eq!(s.delay_ms, 1);
    }
}

#[test]
fn swipe_clamps_far_end() {
    let from = Point { x: 5000, y: 0 };
    let to = Point { x: 6000, y: 4095 };
    let seq = swipe(from, to, 3, &default_gesture());
    assert!(seq.steps.iter().all(|s| s.report.x <= 4095 && s.report.y <= 4095));
    assert_eq!(seq.steps[0].report.x, 4095);
}

#[test]
fn swipe_with_one_step_is_one_move() {
    let from = Point { x: 10, y: 20 };
    let to = Point { x: 100, y: 200 };
    let seq = swipe(from, to, 1, &default_gesture());
    assert_eq!(seq.steps.len(), 3);
    assert_eq!((seq.steps[1].report.x, seq.steps[1].report.y), (100, 200));
}

#[test]
fn swipe_makes_num_steps_moves() {
    let from = Point { x: 0, y: 0 };
    let to = Point { x: 1000, y: 1000 };
    for n in 1u8..=20 {
        let seq = swipe(from, to, n, &default_gesture());
        assert_eq!(seq.steps.len(), n as usize + 2);
    }
}

#[test]
fn dtap_delays() {
    let cfg = GestureConfig { tap_delay_ms: 70, swipe_steps: 10 };
    let seq = synthesize_dtap(1, 2, &cfg);
    let delays: Vec<u16> = seq.steps.iter().map(|s| s.delay_ms).collect();
    assert_eq!(delays, vec![70, 5, 70, 0]);
}

#[test]
fn move_matches_down() {
    let a = synthesize_move(7, 8);
    let b = synthesize_down(7, 8);
    assert_eq!(a.steps, b.steps);
}

#[test]
fn push_and_frames() {
    let mut seq = GestureSequence::new();
    seq.push_touch(1000, 2000, 3);
    seq.push_release(4);
    assert_eq!(seq.steps.len(), 2);
    let frames = seq.report_frames();
    assert_eq!(frames.len(), 2);
    assert_eq!(frames[0], [1, 1, 1, 0xe8, 0x03, 0xd0, 0x07, 1]);
    assert_eq!(frames[1], [1, 0, 0, 0, 0, 0, 0, 0]);
    let copy = seq.clone();
    assert_eq!(copy.steps, seq.steps);
}
