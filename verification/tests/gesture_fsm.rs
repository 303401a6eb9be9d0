use nanomiddleclick::{
    Config, GestureEngine, GestureOutcome, MouseAction, MouseClickMode, MouseEventKind,
    TouchContact, TouchDeviceKind,
};

fn config() -> Config {
    Config {
        fingers: 3,
        allow_more_fingers: false,
        max_distance_delta: 50_000,
        max_time_delta: 300,
        tap_to_click: true,
        mouse_click_mode: MouseClickMode::Center,
        ignored_app_bundles: Vec::new(),
    }
}

fn position(v: f32) -> i32 {
    (f64::from(v) * 1_000_000.0).round() as i32
}

fn touch(x: f32, y: f32) -> TouchContact {
    TouchContact { x: position(x), y: position(y), touching: true }
}

fn hover_touch(x: f32, y: f32) -> TouchContact {
    TouchContact { x: position(x), y: position(y), touching: false }
}

fn frame(engine: &mut GestureEngine, touches: &[TouchContact]) -> GestureOutcome {
    engine.handle_touch_frame(TouchDeviceKind::Trackpad, touches)
}

const MS: u128 = 1_000_000;

#[test]
fn gesture_fsm_rewrites_mouse_down_and_up_when_required_fingers_are_down() {
    let mut engine = GestureEngine::new(config());
    frame(&mut engine, &[touch(0.1, 0.1), touch(0.2, 0.2), touch(0.3, 0.3)]);

    assert_eq!(engine.handle_mouse_event(MouseEventKind::LeftDown), MouseAction::RewriteDown);
    assert_eq!(engine.handle_mouse_event(MouseEventKind::LeftUp), MouseAction::RewriteUp);
}

#[test]
fn gesture_fsm_rewrites_mouse_down_after_brief_touch_drop_before_click() {
    let mut engine = GestureEngine::new(config());
    frame(&mut engine, &[touch(0.1, 0.1), touch(0.2, 0.2), touch(0.3, 0.3)]);
    frame(&mut engine, &[touch(0.1, 0.1), touch(0.2, 0.2)]);

    assert_eq!(engine.handle_mouse_event(MouseEventKind::LeftDown), MouseAction::RewriteDown);
}

#[test]
fn gesture_fsm_does_not_rewrite_mouse_down_after_touch_grace_expires() {
    let mut engine = GestureEngine::new(config());
    engine.handle_touch_frame_at(
        0,
        TouchDeviceKind::Trackpad,
        &[touch(0.1, 0.1), touch(0.2, 0.2), touch(0.3, 0.3)],
    );
    engine.handle_touch_frame_at(0, TouchDeviceKind::Trackpad, &[touch(0.1, 0.1), touch(0.2, 0.2)]);

    assert_eq!(engine.handle_mouse_event_at(100 * MS, MouseEventKind::LeftDown), MouseAction::Pass);
}

#[test]
fn gesture_fsm_emits_middle_click_for_valid_tap() {
    let mut engine = GestureEngine::new(config());
    frame(&mut engine, &[touch(0.1, 0.1), touch(0.2, 0.2), touch(0.3, 0.3)]);
    frame(&mut engine, &[touch(0.11, 0.1), touch(0.21, 0.2), touch(0.31, 0.3)]);

    assert_eq!(frame(&mut engine, &[]), GestureOutcome::EmulateMiddleClick);
}

#[test]
fn rejects_tap_when_touch_duration_times_out() {
    let mut engine = GestureEngine::new(config());
    engine.handle_touch_frame_at(
        0,
        TouchDeviceKind::Trackpad,
        &[touch(0.1, 0.1), touch(0.2, 0.2), touch(0.3, 0.3)],
    );

    assert_eq!(
        engine.handle_touch_frame_at(350 * MS, TouchDeviceKind::Trackpad, &[]),
        GestureOutcome::NoClick
    );
}

#[test]
fn rejects_tap_when_distance_is_too_large() {
    let mut engine = GestureEngine::new(config());
    frame(&mut engine, &[touch(0.1, 0.1), touch(0.2, 0.2), touch(0.3, 0.3)]);
    frame(&mut engine, &[touch(0.3, 0.3), touch(0.4, 0.4), touch(0.5, 0.5)]);

    assert_eq!(frame(&mut engine, &[]), GestureOutcome::NoClick);
}

#[test]
fn rejects_oversized_touch_set_when_allow_more_fingers_is_disabled() {
    let mut engine = GestureEngine::new(config());
    frame(&mut engine, &[touch(0.1, 0.1), touch(0.2, 0.2), touch(0.3, 0.3), touch(0.4, 0.4)]);

    assert_eq!(engine.handle_mouse_event(MouseEventKind::LeftDown), MouseAction::Pass);
}

#[test]
fn ignores_hovering_paths_when_counting_click_fingers() {
    let mut engine = GestureEngine::new(config());
    frame(
        &mut engine,
        &[touch(0.1, 0.1), touch(0.2, 0.2), touch(0.3, 0.3), hover_touch(0.4, 0.4)],
    );

    assert_eq!(engine.handle_mouse_event(MouseEventKind::LeftDown), MouseAction::RewriteDown);
}

#[test]
fn accepts_oversized_touch_set_when_allow_more_fingers_is_enabled() {
    let mut config = config();
    config.allow_more_fingers = true;
    let mut engine = GestureEngine::new(config);

    frame(
        &mut engine,
        &[touch(0.10, 0.10), touch(0.20, 0.20), touch(0.30, 0.30), touch(0.90, 0.90)],
    );
    frame(
        &mut engine,
        &[touch(0.11, 0.10), touch(0.21, 0.20), touch(0.31, 0.30), touch(0.95, 0.95)],
    );

    assert_eq!(frame(&mut engine, &[]), GestureOutcome::EmulateMiddleClick);
}

#[test]
fn suppresses_synthetic_tap_after_rewritten_natural_click() {
    let mut engine = GestureEngine::new(config());
    frame(&mut engine, &[touch(0.1, 0.1), touch(0.2, 0.2), touch(0.3, 0.3)]);
    assert_eq!(engine.handle_mouse_event(MouseEventKind::LeftDown), MouseAction::RewriteDown);
    assert_eq!(engine.handle_mouse_event(MouseEventKind::LeftUp), MouseAction::RewriteUp);

    frame(&mut engine, &[touch(0.1, 0.1), touch(0.2, 0.2), touch(0.3, 0.3)]);
    assert_eq!(frame(&mut engine, &[]), GestureOutcome::NoClick);
}

#[test]
fn tap_path_stays_disabled_when_tap_to_click_is_off() {
    let mut config = config();
    config.tap_to_click = false;
    let mut engine = GestureEngine::new(config);

    frame(&mut engine, &[touch(0.1, 0.1), touch(0.2, 0.2), touch(0.3, 0.3)]);
    assert_eq!(frame(&mut engine, &[]), GestureOutcome::NoClick);
}

#[test]
fn reset_for_ignored_app_clears_pending_rewrite_state() {
    let mut engine = GestureEngine::new(config());
    frame(&mut engine, &[touch(0.1, 0.1), touch(0.2, 0.2), touch(0.3, 0.3)]);
    assert_eq!(engine.handle_mouse_event(MouseEventKind::LeftDown), MouseAction::RewriteDown);

    engine.reset_for_ignored_app();

    assert_eq!(engine.handle_mouse_event(MouseEventKind::LeftUp), MouseAction::Pass);
}
