use nanomiddleclick::{
    Config, GestureEngine, GestureOutcome, MouseAction, MouseClickMode, MouseEventKind,
    TouchContact, TouchDeviceKind,
};

const MS: u128 = 1_000_000;

fn config(mode: MouseClickMode) -> Config {
    Config {
        fingers: 3,
        allow_more_fingers: false,
        max_distance_delta: 50_000,
        max_time_delta: 300,
        tap_to_click: true,
        mouse_click_mode: mode,
        ignored_app_bundles: Vec::new(),
    }
}

fn touching(x: i32, y: i32) -> TouchContact {
    TouchContact { x, y, touching: true }
}

fn hovering(x: i32, y: i32) -> TouchContact {
    TouchContact { x, y, touching: false }
}

fn three() -> Vec<TouchContact> {
    vec![touching(100_000, 100_000), touching(200_000, 200_000), touching(300_000, 300_000)]
}

#[test]
fn hovering_contacts_change_nothing() {
    let mut with = GestureEngine::new(config(MouseClickMode::ThreeFinger));
    let mut without = GestureEngine::new(config(MouseClickMode::ThreeFinger));
    let frames = [
        vec![hovering(900_000, 0), touching(100_000, 100_000), touching(200_000, 200_000), hovering(1, 1), touching(300_000, 300_000)],
        vec![touching(110_000, 100_000), hovering(5, 5), touching(210_000, 200_000), touching(310_000, 300_000)],
        vec![hovering(7, 7)],
    ];
    for (i, frame) in frames.iter().enumerate() {
        let kept: Vec<TouchContact> = frame.iter().copied().filter(|t| t.touching).collect();
        let t = i as u128 * 10 * MS;
        assert_eq!(
            with.handle_touch_frame_at(t, TouchDeviceKind::Trackpad, frame),
            without.handle_touch_frame_at(t, TouchDeviceKind::Trackpad, &kept)
        );
    }
    assert_eq!(
        with.handle_mouse_event_at(40 * MS, MouseEventKind::RightDown),
        without.handle_mouse_event_at(40 * MS, MouseEventKind::RightDown)
    );
}

#[test]
fn emulated_click_is_not_doubled_by_a_physical_press() {
    let mut engine = GestureEngine::new(config(MouseClickMode::ThreeFinger));
    engine.handle_touch_frame_at(0, TouchDeviceKind::Trackpad, &three());
    assert_eq!(
        engine.handle_touch_frame_at(50 * MS, TouchDeviceKind::Trackpad, &[]),
        GestureOutcome::EmulateMiddleClick
    );
    assert_eq!(engine.handle_mouse_event_at(51 * MS, MouseEventKind::LeftDown), MouseAction::Pass);
    assert_eq!(engine.handle_mouse_event_at(52 * MS, MouseEventKind::LeftUp), MouseAction::Pass);
}

#[test]
fn recent_physical_click_suppresses_a_tap_only_for_three_quarters_of_the_tap_time() {
    let mut engine = GestureEngine::new(config(MouseClickMode::ThreeFinger));
    engine.handle_touch_frame_at(0, TouchDeviceKind::Trackpad, &three());
    assert_eq!(engine.handle_mouse_event_at(0, MouseEventKind::LeftDown), MouseAction::RewriteDown);
    assert_eq!(engine.handle_mouse_event_at(MS, MouseEventKind::LeftUp), MouseAction::RewriteUp);
    engine.handle_touch_frame_at(200 * MS, TouchDeviceKind::Trackpad, &three());
    assert_eq!(
        engine.handle_touch_frame_at(225 * MS, TouchDeviceKind::Trackpad, &[]),
        GestureOutcome::NoClick
    );

    engine.handle_touch_frame_at(226 * MS, TouchDeviceKind::Trackpad, &three());
    assert_eq!(
        engine.handle_touch_frame_at(226 * MS + 1, TouchDeviceKind::Trackpad, &[]),
        GestureOutcome::EmulateMiddleClick
    );
}

#[test]
fn disabled_magic_mouse_never_arms_a_click() {
    let mut engine = GestureEngine::new(config(MouseClickMode::Disabled));
    engine.handle_touch_frame_at(0, TouchDeviceKind::Mouse, &three());
    engine.handle_touch_frame_at(0, TouchDeviceKind::Mouse, &[touching(500_000, 500_000)]);
    assert_eq!(engine.handle_mouse_event_at(0, MouseEventKind::LeftDown), MouseAction::Pass);
    assert_eq!(engine.handle_touch_frame_at(MS, TouchDeviceKind::Mouse, &[]), GestureOutcome::NoClick);
}

#[test]
fn rewrite_grace_period_ends_after_75_milliseconds() {
    for (press_at, expected) in [(75 * MS, MouseAction::RewriteDown), (75 * MS + 1, MouseAction::Pass)] {
        let mut engine = GestureEngine::new(config(MouseClickMode::ThreeFinger));
        engine.handle_touch_frame_at(0, TouchDeviceKind::Trackpad, &three());
        engine.handle_touch_frame_at(10 * MS, TouchDeviceKind::Trackpad, &three()[..2]);
        assert_eq!(engine.handle_mouse_event_at(press_at, MouseEventKind::RightDown), expected);
    }
}

#[test]
fn release_of_a_rewritten_press_survives_touch_frames() {
    let mut engine = GestureEngine::new(config(MouseClickMode::ThreeFinger));
    engine.handle_touch_frame_at(0, TouchDeviceKind::Trackpad, &three());
    assert_eq!(engine.handle_mouse_event_at(0, MouseEventKind::RightDown), MouseAction::RewriteDown);
    engine.handle_touch_frame_at(MS, TouchDeviceKind::Trackpad, &[]);
    engine.handle_touch_frame_at(2 * MS, TouchDeviceKind::Mouse, &three());
    assert_eq!(engine.handle_mouse_event_at(3 * MS, MouseEventKind::RightUp), MouseAction::RewriteUp);
    assert_eq!(engine.handle_mouse_event_at(4 * MS, MouseEventKind::RightUp), MouseAction::Pass);
}

#[test]
fn tap_longer_than_the_limit_or_moving_too_far_is_no_click() {
    let mut engine = GestureEngine::new(config(MouseClickMode::ThreeFinger));
    engine.handle_touch_frame_at(0, TouchDeviceKind::Trackpad, &three());
    assert_eq!(
        engine.handle_touch_frame_at(300 * MS, TouchDeviceKind::Trackpad, &[]),
        GestureOutcome::EmulateMiddleClick
    );
    engine.handle_touch_frame_at(1000 * MS, TouchDeviceKind::Trackpad, &three());
    assert_eq!(
        engine.handle_touch_frame_at(1300 * MS + 1, TouchDeviceKind::Trackpad, &[]),
        GestureOutcome::NoClick
    );
    let moved = vec![touching(150_001, 100_000), touching(250_001, 200_000), touching(350_001, 300_000)];
    engine.handle_touch_frame_at(2000 * MS, TouchDeviceKind::Trackpad, &three());
    engine.handle_touch_frame_at(2010 * MS, TouchDeviceKind::Trackpad, &moved);
    assert_eq!(
        engine.handle_touch_frame_at(2020 * MS, TouchDeviceKind::Trackpad, &[]),
        GestureOutcome::NoClick
    );
}

#[test]
fn travel_equal_to_the_largest_distance_is_still_a_tap() {
    let mut limit_zero = config(MouseClickMode::ThreeFinger);
    limit_zero.max_distance_delta = 0;
    let mut engine = GestureEngine::new(limit_zero);
    engine.handle_touch_frame(TouchDeviceKind::Trackpad, &three());
    assert_eq!(
        engine.handle_touch_frame(TouchDeviceKind::Trackpad, &[]),
        GestureOutcome::EmulateMiddleClick
    );

    for (shift, expected) in [(25_000, GestureOutcome::EmulateMiddleClick), (25_001, GestureOutcome::NoClick)] {
        let mut engine = GestureEngine::new(config(MouseClickMode::ThreeFinger));
        let moved: Vec<TouchContact> =
            three().iter().map(|t| touching(t.x + shift, t.y + shift)).collect();
        engine.handle_touch_frame_at(0, TouchDeviceKind::Trackpad, &three());
        engine.handle_touch_frame_at(MS, TouchDeviceKind::Trackpad, &moved);
        assert_eq!(engine.handle_touch_frame_at(2 * MS, TouchDeviceKind::Trackpad, &[]), expected);
    }
}

#[test]
fn rewritten_releases_pair_with_rewritten_presses_over_a_history() {
    let mut engine = GestureEngine::new(config(MouseClickMode::ThreeFinger));
    let mut downs = 0;
    let mut ups = 0;
    let mut record = |action: MouseAction| {
        if action == MouseAction::RewriteDown {
            downs += 1;
        }
        if action == MouseAction::RewriteUp {
            ups += 1;
        }
        assert!(ups <= downs);
        action
    };
    assert_eq!(record(engine.handle_mouse_event_at(0, MouseEventKind::LeftDown)), MouseAction::Pass);
    assert_eq!(record(engine.handle_mouse_event_at(MS, MouseEventKind::LeftUp)), MouseAction::Pass);
    engine.handle_touch_frame_at(2 * MS, TouchDeviceKind::Trackpad, &three());
    assert_eq!(record(engine.handle_mouse_event_at(3 * MS, MouseEventKind::LeftDown)), MouseAction::RewriteDown);
    assert_eq!(record(engine.handle_mouse_event_at(4 * MS, MouseEventKind::RightDown)), MouseAction::Pass);
    engine.cancel_current_touch_sequence();
    assert_eq!(record(engine.handle_mouse_event_at(5 * MS, MouseEventKind::LeftUp)), MouseAction::RewriteUp);
    assert_eq!(record(engine.handle_mouse_event_at(6 * MS, MouseEventKind::RightUp)), MouseAction::Pass);
    engine.handle_touch_frame_at(7 * MS, TouchDeviceKind::Trackpad, &three());
    assert_eq!(record(engine.handle_mouse_event_at(8 * MS, MouseEventKind::LeftDown)), MouseAction::RewriteDown);
    engine.reset_for_ignored_app();
    assert_eq!(record(engine.handle_mouse_event_at(9 * MS, MouseEventKind::LeftUp)), MouseAction::Pass);
    assert_eq!((downs, ups), (2, 1));
}

#[test]
fn press_is_rewritten_only_while_a_click_is_armed() {
    let mut engine = GestureEngine::new(config(MouseClickMode::Center));
    engine.handle_touch_frame_at(0, TouchDeviceKind::Mouse, &[touching(500_000, 400_000)]);
    engine.handle_touch_frame_at(MS, TouchDeviceKind::Mouse, &[touching(200_000, 400_000)]);
    assert_eq!(engine.handle_mouse_event_at(2 * MS, MouseEventKind::LeftDown), MouseAction::Pass);
    engine.handle_touch_frame_at(3 * MS, TouchDeviceKind::Mouse, &[touching(500_000, 400_000)]);
    assert_eq!(engine.handle_mouse_event_at(4 * MS, MouseEventKind::LeftDown), MouseAction::RewriteDown);

    let mut engine = GestureEngine::new(config(MouseClickMode::ThreeFinger));
    engine.handle_touch_frame_at(0, TouchDeviceKind::Trackpad, &three());
    engine.cancel_current_touch_sequence();
    assert_eq!(engine.handle_mouse_event_at(MS, MouseEventKind::LeftDown), MouseAction::Pass);

    engine.handle_touch_frame_at(10 * MS, TouchDeviceKind::Trackpad, &three());
    engine.handle_touch_frame_at(20 * MS, TouchDeviceKind::Trackpad, &three()[..1]);
    engine.handle_mouse_event_at(30 * MS, MouseEventKind::LeftUp);
    assert_eq!(engine.handle_mouse_event_at(85 * MS, MouseEventKind::LeftDown), MouseAction::RewriteDown);
}

#[test]
fn a_tap_is_timed_from_the_frame_that_started_it() {
    let mut engine = GestureEngine::new(config(MouseClickMode::ThreeFinger));
    engine.handle_touch_frame_at(0, TouchDeviceKind::Trackpad, &three());
    engine.handle_touch_frame_at(500 * MS, TouchDeviceKind::Trackpad, &three());
    assert_eq!(
        engine.handle_touch_frame_at(600 * MS, TouchDeviceKind::Trackpad, &[]),
        GestureOutcome::NoClick
    );

    let mut engine = GestureEngine::new(config(MouseClickMode::ThreeFinger));
    engine.handle_touch_frame_at(0, TouchDeviceKind::Trackpad, &three());
    engine.cancel_current_touch_sequence();
    engine.handle_touch_frame_at(500 * MS, TouchDeviceKind::Trackpad, &three());
    assert_eq!(
        engine.handle_touch_frame_at(600 * MS, TouchDeviceKind::Trackpad, &[]),
        GestureOutcome::EmulateMiddleClick
    );
}

#[test]
fn a_tap_travel_runs_from_its_first_to_its_latest_frame() {
    let far: Vec<TouchContact> =
        three().iter().map(|t| touching(t.x + 200_000, t.y)).collect();
    let mut engine = GestureEngine::new(config(MouseClickMode::ThreeFinger));
    engine.handle_touch_frame_at(0, TouchDeviceKind::Trackpad, &three());
    engine.handle_touch_frame_at(5 * MS, TouchDeviceKind::Trackpad, &far);
    engine.handle_touch_frame_at(10 * MS, TouchDeviceKind::Trackpad, &three());
    assert_eq!(
        engine.handle_touch_frame_at(20 * MS, TouchDeviceKind::Trackpad, &[]),
        GestureOutcome::EmulateMiddleClick
    );
}

#[test]
fn grace_period_ends_when_a_mouse_event_finds_it_run_out() {
    let mut engine = GestureEngine::new(config(MouseClickMode::ThreeFinger));
    engine.handle_touch_frame_at(100 * MS, TouchDeviceKind::Trackpad, &three());
    engine.handle_touch_frame_at(110 * MS, TouchDeviceKind::Trackpad, &three()[..1]);
    assert_eq!(engine.handle_mouse_event_at(1000 * MS, MouseEventKind::LeftUp), MouseAction::Pass);
    assert_eq!(engine.handle_mouse_event_at(150 * MS, MouseEventKind::LeftDown), MouseAction::Pass);
}
