use nanomiddleclick::{
    parse_mouse_click_mode, mouse_click_mode_code, MouseAction, MouseClickMode, MouseEventKind,
    SignalKind, SystemEventKind, TouchDeviceKind,
};

#[test]
fn device_kind_codes() {
    assert_eq!(TouchDeviceKind::from_raw(0), Some(TouchDeviceKind::Unknown));
    assert_eq!(TouchDeviceKind::from_raw(1), Some(TouchDeviceKind::Mouse));
    assert_eq!(TouchDeviceKind::from_raw(2), Some(TouchDeviceKind::Trackpad));
    assert_eq!(TouchDeviceKind::from_raw(3), None);
    assert_eq!(TouchDeviceKind::default(), TouchDeviceKind::Unknown);
}

#[test]
fn mouse_event_kind_codes() {
    assert_eq!(MouseEventKind::from_raw(0), None);
    assert_eq!(MouseEventKind::from_raw(1), Some(MouseEventKind::LeftDown));
    assert_eq!(MouseEventKind::from_raw(2), Some(MouseEventKind::LeftUp));
    assert_eq!(MouseEventKind::from_raw(3), Some(MouseEventKind::RightDown));
    assert_eq!(MouseEventKind::from_raw(4), Some(MouseEventKind::RightUp));
    assert_eq!(MouseEventKind::from_raw(5), None);
}

#[test]
fn mouse_action_codes() {
    assert_eq!(MouseAction::Pass.as_raw(), 0);
    assert_eq!(MouseAction::RewriteDown.as_raw(), 1);
    assert_eq!(MouseAction::RewriteUp.as_raw(), 2);
}

#[test]
fn system_event_and_signal_codes() {
    assert_eq!(SystemEventKind::from_raw(1), Some(SystemEventKind::DeviceAdded));
    assert_eq!(SystemEventKind::from_raw(2), Some(SystemEventKind::Wake));
    assert_eq!(SystemEventKind::from_raw(3), Some(SystemEventKind::DisplayReconfigured));
    assert_eq!(SystemEventKind::from_raw(4), None);
    assert_eq!(SignalKind::from_raw(1), Some(SignalKind::Reload));
    assert_eq!(SignalKind::from_raw(0), None);
}

#[test]
fn mouse_click_mode_names_parse_in_any_ascii_case() {
    assert_eq!(parse_mouse_click_mode("center"), Some(MouseClickMode::Center));
    assert_eq!(parse_mouse_click_mode("CENTER"), Some(MouseClickMode::Center));
    assert_eq!(parse_mouse_click_mode("Disabled"), Some(MouseClickMode::Disabled));
    assert_eq!(parse_mouse_click_mode("threeFinger"), Some(MouseClickMode::ThreeFinger));
    assert_eq!(parse_mouse_click_mode("THREEFINGER"), Some(MouseClickMode::ThreeFinger));
    assert_eq!(parse_mouse_click_mode("three finger"), None);
    assert_eq!(parse_mouse_click_mode("centre"), None);
    assert_eq!(parse_mouse_click_mode(""), None);
    for mode in [MouseClickMode::ThreeFinger, MouseClickMode::Center, MouseClickMode::Disabled] {
        assert_eq!(parse_mouse_click_mode(mode.as_str()), Some(mode));
    }
}

#[test]
fn numeric_mouse_click_modes_fall_back_to_center() {
    assert_eq!(mouse_click_mode_code(0), 0);
    assert_eq!(mouse_click_mode_code(2), 2);
    assert_eq!(mouse_click_mode_code(3), 1);
    assert_eq!(mouse_click_mode_code(-1), 1);
    assert_eq!(mouse_click_mode_code(i64::MAX), 1);
}

#[test]
fn input_runtime_system_event_codes() {
    assert_eq!(SystemEventKind::from_input_runtime_raw(0), None);
    assert_eq!(SystemEventKind::from_input_runtime_raw(1), Some(SystemEventKind::DeviceAdded));
    assert_eq!(
        SystemEventKind::from_input_runtime_raw(2),
        Some(SystemEventKind::DisplayReconfigured)
    );
    assert_eq!(SystemEventKind::from_input_runtime_raw(3), None);
}
