use nanomiddleclick::{mouse_click_mode_from_stored, Config, MouseClickMode};

#[test]
fn invalid_mouse_click_mode_falls_back_to_documented_default() {
    assert_eq!(MouseClickMode::from_raw(u32::MAX), MouseClickMode::Center);
}

#[test]
fn valid_mouse_click_modes_are_preserved() {
    assert_eq!(MouseClickMode::from_raw(0), MouseClickMode::ThreeFinger);
    assert_eq!(MouseClickMode::from_raw(1), MouseClickMode::Center);
    assert_eq!(MouseClickMode::from_raw(2), MouseClickMode::Disabled);
}

#[test]
fn try_from_raw_rejects_unknown_codes() {
    assert_eq!(MouseClickMode::try_from_raw(0), Some(MouseClickMode::ThreeFinger));
    assert_eq!(MouseClickMode::try_from_raw(2), Some(MouseClickMode::Disabled));
    assert_eq!(MouseClickMode::try_from_raw(3), None);
}

#[test]
fn mouse_click_mode_names() {
    assert_eq!(MouseClickMode::ThreeFinger.as_str(), "threeFinger");
    assert_eq!(MouseClickMode::Center.as_str(), "center");
    assert_eq!(MouseClickMode::Disabled.as_str(), "disabled");
    assert_eq!(MouseClickMode::default(), MouseClickMode::Center);
}

#[test]
fn from_raw_parts_replaces_out_of_range_values_by_defaults() {
    let config = Config::from_raw_parts(0, true, -1, 0, false, 7, Vec::new());
    assert_eq!(config.fingers, 3);
    assert!(config.allow_more_fingers);
    assert_eq!(config.max_distance_delta, 50_000);
    assert_eq!(config.max_time_delta, 300);
    assert!(!config.tap_to_click);
    assert_eq!(config.mouse_click_mode, MouseClickMode::Center);

    let config = Config::from_raw_parts(-4, false, 0, -10, true, 0, Vec::new());
    assert_eq!(config.fingers, 3);
    assert_eq!(config.max_distance_delta, 0);
    assert_eq!(config.max_time_delta, 300);
    assert_eq!(config.mouse_click_mode, MouseClickMode::ThreeFinger);
}

#[test]
fn from_raw_parts_keeps_valid_values() {
    let config = Config::from_raw_parts(
        4,
        false,
        30_000,
        150,
        true,
        2,
        vec!["com.apple.finder".to_owned()],
    );
    assert_eq!(config.fingers, 4);
    assert_eq!(config.max_distance_delta, 30_000);
    assert_eq!(config.max_time_delta, 150);
    assert!(config.tap_to_click);
    assert_eq!(config.mouse_click_mode, MouseClickMode::Disabled);
    assert_eq!(config.ignored_app_bundles, vec!["com.apple.finder".to_owned()]);
}

#[test]
fn fallback_uses_defaults_and_system_tap_to_click() {
    let config = Config::fallback(true);
    assert_eq!(config.fingers, 3);
    assert!(!config.allow_more_fingers);
    assert_eq!(config.max_distance_delta, 50_000);
    assert_eq!(config.max_time_delta, 300);
    assert!(config.tap_to_click);
    assert_eq!(config.mouse_click_mode, MouseClickMode::Center);
    assert!(config.ignored_app_bundles.is_empty());
    assert!(!Config::fallback(false).tap_to_click);
}

#[test]
fn is_bundle_ignored_matches_whole_identifiers() {
    let config = Config::from_raw_parts(
        3,
        false,
        50_000,
        300,
        true,
        1,
        vec!["com.apple.finder".to_owned(), "com.apple.Terminal".to_owned()],
    );
    assert!(config.is_bundle_ignored("com.apple.Terminal"));
    assert!(config.is_bundle_ignored("com.apple.finder"));
    assert!(!config.is_bundle_ignored("com.apple.terminal"));
    assert!(!config.is_bundle_ignored("com.apple"));
    assert!(!Config::fallback(true).is_bundle_ignored("com.apple.finder"));
}

#[test]
fn describe_summarises_every_setting() {
    let config = Config::from_raw_parts(
        4,
        true,
        30_000,
        150,
        false,
        0,
        vec!["a".to_owned(), "b".to_owned()],
    );
    assert_eq!(
        config.describe(),
        "fingers=4, allowMoreFingers=true, maxDistanceDelta=0.0300, maxTimeDeltaMs=150, tapToClick=false, mouseClickMode=threeFinger, ignoredAppBundles=2"
    );
    assert_eq!(
        Config::fallback(true).describe(),
        "fingers=3, allowMoreFingers=false, maxDistanceDelta=0.0500, maxTimeDeltaMs=300, tapToClick=true, mouseClickMode=center, ignoredAppBundles=0"
    );
}

#[test]
fn describe_rounds_distance_to_four_decimals() {
    let mut config = Config::fallback(false);
    config.max_distance_delta = 1_234_567;
    assert!(config.describe().contains("maxDistanceDelta=1.2346,"));
    config.max_distance_delta = -50;
    assert!(config.describe().contains("maxDistanceDelta=-0.0001,"));
    config.max_distance_delta = 0;
    assert!(config.describe().contains("maxDistanceDelta=0.0000,"));
}

#[test]
fn stored_mouse_click_mode_prefers_a_name_then_a_code() {
    assert_eq!(mouse_click_mode_from_stored(Some("ThreeFinger"), 2), 0);
    assert_eq!(mouse_click_mode_from_stored(Some("DISABLED"), 0), 2);
    assert_eq!(mouse_click_mode_from_stored(Some("sideways"), 2), 2);
    assert_eq!(mouse_click_mode_from_stored(Some("sideways"), 7), 1);
    assert_eq!(mouse_click_mode_from_stored(None, 0), 0);
    assert_eq!(mouse_click_mode_from_stored(None, -1), 1);
}

#[test]
fn mouse_click_mode_codes_read_back() {
    for mode in [MouseClickMode::ThreeFinger, MouseClickMode::Center, MouseClickMode::Disabled] {
        assert_eq!(MouseClickMode::from_raw(mode.as_raw()), mode);
    }
    assert_eq!(MouseClickMode::Disabled.as_raw(), 2);
}
