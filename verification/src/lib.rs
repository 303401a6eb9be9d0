//! Middle-click emulation for macOS input devices.
//!
//! The library holds the decision logic of the daemon: the configuration
//! model, the gesture state machine that turns touch frames and mouse events
//! into middle clicks, the rule that ignored applications switch the daemon
//! off, the command-line grammar and the launch-agent configuration.
//! Talking to the operating system is left to the application around it.
mod cli;
mod clock;
mod config;
mod daemon;
mod gesture;
mod gesture_history;
mod gesture_laws;
mod input;
mod launch_agent;
mod plist;
mod settings;
mod text;
mod touch;

pub use cli::{arg_texts, command_for, parse_args, usage, Command, USAGE};
pub use clock::MAX_CLOCK_NANOS;
pub use config::{
    distance_text, summary, Config, MouseClickMode, DEFAULT_ALLOW_MORE_FINGERS, DEFAULT_FINGERS,
    DEFAULT_MAX_DISTANCE_DELTA, DEFAULT_MAX_TIME_DELTA_MS, POSITION_SCALE,
};
pub use daemon::{bundle_ignored, App, AppState};
pub use gesture::{
    cancelled, click_eligible, contacts_recorded, elapsed, finger_click_allowed,
    finish_touch_sequence, initial_state, is_center_touch, matches_required_fingers,
    max_tap_nanos, mouse_event_transition, reset, synthetic_click_suppressed, tap_gesture_allowed,
    tap_is_valid, tap_tracked, tap_tracking_cleared, touch_frame_transition, within_rewrite_grace,
    center_click_allowed, EngineState, GestureEngine, GestureOutcome, CLICK_REWRITE_GRACE_NANOS,
    MAGIC_MOUSE_CENTER_MAX_X, MAGIC_MOUSE_CENTER_MIN_X, NANOS_PER_MILLI,
};
pub use gesture_history::{
    action_at, arms_by_center, arms_by_fingers, before, center_armed, centroid_at, clock_in_range,
    configs_have_fingers, configures_fingers, count_actions, ends_grace, ends_tap, ends_touch_down,
    fingers_armed, first_of_tap, grace_armed, grace_kept, grace_lapsed_at, last_rewritten_press,
    last_sampled_in_tap, law_press_rewritten_over_history, law_release_rewritten_over_history,
    law_rewritten_releases_pair_over_history, law_tap_emitted_over_history, outcome_at, reading,
    release_pending, run, sampled_in_tap, starts_tap, step, tap_open, tap_sample, EngineEvent,
};
pub use gesture_laws::{
    law_cancel_keeps_pending_release, law_config_update_keeps_pending_release,
    law_disabled_mouse_never_arms_a_click, law_emulated_click_is_not_doubled,
    law_emulated_click_needs_enabled_tap, law_hovering_contacts_are_ignored,
    law_recent_click_suppresses_tap, law_reset_passes_every_mouse_event,
    law_rewrite_grace_period, law_rewritten_presses_and_releases_pair,
    law_touch_frames_keep_pending_release, law_required_fingers_arm_a_rewrite,
    law_center_touch_arms_a_rewrite, law_center_zone_bounds_the_rewrite, law_tracking_stays_consistent, tracking_consistent,
    touching_contacts,
};
pub use input::{
    MouseAction, MouseButton, MouseEventKind, SignalKind, SystemEventKind, TouchDeviceKind,
};
pub use launch_agent::{
    agent_has_fields, build_agent_config, path_from_text, LaunchAgentError, AGENT_STDERR_PATH,
    AGENT_STDOUT_PATH,
};
pub use plist::{
    escape_char, escape_xml, escaped, is_markup_char, is_xml_sensitive,
    begins_with_entity, law_escaped_ampersands_begin_entities, law_escaping_fixes_only_plain_text,
    law_escaping_reads_back, plist_document, render_plist,
    starts_with, unescaped, LABEL,
    PLIST_AFTER_EXECUTABLE, PLIST_AFTER_LABEL, PLIST_AFTER_STDOUT, PLIST_EPILOGUE, PLIST_PROLOGUE,
};
pub use settings::{
    ascii_lowercase, ascii_lowercased, law_mode_names_read_back, mode_named, mouse_click_mode_code, mouse_click_mode_from_stored,
    parse_mouse_click_mode,
};
pub use touch::{
    abs, active_count, analysis, analyze_touches, centroid, contacts_of, first_touching, is_touch_contact_stage,
    sampled, sum_x, sum_y, Point, Touch, TouchAnalysis, TouchContact, TouchFrame,
};
