//! The gesture state machine: touch frames and physical clicks in, middle
//! clicks and click rewrites out.
use vstd::prelude::*;

use std::time::Instant;

use crate::clock::{instant_now, nanos_since, MAX_CLOCK_NANOS};
use crate::config::{Config, MouseClickMode};
use crate::input::{MouseAction, MouseEventKind, TouchDeviceKind};
use crate::touch::{active_count, analysis, analyze_touches, Point, TouchAnalysis, TouchContact};

verus! {

/// How long after the required fingers were last down a physical click is
/// still rewritten, in nanoseconds (75 ms).
pub const CLICK_REWRITE_GRACE_NANOS: u128 = 75_000_000;

/// Nanoseconds per millisecond.
pub const NANOS_PER_MILLI: u128 = 1_000_000;

/// Left edge of the Magic Mouse centre zone (0.35 of the width).
pub const MAGIC_MOUSE_CENTER_MIN_X: i32 = 350_000;

/// Right edge of the Magic Mouse centre zone (0.65 of the width).
pub const MAGIC_MOUSE_CENTER_MAX_X: i32 = 650_000;

/// What a touch frame produced.
#[derive(Clone, Copy, Debug, PartialEq, Eq, Structural)]
pub enum GestureOutcome {
    /// Nothing for the application to do.
    NoClick,
    /// A valid tap ended: the application should post a middle click.
    EmulateMiddleClick,
}

/// The state of the gesture engine. Times are nanoseconds on the engine's
/// monotonic clock.
pub struct EngineState {
    pub config: Config,
    /// The required fingers are down on a device that may click with them.
    pub required_touch_down: bool,
    /// One finger rests in the centre zone of a Magic Mouse in centre mode.
    pub magic_mouse_center_touch_down: bool,
    /// Until when a physical click is still rewritten after the fingers left.
    pub click_rewrite_deadline: Option<u128>,
    /// A physical press was rewritten and its release is still to come.
    pub rewritten_mouse_down_active: bool,
    /// When a physical press was last rewritten into a middle click.
    pub natural_middle_click_last_time: Option<u128>,
    /// When the current touch sequence began.
    pub touch_start_time: Option<u128>,
    /// Centroid of the required fingers when the tap began.
    pub start_centroid: Option<Point>,
    /// Centroid of the required fingers in the latest frame.
    pub latest_centroid: Option<Point>,
}

/// The state of a fresh engine.
pub open spec fn initial_state(config: Config) -> EngineState {
    EngineState {
        config,
        required_touch_down: false,
        magic_mouse_center_touch_down: false,
        click_rewrite_deadline: None,
        rewritten_mouse_down_active: false,
        natural_middle_click_last_time: None,
        touch_start_time: None,
        start_centroid: None,
        latest_centroid: None,
    }
}

/// Whether `count` touching fingers make a click under `config`.
pub open spec fn matches_required_fingers(config: Config, count: nat) -> bool {
    if config.allow_more_fingers {
        count >= config.fingers
    } else {
        count == config.fingers
    }
}

/// Whether fingers on a device of this kind may make a click: always on a
/// trackpad, on a Magic Mouse only in three-finger mode.
pub open spec fn finger_click_allowed(config: Config, kind: TouchDeviceKind) -> bool {
    kind != TouchDeviceKind::Mouse || config.mouse_click_mode == MouseClickMode::ThreeFinger
}

/// Whether a centre-zone touch makes a click: on a Magic Mouse in centre mode.
pub open spec fn center_click_allowed(config: Config, kind: TouchDeviceKind) -> bool {
    kind == TouchDeviceKind::Mouse && config.mouse_click_mode == MouseClickMode::Center
}

/// Whether taps on this device produce middle clicks.
pub open spec fn tap_gesture_allowed(config: Config, kind: TouchDeviceKind) -> bool {
    config.tap_to_click && finger_click_allowed(config, kind)
}

/// Whether the frame is one finger in the centre zone of a Magic Mouse.
pub open spec fn is_center_touch(kind: TouchDeviceKind, a: TouchAnalysis) -> bool {
    &&& kind == TouchDeviceKind::Mouse
    &&& a.active_count == 1
    &&& a.single_active_position matches Some(p)
    &&& MAGIC_MOUSE_CENTER_MIN_X <= p.x <= MAGIC_MOUSE_CENTER_MAX_X
}

/// Time from `since` to `now`, zero if `now` is earlier.
pub open spec fn elapsed(now: u128, since: u128) -> int {
    if now >= since { now - since } else { 0 }
}

/// The longest tap, in nanoseconds.
pub open spec fn max_tap_nanos(config: Config) -> int {
    config.max_time_delta * NANOS_PER_MILLI
}

/// A tap ending at `now` is suppressed when a physical click was rewritten
/// within the last three quarters of the longest tap.
pub open spec fn synthetic_click_suppressed(s: EngineState, now: u128) -> bool {
    match s.natural_middle_click_last_time {
        None => false,
        Some(t) => elapsed(now, t) <= max_tap_nanos(s.config) * 3 / 4,
    }
}

/// The state after the current touch sequence is abandoned; a pending
/// rewritten release is kept.
pub open spec fn cancelled(s: EngineState) -> EngineState {
    EngineState {
        required_touch_down: false,
        magic_mouse_center_touch_down: false,
        click_rewrite_deadline: None,
        touch_start_time: None,
        start_centroid: None,
        latest_centroid: None,
        ..s
    }
}

/// The state after an ignored application came to the front: the touch
/// sequence and a pending rewritten release are both dropped.
pub open spec fn reset(s: EngineState) -> EngineState {
    EngineState { rewritten_mouse_down_active: false, ..cancelled(s) }
}

/// The state with tap tracking cleared.
pub open spec fn tap_tracking_cleared(s: EngineState) -> EngineState {
    EngineState { touch_start_time: None, start_centroid: None, latest_centroid: None, ..s }
}

/// Whether the tracked tap, ending at `now`, is a valid tap: it began, its
/// centroid was recorded, it was short enough, moved no farther than the largest
/// distance, and no recent physical click suppresses it.
pub open spec fn tap_is_valid(s: EngineState, now: u128) -> bool {
    &&& s.touch_start_time matches Some(start)
    &&& s.start_centroid matches Some(first)
    &&& elapsed(now, start) <= max_tap_nanos(s.config)
    &&& first.distance(
        match s.latest_centroid {
            Some(c) => c,
            None => first,
        },
    ) <= s.config.max_distance_delta
    &&& !synthetic_click_suppressed(s, now)
}

/// The fingers left the surface: the tap ends, valid or not.
pub open spec fn finish_touch_sequence(s: EngineState, now: u128) -> (EngineState, GestureOutcome) {
    if s.touch_start_time is None {
        (EngineState { start_centroid: None, latest_centroid: None, ..s }, GestureOutcome::NoClick)
    } else {
        (
            EngineState {
                touch_start_time: None,
                start_centroid: None,
                latest_centroid: None,
                required_touch_down: false,
                magic_mouse_center_touch_down: false,
                ..s
            },
            if tap_is_valid(s, now) {
                GestureOutcome::EmulateMiddleClick
            } else {
                GestureOutcome::NoClick
            },
        )
    }
}

/// The state after a frame's finger count and centre touch are recorded.
pub open spec fn contacts_recorded(
    s: EngineState,
    now: u128,
    kind: TouchDeviceKind,
    touches: Seq<TouchContact>,
) -> EngineState {
    let a = analysis(touches, s.config.fingers as nat);
    let required = matches_required_fingers(s.config, active_count(touches))
        && finger_click_allowed(s.config, kind);
    EngineState {
        required_touch_down: required,
        magic_mouse_center_touch_down: center_click_allowed(s.config, kind) && is_center_touch(
            kind,
            a,
        ),
        click_rewrite_deadline: if required {
            Some((now + CLICK_REWRITE_GRACE_NANOS) as u128)
        } else {
            s.click_rewrite_deadline
        },
        ..s
    }
}

/// The state after a frame with fingers down extends the tracked tap.
pub open spec fn tap_tracked(
    s: EngineState,
    now: u128,
    touches: Seq<TouchContact>,
) -> EngineState {
    let count = active_count(touches);
    let timed = match s.touch_start_time {
        None => EngineState { touch_start_time: Some(now), ..s },
        Some(start) => if elapsed(now, start) > max_tap_nanos(s.config) {
            EngineState { start_centroid: None, ..s }
        } else {
            s
        },
    };
    if count < s.config.fingers {
        timed
    } else if !matches_required_fingers(s.config, count) {
        EngineState { start_centroid: None, latest_centroid: None, ..timed }
    } else {
        match analysis(touches, s.config.fingers as nat).centroid {
            None => timed,
            Some(c) => EngineState {
                start_centroid: if timed.start_centroid is None {
                    Some(c)
                } else {
                    timed.start_centroid
                },
                latest_centroid: Some(c),
                ..timed
            },
        }
    }
}

/// One touch frame from a device of kind `kind`, observed at `now`.
pub open spec fn touch_frame_transition(
    s: EngineState,
    now: u128,
    kind: TouchDeviceKind,
    touches: Seq<TouchContact>,
) -> (EngineState, GestureOutcome) {
    let s1 = contacts_recorded(s, now, kind, touches);
    if !tap_gesture_allowed(s.config, kind) {
        (tap_tracking_cleared(s1), GestureOutcome::NoClick)
    } else if active_count(touches) == 0 {
        let (s2, outcome) = finish_touch_sequence(s1, now);
        if outcome == GestureOutcome::EmulateMiddleClick {
            (EngineState { click_rewrite_deadline: None, ..s2 }, outcome)
        } else {
            (s2, outcome)
        }
    } else {
        (tap_tracked(s1, now, touches), GestureOutcome::NoClick)
    }
}

/// Whether the rewrite deadline is still running at `now`.
pub open spec fn within_rewrite_grace(s: EngineState, now: u128) -> bool {
    match s.click_rewrite_deadline {
        Some(deadline) => now <= deadline,
        None => false,
    }
}

/// Whether a physical press at `now` is rewritten into a middle press.
pub open spec fn click_eligible(s: EngineState, now: u128) -> bool {
    s.required_touch_down || s.magic_mouse_center_touch_down || within_rewrite_grace(s, now)
}

/// One physical mouse-button event, observed at `now`.
pub open spec fn mouse_event_transition(
    s: EngineState,
    now: u128,
    kind: MouseEventKind,
) -> (EngineState, MouseAction) {
    let checked = if !s.required_touch_down && !s.magic_mouse_center_touch_down
        && s.click_rewrite_deadline is Some && !within_rewrite_grace(s, now) {
        EngineState { click_rewrite_deadline: None, ..s }
    } else {
        s
    };
    if kind.is_down() && click_eligible(s, now) {
        (
            EngineState {
                rewritten_mouse_down_active: true,
                required_touch_down: false,
                magic_mouse_center_touch_down: false,
                click_rewrite_deadline: None,
                natural_middle_click_last_time: Some(now),
                ..s
            },
            MouseAction::RewriteDown,
        )
    } else if !kind.is_down() && s.rewritten_mouse_down_active {
        (EngineState { rewritten_mouse_down_active: false, ..checked }, MouseAction::RewriteUp)
    } else {
        (checked, MouseAction::Pass)
    }
}


/// The gesture engine: a state machine fed with touch frames and physical
/// mouse-button events, timed by its own monotonic clock.
pub struct GestureEngine {
    config: Config,
    required_touch_down: bool,
    magic_mouse_center_touch_down: bool,
    click_rewrite_deadline: Option<u128>,
    rewritten_mouse_down_active: bool,
    natural_middle_click_last_time: Option<u128>,
    touch_start_time: Option<u128>,
    start_centroid: Option<Point>,
    latest_centroid: Option<Point>,
    epoch: Instant,
}

impl View for GestureEngine {
    type V = EngineState;

    closed spec fn view(&self) -> EngineState {
        EngineState {
            config: self.config,
            required_touch_down: self.required_touch_down,
            magic_mouse_center_touch_down: self.magic_mouse_center_touch_down,
            click_rewrite_deadline: self.click_rewrite_deadline,
            rewritten_mouse_down_active: self.rewritten_mouse_down_active,
            natural_middle_click_last_time: self.natural_middle_click_last_time,
            touch_start_time: self.touch_start_time,
            start_centroid: self.start_centroid,
            latest_centroid: self.latest_centroid,
        }
    }
}

impl GestureEngine {
    /// A fresh engine with nothing tracked; its clock starts now.
    pub fn new(config: Config) -> (r: Self)
        ensures
            r@ == initial_state(config),
    {
        GestureEngine {
            config,
            required_touch_down: false,
            magic_mouse_center_touch_down: false,
            click_rewrite_deadline: None,
            rewritten_mouse_down_active: false,
            natural_middle_click_last_time: None,
            touch_start_time: None,
            start_centroid: None,
            latest_centroid: None,
            epoch: instant_now(),
        }
    }

    /// The engine's configuration.
    pub fn config(&self) -> (r: &Config)
        ensures
            *r == self@.config,
    {
        &self.config
    }

    /// Replaces the configuration; everything tracked, a pending rewritten
    /// release included, is kept.
    pub fn update_config(&mut self, config: Config)
        ensures
            final(self)@ == (EngineState { config, ..old(self)@ }),
    {
        self.config = config;
    }

    /// Abandons the current touch sequence; a pending rewritten release is
    /// kept, so the matching button release is still rewritten.
    pub fn cancel_current_touch_sequence(&mut self)
        ensures
            final(self)@ == cancelled(old(self)@),
    {
        self.required_touch_down = false;
        self.magic_mouse_center_touch_down = false;
        self.click_rewrite_deadline = None;
        self.touch_start_time = None;
        self.start_centroid = None;
        self.latest_centroid = None;
    }

    /// Drops the touch sequence and any pending rewritten release, for when
    /// an ignored application is in front.
    pub fn reset_for_ignored_app(&mut self)
        ensures
            final(self)@ == reset(old(self)@),
    {
        self.cancel_current_touch_sequence();
        self.rewritten_mouse_down_active = false;
    }

    /// Feeds one touch frame, timed by the engine's clock.
    pub fn handle_touch_frame(&mut self, source_kind: TouchDeviceKind, touches: &[TouchContact]) -> (r:
        GestureOutcome)
        ensures
            exists|now: u128|
                now <= MAX_CLOCK_NANOS && (final(self)@, r) == touch_frame_transition(
                    old(self)@,
                    now,
                    source_kind,
                    touches@,
                ),
    {
        let now = nanos_since(&self.epoch);
        self.handle_touch_frame_at(now, source_kind, touches)
    }

    /// Feeds one touch frame observed `now` nanoseconds after the engine
    /// was created.
    pub fn handle_touch_frame_at(
        &mut self,
        now: u128,
        source_kind: TouchDeviceKind,
        touches: &[TouchContact],
    ) -> (r: GestureOutcome)
        requires
            now <= MAX_CLOCK_NANOS,
        ensures
            (final(self)@, r) == touch_frame_transition(old(self)@, now, source_kind, touches@),
    {
        let analysis = analyze_touches(touches, self.config.fingers);
        let touch_count = analysis.active_count;
        let matches_required_fingers = self.count_matches_required_fingers(touch_count);
        self.required_touch_down = matches_required_fingers
            && self.finger_click_allowed_for_source(source_kind);
        self.magic_mouse_center_touch_down = self.center_click_allowed_for_source(source_kind)
            && Self::is_magic_mouse_center_touch(source_kind, analysis);
        if self.required_touch_down {
            self.click_rewrite_deadline = Some(now + CLICK_REWRITE_GRACE_NANOS);
        }
        if touch_count == 0 {
            if !self.tap_gesture_allowed_for_source(source_kind) {
                self.clear_tap_tracking();
                return GestureOutcome::NoClick;
            }
            let outcome = self.finish_touch_sequence(now);
            if outcome == GestureOutcome::EmulateMiddleClick {
                self.click_rewrite_deadline = None;
            }
            return outcome;
        }
        if !self.tap_gesture_allowed_for_source(source_kind) {
            self.clear_tap_tracking();
            return GestureOutcome::NoClick;
        }
        match self.touch_start_time {
            None => {
                self.touch_start_time = Some(now);
            },
            Some(start_time) => {
                if Self::elapsed_nanos(now, start_time) > self.max_tap_nanos() {
                    self.start_centroid = None;
                }
            },
        }
        if touch_count < self.config.fingers {
            return GestureOutcome::NoClick;
        }
        if !matches_required_fingers {
            self.start_centroid = None;
            self.latest_centroid = None;
            return GestureOutcome::NoClick;
        }
        match analysis.centroid {
            None => GestureOutcome::NoClick,
            Some(centroid) => {
                if self.start_centroid.is_none() {
                    self.start_centroid = Some(centroid);
                }
                self.latest_centroid = Some(centroid);
                GestureOutcome::NoClick
            },
        }
    }

    /// Decides what to do with a physical mouse-button event, timed by the
    /// engine's clock.
    pub fn handle_mouse_event(&mut self, kind: MouseEventKind) -> (r: MouseAction)
        ensures
            exists|now: u128|
                now <= MAX_CLOCK_NANOS && (final(self)@, r) == mouse_event_transition(
                    old(self)@,
                    now,
                    kind,
                ),
    {
        let now = nanos_since(&self.epoch);
        self.handle_mouse_event_at(now, kind)
    }

    /// Decides what to do with a physical mouse-button event observed `now`
    /// nanoseconds after the engine was created.
    pub fn handle_mouse_event_at(&mut self, now: u128, kind: MouseEventKind) -> (r: MouseAction)
        ensures
            (final(self)@, r) == mouse_event_transition(old(self)@, now, kind),
    {
        let click_eligible = self.required_touch_down || self.magic_mouse_center_touch_down
            || self.has_recent_click_touch(now);
        let is_down = match kind {
            MouseEventKind::LeftDown | MouseEventKind::RightDown => true,
            MouseEventKind::LeftUp | MouseEventKind::RightUp => false,
        };
        if is_down && click_eligible {
            self.rewritten_mouse_down_active = true;
            self.required_touch_down = false;
            self.magic_mouse_center_touch_down = false;
            self.click_rewrite_deadline = None;
            self.natural_middle_click_last_time = Some(now);
            MouseAction::RewriteDown
        } else if !is_down && self.rewritten_mouse_down_active {
            self.rewritten_mouse_down_active = false;
            MouseAction::RewriteUp
        } else {
            MouseAction::Pass
        }
    }

    /// Ends the tracked tap at `now` and says whether it was a valid tap.
    fn finish_touch_sequence(&mut self, now: u128) -> (r: GestureOutcome)
        ensures
            (final(self)@, r) == finish_touch_sequence(old(self)@, now),
            final(self).epoch == old(self).epoch,
    {
        let start_time = match self.touch_start_time {
            None => {
                self.start_centroid = None;
                self.latest_centroid = None;
                return GestureOutcome::NoClick;
            },
            Some(start_time) => start_time,
        };
        let elapsed = Self::elapsed_nanos(now, start_time);
        let start_centroid = self.start_centroid;
        let latest_centroid = self.latest_centroid;
        self.touch_start_time = None;
        self.start_centroid = None;
        self.latest_centroid = None;
        self.required_touch_down = false;
        self.magic_mouse_center_touch_down = false;
        let start_centroid = match start_centroid {
            None => {
                return GestureOutcome::NoClick;
            },
            Some(c) => c,
        };
        let latest_centroid = match latest_centroid {
            Some(c) => c,
            None => start_centroid,
        };
        if elapsed > self.max_tap_nanos() {
            return GestureOutcome::NoClick;
        }
        if start_centroid.delta_to(latest_centroid) > self.config.max_distance_delta {
            return GestureOutcome::NoClick;
        }
        if self.should_suppress_synthetic_click(now) {
            return GestureOutcome::NoClick;
        }
        GestureOutcome::EmulateMiddleClick
    }

    fn count_matches_required_fingers(&self, touch_count: usize) -> (r: bool)
        ensures
            r == matches_required_fingers(self.config, touch_count as nat),
    {
        if self.config.allow_more_fingers {
            touch_count >= self.config.fingers
        } else {
            touch_count == self.config.fingers
        }
    }

    fn finger_click_allowed_for_source(&self, source_kind: TouchDeviceKind) -> (r: bool)
        ensures
            r == finger_click_allowed(self.config, source_kind),
    {
        source_kind != TouchDeviceKind::Mouse || self.config.mouse_click_mode
            == MouseClickMode::ThreeFinger
    }

    fn center_click_allowed_for_source(&self, source_kind: TouchDeviceKind) -> (r: bool)
        ensures
            r == center_click_allowed(self.config, source_kind),
    {
        source_kind == TouchDeviceKind::Mouse && self.config.mouse_click_mode
            == MouseClickMode::Center
    }

    fn tap_gesture_allowed_for_source(&self, source_kind: TouchDeviceKind) -> (r: bool)
        ensures
            r == tap_gesture_allowed(self.config, source_kind),
    {
        self.config.tap_to_click && self.finger_click_allowed_for_source(source_kind)
    }

    fn is_magic_mouse_center_touch(source_kind: TouchDeviceKind, analysis: TouchAnalysis) -> (r:
        bool)
        ensures
            r == is_center_touch(source_kind, analysis),
    {
        source_kind == TouchDeviceKind::Mouse && analysis.active_count == 1 && match analysis.single_active_position {
            Some(position) => MAGIC_MOUSE_CENTER_MIN_X <= position.x && position.x
                <= MAGIC_MOUSE_CENTER_MAX_X,
            None => false,
        }
    }

    fn clear_tap_tracking(&mut self)
        ensures
            final(self)@ == tap_tracking_cleared(old(self)@),
            final(self).epoch == old(self).epoch,
    {
        self.touch_start_time = None;
        self.start_centroid = None;
        self.latest_centroid = None;
    }

    fn should_suppress_synthetic_click(&self, now: u128) -> (r: bool)
        ensures
            r == synthetic_click_suppressed(self@, now),
    {
        match self.natural_middle_click_last_time {
            None => false,
            Some(last_natural_click) => Self::elapsed_nanos(now, last_natural_click)
                <= scale_duration(self.max_tap_nanos(), 3, 4),
        }
    }

    fn has_recent_click_touch(&mut self, now: u128) -> (r: bool)
        ensures
            r == within_rewrite_grace(old(self)@, now),
            final(self)@ == (if old(self)@.click_rewrite_deadline is Some && !r {
                EngineState { click_rewrite_deadline: None, ..old(self)@ }
            } else {
                old(self)@
            }),
            final(self).epoch == old(self).epoch,
    {
        match self.click_rewrite_deadline {
            None => false,
            Some(deadline) => {
                if now <= deadline {
                    true
                } else {
                    self.click_rewrite_deadline = None;
                    false
                }
            },
        }
    }

    /// The longest tap, in nanoseconds.
    fn max_tap_nanos(&self) -> (r: u128)
        ensures
            r == max_tap_nanos(self.config),
    {
        self.config.max_time_delta as u128 * NANOS_PER_MILLI
    }

    fn elapsed_nanos(now: u128, since: u128) -> (r: u128)
        ensures
            r == elapsed(now, since),
    {
        if now >= since {
            now - since
        } else {
            0
        }
    }
}

/// `duration` scaled by `numerator / denominator`, rounded down.
fn scale_duration(duration: u128, numerator: u32, denominator: u32) -> (r: u128)
    requires
        denominator > 0,
        duration <= u64::MAX as u128 * NANOS_PER_MILLI,
    ensures
        r == duration * numerator / denominator as int,
{
    proof {
        assert(duration * numerator <= (u64::MAX as u128 * NANOS_PER_MILLI) * u32::MAX)
            by (nonlinear_arith)
            requires
                duration <= u64::MAX as u128 * NANOS_PER_MILLI,
                numerator <= u32::MAX,
        ;
    }
    duration * numerator as u128 / denominator as u128
}

} // verus!
