//! Properties of the gesture engine that span several of its operations.
use vstd::prelude::*;

use crate::config::{Config, MouseClickMode};
use crate::gesture::{
    cancelled, elapsed, initial_state, finger_click_allowed, matches_required_fingers, max_tap_nanos,
    mouse_event_transition, reset, touch_frame_transition, EngineState, GestureOutcome,
    CLICK_REWRITE_GRACE_NANOS, MAGIC_MOUSE_CENTER_MAX_X, MAGIC_MOUSE_CENTER_MIN_X,
};
use crate::input::{MouseAction, MouseEventKind, TouchDeviceKind};
use crate::touch::{active_count, analysis, first_touching, sampled, TouchContact};

verus! {

/// The touching contacts of a frame, in frame order.
pub open spec fn touching_contacts(touches: Seq<TouchContact>) -> Seq<TouchContact>
    decreases touches.len(),
{
    if touches.len() == 0 {
        Seq::empty()
    } else if touches[0].touching {
        seq![touches[0]] + touching_contacts(touches.drop_first())
    } else {
        touching_contacts(touches.drop_first())
    }
}

proof fn lemma_touching_contacts_analysis(touches: Seq<TouchContact>, limit: nat)
    ensures
        active_count(touching_contacts(touches)) == active_count(touches),
        sampled(touching_contacts(touches), limit) == sampled(touches, limit),
        first_touching(touching_contacts(touches)) == first_touching(touches),
    decreases touches.len(),
{
    if touches.len() > 0 {
        let rest = touches.drop_first();
        let f = touching_contacts(touches);
        if touches[0].touching {
            assert(f.drop_first() =~= touching_contacts(rest));
            assert(f[0] == touches[0]);
            if limit > 0 {
                lemma_touching_contacts_analysis(rest, (limit - 1) as nat);
            }
            lemma_touching_contacts_analysis(rest, limit);
        } else {
            lemma_touching_contacts_analysis(rest, limit);
        }
    }
}

/// Contacts that hover without touching change nothing: a frame is handled
/// exactly as the same frame with its hovering contacts left out.
pub proof fn law_hovering_contacts_are_ignored(
    s: EngineState,
    now: u128,
    kind: TouchDeviceKind,
    touches: Seq<TouchContact>,
)
    ensures
        touch_frame_transition(s, now, kind, touches) == touch_frame_transition(
            s,
            now,
            kind,
            touching_contacts(touches),
        ),
{
    lemma_touching_contacts_analysis(touches, s.config.fingers as nat);
    assert(analysis(touches, s.config.fingers as nat) == analysis(
        touching_contacts(touches),
        s.config.fingers as nat,
    ));
}

/// Touch frames never change whether a rewritten press awaits its release,
/// nor when the last physical click was rewritten.
pub proof fn law_touch_frames_keep_pending_release(
    s: EngineState,
    now: u128,
    kind: TouchDeviceKind,
    touches: Seq<TouchContact>,
)
    ensures
        touch_frame_transition(s, now, kind, touches).0.rewritten_mouse_down_active
            == s.rewritten_mouse_down_active,
        touch_frame_transition(s, now, kind, touches).0.natural_middle_click_last_time
            == s.natural_middle_click_last_time,
        touch_frame_transition(s, now, kind, touches).0.config == s.config,
{
}

/// Presses and releases pair up: a release is rewritten only when a
/// rewritten press awaits it, and that clears the wait; a rewritten press
/// starts the wait.
pub proof fn law_rewritten_presses_and_releases_pair(
    s: EngineState,
    now: u128,
    kind: MouseEventKind,
)
    ensures
        mouse_event_transition(s, now, kind).1 == MouseAction::RewriteUp ==> (!kind.is_down()
            && s.rewritten_mouse_down_active
            && !mouse_event_transition(s, now, kind).0.rewritten_mouse_down_active),
        mouse_event_transition(s, now, kind).1 == MouseAction::RewriteDown ==> (kind.is_down()
            && mouse_event_transition(s, now, kind).0.rewritten_mouse_down_active),
        !kind.is_down() ==> (mouse_event_transition(s, now, kind).1 == MouseAction::RewriteUp
            <==> s.rewritten_mouse_down_active),
        mouse_event_transition(s, now, kind).0.config == s.config,
{
}

/// Abandoning the touch sequence keeps a pending rewritten release: the
/// next release is rewritten exactly when a rewritten press awaited it, and
/// no press is rewritten until fingers touch again.
pub proof fn law_cancel_keeps_pending_release(s: EngineState, now: u128, kind: MouseEventKind)
    ensures
        mouse_event_transition(cancelled(s), now, kind).1 == (if !kind.is_down()
            && s.rewritten_mouse_down_active {
            MouseAction::RewriteUp
        } else {
            MouseAction::Pass
        }),
{
}

/// Replacing the configuration keeps a pending rewritten release, also when
/// the touch sequence is then abandoned.
pub proof fn law_config_update_keeps_pending_release(
    s: EngineState,
    config: Config,
    now: u128,
    kind: MouseEventKind,
)
    requires
        s.rewritten_mouse_down_active,
        !kind.is_down(),
    ensures
        mouse_event_transition(cancelled(EngineState { config, ..s }), now, kind).1
            == MouseAction::RewriteUp,
{
}

/// After a reset for an ignored application no mouse event is rewritten,
/// neither a press nor the release of an earlier rewritten press.
pub proof fn law_reset_passes_every_mouse_event(s: EngineState, now: u128, kind: MouseEventKind)
    ensures
        mouse_event_transition(reset(s), now, kind).1 == MouseAction::Pass,
{
}

/// A middle click is emulated only when all fingers have left, taps are
/// enabled and the device may click with fingers.
pub proof fn law_emulated_click_needs_enabled_tap(
    s: EngineState,
    now: u128,
    kind: TouchDeviceKind,
    touches: Seq<TouchContact>,
)
    ensures
        touch_frame_transition(s, now, kind, touches).1 == GestureOutcome::EmulateMiddleClick
            ==> {
            &&& active_count(touches) == 0
            &&& s.config.tap_to_click
            &&& finger_click_allowed(s.config, kind)
        },
{
}

/// After an emulated middle click, no physical press is rewritten into a
/// second middle click, whenever it comes.
pub proof fn law_emulated_click_is_not_doubled(
    s: EngineState,
    now: u128,
    kind: TouchDeviceKind,
    touches: Seq<TouchContact>,
    later: u128,
    press: MouseEventKind,
)
    requires
        touch_frame_transition(s, now, kind, touches).1 == GestureOutcome::EmulateMiddleClick,
        press.is_down(),
    ensures
        mouse_event_transition(touch_frame_transition(s, now, kind, touches).0, later, press).1
            == MouseAction::Pass,
{
}

/// A tap that ends within three quarters of the longest tap after a
/// rewritten physical click produces no second middle click.
pub proof fn law_recent_click_suppresses_tap(
    s: EngineState,
    now: u128,
    kind: TouchDeviceKind,
    touches: Seq<TouchContact>,
)
    requires
        s.natural_middle_click_last_time matches Some(t) && elapsed(now, t) <= max_tap_nanos(
            s.config,
        ) * 3 / 4,
    ensures
        touch_frame_transition(s, now, kind, touches).1 == GestureOutcome::NoClick,
{
}

/// A Magic Mouse in disabled mode makes no click: a frame from it leaves no
/// finger or centre touch that a press could be rewritten for, and starts
/// no rewrite grace period.
pub proof fn law_disabled_mouse_never_arms_a_click(
    s: EngineState,
    now: u128,
    touches: Seq<TouchContact>,
)
    requires
        s.config.mouse_click_mode == MouseClickMode::Disabled,
    ensures
        !touch_frame_transition(s, now, TouchDeviceKind::Mouse, touches).0.required_touch_down,
        !touch_frame_transition(
            s,
            now,
            TouchDeviceKind::Mouse,
            touches,
        ).0.magic_mouse_center_touch_down,
        touch_frame_transition(s, now, TouchDeviceKind::Mouse, touches).0.click_rewrite_deadline
            == s.click_rewrite_deadline,
        touch_frame_transition(s, now, TouchDeviceKind::Mouse, touches).1
            == GestureOutcome::NoClick,
{
}

/// A press is rewritten while the required fingers are down and for the
/// grace period after they were last down: once a frame had them down at
/// `down_at`, and a later frame lifted some of them, a press at `press_at`
/// is rewritten exactly when it comes within the grace period.
pub proof fn law_rewrite_grace_period(
    s: EngineState,
    down_at: u128,
    kind: TouchDeviceKind,
    down: Seq<TouchContact>,
    lift_at: u128,
    lifted: Seq<TouchContact>,
    press_at: u128,
    press: MouseEventKind,
)
    requires
        down_at <= u128::MAX - CLICK_REWRITE_GRACE_NANOS,
        touch_frame_transition(s, down_at, kind, down).0.required_touch_down,
        0 < active_count(lifted),
        !matches_required_fingers(s.config, active_count(lifted)),
        kind != TouchDeviceKind::Mouse,
        press.is_down(),
    ensures
        ({
            let after_down = touch_frame_transition(s, down_at, kind, down).0;
            let after_lift = touch_frame_transition(after_down, lift_at, kind, lifted).0;
            mouse_event_transition(after_lift, press_at, press).1 == if press_at <= down_at
                + CLICK_REWRITE_GRACE_NANOS {
                MouseAction::RewriteDown
            } else {
                MouseAction::Pass
            }
        }),
{
}


/// The required fingers down on a device that may click with them arm a
/// rewrite: the next physical press, whenever it comes, becomes a middle
/// press.
pub proof fn law_required_fingers_arm_a_rewrite(
    s: EngineState,
    now: u128,
    kind: TouchDeviceKind,
    touches: Seq<TouchContact>,
    later: u128,
    press: MouseEventKind,
)
    requires
        matches_required_fingers(s.config, active_count(touches)),
        active_count(touches) > 0,
        finger_click_allowed(s.config, kind),
        press.is_down(),
    ensures
        mouse_event_transition(touch_frame_transition(s, now, kind, touches).0, later, press).1
            == MouseAction::RewriteDown,
{
}

/// On a Magic Mouse in centre mode, one finger resting in the centre zone
/// arms a rewrite: the next physical press becomes a middle press.
pub proof fn law_center_touch_arms_a_rewrite(
    s: EngineState,
    now: u128,
    touches: Seq<TouchContact>,
    later: u128,
    press: MouseEventKind,
)
    requires
        s.config.mouse_click_mode == MouseClickMode::Center,
        active_count(touches) == 1,
        first_touching(touches) matches Some(t) && MAGIC_MOUSE_CENTER_MIN_X <= t.x
            <= MAGIC_MOUSE_CENTER_MAX_X,
        press.is_down(),
    ensures
        mouse_event_transition(
            touch_frame_transition(s, now, TouchDeviceKind::Mouse, touches).0,
            later,
            press,
        ).1 == MouseAction::RewriteDown,
{
}


/// On a Magic Mouse in centre mode, a frame of one touching finger arms a
/// rewrite exactly when the finger lies in the centre zone: when no grace
/// period still runs at the press, the next press becomes a middle press if
/// `MAGIC_MOUSE_CENTER_MIN_X <= x <= MAGIC_MOUSE_CENTER_MAX_X`, and passes
/// through unchanged when the finger is left or right of the zone, that is
/// left of 0.35 or right of 0.65 of the mouse's width.
pub proof fn law_center_zone_bounds_the_rewrite(
    s: EngineState,
    now: u128,
    touches: Seq<TouchContact>,
    later: u128,
    press: MouseEventKind,
)
    requires
        s.config.mouse_click_mode == MouseClickMode::Center,
        active_count(touches) == 1,
        first_touching(touches) is Some,
        s.click_rewrite_deadline matches Some(d) ==> later > d,
        press.is_down(),
    ensures
        ({
            let x = first_touching(touches).unwrap().x;
            mouse_event_transition(
                touch_frame_transition(s, now, TouchDeviceKind::Mouse, touches).0,
                later,
                press,
            ).1 == if MAGIC_MOUSE_CENTER_MIN_X <= x && x <= MAGIC_MOUSE_CENTER_MAX_X {
                MouseAction::RewriteDown
            } else {
                MouseAction::Pass
            }
        }),
        first_touching(touches).unwrap().x > 650_000 ==> mouse_event_transition(
            touch_frame_transition(s, now, TouchDeviceKind::Mouse, touches).0,
            later,
            press,
        ).1 == MouseAction::Pass,
        first_touching(touches).unwrap().x < 350_000 ==> mouse_event_transition(
            touch_frame_transition(s, now, TouchDeviceKind::Mouse, touches).0,
            later,
            press,
        ).1 == MouseAction::Pass,
{
}

/// Consistency of the engine state: centroids are tracked only within a
/// touch sequence, and while the required fingers are down a rewrite
/// deadline is set.
pub open spec fn tracking_consistent(s: EngineState) -> bool {
    &&& s.touch_start_time is None ==> s.start_centroid is None && s.latest_centroid is None
    &&& s.required_touch_down ==> s.click_rewrite_deadline is Some
}

/// A fresh engine is consistent, and every operation keeps it so.
pub proof fn law_tracking_stays_consistent(
    s: EngineState,
    config: Config,
    now: u128,
    kind: TouchDeviceKind,
    touches: Seq<TouchContact>,
    event: MouseEventKind,
)
    requires
        tracking_consistent(s),
    ensures
        tracking_consistent(initial_state(config)),
        tracking_consistent(touch_frame_transition(s, now, kind, touches).0),
        tracking_consistent(mouse_event_transition(s, now, event).0),
        tracking_consistent(cancelled(s)),
        tracking_consistent(reset(s)),
        tracking_consistent(EngineState { config, ..s }),
{
}

} // verus!
