//! Properties of the gesture engine over whole histories of operations.
use vstd::prelude::*;

use crate::clock::MAX_CLOCK_NANOS;
use crate::config::Config;
use crate::gesture::{
    cancelled, center_click_allowed, elapsed, finger_click_allowed, initial_state,
    is_center_touch, matches_required_fingers, max_tap_nanos, mouse_event_transition, reset,
    tap_gesture_allowed, touch_frame_transition, within_rewrite_grace, EngineState,
    GestureOutcome, CLICK_REWRITE_GRACE_NANOS,
};
use crate::gesture_laws::{
    law_rewritten_presses_and_releases_pair, law_touch_frames_keep_pending_release,
};
use crate::input::{MouseAction, MouseEventKind, TouchDeviceKind};
use crate::touch::{active_count, analysis, Point, TouchContact};

verus! {

/// One public operation on a gesture engine, with the clock reading it
/// was made at.
#[allow(inconsistent_fields)]
pub enum EngineEvent {
    Touch { now: u128, kind: TouchDeviceKind, touches: Seq<TouchContact> },
    Mouse { now: u128, kind: MouseEventKind },
    Cancel,
    Reset,
    Configure { config: Config },
}

/// The state after one operation.
pub open spec fn step(s: EngineState, e: EngineEvent) -> EngineState {
    match e {
        EngineEvent::Touch { now, kind, touches } => touch_frame_transition(
            s,
            now,
            kind,
            touches,
        ).0,
        EngineEvent::Mouse { now, kind } => mouse_event_transition(s, now, kind).0,
        EngineEvent::Cancel => cancelled(s),
        EngineEvent::Reset => reset(s),
        EngineEvent::Configure { config } => EngineState { config, ..s },
    }
}

/// The state after a history of operations, oldest first.
pub open spec fn run(s: EngineState, h: Seq<EngineEvent>) -> EngineState
    decreases h.len(),
{
    if h.len() == 0 {
        s
    } else {
        step(run(s, h.drop_last()), h.last())
    }
}

/// The state just before operation `i` of the history.
pub open spec fn before(s: EngineState, h: Seq<EngineEvent>, i: int) -> EngineState {
    run(s, h.take(i))
}

/// What operation `i` answered, when it was a mouse event.
pub open spec fn action_at(s: EngineState, h: Seq<EngineEvent>, i: int) -> Option<MouseAction> {
    match h[i] {
        EngineEvent::Mouse { now, kind } => Some(
            mouse_event_transition(before(s, h, i), now, kind).1,
        ),
        _ => None,
    }
}

/// What operation `i` produced, when it was a touch frame.
pub open spec fn outcome_at(s: EngineState, h: Seq<EngineEvent>, i: int) -> Option<
    GestureOutcome,
> {
    match h[i] {
        EngineEvent::Touch { now, kind, touches } => Some(
            touch_frame_transition(before(s, h, i), now, kind, touches).1,
        ),
        _ => None,
    }
}

/// How many of the first `n` operations answered `a`.
pub open spec fn count_actions(s: EngineState, h: Seq<EngineEvent>, a: MouseAction, n: int) -> nat
    decreases n,
{
    if n <= 0 {
        0
    } else {
        count_actions(s, h, a, n - 1) + if action_at(s, h, n - 1) == Some(a) {
            1nat
        } else {
            0nat
        }
    }
}

/// Among the first `n` operations, a press was rewritten and neither a
/// rewritten release nor a reset came after it.
pub open spec fn release_pending(s: EngineState, h: Seq<EngineEvent>, n: int) -> bool {
    exists|i: int|
        0 <= i < n && action_at(s, h, i) == Some(MouseAction::RewriteDown) && forall|j: int|
            i < j < n ==> action_at(s, h, j) != Some(MouseAction::RewriteUp) && !(
            #[trigger] h[j] is Reset)
}

/// Operation `i` is a touch frame whose touching fingers make a click on
/// its device under the configuration then in force.
pub open spec fn arms_by_fingers(s: EngineState, h: Seq<EngineEvent>, i: int) -> bool {
    h[i] matches EngineEvent::Touch { now, kind, touches } && matches_required_fingers(
        before(s, h, i).config,
        active_count(touches),
    ) && finger_click_allowed(before(s, h, i).config, kind)
}

/// Operation `i` is a touch frame of one finger in the centre zone of a
/// Magic Mouse in centre mode.
pub open spec fn arms_by_center(s: EngineState, h: Seq<EngineEvent>, i: int) -> bool {
    h[i] matches EngineEvent::Touch { now, kind, touches } && center_click_allowed(
        before(s, h, i).config,
        kind,
    ) && is_center_touch(kind, analysis(touches, before(s, h, i).config.fingers as nat))
}

/// Operation `j` ends what a touch frame armed for the next press: another
/// touch frame, a cancel, a reset, or a rewritten press.
pub open spec fn ends_touch_down(s: EngineState, h: Seq<EngineEvent>, j: int) -> bool {
    h[j] is Touch || h[j] is Cancel || h[j] is Reset || action_at(s, h, j) == Some(
        MouseAction::RewriteDown,
    )
}

/// Operation `j` ends the rewrite grace period: a later arming frame, a
/// cancel, a reset, a rewritten press or an emulated tap.
pub open spec fn ends_grace(s: EngineState, h: Seq<EngineEvent>, j: int) -> bool {
    arms_by_fingers(s, h, j) || h[j] is Cancel || h[j] is Reset || action_at(s, h, j) == Some(
        MouseAction::RewriteDown,
    ) || outcome_at(s, h, j) == Some(GestureOutcome::EmulateMiddleClick)
}

/// Operation `i` is a touch frame with fingers down on a device whose taps
/// make clicks: it starts a tap when none is tracked.
pub open spec fn starts_tap(s: EngineState, h: Seq<EngineEvent>, i: int) -> bool {
    h[i] matches EngineEvent::Touch { now, kind, touches } && active_count(touches) > 0
        && tap_gesture_allowed(before(s, h, i).config, kind)
}

/// Operation `m` ends the tracked tap: a cancel, a reset, or a touch frame
/// with no finger down or from a device whose taps make no clicks.
pub open spec fn ends_tap(s: EngineState, h: Seq<EngineEvent>, m: int) -> bool {
    h[m] is Cancel || h[m] is Reset || (h[m] matches EngineEvent::Touch { now, kind, touches } && (
    active_count(touches) == 0 || !tap_gesture_allowed(before(s, h, m).config, kind)))
}

/// Operation `i` is a touch frame of a tap whose touching fingers make a
/// click and have a centroid (they have one whenever a finger is down and
/// at least one finger is configured): its centroid is what a tap's travel
/// is measured by.
pub open spec fn tap_sample(s: EngineState, h: Seq<EngineEvent>, i: int) -> bool {
    h[i] matches EngineEvent::Touch { now, kind, touches } && tap_gesture_allowed(
        before(s, h, i).config,
        kind,
    ) && matches_required_fingers(before(s, h, i).config, active_count(touches)) && centroid_at(
        s,
        h,
        i,
    ) is Some
}

/// The centroid of the required fingers of touch frame `i`.
pub open spec fn centroid_at(s: EngineState, h: Seq<EngineEvent>, i: int) -> Option<Point> {
    match h[i] {
        EngineEvent::Touch { now, kind, touches } => analysis(
            touches,
            before(s, h, i).config.fingers as nat,
        ).centroid,
        _ => None,
    }
}

/// No operation after `j` and before `n` ends the tracked tap.
pub open spec fn tap_open(s: EngineState, h: Seq<EngineEvent>, j: int, n: int) -> bool {
    forall|m: int| j < m < n ==> !#[trigger] ends_tap(s, h, m)
}

/// A tap that operation `j` takes part in begins at `j`: every tap started
/// before `j` was ended before `j`.
pub open spec fn first_of_tap(s: EngineState, h: Seq<EngineEvent>, j: int) -> bool {
    forall|m: int| 0 <= m < j && #[trigger] starts_tap(s, h, m) ==> !tap_open(s, h, m, j)
}

/// The clock reading of the last rewritten press among the first `n`
/// operations, or what the starting state recorded.
pub open spec fn last_rewritten_press(s: EngineState, h: Seq<EngineEvent>, n: int) -> Option<u128>
    decreases n,
{
    if n <= 0 {
        s.natural_middle_click_last_time
    } else if action_at(s, h, n - 1) == Some(MouseAction::RewriteDown) {
        match h[n - 1] {
            EngineEvent::Mouse { now, kind } => Some(now),
            _ => None,
        }
    } else {
        last_rewritten_press(s, h, n - 1)
    }
}

/// The clock reading an operation was made at, if it carries one.
pub open spec fn reading(e: EngineEvent) -> Option<u128> {
    match e {
        EngineEvent::Touch { now, kind, touches } => Some(now),
        EngineEvent::Mouse { now, kind } => Some(now),
        _ => None,
    }
}

/// Every reading of the history is in the range of the engine's clock.
pub open spec fn clock_in_range(h: Seq<EngineEvent>) -> bool {
    forall|i: int|
        0 <= i < h.len() ==> (reading(#[trigger] h[i]) matches Some(t) ==> t <= MAX_CLOCK_NANOS)
}

/// An operation installs no configuration, or one of at least one finger.
pub open spec fn configures_fingers(e: EngineEvent) -> bool {
    e matches EngineEvent::Configure { config } ==> config.fingers > 0
}

/// The starting configuration and every configuration installed later ask
/// for at least one finger, as `Config::from_raw_parts` makes them.
pub open spec fn configs_have_fingers(config: Config, h: Seq<EngineEvent>) -> bool {
    config.fingers > 0 && forall|i: int| 0 <= i < h.len() ==> configures_fingers(#[trigger] h[i])
}

/// A frame among the first `n` operations armed a click with fingers, and
/// neither another touch frame, a cancel, a reset nor a rewritten press
/// came after it.
pub open spec fn fingers_armed(s: EngineState, h: Seq<EngineEvent>, n: int) -> bool {
    exists|j: int|
        0 <= j < n && #[trigger] arms_by_fingers(s, h, j) && forall|m: int|
            j < m < n ==> !#[trigger] ends_touch_down(s, h, m)
}

/// A centre-zone frame among the first `n` operations armed a click, and
/// neither another touch frame, a cancel, a reset nor a rewritten press
/// came after it.
pub open spec fn center_armed(s: EngineState, h: Seq<EngineEvent>, n: int) -> bool {
    exists|j: int|
        0 <= j < n && #[trigger] arms_by_center(s, h, j) && forall|m: int|
            j < m < n ==> !#[trigger] ends_touch_down(s, h, m)
}

/// Operation `m` is a mouse event read after the grace period that frame
/// `j` started had run out, at a time when no click was armed by touch.
pub open spec fn grace_lapsed_at(s: EngineState, h: Seq<EngineEvent>, j: int, m: int) -> bool {
    &&& h[m] is Mouse
    &&& reading(h[m]).unwrap() > reading(h[j]).unwrap() + CLICK_REWRITE_GRACE_NANOS
    &&& !fingers_armed(s, h, m)
    &&& !center_armed(s, h, m)
}

/// The grace period that frame `j` started still runs before operation
/// `n`: no later arming frame, cancel, reset, rewritten press or emulated
/// tap came after `j`, and no mouse event found the period run out.
pub open spec fn grace_kept(s: EngineState, h: Seq<EngineEvent>, j: int, n: int) -> bool {
    forall|m: int| j < m < n ==> !#[trigger] ends_grace(s, h, m) && !grace_lapsed_at(s, h, j, m)
}

/// A frame among the first `n` operations armed a click with fingers no
/// more than the grace period before `t`, and its grace period still runs.
pub open spec fn grace_armed(s: EngineState, h: Seq<EngineEvent>, n: int, t: u128) -> bool {
    exists|j: int|
        0 <= j < n && #[trigger] arms_by_fingers(s, h, j) && t <= reading(h[j]).unwrap()
            + CLICK_REWRITE_GRACE_NANOS && grace_kept(s, h, j, n)
}

proof fn lemma_run_step(s: EngineState, h: Seq<EngineEvent>, n: int)
    requires
        0 <= n < h.len(),
    ensures
        before(s, h, n + 1) == step(before(s, h, n), h[n]),
{
    assert(h.take(n + 1).drop_last() =~= h.take(n));
    assert(h.take(n + 1).last() == h[n]);
}

proof fn lemma_run_whole(s: EngineState, h: Seq<EngineEvent>)
    ensures
        before(s, h, h.len() as int) == run(s, h),
{
    assert(h.take(h.len() as int) =~= h);
}

proof fn lemma_pending_step(s: EngineState, h: Seq<EngineEvent>, k: int)
    requires
        0 <= k < h.len(),
    ensures
        before(s, h, k + 1).rewritten_mouse_down_active == if action_at(s, h, k) == Some(
            MouseAction::RewriteDown,
        ) {
            true
        } else if action_at(s, h, k) == Some(MouseAction::RewriteUp) || h[k] is Reset {
            false
        } else {
            before(s, h, k).rewritten_mouse_down_active
        },
        action_at(s, h, k) == Some(MouseAction::RewriteUp) ==> before(
            s,
            h,
            k,
        ).rewritten_mouse_down_active,
{
    lemma_run_step(s, h, k);
    let prev = before(s, h, k);
    match h[k] {
        EngineEvent::Mouse { now, kind } => {
            law_rewritten_presses_and_releases_pair(prev, now, kind);
        },
        EngineEvent::Touch { now, kind, touches } => {
            law_touch_frames_keep_pending_release(prev, now, kind, touches);
        },
        _ => {},
    }
}

proof fn lemma_pending_iff(s: EngineState, h: Seq<EngineEvent>, n: int)
    requires
        0 <= n <= h.len(),
        !s.rewritten_mouse_down_active,
    ensures
        before(s, h, n).rewritten_mouse_down_active <==> release_pending(s, h, n),
    decreases n,
{
    if n == 0 {
        assert(h.take(0) =~= Seq::<EngineEvent>::empty());
    } else {
        let k = n - 1;
        lemma_pending_iff(s, h, k);
        lemma_pending_step(s, h, k);
        if action_at(s, h, k) == Some(MouseAction::RewriteDown) {
            assert(release_pending(s, h, n));
        } else if before(s, h, n).rewritten_mouse_down_active {
            let i = choose|i: int|
                0 <= i < k && action_at(s, h, i) == Some(MouseAction::RewriteDown) && forall|
                    j: int,
                | i < j < k ==> action_at(s, h, j) != Some(MouseAction::RewriteUp) && !(
                #[trigger] h[j] is Reset);
            assert forall|j: int| i < j < n implies action_at(s, h, j) != Some(
                MouseAction::RewriteUp,
            ) && !(#[trigger] h[j] is Reset) by {
                if j < k {
                } else {
                    assert(j == k);
                }
            }
            assert(release_pending(s, h, n));
        } else if release_pending(s, h, n) {
            let i = choose|i: int|
                0 <= i < n && action_at(s, h, i) == Some(MouseAction::RewriteDown) && forall|
                    j: int,
                | i < j < n ==> action_at(s, h, j) != Some(MouseAction::RewriteUp) && !(
                #[trigger] h[j] is Reset);
            assert(i < k);
            assert(action_at(s, h, k) != Some(MouseAction::RewriteUp) && !(h[k] is Reset));
            assert forall|j: int| i < j < k implies action_at(s, h, j) != Some(
                MouseAction::RewriteUp,
            ) && !(#[trigger] h[j] is Reset) by {}
            assert(release_pending(s, h, k));
            assert(false);
        }
    }
}

proof fn lemma_release_count(s: EngineState, h: Seq<EngineEvent>, n: int)
    requires
        0 <= n <= h.len(),
        !s.rewritten_mouse_down_active,
    ensures
        count_actions(s, h, MouseAction::RewriteUp, n) + (if before(
            s,
            h,
            n,
        ).rewritten_mouse_down_active {
            1nat
        } else {
            0nat
        }) <= count_actions(s, h, MouseAction::RewriteDown, n),
    decreases n,
{
    if n == 0 {
        assert(h.take(0) =~= Seq::<EngineEvent>::empty());
    } else {
        let k = n - 1;
        lemma_release_count(s, h, k);
        lemma_pending_step(s, h, k);
    }
}

proof fn lemma_config_fingers(config: Config, h: Seq<EngineEvent>, n: int)
    requires
        configs_have_fingers(config, h),
        0 <= n <= h.len(),
    ensures
        before(initial_state(config), h, n).config.fingers > 0,
    decreases n,
{
    let s = initial_state(config);
    if n == 0 {
        assert(h.take(0) =~= Seq::<EngineEvent>::empty());
    } else {
        let k = n - 1;
        lemma_config_fingers(config, h, k);
        lemma_run_step(s, h, k);
        assert(configures_fingers(h[k]));
        match h[k] {
            EngineEvent::Mouse { now, kind } => {
                law_rewritten_presses_and_releases_pair(before(s, h, k), now, kind);
            },
            EngineEvent::Touch { now, kind, touches } => {
                law_touch_frames_keep_pending_release(before(s, h, k), now, kind, touches);
            },
            _ => {},
        }
    }
}

proof fn lemma_armed_step(s: EngineState, h: Seq<EngineEvent>, k: int)
    requires
        0 <= k < h.len(),
        before(s, h, k).config.fingers > 0,
    ensures
        before(s, h, k + 1).required_touch_down == if h[k] is Touch {
            arms_by_fingers(s, h, k)
        } else if ends_touch_down(s, h, k) {
            false
        } else {
            before(s, h, k).required_touch_down
        },
        before(s, h, k + 1).magic_mouse_center_touch_down == if h[k] is Touch {
            arms_by_center(s, h, k)
        } else if ends_touch_down(s, h, k) {
            false
        } else {
            before(s, h, k).magic_mouse_center_touch_down
        },
{
    lemma_run_step(s, h, k);
}

proof fn lemma_armed(config: Config, h: Seq<EngineEvent>, n: int)
    requires
        configs_have_fingers(config, h),
        0 <= n <= h.len(),
    ensures
        before(initial_state(config), h, n).required_touch_down <==> fingers_armed(
            initial_state(config),
            h,
            n,
        ),
        before(initial_state(config), h, n).magic_mouse_center_touch_down <==> center_armed(
            initial_state(config),
            h,
            n,
        ),
    decreases n,
{
    let s = initial_state(config);
    if n == 0 {
        assert(h.take(0) =~= Seq::<EngineEvent>::empty());
    } else {
        let k = n - 1;
        lemma_armed(config, h, k);
        lemma_config_fingers(config, h, k);
        lemma_armed_step(s, h, k);
        if fingers_armed(s, h, n) {
            let j = choose|j: int|
                0 <= j < n && #[trigger] arms_by_fingers(s, h, j) && forall|m: int|
                    j < m < n ==> !#[trigger] ends_touch_down(s, h, m);
            if j < k {
                assert(!ends_touch_down(s, h, k));
                assert(fingers_armed(s, h, k));
            }
        } else if before(s, h, n).required_touch_down {
            if h[k] is Touch {
                assert(forall|m: int| k < m < n ==> !#[trigger] ends_touch_down(s, h, m));
                assert(arms_by_fingers(s, h, k));
            } else {
                let j = choose|j: int|
                    0 <= j < k && #[trigger] arms_by_fingers(s, h, j) && forall|m: int|
                        j < m < k ==> !#[trigger] ends_touch_down(s, h, m);
                assert forall|m: int| j < m < n implies !#[trigger] ends_touch_down(s, h, m) by {
                    if m == k {
                    }
                }
            }
        }
        if center_armed(s, h, n) {
            let j = choose|j: int|
                0 <= j < n && #[trigger] arms_by_center(s, h, j) && forall|m: int|
                    j < m < n ==> !#[trigger] ends_touch_down(s, h, m);
            if j < k {
                assert(!ends_touch_down(s, h, k));
                assert(center_armed(s, h, k));
            }
        } else if before(s, h, n).magic_mouse_center_touch_down {
            if h[k] is Touch {
                assert(forall|m: int| k < m < n ==> !#[trigger] ends_touch_down(s, h, m));
                assert(arms_by_center(s, h, k));
            } else {
                let j = choose|j: int|
                    0 <= j < k && #[trigger] arms_by_center(s, h, j) && forall|m: int|
                        j < m < k ==> !#[trigger] ends_touch_down(s, h, m);
                assert forall|m: int| j < m < n implies !#[trigger] ends_touch_down(s, h, m) by {
                    if m == k {
                    }
                }
            }
        }
    }
}

proof fn lemma_grace_step(s: EngineState, h: Seq<EngineEvent>, k: int)
    requires
        0 <= k < h.len(),
        reading(h[k]) matches Some(t) ==> t <= MAX_CLOCK_NANOS,
        before(s, h, k).config.fingers > 0,
    ensures
        ({
            let prev = before(s, h, k);
            let next = before(s, h, k + 1);
            let lapse = h[k] is Mouse && !prev.required_touch_down
                && !prev.magic_mouse_center_touch_down && prev.click_rewrite_deadline is Some
                && !within_rewrite_grace(prev, reading(h[k]).unwrap());
            &&& arms_by_fingers(s, h, k) ==> next.click_rewrite_deadline == Some(
                (reading(h[k]).unwrap() + CLICK_REWRITE_GRACE_NANOS) as u128,
            )
            &&& !arms_by_fingers(s, h, k) && ends_grace(s, h, k)
                ==> next.click_rewrite_deadline is None
            &&& !ends_grace(s, h, k) && lapse ==> next.click_rewrite_deadline is None
            &&& !ends_grace(s, h, k) && !lapse ==> next.click_rewrite_deadline
                == prev.click_rewrite_deadline
        }),
{
    lemma_run_step(s, h, k);
}

proof fn lemma_deadline(config: Config, h: Seq<EngineEvent>, n: int)
    requires
        configs_have_fingers(config, h),
        clock_in_range(h),
        0 <= n <= h.len(),
    ensures
        before(initial_state(config), h, n).click_rewrite_deadline matches Some(d) ==> exists|
            j: int,
        |
            0 <= j < n && #[trigger] arms_by_fingers(initial_state(config), h, j) && d == reading(
                h[j],
            ).unwrap() + CLICK_REWRITE_GRACE_NANOS && grace_kept(initial_state(config), h, j, n),
        forall|j: int|
            0 <= j < n && #[trigger] arms_by_fingers(initial_state(config), h, j) && grace_kept(
                initial_state(config),
                h,
                j,
                n,
            ) ==> before(initial_state(config), h, n).click_rewrite_deadline == Some(
                (reading(h[j]).unwrap() + CLICK_REWRITE_GRACE_NANOS) as u128,
            ),
    decreases n,
{
    let s = initial_state(config);
    if n == 0 {
        assert(h.take(0) =~= Seq::<EngineEvent>::empty());
    } else {
        let k = n - 1;
        lemma_deadline(config, h, k);
        lemma_config_fingers(config, h, k);
        lemma_armed(config, h, k);
        assert(reading(h[k]) matches Some(r) ==> r <= MAX_CLOCK_NANOS);
        lemma_grace_step(s, h, k);
        let prev = before(s, h, k);
        let next = before(s, h, n);
        if let Some(d) = next.click_rewrite_deadline {
            if arms_by_fingers(s, h, k) {
                assert(grace_kept(s, h, k, n));
            } else {
                assert(!ends_grace(s, h, k));
                assert(prev.click_rewrite_deadline == Some(d));
                let j = choose|j: int|
                    0 <= j < k && #[trigger] arms_by_fingers(s, h, j) && d == reading(
                        h[j],
                    ).unwrap() + CLICK_REWRITE_GRACE_NANOS && grace_kept(s, h, j, k);
                assert(grace_kept(s, h, j, k));
                assert(!grace_lapsed_at(s, h, j, k));
                assert forall|m: int| j < m < n implies !#[trigger] ends_grace(s, h, m)
                    && !grace_lapsed_at(s, h, j, m) by {
                    if m < k {
                        assert(!ends_grace(s, h, m) && !grace_lapsed_at(s, h, j, m));
                    }
                }
            }
        }
        assert forall|j: int|
            0 <= j < n && #[trigger] arms_by_fingers(s, h, j) && grace_kept(
                s,
                h,
                j,
                n,
            ) implies next.click_rewrite_deadline == Some(
            (reading(h[j]).unwrap() + CLICK_REWRITE_GRACE_NANOS) as u128,
        ) by {
            if j < k {
                assert(!ends_grace(s, h, k) && !grace_lapsed_at(s, h, j, k));
                assert(grace_kept(s, h, j, k));
            }
        }
    }
}

proof fn lemma_tap_step(s: EngineState, h: Seq<EngineEvent>, k: int)
    requires
        0 <= k < h.len(),
    ensures
        ({
            let prev = before(s, h, k);
            let next = before(s, h, k + 1);
            &&& ends_tap(s, h, k) ==> next.touch_start_time is None && next.start_centroid is None
                && next.latest_centroid is None
            &&& starts_tap(s, h, k) ==> next.touch_start_time == if prev.touch_start_time is None {
                reading(h[k])
            } else {
                prev.touch_start_time
            }
            &&& !ends_tap(s, h, k) && !starts_tap(s, h, k) ==> next.touch_start_time
                == prev.touch_start_time && next.start_centroid == prev.start_centroid
                && next.latest_centroid == prev.latest_centroid
            &&& starts_tap(s, h, k) && tap_sample(s, h, k) ==> centroid_at(s, h, k) is Some
                && next.latest_centroid == centroid_at(s, h, k) && (next.start_centroid
                == centroid_at(s, h, k) || next.start_centroid == prev.start_centroid)
            &&& starts_tap(s, h, k) && !tap_sample(s, h, k) ==> (next.start_centroid is None
                && next.latest_centroid is None) || (next.latest_centroid == prev.latest_centroid
                && (next.start_centroid is None || next.start_centroid == prev.start_centroid))
            &&& next.natural_middle_click_last_time == if action_at(s, h, k) == Some(
                MouseAction::RewriteDown,
            ) {
                reading(h[k])
            } else {
                prev.natural_middle_click_last_time
            }
        }),
{
    lemma_run_step(s, h, k);
}

proof fn lemma_tap_start(config: Config, h: Seq<EngineEvent>, n: int)
    requires
        0 <= n <= h.len(),
    ensures
        before(initial_state(config), h, n).touch_start_time is None ==> forall|m: int|
            0 <= m < n && #[trigger] starts_tap(initial_state(config), h, m) ==> !tap_open(
                initial_state(config),
                h,
                m,
                n,
            ),
        before(initial_state(config), h, n).touch_start_time is Some ==> exists|j: int|
            0 <= j < n && #[trigger] starts_tap(initial_state(config), h, j) && reading(h[j])
                == before(initial_state(config), h, n).touch_start_time && tap_open(
                initial_state(config),
                h,
                j,
                n,
            ) && first_of_tap(initial_state(config), h, j),
    decreases n,
{
    let s = initial_state(config);
    if n == 0 {
        assert(h.take(0) =~= Seq::<EngineEvent>::empty());
    } else {
        let k = n - 1;
        lemma_tap_start(config, h, k);
        lemma_tap_step(s, h, k);
        let prev = before(s, h, k);
        let next = before(s, h, n);
        if next.touch_start_time is None {
            assert forall|m: int| 0 <= m < n && #[trigger] starts_tap(s, h, m) implies !tap_open(
                s,
                h,
                m,
                n,
            ) by {
                if tap_open(s, h, m, n) {
                    if m < k {
                        assert(!ends_tap(s, h, k));
                        assert(tap_open(s, h, m, k));
                    }
                }
            }
        } else {
            if starts_tap(s, h, k) && prev.touch_start_time is None {
                assert(first_of_tap(s, h, k));
                assert(tap_open(s, h, k, n));
            } else {
                let j = choose|j: int|
                    0 <= j < k && #[trigger] starts_tap(s, h, j) && reading(h[j])
                        == prev.touch_start_time && tap_open(s, h, j, k) && first_of_tap(s, h, j);
                assert(!ends_tap(s, h, k));
                assert(tap_open(s, h, j, n));
            }
        }
    }
}

/// A tap sample among the first `n` operations, still in the open tap,
/// had centroid `c`.
pub open spec fn sampled_in_tap(s: EngineState, h: Seq<EngineEvent>, n: int, c: Point) -> bool {
    exists|j: int|
        0 <= j < n && #[trigger] tap_sample(s, h, j) && centroid_at(s, h, j) == Some(c)
            && tap_open(s, h, j, n)
}

/// The last tap sample among the first `n` operations, still in the open
/// tap, had centroid `c`.
pub open spec fn last_sampled_in_tap(s: EngineState, h: Seq<EngineEvent>, n: int, c: Point) -> bool {
    exists|j: int|
        0 <= j < n && #[trigger] tap_sample(s, h, j) && centroid_at(s, h, j) == Some(c)
            && tap_open(s, h, j, n) && forall|m: int| j < m < n ==> !#[trigger] tap_sample(s, h, m)
}

proof fn lemma_tap_centroids(config: Config, h: Seq<EngineEvent>, n: int)
    requires
        0 <= n <= h.len(),
    ensures
        before(initial_state(config), h, n).start_centroid matches Some(c) ==> sampled_in_tap(
            initial_state(config),
            h,
            n,
            c,
        ),
        before(initial_state(config), h, n).latest_centroid matches Some(c) ==> last_sampled_in_tap(
            initial_state(config),
            h,
            n,
            c,
        ),
        before(initial_state(config), h, n).start_centroid is Some ==> before(
            initial_state(config),
            h,
            n,
        ).latest_centroid is Some,
    decreases n,
{
    let s = initial_state(config);
    if n == 0 {
        assert(h.take(0) =~= Seq::<EngineEvent>::empty());
    } else {
        let k = n - 1;
        lemma_tap_centroids(config, h, k);
        lemma_tap_step(s, h, k);
        let prev = before(s, h, k);
        let next = before(s, h, n);
        if let Some(c) = next.start_centroid {
            if starts_tap(s, h, k) && tap_sample(s, h, k) && next.start_centroid == centroid_at(
                s,
                h,
                k,
            ) {
                assert(tap_open(s, h, k, n));
                assert(sampled_in_tap(s, h, n, c));
            } else {
                assert(prev.start_centroid == Some(c));
                let j = choose|j: int|
                    0 <= j < k && #[trigger] tap_sample(s, h, j) && centroid_at(s, h, j) == Some(c)
                        && tap_open(s, h, j, k);
                assert(!ends_tap(s, h, k));
                assert(tap_open(s, h, j, n));
                assert(sampled_in_tap(s, h, n, c));
            }
        }
        if let Some(c) = next.latest_centroid {
            if starts_tap(s, h, k) && tap_sample(s, h, k) {
                assert(tap_open(s, h, k, n));
                assert(last_sampled_in_tap(s, h, n, c));
            } else {
                assert(prev.latest_centroid == Some(c));
                let j = choose|j: int|
                    0 <= j < k && #[trigger] tap_sample(s, h, j) && centroid_at(s, h, j) == Some(c)
                        && tap_open(s, h, j, k) && forall|m: int|
                        j < m < k ==> !#[trigger] tap_sample(s, h, m);
                assert(!ends_tap(s, h, k));
                assert(!tap_sample(s, h, k));
                assert(tap_open(s, h, j, n));
                assert(last_sampled_in_tap(s, h, n, c));
            }
        }
    }
}

proof fn lemma_last_press_recorded(s: EngineState, h: Seq<EngineEvent>, n: int)
    requires
        0 <= n <= h.len(),
    ensures
        before(s, h, n).natural_middle_click_last_time == last_rewritten_press(s, h, n),
    decreases n,
{
    if n == 0 {
        assert(h.take(0) =~= Seq::<EngineEvent>::empty());
    } else {
        let k = n - 1;
        lemma_last_press_recorded(s, h, k);
        lemma_tap_step(s, h, k);
    }
}

/// Over any history from a fresh engine, a press awaits its rewritten
/// release exactly when a press was rewritten and neither a rewritten
/// release nor a reset came after it; and rewritten releases never
/// outnumber rewritten presses.
pub proof fn law_rewritten_releases_pair_over_history(config: Config, h: Seq<EngineEvent>)
    ensures
        run(initial_state(config), h).rewritten_mouse_down_active <==> release_pending(
            initial_state(config),
            h,
            h.len() as int,
        ),
        count_actions(initial_state(config), h, MouseAction::RewriteUp, h.len() as int)
            <= count_actions(initial_state(config), h, MouseAction::RewriteDown, h.len() as int),
{
    lemma_pending_iff(initial_state(config), h, h.len() as int);
    lemma_release_count(initial_state(config), h, h.len() as int);
    lemma_run_whole(initial_state(config), h);
}

/// Over any history from a fresh engine, a physical release is rewritten
/// exactly when a press was rewritten and neither a rewritten release nor a
/// reset came after it; any other release passes through unchanged.
pub proof fn law_release_rewritten_over_history(
    config: Config,
    h: Seq<EngineEvent>,
    n: int,
    now: u128,
    kind: MouseEventKind,
)
    requires
        0 <= n < h.len(),
        h[n] == (EngineEvent::Mouse { now, kind }),
        !kind.is_down(),
    ensures
        action_at(initial_state(config), h, n) == Some(MouseAction::RewriteUp) <==> release_pending(
            initial_state(config),
            h,
            n,
        ),
        action_at(initial_state(config), h, n) == Some(MouseAction::RewriteUp) || action_at(
            initial_state(config),
            h,
            n,
        ) == Some(MouseAction::Pass),
{
    lemma_pending_iff(initial_state(config), h, n);
}

/// Over any history from a fresh engine whose configurations ask for at
/// least one finger, a physical press at `now` is rewritten into a middle
/// press exactly when one of these holds, and passes through unchanged
/// otherwise:
/// - a touch frame armed a click with the required fingers on a device that
///   may click with them, and no touch frame, cancel, reset or rewritten
///   press came after it;
/// - a touch frame of one finger in the centre zone of a Magic Mouse in
///   centre mode armed a click, and nothing of that kind came after it;
/// - a touch frame armed a click with the required fingers no more than the
///   grace period before `now`, no later arming frame, cancel, reset,
///   rewritten press or emulated tap came after it, and no mouse event since
///   was read after the period ran out while nothing else armed a click.
pub proof fn law_press_rewritten_over_history(
    config: Config,
    h: Seq<EngineEvent>,
    n: int,
    now: u128,
    kind: MouseEventKind,
)
    requires
        configs_have_fingers(config, h),
        clock_in_range(h),
        0 <= n < h.len(),
        h[n] == (EngineEvent::Mouse { now, kind }),
        kind.is_down(),
    ensures
        action_at(initial_state(config), h, n) == Some(MouseAction::RewriteDown) <==> (
        fingers_armed(initial_state(config), h, n) || center_armed(initial_state(config), h, n)
            || grace_armed(initial_state(config), h, n, now)),
        action_at(initial_state(config), h, n) == Some(MouseAction::RewriteDown) || action_at(
            initial_state(config),
            h,
            n,
        ) == Some(MouseAction::Pass),
{
    let s = initial_state(config);
    lemma_armed(config, h, n);
    lemma_deadline(config, h, n);
    if let Some(d) = before(s, h, n).click_rewrite_deadline {
        if now <= d {
            let j = choose|j: int|
                0 <= j < n && #[trigger] arms_by_fingers(s, h, j) && d == reading(h[j]).unwrap()
                    + CLICK_REWRITE_GRACE_NANOS && grace_kept(s, h, j, n);
            assert(grace_armed(s, h, n, now));
        }
    }
    if grace_armed(s, h, n, now) {
        let j = choose|j: int|
            0 <= j < n && #[trigger] arms_by_fingers(s, h, j) && now <= reading(h[j]).unwrap()
                + CLICK_REWRITE_GRACE_NANOS && grace_kept(s, h, j, n);
        assert(reading(h[j]) matches Some(r) ==> r <= MAX_CLOCK_NANOS);
    }
}

/// Over any history from a fresh engine, a touch frame at `now` produces
/// an emulated middle click only when all of these hold:
/// - it has no finger down and comes from a device whose taps make clicks;
/// - the tap it ends was started by a frame no longer than the longest tap
///   before `now`, and nothing ended that tap since;
/// - two frames of that tap whose touching fingers make a click, the second
///   being the latest such frame, had centroids no farther apart than the
///   largest distance;
/// - the last rewritten press, if any, lies more than three quarters of the
///   longest tap before `now`.
pub proof fn law_tap_emitted_over_history(
    config: Config,
    h: Seq<EngineEvent>,
    n: int,
    now: u128,
    kind: TouchDeviceKind,
    touches: Seq<TouchContact>,
)
    requires
        0 <= n < h.len(),
        h[n] == (EngineEvent::Touch { now, kind, touches }),
        outcome_at(initial_state(config), h, n) == Some(GestureOutcome::EmulateMiddleClick),
    ensures
        active_count(touches) == 0,
        tap_gesture_allowed(before(initial_state(config), h, n).config, kind),
        exists|j: int|
            0 <= j < n && #[trigger] starts_tap(initial_state(config), h, j) && first_of_tap(
                initial_state(config),
                h,
                j,
            ) && tap_open(initial_state(config), h, j, n) && elapsed(now, reading(h[j]).unwrap())
                <= max_tap_nanos(before(initial_state(config), h, n).config),
        exists|c1: Point, c2: Point|
            #![trigger sampled_in_tap(initial_state(config), h, n, c1), last_sampled_in_tap(initial_state(config), h, n, c2)]
            sampled_in_tap(initial_state(config), h, n, c1) && last_sampled_in_tap(
                initial_state(config),
                h,
                n,
                c2,
            ) && c1.distance(c2) <= before(initial_state(config), h, n).config.max_distance_delta,
        match last_rewritten_press(initial_state(config), h, n) {
            Some(t) => elapsed(now, t) > max_tap_nanos(
                before(initial_state(config), h, n).config,
            ) * 3 / 4,
            None => true,
        },
{
    let s = initial_state(config);
    let prev = before(s, h, n);
    lemma_tap_start(config, h, n);
    lemma_tap_centroids(config, h, n);
    lemma_last_press_recorded(s, h, n);
    let c1 = prev.start_centroid.unwrap();
    let c2 = prev.latest_centroid.unwrap();
    assert(sampled_in_tap(s, h, n, c1) && last_sampled_in_tap(s, h, n, c2));
}

} // verus!
