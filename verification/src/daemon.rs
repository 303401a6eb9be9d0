//! The daemon's event handling: the gesture engine behind the rule that an
//! ignored application in front turns the daemon off.
use vstd::prelude::*;

use crate::clock::MAX_CLOCK_NANOS;
use crate::config::Config;
use crate::gesture::{
    initial_state, mouse_event_transition, reset, touch_frame_transition, EngineState,
    GestureEngine, GestureOutcome,
};
use crate::input::{MouseAction, MouseEventKind, TouchDeviceKind};
use crate::text::str_eq;
use crate::touch::TouchContact;

verus! {

/// The daemon's state as the contracts see it.
pub struct AppState {
    pub engine: EngineState,
    /// Bundle identifier of the frontmost application, when known.
    pub frontmost_bundle: Option<Seq<char>>,
    /// Whether the frontmost application is one the daemon ignores.
    pub frontmost_bundle_ignored: bool,
}

/// Whether `bundle` names an application that `config` ignores.
pub open spec fn bundle_ignored(config: Config, bundle: Option<Seq<char>>) -> bool {
    bundle matches Some(b) && config.ignored_bundles().contains(b)
}

impl AppState {
    /// The ignored flag agrees with the frontmost application and the
    /// configuration.
    pub open spec fn wf(self) -> bool {
        self.frontmost_bundle_ignored == bundle_ignored(self.engine.config, self.frontmost_bundle)
    }
}

/// The daemon's event handling.
pub struct App {
    engine: GestureEngine,
    frontmost_bundle: Option<String>,
    frontmost_bundle_ignored: bool,
}

impl View for App {
    type V = AppState;

    closed spec fn view(&self) -> AppState {
        AppState {
            engine: self.engine@,
            frontmost_bundle: match self.frontmost_bundle {
                Some(b) => Some(b@),
                None => None,
            },
            frontmost_bundle_ignored: self.frontmost_bundle_ignored,
        }
    }
}

impl App {
    /// The daemon before any event: no frontmost application is known.
    pub fn new(config: Config) -> (r: Self)
        ensures
            r@.engine == initial_state(config),
            r@.frontmost_bundle is None,
            !r@.frontmost_bundle_ignored,
            r@.wf(),
    {
        App { engine: GestureEngine::new(config), frontmost_bundle: None, frontmost_bundle_ignored: false }
    }

    /// The configuration in force.
    pub fn config(&self) -> (r: &Config)
        ensures
            *r == self@.engine.config,
    {
        self.engine.config()
    }

    /// Handles a touch frame. While an ignored application is in front the
    /// engine is reset and nothing is emulated; otherwise the engine decides.
    pub fn handle_touch_frame(&mut self, source_kind: TouchDeviceKind, touches: &[TouchContact]) -> (r:
        GestureOutcome)
        requires
            old(self)@.wf(),
        ensures
            final(self)@.wf(),
            final(self)@.frontmost_bundle == old(self)@.frontmost_bundle,
            final(self)@.frontmost_bundle_ignored == old(self)@.frontmost_bundle_ignored,
            old(self)@.frontmost_bundle_ignored ==> r == GestureOutcome::NoClick
                && final(self)@.engine == reset(old(self)@.engine),
            !old(self)@.frontmost_bundle_ignored ==> exists|now: u128|
                now <= MAX_CLOCK_NANOS && (final(self)@.engine, r) == touch_frame_transition(
                    old(self)@.engine,
                    now,
                    source_kind,
                    touches@,
                ),
    {
        if self.frontmost_bundle_ignored {
            self.engine.reset_for_ignored_app();
            return GestureOutcome::NoClick;
        }
        let outcome = self.engine.handle_touch_frame(source_kind, touches);
        proof {
            let now = choose|now: u128|
                now <= MAX_CLOCK_NANOS && (self@.engine, outcome) == touch_frame_transition(
                    old(self)@.engine,
                    now,
                    source_kind,
                    touches@,
                );
            crate::gesture_laws::law_touch_frames_keep_pending_release(
                old(self)@.engine,
                now,
                source_kind,
                touches@,
            );
        }
        outcome
    }

    /// Handles a physical mouse-button event. While an ignored application
    /// is in front the engine is reset and the event passes; otherwise the
    /// engine decides.
    pub fn handle_mouse_event(&mut self, kind: MouseEventKind) -> (r: MouseAction)
        requires
            old(self)@.wf(),
        ensures
            final(self)@.wf(),
            final(self)@.frontmost_bundle == old(self)@.frontmost_bundle,
            final(self)@.frontmost_bundle_ignored == old(self)@.frontmost_bundle_ignored,
            old(self)@.frontmost_bundle_ignored ==> r == MouseAction::Pass && final(self)@.engine
                == reset(old(self)@.engine),
            !old(self)@.frontmost_bundle_ignored ==> exists|now: u128|
                now <= MAX_CLOCK_NANOS && (final(self)@.engine, r) == mouse_event_transition(
                    old(self)@.engine,
                    now,
                    kind,
                ),
    {
        if self.frontmost_bundle_ignored {
            self.engine.reset_for_ignored_app();
            return MouseAction::Pass;
        }
        let action = self.engine.handle_mouse_event(kind);
        proof {
            let now = choose|now: u128|
                now <= MAX_CLOCK_NANOS && (self@.engine, action) == mouse_event_transition(
                    old(self)@.engine,
                    now,
                    kind,
                );
            crate::gesture_laws::law_rewritten_presses_and_releases_pair(
                old(self)@.engine,
                now,
                kind,
            );
        }
        action
    }

    /// Puts a freshly loaded configuration in force and re-decides whether
    /// the frontmost application is ignored under it.
    pub fn reload_config(&mut self, config: Config)
        ensures
            final(self)@.engine == (EngineState { config, ..old(self)@.engine }),
            final(self)@.frontmost_bundle == old(self)@.frontmost_bundle,
            final(self)@.wf(),
    {
        self.engine.update_config(config);
        let ignored = match &self.frontmost_bundle {
            Some(bundle_id) => self.engine.config().is_bundle_ignored(bundle_id.as_str()),
            None => false,
        };
        self.frontmost_bundle_ignored = ignored;
    }

    /// Records a change of the frontmost application and whether the
    /// configuration ignores it; reporting the same application again
    /// changes nothing.
    pub fn update_frontmost_bundle(&mut self, bundle_id: Option<&str>)
        requires
            old(self)@.wf(),
        ensures
            final(self)@.engine == old(self)@.engine,
            final(self)@.frontmost_bundle == match bundle_id {
                Some(b) => Some(b@),
                None => None::<Seq<char>>,
            },
            final(self)@.wf(),
    {
        let same = match (&self.frontmost_bundle, bundle_id) {
            (Some(current), Some(next)) => str_eq(current.as_str(), next),
            (None, None) => true,
            _ => false,
        };
        if same {
            return;
        }
        let ignored = match bundle_id {
            Some(b) => self.engine.config().is_bundle_ignored(b),
            None => false,
        };
        self.frontmost_bundle = match bundle_id {
            Some(b) => Some(b.to_owned()),
            None => None,
        };
        self.frontmost_bundle_ignored = ignored;
    }

    /// Whether the frontmost application is ignored.
    pub fn is_frontmost_bundle_ignored(&self) -> (r: bool)
        ensures
            r == self@.frontmost_bundle_ignored,
    {
        self.frontmost_bundle_ignored
    }
}

} // verus!
