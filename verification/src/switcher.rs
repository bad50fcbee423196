//! The switch coordinator: the one owner of the shared state.
//!
//! The three sources (keyboard, focus watcher, control channel) only submit
//! intents. An intent is processed in two halves with the engine invoker in
//! between: [`Switcher::switch_engine`] decides which engine to invoke, the
//! caller invokes it, and [`Switcher::finish_switch`] takes note of how that
//! went. The caller keeps the two halves of one intent together, so that
//! intents are processed one after another.

use crate::engine::{Config, ConfigView, EngineId, Intent, IntentView, intent_view};
use crate::focus::{FocusWatcher, Reading, focus_after, focus_change};
use crate::gesture::{
    GestureDetector, GestureState, KeyboardView, key_intent, keyboard_after, keyboard_consistent,
};
use crate::keys::{Key, KeyEvent};
use crate::pending::{PendingEngine, pending_after_switch};
use vstd::prelude::*;

verus! {

/// The engine-switching tool could not be run, or ran and reported failure.
#[derive(Clone, Copy, Debug, PartialEq, Eq, Structural)]
pub enum InvokeError {
    /// The tool could not be started.
    Unreachable,
    /// The tool ended with this exit code.
    Failed(i32),
}

/// The desktop could not be asked which engine is active.
#[derive(Clone, Copy, Debug, PartialEq, Eq, Structural)]
pub enum QueryError {
    /// The tool could not be started.
    Unreachable,
    /// The tool ended with this exit code.
    Failed(i32),
}

/// What the caller is to do for an intent: invoke the engine, after a delay.
#[derive(Debug, PartialEq, Eq)]
pub struct SwitchRequest {
    /// The engine to switch to.
    pub engine: EngineId,
    /// How long to wait before invoking, in milliseconds, without holding on
    /// to the coordinator meanwhile.
    pub delay_ms: u64,
    /// Whether this brings back a pending engine rather than answering a
    /// toggle or a forced switch.
    pub reconciling: bool,
}

/// A [`SwitchRequest`] with the engine given by its name.
pub struct SwitchRequestView {
    pub engine: Seq<char>,
    pub delay_ms: u64,
    pub reconciling: bool,
}

impl View for SwitchRequest {
    type V = SwitchRequestView;

    open spec fn view(&self) -> SwitchRequestView {
        SwitchRequestView {
            engine: self.engine@,
            delay_ms: self.delay_ms,
            reconciling: self.reconciling,
        }
    }
}

/// How invoking the engine went.
#[derive(Debug, PartialEq, Eq)]
pub struct SwitchOutcome {
    /// The engine that the desktop reported as active just before the switch.
    pub reported: Result<EngineId, QueryError>,
    /// Whether the switch itself succeeded.
    pub applied: Result<(), InvokeError>,
}

/// A [`SwitchOutcome`] without the details of what failed.
pub struct SwitchOutcomeView {
    /// The engine that the desktop reported, if it could be asked.
    pub reported: Option<Seq<char>>,
    /// Whether the switch succeeded.
    pub applied: bool,
}

impl View for SwitchOutcome {
    type V = SwitchOutcomeView;

    open spec fn view(&self) -> SwitchOutcomeView {
        SwitchOutcomeView {
            reported: match self.reported {
                Ok(engine) => Some(engine@),
                Err(_) => None,
            },
            applied: self.applied is Ok,
        }
    }
}

/// The view of an optional request.
pub open spec fn request_view(request: Option<SwitchRequest>) -> Option<SwitchRequestView> {
    match request {
        Some(r) => Some(r@),
        None => None,
    }
}

/// The shared state.
pub struct SwitcherView {
    /// The configuration, fixed at startup.
    pub config: ConfigView,
    /// The engine this system last switched to with success.
    pub current: Seq<char>,
    /// The engine the desktop is believed to have reverted to.
    pub pending: Option<Seq<char>>,
    /// The pressed modifiers and the state of the combo.
    pub keyboard: KeyboardView,
    /// The window that had the focus at the last reading.
    pub focused_window: Option<u32>,
}

/// The state at startup: the primary engine taken as current, nothing
/// pending, no key down, no window seen.
pub open spec fn initial_state(config: ConfigView) -> SwitcherView {
    SwitcherView {
        config,
        current: config.primary_engine,
        pending: None,
        keyboard: KeyboardView { held: Set::empty(), gesture: GestureState::Idle },
        focused_window: None,
    }
}

/// The engine a toggle goes to: the secondary engine from the primary one,
/// the primary engine from any other.
pub open spec fn toggle_target(config: ConfigView, current: Seq<char>) -> Seq<char> {
    if current == config.primary_engine {
        config.secondary_engine
    } else {
        config.primary_engine
    }
}

/// What is to be invoked for `intent`, if anything.
///
/// A toggle and a forced switch always invoke, at once. A reconciliation
/// invokes the pending engine after the configured delay, and nothing if
/// nothing is pending.
pub open spec fn request_for(state: SwitcherView, intent: IntentView) -> Option<SwitchRequestView> {
    match intent {
        IntentView::Toggle => Some(
            SwitchRequestView {
                engine: toggle_target(state.config, state.current),
                delay_ms: 0,
                reconciling: false,
            },
        ),
        IntentView::ForceSwitch(engine) => Some(
            SwitchRequestView { engine, delay_ms: 0, reconciling: false },
        ),
        IntentView::ReconcilePending => match state.pending {
            Some(engine) => Some(
                SwitchRequestView {
                    engine,
                    delay_ms: state.config.reconcile_delay_ms,
                    reconciling: true,
                },
            ),
            None => None,
        },
    }
}

/// The state once the request for an intent has been handed out: whatever was
/// pending is gone, taken by a reconciliation or superseded by a new switch.
pub open spec fn after_request(state: SwitcherView, intent: IntentView) -> SwitcherView {
    SwitcherView { pending: None, ..state }
}

/// The state once the outcome of a request is known.
///
/// A switch that failed changes nothing. One that succeeded makes its engine
/// the current one; a reconciliation then leaves nothing pending, and any
/// other switch leaves pending the engine that the desktop reported, if that
/// is another than the one switched to. If the desktop could not be asked,
/// what is pending stays as it is.
pub open spec fn after_outcome(
    state: SwitcherView,
    request: SwitchRequestView,
    outcome: SwitchOutcomeView,
) -> SwitcherView {
    if !outcome.applied {
        state
    } else {
        SwitcherView {
            current: request.engine,
            pending: if request.reconciling {
                pending_after_switch(request.engine, request.engine)
            } else {
                match outcome.reported {
                    Some(reported) => pending_after_switch(request.engine, reported),
                    None => state.pending,
                }
            },
            ..state
        }
    }
}

/// The intent that a reading of the focused window gives rise to: the primary
/// engine is forced whenever the focus passes to another window.
pub open spec fn focus_intent(state: SwitcherView, reading: Reading) -> Option<IntentView> {
    if focus_change(state.focused_window, reading) is Some {
        Some(IntentView::ForceSwitch(state.config.primary_engine))
    } else {
        None
    }
}

/// The coordinator.
#[derive(Debug)]
pub struct Switcher {
    config: Config,
    current: EngineId,
    pending: PendingEngine,
    detector: GestureDetector,
    focus: FocusWatcher,
}

impl View for Switcher {
    type V = SwitcherView;

    closed spec fn view(&self) -> SwitcherView {
        SwitcherView {
            config: self.config@,
            current: self.current@,
            pending: self.pending@,
            keyboard: self.detector@,
            focused_window: self.focus@,
        }
    }
}

impl Switcher {
    /// Sets up the coordinator and hands out the first intent, which forces
    /// the primary engine so that the desktop starts out in step.
    pub fn new(config: Config) -> (r: (Switcher, Intent))
        ensures
            r.0@ == initial_state(config@),
            r.1@ == IntentView::ForceSwitch(config@.primary_engine),
    {
        let first = Intent::ForceSwitch(config.primary_engine.clone());
        let current = config.primary_engine.clone();
        let switcher = Switcher {
            config,
            current,
            pending: PendingEngine::new(),
            detector: GestureDetector::new(),
            focus: FocusWatcher::new(),
        };
        (switcher, first)
    }

    /// The configuration.
    pub fn config(&self) -> (config: &Config)
        ensures
            config@ == self@.config,
    {
        &self.config
    }

    /// The engine last switched to with success.
    pub fn current_engine(&self) -> (engine: &EngineId)
        ensures
            engine@ == self@.current,
    {
        &self.current
    }

    /// The engine the desktop is believed to have reverted to, if any.
    pub fn pending_engine(&self) -> (engine: Option<&EngineId>)
        ensures
            engine is Some == self@.pending is Some,
            engine matches Some(e) ==> self@.pending == Some(e@),
    {
        self.pending.peek()
    }

    /// The state of the combo.
    pub fn gesture(&self) -> (gesture: GestureState)
        ensures
            gesture == self@.keyboard.gesture,
    {
        self.detector.gesture()
    }

    /// Whether `key` is a tracked modifier key that is down.
    pub fn is_pressed(&self, key: Key) -> (pressed: bool)
        ensures
            pressed == self@.keyboard.held.contains(key),
    {
        self.detector.modifiers().is_pressed(key)
    }

    /// The window that had the focus at the last reading.
    pub fn focused_window(&self) -> (window: Option<u32>)
        ensures
            window == self@.focused_window,
    {
        self.focus.last()
    }

    /// Takes one key event and says which intent, if any, it gives rise to.
    /// Only what the keyboard is known to be doing changes.
    pub fn on_rdev_event(&mut self, event: KeyEvent) -> (intent: Option<Intent>)
        ensures
            final(self)@ == (SwitcherView {
                keyboard: keyboard_after(old(self)@.config, old(self)@.keyboard, event),
                ..old(self)@
            }),
            intent_view(intent) == key_intent(old(self)@.config, old(self)@.keyboard, event),
            keyboard_consistent(old(self)@.config, old(self)@.keyboard) ==> keyboard_consistent(
                final(self)@.config,
                final(self)@.keyboard,
            ),
    {
        self.detector.on_key(&self.config, event)
    }

    /// Takes one reading of the focused window and says which intent, if
    /// any, it gives rise to. Only the remembered window changes.
    pub fn on_focus_reading(&mut self, reading: Reading) -> (intent: Option<Intent>)
        ensures
            final(self)@ == (SwitcherView {
                focused_window: focus_after(old(self)@.focused_window, reading),
                ..old(self)@
            }),
            intent_view(intent) == focus_intent(old(self)@, reading),
    {
        match self.focus.observe(reading) {
            Some(_) => Some(Intent::ForceSwitch(self.config.primary_engine.clone())),
            None => None,
        }
    }

    /// Begins to process `intent`: decides which engine is to be invoked, if
    /// any. After this nothing is pending.
    ///
    /// When a request comes back, the caller invokes the engine and reports
    /// the outcome to [`Switcher::finish_switch`].
    pub fn switch_engine(&mut self, intent: &Intent) -> (request: Option<SwitchRequest>)
        ensures
            request_view(request) == request_for(old(self)@, intent@),
            final(self)@ == after_request(old(self)@, intent@),
    {
        match intent {
            Intent::Toggle => {
                let engine = if self.current.same_as(&self.config.primary_engine) {
                    self.config.secondary_engine.clone()
                } else {
                    self.config.primary_engine.clone()
                };
                self.pending.clear();
                Some(SwitchRequest { engine, delay_ms: 0, reconciling: false })
            },
            Intent::ForceSwitch(engine) => {
                self.pending.clear();
                Some(SwitchRequest { engine: engine.clone(), delay_ms: 0, reconciling: false })
            },
            Intent::ReconcilePending => match self.pending.reconcile() {
                Some(engine) => Some(
                    SwitchRequest {
                        engine,
                        delay_ms: self.config.reconcile_delay_ms,
                        reconciling: true,
                    },
                ),
                None => None,
            },
        }
    }

    /// Takes note of how invoking the engine for `request` went.
    pub fn finish_switch(&mut self, request: &SwitchRequest, outcome: &SwitchOutcome)
        ensures
            final(self)@ == after_outcome(old(self)@, request@, outcome@),
    {
        if outcome.applied.is_ok() {
            self.current = request.engine.clone();
            if request.reconciling {
                self.pending.note_switch_requested(&request.engine, &request.engine);
            } else {
                match &outcome.reported {
                    Ok(reported) => {
                        self.pending.note_switch_requested(&request.engine, reported);
                    },
                    Err(_) => {},
                }
            }
        }
    }
}

} // verus!
