//! Visibility state machine.
//!
//! The coordinator is the one authority on whether the bar is visible.  It
//! takes the signals of each tick, the focus samples, and the answers to the
//! lookups and queries that the host makes for it, and answers each with the
//! effects that the host has to carry out, in order.  It never waits and
//! never fails: a lookup or query that failed is handed in as `None`.

use vstd::prelude::*;
use crate::commands::{CommandKind, PromptDecision};
use crate::focus::{FocusDetector, FocusState, FocusVerdict};
use crate::locator::{LocatorState, WindowHandle, WindowLocator};
use crate::position::{Position, PositionTracker, TrackerState};
use crate::signals::{ToggleSignal, TrayAction};

verus! {

/// Whether the bar is on screen.
#[derive(Clone, Copy, Debug, PartialEq, Eq, Structural)]
pub enum VisibilityState {
    Visible,
    Hidden,
}

impl VisibilityState {
    /// The other state.
    pub open spec fn flipped(self) -> VisibilityState {
        match self {
            VisibilityState::Visible => VisibilityState::Hidden,
            VisibilityState::Hidden => VisibilityState::Visible,
        }
    }
}

/// Where to put the window when it is shown.
#[derive(Clone, Copy, Debug, PartialEq, Eq, Structural)]
pub enum Placement {
    /// At the remembered position.
    At(Position),
    /// In the middle of the screen, for the size of the settings panel.
    CenteredPanel,
    /// In the middle of the screen, for the configured size of the bar.
    CenteredBar,
}

/// Something the host has to do for the coordinator.
#[derive(Clone, Copy, Debug, PartialEq, Eq, Structural)]
pub enum Effect {
    /// Minimize the window.
    Minimize,
    /// Undo the minimizing.
    Restore,
    /// Move the window through the compositor's `MoveWindow` method, without
    /// waiting for it.
    MoveWindow(Placement),
    /// Move the window to the remembered position through the compositor and
    /// wait until that is done.
    RestorePosition(Position),
    /// Assert the "always on top" hint, by client message too where the
    /// handle is known.
    KeepAbove(Option<WindowHandle>),
    /// Run the activation sequence.
    Activate(Option<WindowHandle>),
    /// Write the position into the persisted geometry fields.
    Persist(Position),
    /// No position is cached: ask the compositor for one and hand the answer
    /// to [`Coordinator::on_fresh_position`].
    QueryFreshPosition,
    /// Remove the endpoint of the inter-process channel.
    RemoveChannel,
    /// Shut the application down in good order.
    Shutdown,
    /// Hand control to the settings panel.
    OpenSettings,
    /// Let the windowing toolkit begin a drag of the window.
    BeginDrag,
}

impl Effect {
    /// Whether the effect writes, or leads to writing, the persisted
    /// position.
    pub open spec fn persists(self) -> bool {
        self is Persist || self is QueryFreshPosition
    }
}

/// The coordinator as contracts see it.
pub struct EngineState {
    pub visibility: VisibilityState,
    /// A quit has been processed; nothing happens after it.
    pub terminated: bool,
    pub locator: LocatorState,
    pub tracker: TrackerState,
    pub focus: FocusState,
    /// The persisted geometry fields, as last read or written.
    pub saved: Option<Position>,
    /// A fresh position has been asked for and not handed in yet.
    pub awaiting_fresh: bool,
    /// The settings panel reports itself open.
    pub settings_open: bool,
    /// A command waits for its parameter.
    pub prompt_pending: bool,
    /// The window has not been moved to its remembered position yet.
    pub initial_move_due: bool,
    /// Configured: hide the bar when it loses focus.
    pub hide_on_inactive: bool,
    /// Configured: keep the bar above other windows.
    pub stay_on_top: bool,
}

/// A state together with the effects that led to it.
pub struct Outcome {
    pub state: EngineState,
    pub effects: Seq<Effect>,
}

impl Outcome {
    /// The outcome of doing nothing.
    pub open spec fn unchanged(state: EngineState) -> Outcome {
        Outcome { state, effects: Seq::empty() }
    }

    /// This outcome, with `earlier` effects before its own.
    pub open spec fn after(self, earlier: Seq<Effect>) -> Outcome {
        Outcome { state: self.state, effects: earlier + self.effects }
    }
}

impl EngineState {
    /// The state at start-up: visible, nothing resolved, nothing cached.
    pub open spec fn initial(saved: Option<Position>, hide_on_inactive: bool, stay_on_top: bool)
        -> EngineState {
        EngineState {
            visibility: VisibilityState::Visible,
            terminated: false,
            locator: LocatorState::initial(),
            tracker: TrackerState::initial(),
            focus: FocusState::initial(),
            saved,
            awaiting_fresh: false,
            settings_open: false,
            prompt_pending: false,
            initial_move_due: saved is Some,
            hide_on_inactive,
            stay_on_top,
        }
    }

    /// Whether something other than a drag forbids hiding on focus loss.
    pub open spec fn hiding_suppressed(self) -> bool {
        !self.hide_on_inactive || self.settings_open || self.prompt_pending
    }

    /// Where the window goes when it is shown: to the middle of the screen
    /// while the settings panel is open, else to the remembered position,
    /// else to the middle of the screen.
    pub open spec fn placement(self) -> Placement {
        if self.settings_open {
            Placement::CenteredPanel
        } else {
            match self.saved {
                Some(position) => Placement::At(position),
                None => Placement::CenteredBar,
            }
        }
    }

    /// Persisting the position, as hiding and quitting do: the cached
    /// position is written where there is one; else a fresh one is asked for,
    /// unless that has been done already.
    pub open spec fn persisted(self) -> Outcome {
        match self.tracker.cached {
            Some(position) => Outcome {
                state: EngineState { saved: Some(position), ..self },
                effects: seq![Effect::Persist(position)],
            },
            None => Outcome {
                state: EngineState { awaiting_fresh: true, ..self },
                effects: if self.awaiting_fresh {
                    Seq::empty()
                } else {
                    seq![Effect::QueryFreshPosition]
                },
            },
        }
    }

    /// Showing the window.
    pub open spec fn shown(self) -> Outcome {
        if self.terminated {
            Outcome::unchanged(self)
        } else {
            let keep_above = if self.stay_on_top {
                seq![Effect::KeepAbove(self.locator.handle)]
            } else {
                Seq::empty()
            };
            Outcome {
                state: EngineState {
                    visibility: VisibilityState::Visible,
                    tracker: self.tracker.shown(),
                    focus: self.focus.shown(),
                    ..self
                },
                effects: seq![Effect::Restore, Effect::MoveWindow(self.placement())] + keep_above
                    + seq![Effect::Activate(self.locator.handle)],
            }
        }
    }

    /// Hiding the window.
    pub open spec fn hidden(self) -> Outcome {
        if self.terminated {
            Outcome::unchanged(self)
        } else {
            let saved = self.persisted();
            Outcome {
                state: EngineState {
                    visibility: VisibilityState::Hidden,
                    focus: self.focus.cleared(),
                    ..saved.state
                },
                effects: saved.effects.push(Effect::Minimize),
            }
        }
    }

    /// Quitting.
    pub open spec fn quit(self) -> Outcome {
        if self.terminated {
            Outcome::unchanged(self)
        } else {
            let saved = self.persisted();
            Outcome {
                state: EngineState { terminated: true, ..saved.state },
                effects: saved.effects + seq![Effect::RemoveChannel, Effect::Shutdown],
            }
        }
    }

    /// Flipping between visible and hidden.
    pub open spec fn toggled(self) -> Outcome {
        match self.visibility {
            VisibilityState::Visible => self.hidden(),
            VisibilityState::Hidden => self.shown(),
        }
    }

    /// Opening the settings panel without touching the window.
    pub open spec fn settings_opened(self) -> Outcome {
        if self.terminated {
            Outcome::unchanged(self)
        } else {
            Outcome {
                state: EngineState { settings_open: true, ..self },
                effects: seq![Effect::OpenSettings],
            }
        }
    }

    /// Taking one signal.
    pub open spec fn signalled(self, signal: ToggleSignal) -> Outcome {
        match signal {
            ToggleSignal::Hotkey => self.toggled(),
            ToggleSignal::PipeSignal => self.toggled(),
            ToggleSignal::TrayAction(TrayAction::ToggleVisibility) => self.toggled(),
            ToggleSignal::TrayAction(TrayAction::OpenSettings) => {
                let shown = self.shown();
                shown.state.settings_opened().after(shown.effects)
            },
            ToggleSignal::TrayAction(TrayAction::Quit) => self.quit(),
            ToggleSignal::TrayAction(TrayAction::Unknown) => Outcome::unchanged(self),
        }
    }

    /// Taking a run of signals, in order.
    pub open spec fn signalled_all(self, signals: Seq<ToggleSignal>) -> Outcome
        decreases signals.len(),
    {
        if signals.len() == 0 {
            Outcome::unchanged(self)
        } else {
            let earlier = self.signalled_all(signals.drop_last());
            earlier.state.signalled(signals.last()).after(earlier.effects)
        }
    }

    /// Taking the focus sample of a tick.
    ///
    /// The first sample with focus moves the window to its remembered
    /// position, once.  The end of a drag activates the window again.  A
    /// loss of focus that the detector reports hides the window.
    pub open spec fn focus_sampled(self, focused: bool) -> Outcome {
        if self.terminated {
            Outcome::unchanged(self)
        } else {
            let moving = self.initial_move_due && focused;
            let move_effects = match self.saved {
                Some(position) => if moving {
                    seq![Effect::RestorePosition(position)]
                } else {
                    Seq::empty()
                },
                None => Seq::empty(),
            };
            let verdict = self.focus.verdict(
                focused,
                self.visibility == VisibilityState::Visible,
                self.hiding_suppressed(),
            );
            let sampled = EngineState {
                initial_move_due: self.initial_move_due && !focused,
                focus: self.focus.observed(focused),
                ..self
            };
            match verdict {
                FocusVerdict::Steady => Outcome { state: sampled, effects: move_effects },
                FocusVerdict::DragEnded => Outcome {
                    state: sampled,
                    effects: move_effects.push(Effect::Activate(self.locator.handle)),
                },
                FocusVerdict::FocusLost => sampled.hidden().after(move_effects),
            }
        }
    }

    /// One whole tick: the signals in order, then the focus sample.
    pub open spec fn ticked(self, signals: Seq<ToggleSignal>, focused: bool) -> Outcome {
        let signalled = self.signalled_all(signals);
        signalled.state.focus_sampled(focused).after(signalled.effects)
    }

    /// Taking the result of one lookup of the window handle.  The lookup
    /// that resolves the handle asserts "always on top" where configured.
    pub open spec fn lookup_recorded(self, found: Option<WindowHandle>) -> Outcome {
        let locator = self.locator.record(found);
        Outcome {
            state: EngineState { locator, ..self },
            effects: if self.locator.handle is None && locator.handle is Some
                && self.stay_on_top {
                seq![Effect::KeepAbove(locator.handle)]
            } else {
                Seq::empty()
            },
        }
    }

    /// Taking the answer to the fresh-position query.  An answer that was not
    /// asked for is dropped.
    pub open spec fn fresh_position(self, reply: Option<Position>) -> Outcome {
        if self.awaiting_fresh {
            match reply {
                Some(position) => Outcome {
                    state: EngineState { saved: Some(position), awaiting_fresh: false, ..self },
                    effects: seq![Effect::Persist(position)],
                },
                None => Outcome::unchanged(EngineState { awaiting_fresh: false, ..self }),
            }
        } else {
            Outcome::unchanged(self)
        }
    }

    /// Taking a command that the user has committed.  A command that needs
    /// a parameter makes the engine wait for it; one that was run hides the
    /// bar.
    pub open spec fn commanded(self, kind: CommandKind) -> Outcome {
        if self.terminated {
            Outcome::unchanged(self)
        } else {
            match kind {
                CommandKind::Nothing => Outcome::unchanged(self),
                CommandKind::OpenSettings => self.settings_opened(),
                CommandKind::Quit => self.quit(),
                CommandKind::Prompt => Outcome::unchanged(
                    EngineState { prompt_pending: true, ..self },
                ),
                CommandKind::Run => self.hidden(),
                CommandKind::Shell => self.hidden(),
            }
        }
    }

    /// Taking what the keys of a tick mean for the parameter prompt.  Where
    /// no parameter is waited for they mean nothing.
    pub open spec fn prompt_decided(self, decision: PromptDecision) -> Outcome {
        if self.terminated || !self.prompt_pending {
            Outcome::unchanged(self)
        } else {
            match decision {
                PromptDecision::Submit => (EngineState { prompt_pending: false, ..self }).hidden(),
                PromptDecision::Cancel => Outcome::unchanged(
                    EngineState { prompt_pending: false, ..self },
                ),
                PromptDecision::Keep => Outcome::unchanged(self),
            }
        }
    }

    /// Beginning a drag of the window.
    pub open spec fn drag_started(self) -> Outcome {
        if self.terminated {
            Outcome::unchanged(self)
        } else {
            Outcome {
                state: EngineState { focus: self.focus.drag_started(), ..self },
                effects: seq![Effect::BeginDrag],
            }
        }
    }
}

/// The window visibility and focus coordination engine.
pub struct Coordinator {
    visibility: VisibilityState,
    terminated: bool,
    locator: WindowLocator,
    tracker: PositionTracker,
    focus: FocusDetector,
    saved: Option<Position>,
    awaiting_fresh: bool,
    settings_open: bool,
    prompt_pending: bool,
    initial_move_due: bool,
    hide_on_inactive: bool,
    stay_on_top: bool,
}

impl View for Coordinator {
    type V = EngineState;

    closed spec fn view(&self) -> EngineState {
        EngineState {
            visibility: self.visibility,
            terminated: self.terminated,
            locator: self.locator@,
            tracker: self.tracker@,
            focus: self.focus@,
            saved: self.saved,
            awaiting_fresh: self.awaiting_fresh,
            settings_open: self.settings_open,
            prompt_pending: self.prompt_pending,
            initial_move_due: self.initial_move_due,
            hide_on_inactive: self.hide_on_inactive,
            stay_on_top: self.stay_on_top,
        }
    }
}

impl Coordinator {
    /// The coordinator of a freshly started application.  `saved` is the
    /// position read from the persisted geometry fields, if both are there.
    pub fn new(saved: Option<Position>, hide_on_inactive: bool, stay_on_top: bool) -> (engine:
        Coordinator)
        ensures
            engine@ == EngineState::initial(saved, hide_on_inactive, stay_on_top),
    {
        Coordinator {
            visibility: VisibilityState::Visible,
            terminated: false,
            locator: WindowLocator::new(),
            tracker: PositionTracker::new(),
            focus: FocusDetector::new(),
            saved,
            awaiting_fresh: false,
            settings_open: false,
            prompt_pending: false,
            initial_move_due: saved.is_some(),
            hide_on_inactive,
            stay_on_top,
        }
    }

    /// Whether the bar is visible.
    pub fn visibility(&self) -> (visibility: VisibilityState)
        ensures
            visibility == self@.visibility,
    {
        self.visibility
    }

    /// Whether a quit has been processed.
    pub fn is_terminated(&self) -> (terminated: bool)
        ensures
            terminated == self@.terminated,
    {
        self.terminated
    }

    /// The window handle, if it has been resolved.
    pub fn handle(&self) -> (handle: Option<WindowHandle>)
        ensures
            handle == self@.locator.handle,
    {
        self.locator.handle()
    }

    /// The cached position.
    pub fn cached(&self) -> (position: Option<Position>)
        ensures
            position == self@.tracker.cached,
    {
        self.tracker.cached()
    }

    /// The persisted position, as last read or written.
    pub fn saved(&self) -> (position: Option<Position>)
        ensures
            position == self@.saved,
    {
        self.saved
    }

    /// Whether a drag of the window is in progress.
    pub fn dragging(&self) -> (dragging: bool)
        ensures
            dragging == self@.focus.dragging,
    {
        self.focus.dragging()
    }

    /// Whether the settings panel counts as open.
    pub fn settings_open(&self) -> (open: bool)
        ensures
            open == self@.settings_open,
    {
        self.settings_open
    }

    /// Whether a command waits for its parameter.
    pub fn prompt_pending(&self) -> (pending: bool)
        ensures
            pending == self@.prompt_pending,
    {
        self.prompt_pending
    }

    /// Whether the host should look the window handle up in this tick.
    pub fn wants_lookup(&self) -> (due: bool)
        ensures
            due == self@.locator.wants_lookup(),
    {
        self.locator.should_attempt()
    }

    /// Whether the host should ask the compositor for the position now.
    /// `elapsed_nanos` is the time since it last did.
    pub fn wants_position_query(&self, elapsed_nanos: u128) -> (due: bool)
        ensures
            due == (!self@.terminated && self@.tracker.wants_query(
                self@.visibility == VisibilityState::Visible,
                elapsed_nanos,
            )),
    {
        !self.terminated && self.tracker.should_query(
            self.visibility == VisibilityState::Visible,
            elapsed_nanos,
        )
    }

    /// Sets what the user has configured.
    pub fn configure(&mut self, hide_on_inactive: bool, stay_on_top: bool)
        ensures
            final(self)@ == (EngineState { hide_on_inactive, stay_on_top, ..old(self)@ }),
    {
        self.hide_on_inactive = hide_on_inactive;
        self.stay_on_top = stay_on_top;
    }

    /// Puts `position` into the cache.
    pub fn note(&mut self, position: Position)
        ensures
            final(self)@ == (EngineState {
                tracker: old(self)@.tracker.noted(position),
                ..old(self)@
            }),
    {
        self.tracker.note(position);
    }

    /// Hands in the answer to a periodic position query.
    pub fn on_position_reply(&mut self, reply: Option<Position>)
        ensures
            final(self)@ == (EngineState {
                tracker: old(self)@.tracker.answered(reply),
                ..old(self)@
            }),
    {
        self.tracker.record_reply(reply);
    }

    /// Hands in the result of one lookup of the window handle.
    pub fn on_lookup_result(&mut self, found: Option<WindowHandle>) -> (effects: Vec<Effect>)
        ensures
            final(self)@ == old(self)@.lookup_recorded(found).state,
            effects@ == old(self)@.lookup_recorded(found).effects,
    {
        let before = self.locator.handle();
        let after = self.locator.locate_self(found);
        let mut effects: Vec<Effect> = Vec::new();
        if before.is_none() && after.is_some() && self.stay_on_top {
            effects.push(Effect::KeepAbove(after));
        }
        effects
    }

    /// Hands in the answer to [`Effect::QueryFreshPosition`].
    pub fn on_fresh_position(&mut self, reply: Option<Position>) -> (effects: Vec<Effect>)
        ensures
            final(self)@ == old(self)@.fresh_position(reply).state,
            effects@ == old(self)@.fresh_position(reply).effects,
    {
        let mut effects: Vec<Effect> = Vec::new();
        if self.awaiting_fresh {
            self.awaiting_fresh = false;
            match reply {
                Some(position) => {
                    self.saved = Some(position);
                    effects.push(Effect::Persist(position));
                },
                None => {},
            }
        }
        effects
    }

    /// Persists the position as hiding and quitting do.
    fn persist(&mut self, effects: &mut Vec<Effect>)
        ensures
            final(self)@ == old(self)@.persisted().state,
            final(effects)@ == old(effects)@ + old(self)@.persisted().effects,
    {
        match self.tracker.cached() {
            Some(position) => {
                self.saved = Some(position);
                effects.push(Effect::Persist(position));
            },
            None => {
                if !self.awaiting_fresh {
                    effects.push(Effect::QueryFreshPosition);
                }
                self.awaiting_fresh = true;
            },
        }
    }

    /// Shows the window: restores it, puts it in place, asserts "always on
    /// top" where configured, and activates it.  Focus tracking starts
    /// afresh, so that the next sample cannot hide the window again.
    pub fn show_window(&mut self) -> (effects: Vec<Effect>)
        ensures
            final(self)@ == old(self)@.shown().state,
            effects@ == old(self)@.shown().effects,
    {
        let mut effects: Vec<Effect> = Vec::new();
        if self.terminated {
            return effects;
        }
        let placement = if self.settings_open {
            Placement::CenteredPanel
        } else {
            match self.saved {
                Some(position) => Placement::At(position),
                None => Placement::CenteredBar,
            }
        };
        let handle = self.locator.handle();
        effects.push(Effect::Restore);
        effects.push(Effect::MoveWindow(placement));
        if self.stay_on_top {
            effects.push(Effect::KeepAbove(handle));
        }
        effects.push(Effect::Activate(handle));
        self.visibility = VisibilityState::Visible;
        self.tracker.mark_shown();
        self.focus.mark_shown();
        effects
    }

    /// Hides the window: persists the position, minimizes the window and
    /// forgets what was known about focus.
    pub fn hide_window(&mut self) -> (effects: Vec<Effect>)
        ensures
            final(self)@ == old(self)@.hidden().state,
            effects@ == old(self)@.hidden().effects,
    {
        let mut effects: Vec<Effect> = Vec::new();
        if self.terminated {
            return effects;
        }
        self.persist(&mut effects);
        effects.push(Effect::Minimize);
        self.visibility = VisibilityState::Hidden;
        self.focus.clear();
        effects
    }

    /// Quits: persists the position, removes the channel's endpoint and asks
    /// for shutdown.  Nothing is processed after that.
    pub fn quit(&mut self) -> (effects: Vec<Effect>)
        ensures
            final(self)@ == old(self)@.quit().state,
            effects@ == old(self)@.quit().effects,
    {
        let mut effects: Vec<Effect> = Vec::new();
        if self.terminated {
            return effects;
        }
        self.persist(&mut effects);
        effects.push(Effect::RemoveChannel);
        effects.push(Effect::Shutdown);
        self.terminated = true;
        effects
    }

    /// Hides the window if it is visible, shows it if it is hidden.
    pub fn toggle_visibility(&mut self) -> (effects: Vec<Effect>)
        ensures
            final(self)@ == old(self)@.toggled().state,
            effects@ == old(self)@.toggled().effects,
    {
        match self.visibility {
            VisibilityState::Visible => self.hide_window(),
            VisibilityState::Hidden => self.show_window(),
        }
    }

    /// Opens the settings panel without touching the window.  While the
    /// panel counts as open the bar is not hidden on focus loss.
    pub fn open_settings(&mut self) -> (effects: Vec<Effect>)
        ensures
            final(self)@ == old(self)@.settings_opened().state,
            effects@ == old(self)@.settings_opened().effects,
    {
        let mut effects: Vec<Effect> = Vec::new();
        if self.terminated {
            return effects;
        }
        self.settings_open = true;
        effects.push(Effect::OpenSettings);
        effects
    }

    /// Notes that the settings panel has closed.
    pub fn settings_closed(&mut self)
        ensures
            final(self)@ == (EngineState { settings_open: false, ..old(self)@ }),
    {
        self.settings_open = false;
    }

    /// Notes that a command waits for its parameter.  While it does the bar
    /// is not hidden on focus loss.
    pub fn begin_prompt(&mut self)
        ensures
            final(self)@ == (EngineState { prompt_pending: true, ..old(self)@ }),
    {
        self.prompt_pending = true;
    }

    /// Notes that the parameter prompt is over, by entry or by cancelling.
    pub fn end_prompt(&mut self)
        ensures
            final(self)@ == (EngineState { prompt_pending: false, ..old(self)@ }),
    {
        self.prompt_pending = false;
    }

    /// Notes that the user has begun to drag the window.
    pub fn start_drag(&mut self) -> (effects: Vec<Effect>)
        ensures
            final(self)@ == old(self)@.drag_started().state,
            effects@ == old(self)@.drag_started().effects,
    {
        let mut effects: Vec<Effect> = Vec::new();
        if self.terminated {
            return effects;
        }
        self.focus.start_drag();
        effects.push(Effect::BeginDrag);
        effects
    }

    /// Takes a command that the user has committed.  The host has run the
    /// command, where there was one to run, before it carries out the
    /// effects.
    pub fn on_command(&mut self, kind: CommandKind) -> (effects: Vec<Effect>)
        ensures
            final(self)@ == old(self)@.commanded(kind).state,
            effects@ == old(self)@.commanded(kind).effects,
    {
        if self.terminated {
            return Vec::new();
        }
        match kind {
            CommandKind::Nothing => Vec::new(),
            CommandKind::OpenSettings => self.open_settings(),
            CommandKind::Quit => self.quit(),
            CommandKind::Prompt => {
                self.prompt_pending = true;
                Vec::new()
            },
            CommandKind::Run => self.hide_window(),
            CommandKind::Shell => self.hide_window(),
        }
    }

    /// Takes what the keys of this tick mean for the parameter prompt.
    pub fn on_prompt(&mut self, decision: PromptDecision) -> (effects: Vec<Effect>)
        ensures
            final(self)@ == old(self)@.prompt_decided(decision).state,
            effects@ == old(self)@.prompt_decided(decision).effects,
    {
        if self.terminated || !self.prompt_pending {
            return Vec::new();
        }
        match decision {
            PromptDecision::Submit => {
                self.prompt_pending = false;
                self.hide_window()
            },
            PromptDecision::Cancel => {
                self.prompt_pending = false;
                Vec::new()
            },
            PromptDecision::Keep => Vec::new(),
        }
    }

    /// Takes one signal.
    pub fn on_signal(&mut self, signal: ToggleSignal) -> (effects: Vec<Effect>)
        ensures
            final(self)@ == old(self)@.signalled(signal).state,
            effects@ == old(self)@.signalled(signal).effects,
    {
        match signal {
            ToggleSignal::Hotkey => self.toggle_visibility(),
            ToggleSignal::PipeSignal => self.toggle_visibility(),
            ToggleSignal::TrayAction(TrayAction::ToggleVisibility) => self.toggle_visibility(),
            ToggleSignal::TrayAction(TrayAction::OpenSettings) => {
                let mut effects = self.show_window();
                let mut opening = self.open_settings();
                effects.append(&mut opening);
                effects
            },
            ToggleSignal::TrayAction(TrayAction::Quit) => self.quit(),
            ToggleSignal::TrayAction(TrayAction::Unknown) => Vec::new(),
        }
    }

    /// Takes the focus sample of this tick.
    pub fn on_focus_sample(&mut self, focused: bool) -> (effects: Vec<Effect>)
        ensures
            final(self)@ == old(self)@.focus_sampled(focused).state,
            effects@ == old(self)@.focus_sampled(focused).effects,
    {
        let mut effects: Vec<Effect> = Vec::new();
        if self.terminated {
            return effects;
        }
        if self.initial_move_due && focused {
            self.initial_move_due = false;
            match self.saved {
                Some(position) => {
                    effects.push(Effect::RestorePosition(position));
                },
                None => {},
            }
        }
        let suppressed = !self.hide_on_inactive || self.settings_open || self.prompt_pending;
        let visible = self.visibility == VisibilityState::Visible;
        let handle = self.locator.handle();
        match self.focus.observe(focused, visible, suppressed) {
            FocusVerdict::Steady => {},
            FocusVerdict::DragEnded => {
                effects.push(Effect::Activate(handle));
            },
            FocusVerdict::FocusLost => {
                let mut hiding = self.hide_window();
                effects.append(&mut hiding);
            },
        }
        effects
    }

    /// Runs one tick: the signals of the batch in order, then the focus
    /// sample.
    pub fn tick(&mut self, signals: &Vec<ToggleSignal>, focused: bool) -> (effects: Vec<Effect>)
        ensures
            final(self)@ == old(self)@.ticked(signals@, focused).state,
            effects@ == old(self)@.ticked(signals@, focused).effects,
    {
        let mut effects: Vec<Effect> = Vec::new();
        let mut i: usize = 0;
        while i < signals.len()
            invariant
                i <= signals.len(),
                self@ == old(self)@.signalled_all(signals@.take(i as int)).state,
                effects@ == old(self)@.signalled_all(signals@.take(i as int)).effects,
            decreases signals.len() - i,
        {
            proof {
                assert(signals@.take(i + 1).drop_last() == signals@.take(i as int));
            }
            let mut more = self.on_signal(signals[i]);
            effects.append(&mut more);
            i = i + 1;
        }
        proof {
            assert(signals@.take(i as int) == signals@);
        }
        let mut last = self.on_focus_sample(focused);
        effects.append(&mut last);
        effects
    }
}

} // verus!
