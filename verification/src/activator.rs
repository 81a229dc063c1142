//! Window activator: the requests that bring the window to the front.
//!
//! No single mechanism works under both display protocols, so every one is
//! asked for, each on its own and whatever became of the one before.  The
//! same window may be activated several times for one event; that is safe
//! because every request sets a property of the window and none flips one.

use vstd::prelude::*;
use crate::locator::WindowHandle;

verus! {

/// One request of the activation sequence.
#[derive(Clone, Copy, Debug, PartialEq, Eq, Structural)]
pub enum ActivationStep {
    /// Map the window and raise it to the top of the stack, directly at the
    /// display server.
    MapAndRaise(WindowHandle),
    /// Ask the window manager, by client message, to make the window the
    /// active one.  The message's data words are [`ACTIVATE_DATA`].
    RequestActive(WindowHandle),
    /// Set input focus on the window directly.
    SetInputFocus(WindowHandle),
    /// Call the compositor's `Activate` method, which finds the window by its
    /// title.
    CompositorActivate,
}

/// Name of the property by which a window manager is asked to activate a
/// window.
pub const ACTIVE_WINDOW_ATOM: &'static str = "_NET_ACTIVE_WINDOW";

/// Name of the property that holds a window's state hints.
pub const WINDOW_STATE_ATOM: &'static str = "_NET_WM_STATE";

/// Name of the state hint "keep above other windows".
pub const STATE_ABOVE_ATOM: &'static str = "_NET_WM_STATE_ABOVE";

/// Data words of the activation message: the request comes from an
/// application (1), carries no timestamp and names no window as the
/// requestor's active one.
pub const ACTIVATE_DATA: [u32; 5] = [1, 0, 0, 0, 0];

/// Action code of a state message that removes a hint.
pub const STATE_REMOVE: u32 = 0;

/// Action code of a state message that adds a hint.
pub const STATE_ADD: u32 = 1;

/// Action code of a state message that flips a hint.  The activator never
/// sends it.
pub const STATE_TOGGLE: u32 = 2;

/// The requests that activate the window, in order: the three direct ones
/// where the handle is known, then the compositor's.
pub open spec fn activation_plan(handle: Option<WindowHandle>) -> Seq<ActivationStep> {
    match handle {
        Some(window) => seq![
            ActivationStep::MapAndRaise(window),
            ActivationStep::RequestActive(window),
            ActivationStep::SetInputFocus(window),
            ActivationStep::CompositorActivate,
        ],
        None => seq![ActivationStep::CompositorActivate],
    }
}

/// The requests to issue to activate the window.
///
/// Without a handle only the compositor can be asked; it needs none.
pub fn activate(handle: Option<WindowHandle>) -> (steps: Vec<ActivationStep>)
    ensures
        steps@ == activation_plan(handle),
{
    let mut steps: Vec<ActivationStep> = Vec::new();
    match handle {
        Some(window) => {
            steps.push(ActivationStep::MapAndRaise(window));
            steps.push(ActivationStep::RequestActive(window));
            steps.push(ActivationStep::SetInputFocus(window));
        },
        None => {},
    }
    steps.push(ActivationStep::CompositorActivate);
    steps
}

/// A state-change client message for one window.
#[derive(Clone, Copy, Debug, PartialEq, Eq)]
pub struct StateMessage {
    /// The window whose state is to change.
    pub window: WindowHandle,
    /// The five data words: action, first hint, second hint, source
    /// indication, unused.
    pub data: [u32; 5],
}

/// Data words of the message that turns "keep above" on or off.
pub open spec fn keep_above_data(enable: bool, above_atom: u32) -> Seq<u32> {
    seq![
        if enable {
            STATE_ADD
        } else {
            STATE_REMOVE
        },
        above_atom,
        0,
        1,
        0,
    ]
}

/// The message that turns the "keep above" hint of the window on or off, or
/// `None` where the handle is unknown: the hint is then left alone.
///
/// `above_atom` is the display server's number for [`STATE_ABOVE_ATOM`].
pub fn set_always_on_top(handle: Option<WindowHandle>, enable: bool, above_atom: u32) -> (message:
    Option<StateMessage>)
    ensures
        handle is None ==> message is None,
        handle is Some ==> message is Some && message->0.window == handle->0
            && message->0.data@ == keep_above_data(enable, above_atom),
{
    match handle {
        Some(window) => {
            let action: u32 = if enable {
                STATE_ADD
            } else {
                STATE_REMOVE
            };
            let data: [u32; 5] = [action, above_atom, 0, 1, 0];
            Some(StateMessage { window, data })
        },
        None => None,
    }
}

/// What activation can change about a window.
pub struct WindowModel {
    /// The window is mapped.
    pub mapped: bool,
    /// The window is on top of the stack.
    pub raised: bool,
    /// The window manager treats the window as the active one.
    pub active: bool,
    /// The window has input focus.
    pub focused: bool,
    /// The compositor has activated the window.
    pub composited: bool,
    /// The window carries the hint "keep above".
    pub above: bool,
}

impl WindowModel {
    /// The window after one request has taken effect.
    pub open spec fn after(self, step: ActivationStep) -> WindowModel {
        match step {
            ActivationStep::MapAndRaise(_) => WindowModel { mapped: true, raised: true, ..self },
            ActivationStep::RequestActive(_) => WindowModel { active: true, ..self },
            ActivationStep::SetInputFocus(_) => WindowModel { focused: true, ..self },
            ActivationStep::CompositorActivate => WindowModel { composited: true, ..self },
        }
    }

    /// The window after a run of requests has taken effect.
    pub open spec fn after_all(self, steps: Seq<ActivationStep>) -> WindowModel
        decreases steps.len(),
    {
        if steps.len() == 0 {
            self
        } else {
            self.after_all(steps.drop_last()).after(steps.last())
        }
    }

    /// The window after a state message with the given action code for the
    /// hint "keep above" has taken effect.
    pub open spec fn after_state_action(self, action: u32) -> WindowModel {
        if action == STATE_ADD {
            WindowModel { above: true, ..self }
        } else if action == STATE_REMOVE {
            WindowModel { above: false, ..self }
        } else if action == STATE_TOGGLE {
            WindowModel { above: !self.above, ..self }
        } else {
            self
        }
    }
}

/// Activating twice leaves the window as activating once does.
///
/// This holds of the model above, in which each request of the sequence sets
/// a property of the window.
pub proof fn law_activation_idempotent(window: WindowModel, handle: Option<WindowHandle>)
    ensures
        window.after_all(activation_plan(handle)).after_all(activation_plan(handle))
            == window.after_all(activation_plan(handle)),
{
    let plan = activation_plan(handle);
    lemma_after_plan(window, handle);
    lemma_after_plan(window.after_all(plan), handle);
}

/// What the whole sequence does to a window.
pub proof fn lemma_after_plan(window: WindowModel, handle: Option<WindowHandle>)
    ensures
        window.after_all(activation_plan(handle)) == match handle {
            Some(_) => WindowModel {
                mapped: true,
                raised: true,
                active: true,
                focused: true,
                composited: true,
                above: window.above,
            },
            None => WindowModel { composited: true, ..window },
        },
{
    reveal_with_fuel(WindowModel::after_all, 5);
    if let Some(window) = handle {
        let direct = activation_plan(handle).drop_last();
        assert(direct == seq![
            ActivationStep::MapAndRaise(window),
            ActivationStep::RequestActive(window),
            ActivationStep::SetInputFocus(window),
        ]);
        assert(direct.drop_last() == seq![
            ActivationStep::MapAndRaise(window),
            ActivationStep::RequestActive(window),
        ]);
    }
}

/// Sending the "keep above" message twice leaves the hint as sending it once
/// does, and the hint then is what was asked for.
pub proof fn law_keep_above_idempotent(window: WindowModel, enable: bool, above_atom: u32)
    ensures
        ({
            let action = keep_above_data(enable, above_atom)[0];
            &&& window.after_state_action(action).above == enable
            &&& window.after_state_action(action).after_state_action(action)
                == window.after_state_action(action)
        }),
{
}

} // verus!
