//! Trigger signals and their ingestion.
//!
//! Three independent producers ask for a visibility change: the global
//! hotkey, a write on the local inter-process channel, and an entry of the
//! tray menu.  Each leaves a flag, a queue of ids or an action code behind;
//! once per tick [`drain`] turns what is pending into one ordered batch.

use vstd::prelude::*;
use crate::text::str_equals;

verus! {

/// What an entry of the tray menu asks for.
#[derive(Clone, Copy, Debug, PartialEq, Eq, Structural)]
pub enum TrayAction {
    ToggleVisibility,
    OpenSettings,
    Quit,
    /// An identifier that names no entry of the menu.
    Unknown,
}

/// One trigger, as the tick consumes it.
#[derive(Clone, Copy, Debug, PartialEq, Eq, Structural)]
pub enum ToggleSignal {
    Hotkey,
    PipeSignal,
    TrayAction(TrayAction),
}

/// Code of an empty tray slot.
pub const TRAY_NONE: u8 = 0;

/// Code of [`TrayAction::ToggleVisibility`].
pub const TRAY_TOGGLE: u8 = 1;

/// Code of [`TrayAction::OpenSettings`].
pub const TRAY_SETTINGS: u8 = 2;

/// Code of [`TrayAction::Quit`].
pub const TRAY_QUIT: u8 = 3;

impl TrayAction {
    /// The action that the menu entry called `id` stands for.
    pub open spec fn of_menu_id(id: Seq<char>) -> TrayAction {
        if id == "show_hide"@ {
            TrayAction::ToggleVisibility
        } else if id == "settings"@ {
            TrayAction::OpenSettings
        } else if id == "quit"@ {
            TrayAction::Quit
        } else {
            TrayAction::Unknown
        }
    }

    /// The code that the tray slot holds for this action.  An unknown action
    /// leaves the slot empty.
    pub open spec fn code_of(self) -> u8 {
        match self {
            TrayAction::ToggleVisibility => TRAY_TOGGLE,
            TrayAction::OpenSettings => TRAY_SETTINGS,
            TrayAction::Quit => TRAY_QUIT,
            TrayAction::Unknown => TRAY_NONE,
        }
    }

    /// The action that a slot holding `code` asks for, if it asks for one.
    pub open spec fn of_code(code: u8) -> Option<TrayAction> {
        if code == TRAY_TOGGLE {
            Some(TrayAction::ToggleVisibility)
        } else if code == TRAY_SETTINGS {
            Some(TrayAction::OpenSettings)
        } else if code == TRAY_QUIT {
            Some(TrayAction::Quit)
        } else {
            None
        }
    }

    /// Decodes the identifier of a tray-menu entry, once, at the boundary.
    pub fn from_menu_id(id: &str) -> (action: TrayAction)
        ensures
            action == Self::of_menu_id(id@),
    {
        if str_equals(id, "show_hide") {
            TrayAction::ToggleVisibility
        } else if str_equals(id, "settings") {
            TrayAction::OpenSettings
        } else if str_equals(id, "quit") {
            TrayAction::Quit
        } else {
            TrayAction::Unknown
        }
    }

    /// The code to write into the tray slot.
    pub fn code(self) -> (code: u8)
        ensures
            code == self.code_of(),
    {
        match self {
            TrayAction::ToggleVisibility => TRAY_TOGGLE,
            TrayAction::OpenSettings => TRAY_SETTINGS,
            TrayAction::Quit => TRAY_QUIT,
            TrayAction::Unknown => TRAY_NONE,
        }
    }

    /// Reads a code taken out of the tray slot.
    pub fn from_code(code: u8) -> (action: Option<TrayAction>)
        ensures
            action == Self::of_code(code),
    {
        if code == TRAY_TOGGLE {
            Some(TrayAction::ToggleVisibility)
        } else if code == TRAY_SETTINGS {
            Some(TrayAction::OpenSettings)
        } else if code == TRAY_QUIT {
            Some(TrayAction::Quit)
        } else {
            None
        }
    }
}

impl ToggleSignal {
    /// Whether the signal asks to flip between visible and hidden.
    pub open spec fn is_toggle(self) -> bool {
        self == ToggleSignal::Hotkey || self == ToggleSignal::PipeSignal || self
            == ToggleSignal::TrayAction(TrayAction::ToggleVisibility)
    }
}

/// One `Hotkey` signal for each queued event that carries the id of the
/// toggle hotkey, in the order of the queue.
pub open spec fn hotkey_signals(events: Seq<u32>, toggle_id: u32) -> Seq<ToggleSignal>
    decreases events.len(),
{
    if events.len() == 0 {
        Seq::empty()
    } else {
        let earlier = hotkey_signals(events.drop_last(), toggle_id);
        if events.last() == toggle_id {
            earlier.push(ToggleSignal::Hotkey)
        } else {
            earlier
        }
    }
}

/// The batch of one tick: the channel's signal if its flag was set, then the
/// hotkey signals, then the tray action if the slot held one.
pub open spec fn pending_signals(
    pipe_flag: bool,
    hotkey_events: Seq<u32>,
    toggle_id: u32,
    tray_code: u8,
) -> Seq<ToggleSignal> {
    let from_pipe = if pipe_flag {
        seq![ToggleSignal::PipeSignal]
    } else {
        Seq::empty()
    };
    let from_tray = match TrayAction::of_code(tray_code) {
        Some(action) => seq![ToggleSignal::TrayAction(action)],
        None => Seq::empty(),
    };
    from_pipe + hotkey_signals(hotkey_events, toggle_id) + from_tray
}

/// Turns what the three producers left behind into the batch of this tick.
///
/// `pipe_flag` and `tray_code` are the values taken out of the shared flag and
/// slot, `hotkey_events` the ids taken off the hotkey queue, oldest first.
/// Nothing is merged: each queued hotkey event with the toggle's id gives a
/// signal of its own.
pub fn drain(pipe_flag: bool, hotkey_events: &Vec<u32>, toggle_id: u32, tray_code: u8) -> (batch:
    Vec<ToggleSignal>)
    ensures
        batch@ == pending_signals(pipe_flag, hotkey_events@, toggle_id, tray_code),
{
    let mut batch: Vec<ToggleSignal> = Vec::new();
    if pipe_flag {
        batch.push(ToggleSignal::PipeSignal);
    }
    let ghost from_pipe = batch@;
    let mut i: usize = 0;
    while i < hotkey_events.len()
        invariant
            i <= hotkey_events.len(),
            batch@ == from_pipe + hotkey_signals(hotkey_events@.take(i as int), toggle_id),
        decreases hotkey_events.len() - i,
    {
        proof {
            assert(hotkey_events@.take(i + 1).drop_last() == hotkey_events@.take(i as int));
        }
        if hotkey_events[i] == toggle_id {
            batch.push(ToggleSignal::Hotkey);
        }
        i = i + 1;
    }
    proof {
        assert(hotkey_events@.take(i as int) == hotkey_events@);
    }
    match TrayAction::from_code(tray_code) {
        Some(action) => {
            batch.push(ToggleSignal::TrayAction(action));
        },
        None => {},
    }
    batch
}

} // verus!
