//! The mailbox between the trigger producers and the tick.
//!
//! The reader of the inter-process channel and the tray menu's callback run
//! on threads of their own.  They never hand anything to the tick directly:
//! each leaves a flag or a code in a lock-free slot, and the tick takes what
//! it finds.  A producer can therefore never stall the tick, and the tick
//! never waits for a producer.

use vstd::prelude::*;
use std::sync::atomic::{AtomicBool, AtomicU32, AtomicU8, Ordering};
use crate::locator::WindowHandle;
use crate::signals::{drain, pending_signals, ToggleSignal, TrayAction, TRAY_NONE};

verus! {

/// The slots that the producers and the tick share.
pub struct Mailbox {
    /// Set when the inter-process channel was written to.
    pipe: AtomicBool,
    /// Code of the tray action that waits, or [`TRAY_NONE`].
    tray: AtomicU8,
    /// Id of the application's window once it is known, else 0.
    window: AtomicU32,
}

impl Mailbox {
    /// A mailbox with nothing in it.
    pub fn new() -> Mailbox {
        Mailbox {
            pipe: AtomicBool::new(false),
            tray: AtomicU8::new(TRAY_NONE),
            window: AtomicU32::new(0),
        }
    }

    /// Leaves the signal of the inter-process channel.  Any write to the
    /// channel means the same; several before the next tick count once.
    pub fn signal_pipe(&self) {
        self.pipe.store(true, Ordering::SeqCst);
    }

    /// Leaves the action of a tray-menu entry and returns it, together with
    /// the window to wake so that the tick runs, if the window is known.
    /// The action takes the place of one that still waits.
    pub fn post_menu_event(&self, id: &str) -> (posted: (TrayAction, Option<WindowHandle>))
        ensures
            posted.0 == TrayAction::of_menu_id(id@),
            posted.1 matches Some(window) ==> window.id != 0,
    {
        let action = TrayAction::from_menu_id(id);
        let window = self.published_window();
        self.tray.store(action.code(), Ordering::SeqCst);
        (action, window)
    }

    /// Makes the window's handle known to the producers.
    pub fn publish_window(&self, window: WindowHandle) {
        self.window.store(window.id, Ordering::SeqCst);
    }

    /// The window's handle, if the tick has made it known.  What the slot
    /// holds is read as [`WindowHandle::from_id`] reads an id; which id the
    /// slot holds at the time of the call, no contract can say.
    pub fn published_window(&self) -> (window: Option<WindowHandle>)
        ensures
            window matches Some(handle) ==> handle.id != 0,
    {
        WindowHandle::from_id(self.window.load(Ordering::SeqCst))
    }

    /// Takes what waits in the slots, empties them, and turns it, with the
    /// hotkey events taken off their queue, into the batch of this tick.
    ///
    /// Whatever the slots held, the batch is what [`pending_signals`] makes
    /// of some flag and some code: at most one signal of the channel, then
    /// one hotkey signal for each event with the toggle's id, then at most
    /// one tray action.
    pub fn take(&self, hotkey_events: &Vec<u32>, toggle_id: u32) -> (batch: Vec<ToggleSignal>)
        ensures
            exists|flag: bool, code: u8|
                batch@ == #[trigger] pending_signals(flag, hotkey_events@, toggle_id, code),
    {
        let flag = self.pipe.swap(false, Ordering::SeqCst);
        let code = self.tray.swap(TRAY_NONE, Ordering::SeqCst);
        drain(flag, hotkey_events, toggle_id, code)
    }
}

} // verus!
