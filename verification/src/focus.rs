//! Focus transition detector.
//!
//! Losing input focus normally hides the bar.  Dragging the window also
//! takes focus away for a moment; that loss must not hide it, and when focus
//! comes back the window has to be activated again.  The detector keeps the
//! focus state of the previous tick and the drag flag, and classifies each
//! new sample.

use vstd::prelude::*;

verus! {

/// The detector as contracts see it.
pub struct FocusState {
    /// A drag of the window is in progress.
    pub dragging: bool,
    /// The window had input focus at the previous tick.
    pub was_focused: bool,
}

/// What a focus sample means.
#[derive(Clone, Copy, Debug, PartialEq, Eq, Structural)]
pub enum FocusVerdict {
    /// Nothing to act on.
    Steady,
    /// Focus has come back after a drag.
    DragEnded,
    /// Focus went away for good.
    FocusLost,
}

impl FocusState {
    /// No drag, not focused yet.
    pub open spec fn initial() -> FocusState {
        FocusState { dragging: false, was_focused: false }
    }

    /// What the sample `focused` means.
    ///
    /// Focus that returns during a drag ends the drag, whatever else holds.
    /// Focus that goes away is a loss only while the window is visible, no
    /// drag is in progress and nothing else suppresses hiding.
    pub open spec fn verdict(self, focused: bool, visible: bool, suppressed: bool) -> FocusVerdict {
        if self.dragging && !self.was_focused && focused {
            FocusVerdict::DragEnded
        } else if visible && !suppressed && !self.dragging && self.was_focused && !focused {
            FocusVerdict::FocusLost
        } else {
            FocusVerdict::Steady
        }
    }

    /// The detector after the sample: the sample is remembered, and the end
    /// of a drag clears the drag flag.
    pub open spec fn observed(self, focused: bool) -> FocusState {
        FocusState {
            dragging: self.dragging && !(!self.was_focused && focused),
            was_focused: focused,
        }
    }

    /// After a drag has begun.
    pub open spec fn drag_started(self) -> FocusState {
        FocusState { dragging: true, was_focused: self.was_focused }
    }

    /// After the window has been shown: it counts as not focused yet, since
    /// focus arrives a tick or two later.
    pub open spec fn shown(self) -> FocusState {
        FocusState { dragging: self.dragging, was_focused: false }
    }

    /// After the window has been hidden: nothing is remembered.
    pub open spec fn cleared(self) -> FocusState {
        FocusState::initial()
    }
}

/// Keeper of the drag flag and of the previous tick's focus state.
pub struct FocusDetector {
    dragging: bool,
    was_focused: bool,
}

impl View for FocusDetector {
    type V = FocusState;

    closed spec fn view(&self) -> FocusState {
        FocusState { dragging: self.dragging, was_focused: self.was_focused }
    }
}

impl FocusDetector {
    /// A detector for a window that has not had focus yet.
    pub fn new() -> (detector: FocusDetector)
        ensures
            detector@ == FocusState::initial(),
    {
        FocusDetector { dragging: false, was_focused: false }
    }

    /// Whether a drag is in progress.
    pub fn dragging(&self) -> (dragging: bool)
        ensures
            dragging == self@.dragging,
    {
        self.dragging
    }

    /// Whether the window had focus at the previous tick.
    pub fn was_focused(&self) -> (focused: bool)
        ensures
            focused == self@.was_focused,
    {
        self.was_focused
    }

    /// Takes the focus sample of this tick and classifies it.
    ///
    /// `visible` says whether the window is shown, `suppressed` whether
    /// something other than a drag forbids hiding it now.
    pub fn observe(&mut self, focused: bool, visible: bool, suppressed: bool) -> (verdict:
        FocusVerdict)
        ensures
            verdict == old(self)@.verdict(focused, visible, suppressed),
            final(self)@ == old(self)@.observed(focused),
    {
        let verdict = if self.dragging && !self.was_focused && focused {
            self.dragging = false;
            FocusVerdict::DragEnded
        } else if visible && !suppressed && !self.dragging && self.was_focused && !focused {
            FocusVerdict::FocusLost
        } else {
            FocusVerdict::Steady
        };
        self.was_focused = focused;
        verdict
    }

    /// Notes that the user has begun to drag the window.
    pub fn start_drag(&mut self)
        ensures
            final(self)@ == old(self)@.drag_started(),
    {
        self.dragging = true;
    }

    /// Notes that the window has been shown.
    pub fn mark_shown(&mut self)
        ensures
            final(self)@ == old(self)@.shown(),
    {
        self.was_focused = false;
    }

    /// Forgets everything, as after hiding the window.
    pub fn clear(&mut self)
        ensures
            final(self)@ == old(self)@.cleared(),
    {
        self.dragging = false;
        self.was_focused = false;
    }
}

} // verus!
