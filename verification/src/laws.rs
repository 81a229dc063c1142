//! Laws of the coordination engine.
//!
//! Each proof function states, over the models that the contracts of the
//! engine speak of, something that holds of every run.

use vstd::prelude::*;
use crate::engine::{Effect, EngineState, Outcome, VisibilityState};
use crate::locator::{
    walk_all,
    walk_start,
    AncestryWalk,
    LocatorState,
    WindowHandle,
    MAX_LOOKUP_ATTEMPTS,
};
use crate::position::{position_to_persist, Position};
use crate::signals::{ToggleSignal, TrayAction};

verus! {

/// The state after a run of ticks that deliver one signal each.  A tick is
/// given by its signal and its focus sample.
pub open spec fn after_single_signal_ticks(state: EngineState, ticks: Seq<(ToggleSignal, bool)>)
    -> EngineState
    decreases ticks.len(),
{
    if ticks.len() == 0 {
        state
    } else {
        after_single_signal_ticks(state, ticks.drop_last()).ticked(
            seq![ticks.last().0],
            ticks.last().1,
        ).state
    }
}

/// A tick that delivers one toggle signal flips the visibility, whatever the
/// focus sample of that tick is, and does not end the run.
pub proof fn lemma_toggle_tick_flips(state: EngineState, signal: ToggleSignal, focused: bool)
    requires
        !state.terminated,
        signal.is_toggle(),
    ensures
        state.ticked(seq![signal], focused).state.visibility == state.visibility.flipped(),
        !state.ticked(seq![signal], focused).state.terminated,
{
    reveal_with_fuel(EngineState::signalled_all, 2);
}

/// Toggling N times, one signal per tick and no other signal, leaves the bar
/// as it was if N is even and flips it if N is odd: from the visible start,
/// visible after an even number of toggles and hidden after an odd number.
/// The focus samples of those ticks make no difference.
pub proof fn law_toggle_parity(state: EngineState, ticks: Seq<(ToggleSignal, bool)>)
    requires
        !state.terminated,
        forall|i: int| 0 <= i < ticks.len() ==> (#[trigger] ticks[i]).0.is_toggle(),
    ensures
        !after_single_signal_ticks(state, ticks).terminated,
        after_single_signal_ticks(state, ticks).visibility == if ticks.len() % 2 == 0 {
            state.visibility
        } else {
            state.visibility.flipped()
        },
    decreases ticks.len(),
{
    if ticks.len() > 0 {
        let earlier = ticks.drop_last();
        law_toggle_parity(state, earlier);
        let before = after_single_signal_ticks(state, earlier);
        lemma_toggle_tick_flips(before, ticks.last().0, ticks.last().1);
    }
}

/// While a drag is in progress, the settings panel is open or a command
/// waits for its parameter, no focus sample hides the bar: the visibility
/// stays as it is, and nothing is minimized or persisted.  So it is with a
/// whole tick that brings no signal.
pub proof fn law_auto_hide_suppressed(state: EngineState, focused: bool)
    requires
        state.focus.dragging || state.settings_open || state.prompt_pending,
    ensures
        state.focus_sampled(focused).state.visibility == state.visibility,
        forall|i: int|
            0 <= i < state.focus_sampled(focused).effects.len() ==> {
                let effect = #[trigger] state.focus_sampled(focused).effects[i];
                effect != Effect::Minimize && !effect.persists()
            },
        state.ticked(Seq::empty(), focused).state == state.focus_sampled(focused).state,
        state.ticked(Seq::empty(), focused).effects == state.focus_sampled(focused).effects,
{
}

/// Hiding is the only thing a focus sample can do to the visibility, and it
/// does so exactly when focus was there at the last tick and is gone now,
/// the bar is visible, hiding on focus loss is configured, and neither a
/// drag nor the settings panel nor a pending parameter stands against it.
pub proof fn law_auto_hide_condition(state: EngineState, focused: bool)
    requires
        !state.terminated,
    ensures
        state.focus_sampled(focused).state.visibility != state.visibility <==> (state.visibility
            == VisibilityState::Visible && state.hide_on_inactive && !state.settings_open
            && !state.prompt_pending && !state.focus.dragging && state.focus.was_focused
            && !focused),
{
}

/// A position that has been noted is the one that hiding persists, and so
/// is it with quitting: the persisted fields then hold exactly that
/// position, and no fresh query is asked for.
pub proof fn law_noted_position_persisted(state: EngineState, position: Position)
    requires
        !state.terminated,
    ensures
        ({
            let noted = EngineState { tracker: state.tracker.noted(position), ..state };
            &&& noted.hidden().effects == seq![Effect::Persist(position), Effect::Minimize]
            &&& noted.hidden().state.saved == Some(position)
            &&& noted.quit().effects == seq![
                Effect::Persist(position),
                Effect::RemoveChannel,
                Effect::Shutdown,
            ]
            &&& noted.quit().state.saved == Some(position)
        }),
{
}

/// Hiding persists the cached position if there is one, else the one that
/// the fresh query gives, else nothing: the persisted fields then stay as
/// they were.  The cached position is written at once; only without it is
/// the compositor asked.
pub proof fn law_persist_prefers_cache(state: EngineState, fresh: Option<Position>)
    requires
        !state.terminated,
        !state.awaiting_fresh,
    ensures
        ({
            let hidden = state.hidden();
            let answered = hidden.state.fresh_position(fresh);
            let chosen = position_to_persist(state.tracker.cached, fresh);
            &&& answered.state.saved == match chosen {
                Some(position) => Some(position),
                None => state.saved,
            }
            &&& state.tracker.cached matches Some(position) ==> hidden.effects == seq![
                Effect::Persist(position),
                Effect::Minimize,
            ] && answered.effects == Seq::<Effect>::empty()
            &&& state.tracker.cached is None ==> hidden.effects == seq![
                Effect::QueryFreshPosition,
                Effect::Minimize,
            ] && answered.effects == match fresh {
                Some(position) => seq![Effect::Persist(position)],
                None => Seq::<Effect>::empty(),
            }
        }),
{
}

/// Showing, dragging, opening the settings and recording a lookup never
/// write the position: only hiding and quitting do.
pub proof fn law_no_speculative_persistence(state: EngineState, found: Option<WindowHandle>)
    ensures
        forall|i: int|
            0 <= i < state.shown().effects.len() ==> !(#[trigger] state.shown().effects[i]).persists(),
        forall|i: int|
            0 <= i < state.drag_started().effects.len() ==> !(
            #[trigger] state.drag_started().effects[i]).persists(),
        forall|i: int|
            0 <= i < state.settings_opened().effects.len() ==> !(
            #[trigger] state.settings_opened().effects[i]).persists(),
        forall|i: int|
            0 <= i < state.lookup_recorded(found).effects.len() ==> !(
            #[trigger] state.lookup_recorded(found).effects[i]).persists(),
{
}

/// The window is moved to its remembered position, with the host waiting,
/// once at most: when that has been done, or was never due, no focus sample
/// asks for it, and none makes it due again.
pub proof fn law_initial_move_once(state: EngineState, focused: bool)
    requires
        !state.initial_move_due,
    ensures
        !state.focus_sampled(focused).state.initial_move_due,
        forall|i: int|
            0 <= i < state.focus_sampled(focused).effects.len() ==> !(
            #[trigger] state.focus_sampled(focused).effects[i] is RestorePosition),
{
}

/// Once the handle is resolved it stays what it is, whatever later lookups
/// give and however many are handed in.
pub proof fn law_handle_immutable(
    locator: LocatorState,
    handle: WindowHandle,
    results: Seq<Option<WindowHandle>>,
)
    requires
        locator.handle == Some(handle),
    ensures
        locator.record_all(results) == locator,
    decreases results.len(),
{
    if results.len() > 0 {
        law_handle_immutable(locator, handle, results.drop_last());
    }
}

/// No more than [`MAX_LOOKUP_ATTEMPTS`] lookups are ever counted, and once
/// that many have failed no later result is taken.
pub proof fn law_lookups_bounded(locator: LocatorState, results: Seq<Option<WindowHandle>>)
    requires
        locator.attempts <= MAX_LOOKUP_ATTEMPTS,
    ensures
        locator.record_all(results).attempts <= MAX_LOOKUP_ATTEMPTS,
        locator.handle is None && locator.attempts == MAX_LOOKUP_ATTEMPTS ==> locator.record_all(
            results,
        ) == locator,
    decreases results.len(),
{
    if results.len() > 0 {
        law_lookups_bounded(locator, results.drop_last());
    }
}

/// The engine keeps a resolved handle through every lookup result.
pub proof fn law_engine_keeps_handle(
    state: EngineState,
    handle: WindowHandle,
    found: Option<WindowHandle>,
)
    requires
        state.locator.handle == Some(handle),
    ensures
        state.lookup_recorded(found) == Outcome::unchanged(state),
{
}

/// After a quit nothing is processed: a tick changes nothing and asks for
/// nothing.
pub proof fn law_quit_is_terminal(state: EngineState, signals: Seq<ToggleSignal>, focused: bool)
    requires
        state.terminated,
    ensures
        state.signalled_all(signals) == Outcome::unchanged(state),
        state.ticked(signals, focused) == Outcome::unchanged(state),
    decreases signals.len(),
{
    if signals.len() > 0 {
        law_quit_is_terminal(state, signals.drop_last(), focused);
    }
}

/// Signals that arrive in a batch behind a quit signal are not processed.
pub proof fn law_signals_after_quit_dropped(state: EngineState, signals: Seq<ToggleSignal>, at: int)
    requires
        0 <= at < signals.len(),
        signals[at] == ToggleSignal::TrayAction(TrayAction::Quit),
    ensures
        state.signalled_all(signals) == state.signalled_all(signals.take(at + 1)),
    decreases signals.len(),
{
    if at + 1 == signals.len() {
        assert(signals.take(at + 1) == signals);
    } else {
        let earlier = signals.drop_last();
        law_signals_after_quit_dropped(state, earlier, at);
        assert(earlier.take(at + 1) == signals.take(at + 1));
    }
}

/// Signals are processed in the order of their arrival: taking a batch is
/// taking its first part and then, from where that led, the rest.
pub proof fn law_signals_in_order(
    state: EngineState,
    first: Seq<ToggleSignal>,
    second: Seq<ToggleSignal>,
)
    ensures
        state.signalled_all(first + second) == state.signalled_all(first).state.signalled_all(
            second,
        ).after(state.signalled_all(first).effects),
    decreases second.len(),
{
    if second.len() > 0 {
        law_signals_in_order(state, first, second.drop_last());
        assert((first + second).drop_last() == first + second.drop_last());
        let begun = state.signalled_all(first);
        let earlier = begun.state.signalled_all(second.drop_last());
        let last = earlier.state.signalled(second.last());
        assert((begun.effects + earlier.effects) + last.effects == begun.effects + (earlier.effects
            + last.effects));
    }
}

/// Showing the bar starts focus tracking afresh: the focus sample that
/// follows cannot hide it again, whatever it is.
pub proof fn law_no_hide_right_after_show(state: EngineState, focused: bool)
    requires
        !state.terminated,
    ensures
        state.shown().state.focus_sampled(focused).state.visibility == VisibilityState::Visible,
{
}

/// A drag costs the bar nothing.  While the window is dragged, focus that
/// goes away hides nothing and asks for nothing; when focus comes back the
/// drag is over, the window is activated once more, and the bar is as
/// visible as before.
pub proof fn law_drag_keeps_the_bar(state: EngineState)
    requires
        !state.terminated,
        !state.initial_move_due,
    ensures
        ({
            let dragging = state.drag_started().state;
            let lost = dragging.focus_sampled(false);
            let back = lost.state.focus_sampled(true);
            &&& lost.effects == Seq::<Effect>::empty()
            &&& lost.state.visibility == state.visibility
            &&& lost.state.focus.dragging
            &&& back.effects == seq![Effect::Activate(state.locator.handle)]
            &&& back.state.visibility == state.visibility
            &&& !back.state.focus.dragging
        }),
{
}

/// The windows that a walk visits: the focused one, then each parent that
/// was reported, up to the last one before the root.
pub open spec fn visited(focus: u32, parents: Seq<u32>) -> Seq<u32> {
    seq![focus] + parents.drop_last()
}

/// A walk up a window tree ends with the client window.
///
/// Let the focused window and its ancestors below the root be distinct
/// windows, none of them the root.  Where the focused window is a child of
/// the root it is the result.  Else the result is the window visited just
/// before the child of the root: the client inside the frame that a
/// reparenting window manager has put around it.
pub proof fn law_walk_finds_client(focus: u32, root: u32, parents: Seq<u32>)
    requires
        focus > 1,
        focus != root,
        parents.len() > 0,
        parents.last() == root || parents.last() == 0,
        forall|i: int|
            0 <= i < parents.len() - 1 ==> (#[trigger] parents[i]) != root && parents[i] != 0
                && parents[i] != focus,
    ensures
        walk_start(focus, root) is Some,
        walk_all(walk_start(focus, root)->0, parents, root) == Some(
            WindowHandle {
                id: if parents.len() == 1 {
                    focus
                } else {
                    visited(focus, parents)[parents.len() - 2]
                },
            },
        ),
{
    let start = walk_start(focus, root)->0;
    lemma_walk_from(start, focus, root, parents, 0);
    assert(parents.skip(0) == parents);
}

/// The walk, taken up after `done` answers.
proof fn lemma_walk_from(walk: AncestryWalk, focus: u32, root: u32, parents: Seq<u32>, done: int)
    requires
        focus > 1,
        focus != root,
        parents.len() > 0,
        parents.last() == root || parents.last() == 0,
        forall|i: int|
            0 <= i < parents.len() - 1 ==> (#[trigger] parents[i]) != root && parents[i] != 0
                && parents[i] != focus,
        0 <= done < parents.len(),
        walk.focus == focus,
        walk.current == visited(focus, parents)[done],
        done > 0 ==> walk.client == visited(focus, parents)[done - 1],
    ensures
        walk_all(walk, parents.skip(done), root) == Some(
            WindowHandle {
                id: if parents.len() == 1 {
                    focus
                } else {
                    visited(focus, parents)[parents.len() - 2]
                },
            },
        ),
    decreases parents.len() - done,
{
    if done < parents.len() - 1 {
        let next = AncestryWalk { focus, current: parents[done], client: walk.current };
        assert(parents.skip(done).drop_first() == parents.skip(done + 1));
        lemma_walk_from(next, focus, root, parents, done + 1);
    }
}

} // verus!
