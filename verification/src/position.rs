//! Position tracker: where the window is, and what to remember of it.
//!
//! The window's real position can only be had from the compositor, one
//! round trip at a time.  The tracker decides when such a query is due,
//! caches the last answer, and picks the position that is persisted when the
//! window is hidden.

use vstd::prelude::*;
use crate::text::{
    chars_of,
    parse_i32,
    read_i32,
    split,
    split_at_char,
    strip_leading,
    strip_trailing,
    trim,
    trimmed,
    CharClass,
};
use vstd::slice::slice_subrange;

verus! {

/// A point on the screen, in the compositor's whole pixels.
#[derive(Clone, Copy, Debug, PartialEq, Eq, Structural)]
pub struct Position {
    pub x: i32,
    pub y: i32,
}

/// The position that the persisted geometry fields hold: both have to be
/// there.
pub open spec fn position_of_fields(x: Option<i32>, y: Option<i32>) -> Option<Position> {
    match (x, y) {
        (Some(x), Some(y)) => Some(Position { x, y }),
        _ => None,
    }
}

/// Reads the persisted geometry fields; see [`position_of_fields`].
pub fn saved_position(x: Option<i32>, y: Option<i32>) -> (position: Option<Position>)
    ensures
        position == position_of_fields(x, y),
{
    match (x, y) {
        (Some(x), Some(y)) => Some(Position { x, y }),
        _ => None,
    }
}

/// Time that has to pass before the position is asked for again, in
/// nanoseconds: one second.
pub const QUERY_INTERVAL_NANOS: u128 = 1_000_000_000;

/// The tracker as contracts see it.
pub struct TrackerState {
    /// The last position that was noted or that a query gave.
    pub cached: Option<Position>,
    /// Whether a query has been answered since the window last became
    /// visible.
    pub asked: bool,
}

impl TrackerState {
    /// Nothing known, nothing asked.
    pub open spec fn initial() -> TrackerState {
        TrackerState { cached: None, asked: false }
    }

    /// Whether a query is due: only while the window is visible; then the
    /// first one always, and later ones once the interval has passed since
    /// the query before.
    pub open spec fn wants_query(self, visible: bool, elapsed_nanos: u128) -> bool {
        visible && (!self.asked || elapsed_nanos > QUERY_INTERVAL_NANOS)
    }

    /// After `position` has been noted.
    pub open spec fn noted(self, position: Position) -> TrackerState {
        TrackerState { cached: Some(position), asked: self.asked }
    }

    /// After a query has been answered.  A failed query leaves the cache as
    /// it was.
    pub open spec fn answered(self, reply: Option<Position>) -> TrackerState {
        TrackerState {
            cached: match reply {
                Some(position) => Some(position),
                None => self.cached,
            },
            asked: true,
        }
    }

    /// After the window has become visible: the next query is a first one.
    pub open spec fn shown(self) -> TrackerState {
        TrackerState { cached: self.cached, asked: false }
    }
}

/// The position to persist when the window is hidden or the application
/// quits: the cached one where there is one, else the one that a fresh query
/// gave, else none.
pub open spec fn position_to_persist(cached: Option<Position>, fresh: Option<Position>) -> Option<
    Position,
> {
    match cached {
        Some(position) => Some(position),
        None => fresh,
    }
}

/// Cache of the window's position and schedule of the queries that fill it.
pub struct PositionTracker {
    cached: Option<Position>,
    asked: bool,
}

impl View for PositionTracker {
    type V = TrackerState;

    closed spec fn view(&self) -> TrackerState {
        TrackerState { cached: self.cached, asked: self.asked }
    }
}

impl PositionTracker {
    /// A tracker that knows no position.
    pub fn new() -> (tracker: PositionTracker)
        ensures
            tracker@ == TrackerState::initial(),
    {
        PositionTracker { cached: None, asked: false }
    }

    /// The cached position.
    pub fn cached(&self) -> (position: Option<Position>)
        ensures
            position == self@.cached,
    {
        self.cached
    }

    /// Puts `position` into the cache.
    pub fn note(&mut self, position: Position)
        ensures
            final(self)@ == old(self)@.noted(position),
    {
        self.cached = Some(position);
    }

    /// Whether the host should ask the compositor for the position now.
    /// `elapsed_nanos` is the time since the last query was made.
    pub fn should_query(&self, visible: bool, elapsed_nanos: u128) -> (due: bool)
        ensures
            due == self@.wants_query(visible, elapsed_nanos),
    {
        visible && (!self.asked || elapsed_nanos > QUERY_INTERVAL_NANOS)
    }

    /// Hands in the answer to a query, `None` where it failed.
    pub fn record_reply(&mut self, reply: Option<Position>)
        ensures
            final(self)@ == old(self)@.answered(reply),
    {
        self.asked = true;
        match reply {
            Some(position) => {
                self.cached = Some(position);
            },
            None => {},
        }
    }

    /// Tells the tracker that the window has become visible.
    pub fn mark_shown(&mut self)
        ensures
            final(self)@ == old(self)@.shown(),
    {
        self.asked = false;
    }
}

/// What is left of a reply of the compositor's `GetPosition` method when the
/// white space around it, the opening brackets before it and the closing
/// brackets behind it are taken off.
pub open spec fn reply_body(reply: Seq<char>) -> Seq<char> {
    strip_trailing(strip_leading(trim(reply), CharClass::Only('(')), CharClass::Only(')'))
}

/// The position that a reply of `GetPosition` reports.
///
/// The reply reads `(x, y)`: two decimal integers with a comma between
/// them.  White space around either number is passed over; what follows a
/// second comma is not read.  A reply of another shape reports nothing, and
/// neither does one with a negative coordinate: that is how the compositor
/// says that it has found no window.
pub open spec fn reported_position(reply: Seq<char>) -> Option<Position> {
    let parts = split(reply_body(reply), ',');
    if parts.len() < 2 {
        None
    } else {
        match (parse_i32(trim(parts[0])), parse_i32(trim(parts[1]))) {
            (Some(x), Some(y)) => if x >= 0 && y >= 0 {
                Some(Position { x, y })
            } else {
                None
            },
            _ => None,
        }
    }
}

/// Reads the reply of the compositor's `GetPosition` method; see
/// [`reported_position`].
pub fn parse_position_reply(reply: &str) -> (position: Option<Position>)
    ensures
        position == reported_position(reply@),
{
    let chars = chars_of(reply);
    let inner = trimmed(chars.as_slice());
    let opened = crate::text::count_leading(inner, CharClass::Only('('));
    let after = slice_subrange(inner, opened, inner.len());
    let closed = crate::text::count_trailing(after, CharClass::Only(')'));
    let body = slice_subrange(after, 0, after.len() - closed);
    let parts = split_at_char(body, ',');
    if parts.len() < 2 {
        return None;
    }
    let x = match read_i32(trimmed(parts[0].as_slice())) {
        Some(x) => x,
        None => {
            return None;
        },
    };
    let y = match read_i32(trimmed(parts[1].as_slice())) {
        Some(y) => y,
        None => {
            return None;
        },
    };
    if x >= 0 && y >= 0 {
        Some(Position { x, y })
    } else {
        None
    }
}

} // verus!
