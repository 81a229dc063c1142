//! Window locator: finding the handle of the application's own window.
//!
//! During the first ticks after start-up input focus is inside the
//! application, so the window that holds focus is a descendant of the
//! application's top-level window.  The locator walks from that window up to
//! the display root, one parent query at a time, and keeps the handle once it
//! has one.  The queries themselves are made by the host; the decisions are
//! made here.

use vstd::prelude::*;

verus! {

/// Identifier of a top-level window in the display server's namespace.
#[derive(Clone, Copy, Debug, PartialEq, Eq, Structural)]
pub struct WindowHandle {
    pub id: u32,
}

impl WindowHandle {
    /// The window that an id names: the null id names none, every other id
    /// the window with that id.
    pub open spec fn of_id(id: u32) -> Option<WindowHandle> {
        if id == 0 {
            None
        } else {
            Some(WindowHandle { id })
        }
    }

    /// Reads a window id as it is kept where "no window" is written as 0.
    pub fn from_id(id: u32) -> (handle: Option<WindowHandle>)
        ensures
            handle == WindowHandle::of_id(id),
    {
        if id == 0 {
            None
        } else {
            Some(WindowHandle { id })
        }
    }
}

/// How many lookups are made before the search is given up for good.
pub const MAX_LOOKUP_ATTEMPTS: u32 = 10;

/// Progress of one walk up the window tree.
#[derive(Clone, Copy, Debug, PartialEq, Eq, Structural)]
pub struct AncestryWalk {
    /// The window that held input focus when the walk began.
    pub focus: u32,
    /// The window whose parent is asked for next.
    pub current: u32,
    /// The window visited just before `current`.
    pub client: u32,
}

/// What to do after a parent query has been answered.
#[derive(Clone, Copy, Debug, PartialEq, Eq, Structural)]
pub enum WalkStep {
    /// Ask for the parent of `current` of the walk inside.
    Ask(AncestryWalk),
    /// The walk has reached the root: this is the application's window.
    Found(WindowHandle),
}

/// The walk that starts at the focused window, or `None` where the focus
/// target is no window of an application: the ids 0 and 1 are the display
/// server's "none" and "pointer root", and the root belongs to no client.
pub open spec fn walk_start(focus: u32, root: u32) -> Option<AncestryWalk> {
    if focus <= 1 || focus == root {
        None
    } else {
        Some(AncestryWalk { focus, current: focus, client: focus })
    }
}

/// One step of the walk, given the parent of `walk.current`.
///
/// A parent that is the root (or absent) ends the walk.  The window reached
/// then is a child of the root: the focused window itself where nothing was
/// put around it, else the frame that a reparenting window manager put around
/// the client, and the client is the window visited just before.
pub open spec fn walk_step(walk: AncestryWalk, parent: u32, root: u32) -> WalkStep {
    if parent == root || parent == 0 {
        if walk.current == walk.focus {
            WalkStep::Found(WindowHandle { id: walk.current })
        } else {
            WalkStep::Found(WindowHandle { id: walk.client })
        }
    } else {
        WalkStep::Ask(AncestryWalk { focus: walk.focus, current: parent, client: walk.current })
    }
}

/// The whole walk, given the answers to its parent queries in order: the
/// handle it ends with, or `None` where the answers run out before the root
/// is reached.
pub open spec fn walk_all(walk: AncestryWalk, parents: Seq<u32>, root: u32) -> Option<
    WindowHandle,
>
    decreases parents.len(),
{
    if parents.len() == 0 {
        None
    } else {
        match walk_step(walk, parents[0], root) {
            WalkStep::Found(handle) => Some(handle),
            WalkStep::Ask(next) => walk_all(next, parents.drop_first(), root),
        }
    }
}

/// Begins a walk at the window that holds input focus.
pub fn begin_walk(focus: u32, root: u32) -> (walk: Option<AncestryWalk>)
    ensures
        walk == walk_start(focus, root),
{
    if focus <= 1 || focus == root {
        None
    } else {
        Some(AncestryWalk { focus, current: focus, client: focus })
    }
}

impl AncestryWalk {
    /// Takes the answer to the pending parent query and says how to go on.
    pub fn advance(self, parent: u32, root: u32) -> (step: WalkStep)
        ensures
            step == walk_step(self, parent, root),
    {
        if parent == root || parent == 0 {
            if self.current == self.focus {
                WalkStep::Found(WindowHandle { id: self.current })
            } else {
                WalkStep::Found(WindowHandle { id: self.client })
            }
        } else {
            WalkStep::Ask(AncestryWalk { focus: self.focus, current: parent, client: self.current })
        }
    }
}

/// Runs a whole walk over recorded answers.
///
/// `parents[0]` is the parent of the focused window, `parents[1]` the parent
/// of that window, and so on.  Answers after the one that ends the walk are
/// not read.
pub fn resolve_from_parents(focus: u32, root: u32, parents: &Vec<u32>) -> (handle: Option<
    WindowHandle,
>)
    ensures
        handle == match walk_start(focus, root) {
            Some(walk) => walk_all(walk, parents@, root),
            None => None,
        },
{
    let mut walk = match begin_walk(focus, root) {
        Some(walk) => walk,
        None => {
            return None;
        },
    };
    let ghost first = walk;
    let mut i: usize = 0;
    proof {
        assert(parents@.skip(0) == parents@);
    }
    while i < parents.len()
        invariant
            i <= parents.len(),
            walk_start(focus, root) == Some(first),
            walk_all(first, parents@, root) == walk_all(walk, parents@.skip(i as int), root),
        decreases parents.len() - i,
    {
        proof {
            assert(parents@.skip(i as int).drop_first() == parents@.skip(i + 1));
        }
        match walk.advance(parents[i], root) {
            WalkStep::Found(handle) => {
                return Some(handle);
            },
            WalkStep::Ask(next) => {
                walk = next;
            },
        }
        i = i + 1;
    }
    None
}

/// The locator as contracts see it.
pub struct LocatorState {
    /// Lookups made so far.
    pub attempts: nat,
    /// The handle, once a lookup has given one.
    pub handle: Option<WindowHandle>,
}

/// What a lookup result contributes: a handle with the null id is no handle.
pub open spec fn usable(found: Option<WindowHandle>) -> Option<WindowHandle> {
    match found {
        Some(handle) => if handle.id == 0 {
            None
        } else {
            Some(handle)
        },
        None => None,
    }
}

impl LocatorState {
    /// No lookup made, no handle known.
    pub open spec fn initial() -> LocatorState {
        LocatorState { attempts: 0, handle: None }
    }

    /// Whether another lookup is due: the handle is unknown and the attempts
    /// are not used up.
    pub open spec fn wants_lookup(self) -> bool {
        self.handle is None && self.attempts < MAX_LOOKUP_ATTEMPTS
    }

    /// The locator after the result of one lookup has been handed in.  Where
    /// no lookup was due the result is dropped.
    pub open spec fn record(self, found: Option<WindowHandle>) -> LocatorState {
        if self.wants_lookup() {
            LocatorState { attempts: self.attempts + 1, handle: usable(found) }
        } else {
            self
        }
    }

    /// The locator after a run of lookup results.
    pub open spec fn record_all(self, results: Seq<Option<WindowHandle>>) -> LocatorState
        decreases results.len(),
    {
        if results.len() == 0 {
            self
        } else {
            self.record_all(results.drop_last()).record(results.last())
        }
    }
}

/// Bounded-attempts search for the application's own window handle.
pub struct WindowLocator {
    attempts: u32,
    handle: Option<WindowHandle>,
}

impl View for WindowLocator {
    type V = LocatorState;

    closed spec fn view(&self) -> LocatorState {
        LocatorState { attempts: self.attempts as nat, handle: self.handle }
    }
}

impl WindowLocator {
    #[verifier::type_invariant]
    spec fn bounded(self) -> bool {
        self.attempts <= MAX_LOOKUP_ATTEMPTS
    }

    /// A locator that has not looked yet.
    pub fn new() -> (locator: WindowLocator)
        ensures
            locator@ == LocatorState::initial(),
    {
        WindowLocator { attempts: 0, handle: None }
    }

    /// Whether the host should make a lookup in this tick.
    pub fn should_attempt(&self) -> (due: bool)
        ensures
            due == self@.wants_lookup(),
    {
        self.handle.is_none() && self.attempts < MAX_LOOKUP_ATTEMPTS
    }

    /// Hands in the result of one lookup and returns the handle now known.
    ///
    /// A lookup that failed, by a protocol error or because focus was
    /// elsewhere, is handed in as `None`.  Once a handle is known it is kept:
    /// later results change nothing.  So do results handed in after the
    /// attempts are used up.
    pub fn locate_self(&mut self, found: Option<WindowHandle>) -> (handle: Option<WindowHandle>)
        ensures
            final(self)@ == old(self)@.record(found),
            handle == final(self)@.handle,
    {
        proof {
            use_type_invariant(&*self);
        }
        if self.handle.is_none() && self.attempts < MAX_LOOKUP_ATTEMPTS {
            self.attempts = self.attempts + 1;
            self.handle = match found {
                Some(h) => if h.id == 0 {
                    None
                } else {
                    Some(h)
                },
                None => None,
            };
        }
        self.handle
    }

    /// The handle, if it has been resolved.
    pub fn handle(&self) -> (handle: Option<WindowHandle>)
        ensures
            handle == self@.handle,
    {
        self.handle
    }

    /// The number of lookups made so far; never more than
    /// [`MAX_LOOKUP_ATTEMPTS`].
    pub fn attempts(&self) -> (attempts: u32)
        ensures
            attempts == self@.attempts,
            attempts <= MAX_LOOKUP_ATTEMPTS,
    {
        proof {
            use_type_invariant(self);
        }
        self.attempts
    }

    /// Whether the search has been given up: no handle, and no attempt left.
    pub fn abandoned(&self) -> (given_up: bool)
        ensures
            given_up == (self@.handle is None && self@.attempts >= MAX_LOOKUP_ATTEMPTS),
    {
        self.handle.is_none() && self.attempts >= MAX_LOOKUP_ATTEMPTS
    }
}

} // verus!
