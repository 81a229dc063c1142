//! The compositor-side helper and how it is called.
//!
//! Under the composited protocol the real position of a window, and the
//! power to move or activate it, lie with an extension that runs inside the
//! compositor.  It offers three methods on the session bus and finds the
//! window by its title.  The host reaches it with the command-line tool
//! named here; this module says with which arguments.

use vstd::prelude::*;
use crate::position::Position;
use crate::text::{decimal_text, format_i32, push_text, strings};

verus! {

/// The title by which the compositor finds the window.
pub const WINDOW_TITLE: &'static str = "SlickRun";

/// The command-line tool that makes calls on the session bus.
pub const BUS_TOOL: &'static str = "gdbus";

/// A method of the compositor-side helper.
#[derive(Clone, Copy, Debug, PartialEq, Eq, Structural)]
pub enum CompositorCall {
    /// `Activate()`
    Activate,
    /// `GetPosition() -> (x, y)`
    GetPosition,
    /// `MoveWindow(x, y)`
    MoveWindow(Position),
}

/// The full name of the method that `call` calls.
pub open spec fn method_name(call: CompositorCall) -> Seq<char> {
    match call {
        CompositorCall::Activate => "com.slickrun.Toggle.Activate"@,
        CompositorCall::GetPosition => "com.slickrun.Toggle.GetPosition"@,
        CompositorCall::MoveWindow(_) => "com.slickrun.Toggle.MoveWindow"@,
    }
}

/// The arguments of the bus tool for `call`: the destination, the object
/// path and the method, and for a move the two coordinates in decimal.
pub open spec fn call_arguments(call: CompositorCall) -> Seq<Seq<char>> {
    let fixed = seq![
        "call"@,
        "--session"@,
        "--dest"@,
        "org.gnome.Shell"@,
        "--object-path"@,
        "/com/slickrun/Toggle"@,
        "--method"@,
        method_name(call),
    ];
    match call {
        CompositorCall::MoveWindow(position) => fixed + seq![
            decimal_text(position.x as int),
            decimal_text(position.y as int),
        ],
        _ => fixed,
    }
}

/// The arguments to run the bus tool with for `call`.
pub fn bus_arguments(call: CompositorCall) -> (arguments: Vec<String>)
    ensures
        strings(arguments@) == call_arguments(call),
{
    let mut arguments: Vec<String> = Vec::new();
    push_text(&mut arguments, "call");
    push_text(&mut arguments, "--session");
    push_text(&mut arguments, "--dest");
    push_text(&mut arguments, "org.gnome.Shell");
    push_text(&mut arguments, "--object-path");
    push_text(&mut arguments, "/com/slickrun/Toggle");
    push_text(&mut arguments, "--method");
    match call {
        CompositorCall::Activate => {
            push_text(&mut arguments, "com.slickrun.Toggle.Activate");
        },
        CompositorCall::GetPosition => {
            push_text(&mut arguments, "com.slickrun.Toggle.GetPosition");
        },
        CompositorCall::MoveWindow(position) => {
            push_text(&mut arguments, "com.slickrun.Toggle.MoveWindow");
            let x = format_i32(position.x);
            let y = format_i32(position.y);
            push_text(&mut arguments, x.as_str());
            push_text(&mut arguments, y.as_str());
        },
    }
    arguments
}

} // verus!
