//! Where the application keeps its files.
//!
//! The directories come from the environment, which the host reads; the
//! names below them are fixed here.

use vstd::prelude::*;
use crate::text::{chars_of, concat3, string_of};

verus! {

/// `name` below the directory `base`.
///
/// A name that begins at the root stands for itself.  Else the name follows
/// the base, after a separator unless the base is empty or ends with one.
pub open spec fn joined(base: Seq<char>, name: Seq<char>) -> Seq<char> {
    if name.len() > 0 && name[0] == '/' {
        name
    } else if base.len() == 0 || base.last() == '/' {
        base + name
    } else {
        base + seq!['/'] + name
    }
}

/// Joins a directory and a name; see [`joined`].
pub fn join(base: &str, name: &str) -> (path: String)
    ensures
        path@ == joined(base@, name@),
{
    let dir = chars_of(base);
    let leaf = chars_of(name);
    if leaf.len() > 0 && leaf[0] == '/' {
        string_of(leaf.as_slice())
    } else if dir.len() == 0 || dir[dir.len() - 1] == '/' {
        let nothing: Vec<char> = Vec::new();
        let path = concat3(dir.as_slice(), nothing.as_slice(), leaf.as_slice());
        path
    } else {
        let separator: Vec<char> = vec!['/'];
        let path = concat3(dir.as_slice(), separator.as_slice(), leaf.as_slice());
        path
    }
}

/// The directory to use where the environment names none for the
/// configuration: the working directory.
pub open spec fn or_here(dir: Option<&str>) -> Seq<char> {
    match dir {
        Some(dir) => dir@,
        None => "."@,
    }
}

/// Path of the endpoint of the inter-process trigger channel: in the
/// runtime directory where the environment names one, else at a fixed place
/// under `/tmp`.
pub open spec fn pipe_path(runtime_dir: Option<&str>) -> Seq<char> {
    match runtime_dir {
        Some(dir) => joined(dir@, "slickrun-toggle"@),
        None => "/tmp/slickrun-toggle"@,
    }
}

/// Path of the endpoint of the inter-process trigger channel.
pub fn toggle_pipe_path(runtime_dir: Option<&str>) -> (path: String)
    ensures
        path@ == pipe_path(runtime_dir),
{
    match runtime_dir {
        Some(dir) => join(dir, "slickrun-toggle"),
        None => string_of(chars_of("/tmp/slickrun-toggle").as_slice()),
    }
}

/// `file` in the directory `folder` below the configuration directory.
fn config_file(config_dir: Option<&str>, folder: &str, file: &str) -> (path: String)
    ensures
        path@ == joined(joined(or_here(config_dir), folder@), file@),
{
    let base = match config_dir {
        Some(dir) => join(dir, folder),
        None => join(".", folder),
    };
    join(base.as_str(), file)
}

/// Path of the settings file.
pub fn config_path(config_dir: Option<&str>) -> (path: String)
    ensures
        path@ == joined(joined(or_here(config_dir), "slickrun"@), "config.json"@),
{
    config_file(config_dir, "slickrun", "config.json")
}

/// Path of the file that magic words are exported to and imported from.
pub fn export_path(config_dir: Option<&str>) -> (path: String)
    ensures
        path@ == joined(joined(or_here(config_dir), "slickrun"@), "magic_words.json"@),
{
    config_file(config_dir, "slickrun", "magic_words.json")
}

/// Path of the entry that starts the application at login.
pub fn autostart_path(config_dir: Option<&str>) -> (path: String)
    ensures
        path@ == joined(joined(or_here(config_dir), "autostart"@), "slickrun.desktop"@),
{
    config_file(config_dir, "autostart", "slickrun.desktop")
}

/// What the autostart entry holds for the executable at `exe`.
pub open spec fn desktop_entry_text(exe: Seq<char>) -> Seq<char> {
    "[Desktop Entry]\nType=Application\nName=SlickRun\nExec="@ + exe
        + "\nStartupNotify=false\nTerminal=false\n"@
}

/// The contents of the autostart entry.
pub fn desktop_entry(exe: &str) -> (entry: String)
    ensures
        entry@ == desktop_entry_text(exe@),
{
    let head = chars_of("[Desktop Entry]\nType=Application\nName=SlickRun\nExec=");
    let tail = chars_of("\nStartupNotify=false\nTerminal=false\n");
    concat3(head.as_slice(), chars_of(exe).as_slice(), tail.as_slice())
}

} // verus!
