//! The desktop's own keyboard shortcut.
//!
//! Where the global hotkey cannot be grabbed, the desktop is given a custom
//! shortcut that activates the window through the compositor and then
//! writes to the trigger channel.  The desktop's settings tool is run by the
//! host; this module reads what it prints and says what to set.

use vstd::prelude::*;
use crate::settings::HotkeyConfig;
use crate::text::{
    ascii_lower,
    chars_of,
    concat3,
    contains,
    has_part,
    push_chars,
    split,
    split_at_char,
    string_of,
    strip,
    strip_leading,
    strip_trailing,
    stripped,
    texts,
    to_ascii_lower,
    trim,
    trimmed,
    chars_equal,
    count_leading,
    count_trailing,
    CharClass,
};
use vstd::slice::slice_subrange;

verus! {

/// Identifier of the compositor-side helper among the desktop's extensions.
pub const EXTENSION_UUID: &'static str = "slickrun-toggle@slickrun";

/// Settings path of the custom shortcut.
pub const SHORTCUT_PATH: &'static str =
    "/org/gnome/settings-daemon/plugins/media-keys/custom-keybindings/slickrun/";

/// What marks a list of shortcuts as holding ours already.
pub const SHORTCUT_MARKER: &'static str = "slickrun";

/// Name under which the custom shortcut is listed.
pub const SHORTCUT_NAME: &'static str = "SlickRun Toggle";

/// The key of a hotkey as the desktop writes it: a key of one ASCII
/// character in lower case, every other key as it is.
pub open spec fn binding_key(key: Seq<char>) -> Seq<char> {
    if key.len() == 1 && (key[0] as u32) < 0x80 {
        seq![ascii_lower(key[0])]
    } else {
        key
    }
}

/// The hotkey in the desktop's notation, such as `<Control>q`: the
/// modifiers in the order Super, Control, Shift, Alt, each in angle
/// brackets, then the key.
pub open spec fn binding_text(hotkey: &HotkeyConfig) -> Seq<char> {
    (if hotkey.super_key {
        "<Super>"@
    } else {
        Seq::empty()
    }) + (if hotkey.ctrl {
        "<Control>"@
    } else {
        Seq::empty()
    }) + (if hotkey.shift {
        "<Shift>"@
    } else {
        Seq::empty()
    }) + (if hotkey.alt {
        "<Alt>"@
    } else {
        Seq::empty()
    }) + binding_key(hotkey.key@)
}

/// Convert a hotkey to the desktop's keybinding format, e.g. `<Control>q`.
pub fn hotkey_to_gnome_binding(hotkey: &HotkeyConfig) -> (binding: String)
    ensures
        binding@ == binding_text(hotkey),
{
    let mut binding = String::new();
    if hotkey.super_key {
        push_chars(&mut binding, chars_of("<Super>").as_slice());
    }
    if hotkey.ctrl {
        push_chars(&mut binding, chars_of("<Control>").as_slice());
    }
    if hotkey.shift {
        push_chars(&mut binding, chars_of("<Shift>").as_slice());
    }
    if hotkey.alt {
        push_chars(&mut binding, chars_of("<Alt>").as_slice());
    }
    let key = chars_of(hotkey.key.as_str());
    if key.len() == 1 && (key[0] as u32) < 0x80 {
        binding.push(to_ascii_lower(key[0]));
    } else {
        push_chars(&mut binding, key.as_slice());
    }
    binding
}

/// One entry of a printed list: the part without the white space and the
/// quotes around it.
pub open spec fn list_entry(part: Seq<char>) -> Seq<char> {
    strip(trim(part), CharClass::Only('\''))
}

/// The entries that the parts of a printed list hold; empty ones are
/// dropped.
pub open spec fn kept_entries(parts: Seq<Seq<char>>) -> Seq<Seq<char>>
    decreases parts.len(),
{
    if parts.len() == 0 {
        Seq::empty()
    } else {
        let earlier = kept_entries(parts.drop_last());
        let entry = list_entry(parts.last());
        if entry.len() == 0 {
            earlier
        } else {
            earlier.push(entry)
        }
    }
}

/// The entries of a list as the settings tool prints it.  The tool prints
/// an empty list as `@as []`; else the entries stand in square brackets,
/// each in quotes, with commas between them.
pub open spec fn list_entries(printed: Seq<char>) -> Seq<Seq<char>> {
    if printed == "@as []"@ || printed.len() == 0 {
        Seq::empty()
    } else {
        kept_entries(
            split(
                strip_trailing(
                    strip_leading(printed, CharClass::Only('[')),
                    CharClass::Only(']'),
                ),
                ',',
            ),
        )
    }
}

/// The entries in quotes, with a comma and a blank between them.
pub open spec fn quoted_entries(entries: Seq<Seq<char>>) -> Seq<char>
    decreases entries.len(),
{
    if entries.len() == 0 {
        Seq::empty()
    } else if entries.len() == 1 {
        seq!['\''] + entries[0] + seq!['\'']
    } else {
        quoted_entries(entries.drop_last()) + seq![',', ' '] + seq!['\''] + entries.last() + seq![
            '\'',
        ]
    }
}

/// A list as the settings tool takes it.
pub open spec fn list_text(entries: Seq<Seq<char>>) -> Seq<char> {
    seq!['['] + quoted_entries(entries) + seq![']']
}

/// The list to set so that it holds `entry`, given what the settings tool
/// printed for the list; `None` where the printed list holds `marker`
/// already and is to be left alone.
pub open spec fn list_with(output: Seq<char>, marker: Seq<char>, entry: Seq<char>) -> Option<
    Seq<char>,
> {
    let printed = trim(output);
    if contains(printed, marker) {
        None
    } else {
        Some(list_text(list_entries(printed).push(entry)))
    }
}

/// Reads the entries of a printed list; see [`list_entries`].
pub fn read_list(printed: &[char]) -> (entries: Vec<Vec<char>>)
    ensures
        texts(entries@) == list_entries(printed@),
{
    let mut entries: Vec<Vec<char>> = Vec::new();
    if printed.len() == 0 || chars_equal(printed, chars_of("@as []").as_slice()) {
        return entries;
    }
    let opened = count_leading(printed, CharClass::Only('['));
    let after = slice_subrange(printed, opened, printed.len());
    let closed = count_trailing(after, CharClass::Only(']'));
    let body = slice_subrange(after, 0, after.len() - closed);
    let parts = split_at_char(body, ',');
    let mut i: usize = 0;
    while i < parts.len()
        invariant
            i <= parts.len(),
            texts(entries@) == kept_entries(texts(parts@).take(i as int)),
        decreases parts.len() - i,
    {
        let ghost before = texts(entries@);
        let entry = stripped(trimmed(parts[i].as_slice()), CharClass::Only('\''));
        proof {
            assert(texts(parts@).take(i + 1).drop_last() == texts(parts@).take(i as int));
        }
        if entry.len() > 0 {
            let mut copy: Vec<char> = Vec::new();
            copy.extend_from_slice(entry);
            entries.push(copy);
            proof {
                assert(copy@ == entry@);
                assert(texts(entries@) == before.push(entry@));
            }
        }
        i = i + 1;
    }
    proof {
        assert(texts(parts@).take(i as int) == texts(parts@));
    }
    entries
}

/// Writes a list as the settings tool takes it; see [`list_text`].
pub fn write_list(entries: &Vec<Vec<char>>) -> (text: Vec<char>)
    ensures
        text@ == list_text(texts(entries@)),
{
    let mut text: Vec<char> = Vec::new();
    text.push('[');
    let mut i: usize = 0;
    while i < entries.len()
        invariant
            i <= entries.len(),
            text@ == seq!['['] + quoted_entries(texts(entries@).take(i as int)),
        decreases entries.len() - i,
    {
        let ghost earlier = texts(entries@).take(i as int);
        let ghost upto = texts(entries@).take(i + 1);
        proof {
            assert(upto.drop_last() == earlier);
        }
        if i > 0 {
            text.push(',');
            text.push(' ');
        }
        text.push('\'');
        text.extend_from_slice(entries[i].as_slice());
        text.push('\'');
        i = i + 1;
    }
    proof {
        assert(texts(entries@).take(i as int) == texts(entries@));
    }
    text.push(']');
    text
}

/// Says what to set a list to so that it holds `entry`.
///
/// `output` is what the settings tool printed for the list.  Where that
/// holds `marker` the list is left alone and the result is `None`.
pub fn list_with_entry(output: &str, marker: &str, entry: &str) -> (value: Option<String>)
    ensures
        match value {
            Some(text) => list_with(output@, marker@, entry@) == Some(text@),
            None => list_with(output@, marker@, entry@) is None,
        },
{
    let raw = chars_of(output);
    let printed = trimmed(raw.as_slice());
    if has_part(printed, chars_of(marker).as_slice()) {
        return None;
    }
    let mut entries = read_list(printed);
    let ghost read = texts(entries@);
    entries.push(chars_of(entry));
    proof {
        assert(texts(entries@) =~= read.push(entry@));
    }
    let text = write_list(&entries);
    Some(string_of(text.as_slice()))
}

/// The list of enabled extensions with the compositor-side helper in it, or
/// `None` where the helper is enabled already.
pub fn enabled_extensions_with_helper(output: &str) -> (value: Option<String>)
    ensures
        match value {
            Some(text) => list_with(output@, EXTENSION_UUID@, EXTENSION_UUID@) == Some(text@),
            None => list_with(output@, EXTENSION_UUID@, EXTENSION_UUID@) is None,
        },
{
    list_with_entry(output, EXTENSION_UUID, EXTENSION_UUID)
}

/// The list of custom shortcuts with ours in it, or `None` where ours is
/// listed already.
pub fn custom_keybindings_with_shortcut(output: &str) -> (value: Option<String>)
    ensures
        match value {
            Some(text) => list_with(output@, SHORTCUT_MARKER@, SHORTCUT_PATH@) == Some(text@),
            None => list_with(output@, SHORTCUT_MARKER@, SHORTCUT_PATH@) is None,
        },
{
    list_with_entry(output, SHORTCUT_MARKER, SHORTCUT_PATH)
}

/// The command that the shortcut runs: it calls the compositor's `Activate`
/// method and then writes to the trigger channel at `pipe_path`.
pub open spec fn shortcut_command_text(pipe_path: Seq<char>) -> Seq<char> {
    "bash -c 'gdbus call --session --dest org.gnome.Shell --object-path /com/slickrun/Toggle --method com.slickrun.Toggle.Activate 2>/dev/null; echo t > "@
        + pipe_path + "'"@
}

/// The command that the desktop's shortcut runs.
pub fn shortcut_command(pipe_path: &str) -> (command: String)
    ensures
        command@ == shortcut_command_text(pipe_path@),
{
    let head = chars_of(
        "bash -c 'gdbus call --session --dest org.gnome.Shell --object-path /com/slickrun/Toggle --method com.slickrun.Toggle.Activate 2>/dev/null; echo t > ",
    );
    let tail = chars_of("'");
    concat3(head.as_slice(), chars_of(pipe_path).as_slice(), tail.as_slice())
}

/// Schema of the custom shortcut, with its path.
pub open spec fn shortcut_schema_text() -> Seq<char> {
    "org.gnome.settings-daemon.plugins.media-keys.custom-keybinding:"@ + SHORTCUT_PATH@
}

/// The schema under which the fields of the custom shortcut are set.
pub fn shortcut_schema() -> (schema: String)
    ensures
        schema@ == shortcut_schema_text(),
{
    let head = chars_of("org.gnome.settings-daemon.plugins.media-keys.custom-keybinding:");
    let nothing: Vec<char> = Vec::new();
    let schema = concat3(head.as_slice(), chars_of(SHORTCUT_PATH).as_slice(), nothing.as_slice());
    schema
}

} // verus!
