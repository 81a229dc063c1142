//! The hotkey that the user has configured, and what changing the settings
//! entails.

use vstd::prelude::*;
use crate::text::{chars_equal, chars_of, lemma_char_code, push_chars, string_of};
use global_hotkey::hotkey::{HotKey, HotKeyParseError};

verus! {

/// A hotkey as the hotkey manager takes it.  What is inside is the
/// manager's business.
#[verifier::external_type_specification]
#[verifier::external_body]
pub struct ExHotKey(HotKey);

/// What the hotkey manager's parser says of a text that it cannot read.
#[verifier::external_type_specification]
#[verifier::external_body]
pub struct ExHotKeyParseError(HotKeyParseError);

/// A key with the modifiers that have to be held with it.
#[derive(Clone, Debug)]
pub struct HotkeyConfig {
    pub super_key: bool,
    pub ctrl: bool,
    pub shift: bool,
    pub alt: bool,
    pub key: String,
}

impl Default for HotkeyConfig {
    fn default() -> (config: HotkeyConfig)
        ensures
            config.super_key,
            !config.ctrl,
            config.shift,
            !config.alt,
            config.key@ == "Q"@,
    {
        HotkeyConfig {
            super_key: true,
            ctrl: false,
            shift: true,
            alt: false,
            key: string_of(chars_of("Q").as_slice()),
        }
    }
}

/// Number of keys that a hotkey can be made of.
pub const KEY_COUNT: usize = 39;

/// Place of a key name in the list of available keys: the letters `A` to
/// `Z` come first, then `F1` to `F12`, then `Space`.  `None` for every other
/// name; names are taken as written, upper case.
pub open spec fn key_place(name: Seq<char>) -> Option<int> {
    if name.len() == 1 && 0x41 <= name[0] as u32 <= 0x5A {
        Some(name[0] as u32 - 0x41)
    } else if name.len() == 2 && name[0] == 'F' && 0x31 <= name[1] as u32 <= 0x39 {
        Some(26 + (name[1] as u32 - 0x31))
    } else if name.len() == 3 && name[0] == 'F' && name[1] == '1' && 0x30 <= name[2] as u32
        <= 0x32 {
        Some(35 + (name[2] as u32 - 0x30))
    } else if name == "Space"@ {
        Some(38)
    } else {
        None
    }
}

/// The name of the key at `place` in the list of available keys.
pub open spec fn key_name_at(place: int) -> Seq<char> {
    if 0 <= place < 26 {
        seq![(0x41 + place) as char]
    } else if 26 <= place < 35 {
        seq!['F', (0x31 + place - 26) as char]
    } else if 35 <= place < 38 {
        seq!['F', '1', (0x30 + place - 35) as char]
    } else {
        "Space"@
    }
}

/// Every available key has its own place, and the name at a place has that
/// place.
pub proof fn law_key_names_have_places(place: int)
    requires
        0 <= place < KEY_COUNT,
    ensures
        key_place(key_name_at(place)) == Some(place),
{
    reveal_strlit("Space");
}

/// A name that has a place is the name at that place.
pub proof fn law_key_places_have_names(name: Seq<char>)
    requires
        key_place(name) is Some,
    ensures
        0 <= key_place(name)->0 < KEY_COUNT,
        key_name_at(key_place(name)->0) == name,
{
    reveal_strlit("Space");
    if name.len() == 1 && 0x41 <= name[0] as u32 <= 0x5A {
        lemma_char_code(name[0]);
    } else if name.len() == 2 && name[0] == 'F' && 0x31 <= name[1] as u32 <= 0x39 {
        lemma_char_code(name[1]);
    } else if name.len() == 3 && name[0] == 'F' && name[1] == '1' && 0x30 <= name[2] as u32
        <= 0x32 {
        lemma_char_code(name[2]);
    }
}

/// Looks a key name up in the list of available keys.
pub fn key_index(name: &str) -> (place: Option<usize>)
    ensures
        match place {
            Some(i) => key_place(name@) == Some(i as int),
            None => key_place(name@) is None,
        },
{
    let chars = chars_of(name);
    let n = chars.len();
    if n == 1 {
        let code: u32 = chars[0] as u32;
        if 0x41 <= code && code <= 0x5A {
            return Some((code - 0x41) as usize);
        }
    }
    if n == 2 && chars[0] == 'F' {
        let code: u32 = chars[1] as u32;
        if 0x31 <= code && code <= 0x39 {
            return Some(26 + (code - 0x31) as usize);
        }
    }
    if n == 3 && chars[0] == 'F' && chars[1] == '1' {
        let code: u32 = chars[2] as u32;
        if 0x30 <= code && code <= 0x32 {
            return Some(35 + (code - 0x30) as usize);
        }
    }
    proof {
        reveal_strlit("Space");
    }
    if chars_equal(chars.as_slice(), chars_of("Space").as_slice()) {
        return Some(38);
    }
    None
}

/// The name of the key at `place` in the list of available keys, `None`
/// behind the end of the list.
pub fn key_name(place: usize) -> (name: Option<String>)
    ensures
        place < KEY_COUNT ==> name is Some && name->0@ == key_name_at(place as int),
        place >= KEY_COUNT ==> name is None,
{
    let mut out = String::new();
    if place < 26 {
        out.push((0x41 + place as u8) as char);
    } else if place < 35 {
        out.push('F');
        out.push((0x31 + (place - 26) as u8) as char);
    } else if place < 38 {
        out.push('F');
        out.push('1');
        out.push((0x30 + (place - 35) as u8) as char);
    } else if place == 38 {
        push_chars(&mut out, chars_of("Space").as_slice());
    } else {
        return None;
    }
    Some(out)
}

/// The names of all available keys, in the order of the list.
pub fn available_keys() -> (names: Vec<String>)
    ensures
        names@.len() == KEY_COUNT,
        forall|i: int| 0 <= i < KEY_COUNT ==> (#[trigger] names@[i])@ == key_name_at(i),
{
    let mut names: Vec<String> = Vec::new();
    let mut place: usize = 0;
    while place < KEY_COUNT
        invariant
            place <= KEY_COUNT,
            names@.len() == place,
            forall|i: int| 0 <= i < place ==> (#[trigger] names@[i])@ == key_name_at(i),
        decreases KEY_COUNT - place,
    {
        match key_name(place) {
            Some(name) => {
                names.push(name);
            },
            None => {},
        }
        place = place + 1;
    }
    names
}

/// A hotkey written for the hotkey manager's parser: a word and a `+` for
/// each modifier, in the order super, ctrl, shift, alt, then the key.
pub open spec fn hotkey_text_of(super_key: bool, ctrl: bool, shift: bool, alt: bool, key: Seq<char>)
    -> Seq<char> {
    (if super_key {
        "super+"@
    } else {
        Seq::empty()
    }) + (if ctrl {
        "ctrl+"@
    } else {
        Seq::empty()
    }) + (if shift {
        "shift+"@
    } else {
        Seq::empty()
    }) + (if alt {
        "alt+"@
    } else {
        Seq::empty()
    }) + key
}

/// Whether `text` writes a hotkey of an available key with some of the four
/// modifiers.
pub open spec fn is_hotkey_text(text: Seq<char>) -> bool {
    exists|super_key: bool, ctrl: bool, shift: bool, alt: bool, key: Seq<char>|
        key_place(key) is Some && text == #[trigger] hotkey_text_of(
            super_key,
            ctrl,
            shift,
            alt,
            key,
        )
}

/// Calls `HotKey::from_str` of the hotkey manager's crate, which reads a
/// hotkey from a text.
///
/// Taken on trust, not proved here: the parser reads every text that
/// [`is_hotkey_text`] admits.  It splits the text at `+`, takes `super`,
/// `ctrl`, `shift` and `alt` for modifiers and knows each of the available
/// keys by its name.  Nothing is claimed of the hotkey that it returns.
#[verifier::external_body]
fn parse_hotkey(text: &str) -> (parsed: Result<HotKey, HotKeyParseError>)
    ensures
        is_hotkey_text(text@) ==> parsed is Ok,
{
    text.parse::<HotKey>()
}

impl HotkeyConfig {
    /// The hotkey as shown to the user: the modifiers in the order Win,
    /// Ctrl, Shift, Alt, then the key, with `+` between them.
    pub open spec fn display_text(&self) -> Seq<char> {
        (if self.super_key {
            "Win+"@
        } else {
            Seq::empty()
        }) + (if self.ctrl {
            "Ctrl+"@
        } else {
            Seq::empty()
        }) + (if self.shift {
            "Shift+"@
        } else {
            Seq::empty()
        }) + (if self.alt {
            "Alt+"@
        } else {
            Seq::empty()
        }) + self.key@
    }

    /// Whether the key is one of the available keys, so that the hotkey can
    /// be registered.
    pub open spec fn is_valid(&self) -> bool {
        key_place(self.key@) is Some
    }

    /// Whether `other` asks for another hotkey than this one.
    pub open spec fn differs_from(&self, other: &HotkeyConfig) -> bool {
        self.key@ != other.key@ || self.super_key != other.super_key || self.ctrl != other.ctrl
            || self.shift != other.shift || self.alt != other.alt
    }

    /// The hotkey in the form shown to the user, such as `Win+Shift+Q`.
    pub fn display_string(&self) -> (shown: String)
        ensures
            shown@ == self.display_text(),
    {
        let mut shown = String::new();
        if self.super_key {
            push_chars(&mut shown, chars_of("Win+").as_slice());
        }
        if self.ctrl {
            push_chars(&mut shown, chars_of("Ctrl+").as_slice());
        }
        if self.shift {
            push_chars(&mut shown, chars_of("Shift+").as_slice());
        }
        if self.alt {
            push_chars(&mut shown, chars_of("Alt+").as_slice());
        }
        push_chars(&mut shown, chars_of(self.key.as_str()).as_slice());
        shown
    }

    /// The place of the key in the list of available keys, if it is one of
    /// them.
    pub fn key_code_index(&self) -> (place: Option<usize>)
        ensures
            place is Some <==> self.is_valid(),
            place is Some ==> key_place(self.key@) == Some(place->0 as int),
    {
        key_index(self.key.as_str())
    }

    /// The hotkey as written for the hotkey manager's parser.
    pub open spec fn hotkey_text(&self) -> Seq<char> {
        hotkey_text_of(self.super_key, self.ctrl, self.shift, self.alt, self.key@)
    }

    /// Writes the hotkey for the hotkey manager's parser, such as
    /// `super+shift+Q`.
    pub fn to_hotkey_text(&self) -> (text: String)
        ensures
            text@ == self.hotkey_text(),
    {
        let mut text = String::new();
        if self.super_key {
            push_chars(&mut text, chars_of("super+").as_slice());
        }
        if self.ctrl {
            push_chars(&mut text, chars_of("ctrl+").as_slice());
        }
        if self.shift {
            push_chars(&mut text, chars_of("shift+").as_slice());
        }
        if self.alt {
            push_chars(&mut text, chars_of("alt+").as_slice());
        }
        push_chars(&mut text, chars_of(self.key.as_str()).as_slice());
        text
    }

    /// The hotkey in the form that the hotkey manager takes, if the key is
    /// one of the available keys.  A key of another name gives no hotkey,
    /// whatever the manager's parser would make of it.
    pub fn to_hotkey(&self) -> (hotkey: Option<HotKey>)
        ensures
            hotkey is Some <==> self.is_valid(),
    {
        if self.key_code_index().is_none() {
            return None;
        }
        let text = self.to_hotkey_text();
        match parse_hotkey(text.as_str()) {
            Ok(hotkey) => Some(hotkey),
            Err(_) => None,
        }
    }

    /// Whether `other` asks for another hotkey than this one.
    pub fn changed_to(&self, other: &HotkeyConfig) -> (changed: bool)
        ensures
            changed == self.differs_from(other),
    {
        let mine = chars_of(self.key.as_str());
        let theirs = chars_of(other.key.as_str());
        !chars_equal(mine.as_slice(), theirs.as_slice()) || self.super_key != other.super_key
            || self.ctrl != other.ctrl || self.shift != other.shift || self.alt != other.alt
    }
}

/// The value of a setting that is on unless the stored settings say
/// otherwise, as "stay on top" is.
pub fn default_true() -> (on: bool)
    ensures
        on,
{
    true
}

/// How an attempt to register a hotkey ended.
#[derive(Clone, Copy, Debug, PartialEq, Eq, Structural)]
pub enum RegisterOutcome {
    Registered,
    /// The hotkey was registered before; that is as good.
    AlreadyRegistered,
    Failed,
}

impl RegisterOutcome {
    /// Whether the hotkey is now the one that toggles the bar.
    pub open spec fn holds(self) -> bool {
        self != RegisterOutcome::Failed
    }

    /// Whether events with the id of the hotkey are to be taken as toggles
    /// from now on.
    pub fn accepted(self) -> (held: bool)
        ensures
            held == self.holds(),
    {
        match self {
            RegisterOutcome::Registered => true,
            RegisterOutcome::AlreadyRegistered => true,
            RegisterOutcome::Failed => false,
        }
    }
}

/// One thing to do when new settings are applied.
#[derive(Clone, Copy, Debug, PartialEq, Eq, Structural)]
pub enum SettingsStep {
    /// Take the old hotkey back from the hotkey manager.
    UnregisterOld,
    /// Put the new settings in place of the old and write them out.
    Save,
    /// Give the window the configured size.
    Resize,
    /// Put the window above the others, or among them.
    SetLevel { above: bool },
    /// Write or remove the entry that starts the application at login.
    UpdateAutostart,
    /// Give the new hotkey to the hotkey manager.
    RegisterNew,
    /// Point the desktop's own keyboard shortcut at the new hotkey.
    RegisterShortcut,
}

/// The steps that applying new settings takes, in order.
///
/// A hotkey that has not changed is left alone.  One that has is taken back
/// first, if it could be registered at all, and the new one is registered
/// last, if it can be; the desktop's shortcut follows in any case.
pub open spec fn settings_steps(old: &HotkeyConfig, new: &HotkeyConfig, stay_on_top: bool) -> Seq<
    SettingsStep,
> {
    let changed = old.differs_from(new);
    (if changed && old.is_valid() {
        seq![SettingsStep::UnregisterOld]
    } else {
        Seq::empty()
    }) + seq![
        SettingsStep::Save,
        SettingsStep::Resize,
        SettingsStep::SetLevel { above: stay_on_top },
        SettingsStep::UpdateAutostart,
    ] + (if changed && new.is_valid() {
        seq![SettingsStep::RegisterNew]
    } else {
        Seq::empty()
    }) + (if changed {
        seq![SettingsStep::RegisterShortcut]
    } else {
        Seq::empty()
    })
}

/// Says what applying new settings takes; see [`settings_steps`].
pub fn plan_settings_change(old: &HotkeyConfig, new: &HotkeyConfig, stay_on_top: bool) -> (steps:
    Vec<SettingsStep>)
    ensures
        steps@ == settings_steps(old, new, stay_on_top),
{
    let changed = old.changed_to(new);
    let mut steps: Vec<SettingsStep> = Vec::new();
    if changed && old.key_code_index().is_some() {
        steps.push(SettingsStep::UnregisterOld);
    }
    steps.push(SettingsStep::Save);
    steps.push(SettingsStep::Resize);
    steps.push(SettingsStep::SetLevel { above: stay_on_top });
    steps.push(SettingsStep::UpdateAutostart);
    if changed && new.key_code_index().is_some() {
        steps.push(SettingsStep::RegisterNew);
    }
    if changed {
        steps.push(SettingsStep::RegisterShortcut);
    }
    steps
}

} // verus!
