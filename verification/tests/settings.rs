use global_hotkey::hotkey::{Code, HotKey, Modifiers};
use slickrun::settings::{
    available_keys, default_true, key_index, key_name, plan_settings_change, HotkeyConfig, RegisterOutcome,
    SettingsStep, KEY_COUNT,
};

const KEYS: [&str; 39] = [
    "A", "B", "C", "D", "E", "F", "G", "H", "I", "J", "K", "L", "M", "N", "O", "P", "Q", "R",
    "S", "T", "U", "V", "W", "X", "Y", "Z", "F1", "F2", "F3", "F4", "F5", "F6", "F7", "F8",
    "F9", "F10", "F11", "F12", "Space",
];

fn hotkey(super_key: bool, ctrl: bool, shift: bool, alt: bool, key: &str) -> HotkeyConfig {
    HotkeyConfig { super_key, ctrl, shift, alt, key: key.to_string() }
}

#[test]
fn default_hotkey_is_win_shift_q() {
    let config = HotkeyConfig::default();
    assert!(config.super_key);
    assert!(!config.ctrl);
    assert!(config.shift);
    assert!(!config.alt);
    assert_eq!(config.key, "Q");
    assert_eq!(config.display_string(), "Win+Shift+Q");
}

#[test]
fn hotkey_is_shown_with_its_modifiers() {
    assert_eq!(hotkey(false, false, false, false, "Q").display_string(), "Q");
    assert_eq!(hotkey(false, true, false, false, "Q").display_string(), "Ctrl+Q");
    assert_eq!(hotkey(true, true, true, true, "F12").display_string(), "Win+Ctrl+Shift+Alt+F12");
    assert_eq!(hotkey(false, false, true, true, "Space").display_string(), "Shift+Alt+Space");
    assert_eq!(hotkey(false, false, false, true, "").display_string(), "Alt+");
}

#[test]
fn available_keys_in_order() {
    assert_eq!(KEY_COUNT, 39);
    let names = available_keys();
    assert_eq!(names, KEYS.iter().map(|k| k.to_string()).collect::<Vec<_>>());
    for (place, name) in KEYS.iter().enumerate() {
        assert_eq!(key_index(name), Some(place), "{}", name);
        assert_eq!(key_name(place), Some(name.to_string()));
    }
    assert_eq!(key_name(39), None);
    assert_eq!(key_name(usize::MAX), None);
}

#[test]
fn other_names_are_no_keys() {
    for name in [
        "", "a", "q", "AA", "F0", "F13", "F1 ", "f1", "FF", "F10x", "F20", "space", "SPACE",
        "Space ", "Enter", "1", "Ä", "F١",
    ] {
        assert_eq!(key_index(name), None, "{:?}", name);
    }
    assert_eq!(hotkey(false, true, false, false, "q").key_code_index(), None);
    assert_eq!(hotkey(false, true, false, false, "Q").key_code_index(), Some(16));
}

#[test]
fn change_of_hotkey_is_noticed() {
    let base = hotkey(true, false, true, false, "Q");
    assert!(!base.changed_to(&hotkey(true, false, true, false, "Q")));
    assert!(base.changed_to(&hotkey(false, false, true, false, "Q")));
    assert!(base.changed_to(&hotkey(true, true, true, false, "Q")));
    assert!(base.changed_to(&hotkey(true, false, false, false, "Q")));
    assert!(base.changed_to(&hotkey(true, false, true, true, "Q")));
    assert!(base.changed_to(&hotkey(true, false, true, false, "W")));
    assert!(base.changed_to(&hotkey(true, false, true, false, "q")));
}

#[test]
fn unchanged_hotkey_is_left_alone() {
    let old = hotkey(true, false, true, false, "Q");
    assert_eq!(
        plan_settings_change(&old, &old.clone(), true),
        vec![
            SettingsStep::Save,
            SettingsStep::Resize,
            SettingsStep::SetLevel { above: true },
            SettingsStep::UpdateAutostart,
        ]
    );
}

#[test]
fn changed_hotkey_is_swapped() {
    let old = hotkey(true, false, true, false, "Q");
    let new = hotkey(false, true, false, false, "Space");
    assert_eq!(
        plan_settings_change(&old, &new, false),
        vec![
            SettingsStep::UnregisterOld,
            SettingsStep::Save,
            SettingsStep::Resize,
            SettingsStep::SetLevel { above: false },
            SettingsStep::UpdateAutostart,
            SettingsStep::RegisterNew,
            SettingsStep::RegisterShortcut,
        ]
    );
}

#[test]
fn unknown_keys_are_not_registered() {
    let good = hotkey(true, false, true, false, "Q");
    let bad = hotkey(true, false, true, false, "Enter");
    assert_eq!(
        plan_settings_change(&bad, &good, true),
        vec![
            SettingsStep::Save,
            SettingsStep::Resize,
            SettingsStep::SetLevel { above: true },
            SettingsStep::UpdateAutostart,
            SettingsStep::RegisterNew,
            SettingsStep::RegisterShortcut,
        ]
    );
    assert_eq!(
        plan_settings_change(&good, &bad, true),
        vec![
            SettingsStep::UnregisterOld,
            SettingsStep::Save,
            SettingsStep::Resize,
            SettingsStep::SetLevel { above: true },
            SettingsStep::UpdateAutostart,
            SettingsStep::RegisterShortcut,
        ]
    );
}

#[test]
fn registration_outcomes() {
    assert!(RegisterOutcome::Registered.accepted());
    assert!(RegisterOutcome::AlreadyRegistered.accepted());
    assert!(!RegisterOutcome::Failed.accepted());
}

const CODES: [Code; 39] = [
    Code::KeyA, Code::KeyB, Code::KeyC, Code::KeyD, Code::KeyE, Code::KeyF, Code::KeyG,
    Code::KeyH, Code::KeyI, Code::KeyJ, Code::KeyK, Code::KeyL, Code::KeyM, Code::KeyN,
    Code::KeyO, Code::KeyP, Code::KeyQ, Code::KeyR, Code::KeyS, Code::KeyT, Code::KeyU,
    Code::KeyV, Code::KeyW, Code::KeyX, Code::KeyY, Code::KeyZ, Code::F1, Code::F2, Code::F3,
    Code::F4, Code::F5, Code::F6, Code::F7, Code::F8, Code::F9, Code::F10, Code::F11,
    Code::F12, Code::Space,
];

fn built_directly(config: &HotkeyConfig, code: Code) -> HotKey {
    let mut mods = Modifiers::empty();
    if config.super_key {
        mods |= Modifiers::SUPER;
    }
    if config.ctrl {
        mods |= Modifiers::CONTROL;
    }
    if config.shift {
        mods |= Modifiers::SHIFT;
    }
    if config.alt {
        mods |= Modifiers::ALT;
    }
    let mods = if mods.is_empty() { None } else { Some(mods) };
    HotKey::new(mods, code)
}

#[test]
fn hotkey_for_the_manager_is_the_one_built_directly() {
    for (place, name) in KEYS.iter().enumerate() {
        for bits in 0..16u8 {
            let config = hotkey(bits & 1 != 0, bits & 2 != 0, bits & 4 != 0, bits & 8 != 0, name);
            let expected = built_directly(&config, CODES[place]);
            let made = config.to_hotkey().unwrap();
            assert_eq!(made, expected, "{}", config.display_string());
            assert_eq!(made.id(), expected.id());
        }
    }
}

#[test]
fn default_hotkey_for_the_manager() {
    let made = HotkeyConfig::default().to_hotkey().unwrap();
    assert_eq!(made, HotKey::new(Some(Modifiers::SUPER | Modifiers::SHIFT), Code::KeyQ));
    assert_eq!(made.key, Code::KeyQ);
    assert_eq!(made.mods, Modifiers::META | Modifiers::SHIFT);
}

#[test]
fn no_hotkey_for_other_keys() {
    for name in ["", "q", "Enter", "KeyQ", "Tab", "shift", "Q+W", "F13", "1", " Q", "ctrl+Q"] {
        assert!(hotkey(true, false, false, false, name).to_hotkey().is_none(), "{:?}", name);
    }
}

#[test]
fn hotkey_text_for_the_parser() {
    assert_eq!(hotkey(true, false, true, false, "Q").to_hotkey_text(), "super+shift+Q");
    assert_eq!(hotkey(true, true, true, true, "F12").to_hotkey_text(), "super+ctrl+shift+alt+F12");
    assert_eq!(hotkey(false, false, false, false, "Space").to_hotkey_text(), "Space");
}

#[test]
fn settings_that_default_to_on() {
    assert!(default_true());
}
