use slickrun::commands::{CommandKind, MagicWord, PromptDecision, StartMode};
use slickrun::engine::{Coordinator, Effect, VisibilityState};
use slickrun::icon::{create_icon, ICON_BYTES, ICON_SIZE};
use slickrun::library::{
    delete_word, filtered_indices, rows_matching, CommitOutcome, EditForm, LoweredRow,
};
use slickrun::locator::WindowHandle;
use slickrun::mailbox::Mailbox;
use slickrun::position::{saved_position, Position};
use slickrun::signals::{ToggleSignal, TrayAction};

fn word(keyword: &str, target: &str) -> MagicWord {
    MagicWord {
        keyword: keyword.to_string(),
        filename_or_url: target.to_string(),
        start_mode: StartMode::Normal,
        start_path: None,
        parameters: None,
    }
}

fn form(keyword: &str, target: &str, editing_index: Option<usize>) -> EditForm {
    EditForm {
        keyword: keyword.to_string(),
        filename_or_url: target.to_string(),
        start_mode: StartMode::Sudo,
        start_path: String::new(),
        parameters: "-v $W$".to_string(),
        editing_index,
    }
}

fn keywords(words: &[MagicWord]) -> Vec<&str> {
    words.iter().map(|w| w.keyword.as_str()).collect()
}

#[test]
fn new_form_is_empty() {
    let form = EditForm::new();
    assert_eq!(form.keyword, "");
    assert_eq!(form.filename_or_url, "");
    assert_eq!(form.start_mode, StartMode::Normal);
    assert_eq!(form.start_path, "");
    assert_eq!(form.parameters, "");
    assert_eq!(form.editing_index, None);
    assert!(form.to_word().is_none());
}

#[test]
fn selecting_fills_the_form() {
    let mut source = word("up", "apt");
    source.start_mode = StartMode::Sudo;
    source.parameters = Some("update".to_string());
    let form = EditForm::select(4, &source);
    assert_eq!(form.keyword, "up");
    assert_eq!(form.filename_or_url, "apt");
    assert_eq!(form.start_mode, StartMode::Sudo);
    assert_eq!(form.start_path, "");
    assert_eq!(form.parameters, "update");
    assert_eq!(form.editing_index, Some(4));
}

#[test]
fn form_describes_a_magic_word() {
    let made = form("g", "https://g/", None).to_word().unwrap();
    assert_eq!(made.keyword, "g");
    assert_eq!(made.filename_or_url, "https://g/");
    assert_eq!(made.start_mode, StartMode::Sudo);
    assert_eq!(made.start_path, None);
    assert_eq!(made.parameters, Some("-v $W$".to_string()));
    assert!(form("", "x", None).to_word().is_none());
    assert!(form("x", "", None).to_word().is_none());
}

#[test]
fn commit_adds_updates_or_rejects() {
    let mut words = vec![word("a", "1"), word("b", "2")];
    assert_eq!(form("c", "3", None).commit(&mut words), CommitOutcome::Added);
    assert_eq!(keywords(&words), vec!["a", "b", "c"]);
    assert_eq!(form("B", "two", Some(1)).commit(&mut words), CommitOutcome::Updated);
    assert_eq!(keywords(&words), vec!["a", "B", "c"]);
    assert_eq!(words[1].filename_or_url, "two");
    assert_eq!(form("d", "4", Some(3)).commit(&mut words), CommitOutcome::Rejected);
    assert_eq!(form("", "4", None).commit(&mut words), CommitOutcome::Rejected);
    assert_eq!(form("d", "", Some(0)).commit(&mut words), CommitOutcome::Rejected);
    assert_eq!(keywords(&words), vec!["a", "B", "c"]);
}

#[test]
fn deleting_takes_one_word_out() {
    let mut words = vec![word("a", "1"), word("b", "2"), word("c", "3")];
    assert!(delete_word(&mut words, 1));
    assert_eq!(keywords(&words), vec!["a", "c"]);
    assert!(!delete_word(&mut words, 2));
    assert_eq!(keywords(&words), vec!["a", "c"]);
    assert!(delete_word(&mut words, 0));
    assert!(delete_word(&mut words, 0));
    assert!(!delete_word(&mut words, 0));
}

#[test]
fn filter_keeps_rows_that_hold_it() {
    let words = vec![
        word("Google", "https://www.google.com"),
        word("mail", "Thunderbird"),
        word("ls", "ls"),
        word("GO", "firefox"),
    ];
    assert_eq!(filtered_indices(&words, ""), vec![0, 1, 2, 3]);
    assert_eq!(filtered_indices(&words, "go"), vec![0, 3]);
    assert_eq!(filtered_indices(&words, "GOOG"), vec![0]);
    assert_eq!(filtered_indices(&words, "thunder"), vec![1]);
    assert_eq!(filtered_indices(&words, "l"), vec![0, 1, 2]);
    assert_eq!(filtered_indices(&words, "zzz"), Vec::<usize>::new());
    assert_eq!(filtered_indices(&[], "x"), Vec::<usize>::new());
    let rows = vec![
        LoweredRow { keyword: "a".to_string(), filename_or_url: "xb".to_string() },
        LoweredRow { keyword: "b".to_string(), filename_or_url: "y".to_string() },
        LoweredRow { keyword: "c".to_string(), filename_or_url: "z".to_string() },
    ];
    assert_eq!(rows_matching(&rows, "b"), vec![0, 1]);
    assert_eq!(rows_matching(&rows, "B"), Vec::<usize>::new());
    assert_eq!(rows_matching(&rows, ""), vec![0, 1, 2]);
}

#[test]
fn icon_is_a_green_disc() {
    let rgba = create_icon();
    assert_eq!(rgba.len(), ICON_BYTES);
    assert_eq!(ICON_SIZE, 32);
    let mut expected = vec![0u8; 32 * 32 * 4];
    for y in 0..32u32 {
        for x in 0..32u32 {
            let index = ((y * 32 + x) * 4) as usize;
            let cx = (x as f32) - 15.5;
            let cy = (y as f32) - 15.5;
            if cx * cx + cy * cy <= 14.0 * 14.0 {
                expected[index] = 0;
                expected[index + 1] = 200;
                expected[index + 2] = 120;
                expected[index + 3] = 255;
            }
        }
    }
    assert_eq!(rgba, expected);
    assert_eq!(&rgba[0..4], &[0, 0, 0, 0]);
    let middle = (16 * 32 + 16) * 4;
    assert_eq!(&rgba[middle..middle + 4], &[0, 200, 120, 255]);
}

#[test]
fn geometry_fields_give_a_position_when_both_are_there() {
    assert_eq!(saved_position(Some(120), Some(340)), Some(Position { x: 120, y: 340 }));
    assert_eq!(saved_position(Some(120), None), None);
    assert_eq!(saved_position(None, Some(340)), None);
    assert_eq!(saved_position(None, None), None);
}

#[test]
fn mailbox_hands_over_what_was_left() {
    let mailbox = Mailbox::new();
    assert!(mailbox.take(&vec![], 1).is_empty());
    mailbox.signal_pipe();
    mailbox.signal_pipe();
    assert_eq!(mailbox.post_menu_event("settings"), (TrayAction::OpenSettings, None));
    assert_eq!(mailbox.post_menu_event("show_hide"), (TrayAction::ToggleVisibility, None));
    assert_eq!(
        mailbox.take(&vec![1, 2, 1], 1),
        vec![
            ToggleSignal::PipeSignal,
            ToggleSignal::Hotkey,
            ToggleSignal::Hotkey,
            ToggleSignal::TrayAction(TrayAction::ToggleVisibility),
        ]
    );
    assert!(mailbox.take(&vec![], 1).is_empty());
    mailbox.post_menu_event("quit");
    mailbox.post_menu_event("no such entry");
    assert!(mailbox.take(&vec![], 1).is_empty());
    mailbox.post_menu_event("quit");
    assert_eq!(mailbox.take(&vec![], 1), vec![ToggleSignal::TrayAction(TrayAction::Quit)]);
}

#[test]
fn mailbox_publishes_the_window() {
    let mailbox = Mailbox::new();
    assert_eq!(mailbox.published_window(), None);
    mailbox.publish_window(WindowHandle { id: 0x77 });
    assert_eq!(mailbox.published_window(), Some(WindowHandle { id: 0x77 }));
    assert_eq!(
        mailbox.post_menu_event("show_hide"),
        (TrayAction::ToggleVisibility, Some(WindowHandle { id: 0x77 }))
    );
}

#[test]
fn mailbox_is_shared_by_reference() {
    let mailbox = std::sync::Arc::new(Mailbox::new());
    let producer = mailbox.clone();
    producer.signal_pipe();
    assert_eq!(mailbox.take(&vec![], 0), vec![ToggleSignal::PipeSignal]);
}

#[test]
fn committed_commands_drive_the_engine() {
    let mut engine = Coordinator::new(None, true, false);
    engine.note(Position { x: 1, y: 2 });
    assert!(engine.on_command(CommandKind::Nothing).is_empty());
    assert_eq!(engine.visibility(), VisibilityState::Visible);
    assert_eq!(engine.on_command(CommandKind::OpenSettings), vec![Effect::OpenSettings]);
    assert!(engine.settings_open());
    engine.settings_closed();
    assert_eq!(
        engine.on_command(CommandKind::Run),
        vec![Effect::Persist(Position { x: 1, y: 2 }), Effect::Minimize]
    );
    assert_eq!(engine.visibility(), VisibilityState::Hidden);
    engine.show_window();
    assert_eq!(engine.on_command(CommandKind::Shell).last(), Some(&Effect::Minimize));
    engine.show_window();
    assert_eq!(
        engine.on_command(CommandKind::Quit),
        vec![Effect::Persist(Position { x: 1, y: 2 }), Effect::RemoveChannel, Effect::Shutdown]
    );
    assert!(engine.on_command(CommandKind::Run).is_empty());
}

#[test]
fn prompt_keeps_the_bar_until_it_is_answered() {
    let mut engine = Coordinator::new(None, true, false);
    engine.on_focus_sample(true);
    assert!(engine.on_prompt(PromptDecision::Submit).is_empty());
    assert_eq!(engine.visibility(), VisibilityState::Visible);
    assert!(engine.on_command(CommandKind::Prompt).is_empty());
    assert!(engine.prompt_pending());
    assert_eq!(engine.visibility(), VisibilityState::Visible);
    assert!(engine.on_focus_sample(false).is_empty());
    assert!(engine.on_focus_sample(true).is_empty());
    assert!(engine.on_prompt(PromptDecision::Keep).is_empty());
    assert!(engine.prompt_pending());
    assert!(engine.on_prompt(PromptDecision::Cancel).is_empty());
    assert!(!engine.prompt_pending());
    assert_eq!(engine.visibility(), VisibilityState::Visible);
    engine.on_command(CommandKind::Prompt);
    assert_eq!(
        engine.on_prompt(PromptDecision::Submit),
        vec![Effect::QueryFreshPosition, Effect::Minimize]
    );
    assert!(!engine.prompt_pending());
    assert_eq!(engine.visibility(), VisibilityState::Hidden);
}
