use slickrun::commands::{
    best_autocomplete, decide_prompt, find_by_keyword, find_index_by_keyword, hint_suffix,
    interpret, pick_shortest, replace_first_word, Candidate, Command, CommandKind, Invocation,
    MagicWord, PromptDecision, StartMode,
};

fn word(keyword: &str, target: &str, parameters: Option<&str>) -> MagicWord {
    MagicWord {
        keyword: keyword.to_string(),
        filename_or_url: target.to_string(),
        start_mode: StartMode::Normal,
        start_path: None,
        parameters: parameters.map(|p| p.to_string()),
    }
}

fn library() -> Vec<MagicWord> {
    vec![
        word("google", "https://www.google.com/search?q=$W$", None),
        word("Mail", "thunderbird", None),
        word("note", "@copy@", Some("note: $W$")),
        word("ls", "ls", Some("-la")),
        word("go", "firefox", Some("$W$")),
        word("mail", "evolution", None),
    ]
}

#[test]
fn start_mode_defaults_to_normal() {
    assert_eq!(StartMode::default(), StartMode::Normal);
}

#[test]
fn urls_are_told_by_their_beginning() {
    for url in ["http://a", "https://a.b/c", "ftp://host", "www.example.org", "http://"] {
        assert!(MagicWord::is_url(url), "{}", url);
    }
    for other in ["", "firefox", "HTTP://a", "file:///tmp", " http://a", "ww.example.org", "http:/x"] {
        assert!(!MagicWord::is_url(other), "{}", other);
    }
}

#[test]
fn copy_command_is_told_without_regard_to_case() {
    assert!(word("c", "@copy@", None).is_copy_command());
    assert!(word("c", "@COPY@", None).is_copy_command());
    assert!(word("c", "@Copy@", None).is_copy_command());
    assert!(!word("c", "@copy@ ", None).is_copy_command());
    assert!(!word("c", "copy", None).is_copy_command());
}

#[test]
fn parameters_take_the_arguments() {
    assert_eq!(word("k", "f", None).resolve_params("a b"), "a b");
    assert_eq!(word("k", "f", None).resolve_params(""), "");
    assert_eq!(word("k", "f", Some("-la")).resolve_params(""), "-la");
    assert_eq!(word("k", "f", Some("-la")).resolve_params("/tmp"), "-la /tmp");
    assert_eq!(word("k", "f", Some("--q=$W$ -v")).resolve_params("x y"), "--q=x y -v");
    assert_eq!(word("k", "f", Some("$W$ and $W$")).resolve_params("it"), "it and it");
    assert_eq!(word("k", "f", Some("$W$")).resolve_params(""), "");
    assert_eq!(word("k", "f", Some("$W$W$")).resolve_params("-"), "-W$");
    assert_eq!(word("k", "f", Some("")).resolve_params("x"), " x");
}

#[test]
fn filename_takes_the_arguments() {
    assert_eq!(word("k", "https://s/?q=$W$", None).resolve_filename("rust"), "https://s/?q=rust");
    assert_eq!(word("k", "firefox", None).resolve_filename("rust"), "firefox");
    assert_eq!(word("k", "$W$", None).resolve_filename(""), "");
}

#[test]
fn placeholder_asks_for_input() {
    assert!(word("k", "https://s/?q=$W$", None).needs_w_input());
    assert!(word("k", "f", Some("a $W$")).needs_w_input());
    assert!(!word("k", "f", Some("a $W")).needs_w_input());
    assert!(!word("k", "f", None).needs_w_input());
    assert!(!word("k", "$w$", Some("W$")).needs_w_input());
}

#[test]
fn invocation_of_the_copy_command() {
    assert_eq!(
        word("note", "@copy@", Some("note: $W$")).invocation("buy milk"),
        Invocation::Copy { text: "note: buy milk".to_string() }
    );
    assert_eq!(
        word("note", "@COPY@", None).invocation("x"),
        Invocation::Copy { text: "x".to_string() }
    );
}

#[test]
fn invocation_of_a_url() {
    assert_eq!(
        word("g", "https://g/?q=$W$", Some("")).invocation("rust"),
        Invocation::OpenUrl { url: "https://g/?q=rust rust".to_string() }
    );
    assert_eq!(
        word("g", "https://g/?q=$W$", Some("$W$")).invocation(""),
        Invocation::OpenUrl { url: "https://g/?q=".to_string() }
    );
    assert_eq!(
        word("g", "https://g/?q=$W$", None).invocation("rust"),
        Invocation::OpenUrl { url: "https://g/?q=rustrust".to_string() }
    );
    assert_eq!(
        word("g", "https://g/", None).invocation(""),
        Invocation::OpenUrl { url: "https://g/".to_string() }
    );
    assert_eq!(
        word("g", "https://g/", None).invocation("path"),
        Invocation::OpenUrl { url: "https://g/path".to_string() }
    );
    assert_eq!(
        word("g", "www.g.org/", Some("?x=1")).invocation("y"),
        Invocation::OpenUrl { url: "www.g.org/?x=1 y".to_string() }
    );
    assert_eq!(
        word("g", "https://g/$W$", None).invocation("$W$"),
        Invocation::OpenUrl { url: "https://g/$W$".to_string() }
    );
}

#[test]
fn invocation_of_a_program() {
    assert_eq!(
        word("ls", "ls", Some("-la")).invocation("/tmp"),
        Invocation::Launch {
            target: "ls".to_string(),
            command: "ls -la /tmp".to_string(),
            directory: None,
        }
    );
    assert_eq!(
        word("t", "thunderbird", None).invocation(""),
        Invocation::Launch {
            target: "thunderbird".to_string(),
            command: "thunderbird".to_string(),
            directory: None,
        }
    );
    let mut privileged = word("up", "apt", Some("update"));
    privileged.start_mode = StartMode::Sudo;
    privileged.start_path = Some("/var".to_string());
    assert_eq!(
        privileged.invocation(""),
        Invocation::Launch {
            target: "apt".to_string(),
            command: "sudo apt update".to_string(),
            directory: Some("/var".to_string()),
        }
    );
    let mut nowhere = word("e", "echo", None);
    nowhere.start_path = Some(String::new());
    assert_eq!(
        nowhere.invocation("hi"),
        Invocation::Launch {
            target: "echo".to_string(),
            command: "echo hi".to_string(),
            directory: None,
        }
    );
}

#[test]
fn keywords_are_found_without_regard_to_case() {
    let words = library();
    assert_eq!(find_index_by_keyword(&words, "google"), Some(0));
    assert_eq!(find_index_by_keyword(&words, "GOOGLE"), Some(0));
    assert_eq!(find_index_by_keyword(&words, "mail"), Some(1));
    assert_eq!(find_index_by_keyword(&words, "MAIL"), Some(1));
    assert_eq!(find_index_by_keyword(&words, "goo"), None);
    assert_eq!(find_index_by_keyword(&words, ""), None);
    assert_eq!(find_index_by_keyword(&[], "x"), None);
    assert_eq!(find_by_keyword(&words, "Ls").map(|w| w.filename_or_url.as_str()), Some("ls"));
    assert_eq!(find_by_keyword(&words, "mail").map(|w| w.filename_or_url.as_str()), Some("thunderbird"));
    assert!(find_by_keyword(&words, "nothing").is_none());
}

fn candidate(name: &str) -> Candidate {
    Candidate { name: name.to_string(), lowered: name.to_lowercase() }
}

#[test]
fn shortest_candidate_wins_and_ties_go_to_the_first() {
    let candidates = vec![
        candidate("setup"),
        candidate("quit"),
        candidate("Settings"),
        candidate("set"),
        candidate("SET"),
        candidate("sé"),
    ];
    assert_eq!(pick_shortest(&candidates, "se"), Some(3));
    assert_eq!(pick_shortest(&candidates, "set"), Some(3));
    assert_eq!(pick_shortest(&candidates, "sett"), Some(2));
    assert_eq!(pick_shortest(&candidates, "s"), Some(3));
    assert_eq!(pick_shortest(&candidates, "q"), Some(1));
    assert_eq!(pick_shortest(&candidates, "x"), None);
    assert_eq!(pick_shortest(&candidates, ""), Some(3));
    assert_eq!(pick_shortest(&vec![], ""), None);
    assert_eq!(pick_shortest(&vec![candidate("sé"), candidate("sea")], "s"), Some(0));
    assert_eq!(pick_shortest(&vec![candidate("séa"), candidate("sea")], "s"), Some(1));
}

#[test]
fn completion_looks_at_the_first_word() {
    let words = library();
    assert_eq!(best_autocomplete(&words, "se"), Some("setup".to_string()));
    assert_eq!(best_autocomplete(&words, "SET"), Some("setup".to_string()));
    assert_eq!(best_autocomplete(&words, "q"), Some("quit".to_string()));
    assert_eq!(best_autocomplete(&words, "g"), Some("go".to_string()));
    assert_eq!(best_autocomplete(&words, "goo rust lang"), Some("google".to_string()));
    assert_eq!(best_autocomplete(&words, "  ma"), Some("Mail".to_string()));
    assert_eq!(best_autocomplete(&words, "MAIL"), Some("Mail".to_string()));
    assert_eq!(best_autocomplete(&words, "n"), Some("note".to_string()));
    assert_eq!(best_autocomplete(&words, "zzz"), None);
    assert_eq!(best_autocomplete(&words, ""), None);
    assert_eq!(best_autocomplete(&words, "   "), None);
    assert_eq!(best_autocomplete(&[], "s"), Some("setup".to_string()));
}

#[test]
fn typed_lines_are_read() {
    let words = library();
    assert_eq!(interpret(&words, ""), Command::Nothing);
    assert_eq!(interpret(&words, "  \t "), Command::Nothing);
    assert_eq!(interpret(&words, "setup"), Command::OpenSettings);
    assert_eq!(interpret(&words, " SetUp now "), Command::OpenSettings);
    assert_eq!(interpret(&words, "QUIT"), Command::Quit);
    assert_eq!(interpret(&words, "google"), Command::Prompt { word: 0 });
    assert_eq!(interpret(&words, "google   "), Command::Prompt { word: 0 });
    assert_eq!(
        interpret(&words, "google  rust  lang "),
        Command::Run { word: 0, args: "rust  lang".to_string() }
    );
    assert_eq!(interpret(&words, "mail"), Command::Run { word: 1, args: String::new() });
    assert_eq!(interpret(&words, "note"), Command::Prompt { word: 2 });
    assert_eq!(interpret(&words, "LS /tmp"), Command::Run { word: 3, args: "/tmp".to_string() });
    assert_eq!(
        interpret(&words, "  echo hello  "),
        Command::Shell { line: "echo hello".to_string() }
    );
    assert_eq!(interpret(&words, "setups"), Command::Shell { line: "setups".to_string() });
    assert_eq!(
        interpret(&words, "go\u{a0}there"),
        Command::Run { word: 4, args: "there".to_string() }
    );
    for (line, kind) in [
        ("", CommandKind::Nothing),
        ("setup", CommandKind::OpenSettings),
        ("quit", CommandKind::Quit),
        ("go", CommandKind::Prompt),
        ("go x", CommandKind::Run),
        ("xterm", CommandKind::Shell),
    ] {
        assert_eq!(interpret(&words, line).kind(), kind, "{:?}", line);
    }
}

#[test]
fn completed_word_replaces_the_typed_one() {
    assert_eq!(replace_first_word("goo rust", "google"), "google rust");
    assert_eq!(replace_first_word("goo", "google"), "google");
    assert_eq!(replace_first_word("", "google"), "google");
    assert_eq!(replace_first_word("  ab cd", "abc"), "abcab cd");
    assert_eq!(replace_first_word("é x", "été"), "été x");
    assert_eq!(replace_first_word(" é", "été"), " é");
}

#[test]
fn hint_shows_what_is_missing() {
    assert_eq!(hint_suffix("goo", "google"), Some("gle".to_string()));
    assert_eq!(hint_suffix("GOO rust", "google"), Some("gle".to_string()));
    assert_eq!(hint_suffix("google", "google"), None);
    assert_eq!(hint_suffix("googles", "google"), None);
    assert_eq!(hint_suffix("", "setup"), Some("setup".to_string()));
    assert_eq!(hint_suffix("k", "\u{212a}elvin"), None);
    assert_eq!(hint_suffix("é", "été"), Some("té".to_string()));
}

#[test]
fn prompt_keys_are_decided() {
    assert_eq!(decide_prompt(true, false, false), PromptDecision::Submit);
    assert_eq!(decide_prompt(true, true, false), PromptDecision::Submit);
    assert_eq!(decide_prompt(true, false, true), PromptDecision::Keep);
    assert_eq!(decide_prompt(true, true, true), PromptDecision::Cancel);
    assert_eq!(decide_prompt(false, true, false), PromptDecision::Cancel);
    assert_eq!(decide_prompt(false, false, false), PromptDecision::Keep);
}
