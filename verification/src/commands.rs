//! Magic words: the user's commands and what typing one amounts to.
//!
//! A magic word names a program, a URL or the clipboard.  Its texts may hold
//! the placeholder `$W$`, which stands for what the user types behind the
//! keyword.  Nothing here starts a program: the functions say what is to be
//! started, and the host starts it.

use vstd::prelude::*;
use crate::text::{
    after_bytes,
    chars_equal,
    chars_of,
    concat3,
    contains,
    count_leading,
    eq_ignore_ascii_case,
    first_word,
    has_part,
    has_prefix,
    leading_count,
    leading_word,
    lowercase,
    replace_all,
    replaced,
    same_ignoring_ascii_case,
    skip_bytes,
    starts_with,
    string_of,
    trim,
    trimmed,
    utf8_width,
    width_of,
    CharClass,
};
use vstd::slice::slice_subrange;

verus! {

/// How a command is started.
#[derive(Clone, Copy, Debug, PartialEq, Eq, Structural)]
pub enum StartMode {
    Normal,
    Sudo,
}

impl Default for StartMode {
    fn default() -> (mode: StartMode)
        ensures
            mode == StartMode::Normal,
    {
        StartMode::Normal
    }
}

/// One command of the user's library.
#[derive(Clone, Debug)]
pub struct MagicWord {
    /// The keyword that triggers this magic word.
    pub keyword: String,
    /// The command, URL, or `@copy@`.
    pub filename_or_url: String,
    /// Normal or Sudo.
    pub start_mode: StartMode,
    /// Working directory for the command.
    pub start_path: Option<String>,
    /// Default parameters.  `$W$` stands for the arguments that the user
    /// types.
    pub parameters: Option<String>,
}

/// A magic word as contracts see it.
pub struct MagicWordView {
    pub keyword: Seq<char>,
    pub filename_or_url: Seq<char>,
    pub start_mode: StartMode,
    pub start_path: Option<Seq<char>>,
    pub parameters: Option<Seq<char>>,
}

impl View for MagicWord {
    type V = MagicWordView;

    open spec fn view(&self) -> MagicWordView {
        MagicWordView {
            keyword: self.keyword@,
            filename_or_url: self.filename_or_url@,
            start_mode: self.start_mode,
            start_path: match self.start_path {
                Some(path) => Some(path@),
                None => None,
            },
            parameters: match self.parameters {
                Some(parameters) => Some(parameters@),
                None => None,
            },
        }
    }
}

/// What running a magic word comes to.
#[derive(Clone, Debug, PartialEq, Eq)]
pub enum Invocation {
    /// Put `text` on the clipboard.
    Copy { text: String },
    /// Open `url` with the desktop's handler for URLs.
    OpenUrl { url: String },
    /// If `target` is a directory, open it in the file manager.  Else run
    /// `command` through the shell, in `directory` where one is given.
    Launch { target: String, command: String, directory: Option<String> },
}

/// The placeholder for the user's arguments.
pub open spec fn placeholder() -> Seq<char> {
    "$W$"@
}

/// Whether `s` looks like a URL.
pub open spec fn is_url_text(s: Seq<char>) -> bool {
    starts_with(s, "http://"@) || starts_with(s, "https://"@) || starts_with(s, "ftp://"@)
        || starts_with(s, "www."@)
}

/// `text` with the user's arguments in place of the placeholder; `text`
/// itself where it holds none.
pub open spec fn substituted(text: Seq<char>, args: Seq<char>) -> Seq<char> {
    if contains(text, placeholder()) {
        replace_all(text, placeholder(), args)
    } else {
        text
    }
}

impl MagicWord {
    /// Whether this is the special command that copies to the clipboard.
    pub open spec fn copies(&self) -> bool {
        eq_ignore_ascii_case(self.filename_or_url@, "@copy@"@)
    }

    /// The parameters for a run with the arguments `args`.
    ///
    /// Default parameters with a placeholder take the arguments in its
    /// place.  Default parameters without one come first, and the arguments,
    /// if there are any, follow after a blank.  Without default parameters
    /// the arguments are the parameters.
    pub open spec fn params_for(&self, args: Seq<char>) -> Seq<char> {
        match self.parameters {
            Some(defaults) => if contains(defaults@, placeholder()) {
                replace_all(defaults@, placeholder(), args)
            } else if args.len() == 0 {
                defaults@
            } else {
                defaults@ + " "@ + args
            },
            None => args,
        }
    }

    /// The file name or URL for a run with the arguments `args`.
    pub open spec fn filename_for(&self, args: Seq<char>) -> Seq<char> {
        substituted(self.filename_or_url@, args)
    }

    /// Whether a run needs arguments from the user: the file name or the
    /// default parameters hold the placeholder.
    pub open spec fn wants_input(&self) -> bool {
        contains(self.filename_or_url@, placeholder()) || match self.parameters {
            Some(defaults) => contains(defaults@, placeholder()),
            None => false,
        }
    }

    /// The URL to open: the resolved one, with the parameters right behind
    /// it where there are some and the resolved URL holds no placeholder.
    pub open spec fn url_for(&self, args: Seq<char>) -> Seq<char> {
        let filename = self.filename_for(args);
        let params = self.params_for(args);
        if params.len() == 0 || contains(filename, placeholder()) {
            filename
        } else {
            filename + params
        }
    }

    /// The line handed to the shell: file name, then the parameters after a
    /// blank if there are some, all behind `sudo` where the mode asks for it.
    pub open spec fn shell_line_for(&self, args: Seq<char>) -> Seq<char> {
        let filename = self.filename_for(args);
        let params = self.params_for(args);
        let full = if params.len() == 0 {
            filename
        } else {
            filename + " "@ + params
        };
        match self.start_mode {
            StartMode::Sudo => "sudo "@ + full,
            StartMode::Normal => full,
        }
    }

    /// Whether `s` looks like a URL.
    pub fn is_url(s: &str) -> (url: bool)
        ensures
            url == is_url_text(s@),
    {
        let chars = chars_of(s);
        let text = chars.as_slice();
        has_prefix(text, chars_of("http://").as_slice()) || has_prefix(
            text,
            chars_of("https://").as_slice(),
        ) || has_prefix(text, chars_of("ftp://").as_slice()) || has_prefix(
            text,
            chars_of("www.").as_slice(),
        )
    }

    /// Whether this is the `@copy@` special command.
    pub fn is_copy_command(&self) -> (copy: bool)
        ensures
            copy == self.copies(),
    {
        let name = chars_of(self.filename_or_url.as_str());
        let special = chars_of("@copy@");
        same_ignoring_ascii_case(name.as_slice(), special.as_slice())
    }

    /// Resolve the final parameters by substituting `$W$` with the user's
    /// arguments.  Without `$W$` in the default parameters the arguments are
    /// appended.
    pub fn resolve_params(&self, user_args: &str) -> (params: String)
        ensures
            params@ == self.params_for(user_args@),
    {
        let args = chars_of(user_args);
        match &self.parameters {
            Some(defaults) => {
                let text = chars_of(defaults.as_str());
                let pattern = chars_of("$W$");
                if has_part(text.as_slice(), pattern.as_slice()) {
                    let out = replaced(text.as_slice(), pattern.as_slice(), args.as_slice());
                    string_of(out.as_slice())
                } else if args.len() == 0 {
                    string_of(text.as_slice())
                } else {
                    let blank = chars_of(" ");
                    concat3(text.as_slice(), blank.as_slice(), args.as_slice())
                }
            },
            None => string_of(args.as_slice()),
        }
    }

    /// Resolve the file name or URL by substituting `$W$` with the user's
    /// arguments.
    pub fn resolve_filename(&self, user_args: &str) -> (filename: String)
        ensures
            filename@ == self.filename_for(user_args@),
    {
        let text = chars_of(self.filename_or_url.as_str());
        let pattern = chars_of("$W$");
        if has_part(text.as_slice(), pattern.as_slice()) {
            let args = chars_of(user_args);
            let out = replaced(text.as_slice(), pattern.as_slice(), args.as_slice());
            string_of(out.as_slice())
        } else {
            string_of(text.as_slice())
        }
    }

    /// Whether this magic word uses `$W$` substitution.
    pub fn needs_w_input(&self) -> (needed: bool)
        ensures
            needed == self.wants_input(),
    {
        let pattern = chars_of("$W$");
        let name = chars_of(self.filename_or_url.as_str());
        if has_part(name.as_slice(), pattern.as_slice()) {
            return true;
        }
        match &self.parameters {
            Some(defaults) => {
                let text = chars_of(defaults.as_str());
                has_part(text.as_slice(), pattern.as_slice())
            },
            None => false,
        }
    }

    /// Says what running this magic word with the given arguments (the text
    /// behind the keyword) comes to.
    ///
    /// The copy command puts the resolved parameters on the clipboard.  A
    /// URL is opened.  Everything else is a directory to open or a command
    /// for the shell; which of the two, only the file system can tell.
    pub fn invocation(&self, user_args: &str) -> (plan: Invocation)
        ensures
            match plan {
                Invocation::Copy { text } => self.copies() && text@ == self.params_for(user_args@),
                Invocation::OpenUrl { url } => !self.copies() && is_url_text(
                    self.filename_for(user_args@),
                ) && url@ == self.url_for(user_args@),
                Invocation::Launch { target, command, directory } => {
                    &&& !self.copies()
                    &&& !is_url_text(self.filename_for(user_args@))
                    &&& target@ == self.filename_for(user_args@)
                    &&& command@ == self.shell_line_for(user_args@)
                    &&& match self.start_path {
                        Some(path) => if path@.len() == 0 {
                            directory is None
                        } else {
                            directory is Some && directory->0@ == path@
                        },
                        None => directory is None,
                    }
                },
            },
    {
        if self.is_copy_command() {
            return Invocation::Copy { text: self.resolve_params(user_args) };
        }
        let filename = self.resolve_filename(user_args);
        let params = self.resolve_params(user_args);
        let name = chars_of(filename.as_str());
        let rest = chars_of(params.as_str());
        if Self::is_url(filename.as_str()) {
            let pattern = chars_of("$W$");
            let url = if rest.len() == 0 || has_part(name.as_slice(), pattern.as_slice()) {
                filename
            } else {
                let nothing: Vec<char> = Vec::new();
                let joined = concat3(name.as_slice(), rest.as_slice(), nothing.as_slice());
                joined
            };
            return Invocation::OpenUrl { url };
        }
        let full: Vec<char> = if rest.len() == 0 {
            name.clone()
        } else {
            let blank = chars_of(" ");
            chars_of(concat3(name.as_slice(), blank.as_slice(), rest.as_slice()).as_str())
        };
        let command = match self.start_mode {
            StartMode::Sudo => {
                let prefix = chars_of("sudo ");
                let nothing: Vec<char> = Vec::new();
                let line = concat3(prefix.as_slice(), full.as_slice(), nothing.as_slice());
                line
            },
            StartMode::Normal => string_of(full.as_slice()),
        };
        let directory = match &self.start_path {
            Some(path) => {
                let text = chars_of(path.as_str());
                if text.len() == 0 {
                    None
                } else {
                    Some(string_of(text.as_slice()))
                }
            },
            None => None,
        };
        Invocation::Launch { target: filename, command, directory }
    }
}

/// Whether the keyword of `word` is `keyword`, ASCII letters taken without
/// regard to case.
pub open spec fn answers_to(word: MagicWord, keyword: Seq<char>) -> bool {
    eq_ignore_ascii_case(word.keyword@, keyword)
}

/// Index of the first magic word that answers to `keyword`.
pub open spec fn first_match(words: Seq<MagicWord>, keyword: Seq<char>) -> Option<int>
    decreases words.len(),
{
    if words.len() == 0 {
        None
    } else {
        match first_match(words.drop_last(), keyword) {
            Some(i) => Some(i),
            None => if answers_to(words.last(), keyword) {
                Some(words.len() - 1)
            } else {
                None
            },
        }
    }
}

/// What [`first_match`] finds: a word that answers to the keyword, with none
/// before it that does; or nothing, where no word answers to it.
pub proof fn lemma_first_match(words: Seq<MagicWord>, keyword: Seq<char>)
    ensures
        match first_match(words, keyword) {
            Some(i) => 0 <= i < words.len() && answers_to(words[i], keyword) && forall|j: int|
                0 <= j < i ==> !answers_to(#[trigger] words[j], keyword),
            None => forall|j: int| 0 <= j < words.len() ==> !answers_to(#[trigger] words[j], keyword),
        },
    decreases words.len(),
{
    if words.len() > 0 {
        let earlier = words.drop_last();
        lemma_first_match(earlier, keyword);
        match first_match(earlier, keyword) {
            Some(i) => {
                assert forall|j: int| 0 <= j < i implies !answers_to(
                    #[trigger] words[j],
                    keyword,
                ) by {
                    assert(words[j] == earlier[j]);
                }
            },
            None => {
                assert forall|j: int| 0 <= j < words.len() - 1 implies !answers_to(
                    #[trigger] words[j],
                    keyword,
                ) by {
                    assert(words[j] == earlier[j]);
                }
            },
        }
    }
}

/// Finds the position of a magic word by exact keyword match
/// (case-insensitive).
pub fn find_index_by_keyword(magic_words: &[MagicWord], keyword: &str) -> (found: Option<usize>)
    ensures
        match found {
            Some(i) => first_match(magic_words@, keyword@) == Some(i as int),
            None => first_match(magic_words@, keyword@) is None,
        },
{
    let wanted = chars_of(keyword);
    let mut i: usize = 0;
    while i < magic_words.len()
        invariant
            i <= magic_words.len(),
            wanted@ == keyword@,
            first_match(magic_words@.take(i as int), keyword@) is None,
        decreases magic_words.len() - i,
    {
        let name = chars_of(magic_words[i].keyword.as_str());
        proof {
            assert(magic_words@.take(i + 1).drop_last() == magic_words@.take(i as int));
        }
        if same_ignoring_ascii_case(name.as_slice(), wanted.as_slice()) {
            proof {
                lemma_first_match_extends(magic_words@, keyword@, i + 1);
            }
            return Some(i);
        }
        i = i + 1;
    }
    proof {
        assert(magic_words@.take(i as int) == magic_words@);
    }
    None
}

/// A match among the first `n` words is the match among all of them.
pub proof fn lemma_first_match_extends(words: Seq<MagicWord>, keyword: Seq<char>, n: int)
    requires
        0 <= n <= words.len(),
        first_match(words.take(n), keyword) is Some,
    ensures
        first_match(words, keyword) == first_match(words.take(n), keyword),
    decreases words.len() - n,
{
    if n < words.len() {
        assert(words.take(n + 1).drop_last() == words.take(n));
        lemma_first_match_extends(words, keyword, n + 1);
    } else {
        assert(words.take(n) == words);
    }
}

/// Find a magic word by exact keyword match (case-insensitive).
pub fn find_by_keyword<'a>(magic_words: &'a [MagicWord], keyword: &str) -> (found: Option<
    &'a MagicWord,
>)
    ensures
        match first_match(magic_words@, keyword@) {
            Some(i) => found == Some(&magic_words@[i]),
            None => found is None,
        },
{
    proof {
        lemma_first_match(magic_words@, keyword@);
    }
    match find_index_by_keyword(magic_words, keyword) {
        Some(i) => Some(&magic_words[i]),
        None => None,
    }
}

/// A name that may complete what the user types, with its lower-case form.
#[derive(Clone, Debug)]
pub struct Candidate {
    pub name: String,
    pub lowered: String,
}

/// Whether the candidate at `place` is the one to offer for `prefix`: its
/// lower-case form begins with `prefix`, no candidate that does so is
/// shorter in bytes, and none before it is as short.
pub open spec fn is_shortest_completion(candidates: Seq<Candidate>, prefix: Seq<char>, place: int)
    -> bool {
    &&& 0 <= place < candidates.len()
    &&& starts_with(candidates[place].lowered@, prefix)
    &&& forall|j: int|
        0 <= j < candidates.len() && starts_with(#[trigger] candidates[j].lowered@, prefix)
            ==> utf8_width(candidates[place].name@) <= utf8_width(candidates[j].name@)
    &&& forall|j: int|
        0 <= j < place && starts_with(#[trigger] candidates[j].lowered@, prefix) ==> utf8_width(
            candidates[place].name@,
        ) < utf8_width(candidates[j].name@)
}

/// Picks the candidate to offer for `prefix`: the shortest of those whose
/// lower-case form begins with `prefix`, the first of them where several
/// are as short.  `None` where no candidate begins so.
pub fn pick_shortest(candidates: &Vec<Candidate>, prefix: &str) -> (place: Option<usize>)
    ensures
        match place {
            Some(i) => is_shortest_completion(candidates@, prefix@, i as int),
            None => forall|j: int|
                0 <= j < candidates@.len() ==> !starts_with(
                    #[trigger] candidates@[j].lowered@,
                    prefix@,
                ),
        },
{
    let wanted = chars_of(prefix);
    let mut best: Option<usize> = None;
    let mut best_width: u128 = 0;
    let mut i: usize = 0;
    while i < candidates.len()
        invariant
            i <= candidates.len(),
            wanted@ == prefix@,
            match best {
                Some(b) => is_shortest_completion(candidates@.take(i as int), prefix@, b as int)
                    && best_width == utf8_width(candidates@[b as int].name@),
                None => forall|j: int|
                    0 <= j < i ==> !starts_with(#[trigger] candidates@[j].lowered@, prefix@),
            },
        decreases candidates.len() - i,
    {
        let lowered = chars_of(candidates[i].lowered.as_str());
        if has_prefix(lowered.as_slice(), wanted.as_slice()) {
            let width = width_of(chars_of(candidates[i].name.as_str()).as_slice());
            let better = match best {
                Some(_) => width < best_width,
                None => true,
            };
            if better {
                best = Some(i);
                best_width = width;
            }
        }
        i = i + 1;
    }
    proof {
        assert(candidates@.take(i as int) == candidates@);
    }
    best
}

/// The names that can complete a command: the two built-in commands, then
/// the keywords of the magic words in their order.
pub open spec fn completion_names(words: Seq<MagicWord>) -> Seq<Seq<char>> {
    seq!["setup"@, "quit"@] + Seq::new(words.len(), |i: int| words[i].keyword@)
}

/// Whether `name` begins with `word`, letters taken without regard to case.
pub open spec fn completes(name: Seq<char>, word: Seq<char>) -> bool {
    starts_with(lowercase(name), lowercase(word))
}

/// Whether the name at `place` is the one to offer for `word`: it begins
/// with the word, no name that does so is shorter in bytes, and none before
/// it is as short.
pub open spec fn offers(names: Seq<Seq<char>>, word: Seq<char>, place: int) -> bool {
    &&& 0 <= place < names.len()
    &&& completes(names[place], word)
    &&& forall|j: int|
        0 <= j < names.len() && completes(#[trigger] names[j], word) ==> utf8_width(names[place])
            <= utf8_width(names[j])
    &&& forall|j: int|
        0 <= j < place && completes(#[trigger] names[j], word) ==> utf8_width(names[place])
            < utf8_width(names[j])
}

/// The completion to offer for `input`: among the names that begin with
/// the first word of the input, letters taken without regard to case, the
/// shortest, and the first where several are as short.  `None` where the
/// input has no first word or no name begins with it.
pub open spec fn completion(words: Seq<MagicWord>, input: Seq<char>) -> Option<Seq<char>> {
    let names = completion_names(words);
    let word = first_word(input);
    if word.len() > 0 && exists|place: int| offers(names, word, place) {
        Some(names[choose|place: int| offers(names, word, place)])
    } else {
        None
    }
}

/// No two names are offered for the same word.
pub proof fn lemma_offer_is_unique(names: Seq<Seq<char>>, word: Seq<char>, p: int, q: int)
    requires
        offers(names, word, p),
        offers(names, word, q),
    ensures
        p == q,
{
}

/// Adds `name` to the candidates, with its lower-case form.
fn push_candidate(candidates: &mut Vec<Candidate>, name: &str)
    ensures
        final(candidates)@.len() == old(candidates)@.len() + 1,
        forall|i: int| 0 <= i < old(candidates)@.len() ==> final(candidates)@[i] == old(candidates)@[i],
        final(candidates)@.last().name@ == name@,
        final(candidates)@.last().lowered@ == lowercase(name@),
{
    let lowered = name.to_lowercase();
    let kept = string_of(chars_of(name).as_slice());
    candidates.push(Candidate { name: kept, lowered });
}

/// The name that completes the first word of `input` best: the shortest of
/// the built-in commands and keywords that begin with that word, letters
/// taken without regard to case.
pub fn best_autocomplete(magic_words: &[MagicWord], input: &str) -> (best: Option<String>)
    ensures
        match best {
            Some(name) => completion(magic_words@, input@) == Some(name@),
            None => completion(magic_words@, input@) is None,
        },
{
    let chars = chars_of(input);
    let word = leading_word(chars.as_slice());
    if word.len() == 0 {
        return None;
    }
    let word_text = string_of(word);
    let lowered_word = word_text.as_str().to_lowercase();
    let ghost names = completion_names(magic_words@);
    let mut candidates: Vec<Candidate> = Vec::new();
    push_candidate(&mut candidates, "setup");
    push_candidate(&mut candidates, "quit");
    let mut i: usize = 0;
    while i < magic_words.len()
        invariant
            i <= magic_words.len(),
            names == completion_names(magic_words@),
            candidates@.len() == i + 2,
            forall|k: int|
                0 <= k < i + 2 ==> (#[trigger] candidates@[k]).name@ == names[k]
                    && candidates@[k].lowered@ == lowercase(names[k]),
        decreases magic_words.len() - i,
    {
        push_candidate(&mut candidates, magic_words[i].keyword.as_str());
        i = i + 1;
    }
    let ghost typed = first_word(input@);
    match pick_shortest(&candidates, lowered_word.as_str()) {
        Some(place) => {
            let name = string_of(chars_of(candidates[place].name.as_str()).as_slice());
            proof {
                assert forall|j: int|
                    0 <= j < names.len() && completes(#[trigger] names[j], typed) implies utf8_width(
                    names[place as int],
                ) <= utf8_width(names[j]) by {
                    assert(candidates@[j].name@ == names[j]);
                }
                assert forall|j: int|
                    0 <= j < place && completes(#[trigger] names[j], typed) implies utf8_width(
                    names[place as int],
                ) < utf8_width(names[j]) by {
                    assert(candidates@[j].name@ == names[j]);
                }
                assert(offers(names, typed, place as int));
                let chosen = choose|q: int| offers(names, typed, q);
                lemma_offer_is_unique(names, typed, place as int, chosen);
            }
            Some(name)
        },
        None => {
            proof {
                assert forall|k: int| 0 <= k < names.len() implies !completes(
                    #[trigger] names[k],
                    typed,
                ) by {
                    assert(candidates@[k].lowered@ == lowercase(names[k]));
                }
            }
            None
        },
    }
}

/// What a line typed into the bar asks for.
#[derive(Clone, Copy, Debug, PartialEq, Eq, Structural)]
pub enum CommandKind {
    /// Nothing was typed.
    Nothing,
    /// The built-in command that opens the settings.
    OpenSettings,
    /// The built-in command that quits.
    Quit,
    /// A magic word that needs a parameter and was given none: ask for it.
    Prompt,
    /// A magic word with what it needs: run it.
    Run,
    /// No magic word: hand the line to the shell.
    Shell,
}

/// A line typed into the bar, read.
#[derive(Clone, Debug, PartialEq, Eq)]
pub enum Command {
    Nothing,
    OpenSettings,
    Quit,
    /// Ask for the parameter of the magic word at `word`.
    Prompt { word: usize },
    /// Run the magic word at `word` with the arguments `args`.
    Run { word: usize, args: String },
    /// Hand `line` to the shell.
    Shell { line: String },
}

/// The first word of a typed line: what stands before the first white space
/// of the trimmed line.
pub open spec fn command_head(input: Seq<char>) -> Seq<char> {
    let line = trim(input);
    line.take(leading_count(line, CharClass::NotWhitespace) as int)
}

/// The arguments of a typed line: what stands behind the first word,
/// trimmed.
pub open spec fn command_args(input: Seq<char>) -> Seq<char> {
    let line = trim(input);
    trim(line.skip(leading_count(line, CharClass::NotWhitespace) as int))
}

/// What a typed line asks for.  The built-in commands come before the magic
/// words; both are found without regard to the case of ASCII letters.
pub open spec fn command_kind(words: Seq<MagicWord>, input: Seq<char>) -> CommandKind {
    let head = command_head(input);
    if trim(input).len() == 0 {
        CommandKind::Nothing
    } else if eq_ignore_ascii_case(head, "setup"@) {
        CommandKind::OpenSettings
    } else if eq_ignore_ascii_case(head, "quit"@) {
        CommandKind::Quit
    } else {
        match first_match(words, head) {
            Some(i) => if command_args(input).len() == 0 && words[i].wants_input() {
                CommandKind::Prompt
            } else {
                CommandKind::Run
            },
            None => CommandKind::Shell,
        }
    }
}

impl Command {
    /// The kind of the command, without what it carries.
    pub open spec fn kind_of(&self) -> CommandKind {
        match self {
            Command::Nothing => CommandKind::Nothing,
            Command::OpenSettings => CommandKind::OpenSettings,
            Command::Quit => CommandKind::Quit,
            Command::Prompt { .. } => CommandKind::Prompt,
            Command::Run { .. } => CommandKind::Run,
            Command::Shell { .. } => CommandKind::Shell,
        }
    }

    /// The kind of the command, without what it carries.
    pub fn kind(&self) -> (kind: CommandKind)
        ensures
            kind == self.kind_of(),
    {
        match self {
            Command::Nothing => CommandKind::Nothing,
            Command::OpenSettings => CommandKind::OpenSettings,
            Command::Quit => CommandKind::Quit,
            Command::Prompt { .. } => CommandKind::Prompt,
            Command::Run { .. } => CommandKind::Run,
            Command::Shell { .. } => CommandKind::Shell,
        }
    }
}

/// Reads a line typed into the bar.
///
/// The line is trimmed; its first word is looked up, first among the
/// built-in commands, then among the magic words.  What follows the first
/// word, trimmed, is the arguments.  A line that names no command goes to
/// the shell as it is.
pub fn interpret(magic_words: &[MagicWord], input: &str) -> (command: Command)
    ensures
        command.kind_of() == command_kind(magic_words@, input@),
        match command {
            Command::Prompt { word } => first_match(magic_words@, command_head(input@)) == Some(
                word as int,
            ),
            Command::Run { word, args } => first_match(magic_words@, command_head(input@)) == Some(
                word as int,
            ) && args@ == command_args(input@),
            Command::Shell { line } => line@ == trim(input@),
            _ => true,
        },
{
    let chars = chars_of(input);
    let line = trimmed(chars.as_slice());
    if line.len() == 0 {
        return Command::Nothing;
    }
    let cut = count_leading(line, CharClass::NotWhitespace);
    let head = slice_subrange(line, 0, cut);
    let tail = slice_subrange(line, cut, line.len());
    let args = trimmed(tail);
    if same_ignoring_ascii_case(head, chars_of("setup").as_slice()) {
        return Command::OpenSettings;
    }
    if same_ignoring_ascii_case(head, chars_of("quit").as_slice()) {
        return Command::Quit;
    }
    let keyword = string_of(head);
    match find_index_by_keyword(magic_words, keyword.as_str()) {
        Some(word) => {
            proof {
                lemma_first_match(magic_words@, keyword@);
            }
            if args.len() == 0 && magic_words[word].needs_w_input() {
                Command::Prompt { word }
            } else {
                Command::Run { word, args: string_of(args) }
            }
        },
        None => Command::Shell { line: string_of(line) },
    }
}

/// `input` with `completed` in place of its first bytes, as many as the
/// first word has; `input` itself where that many bytes end inside a
/// character.
pub open spec fn with_completed_word(input: Seq<char>, completed: Seq<char>) -> Seq<char> {
    match after_bytes(input, utf8_width(first_word(input))) {
        Some(rest) => completed + rest,
        None => input,
    }
}

/// Puts `completed` in place of the first word of `input`; see
/// [`with_completed_word`].
pub fn replace_first_word(input: &str, completed: &str) -> (line: String)
    ensures
        line@ == with_completed_word(input@, completed@),
{
    let chars = chars_of(input);
    let word = leading_word(chars.as_slice());
    let width = width_of(word);
    match skip_bytes(chars.as_slice(), width) {
        Some(rest) => {
            let nothing: Vec<char> = Vec::new();
            let line = concat3(chars_of(completed).as_slice(), rest, nothing.as_slice());
            line
        },
        None => string_of(chars.as_slice()),
    }
}

/// What is left of a completion to show as a hint behind what is typed: the
/// part of `hint` behind as many bytes as the first word of `input` has.
/// `None` where the hint is no longer than that word, or where that many
/// bytes end inside a character.
pub open spec fn hint_rest(input: Seq<char>, hint: Seq<char>) -> Option<Seq<char>> {
    if utf8_width(hint) > utf8_width(first_word(input)) {
        after_bytes(hint, utf8_width(first_word(input)))
    } else {
        None
    }
}

/// The rest of `hint` to show behind what is typed; see [`hint_rest`].
pub fn hint_suffix(input: &str, hint: &str) -> (suffix: Option<String>)
    ensures
        match suffix {
            Some(text) => hint_rest(input@, hint@) == Some(text@),
            None => hint_rest(input@, hint@) is None,
        },
{
    let chars = chars_of(input);
    let word = leading_word(chars.as_slice());
    let width = width_of(word);
    let full = chars_of(hint);
    if width_of(full.as_slice()) > width {
        match skip_bytes(full.as_slice(), width) {
            Some(rest) => Some(string_of(rest)),
            None => None,
        }
    } else {
        None
    }
}

/// The line to run when the user commits `input`: where a completion is
/// offered that differs from the first word by more than the case of its
/// letters, the completion stands in place of that word.
pub open spec fn expanded(words: Seq<MagicWord>, input: Seq<char>) -> Seq<char> {
    match completion(words, input) {
        Some(name) => if lowercase(name) == lowercase(first_word(input)) {
            input
        } else {
            with_completed_word(input, name)
        },
        None => input,
    }
}

/// Completes the first word of a committed line; see [`expanded`].
pub fn expand_command(magic_words: &[MagicWord], input: &str) -> (line: String)
    ensures
        line@ == expanded(magic_words@, input@),
{
    match best_autocomplete(magic_words, input) {
        Some(completed) => {
            let typed = string_of(leading_word(chars_of(input).as_slice()));
            let lowered_name = completed.as_str().to_lowercase();
            let lowered_word = typed.as_str().to_lowercase();
            if chars_equal(
                chars_of(lowered_name.as_str()).as_slice(),
                chars_of(lowered_word.as_str()).as_slice(),
            ) {
                string_of(chars_of(input).as_slice())
            } else {
                replace_first_word(input, completed.as_str())
            }
        },
        None => string_of(chars_of(input).as_slice()),
    }
}

/// The hint to show behind what is typed: the rest of the completion that
/// is offered for `input`.
pub open spec fn hint_for(words: Seq<MagicWord>, input: Seq<char>) -> Option<Seq<char>> {
    match completion(words, input) {
        Some(name) => hint_rest(input, name),
        None => None,
    }
}

/// The hint to show behind what is typed; see [`hint_for`].
pub fn autocomplete_hint(magic_words: &[MagicWord], input: &str) -> (hint: Option<String>)
    ensures
        match hint {
            Some(text) => hint_for(magic_words@, input@) == Some(text@),
            None => hint_for(magic_words@, input@) is None,
        },
{
    match best_autocomplete(magic_words, input) {
        Some(completed) => hint_suffix(input, completed.as_str()),
        None => None,
    }
}

/// What a key press means while a parameter is asked for.
#[derive(Clone, Copy, Debug, PartialEq, Eq, Structural)]
pub enum PromptDecision {
    /// Run the command with what was entered.
    Submit,
    /// Drop the command.
    Cancel,
    /// Go on asking.
    Keep,
}

/// What the keys of this tick mean for the parameter prompt: Enter submits
/// what was entered unless that is nothing; failing that, Escape cancels.
pub open spec fn prompt_decision(enter: bool, escape: bool, entered_nothing: bool)
    -> PromptDecision {
    if enter && !entered_nothing {
        PromptDecision::Submit
    } else if escape {
        PromptDecision::Cancel
    } else {
        PromptDecision::Keep
    }
}

/// Decides what the keys of this tick mean for the parameter prompt.
pub fn decide_prompt(enter: bool, escape: bool, entered_nothing: bool) -> (decision:
    PromptDecision)
    ensures
        decision == prompt_decision(enter, escape, entered_nothing),
{
    if enter && !entered_nothing {
        PromptDecision::Submit
    } else if escape {
        PromptDecision::Cancel
    } else {
        PromptDecision::Keep
    }
}

} // verus!
