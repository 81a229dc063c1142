//! Editing the library of magic words.
//!
//! The settings panel shows the magic words as a table, filters them by a
//! search text, and edits one at a time through a form.  What the panel
//! draws is the host's business; what a filter keeps and what a form does to
//! the library is decided here.

use vstd::prelude::*;
use crate::commands::{MagicWord, MagicWordView, StartMode};
use crate::text::{chars_of, contains, has_part, lowercase, string_of};

verus! {

/// The fields of the form that edits one magic word.
#[derive(Clone, Debug)]
pub struct EditForm {
    pub keyword: String,
    pub filename_or_url: String,
    pub start_mode: StartMode,
    pub start_path: String,
    pub parameters: String,
    /// Place of the magic word that is being edited; `None` for a new one.
    pub editing_index: Option<usize>,
}

/// What committing a form did.
#[derive(Clone, Copy, Debug, PartialEq, Eq, Structural)]
pub enum CommitOutcome {
    /// Nothing: the keyword or the file name is missing, or the place that
    /// the form edits is not in the library.
    Rejected,
    /// A magic word was added at the end.
    Added,
    /// The magic word at the form's place was replaced.
    Updated,
}

/// A text field as an optional value: an empty field means none.
pub open spec fn optional(field: Seq<char>) -> Option<Seq<char>> {
    if field.len() == 0 {
        None
    } else {
        Some(field)
    }
}

/// Reads a text field as an optional value.
fn optional_text(field: &String) -> (value: Option<String>)
    ensures
        match value {
            Some(text) => optional(field@) == Some(text@),
            None => optional(field@) is None,
        },
{
    let chars = chars_of(field.as_str());
    if chars.len() == 0 {
        None
    } else {
        Some(string_of(chars.as_slice()))
    }
}

/// A copy of an optional text; a missing one as the empty text.
fn text_or_empty(value: &Option<String>) -> (text: String)
    ensures
        text@ == match value {
            Some(given) => given@,
            None => Seq::<char>::empty(),
        },
{
    match value {
        Some(given) => string_of(chars_of(given.as_str()).as_slice()),
        None => String::new(),
    }
}

impl EditForm {
    /// Whether the form can be committed: it names a keyword and a file or
    /// URL.
    pub open spec fn is_complete(&self) -> bool {
        self.keyword@.len() > 0 && self.filename_or_url@.len() > 0
    }

    /// The magic word that the form describes.
    pub open spec fn described(&self) -> MagicWordView {
        MagicWordView {
            keyword: self.keyword@,
            filename_or_url: self.filename_or_url@,
            start_mode: self.start_mode,
            start_path: optional(self.start_path@),
            parameters: optional(self.parameters@),
        }
    }

    /// An empty form for a new magic word.
    pub fn new() -> (form: EditForm)
        ensures
            form.keyword@.len() == 0,
            form.filename_or_url@.len() == 0,
            form.start_mode == StartMode::Normal,
            form.start_path@.len() == 0,
            form.parameters@.len() == 0,
            form.editing_index is None,
    {
        EditForm {
            keyword: String::new(),
            filename_or_url: String::new(),
            start_mode: StartMode::Normal,
            start_path: String::new(),
            parameters: String::new(),
            editing_index: None,
        }
    }

    /// The form filled from the magic word at `index` of the library.
    pub fn select(index: usize, word: &MagicWord) -> (form: EditForm)
        ensures
            form.editing_index == Some(index),
            form.keyword@ == word.keyword@,
            form.filename_or_url@ == word.filename_or_url@,
            form.start_mode == word.start_mode,
            form.start_path@ == match word.start_path {
                Some(path) => path@,
                None => Seq::<char>::empty(),
            },
            form.parameters@ == match word.parameters {
                Some(parameters) => parameters@,
                None => Seq::<char>::empty(),
            },
    {
        EditForm {
            keyword: string_of(chars_of(word.keyword.as_str()).as_slice()),
            filename_or_url: string_of(chars_of(word.filename_or_url.as_str()).as_slice()),
            start_mode: word.start_mode,
            start_path: text_or_empty(&word.start_path),
            parameters: text_or_empty(&word.parameters),
            editing_index: Some(index),
        }
    }

    /// The magic word that the form describes, if the form is complete.
    pub fn to_word(&self) -> (word: Option<MagicWord>)
        ensures
            match word {
                Some(word) => self.is_complete() && word@ == self.described(),
                None => !self.is_complete(),
            },
    {
        let keyword = chars_of(self.keyword.as_str());
        let target = chars_of(self.filename_or_url.as_str());
        if keyword.len() == 0 || target.len() == 0 {
            return None;
        }
        Some(
            MagicWord {
                keyword: string_of(keyword.as_slice()),
                filename_or_url: string_of(target.as_slice()),
                start_mode: self.start_mode,
                start_path: optional_text(&self.start_path),
                parameters: optional_text(&self.parameters),
            },
        )
    }

    /// Puts the magic word of the form into the library: in place of the one
    /// that the form edits, or at the end if it edits none.
    pub fn commit(&self, words: &mut Vec<MagicWord>) -> (outcome: CommitOutcome)
        ensures
            match outcome {
                CommitOutcome::Rejected => {
                    &&& final(words)@ == old(words)@
                    &&& !self.is_complete() || (self.editing_index matches Some(i) && i >= old(
                        words,
                    )@.len())
                },
                CommitOutcome::Added => {
                    &&& self.is_complete()
                    &&& self.editing_index is None
                    &&& final(words)@.len() == old(words)@.len() + 1
                    &&& final(words)@.drop_last() == old(words)@
                    &&& final(words)@.last()@ == self.described()
                },
                CommitOutcome::Updated => {
                    &&& self.is_complete()
                    &&& self.editing_index matches Some(i)
                    &&& i < old(words)@.len()
                    &&& final(words)@.len() == old(words)@.len()
                    &&& final(words)@[i as int]@ == self.described()
                    &&& forall|j: int|
                        0 <= j < old(words)@.len() && j != i ==> final(words)@[j] == old(words)@[j]
                },
            },
    {
        let word = match self.to_word() {
            Some(word) => word,
            None => {
                return CommitOutcome::Rejected;
            },
        };
        match self.editing_index {
            Some(index) => {
                if index < words.len() {
                    words[index] = word;
                    CommitOutcome::Updated
                } else {
                    CommitOutcome::Rejected
                }
            },
            None => {
                words.push(word);
                CommitOutcome::Added
            },
        }
    }
}

/// Takes the magic word at `index` out of the library.  An index behind the
/// end takes nothing out.
pub fn delete_word(words: &mut Vec<MagicWord>, index: usize) -> (deleted: bool)
    ensures
        deleted == (index < old(words)@.len()),
        deleted ==> final(words)@ == old(words)@.remove(index as int),
        !deleted ==> final(words)@ == old(words)@,
{
    if index < words.len() {
        words.remove(index);
        true
    } else {
        false
    }
}

/// A row of the table in lower case, as the filter reads it.
#[derive(Clone, Debug)]
pub struct LoweredRow {
    pub keyword: String,
    pub filename_or_url: String,
}

/// Whether the filter keeps a row: an empty filter keeps every row, another
/// one those whose keyword or file name holds it.
pub open spec fn row_kept(keyword: Seq<char>, filename_or_url: Seq<char>, filter: Seq<char>)
    -> bool {
    filter.len() == 0 || contains(keyword, filter) || contains(filename_or_url, filter)
}

/// The places of the rows that the filter keeps, in order.
pub open spec fn kept_rows(rows: Seq<LoweredRow>, filter: Seq<char>) -> Seq<usize>
    decreases rows.len(),
{
    if rows.len() == 0 {
        Seq::empty()
    } else {
        let earlier = kept_rows(rows.drop_last(), filter);
        if row_kept(rows.last().keyword@, rows.last().filename_or_url@, filter) {
            earlier.push((rows.len() - 1) as usize)
        } else {
            earlier
        }
    }
}

/// Picks the rows that hold the filter; see [`kept_rows`].  Rows and filter
/// are given in lower case.
pub fn rows_matching(rows: &Vec<LoweredRow>, filter: &str) -> (places: Vec<usize>)
    ensures
        places@ == kept_rows(rows@, filter@),
{
    let wanted = chars_of(filter);
    let mut places: Vec<usize> = Vec::new();
    let mut i: usize = 0;
    while i < rows.len()
        invariant
            i <= rows.len(),
            wanted@ == filter@,
            places@ == kept_rows(rows@.take(i as int), filter@),
        decreases rows.len() - i,
    {
        proof {
            assert(rows@.take(i + 1).drop_last() == rows@.take(i as int));
        }
        let keyword = chars_of(rows[i].keyword.as_str());
        let target = chars_of(rows[i].filename_or_url.as_str());
        if wanted.len() == 0 || has_part(keyword.as_slice(), wanted.as_slice()) || has_part(
            target.as_slice(),
            wanted.as_slice(),
        ) {
            places.push(i);
        }
        i = i + 1;
    }
    proof {
        assert(rows@.take(i as int) == rows@);
    }
    places
}

/// Whether the search text keeps a magic word: its keyword or its file name
/// holds the text, letters taken without regard to case.
pub open spec fn word_kept(word: MagicWord, filter: Seq<char>) -> bool {
    row_kept(lowercase(word.keyword@), lowercase(word.filename_or_url@), lowercase(filter))
}

/// The places of the magic words that the search text keeps, in order.
pub open spec fn kept_words(words: Seq<MagicWord>, filter: Seq<char>) -> Seq<usize>
    decreases words.len(),
{
    if words.len() == 0 {
        Seq::empty()
    } else {
        let earlier = kept_words(words.drop_last(), filter);
        if word_kept(words.last(), filter) {
            earlier.push((words.len() - 1) as usize)
        } else {
            earlier
        }
    }
}

/// Filtering the rows in lower case with the filter in lower case keeps the
/// places that the search text keeps.
proof fn lemma_rows_stand_for_words(rows: Seq<LoweredRow>, words: Seq<MagicWord>, filter: Seq<char>)
    requires
        rows.len() == words.len(),
        forall|i: int|
            0 <= i < words.len() ==> (#[trigger] rows[i]).keyword@ == lowercase(words[i].keyword@)
                && rows[i].filename_or_url@ == lowercase(words[i].filename_or_url@),
    ensures
        kept_rows(rows, lowercase(filter)) == kept_words(words, filter),
    decreases rows.len(),
{
    if rows.len() > 0 {
        let earlier_rows = rows.drop_last();
        let earlier_words = words.drop_last();
        lemma_rows_stand_for_words(earlier_rows, earlier_words, filter);
    }
}

/// The places of the magic words that the search text of the table keeps;
/// see [`kept_words`].
pub fn filtered_indices(words: &[MagicWord], filter: &str) -> (places: Vec<usize>)
    ensures
        places@ == kept_words(words@, filter@),
{
    let lowered_filter = filter.to_lowercase();
    let mut rows: Vec<LoweredRow> = Vec::new();
    let mut i: usize = 0;
    while i < words.len()
        invariant
            i <= words.len(),
            rows@.len() == i,
            forall|k: int|
                0 <= k < i ==> (#[trigger] rows@[k]).keyword@ == lowercase(words@[k].keyword@)
                    && rows@[k].filename_or_url@ == lowercase(words@[k].filename_or_url@),
        decreases words.len() - i,
    {
        let keyword = words[i].keyword.as_str().to_lowercase();
        let filename_or_url = words[i].filename_or_url.as_str().to_lowercase();
        rows.push(LoweredRow { keyword, filename_or_url });
        i = i + 1;
    }
    proof {
        lemma_rows_stand_for_words(rows@, words@, filter@);
    }
    rows_matching(&rows, lowered_filter.as_str())
}

} // verus!
