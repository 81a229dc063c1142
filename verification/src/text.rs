//! Character-level text tools.
//!
//! Every function here works on sequences of Unicode scalar values, the view
//! that `str` and `String` have in contracts.

use vstd::prelude::*;
use vstd::slice::{slice_subrange, slice_to_vec};

verus! {

/// Taken on trust from the standard library, not proved here:
/// `String::push` appends the character `c` at the end of `s` and leaves
/// what was there as it is.
pub assume_specification[ String::push ](s: &mut String, c: char)
    ensures
        final(s)@ == old(s)@.push(c),
;

/// The lower-case form of a text: what `str::to_lowercase` of the standard
/// library returns for it, by the case mapping of the Unicode character
/// database.  It depends on the text alone.  Nothing here says what it is
/// for a given text; contracts speak of it by this name only.
pub uninterp spec fn lowercase(s: Seq<char>) -> Seq<char>;

/// Taken on trust from the standard library, not proved here:
/// `str::to_lowercase` returns the lower-case form of `s`, which is a
/// function of the characters of `s` and of nothing else.
pub assume_specification[ str::to_lowercase ](s: &str) -> (lower: String)
    ensures
        lower@ == lowercase(s@),
;

/// The characters of `s`, in order.
pub fn chars_of(s: &str) -> (out: Vec<char>)
    ensures
        out@ == s@,
{
    broadcast use vstd::string::group_string_axioms;

    let mut out: Vec<char> = Vec::new();
    for c in it: s.chars()
        invariant
            it.seq() == s@,
            out@ == it.seq().take(it.index()),
    {
        out.push(c);
    }
    out
}

/// Appends the characters of `chars` to `out`.
pub fn push_chars(out: &mut String, chars: &[char])
    ensures
        final(out)@ == old(out)@ + chars@,
{
    let mut i: usize = 0;
    while i < chars.len()
        invariant
            i <= chars.len(),
            out@ == old(out)@ + chars@.take(i as int),
        decreases chars.len() - i,
    {
        out.push(chars[i]);
        i = i + 1;
    }
}

/// The string made of the characters of `chars`, in order.
pub fn string_of(chars: &[char]) -> (out: String)
    ensures
        out@ == chars@,
{
    let mut out = String::new();
    push_chars(&mut out, chars);
    out
}

/// The three texts one after the other, as one string.
pub fn concat3(a: &[char], b: &[char], c: &[char]) -> (out: String)
    ensures
        out@ == a@ + b@ + c@,
{
    let mut out = String::new();
    push_chars(&mut out, a);
    push_chars(&mut out, b);
    push_chars(&mut out, c);
    out
}

/// Whether two slices hold the same characters.
pub fn chars_equal(a: &[char], b: &[char]) -> (same: bool)
    ensures
        same == (a@ == b@),
{
    if a.len() != b.len() {
        return false;
    }
    let mut i: usize = 0;
    while i < a.len()
        invariant
            i <= a.len(),
            a.len() == b.len(),
            a@.take(i as int) == b@.take(i as int),
        decreases a.len() - i,
    {
        if a[i] != b[i] {
            return false;
        }
        i = i + 1;
    }
    proof {
        assert(a@.take(i as int) == a@);
        assert(b@.take(i as int) == b@);
    }
    true
}

/// Whether two strings hold the same characters.
pub fn str_equals(a: &str, b: &str) -> (same: bool)
    ensures
        same == (a@ == b@),
{
    let left = chars_of(a);
    let right = chars_of(b);
    chars_equal(left.as_slice(), right.as_slice())
}

/// A character is its code: going to the code and back gives the character.
pub proof fn lemma_char_code(c: char)
    ensures
        (c as u32) as char == c,
        (c as u32) as int == c as int,
        c as u32 <= 0x10FFFF,
{
}

/// The characters with the Unicode property `White_Space`.
pub open spec fn is_whitespace(c: char) -> bool {
    let n = c as u32;
    ||| 0x09 <= n <= 0x0D
    ||| n == 0x20
    ||| n == 0x85
    ||| n == 0xA0
    ||| n == 0x1680
    ||| 0x2000 <= n <= 0x200A
    ||| n == 0x2028
    ||| n == 0x2029
    ||| n == 0x202F
    ||| n == 0x205F
    ||| n == 0x3000
}

/// A set of characters that a scan can test for.
#[derive(Clone, Copy, Debug)]
pub enum CharClass {
    /// The characters with the property `White_Space`.
    Whitespace,
    /// All other characters.
    NotWhitespace,
    /// One character.
    Only(char),
}

impl CharClass {
    /// Whether `c` belongs to the class.
    pub open spec fn holds(self, c: char) -> bool {
        match self {
            CharClass::Whitespace => is_whitespace(c),
            CharClass::NotWhitespace => !is_whitespace(c),
            CharClass::Only(d) => c == d,
        }
    }

    /// Tests one character.
    pub fn test(&self, c: char) -> (inside: bool)
        ensures
            inside == self.holds(c),
    {
        match self {
            CharClass::Whitespace => whitespace(c),
            CharClass::NotWhitespace => !whitespace(c),
            CharClass::Only(d) => c == *d,
        }
    }
}

/// Tests one character for the property `White_Space`.
pub fn whitespace(c: char) -> (white: bool)
    ensures
        white == is_whitespace(c),
{
    let n: u32 = c as u32;
    (0x09 <= n && n <= 0x0D) || n == 0x20 || n == 0x85 || n == 0xA0 || n == 0x1680 || (0x2000 <= n
        && n <= 0x200A) || n == 0x2028 || n == 0x2029 || n == 0x202F || n == 0x205F || n
        == 0x3000
}

/// Length of the longest prefix of `s` whose characters all belong to `class`.
pub open spec fn leading_count(s: Seq<char>, class: CharClass) -> nat
    decreases s.len(),
{
    if s.len() > 0 && class.holds(s[0]) {
        1 + leading_count(s.drop_first(), class)
    } else {
        0
    }
}

/// Length of the longest suffix of `s` whose characters all belong to `class`.
pub open spec fn trailing_count(s: Seq<char>, class: CharClass) -> nat
    decreases s.len(),
{
    if s.len() > 0 && class.holds(s.last()) {
        1 + trailing_count(s.drop_last(), class)
    } else {
        0
    }
}

/// `s` without its longest prefix in `class`.
pub open spec fn strip_leading(s: Seq<char>, class: CharClass) -> Seq<char> {
    s.skip(leading_count(s, class) as int)
}

/// `s` without its longest suffix in `class`.
pub open spec fn strip_trailing(s: Seq<char>, class: CharClass) -> Seq<char> {
    s.take(s.len() - trailing_count(s, class))
}

/// `s` without the characters of `class` at either end.
pub open spec fn strip(s: Seq<char>, class: CharClass) -> Seq<char> {
    strip_trailing(strip_leading(s, class), class)
}

/// `s` without white space at either end.
pub open spec fn trim(s: Seq<char>) -> Seq<char> {
    strip(s, CharClass::Whitespace)
}

/// The first run of characters of `s` that are not white space; empty where
/// `s` holds nothing else.
pub open spec fn first_word(s: Seq<char>) -> Seq<char> {
    let rest = strip_leading(s, CharClass::Whitespace);
    rest.take(leading_count(rest, CharClass::NotWhitespace) as int)
}

/// What the prefix count is: every character before it is in the class, and
/// the character at it, if there is one, is not.
pub proof fn law_leading_count(s: Seq<char>, class: CharClass)
    ensures
        leading_count(s, class) <= s.len(),
        forall|i: int| 0 <= i < leading_count(s, class) ==> class.holds(#[trigger] s[i]),
        leading_count(s, class) < s.len() ==> !class.holds(s[leading_count(s, class) as int]),
    decreases s.len(),
{
    if s.len() > 0 && class.holds(s[0]) {
        let rest = s.drop_first();
        law_leading_count(rest, class);
        assert forall|i: int| 0 <= i < leading_count(s, class) implies class.holds(
            #[trigger] s[i],
        ) by {
            if i > 0 {
                assert(s[i] == rest[i - 1]);
            }
        }
    }
}

/// Counts the characters of `class` at the start of `s`.
pub fn count_leading(s: &[char], class: CharClass) -> (n: usize)
    ensures
        n == leading_count(s@, class),
        n <= s.len(),
{
    let mut i: usize = 0;
    proof {
        assert(s@.skip(0) == s@);
    }
    while i < s.len() && class.test(s[i])
        invariant
            i <= s.len(),
            leading_count(s@, class) == i + leading_count(s@.skip(i as int), class),
        decreases s.len() - i,
    {
        proof {
            assert(s@.skip(i as int).drop_first() == s@.skip(i + 1));
        }
        i = i + 1;
    }
    i
}

/// Counts the characters of `class` at the end of `s`.
pub fn count_trailing(s: &[char], class: CharClass) -> (n: usize)
    ensures
        n == trailing_count(s@, class),
        n <= s.len(),
{
    let mut kept: usize = s.len();
    proof {
        assert(s@.take(kept as int) == s@);
    }
    while kept > 0 && class.test(s[kept - 1])
        invariant
            kept <= s.len(),
            trailing_count(s@, class) == (s.len() - kept) + trailing_count(
                s@.take(kept as int),
                class,
            ),
        decreases kept,
    {
        proof {
            assert(s@.take(kept as int).drop_last() == s@.take(kept - 1));
        }
        kept = kept - 1;
    }
    s.len() - kept
}

/// The part of `s` that is left when the characters of `class` are taken off
/// both ends.
pub fn stripped<'a>(s: &'a [char], class: CharClass) -> (out: &'a [char])
    ensures
        out@ == strip(s@, class),
{
    let lead = count_leading(s, class);
    let rest = slice_subrange(s, lead, s.len());
    let trail = count_trailing(rest, class);
    let out = slice_subrange(rest, 0, rest.len() - trail);
    out
}

/// `s` without white space at either end.
pub fn trimmed<'a>(s: &'a [char]) -> (out: &'a [char])
    ensures
        out@ == trim(s@),
{
    stripped(s, CharClass::Whitespace)
}

/// The first run of characters of `s` that are not white space.
pub fn leading_word<'a>(s: &'a [char]) -> (out: &'a [char])
    ensures
        out@ == first_word(s@),
{
    let lead = count_leading(s, CharClass::Whitespace);
    let rest = slice_subrange(s, lead, s.len());
    let n = count_leading(rest, CharClass::NotWhitespace);
    let out = slice_subrange(rest, 0, n);
    out
}

/// Whether `c` is one of the decimal digits `0` to `9`.
pub open spec fn is_digit(c: char) -> bool {
    0x30 <= c as u32 <= 0x39
}

/// The number that a decimal digit stands for; 0 for other characters.
pub open spec fn digit_value(c: char) -> nat {
    if is_digit(c) {
        (c as u32 - 0x30) as nat
    } else {
        0
    }
}

/// Whether `s` holds decimal digits only.
pub open spec fn all_digits(s: Seq<char>) -> bool {
    forall|i: int| 0 <= i < s.len() ==> is_digit(#[trigger] s[i])
}

/// The number that a run of decimal digits stands for.
pub open spec fn decimal_value(digits: Seq<char>) -> nat
    decreases digits.len(),
{
    if digits.len() == 0 {
        0
    } else {
        decimal_value(digits.drop_last()) * 10 + digit_value(digits.last())
    }
}

/// The number written in `s` as a decimal `i32`: an optional sign, `+` or
/// `-`, then one digit or more, nothing before, between or after, and the
/// number within the range of the type.  `None` for every other text.
pub open spec fn parse_i32(s: Seq<char>) -> Option<i32> {
    let signed = s.len() > 0 && (s[0] == '-' || s[0] == '+');
    let digits = if signed {
        s.skip(1)
    } else {
        s
    };
    let value = if s.len() > 0 && s[0] == '-' {
        -(decimal_value(digits) as int)
    } else {
        decimal_value(digits) as int
    };
    if digits.len() > 0 && all_digits(digits) && i32::MIN <= value <= i32::MAX {
        Some(value as i32)
    } else {
        None
    }
}

/// Reading more digits never makes the number smaller.
pub proof fn lemma_decimal_value_grows(digits: Seq<char>, n: int)
    requires
        0 <= n <= digits.len(),
    ensures
        decimal_value(digits.take(n)) <= decimal_value(digits),
    decreases digits.len(),
{
    if n == digits.len() {
        assert(digits.take(n) == digits);
    } else {
        lemma_decimal_value_grows(digits.drop_last(), n);
        assert(digits.drop_last().take(n) == digits.take(n));
    }
}

/// Reads a decimal `i32`; see [`parse_i32`].
pub fn read_i32(s: &[char]) -> (value: Option<i32>)
    ensures
        value == parse_i32(s@),
{
    let n = s.len();
    if n == 0 {
        return None;
    }
    let negative = s[0] == '-';
    let start: usize = if s[0] == '-' || s[0] == '+' {
        1
    } else {
        0
    };
    let ghost digits = if start == 1 {
        s@.skip(1)
    } else {
        s@
    };
    if start == n {
        return None;
    }
    let limit: i64 = if negative {
        2147483648
    } else {
        2147483647
    };
    let mut acc: i64 = 0;
    let mut i: usize = start;
    while i < n
        invariant
            start <= i <= n,
            n == s.len(),
            n > 0,
            start <= 1,
            negative == (s@[0] == '-'),
            (start == 1) == (s@[0] == '-' || s@[0] == '+'),
            limit == if negative {
                2147483648i64
            } else {
                2147483647i64
            },
            digits == s@.skip(start as int),
            all_digits(digits.take(i - start)),
            acc == decimal_value(digits.take(i - start)),
            0 <= acc <= limit,
        decreases n - i,
    {
        let code: u32 = s[i] as u32;
        proof {
            assert(digits.take(i - start + 1).drop_last() == digits.take(i - start));
        }
        if code < 0x30 || code > 0x39 {
            return None;
        }
        acc = acc * 10 + (code - 0x30) as i64;
        if acc > limit {
            proof {
                lemma_decimal_value_grows(digits, i - start + 1);
                assert(s@.skip(0) == s@);
            }
            return None;
        }
        i = i + 1;
    }
    proof {
        assert(digits.take(n - start) == digits);
    }
    if negative {
        Some((-acc) as i32)
    } else {
        Some(acc as i32)
    }
}

/// Whether `pattern` stands in `s` at index `at`.
pub open spec fn occurs_at(s: Seq<char>, pattern: Seq<char>, at: int) -> bool {
    0 <= at && at + pattern.len() <= s.len() && s.subrange(at, at + pattern.len()) == pattern
}

/// Whether `s` begins with `prefix`.
pub open spec fn starts_with(s: Seq<char>, prefix: Seq<char>) -> bool {
    occurs_at(s, prefix, 0)
}

/// Whether `pattern` stands somewhere in `s`.
pub open spec fn contains(s: Seq<char>, pattern: Seq<char>) -> bool {
    exists|at: int| occurs_at(s, pattern, at)
}

/// `s` with every occurrence of `pattern` replaced by `with`.  Occurrences
/// are found from the left and do not overlap: the search goes on behind each
/// occurrence it has found.  The empty pattern occurs before every character
/// and at the end.
pub open spec fn replace_all(s: Seq<char>, pattern: Seq<char>, with: Seq<char>) -> Seq<char>
    decreases s.len(),
{
    if pattern.len() == 0 {
        if s.len() == 0 {
            with
        } else {
            with + seq![s[0]] + replace_all(s.skip(1), pattern, with)
        }
    } else if s.len() < pattern.len() {
        s
    } else if occurs_at(s, pattern, 0) {
        with + replace_all(s.skip(pattern.len() as int), pattern, with)
    } else {
        seq![s[0]] + replace_all(s.skip(1), pattern, with)
    }
}

/// Whether `pattern` stands in `s` at index `at`.
pub fn matches_at(s: &[char], pattern: &[char], at: usize) -> (found: bool)
    ensures
        found == occurs_at(s@, pattern@, at as int),
{
    if pattern.len() > s.len() || at > s.len() - pattern.len() {
        return false;
    }
    let mut k: usize = 0;
    while k < pattern.len()
        invariant
            k <= pattern.len(),
            at + pattern.len() <= s.len(),
            s@.subrange(at as int, at + k) == pattern@.take(k as int),
        decreases pattern.len() - k,
    {
        if s[at + k] != pattern[k] {
            return false;
        }
        k = k + 1;
    }
    proof {
        assert(pattern@.take(k as int) == pattern@);
    }
    true
}

/// Whether `s` begins with `prefix`.
pub fn has_prefix(s: &[char], prefix: &[char]) -> (found: bool)
    ensures
        found == starts_with(s@, prefix@),
{
    matches_at(s, prefix, 0)
}

/// Whether `pattern` stands somewhere in `s`.
pub fn has_part(s: &[char], pattern: &[char]) -> (found: bool)
    ensures
        found == contains(s@, pattern@),
{
    if pattern.len() == 0 {
        assert(s@.subrange(0, 0) == pattern@);
        assert(occurs_at(s@, pattern@, 0));
        return true;
    }
    let mut at: usize = 0;
    while at < s.len()
        invariant
            at <= s.len(),
            pattern@.len() > 0,
            forall|j: int| 0 <= j < at ==> !occurs_at(s@, pattern@, j),
        decreases s.len() - at,
    {
        if matches_at(s, pattern, at) {
            return true;
        }
        at = at + 1;
    }
    false
}

/// Puts `with` before every character of `s` and at the end.
fn interleaved(s: &[char], with: &[char]) -> (out: Vec<char>)
    ensures
        out@ == replace_all(s@, Seq::empty(), with@),
{
    let mut out: Vec<char> = Vec::new();
    let mut i: usize = 0;
    proof {
        assert(s@.skip(0) == s@);
    }
    while i < s.len()
        invariant
            i <= s.len(),
            replace_all(s@, Seq::empty(), with@) == out@ + replace_all(
                s@.skip(i as int),
                Seq::empty(),
                with@,
            ),
        decreases s.len() - i,
    {
        let ghost rest = s@.skip(i as int);
        let ghost before = out@;
        proof {
            assert(rest.skip(1) == s@.skip(i + 1));
        }
        out.extend_from_slice(with);
        out.push(s[i]);
        i = i + 1;
        proof {
            assert(out@ == before + (with@ + seq![rest[0]]));
        }
    }
    out.extend_from_slice(with);
    out
}

/// Replaces every occurrence of `pattern`; see [`replace_all`].
pub fn replaced(s: &[char], pattern: &[char], with: &[char]) -> (out: Vec<char>)
    ensures
        out@ == replace_all(s@, pattern@, with@),
{
    if pattern.len() == 0 {
        proof {
            assert(pattern@ == Seq::<char>::empty());
        }
        return interleaved(s, with);
    }
    let mut out: Vec<char> = Vec::new();
    let mut i: usize = 0;
    proof {
        assert(s@.skip(0) == s@);
    }
    while i < s.len()
        invariant
            i <= s.len(),
            pattern@.len() > 0,
            replace_all(s@, pattern@, with@) == out@ + replace_all(
                s@.skip(i as int),
                pattern@,
                with@,
            ),
        decreases s.len() - i,
    {
        let ghost rest = s@.skip(i as int);
        if matches_at(s, pattern, i) {
            proof {
                assert(rest.subrange(0, pattern@.len() as int) == s@.subrange(
                    i as int,
                    i + pattern@.len(),
                ));
                assert(rest.skip(pattern@.len() as int) == s@.skip(i + pattern@.len()));
            }
            out.extend_from_slice(with);
            i = i + pattern.len();
        } else {
            proof {
                if rest.len() >= pattern@.len() {
                    assert(rest.subrange(0, pattern@.len() as int) == s@.subrange(
                        i as int,
                        i + pattern@.len(),
                    ));
                }
                assert(rest.skip(1) == s@.skip(i + 1));
            }
            out.push(s[i]);
            i = i + 1;
            proof {
                if rest.len() < pattern@.len() {
                    lemma_short_unchanged(rest.skip(1), pattern@, with@);
                }
            }
        }
    }
    out
}

/// A text shorter than the pattern holds no occurrence: replacing leaves it
/// as it is.
pub proof fn lemma_short_unchanged(s: Seq<char>, pattern: Seq<char>, with: Seq<char>)
    requires
        s.len() < pattern.len(),
    ensures
        replace_all(s, pattern, with) == s,
{
}

/// The parts of `s` between the occurrences of `separator`, in order.  There
/// is one part more than there are separators; a part may be empty.
pub open spec fn split(s: Seq<char>, separator: char) -> Seq<Seq<char>>
    decreases s.len(),
{
    if s.len() == 0 {
        seq![Seq::empty()]
    } else {
        let earlier = split(s.drop_last(), separator);
        if s.last() == separator {
            earlier.push(Seq::empty())
        } else {
            earlier.drop_last().push(earlier.last().push(s.last()))
        }
    }
}

/// The texts that a list of character vectors holds.
pub open spec fn texts(parts: Seq<Vec<char>>) -> Seq<Seq<char>> {
    Seq::new(parts.len(), |i: int| parts[i]@)
}

/// Splits `s` at every occurrence of `separator`; see [`split`].
pub fn split_at_char(s: &[char], separator: char) -> (parts: Vec<Vec<char>>)
    ensures
        texts(parts@) == split(s@, separator),
{
    let mut parts: Vec<Vec<char>> = Vec::new();
    let mut start: usize = 0;
    let mut i: usize = 0;
    proof {
        assert(s@.take(0) == Seq::<char>::empty());
    }
    while i < s.len()
        invariant
            start <= i <= s.len(),
            split(s@.take(i as int), separator) == texts(parts@).push(
                s@.subrange(start as int, i as int),
            ),
        decreases s.len() - i,
    {
        let ghost done = texts(parts@);
        let ghost current = s@.subrange(start as int, i as int);
        proof {
            assert(s@.take(i + 1).drop_last() == s@.take(i as int));
        }
        if s[i] == separator {
            let part = slice_to_vec(slice_subrange(s, start, i));
            parts.push(part);
            start = i + 1;
            proof {
                assert(texts(parts@) == done.push(current));
                assert(s@.subrange(start as int, i + 1) == Seq::<char>::empty());
            }
        } else {
            proof {
                assert(s@.subrange(start as int, i + 1) == current.push(s@[i as int]));
            }
        }
        i = i + 1;
    }
    let part = slice_to_vec(slice_subrange(s, start, s.len()));
    let ghost done = texts(parts@);
    parts.push(part);
    proof {
        assert(s@.take(i as int) == s@);
        assert(texts(parts@) == done.push(s@.subrange(start as int, i as int)));
    }
    parts
}

/// The lower-case form of an ASCII upper-case letter; every other character
/// as it is.
pub open spec fn ascii_lower(c: char) -> char {
    if 0x41 <= c as u32 <= 0x5A {
        ((c as u32) + 0x20) as char
    } else {
        c
    }
}

/// Whether two texts are equal when ASCII letters are taken without regard
/// to case.
pub open spec fn eq_ignore_ascii_case(a: Seq<char>, b: Seq<char>) -> bool {
    a.len() == b.len() && forall|i: int|
        0 <= i < a.len() ==> ascii_lower(#[trigger] a[i]) == ascii_lower(b[i])
}

/// Turns an ASCII upper-case letter into its lower-case form.
pub fn to_ascii_lower(c: char) -> (lower: char)
    ensures
        lower == ascii_lower(c),
{
    let code: u32 = c as u32;
    if 0x41 <= code && code <= 0x5A {
        ((code + 0x20) as u8) as char
    } else {
        c
    }
}

/// Compares two texts without regard to the case of ASCII letters.
pub fn same_ignoring_ascii_case(a: &[char], b: &[char]) -> (same: bool)
    ensures
        same == eq_ignore_ascii_case(a@, b@),
{
    if a.len() != b.len() {
        return false;
    }
    let mut i: usize = 0;
    while i < a.len()
        invariant
            i <= a.len(),
            a.len() == b.len(),
            forall|k: int| 0 <= k < i ==> ascii_lower(#[trigger] a@[k]) == ascii_lower(b@[k]),
        decreases a.len() - i,
    {
        if to_ascii_lower(a[i]) != to_ascii_lower(b[i]) {
            return false;
        }
        i = i + 1;
    }
    true
}

/// The character for a decimal digit.
pub open spec fn digit_char(d: nat) -> char {
    (0x30 + d % 10) as char
}

/// The decimal digits of `n`, most significant first, with no leading zero.
pub open spec fn decimal_digits(n: nat) -> Seq<char>
    decreases n,
{
    if n < 10 {
        seq![digit_char(n)]
    } else {
        decimal_digits(n / 10).push(digit_char(n % 10))
    }
}

/// How an integer is written in decimal: its digits, with `-` before them if
/// it is negative.
pub open spec fn decimal_text(value: int) -> Seq<char> {
    if value < 0 {
        seq!['-'] + decimal_digits((-value) as nat)
    } else {
        decimal_digits(value as nat)
    }
}

/// The digits of a number are digits, and they stand for the number.
pub proof fn lemma_decimal_digits(n: nat)
    ensures
        decimal_digits(n).len() > 0,
        all_digits(decimal_digits(n)),
        decimal_value(decimal_digits(n)) == n,
    decreases n,
{
    let digits = decimal_digits(n);
    if n < 10 {
        assert(decimal_value(digits.drop_last()) == 0);
    } else {
        lemma_decimal_digits(n / 10);
        let upper = decimal_digits(n / 10);
        assert(digits.drop_last() == upper);
    }
}

/// Reading what was written gives the number back.
pub proof fn law_decimal_round_trip(value: i32)
    ensures
        parse_i32(decimal_text(value as int)) == Some(value),
{
    let text = decimal_text(value as int);
    if value < 0 {
        let digits = decimal_digits((-value) as nat);
        lemma_decimal_digits((-value) as nat);
        assert(text.skip(1) == digits);
    } else {
        lemma_decimal_digits(value as nat);
    }
}

/// Appends the decimal digits of `n`.
fn push_decimal(out: &mut Vec<char>, n: u64)
    ensures
        final(out)@ == old(out)@ + decimal_digits(n as nat),
    decreases n,
{
    if n >= 10 {
        push_decimal(out, n / 10);
    }
    let digit: u8 = (n % 10) as u8;
    out.push((0x30 + digit) as char);
}

/// Writes an integer in decimal; see [`decimal_text`].
pub fn format_i32(value: i32) -> (out: String)
    ensures
        out@ == decimal_text(value as int),
{
    let mut chars: Vec<char> = Vec::new();
    if value < 0 {
        chars.push('-');
        push_decimal(&mut chars, (-(value as i64)) as u64);
    } else {
        push_decimal(&mut chars, value as u64);
    }
    string_of(chars.as_slice())
}

/// The texts that a list of strings holds.
pub open spec fn strings(list: Seq<String>) -> Seq<Seq<char>> {
    Seq::new(list.len(), |i: int| list[i]@)
}

/// Appends a copy of `s` to a list of strings.
pub fn push_text(list: &mut Vec<String>, s: &str)
    ensures
        strings(final(list)@) == strings(old(list)@).push(s@),
{
    let copy = string_of(chars_of(s).as_slice());
    list.push(copy);
}

/// Number of bytes that a character takes in UTF-8.
pub open spec fn char_width(c: char) -> nat {
    let n = c as u32;
    if n < 0x80 {
        1
    } else if n < 0x800 {
        2
    } else if n < 0x10000 {
        3
    } else {
        4
    }
}

/// Number of bytes that a text takes in UTF-8.
pub open spec fn utf8_width(s: Seq<char>) -> nat
    decreases s.len(),
{
    if s.len() == 0 {
        0
    } else {
        utf8_width(s.drop_last()) + char_width(s.last())
    }
}

/// The part of `s` behind its first `offset` bytes in UTF-8; `None` where
/// that many bytes end inside a character or behind the end of the text.
pub open spec fn after_bytes(s: Seq<char>, offset: nat) -> Option<Seq<char>>
    decreases s.len(),
{
    if offset == 0 {
        Some(s)
    } else if s.len() == 0 || char_width(s[0]) > offset {
        None
    } else {
        after_bytes(s.drop_first(), (offset - char_width(s[0])) as nat)
    }
}

/// Number of bytes that one character takes in UTF-8.
pub fn width_of_char(c: char) -> (width: u8)
    ensures
        width == char_width(c),
{
    let n: u32 = c as u32;
    if n < 0x80 {
        1
    } else if n < 0x800 {
        2
    } else if n < 0x10000 {
        3
    } else {
        4
    }
}

/// Number of bytes that a text takes in UTF-8.
pub fn width_of(s: &[char]) -> (width: u128)
    ensures
        width == utf8_width(s@),
{
    let mut width: u128 = 0;
    let mut i: usize = 0;
    while i < s.len()
        invariant
            i <= s.len(),
            width == utf8_width(s@.take(i as int)),
            width <= 4 * i,
        decreases s.len() - i,
    {
        proof {
            assert(s@.take(i + 1).drop_last() == s@.take(i as int));
        }
        width = width + width_of_char(s[i]) as u128;
        i = i + 1;
    }
    proof {
        assert(s@.take(i as int) == s@);
    }
    width
}

/// The part of `s` behind its first `offset` bytes; see [`after_bytes`].
pub fn skip_bytes<'a>(s: &'a [char], offset: u128) -> (rest: Option<&'a [char]>)
    ensures
        match rest {
            Some(rest) => after_bytes(s@, offset as nat) == Some(rest@),
            None => after_bytes(s@, offset as nat) is None,
        },
{
    let mut left: u128 = offset;
    let mut i: usize = 0;
    proof {
        assert(s@.skip(0) == s@);
    }
    while left > 0
        invariant
            i <= s.len(),
            after_bytes(s@, offset as nat) == after_bytes(s@.skip(i as int), left as nat),
        decreases s.len() - i,
    {
        if i >= s.len() {
            return None;
        }
        let width = width_of_char(s[i]) as u128;
        proof {
            assert(s@.skip(i as int).drop_first() == s@.skip(i + 1));
        }
        if width > left {
            return None;
        }
        left = left - width;
        i = i + 1;
    }
    let rest = slice_subrange(s, i, s.len());
    Some(rest)
}

} // verus!
