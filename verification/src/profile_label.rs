//! The shared rule for user-given usage-profile labels.

use vstd::prelude::*;

use crate::text::{chars_of, string_of};

verus! {

/// Longest label, in Unicode scalar values.
pub const MAX_PROFILE_LABEL_CHARS: usize = 40;

/// Why a profile label was refused.
#[derive(Clone, Copy, Debug, PartialEq, Eq, Structural)]
pub enum ProfileValidationError {
    /// Nothing but whitespace.
    Empty,
    /// More than 40 characters after trimming.
    TooLong,
    /// A control character or a path character.
    InvalidCharacter,
}

/// Unicode `White_Space`, the set `str::trim` removes.
pub open spec fn is_white_space(c: char) -> bool {
    ||| '\u{9}' <= c <= '\u{d}'
    ||| c == ' '
    ||| c == '\u{85}'
    ||| c == '\u{a0}'
    ||| c == '\u{1680}'
    ||| '\u{2000}' <= c <= '\u{200a}'
    ||| c == '\u{2028}'
    ||| c == '\u{2029}'
    ||| c == '\u{202f}'
    ||| c == '\u{205f}'
    ||| c == '\u{3000}'
}

/// Control characters and the characters that paths and shells treat
/// specially.
pub open spec fn is_forbidden_label_char(c: char) -> bool {
    ||| c < ' '
    ||| '\u{7f}' <= c <= '\u{9f}'
    ||| c == '/'
    ||| c == '\\'
    ||| c == ':'
    ||| c == '*'
    ||| c == '?'
    ||| c == '"'
    ||| c == '<'
    ||| c == '>'
    ||| c == '|'
}

/// `s` without its leading whitespace.
pub open spec fn trim_start(s: Seq<char>) -> Seq<char>
    decreases s.len(),
{
    if s.len() > 0 && is_white_space(s[0]) {
        trim_start(s.drop_first())
    } else {
        s
    }
}

/// `s` without its trailing whitespace.
pub open spec fn trim_end(s: Seq<char>) -> Seq<char>
    decreases s.len(),
{
    if s.len() > 0 && is_white_space(s.last()) {
        trim_end(s.drop_last())
    } else {
        s
    }
}

/// `s` without leading and trailing whitespace.
pub open spec fn trimmed(s: Seq<char>) -> Seq<char> {
    trim_end(trim_start(s))
}

/// The normalized label of `s`, or why it is refused: trimmed, non-empty, at
/// most 40 characters, and free of control and path characters.
pub open spec fn normalized_label(s: Seq<char>) -> Result<Seq<char>, ProfileValidationError> {
    let t = trimmed(s);
    if t.len() == 0 {
        Err(ProfileValidationError::Empty)
    } else if t.len() > MAX_PROFILE_LABEL_CHARS {
        Err(ProfileValidationError::TooLong)
    } else if exists|i: int| 0 <= i < t.len() && is_forbidden_label_char(#[trigger] t[i]) {
        Err(ProfileValidationError::InvalidCharacter)
    } else {
        Ok(t)
    }
}

proof fn lemma_trim_start_skip(s: Seq<char>, i: int)
    requires
        0 <= i < s.len(),
        is_white_space(s[i]),
    ensures
        trim_start(s.skip(i)) == trim_start(s.skip(i + 1)),
{
    assert(s.skip(i).drop_first() =~= s.skip(i + 1));
}

proof fn lemma_trim_end_take(s: Seq<char>, j: int)
    requires
        0 < j <= s.len(),
        is_white_space(s[j - 1]),
    ensures
        trim_end(s.take(j)) == trim_end(s.take(j - 1)),
{
    assert(s.take(j).drop_last() =~= s.take(j - 1));
}

fn is_white_space_char(c: char) -> (b: bool)
    ensures
        b == is_white_space(c),
{
    ('\u{9}' <= c && c <= '\u{d}') || c == ' ' || c == '\u{85}' || c == '\u{a0}' || c
        == '\u{1680}' || ('\u{2000}' <= c && c <= '\u{200a}') || c == '\u{2028}' || c
        == '\u{2029}' || c == '\u{202f}' || c == '\u{205f}' || c == '\u{3000}'
}

fn is_forbidden_char(c: char) -> (b: bool)
    ensures
        b == is_forbidden_label_char(c),
{
    c < ' ' || ('\u{7f}' <= c && c <= '\u{9f}') || c == '/' || c == '\\' || c == ':' || c == '*'
        || c == '?' || c == '"' || c == '<' || c == '>' || c == '|'
}

/// Trims a user-given profile label and checks it: refused when empty, longer
/// than 40 characters, or holding a control or path character.
pub fn normalize_profile_label(value: &str) -> (r: Result<String, ProfileValidationError>)
    ensures
        match (r, normalized_label(value@)) {
            (Ok(label), Ok(expected)) => label@ == expected,
            (Err(e), Err(expected)) => e == expected,
            _ => false,
        },
{
    let chars = chars_of(value);
    let ghost s = chars@;
    let mut start: usize = 0;
    assert(s.skip(0) =~= s);
    while start < chars.len() && is_white_space_char(chars[start])
        invariant
            s == chars@,
            start <= chars.len(),
            trim_start(s) == trim_start(s.skip(start as int)),
        decreases chars.len() - start,
    {
        proof {
            lemma_trim_start_skip(s, start as int);
        }
        start += 1;
    }
    let ghost rest = s.skip(start as int);
    assert(trim_start(s) == rest) by {
        if rest.len() > 0 {
            assert(rest[0] == s[start as int]);
        }
    }
    let mut end: usize = chars.len();
    assert(rest.take(end - start) =~= rest);
    while end > start && is_white_space_char(chars[end - 1])
        invariant
            s == chars@,
            rest == s.skip(start as int),
            start <= end <= chars.len(),
            trim_end(rest) == trim_end(rest.take(end - start)),
        decreases end - start,
    {
        proof {
            assert(rest[end - start - 1] == s[end - 1]);
            lemma_trim_end_take(rest, (end - start) as int);
        }
        end -= 1;
    }
    let ghost t = rest.take(end - start);
    assert(trimmed(s) == t) by {
        if t.len() > 0 {
            assert(t.last() == s[end - 1]);
        }
    }
    assert(t =~= s.subrange(start as int, end as int));
    if end == start {
        return Err(ProfileValidationError::Empty);
    }
    if end - start > MAX_PROFILE_LABEL_CHARS {
        return Err(ProfileValidationError::TooLong);
    }
    let mut i: usize = start;
    while i < end
        invariant
            s == chars@,
            start <= i <= end <= chars.len(),
            t =~= s.subrange(start as int, end as int),
            s == value@,
            trimmed(s) == t,
            0 < end - start <= MAX_PROFILE_LABEL_CHARS,
            forall|k: int| start <= k < i ==> !is_forbidden_label_char(#[trigger] s[k]),
        decreases end - i,
    {
        if is_forbidden_char(chars[i]) {
            assert(t[i - start] == s[i as int]);
            assert(is_forbidden_label_char(t[i - start]));
            return Err(ProfileValidationError::InvalidCharacter);
        }
        i += 1;
    }
    assert forall|k: int| 0 <= k < t.len() implies !is_forbidden_label_char(#[trigger] t[k]) by {
        assert(t[k] == s[start + k]);
    }
    let label = string_of(&chars.as_slice()[start..end]);
    Ok(label)
}

/// Whether `value` holds nothing but whitespace.
pub fn is_blank(value: &str) -> (b: bool)
    ensures
        b == (forall|i: int| 0 <= i < value@.len() ==> is_white_space(#[trigger] value@[i])),
{
    let chars = chars_of(value);
    let mut i: usize = 0;
    while i < chars.len()
        invariant
            chars@ == value@,
            i <= chars.len(),
            forall|k: int| 0 <= k < i ==> is_white_space(#[trigger] chars@[k]),
        decreases chars.len() - i,
    {
        if !is_white_space_char(chars[i]) {
            return false;
        }
        i += 1;
    }
    true
}

/// A character a label may hold: printable (not a C0 or C1 control
/// character) and none of the path and shell characters
/// `/ \ : * ? " < > |`. Letters, digits, punctuation and inner spaces all
/// qualify.
pub open spec fn label_char_allowed(c: char) -> bool {
    &&& ' ' <= c
    &&& !('\u{7f}' <= c && c <= '\u{9f}')
    &&& c != '/' && c != '\\' && c != ':' && c != '*' && c != '?' && c != '"' && c != '<' && c != '>' && c != '|'
}

proof fn lemma_trim_start_len(s: Seq<char>)
    ensures
        trim_start(s).len() <= s.len(),
        s.len() > 0 && is_white_space(s[0]) ==> trim_start(s).len() < s.len(),
    decreases s.len(),
{
    if s.len() > 0 && is_white_space(s[0]) {
        lemma_trim_start_len(s.drop_first());
    }
}

proof fn lemma_trim_end_len(s: Seq<char>)
    ensures
        trim_end(s).len() <= s.len(),
        s.len() > 0 && is_white_space(s.last()) ==> trim_end(s).len() < s.len(),
    decreases s.len(),
{
    if s.len() > 0 && is_white_space(s.last()) {
        lemma_trim_end_len(s.drop_last());
    }
}

/// A label that trimming leaves unchanged starts and ends with a
/// non-whitespace character.
proof fn lemma_trimmed_ends(s: Seq<char>)
    requires
        s.len() > 0,
        trimmed(s) == s,
    ensures
        !is_white_space(s[0]),
        !is_white_space(s.last()),
{
    lemma_trim_start_len(s);
    lemma_trim_end_len(trim_start(s));
    if !is_white_space(s[0]) {
        assert(trim_start(s) == s);
        lemma_trim_end_len(s);
    }
}

/// A label of one to 40 allowed characters that neither starts nor ends
/// with whitespace is accepted exactly as given.
pub proof fn lemma_clean_label_is_accepted(s: Seq<char>)
    requires
        0 < s.len() <= MAX_PROFILE_LABEL_CHARS,
        !is_white_space(s[0]),
        !is_white_space(s.last()),
        forall|i: int| 0 <= i < s.len() ==> label_char_allowed(#[trigger] s[i]),
    ensures
        normalized_label(s) == Ok::<Seq<char>, ProfileValidationError>(s),
{
    assert(trim_start(s) == s);
    assert(trim_end(s) == s);
    assert forall|i: int| 0 <= i < s.len() implies !is_forbidden_label_char(#[trigger] s[i]) by {
        assert(label_char_allowed(s[i]));
    }
}

/// Two accepted labels joined by one space, within the length limit, make
/// an accepted label: a space inside a name never makes it invalid.
pub proof fn lemma_words_join_with_a_space(a: Seq<char>, b: Seq<char>)
    requires
        normalized_label(a) == Ok::<Seq<char>, ProfileValidationError>(a),
        normalized_label(b) == Ok::<Seq<char>, ProfileValidationError>(b),
        a.len() + 1 + b.len() <= MAX_PROFILE_LABEL_CHARS,
    ensures
        normalized_label(a + seq![' '] + b) == Ok::<Seq<char>, ProfileValidationError>(a + seq![' '] + b),
{
    let s = a + seq![' '] + b;
    lemma_trimmed_ends(a);
    lemma_trimmed_ends(b);
    assert(s[0] == a[0]);
    assert(s.last() == b.last());
    assert forall|i: int| 0 <= i < s.len() implies label_char_allowed(#[trigger] s[i]) by {
        if i < a.len() {
            assert(s[i] == a[i]);
            assert(!is_forbidden_label_char(a[i]));
        } else if i == a.len() {
            assert(s[i] == ' ');
        } else {
            assert(s[i] == b[i - a.len() - 1]);
            assert(!is_forbidden_label_char(b[i - a.len() - 1]));
        }
    }
    lemma_clean_label_is_accepted(s);
}

/// A label holding a control character or a path character anywhere in
/// its trimmed text is refused as invalid, once it is neither empty nor too
/// long.
pub proof fn lemma_unsafe_character_is_refused(s: Seq<char>, i: int)
    requires
        0 < trimmed(s).len() <= MAX_PROFILE_LABEL_CHARS,
        0 <= i < trimmed(s).len(),
        !label_char_allowed(trimmed(s)[i]),
    ensures
        normalized_label(s) == Err::<Seq<char>, ProfileValidationError>(ProfileValidationError::InvalidCharacter),
{
    assert(is_forbidden_label_char(trimmed(s)[i]));
}

} // verus!
