//! Validation of user-supplied names (room ids, usernames).
//!
//! A name is acceptable when every character is a lowercase ASCII letter, an
//! ASCII digit, `-` or `_`.  The checks are ordered: whitespace is reported
//! before other malformed characters, and an uppercase ASCII letter gets its
//! own message.  `valid_alphanumeric_name` reports the violation of the first
//! offending character, or `None` when the whole name is acceptable.

use vstd::prelude::*;
use vstd::string::StrSliceExecFns;
use vstd::string::StringExecFns;

verus! {

/// The kind of rule a single character can break, checked in this order.
#[derive(Debug, PartialEq, Eq)]
pub enum NameViolation {
    Whitespace,
    NotAlphanumeric,
    Uppercase,
}

/// Characters that are always acceptable as separators.
pub open spec fn spec_is_name_separator(c: char) -> bool {
    c == '-' || c == '_'
}

/// The Unicode `White_Space` code points.
pub open spec fn spec_is_whitespace(c: char) -> bool {
    ||| c == '\u{0009}'
    ||| c == '\u{000A}'
    ||| c == '\u{000B}'
    ||| c == '\u{000C}'
    ||| c == '\u{000D}'
    ||| c == ' '
    ||| c == '\u{0085}'
    ||| c == '\u{00A0}'
    ||| c == '\u{1680}'
    ||| ('\u{2000}' <= c && c <= '\u{200A}')
    ||| c == '\u{2028}'
    ||| c == '\u{2029}'
    ||| c == '\u{202F}'
    ||| c == '\u{205F}'
    ||| c == '\u{3000}'
}

pub open spec fn spec_is_ascii_alphanumeric(c: char) -> bool {
    ||| ('0' <= c && c <= '9')
    ||| ('a' <= c && c <= 'z')
    ||| ('A' <= c && c <= 'Z')
}

pub open spec fn spec_is_ascii_uppercase(c: char) -> bool {
    'A' <= c && c <= 'Z'
}

/// The rule (if any) that a single character breaks, in checking order.
pub open spec fn char_violation(c: char) -> Option<NameViolation> {
    if spec_is_name_separator(c) {
        None
    } else if spec_is_whitespace(c) {
        Some(NameViolation::Whitespace)
    } else if !spec_is_ascii_alphanumeric(c) {
        Some(NameViolation::NotAlphanumeric)
    } else if spec_is_ascii_uppercase(c) {
        Some(NameViolation::Uppercase)
    } else {
        None
    }
}

/// The violation of the first offending character at or after index `i`.
pub open spec fn first_violation_from(s: Seq<char>, i: int) -> Option<NameViolation>
    decreases s.len() - i,
{
    if i < 0 || i >= s.len() {
        None
    } else if char_violation(s[i]) is Some {
        char_violation(s[i])
    } else {
        first_violation_from(s, i + 1)
    }
}

/// The violation of the first offending character of `s`, if any.
pub open spec fn first_violation(s: Seq<char>) -> Option<NameViolation> {
    first_violation_from(s, 0)
}

/// The user-facing message for a violation, prefixed by the name of the
/// object under validation.
pub open spec fn violation_message(subject: Seq<char>, v: NameViolation) -> Seq<char> {
    match v {
        NameViolation::Whitespace => subject + " must not contain any whitespace"@,
        NameViolation::NotAlphanumeric => subject
            + " must only contain alphanumeric characters or -/_"@,
        NameViolation::Uppercase => subject + " must only contain lowercase characters"@,
    }
}

fn is_whitespace_char(c: char) -> (r: bool)
    ensures
        r == spec_is_whitespace(c),
{
    c == '\u{0009}' || c == '\u{000A}' || c == '\u{000B}' || c == '\u{000C}' || c == '\u{000D}'
        || c == ' ' || c == '\u{0085}' || c == '\u{00A0}' || c == '\u{1680}' || ('\u{2000}' <= c
        && c <= '\u{200A}') || c == '\u{2028}' || c == '\u{2029}' || c == '\u{202F}'
        || c == '\u{205F}' || c == '\u{3000}'
}

fn is_ascii_alphanumeric_char(c: char) -> (r: bool)
    ensures
        r == spec_is_ascii_alphanumeric(c),
{
    ('0' <= c && c <= '9') || ('a' <= c && c <= 'z') || ('A' <= c && c <= 'Z')
}

/// Checks `value` character by character and reports the first violation as a
/// `(message, code)` pair, with `validation_obj_name` naming the validated
/// object in the message.  Returns `None` when the name is acceptable.
pub fn valid_alphanumeric_name(value: &str, validation_obj_name: &str) -> (r: Option<
    (String, String),
>)
    ensures
        r is None <==> first_violation(value@) is None,
        r matches Some(p) ==> {
            &&& first_violation(value@) matches Some(v) && p.0@ == violation_message(
                validation_obj_name@,
                v,
            )
            &&& p.1@ == "wrong_format"@
        },
{
    let n = value.unicode_len();
    let mut i: usize = 0;
    while i < n
        invariant
            i <= n,
            n == value@.len(),
            first_violation(value@) == first_violation_from(value@, i as int),
        decreases n - i,
    {
        let c = value.get_char(i);
        if c == '-' || c == '_' {
            i = i + 1;
            continue ;
        }
        if is_whitespace_char(c) {
            let mut message = value_subject(validation_obj_name);
            message.append(" must not contain any whitespace");
            return Some((message, String::from_str("wrong_format")));
        }
        if !is_ascii_alphanumeric_char(c) {
            let mut message = value_subject(validation_obj_name);
            message.append(" must only contain alphanumeric characters or -/_");
            return Some((message, String::from_str("wrong_format")));
        }
        if 'A' <= c && c <= 'Z' {
            let mut message = value_subject(validation_obj_name);
            message.append(" must only contain lowercase characters");
            return Some((message, String::from_str("wrong_format")));
        }
        i = i + 1;
    }
    None
}

fn value_subject(validation_obj_name: &str) -> (r: String)
    ensures
        r@ == validation_obj_name@,
{
    validation_obj_name.to_owned()
}

/// `s` without its leading whitespace.
pub open spec fn drop_leading_whitespace(s: Seq<char>) -> Seq<char>
    decreases s.len(),
{
    if s.len() == 0 {
        s
    } else if spec_is_whitespace(s.first()) {
        drop_leading_whitespace(s.drop_first())
    } else {
        s
    }
}

/// `s` without its trailing whitespace.
pub open spec fn drop_trailing_whitespace(s: Seq<char>) -> Seq<char>
    decreases s.len(),
{
    if s.len() == 0 {
        s
    } else if spec_is_whitespace(s.last()) {
        drop_trailing_whitespace(s.drop_last())
    } else {
        s
    }
}

/// `s` without its surrounding whitespace.
pub open spec fn spec_trim(s: Seq<char>) -> Seq<char> {
    drop_trailing_whitespace(drop_leading_whitespace(s))
}

proof fn lemma_drop_leading_whitespace(s: Seq<char>, i: int)
    requires
        0 <= i <= s.len(),
        forall|k: int| 0 <= k < i ==> spec_is_whitespace(s[k]),
        i < s.len() ==> !spec_is_whitespace(s[i]),
    ensures
        drop_leading_whitespace(s) =~= s.skip(i),
    decreases i,
{
    if i == 0 {
        assert(s.skip(0) =~= s);
    } else {
        lemma_drop_leading_whitespace(s.drop_first(), i - 1);
        assert(s.drop_first().skip(i - 1) =~= s.skip(i));
    }
}

proof fn lemma_drop_trailing_whitespace(s: Seq<char>, j: int)
    requires
        0 <= j <= s.len(),
        forall|k: int| j <= k < s.len() ==> spec_is_whitespace(s[k]),
        j > 0 ==> !spec_is_whitespace(s[j - 1]),
    ensures
        drop_trailing_whitespace(s) =~= s.take(j),
    decreases s.len() - j,
{
    if j == s.len() {
        assert(s.take(j) =~= s);
    } else {
        lemma_drop_trailing_whitespace(s.drop_last(), j);
        assert(s.drop_last().take(j) =~= s.take(j));
    }
}

/// Removes surrounding whitespace from a submitted name.
pub fn trim_name<'a>(s: &'a str) -> (r: &'a str)
    ensures
        r@ == spec_trim(s@),
{
    let n = s.unicode_len();
    let mut start: usize = 0;
    while start < n
        invariant_except_break
            start <= n,
            n == s@.len(),
            forall|k: int| 0 <= k < start ==> spec_is_whitespace(s@[k]),
        ensures
            start <= n,
            n == s@.len(),
            forall|k: int| 0 <= k < start ==> spec_is_whitespace(s@[k]),
            start < n ==> !spec_is_whitespace(s@[start as int]),
        decreases n - start,
    {
        if !is_whitespace_char(s.get_char(start)) {
            break ;
        }
        start = start + 1;
    }
    let mut end: usize = n;
    while end > start
        invariant_except_break
            start <= end <= n,
            n == s@.len(),
            forall|k: int| end <= k < n ==> spec_is_whitespace(s@[k]),
        ensures
            start <= end <= n,
            n == s@.len(),
            forall|k: int| end <= k < n ==> spec_is_whitespace(s@[k]),
            end > start ==> !spec_is_whitespace(s@[end - 1]),
        decreases end,
    {
        if !is_whitespace_char(s.get_char(end - 1)) {
            break ;
        }
        end = end - 1;
    }
    let r = s.substring_char(start, end);
    proof {
        lemma_drop_leading_whitespace(s@, start as int);
        lemma_drop_trailing_whitespace(s@.skip(start as int), end - start);
        assert(s@.skip(start as int).take(end - start) =~= s@.subrange(
            start as int,
            end as int,
        ));
    }
    r
}

/// Validates a submitted room id: surrounding whitespace is tolerated and
/// removed, and what remains must be an acceptable name.
pub fn validate_session_id(session_id: &str) -> (r: Option<(String, String)>)
    ensures
        r is None <==> first_violation(spec_trim(session_id@)) is None,
        r matches Some(p) ==> {
            &&& first_violation(spec_trim(session_id@)) matches Some(v) && p.0@
                == violation_message("Session id"@, v)
            &&& p.1@ == "wrong_format"@
        },
{
    let trimmed = trim_name(session_id);
    valid_alphanumeric_name(trimmed, "Session id")
}

/// Validates a submitted user name, like `validate_session_id`.
pub fn validate_username(username: &str) -> (r: Option<(String, String)>)
    ensures
        r is None <==> first_violation(spec_trim(username@)) is None,
        r matches Some(p) ==> {
            &&& first_violation(spec_trim(username@)) matches Some(v) && p.0@
                == violation_message("Username"@, v)
            &&& p.1@ == "wrong_format"@
        },
{
    let trimmed = trim_name(username);
    valid_alphanumeric_name(trimmed, "Username")
}

} // verus!
