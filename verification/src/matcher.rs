use vstd::prelude::*;

use crate::selector::{debug_quoted, debug_text, spec_non_empty};
use crate::text::{chars_eq_ignore_case, chars_of, contains_ignore_case, contains_sub, eq_ignore_case, lower_seq};
use crate::types::PeekabooXError;

verus! {

/// The error text `regex::Regex::new` gives for a pattern it refuses, or
/// `None` when it compiles the pattern.
pub uninterp spec fn regex_new_error(pattern: Seq<char>) -> Option<Seq<char>>;

/// Whether `pattern` compiles and its regex finds a match in `text`
/// (`Regex::is_match`).
pub uninterp spec fn regex_matches(pattern: Seq<char>, text: Seq<char>) -> bool;

/// Compiles `pattern` with `regex::Regex::new`; `None` when it compiles,
/// otherwise the regex crate's error text. The contract claims only that the
/// result is the named function of the pattern.
#[verifier::external_body]
fn regex_compile_error(pattern: &str) -> (r: Option<String>)
    ensures
        match regex_new_error(pattern@) {
            Some(t) => r matches Some(s) && s@ == t,
            None => r is None,
        },
{
    match regex::Regex::new(pattern) {
        Ok(_) => None,
        Err(error) => Some(format!("{error}")),
    }
}

/// `regex::Regex::new(pattern)` followed by `Regex::is_match(text)`, false
/// when the pattern does not compile. The contract claims that the result is
/// the named function of both texts, and that a match implies the pattern
/// compiles.
#[verifier::external_body]
fn regex_is_match(pattern: &str, text: &str) -> (r: bool)
    ensures
        r == regex_matches(pattern@, text@),
        r ==> regex_new_error(pattern@) is None,
{
    match regex::Regex::new(pattern) {
        Ok(regex) => regex.is_match(text),
        Err(_) => false,
    }
}

/// How a selector value is compared with an element's text.
#[derive(Debug, Clone, Copy, PartialEq, Eq, Structural)]
pub enum TextMatchMode {
    Contains,
    Exact,
    Regex,
}

/// A selector value and how it is compared.
#[derive(Debug, Clone, PartialEq, Eq)]
pub struct TextMatcher {
    pub value: String,
    pub mode: TextMatchMode,
}

/// The mathematical form of a [`TextMatcher`].
pub struct TextMatcherView {
    pub value: Seq<char>,
    pub mode: TextMatchMode,
}

impl View for TextMatcher {
    type V = TextMatcherView;

    open spec fn view(&self) -> TextMatcherView {
        TextMatcherView { value: self.value@, mode: self.mode }
    }
}

/// ASCII case-insensitive substring test.
pub open spec fn spec_contains_ci(value: Seq<char>, needle: Seq<char>) -> bool {
    contains_sub(lower_seq(value), lower_seq(needle))
}

/// Whether a matcher accepts a text: a case-insensitive substring, a
/// case-insensitive equality, or a regex search.
pub open spec fn spec_matcher_matches(m: TextMatcherView, text: Seq<char>) -> bool {
    match m.mode {
        TextMatchMode::Contains => spec_contains_ci(text, m.value),
        TextMatchMode::Exact => eq_ignore_case(text, m.value),
        TextMatchMode::Regex => regex_matches(m.value, text),
    }
}

/// A substring matcher for a value that is not blank.
pub open spec fn spec_contains_matcher(value: Seq<char>) -> Option<TextMatcherView> {
    match spec_non_empty(value) {
        Some(v) => Some(TextMatcherView { value: v, mode: TextMatchMode::Contains }),
        None => None,
    }
}

/// An exact matcher for a value that is not blank.
pub open spec fn spec_exact_matcher(value: Seq<char>) -> Option<TextMatcherView> {
    match spec_non_empty(value) {
        Some(v) => Some(TextMatcherView { value: v, mode: TextMatchMode::Exact }),
        None => None,
    }
}

/// A regex matcher for the trimmed value; an empty value gives none and a
/// pattern the regex crate refuses is an error.
pub open spec fn spec_regex_matcher(value: Seq<char>) -> Result<Option<TextMatcherView>, Seq<char>> {
    match spec_non_empty(value) {
        None => Ok(None),
        Some(v) => match regex_new_error(v) {
            None => Ok(Some(TextMatcherView { value: v, mode: TextMatchMode::Regex })),
            Some(e) => Err("invalid selector regex "@ + debug_quoted(v) + ": "@ + e),
        },
    }
}

/// The view of an optional matcher.
pub open spec fn opt_matcher(m: Option<TextMatcher>) -> Option<TextMatcherView> {
    match m {
        Some(x) => Some(x@),
        None => None,
    }
}

/// Whether `value` contains `needle`, ignoring ASCII case.
pub fn contains_case_insensitive(value: &str, needle: &str) -> (r: bool)
    ensures
        r == spec_contains_ci(value@, needle@),
{
    let v = chars_of(value);
    let n = chars_of(needle);
    contains_ignore_case(&v, &n)
}

fn trimmed_value(value: &str) -> (r: Option<String>)
    ensures
        match spec_non_empty(value@) {
            Some(t) => r matches Some(s) && s@ == t,
            None => r is None,
        },
{
    crate::selector::non_empty_string(value)
}

impl TextMatcher {
    /// A substring matcher for the trimmed value, if it is not empty.
    pub fn contains(value: &str) -> (r: Option<Self>)
        ensures
            opt_matcher(r) == spec_contains_matcher(value@),
    {
        match trimmed_value(value) {
            Some(v) => Some(TextMatcher { value: v, mode: TextMatchMode::Contains }),
            None => None,
        }
    }

    /// An equality matcher for the trimmed value, if it is not empty.
    pub fn exact(value: &str) -> (r: Option<Self>)
        ensures
            opt_matcher(r) == spec_exact_matcher(value@),
    {
        match trimmed_value(value) {
            Some(v) => Some(TextMatcher { value: v, mode: TextMatchMode::Exact }),
            None => None,
        }
    }

    /// A regex matcher for the trimmed value (see [`spec_regex_matcher`]).
    pub fn regex(value: &str) -> (r: Result<Option<Self>, PeekabooXError>)
        ensures
            match spec_regex_matcher(value@) {
                Ok(m) => r matches Ok(x) && opt_matcher(x) == m,
                Err(msg) => r matches Err(e) && e.message@ == msg,
            },
    {
        let v = match trimmed_value(value) {
            Some(v) => v,
            None => return Ok(None),
        };
        match regex_compile_error(v.as_str()) {
            None => Ok(Some(TextMatcher { value: v, mode: TextMatchMode::Regex })),
            Some(error) => {
                let mut m = String::from_str("invalid selector regex ");
                let chars = chars_of(v.as_str());
                let q = debug_text(&chars);
                m.append(q.as_str());
                m.append(": ");
                m.append(error.as_str());
                Err(PeekabooXError::new(m))
            },
        }
    }

    /// Whether the matcher accepts `value` (see [`spec_matcher_matches`]).
    pub fn matches(&self, value: &str) -> (r: bool)
        ensures
            r == spec_matcher_matches(self@, value@),
    {
        match self.mode {
            TextMatchMode::Contains => contains_case_insensitive(value, self.value.as_str()),
            TextMatchMode::Exact => {
                let a = chars_of(value);
                let b = chars_of(self.value.as_str());
                chars_eq_ignore_case(&a, &b)
            },
            TextMatchMode::Regex => regex_is_match(self.value.as_str(), value),
        }
    }
}

} // verus!
