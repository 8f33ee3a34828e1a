//! Searching text with regular expressions.

use vstd::prelude::*;

verus! {

/// What the first match of a pattern in a text gives for one of its
/// groups. The outer value is absent where the pattern is refused, the
/// inner one where the pattern does not match or the group took no part
/// in the match.
pub uninterp spec fn regex_group(pattern: Seq<char>, text: Seq<char>, group: nat) -> Option<
    Option<Seq<char>>,
>;

/// `regex::Error`: why a pattern was refused. Nothing is read of it.
#[verifier::external_type_specification]
#[verifier::external_body]
pub struct ExRegexError(regex::Error);

/// `regex::Regex::new` compiles the pattern, or refuses it with an
/// error where it is invalid or too large; `Regex::captures` searches
/// the text for the leftmost first match; `Captures::get` gives the
/// group with the given index, or nothing where there is no such group
/// or it took no part in the match; `Match::as_str` gives the matched
/// stretch of the text. None of them panics, and the outcome depends on
/// pattern, text and index alone.
#[verifier::external_body]
pub(crate) fn first_capture(pattern: &str, text: &str, group: usize) -> (found: Result<
    Option<String>,
    regex::Error,
>)
    ensures
        regex_group(pattern@, text@, group as nat) == match found {
            Ok(Some(part)) => Some(Some(part@)),
            Ok(None) => Some(None::<Seq<char>>),
            Err(_) => None,
        },
{
    match regex::Regex::new(pattern) {
        Ok(re) => match re.captures(text) {
            Some(caps) => match caps.get(group) {
                Some(part) => Ok(Some(part.as_str().to_string())),
                None => Ok(None),
            },
            None => Ok(None),
        },
        Err(error) => Err(error),
    }
}

/// What a search gave, with the refusal of the pattern as an outcome of
/// its own.
#[derive(Clone, Debug, PartialEq, Eq)]
pub enum Capture {
    /// The pattern was refused.
    Refused,
    /// The pattern did not match, or the group took no part.
    Missing,
    /// The text of the group.
    Text(String),
}

pub enum CaptureModel {
    Refused,
    Missing,
    Text(Seq<char>),
}

impl View for Capture {
    type V = CaptureModel;

    open spec fn view(&self) -> CaptureModel {
        match self {
            Capture::Refused => CaptureModel::Refused,
            Capture::Missing => CaptureModel::Missing,
            Capture::Text(text) => CaptureModel::Text(text@),
        }
    }
}

pub open spec fn capture_of(found: Option<Option<Seq<char>>>) -> CaptureModel {
    match found {
        None => CaptureModel::Refused,
        Some(None) => CaptureModel::Missing,
        Some(Some(text)) => CaptureModel::Text(text),
    }
}

impl CaptureModel {
    pub open spec fn text(self) -> Option<Seq<char>> {
        match self {
            CaptureModel::Text(text) => Some(text),
            _ => None,
        }
    }
}

/// Searches `text` for `pattern` and gives what the group with the
/// index `group` matched.
pub fn capture(pattern: &str, text: &str, group: usize) -> (found: Capture)
    ensures
        found@ == capture_of(regex_group(pattern@, text@, group as nat)),
{
    match first_capture(pattern, text, group) {
        Ok(Some(part)) => Capture::Text(part),
        Ok(None) => Capture::Missing,
        Err(_) => Capture::Refused,
    }
}

} // verus!
