//! Named-group lookups with the `regex` crate.
use vstd::prelude::*;

verus! {

/// The error of `regex::Regex::new`, carried through as it is.
#[verifier::external_type_specification]
#[verifier::external_body]
pub struct ExRegexError(regex::Error);

/// Whether `regex::Regex::new` accepts `pattern`.
pub uninterp spec fn regex_accepts(pattern: Seq<char>) -> bool;

/// What the group named `group` captures in the leftmost-first match of
/// `pattern` in `haystack` (`Regex::captures`, then `Captures::name`): none
/// where nothing matches or the group takes no part in the match.
pub uninterp spec fn regex_first_capture(
    pattern: Seq<char>,
    haystack: Seq<char>,
    group: Seq<char>,
) -> Option<Seq<char>>;

/// Calls `regex::Regex::new(pattern)`; where that succeeds, calls `captures`
/// on `haystack` and `Captures::name(group)` on the match, and copies the
/// matched text. The contract claims that `Regex::new` fails exactly on the
/// patterns that `regex_accepts` rejects, and that the text handed back is
/// the one `regex_first_capture` names; what that is for a given pattern is
/// left to the `regex` crate.
#[verifier::external_body]
fn regex_capture(pattern: &str, haystack: &str, group: &str) -> (r: Result<
    Option<String>,
    regex::Error,
>)
    ensures
        r is Ok <==> regex_accepts(pattern@),
        r matches Ok(found) ==> match found {
            Some(t) => regex_first_capture(pattern@, haystack@, group@) == Some(t@),
            None => regex_first_capture(pattern@, haystack@, group@) is None,
        },
{
    let re = match regex::Regex::new(pattern) {
        Ok(re) => re,
        Err(e) => return Err(e),
    };
    match re.captures(haystack) {
        Some(caps) => match caps.name(group) {
            Some(m) => Ok(Some(m.as_str().to_string())),
            None => Ok(None),
        },
        None => Ok(None),
    }
}

/// Why a named group could not be read.
#[derive(Debug, Clone, Copy, PartialEq, Eq, Structural)]
pub enum CaptureError {
    /// The `regex` crate rejected the pattern.
    PatternRejected,
    /// The pattern does not match, or the group takes no part in the match.
    NoMatch,
}

/// The outcome of reading group `group` of the first match of `pattern`.
pub open spec fn capture_outcome(pattern: Seq<char>, haystack: Seq<char>, group: Seq<char>) -> Result<
    Seq<char>,
    CaptureError,
> {
    if !regex_accepts(pattern) {
        Err(CaptureError::PatternRejected)
    } else {
        match regex_first_capture(pattern, haystack, group) {
            Some(t) => Ok(t),
            None => Err(CaptureError::NoMatch),
        }
    }
}

/// A captured text by its view.
pub open spec fn capture_view(r: Result<String, CaptureError>) -> Result<Seq<char>, CaptureError> {
    match r {
        Ok(s) => Ok(s@),
        Err(e) => Err(e),
    }
}

/// The text that group `group` captures in the first match of `pattern` in
/// `haystack`.
pub fn capture_named(pattern: &str, haystack: &str, group: &str) -> (r: Result<String, CaptureError>)
    ensures
        capture_view(r) == capture_outcome(pattern@, haystack@, group@),
{
    match regex_capture(pattern, haystack, group) {
        Ok(Some(t)) => Ok(t),
        Ok(None) => Err(CaptureError::NoMatch),
        Err(_) => Err(CaptureError::PatternRejected),
    }
}

} // verus!
