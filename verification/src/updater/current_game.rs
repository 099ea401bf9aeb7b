//! The installed game: where it is and which build it is.
use vstd::prelude::*;
use crate::pattern::{capture_named, capture_outcome, capture_view, CaptureError};

verus! {

/// The installed game.
#[derive(Debug, Clone)]
pub struct CurrentGame {
    pub path: String,
    pub build_number: String,
}

/// The pattern by which the build number is found in `VERSION.txt`.
pub open spec fn version_pattern() -> Seq<char> {
    "(?ms)build number: (?P<version>.*?)\ncommit sha"@
}

/// The build number is looked up as the text after the label
/// `build number: ` up to the next line that starts with `commit sha`,
/// across lines, the shortest such text.
pub proof fn lemma_version_pattern()
    ensures
        version_pattern() == "(?ms)build number: (?P<version>.*?)\ncommit sha"@,
        forall|t: Seq<char>|
            #[trigger] recorded_build(t) == capture_outcome(
                "(?ms)build number: (?P<version>.*?)\ncommit sha"@,
                t,
                "version"@,
            ),
{
}

/// The build number that the text of a `VERSION.txt` names.
pub open spec fn recorded_build(version_text: Seq<char>) -> Result<Seq<char>, CaptureError> {
    capture_outcome(version_pattern(), version_text, "version"@)
}

/// The installed game that `new` describes: the build number is empty where
/// there is no `VERSION.txt`.
pub open spec fn game_outcome(gamedir: Seq<char>, version_text: Option<Seq<char>>) -> Result<
    (Seq<char>, Seq<char>),
    CaptureError,
> {
    match version_text {
        None => Ok((gamedir, Seq::empty())),
        Some(t) => match recorded_build(t) {
            Ok(b) => Ok((gamedir, b)),
            Err(e) => Err(e),
        },
    }
}

/// A game by its path and build number.
pub open spec fn game_view(r: Result<CurrentGame, CaptureError>) -> Result<
    (Seq<char>, Seq<char>),
    CaptureError,
> {
    match r {
        Ok(g) => Ok((g.path@, g.build_number@)),
        Err(e) => Err(e),
    }
}

/// The build number written in the text of a `VERSION.txt`.
pub fn build_in_version_file(version_text: &str) -> (r: Result<String, CaptureError>)
    ensures
        capture_view(r) == recorded_build(version_text@),
        capture_view(r) == capture_outcome(
            "(?ms)build number: (?P<version>.*?)\ncommit sha"@,
            version_text@,
            "version"@,
        ),
{
    capture_named("(?ms)build number: (?P<version>.*?)\ncommit sha", version_text, "version")
}

impl CurrentGame {
    /// The game in `gamedir` whose build number is the capture, if the
    /// capture succeeded.
    pub fn from_capture(gamedir: &str, capture: Result<String, CaptureError>) -> (r: Result<
        CurrentGame,
        CaptureError,
    >)
        ensures
            game_view(r) == match capture_view(capture) {
                Ok(b) => Ok((gamedir@, b)),
                Err(e) => Err::<(Seq<char>, Seq<char>), CaptureError>(e),
            },
    {
        match capture {
            Ok(b) => Ok(CurrentGame { path: gamedir.to_owned(), build_number: b }),
            Err(e) => Err(e),
        }
    }

    /// The game installed in `gamedir`; `version_file` is the text of its
    /// `VERSION.txt`, where there is one.
    pub fn new(gamedir: &str, version_file: Option<&str>) -> (r: Result<CurrentGame, CaptureError>)
        ensures
            game_view(r) == game_outcome(
                gamedir@,
                match version_file {
                    Some(t) => Some(t@),
                    None => None,
                },
            ),
    {
        match version_file {
            Some(text) => {
                let found = build_in_version_file(text);
                CurrentGame::from_capture(gamedir, found)
            },
            None => Ok(CurrentGame { path: gamedir.to_owned(), build_number: String::new() }),
        }
    }
}

} // verus!
