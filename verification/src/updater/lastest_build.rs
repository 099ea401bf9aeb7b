//! The newest experimental build, as the download page announces it.
use vstd::prelude::*;
use crate::pattern::{capture_named, capture_outcome, capture_view, CaptureError};

verus! {

/// The newest build.
#[derive(Debug, Clone)]
pub struct LatestBuild {
    pub build_number: String,
}

/// The pattern by which the build number is found on the release page.
pub open spec fn build_page_pattern() -> Seq<char> {
    "<h2 id=.*?>.*(?P<build>\\d{4}-\\d{2}-\\d{2}-\\d{4})</h2>"@
}

/// The build number is looked up in the first line of the page that holds
/// an `<h2 id=..>` heading ending in a build number of the form
/// `dddd-dd-dd-dddd`: without the `s` flag, no match spans a line break.
pub proof fn lemma_build_page_pattern()
    ensures
        build_page_pattern() == "<h2 id=.*?>.*(?P<build>\\d{4}-\\d{2}-\\d{2}-\\d{4})</h2>"@,
        forall|p: Seq<char>|
            #[trigger] announced_build(p) == capture_outcome(
                "<h2 id=.*?>.*(?P<build>\\d{4}-\\d{2}-\\d{2}-\\d{4})</h2>"@,
                p,
                "build"@,
            ),
{
}

/// The build number that the release page `page` announces.
pub open spec fn announced_build(page: Seq<char>) -> Result<Seq<char>, CaptureError> {
    capture_outcome(build_page_pattern(), page, "build"@)
}

/// The build number of a release page.
pub fn build_on_page(page: &str) -> (r: Result<String, CaptureError>)
    ensures
        capture_view(r) == announced_build(page@),
        capture_view(r) == capture_outcome(
            "<h2 id=.*?>.*(?P<build>\\d{4}-\\d{2}-\\d{2}-\\d{4})</h2>"@,
            page@,
            "build"@,
        ),
{
    capture_named("<h2 id=.*?>.*(?P<build>\\d{4}-\\d{2}-\\d{2}-\\d{4})</h2>", page, "build")
}

impl LatestBuild {
    /// A build not known yet: its number is empty.
    pub fn new() -> (r: LatestBuild)
        ensures
            r.build_number@ == Seq::<char>::empty(),
    {
        LatestBuild { build_number: String::new() }
    }

    /// Takes the build number from a capture: on success it becomes the
    /// build number; on failure nothing changes.
    pub fn set_from_capture(&mut self, capture: Result<String, CaptureError>) -> (r: Result<
        (),
        CaptureError,
    >)
        ensures
            match capture_view(capture) {
                Ok(b) => r is Ok && final(self).build_number@ == b,
                Err(e) => r == Err::<(), CaptureError>(e) && *final(self) == *old(self),
            },
    {
        match capture {
            Ok(b) => {
                self.build_number = b;
                Ok(())
            },
            Err(e) => Err(e),
        }
    }

    /// Reads the newest build number off the text of the release page.
    pub fn pull(&mut self, page: &str) -> (r: Result<(), CaptureError>)
        ensures
            match announced_build(page@) {
                Ok(b) => r is Ok && final(self).build_number@ == b,
                Err(e) => r == Err::<(), CaptureError>(e) && *final(self) == *old(self),
            },
    {
        let found = build_on_page(page);
        self.set_from_capture(found)
    }
}

} // verus!
