//! Decoding one line of the downloader's output into a progress report.
//!
//! The shape of a progress line is fixed by [`PROGRESS_PATTERN`]. Matching the
//! pattern is left to the `regex` crate; what is done with its capture groups
//! is decided here.

use vstd::prelude::*;

verus! {

/// The shape of a progress line: the tag `[download]`, a percentage, the
/// word `of`, a total size that a tilde may stand before, the word `at`, a
/// transfer rate, the word `ETA`, and the remaining time as minutes and
/// seconds or as `Unknown`. Size and rate carry one of the magnitude markers
/// `K`, `M` and `G`. The four measures have a capture group each, in that
/// order.
pub const PROGRESS_PATTERN: &'static str =
    r"\[download\]\s+(\d+(?:\.\d+)?)%\s+of\s+(?:~\s*)?(\d+(?:\.\d+)?[GMK]iB)\s+at\s+(\d+\.\d+[GMK]iB/s)\s+ETA\s+(\d+:\d+|Unknown)";

/// The capture group that holds the percentage.
pub const PERCENT_GROUP: usize = 1;

/// The capture group that holds the total size.
pub const SIZE_GROUP: usize = 2;

/// The capture group that holds the transfer rate.
pub const SPEED_GROUP: usize = 3;

/// The capture group that holds the remaining time.
pub const ETA_GROUP: usize = 4;

/// How far one download has come, as the downloader printed it. The four
/// measures are kept as text, exactly as they stood in the line.
#[derive(Debug, PartialEq, Eq)]
pub struct DownloadProgress {
    pub url: String,
    pub percent: String,
    pub size_downloaded: String,
    pub speed: String,
    pub eta: String,
}

/// What a [`DownloadProgress`] holds.
pub ghost struct ProgressView {
    pub url: Seq<char>,
    pub percent: Seq<char>,
    pub size_downloaded: Seq<char>,
    pub speed: Seq<char>,
    pub eta: Seq<char>,
}

impl View for DownloadProgress {
    type V = ProgressView;

    open spec fn view(&self) -> ProgressView {
        ProgressView {
            url: self.url@,
            percent: self.percent@,
            size_downloaded: self.size_downloaded@,
            speed: self.speed@,
            eta: self.eta@,
        }
    }
}

impl DeepView for DownloadProgress {
    type V = ProgressView;

    open spec fn deep_view(&self) -> ProgressView {
        self@
    }
}

impl Clone for DownloadProgress {
    fn clone(&self) -> (copy: Self)
        ensures
            copy@ == self@,
    {
        DownloadProgress {
            url: self.url.clone(),
            percent: self.percent.clone(),
            size_downloaded: self.size_downloaded.clone(),
            speed: self.speed.clone(),
            eta: self.eta.clone(),
        }
    }
}

/// The capture groups that `regex::Regex::captures` reports for the first
/// match of `pattern` in `haystack`: group 0 (the whole match) first, then the
/// groups in the order of their opening brackets, each with the text it
/// matched or `None` if it took no part. `None` if nothing in `haystack`
/// matches, or if `regex::Regex::new` does not accept `pattern`.
pub uninterp spec fn regex_captures(pattern: Seq<char>, haystack: Seq<char>) -> Option<
    Seq<Option<Seq<char>>>,
>;

/// Compiles `pattern` with `regex::Regex::new` and searches `haystack` with
/// `regex::Regex::captures`. The result is a function of the two texts alone;
/// the contract gives it its name and claims nothing else of it.
#[verifier::external_body]
fn capture_groups(pattern: &str, haystack: &str) -> (groups: Option<Vec<Option<String>>>)
    ensures
        groups.deep_view() == regex_captures(pattern@, haystack@),
{
    let expression = regex::Regex::new(pattern).ok()?;
    let captures = expression.captures(haystack)?;
    Some(captures.iter().map(|group| group.map(|found| found.as_str().to_string())).collect())
}

/// Whether `groups` has a text in each of the four groups of a progress line.
pub open spec fn has_progress_groups(groups: Seq<Option<Seq<char>>>) -> bool {
    &&& groups.len() > ETA_GROUP
    &&& groups[PERCENT_GROUP as int] is Some
    &&& groups[SIZE_GROUP as int] is Some
    &&& groups[SPEED_GROUP as int] is Some
    &&& groups[ETA_GROUP as int] is Some
}

/// The progress report that a search result stands for: none if the search
/// found nothing or a group is missing, else the four groups, unchanged, under
/// the download's `url`.
pub open spec fn progress_of(url: Seq<char>, captures: Option<Seq<Option<Seq<char>>>>) -> Option<
    ProgressView,
> {
    match captures {
        Some(groups) => if has_progress_groups(groups) {
            Some(
                ProgressView {
                    url,
                    percent: groups[PERCENT_GROUP as int]->0,
                    size_downloaded: groups[SIZE_GROUP as int]->0,
                    speed: groups[SPEED_GROUP as int]->0,
                    eta: groups[ETA_GROUP as int]->0,
                },
            )
        } else {
            None
        },
        None => None,
    }
}

/// The text of group `index`, if `groups` has one there.
fn group_text(groups: &Vec<Option<String>>, index: usize) -> (text: Option<String>)
    ensures
        text.deep_view() == if index < groups.len() {
            groups.deep_view()[index as int]
        } else {
            None
        },
{
    if index < groups.len() {
        match &groups[index] {
            Some(found) => Some(found.clone()),
            None => None,
        }
    } else {
        None
    }
}

/// Builds the progress report for `url` from the capture groups of a search.
pub fn progress_from_captures(url: &str, captures: &Option<Vec<Option<String>>>) -> (progress:
    Option<DownloadProgress>)
    ensures
        progress.deep_view() == progress_of(url@, captures.deep_view()),
{
    match captures {
        Some(groups) => {
            let percent = group_text(groups, PERCENT_GROUP);
            let size_downloaded = group_text(groups, SIZE_GROUP);
            let speed = group_text(groups, SPEED_GROUP);
            let eta = group_text(groups, ETA_GROUP);
            match (percent, size_downloaded, speed, eta) {
                (Some(percent), Some(size_downloaded), Some(speed), Some(eta)) => Some(
                    DownloadProgress {
                        url: url.to_owned(),
                        percent,
                        size_downloaded,
                        speed,
                        eta,
                    },
                ),
                _ => None,
            }
        },
        None => None,
    }
}

/// Decodes one line of downloader output. A line that is no progress line
/// gives `None`; no line is an error.
pub fn parse_progress(url: &str, line: &str) -> (progress: Option<DownloadProgress>)
    ensures
        progress.deep_view() == progress_of(url@, regex_captures(PROGRESS_PATTERN@, line@)),
{
    let captures = capture_groups(PROGRESS_PATTERN, line);
    progress_from_captures(url, &captures)
}

} // verus!
