use vstd::prelude::*;
use vstd::string::*;
use crate::number::{parse_u64, parse_unsigned};

verus! {

/// What `Regex::new(pattern)` and then `captures(haystack)` give for capture
/// group `group`: `None` when the pattern does not compile, `Some(None)`
/// when there is no match or the group took no part in it, and
/// `Some(Some(text))` with the text of the group otherwise.
pub uninterp spec fn regex_group(pattern: Seq<char>, haystack: Seq<char>, group: nat) -> Option<
    Option<Seq<char>>,
>;

/// Calls `regex::Regex::new`, `Regex::captures`, `Captures::get` and
/// `Match::as_str`. Its contract claims that the result is a function of the
/// three arguments alone, named `regex_group`, and that a group's text is a
/// piece of the haystack (`Match::as_str` slices the haystack); what the
/// regular expression matches is not restated here.
#[verifier::external_body]
fn regex_capture(pattern: &str, haystack: &str, group: usize) -> (r: Option<Option<String>>)
    ensures
        match r {
            None => regex_group(pattern@, haystack@, group as nat) is None,
            Some(None) => regex_group(pattern@, haystack@, group as nat) == Some(
                None::<Seq<char>>,
            ),
            Some(Some(m)) => {
                &&& regex_group(pattern@, haystack@, group as nat) == Some(Some(m@))
                &&& exists|i: int, j: int|
                    0 <= i <= j <= haystack@.len() && haystack@.subrange(i, j) == m@
            },
        },
{
    match regex::Regex::new(pattern) {
        Ok(re) => match re.captures(haystack) {
            Some(caps) => match caps.get(group) {
                Some(m) => Some(Some(m.as_str().to_string())),
                None => Some(None),
            },
            None => Some(None),
        },
        Err(_) => None,
    }
}

/// The count of bytes at the start of a `dd status=progress` line.
pub const DD_PROGRESS_PATTERN: &'static str = "^(\\d+)\\s+bytes";

/// The byte count that a capture of the count group gives: its text read as
/// a `u64`, when there was such a text and it reads.
pub open spec fn progress_of_capture(cap: Option<Option<Seq<char>>>) -> Option<u64> {
    match cap {
        Some(Some(digits)) => match parse_unsigned(digits, u64::MAX as nat) {
            Ok(n) => Some(n as u64),
            Err(_) => None,
        },
        _ => None,
    }
}

/// The progress position for what the regular expression captured.
pub fn progress_from_capture(cap: Option<Option<String>>) -> (r: Option<u64>)
    ensures
        r == progress_of_capture(
            match cap {
                None => None,
                Some(None) => Some(None),
                Some(Some(s)) => Some(Some(s@)),
            },
        ),
{
    match cap {
        Some(Some(digits)) => match parse_u64(digits.as_str()) {
            Ok(n) => Some(n),
            Err(_) => None,
        },
        _ => None,
    }
}

/// The number of bytes copied that a line of `dd status=progress` reports,
/// if it starts with one.
pub fn parse_dd_progress(line: &str) -> (r: Option<u64>)
    ensures
        r == progress_of_capture(regex_group(DD_PROGRESS_PATTERN@, line@, 1)),
{
    let cap = regex_capture(DD_PROGRESS_PATTERN, line, 1);
    progress_from_capture(cap)
}

/// The `dd` command with progress reports on its error output.
pub fn dd_progress_command(command: &str) -> (r: String)
    ensures
        r@ == command@ + " status=progress"@,
{
    let mut s = String::from_str(command);
    s.append(" status=progress");
    s
}

/// How a run of `dd` with progress ended.
pub enum DdOutcome {
    /// It could not be started; the text of the error.
    SpawnFailed(String),
    /// Its error output could not be taken.
    NoStderr,
    /// Waiting for it failed; the text of the error.
    WaitFailed(String),
    /// It exited; whether with success, and the exit status as text.
    Exited { success: bool, status: String },
}

pub enum DdOutcomeView {
    SpawnFailed(Seq<char>),
    NoStderr,
    WaitFailed(Seq<char>),
    Exited { success: bool, status: Seq<char> },
}

impl View for DdOutcome {
    type V = DdOutcomeView;

    open spec fn view(&self) -> DdOutcomeView {
        match self {
            DdOutcome::SpawnFailed(e) => DdOutcomeView::SpawnFailed(e@),
            DdOutcome::NoStderr => DdOutcomeView::NoStderr,
            DdOutcome::WaitFailed(e) => DdOutcomeView::WaitFailed(e@),
            DdOutcome::Exited { success, status } => DdOutcomeView::Exited {
                success: *success,
                status: status@,
            },
        }
    }
}

pub open spec fn dd_result_of(o: DdOutcomeView) -> Result<(), Seq<char>> {
    match o {
        DdOutcomeView::SpawnFailed(e) => Err("Failed to spawn dd command: "@ + e),
        DdOutcomeView::NoStderr => Err("Failed to capture stderr"@),
        DdOutcomeView::WaitFailed(e) => Err("Failed to wait for dd command: "@ + e),
        DdOutcomeView::Exited { success, status } => if success {
            Ok(())
        } else {
            Err("dd command failed with status: "@ + status + ". Check stderr logs above."@)
        },
    }
}

/// The result of a `dd` pass for how its run ended.
pub fn dd_result(o: DdOutcome) -> (r: Result<(), String>)
    ensures
        crate::cmd::result_view(r) == dd_result_of(o@),
{
    match o {
        DdOutcome::SpawnFailed(e) => {
            let mut s = String::from_str("Failed to spawn dd command: ");
            s.append(e.as_str());
            Err(s)
        },
        DdOutcome::NoStderr => Err(String::from_str("Failed to capture stderr")),
        DdOutcome::WaitFailed(e) => {
            let mut s = String::from_str("Failed to wait for dd command: ");
            s.append(e.as_str());
            Err(s)
        },
        DdOutcome::Exited { success, status } => if success {
            Ok(())
        } else {
            let mut s = String::from_str("dd command failed with status: ");
            s.append(status.as_str());
            s.append(". Check stderr logs above.");
            Err(s)
        },
    }
}

} // verus!
