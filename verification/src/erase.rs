use vstd::prelude::*;
use vstd::string::*;
use crate::cmd::result_view;
use crate::log::{records_view, LogRecord};
use crate::text::{contains, contains_seq};

verus! {

/// How a selected disk is erased, by the kind its menu line names.
#[derive(Clone, Copy, Debug, PartialEq, Eq, Structural)]
pub enum DiskKind {
    /// DoD 5220.22-M overwrite.
    Hdd,
    /// Secure erase.
    Ssd,
    /// Skipped with an error.
    Unknown,
}

/// A line naming "HDD" is a hard disk, else one naming "SSD" is an SSD.
pub open spec fn kind_of(disk: Seq<char>) -> DiskKind {
    if contains_seq(disk, "HDD"@) {
        DiskKind::Hdd
    } else if contains_seq(disk, "SSD"@) {
        DiskKind::Ssd
    } else {
        DiskKind::Unknown
    }
}

pub fn classify_disk(disk: &str) -> (r: DiskKind)
    ensures
        r == kind_of(disk@),
{
    if contains(disk, "HDD") {
        DiskKind::Hdd
    } else if contains(disk, "SSD") {
        DiskKind::Ssd
    } else {
        DiskKind::Unknown
    }
}

/// The error for a disk of unknown kind.
pub fn unknown_disk_error(disk: &str) -> (r: String)
    ensures
        r@ == "Unknown disk type for "@ + disk@ + ". Skipping..."@,
{
    let mut s = String::from_str("Unknown disk type for ");
    s.append(disk);
    s.append(". Skipping...");
    s
}

/// The log entry written before a disk is erased.
pub fn start_record(disk: &str) -> (r: LogRecord)
    ensures
        r@ == ("Starting erase for "@ + disk@, "In Progress"@, "Initiating disk erasure process."@),
{
    let mut a = String::from_str("Starting erase for ");
    a.append(disk);
    LogRecord::new(a, "In Progress", String::from_str("Initiating disk erasure process."))
}

pub open spec fn outcome_record_of(disk: Seq<char>, r: Result<(), Seq<char>>) -> (
    Seq<char>,
    Seq<char>,
    Seq<char>,
) {
    match r {
        Ok(()) => ("Erase complete for "@ + disk, "Success"@, "Disk erased successfully."@),
        Err(e) => ("Erase failed for "@ + disk, "Error"@, e),
    }
}

/// The log entry written after a disk was erased, or failed to be.
pub fn outcome_record(disk: &str, r: &Result<(), String>) -> (rec: LogRecord)
    ensures
        rec@ == outcome_record_of(disk@, result_view(*r)),
{
    match r {
        Ok(()) => {
            let mut a = String::from_str("Erase complete for ");
            a.append(disk);
            LogRecord::new(a, "Success", String::from_str("Disk erased successfully."))
        },
        Err(e) => {
            let mut a = String::from_str("Erase failed for ");
            a.append(disk);
            LogRecord::new(a, "Error", e.clone())
        },
    }
}

/// What the erasure of one selected disk asks to be done next.
pub enum DiskJobAction {
    /// Run the DoD 5220.22-M wipe on the disk and report its result.
    EraseHdd,
    /// Run the secure erase on the disk and report its result.
    EraseSsd,
    /// The disk is done, with this result.
    Done(Result<(), String>),
}

pub enum DiskJobActionView {
    EraseHdd,
    EraseSsd,
    Done(Result<(), Seq<char>>),
}

impl View for DiskJobAction {
    type V = DiskJobActionView;

    open spec fn view(&self) -> DiskJobActionView {
        match self {
            DiskJobAction::EraseHdd => DiskJobActionView::EraseHdd,
            DiskJobAction::EraseSsd => DiskJobActionView::EraseSsd,
            DiskJobAction::Done(r) => DiskJobActionView::Done(result_view(*r)),
        }
    }
}

/// The log entries to write, then the next action.
pub struct DiskJobStep {
    pub logs: Vec<LogRecord>,
    pub action: DiskJobAction,
}

pub struct DiskJobStepView {
    pub logs: Seq<(Seq<char>, Seq<char>, Seq<char>)>,
    pub action: DiskJobActionView,
}

impl View for DiskJobStep {
    type V = DiskJobStepView;

    open spec fn view(&self) -> DiskJobStepView {
        DiskJobStepView { logs: records_view(self.logs@), action: self.action@ }
    }
}

/// The erasure of one selected disk: its start is logged, the erase that
/// fits its kind runs, and its outcome is logged.
pub struct DiskJob {
    disk: String,
    done: bool,
}

pub struct DiskJobView {
    pub disk: Seq<char>,
    pub done: bool,
}

impl View for DiskJob {
    type V = DiskJobView;

    closed spec fn view(&self) -> DiskJobView {
        DiskJobView { disk: self.disk@, done: self.done }
    }
}

pub open spec fn start_record_of(disk: Seq<char>) -> (Seq<char>, Seq<char>, Seq<char>) {
    ("Starting erase for "@ + disk, "In Progress"@, "Initiating disk erasure process."@)
}

pub open spec fn unknown_disk_text(disk: Seq<char>) -> Seq<char> {
    "Unknown disk type for "@ + disk + ". Skipping..."@
}

/// A disk's job and what it does first: log the start, then erase by kind,
/// or, for a disk of unknown kind, end at once with an error, logged.
pub open spec fn job_start(disk: Seq<char>) -> (DiskJobView, DiskJobStepView) {
    match kind_of(disk) {
        DiskKind::Hdd => (
            DiskJobView { disk, done: false },
            DiskJobStepView { logs: seq![start_record_of(disk)], action: DiskJobActionView::EraseHdd },
        ),
        DiskKind::Ssd => (
            DiskJobView { disk, done: false },
            DiskJobStepView { logs: seq![start_record_of(disk)], action: DiskJobActionView::EraseSsd },
        ),
        DiskKind::Unknown => (
            DiskJobView { disk, done: true },
            DiskJobStepView {
                logs: seq![
                    start_record_of(disk),
                    outcome_record_of(disk, Err(unknown_disk_text(disk))),
                ],
                action: DiskJobActionView::Done(Err(unknown_disk_text(disk))),
            },
        ),
    }
}

/// The erase ended with `r`: its outcome is logged and the disk is done.
pub open spec fn job_finish(j: DiskJobView, r: Result<(), Seq<char>>) -> (DiskJobView, DiskJobStepView) {
    (
        DiskJobView { done: true, ..j },
        DiskJobStepView { logs: seq![outcome_record_of(j.disk, r)], action: DiskJobActionView::Done(r) },
    )
}

impl DiskJob {
    /// Starts the erasure of `disk`.
    pub fn start(disk: &str) -> (r: (DiskJob, DiskJobStep))
        ensures
            (r.0@, r.1@) == job_start(disk@),
    {
        let mut logs: Vec<LogRecord> = Vec::new();
        logs.push(start_record(disk));
        match classify_disk(disk) {
            DiskKind::Hdd => {
                let step = DiskJobStep { logs, action: DiskJobAction::EraseHdd };
                assert(step@.logs =~= job_start(disk@).1.logs);
                (DiskJob { disk: String::from_str(disk), done: false }, step)
            },
            DiskKind::Ssd => {
                let step = DiskJobStep { logs, action: DiskJobAction::EraseSsd };
                assert(step@.logs =~= job_start(disk@).1.logs);
                (DiskJob { disk: String::from_str(disk), done: false }, step)
            },
            DiskKind::Unknown => {
                let e = unknown_disk_error(disk);
                let r: Result<(), String> = Err(e);
                logs.push(outcome_record(disk, &r));
                let step = DiskJobStep { logs, action: DiskJobAction::Done(r) };
                assert(step@.logs =~= job_start(disk@).1.logs);
                (DiskJob { disk: String::from_str(disk), done: true }, step)
            },
        }
    }

    /// Takes in how the erase ended.
    pub fn finish(&mut self, r: Result<(), String>) -> (step: DiskJobStep)
        requires
            !old(self)@.done,
        ensures
            (final(self)@, step@) == job_finish(old(self)@, result_view(r)),
    {
        let mut logs: Vec<LogRecord> = Vec::new();
        logs.push(outcome_record(self.disk.as_str(), &r));
        self.done = true;
        let step = DiskJobStep { logs, action: DiskJobAction::Done(r) };
        assert(step@.logs =~= job_finish(old(self)@, result_view(r)).1.logs);
        step
    }
}

/// The log of one disk holds its start entry and then its outcome entry,
/// and the job ends with the result of its erase: for a disk of known kind,
/// the one the erase gave; for a disk of unknown kind, the error that skips it.
pub proof fn law_disk_job_log(disk: Seq<char>, r: Result<(), Seq<char>>)
    ensures
        kind_of(disk) != DiskKind::Unknown ==> {
            &&& !job_start(disk).0.done
            &&& job_start(disk).1.logs + job_finish(job_start(disk).0, r).1.logs == seq![
                start_record_of(disk),
                outcome_record_of(disk, r),
            ]
            &&& job_finish(job_start(disk).0, r).1.action == DiskJobActionView::Done(r)
        },
        kind_of(disk) == DiskKind::Unknown ==> {
            &&& job_start(disk).0.done
            &&& job_start(disk).1.logs == seq![
                start_record_of(disk),
                outcome_record_of(disk, Err(unknown_disk_text(disk))),
            ]
            &&& job_start(disk).1.action == DiskJobActionView::Done(Err(unknown_disk_text(disk)))
        },
{
    if kind_of(disk) != DiskKind::Unknown {
        assert(job_start(disk).1.logs + job_finish(job_start(disk).0, r).1.logs =~= seq![
            start_record_of(disk),
            outcome_record_of(disk, r),
        ]);
    }
}

/// The error texts of the results, in order; every failed disk counts,
/// whatever its error text.
pub open spec fn errors_of(rs: Seq<Result<(), Seq<char>>>) -> Seq<Seq<char>>
    decreases rs.len(),
{
    if rs.len() == 0 {
        seq![]
    } else {
        let before = errors_of(rs.drop_last());
        match rs.last() {
            Err(e) => before.push(e),
            Ok(()) => before,
        }
    }
}

pub open spec fn results_view(rs: Seq<Result<(), String>>) -> Seq<Result<(), Seq<char>>> {
    rs.map_values(|r: Result<(), String>| result_view(r))
}

/// The errors of the erased disks, in the order of the disks.
pub fn collect_errors(results: &Vec<Result<(), String>>) -> (r: Vec<String>)
    ensures
        r.deep_view() == errors_of(results_view(results@)),
{
    let ghost all = results_view(results@);
    let mut out: Vec<String> = Vec::new();
    let n = results.len();
    let mut i: usize = 0;
    while i < n
        invariant
            n == results@.len(),
            all == results_view(results@),
            i <= n,
            out.deep_view() == errors_of(all.take(i as int)),
        decreases n - i,
    {
        assert(all.take(i + 1).drop_last() =~= all.take(i as int));
        assert(all.take(i + 1).last() == result_view(results@[i as int]));
        match &results[i] {
            Ok(()) => {},
            Err(e) => {
                let ghost before = out.deep_view();
                out.push(e.clone());
                assert(out.deep_view() =~= before.push(e@));
            },
        }
        i = i + 1;
    }
    assert(all.take(n as int) =~= all);
    out
}

/// What `format!("{:?}", items)` writes for a list of texts.
pub uninterp spec fn debug_list(items: Seq<Seq<char>>) -> Seq<char>;

/// Calls the `Debug` formatting of `Vec<String>` through `format!`. Its
/// contract claims only that the text is a function of the items, named
/// `debug_list`; the quoting and escaping it applies are not restated here.
#[verifier::external_body]
fn debug_text(items: &Vec<String>) -> (r: String)
    ensures
        r@ == debug_list(items.deep_view()),
{
    format!("{:?}", items)
}

/// The closing log entries for `has_errors` and the text that lists the
/// errors: the process is complete, then either that list or the word that
/// there were none.
pub open spec fn closing_records(has_errors: bool, listing: Seq<char>) -> Seq<(Seq<char>, Seq<char>, Seq<char>)> {
    seq![
        (
            "Erasure process"@,
            "Complete"@,
            "Disk erasure process completed for all selected disks."@,
        ),
        if has_errors {
            ("Errors encountered during erasure"@, "Error"@, listing)
        } else {
            ("Erasure Summary"@, "No errors"@, "All disks erased successfully."@)
        },
    ]
}

/// The log entries written when every disk has been handled.
pub open spec fn summary_records_of(errors: Seq<Seq<char>>) -> Seq<(Seq<char>, Seq<char>, Seq<char>)> {
    closing_records(errors.len() > 0, debug_list(errors))
}

/// The closing log entries, given whether there were errors and the text
/// that lists them.
pub fn closing_records_for(has_errors: bool, listing: String) -> (r: Vec<LogRecord>)
    ensures
        records_view(r@) == closing_records(has_errors, listing@),
{
    let mut out: Vec<LogRecord> = Vec::new();
    out.push(
        LogRecord::new(
            String::from_str("Erasure process"),
            "Complete",
            String::from_str("Disk erasure process completed for all selected disks."),
        ),
    );
    if has_errors {
        out.push(LogRecord::new(String::from_str("Errors encountered during erasure"), "Error", listing));
    } else {
        out.push(
            LogRecord::new(
                String::from_str("Erasure Summary"),
                "No errors",
                String::from_str("All disks erased successfully."),
            ),
        );
    }
    assert(records_view(out@) =~= closing_records(has_errors, listing@));
    out
}

/// The closing log entries: the process is complete, then either the list
/// of errors (as `{:?}` writes it) or the word that there were none.
pub fn summary_records(errors: &Vec<String>) -> (r: Vec<LogRecord>)
    ensures
        records_view(r@) == summary_records_of(errors.deep_view()),
{
    let listing = debug_text(errors);
    closing_records_for(errors.len() > 0, listing)
}

proof fn lemma_errors_of_ok(rs: Seq<Result<(), Seq<char>>>)
    requires
        forall|i: int| 0 <= i < rs.len() ==> #[trigger] rs[i] is Ok,
    ensures
        errors_of(rs).len() == 0,
    decreases rs.len(),
{
    if rs.len() > 0 {
        lemma_errors_of_ok(rs.drop_last());
        assert(rs.last() == rs[rs.len() - 1]);
    }
}

proof fn lemma_errors_of_err(rs: Seq<Result<(), Seq<char>>>, i: int)
    requires
        0 <= i < rs.len(),
        rs[i] is Err,
    ensures
        errors_of(rs).len() > 0,
    decreases rs.len(),
{
    if i < rs.len() - 1 {
        lemma_errors_of_err(rs.drop_last(), i);
    } else {
        assert(rs.last() == rs[i]);
    }
}

/// The summary says "No errors" exactly when no disk ended with an error.
pub proof fn law_summary_no_errors(rs: Seq<Result<(), Seq<char>>>)
    ensures
        summary_records_of(errors_of(rs))[1].1 == "No errors"@ <==> forall|i: int|
            0 <= i < rs.len() ==> #[trigger] rs[i] is Ok,
{
    if forall|i: int| 0 <= i < rs.len() ==> #[trigger] rs[i] is Ok {
        lemma_errors_of_ok(rs);
    } else {
        let i = choose|i: int| 0 <= i < rs.len() && !(#[trigger] rs[i] is Ok);
        lemma_errors_of_err(rs, i);
        reveal_strlit("No errors");
        reveal_strlit("Error");
        assert("Error"@ != "No errors"@) by {
            assert("Error"@.len() != "No errors"@.len());
        }
    }
}

} // verus!
