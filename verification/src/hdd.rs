use vstd::prelude::*;
use vstd::string::*;
use crate::cmd::{result_view, CommandOutcome, CommandOutcomeView};
use crate::log::{records_view, LogRecord};
use crate::number::{decimal, parse_u64, parse_unsigned, u64_to_text, IntErrorKind};
use crate::text::{cat2, cat3, cat4, first_word, first_word_or_all, trim, trimmed};

verus! {

/// Where a DoD 5220.22-M wipe of a hard disk stands.
#[derive(Clone, Copy, Debug, PartialEq, Eq, Structural)]
pub enum HddStage {
    /// The size of the device has been asked for.
    SizeQuery,
    /// Random pass `i` (counting from 0) is running.
    RandomPass(u8),
    /// The pass that writes zeros is running.
    ZeroPass,
    /// The wipe has ended, well or not.
    Finished,
}

/// A DoD 5220.22-M wipe of one hard disk: three passes of random data, then
/// one of zeros, each over the whole device, stopping at the first failure.
pub struct HddWipe {
    device_name: String,
    size: u64,
    stage: HddStage,
}

pub struct HddWipeView {
    pub device_name: Seq<char>,
    pub size: nat,
    pub stage: HddStage,
}

impl View for HddWipe {
    type V = HddWipeView;

    closed spec fn view(&self) -> HddWipeView {
        HddWipeView { device_name: self.device_name@, size: self.size as nat, stage: self.stage }
    }
}

/// What the wipe learns from outside.
pub enum HddEvent {
    /// The outcome of the size query.
    SizeReported(CommandOutcome),
    /// How the running pass ended.
    PassFinished(Result<(), String>),
}

pub enum HddEventView {
    SizeReported(CommandOutcomeView),
    PassFinished(Result<(), Seq<char>>),
}

impl View for HddEvent {
    type V = HddEventView;

    open spec fn view(&self) -> HddEventView {
        match self {
            HddEvent::SizeReported(o) => HddEventView::SizeReported(o@),
            HddEvent::PassFinished(r) => HddEventView::PassFinished(result_view(*r)),
        }
    }
}

/// What the wipe asks to be done next.
pub enum HddAction {
    /// Run `command` with `sh -c` and report its outcome.
    QuerySize { command: String },
    /// Run the `dd` command `command` with progress over `total_bytes`,
    /// announcing it as `label`, and report how it ended.
    RunDd { label: String, command: String, total_bytes: u64 },
    /// The wipe is over, with this result.
    Finish(Result<(), String>),
}

pub enum HddActionView {
    QuerySize { command: Seq<char> },
    RunDd { label: Seq<char>, command: Seq<char>, total_bytes: nat },
    Finish(Result<(), Seq<char>>),
}

impl View for HddAction {
    type V = HddActionView;

    open spec fn view(&self) -> HddActionView {
        match self {
            HddAction::QuerySize { command } => HddActionView::QuerySize { command: command@ },
            HddAction::RunDd { label, command, total_bytes } => HddActionView::RunDd {
                label: label@,
                command: command@,
                total_bytes: *total_bytes as nat,
            },
            HddAction::Finish(r) => HddActionView::Finish(result_view(*r)),
        }
    }
}

/// The log entries to write, then the next action.
pub struct HddStep {
    pub logs: Vec<LogRecord>,
    pub action: HddAction,
}

pub struct HddStepView {
    pub logs: Seq<(Seq<char>, Seq<char>, Seq<char>)>,
    pub action: HddActionView,
}

impl View for HddStep {
    type V = HddStepView;

    open spec fn view(&self) -> HddStepView {
        HddStepView { logs: records_view(self.logs@), action: self.action@ }
    }
}

pub open spec fn size_command(dn: Seq<char>) -> Seq<char> {
    "blockdev --getsize64 "@ + dn
}

/// A `dd` pass that copies exactly `n` bytes from `input` onto the device
/// `dn`: the count is in bytes and input blocks are read whole, so the pass
/// ends with success once the last byte of an `n`-byte device is written,
/// rather than running into the end of the device.
pub open spec fn pass_command(input: Seq<char>, dn: Seq<char>, n: nat) -> Seq<char> {
    "dd if="@ + input + " of="@ + dn + " bs=4M count="@ + decimal(n)
        + " iflag=fullblock,count_bytes oflag=direct"@
}

pub open spec fn random_command(dn: Seq<char>, n: nat) -> Seq<char> {
    pass_command("/dev/urandom"@, dn, n)
}

pub open spec fn zero_command(dn: Seq<char>, n: nat) -> Seq<char> {
    pass_command("/dev/zero"@, dn, n)
}

/// "Pass <i+1>/3: Writing random data to <device>".
pub open spec fn random_label(i: nat, dn: Seq<char>) -> Seq<char> {
    "Pass "@ + decimal(i + 1) + "/3: Writing random data to "@ + dn
}

pub open spec fn zero_label(dn: Seq<char>) -> Seq<char> {
    "Final pass: Writing zeros to "@ + dn
}

pub open spec fn size_failed_text(dn: Seq<char>, why: Seq<char>) -> Seq<char> {
    "Failed to get device size for "@ + dn + ": "@ + why
}

pub open spec fn size_unreadable_text(output: Seq<char>, e: IntErrorKind) -> Seq<char> {
    "Failed to parse device size '"@ + output + "': "@ + e.spec_message()
}

pub open spec fn size_zero_text(dn: Seq<char>) -> Seq<char> {
    "Device size for "@ + dn + " is reported as 0. Cannot proceed."@
}

pub open spec fn pass_failed_text(i: nat, dn: Seq<char>, e: Seq<char>) -> Seq<char> {
    "Pass "@ + decimal(i + 1) + " failed for "@ + dn + ": "@ + e
}

pub open spec fn final_failed_text(dn: Seq<char>, e: Seq<char>) -> Seq<char> {
    "Final pass failed for "@ + dn + ": "@ + e
}

pub open spec fn size_record(dn: Seq<char>, size: nat) -> (Seq<char>, Seq<char>, Seq<char>) {
    ("Device Size"@, "Success"@, "Determined size for "@ + dn + " is "@ + decimal(size) + " bytes."@)
}

pub open spec fn finish_with(
    s: HddWipeView,
    logs: Seq<(Seq<char>, Seq<char>, Seq<char>)>,
    r: Result<(), Seq<char>>,
) -> (HddWipeView, HddStepView) {
    (
        HddWipeView { stage: HddStage::Finished, ..s },
        HddStepView { logs, action: HddActionView::Finish(r) },
    )
}

/// The wipe of the device named by the first word of `device`, and what
/// it does first: log its start and ask for the size of the device.
pub open spec fn hdd_start(device: Seq<char>) -> (HddWipeView, HddStepView) {
    let dn = first_word_or_all(device);
    (
        HddWipeView { device_name: dn, size: 0, stage: HddStage::SizeQuery },
        HddStepView {
            logs: seq![
                (
                    "DoD5220.22-M wipe started on: "@ + dn,
                    "In Progress"@,
                    "Random data and zeros will be written in multiple passes."@,
                ),
            ],
            action: HddActionView::QuerySize { command: size_command(dn) },
        },
    )
}

/// Which events the wipe waits for in each stage.
pub open spec fn hdd_accepts(s: HddWipeView, e: HddEventView) -> bool {
    match s.stage {
        HddStage::SizeQuery => e is SizeReported,
        HddStage::RandomPass(_) => e is PassFinished,
        HddStage::ZeroPass => e is PassFinished,
        HddStage::Finished => false,
    }
}

/// The next state of the wipe and what it does, for an event it waits for.
pub open spec fn hdd_next(s: HddWipeView, e: HddEventView) -> (HddWipeView, HddStepView) {
    let dn = s.device_name;
    match e {
        HddEventView::SizeReported(o) => match o {
            CommandOutcomeView::NotRun(why) => finish_with(s, seq![], Err(size_failed_text(dn, why))),
            CommandOutcomeView::Exited { success, stdout, stderr } => if !success {
                finish_with(s, seq![], Err(size_failed_text(dn, stderr)))
            } else {
                match parse_unsigned(trimmed(stdout), u64::MAX as nat) {
                    Err(k) => finish_with(s, seq![], Err(size_unreadable_text(stdout, k))),
                    Ok(n) => if n == 0 {
                        finish_with(s, seq![], Err(size_zero_text(dn)))
                    } else {
                        (
                            HddWipeView { size: n, stage: HddStage::RandomPass(0), ..s },
                            HddStepView {
                                logs: seq![size_record(dn, n)],
                                action: HddActionView::RunDd {
                                    label: random_label(0, dn),
                                    command: random_command(dn, n),
                                    total_bytes: n,
                                },
                            },
                        )
                    },
                }
            },
        },
        HddEventView::PassFinished(r) => match s.stage {
            HddStage::RandomPass(i) => match r {
                Ok(()) => {
                    let done = (random_label(i as nat, dn), "Success"@, "Random data written successfully."@);
                    if i + 1 < 3 {
                        (
                            HddWipeView { stage: HddStage::RandomPass((i + 1) as u8), ..s },
                            HddStepView {
                                logs: seq![done],
                                action: HddActionView::RunDd {
                                    label: random_label((i + 1) as nat, dn),
                                    command: random_command(dn, s.size),
                                    total_bytes: s.size,
                                },
                            },
                        )
                    } else {
                        (
                            HddWipeView { stage: HddStage::ZeroPass, ..s },
                            HddStepView {
                                logs: seq![done],
                                action: HddActionView::RunDd {
                                    label: zero_label(dn),
                                    command: zero_command(dn, s.size),
                                    total_bytes: s.size,
                                },
                            },
                        )
                    }
                },
                Err(why) => finish_with(
                    s,
                    seq![(random_label(i as nat, dn), "Failed"@, why)],
                    Err(pass_failed_text(i as nat, dn, why)),
                ),
            },
            _ => match r {
                Ok(()) => finish_with(
                    s,
                    seq![
                        (zero_label(dn), "Success"@, "Zeros written successfully."@),
                        (
                            "DoD5220.22-M wipe completed for: "@ + dn,
                            "Success"@,
                            "Random data and zeros were written successfully in all passes."@,
                        ),
                    ],
                    Ok(()),
                ),
                Err(why) => finish_with(
                    s,
                    seq![(zero_label(dn), "Failed"@, why)],
                    Err(final_failed_text(dn, why)),
                ),
            },
        },
    }
}

fn pass_command_of(input: &str, dn: &str, n: u64) -> (r: String)
    ensures
        r@ == pass_command(input@, dn@, n as nat),
{
    let count = u64_to_text(n);
    let mut s = cat4("dd if=", input, " of=", dn);
    s.append(" bs=4M count=");
    s.append(count.as_str());
    s.append(" iflag=fullblock,count_bytes oflag=direct");
    s
}

fn random_label_of(i: u8, dn: &str) -> (r: String)
    ensures
        r@ == random_label(i as nat, dn@),
{
    let k = u64_to_text(i as u64 + 1);
    cat4("Pass ", k.as_str(), "/3: Writing random data to ", dn)
}

impl HddWipe {
    /// The device that is wiped.
    pub fn device_name(&self) -> (r: &str)
        ensures
            r@ == self@.device_name,
    {
        self.device_name.as_str()
    }

    pub fn stage(&self) -> (r: HddStage)
        ensures
            r == self@.stage,
    {
        self.stage
    }

    /// Starts the wipe of the device named by the first word of `device`.
    pub fn start(device: &str) -> (r: (HddWipe, HddStep))
        ensures
            (r.0@, r.1@) == hdd_start(device@),
    {
        let dn = first_word(device);
        let started = cat2("DoD5220.22-M wipe started on: ", dn.as_str());
        let rec = LogRecord::new(
            started,
            "In Progress",
            String::from_str("Random data and zeros will be written in multiple passes."),
        );
        let mut logs: Vec<LogRecord> = Vec::new();
        logs.push(rec);
        let command = cat2("blockdev --getsize64 ", dn.as_str());
        let w = HddWipe { device_name: dn, size: 0, stage: HddStage::SizeQuery };
        let step = HddStep { logs, action: HddAction::QuerySize { command } };
        assert(records_view(step.logs@) =~= hdd_start(device@).1.logs);
        (w, step)
    }

    fn finish(&mut self, logs: Vec<LogRecord>, r: Result<(), String>) -> (step: HddStep)
        ensures
            (final(self)@, step@) == finish_with(old(self)@, records_view(logs@), result_view(r)),
    {
        self.stage = HddStage::Finished;
        HddStep { logs, action: HddAction::Finish(r) }
    }

    /// Takes in what happened outside and says what to do next.
    pub fn step(&mut self, event: HddEvent) -> (r: HddStep)
        requires
            hdd_accepts(old(self)@, event@),
        ensures
            (final(self)@, r@) == hdd_next(old(self)@, event@),
    {
        let ghost s0 = self@;
        let dn = self.device_name.clone();
        match event {
            HddEvent::SizeReported(outcome) => match outcome {
                CommandOutcome::NotRun(why) => {
                    let msg = cat3("Failed to get device size for ", dn.as_str(), ": ");
                    let msg = cat2(msg.as_str(), why.as_str());
                    let logs: Vec<LogRecord> = Vec::new();
                    assert(records_view(logs@) =~= seq![]);
                    self.finish(logs, Err(msg))
                },
                CommandOutcome::Exited { success, stdout, stderr } => {
                    let logs: Vec<LogRecord> = Vec::new();
                    assert(records_view(logs@) =~= seq![]);
                    if !success {
                        let msg = cat3("Failed to get device size for ", dn.as_str(), ": ");
                        let msg = cat2(msg.as_str(), stderr.as_str());
                        return self.finish(logs, Err(msg));
                    }
                    let t = trim(stdout.as_str());
                    match parse_u64(t.as_str()) {
                        Err(k) => {
                            let why = k.message();
                            let msg = cat4(
                                "Failed to parse device size '",
                                stdout.as_str(),
                                "': ",
                                why.as_str(),
                            );
                            self.finish(logs, Err(msg))
                        },
                        Ok(n) => {
                            if n == 0 {
                                let msg = cat3(
                                    "Device size for ",
                                    dn.as_str(),
                                    " is reported as 0. Cannot proceed.",
                                );
                                return self.finish(logs, Err(msg));
                            }
                            let nt = u64_to_text(n);
                            let det = cat4("Determined size for ", dn.as_str(), " is ", nt.as_str());
                            let det = cat2(det.as_str(), " bytes.");
                            let mut logs2: Vec<LogRecord> = Vec::new();
                            logs2.push(LogRecord::new(String::from_str("Device Size"), "Success", det));
                            let label = random_label_of(0, dn.as_str());
                            let command = pass_command_of("/dev/urandom", dn.as_str(), n);
                            self.size = n;
                            self.stage = HddStage::RandomPass(0);
                            let step = HddStep {
                                logs: logs2,
                                action: HddAction::RunDd { label, command, total_bytes: n },
                            };
                            assert(records_view(step.logs@) =~= hdd_next(s0, event@).1.logs);
                            step
                        },
                    }
                },
            },
            HddEvent::PassFinished(r) => match self.stage {
                HddStage::RandomPass(i) => {
                    let label = random_label_of(i, dn.as_str());
                    match r {
                        Ok(()) => {
                            let mut logs: Vec<LogRecord> = Vec::new();
                            logs.push(
                                LogRecord::new(
                                    label,
                                    "Success",
                                    String::from_str("Random data written successfully."),
                                ),
                            );
                            let action = if i < 2 {
                                self.stage = HddStage::RandomPass(i + 1);
                                HddAction::RunDd {
                                    label: random_label_of(i + 1, dn.as_str()),
                                    command: pass_command_of("/dev/urandom", dn.as_str(), self.size),
                                    total_bytes: self.size,
                                }
                            } else {
                                self.stage = HddStage::ZeroPass;
                                HddAction::RunDd {
                                    label: cat2("Final pass: Writing zeros to ", dn.as_str()),
                                    command: pass_command_of("/dev/zero", dn.as_str(), self.size),
                                    total_bytes: self.size,
                                }
                            };
                            let step = HddStep { logs, action };
                            assert(records_view(step.logs@) =~= hdd_next(s0, event@).1.logs);
                            step
                        },
                        Err(why) => {
                            let k = u64_to_text(i as u64 + 1);
                            let msg = cat4("Pass ", k.as_str(), " failed for ", dn.as_str());
                            let msg = cat3(msg.as_str(), ": ", why.as_str());
                            let mut logs: Vec<LogRecord> = Vec::new();
                            logs.push(LogRecord::new(label, "Failed", why));
                            assert(records_view(logs@) =~= hdd_next(s0, event@).1.logs);
                            self.finish(logs, Err(msg))
                        },
                    }
                },
                _ => {
                    let label = cat2("Final pass: Writing zeros to ", dn.as_str());
                    match r {
                        Ok(()) => {
                            let mut logs: Vec<LogRecord> = Vec::new();
                            logs.push(
                                LogRecord::new(
                                    label,
                                    "Success",
                                    String::from_str("Zeros written successfully."),
                                ),
                            );
                            logs.push(
                                LogRecord::new(
                                    cat2("DoD5220.22-M wipe completed for: ", dn.as_str()),
                                    "Success",
                                    String::from_str(
                                        "Random data and zeros were written successfully in all passes.",
                                    ),
                                ),
                            );
                            assert(records_view(logs@) =~= hdd_next(s0, event@).1.logs);
                            self.finish(logs, Ok(()))
                        },
                        Err(why) => {
                            let msg = cat4("Final pass failed for ", dn.as_str(), ": ", why.as_str());
                            let mut logs: Vec<LogRecord> = Vec::new();
                            logs.push(LogRecord::new(label, "Failed", why));
                            assert(records_view(logs@) =~= hdd_next(s0, event@).1.logs);
                            self.finish(logs, Err(msg))
                        },
                    }
                },
            },
        }
    }
}


/// The actions that the wipe takes from state `s` on, for the events `evs`
/// given one after the other, up to the first event that it does not wait for.
pub open spec fn hdd_run(s: HddWipeView, evs: Seq<HddEventView>) -> Seq<HddActionView>
    decreases evs.len(),
{
    if evs.len() == 0 || !hdd_accepts(s, evs[0]) {
        seq![]
    } else {
        seq![hdd_next(s, evs[0]).1.action] + hdd_run(hdd_next(s, evs[0]).0, evs.drop_first())
    }
}

/// How many more events a wipe in `stage` takes before it can finish well.
pub open spec fn events_to_success(stage: HddStage) -> int {
    match stage {
        HddStage::SizeQuery => 5,
        HddStage::RandomPass(i) => if i < 2 {
            4 - i
        } else {
            2
        },
        HddStage::ZeroPass => 1,
        HddStage::Finished => 0,
    }
}

/// A size report of a successful query that gave a positive size.
pub open spec fn good_size_report(e: HddEventView) -> bool {
    match e {
        HddEventView::SizeReported(CommandOutcomeView::Exited { success, stdout, stderr }) => {
            &&& success
            &&& parse_unsigned(trimmed(stdout), u64::MAX as nat) is Ok
            &&& parse_unsigned(trimmed(stdout), u64::MAX as nat)->Ok_0 > 0
        },
        _ => false,
    }
}

pub proof fn lemma_hdd_finished_runs_nothing(s: HddWipeView, evs: Seq<HddEventView>)
    requires
        s.stage == HddStage::Finished,
    ensures
        hdd_run(s, evs) == Seq::<HddActionView>::empty(),
{
    if evs.len() > 0 {
        assert(!hdd_accepts(s, evs[0]));
    }
}

proof fn lemma_hdd_run_len(s: HddWipeView, evs: Seq<HddEventView>)
    ensures
        hdd_run(s, evs).len() <= evs.len(),
    decreases evs.len(),
{
    if evs.len() > 0 && hdd_accepts(s, evs[0]) {
        lemma_hdd_run_len(hdd_next(s, evs[0]).0, evs.drop_first());
    }
}

proof fn lemma_hdd_success_path(s: HddWipeView, evs: Seq<HddEventView>, k: int)
    requires
        0 <= k < hdd_run(s, evs).len(),
        hdd_run(s, evs)[k] == HddActionView::Finish(Ok(())),
    ensures
        k + 1 == events_to_success(s.stage),
        s.stage == HddStage::SizeQuery ==> good_size_report(evs[0]),
        s.stage != HddStage::SizeQuery ==> evs[0] == HddEventView::PassFinished(Ok(())),
        forall|j: int| 0 < j <= k ==> evs[j] == HddEventView::PassFinished(Ok(())),
    decreases evs.len(),
{
    lemma_hdd_run_len(s, evs);
    let (s2, st) = hdd_next(s, evs[0]);
    let rest = evs.drop_first();
    assert(hdd_run(s, evs) == seq![st.action] + hdd_run(s2, rest));
    if s.stage != HddStage::SizeQuery {
        match evs[0] {
            HddEventView::PassFinished(r) => match r {
                Ok(u) => {
                    assert(u == ());
                },
                Err(w) => {
                    assert(st.action is Finish);
                    lemma_hdd_finished_runs_nothing(s2, rest);
                },
            },
            _ => {},
        }
    }
    if k == 0 {
        assert(st.action == HddActionView::Finish(Ok(())));
    } else {
        if st.action is Finish {
            lemma_hdd_finished_runs_nothing(s2, rest);
            assert(false);
        }
        assert(hdd_run(s2, rest)[k - 1] == hdd_run(s, evs)[k]);
        lemma_hdd_success_path(s2, rest, k - 1);
        assert forall|j: int| 0 < j <= k implies evs[j] == HddEventView::PassFinished(Ok(())) by {
            assert(evs[j] == rest[j - 1]);
        }
    }
}

/// A wipe finishes well only at the fifth event, after a size query that
/// gave a positive size `n` and four passes that each ended well; the
/// passes it ran were, in this order, three of random data and one of
/// zeros, each copying exactly `n` bytes onto the device, so that a pass
/// that has written the whole device ends as done.
pub proof fn law_hdd_success_runs_all_passes(device: Seq<char>, evs: Seq<HddEventView>, k: int)
    requires
        0 <= k < hdd_run(hdd_start(device).0, evs).len(),
        hdd_run(hdd_start(device).0, evs)[k] == HddActionView::Finish(Ok(())),
    ensures
        k == 4,
        good_size_report(evs[0]),
        forall|j: int| 1 <= j <= 4 ==> evs[j] == HddEventView::PassFinished(Ok(())),
        ({
            let dn = first_word_or_all(device);
            let n = parse_unsigned(trimmed(evs[0]->SizeReported_0->Exited_stdout), u64::MAX as nat)->Ok_0;
            hdd_run(hdd_start(device).0, evs).take(4) == seq![
                HddActionView::RunDd { label: random_label(0, dn), command: random_command(dn, n), total_bytes: n },
                HddActionView::RunDd { label: random_label(1, dn), command: random_command(dn, n), total_bytes: n },
                HddActionView::RunDd { label: random_label(2, dn), command: random_command(dn, n), total_bytes: n },
                HddActionView::RunDd { label: zero_label(dn), command: zero_command(dn, n), total_bytes: n },
            ]
        }),
{
    let s0 = hdd_start(device).0;
    lemma_hdd_run_len(s0, evs);
    lemma_hdd_success_path(s0, evs, k);
    let dn = first_word_or_all(device);
    let (s1, t1) = hdd_next(s0, evs[0]);
    let e1 = evs.drop_first();
    let (s2, t2) = hdd_next(s1, e1[0]);
    let e2 = e1.drop_first();
    let (s3, t3) = hdd_next(s2, e2[0]);
    let e3 = e2.drop_first();
    let (s4, t4) = hdd_next(s3, e3[0]);
    let e4 = e3.drop_first();
    assert(e1[0] == evs[1] && e2[0] == evs[2] && e3[0] == evs[3]);
    assert(hdd_run(s0, evs) == seq![t1.action] + hdd_run(s1, e1));
    assert(hdd_run(s1, e1) == seq![t2.action] + hdd_run(s2, e2));
    assert(hdd_run(s2, e2) == seq![t3.action] + hdd_run(s3, e3));
    assert(hdd_run(s3, e3) == seq![t4.action] + hdd_run(s4, e4));
    assert(hdd_run(s0, evs).take(4) =~= seq![t1.action, t2.action, t3.action, t4.action]);
}

/// A pass that fails ends the wipe on the spot: the wipe answers with a
/// failure that names the pass, and takes no event after it.
pub proof fn law_hdd_failed_pass_stops(s: HddWipeView, why: Seq<char>, evs: Seq<HddEventView>)
    requires
        hdd_accepts(s, HddEventView::PassFinished(Err(why))),
    ensures
        hdd_next(s, HddEventView::PassFinished(Err(why))).1.action matches HddActionView::Finish(r)
            && r is Err,
        hdd_run(s, seq![HddEventView::PassFinished(Err(why))] + evs) == seq![
            hdd_next(s, HddEventView::PassFinished(Err(why))).1.action,
        ],
{
    let e = HddEventView::PassFinished(Err(why));
    let all = seq![e] + evs;
    assert(all[0] == e);
    assert(all.drop_first() =~= evs);
    lemma_hdd_finished_runs_nothing(hdd_next(s, e).0, evs);
    assert(hdd_run(s, all) =~= seq![hdd_next(s, e).1.action]);
}


/// Any size that a successful query reports and that reads as a positive
/// `u64` is taken as it is: the wipe logs it and starts the first random pass
/// over exactly that many bytes of the device.
pub proof fn law_hdd_size_starts_first_pass(s: HddWipeView, stdout: Seq<char>, stderr: Seq<char>, n: nat)
    requires
        s.stage == HddStage::SizeQuery,
        parse_unsigned(trimmed(stdout), u64::MAX as nat) == Ok::<nat, IntErrorKind>(n),
        n > 0,
    ensures
        ({
            let e = HddEventView::SizeReported(
                CommandOutcomeView::Exited { success: true, stdout, stderr },
            );
            let (s2, st) = hdd_next(s, e);
            &&& hdd_accepts(s, e)
            &&& s2.stage == HddStage::RandomPass(0)
            &&& s2.size == n
            &&& s2.device_name == s.device_name
            &&& st.action == HddActionView::RunDd {
                label: "Pass "@ + decimal(1) + "/3: Writing random data to "@ + s.device_name,
                command: "dd if="@ + "/dev/urandom"@ + " of="@ + s.device_name + " bs=4M count="@
                    + decimal(n) + " iflag=fullblock,count_bytes oflag=direct"@,
                total_bytes: n,
            }
        }),
{
}

/// A wipe whose size query reports a positive size and whose four passes
/// each end well finishes well, at the fifth event, whatever the size.
pub proof fn law_hdd_good_run_succeeds(device: Seq<char>, evs: Seq<HddEventView>)
    requires
        evs.len() >= 5,
        good_size_report(evs[0]),
        forall|j: int| 1 <= j < 5 ==> evs[j] == HddEventView::PassFinished(Ok(())),
    ensures
        hdd_run(hdd_start(device).0, evs).len() == 5,
        hdd_run(hdd_start(device).0, evs)[4] == HddActionView::Finish(Ok(())),
        forall|j: int| 0 <= j < 4 ==> hdd_run(hdd_start(device).0, evs)[j] is RunDd,
{
    let s0 = hdd_start(device).0;
    let (s1, t1) = hdd_next(s0, evs[0]);
    let e1 = evs.drop_first();
    assert(e1[0] == evs[1]);
    let (s2, t2) = hdd_next(s1, e1[0]);
    let e2 = e1.drop_first();
    assert(e2[0] == evs[2]);
    let (s3, t3) = hdd_next(s2, e2[0]);
    let e3 = e2.drop_first();
    assert(e3[0] == evs[3]);
    let (s4, t4) = hdd_next(s3, e3[0]);
    let e4 = e3.drop_first();
    assert(e4[0] == evs[4]);
    let (s5, t5) = hdd_next(s4, e4[0]);
    let e5 = e4.drop_first();
    lemma_hdd_finished_runs_nothing(s5, e5);
    assert(hdd_run(s4, e4) == seq![t5.action] + hdd_run(s5, e5));
    assert(hdd_run(s3, e3) == seq![t4.action] + hdd_run(s4, e4));
    assert(hdd_run(s2, e2) == seq![t3.action] + hdd_run(s3, e3));
    assert(hdd_run(s1, e1) == seq![t2.action] + hdd_run(s2, e2));
    assert(hdd_run(s0, evs) == seq![t1.action] + hdd_run(s1, e1));
    assert(hdd_run(s0, evs) =~= seq![t1.action, t2.action, t3.action, t4.action, t5.action]);
}

} // verus!
