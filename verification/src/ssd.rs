use vstd::prelude::*;
use vstd::string::*;
use crate::case::{lowercase, to_lowercase};
use crate::cmd::{CommandOutcome, CommandOutcomeView};
use crate::log::{records_view, LogRecord};
use crate::text::{cat2, cat3, contains, contains_seq, first_word, first_word_or_all};

verus! {

/// Where an ATA secure erase of an SSD stands.
#[derive(Clone, Copy, Debug, PartialEq, Eq, Structural)]
pub enum SsdStage {
    /// The user password is being set.
    SetPassword,
    /// The enhanced secure erase is running.
    Enhanced,
    /// The standard secure erase is running, after the enhanced one was refused.
    Standard,
    /// The NVMe format with secure erase is running.
    Nvme,
    /// The erase has ended, well or not.
    Finished,
}

/// A secure erase of one SSD. SATA devices get a user password and then an
/// enhanced ATA secure erase, falling back to the standard one when the
/// drive refuses the enhanced one; NVMe devices get an NVMe format with
/// secure erase; other devices are left as they are.
pub struct SsdErase {
    device_name: String,
    stage: SsdStage,
}

pub struct SsdEraseView {
    pub device_name: Seq<char>,
    pub stage: SsdStage,
}

impl View for SsdErase {
    type V = SsdEraseView;

    closed spec fn view(&self) -> SsdEraseView {
        SsdEraseView { device_name: self.device_name@, stage: self.stage }
    }
}

/// What the erase asks to be done next.
pub enum SsdAction {
    /// Run `program` with `args` to its end and report the outcome.
    Run { program: String, args: Vec<String> },
    /// The erase is over, with this result.
    Finish(Result<(), String>),
}

pub enum SsdActionView {
    Run { program: Seq<char>, args: Seq<Seq<char>> },
    Finish(Result<(), Seq<char>>),
}

impl View for SsdAction {
    type V = SsdActionView;

    open spec fn view(&self) -> SsdActionView {
        match self {
            SsdAction::Run { program, args } => SsdActionView::Run {
                program: program@,
                args: args.deep_view(),
            },
            SsdAction::Finish(r) => SsdActionView::Finish(crate::cmd::result_view(*r)),
        }
    }
}

/// The log entries to write, then the next action.
pub struct SsdStep {
    pub logs: Vec<LogRecord>,
    pub action: SsdAction,
}

pub struct SsdStepView {
    pub logs: Seq<(Seq<char>, Seq<char>, Seq<char>)>,
    pub action: SsdActionView,
}

impl View for SsdStep {
    type V = SsdStepView;

    open spec fn view(&self) -> SsdStepView {
        SsdStepView { logs: records_view(self.logs@), action: self.action@ }
    }
}

/// `sudo hdparm --user-master u <flag> 0000 <device>`.
pub open spec fn hdparm_run(flag: Seq<char>, dn: Seq<char>) -> SsdActionView {
    SsdActionView::Run {
        program: "sudo"@,
        args: seq!["hdparm"@, "--user-master"@, "u"@, flag, "0000"@, dn],
    }
}

/// `sudo nvme format <device> --ses=1`.
pub open spec fn nvme_run(dn: Seq<char>) -> SsdActionView {
    SsdActionView::Run { program: "sudo"@, args: seq!["nvme"@, "format"@, dn, "--ses=1"@] }
}

/// A menu line of an NVMe-connected disk.
pub open spec fn is_nvme(device: Seq<char>) -> bool {
    contains_seq(device, "NVME"@) || contains_seq(device, "NVMe"@)
}

/// An error text that says the drive does not support the enhanced erase.
pub open spec fn refuses_enhanced(lowered: Seq<char>) -> bool {
    contains_seq(lowered, "feature not supported"@) || contains_seq(lowered, "invalid argument"@)
}

/// Whether an already lowercased error text says that the enhanced erase is
/// not supported.
pub fn enhanced_refused(lowered: &str) -> (r: bool)
    ensures
        r == refuses_enhanced(lowered@),
{
    contains(lowered, "feature not supported") || contains(lowered, "invalid argument")
}

pub open spec fn ata(result: Seq<char>, details: Seq<char>) -> (Seq<char>, Seq<char>, Seq<char>) {
    ("ATA Secure Erase"@, result, details)
}

pub open spec fn nvme_log(result: Seq<char>, details: Seq<char>) -> (Seq<char>, Seq<char>, Seq<char>) {
    ("NVMe Secure Erase"@, result, details)
}

pub open spec fn ssd_finish(
    s: SsdEraseView,
    logs: Seq<(Seq<char>, Seq<char>, Seq<char>)>,
    r: Result<(), Seq<char>>,
) -> (SsdEraseView, SsdStepView) {
    (
        SsdEraseView { stage: SsdStage::Finished, ..s },
        SsdStepView { logs, action: SsdActionView::Finish(r) },
    )
}

/// The erase of the device named by the first word of `device`, and what it
/// does first.
pub open spec fn ssd_start(device: Seq<char>) -> (SsdEraseView, SsdStepView) {
    let dn = first_word_or_all(device);
    let logs = seq![
        (
            "Secure Erase started on: "@ + dn,
            "In Progress"@,
            "Secure Erase will be performed based on device type."@,
        ),
    ];
    if contains_seq(device, "SATA"@) {
        (
            SsdEraseView { device_name: dn, stage: SsdStage::SetPassword },
            SsdStepView { logs, action: hdparm_run("--security-set-pass"@, dn) },
        )
    } else if is_nvme(device) {
        (
            SsdEraseView { device_name: dn, stage: SsdStage::Nvme },
            SsdStepView { logs, action: nvme_run(dn) },
        )
    } else {
        (
            SsdEraseView { device_name: dn, stage: SsdStage::Finished },
            SsdStepView { logs, action: SsdActionView::Finish(Err(unsupported_text(dn))) },
        )
    }
}

/// The error for an SSD that is neither SATA nor NVMe, which no command here
/// can erase.
pub open spec fn unsupported_text(dn: Seq<char>) -> Seq<char> {
    "No secure erase method for "@ + dn + ": only SATA and NVMe SSDs are supported."@
}

/// The next state of the erase and what it does, once the command that it
/// asked for has ended with `o`.
pub open spec fn ssd_next(s: SsdEraseView, o: CommandOutcomeView) -> (SsdEraseView, SsdStepView) {
    let dn = s.device_name;
    match s.stage {
        SsdStage::SetPassword => match o {
            CommandOutcomeView::NotRun(e) => ssd_finish(s, seq![], Err("Failed to set password: "@ + e)),
            CommandOutcomeView::Exited { success, stdout, stderr } => if success {
                (
                    SsdEraseView { stage: SsdStage::Enhanced, ..s },
                    SsdStepView {
                        logs: seq![],
                        action: hdparm_run("--security-erase-enhanced"@, dn),
                    },
                )
            } else {
                let msg = "Failed to set password for "@ + dn + ": "@ + stderr;
                ssd_finish(s, seq![ata("Failed"@, msg)], Err(msg))
            },
        },
        SsdStage::Enhanced => match o {
            CommandOutcomeView::NotRun(e) => {
                let msg = "Failed to start Enhanced Secure Erase: "@ + e;
                ssd_finish(s, seq![ata("Failed"@, msg)], Err(msg))
            },
            CommandOutcomeView::Exited { success, stdout, stderr } => if success {
                ssd_finish(
                    s,
                    seq![ata("Success"@, "Enhanced Secure Erase completed for "@ + dn)],
                    Ok(()),
                )
            } else if refuses_enhanced(lowercase(stderr)) {
                (
                    SsdEraseView { stage: SsdStage::Standard, ..s },
                    SsdStepView {
                        logs: seq![
                            ata(
                                "Info"@,
                                "Enhanced Erase not supported, falling back to standard erase."@,
                            ),
                        ],
                        action: hdparm_run("--security-erase"@, dn),
                    },
                )
            } else {
                let msg = "ATA Enhanced Secure Erase failed for "@ + dn + ": "@ + stderr;
                ssd_finish(s, seq![ata("Failed"@, msg)], Err(msg))
            },
        },
        SsdStage::Nvme => match o {
            CommandOutcomeView::NotRun(e) => {
                let msg = "Failed to start NVMe Secure Erase: "@ + e;
                ssd_finish(s, seq![nvme_log("Failed"@, msg)], Err(msg))
            },
            CommandOutcomeView::Exited { success, stdout, stderr } => if success {
                ssd_finish(
                    s,
                    seq![nvme_log("Success"@, "NVMe Secure Erase completed for "@ + dn)],
                    Ok(()),
                )
            } else {
                let msg = "NVMe Secure Erase failed for "@ + dn + ": "@ + stderr;
                ssd_finish(s, seq![nvme_log("Failed"@, msg)], Err(msg))
            },
        },
        _ => match o {
            CommandOutcomeView::NotRun(e) => ssd_finish(
                s,
                seq![],
                Err("Failed to start standard ATA Secure Erase: "@ + e),
            ),
            CommandOutcomeView::Exited { success, stdout, stderr } => if success {
                ssd_finish(
                    s,
                    seq![ata("Success"@, "Standard Secure Erase completed for "@ + dn)],
                    Ok(()),
                )
            } else {
                ssd_finish(s, seq![ata("Failed"@, stderr)], Err(stderr))
            },
        },
    }
}

fn hdparm_action(flag: &str, dn: &str) -> (r: SsdAction)
    ensures
        r@ == hdparm_run(flag@, dn@),
{
    let mut args: Vec<String> = Vec::new();
    args.push(String::from_str("hdparm"));
    args.push(String::from_str("--user-master"));
    args.push(String::from_str("u"));
    args.push(String::from_str(flag));
    args.push(String::from_str("0000"));
    args.push(String::from_str(dn));
    let r = SsdAction::Run { program: String::from_str("sudo"), args };
    assert(r@ == hdparm_run(flag@, dn@)) by {
        assert(args.deep_view() =~= seq!["hdparm"@, "--user-master"@, "u"@, flag@, "0000"@, dn@]);
    }
    r
}

fn nvme_action(dn: &str) -> (r: SsdAction)
    ensures
        r@ == nvme_run(dn@),
{
    let mut args: Vec<String> = Vec::new();
    args.push(String::from_str("nvme"));
    args.push(String::from_str("format"));
    args.push(String::from_str(dn));
    args.push(String::from_str("--ses=1"));
    let r = SsdAction::Run { program: String::from_str("sudo"), args };
    assert(r@ == nvme_run(dn@)) by {
        assert(args.deep_view() =~= seq!["nvme"@, "format"@, dn@, "--ses=1"@]);
    }
    r
}

fn nvme_record(result: &str, details: String) -> (r: LogRecord)
    ensures
        r@ == nvme_log(result@, details@),
{
    LogRecord::new(String::from_str("NVMe Secure Erase"), result, details)
}

fn ata_record(result: &str, details: String) -> (r: LogRecord)
    ensures
        r@ == ata(result@, details@),
{
    LogRecord::new(String::from_str("ATA Secure Erase"), result, details)
}

fn one(r: LogRecord) -> (v: Vec<LogRecord>)
    ensures
        records_view(v@) == seq![r@],
{
    let mut v: Vec<LogRecord> = Vec::new();
    v.push(r);
    assert(records_view(v@) =~= seq![r@]);
    v
}

fn none() -> (v: Vec<LogRecord>)
    ensures
        records_view(v@) == Seq::<(Seq<char>, Seq<char>, Seq<char>)>::empty(),
{
    let v: Vec<LogRecord> = Vec::new();
    assert(records_view(v@) =~= Seq::<(Seq<char>, Seq<char>, Seq<char>)>::empty());
    v
}

impl SsdErase {
    /// The device that is erased.
    pub fn device_name(&self) -> (r: &str)
        ensures
            r@ == self@.device_name,
    {
        self.device_name.as_str()
    }

    pub fn stage(&self) -> (r: SsdStage)
        ensures
            r == self@.stage,
    {
        self.stage
    }

    /// Starts the erase of the device named by the first word of `device`.
    pub fn start(device: &str) -> (r: (SsdErase, SsdStep))
        ensures
            (r.0@, r.1@) == ssd_start(device@),
    {
        let dn = first_word(device);
        let mut started = String::from_str("Secure Erase started on: ");
        started.append(dn.as_str());
        let logs = one(
            LogRecord::new(
                started,
                "In Progress",
                String::from_str("Secure Erase will be performed based on device type."),
            ),
        );
        if contains(device, "SATA") {
            let action = hdparm_action("--security-set-pass", dn.as_str());
            (SsdErase { device_name: dn, stage: SsdStage::SetPassword }, SsdStep { logs, action })
        } else if contains(device, "NVME") || contains(device, "NVMe") {
            let action = nvme_action(dn.as_str());
            (SsdErase { device_name: dn, stage: SsdStage::Nvme }, SsdStep { logs, action })
        } else {
            let msg = cat3(
                "No secure erase method for ",
                dn.as_str(),
                ": only SATA and NVMe SSDs are supported.",
            );
            (
                SsdErase { device_name: dn, stage: SsdStage::Finished },
                SsdStep { logs, action: SsdAction::Finish(Err(msg)) },
            )
        }
    }

    fn finish(&mut self, logs: Vec<LogRecord>, r: Result<(), String>) -> (step: SsdStep)
        ensures
            (final(self)@, step@) == ssd_finish(
                old(self)@,
                records_view(logs@),
                crate::cmd::result_view(r),
            ),
    {
        self.stage = SsdStage::Finished;
        SsdStep { logs, action: SsdAction::Finish(r) }
    }

    /// Takes in how the command that was asked for ended, and says what to
    /// do next.
    pub fn step(&mut self, outcome: CommandOutcome) -> (r: SsdStep)
        requires
            old(self)@.stage != SsdStage::Finished,
        ensures
            (final(self)@, r@) == ssd_next(old(self)@, outcome@),
    {
        let dn = self.device_name.clone();
        match self.stage {
            SsdStage::SetPassword => match outcome {
                CommandOutcome::NotRun(e) => {
                    let msg = cat2("Failed to set password: ", e.as_str());
                    self.finish(none(), Err(msg))
                },
                CommandOutcome::Exited { success, stdout, stderr } => if success {
                    self.stage = SsdStage::Enhanced;
                    SsdStep {
                        logs: none(),
                        action: hdparm_action("--security-erase-enhanced", dn.as_str()),
                    }
                } else {
                    let msg = cat3("Failed to set password for ", dn.as_str(), ": ");
                    let msg = cat2(msg.as_str(), stderr.as_str());
                    let logs = one(ata_record("Failed", msg.clone()));
                    self.finish(logs, Err(msg))
                },
            },
            SsdStage::Enhanced => match outcome {
                CommandOutcome::NotRun(e) => {
                    let msg = cat2("Failed to start Enhanced Secure Erase: ", e.as_str());
                    let logs = one(ata_record("Failed", msg.clone()));
                    self.finish(logs, Err(msg))
                },
                CommandOutcome::Exited { success, stdout, stderr } => if success {
                    let det = cat2("Enhanced Secure Erase completed for ", dn.as_str());
                    self.finish(one(ata_record("Success", det)), Ok(()))
                } else {
                    let lowered = to_lowercase(stderr.as_str());
                    if enhanced_refused(lowered.as_str()) {
                        self.stage = SsdStage::Standard;
                        SsdStep {
                            logs: one(
                                ata_record(
                                    "Info",
                                    String::from_str(
                                        "Enhanced Erase not supported, falling back to standard erase.",
                                    ),
                                ),
                            ),
                            action: hdparm_action("--security-erase", dn.as_str()),
                        }
                    } else {
                        let msg = cat3("ATA Enhanced Secure Erase failed for ", dn.as_str(), ": ");
                        let msg = cat2(msg.as_str(), stderr.as_str());
                        let logs = one(ata_record("Failed", msg.clone()));
                        self.finish(logs, Err(msg))
                    }
                },
            },
            SsdStage::Nvme => match outcome {
                CommandOutcome::NotRun(e) => {
                    let msg = cat2("Failed to start NVMe Secure Erase: ", e.as_str());
                    let logs = one(nvme_record("Failed", msg.clone()));
                    self.finish(logs, Err(msg))
                },
                CommandOutcome::Exited { success, stdout, stderr } => if success {
                    let det = cat2("NVMe Secure Erase completed for ", dn.as_str());
                    self.finish(one(nvme_record("Success", det)), Ok(()))
                } else {
                    let msg = cat3("NVMe Secure Erase failed for ", dn.as_str(), ": ");
                    let msg = cat2(msg.as_str(), stderr.as_str());
                    let logs = one(nvme_record("Failed", msg.clone()));
                    self.finish(logs, Err(msg))
                },
            },
            _ => match outcome {
                CommandOutcome::NotRun(e) => {
                    let msg = cat2("Failed to start standard ATA Secure Erase: ", e.as_str());
                    self.finish(none(), Err(msg))
                },
                CommandOutcome::Exited { success, stdout, stderr } => if success {
                    let det = cat2("Standard Secure Erase completed for ", dn.as_str());
                    self.finish(one(ata_record("Success", det)), Ok(()))
                } else {
                    let logs = one(ata_record("Failed", stderr.clone()));
                    self.finish(logs, Err(stderr))
                },
            },
        }
    }
}


/// The actions that the erase takes from state `s` on, for the outcomes
/// `evs` given one after the other, until it has finished.
pub open spec fn ssd_run(s: SsdEraseView, evs: Seq<CommandOutcomeView>) -> Seq<SsdActionView>
    decreases evs.len(),
{
    if evs.len() == 0 || s.stage == SsdStage::Finished {
        seq![]
    } else {
        seq![ssd_next(s, evs[0]).1.action] + ssd_run(ssd_next(s, evs[0]).0, evs.drop_first())
    }
}

/// A command that exited with success.
pub open spec fn succeeded(o: CommandOutcomeView) -> bool {
    o matches CommandOutcomeView::Exited { success, .. } && success
}

/// A command that exited without success, with an error text that says the
/// enhanced erase is not supported.
pub open spec fn refused_enhanced(o: CommandOutcomeView) -> bool {
    match o {
        CommandOutcomeView::Exited { success, stdout, stderr } => !success && refuses_enhanced(
            lowercase(stderr),
        ),
        _ => false,
    }
}

proof fn lemma_ssd_unfold(s: SsdEraseView, evs: Seq<CommandOutcomeView>)
    requires
        evs.len() > 0,
        s.stage != SsdStage::Finished,
    ensures
        ssd_run(s, evs) == seq![ssd_next(s, evs[0]).1.action] + ssd_run(
            ssd_next(s, evs[0]).0,
            evs.drop_first(),
        ),
{
}

proof fn lemma_ssd_finished(s: SsdEraseView, evs: Seq<CommandOutcomeView>)
    requires
        s.stage == SsdStage::Finished,
    ensures
        ssd_run(s, evs) == Seq::<SsdActionView>::empty(),
{
}

/// The three-step unfolding of a run from the state in which the password
/// is set.
proof fn lemma_ssd_from_password(s: SsdEraseView, evs: Seq<CommandOutcomeView>, k: int)
    requires
        s.stage == SsdStage::SetPassword,
        0 <= k < ssd_run(s, evs).len(),
    ensures
        k < 3,
        k < evs.len(),
        k >= 1 ==> succeeded(evs[0]),
        k >= 2 ==> refused_enhanced(evs[1]),
        k == 0 ==> ssd_run(s, evs)[k] == ssd_next(s, evs[0]).1.action,
        k == 1 ==> ssd_run(s, evs)[k] == ssd_next(ssd_next(s, evs[0]).0, evs[1]).1.action,
        k == 1 ==> ssd_next(s, evs[0]).0.stage == SsdStage::Enhanced,
        k == 2 ==> ssd_run(s, evs)[k] == ssd_next(
            ssd_next(ssd_next(s, evs[0]).0, evs[1]).0,
            evs[2],
        ).1.action,
        k == 2 ==> ssd_next(ssd_next(s, evs[0]).0, evs[1]).0.stage == SsdStage::Standard,
{
    lemma_ssd_unfold(s, evs);
    let (s1, t1) = ssd_next(s, evs[0]);
    let e1 = evs.drop_first();
    if s1.stage == SsdStage::Finished {
        lemma_ssd_finished(s1, e1);
    } else {
        assert(succeeded(evs[0]));
        if e1.len() > 0 {
            lemma_ssd_unfold(s1, e1);
            let (s2, t2) = ssd_next(s1, e1[0]);
            let e2 = e1.drop_first();
            assert(e1[0] == evs[1]);
            if s2.stage == SsdStage::Finished {
                lemma_ssd_finished(s2, e2);
            } else {
                assert(refused_enhanced(evs[1]));
                if e2.len() > 0 {
                    lemma_ssd_unfold(s2, e2);
                    let (s3, t3) = ssd_next(s2, e2[0]);
                    assert(e2[0] == evs[2]);
                    lemma_ssd_finished(s3, e2.drop_first());
                }
            }
        }
    }
}

/// An erase finishes well only when its erase command succeeded: for a SATA
/// device after its password was set, either at once when the enhanced
/// erase succeeded, or one step later when the drive refused the enhanced
/// erase and the standard one succeeded; for an NVMe device when its format
/// succeeded.
pub proof fn law_ssd_success_paths(device: Seq<char>, evs: Seq<CommandOutcomeView>, k: int)
    requires
        0 <= k < ssd_run(ssd_start(device).0, evs).len(),
        ssd_run(ssd_start(device).0, evs)[k] == SsdActionView::Finish(Ok(())),
    ensures
        succeeded(evs[0]),
        contains_seq(device, "SATA"@) ==> (k == 1 && succeeded(evs[1])) || (k == 2
            && refused_enhanced(evs[1]) && succeeded(evs[2])),
        !contains_seq(device, "SATA"@) ==> is_nvme(device) && k == 0,
{
    let s0 = ssd_start(device).0;
    if contains_seq(device, "SATA"@) {
        lemma_ssd_from_password(s0, evs, k);
        if k == 0 {
            assert(ssd_next(s0, evs[0]).1.action != SsdActionView::Finish(Ok(())));
        }
    } else if is_nvme(device) {
        lemma_ssd_unfold(s0, evs);
        lemma_ssd_finished(ssd_next(s0, evs[0]).0, evs.drop_first());
    } else {
        lemma_ssd_finished(s0, evs);
    }
}

/// A device that is neither SATA nor NVMe cannot be erased here: the erase
/// fails at once, naming the device, without running any command.
pub proof fn law_ssd_other_refused(device: Seq<char>)
    requires
        !contains_seq(device, "SATA"@),
        !is_nvme(device),
    ensures
        ssd_start(device).1.action == SsdActionView::Finish(
            Err(unsupported_text(first_word_or_all(device))),
        ),
        forall|evs: Seq<CommandOutcomeView>| ssd_run(ssd_start(device).0, evs).len() == 0,
{
    assert forall|evs: Seq<CommandOutcomeView>| ssd_run(ssd_start(device).0, evs).len() == 0 by {
        lemma_ssd_finished(ssd_start(device).0, evs);
    }
}

/// An NVMe device (that is not SATA) gets exactly one command,
/// `sudo nvme format <device> --ses=1`, and the erase ends with its outcome.
pub proof fn law_ssd_nvme_single_command(device: Seq<char>, evs: Seq<CommandOutcomeView>)
    requires
        !contains_seq(device, "SATA"@),
        is_nvme(device),
    ensures
        ssd_start(device).1.action == nvme_run(first_word_or_all(device)),
        ssd_run(ssd_start(device).0, evs).len() <= 1,
        ssd_run(ssd_start(device).0, evs).len() == 1 ==> ssd_run(ssd_start(device).0, evs)[0] is Finish,
{
    let s0 = ssd_start(device).0;
    if evs.len() > 0 {
        lemma_ssd_unfold(s0, evs);
        lemma_ssd_finished(ssd_next(s0, evs[0]).0, evs.drop_first());
    } else {
        assert(ssd_run(s0, evs).len() == 0);
    }
}

/// Every command that the erase runs is `sudo hdparm --user-master u <flag>
/// 0000 <device>` for the device it was started on: it sets the password
/// first, then runs the enhanced erase, and runs the standard erase only
/// after the drive refused the enhanced one.
pub proof fn law_ssd_commands(device: Seq<char>, evs: Seq<CommandOutcomeView>, k: int)
    requires
        contains_seq(device, "SATA"@),
        0 <= k < ssd_run(ssd_start(device).0, evs).len(),
        ssd_run(ssd_start(device).0, evs)[k] is Run,
    ensures
        ({
            let dn = first_word_or_all(device);
            &&& ssd_start(device).1.action == hdparm_run("--security-set-pass"@, dn)
            &&& k == 0 ==> succeeded(evs[0]) && ssd_run(ssd_start(device).0, evs)[k] == hdparm_run(
                "--security-erase-enhanced"@,
                dn,
            )
            &&& k == 1 ==> succeeded(evs[0]) && refused_enhanced(evs[1]) && ssd_run(
                ssd_start(device).0,
                evs,
            )[k] == hdparm_run("--security-erase"@, dn)
            &&& k < 2
        }),
{
    let s0 = ssd_start(device).0;
    lemma_ssd_from_password(s0, evs, k);
}


/// When the enhanced erase exits without success and its error text, once
/// lowercased, holds "feature not supported" or "invalid argument", the
/// drive has refused it: the erase logs that it falls back and runs
/// `sudo hdparm --user-master u --security-erase 0000 <device>`. Any other
/// failure of the enhanced erase ends the erase with an error naming it.
pub proof fn law_ssd_enhanced_refusal_falls_back(
    s: SsdEraseView,
    stdout: Seq<char>,
    stderr: Seq<char>,
)
    requires
        s.stage == SsdStage::Enhanced,
    ensures
        ({
            let o = CommandOutcomeView::Exited { success: false, stdout, stderr };
            let lowered = lowercase(stderr);
            let (s2, st) = ssd_next(s, o);
            &&& (contains_seq(lowered, "feature not supported"@) || contains_seq(
                lowered,
                "invalid argument"@,
            )) ==> {
                &&& s2.stage == SsdStage::Standard
                &&& s2.device_name == s.device_name
                &&& st.action == SsdActionView::Run {
                    program: "sudo"@,
                    args: seq![
                        "hdparm"@,
                        "--user-master"@,
                        "u"@,
                        "--security-erase"@,
                        "0000"@,
                        s.device_name,
                    ],
                }
                &&& st.logs == seq![
                    (
                        "ATA Secure Erase"@,
                        "Info"@,
                        "Enhanced Erase not supported, falling back to standard erase."@,
                    ),
                ]
            }
            &&& !(contains_seq(lowered, "feature not supported"@) || contains_seq(
                lowered,
                "invalid argument"@,
            )) ==> {
                &&& s2.stage == SsdStage::Finished
                &&& st.action == SsdActionView::Finish(
                    Err("ATA Enhanced Secure Erase failed for "@ + s.device_name + ": "@ + stderr),
                )
            }
        }),
{
}

} // verus!
