use rust_erase::cmd::CommandOutcome;
use rust_erase::ssd::{enhanced_refused, SsdAction, SsdErase, SsdStage};

fn exited(success: bool, stderr: &str) -> CommandOutcome {
    CommandOutcome::Exited { success, stdout: String::new(), stderr: stderr.to_string() }
}

fn args_of(a: &SsdAction) -> Vec<String> {
    match a {
        SsdAction::Run { program, args } => {
            assert_eq!(program, "sudo");
            args.clone()
        },
        _ => panic!("expected a command"),
    }
}

fn finish_of(a: &SsdAction) -> Result<(), String> {
    match a {
        SsdAction::Finish(r) => r.clone(),
        _ => panic!("expected the end"),
    }
}

#[test]
fn sata_enhanced_erase_succeeds() {
    let (mut e, s) = SsdErase::start("/dev/sdb - Samsung - SSD - SATA");
    assert_eq!(e.device_name(), "/dev/sdb");
    assert_eq!(s.logs[0].action, "Secure Erase started on: /dev/sdb");
    assert_eq!(
        args_of(&s.action),
        vec!["hdparm", "--user-master", "u", "--security-set-pass", "0000", "/dev/sdb"]
    );
    let s = e.step(exited(true, ""));
    assert!(s.logs.is_empty());
    assert_eq!(
        args_of(&s.action),
        vec!["hdparm", "--user-master", "u", "--security-erase-enhanced", "0000", "/dev/sdb"]
    );
    let s = e.step(exited(true, ""));
    assert_eq!(finish_of(&s.action), Ok(()));
    assert_eq!(s.logs[0].action, "ATA Secure Erase");
    assert_eq!(s.logs[0].result, "Success");
    assert_eq!(s.logs[0].details, "Enhanced Secure Erase completed for /dev/sdb");
    assert_eq!(e.stage(), SsdStage::Finished);
}

#[test]
fn sata_falls_back_to_standard_erase() {
    let (mut e, _) = SsdErase::start("/dev/sdc - X - SSD - SATA");
    e.step(exited(true, ""));
    // The check lowercases the error text first.
    let s = e.step(exited(false, "SG_IO: FEATURE NOT SUPPORTED"));
    assert_eq!(s.logs[0].result, "Info");
    assert_eq!(
        args_of(&s.action),
        vec!["hdparm", "--user-master", "u", "--security-erase", "0000", "/dev/sdc"]
    );
    assert_eq!(e.stage(), SsdStage::Standard);
    let s = e.step(exited(true, ""));
    assert_eq!(finish_of(&s.action), Ok(()));
    assert_eq!(s.logs[0].details, "Standard Secure Erase completed for /dev/sdc");
}

#[test]
fn sata_standard_erase_failure_reports_stderr() {
    let (mut e, _) = SsdErase::start("/dev/sdc - X - SSD - SATA");
    e.step(exited(true, ""));
    e.step(exited(false, "Invalid Argument"));
    let s = e.step(exited(false, "frozen"));
    assert_eq!(finish_of(&s.action), Err("frozen".to_string()));
    assert_eq!(s.logs[0].result, "Failed");
}

#[test]
fn sata_enhanced_failure_without_fallback() {
    let (mut e, _) = SsdErase::start("/dev/sdd - X - SSD - SATA");
    e.step(exited(true, ""));
    let s = e.step(exited(false, "I/O error"));
    assert_eq!(
        finish_of(&s.action),
        Err("ATA Enhanced Secure Erase failed for /dev/sdd: I/O error".to_string())
    );
}

#[test]
fn sata_password_failures() {
    let (mut e, _) = SsdErase::start("/dev/sde - X - SSD - SATA");
    let s = e.step(exited(false, "locked"));
    assert_eq!(finish_of(&s.action), Err("Failed to set password for /dev/sde: locked".to_string()));
    assert_eq!(s.logs.len(), 1);

    let (mut e, _) = SsdErase::start("/dev/sde - X - SSD - SATA");
    let s = e.step(CommandOutcome::NotRun("no sudo".to_string()));
    assert_eq!(finish_of(&s.action), Err("Failed to set password: no sudo".to_string()));
    assert!(s.logs.is_empty());

    let (mut e, _) = SsdErase::start("/dev/sde - X - SSD - SATA");
    e.step(exited(true, ""));
    let s = e.step(CommandOutcome::NotRun("gone".to_string()));
    assert_eq!(finish_of(&s.action), Err("Failed to start Enhanced Secure Erase: gone".to_string()));

    let (mut e, _) = SsdErase::start("/dev/sde - X - SSD - SATA");
    e.step(exited(true, ""));
    e.step(exited(false, "feature not supported"));
    let s = e.step(CommandOutcome::NotRun("gone".to_string()));
    assert_eq!(finish_of(&s.action), Err("Failed to start standard ATA Secure Erase: gone".to_string()));
}

#[test]
fn other_ssd_is_refused() {
    let (e, s) = SsdErase::start("/dev/sdf - X - SSD - USB");
    assert_eq!(
        finish_of(&s.action),
        Err("No secure erase method for /dev/sdf: only SATA and NVMe SSDs are supported.".to_string())
    );
    assert_eq!(e.stage(), SsdStage::Finished);
    assert_eq!(s.logs.len(), 1);
}

#[test]
fn nvme_ssd_is_formatted() {
    let (mut e, s) = SsdErase::start("/dev/nvme0n1 - X - SSD - NVME");
    assert_eq!(e.stage(), SsdStage::Nvme);
    assert_eq!(args_of(&s.action), vec!["nvme", "format", "/dev/nvme0n1", "--ses=1"]);
    let s = e.step(exited(true, ""));
    assert_eq!(finish_of(&s.action), Ok(()));
    assert_eq!(s.logs[0].action, "NVMe Secure Erase");
    assert_eq!(s.logs[0].details, "NVMe Secure Erase completed for /dev/nvme0n1");

    let (mut e, _) = SsdErase::start("Disk3 - 250GB - SSD - NVMe");
    let s = e.step(exited(false, "busy"));
    assert_eq!(finish_of(&s.action), Err("NVMe Secure Erase failed for Disk3: busy".to_string()));
    let (mut e, _) = SsdErase::start("/dev/nvme1n1 - X - SSD - NVME");
    let s = e.step(CommandOutcome::NotRun("missing".to_string()));
    assert_eq!(finish_of(&s.action), Err("Failed to start NVMe Secure Erase: missing".to_string()));
}

#[test]
fn refusal_texts() {
    assert!(enhanced_refused("feature not supported"));
    assert!(enhanced_refused("xx invalid argument yy"));
    assert!(!enhanced_refused("Invalid Argument"));
    assert!(!enhanced_refused("bad sector"));
}
