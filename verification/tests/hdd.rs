use rust_erase::cmd::CommandOutcome;
use rust_erase::dd::{dd_progress_command, dd_result, parse_dd_progress, DdOutcome, DD_PROGRESS_PATTERN};
use rust_erase::hdd::{HddAction, HddEvent, HddStage, HddWipe};
use regex::Regex;

fn size_ok(out: &str) -> HddEvent {
    HddEvent::SizeReported(CommandOutcome::Exited {
        success: true,
        stdout: out.to_string(),
        stderr: String::new(),
    })
}

fn dd_of(action: &HddAction) -> (String, String, u64) {
    match action {
        HddAction::RunDd { label, command, total_bytes } => (label.clone(), command.clone(), *total_bytes),
        _ => panic!("expected a dd pass"),
    }
}

fn finish_of(action: &HddAction) -> Result<(), String> {
    match action {
        HddAction::Finish(r) => r.clone(),
        _ => panic!("expected the end of the wipe"),
    }
}

#[test]
fn test_erase_hdd_success_path() {
    println!("Simulating success path (no actual dd run)...");
    let (mut wipe, first) = HddWipe::start("/dev/mock_hdd");
    assert_eq!(wipe.device_name(), "/dev/mock_hdd");
    match &first.action {
        HddAction::QuerySize { command } => assert_eq!(command, "blockdev --getsize64 /dev/mock_hdd"),
        _ => panic!("the wipe starts with the size query"),
    }
    assert_eq!(first.logs.len(), 1);
    assert_eq!(first.logs[0].action, "DoD5220.22-M wipe started on: /dev/mock_hdd");
    assert_eq!(first.logs[0].result, "In Progress");

    let s = wipe.step(size_ok("1024\n"));
    assert_eq!(s.logs[0].action, "Device Size");
    assert_eq!(s.logs[0].details, "Determined size for /dev/mock_hdd is 1024 bytes.");
    let (label, cmd, total) = dd_of(&s.action);
    assert_eq!(label, "Pass 1/3: Writing random data to /dev/mock_hdd");
    assert_eq!(cmd, "dd if=/dev/urandom of=/dev/mock_hdd bs=4M count=1024 iflag=fullblock,count_bytes oflag=direct");
    assert_eq!(total, 1024);

    let s = wipe.step(HddEvent::PassFinished(Ok(())));
    assert_eq!(s.logs[0].action, "Pass 1/3: Writing random data to /dev/mock_hdd");
    assert_eq!(s.logs[0].result, "Success");
    assert_eq!(dd_of(&s.action).0, "Pass 2/3: Writing random data to /dev/mock_hdd");
    let s = wipe.step(HddEvent::PassFinished(Ok(())));
    assert_eq!(dd_of(&s.action).0, "Pass 3/3: Writing random data to /dev/mock_hdd");
    let s = wipe.step(HddEvent::PassFinished(Ok(())));
    let (label, cmd, total) = dd_of(&s.action);
    assert_eq!(label, "Final pass: Writing zeros to /dev/mock_hdd");
    assert_eq!(cmd, "dd if=/dev/zero of=/dev/mock_hdd bs=4M count=1024 iflag=fullblock,count_bytes oflag=direct");
    assert_eq!(total, 1024);
    assert_eq!(wipe.stage(), HddStage::ZeroPass);
    let s = wipe.step(HddEvent::PassFinished(Ok(())));
    assert!(finish_of(&s.action).is_ok());
    assert_eq!(s.logs.len(), 2);
    assert_eq!(s.logs[1].action, "DoD5220.22-M wipe completed for: /dev/mock_hdd");
    assert_eq!(wipe.stage(), HddStage::Finished);
}

#[test]
fn test_erase_hdd_get_size_failure() {
    println!("Simulating get device size failure path...");
    let (mut wipe, _) = HddWipe::start("/dev/fail_size - Model - HDD - SATA");
    assert_eq!(wipe.device_name(), "/dev/fail_size");
    let s = wipe.step(HddEvent::SizeReported(CommandOutcome::Exited {
        success: false,
        stdout: String::new(),
        stderr: "blockdev: cannot open /dev/fail_size".to_string(),
    }));
    let err = finish_of(&s.action).unwrap_err();
    assert!(err.contains("Failed to get device size"));
    assert_eq!(err, "Failed to get device size for /dev/fail_size: blockdev: cannot open /dev/fail_size");

    let (mut wipe, _) = HddWipe::start("/dev/fail_size");
    let s = wipe.step(HddEvent::SizeReported(CommandOutcome::NotRun("not found".to_string())));
    assert_eq!(finish_of(&s.action).unwrap_err(), "Failed to get device size for /dev/fail_size: not found");

    let (mut wipe, _) = HddWipe::start("/dev/sdz");
    let s = wipe.step(size_ok("12a\n"));
    assert_eq!(
        finish_of(&s.action).unwrap_err(),
        "Failed to parse device size '12a\n': invalid digit found in string"
    );

    let (mut wipe, _) = HddWipe::start("/dev/sdz");
    let s = wipe.step(size_ok("0\n"));
    assert_eq!(finish_of(&s.action).unwrap_err(), "Device size for /dev/sdz is reported as 0. Cannot proceed.");

    let (mut wipe, _) = HddWipe::start("/dev/sdz");
    let s = wipe.step(size_ok("\n"));
    assert_eq!(
        finish_of(&s.action).unwrap_err(),
        "Failed to parse device size '\n': cannot parse integer from empty string"
    );
}

#[test]
fn test_erase_hdd_dd_failure() {
    println!("Simulating dd failure path...");
    let (mut wipe, _) = HddWipe::start("/dev/fail_dd");
    wipe.step(size_ok("4096"));
    wipe.step(HddEvent::PassFinished(Ok(())));
    let s = wipe.step(HddEvent::PassFinished(Err("boom".to_string())));
    assert_eq!(s.logs[0].action, "Pass 2/3: Writing random data to /dev/fail_dd");
    assert_eq!(s.logs[0].result, "Failed");
    assert_eq!(s.logs[0].details, "boom");
    let err = finish_of(&s.action).unwrap_err();
    assert!(err.contains("failed"));
    assert_eq!(err, "Pass 2 failed for /dev/fail_dd: boom");
    assert_eq!(wipe.stage(), HddStage::Finished);

    let (mut wipe, _) = HddWipe::start("/dev/fail_dd");
    wipe.step(size_ok("4096"));
    for _ in 0..3 {
        wipe.step(HddEvent::PassFinished(Ok(())));
    }
    let s = wipe.step(HddEvent::PassFinished(Err("no space".to_string())));
    assert_eq!(finish_of(&s.action).unwrap_err(), "Final pass failed for /dev/fail_dd: no space");
}

#[test]
fn test_run_dd_progress_parsing_mock() {
    println!("Testing regex parsing for run_dd_with_progress (mocked)...");
    let re = Regex::new(r"^(\d+)\s+bytes").unwrap();
    assert_eq!(DD_PROGRESS_PATTERN, r"^(\d+)\s+bytes");

    let line1 = "1024 bytes (1.0 kB, 1.0 KiB) copied, 0.001 s, 1.0 MB/s";
    let caps1 = re.captures(line1).unwrap();
    assert_eq!(caps1.get(1).unwrap().as_str(), "1024");
    assert_eq!(caps1.get(1).unwrap().as_str().parse::<u64>().unwrap(), 1024);
    assert_eq!(parse_dd_progress(line1), Some(1024));

    let line2 = "1234567890 bytes (1.2 GB, 1.1 GiB) copied, 10.5 s, 117 MB/s";
    let caps2 = re.captures(line2).unwrap();
    assert_eq!(caps2.get(1).unwrap().as_str(), "1234567890");
    assert_eq!(parse_dd_progress(line2), Some(1234567890));

    let line_no_match = "dd: writing to '/dev/null': No space left on device";
    assert!(re.captures(line_no_match).is_none());
    assert_eq!(parse_dd_progress(line_no_match), None);

    let line_records = "1+0 records in\n1+0 records out";
    assert!(re.captures(line_records).is_none());
    assert_eq!(parse_dd_progress(line_records), None);
}

#[test]
fn dd_progress_count_too_large_is_ignored() {
    assert_eq!(parse_dd_progress("99999999999999999999999 bytes copied"), None);
    assert_eq!(parse_dd_progress("0 bytes copied"), Some(0));
}

#[test]
fn dd_command_and_results() {
    assert_eq!(
        dd_progress_command("dd if=/dev/zero of=/dev/sda bs=4M oflag=direct"),
        "dd if=/dev/zero of=/dev/sda bs=4M oflag=direct status=progress"
    );
    assert_eq!(dd_result(DdOutcome::Exited { success: true, status: "exit status: 0".to_string() }), Ok(()));
    assert_eq!(
        dd_result(DdOutcome::Exited { success: false, status: "exit status: 1".to_string() }),
        Err("dd command failed with status: exit status: 1. Check stderr logs above.".to_string())
    );
    assert_eq!(
        dd_result(DdOutcome::SpawnFailed("denied".to_string())),
        Err("Failed to spawn dd command: denied".to_string())
    );
    assert_eq!(dd_result(DdOutcome::NoStderr), Err("Failed to capture stderr".to_string()));
    assert_eq!(
        dd_result(DdOutcome::WaitFailed("gone".to_string())),
        Err("Failed to wait for dd command: gone".to_string())
    );
}
