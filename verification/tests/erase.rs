use rust_erase::erase::{
    classify_disk, collect_errors, outcome_record, start_record, summary_records, unknown_disk_error,
    DiskKind,
};
use rust_erase::erase::{DiskJob, DiskJobAction};
use rust_erase::log::{format_log_entry, LogRecord};

#[test]
fn kinds() {
    assert_eq!(classify_disk("/dev/sda - M - HDD - SATA"), DiskKind::Hdd);
    assert_eq!(classify_disk("/dev/sdb - M - SSD - SATA"), DiskKind::Ssd);
    assert_eq!(classify_disk("/dev/sdc - HDD SSD"), DiskKind::Hdd);
    assert_eq!(classify_disk("/dev/sdd - M - Unknown - USB"), DiskKind::Unknown);
    assert_eq!(
        unknown_disk_error("/dev/sdd - M - Unknown - USB"),
        "Unknown disk type for /dev/sdd - M - Unknown - USB. Skipping..."
    );
}

#[test]
fn errors_and_summary() {
    let results = vec![Ok(()), Err("e1".to_string()), Err(String::new()), Err("e2".to_string())];
    let errors = collect_errors(&results);
    assert_eq!(errors, vec!["e1".to_string(), String::new(), "e2".to_string()]);
    let recs = summary_records(&errors);
    assert_eq!(recs[0].action, "Erasure process");
    assert_eq!(recs[1].action, "Errors encountered during erasure");
    assert_eq!(recs[1].details, "[\"e1\", \"\", \"e2\"]");
    // A disk that failed with no error text still counts as an error.
    let recs = summary_records(&collect_errors(&vec![Ok(()), Err(String::new())]));
    assert_eq!(recs[1].result, "Error");

    let none = collect_errors(&vec![Ok(()), Ok(())]);
    assert!(none.is_empty());
    let recs = summary_records(&none);
    assert_eq!(recs[1].result, "No errors");
    assert_eq!(recs[1].details, "All disks erased successfully.");
}

#[test]
fn records_per_disk() {
    let r = start_record("/dev/sda");
    assert_eq!(r.action, "Starting erase for /dev/sda");
    let r = outcome_record("/dev/sda", &Ok(()));
    assert_eq!((r.action.as_str(), r.result.as_str()), ("Erase complete for /dev/sda", "Success"));
    let r = outcome_record("/dev/sda", &Err("bad".to_string()));
    assert_eq!((r.action.as_str(), r.result.as_str(), r.details.as_str()), ("Erase failed for /dev/sda", "Error", "bad"));
}

#[test]
fn log_entry_text() {
    let rec = LogRecord::new("Act".to_string(), "Res", "Det".to_string());
    assert_eq!(format_log_entry("1.5s", &rec), "[1.5s] ACTION: Act\nRESULT: Res\nDETAILS: Det\n");
}

#[test]
fn disk_jobs_log_start_then_outcome() {
    let (mut job, step) = DiskJob::start("/dev/sda - M - HDD - SATA");
    assert!(matches!(step.action, DiskJobAction::EraseHdd));
    assert_eq!(step.logs.len(), 1);
    assert_eq!(step.logs[0].action, "Starting erase for /dev/sda - M - HDD - SATA");
    let step = job.finish(Err("Pass 1 failed".to_string()));
    assert_eq!(step.logs.len(), 1);
    assert_eq!(step.logs[0].action, "Erase failed for /dev/sda - M - HDD - SATA");
    assert!(matches!(step.action, DiskJobAction::Done(Err(ref e)) if e == "Pass 1 failed"));

    let (_, step) = DiskJob::start("/dev/sdb - M - SSD - NVME");
    assert!(matches!(step.action, DiskJobAction::EraseSsd));

    let (_, step) = DiskJob::start("/dev/sdc - M - Unknown - USB");
    assert_eq!(step.logs.len(), 2);
    assert_eq!(step.logs[1].action, "Erase failed for /dev/sdc - M - Unknown - USB");
    assert!(matches!(
        step.action,
        DiskJobAction::Done(Err(ref e)) if e == "Unknown disk type for /dev/sdc - M - Unknown - USB. Skipping..."
    ));
}
