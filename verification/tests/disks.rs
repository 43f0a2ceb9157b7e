use rust_erase::answer::DeviceType;
use rust_erase::disks::{asks_device_type, disk_label, listed_disk, menu_label, parse_hdparm, parse_lsblk, LsblkRow};

#[test]
fn lsblk_rows() {
    let out = "NAME    TRAN\nsda     sata\nsdb     usb\nnvme0n1 nvme\nloop0   \n\n";
    let rows = parse_lsblk(out);
    let got: Vec<(String, String)> = rows.iter().map(|r| (r.name.clone(), r.transport.clone())).collect();
    assert_eq!(
        got,
        vec![
            ("sda".to_string(), "sata".to_string()),
            ("sdb".to_string(), "usb".to_string()),
            ("nvme0n1".to_string(), "nvme".to_string()),
        ]
    );
    assert!(parse_lsblk("").is_empty());
    assert!(parse_lsblk("NAME TRAN").is_empty());
    let rows = parse_lsblk("NAME TRAN\r\n sda  sata  extra\r\n");
    assert_eq!(rows.len(), 1);
    assert_eq!(rows[0].name, "sda");
    assert_eq!(rows[0].transport, "sata");
}

#[test]
fn hdparm_output() {
    let out = "\n/dev/sda:\n\nATA device, with non-removable media\n\tModel Number:       Samsung SSD 860 EVO 500GB\n\tSerial Number:      S3Z\n\tNominal Media Rotation Rate: Solid State Device\n";
    assert_eq!(parse_hdparm(out), Some(("Samsung SSD 860 EVO 500GB".to_string(), DeviceType::Ssd)));

    let out = "\tModel Number:       WDC WD10EZEX\n\tNominal Media Rotation Rate: 7200\n";
    assert_eq!(parse_hdparm(out), Some(("WDC WD10EZEX".to_string(), DeviceType::Hdd)));

    let out = "\tModel Number: X\n\tNominal Media Rotation Rate: 0\n";
    assert_eq!(parse_hdparm(out), Some(("X".to_string(), DeviceType::Unknown)));

    let out = "\tModel Number: X\n\tNominal Media Rotation Rate: fast\n";
    assert_eq!(parse_hdparm(out), Some(("X".to_string(), DeviceType::Unknown)));

    assert_eq!(parse_hdparm(""), None);
    assert_eq!(parse_hdparm("\tSerial Number: 123\n"), None);
    assert_eq!(parse_hdparm("Model Number without colon\n"), None);
    // Only the text between the first and second colon is the model.
    assert_eq!(
        parse_hdparm("Model Number: A:B\n"),
        Some(("A".to_string(), DeviceType::Unknown))
    );
    // The last model line wins.
    assert_eq!(
        parse_hdparm("Model Number: A\nModel Number: B\n"),
        Some(("B".to_string(), DeviceType::Unknown))
    );
}

#[test]
fn disk_labels() {
    assert_eq!(
        disk_label("sda", "Samsung SSD", DeviceType::Ssd, "sata"),
        "/dev/sda - Samsung SSD - SSD - SATA"
    );
    assert_eq!(disk_label("sdb", "WD", DeviceType::Hdd, "usb"), "/dev/sdb - WD - HDD - USB");
    assert!(asks_device_type("usb"));
    assert!(!asks_device_type("USB"));
    assert!(!asks_device_type("sata"));
}

fn row(name: &str, transport: &str) -> LsblkRow {
    LsblkRow { name: name.to_string(), transport: transport.to_string() }
}

#[test]
fn listed_disks_and_labels() {
    let found = Some(("WD".to_string(), DeviceType::Hdd));
    assert_eq!(listed_disk(&row("sda", "sata"), found.clone()), found);
    assert_eq!(listed_disk(&row("sda", "sata"), None), None);
    assert_eq!(
        listed_disk(&row("nvme0n1", "nvme"), None),
        Some(("Unknown Model".to_string(), DeviceType::Ssd))
    );
    assert_eq!(
        menu_label(&row("nvme0n1", "nvme"), "Unknown Model", DeviceType::Ssd, None),
        "/dev/nvme0n1 - Unknown Model - SSD - NVME"
    );
    assert_eq!(
        menu_label(&row("sdb", "usb"), "Stick", DeviceType::Unknown, Some(DeviceType::Hdd)),
        "/dev/sdb - Stick - HDD - USB"
    );
    assert_eq!(
        menu_label(&row("sda", "sata"), "WD", DeviceType::Hdd, Some(DeviceType::Ssd)),
        "/dev/sda - WD - HDD - SATA"
    );
}
