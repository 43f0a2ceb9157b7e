use rust_erase::answer::{
    after_erase_choice, after_erase_for_lowered, chosen_index, confirm, confirm_answer,
    device_type_answer, select_from, AfterErase, ConfirmAnswer, DeviceType,
};

#[test]
fn test_show() {
    // The last screen: Enter shuts down, q (any case) quits, anything else is invalid.
    assert_eq!(after_erase_choice("\n"), AfterErase::Shutdown);
    assert_eq!(after_erase_choice("   \r\n"), AfterErase::Shutdown);
    assert_eq!(after_erase_choice("q\n"), AfterErase::Quit);
    assert_eq!(after_erase_choice("Q\n"), AfterErase::Quit);
    assert_eq!(after_erase_choice("  Q  "), AfterErase::Quit);
    assert_eq!(after_erase_choice("quit\n"), AfterErase::Invalid);
    assert_eq!(after_erase_choice("y"), AfterErase::Invalid);
    // The end of the input does not shut the system down.
    assert_eq!(after_erase_choice(""), AfterErase::NoAnswer);
    assert_eq!(after_erase_choice("q"), AfterErase::Quit);
    // Text other than whitespace never shuts down, ASCII or not.
    assert_eq!(after_erase_choice("\u{c9}\n"), AfterErase::Invalid);
    assert_eq!(after_erase_choice("x\n"), AfterErase::Invalid);
}

#[test]
fn test_confirm_continue() {
    assert!(confirm("\n"));
    assert!(confirm("  \r\n"));
    // The end of the input, with no line entered, is no confirmation.
    assert!(!confirm(""));
    assert!(!confirm("   "));
    assert_eq!(confirm_answer(""), ConfirmAnswer::NoAnswer);
    assert!(!confirm("q\n"));
    assert!(!confirm("yes\n"));
    assert_eq!(confirm_answer("\n"), ConfirmAnswer::Start);
    assert_eq!(confirm_answer("q\n"), ConfirmAnswer::Cancel);
    // Unlike the last screen, the confirmation does not fold case.
    assert_eq!(confirm_answer("Q\n"), ConfirmAnswer::Invalid);
    assert_eq!(confirm_answer("x\n"), ConfirmAnswer::Invalid);
}

#[test]
fn after_erase_lowered_answer_is_compared_exactly() {
    assert_eq!(after_erase_for_lowered("", true), AfterErase::Shutdown);
    assert_eq!(after_erase_for_lowered("", false), AfterErase::NoAnswer);
    assert_eq!(after_erase_for_lowered("q", true), AfterErase::Quit);
    assert_eq!(after_erase_for_lowered("Q", true), AfterErase::Invalid);
    assert_eq!(after_erase_for_lowered(" q", false), AfterErase::Invalid);
}

#[test]
fn device_type_answers() {
    assert_eq!(device_type_answer("h\n"), DeviceType::Hdd);
    assert_eq!(device_type_answer("H\n"), DeviceType::Hdd);
    assert_eq!(device_type_answer(" s "), DeviceType::Ssd);
    assert_eq!(device_type_answer("S"), DeviceType::Ssd);
    assert_eq!(device_type_answer("hdd"), DeviceType::Unknown);
    assert_eq!(device_type_answer(""), DeviceType::Unknown);
    assert_eq!(DeviceType::Hdd.label(), "HDD");
    assert_eq!(DeviceType::Ssd.label(), "SSD");
    assert_eq!(DeviceType::Unknown.label(), "Unknown");
}

#[test]
fn disk_numbers() {
    assert_eq!(chosen_index("1\n", 3), Some(0));
    assert_eq!(chosen_index(" 3 \n", 3), Some(2));
    assert_eq!(chosen_index("+2\n", 3), Some(1));
    assert_eq!(chosen_index("0\n", 3), None);
    assert_eq!(chosen_index("4\n", 3), None);
    assert_eq!(chosen_index("-1\n", 3), None);
    assert_eq!(chosen_index("two\n", 3), None);
    assert_eq!(chosen_index("\n", 3), None);
    assert_eq!(chosen_index("1\n", 0), None);
    assert_eq!(chosen_index("99999999999999999999999\n", 3), None);
}

#[test]
fn select_disk_from_list() {
    let disks = vec![
        "/dev/sda - A - HDD - SATA".to_string(),
        "/dev/sdb - B - SSD - USB".to_string(),
    ];
    assert_eq!(select_from(&disks, "2\n"), Some("/dev/sdb - B - SSD - USB".to_string()));
    assert_eq!(select_from(&disks, "1"), Some("/dev/sda - A - HDD - SATA".to_string()));
    assert_eq!(select_from(&disks, "3"), None);
}

#[test]
fn menu_lines() {
    assert_eq!(rust_erase::answer::menu_line(0, "/dev/sda - M - HDD - SATA"), "1: /dev/sda - M - HDD - SATA");
    assert_eq!(rust_erase::answer::menu_line(9, "x"), "10: x");
}
