use rust_erase::picker::{dod_commands, proceed_answer, wipe_method, DiskPicker, Key, PickOutcome, WipeMethod};

#[test]
fn moving_and_selecting() {
    let disks: Vec<String> = vec!["d1".into(), "d2".into(), "d3".into()];
    let mut p = DiskPicker::new(3);
    assert_eq!(p.handle(Key::Up), PickOutcome::Continue);
    assert_eq!(p.current(), 0);
    p.handle(Key::Down);
    p.handle(Key::Down);
    p.handle(Key::Down);
    assert_eq!(p.current(), 2);
    p.handle(Key::Enter);
    p.handle(Key::Up);
    p.handle(Key::Up);
    p.handle(Key::Enter);
    assert_eq!(p.selected(), &vec![2, 0]);
    p.handle(Key::Down);
    p.handle(Key::Down);
    p.handle(Key::Enter);
    assert_eq!(p.selected(), &vec![0]);
    p.handle(Key::Enter);
    assert_eq!(p.selected(), &vec![0, 2]);
    assert_eq!(p.handle(Key::Char('x')), PickOutcome::Continue);
    assert_eq!(p.handle(Key::Char('Q')), PickOutcome::Continue);
    assert_eq!(p.handle(Key::Char('q')), PickOutcome::Confirmed);
    assert_eq!(p.picked(&disks), vec!["d1".to_string(), "d3".to_string()]);
    assert_eq!(p.handle(Key::Esc), PickOutcome::Cancelled);
}

#[test]
fn enter_twice_keeps_selection() {
    let mut p = DiskPicker::new(2);
    p.handle(Key::Enter);
    p.handle(Key::Down);
    p.handle(Key::Enter);
    p.handle(Key::Up);
    p.handle(Key::Enter);
    p.handle(Key::Enter);
    let mut s = p.selected().clone();
    s.sort();
    assert_eq!(s, vec![0, 1]);
}

#[test]
fn proceed_keys() {
    assert_eq!(proceed_answer(Key::Char('y')), Some(true));
    assert_eq!(proceed_answer(Key::Char('Y')), Some(true));
    assert_eq!(proceed_answer(Key::Char('n')), Some(false));
    assert_eq!(proceed_answer(Key::Char('N')), Some(false));
    assert_eq!(proceed_answer(Key::Enter), None);
    assert_eq!(proceed_answer(Key::Char('x')), None);
}

#[test]
fn methods_and_commands() {
    assert_eq!(wipe_method("Disk2 - 1000GB - HDD - SATA"), Some(WipeMethod::Dod));
    assert_eq!(wipe_method("Disk1 - 500GB - SSD - SATA"), Some(WipeMethod::AtaSecureErase));
    assert_eq!(wipe_method("Disk3 - 250GB - SSD - NVMe"), Some(WipeMethod::NvmeSecureErase));
    assert_eq!(wipe_method("Disk4 - 1TB - SSD - USB"), None);
    assert_eq!(
        dod_commands("/dev/sdx"),
        vec![
            "dd if=/dev/urandom of=/dev/sdx bs=4M".to_string(),
            "dd if=/dev/urandom of=/dev/sdx bs=4M".to_string(),
            "dd if=/dev/urandom of=/dev/sdx bs=4M".to_string(),
            "dd if=/dev/zero of=/dev/sdx bs=4M".to_string(),
        ]
    );
}
