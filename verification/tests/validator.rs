use ultivm::allow_list::{AllowList, Flag, TokenKind};
use ultivm::validator::validate;

fn standard() -> AllowList {
    AllowList::standard()
}

#[test]
fn standard_list_classifies_its_flags() {
    let list = standard();
    for flag in ["-hda", "-cdrom", "-drive", "-accel", "-device"] {
        assert_eq!(list.classify(flag), TokenKind::ValueTaking, "{}", flag);
    }
    for flag in ["--enable-kvm", "-usb"] {
        assert_eq!(list.classify(flag), TokenKind::Standalone, "{}", flag);
    }
}

#[test]
fn standard_list_knows_nothing_else() {
    let list = standard();
    for token in ["", "-hdb", "-hd", "-hdaa", "hda", "-HDA", "-kernel", "-usbdevice", "-enable-kvm", "disk.img", "rm", ";", "-name", "-no-reboot"] {
        assert_eq!(list.classify(token), TokenKind::Unrecognized, "{}", token);
    }
}

#[test]
fn classify_chars_agrees_with_classify() {
    let list = standard();
    let usb: Vec<char> = "-usb".chars().collect();
    assert_eq!(list.classify_chars(&usb), TokenKind::Standalone);
    let drive: Vec<char> = "-drive".chars().collect();
    assert_eq!(list.classify_chars(&drive), TokenKind::ValueTaking);
    assert_eq!(list.classify_chars(&[]), TokenKind::Unrecognized);
}

#[test]
fn first_entry_of_a_name_counts() {
    let list = AllowList::new(vec![
        Flag::with_value("-x"),
        Flag::standalone("-x"),
        Flag::standalone("-y"),
    ]);
    assert_eq!(list.classify("-x"), TokenKind::ValueTaking);
    assert_eq!(list.classify("-y"), TokenKind::Standalone);
    assert_eq!(list.classify("-z"), TokenKind::Unrecognized);
    assert!(validate("-x -y -y", &list));
    assert!(!validate("-x", &list));
}

#[test]
fn empty_list_accepts_only_the_empty_string() {
    let list = AllowList::new(Vec::new());
    assert!(validate("", &list));
    assert!(validate("   ", &list));
    assert!(!validate("-usb", &list));
}

#[test]
fn empty_argument_string_is_valid() {
    assert!(validate("", &standard()));
    assert!(validate(" \t\n", &standard()));
}

#[test]
fn flags_with_values_are_valid() {
    assert!(validate("-hda disk.img -accel kvm", &standard()));
}

#[test]
fn flag_without_value_is_invalid() {
    assert!(!validate("-hda", &standard()));
}

#[test]
fn injection_attempt_is_invalid() {
    assert!(!validate("-hda disk.img; rm -rf /", &standard()));
}

#[test]
fn unlisted_token_is_rejected_at_every_flag_position() {
    let list = standard();
    assert!(!validate("-bogus", &list));
    assert!(!validate("-bogus -usb", &list));
    assert!(!validate("-usb -bogus", &list));
    assert!(!validate("-usb -bogus -usb", &list));
    assert!(!validate("-hda disk.img -bogus", &list));
    assert!(!validate("-hda disk.img -bogus -usb", &list));
    assert!(!validate("-usb --enable-kvm -hda a -cdrom b -bogus -drive c", &list));
    assert!(!validate("disk.img -hda", &list));
}

#[test]
fn unlisted_token_is_accepted_as_a_value() {
    let list = standard();
    assert!(validate("-hda -bogus", &list));
    assert!(validate("-hda disk.img", &list));
    assert!(validate("-accel kvm -device usb-tablet -cdrom a.iso", &list));
}

#[test]
fn drive_value_must_begin_with_file() {
    let list = standard();
    assert!(validate("-drive file=disk.qcow2,format=qcow2", &list));
    assert!(validate("-drive file=", &list));
    assert!(validate("-usb -drive file=a.img -hda b.img", &list));
    assert!(!validate("-drive anything", &list));
    assert!(!validate("-drive disk.img", &list));
    assert!(!validate("-drive if=virtio,file=disk.img", &list));
    assert!(!validate("-drive FILE=disk.img", &list));
    assert!(!validate("-drive file", &list));
    assert!(!validate("-drive -usb", &list));
    assert!(!validate("-hda a.img -drive b.img -usb", &list));
}

#[test]
fn other_flags_take_a_value_of_any_shape() {
    let list = standard();
    for flag in ["-hda", "-cdrom", "-accel", "-device"] {
        for value in ["x", "file=x", "-usb", "-drive", "=", "a,b=c"] {
            assert!(validate(&format!("{} {}", flag, value), &list), "{} {}", flag, value);
        }
    }
}

#[test]
fn entries_say_what_shape_a_value_has() {
    let list = AllowList::new(vec![
        Flag::with_prefixed_value("-net", "nic,"),
        Flag::with_value("-m"),
        Flag::standalone("-snapshot"),
    ]);
    assert!(validate("-net nic,model=e1000 -m 2G -snapshot", &list));
    assert!(!validate("-net user", &list));
    assert!(!validate("-net nic", &list));
    let nic: Vec<char> = "nic,x".chars().collect();
    let net: Vec<char> = "-net".chars().collect();
    let m: Vec<char> = "-m".chars().collect();
    let other: Vec<char> = "-q".chars().collect();
    assert!(list.accepts_value(&net, &nic));
    assert!(!list.accepts_value(&net, &m));
    assert!(list.accepts_value(&m, &nic));
    assert!(!list.accepts_value(&other, &nic));
    assert_eq!(list.entry(&net), Some(&Flag::with_prefixed_value("-net", "nic,")));
    assert_eq!(list.entry(&other), None);
}

#[test]
fn every_value_taking_flag_needs_a_value() {
    let list = standard();
    for flag in ["-hda", "-cdrom", "-drive", "-accel", "-device"] {
        assert!(!validate(flag, &list), "{}", flag);
        assert!(!validate(&format!("-usb {}", flag), &list), "{}", flag);
        assert!(!validate(&format!("-hda disk.img {}", flag), &list), "{}", flag);
        assert!(!validate(&format!("{}   ", flag), &list), "{}", flag);
        assert!(validate(&format!("{} file=value", flag), &list), "{}", flag);
    }
}

#[test]
fn trailing_flag_that_is_itself_a_value_is_accepted() {
    let list = standard();
    assert!(validate("-hda -hda", &list));
    assert!(!validate("-hda -hda -hda", &list));
    assert!(validate("-hda -hda -hda -hda", &list));
}

#[test]
fn standalone_flag_consumes_no_lookahead() {
    let list = standard();
    for flag in ["--enable-kvm", "-usb"] {
        assert!(validate(flag, &list));
        for rest in ["", "-usb", "-hda disk.img", "-hda", "-bogus", "-cdrom a -bogus", "--enable-kvm -usb -accel kvm", "-drive file=a", "-drive a"] {
            let with_flag = format!("{} {}", flag, rest);
            assert_eq!(validate(&with_flag, &list), validate(rest, &list), "{:?}", with_flag);
        }
    }
    assert!(!validate("-usb disk.img", &list));
    assert!(validate("-usb -usb -usb", &list));
}

#[test]
fn scan_stops_at_the_first_violation() {
    let list = standard();
    assert!(!validate("-bogus -hda disk.img", &list));
    assert!(!validate("-hda disk.img stray -accel kvm", &list));
}

#[test]
fn unicode_whitespace_separates_tokens() {
    let list = standard();
    assert!(validate("-hda\u{3000}disk.img\u{A0}-usb", &list));
    assert!(!validate("-hda\u{200B}disk.img", &list));
}
