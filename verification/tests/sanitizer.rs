use ultivm::sanitizer::{holds_metacharacter, sanitize};

fn by_iterator_chain(args: &str) -> String {
    args.split_whitespace()
        .filter(|arg| !arg.contains(";") && !arg.contains("&&") && !arg.contains("|"))
        .collect::<Vec<&str>>()
        .join(" ")
}

fn chars(s: &str) -> Vec<char> {
    s.chars().collect()
}

#[test]
fn metacharacters_are_found() {
    for token in [";", "a;", ";a", "a;b", "|", "a|b", "||", "&&", "a&&", "&&a", "a&&b", "&&&", "a&b&&c"] {
        assert!(holds_metacharacter(&chars(token)), "{}", token);
    }
}

#[test]
fn single_ampersand_is_no_metacharacter() {
    for token in ["", "a", "&", "a&", "&a", "a&b", "&a&", "a&b&c", "disk.img", "file=x,format=raw", "-hda"] {
        assert!(!holds_metacharacter(&chars(token)), "{}", token);
    }
}

#[test]
fn sanitize_keeps_harmless_arguments() {
    assert_eq!(sanitize("-hda disk.img -accel kvm"), "-hda disk.img -accel kvm");
    assert_eq!(sanitize("-usb"), "-usb");
}

#[test]
fn sanitize_rejoins_with_single_spaces() {
    assert_eq!(sanitize("  -hda \t disk.img \n"), "-hda disk.img");
    assert_eq!(sanitize("a\u{3000}b"), "a b");
}

#[test]
fn sanitize_of_nothing_is_empty() {
    assert_eq!(sanitize(""), "");
    assert_eq!(sanitize("   "), "");
}

#[test]
fn sanitize_may_leave_nothing() {
    assert_eq!(sanitize(";"), "");
    assert_eq!(sanitize("a;b c|d e&&f"), "");
    assert_eq!(sanitize(" ; | && "), "");
}

#[test]
fn semicolon_token_is_removed() {
    let clean = sanitize("-hda disk.img; rm -rf /");
    assert_eq!(clean, "-hda rm -rf /");
    assert!(!clean.contains(';'));
}

#[test]
fn sanitize_removes_only_offending_tokens() {
    assert_eq!(sanitize("-hda a.img && reboot"), "-hda a.img reboot");
    assert_eq!(sanitize("-hda a.img | tee log"), "-hda a.img tee log");
    assert_eq!(sanitize("first;x middle last|y"), "middle");
    assert_eq!(sanitize("keep & keep&too"), "keep & keep&too");
}

#[test]
fn sanitize_agrees_with_the_iterator_chain() {
    let samples = [
        "",
        " ",
        "-hda disk.img -accel kvm",
        "-hda disk.img; rm -rf /",
        "a;b",
        "; ;",
        "a && b",
        "a & b",
        "a&&b c",
        "x | y",
        "\t-usb\u{2003}--enable-kvm\n",
        "é;ü ö",
        "a&b&&c d&e",
    ];
    for s in samples {
        assert_eq!(sanitize(s), by_iterator_chain(s), "{:?}", s);
    }
}

#[test]
fn sanitize_is_idempotent() {
    let samples = [
        "",
        "   ",
        "-hda disk.img -accel kvm",
        "-hda disk.img; rm -rf /",
        "a;b c|d e&&f g",
        "  spaced   out  ",
        "a & b",
        "\u{A0}x\u{3000};y z",
    ];
    for s in samples {
        let once = sanitize(s);
        let twice = sanitize(&once);
        assert_eq!(twice, once, "{:?}", s);
    }
}

#[test]
fn sanitize_never_lengthens() {
    let samples = [
        "",
        " ",
        "a",
        " a ",
        "a  b",
        "-hda disk.img; rm -rf /",
        "a;b c|d e&&f g",
        "\u{3000}x\u{3000}y\u{3000}",
    ];
    for s in samples {
        let joined = s.split_whitespace().collect::<Vec<&str>>().join(" ");
        let clean = sanitize(s);
        assert!(clean.chars().count() <= joined.chars().count(), "{:?}", s);
        assert!(joined.chars().count() <= s.chars().count(), "{:?}", s);
    }
    assert_eq!(sanitize("ab cd;").chars().count(), 2);
    assert_eq!(sanitize(" a  b ").chars().count(), 3);
}

#[test]
fn sanitized_text_holds_no_metacharacter() {
    let samples = ["a; b", "a ;b", "x&& y", "x &&y", "p|q r", "; | &&", "a & & b", "a& &b"];
    for s in samples {
        let clean = sanitize(s);
        assert!(!clean.contains(';'), "{:?}", s);
        assert!(!clean.contains('|'), "{:?}", s);
        assert!(!clean.contains("&&"), "{:?}", s);
        assert!(!holds_metacharacter(&chars(&clean)), "{:?}", s);
    }
    assert_eq!(sanitize("a & & b"), "a & & b");
}
