use ultivm::text::{
    decimal_string, equals_str, is_whitespace, same_text, starts_with, to_chars,
};
use ultivm::tokens::{token_spans, tokenize, Span};

fn std_tokens(s: &str) -> Vec<String> {
    s.split_whitespace().map(|t| t.to_string()).collect()
}

#[test]
fn whitespace_is_the_unicode_white_space_property() {
    let mut code: u32 = 0;
    while code <= 0x10FFFF {
        if let Some(c) = char::from_u32(code) {
            assert_eq!(is_whitespace(c), c.is_whitespace(), "U+{:04X}", code);
        }
        code += 1;
    }
}

#[test]
fn some_whitespace_characters_by_name() {
    for c in [' ', '\t', '\n', '\r', '\u{0B}', '\u{0C}', '\u{85}', '\u{A0}', '\u{1680}', '\u{2003}', '\u{2028}', '\u{2029}', '\u{202F}', '\u{205F}', '\u{3000}'] {
        assert!(is_whitespace(c));
    }
    for c in ['a', '-', ';', '\u{200B}', '\u{180E}', '\u{FEFF}', '\0', '\u{1F}'] {
        assert!(!is_whitespace(c));
    }
}

#[test]
fn to_chars_keeps_every_character() {
    assert_eq!(to_chars(""), Vec::<char>::new());
    assert_eq!(to_chars("a-b"), vec!['a', '-', 'b']);
    assert_eq!(to_chars("é\u{3000}z"), vec!['é', '\u{3000}', 'z']);
}

#[test]
fn equals_str_compares_whole_texts() {
    let hda = vec!['-', 'h', 'd', 'a'];
    assert!(equals_str(&hda, "-hda"));
    assert!(!equals_str(&hda, "-hd"));
    assert!(!equals_str(&hda, "-hdab"));
    assert!(!equals_str(&hda, "-hdb"));
    assert!(!equals_str(&hda, ""));
    assert!(equals_str(&[], ""));
    assert!(!equals_str(&[], "x"));
}

#[test]
fn starts_with_compares_the_beginning() {
    let value = vec!['f', 'i', 'l', 'e', '=', 'x'];
    assert!(starts_with(&value, ""));
    assert!(starts_with(&value, "f"));
    assert!(starts_with(&value, "file="));
    assert!(starts_with(&value, "file=x"));
    assert!(!starts_with(&value, "file=xy"));
    assert!(!starts_with(&value, "File="));
    assert!(!starts_with(&value, "ile="));
    assert!(starts_with(&[], ""));
    assert!(!starts_with(&[], "f"));
}

#[test]
fn same_text_compares_whole_texts() {
    assert!(same_text("", ""));
    assert!(same_text("v0.0.1u2", "v0.0.1u2"));
    assert!(!same_text("v0.0.1u2", "0.0.1u2"));
    assert!(!same_text("abc", "abd"));
}

#[test]
fn decimal_string_writes_numerals() {
    assert_eq!(decimal_string(0), "0");
    assert_eq!(decimal_string(1), "1");
    assert_eq!(decimal_string(9), "9");
    assert_eq!(decimal_string(10), "10");
    assert_eq!(decimal_string(109), "109");
    assert_eq!(decimal_string(5901), "5901");
    assert_eq!(decimal_string(59635), "59635");
    assert_eq!(decimal_string(65535), "65535");
    assert_eq!(decimal_string(4294967295), "4294967295");
}

#[test]
fn decimal_string_agrees_with_display() {
    let mut n: u32 = 0;
    while n < 70000 {
        assert_eq!(decimal_string(n), format!("{}", n));
        n += 1;
    }
}

#[test]
fn tokenize_splits_on_runs_of_whitespace() {
    assert_eq!(tokenize("-hda disk.img -accel kvm"), vec!["-hda", "disk.img", "-accel", "kvm"]);
    assert_eq!(tokenize("  -usb \t\n --enable-kvm  "), vec!["-usb", "--enable-kvm"]);
    assert_eq!(tokenize("one"), vec!["one"]);
}

#[test]
fn tokenize_of_nothing_is_nothing() {
    assert_eq!(tokenize(""), Vec::<String>::new());
    assert_eq!(tokenize(" "), Vec::<String>::new());
    assert_eq!(tokenize(" \t\r\n\u{3000}"), Vec::<String>::new());
}

#[test]
fn tokenize_agrees_with_split_whitespace() {
    let samples = [
        "",
        " ",
        "a",
        " a",
        "a ",
        "a b",
        "a  b",
        "-hda disk.img; rm -rf /",
        "\u{A0}-drive\u{2003}file=x.qcow2\u{3000}",
        "é\u{85}ü\u{1680}ß",
        "tab\tseparated\ttokens",
        "line\nbreaks\r\nhere",
        "zero\u{200B}width is no space",
        "-device usb-tablet -usb --enable-kvm",
    ];
    for s in samples {
        assert_eq!(tokenize(s), std_tokens(s), "{:?}", s);
    }
}

#[test]
fn token_spans_count_characters_not_bytes() {
    let chars = to_chars("é  üß ");
    let spans = token_spans(&chars);
    assert_eq!(spans.len(), 2);
    let Span { start, end } = spans[0];
    assert_eq!((start, end), (0, 1));
    let Span { start, end } = spans[1];
    assert_eq!((start, end), (3, 5));
}
