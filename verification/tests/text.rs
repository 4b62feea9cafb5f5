use solana_vanity::text::{decimal_text, trim_text};

#[test]
fn decimal_numerals() {
    assert_eq!(decimal_text(0), "0");
    assert_eq!(decimal_text(7), "7");
    assert_eq!(decimal_text(10), "10");
    assert_eq!(decimal_text(1_024), "1024");
    assert_eq!(decimal_text(u64::MAX), "18446744073709551615");
}

#[test]
fn trims_both_ends_only() {
    assert_eq!(trim_text(" \t\nab c\r\n "), "ab c");
    assert_eq!(trim_text(""), "");
    assert_eq!(trim_text(" \u{a0}\u{3000} "), "");
    assert_eq!(trim_text("abc"), "abc");
}

#[test]
fn trimming_is_idempotent() {
    for s in ["  a b ", "", " ", "x", "\u{2003}y\u{2003}"] {
        assert_eq!(trim_text(&trim_text(s)), trim_text(s));
    }
}

#[test]
fn white_space_is_the_unicode_property() {
    let listed = |n: u32| {
        matches!(
            n,
            0x09..=0x0d
                | 0x20
                | 0x85
                | 0xa0
                | 0x1680
                | 0x2000..=0x200a
                | 0x2028
                | 0x2029
                | 0x202f
                | 0x205f
                | 0x3000
        )
    };
    for n in 0..=0x10ffff_u32 {
        if let Some(c) = char::from_u32(n) {
            let mut padded = String::new();
            padded.push(c);
            padded.push_str("-");
            padded.push(c);
            let expected = if listed(n) { "-" } else { padded.as_str() };
            assert_eq!(trim_text(&padded), expected, "U+{:04X}", n);
        }
    }
}
