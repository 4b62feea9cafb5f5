use solana_vanity::vanity::{
    estimate_attempts, matches_suffix, validate_suffix, VanityConfig, MAX_SUFFIX_LEN,
};

fn counting_key() -> [u8; 32] {
    let mut key = [0u8; 32];
    for (i, byte) in key.iter_mut().enumerate() {
        *byte = i as u8 + 1;
    }
    key
}

const COUNTING_TEXT: &str = "4wBqpZM9xaSheZzJSMawUKKwhdpChKbZ5eu5ky4Vigw";

#[test]
fn matches_whole_text_and_its_ends() {
    let key = counting_key();
    for start in 0..=COUNTING_TEXT.len() {
        assert!(matches_suffix(&key, &COUNTING_TEXT[start..], false));
        assert!(matches_suffix(&key, &COUNTING_TEXT[start..], true));
    }
    assert!(!matches_suffix(&key, "Vigx", false));
    assert!(!matches_suffix(&key, "xVigw", false));
    let longer = format!("1{}", COUNTING_TEXT);
    assert!(!matches_suffix(&key, &longer, false));
}

#[test]
fn case_matters_unless_ignored() {
    let key = counting_key();
    assert!(matches_suffix(&key, "Vigw", false));
    assert!(!matches_suffix(&key, "vigw", false));
    assert!(!matches_suffix(&key, "VIGW", false));
    assert!(matches_suffix(&key, "vigw", true));
    assert!(matches_suffix(&key, "VIGW", true));
}

#[test]
fn leading_zero_bytes_are_ones() {
    assert!(matches_suffix(&[0u8; 32], "11111111111111111111111111111111", false));
    assert!(!matches_suffix(&[0u8; 32], "111111111111111111111111111111111", false));
    let mut key = [0u8; 32];
    key[31] = 57;
    assert!(matches_suffix(&key, "1111111111111111111111111111111z", false));
    assert!(matches_suffix(&[255u8; 32], "JEKNVnkbo3jma5nREBBJCDoXFVeKkD56V3xKrvRmWxFG", false));
}

#[test]
fn only_base58_suffixes_match() {
    let key = counting_key();
    for suffix in ["0", "O", "I", "l", "\u{e9}", " "] {
        assert!(!matches_suffix(&key, suffix, false));
    }
}

#[test]
fn accepts_valid_suffixes() {
    for suffix in ["a", "z", "1", "9", "A", "Z", "pump", "12345678", "HJLMNPkm"] {
        assert_eq!(validate_suffix(suffix), Ok(()));
    }
}

#[test]
fn refuses_empty_suffix() {
    assert_eq!(validate_suffix(""), Err("Suffix must not be empty".to_string()));
}

#[test]
fn refuses_long_suffix() {
    let message =
        "Suffix too long (max 8 characters). Longer suffixes may take unreasonably long.";
    assert_eq!(validate_suffix("123456789"), Err(message.to_string()));
    // Five characters, but ten bytes.
    assert_eq!(validate_suffix("\u{e9}\u{e9}\u{e9}\u{e9}\u{e9}"), Err(message.to_string()));
    // The length is looked at before the characters.
    assert_eq!(validate_suffix("000000000"), Err(message.to_string()));
}

#[test]
fn names_the_first_bad_character() {
    for (suffix, c, position) in
        [("0", '0', 0), ("aO", 'O', 1), ("abcI", 'I', 3), ("l0", 'l', 0), ("1234567 ", ' ', 7)]
    {
        assert_eq!(
            validate_suffix(suffix),
            Err(format!(
                "Character '{}' at position {} is not valid base58. Note: base58 excludes 0, O, I, l",
                c, position
            ))
        );
    }
    assert_eq!(
        validate_suffix("ab\u{e9}"),
        Err("Character '\u{e9}' at position 2 is not valid base58. Note: base58 excludes 0, O, I, l"
            .to_string())
    );
}

#[test]
fn exactly_the_alphabet_is_accepted() {
    let alphabet = "123456789ABCDEFGHJKLMNPQRSTUVWXYZabcdefghijkmnopqrstuvwxyz";
    for n in 0..0x300_u32 {
        let c = char::from_u32(n).unwrap();
        assert_eq!(validate_suffix(&c.to_string()).is_ok(), alphabet.contains(c));
    }
}

#[test]
fn estimates_are_powers() {
    assert_eq!(estimate_attempts(0, false), Some(1));
    assert_eq!(estimate_attempts(0, true), Some(1));
    assert_eq!(estimate_attempts(1, false), Some(58));
    assert_eq!(estimate_attempts(1, true), Some(34));
    assert_eq!(estimate_attempts(4, false), Some(11_316_496));
    assert_eq!(estimate_attempts(4, true), Some(1_336_336));
    assert_eq!(estimate_attempts(8, false), Some(128_063_081_718_016));
    assert_eq!(estimate_attempts(8, true), Some(1_785_793_904_896));
}

#[test]
fn estimates_agree_with_floating_point() {
    for len in 0..=12 {
        for (case_insensitive, size) in [(false, 58.0_f64), (true, 34.0_f64)] {
            if let Some(n) = estimate_attempts(len, case_insensitive) {
                assert_eq!(n as f64, size.powi(len as i32));
            }
        }
    }
}

#[test]
fn estimates_beyond_the_range_are_none() {
    assert_eq!(estimate_attempts(10, false), Some(430_804_206_899_405_824));
    assert_eq!(estimate_attempts(11, false), None);
    assert_eq!(estimate_attempts(12, true), Some(2_386_420_683_693_101_056));
    assert_eq!(estimate_attempts(13, true), None);
    assert_eq!(estimate_attempts(usize::MAX, false), None);
}

#[test]
fn longer_suffixes_and_letter_case_cost_more() {
    for len in 0..MAX_SUFFIX_LEN {
        let exact = estimate_attempts(len, false).unwrap();
        let folded = estimate_attempts(len, true).unwrap();
        assert!(if len == 0 { folded == exact } else { folded < exact });
        assert_eq!(estimate_attempts(len + 1, false), Some(exact * 58));
        assert_eq!(estimate_attempts(len + 1, true), Some(folded * 34));
    }
}

#[test]
fn default_config_uses_every_processor() {
    let config = VanityConfig::default();
    assert_eq!(config.suffix, "");
    assert!(!config.case_insensitive);
    assert_eq!(config.num_threads, num_cpus::get());
}

#[test]
fn config_for_given_processors() {
    for processors in [1, 3, 64] {
        let config = VanityConfig::for_processors(processors);
        assert_eq!(config.suffix, "");
        assert!(!config.case_insensitive);
        assert_eq!(config.num_threads, processors);
    }
}

#[test]
fn config_copies_are_equal() {
    let config =
        VanityConfig { suffix: "abc".to_string(), case_insensitive: true, num_threads: 3 };
    let copy = config.clone();
    assert_eq!(copy.suffix, "abc");
    assert!(copy.case_insensitive);
    assert_eq!(copy.num_threads, 3);
}

#[test]
fn estimates_multiply_over_lengths() {
    for case_insensitive in [false, true] {
        for a in 0..=4 {
            for b in 0..=4 {
                let product = estimate_attempts(a, case_insensitive).unwrap()
                    * estimate_attempts(b, case_insensitive).unwrap();
                assert_eq!(estimate_attempts(a + b, case_insensitive), Some(product));
            }
        }
    }
}

#[test]
fn key_texts_have_at_most_44_characters() {
    let longest = "JEKNVnkbo3jma5nREBBJCDoXFVeKkD56V3xKrvRmWxFG";
    assert_eq!(longest.len(), 44);
    for start in 0..longest.len() {
        assert!(matches_suffix(&[255u8; 32], &longest[start..], false));
    }
    for c in "123456789ABCDEFGHJKLMNPQRSTUVWXYZabcdefghijkmnopqrstuvwxyz".chars() {
        assert!(!matches_suffix(&[255u8; 32], &format!("{}{}", c, longest), false));
    }
}
