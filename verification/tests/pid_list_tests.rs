use desktop_supervisor::pid_list::{is_space_char, parse_pid, pids_in_chars, pids_in_text};

fn parse(token: &str) -> Option<i32> {
    let chars: Vec<char> = token.chars().collect();
    parse_pid(&chars, 0, chars.len())
}

fn word_by_std(word: &str) -> Option<i32> {
    match word.parse::<i32>() {
        Ok(pid) if pid >= 1 => Some(pid),
        _ => None,
    }
}

fn by_std(text: &str) -> Vec<i32> {
    let mut pids = Vec::new();
    for word in text.split_whitespace() {
        if let Some(pid) = word_by_std(word) {
            pids.push(pid);
        }
    }
    pids
}

#[test]
fn space_agrees_with_std_on_every_char() {
    let mut code: u32 = 0;
    while code <= 0x10FFFF {
        if let Some(c) = char::from_u32(code) {
            assert_eq!(is_space_char(c), c.is_whitespace(), "U+{:04X}", code);
        }
        code += 1;
    }
}

#[test]
fn space_named_points() {
    for c in ['\t', '\n', '\u{0B}', '\u{0C}', '\r', ' ', '\u{85}', '\u{A0}', '\u{1680}', '\u{2000}', '\u{200A}', '\u{2028}', '\u{2029}', '\u{202F}', '\u{205F}', '\u{3000}'] {
        assert!(is_space_char(c));
    }
    for c in ['\u{08}', '\u{0E}', '\u{1F}', '!', '0', '\u{84}', '\u{86}', '\u{200B}', '\u{FEFF}', '\u{FFFD}'] {
        assert!(!is_space_char(c));
    }
}

#[test]
fn parse_plain_numbers() {
    assert_eq!(parse("1"), Some(1));
    assert_eq!(parse("7"), Some(7));
    assert_eq!(parse("8420"), Some(8420));
    assert_eq!(parse("31337"), Some(31337));
}

#[test]
fn parse_zero_names_no_process() {
    assert_eq!(parse("0"), None);
    assert_eq!(parse("+0"), None);
    assert_eq!(parse("-0"), None);
    assert_eq!(parse("000"), None);
    assert_eq!(parse("00000000000000000000000000000000"), None);
}

#[test]
fn parse_negative_names_no_process() {
    assert_eq!(parse("-1"), None);
    assert_eq!(parse("-15"), None);
    assert_eq!(parse("-8420"), None);
    assert_eq!(parse("-2147483647"), None);
    assert_eq!(parse("-2147483648"), None);
    assert_eq!(parse("-2147483649"), None);
    assert_eq!(parse("-0000000000000000000000000012"), None);
}

#[test]
fn parse_signs() {
    assert_eq!(parse("+15"), Some(15));
    assert_eq!(parse("+1"), Some(1));
    assert_eq!(parse("+"), None);
    assert_eq!(parse("-"), None);
    assert_eq!(parse("--1"), None);
    assert_eq!(parse("+-1"), None);
    assert_eq!(parse("1-"), None);
}

#[test]
fn parse_leading_zeros() {
    assert_eq!(parse("007"), Some(7));
    assert_eq!(parse("0000000000000000000000000012"), Some(12));
    assert_eq!(parse("+0000000000000000000000000012"), Some(12));
}

#[test]
fn parse_empty_token() {
    assert_eq!(parse(""), None);
    let chars = ['1', '2'];
    assert_eq!(parse_pid(&chars, 1, 1), None);
    assert_eq!(parse_pid(&chars, 2, 2), None);
}

#[test]
fn parse_part_of_a_slice() {
    let chars = ['x', '4', '2', 'y'];
    assert_eq!(parse_pid(&chars, 1, 3), Some(42));
    assert_eq!(parse_pid(&chars, 0, 3), None);
    assert_eq!(parse_pid(&chars, 1, 4), None);
    assert_eq!(parse_pid(&chars, 2, 3), Some(2));
}

#[test]
fn parse_range_limits() {
    assert_eq!(parse("2147483647"), Some(i32::MAX));
    assert_eq!(parse("+2147483647"), Some(i32::MAX));
    assert_eq!(parse("2147483646"), Some(i32::MAX - 1));
    assert_eq!(parse("2147483648"), None);
    assert_eq!(parse("+2147483648"), None);
    assert_eq!(parse("4294967296"), None);
    assert_eq!(parse("18446744073709551616"), None);
    assert_eq!(parse("99999999999999999999999999999999999999999999"), None);
    assert_eq!(parse("-99999999999999999999999999999999999999999999"), None);
}

#[test]
fn parse_rejects_other_characters() {
    assert_eq!(parse("12a"), None);
    assert_eq!(parse("a12"), None);
    assert_eq!(parse("1 2"), None);
    assert_eq!(parse("1.5"), None);
    assert_eq!(parse("0x10"), None);
    assert_eq!(parse("1_000"), None);
    assert_eq!(parse("\u{0661}\u{0662}"), None);
    assert_eq!(parse("\u{FF11}"), None);
    assert_eq!(parse("99999999999999999999x"), None);
}

#[test]
fn parse_agrees_with_std() {
    let samples = [
        "", "0", "1", "-1", "+1", "+", "-", "00", "-00", "2147483647", "2147483648", "-2147483648",
        "-2147483649", "21474836470", "12345678901234567890", "1a", "a1", " 1", "1 ", "+-1", "-+1",
        "1+", "\u{FFFD}", "12\u{FFFD}34", "٣", "1e3", "0b1", "--", "++1", "000000000002147483647",
    ];
    for sample in samples {
        assert_eq!(parse(sample), word_by_std(sample), "{:?}", sample);
    }
}

#[test]
fn text_of_a_usual_lookup() {
    assert_eq!(pids_in_text("1234\n5678\n"), vec![1234, 5678]);
    assert_eq!(pids_in_text("4242\n"), vec![4242]);
    assert_eq!(pids_in_text("4242"), vec![4242]);
}

#[test]
fn text_without_tokens() {
    assert_eq!(pids_in_text(""), Vec::<i32>::new());
    assert_eq!(pids_in_text("\n"), Vec::<i32>::new());
    assert_eq!(pids_in_text("  \t\r\n \u{A0}\u{3000} "), Vec::<i32>::new());
}

#[test]
fn text_passes_over_what_is_no_number() {
    assert_eq!(
        pids_in_text("abc 12 -3 +4 99999999999 007 - + 1a  5"),
        vec![12, 4, 7, 5]
    );
    assert_eq!(pids_in_text("lsof: no such port"), Vec::<i32>::new());
}

#[test]
fn text_keeps_order_and_repeats() {
    assert_eq!(pids_in_text("3 1 2 1 3"), vec![3, 1, 2, 1, 3]);
}

#[test]
fn text_splits_at_every_kind_of_space() {
    assert_eq!(pids_in_text("12\u{A0}34\u{3000}56\u{2028}78\u{85}9"), vec![12, 34, 56, 78, 9]);
    assert_eq!(pids_in_text("\t1\u{0B}2\u{0C}3\r4 "), vec![1, 2, 3, 4]);
    assert_eq!(pids_in_text("12\u{200B}34"), Vec::<i32>::new());
}

#[test]
fn text_agrees_with_std() {
    let samples = [
        "",
        " ",
        "1",
        " 1 ",
        "1\n2\n3\n",
        "10 x 20 y30 40z -50 +60 - +",
        "2147483647 2147483648 -2147483648 -2147483649",
        "7\u{A0}8\u{1680}9\u{2003}10\u{202F}11\u{205F}12",
        "1\u{FFFD}2 3",
        "\u{FEFF}5 6",
        "0000 -0 +0",
    ];
    for sample in samples {
        assert_eq!(pids_in_text(sample), by_std(sample), "{:?}", sample);
    }
}

#[test]
fn chars_and_text_agree() {
    let text = "15 x 16\n17";
    let chars: Vec<char> = text.chars().collect();
    assert_eq!(pids_in_chars(&chars), pids_in_text(text));
    assert_eq!(pids_in_chars(&chars), vec![15, 16, 17]);
    assert_eq!(pids_in_chars(&[]), Vec::<i32>::new());
}

#[test]
fn text_passes_over_zero_and_negatives() {
    assert_eq!(pids_in_text("0"), Vec::<i32>::new());
    assert_eq!(pids_in_text("-1"), Vec::<i32>::new());
    assert_eq!(pids_in_text("0 -1 5 -7 +0 -2147483648 6"), vec![5, 6]);
}

#[test]
fn every_identifier_is_at_least_one() {
    let samples = [
        "0 1 2 -1 -2 +3 -0 +0 00 2147483647 2147483648 -2147483648",
        "-8420\n8420\n0\n",
        "1\u{A0}0\u{3000}-1",
    ];
    for sample in samples {
        for pid in pids_in_text(sample) {
            assert!(pid >= 1, "{:?} gave {}", sample, pid);
        }
    }
    assert_eq!(pids_in_text(samples[0]), vec![1, 2, 3, 2147483647]);
}
