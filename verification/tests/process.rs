use iswitch::process::{is_already_running, names_other_process};

#[test]
fn no_listing_no_other_instance() {
    assert!(!is_already_running(None, 12));
    assert!(!is_already_running(Some(b""), 12));
}

#[test]
fn the_own_process_does_not_count() {
    assert!(!is_already_running(Some(b"12\n"), 12));
    assert!(!is_already_running(Some(b"12"), 12));
    assert!(is_already_running(Some(b"12\n13\n"), 12));
    assert!(is_already_running(Some(b"11\n12\n"), 12));
    assert!(is_already_running(Some(b"0"), 12));
}

#[test]
fn white_space_around_a_number() {
    assert!(is_already_running(Some(b"  13\t\r\n"), 12));
    assert!(!is_already_running(Some(b"  12\t\r\n"), 12));
    assert!(names_other_process("\u{3000}13\u{a0}", 12));
    assert!(!names_other_process("\u{200b}13", 12));
}

#[test]
fn other_lines_are_passed_over() {
    assert!(!names_other_process("thirteen\n", 12));
    assert!(!names_other_process("1 3", 12));
    assert!(!names_other_process("-13", 12));
    assert!(!names_other_process("+", 12));
    assert!(!names_other_process("++13", 12));
    assert!(!names_other_process("13x", 12));
    assert!(!names_other_process("\n\n\n", 12));
    assert!(names_other_process("thirteen\n13", 12));
    assert!(names_other_process("+13", 12));
    assert!(!names_other_process("+12", 12));
    assert!(!names_other_process("0012", 12));
}

#[test]
fn numbers_that_do_not_fit() {
    assert!(names_other_process("4294967295", 12));
    assert!(!names_other_process("4294967295", 4294967295));
    assert!(!names_other_process("4294967296", 12));
    assert!(!names_other_process("99999999999999999999999999", 12));
    assert!(names_other_process("00000000000000000000000013", 12));
}

#[test]
fn what_cannot_be_decoded_is_passed_over() {
    assert!(!is_already_running(Some(&[0xff, b'1', b'3', b'\n']), 12));
    assert!(is_already_running(Some(&[0xff, b'\n', b'1', b'3', b'\n']), 12));
}

#[test]
fn agrees_with_lines_trim_and_parse() {
    let pieces = ["12", "13", "+12", "+", " 7 ", "x", "\n", "\r\n", "\r", "", "\t", "00", "\u{85}"];
    for a in pieces {
        for b in pieces {
            for c in pieces {
                let text = format!("{}{}{}", a, b, c);
                let expected = text
                    .lines()
                    .filter_map(|l| l.trim().parse::<u32>().ok())
                    .any(|pid| pid != 12);
                assert_eq!(names_other_process(&text, 12), expected, "{:?}", text);
            }
        }
    }
}
