use cmdrec::status::recorded_exit_code;
use cmdrec::status::status_content;
use cmdrec::status::status_message;
use cmdrec::text::trim;

#[test]
fn it_renders_exit_codes_as_decimal_lines() {
    assert_eq!(status_content(0), "0\n");
    assert_eq!(status_content(1), "1\n");
    assert_eq!(status_content(9), "9\n");
    assert_eq!(status_content(10), "10\n");
    assert_eq!(status_content(42), "42\n");
    assert_eq!(status_content(99), "99\n");
    assert_eq!(status_content(100), "100\n");
    assert_eq!(status_content(255), "255\n");
}

#[test]
fn it_stores_255_when_no_exit_code_is_available() {
    assert_eq!(recorded_exit_code(None), 255);
    assert_eq!(recorded_exit_code(Some(-1)), 255);
    assert_eq!(recorded_exit_code(Some(300)), 255);
    assert_eq!(recorded_exit_code(Some(0)), 0);
    assert_eq!(recorded_exit_code(Some(1)), 1);
    assert_eq!(recorded_exit_code(Some(255)), 255);
}

#[test]
fn it_prints_back_exactly_what_the_status_file_stores() {
    // Recording an exit of 0 or 1 and querying the status reproduces the
    // stored line exactly.
    for code in [0u8, 1, 77, 255] {
        let stored = status_content(code);
        assert_eq!(status_message(&stored), stored);
    }
}

#[test]
fn it_trims_surrounding_whitespace_from_status_content() {
    assert_eq!(status_message("0\n"), "0\n");
    assert_eq!(status_message("  17 \t\r\n"), "17\n");
    assert_eq!(status_message("\u{0C}3\u{A0}\n"), "3\n");
    assert_eq!(status_message(""), "\n");
    assert_eq!(trim("  hello  "), "hello");
    assert_eq!(trim("\t\n\r "), "");
    assert_eq!(trim("x"), "x");
}

#[test]
fn it_trims_the_same_whitespace_set_as_std() {
    let samples = [
        "0\n",
        " 12\t",
        "\u{A0}\u{1680}x\u{2000}\u{2009}\u{200A}",
        "\u{0B}\u{0C}\u{85}mixed inner \u{2028}kept\u{2029}",
        "\u{202F}\u{205F}\u{3000}",
        "",
        "plain",
    ];
    for s in samples {
        assert_eq!(trim(s), s.trim());
    }
}

#[test]
fn it_compares_text_by_characters() {
    assert!(cmdrec::text::str_eq("abc", "abc"));
    assert!(!cmdrec::text::str_eq("abc", "abd"));
    assert!(!cmdrec::text::str_eq("abc", "abcd"));
    assert!(cmdrec::text::str_eq("", ""));
}
