use whisperme_core::context::{parse_window_info, window_info_from_script};
use whisperme_core::fields::{chars_of, is_space_char, trim_and_split};

#[test]
fn window_answer_is_read_by_fields() {
    let info = parse_window_info("Safari|com.apple.Safari|Start Page\n").unwrap();
    assert_eq!(info.application_name, "Safari");
    assert_eq!(info.bundle_id, "com.apple.Safari");
    assert_eq!(info.window_title, "Start Page");
    assert_eq!(info.process_name, "Safari");
}

#[test]
fn window_answer_may_have_an_empty_title() {
    let info = parse_window_info("  Finder|com.apple.finder|  \n").unwrap();
    assert_eq!(info.application_name, "Finder");
    assert_eq!(info.bundle_id, "com.apple.finder");
    assert_eq!(info.window_title, "");
    assert_eq!(info.process_name, "Finder");
}

#[test]
fn window_title_ends_at_the_next_separator() {
    let info = parse_window_info("Editor|com.example.editor|notes | draft|v2").unwrap();
    assert_eq!(info.window_title, "notes ");
    assert_eq!(info.application_name, "Editor");
}

#[test]
fn window_answer_with_too_few_fields_is_refused() {
    for bad in ["", "   ", "Safari", "Safari|com.apple.Safari", "\n|\n"] {
        assert_eq!(
            parse_window_info(bad).err(),
            Some("Invalid AppleScript output format".to_string()),
            "{:?}",
            bad
        );
    }
}

#[test]
fn failed_script_is_an_error_with_its_message() {
    assert_eq!(
        window_info_from_script(false, "Safari|com.apple.Safari|x", "not allowed").err(),
        Some("AppleScript failed: not allowed".to_string())
    );
    let info = window_info_from_script(true, "Safari|com.apple.Safari|x", "warning").unwrap();
    assert_eq!(info.window_title, "x");
    assert_eq!(
        window_info_from_script(true, "Safari", "").err(),
        Some("Invalid AppleScript output format".to_string())
    );
}

#[test]
fn split_agrees_with_trim_and_split_of_std() {
    for line in [
        "", " ", "|", "||", "a", "a|b", "a|b|c", "|a|", " a | b ", "\t\n a|b|c|d \r\n", "a||b",
        "\u{a0}x|y\u{3000}", "\u{2003}|\u{2003}", "é|ü|ß", "x\u{200b}|y", "  |  ",
    ] {
        let expected: Vec<String> = line.trim().split('|').map(str::to_string).collect();
        assert_eq!(trim_and_split(line, '|'), expected, "{:?}", line);
    }
    assert_eq!(trim_and_split(" a,b ,c ", ','), vec!["a", "b ", "c"]);
}

#[test]
fn white_space_is_what_std_calls_white_space() {
    let mut c = 0u32;
    while c <= 0x10FFFF {
        if let Some(ch) = char::from_u32(c) {
            assert_eq!(is_space_char(ch), ch.is_whitespace(), "U+{:04X}", c);
        }
        c += 1;
    }
}

#[test]
fn chars_are_listed_in_order() {
    assert_eq!(chars_of("aé|"), vec!['a', 'é', '|']);
    assert_eq!(chars_of(""), Vec::<char>::new());
}
