use mp::text::{char_is_whitespace, chars_of, is_affirmative, is_blank, trim};

#[test]
fn whitespace_is_what_the_standard_library_calls_whitespace() {
    for code in 0..=0x10FFFFu32 {
        if let Some(c) = char::from_u32(code) {
            assert_eq!(char_is_whitespace(c), c.is_whitespace(), "U+{:04X}", code);
        }
    }
}

#[test]
fn trim_is_the_standard_trim() {
    let texts = [
        "",
        " ",
        "a",
        "  a",
        "a  ",
        " a b ",
        "\t\n x \r\n",
        "\u{00A0}x\u{2003}",
        "\u{3000}\u{1680}",
        "  múltiples   palabras  ",
        "\u{200B} zero width space is no whitespace \u{200B}",
        "\n\n\n",
    ];
    for text in texts {
        assert_eq!(trim(text), text.trim(), "text {:?}", text);
        assert_eq!(is_blank(text), text.trim().is_empty(), "text {:?}", text);
    }
}

#[test]
fn chars_are_the_characters() {
    assert_eq!(chars_of(""), Vec::<char>::new());
    assert_eq!(chars_of("aé✈\n"), vec!['a', 'é', '✈', '\n']);
}

#[test]
fn yes_is_the_letter_y() {
    for answer in ["y", "Y", " y", "y ", "\ty\n", " Y \r\n"] {
        assert!(is_affirmative(answer), "answer {:?}", answer);
    }
    for answer in ["", " ", "n", "N", "yes", "Yes", "yy", "y y", "ý", "1", "true", "\u{FF59}"] {
        assert!(!is_affirmative(answer), "answer {:?}", answer);
    }
}
