use tg_assistant::text::{chars_of, contains_str, decimal_string, escape_angle_brackets};

#[test]
fn decimal_matches_std_rendering() {
    let values: Vec<i64> = vec![
        0, 1, -1, 9, 10, -10, 42, -120, 99999, 1234567890, -987654321, i64::MAX, i64::MIN, i64::MIN + 1,
    ];
    for v in values {
        assert_eq!(decimal_string(v), v.to_string());
    }
}

#[test]
fn decimal_of_negative_number_has_minus_sign() {
    assert_eq!(decimal_string(-5), "-5");
    assert_eq!(decimal_string(i64::MIN), "-9223372036854775808");
}

#[test]
fn escaping_matches_two_replacements() {
    let samples = ["", "plain", "<b>bold</b>", "a < b > c", "<<>>", "&lt; stays", "юникод <тег>"];
    for s in samples {
        let expected = s.replace('<', "&lt;").replace('>', "&gt;");
        assert_eq!(escape_angle_brackets(s), expected);
    }
}

#[test]
fn escaped_text_has_no_angle_brackets() {
    let out = escape_angle_brackets("<script>alert('x')</script>");
    assert!(!out.contains('<') && !out.contains('>'));
    assert_eq!(out, "&lt;script&gt;alert('x')&lt;/script&gt;");
}

#[test]
fn substring_search_matches_std() {
    let cases = [
        ("hello @bot", "@bot", true),
        ("@bot", "@bot", true),
        ("hello @bo", "@bot", false),
        ("", "@bot", false),
        ("anything", "", true),
        ("привет @бот!", "@бот", true),
        ("aaab", "aab", true),
        ("abab", "bb", false),
    ];
    for (text, pat, expected) in cases {
        assert_eq!(contains_str(text, pat), expected);
        assert_eq!(text.contains(pat), expected);
    }
}

#[test]
fn chars_of_splits_into_characters() {
    assert_eq!(chars_of("aб<"), vec!['a', 'б', '<']);
    assert_eq!(chars_of(""), Vec::<char>::new());
}
