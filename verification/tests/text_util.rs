use qe::serialize_util::push_bool_field;
use qe::text;

#[test]
fn absent_flag_appends_nothing() {
    let mut lines: Vec<String> = vec![String::from(" &control")];
    push_bool_field(&mut lines, "flag", None);
    assert_eq!(lines, vec![String::from(" &control")]);
    let mut empty: Vec<String> = Vec::new();
    push_bool_field(&mut empty, "flag", None);
    assert!(empty.is_empty());
}

#[test]
fn present_flag_appends_one_line() {
    let mut lines: Vec<String> = Vec::new();
    push_bool_field(&mut lines, "flag", Some(true));
    assert_eq!(lines, vec![String::from("    flag=.true.,")]);
    push_bool_field(&mut lines, "other", Some(false));
    assert_eq!(lines, vec![String::from("    flag=.true.,"), String::from("    other=.false.,")]);
}

#[test]
fn decimal_numerals() {
    assert_eq!(text::decimal_string(0), "0");
    assert_eq!(text::decimal_string(7), "7");
    assert_eq!(text::decimal_string(10), "10");
    assert_eq!(text::decimal_string(109), "109");
    assert_eq!(text::decimal_string(12345678901234567890), "12345678901234567890");
    assert_eq!(text::decimal_string(u64::MAX), u64::MAX.to_string());
    assert_eq!(text::count_string(1024), "1024");
    for d in 0..10 {
        assert_eq!(text::decimal_string(d), d.to_string());
        assert_eq!(text::decimal_string(90 + d), (90 + d).to_string());
    }
}

#[test]
fn joining_lines() {
    assert_eq!(text::join_lines(&vec![], "\n"), "");
    assert_eq!(text::join_lines(&vec![String::from("a")], "\n"), "a");
    assert_eq!(
        text::join_lines(&vec![String::from("a"), String::new(), String::from("c")], "\n"),
        "a\n\nc"
    );
    assert_eq!(text::join_lines(&vec![String::from("x"), String::from("y")], ", "), "x, y");
}

#[test]
fn small_text_builders() {
    assert_eq!(text::wrap("<", "body", ">"), "<body>");
    assert_eq!(text::prefixed(" ", "x"), " x");
    assert_eq!(text::spaced3_string("a", "b", "c"), "a b c");
    assert_eq!(text::spaced4_string("a", "b", "c", "d"), "a b c d");
    assert_eq!(text::first_line("top"), vec![String::from("top")]);
    let mut lines = text::first_line("top");
    text::push_line(&mut lines, String::from("next"));
    assert_eq!(lines, vec![String::from("top"), String::from("next")]);
}
