use typeql::SyntaxError;

#[test]
fn detailed_error_exact_text() {
    let e = SyntaxError {
        query_line: Some(String::from("match $")),
        line: 1,
        char_position_in_line: 6,
        message: String::from("blah"),
    };
    assert_eq!(
        e.to_string(),
        "There is a syntax error at line 1:\nmatch $\n      ^\nblah"
    );
}

#[test]
fn detailed_error_pointer_alignment() {
    let e = SyntaxError {
        query_line: Some(String::from("match $")),
        line: 1,
        char_position_in_line: 6,
        message: String::from("blah"),
    };
    let text = e.to_string();
    let lines: Vec<&str> = text.split('\n').collect();
    assert_eq!(lines.len(), 4);
    assert!(lines[0].contains("1"));
    assert_eq!(lines[1], "match $");
    assert_eq!(lines[2], "      ^");
    assert_eq!(lines[3], "blah");
}

#[test]
fn brief_error_no_caret() {
    let e = SyntaxError {
        query_line: None,
        line: 3,
        char_position_in_line: 0,
        message: String::from("unexpected end of input"),
    };
    let text = e.to_string();
    assert!(text.contains("3"));
    assert!(text.contains("unexpected end of input"));
    assert!(!text.contains('^'));
    assert_eq!(text, "There is a syntax error at line 3:\nunexpected end of input");
}

#[test]
fn multi_digit_line_number() {
    let e = SyntaxError {
        query_line: None,
        line: 4102,
        char_position_in_line: 0,
        message: String::from("m"),
    };
    assert_eq!(e.to_string(), "There is a syntax error at line 4102:\nm");
}

#[test]
fn pointer_past_line_end_tolerated() {
    // The column may exceed the captured line's length; the caret then simply
    // lands past the line's visible end.
    let e = SyntaxError {
        query_line: Some(String::from("ab")),
        line: 2,
        char_position_in_line: 5,
        message: String::from("oops"),
    };
    assert_eq!(
        e.to_string(),
        "There is a syntax error at line 2:\nab\n     ^\noops"
    );
}
