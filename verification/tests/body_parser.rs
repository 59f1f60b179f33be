use todo_service::parser::parse_todo_form;

fn parsed_title(body: &str) -> Option<String> {
    parse_todo_form(body).map(|f| f.title)
}

#[test]
fn plain_body_parses() {
    assert_eq!(parsed_title("{\"title\":\"hello\"}"), Some(String::from("hello")));
}

#[test]
fn whitespace_around_tokens_is_accepted() {
    assert_eq!(
        parsed_title("  {\n\t\"title\" :\r \"hello\"  }  "),
        Some(String::from("hello"))
    );
}

#[test]
fn empty_title_string_parses_to_empty() {
    assert_eq!(parsed_title("{\"title\":\"\"}"), Some(String::from("")));
}

#[test]
fn short_escapes_are_decoded() {
    assert_eq!(
        parsed_title("{\"title\":\"a\\\"b\\\\c\\/d\\ne\\tf\\rg\\bh\\fi\"}"),
        Some(String::from("a\"b\\c/d\ne\tf\rg\u{8}h\u{c}i"))
    );
}

#[test]
fn non_ascii_titles_parse() {
    assert_eq!(parsed_title("{\"title\":\"héllo wörld\"}"), Some(String::from("héllo wörld")));
}

#[test]
fn missing_or_wrong_member_is_rejected() {
    assert_eq!(parsed_title("{}"), None);
    assert_eq!(parsed_title("{\"name\":\"x\"}"), None);
    assert_eq!(parsed_title("{\"title\":42}"), None);
}

#[test]
fn extra_members_are_rejected() {
    assert_eq!(parsed_title("{\"title\":\"x\",\"done\":true}"), None);
}

#[test]
fn unterminated_bodies_are_rejected() {
    assert_eq!(parsed_title(""), None);
    assert_eq!(parsed_title("{"), None);
    assert_eq!(parsed_title("{\"title\":"), None);
    assert_eq!(parsed_title("{\"title\":\"x"), None);
    assert_eq!(parsed_title("{\"title\":\"x\""), None);
}

#[test]
fn trailing_garbage_is_rejected() {
    assert_eq!(parsed_title("{\"title\":\"x\"} extra"), None);
}

#[test]
fn four_digit_escapes_are_outside_the_grammar() {
    assert_eq!(parsed_title("{\"title\":\"a\\u0041\"}"), None);
}

#[test]
fn raw_control_characters_are_rejected() {
    assert_eq!(parsed_title("{\"title\":\"a\nb\"}"), None);
}
