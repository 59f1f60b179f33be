use todo_service::json::{
    render_error_json, render_reply_body, render_todo_json, render_todo_list_json,
};
use todo_service::models::Todo;
use todo_service::response::{ErrorResponseModel, HttpReply, ResponseBody};
use todo_service::text::dec_string_i32;

fn todo(id: i32, title: &str) -> Todo {
    Todo { id, title: String::from(title) }
}

#[test]
fn todo_object_is_rendered_exactly() {
    let s = render_todo_json(&todo(1, "Buy milk"));
    assert_eq!(s, "{\"id\":1,\"title\":\"Buy milk\"}");
}

#[test]
fn negative_id_is_rendered_with_sign() {
    let s = render_todo_json(&todo(-5, "x"));
    assert_eq!(s, "{\"id\":-5,\"title\":\"x\"}");
}

#[test]
fn list_of_two_is_comma_separated() {
    let rows = vec![todo(1, "a"), todo(2, "b")];
    let s = render_todo_list_json(&rows);
    assert_eq!(s, "[{\"id\":1,\"title\":\"a\"},{\"id\":2,\"title\":\"b\"}]");
}

#[test]
fn empty_list_is_bare_brackets() {
    let rows: Vec<Todo> = Vec::new();
    assert_eq!(render_todo_list_json(&rows), "[]");
}

#[test]
fn quote_and_backslash_are_escaped() {
    let s = render_todo_json(&todo(1, "a\"b\\c"));
    assert_eq!(s, "{\"id\":1,\"title\":\"a\\\"b\\\\c\"}");
}

#[test]
fn named_control_characters_use_short_escapes() {
    let s = render_todo_json(&todo(1, "l1\nl2\tend\r"));
    assert_eq!(s, "{\"id\":1,\"title\":\"l1\\nl2\\tend\\r\"}");
}

#[test]
fn other_control_characters_use_four_digit_escapes() {
    let s = render_todo_json(&todo(1, "\u{1}\u{1f}"));
    assert_eq!(s, "{\"id\":1,\"title\":\"\\u0001\\u001f\"}");
}

#[test]
fn non_ascii_titles_pass_through_unescaped() {
    let s = render_todo_json(&todo(1, "héllo"));
    assert_eq!(s, "{\"id\":1,\"title\":\"héllo\"}");
}

#[test]
fn error_body_is_rendered_exactly() {
    let e = ErrorResponseModel { code: 404, message: String::from("Not Found") };
    assert_eq!(render_error_json(&e), "{\"code\":404,\"message\":\"Not Found\"}");
}

#[test]
fn reply_bodies_render_by_kind() {
    let r = HttpReply { status: 204, body: ResponseBody::Empty };
    assert_eq!(render_reply_body(&r), "");
    let r = HttpReply { status: 200, body: ResponseBody::TodoItem(todo(3, "t")) };
    assert_eq!(render_reply_body(&r), "{\"id\":3,\"title\":\"t\"}");
    let r = HttpReply {
        status: 400,
        body: ResponseBody::ErrorInfo(ErrorResponseModel {
            code: 400,
            message: String::from("m"),
        }),
    };
    assert_eq!(render_reply_body(&r), "{\"code\":400,\"message\":\"m\"}");
    let r = HttpReply { status: 200, body: ResponseBody::TodoList(vec![todo(1, "a")]) };
    assert_eq!(render_reply_body(&r), "[{\"id\":1,\"title\":\"a\"}]");
}

#[test]
fn decimal_rendering_covers_the_i32_range() {
    assert_eq!(dec_string_i32(0), "0");
    assert_eq!(dec_string_i32(10), "10");
    assert_eq!(dec_string_i32(-1), "-1");
    assert_eq!(dec_string_i32(2147483647), "2147483647");
    assert_eq!(dec_string_i32(-2147483648), "-2147483648");
}
