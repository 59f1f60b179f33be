use todo_service::router::{parse_i32_segment, route, Method, Route};

#[test]
fn collection_routes_by_method() {
    assert_eq!(route(Method::Get, "/todos"), Route::ListTodos);
    assert_eq!(route(Method::Post, "/todos"), Route::CreateTodo);
    assert_eq!(route(Method::Put, "/todos"), Route::NoRoute);
    assert_eq!(route(Method::Delete, "/todos"), Route::NoRoute);
}

#[test]
fn detail_routes_by_method() {
    assert_eq!(route(Method::Get, "/todos/42"), Route::GetTodo(42));
    assert_eq!(route(Method::Put, "/todos/42"), Route::UpdateTodo(42));
    assert_eq!(route(Method::Delete, "/todos/42"), Route::RemoveTodo(42));
    assert_eq!(route(Method::Post, "/todos/42"), Route::NoRoute);
}

#[test]
fn malformed_paths_match_nothing() {
    assert_eq!(route(Method::Get, ""), Route::NoRoute);
    assert_eq!(route(Method::Get, "/"), Route::NoRoute);
    assert_eq!(route(Method::Get, "/todo"), Route::NoRoute);
    assert_eq!(route(Method::Get, "/todosX"), Route::NoRoute);
    assert_eq!(route(Method::Get, "/todos/"), Route::NoRoute);
    assert_eq!(route(Method::Get, "/todos/abc"), Route::NoRoute);
    assert_eq!(route(Method::Get, "/todos/1/2"), Route::NoRoute);
    assert_eq!(route(Method::Get, "/other/1"), Route::NoRoute);
}

#[test]
fn signed_and_zero_padded_ids_parse() {
    assert_eq!(route(Method::Get, "/todos/+7"), Route::GetTodo(7));
    assert_eq!(route(Method::Get, "/todos/-5"), Route::GetTodo(-5));
    assert_eq!(route(Method::Get, "/todos/007"), Route::GetTodo(7));
    assert_eq!(route(Method::Get, "/todos/+"), Route::NoRoute);
    assert_eq!(route(Method::Get, "/todos/-"), Route::NoRoute);
}

#[test]
fn ids_at_the_i32_boundary() {
    assert_eq!(route(Method::Get, "/todos/2147483647"), Route::GetTodo(2147483647));
    assert_eq!(route(Method::Get, "/todos/2147483648"), Route::NoRoute);
    assert_eq!(route(Method::Get, "/todos/-2147483648"), Route::GetTodo(-2147483648));
    assert_eq!(route(Method::Get, "/todos/-2147483649"), Route::NoRoute);
    assert_eq!(route(Method::Get, "/todos/99999999999999999999"), Route::NoRoute);
}

#[test]
fn segment_parser_reads_decimal_numerals() {
    assert_eq!(parse_i32_segment("42", 0, 2), Some(42));
    assert_eq!(parse_i32_segment("x42y", 1, 3), Some(42));
    assert_eq!(parse_i32_segment("", 0, 0), None);
    assert_eq!(parse_i32_segment("4x2", 0, 3), None);
    assert_eq!(parse_i32_segment("-0", 0, 2), Some(0));
}
