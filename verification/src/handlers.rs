//! The request handlers: each takes the parsed request data and the
//! store, validates the input shape before any write, invokes the data
//! layer, and produces the exact status code and body the service
//! answers with. `handle_request` ties the route table, the body
//! parser and the handlers into one verified request step.

use vstd::prelude::*;
use vstd::string::StringExecFns;
use crate::errors::{ServiceError, internal_error_message};
use crate::models::{Todo, TodoForm, valid_title};
use crate::parser::{parse_todo_form, spec_parse_todo_form};
use crate::response::{HttpReply, ResponseBody, is_error_reply};
use crate::router::{Method, Route, spec_route, route};
use crate::store::{
    TodoStore, duplicate_title_message, has_id, has_title, idx_of, remove_not_found_message,
    title_conflict, update_not_found_message,
};

verus! {

/// The path parameter of the detail routes.
#[derive(Debug)]
pub struct TodoDetailPath {
    pub todo_id: i32,
}

/// The message answering a create or update whose title is empty.
pub open spec fn empty_title_message() -> Seq<char> {
    "title must not be empty"@
}

/// The message answering a lookup of an id that addresses nothing.
pub open spec fn get_not_found_message() -> Seq<char> {
    "Todo Not Found"@
}

/// The message answering a create or update whose body falls outside
/// the accepted JSON shape.
pub open spec fn invalid_body_message() -> Seq<char> {
    "invalid JSON body"@
}

/// What the collection read answers: the whole table under 200.
pub open spec fn list_outcome(store: TodoStore, r: HttpReply) -> bool {
    &&& r.status == 200
    &&& r.body matches ResponseBody::TodoList(v) && v@ == store.todos()
}

/// What the single read answers: the addressed row under 200, or 404
/// when the id addresses nothing.
pub open spec fn get_outcome(store: TodoStore, id: i32, r: HttpReply) -> bool {
    &&& has_id(store.todos(), id) ==> r.status == 200 && (r.body matches ResponseBody::TodoItem(t)
        && t.id == id && t == store.todos()[idx_of(store.todos(), id)])
    &&& !has_id(store.todos(), id) ==> is_error_reply(r, 404, get_not_found_message())
}

/// What a create answers and does, for the given input title: an
/// empty title is 400 before any write; a duplicate title is 400 with
/// no write; an exhausted id space is 500 with no write; otherwise the
/// row is appended under the next id and answered under 201 with the
/// input title.
pub open spec fn create_outcome(
    pre: TodoStore,
    post: TodoStore,
    title: Seq<char>,
    r: HttpReply,
) -> bool {
    &&& !valid_title(title) ==> post == pre && is_error_reply(r, 400, empty_title_message())
    &&& valid_title(title) && has_title(pre.todos(), title) ==> post == pre && is_error_reply(
        r,
        400,
        duplicate_title_message(),
    )
    &&& valid_title(title) && !has_title(pre.todos(), title) && pre.next() == i32::MAX ==> post
        == pre && is_error_reply(r, 500, internal_error_message())
    &&& valid_title(title) && !has_title(pre.todos(), title) && pre.next() < i32::MAX ==> r.status
        == 201 && (r.body matches ResponseBody::TodoItem(t) && t.id as int == pre.next()
        && t.title@ == title && post.todos() == pre.todos().push(t) && post.next() == pre.next()
        + 1)
}

/// What an update answers and does, for the given id and input title:
/// an empty title is 400 before any write; a missing id is 404 (the
/// message names it) with no write; a title held by a different row is
/// 500 with no write; otherwise only the addressed row changes, to the
/// input title under its old id, answered under 200.
pub open spec fn update_outcome(
    pre: TodoStore,
    post: TodoStore,
    id: i32,
    title: Seq<char>,
    r: HttpReply,
) -> bool {
    &&& !valid_title(title) ==> post == pre && is_error_reply(r, 400, empty_title_message())
    &&& valid_title(title) && !has_id(pre.todos(), id) ==> post == pre && is_error_reply(
        r,
        404,
        update_not_found_message(id as int),
    )
    &&& valid_title(title) && has_id(pre.todos(), id) && title_conflict(pre.todos(), id, title)
        ==> post == pre && is_error_reply(r, 500, internal_error_message())
    &&& valid_title(title) && has_id(pre.todos(), id) && !title_conflict(pre.todos(), id, title)
        ==> r.status == 200 && (r.body matches ResponseBody::TodoItem(t) && t.id == id && t.title@
        == title && post.todos() == pre.todos().update(idx_of(pre.todos(), id), t) && (forall|
        j: int,
    |
        0 <= j < pre.todos().len() && j != idx_of(pre.todos(), id) ==> post.todos()[j]
            == pre.todos()[j])) && post.next() == pre.next()
}

/// What a delete answers and does: 204 with no body once the row is
/// gone (after which the id addresses nothing), 404 with no write when
/// it addressed nothing to begin with.
pub open spec fn remove_outcome(pre: TodoStore, post: TodoStore, id: i32, r: HttpReply) -> bool {
    &&& has_id(pre.todos(), id) ==> r.status == 204 && r.body is Empty && post.todos()
        == pre.todos().remove(idx_of(pre.todos(), id)) && !has_id(post.todos(), id) && post.next()
        == pre.next()
    &&& !has_id(pre.todos(), id) ==> post == pre && is_error_reply(
        r,
        404,
        remove_not_found_message(),
    )
}

/// Answers the collection read.
pub fn get_todos(store: &TodoStore) -> (r: HttpReply)
    ensures
        list_outcome(*store, r),
{
    HttpReply { status: 200, body: ResponseBody::TodoList(store.select_all()) }
}

/// Answers the single read.
pub fn get_todo(path: TodoDetailPath, store: &TodoStore) -> (r: HttpReply)
    requires
        store.wf(),
    ensures
        get_outcome(*store, path.todo_id, r),
{
    match store.find(path.todo_id) {
        Some(t) => HttpReply { status: 200, body: ResponseBody::TodoItem(t) },
        None => ServiceError::NotFound(String::from_str("Todo Not Found")).error_response(),
    }
}

/// Answers the create.
pub fn create_todo(new_todo: TodoForm, store: &mut TodoStore) -> (r: HttpReply)
    requires
        old(store).wf(),
    ensures
        final(store).wf(),
        create_outcome(*old(store), *final(store), new_todo.title@, r),
{
    if !new_todo.is_valid() {
        return ServiceError::BadRequest(String::from_str("title must not be empty"))
            .error_response();
    }
    match store.create_todo(new_todo) {
        Ok(t) => HttpReply { status: 201, body: ResponseBody::TodoItem(t) },
        Err(e) => e.error_response(),
    }
}

/// Answers the update.
pub fn update_todo(path: TodoDetailPath, todo: TodoForm, store: &mut TodoStore) -> (r: HttpReply)
    requires
        old(store).wf(),
    ensures
        final(store).wf(),
        update_outcome(*old(store), *final(store), path.todo_id, todo.title@, r),
{
    if !todo.is_valid() {
        return ServiceError::BadRequest(String::from_str("title must not be empty"))
            .error_response();
    }
    match store.update_todo(path.todo_id, todo) {
        Ok(t) => HttpReply { status: 200, body: ResponseBody::TodoItem(t) },
        Err(e) => e.error_response(),
    }
}

/// Answers the delete.
pub fn remove_todo(path: TodoDetailPath, store: &mut TodoStore) -> (r: HttpReply)
    requires
        old(store).wf(),
    ensures
        final(store).wf(),
        remove_outcome(*old(store), *final(store), path.todo_id, r),
{
    match store.remove_todo(path.todo_id) {
        Ok(_) => HttpReply { status: 204, body: ResponseBody::Empty },
        Err(e) => e.error_response(),
    }
}

/// One whole request step: the method and path decide the route, the
/// body is parsed where one is owed, and the matching handler answers.
/// A path that matches nothing is a bare 404; a body outside the
/// accepted JSON shape is 400 before any write.
pub fn handle_request(m: Method, path: &str, body: &str, store: &mut TodoStore) -> (r: HttpReply)
    requires
        old(store).wf(),
    ensures
        final(store).wf(),
        match spec_route(m, path@) {
            Route::ListTodos => *final(store) == *old(store) && list_outcome(*old(store), r),
            Route::GetTodo(id) => *final(store) == *old(store) && get_outcome(*old(store), id, r),
            Route::CreateTodo => (spec_parse_todo_form(body@) matches Some(title)
                ==> create_outcome(*old(store), *final(store), title, r)) && (spec_parse_todo_form(
                body@,
            ) is None ==> *final(store) == *old(store) && is_error_reply(
                r,
                400,
                invalid_body_message(),
            )),
            Route::UpdateTodo(id) => (spec_parse_todo_form(body@) matches Some(title)
                ==> update_outcome(*old(store), *final(store), id, title, r)) && (
            spec_parse_todo_form(body@) is None ==> *final(store) == *old(store) && is_error_reply(
                r,
                400,
                invalid_body_message(),
            )),
            Route::RemoveTodo(id) => remove_outcome(*old(store), *final(store), id, r),
            Route::NoRoute => *final(store) == *old(store) && r.status == 404 && r.body is Empty,
        },
{
    match route(m, path) {
        Route::ListTodos => get_todos(store),
        Route::GetTodo(id) => get_todo(TodoDetailPath { todo_id: id }, store),
        Route::CreateTodo => {
            match parse_todo_form(body) {
                Some(form) => create_todo(form, store),
                None => ServiceError::BadRequest(
                    String::from_str("invalid JSON body"),
                ).error_response(),
            }
        },
        Route::UpdateTodo(id) => {
            match parse_todo_form(body) {
                Some(form) => update_todo(TodoDetailPath { todo_id: id }, form, store),
                None => ServiceError::BadRequest(
                    String::from_str("invalid JSON body"),
                ).error_response(),
            }
        },
        Route::RemoveTodo(id) => remove_todo(TodoDetailPath { todo_id: id }, store),
        Route::NoRoute => HttpReply { status: 404, body: ResponseBody::Empty },
    }
}

/// A row just created is found by its id: in a table that did not
/// carry the id, the appended row is exactly what a lookup of that id
/// sees.
pub proof fn lemma_get_after_create(rows: Seq<Todo>, t: Todo)
    requires
        !has_id(rows, t.id),
    ensures
        has_id(rows.push(t), t.id),
        idx_of(rows.push(t), t.id) == rows.len(),
        rows.push(t)[idx_of(rows.push(t), t.id)] == t,
{
    let rows1 = rows.push(t);
    assert(rows1[rows.len() as int] == t);
    assert(has_id(rows1, t.id));
    let j = idx_of(rows1, t.id);
    assert(0 <= j < rows1.len() && rows1[j].id == t.id);
    if j != rows.len() {
        assert(rows[j] == rows1[j]);
        assert(has_id(rows, t.id));
    }
}

/// A freshly appended row makes its title present: the next create
/// carrying the same title meets the uniqueness constraint.
pub proof fn lemma_create_then_duplicate(rows: Seq<Todo>, t: Todo)
    ensures
        has_title(rows.push(t), t.title@),
{
    let rows1 = rows.push(t);
    assert(rows1[rows.len() as int].title@ == t.title@);
}

} // verus!
