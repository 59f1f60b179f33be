//! The shape of an HTTP response as the handlers produce it: a status
//! code and one of the four body forms the service ever sends.

use vstd::prelude::*;
use crate::models::Todo;

verus! {

/// The JSON body of every error response: a code mirroring the HTTP
/// status, and a message.
#[derive(Debug)]
pub struct ErrorResponseModel {
    pub code: i32,
    pub message: String,
}

/// What a response body can hold.
#[derive(Debug)]
pub enum ResponseBody {
    /// A single todo, as a JSON object.
    TodoItem(Todo),
    /// The whole collection, as a JSON array.
    TodoList(Vec<Todo>),
    /// An error body with its code and message.
    ErrorInfo(ErrorResponseModel),
    /// No body at all.
    Empty,
}

/// A response: the status code and the body.
#[derive(Debug)]
pub struct HttpReply {
    pub status: u16,
    pub body: ResponseBody,
}

/// An error reply whose status, body code and body message are exactly
/// the given ones; the body code always mirrors the status.
pub open spec fn is_error_reply(r: HttpReply, code: int, msg: Seq<char>) -> bool {
    &&& r.status as int == code
    &&& r.body matches ResponseBody::ErrorInfo(e) && e.code as int == code && e.message@ == msg
}

} // verus!
