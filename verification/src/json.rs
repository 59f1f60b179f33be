//! JSON rendering of every body the service sends, specified to the
//! character: todo objects, the collection array, and error bodies,
//! with string escaping as JSON requires it.

use vstd::prelude::*;
use vstd::string::StringExecFns;
use crate::models::Todo;
use crate::response::{ErrorResponseModel, HttpReply, ResponseBody};
use crate::text::{append_dec_i32, dec_of_int};

verus! {

/// The lower-case hexadecimal digit character for a value between 0
/// and 15.
pub open spec fn hex_digit_char(d: int) -> char {
    if d < 10 {
        crate::text::dec_digit_char(d)
    } else if d == 10 {
        'a'
    } else if d == 11 {
        'b'
    } else if d == 12 {
        'c'
    } else if d == 13 {
        'd'
    } else if d == 14 {
        'e'
    } else {
        'f'
    }
}

/// A character that cannot stand bare inside a JSON string: the quote,
/// the backslash, and the control characters.
pub open spec fn needs_json_escape(c: char) -> bool {
    c == '"' || c == '\\' || (c as u32) < 0x20
}

/// How one character is written inside a JSON string: quote and
/// backslash are backslash-escaped, the named control characters use
/// their short escapes, the remaining control characters their
/// four-digit form, and everything else stands bare.
pub open spec fn json_escaped_char(c: char) -> Seq<char> {
    if c == '"' {
        "\\\""@
    } else if c == '\\' {
        "\\\\"@
    } else if c == '\u{8}' {
        "\\b"@
    } else if c == '\u{c}' {
        "\\f"@
    } else if c == '\n' {
        "\\n"@
    } else if c == '\r' {
        "\\r"@
    } else if c == '\t' {
        "\\t"@
    } else if (c as u32) < 0x20 {
        "\\u00"@ + seq![
            hex_digit_char((c as u32 / 16) as int),
            hex_digit_char((c as u32 % 16) as int),
        ]
    } else {
        seq![c]
    }
}

/// A character sequence written inside a JSON string, character by
/// character.
pub open spec fn json_escaped(s: Seq<char>) -> Seq<char>
    decreases s.len(),
{
    if s.len() == 0 {
        Seq::empty()
    } else {
        json_escaped(s.drop_last()) + json_escaped_char(s.last())
    }
}

/// A JSON string: the escaped characters between quotes.
pub open spec fn json_string(s: Seq<char>) -> Seq<char> {
    "\""@ + json_escaped(s) + "\""@
}

/// The JSON object for a todo: id first, then title.
pub open spec fn json_todo(id: int, title: Seq<char>) -> Seq<char> {
    "{\"id\":"@ + dec_of_int(id) + ",\"title\":"@ + json_string(title) + "}"@
}

/// The comma-separated objects of a todo array.
pub open spec fn json_todo_items(rows: Seq<Todo>) -> Seq<char>
    decreases rows.len(),
{
    if rows.len() == 0 {
        Seq::empty()
    } else if rows.len() == 1 {
        json_todo(rows[0].id as int, rows[0].title@)
    } else {
        json_todo_items(rows.drop_last()) + ","@ + json_todo(
            rows.last().id as int,
            rows.last().title@,
        )
    }
}

/// The JSON array of a todo collection, in the rows' order.
pub open spec fn json_todo_list(rows: Seq<Todo>) -> Seq<char> {
    "["@ + json_todo_items(rows) + "]"@
}

/// The JSON object of an error body: code first, then message.
pub open spec fn json_error(code: int, message: Seq<char>) -> Seq<char> {
    "{\"code\":"@ + dec_of_int(code) + ",\"message\":"@ + json_string(message) + "}"@
}

/// The one-character string for a hexadecimal digit value.
fn hex_digit_str(d: u32) -> (s: &'static str)
    requires
        d < 16,
    ensures
        s@ =~= seq![hex_digit_char(d as int)],
{
    if d < 10 {
        crate::text::dec_digit_str(d)
    } else if d == 10 {
        proof { reveal_strlit("a"); }
        "a"
    } else if d == 11 {
        proof { reveal_strlit("b"); }
        "b"
    } else if d == 12 {
        proof { reveal_strlit("c"); }
        "c"
    } else if d == 13 {
        proof { reveal_strlit("d"); }
        "d"
    } else if d == 14 {
        proof { reveal_strlit("e"); }
        "e"
    } else {
        proof { reveal_strlit("f"); }
        "f"
    }
}

/// Appends the escape sequence of a character that cannot stand bare.
fn append_escaped_char(c: char, out: &mut String)
    requires
        needs_json_escape(c),
    ensures
        final(out)@ == old(out)@ + json_escaped_char(c),
{
    if c == '"' {
        out.append("\\\"");
    } else if c == '\\' {
        out.append("\\\\");
    } else if c == '\u{8}' {
        out.append("\\b");
    } else if c == '\u{c}' {
        out.append("\\f");
    } else if c == '\n' {
        out.append("\\n");
    } else if c == '\r' {
        out.append("\\r");
    } else if c == '\t' {
        out.append("\\t");
    } else {
        out.append("\\u00");
        let v = c as u32;
        out.append(hex_digit_str(v / 16));
        out.append(hex_digit_str(v % 16));
        proof {
            assert(out@ =~= old(out)@ + json_escaped_char(c));
        }
    }
}

/// Appends the JSON string form of `s`, quotes and escapes included.
pub fn append_json_string(s: &str, out: &mut String)
    ensures
        final(out)@ == old(out)@ + json_string(s@),
{
    let n = s.unicode_len();
    out.append("\"");
    let mut j: usize = 0;
    while j < n
        invariant
            n == s@.len(),
            j <= n,
            out@ == old(out)@ + "\""@ + json_escaped(s@.take(j as int)),
        decreases n - j,
    {
        let c = s.get_char(j);
        proof {
            let pref = s@.take(j as int + 1);
            assert(pref.drop_last() =~= s@.take(j as int));
            assert(pref.last() == c);
        }
        if c == '"' || c == '\\' || (c as u32) < 0x20 {
            append_escaped_char(c, out);
        } else {
            let piece = s.substring_char(j, j + 1);
            out.append(piece);
            proof {
                assert(piece@ =~= seq![c]);
                assert(json_escaped_char(c) == seq![c]);
            }
        }
        j += 1;
    }
    out.append("\"");
    proof {
        assert(s@.take(n as int) =~= s@);
        assert(out@ =~= old(out)@ + json_string(s@));
    }
}

/// Appends the JSON object of one todo.
pub fn append_json_todo(t: &Todo, out: &mut String)
    ensures
        final(out)@ == old(out)@ + json_todo(t.id as int, t.title@),
{
    out.append("{\"id\":");
    append_dec_i32(t.id, out);
    out.append(",\"title\":");
    append_json_string(t.title.as_str(), out);
    out.append("}");
    proof {
        assert(out@ =~= old(out)@ + json_todo(t.id as int, t.title@));
    }
}

/// The JSON object of one todo.
pub fn render_todo_json(t: &Todo) -> (s: String)
    ensures
        s@ == json_todo(t.id as int, t.title@),
{
    let mut out = String::new();
    append_json_todo(t, &mut out);
    proof {
        assert(out@ =~= json_todo(t.id as int, t.title@));
    }
    out
}

/// The JSON array of the whole collection, in order.
pub fn render_todo_list_json(rows: &Vec<Todo>) -> (s: String)
    ensures
        s@ == json_todo_list(rows@),
{
    let mut out = String::new();
    out.append("[");
    let n = rows.len();
    let mut j: usize = 0;
    while j < n
        invariant
            n == rows@.len(),
            j <= n,
            out@ == "["@ + json_todo_items(rows@.take(j as int)),
        decreases n - j,
    {
        if j > 0 {
            out.append(",");
        }
        append_json_todo(&rows[j], &mut out);
        proof {
            let pref = rows@.take(j as int + 1);
            assert(pref.drop_last() =~= rows@.take(j as int));
            assert(pref.last() == rows@[j as int]);
            assert(out@ =~= "["@ + json_todo_items(pref));
        }
        j += 1;
    }
    out.append("]");
    proof {
        assert(rows@.take(n as int) =~= rows@);
        assert(out@ =~= json_todo_list(rows@));
    }
    out
}

/// The JSON object of an error body.
pub fn render_error_json(e: &ErrorResponseModel) -> (s: String)
    ensures
        s@ == json_error(e.code as int, e.message@),
{
    let mut out = String::new();
    out.append("{\"code\":");
    append_dec_i32(e.code, &mut out);
    out.append(",\"message\":");
    append_json_string(e.message.as_str(), &mut out);
    out.append("}");
    proof {
        assert(out@ =~= json_error(e.code as int, e.message@));
    }
    out
}

/// The body text of a reply: the todo object, the collection array,
/// the error body, or nothing.
pub fn render_reply_body(r: &HttpReply) -> (s: String)
    ensures
        match r.body {
            ResponseBody::TodoItem(t) => s@ == json_todo(t.id as int, t.title@),
            ResponseBody::TodoList(v) => s@ == json_todo_list(v@),
            ResponseBody::ErrorInfo(e) => s@ == json_error(e.code as int, e.message@),
            ResponseBody::Empty => s@ == Seq::<char>::empty(),
        },
{
    match &r.body {
        ResponseBody::TodoItem(t) => render_todo_json(t),
        ResponseBody::TodoList(v) => render_todo_list_json(v),
        ResponseBody::ErrorInfo(e) => render_error_json(e),
        ResponseBody::Empty => String::new(),
    }
}

} // verus!
