//! Parsing of the request body of create and update: a JSON object
//! with the single member `"title"` holding a string. The accepted
//! grammar is specified character by character; whatever falls outside
//! it is rejected, and the handlers answer such a body with 400.

use vstd::prelude::*;
use vstd::string::StringExecFns;
use crate::models::TodoForm;

verus! {

/// JSON whitespace.
pub open spec fn is_json_ws(c: char) -> bool {
    c == ' ' || c == '\t' || c == '\n' || c == '\r'
}

/// The first index at or after `i` holding no whitespace.
pub open spec fn spec_skip_ws(s: Seq<char>, i: int) -> int
    decreases s.len() - i
        when 0 <= i <= s.len()
{
    if i < s.len() && is_json_ws(s[i]) {
        spec_skip_ws(s, i + 1)
    } else {
        i
    }
}

/// The character a short escape stands for; the four-digit form is
/// outside the accepted grammar.
pub open spec fn json_unescaped_char(c: char) -> Option<char> {
    if c == '"' {
        Some('"')
    } else if c == '\\' {
        Some('\\')
    } else if c == '/' {
        Some('/')
    } else if c == 'b' {
        Some('\u{8}')
    } else if c == 'f' {
        Some('\u{c}')
    } else if c == 'n' {
        Some('\n')
    } else if c == 'r' {
        Some('\r')
    } else if c == 't' {
        Some('\t')
    } else {
        None
    }
}

/// Reads a JSON string from index `i`, which stands just after the
/// opening quote: the decoded text and the index just after the
/// closing quote, or nothing when the text up to the end of input is
/// no well-formed string. Bare control characters are refused, as
/// JSON requires.
pub open spec fn spec_string_body(s: Seq<char>, i: int) -> Option<(Seq<char>, int)>
    decreases s.len() - i
        when 0 <= i <= s.len()
{
    if i >= s.len() {
        None
    } else if s[i] == '"' {
        Some((Seq::empty(), i + 1))
    } else if s[i] == '\\' {
        if i + 1 >= s.len() {
            None
        } else {
            match json_unescaped_char(s[i + 1]) {
                Some(c) => match spec_string_body(s, i + 2) {
                    Some(p) => Some((seq![c] + p.0, p.1)),
                    None => None,
                },
                None => None,
            }
        }
    } else if (s[i] as u32) < 0x20 {
        None
    } else {
        match spec_string_body(s, i + 1) {
            Some(p) => Some((seq![s[i]] + p.0, p.1)),
            None => None,
        }
    }
}

/// The accepted request body: optional whitespace around `{`, the
/// member name `"title"`, `:`, a string, `}`, and nothing more. The
/// result is the decoded title.
pub open spec fn spec_parse_todo_form(s: Seq<char>) -> Option<Seq<char>> {
    let i0 = spec_skip_ws(s, 0);
    if i0 < s.len() && s[i0] == '{' {
        let i1 = spec_skip_ws(s, i0 + 1);
        if i1 + 7 <= s.len() && s.subrange(i1, i1 + 7) == "\"title\""@ {
            let i2 = spec_skip_ws(s, i1 + 7);
            if i2 < s.len() && s[i2] == ':' {
                let i3 = spec_skip_ws(s, i2 + 1);
                if i3 < s.len() && s[i3] == '"' {
                    match spec_string_body(s, i3 + 1) {
                        Some(p) => {
                            let i4 = spec_skip_ws(s, p.1);
                            if i4 < s.len() && s[i4] == '}' && spec_skip_ws(s, i4 + 1) == s.len() {
                                Some(p.0)
                            } else {
                                None
                            }
                        },
                        None => None,
                    }
                } else {
                    None
                }
            } else {
                None
            }
        } else {
            None
        }
    } else {
        None
    }
}

/// Whether the character at `j` is whitespace.
fn ws_at(s: &str, j: usize) -> (b: bool)
    requires
        j < s@.len(),
    ensures
        b == is_json_ws(s@[j as int]),
{
    let c = s.get_char(j);
    c == ' ' || c == '\t' || c == '\n' || c == '\r'
}

/// Walks past whitespace.
fn skip_ws(s: &str, i: usize, n: usize) -> (j: usize)
    requires
        i <= n,
        n == s@.len(),
    ensures
        j as int == spec_skip_ws(s@, i as int),
        i <= j <= n,
{
    let mut j = i;
    while j < n && ws_at(s, j)
        invariant
            i <= j <= n,
            n == s@.len(),
            spec_skip_ws(s@, i as int) == spec_skip_ws(s@, j as int),
        decreases n - j,
    {
        j = j + 1;
    }
    j
}

/// The one-character string a short escape decodes to.
fn unescape_str(c: char) -> (r: Option<&'static str>)
    ensures
        match r {
            Some(t) => json_unescaped_char(c) matches Some(d) && t@ =~= seq![d],
            None => json_unescaped_char(c) is None,
        },
{
    if c == '"' {
        proof { reveal_strlit("\""); }
        Some("\"")
    } else if c == '\\' {
        proof { reveal_strlit("\\"); }
        Some("\\")
    } else if c == '/' {
        proof { reveal_strlit("/"); }
        Some("/")
    } else if c == 'b' {
        proof { reveal_strlit("\u{8}"); }
        Some("\u{8}")
    } else if c == 'f' {
        proof { reveal_strlit("\u{c}"); }
        Some("\u{c}")
    } else if c == 'n' {
        proof { reveal_strlit("\n"); }
        Some("\n")
    } else if c == 'r' {
        proof { reveal_strlit("\r"); }
        Some("\r")
    } else if c == 't' {
        proof { reveal_strlit("\t"); }
        Some("\t")
    } else {
        None
    }
}

/// Reads a JSON string, decoding escapes.
fn parse_string_body(s: &str, i: usize, n: usize) -> (r: Option<(String, usize)>)
    requires
        i <= n,
        n == s@.len(),
    ensures
        match r {
            Some(p) => spec_string_body(s@, i as int) == Some((p.0@, p.1 as int)) && i < p.1 <= n,
            None => spec_string_body(s@, i as int) is None,
        },
    decreases n - i,
{
    if i >= n {
        return None;
    }
    let c = s.get_char(i);
    if c == '"' {
        let out = String::new();
        proof {
            assert(out@ =~= Seq::<char>::empty());
        }
        return Some((out, i + 1));
    }
    if c == '\\' {
        if i + 1 >= n {
            return None;
        }
        let e = s.get_char(i + 1);
        match unescape_str(e) {
            Some(dec) => {
                match parse_string_body(s, i + 2, n) {
                    Some(p) => {
                        let mut out = String::from_str(dec);
                        out.append(p.0.as_str());
                        proof {
                            let d = json_unescaped_char(s@[i as int + 1]).unwrap();
                            assert(out@ =~= seq![d] + p.0@);
                        }
                        Some((out, p.1))
                    },
                    None => None,
                }
            },
            None => None,
        }
    } else if (c as u32) < 0x20 {
        None
    } else {
        match parse_string_body(s, i + 1, n) {
            Some(p) => {
                let piece = s.substring_char(i, i + 1);
                let mut out = String::from_str(piece);
                out.append(p.0.as_str());
                proof {
                    assert(piece@ =~= seq![s@[i as int]]);
                    assert(out@ =~= seq![s@[i as int]] + p.0@);
                }
                Some((out, p.1))
            },
            None => None,
        }
    }
}

/// Parses the request body of create and update; answers nothing
/// exactly when the body falls outside the accepted grammar.
pub fn parse_todo_form(s: &str) -> (r: Option<TodoForm>)
    ensures
        match r {
            Some(f) => spec_parse_todo_form(s@) == Some(f.title@),
            None => spec_parse_todo_form(s@) is None,
        },
{
    let n = s.unicode_len();
    let i0 = skip_ws(s, 0, n);
    if !(i0 < n) {
        return None;
    }
    if s.get_char(i0) != '{' {
        return None;
    }
    let i1 = skip_ws(s, i0 + 1, n);
    if !(n >= 7 && i1 <= n - 7) {
        return None;
    }
    proof {
        reveal_strlit("\"title\"");
    }
    let lit = "\"title\"";
    let mut k: usize = 0;
    while k < 7
        invariant
            n == s@.len(),
            i1 + 7 <= n,
            k <= 7,
            lit@ == "\"title\""@,
            lit@.len() == 7,
            i0 as int == spec_skip_ws(s@, 0),
            i0 < n,
            s@[i0 as int] == '{',
            i1 as int == spec_skip_ws(s@, i0 as int + 1),
            forall|t: int| 0 <= t < k as int ==> s@[i1 as int + t] == "\"title\""@[t],
        decreases 7 - k,
    {
        if s.get_char(i1 + k) != lit.get_char(k) {
            proof {
                assert(s@.subrange(i1 as int, i1 as int + 7)[k as int] == s@[i1 as int + k as int]);
                assert(s@.subrange(i1 as int, i1 as int + 7) != "\"title\""@);
            }
            return None;
        }
        k = k + 1;
    }
    proof {
        assert(s@.subrange(i1 as int, i1 as int + 7) =~= "\"title\""@);
    }
    let i2 = skip_ws(s, i1 + 7, n);
    if !(i2 < n) {
        return None;
    }
    if s.get_char(i2) != ':' {
        return None;
    }
    let i3 = skip_ws(s, i2 + 1, n);
    if !(i3 < n) {
        return None;
    }
    if s.get_char(i3) != '"' {
        return None;
    }
    match parse_string_body(s, i3 + 1, n) {
        Some(p) => {
            let i4 = skip_ws(s, p.1, n);
            if !(i4 < n) {
                return None;
            }
            if s.get_char(i4) != '}' {
                return None;
            }
            let i5 = skip_ws(s, i4 + 1, n);
            if i5 != n {
                return None;
            }
            Some(TodoForm { title: p.0 })
        },
        None => None,
    }
}

} // verus!
