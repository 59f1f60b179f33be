//! The route table of the service: the method and path of a request
//! decide which handler answers it. The only path parameter is the
//! todo id, a signed decimal integer.

use vstd::prelude::*;

verus! {

/// The HTTP methods the service routes.
#[derive(Debug, Clone, Copy, PartialEq, Eq, Structural)]
pub enum Method {
    Get,
    Post,
    Put,
    Delete,
}

/// Where a request goes: one of the five handlers, or nowhere.
#[derive(Debug, Clone, Copy, PartialEq, Eq, Structural)]
pub enum Route {
    /// GET on the collection.
    ListTodos,
    /// POST on the collection.
    CreateTodo,
    /// GET on a single todo.
    GetTodo(i32),
    /// PUT on a single todo.
    UpdateTodo(i32),
    /// DELETE on a single todo.
    RemoveTodo(i32),
    /// No route matches.
    NoRoute,
}

/// A decimal digit.
pub open spec fn is_dec_digit(c: char) -> bool {
    '0' <= c && c <= '9'
}

/// The value of a decimal digit.
pub open spec fn dec_digit_val(c: char) -> int {
    c as u32 - '0' as u32
}

/// Every character is a decimal digit.
pub open spec fn all_dec_digits(s: Seq<char>) -> bool {
    forall|i: int| 0 <= i < s.len() ==> is_dec_digit(#[trigger] s[i])
}

/// The value of a digit string read as a decimal numeral.
pub open spec fn dec_val(s: Seq<char>) -> int
    decreases s.len(),
{
    if s.len() == 0 {
        0
    } else {
        dec_val(s.drop_last()) * 10 + dec_digit_val(s.last())
    }
}

/// The digits of a numeral: what follows the optional sign.
pub open spec fn numeral_body(s: Seq<char>) -> Seq<char> {
    if s.len() > 0 && (s[0] == '+' || s[0] == '-') {
        s.skip(1)
    } else {
        s
    }
}

/// The sign of a numeral: negative exactly under a leading '-'.
pub open spec fn numeral_sign(s: Seq<char>) -> int {
    if s.len() > 0 && s[0] == '-' {
        -1
    } else {
        1
    }
}

/// A well-formed signed decimal numeral whose value fits an `i32`: an
/// optional sign, then at least one digit, leading zeros allowed.
pub open spec fn is_i32_numeral(s: Seq<char>) -> bool {
    &&& numeral_body(s).len() > 0
    &&& all_dec_digits(numeral_body(s))
    &&& i32::MIN <= numeral_sign(s) * dec_val(numeral_body(s)) <= i32::MAX
}

/// The value of a well-formed numeral.
pub open spec fn i32_numeral_val(s: Seq<char>) -> int {
    numeral_sign(s) * dec_val(numeral_body(s))
}

/// The route a method and path decide: the bare collection path
/// carries list and create; the collection path, a slash and an `i32`
/// numeral carry the single-row reads and writes; anything else
/// matches nothing.
pub open spec fn spec_route(m: Method, p: Seq<char>) -> Route {
    if p == "/todos"@ {
        match m {
            Method::Get => Route::ListTodos,
            Method::Post => Route::CreateTodo,
            _ => Route::NoRoute,
        }
    } else if p.len() > 7 && p.take(7) == "/todos/"@ && is_i32_numeral(p.skip(7)) {
        match m {
            Method::Get => Route::GetTodo(i32_numeral_val(p.skip(7)) as i32),
            Method::Put => Route::UpdateTodo(i32_numeral_val(p.skip(7)) as i32),
            Method::Delete => Route::RemoveTodo(i32_numeral_val(p.skip(7)) as i32),
            Method::Post => Route::NoRoute,
        }
    } else {
        Route::NoRoute
    }
}

/// Reads the characters `from..to` of `s` as a signed decimal `i32`
/// numeral; answers nothing exactly when the segment is not one.
pub fn parse_i32_segment(s: &str, from: usize, to: usize) -> (r: Option<i32>)
    requires
        from <= to <= s@.len(),
    ensures
        match r {
            Some(v) => is_i32_numeral(s@.subrange(from as int, to as int)) && v as int
                == i32_numeral_val(s@.subrange(from as int, to as int)),
            None => !is_i32_numeral(s@.subrange(from as int, to as int)),
        },
{
    let ghost seg = s@.subrange(from as int, to as int);
    let mut i = from;
    let mut neg = false;
    if i < to {
        let c = s.get_char(i);
        if c == '+' {
            i = i + 1;
        } else if c == '-' {
            neg = true;
            i = i + 1;
        }
    }
    let ghost body = numeral_body(seg);
    proof {
        assert(body =~= s@.subrange(i as int, to as int));
        assert(numeral_sign(seg) == if neg { -1int } else { 1int });
    }
    if i == to {
        return None;
    }
    let bound: i64 = if neg {
        2147483648i64
    } else {
        2147483647i64
    };
    let mut acc: i64 = 0;
    let mut over = false;
    let mut j = i;
    while j < to
        invariant
            from <= i < to,
            i <= j <= to <= s@.len(),
            seg == s@.subrange(from as int, to as int),
            body == numeral_body(seg),
            numeral_sign(seg) == if neg { -1int } else { 1int },
            body =~= s@.subrange(i as int, to as int),
            bound == if neg { 2147483648int } else { 2147483647int },
            all_dec_digits(body.take(j as int - i as int)),
            !over ==> 0 <= acc <= bound && acc == dec_val(body.take(j as int - i as int)),
            over ==> dec_val(body.take(j as int - i as int)) > bound,
        decreases to - j,
    {
        let c = s.get_char(j);
        proof {
            assert(body[j as int - i as int] == s@[j as int]);
        }
        if !(c >= '0' && c <= '9') {
            proof {
                assert(!is_dec_digit(body[j as int - i as int]));
                assert(!all_dec_digits(body));
            }
            return None;
        }
        let d: i64 = (c as u32 - '0' as u32) as i64;
        proof {
            let pref = body.take(j as int - i as int + 1);
            assert(pref.drop_last() =~= body.take(j as int - i as int));
            assert(pref.last() == c);
            assert(all_dec_digits(pref)) by {
                assert(forall|k: int|
                    0 <= k < pref.len() - 1 ==> #[trigger] pref[k] == body.take(
                        j as int - i as int,
                    )[k]);
            }
        }
        if !over {
            let next: i64 = acc * 10 + d;
            if next > bound {
                over = true;
            } else {
                acc = next;
            }
        } else {
            proof {
                let v = dec_val(body.take(j as int - i as int));
                assert(v * 10 + dec_digit_val(c) > bound) by (nonlinear_arith)
                    requires
                        v > bound,
                        bound > 0,
                        dec_digit_val(c) >= 0,
                ;
            }
        }
        j = j + 1;
    }
    proof {
        assert(body.take(to as int - i as int) =~= body);
    }
    if over {
        return None;
    }
    if neg {
        proof {
            assert(i32::MIN <= -acc <= i32::MAX);
        }
        Some((-acc) as i32)
    } else {
        Some(acc as i32)
    }
}

/// Decides the route of a request from its method and path.
pub fn route(m: Method, path: &str) -> (r: Route)
    ensures
        r == spec_route(m, path@),
{
    let n = path.unicode_len();
    if n == 6 {
        proof {
            reveal_strlit("/todos");
        }
        let lit = "/todos";
        let mut k: usize = 0;
        while k < 6
            invariant
                n == path@.len() == 6,
                k <= 6,
                lit@ == "/todos"@,
                lit@.len() == 6,
                forall|t: int| 0 <= t < k as int ==> path@[t] == "/todos"@[t],
            decreases 6 - k,
        {
            if path.get_char(k) != lit.get_char(k) {
                return Route::NoRoute;
            }
            k = k + 1;
        }
        proof {
            assert(path@ =~= "/todos"@);
        }
        match m {
            Method::Get => Route::ListTodos,
            Method::Post => Route::CreateTodo,
            _ => Route::NoRoute,
        }
    } else if n > 7 {
        proof {
            reveal_strlit("/todos");
            reveal_strlit("/todos/");
            assert(path@ != "/todos"@);
        }
        let lit = "/todos/";
        let mut k: usize = 0;
        while k < 7
            invariant
                7 < n == path@.len(),
                k <= 7,
                path@ != "/todos"@,
                lit@ == "/todos/"@,
                lit@.len() == 7,
                forall|t: int| 0 <= t < k as int ==> path@[t] == "/todos/"@[t],
            decreases 7 - k,
        {
            if path.get_char(k) != lit.get_char(k) {
                proof {
                    assert(path@.take(7)[k as int] == path@[k as int]);
                    assert(path@.take(7) != "/todos/"@);
                }
                return Route::NoRoute;
            }
            k = k + 1;
        }
        proof {
            assert(path@.take(7) =~= "/todos/"@);
        }
        match parse_i32_segment(path, 7, n) {
            Some(v) => {
                proof {
                    assert(path@.subrange(7, n as int) =~= path@.skip(7));
                }
                match m {
                    Method::Get => Route::GetTodo(v),
                    Method::Put => Route::UpdateTodo(v),
                    Method::Delete => Route::RemoveTodo(v),
                    Method::Post => Route::NoRoute,
                }
            },
            None => {
                proof {
                    assert(path@.subrange(7, n as int) =~= path@.skip(7));
                }
                Route::NoRoute
            },
        }
    } else {
        proof {
            reveal_strlit("/todos");
            assert(path@.len() != 6);
            assert(path@ != "/todos"@);
        }
        Route::NoRoute
    }
}

} // verus!
