//! The router: which handler a method and a path lead to.

use vstd::prelude::*;
use crate::api::{UpdateParams, HOME};
use crate::text::{begins_with, chars_of, occurs_from, same_text, starts_with};

verus! {

/// The path that tasks are posted to.
pub const TODO: &'static str = "/todo";

/// What the path of a single task begins with; the task's id follows.
pub const TODO_PREFIX: &'static str = "/todo/";

/// The method of a request.
#[derive(Debug, Clone, Copy, PartialEq, Eq, Structural)]
pub enum Method {
    Get,
    Head,
    Post,
    Put,
    Patch,
    Delete,
    Options,
    /// Any other method.
    Other,
}

/// Where a request leads.
#[derive(Debug, Clone, Copy, PartialEq, Eq, Structural)]
pub enum Route {
    /// `GET /`: the index page.
    Index,
    /// `POST /todo`: add a task.
    Create,
    /// `POST /todo/{id}`: change the task with this id.
    Update(UpdateParams),
    /// No route has this path, or the id in it is no number.
    NotFound,
    /// A route has this path, but not for this method.
    MethodNotAllowed,
}

/// Whether `c` is one of the digits `0` to `9`.
pub open spec fn is_digit(c: char) -> bool {
    '0' <= c <= '9'
}

/// Whether `text` is made of digits only.
pub open spec fn all_digits(text: Seq<char>) -> bool {
    forall|i: int| 0 <= i < text.len() ==> is_digit(#[trigger] text[i])
}

/// The number that a row of digits writes in base ten.
pub open spec fn digits_value(digits: Seq<char>) -> int
    decreases digits.len(),
{
    if digits.len() == 0 {
        0
    } else {
        10 * digits_value(digits.drop_last()) + (digits.last() as int - '0' as int)
    }
}

/// The id that a text writes: an optional sign, `+` or `-`, then one digit
/// or more, which together give a number that fits in 32 bits. Any other
/// text writes none.
pub open spec fn parse_id(text: Seq<char>) -> Option<i32> {
    let signed = text.len() > 0 && (text[0] == '-' || text[0] == '+');
    let digits = if signed {
        text.skip(1)
    } else {
        text
    };
    let value = if signed && text[0] == '-' {
        -digits_value(digits)
    } else {
        digits_value(digits)
    };
    if digits.len() > 0 && all_digits(digits) && i32::MIN <= value <= i32::MAX {
        Some(value as i32)
    } else {
        None
    }
}

/// Whether a path names a single task: `/todo/`, then one character or more,
/// none of them a slash.
pub open spec fn names_task(path: Seq<char>) -> bool {
    &&& begins_with(path, TODO_PREFIX@)
    &&& path.len() > TODO_PREFIX@.len()
    &&& !path.skip(TODO_PREFIX@.len() as int).contains('/')
}

/// Where a request of this method for this path leads. The path is taken
/// as it is written: no escape in it is resolved.
pub open spec fn route_of(method: Method, path: Seq<char>) -> Route {
    if path == HOME@ {
        if method == Method::Get {
            Route::Index
        } else {
            Route::MethodNotAllowed
        }
    } else if path == TODO@ {
        if method == Method::Post {
            Route::Create
        } else {
            Route::MethodNotAllowed
        }
    } else if names_task(path) {
        if method == Method::Post {
            match parse_id(path.skip(TODO_PREFIX@.len() as int)) {
                Some(id) => Route::Update(UpdateParams { id }),
                None => Route::NotFound,
            }
        } else {
            Route::MethodNotAllowed
        }
    } else {
        Route::NotFound
    }
}

/// A row of digits writes no negative number.
proof fn lemma_digits_value_nonnegative(digits: Seq<char>)
    requires
        all_digits(digits),
    ensures
        digits_value(digits) >= 0,
    decreases digits.len(),
{
    if digits.len() > 0 {
        assert(is_digit(digits[digits.len() - 1]));
        lemma_digits_value_nonnegative(digits.drop_last());
    }
}

/// A row of digits writes at least what any beginning of it writes.
proof fn lemma_digits_value_grows(digits: Seq<char>, k: int)
    requires
        all_digits(digits),
        0 <= k <= digits.len(),
    ensures
        digits_value(digits.take(k)) <= digits_value(digits),
    decreases digits.len(),
{
    if k == digits.len() {
        assert(digits.take(k) =~= digits);
    } else {
        assert(is_digit(digits[digits.len() - 1]));
        assert(digits.drop_last().take(k) =~= digits.take(k));
        lemma_digits_value_grows(digits.drop_last(), k);
        lemma_digits_value_nonnegative(digits.drop_last());
    }
}

/// Reads the id that `text` writes from `start` on.
#[verifier::loop_isolation(false)]
pub fn read_id(text: &Vec<char>, start: usize) -> (id: Option<i32>)
    requires
        start <= text.len(),
    ensures
        id == parse_id(text@.skip(start as int)),
{
    let ghost written = text@.skip(start as int);
    if start == text.len() {
        return None;
    }
    let negative = text[start] == '-';
    let signed = negative || text[start] == '+';
    let first: usize = if signed {
        start + 1
    } else {
        start
    };
    let ghost digits = text@.skip(first as int);
    assert(written[0] == text@[start as int]);
    assert(digits =~= if signed {
        written.skip(1)
    } else {
        written
    });
    if first == text.len() {
        return None;
    }
    let limit: i64 = 2147483648;
    let mut value: i64 = 0;
    let mut i: usize = first;
    while i < text.len()
        invariant
            first <= i <= text.len(),
            digits == text@.skip(first as int),
            all_digits(digits.take(i - first)),
            value == digits_value(digits.take(i - first)),
            0 <= value <= limit,
            limit == 2147483648,
        decreases text.len() - i,
    {
        let c = text[i];
        assert(digits[i - first] == c);
        if c < '0' || c > '9' {
            assert(!is_digit(digits[i - first]));
            return None;
        }
        let digit: i64 = (c as u32 - '0' as u32) as i64;
        let ghost longer = digits.take(i - first + 1);
        assert(longer.drop_last() =~= digits.take(i - first));
        assert(longer.last() == c);
        assert(all_digits(longer)) by {
            assert forall|k: int| 0 <= k < longer.len() implies is_digit(#[trigger] longer[k]) by {
                if k < i - first {
                    assert(longer[k] == digits.take(i - first)[k]);
                }
            }
        }
        value = value * 10 + digit;
        if value > limit {
            proof {
                if all_digits(digits) {
                    lemma_digits_value_grows(digits, i - first + 1);
                }
            }
            return None;
        }
        i += 1;
    }
    assert(digits.take(i - first) =~= digits);
    if negative {
        Some((0 - value) as i32)
    } else if value == limit {
        None
    } else {
        Some(value as i32)
    }
}

/// Finds the handler for a request. The path is taken as it is written:
/// no escape in it is resolved.
pub fn route(method: Method, path: &str) -> (found: Route)
    ensures
        found == route_of(method, path@),
{
    let text = chars_of(path);
    let home = chars_of(HOME);
    let todo = chars_of(TODO);
    let prefix = chars_of(TODO_PREFIX);
    if same_text(&text, &home) {
        match method {
            Method::Get => Route::Index,
            _ => Route::MethodNotAllowed,
        }
    } else if same_text(&text, &todo) {
        match method {
            Method::Post => Route::Create,
            _ => Route::MethodNotAllowed,
        }
    } else if starts_with(&text, &prefix) && text.len() > prefix.len() && !occurs_from(
        &text,
        prefix.len(),
        '/',
    ) {
        match method {
            Method::Post => match read_id(&text, prefix.len()) {
                Some(id) => Route::Update(UpdateParams { id }),
                None => Route::NotFound,
            },
            _ => Route::MethodNotAllowed,
        }
    } else {
        Route::NotFound
    }
}

} // verus!
