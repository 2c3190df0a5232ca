//! The hint protocol of primitive coercion.
use crate::error::Error;
use crate::object::{Hint, ObjRef, ObjectArena, Value};
use vstd::prelude::*;

verus! {

/// `v` is a primitive: anything but an object reference.
pub open spec fn is_primitive(v: Value) -> bool {
    !(v is Object)
}

/// The hint that governs a coercion of `obj`: the one given, else the
/// object's default hint.
pub fn effective_hint(arena: &ObjectArena, obj: ObjRef, hint: Option<Hint>) -> (r: Hint)
    requires
        arena.valid(obj),
    ensures
        r == (match hint {
            Some(h) => h,
            None => if arena.obj(obj) is Date {
                Hint::String
            } else {
                Hint::Number
            },
        }),
{
    match hint {
        Some(h) => h,
        None => arena.default_hint(obj),
    }
}

/// Picks the primitive that coercion under `hint` yields from the results
/// of `toString` and `valueOf`: under `String` the former first, under
/// `Number` the latter first; `TypeError` when neither is a primitive.
pub fn select_primitive(hint: Hint, to_string: &Value, value_of: &Value) -> (r: Result<Value, Error>)
    ensures
        r == (if hint == Hint::String {
            if is_primitive(*to_string) {
                Ok(*to_string)
            } else if is_primitive(*value_of) {
                Ok(*value_of)
            } else {
                Err(Error::TypeError)
            }
        } else {
            if is_primitive(*value_of) {
                Ok(*value_of)
            } else if is_primitive(*to_string) {
                Ok(*to_string)
            } else {
                Err(Error::TypeError)
            }
        }),
{
    let (first, second) = match hint {
        Hint::String => (to_string, value_of),
        Hint::Number => (value_of, to_string),
    };
    if !matches!(first, Value::Object(_)) {
        Ok(first.copy())
    } else if !matches!(second, Value::Object(_)) {
        Ok(second.copy())
    } else {
        Err(Error::TypeError)
    }
}

/// The character of decimal digit `d`.
pub open spec fn digit_char(d: int) -> char {
    if d == 0 { '0' } else if d == 1 { '1' } else if d == 2 { '2' } else if d == 3 { '3' }
    else if d == 4 { '4' } else if d == 5 { '5' } else if d == 6 { '6' } else if d == 7 { '7' }
    else if d == 8 { '8' } else { '9' }
}

/// The decimal digits of `n`, most significant first, without leading zeros.
pub open spec fn decimal(n: nat) -> Seq<char>
    decreases n,
{
    if n < 10 {
        seq![digit_char(n as int)]
    } else {
        decimal(n / 10).push(digit_char((n % 10) as int))
    }
}

/// The decimal text of an integer, with a leading `-` when negative.
pub open spec fn int_text(i: int) -> Seq<char> {
    if i < 0 {
        seq!['-'] + decimal((-i) as nat)
    } else {
        decimal(i as nat)
    }
}

fn digit_str(d: u64) -> (r: &'static str)
    requires
        d < 10,
    ensures
        r@ == seq![digit_char(d as int)],
{
    proof {
        reveal_strlit("0");
        reveal_strlit("1");
        reveal_strlit("2");
        reveal_strlit("3");
        reveal_strlit("4");
        reveal_strlit("5");
        reveal_strlit("6");
        reveal_strlit("7");
        reveal_strlit("8");
        reveal_strlit("9");
    }
    let r = if d == 0 { "0" } else if d == 1 { "1" } else if d == 2 { "2" } else if d == 3 { "3" }
    else if d == 4 { "4" } else if d == 5 { "5" } else if d == 6 { "6" } else if d == 7 { "7" }
    else if d == 8 { "8" } else { "9" };
    proof {
        assert(r@ =~= seq![digit_char(d as int)]);
    }
    r
}

fn decimal_string(n: u64) -> (r: String)
    ensures
        r@ == decimal(n as nat),
    decreases n,
{
    if n < 10 {
        String::from_str(digit_str(n))
    } else {
        decimal_string(n / 10).concat(digit_str(n % 10))
    }
}

/// The decimal text of `i`.
pub fn int_to_string(i: i64) -> (r: String)
    requires
        i > i64::MIN,
    ensures
        r@ == int_text(i as int),
{
    if i < 0 {
        let sign = "-";
        proof {
            reveal_strlit("-");
        }
        String::from_str(sign).concat(decimal_string((-i) as u64).as_str())
    } else {
        decimal_string(i as u64)
    }
}

} // verus!
