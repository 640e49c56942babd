//! Errors that can occur during filter execution.
use vstd::prelude::*;

use crate::decimal::{decimal, decimal_string};
use crate::value::Show;
use jaq_parse::MathOp;
use vstd::std_specs::cmp::PartialEqSpec;

verus! {

/// Relies on jaq_parse::MathOp: the parser's arithmetic operator tag, an enum of
/// five unit variants that verified code matches on directly.
#[verifier::external_type_specification]
pub struct ExMathOp(jaq_parse::MathOp);

/// A runtime failure of filter execution, carrying the values involved.
///
/// `V` is the runtime value type of the evaluator.
#[derive(Debug)]
pub enum Error<V> {
    /// An evaluator-defined assertion, with its reason.
    Custom(String),
    /// The value cannot be used as an object key.
    ObjKey(V),
    /// The value has no length.
    Length(V),
    /// The value cannot be rounded.
    Round(V),
    /// The value's text cannot be parsed as JSON, with the parser's detail if any.
    FromJson(V, Option<String>),
    /// The value cannot be parsed as a number.
    ToNumber(V),
    /// The value is not an array and cannot be sorted.
    Sort(V),
    /// Membership of the key (second) in the value (first) is not defined.
    Has(V, V),
    /// Split needs both its input and its separator to be strings.
    Split,
    /// The value has no keys.
    Keys(V),
    /// The value cannot be iterated.
    Iter(V),
    /// The value cannot be negated.
    Neg(V),
    /// The two values cannot be combined with the operator.
    MathOp(V, V, MathOp),
    /// The value cannot be indexed.
    Index(V),
    /// The value (first) cannot be indexed with the index (second).
    IndexWith(V, V),
    /// An index out of range: its magnitude, and whether it is non-negative.
    IndexOutOfBounds((usize, bool)),
    /// The value cannot be used as a signed integer.
    Isize(V),
    /// The value cannot be used as an unsigned integer.
    Usize(V),
    /// A non-array value was assigned to an array slice.
    SliceAssign(V),
}

/// Returns the same operator.
pub fn copy_op(op: &MathOp) -> (r: MathOp)
    ensures
        r == *op,
{
    match op {
        MathOp::Add => MathOp::Add,
        MathOp::Sub => MathOp::Sub,
        MathOp::Mul => MathOp::Mul,
        MathOp::Div => MathOp::Div,
        MathOp::Rem => MathOp::Rem,
    }
}

impl<V: Clone> Clone for Error<V> {
    fn clone(&self) -> Self {
        match self {
            Error::Custom(s) => Error::Custom(s.clone()),
            Error::ObjKey(v) => Error::ObjKey(v.clone()),
            Error::Length(v) => Error::Length(v.clone()),
            Error::Round(v) => Error::Round(v.clone()),
            Error::FromJson(v, reason) => Error::FromJson(v.clone(), reason.clone()),
            Error::ToNumber(v) => Error::ToNumber(v.clone()),
            Error::Sort(v) => Error::Sort(v.clone()),
            Error::Has(v, k) => Error::Has(v.clone(), k.clone()),
            Error::Split => Error::Split,
            Error::Keys(v) => Error::Keys(v.clone()),
            Error::Iter(v) => Error::Iter(v.clone()),
            Error::Neg(v) => Error::Neg(v.clone()),
            Error::MathOp(l, r, op) => Error::MathOp(l.clone(), r.clone(), copy_op(op)),
            Error::Index(v) => Error::Index(v.clone()),
            Error::IndexWith(v, i) => Error::IndexWith(v.clone(), i.clone()),
            Error::IndexOutOfBounds((i, non_negative)) => Error::IndexOutOfBounds((*i, *non_negative)),
            Error::Isize(v) => Error::Isize(v.clone()),
            Error::Usize(v) => Error::Usize(v.clone()),
            Error::SliceAssign(v) => Error::SliceAssign(v.clone()),
        }
    }
}

/// Tells whether two operators are the same.
pub fn same_op(a: &MathOp, b: &MathOp) -> (r: bool)
    ensures
        r == (*a == *b),
{
    match (a, b) {
        (MathOp::Add, MathOp::Add) => true,
        (MathOp::Sub, MathOp::Sub) => true,
        (MathOp::Mul, MathOp::Mul) => true,
        (MathOp::Div, MathOp::Div) => true,
        (MathOp::Rem, MathOp::Rem) => true,
        _ => false,
    }
}

/// The text of an optional reason.
pub open spec fn reason_text(r: Option<String>) -> Option<Seq<char>> {
    match r {
        Some(s) => Some(s@),
        None => None,
    }
}

fn same_reason(a: &Option<String>, b: &Option<String>) -> (r: bool)
    ensures
        r == (reason_text(*a) == reason_text(*b)),
{
    match (a, b) {
        (Some(x), Some(y)) => *x == *y,
        (None, None) => true,
        _ => false,
    }
}

impl<V: PartialEq + PartialEqSpec> PartialEq for Error<V> {
    fn eq(&self, o: &Self) -> (r: bool) {
        match (self, o) {
            (Error::Custom(a), Error::Custom(b)) => *a == *b,
            (Error::ObjKey(a), Error::ObjKey(b)) => *a == *b,
            (Error::Length(a), Error::Length(b)) => *a == *b,
            (Error::Round(a), Error::Round(b)) => *a == *b,
            (Error::FromJson(a, x), Error::FromJson(b, y)) => *a == *b && same_reason(x, y),
            (Error::ToNumber(a), Error::ToNumber(b)) => *a == *b,
            (Error::Sort(a), Error::Sort(b)) => *a == *b,
            (Error::Has(a, k), Error::Has(b, l)) => *a == *b && *k == *l,
            (Error::Split, Error::Split) => true,
            (Error::Keys(a), Error::Keys(b)) => *a == *b,
            (Error::Iter(a), Error::Iter(b)) => *a == *b,
            (Error::Neg(a), Error::Neg(b)) => *a == *b,
            (Error::MathOp(a, x, p), Error::MathOp(b, y, q)) => *a == *b && *x == *y && same_op(p, q),
            (Error::Index(a), Error::Index(b)) => *a == *b,
            (Error::IndexWith(a, i), Error::IndexWith(b, j)) => *a == *b && *i == *j,
            (Error::IndexOutOfBounds((i, x)), Error::IndexOutOfBounds((j, y))) => {
                *i == *j && *x == *y
            },
            (Error::Isize(a), Error::Isize(b)) => *a == *b,
            (Error::Usize(a), Error::Usize(b)) => *a == *b,
            (Error::SliceAssign(a), Error::SliceAssign(b)) => *a == *b,
            _ => false,
        }
    }
}

impl<V: PartialEq + PartialEqSpec> vstd::std_specs::cmp::PartialEqSpecImpl for Error<V> {
    open spec fn obeys_eq_spec() -> bool {
        V::obeys_eq_spec()
    }

    open spec fn eq_spec(&self, o: &Self) -> bool {
        match (self, o) {
            (Error::Custom(a), Error::Custom(b)) => a@ == b@,
            (Error::ObjKey(a), Error::ObjKey(b)) => V::eq_spec(a, b),
            (Error::Length(a), Error::Length(b)) => V::eq_spec(a, b),
            (Error::Round(a), Error::Round(b)) => V::eq_spec(a, b),
            (Error::FromJson(a, x), Error::FromJson(b, y)) => {
                V::eq_spec(a, b) && reason_text(*x) == reason_text(*y)
            },
            (Error::ToNumber(a), Error::ToNumber(b)) => V::eq_spec(a, b),
            (Error::Sort(a), Error::Sort(b)) => V::eq_spec(a, b),
            (Error::Has(a, k), Error::Has(b, l)) => V::eq_spec(a, b) && V::eq_spec(k, l),
            (Error::Split, Error::Split) => true,
            (Error::Keys(a), Error::Keys(b)) => V::eq_spec(a, b),
            (Error::Iter(a), Error::Iter(b)) => V::eq_spec(a, b),
            (Error::Neg(a), Error::Neg(b)) => V::eq_spec(a, b),
            (Error::MathOp(a, x, p), Error::MathOp(b, y, q)) => {
                V::eq_spec(a, b) && V::eq_spec(x, y) && p == q
            },
            (Error::Index(a), Error::Index(b)) => V::eq_spec(a, b),
            (Error::IndexWith(a, i), Error::IndexWith(b, j)) => V::eq_spec(a, b) && V::eq_spec(i, j),
            (Error::IndexOutOfBounds(p), Error::IndexOutOfBounds(q)) => p == q,
            (Error::Isize(a), Error::Isize(b)) => V::eq_spec(a, b),
            (Error::Usize(a), Error::Usize(b)) => V::eq_spec(a, b),
            (Error::SliceAssign(a), Error::SliceAssign(b)) => V::eq_spec(a, b),
            _ => false,
        }
    }
}

/// The passive verb of an operator: what its operands "cannot be".
pub open spec fn passive_word(op: MathOp) -> Seq<char> {
    match op {
        MathOp::Add => "added"@,
        MathOp::Sub => "subtracted"@,
        MathOp::Mul => "multiplied"@,
        MathOp::Div => "divided"@,
        MathOp::Rem => "divided (remainder)"@,
    }
}

/// Returns the passive verb of an operator.
pub fn passive(op: &MathOp) -> (r: &'static str)
    ensures
        r@ == passive_word(*op),
{
    match op {
        MathOp::Add => "added",
        MathOp::Sub => "subtracted",
        MathOp::Mul => "multiplied",
        MathOp::Div => "divided",
        MathOp::Rem => "divided (remainder)",
    }
}

impl<V: Show> Error<V> {
    /// The message of a failure.
    pub open spec fn message(&self) -> Seq<char> {
        match self {
            Error::Custom(s) => s@,
            Error::ObjKey(v) => "cannot use "@ + v.shown() + " as object key"@,
            Error::Length(v) => v.shown() + " has no length"@,
            Error::Round(v) => "cannot round "@ + v.shown(),
            Error::Sort(v) => "cannot sort "@ + v.shown() + ", as it is not an array"@,
            Error::FromJson(v, None) => "cannot parse "@ + v.shown() + " as JSON"@,
            Error::FromJson(v, Some(reason)) => "cannot parse "@ + v.shown() + " as JSON: "@
                + reason@,
            Error::ToNumber(v) => "cannot parse "@ + v.shown() + " as number"@,
            Error::Keys(v) => v.shown() + " has no keys"@,
            Error::Has(v, k) => "cannot check whether "@ + v.shown() + " has key "@ + k.shown(),
            Error::Split => "split input and separator must be strings"@,
            Error::Iter(v) => "cannot iterate over "@ + v.shown(),
            Error::Neg(v) => "cannot negate "@ + v.shown(),
            Error::MathOp(l, r, op) => l.shown() + " and "@ + r.shown() + " cannot be "@
                + passive_word(*op),
            Error::Index(v) => "cannot index "@ + v.shown(),
            Error::IndexWith(v, i) => "cannot index "@ + v.shown() + " with "@ + i.shown(),
            Error::IndexOutOfBounds((i, true)) => "index "@ + decimal(*i as nat)
                + " is out of bounds"@,
            Error::IndexOutOfBounds((i, false)) => "index -"@ + decimal(*i as nat)
                + " is out of bounds"@,
            Error::Isize(v) => "cannot use "@ + v.shown() + " as (signed) integer"@,
            Error::Usize(v) => "cannot use "@ + v.shown() + " as unsigned integer"@,
            Error::SliceAssign(v) => "cannot assign non-array ("@ + v.shown()
                + ") to an array slice"@,
        }
    }

    /// Renders the failure as its message.
    pub fn to_string(&self) -> (r: String)
        ensures
            r@ == self.message(),
    {
        match self {
            Error::Custom(s) => s.clone(),
            Error::ObjKey(v) => wrap("cannot use ", v, " as object key"),
            Error::Length(v) => {
                let mut r = v.show();
                r.append(" has no length");
                r
            },
            Error::Round(v) => prefixed("cannot round ", v),
            Error::Sort(v) => wrap("cannot sort ", v, ", as it is not an array"),
            Error::FromJson(v, None) => wrap("cannot parse ", v, " as JSON"),
            Error::FromJson(v, Some(reason)) => {
                let mut r = wrap("cannot parse ", v, " as JSON: ");
                r.append(reason.as_str());
                r
            },
            Error::ToNumber(v) => wrap("cannot parse ", v, " as number"),
            Error::Keys(v) => {
                let mut r = v.show();
                r.append(" has no keys");
                r
            },
            Error::Has(v, k) => {
                let mut r = wrap("cannot check whether ", v, " has key ");
                r.append(k.show().as_str());
                r
            },
            Error::Split => String::from_str("split input and separator must be strings"),
            Error::Iter(v) => prefixed("cannot iterate over ", v),
            Error::Neg(v) => prefixed("cannot negate ", v),
            Error::MathOp(l, r, op) => {
                let mut s = l.show();
                s.append(" and ");
                s.append(r.show().as_str());
                s.append(" cannot be ");
                s.append(passive(op));
                s
            },
            Error::Index(v) => prefixed("cannot index ", v),
            Error::IndexWith(v, i) => {
                let mut r = wrap("cannot index ", v, " with ");
                r.append(i.show().as_str());
                r
            },
            Error::IndexOutOfBounds((i, non_negative)) => {
                let mut r = if *non_negative {
                    String::from_str("index ")
                } else {
                    String::from_str("index -")
                };
                r.append(decimal_string(*i).as_str());
                r.append(" is out of bounds");
                r
            },
            Error::Isize(v) => wrap("cannot use ", v, " as (signed) integer"),
            Error::Usize(v) => wrap("cannot use ", v, " as unsigned integer"),
            Error::SliceAssign(v) => wrap("cannot assign non-array (", v, ") to an array slice"),
        }
    }
}

/// The text `pre`, then the display form of `v`.
fn prefixed<V: Show>(pre: &str, v: &V) -> (r: String)
    ensures
        r@ == pre@ + v.shown(),
{
    let mut r = String::from_str(pre);
    r.append(v.show().as_str());
    r
}

/// The text `pre`, the display form of `v`, then the text `post`.
fn wrap<V: Show>(pre: &str, v: &V, post: &str) -> (r: String)
    ensures
        r@ == pre@ + v.shown() + post@,
{
    let mut r = prefixed(pre, v);
    r.append(post);
    r
}

} // verus!
