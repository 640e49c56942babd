//! Properties that hold of every failure and its message.
use vstd::prelude::*;

use crate::decimal::{decimal, lemma_decimal_nonempty};
use crate::error::{passive_word, reason_text, Error};
use crate::value::Show;
use jaq_parse::MathOp;
use vstd::std_specs::cmp::PartialEqSpec;

verus! {

/// Every failure renders to a non-empty message, except a custom failure whose
/// reason is itself empty.
pub proof fn lemma_message_nonempty<V: Show>(e: Error<V>)
    requires
        !(e matches Error::Custom(s) && s@.len() == 0),
    ensures
        e.message().len() > 0,
{
    reveal_strlit("cannot use ");
    reveal_strlit(" has no length");
    reveal_strlit("cannot round ");
    reveal_strlit("cannot sort ");
    reveal_strlit("cannot parse ");
    reveal_strlit(" has no keys");
    reveal_strlit("cannot check whether ");
    reveal_strlit("split input and separator must be strings");
    reveal_strlit("cannot iterate over ");
    reveal_strlit("cannot negate ");
    reveal_strlit(" and ");
    reveal_strlit("cannot index ");
    reveal_strlit("index ");
    reveal_strlit("index -");
    reveal_strlit("cannot assign non-array (");
    match e {
        Error::IndexOutOfBounds((i, _)) => lemma_decimal_nonempty(i as nat),
        _ => {},
    }
}

/// The five operator words are pairwise distinct.
pub proof fn lemma_passive_words_distinct(a: MathOp, b: MathOp)
    ensures
        a != b ==> passive_word(a) != passive_word(b),
{
    reveal_strlit("added");
    reveal_strlit("subtracted");
    reveal_strlit("multiplied");
    reveal_strlit("divided");
    reveal_strlit("divided (remainder)");
    if a != b {
        let (x, y) = (passive_word(a), passive_word(b));
        if x.len() == y.len() {
            assert(x[0] != y[0] || x[2] != y[2]);
        }
    }
}

/// Two values that cannot be combined are named in order, then the operator's word.
pub proof fn lemma_math_op_message<V: Show>(l: V, r: V, op: MathOp)
    ensures
        Error::MathOp(l, r, op).message() == l.shown() + " and "@ + r.shown() + " cannot be "@
            + passive_word(op),
        op == MathOp::Div ==> Error::MathOp(l, r, op).message() == l.shown() + " and "@
            + r.shown() + " cannot be "@ + "divided"@,
        op == MathOp::Rem ==> Error::MathOp(l, r, op).message() == l.shown() + " and "@
            + r.shown() + " cannot be "@ + "divided (remainder)"@,
{
}

/// A value that is not JSON is named, followed by the parser's detail when there is one.
pub proof fn lemma_from_json_message<V: Show>(v: V, reason: Option<String>)
    ensures
        reason is None ==> Error::FromJson(v, reason).message() == "cannot parse "@ + v.shown()
            + " as JSON"@,
        reason matches Some(x) ==> Error::FromJson(v, reason).message() == "cannot parse "@
            + v.shown() + " as JSON: "@ + x@,
{
}

/// An index out of bounds shows its magnitude, with a minus sign exactly when it is negative.
pub proof fn lemma_out_of_bounds_message<V: Show>(i: usize, non_negative: bool)
    ensures
        Error::<V>::IndexOutOfBounds((i, non_negative)).message() == "index "@ + (if non_negative {
            Seq::<char>::empty()
        } else {
            seq!['-']
        }) + decimal(i as nat) + " is out of bounds"@,
{
    reveal_strlit("index ");
    reveal_strlit("index -");
    if non_negative {
        assert("index "@ + Seq::<char>::empty() =~= "index "@);
    } else {
        assert("index "@ + seq!['-'] =~= "index -"@);
    }
}

/// The position of a failure's variant in the declaration of [`Error`].
pub open spec fn variant<V>(e: Error<V>) -> int {
    match e {
        Error::Custom(_) => 0,
        Error::ObjKey(_) => 1,
        Error::Length(_) => 2,
        Error::Round(_) => 3,
        Error::FromJson(_, _) => 4,
        Error::ToNumber(_) => 5,
        Error::Sort(_) => 6,
        Error::Has(_, _) => 7,
        Error::Split => 8,
        Error::Keys(_) => 9,
        Error::Iter(_) => 10,
        Error::Neg(_) => 11,
        Error::MathOp(_, _, _) => 12,
        Error::Index(_) => 13,
        Error::IndexWith(_, _) => 14,
        Error::IndexOutOfBounds(_) => 15,
        Error::Isize(_) => 16,
        Error::Usize(_) => 17,
        Error::SliceAssign(_) => 18,
    }
}

/// The values that a failure carries, in order.
pub open spec fn values<V>(e: Error<V>) -> Seq<V> {
    match e {
        Error::Custom(_) | Error::Split | Error::IndexOutOfBounds(_) => seq![],
        Error::Has(v, k) => seq![v, k],
        Error::MathOp(l, r, _) => seq![l, r],
        Error::IndexWith(v, i) => seq![v, i],
        Error::ObjKey(v) | Error::Length(v) | Error::Round(v) | Error::FromJson(v, _)
        | Error::ToNumber(v) | Error::Sort(v) | Error::Keys(v) | Error::Iter(v) | Error::Neg(v)
        | Error::Index(v) | Error::Isize(v) | Error::Usize(v) | Error::SliceAssign(v) => seq![v],
    }
}

/// The text that a failure carries: a custom reason, or a parser's detail.
pub open spec fn text<V>(e: Error<V>) -> Option<Seq<char>> {
    match e {
        Error::Custom(s) => Some(s@),
        Error::FromJson(_, reason) => reason_text(reason),
        _ => None,
    }
}

/// The operator that a failure carries.
pub open spec fn operator<V>(e: Error<V>) -> Option<MathOp> {
    match e {
        Error::MathOp(_, _, op) => Some(op),
        _ => None,
    }
}

/// The index that a failure carries.
pub open spec fn bounds<V>(e: Error<V>) -> Option<(usize, bool)> {
    match e {
        Error::IndexOutOfBounds(p) => Some(p),
        _ => None,
    }
}

/// Whether two failures carry equal payloads: values pairwise equal by the
/// value type's own equality, and the same text, operator and index.
pub open spec fn same_payload<V: PartialEq + PartialEqSpec>(a: Error<V>, b: Error<V>) -> bool {
    &&& values(a).len() == values(b).len()
    &&& forall|i: int|
        0 <= i < values(a).len() ==> V::eq_spec(&#[trigger] values(a)[i], &values(b)[i])
    &&& text(a) == text(b)
    &&& operator(a) == operator(b)
    &&& bounds(a) == bounds(b)
}

/// Two failures are equal exactly when they are the same variant with equal
/// payloads: a differing variant, or a differing payload, is never equal.
pub proof fn lemma_equality<V: PartialEq + PartialEqSpec>(a: Error<V>, b: Error<V>)
    ensures
        a.eq_spec(&b) <==> (variant(a) == variant(b) && same_payload(a, b)),
        variant(a) != variant(b) ==> !a.eq_spec(&b),
{
    if variant(a) == variant(b) && same_payload(a, b) {
        if values(a).len() > 0 {
            assert(V::eq_spec(&values(a)[0], &values(b)[0]));
        }
        if values(a).len() > 1 {
            assert(V::eq_spec(&values(a)[1], &values(b)[1]));
        }
    }
}

} // verus!
