use jaq_error::decimal::decimal_string;
use jaq_error::error::passive;
use jaq_error::Error;
use jaq_parse::MathOp;

fn s(t: &str) -> String {
    String::from(t)
}

fn every_variant() -> Vec<Error<String>> {
    vec![
        Error::Custom(s("assertion failed")),
        Error::ObjKey(s("[]")),
        Error::Length(s("true")),
        Error::Round(s("\"a\"")),
        Error::FromJson(s("\"{\""), None),
        Error::FromJson(s("\"{\""), Some(s("unexpected end"))),
        Error::ToNumber(s("\"x\"")),
        Error::Sort(s("{}")),
        Error::Has(s("1"), s("\"a\"")),
        Error::Split,
        Error::Keys(s("null")),
        Error::Iter(s("0")),
        Error::Neg(s("\"a\"")),
        Error::MathOp(s("1"), s("\"a\""), MathOp::Add),
        Error::Index(s("1")),
        Error::IndexWith(s("[]"), s("\"a\"")),
        Error::IndexOutOfBounds((3, true)),
        Error::Isize(s("1.5")),
        Error::Usize(s("-1")),
        Error::SliceAssign(s("1")),
    ]
}

#[test]
fn every_variant_renders_non_empty() {
    for e in every_variant() {
        assert!(!e.to_string().is_empty());
    }
}

#[test]
fn empty_custom_reason_renders_empty() {
    assert_eq!(Error::<String>::Custom(s("")).to_string(), "");
}

#[test]
fn messages_of_single_value_variants() {
    assert_eq!(Error::<String>::Custom(s("my reason")).to_string(), "my reason");
    assert_eq!(Error::ObjKey(s("[]")).to_string(), "cannot use [] as object key");
    assert_eq!(Error::Length(s("true")).to_string(), "true has no length");
    assert_eq!(Error::Round(s("\"a\"")).to_string(), "cannot round \"a\"");
    assert_eq!(Error::ToNumber(s("\"x\"")).to_string(), "cannot parse \"x\" as number");
    assert_eq!(Error::Sort(s("{}")).to_string(), "cannot sort {}, as it is not an array");
    assert_eq!(Error::Keys(s("null")).to_string(), "null has no keys");
    assert_eq!(Error::Iter(s("0")).to_string(), "cannot iterate over 0");
    assert_eq!(Error::Neg(s("\"a\"")).to_string(), "cannot negate \"a\"");
    assert_eq!(Error::Index(s("1")).to_string(), "cannot index 1");
    assert_eq!(Error::Isize(s("1.5")).to_string(), "cannot use 1.5 as (signed) integer");
    assert_eq!(Error::Usize(s("-1")).to_string(), "cannot use -1 as unsigned integer");
    assert_eq!(
        Error::SliceAssign(s("1")).to_string(),
        "cannot assign non-array (1) to an array slice"
    );
}

#[test]
fn messages_of_two_value_variants() {
    assert_eq!(
        Error::Has(s("1"), s("\"a\"")).to_string(),
        "cannot check whether 1 has key \"a\""
    );
    assert_eq!(
        Error::IndexWith(s("[]"), s("\"a\"")).to_string(),
        "cannot index [] with \"a\""
    );
    assert_eq!(
        Error::<String>::Split.to_string(),
        "split input and separator must be strings"
    );
}

#[test]
fn index_out_of_bounds_non_negative() {
    assert_eq!(
        Error::<String>::IndexOutOfBounds((5, true)).to_string(),
        "index 5 is out of bounds"
    );
}

#[test]
fn index_out_of_bounds_negative() {
    assert_eq!(
        Error::<String>::IndexOutOfBounds((5, false)).to_string(),
        "index -5 is out of bounds"
    );
}

#[test]
fn index_out_of_bounds_extremes() {
    assert_eq!(
        Error::<String>::IndexOutOfBounds((0, true)).to_string(),
        "index 0 is out of bounds"
    );
    assert_eq!(
        Error::<String>::IndexOutOfBounds((usize::MAX, false)).to_string(),
        format!("index -{} is out of bounds", usize::MAX)
    );
}

#[test]
fn math_op_divided() {
    assert_eq!(
        Error::MathOp(s("1"), s("0"), MathOp::Div).to_string(),
        "1 and 0 cannot be divided"
    );
}

#[test]
fn math_op_remainder() {
    assert_eq!(
        Error::MathOp(s("1"), s("0"), MathOp::Rem).to_string(),
        "1 and 0 cannot be divided (remainder)"
    );
}

#[test]
fn math_op_every_word() {
    assert_eq!(
        Error::MathOp(s("[]"), s("{}"), MathOp::Add).to_string(),
        "[] and {} cannot be added"
    );
    assert_eq!(
        Error::MathOp(s("[]"), s("{}"), MathOp::Sub).to_string(),
        "[] and {} cannot be subtracted"
    );
    assert_eq!(
        Error::MathOp(s("[]"), s("{}"), MathOp::Mul).to_string(),
        "[] and {} cannot be multiplied"
    );
}

#[test]
fn operator_words_are_pairwise_distinct() {
    let ops = [MathOp::Add, MathOp::Sub, MathOp::Mul, MathOp::Div, MathOp::Rem];
    let words: Vec<&str> = ops.iter().map(passive).collect();
    assert_eq!(
        words,
        vec!["added", "subtracted", "multiplied", "divided", "divided (remainder)"]
    );
    for i in 0..words.len() {
        for j in 0..words.len() {
            assert_eq!(i == j, words[i] == words[j]);
        }
    }
}

#[test]
fn from_json_without_reason() {
    assert_eq!(
        Error::FromJson(s("\"{\""), None).to_string(),
        "cannot parse \"{\" as JSON"
    );
}

#[test]
fn from_json_with_reason() {
    assert_eq!(
        Error::FromJson(s("\"{\""), Some(s("x"))).to_string(),
        "cannot parse \"{\" as JSON: x"
    );
}

#[test]
fn decimal_rendering() {
    assert_eq!(decimal_string(0), "0");
    assert_eq!(decimal_string(7), "7");
    assert_eq!(decimal_string(10), "10");
    assert_eq!(decimal_string(12345), "12345");
    assert_eq!(decimal_string(usize::MAX), usize::MAX.to_string());
}
