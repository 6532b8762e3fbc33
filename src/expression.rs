//! The planning half of the calculator's expression evaluator.
//!
//! The evaluator follows a fixed decision order rather than operator
//! precedence. Planning strips blanks and parentheses (flattening any
//! grouping), picks the branch, and splits the text into operand numerals.
//! Reading the numerals as 64-bit floats and doing the arithmetic happens
//! outside the verified library, following the returned plan.
use vstd::prelude::*;
use crate::text::{chars_of, find_first, find_last, first_index, last_index, slice};

verus! {

/// Unicode `White_Space`, the set that `char::is_whitespace` accepts.
pub open spec fn is_blank(c: char) -> bool {
    ('\t' <= c && c <= '\r') || c == ' ' || c == '\u{85}' || c == '\u{a0}' || c == '\u{1680}'
        || ('\u{2000}' <= c && c <= '\u{200a}') || c == '\u{2028}' || c == '\u{2029}'
        || c == '\u{202f}' || c == '\u{205f}' || c == '\u{3000}'
}

/// Characters that cleaning removes: blanks and both parentheses.
pub open spec fn is_discarded(c: char) -> bool {
    is_blank(c) || c == '(' || c == ')'
}

/// `s` with every discarded character removed, the rest kept in order.
pub open spec fn cleaned(s: Seq<char>) -> Seq<char>
    decreases s.len(),
{
    if s.len() == 0 {
        Seq::empty()
    } else if is_discarded(s.last()) {
        cleaned(s.drop_last())
    } else {
        cleaned(s.drop_last()).push(s.last())
    }
}

/// What is left to compute once the operator has been chosen.
pub enum Evaluation {
    /// `(a + b) * factor`
    SumTimes { a: Vec<char>, b: Vec<char>, factor: Vec<char> },
    /// `left * right`
    Product { left: Vec<char>, right: Vec<char> },
    /// `left + right`
    Sum { left: Vec<char>, right: Vec<char> },
    /// `left - right`
    Difference { left: Vec<char>, right: Vec<char> },
    /// `left / right`; when `right` reads as zero, `whole` is read as one numeral instead.
    Quotient { left: Vec<char>, right: Vec<char>, whole: Vec<char> },
    /// The whole text read as one numeral.
    Numeral { text: Vec<char> },
}

/// The mathematical model of an [`Evaluation`].
pub enum EvaluationModel {
    SumTimes { a: Seq<char>, b: Seq<char>, factor: Seq<char> },
    Product { left: Seq<char>, right: Seq<char> },
    Sum { left: Seq<char>, right: Seq<char> },
    Difference { left: Seq<char>, right: Seq<char> },
    Quotient { left: Seq<char>, right: Seq<char>, whole: Seq<char> },
    Numeral { text: Seq<char> },
}

impl View for Evaluation {
    type V = EvaluationModel;

    open spec fn view(&self) -> EvaluationModel {
        match self {
            Evaluation::SumTimes { a, b, factor } => EvaluationModel::SumTimes {
                a: a@,
                b: b@,
                factor: factor@,
            },
            Evaluation::Product { left, right } => EvaluationModel::Product {
                left: left@,
                right: right@,
            },
            Evaluation::Sum { left, right } => EvaluationModel::Sum { left: left@, right: right@ },
            Evaluation::Difference { left, right } => EvaluationModel::Difference {
                left: left@,
                right: right@,
            },
            Evaluation::Quotient { left, right, whole } => EvaluationModel::Quotient {
                left: left@,
                right: right@,
                whole: whole@,
            },
            Evaluation::Numeral { text } => EvaluationModel::Numeral { text: text@ },
        }
    }
}

/// The decision order, on already cleaned text `e`:
/// a `*` first (with a `+` left of it, the sum is taken first), then a `+`,
/// then the last `-` unless it leads, then a `/`, else a single numeral.
pub open spec fn plan_of(e: Seq<char>) -> EvaluationModel {
    match first_index(e, '*') {
        Some(p) => {
            let left = e.subrange(0, p);
            let right = e.subrange(p + 1, e.len() as int);
            match first_index(left, '+') {
                Some(q) => EvaluationModel::SumTimes {
                    a: left.subrange(0, q),
                    b: left.subrange(q + 1, left.len() as int),
                    factor: right,
                },
                None => EvaluationModel::Product { left, right },
            }
        },
        None => match first_index(e, '+') {
            Some(p) => EvaluationModel::Sum {
                left: e.subrange(0, p),
                right: e.subrange(p + 1, e.len() as int),
            },
            None => match last_index(e, '-') {
                Some(p) if p > 0 => EvaluationModel::Difference {
                    left: e.subrange(0, p),
                    right: e.subrange(p + 1, e.len() as int),
                },
                _ => match first_index(e, '/') {
                    Some(p) => EvaluationModel::Quotient {
                        left: e.subrange(0, p),
                        right: e.subrange(p + 1, e.len() as int),
                        whole: e,
                    },
                    None => EvaluationModel::Numeral { text: e },
                },
            },
        },
    }
}

/// Removes blanks and parentheses from an expression.
pub fn clean_expression(expr: &str) -> (r: Vec<char>)
    ensures
        r@ == cleaned(expr@),
{
    let chars = chars_of(expr);
    let mut out: Vec<char> = Vec::new();
    let mut i: usize = 0;
    while i < chars.len()
        invariant
            i <= chars@.len(),
            chars@ == expr@,
            out@ == cleaned(chars@.subrange(0, i as int)),
        decreases chars@.len() - i,
    {
        let c = chars[i];
        assert(chars@.subrange(0, i + 1).drop_last() =~= chars@.subrange(0, i as int));
        let blank = ('\t' <= c && c <= '\r') || c == ' ' || c == '\u{85}' || c == '\u{a0}'
            || c == '\u{1680}' || ('\u{2000}' <= c && c <= '\u{200a}') || c == '\u{2028}'
            || c == '\u{2029}' || c == '\u{202f}' || c == '\u{205f}' || c == '\u{3000}';
        if !(blank || c == '(' || c == ')') {
            out.push(c);
        }
        i = i + 1;
    }
    assert(chars@.subrange(0, i as int) =~= chars@);
    out
}

/// Chooses the branch for already cleaned text and splits out its operands.
pub fn plan_cleaned(e: &Vec<char>) -> (r: Evaluation)
    ensures
        r@ == plan_of(e@),
{
    let n = e.len();
    assert(e@.subrange(0, n as int) =~= e@);
    match find_first(e, '*') {
        Some(p) => {
            let left = slice(e, 0, p);
            let right = slice(e, p + 1, n);
            match find_first(&left, '+') {
                Some(q) => {
                    let a = slice(&left, 0, q);
                    let b = slice(&left, q + 1, left.len());
                    Evaluation::SumTimes { a, b, factor: right }
                },
                None => Evaluation::Product { left, right },
            }
        },
        None => match find_first(e, '+') {
            Some(p) => Evaluation::Sum { left: slice(e, 0, p), right: slice(e, p + 1, n) },
            None => {
                let minus = find_last(e, '-');
                match minus {
                    Some(p) if p > 0 => Evaluation::Difference {
                        left: slice(e, 0, p),
                        right: slice(e, p + 1, n),
                    },
                    _ => match find_first(e, '/') {
                        Some(p) => Evaluation::Quotient {
                            left: slice(e, 0, p),
                            right: slice(e, p + 1, n),
                            whole: slice(e, 0, n),
                        },
                        None => Evaluation::Numeral { text: slice(e, 0, n) },
                    },
                }
            },
        },
    }
}

/// Plans the evaluation of a raw expression: cleaning, then the decision order.
pub fn plan_expression(expr: &str) -> (r: Evaluation)
    ensures
        r@ == plan_of(cleaned(expr@)),
{
    let e = clean_expression(expr);
    plan_cleaned(&e)
}

} // verus!
