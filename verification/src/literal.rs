//! Literals: numbers, strings and booleans, as scalars.

use vstd::prelude::*;
use crate::query::{Scalar, SpecScalar};
use crate::refusal::{outside, outcome, refuse, QueryRefusal, SpecRefusal};
use crate::syntax::{SqlExpr, SqlUnaryOperator, SqlValue};

verus! {

pub open spec fn is_digit(c: char) -> bool {
    '0' <= c && c <= '9'
}

pub open spec fn all_digits(s: Seq<char>) -> bool {
    forall|i: int| 0 <= i < s.len() ==> #[trigger] is_digit(s[i])
}

/// The number that a sequence of decimal digits denotes.
pub open spec fn digits_value(s: Seq<char>) -> int
    decreases s.len(),
{
    if s.len() == 0 {
        0
    } else {
        digits_value(s.drop_last()) * 10 + (s.last() as int - '0' as int)
    }
}

/// The integer that a text in the form `[-]digits` denotes, where it fits in an `i64`.
pub open spec fn integer_of_text(text: Seq<char>) -> Option<int> {
    if text.len() > 0 && text[0] == '-' {
        let digits = text.skip(1);
        if digits.len() > 0 && all_digits(digits) && digits_value(digits) <= 0x8000_0000_0000_0000 {
            Some(-digits_value(digits))
        } else {
            None
        }
    } else if text.len() > 0 && all_digits(text) && digits_value(text) <= 0x7fff_ffff_ffff_ffff {
        Some(digits_value(text))
    } else {
        None
    }
}

/// The text of a number with its sign.
pub open spec fn spec_signed_text(number: Seq<char>, negative: bool) -> Seq<char> {
    if negative {
        seq!['-'] + number
    } else {
        number
    }
}

/// The text of a number, preceded by `-` where it is negative.
pub fn signed_text(number: &str, negative: bool) -> (r: String)
    ensures
        r@ == spec_signed_text(number@, negative),
{
    if negative {
        let mut text = String::from_str("-");
        proof {
            reveal_strlit("-");
        }
        text.append(number);
        return text;
    }
    String::from_str(number)
}

proof fn lemma_digits_step(s: Seq<char>, i: int)
    requires
        0 <= i < s.len(),
    ensures
        digits_value(s.take(i + 1)) == digits_value(s.take(i)) * 10 + (s[i] as int - '0' as int),
{
    assert(s.take(i + 1).drop_last() =~= s.take(i));
}

/// Reads `digits` (the text from `start` on) as a decimal magnitude no larger than `limit`.
fn magnitude(text: &str, start: usize, limit: u64) -> (r: Option<u64>)
    requires
        start <= text@.len(),
    ensures
        ({
            let digits = text@.skip(start as int);
            match r {
                Some(v) => digits.len() > 0 && all_digits(digits) && v == digits_value(digits) && v <= limit,
                None => !(digits.len() > 0 && all_digits(digits) && digits_value(digits) <= limit),
            }
        }),
{
    let len = text.unicode_len();
    let ghost digits = text@.skip(start as int);
    if start == len {
        return None;
    }
    let mut acc: u64 = 0;
    let mut too_big = false;
    let mut i = start;
    assert(digits.take(0) =~= Seq::<char>::empty());
    while i < len
        invariant
            start <= i <= len,
            len == text@.len(),
            digits == text@.skip(start as int),
            all_digits(digits.take(i - start)),
            too_big ==> digits_value(digits.take(i - start)) > limit,
            !too_big ==> acc == digits_value(digits.take(i - start)) && acc <= limit,
        decreases len - i,
    {
        let c = text.get_char(i);
        if c < '0' || c > '9' {
            assert(!is_digit(digits[i - start]));
            return None;
        }
        proof {
            lemma_digits_step(digits, i - start);
            assert(digits.take(i - start + 1) =~= digits.take(i - start).push(c));
        }
        if !too_big {
            let d = (c as u32 - '0' as u32) as u128;
            let next: u128 = acc as u128 * 10 + d;
            if next > limit as u128 {
                too_big = true;
            } else {
                acc = next as u64;
            }
        }
        i = i + 1;
    }
    assert(digits.take(len - start) =~= digits);
    if too_big {
        None
    } else {
        Some(acc)
    }
}

/// The `i64` that a text in the form `[-]digits` denotes, if it has that form and fits.
pub fn parse_integer(text: &str) -> (r: Option<i64>)
    ensures
        match r {
            Some(v) => integer_of_text(text@) == Some(v as int),
            None => integer_of_text(text@) is None,
        },
{
    let len = text.unicode_len();
    if len > 0 && text.get_char(0) == '-' {
        match magnitude(text, 1, 0x8000_0000_0000_0000) {
            Some(m) => {
                if m == 0x8000_0000_0000_0000 {
                    Some(i64::MIN)
                } else {
                    Some(-(m as i64))
                }
            },
            None => None,
        }
    } else {
        assert(text@.skip(0) =~= text@);
        match magnitude(text, 0, 0x7fff_ffff_ffff_ffff) {
            Some(m) => Some(m as i64),
            None => None,
        }
    }
}

pub open spec fn spec_integer_scalar(number: Seq<char>, negative: bool) -> Result<SpecScalar, SpecRefusal> {
    match integer_of_text(spec_signed_text(number, negative)) {
        Some(v) => Ok(SpecScalar::Integer(v)),
        None => refuse("this number"@),
    }
}

/// An integer literal, refused where it is not a plain `i64`.
pub fn integer_scalar(number: &str, negative: bool) -> (r: Result<Scalar, QueryRefusal>)
    ensures
        outcome(r) == spec_integer_scalar(number@, negative),
{
    let text = signed_text(number, negative);
    match parse_integer(text.as_str()) {
        Some(v) => Ok(Scalar::Integer(v)),
        None => Err(outside("this number")),
    }
}

/// A number with a fraction or an exponent, kept as its signed text.
pub fn decimal_scalar(number: &str, negative: bool) -> (r: Result<Scalar, QueryRefusal>)
    ensures
        outcome(r) == Ok::<SpecScalar, SpecRefusal>(SpecScalar::Decimal(spec_signed_text(number@, negative))),
{
    Ok(Scalar::Decimal(signed_text(number, negative)))
}

pub open spec fn is_decimal_text(number: Seq<char>) -> bool {
    number.contains('.') || number.contains('e') || number.contains('E')
}

/// Whether `text` holds any of the characters of `chars`.
fn contains_any(text: &str, chars: &str) -> (r: bool)
    ensures
        r == exists|i: int, j: int| 0 <= i < text@.len() && 0 <= j < chars@.len() && text@[i] == chars@[j],
{
    let n = text.unicode_len();
    let m = chars.unicode_len();
    let mut i: usize = 0;
    while i < n
        invariant
            n == text@.len(),
            m == chars@.len(),
            i <= n,
            forall|a: int, b: int| 0 <= a < i && 0 <= b < m ==> text@[a] != chars@[b],
        decreases n - i,
    {
        let c = text.get_char(i);
        let mut j: usize = 0;
        while j < m
            invariant
                n == text@.len(),
                m == chars@.len(),
                i < n,
                j <= m,
                c == text@[i as int],
                forall|a: int, b: int| 0 <= a < i && 0 <= b < m ==> text@[a] != chars@[b],
                forall|b: int| 0 <= b < j ==> c != chars@[b],
            decreases m - j,
        {
            if c == chars.get_char(j) {
                return true;
            }
            j = j + 1;
        }
        i = i + 1;
    }
    false
}

pub open spec fn spec_number_scalar(number: Seq<char>, negative: bool) -> Result<SpecScalar, SpecRefusal> {
    if is_decimal_text(number) {
        Ok(SpecScalar::Decimal(spec_signed_text(number, negative)))
    } else {
        spec_integer_scalar(number, negative)
    }
}

/// A numeric literal: a decimal where it has a fraction or an exponent, else an integer.
pub fn number_scalar(number: &str, negative: bool) -> (r: Result<Scalar, QueryRefusal>)
    ensures
        outcome(r) == spec_number_scalar(number@, negative),
{
    let marks = ".eE";
    proof {
        reveal_strlit(".eE");
    }
    let decimal = contains_any(number, marks);
    proof {
        if decimal {
            let (i, j) = choose|i: int, j: int| 0 <= i < number@.len() && 0 <= j < marks@.len() && number@[i] == marks@[j];
            assert(number@.contains(number@[i]));
        } else {
            if number@.contains('.') {
                let i = choose|i: int| 0 <= i < number@.len() && number@[i] == '.';
                assert(number@[i] == marks@[0]);
            }
            if number@.contains('e') {
                let i = choose|i: int| 0 <= i < number@.len() && number@[i] == 'e';
                assert(number@[i] == marks@[1]);
            }
            if number@.contains('E') {
                let i = choose|i: int| 0 <= i < number@.len() && number@[i] == 'E';
                assert(number@[i] == marks@[2]);
            }
        }
    }
    if decimal {
        return decimal_scalar(number, negative);
    }
    integer_scalar(number, negative)
}

pub open spec fn spec_value_scalar(value: SqlValue) -> Result<SpecScalar, SpecRefusal> {
    match value {
        SqlValue::Number(number, _) => spec_number_scalar(number@, false),
        SqlValue::SingleQuotedString(s) => Ok(SpecScalar::Text(s@)),
        SqlValue::Boolean(b) => Ok(SpecScalar::Boolean(b)),
        SqlValue::Null => refuse("NULL"@),
        SqlValue::Other => refuse("this literal"@),
    }
}

/// The scalar that a literal denotes.
pub fn value_scalar(value: &SqlValue) -> (r: Result<Scalar, QueryRefusal>)
    ensures
        outcome(r) == spec_value_scalar(*value),
{
    match value {
        SqlValue::Number(number, _) => number_scalar(number.as_str(), false),
        SqlValue::SingleQuotedString(s) => Ok(Scalar::Text(s.clone())),
        SqlValue::Boolean(b) => Ok(Scalar::Boolean(*b)),
        SqlValue::Null => Err(outside("NULL")),
        SqlValue::Other => Err(outside("this literal")),
    }
}

pub open spec fn spec_negated(expr: SqlExpr) -> Result<SpecScalar, SpecRefusal> {
    match expr {
        SqlExpr::Value(SqlValue::Number(number, _)) => spec_number_scalar(number@, true),
        _ => refuse("this expression"@),
    }
}

/// The scalar of `-expr`, where `expr` is a number.
pub fn negated(expr: &SqlExpr) -> (r: Result<Scalar, QueryRefusal>)
    ensures
        outcome(r) == spec_negated(*expr),
{
    match expr {
        SqlExpr::Value(SqlValue::Number(number, _)) => number_scalar(number.as_str(), true),
        _ => Err(outside("this expression")),
    }
}

pub open spec fn spec_literal_of(expr: SqlExpr) -> Result<SpecScalar, SpecRefusal> {
    match expr {
        SqlExpr::Value(value) => spec_value_scalar(value),
        SqlExpr::UnaryOp { op: SqlUnaryOperator::Minus, expr } => spec_negated(*expr),
        _ => refuse("this literal"@),
    }
}

/// The scalar that a literal expression denotes.
pub fn literal_of(expr: &SqlExpr) -> (r: Result<Scalar, QueryRefusal>)
    ensures
        outcome(r) == spec_literal_of(*expr),
{
    match expr {
        SqlExpr::Value(value) => value_scalar(value),
        SqlExpr::UnaryOp { op: SqlUnaryOperator::Minus, expr } => negated(expr),
        _ => Err(outside("this literal")),
    }
}

pub open spec fn spec_value_of(expr: SqlExpr) -> Result<Option<SpecScalar>, SpecRefusal> {
    match expr {
        SqlExpr::Value(SqlValue::Null) => Ok(None),
        _ => match spec_literal_of(expr) {
            Ok(s) => Ok(Some(s)),
            Err(e) => Err(e),
        },
    }
}

pub open spec fn opt_outcome(r: Result<Option<Scalar>, QueryRefusal>) -> Result<Option<SpecScalar>, SpecRefusal> {
    match r {
        Ok(Some(s)) => Ok(Some(s@)),
        Ok(None) => Ok(None),
        Err(e) => Err(e@),
    }
}

/// The value written into a column: `None` for NULL, else the literal's scalar.
pub fn value_of(expr: &SqlExpr) -> (r: Result<Option<Scalar>, QueryRefusal>)
    ensures
        opt_outcome(r) == spec_value_of(*expr),
{
    match expr {
        SqlExpr::Value(SqlValue::Null) => Ok(None),
        _ => match literal_of(expr) {
            Ok(s) => Ok(Some(s)),
            Err(e) => Err(e),
        },
    }
}

} // verus!
