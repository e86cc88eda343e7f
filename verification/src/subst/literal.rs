//! Integer literals, as far as references by position need them.
//!
//! A literal is held by its source text. What the text denotes as an integer
//! literal is for `syn` to say: the digits of its value in base ten, whatever
//! the base, the separators and the suffix it is written with.

use crate::decimal::{parse_unsigned, unsigned_value};
use vstd::prelude::*;

verus! {

/// The name of what `syn` makes of `text` read as an integer literal: the
/// digits of its value in base ten; `None` where `text` is no integer
/// literal.
pub uninterp spec fn base10_digits(text: Seq<char>) -> Option<Seq<char>>;

/// Calls `syn::parse_str::<syn::LitInt>` on `text`, and `LitInt::base10_digits`
/// on the literal where there is one. Trusted: what comes out depends on the
/// text alone, and is given the name `base10_digits`.
#[verifier::external_body]
fn literal_digits(text: &str) -> (r: Option<String>)
    ensures
        match r {
            Some(digits) => base10_digits(text@) == Some(digits@),
            None => base10_digits(text@).is_none(),
        },
{
    match syn::parse_str::<syn::LitInt>(text) {
        Ok(literal) => Some(literal.base10_digits().to_owned()),
        Err(_) => None,
    }
}

/// The index that the digits `digits` of a literal give: the number they
/// denote, read as an unsigned number, where it fits 32 bits.
pub open spec fn index_of_digits(digits: Option<Seq<char>>) -> Option<nat> {
    match digits {
        Some(d) => match unsigned_value(d) {
            Some(v) => if v <= u32::MAX {
                Some(v)
            } else {
                None
            },
            None => None,
        },
        None => None,
    }
}

/// The index that the literal `text` gives: the value of the integer
/// literal, where `text` is one and the value fits 32 bits.
pub open spec fn literal_index(text: Seq<char>) -> Option<nat> {
    index_of_digits(base10_digits(text))
}

/// The index that the digits `digits` of a literal give.
pub fn digits_index(digits: Option<&str>) -> (r: Option<u32>)
    ensures
        match r {
            Some(k) => index_of_digits(
                match digits {
                    Some(d) => Some(d@),
                    None => None,
                },
            ) == Some(k as nat),
            None => index_of_digits(
                match digits {
                    Some(d) => Some(d@),
                    None => None,
                },
            ).is_none(),
        },
{
    match digits {
        Some(d) => match parse_unsigned(d) {
            Some(v) => if v <= u32::MAX as u128 {
                Some(v as u32)
            } else {
                None
            },
            None => None,
        },
        None => None,
    }
}

/// The index that the literal `text` gives.
pub fn index_of_literal(text: &str) -> (r: Option<u32>)
    ensures
        match r {
            Some(k) => literal_index(text@) == Some(k as nat),
            None => literal_index(text@).is_none(),
        },
{
    match literal_digits(text) {
        Some(digits) => digits_index(Some(digits.as_str())),
        None => digits_index(None),
    }
}

} // verus!
