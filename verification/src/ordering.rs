//! The encoding of three-way orderings.

use crate::marshalling::{
    lemma_tagged_shape, parts_n, tagged, values_of, ExpectError, Value, ValueReprAPI, ValueV,
};
use std::cmp::Ordering;
use vstd::prelude::*;
use vstd::string::StringExecFns;

verus! {

/// The tag of an ordering.
pub open spec fn ordering_tag(o: Ordering) -> Seq<char> {
    match o {
        Ordering::Less => "Less"@,
        Ordering::Equal => "Equal"@,
        Ordering::Greater => "Greater"@,
    }
}

/// The encoding of an ordering: a composite value without parts.
pub open spec fn encode_ordering(o: Ordering) -> ValueV {
    tagged(ordering_tag(o), Seq::empty())
}

/// The ordering that `repr` encodes, if it encodes one.
pub open spec fn decode_ordering(repr: ValueV) -> Option<Ordering> {
    if parts_n(repr, "Less"@, 0).is_some() {
        Some(Ordering::Less)
    } else if parts_n(repr, "Equal"@, 0).is_some() {
        Some(Ordering::Equal)
    } else if parts_n(repr, "Greater"@, 0).is_some() {
        Some(Ordering::Greater)
    } else {
        None
    }
}

/// The three tags differ.
pub proof fn lemma_ordering_tags_differ()
    ensures
        "Less"@ != "Equal"@,
        "Less"@ != "Greater"@,
        "Equal"@ != "Greater"@,
{
    reveal_strlit("Less");
    reveal_strlit("Equal");
    reveal_strlit("Greater");
    assert("Less"@.len() == 4);
    assert("Equal"@.len() == 5);
    assert("Greater"@.len() == 7);
}

/// Decoding the encoding of an ordering gives the ordering.
pub proof fn ordering_round_trip(o: Ordering)
    ensures
        decode_ordering(encode_ordering(o)) == Some(o),
{
    lemma_ordering_tags_differ();
    lemma_tagged_shape(ordering_tag(o), Seq::<ValueV>::empty());
}

/// The encoding of an ordering.
pub fn ordering_to_value_repr(o: Ordering) -> (r: Value)
    ensures
        r@ == encode_ordering(o),
{
    let items: Vec<Value> = Vec::new();
    assert(values_of(items@) =~= Seq::<ValueV>::empty());
    match o {
        Ordering::Less => Value::mk_tagged("Less", items.as_slice()),
        Ordering::Equal => Value::mk_tagged("Equal", items.as_slice()),
        Ordering::Greater => Value::mk_tagged("Greater", items.as_slice()),
    }
}

/// The ordering that `repr` encodes; an error where it encodes none.
pub fn ordering_from_value_repr(repr: &Value) -> (r: Result<Ordering, ExpectError>)
    ensures
        match r {
            Ok(o) => decode_ordering(repr@) == Some(o),
            Err(_) => decode_ordering(repr@).is_none(),
        },
{
    if repr.expect_tagged_n::<0>("Less").is_ok() {
        Ok(Ordering::Less)
    } else if repr.expect_tagged_n::<0>("Equal").is_ok() {
        Ok(Ordering::Equal)
    } else {
        match repr.expect_tagged_n::<0>("Greater") {
            Ok(_) => Ok(Ordering::Greater),
            Err(e) => Err(e),
        }
    }
}

/// The source text of an ordering.
pub open spec fn ordering_rust_expr(o: Ordering) -> Seq<char> {
    "std::cmp::Ordering"@ + "::"@ + ordering_tag(o)
}

/// The source text of an ordering.
pub fn ordering_to_rust_expr(o: Ordering) -> (r: String)
    ensures
        r@ == ordering_rust_expr(o),
{
    let mut r = ordering_to_rust_type();
    r.append("::");
    match o {
        Ordering::Less => r.append("Less"),
        Ordering::Equal => r.append("Equal"),
        Ordering::Greater => r.append("Greater"),
    }
    r
}

/// The source text of the type of orderings.
pub fn ordering_to_rust_type() -> (r: String)
    ensures
        r@ == "std::cmp::Ordering"@,
{
    String::from_str("std::cmp::Ordering")
}

} // verus!
