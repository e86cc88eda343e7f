//! What goes over the line to the programs that are run, and what comes back.
//!
//! A request is one line, and so is the answer. A question put to the
//! precondition of a contract names the contract by its index in its pool
//! and carries the encoded values of the inputs; the answer is `true` or
//! `false`, or nothing where the precondition gave no verdict.

use crate::marshalling::{bad_variant, fields_view, values_view, ExpectError, Value, ValueV};
use vstd::prelude::*;
use vstd::string::StringExecFns;

verus! {

/// The question whether the values `contents` meet the precondition of
/// contract `id`.
pub open spec fn precondition_question(id: nat, contents: Seq<ValueV>) -> ValueV {
    ValueV::Object(seq![("id"@, ValueV::Number(id as int)), ("contents"@, ValueV::Array(contents))])
}

/// The question whether the values `inputs` meet the precondition of
/// contract `nth`.
pub fn precondition_request(nth: usize, inputs: Vec<Value>) -> (r: Value)
    ensures
        r@ == precondition_question(nth as nat, values_view(inputs@)),
{
    let ghost contents = values_view(inputs@);
    let mut fields: Vec<(String, Value)> = Vec::new();
    fields.push((String::from_str("id"), Value::Number(nth as i128)));
    fields.push((String::from_str("contents"), Value::Array(inputs)));
    assert(fields@[0].0@ == "id"@);
    assert(fields@[1].0@ == "contents"@);
    assert(fields@[0].1@ == ValueV::Number(nth as int));
    assert(fields@[1].1@ == ValueV::Array(contents));
    let r = Value::Object(fields);
    assert(r@->Object_0 =~= precondition_question(nth as nat, values_view(inputs@))->Object_0);
    r
}

/// The verdict that the answer `v` carries, if `v` is an answer: `null`
/// says that the precondition gave no verdict.
pub open spec fn verdict(v: ValueV) -> Option<Option<bool>> {
    match v {
        ValueV::Null => Some(None),
        ValueV::Bool(b) => Some(Some(b)),
        _ => None,
    }
}

/// The verdict that the answer `response` carries.
pub fn precondition_verdict(response: &Value) -> (r: Result<Option<bool>, ExpectError>)
    ensures
        match r {
            Ok(v) => verdict(response@) == Some(v),
            Err(e) => verdict(response@).is_none() && e is BadVariant && e->repr@ == response@,
        },
{
    match response {
        Value::Null => Ok(None),
        Value::Bool(b) => Ok(Some(*b)),
        _ => Err(bad_variant(response)),
    }
}

/// What running one term gave: the source text of its value, or the message
/// of its failure.
pub enum OutcomeV {
    Value(Seq<char>),
    Failure(Seq<char>),
}

/// The outcome that `v` encodes: an object with the one field `Ok`, or the
/// one field `Err`, that is a string.
pub open spec fn outcome(v: ValueV) -> Option<OutcomeV> {
    match v {
        ValueV::Object(fields) => if fields.len() == 1 {
            match fields[0].1 {
                ValueV::String(s) => if fields[0].0 == "Ok"@ {
                    Some(OutcomeV::Value(s))
                } else if fields[0].0 == "Err"@ {
                    Some(OutcomeV::Failure(s))
                } else {
                    None
                },
                _ => None,
            }
        } else {
            None
        },
        _ => None,
    }
}

/// The view of what running one term gave.
pub open spec fn outcome_view(o: Result<String, String>) -> OutcomeV {
    match o {
        Ok(s) => OutcomeV::Value(s@),
        Err(s) => OutcomeV::Failure(s@),
    }
}

/// The outcome that `v` encodes.
pub fn decode_outcome(v: &Value) -> (r: Result<Result<String, String>, ExpectError>)
    ensures
        match r {
            Ok(o) => outcome(v@) == Some(outcome_view(o)),
            Err(e) => outcome(v@).is_none() && e is BadVariant && e->repr@ == v@,
        },
{
    match v {
        Value::Object(fields) => {
            if fields.len() != 1 {
                return Err(bad_variant(v));
            }
            assert(fields_view(fields@)[0] == (fields@[0].0@, fields@[0].1@));
            let text = match &fields[0].1 {
                Value::String(s) => s,
                _ => {
                    return Err(bad_variant(v));
                },
            };
            if crate::names::is_text(&fields[0].0, "Ok") {
                Ok(Ok(text.clone()))
            } else if crate::names::is_text(&fields[0].0, "Err") {
                Ok(Err(text.clone()))
            } else {
                Err(bad_variant(v))
            }
        },
        _ => Err(bad_variant(v)),
    }
}

/// The outcomes that the answer of a batch carries, one for each term, in
/// the order of the terms: the answer is a list of outcomes.
pub open spec fn outcomes(v: ValueV) -> Option<Seq<OutcomeV>> {
    match v {
        ValueV::Array(items) => if forall|i: int|
            0 <= i < items.len() ==> (#[trigger] outcome(items[i])).is_some() {
            Some(Seq::new(items.len(), |i: int| outcome(items[i]).unwrap()))
        } else {
            None
        },
        _ => None,
    }
}

/// The outcomes that the answer `response` of a batch carries.
pub fn batch_outcomes(response: &Value) -> (r: Result<Vec<Result<String, String>>, ExpectError>)
    ensures
        match r {
            Ok(v) => outcomes(response@).is_some() && outcomes(response@).unwrap() == Seq::new(
                v@.len(),
                |i: int| outcome_view(v@[i]),
            ),
            Err(_) => outcomes(response@).is_none(),
        },
{
    match response {
        Value::Array(items) => {
            let ghost iv = values_view(items@);
            let mut r: Vec<Result<String, String>> = Vec::new();
            let mut i: usize = 0;
            while i < items.len()
                invariant
                    i <= items.len(),
                    iv == values_view(items@),
                    response@ == ValueV::Array(iv),
                    r@.len() == i,
                    forall|j: int|
                        0 <= j < i ==> (#[trigger] outcome(iv[j])) == Some(outcome_view(r@[j])),
                decreases items.len() - i,
            {
                assert(iv[i as int] == items@[i as int]@);
                match decode_outcome(&items[i]) {
                    Ok(o) => {
                        r.push(o);
                    },
                    Err(e) => {
                        assert(outcome(iv[i as int]).is_none());
                        return Err(e);
                    },
                }
                i += 1;
            }
            assert(outcomes(response@).unwrap() =~= Seq::new(
                r@.len(),
                |i: int| outcome_view(r@[i]),
            ));
            Ok(r)
        },
        _ => Err(bad_variant(response)),
    }
}

/// Whether `req` can go over the line as one request: it holds no line
/// feed.
pub open spec fn one_line(req: Seq<char>) -> bool {
    forall|i: int| 0 <= i < req.len() ==> req[i] != '\n'
}

/// The line that carries the request `req`; `None` where `req` would not
/// stay on one line.
pub fn request_line(req: &str) -> (r: Option<String>)
    ensures
        match r {
            Some(line) => one_line(req@) && line@ == req@ + "\n"@,
            None => !one_line(req@),
        },
{
    let len = req.unicode_len();
    let mut i: usize = 0;
    while i < len
        invariant
            i <= len,
            len == req@.len(),
            forall|j: int| 0 <= j < i ==> req@[j] != '\n',
        decreases len - i,
    {
        if req.get_char(i) == '\n' {
            return None;
        }
        i += 1;
    }
    let mut line = String::from_str(req);
    line.append("\n");
    Some(line)
}

} // verus!
