//! The encoding of values that travel between this library and the programs
//! it runs.
//!
//! Every composite value is encoded as an object with a `tag`, a string, and
//! `data`, a list of encoded values. Booleans, strings and the integers of up
//! to 64 bits are encoded as themselves; a character is a string of one
//! character; the integers of 128 bits are encoded as decimal text.

use crate::decimal::{
    decimal_text, decimal_value, lemma_decimal_round_trip, lemma_decimal_starts_with_digit,
    lemma_unsigned_round_trip, parse_decimal, parse_unsigned, to_decimal, unsigned_value,
};
use crate::names::is_text;
use vstd::prelude::*;
use vstd::string::StringExecFns;

mod tuples;

verus! {

/// An encoded value.
pub enum ValueV {
    Null,
    Bool(bool),
    Number(int),
    String(Seq<char>),
    Array(Seq<ValueV>),
    Object(Seq<(Seq<char>, ValueV)>),
}

/// An encoded value.
#[derive(Debug, PartialEq, Eq)]
pub enum Value {
    Null,
    Bool(bool),
    Number(i128),
    String(String),
    Array(Vec<Value>),
    Object(Vec<(String, Value)>),
}

/// The views of a sequence of values, in order.
pub open spec fn values_view(v: Seq<Value>) -> Seq<ValueV>
    decreases v,
{
    Seq::new(v.len(), |i: int| if 0 <= i < v.len() { value_view(v[i]) } else { arbitrary() })
}

/// The views of the fields of an object, in order.
pub open spec fn fields_view(v: Seq<(String, Value)>) -> Seq<(Seq<char>, ValueV)>
    decreases v,
{
    Seq::new(
        v.len(),
        |i: int|
            if 0 <= i < v.len() {
                (v[i].0@, value_view(v[i].1))
            } else {
                arbitrary()
            },
    )
}

/// The view of a value.
pub open spec fn value_view(v: Value) -> ValueV
    decreases v,
{
    match v {
        Value::Null => ValueV::Null,
        Value::Bool(b) => ValueV::Bool(b),
        Value::Number(n) => ValueV::Number(n as int),
        Value::String(s) => ValueV::String(s@),
        Value::Array(items) => ValueV::Array(values_view(items@)),
        Value::Object(fields) => ValueV::Object(fields_view(fields@)),
    }
}

impl View for Value {
    type V = ValueV;

    open spec fn view(&self) -> ValueV {
        value_view(*self)
    }
}

/// A copy of a sequence of values.
pub fn copy_values(v: &[Value]) -> (r: Vec<Value>)
    ensures
        values_view(r@) == values_view(v@),
    decreases v@,
{
    let mut r: Vec<Value> = Vec::new();
    let mut i: usize = 0;
    while i < v.len()
        invariant
            i <= v.len(),
            r@.len() == i,
            forall|j: int| 0 <= j < i ==> r@[j]@ == v@[j]@,
        decreases v.len() - i,
    {
        r.push(copy_value(&v[i]));
        i += 1;
    }
    assert(values_view(r@) =~= values_view(v@));
    r
}

/// A copy of a value.
pub fn copy_value(v: &Value) -> (r: Value)
    ensures
        r@ == v@,
    decreases v,
{
    match v {
        Value::Null => Value::Null,
        Value::Bool(b) => Value::Bool(*b),
        Value::Number(n) => Value::Number(*n),
        Value::String(s) => Value::String(s.clone()),
        Value::Array(items) => Value::Array(copy_values(items.as_slice())),
        Value::Object(fields) => {
            let mut r: Vec<(String, Value)> = Vec::new();
            let mut i: usize = 0;
            while i < fields.len()
                invariant
                    i <= fields.len(),
                    r@.len() == i,
                    v is Object,
                    v->Object_0 == *fields,
                    forall|j: int|
                        0 <= j < i ==> r@[j].0@ == fields@[j].0@ && r@[j].1@ == fields@[j].1@,
                decreases fields.len() - i,
            {
                let field = &fields[i];
                r.push((field.0.clone(), copy_value(&field.1)));
                i += 1;
            }
            assert(fields_view(r@) =~= fields_view(fields@));
            Value::Object(r)
        },
    }
}

impl Clone for Value {
    fn clone(&self) -> (r: Self)
        ensures
            r@ == self@,
    {
        copy_value(self)
    }
}

/// Why an encoded value is not what was expected.
#[derive(Debug, PartialEq, Eq)]
#[allow(inconsistent_fields)]
pub enum ExpectError {
    /// The value is tagged, with another tag than the one expected.
    BadTag { got: String, expected: String },
    /// The value has not the shape expected.
    BadVariant { repr: Value },
    /// The value is tagged as expected, with another number of parts.
    BadArity { expected: usize, got: usize },
}

/// The message of an error about a tag.
pub open spec fn bad_tag_message(got: Seq<char>, expected: Seq<char>) -> Seq<char> {
    "Got `ValueRepr::List`, but got tag `"@ + got + "` instead of expected `"@ + expected + "`"@
}

/// The message of an error about a shape.
pub open spec fn bad_variant_message() -> Seq<char> {
    "Expected `ValueRepr::List`, got a value of another shape"@
}

/// The message of an error about a number of parts.
pub open spec fn bad_arity_message(expected: nat, got: nat) -> Seq<char> {
    "Got `ValueRepr::List`, but got "@ + decimal_text(got) + " values instead of expected "@
        + decimal_text(expected) + " values"@
}

impl ExpectError {
    /// The message of the error.
    pub fn message(&self) -> (r: String)
        ensures
            r@ == (match self {
                ExpectError::BadTag { got, expected } => bad_tag_message(got@, expected@),
                ExpectError::BadVariant { repr } => bad_variant_message(),
                ExpectError::BadArity { expected, got } => bad_arity_message(
                    *expected as nat,
                    *got as nat,
                ),
            }),
    {
        match self {
            ExpectError::BadTag { got, expected } => {
                let mut r = String::from_str("Got `ValueRepr::List`, but got tag `");
                r.append(got.as_str());
                r.append("` instead of expected `");
                r.append(expected.as_str());
                r.append("`");
                r
            },
            ExpectError::BadVariant { repr } => String::from_str(
                "Expected `ValueRepr::List`, got a value of another shape",
            ),
            ExpectError::BadArity { expected, got } => {
                let mut r = String::from_str("Got `ValueRepr::List`, but got ");
                r.append(to_decimal(*got as u128).as_str());
                r.append(" values instead of expected ");
                r.append(to_decimal(*expected as u128).as_str());
                r.append(" values");
                r
            },
        }
    }
}

/// The first field named `key` among `fields`.
pub open spec fn field(fields: Seq<(Seq<char>, ValueV)>, key: Seq<char>) -> Option<ValueV>
    decreases fields.len(),
{
    if fields.len() == 0 {
        None
    } else if fields[0].0 == key {
        Some(fields[0].1)
    } else {
        field(fields.drop_first(), key)
    }
}

/// The composite value with the tag `tag` and the parts `data`.
pub open spec fn tagged(tag: Seq<char>, data: Seq<ValueV>) -> ValueV {
    ValueV::Object(seq![("tag"@, ValueV::String(tag)), ("data"@, ValueV::Array(data))])
}

/// What an encoded value looks like to who expects a composite value.
pub enum Shape {
    /// No composite value.
    Other,
    /// A composite value with this tag and these parts.
    Tagged { tag: Seq<char>, data: Seq<ValueV> },
}

/// The shape of `v`: a composite value is an object with a field `data` that
/// is a list and a field `tag` that is a string.
pub open spec fn shape(v: ValueV) -> Shape {
    match v {
        ValueV::Object(fields) => match (field(fields, "data"@), field(fields, "tag"@)) {
            (Some(ValueV::Array(data)), Some(ValueV::String(tag))) => Shape::Tagged { tag, data },
            _ => Shape::Other,
        },
        _ => Shape::Other,
    }
}

/// The parts of `v`, where `v` is a composite value tagged `tag`.
pub open spec fn parts(v: ValueV, tag: Seq<char>) -> Option<Seq<ValueV>> {
    match shape(v) {
        Shape::Tagged { tag: got, data } => if got == tag {
            Some(data)
        } else {
            None
        },
        Shape::Other => None,
    }
}

/// The parts of `v`, where `v` is a composite value tagged `tag` with `n`
/// parts.
pub open spec fn parts_n(v: ValueV, tag: Seq<char>, n: int) -> Option<Seq<ValueV>> {
    match parts(v, tag) {
        Some(data) => if data.len() == n {
            Some(data)
        } else {
            None
        },
        None => None,
    }
}

/// The texts `"tag"` and `"data"` differ.
pub proof fn lemma_tag_is_not_data()
    ensures
        "tag"@ != "data"@,
        "tag"@.len() == 3,
        "data"@.len() == 4,
{
    reveal_strlit("tag");
    reveal_strlit("data");
    assert("tag"@.len() == 3);
    assert("data"@.len() == 4);
}

/// A composite value has the shape it was made with.
pub proof fn lemma_tagged_shape(tag: Seq<char>, data: Seq<ValueV>)
    ensures
        shape(tagged(tag, data)) == (Shape::Tagged { tag, data }),
        parts(tagged(tag, data), tag) == Some(data),
        forall|other: Seq<char>| other != tag ==> parts(tagged(tag, data), other).is_none(),
{
    lemma_tag_is_not_data();
    let fields = seq![("tag"@, ValueV::String(tag)), ("data"@, ValueV::Array(data))];
    reveal_with_fuel(field, 3);
    assert(fields.drop_first()[0] == ("data"@, ValueV::Array(data)));
    assert(field(fields, "tag"@) == Some(ValueV::String(tag)));
    assert(field(fields, "data"@) == Some(ValueV::Array(data)));
}

/// The first field named `key` of an object.
pub fn get_field<'a>(fields: &'a Vec<(String, Value)>, key: &str) -> (r: Option<&'a Value>)
    ensures
        match r {
            Some(v) => field(fields_view(fields@), key@) == Some(v@),
            None => field(fields_view(fields@), key@).is_none(),
        },
{
    let ghost fv = fields_view(fields@);
    let mut i: usize = 0;
    assert(fv.subrange(0, fv.len() as int) =~= fv);
    while i < fields.len()
        invariant
            i <= fields.len(),
            fv == fields_view(fields@),
            field(fv, key@) == field(fv.subrange(i as int, fv.len() as int), key@),
        decreases fields.len() - i,
    {
        let ghost rest = fv.subrange(i as int, fv.len() as int);
        assert(rest[0] == fv[i as int]);
        assert(rest.drop_first() =~= fv.subrange(i + 1, fv.len() as int));
        if is_text(&fields[i].0, key) {
            return Some(&fields[i].1);
        }
        i += 1;
    }
    assert(fv.subrange(i as int, fv.len() as int).len() == 0);
    None
}

/// The interface of encoded values to who builds and reads composite values.
pub trait ValueReprAPI: Sized + View<V = ValueV> {
    /// The parts of the value, which is expected to be a composite value
    /// tagged `tag_`.
    fn expect_tagged(&self, tag_: &str) -> (r: Result<&[Self], ExpectError>)
        ensures
            match r {
                Ok(data) => parts(self@, tag_@) == Some(values_of(data@)),
                Err(ExpectError::BadVariant { repr }) => shape(self@) is Other && repr@ == self@,
                Err(ExpectError::BadTag { got, expected }) => shape(self@) is Tagged && shape(
                    self@,
                )->tag == got@ && got@ != tag_@ && expected@ == tag_@,
                Err(ExpectError::BadArity { .. }) => false,
            },
    ;

    /// The parts of the value, which is expected to be a composite value
    /// tagged `tag` with exactly `N` parts.
    fn expect_tagged_n<const N: usize>(&self, tag: &str) -> (r: Result<&[Self], ExpectError>)
        ensures
            match r {
                Ok(data) => parts_n(self@, tag@, N as int) == Some(values_of(data@)),
                Err(ExpectError::BadVariant { repr }) => shape(self@) is Other && repr@ == self@,
                Err(ExpectError::BadTag { got, expected }) => shape(self@) is Tagged && shape(
                    self@,
                )->tag == got@ && got@ != tag@ && expected@ == tag@,
                Err(ExpectError::BadArity { expected, got }) => parts(self@, tag@).is_some()
                    && parts(self@, tag@).unwrap().len() == got && got != N && expected == N,
            },
    ;

    /// The composite value with the tag `tag` and the parts `data`.
    fn mk_tagged(tag: &str, data: &[Self]) -> (r: Self)
        ensures
            r@ == tagged(tag@, values_of(data@)),
    ;
}

/// The views of a sequence of values of some kind, in order.
pub open spec fn values_of<T: View<V = ValueV>>(v: Seq<T>) -> Seq<ValueV> {
    Seq::new(v.len(), |i: int| v[i]@)
}

impl ValueReprAPI for Value {
    fn expect_tagged(&self, tag_: &str) -> (r: Result<&[Self], ExpectError>) {
        match self {
            Value::Object(map) => {
                let data = match get_field(map, "data") {
                    Some(Value::Array(data)) => data,
                    _ => {
                        return Err(ExpectError::BadVariant { repr: self.clone() });
                    },
                };
                let tag = match get_field(map, "tag") {
                    Some(Value::String(tag)) => tag,
                    _ => {
                        return Err(ExpectError::BadVariant { repr: self.clone() });
                    },
                };
                if !is_text(tag, tag_) {
                    return Err(
                        ExpectError::BadTag { got: tag.clone(), expected: tag_.to_owned() },
                    );
                }
                assert(values_of(data@) =~= values_view(data@));
                Ok(data.as_slice())
            },
            _ => Err(ExpectError::BadVariant { repr: self.clone() }),
        }
    }

    fn expect_tagged_n<const N: usize>(&self, tag: &str) -> (r: Result<&[Self], ExpectError>) {
        match self.expect_tagged(tag) {
            Ok(data) => {
                if data.len() == N {
                    Ok(data)
                } else {
                    Err(ExpectError::BadArity { expected: N, got: data.len() })
                }
            },
            Err(e) => Err(e),
        }
    }

    fn mk_tagged(tag: &str, data: &[Self]) -> (r: Self) {
        let mut fields: Vec<(String, Value)> = Vec::new();
        fields.push((String::from_str("tag"), Value::String(tag.to_owned())));
        let items = copy_values(data);
        assert(values_of(data@) =~= values_view(data@));
        fields.push((String::from_str("data"), Value::Array(items)));
        assert(fields@[0].0@ == "tag"@);
        assert(fields@[1].0@ == "data"@);
        assert(fields@[0].1@ == ValueV::String(tag@));
        assert(fields@[1].1@ == ValueV::Array(values_of(data@)));
        let r = Value::Object(fields);
        assert(r@->Object_0 =~= tagged(tag@, values_of(data@))->Object_0);
        r
    }
}

/// Values with a mathematical model: what a value is, all the way down.
pub trait Modelled {
    /// The type of the models.
    type V;

    /// The model of the value.
    spec fn model(&self) -> Self::V;
}

impl<A: Modelled + ?Sized> Modelled for &A {
    type V = A::V;

    open spec fn model(&self) -> A::V {
        (**self).model()
    }
}

impl Modelled for bool {
    type V = bool;

    open spec fn model(&self) -> bool {
        *self
    }
}

impl Modelled for char {
    type V = char;

    open spec fn model(&self) -> char {
        *self
    }
}

impl Modelled for str {
    type V = Seq<char>;

    open spec fn model(&self) -> Seq<char> {
        self@
    }
}

impl Modelled for String {
    type V = Seq<char>;

    open spec fn model(&self) -> Seq<char> {
        self@
    }
}

impl<T: Modelled> Modelled for [T] {
    type V = Seq<T::V>;

    open spec fn model(&self) -> Seq<T::V> {
        Seq::new(self@.len(), |i: int| self@[i].model())
    }
}

impl<T: Modelled> Modelled for Vec<T> {
    type V = Seq<T::V>;

    open spec fn model(&self) -> Seq<T::V> {
        Seq::new(self@.len(), |i: int| self@[i].model())
    }
}

impl<T: Modelled> Modelled for Option<T> {
    type V = Option<T::V>;

    open spec fn model(&self) -> Option<T::V> {
        match self {
            Some(v) => Some(v.model()),
            None => None,
        }
    }
}

impl Modelled for u8 {
    type V = u8;

    open spec fn model(&self) -> u8 {
        *self
    }
}

impl Modelled for u16 {
    type V = u16;

    open spec fn model(&self) -> u16 {
        *self
    }
}

impl Modelled for u32 {
    type V = u32;

    open spec fn model(&self) -> u32 {
        *self
    }
}

impl Modelled for u64 {
    type V = u64;

    open spec fn model(&self) -> u64 {
        *self
    }
}

impl Modelled for u128 {
    type V = u128;

    open spec fn model(&self) -> u128 {
        *self
    }
}

impl Modelled for usize {
    type V = usize;

    open spec fn model(&self) -> usize {
        *self
    }
}

impl Modelled for i8 {
    type V = i8;

    open spec fn model(&self) -> i8 {
        *self
    }
}

impl Modelled for i16 {
    type V = i16;

    open spec fn model(&self) -> i16 {
        *self
    }
}

impl Modelled for i32 {
    type V = i32;

    open spec fn model(&self) -> i32 {
        *self
    }
}

impl Modelled for i64 {
    type V = i64;

    open spec fn model(&self) -> i64 {
        *self
    }
}

impl Modelled for i128 {
    type V = i128;

    open spec fn model(&self) -> i128 {
        *self
    }
}

impl Modelled for isize {
    type V = isize;

    open spec fn model(&self) -> isize {
        *self
    }
}

/// Values that can be encoded.
pub trait ToValueRepr: Modelled {
    /// The encoding of `v`.
    spec fn encode(v: <Self as Modelled>::V) -> ValueV;

    /// The encoding of the value.
    fn to_value_repr(&self) -> (r: Value)
        ensures
            r@ == Self::encode(self.model()),
    ;
}

/// Values that can be decoded.
pub trait FromValueRepr: Modelled + Sized {
    /// The value that `repr` encodes, if it encodes one.
    spec fn decode(repr: ValueV) -> Option<<Self as Modelled>::V>;

    /// The value that `repr` encodes; an error where it encodes none.
    fn from_value_repr(repr: &Value) -> (r: Result<Self, ExpectError>)
        ensures
            match r {
                Ok(v) => Self::decode(repr@) == Some(v.model()),
                Err(_) => Self::decode(repr@).is_none(),
            },
    ;
}

/// Values that travel both ways: decoding the encoding of a value gives the
/// value back.
pub trait Marshalled: ToValueRepr + FromValueRepr {
    /// Decoding the encoding of `v` gives `v`.
    proof fn round_trip(v: <Self as Modelled>::V)
        ensures
            Self::decode(Self::encode(v)) == Some(v),
    ;
}

/// Values that can be written down as an expression of the language.
pub trait ToRustExpr: Modelled {
    /// The source text of `v`.
    spec fn rust_expr(v: <Self as Modelled>::V) -> Seq<char>;

    /// The source text of the type.
    spec fn rust_type() -> Seq<char>;

    /// The source text of the value.
    fn to_rust_expr(&self) -> (r: String)
        ensures
            r@ == Self::rust_expr(self.model()),
    ;

    /// The source text of the type.
    fn to_rust_type() -> (r: String)
        ensures
            r@ == Self::rust_type(),
    ;
}

/// The decimal text of an integer, with a minus sign where it is negative.
pub open spec fn int_text(v: int) -> Seq<char> {
    if v < 0 {
        "-"@ + decimal_text((-v) as nat)
    } else {
        decimal_text(v as nat)
    }
}

/// The integer that `s` denotes: a non-empty run of decimal digits, after a
/// minus sign, a plus sign or neither.
pub open spec fn int_value(s: Seq<char>) -> Option<int> {
    if s.len() > 0 && s[0] == '-' {
        match decimal_value(s.drop_first()) {
            Some(v) => Some(-(v as int)),
            None => None,
        }
    } else {
        match unsigned_value(s) {
            Some(v) => Some(v as int),
            None => None,
        }
    }
}

/// Reading back the text of an integer gives the integer.
pub proof fn lemma_int_text_round_trip(v: int)
    ensures
        int_value(int_text(v)) == Some(v),
{
    reveal_strlit("-");
    if v < 0 {
        let digits = decimal_text((-v) as nat);
        lemma_decimal_round_trip((-v) as nat);
        let s = "-"@ + digits;
        assert(s[0] == '-');
        assert(s.drop_first() =~= digits);
    } else {
        lemma_decimal_round_trip(v as nat);
        lemma_decimal_starts_with_digit(v as nat);
    }
}

/// The text of an integer of at most 128 bits.
pub fn int_to_text(v: i128) -> (r: String)
    ensures
        r@ == int_text(v as int),
{
    if v < 0 {
        let magnitude: u128 = if v == i128::MIN {
            170141183460469231731687303715884105728u128
        } else {
            (-v) as u128
        };
        let mut r = String::from_str("-");
        r.append(to_decimal(magnitude).as_str());
        r
    } else {
        to_decimal(v as u128)
    }
}

/// The text of a natural number of at most 128 bits.
pub fn nat_to_text(v: u128) -> (r: String)
    ensures
        r@ == int_text(v as int),
{
    to_decimal(v)
}

/// The error for a value of another shape than the one expected.
pub fn bad_variant(repr: &Value) -> (r: ExpectError)
    ensures
        r == (ExpectError::BadVariant { repr: r->repr }),
        r->repr@ == repr@,
{
    ExpectError::BadVariant { repr: repr.clone() }
}

impl ToValueRepr for bool {
    open spec fn encode(v: bool) -> ValueV {
        ValueV::Bool(v)
    }

    fn to_value_repr(&self) -> (r: Value) {
        Value::Bool(*self)
    }
}

impl FromValueRepr for bool {
    open spec fn decode(repr: ValueV) -> Option<bool> {
        match repr {
            ValueV::Bool(b) => Some(b),
            _ => None,
        }
    }

    fn from_value_repr(repr: &Value) -> (r: Result<Self, ExpectError>) {
        match repr {
            Value::Bool(b) => Ok(*b),
            _ => Err(bad_variant(repr)),
        }
    }
}

impl Marshalled for bool {
    proof fn round_trip(v: bool) {
    }
}

impl ToRustExpr for bool {
    open spec fn rust_expr(v: bool) -> Seq<char> {
        if v {
            "true"@
        } else {
            "false"@
        }
    }

    open spec fn rust_type() -> Seq<char> {
        "bool"@
    }

    fn to_rust_expr(&self) -> (r: String) {
        if *self {
            String::from_str("true")
        } else {
            String::from_str("false")
        }
    }

    fn to_rust_type() -> (r: String) {
        String::from_str("bool")
    }
}

impl ToValueRepr for String {
    open spec fn encode(v: Seq<char>) -> ValueV {
        ValueV::String(v)
    }

    fn to_value_repr(&self) -> (r: Value) {
        Value::String(self.clone())
    }
}

impl FromValueRepr for String {
    open spec fn decode(repr: ValueV) -> Option<Seq<char>> {
        match repr {
            ValueV::String(s) => Some(s),
            _ => None,
        }
    }

    fn from_value_repr(repr: &Value) -> (r: Result<Self, ExpectError>) {
        match repr {
            Value::String(s) => Ok(s.clone()),
            _ => Err(bad_variant(repr)),
        }
    }
}

impl Marshalled for String {
    proof fn round_trip(v: Seq<char>) {
    }
}

/// The encoding of a string slice: that of the string.
pub fn str_to_value_repr(s: &str) -> (r: Value)
    ensures
        r@ == ValueV::String(s@),
{
    Value::String(s.to_owned())
}

impl ToValueRepr for char {
    open spec fn encode(v: char) -> ValueV {
        ValueV::String(seq![v])
    }

    fn to_value_repr(&self) -> (r: Value) {
        Value::String(char_to_string(*self))
    }
}

impl FromValueRepr for char {
    open spec fn decode(repr: ValueV) -> Option<char> {
        match repr {
            ValueV::String(s) => if s.len() == 1 {
                Some(s[0])
            } else {
                None
            },
            _ => None,
        }
    }

    fn from_value_repr(repr: &Value) -> (r: Result<Self, ExpectError>) {
        match repr {
            Value::String(s) => {
                if s.as_str().unicode_len() == 1 {
                    Ok(s.as_str().get_char(0))
                } else {
                    Err(bad_variant(repr))
                }
            },
            _ => Err(bad_variant(repr)),
        }
    }
}

impl Marshalled for char {
    proof fn round_trip(v: char) {
    }
}

impl ToValueRepr for u128 {
    open spec fn encode(v: u128) -> ValueV {
        ValueV::String(int_text(v as int))
    }

    fn to_value_repr(&self) -> (r: Value) {
        Value::String(nat_to_text(*self))
    }
}

impl FromValueRepr for u128 {
    open spec fn decode(repr: ValueV) -> Option<u128> {
        match repr {
            ValueV::String(s) => match unsigned_value(s) {
                Some(v) => if v <= u128::MAX {
                    Some(v as u128)
                } else {
                    None
                },
                None => None,
            },
            _ => None,
        }
    }

    fn from_value_repr(repr: &Value) -> (r: Result<Self, ExpectError>) {
        match repr {
            Value::String(s) => match parse_unsigned(s.as_str()) {
                Some(v) => Ok(v),
                None => Err(bad_variant(repr)),
            },
            _ => Err(bad_variant(repr)),
        }
    }
}

impl Marshalled for u128 {
    proof fn round_trip(v: u128) {
        lemma_unsigned_round_trip(v as nat);
    }
}

impl ToValueRepr for i128 {
    open spec fn encode(v: i128) -> ValueV {
        ValueV::String(int_text(v as int))
    }

    fn to_value_repr(&self) -> (r: Value) {
        Value::String(int_to_text(*self))
    }
}

impl FromValueRepr for i128 {
    open spec fn decode(repr: ValueV) -> Option<i128> {
        match repr {
            ValueV::String(s) => match int_value(s) {
                Some(v) => if i128::MIN <= v <= i128::MAX {
                    Some(v as i128)
                } else {
                    None
                },
                None => None,
            },
            _ => None,
        }
    }

    fn from_value_repr(repr: &Value) -> (r: Result<Self, ExpectError>) {
        match repr {
            Value::String(s) => {
                let text = s.as_str();
                let len = text.unicode_len();
                if len > 0 && text.get_char(0) == '-' {
                    let digits = text.substring_char(1, len);
                    assert(digits@ =~= text@.drop_first());
                    match parse_decimal(digits) {
                        Some(v) => {
                            if v <= 170141183460469231731687303715884105727u128 {
                                Ok(-(v as i128))
                            } else if v == 170141183460469231731687303715884105728u128 {
                                Ok(i128::MIN)
                            } else {
                                Err(bad_variant(repr))
                            }
                        },
                        None => Err(bad_variant(repr)),
                    }
                } else {
                    match parse_unsigned(text) {
                        Some(v) => {
                            if v <= 170141183460469231731687303715884105727u128 {
                                Ok(v as i128)
                            } else {
                                Err(bad_variant(repr))
                            }
                        },
                        None => Err(bad_variant(repr)),
                    }
                }
            },
            _ => Err(bad_variant(repr)),
        }
    }
}

impl Marshalled for i128 {
    proof fn round_trip(v: i128) {
        lemma_int_text_round_trip(v as int);
    }
}

/// Calls `String::from` on a character. Trusted: the string is made of that
/// one character.
#[verifier::external_body]
fn char_to_string(c: char) -> (r: String)
    ensures
        r@ == seq![c],
{
    String::from(c)
}

/// The name of what the `Debug` formatting of `str` makes of a string: the
/// string between double quotes, with the characters that need it escaped.
pub uninterp spec fn str_debug(s: Seq<char>) -> Seq<char>;

/// The name of what the `Debug` formatting of `char` makes of a character:
/// the character between single quotes, escaped where it needs it.
pub uninterp spec fn char_debug(c: char) -> Seq<char>;

/// Calls `format!("{:?}", ..)` on a string, that is the `Debug` formatting
/// of `str`. Trusted: the text that comes out depends on the text that goes in
/// alone, and is given the name `str_debug`.
#[verifier::external_body]
fn debug_str(s: &str) -> (r: String)
    ensures
        r@ == str_debug(s@),
{
    format!("{:?}", s)
}

/// Calls `format!("{:?}", ..)` on a character, that is the `Debug`
/// formatting of `char`. Trusted: the text that comes out depends on the
/// character alone, and is given the name `char_debug`.
#[verifier::external_body]
fn debug_char(c: char) -> (r: String)
    ensures
        r@ == char_debug(c),
{
    format!("{:?}", c)
}

impl ToRustExpr for String {
    open spec fn rust_expr(v: Seq<char>) -> Seq<char> {
        str_debug(v)
    }

    open spec fn rust_type() -> Seq<char> {
        "String"@
    }

    fn to_rust_expr(&self) -> (r: String) {
        debug_str(self.as_str())
    }

    fn to_rust_type() -> (r: String) {
        String::from_str("String")
    }
}

impl ToRustExpr for char {
    open spec fn rust_expr(v: char) -> Seq<char> {
        char_debug(v)
    }

    open spec fn rust_type() -> Seq<char> {
        "char"@
    }

    fn to_rust_expr(&self) -> (r: String) {
        debug_char(*self)
    }

    fn to_rust_type() -> (r: String) {
        String::from_str("char")
    }
}

impl ToValueRepr for u8 {
    open spec fn encode(v: u8) -> ValueV {
        ValueV::Number(v as int)
    }

    fn to_value_repr(&self) -> (r: Value) {
        Value::Number(*self as i128)
    }
}

impl FromValueRepr for u8 {
    open spec fn decode(repr: ValueV) -> Option<u8> {
        match repr {
            ValueV::Number(n) => if u8::MIN <= n <= u8::MAX {
                Some(n as u8)
            } else {
                None
            },
            _ => None,
        }
    }

    fn from_value_repr(repr: &Value) -> (r: Result<Self, ExpectError>) {
        match repr {
            Value::Number(n) => {
                if u8::MIN as i128 <= *n && *n <= u8::MAX as i128 {
                    Ok(*n as u8)
                } else {
                    Err(bad_variant(repr))
                }
            },
            _ => Err(bad_variant(repr)),
        }
    }
}

impl Marshalled for u8 {
    proof fn round_trip(v: u8) {
    }
}

impl ToRustExpr for u8 {
    open spec fn rust_expr(v: u8) -> Seq<char> {
        int_text(v as int) + "u8"@
    }

    open spec fn rust_type() -> Seq<char> {
        "u8"@
    }

    fn to_rust_expr(&self) -> (r: String) {
        let mut r = int_to_text(*self as i128);
        r.append("u8");
        r
    }

    fn to_rust_type() -> (r: String) {
        String::from_str("u8")
    }
}

impl ToValueRepr for u16 {
    open spec fn encode(v: u16) -> ValueV {
        ValueV::Number(v as int)
    }

    fn to_value_repr(&self) -> (r: Value) {
        Value::Number(*self as i128)
    }
}

impl FromValueRepr for u16 {
    open spec fn decode(repr: ValueV) -> Option<u16> {
        match repr {
            ValueV::Number(n) => if u16::MIN <= n <= u16::MAX {
                Some(n as u16)
            } else {
                None
            },
            _ => None,
        }
    }

    fn from_value_repr(repr: &Value) -> (r: Result<Self, ExpectError>) {
        match repr {
            Value::Number(n) => {
                if u16::MIN as i128 <= *n && *n <= u16::MAX as i128 {
                    Ok(*n as u16)
                } else {
                    Err(bad_variant(repr))
                }
            },
            _ => Err(bad_variant(repr)),
        }
    }
}

impl Marshalled for u16 {
    proof fn round_trip(v: u16) {
    }
}

impl ToRustExpr for u16 {
    open spec fn rust_expr(v: u16) -> Seq<char> {
        int_text(v as int) + "u16"@
    }

    open spec fn rust_type() -> Seq<char> {
        "u16"@
    }

    fn to_rust_expr(&self) -> (r: String) {
        let mut r = int_to_text(*self as i128);
        r.append("u16");
        r
    }

    fn to_rust_type() -> (r: String) {
        String::from_str("u16")
    }
}

impl ToValueRepr for u32 {
    open spec fn encode(v: u32) -> ValueV {
        ValueV::Number(v as int)
    }

    fn to_value_repr(&self) -> (r: Value) {
        Value::Number(*self as i128)
    }
}

impl FromValueRepr for u32 {
    open spec fn decode(repr: ValueV) -> Option<u32> {
        match repr {
            ValueV::Number(n) => if u32::MIN <= n <= u32::MAX {
                Some(n as u32)
            } else {
                None
            },
            _ => None,
        }
    }

    fn from_value_repr(repr: &Value) -> (r: Result<Self, ExpectError>) {
        match repr {
            Value::Number(n) => {
                if u32::MIN as i128 <= *n && *n <= u32::MAX as i128 {
                    Ok(*n as u32)
                } else {
                    Err(bad_variant(repr))
                }
            },
            _ => Err(bad_variant(repr)),
        }
    }
}

impl Marshalled for u32 {
    proof fn round_trip(v: u32) {
    }
}

impl ToRustExpr for u32 {
    open spec fn rust_expr(v: u32) -> Seq<char> {
        int_text(v as int) + "u32"@
    }

    open spec fn rust_type() -> Seq<char> {
        "u32"@
    }

    fn to_rust_expr(&self) -> (r: String) {
        let mut r = int_to_text(*self as i128);
        r.append("u32");
        r
    }

    fn to_rust_type() -> (r: String) {
        String::from_str("u32")
    }
}

impl ToValueRepr for u64 {
    open spec fn encode(v: u64) -> ValueV {
        ValueV::Number(v as int)
    }

    fn to_value_repr(&self) -> (r: Value) {
        Value::Number(*self as i128)
    }
}

impl FromValueRepr for u64 {
    open spec fn decode(repr: ValueV) -> Option<u64> {
        match repr {
            ValueV::Number(n) => if u64::MIN <= n <= u64::MAX {
                Some(n as u64)
            } else {
                None
            },
            _ => None,
        }
    }

    fn from_value_repr(repr: &Value) -> (r: Result<Self, ExpectError>) {
        match repr {
            Value::Number(n) => {
                if u64::MIN as i128 <= *n && *n <= u64::MAX as i128 {
                    Ok(*n as u64)
                } else {
                    Err(bad_variant(repr))
                }
            },
            _ => Err(bad_variant(repr)),
        }
    }
}

impl Marshalled for u64 {
    proof fn round_trip(v: u64) {
    }
}

impl ToRustExpr for u64 {
    open spec fn rust_expr(v: u64) -> Seq<char> {
        int_text(v as int) + "u64"@
    }

    open spec fn rust_type() -> Seq<char> {
        "u64"@
    }

    fn to_rust_expr(&self) -> (r: String) {
        let mut r = int_to_text(*self as i128);
        r.append("u64");
        r
    }

    fn to_rust_type() -> (r: String) {
        String::from_str("u64")
    }
}

impl ToValueRepr for usize {
    open spec fn encode(v: usize) -> ValueV {
        ValueV::Number(v as int)
    }

    fn to_value_repr(&self) -> (r: Value) {
        Value::Number(*self as i128)
    }
}

impl FromValueRepr for usize {
    open spec fn decode(repr: ValueV) -> Option<usize> {
        match repr {
            ValueV::Number(n) => if usize::MIN <= n <= usize::MAX {
                Some(n as usize)
            } else {
                None
            },
            _ => None,
        }
    }

    fn from_value_repr(repr: &Value) -> (r: Result<Self, ExpectError>) {
        match repr {
            Value::Number(n) => {
                if usize::MIN as i128 <= *n && *n <= usize::MAX as i128 {
                    Ok(*n as usize)
                } else {
                    Err(bad_variant(repr))
                }
            },
            _ => Err(bad_variant(repr)),
        }
    }
}

impl Marshalled for usize {
    proof fn round_trip(v: usize) {
    }
}

impl ToRustExpr for usize {
    open spec fn rust_expr(v: usize) -> Seq<char> {
        int_text(v as int) + "usize"@
    }

    open spec fn rust_type() -> Seq<char> {
        "usize"@
    }

    fn to_rust_expr(&self) -> (r: String) {
        let mut r = int_to_text(*self as i128);
        r.append("usize");
        r
    }

    fn to_rust_type() -> (r: String) {
        String::from_str("usize")
    }
}

impl ToValueRepr for i8 {
    open spec fn encode(v: i8) -> ValueV {
        ValueV::Number(v as int)
    }

    fn to_value_repr(&self) -> (r: Value) {
        Value::Number(*self as i128)
    }
}

impl FromValueRepr for i8 {
    open spec fn decode(repr: ValueV) -> Option<i8> {
        match repr {
            ValueV::Number(n) => if i8::MIN <= n <= i8::MAX {
                Some(n as i8)
            } else {
                None
            },
            _ => None,
        }
    }

    fn from_value_repr(repr: &Value) -> (r: Result<Self, ExpectError>) {
        match repr {
            Value::Number(n) => {
                if i8::MIN as i128 <= *n && *n <= i8::MAX as i128 {
                    Ok(*n as i8)
                } else {
                    Err(bad_variant(repr))
                }
            },
            _ => Err(bad_variant(repr)),
        }
    }
}

impl Marshalled for i8 {
    proof fn round_trip(v: i8) {
    }
}

impl ToRustExpr for i8 {
    open spec fn rust_expr(v: i8) -> Seq<char> {
        int_text(v as int) + "i8"@
    }

    open spec fn rust_type() -> Seq<char> {
        "i8"@
    }

    fn to_rust_expr(&self) -> (r: String) {
        let mut r = int_to_text(*self as i128);
        r.append("i8");
        r
    }

    fn to_rust_type() -> (r: String) {
        String::from_str("i8")
    }
}

impl ToValueRepr for i16 {
    open spec fn encode(v: i16) -> ValueV {
        ValueV::Number(v as int)
    }

    fn to_value_repr(&self) -> (r: Value) {
        Value::Number(*self as i128)
    }
}

impl FromValueRepr for i16 {
    open spec fn decode(repr: ValueV) -> Option<i16> {
        match repr {
            ValueV::Number(n) => if i16::MIN <= n <= i16::MAX {
                Some(n as i16)
            } else {
                None
            },
            _ => None,
        }
    }

    fn from_value_repr(repr: &Value) -> (r: Result<Self, ExpectError>) {
        match repr {
            Value::Number(n) => {
                if i16::MIN as i128 <= *n && *n <= i16::MAX as i128 {
                    Ok(*n as i16)
                } else {
                    Err(bad_variant(repr))
                }
            },
            _ => Err(bad_variant(repr)),
        }
    }
}

impl Marshalled for i16 {
    proof fn round_trip(v: i16) {
    }
}

impl ToRustExpr for i16 {
    open spec fn rust_expr(v: i16) -> Seq<char> {
        int_text(v as int) + "i16"@
    }

    open spec fn rust_type() -> Seq<char> {
        "i16"@
    }

    fn to_rust_expr(&self) -> (r: String) {
        let mut r = int_to_text(*self as i128);
        r.append("i16");
        r
    }

    fn to_rust_type() -> (r: String) {
        String::from_str("i16")
    }
}

impl ToValueRepr for i32 {
    open spec fn encode(v: i32) -> ValueV {
        ValueV::Number(v as int)
    }

    fn to_value_repr(&self) -> (r: Value) {
        Value::Number(*self as i128)
    }
}

impl FromValueRepr for i32 {
    open spec fn decode(repr: ValueV) -> Option<i32> {
        match repr {
            ValueV::Number(n) => if i32::MIN <= n <= i32::MAX {
                Some(n as i32)
            } else {
                None
            },
            _ => None,
        }
    }

    fn from_value_repr(repr: &Value) -> (r: Result<Self, ExpectError>) {
        match repr {
            Value::Number(n) => {
                if i32::MIN as i128 <= *n && *n <= i32::MAX as i128 {
                    Ok(*n as i32)
                } else {
                    Err(bad_variant(repr))
                }
            },
            _ => Err(bad_variant(repr)),
        }
    }
}

impl Marshalled for i32 {
    proof fn round_trip(v: i32) {
    }
}

impl ToRustExpr for i32 {
    open spec fn rust_expr(v: i32) -> Seq<char> {
        int_text(v as int) + "i32"@
    }

    open spec fn rust_type() -> Seq<char> {
        "i32"@
    }

    fn to_rust_expr(&self) -> (r: String) {
        let mut r = int_to_text(*self as i128);
        r.append("i32");
        r
    }

    fn to_rust_type() -> (r: String) {
        String::from_str("i32")
    }
}

impl ToValueRepr for i64 {
    open spec fn encode(v: i64) -> ValueV {
        ValueV::Number(v as int)
    }

    fn to_value_repr(&self) -> (r: Value) {
        Value::Number(*self as i128)
    }
}

impl FromValueRepr for i64 {
    open spec fn decode(repr: ValueV) -> Option<i64> {
        match repr {
            ValueV::Number(n) => if i64::MIN <= n <= i64::MAX {
                Some(n as i64)
            } else {
                None
            },
            _ => None,
        }
    }

    fn from_value_repr(repr: &Value) -> (r: Result<Self, ExpectError>) {
        match repr {
            Value::Number(n) => {
                if i64::MIN as i128 <= *n && *n <= i64::MAX as i128 {
                    Ok(*n as i64)
                } else {
                    Err(bad_variant(repr))
                }
            },
            _ => Err(bad_variant(repr)),
        }
    }
}

impl Marshalled for i64 {
    proof fn round_trip(v: i64) {
    }
}

impl ToRustExpr for i64 {
    open spec fn rust_expr(v: i64) -> Seq<char> {
        int_text(v as int) + "i64"@
    }

    open spec fn rust_type() -> Seq<char> {
        "i64"@
    }

    fn to_rust_expr(&self) -> (r: String) {
        let mut r = int_to_text(*self as i128);
        r.append("i64");
        r
    }

    fn to_rust_type() -> (r: String) {
        String::from_str("i64")
    }
}

impl ToValueRepr for isize {
    open spec fn encode(v: isize) -> ValueV {
        ValueV::Number(v as int)
    }

    fn to_value_repr(&self) -> (r: Value) {
        Value::Number(*self as i128)
    }
}

impl FromValueRepr for isize {
    open spec fn decode(repr: ValueV) -> Option<isize> {
        match repr {
            ValueV::Number(n) => if isize::MIN <= n <= isize::MAX {
                Some(n as isize)
            } else {
                None
            },
            _ => None,
        }
    }

    fn from_value_repr(repr: &Value) -> (r: Result<Self, ExpectError>) {
        match repr {
            Value::Number(n) => {
                if isize::MIN as i128 <= *n && *n <= isize::MAX as i128 {
                    Ok(*n as isize)
                } else {
                    Err(bad_variant(repr))
                }
            },
            _ => Err(bad_variant(repr)),
        }
    }
}

impl Marshalled for isize {
    proof fn round_trip(v: isize) {
    }
}

impl ToRustExpr for isize {
    open spec fn rust_expr(v: isize) -> Seq<char> {
        int_text(v as int) + "isize"@
    }

    open spec fn rust_type() -> Seq<char> {
        "isize"@
    }

    fn to_rust_expr(&self) -> (r: String) {
        let mut r = int_to_text(*self as i128);
        r.append("isize");
        r
    }

    fn to_rust_type() -> (r: String) {
        String::from_str("isize")
    }
}

impl ToRustExpr for u128 {
    open spec fn rust_expr(v: u128) -> Seq<char> {
        int_text(v as int) + "u128"@
    }

    open spec fn rust_type() -> Seq<char> {
        "u128"@
    }

    fn to_rust_expr(&self) -> (r: String) {
        let mut r = nat_to_text(*self);
        r.append("u128");
        r
    }

    fn to_rust_type() -> (r: String) {
        String::from_str("u128")
    }
}

impl ToRustExpr for i128 {
    open spec fn rust_expr(v: i128) -> Seq<char> {
        int_text(v as int) + "i128"@
    }

    open spec fn rust_type() -> Seq<char> {
        "i128"@
    }

    fn to_rust_expr(&self) -> (r: String) {
        let mut r = int_to_text(*self);
        r.append("i128");
        r
    }

    fn to_rust_type() -> (r: String) {
        String::from_str("i128")
    }
}

/// The encodings of the values `v`, in order.
pub open spec fn encode_all<T: ToValueRepr>(v: Seq<<T as Modelled>::V>) -> Seq<ValueV> {
    Seq::new(v.len(), |i: int| T::encode(v[i]))
}

/// The values that the encodings `data` encode, in order, if each encodes one.
pub open spec fn decode_all<T: FromValueRepr>(data: Seq<ValueV>) -> Option<Seq<<T as Modelled>::V>> {
    if forall|i: int| 0 <= i < data.len() ==> (#[trigger] T::decode(data[i])).is_some() {
        Some(Seq::new(data.len(), |i: int| T::decode(data[i]).unwrap()))
    } else {
        None
    }
}

/// The encodings of the values of a slice, in order.
pub fn encode_slice<T: ToValueRepr>(items: &[T]) -> (r: Vec<Value>)
    ensures
        values_of(r@) == encode_all::<T>(items.model()),
{
    let mut r: Vec<Value> = Vec::new();
    let mut i: usize = 0;
    while i < items.len()
        invariant
            i <= items.len(),
            r@.len() == i,
            forall|j: int| 0 <= j < i ==> r@[j]@ == T::encode(items@[j].model()),
        decreases items.len() - i,
    {
        r.push(items[i].to_value_repr());
        i += 1;
    }
    assert(values_of(r@) =~= encode_all::<T>(items.model()));
    r
}

/// The values that the encodings of a slice encode, in order; an error where
/// one of them encodes none.
pub fn decode_slice<T: FromValueRepr>(data: &[Value]) -> (r: Result<Vec<T>, ExpectError>)
    ensures
        match r {
            Ok(v) => decode_all::<T>(values_of(data@)) == Some(v.model()),
            Err(_) => decode_all::<T>(values_of(data@)).is_none(),
        },
{
    let ghost dv = values_of(data@);
    let mut r: Vec<T> = Vec::new();
    let mut i: usize = 0;
    while i < data.len()
        invariant
            i <= data.len(),
            r@.len() == i,
            dv == values_of(data@),
            forall|j: int| 0 <= j < i ==> (#[trigger] T::decode(dv[j])) == Some(r@[j].model()),
        decreases data.len() - i,
    {
        assert(dv[i as int] == data@[i as int]@);
        match T::from_value_repr(&data[i]) {
            Ok(x) => {
                r.push(x);
            },
            Err(e) => {
                assert(T::decode(dv[i as int]).is_none());
                return Err(e);
            },
        }
        i += 1;
    }
    assert(decode_all::<T>(dv).unwrap() =~= r.model());
    Ok(r)
}

impl<T: ToValueRepr> ToValueRepr for Vec<T> {
    open spec fn encode(v: Seq<<T as Modelled>::V>) -> ValueV {
        tagged("::slice"@, encode_all::<T>(v))
    }

    fn to_value_repr(&self) -> (r: Value) {
        let slice = self.as_slice();
        let items = encode_slice(slice);
        assert(slice.model() =~= self.model());
        Value::mk_tagged("::slice", items.as_slice())
    }
}

impl<T: FromValueRepr> FromValueRepr for Vec<T> {
    open spec fn decode(repr: ValueV) -> Option<Seq<<T as Modelled>::V>> {
        match parts(repr, "::slice"@) {
            Some(data) => decode_all::<T>(data),
            None => None,
        }
    }

    fn from_value_repr(repr: &Value) -> (r: Result<Self, ExpectError>) {
        match repr.expect_tagged("::slice") {
            Ok(data) => decode_slice(data),
            Err(e) => Err(e),
        }
    }
}

impl<T: Marshalled> Marshalled for Vec<T> {
    proof fn round_trip(v: Seq<<T as Modelled>::V>) {
        let data = encode_all::<T>(v);
        lemma_tagged_shape("::slice"@, data);
        assert forall|i: int| 0 <= i < data.len() implies (#[trigger] T::decode(data[i])) == Some(
            v[i],
        ) by {
            T::round_trip(v[i]);
        }
        assert(decode_all::<T>(data).unwrap() =~= v);
    }
}

impl<T: ToValueRepr> ToValueRepr for Option<T> {
    open spec fn encode(v: Option<<T as Modelled>::V>) -> ValueV {
        match v {
            Some(x) => tagged("std::option::Option::Some"@, seq![T::encode(x)]),
            None => tagged("std::option::Option::None"@, Seq::empty()),
        }
    }

    fn to_value_repr(&self) -> (r: Value) {
        let mut items: Vec<Value> = Vec::new();
        match self {
            Some(value) => {
                items.push(value.to_value_repr());
                assert(values_of(items@) =~= seq![T::encode(value.model())]);
                Value::mk_tagged("std::option::Option::Some", items.as_slice())
            },
            None => {
                assert(values_of(items@) =~= Seq::<ValueV>::empty());
                Value::mk_tagged("std::option::Option::None", items.as_slice())
            },
        }
    }
}

impl<T: FromValueRepr> FromValueRepr for Option<T> {
    open spec fn decode(repr: ValueV) -> Option<Option<<T as Modelled>::V>> {
        match parts_n(repr, "std::option::Option::Some"@, 1) {
            Some(data) => match T::decode(data[0]) {
                Some(x) => Some(Some(x)),
                None => None,
            },
            None => match parts_n(repr, "std::option::Option::None"@, 0) {
                Some(_) => Some(None),
                None => None,
            },
        }
    }

    fn from_value_repr(repr: &Value) -> (r: Result<Self, ExpectError>) {
        match repr.expect_tagged_n::<1>("std::option::Option::Some") {
            Ok(data) => {
                assert(values_of(data@)[0] == data@[0]@);
                match T::from_value_repr(&data[0]) {
                    Ok(x) => Ok(Some(x)),
                    Err(e) => Err(e),
                }
            },
            Err(_) => match repr.expect_tagged_n::<0>("std::option::Option::None") {
                Ok(_) => Ok(None),
                Err(e) => Err(e),
            },
        }
    }
}

/// The two tags of an option differ.
pub proof fn lemma_option_tags_differ()
    ensures
        "std::option::Option::Some"@ != "std::option::Option::None"@,
{
    reveal_strlit("std::option::Option::Some");
    reveal_strlit("std::option::Option::None");
    assert("std::option::Option::Some"@[21] == 'S');
    assert("std::option::Option::None"@[21] == 'N');
}

impl<T: Marshalled> Marshalled for Option<T> {
    proof fn round_trip(v: Option<<T as Modelled>::V>) {
        lemma_option_tags_differ();
        match v {
            Some(x) => {
                T::round_trip(x);
                lemma_tagged_shape("std::option::Option::Some"@, seq![T::encode(x)]);
            },
            None => {
                lemma_tagged_shape("std::option::Option::None"@, Seq::<ValueV>::empty());
            },
        }
    }
}

/// The texts `parts` with `sep` between each two of them.
pub open spec fn join(parts: Seq<Seq<char>>, sep: Seq<char>) -> Seq<char>
    decreases parts.len(),
{
    if parts.len() == 0 {
        Seq::empty()
    } else if parts.len() == 1 {
        parts[0]
    } else {
        join(parts.drop_last(), sep) + sep + parts.last()
    }
}

/// The source texts of the values `v`, in order.
pub open spec fn rust_exprs<T: ToRustExpr>(v: Seq<<T as Modelled>::V>) -> Seq<Seq<char>> {
    Seq::new(v.len(), |i: int| T::rust_expr(v[i]))
}

/// The source texts of the values of a slice, with `sep` between each two.
pub fn join_rust_exprs<T: ToRustExpr>(items: &[T], sep: &str) -> (r: String)
    ensures
        r@ == join(rust_exprs::<T>(items.model()), sep@),
{
    let ghost texts = rust_exprs::<T>(items.model());
    let mut r = String::new();
    let mut i: usize = 0;
    assert(texts.take(0) =~= Seq::<Seq<char>>::empty());
    while i < items.len()
        invariant
            i <= items.len(),
            texts == rust_exprs::<T>(items.model()),
            texts.len() == items@.len(),
            r@ == join(texts.take(i as int), sep@),
        decreases items.len() - i,
    {
        let text = items[i].to_rust_expr();
        proof {
            let longer = texts.take(i + 1);
            assert(longer.drop_last() =~= texts.take(i as int));
            assert(longer.last() == text@);
            if i == 0 {
                assert(r@ + text@ =~= text@);
            }
        }
        if i > 0 {
            r.append(sep);
        }
        r.append(text.as_str());
        i += 1;
    }
    assert(texts.take(items@.len() as int) =~= texts);
    r
}

impl<T: ToRustExpr> ToRustExpr for Vec<T> {
    open spec fn rust_expr(v: Seq<<T as Modelled>::V>) -> Seq<char> {
        "["@ + join(rust_exprs::<T>(v), ", "@) + "]"@
    }

    open spec fn rust_type() -> Seq<char> {
        "Vec<"@ + T::rust_type() + ">"@
    }

    fn to_rust_expr(&self) -> (r: String) {
        let slice = self.as_slice();
        assert(slice.model() =~= self.model());
        let mut r = String::from_str("[");
        r.append(join_rust_exprs(slice, ", ").as_str());
        r.append("]");
        r
    }

    fn to_rust_type() -> (r: String) {
        let mut r = String::from_str("Vec<");
        r.append(T::to_rust_type().as_str());
        r.append(">");
        r
    }
}

/// The source text of a slice: `&[a, b]`, and for the empty slice an empty
/// slice with its type.
pub open spec fn slice_rust_expr<T: ToRustExpr>(v: Seq<<T as Modelled>::V>) -> Seq<char> {
    if v.len() == 0 {
        "(&[] as &["@ + T::rust_type() + "])"@
    } else {
        "&["@ + join(rust_exprs::<T>(v), ", "@) + "]"@
    }
}

impl<T: ToRustExpr> ToRustExpr for &[T] {
    open spec fn rust_expr(v: Seq<<T as Modelled>::V>) -> Seq<char> {
        slice_rust_expr::<T>(v)
    }

    open spec fn rust_type() -> Seq<char> {
        "["@ + T::rust_type() + "]"@
    }

    fn to_rust_expr(&self) -> (r: String) {
        if self.len() == 0 {
            let mut r = String::from_str("(&[] as &[");
            r.append(T::to_rust_type().as_str());
            r.append("])");
            r
        } else {
            let mut r = String::from_str("&[");
            r.append(join_rust_exprs(*self, ", ").as_str());
            r.append("]");
            r
        }
    }

    fn to_rust_type() -> (r: String) {
        let mut r = String::from_str("[");
        r.append(T::to_rust_type().as_str());
        r.append("]");
        r
    }
}

impl<T: ToValueRepr> ToValueRepr for &[T] {
    open spec fn encode(v: Seq<<T as Modelled>::V>) -> ValueV {
        tagged("::slice"@, encode_all::<T>(v))
    }

    fn to_value_repr(&self) -> (r: Value) {
        let items = encode_slice(*self);
        Value::mk_tagged("::slice", items.as_slice())
    }
}

impl<T: ToRustExpr> ToRustExpr for Option<T> {
    open spec fn rust_expr(v: Option<<T as Modelled>::V>) -> Seq<char> {
        match v {
            None => "None::<"@ + T::rust_type() + ">"@,
            Some(x) => "Some("@ + T::rust_expr(x) + ")"@,
        }
    }

    open spec fn rust_type() -> Seq<char> {
        "["@ + T::rust_type() + "]"@
    }

    fn to_rust_expr(&self) -> (r: String) {
        match self {
            None => {
                let mut r = String::from_str("None::<");
                r.append(T::to_rust_type().as_str());
                r.append(">");
                r
            },
            Some(value) => {
                let mut r = String::from_str("Some(");
                r.append(value.to_rust_expr().as_str());
                r.append(")");
                r
            },
        }
    }

    fn to_rust_type() -> (r: String) {
        let mut r = String::from_str("[");
        r.append(T::to_rust_type().as_str());
        r.append("]");
        r
    }
}

impl<'a> ToValueRepr for &'a str {
    open spec fn encode(v: Seq<char>) -> ValueV {
        ValueV::String(v)
    }

    fn to_value_repr(&self) -> (r: Value) {
        str_to_value_repr(*self)
    }
}

impl<'a> ToRustExpr for &'a str {
    open spec fn rust_expr(v: Seq<char>) -> Seq<char> {
        str_debug(v)
    }

    open spec fn rust_type() -> Seq<char> {
        "&str"@
    }

    fn to_rust_expr(&self) -> (r: String) {
        debug_str(*self)
    }

    fn to_rust_type() -> (r: String) {
        String::from_str("&str")
    }
}

} // verus!
