//! The encoding of tuples: a tuple is tagged `::tuple`, and its data are the
//! encodings of its fields, in order. Its source text is that of its fields
//! between brackets, with a comma between two of them.

use crate::marshalling::{
    lemma_tagged_shape, parts_n, tagged, values_of, ExpectError, FromValueRepr, Marshalled,
    Modelled, ToRustExpr, ToValueRepr, Value, ValueReprAPI, ValueV,
};
use vstd::prelude::*;
use vstd::string::StringExecFns;

verus! {

impl<A0: Modelled> Modelled for (A0, ) {
    type V = (<A0 as Modelled>::V, );

    open spec fn model(&self) -> (<A0 as Modelled>::V, ) {
        (self.0.model(), )
    }
}

impl<A0: ToValueRepr> ToValueRepr for (A0, ) {
    open spec fn encode(v: (<A0 as Modelled>::V, )) -> ValueV {
        tagged("::tuple"@, seq![A0::encode(v.0)])
    }

    fn to_value_repr(&self) -> (r: Value) {
        let mut parts: Vec<Value> = Vec::new();
        parts.push(self.0.to_value_repr());
        assert(values_of(parts@) =~= seq![A0::encode(self.0.model())]);
        Value::mk_tagged("::tuple", parts.as_slice())
    }
}

impl<A0: FromValueRepr> FromValueRepr for (A0, ) {
    open spec fn decode(repr: ValueV) -> Option<(<A0 as Modelled>::V, )> {
        match parts_n(repr, "::tuple"@, 1) {
            Some(data) => match (A0::decode(data[0]), ) {
                (Some(x0), ) => Some((x0, )),
                _ => None,
            },
            None => None,
        }
    }

    fn from_value_repr(repr: &Value) -> (r: Result<Self, ExpectError>) {
        match repr.expect_tagged_n::<1>("::tuple") {
            Ok(data) => {
                assert(values_of(data@)[0] == data@[0]@);
                let x0 = match A0::from_value_repr(&data[0]) {
                    Ok(x) => x,
                    Err(e) => {
                        return Err(e);
                    },
                };
                Ok((x0, ))
            },
            Err(e) => Err(e),
        }
    }
}

impl<A0: Marshalled> Marshalled for (A0, ) {
    proof fn round_trip(v: (<A0 as Modelled>::V, )) {
        A0::round_trip(v.0);
        lemma_tagged_shape("::tuple"@, seq![A0::encode(v.0)]);
    }
}

impl<A0: ToRustExpr> ToRustExpr for (A0, ) {
    open spec fn rust_expr(v: (<A0 as Modelled>::V, )) -> Seq<char> {
        "("@ + A0::rust_expr(v.0) + ")"@
    }

    open spec fn rust_type() -> Seq<char> {
        "("@ + A0::rust_type() + ")"@
    }

    fn to_rust_expr(&self) -> (r: String) {
        let mut r = String::from_str("(");
        r.append(self.0.to_rust_expr().as_str());
        r.append(")");
        r
    }

    fn to_rust_type() -> (r: String) {
        let mut r = String::from_str("(");
        r.append(A0::to_rust_type().as_str());
        r.append(")");
        r
    }
}

impl<A0: Modelled, A1: Modelled> Modelled for (A0, A1, ) {
    type V = (<A0 as Modelled>::V, <A1 as Modelled>::V, );

    open spec fn model(&self) -> (<A0 as Modelled>::V, <A1 as Modelled>::V, ) {
        (self.0.model(), self.1.model(), )
    }
}

impl<A0: ToValueRepr, A1: ToValueRepr> ToValueRepr for (A0, A1, ) {
    open spec fn encode(v: (<A0 as Modelled>::V, <A1 as Modelled>::V, )) -> ValueV {
        tagged("::tuple"@, seq![A0::encode(v.0), A1::encode(v.1)])
    }

    fn to_value_repr(&self) -> (r: Value) {
        let mut parts: Vec<Value> = Vec::new();
        parts.push(self.0.to_value_repr());
        parts.push(self.1.to_value_repr());
        assert(values_of(parts@) =~= seq![A0::encode(self.0.model()), A1::encode(self.1.model())]);
        Value::mk_tagged("::tuple", parts.as_slice())
    }
}

impl<A0: FromValueRepr, A1: FromValueRepr> FromValueRepr for (A0, A1, ) {
    open spec fn decode(repr: ValueV) -> Option<(<A0 as Modelled>::V, <A1 as Modelled>::V, )> {
        match parts_n(repr, "::tuple"@, 2) {
            Some(data) => match (A0::decode(data[0]), A1::decode(data[1]), ) {
                (Some(x0), Some(x1), ) => Some((x0, x1, )),
                _ => None,
            },
            None => None,
        }
    }

    fn from_value_repr(repr: &Value) -> (r: Result<Self, ExpectError>) {
        match repr.expect_tagged_n::<2>("::tuple") {
            Ok(data) => {
                assert(values_of(data@)[0] == data@[0]@);
                let x0 = match A0::from_value_repr(&data[0]) {
                    Ok(x) => x,
                    Err(e) => {
                        return Err(e);
                    },
                };
                assert(values_of(data@)[1] == data@[1]@);
                let x1 = match A1::from_value_repr(&data[1]) {
                    Ok(x) => x,
                    Err(e) => {
                        return Err(e);
                    },
                };
                Ok((x0, x1, ))
            },
            Err(e) => Err(e),
        }
    }
}

impl<A0: Marshalled, A1: Marshalled> Marshalled for (A0, A1, ) {
    proof fn round_trip(v: (<A0 as Modelled>::V, <A1 as Modelled>::V, )) {
        A0::round_trip(v.0);
        A1::round_trip(v.1);
        lemma_tagged_shape("::tuple"@, seq![A0::encode(v.0), A1::encode(v.1)]);
    }
}

impl<A0: ToRustExpr, A1: ToRustExpr> ToRustExpr for (A0, A1, ) {
    open spec fn rust_expr(v: (<A0 as Modelled>::V, <A1 as Modelled>::V, )) -> Seq<char> {
        "("@ + A0::rust_expr(v.0) + ","@ + A1::rust_expr(v.1) + ")"@
    }

    open spec fn rust_type() -> Seq<char> {
        "("@ + A0::rust_type() + ","@ + A1::rust_type() + ")"@
    }

    fn to_rust_expr(&self) -> (r: String) {
        let mut r = String::from_str("(");
        r.append(self.0.to_rust_expr().as_str());
        r.append(",");
        r.append(self.1.to_rust_expr().as_str());
        r.append(")");
        r
    }

    fn to_rust_type() -> (r: String) {
        let mut r = String::from_str("(");
        r.append(A0::to_rust_type().as_str());
        r.append(",");
        r.append(A1::to_rust_type().as_str());
        r.append(")");
        r
    }
}

impl<A0: Modelled, A1: Modelled, A2: Modelled> Modelled for (A0, A1, A2, ) {
    type V = (<A0 as Modelled>::V, <A1 as Modelled>::V, <A2 as Modelled>::V, );

    open spec fn model(&self) -> (<A0 as Modelled>::V, <A1 as Modelled>::V, <A2 as Modelled>::V, ) {
        (self.0.model(), self.1.model(), self.2.model(), )
    }
}

impl<A0: ToValueRepr, A1: ToValueRepr, A2: ToValueRepr> ToValueRepr for (A0, A1, A2, ) {
    open spec fn encode(v: (<A0 as Modelled>::V, <A1 as Modelled>::V, <A2 as Modelled>::V, )) -> ValueV {
        tagged("::tuple"@, seq![A0::encode(v.0), A1::encode(v.1), A2::encode(v.2)])
    }

    fn to_value_repr(&self) -> (r: Value) {
        let mut parts: Vec<Value> = Vec::new();
        parts.push(self.0.to_value_repr());
        parts.push(self.1.to_value_repr());
        parts.push(self.2.to_value_repr());
        assert(values_of(parts@) =~= seq![A0::encode(self.0.model()), A1::encode(self.1.model()), A2::encode(self.2.model())]);
        Value::mk_tagged("::tuple", parts.as_slice())
    }
}

impl<A0: FromValueRepr, A1: FromValueRepr, A2: FromValueRepr> FromValueRepr for (A0, A1, A2, ) {
    open spec fn decode(repr: ValueV) -> Option<(<A0 as Modelled>::V, <A1 as Modelled>::V, <A2 as Modelled>::V, )> {
        match parts_n(repr, "::tuple"@, 3) {
            Some(data) => match (A0::decode(data[0]), A1::decode(data[1]), A2::decode(data[2]), ) {
                (Some(x0), Some(x1), Some(x2), ) => Some((x0, x1, x2, )),
                _ => None,
            },
            None => None,
        }
    }

    fn from_value_repr(repr: &Value) -> (r: Result<Self, ExpectError>) {
        match repr.expect_tagged_n::<3>("::tuple") {
            Ok(data) => {
                assert(values_of(data@)[0] == data@[0]@);
                let x0 = match A0::from_value_repr(&data[0]) {
                    Ok(x) => x,
                    Err(e) => {
                        return Err(e);
                    },
                };
                assert(values_of(data@)[1] == data@[1]@);
                let x1 = match A1::from_value_repr(&data[1]) {
                    Ok(x) => x,
                    Err(e) => {
                        return Err(e);
                    },
                };
                assert(values_of(data@)[2] == data@[2]@);
                let x2 = match A2::from_value_repr(&data[2]) {
                    Ok(x) => x,
                    Err(e) => {
                        return Err(e);
                    },
                };
                Ok((x0, x1, x2, ))
            },
            Err(e) => Err(e),
        }
    }
}

impl<A0: Marshalled, A1: Marshalled, A2: Marshalled> Marshalled for (A0, A1, A2, ) {
    proof fn round_trip(v: (<A0 as Modelled>::V, <A1 as Modelled>::V, <A2 as Modelled>::V, )) {
        A0::round_trip(v.0);
        A1::round_trip(v.1);
        A2::round_trip(v.2);
        lemma_tagged_shape("::tuple"@, seq![A0::encode(v.0), A1::encode(v.1), A2::encode(v.2)]);
    }
}

impl<A0: ToRustExpr, A1: ToRustExpr, A2: ToRustExpr> ToRustExpr for (A0, A1, A2, ) {
    open spec fn rust_expr(v: (<A0 as Modelled>::V, <A1 as Modelled>::V, <A2 as Modelled>::V, )) -> Seq<char> {
        "("@ + A0::rust_expr(v.0) + ","@ + A1::rust_expr(v.1) + ","@ + A2::rust_expr(v.2) + ")"@
    }

    open spec fn rust_type() -> Seq<char> {
        "("@ + A0::rust_type() + ","@ + A1::rust_type() + ","@ + A2::rust_type() + ")"@
    }

    fn to_rust_expr(&self) -> (r: String) {
        let mut r = String::from_str("(");
        r.append(self.0.to_rust_expr().as_str());
        r.append(",");
        r.append(self.1.to_rust_expr().as_str());
        r.append(",");
        r.append(self.2.to_rust_expr().as_str());
        r.append(")");
        r
    }

    fn to_rust_type() -> (r: String) {
        let mut r = String::from_str("(");
        r.append(A0::to_rust_type().as_str());
        r.append(",");
        r.append(A1::to_rust_type().as_str());
        r.append(",");
        r.append(A2::to_rust_type().as_str());
        r.append(")");
        r
    }
}

impl<A0: Modelled, A1: Modelled, A2: Modelled, A3: Modelled> Modelled for (A0, A1, A2, A3, ) {
    type V = (<A0 as Modelled>::V, <A1 as Modelled>::V, <A2 as Modelled>::V, <A3 as Modelled>::V, );

    open spec fn model(&self) -> (<A0 as Modelled>::V, <A1 as Modelled>::V, <A2 as Modelled>::V, <A3 as Modelled>::V, ) {
        (self.0.model(), self.1.model(), self.2.model(), self.3.model(), )
    }
}

impl<A0: ToValueRepr, A1: ToValueRepr, A2: ToValueRepr, A3: ToValueRepr> ToValueRepr for (A0, A1, A2, A3, ) {
    open spec fn encode(v: (<A0 as Modelled>::V, <A1 as Modelled>::V, <A2 as Modelled>::V, <A3 as Modelled>::V, )) -> ValueV {
        tagged("::tuple"@, seq![A0::encode(v.0), A1::encode(v.1), A2::encode(v.2), A3::encode(v.3)])
    }

    fn to_value_repr(&self) -> (r: Value) {
        let mut parts: Vec<Value> = Vec::new();
        parts.push(self.0.to_value_repr());
        parts.push(self.1.to_value_repr());
        parts.push(self.2.to_value_repr());
        parts.push(self.3.to_value_repr());
        assert(values_of(parts@) =~= seq![A0::encode(self.0.model()), A1::encode(self.1.model()), A2::encode(self.2.model()), A3::encode(self.3.model())]);
        Value::mk_tagged("::tuple", parts.as_slice())
    }
}

impl<A0: FromValueRepr, A1: FromValueRepr, A2: FromValueRepr, A3: FromValueRepr> FromValueRepr for (A0, A1, A2, A3, ) {
    open spec fn decode(repr: ValueV) -> Option<(<A0 as Modelled>::V, <A1 as Modelled>::V, <A2 as Modelled>::V, <A3 as Modelled>::V, )> {
        match parts_n(repr, "::tuple"@, 4) {
            Some(data) => match (A0::decode(data[0]), A1::decode(data[1]), A2::decode(data[2]), A3::decode(data[3]), ) {
                (Some(x0), Some(x1), Some(x2), Some(x3), ) => Some((x0, x1, x2, x3, )),
                _ => None,
            },
            None => None,
        }
    }

    fn from_value_repr(repr: &Value) -> (r: Result<Self, ExpectError>) {
        match repr.expect_tagged_n::<4>("::tuple") {
            Ok(data) => {
                assert(values_of(data@)[0] == data@[0]@);
                let x0 = match A0::from_value_repr(&data[0]) {
                    Ok(x) => x,
                    Err(e) => {
                        return Err(e);
                    },
                };
                assert(values_of(data@)[1] == data@[1]@);
                let x1 = match A1::from_value_repr(&data[1]) {
                    Ok(x) => x,
                    Err(e) => {
                        return Err(e);
                    },
                };
                assert(values_of(data@)[2] == data@[2]@);
                let x2 = match A2::from_value_repr(&data[2]) {
                    Ok(x) => x,
                    Err(e) => {
                        return Err(e);
                    },
                };
                assert(values_of(data@)[3] == data@[3]@);
                let x3 = match A3::from_value_repr(&data[3]) {
                    Ok(x) => x,
                    Err(e) => {
                        return Err(e);
                    },
                };
                Ok((x0, x1, x2, x3, ))
            },
            Err(e) => Err(e),
        }
    }
}

impl<A0: Marshalled, A1: Marshalled, A2: Marshalled, A3: Marshalled> Marshalled for (A0, A1, A2, A3, ) {
    proof fn round_trip(v: (<A0 as Modelled>::V, <A1 as Modelled>::V, <A2 as Modelled>::V, <A3 as Modelled>::V, )) {
        A0::round_trip(v.0);
        A1::round_trip(v.1);
        A2::round_trip(v.2);
        A3::round_trip(v.3);
        lemma_tagged_shape("::tuple"@, seq![A0::encode(v.0), A1::encode(v.1), A2::encode(v.2), A3::encode(v.3)]);
    }
}

impl<A0: ToRustExpr, A1: ToRustExpr, A2: ToRustExpr, A3: ToRustExpr> ToRustExpr for (A0, A1, A2, A3, ) {
    open spec fn rust_expr(v: (<A0 as Modelled>::V, <A1 as Modelled>::V, <A2 as Modelled>::V, <A3 as Modelled>::V, )) -> Seq<char> {
        "("@ + A0::rust_expr(v.0) + ","@ + A1::rust_expr(v.1) + ","@ + A2::rust_expr(v.2) + ","@ + A3::rust_expr(v.3) + ")"@
    }

    open spec fn rust_type() -> Seq<char> {
        "("@ + A0::rust_type() + ","@ + A1::rust_type() + ","@ + A2::rust_type() + ","@ + A3::rust_type() + ")"@
    }

    fn to_rust_expr(&self) -> (r: String) {
        let mut r = String::from_str("(");
        r.append(self.0.to_rust_expr().as_str());
        r.append(",");
        r.append(self.1.to_rust_expr().as_str());
        r.append(",");
        r.append(self.2.to_rust_expr().as_str());
        r.append(",");
        r.append(self.3.to_rust_expr().as_str());
        r.append(")");
        r
    }

    fn to_rust_type() -> (r: String) {
        let mut r = String::from_str("(");
        r.append(A0::to_rust_type().as_str());
        r.append(",");
        r.append(A1::to_rust_type().as_str());
        r.append(",");
        r.append(A2::to_rust_type().as_str());
        r.append(",");
        r.append(A3::to_rust_type().as_str());
        r.append(")");
        r
    }
}

impl<A0: Modelled, A1: Modelled, A2: Modelled, A3: Modelled, A4: Modelled> Modelled for (A0, A1, A2, A3, A4, ) {
    type V = (<A0 as Modelled>::V, <A1 as Modelled>::V, <A2 as Modelled>::V, <A3 as Modelled>::V, <A4 as Modelled>::V, );

    open spec fn model(&self) -> (<A0 as Modelled>::V, <A1 as Modelled>::V, <A2 as Modelled>::V, <A3 as Modelled>::V, <A4 as Modelled>::V, ) {
        (self.0.model(), self.1.model(), self.2.model(), self.3.model(), self.4.model(), )
    }
}

impl<A0: ToValueRepr, A1: ToValueRepr, A2: ToValueRepr, A3: ToValueRepr, A4: ToValueRepr> ToValueRepr for (A0, A1, A2, A3, A4, ) {
    open spec fn encode(v: (<A0 as Modelled>::V, <A1 as Modelled>::V, <A2 as Modelled>::V, <A3 as Modelled>::V, <A4 as Modelled>::V, )) -> ValueV {
        tagged("::tuple"@, seq![A0::encode(v.0), A1::encode(v.1), A2::encode(v.2), A3::encode(v.3), A4::encode(v.4)])
    }

    fn to_value_repr(&self) -> (r: Value) {
        let mut parts: Vec<Value> = Vec::new();
        parts.push(self.0.to_value_repr());
        parts.push(self.1.to_value_repr());
        parts.push(self.2.to_value_repr());
        parts.push(self.3.to_value_repr());
        parts.push(self.4.to_value_repr());
        assert(values_of(parts@) =~= seq![A0::encode(self.0.model()), A1::encode(self.1.model()), A2::encode(self.2.model()), A3::encode(self.3.model()), A4::encode(self.4.model())]);
        Value::mk_tagged("::tuple", parts.as_slice())
    }
}

impl<A0: FromValueRepr, A1: FromValueRepr, A2: FromValueRepr, A3: FromValueRepr, A4: FromValueRepr> FromValueRepr for (A0, A1, A2, A3, A4, ) {
    open spec fn decode(repr: ValueV) -> Option<(<A0 as Modelled>::V, <A1 as Modelled>::V, <A2 as Modelled>::V, <A3 as Modelled>::V, <A4 as Modelled>::V, )> {
        match parts_n(repr, "::tuple"@, 5) {
            Some(data) => match (A0::decode(data[0]), A1::decode(data[1]), A2::decode(data[2]), A3::decode(data[3]), A4::decode(data[4]), ) {
                (Some(x0), Some(x1), Some(x2), Some(x3), Some(x4), ) => Some((x0, x1, x2, x3, x4, )),
                _ => None,
            },
            None => None,
        }
    }

    fn from_value_repr(repr: &Value) -> (r: Result<Self, ExpectError>) {
        match repr.expect_tagged_n::<5>("::tuple") {
            Ok(data) => {
                assert(values_of(data@)[0] == data@[0]@);
                let x0 = match A0::from_value_repr(&data[0]) {
                    Ok(x) => x,
                    Err(e) => {
                        return Err(e);
                    },
                };
                assert(values_of(data@)[1] == data@[1]@);
                let x1 = match A1::from_value_repr(&data[1]) {
                    Ok(x) => x,
                    Err(e) => {
                        return Err(e);
                    },
                };
                assert(values_of(data@)[2] == data@[2]@);
                let x2 = match A2::from_value_repr(&data[2]) {
                    Ok(x) => x,
                    Err(e) => {
                        return Err(e);
                    },
                };
                assert(values_of(data@)[3] == data@[3]@);
                let x3 = match A3::from_value_repr(&data[3]) {
                    Ok(x) => x,
                    Err(e) => {
                        return Err(e);
                    },
                };
                assert(values_of(data@)[4] == data@[4]@);
                let x4 = match A4::from_value_repr(&data[4]) {
                    Ok(x) => x,
                    Err(e) => {
                        return Err(e);
                    },
                };
                Ok((x0, x1, x2, x3, x4, ))
            },
            Err(e) => Err(e),
        }
    }
}

impl<A0: Marshalled, A1: Marshalled, A2: Marshalled, A3: Marshalled, A4: Marshalled> Marshalled for (A0, A1, A2, A3, A4, ) {
    proof fn round_trip(v: (<A0 as Modelled>::V, <A1 as Modelled>::V, <A2 as Modelled>::V, <A3 as Modelled>::V, <A4 as Modelled>::V, )) {
        A0::round_trip(v.0);
        A1::round_trip(v.1);
        A2::round_trip(v.2);
        A3::round_trip(v.3);
        A4::round_trip(v.4);
        lemma_tagged_shape("::tuple"@, seq![A0::encode(v.0), A1::encode(v.1), A2::encode(v.2), A3::encode(v.3), A4::encode(v.4)]);
    }
}

impl<A0: ToRustExpr, A1: ToRustExpr, A2: ToRustExpr, A3: ToRustExpr, A4: ToRustExpr> ToRustExpr for (A0, A1, A2, A3, A4, ) {
    open spec fn rust_expr(v: (<A0 as Modelled>::V, <A1 as Modelled>::V, <A2 as Modelled>::V, <A3 as Modelled>::V, <A4 as Modelled>::V, )) -> Seq<char> {
        "("@ + A0::rust_expr(v.0) + ","@ + A1::rust_expr(v.1) + ","@ + A2::rust_expr(v.2) + ","@ + A3::rust_expr(v.3) + ","@ + A4::rust_expr(v.4) + ")"@
    }

    open spec fn rust_type() -> Seq<char> {
        "("@ + A0::rust_type() + ","@ + A1::rust_type() + ","@ + A2::rust_type() + ","@ + A3::rust_type() + ","@ + A4::rust_type() + ")"@
    }

    fn to_rust_expr(&self) -> (r: String) {
        let mut r = String::from_str("(");
        r.append(self.0.to_rust_expr().as_str());
        r.append(",");
        r.append(self.1.to_rust_expr().as_str());
        r.append(",");
        r.append(self.2.to_rust_expr().as_str());
        r.append(",");
        r.append(self.3.to_rust_expr().as_str());
        r.append(",");
        r.append(self.4.to_rust_expr().as_str());
        r.append(")");
        r
    }

    fn to_rust_type() -> (r: String) {
        let mut r = String::from_str("(");
        r.append(A0::to_rust_type().as_str());
        r.append(",");
        r.append(A1::to_rust_type().as_str());
        r.append(",");
        r.append(A2::to_rust_type().as_str());
        r.append(",");
        r.append(A3::to_rust_type().as_str());
        r.append(",");
        r.append(A4::to_rust_type().as_str());
        r.append(")");
        r
    }
}

impl<A0: Modelled, A1: Modelled, A2: Modelled, A3: Modelled, A4: Modelled, A5: Modelled> Modelled for (A0, A1, A2, A3, A4, A5, ) {
    type V = (<A0 as Modelled>::V, <A1 as Modelled>::V, <A2 as Modelled>::V, <A3 as Modelled>::V, <A4 as Modelled>::V, <A5 as Modelled>::V, );

    open spec fn model(&self) -> (<A0 as Modelled>::V, <A1 as Modelled>::V, <A2 as Modelled>::V, <A3 as Modelled>::V, <A4 as Modelled>::V, <A5 as Modelled>::V, ) {
        (self.0.model(), self.1.model(), self.2.model(), self.3.model(), self.4.model(), self.5.model(), )
    }
}

impl<A0: ToValueRepr, A1: ToValueRepr, A2: ToValueRepr, A3: ToValueRepr, A4: ToValueRepr, A5: ToValueRepr> ToValueRepr for (A0, A1, A2, A3, A4, A5, ) {
    open spec fn encode(v: (<A0 as Modelled>::V, <A1 as Modelled>::V, <A2 as Modelled>::V, <A3 as Modelled>::V, <A4 as Modelled>::V, <A5 as Modelled>::V, )) -> ValueV {
        tagged("::tuple"@, seq![A0::encode(v.0), A1::encode(v.1), A2::encode(v.2), A3::encode(v.3), A4::encode(v.4), A5::encode(v.5)])
    }

    fn to_value_repr(&self) -> (r: Value) {
        let mut parts: Vec<Value> = Vec::new();
        parts.push(self.0.to_value_repr());
        parts.push(self.1.to_value_repr());
        parts.push(self.2.to_value_repr());
        parts.push(self.3.to_value_repr());
        parts.push(self.4.to_value_repr());
        parts.push(self.5.to_value_repr());
        assert(values_of(parts@) =~= seq![A0::encode(self.0.model()), A1::encode(self.1.model()), A2::encode(self.2.model()), A3::encode(self.3.model()), A4::encode(self.4.model()), A5::encode(self.5.model())]);
        Value::mk_tagged("::tuple", parts.as_slice())
    }
}

impl<A0: FromValueRepr, A1: FromValueRepr, A2: FromValueRepr, A3: FromValueRepr, A4: FromValueRepr, A5: FromValueRepr> FromValueRepr for (A0, A1, A2, A3, A4, A5, ) {
    open spec fn decode(repr: ValueV) -> Option<(<A0 as Modelled>::V, <A1 as Modelled>::V, <A2 as Modelled>::V, <A3 as Modelled>::V, <A4 as Modelled>::V, <A5 as Modelled>::V, )> {
        match parts_n(repr, "::tuple"@, 6) {
            Some(data) => match (A0::decode(data[0]), A1::decode(data[1]), A2::decode(data[2]), A3::decode(data[3]), A4::decode(data[4]), A5::decode(data[5]), ) {
                (Some(x0), Some(x1), Some(x2), Some(x3), Some(x4), Some(x5), ) => Some((x0, x1, x2, x3, x4, x5, )),
                _ => None,
            },
            None => None,
        }
    }

    fn from_value_repr(repr: &Value) -> (r: Result<Self, ExpectError>) {
        match repr.expect_tagged_n::<6>("::tuple") {
            Ok(data) => {
                assert(values_of(data@)[0] == data@[0]@);
                let x0 = match A0::from_value_repr(&data[0]) {
                    Ok(x) => x,
                    Err(e) => {
                        return Err(e);
                    },
                };
                assert(values_of(data@)[1] == data@[1]@);
                let x1 = match A1::from_value_repr(&data[1]) {
                    Ok(x) => x,
                    Err(e) => {
                        return Err(e);
                    },
                };
                assert(values_of(data@)[2] == data@[2]@);
                let x2 = match A2::from_value_repr(&data[2]) {
                    Ok(x) => x,
                    Err(e) => {
                        return Err(e);
                    },
                };
                assert(values_of(data@)[3] == data@[3]@);
                let x3 = match A3::from_value_repr(&data[3]) {
                    Ok(x) => x,
                    Err(e) => {
                        return Err(e);
                    },
                };
                assert(values_of(data@)[4] == data@[4]@);
                let x4 = match A4::from_value_repr(&data[4]) {
                    Ok(x) => x,
                    Err(e) => {
                        return Err(e);
                    },
                };
                assert(values_of(data@)[5] == data@[5]@);
                let x5 = match A5::from_value_repr(&data[5]) {
                    Ok(x) => x,
                    Err(e) => {
                        return Err(e);
                    },
                };
                Ok((x0, x1, x2, x3, x4, x5, ))
            },
            Err(e) => Err(e),
        }
    }
}

impl<A0: Marshalled, A1: Marshalled, A2: Marshalled, A3: Marshalled, A4: Marshalled, A5: Marshalled> Marshalled for (A0, A1, A2, A3, A4, A5, ) {
    proof fn round_trip(v: (<A0 as Modelled>::V, <A1 as Modelled>::V, <A2 as Modelled>::V, <A3 as Modelled>::V, <A4 as Modelled>::V, <A5 as Modelled>::V, )) {
        A0::round_trip(v.0);
        A1::round_trip(v.1);
        A2::round_trip(v.2);
        A3::round_trip(v.3);
        A4::round_trip(v.4);
        A5::round_trip(v.5);
        lemma_tagged_shape("::tuple"@, seq![A0::encode(v.0), A1::encode(v.1), A2::encode(v.2), A3::encode(v.3), A4::encode(v.4), A5::encode(v.5)]);
    }
}

impl<A0: ToRustExpr, A1: ToRustExpr, A2: ToRustExpr, A3: ToRustExpr, A4: ToRustExpr, A5: ToRustExpr> ToRustExpr for (A0, A1, A2, A3, A4, A5, ) {
    open spec fn rust_expr(v: (<A0 as Modelled>::V, <A1 as Modelled>::V, <A2 as Modelled>::V, <A3 as Modelled>::V, <A4 as Modelled>::V, <A5 as Modelled>::V, )) -> Seq<char> {
        "("@ + A0::rust_expr(v.0) + ","@ + A1::rust_expr(v.1) + ","@ + A2::rust_expr(v.2) + ","@ + A3::rust_expr(v.3) + ","@ + A4::rust_expr(v.4) + ","@ + A5::rust_expr(v.5) + ")"@
    }

    open spec fn rust_type() -> Seq<char> {
        "("@ + A0::rust_type() + ","@ + A1::rust_type() + ","@ + A2::rust_type() + ","@ + A3::rust_type() + ","@ + A4::rust_type() + ","@ + A5::rust_type() + ")"@
    }

    fn to_rust_expr(&self) -> (r: String) {
        let mut r = String::from_str("(");
        r.append(self.0.to_rust_expr().as_str());
        r.append(",");
        r.append(self.1.to_rust_expr().as_str());
        r.append(",");
        r.append(self.2.to_rust_expr().as_str());
        r.append(",");
        r.append(self.3.to_rust_expr().as_str());
        r.append(",");
        r.append(self.4.to_rust_expr().as_str());
        r.append(",");
        r.append(self.5.to_rust_expr().as_str());
        r.append(")");
        r
    }

    fn to_rust_type() -> (r: String) {
        let mut r = String::from_str("(");
        r.append(A0::to_rust_type().as_str());
        r.append(",");
        r.append(A1::to_rust_type().as_str());
        r.append(",");
        r.append(A2::to_rust_type().as_str());
        r.append(",");
        r.append(A3::to_rust_type().as_str());
        r.append(",");
        r.append(A4::to_rust_type().as_str());
        r.append(",");
        r.append(A5::to_rust_type().as_str());
        r.append(")");
        r
    }
}

impl<A0: Modelled, A1: Modelled, A2: Modelled, A3: Modelled, A4: Modelled, A5: Modelled, A6: Modelled> Modelled for (A0, A1, A2, A3, A4, A5, A6, ) {
    type V = (<A0 as Modelled>::V, <A1 as Modelled>::V, <A2 as Modelled>::V, <A3 as Modelled>::V, <A4 as Modelled>::V, <A5 as Modelled>::V, <A6 as Modelled>::V, );

    open spec fn model(&self) -> (<A0 as Modelled>::V, <A1 as Modelled>::V, <A2 as Modelled>::V, <A3 as Modelled>::V, <A4 as Modelled>::V, <A5 as Modelled>::V, <A6 as Modelled>::V, ) {
        (self.0.model(), self.1.model(), self.2.model(), self.3.model(), self.4.model(), self.5.model(), self.6.model(), )
    }
}

impl<A0: ToValueRepr, A1: ToValueRepr, A2: ToValueRepr, A3: ToValueRepr, A4: ToValueRepr, A5: ToValueRepr, A6: ToValueRepr> ToValueRepr for (A0, A1, A2, A3, A4, A5, A6, ) {
    open spec fn encode(v: (<A0 as Modelled>::V, <A1 as Modelled>::V, <A2 as Modelled>::V, <A3 as Modelled>::V, <A4 as Modelled>::V, <A5 as Modelled>::V, <A6 as Modelled>::V, )) -> ValueV {
        tagged("::tuple"@, seq![A0::encode(v.0), A1::encode(v.1), A2::encode(v.2), A3::encode(v.3), A4::encode(v.4), A5::encode(v.5), A6::encode(v.6)])
    }

    fn to_value_repr(&self) -> (r: Value) {
        let mut parts: Vec<Value> = Vec::new();
        parts.push(self.0.to_value_repr());
        parts.push(self.1.to_value_repr());
        parts.push(self.2.to_value_repr());
        parts.push(self.3.to_value_repr());
        parts.push(self.4.to_value_repr());
        parts.push(self.5.to_value_repr());
        parts.push(self.6.to_value_repr());
        assert(values_of(parts@) =~= seq![A0::encode(self.0.model()), A1::encode(self.1.model()), A2::encode(self.2.model()), A3::encode(self.3.model()), A4::encode(self.4.model()), A5::encode(self.5.model()), A6::encode(self.6.model())]);
        Value::mk_tagged("::tuple", parts.as_slice())
    }
}

impl<A0: FromValueRepr, A1: FromValueRepr, A2: FromValueRepr, A3: FromValueRepr, A4: FromValueRepr, A5: FromValueRepr, A6: FromValueRepr> FromValueRepr for (A0, A1, A2, A3, A4, A5, A6, ) {
    open spec fn decode(repr: ValueV) -> Option<(<A0 as Modelled>::V, <A1 as Modelled>::V, <A2 as Modelled>::V, <A3 as Modelled>::V, <A4 as Modelled>::V, <A5 as Modelled>::V, <A6 as Modelled>::V, )> {
        match parts_n(repr, "::tuple"@, 7) {
            Some(data) => match (A0::decode(data[0]), A1::decode(data[1]), A2::decode(data[2]), A3::decode(data[3]), A4::decode(data[4]), A5::decode(data[5]), A6::decode(data[6]), ) {
                (Some(x0), Some(x1), Some(x2), Some(x3), Some(x4), Some(x5), Some(x6), ) => Some((x0, x1, x2, x3, x4, x5, x6, )),
                _ => None,
            },
            None => None,
        }
    }

    fn from_value_repr(repr: &Value) -> (r: Result<Self, ExpectError>) {
        match repr.expect_tagged_n::<7>("::tuple") {
            Ok(data) => {
                assert(values_of(data@)[0] == data@[0]@);
                let x0 = match A0::from_value_repr(&data[0]) {
                    Ok(x) => x,
                    Err(e) => {
                        return Err(e);
                    },
                };
                assert(values_of(data@)[1] == data@[1]@);
                let x1 = match A1::from_value_repr(&data[1]) {
                    Ok(x) => x,
                    Err(e) => {
                        return Err(e);
                    },
                };
                assert(values_of(data@)[2] == data@[2]@);
                let x2 = match A2::from_value_repr(&data[2]) {
                    Ok(x) => x,
                    Err(e) => {
                        return Err(e);
                    },
                };
                assert(values_of(data@)[3] == data@[3]@);
                let x3 = match A3::from_value_repr(&data[3]) {
                    Ok(x) => x,
                    Err(e) => {
                        return Err(e);
                    },
                };
                assert(values_of(data@)[4] == data@[4]@);
                let x4 = match A4::from_value_repr(&data[4]) {
                    Ok(x) => x,
                    Err(e) => {
                        return Err(e);
                    },
                };
                assert(values_of(data@)[5] == data@[5]@);
                let x5 = match A5::from_value_repr(&data[5]) {
                    Ok(x) => x,
                    Err(e) => {
                        return Err(e);
                    },
                };
                assert(values_of(data@)[6] == data@[6]@);
                let x6 = match A6::from_value_repr(&data[6]) {
                    Ok(x) => x,
                    Err(e) => {
                        return Err(e);
                    },
                };
                Ok((x0, x1, x2, x3, x4, x5, x6, ))
            },
            Err(e) => Err(e),
        }
    }
}

impl<A0: Marshalled, A1: Marshalled, A2: Marshalled, A3: Marshalled, A4: Marshalled, A5: Marshalled, A6: Marshalled> Marshalled for (A0, A1, A2, A3, A4, A5, A6, ) {
    proof fn round_trip(v: (<A0 as Modelled>::V, <A1 as Modelled>::V, <A2 as Modelled>::V, <A3 as Modelled>::V, <A4 as Modelled>::V, <A5 as Modelled>::V, <A6 as Modelled>::V, )) {
        A0::round_trip(v.0);
        A1::round_trip(v.1);
        A2::round_trip(v.2);
        A3::round_trip(v.3);
        A4::round_trip(v.4);
        A5::round_trip(v.5);
        A6::round_trip(v.6);
        lemma_tagged_shape("::tuple"@, seq![A0::encode(v.0), A1::encode(v.1), A2::encode(v.2), A3::encode(v.3), A4::encode(v.4), A5::encode(v.5), A6::encode(v.6)]);
    }
}

impl<A0: ToRustExpr, A1: ToRustExpr, A2: ToRustExpr, A3: ToRustExpr, A4: ToRustExpr, A5: ToRustExpr, A6: ToRustExpr> ToRustExpr for (A0, A1, A2, A3, A4, A5, A6, ) {
    open spec fn rust_expr(v: (<A0 as Modelled>::V, <A1 as Modelled>::V, <A2 as Modelled>::V, <A3 as Modelled>::V, <A4 as Modelled>::V, <A5 as Modelled>::V, <A6 as Modelled>::V, )) -> Seq<char> {
        "("@ + A0::rust_expr(v.0) + ","@ + A1::rust_expr(v.1) + ","@ + A2::rust_expr(v.2) + ","@ + A3::rust_expr(v.3) + ","@ + A4::rust_expr(v.4) + ","@ + A5::rust_expr(v.5) + ","@ + A6::rust_expr(v.6) + ")"@
    }

    open spec fn rust_type() -> Seq<char> {
        "("@ + A0::rust_type() + ","@ + A1::rust_type() + ","@ + A2::rust_type() + ","@ + A3::rust_type() + ","@ + A4::rust_type() + ","@ + A5::rust_type() + ","@ + A6::rust_type() + ")"@
    }

    fn to_rust_expr(&self) -> (r: String) {
        let mut r = String::from_str("(");
        r.append(self.0.to_rust_expr().as_str());
        r.append(",");
        r.append(self.1.to_rust_expr().as_str());
        r.append(",");
        r.append(self.2.to_rust_expr().as_str());
        r.append(",");
        r.append(self.3.to_rust_expr().as_str());
        r.append(",");
        r.append(self.4.to_rust_expr().as_str());
        r.append(",");
        r.append(self.5.to_rust_expr().as_str());
        r.append(",");
        r.append(self.6.to_rust_expr().as_str());
        r.append(")");
        r
    }

    fn to_rust_type() -> (r: String) {
        let mut r = String::from_str("(");
        r.append(A0::to_rust_type().as_str());
        r.append(",");
        r.append(A1::to_rust_type().as_str());
        r.append(",");
        r.append(A2::to_rust_type().as_str());
        r.append(",");
        r.append(A3::to_rust_type().as_str());
        r.append(",");
        r.append(A4::to_rust_type().as_str());
        r.append(",");
        r.append(A5::to_rust_type().as_str());
        r.append(",");
        r.append(A6::to_rust_type().as_str());
        r.append(")");
        r
    }
}

impl<A0: Modelled, A1: Modelled, A2: Modelled, A3: Modelled, A4: Modelled, A5: Modelled, A6: Modelled, A7: Modelled> Modelled for (A0, A1, A2, A3, A4, A5, A6, A7, ) {
    type V = (<A0 as Modelled>::V, <A1 as Modelled>::V, <A2 as Modelled>::V, <A3 as Modelled>::V, <A4 as Modelled>::V, <A5 as Modelled>::V, <A6 as Modelled>::V, <A7 as Modelled>::V, );

    open spec fn model(&self) -> (<A0 as Modelled>::V, <A1 as Modelled>::V, <A2 as Modelled>::V, <A3 as Modelled>::V, <A4 as Modelled>::V, <A5 as Modelled>::V, <A6 as Modelled>::V, <A7 as Modelled>::V, ) {
        (self.0.model(), self.1.model(), self.2.model(), self.3.model(), self.4.model(), self.5.model(), self.6.model(), self.7.model(), )
    }
}

impl<A0: ToValueRepr, A1: ToValueRepr, A2: ToValueRepr, A3: ToValueRepr, A4: ToValueRepr, A5: ToValueRepr, A6: ToValueRepr, A7: ToValueRepr> ToValueRepr for (A0, A1, A2, A3, A4, A5, A6, A7, ) {
    open spec fn encode(v: (<A0 as Modelled>::V, <A1 as Modelled>::V, <A2 as Modelled>::V, <A3 as Modelled>::V, <A4 as Modelled>::V, <A5 as Modelled>::V, <A6 as Modelled>::V, <A7 as Modelled>::V, )) -> ValueV {
        tagged("::tuple"@, seq![A0::encode(v.0), A1::encode(v.1), A2::encode(v.2), A3::encode(v.3), A4::encode(v.4), A5::encode(v.5), A6::encode(v.6), A7::encode(v.7)])
    }

    fn to_value_repr(&self) -> (r: Value) {
        let mut parts: Vec<Value> = Vec::new();
        parts.push(self.0.to_value_repr());
        parts.push(self.1.to_value_repr());
        parts.push(self.2.to_value_repr());
        parts.push(self.3.to_value_repr());
        parts.push(self.4.to_value_repr());
        parts.push(self.5.to_value_repr());
        parts.push(self.6.to_value_repr());
        parts.push(self.7.to_value_repr());
        assert(values_of(parts@) =~= seq![A0::encode(self.0.model()), A1::encode(self.1.model()), A2::encode(self.2.model()), A3::encode(self.3.model()), A4::encode(self.4.model()), A5::encode(self.5.model()), A6::encode(self.6.model()), A7::encode(self.7.model())]);
        Value::mk_tagged("::tuple", parts.as_slice())
    }
}

impl<A0: FromValueRepr, A1: FromValueRepr, A2: FromValueRepr, A3: FromValueRepr, A4: FromValueRepr, A5: FromValueRepr, A6: FromValueRepr, A7: FromValueRepr> FromValueRepr for (A0, A1, A2, A3, A4, A5, A6, A7, ) {
    open spec fn decode(repr: ValueV) -> Option<(<A0 as Modelled>::V, <A1 as Modelled>::V, <A2 as Modelled>::V, <A3 as Modelled>::V, <A4 as Modelled>::V, <A5 as Modelled>::V, <A6 as Modelled>::V, <A7 as Modelled>::V, )> {
        match parts_n(repr, "::tuple"@, 8) {
            Some(data) => match (A0::decode(data[0]), A1::decode(data[1]), A2::decode(data[2]), A3::decode(data[3]), A4::decode(data[4]), A5::decode(data[5]), A6::decode(data[6]), A7::decode(data[7]), ) {
                (Some(x0), Some(x1), Some(x2), Some(x3), Some(x4), Some(x5), Some(x6), Some(x7), ) => Some((x0, x1, x2, x3, x4, x5, x6, x7, )),
                _ => None,
            },
            None => None,
        }
    }

    fn from_value_repr(repr: &Value) -> (r: Result<Self, ExpectError>) {
        match repr.expect_tagged_n::<8>("::tuple") {
            Ok(data) => {
                assert(values_of(data@)[0] == data@[0]@);
                let x0 = match A0::from_value_repr(&data[0]) {
                    Ok(x) => x,
                    Err(e) => {
                        return Err(e);
                    },
                };
                assert(values_of(data@)[1] == data@[1]@);
                let x1 = match A1::from_value_repr(&data[1]) {
                    Ok(x) => x,
                    Err(e) => {
                        return Err(e);
                    },
                };
                assert(values_of(data@)[2] == data@[2]@);
                let x2 = match A2::from_value_repr(&data[2]) {
                    Ok(x) => x,
                    Err(e) => {
                        return Err(e);
                    },
                };
                assert(values_of(data@)[3] == data@[3]@);
                let x3 = match A3::from_value_repr(&data[3]) {
                    Ok(x) => x,
                    Err(e) => {
                        return Err(e);
                    },
                };
                assert(values_of(data@)[4] == data@[4]@);
                let x4 = match A4::from_value_repr(&data[4]) {
                    Ok(x) => x,
                    Err(e) => {
                        return Err(e);
                    },
                };
                assert(values_of(data@)[5] == data@[5]@);
                let x5 = match A5::from_value_repr(&data[5]) {
                    Ok(x) => x,
                    Err(e) => {
                        return Err(e);
                    },
                };
                assert(values_of(data@)[6] == data@[6]@);
                let x6 = match A6::from_value_repr(&data[6]) {
                    Ok(x) => x,
                    Err(e) => {
                        return Err(e);
                    },
                };
                assert(values_of(data@)[7] == data@[7]@);
                let x7 = match A7::from_value_repr(&data[7]) {
                    Ok(x) => x,
                    Err(e) => {
                        return Err(e);
                    },
                };
                Ok((x0, x1, x2, x3, x4, x5, x6, x7, ))
            },
            Err(e) => Err(e),
        }
    }
}

impl<A0: Marshalled, A1: Marshalled, A2: Marshalled, A3: Marshalled, A4: Marshalled, A5: Marshalled, A6: Marshalled, A7: Marshalled> Marshalled for (A0, A1, A2, A3, A4, A5, A6, A7, ) {
    proof fn round_trip(v: (<A0 as Modelled>::V, <A1 as Modelled>::V, <A2 as Modelled>::V, <A3 as Modelled>::V, <A4 as Modelled>::V, <A5 as Modelled>::V, <A6 as Modelled>::V, <A7 as Modelled>::V, )) {
        A0::round_trip(v.0);
        A1::round_trip(v.1);
        A2::round_trip(v.2);
        A3::round_trip(v.3);
        A4::round_trip(v.4);
        A5::round_trip(v.5);
        A6::round_trip(v.6);
        A7::round_trip(v.7);
        lemma_tagged_shape("::tuple"@, seq![A0::encode(v.0), A1::encode(v.1), A2::encode(v.2), A3::encode(v.3), A4::encode(v.4), A5::encode(v.5), A6::encode(v.6), A7::encode(v.7)]);
    }
}

impl<A0: ToRustExpr, A1: ToRustExpr, A2: ToRustExpr, A3: ToRustExpr, A4: ToRustExpr, A5: ToRustExpr, A6: ToRustExpr, A7: ToRustExpr> ToRustExpr for (A0, A1, A2, A3, A4, A5, A6, A7, ) {
    open spec fn rust_expr(v: (<A0 as Modelled>::V, <A1 as Modelled>::V, <A2 as Modelled>::V, <A3 as Modelled>::V, <A4 as Modelled>::V, <A5 as Modelled>::V, <A6 as Modelled>::V, <A7 as Modelled>::V, )) -> Seq<char> {
        "("@ + A0::rust_expr(v.0) + ","@ + A1::rust_expr(v.1) + ","@ + A2::rust_expr(v.2) + ","@ + A3::rust_expr(v.3) + ","@ + A4::rust_expr(v.4) + ","@ + A5::rust_expr(v.5) + ","@ + A6::rust_expr(v.6) + ","@ + A7::rust_expr(v.7) + ")"@
    }

    open spec fn rust_type() -> Seq<char> {
        "("@ + A0::rust_type() + ","@ + A1::rust_type() + ","@ + A2::rust_type() + ","@ + A3::rust_type() + ","@ + A4::rust_type() + ","@ + A5::rust_type() + ","@ + A6::rust_type() + ","@ + A7::rust_type() + ")"@
    }

    fn to_rust_expr(&self) -> (r: String) {
        let mut r = String::from_str("(");
        r.append(self.0.to_rust_expr().as_str());
        r.append(",");
        r.append(self.1.to_rust_expr().as_str());
        r.append(",");
        r.append(self.2.to_rust_expr().as_str());
        r.append(",");
        r.append(self.3.to_rust_expr().as_str());
        r.append(",");
        r.append(self.4.to_rust_expr().as_str());
        r.append(",");
        r.append(self.5.to_rust_expr().as_str());
        r.append(",");
        r.append(self.6.to_rust_expr().as_str());
        r.append(",");
        r.append(self.7.to_rust_expr().as_str());
        r.append(")");
        r
    }

    fn to_rust_type() -> (r: String) {
        let mut r = String::from_str("(");
        r.append(A0::to_rust_type().as_str());
        r.append(",");
        r.append(A1::to_rust_type().as_str());
        r.append(",");
        r.append(A2::to_rust_type().as_str());
        r.append(",");
        r.append(A3::to_rust_type().as_str());
        r.append(",");
        r.append(A4::to_rust_type().as_str());
        r.append(",");
        r.append(A5::to_rust_type().as_str());
        r.append(",");
        r.append(A6::to_rust_type().as_str());
        r.append(",");
        r.append(A7::to_rust_type().as_str());
        r.append(")");
        r
    }
}

impl<A0: Modelled, A1: Modelled, A2: Modelled, A3: Modelled, A4: Modelled, A5: Modelled, A6: Modelled, A7: Modelled, A8: Modelled> Modelled for (A0, A1, A2, A3, A4, A5, A6, A7, A8, ) {
    type V = (<A0 as Modelled>::V, <A1 as Modelled>::V, <A2 as Modelled>::V, <A3 as Modelled>::V, <A4 as Modelled>::V, <A5 as Modelled>::V, <A6 as Modelled>::V, <A7 as Modelled>::V, <A8 as Modelled>::V, );

    open spec fn model(&self) -> (<A0 as Modelled>::V, <A1 as Modelled>::V, <A2 as Modelled>::V, <A3 as Modelled>::V, <A4 as Modelled>::V, <A5 as Modelled>::V, <A6 as Modelled>::V, <A7 as Modelled>::V, <A8 as Modelled>::V, ) {
        (self.0.model(), self.1.model(), self.2.model(), self.3.model(), self.4.model(), self.5.model(), self.6.model(), self.7.model(), self.8.model(), )
    }
}

impl<A0: ToValueRepr, A1: ToValueRepr, A2: ToValueRepr, A3: ToValueRepr, A4: ToValueRepr, A5: ToValueRepr, A6: ToValueRepr, A7: ToValueRepr, A8: ToValueRepr> ToValueRepr for (A0, A1, A2, A3, A4, A5, A6, A7, A8, ) {
    open spec fn encode(v: (<A0 as Modelled>::V, <A1 as Modelled>::V, <A2 as Modelled>::V, <A3 as Modelled>::V, <A4 as Modelled>::V, <A5 as Modelled>::V, <A6 as Modelled>::V, <A7 as Modelled>::V, <A8 as Modelled>::V, )) -> ValueV {
        tagged("::tuple"@, seq![A0::encode(v.0), A1::encode(v.1), A2::encode(v.2), A3::encode(v.3), A4::encode(v.4), A5::encode(v.5), A6::encode(v.6), A7::encode(v.7), A8::encode(v.8)])
    }

    fn to_value_repr(&self) -> (r: Value) {
        let mut parts: Vec<Value> = Vec::new();
        parts.push(self.0.to_value_repr());
        parts.push(self.1.to_value_repr());
        parts.push(self.2.to_value_repr());
        parts.push(self.3.to_value_repr());
        parts.push(self.4.to_value_repr());
        parts.push(self.5.to_value_repr());
        parts.push(self.6.to_value_repr());
        parts.push(self.7.to_value_repr());
        parts.push(self.8.to_value_repr());
        assert(values_of(parts@) =~= seq![A0::encode(self.0.model()), A1::encode(self.1.model()), A2::encode(self.2.model()), A3::encode(self.3.model()), A4::encode(self.4.model()), A5::encode(self.5.model()), A6::encode(self.6.model()), A7::encode(self.7.model()), A8::encode(self.8.model())]);
        Value::mk_tagged("::tuple", parts.as_slice())
    }
}

impl<A0: FromValueRepr, A1: FromValueRepr, A2: FromValueRepr, A3: FromValueRepr, A4: FromValueRepr, A5: FromValueRepr, A6: FromValueRepr, A7: FromValueRepr, A8: FromValueRepr> FromValueRepr for (A0, A1, A2, A3, A4, A5, A6, A7, A8, ) {
    open spec fn decode(repr: ValueV) -> Option<(<A0 as Modelled>::V, <A1 as Modelled>::V, <A2 as Modelled>::V, <A3 as Modelled>::V, <A4 as Modelled>::V, <A5 as Modelled>::V, <A6 as Modelled>::V, <A7 as Modelled>::V, <A8 as Modelled>::V, )> {
        match parts_n(repr, "::tuple"@, 9) {
            Some(data) => match (A0::decode(data[0]), A1::decode(data[1]), A2::decode(data[2]), A3::decode(data[3]), A4::decode(data[4]), A5::decode(data[5]), A6::decode(data[6]), A7::decode(data[7]), A8::decode(data[8]), ) {
                (Some(x0), Some(x1), Some(x2), Some(x3), Some(x4), Some(x5), Some(x6), Some(x7), Some(x8), ) => Some((x0, x1, x2, x3, x4, x5, x6, x7, x8, )),
                _ => None,
            },
            None => None,
        }
    }

    fn from_value_repr(repr: &Value) -> (r: Result<Self, ExpectError>) {
        match repr.expect_tagged_n::<9>("::tuple") {
            Ok(data) => {
                assert(values_of(data@)[0] == data@[0]@);
                let x0 = match A0::from_value_repr(&data[0]) {
                    Ok(x) => x,
                    Err(e) => {
                        return Err(e);
                    },
                };
                assert(values_of(data@)[1] == data@[1]@);
                let x1 = match A1::from_value_repr(&data[1]) {
                    Ok(x) => x,
                    Err(e) => {
                        return Err(e);
                    },
                };
                assert(values_of(data@)[2] == data@[2]@);
                let x2 = match A2::from_value_repr(&data[2]) {
                    Ok(x) => x,
                    Err(e) => {
                        return Err(e);
                    },
                };
                assert(values_of(data@)[3] == data@[3]@);
                let x3 = match A3::from_value_repr(&data[3]) {
                    Ok(x) => x,
                    Err(e) => {
                        return Err(e);
                    },
                };
                assert(values_of(data@)[4] == data@[4]@);
                let x4 = match A4::from_value_repr(&data[4]) {
                    Ok(x) => x,
                    Err(e) => {
                        return Err(e);
                    },
                };
                assert(values_of(data@)[5] == data@[5]@);
                let x5 = match A5::from_value_repr(&data[5]) {
                    Ok(x) => x,
                    Err(e) => {
                        return Err(e);
                    },
                };
                assert(values_of(data@)[6] == data@[6]@);
                let x6 = match A6::from_value_repr(&data[6]) {
                    Ok(x) => x,
                    Err(e) => {
                        return Err(e);
                    },
                };
                assert(values_of(data@)[7] == data@[7]@);
                let x7 = match A7::from_value_repr(&data[7]) {
                    Ok(x) => x,
                    Err(e) => {
                        return Err(e);
                    },
                };
                assert(values_of(data@)[8] == data@[8]@);
                let x8 = match A8::from_value_repr(&data[8]) {
                    Ok(x) => x,
                    Err(e) => {
                        return Err(e);
                    },
                };
                Ok((x0, x1, x2, x3, x4, x5, x6, x7, x8, ))
            },
            Err(e) => Err(e),
        }
    }
}

impl<A0: Marshalled, A1: Marshalled, A2: Marshalled, A3: Marshalled, A4: Marshalled, A5: Marshalled, A6: Marshalled, A7: Marshalled, A8: Marshalled> Marshalled for (A0, A1, A2, A3, A4, A5, A6, A7, A8, ) {
    proof fn round_trip(v: (<A0 as Modelled>::V, <A1 as Modelled>::V, <A2 as Modelled>::V, <A3 as Modelled>::V, <A4 as Modelled>::V, <A5 as Modelled>::V, <A6 as Modelled>::V, <A7 as Modelled>::V, <A8 as Modelled>::V, )) {
        A0::round_trip(v.0);
        A1::round_trip(v.1);
        A2::round_trip(v.2);
        A3::round_trip(v.3);
        A4::round_trip(v.4);
        A5::round_trip(v.5);
        A6::round_trip(v.6);
        A7::round_trip(v.7);
        A8::round_trip(v.8);
        lemma_tagged_shape("::tuple"@, seq![A0::encode(v.0), A1::encode(v.1), A2::encode(v.2), A3::encode(v.3), A4::encode(v.4), A5::encode(v.5), A6::encode(v.6), A7::encode(v.7), A8::encode(v.8)]);
    }
}

impl<A0: ToRustExpr, A1: ToRustExpr, A2: ToRustExpr, A3: ToRustExpr, A4: ToRustExpr, A5: ToRustExpr, A6: ToRustExpr, A7: ToRustExpr, A8: ToRustExpr> ToRustExpr for (A0, A1, A2, A3, A4, A5, A6, A7, A8, ) {
    open spec fn rust_expr(v: (<A0 as Modelled>::V, <A1 as Modelled>::V, <A2 as Modelled>::V, <A3 as Modelled>::V, <A4 as Modelled>::V, <A5 as Modelled>::V, <A6 as Modelled>::V, <A7 as Modelled>::V, <A8 as Modelled>::V, )) -> Seq<char> {
        "("@ + A0::rust_expr(v.0) + ","@ + A1::rust_expr(v.1) + ","@ + A2::rust_expr(v.2) + ","@ + A3::rust_expr(v.3) + ","@ + A4::rust_expr(v.4) + ","@ + A5::rust_expr(v.5) + ","@ + A6::rust_expr(v.6) + ","@ + A7::rust_expr(v.7) + ","@ + A8::rust_expr(v.8) + ")"@
    }

    open spec fn rust_type() -> Seq<char> {
        "("@ + A0::rust_type() + ","@ + A1::rust_type() + ","@ + A2::rust_type() + ","@ + A3::rust_type() + ","@ + A4::rust_type() + ","@ + A5::rust_type() + ","@ + A6::rust_type() + ","@ + A7::rust_type() + ","@ + A8::rust_type() + ")"@
    }

    fn to_rust_expr(&self) -> (r: String) {
        let mut r = String::from_str("(");
        r.append(self.0.to_rust_expr().as_str());
        r.append(",");
        r.append(self.1.to_rust_expr().as_str());
        r.append(",");
        r.append(self.2.to_rust_expr().as_str());
        r.append(",");
        r.append(self.3.to_rust_expr().as_str());
        r.append(",");
        r.append(self.4.to_rust_expr().as_str());
        r.append(",");
        r.append(self.5.to_rust_expr().as_str());
        r.append(",");
        r.append(self.6.to_rust_expr().as_str());
        r.append(",");
        r.append(self.7.to_rust_expr().as_str());
        r.append(",");
        r.append(self.8.to_rust_expr().as_str());
        r.append(")");
        r
    }

    fn to_rust_type() -> (r: String) {
        let mut r = String::from_str("(");
        r.append(A0::to_rust_type().as_str());
        r.append(",");
        r.append(A1::to_rust_type().as_str());
        r.append(",");
        r.append(A2::to_rust_type().as_str());
        r.append(",");
        r.append(A3::to_rust_type().as_str());
        r.append(",");
        r.append(A4::to_rust_type().as_str());
        r.append(",");
        r.append(A5::to_rust_type().as_str());
        r.append(",");
        r.append(A6::to_rust_type().as_str());
        r.append(",");
        r.append(A7::to_rust_type().as_str());
        r.append(",");
        r.append(A8::to_rust_type().as_str());
        r.append(")");
        r
    }
}

impl<A0: Modelled, A1: Modelled, A2: Modelled, A3: Modelled, A4: Modelled, A5: Modelled, A6: Modelled, A7: Modelled, A8: Modelled, A9: Modelled> Modelled for (A0, A1, A2, A3, A4, A5, A6, A7, A8, A9, ) {
    type V = (<A0 as Modelled>::V, <A1 as Modelled>::V, <A2 as Modelled>::V, <A3 as Modelled>::V, <A4 as Modelled>::V, <A5 as Modelled>::V, <A6 as Modelled>::V, <A7 as Modelled>::V, <A8 as Modelled>::V, <A9 as Modelled>::V, );

    open spec fn model(&self) -> (<A0 as Modelled>::V, <A1 as Modelled>::V, <A2 as Modelled>::V, <A3 as Modelled>::V, <A4 as Modelled>::V, <A5 as Modelled>::V, <A6 as Modelled>::V, <A7 as Modelled>::V, <A8 as Modelled>::V, <A9 as Modelled>::V, ) {
        (self.0.model(), self.1.model(), self.2.model(), self.3.model(), self.4.model(), self.5.model(), self.6.model(), self.7.model(), self.8.model(), self.9.model(), )
    }
}

impl<A0: ToValueRepr, A1: ToValueRepr, A2: ToValueRepr, A3: ToValueRepr, A4: ToValueRepr, A5: ToValueRepr, A6: ToValueRepr, A7: ToValueRepr, A8: ToValueRepr, A9: ToValueRepr> ToValueRepr for (A0, A1, A2, A3, A4, A5, A6, A7, A8, A9, ) {
    open spec fn encode(v: (<A0 as Modelled>::V, <A1 as Modelled>::V, <A2 as Modelled>::V, <A3 as Modelled>::V, <A4 as Modelled>::V, <A5 as Modelled>::V, <A6 as Modelled>::V, <A7 as Modelled>::V, <A8 as Modelled>::V, <A9 as Modelled>::V, )) -> ValueV {
        tagged("::tuple"@, seq![A0::encode(v.0), A1::encode(v.1), A2::encode(v.2), A3::encode(v.3), A4::encode(v.4), A5::encode(v.5), A6::encode(v.6), A7::encode(v.7), A8::encode(v.8), A9::encode(v.9)])
    }

    fn to_value_repr(&self) -> (r: Value) {
        let mut parts: Vec<Value> = Vec::new();
        parts.push(self.0.to_value_repr());
        parts.push(self.1.to_value_repr());
        parts.push(self.2.to_value_repr());
        parts.push(self.3.to_value_repr());
        parts.push(self.4.to_value_repr());
        parts.push(self.5.to_value_repr());
        parts.push(self.6.to_value_repr());
        parts.push(self.7.to_value_repr());
        parts.push(self.8.to_value_repr());
        parts.push(self.9.to_value_repr());
        assert(values_of(parts@) =~= seq![A0::encode(self.0.model()), A1::encode(self.1.model()), A2::encode(self.2.model()), A3::encode(self.3.model()), A4::encode(self.4.model()), A5::encode(self.5.model()), A6::encode(self.6.model()), A7::encode(self.7.model()), A8::encode(self.8.model()), A9::encode(self.9.model())]);
        Value::mk_tagged("::tuple", parts.as_slice())
    }
}

impl<A0: FromValueRepr, A1: FromValueRepr, A2: FromValueRepr, A3: FromValueRepr, A4: FromValueRepr, A5: FromValueRepr, A6: FromValueRepr, A7: FromValueRepr, A8: FromValueRepr, A9: FromValueRepr> FromValueRepr for (A0, A1, A2, A3, A4, A5, A6, A7, A8, A9, ) {
    open spec fn decode(repr: ValueV) -> Option<(<A0 as Modelled>::V, <A1 as Modelled>::V, <A2 as Modelled>::V, <A3 as Modelled>::V, <A4 as Modelled>::V, <A5 as Modelled>::V, <A6 as Modelled>::V, <A7 as Modelled>::V, <A8 as Modelled>::V, <A9 as Modelled>::V, )> {
        match parts_n(repr, "::tuple"@, 10) {
            Some(data) => match (A0::decode(data[0]), A1::decode(data[1]), A2::decode(data[2]), A3::decode(data[3]), A4::decode(data[4]), A5::decode(data[5]), A6::decode(data[6]), A7::decode(data[7]), A8::decode(data[8]), A9::decode(data[9]), ) {
                (Some(x0), Some(x1), Some(x2), Some(x3), Some(x4), Some(x5), Some(x6), Some(x7), Some(x8), Some(x9), ) => Some((x0, x1, x2, x3, x4, x5, x6, x7, x8, x9, )),
                _ => None,
            },
            None => None,
        }
    }

    fn from_value_repr(repr: &Value) -> (r: Result<Self, ExpectError>) {
        match repr.expect_tagged_n::<10>("::tuple") {
            Ok(data) => {
                assert(values_of(data@)[0] == data@[0]@);
                let x0 = match A0::from_value_repr(&data[0]) {
                    Ok(x) => x,
                    Err(e) => {
                        return Err(e);
                    },
                };
                assert(values_of(data@)[1] == data@[1]@);
                let x1 = match A1::from_value_repr(&data[1]) {
                    Ok(x) => x,
                    Err(e) => {
                        return Err(e);
                    },
                };
                assert(values_of(data@)[2] == data@[2]@);
                let x2 = match A2::from_value_repr(&data[2]) {
                    Ok(x) => x,
                    Err(e) => {
                        return Err(e);
                    },
                };
                assert(values_of(data@)[3] == data@[3]@);
                let x3 = match A3::from_value_repr(&data[3]) {
                    Ok(x) => x,
                    Err(e) => {
                        return Err(e);
                    },
                };
                assert(values_of(data@)[4] == data@[4]@);
                let x4 = match A4::from_value_repr(&data[4]) {
                    Ok(x) => x,
                    Err(e) => {
                        return Err(e);
                    },
                };
                assert(values_of(data@)[5] == data@[5]@);
                let x5 = match A5::from_value_repr(&data[5]) {
                    Ok(x) => x,
                    Err(e) => {
                        return Err(e);
                    },
                };
                assert(values_of(data@)[6] == data@[6]@);
                let x6 = match A6::from_value_repr(&data[6]) {
                    Ok(x) => x,
                    Err(e) => {
                        return Err(e);
                    },
                };
                assert(values_of(data@)[7] == data@[7]@);
                let x7 = match A7::from_value_repr(&data[7]) {
                    Ok(x) => x,
                    Err(e) => {
                        return Err(e);
                    },
                };
                assert(values_of(data@)[8] == data@[8]@);
                let x8 = match A8::from_value_repr(&data[8]) {
                    Ok(x) => x,
                    Err(e) => {
                        return Err(e);
                    },
                };
                assert(values_of(data@)[9] == data@[9]@);
                let x9 = match A9::from_value_repr(&data[9]) {
                    Ok(x) => x,
                    Err(e) => {
                        return Err(e);
                    },
                };
                Ok((x0, x1, x2, x3, x4, x5, x6, x7, x8, x9, ))
            },
            Err(e) => Err(e),
        }
    }
}

impl<A0: Marshalled, A1: Marshalled, A2: Marshalled, A3: Marshalled, A4: Marshalled, A5: Marshalled, A6: Marshalled, A7: Marshalled, A8: Marshalled, A9: Marshalled> Marshalled for (A0, A1, A2, A3, A4, A5, A6, A7, A8, A9, ) {
    proof fn round_trip(v: (<A0 as Modelled>::V, <A1 as Modelled>::V, <A2 as Modelled>::V, <A3 as Modelled>::V, <A4 as Modelled>::V, <A5 as Modelled>::V, <A6 as Modelled>::V, <A7 as Modelled>::V, <A8 as Modelled>::V, <A9 as Modelled>::V, )) {
        A0::round_trip(v.0);
        A1::round_trip(v.1);
        A2::round_trip(v.2);
        A3::round_trip(v.3);
        A4::round_trip(v.4);
        A5::round_trip(v.5);
        A6::round_trip(v.6);
        A7::round_trip(v.7);
        A8::round_trip(v.8);
        A9::round_trip(v.9);
        lemma_tagged_shape("::tuple"@, seq![A0::encode(v.0), A1::encode(v.1), A2::encode(v.2), A3::encode(v.3), A4::encode(v.4), A5::encode(v.5), A6::encode(v.6), A7::encode(v.7), A8::encode(v.8), A9::encode(v.9)]);
    }
}

impl<A0: ToRustExpr, A1: ToRustExpr, A2: ToRustExpr, A3: ToRustExpr, A4: ToRustExpr, A5: ToRustExpr, A6: ToRustExpr, A7: ToRustExpr, A8: ToRustExpr, A9: ToRustExpr> ToRustExpr for (A0, A1, A2, A3, A4, A5, A6, A7, A8, A9, ) {
    open spec fn rust_expr(v: (<A0 as Modelled>::V, <A1 as Modelled>::V, <A2 as Modelled>::V, <A3 as Modelled>::V, <A4 as Modelled>::V, <A5 as Modelled>::V, <A6 as Modelled>::V, <A7 as Modelled>::V, <A8 as Modelled>::V, <A9 as Modelled>::V, )) -> Seq<char> {
        "("@ + A0::rust_expr(v.0) + ","@ + A1::rust_expr(v.1) + ","@ + A2::rust_expr(v.2) + ","@ + A3::rust_expr(v.3) + ","@ + A4::rust_expr(v.4) + ","@ + A5::rust_expr(v.5) + ","@ + A6::rust_expr(v.6) + ","@ + A7::rust_expr(v.7) + ","@ + A8::rust_expr(v.8) + ","@ + A9::rust_expr(v.9) + ")"@
    }

    open spec fn rust_type() -> Seq<char> {
        "("@ + A0::rust_type() + ","@ + A1::rust_type() + ","@ + A2::rust_type() + ","@ + A3::rust_type() + ","@ + A4::rust_type() + ","@ + A5::rust_type() + ","@ + A6::rust_type() + ","@ + A7::rust_type() + ","@ + A8::rust_type() + ","@ + A9::rust_type() + ")"@
    }

    fn to_rust_expr(&self) -> (r: String) {
        let mut r = String::from_str("(");
        r.append(self.0.to_rust_expr().as_str());
        r.append(",");
        r.append(self.1.to_rust_expr().as_str());
        r.append(",");
        r.append(self.2.to_rust_expr().as_str());
        r.append(",");
        r.append(self.3.to_rust_expr().as_str());
        r.append(",");
        r.append(self.4.to_rust_expr().as_str());
        r.append(",");
        r.append(self.5.to_rust_expr().as_str());
        r.append(",");
        r.append(self.6.to_rust_expr().as_str());
        r.append(",");
        r.append(self.7.to_rust_expr().as_str());
        r.append(",");
        r.append(self.8.to_rust_expr().as_str());
        r.append(",");
        r.append(self.9.to_rust_expr().as_str());
        r.append(")");
        r
    }

    fn to_rust_type() -> (r: String) {
        let mut r = String::from_str("(");
        r.append(A0::to_rust_type().as_str());
        r.append(",");
        r.append(A1::to_rust_type().as_str());
        r.append(",");
        r.append(A2::to_rust_type().as_str());
        r.append(",");
        r.append(A3::to_rust_type().as_str());
        r.append(",");
        r.append(A4::to_rust_type().as_str());
        r.append(",");
        r.append(A5::to_rust_type().as_str());
        r.append(",");
        r.append(A6::to_rust_type().as_str());
        r.append(",");
        r.append(A7::to_rust_type().as_str());
        r.append(",");
        r.append(A8::to_rust_type().as_str());
        r.append(",");
        r.append(A9::to_rust_type().as_str());
        r.append(")");
        r
    }
}

impl<A0: Modelled, A1: Modelled, A2: Modelled, A3: Modelled, A4: Modelled, A5: Modelled, A6: Modelled, A7: Modelled, A8: Modelled, A9: Modelled, A10: Modelled> Modelled for (A0, A1, A2, A3, A4, A5, A6, A7, A8, A9, A10, ) {
    type V = (<A0 as Modelled>::V, <A1 as Modelled>::V, <A2 as Modelled>::V, <A3 as Modelled>::V, <A4 as Modelled>::V, <A5 as Modelled>::V, <A6 as Modelled>::V, <A7 as Modelled>::V, <A8 as Modelled>::V, <A9 as Modelled>::V, <A10 as Modelled>::V, );

    open spec fn model(&self) -> (<A0 as Modelled>::V, <A1 as Modelled>::V, <A2 as Modelled>::V, <A3 as Modelled>::V, <A4 as Modelled>::V, <A5 as Modelled>::V, <A6 as Modelled>::V, <A7 as Modelled>::V, <A8 as Modelled>::V, <A9 as Modelled>::V, <A10 as Modelled>::V, ) {
        (self.0.model(), self.1.model(), self.2.model(), self.3.model(), self.4.model(), self.5.model(), self.6.model(), self.7.model(), self.8.model(), self.9.model(), self.10.model(), )
    }
}

impl<A0: ToValueRepr, A1: ToValueRepr, A2: ToValueRepr, A3: ToValueRepr, A4: ToValueRepr, A5: ToValueRepr, A6: ToValueRepr, A7: ToValueRepr, A8: ToValueRepr, A9: ToValueRepr, A10: ToValueRepr> ToValueRepr for (A0, A1, A2, A3, A4, A5, A6, A7, A8, A9, A10, ) {
    open spec fn encode(v: (<A0 as Modelled>::V, <A1 as Modelled>::V, <A2 as Modelled>::V, <A3 as Modelled>::V, <A4 as Modelled>::V, <A5 as Modelled>::V, <A6 as Modelled>::V, <A7 as Modelled>::V, <A8 as Modelled>::V, <A9 as Modelled>::V, <A10 as Modelled>::V, )) -> ValueV {
        tagged("::tuple"@, seq![A0::encode(v.0), A1::encode(v.1), A2::encode(v.2), A3::encode(v.3), A4::encode(v.4), A5::encode(v.5), A6::encode(v.6), A7::encode(v.7), A8::encode(v.8), A9::encode(v.9), A10::encode(v.10)])
    }

    fn to_value_repr(&self) -> (r: Value) {
        let mut parts: Vec<Value> = Vec::new();
        parts.push(self.0.to_value_repr());
        parts.push(self.1.to_value_repr());
        parts.push(self.2.to_value_repr());
        parts.push(self.3.to_value_repr());
        parts.push(self.4.to_value_repr());
        parts.push(self.5.to_value_repr());
        parts.push(self.6.to_value_repr());
        parts.push(self.7.to_value_repr());
        parts.push(self.8.to_value_repr());
        parts.push(self.9.to_value_repr());
        parts.push(self.10.to_value_repr());
        assert(values_of(parts@) =~= seq![A0::encode(self.0.model()), A1::encode(self.1.model()), A2::encode(self.2.model()), A3::encode(self.3.model()), A4::encode(self.4.model()), A5::encode(self.5.model()), A6::encode(self.6.model()), A7::encode(self.7.model()), A8::encode(self.8.model()), A9::encode(self.9.model()), A10::encode(self.10.model())]);
        Value::mk_tagged("::tuple", parts.as_slice())
    }
}

impl<A0: FromValueRepr, A1: FromValueRepr, A2: FromValueRepr, A3: FromValueRepr, A4: FromValueRepr, A5: FromValueRepr, A6: FromValueRepr, A7: FromValueRepr, A8: FromValueRepr, A9: FromValueRepr, A10: FromValueRepr> FromValueRepr for (A0, A1, A2, A3, A4, A5, A6, A7, A8, A9, A10, ) {
    open spec fn decode(repr: ValueV) -> Option<(<A0 as Modelled>::V, <A1 as Modelled>::V, <A2 as Modelled>::V, <A3 as Modelled>::V, <A4 as Modelled>::V, <A5 as Modelled>::V, <A6 as Modelled>::V, <A7 as Modelled>::V, <A8 as Modelled>::V, <A9 as Modelled>::V, <A10 as Modelled>::V, )> {
        match parts_n(repr, "::tuple"@, 11) {
            Some(data) => match (A0::decode(data[0]), A1::decode(data[1]), A2::decode(data[2]), A3::decode(data[3]), A4::decode(data[4]), A5::decode(data[5]), A6::decode(data[6]), A7::decode(data[7]), A8::decode(data[8]), A9::decode(data[9]), A10::decode(data[10]), ) {
                (Some(x0), Some(x1), Some(x2), Some(x3), Some(x4), Some(x5), Some(x6), Some(x7), Some(x8), Some(x9), Some(x10), ) => Some((x0, x1, x2, x3, x4, x5, x6, x7, x8, x9, x10, )),
                _ => None,
            },
            None => None,
        }
    }

    fn from_value_repr(repr: &Value) -> (r: Result<Self, ExpectError>) {
        match repr.expect_tagged_n::<11>("::tuple") {
            Ok(data) => {
                assert(values_of(data@)[0] == data@[0]@);
                let x0 = match A0::from_value_repr(&data[0]) {
                    Ok(x) => x,
                    Err(e) => {
                        return Err(e);
                    },
                };
                assert(values_of(data@)[1] == data@[1]@);
                let x1 = match A1::from_value_repr(&data[1]) {
                    Ok(x) => x,
                    Err(e) => {
                        return Err(e);
                    },
                };
                assert(values_of(data@)[2] == data@[2]@);
                let x2 = match A2::from_value_repr(&data[2]) {
                    Ok(x) => x,
                    Err(e) => {
                        return Err(e);
                    },
                };
                assert(values_of(data@)[3] == data@[3]@);
                let x3 = match A3::from_value_repr(&data[3]) {
                    Ok(x) => x,
                    Err(e) => {
                        return Err(e);
                    },
                };
                assert(values_of(data@)[4] == data@[4]@);
                let x4 = match A4::from_value_repr(&data[4]) {
                    Ok(x) => x,
                    Err(e) => {
                        return Err(e);
                    },
                };
                assert(values_of(data@)[5] == data@[5]@);
                let x5 = match A5::from_value_repr(&data[5]) {
                    Ok(x) => x,
                    Err(e) => {
                        return Err(e);
                    },
                };
                assert(values_of(data@)[6] == data@[6]@);
                let x6 = match A6::from_value_repr(&data[6]) {
                    Ok(x) => x,
                    Err(e) => {
                        return Err(e);
                    },
                };
                assert(values_of(data@)[7] == data@[7]@);
                let x7 = match A7::from_value_repr(&data[7]) {
                    Ok(x) => x,
                    Err(e) => {
                        return Err(e);
                    },
                };
                assert(values_of(data@)[8] == data@[8]@);
                let x8 = match A8::from_value_repr(&data[8]) {
                    Ok(x) => x,
                    Err(e) => {
                        return Err(e);
                    },
                };
                assert(values_of(data@)[9] == data@[9]@);
                let x9 = match A9::from_value_repr(&data[9]) {
                    Ok(x) => x,
                    Err(e) => {
                        return Err(e);
                    },
                };
                assert(values_of(data@)[10] == data@[10]@);
                let x10 = match A10::from_value_repr(&data[10]) {
                    Ok(x) => x,
                    Err(e) => {
                        return Err(e);
                    },
                };
                Ok((x0, x1, x2, x3, x4, x5, x6, x7, x8, x9, x10, ))
            },
            Err(e) => Err(e),
        }
    }
}

impl<A0: Marshalled, A1: Marshalled, A2: Marshalled, A3: Marshalled, A4: Marshalled, A5: Marshalled, A6: Marshalled, A7: Marshalled, A8: Marshalled, A9: Marshalled, A10: Marshalled> Marshalled for (A0, A1, A2, A3, A4, A5, A6, A7, A8, A9, A10, ) {
    proof fn round_trip(v: (<A0 as Modelled>::V, <A1 as Modelled>::V, <A2 as Modelled>::V, <A3 as Modelled>::V, <A4 as Modelled>::V, <A5 as Modelled>::V, <A6 as Modelled>::V, <A7 as Modelled>::V, <A8 as Modelled>::V, <A9 as Modelled>::V, <A10 as Modelled>::V, )) {
        A0::round_trip(v.0);
        A1::round_trip(v.1);
        A2::round_trip(v.2);
        A3::round_trip(v.3);
        A4::round_trip(v.4);
        A5::round_trip(v.5);
        A6::round_trip(v.6);
        A7::round_trip(v.7);
        A8::round_trip(v.8);
        A9::round_trip(v.9);
        A10::round_trip(v.10);
        lemma_tagged_shape("::tuple"@, seq![A0::encode(v.0), A1::encode(v.1), A2::encode(v.2), A3::encode(v.3), A4::encode(v.4), A5::encode(v.5), A6::encode(v.6), A7::encode(v.7), A8::encode(v.8), A9::encode(v.9), A10::encode(v.10)]);
    }
}

impl<A0: ToRustExpr, A1: ToRustExpr, A2: ToRustExpr, A3: ToRustExpr, A4: ToRustExpr, A5: ToRustExpr, A6: ToRustExpr, A7: ToRustExpr, A8: ToRustExpr, A9: ToRustExpr, A10: ToRustExpr> ToRustExpr for (A0, A1, A2, A3, A4, A5, A6, A7, A8, A9, A10, ) {
    open spec fn rust_expr(v: (<A0 as Modelled>::V, <A1 as Modelled>::V, <A2 as Modelled>::V, <A3 as Modelled>::V, <A4 as Modelled>::V, <A5 as Modelled>::V, <A6 as Modelled>::V, <A7 as Modelled>::V, <A8 as Modelled>::V, <A9 as Modelled>::V, <A10 as Modelled>::V, )) -> Seq<char> {
        "("@ + A0::rust_expr(v.0) + ","@ + A1::rust_expr(v.1) + ","@ + A2::rust_expr(v.2) + ","@ + A3::rust_expr(v.3) + ","@ + A4::rust_expr(v.4) + ","@ + A5::rust_expr(v.5) + ","@ + A6::rust_expr(v.6) + ","@ + A7::rust_expr(v.7) + ","@ + A8::rust_expr(v.8) + ","@ + A9::rust_expr(v.9) + ","@ + A10::rust_expr(v.10) + ")"@
    }

    open spec fn rust_type() -> Seq<char> {
        "("@ + A0::rust_type() + ","@ + A1::rust_type() + ","@ + A2::rust_type() + ","@ + A3::rust_type() + ","@ + A4::rust_type() + ","@ + A5::rust_type() + ","@ + A6::rust_type() + ","@ + A7::rust_type() + ","@ + A8::rust_type() + ","@ + A9::rust_type() + ","@ + A10::rust_type() + ")"@
    }

    fn to_rust_expr(&self) -> (r: String) {
        let mut r = String::from_str("(");
        r.append(self.0.to_rust_expr().as_str());
        r.append(",");
        r.append(self.1.to_rust_expr().as_str());
        r.append(",");
        r.append(self.2.to_rust_expr().as_str());
        r.append(",");
        r.append(self.3.to_rust_expr().as_str());
        r.append(",");
        r.append(self.4.to_rust_expr().as_str());
        r.append(",");
        r.append(self.5.to_rust_expr().as_str());
        r.append(",");
        r.append(self.6.to_rust_expr().as_str());
        r.append(",");
        r.append(self.7.to_rust_expr().as_str());
        r.append(",");
        r.append(self.8.to_rust_expr().as_str());
        r.append(",");
        r.append(self.9.to_rust_expr().as_str());
        r.append(",");
        r.append(self.10.to_rust_expr().as_str());
        r.append(")");
        r
    }

    fn to_rust_type() -> (r: String) {
        let mut r = String::from_str("(");
        r.append(A0::to_rust_type().as_str());
        r.append(",");
        r.append(A1::to_rust_type().as_str());
        r.append(",");
        r.append(A2::to_rust_type().as_str());
        r.append(",");
        r.append(A3::to_rust_type().as_str());
        r.append(",");
        r.append(A4::to_rust_type().as_str());
        r.append(",");
        r.append(A5::to_rust_type().as_str());
        r.append(",");
        r.append(A6::to_rust_type().as_str());
        r.append(",");
        r.append(A7::to_rust_type().as_str());
        r.append(",");
        r.append(A8::to_rust_type().as_str());
        r.append(",");
        r.append(A9::to_rust_type().as_str());
        r.append(",");
        r.append(A10::to_rust_type().as_str());
        r.append(")");
        r
    }
}

impl<A0: Modelled, A1: Modelled, A2: Modelled, A3: Modelled, A4: Modelled, A5: Modelled, A6: Modelled, A7: Modelled, A8: Modelled, A9: Modelled, A10: Modelled, A11: Modelled> Modelled for (A0, A1, A2, A3, A4, A5, A6, A7, A8, A9, A10, A11, ) {
    type V = (<A0 as Modelled>::V, <A1 as Modelled>::V, <A2 as Modelled>::V, <A3 as Modelled>::V, <A4 as Modelled>::V, <A5 as Modelled>::V, <A6 as Modelled>::V, <A7 as Modelled>::V, <A8 as Modelled>::V, <A9 as Modelled>::V, <A10 as Modelled>::V, <A11 as Modelled>::V, );

    open spec fn model(&self) -> (<A0 as Modelled>::V, <A1 as Modelled>::V, <A2 as Modelled>::V, <A3 as Modelled>::V, <A4 as Modelled>::V, <A5 as Modelled>::V, <A6 as Modelled>::V, <A7 as Modelled>::V, <A8 as Modelled>::V, <A9 as Modelled>::V, <A10 as Modelled>::V, <A11 as Modelled>::V, ) {
        (self.0.model(), self.1.model(), self.2.model(), self.3.model(), self.4.model(), self.5.model(), self.6.model(), self.7.model(), self.8.model(), self.9.model(), self.10.model(), self.11.model(), )
    }
}

impl<A0: ToValueRepr, A1: ToValueRepr, A2: ToValueRepr, A3: ToValueRepr, A4: ToValueRepr, A5: ToValueRepr, A6: ToValueRepr, A7: ToValueRepr, A8: ToValueRepr, A9: ToValueRepr, A10: ToValueRepr, A11: ToValueRepr> ToValueRepr for (A0, A1, A2, A3, A4, A5, A6, A7, A8, A9, A10, A11, ) {
    open spec fn encode(v: (<A0 as Modelled>::V, <A1 as Modelled>::V, <A2 as Modelled>::V, <A3 as Modelled>::V, <A4 as Modelled>::V, <A5 as Modelled>::V, <A6 as Modelled>::V, <A7 as Modelled>::V, <A8 as Modelled>::V, <A9 as Modelled>::V, <A10 as Modelled>::V, <A11 as Modelled>::V, )) -> ValueV {
        tagged("::tuple"@, seq![A0::encode(v.0), A1::encode(v.1), A2::encode(v.2), A3::encode(v.3), A4::encode(v.4), A5::encode(v.5), A6::encode(v.6), A7::encode(v.7), A8::encode(v.8), A9::encode(v.9), A10::encode(v.10), A11::encode(v.11)])
    }

    fn to_value_repr(&self) -> (r: Value) {
        let mut parts: Vec<Value> = Vec::new();
        parts.push(self.0.to_value_repr());
        parts.push(self.1.to_value_repr());
        parts.push(self.2.to_value_repr());
        parts.push(self.3.to_value_repr());
        parts.push(self.4.to_value_repr());
        parts.push(self.5.to_value_repr());
        parts.push(self.6.to_value_repr());
        parts.push(self.7.to_value_repr());
        parts.push(self.8.to_value_repr());
        parts.push(self.9.to_value_repr());
        parts.push(self.10.to_value_repr());
        parts.push(self.11.to_value_repr());
        assert(values_of(parts@) =~= seq![A0::encode(self.0.model()), A1::encode(self.1.model()), A2::encode(self.2.model()), A3::encode(self.3.model()), A4::encode(self.4.model()), A5::encode(self.5.model()), A6::encode(self.6.model()), A7::encode(self.7.model()), A8::encode(self.8.model()), A9::encode(self.9.model()), A10::encode(self.10.model()), A11::encode(self.11.model())]);
        Value::mk_tagged("::tuple", parts.as_slice())
    }
}

impl<A0: FromValueRepr, A1: FromValueRepr, A2: FromValueRepr, A3: FromValueRepr, A4: FromValueRepr, A5: FromValueRepr, A6: FromValueRepr, A7: FromValueRepr, A8: FromValueRepr, A9: FromValueRepr, A10: FromValueRepr, A11: FromValueRepr> FromValueRepr for (A0, A1, A2, A3, A4, A5, A6, A7, A8, A9, A10, A11, ) {
    open spec fn decode(repr: ValueV) -> Option<(<A0 as Modelled>::V, <A1 as Modelled>::V, <A2 as Modelled>::V, <A3 as Modelled>::V, <A4 as Modelled>::V, <A5 as Modelled>::V, <A6 as Modelled>::V, <A7 as Modelled>::V, <A8 as Modelled>::V, <A9 as Modelled>::V, <A10 as Modelled>::V, <A11 as Modelled>::V, )> {
        match parts_n(repr, "::tuple"@, 12) {
            Some(data) => match (A0::decode(data[0]), A1::decode(data[1]), A2::decode(data[2]), A3::decode(data[3]), A4::decode(data[4]), A5::decode(data[5]), A6::decode(data[6]), A7::decode(data[7]), A8::decode(data[8]), A9::decode(data[9]), A10::decode(data[10]), A11::decode(data[11]), ) {
                (Some(x0), Some(x1), Some(x2), Some(x3), Some(x4), Some(x5), Some(x6), Some(x7), Some(x8), Some(x9), Some(x10), Some(x11), ) => Some((x0, x1, x2, x3, x4, x5, x6, x7, x8, x9, x10, x11, )),
                _ => None,
            },
            None => None,
        }
    }

    fn from_value_repr(repr: &Value) -> (r: Result<Self, ExpectError>) {
        match repr.expect_tagged_n::<12>("::tuple") {
            Ok(data) => {
                assert(values_of(data@)[0] == data@[0]@);
                let x0 = match A0::from_value_repr(&data[0]) {
                    Ok(x) => x,
                    Err(e) => {
                        return Err(e);
                    },
                };
                assert(values_of(data@)[1] == data@[1]@);
                let x1 = match A1::from_value_repr(&data[1]) {
                    Ok(x) => x,
                    Err(e) => {
                        return Err(e);
                    },
                };
                assert(values_of(data@)[2] == data@[2]@);
                let x2 = match A2::from_value_repr(&data[2]) {
                    Ok(x) => x,
                    Err(e) => {
                        return Err(e);
                    },
                };
                assert(values_of(data@)[3] == data@[3]@);
                let x3 = match A3::from_value_repr(&data[3]) {
                    Ok(x) => x,
                    Err(e) => {
                        return Err(e);
                    },
                };
                assert(values_of(data@)[4] == data@[4]@);
                let x4 = match A4::from_value_repr(&data[4]) {
                    Ok(x) => x,
                    Err(e) => {
                        return Err(e);
                    },
                };
                assert(values_of(data@)[5] == data@[5]@);
                let x5 = match A5::from_value_repr(&data[5]) {
                    Ok(x) => x,
                    Err(e) => {
                        return Err(e);
                    },
                };
                assert(values_of(data@)[6] == data@[6]@);
                let x6 = match A6::from_value_repr(&data[6]) {
                    Ok(x) => x,
                    Err(e) => {
                        return Err(e);
                    },
                };
                assert(values_of(data@)[7] == data@[7]@);
                let x7 = match A7::from_value_repr(&data[7]) {
                    Ok(x) => x,
                    Err(e) => {
                        return Err(e);
                    },
                };
                assert(values_of(data@)[8] == data@[8]@);
                let x8 = match A8::from_value_repr(&data[8]) {
                    Ok(x) => x,
                    Err(e) => {
                        return Err(e);
                    },
                };
                assert(values_of(data@)[9] == data@[9]@);
                let x9 = match A9::from_value_repr(&data[9]) {
                    Ok(x) => x,
                    Err(e) => {
                        return Err(e);
                    },
                };
                assert(values_of(data@)[10] == data@[10]@);
                let x10 = match A10::from_value_repr(&data[10]) {
                    Ok(x) => x,
                    Err(e) => {
                        return Err(e);
                    },
                };
                assert(values_of(data@)[11] == data@[11]@);
                let x11 = match A11::from_value_repr(&data[11]) {
                    Ok(x) => x,
                    Err(e) => {
                        return Err(e);
                    },
                };
                Ok((x0, x1, x2, x3, x4, x5, x6, x7, x8, x9, x10, x11, ))
            },
            Err(e) => Err(e),
        }
    }
}

impl<A0: Marshalled, A1: Marshalled, A2: Marshalled, A3: Marshalled, A4: Marshalled, A5: Marshalled, A6: Marshalled, A7: Marshalled, A8: Marshalled, A9: Marshalled, A10: Marshalled, A11: Marshalled> Marshalled for (A0, A1, A2, A3, A4, A5, A6, A7, A8, A9, A10, A11, ) {
    proof fn round_trip(v: (<A0 as Modelled>::V, <A1 as Modelled>::V, <A2 as Modelled>::V, <A3 as Modelled>::V, <A4 as Modelled>::V, <A5 as Modelled>::V, <A6 as Modelled>::V, <A7 as Modelled>::V, <A8 as Modelled>::V, <A9 as Modelled>::V, <A10 as Modelled>::V, <A11 as Modelled>::V, )) {
        A0::round_trip(v.0);
        A1::round_trip(v.1);
        A2::round_trip(v.2);
        A3::round_trip(v.3);
        A4::round_trip(v.4);
        A5::round_trip(v.5);
        A6::round_trip(v.6);
        A7::round_trip(v.7);
        A8::round_trip(v.8);
        A9::round_trip(v.9);
        A10::round_trip(v.10);
        A11::round_trip(v.11);
        lemma_tagged_shape("::tuple"@, seq![A0::encode(v.0), A1::encode(v.1), A2::encode(v.2), A3::encode(v.3), A4::encode(v.4), A5::encode(v.5), A6::encode(v.6), A7::encode(v.7), A8::encode(v.8), A9::encode(v.9), A10::encode(v.10), A11::encode(v.11)]);
    }
}

impl<A0: ToRustExpr, A1: ToRustExpr, A2: ToRustExpr, A3: ToRustExpr, A4: ToRustExpr, A5: ToRustExpr, A6: ToRustExpr, A7: ToRustExpr, A8: ToRustExpr, A9: ToRustExpr, A10: ToRustExpr, A11: ToRustExpr> ToRustExpr for (A0, A1, A2, A3, A4, A5, A6, A7, A8, A9, A10, A11, ) {
    open spec fn rust_expr(v: (<A0 as Modelled>::V, <A1 as Modelled>::V, <A2 as Modelled>::V, <A3 as Modelled>::V, <A4 as Modelled>::V, <A5 as Modelled>::V, <A6 as Modelled>::V, <A7 as Modelled>::V, <A8 as Modelled>::V, <A9 as Modelled>::V, <A10 as Modelled>::V, <A11 as Modelled>::V, )) -> Seq<char> {
        "("@ + A0::rust_expr(v.0) + ","@ + A1::rust_expr(v.1) + ","@ + A2::rust_expr(v.2) + ","@ + A3::rust_expr(v.3) + ","@ + A4::rust_expr(v.4) + ","@ + A5::rust_expr(v.5) + ","@ + A6::rust_expr(v.6) + ","@ + A7::rust_expr(v.7) + ","@ + A8::rust_expr(v.8) + ","@ + A9::rust_expr(v.9) + ","@ + A10::rust_expr(v.10) + ","@ + A11::rust_expr(v.11) + ")"@
    }

    open spec fn rust_type() -> Seq<char> {
        "("@ + A0::rust_type() + ","@ + A1::rust_type() + ","@ + A2::rust_type() + ","@ + A3::rust_type() + ","@ + A4::rust_type() + ","@ + A5::rust_type() + ","@ + A6::rust_type() + ","@ + A7::rust_type() + ","@ + A8::rust_type() + ","@ + A9::rust_type() + ","@ + A10::rust_type() + ","@ + A11::rust_type() + ")"@
    }

    fn to_rust_expr(&self) -> (r: String) {
        let mut r = String::from_str("(");
        r.append(self.0.to_rust_expr().as_str());
        r.append(",");
        r.append(self.1.to_rust_expr().as_str());
        r.append(",");
        r.append(self.2.to_rust_expr().as_str());
        r.append(",");
        r.append(self.3.to_rust_expr().as_str());
        r.append(",");
        r.append(self.4.to_rust_expr().as_str());
        r.append(",");
        r.append(self.5.to_rust_expr().as_str());
        r.append(",");
        r.append(self.6.to_rust_expr().as_str());
        r.append(",");
        r.append(self.7.to_rust_expr().as_str());
        r.append(",");
        r.append(self.8.to_rust_expr().as_str());
        r.append(",");
        r.append(self.9.to_rust_expr().as_str());
        r.append(",");
        r.append(self.10.to_rust_expr().as_str());
        r.append(",");
        r.append(self.11.to_rust_expr().as_str());
        r.append(")");
        r
    }

    fn to_rust_type() -> (r: String) {
        let mut r = String::from_str("(");
        r.append(A0::to_rust_type().as_str());
        r.append(",");
        r.append(A1::to_rust_type().as_str());
        r.append(",");
        r.append(A2::to_rust_type().as_str());
        r.append(",");
        r.append(A3::to_rust_type().as_str());
        r.append(",");
        r.append(A4::to_rust_type().as_str());
        r.append(",");
        r.append(A5::to_rust_type().as_str());
        r.append(",");
        r.append(A6::to_rust_type().as_str());
        r.append(",");
        r.append(A7::to_rust_type().as_str());
        r.append(",");
        r.append(A8::to_rust_type().as_str());
        r.append(",");
        r.append(A9::to_rust_type().as_str());
        r.append(",");
        r.append(A10::to_rust_type().as_str());
        r.append(",");
        r.append(A11::to_rust_type().as_str());
        r.append(")");
        r
    }
}

impl<A0: Modelled, A1: Modelled, A2: Modelled, A3: Modelled, A4: Modelled, A5: Modelled, A6: Modelled, A7: Modelled, A8: Modelled, A9: Modelled, A10: Modelled, A11: Modelled, A12: Modelled> Modelled for (A0, A1, A2, A3, A4, A5, A6, A7, A8, A9, A10, A11, A12, ) {
    type V = (<A0 as Modelled>::V, <A1 as Modelled>::V, <A2 as Modelled>::V, <A3 as Modelled>::V, <A4 as Modelled>::V, <A5 as Modelled>::V, <A6 as Modelled>::V, <A7 as Modelled>::V, <A8 as Modelled>::V, <A9 as Modelled>::V, <A10 as Modelled>::V, <A11 as Modelled>::V, <A12 as Modelled>::V, );

    open spec fn model(&self) -> (<A0 as Modelled>::V, <A1 as Modelled>::V, <A2 as Modelled>::V, <A3 as Modelled>::V, <A4 as Modelled>::V, <A5 as Modelled>::V, <A6 as Modelled>::V, <A7 as Modelled>::V, <A8 as Modelled>::V, <A9 as Modelled>::V, <A10 as Modelled>::V, <A11 as Modelled>::V, <A12 as Modelled>::V, ) {
        (self.0.model(), self.1.model(), self.2.model(), self.3.model(), self.4.model(), self.5.model(), self.6.model(), self.7.model(), self.8.model(), self.9.model(), self.10.model(), self.11.model(), self.12.model(), )
    }
}

impl<A0: ToValueRepr, A1: ToValueRepr, A2: ToValueRepr, A3: ToValueRepr, A4: ToValueRepr, A5: ToValueRepr, A6: ToValueRepr, A7: ToValueRepr, A8: ToValueRepr, A9: ToValueRepr, A10: ToValueRepr, A11: ToValueRepr, A12: ToValueRepr> ToValueRepr for (A0, A1, A2, A3, A4, A5, A6, A7, A8, A9, A10, A11, A12, ) {
    open spec fn encode(v: (<A0 as Modelled>::V, <A1 as Modelled>::V, <A2 as Modelled>::V, <A3 as Modelled>::V, <A4 as Modelled>::V, <A5 as Modelled>::V, <A6 as Modelled>::V, <A7 as Modelled>::V, <A8 as Modelled>::V, <A9 as Modelled>::V, <A10 as Modelled>::V, <A11 as Modelled>::V, <A12 as Modelled>::V, )) -> ValueV {
        tagged("::tuple"@, seq![A0::encode(v.0), A1::encode(v.1), A2::encode(v.2), A3::encode(v.3), A4::encode(v.4), A5::encode(v.5), A6::encode(v.6), A7::encode(v.7), A8::encode(v.8), A9::encode(v.9), A10::encode(v.10), A11::encode(v.11), A12::encode(v.12)])
    }

    fn to_value_repr(&self) -> (r: Value) {
        let mut parts: Vec<Value> = Vec::new();
        parts.push(self.0.to_value_repr());
        parts.push(self.1.to_value_repr());
        parts.push(self.2.to_value_repr());
        parts.push(self.3.to_value_repr());
        parts.push(self.4.to_value_repr());
        parts.push(self.5.to_value_repr());
        parts.push(self.6.to_value_repr());
        parts.push(self.7.to_value_repr());
        parts.push(self.8.to_value_repr());
        parts.push(self.9.to_value_repr());
        parts.push(self.10.to_value_repr());
        parts.push(self.11.to_value_repr());
        parts.push(self.12.to_value_repr());
        assert(values_of(parts@) =~= seq![A0::encode(self.0.model()), A1::encode(self.1.model()), A2::encode(self.2.model()), A3::encode(self.3.model()), A4::encode(self.4.model()), A5::encode(self.5.model()), A6::encode(self.6.model()), A7::encode(self.7.model()), A8::encode(self.8.model()), A9::encode(self.9.model()), A10::encode(self.10.model()), A11::encode(self.11.model()), A12::encode(self.12.model())]);
        Value::mk_tagged("::tuple", parts.as_slice())
    }
}

impl<A0: FromValueRepr, A1: FromValueRepr, A2: FromValueRepr, A3: FromValueRepr, A4: FromValueRepr, A5: FromValueRepr, A6: FromValueRepr, A7: FromValueRepr, A8: FromValueRepr, A9: FromValueRepr, A10: FromValueRepr, A11: FromValueRepr, A12: FromValueRepr> FromValueRepr for (A0, A1, A2, A3, A4, A5, A6, A7, A8, A9, A10, A11, A12, ) {
    open spec fn decode(repr: ValueV) -> Option<(<A0 as Modelled>::V, <A1 as Modelled>::V, <A2 as Modelled>::V, <A3 as Modelled>::V, <A4 as Modelled>::V, <A5 as Modelled>::V, <A6 as Modelled>::V, <A7 as Modelled>::V, <A8 as Modelled>::V, <A9 as Modelled>::V, <A10 as Modelled>::V, <A11 as Modelled>::V, <A12 as Modelled>::V, )> {
        match parts_n(repr, "::tuple"@, 13) {
            Some(data) => match (A0::decode(data[0]), A1::decode(data[1]), A2::decode(data[2]), A3::decode(data[3]), A4::decode(data[4]), A5::decode(data[5]), A6::decode(data[6]), A7::decode(data[7]), A8::decode(data[8]), A9::decode(data[9]), A10::decode(data[10]), A11::decode(data[11]), A12::decode(data[12]), ) {
                (Some(x0), Some(x1), Some(x2), Some(x3), Some(x4), Some(x5), Some(x6), Some(x7), Some(x8), Some(x9), Some(x10), Some(x11), Some(x12), ) => Some((x0, x1, x2, x3, x4, x5, x6, x7, x8, x9, x10, x11, x12, )),
                _ => None,
            },
            None => None,
        }
    }

    fn from_value_repr(repr: &Value) -> (r: Result<Self, ExpectError>) {
        match repr.expect_tagged_n::<13>("::tuple") {
            Ok(data) => {
                assert(values_of(data@)[0] == data@[0]@);
                let x0 = match A0::from_value_repr(&data[0]) {
                    Ok(x) => x,
                    Err(e) => {
                        return Err(e);
                    },
                };
                assert(values_of(data@)[1] == data@[1]@);
                let x1 = match A1::from_value_repr(&data[1]) {
                    Ok(x) => x,
                    Err(e) => {
                        return Err(e);
                    },
                };
                assert(values_of(data@)[2] == data@[2]@);
                let x2 = match A2::from_value_repr(&data[2]) {
                    Ok(x) => x,
                    Err(e) => {
                        return Err(e);
                    },
                };
                assert(values_of(data@)[3] == data@[3]@);
                let x3 = match A3::from_value_repr(&data[3]) {
                    Ok(x) => x,
                    Err(e) => {
                        return Err(e);
                    },
                };
                assert(values_of(data@)[4] == data@[4]@);
                let x4 = match A4::from_value_repr(&data[4]) {
                    Ok(x) => x,
                    Err(e) => {
                        return Err(e);
                    },
                };
                assert(values_of(data@)[5] == data@[5]@);
                let x5 = match A5::from_value_repr(&data[5]) {
                    Ok(x) => x,
                    Err(e) => {
                        return Err(e);
                    },
                };
                assert(values_of(data@)[6] == data@[6]@);
                let x6 = match A6::from_value_repr(&data[6]) {
                    Ok(x) => x,
                    Err(e) => {
                        return Err(e);
                    },
                };
                assert(values_of(data@)[7] == data@[7]@);
                let x7 = match A7::from_value_repr(&data[7]) {
                    Ok(x) => x,
                    Err(e) => {
                        return Err(e);
                    },
                };
                assert(values_of(data@)[8] == data@[8]@);
                let x8 = match A8::from_value_repr(&data[8]) {
                    Ok(x) => x,
                    Err(e) => {
                        return Err(e);
                    },
                };
                assert(values_of(data@)[9] == data@[9]@);
                let x9 = match A9::from_value_repr(&data[9]) {
                    Ok(x) => x,
                    Err(e) => {
                        return Err(e);
                    },
                };
                assert(values_of(data@)[10] == data@[10]@);
                let x10 = match A10::from_value_repr(&data[10]) {
                    Ok(x) => x,
                    Err(e) => {
                        return Err(e);
                    },
                };
                assert(values_of(data@)[11] == data@[11]@);
                let x11 = match A11::from_value_repr(&data[11]) {
                    Ok(x) => x,
                    Err(e) => {
                        return Err(e);
                    },
                };
                assert(values_of(data@)[12] == data@[12]@);
                let x12 = match A12::from_value_repr(&data[12]) {
                    Ok(x) => x,
                    Err(e) => {
                        return Err(e);
                    },
                };
                Ok((x0, x1, x2, x3, x4, x5, x6, x7, x8, x9, x10, x11, x12, ))
            },
            Err(e) => Err(e),
        }
    }
}

impl<A0: Marshalled, A1: Marshalled, A2: Marshalled, A3: Marshalled, A4: Marshalled, A5: Marshalled, A6: Marshalled, A7: Marshalled, A8: Marshalled, A9: Marshalled, A10: Marshalled, A11: Marshalled, A12: Marshalled> Marshalled for (A0, A1, A2, A3, A4, A5, A6, A7, A8, A9, A10, A11, A12, ) {
    proof fn round_trip(v: (<A0 as Modelled>::V, <A1 as Modelled>::V, <A2 as Modelled>::V, <A3 as Modelled>::V, <A4 as Modelled>::V, <A5 as Modelled>::V, <A6 as Modelled>::V, <A7 as Modelled>::V, <A8 as Modelled>::V, <A9 as Modelled>::V, <A10 as Modelled>::V, <A11 as Modelled>::V, <A12 as Modelled>::V, )) {
        A0::round_trip(v.0);
        A1::round_trip(v.1);
        A2::round_trip(v.2);
        A3::round_trip(v.3);
        A4::round_trip(v.4);
        A5::round_trip(v.5);
        A6::round_trip(v.6);
        A7::round_trip(v.7);
        A8::round_trip(v.8);
        A9::round_trip(v.9);
        A10::round_trip(v.10);
        A11::round_trip(v.11);
        A12::round_trip(v.12);
        lemma_tagged_shape("::tuple"@, seq![A0::encode(v.0), A1::encode(v.1), A2::encode(v.2), A3::encode(v.3), A4::encode(v.4), A5::encode(v.5), A6::encode(v.6), A7::encode(v.7), A8::encode(v.8), A9::encode(v.9), A10::encode(v.10), A11::encode(v.11), A12::encode(v.12)]);
    }
}

impl<A0: ToRustExpr, A1: ToRustExpr, A2: ToRustExpr, A3: ToRustExpr, A4: ToRustExpr, A5: ToRustExpr, A6: ToRustExpr, A7: ToRustExpr, A8: ToRustExpr, A9: ToRustExpr, A10: ToRustExpr, A11: ToRustExpr, A12: ToRustExpr> ToRustExpr for (A0, A1, A2, A3, A4, A5, A6, A7, A8, A9, A10, A11, A12, ) {
    open spec fn rust_expr(v: (<A0 as Modelled>::V, <A1 as Modelled>::V, <A2 as Modelled>::V, <A3 as Modelled>::V, <A4 as Modelled>::V, <A5 as Modelled>::V, <A6 as Modelled>::V, <A7 as Modelled>::V, <A8 as Modelled>::V, <A9 as Modelled>::V, <A10 as Modelled>::V, <A11 as Modelled>::V, <A12 as Modelled>::V, )) -> Seq<char> {
        "("@ + A0::rust_expr(v.0) + ","@ + A1::rust_expr(v.1) + ","@ + A2::rust_expr(v.2) + ","@ + A3::rust_expr(v.3) + ","@ + A4::rust_expr(v.4) + ","@ + A5::rust_expr(v.5) + ","@ + A6::rust_expr(v.6) + ","@ + A7::rust_expr(v.7) + ","@ + A8::rust_expr(v.8) + ","@ + A9::rust_expr(v.9) + ","@ + A10::rust_expr(v.10) + ","@ + A11::rust_expr(v.11) + ","@ + A12::rust_expr(v.12) + ")"@
    }

    open spec fn rust_type() -> Seq<char> {
        "("@ + A0::rust_type() + ","@ + A1::rust_type() + ","@ + A2::rust_type() + ","@ + A3::rust_type() + ","@ + A4::rust_type() + ","@ + A5::rust_type() + ","@ + A6::rust_type() + ","@ + A7::rust_type() + ","@ + A8::rust_type() + ","@ + A9::rust_type() + ","@ + A10::rust_type() + ","@ + A11::rust_type() + ","@ + A12::rust_type() + ")"@
    }

    fn to_rust_expr(&self) -> (r: String) {
        let mut r = String::from_str("(");
        r.append(self.0.to_rust_expr().as_str());
        r.append(",");
        r.append(self.1.to_rust_expr().as_str());
        r.append(",");
        r.append(self.2.to_rust_expr().as_str());
        r.append(",");
        r.append(self.3.to_rust_expr().as_str());
        r.append(",");
        r.append(self.4.to_rust_expr().as_str());
        r.append(",");
        r.append(self.5.to_rust_expr().as_str());
        r.append(",");
        r.append(self.6.to_rust_expr().as_str());
        r.append(",");
        r.append(self.7.to_rust_expr().as_str());
        r.append(",");
        r.append(self.8.to_rust_expr().as_str());
        r.append(",");
        r.append(self.9.to_rust_expr().as_str());
        r.append(",");
        r.append(self.10.to_rust_expr().as_str());
        r.append(",");
        r.append(self.11.to_rust_expr().as_str());
        r.append(",");
        r.append(self.12.to_rust_expr().as_str());
        r.append(")");
        r
    }

    fn to_rust_type() -> (r: String) {
        let mut r = String::from_str("(");
        r.append(A0::to_rust_type().as_str());
        r.append(",");
        r.append(A1::to_rust_type().as_str());
        r.append(",");
        r.append(A2::to_rust_type().as_str());
        r.append(",");
        r.append(A3::to_rust_type().as_str());
        r.append(",");
        r.append(A4::to_rust_type().as_str());
        r.append(",");
        r.append(A5::to_rust_type().as_str());
        r.append(",");
        r.append(A6::to_rust_type().as_str());
        r.append(",");
        r.append(A7::to_rust_type().as_str());
        r.append(",");
        r.append(A8::to_rust_type().as_str());
        r.append(",");
        r.append(A9::to_rust_type().as_str());
        r.append(",");
        r.append(A10::to_rust_type().as_str());
        r.append(",");
        r.append(A11::to_rust_type().as_str());
        r.append(",");
        r.append(A12::to_rust_type().as_str());
        r.append(")");
        r
    }
}

impl<A0: Modelled, A1: Modelled, A2: Modelled, A3: Modelled, A4: Modelled, A5: Modelled, A6: Modelled, A7: Modelled, A8: Modelled, A9: Modelled, A10: Modelled, A11: Modelled, A12: Modelled, A13: Modelled> Modelled for (A0, A1, A2, A3, A4, A5, A6, A7, A8, A9, A10, A11, A12, A13, ) {
    type V = (<A0 as Modelled>::V, <A1 as Modelled>::V, <A2 as Modelled>::V, <A3 as Modelled>::V, <A4 as Modelled>::V, <A5 as Modelled>::V, <A6 as Modelled>::V, <A7 as Modelled>::V, <A8 as Modelled>::V, <A9 as Modelled>::V, <A10 as Modelled>::V, <A11 as Modelled>::V, <A12 as Modelled>::V, <A13 as Modelled>::V, );

    open spec fn model(&self) -> (<A0 as Modelled>::V, <A1 as Modelled>::V, <A2 as Modelled>::V, <A3 as Modelled>::V, <A4 as Modelled>::V, <A5 as Modelled>::V, <A6 as Modelled>::V, <A7 as Modelled>::V, <A8 as Modelled>::V, <A9 as Modelled>::V, <A10 as Modelled>::V, <A11 as Modelled>::V, <A12 as Modelled>::V, <A13 as Modelled>::V, ) {
        (self.0.model(), self.1.model(), self.2.model(), self.3.model(), self.4.model(), self.5.model(), self.6.model(), self.7.model(), self.8.model(), self.9.model(), self.10.model(), self.11.model(), self.12.model(), self.13.model(), )
    }
}

impl<A0: ToValueRepr, A1: ToValueRepr, A2: ToValueRepr, A3: ToValueRepr, A4: ToValueRepr, A5: ToValueRepr, A6: ToValueRepr, A7: ToValueRepr, A8: ToValueRepr, A9: ToValueRepr, A10: ToValueRepr, A11: ToValueRepr, A12: ToValueRepr, A13: ToValueRepr> ToValueRepr for (A0, A1, A2, A3, A4, A5, A6, A7, A8, A9, A10, A11, A12, A13, ) {
    open spec fn encode(v: (<A0 as Modelled>::V, <A1 as Modelled>::V, <A2 as Modelled>::V, <A3 as Modelled>::V, <A4 as Modelled>::V, <A5 as Modelled>::V, <A6 as Modelled>::V, <A7 as Modelled>::V, <A8 as Modelled>::V, <A9 as Modelled>::V, <A10 as Modelled>::V, <A11 as Modelled>::V, <A12 as Modelled>::V, <A13 as Modelled>::V, )) -> ValueV {
        tagged("::tuple"@, seq![A0::encode(v.0), A1::encode(v.1), A2::encode(v.2), A3::encode(v.3), A4::encode(v.4), A5::encode(v.5), A6::encode(v.6), A7::encode(v.7), A8::encode(v.8), A9::encode(v.9), A10::encode(v.10), A11::encode(v.11), A12::encode(v.12), A13::encode(v.13)])
    }

    fn to_value_repr(&self) -> (r: Value) {
        let mut parts: Vec<Value> = Vec::new();
        parts.push(self.0.to_value_repr());
        parts.push(self.1.to_value_repr());
        parts.push(self.2.to_value_repr());
        parts.push(self.3.to_value_repr());
        parts.push(self.4.to_value_repr());
        parts.push(self.5.to_value_repr());
        parts.push(self.6.to_value_repr());
        parts.push(self.7.to_value_repr());
        parts.push(self.8.to_value_repr());
        parts.push(self.9.to_value_repr());
        parts.push(self.10.to_value_repr());
        parts.push(self.11.to_value_repr());
        parts.push(self.12.to_value_repr());
        parts.push(self.13.to_value_repr());
        assert(values_of(parts@) =~= seq![A0::encode(self.0.model()), A1::encode(self.1.model()), A2::encode(self.2.model()), A3::encode(self.3.model()), A4::encode(self.4.model()), A5::encode(self.5.model()), A6::encode(self.6.model()), A7::encode(self.7.model()), A8::encode(self.8.model()), A9::encode(self.9.model()), A10::encode(self.10.model()), A11::encode(self.11.model()), A12::encode(self.12.model()), A13::encode(self.13.model())]);
        Value::mk_tagged("::tuple", parts.as_slice())
    }
}

impl<A0: FromValueRepr, A1: FromValueRepr, A2: FromValueRepr, A3: FromValueRepr, A4: FromValueRepr, A5: FromValueRepr, A6: FromValueRepr, A7: FromValueRepr, A8: FromValueRepr, A9: FromValueRepr, A10: FromValueRepr, A11: FromValueRepr, A12: FromValueRepr, A13: FromValueRepr> FromValueRepr for (A0, A1, A2, A3, A4, A5, A6, A7, A8, A9, A10, A11, A12, A13, ) {
    open spec fn decode(repr: ValueV) -> Option<(<A0 as Modelled>::V, <A1 as Modelled>::V, <A2 as Modelled>::V, <A3 as Modelled>::V, <A4 as Modelled>::V, <A5 as Modelled>::V, <A6 as Modelled>::V, <A7 as Modelled>::V, <A8 as Modelled>::V, <A9 as Modelled>::V, <A10 as Modelled>::V, <A11 as Modelled>::V, <A12 as Modelled>::V, <A13 as Modelled>::V, )> {
        match parts_n(repr, "::tuple"@, 14) {
            Some(data) => match (A0::decode(data[0]), A1::decode(data[1]), A2::decode(data[2]), A3::decode(data[3]), A4::decode(data[4]), A5::decode(data[5]), A6::decode(data[6]), A7::decode(data[7]), A8::decode(data[8]), A9::decode(data[9]), A10::decode(data[10]), A11::decode(data[11]), A12::decode(data[12]), A13::decode(data[13]), ) {
                (Some(x0), Some(x1), Some(x2), Some(x3), Some(x4), Some(x5), Some(x6), Some(x7), Some(x8), Some(x9), Some(x10), Some(x11), Some(x12), Some(x13), ) => Some((x0, x1, x2, x3, x4, x5, x6, x7, x8, x9, x10, x11, x12, x13, )),
                _ => None,
            },
            None => None,
        }
    }

    fn from_value_repr(repr: &Value) -> (r: Result<Self, ExpectError>) {
        match repr.expect_tagged_n::<14>("::tuple") {
            Ok(data) => {
                assert(values_of(data@)[0] == data@[0]@);
                let x0 = match A0::from_value_repr(&data[0]) {
                    Ok(x) => x,
                    Err(e) => {
                        return Err(e);
                    },
                };
                assert(values_of(data@)[1] == data@[1]@);
                let x1 = match A1::from_value_repr(&data[1]) {
                    Ok(x) => x,
                    Err(e) => {
                        return Err(e);
                    },
                };
                assert(values_of(data@)[2] == data@[2]@);
                let x2 = match A2::from_value_repr(&data[2]) {
                    Ok(x) => x,
                    Err(e) => {
                        return Err(e);
                    },
                };
                assert(values_of(data@)[3] == data@[3]@);
                let x3 = match A3::from_value_repr(&data[3]) {
                    Ok(x) => x,
                    Err(e) => {
                        return Err(e);
                    },
                };
                assert(values_of(data@)[4] == data@[4]@);
                let x4 = match A4::from_value_repr(&data[4]) {
                    Ok(x) => x,
                    Err(e) => {
                        return Err(e);
                    },
                };
                assert(values_of(data@)[5] == data@[5]@);
                let x5 = match A5::from_value_repr(&data[5]) {
                    Ok(x) => x,
                    Err(e) => {
                        return Err(e);
                    },
                };
                assert(values_of(data@)[6] == data@[6]@);
                let x6 = match A6::from_value_repr(&data[6]) {
                    Ok(x) => x,
                    Err(e) => {
                        return Err(e);
                    },
                };
                assert(values_of(data@)[7] == data@[7]@);
                let x7 = match A7::from_value_repr(&data[7]) {
                    Ok(x) => x,
                    Err(e) => {
                        return Err(e);
                    },
                };
                assert(values_of(data@)[8] == data@[8]@);
                let x8 = match A8::from_value_repr(&data[8]) {
                    Ok(x) => x,
                    Err(e) => {
                        return Err(e);
                    },
                };
                assert(values_of(data@)[9] == data@[9]@);
                let x9 = match A9::from_value_repr(&data[9]) {
                    Ok(x) => x,
                    Err(e) => {
                        return Err(e);
                    },
                };
                assert(values_of(data@)[10] == data@[10]@);
                let x10 = match A10::from_value_repr(&data[10]) {
                    Ok(x) => x,
                    Err(e) => {
                        return Err(e);
                    },
                };
                assert(values_of(data@)[11] == data@[11]@);
                let x11 = match A11::from_value_repr(&data[11]) {
                    Ok(x) => x,
                    Err(e) => {
                        return Err(e);
                    },
                };
                assert(values_of(data@)[12] == data@[12]@);
                let x12 = match A12::from_value_repr(&data[12]) {
                    Ok(x) => x,
                    Err(e) => {
                        return Err(e);
                    },
                };
                assert(values_of(data@)[13] == data@[13]@);
                let x13 = match A13::from_value_repr(&data[13]) {
                    Ok(x) => x,
                    Err(e) => {
                        return Err(e);
                    },
                };
                Ok((x0, x1, x2, x3, x4, x5, x6, x7, x8, x9, x10, x11, x12, x13, ))
            },
            Err(e) => Err(e),
        }
    }
}

impl<A0: Marshalled, A1: Marshalled, A2: Marshalled, A3: Marshalled, A4: Marshalled, A5: Marshalled, A6: Marshalled, A7: Marshalled, A8: Marshalled, A9: Marshalled, A10: Marshalled, A11: Marshalled, A12: Marshalled, A13: Marshalled> Marshalled for (A0, A1, A2, A3, A4, A5, A6, A7, A8, A9, A10, A11, A12, A13, ) {
    proof fn round_trip(v: (<A0 as Modelled>::V, <A1 as Modelled>::V, <A2 as Modelled>::V, <A3 as Modelled>::V, <A4 as Modelled>::V, <A5 as Modelled>::V, <A6 as Modelled>::V, <A7 as Modelled>::V, <A8 as Modelled>::V, <A9 as Modelled>::V, <A10 as Modelled>::V, <A11 as Modelled>::V, <A12 as Modelled>::V, <A13 as Modelled>::V, )) {
        A0::round_trip(v.0);
        A1::round_trip(v.1);
        A2::round_trip(v.2);
        A3::round_trip(v.3);
        A4::round_trip(v.4);
        A5::round_trip(v.5);
        A6::round_trip(v.6);
        A7::round_trip(v.7);
        A8::round_trip(v.8);
        A9::round_trip(v.9);
        A10::round_trip(v.10);
        A11::round_trip(v.11);
        A12::round_trip(v.12);
        A13::round_trip(v.13);
        lemma_tagged_shape("::tuple"@, seq![A0::encode(v.0), A1::encode(v.1), A2::encode(v.2), A3::encode(v.3), A4::encode(v.4), A5::encode(v.5), A6::encode(v.6), A7::encode(v.7), A8::encode(v.8), A9::encode(v.9), A10::encode(v.10), A11::encode(v.11), A12::encode(v.12), A13::encode(v.13)]);
    }
}

impl<A0: ToRustExpr, A1: ToRustExpr, A2: ToRustExpr, A3: ToRustExpr, A4: ToRustExpr, A5: ToRustExpr, A6: ToRustExpr, A7: ToRustExpr, A8: ToRustExpr, A9: ToRustExpr, A10: ToRustExpr, A11: ToRustExpr, A12: ToRustExpr, A13: ToRustExpr> ToRustExpr for (A0, A1, A2, A3, A4, A5, A6, A7, A8, A9, A10, A11, A12, A13, ) {
    open spec fn rust_expr(v: (<A0 as Modelled>::V, <A1 as Modelled>::V, <A2 as Modelled>::V, <A3 as Modelled>::V, <A4 as Modelled>::V, <A5 as Modelled>::V, <A6 as Modelled>::V, <A7 as Modelled>::V, <A8 as Modelled>::V, <A9 as Modelled>::V, <A10 as Modelled>::V, <A11 as Modelled>::V, <A12 as Modelled>::V, <A13 as Modelled>::V, )) -> Seq<char> {
        "("@ + A0::rust_expr(v.0) + ","@ + A1::rust_expr(v.1) + ","@ + A2::rust_expr(v.2) + ","@ + A3::rust_expr(v.3) + ","@ + A4::rust_expr(v.4) + ","@ + A5::rust_expr(v.5) + ","@ + A6::rust_expr(v.6) + ","@ + A7::rust_expr(v.7) + ","@ + A8::rust_expr(v.8) + ","@ + A9::rust_expr(v.9) + ","@ + A10::rust_expr(v.10) + ","@ + A11::rust_expr(v.11) + ","@ + A12::rust_expr(v.12) + ","@ + A13::rust_expr(v.13) + ")"@
    }

    open spec fn rust_type() -> Seq<char> {
        "("@ + A0::rust_type() + ","@ + A1::rust_type() + ","@ + A2::rust_type() + ","@ + A3::rust_type() + ","@ + A4::rust_type() + ","@ + A5::rust_type() + ","@ + A6::rust_type() + ","@ + A7::rust_type() + ","@ + A8::rust_type() + ","@ + A9::rust_type() + ","@ + A10::rust_type() + ","@ + A11::rust_type() + ","@ + A12::rust_type() + ","@ + A13::rust_type() + ")"@
    }

    fn to_rust_expr(&self) -> (r: String) {
        let mut r = String::from_str("(");
        r.append(self.0.to_rust_expr().as_str());
        r.append(",");
        r.append(self.1.to_rust_expr().as_str());
        r.append(",");
        r.append(self.2.to_rust_expr().as_str());
        r.append(",");
        r.append(self.3.to_rust_expr().as_str());
        r.append(",");
        r.append(self.4.to_rust_expr().as_str());
        r.append(",");
        r.append(self.5.to_rust_expr().as_str());
        r.append(",");
        r.append(self.6.to_rust_expr().as_str());
        r.append(",");
        r.append(self.7.to_rust_expr().as_str());
        r.append(",");
        r.append(self.8.to_rust_expr().as_str());
        r.append(",");
        r.append(self.9.to_rust_expr().as_str());
        r.append(",");
        r.append(self.10.to_rust_expr().as_str());
        r.append(",");
        r.append(self.11.to_rust_expr().as_str());
        r.append(",");
        r.append(self.12.to_rust_expr().as_str());
        r.append(",");
        r.append(self.13.to_rust_expr().as_str());
        r.append(")");
        r
    }

    fn to_rust_type() -> (r: String) {
        let mut r = String::from_str("(");
        r.append(A0::to_rust_type().as_str());
        r.append(",");
        r.append(A1::to_rust_type().as_str());
        r.append(",");
        r.append(A2::to_rust_type().as_str());
        r.append(",");
        r.append(A3::to_rust_type().as_str());
        r.append(",");
        r.append(A4::to_rust_type().as_str());
        r.append(",");
        r.append(A5::to_rust_type().as_str());
        r.append(",");
        r.append(A6::to_rust_type().as_str());
        r.append(",");
        r.append(A7::to_rust_type().as_str());
        r.append(",");
        r.append(A8::to_rust_type().as_str());
        r.append(",");
        r.append(A9::to_rust_type().as_str());
        r.append(",");
        r.append(A10::to_rust_type().as_str());
        r.append(",");
        r.append(A11::to_rust_type().as_str());
        r.append(",");
        r.append(A12::to_rust_type().as_str());
        r.append(",");
        r.append(A13::to_rust_type().as_str());
        r.append(")");
        r
    }
}

impl<A0: Modelled, A1: Modelled, A2: Modelled, A3: Modelled, A4: Modelled, A5: Modelled, A6: Modelled, A7: Modelled, A8: Modelled, A9: Modelled, A10: Modelled, A11: Modelled, A12: Modelled, A13: Modelled, A14: Modelled> Modelled for (A0, A1, A2, A3, A4, A5, A6, A7, A8, A9, A10, A11, A12, A13, A14, ) {
    type V = (<A0 as Modelled>::V, <A1 as Modelled>::V, <A2 as Modelled>::V, <A3 as Modelled>::V, <A4 as Modelled>::V, <A5 as Modelled>::V, <A6 as Modelled>::V, <A7 as Modelled>::V, <A8 as Modelled>::V, <A9 as Modelled>::V, <A10 as Modelled>::V, <A11 as Modelled>::V, <A12 as Modelled>::V, <A13 as Modelled>::V, <A14 as Modelled>::V, );

    open spec fn model(&self) -> (<A0 as Modelled>::V, <A1 as Modelled>::V, <A2 as Modelled>::V, <A3 as Modelled>::V, <A4 as Modelled>::V, <A5 as Modelled>::V, <A6 as Modelled>::V, <A7 as Modelled>::V, <A8 as Modelled>::V, <A9 as Modelled>::V, <A10 as Modelled>::V, <A11 as Modelled>::V, <A12 as Modelled>::V, <A13 as Modelled>::V, <A14 as Modelled>::V, ) {
        (self.0.model(), self.1.model(), self.2.model(), self.3.model(), self.4.model(), self.5.model(), self.6.model(), self.7.model(), self.8.model(), self.9.model(), self.10.model(), self.11.model(), self.12.model(), self.13.model(), self.14.model(), )
    }
}

impl<A0: ToValueRepr, A1: ToValueRepr, A2: ToValueRepr, A3: ToValueRepr, A4: ToValueRepr, A5: ToValueRepr, A6: ToValueRepr, A7: ToValueRepr, A8: ToValueRepr, A9: ToValueRepr, A10: ToValueRepr, A11: ToValueRepr, A12: ToValueRepr, A13: ToValueRepr, A14: ToValueRepr> ToValueRepr for (A0, A1, A2, A3, A4, A5, A6, A7, A8, A9, A10, A11, A12, A13, A14, ) {
    open spec fn encode(v: (<A0 as Modelled>::V, <A1 as Modelled>::V, <A2 as Modelled>::V, <A3 as Modelled>::V, <A4 as Modelled>::V, <A5 as Modelled>::V, <A6 as Modelled>::V, <A7 as Modelled>::V, <A8 as Modelled>::V, <A9 as Modelled>::V, <A10 as Modelled>::V, <A11 as Modelled>::V, <A12 as Modelled>::V, <A13 as Modelled>::V, <A14 as Modelled>::V, )) -> ValueV {
        tagged("::tuple"@, seq![A0::encode(v.0), A1::encode(v.1), A2::encode(v.2), A3::encode(v.3), A4::encode(v.4), A5::encode(v.5), A6::encode(v.6), A7::encode(v.7), A8::encode(v.8), A9::encode(v.9), A10::encode(v.10), A11::encode(v.11), A12::encode(v.12), A13::encode(v.13), A14::encode(v.14)])
    }

    fn to_value_repr(&self) -> (r: Value) {
        let mut parts: Vec<Value> = Vec::new();
        parts.push(self.0.to_value_repr());
        parts.push(self.1.to_value_repr());
        parts.push(self.2.to_value_repr());
        parts.push(self.3.to_value_repr());
        parts.push(self.4.to_value_repr());
        parts.push(self.5.to_value_repr());
        parts.push(self.6.to_value_repr());
        parts.push(self.7.to_value_repr());
        parts.push(self.8.to_value_repr());
        parts.push(self.9.to_value_repr());
        parts.push(self.10.to_value_repr());
        parts.push(self.11.to_value_repr());
        parts.push(self.12.to_value_repr());
        parts.push(self.13.to_value_repr());
        parts.push(self.14.to_value_repr());
        assert(values_of(parts@) =~= seq![A0::encode(self.0.model()), A1::encode(self.1.model()), A2::encode(self.2.model()), A3::encode(self.3.model()), A4::encode(self.4.model()), A5::encode(self.5.model()), A6::encode(self.6.model()), A7::encode(self.7.model()), A8::encode(self.8.model()), A9::encode(self.9.model()), A10::encode(self.10.model()), A11::encode(self.11.model()), A12::encode(self.12.model()), A13::encode(self.13.model()), A14::encode(self.14.model())]);
        Value::mk_tagged("::tuple", parts.as_slice())
    }
}

impl<A0: FromValueRepr, A1: FromValueRepr, A2: FromValueRepr, A3: FromValueRepr, A4: FromValueRepr, A5: FromValueRepr, A6: FromValueRepr, A7: FromValueRepr, A8: FromValueRepr, A9: FromValueRepr, A10: FromValueRepr, A11: FromValueRepr, A12: FromValueRepr, A13: FromValueRepr, A14: FromValueRepr> FromValueRepr for (A0, A1, A2, A3, A4, A5, A6, A7, A8, A9, A10, A11, A12, A13, A14, ) {
    open spec fn decode(repr: ValueV) -> Option<(<A0 as Modelled>::V, <A1 as Modelled>::V, <A2 as Modelled>::V, <A3 as Modelled>::V, <A4 as Modelled>::V, <A5 as Modelled>::V, <A6 as Modelled>::V, <A7 as Modelled>::V, <A8 as Modelled>::V, <A9 as Modelled>::V, <A10 as Modelled>::V, <A11 as Modelled>::V, <A12 as Modelled>::V, <A13 as Modelled>::V, <A14 as Modelled>::V, )> {
        match parts_n(repr, "::tuple"@, 15) {
            Some(data) => match (A0::decode(data[0]), A1::decode(data[1]), A2::decode(data[2]), A3::decode(data[3]), A4::decode(data[4]), A5::decode(data[5]), A6::decode(data[6]), A7::decode(data[7]), A8::decode(data[8]), A9::decode(data[9]), A10::decode(data[10]), A11::decode(data[11]), A12::decode(data[12]), A13::decode(data[13]), A14::decode(data[14]), ) {
                (Some(x0), Some(x1), Some(x2), Some(x3), Some(x4), Some(x5), Some(x6), Some(x7), Some(x8), Some(x9), Some(x10), Some(x11), Some(x12), Some(x13), Some(x14), ) => Some((x0, x1, x2, x3, x4, x5, x6, x7, x8, x9, x10, x11, x12, x13, x14, )),
                _ => None,
            },
            None => None,
        }
    }

    fn from_value_repr(repr: &Value) -> (r: Result<Self, ExpectError>) {
        match repr.expect_tagged_n::<15>("::tuple") {
            Ok(data) => {
                assert(values_of(data@)[0] == data@[0]@);
                let x0 = match A0::from_value_repr(&data[0]) {
                    Ok(x) => x,
                    Err(e) => {
                        return Err(e);
                    },
                };
                assert(values_of(data@)[1] == data@[1]@);
                let x1 = match A1::from_value_repr(&data[1]) {
                    Ok(x) => x,
                    Err(e) => {
                        return Err(e);
                    },
                };
                assert(values_of(data@)[2] == data@[2]@);
                let x2 = match A2::from_value_repr(&data[2]) {
                    Ok(x) => x,
                    Err(e) => {
                        return Err(e);
                    },
                };
                assert(values_of(data@)[3] == data@[3]@);
                let x3 = match A3::from_value_repr(&data[3]) {
                    Ok(x) => x,
                    Err(e) => {
                        return Err(e);
                    },
                };
                assert(values_of(data@)[4] == data@[4]@);
                let x4 = match A4::from_value_repr(&data[4]) {
                    Ok(x) => x,
                    Err(e) => {
                        return Err(e);
                    },
                };
                assert(values_of(data@)[5] == data@[5]@);
                let x5 = match A5::from_value_repr(&data[5]) {
                    Ok(x) => x,
                    Err(e) => {
                        return Err(e);
                    },
                };
                assert(values_of(data@)[6] == data@[6]@);
                let x6 = match A6::from_value_repr(&data[6]) {
                    Ok(x) => x,
                    Err(e) => {
                        return Err(e);
                    },
                };
                assert(values_of(data@)[7] == data@[7]@);
                let x7 = match A7::from_value_repr(&data[7]) {
                    Ok(x) => x,
                    Err(e) => {
                        return Err(e);
                    },
                };
                assert(values_of(data@)[8] == data@[8]@);
                let x8 = match A8::from_value_repr(&data[8]) {
                    Ok(x) => x,
                    Err(e) => {
                        return Err(e);
                    },
                };
                assert(values_of(data@)[9] == data@[9]@);
                let x9 = match A9::from_value_repr(&data[9]) {
                    Ok(x) => x,
                    Err(e) => {
                        return Err(e);
                    },
                };
                assert(values_of(data@)[10] == data@[10]@);
                let x10 = match A10::from_value_repr(&data[10]) {
                    Ok(x) => x,
                    Err(e) => {
                        return Err(e);
                    },
                };
                assert(values_of(data@)[11] == data@[11]@);
                let x11 = match A11::from_value_repr(&data[11]) {
                    Ok(x) => x,
                    Err(e) => {
                        return Err(e);
                    },
                };
                assert(values_of(data@)[12] == data@[12]@);
                let x12 = match A12::from_value_repr(&data[12]) {
                    Ok(x) => x,
                    Err(e) => {
                        return Err(e);
                    },
                };
                assert(values_of(data@)[13] == data@[13]@);
                let x13 = match A13::from_value_repr(&data[13]) {
                    Ok(x) => x,
                    Err(e) => {
                        return Err(e);
                    },
                };
                assert(values_of(data@)[14] == data@[14]@);
                let x14 = match A14::from_value_repr(&data[14]) {
                    Ok(x) => x,
                    Err(e) => {
                        return Err(e);
                    },
                };
                Ok((x0, x1, x2, x3, x4, x5, x6, x7, x8, x9, x10, x11, x12, x13, x14, ))
            },
            Err(e) => Err(e),
        }
    }
}

impl<A0: Marshalled, A1: Marshalled, A2: Marshalled, A3: Marshalled, A4: Marshalled, A5: Marshalled, A6: Marshalled, A7: Marshalled, A8: Marshalled, A9: Marshalled, A10: Marshalled, A11: Marshalled, A12: Marshalled, A13: Marshalled, A14: Marshalled> Marshalled for (A0, A1, A2, A3, A4, A5, A6, A7, A8, A9, A10, A11, A12, A13, A14, ) {
    proof fn round_trip(v: (<A0 as Modelled>::V, <A1 as Modelled>::V, <A2 as Modelled>::V, <A3 as Modelled>::V, <A4 as Modelled>::V, <A5 as Modelled>::V, <A6 as Modelled>::V, <A7 as Modelled>::V, <A8 as Modelled>::V, <A9 as Modelled>::V, <A10 as Modelled>::V, <A11 as Modelled>::V, <A12 as Modelled>::V, <A13 as Modelled>::V, <A14 as Modelled>::V, )) {
        A0::round_trip(v.0);
        A1::round_trip(v.1);
        A2::round_trip(v.2);
        A3::round_trip(v.3);
        A4::round_trip(v.4);
        A5::round_trip(v.5);
        A6::round_trip(v.6);
        A7::round_trip(v.7);
        A8::round_trip(v.8);
        A9::round_trip(v.9);
        A10::round_trip(v.10);
        A11::round_trip(v.11);
        A12::round_trip(v.12);
        A13::round_trip(v.13);
        A14::round_trip(v.14);
        lemma_tagged_shape("::tuple"@, seq![A0::encode(v.0), A1::encode(v.1), A2::encode(v.2), A3::encode(v.3), A4::encode(v.4), A5::encode(v.5), A6::encode(v.6), A7::encode(v.7), A8::encode(v.8), A9::encode(v.9), A10::encode(v.10), A11::encode(v.11), A12::encode(v.12), A13::encode(v.13), A14::encode(v.14)]);
    }
}

impl<A0: ToRustExpr, A1: ToRustExpr, A2: ToRustExpr, A3: ToRustExpr, A4: ToRustExpr, A5: ToRustExpr, A6: ToRustExpr, A7: ToRustExpr, A8: ToRustExpr, A9: ToRustExpr, A10: ToRustExpr, A11: ToRustExpr, A12: ToRustExpr, A13: ToRustExpr, A14: ToRustExpr> ToRustExpr for (A0, A1, A2, A3, A4, A5, A6, A7, A8, A9, A10, A11, A12, A13, A14, ) {
    open spec fn rust_expr(v: (<A0 as Modelled>::V, <A1 as Modelled>::V, <A2 as Modelled>::V, <A3 as Modelled>::V, <A4 as Modelled>::V, <A5 as Modelled>::V, <A6 as Modelled>::V, <A7 as Modelled>::V, <A8 as Modelled>::V, <A9 as Modelled>::V, <A10 as Modelled>::V, <A11 as Modelled>::V, <A12 as Modelled>::V, <A13 as Modelled>::V, <A14 as Modelled>::V, )) -> Seq<char> {
        "("@ + A0::rust_expr(v.0) + ","@ + A1::rust_expr(v.1) + ","@ + A2::rust_expr(v.2) + ","@ + A3::rust_expr(v.3) + ","@ + A4::rust_expr(v.4) + ","@ + A5::rust_expr(v.5) + ","@ + A6::rust_expr(v.6) + ","@ + A7::rust_expr(v.7) + ","@ + A8::rust_expr(v.8) + ","@ + A9::rust_expr(v.9) + ","@ + A10::rust_expr(v.10) + ","@ + A11::rust_expr(v.11) + ","@ + A12::rust_expr(v.12) + ","@ + A13::rust_expr(v.13) + ","@ + A14::rust_expr(v.14) + ")"@
    }

    open spec fn rust_type() -> Seq<char> {
        "("@ + A0::rust_type() + ","@ + A1::rust_type() + ","@ + A2::rust_type() + ","@ + A3::rust_type() + ","@ + A4::rust_type() + ","@ + A5::rust_type() + ","@ + A6::rust_type() + ","@ + A7::rust_type() + ","@ + A8::rust_type() + ","@ + A9::rust_type() + ","@ + A10::rust_type() + ","@ + A11::rust_type() + ","@ + A12::rust_type() + ","@ + A13::rust_type() + ","@ + A14::rust_type() + ")"@
    }

    fn to_rust_expr(&self) -> (r: String) {
        let mut r = String::from_str("(");
        r.append(self.0.to_rust_expr().as_str());
        r.append(",");
        r.append(self.1.to_rust_expr().as_str());
        r.append(",");
        r.append(self.2.to_rust_expr().as_str());
        r.append(",");
        r.append(self.3.to_rust_expr().as_str());
        r.append(",");
        r.append(self.4.to_rust_expr().as_str());
        r.append(",");
        r.append(self.5.to_rust_expr().as_str());
        r.append(",");
        r.append(self.6.to_rust_expr().as_str());
        r.append(",");
        r.append(self.7.to_rust_expr().as_str());
        r.append(",");
        r.append(self.8.to_rust_expr().as_str());
        r.append(",");
        r.append(self.9.to_rust_expr().as_str());
        r.append(",");
        r.append(self.10.to_rust_expr().as_str());
        r.append(",");
        r.append(self.11.to_rust_expr().as_str());
        r.append(",");
        r.append(self.12.to_rust_expr().as_str());
        r.append(",");
        r.append(self.13.to_rust_expr().as_str());
        r.append(",");
        r.append(self.14.to_rust_expr().as_str());
        r.append(")");
        r
    }

    fn to_rust_type() -> (r: String) {
        let mut r = String::from_str("(");
        r.append(A0::to_rust_type().as_str());
        r.append(",");
        r.append(A1::to_rust_type().as_str());
        r.append(",");
        r.append(A2::to_rust_type().as_str());
        r.append(",");
        r.append(A3::to_rust_type().as_str());
        r.append(",");
        r.append(A4::to_rust_type().as_str());
        r.append(",");
        r.append(A5::to_rust_type().as_str());
        r.append(",");
        r.append(A6::to_rust_type().as_str());
        r.append(",");
        r.append(A7::to_rust_type().as_str());
        r.append(",");
        r.append(A8::to_rust_type().as_str());
        r.append(",");
        r.append(A9::to_rust_type().as_str());
        r.append(",");
        r.append(A10::to_rust_type().as_str());
        r.append(",");
        r.append(A11::to_rust_type().as_str());
        r.append(",");
        r.append(A12::to_rust_type().as_str());
        r.append(",");
        r.append(A13::to_rust_type().as_str());
        r.append(",");
        r.append(A14::to_rust_type().as_str());
        r.append(")");
        r
    }
}

impl<A0: Modelled, A1: Modelled, A2: Modelled, A3: Modelled, A4: Modelled, A5: Modelled, A6: Modelled, A7: Modelled, A8: Modelled, A9: Modelled, A10: Modelled, A11: Modelled, A12: Modelled, A13: Modelled, A14: Modelled, A15: Modelled> Modelled for (A0, A1, A2, A3, A4, A5, A6, A7, A8, A9, A10, A11, A12, A13, A14, A15, ) {
    type V = (<A0 as Modelled>::V, <A1 as Modelled>::V, <A2 as Modelled>::V, <A3 as Modelled>::V, <A4 as Modelled>::V, <A5 as Modelled>::V, <A6 as Modelled>::V, <A7 as Modelled>::V, <A8 as Modelled>::V, <A9 as Modelled>::V, <A10 as Modelled>::V, <A11 as Modelled>::V, <A12 as Modelled>::V, <A13 as Modelled>::V, <A14 as Modelled>::V, <A15 as Modelled>::V, );

    open spec fn model(&self) -> (<A0 as Modelled>::V, <A1 as Modelled>::V, <A2 as Modelled>::V, <A3 as Modelled>::V, <A4 as Modelled>::V, <A5 as Modelled>::V, <A6 as Modelled>::V, <A7 as Modelled>::V, <A8 as Modelled>::V, <A9 as Modelled>::V, <A10 as Modelled>::V, <A11 as Modelled>::V, <A12 as Modelled>::V, <A13 as Modelled>::V, <A14 as Modelled>::V, <A15 as Modelled>::V, ) {
        (self.0.model(), self.1.model(), self.2.model(), self.3.model(), self.4.model(), self.5.model(), self.6.model(), self.7.model(), self.8.model(), self.9.model(), self.10.model(), self.11.model(), self.12.model(), self.13.model(), self.14.model(), self.15.model(), )
    }
}

impl<A0: ToValueRepr, A1: ToValueRepr, A2: ToValueRepr, A3: ToValueRepr, A4: ToValueRepr, A5: ToValueRepr, A6: ToValueRepr, A7: ToValueRepr, A8: ToValueRepr, A9: ToValueRepr, A10: ToValueRepr, A11: ToValueRepr, A12: ToValueRepr, A13: ToValueRepr, A14: ToValueRepr, A15: ToValueRepr> ToValueRepr for (A0, A1, A2, A3, A4, A5, A6, A7, A8, A9, A10, A11, A12, A13, A14, A15, ) {
    open spec fn encode(v: (<A0 as Modelled>::V, <A1 as Modelled>::V, <A2 as Modelled>::V, <A3 as Modelled>::V, <A4 as Modelled>::V, <A5 as Modelled>::V, <A6 as Modelled>::V, <A7 as Modelled>::V, <A8 as Modelled>::V, <A9 as Modelled>::V, <A10 as Modelled>::V, <A11 as Modelled>::V, <A12 as Modelled>::V, <A13 as Modelled>::V, <A14 as Modelled>::V, <A15 as Modelled>::V, )) -> ValueV {
        tagged("::tuple"@, seq![A0::encode(v.0), A1::encode(v.1), A2::encode(v.2), A3::encode(v.3), A4::encode(v.4), A5::encode(v.5), A6::encode(v.6), A7::encode(v.7), A8::encode(v.8), A9::encode(v.9), A10::encode(v.10), A11::encode(v.11), A12::encode(v.12), A13::encode(v.13), A14::encode(v.14), A15::encode(v.15)])
    }

    fn to_value_repr(&self) -> (r: Value) {
        let mut parts: Vec<Value> = Vec::new();
        parts.push(self.0.to_value_repr());
        parts.push(self.1.to_value_repr());
        parts.push(self.2.to_value_repr());
        parts.push(self.3.to_value_repr());
        parts.push(self.4.to_value_repr());
        parts.push(self.5.to_value_repr());
        parts.push(self.6.to_value_repr());
        parts.push(self.7.to_value_repr());
        parts.push(self.8.to_value_repr());
        parts.push(self.9.to_value_repr());
        parts.push(self.10.to_value_repr());
        parts.push(self.11.to_value_repr());
        parts.push(self.12.to_value_repr());
        parts.push(self.13.to_value_repr());
        parts.push(self.14.to_value_repr());
        parts.push(self.15.to_value_repr());
        assert(values_of(parts@) =~= seq![A0::encode(self.0.model()), A1::encode(self.1.model()), A2::encode(self.2.model()), A3::encode(self.3.model()), A4::encode(self.4.model()), A5::encode(self.5.model()), A6::encode(self.6.model()), A7::encode(self.7.model()), A8::encode(self.8.model()), A9::encode(self.9.model()), A10::encode(self.10.model()), A11::encode(self.11.model()), A12::encode(self.12.model()), A13::encode(self.13.model()), A14::encode(self.14.model()), A15::encode(self.15.model())]);
        Value::mk_tagged("::tuple", parts.as_slice())
    }
}

impl<A0: FromValueRepr, A1: FromValueRepr, A2: FromValueRepr, A3: FromValueRepr, A4: FromValueRepr, A5: FromValueRepr, A6: FromValueRepr, A7: FromValueRepr, A8: FromValueRepr, A9: FromValueRepr, A10: FromValueRepr, A11: FromValueRepr, A12: FromValueRepr, A13: FromValueRepr, A14: FromValueRepr, A15: FromValueRepr> FromValueRepr for (A0, A1, A2, A3, A4, A5, A6, A7, A8, A9, A10, A11, A12, A13, A14, A15, ) {
    open spec fn decode(repr: ValueV) -> Option<(<A0 as Modelled>::V, <A1 as Modelled>::V, <A2 as Modelled>::V, <A3 as Modelled>::V, <A4 as Modelled>::V, <A5 as Modelled>::V, <A6 as Modelled>::V, <A7 as Modelled>::V, <A8 as Modelled>::V, <A9 as Modelled>::V, <A10 as Modelled>::V, <A11 as Modelled>::V, <A12 as Modelled>::V, <A13 as Modelled>::V, <A14 as Modelled>::V, <A15 as Modelled>::V, )> {
        match parts_n(repr, "::tuple"@, 16) {
            Some(data) => match (A0::decode(data[0]), A1::decode(data[1]), A2::decode(data[2]), A3::decode(data[3]), A4::decode(data[4]), A5::decode(data[5]), A6::decode(data[6]), A7::decode(data[7]), A8::decode(data[8]), A9::decode(data[9]), A10::decode(data[10]), A11::decode(data[11]), A12::decode(data[12]), A13::decode(data[13]), A14::decode(data[14]), A15::decode(data[15]), ) {
                (Some(x0), Some(x1), Some(x2), Some(x3), Some(x4), Some(x5), Some(x6), Some(x7), Some(x8), Some(x9), Some(x10), Some(x11), Some(x12), Some(x13), Some(x14), Some(x15), ) => Some((x0, x1, x2, x3, x4, x5, x6, x7, x8, x9, x10, x11, x12, x13, x14, x15, )),
                _ => None,
            },
            None => None,
        }
    }

    fn from_value_repr(repr: &Value) -> (r: Result<Self, ExpectError>) {
        match repr.expect_tagged_n::<16>("::tuple") {
            Ok(data) => {
                assert(values_of(data@)[0] == data@[0]@);
                let x0 = match A0::from_value_repr(&data[0]) {
                    Ok(x) => x,
                    Err(e) => {
                        return Err(e);
                    },
                };
                assert(values_of(data@)[1] == data@[1]@);
                let x1 = match A1::from_value_repr(&data[1]) {
                    Ok(x) => x,
                    Err(e) => {
                        return Err(e);
                    },
                };
                assert(values_of(data@)[2] == data@[2]@);
                let x2 = match A2::from_value_repr(&data[2]) {
                    Ok(x) => x,
                    Err(e) => {
                        return Err(e);
                    },
                };
                assert(values_of(data@)[3] == data@[3]@);
                let x3 = match A3::from_value_repr(&data[3]) {
                    Ok(x) => x,
                    Err(e) => {
                        return Err(e);
                    },
                };
                assert(values_of(data@)[4] == data@[4]@);
                let x4 = match A4::from_value_repr(&data[4]) {
                    Ok(x) => x,
                    Err(e) => {
                        return Err(e);
                    },
                };
                assert(values_of(data@)[5] == data@[5]@);
                let x5 = match A5::from_value_repr(&data[5]) {
                    Ok(x) => x,
                    Err(e) => {
                        return Err(e);
                    },
                };
                assert(values_of(data@)[6] == data@[6]@);
                let x6 = match A6::from_value_repr(&data[6]) {
                    Ok(x) => x,
                    Err(e) => {
                        return Err(e);
                    },
                };
                assert(values_of(data@)[7] == data@[7]@);
                let x7 = match A7::from_value_repr(&data[7]) {
                    Ok(x) => x,
                    Err(e) => {
                        return Err(e);
                    },
                };
                assert(values_of(data@)[8] == data@[8]@);
                let x8 = match A8::from_value_repr(&data[8]) {
                    Ok(x) => x,
                    Err(e) => {
                        return Err(e);
                    },
                };
                assert(values_of(data@)[9] == data@[9]@);
                let x9 = match A9::from_value_repr(&data[9]) {
                    Ok(x) => x,
                    Err(e) => {
                        return Err(e);
                    },
                };
                assert(values_of(data@)[10] == data@[10]@);
                let x10 = match A10::from_value_repr(&data[10]) {
                    Ok(x) => x,
                    Err(e) => {
                        return Err(e);
                    },
                };
                assert(values_of(data@)[11] == data@[11]@);
                let x11 = match A11::from_value_repr(&data[11]) {
                    Ok(x) => x,
                    Err(e) => {
                        return Err(e);
                    },
                };
                assert(values_of(data@)[12] == data@[12]@);
                let x12 = match A12::from_value_repr(&data[12]) {
                    Ok(x) => x,
                    Err(e) => {
                        return Err(e);
                    },
                };
                assert(values_of(data@)[13] == data@[13]@);
                let x13 = match A13::from_value_repr(&data[13]) {
                    Ok(x) => x,
                    Err(e) => {
                        return Err(e);
                    },
                };
                assert(values_of(data@)[14] == data@[14]@);
                let x14 = match A14::from_value_repr(&data[14]) {
                    Ok(x) => x,
                    Err(e) => {
                        return Err(e);
                    },
                };
                assert(values_of(data@)[15] == data@[15]@);
                let x15 = match A15::from_value_repr(&data[15]) {
                    Ok(x) => x,
                    Err(e) => {
                        return Err(e);
                    },
                };
                Ok((x0, x1, x2, x3, x4, x5, x6, x7, x8, x9, x10, x11, x12, x13, x14, x15, ))
            },
            Err(e) => Err(e),
        }
    }
}

impl<A0: Marshalled, A1: Marshalled, A2: Marshalled, A3: Marshalled, A4: Marshalled, A5: Marshalled, A6: Marshalled, A7: Marshalled, A8: Marshalled, A9: Marshalled, A10: Marshalled, A11: Marshalled, A12: Marshalled, A13: Marshalled, A14: Marshalled, A15: Marshalled> Marshalled for (A0, A1, A2, A3, A4, A5, A6, A7, A8, A9, A10, A11, A12, A13, A14, A15, ) {
    proof fn round_trip(v: (<A0 as Modelled>::V, <A1 as Modelled>::V, <A2 as Modelled>::V, <A3 as Modelled>::V, <A4 as Modelled>::V, <A5 as Modelled>::V, <A6 as Modelled>::V, <A7 as Modelled>::V, <A8 as Modelled>::V, <A9 as Modelled>::V, <A10 as Modelled>::V, <A11 as Modelled>::V, <A12 as Modelled>::V, <A13 as Modelled>::V, <A14 as Modelled>::V, <A15 as Modelled>::V, )) {
        A0::round_trip(v.0);
        A1::round_trip(v.1);
        A2::round_trip(v.2);
        A3::round_trip(v.3);
        A4::round_trip(v.4);
        A5::round_trip(v.5);
        A6::round_trip(v.6);
        A7::round_trip(v.7);
        A8::round_trip(v.8);
        A9::round_trip(v.9);
        A10::round_trip(v.10);
        A11::round_trip(v.11);
        A12::round_trip(v.12);
        A13::round_trip(v.13);
        A14::round_trip(v.14);
        A15::round_trip(v.15);
        lemma_tagged_shape("::tuple"@, seq![A0::encode(v.0), A1::encode(v.1), A2::encode(v.2), A3::encode(v.3), A4::encode(v.4), A5::encode(v.5), A6::encode(v.6), A7::encode(v.7), A8::encode(v.8), A9::encode(v.9), A10::encode(v.10), A11::encode(v.11), A12::encode(v.12), A13::encode(v.13), A14::encode(v.14), A15::encode(v.15)]);
    }
}

impl<A0: ToRustExpr, A1: ToRustExpr, A2: ToRustExpr, A3: ToRustExpr, A4: ToRustExpr, A5: ToRustExpr, A6: ToRustExpr, A7: ToRustExpr, A8: ToRustExpr, A9: ToRustExpr, A10: ToRustExpr, A11: ToRustExpr, A12: ToRustExpr, A13: ToRustExpr, A14: ToRustExpr, A15: ToRustExpr> ToRustExpr for (A0, A1, A2, A3, A4, A5, A6, A7, A8, A9, A10, A11, A12, A13, A14, A15, ) {
    open spec fn rust_expr(v: (<A0 as Modelled>::V, <A1 as Modelled>::V, <A2 as Modelled>::V, <A3 as Modelled>::V, <A4 as Modelled>::V, <A5 as Modelled>::V, <A6 as Modelled>::V, <A7 as Modelled>::V, <A8 as Modelled>::V, <A9 as Modelled>::V, <A10 as Modelled>::V, <A11 as Modelled>::V, <A12 as Modelled>::V, <A13 as Modelled>::V, <A14 as Modelled>::V, <A15 as Modelled>::V, )) -> Seq<char> {
        "("@ + A0::rust_expr(v.0) + ","@ + A1::rust_expr(v.1) + ","@ + A2::rust_expr(v.2) + ","@ + A3::rust_expr(v.3) + ","@ + A4::rust_expr(v.4) + ","@ + A5::rust_expr(v.5) + ","@ + A6::rust_expr(v.6) + ","@ + A7::rust_expr(v.7) + ","@ + A8::rust_expr(v.8) + ","@ + A9::rust_expr(v.9) + ","@ + A10::rust_expr(v.10) + ","@ + A11::rust_expr(v.11) + ","@ + A12::rust_expr(v.12) + ","@ + A13::rust_expr(v.13) + ","@ + A14::rust_expr(v.14) + ","@ + A15::rust_expr(v.15) + ")"@
    }

    open spec fn rust_type() -> Seq<char> {
        "("@ + A0::rust_type() + ","@ + A1::rust_type() + ","@ + A2::rust_type() + ","@ + A3::rust_type() + ","@ + A4::rust_type() + ","@ + A5::rust_type() + ","@ + A6::rust_type() + ","@ + A7::rust_type() + ","@ + A8::rust_type() + ","@ + A9::rust_type() + ","@ + A10::rust_type() + ","@ + A11::rust_type() + ","@ + A12::rust_type() + ","@ + A13::rust_type() + ","@ + A14::rust_type() + ","@ + A15::rust_type() + ")"@
    }

    fn to_rust_expr(&self) -> (r: String) {
        let mut r = String::from_str("(");
        r.append(self.0.to_rust_expr().as_str());
        r.append(",");
        r.append(self.1.to_rust_expr().as_str());
        r.append(",");
        r.append(self.2.to_rust_expr().as_str());
        r.append(",");
        r.append(self.3.to_rust_expr().as_str());
        r.append(",");
        r.append(self.4.to_rust_expr().as_str());
        r.append(",");
        r.append(self.5.to_rust_expr().as_str());
        r.append(",");
        r.append(self.6.to_rust_expr().as_str());
        r.append(",");
        r.append(self.7.to_rust_expr().as_str());
        r.append(",");
        r.append(self.8.to_rust_expr().as_str());
        r.append(",");
        r.append(self.9.to_rust_expr().as_str());
        r.append(",");
        r.append(self.10.to_rust_expr().as_str());
        r.append(",");
        r.append(self.11.to_rust_expr().as_str());
        r.append(",");
        r.append(self.12.to_rust_expr().as_str());
        r.append(",");
        r.append(self.13.to_rust_expr().as_str());
        r.append(",");
        r.append(self.14.to_rust_expr().as_str());
        r.append(",");
        r.append(self.15.to_rust_expr().as_str());
        r.append(")");
        r
    }

    fn to_rust_type() -> (r: String) {
        let mut r = String::from_str("(");
        r.append(A0::to_rust_type().as_str());
        r.append(",");
        r.append(A1::to_rust_type().as_str());
        r.append(",");
        r.append(A2::to_rust_type().as_str());
        r.append(",");
        r.append(A3::to_rust_type().as_str());
        r.append(",");
        r.append(A4::to_rust_type().as_str());
        r.append(",");
        r.append(A5::to_rust_type().as_str());
        r.append(",");
        r.append(A6::to_rust_type().as_str());
        r.append(",");
        r.append(A7::to_rust_type().as_str());
        r.append(",");
        r.append(A8::to_rust_type().as_str());
        r.append(",");
        r.append(A9::to_rust_type().as_str());
        r.append(",");
        r.append(A10::to_rust_type().as_str());
        r.append(",");
        r.append(A11::to_rust_type().as_str());
        r.append(",");
        r.append(A12::to_rust_type().as_str());
        r.append(",");
        r.append(A13::to_rust_type().as_str());
        r.append(",");
        r.append(A14::to_rust_type().as_str());
        r.append(",");
        r.append(A15::to_rust_type().as_str());
        r.append(")");
        r
    }
}

impl<A0: Modelled, A1: Modelled, A2: Modelled, A3: Modelled, A4: Modelled, A5: Modelled, A6: Modelled, A7: Modelled, A8: Modelled, A9: Modelled, A10: Modelled, A11: Modelled, A12: Modelled, A13: Modelled, A14: Modelled, A15: Modelled, A16: Modelled> Modelled for (A0, A1, A2, A3, A4, A5, A6, A7, A8, A9, A10, A11, A12, A13, A14, A15, A16, ) {
    type V = (<A0 as Modelled>::V, <A1 as Modelled>::V, <A2 as Modelled>::V, <A3 as Modelled>::V, <A4 as Modelled>::V, <A5 as Modelled>::V, <A6 as Modelled>::V, <A7 as Modelled>::V, <A8 as Modelled>::V, <A9 as Modelled>::V, <A10 as Modelled>::V, <A11 as Modelled>::V, <A12 as Modelled>::V, <A13 as Modelled>::V, <A14 as Modelled>::V, <A15 as Modelled>::V, <A16 as Modelled>::V, );

    open spec fn model(&self) -> (<A0 as Modelled>::V, <A1 as Modelled>::V, <A2 as Modelled>::V, <A3 as Modelled>::V, <A4 as Modelled>::V, <A5 as Modelled>::V, <A6 as Modelled>::V, <A7 as Modelled>::V, <A8 as Modelled>::V, <A9 as Modelled>::V, <A10 as Modelled>::V, <A11 as Modelled>::V, <A12 as Modelled>::V, <A13 as Modelled>::V, <A14 as Modelled>::V, <A15 as Modelled>::V, <A16 as Modelled>::V, ) {
        (self.0.model(), self.1.model(), self.2.model(), self.3.model(), self.4.model(), self.5.model(), self.6.model(), self.7.model(), self.8.model(), self.9.model(), self.10.model(), self.11.model(), self.12.model(), self.13.model(), self.14.model(), self.15.model(), self.16.model(), )
    }
}

impl<A0: ToValueRepr, A1: ToValueRepr, A2: ToValueRepr, A3: ToValueRepr, A4: ToValueRepr, A5: ToValueRepr, A6: ToValueRepr, A7: ToValueRepr, A8: ToValueRepr, A9: ToValueRepr, A10: ToValueRepr, A11: ToValueRepr, A12: ToValueRepr, A13: ToValueRepr, A14: ToValueRepr, A15: ToValueRepr, A16: ToValueRepr> ToValueRepr for (A0, A1, A2, A3, A4, A5, A6, A7, A8, A9, A10, A11, A12, A13, A14, A15, A16, ) {
    open spec fn encode(v: (<A0 as Modelled>::V, <A1 as Modelled>::V, <A2 as Modelled>::V, <A3 as Modelled>::V, <A4 as Modelled>::V, <A5 as Modelled>::V, <A6 as Modelled>::V, <A7 as Modelled>::V, <A8 as Modelled>::V, <A9 as Modelled>::V, <A10 as Modelled>::V, <A11 as Modelled>::V, <A12 as Modelled>::V, <A13 as Modelled>::V, <A14 as Modelled>::V, <A15 as Modelled>::V, <A16 as Modelled>::V, )) -> ValueV {
        tagged("::tuple"@, seq![A0::encode(v.0), A1::encode(v.1), A2::encode(v.2), A3::encode(v.3), A4::encode(v.4), A5::encode(v.5), A6::encode(v.6), A7::encode(v.7), A8::encode(v.8), A9::encode(v.9), A10::encode(v.10), A11::encode(v.11), A12::encode(v.12), A13::encode(v.13), A14::encode(v.14), A15::encode(v.15), A16::encode(v.16)])
    }

    fn to_value_repr(&self) -> (r: Value) {
        let mut parts: Vec<Value> = Vec::new();
        parts.push(self.0.to_value_repr());
        parts.push(self.1.to_value_repr());
        parts.push(self.2.to_value_repr());
        parts.push(self.3.to_value_repr());
        parts.push(self.4.to_value_repr());
        parts.push(self.5.to_value_repr());
        parts.push(self.6.to_value_repr());
        parts.push(self.7.to_value_repr());
        parts.push(self.8.to_value_repr());
        parts.push(self.9.to_value_repr());
        parts.push(self.10.to_value_repr());
        parts.push(self.11.to_value_repr());
        parts.push(self.12.to_value_repr());
        parts.push(self.13.to_value_repr());
        parts.push(self.14.to_value_repr());
        parts.push(self.15.to_value_repr());
        parts.push(self.16.to_value_repr());
        assert(values_of(parts@) =~= seq![A0::encode(self.0.model()), A1::encode(self.1.model()), A2::encode(self.2.model()), A3::encode(self.3.model()), A4::encode(self.4.model()), A5::encode(self.5.model()), A6::encode(self.6.model()), A7::encode(self.7.model()), A8::encode(self.8.model()), A9::encode(self.9.model()), A10::encode(self.10.model()), A11::encode(self.11.model()), A12::encode(self.12.model()), A13::encode(self.13.model()), A14::encode(self.14.model()), A15::encode(self.15.model()), A16::encode(self.16.model())]);
        Value::mk_tagged("::tuple", parts.as_slice())
    }
}

impl<A0: FromValueRepr, A1: FromValueRepr, A2: FromValueRepr, A3: FromValueRepr, A4: FromValueRepr, A5: FromValueRepr, A6: FromValueRepr, A7: FromValueRepr, A8: FromValueRepr, A9: FromValueRepr, A10: FromValueRepr, A11: FromValueRepr, A12: FromValueRepr, A13: FromValueRepr, A14: FromValueRepr, A15: FromValueRepr, A16: FromValueRepr> FromValueRepr for (A0, A1, A2, A3, A4, A5, A6, A7, A8, A9, A10, A11, A12, A13, A14, A15, A16, ) {
    open spec fn decode(repr: ValueV) -> Option<(<A0 as Modelled>::V, <A1 as Modelled>::V, <A2 as Modelled>::V, <A3 as Modelled>::V, <A4 as Modelled>::V, <A5 as Modelled>::V, <A6 as Modelled>::V, <A7 as Modelled>::V, <A8 as Modelled>::V, <A9 as Modelled>::V, <A10 as Modelled>::V, <A11 as Modelled>::V, <A12 as Modelled>::V, <A13 as Modelled>::V, <A14 as Modelled>::V, <A15 as Modelled>::V, <A16 as Modelled>::V, )> {
        match parts_n(repr, "::tuple"@, 17) {
            Some(data) => match (A0::decode(data[0]), A1::decode(data[1]), A2::decode(data[2]), A3::decode(data[3]), A4::decode(data[4]), A5::decode(data[5]), A6::decode(data[6]), A7::decode(data[7]), A8::decode(data[8]), A9::decode(data[9]), A10::decode(data[10]), A11::decode(data[11]), A12::decode(data[12]), A13::decode(data[13]), A14::decode(data[14]), A15::decode(data[15]), A16::decode(data[16]), ) {
                (Some(x0), Some(x1), Some(x2), Some(x3), Some(x4), Some(x5), Some(x6), Some(x7), Some(x8), Some(x9), Some(x10), Some(x11), Some(x12), Some(x13), Some(x14), Some(x15), Some(x16), ) => Some((x0, x1, x2, x3, x4, x5, x6, x7, x8, x9, x10, x11, x12, x13, x14, x15, x16, )),
                _ => None,
            },
            None => None,
        }
    }

    fn from_value_repr(repr: &Value) -> (r: Result<Self, ExpectError>) {
        match repr.expect_tagged_n::<17>("::tuple") {
            Ok(data) => {
                assert(values_of(data@)[0] == data@[0]@);
                let x0 = match A0::from_value_repr(&data[0]) {
                    Ok(x) => x,
                    Err(e) => {
                        return Err(e);
                    },
                };
                assert(values_of(data@)[1] == data@[1]@);
                let x1 = match A1::from_value_repr(&data[1]) {
                    Ok(x) => x,
                    Err(e) => {
                        return Err(e);
                    },
                };
                assert(values_of(data@)[2] == data@[2]@);
                let x2 = match A2::from_value_repr(&data[2]) {
                    Ok(x) => x,
                    Err(e) => {
                        return Err(e);
                    },
                };
                assert(values_of(data@)[3] == data@[3]@);
                let x3 = match A3::from_value_repr(&data[3]) {
                    Ok(x) => x,
                    Err(e) => {
                        return Err(e);
                    },
                };
                assert(values_of(data@)[4] == data@[4]@);
                let x4 = match A4::from_value_repr(&data[4]) {
                    Ok(x) => x,
                    Err(e) => {
                        return Err(e);
                    },
                };
                assert(values_of(data@)[5] == data@[5]@);
                let x5 = match A5::from_value_repr(&data[5]) {
                    Ok(x) => x,
                    Err(e) => {
                        return Err(e);
                    },
                };
                assert(values_of(data@)[6] == data@[6]@);
                let x6 = match A6::from_value_repr(&data[6]) {
                    Ok(x) => x,
                    Err(e) => {
                        return Err(e);
                    },
                };
                assert(values_of(data@)[7] == data@[7]@);
                let x7 = match A7::from_value_repr(&data[7]) {
                    Ok(x) => x,
                    Err(e) => {
                        return Err(e);
                    },
                };
                assert(values_of(data@)[8] == data@[8]@);
                let x8 = match A8::from_value_repr(&data[8]) {
                    Ok(x) => x,
                    Err(e) => {
                        return Err(e);
                    },
                };
                assert(values_of(data@)[9] == data@[9]@);
                let x9 = match A9::from_value_repr(&data[9]) {
                    Ok(x) => x,
                    Err(e) => {
                        return Err(e);
                    },
                };
                assert(values_of(data@)[10] == data@[10]@);
                let x10 = match A10::from_value_repr(&data[10]) {
                    Ok(x) => x,
                    Err(e) => {
                        return Err(e);
                    },
                };
                assert(values_of(data@)[11] == data@[11]@);
                let x11 = match A11::from_value_repr(&data[11]) {
                    Ok(x) => x,
                    Err(e) => {
                        return Err(e);
                    },
                };
                assert(values_of(data@)[12] == data@[12]@);
                let x12 = match A12::from_value_repr(&data[12]) {
                    Ok(x) => x,
                    Err(e) => {
                        return Err(e);
                    },
                };
                assert(values_of(data@)[13] == data@[13]@);
                let x13 = match A13::from_value_repr(&data[13]) {
                    Ok(x) => x,
                    Err(e) => {
                        return Err(e);
                    },
                };
                assert(values_of(data@)[14] == data@[14]@);
                let x14 = match A14::from_value_repr(&data[14]) {
                    Ok(x) => x,
                    Err(e) => {
                        return Err(e);
                    },
                };
                assert(values_of(data@)[15] == data@[15]@);
                let x15 = match A15::from_value_repr(&data[15]) {
                    Ok(x) => x,
                    Err(e) => {
                        return Err(e);
                    },
                };
                assert(values_of(data@)[16] == data@[16]@);
                let x16 = match A16::from_value_repr(&data[16]) {
                    Ok(x) => x,
                    Err(e) => {
                        return Err(e);
                    },
                };
                Ok((x0, x1, x2, x3, x4, x5, x6, x7, x8, x9, x10, x11, x12, x13, x14, x15, x16, ))
            },
            Err(e) => Err(e),
        }
    }
}

impl<A0: Marshalled, A1: Marshalled, A2: Marshalled, A3: Marshalled, A4: Marshalled, A5: Marshalled, A6: Marshalled, A7: Marshalled, A8: Marshalled, A9: Marshalled, A10: Marshalled, A11: Marshalled, A12: Marshalled, A13: Marshalled, A14: Marshalled, A15: Marshalled, A16: Marshalled> Marshalled for (A0, A1, A2, A3, A4, A5, A6, A7, A8, A9, A10, A11, A12, A13, A14, A15, A16, ) {
    proof fn round_trip(v: (<A0 as Modelled>::V, <A1 as Modelled>::V, <A2 as Modelled>::V, <A3 as Modelled>::V, <A4 as Modelled>::V, <A5 as Modelled>::V, <A6 as Modelled>::V, <A7 as Modelled>::V, <A8 as Modelled>::V, <A9 as Modelled>::V, <A10 as Modelled>::V, <A11 as Modelled>::V, <A12 as Modelled>::V, <A13 as Modelled>::V, <A14 as Modelled>::V, <A15 as Modelled>::V, <A16 as Modelled>::V, )) {
        A0::round_trip(v.0);
        A1::round_trip(v.1);
        A2::round_trip(v.2);
        A3::round_trip(v.3);
        A4::round_trip(v.4);
        A5::round_trip(v.5);
        A6::round_trip(v.6);
        A7::round_trip(v.7);
        A8::round_trip(v.8);
        A9::round_trip(v.9);
        A10::round_trip(v.10);
        A11::round_trip(v.11);
        A12::round_trip(v.12);
        A13::round_trip(v.13);
        A14::round_trip(v.14);
        A15::round_trip(v.15);
        A16::round_trip(v.16);
        lemma_tagged_shape("::tuple"@, seq![A0::encode(v.0), A1::encode(v.1), A2::encode(v.2), A3::encode(v.3), A4::encode(v.4), A5::encode(v.5), A6::encode(v.6), A7::encode(v.7), A8::encode(v.8), A9::encode(v.9), A10::encode(v.10), A11::encode(v.11), A12::encode(v.12), A13::encode(v.13), A14::encode(v.14), A15::encode(v.15), A16::encode(v.16)]);
    }
}

impl<A0: ToRustExpr, A1: ToRustExpr, A2: ToRustExpr, A3: ToRustExpr, A4: ToRustExpr, A5: ToRustExpr, A6: ToRustExpr, A7: ToRustExpr, A8: ToRustExpr, A9: ToRustExpr, A10: ToRustExpr, A11: ToRustExpr, A12: ToRustExpr, A13: ToRustExpr, A14: ToRustExpr, A15: ToRustExpr, A16: ToRustExpr> ToRustExpr for (A0, A1, A2, A3, A4, A5, A6, A7, A8, A9, A10, A11, A12, A13, A14, A15, A16, ) {
    open spec fn rust_expr(v: (<A0 as Modelled>::V, <A1 as Modelled>::V, <A2 as Modelled>::V, <A3 as Modelled>::V, <A4 as Modelled>::V, <A5 as Modelled>::V, <A6 as Modelled>::V, <A7 as Modelled>::V, <A8 as Modelled>::V, <A9 as Modelled>::V, <A10 as Modelled>::V, <A11 as Modelled>::V, <A12 as Modelled>::V, <A13 as Modelled>::V, <A14 as Modelled>::V, <A15 as Modelled>::V, <A16 as Modelled>::V, )) -> Seq<char> {
        "("@ + A0::rust_expr(v.0) + ","@ + A1::rust_expr(v.1) + ","@ + A2::rust_expr(v.2) + ","@ + A3::rust_expr(v.3) + ","@ + A4::rust_expr(v.4) + ","@ + A5::rust_expr(v.5) + ","@ + A6::rust_expr(v.6) + ","@ + A7::rust_expr(v.7) + ","@ + A8::rust_expr(v.8) + ","@ + A9::rust_expr(v.9) + ","@ + A10::rust_expr(v.10) + ","@ + A11::rust_expr(v.11) + ","@ + A12::rust_expr(v.12) + ","@ + A13::rust_expr(v.13) + ","@ + A14::rust_expr(v.14) + ","@ + A15::rust_expr(v.15) + ","@ + A16::rust_expr(v.16) + ")"@
    }

    open spec fn rust_type() -> Seq<char> {
        "("@ + A0::rust_type() + ","@ + A1::rust_type() + ","@ + A2::rust_type() + ","@ + A3::rust_type() + ","@ + A4::rust_type() + ","@ + A5::rust_type() + ","@ + A6::rust_type() + ","@ + A7::rust_type() + ","@ + A8::rust_type() + ","@ + A9::rust_type() + ","@ + A10::rust_type() + ","@ + A11::rust_type() + ","@ + A12::rust_type() + ","@ + A13::rust_type() + ","@ + A14::rust_type() + ","@ + A15::rust_type() + ","@ + A16::rust_type() + ")"@
    }

    fn to_rust_expr(&self) -> (r: String) {
        let mut r = String::from_str("(");
        r.append(self.0.to_rust_expr().as_str());
        r.append(",");
        r.append(self.1.to_rust_expr().as_str());
        r.append(",");
        r.append(self.2.to_rust_expr().as_str());
        r.append(",");
        r.append(self.3.to_rust_expr().as_str());
        r.append(",");
        r.append(self.4.to_rust_expr().as_str());
        r.append(",");
        r.append(self.5.to_rust_expr().as_str());
        r.append(",");
        r.append(self.6.to_rust_expr().as_str());
        r.append(",");
        r.append(self.7.to_rust_expr().as_str());
        r.append(",");
        r.append(self.8.to_rust_expr().as_str());
        r.append(",");
        r.append(self.9.to_rust_expr().as_str());
        r.append(",");
        r.append(self.10.to_rust_expr().as_str());
        r.append(",");
        r.append(self.11.to_rust_expr().as_str());
        r.append(",");
        r.append(self.12.to_rust_expr().as_str());
        r.append(",");
        r.append(self.13.to_rust_expr().as_str());
        r.append(",");
        r.append(self.14.to_rust_expr().as_str());
        r.append(",");
        r.append(self.15.to_rust_expr().as_str());
        r.append(",");
        r.append(self.16.to_rust_expr().as_str());
        r.append(")");
        r
    }

    fn to_rust_type() -> (r: String) {
        let mut r = String::from_str("(");
        r.append(A0::to_rust_type().as_str());
        r.append(",");
        r.append(A1::to_rust_type().as_str());
        r.append(",");
        r.append(A2::to_rust_type().as_str());
        r.append(",");
        r.append(A3::to_rust_type().as_str());
        r.append(",");
        r.append(A4::to_rust_type().as_str());
        r.append(",");
        r.append(A5::to_rust_type().as_str());
        r.append(",");
        r.append(A6::to_rust_type().as_str());
        r.append(",");
        r.append(A7::to_rust_type().as_str());
        r.append(",");
        r.append(A8::to_rust_type().as_str());
        r.append(",");
        r.append(A9::to_rust_type().as_str());
        r.append(",");
        r.append(A10::to_rust_type().as_str());
        r.append(",");
        r.append(A11::to_rust_type().as_str());
        r.append(",");
        r.append(A12::to_rust_type().as_str());
        r.append(",");
        r.append(A13::to_rust_type().as_str());
        r.append(",");
        r.append(A14::to_rust_type().as_str());
        r.append(",");
        r.append(A15::to_rust_type().as_str());
        r.append(",");
        r.append(A16::to_rust_type().as_str());
        r.append(")");
        r
    }
}

impl<A0: Modelled, A1: Modelled, A2: Modelled, A3: Modelled, A4: Modelled, A5: Modelled, A6: Modelled, A7: Modelled, A8: Modelled, A9: Modelled, A10: Modelled, A11: Modelled, A12: Modelled, A13: Modelled, A14: Modelled, A15: Modelled, A16: Modelled, A17: Modelled> Modelled for (A0, A1, A2, A3, A4, A5, A6, A7, A8, A9, A10, A11, A12, A13, A14, A15, A16, A17, ) {
    type V = (<A0 as Modelled>::V, <A1 as Modelled>::V, <A2 as Modelled>::V, <A3 as Modelled>::V, <A4 as Modelled>::V, <A5 as Modelled>::V, <A6 as Modelled>::V, <A7 as Modelled>::V, <A8 as Modelled>::V, <A9 as Modelled>::V, <A10 as Modelled>::V, <A11 as Modelled>::V, <A12 as Modelled>::V, <A13 as Modelled>::V, <A14 as Modelled>::V, <A15 as Modelled>::V, <A16 as Modelled>::V, <A17 as Modelled>::V, );

    open spec fn model(&self) -> (<A0 as Modelled>::V, <A1 as Modelled>::V, <A2 as Modelled>::V, <A3 as Modelled>::V, <A4 as Modelled>::V, <A5 as Modelled>::V, <A6 as Modelled>::V, <A7 as Modelled>::V, <A8 as Modelled>::V, <A9 as Modelled>::V, <A10 as Modelled>::V, <A11 as Modelled>::V, <A12 as Modelled>::V, <A13 as Modelled>::V, <A14 as Modelled>::V, <A15 as Modelled>::V, <A16 as Modelled>::V, <A17 as Modelled>::V, ) {
        (self.0.model(), self.1.model(), self.2.model(), self.3.model(), self.4.model(), self.5.model(), self.6.model(), self.7.model(), self.8.model(), self.9.model(), self.10.model(), self.11.model(), self.12.model(), self.13.model(), self.14.model(), self.15.model(), self.16.model(), self.17.model(), )
    }
}

impl<A0: ToValueRepr, A1: ToValueRepr, A2: ToValueRepr, A3: ToValueRepr, A4: ToValueRepr, A5: ToValueRepr, A6: ToValueRepr, A7: ToValueRepr, A8: ToValueRepr, A9: ToValueRepr, A10: ToValueRepr, A11: ToValueRepr, A12: ToValueRepr, A13: ToValueRepr, A14: ToValueRepr, A15: ToValueRepr, A16: ToValueRepr, A17: ToValueRepr> ToValueRepr for (A0, A1, A2, A3, A4, A5, A6, A7, A8, A9, A10, A11, A12, A13, A14, A15, A16, A17, ) {
    open spec fn encode(v: (<A0 as Modelled>::V, <A1 as Modelled>::V, <A2 as Modelled>::V, <A3 as Modelled>::V, <A4 as Modelled>::V, <A5 as Modelled>::V, <A6 as Modelled>::V, <A7 as Modelled>::V, <A8 as Modelled>::V, <A9 as Modelled>::V, <A10 as Modelled>::V, <A11 as Modelled>::V, <A12 as Modelled>::V, <A13 as Modelled>::V, <A14 as Modelled>::V, <A15 as Modelled>::V, <A16 as Modelled>::V, <A17 as Modelled>::V, )) -> ValueV {
        tagged("::tuple"@, seq![A0::encode(v.0), A1::encode(v.1), A2::encode(v.2), A3::encode(v.3), A4::encode(v.4), A5::encode(v.5), A6::encode(v.6), A7::encode(v.7), A8::encode(v.8), A9::encode(v.9), A10::encode(v.10), A11::encode(v.11), A12::encode(v.12), A13::encode(v.13), A14::encode(v.14), A15::encode(v.15), A16::encode(v.16), A17::encode(v.17)])
    }

    fn to_value_repr(&self) -> (r: Value) {
        let mut parts: Vec<Value> = Vec::new();
        parts.push(self.0.to_value_repr());
        parts.push(self.1.to_value_repr());
        parts.push(self.2.to_value_repr());
        parts.push(self.3.to_value_repr());
        parts.push(self.4.to_value_repr());
        parts.push(self.5.to_value_repr());
        parts.push(self.6.to_value_repr());
        parts.push(self.7.to_value_repr());
        parts.push(self.8.to_value_repr());
        parts.push(self.9.to_value_repr());
        parts.push(self.10.to_value_repr());
        parts.push(self.11.to_value_repr());
        parts.push(self.12.to_value_repr());
        parts.push(self.13.to_value_repr());
        parts.push(self.14.to_value_repr());
        parts.push(self.15.to_value_repr());
        parts.push(self.16.to_value_repr());
        parts.push(self.17.to_value_repr());
        assert(values_of(parts@) =~= seq![A0::encode(self.0.model()), A1::encode(self.1.model()), A2::encode(self.2.model()), A3::encode(self.3.model()), A4::encode(self.4.model()), A5::encode(self.5.model()), A6::encode(self.6.model()), A7::encode(self.7.model()), A8::encode(self.8.model()), A9::encode(self.9.model()), A10::encode(self.10.model()), A11::encode(self.11.model()), A12::encode(self.12.model()), A13::encode(self.13.model()), A14::encode(self.14.model()), A15::encode(self.15.model()), A16::encode(self.16.model()), A17::encode(self.17.model())]);
        Value::mk_tagged("::tuple", parts.as_slice())
    }
}

impl<A0: FromValueRepr, A1: FromValueRepr, A2: FromValueRepr, A3: FromValueRepr, A4: FromValueRepr, A5: FromValueRepr, A6: FromValueRepr, A7: FromValueRepr, A8: FromValueRepr, A9: FromValueRepr, A10: FromValueRepr, A11: FromValueRepr, A12: FromValueRepr, A13: FromValueRepr, A14: FromValueRepr, A15: FromValueRepr, A16: FromValueRepr, A17: FromValueRepr> FromValueRepr for (A0, A1, A2, A3, A4, A5, A6, A7, A8, A9, A10, A11, A12, A13, A14, A15, A16, A17, ) {
    open spec fn decode(repr: ValueV) -> Option<(<A0 as Modelled>::V, <A1 as Modelled>::V, <A2 as Modelled>::V, <A3 as Modelled>::V, <A4 as Modelled>::V, <A5 as Modelled>::V, <A6 as Modelled>::V, <A7 as Modelled>::V, <A8 as Modelled>::V, <A9 as Modelled>::V, <A10 as Modelled>::V, <A11 as Modelled>::V, <A12 as Modelled>::V, <A13 as Modelled>::V, <A14 as Modelled>::V, <A15 as Modelled>::V, <A16 as Modelled>::V, <A17 as Modelled>::V, )> {
        match parts_n(repr, "::tuple"@, 18) {
            Some(data) => match (A0::decode(data[0]), A1::decode(data[1]), A2::decode(data[2]), A3::decode(data[3]), A4::decode(data[4]), A5::decode(data[5]), A6::decode(data[6]), A7::decode(data[7]), A8::decode(data[8]), A9::decode(data[9]), A10::decode(data[10]), A11::decode(data[11]), A12::decode(data[12]), A13::decode(data[13]), A14::decode(data[14]), A15::decode(data[15]), A16::decode(data[16]), A17::decode(data[17]), ) {
                (Some(x0), Some(x1), Some(x2), Some(x3), Some(x4), Some(x5), Some(x6), Some(x7), Some(x8), Some(x9), Some(x10), Some(x11), Some(x12), Some(x13), Some(x14), Some(x15), Some(x16), Some(x17), ) => Some((x0, x1, x2, x3, x4, x5, x6, x7, x8, x9, x10, x11, x12, x13, x14, x15, x16, x17, )),
                _ => None,
            },
            None => None,
        }
    }

    fn from_value_repr(repr: &Value) -> (r: Result<Self, ExpectError>) {
        match repr.expect_tagged_n::<18>("::tuple") {
            Ok(data) => {
                assert(values_of(data@)[0] == data@[0]@);
                let x0 = match A0::from_value_repr(&data[0]) {
                    Ok(x) => x,
                    Err(e) => {
                        return Err(e);
                    },
                };
                assert(values_of(data@)[1] == data@[1]@);
                let x1 = match A1::from_value_repr(&data[1]) {
                    Ok(x) => x,
                    Err(e) => {
                        return Err(e);
                    },
                };
                assert(values_of(data@)[2] == data@[2]@);
                let x2 = match A2::from_value_repr(&data[2]) {
                    Ok(x) => x,
                    Err(e) => {
                        return Err(e);
                    },
                };
                assert(values_of(data@)[3] == data@[3]@);
                let x3 = match A3::from_value_repr(&data[3]) {
                    Ok(x) => x,
                    Err(e) => {
                        return Err(e);
                    },
                };
                assert(values_of(data@)[4] == data@[4]@);
                let x4 = match A4::from_value_repr(&data[4]) {
                    Ok(x) => x,
                    Err(e) => {
                        return Err(e);
                    },
                };
                assert(values_of(data@)[5] == data@[5]@);
                let x5 = match A5::from_value_repr(&data[5]) {
                    Ok(x) => x,
                    Err(e) => {
                        return Err(e);
                    },
                };
                assert(values_of(data@)[6] == data@[6]@);
                let x6 = match A6::from_value_repr(&data[6]) {
                    Ok(x) => x,
                    Err(e) => {
                        return Err(e);
                    },
                };
                assert(values_of(data@)[7] == data@[7]@);
                let x7 = match A7::from_value_repr(&data[7]) {
                    Ok(x) => x,
                    Err(e) => {
                        return Err(e);
                    },
                };
                assert(values_of(data@)[8] == data@[8]@);
                let x8 = match A8::from_value_repr(&data[8]) {
                    Ok(x) => x,
                    Err(e) => {
                        return Err(e);
                    },
                };
                assert(values_of(data@)[9] == data@[9]@);
                let x9 = match A9::from_value_repr(&data[9]) {
                    Ok(x) => x,
                    Err(e) => {
                        return Err(e);
                    },
                };
                assert(values_of(data@)[10] == data@[10]@);
                let x10 = match A10::from_value_repr(&data[10]) {
                    Ok(x) => x,
                    Err(e) => {
                        return Err(e);
                    },
                };
                assert(values_of(data@)[11] == data@[11]@);
                let x11 = match A11::from_value_repr(&data[11]) {
                    Ok(x) => x,
                    Err(e) => {
                        return Err(e);
                    },
                };
                assert(values_of(data@)[12] == data@[12]@);
                let x12 = match A12::from_value_repr(&data[12]) {
                    Ok(x) => x,
                    Err(e) => {
                        return Err(e);
                    },
                };
                assert(values_of(data@)[13] == data@[13]@);
                let x13 = match A13::from_value_repr(&data[13]) {
                    Ok(x) => x,
                    Err(e) => {
                        return Err(e);
                    },
                };
                assert(values_of(data@)[14] == data@[14]@);
                let x14 = match A14::from_value_repr(&data[14]) {
                    Ok(x) => x,
                    Err(e) => {
                        return Err(e);
                    },
                };
                assert(values_of(data@)[15] == data@[15]@);
                let x15 = match A15::from_value_repr(&data[15]) {
                    Ok(x) => x,
                    Err(e) => {
                        return Err(e);
                    },
                };
                assert(values_of(data@)[16] == data@[16]@);
                let x16 = match A16::from_value_repr(&data[16]) {
                    Ok(x) => x,
                    Err(e) => {
                        return Err(e);
                    },
                };
                assert(values_of(data@)[17] == data@[17]@);
                let x17 = match A17::from_value_repr(&data[17]) {
                    Ok(x) => x,
                    Err(e) => {
                        return Err(e);
                    },
                };
                Ok((x0, x1, x2, x3, x4, x5, x6, x7, x8, x9, x10, x11, x12, x13, x14, x15, x16, x17, ))
            },
            Err(e) => Err(e),
        }
    }
}

impl<A0: Marshalled, A1: Marshalled, A2: Marshalled, A3: Marshalled, A4: Marshalled, A5: Marshalled, A6: Marshalled, A7: Marshalled, A8: Marshalled, A9: Marshalled, A10: Marshalled, A11: Marshalled, A12: Marshalled, A13: Marshalled, A14: Marshalled, A15: Marshalled, A16: Marshalled, A17: Marshalled> Marshalled for (A0, A1, A2, A3, A4, A5, A6, A7, A8, A9, A10, A11, A12, A13, A14, A15, A16, A17, ) {
    proof fn round_trip(v: (<A0 as Modelled>::V, <A1 as Modelled>::V, <A2 as Modelled>::V, <A3 as Modelled>::V, <A4 as Modelled>::V, <A5 as Modelled>::V, <A6 as Modelled>::V, <A7 as Modelled>::V, <A8 as Modelled>::V, <A9 as Modelled>::V, <A10 as Modelled>::V, <A11 as Modelled>::V, <A12 as Modelled>::V, <A13 as Modelled>::V, <A14 as Modelled>::V, <A15 as Modelled>::V, <A16 as Modelled>::V, <A17 as Modelled>::V, )) {
        A0::round_trip(v.0);
        A1::round_trip(v.1);
        A2::round_trip(v.2);
        A3::round_trip(v.3);
        A4::round_trip(v.4);
        A5::round_trip(v.5);
        A6::round_trip(v.6);
        A7::round_trip(v.7);
        A8::round_trip(v.8);
        A9::round_trip(v.9);
        A10::round_trip(v.10);
        A11::round_trip(v.11);
        A12::round_trip(v.12);
        A13::round_trip(v.13);
        A14::round_trip(v.14);
        A15::round_trip(v.15);
        A16::round_trip(v.16);
        A17::round_trip(v.17);
        lemma_tagged_shape("::tuple"@, seq![A0::encode(v.0), A1::encode(v.1), A2::encode(v.2), A3::encode(v.3), A4::encode(v.4), A5::encode(v.5), A6::encode(v.6), A7::encode(v.7), A8::encode(v.8), A9::encode(v.9), A10::encode(v.10), A11::encode(v.11), A12::encode(v.12), A13::encode(v.13), A14::encode(v.14), A15::encode(v.15), A16::encode(v.16), A17::encode(v.17)]);
    }
}

impl<A0: ToRustExpr, A1: ToRustExpr, A2: ToRustExpr, A3: ToRustExpr, A4: ToRustExpr, A5: ToRustExpr, A6: ToRustExpr, A7: ToRustExpr, A8: ToRustExpr, A9: ToRustExpr, A10: ToRustExpr, A11: ToRustExpr, A12: ToRustExpr, A13: ToRustExpr, A14: ToRustExpr, A15: ToRustExpr, A16: ToRustExpr, A17: ToRustExpr> ToRustExpr for (A0, A1, A2, A3, A4, A5, A6, A7, A8, A9, A10, A11, A12, A13, A14, A15, A16, A17, ) {
    open spec fn rust_expr(v: (<A0 as Modelled>::V, <A1 as Modelled>::V, <A2 as Modelled>::V, <A3 as Modelled>::V, <A4 as Modelled>::V, <A5 as Modelled>::V, <A6 as Modelled>::V, <A7 as Modelled>::V, <A8 as Modelled>::V, <A9 as Modelled>::V, <A10 as Modelled>::V, <A11 as Modelled>::V, <A12 as Modelled>::V, <A13 as Modelled>::V, <A14 as Modelled>::V, <A15 as Modelled>::V, <A16 as Modelled>::V, <A17 as Modelled>::V, )) -> Seq<char> {
        "("@ + A0::rust_expr(v.0) + ","@ + A1::rust_expr(v.1) + ","@ + A2::rust_expr(v.2) + ","@ + A3::rust_expr(v.3) + ","@ + A4::rust_expr(v.4) + ","@ + A5::rust_expr(v.5) + ","@ + A6::rust_expr(v.6) + ","@ + A7::rust_expr(v.7) + ","@ + A8::rust_expr(v.8) + ","@ + A9::rust_expr(v.9) + ","@ + A10::rust_expr(v.10) + ","@ + A11::rust_expr(v.11) + ","@ + A12::rust_expr(v.12) + ","@ + A13::rust_expr(v.13) + ","@ + A14::rust_expr(v.14) + ","@ + A15::rust_expr(v.15) + ","@ + A16::rust_expr(v.16) + ","@ + A17::rust_expr(v.17) + ")"@
    }

    open spec fn rust_type() -> Seq<char> {
        "("@ + A0::rust_type() + ","@ + A1::rust_type() + ","@ + A2::rust_type() + ","@ + A3::rust_type() + ","@ + A4::rust_type() + ","@ + A5::rust_type() + ","@ + A6::rust_type() + ","@ + A7::rust_type() + ","@ + A8::rust_type() + ","@ + A9::rust_type() + ","@ + A10::rust_type() + ","@ + A11::rust_type() + ","@ + A12::rust_type() + ","@ + A13::rust_type() + ","@ + A14::rust_type() + ","@ + A15::rust_type() + ","@ + A16::rust_type() + ","@ + A17::rust_type() + ")"@
    }

    fn to_rust_expr(&self) -> (r: String) {
        let mut r = String::from_str("(");
        r.append(self.0.to_rust_expr().as_str());
        r.append(",");
        r.append(self.1.to_rust_expr().as_str());
        r.append(",");
        r.append(self.2.to_rust_expr().as_str());
        r.append(",");
        r.append(self.3.to_rust_expr().as_str());
        r.append(",");
        r.append(self.4.to_rust_expr().as_str());
        r.append(",");
        r.append(self.5.to_rust_expr().as_str());
        r.append(",");
        r.append(self.6.to_rust_expr().as_str());
        r.append(",");
        r.append(self.7.to_rust_expr().as_str());
        r.append(",");
        r.append(self.8.to_rust_expr().as_str());
        r.append(",");
        r.append(self.9.to_rust_expr().as_str());
        r.append(",");
        r.append(self.10.to_rust_expr().as_str());
        r.append(",");
        r.append(self.11.to_rust_expr().as_str());
        r.append(",");
        r.append(self.12.to_rust_expr().as_str());
        r.append(",");
        r.append(self.13.to_rust_expr().as_str());
        r.append(",");
        r.append(self.14.to_rust_expr().as_str());
        r.append(",");
        r.append(self.15.to_rust_expr().as_str());
        r.append(",");
        r.append(self.16.to_rust_expr().as_str());
        r.append(",");
        r.append(self.17.to_rust_expr().as_str());
        r.append(")");
        r
    }

    fn to_rust_type() -> (r: String) {
        let mut r = String::from_str("(");
        r.append(A0::to_rust_type().as_str());
        r.append(",");
        r.append(A1::to_rust_type().as_str());
        r.append(",");
        r.append(A2::to_rust_type().as_str());
        r.append(",");
        r.append(A3::to_rust_type().as_str());
        r.append(",");
        r.append(A4::to_rust_type().as_str());
        r.append(",");
        r.append(A5::to_rust_type().as_str());
        r.append(",");
        r.append(A6::to_rust_type().as_str());
        r.append(",");
        r.append(A7::to_rust_type().as_str());
        r.append(",");
        r.append(A8::to_rust_type().as_str());
        r.append(",");
        r.append(A9::to_rust_type().as_str());
        r.append(",");
        r.append(A10::to_rust_type().as_str());
        r.append(",");
        r.append(A11::to_rust_type().as_str());
        r.append(",");
        r.append(A12::to_rust_type().as_str());
        r.append(",");
        r.append(A13::to_rust_type().as_str());
        r.append(",");
        r.append(A14::to_rust_type().as_str());
        r.append(",");
        r.append(A15::to_rust_type().as_str());
        r.append(",");
        r.append(A16::to_rust_type().as_str());
        r.append(",");
        r.append(A17::to_rust_type().as_str());
        r.append(")");
        r
    }
}

impl<A0: Modelled, A1: Modelled, A2: Modelled, A3: Modelled, A4: Modelled, A5: Modelled, A6: Modelled, A7: Modelled, A8: Modelled, A9: Modelled, A10: Modelled, A11: Modelled, A12: Modelled, A13: Modelled, A14: Modelled, A15: Modelled, A16: Modelled, A17: Modelled, A18: Modelled> Modelled for (A0, A1, A2, A3, A4, A5, A6, A7, A8, A9, A10, A11, A12, A13, A14, A15, A16, A17, A18, ) {
    type V = (<A0 as Modelled>::V, <A1 as Modelled>::V, <A2 as Modelled>::V, <A3 as Modelled>::V, <A4 as Modelled>::V, <A5 as Modelled>::V, <A6 as Modelled>::V, <A7 as Modelled>::V, <A8 as Modelled>::V, <A9 as Modelled>::V, <A10 as Modelled>::V, <A11 as Modelled>::V, <A12 as Modelled>::V, <A13 as Modelled>::V, <A14 as Modelled>::V, <A15 as Modelled>::V, <A16 as Modelled>::V, <A17 as Modelled>::V, <A18 as Modelled>::V, );

    open spec fn model(&self) -> (<A0 as Modelled>::V, <A1 as Modelled>::V, <A2 as Modelled>::V, <A3 as Modelled>::V, <A4 as Modelled>::V, <A5 as Modelled>::V, <A6 as Modelled>::V, <A7 as Modelled>::V, <A8 as Modelled>::V, <A9 as Modelled>::V, <A10 as Modelled>::V, <A11 as Modelled>::V, <A12 as Modelled>::V, <A13 as Modelled>::V, <A14 as Modelled>::V, <A15 as Modelled>::V, <A16 as Modelled>::V, <A17 as Modelled>::V, <A18 as Modelled>::V, ) {
        (self.0.model(), self.1.model(), self.2.model(), self.3.model(), self.4.model(), self.5.model(), self.6.model(), self.7.model(), self.8.model(), self.9.model(), self.10.model(), self.11.model(), self.12.model(), self.13.model(), self.14.model(), self.15.model(), self.16.model(), self.17.model(), self.18.model(), )
    }
}

impl<A0: ToValueRepr, A1: ToValueRepr, A2: ToValueRepr, A3: ToValueRepr, A4: ToValueRepr, A5: ToValueRepr, A6: ToValueRepr, A7: ToValueRepr, A8: ToValueRepr, A9: ToValueRepr, A10: ToValueRepr, A11: ToValueRepr, A12: ToValueRepr, A13: ToValueRepr, A14: ToValueRepr, A15: ToValueRepr, A16: ToValueRepr, A17: ToValueRepr, A18: ToValueRepr> ToValueRepr for (A0, A1, A2, A3, A4, A5, A6, A7, A8, A9, A10, A11, A12, A13, A14, A15, A16, A17, A18, ) {
    open spec fn encode(v: (<A0 as Modelled>::V, <A1 as Modelled>::V, <A2 as Modelled>::V, <A3 as Modelled>::V, <A4 as Modelled>::V, <A5 as Modelled>::V, <A6 as Modelled>::V, <A7 as Modelled>::V, <A8 as Modelled>::V, <A9 as Modelled>::V, <A10 as Modelled>::V, <A11 as Modelled>::V, <A12 as Modelled>::V, <A13 as Modelled>::V, <A14 as Modelled>::V, <A15 as Modelled>::V, <A16 as Modelled>::V, <A17 as Modelled>::V, <A18 as Modelled>::V, )) -> ValueV {
        tagged("::tuple"@, seq![A0::encode(v.0), A1::encode(v.1), A2::encode(v.2), A3::encode(v.3), A4::encode(v.4), A5::encode(v.5), A6::encode(v.6), A7::encode(v.7), A8::encode(v.8), A9::encode(v.9), A10::encode(v.10), A11::encode(v.11), A12::encode(v.12), A13::encode(v.13), A14::encode(v.14), A15::encode(v.15), A16::encode(v.16), A17::encode(v.17), A18::encode(v.18)])
    }

    fn to_value_repr(&self) -> (r: Value) {
        let mut parts: Vec<Value> = Vec::new();
        parts.push(self.0.to_value_repr());
        parts.push(self.1.to_value_repr());
        parts.push(self.2.to_value_repr());
        parts.push(self.3.to_value_repr());
        parts.push(self.4.to_value_repr());
        parts.push(self.5.to_value_repr());
        parts.push(self.6.to_value_repr());
        parts.push(self.7.to_value_repr());
        parts.push(self.8.to_value_repr());
        parts.push(self.9.to_value_repr());
        parts.push(self.10.to_value_repr());
        parts.push(self.11.to_value_repr());
        parts.push(self.12.to_value_repr());
        parts.push(self.13.to_value_repr());
        parts.push(self.14.to_value_repr());
        parts.push(self.15.to_value_repr());
        parts.push(self.16.to_value_repr());
        parts.push(self.17.to_value_repr());
        parts.push(self.18.to_value_repr());
        assert(values_of(parts@) =~= seq![A0::encode(self.0.model()), A1::encode(self.1.model()), A2::encode(self.2.model()), A3::encode(self.3.model()), A4::encode(self.4.model()), A5::encode(self.5.model()), A6::encode(self.6.model()), A7::encode(self.7.model()), A8::encode(self.8.model()), A9::encode(self.9.model()), A10::encode(self.10.model()), A11::encode(self.11.model()), A12::encode(self.12.model()), A13::encode(self.13.model()), A14::encode(self.14.model()), A15::encode(self.15.model()), A16::encode(self.16.model()), A17::encode(self.17.model()), A18::encode(self.18.model())]);
        Value::mk_tagged("::tuple", parts.as_slice())
    }
}

impl<A0: FromValueRepr, A1: FromValueRepr, A2: FromValueRepr, A3: FromValueRepr, A4: FromValueRepr, A5: FromValueRepr, A6: FromValueRepr, A7: FromValueRepr, A8: FromValueRepr, A9: FromValueRepr, A10: FromValueRepr, A11: FromValueRepr, A12: FromValueRepr, A13: FromValueRepr, A14: FromValueRepr, A15: FromValueRepr, A16: FromValueRepr, A17: FromValueRepr, A18: FromValueRepr> FromValueRepr for (A0, A1, A2, A3, A4, A5, A6, A7, A8, A9, A10, A11, A12, A13, A14, A15, A16, A17, A18, ) {
    open spec fn decode(repr: ValueV) -> Option<(<A0 as Modelled>::V, <A1 as Modelled>::V, <A2 as Modelled>::V, <A3 as Modelled>::V, <A4 as Modelled>::V, <A5 as Modelled>::V, <A6 as Modelled>::V, <A7 as Modelled>::V, <A8 as Modelled>::V, <A9 as Modelled>::V, <A10 as Modelled>::V, <A11 as Modelled>::V, <A12 as Modelled>::V, <A13 as Modelled>::V, <A14 as Modelled>::V, <A15 as Modelled>::V, <A16 as Modelled>::V, <A17 as Modelled>::V, <A18 as Modelled>::V, )> {
        match parts_n(repr, "::tuple"@, 19) {
            Some(data) => match (A0::decode(data[0]), A1::decode(data[1]), A2::decode(data[2]), A3::decode(data[3]), A4::decode(data[4]), A5::decode(data[5]), A6::decode(data[6]), A7::decode(data[7]), A8::decode(data[8]), A9::decode(data[9]), A10::decode(data[10]), A11::decode(data[11]), A12::decode(data[12]), A13::decode(data[13]), A14::decode(data[14]), A15::decode(data[15]), A16::decode(data[16]), A17::decode(data[17]), A18::decode(data[18]), ) {
                (Some(x0), Some(x1), Some(x2), Some(x3), Some(x4), Some(x5), Some(x6), Some(x7), Some(x8), Some(x9), Some(x10), Some(x11), Some(x12), Some(x13), Some(x14), Some(x15), Some(x16), Some(x17), Some(x18), ) => Some((x0, x1, x2, x3, x4, x5, x6, x7, x8, x9, x10, x11, x12, x13, x14, x15, x16, x17, x18, )),
                _ => None,
            },
            None => None,
        }
    }

    fn from_value_repr(repr: &Value) -> (r: Result<Self, ExpectError>) {
        match repr.expect_tagged_n::<19>("::tuple") {
            Ok(data) => {
                assert(values_of(data@)[0] == data@[0]@);
                let x0 = match A0::from_value_repr(&data[0]) {
                    Ok(x) => x,
                    Err(e) => {
                        return Err(e);
                    },
                };
                assert(values_of(data@)[1] == data@[1]@);
                let x1 = match A1::from_value_repr(&data[1]) {
                    Ok(x) => x,
                    Err(e) => {
                        return Err(e);
                    },
                };
                assert(values_of(data@)[2] == data@[2]@);
                let x2 = match A2::from_value_repr(&data[2]) {
                    Ok(x) => x,
                    Err(e) => {
                        return Err(e);
                    },
                };
                assert(values_of(data@)[3] == data@[3]@);
                let x3 = match A3::from_value_repr(&data[3]) {
                    Ok(x) => x,
                    Err(e) => {
                        return Err(e);
                    },
                };
                assert(values_of(data@)[4] == data@[4]@);
                let x4 = match A4::from_value_repr(&data[4]) {
                    Ok(x) => x,
                    Err(e) => {
                        return Err(e);
                    },
                };
                assert(values_of(data@)[5] == data@[5]@);
                let x5 = match A5::from_value_repr(&data[5]) {
                    Ok(x) => x,
                    Err(e) => {
                        return Err(e);
                    },
                };
                assert(values_of(data@)[6] == data@[6]@);
                let x6 = match A6::from_value_repr(&data[6]) {
                    Ok(x) => x,
                    Err(e) => {
                        return Err(e);
                    },
                };
                assert(values_of(data@)[7] == data@[7]@);
                let x7 = match A7::from_value_repr(&data[7]) {
                    Ok(x) => x,
                    Err(e) => {
                        return Err(e);
                    },
                };
                assert(values_of(data@)[8] == data@[8]@);
                let x8 = match A8::from_value_repr(&data[8]) {
                    Ok(x) => x,
                    Err(e) => {
                        return Err(e);
                    },
                };
                assert(values_of(data@)[9] == data@[9]@);
                let x9 = match A9::from_value_repr(&data[9]) {
                    Ok(x) => x,
                    Err(e) => {
                        return Err(e);
                    },
                };
                assert(values_of(data@)[10] == data@[10]@);
                let x10 = match A10::from_value_repr(&data[10]) {
                    Ok(x) => x,
                    Err(e) => {
                        return Err(e);
                    },
                };
                assert(values_of(data@)[11] == data@[11]@);
                let x11 = match A11::from_value_repr(&data[11]) {
                    Ok(x) => x,
                    Err(e) => {
                        return Err(e);
                    },
                };
                assert(values_of(data@)[12] == data@[12]@);
                let x12 = match A12::from_value_repr(&data[12]) {
                    Ok(x) => x,
                    Err(e) => {
                        return Err(e);
                    },
                };
                assert(values_of(data@)[13] == data@[13]@);
                let x13 = match A13::from_value_repr(&data[13]) {
                    Ok(x) => x,
                    Err(e) => {
                        return Err(e);
                    },
                };
                assert(values_of(data@)[14] == data@[14]@);
                let x14 = match A14::from_value_repr(&data[14]) {
                    Ok(x) => x,
                    Err(e) => {
                        return Err(e);
                    },
                };
                assert(values_of(data@)[15] == data@[15]@);
                let x15 = match A15::from_value_repr(&data[15]) {
                    Ok(x) => x,
                    Err(e) => {
                        return Err(e);
                    },
                };
                assert(values_of(data@)[16] == data@[16]@);
                let x16 = match A16::from_value_repr(&data[16]) {
                    Ok(x) => x,
                    Err(e) => {
                        return Err(e);
                    },
                };
                assert(values_of(data@)[17] == data@[17]@);
                let x17 = match A17::from_value_repr(&data[17]) {
                    Ok(x) => x,
                    Err(e) => {
                        return Err(e);
                    },
                };
                assert(values_of(data@)[18] == data@[18]@);
                let x18 = match A18::from_value_repr(&data[18]) {
                    Ok(x) => x,
                    Err(e) => {
                        return Err(e);
                    },
                };
                Ok((x0, x1, x2, x3, x4, x5, x6, x7, x8, x9, x10, x11, x12, x13, x14, x15, x16, x17, x18, ))
            },
            Err(e) => Err(e),
        }
    }
}

impl<A0: Marshalled, A1: Marshalled, A2: Marshalled, A3: Marshalled, A4: Marshalled, A5: Marshalled, A6: Marshalled, A7: Marshalled, A8: Marshalled, A9: Marshalled, A10: Marshalled, A11: Marshalled, A12: Marshalled, A13: Marshalled, A14: Marshalled, A15: Marshalled, A16: Marshalled, A17: Marshalled, A18: Marshalled> Marshalled for (A0, A1, A2, A3, A4, A5, A6, A7, A8, A9, A10, A11, A12, A13, A14, A15, A16, A17, A18, ) {
    proof fn round_trip(v: (<A0 as Modelled>::V, <A1 as Modelled>::V, <A2 as Modelled>::V, <A3 as Modelled>::V, <A4 as Modelled>::V, <A5 as Modelled>::V, <A6 as Modelled>::V, <A7 as Modelled>::V, <A8 as Modelled>::V, <A9 as Modelled>::V, <A10 as Modelled>::V, <A11 as Modelled>::V, <A12 as Modelled>::V, <A13 as Modelled>::V, <A14 as Modelled>::V, <A15 as Modelled>::V, <A16 as Modelled>::V, <A17 as Modelled>::V, <A18 as Modelled>::V, )) {
        A0::round_trip(v.0);
        A1::round_trip(v.1);
        A2::round_trip(v.2);
        A3::round_trip(v.3);
        A4::round_trip(v.4);
        A5::round_trip(v.5);
        A6::round_trip(v.6);
        A7::round_trip(v.7);
        A8::round_trip(v.8);
        A9::round_trip(v.9);
        A10::round_trip(v.10);
        A11::round_trip(v.11);
        A12::round_trip(v.12);
        A13::round_trip(v.13);
        A14::round_trip(v.14);
        A15::round_trip(v.15);
        A16::round_trip(v.16);
        A17::round_trip(v.17);
        A18::round_trip(v.18);
        lemma_tagged_shape("::tuple"@, seq![A0::encode(v.0), A1::encode(v.1), A2::encode(v.2), A3::encode(v.3), A4::encode(v.4), A5::encode(v.5), A6::encode(v.6), A7::encode(v.7), A8::encode(v.8), A9::encode(v.9), A10::encode(v.10), A11::encode(v.11), A12::encode(v.12), A13::encode(v.13), A14::encode(v.14), A15::encode(v.15), A16::encode(v.16), A17::encode(v.17), A18::encode(v.18)]);
    }
}

impl<A0: ToRustExpr, A1: ToRustExpr, A2: ToRustExpr, A3: ToRustExpr, A4: ToRustExpr, A5: ToRustExpr, A6: ToRustExpr, A7: ToRustExpr, A8: ToRustExpr, A9: ToRustExpr, A10: ToRustExpr, A11: ToRustExpr, A12: ToRustExpr, A13: ToRustExpr, A14: ToRustExpr, A15: ToRustExpr, A16: ToRustExpr, A17: ToRustExpr, A18: ToRustExpr> ToRustExpr for (A0, A1, A2, A3, A4, A5, A6, A7, A8, A9, A10, A11, A12, A13, A14, A15, A16, A17, A18, ) {
    open spec fn rust_expr(v: (<A0 as Modelled>::V, <A1 as Modelled>::V, <A2 as Modelled>::V, <A3 as Modelled>::V, <A4 as Modelled>::V, <A5 as Modelled>::V, <A6 as Modelled>::V, <A7 as Modelled>::V, <A8 as Modelled>::V, <A9 as Modelled>::V, <A10 as Modelled>::V, <A11 as Modelled>::V, <A12 as Modelled>::V, <A13 as Modelled>::V, <A14 as Modelled>::V, <A15 as Modelled>::V, <A16 as Modelled>::V, <A17 as Modelled>::V, <A18 as Modelled>::V, )) -> Seq<char> {
        "("@ + A0::rust_expr(v.0) + ","@ + A1::rust_expr(v.1) + ","@ + A2::rust_expr(v.2) + ","@ + A3::rust_expr(v.3) + ","@ + A4::rust_expr(v.4) + ","@ + A5::rust_expr(v.5) + ","@ + A6::rust_expr(v.6) + ","@ + A7::rust_expr(v.7) + ","@ + A8::rust_expr(v.8) + ","@ + A9::rust_expr(v.9) + ","@ + A10::rust_expr(v.10) + ","@ + A11::rust_expr(v.11) + ","@ + A12::rust_expr(v.12) + ","@ + A13::rust_expr(v.13) + ","@ + A14::rust_expr(v.14) + ","@ + A15::rust_expr(v.15) + ","@ + A16::rust_expr(v.16) + ","@ + A17::rust_expr(v.17) + ","@ + A18::rust_expr(v.18) + ")"@
    }

    open spec fn rust_type() -> Seq<char> {
        "("@ + A0::rust_type() + ","@ + A1::rust_type() + ","@ + A2::rust_type() + ","@ + A3::rust_type() + ","@ + A4::rust_type() + ","@ + A5::rust_type() + ","@ + A6::rust_type() + ","@ + A7::rust_type() + ","@ + A8::rust_type() + ","@ + A9::rust_type() + ","@ + A10::rust_type() + ","@ + A11::rust_type() + ","@ + A12::rust_type() + ","@ + A13::rust_type() + ","@ + A14::rust_type() + ","@ + A15::rust_type() + ","@ + A16::rust_type() + ","@ + A17::rust_type() + ","@ + A18::rust_type() + ")"@
    }

    fn to_rust_expr(&self) -> (r: String) {
        let mut r = String::from_str("(");
        r.append(self.0.to_rust_expr().as_str());
        r.append(",");
        r.append(self.1.to_rust_expr().as_str());
        r.append(",");
        r.append(self.2.to_rust_expr().as_str());
        r.append(",");
        r.append(self.3.to_rust_expr().as_str());
        r.append(",");
        r.append(self.4.to_rust_expr().as_str());
        r.append(",");
        r.append(self.5.to_rust_expr().as_str());
        r.append(",");
        r.append(self.6.to_rust_expr().as_str());
        r.append(",");
        r.append(self.7.to_rust_expr().as_str());
        r.append(",");
        r.append(self.8.to_rust_expr().as_str());
        r.append(",");
        r.append(self.9.to_rust_expr().as_str());
        r.append(",");
        r.append(self.10.to_rust_expr().as_str());
        r.append(",");
        r.append(self.11.to_rust_expr().as_str());
        r.append(",");
        r.append(self.12.to_rust_expr().as_str());
        r.append(",");
        r.append(self.13.to_rust_expr().as_str());
        r.append(",");
        r.append(self.14.to_rust_expr().as_str());
        r.append(",");
        r.append(self.15.to_rust_expr().as_str());
        r.append(",");
        r.append(self.16.to_rust_expr().as_str());
        r.append(",");
        r.append(self.17.to_rust_expr().as_str());
        r.append(",");
        r.append(self.18.to_rust_expr().as_str());
        r.append(")");
        r
    }

    fn to_rust_type() -> (r: String) {
        let mut r = String::from_str("(");
        r.append(A0::to_rust_type().as_str());
        r.append(",");
        r.append(A1::to_rust_type().as_str());
        r.append(",");
        r.append(A2::to_rust_type().as_str());
        r.append(",");
        r.append(A3::to_rust_type().as_str());
        r.append(",");
        r.append(A4::to_rust_type().as_str());
        r.append(",");
        r.append(A5::to_rust_type().as_str());
        r.append(",");
        r.append(A6::to_rust_type().as_str());
        r.append(",");
        r.append(A7::to_rust_type().as_str());
        r.append(",");
        r.append(A8::to_rust_type().as_str());
        r.append(",");
        r.append(A9::to_rust_type().as_str());
        r.append(",");
        r.append(A10::to_rust_type().as_str());
        r.append(",");
        r.append(A11::to_rust_type().as_str());
        r.append(",");
        r.append(A12::to_rust_type().as_str());
        r.append(",");
        r.append(A13::to_rust_type().as_str());
        r.append(",");
        r.append(A14::to_rust_type().as_str());
        r.append(",");
        r.append(A15::to_rust_type().as_str());
        r.append(",");
        r.append(A16::to_rust_type().as_str());
        r.append(",");
        r.append(A17::to_rust_type().as_str());
        r.append(",");
        r.append(A18::to_rust_type().as_str());
        r.append(")");
        r
    }
}

impl<A0: Modelled, A1: Modelled, A2: Modelled, A3: Modelled, A4: Modelled, A5: Modelled, A6: Modelled, A7: Modelled, A8: Modelled, A9: Modelled, A10: Modelled, A11: Modelled, A12: Modelled, A13: Modelled, A14: Modelled, A15: Modelled, A16: Modelled, A17: Modelled, A18: Modelled, A19: Modelled> Modelled for (A0, A1, A2, A3, A4, A5, A6, A7, A8, A9, A10, A11, A12, A13, A14, A15, A16, A17, A18, A19, ) {
    type V = (<A0 as Modelled>::V, <A1 as Modelled>::V, <A2 as Modelled>::V, <A3 as Modelled>::V, <A4 as Modelled>::V, <A5 as Modelled>::V, <A6 as Modelled>::V, <A7 as Modelled>::V, <A8 as Modelled>::V, <A9 as Modelled>::V, <A10 as Modelled>::V, <A11 as Modelled>::V, <A12 as Modelled>::V, <A13 as Modelled>::V, <A14 as Modelled>::V, <A15 as Modelled>::V, <A16 as Modelled>::V, <A17 as Modelled>::V, <A18 as Modelled>::V, <A19 as Modelled>::V, );

    open spec fn model(&self) -> (<A0 as Modelled>::V, <A1 as Modelled>::V, <A2 as Modelled>::V, <A3 as Modelled>::V, <A4 as Modelled>::V, <A5 as Modelled>::V, <A6 as Modelled>::V, <A7 as Modelled>::V, <A8 as Modelled>::V, <A9 as Modelled>::V, <A10 as Modelled>::V, <A11 as Modelled>::V, <A12 as Modelled>::V, <A13 as Modelled>::V, <A14 as Modelled>::V, <A15 as Modelled>::V, <A16 as Modelled>::V, <A17 as Modelled>::V, <A18 as Modelled>::V, <A19 as Modelled>::V, ) {
        (self.0.model(), self.1.model(), self.2.model(), self.3.model(), self.4.model(), self.5.model(), self.6.model(), self.7.model(), self.8.model(), self.9.model(), self.10.model(), self.11.model(), self.12.model(), self.13.model(), self.14.model(), self.15.model(), self.16.model(), self.17.model(), self.18.model(), self.19.model(), )
    }
}

impl<A0: ToValueRepr, A1: ToValueRepr, A2: ToValueRepr, A3: ToValueRepr, A4: ToValueRepr, A5: ToValueRepr, A6: ToValueRepr, A7: ToValueRepr, A8: ToValueRepr, A9: ToValueRepr, A10: ToValueRepr, A11: ToValueRepr, A12: ToValueRepr, A13: ToValueRepr, A14: ToValueRepr, A15: ToValueRepr, A16: ToValueRepr, A17: ToValueRepr, A18: ToValueRepr, A19: ToValueRepr> ToValueRepr for (A0, A1, A2, A3, A4, A5, A6, A7, A8, A9, A10, A11, A12, A13, A14, A15, A16, A17, A18, A19, ) {
    open spec fn encode(v: (<A0 as Modelled>::V, <A1 as Modelled>::V, <A2 as Modelled>::V, <A3 as Modelled>::V, <A4 as Modelled>::V, <A5 as Modelled>::V, <A6 as Modelled>::V, <A7 as Modelled>::V, <A8 as Modelled>::V, <A9 as Modelled>::V, <A10 as Modelled>::V, <A11 as Modelled>::V, <A12 as Modelled>::V, <A13 as Modelled>::V, <A14 as Modelled>::V, <A15 as Modelled>::V, <A16 as Modelled>::V, <A17 as Modelled>::V, <A18 as Modelled>::V, <A19 as Modelled>::V, )) -> ValueV {
        tagged("::tuple"@, seq![A0::encode(v.0), A1::encode(v.1), A2::encode(v.2), A3::encode(v.3), A4::encode(v.4), A5::encode(v.5), A6::encode(v.6), A7::encode(v.7), A8::encode(v.8), A9::encode(v.9), A10::encode(v.10), A11::encode(v.11), A12::encode(v.12), A13::encode(v.13), A14::encode(v.14), A15::encode(v.15), A16::encode(v.16), A17::encode(v.17), A18::encode(v.18), A19::encode(v.19)])
    }

    fn to_value_repr(&self) -> (r: Value) {
        let mut parts: Vec<Value> = Vec::new();
        parts.push(self.0.to_value_repr());
        parts.push(self.1.to_value_repr());
        parts.push(self.2.to_value_repr());
        parts.push(self.3.to_value_repr());
        parts.push(self.4.to_value_repr());
        parts.push(self.5.to_value_repr());
        parts.push(self.6.to_value_repr());
        parts.push(self.7.to_value_repr());
        parts.push(self.8.to_value_repr());
        parts.push(self.9.to_value_repr());
        parts.push(self.10.to_value_repr());
        parts.push(self.11.to_value_repr());
        parts.push(self.12.to_value_repr());
        parts.push(self.13.to_value_repr());
        parts.push(self.14.to_value_repr());
        parts.push(self.15.to_value_repr());
        parts.push(self.16.to_value_repr());
        parts.push(self.17.to_value_repr());
        parts.push(self.18.to_value_repr());
        parts.push(self.19.to_value_repr());
        assert(values_of(parts@) =~= seq![A0::encode(self.0.model()), A1::encode(self.1.model()), A2::encode(self.2.model()), A3::encode(self.3.model()), A4::encode(self.4.model()), A5::encode(self.5.model()), A6::encode(self.6.model()), A7::encode(self.7.model()), A8::encode(self.8.model()), A9::encode(self.9.model()), A10::encode(self.10.model()), A11::encode(self.11.model()), A12::encode(self.12.model()), A13::encode(self.13.model()), A14::encode(self.14.model()), A15::encode(self.15.model()), A16::encode(self.16.model()), A17::encode(self.17.model()), A18::encode(self.18.model()), A19::encode(self.19.model())]);
        Value::mk_tagged("::tuple", parts.as_slice())
    }
}

impl<A0: FromValueRepr, A1: FromValueRepr, A2: FromValueRepr, A3: FromValueRepr, A4: FromValueRepr, A5: FromValueRepr, A6: FromValueRepr, A7: FromValueRepr, A8: FromValueRepr, A9: FromValueRepr, A10: FromValueRepr, A11: FromValueRepr, A12: FromValueRepr, A13: FromValueRepr, A14: FromValueRepr, A15: FromValueRepr, A16: FromValueRepr, A17: FromValueRepr, A18: FromValueRepr, A19: FromValueRepr> FromValueRepr for (A0, A1, A2, A3, A4, A5, A6, A7, A8, A9, A10, A11, A12, A13, A14, A15, A16, A17, A18, A19, ) {
    open spec fn decode(repr: ValueV) -> Option<(<A0 as Modelled>::V, <A1 as Modelled>::V, <A2 as Modelled>::V, <A3 as Modelled>::V, <A4 as Modelled>::V, <A5 as Modelled>::V, <A6 as Modelled>::V, <A7 as Modelled>::V, <A8 as Modelled>::V, <A9 as Modelled>::V, <A10 as Modelled>::V, <A11 as Modelled>::V, <A12 as Modelled>::V, <A13 as Modelled>::V, <A14 as Modelled>::V, <A15 as Modelled>::V, <A16 as Modelled>::V, <A17 as Modelled>::V, <A18 as Modelled>::V, <A19 as Modelled>::V, )> {
        match parts_n(repr, "::tuple"@, 20) {
            Some(data) => match (A0::decode(data[0]), A1::decode(data[1]), A2::decode(data[2]), A3::decode(data[3]), A4::decode(data[4]), A5::decode(data[5]), A6::decode(data[6]), A7::decode(data[7]), A8::decode(data[8]), A9::decode(data[9]), A10::decode(data[10]), A11::decode(data[11]), A12::decode(data[12]), A13::decode(data[13]), A14::decode(data[14]), A15::decode(data[15]), A16::decode(data[16]), A17::decode(data[17]), A18::decode(data[18]), A19::decode(data[19]), ) {
                (Some(x0), Some(x1), Some(x2), Some(x3), Some(x4), Some(x5), Some(x6), Some(x7), Some(x8), Some(x9), Some(x10), Some(x11), Some(x12), Some(x13), Some(x14), Some(x15), Some(x16), Some(x17), Some(x18), Some(x19), ) => Some((x0, x1, x2, x3, x4, x5, x6, x7, x8, x9, x10, x11, x12, x13, x14, x15, x16, x17, x18, x19, )),
                _ => None,
            },
            None => None,
        }
    }

    fn from_value_repr(repr: &Value) -> (r: Result<Self, ExpectError>) {
        match repr.expect_tagged_n::<20>("::tuple") {
            Ok(data) => {
                assert(values_of(data@)[0] == data@[0]@);
                let x0 = match A0::from_value_repr(&data[0]) {
                    Ok(x) => x,
                    Err(e) => {
                        return Err(e);
                    },
                };
                assert(values_of(data@)[1] == data@[1]@);
                let x1 = match A1::from_value_repr(&data[1]) {
                    Ok(x) => x,
                    Err(e) => {
                        return Err(e);
                    },
                };
                assert(values_of(data@)[2] == data@[2]@);
                let x2 = match A2::from_value_repr(&data[2]) {
                    Ok(x) => x,
                    Err(e) => {
                        return Err(e);
                    },
                };
                assert(values_of(data@)[3] == data@[3]@);
                let x3 = match A3::from_value_repr(&data[3]) {
                    Ok(x) => x,
                    Err(e) => {
                        return Err(e);
                    },
                };
                assert(values_of(data@)[4] == data@[4]@);
                let x4 = match A4::from_value_repr(&data[4]) {
                    Ok(x) => x,
                    Err(e) => {
                        return Err(e);
                    },
                };
                assert(values_of(data@)[5] == data@[5]@);
                let x5 = match A5::from_value_repr(&data[5]) {
                    Ok(x) => x,
                    Err(e) => {
                        return Err(e);
                    },
                };
                assert(values_of(data@)[6] == data@[6]@);
                let x6 = match A6::from_value_repr(&data[6]) {
                    Ok(x) => x,
                    Err(e) => {
                        return Err(e);
                    },
                };
                assert(values_of(data@)[7] == data@[7]@);
                let x7 = match A7::from_value_repr(&data[7]) {
                    Ok(x) => x,
                    Err(e) => {
                        return Err(e);
                    },
                };
                assert(values_of(data@)[8] == data@[8]@);
                let x8 = match A8::from_value_repr(&data[8]) {
                    Ok(x) => x,
                    Err(e) => {
                        return Err(e);
                    },
                };
                assert(values_of(data@)[9] == data@[9]@);
                let x9 = match A9::from_value_repr(&data[9]) {
                    Ok(x) => x,
                    Err(e) => {
                        return Err(e);
                    },
                };
                assert(values_of(data@)[10] == data@[10]@);
                let x10 = match A10::from_value_repr(&data[10]) {
                    Ok(x) => x,
                    Err(e) => {
                        return Err(e);
                    },
                };
                assert(values_of(data@)[11] == data@[11]@);
                let x11 = match A11::from_value_repr(&data[11]) {
                    Ok(x) => x,
                    Err(e) => {
                        return Err(e);
                    },
                };
                assert(values_of(data@)[12] == data@[12]@);
                let x12 = match A12::from_value_repr(&data[12]) {
                    Ok(x) => x,
                    Err(e) => {
                        return Err(e);
                    },
                };
                assert(values_of(data@)[13] == data@[13]@);
                let x13 = match A13::from_value_repr(&data[13]) {
                    Ok(x) => x,
                    Err(e) => {
                        return Err(e);
                    },
                };
                assert(values_of(data@)[14] == data@[14]@);
                let x14 = match A14::from_value_repr(&data[14]) {
                    Ok(x) => x,
                    Err(e) => {
                        return Err(e);
                    },
                };
                assert(values_of(data@)[15] == data@[15]@);
                let x15 = match A15::from_value_repr(&data[15]) {
                    Ok(x) => x,
                    Err(e) => {
                        return Err(e);
                    },
                };
                assert(values_of(data@)[16] == data@[16]@);
                let x16 = match A16::from_value_repr(&data[16]) {
                    Ok(x) => x,
                    Err(e) => {
                        return Err(e);
                    },
                };
                assert(values_of(data@)[17] == data@[17]@);
                let x17 = match A17::from_value_repr(&data[17]) {
                    Ok(x) => x,
                    Err(e) => {
                        return Err(e);
                    },
                };
                assert(values_of(data@)[18] == data@[18]@);
                let x18 = match A18::from_value_repr(&data[18]) {
                    Ok(x) => x,
                    Err(e) => {
                        return Err(e);
                    },
                };
                assert(values_of(data@)[19] == data@[19]@);
                let x19 = match A19::from_value_repr(&data[19]) {
                    Ok(x) => x,
                    Err(e) => {
                        return Err(e);
                    },
                };
                Ok((x0, x1, x2, x3, x4, x5, x6, x7, x8, x9, x10, x11, x12, x13, x14, x15, x16, x17, x18, x19, ))
            },
            Err(e) => Err(e),
        }
    }
}

impl<A0: Marshalled, A1: Marshalled, A2: Marshalled, A3: Marshalled, A4: Marshalled, A5: Marshalled, A6: Marshalled, A7: Marshalled, A8: Marshalled, A9: Marshalled, A10: Marshalled, A11: Marshalled, A12: Marshalled, A13: Marshalled, A14: Marshalled, A15: Marshalled, A16: Marshalled, A17: Marshalled, A18: Marshalled, A19: Marshalled> Marshalled for (A0, A1, A2, A3, A4, A5, A6, A7, A8, A9, A10, A11, A12, A13, A14, A15, A16, A17, A18, A19, ) {
    proof fn round_trip(v: (<A0 as Modelled>::V, <A1 as Modelled>::V, <A2 as Modelled>::V, <A3 as Modelled>::V, <A4 as Modelled>::V, <A5 as Modelled>::V, <A6 as Modelled>::V, <A7 as Modelled>::V, <A8 as Modelled>::V, <A9 as Modelled>::V, <A10 as Modelled>::V, <A11 as Modelled>::V, <A12 as Modelled>::V, <A13 as Modelled>::V, <A14 as Modelled>::V, <A15 as Modelled>::V, <A16 as Modelled>::V, <A17 as Modelled>::V, <A18 as Modelled>::V, <A19 as Modelled>::V, )) {
        A0::round_trip(v.0);
        A1::round_trip(v.1);
        A2::round_trip(v.2);
        A3::round_trip(v.3);
        A4::round_trip(v.4);
        A5::round_trip(v.5);
        A6::round_trip(v.6);
        A7::round_trip(v.7);
        A8::round_trip(v.8);
        A9::round_trip(v.9);
        A10::round_trip(v.10);
        A11::round_trip(v.11);
        A12::round_trip(v.12);
        A13::round_trip(v.13);
        A14::round_trip(v.14);
        A15::round_trip(v.15);
        A16::round_trip(v.16);
        A17::round_trip(v.17);
        A18::round_trip(v.18);
        A19::round_trip(v.19);
        lemma_tagged_shape("::tuple"@, seq![A0::encode(v.0), A1::encode(v.1), A2::encode(v.2), A3::encode(v.3), A4::encode(v.4), A5::encode(v.5), A6::encode(v.6), A7::encode(v.7), A8::encode(v.8), A9::encode(v.9), A10::encode(v.10), A11::encode(v.11), A12::encode(v.12), A13::encode(v.13), A14::encode(v.14), A15::encode(v.15), A16::encode(v.16), A17::encode(v.17), A18::encode(v.18), A19::encode(v.19)]);
    }
}

impl<A0: ToRustExpr, A1: ToRustExpr, A2: ToRustExpr, A3: ToRustExpr, A4: ToRustExpr, A5: ToRustExpr, A6: ToRustExpr, A7: ToRustExpr, A8: ToRustExpr, A9: ToRustExpr, A10: ToRustExpr, A11: ToRustExpr, A12: ToRustExpr, A13: ToRustExpr, A14: ToRustExpr, A15: ToRustExpr, A16: ToRustExpr, A17: ToRustExpr, A18: ToRustExpr, A19: ToRustExpr> ToRustExpr for (A0, A1, A2, A3, A4, A5, A6, A7, A8, A9, A10, A11, A12, A13, A14, A15, A16, A17, A18, A19, ) {
    open spec fn rust_expr(v: (<A0 as Modelled>::V, <A1 as Modelled>::V, <A2 as Modelled>::V, <A3 as Modelled>::V, <A4 as Modelled>::V, <A5 as Modelled>::V, <A6 as Modelled>::V, <A7 as Modelled>::V, <A8 as Modelled>::V, <A9 as Modelled>::V, <A10 as Modelled>::V, <A11 as Modelled>::V, <A12 as Modelled>::V, <A13 as Modelled>::V, <A14 as Modelled>::V, <A15 as Modelled>::V, <A16 as Modelled>::V, <A17 as Modelled>::V, <A18 as Modelled>::V, <A19 as Modelled>::V, )) -> Seq<char> {
        "("@ + A0::rust_expr(v.0) + ","@ + A1::rust_expr(v.1) + ","@ + A2::rust_expr(v.2) + ","@ + A3::rust_expr(v.3) + ","@ + A4::rust_expr(v.4) + ","@ + A5::rust_expr(v.5) + ","@ + A6::rust_expr(v.6) + ","@ + A7::rust_expr(v.7) + ","@ + A8::rust_expr(v.8) + ","@ + A9::rust_expr(v.9) + ","@ + A10::rust_expr(v.10) + ","@ + A11::rust_expr(v.11) + ","@ + A12::rust_expr(v.12) + ","@ + A13::rust_expr(v.13) + ","@ + A14::rust_expr(v.14) + ","@ + A15::rust_expr(v.15) + ","@ + A16::rust_expr(v.16) + ","@ + A17::rust_expr(v.17) + ","@ + A18::rust_expr(v.18) + ","@ + A19::rust_expr(v.19) + ")"@
    }

    open spec fn rust_type() -> Seq<char> {
        "("@ + A0::rust_type() + ","@ + A1::rust_type() + ","@ + A2::rust_type() + ","@ + A3::rust_type() + ","@ + A4::rust_type() + ","@ + A5::rust_type() + ","@ + A6::rust_type() + ","@ + A7::rust_type() + ","@ + A8::rust_type() + ","@ + A9::rust_type() + ","@ + A10::rust_type() + ","@ + A11::rust_type() + ","@ + A12::rust_type() + ","@ + A13::rust_type() + ","@ + A14::rust_type() + ","@ + A15::rust_type() + ","@ + A16::rust_type() + ","@ + A17::rust_type() + ","@ + A18::rust_type() + ","@ + A19::rust_type() + ")"@
    }

    fn to_rust_expr(&self) -> (r: String) {
        let mut r = String::from_str("(");
        r.append(self.0.to_rust_expr().as_str());
        r.append(",");
        r.append(self.1.to_rust_expr().as_str());
        r.append(",");
        r.append(self.2.to_rust_expr().as_str());
        r.append(",");
        r.append(self.3.to_rust_expr().as_str());
        r.append(",");
        r.append(self.4.to_rust_expr().as_str());
        r.append(",");
        r.append(self.5.to_rust_expr().as_str());
        r.append(",");
        r.append(self.6.to_rust_expr().as_str());
        r.append(",");
        r.append(self.7.to_rust_expr().as_str());
        r.append(",");
        r.append(self.8.to_rust_expr().as_str());
        r.append(",");
        r.append(self.9.to_rust_expr().as_str());
        r.append(",");
        r.append(self.10.to_rust_expr().as_str());
        r.append(",");
        r.append(self.11.to_rust_expr().as_str());
        r.append(",");
        r.append(self.12.to_rust_expr().as_str());
        r.append(",");
        r.append(self.13.to_rust_expr().as_str());
        r.append(",");
        r.append(self.14.to_rust_expr().as_str());
        r.append(",");
        r.append(self.15.to_rust_expr().as_str());
        r.append(",");
        r.append(self.16.to_rust_expr().as_str());
        r.append(",");
        r.append(self.17.to_rust_expr().as_str());
        r.append(",");
        r.append(self.18.to_rust_expr().as_str());
        r.append(",");
        r.append(self.19.to_rust_expr().as_str());
        r.append(")");
        r
    }

    fn to_rust_type() -> (r: String) {
        let mut r = String::from_str("(");
        r.append(A0::to_rust_type().as_str());
        r.append(",");
        r.append(A1::to_rust_type().as_str());
        r.append(",");
        r.append(A2::to_rust_type().as_str());
        r.append(",");
        r.append(A3::to_rust_type().as_str());
        r.append(",");
        r.append(A4::to_rust_type().as_str());
        r.append(",");
        r.append(A5::to_rust_type().as_str());
        r.append(",");
        r.append(A6::to_rust_type().as_str());
        r.append(",");
        r.append(A7::to_rust_type().as_str());
        r.append(",");
        r.append(A8::to_rust_type().as_str());
        r.append(",");
        r.append(A9::to_rust_type().as_str());
        r.append(",");
        r.append(A10::to_rust_type().as_str());
        r.append(",");
        r.append(A11::to_rust_type().as_str());
        r.append(",");
        r.append(A12::to_rust_type().as_str());
        r.append(",");
        r.append(A13::to_rust_type().as_str());
        r.append(",");
        r.append(A14::to_rust_type().as_str());
        r.append(",");
        r.append(A15::to_rust_type().as_str());
        r.append(",");
        r.append(A16::to_rust_type().as_str());
        r.append(",");
        r.append(A17::to_rust_type().as_str());
        r.append(",");
        r.append(A18::to_rust_type().as_str());
        r.append(",");
        r.append(A19::to_rust_type().as_str());
        r.append(")");
        r
    }
}

impl<A0: Modelled, A1: Modelled, A2: Modelled, A3: Modelled, A4: Modelled, A5: Modelled, A6: Modelled, A7: Modelled, A8: Modelled, A9: Modelled, A10: Modelled, A11: Modelled, A12: Modelled, A13: Modelled, A14: Modelled, A15: Modelled, A16: Modelled, A17: Modelled, A18: Modelled, A19: Modelled, A20: Modelled> Modelled for (A0, A1, A2, A3, A4, A5, A6, A7, A8, A9, A10, A11, A12, A13, A14, A15, A16, A17, A18, A19, A20, ) {
    type V = (<A0 as Modelled>::V, <A1 as Modelled>::V, <A2 as Modelled>::V, <A3 as Modelled>::V, <A4 as Modelled>::V, <A5 as Modelled>::V, <A6 as Modelled>::V, <A7 as Modelled>::V, <A8 as Modelled>::V, <A9 as Modelled>::V, <A10 as Modelled>::V, <A11 as Modelled>::V, <A12 as Modelled>::V, <A13 as Modelled>::V, <A14 as Modelled>::V, <A15 as Modelled>::V, <A16 as Modelled>::V, <A17 as Modelled>::V, <A18 as Modelled>::V, <A19 as Modelled>::V, <A20 as Modelled>::V, );

    open spec fn model(&self) -> (<A0 as Modelled>::V, <A1 as Modelled>::V, <A2 as Modelled>::V, <A3 as Modelled>::V, <A4 as Modelled>::V, <A5 as Modelled>::V, <A6 as Modelled>::V, <A7 as Modelled>::V, <A8 as Modelled>::V, <A9 as Modelled>::V, <A10 as Modelled>::V, <A11 as Modelled>::V, <A12 as Modelled>::V, <A13 as Modelled>::V, <A14 as Modelled>::V, <A15 as Modelled>::V, <A16 as Modelled>::V, <A17 as Modelled>::V, <A18 as Modelled>::V, <A19 as Modelled>::V, <A20 as Modelled>::V, ) {
        (self.0.model(), self.1.model(), self.2.model(), self.3.model(), self.4.model(), self.5.model(), self.6.model(), self.7.model(), self.8.model(), self.9.model(), self.10.model(), self.11.model(), self.12.model(), self.13.model(), self.14.model(), self.15.model(), self.16.model(), self.17.model(), self.18.model(), self.19.model(), self.20.model(), )
    }
}

impl<A0: ToValueRepr, A1: ToValueRepr, A2: ToValueRepr, A3: ToValueRepr, A4: ToValueRepr, A5: ToValueRepr, A6: ToValueRepr, A7: ToValueRepr, A8: ToValueRepr, A9: ToValueRepr, A10: ToValueRepr, A11: ToValueRepr, A12: ToValueRepr, A13: ToValueRepr, A14: ToValueRepr, A15: ToValueRepr, A16: ToValueRepr, A17: ToValueRepr, A18: ToValueRepr, A19: ToValueRepr, A20: ToValueRepr> ToValueRepr for (A0, A1, A2, A3, A4, A5, A6, A7, A8, A9, A10, A11, A12, A13, A14, A15, A16, A17, A18, A19, A20, ) {
    open spec fn encode(v: (<A0 as Modelled>::V, <A1 as Modelled>::V, <A2 as Modelled>::V, <A3 as Modelled>::V, <A4 as Modelled>::V, <A5 as Modelled>::V, <A6 as Modelled>::V, <A7 as Modelled>::V, <A8 as Modelled>::V, <A9 as Modelled>::V, <A10 as Modelled>::V, <A11 as Modelled>::V, <A12 as Modelled>::V, <A13 as Modelled>::V, <A14 as Modelled>::V, <A15 as Modelled>::V, <A16 as Modelled>::V, <A17 as Modelled>::V, <A18 as Modelled>::V, <A19 as Modelled>::V, <A20 as Modelled>::V, )) -> ValueV {
        tagged("::tuple"@, seq![A0::encode(v.0), A1::encode(v.1), A2::encode(v.2), A3::encode(v.3), A4::encode(v.4), A5::encode(v.5), A6::encode(v.6), A7::encode(v.7), A8::encode(v.8), A9::encode(v.9), A10::encode(v.10), A11::encode(v.11), A12::encode(v.12), A13::encode(v.13), A14::encode(v.14), A15::encode(v.15), A16::encode(v.16), A17::encode(v.17), A18::encode(v.18), A19::encode(v.19), A20::encode(v.20)])
    }

    fn to_value_repr(&self) -> (r: Value) {
        let mut parts: Vec<Value> = Vec::new();
        parts.push(self.0.to_value_repr());
        parts.push(self.1.to_value_repr());
        parts.push(self.2.to_value_repr());
        parts.push(self.3.to_value_repr());
        parts.push(self.4.to_value_repr());
        parts.push(self.5.to_value_repr());
        parts.push(self.6.to_value_repr());
        parts.push(self.7.to_value_repr());
        parts.push(self.8.to_value_repr());
        parts.push(self.9.to_value_repr());
        parts.push(self.10.to_value_repr());
        parts.push(self.11.to_value_repr());
        parts.push(self.12.to_value_repr());
        parts.push(self.13.to_value_repr());
        parts.push(self.14.to_value_repr());
        parts.push(self.15.to_value_repr());
        parts.push(self.16.to_value_repr());
        parts.push(self.17.to_value_repr());
        parts.push(self.18.to_value_repr());
        parts.push(self.19.to_value_repr());
        parts.push(self.20.to_value_repr());
        assert(values_of(parts@) =~= seq![A0::encode(self.0.model()), A1::encode(self.1.model()), A2::encode(self.2.model()), A3::encode(self.3.model()), A4::encode(self.4.model()), A5::encode(self.5.model()), A6::encode(self.6.model()), A7::encode(self.7.model()), A8::encode(self.8.model()), A9::encode(self.9.model()), A10::encode(self.10.model()), A11::encode(self.11.model()), A12::encode(self.12.model()), A13::encode(self.13.model()), A14::encode(self.14.model()), A15::encode(self.15.model()), A16::encode(self.16.model()), A17::encode(self.17.model()), A18::encode(self.18.model()), A19::encode(self.19.model()), A20::encode(self.20.model())]);
        Value::mk_tagged("::tuple", parts.as_slice())
    }
}

impl<A0: FromValueRepr, A1: FromValueRepr, A2: FromValueRepr, A3: FromValueRepr, A4: FromValueRepr, A5: FromValueRepr, A6: FromValueRepr, A7: FromValueRepr, A8: FromValueRepr, A9: FromValueRepr, A10: FromValueRepr, A11: FromValueRepr, A12: FromValueRepr, A13: FromValueRepr, A14: FromValueRepr, A15: FromValueRepr, A16: FromValueRepr, A17: FromValueRepr, A18: FromValueRepr, A19: FromValueRepr, A20: FromValueRepr> FromValueRepr for (A0, A1, A2, A3, A4, A5, A6, A7, A8, A9, A10, A11, A12, A13, A14, A15, A16, A17, A18, A19, A20, ) {
    open spec fn decode(repr: ValueV) -> Option<(<A0 as Modelled>::V, <A1 as Modelled>::V, <A2 as Modelled>::V, <A3 as Modelled>::V, <A4 as Modelled>::V, <A5 as Modelled>::V, <A6 as Modelled>::V, <A7 as Modelled>::V, <A8 as Modelled>::V, <A9 as Modelled>::V, <A10 as Modelled>::V, <A11 as Modelled>::V, <A12 as Modelled>::V, <A13 as Modelled>::V, <A14 as Modelled>::V, <A15 as Modelled>::V, <A16 as Modelled>::V, <A17 as Modelled>::V, <A18 as Modelled>::V, <A19 as Modelled>::V, <A20 as Modelled>::V, )> {
        match parts_n(repr, "::tuple"@, 21) {
            Some(data) => match (A0::decode(data[0]), A1::decode(data[1]), A2::decode(data[2]), A3::decode(data[3]), A4::decode(data[4]), A5::decode(data[5]), A6::decode(data[6]), A7::decode(data[7]), A8::decode(data[8]), A9::decode(data[9]), A10::decode(data[10]), A11::decode(data[11]), A12::decode(data[12]), A13::decode(data[13]), A14::decode(data[14]), A15::decode(data[15]), A16::decode(data[16]), A17::decode(data[17]), A18::decode(data[18]), A19::decode(data[19]), A20::decode(data[20]), ) {
                (Some(x0), Some(x1), Some(x2), Some(x3), Some(x4), Some(x5), Some(x6), Some(x7), Some(x8), Some(x9), Some(x10), Some(x11), Some(x12), Some(x13), Some(x14), Some(x15), Some(x16), Some(x17), Some(x18), Some(x19), Some(x20), ) => Some((x0, x1, x2, x3, x4, x5, x6, x7, x8, x9, x10, x11, x12, x13, x14, x15, x16, x17, x18, x19, x20, )),
                _ => None,
            },
            None => None,
        }
    }

    fn from_value_repr(repr: &Value) -> (r: Result<Self, ExpectError>) {
        match repr.expect_tagged_n::<21>("::tuple") {
            Ok(data) => {
                assert(values_of(data@)[0] == data@[0]@);
                let x0 = match A0::from_value_repr(&data[0]) {
                    Ok(x) => x,
                    Err(e) => {
                        return Err(e);
                    },
                };
                assert(values_of(data@)[1] == data@[1]@);
                let x1 = match A1::from_value_repr(&data[1]) {
                    Ok(x) => x,
                    Err(e) => {
                        return Err(e);
                    },
                };
                assert(values_of(data@)[2] == data@[2]@);
                let x2 = match A2::from_value_repr(&data[2]) {
                    Ok(x) => x,
                    Err(e) => {
                        return Err(e);
                    },
                };
                assert(values_of(data@)[3] == data@[3]@);
                let x3 = match A3::from_value_repr(&data[3]) {
                    Ok(x) => x,
                    Err(e) => {
                        return Err(e);
                    },
                };
                assert(values_of(data@)[4] == data@[4]@);
                let x4 = match A4::from_value_repr(&data[4]) {
                    Ok(x) => x,
                    Err(e) => {
                        return Err(e);
                    },
                };
                assert(values_of(data@)[5] == data@[5]@);
                let x5 = match A5::from_value_repr(&data[5]) {
                    Ok(x) => x,
                    Err(e) => {
                        return Err(e);
                    },
                };
                assert(values_of(data@)[6] == data@[6]@);
                let x6 = match A6::from_value_repr(&data[6]) {
                    Ok(x) => x,
                    Err(e) => {
                        return Err(e);
                    },
                };
                assert(values_of(data@)[7] == data@[7]@);
                let x7 = match A7::from_value_repr(&data[7]) {
                    Ok(x) => x,
                    Err(e) => {
                        return Err(e);
                    },
                };
                assert(values_of(data@)[8] == data@[8]@);
                let x8 = match A8::from_value_repr(&data[8]) {
                    Ok(x) => x,
                    Err(e) => {
                        return Err(e);
                    },
                };
                assert(values_of(data@)[9] == data@[9]@);
                let x9 = match A9::from_value_repr(&data[9]) {
                    Ok(x) => x,
                    Err(e) => {
                        return Err(e);
                    },
                };
                assert(values_of(data@)[10] == data@[10]@);
                let x10 = match A10::from_value_repr(&data[10]) {
                    Ok(x) => x,
                    Err(e) => {
                        return Err(e);
                    },
                };
                assert(values_of(data@)[11] == data@[11]@);
                let x11 = match A11::from_value_repr(&data[11]) {
                    Ok(x) => x,
                    Err(e) => {
                        return Err(e);
                    },
                };
                assert(values_of(data@)[12] == data@[12]@);
                let x12 = match A12::from_value_repr(&data[12]) {
                    Ok(x) => x,
                    Err(e) => {
                        return Err(e);
                    },
                };
                assert(values_of(data@)[13] == data@[13]@);
                let x13 = match A13::from_value_repr(&data[13]) {
                    Ok(x) => x,
                    Err(e) => {
                        return Err(e);
                    },
                };
                assert(values_of(data@)[14] == data@[14]@);
                let x14 = match A14::from_value_repr(&data[14]) {
                    Ok(x) => x,
                    Err(e) => {
                        return Err(e);
                    },
                };
                assert(values_of(data@)[15] == data@[15]@);
                let x15 = match A15::from_value_repr(&data[15]) {
                    Ok(x) => x,
                    Err(e) => {
                        return Err(e);
                    },
                };
                assert(values_of(data@)[16] == data@[16]@);
                let x16 = match A16::from_value_repr(&data[16]) {
                    Ok(x) => x,
                    Err(e) => {
                        return Err(e);
                    },
                };
                assert(values_of(data@)[17] == data@[17]@);
                let x17 = match A17::from_value_repr(&data[17]) {
                    Ok(x) => x,
                    Err(e) => {
                        return Err(e);
                    },
                };
                assert(values_of(data@)[18] == data@[18]@);
                let x18 = match A18::from_value_repr(&data[18]) {
                    Ok(x) => x,
                    Err(e) => {
                        return Err(e);
                    },
                };
                assert(values_of(data@)[19] == data@[19]@);
                let x19 = match A19::from_value_repr(&data[19]) {
                    Ok(x) => x,
                    Err(e) => {
                        return Err(e);
                    },
                };
                assert(values_of(data@)[20] == data@[20]@);
                let x20 = match A20::from_value_repr(&data[20]) {
                    Ok(x) => x,
                    Err(e) => {
                        return Err(e);
                    },
                };
                Ok((x0, x1, x2, x3, x4, x5, x6, x7, x8, x9, x10, x11, x12, x13, x14, x15, x16, x17, x18, x19, x20, ))
            },
            Err(e) => Err(e),
        }
    }
}

impl<A0: Marshalled, A1: Marshalled, A2: Marshalled, A3: Marshalled, A4: Marshalled, A5: Marshalled, A6: Marshalled, A7: Marshalled, A8: Marshalled, A9: Marshalled, A10: Marshalled, A11: Marshalled, A12: Marshalled, A13: Marshalled, A14: Marshalled, A15: Marshalled, A16: Marshalled, A17: Marshalled, A18: Marshalled, A19: Marshalled, A20: Marshalled> Marshalled for (A0, A1, A2, A3, A4, A5, A6, A7, A8, A9, A10, A11, A12, A13, A14, A15, A16, A17, A18, A19, A20, ) {
    proof fn round_trip(v: (<A0 as Modelled>::V, <A1 as Modelled>::V, <A2 as Modelled>::V, <A3 as Modelled>::V, <A4 as Modelled>::V, <A5 as Modelled>::V, <A6 as Modelled>::V, <A7 as Modelled>::V, <A8 as Modelled>::V, <A9 as Modelled>::V, <A10 as Modelled>::V, <A11 as Modelled>::V, <A12 as Modelled>::V, <A13 as Modelled>::V, <A14 as Modelled>::V, <A15 as Modelled>::V, <A16 as Modelled>::V, <A17 as Modelled>::V, <A18 as Modelled>::V, <A19 as Modelled>::V, <A20 as Modelled>::V, )) {
        A0::round_trip(v.0);
        A1::round_trip(v.1);
        A2::round_trip(v.2);
        A3::round_trip(v.3);
        A4::round_trip(v.4);
        A5::round_trip(v.5);
        A6::round_trip(v.6);
        A7::round_trip(v.7);
        A8::round_trip(v.8);
        A9::round_trip(v.9);
        A10::round_trip(v.10);
        A11::round_trip(v.11);
        A12::round_trip(v.12);
        A13::round_trip(v.13);
        A14::round_trip(v.14);
        A15::round_trip(v.15);
        A16::round_trip(v.16);
        A17::round_trip(v.17);
        A18::round_trip(v.18);
        A19::round_trip(v.19);
        A20::round_trip(v.20);
        lemma_tagged_shape("::tuple"@, seq![A0::encode(v.0), A1::encode(v.1), A2::encode(v.2), A3::encode(v.3), A4::encode(v.4), A5::encode(v.5), A6::encode(v.6), A7::encode(v.7), A8::encode(v.8), A9::encode(v.9), A10::encode(v.10), A11::encode(v.11), A12::encode(v.12), A13::encode(v.13), A14::encode(v.14), A15::encode(v.15), A16::encode(v.16), A17::encode(v.17), A18::encode(v.18), A19::encode(v.19), A20::encode(v.20)]);
    }
}

impl<A0: ToRustExpr, A1: ToRustExpr, A2: ToRustExpr, A3: ToRustExpr, A4: ToRustExpr, A5: ToRustExpr, A6: ToRustExpr, A7: ToRustExpr, A8: ToRustExpr, A9: ToRustExpr, A10: ToRustExpr, A11: ToRustExpr, A12: ToRustExpr, A13: ToRustExpr, A14: ToRustExpr, A15: ToRustExpr, A16: ToRustExpr, A17: ToRustExpr, A18: ToRustExpr, A19: ToRustExpr, A20: ToRustExpr> ToRustExpr for (A0, A1, A2, A3, A4, A5, A6, A7, A8, A9, A10, A11, A12, A13, A14, A15, A16, A17, A18, A19, A20, ) {
    open spec fn rust_expr(v: (<A0 as Modelled>::V, <A1 as Modelled>::V, <A2 as Modelled>::V, <A3 as Modelled>::V, <A4 as Modelled>::V, <A5 as Modelled>::V, <A6 as Modelled>::V, <A7 as Modelled>::V, <A8 as Modelled>::V, <A9 as Modelled>::V, <A10 as Modelled>::V, <A11 as Modelled>::V, <A12 as Modelled>::V, <A13 as Modelled>::V, <A14 as Modelled>::V, <A15 as Modelled>::V, <A16 as Modelled>::V, <A17 as Modelled>::V, <A18 as Modelled>::V, <A19 as Modelled>::V, <A20 as Modelled>::V, )) -> Seq<char> {
        "("@ + A0::rust_expr(v.0) + ","@ + A1::rust_expr(v.1) + ","@ + A2::rust_expr(v.2) + ","@ + A3::rust_expr(v.3) + ","@ + A4::rust_expr(v.4) + ","@ + A5::rust_expr(v.5) + ","@ + A6::rust_expr(v.6) + ","@ + A7::rust_expr(v.7) + ","@ + A8::rust_expr(v.8) + ","@ + A9::rust_expr(v.9) + ","@ + A10::rust_expr(v.10) + ","@ + A11::rust_expr(v.11) + ","@ + A12::rust_expr(v.12) + ","@ + A13::rust_expr(v.13) + ","@ + A14::rust_expr(v.14) + ","@ + A15::rust_expr(v.15) + ","@ + A16::rust_expr(v.16) + ","@ + A17::rust_expr(v.17) + ","@ + A18::rust_expr(v.18) + ","@ + A19::rust_expr(v.19) + ","@ + A20::rust_expr(v.20) + ")"@
    }

    open spec fn rust_type() -> Seq<char> {
        "("@ + A0::rust_type() + ","@ + A1::rust_type() + ","@ + A2::rust_type() + ","@ + A3::rust_type() + ","@ + A4::rust_type() + ","@ + A5::rust_type() + ","@ + A6::rust_type() + ","@ + A7::rust_type() + ","@ + A8::rust_type() + ","@ + A9::rust_type() + ","@ + A10::rust_type() + ","@ + A11::rust_type() + ","@ + A12::rust_type() + ","@ + A13::rust_type() + ","@ + A14::rust_type() + ","@ + A15::rust_type() + ","@ + A16::rust_type() + ","@ + A17::rust_type() + ","@ + A18::rust_type() + ","@ + A19::rust_type() + ","@ + A20::rust_type() + ")"@
    }

    fn to_rust_expr(&self) -> (r: String) {
        let mut r = String::from_str("(");
        r.append(self.0.to_rust_expr().as_str());
        r.append(",");
        r.append(self.1.to_rust_expr().as_str());
        r.append(",");
        r.append(self.2.to_rust_expr().as_str());
        r.append(",");
        r.append(self.3.to_rust_expr().as_str());
        r.append(",");
        r.append(self.4.to_rust_expr().as_str());
        r.append(",");
        r.append(self.5.to_rust_expr().as_str());
        r.append(",");
        r.append(self.6.to_rust_expr().as_str());
        r.append(",");
        r.append(self.7.to_rust_expr().as_str());
        r.append(",");
        r.append(self.8.to_rust_expr().as_str());
        r.append(",");
        r.append(self.9.to_rust_expr().as_str());
        r.append(",");
        r.append(self.10.to_rust_expr().as_str());
        r.append(",");
        r.append(self.11.to_rust_expr().as_str());
        r.append(",");
        r.append(self.12.to_rust_expr().as_str());
        r.append(",");
        r.append(self.13.to_rust_expr().as_str());
        r.append(",");
        r.append(self.14.to_rust_expr().as_str());
        r.append(",");
        r.append(self.15.to_rust_expr().as_str());
        r.append(",");
        r.append(self.16.to_rust_expr().as_str());
        r.append(",");
        r.append(self.17.to_rust_expr().as_str());
        r.append(",");
        r.append(self.18.to_rust_expr().as_str());
        r.append(",");
        r.append(self.19.to_rust_expr().as_str());
        r.append(",");
        r.append(self.20.to_rust_expr().as_str());
        r.append(")");
        r
    }

    fn to_rust_type() -> (r: String) {
        let mut r = String::from_str("(");
        r.append(A0::to_rust_type().as_str());
        r.append(",");
        r.append(A1::to_rust_type().as_str());
        r.append(",");
        r.append(A2::to_rust_type().as_str());
        r.append(",");
        r.append(A3::to_rust_type().as_str());
        r.append(",");
        r.append(A4::to_rust_type().as_str());
        r.append(",");
        r.append(A5::to_rust_type().as_str());
        r.append(",");
        r.append(A6::to_rust_type().as_str());
        r.append(",");
        r.append(A7::to_rust_type().as_str());
        r.append(",");
        r.append(A8::to_rust_type().as_str());
        r.append(",");
        r.append(A9::to_rust_type().as_str());
        r.append(",");
        r.append(A10::to_rust_type().as_str());
        r.append(",");
        r.append(A11::to_rust_type().as_str());
        r.append(",");
        r.append(A12::to_rust_type().as_str());
        r.append(",");
        r.append(A13::to_rust_type().as_str());
        r.append(",");
        r.append(A14::to_rust_type().as_str());
        r.append(",");
        r.append(A15::to_rust_type().as_str());
        r.append(",");
        r.append(A16::to_rust_type().as_str());
        r.append(",");
        r.append(A17::to_rust_type().as_str());
        r.append(",");
        r.append(A18::to_rust_type().as_str());
        r.append(",");
        r.append(A19::to_rust_type().as_str());
        r.append(",");
        r.append(A20::to_rust_type().as_str());
        r.append(")");
        r
    }
}

} // verus!
