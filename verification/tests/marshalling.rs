use std::cmp::Ordering;
use testify::marshalling::{
    ExpectError, FromValueRepr, ToRustExpr, ToValueRepr, Value, ValueReprAPI,
};
use testify::ordering::{
    ordering_from_value_repr, ordering_to_rust_expr, ordering_to_rust_type,
    ordering_to_value_repr,
};

fn tagged(tag: &str, data: Vec<Value>) -> Value {
    Value::Object(vec![
        ("tag".to_string(), Value::String(tag.to_string())),
        ("data".to_string(), Value::Array(data)),
    ])
}

#[test]
fn test() {
    let x: &[_] = &[Some(1u8), None];
    println!("{}", x.to_rust_expr())
}

#[test]
fn slice_of_options_is_written_as_source() {
    let x: &[_] = &[Some(1u8), None];
    assert_eq!(x.to_rust_expr(), "&[Some(1u8), None::<u8>]");
    let empty: &[u16] = &[];
    assert_eq!(empty.to_rust_expr(), "(&[] as &[u16])");
}

#[test]
fn round_trip_of_a_boolean() {
    let repr = true.to_value_repr();
    assert_eq!(repr, Value::Bool(true));
    assert_eq!(bool::from_value_repr(&repr), Ok(true));
}

#[test]
fn round_trip_of_a_negative_byte() {
    let repr = (-5i8).to_value_repr();
    assert_eq!(repr, Value::Number(-5));
    assert_eq!(i8::from_value_repr(&repr), Ok(-5i8));
}

#[test]
fn round_trip_of_a_string() {
    let repr = "hi".to_string().to_value_repr();
    assert_eq!(repr, Value::String("hi".to_string()));
    assert_eq!(String::from_value_repr(&repr), Ok("hi".to_string()));
    assert_eq!("hi".to_value_repr(), repr);
}

#[test]
fn round_trip_of_a_character() {
    let repr = 'x'.to_value_repr();
    assert_eq!(repr, Value::String("x".to_string()));
    assert_eq!(char::from_value_repr(&repr), Ok('x'));
    assert!(char::from_value_repr(&Value::String("xy".to_string())).is_err());
}

#[test]
fn round_trip_of_some() {
    let repr = Some(3u32).to_value_repr();
    assert_eq!(repr, tagged("std::option::Option::Some", vec![Value::Number(3)]));
    assert_eq!(Option::<u32>::from_value_repr(&repr), Ok(Some(3u32)));
}

#[test]
fn round_trip_of_none() {
    let repr = None::<u8>.to_value_repr();
    assert_eq!(repr, tagged("std::option::Option::None", vec![]));
    assert_eq!(Option::<u8>::from_value_repr(&repr), Ok(None));
}

#[test]
fn round_trip_of_a_sequence() {
    let v = vec![1u8, 2u8, 3u8];
    let repr = v.to_value_repr();
    assert_eq!(
        repr,
        tagged("::slice", vec![Value::Number(1), Value::Number(2), Value::Number(3)])
    );
    assert_eq!(Vec::<u8>::from_value_repr(&repr), Ok(v));
}

#[test]
fn round_trip_of_a_tuple() {
    let v = (1u8, "a".to_string(), true);
    let repr = v.to_value_repr();
    assert_eq!(
        repr,
        tagged(
            "::tuple",
            vec![Value::Number(1), Value::String("a".to_string()), Value::Bool(true)]
        )
    );
    assert_eq!(<(u8, String, bool)>::from_value_repr(&repr), Ok(v));
}

#[test]
fn round_trip_of_a_tuple_of_twelve() {
    let v = (1u8, 2u16, 3u32, 4u64, 5usize, 6i8, 7i16, 8i32, 9i64, 10isize, true, 'c');
    let repr = v.to_value_repr();
    assert_eq!(
        <(u8, u16, u32, u64, usize, i8, i16, i32, i64, isize, bool, char)>::from_value_repr(&repr),
        Ok(v)
    );
}

#[test]
fn round_trip_of_a_tuple_of_twenty_one() {
    let v = (
        1u8, 2u16, 3u32, 4u64, 5usize, 6i8, 7i16, 8i32, 9i64, 10isize, true, 'c', 13u8, 14u16,
        15u32, 16u64, 17u128, -18i128, "s".to_string(), Some(20u8), vec![21u8],
    );
    let repr = v.to_value_repr();
    match &repr {
        Value::Object(fields) => match &fields[1].1 {
            Value::Array(data) => {
                assert_eq!(data.len(), 21);
                assert_eq!(data[0], Value::Number(1));
                assert_eq!(data[16], Value::String("17".to_string()));
                assert_eq!(data[17], Value::String("-18".to_string()));
            }
            other => panic!("no data: {:?}", other),
        },
        other => panic!("no object: {:?}", other),
    }
    let back = <(
        u8, u16, u32, u64, usize, i8, i16, i32, i64, isize, bool, char, u8, u16, u32, u64, u128,
        i128, String, Option<u8>, Vec<u8>,
    )>::from_value_repr(&repr);
    match back {
        Ok(w) => {
            assert_eq!(w.0, 1);
            assert_eq!(w.1, 2);
            assert_eq!(w.2, 3);
            assert_eq!(w.3, 4);
            assert_eq!(w.4, 5);
            assert_eq!(w.5, 6);
            assert_eq!(w.6, 7);
            assert_eq!(w.7, 8);
            assert_eq!(w.8, 9);
            assert_eq!(w.9, 10);
            assert!(w.10);
            assert_eq!(w.11, 'c');
            assert_eq!(w.12, 13);
            assert_eq!(w.13, 14);
            assert_eq!(w.14, 15);
            assert_eq!(w.15, 16);
            assert_eq!(w.16, 17);
            assert_eq!(w.17, -18);
            assert_eq!(w.18, "s");
            assert_eq!(w.19, Some(20));
            assert_eq!(w.20, vec![21]);
        }
        Err(e) => panic!("refused: {:?}", e),
    }
    assert_eq!(
        v.to_rust_expr(),
        "(1u8,2u16,3u32,4u64,5usize,6i8,7i16,8i32,9i64,10isize,true,'c',13u8,14u16,15u32,16u64,17u128,-18i128,\"s\",Some(20u8),[21u8])"
    );
}

#[test]
fn a_tuple_of_thirteen_is_not_one_of_twelve() {
    let v = (1u8, 2u8, 3u8, 4u8, 5u8, 6u8, 7u8, 8u8, 9u8, 10u8, 11u8, 12u8, 13u8);
    let repr = v.to_value_repr();
    assert_eq!(
        <(u8, u8, u8, u8, u8, u8, u8, u8, u8, u8, u8, u8)>::from_value_repr(&repr),
        Err(ExpectError::BadArity { expected: 12, got: 13 })
    );
    assert!(<(u8, u8, u8, u8, u8, u8, u8, u8, u8, u8, u8, u8, u8)>::from_value_repr(&repr).is_ok());
}

#[test]
fn round_trip_of_an_ordering() {
    let repr = ordering_to_value_repr(Ordering::Less);
    assert_eq!(repr, tagged("Less", vec![]));
    assert_eq!(ordering_from_value_repr(&repr), Ok(Ordering::Less));
    assert_eq!(
        ordering_from_value_repr(&ordering_to_value_repr(Ordering::Equal)),
        Ok(Ordering::Equal)
    );
    assert_eq!(
        ordering_from_value_repr(&ordering_to_value_repr(Ordering::Greater)),
        Ok(Ordering::Greater)
    );
    assert!(ordering_from_value_repr(&tagged("Other", vec![])).is_err());
}

#[test]
fn round_trip_of_the_largest_signed_integer() {
    let repr = i128::MAX.to_value_repr();
    assert_eq!(
        repr,
        Value::String("170141183460469231731687303715884105727".to_string())
    );
    assert_eq!(i128::from_value_repr(&repr), Ok(i128::MAX));
}

#[test]
fn round_trip_at_the_ends_of_the_wide_integers() {
    assert_eq!(i128::from_value_repr(&i128::MIN.to_value_repr()), Ok(i128::MIN));
    assert_eq!(
        i128::MIN.to_value_repr(),
        Value::String("-170141183460469231731687303715884105728".to_string())
    );
    assert_eq!(u128::from_value_repr(&u128::MAX.to_value_repr()), Ok(u128::MAX));
    assert_eq!(u128::from_value_repr(&0u128.to_value_repr()), Ok(0u128));
    assert!(i128::from_value_repr(&Value::String(
        "170141183460469231731687303715884105728".to_string()
    ))
    .is_err());
    assert!(u128::from_value_repr(&Value::String("-1".to_string())).is_err());
    assert!(u128::from_value_repr(&Value::String("".to_string())).is_err());
}

#[test]
fn round_trip_of_every_integer_width() {
    assert_eq!(u8::from_value_repr(&u8::MAX.to_value_repr()), Ok(u8::MAX));
    assert_eq!(u16::from_value_repr(&u16::MAX.to_value_repr()), Ok(u16::MAX));
    assert_eq!(u32::from_value_repr(&u32::MAX.to_value_repr()), Ok(u32::MAX));
    assert_eq!(u64::from_value_repr(&u64::MAX.to_value_repr()), Ok(u64::MAX));
    assert_eq!(usize::from_value_repr(&usize::MAX.to_value_repr()), Ok(usize::MAX));
    assert_eq!(i8::from_value_repr(&i8::MIN.to_value_repr()), Ok(i8::MIN));
    assert_eq!(i16::from_value_repr(&i16::MIN.to_value_repr()), Ok(i16::MIN));
    assert_eq!(i32::from_value_repr(&i32::MIN.to_value_repr()), Ok(i32::MIN));
    assert_eq!(i64::from_value_repr(&i64::MIN.to_value_repr()), Ok(i64::MIN));
    assert_eq!(isize::from_value_repr(&isize::MIN.to_value_repr()), Ok(isize::MIN));
}

#[test]
fn a_number_out_of_range_is_refused() {
    assert_eq!(
        u8::from_value_repr(&Value::Number(256)),
        Err(ExpectError::BadVariant { repr: Value::Number(256) })
    );
    assert!(i8::from_value_repr(&Value::Number(-129)).is_err());
    assert!(u8::from_value_repr(&Value::Bool(true)).is_err());
}

#[test]
fn a_wrong_tag_is_named() {
    let repr = tagged("::tuple", vec![]);
    assert_eq!(
        repr.expect_tagged("::slice").map(|d| d.len()),
        Err(ExpectError::BadTag { got: "::tuple".to_string(), expected: "::slice".to_string() })
    );
}

#[test]
fn a_wrong_shape_is_shown() {
    let repr = Value::Number(3);
    assert_eq!(
        repr.expect_tagged("::slice").map(|d| d.len()),
        Err(ExpectError::BadVariant { repr: Value::Number(3) })
    );
    let no_data = Value::Object(vec![("tag".to_string(), Value::String("t".to_string()))]);
    assert!(matches!(
        no_data.expect_tagged("t").map(|d| d.len()),
        Err(ExpectError::BadVariant { .. })
    ));
}

#[test]
fn a_wrong_arity_is_counted() {
    let repr = tagged("::tuple", vec![Value::Number(1), Value::Number(2)]);
    assert_eq!(
        repr.expect_tagged_n::<3>("::tuple").map(|d| d.len()),
        Err(ExpectError::BadArity { expected: 3, got: 2 })
    );
    assert_eq!(repr.expect_tagged_n::<2>("::tuple").map(|d| d.len()), Ok(2));
    assert!(<(u8, u8, u8)>::from_value_repr(&repr).is_err());
}

#[test]
fn a_tagged_value_has_its_tag_and_its_parts() {
    let made = Value::mk_tagged("t", &[Value::Bool(false)]);
    assert_eq!(made, tagged("t", vec![Value::Bool(false)]));
    assert_eq!(made.expect_tagged("t").map(|d| d.to_vec()), Ok(vec![Value::Bool(false)]));
}

#[test]
fn an_error_says_what_was_expected() {
    let e = ExpectError::BadArity { expected: 3, got: 2 };
    assert_eq!(e.message(), "Got `ValueRepr::List`, but got 2 values instead of expected 3 values");
    let e = ExpectError::BadTag { got: "a".to_string(), expected: "b".to_string() };
    assert_eq!(e.message(), "Got `ValueRepr::List`, but got tag `a` instead of expected `b`");
}

#[test]
fn values_are_written_as_source() {
    assert_eq!(5u8.to_rust_expr(), "5u8");
    assert_eq!((-5i8).to_rust_expr(), "-5i8");
    assert_eq!(i128::MIN.to_rust_expr(), "-170141183460469231731687303715884105728i128");
    assert_eq!(u128::MAX.to_rust_expr(), "340282366920938463463374607431768211455u128");
    assert_eq!(true.to_rust_expr(), "true");
    assert_eq!("a\"b".to_string().to_rust_expr(), "\"a\\\"b\"");
    assert_eq!('\n'.to_rust_expr(), "'\\n'");
    assert_eq!(vec![1u8, 2u8].to_rust_expr(), "[1u8, 2u8]");
    assert_eq!(Vec::<u8>::new().to_rust_expr(), "[]");
    assert_eq!(Some(3u32).to_rust_expr(), "Some(3u32)");
    assert_eq!(None::<u8>.to_rust_expr(), "None::<u8>");
    assert_eq!((1u8, "a".to_string(), true).to_rust_expr(), "(1u8,\"a\",true)");
    assert_eq!(ordering_to_rust_expr(Ordering::Less), "std::cmp::Ordering::Less");
}

#[test]
fn types_are_written_as_source() {
    assert_eq!(u8::to_rust_type(), "u8");
    assert_eq!(isize::to_rust_type(), "isize");
    assert_eq!(bool::to_rust_type(), "bool");
    assert_eq!(String::to_rust_type(), "String");
    assert_eq!(char::to_rust_type(), "char");
    assert_eq!(Vec::<u8>::to_rust_type(), "Vec<u8>");
    assert_eq!(<&[u8]>::to_rust_type(), "[u8]");
    assert_eq!(<(u8, bool)>::to_rust_type(), "(u8,bool)");
    assert_eq!(ordering_to_rust_type(), "std::cmp::Ordering");
}

#[test]
fn a_wide_integer_may_be_written_with_a_plus_sign() {
    assert_eq!(u128::from_value_repr(&Value::String("+5".to_string())), Ok(5));
    assert_eq!(i128::from_value_repr(&Value::String("+5".to_string())), Ok(5));
    assert_eq!(i128::from_value_repr(&Value::String("-5".to_string())), Ok(-5));
    assert_eq!(i128::from_value_repr(&Value::String("-0".to_string())), Ok(0));
    assert_eq!(
        u128::from_value_repr(&Value::String("+340282366920938463463374607431768211455".to_string())),
        Ok(u128::MAX)
    );
    assert!(u128::from_value_repr(&Value::String("-0".to_string())).is_err());
    assert!(u128::from_value_repr(&Value::String("+".to_string())).is_err());
    assert!(u128::from_value_repr(&Value::String("++5".to_string())).is_err());
    assert!(i128::from_value_repr(&Value::String("+-5".to_string())).is_err());
    assert!(i128::from_value_repr(&Value::String("-+5".to_string())).is_err());
    assert!(i128::from_value_repr(&Value::String("".to_string())).is_err());
    assert!(i128::from_value_repr(&Value::String(" 5".to_string())).is_err());
}
