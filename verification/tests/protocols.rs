use overloaded_literals::greeting::Greeting;
use overloaded_literals::nonzero::{NonZeroI16, NonZeroI8, NonZeroU128, NonZeroU8};
use overloaded_literals::syntax::LiteralCall;
use overloaded_literals::type_str::Byte;
use overloaded_literals::{
    bool_literal, signed_literal, str_literal, unsigned_literal, FromLiteralBool,
    FromLiteralSigned, FromLiteralStr, FromLiteralUnsigned, LiteralError, TypeStr,
};
use std::num::Wrapping;

fn chain_of(bytes: &[u8]) -> TypeStr {
    let mut chain = TypeStr::nil();
    for b in bytes.iter().rev() {
        chain = TypeStr::cons(Byte { val: *b }, chain);
    }
    chain
}

#[test]
fn it_works() {
    let x: i8 = FromLiteralSigned::into_self(2);
    assert_eq!(x, 2);
    let x: i8 = FromLiteralSigned::into_self(-20);
    assert_eq!(x, -20);
}

#[test]
fn literal_str() {
    let chain = TypeStr::cons(
        Byte { val: 104 },
        TypeStr::cons(
            Byte { val: 101 },
            TypeStr::cons(
                Byte { val: 108 },
                TypeStr::cons(Byte { val: 108 }, TypeStr::cons(Byte { val: 111 }, TypeStr::nil())),
            ),
        ),
    );
    let y: String = FromLiteralStr::into_self(&chain);
    println!("greeting: {y:?}");
    assert_eq!(y, "hello");
}

#[test]
fn unsigned_literal_in_range_is_its_number() {
    assert_eq!(<u8 as FromLiteralUnsigned>::valid_literal(123), Ok(123));
    let x: u8 = FromLiteralUnsigned::into_self(123);
    assert_eq!(x, 123);
    let x: u8 = FromLiteralUnsigned::into_self(0);
    assert_eq!(x, 0);
    let x: u8 = FromLiteralUnsigned::into_self(255);
    assert_eq!(x, 255);
    let x: u16 = FromLiteralUnsigned::into_self(65535);
    assert_eq!(x, 65535);
    let x: u32 = FromLiteralUnsigned::into_self(4_294_967_295);
    assert_eq!(x, u32::MAX);
    let x: u64 = FromLiteralUnsigned::into_self(1234567);
    assert_eq!(x, 1234567);
    let x: u128 = FromLiteralUnsigned::into_self(u128::MAX);
    assert_eq!(x, u128::MAX);
    let x: usize = FromLiteralUnsigned::into_self(4200);
    assert_eq!(x, 4200);
}

#[test]
fn unsigned_literal_for_a_signed_type() {
    assert_eq!(<i8 as FromLiteralUnsigned>::valid_literal(20), Ok(20));
    let x: i8 = FromLiteralUnsigned::into_self(20);
    assert_eq!(x, 20);
    let x: i8 = FromLiteralUnsigned::into_self(127);
    assert_eq!(x, 127);
    assert_eq!(<i8 as FromLiteralUnsigned>::valid_literal(128), Err(LiteralError::OutOfRange));
    let x: i16 = FromLiteralUnsigned::into_self(32767);
    assert_eq!(x, 32767);
    let x: i32 = FromLiteralUnsigned::into_self(1024);
    assert_eq!(x, 1024);
    let x: i64 = FromLiteralUnsigned::into_self(i64::MAX as u128);
    assert_eq!(x, i64::MAX);
    let x: i128 = FromLiteralUnsigned::into_self(i128::MAX as u128);
    assert_eq!(x, i128::MAX);
    assert_eq!(
        <i128 as FromLiteralUnsigned>::valid_literal(i128::MAX as u128 + 1),
        Err(LiteralError::OutOfRange)
    );
    let x: isize = FromLiteralUnsigned::into_self(33);
    assert_eq!(x, 33);
}

#[test]
fn unsigned_literal_out_of_range_is_turned_down() {
    assert_eq!(<u8 as FromLiteralUnsigned>::valid_literal(256), Err(LiteralError::OutOfRange));
    assert_eq!(<u8 as FromLiteralUnsigned>::valid_literal(1024), Err(LiteralError::OutOfRange));
    assert_eq!(<u8 as FromLiteralUnsigned>::valid_literal(255), Ok(255));
    assert_eq!(<u16 as FromLiteralUnsigned>::valid_literal(65536), Err(LiteralError::OutOfRange));
    assert_eq!(
        <u32 as FromLiteralUnsigned>::valid_literal(4_294_967_296),
        Err(LiteralError::OutOfRange)
    );
    assert_eq!(
        <u64 as FromLiteralUnsigned>::valid_literal(u64::MAX as u128 + 1),
        Err(LiteralError::OutOfRange)
    );
    assert_eq!(<u128 as FromLiteralUnsigned>::valid_literal(u128::MAX), Ok(u128::MAX));
    assert_eq!(
        <usize as FromLiteralUnsigned>::valid_literal(u128::MAX),
        Err(LiteralError::OutOfRange)
    );
}

#[test]
fn signed_literal_in_range_is_its_number() {
    let x: i8 = FromLiteralSigned::into_self(-100);
    assert_eq!(x, -100);
    let x: i8 = FromLiteralSigned::into_self(-128);
    assert_eq!(x, -128);
    let x: i8 = FromLiteralSigned::into_self(127);
    assert_eq!(x, 127);
    let x: i16 = FromLiteralSigned::into_self(-4200);
    assert_eq!(x, -4200);
    let x: i32 = FromLiteralSigned::into_self(-2_147_483_648);
    assert_eq!(x, i32::MIN);
    let x: i64 = FromLiteralSigned::into_self(-33);
    assert_eq!(x, -33);
    let x: i128 = FromLiteralSigned::into_self(i128::MIN);
    assert_eq!(x, i128::MIN);
    let x: isize = FromLiteralSigned::into_self(-10);
    assert_eq!(x, -10);
}

#[test]
fn signed_literal_out_of_range_is_turned_down() {
    assert_eq!(<i8 as FromLiteralSigned>::valid_literal(-1000), Err(LiteralError::OutOfRange));
    assert_eq!(<i8 as FromLiteralSigned>::valid_literal(-129), Err(LiteralError::OutOfRange));
    assert_eq!(<i8 as FromLiteralSigned>::valid_literal(128), Err(LiteralError::OutOfRange));
    assert_eq!(<i8 as FromLiteralSigned>::valid_literal(-200), Err(LiteralError::OutOfRange));
    assert_eq!(<i8 as FromLiteralSigned>::valid_literal(-128), Ok(-128));
    assert_eq!(<i16 as FromLiteralSigned>::valid_literal(-32769), Err(LiteralError::OutOfRange));
    assert_eq!(
        <i32 as FromLiteralSigned>::valid_literal(-2_147_483_649),
        Err(LiteralError::OutOfRange)
    );
    assert_eq!(
        <i64 as FromLiteralSigned>::valid_literal(i64::MIN as i128 - 1),
        Err(LiteralError::OutOfRange)
    );
    assert_eq!(<i128 as FromLiteralSigned>::valid_literal(i128::MIN), Ok(i128::MIN));
    assert_eq!(
        <isize as FromLiteralSigned>::valid_literal(i128::MIN),
        Err(LiteralError::OutOfRange)
    );
}

#[test]
fn negated_literal_parameter() {
    assert_eq!(LiteralCall::negated(0), Some(0));
    assert_eq!(LiteralCall::negated(100), Some(-100));
    assert_eq!(LiteralCall::negated(i128::MAX as u128), Some(-i128::MAX));
    assert_eq!(LiteralCall::negated(i128::MAX as u128 + 1), Some(i128::MIN));
    assert_eq!(LiteralCall::negated(i128::MAX as u128 + 2), None);
    assert_eq!(LiteralCall::negated(u128::MAX), None);
}

#[test]
fn nonzero_unsigned_rejects_zero_and_takes_five() {
    assert_eq!(<NonZeroU8 as FromLiteralUnsigned>::valid_literal(0), Err(LiteralError::Zero));
    assert_eq!(<NonZeroU8 as FromLiteralUnsigned>::valid_literal(5), Ok(5));
    let x: NonZeroU8 = FromLiteralUnsigned::into_self(5);
    assert_eq!(x.get(), 5);
    assert_eq!(Some(x), NonZeroU8::new(5));
}

#[test]
fn nonzero_range_and_zero() {
    assert_eq!(
        <NonZeroU8 as FromLiteralUnsigned>::valid_literal(256),
        Err(LiteralError::OutOfRangeNonZero)
    );
    let x: NonZeroU8 = FromLiteralUnsigned::into_self(255);
    assert_eq!(x.get(), 255);
    assert_eq!(<NonZeroU128 as FromLiteralUnsigned>::valid_literal(u128::MAX), Ok(u128::MAX));
    assert_eq!(<NonZeroU128 as FromLiteralUnsigned>::valid_literal(0), Err(LiteralError::Zero));
    assert_eq!(
        <NonZeroI8 as FromLiteralUnsigned>::valid_literal(128),
        Err(LiteralError::OutOfRangeNonZero)
    );
    let x: NonZeroI8 = FromLiteralUnsigned::into_self(10);
    assert_eq!(x.get(), 10);
    assert_eq!(<NonZeroI8 as FromLiteralSigned>::valid_literal(0), Err(LiteralError::Zero));
    assert_eq!(
        <NonZeroI8 as FromLiteralSigned>::valid_literal(-129),
        Err(LiteralError::OutOfRangeNonZero)
    );
    assert_eq!(
        <NonZeroI8 as FromLiteralSigned>::valid_literal(128),
        Err(LiteralError::OutOfRangeNonZero)
    );
    let y: NonZeroI16 = FromLiteralSigned::into_self(-42);
    assert_eq!(y.get(), -42);
    assert_eq!(NonZeroU8::new(0), None);
    assert_eq!(NonZeroI8::new(0), None);
}

#[test]
fn wrapping_takes_the_literals_of_what_it_wraps() {
    let x: Wrapping<u8> = FromLiteralUnsigned::into_self(200);
    assert_eq!(x, Wrapping(200u8));
    assert_eq!(
        <Wrapping<u8> as FromLiteralUnsigned>::valid_literal(256),
        Err(LiteralError::OutOfRange)
    );
    let y: Wrapping<i16> = FromLiteralSigned::into_self(-300);
    assert_eq!(y, Wrapping(-300i16));
    assert_eq!(
        <Wrapping<i8> as FromLiteralSigned>::valid_literal(-129),
        Err(LiteralError::OutOfRange)
    );
    let z: Wrapping<NonZeroU8> = FromLiteralUnsigned::into_self(7);
    assert_eq!(z.0.get(), 7);
}

#[test]
fn bool_literal_is_itself() {
    assert_eq!(<bool as FromLiteralBool>::valid_literal(true), Ok(true));
    assert_eq!(<bool as FromLiteralBool>::valid_literal(false), Ok(false));
    let t: bool = FromLiteralBool::into_self(true);
    let f: bool = FromLiteralBool::into_self(false);
    assert!(t);
    assert!(!f);
}

#[test]
fn string_literal_for_string() {
    let chain = chain_of("bar".as_bytes());
    assert_eq!(<String as FromLiteralStr>::valid_literal(&chain), Ok(String::from("bar")));
    let s: String = FromLiteralStr::into_self(&chain);
    assert_eq!(s, "bar");
    let empty: String = FromLiteralStr::into_self(&TypeStr::nil());
    assert_eq!(empty, "");
}

#[test]
fn greeting_takes_hello_and_goodbye_only() {
    let hello = chain_of("hello".as_bytes());
    assert_eq!(Greeting::valid_literal(&hello), Ok(String::from("hello")));
    assert_eq!(Greeting::into_self(&hello), Greeting::Hello);
    let goodbye = chain_of("goodbye".as_bytes());
    assert_eq!(Greeting::into_self(&goodbye), Greeting::Goodbye);
    let nope = chain_of("nope".as_bytes());
    assert_eq!(Greeting::valid_literal(&nope), Err(LiteralError::Invalid));
    let long = chain_of("hehehehehe".as_bytes());
    assert_eq!(Greeting::valid_literal(&long), Err(LiteralError::Invalid));
    for near in ["", "Hello", "hello ", "hell", "goodby", "goodbye!"] {
        assert_eq!(Greeting::valid_literal(&chain_of(near.as_bytes())), Err(LiteralError::Invalid));
    }
    assert_eq!(Greeting::valid_literal(&goodbye), Ok(String::from("goodbye")));
}

#[test]
fn error_messages() {
    assert_eq!(LiteralError::OutOfRange.message(), "Out of range integer literal");
    assert_eq!(LiteralError::Zero.message(), "NonZero integer literal was 0");
    assert_eq!(LiteralError::OutOfRangeNonZero.message(), "Out of range NonZero integer literal");
    assert_eq!(LiteralError::Invalid.message(), "Invalid literal");
}

#[test]
fn literal_functions_validate_then_make() {
    assert_eq!(unsigned_literal::<u8>(123), Ok(123u8));
    assert_eq!(unsigned_literal::<u8>(1024), Err(LiteralError::OutOfRange));
    assert_eq!(unsigned_literal::<NonZeroU8>(0), Err(LiteralError::Zero));
    assert_eq!(unsigned_literal::<NonZeroU8>(5).map(|n| n.get()), Ok(5));
    assert_eq!(signed_literal::<i8>(-100), Ok(-100i8));
    assert_eq!(signed_literal::<i8>(-1000), Err(LiteralError::OutOfRange));
    assert_eq!(signed_literal::<NonZeroI8>(0), Err(LiteralError::Zero));
    assert_eq!(bool_literal::<bool>(true), Ok(true));
    assert_eq!(str_literal::<String>(&chain_of("baz".as_bytes())), Ok(String::from("baz")));
    assert_eq!(str_literal::<Greeting>(&chain_of("hello".as_bytes())), Ok(Greeting::Hello));
    assert_eq!(
        str_literal::<Greeting>(&chain_of("nope".as_bytes())),
        Err(LiteralError::Invalid)
    );
}
