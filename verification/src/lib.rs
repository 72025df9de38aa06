//! Literals typed as arbitrary target types: a rewriting pass over a function's
//! expression tree, a byte-chain encoding of string literals, and the protocols
//! through which a target type validates and materializes a literal.

use vstd::prelude::*;
use vstd::utf8::*;

pub mod greeting;
pub mod nonzero;
pub mod rewrite;
mod sealed;
pub mod signed;
pub mod syntax;
pub mod type_str;
pub mod unsigned;
pub mod wrapping;

pub use rewrite::overloaded_literals;
pub use type_str::TypeStr;

verus! {

/// Why a literal is not a literal of the target type.
#[derive(Clone, Copy, Debug, PartialEq, Eq, Structural)]
pub enum LiteralError {
    /// An integer literal outside the target type's range.
    OutOfRange,
    /// The literal `0` for a type without zero.
    Zero,
    /// An integer literal outside the range of a type without zero.
    OutOfRangeNonZero,
    /// A literal that the target type's own rule turns down.
    Invalid,
}

impl LiteralError {
    /// The diagnostic text of each error.
    pub open spec fn message_spec(self) -> Seq<char> {
        match self {
            LiteralError::OutOfRange => "Out of range integer literal"@,
            LiteralError::Zero => "NonZero integer literal was 0"@,
            LiteralError::OutOfRangeNonZero => "Out of range NonZero integer literal"@,
            LiteralError::Invalid => "Invalid literal"@,
        }
    }

    /// The diagnostic text of this error.
    pub fn message(&self) -> (text: &'static str)
        ensures
            text@ == self.message_spec(),
    {
        match self {
            LiteralError::OutOfRange => "Out of range integer literal",
            LiteralError::Zero => "NonZero integer literal was 0",
            LiteralError::OutOfRangeNonZero => "Out of range NonZero integer literal",
            LiteralError::Invalid => "Invalid literal",
        }
    }
}

/// Build a value from an unsigned integer literal (`0`, `1`, `2`, ...).
///
/// `valid_literal` validates: it hands the literal back, or says why the literal
/// is turned down. `into_self` makes the value, and may only be called on a
/// literal that `valid_literal` hands back: a verified caller has to show so
/// before the program runs.
pub trait FromLiteralUnsigned: Sized {
    /// Why `lit` is turned down; `None` where it is a literal of this type.
    spec fn rejection(lit: u128) -> Option<LiteralError>;

    /// `value` is what the literal `lit` stands for.
    spec fn materializes(lit: u128, value: Self) -> bool;

    fn valid_literal(lit: u128) -> (r: Result<u128, LiteralError>)
        ensures
            r == (match Self::rejection(lit) {
                None => Ok::<u128, LiteralError>(lit),
                Some(e) => Err(e),
            }),
    ;

    fn into_self(lit: u128) -> (value: Self)
        requires
            Self::rejection(lit) is None,
        ensures
            Self::materializes(lit, value),
    ;
}

/// Build a value from a signed integer literal (`-1`, `-2`, `-3`, ...).
///
/// A type that also takes literals without a sign implements
/// [`FromLiteralUnsigned`] as well. `valid_literal` and `into_self` stand to each
/// other as they do there.
pub trait FromLiteralSigned: Sized {
    /// Why `lit` is turned down; `None` where it is a literal of this type.
    spec fn rejection(lit: i128) -> Option<LiteralError>;

    /// `value` is what the literal `lit` stands for.
    spec fn materializes(lit: i128, value: Self) -> bool;

    fn valid_literal(lit: i128) -> (r: Result<i128, LiteralError>)
        ensures
            r == (match Self::rejection(lit) {
                None => Ok::<i128, LiteralError>(lit),
                Some(e) => Err(e),
            }),
    ;

    fn into_self(lit: i128) -> (value: Self)
        requires
            Self::rejection(lit) is None,
        ensures
            Self::materializes(lit, value),
    ;
}

/// Build a value from a boolean literal (`false` or `true`).
pub trait FromLiteralBool: Sized {
    /// Why `lit` is turned down; `None` where it is a literal of this type.
    spec fn rejection(lit: bool) -> Option<LiteralError>;

    /// `value` is what the literal `lit` stands for.
    spec fn materializes(lit: bool, value: Self) -> bool;

    fn valid_literal(lit: bool) -> (r: Result<bool, LiteralError>)
        ensures
            r == (match Self::rejection(lit) {
                None => Ok::<bool, LiteralError>(lit),
                Some(e) => Err(e),
            }),
    ;

    fn into_self(lit: bool) -> (value: Self)
        requires
            Self::rejection(lit) is None,
        ensures
            Self::materializes(lit, value),
    ;
}

/// Build a value from a string literal, given as the chain of its bytes.
///
/// `valid_literal` reads the literal's text back from the chain and hands it
/// back, or says why the literal is turned down.
pub trait FromLiteralStr: Sized {
    /// Why the literal with these bytes is turned down; `None` where it is a
    /// literal of this type.
    spec fn rejection(bytes: Seq<u8>) -> Option<LiteralError>;

    /// `value` is what the literal with these bytes stands for.
    spec fn materializes(bytes: Seq<u8>, value: Self) -> bool;

    fn valid_literal(tstr: &TypeStr) -> (r: Result<String, LiteralError>)
        requires
            tstr.is_text(),
        ensures
            match Self::rejection(tstr@) {
                None => r is Ok && encode_utf8(r->Ok_0@) == tstr@,
                Some(e) => r == Err::<String, LiteralError>(e),
            },
    ;

    fn into_self(tstr: &TypeStr) -> (value: Self)
        requires
            tstr.is_text(),
            Self::rejection(tstr@) is None,
        ensures
            Self::materializes(tstr@, value),
    ;
}

/// The value of type `T` that the unsigned literal `lit` stands for, or why `T`
/// turns the literal down.
pub fn unsigned_literal<T: FromLiteralUnsigned>(lit: u128) -> (r: Result<T, LiteralError>)
    ensures
        match T::rejection(lit) {
            None => r is Ok && T::materializes(lit, r->Ok_0),
            Some(e) => r is Err && r->Err_0 == e,
        },
{
    match T::valid_literal(lit) {
        Ok(valid) => Ok(T::into_self(valid)),
        Err(e) => Err(e),
    }
}

/// The value of type `T` that the signed literal `lit` stands for, or why `T`
/// turns the literal down.
pub fn signed_literal<T: FromLiteralSigned>(lit: i128) -> (r: Result<T, LiteralError>)
    ensures
        match T::rejection(lit) {
            None => r is Ok && T::materializes(lit, r->Ok_0),
            Some(e) => r is Err && r->Err_0 == e,
        },
{
    match T::valid_literal(lit) {
        Ok(valid) => Ok(T::into_self(valid)),
        Err(e) => Err(e),
    }
}

/// The value of type `T` that the boolean literal `lit` stands for, or why `T`
/// turns the literal down.
pub fn bool_literal<T: FromLiteralBool>(lit: bool) -> (r: Result<T, LiteralError>)
    ensures
        match T::rejection(lit) {
            None => r is Ok && T::materializes(lit, r->Ok_0),
            Some(e) => r is Err && r->Err_0 == e,
        },
{
    match T::valid_literal(lit) {
        Ok(valid) => Ok(T::into_self(valid)),
        Err(e) => Err(e),
    }
}

/// The value of type `T` that the string literal with the chain `tstr` stands
/// for, or why `T` turns the literal down.
pub fn str_literal<T: FromLiteralStr>(tstr: &TypeStr) -> (r: Result<T, LiteralError>)
    requires
        tstr.is_text(),
    ensures
        match T::rejection(tstr@) {
            None => r is Ok && T::materializes(tstr@, r->Ok_0),
            Some(e) => r is Err && r->Err_0 == e,
        },
{
    match T::valid_literal(tstr) {
        Ok(_) => Ok(T::into_self(tstr)),
        Err(e) => Err(e),
    }
}

impl FromLiteralBool for bool {
    open spec fn rejection(lit: bool) -> Option<LiteralError> {
        None
    }

    open spec fn materializes(lit: bool, value: bool) -> bool {
        value == lit
    }

    fn valid_literal(lit: bool) -> (r: Result<bool, LiteralError>) {
        Ok(lit)
    }

    fn into_self(lit: bool) -> (value: bool) {
        lit
    }
}

impl FromLiteralStr for String {
    open spec fn rejection(bytes: Seq<u8>) -> Option<LiteralError> {
        None
    }

    open spec fn materializes(bytes: Seq<u8>, value: String) -> bool {
        encode_utf8(value@) == bytes
    }

    fn valid_literal(tstr: &TypeStr) -> (r: Result<String, LiteralError>) {
        Ok(tstr.str())
    }

    fn into_self(tstr: &TypeStr) -> (value: String) {
        tstr.str()
    }
}

} // verus!
