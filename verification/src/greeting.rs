//! A target type with a rule of its own for string literals: a greeting, written
//! `"hello"` or `"goodbye"` and nothing else.

use vstd::prelude::*;
use vstd::utf8::*;
use crate::type_str::TypeStr;
use crate::{FromLiteralStr, LiteralError};

verus! {

/// A greeting.
#[derive(Clone, Copy, Debug, PartialEq, Eq, Structural)]
pub enum Greeting {
    Hello,
    Goodbye,
}

/// The greeting that a text writes, if it writes one.
pub open spec fn greeting_written(text: Seq<char>) -> Option<Greeting> {
    if text == "hello"@ {
        Some(Greeting::Hello)
    } else if text == "goodbye"@ {
        Some(Greeting::Goodbye)
    } else {
        None
    }
}

impl FromLiteralStr for Greeting {
    open spec fn rejection(bytes: Seq<u8>) -> Option<LiteralError> {
        if greeting_written(decode_utf8(bytes)) is Some {
            None
        } else {
            Some(LiteralError::Invalid)
        }
    }

    open spec fn materializes(bytes: Seq<u8>, value: Greeting) -> bool {
        greeting_written(decode_utf8(bytes)) == Some(value)
    }

    fn valid_literal(tstr: &TypeStr) -> (r: Result<String, LiteralError>) {
        let val = tstr.str();
        if val == "hello".to_owned() || val == "goodbye".to_owned() {
            Ok(val)
        } else {
            Err(LiteralError::Invalid)
        }
    }

    fn into_self(tstr: &TypeStr) -> (value: Greeting) {
        let val = tstr.str();
        if val == "hello".to_owned() {
            Greeting::Hello
        } else {
            Greeting::Goodbye
        }
    }
}

} // verus!
