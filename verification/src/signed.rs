//! The signed-literal protocol for the signed integer types: a literal is taken
//! when it lies in the type's range (and is not `0`, for a type without zero),
//! and stands for the number it writes.

use vstd::prelude::*;
use crate::nonzero::{
    NonZeroI128, NonZeroI16, NonZeroI32, NonZeroI64, NonZeroI8, NonZeroIsize,
};
use crate::{FromLiteralSigned, LiteralError};

verus! {

impl FromLiteralSigned for i8 {
    open spec fn rejection(lit: i128) -> Option<LiteralError> {
        if i8::MIN as int <= lit as int <= i8::MAX as int {
            None
        } else {
            Some(LiteralError::OutOfRange)
        }
    }

    open spec fn materializes(lit: i128, value: i8) -> bool {
        value as int == lit as int
    }

    fn valid_literal(lit: i128) -> (r: Result<i128, LiteralError>) {
        if lit < i8::MIN as i128 || lit > i8::MAX as i128 {
            Err(LiteralError::OutOfRange)
        } else {
            Ok(lit)
        }
    }

    fn into_self(lit: i128) -> (value: i8)
        ensures
            value as int == lit as int,
    {
        lit as i8
    }
}

impl FromLiteralSigned for i16 {
    open spec fn rejection(lit: i128) -> Option<LiteralError> {
        if i16::MIN as int <= lit as int <= i16::MAX as int {
            None
        } else {
            Some(LiteralError::OutOfRange)
        }
    }

    open spec fn materializes(lit: i128, value: i16) -> bool {
        value as int == lit as int
    }

    fn valid_literal(lit: i128) -> (r: Result<i128, LiteralError>) {
        if lit < i16::MIN as i128 || lit > i16::MAX as i128 {
            Err(LiteralError::OutOfRange)
        } else {
            Ok(lit)
        }
    }

    fn into_self(lit: i128) -> (value: i16)
        ensures
            value as int == lit as int,
    {
        lit as i16
    }
}

impl FromLiteralSigned for i32 {
    open spec fn rejection(lit: i128) -> Option<LiteralError> {
        if i32::MIN as int <= lit as int <= i32::MAX as int {
            None
        } else {
            Some(LiteralError::OutOfRange)
        }
    }

    open spec fn materializes(lit: i128, value: i32) -> bool {
        value as int == lit as int
    }

    fn valid_literal(lit: i128) -> (r: Result<i128, LiteralError>) {
        if lit < i32::MIN as i128 || lit > i32::MAX as i128 {
            Err(LiteralError::OutOfRange)
        } else {
            Ok(lit)
        }
    }

    fn into_self(lit: i128) -> (value: i32)
        ensures
            value as int == lit as int,
    {
        lit as i32
    }
}

impl FromLiteralSigned for i64 {
    open spec fn rejection(lit: i128) -> Option<LiteralError> {
        if i64::MIN as int <= lit as int <= i64::MAX as int {
            None
        } else {
            Some(LiteralError::OutOfRange)
        }
    }

    open spec fn materializes(lit: i128, value: i64) -> bool {
        value as int == lit as int
    }

    fn valid_literal(lit: i128) -> (r: Result<i128, LiteralError>) {
        if lit < i64::MIN as i128 || lit > i64::MAX as i128 {
            Err(LiteralError::OutOfRange)
        } else {
            Ok(lit)
        }
    }

    fn into_self(lit: i128) -> (value: i64)
        ensures
            value as int == lit as int,
    {
        lit as i64
    }
}

impl FromLiteralSigned for i128 {
    open spec fn rejection(lit: i128) -> Option<LiteralError> {
        None
    }

    open spec fn materializes(lit: i128, value: i128) -> bool {
        value as int == lit as int
    }

    fn valid_literal(lit: i128) -> (r: Result<i128, LiteralError>) {
        Ok(lit)
    }

    fn into_self(lit: i128) -> (value: i128)
        ensures
            value as int == lit as int,
    {
        lit as i128
    }
}

impl FromLiteralSigned for isize {
    open spec fn rejection(lit: i128) -> Option<LiteralError> {
        if isize::MIN as int <= lit as int <= isize::MAX as int {
            None
        } else {
            Some(LiteralError::OutOfRange)
        }
    }

    open spec fn materializes(lit: i128, value: isize) -> bool {
        value as int == lit as int
    }

    fn valid_literal(lit: i128) -> (r: Result<i128, LiteralError>) {
        if lit < isize::MIN as i128 || lit > isize::MAX as i128 {
            Err(LiteralError::OutOfRange)
        } else {
            Ok(lit)
        }
    }

    fn into_self(lit: i128) -> (value: isize)
        ensures
            value as int == lit as int,
    {
        lit as isize
    }
}

impl FromLiteralSigned for NonZeroI8 {
    open spec fn rejection(lit: i128) -> Option<LiteralError> {
        if lit == 0 {
            Some(LiteralError::Zero)
        } else if !(i8::MIN as int <= lit as int <= i8::MAX as int) {
            Some(LiteralError::OutOfRangeNonZero)
        } else {
            None
        }
    }

    open spec fn materializes(lit: i128, value: NonZeroI8) -> bool {
        value@ as int == lit as int
    }

    fn valid_literal(lit: i128) -> (r: Result<i128, LiteralError>) {
        if lit == 0 {
            Err(LiteralError::Zero)
        } else if lit < i8::MIN as i128 || lit > i8::MAX as i128 {
            Err(LiteralError::OutOfRangeNonZero)
        } else {
            Ok(lit)
        }
    }

    fn into_self(lit: i128) -> (value: NonZeroI8)
        ensures
            value@ as int == lit as int,
    {
        match NonZeroI8::new(lit as i8) {
            Some(value) => value,
            None => unreached(),
        }
    }
}

impl FromLiteralSigned for NonZeroI16 {
    open spec fn rejection(lit: i128) -> Option<LiteralError> {
        if lit == 0 {
            Some(LiteralError::Zero)
        } else if !(i16::MIN as int <= lit as int <= i16::MAX as int) {
            Some(LiteralError::OutOfRangeNonZero)
        } else {
            None
        }
    }

    open spec fn materializes(lit: i128, value: NonZeroI16) -> bool {
        value@ as int == lit as int
    }

    fn valid_literal(lit: i128) -> (r: Result<i128, LiteralError>) {
        if lit == 0 {
            Err(LiteralError::Zero)
        } else if lit < i16::MIN as i128 || lit > i16::MAX as i128 {
            Err(LiteralError::OutOfRangeNonZero)
        } else {
            Ok(lit)
        }
    }

    fn into_self(lit: i128) -> (value: NonZeroI16)
        ensures
            value@ as int == lit as int,
    {
        match NonZeroI16::new(lit as i16) {
            Some(value) => value,
            None => unreached(),
        }
    }
}

impl FromLiteralSigned for NonZeroI32 {
    open spec fn rejection(lit: i128) -> Option<LiteralError> {
        if lit == 0 {
            Some(LiteralError::Zero)
        } else if !(i32::MIN as int <= lit as int <= i32::MAX as int) {
            Some(LiteralError::OutOfRangeNonZero)
        } else {
            None
        }
    }

    open spec fn materializes(lit: i128, value: NonZeroI32) -> bool {
        value@ as int == lit as int
    }

    fn valid_literal(lit: i128) -> (r: Result<i128, LiteralError>) {
        if lit == 0 {
            Err(LiteralError::Zero)
        } else if lit < i32::MIN as i128 || lit > i32::MAX as i128 {
            Err(LiteralError::OutOfRangeNonZero)
        } else {
            Ok(lit)
        }
    }

    fn into_self(lit: i128) -> (value: NonZeroI32)
        ensures
            value@ as int == lit as int,
    {
        match NonZeroI32::new(lit as i32) {
            Some(value) => value,
            None => unreached(),
        }
    }
}

impl FromLiteralSigned for NonZeroI64 {
    open spec fn rejection(lit: i128) -> Option<LiteralError> {
        if lit == 0 {
            Some(LiteralError::Zero)
        } else if !(i64::MIN as int <= lit as int <= i64::MAX as int) {
            Some(LiteralError::OutOfRangeNonZero)
        } else {
            None
        }
    }

    open spec fn materializes(lit: i128, value: NonZeroI64) -> bool {
        value@ as int == lit as int
    }

    fn valid_literal(lit: i128) -> (r: Result<i128, LiteralError>) {
        if lit == 0 {
            Err(LiteralError::Zero)
        } else if lit < i64::MIN as i128 || lit > i64::MAX as i128 {
            Err(LiteralError::OutOfRangeNonZero)
        } else {
            Ok(lit)
        }
    }

    fn into_self(lit: i128) -> (value: NonZeroI64)
        ensures
            value@ as int == lit as int,
    {
        match NonZeroI64::new(lit as i64) {
            Some(value) => value,
            None => unreached(),
        }
    }
}

impl FromLiteralSigned for NonZeroI128 {
    open spec fn rejection(lit: i128) -> Option<LiteralError> {
        if lit == 0 {
            Some(LiteralError::Zero)
        } else {
            None
        }
    }

    open spec fn materializes(lit: i128, value: NonZeroI128) -> bool {
        value@ as int == lit as int
    }

    fn valid_literal(lit: i128) -> (r: Result<i128, LiteralError>) {
        if lit == 0 {
            Err(LiteralError::Zero)
        } else {
            Ok(lit)
        }
    }

    fn into_self(lit: i128) -> (value: NonZeroI128)
        ensures
            value@ as int == lit as int,
    {
        match NonZeroI128::new(lit as i128) {
            Some(value) => value,
            None => unreached(),
        }
    }
}

impl FromLiteralSigned for NonZeroIsize {
    open spec fn rejection(lit: i128) -> Option<LiteralError> {
        if lit == 0 {
            Some(LiteralError::Zero)
        } else if !(isize::MIN as int <= lit as int <= isize::MAX as int) {
            Some(LiteralError::OutOfRangeNonZero)
        } else {
            None
        }
    }

    open spec fn materializes(lit: i128, value: NonZeroIsize) -> bool {
        value@ as int == lit as int
    }

    fn valid_literal(lit: i128) -> (r: Result<i128, LiteralError>) {
        if lit == 0 {
            Err(LiteralError::Zero)
        } else if lit < isize::MIN as i128 || lit > isize::MAX as i128 {
            Err(LiteralError::OutOfRangeNonZero)
        } else {
            Ok(lit)
        }
    }

    fn into_self(lit: i128) -> (value: NonZeroIsize)
        ensures
            value@ as int == lit as int,
    {
        match NonZeroIsize::new(lit as isize) {
            Some(value) => value,
            None => unreached(),
        }
    }
}

} // verus!
