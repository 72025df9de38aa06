//! The unsigned-literal protocol for the integer types: a literal is taken when
//! it lies in the type's range (and is not `0`, for a type without zero), and
//! stands for the number it writes.

use vstd::prelude::*;
use crate::nonzero::{
    NonZeroI128, NonZeroI16, NonZeroI32, NonZeroI64, NonZeroI8, NonZeroIsize, NonZeroU128,
    NonZeroU16, NonZeroU32, NonZeroU64, NonZeroU8, NonZeroUsize,
};
use crate::{FromLiteralUnsigned, LiteralError};

verus! {

impl FromLiteralUnsigned for u8 {
    open spec fn rejection(lit: u128) -> Option<LiteralError> {
        if lit as int <= u8::MAX as int {
            None
        } else {
            Some(LiteralError::OutOfRange)
        }
    }

    open spec fn materializes(lit: u128, value: u8) -> bool {
        value as int == lit as int
    }

    fn valid_literal(lit: u128) -> (r: Result<u128, LiteralError>) {
        if lit > u8::MAX as u128 {
            Err(LiteralError::OutOfRange)
        } else {
            Ok(lit)
        }
    }

    fn into_self(lit: u128) -> (value: u8)
        ensures
            value as int == lit as int,
    {
        lit as u8
    }
}

impl FromLiteralUnsigned for u16 {
    open spec fn rejection(lit: u128) -> Option<LiteralError> {
        if lit as int <= u16::MAX as int {
            None
        } else {
            Some(LiteralError::OutOfRange)
        }
    }

    open spec fn materializes(lit: u128, value: u16) -> bool {
        value as int == lit as int
    }

    fn valid_literal(lit: u128) -> (r: Result<u128, LiteralError>) {
        if lit > u16::MAX as u128 {
            Err(LiteralError::OutOfRange)
        } else {
            Ok(lit)
        }
    }

    fn into_self(lit: u128) -> (value: u16)
        ensures
            value as int == lit as int,
    {
        lit as u16
    }
}

impl FromLiteralUnsigned for u32 {
    open spec fn rejection(lit: u128) -> Option<LiteralError> {
        if lit as int <= u32::MAX as int {
            None
        } else {
            Some(LiteralError::OutOfRange)
        }
    }

    open spec fn materializes(lit: u128, value: u32) -> bool {
        value as int == lit as int
    }

    fn valid_literal(lit: u128) -> (r: Result<u128, LiteralError>) {
        if lit > u32::MAX as u128 {
            Err(LiteralError::OutOfRange)
        } else {
            Ok(lit)
        }
    }

    fn into_self(lit: u128) -> (value: u32)
        ensures
            value as int == lit as int,
    {
        lit as u32
    }
}

impl FromLiteralUnsigned for u64 {
    open spec fn rejection(lit: u128) -> Option<LiteralError> {
        if lit as int <= u64::MAX as int {
            None
        } else {
            Some(LiteralError::OutOfRange)
        }
    }

    open spec fn materializes(lit: u128, value: u64) -> bool {
        value as int == lit as int
    }

    fn valid_literal(lit: u128) -> (r: Result<u128, LiteralError>) {
        if lit > u64::MAX as u128 {
            Err(LiteralError::OutOfRange)
        } else {
            Ok(lit)
        }
    }

    fn into_self(lit: u128) -> (value: u64)
        ensures
            value as int == lit as int,
    {
        lit as u64
    }
}

impl FromLiteralUnsigned for u128 {
    open spec fn rejection(lit: u128) -> Option<LiteralError> {
        None
    }

    open spec fn materializes(lit: u128, value: u128) -> bool {
        value as int == lit as int
    }

    fn valid_literal(lit: u128) -> (r: Result<u128, LiteralError>) {
        Ok(lit)
    }

    fn into_self(lit: u128) -> (value: u128)
        ensures
            value as int == lit as int,
    {
        lit as u128
    }
}

impl FromLiteralUnsigned for usize {
    open spec fn rejection(lit: u128) -> Option<LiteralError> {
        if lit as int <= usize::MAX as int {
            None
        } else {
            Some(LiteralError::OutOfRange)
        }
    }

    open spec fn materializes(lit: u128, value: usize) -> bool {
        value as int == lit as int
    }

    fn valid_literal(lit: u128) -> (r: Result<u128, LiteralError>) {
        if lit > usize::MAX as u128 {
            Err(LiteralError::OutOfRange)
        } else {
            Ok(lit)
        }
    }

    fn into_self(lit: u128) -> (value: usize)
        ensures
            value as int == lit as int,
    {
        lit as usize
    }
}

impl FromLiteralUnsigned for i8 {
    open spec fn rejection(lit: u128) -> Option<LiteralError> {
        if lit as int <= i8::MAX as int {
            None
        } else {
            Some(LiteralError::OutOfRange)
        }
    }

    open spec fn materializes(lit: u128, value: i8) -> bool {
        value as int == lit as int
    }

    fn valid_literal(lit: u128) -> (r: Result<u128, LiteralError>) {
        if lit > i8::MAX as u128 {
            Err(LiteralError::OutOfRange)
        } else {
            Ok(lit)
        }
    }

    fn into_self(lit: u128) -> (value: i8)
        ensures
            value as int == lit as int,
    {
        lit as i8
    }
}

impl FromLiteralUnsigned for i16 {
    open spec fn rejection(lit: u128) -> Option<LiteralError> {
        if lit as int <= i16::MAX as int {
            None
        } else {
            Some(LiteralError::OutOfRange)
        }
    }

    open spec fn materializes(lit: u128, value: i16) -> bool {
        value as int == lit as int
    }

    fn valid_literal(lit: u128) -> (r: Result<u128, LiteralError>) {
        if lit > i16::MAX as u128 {
            Err(LiteralError::OutOfRange)
        } else {
            Ok(lit)
        }
    }

    fn into_self(lit: u128) -> (value: i16)
        ensures
            value as int == lit as int,
    {
        lit as i16
    }
}

impl FromLiteralUnsigned for i32 {
    open spec fn rejection(lit: u128) -> Option<LiteralError> {
        if lit as int <= i32::MAX as int {
            None
        } else {
            Some(LiteralError::OutOfRange)
        }
    }

    open spec fn materializes(lit: u128, value: i32) -> bool {
        value as int == lit as int
    }

    fn valid_literal(lit: u128) -> (r: Result<u128, LiteralError>) {
        if lit > i32::MAX as u128 {
            Err(LiteralError::OutOfRange)
        } else {
            Ok(lit)
        }
    }

    fn into_self(lit: u128) -> (value: i32)
        ensures
            value as int == lit as int,
    {
        lit as i32
    }
}

impl FromLiteralUnsigned for i64 {
    open spec fn rejection(lit: u128) -> Option<LiteralError> {
        if lit as int <= i64::MAX as int {
            None
        } else {
            Some(LiteralError::OutOfRange)
        }
    }

    open spec fn materializes(lit: u128, value: i64) -> bool {
        value as int == lit as int
    }

    fn valid_literal(lit: u128) -> (r: Result<u128, LiteralError>) {
        if lit > i64::MAX as u128 {
            Err(LiteralError::OutOfRange)
        } else {
            Ok(lit)
        }
    }

    fn into_self(lit: u128) -> (value: i64)
        ensures
            value as int == lit as int,
    {
        lit as i64
    }
}

impl FromLiteralUnsigned for i128 {
    open spec fn rejection(lit: u128) -> Option<LiteralError> {
        if lit as int <= i128::MAX as int {
            None
        } else {
            Some(LiteralError::OutOfRange)
        }
    }

    open spec fn materializes(lit: u128, value: i128) -> bool {
        value as int == lit as int
    }

    fn valid_literal(lit: u128) -> (r: Result<u128, LiteralError>) {
        if lit > i128::MAX as u128 {
            Err(LiteralError::OutOfRange)
        } else {
            Ok(lit)
        }
    }

    fn into_self(lit: u128) -> (value: i128)
        ensures
            value as int == lit as int,
    {
        lit as i128
    }
}

impl FromLiteralUnsigned for isize {
    open spec fn rejection(lit: u128) -> Option<LiteralError> {
        if lit as int <= isize::MAX as int {
            None
        } else {
            Some(LiteralError::OutOfRange)
        }
    }

    open spec fn materializes(lit: u128, value: isize) -> bool {
        value as int == lit as int
    }

    fn valid_literal(lit: u128) -> (r: Result<u128, LiteralError>) {
        if lit > isize::MAX as u128 {
            Err(LiteralError::OutOfRange)
        } else {
            Ok(lit)
        }
    }

    fn into_self(lit: u128) -> (value: isize)
        ensures
            value as int == lit as int,
    {
        lit as isize
    }
}

impl FromLiteralUnsigned for NonZeroU8 {
    open spec fn rejection(lit: u128) -> Option<LiteralError> {
        if lit == 0 {
            Some(LiteralError::Zero)
        } else if lit as int > u8::MAX as int {
            Some(LiteralError::OutOfRangeNonZero)
        } else {
            None
        }
    }

    open spec fn materializes(lit: u128, value: NonZeroU8) -> bool {
        value@ as int == lit as int
    }

    fn valid_literal(lit: u128) -> (r: Result<u128, LiteralError>) {
        if lit == 0 {
            Err(LiteralError::Zero)
        } else if lit > u8::MAX as u128 {
            Err(LiteralError::OutOfRangeNonZero)
        } else {
            Ok(lit)
        }
    }

    fn into_self(lit: u128) -> (value: NonZeroU8)
        ensures
            value@ as int == lit as int,
    {
        match NonZeroU8::new(lit as u8) {
            Some(value) => value,
            None => unreached(),
        }
    }
}

impl FromLiteralUnsigned for NonZeroU16 {
    open spec fn rejection(lit: u128) -> Option<LiteralError> {
        if lit == 0 {
            Some(LiteralError::Zero)
        } else if lit as int > u16::MAX as int {
            Some(LiteralError::OutOfRangeNonZero)
        } else {
            None
        }
    }

    open spec fn materializes(lit: u128, value: NonZeroU16) -> bool {
        value@ as int == lit as int
    }

    fn valid_literal(lit: u128) -> (r: Result<u128, LiteralError>) {
        if lit == 0 {
            Err(LiteralError::Zero)
        } else if lit > u16::MAX as u128 {
            Err(LiteralError::OutOfRangeNonZero)
        } else {
            Ok(lit)
        }
    }

    fn into_self(lit: u128) -> (value: NonZeroU16)
        ensures
            value@ as int == lit as int,
    {
        match NonZeroU16::new(lit as u16) {
            Some(value) => value,
            None => unreached(),
        }
    }
}

impl FromLiteralUnsigned for NonZeroU32 {
    open spec fn rejection(lit: u128) -> Option<LiteralError> {
        if lit == 0 {
            Some(LiteralError::Zero)
        } else if lit as int > u32::MAX as int {
            Some(LiteralError::OutOfRangeNonZero)
        } else {
            None
        }
    }

    open spec fn materializes(lit: u128, value: NonZeroU32) -> bool {
        value@ as int == lit as int
    }

    fn valid_literal(lit: u128) -> (r: Result<u128, LiteralError>) {
        if lit == 0 {
            Err(LiteralError::Zero)
        } else if lit > u32::MAX as u128 {
            Err(LiteralError::OutOfRangeNonZero)
        } else {
            Ok(lit)
        }
    }

    fn into_self(lit: u128) -> (value: NonZeroU32)
        ensures
            value@ as int == lit as int,
    {
        match NonZeroU32::new(lit as u32) {
            Some(value) => value,
            None => unreached(),
        }
    }
}

impl FromLiteralUnsigned for NonZeroU64 {
    open spec fn rejection(lit: u128) -> Option<LiteralError> {
        if lit == 0 {
            Some(LiteralError::Zero)
        } else if lit as int > u64::MAX as int {
            Some(LiteralError::OutOfRangeNonZero)
        } else {
            None
        }
    }

    open spec fn materializes(lit: u128, value: NonZeroU64) -> bool {
        value@ as int == lit as int
    }

    fn valid_literal(lit: u128) -> (r: Result<u128, LiteralError>) {
        if lit == 0 {
            Err(LiteralError::Zero)
        } else if lit > u64::MAX as u128 {
            Err(LiteralError::OutOfRangeNonZero)
        } else {
            Ok(lit)
        }
    }

    fn into_self(lit: u128) -> (value: NonZeroU64)
        ensures
            value@ as int == lit as int,
    {
        match NonZeroU64::new(lit as u64) {
            Some(value) => value,
            None => unreached(),
        }
    }
}

impl FromLiteralUnsigned for NonZeroU128 {
    open spec fn rejection(lit: u128) -> Option<LiteralError> {
        if lit == 0 {
            Some(LiteralError::Zero)
        } else {
            None
        }
    }

    open spec fn materializes(lit: u128, value: NonZeroU128) -> bool {
        value@ as int == lit as int
    }

    fn valid_literal(lit: u128) -> (r: Result<u128, LiteralError>) {
        if lit == 0 {
            Err(LiteralError::Zero)
        } else {
            Ok(lit)
        }
    }

    fn into_self(lit: u128) -> (value: NonZeroU128)
        ensures
            value@ as int == lit as int,
    {
        match NonZeroU128::new(lit as u128) {
            Some(value) => value,
            None => unreached(),
        }
    }
}

impl FromLiteralUnsigned for NonZeroUsize {
    open spec fn rejection(lit: u128) -> Option<LiteralError> {
        if lit == 0 {
            Some(LiteralError::Zero)
        } else if lit as int > usize::MAX as int {
            Some(LiteralError::OutOfRangeNonZero)
        } else {
            None
        }
    }

    open spec fn materializes(lit: u128, value: NonZeroUsize) -> bool {
        value@ as int == lit as int
    }

    fn valid_literal(lit: u128) -> (r: Result<u128, LiteralError>) {
        if lit == 0 {
            Err(LiteralError::Zero)
        } else if lit > usize::MAX as u128 {
            Err(LiteralError::OutOfRangeNonZero)
        } else {
            Ok(lit)
        }
    }

    fn into_self(lit: u128) -> (value: NonZeroUsize)
        ensures
            value@ as int == lit as int,
    {
        match NonZeroUsize::new(lit as usize) {
            Some(value) => value,
            None => unreached(),
        }
    }
}

impl FromLiteralUnsigned for NonZeroI8 {
    open spec fn rejection(lit: u128) -> Option<LiteralError> {
        if lit == 0 {
            Some(LiteralError::Zero)
        } else if lit as int > i8::MAX as int {
            Some(LiteralError::OutOfRangeNonZero)
        } else {
            None
        }
    }

    open spec fn materializes(lit: u128, value: NonZeroI8) -> bool {
        value@ as int == lit as int
    }

    fn valid_literal(lit: u128) -> (r: Result<u128, LiteralError>) {
        if lit == 0 {
            Err(LiteralError::Zero)
        } else if lit > i8::MAX as u128 {
            Err(LiteralError::OutOfRangeNonZero)
        } else {
            Ok(lit)
        }
    }

    fn into_self(lit: u128) -> (value: NonZeroI8)
        ensures
            value@ as int == lit as int,
    {
        match NonZeroI8::new(lit as i8) {
            Some(value) => value,
            None => unreached(),
        }
    }
}

impl FromLiteralUnsigned for NonZeroI16 {
    open spec fn rejection(lit: u128) -> Option<LiteralError> {
        if lit == 0 {
            Some(LiteralError::Zero)
        } else if lit as int > i16::MAX as int {
            Some(LiteralError::OutOfRangeNonZero)
        } else {
            None
        }
    }

    open spec fn materializes(lit: u128, value: NonZeroI16) -> bool {
        value@ as int == lit as int
    }

    fn valid_literal(lit: u128) -> (r: Result<u128, LiteralError>) {
        if lit == 0 {
            Err(LiteralError::Zero)
        } else if lit > i16::MAX as u128 {
            Err(LiteralError::OutOfRangeNonZero)
        } else {
            Ok(lit)
        }
    }

    fn into_self(lit: u128) -> (value: NonZeroI16)
        ensures
            value@ as int == lit as int,
    {
        match NonZeroI16::new(lit as i16) {
            Some(value) => value,
            None => unreached(),
        }
    }
}

impl FromLiteralUnsigned for NonZeroI32 {
    open spec fn rejection(lit: u128) -> Option<LiteralError> {
        if lit == 0 {
            Some(LiteralError::Zero)
        } else if lit as int > i32::MAX as int {
            Some(LiteralError::OutOfRangeNonZero)
        } else {
            None
        }
    }

    open spec fn materializes(lit: u128, value: NonZeroI32) -> bool {
        value@ as int == lit as int
    }

    fn valid_literal(lit: u128) -> (r: Result<u128, LiteralError>) {
        if lit == 0 {
            Err(LiteralError::Zero)
        } else if lit > i32::MAX as u128 {
            Err(LiteralError::OutOfRangeNonZero)
        } else {
            Ok(lit)
        }
    }

    fn into_self(lit: u128) -> (value: NonZeroI32)
        ensures
            value@ as int == lit as int,
    {
        match NonZeroI32::new(lit as i32) {
            Some(value) => value,
            None => unreached(),
        }
    }
}

impl FromLiteralUnsigned for NonZeroI64 {
    open spec fn rejection(lit: u128) -> Option<LiteralError> {
        if lit == 0 {
            Some(LiteralError::Zero)
        } else if lit as int > i64::MAX as int {
            Some(LiteralError::OutOfRangeNonZero)
        } else {
            None
        }
    }

    open spec fn materializes(lit: u128, value: NonZeroI64) -> bool {
        value@ as int == lit as int
    }

    fn valid_literal(lit: u128) -> (r: Result<u128, LiteralError>) {
        if lit == 0 {
            Err(LiteralError::Zero)
        } else if lit > i64::MAX as u128 {
            Err(LiteralError::OutOfRangeNonZero)
        } else {
            Ok(lit)
        }
    }

    fn into_self(lit: u128) -> (value: NonZeroI64)
        ensures
            value@ as int == lit as int,
    {
        match NonZeroI64::new(lit as i64) {
            Some(value) => value,
            None => unreached(),
        }
    }
}

impl FromLiteralUnsigned for NonZeroI128 {
    open spec fn rejection(lit: u128) -> Option<LiteralError> {
        if lit == 0 {
            Some(LiteralError::Zero)
        } else if lit as int > i128::MAX as int {
            Some(LiteralError::OutOfRangeNonZero)
        } else {
            None
        }
    }

    open spec fn materializes(lit: u128, value: NonZeroI128) -> bool {
        value@ as int == lit as int
    }

    fn valid_literal(lit: u128) -> (r: Result<u128, LiteralError>) {
        if lit == 0 {
            Err(LiteralError::Zero)
        } else if lit > i128::MAX as u128 {
            Err(LiteralError::OutOfRangeNonZero)
        } else {
            Ok(lit)
        }
    }

    fn into_self(lit: u128) -> (value: NonZeroI128)
        ensures
            value@ as int == lit as int,
    {
        match NonZeroI128::new(lit as i128) {
            Some(value) => value,
            None => unreached(),
        }
    }
}

impl FromLiteralUnsigned for NonZeroIsize {
    open spec fn rejection(lit: u128) -> Option<LiteralError> {
        if lit == 0 {
            Some(LiteralError::Zero)
        } else if lit as int > isize::MAX as int {
            Some(LiteralError::OutOfRangeNonZero)
        } else {
            None
        }
    }

    open spec fn materializes(lit: u128, value: NonZeroIsize) -> bool {
        value@ as int == lit as int
    }

    fn valid_literal(lit: u128) -> (r: Result<u128, LiteralError>) {
        if lit == 0 {
            Err(LiteralError::Zero)
        } else if lit > isize::MAX as u128 {
            Err(LiteralError::OutOfRangeNonZero)
        } else {
            Ok(lit)
        }
    }

    fn into_self(lit: u128) -> (value: NonZeroIsize)
        ensures
            value@ as int == lit as int,
    {
        match NonZeroIsize::new(lit as isize) {
            Some(value) => value,
            None => unreached(),
        }
    }
}

} // verus!
