//! Integers that are never zero.
//!
//! They stand where `core::num::NonZero` would: verified code cannot name that
//! type, because the bound on its parameter is a trait that cannot be declared to
//! the verifier. Each type here holds its integer under a type invariant, and
//! `get` hands the integer out for a conversion.

use vstd::prelude::*;

verus! {

/// A `u8` that is never zero.
#[derive(Clone, Copy, Debug, PartialEq, Eq)]
pub struct NonZeroU8 {
    raw: u8,
}

impl View for NonZeroU8 {
    type V = u8;

    closed spec fn view(&self) -> u8 {
        self.raw
    }
}

impl NonZeroU8 {
    #[verifier::type_invariant]
    spec fn nonzero(self) -> bool {
        self.raw != 0
    }

    /// The value `raw`, unless it is zero.
    pub fn new(raw: u8) -> (r: Option<NonZeroU8>)
        ensures
            raw == 0 ==> r is None,
            raw != 0 ==> r is Some && r->0@ == raw,
    {
        if raw == 0 {
            None
        } else {
            Some(NonZeroU8 { raw })
        }
    }

    /// The integer held.
    pub fn get(&self) -> (raw: u8)
        ensures
            raw == self@,
            raw != 0,
    {
        proof {
            use_type_invariant(self);
        }
        self.raw
    }
}

/// A `u16` that is never zero.
#[derive(Clone, Copy, Debug, PartialEq, Eq)]
pub struct NonZeroU16 {
    raw: u16,
}

impl View for NonZeroU16 {
    type V = u16;

    closed spec fn view(&self) -> u16 {
        self.raw
    }
}

impl NonZeroU16 {
    #[verifier::type_invariant]
    spec fn nonzero(self) -> bool {
        self.raw != 0
    }

    /// The value `raw`, unless it is zero.
    pub fn new(raw: u16) -> (r: Option<NonZeroU16>)
        ensures
            raw == 0 ==> r is None,
            raw != 0 ==> r is Some && r->0@ == raw,
    {
        if raw == 0 {
            None
        } else {
            Some(NonZeroU16 { raw })
        }
    }

    /// The integer held.
    pub fn get(&self) -> (raw: u16)
        ensures
            raw == self@,
            raw != 0,
    {
        proof {
            use_type_invariant(self);
        }
        self.raw
    }
}

/// A `u32` that is never zero.
#[derive(Clone, Copy, Debug, PartialEq, Eq)]
pub struct NonZeroU32 {
    raw: u32,
}

impl View for NonZeroU32 {
    type V = u32;

    closed spec fn view(&self) -> u32 {
        self.raw
    }
}

impl NonZeroU32 {
    #[verifier::type_invariant]
    spec fn nonzero(self) -> bool {
        self.raw != 0
    }

    /// The value `raw`, unless it is zero.
    pub fn new(raw: u32) -> (r: Option<NonZeroU32>)
        ensures
            raw == 0 ==> r is None,
            raw != 0 ==> r is Some && r->0@ == raw,
    {
        if raw == 0 {
            None
        } else {
            Some(NonZeroU32 { raw })
        }
    }

    /// The integer held.
    pub fn get(&self) -> (raw: u32)
        ensures
            raw == self@,
            raw != 0,
    {
        proof {
            use_type_invariant(self);
        }
        self.raw
    }
}

/// A `u64` that is never zero.
#[derive(Clone, Copy, Debug, PartialEq, Eq)]
pub struct NonZeroU64 {
    raw: u64,
}

impl View for NonZeroU64 {
    type V = u64;

    closed spec fn view(&self) -> u64 {
        self.raw
    }
}

impl NonZeroU64 {
    #[verifier::type_invariant]
    spec fn nonzero(self) -> bool {
        self.raw != 0
    }

    /// The value `raw`, unless it is zero.
    pub fn new(raw: u64) -> (r: Option<NonZeroU64>)
        ensures
            raw == 0 ==> r is None,
            raw != 0 ==> r is Some && r->0@ == raw,
    {
        if raw == 0 {
            None
        } else {
            Some(NonZeroU64 { raw })
        }
    }

    /// The integer held.
    pub fn get(&self) -> (raw: u64)
        ensures
            raw == self@,
            raw != 0,
    {
        proof {
            use_type_invariant(self);
        }
        self.raw
    }
}

/// A `u128` that is never zero.
#[derive(Clone, Copy, Debug, PartialEq, Eq)]
pub struct NonZeroU128 {
    raw: u128,
}

impl View for NonZeroU128 {
    type V = u128;

    closed spec fn view(&self) -> u128 {
        self.raw
    }
}

impl NonZeroU128 {
    #[verifier::type_invariant]
    spec fn nonzero(self) -> bool {
        self.raw != 0
    }

    /// The value `raw`, unless it is zero.
    pub fn new(raw: u128) -> (r: Option<NonZeroU128>)
        ensures
            raw == 0 ==> r is None,
            raw != 0 ==> r is Some && r->0@ == raw,
    {
        if raw == 0 {
            None
        } else {
            Some(NonZeroU128 { raw })
        }
    }

    /// The integer held.
    pub fn get(&self) -> (raw: u128)
        ensures
            raw == self@,
            raw != 0,
    {
        proof {
            use_type_invariant(self);
        }
        self.raw
    }
}

/// A `usize` that is never zero.
#[derive(Clone, Copy, Debug, PartialEq, Eq)]
pub struct NonZeroUsize {
    raw: usize,
}

impl View for NonZeroUsize {
    type V = usize;

    closed spec fn view(&self) -> usize {
        self.raw
    }
}

impl NonZeroUsize {
    #[verifier::type_invariant]
    spec fn nonzero(self) -> bool {
        self.raw != 0
    }

    /// The value `raw`, unless it is zero.
    pub fn new(raw: usize) -> (r: Option<NonZeroUsize>)
        ensures
            raw == 0 ==> r is None,
            raw != 0 ==> r is Some && r->0@ == raw,
    {
        if raw == 0 {
            None
        } else {
            Some(NonZeroUsize { raw })
        }
    }

    /// The integer held.
    pub fn get(&self) -> (raw: usize)
        ensures
            raw == self@,
            raw != 0,
    {
        proof {
            use_type_invariant(self);
        }
        self.raw
    }
}

/// An `i8` that is never zero.
#[derive(Clone, Copy, Debug, PartialEq, Eq)]
pub struct NonZeroI8 {
    raw: i8,
}

impl View for NonZeroI8 {
    type V = i8;

    closed spec fn view(&self) -> i8 {
        self.raw
    }
}

impl NonZeroI8 {
    #[verifier::type_invariant]
    spec fn nonzero(self) -> bool {
        self.raw != 0
    }

    /// The value `raw`, unless it is zero.
    pub fn new(raw: i8) -> (r: Option<NonZeroI8>)
        ensures
            raw == 0 ==> r is None,
            raw != 0 ==> r is Some && r->0@ == raw,
    {
        if raw == 0 {
            None
        } else {
            Some(NonZeroI8 { raw })
        }
    }

    /// The integer held.
    pub fn get(&self) -> (raw: i8)
        ensures
            raw == self@,
            raw != 0,
    {
        proof {
            use_type_invariant(self);
        }
        self.raw
    }
}

/// An `i16` that is never zero.
#[derive(Clone, Copy, Debug, PartialEq, Eq)]
pub struct NonZeroI16 {
    raw: i16,
}

impl View for NonZeroI16 {
    type V = i16;

    closed spec fn view(&self) -> i16 {
        self.raw
    }
}

impl NonZeroI16 {
    #[verifier::type_invariant]
    spec fn nonzero(self) -> bool {
        self.raw != 0
    }

    /// The value `raw`, unless it is zero.
    pub fn new(raw: i16) -> (r: Option<NonZeroI16>)
        ensures
            raw == 0 ==> r is None,
            raw != 0 ==> r is Some && r->0@ == raw,
    {
        if raw == 0 {
            None
        } else {
            Some(NonZeroI16 { raw })
        }
    }

    /// The integer held.
    pub fn get(&self) -> (raw: i16)
        ensures
            raw == self@,
            raw != 0,
    {
        proof {
            use_type_invariant(self);
        }
        self.raw
    }
}

/// An `i32` that is never zero.
#[derive(Clone, Copy, Debug, PartialEq, Eq)]
pub struct NonZeroI32 {
    raw: i32,
}

impl View for NonZeroI32 {
    type V = i32;

    closed spec fn view(&self) -> i32 {
        self.raw
    }
}

impl NonZeroI32 {
    #[verifier::type_invariant]
    spec fn nonzero(self) -> bool {
        self.raw != 0
    }

    /// The value `raw`, unless it is zero.
    pub fn new(raw: i32) -> (r: Option<NonZeroI32>)
        ensures
            raw == 0 ==> r is None,
            raw != 0 ==> r is Some && r->0@ == raw,
    {
        if raw == 0 {
            None
        } else {
            Some(NonZeroI32 { raw })
        }
    }

    /// The integer held.
    pub fn get(&self) -> (raw: i32)
        ensures
            raw == self@,
            raw != 0,
    {
        proof {
            use_type_invariant(self);
        }
        self.raw
    }
}

/// An `i64` that is never zero.
#[derive(Clone, Copy, Debug, PartialEq, Eq)]
pub struct NonZeroI64 {
    raw: i64,
}

impl View for NonZeroI64 {
    type V = i64;

    closed spec fn view(&self) -> i64 {
        self.raw
    }
}

impl NonZeroI64 {
    #[verifier::type_invariant]
    spec fn nonzero(self) -> bool {
        self.raw != 0
    }

    /// The value `raw`, unless it is zero.
    pub fn new(raw: i64) -> (r: Option<NonZeroI64>)
        ensures
            raw == 0 ==> r is None,
            raw != 0 ==> r is Some && r->0@ == raw,
    {
        if raw == 0 {
            None
        } else {
            Some(NonZeroI64 { raw })
        }
    }

    /// The integer held.
    pub fn get(&self) -> (raw: i64)
        ensures
            raw == self@,
            raw != 0,
    {
        proof {
            use_type_invariant(self);
        }
        self.raw
    }
}

/// An `i128` that is never zero.
#[derive(Clone, Copy, Debug, PartialEq, Eq)]
pub struct NonZeroI128 {
    raw: i128,
}

impl View for NonZeroI128 {
    type V = i128;

    closed spec fn view(&self) -> i128 {
        self.raw
    }
}

impl NonZeroI128 {
    #[verifier::type_invariant]
    spec fn nonzero(self) -> bool {
        self.raw != 0
    }

    /// The value `raw`, unless it is zero.
    pub fn new(raw: i128) -> (r: Option<NonZeroI128>)
        ensures
            raw == 0 ==> r is None,
            raw != 0 ==> r is Some && r->0@ == raw,
    {
        if raw == 0 {
            None
        } else {
            Some(NonZeroI128 { raw })
        }
    }

    /// The integer held.
    pub fn get(&self) -> (raw: i128)
        ensures
            raw == self@,
            raw != 0,
    {
        proof {
            use_type_invariant(self);
        }
        self.raw
    }
}

/// An `isize` that is never zero.
#[derive(Clone, Copy, Debug, PartialEq, Eq)]
pub struct NonZeroIsize {
    raw: isize,
}

impl View for NonZeroIsize {
    type V = isize;

    closed spec fn view(&self) -> isize {
        self.raw
    }
}

impl NonZeroIsize {
    #[verifier::type_invariant]
    spec fn nonzero(self) -> bool {
        self.raw != 0
    }

    /// The value `raw`, unless it is zero.
    pub fn new(raw: isize) -> (r: Option<NonZeroIsize>)
        ensures
            raw == 0 ==> r is None,
            raw != 0 ==> r is Some && r->0@ == raw,
    {
        if raw == 0 {
            None
        } else {
            Some(NonZeroIsize { raw })
        }
    }

    /// The integer held.
    pub fn get(&self) -> (raw: isize)
        ensures
            raw == self@,
            raw != 0,
    {
        proof {
            use_type_invariant(self);
        }
        self.raw
    }
}

} // verus!
