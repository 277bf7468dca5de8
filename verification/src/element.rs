//! The one element capability std's operator traits do not cover: an
//! additive identity, the starting value of a matrix product's accumulation.
//! The other capabilities a matrix operation needs of its element type are
//! std's own (`Copy` to duplicate values, `core::ops::Add`, `Sub` and `Mul`
//! to combine them, each pinned down by vstd's specification of the
//! operator).

use vstd::prelude::*;

verus! {

/// An additive identity.
pub trait ZeroElement: Sized {
    /// The additive identity of this type.
    spec fn zero_spec() -> Self;

    /// The additive identity, as a value.
    fn zero() -> (r: Self)
        ensures
            r == Self::zero_spec();
}

impl ZeroElement for i8 {
    open spec fn zero_spec() -> Self {
        0
    }

    fn zero() -> Self {
        0
    }
}

impl ZeroElement for i16 {
    open spec fn zero_spec() -> Self {
        0
    }

    fn zero() -> Self {
        0
    }
}

impl ZeroElement for i32 {
    open spec fn zero_spec() -> Self {
        0
    }

    fn zero() -> Self {
        0
    }
}

impl ZeroElement for i64 {
    open spec fn zero_spec() -> Self {
        0
    }

    fn zero() -> Self {
        0
    }
}

impl ZeroElement for isize {
    open spec fn zero_spec() -> Self {
        0
    }

    fn zero() -> Self {
        0
    }
}

impl ZeroElement for u8 {
    open spec fn zero_spec() -> Self {
        0
    }

    fn zero() -> Self {
        0
    }
}

impl ZeroElement for u16 {
    open spec fn zero_spec() -> Self {
        0
    }

    fn zero() -> Self {
        0
    }
}

impl ZeroElement for u32 {
    open spec fn zero_spec() -> Self {
        0
    }

    fn zero() -> Self {
        0
    }
}

impl ZeroElement for u64 {
    open spec fn zero_spec() -> Self {
        0
    }

    fn zero() -> Self {
        0
    }
}

impl ZeroElement for usize {
    open spec fn zero_spec() -> Self {
        0
    }

    fn zero() -> Self {
        0
    }
}

} // verus!
