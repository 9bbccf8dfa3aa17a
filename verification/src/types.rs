//! The closed vocabulary of fixed-size types that the dispatcher understands.

use vstd::prelude::*;

verus! {

/// A scalar type. Every scalar has a statically known byte width.
#[derive(Clone, Copy, Debug, PartialEq, Eq, Hash, Structural)]
pub enum Base {
    /// 256-bit unsigned integer.
    U256,
    /// 160-bit account address, carried in a full word.
    Address,
    /// A single byte.
    Byte,
}

impl Base {
    /// Width in bytes of one value of this scalar.
    pub open spec fn spec_size(self) -> nat {
        match self {
            Base::U256 => 32,
            Base::Address => 32,
            Base::Byte => 1,
        }
    }

    /// Width in bytes of one value of this scalar.
    pub fn size(&self) -> (n: usize)
        ensures
            n == self.spec_size(),
    {
        match self {
            Base::U256 => 32,
            Base::Address => 32,
            Base::Byte => 1,
        }
    }
}

/// A fixed-length sequence of one scalar type.
#[derive(Clone, Copy, Debug, PartialEq, Eq, Hash, Structural)]
pub struct Array {
    /// Number of elements.
    pub dimension: usize,
    /// Type of every element.
    pub inner: Base,
}

impl Array {
    /// Width in bytes of the whole array.
    pub open spec fn spec_size(self) -> nat {
        self.dimension as nat * self.inner.spec_size()
    }

    /// An array type is well formed when it has at least one element and
    /// its width can be held in a machine word.
    pub open spec fn well_formed(self) -> bool {
        self.dimension >= 1 && self.spec_size() <= usize::MAX
    }

    /// Width in bytes of the whole array, or `None` where it does not fit a
    /// machine word.
    pub fn checked_size(&self) -> (n: Option<usize>)
        ensures
            match n {
                Some(n) => n == self.spec_size(),
                None => self.spec_size() > usize::MAX,
            },
    {
        self.dimension.checked_mul(self.inner.size())
    }

    /// Width in bytes of the whole array.
    pub fn size(&self) -> (n: usize)
        requires
            self.spec_size() <= usize::MAX,
        ensures
            n == self.spec_size(),
    {
        self.dimension * self.inner.size()
    }
}

/// Any type whose byte width is statically known.
#[derive(Clone, Copy, Debug, PartialEq, Eq, Hash, Structural)]
pub enum FixedSize {
    Base(Base),
    Array(Array),
}

impl FixedSize {
    /// Width in bytes of one value of this type.
    pub open spec fn spec_size(self) -> nat {
        match self {
            FixedSize::Base(base) => base.spec_size(),
            FixedSize::Array(array) => array.spec_size(),
        }
    }

    /// Scalars are always well formed; arrays as [`Array::well_formed`] says.
    pub open spec fn well_formed(self) -> bool {
        match self {
            FixedSize::Base(_) => true,
            FixedSize::Array(array) => array.well_formed(),
        }
    }

    /// Width in bytes, or `None` where it does not fit a machine word.
    pub fn checked_size(&self) -> (n: Option<usize>)
        ensures
            match n {
                Some(n) => n == self.spec_size(),
                None => self.spec_size() > usize::MAX,
            },
    {
        match self {
            FixedSize::Base(base) => Some(base.size()),
            FixedSize::Array(array) => array.checked_size(),
        }
    }

    /// Width in bytes of one value of this type.
    pub fn size(&self) -> (n: usize)
        requires
            self.spec_size() <= usize::MAX,
        ensures
            n == self.spec_size(),
    {
        match self {
            FixedSize::Base(base) => base.size(),
            FixedSize::Array(array) => array.size(),
        }
    }

    /// Tells whether the type is well formed.
    pub fn is_well_formed(&self) -> (ok: bool)
        ensures
            ok == self.well_formed(),
    {
        match self {
            FixedSize::Base(_) => true,
            FixedSize::Array(array) => array.dimension >= 1 && array.checked_size().is_some(),
        }
    }
}

} // verus!
