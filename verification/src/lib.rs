//! Conversions between the value types of [`ethereum_types`] and those of
//! [`alloy_primitives`].
//!
//! The two libraries each have types for hashes, addresses, bloom filters
//! and wide unsigned integers. [`Compat::compat`] turns a value of one
//! library into the value of the other that stands for the same thing. Which
//! conversion is meant follows from the two types alone; a pair without a
//! conversion does not compile.
//!
//! | bytes | `alloy_primitives` | `ethereum_types` |
//! |------:|--------------------|------------------|
//! |     8 | `B64`              | `H64`            |
//! |    16 | `B128`             | `H128`           |
//! |    20 | `Address`          | `Address`        |
//! |    32 | `B256`             | `H256`           |
//! |    64 | `B512`             | `H512`           |
//! |   256 | `Bloom`            | `Bloom`          |
//!
//! | bits | `alloy_primitives` | `ethereum_types` |
//! |-----:|--------------------|------------------|
//! |   64 | `U64`              | `U64`            |
//! |  128 | `U128`             | `U128`           |
//! |  256 | `U256`             | `U256`           |
//! |  512 | `U512`             | `U512`           |
//!
//! ```
//! use alloy_compat::Compat;
//!
//! let hash = ethereum_types::H256::repeat_byte(0x11);
//! let same: alloy_primitives::B256 = hash.compat();
//! assert_eq!(same, alloy_primitives::B256::repeat_byte(0x11));
//!
//! let int = ethereum_types::U128::MAX;
//! assert_eq!(alloy_primitives::U128::MAX, int.compat());
//! ```
use vstd::prelude::*;

pub mod alloy;
pub mod eth;
mod fixed;
pub mod laws;
pub mod model;
mod sealed;
mod wide;

use crate::model::Model;

verus! {

/// Convert between an [`ethereum_types`] type and an [`alloy_primitives`]
/// type.
pub trait Compat {
    /// Returns the value of `T` that stands for what `self` stands for: for
    /// a hash, an address or a bloom filter the same bytes in the same
    /// order, for an integer the same number. Nothing is cut off and nothing
    /// is added: the result takes exactly the width of `T`.
    fn compat<T>(self) -> (out: T) where T: Model, Self: sealed::Compat<T>
        ensures
            out.value() == self.value(),
            out.value().fits(T::width()),
    ;
}

impl<S> Compat for S {
    fn compat<T>(self) -> (out: T) where T: Model, Self: sealed::Compat<T>
        ensures
            out.value() == self.value(),
            out.value().fits(T::width()),
    {
        sealed::Compat::convert(self)
    }
}

} // verus!
