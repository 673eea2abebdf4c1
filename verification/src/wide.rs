//! Unsigned integers of 64, 128, 256 and 512 bits.
//!
//! The two libraries do not share a layout, so a conversion goes through a
//! buffer of exactly as many bytes as the integer is wide: one library
//! writes the number there with the least significant byte first, and the
//! other reads it in the same order.
use crate::alloy;
use crate::eth;
use crate::model::lemma_le_value_bound;
use crate::sealed::Compat;
use vstd::prelude::*;

verus! {

impl Compat<ethereum_types::U64> for alloy_primitives::U64 {
    proof fn same_width() {
    }

    fn convert(self) -> (out: ethereum_types::U64)
        ensures
            eth::u64_le_bytes(out) == alloy::u64_le_bytes(self),
    {
        let bytes = alloy::u64_to_le_bytes(self);
        proof {
            lemma_le_value_bound(bytes@);
        }
        eth::u64_from_little_endian(&bytes)
    }
}

impl Compat<alloy_primitives::U64> for ethereum_types::U64 {
    proof fn same_width() {
    }

    fn convert(self) -> (out: alloy_primitives::U64)
        ensures
            alloy::u64_le_bytes(out) == eth::u64_le_bytes(self),
    {
        let mut bytes = [0u8; 8];
        eth::u64_to_little_endian(self, &mut bytes);
        proof {
            lemma_le_value_bound(bytes@);
        }
        alloy::u64_from_le_bytes(bytes)
    }
}

impl Compat<ethereum_types::U128> for alloy_primitives::U128 {
    proof fn same_width() {
    }

    fn convert(self) -> (out: ethereum_types::U128)
        ensures
            eth::u128_le_bytes(out) == alloy::u128_le_bytes(self),
    {
        let bytes = alloy::u128_to_le_bytes(self);
        proof {
            lemma_le_value_bound(bytes@);
        }
        eth::u128_from_little_endian(&bytes)
    }
}

impl Compat<alloy_primitives::U128> for ethereum_types::U128 {
    proof fn same_width() {
    }

    fn convert(self) -> (out: alloy_primitives::U128)
        ensures
            alloy::u128_le_bytes(out) == eth::u128_le_bytes(self),
    {
        let mut bytes = [0u8; 16];
        eth::u128_to_little_endian(self, &mut bytes);
        proof {
            lemma_le_value_bound(bytes@);
        }
        alloy::u128_from_le_bytes(bytes)
    }
}

impl Compat<ethereum_types::U256> for alloy_primitives::U256 {
    proof fn same_width() {
    }

    fn convert(self) -> (out: ethereum_types::U256)
        ensures
            eth::u256_le_bytes(out) == alloy::u256_le_bytes(self),
    {
        let bytes = alloy::u256_to_le_bytes(self);
        proof {
            lemma_le_value_bound(bytes@);
        }
        eth::u256_from_little_endian(&bytes)
    }
}

impl Compat<alloy_primitives::U256> for ethereum_types::U256 {
    proof fn same_width() {
    }

    fn convert(self) -> (out: alloy_primitives::U256)
        ensures
            alloy::u256_le_bytes(out) == eth::u256_le_bytes(self),
    {
        let mut bytes = [0u8; 32];
        eth::u256_to_little_endian(self, &mut bytes);
        proof {
            lemma_le_value_bound(bytes@);
        }
        alloy::u256_from_le_bytes(bytes)
    }
}

impl Compat<ethereum_types::U512> for alloy_primitives::U512 {
    proof fn same_width() {
    }

    fn convert(self) -> (out: ethereum_types::U512)
        ensures
            eth::u512_le_bytes(out) == alloy::u512_le_bytes(self),
    {
        let bytes = alloy::u512_to_le_bytes(self);
        proof {
            lemma_le_value_bound(bytes@);
        }
        eth::u512_from_little_endian(&bytes)
    }
}

impl Compat<alloy_primitives::U512> for ethereum_types::U512 {
    proof fn same_width() {
    }

    fn convert(self) -> (out: alloy_primitives::U512)
        ensures
            alloy::u512_le_bytes(out) == eth::u512_le_bytes(self),
    {
        let mut bytes = [0u8; 64];
        eth::u512_to_little_endian(self, &mut bytes);
        proof {
            lemma_le_value_bound(bytes@);
        }
        alloy::u512_from_le_bytes(bytes)
    }
}

} // verus!
