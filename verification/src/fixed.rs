//! Hashes, addresses and bloom filters: byte strings of a fixed length.
//!
//! Both libraries keep such a value as an array of bytes in the same order,
//! so a conversion takes the array out of one type and puts it into the
//! other as it is.
use crate::alloy;
use crate::eth;
use crate::sealed::Compat;
use vstd::prelude::*;

verus! {

impl Compat<ethereum_types::H64> for alloy_primitives::B64 {
    proof fn same_width() {
    }

    fn convert(self) -> (out: ethereum_types::H64)
        ensures
            eth::h64_bytes(out) == alloy::b64_bytes(self),
    {
        let bytes = alloy::b64_to_array(self);
        eth::h64_from_array(bytes)
    }
}

impl Compat<alloy_primitives::B64> for ethereum_types::H64 {
    proof fn same_width() {
    }

    fn convert(self) -> (out: alloy_primitives::B64)
        ensures
            alloy::b64_bytes(out) == eth::h64_bytes(self),
    {
        let bytes = eth::h64_to_array(self);
        alloy::b64_from_array(bytes)
    }
}

impl Compat<ethereum_types::H128> for alloy_primitives::B128 {
    proof fn same_width() {
    }

    fn convert(self) -> (out: ethereum_types::H128)
        ensures
            eth::h128_bytes(out) == alloy::b128_bytes(self),
    {
        let bytes = alloy::b128_to_array(self);
        eth::h128_from_array(bytes)
    }
}

impl Compat<alloy_primitives::B128> for ethereum_types::H128 {
    proof fn same_width() {
    }

    fn convert(self) -> (out: alloy_primitives::B128)
        ensures
            alloy::b128_bytes(out) == eth::h128_bytes(self),
    {
        let bytes = eth::h128_to_array(self);
        alloy::b128_from_array(bytes)
    }
}

impl Compat<ethereum_types::H256> for alloy_primitives::B256 {
    proof fn same_width() {
    }

    fn convert(self) -> (out: ethereum_types::H256)
        ensures
            eth::h256_bytes(out) == alloy::b256_bytes(self),
    {
        let bytes = alloy::b256_to_array(self);
        eth::h256_from_array(bytes)
    }
}

impl Compat<alloy_primitives::B256> for ethereum_types::H256 {
    proof fn same_width() {
    }

    fn convert(self) -> (out: alloy_primitives::B256)
        ensures
            alloy::b256_bytes(out) == eth::h256_bytes(self),
    {
        let bytes = eth::h256_to_array(self);
        alloy::b256_from_array(bytes)
    }
}

impl Compat<ethereum_types::H512> for alloy_primitives::B512 {
    proof fn same_width() {
    }

    fn convert(self) -> (out: ethereum_types::H512)
        ensures
            eth::h512_bytes(out) == alloy::b512_bytes(self),
    {
        let bytes = alloy::b512_to_array(self);
        eth::h512_from_array(bytes)
    }
}

impl Compat<alloy_primitives::B512> for ethereum_types::H512 {
    proof fn same_width() {
    }

    fn convert(self) -> (out: alloy_primitives::B512)
        ensures
            alloy::b512_bytes(out) == eth::h512_bytes(self),
    {
        let bytes = eth::h512_to_array(self);
        alloy::b512_from_array(bytes)
    }
}

impl Compat<ethereum_types::Address> for alloy_primitives::Address {
    proof fn same_width() {
    }

    fn convert(self) -> (out: ethereum_types::Address)
        ensures
            eth::address_bytes(out) == alloy::address_bytes(self),
    {
        let bytes = alloy::address_to_array(self);
        eth::address_from_array(bytes)
    }
}

impl Compat<alloy_primitives::Address> for ethereum_types::Address {
    proof fn same_width() {
    }

    fn convert(self) -> (out: alloy_primitives::Address)
        ensures
            alloy::address_bytes(out) == eth::address_bytes(self),
    {
        let bytes = eth::address_to_array(self);
        alloy::address_from_array(bytes)
    }
}

impl Compat<ethereum_types::Bloom> for alloy_primitives::Bloom {
    proof fn same_width() {
    }

    fn convert(self) -> (out: ethereum_types::Bloom)
        ensures
            eth::bloom_bytes(out) == alloy::bloom_bytes(self),
    {
        let bytes = alloy::bloom_to_array(self);
        eth::bloom_from_array(bytes)
    }
}

impl Compat<alloy_primitives::Bloom> for ethereum_types::Bloom {
    proof fn same_width() {
    }

    fn convert(self) -> (out: alloy_primitives::Bloom)
        ensures
            alloy::bloom_bytes(out) == eth::bloom_bytes(self),
    {
        let bytes = eth::bloom_to_array(self);
        alloy::bloom_from_array(bytes)
    }
}

} // verus!
