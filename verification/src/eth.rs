//! The types of [`ethereum_types`] that can be converted, as the verifier
//! sees them.
//!
//! The verifier cannot look inside a value of another crate. Each type is
//! therefore declared without its fields, what a value of it holds gets a
//! name, and the few places where a value is taken apart or put together
//! are functions whose contracts are stated here and not proved.
use crate::model::{le_value, Model, Value};
use ethereum_types::{Address, Bloom, H128, H256, H512, H64, U128, U256, U512, U64};
use vstd::prelude::*;

verus! {

/// [`ethereum_types::H64`], a hash of 8 bytes. Opaque.
#[verifier::external_type_specification]
#[verifier::external_body]
pub struct ExH64(ethereum_types::H64);

/// [`ethereum_types::H128`], a hash of 16 bytes. Opaque.
#[verifier::external_type_specification]
#[verifier::external_body]
pub struct ExH128(ethereum_types::H128);

/// [`ethereum_types::H256`], a hash of 32 bytes. Opaque.
#[verifier::external_type_specification]
#[verifier::external_body]
pub struct ExH256(ethereum_types::H256);

/// [`ethereum_types::H512`], a hash of 64 bytes. Opaque.
#[verifier::external_type_specification]
#[verifier::external_body]
pub struct ExH512(ethereum_types::H512);

/// [`ethereum_types::Address`], which is `H160`, a hash of 20 bytes. Opaque.
#[verifier::external_type_specification]
#[verifier::external_body]
pub struct ExAddress(ethereum_types::Address);

/// [`ethereum_types::Bloom`], a hash of 256 bytes. Opaque.
#[verifier::external_type_specification]
#[verifier::external_body]
pub struct ExBloom(ethereum_types::Bloom);

/// [`ethereum_types::U64`], an unsigned integer of 64 bits. Opaque.
#[verifier::external_type_specification]
#[verifier::external_body]
pub struct ExU64(ethereum_types::U64);

/// [`ethereum_types::U128`], an unsigned integer of 128 bits. Opaque.
#[verifier::external_type_specification]
#[verifier::external_body]
pub struct ExU128(ethereum_types::U128);

/// [`ethereum_types::U256`], an unsigned integer of 256 bits. Opaque.
#[verifier::external_type_specification]
#[verifier::external_body]
pub struct ExU256(ethereum_types::U256);

/// [`ethereum_types::U512`], an unsigned integer of 512 bits. Opaque.
#[verifier::external_type_specification]
#[verifier::external_body]
pub struct ExU512(ethereum_types::U512);

/// The 8 bytes of an `H64`, in the order of its array.
pub uninterp spec fn h64_bytes(h: H64) -> Seq<u8>;

/// The 16 bytes of an `H128`, in the order of its array.
pub uninterp spec fn h128_bytes(h: H128) -> Seq<u8>;

/// The 32 bytes of an `H256`, in the order of its array.
pub uninterp spec fn h256_bytes(h: H256) -> Seq<u8>;

/// The 64 bytes of an `H512`, in the order of its array.
pub uninterp spec fn h512_bytes(h: H512) -> Seq<u8>;

/// The 20 bytes of an `Address`, in the order of its array.
pub uninterp spec fn address_bytes(a: Address) -> Seq<u8>;

/// The 256 bytes of a `Bloom`, in the order of its array.
pub uninterp spec fn bloom_bytes(b: Bloom) -> Seq<u8>;

/// The 8 bytes that spell the number of a `U64`, least significant
/// byte first.
pub uninterp spec fn u64_le_bytes(x: U64) -> Seq<u8>;

/// The 16 bytes that spell the number of a `U128`, least significant
/// byte first.
pub uninterp spec fn u128_le_bytes(x: U128) -> Seq<u8>;

/// The 32 bytes that spell the number of a `U256`, least significant
/// byte first.
pub uninterp spec fn u256_le_bytes(x: U256) -> Seq<u8>;

/// The 64 bytes that spell the number of a `U512`, least significant
/// byte first.
pub uninterp spec fn u512_le_bytes(x: U512) -> Seq<u8>;

impl Model for H64 {
    open spec fn value(self) -> Value {
        Value::Bytes(h64_bytes(self))
    }

    open spec fn width() -> nat {
        8
    }
}

impl Model for H128 {
    open spec fn value(self) -> Value {
        Value::Bytes(h128_bytes(self))
    }

    open spec fn width() -> nat {
        16
    }
}

impl Model for H256 {
    open spec fn value(self) -> Value {
        Value::Bytes(h256_bytes(self))
    }

    open spec fn width() -> nat {
        32
    }
}

impl Model for H512 {
    open spec fn value(self) -> Value {
        Value::Bytes(h512_bytes(self))
    }

    open spec fn width() -> nat {
        64
    }
}

impl Model for Address {
    open spec fn value(self) -> Value {
        Value::Bytes(address_bytes(self))
    }

    open spec fn width() -> nat {
        20
    }
}

impl Model for Bloom {
    open spec fn value(self) -> Value {
        Value::Bytes(bloom_bytes(self))
    }

    open spec fn width() -> nat {
        256
    }
}

impl Model for U64 {
    open spec fn value(self) -> Value {
        Value::Number(le_value(u64_le_bytes(self)))
    }

    open spec fn width() -> nat {
        8
    }
}

impl Model for U128 {
    open spec fn value(self) -> Value {
        Value::Number(le_value(u128_le_bytes(self)))
    }

    open spec fn width() -> nat {
        16
    }
}

impl Model for U256 {
    open spec fn value(self) -> Value {
        Value::Number(le_value(u256_le_bytes(self)))
    }

    open spec fn width() -> nat {
        32
    }
}

impl Model for U512 {
    open spec fn value(self) -> Value {
        Value::Number(le_value(u512_le_bytes(self)))
    }

    open spec fn width() -> nat {
        64
    }
}

/// Reads the public field of an `H64`. Not proved: that the array read
/// holds the hash's bytes.
#[verifier::external_body]
pub(crate) fn h64_to_array(h: H64) -> (bytes: [u8; 8])
    ensures
        bytes@ == h64_bytes(h),
{
    h.0
}

/// Builds an `H64` with its tuple constructor. Not proved: that the hash
/// built holds the bytes of the array given.
#[verifier::external_body]
pub(crate) fn h64_from_array(bytes: [u8; 8]) -> (h: H64)
    ensures
        h64_bytes(h) == bytes@,
{
    H64(bytes)
}

/// Reads the public field of an `H128`. Not proved: that the array read
/// holds the hash's bytes.
#[verifier::external_body]
pub(crate) fn h128_to_array(h: H128) -> (bytes: [u8; 16])
    ensures
        bytes@ == h128_bytes(h),
{
    h.0
}

/// Builds an `H128` with its tuple constructor. Not proved: that the hash
/// built holds the bytes of the array given.
#[verifier::external_body]
pub(crate) fn h128_from_array(bytes: [u8; 16]) -> (h: H128)
    ensures
        h128_bytes(h) == bytes@,
{
    H128(bytes)
}

/// Reads the public field of an `H256`. Not proved: that the array read
/// holds the hash's bytes.
#[verifier::external_body]
pub(crate) fn h256_to_array(h: H256) -> (bytes: [u8; 32])
    ensures
        bytes@ == h256_bytes(h),
{
    h.0
}

/// Builds an `H256` with its tuple constructor. Not proved: that the hash
/// built holds the bytes of the array given.
#[verifier::external_body]
pub(crate) fn h256_from_array(bytes: [u8; 32]) -> (h: H256)
    ensures
        h256_bytes(h) == bytes@,
{
    H256(bytes)
}

/// Reads the public field of an `H512`. Not proved: that the array read
/// holds the hash's bytes.
#[verifier::external_body]
pub(crate) fn h512_to_array(h: H512) -> (bytes: [u8; 64])
    ensures
        bytes@ == h512_bytes(h),
{
    h.0
}

/// Builds an `H512` with its tuple constructor. Not proved: that the hash
/// built holds the bytes of the array given.
#[verifier::external_body]
pub(crate) fn h512_from_array(bytes: [u8; 64]) -> (h: H512)
    ensures
        h512_bytes(h) == bytes@,
{
    H512(bytes)
}

/// Reads the public field of an `Address`. Not proved: that the array read
/// holds the address's bytes.
#[verifier::external_body]
pub(crate) fn address_to_array(a: Address) -> (bytes: [u8; 20])
    ensures
        bytes@ == address_bytes(a),
{
    a.0
}

/// Builds an `Address` with the tuple constructor of `H160`. Not proved:
/// that the address built holds the bytes of the array given.
#[verifier::external_body]
pub(crate) fn address_from_array(bytes: [u8; 20]) -> (a: Address)
    ensures
        address_bytes(a) == bytes@,
{
    ethereum_types::H160(bytes)
}

/// Reads the public field of a `Bloom`. Not proved: that the array read
/// holds the filter's bytes.
#[verifier::external_body]
pub(crate) fn bloom_to_array(b: Bloom) -> (bytes: [u8; 256])
    ensures
        bytes@ == bloom_bytes(b),
{
    b.0
}

/// Builds a `Bloom` with its tuple constructor. Not proved: that the filter
/// built holds the bytes of the array given.
#[verifier::external_body]
pub(crate) fn bloom_from_array(bytes: [u8; 256]) -> (b: Bloom)
    ensures
        bloom_bytes(b) == bytes@,
{
    Bloom(bytes)
}

/// Calls [`U64::to_little_endian`] on a buffer of 8 bytes, the length
/// that it asks for. Not proved: that the buffer then spells the number,
/// least significant byte first.
#[verifier::external_body]
pub(crate) fn u64_to_little_endian(x: U64, bytes: &mut [u8; 8])
    ensures
        final(bytes)@ == u64_le_bytes(x),
{
    x.to_little_endian(bytes)
}

/// Calls [`U64::from_little_endian`] on a slice of 8 bytes; it takes no
/// more. Not proved: that the integer returned is the number that the
/// bytes spell, least significant byte first.
#[verifier::external_body]
pub(crate) fn u64_from_little_endian(bytes: &[u8; 8]) -> (x: U64)
    ensures
        u64_le_bytes(x) == bytes@,
{
    U64::from_little_endian(bytes)
}

/// Calls [`U128::to_little_endian`] on a buffer of 16 bytes, the length
/// that it asks for. Not proved: that the buffer then spells the number,
/// least significant byte first.
#[verifier::external_body]
pub(crate) fn u128_to_little_endian(x: U128, bytes: &mut [u8; 16])
    ensures
        final(bytes)@ == u128_le_bytes(x),
{
    x.to_little_endian(bytes)
}

/// Calls [`U128::from_little_endian`] on a slice of 16 bytes; it takes no
/// more. Not proved: that the integer returned is the number that the
/// bytes spell, least significant byte first.
#[verifier::external_body]
pub(crate) fn u128_from_little_endian(bytes: &[u8; 16]) -> (x: U128)
    ensures
        u128_le_bytes(x) == bytes@,
{
    U128::from_little_endian(bytes)
}

/// Calls [`U256::to_little_endian`] on a buffer of 32 bytes, the length
/// that it asks for. Not proved: that the buffer then spells the number,
/// least significant byte first.
#[verifier::external_body]
pub(crate) fn u256_to_little_endian(x: U256, bytes: &mut [u8; 32])
    ensures
        final(bytes)@ == u256_le_bytes(x),
{
    x.to_little_endian(bytes)
}

/// Calls [`U256::from_little_endian`] on a slice of 32 bytes; it takes no
/// more. Not proved: that the integer returned is the number that the
/// bytes spell, least significant byte first.
#[verifier::external_body]
pub(crate) fn u256_from_little_endian(bytes: &[u8; 32]) -> (x: U256)
    ensures
        u256_le_bytes(x) == bytes@,
{
    U256::from_little_endian(bytes)
}

/// Calls [`U512::to_little_endian`] on a buffer of 64 bytes, the length
/// that it asks for. Not proved: that the buffer then spells the number,
/// least significant byte first.
#[verifier::external_body]
pub(crate) fn u512_to_little_endian(x: U512, bytes: &mut [u8; 64])
    ensures
        final(bytes)@ == u512_le_bytes(x),
{
    x.to_little_endian(bytes)
}

/// Calls [`U512::from_little_endian`] on a slice of 64 bytes; it takes no
/// more. Not proved: that the integer returned is the number that the
/// bytes spell, least significant byte first.
#[verifier::external_body]
pub(crate) fn u512_from_little_endian(bytes: &[u8; 64]) -> (x: U512)
    ensures
        u512_le_bytes(x) == bytes@,
{
    U512::from_little_endian(bytes)
}

} // verus!
