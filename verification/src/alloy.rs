//! The types of [`alloy_primitives`] that can be converted, as the verifier
//! sees them.
//!
//! The verifier cannot look inside a value of another crate. Each type is
//! therefore declared without its fields, what a value of it holds gets a
//! name, and the few places where a value is taken apart or put together
//! are functions whose contracts are stated here and not proved.
use crate::model::{le_value, Model, Value};
use alloy_primitives::{Address, Bloom, FixedBytes, Uint};
use vstd::prelude::*;

verus! {

/// [`alloy_primitives::FixedBytes`], an array of `N` bytes. Opaque.
#[verifier::external_type_specification]
#[verifier::external_body]
pub struct ExFixedBytes<const N: usize>(alloy_primitives::FixedBytes<N>);

/// [`alloy_primitives::Address`], which wraps a `FixedBytes<20>`. Opaque.
#[verifier::external_type_specification]
#[verifier::external_body]
pub struct ExAddress(alloy_primitives::Address);

/// [`alloy_primitives::Bloom`], which wraps a `FixedBytes<256>`. Opaque.
#[verifier::external_type_specification]
#[verifier::external_body]
pub struct ExBloom(alloy_primitives::Bloom);

/// [`alloy_primitives::Uint`], an unsigned integer of `BITS` bits kept in
/// `LIMBS` words of 64 bits. Opaque.
#[verifier::external_type_specification]
#[verifier::external_body]
pub struct ExUint<const BITS: usize, const LIMBS: usize>(alloy_primitives::Uint<BITS, LIMBS>);

/// The 8 bytes of a `FixedBytes<8>`, in the order of its array.
pub uninterp spec fn b64_bytes(b: FixedBytes<8>) -> Seq<u8>;

/// The 16 bytes of a `FixedBytes<16>`, in the order of its array.
pub uninterp spec fn b128_bytes(b: FixedBytes<16>) -> Seq<u8>;

/// The 32 bytes of a `FixedBytes<32>`, in the order of its array.
pub uninterp spec fn b256_bytes(b: FixedBytes<32>) -> Seq<u8>;

/// The 64 bytes of a `FixedBytes<64>`, in the order of its array.
pub uninterp spec fn b512_bytes(b: FixedBytes<64>) -> Seq<u8>;

/// The 20 bytes of an `Address`, in the order of its array.
pub uninterp spec fn address_bytes(a: Address) -> Seq<u8>;

/// The 256 bytes of a `Bloom`, in the order of its array.
pub uninterp spec fn bloom_bytes(b: Bloom) -> Seq<u8>;

/// The 8 bytes that spell the number of a `Uint<64, 1>`, least significant
/// byte first.
pub uninterp spec fn u64_le_bytes(x: Uint<64, 1>) -> Seq<u8>;

/// The 16 bytes that spell the number of a `Uint<128, 2>`, least significant
/// byte first.
pub uninterp spec fn u128_le_bytes(x: Uint<128, 2>) -> Seq<u8>;

/// The 32 bytes that spell the number of a `Uint<256, 4>`, least significant
/// byte first.
pub uninterp spec fn u256_le_bytes(x: Uint<256, 4>) -> Seq<u8>;

/// The 64 bytes that spell the number of a `Uint<512, 8>`, least significant
/// byte first.
pub uninterp spec fn u512_le_bytes(x: Uint<512, 8>) -> Seq<u8>;

impl Model for FixedBytes<8> {
    open spec fn value(self) -> Value {
        Value::Bytes(b64_bytes(self))
    }

    open spec fn width() -> nat {
        8
    }
}

impl Model for FixedBytes<16> {
    open spec fn value(self) -> Value {
        Value::Bytes(b128_bytes(self))
    }

    open spec fn width() -> nat {
        16
    }
}

impl Model for FixedBytes<32> {
    open spec fn value(self) -> Value {
        Value::Bytes(b256_bytes(self))
    }

    open spec fn width() -> nat {
        32
    }
}

impl Model for FixedBytes<64> {
    open spec fn value(self) -> Value {
        Value::Bytes(b512_bytes(self))
    }

    open spec fn width() -> nat {
        64
    }
}

impl Model for Address {
    open spec fn value(self) -> Value {
        Value::Bytes(address_bytes(self))
    }

    open spec fn width() -> nat {
        20
    }
}

impl Model for Bloom {
    open spec fn value(self) -> Value {
        Value::Bytes(bloom_bytes(self))
    }

    open spec fn width() -> nat {
        256
    }
}

impl Model for Uint<64, 1> {
    open spec fn value(self) -> Value {
        Value::Number(le_value(u64_le_bytes(self)))
    }

    open spec fn width() -> nat {
        8
    }
}

impl Model for Uint<128, 2> {
    open spec fn value(self) -> Value {
        Value::Number(le_value(u128_le_bytes(self)))
    }

    open spec fn width() -> nat {
        16
    }
}

impl Model for Uint<256, 4> {
    open spec fn value(self) -> Value {
        Value::Number(le_value(u256_le_bytes(self)))
    }

    open spec fn width() -> nat {
        32
    }
}

impl Model for Uint<512, 8> {
    open spec fn value(self) -> Value {
        Value::Number(le_value(u512_le_bytes(self)))
    }

    open spec fn width() -> nat {
        64
    }
}

/// Reads the public field of a `FixedBytes<8>`. Not proved: that the array
/// read holds the value's bytes.
#[verifier::external_body]
pub(crate) fn b64_to_array(b: FixedBytes<8>) -> (bytes: [u8; 8])
    ensures
        bytes@ == b64_bytes(b),
{
    b.0
}

/// Builds a `FixedBytes<8>` with its tuple constructor. Not proved: that the
/// value built holds the bytes of the array given.
#[verifier::external_body]
pub(crate) fn b64_from_array(bytes: [u8; 8]) -> (b: FixedBytes<8>)
    ensures
        b64_bytes(b) == bytes@,
{
    FixedBytes(bytes)
}

/// Reads the public field of a `FixedBytes<16>`. Not proved: that the array
/// read holds the value's bytes.
#[verifier::external_body]
pub(crate) fn b128_to_array(b: FixedBytes<16>) -> (bytes: [u8; 16])
    ensures
        bytes@ == b128_bytes(b),
{
    b.0
}

/// Builds a `FixedBytes<16>` with its tuple constructor. Not proved: that
/// the value built holds the bytes of the array given.
#[verifier::external_body]
pub(crate) fn b128_from_array(bytes: [u8; 16]) -> (b: FixedBytes<16>)
    ensures
        b128_bytes(b) == bytes@,
{
    FixedBytes(bytes)
}

/// Reads the public field of a `FixedBytes<32>`. Not proved: that the array
/// read holds the value's bytes.
#[verifier::external_body]
pub(crate) fn b256_to_array(b: FixedBytes<32>) -> (bytes: [u8; 32])
    ensures
        bytes@ == b256_bytes(b),
{
    b.0
}

/// Builds a `FixedBytes<32>` with its tuple constructor. Not proved: that
/// the value built holds the bytes of the array given.
#[verifier::external_body]
pub(crate) fn b256_from_array(bytes: [u8; 32]) -> (b: FixedBytes<32>)
    ensures
        b256_bytes(b) == bytes@,
{
    FixedBytes(bytes)
}

/// Reads the public field of a `FixedBytes<64>`. Not proved: that the array
/// read holds the value's bytes.
#[verifier::external_body]
pub(crate) fn b512_to_array(b: FixedBytes<64>) -> (bytes: [u8; 64])
    ensures
        bytes@ == b512_bytes(b),
{
    b.0
}

/// Builds a `FixedBytes<64>` with its tuple constructor. Not proved: that
/// the value built holds the bytes of the array given.
#[verifier::external_body]
pub(crate) fn b512_from_array(bytes: [u8; 64]) -> (b: FixedBytes<64>)
    ensures
        b512_bytes(b) == bytes@,
{
    FixedBytes(bytes)
}

/// Reads the public field of an `Address` and, of the `FixedBytes<20>` found
/// there, its public field. Not proved: that the array read holds the
/// address's bytes.
#[verifier::external_body]
pub(crate) fn address_to_array(a: Address) -> (bytes: [u8; 20])
    ensures
        bytes@ == address_bytes(a),
{
    let Address(FixedBytes(bytes)) = a;
    bytes
}

/// Builds an `Address` with its tuple constructor, around a `FixedBytes<20>`
/// built the same way. Not proved: that the address built holds the bytes of
/// the array given.
#[verifier::external_body]
pub(crate) fn address_from_array(bytes: [u8; 20]) -> (a: Address)
    ensures
        address_bytes(a) == bytes@,
{
    Address(FixedBytes(bytes))
}

/// Reads the public field of a `Bloom` and, of the `FixedBytes<256>` found
/// there, its public field. Not proved: that the array read holds the
/// filter's bytes.
#[verifier::external_body]
pub(crate) fn bloom_to_array(b: Bloom) -> (bytes: [u8; 256])
    ensures
        bytes@ == bloom_bytes(b),
{
    let Bloom(FixedBytes(bytes)) = b;
    bytes
}

/// Builds a `Bloom` with its tuple constructor, around a `FixedBytes<256>`
/// built the same way. Not proved: that the filter built holds the bytes of
/// the array given.
#[verifier::external_body]
pub(crate) fn bloom_from_array(bytes: [u8; 256]) -> (b: Bloom)
    ensures
        bloom_bytes(b) == bytes@,
{
    Bloom(FixedBytes(bytes))
}

/// Calls [`Uint::to_le_bytes`] for 8 bytes, the size of a `Uint<64, 1>`. Not
/// proved: that the array returned spells the number, least significant
/// byte first.
#[verifier::external_body]
pub(crate) fn u64_to_le_bytes(x: Uint<64, 1>) -> (bytes: [u8; 8])
    ensures
        bytes@ == u64_le_bytes(x),
{
    x.to_le_bytes::<8>()
}

/// Calls [`Uint::from_le_bytes`] with 8 bytes, the size of a `Uint<64, 1>`.
/// Not proved: that the integer returned is the number that the array
/// spells, least significant byte first.
#[verifier::external_body]
pub(crate) fn u64_from_le_bytes(bytes: [u8; 8]) -> (x: Uint<64, 1>)
    ensures
        u64_le_bytes(x) == bytes@,
{
    Uint::<64, 1>::from_le_bytes::<8>(bytes)
}

/// Calls [`Uint::to_le_bytes`] for 16 bytes, the size of a `Uint<128, 2>`.
/// Not proved: that the array returned spells the number, least significant
/// byte first.
#[verifier::external_body]
pub(crate) fn u128_to_le_bytes(x: Uint<128, 2>) -> (bytes: [u8; 16])
    ensures
        bytes@ == u128_le_bytes(x),
{
    x.to_le_bytes::<16>()
}

/// Calls [`Uint::from_le_bytes`] with 16 bytes, the size of a
/// `Uint<128, 2>`. Not proved: that the integer returned is the number that
/// the array spells, least significant byte first.
#[verifier::external_body]
pub(crate) fn u128_from_le_bytes(bytes: [u8; 16]) -> (x: Uint<128, 2>)
    ensures
        u128_le_bytes(x) == bytes@,
{
    Uint::<128, 2>::from_le_bytes::<16>(bytes)
}

/// Calls [`Uint::to_le_bytes`] for 32 bytes, the size of a `Uint<256, 4>`.
/// Not proved: that the array returned spells the number, least significant
/// byte first.
#[verifier::external_body]
pub(crate) fn u256_to_le_bytes(x: Uint<256, 4>) -> (bytes: [u8; 32])
    ensures
        bytes@ == u256_le_bytes(x),
{
    x.to_le_bytes::<32>()
}

/// Calls [`Uint::from_le_bytes`] with 32 bytes, the size of a
/// `Uint<256, 4>`. Not proved: that the integer returned is the number that
/// the array spells, least significant byte first.
#[verifier::external_body]
pub(crate) fn u256_from_le_bytes(bytes: [u8; 32]) -> (x: Uint<256, 4>)
    ensures
        u256_le_bytes(x) == bytes@,
{
    Uint::<256, 4>::from_le_bytes::<32>(bytes)
}

/// Calls [`Uint::to_le_bytes`] for 64 bytes, the size of a `Uint<512, 8>`.
/// Not proved: that the array returned spells the number, least significant
/// byte first.
#[verifier::external_body]
pub(crate) fn u512_to_le_bytes(x: Uint<512, 8>) -> (bytes: [u8; 64])
    ensures
        bytes@ == u512_le_bytes(x),
{
    x.to_le_bytes::<64>()
}

/// Calls [`Uint::from_le_bytes`] with 64 bytes, the size of a
/// `Uint<512, 8>`. Not proved: that the integer returned is the number that
/// the array spells, least significant byte first.
#[verifier::external_body]
pub(crate) fn u512_from_le_bytes(bytes: [u8; 64]) -> (x: Uint<512, 8>)
    ensures
        u512_le_bytes(x) == bytes@,
{
    Uint::<512, 8>::from_le_bytes::<64>(bytes)
}

} // verus!
