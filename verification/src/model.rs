//! What a value stands for, whichever library holds it.
//!
//! Both libraries have types for the same two families of values: byte
//! strings of a fixed length (hashes, addresses, bloom filters) and unsigned
//! integers wider than a machine word. A conversion is right when the value
//! it returns stands for what its argument stood for, and [`Model::value`] is
//! the measure of that.
use vstd::arithmetic::power::pow;
use vstd::prelude::*;

verus! {

/// The meaning of a value of either library.
pub enum Value {
    /// A byte string of fixed length, first byte first.
    Bytes(Seq<u8>),
    /// An unsigned integer.
    Number(nat),
}

impl Value {
    /// Whether the value is one that `width` bytes hold: a byte string of
    /// just that length, or a number below `256^width`.
    pub open spec fn fits(self, width: nat) -> bool {
        match self {
            Value::Bytes(bytes) => bytes.len() == width,
            Value::Number(n) => n < pow(256, width),
        }
    }
}

/// Types whose values stand for a [`Value`].
pub trait Model {
    /// What `self` stands for.
    spec fn value(self) -> Value;

    /// The number of bytes that a value of the type takes: the length of a
    /// hash, an eighth of the bits of an integer.
    spec fn width() -> nat;
}

/// The number that `bytes` spells when the first byte is the least
/// significant one: byte `i` counts `256^i` times.
pub open spec fn le_value(bytes: Seq<u8>) -> nat
    decreases bytes.len(),
{
    if bytes.len() == 0 {
        0
    } else {
        bytes[0] as nat + 256 * le_value(bytes.skip(1))
    }
}

/// A number spelt with `n` bytes is below `256^n`.
pub proof fn lemma_le_value_bound(bytes: Seq<u8>)
    ensures
        le_value(bytes) < pow(256, bytes.len()),
    decreases bytes.len(),
{
    reveal(pow);
    if bytes.len() > 0 {
        lemma_le_value_bound(bytes.skip(1));
    }
}

} // verus!
