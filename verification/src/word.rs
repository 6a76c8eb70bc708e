//! The 8-bit unsigned word of the interface, and the three operations of
//! `alloy_primitives::Uint<8, 1>` that the counter relies on.

use alloy_primitives::Uint;
use vstd::prelude::*;

verus! {

/// An unsigned integer of exactly 8 bits, as the interface carries it.
///
/// Every `u8` is a value of it; its view is that value as a mathematical
/// integer.
#[derive(Clone, Copy, Debug, PartialEq, Eq, Structural)]
pub struct U8 {
    pub value: u8,
}

impl View for U8 {
    type V = int;

    open spec fn view(&self) -> int {
        self.value as int
    }
}

/// The number of values an 8-bit word can hold.
pub open spec fn modulus() -> int {
    256
}

/// The sum of two 8-bit values under the word's overflow rule: it wraps around.
pub open spec fn wrapped_sum(a: int, b: int) -> int {
    (a + b) % modulus()
}

/// Trusted: `+` on `Uint<8, 1>`, which ruint implements as `wrapping_add`,
/// the sum modulo 2^8. Both operands are built with `Uint::from`, which
/// cannot fail for a `u8` in 8 bits, and the sum, itself below 2^8, is read
/// back as the word's only byte.
#[verifier::external_body]
pub(crate) fn uint8_add(a: u8, b: u8) -> (sum: u8)
    ensures
        sum == wrapped_sum(a as int, b as int),
{
    let x: Uint<8, 1> = Uint::from(a);
    let y: Uint<8, 1> = Uint::from(b);
    (x + y).byte(0)
}

/// Trusted: `Uint::<8, 1>::try_from(u8)`. ruint widens the argument to `u64`
/// and rejects it only above the 8-bit mask, 255, so every `u8` is accepted
/// and kept as it is. The word is handed back by the byte it holds.
#[verifier::external_body]
pub(crate) fn uint8_try_from_builtin(value: u8) -> (word: Option<u8>)
    ensures
        word == Some(value),
{
    match Uint::<8, 1>::try_from(value) {
        Ok(w) => Some(w.byte(0)),
        Err(_) => None,
    }
}

/// Trusted: `u8::try_from(Uint<8, 1>)`. ruint rejects a word only when it
/// has more than 8 significant bits, which an 8-bit word never has, and
/// otherwise returns its limb. The word is built from the byte it is to hold.
#[verifier::external_body]
pub(crate) fn builtin_try_from_uint8(word: u8) -> (value: Option<u8>)
    ensures
        value == Some(word),
{
    let w: Uint<8, 1> = Uint::from(word);
    match u8::try_from(w) {
        Ok(v) => Some(v),
        Err(_) => None,
    }
}

} // verus!
