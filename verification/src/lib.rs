//! A counter record with one integer field per declared width, from 8 to 256
//! bits, unsigned and signed, and the accessors of its 8-bit unsigned field.
//!
//! The record is a plain value: whoever keeps it in persistent storage loads
//! it, calls an accessor and writes the changed field back. The arithmetic
//! and the conversions of the 8-bit field are those of
//! `alloy_primitives::Uint<8, 1>`.

pub mod counter;
pub mod field;
pub mod word;

pub use counter::Counter;
pub use field::Field;
pub use field::Wide;
pub use word::U8;
