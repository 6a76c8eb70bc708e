//! The counter record and the accessors of its 8-bit unsigned field.

use crate::field::pow2_128;
use crate::field::wide_signed_range;
use crate::field::wide_unsigned_range;
use crate::field::Field;
use crate::field::Wide;
use crate::word::builtin_try_from_uint8;
use crate::word::uint8_add;
use crate::word::uint8_try_from_builtin;
use crate::word::wrapped_sum;
use crate::word::U8;
use vstd::arithmetic::power2::lemma2_to64;
use vstd::arithmetic::power2::lemma2_to64_rest;
use vstd::arithmetic::power2::lemma_pow2_pos;
use vstd::arithmetic::power2::pow2;
use vstd::prelude::*;

verus! {

/// One integer field per declared width. A field holds the value last
/// written to it, and zero before any write.
///
/// The view of a record is the map from each field to the value it holds.
#[derive(Clone, Copy, Debug, PartialEq, Eq, Structural)]
pub struct Counter {
    pub unsigned8: u8,
    pub unsigned16: u16,
    /// 24 bits, kept in the next wider machine integer.
    pub unsigned24: u32,
    pub unsigned32: u32,
    pub unsigned64: u64,
    pub unsigned128: u128,
    pub unsigned160: Wide,
    pub unsigned200: Wide,
    pub unsigned256: Wide,
    pub signed8: i8,
    pub signed16: i16,
    /// 24 bits, kept in the next wider machine integer.
    pub signed24: i32,
    pub signed32: i32,
    pub signed64: i64,
    pub signed128: i128,
    pub signed160: Wide,
    pub signed200: Wide,
    pub signed256: Wide,
}

impl View for Counter {
    type V = Map<Field, int>;

    open spec fn view(&self) -> Map<Field, int> {
        Map::total(|field: Field| self.value(field))
    }
}

impl Counter {
    /// The record before any write: every field is zero.
    pub open spec fn zero() -> Counter {
        let wide = Wide { hi: 0, lo: 0 };
        Counter {
            unsigned8: 0,
            unsigned16: 0,
            unsigned24: 0,
            unsigned32: 0,
            unsigned64: 0,
            unsigned128: 0,
            unsigned160: wide,
            unsigned200: wide,
            unsigned256: wide,
            signed8: 0,
            signed16: 0,
            signed24: 0,
            signed32: 0,
            signed64: 0,
            signed128: 0,
            signed160: wide,
            signed200: wide,
            signed256: wide,
        }
    }

    /// Every field holds a value of its declared width. Only the fields kept
    /// in a wider machine type can fail this: those of 24 bits, and those of
    /// 160 and 200 bits, whose upper halves have 32 and 72 bits.
    pub open spec fn wf(self) -> bool {
        &&& self.unsigned24 < 0x100_0000
        &&& -0x80_0000 <= self.signed24 < 0x80_0000
        &&& self.unsigned160.fits(32)
        &&& self.unsigned200.fits(72)
        &&& self.signed160.fits(32)
        &&& self.signed200.fits(72)
    }

    /// The value that a field holds, as a mathematical integer.
    pub open spec fn value(self, field: Field) -> int {
        match field {
            Field::Unsigned8 => self.unsigned8 as int,
            Field::Unsigned16 => self.unsigned16 as int,
            Field::Unsigned24 => self.unsigned24 as int,
            Field::Unsigned32 => self.unsigned32 as int,
            Field::Unsigned64 => self.unsigned64 as int,
            Field::Unsigned128 => self.unsigned128 as int,
            Field::Unsigned160 => self.unsigned160.unsigned_value(),
            Field::Unsigned200 => self.unsigned200.unsigned_value(),
            Field::Unsigned256 => self.unsigned256.unsigned_value(),
            Field::Signed8 => self.signed8 as int,
            Field::Signed16 => self.signed16 as int,
            Field::Signed24 => self.signed24 as int,
            Field::Signed32 => self.signed32 as int,
            Field::Signed64 => self.signed64 as int,
            Field::Signed128 => self.signed128 as int,
            Field::Signed160 => self.signed160.signed_value(160),
            Field::Signed200 => self.signed200.signed_value(200),
            Field::Signed256 => self.signed256.signed_value(256),
        }
    }

    /// The record after `value` is written to the 8-bit unsigned field: that
    /// field holds `value`, every other field is as before.
    pub open spec fn store_u8(self, value: u8) -> Counter {
        Counter { unsigned8: value, ..self }
    }

    /// The record after the 8-bit unsigned field is incremented: the field
    /// holds one more than before, and zero after 255.
    pub open spec fn incremented_u8(self) -> Counter {
        self.store_u8(wrapped_sum(self.unsigned8 as int, 1) as u8)
    }

    /// Reads the 8-bit unsigned field as a word of the interface.
    pub fn get_u8(&self) -> (word: U8)
        ensures
            word@ == self@[Field::Unsigned8],
    {
        U8 { value: self.unsigned8 }
    }

    /// Reads the 8-bit unsigned field as a machine integer.
    pub fn get_u8_builtin(&self) -> (value: u8)
        ensures
            value == self@[Field::Unsigned8],
    {
        builtin_try_from_uint8(self.unsigned8).unwrap()
    }

    /// Overwrites the 8-bit unsigned field with a word of the interface.
    pub fn set_u8(&mut self, value: U8)
        ensures
            *final(self) == old(self).store_u8(value.value),
            final(self)@ == old(self)@.insert(Field::Unsigned8, value@),
            old(self).wf() ==> final(self).wf(),
    {
        proof {
            write_changes_one_field(*self, value.value);
        }
        self.unsigned8 = value.value;
    }

    /// Overwrites the 8-bit unsigned field with a machine integer.
    pub fn set_u8_builtin(&mut self, value: u8)
        ensures
            *final(self) == old(self).store_u8(value),
            final(self)@ == old(self)@.insert(Field::Unsigned8, value as int),
            old(self).wf() ==> final(self).wf(),
    {
        proof {
            write_changes_one_field(*self, value);
        }
        self.unsigned8 = uint8_try_from_builtin(value).unwrap();
    }

    /// Adds one to the 8-bit unsigned field; 255 becomes 0.
    pub fn increment_u8(&mut self)
        ensures
            *final(self) == old(self).incremented_u8(),
            final(self)@ == old(self)@.insert(
                Field::Unsigned8,
                wrapped_sum(old(self)@[Field::Unsigned8], 1),
            ),
            old(self).wf() ==> final(self).wf(),
    {
        let current: u8 = self.unsigned8;
        let next: u8 = uint8_add(current, 1);
        proof {
            write_changes_one_field(*self, next);
        }
        self.unsigned8 = next;
    }
}

impl Default for Counter {
    /// The record before any write.
    fn default() -> (fresh: Counter)
        ensures
            fresh == Counter::zero(),
            fresh@ == Map::total(|field: Field| 0int),
            fresh.wf(),
    {
        proof {
            fresh_record_is_zero();
        }
        let wide = Wide { hi: 0, lo: 0 };
        Counter {
            unsigned8: 0,
            unsigned16: 0,
            unsigned24: 0,
            unsigned32: 0,
            unsigned64: 0,
            unsigned128: 0,
            unsigned160: wide,
            unsigned200: wide,
            unsigned256: wide,
            signed8: 0,
            signed16: 0,
            signed24: 0,
            signed32: 0,
            signed64: 0,
            signed128: 0,
            signed160: wide,
            signed200: wide,
            signed256: wide,
        }
    }
}

/// A write to the 8-bit unsigned field changes the value of that field and
/// of no other, and keeps every field within its width.
pub proof fn write_changes_one_field(before: Counter, value: u8)
    ensures
        before.store_u8(value)@ == before@.insert(Field::Unsigned8, value as int),
        before.wf() ==> before.store_u8(value).wf(),
{
    assert(before.store_u8(value)@ =~= before@.insert(Field::Unsigned8, value as int));
}

/// A read of the 8-bit unsigned field after a write returns the value
/// written, whatever the field held before, and a read of any other field
/// returns what it returned before the write.
pub proof fn read_after_write_u8(before: Counter, value: u8)
    ensures
        before.store_u8(value)@[Field::Unsigned8] == value,
        forall|field: Field|
            field != Field::Unsigned8 ==> before.store_u8(value)@[field] == before@[field],
{
}

/// A later write to the 8-bit unsigned field hides an earlier one.
pub proof fn last_write_wins_u8(before: Counter, first: u8, second: u8)
    ensures
        before.store_u8(first).store_u8(second) == before.store_u8(second),
{
}

/// A read of the 8-bit unsigned field after an increment returns one more
/// than a read before it, and 0 where the field held 255. The increment
/// changes no other field, and keeps every field within its width.
pub proof fn read_after_increment_u8(before: Counter)
    ensures
        before@[Field::Unsigned8] < 255 ==> before.incremented_u8()@[Field::Unsigned8]
            == before@[Field::Unsigned8] + 1,
        before@[Field::Unsigned8] == 255 ==> before.incremented_u8()@[Field::Unsigned8] == 0,
        forall|field: Field|
            field != Field::Unsigned8 ==> before.incremented_u8()@[field] == before@[field],
        before.wf() ==> before.incremented_u8().wf(),
{
}

/// Before any write every field of the record holds zero, so a read of the
/// 8-bit unsigned field returns 0 and the first increment makes it 1.
pub proof fn fresh_record_is_zero()
    ensures
        Counter::zero().wf(),
        Counter::zero()@ == Map::total(|field: Field| 0int),
        Counter::zero().incremented_u8()@[Field::Unsigned8] == 1,
{
    lemma_pow2_pos(32);
    lemma_pow2_pos(72);
    lemma_pow2_pos(159);
    lemma_pow2_pos(199);
    lemma_pow2_pos(255);
    let wide = Wide { hi: 0, lo: 0 };
    assert(wide.unsigned_value() == 0) by (nonlinear_arith)
        requires
            wide.hi == 0,
            wide.lo == 0,
            wide.unsigned_value() == wide.hi * pow2(128) + wide.lo,
    ;
    assert(Counter::zero()@ =~= Map::total(|field: Field| 0int));
}

/// In a record that is well formed, every field holds a value of its
/// declared width: an unsigned field of `n` bits one from 0 to `2^n - 1`, a
/// signed one from `-2^(n - 1)` to `2^(n - 1) - 1`.
pub proof fn values_in_range(record: Counter, field: Field)
    requires
        record.wf(),
    ensures
        field.least() <= record@[field] <= field.greatest(),
{
    lemma2_to64();
    lemma2_to64_rest();
    pow2_128();
    match field {
        Field::Unsigned160 => wide_unsigned_range(record.unsigned160, 32),
        Field::Unsigned200 => wide_unsigned_range(record.unsigned200, 72),
        Field::Unsigned256 => wide_unsigned_range(record.unsigned256, 128),
        Field::Signed160 => wide_signed_range(record.signed160, 32),
        Field::Signed200 => wide_signed_range(record.signed200, 72),
        Field::Signed256 => wide_signed_range(record.signed256, 128),
        _ => {},
    }
}

} // verus!
