//! The fields of the counter record: their names, widths and ranges, and the
//! representation of the fields wider than 128 bits.

use vstd::arithmetic::power2::lemma2_to64;
use vstd::arithmetic::power2::lemma_pow2_adds;
use vstd::arithmetic::power2::lemma_pow2_unfold;
use vstd::arithmetic::power2::pow2;
use vstd::prelude::*;

verus! {

/// A field of the record, named by its sign and its width in bits.
#[derive(Clone, Copy, Debug, PartialEq, Eq, Structural)]
pub enum Field {
    Unsigned8,
    Unsigned16,
    Unsigned24,
    Unsigned32,
    Unsigned64,
    Unsigned128,
    Unsigned160,
    Unsigned200,
    Unsigned256,
    Signed8,
    Signed16,
    Signed24,
    Signed32,
    Signed64,
    Signed128,
    Signed160,
    Signed200,
    Signed256,
}

impl Field {
    /// The declared width of the field, in bits.
    pub open spec fn bits(self) -> nat {
        match self {
            Field::Unsigned8 | Field::Signed8 => 8,
            Field::Unsigned16 | Field::Signed16 => 16,
            Field::Unsigned24 | Field::Signed24 => 24,
            Field::Unsigned32 | Field::Signed32 => 32,
            Field::Unsigned64 | Field::Signed64 => 64,
            Field::Unsigned128 | Field::Signed128 => 128,
            Field::Unsigned160 | Field::Signed160 => 160,
            Field::Unsigned200 | Field::Signed200 => 200,
            Field::Unsigned256 | Field::Signed256 => 256,
        }
    }

    /// Whether the field holds signed values.
    pub open spec fn signed(self) -> bool {
        match self {
            Field::Signed8
            | Field::Signed16
            | Field::Signed24
            | Field::Signed32
            | Field::Signed64
            | Field::Signed128
            | Field::Signed160
            | Field::Signed200
            | Field::Signed256 => true,
            _ => false,
        }
    }

    /// The least value the field can hold.
    pub open spec fn least(self) -> int {
        if self.signed() {
            -(pow2((self.bits() - 1) as nat) as int)
        } else {
            0
        }
    }

    /// The greatest value the field can hold.
    pub open spec fn greatest(self) -> int {
        if self.signed() {
            pow2((self.bits() - 1) as nat) - 1
        } else {
            pow2(self.bits()) - 1
        }
    }
}

/// The bits of a field wider than 128 bits, in two halves: `hi` holds the
/// bits from 128 upwards, `lo` the 128 bits below. A signed field keeps its
/// value in two's complement.
#[derive(Clone, Copy, Debug, PartialEq, Eq, Structural)]
pub struct Wide {
    pub hi: u128,
    pub lo: u128,
}

impl Wide {
    /// The bits read as an unsigned number: `hi * 2^128 + lo`.
    pub open spec fn unsigned_value(self) -> int {
        self.hi * pow2(128) + self.lo
    }

    /// The bits read as a two's complement number of `bits` bits: from
    /// `2^(bits - 1)` upwards they stand for the negative numbers.
    pub open spec fn signed_value(self, bits: nat) -> int {
        if self.unsigned_value() >= pow2((bits - 1) as nat) {
            self.unsigned_value() - pow2(bits)
        } else {
            self.unsigned_value()
        }
    }

    /// Whether the bits fit in `128 + upper` bits: `hi` is below `2^upper`.
    pub open spec fn fits(self, upper: nat) -> bool {
        self.hi < pow2(upper)
    }
}

/// `2^128` is one more than the greatest `u128`.
pub proof fn pow2_128()
    ensures
        pow2(128) == u128::MAX + 1,
        pow2(127) == i128::MAX + 1,
{
    lemma2_to64();
    lemma_pow2_adds(64, 64);
    lemma_pow2_unfold(128);
    assert(0x1_0000_0000_0000_0000int * 0x1_0000_0000_0000_0000int == u128::MAX + 1);
}

/// Bits that fit in `128 + upper` bits are, read as an unsigned number,
/// between 0 and `2^(128 + upper) - 1`.
pub proof fn wide_unsigned_range(wide: Wide, upper: nat)
    requires
        wide.fits(upper),
    ensures
        0 <= wide.unsigned_value() <= pow2(128 + upper) - 1,
{
    pow2_128();
    lemma_pow2_adds(128, upper);
    let unit: int = pow2(128) as int;
    let hi: int = wide.hi as int;
    let top: int = pow2(upper) as int;
    assert(0 <= hi * unit && hi * unit <= (top - 1) * unit) by (nonlinear_arith)
        requires
            0 <= hi <= top - 1,
            unit > 0,
    ;
    assert((top - 1) * unit == unit * top - unit) by (nonlinear_arith);
}

/// Bits that fit in `128 + upper` bits are, read in two's complement at that
/// width, between `-2^(127 + upper)` and `2^(127 + upper) - 1`.
pub proof fn wide_signed_range(wide: Wide, upper: nat)
    requires
        wide.fits(upper),
    ensures
        -pow2(127 + upper) <= wide.signed_value(128 + upper) <= pow2(127 + upper) - 1,
{
    wide_unsigned_range(wide, upper);
    lemma_pow2_unfold(128 + upper);
    assert((128 + upper - 1) as nat == 127 + upper);
}

} // verus!
