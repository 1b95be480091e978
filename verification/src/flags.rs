//! The status register: six architectural flags plus the two marker bits
//! that only appear in the stack image of the flag byte.

use vstd::prelude::*;

verus! {

/// Carry flag, bit 0.
pub const CARRY: u8 = 0x01;

/// Zero flag, bit 1.
pub const ZERO: u8 = 0x02;

/// Interrupt-disable flag, bit 2.
pub const INTERRUPT_DISABLE: u8 = 0x04;

/// Decimal-mode flag, bit 3; architecturally inert on this target.
pub const DECIMAL_MODE: u8 = 0x08;

/// Break marker, bit 4; meaningful only in the stack image of the flags.
pub const BREAK: u8 = 0x10;

/// Second break marker, bit 5; forced on whenever the flags are restored.
pub const BREAK2: u8 = 0x20;

/// Overflow flag, bit 6.
pub const OVERFLOW: u8 = 0x40;

/// Negative flag, bit 7.
pub const NEGATIVE: u8 = 0x80;

/// Status byte right after reset: interrupt-disable and the bit-5 marker.
pub const STATUS_RESET: u8 = 0x24;

/// Whether some bit of `mask` is set in the status byte `st`.
pub open spec fn flag_set(st: u8, mask: u8) -> bool {
    st & mask != 0
}

/// `st` with the bits of `mask` forced to `on`.
pub open spec fn with_flag(st: u8, mask: u8, on: bool) -> u8 {
    if on {
        st | mask
    } else {
        st & !mask
    }
}

/// Zero and negative recomputed from an 8-bit result; all other bits kept.
pub open spec fn with_zero_negative(st: u8, result: u8) -> u8 {
    with_flag(with_flag(st, ZERO, result == 0), NEGATIVE, result & 0x80 != 0)
}

/// The flag byte as pushed by the push-flags instruction: both markers on.
pub open spec fn stack_image(st: u8) -> u8 {
    st | BREAK | BREAK2
}

/// The flag byte as restored from a stack image: the first marker forced
/// off and the second forced on, matching the fixed bit-5 hardware behaviour.
pub open spec fn from_stack_image(image: u8) -> u8 {
    (image & !BREAK) | BREAK2
}

/// The status register as a bitfield.
#[derive(Clone, Copy, PartialEq, Eq, Structural, Debug)]
pub struct Status {
    pub bits: u8,
}

impl Status {
    /// A status register holding exactly the byte `bits`.
    pub fn from_bits(bits: u8) -> (r: Status)
        ensures
            r.bits == bits,
    {
        Status { bits }
    }

    /// The raw flag byte.
    pub fn bits(&self) -> (r: u8)
        ensures
            r == self.bits,
    {
        self.bits
    }

    /// Whether some bit of `mask` is set.
    pub fn contains(&self, mask: u8) -> (r: bool)
        ensures
            r == flag_set(self.bits, mask),
    {
        self.bits & mask != 0
    }

    /// Force the bits of `mask` on.
    pub fn insert(&mut self, mask: u8)
        ensures
            final(self).bits == with_flag(old(self).bits, mask, true),
    {
        self.bits = self.bits | mask;
    }

    /// Force the bits of `mask` off.
    pub fn remove(&mut self, mask: u8)
        ensures
            final(self).bits == with_flag(old(self).bits, mask, false),
    {
        self.bits = self.bits & !mask;
    }

    /// Force the bits of `mask` to `on`.
    pub fn set(&mut self, mask: u8, on: bool)
        ensures
            final(self).bits == with_flag(old(self).bits, mask, on),
    {
        if on {
            self.bits = self.bits | mask;
        } else {
            self.bits = self.bits & !mask;
        }
    }

    /// Recompute zero and negative from `result`, leaving the rest alone.
    pub fn update_zero_and_negative(&mut self, result: u8)
        ensures
            final(self).bits == with_zero_negative(old(self).bits, result),
    {
        self.set(ZERO, result == 0);
        self.set(NEGATIVE, result & 0x80 != 0);
    }
}

/// Reading a flag back after forcing that same flag yields what was forced,
/// for any non-empty mask.
pub proof fn lemma_flag_get_set(st: u8, mask: u8, on: bool)
    requires
        mask != 0,
    ensures
        flag_set(with_flag(st, mask, on), mask) == on,
{
    assert((mask != 0 ==> ((st | mask) & mask != 0)) && ((st & !mask) & mask == 0))
        by (bit_vector);
}

/// Forcing one set of bits leaves every disjoint set of bits unchanged.
pub proof fn lemma_flag_get_other(st: u8, mask: u8, other: u8, on: bool)
    requires
        mask & other == 0,
    ensures
        flag_set(with_flag(st, mask, on), other) == flag_set(st, other),
{
    assert(mask & other == 0 ==> ((((st | mask) & other != 0) == (st & other != 0)) && (((st
        & !mask) & other != 0) == (st & other != 0)))) by (bit_vector);
}

/// The four data flags occupy pairwise distinct bits.
pub proof fn lemma_masks_disjoint()
    ensures
        CARRY & ZERO == 0,
        CARRY & NEGATIVE == 0,
        CARRY & OVERFLOW == 0,
        ZERO & NEGATIVE == 0,
        ZERO & OVERFLOW == 0,
        NEGATIVE & OVERFLOW == 0,
        ZERO & CARRY == 0,
        NEGATIVE & CARRY == 0,
        OVERFLOW & CARRY == 0,
        NEGATIVE & ZERO == 0,
        OVERFLOW & ZERO == 0,
        OVERFLOW & NEGATIVE == 0,
{
    assert(0x01u8 & 0x02u8 == 0 && 0x01u8 & 0x80u8 == 0 && 0x01u8 & 0x40u8 == 0 && 0x02u8
        & 0x80u8 == 0 && 0x02u8 & 0x40u8 == 0 && 0x80u8 & 0x40u8 == 0 && 0x02u8 & 0x01u8 == 0
        && 0x80u8 & 0x01u8 == 0 && 0x40u8 & 0x01u8 == 0 && 0x80u8 & 0x02u8 == 0 && 0x40u8
        & 0x02u8 == 0 && 0x40u8 & 0x80u8 == 0) by (bit_vector);
}

/// After recomputing zero and negative from `result`, zero tracks
/// `result == 0`, negative tracks bit 7 of `result`, and carry and
/// overflow keep their old values.
pub proof fn lemma_zero_negative_read(st: u8, result: u8)
    ensures
        flag_set(with_zero_negative(st, result), ZERO) == (result == 0),
        flag_set(with_zero_negative(st, result), NEGATIVE) == (result & 0x80 != 0),
        flag_set(with_zero_negative(st, result), CARRY) == flag_set(st, CARRY),
        flag_set(with_zero_negative(st, result), OVERFLOW) == flag_set(st, OVERFLOW),
{
    lemma_masks_disjoint();
    let st1 = with_flag(st, ZERO, result == 0);
    lemma_flag_get_set(st, ZERO, result == 0);
    lemma_flag_get_set(st1, NEGATIVE, result & 0x80 != 0);
    lemma_flag_get_other(st1, NEGATIVE, ZERO, result & 0x80 != 0);
    lemma_flag_get_other(st, ZERO, CARRY, result == 0);
    lemma_flag_get_other(st1, NEGATIVE, CARRY, result & 0x80 != 0);
    lemma_flag_get_other(st, ZERO, OVERFLOW, result == 0);
    lemma_flag_get_other(st1, NEGATIVE, OVERFLOW, result & 0x80 != 0);
}

} // verus!
