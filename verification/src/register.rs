//! Typed, fixed-address register access.
//!
//! A register is a zero-sized type whose `Register` impl binds it to one cell
//! of the modeled register file. All operations are read-modify-write
//! combinations of one volatile load and one volatile store, and their
//! contracts say the exact new cell value. None of them is atomic with
//! respect to interrupt handlers: a caller that needs a read-modify-write
//! sequence to be uninterruptible must run it inside a critical section
//! (see `interrupt`).

use vstd::prelude::*;

use crate::mcu::{same_except_reg, Mcu, REG_FILE_SIZE};

verus! {

/// What a masked-set leaves in a register: `r | m`.
pub open spec fn spec_set_mask(r: u8, m: u8) -> u8 {
    r | m
}

/// What a masked-clear leaves in a register: `r & !m`.
pub open spec fn spec_unset_mask(r: u8, m: u8) -> u8 {
    r & !m
}

/// What a masked-toggle leaves in a register: `r ^ m`.
pub open spec fn spec_toggle_mask(r: u8, m: u8) -> u8 {
    r ^ m
}

/// Every bit of `m` is set in `r`.
pub open spec fn spec_mask_set(r: u8, m: u8) -> bool {
    r & m == m
}

/// Every bit of `m` is clear in `r`.
pub open spec fn spec_mask_clear(r: u8, m: u8) -> bool {
    r & m == 0
}

/// A value that a register can store. The registers of this device family
/// are 8 bits wide; 16-bit registers exist on related devices, so both `u8`
/// and `u16` are register values.
pub trait RegisterValue: Copy {
    /// The mathematical value stored.
    spec fn value_spec(&self) -> int;
}

impl RegisterValue for u8 {
    open spec fn value_spec(&self) -> int {
        *self as int
    }
}

impl RegisterValue for u16 {
    open spec fn value_spec(&self) -> int {
        *self as int
    }
}

/// A register: a compile-time binding of a name to a fixed address. The
/// type has no runtime state; two registers are the same register exactly
/// when they are the same type.
pub trait Register: Sized {
    /// The fixed address of this register in the register file.
    spec fn spec_address() -> usize;

    /// The address, as a runtime value. Implementations return a literal
    /// below `REG_FILE_SIZE`, which is what lets every operation below
    /// index the register file.
    fn address() -> (a: usize)
        ensures
            a == Self::spec_address(),
            a < REG_FILE_SIZE,
    ;

    /// One volatile store of `value` to the register.
    fn write(mcu: &mut Mcu, value: u8)
        requires
            old(mcu).wf(),
        ensures
            final(mcu).wf(),
            same_except_reg(*old(mcu), *final(mcu), Self::spec_address(), value),
    {
        let a = Self::address();
        mcu.write_cell(a, value);
    }

    /// One volatile load of the register's value.
    fn read(mcu: &Mcu) -> (v: u8)
        requires
            mcu.wf(),
        ensures
            v == mcu.reg(Self::spec_address()),
    {
        let a = Self::address();
        mcu.read_cell(a)
    }

    /// Sets every bit of `bits` to `1` in the register.
    fn set(mcu: &mut Mcu, bits: RegisterBits<Self>)
        requires
            old(mcu).wf(),
        ensures
            final(mcu).wf(),
            same_except_reg(
                *old(mcu),
                *final(mcu),
                Self::spec_address(),
                spec_set_mask(old(mcu).reg(Self::spec_address()), bits.spec_mask()),
            ),
    {
        Self::set_mask_raw(mcu, bits.raw());
    }

    /// Read-modify-write OR: equivalent to `r |= mask`.
    fn set_mask_raw(mcu: &mut Mcu, mask: u8)
        requires
            old(mcu).wf(),
        ensures
            final(mcu).wf(),
            same_except_reg(
                *old(mcu),
                *final(mcu),
                Self::spec_address(),
                spec_set_mask(old(mcu).reg(Self::spec_address()), mask),
            ),
    {
        let a = Self::address();
        let v = mcu.read_cell(a);
        mcu.write_cell(a, v | mask);
    }

    /// Sets every bit of `bits` to `0` in the register.
    fn unset(mcu: &mut Mcu, bits: RegisterBits<Self>)
        requires
            old(mcu).wf(),
        ensures
            final(mcu).wf(),
            same_except_reg(
                *old(mcu),
                *final(mcu),
                Self::spec_address(),
                spec_unset_mask(old(mcu).reg(Self::spec_address()), bits.spec_mask()),
            ),
    {
        Self::unset_mask_raw(mcu, bits.raw());
    }

    /// Read-modify-write AND-NOT: equivalent to `r &= !mask`.
    fn unset_mask_raw(mcu: &mut Mcu, mask: u8)
        requires
            old(mcu).wf(),
        ensures
            final(mcu).wf(),
            same_except_reg(
                *old(mcu),
                *final(mcu),
                Self::spec_address(),
                spec_unset_mask(old(mcu).reg(Self::spec_address()), mask),
            ),
    {
        let a = Self::address();
        let v = mcu.read_cell(a);
        mcu.write_cell(a, v & !mask);
    }

    /// Toggles every bit of `bits` in the register.
    fn toggle(mcu: &mut Mcu, bits: RegisterBits<Self>)
        requires
            old(mcu).wf(),
        ensures
            final(mcu).wf(),
            same_except_reg(
                *old(mcu),
                *final(mcu),
                Self::spec_address(),
                spec_toggle_mask(old(mcu).reg(Self::spec_address()), bits.spec_mask()),
            ),
    {
        Self::toggle_raw(mcu, bits.raw());
    }

    /// Read-modify-write XOR: equivalent to `r ^= mask`.
    fn toggle_raw(mcu: &mut Mcu, mask: u8)
        requires
            old(mcu).wf(),
        ensures
            final(mcu).wf(),
            same_except_reg(
                *old(mcu),
                *final(mcu),
                Self::spec_address(),
                spec_toggle_mask(old(mcu).reg(Self::spec_address()), mask),
            ),
    {
        let a = Self::address();
        let v = mcu.read_cell(a);
        mcu.write_cell(a, v ^ mask);
    }

    /// True exactly when every bit of `bits` is set in the register.
    fn is_set(mcu: &Mcu, bits: RegisterBits<Self>) -> (r: bool)
        requires
            mcu.wf(),
        ensures
            r == spec_mask_set(mcu.reg(Self::spec_address()), bits.spec_mask()),
    {
        Self::is_mask_set_raw(mcu, bits.raw())
    }

    /// True exactly when `(r & mask) == mask`.
    fn is_mask_set_raw(mcu: &Mcu, mask: u8) -> (r: bool)
        requires
            mcu.wf(),
        ensures
            r == spec_mask_set(mcu.reg(Self::spec_address()), mask),
    {
        let a = Self::address();
        let v = mcu.read_cell(a);
        v & mask == mask
    }

    /// True exactly when every bit of `bits` is clear in the register.
    fn is_clear(mcu: &Mcu, bits: RegisterBits<Self>) -> (r: bool)
        requires
            mcu.wf(),
        ensures
            r == spec_mask_clear(mcu.reg(Self::spec_address()), bits.spec_mask()),
    {
        Self::is_clear_raw(mcu, bits.raw())
    }

    /// True exactly when `(r & mask) == 0`.
    fn is_clear_raw(mcu: &Mcu, mask: u8) -> (r: bool)
        requires
            mcu.wf(),
        ensures
            r == spec_mask_clear(mcu.reg(Self::spec_address()), mask),
    {
        let a = Self::address();
        let v = mcu.read_cell(a);
        v & mask == 0
    }

    /// Busy-spins, re-reading the register, until every bit of `bits` is set.
    fn wait_until_set(mcu: &Mcu, bits: RegisterBits<Self>)
        requires
            mcu.wf(),
            spec_mask_set(mcu.reg(Self::spec_address()), bits.spec_mask()),
    {
        Self::wait_until_mask_set_raw(mcu, bits.raw());
    }

    /// Busy-spins, re-reading the register, until every bit of `mask` is set.
    /// There is no timeout and no yielding: on hardware, a caller that polls
    /// a condition the device never satisfies does not return. The model has
    /// no concurrent actor that could change the register during the spin,
    /// so that liveness obligation of the caller becomes the precondition
    /// that the polled bits already be set.
    fn wait_until_mask_set_raw(mcu: &Mcu, mask: u8)
        requires
            mcu.wf(),
            spec_mask_set(mcu.reg(Self::spec_address()), mask),
    {
        while !Self::is_mask_set_raw(mcu, mask)
            invariant
                mcu.wf(),
                spec_mask_set(mcu.reg(Self::spec_address()), mask),
            decreases 0int,
        {
        }
    }
}

/// A bitmask tagged with the register it applies to. Two masks can only be
/// combined when they carry the same tag, so a mask built for one register
/// cannot be applied to another.
pub struct RegisterBits<R> {
    mask: u8,
    _register: core::marker::PhantomData<R>,
}

impl<R> RegisterBits<R> {
    /// The raw bitmask wrapped by this value.
    pub closed spec fn spec_mask(&self) -> u8 {
        self.mask
    }

    /// Wraps a raw mask, tagging it with the register `R`.
    pub fn new(mask: u8) -> (r: Self)
        ensures
            r.spec_mask() == mask,
    {
        RegisterBits { mask, _register: core::marker::PhantomData }
    }

    /// The empty mask.
    pub fn zero() -> (r: Self)
        ensures
            r.spec_mask() == 0,
    {
        RegisterBits::new(0)
    }

    /// The union of two masks for the same register.
    pub fn or(self, rhs: Self) -> (r: Self)
        ensures
            r.spec_mask() == self.spec_mask() | rhs.spec_mask(),
    {
        RegisterBits::new(self.mask | rhs.mask)
    }

    /// The intersection of two masks for the same register.
    pub fn and(self, rhs: Self) -> (r: Self)
        ensures
            r.spec_mask() == self.spec_mask() & rhs.spec_mask(),
    {
        RegisterBits::new(self.mask & rhs.mask)
    }

    /// The complement of a mask, still tagged with the same register.
    pub fn not(self) -> (r: Self)
        ensures
            r.spec_mask() == !self.spec_mask(),
    {
        RegisterBits::new(!self.mask)
    }

    /// The explicit, one-directional conversion back to the raw integer.
    pub fn raw(self) -> (r: u8)
        ensures
            r == self.spec_mask(),
    {
        self.mask
    }
}

impl<R> Clone for RegisterBits<R> {
    fn clone(&self) -> (r: Self)
        ensures
            r.spec_mask() == self.spec_mask(),
    {
        RegisterBits { mask: self.mask, _register: core::marker::PhantomData }
    }
}

impl<R> Copy for RegisterBits<R> {}

/// Setting a mask and then clearing the same mask restores every bit outside
/// the mask to its value before the pair of calls and clears exactly the bits
/// in the mask: the composition of `set_mask_raw(m)` and `unset_mask_raw(m)`
/// leaves the register as a single `unset_mask_raw(m)` would.
pub proof fn lemma_set_then_unset_mask(r: u8, m: u8)
    ensures
        spec_unset_mask(spec_set_mask(r, m), m) == spec_unset_mask(r, m),
        spec_mask_clear(spec_unset_mask(spec_set_mask(r, m), m), m),
        forall|i: u8|
            i < 8 && (m >> i) & 1 == 0 ==> (spec_unset_mask(spec_set_mask(r, m), m) >> i) & 1 == (
            r >> i) & 1,
{
    assert((r | m) & !m == r & !m) by (bit_vector);
    assert(((r | m) & !m) & m == 0) by (bit_vector);
    assert(forall|i: u8| i < 8 && (m >> i) & 1 == 0 ==> (((r | m) & !m) >> i) & 1 == (r >> i) & 1)
        by (bit_vector);
}

/// Toggling a mask twice is the identity: two `toggle_raw(m)` calls leave the
/// register exactly as it was.
pub proof fn lemma_toggle_twice(r: u8, m: u8)
    ensures
        spec_toggle_mask(spec_toggle_mask(r, m), m) == r,
{
    assert((r ^ m) ^ m == r) by (bit_vector);
}

/// Writing a value and then reading the same register yields that value:
/// after a state change that `write` promises, `read` returns what was
/// written.
pub proof fn lemma_write_then_read(pre: Mcu, post: Mcu, a: usize, v: u8)
    requires
        pre.wf(),
        a < REG_FILE_SIZE,
        same_except_reg(pre, post, a, v),
    ensures
        post.reg(a) == v,
{
}

} // verus!
