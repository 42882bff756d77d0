//! Single-bit pin access built from three related registers.
//!
//! A pin is a zero-sized type that names its direction register, its output
//! register and its input register, together with the bit position it
//! occupies in all three. The mask a pin uses is always `1 << OFFSET`, fixed
//! at compile time, so offset and mask can never disagree.

use vstd::prelude::*;

use crate::mcu::{same_except_reg, Mcu};
use crate::register::{
    spec_mask_clear, spec_mask_set, spec_set_mask, spec_toggle_mask, spec_unset_mask, Register,
};

verus! {

/// Whether a pin reads signals or drives them.
pub enum DataDirection {
    /// The pin is exclusively used for reading signals.
    Input,
    /// The pin is exclusively used for sending signals.
    Output,
}

/// The mask a pin with bit position `offset` uses in its registers.
pub open spec fn mask_of(offset: u8) -> u8 {
    1u8 << offset
}

/// The value of each pin mask: `1 << offset`, spelled out for the eight
/// possible offsets.
pub proof fn lemma_mask_of_values()
    ensures
        mask_of(0) == 0x01u8,
        mask_of(1) == 0x02u8,
        mask_of(2) == 0x04u8,
        mask_of(3) == 0x08u8,
        mask_of(4) == 0x10u8,
        mask_of(5) == 0x20u8,
        mask_of(6) == 0x40u8,
        mask_of(7) == 0x80u8,
{
    assert(1u8 << 0 == 0x01u8 && 1u8 << 1 == 0x02u8 && 1u8 << 2 == 0x04u8 && 1u8 << 3 == 0x08u8
        && 1u8 << 4 == 0x10u8 && 1u8 << 5 == 0x20u8 && 1u8 << 6 == 0x40u8 && 1u8 << 7 == 0x80u8)
        by (bit_vector);
}

/// An IO pin: one bit position viewed through a direction register, an
/// output register and an input register.
///
/// The level operations (`set_high`, `set_low`, `toggle`) assume the pin is
/// configured as an output, and the polls (`is_high`, `is_low`) assume it is
/// configured as an input. That is a design contract of the hardware, not a
/// checked precondition: each operation's contract says exactly which
/// register it touches or reads either way.
pub trait Pin {
    /// The associated data direction register.
    type DDR: Register;

    /// The associated output port register.
    type PORT: Register;

    /// The associated input register.
    type PIN: Register;

    /// The bit position of this pin in its three registers.
    spec fn spec_offset() -> u8;

    /// The bit position, as a runtime value below 8.
    fn offset() -> (o: u8)
        ensures
            o == Self::spec_offset(),
            o < 8,
    ;

    /// Sets the data direction of the pin.
    fn set_direction(mcu: &mut Mcu, direction: DataDirection)
        requires
            old(mcu).wf(),
        ensures
            final(mcu).wf(),
            same_except_reg(
                *old(mcu),
                *final(mcu),
                Self::DDR::spec_address(),
                match direction {
                    DataDirection::Input => spec_unset_mask(
                        old(mcu).reg(Self::DDR::spec_address()),
                        mask_of(Self::spec_offset()),
                    ),
                    DataDirection::Output => spec_set_mask(
                        old(mcu).reg(Self::DDR::spec_address()),
                        mask_of(Self::spec_offset()),
                    ),
                },
            ),
    {
        match direction {
            DataDirection::Input => Self::set_input(mcu),
            DataDirection::Output => Self::set_output(mcu),
        }
    }

    /// Sets the pin up as an input: clears its bit in the direction register.
    fn set_input(mcu: &mut Mcu)
        requires
            old(mcu).wf(),
        ensures
            final(mcu).wf(),
            same_except_reg(
                *old(mcu),
                *final(mcu),
                Self::DDR::spec_address(),
                spec_unset_mask(
                    old(mcu).reg(Self::DDR::spec_address()),
                    mask_of(Self::spec_offset()),
                ),
            ),
    {
        Self::DDR::unset_mask_raw(mcu, 1u8 << Self::offset());
    }

    /// Sets the pin up as an output: sets its bit in the direction register.
    fn set_output(mcu: &mut Mcu)
        requires
            old(mcu).wf(),
        ensures
            final(mcu).wf(),
            same_except_reg(
                *old(mcu),
                *final(mcu),
                Self::DDR::spec_address(),
                spec_set_mask(old(mcu).reg(Self::DDR::spec_address()), mask_of(Self::spec_offset())),
            ),
    {
        Self::DDR::set_mask_raw(mcu, 1u8 << Self::offset());
    }

    /// Drives the pin high: sets its bit in the output register.
    fn set_high(mcu: &mut Mcu)
        requires
            old(mcu).wf(),
        ensures
            final(mcu).wf(),
            same_except_reg(
                *old(mcu),
                *final(mcu),
                Self::PORT::spec_address(),
                spec_set_mask(
                    old(mcu).reg(Self::PORT::spec_address()),
                    mask_of(Self::spec_offset()),
                ),
            ),
    {
        Self::PORT::set_mask_raw(mcu, 1u8 << Self::offset());
    }

    /// Drives the pin low: clears its bit in the output register.
    fn set_low(mcu: &mut Mcu)
        requires
            old(mcu).wf(),
        ensures
            final(mcu).wf(),
            same_except_reg(
                *old(mcu),
                *final(mcu),
                Self::PORT::spec_address(),
                spec_unset_mask(
                    old(mcu).reg(Self::PORT::spec_address()),
                    mask_of(Self::spec_offset()),
                ),
            ),
    {
        Self::PORT::unset_mask_raw(mcu, 1u8 << Self::offset());
    }

    /// Toggles the pin: flips its bit in the output register.
    fn toggle(mcu: &mut Mcu)
        requires
            old(mcu).wf(),
        ensures
            final(mcu).wf(),
            same_except_reg(
                *old(mcu),
                *final(mcu),
                Self::PORT::spec_address(),
                spec_toggle_mask(
                    old(mcu).reg(Self::PORT::spec_address()),
                    mask_of(Self::spec_offset()),
                ),
            ),
    {
        Self::PORT::toggle_raw(mcu, 1u8 << Self::offset());
    }

    /// Polls the input register: true exactly when the pin's bit is set.
    /// This is a live read of the register, not cached state.
    fn is_high(mcu: &Mcu) -> (r: bool)
        requires
            mcu.wf(),
        ensures
            r == spec_mask_set(mcu.reg(Self::PIN::spec_address()), mask_of(Self::spec_offset())),
    {
        Self::PIN::is_mask_set_raw(mcu, 1u8 << Self::offset())
    }

    /// Polls the input register: true exactly when the pin's bit is clear.
    /// Defined as "the bit is clear", independently of `is_high`, and again a
    /// live read of the register.
    fn is_low(mcu: &Mcu) -> (r: bool)
        requires
            mcu.wf(),
        ensures
            r == spec_mask_clear(mcu.reg(Self::PIN::spec_address()), mask_of(Self::spec_offset())),
    {
        Self::PIN::is_clear_raw(mcu, 1u8 << Self::offset())
    }
}

/// The union of the single-bit masks of the pins at the given offsets.
pub open spec fn spec_group_mask(offsets: Seq<u8>) -> u8
    decreases offsets.len(),
{
    if offsets.len() == 0 {
        0u8
    } else {
        mask_of(offsets[0]) | spec_group_mask(offsets.drop_first())
    }
}

/// The output byte the group write composes: bit `i` of `value` lands at bit
/// position `offsets[i]`.
pub open spec fn spec_spread_bits(offsets: Seq<u8>, value: u8) -> u8
    decreases offsets.len(),
{
    if offsets.len() == 0 {
        0u8
    } else {
        (((value & 1) as u8) << offsets[0]) | spec_spread_bits(offsets.drop_first(), value >> 1)
    }
}

/// A bit position that none of the offsets name is clear in the group's
/// mask.
proof fn lemma_group_mask_bit_clear(offsets: Seq<u8>, p: u8)
    requires
        p < 8,
        forall|k: int| 0 <= k < offsets.len() ==> offsets[k] < 8,
        forall|k: int| 0 <= k < offsets.len() ==> offsets[k] != p,
    ensures
        (spec_group_mask(offsets) >> p) & 1 == 0,
    decreases offsets.len(),
{
    if offsets.len() == 0 {
        assert((0u8 >> p) & 1 == 0) by (bit_vector);
    } else {
        lemma_group_mask_bit_clear(offsets.drop_first(), p);
        let head = offsets[0];
        let rest = spec_group_mask(offsets.drop_first());
        assert((((1u8 << head) | rest) >> p) & 1 == 0) by (bit_vector)
            requires
                head < 8,
                p < 8,
                head != p,
                (rest >> p) & 1 == 0,
        ;
    }
}

/// The byte the group write composes has bits only at the group's own
/// positions.
proof fn lemma_spread_bits_in_mask(offsets: Seq<u8>, value: u8)
    requires
        forall|k: int| 0 <= k < offsets.len() ==> offsets[k] < 8,
    ensures
        spec_spread_bits(offsets, value) & !spec_group_mask(offsets) == 0,
    decreases offsets.len(),
{
    if offsets.len() == 0 {
        assert(0u8 & !0u8 == 0) by (bit_vector);
    } else {
        lemma_spread_bits_in_mask(offsets.drop_first(), value >> 1u8);
        let head = offsets[0];
        let rest_spread = spec_spread_bits(offsets.drop_first(), value >> 1u8);
        let rest_mask = spec_group_mask(offsets.drop_first());
        assert(((((value & 1) as u8) << head) | rest_spread) & !((1u8 << head) | rest_mask)
            == 0) by (bit_vector)
            requires
                head < 8,
                rest_spread & !rest_mask == 0,
        ;
    }
}

/// Each listed pin takes the corresponding bit of the supplied value: in the
/// byte the group write composes, the bit at position `offsets[i]` equals bit
/// `i` of `value`, for any group of distinct positions.
pub proof fn lemma_spread_bits_picks_bit(offsets: Seq<u8>, value: u8, i: u8)
    requires
        i < offsets.len(),
        forall|k: int| 0 <= k < offsets.len() ==> offsets[k] < 8,
        forall|j: int, k: int| 0 <= j < k < offsets.len() ==> offsets[j] != offsets[k],
    ensures
        (spec_spread_bits(offsets, value) >> offsets[i as int]) & 1 == (value >> i) & 1,
    decreases i,
{
    let head = offsets[0];
    let rest = offsets.drop_first();
    let rest_spread = spec_spread_bits(rest, value >> 1u8);
    if i == 0 {
        // No later pin names the head's position, so the composed byte's bit
        // there is exactly the value's lowest bit.
        assert(forall|k: int| 0 <= k < rest.len() ==> rest[k] != head);
        lemma_group_mask_bit_clear(rest, head);
        lemma_spread_bits_in_mask(rest, value >> 1u8);
        let rest_mask = spec_group_mask(rest);
        assert(((((value & 1) as u8) << head) | rest_spread) >> head & 1 == (value >> 0u8) & 1)
            by (bit_vector)
            requires
                head < 8,
                rest_spread & !rest_mask == 0,
                (rest_mask >> head) & 1 == 0,
        ;
    } else {
        // The head's bit sits elsewhere; the claim recurses into the rest of
        // the group with the value shifted once.
        lemma_spread_bits_picks_bit(rest, value >> 1u8, (i - 1) as u8);
        let position = offsets[i as int];
        assert(rest[i - 1] == position);
        assert(((((value & 1) as u8) << head) | rest_spread) >> position & 1 == (value >> i) & 1)
            by (bit_vector)
            requires
                head < 8,
                position < 8,
                head != position,
                1 <= i,
                (rest_spread >> position) & 1 == ((value >> 1u8) >> (i - 1) as u8) & 1,
        ;
    }
}

/// Configures a group of pins of one direction/output register pair as
/// outputs in one masked write, and sets their levels in one masked write.
/// Bit `i` of `value` (least significant first) drives the pin at bit
/// position `offsets[i]`; bits of the output register outside the group are
/// left as they were.
pub fn set_pins<D: Register, P: Register>(mcu: &mut Mcu, offsets: &Vec<u8>, value: u8)
    requires
        old(mcu).wf(),
        D::spec_address() != P::spec_address(),
        forall|i: int| 0 <= i < offsets@.len() ==> offsets@[i] < 8,
    ensures
        final(mcu).wf(),
        final(mcu).regs@ == old(mcu).regs@.update(
            D::spec_address() as int,
            spec_set_mask(old(mcu).reg(D::spec_address()), spec_group_mask(offsets@)),
        ).update(
            P::spec_address() as int,
            (spec_unset_mask(old(mcu).reg(P::spec_address()), spec_group_mask(offsets@))
                | spec_spread_bits(offsets@, value)) as u8,
        ),
        final(mcu).interrupts_enabled == old(mcu).interrupts_enabled,
        final(mcu).critical_depth == old(mcu).critical_depth,
        final(mcu).tx@ == old(mcu).tx@,
{
    proof {
        assert(offsets@.subrange(0, offsets@.len() as int) =~= offsets@);
    }
    // The addresses themselves carry the proof that both registers lie
    // inside the register file.
    let ddr_address = D::address();
    let port_address = P::address();
    let pin_mask = group_mask(offsets, 0);
    // One masked write configures the whole group as outputs.
    let ddr_old = mcu.read_cell(ddr_address);
    mcu.write_cell(ddr_address, ddr_old | pin_mask);
    // One masked write sets the group's levels.
    let spread = spread_bits(offsets, 0, value);
    let port_old = mcu.read_cell(port_address);
    mcu.write_cell(port_address, (port_old & !pin_mask) | spread);
}

/// Computes the union of the pin masks at `offsets[from..]`.
fn group_mask(offsets: &Vec<u8>, from: usize) -> (r: u8)
    requires
        from <= offsets@.len(),
        forall|i: int| 0 <= i < offsets@.len() ==> offsets@[i] < 8,
    ensures
        r == spec_group_mask(offsets@.subrange(from as int, offsets@.len() as int)),
    decreases offsets@.len() - from,
{
    if from == offsets.len() {
        assert(offsets@.subrange(from as int, offsets@.len() as int) =~= Seq::<u8>::empty());
        0
    } else {
        let rest = group_mask(offsets, from + 1);
        let ghost tail = offsets@.subrange(from as int, offsets@.len() as int);
        assert(tail.drop_first() =~= offsets@.subrange(from as int + 1, offsets@.len() as int));
        (1u8 << offsets[from]) | rest
    }
}

/// Spreads the low bits of `value` to the pin positions at `offsets[from..]`.
fn spread_bits(offsets: &Vec<u8>, from: usize, value: u8) -> (r: u8)
    requires
        from <= offsets@.len(),
        forall|i: int| 0 <= i < offsets@.len() ==> offsets@[i] < 8,
    ensures
        r == spec_spread_bits(offsets@.subrange(from as int, offsets@.len() as int), value),
    decreases offsets@.len() - from,
{
    if from == offsets.len() {
        assert(offsets@.subrange(from as int, offsets@.len() as int) =~= Seq::<u8>::empty());
        0
    } else {
        let rest = spread_bits(offsets, from + 1, value >> 1u8);
        let ghost tail = offsets@.subrange(from as int, offsets@.len() as int);
        assert(tail.drop_first() =~= offsets@.subrange(from as int + 1, offsets@.len() as int));
        ((value & 1) << offsets[from]) | rest
    }
}

} // verus!
