//! Actions on the robot's base: port setup, power, the reset button, the
//! infrared communication pin, the anti-collision system's power levels, and
//! the status LEDs.

use vstd::prelude::*;

use crate::interrupt::CriticalSection;
use crate::mcu::{same_except_reg, Mcu};
use crate::pin::{lemma_mask_of_values, spec_group_mask, spec_spread_bits, set_pins, Pin};
use crate::register::{spec_set_mask, spec_unset_mask, Register};
use crate::registers::{
    DDRA, DDRB, DDRC, DDRD, PORTA, PORTB, PORTC, PORTD, DDRA_ADDR, DDRB_ADDR, DDRC_ADDR,
    DDRD_ADDR, PORTA_ADDR, PORTB_ADDR, PORTC_ADDR, PORTD_ADDR, UBRRH_ADDR, UBRRL_ADDR,
    UCSRA_ADDR, UCSRB_ADDR, UCSRC_ADDR,
};
use crate::uart::{Serial, UBRR_BAUD_LOW};

// The device's pins under their function names on the robot's board.
#[allow(non_camel_case_types)]
pub use crate::port::{
    a0 as ADC0, a1 as ADC1, a2 as LS_R, a3 as LS_L, a4 as ExternalInterrupt,
    a5 as Motor_Current_R, a6 as Motor_Current_L, a7 as UBAT, b0 as Led6, b1 as Led5, b2 as ACS,
    b3 as ACS_PwrH, b4 as PowerOn, b5 as ResetButton, b6 as ACS_L, b7 as Led4, c0 as SCL,
    c1 as SDA, c2 as Dir_L, c3 as Dir_R, c4 as Led1, c5 as Led2, c6 as Led3, c7 as ACS_R,
    d0 as RX, d1 as TX, d2 as Enc_L, d3 as Enc_R, d4 as Motor_L, d5 as Motor_R, d6 as ACS_Pwr,
    d7 as IRComm,
};

verus! {

/// What `RobotBase::init` leaves behind: the ports in their start-up
/// configuration, the reset button enabled, infrared communication and the
/// anti-collision system off, and the serial connection initialized — with
/// every other register, the nesting counter and the transmit log untouched.
/// The work inside runs in a critical section, so interrupt delivery ends up
/// enabled exactly when no outer section was open.
pub open spec fn init_state(pre: Mcu, post: Mcu) -> bool {
    &&& post.reg(PORTA_ADDR) == 0x00
    &&& post.reg(PORTB_ADDR) == 0x00
    &&& post.reg(PORTC_ADDR) == 0x00
    &&& post.reg(PORTD_ADDR) == 0x01
    &&& post.reg(DDRA_ADDR) == 0x00
    &&& post.reg(DDRB_ADDR) == 0x50
    &&& post.reg(DDRC_ADDR) == 0x8C
    &&& post.reg(DDRD_ADDR) == 0xB2
    &&& post.reg(UBRRH_ADDR) == 0x00
    &&& post.reg(UBRRL_ADDR) == UBRR_BAUD_LOW as u8
    &&& post.reg(UCSRA_ADDR) == 0x00
    &&& post.reg(UCSRC_ADDR) == 0x86
    &&& post.reg(UCSRB_ADDR) == 0x98
    &&& forall|a: int|
        0 <= a < pre.regs@.len() && a != PORTA_ADDR && a != PORTB_ADDR && a != PORTC_ADDR
            && a != PORTD_ADDR && a != DDRA_ADDR && a != DDRB_ADDR && a != DDRC_ADDR
            && a != DDRD_ADDR && a != UBRRH_ADDR && a != UBRRL_ADDR && a != UCSRA_ADDR
            && a != UCSRC_ADDR && a != UCSRB_ADDR ==> post.regs@[a] == pre.regs@[a]
    &&& post.regs@.len() == pre.regs@.len()
    &&& post.critical_depth == pre.critical_depth
    &&& post.interrupts_enabled == (pre.critical_depth == 0)
    &&& post.tx@ == pre.tx@
}

/// All actions on the robot's base.
pub struct RobotBase;

impl RobotBase {
    /// Brings the base to its start-up state: configures the ports, and —
    /// inside a critical section — enables the reset button, makes sure
    /// infrared communication and the anti-collision system are off, and
    /// initializes the serial connection.
    pub fn init(mcu: &mut Mcu)
        requires
            old(mcu).wf(),
            old(mcu).critical_depth < usize::MAX,
        ensures
            final(mcu).wf(),
            init_state(*old(mcu), *final(mcu)),
    {
        proof {
            lemma_mask_of_values();
            assert(0x00u8 & !0x20 == 0x00 && 0x58u8 & !0x20 == 0x58 && 0x01u8 & !0x80 == 0x01
                && 0xF2u8 & !0x40 == 0xB2 && 0x01u8 & !0x40 == 0x01 && 0x58u8 & !0x08 == 0x50
                && 0x00u8 & !0x08 == 0x00 && 0x00u8 & !0x40 == 0x00 && 0x00u8 & !0x80 == 0x00
                && 0xB2u8 & !0x01 == 0xB2 && 0x01u8 & !0x02 == 0x01 && (0xB2u8 & !0x01) | 0x02
                == 0xB2 && 0x80u8 | 0x06 == 0x86 && (0x08u8 | 0x10) | 0x80 == 0x98)
                by (bit_vector);
            assert(UBRR_BAUD_LOW == 12);
            assert(12u32 >> 8 == 0u32) by (bit_vector);
        }
        // Setup port directions and initial values first.
        Self::init_ports(mcu);

        // Disable global interrupts while the rest of the setup runs.
        let cs = CriticalSection::new(mcu);

        // Keep the hardware reset button usable: without it the robot can
        // only be stopped by switching it off completely.
        Self::enable_reset_button(mcu);

        // Make sure that IRCOMM and ACS are turned off.
        Self::ensure_ircomm_disabled(mcu);
        Self::set_acs_power_off(mcu);

        Serial::init(mcu);

        cs.exit(mcu);
    }

    /// Initializes the IO ports of the robot: all port outputs low — except
    /// the receive pin's pull-up — and each pin's data direction as the
    /// board wires it.
    pub fn init_ports(mcu: &mut Mcu)
        requires
            old(mcu).wf(),
        ensures
            final(mcu).wf(),
            final(mcu).regs@ == old(mcu).regs@.update(PORTA_ADDR as int, 0x00u8).update(
                PORTB_ADDR as int,
                0x00u8,
            ).update(PORTC_ADDR as int, 0x00u8).update(PORTD_ADDR as int, 0x01u8).update(
                DDRA_ADDR as int,
                0x00u8,
            ).update(DDRB_ADDR as int, 0x58u8).update(DDRC_ADDR as int, 0x8Cu8).update(
                DDRD_ADDR as int,
                0xF2u8,
            ),
            final(mcu).interrupts_enabled == old(mcu).interrupts_enabled,
            final(mcu).critical_depth == old(mcu).critical_depth,
            final(mcu).tx@ == old(mcu).tx@,
    {
        PORTA::write(mcu, 0b00000000);
        PORTB::write(mcu, 0b00000000);
        PORTC::write(mcu, 0b00000000);
        PORTD::write(mcu, 0b00000001);
        DDRA::write(mcu, 0b00000000);
        DDRB::write(mcu, 0b01011000);
        DDRC::write(mcu, 0b10001100);
        DDRD::write(mcu, 0b11110010);
    }

    /// Enables power on the robot's base.
    pub fn power_on(mcu: &mut Mcu)
        requires
            old(mcu).wf(),
        ensures
            final(mcu).wf(),
            same_except_reg(
                *old(mcu),
                *final(mcu),
                PORTB_ADDR,
                spec_set_mask(old(mcu).reg(PORTB_ADDR), 0x10),
            ),
    {
        proof {
            lemma_mask_of_values();
        }
        PowerOn::set_high(mcu);
    }

    /// Disables power on the robot's base.
    pub fn power_off(mcu: &mut Mcu)
        requires
            old(mcu).wf(),
        ensures
            final(mcu).wf(),
            same_except_reg(
                *old(mcu),
                *final(mcu),
                PORTB_ADDR,
                spec_unset_mask(old(mcu).reg(PORTB_ADDR), 0x10),
            ),
    {
        proof {
            lemma_mask_of_values();
        }
        PowerOn::set_low(mcu);
    }

    /// Enables the hardware reset button: drives its pin low, then makes it
    /// an input.
    pub fn enable_reset_button(mcu: &mut Mcu)
        requires
            old(mcu).wf(),
        ensures
            final(mcu).wf(),
            final(mcu).regs@ == old(mcu).regs@.update(
                PORTB_ADDR as int,
                spec_unset_mask(old(mcu).reg(PORTB_ADDR), 0x20),
            ).update(DDRB_ADDR as int, spec_unset_mask(old(mcu).reg(DDRB_ADDR), 0x20)),
            final(mcu).interrupts_enabled == old(mcu).interrupts_enabled,
            final(mcu).critical_depth == old(mcu).critical_depth,
            final(mcu).tx@ == old(mcu).tx@,
    {
        proof {
            lemma_mask_of_values();
        }
        ResetButton::set_low(mcu);
        ResetButton::set_input(mcu);
    }

    /// Disables the hardware reset button: drives its pin low, then makes it
    /// an output.
    pub fn disable_reset_button(mcu: &mut Mcu)
        requires
            old(mcu).wf(),
        ensures
            final(mcu).wf(),
            final(mcu).regs@ == old(mcu).regs@.update(
                PORTB_ADDR as int,
                spec_unset_mask(old(mcu).reg(PORTB_ADDR), 0x20),
            ).update(DDRB_ADDR as int, spec_set_mask(old(mcu).reg(DDRB_ADDR), 0x20)),
            final(mcu).interrupts_enabled == old(mcu).interrupts_enabled,
            final(mcu).critical_depth == old(mcu).critical_depth,
            final(mcu).tx@ == old(mcu).tx@,
    {
        proof {
            lemma_mask_of_values();
        }
        ResetButton::set_low(mcu);
        ResetButton::set_output(mcu);
    }

    /// Makes sure the infrared communication LED is off: drives its pin low.
    pub fn ensure_ircomm_disabled(mcu: &mut Mcu)
        requires
            old(mcu).wf(),
        ensures
            final(mcu).wf(),
            same_except_reg(
                *old(mcu),
                *final(mcu),
                PORTD_ADDR,
                spec_unset_mask(old(mcu).reg(PORTD_ADDR), 0x80),
            ),
    {
        proof {
            lemma_mask_of_values();
        }
        IRComm::set_low(mcu);
    }

    /// Disables the infrared communication LED; the same action as
    /// [`RobotBase::ensure_ircomm_disabled`].
    pub fn disable_ircomm(mcu: &mut Mcu)
        requires
            old(mcu).wf(),
        ensures
            final(mcu).wf(),
            same_except_reg(
                *old(mcu),
                *final(mcu),
                PORTD_ADDR,
                spec_unset_mask(old(mcu).reg(PORTD_ADDR), 0x80),
            ),
    {
        Self::ensure_ircomm_disabled(mcu);
    }

    /// Turns the anti-collision system off: both power pins become low
    /// inputs, and both emitter pins are driven low.
    pub fn set_acs_power_off(mcu: &mut Mcu)
        requires
            old(mcu).wf(),
        ensures
            final(mcu).wf(),
            final(mcu).regs@ == old(mcu).regs@.update(
                DDRD_ADDR as int,
                spec_unset_mask(old(mcu).reg(DDRD_ADDR), 0x40),
            ).update(PORTD_ADDR as int, spec_unset_mask(old(mcu).reg(PORTD_ADDR), 0x40)).update(
                DDRB_ADDR as int,
                spec_unset_mask(old(mcu).reg(DDRB_ADDR), 0x08),
            ).update(
                PORTB_ADDR as int,
                spec_unset_mask(spec_unset_mask(old(mcu).reg(PORTB_ADDR), 0x08), 0x40),
            ).update(PORTC_ADDR as int, spec_unset_mask(old(mcu).reg(PORTC_ADDR), 0x80)),
            final(mcu).interrupts_enabled == old(mcu).interrupts_enabled,
            final(mcu).critical_depth == old(mcu).critical_depth,
            final(mcu).tx@ == old(mcu).tx@,
    {
        proof {
            lemma_mask_of_values();
        }
        ACS_Pwr::set_input(mcu);
        ACS_Pwr::set_low(mcu);
        ACS_PwrH::set_input(mcu);
        ACS_PwrH::set_low(mcu);
        ACS_L::set_low(mcu);
        ACS_R::set_low(mcu);
    }

    /// Sets the anti-collision system to low power: the low-power pin drives
    /// high, the high-power pin becomes a low input.
    pub fn set_acs_power_low(mcu: &mut Mcu)
        requires
            old(mcu).wf(),
        ensures
            final(mcu).wf(),
            final(mcu).regs@ == old(mcu).regs@.update(
                DDRD_ADDR as int,
                spec_set_mask(old(mcu).reg(DDRD_ADDR), 0x40),
            ).update(PORTD_ADDR as int, spec_set_mask(old(mcu).reg(PORTD_ADDR), 0x40)).update(
                DDRB_ADDR as int,
                spec_unset_mask(old(mcu).reg(DDRB_ADDR), 0x08),
            ).update(PORTB_ADDR as int, spec_unset_mask(old(mcu).reg(PORTB_ADDR), 0x08)),
            final(mcu).interrupts_enabled == old(mcu).interrupts_enabled,
            final(mcu).critical_depth == old(mcu).critical_depth,
            final(mcu).tx@ == old(mcu).tx@,
    {
        proof {
            lemma_mask_of_values();
        }
        ACS_Pwr::set_output(mcu);
        ACS_Pwr::set_high(mcu);
        ACS_PwrH::set_input(mcu);
        ACS_PwrH::set_low(mcu);
    }

    /// Sets the anti-collision system to medium power: the low-power pin
    /// becomes a low input, the high-power pin drives high.
    pub fn set_acs_power_medium(mcu: &mut Mcu)
        requires
            old(mcu).wf(),
        ensures
            final(mcu).wf(),
            final(mcu).regs@ == old(mcu).regs@.update(
                DDRD_ADDR as int,
                spec_unset_mask(old(mcu).reg(DDRD_ADDR), 0x40),
            ).update(PORTD_ADDR as int, spec_unset_mask(old(mcu).reg(PORTD_ADDR), 0x40)).update(
                DDRB_ADDR as int,
                spec_set_mask(old(mcu).reg(DDRB_ADDR), 0x08),
            ).update(PORTB_ADDR as int, spec_set_mask(old(mcu).reg(PORTB_ADDR), 0x08)),
            final(mcu).interrupts_enabled == old(mcu).interrupts_enabled,
            final(mcu).critical_depth == old(mcu).critical_depth,
            final(mcu).tx@ == old(mcu).tx@,
    {
        proof {
            lemma_mask_of_values();
        }
        ACS_Pwr::set_input(mcu);
        ACS_Pwr::set_low(mcu);
        ACS_PwrH::set_output(mcu);
        ACS_PwrH::set_high(mcu);
    }

    /// Sets the anti-collision system to high power: both power pins drive
    /// high.
    pub fn set_acs_power_high(mcu: &mut Mcu)
        requires
            old(mcu).wf(),
        ensures
            final(mcu).wf(),
            final(mcu).regs@ == old(mcu).regs@.update(
                DDRD_ADDR as int,
                spec_set_mask(old(mcu).reg(DDRD_ADDR), 0x40),
            ).update(PORTD_ADDR as int, spec_set_mask(old(mcu).reg(PORTD_ADDR), 0x40)).update(
                DDRB_ADDR as int,
                spec_set_mask(old(mcu).reg(DDRB_ADDR), 0x08),
            ).update(PORTB_ADDR as int, spec_set_mask(old(mcu).reg(PORTB_ADDR), 0x08)),
            final(mcu).interrupts_enabled == old(mcu).interrupts_enabled,
            final(mcu).critical_depth == old(mcu).critical_depth,
            final(mcu).tx@ == old(mcu).tx@,
    {
        proof {
            lemma_mask_of_values();
        }
        ACS_Pwr::set_output(mcu);
        ACS_Pwr::set_high(mcu);
        ACS_PwrH::set_output(mcu);
        ACS_PwrH::set_high(mcu);
    }

    /// Turns the anti-collision system off; the same action as
    /// [`RobotBase::set_acs_power_off`].
    pub fn set_acs_pwr_off(mcu: &mut Mcu)
        requires
            old(mcu).wf(),
        ensures
            final(mcu).wf(),
            final(mcu).regs@ == old(mcu).regs@.update(
                DDRD_ADDR as int,
                spec_unset_mask(old(mcu).reg(DDRD_ADDR), 0x40),
            ).update(PORTD_ADDR as int, spec_unset_mask(old(mcu).reg(PORTD_ADDR), 0x40)).update(
                DDRB_ADDR as int,
                spec_unset_mask(old(mcu).reg(DDRB_ADDR), 0x08),
            ).update(
                PORTB_ADDR as int,
                spec_unset_mask(spec_unset_mask(old(mcu).reg(PORTB_ADDR), 0x08), 0x40),
            ).update(PORTC_ADDR as int, spec_unset_mask(old(mcu).reg(PORTC_ADDR), 0x80)),
            final(mcu).interrupts_enabled == old(mcu).interrupts_enabled,
            final(mcu).critical_depth == old(mcu).critical_depth,
            final(mcu).tx@ == old(mcu).tx@,
    {
        Self::set_acs_power_off(mcu);
    }

    /// Sets the anti-collision system to low power; the same action as
    /// [`RobotBase::set_acs_power_low`].
    pub fn set_acs_pwr_low(mcu: &mut Mcu)
        requires
            old(mcu).wf(),
        ensures
            final(mcu).wf(),
            final(mcu).regs@ == old(mcu).regs@.update(
                DDRD_ADDR as int,
                spec_set_mask(old(mcu).reg(DDRD_ADDR), 0x40),
            ).update(PORTD_ADDR as int, spec_set_mask(old(mcu).reg(PORTD_ADDR), 0x40)).update(
                DDRB_ADDR as int,
                spec_unset_mask(old(mcu).reg(DDRB_ADDR), 0x08),
            ).update(PORTB_ADDR as int, spec_unset_mask(old(mcu).reg(PORTB_ADDR), 0x08)),
            final(mcu).interrupts_enabled == old(mcu).interrupts_enabled,
            final(mcu).critical_depth == old(mcu).critical_depth,
            final(mcu).tx@ == old(mcu).tx@,
    {
        Self::set_acs_power_low(mcu);
    }

    /// Sets the anti-collision system to medium power; the same action as
    /// [`RobotBase::set_acs_power_medium`].
    pub fn set_acs_pwr_medium(mcu: &mut Mcu)
        requires
            old(mcu).wf(),
        ensures
            final(mcu).wf(),
            final(mcu).regs@ == old(mcu).regs@.update(
                DDRD_ADDR as int,
                spec_unset_mask(old(mcu).reg(DDRD_ADDR), 0x40),
            ).update(PORTD_ADDR as int, spec_unset_mask(old(mcu).reg(PORTD_ADDR), 0x40)).update(
                DDRB_ADDR as int,
                spec_set_mask(old(mcu).reg(DDRB_ADDR), 0x08),
            ).update(PORTB_ADDR as int, spec_set_mask(old(mcu).reg(PORTB_ADDR), 0x08)),
            final(mcu).interrupts_enabled == old(mcu).interrupts_enabled,
            final(mcu).critical_depth == old(mcu).critical_depth,
            final(mcu).tx@ == old(mcu).tx@,
    {
        Self::set_acs_power_medium(mcu);
    }

    /// Sets the anti-collision system to high power; the same action as
    /// [`RobotBase::set_acs_power_high`].
    pub fn set_acs_pwr_high(mcu: &mut Mcu)
        requires
            old(mcu).wf(),
        ensures
            final(mcu).wf(),
            final(mcu).regs@ == old(mcu).regs@.update(
                DDRD_ADDR as int,
                spec_set_mask(old(mcu).reg(DDRD_ADDR), 0x40),
            ).update(PORTD_ADDR as int, spec_set_mask(old(mcu).reg(PORTD_ADDR), 0x40)).update(
                DDRB_ADDR as int,
                spec_set_mask(old(mcu).reg(DDRB_ADDR), 0x08),
            ).update(PORTB_ADDR as int, spec_set_mask(old(mcu).reg(PORTB_ADDR), 0x08)),
            final(mcu).interrupts_enabled == old(mcu).interrupts_enabled,
            final(mcu).critical_depth == old(mcu).critical_depth,
            final(mcu).tx@ == old(mcu).tx@,
    {
        Self::set_acs_power_high(mcu);
    }

    /// Sets the six status LEDs to the least significant six bits of
    /// `value`: bit 0 drives LED1 up to bit 5 driving LED6. LEDs 1 to 3
    /// share one port with bit positions 4 to 6; LEDs 4 to 6 sit on another
    /// at bit positions 7, 1 and 0.
    pub fn set_leds(mcu: &mut Mcu, value: u8)
        requires
            old(mcu).wf(),
        ensures
            final(mcu).wf(),
            final(mcu).regs@ == old(mcu).regs@.update(
                DDRC_ADDR as int,
                spec_set_mask(old(mcu).reg(DDRC_ADDR), spec_group_mask(seq![4u8, 5u8, 6u8])),
            ).update(
                PORTC_ADDR as int,
                (spec_unset_mask(old(mcu).reg(PORTC_ADDR), spec_group_mask(seq![4u8, 5u8, 6u8]))
                    | spec_spread_bits(seq![4u8, 5u8, 6u8], value)) as u8,
            ).update(
                DDRB_ADDR as int,
                spec_set_mask(old(mcu).reg(DDRB_ADDR), spec_group_mask(seq![7u8, 1u8, 0u8])),
            ).update(
                PORTB_ADDR as int,
                (spec_unset_mask(old(mcu).reg(PORTB_ADDR), spec_group_mask(seq![7u8, 1u8, 0u8]))
                    | spec_spread_bits(seq![7u8, 1u8, 0u8], value >> 3)) as u8,
            ),
            final(mcu).interrupts_enabled == old(mcu).interrupts_enabled,
            final(mcu).critical_depth == old(mcu).critical_depth,
            final(mcu).tx@ == old(mcu).tx@,
    {
        // LEDs SL1 to SL3.
        let low_offsets: Vec<u8> = vec![4, 5, 6];
        proof {
            assert(low_offsets@ =~= seq![4u8, 5u8, 6u8]);
        }
        set_pins::<DDRC, PORTC>(mcu, &low_offsets, value);
        // LEDs SL4 to SL6.
        let high_offsets: Vec<u8> = vec![7, 1, 0];
        proof {
            assert(high_offsets@ =~= seq![7u8, 1u8, 0u8]);
        }
        set_pins::<DDRB, PORTB>(mcu, &high_offsets, value >> 3u8);
    }
}

} // verus!
