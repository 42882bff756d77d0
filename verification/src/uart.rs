//! Serial access over the device's USART.
//!
//! Sending is synchronous: each raw write waits for the data-register-empty
//! bit and then stores the byte to the data register, which the model records
//! by appending to the transmit log. In the model no concurrent actor can
//! raise the ready bit during a spin, so the liveness obligation of the
//! caller — poll only conditions the hardware will satisfy — becomes the
//! `ready_to_send` precondition (see
//! `Register::wait_until_mask_set_raw`).

use vstd::prelude::*;

use crate::bitmasks::{RXC, RXCIE, RXEN, TXCIE, TXEN, UCSZ, UDRE, URSEL};
use crate::mcu::{same_except_reg, Mcu};
use crate::pin::{mask_of, Pin};
use crate::port::{d0 as RX, d1 as TX};
use crate::register::{spec_mask_set, spec_set_mask, spec_unset_mask, Register};
use crate::registers::{
    DDRD_ADDR, PORTD_ADDR, UBRRH_ADDR, UBRRL_ADDR, UCSRA, UCSRA_ADDR, UCSRB, UCSRB_ADDR,
    UCSRC, UCSRC_ADDR, UDR, UDR_ADDR, UBRRH, UBRRL,
};
use crate::serial_writable::{
    SerialWritable, SerialWritableBinary, SerialWritableDecimal, SerialWritableHexadecimal,
    SerialWritableOctal,
};

verus! {

/// The robot's clock frequency.
pub const CPU_FREQUENCY_HZ: u32 = 8_000_000;

/// The low-speed baud rate.
pub const BAUD_LOW: u32 = 38400;

/// The baud-rate register value for low speed.
pub const UBRR_BAUD_LOW: u32 = CPU_FREQUENCY_HZ / 16 / BAUD_LOW - 1;

/// The high-speed baud rate.
pub const BAUD_HIGH: u32 = 500000;

/// The baud-rate register value for high speed.
pub const UBRR_BAUD_HIGH: u32 = CPU_FREQUENCY_HZ / 16 / BAUD_HIGH - 1;

/// The transmitter is ready for the next byte: the data-register-empty bit
/// is set.
pub open spec fn ready_to_send(m: Mcu) -> bool {
    spec_mask_set(m.reg(UCSRA_ADDR), UDRE)
}

/// A received byte is waiting: the receive-complete bit is set.
pub open spec fn data_received(m: Mcu) -> bool {
    spec_mask_set(m.reg(UCSRA_ADDR), RXC)
}

/// What a transmission leaves alone: every register cell except the data
/// register, the interrupt flag and the nesting counter.
pub open spec fn uart_frame(pre: Mcu, post: Mcu) -> bool {
    &&& post.regs@.len() == pre.regs@.len()
    &&& forall|a: int|
        0 <= a < pre.regs@.len() && a != UDR_ADDR ==> post.regs@[a] == pre.regs@[a]
    &&& post.interrupts_enabled == pre.interrupts_enabled
    &&& post.critical_depth == pre.critical_depth
}

/// What `Serial::init` leaves in the registers: receive pin an input,
/// transmit pin a low output, low-speed baud rate, status cleared, 8-bit
/// frames, and transmitter, receiver and receive interrupt enabled — with
/// every other register cell, the interrupt state and the transmit log
/// untouched.
pub open spec fn init_registers(pre: Mcu, post: Mcu) -> bool {
    &&& post.reg(DDRD_ADDR) == spec_set_mask(spec_unset_mask(pre.reg(DDRD_ADDR), 0x01), 0x02)
    &&& post.reg(PORTD_ADDR) == spec_unset_mask(pre.reg(PORTD_ADDR), 0x02)
    &&& post.reg(UBRRH_ADDR) == (UBRR_BAUD_LOW >> 8) as u8
    &&& post.reg(UBRRL_ADDR) == UBRR_BAUD_LOW as u8
    &&& post.reg(UCSRA_ADDR) == 0
    &&& post.reg(UCSRC_ADDR) == (URSEL | UCSZ)
    &&& post.reg(UCSRB_ADDR) == (TXEN | RXEN | RXCIE)
    &&& forall|a: int|
        0 <= a < pre.regs@.len() && a != DDRD_ADDR && a != PORTD_ADDR && a != UBRRH_ADDR
            && a != UBRRL_ADDR && a != UCSRA_ADDR && a != UCSRC_ADDR && a != UCSRB_ADDR
            ==> post.regs@[a] == pre.regs@[a]
    &&& post.regs@.len() == pre.regs@.len()
    &&& post.interrupts_enabled == pre.interrupts_enabled
    &&& post.critical_depth == pre.critical_depth
    &&& post.tx@ == pre.tx@
}

/// All access to the robot's serial port connection.
pub struct Serial;

impl Serial {
    /// Initializes the serial connection on the receive and transmit pins:
    /// receive pin input, transmit pin low then output, low-speed baud rate,
    /// status register cleared, 8-bit frames selected, and transmitter,
    /// receiver and receive-complete interrupt enabled.
    pub fn init(mcu: &mut Mcu)
        requires
            old(mcu).wf(),
        ensures
            final(mcu).wf(),
            init_registers(*old(mcu), *final(mcu)),
    {
        proof {
            assert(mask_of(0) == 0x01u8) by (bit_vector);
            assert(mask_of(1) == 0x02u8) by (bit_vector);
        }
        RX::set_input(mcu);
        TX::set_low(mcu);
        TX::set_output(mcu);
        Self::set_baudrate_low(mcu);
        UCSRA::write(mcu, 0x00);
        UCSRC::write(mcu, URSEL | UCSZ);
        UCSRB::write(mcu, TXEN | RXEN | RXCIE);
    }

    /// Configures the low-speed baud rate `UBRR_BAUD_LOW`.
    pub fn set_baudrate_low(mcu: &mut Mcu)
        requires
            old(mcu).wf(),
        ensures
            final(mcu).wf(),
            final(mcu).reg(UBRRH_ADDR) == (UBRR_BAUD_LOW >> 8) as u8,
            final(mcu).reg(UBRRL_ADDR) == UBRR_BAUD_LOW as u8,
            final(mcu).regs@ == old(mcu).regs@.update(
                UBRRH_ADDR as int,
                (UBRR_BAUD_LOW >> 8) as u8,
            ).update(UBRRL_ADDR as int, UBRR_BAUD_LOW as u8),
            final(mcu).interrupts_enabled == old(mcu).interrupts_enabled,
            final(mcu).critical_depth == old(mcu).critical_depth,
            final(mcu).tx@ == old(mcu).tx@,
    {
        UBRRH::write(mcu, (UBRR_BAUD_LOW >> 8) as u8);
        UBRRL::write(mcu, UBRR_BAUD_LOW as u8);
    }

    /// Configures the high-speed baud rate `UBRR_BAUD_HIGH`.
    pub fn set_baudrate_high(mcu: &mut Mcu)
        requires
            old(mcu).wf(),
        ensures
            final(mcu).wf(),
            final(mcu).reg(UBRRH_ADDR) == (UBRR_BAUD_HIGH >> 8) as u8,
            final(mcu).reg(UBRRL_ADDR) == UBRR_BAUD_HIGH as u8,
            final(mcu).regs@ == old(mcu).regs@.update(
                UBRRH_ADDR as int,
                (UBRR_BAUD_HIGH >> 8) as u8,
            ).update(UBRRL_ADDR as int, UBRR_BAUD_HIGH as u8),
            final(mcu).interrupts_enabled == old(mcu).interrupts_enabled,
            final(mcu).critical_depth == old(mcu).critical_depth,
            final(mcu).tx@ == old(mcu).tx@,
    {
        UBRRH::write(mcu, (UBRR_BAUD_HIGH >> 8) as u8);
        UBRRL::write(mcu, UBRR_BAUD_HIGH as u8);
    }

    /// Enables the receive-complete interrupt.
    #[allow(non_snake_case)]
    pub fn enable_USART_RXC_interrupt(mcu: &mut Mcu)
        requires
            old(mcu).wf(),
        ensures
            final(mcu).wf(),
            same_except_reg(
                *old(mcu),
                *final(mcu),
                UCSRB_ADDR,
                spec_set_mask(old(mcu).reg(UCSRB_ADDR), RXCIE),
            ),
    {
        UCSRB::set_mask_raw(mcu, RXCIE);
    }

    /// Enables the transmit-complete interrupt.
    #[allow(non_snake_case)]
    pub fn enable_USART_TXC_interrupt(mcu: &mut Mcu)
        requires
            old(mcu).wf(),
        ensures
            final(mcu).wf(),
            same_except_reg(
                *old(mcu),
                *final(mcu),
                UCSRB_ADDR,
                spec_set_mask(old(mcu).reg(UCSRB_ADDR), TXCIE),
            ),
    {
        UCSRB::set_mask_raw(mcu, TXCIE);
    }

    /// Disables the receive-complete interrupt.
    #[allow(non_snake_case)]
    pub fn disable_USART_RXC_interrupt(mcu: &mut Mcu)
        requires
            old(mcu).wf(),
        ensures
            final(mcu).wf(),
            same_except_reg(
                *old(mcu),
                *final(mcu),
                UCSRB_ADDR,
                spec_unset_mask(old(mcu).reg(UCSRB_ADDR), RXCIE),
            ),
    {
        UCSRB::unset_mask_raw(mcu, RXCIE);
    }

    /// Disables the transmit-complete interrupt.
    #[allow(non_snake_case)]
    pub fn disable_USART_TXC_interrupt(mcu: &mut Mcu)
        requires
            old(mcu).wf(),
        ensures
            final(mcu).wf(),
            same_except_reg(
                *old(mcu),
                *final(mcu),
                UCSRB_ADDR,
                spec_unset_mask(old(mcu).reg(UCSRB_ADDR), TXCIE),
            ),
    {
        UCSRB::unset_mask_raw(mcu, TXCIE);
    }

    /// Reads one raw byte from the serial connection: waits for the
    /// receive-complete bit, then loads the data register.
    pub fn read_raw(mcu: &Mcu) -> (b: u8)
        requires
            mcu.wf(),
            data_received(*mcu),
        ensures
            b == mcu.reg(UDR_ADDR),
    {
        UCSRA::wait_until_mask_set_raw(mcu, RXC);
        UDR::read(mcu)
    }

    /// Writes one raw byte to the serial connection: waits for the
    /// data-register-empty bit, then stores the byte to the data register,
    /// which transmits it.
    pub fn write_raw(mcu: &mut Mcu, b: u8)
        requires
            old(mcu).wf(),
            ready_to_send(*old(mcu)),
        ensures
            final(mcu).wf(),
            ready_to_send(*final(mcu)),
            uart_frame(*old(mcu), *final(mcu)),
            final(mcu).reg(UDR_ADDR) == b,
            final(mcu).tx@ == old(mcu).tx@.push(b),
    {
        UCSRA::wait_until_mask_set_raw(mcu, UDRE);
        UDR::write(mcu, b);
        mcu.tx.push(b);
    }

    /// Writes a sequence of raw bytes, first to last.
    pub fn write_bytes(mcu: &mut Mcu, bytes: &Vec<u8>)
        requires
            old(mcu).wf(),
            ready_to_send(*old(mcu)),
        ensures
            final(mcu).wf(),
            ready_to_send(*final(mcu)),
            uart_frame(*old(mcu), *final(mcu)),
            final(mcu).tx@ == old(mcu).tx@ + bytes@,
    {
        let n = bytes.len();
        let mut i: usize = 0;
        while i < n
            invariant
                n == bytes@.len(),
                i <= n,
                mcu.wf(),
                ready_to_send(*mcu),
                uart_frame(*old(mcu), *mcu),
                mcu.tx@ == old(mcu).tx@ + bytes@.subrange(0, i as int),
            decreases n - i,
        {
            Self::write_raw(mcu, bytes[i]);
            proof {
                assert(bytes@.subrange(0, i as int).push(bytes@[i as int]) =~= bytes@.subrange(
                    0,
                    i as int + 1,
                ));
            }
            i = i + 1;
        }
        proof {
            assert(bytes@.subrange(0, n as int) =~= bytes@);
        }
    }

    /// Writes a value to the serial connection: `&str`, `char`, and the
    /// basic number types (in decimal notation).
    pub fn write<T: SerialWritable>(mcu: &mut Mcu, value: T)
        requires
            old(mcu).wf(),
            ready_to_send(*old(mcu)),
        ensures
            final(mcu).wf(),
            ready_to_send(*final(mcu)),
            uart_frame(*old(mcu), *final(mcu)),
            final(mcu).tx@ == old(mcu).tx@ + value.serial_bytes(),
    {
        value.write_to_serial(mcu);
    }

    /// Writes a number formatted as binary.
    pub fn write_bin<T: SerialWritableBinary>(mcu: &mut Mcu, value: T)
        requires
            old(mcu).wf(),
            ready_to_send(*old(mcu)),
        ensures
            final(mcu).wf(),
            ready_to_send(*final(mcu)),
            uart_frame(*old(mcu), *final(mcu)),
            final(mcu).tx@ == old(mcu).tx@ + crate::serial_writable::spec_binary(
                value.spec_bits(),
            ),
    {
        value.write_to_serial_as_bin(mcu);
    }

    /// Writes a number formatted as decimal.
    pub fn write_dec<T: SerialWritableDecimal>(mcu: &mut Mcu, value: T)
        requires
            old(mcu).wf(),
            ready_to_send(*old(mcu)),
        ensures
            final(mcu).wf(),
            ready_to_send(*final(mcu)),
            uart_frame(*old(mcu), *final(mcu)),
            final(mcu).tx@ == old(mcu).tx@ + crate::serial_writable::spec_decimal(
                value.spec_int(),
            ),
    {
        value.write_to_serial_as_dec(mcu);
    }

    /// Writes a number formatted as hexadecimal.
    pub fn write_hex<T: SerialWritableHexadecimal>(mcu: &mut Mcu, value: T)
        requires
            old(mcu).wf(),
            ready_to_send(*old(mcu)),
        ensures
            final(mcu).wf(),
            ready_to_send(*final(mcu)),
            uart_frame(*old(mcu), *final(mcu)),
            final(mcu).tx@ == old(mcu).tx@ + crate::serial_writable::spec_hexadecimal(
                value.spec_bits(),
            ),
    {
        value.write_to_serial_as_hex(mcu);
    }

    /// Writes a number formatted as octal.
    pub fn write_oct<T: SerialWritableOctal>(mcu: &mut Mcu, value: T)
        requires
            old(mcu).wf(),
            ready_to_send(*old(mcu)),
        ensures
            final(mcu).wf(),
            ready_to_send(*final(mcu)),
            uart_frame(*old(mcu), *final(mcu)),
            final(mcu).tx@ == old(mcu).tx@ + crate::serial_writable::spec_octal(
                value.spec_bits(),
            ),
    {
        value.write_to_serial_as_oct(mcu);
    }

    /// Writes a newline character.
    pub fn new_line(mcu: &mut Mcu)
        requires
            old(mcu).wf(),
            ready_to_send(*old(mcu)),
        ensures
            final(mcu).wf(),
            ready_to_send(*final(mcu)),
            uart_frame(*old(mcu), *final(mcu)),
            final(mcu).tx@ == old(mcu).tx@.push(0x0a),
    {
        Self::write(mcu, '\n');
    }
}

} // verus!
