//! The bit positions used to configure the serial hardware, as the device's
//! data sheet defines them.

use vstd::prelude::*;

verus! {

/// `UCSRA`: receive complete.
pub const RXC: u8 = 0x80;

/// `UCSRA`: transmit complete.
pub const TXC: u8 = 0x40;

/// `UCSRA`: data register empty, i.e. ready to send.
pub const UDRE: u8 = 0x20;

/// `UCSRB`: receive-complete interrupt enable.
pub const RXCIE: u8 = 0x80;

/// `UCSRB`: transmit-complete interrupt enable.
pub const TXCIE: u8 = 0x40;

/// `UCSRB`: receiver enable.
pub const RXEN: u8 = 0x10;

/// `UCSRB`: transmitter enable.
pub const TXEN: u8 = 0x08;

/// `UCSRC`: character size, both bits of the 8-bit frame setting.
pub const UCSZ: u8 = 0x06;

/// `UCSRC`: register select, distinguishing `UCSRC` from `UBRRH` on the
/// shared hardware bus address.
pub const URSEL: u8 = 0x80;

} // verus!
