//! The interrupt vector table of the supported device: the fixed mapping
//! from canonical interrupt names to hardware dispatch slots.
//!
//! The table is consulted when a handler is registered under an interrupt's
//! name; a name outside the table has no slot, which refuses the
//! registration before the program can run.

use vstd::prelude::*;

use crate::text::str_eq;

verus! {

/// The slot, if any, that the hardware assigns to the interrupt with the
/// given canonical name.
pub open spec fn spec_lookup_vector(name: Seq<char>) -> Option<usize> {
    if name == "RESET"@ {
        Some(0usize)
    } else if name == "INT0"@ {
        Some(1usize)
    } else if name == "INT1"@ {
        Some(2usize)
    } else if name == "INT2"@ {
        Some(3usize)
    } else if name == "TIMER2_COMP"@ {
        Some(4usize)
    } else if name == "TIMER2_OVF"@ {
        Some(5usize)
    } else if name == "TIMER1_CAPT"@ {
        Some(6usize)
    } else if name == "TIMER1_COMPA"@ {
        Some(7usize)
    } else if name == "TIMER1_COMPB"@ {
        Some(8usize)
    } else if name == "TIMER1_OVF"@ {
        Some(9usize)
    } else if name == "TIMER0_COMP"@ {
        Some(10usize)
    } else if name == "TIMER0_OVF"@ {
        Some(11usize)
    } else if name == "SPI_STC"@ {
        Some(12usize)
    } else if name == "USART_RXC"@ {
        Some(13usize)
    } else if name == "USART_UDRE"@ {
        Some(14usize)
    } else if name == "USART_TXC"@ {
        Some(15usize)
    } else if name == "ADC"@ {
        Some(16usize)
    } else if name == "EE_RDY"@ {
        Some(17usize)
    } else if name == "ANA_COMP"@ {
        Some(18usize)
    } else if name == "TWI"@ {
        Some(19usize)
    } else if name == "SPM_RDY"@ {
        Some(20usize)
    } else {
        None
    }
}

/// Looks up the hardware vector slot for a canonical interrupt name.
/// Returns the documented fixed slot number for every name in the device's
/// table, and `None` for every other name.
pub fn lookup_vector(interrupt: &str) -> (r: Option<usize>)
    ensures
        r == spec_lookup_vector(interrupt@),
{
    if str_eq(interrupt, "RESET") {
        Some(0)
    } else if str_eq(interrupt, "INT0") {
        Some(1)
    } else if str_eq(interrupt, "INT1") {
        Some(2)
    } else if str_eq(interrupt, "INT2") {
        Some(3)
    } else if str_eq(interrupt, "TIMER2_COMP") {
        Some(4)
    } else if str_eq(interrupt, "TIMER2_OVF") {
        Some(5)
    } else if str_eq(interrupt, "TIMER1_CAPT") {
        Some(6)
    } else if str_eq(interrupt, "TIMER1_COMPA") {
        Some(7)
    } else if str_eq(interrupt, "TIMER1_COMPB") {
        Some(8)
    } else if str_eq(interrupt, "TIMER1_OVF") {
        Some(9)
    } else if str_eq(interrupt, "TIMER0_COMP") {
        Some(10)
    } else if str_eq(interrupt, "TIMER0_OVF") {
        Some(11)
    } else if str_eq(interrupt, "SPI_STC") {
        Some(12)
    } else if str_eq(interrupt, "USART_RXC") {
        Some(13)
    } else if str_eq(interrupt, "USART_UDRE") {
        Some(14)
    } else if str_eq(interrupt, "USART_TXC") {
        Some(15)
    } else if str_eq(interrupt, "ADC") {
        Some(16)
    } else if str_eq(interrupt, "EE_RDY") {
        Some(17)
    } else if str_eq(interrupt, "ANA_COMP") {
        Some(18)
    } else if str_eq(interrupt, "TWI") {
        Some(19)
    } else if str_eq(interrupt, "SPM_RDY") {
        Some(20)
    } else {
        None
    }
}

} // verus!
