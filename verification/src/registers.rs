//! The registers of the supported device, bound to their bus addresses.
//!
//! The addresses follow the device's data sheet. The hardware multiplexes
//! `UBRRH` and `UCSRC` onto one bus address and selects between them with the
//! `URSEL` bit; the model gives each register a cell of its own, so `UCSRC`
//! sits at the top of the modeled file.

use vstd::prelude::*;

use crate::register::Register;

verus! {

/// Address of the port A data direction register.
pub const DDRA_ADDR: usize = 0x3A;

/// Address of the port B data direction register.
pub const DDRB_ADDR: usize = 0x37;

/// Address of the port C data direction register.
pub const DDRC_ADDR: usize = 0x34;

/// Address of the port D data direction register.
pub const DDRD_ADDR: usize = 0x31;

/// Address of the port A data register.
pub const PORTA_ADDR: usize = 0x3B;

/// Address of the port B data register.
pub const PORTB_ADDR: usize = 0x38;

/// Address of the port C data register.
pub const PORTC_ADDR: usize = 0x35;

/// Address of the port D data register.
pub const PORTD_ADDR: usize = 0x32;

/// Address of the port A input pins register.
pub const PINA_ADDR: usize = 0x39;

/// Address of the port B input pins register.
pub const PINB_ADDR: usize = 0x36;

/// Address of the port C input pins register.
pub const PINC_ADDR: usize = 0x33;

/// Address of the port D input pins register.
pub const PIND_ADDR: usize = 0x30;

/// Address of the USART baud rate register, high byte.
pub const UBRRH_ADDR: usize = 0x40;

/// Address of the USART baud rate register, low byte.
pub const UBRRL_ADDR: usize = 0x29;

/// Address of USART control and status register A.
pub const UCSRA_ADDR: usize = 0x2B;

/// Address of USART control and status register B.
pub const UCSRB_ADDR: usize = 0x2A;

/// Address of USART control and status register C (own cell in the model;
/// see the module documentation).
pub const UCSRC_ADDR: usize = 0x60;

/// Address of the USART I/O data register.
pub const UDR_ADDR: usize = 0x2C;

/// Port A Data Direction Register.
pub struct DDRA;

impl Register for DDRA {
    open spec fn spec_address() -> usize {
        DDRA_ADDR
    }

    fn address() -> usize {
        DDRA_ADDR
    }
}

/// Port B Data Direction Register.
pub struct DDRB;

impl Register for DDRB {
    open spec fn spec_address() -> usize {
        DDRB_ADDR
    }

    fn address() -> usize {
        DDRB_ADDR
    }
}

/// Port C Data Direction Register.
pub struct DDRC;

impl Register for DDRC {
    open spec fn spec_address() -> usize {
        DDRC_ADDR
    }

    fn address() -> usize {
        DDRC_ADDR
    }
}

/// Port D Data Direction Register.
pub struct DDRD;

impl Register for DDRD {
    open spec fn spec_address() -> usize {
        DDRD_ADDR
    }

    fn address() -> usize {
        DDRD_ADDR
    }
}

/// Port A Data Register.
pub struct PORTA;

impl Register for PORTA {
    open spec fn spec_address() -> usize {
        PORTA_ADDR
    }

    fn address() -> usize {
        PORTA_ADDR
    }
}

/// Port B Data Register.
pub struct PORTB;

impl Register for PORTB {
    open spec fn spec_address() -> usize {
        PORTB_ADDR
    }

    fn address() -> usize {
        PORTB_ADDR
    }
}

/// Port C Data Register.
pub struct PORTC;

impl Register for PORTC {
    open spec fn spec_address() -> usize {
        PORTC_ADDR
    }

    fn address() -> usize {
        PORTC_ADDR
    }
}

/// Port D Data Register.
pub struct PORTD;

impl Register for PORTD {
    open spec fn spec_address() -> usize {
        PORTD_ADDR
    }

    fn address() -> usize {
        PORTD_ADDR
    }
}

/// Port A Input Pins register.
pub struct PINA;

impl Register for PINA {
    open spec fn spec_address() -> usize {
        PINA_ADDR
    }

    fn address() -> usize {
        PINA_ADDR
    }
}

/// Port B Input Pins register.
pub struct PINB;

impl Register for PINB {
    open spec fn spec_address() -> usize {
        PINB_ADDR
    }

    fn address() -> usize {
        PINB_ADDR
    }
}

/// Port C Input Pins register.
pub struct PINC;

impl Register for PINC {
    open spec fn spec_address() -> usize {
        PINC_ADDR
    }

    fn address() -> usize {
        PINC_ADDR
    }
}

/// Port D Input Pins register.
pub struct PIND;

impl Register for PIND {
    open spec fn spec_address() -> usize {
        PIND_ADDR
    }

    fn address() -> usize {
        PIND_ADDR
    }
}

/// USART Baud Rate Register, high byte.
pub struct UBRRH;

impl Register for UBRRH {
    open spec fn spec_address() -> usize {
        UBRRH_ADDR
    }

    fn address() -> usize {
        UBRRH_ADDR
    }
}

/// USART Baud Rate Register, low byte.
pub struct UBRRL;

impl Register for UBRRL {
    open spec fn spec_address() -> usize {
        UBRRL_ADDR
    }

    fn address() -> usize {
        UBRRL_ADDR
    }
}

/// USART Control and Status Register A.
pub struct UCSRA;

impl Register for UCSRA {
    open spec fn spec_address() -> usize {
        UCSRA_ADDR
    }

    fn address() -> usize {
        UCSRA_ADDR
    }
}

/// USART Control and Status Register B.
pub struct UCSRB;

impl Register for UCSRB {
    open spec fn spec_address() -> usize {
        UCSRB_ADDR
    }

    fn address() -> usize {
        UCSRB_ADDR
    }
}

/// USART Control and Status Register C.
pub struct UCSRC;

impl Register for UCSRC {
    open spec fn spec_address() -> usize {
        UCSRC_ADDR
    }

    fn address() -> usize {
        UCSRC_ADDR
    }
}

/// USART I/O Data Register.
pub struct UDR;

impl Register for UDR {
    open spec fn spec_address() -> usize {
        UDR_ADDR
    }

    fn address() -> usize {
        UDR_ADDR
    }
}

} // verus!
