//! The pins available on the supported device: eight pins for each of the
//! four ports, named by port letter and bit position as the data sheet names
//! them.
#![allow(non_camel_case_types)]

use vstd::prelude::*;

use crate::pin::Pin;
use crate::registers::{
    DDRA, DDRB, DDRC, DDRD, PINA, PINB, PINC, PIND, PORTA, PORTB, PORTC, PORTD,
};

verus! {

/// Pin 0 of port A.
pub struct a0;

impl Pin for a0 {
    type DDR = DDRA;

    type PORT = PORTA;

    type PIN = PINA;

    open spec fn spec_offset() -> u8 {
        0
    }

    fn offset() -> u8 {
        0
    }
}

/// Pin 1 of port A.
pub struct a1;

impl Pin for a1 {
    type DDR = DDRA;

    type PORT = PORTA;

    type PIN = PINA;

    open spec fn spec_offset() -> u8 {
        1
    }

    fn offset() -> u8 {
        1
    }
}

/// Pin 2 of port A.
pub struct a2;

impl Pin for a2 {
    type DDR = DDRA;

    type PORT = PORTA;

    type PIN = PINA;

    open spec fn spec_offset() -> u8 {
        2
    }

    fn offset() -> u8 {
        2
    }
}

/// Pin 3 of port A.
pub struct a3;

impl Pin for a3 {
    type DDR = DDRA;

    type PORT = PORTA;

    type PIN = PINA;

    open spec fn spec_offset() -> u8 {
        3
    }

    fn offset() -> u8 {
        3
    }
}

/// Pin 4 of port A.
pub struct a4;

impl Pin for a4 {
    type DDR = DDRA;

    type PORT = PORTA;

    type PIN = PINA;

    open spec fn spec_offset() -> u8 {
        4
    }

    fn offset() -> u8 {
        4
    }
}

/// Pin 5 of port A.
pub struct a5;

impl Pin for a5 {
    type DDR = DDRA;

    type PORT = PORTA;

    type PIN = PINA;

    open spec fn spec_offset() -> u8 {
        5
    }

    fn offset() -> u8 {
        5
    }
}

/// Pin 6 of port A.
pub struct a6;

impl Pin for a6 {
    type DDR = DDRA;

    type PORT = PORTA;

    type PIN = PINA;

    open spec fn spec_offset() -> u8 {
        6
    }

    fn offset() -> u8 {
        6
    }
}

/// Pin 7 of port A.
pub struct a7;

impl Pin for a7 {
    type DDR = DDRA;

    type PORT = PORTA;

    type PIN = PINA;

    open spec fn spec_offset() -> u8 {
        7
    }

    fn offset() -> u8 {
        7
    }
}

/// Pin 0 of port B.
pub struct b0;

impl Pin for b0 {
    type DDR = DDRB;

    type PORT = PORTB;

    type PIN = PINB;

    open spec fn spec_offset() -> u8 {
        0
    }

    fn offset() -> u8 {
        0
    }
}

/// Pin 1 of port B.
pub struct b1;

impl Pin for b1 {
    type DDR = DDRB;

    type PORT = PORTB;

    type PIN = PINB;

    open spec fn spec_offset() -> u8 {
        1
    }

    fn offset() -> u8 {
        1
    }
}

/// Pin 2 of port B.
pub struct b2;

impl Pin for b2 {
    type DDR = DDRB;

    type PORT = PORTB;

    type PIN = PINB;

    open spec fn spec_offset() -> u8 {
        2
    }

    fn offset() -> u8 {
        2
    }
}

/// Pin 3 of port B.
pub struct b3;

impl Pin for b3 {
    type DDR = DDRB;

    type PORT = PORTB;

    type PIN = PINB;

    open spec fn spec_offset() -> u8 {
        3
    }

    fn offset() -> u8 {
        3
    }
}

/// Pin 4 of port B.
pub struct b4;

impl Pin for b4 {
    type DDR = DDRB;

    type PORT = PORTB;

    type PIN = PINB;

    open spec fn spec_offset() -> u8 {
        4
    }

    fn offset() -> u8 {
        4
    }
}

/// Pin 5 of port B.
pub struct b5;

impl Pin for b5 {
    type DDR = DDRB;

    type PORT = PORTB;

    type PIN = PINB;

    open spec fn spec_offset() -> u8 {
        5
    }

    fn offset() -> u8 {
        5
    }
}

/// Pin 6 of port B.
pub struct b6;

impl Pin for b6 {
    type DDR = DDRB;

    type PORT = PORTB;

    type PIN = PINB;

    open spec fn spec_offset() -> u8 {
        6
    }

    fn offset() -> u8 {
        6
    }
}

/// Pin 7 of port B.
pub struct b7;

impl Pin for b7 {
    type DDR = DDRB;

    type PORT = PORTB;

    type PIN = PINB;

    open spec fn spec_offset() -> u8 {
        7
    }

    fn offset() -> u8 {
        7
    }
}

/// Pin 0 of port C.
pub struct c0;

impl Pin for c0 {
    type DDR = DDRC;

    type PORT = PORTC;

    type PIN = PINC;

    open spec fn spec_offset() -> u8 {
        0
    }

    fn offset() -> u8 {
        0
    }
}

/// Pin 1 of port C.
pub struct c1;

impl Pin for c1 {
    type DDR = DDRC;

    type PORT = PORTC;

    type PIN = PINC;

    open spec fn spec_offset() -> u8 {
        1
    }

    fn offset() -> u8 {
        1
    }
}

/// Pin 2 of port C.
pub struct c2;

impl Pin for c2 {
    type DDR = DDRC;

    type PORT = PORTC;

    type PIN = PINC;

    open spec fn spec_offset() -> u8 {
        2
    }

    fn offset() -> u8 {
        2
    }
}

/// Pin 3 of port C.
pub struct c3;

impl Pin for c3 {
    type DDR = DDRC;

    type PORT = PORTC;

    type PIN = PINC;

    open spec fn spec_offset() -> u8 {
        3
    }

    fn offset() -> u8 {
        3
    }
}

/// Pin 4 of port C.
pub struct c4;

impl Pin for c4 {
    type DDR = DDRC;

    type PORT = PORTC;

    type PIN = PINC;

    open spec fn spec_offset() -> u8 {
        4
    }

    fn offset() -> u8 {
        4
    }
}

/// Pin 5 of port C.
pub struct c5;

impl Pin for c5 {
    type DDR = DDRC;

    type PORT = PORTC;

    type PIN = PINC;

    open spec fn spec_offset() -> u8 {
        5
    }

    fn offset() -> u8 {
        5
    }
}

/// Pin 6 of port C.
pub struct c6;

impl Pin for c6 {
    type DDR = DDRC;

    type PORT = PORTC;

    type PIN = PINC;

    open spec fn spec_offset() -> u8 {
        6
    }

    fn offset() -> u8 {
        6
    }
}

/// Pin 7 of port C.
pub struct c7;

impl Pin for c7 {
    type DDR = DDRC;

    type PORT = PORTC;

    type PIN = PINC;

    open spec fn spec_offset() -> u8 {
        7
    }

    fn offset() -> u8 {
        7
    }
}

/// Pin 0 of port D.
pub struct d0;

impl Pin for d0 {
    type DDR = DDRD;

    type PORT = PORTD;

    type PIN = PIND;

    open spec fn spec_offset() -> u8 {
        0
    }

    fn offset() -> u8 {
        0
    }
}

/// Pin 1 of port D.
pub struct d1;

impl Pin for d1 {
    type DDR = DDRD;

    type PORT = PORTD;

    type PIN = PIND;

    open spec fn spec_offset() -> u8 {
        1
    }

    fn offset() -> u8 {
        1
    }
}

/// Pin 2 of port D.
pub struct d2;

impl Pin for d2 {
    type DDR = DDRD;

    type PORT = PORTD;

    type PIN = PIND;

    open spec fn spec_offset() -> u8 {
        2
    }

    fn offset() -> u8 {
        2
    }
}

/// Pin 3 of port D.
pub struct d3;

impl Pin for d3 {
    type DDR = DDRD;

    type PORT = PORTD;

    type PIN = PIND;

    open spec fn spec_offset() -> u8 {
        3
    }

    fn offset() -> u8 {
        3
    }
}

/// Pin 4 of port D.
pub struct d4;

impl Pin for d4 {
    type DDR = DDRD;

    type PORT = PORTD;

    type PIN = PIND;

    open spec fn spec_offset() -> u8 {
        4
    }

    fn offset() -> u8 {
        4
    }
}

/// Pin 5 of port D.
pub struct d5;

impl Pin for d5 {
    type DDR = DDRD;

    type PORT = PORTD;

    type PIN = PIND;

    open spec fn spec_offset() -> u8 {
        5
    }

    fn offset() -> u8 {
        5
    }
}

/// Pin 6 of port D.
pub struct d6;

impl Pin for d6 {
    type DDR = DDRD;

    type PORT = PORTD;

    type PIN = PIND;

    open spec fn spec_offset() -> u8 {
        6
    }

    fn offset() -> u8 {
        6
    }
}

/// Pin 7 of port D.
pub struct d7;

impl Pin for d7 {
    type DDR = DDRD;

    type PORT = PORTD;

    type PIN = PIND;

    open spec fn spec_offset() -> u8 {
        7
    }

    fn offset() -> u8 {
        7
    }
}

} // verus!
