//! What `Serial::write` sends for each writable type, and the formatting
//! behavior of the number types.
//!
//! Characters send their (truncated) code point; strings send their
//! characters one by one. Numbers format as digit strings: decimal notation
//! follows the mathematical value with a leading minus for negatives, while
//! binary, octal and hexadecimal notation print the two's-complement bit
//! pattern at the type's width, as unsigned.

use vstd::prelude::*;

use crate::mcu::Mcu;
use crate::numfmt::{format_radix, spec_digits};
use crate::uart::{ready_to_send, uart_frame, Serial};

verus! {

/// The decimal notation of `v`: its digits, with a leading `'-'` when it is
/// negative.
pub open spec fn spec_decimal(v: int) -> Seq<u8> {
    if v < 0 {
        seq![0x2du8] + spec_digits((-v) as nat, 10)
    } else {
        spec_digits(v as nat, 10)
    }
}

/// The binary notation of a bit pattern.
pub open spec fn spec_binary(bits: u128) -> Seq<u8> {
    spec_digits(bits as nat, 2)
}

/// The octal notation of a bit pattern.
pub open spec fn spec_octal(bits: u128) -> Seq<u8> {
    spec_digits(bits as nat, 8)
}

/// The hexadecimal notation of a bit pattern.
pub open spec fn spec_hexadecimal(bits: u128) -> Seq<u8> {
    spec_digits(bits as nat, 16)
}

/// A type with specific `Serial::write` behavior.
pub trait SerialWritable {
    /// The bytes writing this value sends over the serial connection.
    spec fn serial_bytes(&self) -> Seq<u8>;

    /// Writes this value to the serial connection.
    fn write_to_serial(&self, mcu: &mut Mcu)
        requires
            old(mcu).wf(),
            ready_to_send(*old(mcu)),
        ensures
            final(mcu).wf(),
            ready_to_send(*final(mcu)),
            uart_frame(*old(mcu), *final(mcu)),
            final(mcu).tx@ == old(mcu).tx@ + self.serial_bytes(),
    ;
}

impl SerialWritable for char {
    /// A character sends its code point, truncated to a byte as the wire
    /// format is byte-wide.
    open spec fn serial_bytes(&self) -> Seq<u8> {
        seq![*self as u8]
    }

    fn write_to_serial(&self, mcu: &mut Mcu) {
        Serial::write_raw(mcu, *self as u8);
    }
}

impl SerialWritable for &str {
    /// A string sends its characters one by one.
    open spec fn serial_bytes(&self) -> Seq<u8> {
        self@.map_values(|c: char| c as u8)
    }

    fn write_to_serial(&self, mcu: &mut Mcu) {
        let n = self.unicode_len();
        let mut i: usize = 0;
        while i < n
            invariant
                n == self@.len(),
                i <= n,
                mcu.wf(),
                ready_to_send(*mcu),
                uart_frame(*old(mcu), *mcu),
                mcu.tx@ == old(mcu).tx@ + self@.subrange(0, i as int).map_values(
                    |c: char| c as u8,
                ),
            decreases n - i,
        {
            let c = self.get_char(i);
            Serial::write_raw(mcu, c as u8);
            proof {
                assert(self@.subrange(0, i as int).map_values(|ch: char| ch as u8).push(
                    self@[i as int] as u8,
                ) =~= self@.subrange(0, i as int + 1).map_values(|ch: char| ch as u8));
            }
            i = i + 1;
        }
        proof {
            assert(self@.subrange(0, n as int) =~= self@);
        }
    }
}

/// A number the serial formatters can print: its mathematical value for
/// decimal notation, and its two's-complement bit pattern for the
/// positional notations.
pub trait SerialNumber: Copy {
    /// The mathematical value.
    spec fn spec_int(&self) -> int;

    /// The two's-complement bit pattern at this type's width, zero-extended.
    spec fn spec_bits(&self) -> u128;

    /// The absolute value and the sign: `(|v|, v < 0)`.
    fn magnitude(&self) -> (r: (u128, bool))
        ensures
            r.1 == (self.spec_int() < 0),
            r.0 == if self.spec_int() < 0 {
                -self.spec_int()
            } else {
                self.spec_int()
            },
    ;

    /// The bit pattern, as a runtime value.
    fn bits(&self) -> (r: u128)
        ensures
            r == self.spec_bits(),
    ;
}

/// A number that `Serial::write_dec` prints in decimal notation.
pub trait SerialWritableDecimal: SerialNumber {
    /// Formats the number as decimal and writes it to the serial connection.
    fn write_to_serial_as_dec(&self, mcu: &mut Mcu)
        requires
            old(mcu).wf(),
            ready_to_send(*old(mcu)),
        ensures
            final(mcu).wf(),
            ready_to_send(*final(mcu)),
            uart_frame(*old(mcu), *final(mcu)),
            final(mcu).tx@ == old(mcu).tx@ + spec_decimal(self.spec_int()),
    {
        let (mag, negative) = self.magnitude();
        if negative {
            Serial::write_raw(mcu, 0x2d);
        }
        let digits = format_radix(mag, 10);
        Serial::write_bytes(mcu, &digits);
        proof {
            if self.spec_int() < 0 {
                assert(old(mcu).tx@ + (seq![0x2du8] + spec_digits((-self.spec_int()) as nat, 10))
                    =~= (old(mcu).tx@ + seq![0x2du8]) + spec_digits((-self.spec_int()) as nat, 10));
                assert(old(mcu).tx@.push(0x2du8) =~= old(mcu).tx@ + seq![0x2du8]);
            }
        }
    }
}

/// A number that `Serial::write_bin` prints in binary notation.
pub trait SerialWritableBinary: SerialNumber {
    /// Formats the bit pattern as binary and writes it to the serial
    /// connection.
    fn write_to_serial_as_bin(&self, mcu: &mut Mcu)
        requires
            old(mcu).wf(),
            ready_to_send(*old(mcu)),
        ensures
            final(mcu).wf(),
            ready_to_send(*final(mcu)),
            uart_frame(*old(mcu), *final(mcu)),
            final(mcu).tx@ == old(mcu).tx@ + spec_binary(self.spec_bits()),
    {
        let digits = format_radix(self.bits(), 2);
        Serial::write_bytes(mcu, &digits);
    }
}

/// A number that `Serial::write_oct` prints in octal notation.
pub trait SerialWritableOctal: SerialNumber {
    /// Formats the bit pattern as octal and writes it to the serial
    /// connection.
    fn write_to_serial_as_oct(&self, mcu: &mut Mcu)
        requires
            old(mcu).wf(),
            ready_to_send(*old(mcu)),
        ensures
            final(mcu).wf(),
            ready_to_send(*final(mcu)),
            uart_frame(*old(mcu), *final(mcu)),
            final(mcu).tx@ == old(mcu).tx@ + spec_octal(self.spec_bits()),
    {
        let digits = format_radix(self.bits(), 8);
        Serial::write_bytes(mcu, &digits);
    }
}

/// A number that `Serial::write_hex` prints in hexadecimal notation.
pub trait SerialWritableHexadecimal: SerialNumber {
    /// Formats the bit pattern as hexadecimal and writes it to the serial
    /// connection.
    fn write_to_serial_as_hex(&self, mcu: &mut Mcu)
        requires
            old(mcu).wf(),
            ready_to_send(*old(mcu)),
        ensures
            final(mcu).wf(),
            ready_to_send(*final(mcu)),
            uart_frame(*old(mcu), *final(mcu)),
            final(mcu).tx@ == old(mcu).tx@ + spec_hexadecimal(self.spec_bits()),
    {
        let digits = format_radix(self.bits(), 16);
        Serial::write_bytes(mcu, &digits);
    }
}

/// The default formatting for numbers is decimal.
impl<T: SerialWritableDecimal> SerialWritable for T {
    open spec fn serial_bytes(&self) -> Seq<u8> {
        spec_decimal(self.spec_int())
    }

    fn write_to_serial(&self, mcu: &mut Mcu) {
        self.write_to_serial_as_dec(mcu);
    }
}

/// A string buffer that can be created empty and handed on as `&str`.
pub trait StringType: Sized {
    /// The characters the buffer holds.
    spec fn spec_chars(&self) -> Seq<char>;

    /// Creates an empty buffer.
    fn new() -> (s: Self)
        ensures
            s.spec_chars() == Seq::<char>::empty(),
    ;

    /// The buffer's contents as a string slice.
    fn as_str(&self) -> (r: &str)
        ensures
            r@ == self.spec_chars(),
    ;
}

impl StringType for String {
    open spec fn spec_chars(&self) -> Seq<char> {
        self@
    }

    fn new() -> (s: String)
        ensures
            s.spec_chars() == Seq::<char>::empty(),
    {
        String::new()
    }

    fn as_str(&self) -> (r: &str)
        ensures
            r@ == self.spec_chars(),
    {
        self.as_str()
    }
}

impl SerialNumber for u8 {
    open spec fn spec_int(&self) -> int {
        *self as int
    }

    open spec fn spec_bits(&self) -> u128 {
        *self as u128
    }

    fn magnitude(&self) -> (r: (u128, bool)) {
        (*self as u128, false)
    }

    fn bits(&self) -> (r: u128) {
        *self as u128
    }
}

impl SerialNumber for u16 {
    open spec fn spec_int(&self) -> int {
        *self as int
    }

    open spec fn spec_bits(&self) -> u128 {
        *self as u128
    }

    fn magnitude(&self) -> (r: (u128, bool)) {
        (*self as u128, false)
    }

    fn bits(&self) -> (r: u128) {
        *self as u128
    }
}

impl SerialNumber for u32 {
    open spec fn spec_int(&self) -> int {
        *self as int
    }

    open spec fn spec_bits(&self) -> u128 {
        *self as u128
    }

    fn magnitude(&self) -> (r: (u128, bool)) {
        (*self as u128, false)
    }

    fn bits(&self) -> (r: u128) {
        *self as u128
    }
}

impl SerialNumber for u64 {
    open spec fn spec_int(&self) -> int {
        *self as int
    }

    open spec fn spec_bits(&self) -> u128 {
        *self as u128
    }

    fn magnitude(&self) -> (r: (u128, bool)) {
        (*self as u128, false)
    }

    fn bits(&self) -> (r: u128) {
        *self as u128
    }
}

impl SerialNumber for u128 {
    open spec fn spec_int(&self) -> int {
        *self as int
    }

    open spec fn spec_bits(&self) -> u128 {
        *self as u128
    }

    fn magnitude(&self) -> (r: (u128, bool)) {
        (*self as u128, false)
    }

    fn bits(&self) -> (r: u128) {
        *self as u128
    }
}

impl SerialNumber for usize {
    open spec fn spec_int(&self) -> int {
        *self as int
    }

    open spec fn spec_bits(&self) -> u128 {
        *self as u128
    }

    fn magnitude(&self) -> (r: (u128, bool)) {
        (*self as u128, false)
    }

    fn bits(&self) -> (r: u128) {
        *self as u128
    }
}

impl SerialNumber for i8 {
    open spec fn spec_int(&self) -> int {
        *self as int
    }

    open spec fn spec_bits(&self) -> u128 {
        (*self as u8) as u128
    }

    fn magnitude(&self) -> (r: (u128, bool)) {
        let v = *self;
        if v < 0 {
            (((-(v + 1)) as u128) + 1, true)
        } else {
            (v as u128, false)
        }
    }

    fn bits(&self) -> (r: u128) {
        (*self as u8) as u128
    }
}

impl SerialNumber for i16 {
    open spec fn spec_int(&self) -> int {
        *self as int
    }

    open spec fn spec_bits(&self) -> u128 {
        (*self as u16) as u128
    }

    fn magnitude(&self) -> (r: (u128, bool)) {
        let v = *self;
        if v < 0 {
            (((-(v + 1)) as u128) + 1, true)
        } else {
            (v as u128, false)
        }
    }

    fn bits(&self) -> (r: u128) {
        (*self as u16) as u128
    }
}

impl SerialNumber for i32 {
    open spec fn spec_int(&self) -> int {
        *self as int
    }

    open spec fn spec_bits(&self) -> u128 {
        (*self as u32) as u128
    }

    fn magnitude(&self) -> (r: (u128, bool)) {
        let v = *self;
        if v < 0 {
            (((-(v + 1)) as u128) + 1, true)
        } else {
            (v as u128, false)
        }
    }

    fn bits(&self) -> (r: u128) {
        (*self as u32) as u128
    }
}

impl SerialNumber for i64 {
    open spec fn spec_int(&self) -> int {
        *self as int
    }

    open spec fn spec_bits(&self) -> u128 {
        (*self as u64) as u128
    }

    fn magnitude(&self) -> (r: (u128, bool)) {
        let v = *self;
        if v < 0 {
            (((-(v + 1)) as u128) + 1, true)
        } else {
            (v as u128, false)
        }
    }

    fn bits(&self) -> (r: u128) {
        (*self as u64) as u128
    }
}

impl SerialNumber for i128 {
    open spec fn spec_int(&self) -> int {
        *self as int
    }

    open spec fn spec_bits(&self) -> u128 {
        (*self as u128) as u128
    }

    fn magnitude(&self) -> (r: (u128, bool)) {
        let v = *self;
        if v < 0 {
            (((-(v + 1)) as u128) + 1, true)
        } else {
            (v as u128, false)
        }
    }

    fn bits(&self) -> (r: u128) {
        (*self as u128) as u128
    }
}

impl SerialNumber for isize {
    open spec fn spec_int(&self) -> int {
        *self as int
    }

    open spec fn spec_bits(&self) -> u128 {
        (*self as usize) as u128
    }

    fn magnitude(&self) -> (r: (u128, bool)) {
        let v = *self;
        if v < 0 {
            (((-(v + 1)) as u128) + 1, true)
        } else {
            (v as u128, false)
        }
    }

    fn bits(&self) -> (r: u128) {
        (*self as usize) as u128
    }
}

impl SerialWritableDecimal for u8 {

}

impl SerialWritableBinary for u8 {

}

impl SerialWritableOctal for u8 {

}

impl SerialWritableHexadecimal for u8 {

}

impl SerialWritableDecimal for u16 {

}

impl SerialWritableBinary for u16 {

}

impl SerialWritableOctal for u16 {

}

impl SerialWritableHexadecimal for u16 {

}

impl SerialWritableDecimal for u32 {

}

impl SerialWritableBinary for u32 {

}

impl SerialWritableOctal for u32 {

}

impl SerialWritableHexadecimal for u32 {

}

impl SerialWritableDecimal for u64 {

}

impl SerialWritableBinary for u64 {

}

impl SerialWritableOctal for u64 {

}

impl SerialWritableHexadecimal for u64 {

}

impl SerialWritableDecimal for u128 {

}

impl SerialWritableBinary for u128 {

}

impl SerialWritableOctal for u128 {

}

impl SerialWritableHexadecimal for u128 {

}

impl SerialWritableDecimal for usize {

}

impl SerialWritableBinary for usize {

}

impl SerialWritableOctal for usize {

}

impl SerialWritableHexadecimal for usize {

}

impl SerialWritableDecimal for i8 {

}

impl SerialWritableBinary for i8 {

}

impl SerialWritableOctal for i8 {

}

impl SerialWritableHexadecimal for i8 {

}

impl SerialWritableDecimal for i16 {

}

impl SerialWritableBinary for i16 {

}

impl SerialWritableOctal for i16 {

}

impl SerialWritableHexadecimal for i16 {

}

impl SerialWritableDecimal for i32 {

}

impl SerialWritableBinary for i32 {

}

impl SerialWritableOctal for i32 {

}

impl SerialWritableHexadecimal for i32 {

}

impl SerialWritableDecimal for i64 {

}

impl SerialWritableBinary for i64 {

}

impl SerialWritableOctal for i64 {

}

impl SerialWritableHexadecimal for i64 {

}

impl SerialWritableDecimal for i128 {

}

impl SerialWritableBinary for i128 {

}

impl SerialWritableOctal for i128 {

}

impl SerialWritableHexadecimal for i128 {

}

impl SerialWritableDecimal for isize {

}

impl SerialWritableBinary for isize {

}

impl SerialWritableOctal for isize {

}

impl SerialWritableHexadecimal for isize {

}

} // verus!
