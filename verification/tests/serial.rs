use rp6lib::bitmasks::{RXC, RXCIE, TXCIE, UDRE};
use rp6lib::registers::{
    DDRD, PORTD, UBRRH, UBRRL, UCSRA, UCSRB, UCSRC, UDR, UDR_ADDR,
};
use rp6lib::uart::{BAUD_HIGH, BAUD_LOW, UBRR_BAUD_HIGH, UBRR_BAUD_LOW};
use rp6lib::{Mcu, Register, Serial};

/// Marks the transmitter ready, as the hardware does when the data register
/// is free.
fn make_ready(mcu: &mut Mcu) {
    UCSRA::set_mask_raw(mcu, UDRE);
}

#[test]
fn init_configures_the_serial_registers() {
    let mut mcu = Mcu::new();
    Serial::init(&mut mcu);
    assert_eq!(DDRD::read(&mcu), 0x02);
    assert_eq!(PORTD::read(&mcu), 0x00);
    assert_eq!(UBRRH::read(&mcu), 0x00);
    assert_eq!(UBRRL::read(&mcu), 12);
    assert_eq!(UCSRA::read(&mcu), 0x00);
    assert_eq!(UCSRC::read(&mcu), 0x86);
    assert_eq!(UCSRB::read(&mcu), 0x98);
}

#[test]
fn baud_rate_values_follow_the_clock() {
    assert_eq!(BAUD_LOW, 38400);
    assert_eq!(UBRR_BAUD_LOW, 12);
    assert_eq!(BAUD_HIGH, 500000);
    assert_eq!(UBRR_BAUD_HIGH, 0);

    let mut mcu = Mcu::new();
    Serial::set_baudrate_high(&mut mcu);
    assert_eq!(UBRRH::read(&mcu), 0x00);
    assert_eq!(UBRRL::read(&mcu), 0x00);
    Serial::set_baudrate_low(&mut mcu);
    assert_eq!(UBRRL::read(&mcu), 12);
}

#[test]
fn interrupt_toggles_target_their_bits() {
    let mut mcu = Mcu::new();
    Serial::enable_USART_RXC_interrupt(&mut mcu);
    assert_eq!(UCSRB::read(&mcu), RXCIE);
    Serial::enable_USART_TXC_interrupt(&mut mcu);
    assert_eq!(UCSRB::read(&mcu), RXCIE | TXCIE);
    Serial::disable_USART_RXC_interrupt(&mut mcu);
    assert_eq!(UCSRB::read(&mcu), TXCIE);
    Serial::disable_USART_TXC_interrupt(&mut mcu);
    assert_eq!(UCSRB::read(&mcu), 0x00);
}

#[test]
fn write_raw_logs_and_stores_the_byte() {
    let mut mcu = Mcu::new();
    make_ready(&mut mcu);
    Serial::write_raw(&mut mcu, b'A');
    assert_eq!(mcu.tx, vec![b'A']);
    assert_eq!(mcu.regs[UDR_ADDR], b'A');
    Serial::write_raw(&mut mcu, b'B');
    assert_eq!(mcu.tx, vec![b'A', b'B']);
}

#[test]
fn read_raw_returns_the_received_byte() {
    let mut mcu = Mcu::new();
    UDR::write(&mut mcu, 0x42);
    UCSRA::set_mask_raw(&mut mcu, RXC);
    assert_eq!(Serial::read_raw(&mcu), 0x42);
}

#[test]
fn characters_and_strings_send_their_bytes() {
    let mut mcu = Mcu::new();
    make_ready(&mut mcu);
    Serial::write(&mut mcu, 'R');
    Serial::write(&mut mcu, 'P');
    Serial::write(&mut mcu, '6');
    Serial::new_line(&mut mcu);
    assert_eq!(mcu.tx, b"RP6\n".to_vec());

    let mut mcu = Mcu::new();
    make_ready(&mut mcu);
    Serial::write(&mut mcu, "hello robot");
    assert_eq!(mcu.tx, b"hello robot".to_vec());
}

#[test]
fn decimal_formatting_follows_the_value() {
    let mut mcu = Mcu::new();
    make_ready(&mut mcu);
    Serial::write_dec(&mut mcu, 0u8);
    Serial::write(&mut mcu, ' ');
    Serial::write_dec(&mut mcu, 42u8);
    Serial::write(&mut mcu, ' ');
    Serial::write_dec(&mut mcu, 12345u16);
    Serial::write(&mut mcu, ' ');
    Serial::write_dec(&mut mcu, -1i8);
    Serial::write(&mut mcu, ' ');
    Serial::write_dec(&mut mcu, -128i8);
    Serial::write(&mut mcu, ' ');
    Serial::write_dec(&mut mcu, u64::MAX);
    assert_eq!(
        mcu.tx,
        b"0 42 12345 -1 -128 18446744073709551615".to_vec()
    );
}

#[test]
fn extreme_values_format_exactly() {
    let mut mcu = Mcu::new();
    make_ready(&mut mcu);
    Serial::write_dec(&mut mcu, u128::MAX);
    assert_eq!(mcu.tx, b"340282366920938463463374607431768211455".to_vec());
    mcu.tx.clear();
    Serial::write_dec(&mut mcu, i128::MIN);
    assert_eq!(mcu.tx, b"-170141183460469231731687303715884105728".to_vec());
    mcu.tx.clear();
    Serial::write_hex(&mut mcu, u128::MAX);
    assert_eq!(mcu.tx, b"ffffffffffffffffffffffffffffffff".to_vec());
    mcu.tx.clear();
    Serial::write_bin(&mut mcu, 0x80u8);
    assert_eq!(mcu.tx, b"10000000".to_vec());
}

#[test]
fn numbers_default_to_decimal_notation() {
    let mut mcu = Mcu::new();
    make_ready(&mut mcu);
    Serial::write(&mut mcu, 42u8);
    Serial::write(&mut mcu, -7i32);
    assert_eq!(mcu.tx, b"42-7".to_vec());
}

#[test]
fn positional_notations_print_the_bit_pattern() {
    let mut mcu = Mcu::new();
    make_ready(&mut mcu);
    Serial::write_hex(&mut mcu, 255u8);
    Serial::write(&mut mcu, ' ');
    Serial::write_hex(&mut mcu, 0x2Au8);
    Serial::write(&mut mcu, ' ');
    // Negative numbers print their two's-complement pattern at the type's
    // width, as unsigned.
    Serial::write_hex(&mut mcu, -1i8);
    Serial::write(&mut mcu, ' ');
    Serial::write_bin(&mut mcu, 5u8);
    Serial::write(&mut mcu, ' ');
    Serial::write_bin(&mut mcu, -2i8);
    Serial::write(&mut mcu, ' ');
    Serial::write_oct(&mut mcu, 8u8);
    Serial::write(&mut mcu, ' ');
    Serial::write_oct(&mut mcu, 0u8);
    assert_eq!(mcu.tx, b"ff 2a ff 101 11111110 10 0".to_vec());
}

#[test]
fn transmission_leaves_other_registers_alone() {
    let mut mcu = Mcu::new();
    make_ready(&mut mcu);
    rp6lib::registers::PORTA::write(&mut mcu, 0x77);
    Serial::write_dec(&mut mcu, 100u8);
    assert_eq!(rp6lib::registers::PORTA::read(&mcu), 0x77);
    assert_eq!(UCSRA::read(&mcu), UDRE);
    assert_eq!(mcu.tx, b"100".to_vec());
}
