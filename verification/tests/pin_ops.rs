use rp6lib::pin::set_pins;
use rp6lib::port::{b0, b3, c4};
use rp6lib::registers::{DDRB, DDRC, PINC, PORTB, PORTC};
use rp6lib::{DataDirection, Mcu, Pin, Register};

#[test]
fn direction_targets_the_direction_register() {
    let mut mcu = Mcu::new();
    b3::set_output(&mut mcu);
    assert_eq!(DDRB::read(&mcu), 0x08);
    assert_eq!(PORTB::read(&mcu), 0x00);
    b3::set_input(&mut mcu);
    assert_eq!(DDRB::read(&mcu), 0x00);
    b3::set_direction(&mut mcu, DataDirection::Output);
    assert_eq!(DDRB::read(&mcu), 0x08);
    b3::set_direction(&mut mcu, DataDirection::Input);
    assert_eq!(DDRB::read(&mcu), 0x00);
}

#[test]
fn levels_target_the_output_register() {
    let mut mcu = Mcu::new();
    b0::set_high(&mut mcu);
    assert_eq!(PORTB::read(&mcu), 0x01);
    assert_eq!(DDRB::read(&mcu), 0x00);
    b0::set_low(&mut mcu);
    assert_eq!(PORTB::read(&mcu), 0x00);
    b0::toggle(&mut mcu);
    assert_eq!(PORTB::read(&mcu), 0x01);
    b0::toggle(&mut mcu);
    assert_eq!(PORTB::read(&mcu), 0x00);
}

#[test]
fn polls_read_the_input_register() {
    let mut mcu = Mcu::new();
    PINC::write(&mut mcu, 0x10);
    assert!(c4::is_high(&mcu));
    assert!(!c4::is_low(&mcu));
    PINC::write(&mut mcu, 0x00);
    assert!(!c4::is_high(&mcu));
    assert!(c4::is_low(&mcu));
}

#[test]
fn group_write_spreads_value_bits() {
    let mut mcu = Mcu::new();
    PORTC::write(&mut mcu, 0b1000_0001);
    // Bit 0 of the value drives the pin at offset 4, bit 1 the pin at
    // offset 5, bit 2 the pin at offset 6.
    set_pins::<DDRC, PORTC>(&mut mcu, &vec![4, 5, 6], 0b101);
    assert_eq!(DDRC::read(&mcu), 0b0111_0000);
    assert_eq!(PORTC::read(&mcu), 0b1101_0001);
    // A second write replaces the group's bits and keeps the others.
    set_pins::<DDRC, PORTC>(&mut mcu, &vec![4, 5, 6], 0b010);
    assert_eq!(PORTC::read(&mcu), 0b1010_0001);
}

#[test]
fn output_high_low_high_differs_only_in_the_pin_bit() {
    let mut mcu = Mcu::new();
    // Configure the pin as an output and drive it high, low, high again.
    c4::set_output(&mut mcu);
    c4::set_high(&mut mcu);
    let high_value = PORTC::read(&mcu);
    c4::set_low(&mut mcu);
    let low_value = PORTC::read(&mcu);
    c4::set_high(&mut mcu);
    let high_again = PORTC::read(&mcu);
    // Exactly two distinct written values, differing only in the pin's bit.
    assert_eq!(high_value, high_again);
    assert_eq!(high_value ^ low_value, 0x10);
    // The driven level reads back through the input register: the model's
    // electrical feedback is one register copy.
    let driven = PORTC::read(&mcu);
    PINC::write(&mut mcu, driven);
    assert!(c4::is_high(&mcu));
    c4::set_low(&mut mcu);
    let driven = PORTC::read(&mcu);
    PINC::write(&mut mcu, driven);
    assert!(c4::is_low(&mcu));
}
