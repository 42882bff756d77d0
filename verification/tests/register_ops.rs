use rp6lib::registers::{PINB, PORTA, PORTB, PORTB_ADDR, UCSRA};
use rp6lib::{Mcu, Register, RegisterBits};

#[test]
fn write_then_read_yields_value() {
    let mut mcu = Mcu::new();
    PORTA::write(&mut mcu, 0xA5);
    assert_eq!(PORTA::read(&mcu), 0xA5);
    PORTA::write(&mut mcu, 0x00);
    assert_eq!(PORTA::read(&mcu), 0x00);
    PORTA::write(&mut mcu, 0xFF);
    assert_eq!(PORTA::read(&mcu), 0xFF);
}

#[test]
fn write_touches_only_its_register() {
    let mut mcu = Mcu::new();
    PORTB::write(&mut mcu, 0x3C);
    assert_eq!(PORTA::read(&mcu), 0x00);
    assert_eq!(PINB::read(&mcu), 0x00);
    assert_eq!(PORTB::read(&mcu), 0x3C);
}

#[test]
fn set_then_unset_restores_outside_bits() {
    let mut mcu = Mcu::new();
    PORTB::write(&mut mcu, 0b1010_0101);
    PORTB::set_mask_raw(&mut mcu, 0b0000_1111);
    assert_eq!(PORTB::read(&mcu), 0b1010_1111);
    PORTB::unset_mask_raw(&mut mcu, 0b0000_1111);
    // Bits outside the mask are as before the pair of calls; bits in the
    // mask are cleared.
    assert_eq!(PORTB::read(&mcu), 0b1010_0000);
    assert_eq!(PORTB::read(&mcu), 0b1010_0101 & !0b0000_1111);
}

#[test]
fn toggle_twice_is_identity() {
    let mut mcu = Mcu::new();
    PORTB::write(&mut mcu, 0b1100_0011);
    PORTB::toggle_raw(&mut mcu, 0b0101_0101);
    assert_eq!(PORTB::read(&mcu), 0b1001_0110);
    PORTB::toggle_raw(&mut mcu, 0b0101_0101);
    assert_eq!(PORTB::read(&mcu), 0b1100_0011);
}

#[test]
fn mask_queries_match_definitions() {
    let mut mcu = Mcu::new();
    PORTB::write(&mut mcu, 0b0011_0000);
    assert!(PORTB::is_mask_set_raw(&mcu, 0b0011_0000));
    assert!(PORTB::is_mask_set_raw(&mcu, 0b0001_0000));
    assert!(!PORTB::is_mask_set_raw(&mcu, 0b0111_0000));
    assert!(PORTB::is_clear_raw(&mcu, 0b1100_1111));
    assert!(!PORTB::is_clear_raw(&mcu, 0b0001_0000));
}

#[test]
fn register_bits_compose() {
    let low: RegisterBits<PORTB> = RegisterBits::new(0x0F);
    let one: RegisterBits<PORTB> = RegisterBits::new(0x01);
    assert_eq!(low.or(one).raw(), 0x0F);
    assert_eq!(low.and(one).raw(), 0x01);
    assert_eq!(low.not().raw(), 0xF0);
    assert_eq!(RegisterBits::<PORTB>::zero().raw(), 0x00);

    let mut mcu = Mcu::new();
    PORTB::set(&mut mcu, low);
    assert_eq!(PORTB::read(&mcu), 0x0F);
    PORTB::unset(&mut mcu, one);
    assert_eq!(PORTB::read(&mcu), 0x0E);
    PORTB::toggle(&mut mcu, low);
    assert_eq!(PORTB::read(&mcu), 0x01);
    assert!(PORTB::is_set(&mcu, one));
    assert!(!PORTB::is_clear(&mcu, one));
    assert_eq!(mcu.regs[PORTB_ADDR], 0x01);
}

#[test]
fn wait_until_returns_once_bits_are_set() {
    let mut mcu = Mcu::new();
    UCSRA::write(&mut mcu, 0x20);
    UCSRA::wait_until_mask_set_raw(&mcu, 0x20);
    UCSRA::wait_until_set(&mcu, RegisterBits::new(0x20));
    assert_eq!(UCSRA::read(&mcu), 0x20);
}
