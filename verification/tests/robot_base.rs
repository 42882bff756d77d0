use rp6lib::registers::{
    DDRA, DDRB, DDRC, DDRD, PORTA, PORTB, PORTC, PORTD, UBRRH, UBRRL, UCSRA, UCSRB, UCSRC,
};
use rp6lib::{Mcu, Register, RobotBase};

#[test]
fn init_ports_sets_the_documented_layout() {
    let mut mcu = Mcu::new();
    RobotBase::init_ports(&mut mcu);
    assert_eq!(PORTA::read(&mcu), 0b0000_0000);
    assert_eq!(PORTB::read(&mcu), 0b0000_0000);
    assert_eq!(PORTC::read(&mcu), 0b0000_0000);
    assert_eq!(PORTD::read(&mcu), 0b0000_0001);
    assert_eq!(DDRA::read(&mcu), 0b0000_0000);
    assert_eq!(DDRB::read(&mcu), 0b0101_1000);
    assert_eq!(DDRC::read(&mcu), 0b1000_1100);
    assert_eq!(DDRD::read(&mcu), 0b1111_0010);
}

#[test]
fn init_brings_the_base_to_its_start_state() {
    let mut mcu = Mcu::new();
    RobotBase::init(&mut mcu);
    assert_eq!(PORTA::read(&mcu), 0x00);
    assert_eq!(PORTB::read(&mcu), 0x00);
    assert_eq!(PORTC::read(&mcu), 0x00);
    assert_eq!(PORTD::read(&mcu), 0x01);
    assert_eq!(DDRA::read(&mcu), 0x00);
    assert_eq!(DDRB::read(&mcu), 0x50);
    assert_eq!(DDRC::read(&mcu), 0x8C);
    assert_eq!(DDRD::read(&mcu), 0xB2);
    assert_eq!(UBRRH::read(&mcu), 0x00);
    assert_eq!(UBRRL::read(&mcu), 12);
    assert_eq!(UCSRA::read(&mcu), 0x00);
    assert_eq!(UCSRC::read(&mcu), 0x86);
    assert_eq!(UCSRB::read(&mcu), 0x98);
    // The critical section inside init is closed again.
    assert!(mcu.interrupts_enabled);
    assert_eq!(mcu.critical_depth, 0);
    assert!(mcu.tx.is_empty());
}

#[test]
fn power_targets_its_pin() {
    let mut mcu = Mcu::new();
    RobotBase::power_on(&mut mcu);
    assert_eq!(PORTB::read(&mcu), 0x10);
    RobotBase::power_off(&mut mcu);
    assert_eq!(PORTB::read(&mcu), 0x00);
}

#[test]
fn reset_button_switches_direction_low() {
    let mut mcu = Mcu::new();
    RobotBase::init_ports(&mut mcu);
    RobotBase::disable_reset_button(&mut mcu);
    assert_eq!(DDRB::read(&mcu), 0b0111_1000);
    assert_eq!(PORTB::read(&mcu), 0x00);
    RobotBase::enable_reset_button(&mut mcu);
    assert_eq!(DDRB::read(&mcu), 0b0101_1000);
    assert_eq!(PORTB::read(&mcu), 0x00);
}

#[test]
fn ircomm_pin_is_driven_low() {
    let mut mcu = Mcu::new();
    PORTD::write(&mut mcu, 0xFF);
    RobotBase::ensure_ircomm_disabled(&mut mcu);
    assert_eq!(PORTD::read(&mcu), 0x7F);
    PORTD::write(&mut mcu, 0xFF);
    RobotBase::disable_ircomm(&mut mcu);
    assert_eq!(PORTD::read(&mcu), 0x7F);
}

#[test]
fn acs_power_levels_drive_the_two_power_pins() {
    let mut mcu = Mcu::new();
    RobotBase::set_acs_power_high(&mut mcu);
    assert_eq!(DDRD::read(&mcu), 0x40);
    assert_eq!(PORTD::read(&mcu), 0x40);
    assert_eq!(DDRB::read(&mcu), 0x08);
    assert_eq!(PORTB::read(&mcu), 0x08);

    RobotBase::set_acs_power_low(&mut mcu);
    assert_eq!(DDRD::read(&mcu), 0x40);
    assert_eq!(PORTD::read(&mcu), 0x40);
    assert_eq!(DDRB::read(&mcu), 0x00);
    assert_eq!(PORTB::read(&mcu), 0x00);

    RobotBase::set_acs_power_medium(&mut mcu);
    assert_eq!(DDRD::read(&mcu), 0x00);
    assert_eq!(PORTD::read(&mcu), 0x00);
    assert_eq!(DDRB::read(&mcu), 0x08);
    assert_eq!(PORTB::read(&mcu), 0x08);

    RobotBase::set_acs_power_off(&mut mcu);
    assert_eq!(DDRD::read(&mcu), 0x00);
    assert_eq!(PORTD::read(&mcu), 0x00);
    assert_eq!(DDRB::read(&mcu), 0x00);
    assert_eq!(PORTB::read(&mcu), 0x00);
    assert_eq!(PORTC::read(&mcu), 0x00);
}

#[test]
fn acs_pwr_names_match_the_power_names() {
    let mut a = Mcu::new();
    let mut b = Mcu::new();
    RobotBase::set_acs_power_high(&mut a);
    RobotBase::set_acs_pwr_high(&mut b);
    assert_eq!(a.regs, b.regs);
    RobotBase::set_acs_power_medium(&mut a);
    RobotBase::set_acs_pwr_medium(&mut b);
    assert_eq!(a.regs, b.regs);
    RobotBase::set_acs_power_low(&mut a);
    RobotBase::set_acs_pwr_low(&mut b);
    assert_eq!(a.regs, b.regs);
    RobotBase::set_acs_power_off(&mut a);
    RobotBase::set_acs_pwr_off(&mut b);
    assert_eq!(a.regs, b.regs);
}

#[test]
fn leds_take_the_low_six_bits() {
    let mut mcu = Mcu::new();
    RobotBase::set_leds(&mut mcu, 0b11_1111);
    assert_eq!(DDRC::read(&mcu), 0x70);
    assert_eq!(PORTC::read(&mcu), 0x70);
    assert_eq!(DDRB::read(&mcu), 0x83);
    assert_eq!(PORTB::read(&mcu), 0x83);

    // Bit 0 is LED1 on port C bit 4; bit 5 is LED6 on port B bit 0.
    RobotBase::set_leds(&mut mcu, 0b00_0001);
    assert_eq!(PORTC::read(&mcu), 0x10);
    assert_eq!(PORTB::read(&mcu), 0x00);

    RobotBase::set_leds(&mut mcu, 0b10_0000);
    assert_eq!(PORTC::read(&mcu), 0x00);
    assert_eq!(PORTB::read(&mcu), 0x01);

    RobotBase::set_leds(&mut mcu, 0b00_1100);
    assert_eq!(PORTC::read(&mcu), 0x40);
    assert_eq!(PORTB::read(&mcu), 0x80);
}
