use rp6lib::lookup_vector;

#[test]
fn every_table_name_maps_to_its_slot() {
    assert_eq!(lookup_vector("RESET"), Some(0));
    assert_eq!(lookup_vector("INT0"), Some(1));
    assert_eq!(lookup_vector("INT1"), Some(2));
    assert_eq!(lookup_vector("INT2"), Some(3));
    assert_eq!(lookup_vector("TIMER2_COMP"), Some(4));
    assert_eq!(lookup_vector("TIMER2_OVF"), Some(5));
    assert_eq!(lookup_vector("TIMER1_CAPT"), Some(6));
    assert_eq!(lookup_vector("TIMER1_COMPA"), Some(7));
    assert_eq!(lookup_vector("TIMER1_COMPB"), Some(8));
    assert_eq!(lookup_vector("TIMER1_OVF"), Some(9));
    assert_eq!(lookup_vector("TIMER0_COMP"), Some(10));
    assert_eq!(lookup_vector("TIMER0_OVF"), Some(11));
    assert_eq!(lookup_vector("SPI_STC"), Some(12));
    assert_eq!(lookup_vector("USART_RXC"), Some(13));
    assert_eq!(lookup_vector("USART_UDRE"), Some(14));
    assert_eq!(lookup_vector("USART_TXC"), Some(15));
    assert_eq!(lookup_vector("ADC"), Some(16));
    assert_eq!(lookup_vector("EE_RDY"), Some(17));
    assert_eq!(lookup_vector("ANA_COMP"), Some(18));
    assert_eq!(lookup_vector("TWI"), Some(19));
    assert_eq!(lookup_vector("SPM_RDY"), Some(20));
}

#[test]
fn names_outside_the_table_are_refused() {
    assert_eq!(lookup_vector(""), None);
    assert_eq!(lookup_vector("reset"), None);
    assert_eq!(lookup_vector("INT3"), None);
    assert_eq!(lookup_vector("TIMER0_OV"), None);
    assert_eq!(lookup_vector("TIMER0_OVF "), None);
    assert_eq!(lookup_vector("USART"), None);
}
