use rp6lib::{CriticalSection, DynamicMutex, Mcu, Mutex, Register};

#[test]
fn nested_sections_restore_the_enabled_state() {
    let mut mcu = Mcu::new();
    assert!(mcu.interrupts_enabled);
    assert_eq!(mcu.critical_depth, 0);

    let outer = CriticalSection::new(&mut mcu);
    assert!(!mcu.interrupts_enabled);
    assert_eq!(mcu.critical_depth, 1);

    let middle = CriticalSection::new(&mut mcu);
    assert!(!mcu.interrupts_enabled);
    assert_eq!(mcu.critical_depth, 2);

    let inner = CriticalSection::new(&mut mcu);
    assert!(!mcu.interrupts_enabled);
    assert_eq!(mcu.critical_depth, 3);

    // Interrupts stay disabled throughout the intermediate exits.
    inner.exit(&mut mcu);
    assert!(!mcu.interrupts_enabled);
    assert_eq!(mcu.critical_depth, 2);

    middle.exit(&mut mcu);
    assert!(!mcu.interrupts_enabled);
    assert_eq!(mcu.critical_depth, 1);

    // Only the exit that closes the outermost section re-enables delivery.
    outer.exit(&mut mcu);
    assert!(mcu.interrupts_enabled);
    assert_eq!(mcu.critical_depth, 0);
}

#[test]
fn critical_section_leaves_registers_alone() {
    let mut mcu = Mcu::new();
    rp6lib::registers::PORTA::write(&mut mcu, 0x5A);
    let cs = CriticalSection::new(&mut mcu);
    assert_eq!(mcu.regs[rp6lib::registers::PORTA_ADDR], 0x5A);
    cs.exit(&mut mcu);
    assert_eq!(mcu.regs[rp6lib::registers::PORTA_ADDR], 0x5A);
}

#[test]
fn mutex_access_needs_a_live_section() {
    let mut mcu = Mcu::new();
    let mut shared: Mutex<u8> = Mutex::new(17);

    let cs = CriticalSection::new(&mut mcu);
    assert_eq!(*shared.lock(&cs), 17);
    assert_eq!(shared.get(&cs), 17);
    shared.set(&cs, 99);
    assert_eq!(shared.get(&cs), 99);
    let previous = shared.replace(&cs, 3);
    assert_eq!(previous, 99);
    assert_eq!(shared.get(&cs), 3);
    cs.exit(&mut mcu);
}

#[test]
fn mutex_update_applies_the_function() {
    let mut mcu = Mcu::new();
    let mut counter: Mutex<usize> = Mutex::new(0);
    let cs = CriticalSection::new(&mut mcu);
    assert_eq!(counter.update(&cs, |x| x + 1), 1);
    assert_eq!(counter.update(&cs, |x| x + 1), 2);
    assert_eq!(counter.update(&cs, |x| x * 10), 20);
    assert_eq!(counter.get(&cs), 20);
    cs.exit(&mut mcu);
}

#[test]
fn dynamic_mutex_tracks_its_borrow() {
    let mut mcu = Mcu::new();
    let mut shared: DynamicMutex<Vec<u8>> = DynamicMutex::new(vec![1, 2, 3]);
    assert!(!shared.currently_borrowed());

    let cs = CriticalSection::new(&mut mcu);
    let mut data = shared.lock(&cs);
    assert!(shared.currently_borrowed());
    data.push(4);
    shared.restore(&cs, data);
    assert!(!shared.currently_borrowed());
    let data = shared.lock(&cs);
    assert_eq!(data, vec![1, 2, 3, 4]);
    shared.restore(&cs, data);
    cs.exit(&mut mcu);
}
