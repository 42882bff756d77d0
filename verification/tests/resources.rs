use rp6lib::ResourceTable;

#[test]
fn declare_hands_out_slots_in_order() {
    let mut table: ResourceTable<u8> = ResourceTable::new();
    assert_eq!(table.len(), 0);
    let ticks = table.declare("ticks", 0);
    let phase = table.declare("phase", 7);
    assert_eq!(ticks, Some(0));
    assert_eq!(phase, Some(1));
    assert_eq!(table.len(), 2);
    assert_eq!(*table.read(0), 0);
    assert_eq!(*table.read(1), 7);
}

#[test]
fn duplicate_names_are_refused() {
    let mut table: ResourceTable<u16> = ResourceTable::new();
    assert_eq!(table.declare("counter", 1), Some(0));
    assert_eq!(table.declare("counter", 2), None);
    // The refused declaration left the table unchanged.
    assert_eq!(table.len(), 1);
    assert_eq!(*table.read(0), 1);
}

#[test]
fn slots_persist_across_invocations() {
    let mut table: ResourceTable<u8> = ResourceTable::new();
    let slot = table.declare("counter", 0).unwrap();
    // A handler that increments its counter resource observes, on call
    // n + 1, the value accumulated by the previous n calls.
    for call in 0u8..=5 {
        let seen = *table.read(slot);
        assert_eq!(seen, call);
        table.write(slot, seen.wrapping_add(1));
    }
    assert_eq!(*table.read(slot), 6);
}

#[test]
fn counter_wraps_at_the_type_width() {
    let mut table: ResourceTable<u8> = ResourceTable::new();
    let slot = table.declare("counter", 255).unwrap();
    let seen = *table.read(slot);
    table.write(slot, seen.wrapping_add(1));
    assert_eq!(*table.read(slot), 0);
}

#[test]
fn writes_leave_other_slots_alone() {
    let mut table: ResourceTable<i32> = ResourceTable::new();
    let first = table.declare("left", -3).unwrap();
    let second = table.declare("right", 8).unwrap();
    table.write(first, 11);
    assert_eq!(*table.read(first), 11);
    assert_eq!(*table.read(second), 8);
}
