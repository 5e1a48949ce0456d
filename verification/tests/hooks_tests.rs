use mixer::hooks::HookSlot;

#[test]
fn a_new_slot_fires_nothing() {
    let slot: HookSlot<u32> = HookSlot::new();
    assert_eq!(slot.fire(), None);
}

#[test]
fn the_latest_installed_callback_wins() {
    // set(f) then set(g): a simulated engine trigger must invoke g, never f.
    let mut slot: HookSlot<u32> = HookSlot::new();
    slot.set(1);
    assert_eq!(slot.fire(), Some(&1));
    slot.set(2);
    assert_eq!(slot.fire(), Some(&2));
}

#[test]
fn unset_silences_the_slot() {
    // unset() after set(f): a simulated engine trigger must invoke nothing.
    let mut slot: HookSlot<u32> = HookSlot::new();
    slot.set(1);
    slot.unset();
    assert_eq!(slot.fire(), None);
    slot.unset();
    assert_eq!(slot.fire(), None);
}

#[test]
fn a_slot_can_be_refilled_after_unset() {
    let mut slot: HookSlot<u32> = HookSlot::new();
    slot.set(1);
    slot.unset();
    slot.set(3);
    assert_eq!(slot.fire(), Some(&3));
}
