use emulator::interrupt::{ACTIVE_BITS_REGISTER0, CLEAR_ENABLE_REGISTER0, CLEAR_PENDING_REGISTER0, NestedVectorInterruptController, SET_ENABLE_REGISTER0, SET_PENDING_REGISTER0};

#[test]
fn interrupt_get32_aligned() {
    let mut nvic = NestedVectorInterruptController::new();
    nvic.enabled = 0x123;
    nvic.pending = 0x456;
    nvic.active = 0x789;

    assert_eq!(nvic.get32_aligned(SET_ENABLE_REGISTER0).unwrap(), 0x123);
    assert_eq!(nvic.get32_aligned(CLEAR_ENABLE_REGISTER0).unwrap(), 0x123);
    assert_eq!(nvic.get32_aligned(SET_PENDING_REGISTER0).unwrap(), 0x456);
    assert_eq!(nvic.get32_aligned(CLEAR_PENDING_REGISTER0).unwrap(), 0x456);
    assert_eq!(nvic.get32_aligned(ACTIVE_BITS_REGISTER0).unwrap(), 0x789);
}

#[test]
fn interrupt_set32_aligned() {
    let mut nvic = NestedVectorInterruptController::new();
    nvic.enabled = 0x123;
    nvic.pending = 0x456;
    nvic.active = 0x789;

    nvic.set32_aligned(SET_ENABLE_REGISTER0, 0xA000).unwrap();
    nvic.set32_aligned(CLEAR_ENABLE_REGISTER0, 0x1).unwrap();
    nvic.set32_aligned(SET_PENDING_REGISTER0, 0xB000).unwrap();
    nvic.set32_aligned(CLEAR_PENDING_REGISTER0, 0x2).unwrap();
    nvic.set32_aligned(ACTIVE_BITS_REGISTER0, 0).unwrap();

    assert_eq!(nvic.enabled, 0xA122);
    assert_eq!(nvic.pending, 0xB454);
    assert_eq!(nvic.active, 0x789);
}

#[test]
fn maybe_activate_enabled_inactive() {
    let mut nvic = NestedVectorInterruptController::new();
    nvic.enabled = 8;
    nvic.pending = 8;

    let result = nvic.maybe_activate_interrupt(0);

    assert_eq!(result, Option::Some(3));
    assert_eq!(nvic.enabled, 8);
    assert_eq!(nvic.pending, 0);
    assert_eq!(nvic.active, 8);
}

#[test]
fn maybe_activate_enabled_already_active() {
    let mut nvic = NestedVectorInterruptController::new();
    nvic.enabled = 8;
    nvic.pending = 8;
    nvic.active = 1;

    let result = nvic.maybe_activate_interrupt(0);

    assert_eq!(result, Option::None);
    assert_eq!(nvic.enabled, 8);
    assert_eq!(nvic.pending, 8);
    assert_eq!(nvic.active, 1);
}

#[test]
fn maybe_activate_enabled_no_pending() {
    let mut nvic = NestedVectorInterruptController::new();
    nvic.enabled = 8;

    let result = nvic.maybe_activate_interrupt(0);

    assert_eq!(result, Option::None);
    assert_eq!(nvic.enabled, 8);
    assert_eq!(nvic.pending, 0);
    assert_eq!(nvic.active, 0);
}

#[test]
fn maybe_activate_pending_disabled() {
    let mut nvic = NestedVectorInterruptController::new();
    nvic.pending = 8;

    let result = nvic.maybe_activate_interrupt(0);

    assert_eq!(result, Option::None);
    assert_eq!(nvic.enabled, 0);
    assert_eq!(nvic.pending, 8);
    assert_eq!(nvic.active, 0);
}

#[test]
fn maybe_activate_enabled_level_interrupt() {
    let mut nvic = NestedVectorInterruptController::new();
    nvic.enabled = 12;

    let result = nvic.maybe_activate_interrupt(8);

    assert_eq!(result, Option::Some(3));
    assert_eq!(nvic.enabled, 12);
    assert_eq!(nvic.pending, 0);
    assert_eq!(nvic.active, 8);
}

#[test]
fn maybe_activate_disabled_level_interrupt() {
    let mut nvic = NestedVectorInterruptController::new();

    let result = nvic.maybe_activate_interrupt(8);

    assert_eq!(result, Option::None);
    assert_eq!(nvic.enabled, 0);
    assert_eq!(nvic.pending, 8);
    assert_eq!(nvic.active, 0);
}

#[test]
fn deactivate_interrupt_level_high() {
    let mut nvic = NestedVectorInterruptController::new();
    nvic.active = 8;

    nvic.deactivate_interrupt(12);

    assert_eq!(nvic.pending, 8);
    assert_eq!(nvic.active, 0);
}

#[test]
fn deactivate_interrupt_level_low() {
    let mut nvic = NestedVectorInterruptController::new();
    nvic.active = 8;

    nvic.deactivate_interrupt(4);

    assert_eq!(nvic.pending, 0);
    assert_eq!(nvic.active, 0);
}
