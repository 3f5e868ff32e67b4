use emulator::reset::{ResetController, CONTROL_REGISTER};

#[test]
fn get32_aligned_control() {
    let reset_controller = ResetController::new();

    assert_eq!(reset_controller.get32_aligned(CONTROL_REGISTER).unwrap(), 0);
    assert!(!reset_controller.reset_requested());
}

#[test]
fn reset_set32_aligned_control() {
    let mut reset_controller = ResetController::new();

    reset_controller.set32_aligned(CONTROL_REGISTER, 0xA500000D).unwrap();

    assert!(reset_controller.reset_requested());
}

#[test]
fn set32_aligned_control_bad_key() {
    let mut reset_controller = ResetController::new();

    reset_controller.set32_aligned(CONTROL_REGISTER, 0xA600000D).unwrap();

    assert!(!reset_controller.reset_requested());
}

#[test]
fn set32_aligned_control_no_reset_bits() {
    let mut reset_controller = ResetController::new();

    reset_controller.set32_aligned(CONTROL_REGISTER, 0xA5000000).unwrap();

    assert!(!reset_controller.reset_requested());
}

#[test]
fn reset_reset() {
    let mut reset_controller = ResetController::new();

    reset_controller.set32_aligned(CONTROL_REGISTER, 0xA500000D).unwrap();
    reset_controller.reset();

    assert!(!reset_controller.reset_requested());
}
