use emulator::time::{SystemTimer, CALIBRATION_VALUE, CALIBRATION_VALUE_REGISTER, CLOCK_SOURCE, CONTROL_AND_STATUS_REGISTER, COUNT_FLAG, CURRENT_VALUE_REGISTER, ENABLE, INCREMENT, RELOAD_VALUE_REGISTER};

#[test]
fn time_get32_aligned() {
    let mut timer = SystemTimer {
        control_and_status: COUNT_FLAG | CLOCK_SOURCE | ENABLE,
        reload_value: 123,
        current_value: 456,
        ..Default::default()
    };

    assert_eq!(
        timer.get32_aligned(CONTROL_AND_STATUS_REGISTER),
        COUNT_FLAG | CLOCK_SOURCE | ENABLE
    );
    assert_eq!(
        timer.get32_aligned(CONTROL_AND_STATUS_REGISTER),
        CLOCK_SOURCE | ENABLE
    );
    assert_eq!(timer.get32_aligned(RELOAD_VALUE_REGISTER), 123);
    assert_eq!(timer.get32_aligned(CURRENT_VALUE_REGISTER), 456);
    assert_eq!(
        timer.get32_aligned(CALIBRATION_VALUE_REGISTER),
        CALIBRATION_VALUE
    );
}

#[test]
fn time_set32_aligned_control() {
    let mut timer = SystemTimer {
        control_and_status: COUNT_FLAG | CLOCK_SOURCE,
        ..Default::default()
    };

    timer.set32_aligned(CONTROL_AND_STATUS_REGISTER, 0xFFFFFF00 | ENABLE).unwrap();

    assert_eq!(timer.control_and_status, COUNT_FLAG | ENABLE);
}

#[test]
fn set32_aligned_reload_value() {
    let mut timer = SystemTimer {
        reload_value: 123,
        ..Default::default()
    };

    timer.set32_aligned(RELOAD_VALUE_REGISTER, 456).unwrap();

    assert_eq!(timer.reload_value, 456);
}

#[test]
fn set32_aligned_current_value() {
    let mut timer = SystemTimer {
        control_and_status: COUNT_FLAG | CLOCK_SOURCE | ENABLE,
        current_value: 123,
        ..Default::default()
    };

    timer.set32_aligned(CURRENT_VALUE_REGISTER, 456).unwrap();

    assert_eq!(timer.control_and_status, CLOCK_SOURCE | ENABLE);
    assert_eq!(timer.current_value, 0);
}

#[test]
fn set32_aligned_calibration_value() {
    let mut timer = SystemTimer::default();

    timer.set32_aligned(CALIBRATION_VALUE_REGISTER, 456).unwrap();

    assert_eq!(
        timer.get32_aligned(CALIBRATION_VALUE_REGISTER),
        CALIBRATION_VALUE
    );
}

#[test]
fn update() {
    let mut timer = SystemTimer::default();
    timer.set32_aligned(CONTROL_AND_STATUS_REGISTER, ENABLE).unwrap();
    timer.set32_aligned(RELOAD_VALUE_REGISTER, 5 * INCREMENT).unwrap();
    timer.current_value = 4 * INCREMENT;

    timer.update();

    assert_eq!(timer.current_value, 3 * INCREMENT);
    assert_eq!(timer.control_and_status & COUNT_FLAG, 0);
}

#[test]
fn update_from_increment() {
    let mut timer = SystemTimer::default();
    timer.set32_aligned(RELOAD_VALUE_REGISTER, 5 * INCREMENT).unwrap();
    timer.set32_aligned(CONTROL_AND_STATUS_REGISTER, CLOCK_SOURCE | ENABLE).unwrap();
    timer.current_value = INCREMENT;

    timer.update();

    assert_eq!(timer.current_value, 0);
    assert_eq!(timer.control_and_status & COUNT_FLAG, COUNT_FLAG);
}

#[test]
fn update_from_one() {
    let mut timer = SystemTimer::default();
    timer.set32_aligned(RELOAD_VALUE_REGISTER, 5 * INCREMENT).unwrap();
    timer.set32_aligned(CONTROL_AND_STATUS_REGISTER, CLOCK_SOURCE | ENABLE).unwrap();
    timer.current_value = 1;

    timer.update();

    assert_eq!(timer.current_value, 4 * INCREMENT + 1);
    assert_eq!(timer.control_and_status & COUNT_FLAG, COUNT_FLAG);
}

#[test]
fn update_from_zero() {
    let mut timer = SystemTimer::default();
    timer.set32_aligned(RELOAD_VALUE_REGISTER, 5 * INCREMENT).unwrap();
    timer.set32_aligned(CONTROL_AND_STATUS_REGISTER, CLOCK_SOURCE | ENABLE).unwrap();
    timer.current_value = 0;

    timer.update();

    assert_eq!(timer.current_value, 4 * INCREMENT);
    assert_eq!(timer.control_and_status & COUNT_FLAG, 0);
}

#[test]
fn update_disabled() {
    let mut timer = SystemTimer {
        current_value: 4 * INCREMENT,
        ..Default::default()
    };

    timer.update();

    assert_eq!(timer.current_value, 4 * INCREMENT);
    assert_eq!(timer.control_and_status & COUNT_FLAG, 0);
}

#[test]
fn time_reset() {
    let mut timer = SystemTimer {
        control_and_status: COUNT_FLAG | ENABLE,
        reload_value: 123,
        current_value: 456,
        ..Default::default()
    };

    timer.reset();

    assert_eq!(timer.control_and_status, CLOCK_SOURCE);
    assert_eq!(timer.reload_value, 0);
    assert_eq!(timer.current_value, 0);
}
