use emulator::watchdog::{WatchdogTimer, INITIAL_MODE, MODE_REGISTER};

const CONTROL_REGISTER: u32 = 0x400E1A50;
const STATUS_REGISTER: u32 = 0x400E1A58;

#[test]
fn watchdog_get32_aligned() {
    let watchdog = WatchdogTimer::new();

    assert_eq!(watchdog.get32_aligned(CONTROL_REGISTER), 0);
    assert_eq!(watchdog.get32_aligned(MODE_REGISTER), INITIAL_MODE);
    assert_eq!(watchdog.get32_aligned(STATUS_REGISTER), 0);
}

#[test]
fn watchdog_set32_aligned() {
    let mut watchdog = WatchdogTimer::new();

    watchdog.set32_aligned(CONTROL_REGISTER, 123);
    watchdog.set32_aligned(MODE_REGISTER, 456);
    watchdog.set32_aligned(MODE_REGISTER, 0);
    watchdog.set32_aligned(STATUS_REGISTER, 789);

    assert_eq!(watchdog.get32_aligned(CONTROL_REGISTER), 0);
    assert_eq!(watchdog.get32_aligned(MODE_REGISTER), 456);
    assert_eq!(watchdog.get32_aligned(STATUS_REGISTER), 0);
}

#[test]
fn watchdog_reset() {
    let mut watchdog = WatchdogTimer::new();

    watchdog.set32_aligned(MODE_REGISTER, 456);
    watchdog.reset();

    assert_eq!(watchdog.get32_aligned(MODE_REGISTER), INITIAL_MODE);
}

#[test]
fn write_after_reset() {
    let mut watchdog = WatchdogTimer::new();

    watchdog.set32_aligned(MODE_REGISTER, 456);
    watchdog.reset();
    watchdog.set32_aligned(MODE_REGISTER, 789);

    assert_eq!(watchdog.get32_aligned(MODE_REGISTER), 789);
}
