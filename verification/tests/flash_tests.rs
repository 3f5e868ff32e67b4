use emulator::memory::MemoryBank;
use emulator::flash::{COMMAND_REGISTER0, COMMAND_REGISTER1, FlashController, MODE_REGISTER0, MODE_REGISTER1, READY_STATUS, RESULT_REGISTER0, STATUS_REGISTER0, STATUS_REGISTER1};

#[test]
fn flash_get32_aligned() {
    let mut flash = FlashController::new();
    flash.mode_register0 = 123;
    flash.status_register0 = 456;
    flash.result_register0 = 789;
    flash.mode_register1 = 0xABC;
    flash.status_register1 = 0xDEF;

    assert_eq!(flash.get32_aligned(MODE_REGISTER0).unwrap(), 123);
    assert_eq!(flash.get32_aligned(COMMAND_REGISTER0).unwrap(), 0);
    assert_eq!(flash.get32_aligned(STATUS_REGISTER0).unwrap(), 456);
    assert_eq!(flash.get32_aligned(STATUS_REGISTER0).unwrap(), READY_STATUS);
    assert_eq!(flash.get32_aligned(RESULT_REGISTER0).unwrap(), 789);
    assert_eq!(flash.get32_aligned(RESULT_REGISTER0).unwrap(), 0);
    assert_eq!(flash.get32_aligned(MODE_REGISTER1).unwrap(), 0xABC);
    assert_eq!(flash.get32_aligned(COMMAND_REGISTER1).unwrap(), 0);
    assert_eq!(flash.get32_aligned(STATUS_REGISTER1).unwrap(), 0xDEF);
    assert_eq!(flash.get32_aligned(STATUS_REGISTER1).unwrap(), READY_STATUS);
}

#[test]
fn flash_set32_aligned_mode() {
    let mut flash = FlashController::new();
    let mut memory = MemoryBank::new(0, 256);

    flash.set32_aligned(MODE_REGISTER0, 0xF100, &mut memory).unwrap();
    flash.set32_aligned(MODE_REGISTER1, 0xF100, &mut memory).unwrap();

    assert_eq!(flash.mode_register0, 0x0100);
    assert_eq!(flash.mode_register1, 0x0100);
}

#[test]
fn set32_aligned_control0() {
    let mut flash = FlashController::new();
    let mut memory = MemoryBank::new(0, 256);

    flash.set32_aligned(MODE_REGISTER0, 0xF100, &mut memory).unwrap();
    flash.set32_aligned(MODE_REGISTER1, 0xF100, &mut memory).unwrap();

    assert_eq!(flash.mode_register0, 0x0100);
    assert_eq!(flash.mode_register1, 0x0100);
}

#[test]
fn set32_aligned_control0_write_page_ok() {
    let mut flash = FlashController::new();
    flash.status_register0 = 123;
    for i in 0..64 {
        flash.set_latch_buffer(4 * i + 2560, i);
    }
    let mut memory = MemoryBank::new(0, 256);

    flash.set32_aligned(COMMAND_REGISTER0, 0x5A000103, &mut memory).unwrap();

    assert_eq!(flash.status_register0, READY_STATUS);
    for i in 0..64 {
        assert_eq!(memory.get32_aligned(4 * i), 0);
        assert_eq!(memory.get32_aligned(4 * i + 256), i);
    }
}

#[test]
fn set32_aligned_control0_write_page_bad_key() {
    let mut flash = FlashController::new();
    for i in 0..64 {
        flash.set_latch_buffer(4 * i + 2560, i);
    }
    let mut memory = MemoryBank::new(0, 256);

    flash.set32_aligned(COMMAND_REGISTER0, 0x5B000103, &mut memory).unwrap();

    for i in 0..64 {
        assert_eq!(memory.get32_aligned(4 * i + 256), 0);
    }
}

#[test]
fn set32_aligned_control0_write_page_bad_page() {
    let mut flash = FlashController::new();
    for i in 0..64 {
        flash.set_latch_buffer(4 * i + 2560, i);
    }
    let mut memory = MemoryBank::new(0, 256);

    flash.set32_aligned(COMMAND_REGISTER0, 0x5A040103, &mut memory).unwrap();

    for i in 0..64 {
        assert_eq!(memory.get32_aligned(4 * i + 256), 0);
    }
}

#[test]
fn set32_aligned_control0_write_page_missing_values() {
    let mut flash = FlashController::new();
    flash.status_register0 = 123;
    for i in 0..32 {
        flash.set_latch_buffer(4 * i + 2560, i);
    }
    let mut memory = MemoryBank::new(0, 256);

    flash.set32_aligned(COMMAND_REGISTER0, 0x5A000103, &mut memory).unwrap();

    assert_eq!(flash.status_register0, READY_STATUS);
    for i in 0..64 {
        assert_eq!(memory.get32_aligned(4 * i + 256), 0xFFFFFFFF);
    }
}

#[test]
fn set32_aligned_control0_write_two_pages_missing_values() {
    let mut flash = FlashController::new();
    flash.status_register0 = 123;
    for i in 0..64 {
        flash.set_latch_buffer(4 * i + 2560, i);
    }
    let mut memory = MemoryBank::new(0, 256);

    flash.set32_aligned(COMMAND_REGISTER0, 0x5A000103, &mut memory).unwrap();
    flash.set32_aligned(COMMAND_REGISTER0, 0x5A000203, &mut memory).unwrap();

    assert_eq!(flash.status_register0, READY_STATUS);
    for i in 0..64 {
        assert_eq!(memory.get32_aligned(4 * i + 256), i);
        assert_eq!(memory.get32_aligned(4 * i + 512), 0xFFFFFFFF);
    }
}

#[test]
fn set32_aligned_control0_set_bit_ok() {
    let mut flash = FlashController::new();
    flash.status_register0 = 123;
    let mut memory = MemoryBank::new(0, 256);

    flash.set32_aligned(COMMAND_REGISTER0, 0x5A00010B, &mut memory).unwrap();

    assert_eq!(flash.status_register0, READY_STATUS);
    assert!(flash.boot_from_flash());
}

#[test]
fn set32_aligned_control0_clear_bit_ok() {
    let mut flash = FlashController::new();
    flash.status_register0 = 123;
    flash.boot_from_flash = true;
    let mut memory = MemoryBank::new(0, 256);

    flash.set32_aligned(COMMAND_REGISTER0, 0x5A00010C, &mut memory).unwrap();

    assert_eq!(flash.status_register0, READY_STATUS);
    assert!(!flash.boot_from_flash());
}

#[test]
fn set32_aligned_control0_get_bit() {
    let mut flash = FlashController::new();
    flash.status_register0 = 123;
    flash.boot_from_flash = true;
    let mut memory = MemoryBank::new(0, 256);

    flash.set32_aligned(COMMAND_REGISTER0, 0x5A00010D, &mut memory).unwrap();

    assert_eq!(flash.status_register0, READY_STATUS);
    assert_eq!(flash.get32_aligned(RESULT_REGISTER0).unwrap(), 2);
    assert!(flash.boot_from_flash());
}

#[test]
fn set32_aligned_control1_write_page_ok() {
    let mut flash = FlashController::new();
    for i in 0..64 {
        flash.set_latch_buffer(4 * i + 256, i);
    }
    let mut memory = MemoryBank::new(0, 512 * 1024);

    flash.set32_aligned(COMMAND_REGISTER1, 0x5A000103, &mut memory).unwrap();

    for i in 0..64 {
        assert_eq!(memory.get32_aligned(4 * i), 0);
        assert_eq!(memory.get32_aligned(4 * i + 256 * 1025), i);
    }
}

#[test]
fn set32_aligned_control1_write_page_bad_key() {
    let mut flash = FlashController::new();
    for i in 0..64 {
        flash.set_latch_buffer(4 * i + 2560, i);
    }
    let mut memory = MemoryBank::new(0, 512 * 1024);

    flash.set32_aligned(COMMAND_REGISTER1, 0x5B000103, &mut memory).unwrap();

    for i in 0..64 {
        assert_eq!(memory.get32_aligned(4 * i + 256 * 1025), 0);
    }
}

#[test]
fn set32_aligned_control1_write_page_bad_page() {
    let mut flash = FlashController::new();
    for i in 0..64 {
        flash.set_latch_buffer(4 * i + 2560, i);
    }
    let mut memory = MemoryBank::new(0, 512 * 1024);

    flash.set32_aligned(COMMAND_REGISTER1, 0x5A040103, &mut memory).unwrap();

    for i in 0..64 {
        assert_eq!(memory.get32_aligned(4 * i + 256 * 1025), 0);
    }
}

#[test]
fn set32_aligned_control1_set_bit_ok() {
    let mut flash = FlashController::new();
    flash.status_register0 = 123;
    let mut memory = MemoryBank::new(0, 256);

    flash.set32_aligned(COMMAND_REGISTER1, 0x5A00010B, &mut memory).unwrap();

    assert_eq!(flash.status_register0, 123);
    assert!(!flash.boot_from_flash());
}

#[test]
fn set32_aligned_control1_clear_bit_ok() {
    let mut flash = FlashController::new();
    flash.status_register0 = 123;
    flash.boot_from_flash = true;
    let mut memory = MemoryBank::new(0, 256);

    flash.set32_aligned(COMMAND_REGISTER1, 0x5A00010C, &mut memory).unwrap();

    assert_eq!(flash.status_register0, 123);
    assert!(flash.boot_from_flash());
}

#[test]
fn set32_aligned_control1_get_bit() {
    let mut flash = FlashController::new();
    flash.status_register0 = 123;
    flash.boot_from_flash = true;
    let mut memory = MemoryBank::new(0, 256);

    flash.set32_aligned(COMMAND_REGISTER1, 0x5A00010D, &mut memory).unwrap();

    assert_eq!(flash.status_register0, 123);
    assert_eq!(flash.get32_aligned(RESULT_REGISTER0).unwrap(), 0);
    assert!(flash.boot_from_flash());
}

#[test]
fn flash_set32_aligned_status() {
    let mut flash = FlashController::new();
    flash.status_register0 = 123;
    flash.status_register1 = 456;
    let mut memory = MemoryBank::new(0, 256);

    flash.set32_aligned(STATUS_REGISTER0, 0, &mut memory).unwrap();
    flash.set32_aligned(STATUS_REGISTER1, 0, &mut memory).unwrap();

    assert_eq!(flash.status_register0, 123);
    assert_eq!(flash.status_register1, 456);
}

#[test]
fn set32_aligned_result() {
    let mut flash = FlashController::new();
    flash.result_register0 = 123;
    let mut memory = MemoryBank::new(0, 256);

    flash.set32_aligned(RESULT_REGISTER0, 0, &mut memory).unwrap();

    assert_eq!(flash.result_register0, 123);
}

#[test]
fn erase() {
    let mut flash = FlashController::new();
    flash.boot_from_flash = true;

    flash.erase();

    assert!(!flash.boot_from_flash());
}

#[test]
fn reset_boot_from_rom() {
    let mut flash = FlashController::new();
    flash.mode_register0 = 123;
    flash.status_register0 = 456;
    flash.result_register0 = 789;
    flash.mode_register1 = 0xABC;
    flash.status_register1 = 0xDEF;
    flash.boot_from_flash = false;
    flash.latch_buffer[0] = Option::Some(123456);

    flash.reset();

    assert_eq!(flash.mode_register0, 0x200);
    assert_eq!(flash.status_register0, READY_STATUS);
    assert_eq!(flash.result_register0, 0);
    assert_eq!(flash.mode_register1, 0x200);
    assert_eq!(flash.status_register1, READY_STATUS);
    assert!(!flash.boot_from_flash());
    assert_eq!(flash.latch_buffer[0], Option::None);
}

#[test]
fn reset_boot_from_flash() {
    let mut flash = FlashController::new();
    flash.mode_register0 = 123;
    flash.status_register0 = 456;
    flash.result_register0 = 789;
    flash.mode_register1 = 0xABC;
    flash.status_register1 = 0xDEF;
    flash.boot_from_flash = true;
    flash.latch_buffer[0] = Option::Some(123456);

    flash.reset();

    assert_eq!(flash.mode_register0, 0);
    assert_eq!(flash.status_register0, READY_STATUS);
    assert_eq!(flash.result_register0, 0);
    assert_eq!(flash.mode_register1, 0);
    assert_eq!(flash.status_register1, READY_STATUS);
    assert!(flash.boot_from_flash());
    assert_eq!(flash.latch_buffer[0], Option::None);
}
