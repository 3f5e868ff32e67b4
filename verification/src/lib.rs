//! An emulator of an Arduino Due (an Atmel SAM3X8E micro-controller with an ARM Cortex-M3 core),
//! its TFT screen (through an RA8875 graphics card) and a PS/2 keyboard.
//!
//! The operations on single peripherals and the bus matrix require the writes they perform to be
//! supported by the emulated hardware, and offer functions to check them first (such as
//! `BusMatrix::write_fault`). The operations that emulate a program (an instruction, a boot
//! program command) check them and return `Err(Fault)` describing the cause where the emulated
//! program does something unsupported (an unmapped address, an unsupported register, register
//! value or instruction, a program error such as a branch inside an IT block); the emulation is
//! then not meant to go on. No operation of the library stops the host program.

use vstd::prelude::*;

pub mod arduino;
pub mod arm;
pub mod backup;
pub mod boot;
pub mod boot_helper;
pub mod bus;
pub mod chip;
pub mod cpu;
pub mod fault;
pub mod flash;
pub mod flash_helper;
pub mod gpu;
pub mod interrupt;
pub mod keyboard;
pub mod memory;
pub mod mpu;
pub mod pio;
pub mod power;
pub mod reset;
pub mod spi;
pub mod system;
pub mod text;
pub mod time;
pub mod usart;
pub mod watchdog;

verus! {

} // verus!
