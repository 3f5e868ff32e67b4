use vstd::prelude::*;
use crate::arm::{decode, decode_insn, Instruction};
use crate::backup::{
    backup_register_index, BackupRegistersController, BACKUP_REGISTERS_BEGIN,
    BACKUP_REGISTERS_LAST,
};
use crate::fault::Fault;
use crate::flash::{FlashController, FLASH_CONTROLLER_BEGIN, FLASH_CONTROLLER_LAST};
use crate::interrupt::{
    NestedVectorInterruptController, NESTED_VECTOR_INTERRUPT_CONTROLLER_BEGIN,
    NESTED_VECTOR_INTERRUPT_CONTROLLER_LAST,
};
use crate::memory::{decode_stop, lemma_decode_stop_progress, raw_insn, split_insn, MemoryBank};
use crate::mpu::{MemoryProtectionUnit, MemoryRegion, MpuState, MEMORY_PROTECTION_UNIT_BEGIN, MEMORY_PROTECTION_UNIT_LAST};
use crate::pio::{self, EmptyPioDevice, ParallelIoController, PioDevice, Register, PIO_CONTROLLER_BEGIN, PIO_CONTROLLER_LAST};
use crate::power::{PowerManagementController, PM_CONTROLLER_BEGIN, PM_CONTROLLER_LAST, SPI_ID};
use crate::reset::{ResetController, RESET_CONTROLLER_BEGIN, RESET_CONTROLLER_LAST};
use crate::spi::{EmptySpiDevice, SerialPeripheralInterfaceController, SpiDevice, SPI_CONTROLLER_BEGIN, SPI_CONTROLLER_LAST};
use crate::system::{SystemControlBlock, SYSTEM_CONTROL_BLOCK_BEGIN, SYSTEM_CONTROL_BLOCK_LAST};
use crate::time::{SystemTimer, SYSTEM_TIMER_BEGIN, SYSTEM_TIMER_LAST};
use crate::usart::{
    UniversalReceiverTransmitter, UNIVERSAL_RECEIVER_TRANSMITTER_BEGIN,
    UNIVERSAL_RECEIVER_TRANSMITTER_LAST,
};
use crate::watchdog::{WatchdogTimer, WATCHDOG_TIMER_BEGIN, WATCHDOG_TIMER_LAST};

verus! {

broadcast use vstd::array::group_array_axioms;

// boot memory (maps flash memory bank0, bank1 or internal ROM):
// - [0, 80000[            : 512K
//
// flash memory:
// - [80000, C0000[        : 256KB, bank0, not repeated
// - [C0000, 100000[       : 256KB, bank1, not repeated
//
// internal ROM:
// - [100000, 200000[      : 1MB,   8KB used, repeated 128 times
//
// RAM:
// - [20000000, 20080000[  : 512KB, SRAM0 of 64KB, repeated 8 times
// - [20080000, 20100000[  : 512KB, SRAM1 of 32KB, repeated 16 times
//
// -> contiguous 96KB SRAM in [20070000, 20088000[
pub const BOOT_BEGIN: u32 = 0;

pub const BOOT_END: u32 = 0x80000;

pub const BOOT_LAST: u32 = BOOT_END - 1;

pub const FLASH_BEGIN: u32 = BOOT_END;

pub const FLASH_END: u32 = 0x100000;

pub const FLASH_LAST: u32 = FLASH_END - 1;

pub const FLASH_BYTES: u32 = FLASH_END - FLASH_BEGIN;

pub const ROM_BEGIN: u32 = FLASH_END;

pub const ROM_END: u32 = 0x200000;

pub const ROM_LAST: u32 = ROM_END - 1;

pub const ROM_BYTES: u32 = 8 * 1024;

pub const RAM0_BEGIN: u32 = 0x20000000;

pub const RAM0_END: u32 = 0x20080000;

pub const RAM0_LAST: u32 = RAM0_END - 1;

pub const RAM0_BYTES: u32 = 64 * 1024;

pub const RAM1_BEGIN: u32 = 0x20080000;

pub const RAM1_END: u32 = 0x20100000;

pub const RAM1_LAST: u32 = RAM1_END - 1;

pub const RAM1_BYTES: u32 = 32 * 1024;

/// The memories and peripherals mapped in the address space.
#[derive(PartialEq, Eq, Structural)]
pub enum Region {
    Boot,
    Flash,
    Rom,
    Ram0,
    Ram1,
    Spi,
    Usart,
    Power,
    FlashController,
    Pio,
    Reset,
    Watchdog,
    Backup,
    SystemTimer,
    Interrupt,
    SystemControl,
    Mpu,
    Unsupported,
}

/// The region containing `address`.
pub open spec fn region(address: u32) -> Region {
    if address <= BOOT_LAST {
        Region::Boot
    } else if FLASH_BEGIN <= address <= FLASH_LAST {
        Region::Flash
    } else if ROM_BEGIN <= address <= ROM_LAST {
        Region::Rom
    } else if RAM0_BEGIN <= address <= RAM0_LAST {
        Region::Ram0
    } else if RAM1_BEGIN <= address <= RAM1_LAST {
        Region::Ram1
    } else if SPI_CONTROLLER_BEGIN <= address <= SPI_CONTROLLER_LAST {
        Region::Spi
    } else if UNIVERSAL_RECEIVER_TRANSMITTER_BEGIN <= address
        <= UNIVERSAL_RECEIVER_TRANSMITTER_LAST {
        Region::Usart
    } else if PM_CONTROLLER_BEGIN <= address <= PM_CONTROLLER_LAST {
        Region::Power
    } else if FLASH_CONTROLLER_BEGIN <= address <= FLASH_CONTROLLER_LAST {
        Region::FlashController
    } else if PIO_CONTROLLER_BEGIN <= address <= PIO_CONTROLLER_LAST {
        Region::Pio
    } else if RESET_CONTROLLER_BEGIN <= address <= RESET_CONTROLLER_LAST {
        Region::Reset
    } else if WATCHDOG_TIMER_BEGIN <= address <= WATCHDOG_TIMER_LAST {
        Region::Watchdog
    } else if BACKUP_REGISTERS_BEGIN <= address <= BACKUP_REGISTERS_LAST {
        Region::Backup
    } else if SYSTEM_TIMER_BEGIN <= address <= SYSTEM_TIMER_LAST {
        Region::SystemTimer
    } else if NESTED_VECTOR_INTERRUPT_CONTROLLER_BEGIN <= address
        <= NESTED_VECTOR_INTERRUPT_CONTROLLER_LAST {
        Region::Interrupt
    } else if SYSTEM_CONTROL_BLOCK_BEGIN <= address <= SYSTEM_CONTROL_BLOCK_LAST {
        Region::SystemControl
    } else if MEMORY_PROTECTION_UNIT_BEGIN <= address <= MEMORY_PROTECTION_UNIT_LAST {
        Region::Mpu
    } else {
        Region::Unsupported
    }
}

/// Computes `region(address)`.
pub fn region_of(address: u32) -> (r: Region)
    ensures
        r == region(address),
{
    if address <= BOOT_LAST {
        Region::Boot
    } else if FLASH_BEGIN <= address && address <= FLASH_LAST {
        Region::Flash
    } else if ROM_BEGIN <= address && address <= ROM_LAST {
        Region::Rom
    } else if RAM0_BEGIN <= address && address <= RAM0_LAST {
        Region::Ram0
    } else if RAM1_BEGIN <= address && address <= RAM1_LAST {
        Region::Ram1
    } else if SPI_CONTROLLER_BEGIN <= address && address <= SPI_CONTROLLER_LAST {
        Region::Spi
    } else if UNIVERSAL_RECEIVER_TRANSMITTER_BEGIN <= address && address
        <= UNIVERSAL_RECEIVER_TRANSMITTER_LAST {
        Region::Usart
    } else if PM_CONTROLLER_BEGIN <= address && address <= PM_CONTROLLER_LAST {
        Region::Power
    } else if FLASH_CONTROLLER_BEGIN <= address && address <= FLASH_CONTROLLER_LAST {
        Region::FlashController
    } else if PIO_CONTROLLER_BEGIN <= address && address <= PIO_CONTROLLER_LAST {
        Region::Pio
    } else if RESET_CONTROLLER_BEGIN <= address && address <= RESET_CONTROLLER_LAST {
        Region::Reset
    } else if WATCHDOG_TIMER_BEGIN <= address && address <= WATCHDOG_TIMER_LAST {
        Region::Watchdog
    } else if BACKUP_REGISTERS_BEGIN <= address && address <= BACKUP_REGISTERS_LAST {
        Region::Backup
    } else if SYSTEM_TIMER_BEGIN <= address && address <= SYSTEM_TIMER_LAST {
        Region::SystemTimer
    } else if NESTED_VECTOR_INTERRUPT_CONTROLLER_BEGIN <= address && address
        <= NESTED_VECTOR_INTERRUPT_CONTROLLER_LAST {
        Region::Interrupt
    } else if SYSTEM_CONTROL_BLOCK_BEGIN <= address && address <= SYSTEM_CONTROL_BLOCK_LAST {
        Region::SystemControl
    } else if MEMORY_PROTECTION_UNIT_BEGIN <= address && address <= MEMORY_PROTECTION_UNIT_LAST {
        Region::Mpu
    } else {
        Region::Unsupported
    }
}

/// The error of `r`, if any.
pub open spec fn error_of(r: Result<(), Fault>) -> Option<Fault> {
    match r {
        Ok(()) => None,
        Err(e) => Some(e),
    }
}

/// The error of a read result `r`, if any.
pub open spec fn read_error(r: Result<u32, Fault>) -> Option<Fault> {
    match r {
        Ok(_) => None,
        Err(e) => Some(e),
    }
}

fn error_of_result(r: Result<(), Fault>) -> (o: Option<Fault>)
    ensures
        o == error_of(r),
{
    match r {
        Ok(()) => None,
        Err(e) => Some(e),
    }
}

/// Whether the region is only accessible in privileged mode.
pub open spec fn privileged_only(region: Region) -> bool {
    region == Region::SystemTimer || region == Region::Interrupt || region == Region::SystemControl
        || region == Region::Mpu
}

/// The number of words of each memory bank.
pub const FLASH_WORDS: u32 = FLASH_BYTES / 4;

pub const ROM_WORDS: u32 = ROM_BYTES / 4;

pub const RAM0_WORDS: u32 = RAM0_BYTES / 4;

pub const RAM1_WORDS: u32 = RAM1_BYTES / 4;

/// The word aligned address of the word containing `address`.
pub open spec fn aligned(address: u32) -> u32 {
    (address - address % 4) as u32
}

/// The position, in bits, of the byte at `address` in its word.
pub open spec fn shift(address: u32) -> u32 {
    ((address % 4) * 8) as u32
}

/// The multiplier and the increment of the linear congruential generator used to fill the RAM
/// at reset (see https://en.wikipedia.org/wiki/Linear_congruential_generator).
pub const LCG_A: u32 = 1664525;

pub const LCG_B: u32 = 1013904223;

/// The successor of `x` in the pseudo random sequence.
pub open spec fn lcg_next(x: u32) -> u32 {
    vstd::wrapping::u32_specs::wrapping_add(vstd::wrapping::u32_specs::wrapping_mul(x, LCG_A), LCG_B)
}

/// The `n`-th successor of `x` in the pseudo random sequence.
pub open spec fn lcg(x: u32, n: nat) -> u32
    decreases n,
{
    if n == 0 {
        x
    } else {
        lcg_next(lcg(x, (n - 1) as nat))
    }
}

/// The content of the ROM after a reset.
pub open spec fn rom_content() -> Seq<u32> {
    Seq::new(
        ROM_WORDS as nat,
        |i: int|
            if i == 4 {
                0x001000C7u32
            } else if i == 258 {
                0xB004F8CAu32
            } else {
                lcg(1, (i + 1) as nat)
            },
    )
}

/// The logical state of a bus matrix: the content of its memories and the state of its
/// peripherals, without the caches of decoded instructions and of memory access rights.
#[verifier::ext_equal]
pub struct BusState<S: SpiDevice, P: PioDevice> {
    pub seed: u32,
    pub flash: Seq<u32>,
    pub rom: Seq<u32>,
    pub ram0: Seq<u32>,
    pub ram1: Seq<u32>,
    pub spi: SerialPeripheralInterfaceController<S>,
    pub usart: UniversalReceiverTransmitter,
    pub power: PowerManagementController,
    pub flash_controller: FlashController,
    pub pio: Seq<Register>,
    pub pio_device: P,
    pub reset_requested: bool,
    pub watchdog: WatchdogTimer,
    pub backup: Seq<u32>,
    pub system_timer: SystemTimer,
    pub nvic: NestedVectorInterruptController,
    pub system_control: SystemControlBlock,
    pub mpu: MpuState,
    pub handler_mode: bool,
    pub privilege_mode: bool,
}

/// The index, in its memory bank, of the word at the aligned `address` of a memory region.
pub open spec fn word_index(region: Region, boot_from_flash: bool, address: u32) -> int {
    match region {
        Region::Boot => if boot_from_flash {
            (address / 4) as int
        } else {
            ((address % ROM_BYTES) / 4) as int
        },
        Region::Flash => ((address - FLASH_BEGIN) / 4) as int,
        Region::Rom => ((address % ROM_BYTES) / 4) as int,
        Region::Ram0 => ((address % RAM0_BYTES) / 4) as int,
        Region::Ram1 => ((address % RAM1_BYTES) / 4) as int,
        _ => 0,
    }
}

impl<S: SpiDevice, P: PioDevice> BusState<S, P> {
    pub open spec fn is_privileged(self) -> bool {
        self.privilege_mode || self.handler_mode
    }

    /// The words of the memory bank mapped at `region`.
    pub open spec fn bank(self, region: Region) -> Seq<u32> {
        match region {
            Region::Boot => if self.flash_controller.boot_from_flash {
                self.flash
            } else {
                self.rom
            },
            Region::Flash => self.flash,
            Region::Rom => self.rom,
            Region::Ram0 => self.ram0,
            Region::Ram1 => self.ram1,
            _ => Seq::empty(),
        }
    }

    /// The word at the aligned `address` of a memory region.
    pub open spec fn memory_word(self, address: u32) -> u32 {
        let r = region(address);
        self.bank(r)[word_index(r, self.flash_controller.boot_from_flash, address)]
    }

    /// Reading the word at the aligned `address`: the new state and the word read.
    #[verifier::opaque]
    pub open spec fn read32_aligned(self, address: u32) -> (Self, Result<u32, Fault>) {
        let r = region(address);
        if !self.mpu.permits(address, self.is_privileged()) || (privileged_only(r)
            && !self.is_privileged()) {
            (self, Err(Fault::UnauthorizedAccess(address)))
        } else {
            match r {
                Region::Spi => (
                    Self { spi: self.spi.after_read(address), ..self },
                    self.spi.read_value(address),
                ),
                Region::Usart => (
                    Self { usart: self.usart.after_read(address), ..self },
                    self.usart.read_value(address),
                ),
                Region::Power => (self, self.power.read_value(address)),
                Region::FlashController => (
                    Self { flash_controller: self.flash_controller.after_read(address), ..self },
                    self.flash_controller.read_value(address),
                ),
                Region::Pio => (self, Ok(pio::read_value(self.pio, address))),
                Region::Reset => (
                    self,
                    if address == crate::reset::CONTROL_REGISTER {
                        Ok(0u32)
                    } else {
                        Err(Fault::UnsupportedRegister(address))
                    },
                ),
                Region::Watchdog => (
                    self,
                    Ok(
                        if address == crate::watchdog::MODE_REGISTER {
                            self.watchdog.mode
                        } else {
                            0u32
                        },
                    ),
                ),
                Region::Backup => (self, Ok(self.backup[backup_register_index(address)])),
                Region::SystemTimer => (
                    Self { system_timer: self.system_timer.after_read(address), ..self },
                    Ok(self.system_timer.read_value(address)),
                ),
                Region::Interrupt => (self, self.nvic.read_value(address)),
                Region::SystemControl => (self, self.system_control.read_value(address)),
                Region::Mpu => (self, self.mpu.read_value(address)),
                Region::Unsupported => (self, Err(Fault::UnsupportedAddress(address))),
                _ => (self, Ok(self.memory_word(address))),
            }
        }
    }

    /// The fault of a write of `value` at the aligned `address` that the emulated hardware does
    /// not support: an access that the memory protection unit or the privilege level forbids, an
    /// address that maps no memory or peripheral or maps the ROM, or a register or value of a
    /// peripheral that is not emulated. (A data that the SPI device refuses is only known once it
    /// is sent.)
    pub open spec fn write_refusal(self, address: u32, value: u32) -> Option<Fault> {
        let r = region(address);
        if !self.mpu.permits(address, self.is_privileged()) || (privileged_only(r)
            && !self.is_privileged()) {
            Some(Fault::UnauthorizedAccess(address))
        } else {
            match r {
                Region::Rom | Region::Unsupported => Some(Fault::UnsupportedAddress(address)),
                Region::Spi => if SerialPeripheralInterfaceController::<S>::register_write_supported(
                    address,
                    value,
                ) {
                    None
                } else {
                    error_of(SerialPeripheralInterfaceController::<S>::write_spec_error(address, value))
                },
                Region::Usart => error_of(UniversalReceiverTransmitter::write_result(address, value)),
                Region::Power => error_of(PowerManagementController::write_result(address, value)),
                Region::FlashController => error_of(FlashController::write_result(address, value)),
                Region::Pio => if pio::write_supported(self.pio, address) {
                    None
                } else {
                    Some(Fault::UnsupportedRegister(address))
                },
                Region::Reset => error_of(ResetController::write_result(address, value)),
                Region::SystemTimer => if SystemTimer::write_supported(address, value) {
                    None
                } else {
                    Some(Fault::UnsupportedValue(address, value))
                },
                Region::Interrupt => if NestedVectorInterruptController::supports(address) {
                    None
                } else {
                    Some(Fault::UnsupportedRegister(address))
                },
                Region::SystemControl => if address == crate::system::VECTOR_TABLE_OFFSET_REGISTER
                    || address == crate::system::SYSTEM_HANDLER_PRIORITY_REGISTER2 {
                    None
                } else {
                    Some(Fault::UnsupportedRegister(address))
                },
                Region::Mpu => error_of(self.mpu.write_result(address, value)),
                _ => None,
            }
        }
    }

    /// A write that the emulated hardware does not support fails with the fault of
    /// `write_refusal`, and changes nothing.
    pub proof fn lemma_refused_write(self, address: u32, value: u32)
        requires
            self.write_refusal(address, value) is Some,
        ensures
            self.write32_aligned(address, value) == (self, Err::<(), Fault>(
                self.write_refusal(address, value)->Some_0,
            )),
    {
        reveal(BusState::write32_aligned);
    }

    /// A read never changes the boot mode (whether the processor boots from the flash memory).
    pub proof fn lemma_read_keeps_boot_mode(self, address: u32)
        ensures
            self.read32(address).0.flash_controller.boot_from_flash
                == self.flash_controller.boot_from_flash,
    {
        reveal(BusState::read32_aligned);
        let a = aligned(address);
        let s = self.read32_aligned(a).0;
        assert(s.flash_controller.boot_from_flash == self.flash_controller.boot_from_flash);
        assert(s.read32_aligned((a + 4) as u32).0.flash_controller.boot_from_flash
            == s.flash_controller.boot_from_flash);
        assert(self.read32_aligned(address).0.flash_controller.boot_from_flash
            == self.flash_controller.boot_from_flash);
    }

    /// A successful write of the "set GPNVM bit" command, with the write protection key, in the
    /// command register of the first flash controller makes the processor boot from the flash
    /// memory.
    pub proof fn lemma_set_boot_mode(self)
        ensures
            self.write32(0x400E0A04, 0x5A00010B).1 is Ok
                ==> self.write32(0x400E0A04, 0x5A00010B).0.flash_controller.boot_from_flash,
    {
        reveal(BusState::write32_aligned);
        assert(0x5A00010Bu32 & 0xFF000000u32 == 0x5A000000u32) by (bit_vector);
        assert(0x5A00010Bu32 & 0xFFu32 == 0xBu32) by (bit_vector);
        assert(shift(0x400E0A04) == 0);
        assert(region(0x400E0A04) == Region::FlashController);
    }

    /// A write in the control register of the reset controller never changes the boot mode.
    pub proof fn lemma_reset_write_keeps_boot_mode(self, value: u32)
        ensures
            self.write32(0x400E1A00, value).0.flash_controller.boot_from_flash
                == self.flash_controller.boot_from_flash,
    {
        reveal(BusState::write32_aligned);
        assert(shift(0x400E1A00) == 0);
        assert(region(0x400E1A00) == Region::Reset);
    }

    /// A successful write of the keyed value with all the reset bits in the control register of
    /// the reset controller requests a reset.
    pub proof fn lemma_reset_request(self)
        ensures
            self.write32(0x400E1A00, 0xA500000D).1 is Ok ==> self.write32(
                0x400E1A00,
                0xA500000D,
            ).0.reset_requested,
    {
        reveal(BusState::write32_aligned);
        assert(0xA500000Du32 & 0xFF000000u32 == 0xA5000000u32) by (bit_vector);
        assert(0xA500000Du32 & 0xDu32 == 0xDu32) by (bit_vector);
        assert(shift(0x400E1A00) == 0);
        assert(region(0x400E1A00) == Region::Reset);
    }

    /// A reset never changes the boot mode.
    pub proof fn lemma_reset_keeps_boot_mode(self)
        ensures
            self.after_reset().flash_controller.boot_from_flash
                == self.flash_controller.boot_from_flash,
    {
    }

    /// Writing `value` at the aligned `address`: the new state and whether it succeeded.
    #[verifier::opaque]
    pub open spec fn write32_aligned(self, address: u32, value: u32) -> (Self, Result<(), Fault>) {
        let r = region(address);
        if !self.mpu.permits(address, self.is_privileged()) || (privileged_only(r)
            && !self.is_privileged()) {
            (self, Err(Fault::UnauthorizedAccess(address)))
        } else {
            match r {
                Region::Boot => (self, Ok(())),
                Region::Flash => (
                    Self {
                        flash_controller: FlashController {
                            latch_buffer: vstd::array::spec_array_update(
                                self.flash_controller.latch_buffer,
                                ((address / 4) % 64) as int,
                                Some(value),
                            ),
                            ..self.flash_controller
                        },
                        ..self
                    },
                    Ok(()),
                ),
                Region::Ram0 => (
                    Self { ram0: self.ram0.update(((address % RAM0_BYTES) / 4) as int, value), ..self },
                    Ok(()),
                ),
                Region::Ram1 => (
                    Self { ram1: self.ram1.update(((address % RAM1_BYTES) / 4) as int, value), ..self },
                    Ok(()),
                ),
                Region::Spi => {
                    let (spi, result) = self.spi.write(
                        address,
                        value,
                        self.power.clock_enabled(SPI_ID),
                        pio::spi_pins_enabled(self.pio),
                    );
                    (Self { spi, ..self }, result)
                },
                Region::Usart => (
                    Self { usart: self.usart.after_write(address, value), ..self },
                    UniversalReceiverTransmitter::write_result(address, value),
                ),
                Region::Power => (
                    Self { power: self.power.after_write(address, value), ..self },
                    PowerManagementController::write_result(address, value),
                ),
                Region::FlashController => {
                    let result = FlashController::write_result(address, value);
                    (
                        Self {
                            flash_controller: self.flash_controller.after_write(address, value),
                            flash: if result is Ok {
                                self.flash_controller.flash_after_write(address, value, self.flash)
                            } else {
                                self.flash
                            },
                            ..self
                        },
                        result,
                    )
                },
                Region::Pio => if !pio::write_supported(self.pio, address) {
                    (self, Err(Fault::UnsupportedRegister(address)))
                } else {
                    let registers = pio::registers_after_write(self.pio, address, value);
                    (
                        Self {
                            pio: registers,
                            pio_device: if pio::pins(registers) != pio::pins(self.pio) {
                                self.pio_device.pio_next(pio::pins(registers))
                            } else {
                                self.pio_device
                            },
                            ..self
                        },
                        Ok(()),
                    )
                },
                Region::Reset => (
                    Self {
                        reset_requested: self.reset_requested || ResetController::requests_reset(
                            address,
                            value,
                        ),
                        ..self
                    },
                    ResetController::write_result(address, value),
                ),
                Region::Watchdog => (
                    if address == crate::watchdog::MODE_REGISTER && !self.watchdog.written_once {
                        Self { watchdog: WatchdogTimer { mode: value, written_once: true }, ..self }
                    } else {
                        self
                    },
                    Ok(()),
                ),
                Region::Backup => (
                    Self { backup: self.backup.update(backup_register_index(address), value), ..self },
                    Ok(()),
                ),
                Region::SystemTimer => if SystemTimer::write_supported(address, value) {
                    (
                        Self { system_timer: self.system_timer.after_write(address, value), ..self },
                        Ok(()),
                    )
                } else {
                    (self, Err(Fault::UnsupportedValue(address, value)))
                },
                Region::Interrupt => (
                    Self { nvic: self.nvic.after_write(address, value), ..self },
                    if NestedVectorInterruptController::supports(address) {
                        Ok(())
                    } else {
                        Err(Fault::UnsupportedRegister(address))
                    },
                ),
                Region::SystemControl => (
                    Self { system_control: self.system_control.after_write(address, value), ..self },
                    if address == crate::system::VECTOR_TABLE_OFFSET_REGISTER || address
                        == crate::system::SYSTEM_HANDLER_PRIORITY_REGISTER2 {
                        Ok(())
                    } else {
                        Err(Fault::UnsupportedRegister(address))
                    },
                ),
                Region::Mpu => (
                    Self { mpu: self.mpu.after_write(address, value), ..self },
                    self.mpu.write_result(address, value),
                ),
                _ => (self, Err(Fault::UnsupportedAddress(address))),
            }
        }
    }

    /// Reading the byte at `address`.
    pub open spec fn read8(self, address: u32) -> (Self, Result<u32, Fault>) {
        let (s, r) = self.read32_aligned(aligned(address));
        (
            s,
            match r {
                Ok(word) => Ok((word >> shift(address)) & 0xFF),
                Err(e) => Err(e),
            },
        )
    }

    /// Writing the byte `value` at `address`.
    pub open spec fn write8(self, address: u32, value: u8) -> (Self, Result<(), Fault>) {
        let a = aligned(address);
        let sh = shift(address);
        let (s, r) = self.read32_aligned(a);
        match r {
            Ok(word) => s.write32_aligned(a, (word & !(0xFFu32 << sh)) | ((value as u32) << sh)),
            Err(e) => (s, Err(e)),
        }
    }

    /// Reading the half word at `address`.
    pub open spec fn read16(self, address: u32) -> (Self, Result<u32, Fault>) {
        let a = aligned(address);
        let sh = shift(address);
        let (s, r) = self.read32_aligned(a);
        match r {
            Ok(word) => if sh != 24 {
                (s, Ok((word >> sh) & 0xFFFF))
            } else {
                let (s2, r2) = s.read32_aligned((a + 4) as u32);
                (
                    s2,
                    match r2 {
                        Ok(next) => Ok(((next << 8u32) | (word >> 24u32)) & 0xFFFF),
                        Err(e) => Err(e),
                    },
                )
            },
            Err(e) => (s, Err(e)),
        }
    }

    /// Writing the half word `value` at `address`.
    pub open spec fn write16(self, address: u32, value: u16) -> (Self, Result<(), Fault>) {
        let a = aligned(address);
        let sh = shift(address);
        let (s, r) = self.read32_aligned(a);
        match r {
            Ok(word) => {
                let (s2, r2) = s.write32_aligned(
                    a,
                    (word & !(0xFFFFu32 << sh)) | ((value as u32) << sh),
                );
                if r2 is Err || sh != 24 {
                    (s2, r2)
                } else {
                    let (s3, r3) = s2.read32_aligned((a + 4) as u32);
                    match r3 {
                        Ok(next) => s3.write32_aligned(
                            (a + 4) as u32,
                            (next & 0xFFFFFF00) | ((value >> 8u16) as u32),
                        ),
                        Err(e) => (s3, Err(e)),
                    }
                }
            },
            Err(e) => (s, Err(e)),
        }
    }

    /// Reading the word at `address`.
    pub open spec fn read32(self, address: u32) -> (Self, Result<u32, Fault>) {
        let sh = shift(address);
        if sh == 0 {
            self.read32_aligned(address)
        } else {
            let a = aligned(address);
            let (s, r) = self.read32_aligned(a);
            match r {
                Ok(word) => {
                    let (s2, r2) = s.read32_aligned((a + 4) as u32);
                    (
                        s2,
                        match r2 {
                            Ok(next) => Ok((next << ((32 - sh) as u32)) | (word >> sh)),
                            Err(e) => Err(e),
                        },
                    )
                },
                Err(e) => (s, Err(e)),
            }
        }
    }

    /// Writing the word `value` at `address`.
    pub open spec fn write32(self, address: u32, value: u32) -> (Self, Result<(), Fault>) {
        let sh = shift(address);
        if sh == 0 {
            self.write32_aligned(address, value)
        } else {
            let a = aligned(address);
            let (s, r) = self.read32_aligned(a);
            match r {
                Ok(word) => {
                    let (s2, r2) = s.write32_aligned(
                        a,
                        (word & !(0xFFFFFFFFu32 << sh)) | (value << sh),
                    );
                    if r2 is Err {
                        (s2, r2)
                    } else {
                        let (s3, r3) = s2.read32_aligned((a + 4) as u32);
                        match r3 {
                            Ok(next) => s3.write32_aligned(
                                (a + 4) as u32,
                                (next & (0xFFFFFFFFu32 << sh)) | (value >> ((32 - sh) as u32)),
                            ),
                            Err(e) => (s3, Err(e)),
                        }
                    }
                },
                Err(e) => (s, Err(e)),
            }
        }
    }

    /// Whether instructions can be fetched from `region`.
    pub open spec fn executable(self, region: Region) -> bool {
        ||| region == Region::Boot && self.flash_controller.boot_from_flash
        ||| region == Region::Flash
        ||| region == Region::Ram0
        ||| region == Region::Ram1
    }

    /// The index of the half word at `address` in the memory bank of its region.
    pub open spec fn halfword_index(address: u32) -> int {
        match region(address) {
            Region::Boot => (address / 2) as int,
            Region::Flash => ((address - FLASH_BEGIN) / 2) as int,
            Region::Ram0 => ((address % RAM0_BYTES) / 2) as int,
            Region::Ram1 => ((address % RAM1_BYTES) / 2) as int,
            _ => 0,
        }
    }

    /// Fetching the instruction at `address`: instructions are only fetched from the flash and
    /// the RAM (and from the boot memory when it maps the flash); an instruction cut by the end of
    /// its memory bank is read with an unaligned word access.
    pub open spec fn fetch(self, address: u32) -> (Self, Result<Instruction, Fault>) {
        let r = region(address);
        let bank = self.bank(r);
        let i = Self::halfword_index(address);
        if !self.mpu.permits(aligned(address), self.is_privileged()) {
            (self, Err(Fault::UnauthorizedAccess(aligned(address))))
        } else if !self.executable(r) {
            (self, Ok(Instruction::Unsupported))
        } else if split_insn(bank, i) {
            let (s, w) = self.read32(address);
            (
                s,
                match w {
                    Ok(word) => Ok(decode(word)),
                    Err(e) => Err(e),
                },
            )
        } else {
            (self, Ok(decode(raw_insn(bank, i))))
        }
    }

    /// The interrupt controller after the activation of the pending (or level) interrupts.
    pub open spec fn nvic_after_activation(
        nvic: NestedVectorInterruptController,
        level_interrupts: u32,
    ) -> NestedVectorInterruptController {
        match nvic.activated(level_interrupts) {
            Some(n) => NestedVectorInterruptController {
                pending: (nvic.pending | level_interrupts) & !(1u32 << n),
                active: nvic.active | (1u32 << n),
                ..nvic
            },
            None => NestedVectorInterruptController {
                pending: nvic.pending | level_interrupts,
                ..nvic
            },
        }
    }

    /// The state after one emulated instruction: the system timer is updated, and an interrupt
    /// is activated if one is pending and enabled.
    pub open spec fn after_update(self) -> (Self, Option<u8>) {
        let level = self.usart.level_interrupts_value();
        (
            Self {
                system_timer: self.system_timer.after_update(),
                nvic: Self::nvic_after_activation(self.nvic, level),
                ..self
            },
            self.nvic.activated(level),
        )
    }

    /// The state after the end of an interrupt handler: the active interrupts become inactive,
    /// and pending again if they are level interrupts which are still asserted.
    pub open spec fn after_deactivation(self) -> Self {
        let level = self.usart.level_interrupts_value();
        Self {
            nvic: NestedVectorInterruptController {
                active: 0,
                pending: if level & self.nvic.active == 0 {
                    self.nvic.pending & !self.nvic.active
                } else {
                    self.nvic.pending | self.nvic.active
                },
                ..self.nvic
            },
            ..self
        }
    }

    /// The state after erasing the flash: the flash is filled with ones, and the processor
    /// boots from the ROM.
    pub open spec fn after_erase(self) -> Self {
        Self {
            flash: Seq::new(self.flash.len(), |i: int| 0xFFFFFFFFu32),
            flash_controller: FlashController { boot_from_flash: false, ..self.flash_controller },
            ..self
        }
    }

    /// The state after a reset: the RAM is filled with pseudo random values, the ROM with its
    /// content, and the peripherals are reset. The flash and the external devices are unchanged.
    pub open spec fn after_reset(self) -> Self {
        let seed1 = lcg(self.seed, RAM0_WORDS as nat);
        Self {
            seed: lcg(seed1, RAM1_WORDS as nat),
            ram0: Seq::new(RAM0_WORDS as nat, |i: int| lcg(self.seed, (i + 1) as nat)),
            ram1: Seq::new(RAM1_WORDS as nat, |i: int| lcg(seed1, (i + 1) as nat)),
            rom: rom_content(),
            spi: SerialPeripheralInterfaceController {
                mode: 0,
                status: 0,
                received_data: 0,
                chip_select0: 0,
                ..self.spi
            },
            usart: UniversalReceiverTransmitter::initial(),
            power: PowerManagementController::initial(),
            flash_controller: self.flash_controller.after_reset(),
            pio: pio::registers_after_reset(self.pio),
            reset_requested: false,
            watchdog: WatchdogTimer { mode: crate::watchdog::INITIAL_MODE, written_once: false },
            backup: BackupRegistersController::initial_values(),
            system_timer: SystemTimer {
                control_and_status: crate::time::CLOCK_SOURCE,
                reload_value: 0,
                current_value: 0,
                ..self.system_timer
            },
            nvic: NestedVectorInterruptController { enabled: 0, pending: 0, active: 0 },
            system_control: SystemControlBlock { vector_table_offset: 0, svc_priority: 0 },
            mpu: MpuState {
                enable: false,
                background_region_enable: false,
                region_number: 0,
                regions: Seq::new(8, |i: int| MemoryRegion::zero()),
            },
            handler_mode: false,
            privilege_mode: true,
            ..self
        }
    }
    /// The state of a new bus matrix with the given seed of its pseudo random RAM content and the
    /// given devices: its flash memory is erased, and it is reset.
    pub open spec fn initial(seed: u32, wait_enabled: bool, spi_device: S, pio_device: P) -> Self {
        let seed1 = lcg(seed, RAM0_WORDS as nat);
        BusState {
            seed: lcg(seed1, RAM1_WORDS as nat),
            flash: Seq::new(FLASH_WORDS as nat, |i: int| 0xFFFFFFFFu32),
            rom: rom_content(),
            ram0: Seq::new(RAM0_WORDS as nat, |i: int| lcg(seed, (i + 1) as nat)),
            ram1: Seq::new(RAM1_WORDS as nat, |i: int| lcg(seed1, (i + 1) as nat)),
            spi: SerialPeripheralInterfaceController {
                mode: 0,
                status: 0,
                received_data: 0,
                chip_select0: 0,
                spi_device,
            },
            usart: UniversalReceiverTransmitter::initial(),
            power: PowerManagementController::initial(),
            flash_controller: FlashController::uninitialized_then_reset(),
            pio: pio::registers_after_reset(Seq::new(512, |i: int| pio::layout_register(i, 0))),
            pio_device,
            reset_requested: false,
            watchdog: WatchdogTimer { mode: crate::watchdog::INITIAL_MODE, written_once: false },
            backup: BackupRegistersController::initial_values(),
            system_timer: SystemTimer::initial(wait_enabled),
            nvic: NestedVectorInterruptController { enabled: 0, pending: 0, active: 0 },
            system_control: SystemControlBlock { vector_table_offset: 0, svc_priority: 0 },
            mpu: MpuState {
                enable: false,
                background_region_enable: false,
                region_number: 0,
                regions: Seq::new(8, |i: int| MemoryRegion::zero()),
            },
            handler_mode: false,
            privilege_mode: true,
        }
    }
}

/// The bus matrix, which maps the memories and the peripherals in the 32 bit address space.
pub struct BusMatrix<S: SpiDevice, P: PioDevice> {
    pub seed: u32,
    pub flash: MemoryBank,
    pub rom: MemoryBank,
    pub ram0: MemoryBank,
    pub ram1: MemoryBank,
    pub spi_controller: SerialPeripheralInterfaceController<S>,
    pub usart_controller: UniversalReceiverTransmitter,
    pub power_management_controller: PowerManagementController,
    pub flash_controller: FlashController,
    pub pio_controller: ParallelIoController<P>,
    pub reset_controller: ResetController,
    pub watchdog_timer: WatchdogTimer,
    pub backup_registers: BackupRegistersController,
    pub system_timer: SystemTimer,
    pub interrupt_controller: NestedVectorInterruptController,
    pub system_controller: SystemControlBlock,
    pub memory_protection_unit: MemoryProtectionUnit,
    pub handler_mode: bool,
    pub privilege_mode: bool,
}

impl<S: SpiDevice, P: PioDevice> View for BusMatrix<S, P> {
    type V = BusState<S, P>;

    open spec fn view(&self) -> BusState<S, P> {
        BusState {
            seed: self.seed,
            flash: self.flash.words@,
            rom: self.rom.words@,
            ram0: self.ram0.words@,
            ram1: self.ram1.words@,
            spi: self.spi_controller,
            usart: self.usart_controller,
            power: self.power_management_controller,
            flash_controller: self.flash_controller,
            pio: self.pio_controller.registers@,
            pio_device: self.pio_controller.pio_device,
            reset_requested: self.reset_controller.reset_requested,
            watchdog: self.watchdog_timer,
            backup: self.backup_registers.values@,
            system_timer: self.system_timer,
            nvic: self.interrupt_controller,
            system_control: self.system_controller,
            mpu: self.memory_protection_unit.view(),
            handler_mode: self.handler_mode,
            privilege_mode: self.privilege_mode,
        }
    }
}

/// Whether `bank` is a well formed memory bank of `num_words` words, with a consistent cache.
pub open spec fn bank_ok(bank: MemoryBank, num_words: u32) -> bool {
    &&& bank.wf()
    &&& bank.words@.len() == num_words
    &&& bank.cache_consistent()
}

impl<S: SpiDevice, P: PioDevice> BusMatrix<S, P> {
    /// The memory banks have their sizes and the PIO controller its register layout.
    pub open spec fn layout(self) -> bool {
        &&& bank_ok(self.flash, FLASH_WORDS)
        &&& bank_ok(self.rom, ROM_WORDS)
        &&& bank_ok(self.ram0, RAM0_WORDS)
        &&& bank_ok(self.ram1, RAM1_WORDS)
        &&& self.pio_controller.wf()
        &&& self.spi_controller.spi_device.spi_inv()
        &&& self.pio_controller.pio_device.pio_inv()
    }

    /// The invariant of a bus matrix after its first reset.
    pub open spec fn inv(self) -> bool {
        &&& self.layout()
        &&& self.memory_protection_unit.inv()
    }

    pub fn is_privileged(&self) -> (r: bool)
        ensures
            r == self@.is_privileged(),
    {
        self.privilege_mode || self.handler_mode
    }

    /// The fault of a read at the aligned `address` that the emulated hardware does not support,
    /// if any: an access that the memory protection unit or the privilege level forbids, an
    /// address that maps no memory or peripheral, or a peripheral register that cannot be read.
    pub fn read_fault(&mut self, address: u32) -> (r: Option<Fault>)
        requires
            old(self).inv(),
            address % 4 == 0,
        ensures
            final(self).inv(),
            final(self)@ == old(self)@,
            final(self).same_code(*old(self)),
            r == read_error(old(self)@.read32_aligned(address).1),
            r is Some ==> old(self)@.read32_aligned(address) == (old(self)@, Err::<u32, Fault>(
                r->Some_0,
            )),
    {
        reveal(BusState::read32_aligned);
        let privileged = self.is_privileged();
        if !self.memory_protection_unit.validate_address(address, privileged) {
            return Some(Fault::UnauthorizedAccess(address));
        }
        let region = region_of(address);
        let supported = match region {
            Region::Unsupported => {
                return Some(Fault::UnsupportedAddress(address));
            },
            Region::Spi => self.spi_controller.supports_read(address),
            Region::Usart => self.usart_controller.supports_read(address),
            Region::Power => self.power_management_controller.supports_read(address),
            Region::FlashController => self.flash_controller.supports_read(address),
            Region::Reset => address == crate::reset::CONTROL_REGISTER,
            Region::SystemTimer | Region::Interrupt | Region::SystemControl | Region::Mpu => {
                if !privileged {
                    return Some(Fault::UnauthorizedAccess(address));
                }
                match region {
                    Region::Interrupt => self.interrupt_controller.supports_read(address),
                    Region::SystemControl => SystemControlBlock::supports(address),
                    Region::Mpu => self.memory_protection_unit.supports_read(address),
                    _ => true,
                }
            },
            _ => true,
        };
        if supported {
            None
        } else {
            Some(Fault::UnsupportedRegister(address))
        }
    }

    /// Reads the word at the aligned `address`, or returns the fault of a read that the
    /// emulated hardware does not support (see `read_fault`) without changing anything.
    fn load32_aligned(&mut self, address: u32) -> (r: Result<u32, Fault>)
        requires
            old(self).inv(),
            address % 4 == 0,
        ensures
            final(self).same_code(*old(self)),
            final(self).inv(),
            (final(self)@, r) == old(self)@.read32_aligned(address),
    {
        match self.read_fault(address) {
            Some(fault) => Err(fault),
            None => self.get32_aligned(address),
        }
    }

    /// Reads the word at the aligned `address`, which must be a supported read (see
    /// `read_fault`).
    #[verifier::rlimit(50)]
    pub fn get32_aligned(&mut self, address: u32) -> (r: Result<u32, Fault>)
        requires
            old(self).inv(),
            address % 4 == 0,
            old(self)@.read32_aligned(address).1 is Ok,
        ensures
            r is Ok,
            final(self).same_code(*old(self)),
            final(self).inv(),
            (final(self)@, r) == old(self)@.read32_aligned(address),
    {
        reveal(BusState::read32_aligned);
        let privileged = self.is_privileged();
        if !self.memory_protection_unit.validate_address(address, privileged) {
            return Err(Fault::UnauthorizedAccess(address));
        }
        let region = region_of(address);
        match region {
            Region::Boot => {
                if self.flash_controller.boot_from_flash() {
                    Ok(self.flash.get32_aligned(address))
                } else {
                    Ok(self.rom.get32_aligned(address % ROM_BYTES))
                }
            },
            Region::Flash => Ok(self.flash.get32_aligned(address - FLASH_BEGIN)),
            Region::Rom => Ok(self.rom.get32_aligned(address % ROM_BYTES)),
            Region::Ram0 => Ok(self.ram0.get32_aligned(address % RAM0_BYTES)),
            Region::Ram1 => Ok(self.ram1.get32_aligned(address % RAM1_BYTES)),
            Region::Spi => self.spi_controller.get32_aligned(address),
            Region::Usart => self.usart_controller.get32_aligned(address),
            Region::Power => self.power_management_controller.get32_aligned(address),
            Region::FlashController => self.flash_controller.get32_aligned(address),
            Region::Pio => Ok(self.pio_controller.get32_aligned(address)),
            Region::Reset => self.reset_controller.get32_aligned(address),
            Region::Watchdog => Ok(self.watchdog_timer.get32_aligned(address)),
            Region::Backup => Ok(self.backup_registers.get32_aligned(address)),
            Region::SystemTimer => {
                if !privileged {
                    return Err(Fault::UnauthorizedAccess(address));
                }
                Ok(self.system_timer.get32_aligned(address))
            },
            Region::Interrupt => {
                if !privileged {
                    return Err(Fault::UnauthorizedAccess(address));
                }
                self.interrupt_controller.get32_aligned(address)
            },
            Region::SystemControl => {
                if !privileged {
                    return Err(Fault::UnauthorizedAccess(address));
                }
                self.system_controller.get32_aligned(address)
            },
            Region::Mpu => {
                if !privileged {
                    return Err(Fault::UnauthorizedAccess(address));
                }
                self.memory_protection_unit.get32_aligned(address)
            },
            Region::Unsupported => Err(Fault::UnsupportedAddress(address)),
        }
    }

    /// The fault of a write of `value` at the aligned `address` that the emulated hardware does
    /// not support, if any (see `BusState::write_refusal`).
    pub fn write_fault(&mut self, address: u32, value: u32) -> (r: Option<Fault>)
        requires
            old(self).inv(),
            address % 4 == 0,
        ensures
            final(self).inv(),
            final(self)@ == old(self)@,
            final(self).same_code(*old(self)),
            r == old(self)@.write_refusal(address, value),
    {
        let privileged = self.is_privileged();
        if !self.memory_protection_unit.validate_address(address, privileged) {
            return Some(Fault::UnauthorizedAccess(address));
        }
        let region = region_of(address);
        match region {
            Region::Rom | Region::Unsupported => Some(Fault::UnsupportedAddress(address)),
            Region::Spi => error_of_result(SerialPeripheralInterfaceController::<S>::check_write(address, value)),
            Region::Usart => error_of_result(UniversalReceiverTransmitter::check_write(address, value)),
            Region::Power => error_of_result(PowerManagementController::check_write(address, value)),
            Region::FlashController => error_of_result(FlashController::check_write(address, value)),
            Region::Pio => if self.pio_controller.supports_write(address) {
                None
            } else {
                Some(Fault::UnsupportedRegister(address))
            },
            Region::Reset => error_of_result(ResetController::check_write(address, value)),
            Region::SystemTimer | Region::Interrupt | Region::SystemControl | Region::Mpu => {
                if !privileged {
                    return Some(Fault::UnauthorizedAccess(address));
                }
                match region {
                    Region::SystemTimer => if SystemTimer::check_write(address, value) {
                        None
                    } else {
                        Some(Fault::UnsupportedValue(address, value))
                    },
                    Region::Interrupt => if NestedVectorInterruptController::supports_register(address) {
                        None
                    } else {
                        Some(Fault::UnsupportedRegister(address))
                    },
                    Region::SystemControl => if SystemControlBlock::supports(address) {
                        None
                    } else {
                        Some(Fault::UnsupportedRegister(address))
                    },
                    _ => error_of_result(self.memory_protection_unit.check_write(address, value)),
                }
            },
            _ => None,
        }
    }

    /// Writes `value` at the aligned `address`, or returns the fault of a write that the emulated
    /// hardware does not support (see `write_fault`) without changing anything.
    fn store32_aligned(&mut self, address: u32, value: u32) -> (r: Result<(), Fault>)
        requires
            old(self).inv(),
            address % 4 == 0,
        ensures
            final(self).inv(),
            (final(self)@, r) == old(self)@.write32_aligned(address, value),
    {
        let ghost before = self@;
        match self.write_fault(address, value) {
            Some(fault) => {
                proof {
                    before.lemma_refused_write(address, value);
                }
                Err(fault)
            },
            None => self.set32_aligned(address, value),
        }
    }

    /// Writes `value` at the aligned `address`, which must be a supported write (see
    /// `write_fault`). Only a data that the SPI device refuses gives an error.
    pub fn set32_aligned(&mut self, address: u32, value: u32) -> (r: Result<(), Fault>)
        requires
            old(self).inv(),
            address % 4 == 0,
            old(self)@.write_refusal(address, value) is None,
        ensures
            final(self).inv(),
            r is Err ==> region(address) == Region::Spi && address
                == crate::spi::TRANSMIT_DATA_REGISTER,
            (final(self)@, r) == old(self)@.write32_aligned(address, value),
    {
        reveal(BusState::write32_aligned);
        let privileged = self.is_privileged();
        if !self.memory_protection_unit.validate_address(address, privileged) {
            return Err(Fault::UnauthorizedAccess(address));
        }
        let region = region_of(address);
        match region {
            Region::Boot | Region::Flash | Region::Rom | Region::Ram0 | Region::Ram1
            | Region::Unsupported => self.set32_memory(address, value, region),
            Region::Spi | Region::Usart | Region::Power | Region::FlashController | Region::Pio => {
                self.set32_peripheral(address, value, region)
            },
            Region::Reset | Region::Watchdog | Region::Backup => self.set32_system(address, value, region),
            _ => {
                if !privileged {
                    return Err(Fault::UnauthorizedAccess(address));
                }
                self.set32_private(address, value, region)
            },
        }
    }

    /// Writes `value` at the aligned `address` of a memory region (or of an unsupported one).
    #[verifier::rlimit(60)]
    fn set32_memory(&mut self, address: u32, value: u32, kind: Region) -> (r: Result<(), Fault>)
        requires
            old(self)@.write_refusal(address, value) is None,
            old(self).inv(),
            address % 4 == 0,
            old(self)@.mpu.permits(address, old(self)@.is_privileged()),
            kind == region(address),
            kind == Region::Boot || kind == Region::Flash || kind == Region::Rom || kind
                == Region::Ram0 || kind == Region::Ram1 || kind == Region::Unsupported,
        ensures
            final(self).inv(),
            (final(self)@, r) == old(self)@.write32_aligned(address, value),
    {
        reveal(BusState::write32_aligned);
        match kind {
            Region::Boot => Ok(()),
            Region::Flash => {
                self.flash_controller.set_latch_buffer(address, value);
                assert(self.flash_controller.latch_buffer =~= vstd::array::spec_array_update(
                    old(self).flash_controller.latch_buffer,
                    ((address / 4) % 64) as int,
                    Some(value),
                ));
                Ok(())
            },
            Region::Ram0 => {
                proof {
                    lemma_mod_keeps_alignment(address, 0x10000, 4);
                }
                self.ram0.set32_aligned(address % RAM0_BYTES, value);
                Ok(())
            },
            Region::Ram1 => {
                proof {
                    lemma_mod_keeps_alignment(address, 0x8000, 4);
                }
                self.ram1.set32_aligned(address % RAM1_BYTES, value);
                Ok(())
            },
            _ => Err(Fault::UnsupportedAddress(address)),
        }
    }

    /// Writes `value` at the aligned `address` of a peripheral of the peripheral bridge.
    fn set32_peripheral(&mut self, address: u32, value: u32, kind: Region) -> (r: Result<(), Fault>)
        requires
            old(self)@.write_refusal(address, value) is None,
            old(self).inv(),
            address % 4 == 0,
            old(self)@.mpu.permits(address, old(self)@.is_privileged()),
            kind == region(address),
            kind == Region::Spi || kind == Region::Usart || kind == Region::Power || kind
                == Region::FlashController || kind == Region::Pio,
        ensures
            final(self).inv(),
            (final(self)@, r) == old(self)@.write32_aligned(address, value),
    {
        reveal(BusState::write32_aligned);
        match kind {
            Region::Spi => {
                let clock_enabled = self.power_management_controller.spi_clock_enabled();
                let output_enabled = self.pio_controller.spi_output_pins_enabled();
                self.spi_controller.set32_aligned(address, value, clock_enabled, output_enabled)
            },
            Region::Usart => self.usart_controller.set32_aligned(address, value),
            Region::Power => self.power_management_controller.set32_aligned(address, value),
            Region::FlashController => self.flash_controller.set32_aligned(
                address,
                value,
                &mut self.flash,
            ),
            _ => self.pio_controller.set32_aligned(address, value),
        }
    }

    /// Writes `value` at the aligned `address` of a system controller.
    fn set32_system(&mut self, address: u32, value: u32, kind: Region) -> (r: Result<(), Fault>)
        requires
            old(self)@.write_refusal(address, value) is None,
            old(self).inv(),
            address % 4 == 0,
            old(self)@.mpu.permits(address, old(self)@.is_privileged()),
            kind == region(address),
            kind == Region::Reset || kind == Region::Watchdog || kind == Region::Backup,
        ensures
            final(self).inv(),
            (final(self)@, r) == old(self)@.write32_aligned(address, value),
    {
        reveal(BusState::write32_aligned);
        match kind {
            Region::Reset => self.reset_controller.set32_aligned(address, value),
            Region::Watchdog => {
                self.watchdog_timer.set32_aligned(address, value);
                Ok(())
            },
            _ => {
                self.backup_registers.set32_aligned(address, value);
                Ok(())
            },
        }
    }

    /// Writes `value` at the aligned `address` of a peripheral of the private peripheral bus.
    fn set32_private(&mut self, address: u32, value: u32, kind: Region) -> (r: Result<(), Fault>)
        requires
            old(self)@.write_refusal(address, value) is None,
            old(self).inv(),
            address % 4 == 0,
            old(self)@.mpu.permits(address, old(self)@.is_privileged()),
            old(self)@.is_privileged(),
            kind == region(address),
            privileged_only(kind),
        ensures
            final(self).inv(),
            (final(self)@, r) == old(self)@.write32_aligned(address, value),
    {
        reveal(BusState::write32_aligned);
        match kind {
            Region::SystemTimer => self.system_timer.set32_aligned(address, value),
            Region::Interrupt => self.interrupt_controller.set32_aligned(address, value),
            Region::SystemControl => self.system_controller.set32_aligned(address, value),
            _ => self.memory_protection_unit.set32_aligned(address, value),
        }
    }

    /// Reading the aligned `address` only succeeds for the supported regions, which are below
    /// the end of the address space.
    proof fn lemma_read_ok_not_last(state: BusState<S, P>, address: u32)
        requires
            state.read32_aligned(address).1 is Ok,
        ensures
            address <= MEMORY_PROTECTION_UNIT_LAST,
    {
        reveal(BusState::read32_aligned);
    }

    /// Reads the byte at `address`.
    pub fn get8(&mut self, address: u32) -> (r: Result<u32, Fault>)
        requires
            old(self).inv(),
        ensures
            final(self).same_code(*old(self)),
            final(self).inv(),
            (final(self)@, r) == old(self)@.read8(address),
    {
        let aligned_address = address - address % 4;
        let word = self.load32_aligned(aligned_address)?;
        let shift = (address % 4) * 8;
        Ok((word >> shift) & 0xFF)
    }

    /// Writes the byte `value` at `address`.
    #[verifier::rlimit(40)]
    pub fn set8(&mut self, address: u32, value: u8) -> (r: Result<(), Fault>)
        requires
            old(self).inv(),
        ensures
            final(self).inv(),
            (final(self)@, r) == old(self)@.write8(address, value),
    {
        let aligned_address = address - address % 4;
        let word = self.load32_aligned(aligned_address)?;
        let shift = (address % 4) * 8;
        self.store32_aligned(aligned_address, (word & !(0xFFu32 << shift)) | ((value as u32) << shift))
    }

    /// Reads the half word at `address`.
    #[verifier::rlimit(40)]
    pub fn get16(&mut self, address: u32) -> (r: Result<u32, Fault>)
        requires
            old(self).inv(),
        ensures
            final(self).same_code(*old(self)),
            final(self).inv(),
            (final(self)@, r) == old(self)@.read16(address),
    {
        let aligned_address = address - address % 4;
        let ghost before = self@;
        let word = self.load32_aligned(aligned_address)?;
        proof {
            Self::lemma_read_ok_not_last(before, aligned_address);
        }
        let shift = (address % 4) * 8;
        if shift != 24 {
            Ok((word >> shift) & 0xFFFF)
        } else {
            let next_word = self.load32_aligned(aligned_address + 4)?;
            Ok(((next_word << 8u32) | (word >> 24u32)) & 0xFFFF)
        }
    }

    /// Writes the half word `value` at `address`.
    #[verifier::rlimit(40)]
    pub fn set16(&mut self, address: u32, value: u16) -> (r: Result<(), Fault>)
        requires
            old(self).inv(),
        ensures
            final(self).inv(),
            (final(self)@, r) == old(self)@.write16(address, value),
    {
        let aligned_address = address - address % 4;
        let ghost before = self@;
        let word = self.load32_aligned(aligned_address)?;
        proof {
            Self::lemma_read_ok_not_last(before, aligned_address);
        }
        let shift = (address % 4) * 8;
        self.store32_aligned(
            aligned_address,
            (word & !(0xFFFFu32 << shift)) | ((value as u32) << shift),
        )?;
        if shift == 24 {
            let next_word = self.load32_aligned(aligned_address + 4)?;
            self.store32_aligned(aligned_address + 4, (next_word & 0xFFFFFF00) | ((value >> 8u16) as u32))
        } else {
            Ok(())
        }
    }

    /// Reads the word at `address`.
    #[verifier::rlimit(40)]
    pub fn get32(&mut self, address: u32) -> (r: Result<u32, Fault>)
        requires
            old(self).inv(),
        ensures
            final(self).same_code(*old(self)),
            final(self).inv(),
            (final(self)@, r) == old(self)@.read32(address),
    {
        let shift = (address % 4) * 8;
        if shift == 0 {
            self.load32_aligned(address)
        } else {
            let aligned_address = address - address % 4;
            let ghost before = self@;
            let word = self.load32_aligned(aligned_address)?;
            proof {
                Self::lemma_read_ok_not_last(before, aligned_address);
            }
            let next_word = self.load32_aligned(aligned_address + 4)?;
            Ok((next_word << (32 - shift)) | (word >> shift))
        }
    }

    /// Writes the word `value` at `address`.
    #[verifier::rlimit(40)]
    pub fn set32(&mut self, address: u32, value: u32) -> (r: Result<(), Fault>)
        requires
            old(self).inv(),
        ensures
            final(self).inv(),
            (final(self)@, r) == old(self)@.write32(address, value),
    {
        let shift = (address % 4) * 8;
        if shift == 0 {
            self.store32_aligned(address, value)
        } else {
            let aligned_address = address - address % 4;
            let ghost before = self@;
            let word = self.load32_aligned(aligned_address)?;
            proof {
                Self::lemma_read_ok_not_last(before, aligned_address);
            }
            self.store32_aligned(aligned_address, (word & !(0xFFFFFFFFu32 << shift)) | (value << shift))?;
            let next_word = self.load32_aligned(aligned_address + 4)?;
            self.store32_aligned(
                aligned_address + 4,
                (next_word & (0xFFFFFFFFu32 << shift)) | (value >> (32 - shift)),
            )
        }
    }

    /// Whether the memory banks, with their decoded instruction caches, and the boot memory
    /// mapping are those of `other`.
    pub open spec fn same_code(self, other: Self) -> bool {
        &&& self.flash == other.flash
        &&& self.rom == other.rom
        &&& self.ram0 == other.ram0
        &&& self.ram1 == other.ram1
        &&& self.flash_controller.boot_from_flash == other.flash_controller.boot_from_flash
    }

    /// The cached decoded instruction at `address`.
    pub open spec fn cached_insn(self, address: u32) -> Instruction {
        match region(address) {
            Region::Boot => if self.flash_controller.boot_from_flash {
                self.flash.instructions@[(address / 2) as int]
            } else {
                Instruction::Unsupported
            },
            Region::Flash => self.flash.instructions@[((address - FLASH_BEGIN) / 2) as int],
            Region::Ram0 => self.ram0.instructions@[((address % RAM0_BYTES) / 2) as int],
            Region::Ram1 => self.ram1.instructions@[((address % RAM1_BYTES) / 2) as int],
            _ => Instruction::Unsupported,
        }
    }

    /// Returns the cached decoded instruction at `address` (`Unknown` if it is not decoded yet,
    /// `Unsupported` if `address` is not in an executable memory), which the memory protection
    /// unit must permit to access.
    pub fn get_insn(&mut self, address: u32) -> (r: Result<Instruction, Fault>)
        requires
            old(self).inv(),
            address % 2 == 0,
            old(self)@.mpu.permits(aligned(address), old(self)@.is_privileged()),
        ensures
            final(self).inv(),
            final(self)@ == old(self)@,
            final(self).flash == old(self).flash,
            final(self).ram0 == old(self).ram0,
            final(self).ram1 == old(self).ram1,
            r == (if !old(self)@.mpu.permits(aligned(address), old(self)@.is_privileged()) {
                Err(Fault::UnauthorizedAccess(aligned(address)))
            } else {
                Ok(old(self).cached_insn(address))
            }),
    {
        let privileged = self.is_privileged();
        let aligned_address = address - address % 4;
        if !self.memory_protection_unit.validate_address(aligned_address, privileged) {
            return Err(Fault::UnauthorizedAccess(aligned_address));
        }
        proof {
            lemma_mod_keeps_alignment(address, 0x10000, 2);
        }
        proof {
            lemma_mod_keeps_alignment(address, 0x8000, 2);
        }
        match region_of(address) {
            Region::Boot => {
                if self.flash_controller.boot_from_flash() {
                    Ok(self.flash.get_insn(address))
                } else {
                    Ok(Instruction::Unsupported)
                }
            },
            Region::Flash => Ok(self.flash.get_insn(address - FLASH_BEGIN)),
            Region::Ram0 => Ok(self.ram0.get_insn(address % RAM0_BYTES)),
            Region::Ram1 => Ok(self.ram1.get_insn(address % RAM1_BYTES)),
            _ => Ok(Instruction::Unsupported),
        }
    }

    /// Decodes and caches at most `max_count` instructions starting at `address` (see
    /// `MemoryBank::decode_insns`).
    pub fn decode_insns(&mut self, address: u32, max_count: usize)
        requires
            old(self).inv(),
            address % 2 == 0,
            max_count <= 0x10000,
        ensures
            final(self).inv(),
            final(self)@ == old(self)@,
            ({
                let r = region(address);
                old(self)@.executable(r) && max_count > 0 && !split_insn(
                    old(self)@.bank(r),
                    BusState::<S, P>::halfword_index(address),
                ) ==> final(self).cached_insn(address) != Instruction::Unknown
            }),
    {
        proof {
            lemma_mod_keeps_alignment(address, 0x10000, 2);
        }
        proof {
            lemma_mod_keeps_alignment(address, 0x8000, 2);
        }
        let ghost r = region(address);
        let ghost i = BusState::<S, P>::halfword_index(address);
        match region_of(address) {
            Region::Boot => {
                if self.flash_controller.boot_from_flash() {
                    proof {
                        if max_count > 0 && self.flash.instructions@[i] == Instruction::Unknown
                            && !split_insn(self.flash.words@, i) {
                            lemma_decode_stop_progress(self.flash.words@, self.flash.instructions@, i, i + max_count);
                            lemma_decode_stop_progress(self.flash.words@, self.flash.instructions@, i, 2 * FLASH_WORDS as int);
                        }
                    }
                    self.flash.decode_insns(address, max_count);
                }
            },
            Region::Flash => {
                proof {
                    if max_count > 0 && self.flash.instructions@[i] == Instruction::Unknown
                        && !split_insn(self.flash.words@, i) {
                        lemma_decode_stop_progress(self.flash.words@, self.flash.instructions@, i, i + max_count);
                        lemma_decode_stop_progress(self.flash.words@, self.flash.instructions@, i, 2 * FLASH_WORDS as int);
                    }
                }
                self.flash.decode_insns(address - FLASH_BEGIN, max_count);
            },
            Region::Ram0 => {
                proof {
                    if max_count > 0 && self.ram0.instructions@[i] == Instruction::Unknown
                        && !split_insn(self.ram0.words@, i) {
                        lemma_decode_stop_progress(self.ram0.words@, self.ram0.instructions@, i, i + max_count);
                        lemma_decode_stop_progress(self.ram0.words@, self.ram0.instructions@, i, 2 * RAM0_WORDS as int);
                    }
                }
                self.ram0.decode_insns(address % RAM0_BYTES, max_count);
            },
            Region::Ram1 => {
                proof {
                    if max_count > 0 && self.ram1.instructions@[i] == Instruction::Unknown
                        && !split_insn(self.ram1.words@, i) {
                        lemma_decode_stop_progress(self.ram1.words@, self.ram1.instructions@, i, i + max_count);
                        lemma_decode_stop_progress(self.ram1.words@, self.ram1.instructions@, i, 2 * RAM1_WORDS as int);
                    }
                }
                self.ram1.decode_insns(address % RAM1_BYTES, max_count);
            },
            _ => {},
        }
    }

    /// Fetches the instruction at `address`, decoding it (and the following ones) if it is not
    /// in the cache yet.
    pub fn fetch_insn(&mut self, address: u32) -> (r: Result<Instruction, Fault>)
        requires
            old(self).inv(),
            address % 2 == 0,
        ensures
            final(self).inv(),
            (final(self)@, r) == old(self)@.fetch(address),
            r is Ok && old(self)@.executable(region(address)) && !split_insn(
                old(self)@.bank(region(address)),
                BusState::<S, P>::halfword_index(address),
            ) ==> final(self).cached_insn(address) == r->Ok_0,
    {
        let ghost s0 = self@;
        let ghost r = region(address);
        let ghost i = BusState::<S, P>::halfword_index(address);
        let privileged = self.is_privileged();
        if !self.memory_protection_unit.validate_address(address - address % 4, privileged) {
            return Err(Fault::UnauthorizedAccess(address - address % 4));
        }
        let instruction = self.get_insn(address)?;
        if instruction != Instruction::Unknown {
            return Ok(instruction);
        }
        self.decode_insns(address, 32);
        let instruction = self.get_insn(address)?;
        if instruction != Instruction::Unknown {
            return Ok(instruction);
        }
        // The instruction starts at the end of its memory bank and continues in the next one.
        let word = self.get32(address)?;
        Ok(decode_insn(word))
    }

    /// Reads the word at the aligned `address` of the boot memory.
    pub fn boot_word(&self, address: u32) -> (r: u32)
        requires
            self.inv(),
            address <= BOOT_LAST,
            address % 4 == 0,
        ensures
            r == self@.memory_word(address),
    {
        if self.flash_controller.boot_from_flash() {
            self.flash.get32_aligned(address)
        } else {
            self.rom.get32_aligned(address % ROM_BYTES)
        }
    }

    /// Updates the system timer, and activates an interrupt if one is pending and enabled.
    /// Returns the activated interrupt, if any.
    pub fn update(&mut self) -> (r: Option<u8>)
        requires
            old(self).inv(),
            old(self).system_timer.update_supported(),
        ensures
            final(self).same_code(*old(self)),
            final(self).inv(),
            (final(self)@, r) == old(self)@.after_update(),
    {
        self.system_timer.update();
        let level_interrupts = self.usart_controller.level_interrupts();
        self.interrupt_controller.maybe_activate_interrupt(level_interrupts)
    }

    /// Deactivates the active interrupts, at the end of an interrupt handler.
    pub fn deactivate_interrupt(&mut self)
        requires
            old(self).inv(),
        ensures
            final(self).same_code(*old(self)),
            final(self).inv(),
            final(self)@ == old(self)@.after_deactivation(),
    {
        let level_interrupts = self.usart_controller.level_interrupts();
        self.interrupt_controller.deactivate_interrupt(level_interrupts)
    }

    /// Erases the flash memory.
    pub fn erase(&mut self)
        requires
            old(self).layout(),
        ensures
            final(self).layout(),
            old(self).inv() ==> final(self).inv(),
            final(self)@ == old(self)@.after_erase(),
            final(self).flash.cache_empty(),
            final(self).rom == old(self).rom,
            final(self).ram0 == old(self).ram0,
            final(self).ram1 == old(self).ram1,
    {
        self.flash.reset(0xFFFFFFFF);
        self.flash_controller.erase();
    }

    /// Fills `bank` with the pseudo random sequence following `seed`, and returns its last value.
    fn fill_random(bank: &mut MemoryBank, seed: u32) -> (r: u32)
        requires
            old(bank).wf(),
            old(bank).cache_consistent(),
            old(bank).words@.len() <= 0x10000,
        ensures
            final(bank).wf(),
            final(bank).cache_consistent(),
            final(bank).words@ == Seq::new(old(bank).words@.len(), |i: int| lcg(seed, (i + 1) as nat)),
            r == lcg(seed, old(bank).words@.len()),
    {
        let n = bank.words.len();
        let mut value = seed;
        let mut i: usize = 0;
        while i < n
            invariant
                n == bank.words@.len(),
                n == old(bank).words@.len(),
                n <= 0x10000,
                i <= n,
                bank.wf(),
                bank.cache_consistent(),
                value == lcg(seed, i as nat),
                forall|j: int| 0 <= j < i ==> #[trigger] bank.words@[j] == lcg(seed, (j + 1) as nat),
            decreases n - i,
        {
            value = value.wrapping_mul(LCG_A).wrapping_add(LCG_B);
            bank.set32_aligned((4 * i) as u32, value);
            i = i + 1;
        }
        assert(bank.words@ =~= Seq::new(n as nat, |i: int| lcg(seed, (i + 1) as nat)));
        value
    }

    /// Resets the memories (except the flash) and the peripherals.
    pub fn reset(&mut self)
        requires
            old(self).layout(),
        ensures
            final(self).inv(),
            final(self)@ == old(self)@.after_reset(),
            final(self).flash == old(self).flash,
    {
        let ghost s0 = self@;
        let seed = Self::fill_random(&mut self.ram0, self.seed);
        self.seed = Self::fill_random(&mut self.ram1, seed);
        Self::fill_random(&mut self.rom, 1);
        self.rom.set32_aligned(16, 0x001000C7);  // Real content of ROM at this address.
        self.rom.set32_aligned(1032, 0xB004F8CA);  // Real content of ROM at this address.
        assert(self.rom.words@ =~= rom_content());
        self.spi_controller.reset();
        self.usart_controller.reset();
        self.power_management_controller.reset();
        self.flash_controller.reset();
        self.pio_controller.reset();
        self.reset_controller.reset();
        self.watchdog_timer.reset();
        self.backup_registers.reset();
        self.system_timer.reset();
        self.interrupt_controller.reset();
        self.system_controller.reset();
        self.memory_protection_unit.reset();
        self.handler_mode = false;
        self.privilege_mode = true;
        proof {
            assert(self@.ram0 =~= s0.after_reset().ram0);
            assert(self@.ram1 =~= s0.after_reset().ram1);
            assert(self@.backup =~= s0.after_reset().backup);
            assert(self@.mpu.regions =~= s0.after_reset().mpu.regions);
            assert(self@.pio =~= s0.after_reset().pio);
        }
    }

    /// Appends the content of the flash memory and of its controller to `output`.
    pub fn serialize(&self, output: &mut Vec<u32>)
        ensures
            final(output)@ == old(output)@ + self.flash.words@ + seq![
                if self.flash_controller.boot_from_flash {
                    1u32
                } else {
                    0u32
                },
            ],
    {
        self.flash.serialize(output);
        self.flash_controller.serialize(output);
    }

    /// Restores the content of the flash memory and of its controller from the end of `input`.
    pub fn deserialize(&mut self, input: &mut Vec<u32>)
        requires
            old(self).inv(),
            old(self).flash.cache_empty(),
            old(input)@.len() >= FLASH_WORDS + 1,
        ensures
            final(self).inv(),
            old(input)@ == final(input)@ + final(self)@.flash + seq![old(input)@.last()],
            final(self)@ == (BusState {
                flash: final(self)@.flash,
                flash_controller: FlashController {
                    boot_from_flash: old(input)@.last() == 1,
                    ..old(self)@.flash_controller
                },
                ..old(self)@
            }),
    {
        self.flash_controller.deserialize(input);
        self.flash.deserialize(input);
        assert(old(input)@ =~= old(input)@.drop_last() + seq![old(input)@.last()]);
    }

    /// A bus matrix whose memories and peripherals are not initialized yet (it must be reset
    /// before use).
    pub fn uninitialized(seed: u32, wait_enabled: bool, spi_device: S, pio_device: P) -> (r: Self)
        requires
            spi_device.spi_inv(),
            pio_device.pio_inv(),
        ensures
            r.layout(),
            r.seed == seed,
            r.flash.cache_empty(),
            r.spi_controller.spi_device == spi_device,
            r.pio_controller.pio_device == pio_device,
            r.system_timer == SystemTimer::initial(wait_enabled),
            r.flash_controller.latch_empty(),
            !r.flash_controller.boot_from_flash,
            r.pio_controller.registers@ == Seq::new(512, |i: int| pio::layout_register(i, 0)),
    {
        let flash = MemoryBank::uninitialized(FLASH_WORDS);
        let rom = MemoryBank::uninitialized(ROM_WORDS);
        let ram0 = MemoryBank::uninitialized(RAM0_WORDS);
        let ram1 = MemoryBank::uninitialized(RAM1_WORDS);
        Self {
            seed,
            flash,
            rom,
            ram0,
            ram1,
            spi_controller: SerialPeripheralInterfaceController::new(spi_device),
            usart_controller: UniversalReceiverTransmitter::new(),
            power_management_controller: PowerManagementController::new(),
            flash_controller: FlashController::uninitialized(),
            pio_controller: ParallelIoController::uninitialized(pio_device),
            reset_controller: ResetController::new(),
            watchdog_timer: WatchdogTimer::uninitialized(),
            backup_registers: BackupRegistersController::new(),
            system_timer: SystemTimer::new(wait_enabled),
            interrupt_controller: NestedVectorInterruptController::new(),
            system_controller: SystemControlBlock::new(),
            memory_protection_unit: MemoryProtectionUnit::uninitialized(),
            handler_mode: false,
            privilege_mode: true,
        }
    }

    /// A new erased and reset bus matrix, with the given devices.
    pub fn with_devices(seed: u32, wait_enabled: bool, spi_device: S, pio_device: P) -> (r: Self)
        requires
            spi_device.spi_inv(),
            pio_device.pio_inv(),
        ensures
            r.inv(),
            r.flash.cache_empty(),
            r@.flash == Seq::new(FLASH_WORDS as nat, |i: int| 0xFFFFFFFFu32),
            !r@.flash_controller.boot_from_flash,
            r@.spi.spi_device == spi_device,
            r@.pio_device == pio_device,
            r@.system_timer.wait_enabled == wait_enabled,
            r@.system_timer.pending_wait == 0,
            r@ == BusState::initial(seed, wait_enabled, spi_device, pio_device),
    {
        let mut result = Self::uninitialized(seed, wait_enabled, spi_device, pio_device);
        result.erase();
        result.reset();
        assert(result@ =~= BusState::initial(seed, wait_enabled, spi_device, pio_device));
        result
    }

    pub fn boot_from_flash(&self) -> (r: bool)
        ensures
            r == self@.flash_controller.boot_from_flash,
    {
        self.flash_controller.boot_from_flash()
    }

    pub fn get_flash_content(&self) -> (r: &Vec<u32>)
        ensures
            r@ == self@.flash,
    {
        self.flash.get_content()
    }

    pub fn get_spi_controller(&self) -> (r: &SerialPeripheralInterfaceController<S>)
        ensures
            *r == self.spi_controller,
    {
        &self.spi_controller
    }

    pub fn get_spi_controller_mut(&mut self) -> (r: &mut SerialPeripheralInterfaceController<S>)
        ensures
            *r == old(self).spi_controller,
            *final(self) == (Self { spi_controller: *final(r), ..*old(self) }),
    {
        &mut self.spi_controller
    }

    pub fn get_usart_controller_mut(&mut self) -> (r: &mut UniversalReceiverTransmitter)
        ensures
            *r == old(self).usart_controller,
            *final(self) == (Self { usart_controller: *final(r), ..*old(self) }),
    {
        &mut self.usart_controller
    }

    pub fn get_power_management_controller(&self) -> (r: &PowerManagementController)
        ensures
            *r == self.power_management_controller,
    {
        &self.power_management_controller
    }

    pub fn get_pio_controller(&self) -> (r: &ParallelIoController<P>)
        ensures
            *r == self.pio_controller,
    {
        &self.pio_controller
    }

    pub fn get_pio_controller_mut(&mut self) -> (r: &mut ParallelIoController<P>)
        ensures
            *r == old(self).pio_controller,
            *final(self) == (Self { pio_controller: *final(r), ..*old(self) }),
    {
        &mut self.pio_controller
    }

    pub fn get_reset_controler(&self) -> (r: &ResetController)
        ensures
            *r == self.reset_controller,
    {
        &self.reset_controller
    }

    pub fn get_system_controller(&self) -> (r: &SystemControlBlock)
        ensures
            *r == self.system_controller,
    {
        &self.system_controller
    }

    pub fn get_memory_protection_unit(&mut self) -> (r: &mut MemoryProtectionUnit)
        ensures
            *r == old(self).memory_protection_unit,
            *final(self) == (Self { memory_protection_unit: *final(r), ..*old(self) }),
    {
        &mut self.memory_protection_unit
    }
}

impl BusMatrix<EmptySpiDevice, EmptyPioDevice> {
    /// A new erased and reset bus matrix, without external devices.
    pub fn new() -> (r: Self)
        ensures
            r.inv(),
            r.flash.cache_empty(),
            r@.flash == Seq::new(FLASH_WORDS as nat, |i: int| 0xFFFFFFFFu32),
            !r@.flash_controller.boot_from_flash,
            !r@.system_timer.wait_enabled,
            r@ == BusState::initial(1, false, EmptySpiDevice {}, EmptyPioDevice {}),
    {
        Self::with_devices(1, false, EmptySpiDevice::new(), EmptyPioDevice::new())
    }

    /// Same as `new`.
    pub fn default() -> (r: Self)
        ensures
            r.inv(),
            r.flash.cache_empty(),
            r@.flash == Seq::new(FLASH_WORDS as nat, |i: int| 0xFFFFFFFFu32),
            !r@.flash_controller.boot_from_flash,
            !r@.system_timer.wait_enabled,
            r@ == BusState::initial(1, false, EmptySpiDevice {}, EmptyPioDevice {}),
    {
        Self::new()
    }
}

/// The size in bytes of the RAM bank mapped at `region`.
pub open spec fn ram_bytes(region: Region) -> u32 {
    if region == Region::Ram0 {
        RAM0_BYTES
    } else {
        RAM1_BYTES
    }
}

/// A word written in the RAM is read back at the same address, and at every address which maps
/// the same word of the RAM (RAM0 repeats every 64KB, RAM1 every 32KB), when the memory
/// protection unit permits both accesses.
pub proof fn lemma_ram_read_after_write<S: SpiDevice, P: PioDevice>(
    state: BusState<S, P>,
    address: u32,
    other: u32,
    value: u32,
)
    requires
        address % 4 == 0,
        other % 4 == 0,
        region(address) == Region::Ram0 || region(address) == Region::Ram1,
        region(other) == region(address),
        address % ram_bytes(region(address)) == other % ram_bytes(region(address)),
        state.mpu.permits(address, state.is_privileged()),
        state.mpu.permits(other, state.is_privileged()),
        state.ram0.len() == RAM0_WORDS,
        state.ram1.len() == RAM1_WORDS,
    ensures
        ({
            let (written, r) = state.write32_aligned(address, value);
            &&& r is Ok
            &&& written.read32_aligned(other) == (written, Ok::<u32, Fault>(value))
        }),
{
    reveal(BusState::read32_aligned);
    reveal(BusState::write32_aligned);
}

/// Writing a word in the RAM changes no other word of the memories: reading any word of the
/// boot memory, the flash, the ROM or the RAM which the written address does not map gives the
/// same result before and after the write (the memory protection unit permitting the write).
pub proof fn lemma_ram_write_frame<S: SpiDevice, P: PioDevice>(
    state: BusState<S, P>,
    address: u32,
    other: u32,
    value: u32,
)
    requires
        address % 4 == 0,
        other % 4 == 0,
        region(address) == Region::Ram0 || region(address) == Region::Ram1,
        region(other) == Region::Boot || region(other) == Region::Flash || region(other)
            == Region::Rom || region(other) == Region::Ram0 || region(other) == Region::Ram1,
        !(region(other) == region(address) && address % ram_bytes(region(address)) == other
            % ram_bytes(region(address))),
        state.mpu.permits(address, state.is_privileged()),
        state.ram0.len() == RAM0_WORDS,
        state.ram1.len() == RAM1_WORDS,
    ensures
        ({
            let (written, r) = state.write32_aligned(address, value);
            &&& r is Ok
            &&& written.read32_aligned(other).1 == state.read32_aligned(other).1
        }),
{
    reveal(BusState::read32_aligned);
    reveal(BusState::write32_aligned);
    if region(other) == region(address) {
        let b = ram_bytes(region(address));
        assert(b == RAM0_BYTES || b == RAM1_BYTES);
        assert((address % b) / 4 != (other % b) / 4) by {
            assert(address % 4 == 0 && other % 4 == 0 && (b == 0x10000 || b == 0x8000)
                && address % b != other % b ==> (address % b) / 4 != (other % b) / 4)
                by (bit_vector);
        }
    }
}

/// Taking an address modulo the size of a RAM bank keeps its alignment.
proof fn lemma_mod_keeps_alignment(address: u32, bytes: u32, k: u32)
    requires
        bytes == 0x10000 || bytes == 0x8000,
        k == 2 || k == 4,
    ensures
        (address % bytes) % k == address % k,
{
    vstd::arithmetic::div_mod::lemma_mod_mod(address as int, k as int, (bytes / k) as int);
    assert(k * (bytes / k) == bytes);
}

/// The bits of a word written at an unaligned address, split in two words, are put back
/// together when reading at the same address.
proof fn lemma_unaligned_word_round_trip(word: u32, next: u32, value: u32, sh: u32)
    requires
        sh == 8 || sh == 16 || sh == 24,
    ensures
        ((((next & (0xFFFFFFFFu32 << sh)) | (value >> ((32 - sh) as u32))) << ((32 - sh) as u32))
            | (((word & !(0xFFFFFFFFu32 << sh)) | (value << sh)) >> sh)) == value,
{
    assert(sh == 8 || sh == 16 || sh == 24 ==> ((((next & (0xFFFFFFFFu32 << sh)) | (value >> ((32
        - sh) as u32))) << ((32 - sh) as u32)) | (((word & !(0xFFFFFFFFu32 << sh)) | (value << sh))
        >> sh)) == value) by (bit_vector);
}

/// A word written at an unaligned address of the RAM is read back at the same address, when
/// the two words that it overlaps are two different words of the same RAM bank, which the memory
/// protection unit permits to access.
pub proof fn lemma_unaligned_read_after_write<S: SpiDevice, P: PioDevice>(
    state: BusState<S, P>,
    address: u32,
    value: u32,
)
    requires
        address % 4 != 0,
        region(aligned(address)) == Region::Ram0 || region(aligned(address)) == Region::Ram1,
        region((aligned(address) + 4) as u32) == region(aligned(address)),
        (aligned(address) + 4) as u32 % ram_bytes(region(aligned(address))) != 0,
        state.mpu.permits(aligned(address), state.is_privileged()),
        state.mpu.permits((aligned(address) + 4) as u32, state.is_privileged()),
        state.ram0.len() == RAM0_WORDS,
        state.ram1.len() == RAM1_WORDS,
    ensures
        ({
            let (written, r) = state.write32(address, value);
            &&& r is Ok
            &&& written.read32(address) == (written, Ok::<u32, Fault>(value))
        }),
{
    reveal(BusState::read32_aligned);
    reveal(BusState::write32_aligned);
    let a = aligned(address);
    let sh = shift(address);
    let (s, r) = state.read32_aligned(a);
    let word = r->Ok_0;
    let (s2, r2) = s.write32_aligned(a, (word & !(0xFFFFFFFFu32 << sh)) | (value << sh));
    let (s3, r3) = s2.read32_aligned((a + 4) as u32);
    let next = r3->Ok_0;
    let b = ram_bytes(region(a));
    assert(sh == 8 || sh == 16 || sh == 24);
    let a4 = (a + 4) as u32;
    assert(a4 == a + 4);
    assert(a % 4 == 0);
    if b == RAM0_BYTES {
        assert(a % 4 == 0 && a4 == a + 4 && a4 % 0x10000 != 0 ==> a4 % 0x10000 == a % 0x10000 + 4) by (bit_vector);
    } else {
        assert(a % 4 == 0 && a4 == a + 4 && a4 % 0x8000 != 0 ==> a4 % 0x8000 == a % 0x8000 + 4) by (bit_vector);
    }
    let w1 = (word & !(0xFFFFFFFFu32 << sh)) | (value << sh);
    let w2 = (next & (0xFFFFFFFFu32 << sh)) | (value >> ((32 - sh) as u32));
    let (written, r4) = s3.write32_aligned((a + 4) as u32, w2);
    assert(written.read32_aligned(a) == (written, Ok::<u32, Fault>(w1)));
    assert(written.read32_aligned((a + 4) as u32) == (written, Ok::<u32, Fault>(w2)));
    lemma_unaligned_word_round_trip(word, next, value, sh);
}

/// A successful word read is at an address below the end of the supported regions.
pub proof fn lemma_read32_ok_bound<S: SpiDevice, P: PioDevice>(state: BusState<S, P>, address: u32)
    requires
        state.read32(address).1 is Ok,
    ensures
        address <= MEMORY_PROTECTION_UNIT_LAST + 3,
{
    reveal(BusState::read32_aligned);
}

/// A successful half word read is at an address below the end of the supported regions, and
/// reads a 16 bit value.
pub proof fn lemma_read16_ok<S: SpiDevice, P: PioDevice>(state: BusState<S, P>, address: u32)
    requires
        state.read16(address).1 is Ok,
    ensures
        address <= MEMORY_PROTECTION_UNIT_LAST + 3,
        state.read16(address).1->Ok_0 <= 0xFFFF,
{
    reveal(BusState::read32_aligned);
    let a = aligned(address);
    let sh = shift(address);
    let word = state.read32_aligned(a).1->Ok_0;
    assert((word >> sh) & 0xFFFF <= 0xFFFF) by (bit_vector);
    if sh == 24 {
        let next = state.read32_aligned((a + 4) as u32).1->Ok_0;
        assert(((next << 8u32) | (word >> 24u32)) & 0xFFFF <= 0xFFFF) by (bit_vector);
    }
}

/// A successful byte read reads an 8 bit value.
pub proof fn lemma_read8_ok<S: SpiDevice, P: PioDevice>(state: BusState<S, P>, address: u32)
    requires
        state.read8(address).1 is Ok,
    ensures
        state.read8(address).1->Ok_0 <= 0xFF,
{
    let word = state.read32_aligned(aligned(address)).1->Ok_0;
    let sh = shift(address);
    assert((word >> sh) & 0xFF <= 0xFF) by (bit_vector);
}

/// Instructions other than `Unsupported` are only fetched from the flash and the RAM.
pub proof fn lemma_fetch_bound<S: SpiDevice, P: PioDevice>(state: BusState<S, P>, address: u32)
    requires
        state.fetch(address).1 is Ok,
        state.fetch(address).1->Ok_0 != Instruction::Unsupported,
    ensures
        address <= RAM1_LAST,
{
}

/// After a reset, the first words of the boot memory can be read, and reading them does not
/// change the state.
pub proof fn lemma_reset_boot_read<S: SpiDevice, P: PioDevice>(state: BusState<S, P>, address: u32)
    requires
        address == 0 || address == 4,
        state.flash.len() == FLASH_WORDS,
    ensures
        state.after_reset().read32(address) == (state.after_reset(), Ok::<u32, Fault>(
            state.after_reset().memory_word(address),
        )),
{
    reveal(BusState::read32_aligned);
}

} // verus!
