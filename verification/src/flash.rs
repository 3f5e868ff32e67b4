use vstd::prelude::*;
use crate::fault::Fault;
use crate::memory::MemoryBank;

verus! {

broadcast use vstd::array::group_array_axioms;

pub const FLASH_CONTROLLER_BEGIN: u32 = 0x400E0A00;

pub const FLASH_CONTROLLER_END: u32 = 0x400E0E00;

pub const FLASH_CONTROLLER_LAST: u32 = FLASH_CONTROLLER_END - 1;

pub const MODE_REGISTER0: u32 = 0x400E0A00;

pub const COMMAND_REGISTER0: u32 = 0x400E0A04;

pub const STATUS_REGISTER0: u32 = 0x400E0A08;

pub const RESULT_REGISTER0: u32 = 0x400E0A0C;

pub const MODE_REGISTER1: u32 = 0x400E0C00;

pub const COMMAND_REGISTER1: u32 = 0x400E0C04;

pub const STATUS_REGISTER1: u32 = 0x400E0C08;

// Mode Register flags.
pub const READY_INTERRUPT_ENABLE: u32 = 0x1;

pub const MODE_BITS: u32 = 0x1000F01;

// Control Register flags.
pub const FLASH_PROTECTION_KEY: u32 = 0x5A000000;

pub const ERASE_AND_WRITE_PAGE_COMMAND: u32 = 0x3;

pub const SET_GPNVM_COMMAND: u32 = 0xB;

pub const CLEAR_GPNVM_COMMAND: u32 = 0xC;

pub const GET_GPNVM_COMMAND: u32 = 0xD;

// Status Register flags.
pub const READY_STATUS: u32 = 0x1;

pub const ERROR_STATUS: u32 = 0x2;

pub const FLASH_PAGE_BYTES: u32 = 256;

pub const FLASH_PAGE_WORDS: u32 = 64;

/// The number of flash pages of each of the two flash banks (512KB in total).
pub const FLASH_PAGES_PER_CONTROLLER: u32 = 1024;

/// The protection key of a command.
pub open spec fn command_key(command: u32) -> u32 {
    command & 0xFF000000
}

/// The command code of a command.
pub open spec fn command_code(command: u32) -> u32 {
    command & 0xFF
}

/// The argument of a command.
pub open spec fn command_argument(command: u32) -> u32 {
    (command & 0x00FFFF00) >> 8u32
}

/// The Enhanced Embedded Flash Controller. See section 18, p292 of the Atmel SAM3X Datasheet.
/// This implementation does not support interrupts.
pub struct FlashController {
    pub mode_register0: u32,
    pub status_register0: u32,
    pub result_register0: u32,
    pub mode_register1: u32,
    pub status_register1: u32,
    pub boot_from_flash: bool,
    pub latch_buffer: [Option<u32>; 64],
}

impl FlashController {
    pub fn uninitialized() -> (r: Self)
        ensures
            r.mode_register0 == 0 && r.status_register0 == 0 && r.result_register0 == 0,
            r.mode_register1 == 0 && r.status_register1 == 0 && !r.boot_from_flash,
            r.latch_empty(),
    {
        let result = Self {
            mode_register0: 0,
            status_register0: 0,
            result_register0: 0,
            mode_register1: 0,
            status_register1: 0,
            boot_from_flash: false,
            latch_buffer: [None; 64],
        };
        proof {
            assert(result.latch_empty());
        }
        result
    }

    pub fn new() -> (r: Self)
        ensures
            r == Self::uninitialized_then_reset(),
    {
        let mut result = Self::uninitialized();
        result.erase();
        result.reset();
        result
    }

    /// The state of a new controller, after an erase and a reset.
    pub open spec fn uninitialized_then_reset() -> Self {
        Self {
            mode_register0: 0x200,
            status_register0: READY_STATUS,
            result_register0: 0,
            mode_register1: 0x200,
            status_register1: READY_STATUS,
            boot_from_flash: false,
            latch_buffer: Self::empty_latch(),
        }
    }

    /// A latch buffer without any written word.
    pub open spec fn empty_latch() -> [Option<u32>; 64] {
        vstd::array::spec_array_fill_for_copy_type::<Option<u32>, 64>(None)
    }

    /// Whether no word is written in the latch buffer.
    pub open spec fn latch_empty(self) -> bool {
        forall|i: int| 0 <= i < 64 ==> #[trigger] self.latch_buffer@[i] is None
    }

    /// Whether all the words of the latch buffer are written.
    pub open spec fn latch_full(self) -> bool {
        forall|i: int| 0 <= i < 64 ==> #[trigger] self.latch_buffer@[i] is Some
    }

    /// The value written in flash at the offset `i` of a page by an erase and write command.
    pub open spec fn page_word(self, i: int) -> u32 {
        if self.latch_full() {
            self.latch_buffer@[i]->0
        } else {
            0xFFFFFFFF
        }
    }

    /// The index of the first word of the flash page written by the command `value` written
    /// at `address`, if any.
    pub open spec fn flashed_page(address: u32, value: u32) -> Option<int> {
        let argument = command_argument(value);
        if command_key(value) == FLASH_PROTECTION_KEY && command_code(value)
            == ERASE_AND_WRITE_PAGE_COMMAND && argument < FLASH_PAGES_PER_CONTROLLER {
            if address == COMMAND_REGISTER0 {
                Some(argument * 64)
            } else if address == COMMAND_REGISTER1 {
                Some((argument + FLASH_PAGES_PER_CONTROLLER) * 64)
            } else {
                None
            }
        } else {
            None
        }
    }

    /// Whether `address` is a register that can be read.
    pub fn supports_read(&self, address: u32) -> (r: bool)
        ensures
            r == self.read_value(address) is Ok,
    {
        address == MODE_REGISTER0 || address == COMMAND_REGISTER0 || address == COMMAND_REGISTER1
            || address == STATUS_REGISTER0 || address == RESULT_REGISTER0 || address
            == MODE_REGISTER1 || address == STATUS_REGISTER1
    }

    /// The value read from the register at `address`.
    pub open spec fn read_value(self, address: u32) -> Result<u32, Fault> {
        if address == MODE_REGISTER0 {
            Ok(self.mode_register0)
        } else if address == COMMAND_REGISTER0 || address == COMMAND_REGISTER1 {
            Ok(0u32)
        } else if address == STATUS_REGISTER0 {
            Ok(self.status_register0)
        } else if address == RESULT_REGISTER0 {
            Ok(self.result_register0)
        } else if address == MODE_REGISTER1 {
            Ok(self.mode_register1)
        } else if address == STATUS_REGISTER1 {
            Ok(self.status_register1)
        } else {
            Err(Fault::UnsupportedRegister(address))
        }
    }

    /// The state after reading the register at `address`: reading a status register sets it
    /// to ready, and reading the result register clears it.
    pub open spec fn after_read(self, address: u32) -> Self {
        if address == STATUS_REGISTER0 {
            Self { status_register0: READY_STATUS, ..self }
        } else if address == RESULT_REGISTER0 {
            Self { result_register0: 0, ..self }
        } else if address == STATUS_REGISTER1 {
            Self { status_register1: READY_STATUS, ..self }
        } else {
            self
        }
    }

    pub fn get32_aligned(&mut self, address: u32) -> (r: Result<u32, Fault>)
        requires
            old(self).read_value(address) is Ok,
            address % 4 == 0,
        ensures
            r == old(self).read_value(address),
            *final(self) == old(self).after_read(address),
    {
        if address == MODE_REGISTER0 {
            Ok(self.mode_register0)
        } else if address == COMMAND_REGISTER0 || address == COMMAND_REGISTER1 {
            Ok(0)
        } else if address == STATUS_REGISTER0 {
            let result = self.status_register0;
            self.status_register0 = READY_STATUS;
            Ok(result)
        } else if address == RESULT_REGISTER0 {
            let result = self.result_register0;
            self.result_register0 = 0;
            Ok(result)
        } else if address == MODE_REGISTER1 {
            Ok(self.mode_register1)
        } else if address == STATUS_REGISTER1 {
            let result = self.status_register1;
            self.status_register1 = READY_STATUS;
            Ok(result)
        } else {
            Err(Fault::UnsupportedRegister(address))
        }
    }

    /// The result of writing `value` at `address`.
    pub open spec fn write_result(address: u32, value: u32) -> Result<(), Fault> {
        let code = command_code(value);
        if address == MODE_REGISTER0 || address == MODE_REGISTER1 {
            if value & READY_INTERRUPT_ENABLE != 0 {
                Err(Fault::UnsupportedValue(address, value))
            } else {
                Ok(())
            }
        } else if address == COMMAND_REGISTER0 {
            if command_key(value) != FLASH_PROTECTION_KEY {
                Ok(())
            } else if code == ERASE_AND_WRITE_PAGE_COMMAND || code == GET_GPNVM_COMMAND {
                Ok(())
            } else if code == SET_GPNVM_COMMAND || code == CLEAR_GPNVM_COMMAND {
                if command_argument(value) == 1 {
                    Ok(())
                } else {
                    Err(Fault::UnsupportedValue(address, value))
                }
            } else {
                Err(Fault::UnsupportedValue(address, value))
            }
        } else if address == COMMAND_REGISTER1 {
            if command_key(value) != FLASH_PROTECTION_KEY {
                Ok(())
            } else if code == ERASE_AND_WRITE_PAGE_COMMAND || code == SET_GPNVM_COMMAND || code
                == CLEAR_GPNVM_COMMAND || code == GET_GPNVM_COMMAND {
                Ok(())
            } else {
                Err(Fault::UnsupportedValue(address, value))
            }
        } else if address == STATUS_REGISTER0 || address == RESULT_REGISTER0 || address
            == STATUS_REGISTER1 {
            Ok(())
        } else {
            Err(Fault::UnsupportedRegister(address))
        }
    }

    /// The state of the controller after a supported write of `value` at `address`.
    pub open spec fn after_write(self, address: u32, value: u32) -> Self {
        let code = command_code(value);
        if Self::write_result(address, value) is Err {
            self
        } else if address == MODE_REGISTER0 {
            Self { mode_register0: value & MODE_BITS, ..self }
        } else if address == MODE_REGISTER1 {
            Self { mode_register1: value & MODE_BITS, ..self }
        } else if address == COMMAND_REGISTER0 {
            if command_key(value) != FLASH_PROTECTION_KEY {
                Self { status_register0: ERROR_STATUS | READY_STATUS, ..self }
            } else if code == ERASE_AND_WRITE_PAGE_COMMAND {
                if Self::flashed_page(address, value) is Some {
                    Self {
                        status_register0: READY_STATUS,
                        latch_buffer: Self::empty_latch(),
                        ..self
                    }
                } else {
                    Self { status_register0: READY_STATUS, ..self }
                }
            } else if code == SET_GPNVM_COMMAND {
                Self { boot_from_flash: true, status_register0: READY_STATUS, ..self }
            } else if code == CLEAR_GPNVM_COMMAND {
                Self { boot_from_flash: false, status_register0: READY_STATUS, ..self }
            } else {
                Self {
                    result_register0: if self.boot_from_flash {
                        2
                    } else {
                        0
                    },
                    status_register0: READY_STATUS,
                    ..self
                }
            }
        } else if address == COMMAND_REGISTER1 {
            if command_key(value) != FLASH_PROTECTION_KEY {
                Self { status_register1: ERROR_STATUS | READY_STATUS, ..self }
            } else if code == ERASE_AND_WRITE_PAGE_COMMAND {
                if Self::flashed_page(address, value) is Some {
                    Self {
                        status_register1: READY_STATUS,
                        latch_buffer: Self::empty_latch(),
                        ..self
                    }
                } else {
                    Self { status_register1: READY_STATUS, ..self }
                }
            } else {
                self
            }
        } else {
            self
        }
    }

    /// The flash words after a supported write of `value` at `address`: an erase and write
    /// page command writes the latch buffer into the page if all its words have been written, or
    /// erases the page otherwise.
    pub open spec fn flash_after_write(self, address: u32, value: u32, words: Seq<u32>) -> Seq<
        u32,
    > {
        match Self::flashed_page(address, value) {
            Some(base) => Seq::new(
                words.len(),
                |i: int|
                    if base <= i < base + 64 {
                        self.page_word(i - base)
                    } else {
                        words[i]
                    },
            ),
            None => words,
        }
    }

    /// Whether the flash memory bank contains the page that writing `value` at `address` would
    /// write.
    pub open spec fn page_fits(address: u32, value: u32, flash: MemoryBank) -> bool {
        match Self::flashed_page(address, value) {
            Some(base) => base + 64 <= flash.words@.len(),
            None => true,
        }
    }

    /// Checks a write of `value` at `address`: a mode with the ready interrupt, a keyed command
    /// which is not supported (see `write_result`), or an unknown register, is refused.
    pub fn check_write(address: u32, value: u32) -> (r: Result<(), Fault>)
        ensures
            r == Self::write_result(address, value),
    {
        let key = value & 0xFF000000;
        let code = value & 0xFF;
        if address == MODE_REGISTER0 || address == MODE_REGISTER1 {
            if value & READY_INTERRUPT_ENABLE != 0 {
                Err(Fault::UnsupportedValue(address, value))
            } else {
                Ok(())
            }
        } else if address == COMMAND_REGISTER0 {
            if key != FLASH_PROTECTION_KEY {
                Ok(())
            } else if code == ERASE_AND_WRITE_PAGE_COMMAND || code == GET_GPNVM_COMMAND {
                Ok(())
            } else if code == SET_GPNVM_COMMAND || code == CLEAR_GPNVM_COMMAND {
                if (value & 0x00FFFF00) >> 8 == 1 {
                    Ok(())
                } else {
                    Err(Fault::UnsupportedValue(address, value))
                }
            } else {
                Err(Fault::UnsupportedValue(address, value))
            }
        } else if address == COMMAND_REGISTER1 {
            if key != FLASH_PROTECTION_KEY {
                Ok(())
            } else if code == ERASE_AND_WRITE_PAGE_COMMAND || code == SET_GPNVM_COMMAND || code
                == CLEAR_GPNVM_COMMAND || code == GET_GPNVM_COMMAND {
                Ok(())
            } else {
                Err(Fault::UnsupportedValue(address, value))
            }
        } else if address == STATUS_REGISTER0 || address == RESULT_REGISTER0 || address
            == STATUS_REGISTER1 {
            Ok(())
        } else {
            Err(Fault::UnsupportedRegister(address))
        }
    }

    /// Writes the supported `value` at `address` (see `check_write`).
    pub fn set32_aligned(&mut self, address: u32, value: u32, flash: &mut MemoryBank) -> (r: Result<
        (),
        Fault,
    >)
        requires
            address % 4 == 0,
            Self::write_result(address, value) is Ok,
            old(flash).wf(),
            old(flash).words@.len() <= 0x40000000,
            Self::page_fits(address, value, *old(flash)),
        ensures
            r == Self::write_result(address, value),
            *final(self) == old(self).after_write(address, value),
            final(flash).wf(),
            final(flash).words@ == (if r is Ok {
                old(self).flash_after_write(address, value, old(flash).words@)
            } else {
                old(flash).words@
            }),
            old(flash).cache_consistent() ==> final(flash).cache_consistent(),
    {
        if address == MODE_REGISTER0 || address == MODE_REGISTER1 {
            if value & READY_INTERRUPT_ENABLE != 0 {
                return Err(Fault::UnsupportedValue(address, value));
            }
            if address == MODE_REGISTER0 {
                self.mode_register0 = value & MODE_BITS;
            } else {
                self.mode_register1 = value & MODE_BITS;
            }
            Ok(())
        } else if address == COMMAND_REGISTER0 || address == COMMAND_REGISTER1 {
            let bank0 = address == COMMAND_REGISTER0;
            if value & 0xFF000000 != FLASH_PROTECTION_KEY {
                if bank0 {
                    self.status_register0 = ERROR_STATUS | READY_STATUS;
                } else {
                    self.status_register1 = ERROR_STATUS | READY_STATUS;
                }
                return Ok(());
            }
            let argument = (value & 0x00FFFF00) >> 8;
            let code = value & 0xFF;
            if code == ERASE_AND_WRITE_PAGE_COMMAND {
                if argument < FLASH_PAGES_PER_CONTROLLER {
                    let page = if bank0 {
                        argument
                    } else {
                        argument + FLASH_PAGES_PER_CONTROLLER
                    };
                    self.erase_and_flash(page * FLASH_PAGE_WORDS, flash);
                }
                if bank0 {
                    self.status_register0 = READY_STATUS;
                } else {
                    self.status_register1 = READY_STATUS;
                }
                Ok(())
            } else if code == SET_GPNVM_COMMAND || code == CLEAR_GPNVM_COMMAND {
                if bank0 {
                    if argument != 1 {
                        return Err(Fault::UnsupportedValue(address, value));
                    }
                    self.boot_from_flash = code == SET_GPNVM_COMMAND;
                    self.status_register0 = READY_STATUS;
                }
                Ok(())
            } else if code == GET_GPNVM_COMMAND {
                if bank0 {
                    self.result_register0 = if self.boot_from_flash {
                        2
                    } else {
                        0
                    };
                    self.status_register0 = READY_STATUS;
                }
                Ok(())
            } else {
                Err(Fault::UnsupportedValue(address, value))
            }
        } else if address == STATUS_REGISTER0 || address == RESULT_REGISTER0 || address
            == STATUS_REGISTER1 {
            Ok(())
        } else {
            Err(Fault::UnsupportedRegister(address))
        }
    }

    /// Writes the latch buffer into the flash page starting at the word `base_index` if all
    /// its words have been written, or erases this page otherwise, and then clears the latch
    /// buffer.
    fn erase_and_flash(&mut self, base_index: u32, flash: &mut MemoryBank)
        requires
            old(flash).wf(),
            base_index + 64 <= old(flash).words@.len() <= 0x40000000,
        ensures
            *final(self) == (Self { latch_buffer: Self::empty_latch(), ..*old(self) }),
            final(flash).wf(),
            final(flash).words@ == Seq::new(
                old(flash).words@.len(),
                |i: int|
                    if base_index <= i < base_index + 64 {
                        old(self).page_word(i - base_index)
                    } else {
                        old(flash).words@[i]
                    },
            ),
            old(flash).cache_consistent() ==> final(flash).cache_consistent(),
    {
        let mut word_count: usize = 0;
        let mut i: usize = 0;
        while i < 64
            invariant
                i <= 64,
                word_count <= i,
                (word_count == i) == (forall|j: int| 0 <= j < i ==> #[trigger] self.latch_buffer@[j] is Some),
            decreases 64 - i,
        {
            if self.latch_buffer[i].is_some() {
                word_count = word_count + 1;
            }
            i = i + 1;
        }
        let full = word_count == 64;
        let ghost old_words = flash.words@;
        let mut index: u32 = 0;
        while index < 64
            invariant
                index <= 64,
                full == old(self).latch_full(),
                *self == *old(self),
                flash.wf(),
                flash.words@.len() == old_words.len(),
                base_index + 64 <= old_words.len() <= 0x40000000,
                old(flash).words@ == old_words,
                old(flash).cache_consistent() ==> flash.cache_consistent(),
                forall|k: int|
                    0 <= k < old_words.len() ==> #[trigger] flash.words@[k] == if base_index <= k
                        < base_index + index {
                        old(self).page_word(k - base_index)
                    } else {
                        old_words[k]
                    },
            decreases 64 - index,
        {
            let word = if full {
                match self.latch_buffer[index as usize] {
                    Some(w) => w,
                    None => 0xFFFFFFFF,
                }
            } else {
                0xFFFFFFFF
            };
            flash.set32_aligned((base_index + index) * 4, word);
            index = index + 1;
        }
        let mut j: usize = 0;
        while j < 64
            invariant
                j <= 64,
                self.mode_register0 == old(self).mode_register0,
                self.status_register0 == old(self).status_register0,
                self.result_register0 == old(self).result_register0,
                self.mode_register1 == old(self).mode_register1,
                self.status_register1 == old(self).status_register1,
                self.boot_from_flash == old(self).boot_from_flash,
                forall|k: int| 0 <= k < j ==> #[trigger] self.latch_buffer@[k] is None,
            decreases 64 - j,
        {
            self.latch_buffer[j] = None;
            j = j + 1;
        }
        proof {
            lemma_empty_latch_unique(self.latch_buffer);
        }
        assert(flash.words@ =~= Seq::new(
            old(flash).words@.len(),
            |i: int|
                if base_index <= i < base_index + 64 {
                    old(self).page_word(i - base_index)
                } else {
                    old(flash).words@[i]
                },
        ));
    }

    pub fn boot_from_flash(&self) -> (r: bool)
        ensures
            r == self.boot_from_flash,
    {
        self.boot_from_flash
    }

    /// Records a word to write in the latch buffer, at the word offset of `address` in its
    /// page.
    pub fn set_latch_buffer(&mut self, address: u32, value: u32)
        ensures
            *final(self) == (Self {
                latch_buffer: final(self).latch_buffer,
                ..*old(self)
            }),
            final(self).latch_buffer@ == old(self).latch_buffer@.update(
                ((address / 4) % 64) as int,
                Some(value),
            ),
    {
        self.latch_buffer[((address / 4) % FLASH_PAGE_WORDS) as usize] = Some(value);
    }

    pub fn erase(&mut self)
        ensures
            *final(self) == (Self { boot_from_flash: false, ..*old(self) }),
    {
        self.boot_from_flash = false;
    }

    /// The state after a reset, which depends on the boot mode.
    pub open spec fn after_reset(self) -> Self {
        Self {
            mode_register0: if self.boot_from_flash {
                0
            } else {
                0x200
            },
            status_register0: READY_STATUS,
            result_register0: 0,
            mode_register1: if self.boot_from_flash {
                0
            } else {
                0x200
            },
            status_register1: READY_STATUS,
            boot_from_flash: self.boot_from_flash,
            latch_buffer: Self::empty_latch(),
        }
    }

    pub fn reset(&mut self)
        ensures
            *final(self) == old(self).after_reset(),
    {
        self.mode_register0 = if self.boot_from_flash {
            0
        } else {
            0x200
        };
        self.status_register0 = READY_STATUS;
        self.result_register0 = 0;
        self.mode_register1 = if self.boot_from_flash {
            0
        } else {
            0x200
        };
        self.status_register1 = READY_STATUS;
        let mut j: usize = 0;
        while j < 64
            invariant
                j <= 64,
                self.mode_register0 == old(self).after_reset().mode_register0,
                self.mode_register1 == old(self).after_reset().mode_register1,
                self.status_register0 == READY_STATUS,
                self.status_register1 == READY_STATUS,
                self.result_register0 == 0,
                self.boot_from_flash == old(self).boot_from_flash,
                forall|k: int| 0 <= k < j ==> #[trigger] self.latch_buffer@[k] is None,
            decreases 64 - j,
        {
            self.latch_buffer[j] = None;
            j = j + 1;
        }
        proof {
            lemma_empty_latch_unique(self.latch_buffer);
        }
    }

    pub fn serialize(&self, output: &mut Vec<u32>)
        ensures
            final(output)@ == old(output)@.push(if self.boot_from_flash {
                1u32
            } else {
                0u32
            }),
    {
        output.push(if self.boot_from_flash {
            1
        } else {
            0
        });
    }

    /// Restores the boot mode from the last value of `input`, and removes it from `input`.
    pub fn deserialize(&mut self, input: &mut Vec<u32>)
        requires
            old(input)@.len() > 0,
        ensures
            final(input)@ == old(input)@.drop_last(),
            *final(self) == (Self {
                boot_from_flash: old(input)@.last() == 1,
                ..*old(self)
            }),
    {
        let value = input.pop().unwrap();
        self.boot_from_flash = value == 1;
    }
}

/// The empty latch buffer is the only latch buffer without any written word.
pub proof fn lemma_empty_latch_unique(latch: [Option<u32>; 64])
    requires
        forall|i: int| 0 <= i < 64 ==> #[trigger] latch@[i] is None,
    ensures
        latch == FlashController::empty_latch(),
{
    let e = FlashController::empty_latch();
    assert(forall|i: int| 0 <= i < 64 ==> #[trigger] e@[i] is None);
    assert(latch =~= e);
}

/// A command written without the write protection key is refused without a fault: the write
/// is accepted, changes neither the flash memory, nor the boot memory mapping, nor the latch
/// buffer, and sets the error and ready bits of the status register of its bank.
pub proof fn lemma_command_without_key(
    controller: FlashController,
    address: u32,
    value: u32,
    words: Seq<u32>,
)
    requires
        address == COMMAND_REGISTER0 || address == COMMAND_REGISTER1,
        command_key(value) != FLASH_PROTECTION_KEY,
    ensures
        FlashController::write_result(address, value) is Ok,
        controller.flash_after_write(address, value, words) == words,
        controller.after_write(address, value).boot_from_flash == controller.boot_from_flash,
        controller.after_write(address, value).latch_buffer == controller.latch_buffer,
        address == COMMAND_REGISTER0 ==> controller.after_write(address, value).status_register0
            == ERROR_STATUS | READY_STATUS,
        address == COMMAND_REGISTER1 ==> controller.after_write(address, value).status_register1
            == ERROR_STATUS | READY_STATUS,
{
}

/// Programming a page: when the latch buffer holds the 64 words of `page`, an "erase and write
/// page" command writes exactly these words in its page of the flash memory (the other words are
/// unchanged), and empties the latch buffer.
pub proof fn lemma_page_program(
    controller: FlashController,
    page: Seq<u32>,
    words: Seq<u32>,
    address: u32,
    value: u32,
)
    requires
        page.len() == 64,
        forall|i: int| 0 <= i < 64 ==> #[trigger] controller.latch_buffer@[i] == Some(page[i]),
        FlashController::flashed_page(address, value) is Some,
    ensures
        ({
            let base = FlashController::flashed_page(address, value)->Some_0;
            let flash = controller.flash_after_write(address, value, words);
            &&& flash.len() == words.len()
            &&& forall|i: int|
                0 <= i < 64 && base + i < words.len() ==> #[trigger] flash[base + i] == page[i]
            &&& forall|j: int|
                0 <= j < words.len() && !(base <= j < base + 64) ==> #[trigger] flash[j] == words[j]
            &&& controller.after_write(address, value).latch_empty()
        }),
{
    assert(controller.latch_full());
    let empty = FlashController::empty_latch();
    assert(forall|i: int| 0 <= i < 64 ==> #[trigger] empty@[i] is None);
}

} // verus!
