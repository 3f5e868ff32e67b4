use vstd::prelude::*;
use crate::fault::Fault;

verus! {

pub const PIO_CONTROLLER_BEGIN: u32 = 0x400E0E00;

pub const PIO_CONTROLLER_END: u32 = 0x400E1600;

pub const PIO_CONTROLLER_LAST: u32 = PIO_CONTROLLER_END - 1;

/// The four parallel input/output controllers.
pub enum Controller {
    PA,
    PB,
    PC,
    PD,
}

/// The index of a controller.
pub open spec fn controller_index(controller: Controller) -> u32 {
    match controller {
        Controller::PA => 0,
        Controller::PB => 1,
        Controller::PC => 2,
        Controller::PD => 3,
    }
}

/// An external device which can be connected to the output pins of the micro-controller.
pub trait PioDevice: Sized {
    /// Whether this device is in a consistent state (always, unless an implementation says
    /// otherwise).
    open spec fn pio_inv(&self) -> bool {
        true
    }

    /// The state of this device after the pins changed to `pins` (unknown unless an
    /// implementation defines it).
    open spec fn pio_next(&self, pins: Seq<u32>) -> Self {
        arbitrary()
    }

    /// Method called by the micro-controller emulator when at least one pin changed state. Pins are
    /// identified by a controller in [0..3], and a bit number in this controller [0..31].
    fn pio_state_changed(&mut self, pins: &[u32; 4])
        requires
            old(self).pio_inv(),
        ensures
            final(self).pio_inv(),
            *final(self) == old(self).pio_next(pins@),
    ;
}

/// An empty PIO device, which does nothing.
pub struct EmptyPioDevice {}

impl EmptyPioDevice {
    pub fn new() -> (r: Self)
        ensures
            r == (EmptyPioDevice {}),
    {
        EmptyPioDevice {  }
    }
}

impl Default for EmptyPioDevice {
    fn default() -> (r: Self) {
        EmptyPioDevice {  }
    }
}

impl PioDevice for EmptyPioDevice {
    open spec fn pio_next(&self, pins: Seq<u32>) -> Self {
        *self
    }

    fn pio_state_changed(&mut self, _pins: &[u32; 4]) {
    }
}

/// The kind of a PIO register.
#[derive(Clone, Copy, PartialEq, Eq, Structural)]
pub enum Kind {
    /// Write-only register, writing to it sets bits in the 'value' ReadOnly register.
    SetBits,
    /// Write-only register, writing to it clears bits in the 'value' ReadOnly register.
    ClearBits,
    /// Read-only register, holds a value which can be changed with Set and Clear registers.
    ReadOnly,
    /// Read-write register, holds a value which can be changed by directly.
    ReadWrite,
    Reserved,
    Unsupported,
}

/// A PIO register. The value of a Set or Clear register is the index of its target register.
#[derive(Clone, Copy)]
pub struct Register {
    pub kind: Kind,
    pub value: u32,
}

/// The number of registers of each controller.
pub const REGISTER_COUNT_BY_CONTROLLER: usize = 128;

pub const PIO_STATUS_REGISTER_INDEX: usize = 2;

pub const OUTPUT_STATUS_REGISTER_INDEX: usize = 6;

pub const OUTPUT_DATA_STATUS_REGISTER_INDEX: usize = 14;

pub const PIN_DATA_STATUS_REGISTER_INDEX: usize = 15;

pub const PULL_UP_STATUS_REGISTER_INDEX: usize = 26;

pub const AB_SELECT_REGISTER_INDEX: usize = 28;

/// The kind of the register at `offset` in a controller, and the offset of the register it
/// targets (for Set and Clear registers). See section 31.7 Parallel Input/Output Controller (PIO)
/// User Interface.
pub open spec fn register_layout(offset: int) -> (Kind, int) {
    // 0x00 PER, PDR, PSR; 0x10 OER, ODR, OSR; 0x20 IFER, IFDR, IFSR; 0x40 IER, IDR, IMR (ISR);
    // 0xA0 OWER, OWDR, OWSR; 0xB0 AIMER, AIMDR, AIMMR: set, clear and status registers.
    if offset == 0 || offset == 4 || offset == 8 || offset == 12 || offset == 16 || offset == 24
        || offset == 40 || offset == 44 {
        (Kind::SetBits, offset + 2)
    } else if offset == 1 || offset == 5 || offset == 9 || offset == 13 || offset == 17 || offset
        == 25 || offset == 41 || offset == 45 {
        (Kind::ClearBits, offset + 1)
        // 0x80 SCIFSR, DIFSR, IFDGSR; 0xC0 ESR, LSR, ELSR; 0xD0 FELLSR, REHLSR, FRLHSR: clear, set
        // and status registers.

    } else if offset == 32 || offset == 48 || offset == 52 {
        (Kind::ClearBits, offset + 2)
    } else if offset == 33 || offset == 49 || offset == 53 {
        (Kind::SetBits, offset + 1)
    } else if offset == 2 || offset == 6 || offset == 10 || offset == 14 || offset == 15 || offset
        == 18 || offset == 19 || offset == 26 || offset == 34 || offset == 42 || offset == 46
        || offset == 50 || offset == 54 {
        (Kind::ReadOnly, 0)
        // 0x70 ABSR, 0x8C SCDR.

    } else if offset == 28 || offset == 35 {
        (Kind::ReadWrite, 0)
        // 0x50 MDER, MDDR, MDSR; 0xE0 LOCKSR, WPMR, WPSR.

    } else if offset == 20 || offset == 21 || offset == 22 || offset == 56 || offset == 57
        || offset == 58 {
        (Kind::Unsupported, 0)
    } else {
        (Kind::Reserved, 0)
    }
}

/// The register of index `index`, when it contains `value`.
pub open spec fn layout_register(index: int, value: u32) -> Register {
    let (kind, target) = register_layout(index % 128);
    if kind == Kind::SetBits || kind == Kind::ClearBits {
        Register { kind, value: (index - index % 128 + target) as u32 }
    } else {
        Register { kind, value }
    }
}

/// The Parallel Input/Output Controller. See section 31, p618 of the Atmel SAM3X Datasheet.
/// This implementation does not support interrupts.
pub struct ParallelIoController<P: PioDevice> {
    pub registers: Vec<Register>,
    pub pio_device: P,
}

/// The output of a pin controller: if output is enabled on a line, and if the PIO controller
/// controls the output (i.e. not an embedded peripheral), then the output value is the one stored
/// in the output data status register. If output is enabled on a line, but the output is
/// controlled by an embedded peripheral, the output is 0 (this case is not supported). If output
/// is not enabled on a line, the output is 1 if the pull-up is enabled (i.e. if the pull-up status
/// bit is 0), otherwise it is undefined (0 is assumed).
pub open spec fn outputs(output_status: u32, pio_status: u32, data: u32, pullup: u32) -> u32 {
    (output_status & pio_status & data) | (!output_status & !pullup)
}

/// The value of the register `base_register` of controller `controller`.
pub open spec fn register_value(registers: Seq<Register>, controller: int, base_register: int) -> u32 {
    registers[controller * 128 + base_register].value
}

/// The outputs of the 32 pins of controller `controller`.
pub open spec fn controller_outputs(registers: Seq<Register>, controller: int) -> u32 {
    outputs(
        register_value(registers, controller, OUTPUT_STATUS_REGISTER_INDEX as int),
        register_value(registers, controller, PIO_STATUS_REGISTER_INDEX as int),
        register_value(registers, controller, OUTPUT_DATA_STATUS_REGISTER_INDEX as int),
        register_value(registers, controller, PULL_UP_STATUS_REGISTER_INDEX as int),
    )
}

/// The outputs of all the pins.
pub open spec fn pins(registers: Seq<Register>) -> Seq<u32> {
    seq![
        controller_outputs(registers, 0),
        controller_outputs(registers, 1),
        controller_outputs(registers, 2),
        controller_outputs(registers, 3),
    ]
}

/// The index of the register at `address`.
pub open spec fn register_index(address: u32) -> int {
    (address - PIO_CONTROLLER_BEGIN) / 4
}

/// The value read from the register at `address`.
pub open spec fn read_value(registers: Seq<Register>, address: u32) -> u32 {
    let register = registers[register_index(address)];
    if register.kind == Kind::ReadOnly || register.kind == Kind::ReadWrite {
        register.value
    } else {
        0
    }
}

/// The registers after writing `value` at `address`.
pub open spec fn registers_after_write(registers: Seq<Register>, address: u32, value: u32) -> Seq<
    Register,
> {
    let index = register_index(address);
    let register = registers[index];
    let target = register.value as int;
    if register.kind == Kind::SetBits {
        registers.update(
            target,
            Register { value: registers[target].value | value, ..registers[target] },
        )
    } else if register.kind == Kind::ClearBits {
        registers.update(
            target,
            Register { value: registers[target].value & !value, ..registers[target] },
        )
    } else if register.kind == Kind::ReadWrite {
        registers.update(index, Register { value, ..register })
    } else {
        registers
    }
}

/// Whether writing at `address` is supported.
pub open spec fn write_supported(registers: Seq<Register>, address: u32) -> bool {
    registers[register_index(address)].kind != Kind::Unsupported
}

/// Whether the SPI output pins are enabled. SPI pins are controlled with bits 25, 26, 27 and
/// 28 of PIOA controller, peripheral A (See Section 9.3.1 PIO Controller A Multiplexing, Table
/// 9-2). For all these pins, peripheral A must be selected and enabled, and the pull-up must be
/// enabled.
pub open spec fn spi_pins_enabled(registers: Seq<Register>) -> bool {
    &&& register_value(registers, 0, AB_SELECT_REGISTER_INDEX as int) & 0x1E000000 == 0
    &&& register_value(registers, 0, PIO_STATUS_REGISTER_INDEX as int) & 0x1E000000 == 0
    &&& register_value(registers, 0, PULL_UP_STATUS_REGISTER_INDEX as int) & 0x1E000000 == 0
}

/// Whether the USART0 input pins are enabled. USART0 input pins are controlled with bits 10
/// (RXD line) and 17 (CLOCK line) of the PIOA controller (See Section 9.3.1 PIO Controller A
/// Multiplexing, Table 9-2). These two pins must be configured as input, with a pull-up
/// enabled.
pub open spec fn usart_pins_enabled(registers: Seq<Register>) -> bool {
    &&& register_value(registers, 0, PIO_STATUS_REGISTER_INDEX as int) & register_value(
        registers,
        0,
        OUTPUT_STATUS_REGISTER_INDEX as int,
    ) & 0x20400 == 0
    &&& register_value(registers, 0, PULL_UP_STATUS_REGISTER_INDEX as int) & 0x20400 == 0
}


/// The registers after a reset: all the read-only and read-write registers are cleared, except
/// the PIO status registers which are set to their initial value.
pub open spec fn registers_after_reset(registers: Seq<Register>) -> Seq<Register> {
    Seq::new(
        registers.len(),
        |i: int|
            {
                let r = registers[i];
                if r.kind == Kind::ReadOnly || r.kind == Kind::ReadWrite {
                    Register {
                        value: if i == 2 {
                            0xFFFFFFFFu32
                        } else if i == 130 {
                            0x0FFFFFFFu32
                        } else if i == 258 {
                            0x7FFFFFFEu32
                        } else if i == 386 {
                            0x7FFFFFFFu32
                        } else {
                            0u32
                        },
                        ..r
                    }
                } else {
                    r
                }
            },
    )
}

impl<P: PioDevice> ParallelIoController<P> {
    /// The register layout of the four controllers.
    pub open spec fn wf(self) -> bool {
        &&& self.registers@.len() == 4 * REGISTER_COUNT_BY_CONTROLLER
        &&& forall|i: int|
            0 <= i < self.registers@.len() ==> #[trigger] self.registers@[i] == layout_register(
                i,
                self.registers@[i].value,
            )
    }

    /// The value of the register `base_register` of controller `controller`.
    pub open spec fn register_value(self, controller: int, base_register: int) -> u32 {
        register_value(self.registers@, controller, base_register)
    }

    /// The outputs of the 32 pins of controller `controller`.
    pub open spec fn controller_outputs(self, controller: int) -> u32 {
        controller_outputs(self.registers@, controller)
    }

    /// The outputs of all the pins.
    pub open spec fn pins(self) -> Seq<u32> {
        pins(self.registers@)
    }

    pub fn uninitialized(pio_device: P) -> (r: Self)
        ensures
            r.wf(),
            r.pio_device == pio_device,
            forall|i: int| 0 <= i < 512 ==> #[trigger] r.registers@[i].value == layout_register(i, 0).value,
    {
        let mut registers: Vec<Register> = Vec::new();
        let mut i: usize = 0;
        while i < 4 * REGISTER_COUNT_BY_CONTROLLER
            invariant
                i <= 512,
                registers@.len() == i,
                forall|j: int| 0 <= j < i ==> #[trigger] registers@[j] == layout_register(j, 0),
            decreases 512 - i,
        {
            let offset = i % REGISTER_COUNT_BY_CONTROLLER;
            let (kind, target) = Self::register_layout_of(offset);
            let value = if kind == Kind::SetBits || kind == Kind::ClearBits {
                (i - offset + target) as u32
            } else {
                0
            };
            registers.push(Register { kind, value });
            i = i + 1;
        }
        Self { registers, pio_device }
    }

    /// Computes `register_layout(offset)`.
    fn register_layout_of(offset: usize) -> (r: (Kind, usize))
        requires
            offset < 128,
        ensures
            r.0 == register_layout(offset as int).0,
            r.1 == register_layout(offset as int).1,
            r.1 < 128,
    {
        if offset == 0 || offset == 4 || offset == 8 || offset == 12 || offset == 16 || offset == 24
            || offset == 40 || offset == 44 {
            (Kind::SetBits, offset + 2)
        } else if offset == 1 || offset == 5 || offset == 9 || offset == 13 || offset == 17
            || offset == 25 || offset == 41 || offset == 45 {
            (Kind::ClearBits, offset + 1)
        } else if offset == 32 || offset == 48 || offset == 52 {
            (Kind::ClearBits, offset + 2)
        } else if offset == 33 || offset == 49 || offset == 53 {
            (Kind::SetBits, offset + 1)
        } else if offset == 2 || offset == 6 || offset == 10 || offset == 14 || offset == 15
            || offset == 18 || offset == 19 || offset == 26 || offset == 34 || offset == 42
            || offset == 46 || offset == 50 || offset == 54 {
            (Kind::ReadOnly, 0)
        } else if offset == 28 || offset == 35 {
            (Kind::ReadWrite, 0)
        } else if offset == 20 || offset == 21 || offset == 22 || offset == 56 || offset == 57
            || offset == 58 {
            (Kind::Unsupported, 0)
        } else {
            (Kind::Reserved, 0)
        }
    }

    pub fn new(pio_device: P) -> (r: Self)
        ensures
            r.wf(),
            r.pio_device == pio_device,
            r.registers@ == registers_after_reset(Seq::new(512, |i: int| layout_register(i, 0))),
    {
        let mut result = Self::uninitialized(pio_device);
        proof {
            assert(result.registers@ =~= Seq::new(512, |i: int| layout_register(i, 0)));
        }
        result.reset();
        result
    }

    pub fn get_pio_device(&self) -> (r: &P)
        ensures
            *r == self.pio_device,
    {
        &self.pio_device
    }

    pub fn set_pio_device(&mut self, pio_device: P)
        ensures
            final(self).registers == old(self).registers,
            final(self).pio_device == pio_device,
    {
        self.pio_device = pio_device;
    }

    /// The index of the register at `address`.
    pub open spec fn register_index(address: u32) -> int {
        register_index(address)
    }

    /// The value read from the register at `address`.
    pub open spec fn read_value(self, address: u32) -> u32 {
        read_value(self.registers@, address)
    }

    pub fn get32_aligned(&self, address: u32) -> (r: u32)
        requires
            self.wf(),
            PIO_CONTROLLER_BEGIN <= address <= PIO_CONTROLLER_LAST,
            address % 4 == 0,
        ensures
            r == self.read_value(address),
    {
        let index = ((address - PIO_CONTROLLER_BEGIN) / 4) as usize;
        let register = self.registers[index];
        match register.kind {
            Kind::SetBits | Kind::ClearBits | Kind::Reserved | Kind::Unsupported => 0,
            Kind::ReadOnly | Kind::ReadWrite => register.value,
        }
    }

    /// The registers after writing `value` at `address`.
    pub open spec fn registers_after_write(self, address: u32, value: u32) -> Seq<Register> {
        registers_after_write(self.registers@, address, value)
    }

    /// Whether writing at `address` is supported.
    pub open spec fn write_supported(self, address: u32) -> bool {
        write_supported(self.registers@, address)
    }

    /// Whether writing at `address` is supported (see `write_supported`).
    pub fn supports_write(&self, address: u32) -> (r: bool)
        requires
            self.wf(),
            PIO_CONTROLLER_BEGIN <= address <= PIO_CONTROLLER_LAST,
            address % 4 == 0,
        ensures
            r == self.write_supported(address),
    {
        let index = ((address - PIO_CONTROLLER_BEGIN) / 4) as usize;
        self.registers[index].kind != Kind::Unsupported
    }

    /// Writes `value` at the supported register `address` (see `supports_write`). If this
    /// changes the state of at least one output pin, the PIO device is notified of the new pin
    /// states.
    pub fn set32_aligned(&mut self, address: u32, value: u32) -> (r: Result<(), Fault>)
        requires
            old(self).wf(),
            old(self).pio_device.pio_inv(),
            PIO_CONTROLLER_BEGIN <= address <= PIO_CONTROLLER_LAST,
            address % 4 == 0,
            old(self).write_supported(address),
        ensures
            final(self).wf(),
            final(self).pio_device.pio_inv(),
            r == (if old(self).write_supported(address) {
                Ok(())
            } else {
                Err(Fault::UnsupportedRegister(address))
            }),
            final(self).registers@ == (if r is Ok {
                old(self).registers_after_write(address, value)
            } else {
                old(self).registers@
            }),
            final(self).pio_device == (if r is Ok && final(self).pins() != old(self).pins() {
                old(self).pio_device.pio_next(final(self).pins())
            } else {
                old(self).pio_device
            }),
    {
        let index = ((address - PIO_CONTROLLER_BEGIN) / 4) as usize;
        if self.registers[index].kind == Kind::Unsupported {
            return Err(Fault::UnsupportedRegister(address));
        }
        let old_outputs = self.get_all_controller_outputs();
        self.write_register(address, index, value);
        let new_outputs = self.get_all_controller_outputs();
        let changed = new_outputs[0] != old_outputs[0] || new_outputs[1] != old_outputs[1]
            || new_outputs[2] != old_outputs[2] || new_outputs[3] != old_outputs[3];
        proof {
            if !changed {
                assert(new_outputs@ =~= old_outputs@);
            }
        }
        if changed {
            self.pio_device.pio_state_changed(&new_outputs);
        }
        Ok(())
    }

    /// The target of a set or clear register is a read-only status register of the same
    /// controller.
    proof fn lemma_target_is_read_only(index: int)
        requires
            0 <= index < 512,
            ({
                let kind = register_layout(index % 128).0;
                kind == Kind::SetBits || kind == Kind::ClearBits
            }),
        ensures
            ({
                let target = index - index % 128 + register_layout(index % 128).1;
                &&& 0 <= target < 512
                &&& target % 128 == register_layout(index % 128).1
                &&& register_layout(target % 128).0 == Kind::ReadOnly
            }),
    {
        let offset = index % 128;
        let target = index - offset + register_layout(offset).1;
        assert((index - offset) % 128 == 0);
        assert(target % 128 == register_layout(offset).1);
    }

    /// Writes `value` to the supported register of index `index`.
    fn write_register(&mut self, address: u32, index: usize, value: u32)
        requires
            old(self).wf(),
            index < 512,
            index == register_index(address),
            old(self).registers@[index as int].kind != Kind::Unsupported,
        ensures
            final(self).wf(),
            final(self).registers@ == old(self).registers_after_write(address, value),
            final(self).pio_device == old(self).pio_device,
    {
        let register = self.registers[index];
        assert(register == layout_register(index as int, register.value));
        let target = register.value as usize;
        match register.kind {
            Kind::SetBits => {
                proof {
                    Self::lemma_target_is_read_only(index as int);
                }
                let mut target_register = self.registers[target];
                assert(target_register == layout_register(target as int, target_register.value));
                target_register.value = target_register.value | value;
                self.registers.set(target, target_register);
            },
            Kind::ClearBits => {
                proof {
                    Self::lemma_target_is_read_only(index as int);
                }
                let mut target_register = self.registers[target];
                assert(target_register == layout_register(target as int, target_register.value));
                target_register.value = target_register.value & !value;
                self.registers.set(target, target_register);
            },
            Kind::ReadWrite => {
                self.registers.set(index, Register { kind: register.kind, value });
            },
            _ => {},
        }
        proof {
            assert forall|i: int| 0 <= i < self.registers@.len() implies #[trigger] self.registers@[i]
                == layout_register(i, self.registers@[i].value) by {
                assert(old(self).registers@[i] == layout_register(i, old(self).registers@[i].value));
            }
        }
    }

    /// The pin outputs of the four controllers.
    fn get_all_controller_outputs(&self) -> (r: [u32; 4])
        requires
            self.wf(),
        ensures
            r@ == seq![
                self.controller_outputs(0),
                self.controller_outputs(1),
                self.controller_outputs(2),
                self.controller_outputs(3),
            ],
    {
        let r = [
            self.get_controller_outputs(0),
            self.get_controller_outputs(1),
            self.get_controller_outputs(2),
            self.get_controller_outputs(3),
        ];
        assert(r@ =~= seq![
            self.controller_outputs(0),
            self.controller_outputs(1),
            self.controller_outputs(2),
            self.controller_outputs(3),
        ]);
        r
    }

    pub fn get_pin_output(&self, controller: Controller, pin: u32) -> (r: bool)
        requires
            self.wf(),
            pin < 32,
        ensures
            r == (self.controller_outputs(controller_index(controller) as int) & (1u32 << pin)
                != 0),
    {
        let index = match controller {
            Controller::PA => 0,
            Controller::PB => 1,
            Controller::PC => 2,
            Controller::PD => 3,
        };
        self.get_controller_outputs(index) & (1u32 << pin) != 0
    }

    /// Whether the SPI output pins are enabled. SPI pins are controlled with bits 25, 26, 27 and
    /// 28 of PIOA controller, peripheral A (See Section 9.3.1 PIO Controller A Multiplexing, Table
    /// 9-2). For all these pins, peripheral A must be selected and enabled, and the pull-up must be
    /// enabled.
    pub open spec fn spi_pins_enabled(self) -> bool {
        spi_pins_enabled(self.registers@)
    }

    pub fn spi_output_pins_enabled(&self) -> (r: bool)
        requires
            self.wf(),
        ensures
            r == self.spi_pins_enabled(),
    {
        let spi_bits: u32 = 0x1E000000;
        (self.registers[AB_SELECT_REGISTER_INDEX].value & spi_bits == 0) && (
        self.registers[PIO_STATUS_REGISTER_INDEX].value & spi_bits == 0) && (
        self.registers[PULL_UP_STATUS_REGISTER_INDEX].value & spi_bits == 0)
    }

    /// Whether the USART0 input pins are enabled. USART0 input pins are controlled with bits 10
    /// (RXD line) and 17 (CLOCK line) of the PIOA controller (See Section 9.3.1 PIO Controller A
    /// Multiplexing, Table 9-2). These two pins must be configured as input, with a pull-up
    /// enabled.
    pub open spec fn usart_pins_enabled(self) -> bool {
        usart_pins_enabled(self.registers@)
    }

    pub fn usart_input_pins_enabled(&self) -> (r: bool)
        requires
            self.wf(),
        ensures
            r == self.usart_pins_enabled(),
    {
        let usart0_bits: u32 = 0x20400;
        (self.registers[PIO_STATUS_REGISTER_INDEX].value
            & self.registers[OUTPUT_STATUS_REGISTER_INDEX].value & usart0_bits == 0) && (
        self.registers[PULL_UP_STATUS_REGISTER_INDEX].value & usart0_bits == 0)
    }

    fn get_controller_outputs(&self, controller: usize) -> (r: u32)
        requires
            self.wf(),
            controller < 4,
        ensures
            r == self.controller_outputs(controller as int),
    {
        let output_status = self.get_register_value(controller, OUTPUT_STATUS_REGISTER_INDEX);
        let pio_status = self.get_register_value(controller, PIO_STATUS_REGISTER_INDEX);
        let data = self.get_register_value(controller, OUTPUT_DATA_STATUS_REGISTER_INDEX);
        let pullup = self.get_register_value(controller, PULL_UP_STATUS_REGISTER_INDEX);
        (output_status & pio_status & data) | (!output_status & !pullup)
    }

    fn get_register_value(&self, controller: usize, base_register: usize) -> (r: u32)
        requires
            self.wf(),
            controller < 4,
            base_register < 128,
        ensures
            r == self.register_value(controller as int, base_register as int),
    {
        self.registers[controller * REGISTER_COUNT_BY_CONTROLLER + base_register].value
    }

    pub fn reset(&mut self)
        requires
            old(self).wf(),
        ensures
            final(self).wf(),
            final(self).registers@ == registers_after_reset(old(self).registers@),
            final(self).pio_device == old(self).pio_device,
    {
        let n = self.registers.len();
        let mut i: usize = 0;
        while i < n
            invariant
                n == 512,
                self.registers@.len() == 512,
                self.pio_device == old(self).pio_device,
                forall|j: int|
                    0 <= j < 512 ==> #[trigger] self.registers@[j] == if j < i {
                        let r = old(self).registers@[j];
                        if r.kind == Kind::ReadOnly || r.kind == Kind::ReadWrite {
                            Register { value: 0, ..r }
                        } else {
                            r
                        }
                    } else {
                        old(self).registers@[j]
                    },
            decreases n - i,
        {
            let mut register = self.registers[i];
            if register.kind == Kind::ReadOnly || register.kind == Kind::ReadWrite {
                register.value = 0;
            }
            self.registers.set(i, register);
            i = i + 1;
        }
        self.set_register_value(0, PIO_STATUS_REGISTER_INDEX, 0xFFFFFFFF);
        self.set_register_value(1, PIO_STATUS_REGISTER_INDEX, 0x0FFFFFFF);
        self.set_register_value(2, PIO_STATUS_REGISTER_INDEX, 0x7FFFFFFE);
        self.set_register_value(3, PIO_STATUS_REGISTER_INDEX, 0x7FFFFFFF);
        proof {
            assert forall|i: int| 0 <= i < 512 implies #[trigger] self.registers@[i] == layout_register(
                i,
                self.registers@[i].value,
            ) by {
                assert(old(self).registers@[i] == layout_register(i, old(self).registers@[i].value));
            }
            assert(self.registers@ =~= registers_after_reset(old(self).registers@));
        }
    }

    fn set_register_value(&mut self, controller: usize, base_register: usize, value: u32)
        requires
            old(self).registers@.len() == 512,
            controller < 4,
            base_register < 128,
        ensures
            final(self).registers@ == old(self).registers@.update(
                controller * 128 + base_register,
                Register {
                    value,
                    ..old(self).registers@[controller * 128 + base_register]
                },
            ),
            final(self).pio_device == old(self).pio_device,
    {
        let index = controller * REGISTER_COUNT_BY_CONTROLLER + base_register;
        let mut register = self.registers[index];
        register.value = value;
        self.registers.set(index, register);
    }
}

} // verus!
