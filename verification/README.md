# emulator

An emulator of an Arduino Due (an Atmel SAM3X8E micro-controller with an ARM Cortex-M3 core)
connected to a TFT screen (through an RA8875 graphics card) and to a PS/2 keyboard, whose
behaviour is specified and proved with Verus.

## Layout

- `src/` is the verified library:
  - `arm.rs`: the decoding of the supported Thumb instructions;
  - `cpu.rs`, `chip.rs`: the processor state, the execution of instructions, exceptions, and the
    micro-controller (its boot program, its flash memory and its peripherals);
  - `bus.rs`, `memory.rs`, `mpu.rs`: the bus matrix, the memories and the memory protection unit;
  - `flash.rs`, `pio.rs`, `spi.rs`, `usart.rs`, `power.rs`, `reset.rs`, `watchdog.rs`,
    `backup.rs`, `time.rs`, `interrupt.rs`, `system.rs`: the peripherals;
  - `boot.rs`: the SAM-BA boot program, which reads and writes memory through the serial port;
  - `gpu.rs`: the graphics card and a text display; `keyboard.rs`: the PS/2 scan codes;
  - `boot_helper.rs`, `flash_helper.rs`, `text.rs`: helpers which send commands to the boot
    program, and write programs in the flash memory;
  - `arduino.rs`: when the web page stops the emulated program to let the host act (a time
    slice ends, or a scan code was read).
- `tests/` holds the tests of the library.
- `app/` holds what talks to the outside world: the WebAssembly interface of the web page which
  shows the emulated board, and the reading of flash helper commands from a file.

Each operation states its result over a mathematical model of the state (for instance
`ChipState`, `BusState`, `MonitorState`). The bus and the peripherals require the accesses they
perform to be supported, and offer checks (`BusMatrix::read_fault`, `BusMatrix::write_fault`,
`check_write`, `supports_read`); the emulation of a program checks them, and a fault of the
emulated program or of an unsupported feature returns a `Fault` instead of stopping the host
program.
