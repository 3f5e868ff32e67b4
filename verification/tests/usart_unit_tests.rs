use emulator::usart::{UniversalReceiverTransmitter, CHANNEL_STATUS_REGISTER, CONTROL_REGISTER, INTERRUPT_DISABLE_REGISTER, INTERRUPT_ENABLE_REGISTER, INTERRUPT_MASK_REGISTER, MODE_BITS, MODE_REGISTER, OVERRUN_ERROR, RECEIVER_DISABLE, RECEIVER_ENABLE, RECEIVER_READY, RECEIVER_READY_INTERRUPT, RECEIVE_HOLDING_REGISTER, RESET_BITS, RESET_RECEIVER, RESET_STATUS, RESET_TRANSMITTER, TRANSMITTER_DISABLE, TRANSMITTER_ENABLE, TRANSMITTER_READY, TRANSMIT_HOLDING_REGISTER};

#[test]
fn usart_get32_aligned() {
    let mut usart = UniversalReceiverTransmitter::new();
    usart.mode = 123;
    usart.interrupt_mask = 456;
    usart.channel_status = 789;
    usart.receive_holding = 0xAB;
    usart.transmit_holding = 0xCD;

    assert_eq!(usart.get32_aligned(CONTROL_REGISTER).unwrap(), 0);
    assert_eq!(usart.get32_aligned(MODE_REGISTER).unwrap(), 123);
    assert_eq!(usart.get32_aligned(INTERRUPT_ENABLE_REGISTER).unwrap(), 0);
    assert_eq!(usart.get32_aligned(INTERRUPT_DISABLE_REGISTER).unwrap(), 0);
    assert_eq!(usart.get32_aligned(INTERRUPT_MASK_REGISTER).unwrap(), 456);
    assert_eq!(usart.get32_aligned(CHANNEL_STATUS_REGISTER).unwrap(), 789);
    assert_eq!(usart.get32_aligned(RECEIVE_HOLDING_REGISTER).unwrap(), 0xAB);
    assert_eq!(usart.get32_aligned(TRANSMIT_HOLDING_REGISTER).unwrap(), 0);
    // Side effects of the previous read of the RECEIVE_HOLDING_REGISTER.
    assert_eq!(usart.get32_aligned(CHANNEL_STATUS_REGISTER).unwrap(), 788);
    assert_eq!(usart.get32_aligned(RECEIVE_HOLDING_REGISTER).unwrap(), 0);
}

#[test]
fn set32_aligned_control_reset_receiver() {
    let mut usart = UniversalReceiverTransmitter::new();
    usart.receive_holding = 123;
    usart.channel_status = OVERRUN_ERROR | RECEIVER_READY;

    usart.set32_aligned(CONTROL_REGISTER, RESET_RECEIVER).unwrap();

    assert_eq!(usart.receive_holding, 0);
    assert_eq!(usart.channel_status, OVERRUN_ERROR);
}

#[test]
fn set32_aligned_control_reset_transmitter() {
    let mut usart = UniversalReceiverTransmitter::new();
    usart.transmit_holding = 123;
    usart.channel_status = OVERRUN_ERROR | TRANSMITTER_READY;

    usart.set32_aligned(CONTROL_REGISTER, RESET_TRANSMITTER).unwrap();

    assert_eq!(usart.transmit_holding, 0);
    assert_eq!(usart.channel_status, OVERRUN_ERROR);
}

#[test]
fn set32_aligned_control_receiver_enable() {
    let mut usart = UniversalReceiverTransmitter::new();

    usart.set32_aligned(CONTROL_REGISTER, RECEIVER_ENABLE).unwrap();

    assert!(usart.receiver_enabled);
}

#[test]
fn set32_aligned_control_receiver_disable() {
    let mut usart = UniversalReceiverTransmitter::new();
    usart.receiver_enabled = true;

    usart.set32_aligned(CONTROL_REGISTER, RECEIVER_ENABLE | RECEIVER_DISABLE).unwrap();

    assert!(!usart.receiver_enabled);
}

#[test]
fn set32_aligned_control_transmitter_enable() {
    let mut usart = UniversalReceiverTransmitter::new();

    usart.set32_aligned(CONTROL_REGISTER, TRANSMITTER_ENABLE).unwrap();

    assert!(usart.transmitter_enabled);
}

#[test]
fn set32_aligned_control_transmitter_disable() {
    let mut usart = UniversalReceiverTransmitter::new();
    usart.transmitter_enabled = true;

    usart.set32_aligned(CONTROL_REGISTER, TRANSMITTER_ENABLE | TRANSMITTER_DISABLE).unwrap();

    assert!(!usart.transmitter_enabled);
}

#[test]
fn set32_aligned_control_reset_status() {
    let mut usart = UniversalReceiverTransmitter::new();
    usart.channel_status = 0xFF00FFFE;

    usart.set32_aligned(CONTROL_REGISTER, RESET_STATUS).unwrap();

    assert_eq!(usart.channel_status, 0xFF00FFFE & !RESET_BITS);
}

#[test]
fn usart_set32_aligned_mode() {
    let mut usart = UniversalReceiverTransmitter::new();

    usart.set32_aligned(MODE_REGISTER, 0x12345678).unwrap();

    assert_eq!(usart.mode, 0x12345678 & MODE_BITS);
}

#[test]
fn set32_aligned_interrupt_enable() {
    let mut usart = UniversalReceiverTransmitter::new();

    usart.set32_aligned(INTERRUPT_ENABLE_REGISTER, RECEIVER_READY_INTERRUPT).unwrap();

    assert_eq!(usart.interrupt_mask, RECEIVER_READY_INTERRUPT);
}

#[test]
fn set32_aligned_interrupt_disable() {
    let mut usart = UniversalReceiverTransmitter::new();
    usart.interrupt_mask = 0x87654321;

    usart.set32_aligned(INTERRUPT_DISABLE_REGISTER, RECEIVER_READY_INTERRUPT).unwrap();

    assert_eq!(usart.interrupt_mask, 0x87654320);
}

#[test]
fn set32_aligned_interrupt_mask() {
    let mut usart = UniversalReceiverTransmitter::new();
    usart.interrupt_mask = 123;

    usart.set32_aligned(INTERRUPT_MASK_REGISTER, 456).unwrap();

    assert_eq!(usart.interrupt_mask, 123);
}

#[test]
fn set32_aligned_channel_status() {
    let mut usart = UniversalReceiverTransmitter::new();
    usart.channel_status = 123;

    usart.set32_aligned(CHANNEL_STATUS_REGISTER, 456).unwrap();

    assert_eq!(usart.channel_status, 123);
}

#[test]
fn set32_aligned_receive_holding() {
    let mut usart = UniversalReceiverTransmitter::new();
    usart.receive_holding = 123;

    usart.set32_aligned(RECEIVE_HOLDING_REGISTER, 456).unwrap();

    assert_eq!(usart.receive_holding, 123);
}

#[test]
fn set32_aligned_transmit_holding() {
    let mut usart = UniversalReceiverTransmitter::new();
    usart.transmit_holding = 123;

    usart.set32_aligned(TRANSMIT_HOLDING_REGISTER, 456).unwrap();

    assert_eq!(usart.transmit_holding, 456);
}

#[test]
fn data_received_not_enabled() {
    let mut usart = UniversalReceiverTransmitter::new();

    usart.data_received(0xABCD, 0, 0);

    assert_eq!(usart.receive_holding, 0);
    assert_eq!(usart.level_interrupts(), 0);
}

#[test]
fn data_received_unexpected_mode() {
    let mut usart = UniversalReceiverTransmitter::new();
    usart.mode = 0x12FF;
    usart.receiver_enabled = true;

    usart.data_received(0xABCD, 0xFF, 0xFE);

    assert_eq!(usart.receive_holding, 0);
    assert_eq!(usart.level_interrupts(), 0);
}

#[test]
fn data_received_ok() {
    let mut usart = UniversalReceiverTransmitter::new();
    usart.mode = 0x12FE;
    usart.receiver_enabled = true;
    usart.receive_holding = 0x34;

    usart.data_received(0xABCD, 0xFF, 0xFE);

    assert_eq!(usart.receive_holding, 0xCD);
    assert_eq!(usart.channel_status & OVERRUN_ERROR, 0);
    assert_eq!(usart.level_interrupts(), 1 << 17);
}

#[test]
fn data_received_overrun() {
    let mut usart = UniversalReceiverTransmitter::new();
    usart.mode = 0x12FE;
    usart.channel_status = RECEIVER_READY;
    usart.receiver_enabled = true;

    usart.data_received(0xABCD, 0xFF, 0xFE);

    assert_eq!(usart.receive_holding, 0xCD);
    assert_eq!(usart.channel_status & OVERRUN_ERROR, OVERRUN_ERROR);
    assert_eq!(usart.level_interrupts(), 1 << 17);
}

#[test]
fn usart_reset() {
    let mut usart = UniversalReceiverTransmitter::new();
    usart.mode = 123;
    usart.interrupt_mask = 456;
    usart.channel_status = 789;
    usart.receiver_enabled = true;
    usart.receive_holding = 0xAB;
    usart.transmitter_enabled = true;
    usart.transmit_holding = 0xCD;

    usart.reset();

    assert_eq!(usart.mode, 0);
    assert_eq!(usart.interrupt_mask, 0);
    assert_eq!(usart.channel_status, 0);
    assert!(!usart.receiver_enabled);
    assert_eq!(usart.receive_holding, 0);
    assert!(!usart.transmitter_enabled);
    assert_eq!(usart.transmit_holding, 0);
}
