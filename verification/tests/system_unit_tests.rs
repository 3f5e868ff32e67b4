use emulator::system::{SystemControlBlock, SYSTEM_HANDLER_PRIORITY_REGISTER2, VECTOR_TABLE_OFFSET_REGISTER};

#[test]
fn system_get32_aligned() {
    let system = SystemControlBlock::new();

    assert_eq!(system.get32_aligned(VECTOR_TABLE_OFFSET_REGISTER).unwrap(), 0);
    assert_eq!(system.get32_aligned(SYSTEM_HANDLER_PRIORITY_REGISTER2).unwrap(), 0);
}

#[test]
fn system_set32_aligned() {
    let mut system = SystemControlBlock::new();

    system.set32_aligned(VECTOR_TABLE_OFFSET_REGISTER, 0xFFFF).unwrap();
    system.set32_aligned(SYSTEM_HANDLER_PRIORITY_REGISTER2, 0xABCDEF01).unwrap();

    assert_eq!(system.get32_aligned(VECTOR_TABLE_OFFSET_REGISTER).unwrap(), 0xFF80);
    assert_eq!(
        system.get32_aligned(SYSTEM_HANDLER_PRIORITY_REGISTER2).unwrap(),
        0xAB000000
    );
    assert_eq!(system.vector_table_offset, 0xFF80);
    assert_eq!(system.svc_priority, 0xAB);
}

#[test]
fn system_reset() {
    let mut system = SystemControlBlock::new();

    system.set32_aligned(VECTOR_TABLE_OFFSET_REGISTER, 0xFFFF).unwrap();
    system.set32_aligned(SYSTEM_HANDLER_PRIORITY_REGISTER2, 0xFF000000).unwrap();
    system.reset();

    assert_eq!(system.get32_aligned(VECTOR_TABLE_OFFSET_REGISTER).unwrap(), 0);
    assert_eq!(system.get32_aligned(SYSTEM_HANDLER_PRIORITY_REGISTER2).unwrap(), 0);
}
