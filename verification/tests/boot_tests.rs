use emulator::boot::BootMonitor;
use emulator::bus::BusMatrix;

#[test]
fn parse_input_get_version() {
    let mut monitor = BootMonitor::new();
    let mut bus_matrix = BusMatrix::default();

    let result = monitor.parse_input("V#\n", &mut bus_matrix).unwrap();

    assert_eq!(result, Option::None);
    assert_eq!(monitor.get_output(), "v1.1 Dec 15 2010 19:25:04\n>");
}

#[test]
fn parse_input_get_version_extra_characters() {
    let mut monitor = BootMonitor::new();
    let mut bus_matrix = BusMatrix::default();

    let result = monitor.parse_input("V0Ab#\n", &mut bus_matrix).unwrap();

    assert_eq!(result, Option::None);
    assert_eq!(monitor.get_output(), "v1.1 Dec 15 2010 19:25:04\n>");
}

#[test]
fn parse_input_get_version_unsupported_extra_characters() {
    let mut monitor = BootMonitor::new();
    let mut bus_matrix = BusMatrix::default();

    let result = monitor.parse_input("Vz#\n", &mut bus_matrix).unwrap();

    assert_eq!(result, Option::None);
    assert_eq!(monitor.get_output(), "\n>");
}

#[test]
fn parse_input_command_character_inside_command_overrides_previous_one() {
    let mut monitor = BootMonitor::new();
    let mut bus_matrix = BusMatrix::default();

    let result = monitor.parse_input("w20070000V#\n", &mut bus_matrix).unwrap();

    assert_eq!(result, Option::None);
    assert_eq!(monitor.get_output(), "v1.1 Dec 15 2010 19:25:04\n>");
}

#[test]
fn parse_input_read_byte() {
    let mut monitor = BootMonitor::new();
    let mut bus_matrix = BusMatrix::default();
    bus_matrix.set32(0x20071000, 0x11223344).unwrap();

    let result = monitor.parse_input("o20071001,#\n", &mut bus_matrix).unwrap();

    assert_eq!(result, Option::None);
    assert_eq!(monitor.get_output(), "0x33\n>");
}

#[test]
fn parse_input_write_byte() {
    let mut monitor = BootMonitor::new();
    let mut bus_matrix = BusMatrix::default();
    bus_matrix.set32(0x20071000, 0x11223344).unwrap();

    let result = monitor.parse_input("O20071001,AA#", &mut bus_matrix).unwrap();

    assert_eq!(result, Option::None);
    assert_eq!(monitor.get_output(), "\n>");
    assert_eq!(bus_matrix.get32(0x20071000).unwrap(), 0x1122AA44);
}

#[test]
fn parse_input_write_byte_value_overflow() {
    let mut monitor = BootMonitor::new();
    let mut bus_matrix = BusMatrix::default();
    bus_matrix.set32(0x20071000, 0x11223344).unwrap();

    let result = monitor.parse_input("O20071001,BBAA#", &mut bus_matrix).unwrap();

    assert_eq!(result, Option::None);
    assert_eq!(monitor.get_output(), "\n>");
    assert_eq!(bus_matrix.get32(0x20071000).unwrap(), 0x1122AA44);
}

#[test]
fn parse_input_read_half_word() {
    let mut monitor = BootMonitor::new();
    let mut bus_matrix = BusMatrix::default();
    bus_matrix.set32(0x20071000, 0x11223344).unwrap();

    let result = monitor.parse_input("h20071001,#\n", &mut bus_matrix).unwrap();

    assert_eq!(result, Option::None);
    assert_eq!(monitor.get_output(), "0x2233\n>");
}

#[test]
fn parse_input_write_half_word() {
    let mut monitor = BootMonitor::new();
    let mut bus_matrix = BusMatrix::default();
    bus_matrix.set32(0x20071000, 0x11223344).unwrap();

    let result = monitor.parse_input("H20071001,AABB#", &mut bus_matrix).unwrap();

    assert_eq!(result, Option::None);
    assert_eq!(monitor.get_output(), "\n>");
    assert_eq!(bus_matrix.get32(0x20071000).unwrap(), 0x11AABB44);
}

#[test]
fn parse_input_write_half_word_overflow() {
    let mut monitor = BootMonitor::new();
    let mut bus_matrix = BusMatrix::default();
    bus_matrix.set32(0x20071000, 0x11223344).unwrap();

    let result = monitor.parse_input("H20071001,AABBCC#", &mut bus_matrix).unwrap();

    assert_eq!(result, Option::None);
    assert_eq!(monitor.get_output(), "\n>");
    assert_eq!(bus_matrix.get32(0x20071000).unwrap(), 0x11BBCC44);
}

#[test]
fn parse_input_read_word() {
    let mut monitor = BootMonitor::new();
    let mut bus_matrix = BusMatrix::default();
    bus_matrix.set32(0x2007A000, 0x0000CAFE).unwrap();

    let result = monitor.parse_input("w2007\na000,#\n", &mut bus_matrix).unwrap();

    assert_eq!(result, Option::None);
    assert_eq!(monitor.get_output(), "0x0000CAFE\n>");
}

#[test]
fn parse_input_read_word_address_overflow() {
    let mut monitor = BootMonitor::new();
    let mut bus_matrix = BusMatrix::default();
    bus_matrix.set32(0x2007A000, 0x0000CAFE).unwrap();

    let result = monitor.parse_input("wF2007A000,#\n", &mut bus_matrix).unwrap();

    assert_eq!(result, Option::None);
    assert_eq!(monitor.get_output(), "0x0000CAFE\n>");
}

#[test]
fn parse_input_read_word_multiple_addresses() {
    let mut monitor = BootMonitor::new();
    let mut bus_matrix = BusMatrix::default();
    bus_matrix.set32(0x2007A000, 0x0000CAFE).unwrap();
    bus_matrix.set32(0x2007A004, 0x0000DECA).unwrap();

    let result = monitor.parse_input("w2007a000,2007a004,#\n", &mut bus_matrix).unwrap();

    assert_eq!(result, Option::None);
    assert_eq!(monitor.get_output(), "0x0000DECA\n>");
}

#[test]
fn parse_input_read_word_without_address_uses_previous_address() {
    let mut monitor = BootMonitor::new();
    let mut bus_matrix = BusMatrix::default();
    bus_matrix.set32(0x2007A000, 0x0000CAFE).unwrap();

    let result1 = monitor.parse_input("w2007a000,#\n", &mut bus_matrix).unwrap();
    let result2 = monitor.parse_input("w#\n", &mut bus_matrix).unwrap();

    assert_eq!(result1, Option::None);
    assert_eq!(result2, Option::None);
    assert_eq!(monitor.get_output(), "0x0000CAFE\n>0x0000CAFE\n>");
}

#[test]
fn parse_input_read_word_address_computed_at_comma() {
    let mut monitor = BootMonitor::new();
    let mut bus_matrix = BusMatrix::default();
    bus_matrix.set32(0x2007A000, 0x0000CAFE).unwrap();
    bus_matrix.set32(0x2007A004, 0x0000DECA).unwrap();

    let result1 = monitor.parse_input("w2007a000,#\n", &mut bus_matrix).unwrap();
    let result2 = monitor.parse_input("w2007a004#\n", &mut bus_matrix).unwrap();

    assert_eq!(result1, Option::None);
    assert_eq!(result2, Option::None);
    assert_eq!(monitor.get_output(), "0x0000CAFE\n>0x0000CAFE\n>");
}

#[test]
fn parse_input_read_word_value_ignored() {
    let mut monitor = BootMonitor::new();
    let mut bus_matrix = BusMatrix::default();
    bus_matrix.set32(0x2007A000, 0x0000CAFE).unwrap();

    let result = monitor.parse_input("w2007A000,DECA#\n", &mut bus_matrix).unwrap();

    assert_eq!(result, Option::None);
    assert_eq!(monitor.get_output(), "0x0000CAFE\n>");
}

#[test]
fn parse_input_write_word() {
    let mut monitor = BootMonitor::new();
    let mut bus_matrix = BusMatrix::default();

    let result = monitor.parse_input("W20071000,0000CAFE#", &mut bus_matrix).unwrap();

    assert_eq!(result, Option::None);
    assert_eq!(monitor.get_output(), "\n>");
    assert_eq!(bus_matrix.get32(0x20071000).unwrap(), 0x0000CAFE);
}

#[test]
fn parse_input_write_word_value_overflow() {
    let mut monitor = BootMonitor::new();
    let mut bus_matrix = BusMatrix::default();

    let result = monitor.parse_input("W20071000,DECAF0000CAFE#", &mut bus_matrix).unwrap();

    assert_eq!(result, Option::None);
    assert_eq!(monitor.get_output(), "\n>");
    assert_eq!(bus_matrix.get32(0x20071000).unwrap(), 0x0000CAFE);
}

#[test]
fn parse_input_write_word_multiple_addresses() {
    let mut monitor = BootMonitor::new();
    let mut bus_matrix = BusMatrix::default();
    bus_matrix.set32(0x20071000, 0x0000DECA).unwrap();

    let result = monitor.parse_input("W20071000,20071004,0000CAFE#", &mut bus_matrix).unwrap();

    assert_eq!(result, Option::None);
    assert_eq!(monitor.get_output(), "\n>");
    assert_eq!(bus_matrix.get32(0x20071000).unwrap(), 0x0000DECA);
    assert_eq!(bus_matrix.get32(0x20071004).unwrap(), 0x0000CAFE);
}

#[test]
fn parse_input_write_word_without_address_uses_previous_address() {
    let mut monitor = BootMonitor::new();
    let mut bus_matrix = BusMatrix::default();
    bus_matrix.set32(0x20071000, 0x0000DECA).unwrap();

    let result1 = monitor.parse_input("w20071000,#", &mut bus_matrix).unwrap();
    let result2 = monitor.parse_input("W0000CAFE#", &mut bus_matrix).unwrap();

    assert_eq!(result1, Option::None);
    assert_eq!(result2, Option::None);
    assert_eq!(monitor.get_output(), "0x0000DECA\n>\n>");
    assert_eq!(bus_matrix.get32(0x20071000).unwrap(), 0x0000CAFE);
}

#[test]
fn parse_input_write_word_without_value_uses_zero_value() {
    let mut monitor = BootMonitor::new();
    let mut bus_matrix = BusMatrix::default();
    bus_matrix.set32(0x20071000, 0x0000DECA).unwrap();

    let result = monitor.parse_input("W20071000,#", &mut bus_matrix).unwrap();

    assert_eq!(result, Option::None);
    assert_eq!(monitor.get_output(), "\n>");
    assert_eq!(bus_matrix.get32(0x20071000).unwrap(), 0);
}

#[test]
fn parse_input_go() {
    let mut monitor = BootMonitor::new();
    let mut bus_matrix = BusMatrix::default();

    let result = monitor.parse_input("G20071000#", &mut bus_matrix).unwrap();

    assert_eq!(result, Option::Some(0x20071000));
    assert_eq!(monitor.get_output(), "");
}

#[test]
fn parse_input_buffer_input() {
    let mut monitor = BootMonitor::new();
    let mut bus_matrix = BusMatrix::default();

    let result1 = monitor.parse_input("G20071000#G20072000#", &mut bus_matrix).unwrap();
    let result2 = monitor.parse_input("", &mut bus_matrix).unwrap();

    assert_eq!(result1, Option::Some(0x20071000));
    assert_eq!(result2, Option::Some(0x20072000));
    assert_eq!(monitor.get_output(), "");
}

#[test]
fn parse_input_empty_command() {
    let mut monitor = BootMonitor::new();
    let mut bus_matrix = BusMatrix::default();
    bus_matrix.set32(0x2007A000, 0x0000CAFE).unwrap();

    let result1 = monitor.parse_input("w2007a000,#\n", &mut bus_matrix).unwrap();
    let result2 = monitor.parse_input("#\n", &mut bus_matrix).unwrap();

    assert_eq!(result1, Option::None);
    assert_eq!(result2, Option::None);
    assert_eq!(monitor.get_output(), "0x0000CAFE\n>\n>");
}

#[test]
fn get_output() {
    let mut monitor = BootMonitor::new();

    monitor.write_prompt();
    let output = monitor.get_output();

    assert_eq!(output, "\n>");
}

#[test]
fn get_output_interleaved() {
    let mut monitor = BootMonitor::new();
    let mut bus_matrix = BusMatrix::default();
    bus_matrix.set32(0x20070000, 0x0000CAFE).unwrap();
    bus_matrix.set32(0x20070004, 0xDECA0000).unwrap();

    let result1 = monitor.parse_input("w20070000,#\n", &mut bus_matrix).unwrap();
    let output1 = monitor.get_output();
    let result2 = monitor.parse_input("w20070004,#\n", &mut bus_matrix).unwrap();
    let output2 = monitor.get_output();

    assert_eq!(result1, Option::None);
    assert_eq!(output1, "0x0000CAFE\n>");
    assert_eq!(result2, Option::None);
    assert_eq!(output2, "0xDECA0000\n>");
}
