use emulator::keyboard::Keyboard;

#[test]
fn key_pressed() {
    let keyboard = Keyboard::default();

    assert_eq!(keyboard.key_pressed("A"), [0x1C]);
}

#[test]
fn key_released() {
    let keyboard = Keyboard::default();

    assert_eq!(keyboard.key_released("A"), [0xF0, 0x1C]);
}

#[test]
fn unknown_key_has_no_scancodes() {
    let keyboard = Keyboard::new();

    assert!(keyboard.key_pressed("Unknown").is_empty());
    assert!(keyboard.key_released("a").is_empty());
    assert!(keyboard.key_pressed("").is_empty());
}

#[test]
fn extended_keys_have_two_byte_scancodes() {
    let keyboard = Keyboard::new();

    assert_eq!(keyboard.key_pressed("ArrowUp"), [0xE0, 0x75]);
    assert_eq!(keyboard.key_released("ArrowUp"), [0xE0, 0xF0, 0x75]);
    assert_eq!(keyboard.key_pressed("\\"), [0x5D]);
    assert_eq!(keyboard.key_pressed(" "), [0x29]);
}

#[test]
fn released_scancodes_are_break_codes() {
    let keyboard = Keyboard::new();
    let keys = [
        "0", "9", "A", "Z", "Backspace", "Enter", "Shift", "Control", "Alt", "F1", "F12",
        "ArrowDown", "ArrowLeft", "ArrowRight", "ArrowUp", "Delete", "End", "Home", "Insert",
        "PageDown", "PageUp", "`", "-", "=", "[", "]", ";", "'", ",", ".", "/", " ",
    ];
    for key in keys {
        let pressed = keyboard.key_pressed(key);
        let released = keyboard.key_released(key);
        assert!(!pressed.is_empty(), "{key}");
        if pressed[0] == 0xE0 {
            assert_eq!(released[..2], [0xE0, 0xF0], "{key}");
            assert_eq!(released[2..], pressed[1..], "{key}");
        } else {
            assert_eq!(released[0], 0xF0, "{key}");
            assert_eq!(released[1..], pressed[..], "{key}");
        }
    }
}

#[test]
fn pause_has_a_make_code_and_no_break_code() {
    let keyboard = Keyboard::new();

    assert_eq!(keyboard.key_pressed("Pause"), [0xE1, 0x14, 0x77, 0xE1, 0xF0, 0x14, 0xF0, 0x77]);
    assert!(keyboard.key_released("Pause").is_empty());
}
