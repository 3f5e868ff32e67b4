use vstd::prelude::*;
use vstd::string::StrSliceExecFns;

verus! {

/// The scan codes (set 2) sent when each key is pressed.
pub open spec fn pressed_scancodes() -> Seq<(Seq<char>, Seq<u8>)> {
    seq![
        ("0"@, seq![0x45u8]),
        ("1"@, seq![0x16u8]),
        ("2"@, seq![0x1Eu8]),
        ("3"@, seq![0x26u8]),
        ("4"@, seq![0x25u8]),
        ("5"@, seq![0x2Eu8]),
        ("6"@, seq![0x36u8]),
        ("7"@, seq![0x3Du8]),
        ("8"@, seq![0x3Eu8]),
        ("9"@, seq![0x46u8]),
        ("A"@, seq![0x1Cu8]),
        ("Backspace"@, seq![0x66u8]),
        ("`"@, seq![0x0Eu8]),
        ("B"@, seq![0x32u8]),
        ("CapsLock"@, seq![0x58u8]),
        ("C"@, seq![0x21u8]),
        ("ArrowDown"@, seq![0xE0u8, 0x72]),
        ("ArrowLeft"@, seq![0xE0u8, 0x6B]),
        ("ArrowRight"@, seq![0xE0u8, 0x74]),
        ("ArrowUp"@, seq![0xE0u8, 0x75]),
        ("Delete"@, seq![0xE0u8, 0x71]),
        ("D"@, seq![0x23u8]),
        ("End"@, seq![0xE0u8, 0x69]),
        ("Enter"@, seq![0x5Au8]),
        ("E"@, seq![0x24u8]),
        ("Escape"@, seq![0x76u8]),
        ("F10"@, seq![0x09u8]),
        ("F11"@, seq![0x78u8]),
        ("F12"@, seq![0x07u8]),
        ("F1"@, seq![0x05u8]),
        ("F2"@, seq![0x06u8]),
        ("F3"@, seq![0x04u8]),
        ("F4"@, seq![0x0Cu8]),
        ("F5"@, seq![0x03u8]),
        ("F6"@, seq![0x0Bu8]),
        ("F7"@, seq![0x83u8]),
        ("F8"@, seq![0x0Au8]),
        ("F9"@, seq![0x01u8]),
        ("F"@, seq![0x2Bu8]),
        ("G"@, seq![0x34u8]),
        ("Home"@, seq![0xE0u8, 0x6C]),
        ("H"@, seq![0x33u8]),
        ("Insert"@, seq![0xE0u8, 0x70]),
        ("I"@, seq![0x43u8]),
        ("J"@, seq![0x3Bu8]),
        ("K"@, seq![0x42u8]),
        ("Alt"@, seq![0x11u8]),
        ("Control"@, seq![0x14u8]),
        ("Shift"@, seq![0x12u8]),
        ("L"@, seq![0x4Bu8]),
        ("M"@, seq![0x3Au8]),
        ("N"@, seq![0x31u8]),
        ("NumLock"@, seq![0x77u8]),
        ("ScrollLock"@, seq![0x7Eu8]),
        ("O"@, seq![0x44u8]),
        ("PageDown"@, seq![0xE0u8, 0x7A]),
        ("PageUp"@, seq![0xE0u8, 0x7D]),
        ("PrintScreen"@, seq![0xE0u8, 0x12, 0xE0, 0x7C]),
        ("P"@, seq![0x4Du8]),
        (","@, seq![0x41u8]),
        ("."@, seq![0x49u8]),
        ("/"@, seq![0x4Au8]),
        (";"@, seq![0x4Cu8]),
        ("-"@, seq![0x4Eu8]),
        ("'"@, seq![0x52u8]),
        ("["@, seq![0x54u8]),
        ("="@, seq![0x55u8]),
        ("]"@, seq![0x5Bu8]),
        ("\\"@, seq![0x5Du8]),
        ("Q"@, seq![0x15u8]),
        ("R"@, seq![0x2Du8]),
        (" "@, seq![0x29u8]),
        ("S"@, seq![0x1Bu8]),
        ("Tab"@, seq![0x0Du8]),
        ("T"@, seq![0x2Cu8]),
        ("U"@, seq![0x3Cu8]),
        ("V"@, seq![0x2Au8]),
        ("W"@, seq![0x1Du8]),
        ("X"@, seq![0x22u8]),
        ("Y"@, seq![0x35u8]),
        ("Z"@, seq![0x1Au8]),
        ("Pause"@, seq![0xE1u8, 0x14, 0x77, 0xE1, 0xF0, 0x14, 0xF0, 0x77]),
    ]
}

/// The scan codes (set 2) sent when each key is released.
pub open spec fn released_scancodes() -> Seq<(Seq<char>, Seq<u8>)> {
    seq![
        ("0"@, seq![0xF0u8, 0x45]),
        ("1"@, seq![0xF0u8, 0x16]),
        ("2"@, seq![0xF0u8, 0x1E]),
        ("3"@, seq![0xF0u8, 0x26]),
        ("4"@, seq![0xF0u8, 0x25]),
        ("5"@, seq![0xF0u8, 0x2E]),
        ("6"@, seq![0xF0u8, 0x36]),
        ("7"@, seq![0xF0u8, 0x3D]),
        ("8"@, seq![0xF0u8, 0x3E]),
        ("9"@, seq![0xF0u8, 0x46]),
        ("A"@, seq![0xF0u8, 0x1C]),
        ("Backspace"@, seq![0xF0u8, 0x66]),
        ("`"@, seq![0xF0u8, 0x0E]),
        ("B"@, seq![0xF0u8, 0x32]),
        ("CapsLock"@, seq![0xF0u8, 0x58]),
        ("C"@, seq![0xF0u8, 0x21]),
        ("ArrowDown"@, seq![0xE0u8, 0xF0, 0x72]),
        ("ArrowLeft"@, seq![0xE0u8, 0xF0, 0x6B]),
        ("ArrowRight"@, seq![0xE0u8, 0xF0, 0x74]),
        ("ArrowUp"@, seq![0xE0u8, 0xF0, 0x75]),
        ("Delete"@, seq![0xE0u8, 0xF0, 0x71]),
        ("D"@, seq![0xF0u8, 0x23]),
        ("End"@, seq![0xE0u8, 0xF0, 0x69]),
        ("Enter"@, seq![0xF0u8, 0x5A]),
        ("E"@, seq![0xF0u8, 0x24]),
        ("Escape"@, seq![0xF0u8, 0x76]),
        ("F10"@, seq![0xF0u8, 0x09]),
        ("F11"@, seq![0xF0u8, 0x78]),
        ("F12"@, seq![0xF0u8, 0x07]),
        ("F1"@, seq![0xF0u8, 0x05]),
        ("F2"@, seq![0xF0u8, 0x06]),
        ("F3"@, seq![0xF0u8, 0x04]),
        ("F4"@, seq![0xF0u8, 0x0C]),
        ("F5"@, seq![0xF0u8, 0x03]),
        ("F6"@, seq![0xF0u8, 0x0B]),
        ("F7"@, seq![0xF0u8, 0x83]),
        ("F8"@, seq![0xF0u8, 0x0A]),
        ("F9"@, seq![0xF0u8, 0x01]),
        ("F"@, seq![0xF0u8, 0x2B]),
        ("G"@, seq![0xF0u8, 0x34]),
        ("Home"@, seq![0xE0u8, 0xF0, 0x6C]),
        ("H"@, seq![0xF0u8, 0x33]),
        ("Insert"@, seq![0xE0u8, 0xF0, 0x70]),
        ("I"@, seq![0xF0u8, 0x43]),
        ("J"@, seq![0xF0u8, 0x3B]),
        ("K"@, seq![0xF0u8, 0x42]),
        ("Alt"@, seq![0xF0u8, 0x11]),
        ("Control"@, seq![0xF0u8, 0x14]),
        ("Shift"@, seq![0xF0u8, 0x12]),
        ("L"@, seq![0xF0u8, 0x4B]),
        ("M"@, seq![0xF0u8, 0x3A]),
        ("N"@, seq![0xF0u8, 0x31]),
        ("NumLock"@, seq![0xF0u8, 0x77]),
        ("ScrollLock"@, seq![0xF0u8, 0x7E]),
        ("O"@, seq![0xF0u8, 0x44]),
        ("PageDown"@, seq![0xE0u8, 0xF0, 0x7A]),
        ("PageUp"@, seq![0xE0u8, 0xF0, 0x7D]),
        ("PrintScreen"@, seq![0xE0u8, 0xF0, 0x7C, 0xE0, 0xF0, 0x12]),
        ("P"@, seq![0xF0u8, 0x4D]),
        (","@, seq![0xF0u8, 0x41]),
        ("."@, seq![0xF0u8, 0x49]),
        ("/"@, seq![0xF0u8, 0x4A]),
        (";"@, seq![0xF0u8, 0x4C]),
        ("-"@, seq![0xF0u8, 0x4E]),
        ("'"@, seq![0xF0u8, 0x52]),
        ("["@, seq![0xF0u8, 0x54]),
        ("="@, seq![0xF0u8, 0x55]),
        ("]"@, seq![0xF0u8, 0x5B]),
        ("\\"@, seq![0xF0u8, 0x5D]),
        ("Q"@, seq![0xF0u8, 0x15]),
        ("R"@, seq![0xF0u8, 0x2D]),
        (" "@, seq![0xF0u8, 0x29]),
        ("S"@, seq![0xF0u8, 0x1B]),
        ("Tab"@, seq![0xF0u8, 0x0D]),
        ("T"@, seq![0xF0u8, 0x2C]),
        ("U"@, seq![0xF0u8, 0x3C]),
        ("V"@, seq![0xF0u8, 0x2A]),
        ("W"@, seq![0xF0u8, 0x1D]),
        ("X"@, seq![0xF0u8, 0x22]),
        ("Y"@, seq![0xF0u8, 0x35]),
        ("Z"@, seq![0xF0u8, 0x1A]),
    ]
}

/// The scan codes sent when a key is released, given those sent when it is pressed (scan code
/// set 2): `F0` before the last byte.
pub open spec fn break_code(codes: Seq<u8>) -> Seq<u8> {
    if codes.len() == 0 {
        codes
    } else {
        codes.drop_last().push(0xF0u8).push(codes.last())
    }
}

/// Whether the entries at `i` of the two tables are for the same key, and the released scan
/// codes are the break code of the pressed ones (but for PrintScreen).
pub open spec fn paired_at(i: int) -> bool {
    &&& pressed_scancodes()[i].0 == released_scancodes()[i].0
    &&& (released_scancodes()[i].0 != "PrintScreen"@ ==> released_scancodes()[i].1
        =~= break_code(pressed_scancodes()[i].1))
}

/// The two tables list the same keys in the same order, the pressed one ending with Pause, and
/// pair the scan codes of each key (but PrintScreen).
#[verifier::rlimit(40)]
proof fn lemma_tables_paired()
    ensures
        pressed_scancodes().len() == 82,
        released_scancodes().len() == 81,
        pressed_scancodes()[81].0 == "Pause"@,
        forall|i: int| 0 <= i < 81 ==> #[trigger] paired_at(i),
{
    assert forall|i: int| 0 <= i < 81 implies #[trigger] paired_at(i) by {
        if i == 0 {
            assert(paired_at(0));
        } else if i == 1 {
            assert(paired_at(1));
        } else if i == 2 {
            assert(paired_at(2));
        } else if i == 3 {
            assert(paired_at(3));
        } else if i == 4 {
            assert(paired_at(4));
        } else if i == 5 {
            assert(paired_at(5));
        } else if i == 6 {
            assert(paired_at(6));
        } else if i == 7 {
            assert(paired_at(7));
        } else if i == 8 {
            assert(paired_at(8));
        } else if i == 9 {
            assert(paired_at(9));
        } else if i == 10 {
            assert(paired_at(10));
        } else if i == 11 {
            assert(paired_at(11));
        } else if i == 12 {
            assert(paired_at(12));
        } else if i == 13 {
            assert(paired_at(13));
        } else if i == 14 {
            assert(paired_at(14));
        } else if i == 15 {
            assert(paired_at(15));
        } else if i == 16 {
            assert(paired_at(16));
        } else if i == 17 {
            assert(paired_at(17));
        } else if i == 18 {
            assert(paired_at(18));
        } else if i == 19 {
            assert(paired_at(19));
        } else if i == 20 {
            assert(paired_at(20));
        } else if i == 21 {
            assert(paired_at(21));
        } else if i == 22 {
            assert(paired_at(22));
        } else if i == 23 {
            assert(paired_at(23));
        } else if i == 24 {
            assert(paired_at(24));
        } else if i == 25 {
            assert(paired_at(25));
        } else if i == 26 {
            assert(paired_at(26));
        } else if i == 27 {
            assert(paired_at(27));
        } else if i == 28 {
            assert(paired_at(28));
        } else if i == 29 {
            assert(paired_at(29));
        } else if i == 30 {
            assert(paired_at(30));
        } else if i == 31 {
            assert(paired_at(31));
        } else if i == 32 {
            assert(paired_at(32));
        } else if i == 33 {
            assert(paired_at(33));
        } else if i == 34 {
            assert(paired_at(34));
        } else if i == 35 {
            assert(paired_at(35));
        } else if i == 36 {
            assert(paired_at(36));
        } else if i == 37 {
            assert(paired_at(37));
        } else if i == 38 {
            assert(paired_at(38));
        } else if i == 39 {
            assert(paired_at(39));
        } else if i == 40 {
            assert(paired_at(40));
        } else if i == 41 {
            assert(paired_at(41));
        } else if i == 42 {
            assert(paired_at(42));
        } else if i == 43 {
            assert(paired_at(43));
        } else if i == 44 {
            assert(paired_at(44));
        } else if i == 45 {
            assert(paired_at(45));
        } else if i == 46 {
            assert(paired_at(46));
        } else if i == 47 {
            assert(paired_at(47));
        } else if i == 48 {
            assert(paired_at(48));
        } else if i == 49 {
            assert(paired_at(49));
        } else if i == 50 {
            assert(paired_at(50));
        } else if i == 51 {
            assert(paired_at(51));
        } else if i == 52 {
            assert(paired_at(52));
        } else if i == 53 {
            assert(paired_at(53));
        } else if i == 54 {
            assert(paired_at(54));
        } else if i == 55 {
            assert(paired_at(55));
        } else if i == 56 {
            assert(paired_at(56));
        } else if i == 57 {
            assert(paired_at(57));
        } else if i == 58 {
            assert(paired_at(58));
        } else if i == 59 {
            assert(paired_at(59));
        } else if i == 60 {
            assert(paired_at(60));
        } else if i == 61 {
            assert(paired_at(61));
        } else if i == 62 {
            assert(paired_at(62));
        } else if i == 63 {
            assert(paired_at(63));
        } else if i == 64 {
            assert(paired_at(64));
        } else if i == 65 {
            assert(paired_at(65));
        } else if i == 66 {
            assert(paired_at(66));
        } else if i == 67 {
            assert(paired_at(67));
        } else if i == 68 {
            assert(paired_at(68));
        } else if i == 69 {
            assert(paired_at(69));
        } else if i == 70 {
            assert(paired_at(70));
        } else if i == 71 {
            assert(paired_at(71));
        } else if i == 72 {
            assert(paired_at(72));
        } else if i == 73 {
            assert(paired_at(73));
        } else if i == 74 {
            assert(paired_at(74));
        } else if i == 75 {
            assert(paired_at(75));
        } else if i == 76 {
            assert(paired_at(76));
        } else if i == 77 {
            assert(paired_at(77));
        } else if i == 78 {
            assert(paired_at(78));
        } else if i == 79 {
            assert(paired_at(79));
        } else {
            assert(paired_at(80));
        }
    }
}

/// Looking a key up in two tables whose entries are paired (see `paired_at`), the released scan
/// codes are the break code of the pressed ones, when the key is not PrintScreen and is not one of
/// the pressed table's extra last entries.
proof fn lemma_paired_lookup(
    pressed: Seq<(Seq<char>, Seq<u8>)>,
    released: Seq<(Seq<char>, Seq<u8>)>,
    key: Seq<char>,
)
    requires
        released.len() <= pressed.len(),
        forall|i: int| 0 <= i < released.len() ==> #[trigger] pressed[i].0 == released[i].0,
        forall|i: int|
            0 <= i < released.len() && released[i].0 != "PrintScreen"@ ==> #[trigger] released[i].1
                == break_code(pressed[i].1),
        forall|i: int| released.len() <= i < pressed.len() ==> #[trigger] pressed[i].0 != key,
        key != "PrintScreen"@,
    ensures
        scancodes_of(released, key) == break_code(scancodes_of(pressed, key)),
    decreases pressed.len(),
{
    if pressed.len() == 0 {
    } else if released.len() == 0 {
        assert(pressed[0].0 != key);
        lemma_paired_lookup(pressed.drop_first(), released, key);
    } else if released[0].0 == key {
        assert(pressed[0].0 == key);
    } else {
        assert(pressed[0].0 != key);
        lemma_paired_lookup(pressed.drop_first(), released.drop_first(), key);
    }
}

/// Releasing a key sends the break code of the scan codes sent when it is pressed (`F0` before
/// their last byte), for every key but PrintScreen (whose release sequence is its own) and Pause
/// (which sends nothing when released); an unknown key sends nothing either way.
pub proof fn lemma_release_is_break_code(key: Seq<char>)
    requires
        key != "PrintScreen"@,
        key != "Pause"@,
    ensures
        scancodes_of(released_scancodes(), key) == break_code(scancodes_of(pressed_scancodes(), key)),
{
    lemma_tables_paired();
    let pressed = pressed_scancodes();
    let released = released_scancodes();
    assert forall|i: int| 0 <= i < released.len() && released[i].0 != "PrintScreen"@ implies #[trigger] released[i].1
        == break_code(pressed[i].1) by {
        assert(paired_at(i));
    }
    assert forall|i: int| 0 <= i < released.len() implies #[trigger] pressed[i].0 == released[i].0 by {
        assert(paired_at(i));
    }
    lemma_paired_lookup(pressed, released, key);
}

/// The number whose base 256 digits are the bytes of `codes` (of at most 8 bytes).
pub open spec fn code_value(codes: Seq<u8>) -> int {
    if codes.len() == 1 {
        codes[0] as int
    } else if codes.len() == 2 {
        codes[0] * 0x100 + codes[1]
    } else if codes.len() == 4 {
        ((codes[0] * 0x100 + codes[1]) * 0x100 + codes[2]) * 0x100 + codes[3]
    } else if codes.len() == 8 {
        ((((((codes[0] * 0x100 + codes[1]) * 0x100 + codes[2]) * 0x100 + codes[3]) * 0x100
            + codes[4]) * 0x100 + codes[5]) * 0x100 + codes[6]) * 0x100 + codes[7]
    } else {
        -1
    }
}

/// The index, in the table of make codes, of the make code of number `v` (-1 if none).
pub open spec fn make_code_index(v: int) -> int {
    if v == 69 {
        0
    } else if v == 22 {
        1
    } else if v == 30 {
        2
    } else if v == 38 {
        3
    } else if v == 37 {
        4
    } else if v == 46 {
        5
    } else if v == 54 {
        6
    } else if v == 61 {
        7
    } else if v == 62 {
        8
    } else if v == 70 {
        9
    } else if v == 28 {
        10
    } else if v == 102 {
        11
    } else if v == 14 {
        12
    } else if v == 50 {
        13
    } else if v == 88 {
        14
    } else if v == 33 {
        15
    } else if v == 57458 {
        16
    } else if v == 57451 {
        17
    } else if v == 57460 {
        18
    } else if v == 57461 {
        19
    } else if v == 57457 {
        20
    } else if v == 35 {
        21
    } else if v == 57449 {
        22
    } else if v == 90 {
        23
    } else if v == 36 {
        24
    } else if v == 118 {
        25
    } else if v == 9 {
        26
    } else if v == 120 {
        27
    } else if v == 7 {
        28
    } else if v == 5 {
        29
    } else if v == 6 {
        30
    } else if v == 4 {
        31
    } else if v == 12 {
        32
    } else if v == 3 {
        33
    } else if v == 11 {
        34
    } else if v == 131 {
        35
    } else if v == 10 {
        36
    } else if v == 1 {
        37
    } else if v == 43 {
        38
    } else if v == 52 {
        39
    } else if v == 57452 {
        40
    } else if v == 51 {
        41
    } else if v == 57456 {
        42
    } else if v == 67 {
        43
    } else if v == 59 {
        44
    } else if v == 66 {
        45
    } else if v == 17 {
        46
    } else if v == 20 {
        47
    } else if v == 18 {
        48
    } else if v == 75 {
        49
    } else if v == 58 {
        50
    } else if v == 49 {
        51
    } else if v == 119 {
        52
    } else if v == 126 {
        53
    } else if v == 68 {
        54
    } else if v == 57466 {
        55
    } else if v == 57469 {
        56
    } else if v == 3759333500 {
        57
    } else if v == 77 {
        58
    } else if v == 65 {
        59
    } else if v == 73 {
        60
    } else if v == 74 {
        61
    } else if v == 76 {
        62
    } else if v == 78 {
        63
    } else if v == 82 {
        64
    } else if v == 84 {
        65
    } else if v == 85 {
        66
    } else if v == 91 {
        67
    } else if v == 93 {
        68
    } else if v == 21 {
        69
    } else if v == 45 {
        70
    } else if v == 41 {
        71
    } else if v == 27 {
        72
    } else if v == 13 {
        73
    } else if v == 44 {
        74
    } else if v == 60 {
        75
    } else if v == 42 {
        76
    } else if v == 29 {
        77
    } else if v == 34 {
        78
    } else if v == 53 {
        79
    } else if v == 26 {
        80
    } else if v == 16218719970347249783 {
        81
    } else {
        -1
    }
}

/// Each make code of the table leads back to its own entry.
#[verifier::rlimit(60)]
proof fn lemma_make_code_index()
    ensures
        pressed_scancodes().len() == 82,
        forall|i: int|
            0 <= i < 82 ==> #[trigger] make_code_index(code_value(pressed_scancodes()[i].1)) == i,
{
    assert forall|i: int| 0 <= i < 82 implies #[trigger] make_code_index(
        code_value(pressed_scancodes()[i].1),
    ) == i by {
        if i == 0 {
            assert(make_code_index(code_value(pressed_scancodes()[0].1)) == 0);
        } else if i == 1 {
            assert(make_code_index(code_value(pressed_scancodes()[1].1)) == 1);
        } else if i == 2 {
            assert(make_code_index(code_value(pressed_scancodes()[2].1)) == 2);
        } else if i == 3 {
            assert(make_code_index(code_value(pressed_scancodes()[3].1)) == 3);
        } else if i == 4 {
            assert(make_code_index(code_value(pressed_scancodes()[4].1)) == 4);
        } else if i == 5 {
            assert(make_code_index(code_value(pressed_scancodes()[5].1)) == 5);
        } else if i == 6 {
            assert(make_code_index(code_value(pressed_scancodes()[6].1)) == 6);
        } else if i == 7 {
            assert(make_code_index(code_value(pressed_scancodes()[7].1)) == 7);
        } else if i == 8 {
            assert(make_code_index(code_value(pressed_scancodes()[8].1)) == 8);
        } else if i == 9 {
            assert(make_code_index(code_value(pressed_scancodes()[9].1)) == 9);
        } else if i == 10 {
            assert(make_code_index(code_value(pressed_scancodes()[10].1)) == 10);
        } else if i == 11 {
            assert(make_code_index(code_value(pressed_scancodes()[11].1)) == 11);
        } else if i == 12 {
            assert(make_code_index(code_value(pressed_scancodes()[12].1)) == 12);
        } else if i == 13 {
            assert(make_code_index(code_value(pressed_scancodes()[13].1)) == 13);
        } else if i == 14 {
            assert(make_code_index(code_value(pressed_scancodes()[14].1)) == 14);
        } else if i == 15 {
            assert(make_code_index(code_value(pressed_scancodes()[15].1)) == 15);
        } else if i == 16 {
            assert(make_code_index(code_value(pressed_scancodes()[16].1)) == 16);
        } else if i == 17 {
            assert(make_code_index(code_value(pressed_scancodes()[17].1)) == 17);
        } else if i == 18 {
            assert(make_code_index(code_value(pressed_scancodes()[18].1)) == 18);
        } else if i == 19 {
            assert(make_code_index(code_value(pressed_scancodes()[19].1)) == 19);
        } else if i == 20 {
            assert(make_code_index(code_value(pressed_scancodes()[20].1)) == 20);
        } else if i == 21 {
            assert(make_code_index(code_value(pressed_scancodes()[21].1)) == 21);
        } else if i == 22 {
            assert(make_code_index(code_value(pressed_scancodes()[22].1)) == 22);
        } else if i == 23 {
            assert(make_code_index(code_value(pressed_scancodes()[23].1)) == 23);
        } else if i == 24 {
            assert(make_code_index(code_value(pressed_scancodes()[24].1)) == 24);
        } else if i == 25 {
            assert(make_code_index(code_value(pressed_scancodes()[25].1)) == 25);
        } else if i == 26 {
            assert(make_code_index(code_value(pressed_scancodes()[26].1)) == 26);
        } else if i == 27 {
            assert(make_code_index(code_value(pressed_scancodes()[27].1)) == 27);
        } else if i == 28 {
            assert(make_code_index(code_value(pressed_scancodes()[28].1)) == 28);
        } else if i == 29 {
            assert(make_code_index(code_value(pressed_scancodes()[29].1)) == 29);
        } else if i == 30 {
            assert(make_code_index(code_value(pressed_scancodes()[30].1)) == 30);
        } else if i == 31 {
            assert(make_code_index(code_value(pressed_scancodes()[31].1)) == 31);
        } else if i == 32 {
            assert(make_code_index(code_value(pressed_scancodes()[32].1)) == 32);
        } else if i == 33 {
            assert(make_code_index(code_value(pressed_scancodes()[33].1)) == 33);
        } else if i == 34 {
            assert(make_code_index(code_value(pressed_scancodes()[34].1)) == 34);
        } else if i == 35 {
            assert(make_code_index(code_value(pressed_scancodes()[35].1)) == 35);
        } else if i == 36 {
            assert(make_code_index(code_value(pressed_scancodes()[36].1)) == 36);
        } else if i == 37 {
            assert(make_code_index(code_value(pressed_scancodes()[37].1)) == 37);
        } else if i == 38 {
            assert(make_code_index(code_value(pressed_scancodes()[38].1)) == 38);
        } else if i == 39 {
            assert(make_code_index(code_value(pressed_scancodes()[39].1)) == 39);
        } else if i == 40 {
            assert(make_code_index(code_value(pressed_scancodes()[40].1)) == 40);
        } else if i == 41 {
            assert(make_code_index(code_value(pressed_scancodes()[41].1)) == 41);
        } else if i == 42 {
            assert(make_code_index(code_value(pressed_scancodes()[42].1)) == 42);
        } else if i == 43 {
            assert(make_code_index(code_value(pressed_scancodes()[43].1)) == 43);
        } else if i == 44 {
            assert(make_code_index(code_value(pressed_scancodes()[44].1)) == 44);
        } else if i == 45 {
            assert(make_code_index(code_value(pressed_scancodes()[45].1)) == 45);
        } else if i == 46 {
            assert(make_code_index(code_value(pressed_scancodes()[46].1)) == 46);
        } else if i == 47 {
            assert(make_code_index(code_value(pressed_scancodes()[47].1)) == 47);
        } else if i == 48 {
            assert(make_code_index(code_value(pressed_scancodes()[48].1)) == 48);
        } else if i == 49 {
            assert(make_code_index(code_value(pressed_scancodes()[49].1)) == 49);
        } else if i == 50 {
            assert(make_code_index(code_value(pressed_scancodes()[50].1)) == 50);
        } else if i == 51 {
            assert(make_code_index(code_value(pressed_scancodes()[51].1)) == 51);
        } else if i == 52 {
            assert(make_code_index(code_value(pressed_scancodes()[52].1)) == 52);
        } else if i == 53 {
            assert(make_code_index(code_value(pressed_scancodes()[53].1)) == 53);
        } else if i == 54 {
            assert(make_code_index(code_value(pressed_scancodes()[54].1)) == 54);
        } else if i == 55 {
            assert(make_code_index(code_value(pressed_scancodes()[55].1)) == 55);
        } else if i == 56 {
            assert(make_code_index(code_value(pressed_scancodes()[56].1)) == 56);
        } else if i == 57 {
            assert(make_code_index(code_value(pressed_scancodes()[57].1)) == 57);
        } else if i == 58 {
            assert(make_code_index(code_value(pressed_scancodes()[58].1)) == 58);
        } else if i == 59 {
            assert(make_code_index(code_value(pressed_scancodes()[59].1)) == 59);
        } else if i == 60 {
            assert(make_code_index(code_value(pressed_scancodes()[60].1)) == 60);
        } else if i == 61 {
            assert(make_code_index(code_value(pressed_scancodes()[61].1)) == 61);
        } else if i == 62 {
            assert(make_code_index(code_value(pressed_scancodes()[62].1)) == 62);
        } else if i == 63 {
            assert(make_code_index(code_value(pressed_scancodes()[63].1)) == 63);
        } else if i == 64 {
            assert(make_code_index(code_value(pressed_scancodes()[64].1)) == 64);
        } else if i == 65 {
            assert(make_code_index(code_value(pressed_scancodes()[65].1)) == 65);
        } else if i == 66 {
            assert(make_code_index(code_value(pressed_scancodes()[66].1)) == 66);
        } else if i == 67 {
            assert(make_code_index(code_value(pressed_scancodes()[67].1)) == 67);
        } else if i == 68 {
            assert(make_code_index(code_value(pressed_scancodes()[68].1)) == 68);
        } else if i == 69 {
            assert(make_code_index(code_value(pressed_scancodes()[69].1)) == 69);
        } else if i == 70 {
            assert(make_code_index(code_value(pressed_scancodes()[70].1)) == 70);
        } else if i == 71 {
            assert(make_code_index(code_value(pressed_scancodes()[71].1)) == 71);
        } else if i == 72 {
            assert(make_code_index(code_value(pressed_scancodes()[72].1)) == 72);
        } else if i == 73 {
            assert(make_code_index(code_value(pressed_scancodes()[73].1)) == 73);
        } else if i == 74 {
            assert(make_code_index(code_value(pressed_scancodes()[74].1)) == 74);
        } else if i == 75 {
            assert(make_code_index(code_value(pressed_scancodes()[75].1)) == 75);
        } else if i == 76 {
            assert(make_code_index(code_value(pressed_scancodes()[76].1)) == 76);
        } else if i == 77 {
            assert(make_code_index(code_value(pressed_scancodes()[77].1)) == 77);
        } else if i == 78 {
            assert(make_code_index(code_value(pressed_scancodes()[78].1)) == 78);
        } else if i == 79 {
            assert(make_code_index(code_value(pressed_scancodes()[79].1)) == 79);
        } else if i == 80 {
            assert(make_code_index(code_value(pressed_scancodes()[80].1)) == 80);
        } else {
            assert(make_code_index(code_value(pressed_scancodes()[81].1)) == 81);
        }
    }
}

/// Two different keys never send the same make code: the table of make codes is injective, so
/// the program can tell every key from its scan codes.
pub proof fn lemma_make_codes_distinct(i: int, j: int)
    requires
        0 <= i < pressed_scancodes().len(),
        0 <= j < pressed_scancodes().len(),
        i != j,
    ensures
        pressed_scancodes()[i].1 != pressed_scancodes()[j].1,
{
    lemma_make_code_index();
    assert(make_code_index(code_value(pressed_scancodes()[i].1)) == i);
    assert(make_code_index(code_value(pressed_scancodes()[j].1)) == j);
}

/// The scan codes of `key` in `table` (those of its first occurrence), or no scan code if the key
/// is not in the table.
pub open spec fn scancodes_of(table: Seq<(Seq<char>, Seq<u8>)>, key: Seq<char>) -> Seq<u8>
    decreases table.len(),
{
    if table.len() == 0 {
        Seq::empty()
    } else if table[0].0 == key {
        table[0].1
    } else {
        scancodes_of(table.drop_first(), key)
    }
}

/// A key found in a table is at some entry of the table, whose scan codes are those found.
proof fn lemma_lookup_entry(table: Seq<(Seq<char>, Seq<u8>)>, key: Seq<char>) -> (i: int)
    requires
        scancodes_of(table, key).len() > 0,
    ensures
        0 <= i < table.len(),
        table[i].0 == key,
        scancodes_of(table, key) == table[i].1,
    decreases table.len(),
{
    if table[0].0 == key {
        0
    } else {
        let k = lemma_lookup_entry(table.drop_first(), key);
        k + 1
    }
}

/// Pressing two different keys that the keyboard knows sends two different scan code
/// sequences.
pub proof fn lemma_keys_have_distinct_make_codes(first: Seq<char>, second: Seq<char>)
    requires
        first != second,
        scancodes_of(pressed_scancodes(), first).len() > 0,
        scancodes_of(pressed_scancodes(), second).len() > 0,
    ensures
        scancodes_of(pressed_scancodes(), first) != scancodes_of(pressed_scancodes(), second),
{
    let i = lemma_lookup_entry(pressed_scancodes(), first);
    let j = lemma_lookup_entry(pressed_scancodes(), second);
    lemma_make_codes_distinct(i, j);
}

/// The content of a table of scan codes.
pub open spec fn table_view(table: Seq<(&'static str, Vec<u8>)>) -> Seq<(Seq<char>, Seq<u8>)> {
    Seq::new(table.len(), |i: int| (table[i].0@, table[i].1@))
}

/// Whether `a` and `b` are the same string.
fn same_key(a: &str, b: &str) -> (r: bool)
    ensures
        r == (a@ == b@),
{
    let n = a.unicode_len();
    if n != b.unicode_len() {
        return false;
    }
    let mut i: usize = 0;
    while i < n
        invariant
            n == a@.len(),
            n == b@.len(),
            i <= n,
            forall|j: int| 0 <= j < i ==> a@[j] == b@[j],
        decreases n - i,
    {
        if a.get_char(i) != b.get_char(i) {
            return false;
        }
        i = i + 1;
    }
    assert(a@ =~= b@);
    true
}

/// The scan codes of `key` in `table`, or `empty` if the key is not in the table.
fn find_scancodes<'a>(table: &'a Vec<(&'static str, Vec<u8>)>, key: &str, empty: &'a Vec<u8>) -> (r: &'a [u8])
    requires
        empty@.len() == 0,
    ensures
        r@ == scancodes_of(table_view(table@), key@),
{
    let mut i: usize = 0;
    assert(table_view(table@).skip(0) =~= table_view(table@));
    while i < table.len()
        invariant
            i <= table@.len(),
            empty@.len() == 0,
            scancodes_of(table_view(table@), key@) == scancodes_of(table_view(table@).skip(i as int), key@),
        decreases table@.len() - i,
    {
        let ghost rest = table_view(table@).skip(i as int);
        assert(rest.drop_first() =~= table_view(table@).skip(i + 1));
        if same_key(table[i].0, key) {
            return table[i].1.as_slice();
        }
        i = i + 1;
    }
    assert(table_view(table@).skip(i as int) =~= Seq::<(Seq<char>, Seq<u8>)>::empty());
    empty.as_slice()
}

/// A table has the content `spec` when each of its entries has the content of the entry of
/// `spec` at the same index.
proof fn lemma_same_tables(table: Seq<(&'static str, Vec<u8>)>, spec: Seq<(Seq<char>, Seq<u8>)>)
    requires
        table.len() == spec.len(),
        forall|i: int| 0 <= i < spec.len() ==> #[trigger] table_view(table)[i] == spec[i],
    ensures
        table_view(table) == spec,
{
    assert(table_view(table) =~= spec);
}

/// A US Qwerty PS/2 keyboard emulator. See https://wiki.osdev.org/PS/2_Keyboard#Scan_Code_Set_2
/// and http://www.quadibloc.com/comp/scan.htm.
pub struct Keyboard {
    key_pressed_scancodes: Vec<(&'static str, Vec<u8>)>,
    key_released_scancodes: Vec<(&'static str, Vec<u8>)>,
    empty_scancodes: Vec<u8>,
}

impl Keyboard {
    /// The scan codes sent when a key is pressed, by key.
    pub closed spec fn pressed_table(self) -> Seq<(Seq<char>, Seq<u8>)> {
        table_view(self.key_pressed_scancodes@)
    }

    /// The scan codes sent when a key is released, by key.
    pub closed spec fn released_table(self) -> Seq<(Seq<char>, Seq<u8>)> {
        table_view(self.key_released_scancodes@)
    }

    #[verifier::type_invariant]
    spec fn has_tables(self) -> bool {
        &&& self.pressed_table() == pressed_scancodes()
        &&& self.released_table() == released_scancodes()
        &&& self.empty_scancodes@.len() == 0
    }

    #[verifier::spinoff_prover]
    #[verifier::rlimit(100)]
    pub fn new() -> (r: Self)
        ensures
            r.pressed_table() == pressed_scancodes(),
            r.released_table() == released_scancodes(),
    {
        let key_pressed: Vec<(&'static str, Vec<u8>)> = vec![
            ("0", vec![0x45u8]),
            ("1", vec![0x16u8]),
            ("2", vec![0x1Eu8]),
            ("3", vec![0x26u8]),
            ("4", vec![0x25u8]),
            ("5", vec![0x2Eu8]),
            ("6", vec![0x36u8]),
            ("7", vec![0x3Du8]),
            ("8", vec![0x3Eu8]),
            ("9", vec![0x46u8]),
            ("A", vec![0x1Cu8]),
            ("Backspace", vec![0x66u8]),
            ("`", vec![0x0Eu8]),
            ("B", vec![0x32u8]),
            ("CapsLock", vec![0x58u8]),
            ("C", vec![0x21u8]),
            ("ArrowDown", vec![0xE0u8, 0x72]),
            ("ArrowLeft", vec![0xE0u8, 0x6B]),
            ("ArrowRight", vec![0xE0u8, 0x74]),
            ("ArrowUp", vec![0xE0u8, 0x75]),
            ("Delete", vec![0xE0u8, 0x71]),
            ("D", vec![0x23u8]),
            ("End", vec![0xE0u8, 0x69]),
            ("Enter", vec![0x5Au8]),
            ("E", vec![0x24u8]),
            ("Escape", vec![0x76u8]),
            ("F10", vec![0x09u8]),
            ("F11", vec![0x78u8]),
            ("F12", vec![0x07u8]),
            ("F1", vec![0x05u8]),
            ("F2", vec![0x06u8]),
            ("F3", vec![0x04u8]),
            ("F4", vec![0x0Cu8]),
            ("F5", vec![0x03u8]),
            ("F6", vec![0x0Bu8]),
            ("F7", vec![0x83u8]),
            ("F8", vec![0x0Au8]),
            ("F9", vec![0x01u8]),
            ("F", vec![0x2Bu8]),
            ("G", vec![0x34u8]),
            ("Home", vec![0xE0u8, 0x6C]),
            ("H", vec![0x33u8]),
            ("Insert", vec![0xE0u8, 0x70]),
            ("I", vec![0x43u8]),
            ("J", vec![0x3Bu8]),
            ("K", vec![0x42u8]),
            ("Alt", vec![0x11u8]),
            ("Control", vec![0x14u8]),
            ("Shift", vec![0x12u8]),
            ("L", vec![0x4Bu8]),
            ("M", vec![0x3Au8]),
            ("N", vec![0x31u8]),
            ("NumLock", vec![0x77u8]),
            ("ScrollLock", vec![0x7Eu8]),
            ("O", vec![0x44u8]),
            ("PageDown", vec![0xE0u8, 0x7A]),
            ("PageUp", vec![0xE0u8, 0x7D]),
            ("PrintScreen", vec![0xE0u8, 0x12, 0xE0, 0x7C]),
            ("P", vec![0x4Du8]),
            (",", vec![0x41u8]),
            (".", vec![0x49u8]),
            ("/", vec![0x4Au8]),
            (";", vec![0x4Cu8]),
            ("-", vec![0x4Eu8]),
            ("'", vec![0x52u8]),
            ("[", vec![0x54u8]),
            ("=", vec![0x55u8]),
            ("]", vec![0x5Bu8]),
            ("\\", vec![0x5Du8]),
            ("Q", vec![0x15u8]),
            ("R", vec![0x2Du8]),
            (" ", vec![0x29u8]),
            ("S", vec![0x1Bu8]),
            ("Tab", vec![0x0Du8]),
            ("T", vec![0x2Cu8]),
            ("U", vec![0x3Cu8]),
            ("V", vec![0x2Au8]),
            ("W", vec![0x1Du8]),
            ("X", vec![0x22u8]),
            ("Y", vec![0x35u8]),
            ("Z", vec![0x1Au8]),
            ("Pause", vec![0xE1u8, 0x14, 0x77, 0xE1, 0xF0, 0x14, 0xF0, 0x77]),
        ];
        let key_released: Vec<(&'static str, Vec<u8>)> = vec![
            ("0", vec![0xF0u8, 0x45]),
            ("1", vec![0xF0u8, 0x16]),
            ("2", vec![0xF0u8, 0x1E]),
            ("3", vec![0xF0u8, 0x26]),
            ("4", vec![0xF0u8, 0x25]),
            ("5", vec![0xF0u8, 0x2E]),
            ("6", vec![0xF0u8, 0x36]),
            ("7", vec![0xF0u8, 0x3D]),
            ("8", vec![0xF0u8, 0x3E]),
            ("9", vec![0xF0u8, 0x46]),
            ("A", vec![0xF0u8, 0x1C]),
            ("Backspace", vec![0xF0u8, 0x66]),
            ("`", vec![0xF0u8, 0x0E]),
            ("B", vec![0xF0u8, 0x32]),
            ("CapsLock", vec![0xF0u8, 0x58]),
            ("C", vec![0xF0u8, 0x21]),
            ("ArrowDown", vec![0xE0u8, 0xF0, 0x72]),
            ("ArrowLeft", vec![0xE0u8, 0xF0, 0x6B]),
            ("ArrowRight", vec![0xE0u8, 0xF0, 0x74]),
            ("ArrowUp", vec![0xE0u8, 0xF0, 0x75]),
            ("Delete", vec![0xE0u8, 0xF0, 0x71]),
            ("D", vec![0xF0u8, 0x23]),
            ("End", vec![0xE0u8, 0xF0, 0x69]),
            ("Enter", vec![0xF0u8, 0x5A]),
            ("E", vec![0xF0u8, 0x24]),
            ("Escape", vec![0xF0u8, 0x76]),
            ("F10", vec![0xF0u8, 0x09]),
            ("F11", vec![0xF0u8, 0x78]),
            ("F12", vec![0xF0u8, 0x07]),
            ("F1", vec![0xF0u8, 0x05]),
            ("F2", vec![0xF0u8, 0x06]),
            ("F3", vec![0xF0u8, 0x04]),
            ("F4", vec![0xF0u8, 0x0C]),
            ("F5", vec![0xF0u8, 0x03]),
            ("F6", vec![0xF0u8, 0x0B]),
            ("F7", vec![0xF0u8, 0x83]),
            ("F8", vec![0xF0u8, 0x0A]),
            ("F9", vec![0xF0u8, 0x01]),
            ("F", vec![0xF0u8, 0x2B]),
            ("G", vec![0xF0u8, 0x34]),
            ("Home", vec![0xE0u8, 0xF0, 0x6C]),
            ("H", vec![0xF0u8, 0x33]),
            ("Insert", vec![0xE0u8, 0xF0, 0x70]),
            ("I", vec![0xF0u8, 0x43]),
            ("J", vec![0xF0u8, 0x3B]),
            ("K", vec![0xF0u8, 0x42]),
            ("Alt", vec![0xF0u8, 0x11]),
            ("Control", vec![0xF0u8, 0x14]),
            ("Shift", vec![0xF0u8, 0x12]),
            ("L", vec![0xF0u8, 0x4B]),
            ("M", vec![0xF0u8, 0x3A]),
            ("N", vec![0xF0u8, 0x31]),
            ("NumLock", vec![0xF0u8, 0x77]),
            ("ScrollLock", vec![0xF0u8, 0x7E]),
            ("O", vec![0xF0u8, 0x44]),
            ("PageDown", vec![0xE0u8, 0xF0, 0x7A]),
            ("PageUp", vec![0xE0u8, 0xF0, 0x7D]),
            ("PrintScreen", vec![0xE0u8, 0xF0, 0x7C, 0xE0, 0xF0, 0x12]),
            ("P", vec![0xF0u8, 0x4D]),
            (",", vec![0xF0u8, 0x41]),
            (".", vec![0xF0u8, 0x49]),
            ("/", vec![0xF0u8, 0x4A]),
            (";", vec![0xF0u8, 0x4C]),
            ("-", vec![0xF0u8, 0x4E]),
            ("'", vec![0xF0u8, 0x52]),
            ("[", vec![0xF0u8, 0x54]),
            ("=", vec![0xF0u8, 0x55]),
            ("]", vec![0xF0u8, 0x5B]),
            ("\\", vec![0xF0u8, 0x5D]),
            ("Q", vec![0xF0u8, 0x15]),
            ("R", vec![0xF0u8, 0x2D]),
            (" ", vec![0xF0u8, 0x29]),
            ("S", vec![0xF0u8, 0x1B]),
            ("Tab", vec![0xF0u8, 0x0D]),
            ("T", vec![0xF0u8, 0x2C]),
            ("U", vec![0xF0u8, 0x3C]),
            ("V", vec![0xF0u8, 0x2A]),
            ("W", vec![0xF0u8, 0x1D]),
            ("X", vec![0xF0u8, 0x22]),
            ("Y", vec![0xF0u8, 0x35]),
            ("Z", vec![0xF0u8, 0x1A]),
        ];
        proof {
            assert(table_view(key_pressed@)[0] == pressed_scancodes()[0]);
            assert(table_view(key_pressed@)[1] == pressed_scancodes()[1]);
            assert(table_view(key_pressed@)[2] == pressed_scancodes()[2]);
            assert(table_view(key_pressed@)[3] == pressed_scancodes()[3]);
            assert(table_view(key_pressed@)[4] == pressed_scancodes()[4]);
            assert(table_view(key_pressed@)[5] == pressed_scancodes()[5]);
            assert(table_view(key_pressed@)[6] == pressed_scancodes()[6]);
            assert(table_view(key_pressed@)[7] == pressed_scancodes()[7]);
            assert(table_view(key_pressed@)[8] == pressed_scancodes()[8]);
            assert(table_view(key_pressed@)[9] == pressed_scancodes()[9]);
            assert(table_view(key_pressed@)[10] == pressed_scancodes()[10]);
            assert(table_view(key_pressed@)[11] == pressed_scancodes()[11]);
            assert(table_view(key_pressed@)[12] == pressed_scancodes()[12]);
            assert(table_view(key_pressed@)[13] == pressed_scancodes()[13]);
            assert(table_view(key_pressed@)[14] == pressed_scancodes()[14]);
            assert(table_view(key_pressed@)[15] == pressed_scancodes()[15]);
            assert(table_view(key_pressed@)[16] == pressed_scancodes()[16]);
            assert(table_view(key_pressed@)[17] == pressed_scancodes()[17]);
            assert(table_view(key_pressed@)[18] == pressed_scancodes()[18]);
            assert(table_view(key_pressed@)[19] == pressed_scancodes()[19]);
            assert(table_view(key_pressed@)[20] == pressed_scancodes()[20]);
            assert(table_view(key_pressed@)[21] == pressed_scancodes()[21]);
            assert(table_view(key_pressed@)[22] == pressed_scancodes()[22]);
            assert(table_view(key_pressed@)[23] == pressed_scancodes()[23]);
            assert(table_view(key_pressed@)[24] == pressed_scancodes()[24]);
            assert(table_view(key_pressed@)[25] == pressed_scancodes()[25]);
            assert(table_view(key_pressed@)[26] == pressed_scancodes()[26]);
            assert(table_view(key_pressed@)[27] == pressed_scancodes()[27]);
            assert(table_view(key_pressed@)[28] == pressed_scancodes()[28]);
            assert(table_view(key_pressed@)[29] == pressed_scancodes()[29]);
            assert(table_view(key_pressed@)[30] == pressed_scancodes()[30]);
            assert(table_view(key_pressed@)[31] == pressed_scancodes()[31]);
            assert(table_view(key_pressed@)[32] == pressed_scancodes()[32]);
            assert(table_view(key_pressed@)[33] == pressed_scancodes()[33]);
            assert(table_view(key_pressed@)[34] == pressed_scancodes()[34]);
            assert(table_view(key_pressed@)[35] == pressed_scancodes()[35]);
            assert(table_view(key_pressed@)[36] == pressed_scancodes()[36]);
            assert(table_view(key_pressed@)[37] == pressed_scancodes()[37]);
            assert(table_view(key_pressed@)[38] == pressed_scancodes()[38]);
            assert(table_view(key_pressed@)[39] == pressed_scancodes()[39]);
            assert(table_view(key_pressed@)[40] == pressed_scancodes()[40]);
            assert(table_view(key_pressed@)[41] == pressed_scancodes()[41]);
            assert(table_view(key_pressed@)[42] == pressed_scancodes()[42]);
            assert(table_view(key_pressed@)[43] == pressed_scancodes()[43]);
            assert(table_view(key_pressed@)[44] == pressed_scancodes()[44]);
            assert(table_view(key_pressed@)[45] == pressed_scancodes()[45]);
            assert(table_view(key_pressed@)[46] == pressed_scancodes()[46]);
            assert(table_view(key_pressed@)[47] == pressed_scancodes()[47]);
            assert(table_view(key_pressed@)[48] == pressed_scancodes()[48]);
            assert(table_view(key_pressed@)[49] == pressed_scancodes()[49]);
            assert(table_view(key_pressed@)[50] == pressed_scancodes()[50]);
            assert(table_view(key_pressed@)[51] == pressed_scancodes()[51]);
            assert(table_view(key_pressed@)[52] == pressed_scancodes()[52]);
            assert(table_view(key_pressed@)[53] == pressed_scancodes()[53]);
            assert(table_view(key_pressed@)[54] == pressed_scancodes()[54]);
            assert(table_view(key_pressed@)[55] == pressed_scancodes()[55]);
            assert(table_view(key_pressed@)[56] == pressed_scancodes()[56]);
            assert(table_view(key_pressed@)[57] == pressed_scancodes()[57]);
            assert(table_view(key_pressed@)[58] == pressed_scancodes()[58]);
            assert(table_view(key_pressed@)[59] == pressed_scancodes()[59]);
            assert(table_view(key_pressed@)[60] == pressed_scancodes()[60]);
            assert(table_view(key_pressed@)[61] == pressed_scancodes()[61]);
            assert(table_view(key_pressed@)[62] == pressed_scancodes()[62]);
            assert(table_view(key_pressed@)[63] == pressed_scancodes()[63]);
            assert(table_view(key_pressed@)[64] == pressed_scancodes()[64]);
            assert(table_view(key_pressed@)[65] == pressed_scancodes()[65]);
            assert(table_view(key_pressed@)[66] == pressed_scancodes()[66]);
            assert(table_view(key_pressed@)[67] == pressed_scancodes()[67]);
            assert(table_view(key_pressed@)[68] == pressed_scancodes()[68]);
            assert(table_view(key_pressed@)[69] == pressed_scancodes()[69]);
            assert(table_view(key_pressed@)[70] == pressed_scancodes()[70]);
            assert(table_view(key_pressed@)[71] == pressed_scancodes()[71]);
            assert(table_view(key_pressed@)[72] == pressed_scancodes()[72]);
            assert(table_view(key_pressed@)[73] == pressed_scancodes()[73]);
            assert(table_view(key_pressed@)[74] == pressed_scancodes()[74]);
            assert(table_view(key_pressed@)[75] == pressed_scancodes()[75]);
            assert(table_view(key_pressed@)[76] == pressed_scancodes()[76]);
            assert(table_view(key_pressed@)[77] == pressed_scancodes()[77]);
            assert(table_view(key_pressed@)[78] == pressed_scancodes()[78]);
            assert(table_view(key_pressed@)[79] == pressed_scancodes()[79]);
            assert(table_view(key_pressed@)[80] == pressed_scancodes()[80]);
            assert(table_view(key_pressed@)[81] == pressed_scancodes()[81]);
            assert(table_view(key_released@)[0] == released_scancodes()[0]);
            assert(table_view(key_released@)[1] == released_scancodes()[1]);
            assert(table_view(key_released@)[2] == released_scancodes()[2]);
            assert(table_view(key_released@)[3] == released_scancodes()[3]);
            assert(table_view(key_released@)[4] == released_scancodes()[4]);
            assert(table_view(key_released@)[5] == released_scancodes()[5]);
            assert(table_view(key_released@)[6] == released_scancodes()[6]);
            assert(table_view(key_released@)[7] == released_scancodes()[7]);
            assert(table_view(key_released@)[8] == released_scancodes()[8]);
            assert(table_view(key_released@)[9] == released_scancodes()[9]);
            assert(table_view(key_released@)[10] == released_scancodes()[10]);
            assert(table_view(key_released@)[11] == released_scancodes()[11]);
            assert(table_view(key_released@)[12] == released_scancodes()[12]);
            assert(table_view(key_released@)[13] == released_scancodes()[13]);
            assert(table_view(key_released@)[14] == released_scancodes()[14]);
            assert(table_view(key_released@)[15] == released_scancodes()[15]);
            assert(table_view(key_released@)[16] == released_scancodes()[16]);
            assert(table_view(key_released@)[17] == released_scancodes()[17]);
            assert(table_view(key_released@)[18] == released_scancodes()[18]);
            assert(table_view(key_released@)[19] == released_scancodes()[19]);
            assert(table_view(key_released@)[20] == released_scancodes()[20]);
            assert(table_view(key_released@)[21] == released_scancodes()[21]);
            assert(table_view(key_released@)[22] == released_scancodes()[22]);
            assert(table_view(key_released@)[23] == released_scancodes()[23]);
            assert(table_view(key_released@)[24] == released_scancodes()[24]);
            assert(table_view(key_released@)[25] == released_scancodes()[25]);
            assert(table_view(key_released@)[26] == released_scancodes()[26]);
            assert(table_view(key_released@)[27] == released_scancodes()[27]);
            assert(table_view(key_released@)[28] == released_scancodes()[28]);
            assert(table_view(key_released@)[29] == released_scancodes()[29]);
            assert(table_view(key_released@)[30] == released_scancodes()[30]);
            assert(table_view(key_released@)[31] == released_scancodes()[31]);
            assert(table_view(key_released@)[32] == released_scancodes()[32]);
            assert(table_view(key_released@)[33] == released_scancodes()[33]);
            assert(table_view(key_released@)[34] == released_scancodes()[34]);
            assert(table_view(key_released@)[35] == released_scancodes()[35]);
            assert(table_view(key_released@)[36] == released_scancodes()[36]);
            assert(table_view(key_released@)[37] == released_scancodes()[37]);
            assert(table_view(key_released@)[38] == released_scancodes()[38]);
            assert(table_view(key_released@)[39] == released_scancodes()[39]);
            assert(table_view(key_released@)[40] == released_scancodes()[40]);
            assert(table_view(key_released@)[41] == released_scancodes()[41]);
            assert(table_view(key_released@)[42] == released_scancodes()[42]);
            assert(table_view(key_released@)[43] == released_scancodes()[43]);
            assert(table_view(key_released@)[44] == released_scancodes()[44]);
            assert(table_view(key_released@)[45] == released_scancodes()[45]);
            assert(table_view(key_released@)[46] == released_scancodes()[46]);
            assert(table_view(key_released@)[47] == released_scancodes()[47]);
            assert(table_view(key_released@)[48] == released_scancodes()[48]);
            assert(table_view(key_released@)[49] == released_scancodes()[49]);
            assert(table_view(key_released@)[50] == released_scancodes()[50]);
            assert(table_view(key_released@)[51] == released_scancodes()[51]);
            assert(table_view(key_released@)[52] == released_scancodes()[52]);
            assert(table_view(key_released@)[53] == released_scancodes()[53]);
            assert(table_view(key_released@)[54] == released_scancodes()[54]);
            assert(table_view(key_released@)[55] == released_scancodes()[55]);
            assert(table_view(key_released@)[56] == released_scancodes()[56]);
            assert(table_view(key_released@)[57] == released_scancodes()[57]);
            assert(table_view(key_released@)[58] == released_scancodes()[58]);
            assert(table_view(key_released@)[59] == released_scancodes()[59]);
            assert(table_view(key_released@)[60] == released_scancodes()[60]);
            assert(table_view(key_released@)[61] == released_scancodes()[61]);
            assert(table_view(key_released@)[62] == released_scancodes()[62]);
            assert(table_view(key_released@)[63] == released_scancodes()[63]);
            assert(table_view(key_released@)[64] == released_scancodes()[64]);
            assert(table_view(key_released@)[65] == released_scancodes()[65]);
            assert(table_view(key_released@)[66] == released_scancodes()[66]);
            assert(table_view(key_released@)[67] == released_scancodes()[67]);
            assert(table_view(key_released@)[68] == released_scancodes()[68]);
            assert(table_view(key_released@)[69] == released_scancodes()[69]);
            assert(table_view(key_released@)[70] == released_scancodes()[70]);
            assert(table_view(key_released@)[71] == released_scancodes()[71]);
            assert(table_view(key_released@)[72] == released_scancodes()[72]);
            assert(table_view(key_released@)[73] == released_scancodes()[73]);
            assert(table_view(key_released@)[74] == released_scancodes()[74]);
            assert(table_view(key_released@)[75] == released_scancodes()[75]);
            assert(table_view(key_released@)[76] == released_scancodes()[76]);
            assert(table_view(key_released@)[77] == released_scancodes()[77]);
            assert(table_view(key_released@)[78] == released_scancodes()[78]);
            assert(table_view(key_released@)[79] == released_scancodes()[79]);
            assert(table_view(key_released@)[80] == released_scancodes()[80]);
            lemma_same_tables(key_pressed@, pressed_scancodes());
            lemma_same_tables(key_released@, released_scancodes());
        }
        Keyboard {
            key_pressed_scancodes: key_pressed,
            key_released_scancodes: key_released,
            empty_scancodes: Vec::new(),
        }
    }

    /// The scan codes sent when `key` is pressed (none for an unknown key).
    pub fn key_pressed(&self, key: &str) -> (r: &[u8])
        ensures
            r@ == scancodes_of(pressed_scancodes(), key@),
    {
        proof {
            use_type_invariant(self);
        }
        find_scancodes(&self.key_pressed_scancodes, key, &self.empty_scancodes)
    }

    /// The scan codes sent when `key` is released (none for an unknown key).
    pub fn key_released(&self, key: &str) -> (r: &[u8])
        ensures
            r@ == scancodes_of(released_scancodes(), key@),
    {
        proof {
            use_type_invariant(self);
        }
        find_scancodes(&self.key_released_scancodes, key, &self.empty_scancodes)
    }
}

impl Default for Keyboard {
    fn default() -> (r: Self) {
        Self::new()
    }
}

} // verus!
