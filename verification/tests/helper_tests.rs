use emulator::boot_helper::BootHelper;
use emulator::chip::MicroController;
use emulator::flash_helper::FlashHelper;

const BOOT_COMMAND_LINE: &str = "user@host:~$ python3 boot_helper.py\n>";

const FLASH_COMMAND_LINE: &str = "user@host:~$ python3 flash_helper.py";

#[test]
fn boot_helper_get_version() {
    let mut boot_helper = BootHelper::new(MicroController::default());

    boot_helper.write("V#");
    boot_helper.write("exit#");

    assert_eq!(
        boot_helper.read(),
        BOOT_COMMAND_LINE.to_string() + "V#\nv1.1 Dec 15 2010 19:25:04\n>exit#"
    );
}

#[test]
fn boot_helper_write_and_read_word() {
    let mut boot_helper = BootHelper::new(MicroController::default());

    boot_helper.write("W20071000,DECACAFE#");
    boot_helper.write("w20071000,#");
    boot_helper.write("exit#");

    assert_eq!(
        boot_helper.read(),
        BOOT_COMMAND_LINE.to_string() + "W20071000,DECACAFE#\n>w20071000,#\n0xDECACAFE\n>exit#"
    );
}

#[test]
fn truncated_command() {
    let mut boot_helper = BootHelper::new(MicroController::default());

    boot_helper.write("W20071000");
    boot_helper.write(",DECACAFE#");
    boot_helper.write("w20071000,#");
    boot_helper.write("exit#");

    assert_eq!(
        boot_helper.read(),
        BOOT_COMMAND_LINE.to_string() + "W20071000\n,DECACAFE#\n>w20071000,#\n0xDECACAFE\n>exit#"
    );
}

#[test]
fn multiple_commands() {
    let mut boot_helper = BootHelper::new(MicroController::default());

    boot_helper.write("W20071000,DECACAFE#");
    boot_helper.write("w20071000,#w20071000,#");
    boot_helper.write("exit#");

    assert_eq!(
        boot_helper.read(),
        BOOT_COMMAND_LINE.to_string()
            + "W20071000,DECACAFE#\n>w20071000,#w20071000,#\n"
            + "0xDECACAFE\n>0xDECACAFE\n>exit#"
    );
}

#[test]
fn multiple_reads() {
    let mut boot_helper = BootHelper::new(MicroController::default());

    boot_helper.write("W20071000,DECACAFE#");
    boot_helper.write("w20071000,#");
    let str1 = boot_helper.read();
    boot_helper.write("W20071000,CAFEDECA#");
    boot_helper.write("w20071000,#");
    boot_helper.write("exit#");
    let str2 = boot_helper.read();

    assert_eq!(
        str1,
        BOOT_COMMAND_LINE.to_string() + "W20071000,DECACAFE#\n>w20071000,#\n0xDECACAFE"
    );
    assert_eq!(str2, ">W20071000,CAFEDECA#\n>w20071000,#\n0xCAFEDECA\n>exit#");
}

#[test]
fn boot_helper_exit_stops_the_commands() {
    let mut boot_helper = BootHelper::create(MicroController::default(), true);

    assert!(!boot_helper.write("V# exit# V#"));

    assert_eq!(boot_helper.read(), "v1.1 Dec 15 2010 19:25:04\n>");
}

#[test]
fn read_output_keeps_the_last_prompt() {
    let mut output = String::from("abc\n>");
    assert_eq!(BootHelper::<emulator::spi::EmptySpiDevice, emulator::pio::EmptyPioDevice>::read_output(&mut output, false), "abc");
    assert_eq!(output, ">");

    let mut output = String::from("abc\n");
    assert_eq!(BootHelper::<emulator::spi::EmptySpiDevice, emulator::pio::EmptyPioDevice>::read_output(&mut output, false), "abc");
    assert_eq!(output, "");

    let mut output = String::from("abc\n>");
    assert_eq!(BootHelper::<emulator::spi::EmptySpiDevice, emulator::pio::EmptyPioDevice>::read_output(&mut output, true), "abc\n>");
    assert_eq!(output, "");
}

#[test]
fn flash_helper_get_version() {
    let mut flash_helper = FlashHelper::new(MicroController::default());

    flash_helper.write("V#");
    flash_helper.write("exit#");

    assert_eq!(
        flash_helper.read(),
        FLASH_COMMAND_LINE.to_string() + "\n>V#\nv1.1 Dec 15 2010 19:25:04\n>exit#"
    );
}

#[test]
fn flash_helper_write_and_read_word() {
    let mut flash_helper = FlashHelper::new(MicroController::default());

    flash_helper.write("W20071000,DECACAFE#");
    flash_helper.write("w20071000,#");
    flash_helper.write("exit#");

    assert_eq!(
        flash_helper.read(),
        FLASH_COMMAND_LINE.to_string() + "\n>W20071000,DECACAFE#\n>w20071000,#\n0xDECACAFE\n>exit#"
    );
}

#[test]
fn flash_two_pages() {
    let mut flash_helper = FlashHelper::new(MicroController::default());

    flash_helper.write("W00080114,DECACAFE#");
    flash_helper.write("W00080118,DECA1234#");
    flash_helper.write("W000C0114,CAFEBABE#");
    flash_helper.write("flash#");
    flash_helper.write("w00080118,#");
    flash_helper.write("exit#");

    assert_eq!(
        flash_helper.read(),
        "user@host:~$ python3 flash_helper.py\n\
        >W00080114,DECACAFE#\n\
        Reading page 1... Done.\n\
        >W00080118,DECA1234#\n\
        >W000C0114,CAFEBABE#\n\
        Reading page 1025... Done.\n\
        >flash#\n\
        Writing page 1... Done.\n\
        Writing page 1025... Done.\n\
        >w00080118,#\n\
        0xDECA1234\n\
        >exit#"
    );
}

#[test]
fn flash_word_writes_are_parsed() {
    type Helper = FlashHelper<emulator::spi::EmptySpiDevice, emulator::pio::EmptyPioDevice>;
    assert_eq!(Helper::get_flash_address_and_value("W00080114,DECACAFE#"), Ok(Some((0x80114, 0xDECACAFE))));
    assert_eq!(Helper::get_flash_address_and_value("W20071000,DECACAFE#"), Ok(None));
    assert_eq!(Helper::get_flash_address_and_value("w00080114,#"), Ok(None));
    assert_eq!(Helper::get_flash_address_and_value("W00080114,DECACAFE"), Ok(None));
    assert_eq!(Helper::get_flash_address_and_value("W0008011G,1#"), Ok(None));
    assert_eq!(Helper::get_flash_address_and_value("W+80114,+1#"), Ok(Some((0x80114, 1))));
    assert_eq!(Helper::get_flash_address_and_value("W00080114,100000000#"), Ok(None));
    assert_eq!(
        Helper::get_flash_address_and_value("W00080115,1#"),
        Err(String::from("ERROR: invalid address 524565\n"))
    );
}
