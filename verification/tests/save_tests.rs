use gba::save::eeprom::Eeprom;
use gba::save::flash::Flash;
use gba::save::sram::Sram;
use gba::save::{
    detect_save_type, SaveController, SaveType, FLASH_ADDR_CMD1, FLASH_ADDR_CMD2, FLASH_CMD_BANK_SWITCH,
    FLASH_CMD_ENTER_ID, FLASH_CMD_ERASE_SECTOR, FLASH_CMD_EXIT_ID, FLASH_CMD_WRITE_BYTE,
    FLASH_CMD_WRITE_DISABLE, FLASH_CMD_WRITE_ENABLE, FLASH_MACRONIX_64K,
};

#[test]
fn detection_test_detect_sram() {
    let mut rom = vec![0u8; 1024];
    let marker = b"SRAM_V123";
    rom[100..100 + marker.len()].copy_from_slice(marker);

    assert_eq!(detect_save_type(&rom), SaveType::Sram);
}

#[test]
fn detection_test_detect_flash_64k() {
    let mut rom = vec![0u8; 1024];
    let marker = b"FLASH512_V";
    rom[100..100 + marker.len()].copy_from_slice(marker);

    assert_eq!(detect_save_type(&rom), SaveType::Flash64K);
}

#[test]
fn detection_test_detect_flash_128k() {
    let mut rom = vec![0u8; 1024];
    let marker = b"FLASH1M_V";
    rom[100..100 + marker.len()].copy_from_slice(marker);

    assert_eq!(detect_save_type(&rom), SaveType::Flash128K);
}

#[test]
fn detection_test_detect_eeprom_512b() {
    let mut rom = vec![0u8; 8 * 1024 * 1024]; // 8 MB ROM
    let marker = b"EEPROM_V";
    rom[100..100 + marker.len()].copy_from_slice(marker);

    assert_eq!(detect_save_type(&rom), SaveType::Eeprom512B);
}

#[test]
fn detection_test_detect_eeprom_8k() {
    let mut rom = vec![0u8; 32 * 1024 * 1024]; // 32 MB ROM
    let marker = b"EEPROM_V";
    rom[100..100 + marker.len()].copy_from_slice(marker);

    assert_eq!(detect_save_type(&rom), SaveType::Eeprom8K);
}

#[test]
fn detection_test_detect_none() {
    let rom = vec![0u8; 1024];
    assert_eq!(detect_save_type(&rom), SaveType::NoSave);
}

#[test]
fn eeprom_test_eeprom_basic() {
    let eeprom = Eeprom::new(SaveType::Eeprom512B);
    assert_eq!(eeprom.size, 512);
    assert_eq!(eeprom.address_bits, 6);
}

#[test]
fn eeprom_test_eeprom_8k() {
    let eeprom = Eeprom::new(SaveType::Eeprom8K);
    assert_eq!(eeprom.size, 8192);
    assert_eq!(eeprom.address_bits, 14);
}

#[test]
fn test_eeprom_default_value() {
    let eeprom = Eeprom::new(SaveType::Eeprom512B);
    assert_eq!(eeprom.data[0], 0xFF);
    assert_eq!(eeprom.data[511], 0xFF);
}

#[test]
fn test_eeprom_load_data() {
    let mut eeprom = Eeprom::new(SaveType::Eeprom512B);
    let test_data = vec![0x42; 512];
    eeprom.load_data(test_data);

    assert_eq!(eeprom.data[0], 0x42);
    assert_eq!(eeprom.data[511], 0x42);
}

#[test]
fn flash_test_flash_chip_id() {
    let mut flash = Flash::new(SaveType::Flash64K);

    // Enter chip ID mode
    flash.write_byte(FLASH_ADDR_CMD1, FLASH_CMD_WRITE_ENABLE);
    flash.write_byte(FLASH_ADDR_CMD2, FLASH_CMD_WRITE_DISABLE);
    flash.write_byte(FLASH_ADDR_CMD1, FLASH_CMD_ENTER_ID);

    // Read chip ID
    let id_low = flash.read_byte(0);
    let id_high = flash.read_byte(1);
    let chip_id = (id_high as u16) << 8 | id_low as u16;

    assert_eq!(chip_id, FLASH_MACRONIX_64K);

    // Exit chip ID mode
    flash.write_byte(0, FLASH_CMD_EXIT_ID);
}

#[test]
fn flash_test_flash_write_byte() {
    let mut flash = Flash::new(SaveType::Flash64K);

    // Write enable sequence + write byte command
    flash.write_byte(FLASH_ADDR_CMD1, FLASH_CMD_WRITE_ENABLE);
    flash.write_byte(FLASH_ADDR_CMD2, FLASH_CMD_WRITE_DISABLE);
    flash.write_byte(FLASH_ADDR_CMD1, FLASH_CMD_WRITE_BYTE);

    // Write data
    flash.write_byte(0x100, 0x42);

    // Read back
    assert_eq!(flash.read_byte(0x100), 0x42);
}

#[test]
fn flash_test_flash_erase_sector() {
    let mut flash = Flash::new(SaveType::Flash64K);

    // Write some data
    flash.write_byte(FLASH_ADDR_CMD1, FLASH_CMD_WRITE_ENABLE);
    flash.write_byte(FLASH_ADDR_CMD2, FLASH_CMD_WRITE_DISABLE);
    flash.write_byte(FLASH_ADDR_CMD1, FLASH_CMD_WRITE_BYTE);
    flash.write_byte(0, 0x42);

    // Erase sector
    flash.write_byte(FLASH_ADDR_CMD1, FLASH_CMD_WRITE_ENABLE);
    flash.write_byte(FLASH_ADDR_CMD2, FLASH_CMD_WRITE_DISABLE);
    flash.write_byte(FLASH_ADDR_CMD1, FLASH_CMD_ERASE_SECTOR);
    flash.write_byte(0, 0x30);

    // Should be erased (0xFF)
    assert_eq!(flash.read_byte(0), 0xFF);
}

#[test]
fn test_flash_bank_switch() {
    let mut flash = Flash::new(SaveType::Flash128K);

    // Write to bank 0
    flash.write_byte(FLASH_ADDR_CMD1, FLASH_CMD_WRITE_ENABLE);
    flash.write_byte(FLASH_ADDR_CMD2, FLASH_CMD_WRITE_DISABLE);
    flash.write_byte(FLASH_ADDR_CMD1, FLASH_CMD_WRITE_BYTE);
    flash.write_byte(0, 0x11);

    // Switch to bank 1
    flash.write_byte(FLASH_ADDR_CMD1, FLASH_CMD_WRITE_ENABLE);
    flash.write_byte(FLASH_ADDR_CMD2, FLASH_CMD_WRITE_DISABLE);
    flash.write_byte(FLASH_ADDR_CMD1, FLASH_CMD_BANK_SWITCH);
    flash.write_byte(0, 1);

    // Write to bank 1
    flash.write_byte(FLASH_ADDR_CMD1, FLASH_CMD_WRITE_ENABLE);
    flash.write_byte(FLASH_ADDR_CMD2, FLASH_CMD_WRITE_DISABLE);
    flash.write_byte(FLASH_ADDR_CMD1, FLASH_CMD_WRITE_BYTE);
    flash.write_byte(0, 0x22);

    // Read from bank 1
    assert_eq!(flash.read_byte(0), 0x22);

    // Switch back to bank 0
    flash.write_byte(FLASH_ADDR_CMD1, FLASH_CMD_WRITE_ENABLE);
    flash.write_byte(FLASH_ADDR_CMD2, FLASH_CMD_WRITE_DISABLE);
    flash.write_byte(FLASH_ADDR_CMD1, FLASH_CMD_BANK_SWITCH);
    flash.write_byte(0, 0);

    // Read from bank 0
    assert_eq!(flash.read_byte(0), 0x11);
}

#[test]
fn mod_test_save_controller_no_save() {
    let controller = SaveController::new();
    assert_eq!(controller.save_type, SaveType::NoSave);
    assert!(!controller.is_modified());
}

#[test]
fn mod_test_save_controller_sram_detection() {
    let mut controller = SaveController::new();
    let mut rom = vec![0u8; 1024];
    let marker = b"SRAM_V123";
    rom[100..100 + marker.len()].copy_from_slice(marker);

    controller.init_from_rom(&rom, None);
    assert_eq!(controller.save_type, SaveType::Sram);
}

#[test]
fn mod_test_save_controller_sram_read_write() {
    let mut controller = SaveController::new();
    let mut rom = vec![0u8; 1024];
    let marker = b"SRAM_V";
    rom[100..100 + marker.len()].copy_from_slice(marker);

    controller.init_from_rom(&rom, None);

    // Write
    controller.write_byte(0, 0x42);
    controller.write_byte(100, 0xAB);
    assert!(controller.is_modified());

    // Read
    assert_eq!(controller.read_byte(0), 0x42);
    assert_eq!(controller.read_byte(100), 0xAB);
}

#[test]
fn mod_test_save_controller_flash_detection() {
    let mut controller = SaveController::new();
    let mut rom = vec![0u8; 1024];
    let marker = b"FLASH1M_V";
    rom[100..100 + marker.len()].copy_from_slice(marker);

    controller.init_from_rom(&rom, None);
    assert_eq!(controller.save_type, SaveType::Flash128K);
}

#[test]
fn sram_test_sram_read_write() {
    let mut sram = Sram::new(SaveType::Sram);

    // Write some data
    sram.write_byte(0, 0x42);
    sram.write_byte(100, 0xAB);
    sram.write_byte(0x7FFF, 0xCD);

    // Read it back
    assert_eq!(sram.read_byte(0), 0x42);
    assert_eq!(sram.read_byte(100), 0xAB);
    assert_eq!(sram.read_byte(0x7FFF), 0xCD);
}

#[test]
fn test_sram_wraparound() {
    let mut sram = Sram::new(SaveType::Sram);
    let size = sram.size as u32;

    // Write beyond size (should wrap)
    sram.write_byte(size, 0x11);
    assert_eq!(sram.read_byte(0), 0x11);

    sram.write_byte(size + 100, 0x22);
    assert_eq!(sram.read_byte(100), 0x22);
}

#[test]
fn sram_test_sram_default_value() {
    let sram = Sram::new(SaveType::Sram);

    // Unwritten locations should be 0xFF
    assert_eq!(sram.read_byte(0), 0xFF);
    assert_eq!(sram.read_byte(500), 0xFF);
}

#[test]
fn test_sram_clear() {
    let mut sram = Sram::new(SaveType::Sram);

    sram.write_byte(0, 0x42);
    sram.write_byte(100, 0xAB);

    sram.clear();

    assert_eq!(sram.read_byte(0), 0xFF);
    assert_eq!(sram.read_byte(100), 0xFF);
}

#[test]
fn test_sram_load_data() {
    let mut sram = Sram::new(SaveType::Sram);

    let test_data = vec![0x11; 0x8000];
    sram.load_data(test_data);

    assert_eq!(sram.read_byte(0), 0x11);
    assert_eq!(sram.read_byte(100), 0x11);
    assert_eq!(sram.read_byte(0x7FFF), 0x11);
}

#[test]
fn test_save_type_size() {
    assert_eq!(SaveType::NoSave.size(), 0);
    assert_eq!(SaveType::Sram.size(), 0x8000);
    assert_eq!(SaveType::Flash64K.size(), 0x10000);
    assert_eq!(SaveType::Flash128K.size(), 0x20000);
    assert_eq!(SaveType::Eeprom512B.size(), 0x200);
    assert_eq!(SaveType::Eeprom8K.size(), 0x2000);
}

#[test]
fn test_save_type_is_flash() {
    assert!(SaveType::Flash64K.is_flash());
    assert!(SaveType::Flash128K.is_flash());
    assert!(!SaveType::Sram.is_flash());
    assert!(!SaveType::Eeprom512B.is_flash());
}

#[test]
fn test_save_type_is_eeprom() {
    assert!(SaveType::Eeprom512B.is_eeprom());
    assert!(SaveType::Eeprom8K.is_eeprom());
    assert!(!SaveType::Sram.is_eeprom());
    assert!(!SaveType::Flash64K.is_eeprom());
}

#[test]
fn save_tests_test_detect_sram() {
    let mut rom = vec![0u8; 1024];
    let marker = b"SRAM_V123";
    rom[100..100 + marker.len()].copy_from_slice(marker);

    assert_eq!(detect_save_type(&rom), SaveType::Sram);
}

#[test]
fn save_tests_test_detect_flash_64k() {
    let mut rom = vec![0u8; 1024];
    let marker = b"FLASH512_V";
    rom[100..100 + marker.len()].copy_from_slice(marker);

    assert_eq!(detect_save_type(&rom), SaveType::Flash64K);
}

#[test]
fn save_tests_test_detect_flash_128k() {
    let mut rom = vec![0u8; 1024];
    let marker = b"FLASH1M_V";
    rom[100..100 + marker.len()].copy_from_slice(marker);

    assert_eq!(detect_save_type(&rom), SaveType::Flash128K);
}

#[test]
fn save_tests_test_detect_eeprom_512b() {
    let mut rom = vec![0u8; 8 * 1024 * 1024]; // 8 MB ROM
    let marker = b"EEPROM_V";
    rom[100..100 + marker.len()].copy_from_slice(marker);

    assert_eq!(detect_save_type(&rom), SaveType::Eeprom512B);
}

#[test]
fn save_tests_test_detect_eeprom_8k() {
    let mut rom = vec![0u8; 32 * 1024 * 1024]; // 32 MB ROM
    let marker = b"EEPROM_V";
    rom[100..100 + marker.len()].copy_from_slice(marker);

    assert_eq!(detect_save_type(&rom), SaveType::Eeprom8K);
}

#[test]
fn save_tests_test_detect_none() {
    let rom = vec![0u8; 1024];
    assert_eq!(detect_save_type(&rom), SaveType::NoSave);
}

#[test]
fn save_tests_test_sram_read_write() {
    let mut sram = Sram::new(SaveType::Sram);

    sram.write_byte(0, 0x42);
    sram.write_byte(100, 0xAB);
    sram.write_byte(0x7FFF, 0xCD);

    assert_eq!(sram.read_byte(0), 0x42);
    assert_eq!(sram.read_byte(100), 0xAB);
    assert_eq!(sram.read_byte(0x7FFF), 0xCD);
}

#[test]
fn save_tests_test_sram_default_value() {
    let sram = Sram::new(SaveType::Sram);

    assert_eq!(sram.read_byte(0), 0xFF);
    assert_eq!(sram.read_byte(500), 0xFF);
}

#[test]
fn save_tests_test_flash_chip_id() {
    let mut flash = Flash::new(SaveType::Flash64K);

    // Enter chip ID mode
    flash.write_byte(FLASH_ADDR_CMD1, FLASH_CMD_WRITE_ENABLE);
    flash.write_byte(FLASH_ADDR_CMD2, FLASH_CMD_WRITE_DISABLE);
    flash.write_byte(FLASH_ADDR_CMD1, FLASH_CMD_ENTER_ID);

    // Read chip ID
    let id_low = flash.read_byte(0);
    let id_high = flash.read_byte(1);
    let chip_id = (id_high as u16) << 8 | id_low as u16;

    assert_eq!(chip_id, FLASH_MACRONIX_64K);
}

#[test]
fn save_tests_test_flash_write_byte() {
    let mut flash = Flash::new(SaveType::Flash64K);

    flash.write_byte(FLASH_ADDR_CMD1, FLASH_CMD_WRITE_ENABLE);
    flash.write_byte(FLASH_ADDR_CMD2, FLASH_CMD_WRITE_DISABLE);
    flash.write_byte(FLASH_ADDR_CMD1, FLASH_CMD_WRITE_BYTE);
    flash.write_byte(0x100, 0x42);

    assert_eq!(flash.read_byte(0x100), 0x42);
}

#[test]
fn save_tests_test_flash_erase_sector() {
    let mut flash = Flash::new(SaveType::Flash64K);

    // Write data
    flash.write_byte(FLASH_ADDR_CMD1, FLASH_CMD_WRITE_ENABLE);
    flash.write_byte(FLASH_ADDR_CMD2, FLASH_CMD_WRITE_DISABLE);
    flash.write_byte(FLASH_ADDR_CMD1, FLASH_CMD_WRITE_BYTE);
    flash.write_byte(0, 0x42);

    // Erase sector
    flash.write_byte(FLASH_ADDR_CMD1, FLASH_CMD_WRITE_ENABLE);
    flash.write_byte(FLASH_ADDR_CMD2, FLASH_CMD_WRITE_DISABLE);
    flash.write_byte(FLASH_ADDR_CMD1, FLASH_CMD_ERASE_SECTOR);
    flash.write_byte(0, 0x30);

    assert_eq!(flash.read_byte(0), 0xFF);
}

#[test]
fn save_tests_test_eeprom_basic() {
    let eeprom = Eeprom::new(SaveType::Eeprom512B);
    assert_eq!(eeprom.data().len(), 512);
}

#[test]
fn save_tests_test_eeprom_8k() {
    let eeprom = Eeprom::new(SaveType::Eeprom8K);
    assert_eq!(eeprom.data().len(), 8192);
}

#[test]
fn save_tests_test_save_controller_no_save() {
    let controller = SaveController::new();
    assert_eq!(controller.save_type(), SaveType::NoSave);
    assert!(!controller.is_modified());
}

#[test]
fn save_tests_test_save_controller_sram_detection() {
    let mut controller = SaveController::new();
    let mut rom = vec![0u8; 1024];
    let marker = b"SRAM_V123";
    rom[100..100 + marker.len()].copy_from_slice(marker);

    controller.init_from_rom(&rom, None);
    assert_eq!(controller.save_type(), SaveType::Sram);
}

#[test]
fn save_tests_test_save_controller_sram_read_write() {
    let mut controller = SaveController::new();
    let mut rom = vec![0u8; 1024];
    let marker = b"SRAM_V";
    rom[100..100 + marker.len()].copy_from_slice(marker);

    controller.init_from_rom(&rom, None);

    controller.write_byte(0, 0x42);
    controller.write_byte(100, 0xAB);
    assert!(controller.is_modified());

    assert_eq!(controller.read_byte(0), 0x42);
    assert_eq!(controller.read_byte(100), 0xAB);
}

#[test]
fn save_tests_test_save_controller_flash_detection() {
    let mut controller = SaveController::new();
    let mut rom = vec![0u8; 1024];
    let marker = b"FLASH1M_V";
    rom[100..100 + marker.len()].copy_from_slice(marker);

    controller.init_from_rom(&rom, None);
    assert_eq!(controller.save_type(), SaveType::Flash128K);
}
