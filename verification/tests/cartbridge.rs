use ugbe::bootrom::BootRom;
use ugbe::gameboy::cartbridge::Cartbridge;
use ugbe::gameboy::hardware::cartbridge::Cartbridge as PlainCartbridge;
use ugbe::gameboy::hardware::Hardware;

fn image(len: usize, kind: u8, rom_code: u8, ram_code: u8) -> Vec<u8> {
    let mut data = vec![0u8; len];
    data[0x134..0x138].copy_from_slice(b"TEST");
    data[0x147] = kind;
    data[0x148] = rom_code;
    data[0x149] = ram_code;
    data
}

#[test]
fn plain_image_without_controller() {
    let mut data = image(0x8000, 0x00, 0x00, 0x00);
    data[0x4123] = 0x77;
    let c = Cartbridge::from(data);
    assert_eq!(c.title_str(), "TEST");
    assert_eq!(c.read_rom_bank_0(0x134), b'T');
    assert_eq!(c.read_rom_bank_n(0x0123), 0x77);
    assert_eq!(c.read_ram(0x0000), 0xFF);
}

#[test]
fn title_is_decoded_lossily() {
    let mut data = image(0x8000, 0x00, 0x00, 0x00);
    data[0x134] = 0xFF;
    let c = Cartbridge::from(data);
    assert_eq!(c.title_str(), "\u{FFFD}EST");
}

#[test]
fn mbc5_switches_banks_and_keeps_its_ram() {
    let mut data = image(0x10000, 0x1A, 0x01, 0x02);
    data[0xC000] = 0x42;
    let mut c = Cartbridge::from(data);
    assert_eq!(c.read_rom_bank_n(0x0000), 0x00);
    c.write_rom(0x2000, 3);
    assert_eq!(c.read_rom_bank_n(0x0000), 0x42);
    c.write_rom(0x2000, 5);
    assert_eq!(c.read_rom_bank_n(0x0000), 0x00);
    c.write_ram(0x0010, 5);
    assert_eq!(c.read_ram(0x0010), 5);
}

#[test]
fn mbc1_ram_needs_enabling() {
    let mut c = Cartbridge::from(image(0x10000, 0x02, 0x01, 0x02));
    c.write_ram(0x0010, 5);
    assert_eq!(c.read_ram(0x0010), 0xFF);
    c.write_rom(0x0000, 0x0A);
    c.write_ram(0x0010, 5);
    assert_eq!(c.read_ram(0x0010), 5);
}

#[test]
fn early_memory_map() {
    let mut data = image(0x8000, 0x00, 0x00, 0x00);
    data[0x0150] = 0x12;
    data[0x4000] = 0x34;
    let cartbridge = PlainCartbridge::from(data);
    assert_eq!(cartbridge.read_rom_bank0(0x0150), 0x12);
    assert_eq!(cartbridge.read_rom_bankN(0x0000), 0x34);
    let mut hw = Hardware::new(BootRom::new(vec![0x31; 0x100]).unwrap(), cartbridge);
    assert_eq!(hw.read_byte(0x0000), 0x31);
    assert_eq!(hw.read_byte(0x0150), 0x12);
    assert_eq!(hw.read_byte(0x4000), 0x34);
    assert_eq!(hw.read_byte(0xA000), 0xFF);
    hw.write_byte(0xC010, 0x55);
    assert_eq!(hw.read_byte(0xE010), 0x55);
    hw.write_byte(0xD010, 0x66);
    assert_eq!(hw.read_byte(0xD010), 0x66);
    hw.write_byte(0xFF50, 0x01);
    assert_eq!(hw.read_byte(0x0000), 0x00);
    assert_eq!(hw.read_byte(0xFF50), 0xFE);
    hw.write_byte(0xFF46, 0xC0);
    assert_eq!(hw.read_byte(0xFE10), 0x55);
    hw.write_byte(0xFFFF, 0x01);
    hw.write_byte(0xFF0F, 0x01);
    assert_eq!(hw.read_byte(0xFFFF), 0xE1);
    assert_eq!(hw.read_byte(0xFF0F), 0xE1);
}

#[test]
fn early_cartridge_reads_its_whole_rom_through_the_first_window() {
    let mut data = image(0x8000, 0x00, 0x00, 0x00);
    data[0x7FFF] = 0x99;
    let c = PlainCartbridge::from(data);
    assert_eq!(c.read_rom_bank0(0x7FFF), 0x99);
    assert_eq!(c.read_rom_bankN(0x3FFF), 0x99);
}
