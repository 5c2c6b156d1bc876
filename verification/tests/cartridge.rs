use ugbe::bootrom::{BootRom, Error as BootRomError};
use ugbe::cartridge::{
    decode_ram_size, decode_rom_size, CGBSupport, Cartridge, DestinationCode, Error, Header, HeaderError, Kind,
    LicenseeCode, ManufacturerCode, RamSize, RomSize, SGBSupport, NINTENDO_LOGO,
};

/// Stores the two checksums of a ROM image.
fn seal(rom: &mut Vec<u8>) {
    let mut x: u8 = 0;
    for i in 0x134..=0x14C {
        x = x.wrapping_sub(rom[i]).wrapping_sub(1);
    }
    rom[0x14D] = x;
    let mut sum: u16 = 0;
    for (i, byte) in rom.iter().enumerate() {
        if i != 0x14E && i != 0x14F {
            sum = sum.wrapping_add(*byte as u16);
        }
    }
    rom[0x14E] = (sum >> 8) as u8;
    rom[0x14F] = (sum & 0xFF) as u8;
}

/// A 32 KiB ROM without controller, titled "TEST", made for overseas by Nintendo.
fn plain_rom() -> Vec<u8> {
    let mut rom = vec![0u8; 0x8000];
    rom[0x104..0x134].copy_from_slice(&NINTENDO_LOGO);
    rom[0x134..0x138].copy_from_slice(b"TEST");
    rom[0x14A] = 0x01;
    rom[0x14B] = 0x01;
    rom[0x14C] = 0x02;
    seal(&mut rom);
    rom
}

#[test]
fn boot_rom_of_256_bytes_is_accepted() {
    let mut data = vec![0u8; 0x100];
    data[0x10] = 0x31;
    let boot = BootRom::new(data).unwrap();
    assert_eq!(boot.read(0x10), 0x31);
    assert_eq!(boot.read(0xFF), 0x00);
    assert_eq!(boot.duplicate().read(0x10), 0x31);
}

#[test]
fn boot_rom_of_other_size_is_rejected() {
    assert_eq!(BootRom::new(vec![0u8; 0x80]).unwrap_err(), BootRomError::InvalidSize(0x80, 0x100));
    assert_eq!(BootRom::new(vec![0u8; 0x101]).unwrap_err(), BootRomError::InvalidSize(0x101, 0x100));
}

#[test]
fn header_of_a_plain_rom() {
    let rom = plain_rom();
    let header = Header::from_rom(&rom).unwrap();
    assert_eq!(header.title, "TEST");
    assert_eq!(header.kind, Kind::NoMBC { ram: false, battery: false });
    assert_eq!(header.rom_size, RomSize(0x8000));
    assert_eq!(header.ram_size, RamSize(0));
    assert_eq!(header.manufacturer_code, ManufacturerCode(None));
    assert_eq!(header.licensee_code, LicenseeCode::Old(0x01));
    assert_eq!(header.destination_code, DestinationCode::Overseas);
    assert_eq!(header.cgb_suppport, CGBSupport::Unsupported);
    assert_eq!(header.sgb_suppport, SGBSupport::Unsupported);
    assert_eq!(header.rom_version, 0x02);
    assert_eq!(header.checksum, rom[0x14D]);
    assert_eq!(header.global_checksum, (rom[0x14E] as u16) * 256 + rom[0x14F] as u16);
}

#[test]
fn header_of_a_cgb_rom_with_new_licensee() {
    let mut rom = plain_rom();
    rom[0x13F..0x143].copy_from_slice(b"ABCD");
    rom[0x143] = 0xC0;
    rom[0x144] = b'0';
    rom[0x145] = b'1';
    rom[0x146] = 0x03;
    rom[0x147] = 0x1B;
    rom[0x149] = 0x03;
    rom[0x14A] = 0x00;
    rom[0x14B] = 0x33;
    seal(&mut rom);
    let header = Header::from_rom(&rom).unwrap();
    assert_eq!(header.title, "TEST");
    assert_eq!(header.manufacturer_code, ManufacturerCode(Some("ABCD".to_string())));
    assert_eq!(header.cgb_suppport, CGBSupport::Required);
    assert_eq!(header.sgb_suppport, SGBSupport::Supported);
    assert_eq!(header.licensee_code, LicenseeCode::New([b'0', b'1']));
    assert_eq!(header.destination_code, DestinationCode::Japan);
    assert_eq!(header.kind, Kind::MBC5 { ram: true, battery: true, rumble: false });
    assert_eq!(header.ram_size, RamSize(0x8000));
}

#[test]
fn header_of_a_too_small_rom() {
    assert_eq!(Header::from_rom(&[0u8; 0x100]).unwrap_err(), HeaderError::RomTooSmall(0x100, 0x150));
}

#[test]
fn header_with_bad_checksum() {
    let mut rom = plain_rom();
    let good = rom[0x14D];
    rom[0x14D] = good.wrapping_add(1);
    assert_eq!(Header::from_rom(&rom).unwrap_err(), HeaderError::BadHeaderChecksum(good, good.wrapping_add(1)));
}

#[test]
fn header_with_bad_global_checksum() {
    let mut rom = plain_rom();
    let stored = (rom[0x14E] as u16) * 256 + rom[0x14F] as u16;
    rom[0x7FFF] = 1;
    assert_eq!(Header::from_rom(&rom).unwrap_err(), HeaderError::BadGlobalChecksum(stored.wrapping_add(1), stored));
}

#[test]
fn header_with_bad_logo() {
    let mut rom = plain_rom();
    rom[0x110] ^= 0xFF;
    seal(&mut rom);
    assert_eq!(Header::from_rom(&rom).unwrap_err(), HeaderError::InvalidNintendoLogo);
}

#[test]
fn header_with_title_not_utf8() {
    let mut rom = plain_rom();
    rom[0x134] = 0xFF;
    seal(&mut rom);
    let mut expected = vec![0u8; 16];
    expected[0] = 0xFF;
    expected[1..4].copy_from_slice(b"EST");
    assert_eq!(Header::from_rom(&rom).unwrap_err(), HeaderError::TitleNotUtf8(expected));
}

#[test]
fn header_with_manufacturer_code_not_utf8() {
    let mut rom = plain_rom();
    rom[0x143] = 0x80;
    rom[0x13F] = 0xC3;
    seal(&mut rom);
    assert_eq!(Header::from_rom(&rom).unwrap_err(), HeaderError::ManufacturerCodeNotUtf8(vec![0xC3, 0, 0, 0]));
}

#[test]
fn header_with_old_licensee_but_sgb() {
    let mut rom = plain_rom();
    rom[0x146] = 0x03;
    seal(&mut rom);
    assert_eq!(Header::from_rom(&rom).unwrap_err(), HeaderError::OldLicenseeCodeForSGBSupport(0x01));
}

#[test]
fn header_with_unknown_rom_size() {
    let mut rom = plain_rom();
    rom[0x148] = 0x20;
    seal(&mut rom);
    assert_eq!(Header::from_rom(&rom).unwrap_err(), HeaderError::UnknownRomSize(0x20));
}

#[test]
fn header_with_wrong_rom_size() {
    let mut rom = plain_rom();
    rom[0x148] = 0x01;
    seal(&mut rom);
    assert_eq!(Header::from_rom(&rom).unwrap_err(), HeaderError::InvalidRomSize(0x8000, 0x10000));
}

#[test]
fn header_with_unknown_ram_size() {
    let mut rom = plain_rom();
    rom[0x149] = 0x07;
    seal(&mut rom);
    assert_eq!(Header::from_rom(&rom).unwrap_err(), HeaderError::UnknownRamSize(0x07));
}

#[test]
fn size_codes() {
    assert_eq!(decode_rom_size(0x00), Some(0x8000));
    assert_eq!(decode_rom_size(0x05), Some(0x100000));
    assert_eq!(decode_rom_size(0x09), None);
    assert_eq!(decode_ram_size(0x00), Some(0));
    assert_eq!(decode_ram_size(0x03), Some(0x8000));
    assert_eq!(decode_ram_size(0x06), None);
}

#[test]
fn cartridge_gets_a_zeroed_ram_of_the_header_size() {
    let mut rom = plain_rom();
    rom[0x147] = 0x08;
    rom[0x149] = 0x02;
    seal(&mut rom);
    let mut cartridge = Cartridge::from_rom(rom.clone()).unwrap();
    assert_eq!(cartridge.rom(), rom.as_slice());
    assert_eq!(cartridge.ram().unwrap().len(), 0x2000);
    assert!(cartridge.ram().unwrap().iter().all(|b| *b == 0));
    cartridge.mut_ram().unwrap()[5] = 9;
    assert_eq!(cartridge.ram().unwrap()[5], 9);
    assert_eq!(cartridge.header().kind, Kind::NoMBC { ram: true, battery: false });
}

#[test]
fn cartridge_without_ram() {
    let cartridge = Cartridge::from_rom(plain_rom()).unwrap();
    assert!(cartridge.ram().is_none());
}

#[test]
fn cartridge_with_bad_header() {
    assert_eq!(
        Cartridge::from_rom(vec![0u8; 0x20]).unwrap_err(),
        Error::ParseHeaderError(HeaderError::RomTooSmall(0x20, 0x150))
    );
}

#[test]
fn kind_flags_and_names() {
    let kind = Kind::MBC3 { ram: true, battery: true, timer: true };
    assert!(kind.ram() && kind.battery() && kind.timer() && !kind.rumble() && !kind.sensor());
    assert_eq!(kind.name(), "MBC3 (RAM + BATTERY + TIMER)");
    assert_eq!(Kind::NoMBC { ram: false, battery: false }.name(), "No MBC");
    assert_eq!(Kind::MBC1 { ram: false, battery: false, multi_cart: true }.name(), "MMBC1");
    assert_eq!(Kind::MBC7 { ram: false, battery: false, rumble: true, sensor: true }.name(), "MBC7 (RUMBLE + SENSOR)");
    assert_eq!(Kind::Unknown(0xAB).name(), "Unknown (0xab)");
}

#[test]
fn licensee_names() {
    assert_eq!(LicenseeCode::New([b'0', b'1']).name(), "nintendo");
    assert_eq!(LicenseeCode::New([b'Z', b'Z']).name(), "unknown new code (0x5a 0x5a)");
    assert_eq!(LicenseeCode::Old(0x01).name(), "nintendo");
    assert_eq!(LicenseeCode::Old(0xFE).name(), "unknown old code (0xfe)");
}

#[test]
fn other_names() {
    assert_eq!(CGBSupport::Supported.name(), "yes");
    assert_eq!(CGBSupport::Required.name(), "required");
    assert_eq!(SGBSupport::Unsupported.name(), "no");
    assert_eq!(ManufacturerCode(None).name(), "none");
    assert_eq!(ManufacturerCode(Some("ABCD".to_string())).name(), "ABCD");
    assert_eq!(DestinationCode::Japan.name(), "japan");
    assert_eq!(DestinationCode::Invalid(0x1F).name(), "invalid (0x1f");
}

#[test]
fn size_names() {
    assert_eq!(RomSize(0x8000).name(), "32 KiB (2 banks of 16 KiB)");
    assert_eq!(RomSize(0x100000).name(), "1 MiB (64 banks of 16 KiB)");
    assert_eq!(RomSize(0x180000).name(), "1.4 MiB (96 banks of 16 KiB)");
    assert_eq!(RomSize(0x8000).bank_count(), 2);
    assert_eq!(RamSize(0x8000).name(), "32 KiB (4 banks of 8 KiB)");
    assert_eq!(RamSize(0x800).bank_count(), 0);
}

#[test]
fn small_mbc1_headers_are_flagged() {
    let mut rom = plain_rom();
    rom[0x147] = 0x01;
    seal(&mut rom);
    assert!(!ugbe::cartridge::kind_in_reach(&rom));
    rom[0x14D] ^= 0xFF;
    assert!(ugbe::cartridge::kind_in_reach(&rom));
    assert!(ugbe::cartridge::kind_in_reach(&plain_rom()));
    assert!(ugbe::cartridge::kind_in_reach(&[0u8; 0x20]));
}
