use vstd::prelude::*;

pub mod names;

verus! {

/// The logo every licensed cartridge stores at 0x0104..=0x0133.
pub const NINTENDO_LOGO: [u8; 48] = [
    0xCE, 0xED, 0x66, 0x66, 0xCC, 0x0D, 0x00, 0x0B, 0x03, 0x73, 0x00, 0x83, 0x00, 0x0C, 0x00, 0x0D,
    0x00, 0x08, 0x11, 0x1F, 0x88, 0x89, 0x00, 0x0E, 0xDC, 0xCC, 0x6E, 0xE6, 0xDD, 0xDD, 0xD9, 0x99,
    0xBB, 0xBB, 0x67, 0x63, 0x6E, 0x0E, 0xEC, 0xCC, 0xDD, 0xDC, 0x99, 0x9F, 0xBB, 0xB9, 0x33, 0x3E,
];

/// Smallest ROM holding a whole cartridge header.
pub const HEADER_END: usize = 0x150;

/// Smallest ROM for which the four multi-cart logo slots can be inspected.
pub const MULTI_CART_SPAN: usize = 3 * 0x40000 + 0x0104 + 48;

/// Reasons for which a ROM header is rejected.
#[derive(Clone, Debug, PartialEq, Eq)]
pub enum HeaderError {
    /// The ROM is too small to contain a header (got, expected at least).
    RomTooSmall(usize, usize),
    /// The title bytes are not valid UTF-8.
    TitleNotUtf8(Vec<u8>),
    /// The manufacturer code bytes are not valid UTF-8.
    ManufacturerCodeNotUtf8(Vec<u8>),
    /// The old licensee code is not 0x33 although SGB support is announced.
    OldLicenseeCodeForSGBSupport(u8),
    /// Bad header checksum (computed, stored).
    BadHeaderChecksum(u8, u8),
    /// Bad global checksum (computed, stored).
    BadGlobalChecksum(u16, u16),
    /// The Nintendo logo is not the expected one.
    InvalidNintendoLogo,
    /// Unknown ROM size code.
    UnknownRomSize(u8),
    /// The ROM does not have the size announced by the header (got, announced).
    InvalidRomSize(usize, usize),
    /// Unknown RAM size code.
    UnknownRamSize(u8),
}

/// Game Boy Color support announced by a cartridge.
#[derive(Clone, Copy, Debug, PartialEq, Eq, Structural)]
pub enum CGBSupport {
    Unsupported,
    Supported,
    Required,
}

/// Super Game Boy support announced by a cartridge.
#[derive(Clone, Copy, Debug, PartialEq, Eq, Structural)]
pub enum SGBSupport {
    Unsupported,
    Supported,
}

/// Manufacturer code of a CGB cartridge (absent on older cartridges).
#[derive(Clone, Debug, PartialEq, Eq)]
pub struct ManufacturerCode(pub Option<String>);

/// Licensee code, stored in two ASCII bytes on newer cartridges and one byte on older ones.
#[derive(Clone, Copy, Debug, PartialEq, Eq)]
pub enum LicenseeCode {
    New([u8; 2]),
    Old(u8),
}

/// Destination of the cartridge.
#[derive(Clone, Copy, Debug, PartialEq, Eq, Structural)]
pub enum DestinationCode {
    Japan,
    Overseas,
    Invalid(u8),
}

/// Cartridge hardware: memory bank controller and extra components.
#[derive(Clone, Copy, Debug, PartialEq, Eq, Structural)]
pub enum Kind {
    NoMBC { ram: bool, battery: bool },
    MBC1 { ram: bool, battery: bool, multi_cart: bool },
    MBC2 { ram: bool, battery: bool },
    MBC3 { ram: bool, battery: bool, timer: bool },
    MBC5 { ram: bool, battery: bool, rumble: bool },
    MBC6,
    MBC7 { ram: bool, battery: bool, rumble: bool, sensor: bool },
    MMM01 { ram: bool, battery: bool },
    HuC1 { ram: bool, battery: bool },
    HuC3,
    PocketCamera,
    BandaiTama5,
    Unknown(u8),
}

/// Whether the 48 bytes of `rom` starting at `start` are the Nintendo logo.
pub open spec fn logo_at(rom: Seq<u8>, start: int) -> bool {
    &&& 0 <= start
    &&& start + 48 <= rom.len()
    &&& rom.subrange(start, start + 48) =~= NINTENDO_LOGO@
}

/// Number of the four multi-cart slots (one every 256 KiB) that hold the Nintendo logo.
pub open spec fn multi_cart_logo_count(rom: Seq<u8>) -> int {
    (if logo_at(rom, 0x0104) { 1int } else { 0int })
    + (if logo_at(rom, 0x40104) { 1int } else { 0int })
    + (if logo_at(rom, 0x80104) { 1int } else { 0int })
    + (if logo_at(rom, 0xC0104) { 1int } else { 0int })
}

/// A multi-cart holds at least two games and a menu, each with a valid logo.
pub open spec fn spec_is_multi_cart(rom: Seq<u8>) -> bool {
    multi_cart_logo_count(rom) >= 3
}

/// The cartridge kind announced by the type byte at 0x147.
pub open spec fn spec_kind(code: u8, multi_cart: bool) -> Kind {
    if code == 0x00 { Kind::NoMBC { ram: false, battery: false } }
    else if code == 0x08 { Kind::NoMBC { ram: true, battery: false } }
    else if code == 0x09 { Kind::NoMBC { ram: true, battery: true } }
    else if code == 0x01 { Kind::MBC1 { ram: false, battery: false, multi_cart } }
    else if code == 0x02 { Kind::MBC1 { ram: true, battery: false, multi_cart } }
    else if code == 0x03 { Kind::MBC1 { ram: true, battery: true, multi_cart } }
    else if code == 0x05 { Kind::MBC2 { ram: false, battery: false } }
    else if code == 0x06 { Kind::MBC2 { ram: true, battery: true } }
    else if code == 0x0F { Kind::MBC3 { ram: false, battery: true, timer: true } }
    else if code == 0x10 { Kind::MBC3 { ram: true, battery: true, timer: true } }
    else if code == 0x11 { Kind::MBC3 { ram: false, battery: false, timer: false } }
    else if code == 0x12 { Kind::MBC3 { ram: true, battery: false, timer: false } }
    else if code == 0x13 { Kind::MBC3 { ram: true, battery: true, timer: false } }
    else if code == 0x19 { Kind::MBC5 { ram: false, battery: false, rumble: false } }
    else if code == 0x1A { Kind::MBC5 { ram: true, battery: false, rumble: false } }
    else if code == 0x1B { Kind::MBC5 { ram: true, battery: true, rumble: false } }
    else if code == 0x1C { Kind::MBC5 { ram: false, battery: false, rumble: true } }
    else if code == 0x1D { Kind::MBC5 { ram: true, battery: false, rumble: true } }
    else if code == 0x1E { Kind::MBC5 { ram: true, battery: true, rumble: true } }
    else if code == 0x20 { Kind::MBC6 }
    else if code == 0x22 { Kind::MBC7 { ram: true, battery: true, rumble: true, sensor: true } }
    else if code == 0x0B { Kind::MMM01 { ram: false, battery: false } }
    else if code == 0x0C { Kind::MMM01 { ram: true, battery: false } }
    else if code == 0x0D { Kind::MMM01 { ram: true, battery: true } }
    else if code == 0xFF { Kind::HuC1 { ram: true, battery: true } }
    else if code == 0xFE { Kind::HuC3 }
    else if code == 0xFC { Kind::PocketCamera }
    else if code == 0xFD { Kind::BandaiTama5 }
    else { Kind::Unknown(code) }
}

/// Whether the type byte announces an MBC1 cartridge.
pub open spec fn is_mbc1_code(code: u8) -> bool {
    code == 0x01 || code == 0x02 || code == 0x03
}

impl Kind {
    pub open spec fn spec_ram(self) -> bool {
        match self {
            Kind::NoMBC { ram, .. } => ram,
            Kind::MBC1 { ram, .. } => ram,
            Kind::MBC2 { ram, .. } => ram,
            Kind::MBC3 { ram, .. } => ram,
            Kind::MBC5 { ram, .. } => ram,
            Kind::MBC7 { ram, .. } => ram,
            Kind::MMM01 { ram, .. } => ram,
            Kind::HuC1 { ram, .. } => ram,
            _ => false,
        }
    }

    pub open spec fn spec_battery(self) -> bool {
        match self {
            Kind::NoMBC { battery, .. } => battery,
            Kind::MBC1 { battery, .. } => battery,
            Kind::MBC2 { battery, .. } => battery,
            Kind::MBC3 { battery, .. } => battery,
            Kind::MBC5 { battery, .. } => battery,
            Kind::MBC7 { battery, .. } => battery,
            Kind::MMM01 { battery, .. } => battery,
            Kind::HuC1 { battery, .. } => battery,
            _ => false,
        }
    }

    /// Whether the cartridge has external RAM.
    pub fn ram(&self) -> (r: bool)
        ensures
            r == self.spec_ram(),
    {
        match self {
            Kind::NoMBC { ram, .. } => *ram,
            Kind::MBC1 { ram, .. } => *ram,
            Kind::MBC2 { ram, .. } => *ram,
            Kind::MBC3 { ram, .. } => *ram,
            Kind::MBC5 { ram, .. } => *ram,
            Kind::MBC7 { ram, .. } => *ram,
            Kind::MMM01 { ram, .. } => *ram,
            Kind::HuC1 { ram, .. } => *ram,
            _ => false,
        }
    }

    /// Whether the external RAM is kept alive by a battery.
    pub fn battery(&self) -> (r: bool)
        ensures
            r == self.spec_battery(),
    {
        match self {
            Kind::NoMBC { battery, .. } => *battery,
            Kind::MBC1 { battery, .. } => *battery,
            Kind::MBC2 { battery, .. } => *battery,
            Kind::MBC3 { battery, .. } => *battery,
            Kind::MBC5 { battery, .. } => *battery,
            Kind::MBC7 { battery, .. } => *battery,
            Kind::MMM01 { battery, .. } => *battery,
            Kind::HuC1 { battery, .. } => *battery,
            _ => false,
        }
    }

    /// Whether the cartridge has a real-time clock (only MBC3 may have one).
    pub fn timer(&self) -> (r: bool)
        ensures
            r == (self matches Kind::MBC3 { timer: true, .. }),
    {
        match self {
            Kind::MBC3 { timer, .. } => *timer,
            _ => false,
        }
    }

    /// Whether the cartridge has a rumble motor (MBC5 or MBC7).
    pub fn rumble(&self) -> (r: bool)
        ensures
            r == (self matches Kind::MBC5 { rumble: true, .. } || self matches Kind::MBC7 { rumble: true, .. }),
    {
        match self {
            Kind::MBC5 { rumble, .. } => *rumble,
            Kind::MBC7 { rumble, .. } => *rumble,
            _ => false,
        }
    }

    /// Whether the cartridge has an accelerometer (only MBC7 may have one).
    pub fn sensor(&self) -> (r: bool)
        ensures
            r == (self matches Kind::MBC7 { sensor: true, .. }),
    {
        match self {
            Kind::MBC7 { sensor, .. } => *sensor,
            _ => false,
        }
    }

    /// Whether `rom` is a multi-cart: at least three of the four 256 KiB slots start with a
    /// valid header logo (two games and a menu).
    pub fn is_multi_cart(rom: &[u8]) -> (r: bool)
        requires
            rom@.len() >= MULTI_CART_SPAN,
        ensures
            r == spec_is_multi_cart(rom@),
    {
        let mut count: usize = 0;
        let mut idx: usize = 0;
        while idx < 4
            invariant
                rom@.len() >= MULTI_CART_SPAN,
                idx <= 4,
                count as int == (if idx > 0 && logo_at(rom@, 0x0104) { 1int } else { 0int })
                    + (if idx > 1 && logo_at(rom@, 0x40104) { 1int } else { 0int })
                    + (if idx > 2 && logo_at(rom@, 0x80104) { 1int } else { 0int })
                    + (if idx > 3 && logo_at(rom@, 0xC0104) { 1int } else { 0int }),
            decreases 4 - idx,
        {
            let start: usize = idx * 0x40000 + 0x0104;
            if logo_matches(rom, start) {
                count = count + 1;
            }
            idx = idx + 1;
        }
        count >= 3
    }
}

/// Whether the Nintendo logo is stored at `start` in `rom`.
fn logo_matches(rom: &[u8], start: usize) -> (r: bool)
    requires
        start + 48 <= rom@.len(),
    ensures
        r == logo_at(rom@, start as int),
{
    let mut i: usize = 0;
    while i < 48
        invariant
            start + 48 <= rom.len(),
            i <= 48,
            forall|j: int| 0 <= j < i ==> rom@[start + j] == NINTENDO_LOGO@[j],
        decreases 48 - i,
    {
        if rom[start + i] != NINTENDO_LOGO[i] {
            proof {
                assert(rom@.subrange(start as int, start + 48)[i as int] != NINTENDO_LOGO@[i as int]);
            }
            return false;
        }
        i = i + 1;
    }
    assert(rom@.subrange(start as int, start + 48) =~= NINTENDO_LOGO@);
    true
}

/// Size of the cartridge ROM in bytes.
#[derive(Clone, Copy, Debug, PartialEq, Eq, Structural)]
pub struct RomSize(pub usize);

impl RomSize {
    /// Size of a ROM bank.
    pub const BANK_SIZE: usize = 16 * 1024;

    /// Number of 16 KiB banks.
    pub fn bank_count(&self) -> (r: usize)
        ensures
            r == self.0 / 0x4000,
    {
        self.0 / Self::BANK_SIZE
    }
}

/// Size of the cartridge RAM in bytes.
#[derive(Clone, Copy, Debug, PartialEq, Eq, Structural)]
pub struct RamSize(pub usize);

impl RamSize {
    /// Size of a RAM bank.
    pub const BANK_SIZE: usize = 8 * 1024;

    /// Number of 8 KiB banks.
    pub fn bank_count(&self) -> (r: usize)
        ensures
            r == self.0 / 0x2000,
    {
        self.0 / Self::BANK_SIZE
    }
}

/// ROM size announced by the code at 0x148, if the code is known.
pub open spec fn spec_rom_size(code: u8) -> Option<usize> {
    if code == 0x00 { Some(0x8000) }
    else if code == 0x01 { Some(0x10000) }
    else if code == 0x02 { Some(0x20000) }
    else if code == 0x03 { Some(0x40000) }
    else if code == 0x04 { Some(0x80000) }
    else if code == 0x05 { Some(0x100000) }
    else if code == 0x06 { Some(0x200000) }
    else if code == 0x07 { Some(0x400000) }
    else if code == 0x08 { Some(0x800000) }
    else if code == 0x52 { Some(0x120000) }
    else if code == 0x53 { Some(0x140000) }
    else if code == 0x54 { Some(0x180000) }
    else { None }
}

/// RAM size announced by the code at 0x149, if the code is known.
pub open spec fn spec_ram_size(code: u8) -> Option<usize> {
    if code == 0x00 { Some(0) }
    else if code == 0x02 { Some(0x2000) }
    else if code == 0x03 { Some(0x8000) }
    else if code == 0x04 { Some(0x20000) }
    else if code == 0x05 { Some(0x10000) }
    else { None }
}

/// Sum of the complemented header bytes 0x134..end.
pub open spec fn header_checksum_sum(rom: Seq<u8>, end: int) -> int
    decreases end,
{
    if end <= 0x134 {
        0
    } else {
        header_checksum_sum(rom, end - 1) + (255 - rom[end - 1])
    }
}

/// The header checksum: the sum of the complements of bytes 0x134..=0x14C, modulo 256.
pub open spec fn spec_header_checksum(rom: Seq<u8>) -> u8 {
    (header_checksum_sum(rom, 0x14D) % 256) as u8
}

/// Sum of the bytes 0..end of `rom`, leaving out the two global checksum bytes.
pub open spec fn global_sum(rom: Seq<u8>, end: int) -> int
    decreases end,
{
    if end <= 0 {
        0
    } else {
        global_sum(rom, end - 1) + (if end - 1 == 0x14E || end - 1 == 0x14F { 0 } else { rom[end - 1] as int })
    }
}

/// The global checksum: the sum of every byte but the checksum's own two, modulo 65536.
pub open spec fn spec_global_checksum(rom: Seq<u8>) -> u16 {
    (global_sum(rom, rom.len() as int) % 65536) as u16
}

/// The global checksum stored (big endian) at 0x14E.
pub open spec fn stored_global_checksum(rom: Seq<u8>) -> u16 {
    (rom[0x14E] * 256 + rom[0x14F]) as u16
}

/// The CGB flag at 0x143.
pub open spec fn spec_cgb_support(flag: u8) -> CGBSupport {
    if flag == 0x80 { CGBSupport::Supported } else if flag == 0xC0 { CGBSupport::Required } else { CGBSupport::Unsupported }
}

/// The SGB flag at 0x146.
pub open spec fn spec_sgb_support(flag: u8) -> SGBSupport {
    if flag == 0x03 { SGBSupport::Supported } else { SGBSupport::Unsupported }
}

/// End (exclusive) of the title: 16 bytes on DMG cartridges, 11 on CGB ones.
pub open spec fn title_end(rom: Seq<u8>) -> int {
    if spec_cgb_support(rom[0x143]) == CGBSupport::Unsupported { 0x144 } else { 0x13F }
}

/// The raw title bytes.
pub open spec fn title_bytes(rom: Seq<u8>) -> Seq<u8> {
    rom.subrange(0x134, title_end(rom))
}

/// The raw manufacturer code bytes, present on CGB cartridges only.
pub open spec fn manufacturer_bytes(rom: Seq<u8>) -> Seq<u8> {
    rom.subrange(0x13F, 0x143)
}

/// Whether the title decodes as UTF-8.
pub open spec fn title_valid(rom: Seq<u8>) -> bool {
    vstd::utf8::valid_utf8(title_bytes(rom))
}

/// Whether the manufacturer code is absent or decodes as UTF-8.
pub open spec fn manufacturer_valid(rom: Seq<u8>) -> bool {
    spec_cgb_support(rom[0x143]) == CGBSupport::Unsupported || vstd::utf8::valid_utf8(manufacturer_bytes(rom))
}

/// Index of the first character that is not NUL (the length if there is none).
pub open spec fn first_non_nul(s: Seq<char>, from: int) -> int
    decreases s.len() - from,
{
    if from >= s.len() {
        s.len() as int
    } else if s[from] != '\0' {
        from
    } else {
        first_non_nul(s, from + 1)
    }
}

/// One past the index of the last character that is not NUL, searching below `to`.
pub open spec fn last_non_nul_end(s: Seq<char>, start: int, to: int) -> int
    decreases to - start,
{
    if to <= start {
        start
    } else if s[to - 1] != '\0' {
        to
    } else {
        last_non_nul_end(s, start, to - 1)
    }
}

/// `s` without its leading and trailing NUL characters.
pub open spec fn trim_nul(s: Seq<char>) -> Seq<char> {
    let start = first_non_nul(s, 0);
    s.subrange(start, last_non_nul_end(s, start, s.len() as int))
}

/// Whether the licensee code is acceptable: when SGB is supported (or the old code says so) the
/// old code must be 0x33, meaning that the new two-byte code is used.
pub open spec fn uses_new_licensee(rom: Seq<u8>) -> bool {
    spec_sgb_support(rom[0x146]) == SGBSupport::Supported || rom[0x14B] == 0x33
}

pub open spec fn licensee_valid(rom: Seq<u8>) -> bool {
    uses_new_licensee(rom) ==> rom[0x14B] == 0x33
}

pub open spec fn spec_licensee(rom: Seq<u8>) -> LicenseeCode {
    if uses_new_licensee(rom) { LicenseeCode::New([rom[0x144], rom[0x145]]) } else { LicenseeCode::Old(rom[0x14B]) }
}

pub open spec fn spec_destination(code: u8) -> DestinationCode {
    if code == 0x00 { DestinationCode::Japan } else if code == 0x01 { DestinationCode::Overseas } else { DestinationCode::Invalid(code) }
}

/// Checks done, in this order, before the cartridge kind is read.
pub open spec fn passes_size(rom: Seq<u8>) -> bool { rom.len() >= HEADER_END }
pub open spec fn passes_checksum(rom: Seq<u8>) -> bool { passes_size(rom) && spec_header_checksum(rom) == rom[0x14D] }
pub open spec fn passes_global_checksum(rom: Seq<u8>) -> bool { passes_checksum(rom) && spec_global_checksum(rom) == stored_global_checksum(rom) }
pub open spec fn passes_logo(rom: Seq<u8>) -> bool { passes_global_checksum(rom) && logo_at(rom, 0x104) }
pub open spec fn passes_title(rom: Seq<u8>) -> bool { passes_logo(rom) && title_valid(rom) }
pub open spec fn passes_manufacturer(rom: Seq<u8>) -> bool { passes_title(rom) && manufacturer_valid(rom) }
pub open spec fn passes_licensee(rom: Seq<u8>) -> bool { passes_manufacturer(rom) && licensee_valid(rom) }
/// Checks done after the kind is read.
pub open spec fn passes_rom_size_code(rom: Seq<u8>) -> bool { passes_licensee(rom) && spec_rom_size(rom[0x148]) is Some }
pub open spec fn passes_rom_size(rom: Seq<u8>) -> bool { passes_rom_size_code(rom) && spec_rom_size(rom[0x148])->0 == rom.len() }
pub open spec fn passes_all(rom: Seq<u8>) -> bool { passes_rom_size(rom) && spec_ram_size(rom[0x149]) is Some }

/// The decoded header of a cartridge.
#[derive(Clone, Debug, PartialEq, Eq)]
pub struct Header {
    pub title: String,
    pub kind: Kind,
    pub rom_size: RomSize,
    pub ram_size: RamSize,
    pub manufacturer_code: ManufacturerCode,
    pub licensee_code: LicenseeCode,
    pub destination_code: DestinationCode,
    pub cgb_suppport: CGBSupport,
    pub sgb_suppport: SGBSupport,
    pub rom_version: u8,
    pub checksum: u8,
    pub global_checksum: u16,
}

/// Decodes bytes as UTF-8 text.
///
/// Calls `std::str::from_utf8`; the contract claims what its documentation states: it succeeds
/// exactly on valid UTF-8 and then yields the characters the bytes encode.
#[verifier::external_body]
pub(crate) fn str_from_utf8(bytes: &[u8]) -> (r: Option<&str>)
    ensures
        r is Some <==> vstd::utf8::valid_utf8(bytes@),
        r matches Some(s) ==> s@ == vstd::utf8::decode_utf8(bytes@),
{
    std::str::from_utf8(bytes).ok()
}

/// Decodes `bytes` as UTF-8 and strips leading and trailing NUL characters.
fn decode_trimmed(bytes: &[u8]) -> (r: Option<String>)
    ensures
        r is Some <==> vstd::utf8::valid_utf8(bytes@),
        r matches Some(s) ==> s@ == trim_nul(vstd::utf8::decode_utf8(bytes@)),
{
    match str_from_utf8(bytes) {
        None => None,
        Some(s) => {
            let ghost chars = s@;
            let len: usize = s.unicode_len();
            let mut start: usize = 0;
            while start < len && s.get_char(start) == '\0'
                invariant
                    len == chars.len(),
                    chars == s@,
                    start <= len,
                    first_non_nul(chars, start as int) == first_non_nul(chars, 0),
                decreases len - start,
            {
                start = start + 1;
            }
            let mut end: usize = len;
            while end > start && s.get_char(end - 1) == '\0'
                invariant
                    len == chars.len(),
                    chars == s@,
                    start <= end <= len,
                    start == first_non_nul(chars, 0),
                    last_non_nul_end(chars, start as int, end as int) == last_non_nul_end(chars, start as int, len as int),
                decreases end,
            {
                end = end - 1;
            }
            let trimmed = s.substring_char(start, end);
            Some(String::from_str(trimmed))
        }
    }
}

/// Copies `rom[start..end]` into a new vector.
fn copy_range(rom: &[u8], start: usize, end: usize) -> (r: Vec<u8>)
    requires
        start <= end <= rom@.len(),
    ensures
        r@ == rom@.subrange(start as int, end as int),
{
    let mut v: Vec<u8> = Vec::new();
    let mut i = start;
    while i < end
        invariant
            start <= i <= end <= rom@.len(),
            v@ == rom@.subrange(start as int, i as int),
        decreases end - i,
    {
        v.push(rom[i]);
        i = i + 1;
    }
    v
}

/// The header checksum as the console computes it.
fn compute_header_checksum(rom: &[u8]) -> (r: u8)
    requires
        rom@.len() >= HEADER_END,
    ensures
        r == spec_header_checksum(rom@),
{
    let mut checksum: u8 = 0;
    let mut i: usize = 0x134;
    while i < 0x14D
        invariant
            rom@.len() >= HEADER_END,
            0x134 <= i <= 0x14D,
            checksum as int == header_checksum_sum(rom@, i as int) % 256,
        decreases 0x14D - i,
    {
        let value: u8 = rom[i];
        let complement: u8 = !value;
        assert(complement == 255 - value) by (bit_vector)
            requires complement == !value;
        proof {
            let s = header_checksum_sum(rom@, i as int);
            vstd::arithmetic::div_mod::lemma_add_mod_noop(s, 255 - value, 256);
            vstd::arithmetic::div_mod::lemma_mod_twice(255 - value, 256);
            vstd::arithmetic::div_mod::lemma_small_mod((255 - value) as nat, 256);
        }
        checksum = checksum.wrapping_add(complement);
        i = i + 1;
    }
    checksum
}

/// The global checksum as the console computes it.
fn compute_global_checksum(rom: &[u8]) -> (r: u16)
    ensures
        r == spec_global_checksum(rom@),
{
    let mut checksum: u16 = 0;
    let mut i: usize = 0;
    while i < rom.len()
        invariant
            i <= rom@.len(),
            checksum as int == global_sum(rom@, i as int) % 65536,
        decreases rom@.len() - i,
    {
        let add: u16 = if i == 0x14E || i == 0x14F { 0 } else { rom[i] as u16 };
        proof {
            let s = global_sum(rom@, i as int);
            vstd::arithmetic::div_mod::lemma_add_mod_noop(s, add as int, 65536);
            vstd::arithmetic::div_mod::lemma_small_mod(add as nat, 65536);
        }
        checksum = checksum.wrapping_add(add);
        i = i + 1;
    }
    checksum
}

/// What decoding the header of `rom` gives: the first check that fails gives its error (see
/// `Header::from_rom`), and a header that passes them all is read field by field.
pub open spec fn header_decoded(rom: Seq<u8>, r: Result<Header, HeaderError>) -> bool {
    &&& (!passes_size(rom) ==> r == Err::<Header, HeaderError>(HeaderError::RomTooSmall(rom.len() as usize, HEADER_END)))
    &&& (passes_size(rom) && !passes_checksum(rom) ==> r == Err::<Header, HeaderError>(
        HeaderError::BadHeaderChecksum(spec_header_checksum(rom), rom[0x14D])))
    &&& (passes_checksum(rom) && !passes_global_checksum(rom) ==> r == Err::<Header, HeaderError>(
        HeaderError::BadGlobalChecksum(spec_global_checksum(rom), stored_global_checksum(rom))))
    &&& (passes_global_checksum(rom) && !passes_logo(rom) ==> r == Err::<Header, HeaderError>(HeaderError::InvalidNintendoLogo))
    &&& (passes_logo(rom) && !passes_title(rom) ==> (r matches Err(HeaderError::TitleNotUtf8(b)) && b@ == title_bytes(rom)))
    &&& (passes_title(rom) && !passes_manufacturer(rom) ==> (r matches Err(HeaderError::ManufacturerCodeNotUtf8(b)) && b@ == manufacturer_bytes(rom)))
    &&& (passes_manufacturer(rom) && !passes_licensee(rom) ==> r == Err::<Header, HeaderError>(HeaderError::OldLicenseeCodeForSGBSupport(rom[0x14B])))
    &&& (passes_licensee(rom) && !passes_rom_size_code(rom) ==> r == Err::<Header, HeaderError>(HeaderError::UnknownRomSize(rom[0x148])))
    &&& (passes_rom_size_code(rom) && !passes_rom_size(rom) ==> r == Err::<Header, HeaderError>(
        HeaderError::InvalidRomSize(rom.len() as usize, spec_rom_size(rom[0x148])->0)))
    &&& (passes_rom_size(rom) && !passes_all(rom) ==> r == Err::<Header, HeaderError>(HeaderError::UnknownRamSize(rom[0x149])))
    &&& (r is Ok <==> passes_all(rom))
    &&& (r matches Ok(h) ==> {
        &&& h.title@ == trim_nul(vstd::utf8::decode_utf8(title_bytes(rom)))
        &&& h.kind == spec_kind(rom[0x147], is_mbc1_code(rom[0x147]) && spec_is_multi_cart(rom))
        &&& h.rom_size == RomSize(rom.len() as usize)
        &&& h.ram_size == RamSize(spec_ram_size(rom[0x149])->0)
        &&& (spec_cgb_support(rom[0x143]) == CGBSupport::Unsupported ==> h.manufacturer_code.0 is None)
        &&& (spec_cgb_support(rom[0x143]) != CGBSupport::Unsupported ==> (h.manufacturer_code.0 matches Some(m)
                && m@ == trim_nul(vstd::utf8::decode_utf8(manufacturer_bytes(rom)))))
        &&& h.licensee_code == spec_licensee(rom)
        &&& h.destination_code == spec_destination(rom[0x14A])
        &&& h.cgb_suppport == spec_cgb_support(rom[0x143])
        &&& h.sgb_suppport == spec_sgb_support(rom[0x146])
        &&& h.rom_version == rom[0x14C]
        &&& h.checksum == rom[0x14D]
        &&& h.global_checksum == stored_global_checksum(rom)
    })
}

impl Header {
    /// Decodes and checks the header of `rom`.
    ///
    /// The checks run in this order, and the first that fails gives the error: the ROM holds a
    /// header, the header checksum, the global checksum, the Nintendo logo, the title and
    /// manufacturer code are UTF-8, the licensee code, the ROM size code, the ROM size, the RAM
    /// size code.
    pub fn from_rom(rom: &[u8]) -> (r: Result<Header, HeaderError>)
        requires
            // Reading the kind of an MBC1 cartridge inspects the four multi-cart logo slots.
            passes_licensee(rom@) && is_mbc1_code(rom@[0x147]) ==> rom@.len() >= MULTI_CART_SPAN,
        ensures
            header_decoded(rom@, r),
    {
        if rom.len() < HEADER_END {
            return Err(HeaderError::RomTooSmall(rom.len(), HEADER_END));
        }

        let checksum: u8 = compute_header_checksum(rom);
        let rom_checksum: u8 = rom[0x14D];
        if checksum != rom_checksum {
            return Err(HeaderError::BadHeaderChecksum(checksum, rom_checksum));
        }

        let global_checksum: u16 = compute_global_checksum(rom);
        let rom_global_checksum: u16 = (rom[0x14E] as u16) * 256 + (rom[0x14F] as u16);
        if global_checksum != rom_global_checksum {
            return Err(HeaderError::BadGlobalChecksum(global_checksum, rom_global_checksum));
        }

        if !logo_matches(rom, 0x104) {
            return Err(HeaderError::InvalidNintendoLogo);
        }

        // In old cartridges this byte was part of the title; CGB cartridges use a value that is
        // not an ASCII character so that the two cannot be mistaken.
        let cgb_suppport = if rom[0x143] == 0x80 {
            CGBSupport::Supported
        } else if rom[0x143] == 0xC0 {
            CGBSupport::Required
        } else {
            CGBSupport::Unsupported
        };

        // The title is 16 bytes long on old cartridges, 11 on CGB ones which then store the
        // manufacturer code in the next 4 bytes, followed by the CGB flag.
        let title_end: usize = match cgb_suppport {
            CGBSupport::Unsupported => 0x144,
            _ => 0x13F,
        };
        let title = match decode_trimmed(&rom[0x134..title_end]) {
            Some(title) => title,
            None => return Err(HeaderError::TitleNotUtf8(copy_range(rom, 0x134, title_end))),
        };
        let manufacturer_code = match cgb_suppport {
            CGBSupport::Unsupported => None,
            _ => match decode_trimmed(&rom[0x13F..0x143]) {
                Some(code) => Some(code),
                None => return Err(HeaderError::ManufacturerCodeNotUtf8(copy_range(rom, 0x13F, 0x143))),
            },
        };

        let sgb_suppport = if rom[0x146] == 0x03 {
            SGBSupport::Supported
        } else {
            SGBSupport::Unsupported
        };

        // Before the SGB the licensee code was one byte at 0x14B; later cartridges store two
        // bytes at 0x144 and must then have 0x33 as old code.
        let licensee_code = if matches!(sgb_suppport, SGBSupport::Supported) || rom[0x14B] == 0x33 {
            if rom[0x14B] != 0x33 {
                return Err(HeaderError::OldLicenseeCodeForSGBSupport(rom[0x14B]));
            }
            LicenseeCode::New([rom[0x144], rom[0x145]])
        } else {
            LicenseeCode::Old(rom[0x14B])
        };

        let destination_code = if rom[0x14A] == 0x00 {
            DestinationCode::Japan
        } else if rom[0x14A] == 0x01 {
            DestinationCode::Overseas
        } else {
            DestinationCode::Invalid(rom[0x14A])
        };

        let kind = decode_kind(rom);

        let rom_size: usize = match decode_rom_size(rom[0x148]) {
            Some(size) => size,
            None => return Err(HeaderError::UnknownRomSize(rom[0x148])),
        };
        if rom_size != rom.len() {
            return Err(HeaderError::InvalidRomSize(rom.len(), rom_size));
        }

        let ram_size: usize = match decode_ram_size(rom[0x149]) {
            Some(size) => size,
            None => return Err(HeaderError::UnknownRamSize(rom[0x149])),
        };

        Ok(Header {
            title,
            kind,
            rom_size: RomSize(rom_size),
            ram_size: RamSize(ram_size),
            manufacturer_code: ManufacturerCode(manufacturer_code),
            licensee_code,
            destination_code,
            cgb_suppport,
            sgb_suppport,
            rom_version: rom[0x14C],
            checksum: rom_checksum,
            global_checksum: rom_global_checksum,
        })
    }
}

/// Whether the header of `rom` can be decoded without reading past its end: an MBC1 header
/// that passes the checks before the kind makes the decoder look for the multi-cart logos,
/// which lie up to `MULTI_CART_SPAN` bytes in.
pub fn kind_in_reach(rom: &[u8]) -> (r: bool)
    ensures
        r == (passes_licensee(rom@) && is_mbc1_code(rom@[0x147]) ==> rom@.len() >= MULTI_CART_SPAN),
{
    if rom.len() >= MULTI_CART_SPAN || rom.len() < HEADER_END {
        return true;
    }
    let code: u8 = rom[0x147];
    if !(code == 0x01 || code == 0x02 || code == 0x03) {
        return true;
    }
    if compute_header_checksum(rom) != rom[0x14D] {
        return true;
    }
    let stored: u16 = (rom[0x14E] as u16) * 256 + (rom[0x14F] as u16);
    if compute_global_checksum(rom) != stored {
        return true;
    }
    if !logo_matches(rom, 0x104) {
        return true;
    }
    let cgb: bool = rom[0x143] == 0x80 || rom[0x143] == 0xC0;
    let title_end: usize = if cgb { 0x13F } else { 0x144 };
    if str_from_utf8(&rom[0x134..title_end]).is_none() {
        return true;
    }
    if cgb && str_from_utf8(&rom[0x13F..0x143]).is_none() {
        return true;
    }
    if (rom[0x146] == 0x03 || rom[0x14B] == 0x33) && rom[0x14B] != 0x33 {
        return true;
    }
    false
}

/// ROM size announced by a size code.
pub fn decode_rom_size(code: u8) -> (r: Option<usize>)
    ensures
        r == spec_rom_size(code),
{
    match code {
        0x00 => Some(0x8000),
        0x01 => Some(0x10000),
        0x02 => Some(0x20000),
        0x03 => Some(0x40000),
        0x04 => Some(0x80000),
        0x05 => Some(0x100000),
        0x06 => Some(0x200000),
        0x07 => Some(0x400000),
        0x08 => Some(0x800000),
        0x52 => Some(0x120000),
        0x53 => Some(0x140000),
        0x54 => Some(0x180000),
        _ => None,
    }
}

/// RAM size announced by a size code.
pub fn decode_ram_size(code: u8) -> (r: Option<usize>)
    ensures
        r == spec_ram_size(code),
{
    match code {
        0x00 => Some(0),
        0x02 => Some(0x2000),
        0x03 => Some(0x8000),
        0x04 => Some(0x20000),
        0x05 => Some(0x10000),
        _ => None,
    }
}

/// The cartridge kind announced by the type byte of `rom`.
fn decode_kind(rom: &[u8]) -> (r: Kind)
    requires
        rom@.len() >= HEADER_END,
        is_mbc1_code(rom@[0x147]) ==> rom@.len() >= MULTI_CART_SPAN,
    ensures
        r == spec_kind(rom@[0x147], is_mbc1_code(rom@[0x147]) && spec_is_multi_cart(rom@)),
{
    match rom[0x147] {
        0x00 => Kind::NoMBC { ram: false, battery: false },
        0x08 => Kind::NoMBC { ram: true, battery: false },
        0x09 => Kind::NoMBC { ram: true, battery: true },
        0x01 => Kind::MBC1 { ram: false, battery: false, multi_cart: Kind::is_multi_cart(rom) },
        0x02 => Kind::MBC1 { ram: true, battery: false, multi_cart: Kind::is_multi_cart(rom) },
        0x03 => Kind::MBC1 { ram: true, battery: true, multi_cart: Kind::is_multi_cart(rom) },
        0x05 => Kind::MBC2 { ram: false, battery: false },
        0x06 => Kind::MBC2 { ram: true, battery: true },
        0x0F => Kind::MBC3 { ram: false, battery: true, timer: true },
        0x10 => Kind::MBC3 { ram: true, battery: true, timer: true },
        0x11 => Kind::MBC3 { ram: false, battery: false, timer: false },
        0x12 => Kind::MBC3 { ram: true, battery: false, timer: false },
        0x13 => Kind::MBC3 { ram: true, battery: true, timer: false },
        0x19 => Kind::MBC5 { ram: false, battery: false, rumble: false },
        0x1A => Kind::MBC5 { ram: true, battery: false, rumble: false },
        0x1B => Kind::MBC5 { ram: true, battery: true, rumble: false },
        0x1C => Kind::MBC5 { ram: false, battery: false, rumble: true },
        0x1D => Kind::MBC5 { ram: true, battery: false, rumble: true },
        0x1E => Kind::MBC5 { ram: true, battery: true, rumble: true },
        0x20 => Kind::MBC6,
        0x22 => Kind::MBC7 { ram: true, battery: true, rumble: true, sensor: true },
        0x0B => Kind::MMM01 { ram: false, battery: false },
        0x0C => Kind::MMM01 { ram: true, battery: false },
        0x0D => Kind::MMM01 { ram: true, battery: true },
        0xFF => Kind::HuC1 { ram: true, battery: true },
        0xFE => Kind::HuC3,
        0xFC => Kind::PocketCamera,
        0xFD => Kind::BandaiTama5,
        n => Kind::Unknown(n),
    }
}


/// Why a cartridge cannot be loaded.
#[derive(Clone, Debug, PartialEq, Eq)]
pub enum Error {
    /// The header is not valid.
    ParseHeaderError(HeaderError),
}

/// A cartridge: its header, its ROM and, when the header asks for one, its RAM.
#[derive(Clone, Debug, PartialEq, Eq)]
pub struct Cartridge {
    header: Header,
    rom: Vec<u8>,
    ram: Option<Vec<u8>>,
}

impl Cartridge {
    pub closed spec fn spec_header(&self) -> Header {
        self.header
    }

    pub closed spec fn spec_rom(&self) -> Seq<u8> {
        self.rom@
    }

    /// The bytes of the RAM, none when the cartridge has no RAM.
    pub closed spec fn spec_ram(&self) -> Option<Seq<u8>> {
        match self.ram {
            Some(r) => Some(r@),
            None => None,
        }
    }

    /// Loads a cartridge from its ROM image: the header is decoded, and a RAM of the size the
    /// header gives is filled with zeroes.
    pub fn from_rom(rom: Vec<u8>) -> (r: Result<Cartridge, Error>)
        requires
            passes_licensee(rom@) && is_mbc1_code(rom@[0x147]) ==> rom@.len() >= MULTI_CART_SPAN,
        ensures
            r is Ok <==> passes_all(rom@),
            r matches Err(Error::ParseHeaderError(e)) ==> header_decoded(rom@, Err(e)),
            r matches Ok(c) ==> {
                &&& c.spec_rom() == rom@
                &&& header_decoded(rom@, Ok(c.spec_header()))
                &&& c.spec_header().ram_size.0 == 0 ==> c.spec_ram() is None
                &&& c.spec_header().ram_size.0 != 0 ==> c.spec_ram() == Some(Seq::new(c.spec_header().ram_size.0 as nat, |i: int| 0u8))
            },
    {
        let header = match Header::from_rom(rom.as_slice()) {
            Ok(h) => h,
            Err(e) => return Err(Error::ParseHeaderError(e)),
        };
        let size: usize = header.ram_size.0;
        let ram = if size == 0 {
            None
        } else {
            let mut v: Vec<u8> = Vec::new();
            let mut i: usize = 0;
            while i < size
                invariant
                    i <= size,
                    v@ == Seq::new(i as nat, |k: int| 0u8),
                decreases size - i,
            {
                v.push(0);
                i = i + 1;
            }
            Some(v)
        };
        Ok(Cartridge { header, rom, ram })
    }

    /// The decoded header.
    pub fn header(&self) -> (r: &Header)
        ensures
            *r == self.spec_header(),
    {
        &self.header
    }

    /// The ROM image.
    pub fn rom(&self) -> (r: &[u8])
        ensures
            r@ == self.spec_rom(),
    {
        self.rom.as_slice()
    }

    /// The RAM, or none when the cartridge has none.
    pub fn ram(&self) -> (r: Option<&[u8]>)
        ensures
            match (r, self.spec_ram()) {
                (Some(a), Some(b)) => a@ == b,
                (None, None) => true,
                _ => false,
            },
    {
        match &self.ram {
            Some(ram) => Some(ram.as_slice()),
            None => None,
        }
    }

    /// The RAM, to be written, or none when the cartridge has none.
    pub fn mut_ram(&mut self) -> (r: Option<&mut Vec<u8>>)
        ensures
            match r {
                Some(v) => old(self).spec_ram() == Some(v@) && final(self).spec_ram() == Some(final(v)@),
                None => old(self).spec_ram() is None && final(self).spec_ram() is None,
            },
            final(self).spec_header() == old(self).spec_header(),
            final(self).spec_rom() == old(self).spec_rom(),
    {
        match &mut self.ram {
            Some(ram) => Some(ram),
            None => None,
        }
    }
}

/// What the type byte at 0x147 announces. The controller: 0x00, 0x08, 0x09 none; 0x01-0x03
/// MBC1; 0x05, 0x06 MBC2; 0x0B-0x0D MMM01; 0x0F-0x13 MBC3; 0x19-0x1E MBC5; 0x20 MBC6; 0x22
/// MBC7; 0xFC the Pocket Camera; 0xFD Bandai TAMA5; 0xFE HuC3; 0xFF HuC1; any other byte is
/// unknown. External RAM comes with 0x02, 0x03, 0x06, 0x08, 0x09, 0x0C, 0x0D, 0x10, 0x12,
/// 0x13, 0x1A, 0x1B, 0x1D, 0x1E, 0x22 and 0xFF; a battery with 0x03, 0x06, 0x09, 0x0D, 0x0F,
/// 0x10, 0x13, 0x1B, 0x1E, 0x22 and 0xFF; the MBC3 timer with 0x0F and 0x10; the MBC5 rumble
/// motor with 0x1C-0x1E. Only an MBC1 can be a multi-cart, as the ROM tells.
pub proof fn lemma_kind_features(code: u8, multi_cart: bool)
    ensures
        ({
            let k = spec_kind(code, multi_cart);
            &&& (k is NoMBC) == (code == 0x00 || code == 0x08 || code == 0x09)
            &&& (k is MBC1) == (0x01 <= code <= 0x03)
            &&& (k is MBC2) == (code == 0x05 || code == 0x06)
            &&& (k is MMM01) == (0x0B <= code <= 0x0D)
            &&& (k is MBC3) == (0x0F <= code <= 0x13)
            &&& (k is MBC5) == (0x19 <= code <= 0x1E)
            &&& (k is MBC6) == (code == 0x20)
            &&& (k is MBC7) == (code == 0x22)
            &&& (k is PocketCamera) == (code == 0xFC)
            &&& (k is BandaiTama5) == (code == 0xFD)
            &&& (k is HuC3) == (code == 0xFE)
            &&& (k is HuC1) == (code == 0xFF)
            &&& (k is Unknown) ==> k == Kind::Unknown(code)
            &&& k.spec_ram() == (code == 0x02 || code == 0x03 || code == 0x06 || code == 0x08 || code == 0x09
                || code == 0x0C || code == 0x0D || code == 0x10 || code == 0x12 || code == 0x13 || code == 0x1A
                || code == 0x1B || code == 0x1D || code == 0x1E || code == 0x22 || code == 0xFF)
            &&& k.spec_battery() == (code == 0x03 || code == 0x06 || code == 0x09 || code == 0x0D || code == 0x0F
                || code == 0x10 || code == 0x13 || code == 0x1B || code == 0x1E || code == 0x22 || code == 0xFF)
            &&& (k matches Kind::MBC3 { timer, .. } ==> timer == (code == 0x0F || code == 0x10))
            &&& (k matches Kind::MBC5 { rumble, .. } ==> rumble == (0x1C <= code <= 0x1E))
            &&& (k matches Kind::MBC1 { multi_cart: m, .. } ==> m == multi_cart)
            &&& (k matches Kind::MBC7 { rumble, sensor, .. } ==> rumble && sensor)
        }),
{
}

/// The plain sum of the bytes `from..to` of `rom`.
pub open spec fn byte_sum(rom: Seq<u8>, from: int, to: int) -> int
    decreases to - from,
{
    if to <= from { 0 } else { byte_sum(rom, from, to - 1) + rom[to - 1] }
}

proof fn lemma_header_sum(rom: Seq<u8>, end: int)
    requires
        0x134 <= end <= rom.len(),
    ensures
        header_checksum_sum(rom, end) == 255 * (end - 0x134) - byte_sum(rom, 0x134, end),
    decreases end,
{
    if end > 0x134 {
        lemma_header_sum(rom, end - 1);
    }
}

proof fn lemma_global_sum(rom: Seq<u8>, end: int)
    requires
        0 <= end <= rom.len(),
        rom.len() >= HEADER_END,
    ensures
        global_sum(rom, end) == byte_sum(rom, 0, end) - (if end > 0x14E { rom[0x14E] as int } else { 0 })
            - (if end > 0x14F { rom[0x14F] as int } else { 0 }),
    decreases end,
{
    if end > 0 {
        lemma_global_sum(rom, end - 1);
    }
}

/// The checksums of a header: adding the header checksum, the 25 bytes 0x134-0x14C and 25
/// gives a multiple of 256 (each byte counts as its complement, minus one); the global
/// checksum is the sum of every byte of the ROM but its own two, modulo 65536.
pub proof fn lemma_checksums(rom: Seq<u8>)
    requires
        rom.len() >= HEADER_END,
    ensures
        (spec_header_checksum(rom) + byte_sum(rom, 0x134, 0x14D) + 25) % 256 == 0,
        spec_global_checksum(rom) as int == (byte_sum(rom, 0, rom.len() as int) - rom[0x14E] - rom[0x14F]) % 65536,
{
    lemma_header_sum(rom, 0x14D);
    lemma_global_sum(rom, rom.len() as int);
    let t = byte_sum(rom, 0x134, 0x14D);
    let h = header_checksum_sum(rom, 0x14D);
    assert(h == 255 * 25 - t);
    assert((h % 256 + t + 25) % 256 == 0) by (nonlinear_arith)
        requires h == 255 * 25 - t;
}

/// The ROM size codes 0x00 to 0x08 announce 32 KiB times 2 to the code, that is 2 << code
/// banks of 16 KiB; 0x52, 0x53 and 0x54 announce 72, 80 and 96 banks; other codes none.
/// The RAM size codes announce nothing (0x00), one bank of 8 KiB (0x02), 4 (0x03), 16 (0x04)
/// or 8 (0x05).
pub proof fn lemma_size_codes(code: u8)
    ensures
        code <= 8 ==> spec_rom_size(code) == Some((0x8000 * vstd::arithmetic::power2::pow2(code as nat)) as usize),
        code == 0x52 ==> spec_rom_size(code) == Some((72 * 0x4000) as usize),
        code == 0x53 ==> spec_rom_size(code) == Some((80 * 0x4000) as usize),
        code == 0x54 ==> spec_rom_size(code) == Some((96 * 0x4000) as usize),
        (spec_rom_size(code) is Some) == (code <= 8 || 0x52 <= code <= 0x54),
        spec_ram_size(code) == if code == 0x00 { Some(0usize) } else if code == 0x02 { Some(0x2000usize) }
            else if code == 0x03 { Some((4 * 0x2000) as usize) } else if code == 0x04 { Some((16 * 0x2000) as usize) }
            else if code == 0x05 { Some((8 * 0x2000) as usize) } else { None },
{
    vstd::arithmetic::power2::lemma2_to64();
}

/// The flags of a header: 0x80 at 0x143 marks a cartridge that also runs on a Game Boy
/// Color and 0xC0 one that needs it; 0x03 at 0x146 marks Super Game Boy support; the
/// destination code at 0x14A is 0x00 for Japan and 0x01 for overseas.
pub proof fn lemma_header_flags(flag: u8)
    ensures
        spec_cgb_support(flag) == if flag == 0x80 { CGBSupport::Supported } else if flag == 0xC0 { CGBSupport::Required }
            else { CGBSupport::Unsupported },
        spec_sgb_support(flag) == if flag == 0x03 { SGBSupport::Supported } else { SGBSupport::Unsupported },
        spec_destination(flag) == if flag == 0 { DestinationCode::Japan } else if flag == 1 { DestinationCode::Overseas }
            else { DestinationCode::Invalid(flag) },
{
}

} // verus!
