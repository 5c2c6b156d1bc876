use vstd::prelude::*;

use super::{CGBSupport, DestinationCode, Kind, LicenseeCode, ManufacturerCode, RamSize, RomSize, SGBSupport};

verus! {

/// The hexadecimal digit of `d` (0 to 15), lower case.
pub open spec fn hex_digit(d: int) -> char {
    if d < 10 { (48 + d) as char } else { (97 + d - 10) as char }
}

/// A byte as two lower-case hexadecimal digits.
pub open spec fn hex2(value: u8) -> Seq<char> {
    seq![hex_digit(value as int / 16), hex_digit(value as int % 16)]
}

/// The decimal digits of `n`, without leading zeroes.
pub open spec fn decimal(n: nat) -> Seq<char>
    decreases n,
{
    if n < 10 { seq![(48 + n) as char] } else { decimal(n / 10).push((48 + n % 10) as char) }
}

/// The lower-case hexadecimal digit of `d` (below 16), as text.
pub(crate) fn hex_digit_str(d: u8) -> (r: &'static str)
    requires
        d < 16,
    ensures
        r@ == seq![hex_digit(d as int)],
{
    match d {
        0 => { proof { reveal_strlit("0"); } "0" },
        1 => { proof { reveal_strlit("1"); } "1" },
        2 => { proof { reveal_strlit("2"); } "2" },
        3 => { proof { reveal_strlit("3"); } "3" },
        4 => { proof { reveal_strlit("4"); } "4" },
        5 => { proof { reveal_strlit("5"); } "5" },
        6 => { proof { reveal_strlit("6"); } "6" },
        7 => { proof { reveal_strlit("7"); } "7" },
        8 => { proof { reveal_strlit("8"); } "8" },
        9 => { proof { reveal_strlit("9"); } "9" },
        10 => { proof { reveal_strlit("a"); } "a" },
        11 => { proof { reveal_strlit("b"); } "b" },
        12 => { proof { reveal_strlit("c"); } "c" },
        13 => { proof { reveal_strlit("d"); } "d" },
        14 => { proof { reveal_strlit("e"); } "e" },
        _ => { proof { reveal_strlit("f"); } "f" },
    }
}

/// Writes a byte as two lower-case hexadecimal digits.
pub(crate) fn hex_byte(value: u8) -> (r: String)
    ensures
        r@ == hex2(value),
{
    let r = String::from_str(hex_digit_str(value / 16)).concat(hex_digit_str(value % 16));
    assert(r@ =~= hex2(value));
    r
}

/// Writes a number in decimal, without leading zeroes.
pub(crate) fn decimal_string(value: usize) -> (r: String)
    ensures
        r@ == decimal(value as nat),
    decreases value,
{
    if value < 10 {
        let digit: u8 = value as u8;
        let r = String::from_str(hex_digit_str(digit));
        assert(r@ =~= decimal(value as nat));
        r
    } else {
        let digit: u8 = (value % 10) as u8;
        let r = decimal_string(value / 10).concat(hex_digit_str(digit));
        assert(r@ =~= decimal(value as nat));
        r
    }
}

/// The licensee of a two-character code, when it is known.
pub open spec fn new_licensee_name(c0: u8, c1: u8) -> Option<Seq<char>> {
    match (c0, c1) {
        (0x30, 0x30) => Some("none"@),
        (0x30, 0x31) => Some("nintendo"@),
        (0x30, 0x38) => Some("capcom"@),
        (0x31, 0x33) => Some("electronic arts"@),
        (0x31, 0x38) => Some("hudsonsoft"@),
        (0x31, 0x39) => Some("b-ai"@),
        (0x32, 0x30) => Some("kss"@),
        (0x32, 0x32) => Some("pow"@),
        (0x32, 0x34) => Some("pcm complete"@),
        (0x32, 0x35) => Some("san-x"@),
        (0x32, 0x38) => Some("kemco japan"@),
        (0x32, 0x39) => Some("seta"@),
        (0x33, 0x30) => Some("viacom"@),
        (0x33, 0x31) => Some("nintendo"@),
        (0x33, 0x32) => Some("bandia"@),
        (0x33, 0x33) => Some("ocean/acclaim"@),
        (0x33, 0x34) => Some("konami"@),
        (0x33, 0x35) => Some("hector"@),
        (0x33, 0x37) => Some("taito"@),
        (0x33, 0x38) => Some("hudson"@),
        (0x33, 0x39) => Some("banpresto"@),
        (0x34, 0x31) => Some("ubi soft"@),
        (0x34, 0x32) => Some("atlus"@),
        (0x34, 0x34) => Some("malibu"@),
        (0x34, 0x36) => Some("angel"@),
        (0x34, 0x37) => Some("pullet-proof"@),
        (0x34, 0x39) => Some("irem"@),
        (0x35, 0x30) => Some("absolute"@),
        (0x35, 0x31) => Some("acclaim"@),
        (0x35, 0x32) => Some("activision"@),
        (0x35, 0x33) => Some("american sammy"@),
        (0x35, 0x34) => Some("konami"@),
        (0x35, 0x35) => Some("hi tech entertainment"@),
        (0x35, 0x36) => Some("ljn"@),
        (0x35, 0x37) => Some("matchbox"@),
        (0x35, 0x38) => Some("mattel"@),
        (0x35, 0x39) => Some("milton bradley"@),
        (0x36, 0x30) => Some("titus"@),
        (0x36, 0x31) => Some("virgin"@),
        (0x36, 0x34) => Some("lucasarts"@),
        (0x36, 0x37) => Some("ocean"@),
        (0x36, 0x39) => Some("electronic arts"@),
        (0x37, 0x30) => Some("infogrames"@),
        (0x37, 0x31) => Some("interplay"@),
        (0x37, 0x32) => Some("broderbund"@),
        (0x37, 0x33) => Some("sculptured"@),
        (0x37, 0x35) => Some("sci"@),
        (0x37, 0x38) => Some("t*hq"@),
        (0x37, 0x39) => Some("accolade"@),
        (0x38, 0x30) => Some("misawa"@),
        (0x38, 0x33) => Some("lozc"@),
        (0x38, 0x36) => Some("tokuma shoten i*"@),
        (0x38, 0x37) => Some("tsukuda ori*"@),
        (0x39, 0x31) => Some("chun soft"@),
        (0x39, 0x32) => Some("video system"@),
        (0x39, 0x33) => Some("ocean/acclaim"@),
        (0x39, 0x35) => Some("varie"@),
        (0x39, 0x36) => Some("yonezawa/s'pal"@),
        (0x39, 0x37) => Some("kaneko"@),
        (0x39, 0x39) => Some("pack in soft"@),
        _ => None,
    }
}

/// The licensee of a one-byte code, when it is known.
pub open spec fn old_licensee_name(code: u8) -> Option<Seq<char>> {
    match code {
        0x00 => Some("none"@),
        0x01 => Some("nintendo"@),
        0x08 => Some("capcom"@),
        0x09 => Some("hot-b"@),
        0x0A => Some("jaleco"@),
        0x0B => Some("coconuts"@),
        0x0C => Some("elite systems"@),
        0x13 => Some("electronic arts"@),
        0x18 => Some("hudsonsoft"@),
        0x19 => Some("itc entertainment"@),
        0x1A => Some("yanoman"@),
        0x1D => Some("clary"@),
        0x1F => Some("virgin"@),
        0x24 => Some("pcm complete"@),
        0x25 => Some("san-x"@),
        0x28 => Some("kotobuki systems"@),
        0x29 => Some("seta"@),
        0x30 => Some("infogrames"@),
        0x31 => Some("nintendo"@),
        0x32 => Some("bandai"@),
        0x34 => Some("konami"@),
        0x35 => Some("hector"@),
        0x38 => Some("capcom"@),
        0x39 => Some("banpresto"@),
        0x3C => Some("*entertainment i"@),
        0x3E => Some("gremlin"@),
        0x41 => Some("ubi soft"@),
        0x42 => Some("atlus"@),
        0x44 => Some("malibu"@),
        0x46 => Some("angel"@),
        0x47 => Some("spectrum holoby"@),
        0x49 => Some("irem"@),
        0x4A => Some("virgin"@),
        0x4D => Some("malibu"@),
        0x4F => Some("u.s. gold"@),
        0x50 => Some("absolute"@),
        0x51 => Some("acclaim"@),
        0x52 => Some("activision"@),
        0x53 => Some("american sammy"@),
        0x54 => Some("gametek"@),
        0x55 => Some("park place"@),
        0x56 => Some("ljn"@),
        0x57 => Some("matchbox"@),
        0x59 => Some("milton bradley"@),
        0x5A => Some("mindscape"@),
        0x5B => Some("romstar"@),
        0x5C => Some("naxat soft"@),
        0x5D => Some("tradewest"@),
        0x60 => Some("titus"@),
        0x61 => Some("virgin"@),
        0x67 => Some("ocean"@),
        0x69 => Some("electronic arts"@),
        0x6E => Some("elite systems"@),
        0x6F => Some("electro brain"@),
        0x70 => Some("infogrames"@),
        0x71 => Some("interplay"@),
        0x72 => Some("broderbund"@),
        0x73 => Some("sculptered soft"@),
        0x75 => Some("the sales curve"@),
        0x78 => Some("t*hq"@),
        0x79 => Some("accolade"@),
        0x7A => Some("triffix entertainment"@),
        0x7C => Some("microprose"@),
        0x7F => Some("kemco"@),
        0x80 => Some("misawa entertainment"@),
        0x83 => Some("lozc"@),
        0x86 => Some("*tokuma shoten i"@),
        0x8B => Some("bullet-proof software"@),
        0x8C => Some("vic tokai"@),
        0x8E => Some("ape"@),
        0x8F => Some("i'max"@),
        0x91 => Some("chun soft"@),
        0x92 => Some("video system"@),
        0x93 => Some("tsuburava"@),
        0x95 => Some("varie"@),
        0x96 => Some("yonezawa/s'pal"@),
        0x97 => Some("kaneko"@),
        0x99 => Some("arc"@),
        0x9A => Some("nihon bussan"@),
        0x9B => Some("tecmo"@),
        0x9C => Some("imagineer"@),
        0x9D => Some("banpresto"@),
        0x9F => Some("nova"@),
        0xA1 => Some("hori electric"@),
        0xA2 => Some("bandai"@),
        0xA4 => Some("konami"@),
        0xA6 => Some("kawada"@),
        0xA7 => Some("takara"@),
        0xA9 => Some("technos japan"@),
        0xAA => Some("broderbund"@),
        0xAC => Some("toei animation"@),
        0xAD => Some("toho"@),
        0xAF => Some("namco"@),
        0xB0 => Some("acclaim"@),
        0xB1 => Some("ascii or nexoft"@),
        0xB2 => Some("bandai"@),
        0xB4 => Some("enix"@),
        0xB6 => Some("hal"@),
        0xB7 => Some("snk"@),
        0xB9 => Some("pony canyon"@),
        0xBA => Some("*culture brain o"@),
        0xBB => Some("sunsoft"@),
        0xBD => Some("sony imagesoft"@),
        0xBF => Some("sammy"@),
        0xC0 => Some("taito"@),
        0xC2 => Some("kemco"@),
        0xC3 => Some("squaresoft"@),
        0xC4 => Some("*tokuma shoten i"@),
        0xC5 => Some("data east"@),
        0xC6 => Some("tonkin house"@),
        0xC8 => Some("koei"@),
        0xC9 => Some("ufl"@),
        0xCA => Some("ultra"@),
        0xCB => Some("vap"@),
        0xCC => Some("use"@),
        0xCD => Some("meldac"@),
        0xCE => Some("*pony canyon or"@),
        0xCF => Some("angel"@),
        0xD0 => Some("taito"@),
        0xD1 => Some("sofel"@),
        0xD2 => Some("quest"@),
        0xD3 => Some("sigma enterprises"@),
        0xD4 => Some("ask kodansha"@),
        0xD6 => Some("naxat soft"@),
        0xD7 => Some("copya systems"@),
        0xD9 => Some("banpresto"@),
        0xDA => Some("tomy"@),
        0xDB => Some("ljn"@),
        0xDD => Some("ncs"@),
        0xDE => Some("human"@),
        0xDF => Some("altron"@),
        0xE0 => Some("jaleco"@),
        0xE1 => Some("towachiki"@),
        0xE2 => Some("uutaka"@),
        0xE3 => Some("varie"@),
        0xE5 => Some("epoch"@),
        0xE7 => Some("athena"@),
        0xE8 => Some("asmik"@),
        0xE9 => Some("natsume"@),
        0xEA => Some("king records"@),
        0xEB => Some("atlus"@),
        0xEC => Some("epic/sony records"@),
        0xEE => Some("igs"@),
        0xF0 => Some("a wave"@),
        0xF3 => Some("extreme entertainment"@),
        0xFF => Some("ljn"@),
        _ => None,
    }
}

fn new_licensee_str(c0: u8, c1: u8) -> (r: Option<&'static str>)
    ensures
        match r {
            Some(s) => new_licensee_name(c0, c1) == Some(s@),
            None => new_licensee_name(c0, c1) is None,
        },
{
    match (c0, c1) {
        (0x30, 0x30) => Some("none"),
        (0x30, 0x31) => Some("nintendo"),
        (0x30, 0x38) => Some("capcom"),
        (0x31, 0x33) => Some("electronic arts"),
        (0x31, 0x38) => Some("hudsonsoft"),
        (0x31, 0x39) => Some("b-ai"),
        (0x32, 0x30) => Some("kss"),
        (0x32, 0x32) => Some("pow"),
        (0x32, 0x34) => Some("pcm complete"),
        (0x32, 0x35) => Some("san-x"),
        (0x32, 0x38) => Some("kemco japan"),
        (0x32, 0x39) => Some("seta"),
        (0x33, 0x30) => Some("viacom"),
        (0x33, 0x31) => Some("nintendo"),
        (0x33, 0x32) => Some("bandia"),
        (0x33, 0x33) => Some("ocean/acclaim"),
        (0x33, 0x34) => Some("konami"),
        (0x33, 0x35) => Some("hector"),
        (0x33, 0x37) => Some("taito"),
        (0x33, 0x38) => Some("hudson"),
        (0x33, 0x39) => Some("banpresto"),
        (0x34, 0x31) => Some("ubi soft"),
        (0x34, 0x32) => Some("atlus"),
        (0x34, 0x34) => Some("malibu"),
        (0x34, 0x36) => Some("angel"),
        (0x34, 0x37) => Some("pullet-proof"),
        (0x34, 0x39) => Some("irem"),
        (0x35, 0x30) => Some("absolute"),
        (0x35, 0x31) => Some("acclaim"),
        (0x35, 0x32) => Some("activision"),
        (0x35, 0x33) => Some("american sammy"),
        (0x35, 0x34) => Some("konami"),
        (0x35, 0x35) => Some("hi tech entertainment"),
        (0x35, 0x36) => Some("ljn"),
        (0x35, 0x37) => Some("matchbox"),
        (0x35, 0x38) => Some("mattel"),
        (0x35, 0x39) => Some("milton bradley"),
        (0x36, 0x30) => Some("titus"),
        (0x36, 0x31) => Some("virgin"),
        (0x36, 0x34) => Some("lucasarts"),
        (0x36, 0x37) => Some("ocean"),
        (0x36, 0x39) => Some("electronic arts"),
        (0x37, 0x30) => Some("infogrames"),
        (0x37, 0x31) => Some("interplay"),
        (0x37, 0x32) => Some("broderbund"),
        (0x37, 0x33) => Some("sculptured"),
        (0x37, 0x35) => Some("sci"),
        (0x37, 0x38) => Some("t*hq"),
        (0x37, 0x39) => Some("accolade"),
        (0x38, 0x30) => Some("misawa"),
        (0x38, 0x33) => Some("lozc"),
        (0x38, 0x36) => Some("tokuma shoten i*"),
        (0x38, 0x37) => Some("tsukuda ori*"),
        (0x39, 0x31) => Some("chun soft"),
        (0x39, 0x32) => Some("video system"),
        (0x39, 0x33) => Some("ocean/acclaim"),
        (0x39, 0x35) => Some("varie"),
        (0x39, 0x36) => Some("yonezawa/s'pal"),
        (0x39, 0x37) => Some("kaneko"),
        (0x39, 0x39) => Some("pack in soft"),
        _ => None,
    }
}

fn old_licensee_str(code: u8) -> (r: Option<&'static str>)
    ensures
        match r {
            Some(s) => old_licensee_name(code) == Some(s@),
            None => old_licensee_name(code) is None,
        },
{
    match code {
        0x00 => Some("none"),
        0x01 => Some("nintendo"),
        0x08 => Some("capcom"),
        0x09 => Some("hot-b"),
        0x0A => Some("jaleco"),
        0x0B => Some("coconuts"),
        0x0C => Some("elite systems"),
        0x13 => Some("electronic arts"),
        0x18 => Some("hudsonsoft"),
        0x19 => Some("itc entertainment"),
        0x1A => Some("yanoman"),
        0x1D => Some("clary"),
        0x1F => Some("virgin"),
        0x24 => Some("pcm complete"),
        0x25 => Some("san-x"),
        0x28 => Some("kotobuki systems"),
        0x29 => Some("seta"),
        0x30 => Some("infogrames"),
        0x31 => Some("nintendo"),
        0x32 => Some("bandai"),
        0x34 => Some("konami"),
        0x35 => Some("hector"),
        0x38 => Some("capcom"),
        0x39 => Some("banpresto"),
        0x3C => Some("*entertainment i"),
        0x3E => Some("gremlin"),
        0x41 => Some("ubi soft"),
        0x42 => Some("atlus"),
        0x44 => Some("malibu"),
        0x46 => Some("angel"),
        0x47 => Some("spectrum holoby"),
        0x49 => Some("irem"),
        0x4A => Some("virgin"),
        0x4D => Some("malibu"),
        0x4F => Some("u.s. gold"),
        0x50 => Some("absolute"),
        0x51 => Some("acclaim"),
        0x52 => Some("activision"),
        0x53 => Some("american sammy"),
        0x54 => Some("gametek"),
        0x55 => Some("park place"),
        0x56 => Some("ljn"),
        0x57 => Some("matchbox"),
        0x59 => Some("milton bradley"),
        0x5A => Some("mindscape"),
        0x5B => Some("romstar"),
        0x5C => Some("naxat soft"),
        0x5D => Some("tradewest"),
        0x60 => Some("titus"),
        0x61 => Some("virgin"),
        0x67 => Some("ocean"),
        0x69 => Some("electronic arts"),
        0x6E => Some("elite systems"),
        0x6F => Some("electro brain"),
        0x70 => Some("infogrames"),
        0x71 => Some("interplay"),
        0x72 => Some("broderbund"),
        0x73 => Some("sculptered soft"),
        0x75 => Some("the sales curve"),
        0x78 => Some("t*hq"),
        0x79 => Some("accolade"),
        0x7A => Some("triffix entertainment"),
        0x7C => Some("microprose"),
        0x7F => Some("kemco"),
        0x80 => Some("misawa entertainment"),
        0x83 => Some("lozc"),
        0x86 => Some("*tokuma shoten i"),
        0x8B => Some("bullet-proof software"),
        0x8C => Some("vic tokai"),
        0x8E => Some("ape"),
        0x8F => Some("i'max"),
        0x91 => Some("chun soft"),
        0x92 => Some("video system"),
        0x93 => Some("tsuburava"),
        0x95 => Some("varie"),
        0x96 => Some("yonezawa/s'pal"),
        0x97 => Some("kaneko"),
        0x99 => Some("arc"),
        0x9A => Some("nihon bussan"),
        0x9B => Some("tecmo"),
        0x9C => Some("imagineer"),
        0x9D => Some("banpresto"),
        0x9F => Some("nova"),
        0xA1 => Some("hori electric"),
        0xA2 => Some("bandai"),
        0xA4 => Some("konami"),
        0xA6 => Some("kawada"),
        0xA7 => Some("takara"),
        0xA9 => Some("technos japan"),
        0xAA => Some("broderbund"),
        0xAC => Some("toei animation"),
        0xAD => Some("toho"),
        0xAF => Some("namco"),
        0xB0 => Some("acclaim"),
        0xB1 => Some("ascii or nexoft"),
        0xB2 => Some("bandai"),
        0xB4 => Some("enix"),
        0xB6 => Some("hal"),
        0xB7 => Some("snk"),
        0xB9 => Some("pony canyon"),
        0xBA => Some("*culture brain o"),
        0xBB => Some("sunsoft"),
        0xBD => Some("sony imagesoft"),
        0xBF => Some("sammy"),
        0xC0 => Some("taito"),
        0xC2 => Some("kemco"),
        0xC3 => Some("squaresoft"),
        0xC4 => Some("*tokuma shoten i"),
        0xC5 => Some("data east"),
        0xC6 => Some("tonkin house"),
        0xC8 => Some("koei"),
        0xC9 => Some("ufl"),
        0xCA => Some("ultra"),
        0xCB => Some("vap"),
        0xCC => Some("use"),
        0xCD => Some("meldac"),
        0xCE => Some("*pony canyon or"),
        0xCF => Some("angel"),
        0xD0 => Some("taito"),
        0xD1 => Some("sofel"),
        0xD2 => Some("quest"),
        0xD3 => Some("sigma enterprises"),
        0xD4 => Some("ask kodansha"),
        0xD6 => Some("naxat soft"),
        0xD7 => Some("copya systems"),
        0xD9 => Some("banpresto"),
        0xDA => Some("tomy"),
        0xDB => Some("ljn"),
        0xDD => Some("ncs"),
        0xDE => Some("human"),
        0xDF => Some("altron"),
        0xE0 => Some("jaleco"),
        0xE1 => Some("towachiki"),
        0xE2 => Some("uutaka"),
        0xE3 => Some("varie"),
        0xE5 => Some("epoch"),
        0xE7 => Some("athena"),
        0xE8 => Some("asmik"),
        0xE9 => Some("natsume"),
        0xEA => Some("king records"),
        0xEB => Some("atlus"),
        0xEC => Some("epic/sony records"),
        0xEE => Some("igs"),
        0xF0 => Some("a wave"),
        0xF3 => Some("extreme entertainment"),
        0xFF => Some("ljn"),
        _ => None,
    }
}

/// How a licensee code reads: the name of the licensee, or the code when it is unknown.
pub open spec fn licensee_text(code: LicenseeCode) -> Seq<char> {
    match code {
        LicenseeCode::New(c) => match new_licensee_name(c[0], c[1]) {
            Some(name) => name,
            None => "unknown new code (0x"@ + hex2(c[0]) + " 0x"@ + hex2(c[1]) + ")"@,
        },
        LicenseeCode::Old(c) => match old_licensee_name(c) {
            Some(name) => name,
            None => "unknown old code (0x"@ + hex2(c) + ")"@,
        },
    }
}

impl LicenseeCode {
    /// The name of the licensee, or the code when it is unknown.
    pub fn name(&self) -> (r: String)
        ensures
            r@ == licensee_text(*self),
    {
        match self {
            LicenseeCode::New(code) => match new_licensee_str(code[0], code[1]) {
                Some(name) => String::from_str(name),
                None => String::from_str("unknown new code (0x").concat(hex_byte(code[0]).as_str()).concat(" 0x")
                    .concat(hex_byte(code[1]).as_str()).concat(")"),
            },
            LicenseeCode::Old(code) => match old_licensee_str(*code) {
                Some(name) => String::from_str(name),
                None => String::from_str("unknown old code (0x").concat(hex_byte(*code).as_str()).concat(")"),
            },
        }
    }
}

/// A piece of a list joined with " + ": `label` added to `acc` when `present`.
pub open spec fn with_part(acc: Seq<char>, present: bool, label: Seq<char>) -> Seq<char> {
    if !present { acc } else if acc.len() == 0 { label } else { acc + " + "@ + label }
}

/// The extra hardware of a cartridge: RAM, BATTERY, TIMER, RUMBLE, SENSOR, joined with " + ".
pub open spec fn hardware_text(k: Kind) -> Seq<char> {
    with_part(with_part(with_part(with_part(with_part(Seq::empty(), k.spec_ram(), "RAM"@), k.spec_battery(), "BATTERY"@),
        k matches Kind::MBC3 { timer: true, .. }, "TIMER"@),
        k matches Kind::MBC5 { rumble: true, .. } || k matches Kind::MBC7 { rumble: true, .. }, "RUMBLE"@),
        k matches Kind::MBC7 { sensor: true, .. }, "SENSOR"@)
}

/// The name of the controller of a cartridge.
pub open spec fn kind_label(k: Kind) -> Seq<char> {
    match k {
        Kind::NoMBC { .. } => "No MBC"@,
        Kind::MBC1 { multi_cart, .. } => if multi_cart { "MMBC1"@ } else { "MBC1"@ },
        Kind::MBC2 { .. } => "MBC2"@,
        Kind::MBC3 { .. } => "MBC3"@,
        Kind::MBC5 { .. } => "MBC5"@,
        Kind::MBC6 => "MBC6"@,
        Kind::MBC7 { .. } => "MBC7"@,
        Kind::MMM01 { .. } => "MMM01"@,
        Kind::HuC1 { .. } => "Huc1"@,
        Kind::HuC3 => "HuC3"@,
        Kind::PocketCamera => "PocketCamera"@,
        Kind::BandaiTama5 => "BandaiTama5"@,
        Kind::Unknown(value) => "Unknown (0x"@ + hex2(value) + ")"@,
    }
}

/// How a cartridge kind reads: its controller, then its extra hardware in parentheses.
pub open spec fn kind_text(k: Kind) -> Seq<char> {
    if hardware_text(k).len() == 0 { kind_label(k) } else { kind_label(k) + " ("@ + hardware_text(k) + ")"@ }
}

fn add_part(acc: &mut String, present: bool, label: &str)
    ensures
        final(acc)@ == with_part(old(acc)@, present, label@),
{
    if present {
        if acc.as_str().is_empty() {
            acc.append(label);
        } else {
            acc.append(" + ");
            acc.append(label);
        }
    }
}

impl Kind {
    /// The controller and the extra hardware, such as `MBC1 (RAM + BATTERY)`.
    pub fn name(&self) -> (r: String)
        ensures
            r@ == kind_text(*self),
    {
        let kind: String = match self {
            Kind::NoMBC { .. } => String::from_str("No MBC"),
            Kind::MBC1 { multi_cart, .. } => if *multi_cart { String::from_str("MMBC1") } else { String::from_str("MBC1") },
            Kind::MBC2 { .. } => String::from_str("MBC2"),
            Kind::MBC3 { .. } => String::from_str("MBC3"),
            Kind::MBC5 { .. } => String::from_str("MBC5"),
            Kind::MBC6 => String::from_str("MBC6"),
            Kind::MBC7 { .. } => String::from_str("MBC7"),
            Kind::MMM01 { .. } => String::from_str("MMM01"),
            Kind::HuC1 { .. } => String::from_str("Huc1"),
            Kind::HuC3 => String::from_str("HuC3"),
            Kind::PocketCamera => String::from_str("PocketCamera"),
            Kind::BandaiTama5 => String::from_str("BandaiTama5"),
            Kind::Unknown(value) => String::from_str("Unknown (0x").concat(hex_byte(*value).as_str()).concat(")"),
        };
        let mut hardwares = String::new();
        add_part(&mut hardwares, self.ram(), "RAM");
        add_part(&mut hardwares, self.battery(), "BATTERY");
        add_part(&mut hardwares, self.timer(), "TIMER");
        add_part(&mut hardwares, self.rumble(), "RUMBLE");
        add_part(&mut hardwares, self.sensor(), "SENSOR");
        if hardwares.as_str().is_empty() {
            kind
        } else {
            kind.concat(" (").concat(hardwares.as_str()).concat(")")
        }
    }
}

impl CGBSupport {
    /// "no", "yes" or "required".
    pub fn name(&self) -> (r: &'static str)
        ensures
            r@ == match *self { CGBSupport::Unsupported => "no"@, CGBSupport::Supported => "yes"@, CGBSupport::Required => "required"@ },
    {
        match self {
            CGBSupport::Unsupported => "no",
            CGBSupport::Supported => "yes",
            CGBSupport::Required => "required",
        }
    }
}

impl SGBSupport {
    /// "no" or "yes".
    pub fn name(&self) -> (r: &'static str)
        ensures
            r@ == match *self { SGBSupport::Unsupported => "no"@, SGBSupport::Supported => "yes"@ },
    {
        match self {
            SGBSupport::Unsupported => "no",
            SGBSupport::Supported => "yes",
        }
    }
}

impl ManufacturerCode {
    /// The code, or "none".
    pub fn name(&self) -> (r: String)
        ensures
            r@ == match self.0 { Some(code) => code@, None => "none"@ },
    {
        match &self.0 {
            Some(code) => String::from_str(code.as_str()),
            None => String::from_str("none"),
        }
    }
}

impl DestinationCode {
    /// "japan", "overseas", or the code when it is invalid.
    pub fn name(&self) -> (r: String)
        ensures
            r@ == match *self {
                DestinationCode::Japan => "japan"@,
                DestinationCode::Overseas => "overseas"@,
                DestinationCode::Invalid(code) => "invalid (0x"@ + hex2(code),
            },
    {
        match self {
            DestinationCode::Japan => String::from_str("japan"),
            DestinationCode::Overseas => String::from_str("overseas"),
            DestinationCode::Invalid(code) => String::from_str("invalid (0x").concat(hex_byte(*code).as_str()),
        }
    }
}

/// How a ROM size reads: in MiB (with one decimal, in eighths) from 1 MiB on, else in KiB,
/// followed by the number of banks.
pub open spec fn rom_size_text(size: usize) -> Seq<char> {
    let kb = size as nat / 1024;
    let banks = " ("@ + decimal(size as nat / 0x4000) + " banks of 16 KiB)"@;
    if kb % 1024 == 0 {
        decimal(kb / 1024) + " MiB"@ + banks
    } else if kb > 1024 {
        decimal(kb / 1024) + "."@ + decimal((kb % 1024) / 128) + " MiB"@ + banks
    } else {
        decimal(kb) + " KiB"@ + banks
    }
}

impl RomSize {
    /// The size, such as `1.4 MiB (96 banks of 16 KiB)` for 1536 KiB: the digit after the point
    /// counts eighths of a MiB.
    pub fn name(&self) -> (r: String)
        ensures
            r@ == rom_size_text(self.0),
    {
        let size_in_kb: usize = self.0 / 1024;
        let banks = String::from_str(" (").concat(decimal_string(self.bank_count()).as_str()).concat(" banks of 16 KiB)");
        if size_in_kb % 1024 == 0 {
            decimal_string(size_in_kb / 1024).concat(" MiB").concat(banks.as_str())
        } else if size_in_kb > 1024 {
            decimal_string(size_in_kb / 1024).concat(".").concat(decimal_string((size_in_kb % 1024) / 128).as_str())
                .concat(" MiB").concat(banks.as_str())
        } else {
            decimal_string(size_in_kb).concat(" KiB").concat(banks.as_str())
        }
    }
}

impl RamSize {
    /// The size, such as `32 KiB (4 banks of 8 KiB)`.
    pub fn name(&self) -> (r: String)
        ensures
            r@ == decimal(self.0 as nat / 1024) + " KiB ("@ + decimal(self.0 as nat / 0x2000) + " banks of 8 KiB)"@,
    {
        decimal_string(self.0 / 1024).concat(" KiB (").concat(decimal_string(self.bank_count()).as_str()).concat(" banks of 8 KiB)")
    }
}

} // verus!
