use ugbe::bootrom::BootRom;
use ugbe::cartridge::{Cartridge as CartridgeData, NINTENDO_LOGO};
use ugbe::gameboy::cartridge::{is_supported, Cartridge};
use ugbe::gameboy::cpu::instructions::decode::{decode, decode_cb_prefixed};
use ugbe::gameboy::cpu::CpuError;
use ugbe::gameboy::interrupt::Interrupt;
use ugbe::gameboy::joypad::{Button, Joypad};
use ugbe::gameboy::mmu::{Mmu, MmuContext, MMU};
use ugbe::gameboy::ppu::screen::Color;
use ugbe::gameboy::ppu::Ppu;
use ugbe::gameboy::wram::WorkRam;
use ugbe::gameboy::{Gameboy, GameboyBuilder};

fn seal(rom: &mut Vec<u8>) {
    let mut x: u8 = 0;
    for i in 0x134..=0x14C {
        x = x.wrapping_sub(rom[i]).wrapping_sub(1);
    }
    rom[0x14D] = x;
    let mut sum: u16 = 0;
    for (i, byte) in rom.iter().enumerate() {
        if i != 0x14E && i != 0x14F {
            sum = sum.wrapping_add(*byte as u16);
        }
    }
    rom[0x14E] = (sum >> 8) as u8;
    rom[0x14F] = (sum & 0xFF) as u8;
}

/// A 32 KiB cartridge without controller whose ROM starts with `code`.
fn cartridge_with(code: &[u8], kind: u8, ram_code: u8) -> CartridgeData {
    let mut rom = vec![0u8; 0x8000];
    rom[..code.len()].copy_from_slice(code);
    rom[0x104..0x134].copy_from_slice(&NINTENDO_LOGO);
    rom[0x147] = kind;
    rom[0x149] = ram_code;
    seal(&mut rom);
    CartridgeData::from_rom(rom).unwrap()
}

fn gameboy(boot: &[u8], code: &[u8]) -> Gameboy {
    let mut data = vec![0u8; 0x100];
    data[..boot.len()].copy_from_slice(boot);
    let cartridge = cartridge_with(code, 0x00, 0x00);
    assert!(is_supported(&cartridge));
    GameboyBuilder::new(BootRom::new(data).unwrap(), cartridge).build()
}

/// Runs until the CPU stops on an invalid opcode.
fn run_to_error(gameboy: &mut Gameboy) -> CpuError {
    for _ in 0..100_000 {
        if let Err(e) = gameboy.tick() {
            return e;
        }
    }
    panic!("the CPU did not stop");
}

#[test]
fn invalid_opcode_stops_the_cpu_at_its_address() {
    let mut gb = gameboy(&[0xD3], &[]);
    assert_eq!(run_to_error(&mut gb), CpuError::InvalidInstruction { opcode: 0xD3, is_cb_prefixed: false, address: 0 });
    assert_eq!(gb.clock().t_cycle_count(), 4);
}

#[test]
fn xor_sets_zero_and_the_relative_jump_is_taken() {
    // XOR A; JR Z, +1; (skipped) 0xD3; 0xDB
    let mut gb = gameboy(&[0xAF, 0x28, 0x01, 0xD3, 0xDB], &[]);
    assert_eq!(run_to_error(&mut gb), CpuError::InvalidInstruction { opcode: 0xDB, is_cb_prefixed: false, address: 4 });
}

#[test]
fn work_ram_keeps_what_the_cpu_wrote() {
    // LD A,0x42; LD (0xC000),A; LD A,0; LD A,(0xE000); CP 0x42; JR Z,+1; 0xD3; 0xDB
    let program = [0x3E, 0x42, 0xEA, 0x00, 0xC0, 0x3E, 0x00, 0xFA, 0x00, 0xE0, 0xFE, 0x42, 0x28, 0x01, 0xD3, 0xDB];
    let mut gb = gameboy(&program, &[]);
    assert_eq!(run_to_error(&mut gb), CpuError::InvalidInstruction { opcode: 0xDB, is_cb_prefixed: false, address: 15 });
}

#[test]
fn high_ram_and_stack_round_trip() {
    // LD SP,0xFFFE; LD BC,0x1234; PUSH BC; POP DE; LD A,E; CP 0x34; JR NZ,+5; LD A,D; CP 0x12; JR Z,+1; 0xD3; 0xDB
    let program = [
        0x31, 0xFE, 0xFF, 0x01, 0x34, 0x12, 0xC5, 0xD1, 0x7B, 0xFE, 0x34, 0x20, 0x05, 0x7A, 0xFE, 0x12, 0x28, 0x01, 0xD3,
        0xDB,
    ];
    let mut gb = gameboy(&program, &[]);
    assert_eq!(run_to_error(&mut gb), CpuError::InvalidInstruction { opcode: 0xDB, is_cb_prefixed: false, address: 19 });
}

#[test]
fn call_and_return() {
    // LD SP,0xFFFE; CALL 0x0010; 0xDB at 6; at 0x10: RET
    let mut boot = vec![0u8; 0x11];
    boot[0..7].copy_from_slice(&[0x31, 0xFE, 0xFF, 0xCD, 0x10, 0x00, 0xDB]);
    boot[0x10] = 0xC9;
    let mut gb = gameboy(&boot, &[]);
    assert_eq!(run_to_error(&mut gb), CpuError::InvalidInstruction { opcode: 0xDB, is_cb_prefixed: false, address: 6 });
}

#[test]
fn unmapping_the_boot_rom_shows_the_cartridge() {
    // LD A,1; LDH (0x50),A; then the cartridge ROM runs from address 4.
    let mut gb = gameboy(&[0x3E, 0x01, 0xE0, 0x50], &[0, 0, 0, 0, 0xE3]);
    assert_eq!(run_to_error(&mut gb), CpuError::InvalidInstruction { opcode: 0xE3, is_cb_prefixed: false, address: 4 });
}

#[test]
fn a_fresh_gameboy_has_a_dark_screen() {
    let gb = gameboy(&[], &[]);
    assert_eq!(gb.screen().pixels().len(), 160 * 144);
    assert!(gb.screen().pixels().iter().all(|c| *c == Color::Off));
    assert_eq!(gb.screen().get_pixel(159, 143), Color::Off);
}

#[test]
fn the_joypad_of_a_gameboy_can_be_pressed() {
    let mut gb = gameboy(&[], &[]);
    gb.joypad().write_p1(0x10);
    gb.joypad().keydown(Button::A);
    assert_eq!(gb.joypad().read_p1(), 0xDE);
    gb.joypad().keyup(Button::A);
    assert_eq!(gb.joypad().read_p1(), 0xDF);
}

#[test]
fn unsupported_controllers_are_refused() {
    // MBC3
    assert!(!is_supported(&cartridge_with(&[], 0x11, 0x00)));
    // MBC5 with a 32 KiB ROM
    assert!(is_supported(&cartridge_with(&[], 0x19, 0x00)));
}

fn context(cartridge: CartridgeData) -> MmuContext {
    MmuContext {
        joypad: Joypad::new(),
        ppu: Ppu::new(),
        interrupt: Interrupt::new(),
        boot_rom: BootRom::new(vec![0xAA; 0x100]).unwrap(),
        cartridge: Cartridge::new(cartridge),
        work_ram: WorkRam::new(),
        high_ram: WorkRam::new(),
    }
}

#[test]
fn memory_map_reads_back_writes() {
    let mut ctx = context(cartridge_with(&[0x11, 0x22], 0x00, 0x00));
    let mut mmu = MMU::new();
    assert_eq!(mmu.read_byte(&ctx, 0x0000), 0xAA);
    mmu.write_byte(&mut ctx, 0xC123, 0x5A);
    assert_eq!(mmu.read_byte(&ctx, 0xC123), 0x5A);
    assert_eq!(mmu.read_byte(&ctx, 0xE123), 0x5A);
    mmu.write_byte(&mut ctx, 0xFF90, 0x77);
    assert_eq!(mmu.read_byte(&ctx, 0xFF90), 0x77);
    assert_eq!(mmu.read_word(&ctx, 0xC123), 0x005A);
    // Unmapped registers read 0xFF and writes to them are dropped.
    mmu.write_byte(&mut ctx, 0xFF7F, 0x01);
    assert_eq!(mmu.read_byte(&ctx, 0xFF7F), 0xFF);
    // The interrupt registers keep only their five low bits.
    mmu.write_byte(&mut ctx, 0xFFFF, 0xFF);
    assert_eq!(mmu.read_byte(&ctx, 0xFFFF), 0xFF);
    mmu.write_byte(&mut ctx, 0xFF0F, 0x01);
    assert_eq!(mmu.read_byte(&ctx, 0xFF0F), 0xE1);
    // Unmapping the boot ROM shows the cartridge.
    assert_eq!(mmu.read_byte(&ctx, 0xFF50), 0xFF);
    mmu.write_byte(&mut ctx, 0xFF50, 0x01);
    assert_eq!(mmu.read_byte(&ctx, 0xFF50), 0xFE);
    assert_eq!(mmu.read_byte(&ctx, 0x0000), 0x11);
    assert_eq!(mmu.read_word(&ctx, 0x0000), 0x2211);
}

#[test]
fn dma_copies_to_the_oam() {
    let mut ctx = context(cartridge_with(&[], 0x00, 0x00));
    let mut mmu = MMU::new();
    for i in 0..0xA0u16 {
        mmu.write_byte(&mut ctx, 0xC000 + i, i as u8 + 1);
    }
    mmu.write_byte(&mut ctx, 0xFF46, 0xC0);
    // The LCD is off, so the OAM is open to the CPU.
    assert_eq!(mmu.read_byte(&ctx, 0xFE00), 1);
    assert_eq!(mmu.read_byte(&ctx, 0xFE9F), 0xA0);
}

#[test]
fn cartridge_ram_through_the_memory_map() {
    let mut ctx = context(cartridge_with(&[], 0x08, 0x02));
    let mut mmu = MMU::new();
    mmu.write_byte(&mut ctx, 0xA010, 0x33);
    assert_eq!(mmu.read_byte(&ctx, 0xA010), 0x33);
    // Without RAM the window reads 0xFF.
    let ctx2 = context(cartridge_with(&[], 0x00, 0x00));
    assert_eq!(mmu.read_byte(&ctx2, 0xA010), 0xFF);
}

#[test]
fn instructions_in_assembly() {
    let cases: [(u8, &str); 22] = [
        (0x00, "NOP"),
        (0x3E, "LD A, u8"),
        (0xEA, "LD (u16), A"),
        (0x08, "LD (u16), SP"),
        (0xE0, "LD (FF00+u8), A"),
        (0xE2, "LD (FF00+C), A"),
        (0x22, "LD (HL+), A"),
        (0xF8, "LD HL, SP+i8"),
        (0xE8, "ADD SP, i8"),
        (0x09, "ADD HL, BC"),
        (0x07, "RLCA A"),
        (0x18, "JR i8"),
        (0x20, "JR NZ, i8"),
        (0xC3, "JP u16"),
        (0xE9, "JP HL"),
        (0xC4, "CALL NZ, u16"),
        (0xC9, "RET"),
        (0xD9, "RET"),
        (0xC0, "RET NZ"),
        (0xFF, "RST $38"),
        (0xF5, "PUSH AF"),
        (0xD3, "INVALID 0xD3"),
    ];
    for (opcode, text) in cases {
        assert_eq!(decode(opcode).raw_desc(), text, "opcode 0x{:02x}", opcode);
    }
    assert_eq!(decode_cb_prefixed(0x7C).raw_desc(), "BIT 7, H");
    assert_eq!(decode_cb_prefixed(0xFE).raw_desc(), "SET 7, (HL)");
    assert_eq!(decode_cb_prefixed(0x37).raw_desc(), "SWAP A");
}

#[test]
fn instructions_with_their_values() {
    let mut boot = vec![0u8; 0x100];
    boot[0..3].copy_from_slice(&[0x3E, 0x42, 0x00]);
    boot[0x10..0x13].copy_from_slice(&[0xCD, 0x34, 0x12]);
    boot[0x20..0x22].copy_from_slice(&[0x18, 0xFE]);
    boot[0x30..0x32].copy_from_slice(&[0x18, 0x80]);
    let mut ctx = context(cartridge_with(&[], 0x00, 0x00));
    ctx.boot_rom = BootRom::new(boot).unwrap();
    let mmu = MMU::new();
    assert_eq!(decode(0x3E).desc(0x00, &mmu, &ctx), "LD A, $42");
    assert_eq!(decode(0xCD).desc(0x10, &mmu, &ctx), "CALL $1234");
    assert_eq!(decode(0x18).desc(0x20, &mmu, &ctx), "JR $fe (=> $0020)");
    assert_eq!(decode(0x18).desc(0x30, &mmu, &ctx), "JR $80 (=> $ffffffb2)");
    assert_eq!(decode(0x00).desc(0x30, &mmu, &ctx), "NOP");
}

#[test]
fn running_until_a_frame() {
    // LD A,0x91; LDH (0x40),A; JR -2
    let mut gb = gameboy(&[0x3E, 0x91, 0xE0, 0x40, 0x18, 0xFE], &[]);
    assert_eq!(gb.run_until_frame(10), Ok(None));
    assert_eq!(gb.clock().t_cycle_count(), 10);
    assert_eq!(gb.run_until_frame(200_000), Ok(Some(ugbe::gameboy::ppu::screen::Event::VBlank)));
    let mut stopped = gameboy(&[0xD3], &[]);
    assert_eq!(
        stopped.run_until_frame(200_000),
        Err(CpuError::InvalidInstruction { opcode: 0xD3, is_cb_prefixed: false, address: 0 })
    );
}
