use ugbe::gameboy::bus::{Bus, MemoryOperation};
use ugbe::gameboy::clock::{Clock, FREQUENCY};
use ugbe::gameboy::cpu::Cpu;
use ugbe::gameboy::interrupt::{Interrupt, Kind, Line};
use ugbe::gameboy::joypad::{Button, Joypad};
use ugbe::gameboy::ppu::color::{ColorId, Palette};
use ugbe::gameboy::ppu::fifo::Fifo;
use ugbe::gameboy::ppu::screen::{Color, Event, Screen};
use ugbe::gameboy::ppu::tiling::{TileDataMap, TileDataMapMethod, TileNo};
use ugbe::gameboy::ppu::Ppu;
use ugbe::gameboy::wram::WorkRam;

#[test]
fn interrupt_vectors_and_bits() {
    assert_eq!(Kind::VBlank.vector(), 0x40);
    assert_eq!(Kind::Stat.vector(), 0x48);
    assert_eq!(Kind::Timer.vector(), 0x50);
    assert_eq!(Kind::Serial.vector(), 0x58);
    assert_eq!(Kind::Joypad.vector(), 0x60);
    assert_eq!(Kind::Joypad.bit(), 0x10);
}

#[test]
fn interrupt_priority_and_acknowledge() {
    let mut line = Interrupt::new();
    assert_eq!(line.highest_priority(), None);
    line.request(Kind::Timer);
    assert_eq!(line.highest_priority(), None);
    assert!(line.flags_not_empty());
    line.set_enable(0xFF);
    assert_eq!(line.enable(), 0xFF);
    assert_eq!(line.highest_priority(), Some(Kind::Timer));
    line.request(Kind::VBlank);
    assert_eq!(line.highest_priority(), Some(Kind::VBlank));
    line.ack(Kind::VBlank);
    assert_eq!(line.highest_priority(), Some(Kind::Timer));
    assert_eq!(line.flags(), 0xE4);
    line.ack(Kind::Timer);
    assert_eq!(line.highest_priority(), None);
    assert!(!line.flags_not_empty());
    line.set_flags(0xFF);
    assert_eq!(line.flags(), 0xFF);
}

#[test]
fn joypad_reads_the_selected_buttons() {
    let mut joypad = Joypad::new();
    assert_eq!(joypad.read_p1(), 0xFF);
    // Select the direction buttons.
    joypad.write_p1(0x20);
    joypad.keydown(Button::Down);
    assert_eq!(joypad.read_p1(), 0xE7);
    joypad.keydown(Button::A);
    assert_eq!(joypad.read_p1(), 0xE7);
    // Select the action buttons.
    joypad.write_p1(0x10);
    assert_eq!(joypad.read_p1(), 0xDE);
    joypad.keyup(Button::A);
    assert_eq!(joypad.read_p1(), 0xDF);
}

#[test]
fn joypad_requests_an_interrupt_on_a_falling_line() {
    let mut joypad = Joypad::new();
    let mut line = Interrupt::new();
    joypad.write_p1(0x10);
    joypad.tick(&mut line);
    assert_eq!(line.flags(), 0xE0);
    joypad.keydown(Button::Start);
    joypad.tick(&mut line);
    assert_eq!(line.flags(), 0xF0);
    line.set_flags(0);
    joypad.tick(&mut line);
    assert_eq!(line.flags(), 0xE0);
}

#[test]
fn work_ram_reads_back_writes() {
    let mut ram: WorkRam<0x10> = WorkRam::new();
    assert_eq!(ram.read(3), 0);
    ram.write(3, 7);
    assert_eq!(ram.read(3), 7);
    assert_eq!(ram.read(4), 0);
    ram.write(3, 9);
    assert_eq!(ram.read(3), 9);
}

#[test]
fn clock_counts_cycles() {
    let mut clock = Clock::new();
    assert!(clock.is_m_cycle() && clock.is_apu_cycle());
    for _ in 0..5 {
        clock.tick();
    }
    assert_eq!(clock.t_cycle_count(), 5);
    assert!(!clock.is_m_cycle() && !clock.is_apu_cycle());
    for _ in 0..3 {
        clock.tick();
    }
    assert!(clock.is_m_cycle());
    assert_eq!(Clock::default().t_cycle_count(), 0);
    assert_eq!(FREQUENCY, 4_194_304);
}

#[test]
fn fifo_keeps_the_order() {
    let mut fifo: Fifo<u8, 4> = Fifo::new();
    fifo.push(1);
    fifo.push(2);
    fifo.push(3);
    assert_eq!(fifo.pop(), 1);
    fifo.push(4);
    fifo.push(5);
    assert_eq!(fifo.len(), 4);
    assert_eq!(fifo.get(0), 2);
    assert_eq!(fifo.get(3), 5);
    fifo.set(1, 9);
    assert_eq!(fifo.pop(), 2);
    assert_eq!(fifo.pop(), 9);
    fifo.clear();
    assert_eq!(fifo.len(), 0);
}

#[test]
fn screen_pixels() {
    let mut screen = Screen::new();
    screen.set_pixel(3, 2, Color::Black);
    assert_eq!(screen.get_pixel(3, 2), Color::Black);
    assert_eq!(screen.pixels()[2 * 160 + 3], Color::Black);
    screen.off();
    assert_eq!(screen.get_pixel(3, 2), Color::Off);
}

#[test]
fn palettes_map_color_ids() {
    let palette = Palette(0b11_10_01_00);
    assert_eq!(palette.color(ColorId::zero()), Color::White);
    assert!(ColorId::zero().is_zero());
    let inverted = Palette(0b00_01_10_11);
    assert_eq!(inverted.color(ColorId::zero()), Color::Black);
}

#[test]
fn ppu_draws_frames_once_the_lcd_is_on() {
    let mut ppu = Ppu::new();
    let mut line = Interrupt::new();
    ppu.write_bgp(0xE4);
    ppu.write_lcdc(0x91);
    assert_eq!(ppu.read_lcdc(), 0x91);
    assert_eq!(ppu.tick(&mut line), Some(Event::LCDOn));
    let mut vblanks = 0;
    for _ in 0..(3 * 70224) {
        if ppu.tick(&mut line) == Some(Event::VBlank) {
            vblanks += 1;
        }
        assert!(ppu.read_ly() < 154);
    }
    assert!(vblanks >= 2);
    assert_eq!(line.flags() & 0x01, 0x01);
    // The tiles are all zero: color 0 is white in this palette.
    assert_eq!(ppu.screen().get_pixel(0, 0), Color::White);
    assert_eq!(ppu.screen().get_pixel(159, 143), Color::White);
    ppu.write_lcdc(0x11);
    assert_eq!(ppu.tick(&mut line), Some(Event::LCDOff));
    assert_eq!(ppu.screen().get_pixel(0, 0), Color::Off);
    assert_eq!(ppu.read_ly(), 0);
}

#[test]
fn ppu_draws_the_background_and_a_sprite() {
    let mut ppu = Ppu::new();
    let mut line = Interrupt::new();
    // Tile 0: first row of color 1, the others of color 0.
    ppu.write_vram_byte(0x0000, 0xFF);
    // Tile 1: every row of color 3.
    for i in 0..16u16 {
        ppu.write_vram_byte(0x0010 + i, 0xFF);
    }
    // Sprite 0 at the top left corner, tile 1.
    ppu.write_oam_byte(0, 16);
    ppu.write_oam_byte(1, 8);
    ppu.write_oam_byte(2, 1);
    ppu.write_oam_byte(3, 0);
    ppu.write_bgp(0xE4);
    ppu.write_obp0(0xE4);
    ppu.write_lcdc(0x93);
    for _ in 0..(3 * 70224) {
        ppu.tick(&mut line);
    }
    let screen = ppu.screen();
    assert_eq!(screen.get_pixel(0, 0), Color::Black);
    assert_eq!(screen.get_pixel(7, 7), Color::Black);
    assert_eq!(screen.get_pixel(8, 0), Color::LightGray);
    assert_eq!(screen.get_pixel(8, 1), Color::White);
    assert_eq!(screen.get_pixel(20, 8), Color::LightGray);
    assert_eq!(screen.get_pixel(20, 9), Color::White);
}

#[test]
fn tiles_of_every_size() {
    let mut ppu = Ppu::new();
    ppu.write_vram_byte(0x0800, 0xAB);
    ppu.write_vram_byte(0x17F0, 0xCD);
    ppu.write_vram_byte(0x0020, 0x12);
    ppu.write_vram_byte(0x0040, 0x34);
    ppu.write_vram_byte(0x0041, 0x56);
    let signed = TileDataMap::new(TileDataMapMethod::Method8800, 16);
    assert_eq!(signed.tile(&ppu, &TileNo(0x80)).get_low_row_data(0).0, 0xAB);
    assert_eq!(signed.tile(&ppu, &TileNo(0x7F)).get_low_row_data(0).0, 0xCD);
    let tall = TileDataMap::new(TileDataMapMethod::Method8000, 32);
    assert_eq!(tall.tile(&ppu, &TileNo(0x03)).get_low_row_data(0).0, 0x12);
    let wide = TileDataMap::new(TileDataMapMethod::Method8000, 48);
    let tile = wide.tile(&ppu, &TileNo(0x07));
    assert_eq!(tile.get_low_row_data(0).0, 0x34);
    assert_eq!(tile.get_high_row_data(24).0, 0x56);
    let largest = TileDataMap::new(TileDataMapMethod::Method8000, 128);
    assert_eq!(largest.tile(&ppu, &TileNo(0x7F)).get_low_row_data(0).0, 0x00);
}

#[test]
fn vram_and_oam_read_back_and_lcd_off_stat() {
    let mut ppu = Ppu::new();
    let mut line = Interrupt::new();
    ppu.write_vram_byte(0x1234, 0x5A);
    assert_eq!(ppu.read_vram_byte(0x1234), 0x5A);
    ppu.write_oam_byte(0x9F, 0x77);
    assert_eq!(ppu.read_oam_byte(0x9F), 0x77);
    ppu.write_stat(0xFF);
    assert_eq!(ppu.read_stat() & 0x78, 0x78);
    ppu.write_lcdc(0x91);
    for _ in 0..1000 {
        ppu.tick(&mut line);
    }
    ppu.write_lcdc(0x11);
    assert_eq!(ppu.read_ly(), 0);
    assert_eq!(ppu.read_stat() & 0b111, 0b100);
    assert_eq!(ppu.tick(&mut line), Some(Event::LCDOff));
    assert_eq!(ppu.read_ly(), 0);
}

#[test]
fn frames_are_70224_cycles_apart() {
    let mut ppu = Ppu::new();
    let mut line = Interrupt::new();
    ppu.write_lcdc(0x91);
    let mut vblanks: Vec<usize> = Vec::new();
    for t in 0..(4 * 70224) {
        if ppu.tick(&mut line) == Some(Event::VBlank) {
            vblanks.push(t);
        }
        assert!(ppu.read_ly() <= 153);
    }
    assert!(vblanks.len() >= 3);
    for w in vblanks.windows(2) {
        assert_eq!(w[1] - w[0], 70224);
    }
}

#[test]
fn clock_cycles_after_n_ticks() {
    let mut clock = Clock::new();
    for n in 1..=40usize {
        clock.tick();
        assert_eq!(clock.t_cycle_count(), n);
        assert_eq!(clock.is_m_cycle(), n % 4 == 0);
        assert_eq!(clock.is_apu_cycle(), n % 2 == 0);
    }
}

#[test]
fn a_requested_interrupt_is_taken_in_five_cycles() {
    let mut cpu = Cpu::new();
    let bus = Bus::new();
    let mut line = Interrupt::new();
    // The first cycle reads the opcode at PC (0).
    assert_eq!(cpu.tick(&bus, &mut line), Ok(MemoryOperation::Read { address: 0 }));
    line.set_enable(0x1F);
    line.request(Kind::Timer);
    line.request(Kind::Joypad);
    assert_eq!(cpu.tick(&bus, &mut line), Ok(MemoryOperation::NoOp));
    assert_eq!(cpu.tick(&bus, &mut line), Ok(MemoryOperation::NoOp));
    assert_eq!(cpu.tick(&bus, &mut line), Ok(MemoryOperation::Write { address: 0xFFFF, value: 0 }));
    assert_eq!(line.flags(), 0xE0 | 0x14);
    assert_eq!(cpu.tick(&bus, &mut line), Ok(MemoryOperation::Write { address: 0xFFFE, value: 0 }));
    assert_eq!(cpu.tick(&bus, &mut line), Ok(MemoryOperation::Read { address: 0x50 }));
    // Only the timer interrupt was acknowledged.
    assert_eq!(line.flags(), 0xE0 | 0x10);
}
