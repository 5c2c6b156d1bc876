# ugbe

A Game Boy (DMG) emulator whose core is verified with Verus.

- `src/` is the verified library:
  - `bootrom`, `cartridge` (header decoding and checks, names of the header fields);
  - `gameboy`: the machine, one T-cycle at a time (`Gameboy::tick`), built from the CPU
    (`cpu`: registers, decoder, ALU, instruction executions, interrupt dispatch,
    disassembly), the memory map (`mmu`, `bus`), the cartridge controllers
    (`cartridge`: none, MBC1, MBC5), the PPU (`ppu`: modes, fetchers, FIFOs, sprites,
    screen), the joypad, the interrupt registers, the work RAMs and the clock; `hardware`
    and `cartbridge` are simpler memory map and cartridge readers.
  Every operation is specified by a spec function over plain values (`GameboyView`,
  `ContextView`, `CpuView`, `PpuView`, ...), and the properties that span operations are
  proof functions named `lemma_*`.
- `tests/` runs the library on concrete programs and values.
- `app/` is the SDL2 front end: it reads the ROM files, shows the frames and forwards the
  buttons, running the emulation on its own thread.

## What the emulator does not have

There is no timer and no sound unit: the timer registers (0xFF04-0xFF07) and the sound
registers (0xFF10-0xFF3F) read 0xFF and ignore writes, no timer interrupt is ever
requested, and a cycle of the machine gives no sound sample. The screen has no colour
configuration or frame blending: it shows four shades of gray.
