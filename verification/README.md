# gameboy

A Game Boy (DMG) emulator whose core is written in Verus and proved against its
contracts.

## Layout

- `src/hdw/` — the machine: registers and flags, the instruction decoder (`instructions`),
  the instruction semantics (`cpu_ops`, `execute`), the stack, interrupts, the memory bus
  and its devices (cartridge with MBC1 banking and battery RAM, work/high RAM, timer, LCD
  registers, PPU timing, OAM DMA, joypad, serial output), the clock (`emu`: machine
  cycles, one CPU step, the command line) and the pure helpers of the window (`ui`: font,
  tile pixels, FPS counter).
- `src/menu/` — the front-end menu: navigation state, ROM checks, the ordering of games
  by name, the names under which preview images are looked for, and the menu font.
- `app/` — the program around the library: reads the ROM and the battery save, runs the
  CPU, draws with SDL2, maps the keyboard to the joypad, and lists ROMs and preview
  images on disk for the menu.
- `tests/` — executable tests of the library.

The proved properties include: what every instruction does to registers, flags, memory
and PC (`execute_spec`); that every decoded instruction runs; read-after-write on the
bus; PUSH/POP and CALL/RET round trips; interrupt priority and dispatch; DAA producing
decimal sums and differences; the timer, LCD and cartridge register behaviour; battery
saves round-tripping; a whole OAM DMA transfer; the pixel queue being first in, first
out; and that the menu keeps the selected game on screen.

Run the program with `gameboy [--debug] [--debug-limit N] ROM`.
