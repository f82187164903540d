# gblite

A small Game Boy emulator core whose behaviour is stated in Verus contracts
and proved.

- `src/` — the verified library:
  - `alu` — the 8- and 16-bit arithmetic/logic unit with exact flag results;
  - `registers` — the register file, flags and the register dump text;
  - `memory` — the address space (cartridge ROM below 0x8000, work memory
    above) and its hex dump;
  - `lookup` — the instruction table (names, lengths, clocks) and each
    instruction's flag modifiers;
  - `cpu` — the interpreter: instruction semantics as spec functions,
    `CpuCore::execute`, fetch/step, breakpoints and the processor tick;
  - `video` — the display unit that the interpreter drives (register cache
    with change tracking, line timing);
  - `ppu` — a background-rendering picture processing unit;
  - `window` — what window events mean for the emulator;
  - `util`, `text`, `config` — bit helpers, number formatting, log file
    names and the runtime configuration;
  - `laws` — properties that span several operations (write/read
    round trips, push/pop, call/return, the end of a program, …).
- `app/` — the program: command line, ROM loading, the SDL2 window, the
  Ctrl-C handler, the breakpoint prompt and the memory dump file.
- `tests/` — tests of the library on concrete values.
