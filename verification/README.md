# rc8_core

A CHIP-8 emulator core, verified with Verus, and a desktop front end around it.

- `src/state.rs`: the abstract machine state and the meaning of every
  instruction, of one clock tick, of the timers, of loading a program and of
  key events, as spec functions.
- `src/chip8.rs`: the executable machine (`Chip8`); each operation is proved to
  implement its spec function and never to fail on the inputs it accepts.
- `src/instr.rs`: instruction word decoding.
- `src/keypad.rs`: the mapping from keyboard keys to the hexadecimal keypad.
- `src/menu.rs`: the front end's menu as a state machine, and the options text.
- `src/laws.rs`: properties that relate several operations.
- `app/`: the SDL2 desktop program: window, audio, file picker and event loop.
