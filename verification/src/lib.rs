pub mod chip8;
pub mod consts;
pub mod instr;
pub mod keypad;
pub mod laws;
pub mod menu;
pub mod op_laws;
pub mod state;

pub use chip8::Chip8;
