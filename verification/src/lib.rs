//! A Game Boy emulator core: ALU, registers, memory, instruction tables,
//! the picture processing unit and the CPU interpreter.

pub mod util;
pub mod text;
pub mod alu;
pub mod registers;
pub mod memory;
pub mod config;
pub mod lookup;
pub mod ppu;
pub mod video;
pub mod window;
pub mod cpu;
pub mod laws;
pub mod alu_laws;
pub mod isa_laws;
pub mod isa_alu_laws;
pub mod table_laws;
pub mod picture_laws;
pub mod text_laws;
pub mod step_laws;
pub mod video_laws;
