pub mod alu;
pub mod bus;
pub mod cpu;
pub mod opcodes;
pub mod ppu;
pub mod rom;
pub mod state;

pub use state::{is_negative, Nes, NesState};
