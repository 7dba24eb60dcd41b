//! A verified CHIP-8 / Super-CHIP-8 virtual machine core: the machine state
//! model, the opcode decoder, the instruction executor, and the sprite
//! draw/collision algorithm. The host supplies input and presentation around
//! it: it latches keys, decrements the timers at a fixed cadence, and renders
//! the framebuffer whenever a step reports that it changed.

pub mod decode;
pub mod draw;
pub mod exec;
pub mod fault;
pub mod font;
pub mod laws;
pub mod state;

pub use decode::Instr;
pub use fault::Fault;
pub use state::SChip8;
pub use state::MAX_PROGRAM_LEN;
pub use state::NUM_KEYS;
pub use state::NUM_PIXELS;
pub use state::NUM_REGISTERS;
pub use state::PROGRAM_START;
pub use state::RAM_SIZE;
pub use state::SCHIP8_SCREEN_HEIGHT;
pub use state::SCHIP8_SCREEN_WIDTH;
pub use state::STACK_CAPACITY;
