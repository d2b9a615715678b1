//! Saved states: the whole machine as a versioned stream of bytes.

pub mod apu;
pub mod bytes;
pub mod codec;
pub mod cpu;
pub mod ppu;
pub mod state;

pub use self::state::SaveStateMismatch;
