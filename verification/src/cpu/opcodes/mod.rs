//! The opcode stage of every instruction, and the interrupt sequences.

pub mod arithmetic;
pub mod bit;
pub mod combined;
pub mod compare;
pub mod interrupt;
pub mod jump;
pub mod load;
pub mod nop;
pub mod register_ops;
pub mod rmw;
pub mod stack;
pub mod store;
pub mod condition_jump;
