//! The processor: its register file, its instruction decoder and its executor.

pub mod alu;
pub mod decode;
pub mod lr25902;
pub mod registers;
