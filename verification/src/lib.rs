//! Core of an interpreter for a 16-bit-opcode virtual CPU: fixed-width value
//! types, the closed operation set, the decoder, the machine state with its
//! executor, and the real-time timer subsystem.

pub mod decode;
pub mod engine;
pub mod exec;
pub mod instruction;
pub mod machine;
pub mod text;
pub mod timers;
pub mod values;

pub use values::Address;
pub use values::Constant;
pub use values::Register;
