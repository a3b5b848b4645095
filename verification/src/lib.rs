//! A small 32-bit virtual machine: memory, registers, an instruction set with
//! byte, short and long operands, and the verified semantics of each instruction.
pub mod checks;
pub mod cpu;
pub mod debug;
pub mod execution;
pub mod functions;
pub mod gpu;
pub mod handlers;
pub mod hardware;
pub mod laws;
pub mod machine;
pub mod opcodes;
pub mod semantics;
pub mod value_laws;
