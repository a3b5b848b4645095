//! What the host requests of the `syscall` instruction compute from the
//! machine; the host writes the results out.
use vstd::prelude::*;
use vstd::utf8::{decode_utf8, valid_utf8};
use crate::cpu::{has_terminator, terminated_at, Cpu, NUM_REGISTERS};

verus! {

/// `true` when a valid UTF-8, NUL-terminated string starts at the address
/// held by register 0.
pub open spec fn string_at_register_0_ok(cpu: &Cpu) -> bool {
    let start = cpu@.reg(0) as int;
    &&& has_terminator(cpu@.mem, start)
    &&& forall|end: int|
        terminated_at(cpu@.mem, start, end) ==> valid_utf8(cpu@.mem.subrange(start, end))
}

/// `true` when `text` is the string that starts at the address held by register 0.
pub open spec fn is_string_at_register_0(cpu: &Cpu, text: Seq<char>) -> bool {
    let start = cpu@.reg(0) as int;
    forall|end: int|
        terminated_at(cpu@.mem, start, end) ==> text == decode_utf8(cpu@.mem.subrange(start, end))
}

/// The text the log request writes: the string at the address in register 0.
pub fn log(cpu: &mut Cpu) -> (text: String)
    requires
        string_at_register_0_ok(old(cpu)),
    ensures
        *final(cpu) == *old(cpu),
        is_string_at_register_0(old(cpu), text@),
{
    let addr = cpu.registers[0];
    cpu.memory.utf8(addr as usize).unwrap()
}

/// The text the print request writes: the string at the address in register 0.
pub fn print_string(cpu: &mut Cpu) -> (text: String)
    requires
        string_at_register_0_ok(old(cpu)),
    ensures
        *final(cpu) == *old(cpu),
        is_string_at_register_0(old(cpu), text@),
{
    let addr = cpu.registers[0];
    cpu.memory.utf8(addr as usize).unwrap()
}

/// The value the register-printing request writes: the register whose index
/// register 0 holds.
pub fn print_register(cpu: &Cpu) -> (value: u32)
    requires
        cpu@.reg(0) < NUM_REGISTERS,
    ensures
        value == cpu@.reg(cpu@.reg(0) as int),
{
    let reg = cpu.registers[0] as usize;
    cpu.registers[reg]
}

/// What the memory-logging request reports.
#[derive(Debug, PartialEq, Eq)]
pub enum MemoryLog {
    /// The start address (register 0) lies past the end address (register 1).
    InvalidRange { start: usize, end: usize },
    /// The memory bytes from `start` up to, not including, `end`.
    Range { start: usize, end: usize, bytes: Vec<u8> },
}

/// What the memory-logging request reports for the addresses in registers 0
/// and 1: the bytes between them, or the invalid range when the start lies
/// past the end.
pub fn log_memory(cpu: &Cpu) -> (entry: MemoryLog)
    requires
        cpu@.reg(0) <= cpu@.reg(1) ==> cpu@.reg(1) <= cpu@.mem.len(),
    ensures
        match entry {
            MemoryLog::InvalidRange { start, end } => {
                &&& start == cpu@.reg(0)
                &&& end == cpu@.reg(1)
                &&& start > end
            },
            MemoryLog::Range { start, end, bytes } => {
                &&& start == cpu@.reg(0)
                &&& end == cpu@.reg(1)
                &&& start <= end
                &&& bytes@ == cpu@.mem.subrange(start as int, end as int)
            },
        },
{
    let start_idx = cpu.registers[0] as usize;
    let end_idx = cpu.registers[1] as usize;
    if start_idx > end_idx {
        return MemoryLog::InvalidRange { start: start_idx, end: end_idx };
    }
    let mut bytes: Vec<u8> = Vec::new();
    let mut i = start_idx;
    while i < end_idx
        invariant
            start_idx <= i <= end_idx,
            end_idx <= cpu@.mem.len(),
            bytes@ == cpu@.mem.subrange(start_idx as int, i as int),
        decreases end_idx - i,
    {
        bytes.push(cpu.memory.buffer[i]);
        i += 1;
    }
    MemoryLog::Range { start: start_idx, end: end_idx, bytes }
}

} // verus!
