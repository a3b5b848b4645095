//! The machine itself: byte-addressed memory, the register file, instruction
//! fetch and the fetch-decode-execute loop.
use vstd::prelude::*;
use vstd::string::StringSliceAdditionalSpecFns;
use vstd::utf8::{decode_utf8, valid_utf8};
use crate::machine::{
    byte_of, in_bounds, read_le, write_le, MachineState, Width, CARRY_FLAG, HALT_FLAG,
    INTERRUPT_FLAG, MEMORY_SIZE,
};
use crate::checks::{can_execute, state};
use crate::handlers::execute;
use crate::opcodes::Opcode;
use crate::semantics::{pending_syscall, runs_without_fault, step, steps, stops_before, Syscall};
use std::str::Utf8Error;

pub use crate::machine::{BP, FLAGS, IDT, IP, NUM_REGISTERS, SP};

verus! {

/// `std::str::Utf8Error`, carried through unchanged.
#[verifier::external_type_specification]
#[verifier::external_body]
pub struct ExUtf8Error(Utf8Error);

/// `std::str::from_utf8` followed by a copy into a `String`. Trusted: the
/// decoding succeeds exactly on valid UTF-8 (as vstd's `valid_utf8` states
/// it), and the string then holds the decoded characters.
#[verifier::external_body]
fn string_from_utf8(bytes: &[u8]) -> (res: Result<String, Utf8Error>)
    ensures
        res is Ok <==> valid_utf8(bytes@),
        res matches Ok(s) ==> s@ == decode_utf8(bytes@),
{
    match std::str::from_utf8(bytes) {
        Ok(s) => Ok(s.to_string()),
        Err(e) => Err(e),
    }
}

/// `true` when the bytes of `mem` from `start` up to `end` are all non-zero and
/// `mem[end]` is zero: a NUL-terminated string starts at `start` and ends at `end`.
pub open spec fn terminated_at(mem: Seq<u8>, start: int, end: int) -> bool {
    &&& 0 <= start <= end < mem.len()
    &&& mem[end] == 0
    &&& forall|k: int| start <= k < end ==> mem[k] != 0
}

/// `true` when a NUL byte follows `start` somewhere in `mem`.
pub open spec fn has_terminator(mem: Seq<u8>, start: int) -> bool {
    exists|end: int| terminated_at(mem, start, end)
}

/// The byte-addressed memory of the machine.
#[derive(Debug)]
pub struct Memory {
    pub buffer: Vec<u8>,
}

impl Memory {
    /// A zero-filled memory of `MEMORY_SIZE` bytes.
    pub fn new() -> (m: Self)
        ensures
            m.buffer@.len() == MEMORY_SIZE,
            forall|i: int| 0 <= i < MEMORY_SIZE ==> m.buffer@[i] == 0,
    {
        return Self { buffer: vec![0; MEMORY_SIZE] };
    }

    /// The byte at `addr`.
    pub fn byte(&mut self, addr: usize) -> (b: u8)
        requires
            addr < old(self).buffer@.len(),
        ensures
            *final(self) == *old(self),
            b == old(self).buffer@[addr as int],
    {
        let b = self.buffer[addr];
        return b;
    }

    /// The little-endian 16-bit value at `addr`.
    pub fn short(&mut self, addr: usize) -> (v: u16)
        requires
            in_bounds(old(self).buffer@, addr as int, Width::Short),
        ensures
            *final(self) == *old(self),
            v == read_le(old(self).buffer@, addr as int, Width::Short),
    {
        proof {
            assert(self.buffer@.len() == self.buffer.len());
        }
        let low = self.byte(addr) as u16;
        let high = self.byte(addr + 1) as u16;
        proof {
            lemma_compose_u16(low, high);
        }
        return (high << 8) | low;
    }

    /// The little-endian 32-bit value at `addr`.
    pub fn long(&mut self, addr: usize) -> (v: u32)
        requires
            in_bounds(old(self).buffer@, addr as int, Width::Long),
        ensures
            *final(self) == *old(self),
            v == read_le(old(self).buffer@, addr as int, Width::Long),
    {
        proof {
            assert(self.buffer@.len() == self.buffer.len());
        }
        let low = self.short(addr) as u32;
        let high = self.short(addr + 2) as u32;
        proof {
            lemma_compose_u32(low, high);
        }
        return (high << 16) | low;
    }

    /// The NUL-terminated string starting at `addr`, decoded as UTF-8; the
    /// error of the decoding when its bytes are not valid UTF-8.
    pub fn utf8(&mut self, addr: usize) -> (res: Result<String, Utf8Error>)
        requires
            has_terminator(old(self).buffer@, addr as int),
        ensures
            *final(self) == *old(self),
            forall|end: int|
                terminated_at(old(self).buffer@, addr as int, end) ==> {
                    let text = old(self).buffer@.subrange(addr as int, end);
                    &&& res is Ok <==> valid_utf8(text)
                    &&& res matches Ok(s) ==> s@ == decode_utf8(text)
                },
    {
        let ghost mem = self.buffer@;
        let ghost end = choose|end: int| terminated_at(mem, addr as int, end);
        let mut bytes: Vec<u8> = Vec::new();
        let mut i = addr;
        proof {
            assert(self.buffer@.len() == self.buffer.len());
        }
        loop
            invariant
                mem.len() <= usize::MAX,
                *self == *old(self),
                self.buffer@ == mem,
                terminated_at(mem, addr as int, end),
                addr <= i <= end,
                bytes@ == mem.subrange(addr as int, i as int),
            ensures
                i == end,
                bytes@ == mem.subrange(addr as int, end),
            decreases end - i,
        {
            let b = self.byte(i);
            if b == 0 {
                break;
            }
            bytes.push(b);
            i += 1;
        }
        proof {
            assert forall|e: int| terminated_at(mem, addr as int, e) implies e == end by {
                if e < end {
                    assert(mem[e] != 0);
                } else if e > end {
                    assert(mem[end] != 0);
                }
            }
        }
        string_from_utf8(bytes.as_slice())
    }

    /// Stores `value` little-endian in the four bytes at `addr`.
    pub fn set_long(&mut self, addr: usize, value: u32)
        requires
            in_bounds(old(self).buffer@, addr as int, Width::Long),
        ensures
            final(self).buffer@ == write_le(old(self).buffer@, addr as int, Width::Long, value as int),
    {
        proof {
            lemma_split_u32(value);
            assert(self.buffer@.len() == self.buffer.len());
        }
        self.set_short(addr, value as u16);
        self.set_short(addr + 2, (value >> 16) as u16);
    }

    /// Stores `value` little-endian in the two bytes at `addr`.
    pub fn set_short(&mut self, addr: usize, value: u16)
        requires
            in_bounds(old(self).buffer@, addr as int, Width::Short),
        ensures
            final(self).buffer@ == write_le(old(self).buffer@, addr as int, Width::Short, value as int),
    {
        proof {
            lemma_split_u16(value);
            assert(self.buffer@.len() == self.buffer.len());
        }
        self.set_byte(addr, value as u8);
        self.set_byte(addr + 1, (value >> 8) as u8);
    }

    /// Stores `value` at `addr`.
    pub fn set_byte(&mut self, addr: usize, value: u8)
        requires
            addr < old(self).buffer@.len(),
        ensures
            final(self).buffer@ == old(self).buffer@.update(addr as int, value),
    {
        self.buffer[addr] = value;
    }
}


/// The value of memory byte `addr` in a freshly created machine: the text
/// buffer holds blank characters with attribute 0, everything else is zero.
pub open spec fn initial_byte(addr: int) -> u8 {
    if Cpu::VGA_BUFFER_ADDRESS <= addr < Cpu::VGA_BUFFER_ADDRESS + Cpu::VGA_BUFFER_LEN && (addr
        - Cpu::VGA_BUFFER_ADDRESS) % 2 == 0 {
        0x20
    } else {
        0
    }
}

/// Why a checked run of the machine stopped.
#[derive(Clone, Copy, PartialEq, Eq, Structural, Debug)]
pub enum RunStop {
    /// The halt flag is set.
    Halted,
    /// The last instruction made this request to the host.
    Request(Syscall),
    /// The next instruction cannot execute.
    Fault,
    /// `u64::MAX` instructions ran.
    Limit,
}

/// The machine: 22 registers of 32 bits and a byte-addressed memory.
pub struct Cpu {
    pub registers: [u32; NUM_REGISTERS],
    pub memory: Memory,
}

impl View for Cpu {
    type V = MachineState;

    open spec fn view(&self) -> MachineState {
        MachineState { regs: self.registers@, mem: self.memory.buffer@ }
    }
}

impl Cpu {
    /// Each text cell of the display buffer takes two bytes (character, attribute).
    pub const VGA_BUFFER_LEN: usize = 320 * 200 * 2;

    pub const VGA_BUFFER_ADDRESS: usize = 0xA0000;

    pub const HALT_FLAG: u32 = HALT_FLAG;

    pub const INTERRUPT_FLAG: u32 = INTERRUPT_FLAG;

    pub const CARRY_FLAG: u32 = CARRY_FLAG;

    /// A machine with zeroed registers, except for a default stack: the base
    /// pointer 20 bytes below the end of memory and the stack pointer 1000
    /// bytes below it; memory is zero except for the blanked text buffer.
    pub fn new() -> (cpu: Self)
        ensures
            cpu@.mem.len() == MEMORY_SIZE,
            forall|i: int| 0 <= i < MEMORY_SIZE ==> cpu@.mem[i] == initial_byte(i),
            cpu@.regs == Seq::new(
                NUM_REGISTERS as nat,
                |r: int|
                    if r == BP {
                        (MEMORY_SIZE - 20) as u32
                    } else if r == SP {
                        (MEMORY_SIZE - 1020) as u32
                    } else {
                        0u32
                    },
            ),
    {
        let mut cpu = Cpu { registers: [0;NUM_REGISTERS], memory: Memory::new() };
        assert(forall|r: int| 0 <= r < NUM_REGISTERS ==> cpu.registers@[r] == 0);
        let bp = cpu.memory.buffer.len() - 20;
        cpu.registers[BP] = bp as u32;
        let sp = bp - 1000;
        cpu.registers[SP] = sp as u32;

        assert(cpu@.regs =~= Seq::new(
            NUM_REGISTERS as nat,
            |r: int|
                if r == BP {
                    (MEMORY_SIZE - 20) as u32
                } else if r == SP {
                    (MEMORY_SIZE - 1020) as u32
                } else {
                    0u32
                },
        ));
        let ghost regs = cpu@.regs;
        let end = Cpu::VGA_BUFFER_ADDRESS + Cpu::VGA_BUFFER_LEN;
        let mut i = Cpu::VGA_BUFFER_ADDRESS;
        while i < end
            invariant
                Cpu::VGA_BUFFER_ADDRESS <= i <= end,
                end == Cpu::VGA_BUFFER_ADDRESS + Cpu::VGA_BUFFER_LEN,
                (i - Cpu::VGA_BUFFER_ADDRESS) % 2 == 0,
                cpu@.regs == regs,
                cpu.memory.buffer@.len() == MEMORY_SIZE,
                forall|j: int|
                    0 <= j < MEMORY_SIZE ==> cpu.memory.buffer@[j] == if j < i {
                        initial_byte(j)
                    } else {
                        0
                    },
            decreases end - i,
        {
            cpu.memory.buffer[i] = 0x20;
            cpu.memory.buffer[i + 1] = 0x0;
            i += 2;
        }
        return cpu;
    }

    /// The flags register.
    pub fn flags(&self) -> (f: u32)
        ensures
            f == self@.flags(),
    {
        self.registers[FLAGS]
    }

    /// `true` when every bit of `flag` is set.
    pub fn has_flag(&self, flag: u32) -> (b: bool)
        ensures
            b == self@.has_flag(flag),
    {
        (self.flags() & flag) == flag
    }

    /// Sets (when `set`) or clears the bits of `flag`.
    pub fn set_flag(&mut self, flag: u32, set: bool)
        ensures
            final(self)@ == old(self)@.with_flag(flag, set),
    {
        let flags = self.registers[FLAGS];
        self.registers[FLAGS] = if set {
            flags | flag
        } else {
            flags & !flag
        };
    }

    /// The stack pointer.
    pub fn sp(&self) -> (v: usize)
        ensures
            v == self@.sp(),
    {
        self.registers[SP] as usize
    }

    /// The instruction pointer.
    pub fn ip(&self) -> (v: usize)
        ensures
            v == self@.ip(),
    {
        self.registers[IP] as usize
    }

    /// The base pointer.
    pub fn bp(&self) -> (v: usize)
        ensures
            v == self@.regs[BP as int],
    {
        self.registers[BP] as usize
    }

    /// Moves the stack pointer down by `value`.
    pub fn dec_sp(&mut self, value: u32)
        requires
            old(self)@.sp() >= value,
        ensures
            final(self)@ == old(self)@.with_reg(SP as int, (old(self)@.sp() - value) as u32),
    {
        self.registers[SP] = self.registers[SP] - value;
    }

    /// Moves the stack pointer up by `value`.
    pub fn inc_sp(&mut self, value: u32)
        requires
            old(self)@.sp() + value <= u32::MAX,
        ensures
            final(self)@ == old(self)@.with_reg(SP as int, (old(self)@.sp() + value) as u32),
    {
        self.registers[SP] = self.registers[SP] + value;
    }

    /// Moves the instruction pointer forward by `value`.
    pub fn inc_ip(&mut self, value: u32)
        requires
            old(self)@.ip() + value <= u32::MAX,
        ensures
            final(self)@ == old(self)@.advance(value as int),
    {
        self.registers[IP] = self.registers[IP] + value;
    }

    /// The byte at the instruction pointer, which moves past it.
    pub fn next_byte(&mut self) -> (b: u8)
        requires
            old(self)@.can_fetch(1),
        ensures
            b == old(self)@.operand(0, Width::Byte),
            final(self)@ == old(self)@.advance(1),
    {
        let b = self.memory.byte(self.ip());
        self.inc_ip(1);
        b
    }

    /// The little-endian short at the instruction pointer, which moves past it.
    pub fn next_short(&mut self) -> (v: u16)
        requires
            old(self)@.can_fetch(2),
        ensures
            v == old(self)@.operand(0, Width::Short),
            final(self)@ == old(self)@.advance(2),
    {
        let v = self.memory.short(self.ip());
        self.inc_ip(2);
        v
    }

    /// The little-endian long at the instruction pointer, which moves past it.
    pub fn next_long(&mut self) -> (v: u32)
        requires
            old(self)@.can_fetch(4),
        ensures
            v == old(self)@.operand(0, Width::Long),
            final(self)@ == old(self)@.advance(4),
    {
        let v = self.memory.long(self.ip());
        self.inc_ip(4);
        v
    }

    /// The NUL-terminated UTF-8 string at the instruction pointer; the
    /// instruction pointer moves to its terminating NUL byte.
    pub fn next_utf8(&mut self) -> (s: String)
        requires
            has_terminator(old(self)@.mem, old(self)@.ip()),
            forall|end: int|
                terminated_at(old(self)@.mem, old(self)@.ip(), end) ==> end <= u32::MAX
                    && valid_utf8(old(self)@.mem.subrange(old(self)@.ip(), end)),
        ensures
            forall|end: int|
                terminated_at(old(self)@.mem, old(self)@.ip(), end) ==> {
                    &&& s@ == decode_utf8(old(self)@.mem.subrange(old(self)@.ip(), end))
                    &&& final(self)@ == old(self)@.with_reg(IP as int, end as u32)
                },
    {
        let ghost start = self@;
        let ghost end = choose|end: int| terminated_at(start.mem, start.ip(), end);
        let string = self.memory.utf8(self.ip()).unwrap();
        proof {
            let text = start.mem.subrange(start.ip(), end);
            vstd::utf8::decode_utf8_encode_utf8(text);
            assert(end < start.mem.len());
            assert(start.mem.len() == self.memory.buffer.len());
        }
        let text_str = string.as_str();
        let len = text_str.len();
        proof {
            assert(text_str.spec_bytes() == vstd::utf8::encode_utf8(text_str@));
            assert(len == end - start.ip());
            assert forall|e: int| terminated_at(start.mem, start.ip(), e) implies e == end by {
                if e < end {
                    assert(start.mem[e] != 0);
                } else if e > end {
                    assert(start.mem[end] != 0);
                }
            }
        }
        self.inc_ip(len as u32);
        return string;
    }

    /// The assembler name of register `index`.
    pub fn reg_index_to_str(index: &usize) -> (name: &str)
        requires
            *index < NUM_REGISTERS,
        ensures
            name@ == register_name(*index as int),
    {
        match *index {
            0 => "rax",
            1 => "rbx",
            2 => "rcx",
            3 => "rdx",
            4 => "rex",
            5 => "rfx",
            6 => "rgx",
            7 => "rhx",
            8 => "rzx",
            9 => "rwx",
            10 => "r9",
            11 => "r10",
            12 => "r11",
            13 => "r12",
            14 => "r13",
            15 => "r14",
            16 => "r15",
            17 => "flags",
            18 => "bp",
            19 => "ip",
            20 => "sp",
            _ => "idt",
        }
    }

    /// The hardware interrupt routine to run before the next instruction is
    /// fetched: while an interrupt is in service, the pending routine, taken
    /// out of `pending` so that it runs once; otherwise none, and the pending
    /// routine stays.
    pub fn take_hardware_interrupt<T>(&self, pending: &mut Option<T>) -> (routine: Option<T>)
        ensures
            self@.has_flag(INTERRUPT_FLAG) ==> routine == *old(pending) && *final(pending) is None,
            !self@.has_flag(INTERRUPT_FLAG) ==> routine is None && *final(pending) == *old(pending),
    {
        if self.has_flag(Cpu::INTERRUPT_FLAG) {
            pending.take()
        } else {
            None
        }
    }

    /// Executes one instruction: fetches the opcode byte at the instruction
    /// pointer (a byte that encodes no opcode halts the machine) and runs the
    /// instruction. Gives the host request the instruction makes, if any.
    pub fn cycle(&mut self) -> (request: Option<Syscall>)
        requires
            step(old(self)@) is Some,
        ensures
            Some(final(self)@) == step(old(self)@),
            request == pending_syscall(old(self)@),
    {
        proof {
            reveal(step);
        }
        let instruction = self.next_byte();
        let op = match Opcode::from_byte(instruction) {
            Some(op) => op,
            None => Opcode::Hlt,
        };
        execute(self, op)
    }

    /// Whether the next instruction can execute: `cycle` may run exactly
    /// when this holds.
    pub fn can_step(&self) -> (ok: bool)
        ensures
            ok == (step(self@) is Some),
    {
        proof {
            reveal(step);
        }
        let ip = self.registers[IP];
        if ip as u64 >= self.memory.buffer.len() as u64 || ip == u32::MAX {
            return false;
        }
        let op = match Opcode::from_byte(self.memory.buffer[ip as usize]) {
            Some(op) => op,
            None => Opcode::Hlt,
        };
        let mut regs = self.registers;
        regs[IP] = ip + 1;
        assert(state(regs, self@.mem) == self@.advance(1));
        can_execute(&regs, &self.memory.buffer, op)
    }

    /// Runs the machine until it halts, or until an instruction makes a
    /// request to the host, which the caller then serves before running on.
    /// Gives that request; `None` when the machine halted (or when
    /// `u64::MAX` instructions ran without either).
    pub fn run(&mut self) -> (request: Option<Syscall>)
        requires
            runs_without_fault(old(self)@),
        ensures
            exists|n: nat|
                #![trigger steps(old(self)@, n)]
                {
                    &&& !stops_before(old(self)@, n)
                    &&& match request {
                        Some(r) => steps(old(self)@, n) matches Some(t) && pending_syscall(t)
                            == Some(r) && step(t) == Some(final(self)@),
                        None => steps(old(self)@, n) == Some(final(self)@) && (final(self)@.halted()
                            || n == u64::MAX),
                    }
                },
    {
        let ghost start = self@;
        let mut n: u64 = 0;
        while n < u64::MAX && !self.has_flag(Cpu::HALT_FLAG)
            invariant
                start == old(self)@,
                runs_without_fault(start),
                steps(start, n as nat) == Some(self@),
                !stops_before(start, n as nat),
            ensures
                steps(start, n as nat) == Some(self@),
                !stops_before(start, n as nat),
                self@.halted() || n == u64::MAX,
            decreases u64::MAX - n,
        {
            proof {
                lemma_steps_last(start, n as nat);
                if pending_syscall(self@) is Some {
                    crate::semantics::lemma_pending_syscall_executes(self@);
                } else {
                    assert(!stops_before(start, (n + 1) as nat)) by {
                        lemma_not_stopped_extends(start, n as nat);
                    }
                }
            }
            let ghost before = self@;
            let request = self.cycle();
            if request.is_some() {
                assert({
                    &&& !stops_before(start, n as nat)
                    &&& match request {
                        Some(r) => steps(start, n as nat) matches Some(t) && pending_syscall(t)
                            == Some(r) && step(t) == Some(self@),
                        None => false,
                    }
                });
                return request;
            }
            proof {
                lemma_not_stopped_extends(start, n as nat);
            }
            n += 1;
        }
        assert({
            &&& !stops_before(start, n as nat)
            &&& steps(start, n as nat) == Some(self@) && (self@.halted() || n == u64::MAX)
        });
        None
    }

    /// Runs the machine until it halts, an instruction makes a request to the
    /// host, or the next instruction cannot execute (a fault), checking each
    /// instruction before running it. Tells which of these stopped it
    /// (`Limit` when `u64::MAX` instructions ran without any of them).
    pub fn run_checked(&mut self) -> (stop: RunStop)
        ensures
            exists|n: nat|
                #![trigger steps(old(self)@, n)]
                {
                    &&& !stops_before(old(self)@, n)
                    &&& match stop {
                        RunStop::Halted => steps(old(self)@, n) == Some(final(self)@)
                            && final(self)@.halted(),
                        RunStop::Request(r) => steps(old(self)@, n) matches Some(t)
                            && pending_syscall(t) == Some(r) && step(t) == Some(final(self)@),
                        RunStop::Fault => steps(old(self)@, n) == Some(final(self)@)
                            && !final(self)@.halted() && step(final(self)@) is None,
                        RunStop::Limit => steps(old(self)@, n) == Some(final(self)@) && n
                            == u64::MAX,
                    }
                },
    {
        let ghost start = self@;
        let mut n: u64 = 0;
        while n < u64::MAX && !self.has_flag(Cpu::HALT_FLAG)
            invariant
                start == old(self)@,
                steps(start, n as nat) == Some(self@),
                !stops_before(start, n as nat),
            ensures
                steps(start, n as nat) == Some(self@),
                !stops_before(start, n as nat),
                self@.halted() || n == u64::MAX,
            decreases u64::MAX - n,
        {
            if !self.can_step() {
                return RunStop::Fault;
            }
            proof {
                lemma_steps_last(start, n as nat);
            }
            let request = self.cycle();
            match request {
                Some(r) => {
                    return RunStop::Request(r);
                },
                None => {},
            }
            proof {
                lemma_not_stopped_extends(start, n as nat);
            }
            n += 1;
        }
        if self.has_flag(Cpu::HALT_FLAG) {
            RunStop::Halted
        } else {
            RunStop::Limit
        }
    }

    /// Copies `program` to the start of memory.
    pub fn load_program(&mut self, program: &[u8])
        requires
            program@.len() <= old(self)@.mem.len(),
        ensures
            final(self)@.regs == old(self)@.regs,
            final(self)@.mem == program@ + old(self)@.mem.skip(program@.len() as int),
    {
        let mut i: usize = 0;
        while i < program.len()
            invariant
                i <= program@.len() <= old(self)@.mem.len(),
                self@.regs == old(self)@.regs,
                self@.mem.len() == old(self)@.mem.len(),
                forall|j: int|
                    0 <= j < self@.mem.len() ==> self@.mem[j] == if j < i {
                        program@[j]
                    } else {
                        old(self)@.mem[j]
                    },
            decreases program@.len() - i,
        {
            self.memory.buffer[i] = program[i];
            i += 1;
        }
        assert(self@.mem =~= program@ + old(self)@.mem.skip(program@.len() as int));
    }
}

/// The assembler name of register `r`.
pub open spec fn register_name(r: int) -> Seq<char> {
    if r == 0 {
        "rax"@
    } else if r == 1 {
        "rbx"@
    } else if r == 2 {
        "rcx"@
    } else if r == 3 {
        "rdx"@
    } else if r == 4 {
        "rex"@
    } else if r == 5 {
        "rfx"@
    } else if r == 6 {
        "rgx"@
    } else if r == 7 {
        "rhx"@
    } else if r == 8 {
        "rzx"@
    } else if r == 9 {
        "rwx"@
    } else if r == 10 {
        "r9"@
    } else if r == 11 {
        "r10"@
    } else if r == 12 {
        "r11"@
    } else if r == 13 {
        "r12"@
    } else if r == 14 {
        "r13"@
    } else if r == 15 {
        "r14"@
    } else if r == 16 {
        "r15"@
    } else if r == 17 {
        "flags"@
    } else if r == 18 {
        "bp"@
    } else if r == 19 {
        "ip"@
    } else if r == 20 {
        "sp"@
    } else {
        "idt"@
    }
}

/// `n + 1` cycles are `n` cycles followed by one more.
proof fn lemma_steps_last(s: MachineState, n: nat)
    ensures
        steps(s, n + 1) == match steps(s, n) {
            Some(t) => step(t),
            None => None,
        },
    decreases n,
{
    reveal_with_fuel(steps, 2);
    if n > 0 {
        match step(s) {
            Some(t) => lemma_steps_last(t, (n - 1) as nat),
            None => {},
        }
    }
}

/// A run that has not stopped before cycle `n`, and that at cycle `n` neither
/// halted nor made a host request, has not stopped before cycle `n + 1`.
proof fn lemma_not_stopped_extends(s: MachineState, n: nat)
    requires
        !stops_before(s, n),
        steps(s, n) matches Some(t) && !t.halted() && pending_syscall(t) is None,
    ensures
        !stops_before(s, n + 1),
{
    assert forall|k: nat| k < n + 1 implies !(match #[trigger] steps(s, k) {
        Some(t) => t.halted() || pending_syscall(t) is Some,
        None => false,
    }) by {
        if k < n {
            assert(!(k < n && match steps(s, k) {
                Some(t) => t.halted() || pending_syscall(t) is Some,
                None => false,
            }));
        }
    }
}

/// Two bytes combined little-endian.
proof fn lemma_compose_u16(low: u16, high: u16)
    requires
        low < 0x100,
        high < 0x100,
    ensures
        (high << 8) | low == low + 0x100 * high,
{
    assert((high << 8) | low == low + 0x100 * high) by (bit_vector)
        requires
            low < 0x100,
            high < 0x100,
    ;
}

/// Two 16-bit halves combined little-endian.
proof fn lemma_compose_u32(low: u32, high: u32)
    requires
        low < 0x1_0000,
        high < 0x1_0000,
    ensures
        (high << 16) | low == low + 0x1_0000 * high,
{
    assert((high << 16) | low == low + 0x1_0000 * high) by (bit_vector)
        requires
            low < 0x1_0000,
            high < 0x1_0000,
    ;
}

/// The two bytes of a 16-bit value.
proof fn lemma_split_u16(v: u16)
    ensures
        v as u8 == byte_of(v as int, 0),
        (v >> 8) as u8 == byte_of(v as int, 1),
{
    assert(v as u8 == v % 0x100) by (bit_vector);
    assert((v >> 8) as u8 == (v / 0x100) % 0x100) by (bit_vector);
}

/// The 16-bit halves of a 32-bit value, and its bytes through them.
proof fn lemma_split_u32(v: u32)
    ensures
        byte_of((v as u16) as int, 0) == byte_of(v as int, 0),
        byte_of((v as u16) as int, 1) == byte_of(v as int, 1),
        byte_of(((v >> 16) as u16) as int, 0) == byte_of(v as int, 2),
        byte_of(((v >> 16) as u16) as int, 1) == byte_of(v as int, 3),
{
    assert((v as u16) == v % 0x1_0000) by (bit_vector);
    assert(((v >> 16) as u16) == v / 0x1_0000) by (bit_vector);
    assert((v % 0x1_0000) % 0x100 == v % 0x100) by (bit_vector);
    assert(((v % 0x1_0000) / 0x100) % 0x100 == (v / 0x100) % 0x100) by (bit_vector);
    assert(((v / 0x1_0000) / 0x100) % 0x100 == (v / 0x100_0000) % 0x100) by (bit_vector);
}

} // verus!
