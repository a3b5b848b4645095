//! The mathematical model of the machine: register file, byte memory,
//! operand widths and little-endian encoding.
use vstd::prelude::*;

verus! {

/// Number of 32-bit registers of the machine.
pub const NUM_REGISTERS: usize = 22;

/// Register holding the base address of the interrupt descriptor table.
pub const IDT: usize = 21;

/// Stack pointer register.
pub const SP: usize = 20;

/// Instruction pointer register.
pub const IP: usize = 19;

/// Base pointer register.
pub const BP: usize = 18;

/// Flags register.
pub const FLAGS: usize = 17;

/// Size in bytes of the memory of a freshly created machine (100 MiB).
pub const MEMORY_SIZE: usize = 100 * 1024 * 1024;

/// Flag set by the halt instruction.
pub const HALT_FLAG: u32 = 1;

/// Flag set while an interrupt is being serviced.
pub const INTERRUPT_FLAG: u32 = 2;

/// Carry (or borrow) out of the last addition or subtraction.
pub const CARRY_FLAG: u32 = 4;

/// The width of an operand.
#[derive(Clone, Copy, PartialEq, Eq, Structural, Debug)]
pub enum Width {
    Byte,
    Short,
    Long,
}

impl Width {
    /// Number of bytes an operand of this width occupies.
    pub open spec fn bytes(self) -> nat {
        match self {
            Width::Byte => 1,
            Width::Short => 2,
            Width::Long => 4,
        }
    }

    /// Number of bits of an operand of this width.
    pub open spec fn bits(self) -> nat {
        match self {
            Width::Byte => 8,
            Width::Short => 16,
            Width::Long => 32,
        }
    }

    /// Number of distinct values of this width: `2^bits`.
    pub open spec fn modulus(self) -> nat {
        match self {
            Width::Byte => 0x100,
            Width::Short => 0x1_0000,
            Width::Long => 0x1_0000_0000,
        }
    }

    /// Number of bytes an operand of this width occupies.
    pub fn size(self) -> (n: u32)
        ensures
            n == self.bytes(),
    {
        match self {
            Width::Byte => 1,
            Width::Short => 2,
            Width::Long => 4,
        }
    }

    /// `2^bits` of this width.
    pub fn range(self) -> (m: u64)
        ensures
            m == self.modulus(),
    {
        match self {
            Width::Byte => 0x100,
            Width::Short => 0x1_0000,
            Width::Long => 0x1_0000_0000,
        }
    }

    /// Number of bits of this width.
    pub fn bit_count(self) -> (b: u32)
        ensures
            b == self.bits(),
    {
        match self {
            Width::Byte => 8,
            Width::Short => 16,
            Width::Long => 32,
        }
    }
}

/// The low `w.bits()` bits of `v`, as a number.
pub open spec fn low_bits(v: int, w: Width) -> int {
    v % (w.modulus() as int)
}

/// The two's complement reading of a `w`-wide value `v` (with `0 <= v < w.modulus()`).
pub open spec fn to_signed(v: int, w: Width) -> int {
    if v >= w.modulus() / 2 {
        v - w.modulus()
    } else {
        v
    }
}

/// The 32-bit two's complement encoding of the integer `v`, wrapping around.
pub open spec fn wrap32(v: int) -> u32 {
    (v % 0x1_0000_0000) as u32
}

/// The `w`-wide value `v`, sign-extended to 32 bits.
pub open spec fn sign_extend(v: int, w: Width) -> u32 {
    wrap32(to_signed(v, w))
}

/// `true` when `r` names one of the machine's registers.
pub open spec fn is_register(r: int) -> bool {
    0 <= r < NUM_REGISTERS
}

/// `true` when the `w.bytes()` bytes starting at `addr` lie within `mem`.
pub open spec fn in_bounds(mem: Seq<u8>, addr: int, w: Width) -> bool {
    0 <= addr && addr + w.bytes() <= mem.len()
}

/// The little-endian number stored in `mem` at `addr`, `w.bytes()` bytes long.
pub open spec fn read_le(mem: Seq<u8>, addr: int, w: Width) -> int {
    match w {
        Width::Byte => mem[addr] as int,
        Width::Short => mem[addr] + 0x100 * mem[addr + 1],
        Width::Long => mem[addr] + 0x100 * mem[addr + 1] + 0x1_0000 * mem[addr + 2] + 0x100_0000
            * mem[addr + 3],
    }
}

/// Byte number `k` (counting from the least significant) of the non-negative `v`.
pub open spec fn byte_of(v: int, k: nat) -> u8 {
    if k == 0 {
        (v % 0x100) as u8
    } else if k == 1 {
        ((v / 0x100) % 0x100) as u8
    } else if k == 2 {
        ((v / 0x1_0000) % 0x100) as u8
    } else {
        ((v / 0x100_0000) % 0x100) as u8
    }
}

/// `mem` with the low `w.bytes()` bytes of `v` stored little-endian at `addr`.
pub open spec fn write_le(mem: Seq<u8>, addr: int, w: Width, v: int) -> Seq<u8> {
    match w {
        Width::Byte => mem.update(addr, byte_of(v, 0)),
        Width::Short => mem.update(addr, byte_of(v, 0)).update(addr + 1, byte_of(v, 1)),
        Width::Long => mem.update(addr, byte_of(v, 0)).update(addr + 1, byte_of(v, 1)).update(
            addr + 2,
            byte_of(v, 2),
        ).update(addr + 3, byte_of(v, 3)),
    }
}

/// The abstract state of the machine: its registers and its memory.
#[verifier::ext_equal]
pub struct MachineState {
    pub regs: Seq<u32>,
    pub mem: Seq<u8>,
}

impl MachineState {
    /// `true` when the state has exactly one value per register.
    pub open spec fn well_formed(self) -> bool {
        self.regs.len() == NUM_REGISTERS
    }

    pub open spec fn reg(self, r: int) -> u32 {
        self.regs[r]
    }

    pub open spec fn ip(self) -> int {
        self.regs[IP as int] as int
    }

    pub open spec fn sp(self) -> int {
        self.regs[SP as int] as int
    }

    pub open spec fn flags(self) -> u32 {
        self.regs[FLAGS as int]
    }

    /// `true` when every bit of `flag` is set in the flags register.
    pub open spec fn has_flag(self, flag: u32) -> bool {
        self.flags() & flag == flag
    }

    pub open spec fn halted(self) -> bool {
        self.has_flag(HALT_FLAG)
    }

    /// This state with register `r` holding `v`.
    pub open spec fn with_reg(self, r: int, v: u32) -> MachineState {
        MachineState { regs: self.regs.update(r, v), mem: self.mem }
    }

    /// This state with the bits of `flag` set (when `set`) or cleared.
    pub open spec fn with_flag(self, flag: u32, set: bool) -> MachineState {
        self.with_reg(
            FLAGS as int,
            if set {
                self.flags() | flag
            } else {
                self.flags() & !flag
            },
        )
    }

    /// This state with the low `w.bytes()` bytes of `v` stored at `addr`.
    pub open spec fn with_mem(self, addr: int, w: Width, v: int) -> MachineState {
        MachineState { regs: self.regs, mem: write_le(self.mem, addr, w, v) }
    }

    /// The `w`-wide little-endian value at `addr`.
    pub open spec fn load(self, addr: int, w: Width) -> int {
        read_le(self.mem, addr, w)
    }

    /// `true` when `n` more bytes of the instruction stream can be read and the
    /// instruction pointer can move past them.
    pub open spec fn can_fetch(self, n: int) -> bool {
        self.ip() + n <= self.mem.len() && self.ip() + n <= u32::MAX
    }

    /// The `w`-wide value in the instruction stream, `offset` bytes past the instruction pointer.
    pub open spec fn operand(self, offset: int, w: Width) -> int {
        read_le(self.mem, self.ip() + offset, w)
    }

    /// This state with the instruction pointer moved forward by `n`.
    pub open spec fn advance(self, n: int) -> MachineState {
        self.with_reg(IP as int, (self.ip() + n) as u32)
    }
}

} // verus!
