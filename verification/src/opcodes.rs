//! The instruction set: opcodes, their byte encoding and operand lengths.
use vstd::prelude::*;

verus! {

/// The operation an instruction performs, encoded as the instruction's first byte
/// (its position in this list, starting at 0).
#[derive(Debug, Clone, Copy, PartialEq, Eq, Structural)]
pub enum Opcode {
    Hlt,

    // move to register
    MoveImmRegByte,
    MoveImmRegShort,
    MoveImmRegLong,

    MoveRegRegByte,
    MoveRegRegShort,
    MoveRegRegLong,

    MoveAbsRegByte,
    MoveAbsRegShort,
    MoveAbsRegLong,

    MoveMemRegByte,
    MoveMemRegShort,
    MoveMemRegLong,

    MoveIndirectRegByte,
    MoveIndirectRegShort,
    MoveIndirectRegLong,

    // move to absolute memory
    MoveImmAbsByte,
    MoveImmAbsShort,
    MoveImmAbsLong,

    MoveRegAbsByte,
    MoveRegAbsShort,
    MoveRegAbsLong,

    MoveAbsAbsByte,
    MoveAbsAbsShort,
    MoveAbsAbsLong,

    MoveMemAbsByte,
    MoveMemAbsShort,
    MoveMemAbsLong,

    MoveIndirectAbsByte,
    MoveIndirectAbsShort,
    MoveIndirectAbsLong,

    // move to relative memory
    MoveImmMemByte,
    MoveImmMemShort,
    MoveImmMemLong,

    MoveRegMemByte,
    MoveRegMemShort,
    MoveRegMemLong,

    MoveAbsMemByte,
    MoveAbsMemShort,
    MoveAbsMemLong,

    MoveMemMemByte,
    MoveMemMemShort,
    MoveMemMemLong,

    MoveIndirectMemByte,
    MoveIndirectMemShort,
    MoveIndirectMemLong,

    // move to indirect memory
    MoveImmIndirectByte,
    MoveImmIndirectShort,
    MoveImmIndirectLong,

    MoveRegIndirectByte,
    MoveRegIndirectShort,
    MoveRegIndirectLong,

    MoveAbsIndirectByte,
    MoveAbsIndirectShort,
    MoveAbsIndirectLong,

    MoveMemIndirectByte,
    MoveMemIndirectShort,
    MoveMemIndirectLong,

    MoveIndirectIndirectByte,
    MoveIndirectIndirectShort,
    MoveIndirectIndirectLong,

    // Add
    AddByteImm,
    AddShortImm,
    AddLongImm,

    AddByteReg,
    AddShortReg,
    AddLongReg,

    // Add Carry
    AddCarryByteImm,
    AddCarryShortImm,
    AddCarryLongImm,

    AddCarryByteReg,
    AddCarryShortReg,
    AddCarryLongReg,

    // Sub
    SubByteImm,
    SubShortImm,
    SubLongImm,

    SubByteReg,
    SubShortReg,
    SubLongReg,

    // Sub Borrow
    SubBorrowByteImm,
    SubBorrowShortImm,
    SubBorrowLongImm,

    SubBorrowByteReg,
    SubBorrowShortReg,
    SubBorrowLongReg,

    // Mul
    MulByteImm,
    MulShortImm,
    MulLongImm,

    MulByteReg,
    MulShortReg,
    MulLongReg,

    // Div
    DivByteImm,
    DivShortImm,
    DivLongImm,

    DivByteReg,
    DivShortReg,
    DivLongReg,

    // Signed Mul
    SignedMulByteImm,
    SignedMulShortImm,
    SignedMulLongImm,

    SignedMulByteReg,
    SignedMulShortReg,
    SignedMulLongReg,

    // Signed Div
    SignedDivByteImm,
    SignedDivShortImm,
    SignedDivLongImm,

    SignedDivByteReg,
    SignedDivShortReg,
    SignedDivLongReg,

    // And
    AndByteImm,
    AndShortImm,
    AndLongImm,

    AndByteReg,
    AndShortReg,
    AndLongReg,

    // Or
    OrByteImm,
    OrShortImm,
    OrLongImm,

    OrByteReg,
    OrShortReg,
    OrLongReg,

    // Xor
    XorByteImm,
    XorShortImm,
    XorLongImm,

    XorByteReg,
    XorShortReg,
    XorLongReg,

    // Push
    PushByteImm,
    PushShortImm,
    PushLongImm,

    PushByteReg,
    PushShortReg,
    PushLongReg,

    // Compare
    CompareByteImm,
    CompareShortImm,
    CompareLongImm,

    CompareByteReg,
    CompareShortReg,
    CompareLongReg,

    // Logical Shift Left
    LogShiftLeftByteImm,
    LogShiftLeftShortImm,
    LogShiftLeftLongImm,

    LogShiftLeftByteReg,
    LogShiftLeftShortReg,
    LogShiftLeftLongReg,

    // Logical Shift Right
    LogShiftRightByteImm,
    LogShiftRightShortImm,
    LogShiftRightLongImm,

    LogShiftRightByteReg,
    LogShiftRightShortReg,
    LogShiftRightLongReg,

    // Arithmetic Shift Left
    ArithShiftLeftByteImm,
    ArithShiftLeftShortImm,
    ArithShiftLeftLongImm,

    ArithShiftLeftByteReg,
    ArithShiftLeftShortReg,
    ArithShiftLeftLongReg,

    // Arithmetic Shift Right
    ArithShiftRightByteImm,
    ArithShiftRightShortImm,
    ArithShiftRightLongImm,

    ArithShiftRightByteReg,
    ArithShiftRightShortReg,
    ArithShiftRightLongReg,

    // Rotate Left
    RotateLeftByteImm,
    RotateLeftShortImm,
    RotateLeftLongImm,

    RotateLeftByteReg,
    RotateLeftShortReg,
    RotateLeftLongReg,

    // Rotate Right
    RotateRightByteImm,
    RotateRightShortImm,
    RotateRightLongImm,

    RotateRightByteReg,
    RotateRightShortReg,
    RotateRightLongReg,

    // Pop
    PopByte,
    PopShort,
    PopLong,

    // Negate
    NegateByte,
    NegateShort,
    NegateLong,

    // Not
    NotByte,
    NotShort,
    NotLong,

    // Increment
    IncrementByte,
    IncrementShort,
    IncrementLong,

    // Decrement
    DecrementByte,
    DecrementShort,
    DecrementLong,

    // Jumps
    JumpEqual,
    JumpNotEqual,
    JumpGreater,
    JumpGreaterEqual,
    JumpLess,
    JumpLessEqual,
    JumpSignedGreater,
    JumpSignedGreaterEqual,
    JumpSignedLess,
    JumpSignedLessEqual,
    JumpImm,
    JumpReg,

    Interrupt,
    InterruptReturn,
    Call,
    Return,
    Syscall,
    ClearCarry,

    Nop,
}

impl Opcode {
    /// The byte that encodes this opcode.
    pub open spec fn encoding(self) -> u8 {
        match self {
            Opcode::Hlt => 0,
            Opcode::MoveImmRegByte => 1,
            Opcode::MoveImmRegShort => 2,
            Opcode::MoveImmRegLong => 3,
            Opcode::MoveRegRegByte => 4,
            Opcode::MoveRegRegShort => 5,
            Opcode::MoveRegRegLong => 6,
            Opcode::MoveAbsRegByte => 7,
            Opcode::MoveAbsRegShort => 8,
            Opcode::MoveAbsRegLong => 9,
            Opcode::MoveMemRegByte => 10,
            Opcode::MoveMemRegShort => 11,
            Opcode::MoveMemRegLong => 12,
            Opcode::MoveIndirectRegByte => 13,
            Opcode::MoveIndirectRegShort => 14,
            Opcode::MoveIndirectRegLong => 15,
            Opcode::MoveImmAbsByte => 16,
            Opcode::MoveImmAbsShort => 17,
            Opcode::MoveImmAbsLong => 18,
            Opcode::MoveRegAbsByte => 19,
            Opcode::MoveRegAbsShort => 20,
            Opcode::MoveRegAbsLong => 21,
            Opcode::MoveAbsAbsByte => 22,
            Opcode::MoveAbsAbsShort => 23,
            Opcode::MoveAbsAbsLong => 24,
            Opcode::MoveMemAbsByte => 25,
            Opcode::MoveMemAbsShort => 26,
            Opcode::MoveMemAbsLong => 27,
            Opcode::MoveIndirectAbsByte => 28,
            Opcode::MoveIndirectAbsShort => 29,
            Opcode::MoveIndirectAbsLong => 30,
            Opcode::MoveImmMemByte => 31,
            Opcode::MoveImmMemShort => 32,
            Opcode::MoveImmMemLong => 33,
            Opcode::MoveRegMemByte => 34,
            Opcode::MoveRegMemShort => 35,
            Opcode::MoveRegMemLong => 36,
            Opcode::MoveAbsMemByte => 37,
            Opcode::MoveAbsMemShort => 38,
            Opcode::MoveAbsMemLong => 39,
            Opcode::MoveMemMemByte => 40,
            Opcode::MoveMemMemShort => 41,
            Opcode::MoveMemMemLong => 42,
            Opcode::MoveIndirectMemByte => 43,
            Opcode::MoveIndirectMemShort => 44,
            Opcode::MoveIndirectMemLong => 45,
            Opcode::MoveImmIndirectByte => 46,
            Opcode::MoveImmIndirectShort => 47,
            Opcode::MoveImmIndirectLong => 48,
            Opcode::MoveRegIndirectByte => 49,
            Opcode::MoveRegIndirectShort => 50,
            Opcode::MoveRegIndirectLong => 51,
            Opcode::MoveAbsIndirectByte => 52,
            Opcode::MoveAbsIndirectShort => 53,
            Opcode::MoveAbsIndirectLong => 54,
            Opcode::MoveMemIndirectByte => 55,
            Opcode::MoveMemIndirectShort => 56,
            Opcode::MoveMemIndirectLong => 57,
            Opcode::MoveIndirectIndirectByte => 58,
            Opcode::MoveIndirectIndirectShort => 59,
            Opcode::MoveIndirectIndirectLong => 60,
            Opcode::AddByteImm => 61,
            Opcode::AddShortImm => 62,
            Opcode::AddLongImm => 63,
            Opcode::AddByteReg => 64,
            Opcode::AddShortReg => 65,
            Opcode::AddLongReg => 66,
            Opcode::AddCarryByteImm => 67,
            Opcode::AddCarryShortImm => 68,
            Opcode::AddCarryLongImm => 69,
            Opcode::AddCarryByteReg => 70,
            Opcode::AddCarryShortReg => 71,
            Opcode::AddCarryLongReg => 72,
            Opcode::SubByteImm => 73,
            Opcode::SubShortImm => 74,
            Opcode::SubLongImm => 75,
            Opcode::SubByteReg => 76,
            Opcode::SubShortReg => 77,
            Opcode::SubLongReg => 78,
            Opcode::SubBorrowByteImm => 79,
            Opcode::SubBorrowShortImm => 80,
            Opcode::SubBorrowLongImm => 81,
            Opcode::SubBorrowByteReg => 82,
            Opcode::SubBorrowShortReg => 83,
            Opcode::SubBorrowLongReg => 84,
            Opcode::MulByteImm => 85,
            Opcode::MulShortImm => 86,
            Opcode::MulLongImm => 87,
            Opcode::MulByteReg => 88,
            Opcode::MulShortReg => 89,
            Opcode::MulLongReg => 90,
            Opcode::DivByteImm => 91,
            Opcode::DivShortImm => 92,
            Opcode::DivLongImm => 93,
            Opcode::DivByteReg => 94,
            Opcode::DivShortReg => 95,
            Opcode::DivLongReg => 96,
            Opcode::SignedMulByteImm => 97,
            Opcode::SignedMulShortImm => 98,
            Opcode::SignedMulLongImm => 99,
            Opcode::SignedMulByteReg => 100,
            Opcode::SignedMulShortReg => 101,
            Opcode::SignedMulLongReg => 102,
            Opcode::SignedDivByteImm => 103,
            Opcode::SignedDivShortImm => 104,
            Opcode::SignedDivLongImm => 105,
            Opcode::SignedDivByteReg => 106,
            Opcode::SignedDivShortReg => 107,
            Opcode::SignedDivLongReg => 108,
            Opcode::AndByteImm => 109,
            Opcode::AndShortImm => 110,
            Opcode::AndLongImm => 111,
            Opcode::AndByteReg => 112,
            Opcode::AndShortReg => 113,
            Opcode::AndLongReg => 114,
            Opcode::OrByteImm => 115,
            Opcode::OrShortImm => 116,
            Opcode::OrLongImm => 117,
            Opcode::OrByteReg => 118,
            Opcode::OrShortReg => 119,
            Opcode::OrLongReg => 120,
            Opcode::XorByteImm => 121,
            Opcode::XorShortImm => 122,
            Opcode::XorLongImm => 123,
            Opcode::XorByteReg => 124,
            Opcode::XorShortReg => 125,
            Opcode::XorLongReg => 126,
            Opcode::PushByteImm => 127,
            Opcode::PushShortImm => 128,
            Opcode::PushLongImm => 129,
            Opcode::PushByteReg => 130,
            Opcode::PushShortReg => 131,
            Opcode::PushLongReg => 132,
            Opcode::CompareByteImm => 133,
            Opcode::CompareShortImm => 134,
            Opcode::CompareLongImm => 135,
            Opcode::CompareByteReg => 136,
            Opcode::CompareShortReg => 137,
            Opcode::CompareLongReg => 138,
            Opcode::LogShiftLeftByteImm => 139,
            Opcode::LogShiftLeftShortImm => 140,
            Opcode::LogShiftLeftLongImm => 141,
            Opcode::LogShiftLeftByteReg => 142,
            Opcode::LogShiftLeftShortReg => 143,
            Opcode::LogShiftLeftLongReg => 144,
            Opcode::LogShiftRightByteImm => 145,
            Opcode::LogShiftRightShortImm => 146,
            Opcode::LogShiftRightLongImm => 147,
            Opcode::LogShiftRightByteReg => 148,
            Opcode::LogShiftRightShortReg => 149,
            Opcode::LogShiftRightLongReg => 150,
            Opcode::ArithShiftLeftByteImm => 151,
            Opcode::ArithShiftLeftShortImm => 152,
            Opcode::ArithShiftLeftLongImm => 153,
            Opcode::ArithShiftLeftByteReg => 154,
            Opcode::ArithShiftLeftShortReg => 155,
            Opcode::ArithShiftLeftLongReg => 156,
            Opcode::ArithShiftRightByteImm => 157,
            Opcode::ArithShiftRightShortImm => 158,
            Opcode::ArithShiftRightLongImm => 159,
            Opcode::ArithShiftRightByteReg => 160,
            Opcode::ArithShiftRightShortReg => 161,
            Opcode::ArithShiftRightLongReg => 162,
            Opcode::RotateLeftByteImm => 163,
            Opcode::RotateLeftShortImm => 164,
            Opcode::RotateLeftLongImm => 165,
            Opcode::RotateLeftByteReg => 166,
            Opcode::RotateLeftShortReg => 167,
            Opcode::RotateLeftLongReg => 168,
            Opcode::RotateRightByteImm => 169,
            Opcode::RotateRightShortImm => 170,
            Opcode::RotateRightLongImm => 171,
            Opcode::RotateRightByteReg => 172,
            Opcode::RotateRightShortReg => 173,
            Opcode::RotateRightLongReg => 174,
            Opcode::PopByte => 175,
            Opcode::PopShort => 176,
            Opcode::PopLong => 177,
            Opcode::NegateByte => 178,
            Opcode::NegateShort => 179,
            Opcode::NegateLong => 180,
            Opcode::NotByte => 181,
            Opcode::NotShort => 182,
            Opcode::NotLong => 183,
            Opcode::IncrementByte => 184,
            Opcode::IncrementShort => 185,
            Opcode::IncrementLong => 186,
            Opcode::DecrementByte => 187,
            Opcode::DecrementShort => 188,
            Opcode::DecrementLong => 189,
            Opcode::JumpEqual => 190,
            Opcode::JumpNotEqual => 191,
            Opcode::JumpGreater => 192,
            Opcode::JumpGreaterEqual => 193,
            Opcode::JumpLess => 194,
            Opcode::JumpLessEqual => 195,
            Opcode::JumpSignedGreater => 196,
            Opcode::JumpSignedGreaterEqual => 197,
            Opcode::JumpSignedLess => 198,
            Opcode::JumpSignedLessEqual => 199,
            Opcode::JumpImm => 200,
            Opcode::JumpReg => 201,
            Opcode::Interrupt => 202,
            Opcode::InterruptReturn => 203,
            Opcode::Call => 204,
            Opcode::Return => 205,
            Opcode::Syscall => 206,
            Opcode::ClearCarry => 207,
            Opcode::Nop => 208,
        }
    }

    /// The opcode that `b` encodes, if any.
    pub open spec fn decoding(b: u8) -> Option<Opcode> {
        match b {
            0 => Some(Opcode::Hlt),
            1 => Some(Opcode::MoveImmRegByte),
            2 => Some(Opcode::MoveImmRegShort),
            3 => Some(Opcode::MoveImmRegLong),
            4 => Some(Opcode::MoveRegRegByte),
            5 => Some(Opcode::MoveRegRegShort),
            6 => Some(Opcode::MoveRegRegLong),
            7 => Some(Opcode::MoveAbsRegByte),
            8 => Some(Opcode::MoveAbsRegShort),
            9 => Some(Opcode::MoveAbsRegLong),
            10 => Some(Opcode::MoveMemRegByte),
            11 => Some(Opcode::MoveMemRegShort),
            12 => Some(Opcode::MoveMemRegLong),
            13 => Some(Opcode::MoveIndirectRegByte),
            14 => Some(Opcode::MoveIndirectRegShort),
            15 => Some(Opcode::MoveIndirectRegLong),
            16 => Some(Opcode::MoveImmAbsByte),
            17 => Some(Opcode::MoveImmAbsShort),
            18 => Some(Opcode::MoveImmAbsLong),
            19 => Some(Opcode::MoveRegAbsByte),
            20 => Some(Opcode::MoveRegAbsShort),
            21 => Some(Opcode::MoveRegAbsLong),
            22 => Some(Opcode::MoveAbsAbsByte),
            23 => Some(Opcode::MoveAbsAbsShort),
            24 => Some(Opcode::MoveAbsAbsLong),
            25 => Some(Opcode::MoveMemAbsByte),
            26 => Some(Opcode::MoveMemAbsShort),
            27 => Some(Opcode::MoveMemAbsLong),
            28 => Some(Opcode::MoveIndirectAbsByte),
            29 => Some(Opcode::MoveIndirectAbsShort),
            30 => Some(Opcode::MoveIndirectAbsLong),
            31 => Some(Opcode::MoveImmMemByte),
            32 => Some(Opcode::MoveImmMemShort),
            33 => Some(Opcode::MoveImmMemLong),
            34 => Some(Opcode::MoveRegMemByte),
            35 => Some(Opcode::MoveRegMemShort),
            36 => Some(Opcode::MoveRegMemLong),
            37 => Some(Opcode::MoveAbsMemByte),
            38 => Some(Opcode::MoveAbsMemShort),
            39 => Some(Opcode::MoveAbsMemLong),
            40 => Some(Opcode::MoveMemMemByte),
            41 => Some(Opcode::MoveMemMemShort),
            42 => Some(Opcode::MoveMemMemLong),
            43 => Some(Opcode::MoveIndirectMemByte),
            44 => Some(Opcode::MoveIndirectMemShort),
            45 => Some(Opcode::MoveIndirectMemLong),
            46 => Some(Opcode::MoveImmIndirectByte),
            47 => Some(Opcode::MoveImmIndirectShort),
            48 => Some(Opcode::MoveImmIndirectLong),
            49 => Some(Opcode::MoveRegIndirectByte),
            50 => Some(Opcode::MoveRegIndirectShort),
            51 => Some(Opcode::MoveRegIndirectLong),
            52 => Some(Opcode::MoveAbsIndirectByte),
            53 => Some(Opcode::MoveAbsIndirectShort),
            54 => Some(Opcode::MoveAbsIndirectLong),
            55 => Some(Opcode::MoveMemIndirectByte),
            56 => Some(Opcode::MoveMemIndirectShort),
            57 => Some(Opcode::MoveMemIndirectLong),
            58 => Some(Opcode::MoveIndirectIndirectByte),
            59 => Some(Opcode::MoveIndirectIndirectShort),
            60 => Some(Opcode::MoveIndirectIndirectLong),
            61 => Some(Opcode::AddByteImm),
            62 => Some(Opcode::AddShortImm),
            63 => Some(Opcode::AddLongImm),
            64 => Some(Opcode::AddByteReg),
            65 => Some(Opcode::AddShortReg),
            66 => Some(Opcode::AddLongReg),
            67 => Some(Opcode::AddCarryByteImm),
            68 => Some(Opcode::AddCarryShortImm),
            69 => Some(Opcode::AddCarryLongImm),
            70 => Some(Opcode::AddCarryByteReg),
            71 => Some(Opcode::AddCarryShortReg),
            72 => Some(Opcode::AddCarryLongReg),
            73 => Some(Opcode::SubByteImm),
            74 => Some(Opcode::SubShortImm),
            75 => Some(Opcode::SubLongImm),
            76 => Some(Opcode::SubByteReg),
            77 => Some(Opcode::SubShortReg),
            78 => Some(Opcode::SubLongReg),
            79 => Some(Opcode::SubBorrowByteImm),
            80 => Some(Opcode::SubBorrowShortImm),
            81 => Some(Opcode::SubBorrowLongImm),
            82 => Some(Opcode::SubBorrowByteReg),
            83 => Some(Opcode::SubBorrowShortReg),
            84 => Some(Opcode::SubBorrowLongReg),
            85 => Some(Opcode::MulByteImm),
            86 => Some(Opcode::MulShortImm),
            87 => Some(Opcode::MulLongImm),
            88 => Some(Opcode::MulByteReg),
            89 => Some(Opcode::MulShortReg),
            90 => Some(Opcode::MulLongReg),
            91 => Some(Opcode::DivByteImm),
            92 => Some(Opcode::DivShortImm),
            93 => Some(Opcode::DivLongImm),
            94 => Some(Opcode::DivByteReg),
            95 => Some(Opcode::DivShortReg),
            96 => Some(Opcode::DivLongReg),
            97 => Some(Opcode::SignedMulByteImm),
            98 => Some(Opcode::SignedMulShortImm),
            99 => Some(Opcode::SignedMulLongImm),
            100 => Some(Opcode::SignedMulByteReg),
            101 => Some(Opcode::SignedMulShortReg),
            102 => Some(Opcode::SignedMulLongReg),
            103 => Some(Opcode::SignedDivByteImm),
            104 => Some(Opcode::SignedDivShortImm),
            105 => Some(Opcode::SignedDivLongImm),
            106 => Some(Opcode::SignedDivByteReg),
            107 => Some(Opcode::SignedDivShortReg),
            108 => Some(Opcode::SignedDivLongReg),
            109 => Some(Opcode::AndByteImm),
            110 => Some(Opcode::AndShortImm),
            111 => Some(Opcode::AndLongImm),
            112 => Some(Opcode::AndByteReg),
            113 => Some(Opcode::AndShortReg),
            114 => Some(Opcode::AndLongReg),
            115 => Some(Opcode::OrByteImm),
            116 => Some(Opcode::OrShortImm),
            117 => Some(Opcode::OrLongImm),
            118 => Some(Opcode::OrByteReg),
            119 => Some(Opcode::OrShortReg),
            120 => Some(Opcode::OrLongReg),
            121 => Some(Opcode::XorByteImm),
            122 => Some(Opcode::XorShortImm),
            123 => Some(Opcode::XorLongImm),
            124 => Some(Opcode::XorByteReg),
            125 => Some(Opcode::XorShortReg),
            126 => Some(Opcode::XorLongReg),
            127 => Some(Opcode::PushByteImm),
            128 => Some(Opcode::PushShortImm),
            129 => Some(Opcode::PushLongImm),
            130 => Some(Opcode::PushByteReg),
            131 => Some(Opcode::PushShortReg),
            132 => Some(Opcode::PushLongReg),
            133 => Some(Opcode::CompareByteImm),
            134 => Some(Opcode::CompareShortImm),
            135 => Some(Opcode::CompareLongImm),
            136 => Some(Opcode::CompareByteReg),
            137 => Some(Opcode::CompareShortReg),
            138 => Some(Opcode::CompareLongReg),
            139 => Some(Opcode::LogShiftLeftByteImm),
            140 => Some(Opcode::LogShiftLeftShortImm),
            141 => Some(Opcode::LogShiftLeftLongImm),
            142 => Some(Opcode::LogShiftLeftByteReg),
            143 => Some(Opcode::LogShiftLeftShortReg),
            144 => Some(Opcode::LogShiftLeftLongReg),
            145 => Some(Opcode::LogShiftRightByteImm),
            146 => Some(Opcode::LogShiftRightShortImm),
            147 => Some(Opcode::LogShiftRightLongImm),
            148 => Some(Opcode::LogShiftRightByteReg),
            149 => Some(Opcode::LogShiftRightShortReg),
            150 => Some(Opcode::LogShiftRightLongReg),
            151 => Some(Opcode::ArithShiftLeftByteImm),
            152 => Some(Opcode::ArithShiftLeftShortImm),
            153 => Some(Opcode::ArithShiftLeftLongImm),
            154 => Some(Opcode::ArithShiftLeftByteReg),
            155 => Some(Opcode::ArithShiftLeftShortReg),
            156 => Some(Opcode::ArithShiftLeftLongReg),
            157 => Some(Opcode::ArithShiftRightByteImm),
            158 => Some(Opcode::ArithShiftRightShortImm),
            159 => Some(Opcode::ArithShiftRightLongImm),
            160 => Some(Opcode::ArithShiftRightByteReg),
            161 => Some(Opcode::ArithShiftRightShortReg),
            162 => Some(Opcode::ArithShiftRightLongReg),
            163 => Some(Opcode::RotateLeftByteImm),
            164 => Some(Opcode::RotateLeftShortImm),
            165 => Some(Opcode::RotateLeftLongImm),
            166 => Some(Opcode::RotateLeftByteReg),
            167 => Some(Opcode::RotateLeftShortReg),
            168 => Some(Opcode::RotateLeftLongReg),
            169 => Some(Opcode::RotateRightByteImm),
            170 => Some(Opcode::RotateRightShortImm),
            171 => Some(Opcode::RotateRightLongImm),
            172 => Some(Opcode::RotateRightByteReg),
            173 => Some(Opcode::RotateRightShortReg),
            174 => Some(Opcode::RotateRightLongReg),
            175 => Some(Opcode::PopByte),
            176 => Some(Opcode::PopShort),
            177 => Some(Opcode::PopLong),
            178 => Some(Opcode::NegateByte),
            179 => Some(Opcode::NegateShort),
            180 => Some(Opcode::NegateLong),
            181 => Some(Opcode::NotByte),
            182 => Some(Opcode::NotShort),
            183 => Some(Opcode::NotLong),
            184 => Some(Opcode::IncrementByte),
            185 => Some(Opcode::IncrementShort),
            186 => Some(Opcode::IncrementLong),
            187 => Some(Opcode::DecrementByte),
            188 => Some(Opcode::DecrementShort),
            189 => Some(Opcode::DecrementLong),
            190 => Some(Opcode::JumpEqual),
            191 => Some(Opcode::JumpNotEqual),
            192 => Some(Opcode::JumpGreater),
            193 => Some(Opcode::JumpGreaterEqual),
            194 => Some(Opcode::JumpLess),
            195 => Some(Opcode::JumpLessEqual),
            196 => Some(Opcode::JumpSignedGreater),
            197 => Some(Opcode::JumpSignedGreaterEqual),
            198 => Some(Opcode::JumpSignedLess),
            199 => Some(Opcode::JumpSignedLessEqual),
            200 => Some(Opcode::JumpImm),
            201 => Some(Opcode::JumpReg),
            202 => Some(Opcode::Interrupt),
            203 => Some(Opcode::InterruptReturn),
            204 => Some(Opcode::Call),
            205 => Some(Opcode::Return),
            206 => Some(Opcode::Syscall),
            207 => Some(Opcode::ClearCarry),
            208 => Some(Opcode::Nop),
            _ => None,
        }
    }

    /// The byte that encodes this opcode.
    pub fn to_byte(self) -> (b: u8)
        ensures
            b == self.encoding(),
    {
        match self {
            Opcode::Hlt => 0,
            Opcode::MoveImmRegByte => 1,
            Opcode::MoveImmRegShort => 2,
            Opcode::MoveImmRegLong => 3,
            Opcode::MoveRegRegByte => 4,
            Opcode::MoveRegRegShort => 5,
            Opcode::MoveRegRegLong => 6,
            Opcode::MoveAbsRegByte => 7,
            Opcode::MoveAbsRegShort => 8,
            Opcode::MoveAbsRegLong => 9,
            Opcode::MoveMemRegByte => 10,
            Opcode::MoveMemRegShort => 11,
            Opcode::MoveMemRegLong => 12,
            Opcode::MoveIndirectRegByte => 13,
            Opcode::MoveIndirectRegShort => 14,
            Opcode::MoveIndirectRegLong => 15,
            Opcode::MoveImmAbsByte => 16,
            Opcode::MoveImmAbsShort => 17,
            Opcode::MoveImmAbsLong => 18,
            Opcode::MoveRegAbsByte => 19,
            Opcode::MoveRegAbsShort => 20,
            Opcode::MoveRegAbsLong => 21,
            Opcode::MoveAbsAbsByte => 22,
            Opcode::MoveAbsAbsShort => 23,
            Opcode::MoveAbsAbsLong => 24,
            Opcode::MoveMemAbsByte => 25,
            Opcode::MoveMemAbsShort => 26,
            Opcode::MoveMemAbsLong => 27,
            Opcode::MoveIndirectAbsByte => 28,
            Opcode::MoveIndirectAbsShort => 29,
            Opcode::MoveIndirectAbsLong => 30,
            Opcode::MoveImmMemByte => 31,
            Opcode::MoveImmMemShort => 32,
            Opcode::MoveImmMemLong => 33,
            Opcode::MoveRegMemByte => 34,
            Opcode::MoveRegMemShort => 35,
            Opcode::MoveRegMemLong => 36,
            Opcode::MoveAbsMemByte => 37,
            Opcode::MoveAbsMemShort => 38,
            Opcode::MoveAbsMemLong => 39,
            Opcode::MoveMemMemByte => 40,
            Opcode::MoveMemMemShort => 41,
            Opcode::MoveMemMemLong => 42,
            Opcode::MoveIndirectMemByte => 43,
            Opcode::MoveIndirectMemShort => 44,
            Opcode::MoveIndirectMemLong => 45,
            Opcode::MoveImmIndirectByte => 46,
            Opcode::MoveImmIndirectShort => 47,
            Opcode::MoveImmIndirectLong => 48,
            Opcode::MoveRegIndirectByte => 49,
            Opcode::MoveRegIndirectShort => 50,
            Opcode::MoveRegIndirectLong => 51,
            Opcode::MoveAbsIndirectByte => 52,
            Opcode::MoveAbsIndirectShort => 53,
            Opcode::MoveAbsIndirectLong => 54,
            Opcode::MoveMemIndirectByte => 55,
            Opcode::MoveMemIndirectShort => 56,
            Opcode::MoveMemIndirectLong => 57,
            Opcode::MoveIndirectIndirectByte => 58,
            Opcode::MoveIndirectIndirectShort => 59,
            Opcode::MoveIndirectIndirectLong => 60,
            Opcode::AddByteImm => 61,
            Opcode::AddShortImm => 62,
            Opcode::AddLongImm => 63,
            Opcode::AddByteReg => 64,
            Opcode::AddShortReg => 65,
            Opcode::AddLongReg => 66,
            Opcode::AddCarryByteImm => 67,
            Opcode::AddCarryShortImm => 68,
            Opcode::AddCarryLongImm => 69,
            Opcode::AddCarryByteReg => 70,
            Opcode::AddCarryShortReg => 71,
            Opcode::AddCarryLongReg => 72,
            Opcode::SubByteImm => 73,
            Opcode::SubShortImm => 74,
            Opcode::SubLongImm => 75,
            Opcode::SubByteReg => 76,
            Opcode::SubShortReg => 77,
            Opcode::SubLongReg => 78,
            Opcode::SubBorrowByteImm => 79,
            Opcode::SubBorrowShortImm => 80,
            Opcode::SubBorrowLongImm => 81,
            Opcode::SubBorrowByteReg => 82,
            Opcode::SubBorrowShortReg => 83,
            Opcode::SubBorrowLongReg => 84,
            Opcode::MulByteImm => 85,
            Opcode::MulShortImm => 86,
            Opcode::MulLongImm => 87,
            Opcode::MulByteReg => 88,
            Opcode::MulShortReg => 89,
            Opcode::MulLongReg => 90,
            Opcode::DivByteImm => 91,
            Opcode::DivShortImm => 92,
            Opcode::DivLongImm => 93,
            Opcode::DivByteReg => 94,
            Opcode::DivShortReg => 95,
            Opcode::DivLongReg => 96,
            Opcode::SignedMulByteImm => 97,
            Opcode::SignedMulShortImm => 98,
            Opcode::SignedMulLongImm => 99,
            Opcode::SignedMulByteReg => 100,
            Opcode::SignedMulShortReg => 101,
            Opcode::SignedMulLongReg => 102,
            Opcode::SignedDivByteImm => 103,
            Opcode::SignedDivShortImm => 104,
            Opcode::SignedDivLongImm => 105,
            Opcode::SignedDivByteReg => 106,
            Opcode::SignedDivShortReg => 107,
            Opcode::SignedDivLongReg => 108,
            Opcode::AndByteImm => 109,
            Opcode::AndShortImm => 110,
            Opcode::AndLongImm => 111,
            Opcode::AndByteReg => 112,
            Opcode::AndShortReg => 113,
            Opcode::AndLongReg => 114,
            Opcode::OrByteImm => 115,
            Opcode::OrShortImm => 116,
            Opcode::OrLongImm => 117,
            Opcode::OrByteReg => 118,
            Opcode::OrShortReg => 119,
            Opcode::OrLongReg => 120,
            Opcode::XorByteImm => 121,
            Opcode::XorShortImm => 122,
            Opcode::XorLongImm => 123,
            Opcode::XorByteReg => 124,
            Opcode::XorShortReg => 125,
            Opcode::XorLongReg => 126,
            Opcode::PushByteImm => 127,
            Opcode::PushShortImm => 128,
            Opcode::PushLongImm => 129,
            Opcode::PushByteReg => 130,
            Opcode::PushShortReg => 131,
            Opcode::PushLongReg => 132,
            Opcode::CompareByteImm => 133,
            Opcode::CompareShortImm => 134,
            Opcode::CompareLongImm => 135,
            Opcode::CompareByteReg => 136,
            Opcode::CompareShortReg => 137,
            Opcode::CompareLongReg => 138,
            Opcode::LogShiftLeftByteImm => 139,
            Opcode::LogShiftLeftShortImm => 140,
            Opcode::LogShiftLeftLongImm => 141,
            Opcode::LogShiftLeftByteReg => 142,
            Opcode::LogShiftLeftShortReg => 143,
            Opcode::LogShiftLeftLongReg => 144,
            Opcode::LogShiftRightByteImm => 145,
            Opcode::LogShiftRightShortImm => 146,
            Opcode::LogShiftRightLongImm => 147,
            Opcode::LogShiftRightByteReg => 148,
            Opcode::LogShiftRightShortReg => 149,
            Opcode::LogShiftRightLongReg => 150,
            Opcode::ArithShiftLeftByteImm => 151,
            Opcode::ArithShiftLeftShortImm => 152,
            Opcode::ArithShiftLeftLongImm => 153,
            Opcode::ArithShiftLeftByteReg => 154,
            Opcode::ArithShiftLeftShortReg => 155,
            Opcode::ArithShiftLeftLongReg => 156,
            Opcode::ArithShiftRightByteImm => 157,
            Opcode::ArithShiftRightShortImm => 158,
            Opcode::ArithShiftRightLongImm => 159,
            Opcode::ArithShiftRightByteReg => 160,
            Opcode::ArithShiftRightShortReg => 161,
            Opcode::ArithShiftRightLongReg => 162,
            Opcode::RotateLeftByteImm => 163,
            Opcode::RotateLeftShortImm => 164,
            Opcode::RotateLeftLongImm => 165,
            Opcode::RotateLeftByteReg => 166,
            Opcode::RotateLeftShortReg => 167,
            Opcode::RotateLeftLongReg => 168,
            Opcode::RotateRightByteImm => 169,
            Opcode::RotateRightShortImm => 170,
            Opcode::RotateRightLongImm => 171,
            Opcode::RotateRightByteReg => 172,
            Opcode::RotateRightShortReg => 173,
            Opcode::RotateRightLongReg => 174,
            Opcode::PopByte => 175,
            Opcode::PopShort => 176,
            Opcode::PopLong => 177,
            Opcode::NegateByte => 178,
            Opcode::NegateShort => 179,
            Opcode::NegateLong => 180,
            Opcode::NotByte => 181,
            Opcode::NotShort => 182,
            Opcode::NotLong => 183,
            Opcode::IncrementByte => 184,
            Opcode::IncrementShort => 185,
            Opcode::IncrementLong => 186,
            Opcode::DecrementByte => 187,
            Opcode::DecrementShort => 188,
            Opcode::DecrementLong => 189,
            Opcode::JumpEqual => 190,
            Opcode::JumpNotEqual => 191,
            Opcode::JumpGreater => 192,
            Opcode::JumpGreaterEqual => 193,
            Opcode::JumpLess => 194,
            Opcode::JumpLessEqual => 195,
            Opcode::JumpSignedGreater => 196,
            Opcode::JumpSignedGreaterEqual => 197,
            Opcode::JumpSignedLess => 198,
            Opcode::JumpSignedLessEqual => 199,
            Opcode::JumpImm => 200,
            Opcode::JumpReg => 201,
            Opcode::Interrupt => 202,
            Opcode::InterruptReturn => 203,
            Opcode::Call => 204,
            Opcode::Return => 205,
            Opcode::Syscall => 206,
            Opcode::ClearCarry => 207,
            Opcode::Nop => 208,
        }
    }

    /// The opcode that `b` encodes; `None` for the bytes past the last opcode.
    pub fn from_byte(b: u8) -> (op: Option<Opcode>)
        ensures
            op == Opcode::decoding(b),
    {
        match b {
            0 => Some(Opcode::Hlt),
            1 => Some(Opcode::MoveImmRegByte),
            2 => Some(Opcode::MoveImmRegShort),
            3 => Some(Opcode::MoveImmRegLong),
            4 => Some(Opcode::MoveRegRegByte),
            5 => Some(Opcode::MoveRegRegShort),
            6 => Some(Opcode::MoveRegRegLong),
            7 => Some(Opcode::MoveAbsRegByte),
            8 => Some(Opcode::MoveAbsRegShort),
            9 => Some(Opcode::MoveAbsRegLong),
            10 => Some(Opcode::MoveMemRegByte),
            11 => Some(Opcode::MoveMemRegShort),
            12 => Some(Opcode::MoveMemRegLong),
            13 => Some(Opcode::MoveIndirectRegByte),
            14 => Some(Opcode::MoveIndirectRegShort),
            15 => Some(Opcode::MoveIndirectRegLong),
            16 => Some(Opcode::MoveImmAbsByte),
            17 => Some(Opcode::MoveImmAbsShort),
            18 => Some(Opcode::MoveImmAbsLong),
            19 => Some(Opcode::MoveRegAbsByte),
            20 => Some(Opcode::MoveRegAbsShort),
            21 => Some(Opcode::MoveRegAbsLong),
            22 => Some(Opcode::MoveAbsAbsByte),
            23 => Some(Opcode::MoveAbsAbsShort),
            24 => Some(Opcode::MoveAbsAbsLong),
            25 => Some(Opcode::MoveMemAbsByte),
            26 => Some(Opcode::MoveMemAbsShort),
            27 => Some(Opcode::MoveMemAbsLong),
            28 => Some(Opcode::MoveIndirectAbsByte),
            29 => Some(Opcode::MoveIndirectAbsShort),
            30 => Some(Opcode::MoveIndirectAbsLong),
            31 => Some(Opcode::MoveImmMemByte),
            32 => Some(Opcode::MoveImmMemShort),
            33 => Some(Opcode::MoveImmMemLong),
            34 => Some(Opcode::MoveRegMemByte),
            35 => Some(Opcode::MoveRegMemShort),
            36 => Some(Opcode::MoveRegMemLong),
            37 => Some(Opcode::MoveAbsMemByte),
            38 => Some(Opcode::MoveAbsMemShort),
            39 => Some(Opcode::MoveAbsMemLong),
            40 => Some(Opcode::MoveMemMemByte),
            41 => Some(Opcode::MoveMemMemShort),
            42 => Some(Opcode::MoveMemMemLong),
            43 => Some(Opcode::MoveIndirectMemByte),
            44 => Some(Opcode::MoveIndirectMemShort),
            45 => Some(Opcode::MoveIndirectMemLong),
            46 => Some(Opcode::MoveImmIndirectByte),
            47 => Some(Opcode::MoveImmIndirectShort),
            48 => Some(Opcode::MoveImmIndirectLong),
            49 => Some(Opcode::MoveRegIndirectByte),
            50 => Some(Opcode::MoveRegIndirectShort),
            51 => Some(Opcode::MoveRegIndirectLong),
            52 => Some(Opcode::MoveAbsIndirectByte),
            53 => Some(Opcode::MoveAbsIndirectShort),
            54 => Some(Opcode::MoveAbsIndirectLong),
            55 => Some(Opcode::MoveMemIndirectByte),
            56 => Some(Opcode::MoveMemIndirectShort),
            57 => Some(Opcode::MoveMemIndirectLong),
            58 => Some(Opcode::MoveIndirectIndirectByte),
            59 => Some(Opcode::MoveIndirectIndirectShort),
            60 => Some(Opcode::MoveIndirectIndirectLong),
            61 => Some(Opcode::AddByteImm),
            62 => Some(Opcode::AddShortImm),
            63 => Some(Opcode::AddLongImm),
            64 => Some(Opcode::AddByteReg),
            65 => Some(Opcode::AddShortReg),
            66 => Some(Opcode::AddLongReg),
            67 => Some(Opcode::AddCarryByteImm),
            68 => Some(Opcode::AddCarryShortImm),
            69 => Some(Opcode::AddCarryLongImm),
            70 => Some(Opcode::AddCarryByteReg),
            71 => Some(Opcode::AddCarryShortReg),
            72 => Some(Opcode::AddCarryLongReg),
            73 => Some(Opcode::SubByteImm),
            74 => Some(Opcode::SubShortImm),
            75 => Some(Opcode::SubLongImm),
            76 => Some(Opcode::SubByteReg),
            77 => Some(Opcode::SubShortReg),
            78 => Some(Opcode::SubLongReg),
            79 => Some(Opcode::SubBorrowByteImm),
            80 => Some(Opcode::SubBorrowShortImm),
            81 => Some(Opcode::SubBorrowLongImm),
            82 => Some(Opcode::SubBorrowByteReg),
            83 => Some(Opcode::SubBorrowShortReg),
            84 => Some(Opcode::SubBorrowLongReg),
            85 => Some(Opcode::MulByteImm),
            86 => Some(Opcode::MulShortImm),
            87 => Some(Opcode::MulLongImm),
            88 => Some(Opcode::MulByteReg),
            89 => Some(Opcode::MulShortReg),
            90 => Some(Opcode::MulLongReg),
            91 => Some(Opcode::DivByteImm),
            92 => Some(Opcode::DivShortImm),
            93 => Some(Opcode::DivLongImm),
            94 => Some(Opcode::DivByteReg),
            95 => Some(Opcode::DivShortReg),
            96 => Some(Opcode::DivLongReg),
            97 => Some(Opcode::SignedMulByteImm),
            98 => Some(Opcode::SignedMulShortImm),
            99 => Some(Opcode::SignedMulLongImm),
            100 => Some(Opcode::SignedMulByteReg),
            101 => Some(Opcode::SignedMulShortReg),
            102 => Some(Opcode::SignedMulLongReg),
            103 => Some(Opcode::SignedDivByteImm),
            104 => Some(Opcode::SignedDivShortImm),
            105 => Some(Opcode::SignedDivLongImm),
            106 => Some(Opcode::SignedDivByteReg),
            107 => Some(Opcode::SignedDivShortReg),
            108 => Some(Opcode::SignedDivLongReg),
            109 => Some(Opcode::AndByteImm),
            110 => Some(Opcode::AndShortImm),
            111 => Some(Opcode::AndLongImm),
            112 => Some(Opcode::AndByteReg),
            113 => Some(Opcode::AndShortReg),
            114 => Some(Opcode::AndLongReg),
            115 => Some(Opcode::OrByteImm),
            116 => Some(Opcode::OrShortImm),
            117 => Some(Opcode::OrLongImm),
            118 => Some(Opcode::OrByteReg),
            119 => Some(Opcode::OrShortReg),
            120 => Some(Opcode::OrLongReg),
            121 => Some(Opcode::XorByteImm),
            122 => Some(Opcode::XorShortImm),
            123 => Some(Opcode::XorLongImm),
            124 => Some(Opcode::XorByteReg),
            125 => Some(Opcode::XorShortReg),
            126 => Some(Opcode::XorLongReg),
            127 => Some(Opcode::PushByteImm),
            128 => Some(Opcode::PushShortImm),
            129 => Some(Opcode::PushLongImm),
            130 => Some(Opcode::PushByteReg),
            131 => Some(Opcode::PushShortReg),
            132 => Some(Opcode::PushLongReg),
            133 => Some(Opcode::CompareByteImm),
            134 => Some(Opcode::CompareShortImm),
            135 => Some(Opcode::CompareLongImm),
            136 => Some(Opcode::CompareByteReg),
            137 => Some(Opcode::CompareShortReg),
            138 => Some(Opcode::CompareLongReg),
            139 => Some(Opcode::LogShiftLeftByteImm),
            140 => Some(Opcode::LogShiftLeftShortImm),
            141 => Some(Opcode::LogShiftLeftLongImm),
            142 => Some(Opcode::LogShiftLeftByteReg),
            143 => Some(Opcode::LogShiftLeftShortReg),
            144 => Some(Opcode::LogShiftLeftLongReg),
            145 => Some(Opcode::LogShiftRightByteImm),
            146 => Some(Opcode::LogShiftRightShortImm),
            147 => Some(Opcode::LogShiftRightLongImm),
            148 => Some(Opcode::LogShiftRightByteReg),
            149 => Some(Opcode::LogShiftRightShortReg),
            150 => Some(Opcode::LogShiftRightLongReg),
            151 => Some(Opcode::ArithShiftLeftByteImm),
            152 => Some(Opcode::ArithShiftLeftShortImm),
            153 => Some(Opcode::ArithShiftLeftLongImm),
            154 => Some(Opcode::ArithShiftLeftByteReg),
            155 => Some(Opcode::ArithShiftLeftShortReg),
            156 => Some(Opcode::ArithShiftLeftLongReg),
            157 => Some(Opcode::ArithShiftRightByteImm),
            158 => Some(Opcode::ArithShiftRightShortImm),
            159 => Some(Opcode::ArithShiftRightLongImm),
            160 => Some(Opcode::ArithShiftRightByteReg),
            161 => Some(Opcode::ArithShiftRightShortReg),
            162 => Some(Opcode::ArithShiftRightLongReg),
            163 => Some(Opcode::RotateLeftByteImm),
            164 => Some(Opcode::RotateLeftShortImm),
            165 => Some(Opcode::RotateLeftLongImm),
            166 => Some(Opcode::RotateLeftByteReg),
            167 => Some(Opcode::RotateLeftShortReg),
            168 => Some(Opcode::RotateLeftLongReg),
            169 => Some(Opcode::RotateRightByteImm),
            170 => Some(Opcode::RotateRightShortImm),
            171 => Some(Opcode::RotateRightLongImm),
            172 => Some(Opcode::RotateRightByteReg),
            173 => Some(Opcode::RotateRightShortReg),
            174 => Some(Opcode::RotateRightLongReg),
            175 => Some(Opcode::PopByte),
            176 => Some(Opcode::PopShort),
            177 => Some(Opcode::PopLong),
            178 => Some(Opcode::NegateByte),
            179 => Some(Opcode::NegateShort),
            180 => Some(Opcode::NegateLong),
            181 => Some(Opcode::NotByte),
            182 => Some(Opcode::NotShort),
            183 => Some(Opcode::NotLong),
            184 => Some(Opcode::IncrementByte),
            185 => Some(Opcode::IncrementShort),
            186 => Some(Opcode::IncrementLong),
            187 => Some(Opcode::DecrementByte),
            188 => Some(Opcode::DecrementShort),
            189 => Some(Opcode::DecrementLong),
            190 => Some(Opcode::JumpEqual),
            191 => Some(Opcode::JumpNotEqual),
            192 => Some(Opcode::JumpGreater),
            193 => Some(Opcode::JumpGreaterEqual),
            194 => Some(Opcode::JumpLess),
            195 => Some(Opcode::JumpLessEqual),
            196 => Some(Opcode::JumpSignedGreater),
            197 => Some(Opcode::JumpSignedGreaterEqual),
            198 => Some(Opcode::JumpSignedLess),
            199 => Some(Opcode::JumpSignedLessEqual),
            200 => Some(Opcode::JumpImm),
            201 => Some(Opcode::JumpReg),
            202 => Some(Opcode::Interrupt),
            203 => Some(Opcode::InterruptReturn),
            204 => Some(Opcode::Call),
            205 => Some(Opcode::Return),
            206 => Some(Opcode::Syscall),
            207 => Some(Opcode::ClearCarry),
            208 => Some(Opcode::Nop),
            _ => None,
        }
    }

    /// The lengths in bytes of the first and second operand of an instruction
    /// with this opcode, as an assembler lays them out.
    pub open spec fn operand_lengths(self) -> (nat, nat) {
        match self {
            Opcode::MoveImmRegByte
            | Opcode::MoveRegRegByte
            | Opcode::MoveRegRegShort
            | Opcode::MoveRegRegLong
            | Opcode::MoveIndirectRegByte
            | Opcode::MoveIndirectRegShort
            | Opcode::MoveIndirectRegLong
            | Opcode::MoveImmIndirectByte
            | Opcode::MoveRegIndirectByte
            | Opcode::MoveRegIndirectShort
            | Opcode::MoveRegIndirectLong
            | Opcode::MoveIndirectIndirectByte
            | Opcode::MoveIndirectIndirectShort
            | Opcode::MoveIndirectIndirectLong => (1, 1),
            Opcode::MoveImmRegShort
            | Opcode::MoveImmIndirectShort => (1, 2),
            Opcode::MoveImmRegLong
            | Opcode::MoveAbsRegByte
            | Opcode::MoveAbsRegShort
            | Opcode::MoveAbsRegLong
            | Opcode::MoveMemRegByte
            | Opcode::MoveMemRegShort
            | Opcode::MoveMemRegLong
            | Opcode::MoveImmIndirectLong
            | Opcode::MoveAbsIndirectByte
            | Opcode::MoveAbsIndirectShort
            | Opcode::MoveAbsIndirectLong
            | Opcode::MoveMemIndirectByte
            | Opcode::MoveMemIndirectShort
            | Opcode::MoveMemIndirectLong => (1, 4),
            Opcode::MoveImmAbsByte
            | Opcode::MoveRegAbsByte
            | Opcode::MoveRegAbsShort
            | Opcode::MoveRegAbsLong
            | Opcode::MoveIndirectAbsByte
            | Opcode::MoveIndirectAbsShort
            | Opcode::MoveIndirectAbsLong
            | Opcode::MoveImmMemByte
            | Opcode::MoveRegMemByte
            | Opcode::MoveRegMemShort
            | Opcode::MoveRegMemLong
            | Opcode::MoveIndirectMemByte
            | Opcode::MoveIndirectMemShort
            | Opcode::MoveIndirectMemLong => (4, 1),
            Opcode::MoveImmAbsShort
            | Opcode::MoveImmMemShort => (4, 2),
            Opcode::MoveImmAbsLong
            | Opcode::MoveAbsAbsByte
            | Opcode::MoveAbsAbsShort
            | Opcode::MoveAbsAbsLong
            | Opcode::MoveMemAbsByte
            | Opcode::MoveMemAbsShort
            | Opcode::MoveMemAbsLong
            | Opcode::MoveImmMemLong
            | Opcode::MoveAbsMemByte
            | Opcode::MoveAbsMemShort
            | Opcode::MoveAbsMemLong
            | Opcode::MoveMemMemByte
            | Opcode::MoveMemMemShort
            | Opcode::MoveMemMemLong => (4, 4),
            Opcode::AddByteImm
            | Opcode::AddByteReg
            | Opcode::AddShortReg
            | Opcode::AddLongReg
            | Opcode::AddCarryByteImm
            | Opcode::AddCarryByteReg
            | Opcode::AddCarryShortReg
            | Opcode::AddCarryLongReg
            | Opcode::SubByteImm
            | Opcode::SubByteReg
            | Opcode::SubShortReg
            | Opcode::SubLongReg
            | Opcode::SubBorrowByteImm
            | Opcode::SubBorrowByteReg
            | Opcode::SubBorrowShortReg
            | Opcode::SubBorrowLongReg
            | Opcode::MulByteImm
            | Opcode::MulByteReg
            | Opcode::MulShortReg
            | Opcode::MulLongReg
            | Opcode::DivByteImm
            | Opcode::DivByteReg
            | Opcode::DivShortReg
            | Opcode::DivLongReg
            | Opcode::SignedMulByteImm
            | Opcode::SignedMulByteReg
            | Opcode::SignedMulShortReg
            | Opcode::SignedMulLongReg
            | Opcode::SignedDivByteImm
            | Opcode::SignedDivByteReg
            | Opcode::SignedDivShortReg
            | Opcode::SignedDivLongReg
            | Opcode::AndByteImm
            | Opcode::AndByteReg
            | Opcode::AndShortReg
            | Opcode::AndLongReg
            | Opcode::OrByteImm
            | Opcode::OrByteReg
            | Opcode::OrShortReg
            | Opcode::OrLongReg
            | Opcode::XorByteImm
            | Opcode::XorByteReg
            | Opcode::XorShortReg
            | Opcode::XorLongReg
            | Opcode::PushByteImm
            | Opcode::PushByteReg
            | Opcode::PushShortReg
            | Opcode::PushLongReg
            | Opcode::CompareByteImm
            | Opcode::CompareByteReg
            | Opcode::CompareShortReg
            | Opcode::CompareLongReg
            | Opcode::LogShiftLeftByteImm
            | Opcode::LogShiftLeftByteReg
            | Opcode::LogShiftLeftShortReg
            | Opcode::LogShiftLeftLongReg
            | Opcode::LogShiftRightByteImm
            | Opcode::LogShiftRightByteReg
            | Opcode::LogShiftRightShortReg
            | Opcode::LogShiftRightLongReg
            | Opcode::ArithShiftLeftByteImm
            | Opcode::ArithShiftLeftByteReg
            | Opcode::ArithShiftLeftShortReg
            | Opcode::ArithShiftLeftLongReg
            | Opcode::ArithShiftRightByteImm
            | Opcode::ArithShiftRightByteReg
            | Opcode::ArithShiftRightShortReg
            | Opcode::ArithShiftRightLongReg
            | Opcode::RotateLeftByteImm
            | Opcode::RotateLeftByteReg
            | Opcode::RotateLeftShortReg
            | Opcode::RotateLeftLongReg
            | Opcode::RotateRightByteImm
            | Opcode::RotateRightByteReg
            | Opcode::RotateRightShortReg
            | Opcode::RotateRightLongReg
            | Opcode::PopByte
            | Opcode::PopShort
            | Opcode::PopLong
            | Opcode::NegateByte
            | Opcode::NegateShort
            | Opcode::NegateLong
            | Opcode::NotByte
            | Opcode::NotShort
            | Opcode::NotLong
            | Opcode::IncrementByte
            | Opcode::IncrementShort
            | Opcode::IncrementLong
            | Opcode::DecrementByte
            | Opcode::DecrementShort
            | Opcode::DecrementLong
            | Opcode::JumpReg
            | Opcode::Interrupt
            | Opcode::LogShiftLeftShortImm
            | Opcode::LogShiftRightShortImm
            | Opcode::ArithShiftLeftShortImm
            | Opcode::ArithShiftRightShortImm
            | Opcode::RotateLeftShortImm
            | Opcode::RotateRightShortImm
            | Opcode::LogShiftLeftLongImm
            | Opcode::LogShiftRightLongImm
            | Opcode::ArithShiftLeftLongImm
            | Opcode::ArithShiftRightLongImm
            | Opcode::RotateLeftLongImm
            | Opcode::RotateRightLongImm
            | Opcode::Syscall => (1, 0),
            Opcode::AddShortImm
            | Opcode::AddCarryShortImm
            | Opcode::SubShortImm
            | Opcode::SubBorrowShortImm
            | Opcode::MulShortImm
            | Opcode::DivShortImm
            | Opcode::SignedMulShortImm
            | Opcode::SignedDivShortImm
            | Opcode::AndShortImm
            | Opcode::OrShortImm
            | Opcode::XorShortImm
            | Opcode::PushShortImm
            | Opcode::CompareShortImm => (2, 0),
            Opcode::AddLongImm
            | Opcode::AddCarryLongImm
            | Opcode::SubLongImm
            | Opcode::SubBorrowLongImm
            | Opcode::MulLongImm
            | Opcode::DivLongImm
            | Opcode::SignedMulLongImm
            | Opcode::SignedDivLongImm
            | Opcode::AndLongImm
            | Opcode::OrLongImm
            | Opcode::XorLongImm
            | Opcode::PushLongImm
            | Opcode::CompareLongImm
            | Opcode::JumpEqual
            | Opcode::JumpNotEqual
            | Opcode::JumpGreater
            | Opcode::JumpGreaterEqual
            | Opcode::JumpLess
            | Opcode::JumpLessEqual
            | Opcode::JumpSignedGreater
            | Opcode::JumpSignedGreaterEqual
            | Opcode::JumpSignedLess
            | Opcode::JumpSignedLessEqual
            | Opcode::JumpImm
            | Opcode::Call => (4, 0),
            Opcode::Hlt
            | Opcode::InterruptReturn
            | Opcode::Return
            | Opcode::ClearCarry
            | Opcode::Nop => (0, 0),
        }
    }

    /// The lengths in bytes of the first and second operand of an instruction
    /// with this opcode, as an assembler lays them out.
    ///
    /// These are the fields the instructions read (`lemma_operand_sizes_advance`
    /// states it): one byte for a register index and for the count of every
    /// immediate shift or rotation, whatever the width it works on.
    pub fn operand_sizes(&self) -> (sizes: (usize, usize))
        ensures
            sizes.0 == self.operand_lengths().0,
            sizes.1 == self.operand_lengths().1,
    {
        match *self {
            Opcode::MoveImmRegByte
            | Opcode::MoveRegRegByte
            | Opcode::MoveRegRegShort
            | Opcode::MoveRegRegLong
            | Opcode::MoveIndirectRegByte
            | Opcode::MoveIndirectRegShort
            | Opcode::MoveIndirectRegLong
            | Opcode::MoveImmIndirectByte
            | Opcode::MoveRegIndirectByte
            | Opcode::MoveRegIndirectShort
            | Opcode::MoveRegIndirectLong
            | Opcode::MoveIndirectIndirectByte
            | Opcode::MoveIndirectIndirectShort
            | Opcode::MoveIndirectIndirectLong => (1, 1),
            Opcode::MoveImmRegShort
            | Opcode::MoveImmIndirectShort => (1, 2),
            Opcode::MoveImmRegLong
            | Opcode::MoveAbsRegByte
            | Opcode::MoveAbsRegShort
            | Opcode::MoveAbsRegLong
            | Opcode::MoveMemRegByte
            | Opcode::MoveMemRegShort
            | Opcode::MoveMemRegLong
            | Opcode::MoveImmIndirectLong
            | Opcode::MoveAbsIndirectByte
            | Opcode::MoveAbsIndirectShort
            | Opcode::MoveAbsIndirectLong
            | Opcode::MoveMemIndirectByte
            | Opcode::MoveMemIndirectShort
            | Opcode::MoveMemIndirectLong => (1, 4),
            Opcode::MoveImmAbsByte
            | Opcode::MoveRegAbsByte
            | Opcode::MoveRegAbsShort
            | Opcode::MoveRegAbsLong
            | Opcode::MoveIndirectAbsByte
            | Opcode::MoveIndirectAbsShort
            | Opcode::MoveIndirectAbsLong
            | Opcode::MoveImmMemByte
            | Opcode::MoveRegMemByte
            | Opcode::MoveRegMemShort
            | Opcode::MoveRegMemLong
            | Opcode::MoveIndirectMemByte
            | Opcode::MoveIndirectMemShort
            | Opcode::MoveIndirectMemLong => (4, 1),
            Opcode::MoveImmAbsShort
            | Opcode::MoveImmMemShort => (4, 2),
            Opcode::MoveImmAbsLong
            | Opcode::MoveAbsAbsByte
            | Opcode::MoveAbsAbsShort
            | Opcode::MoveAbsAbsLong
            | Opcode::MoveMemAbsByte
            | Opcode::MoveMemAbsShort
            | Opcode::MoveMemAbsLong
            | Opcode::MoveImmMemLong
            | Opcode::MoveAbsMemByte
            | Opcode::MoveAbsMemShort
            | Opcode::MoveAbsMemLong
            | Opcode::MoveMemMemByte
            | Opcode::MoveMemMemShort
            | Opcode::MoveMemMemLong => (4, 4),
            Opcode::AddByteImm
            | Opcode::AddByteReg
            | Opcode::AddShortReg
            | Opcode::AddLongReg
            | Opcode::AddCarryByteImm
            | Opcode::AddCarryByteReg
            | Opcode::AddCarryShortReg
            | Opcode::AddCarryLongReg
            | Opcode::SubByteImm
            | Opcode::SubByteReg
            | Opcode::SubShortReg
            | Opcode::SubLongReg
            | Opcode::SubBorrowByteImm
            | Opcode::SubBorrowByteReg
            | Opcode::SubBorrowShortReg
            | Opcode::SubBorrowLongReg
            | Opcode::MulByteImm
            | Opcode::MulByteReg
            | Opcode::MulShortReg
            | Opcode::MulLongReg
            | Opcode::DivByteImm
            | Opcode::DivByteReg
            | Opcode::DivShortReg
            | Opcode::DivLongReg
            | Opcode::SignedMulByteImm
            | Opcode::SignedMulByteReg
            | Opcode::SignedMulShortReg
            | Opcode::SignedMulLongReg
            | Opcode::SignedDivByteImm
            | Opcode::SignedDivByteReg
            | Opcode::SignedDivShortReg
            | Opcode::SignedDivLongReg
            | Opcode::AndByteImm
            | Opcode::AndByteReg
            | Opcode::AndShortReg
            | Opcode::AndLongReg
            | Opcode::OrByteImm
            | Opcode::OrByteReg
            | Opcode::OrShortReg
            | Opcode::OrLongReg
            | Opcode::XorByteImm
            | Opcode::XorByteReg
            | Opcode::XorShortReg
            | Opcode::XorLongReg
            | Opcode::PushByteImm
            | Opcode::PushByteReg
            | Opcode::PushShortReg
            | Opcode::PushLongReg
            | Opcode::CompareByteImm
            | Opcode::CompareByteReg
            | Opcode::CompareShortReg
            | Opcode::CompareLongReg
            | Opcode::LogShiftLeftByteImm
            | Opcode::LogShiftLeftByteReg
            | Opcode::LogShiftLeftShortReg
            | Opcode::LogShiftLeftLongReg
            | Opcode::LogShiftRightByteImm
            | Opcode::LogShiftRightByteReg
            | Opcode::LogShiftRightShortReg
            | Opcode::LogShiftRightLongReg
            | Opcode::ArithShiftLeftByteImm
            | Opcode::ArithShiftLeftByteReg
            | Opcode::ArithShiftLeftShortReg
            | Opcode::ArithShiftLeftLongReg
            | Opcode::ArithShiftRightByteImm
            | Opcode::ArithShiftRightByteReg
            | Opcode::ArithShiftRightShortReg
            | Opcode::ArithShiftRightLongReg
            | Opcode::RotateLeftByteImm
            | Opcode::RotateLeftByteReg
            | Opcode::RotateLeftShortReg
            | Opcode::RotateLeftLongReg
            | Opcode::RotateRightByteImm
            | Opcode::RotateRightByteReg
            | Opcode::RotateRightShortReg
            | Opcode::RotateRightLongReg
            | Opcode::PopByte
            | Opcode::PopShort
            | Opcode::PopLong
            | Opcode::NegateByte
            | Opcode::NegateShort
            | Opcode::NegateLong
            | Opcode::NotByte
            | Opcode::NotShort
            | Opcode::NotLong
            | Opcode::IncrementByte
            | Opcode::IncrementShort
            | Opcode::IncrementLong
            | Opcode::DecrementByte
            | Opcode::DecrementShort
            | Opcode::DecrementLong
            | Opcode::JumpReg
            | Opcode::Interrupt
            | Opcode::LogShiftLeftShortImm
            | Opcode::LogShiftRightShortImm
            | Opcode::ArithShiftLeftShortImm
            | Opcode::ArithShiftRightShortImm
            | Opcode::RotateLeftShortImm
            | Opcode::RotateRightShortImm
            | Opcode::LogShiftLeftLongImm
            | Opcode::LogShiftRightLongImm
            | Opcode::ArithShiftLeftLongImm
            | Opcode::ArithShiftRightLongImm
            | Opcode::RotateLeftLongImm
            | Opcode::RotateRightLongImm
            | Opcode::Syscall => (1, 0),
            Opcode::AddShortImm
            | Opcode::AddCarryShortImm
            | Opcode::SubShortImm
            | Opcode::SubBorrowShortImm
            | Opcode::MulShortImm
            | Opcode::DivShortImm
            | Opcode::SignedMulShortImm
            | Opcode::SignedDivShortImm
            | Opcode::AndShortImm
            | Opcode::OrShortImm
            | Opcode::XorShortImm
            | Opcode::PushShortImm
            | Opcode::CompareShortImm => (2, 0),
            Opcode::AddLongImm
            | Opcode::AddCarryLongImm
            | Opcode::SubLongImm
            | Opcode::SubBorrowLongImm
            | Opcode::MulLongImm
            | Opcode::DivLongImm
            | Opcode::SignedMulLongImm
            | Opcode::SignedDivLongImm
            | Opcode::AndLongImm
            | Opcode::OrLongImm
            | Opcode::XorLongImm
            | Opcode::PushLongImm
            | Opcode::CompareLongImm
            | Opcode::JumpEqual
            | Opcode::JumpNotEqual
            | Opcode::JumpGreater
            | Opcode::JumpGreaterEqual
            | Opcode::JumpLess
            | Opcode::JumpLessEqual
            | Opcode::JumpSignedGreater
            | Opcode::JumpSignedGreaterEqual
            | Opcode::JumpSignedLess
            | Opcode::JumpSignedLessEqual
            | Opcode::JumpImm
            | Opcode::Call => (4, 0),
            Opcode::Hlt
            | Opcode::InterruptReturn
            | Opcode::Return
            | Opcode::ClearCarry
            | Opcode::Nop => (0, 0),
        }
    }
}

/// Decoding inverts encoding: the byte of every opcode decodes back to it.
pub proof fn lemma_decode_encode(op: Opcode)
    ensures
        Opcode::decoding(op.encoding()) == Some(op),
{
}

/// Encoding inverts decoding: a byte that decodes to an opcode is that
/// opcode's byte, and exactly the bytes past the last opcode decode to nothing.
pub proof fn lemma_encode_decode(b: u8)
    ensures
        Opcode::decoding(b) matches Some(op) ==> op.encoding() == b,
        Opcode::decoding(b) is None <==> b > Opcode::Nop.encoding(),
{
}

} // verus!
