use std::marker::PhantomData;

use bit32::cpu::Cpu;
use bit32::opcodes::Opcode;

pub trait ToLeTrait {
    fn to_le_bytes(self) -> Vec<u8>;
}
impl ToLeTrait for u8 {
    fn to_le_bytes(self) -> Vec<u8> {
        self.to_le_bytes().to_vec()
    }
}

impl ToLeTrait for u16 {
    fn to_le_bytes(self) -> Vec<u8> {
        self.to_le_bytes().to_vec()
    }
}
impl ToLeTrait for u32 {
    fn to_le_bytes(self) -> Vec<u8> {
        self.to_le_bytes().to_vec()
    }
}
pub trait OurFrom<T> {
    fn our_from(value: T) -> Self;
}
impl OurFrom<u32> for u16 {
    fn our_from(value: u32) -> Self {
        value as u16
    }
}
impl OurFrom<u32> for u32 {
    fn our_from(value: u32) -> Self {
        value as u32
    }
}
impl OurFrom<u32> for u8 {
    fn our_from(value: u32) -> Self {
        value as u8
    }
}


const SRC_VAL: u32 = 0xCAFEC0DE;
const DST_REG: usize = 0;
const SRC_REG: usize = 1;
const DST_ADR: usize = 10;
const SRC_ADR: usize = 20;


struct TestBuilder<T> {
    cpu: Cpu,
    op: u8,
    src: Vec<u8>,
    dst: Vec<u8>,
    _marker: PhantomData<T>,
}
impl<T> TestBuilder<T>
where
    T: Copy + std::fmt::Debug + OurFrom<u32> + ToLeTrait + Eq + Into<u32>,
{
    fn new(op: Opcode) -> TestBuilder<T> {
        TestBuilder {
            cpu: Cpu::new(),
            op: op as u8,
            src: vec![],
            dst: vec![],
            _marker: PhantomData,
        }
    }
    fn run(&mut self) -> &mut Self {
        let mut progam = vec![self.op];
        progam.extend_from_slice(&self.dst);
        progam.extend_from_slice(&self.src);
        self.cpu.load_program(&progam);
        self.cpu.cycle();
        self
    }
    fn assert_reg_eq(&mut self) {
        let dst_val = T::our_from(self.cpu.registers[DST_REG]);
        assert_eq!(dst_val, T::our_from(SRC_VAL));
    }
    fn assert_adr_eq(&mut self) {
        let dst_val = T::our_from(self.cpu.memory.long(DST_ADR));
        assert_eq!(dst_val, T::our_from(SRC_VAL));
    }
    fn set_dst_reg(&mut self) -> &mut Self {
        self.dst.clear();
        self.dst.push(DST_REG as u8);
        self
    }
    fn set_dst_abs(&mut self) -> &mut Self {
        self.dst.clear();
        self.dst.extend_from_slice(&(DST_ADR as u32).to_le_bytes());
        self
    }
    fn set_dst_mem(&mut self, rel_to: usize) -> &mut Self {
        self.dst.clear();
        self.dst
            .extend_from_slice(&((DST_ADR - rel_to) as u32).to_le_bytes());
        self
    }
    fn set_dst_ind(&mut self) -> &mut Self {
        self.dst.clear();
        self.dst.push(DST_REG as u8);
        self.cpu.registers[DST_REG] = DST_ADR as u32;
        self
    }
    fn set_src_imm(&mut self) -> &mut Self {
        let val = T::our_from(SRC_VAL);
        self.src.clear();
        self.src.extend_from_slice(&val.to_le_bytes());
        self
    }
    fn set_src_reg(&mut self) -> &mut Self {
        self.src.clear();
        self.src.push(SRC_REG as u8);
        self.cpu.registers[SRC_REG] = T::our_from(SRC_VAL).into();
        self
    }
    fn set_src_abs(&mut self) -> &mut Self {
        self.src.clear();
        self.src.extend_from_slice(&(SRC_ADR as u32).to_le_bytes());
        let val_bytes = T::our_from(SRC_VAL).to_le_bytes();
        self.cpu
            .memory
            .buffer
            .splice(SRC_ADR..SRC_ADR + val_bytes.len(), val_bytes);
        self
    }
    fn set_src_mem(&mut self, rel_to: usize) -> &mut Self {
        self.src.clear();
        self.src
            .extend_from_slice(&((SRC_ADR - rel_to) as u32).to_le_bytes());
        let val_bytes = T::our_from(SRC_VAL).to_le_bytes();
        self.cpu
            .memory
            .buffer
            .splice(SRC_ADR..SRC_ADR + val_bytes.len(), val_bytes);
        self
    }
    fn set_src_ind(&mut self) -> &mut Self {
        self.src.clear();
        self.src.push(SRC_REG as u8);
        self.cpu.registers[SRC_REG] = SRC_ADR as u32;
        let val_bytes = T::our_from(SRC_VAL).to_le_bytes();
        self.cpu
            .memory
            .buffer
            .splice(SRC_ADR..SRC_ADR + val_bytes.len(), val_bytes);
        self
    }
}

#[test]
fn test_from_imm_byte() {
    let mut builder = TestBuilder::<u8>::new(Opcode::MoveImmRegByte);
    builder.set_dst_reg().set_src_imm().run().assert_reg_eq();
}
#[test]
fn test_from_imm_short() {
    let mut builder = TestBuilder::<u16>::new(Opcode::MoveImmRegShort);
    builder.set_dst_reg().set_src_imm().run().assert_reg_eq();
}
#[test]
fn test_from_imm_long() {
    let mut builder = TestBuilder::<u32>::new(Opcode::MoveImmRegLong);
    builder.set_dst_reg().set_src_imm().run().assert_reg_eq();
}
#[test]
fn test_from_reg_byte() {
    let mut builder = TestBuilder::<u8>::new(Opcode::MoveRegRegByte);
    builder.set_dst_reg().set_src_reg().run().assert_reg_eq();
}
#[test]
fn test_from_reg_short() {
    let mut builder = TestBuilder::<u16>::new(Opcode::MoveRegRegShort);
    builder.set_dst_reg().set_src_reg().run().assert_reg_eq();
}
#[test]
fn test_from_reg_long() {
    let mut builder = TestBuilder::<u32>::new(Opcode::MoveRegRegLong);
    builder.set_dst_reg().set_src_reg().run().assert_reg_eq();
}
#[test]
fn test_from_abs_byte() {
    let mut builder = TestBuilder::<u8>::new(Opcode::MoveAbsRegByte);
    builder.set_dst_reg().set_src_abs().run().assert_reg_eq();
}
#[test]
fn test_from_abs_short() {
    let mut builder = TestBuilder::<u16>::new(Opcode::MoveAbsRegShort);
    builder.set_dst_reg().set_src_abs().run().assert_reg_eq();
}
#[test]
fn test_from_abs_long() {
    let mut builder = TestBuilder::<u32>::new(Opcode::MoveAbsRegLong);
    builder.set_dst_reg().set_src_abs().run().assert_reg_eq();
}
#[test]
fn test_from_mem_byte() {
    let mut builder = TestBuilder::<u8>::new(Opcode::MoveMemRegByte);
    builder.set_dst_reg().set_src_mem(6).run().assert_reg_eq();
}
#[test]
fn test_from_mem_short() {
    let mut builder = TestBuilder::<u16>::new(Opcode::MoveMemRegShort);
    builder.set_dst_reg().set_src_mem(6).run().assert_reg_eq();
}
#[test]
fn test_from_mem_long() {
    let mut builder = TestBuilder::<u32>::new(Opcode::MoveMemRegLong);
    builder.set_dst_reg().set_src_mem(6).run().assert_reg_eq();
}
#[test]
fn test_from_ind_byte() {
    let mut builder = TestBuilder::<u8>::new(Opcode::MoveIndirectRegByte);
    builder.set_dst_reg().set_src_ind().run().assert_reg_eq();
}
#[test]
fn test_from_ind_short() {
    let mut builder = TestBuilder::<u16>::new(Opcode::MoveIndirectRegShort);
    builder.set_dst_reg().set_src_ind().run().assert_reg_eq();
}
#[test]
fn test_from_ind_long() {
    let mut builder = TestBuilder::<u32>::new(Opcode::MoveIndirectRegLong);
    builder.set_dst_reg().set_src_ind().run().assert_reg_eq();
}
#[test]
fn test_to_abs_from_imm_byte() {
    let mut builder = TestBuilder::<u8>::new(Opcode::MoveImmAbsByte);
    builder.set_dst_abs().set_src_imm().run().assert_adr_eq();
}
#[test]
fn test_to_abs_from_imm_short() {
    let mut builder = TestBuilder::<u16>::new(Opcode::MoveImmAbsShort);
    builder.set_dst_abs().set_src_imm().run().assert_adr_eq();
}
#[test]
fn test_to_abs_from_imm_long() {
    let mut builder = TestBuilder::<u32>::new(Opcode::MoveImmAbsLong);
    builder.set_dst_abs().set_src_imm().run().assert_adr_eq();
}
#[test]
fn test_to_abs_from_reg_byte() {
    let mut builder = TestBuilder::<u8>::new(Opcode::MoveRegAbsByte);
    builder.set_dst_abs().set_src_reg().run().assert_adr_eq();
}
#[test]
fn test_to_abs_from_reg_short() {
    let mut builder = TestBuilder::<u16>::new(Opcode::MoveRegAbsShort);
    builder.set_dst_abs().set_src_reg().run().assert_adr_eq();
}
#[test]
fn test_to_abs_from_reg_long() {
    let mut builder = TestBuilder::<u32>::new(Opcode::MoveRegAbsLong);
    builder.set_dst_abs().set_src_reg().run().assert_adr_eq();
}
#[test]
fn test_to_abs_from_abs_byte() {
    let mut builder = TestBuilder::<u8>::new(Opcode::MoveAbsAbsByte);
    builder.set_dst_abs().set_src_abs().run().assert_adr_eq();
}
#[test]
fn test_to_abs_from_abs_short() {
    let mut builder = TestBuilder::<u16>::new(Opcode::MoveAbsAbsShort);
    builder.set_dst_abs().set_src_abs().run().assert_adr_eq();
}
#[test]
fn test_to_abs_from_abs_long() {
    let mut builder = TestBuilder::<u32>::new(Opcode::MoveAbsAbsLong);
    builder.set_dst_abs().set_src_abs().run().assert_adr_eq();
}
#[test]
fn test_to_abs_from_mem_byte() {
    let mut builder = TestBuilder::<u8>::new(Opcode::MoveMemAbsByte);
    builder.set_dst_abs().set_src_mem(9).run().assert_adr_eq();
}
#[test]
fn test_to_abs_from_mem_short() {
    let mut builder = TestBuilder::<u16>::new(Opcode::MoveMemAbsShort);
    builder.set_dst_abs().set_src_mem(9).run().assert_adr_eq();
}
#[test]
fn test_to_abs_from_mem_long() {
    let mut builder = TestBuilder::<u32>::new(Opcode::MoveMemAbsLong);
    builder.set_dst_abs().set_src_mem(9).run().assert_adr_eq();
}
#[test]
fn test_to_abs_from_ind_byte() {
    let mut builder = TestBuilder::<u8>::new(Opcode::MoveIndirectAbsByte);
    builder.set_dst_abs().set_src_ind().run().assert_adr_eq();
}
#[test]
fn test_to_abs_from_ind_short() {
    let mut builder = TestBuilder::<u16>::new(Opcode::MoveIndirectAbsShort);
    builder.set_dst_abs().set_src_ind().run().assert_adr_eq();
}
#[test]
fn test_to_abs_from_ind_long() {
    let mut builder = TestBuilder::<u32>::new(Opcode::MoveIndirectAbsLong);
    builder.set_dst_abs().set_src_ind().run().assert_adr_eq();
}
#[test]
fn test_to_mem_from_imm_byte() {
    let mut builder = TestBuilder::<u8>::new(Opcode::MoveImmMemByte);
    builder.set_dst_mem(6).set_src_imm().run().assert_adr_eq();
}
#[test]
fn test_to_mem_from_imm_short() {
    let mut builder = TestBuilder::<u16>::new(Opcode::MoveImmMemShort);
    builder.set_dst_mem(7).set_src_imm().run().assert_adr_eq();
}
#[test]
fn test_to_mem_from_imm_long() {
    let mut builder = TestBuilder::<u32>::new(Opcode::MoveImmMemLong);
    builder.set_dst_mem(9).set_src_imm().run().assert_adr_eq();
}
#[test]
fn test_to_mem_from_reg_byte() {
    let mut builder = TestBuilder::<u8>::new(Opcode::MoveRegMemByte);
    builder.set_dst_mem(6).set_src_reg().run().assert_adr_eq();
}
#[test]
fn test_to_mem_from_reg_short() {
    let mut builder = TestBuilder::<u16>::new(Opcode::MoveRegMemShort);
    builder.set_dst_mem(6).set_src_reg().run().assert_adr_eq();
}
#[test]
fn test_to_mem_from_reg_long() {
    let mut builder = TestBuilder::<u32>::new(Opcode::MoveRegMemLong);
    builder.set_dst_mem(6).set_src_reg().run().assert_adr_eq();
}
#[test]
fn test_to_mem_from_abs_byte() {
    let mut builder = TestBuilder::<u8>::new(Opcode::MoveAbsMemByte);
    builder.set_dst_mem(9).set_src_abs().run().assert_adr_eq();
}
#[test]
fn test_to_mem_from_abs_short() {
    let mut builder = TestBuilder::<u16>::new(Opcode::MoveAbsMemShort);
    builder.set_dst_mem(9).set_src_abs().run().assert_adr_eq();
}
#[test]
fn test_to_mem_from_abs_long() {
    let mut builder = TestBuilder::<u32>::new(Opcode::MoveAbsMemLong);
    builder.set_dst_mem(9).set_src_abs().run().assert_adr_eq();
}
#[test]
fn test_to_mem_from_mem_byte() {
    let mut builder = TestBuilder::<u8>::new(Opcode::MoveMemMemByte);
    builder.set_dst_mem(9).set_src_mem(9).run().assert_adr_eq();
}
#[test]
fn test_to_mem_from_mem_short() {
    let mut builder = TestBuilder::<u16>::new(Opcode::MoveMemMemShort);
    builder.set_dst_mem(9).set_src_mem(9).run().assert_adr_eq();
}
#[test]
fn test_to_mem_from_mem_long() {
    let mut builder = TestBuilder::<u32>::new(Opcode::MoveMemMemLong);
    builder.set_dst_mem(9).set_src_mem(9).run().assert_adr_eq();
}
#[test]
fn test_to_mem_from_ind_byte() {
    let mut builder = TestBuilder::<u8>::new(Opcode::MoveIndirectMemByte);
    builder.set_dst_mem(6).set_src_ind().run().assert_adr_eq();
}
#[test]
fn test_to_mem_from_ind_short() {
    let mut builder = TestBuilder::<u16>::new(Opcode::MoveIndirectMemShort);
    builder.set_dst_mem(6).set_src_ind().run().assert_adr_eq();
}
#[test]
fn test_to_mem_from_ind_long() {
    let mut builder = TestBuilder::<u32>::new(Opcode::MoveIndirectMemLong);
    builder.set_dst_mem(6).set_src_ind().run().assert_adr_eq();
}
#[test]
fn test_to_ind_from_imm_byte() {
    let mut builder = TestBuilder::<u8>::new(Opcode::MoveImmIndirectByte);
    builder.set_dst_ind().set_src_imm().run().assert_adr_eq();
}
#[test]
fn test_to_ind_from_imm_short() {
    let mut builder = TestBuilder::<u16>::new(Opcode::MoveImmIndirectShort);
    builder.set_dst_ind().set_src_imm().run().assert_adr_eq();
}
#[test]
fn test_to_ind_from_imm_long() {
    let mut builder = TestBuilder::<u32>::new(Opcode::MoveImmIndirectLong);
    builder.set_dst_ind().set_src_imm().run().assert_adr_eq();
}
#[test]
fn test_to_ind_from_reg_byte() {
    let mut builder = TestBuilder::<u8>::new(Opcode::MoveRegIndirectByte);
    builder.set_dst_ind().set_src_reg().run().assert_adr_eq();
}
#[test]
fn test_to_ind_from_reg_short() {
    let mut builder = TestBuilder::<u16>::new(Opcode::MoveRegIndirectShort);
    builder.set_dst_ind().set_src_reg().run().assert_adr_eq();
}
#[test]
fn test_to_ind_from_reg_long() {
    let mut builder = TestBuilder::<u32>::new(Opcode::MoveRegIndirectLong);
    builder.set_dst_ind().set_src_reg().run().assert_adr_eq();
}
#[test]
fn test_to_ind_from_abs_byte() {
    let mut builder = TestBuilder::<u8>::new(Opcode::MoveAbsIndirectByte);
    builder.set_dst_ind().set_src_abs().run().assert_adr_eq();
}
#[test]
fn test_to_ind_from_abs_short() {
    let mut builder = TestBuilder::<u16>::new(Opcode::MoveAbsIndirectShort);
    builder.set_dst_ind().set_src_abs().run().assert_adr_eq();
}
#[test]
fn test_to_ind_from_abs_long() {
    let mut builder = TestBuilder::<u32>::new(Opcode::MoveAbsIndirectLong);
    builder.set_dst_ind().set_src_abs().run().assert_adr_eq();
}
#[test]
fn test_to_ind_from_mem_byte() {
    let mut builder = TestBuilder::<u8>::new(Opcode::MoveMemIndirectByte);
    builder.set_dst_ind().set_src_mem(6).run().assert_adr_eq();
}
#[test]
fn test_to_ind_from_mem_short() {
    let mut builder = TestBuilder::<u16>::new(Opcode::MoveMemIndirectShort);
    builder.set_dst_ind().set_src_mem(6).run().assert_adr_eq();
}
#[test]
fn test_to_ind_from_mem_long() {
    let mut builder = TestBuilder::<u32>::new(Opcode::MoveMemIndirectLong);
    builder.set_dst_ind().set_src_mem(6).run().assert_adr_eq();
}
#[test]
fn test_to_ind_from_ind_byte() {
    let mut builder = TestBuilder::<u8>::new(Opcode::MoveIndirectIndirectByte);
    builder.set_dst_ind().set_src_ind().run().assert_adr_eq();
}
#[test]
fn test_to_ind_from_ind_short() {
    let mut builder = TestBuilder::<u16>::new(Opcode::MoveIndirectIndirectShort);
    builder.set_dst_ind().set_src_ind().run().assert_adr_eq();
}
#[test]
fn test_to_ind_from_ind_long() {
    let mut builder = TestBuilder::<u32>::new(Opcode::MoveIndirectIndirectLong);
    builder.set_dst_ind().set_src_ind().run().assert_adr_eq();
}
