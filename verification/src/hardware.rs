//! Devices attached to the machine's ports.
use vstd::prelude::*;
use crate::cpu::Cpu;
use crate::machine::{byte_of, is_register, MachineState, Width};

verus! {

/// The integer types that travel through a port.
pub trait Numeric {

}

impl Numeric for u8 {

}

impl Numeric for u16 {

}

impl Numeric for u32 {

}

/// The bytes a device has received from the machine, oldest first.
pub type ReceivedBytes = Seq<u8>;

/// A device attached to one of the machine's ports, which exchanges bytes
/// with the machine.
pub trait Hardware {
    /// The bytes the machine has sent to the device so far, oldest first.
    spec fn received(&self) -> ReceivedBytes;

    /// The next byte the device sends to the machine.
    fn read(&self) -> u8;

    /// Sends byte `b` to the device, which receives it after those before.
    fn write(&mut self, b: u8)
        ensures
            final(self).received() == old(self).received().push(b),
    ;
}

/// The `w.bytes()` bytes of `v`, least significant first.
pub open spec fn le_bytes(v: int, w: Width) -> Seq<u8> {
    Seq::new(w.bytes(), |k: int| byte_of(v, k as nat))
}

/// The bytes of the `w`-wide low part of `v`, least significant first: what
/// a port write of a register sends.
pub fn port_bytes(v: u32, w: Width) -> (b: Vec<u8>)
    ensures
        b@ == le_bytes(v as int, w),
{
    proof {
        assert(v as u8 == v % 0x100) by (bit_vector);
        assert((v >> 8) as u8 == (v / 0x100) % 0x100) by (bit_vector);
        assert((v >> 16) as u8 == (v / 0x1_0000) % 0x100) by (bit_vector);
        assert((v >> 24) as u8 == (v / 0x100_0000) % 0x100) by (bit_vector);
    }
    let b = match w {
        Width::Byte => vec![v as u8],
        Width::Short => vec![v as u8, (v >> 8) as u8],
        Width::Long => vec![v as u8, (v >> 8) as u8, (v >> 16) as u8, (v >> 24) as u8],
    };
    assert(b@ =~= le_bytes(v as int, w));
    b
}

/// The 16-bit value of the bytes `low` and `high`, least significant first.
pub fn combine_short(low: u8, high: u8) -> (v: u16)
    ensures
        v == low + 0x100 * high,
{
    proof {
        assert(((high as u16) << 8) | (low as u16) == low + 0x100 * high) by (bit_vector);
    }
    ((high as u16) << 8) | (low as u16)
}

/// The 32-bit value of the bytes `b0` to `b3`, least significant first.
pub fn combine_le(b0: u8, b1: u8, b2: u8, b3: u8) -> (v: u32)
    ensures
        v == b0 + 0x100 * b1 + 0x1_0000 * b2 + 0x100_0000 * b3,
{
    proof {
        assert((b0 as u32) | ((b1 as u32) << 8) | ((b2 as u32) << 16) | ((b3 as u32) << 24) == b0
            + 0x100 * b1 + 0x1_0000 * b2 + 0x100_0000 * b3) by (bit_vector);
    }
    (b0 as u32) | ((b1 as u32) << 8) | ((b2 as u32) << 16) | ((b3 as u32) << 24)
}

/// `true` when the two operand bytes of a port read can be fetched, the first
/// names one of `ports` devices and the second a register.
pub open spec fn port_read_ok(s: MachineState, ports: nat) -> bool {
    &&& s.can_fetch(2)
    &&& s.operand(0, Width::Byte) < ports
    &&& is_register(s.operand(1, Width::Byte))
}

/// The state after a port read whose operands are fetched from `s` stores `v`
/// in the register named by the second operand.
pub open spec fn port_read_result(s: MachineState, v: int) -> MachineState {
    s.advance(2).with_reg(s.operand(1, Width::Byte), v as u32)
}

/// `true` when each of `bytes` is a value that `read` on the device at `port`
/// of `hardware` can return.
pub open spec fn read_from<H: Hardware>(hardware: Seq<H>, port: int, bytes: Seq<u8>) -> bool {
    forall|k: int| 0 <= k < bytes.len() ==> call_ensures(H::read, (&hardware[port],), #[trigger] bytes[k])
}

/// Reads a byte from the device on the port given by the first operand into
/// the register given by the second. Gives the byte the device sent.
pub fn read_byte<H: Hardware>(cpu: &mut Cpu, hardware: &Vec<H>) -> (bytes: Ghost<Seq<u8>>)
    requires
        port_read_ok(old(cpu)@, hardware@.len()),
    ensures
        bytes@.len() == 1,
        read_from(hardware@, old(cpu)@.operand(0, Width::Byte), bytes@),
        final(cpu)@ == port_read_result(old(cpu)@, bytes@[0] as int),
{
    let port = cpu.next_byte() as usize;
    let reg = cpu.next_byte() as usize;
    let b = hardware[port].read();
    cpu.registers[reg] = b as u32;
    let bytes: Ghost<Seq<u8>> = Ghost(Seq::empty().push(b));
    bytes
}

/// Reads two bytes from the device on the port given by the first operand
/// and stores them, the first as the low byte, in the register given by the
/// second. Gives the bytes the device sent, in order.
pub fn read_short<H: Hardware>(cpu: &mut Cpu, hardware: &Vec<H>) -> (bytes: Ghost<Seq<u8>>)
    requires
        port_read_ok(old(cpu)@, hardware@.len()),
    ensures
        bytes@.len() == 2,
        read_from(hardware@, old(cpu)@.operand(0, Width::Byte), bytes@),
        final(cpu)@ == port_read_result(old(cpu)@, bytes@[0] + 0x100 * bytes@[1]),
{
    let port = cpu.next_byte() as usize;
    let reg = cpu.next_byte() as usize;
    let hardware = &hardware[port];
    let low = hardware.read();
    let high = hardware.read();
    cpu.registers[reg] = combine_short(low, high) as u32;
    let bytes: Ghost<Seq<u8>> = Ghost(Seq::empty().push(low).push(high));
    bytes
}

/// Reads four bytes from the device on the port given by the first operand
/// and stores them, least significant first, in the register given by the
/// second. Gives the bytes the device sent, in order.
pub fn read_long<H: Hardware>(cpu: &mut Cpu, hardware: &Vec<H>) -> (bytes: Ghost<Seq<u8>>)
    requires
        port_read_ok(old(cpu)@, hardware@.len()),
    ensures
        bytes@.len() == 4,
        read_from(hardware@, old(cpu)@.operand(0, Width::Byte), bytes@),
        final(cpu)@ == port_read_result(
            old(cpu)@,
            bytes@[0] + 0x100 * bytes@[1] + 0x1_0000 * bytes@[2] + 0x100_0000 * bytes@[3],
        ),
{
    let port = cpu.next_byte() as usize;
    let reg = cpu.next_byte() as usize;
    let hardware = &hardware[port];
    let b0 = hardware.read();
    let b1 = hardware.read();
    let b2 = hardware.read();
    let b3 = hardware.read();
    cpu.registers[reg] = combine_le(b0, b1, b2, b3);
    let bytes: Ghost<Seq<u8>> = Ghost(Seq::empty().push(b0).push(b1).push(b2).push(b3));
    bytes
}

/// `true` when `n` operand bytes of a port write can be fetched and the first
/// names one of `ports` devices.
pub open spec fn port_write_ok(s: MachineState, n: int, ports: nat) -> bool {
    &&& s.can_fetch(n)
    &&& s.operand(0, Width::Byte) < ports
}

/// `true` when `after` differs from `before` at most in the device at `port`.
pub open spec fn only_device_changed<H>(before: Seq<H>, after: Seq<H>, port: int) -> bool {
    &&& after.len() == before.len()
    &&& forall|i: int| 0 <= i < before.len() && i != port ==> after[i] == before[i]
}

/// `true` when, from `before` to `after`, the device at `port` received
/// exactly `bytes`, in order, and no other device changed.
pub open spec fn sent<H: Hardware>(before: Seq<H>, after: Seq<H>, port: int, bytes: Seq<u8>) -> bool {
    &&& only_device_changed(before, after, port)
    &&& after[port].received() == before[port].received() + bytes
}

/// The `n` operand bytes that follow the port operand of a port write.
pub open spec fn immediate_bytes(s: MachineState, n: int) -> Seq<u8> {
    s.mem.subrange(s.ip() + 1, s.ip() + 1 + n)
}

/// Sends `bytes`, in order, to the device at `port`.
fn send<H: Hardware>(hardware: &mut Vec<H>, port: usize, bytes: &Vec<u8>)
    requires
        port < old(hardware)@.len(),
    ensures
        sent(old(hardware)@, final(hardware)@, port as int, bytes@),
{
    let mut i: usize = 0;
    while i < bytes.len()
        invariant
            i <= bytes@.len(),
            port < hardware@.len(),
            sent(old(hardware)@, hardware@, port as int, bytes@.subrange(0, i as int)),
        decreases bytes@.len() - i,
    {
        let b = bytes[i];
        let device = &mut hardware[port];
        device.write(b);
        assert(bytes@.subrange(0, i + 1) =~= bytes@.subrange(0, i as int).push(b));
        i += 1;
    }
    assert(bytes@.subrange(0, i as int) =~= bytes@);
}

/// Sends the immediate byte that follows the port operand to the device on that port.
pub fn write_byte_imm<H: Hardware>(cpu: &mut Cpu, hardware: &mut Vec<H>)
    requires
        port_write_ok(old(cpu)@, 2, old(hardware)@.len()),
    ensures
        final(cpu)@ == old(cpu)@.advance(2),
        sent(
            old(hardware)@,
            final(hardware)@,
            old(cpu)@.operand(0, Width::Byte),
            immediate_bytes(old(cpu)@, 1),
        ),
{
    let ghost s = cpu@;
    let port = cpu.next_byte() as usize;
    let mut bytes: Vec<u8> = Vec::new();
    bytes.push(cpu.next_byte());
    assert(bytes@ =~= immediate_bytes(s, 1));
    send(hardware, port, &bytes);
}

/// Sends the two immediate bytes that follow the port operand to the device on that port.
pub fn write_short_imm<H: Hardware>(cpu: &mut Cpu, hardware: &mut Vec<H>)
    requires
        port_write_ok(old(cpu)@, 3, old(hardware)@.len()),
    ensures
        final(cpu)@ == old(cpu)@.advance(3),
        sent(
            old(hardware)@,
            final(hardware)@,
            old(cpu)@.operand(0, Width::Byte),
            immediate_bytes(old(cpu)@, 2),
        ),
{
    let ghost s = cpu@;
    let port = cpu.next_byte() as usize;
    let mut bytes: Vec<u8> = Vec::new();
    bytes.push(cpu.next_byte());
    bytes.push(cpu.next_byte());
    assert(bytes@ =~= immediate_bytes(s, 2));
    send(hardware, port, &bytes);
}

/// Sends the four immediate bytes that follow the port operand to the device on that port.
pub fn write_long_imm<H: Hardware>(cpu: &mut Cpu, hardware: &mut Vec<H>)
    requires
        port_write_ok(old(cpu)@, 5, old(hardware)@.len()),
    ensures
        final(cpu)@ == old(cpu)@.advance(5),
        sent(
            old(hardware)@,
            final(hardware)@,
            old(cpu)@.operand(0, Width::Byte),
            immediate_bytes(old(cpu)@, 4),
        ),
{
    let ghost s = cpu@;
    let port = cpu.next_byte() as usize;
    let mut bytes: Vec<u8> = Vec::new();
    bytes.push(cpu.next_byte());
    bytes.push(cpu.next_byte());
    bytes.push(cpu.next_byte());
    bytes.push(cpu.next_byte());
    assert(bytes@ =~= immediate_bytes(s, 4));
    send(hardware, port, &bytes);
}

/// `true` when the port and register operands of a port write can be fetched
/// and name a device and a register.
pub open spec fn port_write_reg_ok(s: MachineState, ports: nat) -> bool {
    port_write_ok(s, 2, ports) && is_register(s.operand(1, Width::Byte))
}

/// The bytes a port write of register width `w` sends from `s`: the low `w`
/// bytes of the register named by the second operand, read once both
/// operands were fetched, least significant first.
pub open spec fn register_bytes(s: MachineState, w: Width) -> Seq<u8> {
    le_bytes(s.advance(2).reg(s.operand(1, Width::Byte)) as int, w)
}

/// Sends the low byte of a register to the device on a port.
pub fn write_byte_reg<H: Hardware>(cpu: &mut Cpu, hardware: &mut Vec<H>)
    requires
        port_write_reg_ok(old(cpu)@, old(hardware)@.len()),
    ensures
        final(cpu)@ == old(cpu)@.advance(2),
        sent(
            old(hardware)@,
            final(hardware)@,
            old(cpu)@.operand(0, Width::Byte),
            register_bytes(old(cpu)@, Width::Byte),
        ),
{
    let port = cpu.next_byte() as usize;
    let reg = cpu.next_byte() as usize;
    let bytes = port_bytes(cpu.registers[reg], Width::Byte);
    send(hardware, port, &bytes);
}

/// Sends the low short of a register, low byte first, to the device on a port.
pub fn write_short_reg<H: Hardware>(cpu: &mut Cpu, hardware: &mut Vec<H>)
    requires
        port_write_reg_ok(old(cpu)@, old(hardware)@.len()),
    ensures
        final(cpu)@ == old(cpu)@.advance(2),
        sent(
            old(hardware)@,
            final(hardware)@,
            old(cpu)@.operand(0, Width::Byte),
            register_bytes(old(cpu)@, Width::Short),
        ),
{
    let port = cpu.next_byte() as usize;
    let reg = cpu.next_byte() as usize;
    let bytes = port_bytes(cpu.registers[reg], Width::Short);
    send(hardware, port, &bytes);
}

/// Sends a register, least significant byte first, to the device on a port.
pub fn write_long_reg<H: Hardware>(cpu: &mut Cpu, hardware: &mut Vec<H>)
    requires
        port_write_reg_ok(old(cpu)@, old(hardware)@.len()),
    ensures
        final(cpu)@ == old(cpu)@.advance(2),
        sent(
            old(hardware)@,
            final(hardware)@,
            old(cpu)@.operand(0, Width::Byte),
            register_bytes(old(cpu)@, Width::Long),
        ),
{
    let port = cpu.next_byte() as usize;
    let reg = cpu.next_byte() as usize;
    let bytes = port_bytes(cpu.registers[reg], Width::Long);
    send(hardware, port, &bytes);
}

} // verus!
