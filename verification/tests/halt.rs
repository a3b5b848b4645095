use bit32::cpu::Cpu;

#[test]
fn hlt() {
    let mut cpu = Cpu::new();
    cpu.load_program(&[0]);
    cpu.run();

    assert_eq!(cpu.ip(), 1);
    assert!(cpu.has_flag(Cpu::HALT_FLAG));
}
