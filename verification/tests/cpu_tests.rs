use gameboy_dmg_emulator::emulator::cpu::{Cpu, Flags};

#[test]
fn test_cpu_power_on_values() {
    let cpu = Cpu::new();
    assert_eq!(cpu.a, 0x01);
    assert_eq!(cpu.b, 0x00);
    assert_eq!(cpu.c, 0x13);
    assert_eq!(cpu.d, 0x00);
    assert_eq!(cpu.e, 0xD8);
    assert_eq!(cpu.h, 0x01);
    assert_eq!(cpu.l, 0x4D);
    assert_eq!(cpu.flags.bits(), 0xB0);
    assert_eq!(cpu.pc, 0x0100);
    assert_eq!(cpu.sp, 0xFFFE);
    assert_eq!(cpu.cycles, 0);
    assert!(!cpu.halted);
    assert!(!cpu.ime);
}

#[test]
fn test_flags_truncate_low_nibble() {
    let flags = Flags::from_bits_truncate(0xAB);
    assert_eq!(flags.bits(), 0xA0);
    let flags = Flags::from_bits_truncate(0x0F);
    assert_eq!(flags.bits(), 0x00);
}

#[test]
fn test_register_pairs() {
    let mut cpu = Cpu::new();
    assert_eq!(cpu.af(), 0x01B0);
    assert_eq!(cpu.bc(), 0x0013);
    assert_eq!(cpu.de(), 0x00D8);
    assert_eq!(cpu.hl(), 0x014D);

    cpu.set_af(0x12FF);
    // The undefined low flag bits are discarded.
    assert_eq!(cpu.a, 0x12);
    assert_eq!(cpu.flags.bits(), 0xF0);
    assert_eq!(cpu.af(), 0x12F0);

    cpu.set_bc(0xABCD);
    assert_eq!((cpu.b, cpu.c), (0xAB, 0xCD));
    assert_eq!(cpu.bc(), 0xABCD);

    cpu.set_de(0x1357);
    assert_eq!((cpu.d, cpu.e), (0x13, 0x57));
    assert_eq!(cpu.de(), 0x1357);

    cpu.set_hl(0x2468);
    assert_eq!((cpu.h, cpu.l), (0x24, 0x68));
    assert_eq!(cpu.hl(), 0x2468);
}

#[test]
fn test_cpu_step_is_stable() {
    let mut cpu = Cpu::new();
    cpu.step();
    cpu.halted = true;
    cpu.step();
    assert_eq!(cpu.pc, 0x0100);
    assert_eq!(cpu.cycles, 0);
}
