use nes_core::{Cpu, CpuError};
use nes_core::FlatMemory;

fn machine(pc: u16, program: &[u8]) -> (Cpu, FlatMemory) {
    let mut mem = FlatMemory::new();
    for (i, b) in program.iter().enumerate() {
        mem.poke(pc.wrapping_add(i as u16), *b);
    }
    let mut cpu = Cpu::new();
    cpu.pc = pc;
    (cpu, mem)
}

#[test]
fn reset_vector() {
    let mut mem = FlatMemory::new();
    mem.poke(0xFFFC, 0x00);
    mem.poke(0xFFFD, 0x80);
    let mut cpu = Cpu::new();
    cpu.a = 9;
    cpu.x = 8;
    cpu.y = 7;
    cpu.sp = 0x10;
    cpu.set_status(0xFF);
    cpu.reset(&mut mem);
    assert_eq!((cpu.a, cpu.x, cpu.y), (0, 0, 0));
    assert_eq!(cpu.sp, 0xFD);
    assert_eq!(cpu.status(), 0x24);
    assert_eq!(cpu.pc, 0x8000);
    assert_eq!(cpu.cycles, 7);
}

#[test]
fn lda_immediate_zero() {
    let (mut cpu, mut mem) = machine(0x8000, &[0xA9, 0x00]);
    cpu.a = 0x55;
    cpu.flags.negative = true;
    let before = cpu.cycles;
    assert_eq!(cpu.step(&mut mem), Ok(2));
    assert_eq!(cpu.a, 0);
    assert!(cpu.flags.zero);
    assert!(!cpu.flags.negative);
    assert_eq!(cpu.pc, 0x8002);
    assert_eq!(cpu.cycles, before + 2);
}

#[test]
fn bne_not_taken() {
    let (mut cpu, mut mem) = machine(0x8000, &[0xD0, 0x10]);
    cpu.flags.zero = true;
    let before = cpu.cycles;
    assert_eq!(cpu.step(&mut mem), Ok(2));
    assert_eq!(cpu.pc, 0x8002);
    assert_eq!(cpu.cycles, before + 2);
}

#[test]
fn jsr_rts_round_trip() {
    let (mut cpu, mut mem) = machine(0x8000, &[0x20, 0x34, 0x12]);
    mem.poke(0x1234, 0x60);
    cpu.sp = 0xFD;
    assert_eq!(cpu.step(&mut mem), Ok(6));
    assert_eq!(cpu.pc, 0x1234);
    assert_eq!(cpu.sp, 0xFB);
    assert_eq!(mem.peek(0x01FD), 0x80);
    assert_eq!(mem.peek(0x01FC), 0x02);
    assert_eq!(cpu.step(&mut mem), Ok(6));
    assert_eq!(cpu.pc, 0x8003);
    assert_eq!(cpu.sp, 0xFD);
}

#[test]
fn jmp_indirect_bug() {
    let (mut cpu, mut mem) = machine(0x8000, &[0x6C, 0xFF, 0x30]);
    mem.poke(0x30FF, 0xFF);
    mem.poke(0x3000, 0x40);
    mem.poke(0x3100, 0x77);
    assert_eq!(cpu.step(&mut mem), Ok(5));
    assert_eq!(cpu.pc, 0x40FF);
}

#[test]
fn nmi_service() {
    let (mut cpu, mut mem) = machine(0x9000, &[0xEA]);
    mem.poke(0xFFFA, 0x00);
    mem.poke(0xFFFB, 0xC0);
    cpu.sp = 0xFD;
    cpu.set_status(0x24);
    cpu.set_nmi_edge();
    let before = cpu.cycles;
    assert_eq!(cpu.step(&mut mem), Ok(7));
    assert_eq!(mem.peek(0x01FD), 0x90);
    assert_eq!(mem.peek(0x01FC), 0x00);
    assert_eq!(mem.peek(0x01FB), 0x24);
    assert_eq!(cpu.sp, 0xFA);
    assert!(cpu.flags.interrupt_disable);
    assert!(!cpu.nmi_pending);
    assert_eq!(cpu.pc, 0xC000);
    assert_eq!(cpu.cycles, before + 7);
}

#[test]
fn adc_signed_overflow() {
    let (mut cpu, mut mem) = machine(0x8000, &[0x69, 0x01]);
    cpu.a = 0x7F;
    cpu.flags.carry = false;
    assert_eq!(cpu.step(&mut mem), Ok(2));
    assert_eq!(cpu.a, 0x80);
    assert!(cpu.flags.overflow);
    assert!(cpu.flags.negative);
    assert!(!cpu.flags.carry);
    assert!(!cpu.flags.zero);
}

#[test]
fn sbc_signed_overflow() {
    let (mut cpu, mut mem) = machine(0x8000, &[0xE9, 0x01]);
    cpu.a = 0x80;
    cpu.flags.carry = true;
    assert_eq!(cpu.step(&mut mem), Ok(2));
    assert_eq!(cpu.a, 0x7F);
    assert!(cpu.flags.overflow);
    assert!(!cpu.flags.negative);
    assert!(cpu.flags.carry);
}

#[test]
fn branch_taken_across_page() {
    let (mut cpu, mut mem) = machine(0x01FD, &[0xD0, 0x04]);
    cpu.flags.zero = false;
    assert_eq!(cpu.step(&mut mem), Ok(2 + 1 + 1));
    assert_eq!(cpu.pc, 0x0203);
}

#[test]
fn branch_taken_same_page() {
    let (mut cpu, mut mem) = machine(0x8000, &[0xF0, 0x10]);
    cpu.flags.zero = true;
    assert_eq!(cpu.step(&mut mem), Ok(3));
    assert_eq!(cpu.pc, 0x8012);
}

#[test]
fn branch_backwards() {
    let (mut cpu, mut mem) = machine(0x8010, &[0x90, 0xFC]);
    cpu.flags.carry = false;
    assert_eq!(cpu.step(&mut mem), Ok(3));
    assert_eq!(cpu.pc, 0x800E);
}

#[test]
fn illegal_opcode_is_reported() {
    let (mut cpu, mut mem) = machine(0x8000, &[0x02]);
    let before = cpu;
    assert_eq!(cpu.step(&mut mem), Err(CpuError::IllegalOpcode { opcode: 0x02, pc: 0x8000 }));
    assert_eq!(cpu, before);
}

#[test]
fn shx_byte_is_illegal() {
    let (mut cpu, mut mem) = machine(0x8000, &[0x9E, 0x00, 0x02]);
    assert_eq!(cpu.step(&mut mem), Err(CpuError::IllegalOpcode { opcode: 0x9E, pc: 0x8000 }));
    assert_eq!(cpu.pc, 0x8000);
}

#[test]
fn pc_advances_by_length() {
    // LDA abs, NOP, INX, LDX zp, STA abs,Y, CMP #imm, BNE not taken
    let program = [0xAD, 0x00, 0x02, 0xEA, 0xE8, 0xA6, 0x10, 0x99, 0x00, 0x03, 0xC9, 0x00, 0xD0, 0x05];
    let (mut cpu, mut mem) = machine(0x8000, &program);
    let lengths = [3u16, 1, 1, 2, 3, 2, 2];
    let mut pc = 0x8000u16;
    for len in lengths {
        assert!(cpu.step(&mut mem).is_ok());
        pc += len;
        assert_eq!(cpu.pc, pc);
    }
}

#[test]
fn php_pushes_break_and_unused() {
    let (mut cpu, mut mem) = machine(0x8000, &[0x08]);
    cpu.set_status(0xC3);
    cpu.step(&mut mem).unwrap();
    assert_eq!(mem.peek(0x01FD), 0xC3 | 0x30);
    assert_eq!(cpu.sp, 0xFC);
}

#[test]
fn brk_pushes_break_flag() {
    let (mut cpu, mut mem) = machine(0x8000, &[0x00, 0xEA]);
    mem.poke(0xFFFE, 0x34);
    mem.poke(0xFFFF, 0x12);
    cpu.set_status(0x20);
    assert_eq!(cpu.step(&mut mem), Ok(7));
    assert_eq!(mem.peek(0x01FD), 0x80);
    assert_eq!(mem.peek(0x01FC), 0x02);
    assert_eq!(mem.peek(0x01FB), 0x30);
    assert_eq!(cpu.pc, 0x1234);
    assert!(cpu.flags.interrupt_disable);
}

#[test]
fn irq_pushes_without_break_flag() {
    let (mut cpu, mut mem) = machine(0x8000, &[0xEA]);
    mem.poke(0xFFFE, 0x00);
    mem.poke(0xFFFF, 0x90);
    cpu.set_status(0x00);
    cpu.set_irq_level(true);
    assert_eq!(cpu.step(&mut mem), Ok(7));
    assert_eq!(mem.peek(0x01FB), 0x20);
    assert_eq!(cpu.pc, 0x9000);
    // I is now set: the held line is not serviced again
    mem.poke(0x9000, 0xEA);
    assert_eq!(cpu.step(&mut mem), Ok(2));
    assert_eq!(cpu.pc, 0x9001);
}

#[test]
fn irq_masked_by_interrupt_disable() {
    let (mut cpu, mut mem) = machine(0x8000, &[0xEA]);
    cpu.set_status(0x04);
    cpu.set_irq_level(true);
    assert_eq!(cpu.step(&mut mem), Ok(2));
    assert_eq!(cpu.pc, 0x8001);
}

#[test]
fn stack_pointer_wraps() {
    let (mut cpu, mut mem) = machine(0x8000, &[0x48, 0x68]);
    cpu.sp = 0x00;
    cpu.a = 0x5A;
    cpu.step(&mut mem).unwrap();
    assert_eq!(cpu.sp, 0xFF);
    assert_eq!(mem.peek(0x0100), 0x5A);
    cpu.step(&mut mem).unwrap();
    assert_eq!(cpu.sp, 0x00);
    assert_eq!(cpu.a, 0x5A);
}

#[test]
fn php_plp_round_trip() {
    let (mut cpu, mut mem) = machine(0x8000, &[0x08, 0x28]);
    cpu.set_status(0xFF);
    let flags = cpu.flags;
    assert_eq!(cpu.step(&mut mem), Ok(3));
    assert_eq!(cpu.step(&mut mem), Ok(4));
    assert_eq!(cpu.flags, flags);
    assert_eq!(cpu.status(), 0xEF);
    assert_eq!(cpu.sp, 0xFD);
}

#[test]
fn plp_ignores_break_and_unused() {
    let (mut cpu, mut mem) = machine(0x8000, &[0x28]);
    mem.poke(0x01FE, 0x10);
    cpu.step(&mut mem).unwrap();
    assert_eq!(cpu.status(), 0x20);
}

#[test]
fn pha_pla_round_trip() {
    let (mut cpu, mut mem) = machine(0x8000, &[0x48, 0xA9, 0x00, 0x68]);
    cpu.a = 0x80;
    cpu.x = 3;
    cpu.y = 4;
    cpu.step(&mut mem).unwrap();
    cpu.step(&mut mem).unwrap();
    assert_eq!(cpu.a, 0);
    cpu.step(&mut mem).unwrap();
    assert_eq!(cpu.a, 0x80);
    assert_eq!((cpu.x, cpu.y, cpu.sp), (3, 4, 0xFD));
    assert!(cpu.flags.negative);
    assert!(!cpu.flags.zero);
}

#[test]
fn rti_restores_status_and_pc() {
    let (mut cpu, mut mem) = machine(0x8000, &[0x40]);
    cpu.sp = 0xFA;
    mem.poke(0x01FB, 0xC1);
    mem.poke(0x01FC, 0x34);
    mem.poke(0x01FD, 0x12);
    assert_eq!(cpu.step(&mut mem), Ok(6));
    assert_eq!(cpu.pc, 0x1234);
    assert_eq!(cpu.status(), 0xE1);
    assert_eq!(cpu.sp, 0xFD);
}
