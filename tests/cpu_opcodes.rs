use nes_core::alu::{adc, compare, lsr, rol, ror, sbc, Flags};
use nes_core::oam_dma_cycles;
use nes_core::Cpu;
use nes_core::instructions::is_legal;
use nes_core::{decode, AddressingMode, Mnemonic};
use nes_core::FlatMemory;

fn at(pc: u16, program: &[u8]) -> (Cpu, FlatMemory) {
    let mut mem = FlatMemory::new();
    for (i, b) in program.iter().enumerate() {
        mem.poke(pc.wrapping_add(i as u16), *b);
    }
    let mut cpu = Cpu::new();
    cpu.pc = pc;
    (cpu, mem)
}

#[test]
fn table_has_151_documented_opcodes() {
    let mut n = 0;
    for op in 0..=255u8 {
        if is_legal(op) {
            n += 1;
        }
    }
    assert_eq!(n, 151);
}

#[test]
fn table_entries() {
    let lda = decode(0xA9);
    assert_eq!(lda.mnemonic, Mnemonic::Lda);
    assert_eq!(lda.addressing_mode, AddressingMode::Immediate);
    assert_eq!((lda.cycles, lda.bytes), (2, 2));
    let jmp = decode(0x6C);
    assert_eq!(jmp.addressing_mode, AddressingMode::Indirect);
    assert_eq!((jmp.cycles, jmp.bytes), (5, 3));
    let asl = decode(0x1E);
    assert_eq!(asl.addressing_mode, AddressingMode::AbsoluteX);
    assert_eq!((asl.cycles, asl.bytes), (7, 3));
    assert_eq!(decode(0x9E).mnemonic, Mnemonic::Illegal);
    assert_eq!(decode(0x9E).addressing_mode, AddressingMode::NoMode);
}

#[test]
fn page_cross_penalty_on_reads_only() {
    let (mut cpu, mut mem) = at(0x8000, &[0xBD, 0xFF, 0x02, 0x9D, 0xFF, 0x02]);
    cpu.x = 1;
    mem.poke(0x0300, 0x42);
    assert_eq!(cpu.step(&mut mem), Ok(5));
    assert_eq!(cpu.a, 0x42);
    assert_eq!(cpu.step(&mut mem), Ok(5));
}

#[test]
fn indirect_y_with_page_cross() {
    let (mut cpu, mut mem) = at(0x8000, &[0xB1, 0xFF]);
    mem.poke(0x00FF, 0xF0);
    mem.poke(0x0000, 0x12);
    cpu.y = 0x20;
    mem.poke(0x1310, 0x99);
    assert_eq!(cpu.step(&mut mem), Ok(6));
    assert_eq!(cpu.a, 0x99);
}

#[test]
fn indirect_x_wraps_in_zero_page() {
    let (mut cpu, mut mem) = at(0x8000, &[0xA1, 0xFE]);
    cpu.x = 0x01;
    mem.poke(0x00FF, 0x34);
    mem.poke(0x0000, 0x12);
    mem.poke(0x1234, 0x07);
    assert_eq!(cpu.step(&mut mem), Ok(6));
    assert_eq!(cpu.a, 0x07);
}

#[test]
fn zero_page_x_wraps() {
    let (mut cpu, mut mem) = at(0x8000, &[0xB5, 0xF0]);
    cpu.x = 0x20;
    mem.poke(0x0010, 0x66);
    mem.poke(0x0110, 0x11);
    assert_eq!(cpu.step(&mut mem), Ok(4));
    assert_eq!(cpu.a, 0x66);
}

#[test]
fn read_modify_write_memory() {
    let (mut cpu, mut mem) = at(0x8000, &[0x06, 0x10, 0xE6, 0x11, 0xC6, 0x12]);
    mem.poke(0x0010, 0x81);
    mem.poke(0x0011, 0xFF);
    mem.poke(0x0012, 0x00);
    assert_eq!(cpu.step(&mut mem), Ok(5));
    assert_eq!(mem.peek(0x0010), 0x02);
    assert!(cpu.flags.carry);
    assert_eq!(cpu.step(&mut mem), Ok(5));
    assert_eq!(mem.peek(0x0011), 0x00);
    assert!(cpu.flags.zero);
    assert_eq!(cpu.step(&mut mem), Ok(5));
    assert_eq!(mem.peek(0x0012), 0xFF);
    assert!(cpu.flags.negative);
}

#[test]
fn rotate_accumulator_through_carry() {
    let (mut cpu, mut mem) = at(0x8000, &[0x2A, 0x6A, 0x4A]);
    cpu.a = 0x80;
    cpu.flags.carry = false;
    cpu.step(&mut mem).unwrap();
    assert_eq!(cpu.a, 0x00);
    assert!(cpu.flags.carry && cpu.flags.zero);
    cpu.step(&mut mem).unwrap();
    assert_eq!(cpu.a, 0x80);
    assert!(!cpu.flags.carry && cpu.flags.negative);
    cpu.step(&mut mem).unwrap();
    assert_eq!(cpu.a, 0x40);
    assert!(!cpu.flags.carry);
}

#[test]
fn bit_copies_high_bits() {
    let (mut cpu, mut mem) = at(0x8000, &[0x24, 0x40]);
    mem.poke(0x0040, 0xC0);
    cpu.a = 0x01;
    assert_eq!(cpu.step(&mut mem), Ok(3));
    assert!(cpu.flags.zero && cpu.flags.negative && cpu.flags.overflow);
}

#[test]
fn transfers_and_flags() {
    let (mut cpu, mut mem) = at(0x8000, &[0xAA, 0x9A, 0xBA, 0x38, 0x18, 0xF8, 0xB8, 0x78, 0x58]);
    cpu.a = 0x00;
    cpu.x = 0x55;
    cpu.step(&mut mem).unwrap();
    assert_eq!(cpu.x, 0);
    assert!(cpu.flags.zero);
    cpu.x = 0x80;
    cpu.flags.zero = false;
    cpu.flags.negative = false;
    cpu.step(&mut mem).unwrap();
    assert_eq!(cpu.sp, 0x80);
    assert!(!cpu.flags.negative);
    cpu.step(&mut mem).unwrap();
    assert_eq!(cpu.x, 0x80);
    assert!(cpu.flags.negative);
    cpu.step(&mut mem).unwrap();
    assert!(cpu.flags.carry);
    cpu.step(&mut mem).unwrap();
    assert!(!cpu.flags.carry);
    cpu.step(&mut mem).unwrap();
    assert!(cpu.flags.decimal);
    cpu.flags.overflow = true;
    cpu.step(&mut mem).unwrap();
    assert!(!cpu.flags.overflow);
    cpu.step(&mut mem).unwrap();
    assert!(cpu.flags.interrupt_disable);
    cpu.step(&mut mem).unwrap();
    assert!(!cpu.flags.interrupt_disable);
}

#[test]
fn decimal_flag_does_not_change_adc() {
    let (mut cpu, mut mem) = at(0x8000, &[0x69, 0x19]);
    cpu.flags.decimal = true;
    cpu.a = 0x29;
    cpu.step(&mut mem).unwrap();
    assert_eq!(cpu.a, 0x42);
}

#[test]
fn compare_sets_carry_zero_negative() {
    let (mut cpu, mut mem) = at(0x8000, &[0xC9, 0x10, 0xE0, 0x20, 0xC0, 0x05]);
    cpu.a = 0x10;
    cpu.x = 0x10;
    cpu.y = 0x06;
    cpu.step(&mut mem).unwrap();
    assert!(cpu.flags.carry && cpu.flags.zero && !cpu.flags.negative);
    cpu.step(&mut mem).unwrap();
    assert!(!cpu.flags.carry && !cpu.flags.zero && cpu.flags.negative);
    cpu.step(&mut mem).unwrap();
    assert!(cpu.flags.carry && !cpu.flags.zero);
}

#[test]
fn alu_exact_values() {
    let f = Flags::new();
    let (r, g) = adc(0xFF, 0x01, Flags { carry: true, ..f });
    assert_eq!(r, 0x01);
    assert!(g.carry && !g.overflow && !g.zero);
    let (r, g) = sbc(0x05, 0x07, Flags { carry: true, ..f });
    assert_eq!(r, 0xFE);
    assert!(!g.carry && g.negative);
    let g = compare(0x01, 0x02, f);
    assert!(!g.carry && g.negative);
    let (r, g) = lsr(0x01, f);
    assert_eq!(r, 0);
    assert!(g.carry && g.zero);
    let (r, g) = rol(0x40, Flags { carry: true, ..f });
    assert_eq!(r, 0x81);
    assert!(!g.carry && g.negative);
    let (r, g) = ror(0x01, Flags { carry: true, ..f });
    assert_eq!(r, 0x80);
    assert!(g.carry);
}

#[test]
fn status_byte_round_trip() {
    for p in 0..=255u8 {
        let f = Flags::from_byte(p);
        assert_eq!(f.to_byte(false), (p & !0x10) | 0x20);
        assert_eq!(f.to_byte(true), p | 0x30);
    }
}

#[test]
fn dma_cycle_parity() {
    assert_eq!(oam_dma_cycles(1), 514);
    assert_eq!(oam_dma_cycles(2), 513);
    assert_eq!(oam_dma_cycles(0), 513);
}
