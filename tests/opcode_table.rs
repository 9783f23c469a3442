use nes_core::{decode, Cpu, FlatMemory, Mnemonic};

/// Every documented opcode with its base cycles and length.
const DOCUMENTED: [(u8, u8, u8); 151] = [
        (0x00, 7, 1),
        (0x01, 6, 2),
        (0x05, 3, 2),
        (0x06, 5, 2),
        (0x08, 3, 1),
        (0x09, 2, 2),
        (0x0A, 2, 1),
        (0x0D, 4, 3),
        (0x0E, 6, 3),
        (0x10, 2, 2),
        (0x11, 5, 2),
        (0x15, 4, 2),
        (0x16, 6, 2),
        (0x18, 2, 1),
        (0x19, 4, 3),
        (0x1D, 4, 3),
        (0x1E, 7, 3),
        (0x20, 6, 3),
        (0x21, 6, 2),
        (0x24, 3, 2),
        (0x25, 3, 2),
        (0x26, 5, 2),
        (0x28, 4, 1),
        (0x29, 2, 2),
        (0x2A, 2, 1),
        (0x2C, 4, 3),
        (0x2D, 4, 3),
        (0x2E, 6, 3),
        (0x30, 2, 2),
        (0x31, 5, 2),
        (0x35, 4, 2),
        (0x36, 6, 2),
        (0x38, 2, 1),
        (0x39, 4, 3),
        (0x3D, 4, 3),
        (0x3E, 7, 3),
        (0x40, 6, 1),
        (0x41, 6, 2),
        (0x45, 3, 2),
        (0x46, 5, 2),
        (0x48, 3, 1),
        (0x49, 2, 2),
        (0x4A, 2, 1),
        (0x4C, 3, 3),
        (0x4D, 4, 3),
        (0x4E, 6, 3),
        (0x50, 2, 2),
        (0x51, 5, 2),
        (0x55, 4, 2),
        (0x56, 6, 2),
        (0x58, 2, 1),
        (0x59, 4, 3),
        (0x5D, 4, 3),
        (0x5E, 7, 3),
        (0x60, 6, 1),
        (0x61, 6, 2),
        (0x65, 3, 2),
        (0x66, 5, 2),
        (0x68, 4, 1),
        (0x69, 2, 2),
        (0x6A, 2, 1),
        (0x6C, 5, 3),
        (0x6D, 4, 3),
        (0x6E, 6, 3),
        (0x70, 2, 2),
        (0x71, 5, 2),
        (0x75, 4, 2),
        (0x76, 6, 2),
        (0x78, 2, 1),
        (0x79, 4, 3),
        (0x7D, 4, 3),
        (0x7E, 7, 3),
        (0x81, 6, 2),
        (0x84, 3, 2),
        (0x85, 3, 2),
        (0x86, 3, 2),
        (0x88, 2, 1),
        (0x8A, 2, 1),
        (0x8C, 4, 3),
        (0x8D, 4, 3),
        (0x8E, 4, 3),
        (0x90, 2, 2),
        (0x91, 6, 2),
        (0x94, 4, 2),
        (0x95, 4, 2),
        (0x96, 4, 2),
        (0x98, 2, 1),
        (0x99, 5, 3),
        (0x9A, 2, 1),
        (0x9D, 5, 3),
        (0xA0, 2, 2),
        (0xA1, 6, 2),
        (0xA2, 2, 2),
        (0xA4, 3, 2),
        (0xA5, 3, 2),
        (0xA6, 3, 2),
        (0xA8, 2, 1),
        (0xA9, 2, 2),
        (0xAA, 2, 1),
        (0xAC, 4, 3),
        (0xAD, 4, 3),
        (0xAE, 4, 3),
        (0xB0, 2, 2),
        (0xB1, 5, 2),
        (0xB4, 4, 2),
        (0xB5, 4, 2),
        (0xB6, 4, 2),
        (0xB8, 2, 1),
        (0xB9, 4, 3),
        (0xBA, 2, 1),
        (0xBC, 4, 3),
        (0xBD, 4, 3),
        (0xBE, 4, 3),
        (0xC0, 2, 2),
        (0xC1, 6, 2),
        (0xC4, 3, 2),
        (0xC5, 3, 2),
        (0xC6, 5, 2),
        (0xC8, 2, 1),
        (0xC9, 2, 2),
        (0xCA, 2, 1),
        (0xCC, 4, 3),
        (0xCD, 4, 3),
        (0xCE, 6, 3),
        (0xD0, 2, 2),
        (0xD1, 5, 2),
        (0xD5, 4, 2),
        (0xD6, 6, 2),
        (0xD8, 2, 1),
        (0xD9, 4, 3),
        (0xDD, 4, 3),
        (0xDE, 7, 3),
        (0xE0, 2, 2),
        (0xE1, 6, 2),
        (0xE4, 3, 2),
        (0xE5, 3, 2),
        (0xE6, 5, 2),
        (0xE8, 2, 1),
        (0xE9, 2, 2),
        (0xEA, 2, 1),
        (0xEC, 4, 3),
        (0xED, 4, 3),
        (0xEE, 6, 3),
        (0xF0, 2, 2),
        (0xF1, 5, 2),
        (0xF5, 4, 2),
        (0xF6, 6, 2),
        (0xF8, 2, 1),
        (0xF9, 4, 3),
        (0xFD, 4, 3),
        (0xFE, 7, 3),
];

#[test]
fn documented_opcode_cycles_and_lengths() {
    for (op, cycles, bytes) in DOCUMENTED {
        let ins = decode(op);
        assert_ne!(ins.mnemonic, Mnemonic::Illegal, "opcode {:02X}", op);
        assert_eq!(ins.opcode, op);
        assert_eq!(ins.cycles, cycles, "opcode {:02X}", op);
        assert_eq!(ins.bytes, bytes, "opcode {:02X}", op);
    }
    for op in 0..=255u8 {
        if !DOCUMENTED.iter().any(|e| e.0 == op) {
            assert_eq!(decode(op).mnemonic, Mnemonic::Illegal, "opcode {:02X}", op);
        }
    }
}

#[test]
fn documented_opcodes_advance_pc_by_length() {
    for (op, _, bytes) in DOCUMENTED {
        let m = decode(op).mnemonic;
        let flow = matches!(
            m,
            Mnemonic::Jmp | Mnemonic::Jsr | Mnemonic::Rts | Mnemonic::Rti | Mnemonic::Brk
        );
        if flow {
            continue;
        }
        let mut mem = FlatMemory::new();
        mem.poke(0x8000, op);
        let mut cpu = Cpu::new();
        cpu.pc = 0x8000;
        // every branch condition fails: N=1, V=1, C=1, Z=1 are set, and
        // BMI/BVS/BCS/BEQ jump over zero bytes
        cpu.set_status(0xC3);
        let r = cpu.step(&mut mem);
        assert!(r.is_ok(), "opcode {:02X}", op);
        assert_eq!(cpu.pc, 0x8000 + bytes as u16, "opcode {:02X}", op);
    }
}

#[test]
fn vector_adc_zero_page() {
    let mut mem = FlatMemory::new();
    mem.poke(0x0400, 0x65);
    mem.poke(0x0401, 0x20);
    mem.poke(0x0020, 0x50);
    let mut cpu = Cpu::new();
    cpu.pc = 0x0400;
    cpu.a = 0x50;
    cpu.set_status(0x25);
    cpu.cycles = 100;
    assert_eq!(cpu.step(&mut mem), Ok(3));
    assert_eq!(cpu.a, 0xA1);
    assert_eq!(cpu.status(), 0xE4);
    assert_eq!(cpu.pc, 0x0402);
    assert_eq!(cpu.cycles, 103);
    assert_eq!((cpu.x, cpu.y, cpu.sp), (0, 0, 0xFD));
}

#[test]
fn vector_sta_indirect_y_pays_worst_case() {
    let mut mem = FlatMemory::new();
    mem.poke(0x0400, 0x91);
    mem.poke(0x0401, 0x10);
    mem.poke(0x0010, 0x80);
    mem.poke(0x0011, 0x12);
    let mut cpu = Cpu::new();
    cpu.pc = 0x0400;
    cpu.a = 0x3C;
    cpu.y = 0x05;
    assert_eq!(cpu.step(&mut mem), Ok(6));
    assert_eq!(mem.peek(0x1285), 0x3C);
    cpu.pc = 0x0400;
    cpu.y = 0x90;
    assert_eq!(cpu.step(&mut mem), Ok(6));
    assert_eq!(mem.peek(0x1310), 0x3C);
}

#[test]
fn vector_ror_absolute_x() {
    let mut mem = FlatMemory::new();
    mem.poke(0x0400, 0x7E);
    mem.poke(0x0401, 0xF0);
    mem.poke(0x0402, 0x12);
    mem.poke(0x1300, 0x03);
    let mut cpu = Cpu::new();
    cpu.pc = 0x0400;
    cpu.x = 0x10;
    cpu.set_status(0x01);
    assert_eq!(cpu.step(&mut mem), Ok(7));
    assert_eq!(mem.peek(0x1300), 0x81);
    assert_eq!(cpu.status(), 0xA1);
}

#[test]
fn vector_stx_zero_page_y_and_ldx_absolute_y() {
    let mut mem = FlatMemory::new();
    let program = [0x96, 0xF8, 0xBE, 0xF8, 0x00];
    for (i, b) in program.iter().enumerate() {
        mem.poke(0x0400 + i as u16, *b);
    }
    let mut cpu = Cpu::new();
    cpu.pc = 0x0400;
    cpu.x = 0x99;
    cpu.y = 0x10;
    assert_eq!(cpu.step(&mut mem), Ok(4));
    assert_eq!(mem.peek(0x0008), 0x99);
    mem.poke(0x0108, 0x00);
    assert_eq!(cpu.step(&mut mem), Ok(5));
    assert_eq!(cpu.x, 0x00);
    assert!(cpu.flags.zero);
}

#[test]
fn vector_inc_zero_page_x_and_dex() {
    let mut mem = FlatMemory::new();
    mem.poke(0x0400, 0xF6);
    mem.poke(0x0401, 0x7F);
    mem.poke(0x0402, 0xCA);
    mem.poke(0x0080, 0x7F);
    let mut cpu = Cpu::new();
    cpu.pc = 0x0400;
    cpu.x = 0x01;
    assert_eq!(cpu.step(&mut mem), Ok(6));
    assert_eq!(mem.peek(0x0080), 0x80);
    assert!(cpu.flags.negative);
    assert_eq!(cpu.step(&mut mem), Ok(2));
    assert_eq!(cpu.x, 0x00);
    assert!(cpu.flags.zero && !cpu.flags.negative);
}
