use nes_core::Bus;
use nes_core::{Cpu, CpuError};
use nes_core::Nrom;
use nes_core::PpuRegisters;

type NesBus = Bus<PpuRegisters, Nrom>;

fn bus() -> NesBus {
    Bus::new(PpuRegisters::new())
}

fn cartridge() -> Nrom {
    let mut rom = vec![0u8; 0x4000];
    rom[0] = 0xA9;
    rom[1] = 0x07;
    rom[0x3FFC] = 0x00;
    rom[0x3FFD] = 0x80;
    Nrom::new(rom).unwrap()
}

#[test]
fn ram_mirroring() {
    let mut b = bus();
    b.write(0x0001, 0xAB);
    assert_eq!(b.read(0x0801), 0xAB);
    assert_eq!(b.read(0x1001), 0xAB);
    assert_eq!(b.read(0x1801), 0xAB);
    b.write(0x1FFF, 0x11);
    assert_eq!(b.read(0x07FF), 0x11);
    assert_eq!(b.read_only(0x0FFF), 0x11);
}

#[test]
fn ppu_register_mirroring() {
    let mut b = bus();
    b.write(0x3FF8, 0x80);
    assert_eq!(b.ppu.written[0], 0x80);
    b.write(0x2003, 0x10);
    b.write(0x200C, 0x5E);
    assert_eq!(b.ppu.oam[0x10], 0x5E);
    b.ppu.set_vblank(true);
    assert_eq!(b.read_only(0x200A), 0x80);
    assert_eq!(b.read(0x3FFA), 0x80);
    assert_eq!(b.read(0x2002), 0x00);
}

#[test]
fn io_latches_hold_last_write() {
    let mut b = bus();
    b.write(0x4000, 0x3F);
    b.write(0x4015, 0x0F);
    b.write(0x4017, 0x40);
    b.write(0x401F, 0x01);
    assert_eq!(b.read(0x4000), 0x3F);
    assert_eq!(b.read(0x4015), 0x0F);
    assert_eq!(b.read(0x401F), 0x01);
    assert_eq!(b.io[0x17], 0x40);
}

#[test]
fn controller_strobe_and_shift() {
    let mut b = bus();
    b.set_buttons(0, 0b0000_0101);
    b.set_buttons(1, 0b1000_0000);
    b.write(0x4016, 1);
    b.write(0x4016, 0);
    let bits: Vec<u8> = (0..9).map(|_| b.read(0x4016)).collect();
    assert_eq!(bits, vec![1, 0, 1, 0, 0, 0, 0, 0, 1]);
    let bits: Vec<u8> = (0..8).map(|_| b.read(0x4017)).collect();
    assert_eq!(bits, vec![0, 0, 0, 0, 0, 0, 0, 1]);
}

#[test]
fn controller_write_to_second_port_does_not_strobe() {
    let mut b = bus();
    b.set_buttons(1, 0xFF);
    b.write(0x4017, 1);
    assert_eq!(b.read(0x4017), 0);
}

#[test]
fn controller_reads_first_button_while_strobed() {
    let mut b = bus();
    b.set_buttons(0, 0x01);
    b.write(0x4016, 1);
    assert_eq!(b.read(0x4016), 1);
    assert_eq!(b.read(0x4016), 1);
}

#[test]
fn cartridge_reads_go_to_mapper() {
    let mut b = bus();
    b.insert_mapper(cartridge());
    assert_eq!(b.read(0x8000), 0xA9);
    assert_eq!(b.read(0xC000), 0xA9);
    assert_eq!(b.read(0xFFFD), 0x80);
    b.write(0x8000, 0x00);
    assert_eq!(b.read(0x8000), 0xA9);
    b.write(0x6000, 0x42);
    assert_eq!(b.read(0x6000), 0x42);
    assert_eq!(b.read_only(0x6000), 0x42);
}

#[test]
fn nrom_rejects_odd_sizes() {
    assert!(Nrom::new(vec![0u8; 0x1000]).is_none());
    assert!(Nrom::new(vec![0u8; 0x8000]).is_some());
}

#[test]
fn cpu_runs_from_cartridge() {
    let mut b = bus();
    b.insert_mapper(cartridge());
    let mut cpu = Cpu::new();
    cpu.reset(&mut b);
    assert_eq!(cpu.pc, 0x8000);
    assert_eq!(cpu.step(&mut b), Ok(2));
    assert_eq!(cpu.a, 0x07);
}

#[test]
fn missing_cartridge_is_reported() {
    let mut b = bus();
    b.write(0x0000, 0xAD);
    b.write(0x0001, 0x00);
    b.write(0x0002, 0x80);
    let mut cpu = Cpu::new();
    cpu.pc = 0x0000;
    assert_eq!(cpu.step(&mut b), Err(CpuError::MissingCartridge { addr: 0x8000 }));
    b.write(0x0003, 0xEA);
    assert_eq!(cpu.step(&mut b), Ok(2));
}

fn dma_program(b: &mut NesBus) {
    for i in 0..256u16 {
        b.write(0x0200 + i, (i as u8) ^ 0x5A);
    }
    // LDA #$02; STA $4014
    b.write(0x0000, 0xA9);
    b.write(0x0001, 0x02);
    b.write(0x0002, 0x8D);
    b.write(0x0003, 0x14);
    b.write(0x0004, 0x40);
}

#[test]
fn oam_dma_on_odd_cycle() {
    let mut b = bus();
    dma_program(&mut b);
    let mut cpu = Cpu::new();
    cpu.pc = 0;
    cpu.cycles = 5;
    assert_eq!(cpu.step(&mut b), Ok(2));
    // the store ends at cycle 7 + 4 = 11, odd
    assert_eq!(cpu.step(&mut b), Ok(4 + 514));
    assert_eq!(cpu.cycles, 11 + 514);
    for i in 0..256usize {
        assert_eq!(b.ppu.oam[i], (i as u8) ^ 0x5A);
    }
}

#[test]
fn oam_dma_on_even_cycle() {
    let mut b = bus();
    dma_program(&mut b);
    let mut cpu = Cpu::new();
    cpu.pc = 0;
    cpu.cycles = 6;
    cpu.step(&mut b).unwrap();
    assert_eq!(cpu.step(&mut b), Ok(4 + 513));
    assert_eq!(cpu.cycles, 12 + 513);
}

#[test]
fn ppu_nmi_reaches_cpu() {
    let mut b = bus();
    b.insert_mapper(cartridge());
    b.write(0x2000, 0x80);
    let mut cpu = Cpu::new();
    cpu.pc = 0x8000;
    b.ppu.set_vblank(true);
    assert_eq!(cpu.step(&mut b), Ok(2));
    assert!(cpu.nmi_pending);
    assert_eq!(cpu.step(&mut b), Ok(7));
    assert!(!cpu.nmi_pending);
}
