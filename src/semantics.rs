//! The meaning of one CPU step, as spec functions over the CPU state and the
//! model of the memory it runs against.
use vstd::prelude::*;
use crate::alu::{
    Flags, adc_spec, sbc_spec, compare_spec, asl_spec, lsr_spec, rol_spec, ror_spec,
    bit_test_spec, with_nz, status_byte, flags_of_byte, inc8, dec8,
};
use crate::instructions::{
    AddressingMode, InstructionKind, Mnemonic, instruction_spec, kind_of,
};
use crate::memory::Memory;

verus! {

pub const NMI_VECTOR: u16 = 0xFFFA;
pub const RESET_VECTOR: u16 = 0xFFFC;
pub const IRQ_VECTOR: u16 = 0xFFFE;
pub const STACK_OFFSET: u16 = 0x100;
/// Cycles taken by reset and by each interrupt entry.
pub const INTERRUPT_CYCLES: u64 = 7;
/// Cycle counts below this bound leave room for any single step.
pub const CYCLE_LIMIT: u64 = 0xFFFF_FFFF_FFFF_0000;

/// Registers, interrupt latches and the cycle counter of the 6502.
#[derive(Clone, Copy, Debug, PartialEq, Eq, Structural)]
pub struct Cpu {
    pub a: u8,
    pub x: u8,
    pub y: u8,
    pub sp: u8,
    pub pc: u16,
    pub flags: Flags,
    /// Edge-triggered: set by an NMI edge, cleared when serviced.
    pub nmi_pending: bool,
    /// Level-sensitive: serviced while held and I is clear.
    pub irq_line: bool,
    pub cycles: u64,
}

#[derive(Clone, Copy, Debug, PartialEq, Eq, Structural)]
pub enum CpuError {
    /// The byte at `pc` is not a documented opcode; the CPU did not advance.
    IllegalOpcode { opcode: u8, pc: u16 },
    /// Cartridge space was accessed while no mapper was installed.
    MissingCartridge { addr: u16 },
}

/// What an addressing mode resolved to.
#[derive(Clone, Copy, Debug, PartialEq, Eq, Structural)]
pub enum Operand {
    Implied,
    Accumulator,
    Immediate(u8),
    /// An effective address; `crossed` when indexing or a branch left the page.
    Address { addr: u16, crossed: bool },
}

pub open spec fn add16(x: u16, d: int) -> u16 {
    ((x + d) % 0x10000) as u16
}

/// Little-endian 16-bit word.
pub open spec fn word(lo: u8, hi: u8) -> u16 {
    (hi * 256 + lo) as u16
}

pub open spec fn page(a: u16) -> int {
    a as int / 256
}

pub open spec fn stack_addr(sp: u8) -> u16 {
    (STACK_OFFSET + sp) as u16
}

/// The branch offset byte read as a signed number.
pub open spec fn signed_offset(v: u8) -> int {
    if v >= 128 {
        v - 256
    } else {
        v as int
    }
}

/// The second byte of a JMP-indirect pointer: the low byte wraps in its page.
pub open spec fn indirect_high(ptr: u16) -> u16 {
    (page(ptr) * 256 + (ptr % 256 + 1) % 256) as u16
}

pub open spec fn operand_crossed(op: Operand) -> bool {
    match op {
        Operand::Address { crossed, .. } => crossed,
        _ => false,
    }
}

pub open spec fn operand_addr(op: Operand) -> u16 {
    match op {
        Operand::Address { addr, .. } => addr,
        _ => 0,
    }
}

/// Reads the byte at PC and moves PC past it.
pub open spec fn fetch<B: Memory>(c: Cpu, s: B::State) -> (u8, Cpu, B::State) {
    let (v, s1) = B::load_spec(s, c.pc);
    (v, Cpu { pc: add16(c.pc, 1), ..c }, s1)
}

pub open spec fn fetch_word<B: Memory>(c: Cpu, s: B::State) -> (u16, Cpu, B::State) {
    let (lo, c1, s1) = fetch::<B>(c, s);
    let (hi, c2, s2) = fetch::<B>(c1, s1);
    (word(lo, hi), c2, s2)
}

/// A little-endian pointer read from the zero page; the high byte wraps to
/// `0x00` after `0xFF`.
pub open spec fn zero_page_word<B: Memory>(s: B::State, zp: u8) -> (u16, B::State) {
    let (lo, s1) = B::load_spec(s, zp as u16);
    let (hi, s2) = B::load_spec(s1, inc8(zp) as u16);
    (word(lo, hi), s2)
}

pub open spec fn indexed(base: u16, index: u8) -> Operand {
    let addr = add16(base, index as int);
    Operand::Address { addr, crossed: page(base) != page(addr) }
}

/// The addressing resolver: PC stands after the opcode; the operand bytes
/// are consumed and the operand is returned.
#[verifier::opaque]
pub open spec fn resolve_spec<B: Memory>(mode: AddressingMode, c: Cpu, s: B::State) -> (
    Operand,
    Cpu,
    B::State,
) {
    match mode {
        AddressingMode::Implicit | AddressingMode::NoMode => (Operand::Implied, c, s),
        AddressingMode::Accumulator => (Operand::Accumulator, c, s),
        AddressingMode::Immediate => {
            let (v, c1, s1) = fetch::<B>(c, s);
            (Operand::Immediate(v), c1, s1)
        },
        AddressingMode::ZeroPage => {
            let (v, c1, s1) = fetch::<B>(c, s);
            (Operand::Address { addr: v as u16, crossed: false }, c1, s1)
        },
        AddressingMode::ZeroPageX => {
            let (v, c1, s1) = fetch::<B>(c, s);
            (Operand::Address { addr: ((v + c.x) % 256) as u16, crossed: false }, c1, s1)
        },
        AddressingMode::ZeroPageY => {
            let (v, c1, s1) = fetch::<B>(c, s);
            (Operand::Address { addr: ((v + c.y) % 256) as u16, crossed: false }, c1, s1)
        },
        AddressingMode::Relative => {
            let (v, c1, s1) = fetch::<B>(c, s);
            let target = add16(c1.pc, signed_offset(v));
            (Operand::Address { addr: target, crossed: page(c1.pc) != page(target) }, c1, s1)
        },
        AddressingMode::Absolute => {
            let (w, c1, s1) = fetch_word::<B>(c, s);
            (Operand::Address { addr: w, crossed: false }, c1, s1)
        },
        AddressingMode::AbsoluteX => {
            let (w, c1, s1) = fetch_word::<B>(c, s);
            (indexed(w, c.x), c1, s1)
        },
        AddressingMode::AbsoluteY => {
            let (w, c1, s1) = fetch_word::<B>(c, s);
            (indexed(w, c.y), c1, s1)
        },
        AddressingMode::Indirect => {
            let (ptr, c1, s1) = fetch_word::<B>(c, s);
            let (lo, s2) = B::load_spec(s1, ptr);
            let (hi, s3) = B::load_spec(s2, indirect_high(ptr));
            (Operand::Address { addr: word(lo, hi), crossed: false }, c1, s3)
        },
        AddressingMode::IndirectX => {
            let (v, c1, s1) = fetch::<B>(c, s);
            let (w, s2) = zero_page_word::<B>(s1, ((v + c.x) % 256) as u8);
            (Operand::Address { addr: w, crossed: false }, c1, s2)
        },
        AddressingMode::IndirectY => {
            let (v, c1, s1) = fetch::<B>(c, s);
            let (w, s2) = zero_page_word::<B>(s1, v);
            (indexed(w, c.y), c1, s2)
        },
    }
}

/// The value an instruction reads: the immediate byte, A, or memory.
pub open spec fn read_operand<B: Memory>(op: Operand, c: Cpu, s: B::State) -> (u8, B::State) {
    match op {
        Operand::Immediate(v) => (v, s),
        Operand::Accumulator => (c.a, s),
        Operand::Address { addr, .. } => B::load_spec(s, addr),
        Operand::Implied => (0, s),
    }
}

/// Where a read-modify-write instruction puts its result: A or memory.
pub open spec fn write_back<B: Memory>(op: Operand, c: Cpu, s: B::State, v: u8) -> (
    Cpu,
    B::State,
) {
    match op {
        Operand::Address { addr, .. } => (c, B::store_spec(s, addr, v)),
        _ => (Cpu { a: v, ..c }, s),
    }
}

pub open spec fn push_spec<B: Memory>(c: Cpu, s: B::State, v: u8) -> (Cpu, B::State) {
    (Cpu { sp: dec8(c.sp), ..c }, B::store_spec(s, stack_addr(c.sp), v))
}

pub open spec fn pull_spec<B: Memory>(c: Cpu, s: B::State) -> (u8, Cpu, B::State) {
    let sp = inc8(c.sp);
    let (v, s1) = B::load_spec(s, stack_addr(sp));
    (v, Cpu { sp, ..c }, s1)
}

/// Pushes PCH, PCL and the status byte (B as given, U set), sets I and
/// loads PC from `vector`.
pub open spec fn interrupt_spec<B: Memory>(
    c: Cpu,
    s: B::State,
    ret: u16,
    brk: bool,
    vector: u16,
) -> (Cpu, B::State) {
    let (c1, s1) = push_spec::<B>(c, s, (ret / 256) as u8);
    let (c2, s2) = push_spec::<B>(c1, s1, (ret % 256) as u8);
    let (c3, s3) = push_spec::<B>(c2, s2, status_byte(c.flags, brk));
    let (lo, s4) = B::load_spec(s3, vector);
    let (hi, s5) = B::load_spec(s4, add16(vector, 1));
    (Cpu { pc: word(lo, hi), flags: Flags { interrupt_disable: true, ..c.flags }, ..c3 }, s5)
}

pub open spec fn branch_spec<B: Memory>(taken: bool, op: Operand, c: Cpu, s: B::State) -> (
    Cpu,
    B::State,
    u8,
) {
    if taken {
        (
            Cpu { pc: operand_addr(op), ..c },
            s,
            if operand_crossed(op) {
                2u8
            } else {
                1u8
            },
        )
    } else {
        (c, s, 0)
    }
}

pub open spec fn load_reg<B: Memory>(op: Operand, c: Cpu, s: B::State) -> (u8, Flags, B::State) {
    let (v, s1) = read_operand::<B>(op, c, s);
    (v, with_nz(c.flags, v), s1)
}

pub open spec fn shift_spec<B: Memory>(
    op: Operand,
    c: Cpu,
    s: B::State,
    f: spec_fn(u8, Flags) -> (u8, Flags),
) -> (Cpu, B::State, u8) {
    let (v, s1) = read_operand::<B>(op, c, s);
    let (r, fl) = f(v, c.flags);
    let (c1, s2) = write_back::<B>(op, Cpu { flags: fl, ..c }, s1, r);
    (c1, s2, 0)
}

/// Loads, stores, arithmetic, logic, compares and BIT.
pub open spec fn execute_read_spec<B: Memory>(m: Mnemonic, op: Operand, c: Cpu, s: B::State) -> (
    Cpu,
    B::State,
    u8,
) {
    match m {
        Mnemonic::Lda => {
            let (v, f, s1) = load_reg::<B>(op, c, s);
            (Cpu { a: v, flags: f, ..c }, s1, 0)
        },
        Mnemonic::Ldx => {
            let (v, f, s1) = load_reg::<B>(op, c, s);
            (Cpu { x: v, flags: f, ..c }, s1, 0)
        },
        Mnemonic::Ldy => {
            let (v, f, s1) = load_reg::<B>(op, c, s);
            (Cpu { y: v, flags: f, ..c }, s1, 0)
        },
        Mnemonic::Sta => (c, B::store_spec(s, operand_addr(op), c.a), 0),
        Mnemonic::Stx => (c, B::store_spec(s, operand_addr(op), c.x), 0),
        Mnemonic::Sty => (c, B::store_spec(s, operand_addr(op), c.y), 0),
        Mnemonic::Adc => {
            let (v, s1) = read_operand::<B>(op, c, s);
            let (r, f) = adc_spec(c.a, v, c.flags);
            (Cpu { a: r, flags: f, ..c }, s1, 0)
        },
        Mnemonic::Sbc => {
            let (v, s1) = read_operand::<B>(op, c, s);
            let (r, f) = sbc_spec(c.a, v, c.flags);
            (Cpu { a: r, flags: f, ..c }, s1, 0)
        },
        Mnemonic::And => {
            let (v, s1) = read_operand::<B>(op, c, s);
            (Cpu { a: c.a & v, flags: with_nz(c.flags, c.a & v), ..c }, s1, 0)
        },
        Mnemonic::Ora => {
            let (v, s1) = read_operand::<B>(op, c, s);
            (Cpu { a: c.a | v, flags: with_nz(c.flags, c.a | v), ..c }, s1, 0)
        },
        Mnemonic::Eor => {
            let (v, s1) = read_operand::<B>(op, c, s);
            (Cpu { a: c.a ^ v, flags: with_nz(c.flags, c.a ^ v), ..c }, s1, 0)
        },
        Mnemonic::Cmp => {
            let (v, s1) = read_operand::<B>(op, c, s);
            (Cpu { flags: compare_spec(c.a, v, c.flags), ..c }, s1, 0)
        },
        Mnemonic::Cpx => {
            let (v, s1) = read_operand::<B>(op, c, s);
            (Cpu { flags: compare_spec(c.x, v, c.flags), ..c }, s1, 0)
        },
        Mnemonic::Cpy => {
            let (v, s1) = read_operand::<B>(op, c, s);
            (Cpu { flags: compare_spec(c.y, v, c.flags), ..c }, s1, 0)
        },
        _ => {
            let (v, s1) = read_operand::<B>(op, c, s);
            (Cpu { flags: bit_test_spec(c.a, v, c.flags), ..c }, s1, 0)
        },
    }
}

/// Shifts, rotates, increments and decrements of A or memory.
pub open spec fn execute_modify_spec<B: Memory>(m: Mnemonic, op: Operand, c: Cpu, s: B::State) -> (
    Cpu,
    B::State,
    u8,
) {
    match m {
        Mnemonic::Asl => shift_spec::<B>(op, c, s, |v: u8, f: Flags| asl_spec(v, f)),
        Mnemonic::Lsr => shift_spec::<B>(op, c, s, |v: u8, f: Flags| lsr_spec(v, f)),
        Mnemonic::Rol => shift_spec::<B>(op, c, s, |v: u8, f: Flags| rol_spec(v, f)),
        Mnemonic::Ror => shift_spec::<B>(op, c, s, |v: u8, f: Flags| ror_spec(v, f)),
        Mnemonic::Inc => {
            let (v, s1) = read_operand::<B>(op, c, s);
            (Cpu { flags: with_nz(c.flags, inc8(v)), ..c }, B::store_spec(s1, operand_addr(op), inc8(v)), 0)
        },
        _ => {
            let (v, s1) = read_operand::<B>(op, c, s);
            (Cpu { flags: with_nz(c.flags, dec8(v)), ..c }, B::store_spec(s1, operand_addr(op), dec8(v)), 0)
        },
    }
}

/// Transfers, register increments and decrements, flag changes and NOP.
pub open spec fn execute_register_spec<B: Memory>(m: Mnemonic, op: Operand, c: Cpu, s: B::State) -> (
    Cpu,
    B::State,
    u8,
) {
    match m {
        Mnemonic::Inx => (Cpu { x: inc8(c.x), flags: with_nz(c.flags, inc8(c.x)), ..c }, s, 0),
        Mnemonic::Iny => (Cpu { y: inc8(c.y), flags: with_nz(c.flags, inc8(c.y)), ..c }, s, 0),
        Mnemonic::Dex => (Cpu { x: dec8(c.x), flags: with_nz(c.flags, dec8(c.x)), ..c }, s, 0),
        Mnemonic::Dey => (Cpu { y: dec8(c.y), flags: with_nz(c.flags, dec8(c.y)), ..c }, s, 0),
        Mnemonic::Tax => (Cpu { x: c.a, flags: with_nz(c.flags, c.a), ..c }, s, 0),
        Mnemonic::Tay => (Cpu { y: c.a, flags: with_nz(c.flags, c.a), ..c }, s, 0),
        Mnemonic::Txa => (Cpu { a: c.x, flags: with_nz(c.flags, c.x), ..c }, s, 0),
        Mnemonic::Tya => (Cpu { a: c.y, flags: with_nz(c.flags, c.y), ..c }, s, 0),
        Mnemonic::Tsx => (Cpu { x: c.sp, flags: with_nz(c.flags, c.sp), ..c }, s, 0),
        Mnemonic::Txs => (Cpu { sp: c.x, ..c }, s, 0),
        Mnemonic::Clc => (Cpu { flags: Flags { carry: false, ..c.flags }, ..c }, s, 0),
        Mnemonic::Sec => (Cpu { flags: Flags { carry: true, ..c.flags }, ..c }, s, 0),
        Mnemonic::Cli => (Cpu { flags: Flags { interrupt_disable: false, ..c.flags }, ..c }, s, 0),
        Mnemonic::Sei => (Cpu { flags: Flags { interrupt_disable: true, ..c.flags }, ..c }, s, 0),
        Mnemonic::Cld => (Cpu { flags: Flags { decimal: false, ..c.flags }, ..c }, s, 0),
        Mnemonic::Sed => (Cpu { flags: Flags { decimal: true, ..c.flags }, ..c }, s, 0),
        Mnemonic::Clv => (Cpu { flags: Flags { overflow: false, ..c.flags }, ..c }, s, 0),
        _ => (c, s, 0),
    }
}

/// Branches, jumps, calls, returns, stack pushes and pulls, and BRK.
pub open spec fn execute_control_spec<B: Memory>(m: Mnemonic, op: Operand, c: Cpu, s: B::State) -> (
    Cpu,
    B::State,
    u8,
) {
    match m {
        Mnemonic::Bpl => branch_spec::<B>(!c.flags.negative, op, c, s),
        Mnemonic::Bmi => branch_spec::<B>(c.flags.negative, op, c, s),
        Mnemonic::Bvc => branch_spec::<B>(!c.flags.overflow, op, c, s),
        Mnemonic::Bvs => branch_spec::<B>(c.flags.overflow, op, c, s),
        Mnemonic::Bcc => branch_spec::<B>(!c.flags.carry, op, c, s),
        Mnemonic::Bcs => branch_spec::<B>(c.flags.carry, op, c, s),
        Mnemonic::Bne => branch_spec::<B>(!c.flags.zero, op, c, s),
        Mnemonic::Beq => branch_spec::<B>(c.flags.zero, op, c, s),
        Mnemonic::Jmp => (Cpu { pc: operand_addr(op), ..c }, s, 0),
        Mnemonic::Jsr => {
            let ret = add16(c.pc, -1);
            let (c1, s1) = push_spec::<B>(c, s, (ret / 256) as u8);
            let (c2, s2) = push_spec::<B>(c1, s1, (ret % 256) as u8);
            (Cpu { pc: operand_addr(op), ..c2 }, s2, 0)
        },
        Mnemonic::Rts => {
            let (lo, c1, s1) = pull_spec::<B>(c, s);
            let (hi, c2, s2) = pull_spec::<B>(c1, s1);
            (Cpu { pc: add16(word(lo, hi), 1), ..c2 }, s2, 0)
        },
        Mnemonic::Rti => {
            let (p, c1, s1) = pull_spec::<B>(c, s);
            let (lo, c2, s2) = pull_spec::<B>(c1, s1);
            let (hi, c3, s3) = pull_spec::<B>(c2, s2);
            (Cpu { pc: word(lo, hi), flags: flags_of_byte(p), ..c3 }, s3, 0)
        },
        Mnemonic::Pha => {
            let (c1, s1) = push_spec::<B>(c, s, c.a);
            (c1, s1, 0)
        },
        Mnemonic::Php => {
            let (c1, s1) = push_spec::<B>(c, s, status_byte(c.flags, true));
            (c1, s1, 0)
        },
        Mnemonic::Pla => {
            let (v, c1, s1) = pull_spec::<B>(c, s);
            (Cpu { a: v, flags: with_nz(c.flags, v), ..c1 }, s1, 0)
        },
        Mnemonic::Plp => {
            let (v, c1, s1) = pull_spec::<B>(c, s);
            (Cpu { flags: flags_of_byte(v), ..c1 }, s1, 0)
        },
        _ => {
            let (c1, s1) = interrupt_spec::<B>(c, s, add16(c.pc, 1), true, IRQ_VECTOR);
            (c1, s1, 0)
        },
    }
}

/// The effect of one instruction once its operand is resolved, with the
/// extra cycles of a taken branch.
#[verifier::opaque]
pub open spec fn execute_spec<B: Memory>(m: Mnemonic, op: Operand, c: Cpu, s: B::State) -> (
    Cpu,
    B::State,
    u8,
) {
    match kind_of(m) {
        InstructionKind::Read => execute_read_spec::<B>(m, op, c, s),
        InstructionKind::Modify => execute_modify_spec::<B>(m, op, c, s),
        InstructionKind::Register => execute_register_spec::<B>(m, op, c, s),
        InstructionKind::Control => execute_control_spec::<B>(m, op, c, s),
    }
}

/// Cycles that an OAM-DMA takes: 514 when it starts on an odd CPU cycle,
/// 513 on an even one.
pub open spec fn dma_cycles_spec(start: u64) -> u64 {
    if start % 2 == 1 {
        514
    } else {
        513
    }
}

/// Ends a step of `cost` cycles: asks the memory for its report, charges an
/// OAM-DMA, latches an NMI edge and surfaces a missing cartridge.
#[verifier::opaque]
pub open spec fn finish_spec<B: Memory>(c: Cpu, s: B::State, cost: u64) -> (
    Result<u64, CpuError>,
    Cpu,
    B::State,
) {
    let (rep, s1) = B::settle_spec(s);
    let total = if rep.dma {
        cost + dma_cycles_spec((c.cycles + cost) as u64)
    } else {
        cost as int
    };
    let c1 = Cpu { cycles: (c.cycles + total) as u64, nmi_pending: c.nmi_pending || rep.nmi, ..c };
    match rep.missing_cartridge {
        Some(addr) => (Err(CpuError::MissingCartridge { addr }), c1, s1),
        None => (Ok(total as u64), c1, s1),
    }
}

/// One step: an interrupt service when one is due, else one instruction.
/// The result is the number of cycles taken.
pub open spec fn step_spec<B: Memory>(c: Cpu, s: B::State) -> (
    Result<u64, CpuError>,
    Cpu,
    B::State,
) {
    if c.nmi_pending {
        let (c1, s1) = interrupt_spec::<B>(
            Cpu { nmi_pending: false, ..c },
            s,
            c.pc,
            false,
            NMI_VECTOR,
        );
        finish_spec::<B>(c1, s1, INTERRUPT_CYCLES)
    } else if c.irq_line && !c.flags.interrupt_disable {
        let (c1, s1) = interrupt_spec::<B>(c, s, c.pc, false, IRQ_VECTOR);
        finish_spec::<B>(c1, s1, INTERRUPT_CYCLES)
    } else {
        instruction_step_spec::<B>(c, s)
    }
}

/// One instruction at PC: fetch, decode, resolve, execute, then account
/// its cycles (base, page-cross penalty, taken branch).
pub open spec fn instruction_step_spec<B: Memory>(c: Cpu, s: B::State) -> (
    Result<u64, CpuError>,
    Cpu,
    B::State,
) {
    let (opcode, s1) = B::load_spec(s, c.pc);
    let ins = instruction_spec(opcode);
    if ins.mnemonic == Mnemonic::Illegal {
        (Err(CpuError::IllegalOpcode { opcode, pc: c.pc }), c, s1)
    } else {
        let c1 = Cpu { pc: add16(c.pc, 1), ..c };
        let (op, c2, s2) = resolve_spec::<B>(ins.addressing_mode, c1, s1);
        let (c3, s3, extra) = execute_spec::<B>(ins.mnemonic, op, c2, s2);
        let penalty: u64 = if ins.page_cross_penalty && operand_crossed(op) {
            1
        } else {
            0
        };
        finish_spec::<B>(c3, s3, (ins.cycles + extra + penalty) as u64)
    }
}

/// Reset: A, X, Y cleared, SP = 0xFD, P = 0x24, PC from the reset vector,
/// cycle counter 7.
pub open spec fn reset_spec<B: Memory>(c: Cpu, s: B::State) -> (Cpu, B::State) {
    let (lo, s1) = B::load_spec(s, RESET_VECTOR);
    let (hi, s2) = B::load_spec(s1, add16(RESET_VECTOR, 1));
    (
        Cpu {
            a: 0,
            x: 0,
            y: 0,
            sp: 0xFD,
            pc: word(lo, hi),
            flags: flags_of_byte(0x24),
            cycles: INTERRUPT_CYCLES,
            ..c
        },
        s2,
    )
}

} // verus!
