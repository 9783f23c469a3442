//! Properties of the interpreter and the bus, stated over their spec
//! functions and proved.
use vstd::prelude::*;
use crate::alu::{
    Flags, status_byte, has_bit, with_nz, flags_of_byte, inc8, dec8, lemma_status_byte_round_trip,
};
use crate::bus::{BusState, read_spec, write_spec, ram_index};
use crate::semantics::{
    Cpu, add16, word, step_spec, resolve_spec, execute_spec, finish_spec, push_spec, pull_spec,
    stack_addr, Operand, CpuError, CYCLE_LIMIT, indirect_high,
};
use crate::instructions::{
    AddressingMode, InstructionKind, Mnemonic, instruction_spec, kind_of, opcode_entry, operand_len,
};
use crate::mapper::Mapper;
use crate::memory::{FlatMemory, Memory, MEMORY_SIZE};
use crate::ppu::PpuPort;

verus! {

/// Instructions that may load PC with something other than the next
/// instruction's address.
pub open spec fn is_branch(m: Mnemonic) -> bool {
    match m {
        Mnemonic::Bpl | Mnemonic::Bmi | Mnemonic::Bvc | Mnemonic::Bvs | Mnemonic::Bcc
        | Mnemonic::Bcs | Mnemonic::Bne | Mnemonic::Beq => true,
        _ => false,
    }
}

pub open spec fn branch_condition(m: Mnemonic, f: Flags) -> bool {
    match m {
        Mnemonic::Bpl => !f.negative,
        Mnemonic::Bmi => f.negative,
        Mnemonic::Bvc => !f.overflow,
        Mnemonic::Bvs => f.overflow,
        Mnemonic::Bcc => !f.carry,
        Mnemonic::Bcs => f.carry,
        Mnemonic::Bne => !f.zero,
        Mnemonic::Beq => f.zero,
        _ => false,
    }
}

pub open spec fn is_jump(m: Mnemonic) -> bool {
    match m {
        Mnemonic::Jmp | Mnemonic::Jsr | Mnemonic::Rts | Mnemonic::Rti | Mnemonic::Brk => true,
        _ => false,
    }
}

/// No interrupt is serviced at this step.
pub open spec fn no_interrupt_due(c: Cpu) -> bool {
    !c.nmi_pending && !(c.irq_line && !c.flags.interrupt_disable)
}

proof fn lemma_resolve_advances_pc<B: Memory>(mode: AddressingMode, c: Cpu, s: B::State)
    ensures
        resolve_spec::<B>(mode, c, s).1.pc == add16(c.pc, operand_len(mode) as int),
{
    reveal(resolve_spec);
    assert(add16(c.pc, 0) == c.pc);
    assert(add16(add16(c.pc, 1), 1) == add16(c.pc, 2));
}

proof fn lemma_execute_keeps_pc<B: Memory>(m: Mnemonic, op: Operand, c: Cpu, s: B::State)
    requires
        !is_jump(m),
        !(is_branch(m) && branch_condition(m, c.flags)),
    ensures
        execute_spec::<B>(m, op, c, s).0.pc == c.pc,
{
    reveal(execute_spec);
    match kind_of(m) {
        InstructionKind::Read => {},
        InstructionKind::Modify => {},
        InstructionKind::Register => {},
        InstructionKind::Control => {},
    }
}

/// For every documented opcode, PC advances by exactly the instruction's
/// length, unless it is a taken branch, a jump, a call, a return or BRK.
pub proof fn lemma_pc_advances_by_length<B: Memory>(c: Cpu, s: B::State)
    requires
        no_interrupt_due(c),
        instruction_spec(B::load_spec(s, c.pc).0).mnemonic != Mnemonic::Illegal,
        !is_jump(instruction_spec(B::load_spec(s, c.pc).0).mnemonic),
        !(is_branch(instruction_spec(B::load_spec(s, c.pc).0).mnemonic) && branch_condition(
            instruction_spec(B::load_spec(s, c.pc).0).mnemonic,
            c.flags,
        )),
    ensures
        step_spec::<B>(c, s).1.pc == add16(
            c.pc,
            instruction_spec(B::load_spec(s, c.pc).0).bytes as int,
        ),
{
    reveal(finish_spec);
    let (opcode, s1) = B::load_spec(s, c.pc);
    let ins = instruction_spec(opcode);
    let c1 = Cpu { pc: add16(c.pc, 1), ..c };
    lemma_resolve_advances_pc::<B>(ins.addressing_mode, c1, s1);
    let (op, c2, s2) = resolve_spec::<B>(ins.addressing_mode, c1, s1);
    assert(c2.flags == c.flags) by {
        reveal(resolve_spec);
    }
    lemma_execute_keeps_pc::<B>(ins.mnemonic, op, c2, s2);
    assert(add16(add16(c.pc, 1), operand_len(ins.addressing_mode) as int) == add16(
        c.pc,
        ins.bytes as int,
    ));
}

/// SP arithmetic is modulo 256: a push decrements it, a pull increments it,
/// wrapping between 0x00 and 0xFF.
pub proof fn lemma_stack_pointer_wraps<B: Memory>(c: Cpu, s: B::State, v: u8)
    ensures
        push_spec::<B>(c, s, v).0.sp == (c.sp + 255) % 256,
        pull_spec::<B>(c, s).1.sp == (c.sp + 1) % 256,
        c.sp == 0 ==> push_spec::<B>(c, s, v).0.sp == 0xFF,
        c.sp == 0xFF ==> pull_spec::<B>(c, s).1.sp == 0,
{
}

/// Reads and writes below 0x2000 see 2 KiB of RAM mirrored four times.
pub proof fn lemma_ram_mirroring<P: PpuPort, M: Mapper>(
    s: BusState<P::State, M::State>,
    addr: u16,
    value: u8,
)
    requires
        addr < 0x2000,
    ensures
        read_spec::<P, M>(s, addr) == read_spec::<P, M>(s, (addr % 0x800) as u16),
        write_spec::<P, M>(s, addr, value) == write_spec::<P, M>(s, (addr % 0x800) as u16, value),
        read_spec::<P, M>(s, addr).0 == s.ram[ram_index(addr)],
{
}

/// Reads and writes in 0x2000..0x3FFF reach the eight PPU registers,
/// mirrored every 8 bytes.
pub proof fn lemma_ppu_mirroring<P: PpuPort, M: Mapper>(
    s: BusState<P::State, M::State>,
    addr: u16,
    value: u8,
)
    requires
        0x2000 <= addr < 0x4000,
    ensures
        read_spec::<P, M>(s, addr) == read_spec::<P, M>(s, (0x2000 + addr % 8) as u16),
        write_spec::<P, M>(s, addr, value) == write_spec::<P, M>(
            s,
            (0x2000 + addr % 8) as u16,
            value,
        ),
{
}

pub open spec fn flat_valid(s: Seq<u8>) -> bool {
    s.len() == MEMORY_SIZE
}

/// Two consecutive steps on a flat memory.
pub open spec fn two_steps(c: Cpu, s: Seq<u8>) -> (Cpu, Seq<u8>) {
    let (_, c1, s1) = step_spec::<FlatMemory>(c, s);
    let (_, c2, s2) = step_spec::<FlatMemory>(c1, s1);
    (c2, s2)
}

proof fn lemma_php_step(c: Cpu, s: Seq<u8>)
    requires
        flat_valid(s),
        no_interrupt_due(c),
        s[c.pc as int] == 0x08,
    ensures
        step_spec::<FlatMemory>(c, s) == (
            Ok::<u64, CpuError>(3),
            Cpu { pc: add16(c.pc, 1), sp: dec8(c.sp), cycles: (c.cycles + 3) as u64, ..c },
            s.update(stack_addr(c.sp) as int, status_byte(c.flags, true)),
        ),
{
    reveal(opcode_entry);
    reveal(resolve_spec);
    reveal(execute_spec);
    reveal(finish_spec);
}

proof fn lemma_plp_step(c: Cpu, s: Seq<u8>)
    requires
        flat_valid(s),
        no_interrupt_due(c),
        s[c.pc as int] == 0x28,
    ensures
        step_spec::<FlatMemory>(c, s) == (
            Ok::<u64, CpuError>(4),
            Cpu {
                pc: add16(c.pc, 1),
                sp: inc8(c.sp),
                flags: flags_of_byte(s[stack_addr(inc8(c.sp)) as int]),
                cycles: (c.cycles + 4) as u64,
                ..c
            },
            s,
        ),
{
    reveal(opcode_entry);
    reveal(resolve_spec);
    reveal(execute_spec);
    reveal(finish_spec);
}

proof fn lemma_pha_step(c: Cpu, s: Seq<u8>)
    requires
        flat_valid(s),
        no_interrupt_due(c),
        s[c.pc as int] == 0x48,
    ensures
        step_spec::<FlatMemory>(c, s) == (
            Ok::<u64, CpuError>(3),
            Cpu { pc: add16(c.pc, 1), sp: dec8(c.sp), cycles: (c.cycles + 3) as u64, ..c },
            s.update(stack_addr(c.sp) as int, c.a),
        ),
{
    reveal(opcode_entry);
    reveal(resolve_spec);
    reveal(execute_spec);
    reveal(finish_spec);
}

proof fn lemma_pla_step(c: Cpu, s: Seq<u8>)
    requires
        flat_valid(s),
        no_interrupt_due(c),
        s[c.pc as int] == 0x68,
    ensures
        step_spec::<FlatMemory>(c, s) == (
            Ok::<u64, CpuError>(4),
            Cpu {
                pc: add16(c.pc, 1),
                sp: inc8(c.sp),
                a: s[stack_addr(inc8(c.sp)) as int],
                flags: with_nz(c.flags, s[stack_addr(inc8(c.sp)) as int]),
                cycles: (c.cycles + 4) as u64,
                ..c
            },
            s,
        ),
{
    reveal(opcode_entry);
    reveal(resolve_spec);
    reveal(execute_spec);
    reveal(finish_spec);
}

/// PHP followed by PLP restores the flags, SP and the rest of the CPU; the
/// status byte then reads U = 1 and B = 0 whatever was pushed. (The pushed
/// byte must not land on the PLP opcode.)
pub proof fn lemma_php_plp_round_trip(c: Cpu, s: Seq<u8>)
    requires
        flat_valid(s),
        no_interrupt_due(c),
        c.cycles < CYCLE_LIMIT,
        s[c.pc as int] == 0x08,
        s[add16(c.pc, 1) as int] == 0x28,
        stack_addr(c.sp) != add16(c.pc, 1),
    ensures
        two_steps(c, s).0 == (Cpu { pc: add16(c.pc, 2), cycles: (c.cycles + 7) as u64, ..c }),
        has_bit(status_byte(two_steps(c, s).0.flags, false), 32),
        !has_bit(status_byte(two_steps(c, s).0.flags, false), 16),
{
    lemma_php_step(c, s);
    let c1 = Cpu { pc: add16(c.pc, 1), sp: dec8(c.sp), cycles: (c.cycles + 3) as u64, ..c };
    let s1 = s.update(stack_addr(c.sp) as int, status_byte(c.flags, true));
    lemma_plp_step(c1, s1);
    lemma_status_byte_round_trip(c.flags, true);
    lemma_status_byte_round_trip(c.flags, false);
    assert(inc8(dec8(c.sp)) == c.sp);
    assert(add16(add16(c.pc, 1), 1) == add16(c.pc, 2));
}

/// PHA followed by PLA leaves A and the other registers unchanged and sets
/// N and Z from A. (The pushed byte must not land on the PLA opcode.)
pub proof fn lemma_pha_pla_round_trip(c: Cpu, s: Seq<u8>)
    requires
        flat_valid(s),
        no_interrupt_due(c),
        c.cycles < CYCLE_LIMIT,
        s[c.pc as int] == 0x48,
        s[add16(c.pc, 1) as int] == 0x68,
        stack_addr(c.sp) != add16(c.pc, 1),
    ensures
        two_steps(c, s).0 == (Cpu {
            pc: add16(c.pc, 2),
            flags: with_nz(c.flags, c.a),
            cycles: (c.cycles + 7) as u64,
            ..c
        }),
{
    lemma_pha_step(c, s);
    let c1 = Cpu { pc: add16(c.pc, 1), sp: dec8(c.sp), cycles: (c.cycles + 3) as u64, ..c };
    let s1 = s.update(stack_addr(c.sp) as int, c.a);
    lemma_pla_step(c1, s1);
    assert(inc8(dec8(c.sp)) == c.sp);
    assert(add16(add16(c.pc, 1), 1) == add16(c.pc, 2));
}

/// The byte PHP pushes has B (bit 4) and U (bit 5) set.
pub proof fn lemma_php_pushes_break_and_unused(c: Cpu, s: Seq<u8>)
    requires
        flat_valid(s),
        no_interrupt_due(c),
        s[c.pc as int] == 0x08,
    ensures
        has_bit(step_spec::<FlatMemory>(c, s).2[stack_addr(c.sp) as int], 16),
        has_bit(step_spec::<FlatMemory>(c, s).2[stack_addr(c.sp) as int], 32),
{
    lemma_php_step(c, s);
    lemma_status_byte_round_trip(c.flags, true);
}

/// The byte BRK pushes has B and U set; I is set afterwards.
pub proof fn lemma_brk_pushes_break_and_unused(c: Cpu, s: Seq<u8>)
    requires
        flat_valid(s),
        no_interrupt_due(c),
        s[c.pc as int] == 0x00,
    ensures
        has_bit(step_spec::<FlatMemory>(c, s).2[stack_addr(dec8(dec8(c.sp))) as int], 16),
        has_bit(step_spec::<FlatMemory>(c, s).2[stack_addr(dec8(dec8(c.sp))) as int], 32),
        step_spec::<FlatMemory>(c, s).1.flags.interrupt_disable,
{
    reveal(opcode_entry);
    reveal(resolve_spec);
    reveal(execute_spec);
    reveal(finish_spec);
    lemma_status_byte_round_trip(c.flags, true);
}

/// The byte an NMI pushes has U set and B clear; I is set afterwards.
pub proof fn lemma_nmi_pushes_unused_only(c: Cpu, s: Seq<u8>)
    requires
        flat_valid(s),
        c.nmi_pending,
    ensures
        !has_bit(step_spec::<FlatMemory>(c, s).2[stack_addr(dec8(dec8(c.sp))) as int], 16),
        has_bit(step_spec::<FlatMemory>(c, s).2[stack_addr(dec8(dec8(c.sp))) as int], 32),
        step_spec::<FlatMemory>(c, s).1.flags.interrupt_disable,
{
    reveal(finish_spec);
    lemma_status_byte_round_trip(c.flags, false);
}

/// JMP indirect through a pointer `$XXFF` takes the high byte of the target
/// from `$XX00`, not from `$(XX+1)00`.
pub proof fn lemma_jmp_indirect_page_wrap(c: Cpu, s: Seq<u8>, hi: u8)
    requires
        flat_valid(s),
        no_interrupt_due(c),
        s[c.pc as int] == 0x6C,
        s[add16(c.pc, 1) as int] == 0xFF,
        s[add16(c.pc, 2) as int] == hi,
    ensures
        step_spec::<FlatMemory>(c, s).1.pc == word(s[hi * 256 + 0xFF], s[hi * 256]),
{
    reveal(opcode_entry);
    reveal(resolve_spec);
    reveal(execute_spec);
    reveal(finish_spec);
    assert(add16(add16(c.pc, 1), 1) == add16(c.pc, 2));
    assert(indirect_high(word(0xFF, hi)) == hi * 256);
}

} // verus!
