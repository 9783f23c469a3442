//! The 6502 interpreter: reset, interrupt service and one instruction per
//! step, each proved to do what `semantics` says.
use vstd::prelude::*;
use crate::alu::{
    Flags, adc, sbc, compare, asl, lsr, rol, ror, bit_test, flags_of_byte, status_byte,
};
use crate::semantics::{
    Cpu, CpuError, Operand, NMI_VECTOR, RESET_VECTOR, IRQ_VECTOR, STACK_OFFSET,
    INTERRUPT_CYCLES, CYCLE_LIMIT, fetch, fetch_word, zero_page_word, resolve_spec,
    read_operand, write_back, operand_addr, push_spec, pull_spec, interrupt_spec, branch_spec,
    execute_spec, execute_read_spec, execute_modify_spec, execute_register_spec,
    execute_control_spec, finish_spec, step_spec, instruction_step_spec, reset_spec, dma_cycles_spec, add16, word,
    indirect_high, indexed, signed_offset,
};
use crate::instructions::{AddressingMode, Mnemonic, InstructionKind, decode, kind, kind_of};
use crate::memory::Memory;

verus! {

fn word_of(lo: u8, hi: u8) -> (r: u16)
    ensures
        r == word(lo, hi),
{
    hi as u16 * 256 + lo as u16
}

fn return_address(lo: u8, hi: u8) -> (r: u16)
    ensures
        r == add16(word(lo, hi), 1),
{
    word_of(lo, hi).wrapping_add(1)
}

fn index_address(base: u16, index: u8) -> (r: Operand)
    ensures
        r == indexed(base, index),
{
    let addr = base.wrapping_add(index as u16);
    Operand::Address { addr, crossed: base / 256 != addr / 256 }
}

fn zero_page_index(v: u8, index: u8) -> (r: u16)
    ensures
        r == ((v + index) % 256) as u16,
{
    v.wrapping_add(index) as u16
}

fn relative_target(pc: u16, offset: u8) -> (r: u16)
    ensures
        r == add16(pc, signed_offset(offset)),
{
    if offset >= 128 {
        pc.wrapping_add(offset as u16).wrapping_sub(256)
    } else {
        pc.wrapping_add(offset as u16)
    }
}

fn indirect_high_address(ptr: u16) -> (r: u16)
    ensures
        r == indirect_high(ptr),
{
    (ptr / 256) * 256 + (ptr % 256 + 1) % 256
}

/// Cycles that an OAM-DMA takes when it starts at CPU cycle `start`: 514 on
/// an odd cycle, 513 on an even one.
pub fn oam_dma_cycles(start: u64) -> (r: u64)
    ensures
        r == dma_cycles_spec(start),
        r == if start % 2 == 1 { 514u64 } else { 513u64 },
{
    if start % 2 == 1 {
        514
    } else {
        513
    }
}

impl Cpu {
    /// The CPU at power-on, before reset.
    pub fn new() -> (c: Cpu)
        ensures
            c.a == 0 && c.x == 0 && c.y == 0,
            c.sp == 0xFD,
            c.pc == 0,
            c.flags == flags_of_byte(0x24),
            !c.nmi_pending && !c.irq_line,
            c.cycles == 0,
    {
        Cpu {
            a: 0,
            x: 0,
            y: 0,
            sp: 0xFD,
            pc: 0,
            flags: Flags::new(),
            nmi_pending: false,
            irq_line: false,
            cycles: 0,
        }
    }

    /// The status register as a byte: U set, B clear.
    pub fn status(&self) -> (r: u8)
        ensures
            r == status_byte(self.flags, false),
    {
        self.flags.to_byte(false)
    }

    /// Loads the status register from a byte; bits 4 and 5 are ignored.
    pub fn set_status(&mut self, p: u8)
        ensures
            *final(self) == (Cpu { flags: flags_of_byte(p), ..*old(self) }),
    {
        self.flags = Flags::from_byte(p);
    }

    /// Records an NMI edge; it is serviced at the next step.
    pub fn set_nmi_edge(&mut self)
        ensures
            *final(self) == (Cpu { nmi_pending: true, ..*old(self) }),
    {
        self.nmi_pending = true;
    }

    /// Sets the level of the IRQ line.
    pub fn set_irq_level(&mut self, level: bool)
        ensures
            *final(self) == (Cpu { irq_line: level, ..*old(self) }),
    {
        self.irq_line = level;
    }

    fn fetch_byte<B: Memory>(&mut self, bus: &mut B) -> (r: u8)
        requires
            B::valid(old(bus).model()),
        ensures
            B::valid(final(bus).model()),
            (r, *final(self), final(bus).model()) == fetch::<B>(*old(self), old(bus).model()),
    {
        let v = bus.load(self.pc);
        self.pc = self.pc.wrapping_add(1);
        v
    }

    fn fetch_word<B: Memory>(&mut self, bus: &mut B) -> (r: u16)
        requires
            B::valid(old(bus).model()),
        ensures
            B::valid(final(bus).model()),
            (r, *final(self), final(bus).model()) == fetch_word::<B>(*old(self), old(bus).model()),
    {
        let lo = self.fetch_byte(bus);
        let hi = self.fetch_byte(bus);
        word_of(lo, hi)
    }

    fn read_zero_page_word<B: Memory>(bus: &mut B, zp: u8) -> (r: u16)
        requires
            B::valid(old(bus).model()),
        ensures
            B::valid(final(bus).model()),
            (r, final(bus).model()) == zero_page_word::<B>(old(bus).model(), zp),
    {
        let lo = bus.load(zp as u16);
        let hi = bus.load(zp.wrapping_add(1) as u16);
        word_of(lo, hi)
    }

    /// The addressing resolver.
    pub fn resolve<B: Memory>(&mut self, bus: &mut B, mode: AddressingMode) -> (r: Operand)
        requires
            B::valid(old(bus).model()),
        ensures
            B::valid(final(bus).model()),
            final(self).cycles == old(self).cycles,
            (r, *final(self), final(bus).model()) == resolve_spec::<B>(
                mode,
                *old(self),
                old(bus).model(),
            ),
    {
        proof {
            reveal(resolve_spec);
        }
        match mode {
            AddressingMode::Implicit | AddressingMode::NoMode => Operand::Implied,
            AddressingMode::Accumulator => Operand::Accumulator,
            AddressingMode::Immediate => {
                let v = self.fetch_byte(bus);
                Operand::Immediate(v)
            },
            AddressingMode::ZeroPage => {
                let v = self.fetch_byte(bus);
                Operand::Address { addr: v as u16, crossed: false }
            },
            AddressingMode::ZeroPageX => {
                let v = self.fetch_byte(bus);
                Operand::Address { addr: zero_page_index(v, self.x), crossed: false }
            },
            AddressingMode::ZeroPageY => {
                let v = self.fetch_byte(bus);
                Operand::Address { addr: zero_page_index(v, self.y), crossed: false }
            },
            AddressingMode::Relative => {
                let v = self.fetch_byte(bus);
                let target = relative_target(self.pc, v);
                Operand::Address { addr: target, crossed: self.pc / 256 != target / 256 }
            },
            AddressingMode::Absolute => {
                let w = self.fetch_word(bus);
                Operand::Address { addr: w, crossed: false }
            },
            AddressingMode::AbsoluteX => {
                let w = self.fetch_word(bus);
                index_address(w, self.x)
            },
            AddressingMode::AbsoluteY => {
                let w = self.fetch_word(bus);
                index_address(w, self.y)
            },
            AddressingMode::Indirect => {
                let ptr = self.fetch_word(bus);
                let lo = bus.load(ptr);
                let hi = bus.load(indirect_high_address(ptr));
                Operand::Address { addr: word_of(lo, hi), crossed: false }
            },
            AddressingMode::IndirectX => {
                let v = self.fetch_byte(bus);
                let w = Self::read_zero_page_word(bus, zero_page_index(v, self.x) as u8);
                Operand::Address { addr: w, crossed: false }
            },
            AddressingMode::IndirectY => {
                let v = self.fetch_byte(bus);
                let w = Self::read_zero_page_word(bus, v);
                index_address(w, self.y)
            },
        }
    }

    fn read_operand<B: Memory>(&self, bus: &mut B, op: Operand) -> (r: u8)
        requires
            B::valid(old(bus).model()),
        ensures
            B::valid(final(bus).model()),
            (r, final(bus).model()) == read_operand::<B>(op, *self, old(bus).model()),
    {
        match op {
            Operand::Immediate(v) => v,
            Operand::Accumulator => self.a,
            Operand::Address { addr, .. } => bus.load(addr),
            Operand::Implied => 0,
        }
    }

    fn write_back<B: Memory>(&mut self, bus: &mut B, op: Operand, v: u8)
        requires
            B::valid(old(bus).model()),
        ensures
            B::valid(final(bus).model()),
            (*final(self), final(bus).model()) == write_back::<B>(
                op,
                *old(self),
                old(bus).model(),
                v,
            ),
    {
        match op {
            Operand::Address { addr, .. } => bus.store(addr, v),
            _ => self.a = v,
        }
    }

    fn store_operand<B: Memory>(bus: &mut B, op: Operand, v: u8)
        requires
            B::valid(old(bus).model()),
        ensures
            B::valid(final(bus).model()),
            final(bus).model() == B::store_spec(old(bus).model(), operand_addr(op), v),
    {
        match op {
            Operand::Address { addr, .. } => bus.store(addr, v),
            _ => bus.store(0, v),
        }
    }

    fn push<B: Memory>(&mut self, bus: &mut B, v: u8)
        requires
            B::valid(old(bus).model()),
        ensures
            B::valid(final(bus).model()),
            (*final(self), final(bus).model()) == push_spec::<B>(*old(self), old(bus).model(), v),
    {
        bus.store(STACK_OFFSET + self.sp as u16, v);
        self.sp = self.sp.wrapping_sub(1);
    }

    fn pull<B: Memory>(&mut self, bus: &mut B) -> (r: u8)
        requires
            B::valid(old(bus).model()),
        ensures
            B::valid(final(bus).model()),
            (r, *final(self), final(bus).model()) == pull_spec::<B>(*old(self), old(bus).model()),
    {
        self.sp = self.sp.wrapping_add(1);
        bus.load(STACK_OFFSET + self.sp as u16)
    }

    fn interrupt<B: Memory>(&mut self, bus: &mut B, ret: u16, brk: bool, vector: u16)
        requires
            B::valid(old(bus).model()),
            vector < 0xFFFF,
        ensures
            B::valid(final(bus).model()),
            (*final(self), final(bus).model()) == interrupt_spec::<B>(
                *old(self),
                old(bus).model(),
                ret,
                brk,
                vector,
            ),
    {
        let p = self.flags.to_byte(brk);
        self.push(bus, (ret / 256) as u8);
        self.push(bus, (ret % 256) as u8);
        self.push(bus, p);
        let lo = bus.load(vector);
        let hi = bus.load(vector + 1);
        self.pc = word_of(lo, hi);
        self.flags.interrupt_disable = true;
    }

    fn branch<B: Memory>(&mut self, bus: &B, taken: bool, op: Operand) -> (r: u8)
        ensures
            (*final(self), bus.model(), r) == branch_spec::<B>(taken, op, *old(self), bus.model()),
    {
        if taken {
            match op {
                Operand::Address { addr, crossed } => {
                    self.pc = addr;
                    if crossed {
                        2
                    } else {
                        1
                    }
                },
                _ => {
                    self.pc = 0;
                    1
                },
            }
        } else {
            0
        }
    }

    fn execute_read<B: Memory>(&mut self, bus: &mut B, m: Mnemonic, op: Operand) -> (r: u8)
        requires
            B::valid(old(bus).model()),
            kind_of(m) == InstructionKind::Read,
        ensures
            B::valid(final(bus).model()),
            (*final(self), final(bus).model(), r) == execute_read_spec::<B>(
                m,
                op,
                *old(self),
                old(bus).model(),
            ),
    {
        match m {
            Mnemonic::Sta => Self::store_operand(bus, op, self.a),
            Mnemonic::Stx => Self::store_operand(bus, op, self.x),
            Mnemonic::Sty => Self::store_operand(bus, op, self.y),
            _ => {
                let v = self.read_operand(bus, op);
                match m {
                    Mnemonic::Lda => {
                        self.a = v;
                        self.flags = self.flags.set_nz(v);
                    },
                    Mnemonic::Ldx => {
                        self.x = v;
                        self.flags = self.flags.set_nz(v);
                    },
                    Mnemonic::Ldy => {
                        self.y = v;
                        self.flags = self.flags.set_nz(v);
                    },
                    Mnemonic::Adc => {
                        let (r, f) = adc(self.a, v, self.flags);
                        self.a = r;
                        self.flags = f;
                    },
                    Mnemonic::Sbc => {
                        let (r, f) = sbc(self.a, v, self.flags);
                        self.a = r;
                        self.flags = f;
                    },
                    Mnemonic::And => {
                        self.a = self.a & v;
                        self.flags = self.flags.set_nz(self.a);
                    },
                    Mnemonic::Ora => {
                        self.a = self.a | v;
                        self.flags = self.flags.set_nz(self.a);
                    },
                    Mnemonic::Eor => {
                        self.a = self.a ^ v;
                        self.flags = self.flags.set_nz(self.a);
                    },
                    Mnemonic::Cmp => self.flags = compare(self.a, v, self.flags),
                    Mnemonic::Cpx => self.flags = compare(self.x, v, self.flags),
                    Mnemonic::Cpy => self.flags = compare(self.y, v, self.flags),
                    _ => self.flags = bit_test(self.a, v, self.flags),
                }
            },
        }
        0
    }

    fn execute_modify<B: Memory>(&mut self, bus: &mut B, m: Mnemonic, op: Operand) -> (r: u8)
        requires
            B::valid(old(bus).model()),
            kind_of(m) == InstructionKind::Modify,
        ensures
            B::valid(final(bus).model()),
            (*final(self), final(bus).model(), r) == execute_modify_spec::<B>(
                m,
                op,
                *old(self),
                old(bus).model(),
            ),
    {
        let v = self.read_operand(bus, op);
        match m {
            Mnemonic::Inc => {
                let r = v.wrapping_add(1);
                self.flags = self.flags.set_nz(r);
                Self::store_operand(bus, op, r);
            },
            Mnemonic::Dec => {
                let r = v.wrapping_sub(1);
                self.flags = self.flags.set_nz(r);
                Self::store_operand(bus, op, r);
            },
            _ => {
                let (r, f) = match m {
                    Mnemonic::Asl => asl(v, self.flags),
                    Mnemonic::Lsr => lsr(v, self.flags),
                    Mnemonic::Rol => rol(v, self.flags),
                    _ => ror(v, self.flags),
                };
                self.flags = f;
                self.write_back(bus, op, r);
            },
        }
        0
    }

    fn execute_register<B: Memory>(&mut self, bus: &mut B, m: Mnemonic, op: Operand) -> (r: u8)
        requires
            B::valid(old(bus).model()),
            kind_of(m) == InstructionKind::Register,
        ensures
            B::valid(final(bus).model()),
            (*final(self), final(bus).model(), r) == execute_register_spec::<B>(
                m,
                op,
                *old(self),
                old(bus).model(),
            ),
    {
        match m {
            Mnemonic::Inx => {
                self.x = self.x.wrapping_add(1);
                self.flags = self.flags.set_nz(self.x);
            },
            Mnemonic::Iny => {
                self.y = self.y.wrapping_add(1);
                self.flags = self.flags.set_nz(self.y);
            },
            Mnemonic::Dex => {
                self.x = self.x.wrapping_sub(1);
                self.flags = self.flags.set_nz(self.x);
            },
            Mnemonic::Dey => {
                self.y = self.y.wrapping_sub(1);
                self.flags = self.flags.set_nz(self.y);
            },
            Mnemonic::Tax => {
                self.x = self.a;
                self.flags = self.flags.set_nz(self.a);
            },
            Mnemonic::Tay => {
                self.y = self.a;
                self.flags = self.flags.set_nz(self.a);
            },
            Mnemonic::Txa => {
                self.a = self.x;
                self.flags = self.flags.set_nz(self.x);
            },
            Mnemonic::Tya => {
                self.a = self.y;
                self.flags = self.flags.set_nz(self.y);
            },
            Mnemonic::Tsx => {
                self.x = self.sp;
                self.flags = self.flags.set_nz(self.sp);
            },
            Mnemonic::Txs => self.sp = self.x,
            Mnemonic::Clc => self.flags.carry = false,
            Mnemonic::Sec => self.flags.carry = true,
            Mnemonic::Cli => self.flags.interrupt_disable = false,
            Mnemonic::Sei => self.flags.interrupt_disable = true,
            Mnemonic::Cld => self.flags.decimal = false,
            Mnemonic::Sed => self.flags.decimal = true,
            Mnemonic::Clv => self.flags.overflow = false,
            _ => {},
        }
        0
    }

    fn jsr<B: Memory>(&mut self, bus: &mut B, op: Operand) -> (r: u8)
        requires
            B::valid(old(bus).model()),
        ensures
            B::valid(final(bus).model()),
            (*final(self), final(bus).model(), r) == execute_control_spec::<B>(
                Mnemonic::Jsr,
                op,
                *old(self),
                old(bus).model(),
            ),
    {
        let ret = self.pc.wrapping_sub(1);
        self.push(bus, (ret / 256) as u8);
        self.push(bus, (ret % 256) as u8);
        self.pc = match op {
            Operand::Address { addr, .. } => addr,
            _ => 0,
        };
        0
    }

    fn rts<B: Memory>(&mut self, bus: &mut B, op: Operand) -> (r: u8)
        requires
            B::valid(old(bus).model()),
        ensures
            B::valid(final(bus).model()),
            (*final(self), final(bus).model(), r) == execute_control_spec::<B>(
                Mnemonic::Rts,
                op,
                *old(self),
                old(bus).model(),
            ),
    {
        let lo = self.pull(bus);
        let hi = self.pull(bus);
        self.pc = return_address(lo, hi);
        0
    }

    fn rti<B: Memory>(&mut self, bus: &mut B, op: Operand) -> (r: u8)
        requires
            B::valid(old(bus).model()),
        ensures
            B::valid(final(bus).model()),
            (*final(self), final(bus).model(), r) == execute_control_spec::<B>(
                Mnemonic::Rti,
                op,
                *old(self),
                old(bus).model(),
            ),
    {
        let p = self.pull(bus);
        let lo = self.pull(bus);
        let hi = self.pull(bus);
        self.pc = word_of(lo, hi);
        self.flags = Flags::from_byte(p);
        0
    }

    fn brk<B: Memory>(&mut self, bus: &mut B, op: Operand) -> (r: u8)
        requires
            B::valid(old(bus).model()),
        ensures
            B::valid(final(bus).model()),
            (*final(self), final(bus).model(), r) == execute_control_spec::<B>(
                Mnemonic::Brk,
                op,
                *old(self),
                old(bus).model(),
            ),
    {
        let ret = self.pc.wrapping_add(1);
        assert(ret == add16(self.pc, 1));
        self.interrupt(bus, ret, true, IRQ_VECTOR);
        0
    }

    fn php<B: Memory>(&mut self, bus: &mut B, op: Operand) -> (r: u8)
        requires
            B::valid(old(bus).model()),
        ensures
            B::valid(final(bus).model()),
            (*final(self), final(bus).model(), r) == execute_control_spec::<B>(
                Mnemonic::Php,
                op,
                *old(self),
                old(bus).model(),
            ),
    {
        let p = self.flags.to_byte(true);
        self.push(bus, p);
        0
    }

    fn pla<B: Memory>(&mut self, bus: &mut B, op: Operand) -> (r: u8)
        requires
            B::valid(old(bus).model()),
        ensures
            B::valid(final(bus).model()),
            (*final(self), final(bus).model(), r) == execute_control_spec::<B>(
                Mnemonic::Pla,
                op,
                *old(self),
                old(bus).model(),
            ),
    {
        let v = self.pull(bus);
        self.a = v;
        self.flags = self.flags.set_nz(v);
        0
    }

    fn plp<B: Memory>(&mut self, bus: &mut B, op: Operand) -> (r: u8)
        requires
            B::valid(old(bus).model()),
        ensures
            B::valid(final(bus).model()),
            (*final(self), final(bus).model(), r) == execute_control_spec::<B>(
                Mnemonic::Plp,
                op,
                *old(self),
                old(bus).model(),
            ),
    {
        let v = self.pull(bus);
        self.flags = Flags::from_byte(v);
        0
    }

    fn execute_control<B: Memory>(&mut self, bus: &mut B, m: Mnemonic, op: Operand) -> (r: u8)
        requires
            B::valid(old(bus).model()),
            kind_of(m) == InstructionKind::Control,
        ensures
            B::valid(final(bus).model()),
            (*final(self), final(bus).model(), r) == execute_control_spec::<B>(
                m,
                op,
                *old(self),
                old(bus).model(),
            ),
    {
        match m {
            Mnemonic::Bpl => self.branch(bus, !self.flags.negative, op),
            Mnemonic::Bmi => self.branch(bus, self.flags.negative, op),
            Mnemonic::Bvc => self.branch(bus, !self.flags.overflow, op),
            Mnemonic::Bvs => self.branch(bus, self.flags.overflow, op),
            Mnemonic::Bcc => self.branch(bus, !self.flags.carry, op),
            Mnemonic::Bcs => self.branch(bus, self.flags.carry, op),
            Mnemonic::Bne => self.branch(bus, !self.flags.zero, op),
            Mnemonic::Beq => self.branch(bus, self.flags.zero, op),
            Mnemonic::Jmp => {
                self.pc = match op {
                    Operand::Address { addr, .. } => addr,
                    _ => 0,
                };
                0
            },
            Mnemonic::Jsr => self.jsr(bus, op),
            Mnemonic::Rts => self.rts(bus, op),
            Mnemonic::Rti => self.rti(bus, op),
            Mnemonic::Pha => {
                self.push(bus, self.a);
                0
            },
            Mnemonic::Php => self.php(bus, op),
            Mnemonic::Pla => self.pla(bus, op),
            Mnemonic::Plp => self.plp(bus, op),
            _ => self.brk(bus, op),
        }
    }

    /// Carries out one instruction whose operand is resolved; returns the
    /// extra cycles of a taken branch.
    pub fn execute<B: Memory>(&mut self, bus: &mut B, m: Mnemonic, op: Operand) -> (r: u8)
        requires
            B::valid(old(bus).model()),
        ensures
            B::valid(final(bus).model()),
            final(self).cycles == old(self).cycles,
            (*final(self), final(bus).model(), r) == execute_spec::<B>(
                m,
                op,
                *old(self),
                old(bus).model(),
            ),
    {
        proof {
            reveal(execute_spec);
        }
        match kind(m) {
            InstructionKind::Read => self.execute_read(bus, m, op),
            InstructionKind::Modify => self.execute_modify(bus, m, op),
            InstructionKind::Register => self.execute_register(bus, m, op),
            InstructionKind::Control => self.execute_control(bus, m, op),
        }
    }

    fn finish<B: Memory>(&mut self, bus: &mut B, cost: u64) -> (r: Result<u64, CpuError>)
        requires
            B::valid(old(bus).model()),
            old(self).cycles < CYCLE_LIMIT,
            cost <= 1024,
        ensures
            B::valid(final(bus).model()),
            (r, *final(self), final(bus).model()) == finish_spec::<B>(
                *old(self),
                old(bus).model(),
                cost,
            ),
    {
        proof {
            reveal(finish_spec);
        }
        let report = bus.settle();
        let total = if report.dma {
            cost + oam_dma_cycles(self.cycles + cost)
        } else {
            cost
        };
        self.cycles = self.cycles + total;
        self.nmi_pending = self.nmi_pending || report.nmi;
        match report.missing_cartridge {
            Some(addr) => Err(CpuError::MissingCartridge { addr }),
            None => Ok(total),
        }
    }

    /// Runs one step: services a pending NMI, else a due IRQ, else executes
    /// the instruction at PC. Returns the cycles taken.
    pub fn step<B: Memory>(&mut self, bus: &mut B) -> (r: Result<u64, CpuError>)
        requires
            B::valid(old(bus).model()),
            old(self).cycles < CYCLE_LIMIT,
        ensures
            B::valid(final(bus).model()),
            (r, *final(self), final(bus).model()) == step_spec::<B>(*old(self), old(bus).model()),
    {
        if self.nmi_pending {
            self.nmi_pending = false;
            let pc = self.pc;
            self.interrupt(bus, pc, false, NMI_VECTOR);
            self.finish(bus, INTERRUPT_CYCLES)
        } else if self.irq_line && !self.flags.interrupt_disable {
            let pc = self.pc;
            self.interrupt(bus, pc, false, IRQ_VECTOR);
            self.finish(bus, INTERRUPT_CYCLES)
        } else {
            self.run_instruction(bus)
        }
    }

    fn run_instruction<B: Memory>(&mut self, bus: &mut B) -> (r: Result<u64, CpuError>)
        requires
            B::valid(old(bus).model()),
            old(self).cycles < CYCLE_LIMIT,
        ensures
            B::valid(final(bus).model()),
            (r, *final(self), final(bus).model()) == instruction_step_spec::<B>(
                *old(self),
                old(bus).model(),
            ),
    {
        let pc = self.pc;
        let opcode = bus.load(pc);
        let ins = decode(opcode);
        if let Mnemonic::Illegal = ins.mnemonic {
            return Err(CpuError::IllegalOpcode { opcode, pc });
        }
        self.pc = pc.wrapping_add(1);
        let op = self.resolve(bus, ins.addressing_mode);
        let extra = self.execute(bus, ins.mnemonic, op);
        let crossed = match op {
            Operand::Address { crossed, .. } => crossed,
            _ => false,
        };
        let penalty: u64 = if ins.page_cross_penalty && crossed {
            1
        } else {
            0
        };
        self.finish(bus, ins.cycles as u64 + extra as u64 + penalty)
    }

    /// Cold start: A, X, Y cleared, SP = 0xFD, P = 0x24, PC from the reset
    /// vector at 0xFFFC/0xFFFD, cycle counter 7.
    pub fn reset<B: Memory>(&mut self, bus: &mut B)
        requires
            B::valid(old(bus).model()),
        ensures
            B::valid(final(bus).model()),
            (*final(self), final(bus).model()) == reset_spec::<B>(*old(self), old(bus).model()),
    {
        let lo = bus.load(RESET_VECTOR);
        let hi = bus.load(RESET_VECTOR + 1);
        self.a = 0;
        self.x = 0;
        self.y = 0;
        self.sp = 0xFD;
        self.pc = word_of(lo, hi);
        self.flags = Flags::from_byte(0x24);
        self.cycles = INTERRUPT_CYCLES;
    }
}

} // verus!
