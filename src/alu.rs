//! Arithmetic and flag rules of the 6502, on plain bytes.
use vstd::prelude::*;

verus! {

/// The status flags held in the `P` register. B and U are not stored: they
/// exist only in the byte that is pushed or assembled.
#[derive(Clone, Copy, Debug, PartialEq, Eq, Structural)]
pub struct Flags {
    pub carry: bool,
    pub zero: bool,
    pub interrupt_disable: bool,
    pub decimal: bool,
    pub overflow: bool,
    pub negative: bool,
}

pub open spec fn bit(b: bool) -> int {
    if b {
        1
    } else {
        0
    }
}

/// Whether the bit of weight `weight` (a power of two) is set in `v`.
pub open spec fn has_bit(v: u8, weight: int) -> bool {
    (v as int / weight) % 2 == 1
}

/// The status byte: N V U B D I Z C from bit 7 down to bit 0, U always 1.
pub open spec fn status_byte(f: Flags, brk: bool) -> u8 {
    (bit(f.negative) * 128 + bit(f.overflow) * 64 + 32 + bit(brk) * 16 + bit(f.decimal) * 8
        + bit(f.interrupt_disable) * 4 + bit(f.zero) * 2 + bit(f.carry)) as u8
}

/// The flags read back from a status byte; bits 4 and 5 are ignored.
pub open spec fn flags_of_byte(v: u8) -> Flags {
    Flags {
        carry: has_bit(v, 1),
        zero: has_bit(v, 2),
        interrupt_disable: has_bit(v, 4),
        decimal: has_bit(v, 8),
        overflow: has_bit(v, 64),
        negative: has_bit(v, 128),
    }
}

pub open spec fn is_negative(v: u8) -> bool {
    v >= 128
}

/// N and Z taken from a result byte.
pub open spec fn with_nz(f: Flags, v: u8) -> Flags {
    Flags { zero: v == 0, negative: is_negative(v), ..f }
}

/// ADC: `r = A + M + C`; C is the carry out of bit 7, V is set when the sign
/// of `r` differs from the signs of both operands.
pub open spec fn adc_spec(a: u8, m: u8, f: Flags) -> (u8, Flags) {
    let sum = a + m + bit(f.carry);
    let r = (sum % 256) as u8;
    let v = is_negative(a) != is_negative(r) && is_negative(m) != is_negative(r);
    (r, with_nz(Flags { carry: sum > 255, overflow: v, ..f }, r))
}

/// SBC is ADC with the operand's one's complement.
pub open spec fn sbc_spec(a: u8, m: u8, f: Flags) -> (u8, Flags) {
    adc_spec(a, (255 - m) as u8, f)
}

/// CMP, CPX, CPY: C when `reg >= m`, Z when equal, N from bit 7 of `reg - m`.
pub open spec fn compare_spec(reg: u8, m: u8, f: Flags) -> Flags {
    let r = ((reg - m + 256) % 256) as u8;
    Flags { carry: reg >= m, zero: reg == m, negative: is_negative(r), ..f }
}

pub open spec fn asl_spec(v: u8, f: Flags) -> (u8, Flags) {
    let r = ((v * 2) % 256) as u8;
    (r, with_nz(Flags { carry: is_negative(v), ..f }, r))
}

pub open spec fn lsr_spec(v: u8, f: Flags) -> (u8, Flags) {
    let r = (v / 2) as u8;
    (r, with_nz(Flags { carry: v % 2 == 1, ..f }, r))
}

pub open spec fn rol_spec(v: u8, f: Flags) -> (u8, Flags) {
    let r = ((v * 2) % 256 + bit(f.carry)) as u8;
    (r, with_nz(Flags { carry: is_negative(v), ..f }, r))
}

pub open spec fn ror_spec(v: u8, f: Flags) -> (u8, Flags) {
    let r = (v / 2 + 128 * bit(f.carry)) as u8;
    (r, with_nz(Flags { carry: v % 2 == 1, ..f }, r))
}

/// BIT: Z from `A & M`, N and V copied from bits 7 and 6 of `M`.
pub open spec fn bit_test_spec(a: u8, m: u8, f: Flags) -> Flags {
    Flags { zero: a & m == 0, negative: is_negative(m), overflow: has_bit(m, 64), ..f }
}

pub open spec fn inc8(v: u8) -> u8 {
    ((v + 1) % 256) as u8
}

pub open spec fn dec8(v: u8) -> u8 {
    ((v + 255) % 256) as u8
}

impl Flags {
    /// The flags after reset: only I set.
    pub fn new() -> (f: Flags)
        ensures
            f == flags_of_byte(0x24),
    {
        Flags {
            carry: false,
            zero: false,
            interrupt_disable: true,
            decimal: false,
            overflow: false,
            negative: false,
        }
    }

    /// Assembles the status byte, with B as given and U set.
    pub fn to_byte(self, brk: bool) -> (r: u8)
        ensures
            r == status_byte(self, brk),
    {
        let mut r: u8 = 32;
        if self.negative {
            r = r + 128;
        }
        if self.overflow {
            r = r + 64;
        }
        if brk {
            r = r + 16;
        }
        if self.decimal {
            r = r + 8;
        }
        if self.interrupt_disable {
            r = r + 4;
        }
        if self.zero {
            r = r + 2;
        }
        if self.carry {
            r = r + 1;
        }
        r
    }

    /// Reads the flags from a status byte, ignoring bits 4 and 5.
    pub fn from_byte(v: u8) -> (f: Flags)
        ensures
            f == flags_of_byte(v),
    {
        Flags {
            carry: v % 2 == 1,
            zero: (v / 2) % 2 == 1,
            interrupt_disable: (v / 4) % 2 == 1,
            decimal: (v / 8) % 2 == 1,
            overflow: (v / 64) % 2 == 1,
            negative: v >= 128,
        }
    }

    pub fn set_nz(self, v: u8) -> (f: Flags)
        ensures
            f == with_nz(self, v),
    {
        Flags { zero: v == 0, negative: v >= 128, ..self }
    }
}

pub fn adc(a: u8, m: u8, f: Flags) -> (r: (u8, Flags))
    ensures
        r == adc_spec(a, m, f),
{
    let sum: u16 = a as u16 + m as u16 + if f.carry {
        1
    } else {
        0
    };
    let r = (sum % 256) as u8;
    let v = (a >= 128) != (r >= 128) && (m >= 128) != (r >= 128);
    (r, Flags { carry: sum > 255, overflow: v, ..f }.set_nz(r))
}

pub fn sbc(a: u8, m: u8, f: Flags) -> (r: (u8, Flags))
    ensures
        r == sbc_spec(a, m, f),
{
    adc(a, 255 - m, f)
}

pub fn compare(reg: u8, m: u8, f: Flags) -> (r: Flags)
    ensures
        r == compare_spec(reg, m, f),
{
    let d = reg.wrapping_sub(m);
    Flags { carry: reg >= m, zero: reg == m, negative: d >= 128, ..f }
}

pub fn asl(v: u8, f: Flags) -> (r: (u8, Flags))
    ensures
        r == asl_spec(v, f),
{
    let r = ((v as u16 * 2) % 256) as u8;
    (r, Flags { carry: v >= 128, ..f }.set_nz(r))
}

pub fn lsr(v: u8, f: Flags) -> (r: (u8, Flags))
    ensures
        r == lsr_spec(v, f),
{
    let r = v / 2;
    (r, Flags { carry: v % 2 == 1, ..f }.set_nz(r))
}

pub fn rol(v: u8, f: Flags) -> (r: (u8, Flags))
    ensures
        r == rol_spec(v, f),
{
    let r = ((v as u16 * 2) % 256) as u8 + if f.carry {
        1
    } else {
        0
    };
    (r, Flags { carry: v >= 128, ..f }.set_nz(r))
}

pub fn ror(v: u8, f: Flags) -> (r: (u8, Flags))
    ensures
        r == ror_spec(v, f),
{
    let r = v / 2 + if f.carry {
        128
    } else {
        0
    };
    (r, Flags { carry: v % 2 == 1, ..f }.set_nz(r))
}

pub fn bit_test(a: u8, m: u8, f: Flags) -> (r: Flags)
    ensures
        r == bit_test_spec(a, m, f),
{
    Flags { zero: a & m == 0, negative: m >= 128, overflow: (m / 64) % 2 == 1, ..f }
}

/// The byte pushed by PHP or BRK (`brk`) and by a hardware interrupt: U is
/// always 1, B is 1 exactly in the copies pushed by PHP and BRK, and reading
/// the byte back gives the flags unchanged.
pub proof fn lemma_status_byte_round_trip(f: Flags, brk: bool)
    ensures
        has_bit(status_byte(f, brk), 32),
        has_bit(status_byte(f, brk), 16) == brk,
        flags_of_byte(status_byte(f, brk)) == f,
{
}

} // verus!
