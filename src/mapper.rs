//! The cartridge mapper as the CPU bus sees it, and NROM, the mapper of
//! cartridges without bank switching.
use vstd::prelude::*;

verus! {

pub const CARTRIDGE_START: u16 = 0x4020;

/// Program-memory side of a cartridge mapper, for `addr` in 0x4020..=0xFFFF.
pub trait Mapper: Sized {
    type State;

    spec fn model(&self) -> Self::State;

    spec fn valid(s: Self::State) -> bool;

    spec fn prg_read_spec(s: Self::State, addr: u16) -> u8;

    /// The state after a write; a mapper may drop writes to read-only areas.
    spec fn prg_write_spec(s: Self::State, addr: u16, value: u8) -> Self::State;

    fn read_prg(&self, addr: u16) -> (r: u8)
        requires
            Self::valid(self.model()),
            addr >= CARTRIDGE_START,
        ensures
            r == Self::prg_read_spec(self.model(), addr),
    ;

    fn write_prg(&mut self, addr: u16, value: u8)
        requires
            Self::valid(old(self).model()),
            addr >= CARTRIDGE_START,
        ensures
            Self::valid(final(self).model()),
            final(self).model() == Self::prg_write_spec(old(self).model(), addr, value),
    ;
}

pub const PRG_BANK_SIZE: usize = 0x4000;
pub const PRG_RAM_SIZE: usize = 0x2000;

/// NROM: 16 KiB or 32 KiB of PRG ROM at 0x8000 (16 KiB mirrored), 8 KiB of
/// PRG RAM at 0x6000. Writes to ROM are dropped; 0x4020..0x5FFF reads 0.
pub struct Nrom {
    pub prg_rom: Vec<u8>,
    pub prg_ram: Vec<u8>,
}

pub open spec fn nrom_read(rom: Seq<u8>, ram: Seq<u8>, addr: u16) -> u8 {
    if addr >= 0x8000 {
        rom[(addr - 0x8000) % rom.len() as int]
    } else if addr >= 0x6000 {
        ram[addr - 0x6000]
    } else {
        0
    }
}

impl Nrom {
    /// An NROM cartridge over `prg_rom`, or `None` unless it holds one or two
    /// 16 KiB banks.
    pub fn new(prg_rom: Vec<u8>) -> (r: Option<Nrom>)
        ensures
            r.is_some() <==> (prg_rom@.len() == PRG_BANK_SIZE || prg_rom@.len() == 2
                * PRG_BANK_SIZE),
            r matches Some(n) ==> n.prg_rom@ == prg_rom@ && n.prg_ram@ == Seq::new(
                PRG_RAM_SIZE as nat,
                |i: int| 0u8,
            ),
    {
        if prg_rom.len() == PRG_BANK_SIZE || prg_rom.len() == 2 * PRG_BANK_SIZE {
            let prg_ram = vec![0u8; PRG_RAM_SIZE];
            proof {
                assert(prg_ram@ =~= Seq::new(PRG_RAM_SIZE as nat, |i: int| 0u8));
            }
            Some(Nrom { prg_rom, prg_ram })
        } else {
            None
        }
    }
}

impl Mapper for Nrom {
    type State = (Seq<u8>, Seq<u8>);

    open spec fn model(&self) -> (Seq<u8>, Seq<u8>) {
        (self.prg_rom@, self.prg_ram@)
    }

    open spec fn valid(s: (Seq<u8>, Seq<u8>)) -> bool {
        &&& (s.0.len() == PRG_BANK_SIZE || s.0.len() == 2 * PRG_BANK_SIZE)
        &&& s.1.len() == PRG_RAM_SIZE
    }

    open spec fn prg_read_spec(s: (Seq<u8>, Seq<u8>), addr: u16) -> u8 {
        nrom_read(s.0, s.1, addr)
    }

    open spec fn prg_write_spec(s: (Seq<u8>, Seq<u8>), addr: u16, value: u8) -> (
        Seq<u8>,
        Seq<u8>,
    ) {
        if 0x6000 <= addr < 0x8000 {
            (s.0, s.1.update(addr - 0x6000, value))
        } else {
            s
        }
    }

    fn read_prg(&self, addr: u16) -> (r: u8) {
        if addr >= 0x8000 {
            self.prg_rom[(addr as usize - 0x8000) % self.prg_rom.len()]
        } else if addr >= 0x6000 {
            self.prg_ram[addr as usize - 0x6000]
        } else {
            0
        }
    }

    fn write_prg(&mut self, addr: u16, value: u8) {
        if 0x6000 <= addr && addr < 0x8000 {
            self.prg_ram.set(addr as usize - 0x6000, value);
        }
    }
}

} // verus!
