//! The memory the CPU runs against, described by a model that a spec of each
//! access updates: reads may change state (PPU registers, controller ports).
use vstd::prelude::*;

verus! {

/// What the memory reports to the CPU at the end of an instruction.
#[derive(Clone, Copy, Debug, PartialEq, Eq, Structural)]
pub struct BusReport {
    /// An OAM-DMA was triggered during the instruction.
    pub dma: bool,
    /// The PPU raised an NMI edge.
    pub nmi: bool,
    /// First cartridge-space address touched while no mapper was installed.
    pub missing_cartridge: Option<u16>,
}

/// A 16-bit address space seen by the CPU.
pub trait Memory: Sized {
    /// The abstract state of the memory.
    type State;

    spec fn model(&self) -> Self::State;

    /// The states on which the memory can be accessed.
    spec fn valid(s: Self::State) -> bool;

    /// What a read at `addr` returns, and the state after it.
    spec fn load_spec(s: Self::State, addr: u16) -> (u8, Self::State);

    /// The state after a write of `value` at `addr`.
    spec fn store_spec(s: Self::State, addr: u16, value: u8) -> Self::State;

    /// What the end of an instruction reports, and the state after it.
    spec fn settle_spec(s: Self::State) -> (BusReport, Self::State);

    fn load(&mut self, addr: u16) -> (r: u8)
        requires
            Self::valid(old(self).model()),
        ensures
            Self::valid(final(self).model()),
            (r, final(self).model()) == Self::load_spec(old(self).model(), addr),
    ;

    fn store(&mut self, addr: u16, value: u8)
        requires
            Self::valid(old(self).model()),
        ensures
            Self::valid(final(self).model()),
            final(self).model() == Self::store_spec(old(self).model(), addr, value),
    ;

    fn settle(&mut self) -> (r: BusReport)
        requires
            Self::valid(old(self).model()),
        ensures
            Self::valid(final(self).model()),
            (r, final(self).model()) == Self::settle_spec(old(self).model()),
    ;
}

pub const MEMORY_SIZE: usize = 0x10000;

/// A plain 64 KiB RAM over the whole address space, with no side effects:
/// the memory that per-opcode reference vectors assume.
pub struct FlatMemory {
    pub data: Vec<u8>,
}

impl FlatMemory {
    pub open spec fn wf(&self) -> bool {
        self.data@.len() == MEMORY_SIZE
    }

    pub fn new() -> (r: FlatMemory)
        ensures
            r.wf(),
            forall|i: int| 0 <= i < MEMORY_SIZE ==> r.data@[i] == 0,
    {
        FlatMemory { data: vec![0u8; MEMORY_SIZE] }
    }

    pub fn peek(&self, addr: u16) -> (r: u8)
        requires
            self.wf(),
        ensures
            r == self.data@[addr as int],
    {
        self.data[addr as usize]
    }

    pub fn poke(&mut self, addr: u16, value: u8)
        requires
            old(self).wf(),
        ensures
            final(self).wf(),
            final(self).data@ == old(self).data@.update(addr as int, value),
    {
        self.data.set(addr as usize, value);
    }
}

pub open spec fn quiet_report() -> BusReport {
    BusReport { dma: false, nmi: false, missing_cartridge: None }
}

impl Memory for FlatMemory {
    type State = Seq<u8>;

    open spec fn model(&self) -> Seq<u8> {
        self.data@
    }

    open spec fn valid(s: Seq<u8>) -> bool {
        s.len() == MEMORY_SIZE
    }

    open spec fn load_spec(s: Seq<u8>, addr: u16) -> (u8, Seq<u8>) {
        (s[addr as int], s)
    }

    open spec fn store_spec(s: Seq<u8>, addr: u16, value: u8) -> Seq<u8> {
        s.update(addr as int, value)
    }

    open spec fn settle_spec(s: Seq<u8>) -> (BusReport, Seq<u8>) {
        (quiet_report(), s)
    }

    fn load(&mut self, addr: u16) -> (r: u8) {
        self.data[addr as usize]
    }

    fn store(&mut self, addr: u16, value: u8) {
        self.data.set(addr as usize, value);
    }

    fn settle(&mut self) -> (r: BusReport) {
        BusReport { dma: false, nmi: false, missing_cartridge: None }
    }
}

} // verus!
