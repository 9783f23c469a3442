//! The PPU as the CPU bus sees it: eight registers, the OAM-DMA port and the
//! NMI output. `PpuRegisters` is a register file for hosts whose renderer
//! reads the values the CPU wrote.
use vstd::prelude::*;

verus! {

/// The CPU-facing side of a PPU. `reg` is the register number, 0..=7.
pub trait PpuPort: Sized {
    type State;

    spec fn model(&self) -> Self::State;

    spec fn valid(s: Self::State) -> bool;

    /// A CPU read, which may have side effects (status, data port).
    spec fn read_register_spec(s: Self::State, reg: u8) -> (u8, Self::State);

    /// What a read would return, without side effects.
    spec fn peek_register_spec(s: Self::State, reg: u8) -> u8;

    spec fn write_register_spec(s: Self::State, reg: u8, value: u8) -> Self::State;

    /// One byte of an OAM-DMA transfer.
    spec fn write_oam_spec(s: Self::State, value: u8) -> Self::State;

    /// Whether an NMI edge was raised since the last call, and the state
    /// after clearing it.
    spec fn nmi_take_spec(s: Self::State) -> (bool, Self::State);

    fn read_register(&mut self, reg: u8) -> (r: u8)
        requires
            Self::valid(old(self).model()),
            reg < 8,
        ensures
            Self::valid(final(self).model()),
            (r, final(self).model()) == Self::read_register_spec(old(self).model(), reg),
    ;

    fn read_register_no_side_effect(&self, reg: u8) -> (r: u8)
        requires
            Self::valid(self.model()),
            reg < 8,
        ensures
            r == Self::peek_register_spec(self.model(), reg),
    ;

    fn write_register(&mut self, reg: u8, value: u8)
        requires
            Self::valid(old(self).model()),
            reg < 8,
        ensures
            Self::valid(final(self).model()),
            final(self).model() == Self::write_register_spec(old(self).model(), reg, value),
    ;

    fn write_oam_byte(&mut self, value: u8)
        requires
            Self::valid(old(self).model()),
        ensures
            Self::valid(final(self).model()),
            final(self).model() == Self::write_oam_spec(old(self).model(), value),
    ;

    fn nmi_take(&mut self) -> (r: bool)
        requires
            Self::valid(old(self).model()),
        ensures
            Self::valid(final(self).model()),
            (r, final(self).model()) == Self::nmi_take_spec(old(self).model()),
    ;
}

pub const PPUCTRL: u8 = 0;
pub const PPUSTATUS: u8 = 2;
pub const OAMADDR: u8 = 3;
pub const OAMDATA: u8 = 4;
pub const OAM_SIZE: usize = 256;

/// The registers as last written, the status byte, OAM and the NMI output.
pub struct PpuRegisters {
    /// Last value written to each register.
    pub written: Vec<u8>,
    pub status: u8,
    pub oam: Vec<u8>,
    pub oam_addr: u8,
    /// Last value that crossed the data bus; unreadable registers return it.
    pub latch: u8,
    pub nmi_raised: bool,
}

pub struct PpuState {
    pub written: Seq<u8>,
    pub status: u8,
    pub oam: Seq<u8>,
    pub oam_addr: u8,
    pub latch: u8,
    pub nmi_raised: bool,
}

pub open spec fn oam_store(s: PpuState, value: u8) -> PpuState {
    PpuState {
        oam: s.oam.update(s.oam_addr as int, value),
        oam_addr: ((s.oam_addr + 1) % 256) as u8,
        ..s
    }
}

pub open spec fn status_read_value(s: PpuState, reg: u8) -> u8 {
    if reg == PPUSTATUS {
        s.status
    } else if reg == OAMDATA {
        s.oam[s.oam_addr as int]
    } else {
        s.latch
    }
}

impl PpuRegisters {
    pub open spec fn state(&self) -> PpuState {
        PpuState {
            written: self.written@,
            status: self.status,
            oam: self.oam@,
            oam_addr: self.oam_addr,
            latch: self.latch,
            nmi_raised: self.nmi_raised,
        }
    }

    pub fn new() -> (r: PpuRegisters)
        ensures
            r.written@ == Seq::new(8, |i: int| 0u8),
            r.oam@ == Seq::new(OAM_SIZE as nat, |i: int| 0u8),
            r.status == 0 && r.oam_addr == 0 && r.latch == 0 && !r.nmi_raised,
    {
        let written = vec![0u8; 8];
        let oam = vec![0u8; OAM_SIZE];
        proof {
            assert(written@ =~= Seq::new(8, |i: int| 0u8));
            assert(oam@ =~= Seq::new(OAM_SIZE as nat, |i: int| 0u8));
        }
        PpuRegisters { written, status: 0, oam, oam_addr: 0, latch: 0, nmi_raised: false }
    }

    /// Start (`true`) or end of vertical blank, as the renderer reports it:
    /// sets or clears status bit 7, and at the start raises an NMI when
    /// PPUCTRL bit 7 is set.
    pub fn set_vblank(&mut self, on: bool)
        requires
            old(self).written@.len() == 8,
        ensures
            final(self).state() == (PpuState {
                status: if on {
                    (old(self).status % 128 + 128) as u8
                } else {
                    (old(self).status % 128) as u8
                },
                nmi_raised: old(self).nmi_raised || (on && old(self).written@[PPUCTRL as int]
                    >= 128),
                ..old(self).state()
            }),
    {
        if on {
            self.status = self.status % 128 + 128;
            if self.written[PPUCTRL as usize] >= 128 {
                self.nmi_raised = true;
            }
        } else {
            self.status = self.status % 128;
        }
    }
}

impl PpuPort for PpuRegisters {
    type State = PpuState;

    open spec fn model(&self) -> PpuState {
        self.state()
    }

    open spec fn valid(s: PpuState) -> bool {
        s.written.len() == 8 && s.oam.len() == OAM_SIZE
    }

    /// Reading the status clears its vblank bit.
    open spec fn read_register_spec(s: PpuState, reg: u8) -> (u8, PpuState) {
        let v = status_read_value(s, reg);
        if reg == PPUSTATUS {
            (v, PpuState { status: (s.status % 128) as u8, latch: v, ..s })
        } else {
            (v, PpuState { latch: v, ..s })
        }
    }

    open spec fn peek_register_spec(s: PpuState, reg: u8) -> u8 {
        status_read_value(s, reg)
    }

    open spec fn write_register_spec(s: PpuState, reg: u8, value: u8) -> PpuState {
        let s1 = PpuState { written: s.written.update(reg as int, value), latch: value, ..s };
        if reg == OAMADDR {
            PpuState { oam_addr: value, ..s1 }
        } else if reg == OAMDATA {
            oam_store(s1, value)
        } else {
            s1
        }
    }

    open spec fn write_oam_spec(s: PpuState, value: u8) -> PpuState {
        oam_store(s, value)
    }

    open spec fn nmi_take_spec(s: PpuState) -> (bool, PpuState) {
        (s.nmi_raised, PpuState { nmi_raised: false, ..s })
    }

    fn read_register(&mut self, reg: u8) -> (r: u8) {
        let v = if reg == PPUSTATUS {
            self.status
        } else if reg == OAMDATA {
            self.oam[self.oam_addr as usize]
        } else {
            self.latch
        };
        if reg == PPUSTATUS {
            self.status = self.status % 128;
        }
        self.latch = v;
        v
    }

    fn read_register_no_side_effect(&self, reg: u8) -> (r: u8) {
        if reg == PPUSTATUS {
            self.status
        } else if reg == OAMDATA {
            self.oam[self.oam_addr as usize]
        } else {
            self.latch
        }
    }

    fn write_register(&mut self, reg: u8, value: u8) {
        self.written.set(reg as usize, value);
        self.latch = value;
        if reg == OAMADDR {
            self.oam_addr = value;
        } else if reg == OAMDATA {
            self.write_oam_byte(value);
        }
    }

    fn write_oam_byte(&mut self, value: u8) {
        self.oam.set(self.oam_addr as usize, value);
        self.oam_addr = self.oam_addr.wrapping_add(1);
    }

    fn nmi_take(&mut self) -> (r: bool) {
        let r = self.nmi_raised;
        self.nmi_raised = false;
        r
    }
}

} // verus!
