//! The NES CPU bus: routes each 16-bit address to work RAM, the PPU
//! registers, APU/IO latches, the controller ports or the cartridge mapper.
use vstd::prelude::*;
use crate::controller::{Controller, shift_out_spec, strobe_spec, peek_bit_spec};
use crate::mapper::{Mapper, CARTRIDGE_START};
use crate::memory::{BusReport, Memory};
use crate::ppu::PpuPort;

verus! {

pub const RAM_SIZE: usize = 0x800;
pub const IO_SIZE: usize = 0x20;
pub const PPU_START: u16 = 0x2000;
pub const IO_START: u16 = 0x4000;
pub const OAM_DMA: u16 = 0x4014;
pub const JOYPAD1: u16 = 0x4016;
pub const JOYPAD2: u16 = 0x4017;

pub struct Bus<P: PpuPort, M: Mapper> {
    /// 2 KiB of work RAM, mirrored up to 0x1FFF.
    pub ram: Vec<u8>,
    /// Last value written to each of 0x4000..=0x401F.
    pub io: Vec<u8>,
    pub ppu: P,
    /// Absent until a cartridge is loaded.
    pub mapper: Option<M>,
    pub port1: Controller,
    pub port2: Controller,
    /// An OAM-DMA ran since the last report.
    pub dma_triggered: bool,
    /// First cartridge address touched with no mapper since the last report.
    pub missing_cartridge: Option<u16>,
}

/// The abstract state of a bus.
pub struct BusState<PS, MS> {
    pub ram: Seq<u8>,
    pub io: Seq<u8>,
    pub ppu: PS,
    pub mapper: Option<MS>,
    pub port1: Controller,
    pub port2: Controller,
    pub dma: bool,
    pub missing: Option<u16>,
}

pub open spec fn bus_valid<P: PpuPort, M: Mapper>(s: BusState<P::State, M::State>) -> bool {
    &&& s.ram.len() == RAM_SIZE
    &&& s.io.len() == IO_SIZE
    &&& P::valid(s.ppu)
    &&& s.mapper matches Some(m) ==> M::valid(m)
}

/// RAM cell behind an address below 0x2000: 2 KiB mirroring.
pub open spec fn ram_index(addr: u16) -> int {
    addr as int % RAM_SIZE as int
}

/// PPU register behind an address in 0x2000..0x3FFF: 8-byte mirroring.
pub open spec fn ppu_register(addr: u16) -> u8 {
    (addr % 8) as u8
}

pub open spec fn note_missing(m: Option<u16>, addr: u16) -> Option<u16> {
    match m {
        Some(a) => Some(a),
        None => Some(addr),
    }
}

/// A read on the normal (mutating) path.
pub open spec fn read_spec<P: PpuPort, M: Mapper>(s: BusState<P::State, M::State>, addr: u16) -> (
    u8,
    BusState<P::State, M::State>,
) {
    if addr < PPU_START {
        (s.ram[ram_index(addr)], s)
    } else if addr < IO_START {
        let (v, p1) = P::read_register_spec(s.ppu, ppu_register(addr));
        (v, BusState { ppu: p1, ..s })
    } else if addr == JOYPAD1 {
        let (v, c1) = shift_out_spec(s.port1);
        (v, BusState { port1: c1, ..s })
    } else if addr == JOYPAD2 {
        let (v, c1) = shift_out_spec(s.port2);
        (v, BusState { port2: c1, ..s })
    } else if addr < CARTRIDGE_START {
        (s.io[addr - IO_START], s)
    } else {
        match s.mapper {
            Some(m) => (M::prg_read_spec(m, addr), s),
            None => (0, BusState { missing: note_missing(s.missing, addr), ..s }),
        }
    }
}

/// A read without side effects, for debuggers and disassemblers.
pub open spec fn peek_spec<P: PpuPort, M: Mapper>(s: BusState<P::State, M::State>, addr: u16) -> u8 {
    if addr < PPU_START {
        s.ram[ram_index(addr)]
    } else if addr < IO_START {
        P::peek_register_spec(s.ppu, ppu_register(addr))
    } else if addr == JOYPAD1 {
        peek_bit_spec(s.port1)
    } else if addr == JOYPAD2 {
        peek_bit_spec(s.port2)
    } else if addr < CARTRIDGE_START {
        s.io[addr - IO_START]
    } else {
        match s.mapper {
            Some(m) => M::prg_read_spec(m, addr),
            None => 0,
        }
    }
}

/// OAM-DMA from byte `i` on: each byte of page `page` is read on the normal
/// path and handed to the PPU's OAM.
pub open spec fn dma_spec<P: PpuPort, M: Mapper>(
    s: BusState<P::State, M::State>,
    page: u8,
    i: int,
) -> BusState<P::State, M::State>
    decreases 256 - i,
{
    if i >= 256 || i < 0 {
        s
    } else {
        let (v, s1) = read_spec::<P, M>(s, (page * 256 + i) as u16);
        dma_spec::<P, M>(BusState { ppu: P::write_oam_spec(s1.ppu, v), ..s1 }, page, i + 1)
    }
}

pub open spec fn write_spec<P: PpuPort, M: Mapper>(
    s: BusState<P::State, M::State>,
    addr: u16,
    value: u8,
) -> BusState<P::State, M::State> {
    if addr < PPU_START {
        BusState { ram: s.ram.update(ram_index(addr), value), ..s }
    } else if addr < IO_START {
        BusState { ppu: P::write_register_spec(s.ppu, ppu_register(addr), value), ..s }
    } else if addr < CARTRIDGE_START {
        let s1 = BusState { io: s.io.update(addr - IO_START, value), ..s };
        if addr == OAM_DMA {
            dma_spec::<P, M>(BusState { dma: true, ..s1 }, value, 0)
        } else if addr == JOYPAD1 {
            let on = value % 2 == 1;
            BusState { port1: strobe_spec(s1.port1, on), port2: strobe_spec(s1.port2, on), ..s1 }
        } else {
            s1
        }
    } else {
        match s.mapper {
            Some(m) => BusState { mapper: Some(M::prg_write_spec(m, addr, value)), ..s },
            None => BusState { missing: note_missing(s.missing, addr), ..s },
        }
    }
}

/// End of an instruction: report DMA, NMI and a missing cartridge, and
/// clear them.
pub open spec fn settle_spec<P: PpuPort, M: Mapper>(s: BusState<P::State, M::State>) -> (
    BusReport,
    BusState<P::State, M::State>,
) {
    let (nmi, p1) = P::nmi_take_spec(s.ppu);
    (
        BusReport { dma: s.dma, nmi, missing_cartridge: s.missing },
        BusState { ppu: p1, dma: false, missing: None, ..s },
    )
}

impl<P: PpuPort, M: Mapper> Bus<P, M> {
    pub open spec fn state(&self) -> BusState<P::State, M::State> {
        BusState {
            ram: self.ram@,
            io: self.io@,
            ppu: self.ppu.model(),
            mapper: match self.mapper {
                Some(m) => Some(m.model()),
                None => None,
            },
            port1: self.port1,
            port2: self.port2,
            dma: self.dma_triggered,
            missing: self.missing_cartridge,
        }
    }

    pub open spec fn wf(&self) -> bool {
        bus_valid::<P, M>(self.state())
    }

    /// A bus with cleared RAM and latches, idle controllers and no cartridge.
    pub fn new(ppu: P) -> (r: Self)
        requires
            P::valid(ppu.model()),
        ensures
            r.wf(),
            r.state() == (BusState::<P::State, M::State> {
                ram: Seq::new(RAM_SIZE as nat, |i: int| 0u8),
                io: Seq::new(IO_SIZE as nat, |i: int| 0u8),
                ppu: ppu.model(),
                mapper: None,
                port1: Controller { buttons: 0, shifter: 0, strobe: false },
                port2: Controller { buttons: 0, shifter: 0, strobe: false },
                dma: false,
                missing: None,
            }),
    {
        let ram = vec![0u8; RAM_SIZE];
        let io = vec![0u8; IO_SIZE];
        proof {
            assert(ram@ =~= Seq::new(RAM_SIZE as nat, |i: int| 0u8));
            assert(io@ =~= Seq::new(IO_SIZE as nat, |i: int| 0u8));
        }
        Bus {
            ram,
            io,
            ppu,
            mapper: None,
            port1: Controller::new(),
            port2: Controller::new(),
            dma_triggered: false,
            missing_cartridge: None,
        }
    }

    /// Installs the cartridge's mapper.
    pub fn insert_mapper(&mut self, mapper: M)
        requires
            old(self).wf(),
            M::valid(mapper.model()),
        ensures
            final(self).wf(),
            final(self).state() == (BusState { mapper: Some(mapper.model()), ..old(self).state() }),
    {
        self.mapper = Some(mapper);
    }

    /// Sets the live buttons of controller `port` (0 or 1).
    pub fn set_buttons(&mut self, port: u8, buttons: u8)
        requires
            old(self).wf(),
            port < 2,
        ensures
            final(self).wf(),
            final(self).state() == if port == 0 {
                BusState { port1: Controller { buttons, ..old(self).port1 }, ..old(self).state() }
            } else {
                BusState { port2: Controller { buttons, ..old(self).port2 }, ..old(self).state() }
            },
    {
        if port == 0 {
            self.port1.set_buttons(buttons);
        } else {
            self.port2.set_buttons(buttons);
        }
    }

    fn note_missing(&mut self, addr: u16)
        ensures
            final(self).state() == (BusState {
                missing: note_missing(old(self).missing_cartridge, addr),
                ..old(self).state()
            }),
    {
        if self.missing_cartridge.is_none() {
            self.missing_cartridge = Some(addr);
        }
    }

    /// Reads a byte on the normal path: PPU registers and controller ports
    /// may change state.
    pub fn read(&mut self, addr: u16) -> (r: u8)
        requires
            old(self).wf(),
        ensures
            final(self).wf(),
            (r, final(self).state()) == read_spec::<P, M>(old(self).state(), addr),
    {
        if addr < PPU_START {
            self.ram[(addr % 0x800) as usize]
        } else if addr < IO_START {
            self.ppu.read_register((addr % 8) as u8)
        } else if addr == JOYPAD1 {
            self.port1.shift_out()
        } else if addr == JOYPAD2 {
            self.port2.shift_out()
        } else if addr < CARTRIDGE_START {
            self.io[(addr - IO_START) as usize]
        } else {
            match &self.mapper {
                Some(m) => m.read_prg(addr),
                None => {
                    self.note_missing(addr);
                    0
                },
            }
        }
    }

    /// Reads a byte without side effects. Cartridge space needs a mapper.
    pub fn read_only(&self, addr: u16) -> (r: u8)
        requires
            self.wf(),
            addr < CARTRIDGE_START || self.mapper.is_some(),
        ensures
            r == peek_spec::<P, M>(self.state(), addr),
    {
        if addr < PPU_START {
            self.ram[(addr % 0x800) as usize]
        } else if addr < IO_START {
            self.ppu.read_register_no_side_effect((addr % 8) as u8)
        } else if addr == JOYPAD1 {
            self.port1.peek_bit()
        } else if addr == JOYPAD2 {
            self.port2.peek_bit()
        } else if addr < CARTRIDGE_START {
            self.io[(addr - IO_START) as usize]
        } else {
            match &self.mapper {
                Some(m) => m.read_prg(addr),
                None => 0,
            }
        }
    }

    /// Copies page `page` into OAM through normal reads.
    fn oam_dma(&mut self, page: u8)
        requires
            old(self).wf(),
        ensures
            final(self).wf(),
            final(self).state() == dma_spec::<P, M>(old(self).state(), page, 0),
    {
        let ghost target = dma_spec::<P, M>(self.state(), page, 0);
        let mut i: u16 = 0;
        while i < 256
            invariant
                self.wf(),
                i <= 256,
                dma_spec::<P, M>(self.state(), page, i as int) == target,
            decreases 256 - i,
        {
            let v = self.read(page as u16 * 256 + i);
            self.ppu.write_oam_byte(v);
            i = i + 1;
        }
    }

    /// Writes a byte: RAM, PPU registers, APU/IO latches, controller strobe,
    /// OAM-DMA, or the mapper.
    pub fn write(&mut self, addr: u16, value: u8)
        requires
            old(self).wf(),
        ensures
            final(self).wf(),
            final(self).state() == write_spec::<P, M>(old(self).state(), addr, value),
    {
        if addr < PPU_START {
            self.ram.set((addr % 0x800) as usize, value);
        } else if addr < IO_START {
            self.ppu.write_register((addr % 8) as u8, value);
        } else if addr < CARTRIDGE_START {
            self.io.set((addr - IO_START) as usize, value);
            if addr == OAM_DMA {
                self.dma_triggered = true;
                self.oam_dma(value);
            } else if addr == JOYPAD1 {
                let on = value % 2 == 1;
                self.port1.strobe(on);
                self.port2.strobe(on);
            }
        } else {
            match &mut self.mapper {
                Some(m) => m.write_prg(addr, value),
                None => self.note_missing(addr),
            }
        }
    }

    /// Reports and clears what happened since the last report.
    pub fn settle(&mut self) -> (r: BusReport)
        requires
            old(self).wf(),
        ensures
            final(self).wf(),
            (r, final(self).state()) == settle_spec::<P, M>(old(self).state()),
    {
        let nmi = self.ppu.nmi_take();
        let r = BusReport { dma: self.dma_triggered, nmi, missing_cartridge: self.missing_cartridge };
        self.dma_triggered = false;
        self.missing_cartridge = None;
        r
    }
}

impl<P: PpuPort, M: Mapper> Memory for Bus<P, M> {
    type State = BusState<P::State, M::State>;

    open spec fn model(&self) -> BusState<P::State, M::State> {
        self.state()
    }

    open spec fn valid(s: BusState<P::State, M::State>) -> bool {
        bus_valid::<P, M>(s)
    }

    open spec fn load_spec(s: BusState<P::State, M::State>, addr: u16) -> (
        u8,
        BusState<P::State, M::State>,
    ) {
        read_spec::<P, M>(s, addr)
    }

    open spec fn store_spec(s: BusState<P::State, M::State>, addr: u16, value: u8) -> BusState<
        P::State,
        M::State,
    > {
        write_spec::<P, M>(s, addr, value)
    }

    open spec fn settle_spec(s: BusState<P::State, M::State>) -> (
        BusReport,
        BusState<P::State, M::State>,
    ) {
        settle_spec::<P, M>(s)
    }

    fn load(&mut self, addr: u16) -> (r: u8) {
        self.read(addr)
    }

    fn store(&mut self, addr: u16, value: u8) {
        self.write(addr, value)
    }

    fn settle(&mut self) -> (r: BusReport) {
        Bus::settle(self)
    }
}

} // verus!
