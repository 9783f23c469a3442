//! The CPU/bus core of an NES emulator: a 6502 interpreter without decimal
//! mode, driven against any memory that implements [`Memory`], and the NES
//! CPU bus with its memory map, mirroring, controller ports and OAM-DMA.
//!
//! `semantics` states what one step does; `cpu` carries it out and is proved
//! to match; `laws` proves properties of the step and of the bus.
pub mod alu;
pub mod memory;
pub mod instructions;
pub mod semantics;
pub mod cpu;
pub mod controller;
pub mod mapper;
pub mod ppu;
pub mod bus;
pub mod laws;

pub use bus::Bus;
pub use controller::Controller;
pub use cpu::oam_dma_cycles;
pub use instructions::{AddressingMode, CpuInstruction, Mnemonic, decode};
pub use mapper::{Mapper, Nrom};
pub use memory::{BusReport, FlatMemory, Memory};
pub use ppu::{PpuPort, PpuRegisters};
pub use semantics::{Cpu, CpuError, Operand};
