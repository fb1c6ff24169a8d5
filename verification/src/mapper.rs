use vstd::prelude::*;

verus! {

use crate::errors::EmuError;
use crate::mapping::mapper0::Mapper0;
use crate::mapping::mapper1::Mapper1;
use crate::rom::Mirroring;

/// The cartridge mapper: the capability set of four memory operations plus
/// the effective mirroring, offered by one of the two supported circuits.
/// The bus and the renderer dispatch through this enum, which takes the place
/// of runtime polymorphism.
pub enum Mapper {
    /// The fixed-bank circuit (mapper number 0).
    Nrom(Mapper0),
    /// The serial-shift-register circuit (mapper number 1).
    Sxrom(Mapper1),
}

impl Mapper {
    pub open spec fn wf(self) -> bool {
        match self {
            Mapper::Nrom(m) => m.wf(),
            Mapper::Sxrom(m) => m.wf(),
        }
    }

    pub open spec fn spec_cpu_read(self, addr: u16) -> Result<u8, EmuError> {
        match self {
            Mapper::Nrom(m) => m.spec_cpu_read(addr),
            Mapper::Sxrom(m) => m.spec_cpu_read(addr),
        }
    }

    pub open spec fn spec_ppu_read(self, addr: u16) -> Result<u8, EmuError> {
        match self {
            Mapper::Nrom(m) => m.spec_ppu_read(addr),
            Mapper::Sxrom(m) => m.spec_ppu_read(addr),
        }
    }

    pub open spec fn spec_mirroring(self) -> Mirroring {
        match self {
            Mapper::Nrom(m) => m.mirroring,
            Mapper::Sxrom(m) => m.mirroring,
        }
    }

    pub open spec fn spec_prg(self) -> Seq<u8> {
        match self {
            Mapper::Nrom(m) => m.prg_rom@,
            Mapper::Sxrom(m) => m.prg_rom@,
        }
    }

    pub open spec fn spec_chr(self) -> Seq<u8> {
        match self {
            Mapper::Nrom(m) => m.chr_rom@,
            Mapper::Sxrom(m) => m.chr_rom@,
        }
    }

    /// The outcome a processor-side write reports, as a function of the
    /// mapper before it.
    pub open spec fn spec_cpu_write_result(self, addr: u16) -> Result<(), EmuError> {
        match self {
            Mapper::Nrom(_) => if 0x6000 <= addr && addr <= 0x7FFF {
                Ok(())
            } else {
                Err(EmuError::RomWrite { addr })
            },
            Mapper::Sxrom(_) => if 0x6000 <= addr {
                Ok(())
            } else {
                Err(EmuError::CartridgeBounds { addr })
            },
        }
    }

    /// How one processor-side write relates the mapper after (`post`) to the
    /// mapper before (`pre`), together with the outcome it reports.
    pub open spec fn spec_cpu_write_rel(
        pre: Mapper,
        post: Mapper,
        addr: u16,
        data: u8,
        r: Result<(), EmuError>,
    ) -> bool {
        match (pre, post) {
            (Mapper::Nrom(a), Mapper::Nrom(b)) => {
                if 0x6000 <= addr && addr <= 0x7FFF {
                    // The fixed-bank circuit carries 8 KiB of work memory.
                    &&& r is Ok
                    &&& b.prg_ram@ == a.prg_ram@.update((addr % 0x2000) as int, data)
                    &&& b == (Mapper0 { prg_ram: b.prg_ram, ..a })
                } else {
                    // Program memory is fixed: the write is refused.
                    &&& b == a
                    &&& r == Err::<(), EmuError>(EmuError::RomWrite { addr })
                }
            },
            (Mapper::Sxrom(a), Mapper::Sxrom(b)) => {
                if 0x6000 <= addr && addr <= 0x7FFF {
                    &&& r is Ok
                    &&& b.prg_ram@ == a.prg_ram@.update((addr % 0x2000) as int, data)
                    &&& b == (Mapper1 { prg_ram: b.prg_ram, ..a })
                } else if 0x8000 <= addr {
                    &&& r is Ok
                    &&& b == a.spec_sr_write(addr, data)
                } else {
                    &&& r == Err::<(), EmuError>(EmuError::CartridgeBounds { addr })
                    &&& b == a
                }
            },
            _ => false,
        }
    }

    /// How one picture-side write relates the mapper after to the mapper
    /// before, together with the outcome it reports.
    pub open spec fn spec_ppu_write_rel(
        pre: Mapper,
        post: Mapper,
        addr: u16,
        data: u8,
        r: Result<(), EmuError>,
    ) -> bool {
        match (pre, post) {
            (Mapper::Nrom(a), Mapper::Nrom(b)) => {
                if a.chr_is_ram && addr < 0x2000 && (addr as int) < a.chr_rom.len() {
                    &&& r is Ok
                    &&& b.chr_rom@ == a.chr_rom@.update(addr as int, data)
                    &&& b == (Mapper0 { chr_rom: b.chr_rom, ..a })
                } else {
                    &&& r == Err::<(), EmuError>(EmuError::ChrWrite { addr })
                    &&& b == a
                }
            },
            (Mapper::Sxrom(a), Mapper::Sxrom(b)) => {
                let idx = if addr <= 0x0FFF {
                    a.chr_bank_0_offset + addr as int
                } else {
                    a.chr_bank_1_offset + (addr - 0x1000) as int
                };
                if a.chr_is_ram && addr < 0x2000 && idx < a.chr_rom.len() {
                    &&& r is Ok
                    &&& b.chr_rom@ == a.chr_rom@.update(idx, data)
                    &&& b == (Mapper1 { chr_rom: b.chr_rom, ..a })
                } else {
                    &&& r == Err::<(), EmuError>(EmuError::ChrWrite { addr })
                    &&& b == a
                }
            },
            _ => false,
        }
    }

    /// A processor-side read of the cartridge.
    pub fn cpu_read(&self, addr: u16) -> (r: Result<u8, EmuError>)
        requires
            self.wf(),
        ensures
            r == self.spec_cpu_read(addr),
    {
        match self {
            Mapper::Nrom(m) => m.cpu_read(addr),
            Mapper::Sxrom(m) => m.cpu_read(addr),
        }
    }

    /// A processor-side write to the cartridge.
    pub fn cpu_write(&mut self, addr: u16, data: u8) -> (r: Result<(), EmuError>)
        requires
            old(self).wf(),
        ensures
            final(self).wf(),
            Mapper::spec_cpu_write_rel(*old(self), *final(self), addr, data, r),
    {
        match self {
            Mapper::Nrom(m) => m.cpu_write(addr, data),
            Mapper::Sxrom(m) => m.cpu_write(addr, data),
        }
    }

    /// A picture-side read of character memory.
    pub fn ppu_read(&self, addr: u16) -> (r: Result<u8, EmuError>)
        requires
            self.wf(),
        ensures
            r == self.spec_ppu_read(addr),
    {
        match self {
            Mapper::Nrom(m) => m.ppu_read(addr),
            Mapper::Sxrom(m) => m.ppu_read(addr),
        }
    }

    /// A picture-side write into character memory.
    pub fn ppu_write(&mut self, addr: u16, data: u8) -> (r: Result<(), EmuError>)
        requires
            old(self).wf(),
        ensures
            final(self).wf(),
            Mapper::spec_ppu_write_rel(*old(self), *final(self), addr, data, r),
    {
        match self {
            Mapper::Nrom(m) => m.ppu_write(addr, data),
            Mapper::Sxrom(m) => m.ppu_write(addr, data),
        }
    }

    /// The mirroring currently in effect (the shift-register circuit rewrites
    /// it at runtime).
    pub fn get_mirroring(&self) -> (r: Mirroring)
        ensures
            r == self.spec_mirroring(),
    {
        match self {
            Mapper::Nrom(m) => m.get_mirroring(),
            Mapper::Sxrom(m) => m.get_mirroring(),
        }
    }

    /// The mapper number.
    pub fn get_mapping(&self) -> (r: u8)
        ensures
            self is Nrom ==> r == 0,
            self is Sxrom ==> r == 1,
    {
        match self {
            Mapper::Nrom(m) => m.get_mapping(),
            Mapper::Sxrom(m) => m.get_mapping(),
        }
    }

    /// A copy of program memory, for the trace layer.
    pub fn get_prg_rom(&self) -> (r: Vec<u8>)
        ensures
            r@ == self.spec_prg(),
    {
        match self {
            Mapper::Nrom(m) => m.get_prg_rom(),
            Mapper::Sxrom(m) => m.get_prg_rom(),
        }
    }

    /// A copy of character memory, for the trace layer.
    pub fn get_chr_rom(&self) -> (r: Vec<u8>)
        ensures
            r@ == self.spec_chr(),
    {
        match self {
            Mapper::Nrom(m) => m.get_chr_rom(),
            Mapper::Sxrom(m) => m.get_chr_rom(),
        }
    }

    /// One byte of character memory, unbanked.
    pub fn read_chr_rom(&self, index: usize) -> (r: u8)
        requires
            index < self.spec_chr().len(),
        ensures
            r == self.spec_chr()[index as int],
    {
        match self {
            Mapper::Nrom(m) => m.read_chr_rom(index),
            Mapper::Sxrom(m) => m.read_chr_rom(index),
        }
    }

    /// One byte of program memory, unbanked.
    pub fn read_prg_rom(&self, index: usize) -> (r: u8)
        requires
            index < self.spec_prg().len(),
        ensures
            r == self.spec_prg()[index as int],
    {
        match self {
            Mapper::Nrom(m) => m.read_prg_rom(index),
            Mapper::Sxrom(m) => m.read_prg_rom(index),
        }
    }
}

} // verus!
