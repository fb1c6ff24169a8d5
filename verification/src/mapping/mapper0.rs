use vstd::prelude::*;

verus! {

use crate::bytes::copy_bytes;
use crate::errors::EmuError;
use crate::rom::Mirroring;

/// The fixed-bank mapper: the processor window 0x8000..=0xFFFF maps straight
/// onto program memory (a single 16 KiB bank is mirrored into the upper half),
/// 0x6000..=0x7FFF is work memory, and the picture side maps onto character
/// memory, writable only when the cartridge flags it as such.
pub struct Mapper0 {
    pub prg_rom: Vec<u8>,
    pub prg_ram: Vec<u8>,
    pub chr_rom: Vec<u8>,
    pub mirroring: Mirroring,
    pub chr_is_ram: bool,
}

impl Mapper0 {
    /// Work memory always spans 8 KiB.
    pub open spec fn wf(self) -> bool {
        self.prg_ram.len() == 0x2000
    }

    /// What a processor-side read returns.  Reads below the cartridge window
    /// or beyond the end of program memory have no defined value.
    pub open spec fn spec_cpu_read(self, addr: u16) -> Result<u8, EmuError> {
        if 0x6000 <= addr && addr <= 0x7FFF {
            Ok(self.prg_ram@[(addr % 0x2000) as int])
        } else if 0x8000 <= addr {
            let off = (addr - 0x8000) as int;
            let idx = if self.prg_rom.len() == 0x4000 && off >= 0x4000 {
                off % 0x4000
            } else {
                off
            };
            if idx < self.prg_rom.len() {
                Ok(self.prg_rom@[idx])
            } else {
                Err(EmuError::CartridgeBounds { addr })
            }
        } else {
            Err(EmuError::CartridgeBounds { addr })
        }
    }

    /// What a picture-side read returns: a byte of character memory.
    pub open spec fn spec_ppu_read(self, addr: u16) -> Result<u8, EmuError> {
        if addr < 0x2000 && (addr as int) < self.chr_rom.len() {
            Ok(self.chr_rom@[addr as int])
        } else {
            Err(EmuError::CartridgeBounds { addr })
        }
    }

    pub fn new(prg_rom: Vec<u8>, chr_rom: Vec<u8>, mirroring: Mirroring, chr_is_ram: bool) -> (r:
        Self)
        ensures
            r.wf(),
            r.prg_rom@ == prg_rom@,
            r.chr_rom@ == chr_rom@,
            r.prg_ram@ == Seq::new(0x2000nat, |i: int| 0u8),
            r.mirroring == mirroring,
            r.chr_is_ram == chr_is_ram,
    {
        Mapper0 {
            prg_rom,
            prg_ram: crate::bytes::byte_vec(0x2000, 0),
            chr_rom,
            mirroring,
            chr_is_ram,
        }
    }

    /// One byte of the 8 KiB work memory.
    pub fn prg_ram_read(&self, addr: u16) -> (r: u8)
        requires
            self.wf(),
            addr < 0x2000,
        ensures
            r == self.prg_ram@[addr as int],
    {
        self.prg_ram[addr as usize]
    }

    pub fn get_prg_rom(&self) -> (r: Vec<u8>)
        ensures
            r@ == self.prg_rom@,
    {
        copy_bytes(&self.prg_rom)
    }

    pub fn get_chr_rom(&self) -> (r: Vec<u8>)
        ensures
            r@ == self.chr_rom@,
    {
        copy_bytes(&self.chr_rom)
    }

    pub fn get_mapping(&self) -> (r: u8)
        ensures
            r == 0,
    {
        0
    }

    pub fn get_mirroring(&self) -> (r: Mirroring)
        ensures
            r == self.mirroring,
    {
        self.mirroring
    }

    pub fn read_chr_rom(&self, index: usize) -> (r: u8)
        requires
            index < self.chr_rom.len(),
        ensures
            r == self.chr_rom@[index as int],
    {
        self.chr_rom[index]
    }

    pub fn read_prg_rom(&self, index: usize) -> (r: u8)
        requires
            index < self.prg_rom.len(),
        ensures
            r == self.prg_rom@[index as int],
    {
        self.prg_rom[index]
    }

    /// A processor-side read of the cartridge window.
    pub fn cpu_read(&self, addr: u16) -> (r: Result<u8, EmuError>)
        requires
            self.wf(),
        ensures
            r == self.spec_cpu_read(addr),
    {
        if 0x6000 <= addr && addr <= 0x7FFF {
            let a = addr % 0x2000;
            Ok(self.prg_ram_read(a))
        } else if 0x8000 <= addr {
            let mut off = addr - 0x8000;
            // A single 16 KiB bank appears again in the upper half of the
            // window.
            if self.prg_rom.len() == 0x4000 && off >= 0x4000 {
                off = off % 0x4000;
            }
            if (off as usize) < self.prg_rom.len() {
                Ok(self.prg_rom[off as usize])
            } else {
                Err(EmuError::CartridgeBounds { addr })
            }
        } else {
            Err(EmuError::CartridgeBounds { addr })
        }
    }

    /// A processor-side write: work memory stores the byte; the fixed program
    /// memory above it refuses every write.
    pub fn cpu_write(&mut self, addr: u16, data: u8) -> (r: Result<(), EmuError>)
        requires
            old(self).wf(),
        ensures
            final(self).wf(),
            0x6000 <= addr && addr <= 0x7FFF ==> {
                &&& r is Ok
                &&& final(self).prg_ram@ == old(self).prg_ram@.update(
                    (addr % 0x2000) as int,
                    data,
                )
                &&& *final(self) == (Mapper0 { prg_ram: final(self).prg_ram, ..*old(self) })
            },
            !(0x6000 <= addr && addr <= 0x7FFF) ==> {
                &&& *final(self) == *old(self)
                &&& r == Err::<(), EmuError>(EmuError::RomWrite { addr })
            },
    {
        if 0x6000 <= addr && addr <= 0x7FFF {
            let a = (addr % 0x2000) as usize;
            self.prg_ram[a] = data;
            Ok(())
        } else {
            Err(EmuError::RomWrite { addr })
        }
    }

    /// A picture-side read of character memory.
    pub fn ppu_read(&self, addr: u16) -> (r: Result<u8, EmuError>)
        ensures
            r == self.spec_ppu_read(addr),
    {
        if addr < 0x2000 && (addr as usize) < self.chr_rom.len() {
            Ok(self.chr_rom[addr as usize])
        } else {
            Err(EmuError::CartridgeBounds { addr })
        }
    }

    /// A picture-side write: allowed only into writable character memory.
    pub fn ppu_write(&mut self, addr: u16, data: u8) -> (r: Result<(), EmuError>)
        ensures
            ({
                if old(self).chr_is_ram && addr < 0x2000 && (addr as int) < old(
                    self,
                ).chr_rom.len() {
                    &&& r is Ok
                    &&& final(self).chr_rom@ == old(self).chr_rom@.update(addr as int, data)
                    &&& final(self).prg_rom == old(self).prg_rom
                    &&& final(self).prg_ram == old(self).prg_ram
                    &&& final(self).mirroring == old(self).mirroring
                    &&& final(self).chr_is_ram == old(self).chr_is_ram
                } else {
                    &&& r == Err::<(), EmuError>(EmuError::ChrWrite { addr })
                    &&& *final(self) == *old(self)
                }
            }),
    {
        if self.chr_is_ram && addr < 0x2000 && (addr as usize) < self.chr_rom.len() {
            self.chr_rom[addr as usize] = data;
            Ok(())
        } else {
            Err(EmuError::ChrWrite { addr })
        }
    }
}

/// With a single 16 KiB program bank, every address of the upper window reads
/// the same byte as its image in the lower window: for every `A` in
/// 0x8000..=0xFFFF, the cartridge serves `A` and
/// `0x8000 + ((A - 0x8000) % 0x4000)` alike.
pub proof fn lemma_mapper0_prg_mirror(m: Mapper0, addr: u16)
    requires
        m.prg_rom.len() == 0x4000,
        0x8000 <= addr,
    ensures
        m.spec_cpu_read(addr) == m.spec_cpu_read((0x8000 + ((addr - 0x8000) % 0x4000)) as u16),
{
}

} // verus!
