use vstd::prelude::*;

verus! {

use crate::bytes::copy_bytes;
use crate::errors::EmuError;
use crate::rom::Mirroring;

/// The serial-shift-register mapper: five writes to the cartridge window fill
/// a 5-bit register bottom-up, and the fifth write's address picks which of
/// the four internal registers (control, two character banks, program bank)
/// receives it.  Each register update recomputes the cached byte offsets that
/// reads use.
pub struct Mapper1 {
    pub prg_rom: Vec<u8>,
    pub prg_ram: Vec<u8>,
    pub chr_rom: Vec<u8>,
    pub shift_register: u8,
    pub shift_count: usize,
    pub control: u8,
    pub chr_bank_0: u8,
    pub chr_bank_1: u8,
    pub prg_bank: u8,
    pub prg_rom_bank_mode: u8,
    pub chr_rom_bank_mode: u8,
    pub prg_bank_offset_first: usize,
    pub prg_bank_offset_second: usize,
    pub chr_bank_0_offset: usize,
    pub chr_bank_1_offset: usize,
    pub mirroring: Mirroring,
    pub chr_is_ram: bool,
}

/// One bit entering the shift register from the top.
pub open spec fn spec_shift_step(sr: u8, data: u8) -> u8 {
    (sr >> 1) | ((data & 1) << 4)
}

impl Mapper1 {
    /// Work memory spans 8 KiB, at most four shift-register bits are pending,
    /// and the cached offsets leave room for a window-sized index.
    pub open spec fn wf(self) -> bool {
        &&& self.prg_ram.len() == 0x2000
        &&& self.shift_count <= 4
        &&& self.prg_bank_offset_first + 0x4000 <= usize::MAX
        &&& self.prg_bank_offset_second + 0x4000 <= usize::MAX
        &&& self.chr_bank_0_offset + 0x2000 <= usize::MAX
        &&& self.chr_bank_1_offset + 0x2000 <= usize::MAX
    }

    /// The mapper with modes, mirroring and cached offsets recomputed from
    /// its control and bank registers.
    pub open spec fn spec_update_banks(self) -> Mapper1 {
        let prg_mode = (self.control >> 2) & 0x03;
        let chr_mode = (self.control >> 4) & 0x01;
        let nt = self.control & 0x03;
        let mirroring = if nt == 0 {
            Mirroring::SINGLE_LOWER
        } else if nt == 1 {
            Mirroring::SINGLE_UPPER
        } else if nt == 2 {
            Mirroring::VERTICAL
        } else {
            Mirroring::HORIZONTAL
        };
        let bank = ((self.prg_bank & 0x0F) as int);
        let banks = self.prg_rom.len() as int / 0x4000;
        let first = if prg_mode == 0 || prg_mode == 1 {
            ((self.prg_bank & 0x0F) & 0x0E) as int * 0x4000
        } else if prg_mode == 2 {
            0int
        } else {
            bank * 0x4000
        };
        let second = if prg_mode == 0 || prg_mode == 1 {
            ((self.prg_bank & 0x0F) & 0x0E) as int * 0x4000 + 0x4000
        } else if prg_mode == 2 {
            bank * 0x4000
        } else {
            if banks >= 1 {
                (banks - 1) * 0x4000
            } else {
                0int
            }
        };
        let chr0 = (self.chr_bank_0 & 0x1F) as int * 0x1000;
        let chr1 = if chr_mode == 0 {
            chr0 + 0x1000
        } else {
            (self.chr_bank_1 & 0x1F) as int * 0x1000
        };
        Mapper1 {
            prg_rom_bank_mode: prg_mode,
            chr_rom_bank_mode: chr_mode,
            mirroring,
            prg_bank_offset_first: first as usize,
            prg_bank_offset_second: second as usize,
            chr_bank_0_offset: chr0 as usize,
            chr_bank_1_offset: chr1 as usize,
            ..self
        }
    }

    /// One processor-side write to the cartridge window at 0x8000 and above:
    /// bit 7 resets the shift register and restores the fix-last-bank mode;
    /// otherwise the written bit enters the register from the top, and the
    /// fifth bit lands the register in the target the address selects.
    pub open spec fn spec_sr_write(self, addr: u16, data: u8) -> Mapper1 {
        if data & 0x80 != 0 {
            Mapper1 { shift_register: 0, shift_count: 0, control: 0x0C, ..self }.spec_update_banks()
        } else {
            let sr = spec_shift_step(self.shift_register, data);
            let count = self.shift_count + 1;
            if count == 5 {
                let target = ((addr - 0x8000) as int) / 0x2000;
                let loaded = if target == 0 {
                    Mapper1 { control: sr & 0x1F, ..self }
                } else if target == 1 {
                    Mapper1 { chr_bank_0: sr & 0x1F, ..self }
                } else if target == 2 {
                    Mapper1 { chr_bank_1: sr & 0x1F, ..self }
                } else {
                    Mapper1 { prg_bank: sr & 0x1F, ..self }
                };
                Mapper1 { shift_register: 0, shift_count: 0, ..loaded }.spec_update_banks()
            } else {
                Mapper1 { shift_register: sr, shift_count: count as usize, ..self }
            }
        }
    }

    /// What a processor-side read returns, through the cached bank offsets.
    pub open spec fn spec_cpu_read(self, addr: u16) -> Result<u8, EmuError> {
        if 0x6000 <= addr && addr <= 0x7FFF {
            Ok(self.prg_ram@[(addr % 0x2000) as int])
        } else if 0x8000 <= addr && addr <= 0xBFFF {
            let idx = self.prg_bank_offset_first + (addr - 0x8000) as int;
            if idx < self.prg_rom.len() {
                Ok(self.prg_rom@[idx])
            } else {
                Err(EmuError::CartridgeBounds { addr })
            }
        } else if 0xC000 <= addr {
            let idx = self.prg_bank_offset_second + (addr - 0xC000) as int;
            if idx < self.prg_rom.len() {
                Ok(self.prg_rom@[idx])
            } else {
                Err(EmuError::CartridgeBounds { addr })
            }
        } else {
            Err(EmuError::CartridgeBounds { addr })
        }
    }

    /// What a picture-side read returns: the two 4 KiB windows go through
    /// their cached offsets.
    pub open spec fn spec_ppu_read(self, addr: u16) -> Result<u8, EmuError> {
        if addr <= 0x0FFF {
            let idx = self.chr_bank_0_offset + addr as int;
            if idx < self.chr_rom.len() {
                Ok(self.chr_rom@[idx])
            } else {
                Err(EmuError::CartridgeBounds { addr })
            }
        } else if addr <= 0x1FFF {
            let idx = self.chr_bank_1_offset + (addr - 0x1000) as int;
            if idx < self.chr_rom.len() {
                Ok(self.chr_rom@[idx])
            } else {
                Err(EmuError::CartridgeBounds { addr })
            }
        } else {
            Err(EmuError::CartridgeBounds { addr })
        }
    }

    pub fn new(prg_rom: Vec<u8>, chr_rom: Vec<u8>, mirroring: Mirroring, chr_is_ram: bool) -> (r:
        Self)
        ensures
            r.wf(),
            r.prg_rom@ == prg_rom@,
            r.chr_rom@ == chr_rom@,
            r.prg_ram@ == Seq::new(0x2000nat, |i: int| 0u8),
            r.mirroring == mirroring,
            r.chr_is_ram == chr_is_ram,
            r.shift_register == 0,
            r.shift_count == 0,
            r.control == 0x0C,
            r.prg_bank == 0x10,
            r.prg_rom_bank_mode == 3,
            r.chr_rom_bank_mode == 0,
            r.prg_bank_offset_first == 0,
            r.prg_bank_offset_second == 0,
            r.chr_bank_0_offset == 0,
            r.chr_bank_1_offset == 0,
    {
        Mapper1 {
            prg_rom,
            prg_ram: crate::bytes::byte_vec(0x2000, 0),
            chr_rom,
            shift_register: 0,
            shift_count: 0,
            control: 0x0C,
            chr_bank_0: 0,
            chr_bank_1: 0,
            prg_bank: 0x10,
            prg_rom_bank_mode: 3,
            chr_rom_bank_mode: 0,
            prg_bank_offset_first: 0,
            prg_bank_offset_second: 0,
            chr_bank_0_offset: 0,
            chr_bank_1_offset: 0,
            mirroring,
            chr_is_ram,
        }
    }

    pub fn prg_ram_read(&self, addr: u16) -> (r: u8)
        requires
            self.wf(),
            addr < 0x2000,
        ensures
            r == self.prg_ram@[addr as int],
    {
        self.prg_ram[addr as usize]
    }

    pub fn prg_ram_write(&mut self, addr: u16, data: u8)
        requires
            old(self).wf(),
            addr < 0x2000,
        ensures
            final(self).prg_ram@ == old(self).prg_ram@.update(addr as int, data),
            *final(self) == (Mapper1 { prg_ram: final(self).prg_ram, ..*old(self) }),
    {
        self.prg_ram[addr as usize] = data;
    }

    /// Recomputes modes, mirroring and the cached offsets from the control
    /// and bank registers.
    pub fn update_banks(&mut self)
        requires
            old(self).wf(),
        ensures
            *final(self) == old(self).spec_update_banks(),
            final(self).wf(),
    {
        proof {
            lemma_mapper1_masks(self.prg_bank);
            lemma_mapper1_masks(self.chr_bank_0);
            lemma_mapper1_masks(self.chr_bank_1);
        }
        self.prg_rom_bank_mode = (self.control >> 2) & 0x03;
        self.chr_rom_bank_mode = (self.control >> 4) & 0x01;

        let nametable_bits = self.control & 0x03;
        self.mirroring = if nametable_bits == 0 {
            Mirroring::SINGLE_LOWER
        } else if nametable_bits == 1 {
            Mirroring::SINGLE_UPPER
        } else if nametable_bits == 2 {
            Mirroring::VERTICAL
        } else {
            Mirroring::HORIZONTAL
        };

        let bank = (self.prg_bank & 0x0F) as usize;

        if self.prg_rom_bank_mode == 0 || self.prg_rom_bank_mode == 1 {
            let even_bank = ((self.prg_bank & 0x0F) & 0x0E) as usize;
            self.prg_bank_offset_first = even_bank * 0x4000;
            self.prg_bank_offset_second = self.prg_bank_offset_first + 0x4000;
        } else if self.prg_rom_bank_mode == 2 {
            // The first window is pinned to the start of program memory.
            self.prg_bank_offset_first = 0;
            self.prg_bank_offset_second = bank * 0x4000;
        } else {
            // The last bank is pinned under the second window.
            self.prg_bank_offset_first = bank * 0x4000;
            let banks = self.prg_rom.len() / 0x4000;
            if banks >= 1 {
                assert(banks * 0x4000 <= self.prg_rom.len()) by (nonlinear_arith)
                    requires
                        banks == self.prg_rom.len() / 0x4000,
                ;
                self.prg_bank_offset_second = (banks - 1) * 0x4000;
            } else {
                self.prg_bank_offset_second = 0;
            }
        }

        self.chr_bank_0_offset = ((self.chr_bank_0 & 0x1F) as usize) * 0x1000;
        if self.chr_rom_bank_mode == 0 {
            // Both 4 KiB windows follow the first bank register.
            self.chr_bank_1_offset = self.chr_bank_0_offset + 0x1000;
        } else {
            self.chr_bank_1_offset = ((self.chr_bank_1 & 0x1F) as usize) * 0x1000;
        }
    }

    pub fn get_prg_rom(&self) -> (r: Vec<u8>)
        ensures
            r@ == self.prg_rom@,
    {
        copy_bytes(&self.prg_rom)
    }

    pub fn get_chr_rom(&self) -> (r: Vec<u8>)
        ensures
            r@ == self.chr_rom@,
    {
        copy_bytes(&self.chr_rom)
    }

    pub fn get_mapping(&self) -> (r: u8)
        ensures
            r == 1,
    {
        1
    }

    pub fn get_mirroring(&self) -> (r: Mirroring)
        ensures
            r == self.mirroring,
    {
        self.mirroring
    }

    pub fn read_chr_rom(&self, index: usize) -> (r: u8)
        requires
            index < self.chr_rom.len(),
        ensures
            r == self.chr_rom@[index as int],
    {
        self.chr_rom[index]
    }

    pub fn read_prg_rom(&self, index: usize) -> (r: u8)
        requires
            index < self.prg_rom.len(),
        ensures
            r == self.prg_rom@[index as int],
    {
        self.prg_rom[index]
    }

    /// A processor-side read of the cartridge window.
    pub fn cpu_read(&self, addr: u16) -> (r: Result<u8, EmuError>)
        requires
            self.wf(),
        ensures
            r == self.spec_cpu_read(addr),
    {
        if 0x6000 <= addr && addr <= 0x7FFF {
            let a = addr % 0x2000;
            Ok(self.prg_ram_read(a))
        } else if 0x8000 <= addr && addr <= 0xBFFF {
            let idx = self.prg_bank_offset_first + ((addr - 0x8000) as usize);
            if idx < self.prg_rom.len() {
                Ok(self.prg_rom[idx])
            } else {
                Err(EmuError::CartridgeBounds { addr })
            }
        } else if 0xC000 <= addr {
            let idx = self.prg_bank_offset_second + ((addr - 0xC000) as usize);
            if idx < self.prg_rom.len() {
                Ok(self.prg_rom[idx])
            } else {
                Err(EmuError::CartridgeBounds { addr })
            }
        } else {
            Err(EmuError::CartridgeBounds { addr })
        }
    }

    /// A processor-side write: work memory below 0x8000, the shift register
    /// above it.
    pub fn cpu_write(&mut self, addr: u16, data: u8) -> (r: Result<(), EmuError>)
        requires
            old(self).wf(),
        ensures
            0x6000 <= addr && addr <= 0x7FFF ==> r is Ok && final(self).prg_ram@ == old(
                self,
            ).prg_ram@.update((addr % 0x2000) as int, data) && *final(self) == (Mapper1 {
                prg_ram: final(self).prg_ram,
                ..*old(self)
            }),
            0x8000 <= addr ==> r is Ok && *final(self) == old(self).spec_sr_write(addr, data),
            addr < 0x6000 ==> r == Err::<(), EmuError>(EmuError::CartridgeBounds { addr })
                && *final(self) == *old(self),
            final(self).wf(),
    {
        if addr < 0x6000 {
            return Err(EmuError::CartridgeBounds { addr });
        }
        if addr <= 0x7FFF {
            let a = addr % 0x2000;
            self.prg_ram_write(a, data);
            return Ok(());
        }

        // A write with bit 7 set abandons the pending bits and restores the
        // fix-last-bank program mode.
        if data & 0x80 != 0 {
            self.shift_register = 0;
            self.shift_count = 0;
            self.control = 0x0C;
            self.update_banks();
            return Ok(());
        }

        // The written bit enters the register from the top, so the first of
        // five bits ends at bit 0.
        self.shift_register = self.shift_register >> 1;
        self.shift_register = self.shift_register | ((data & 1) << 4);
        self.shift_count = self.shift_count + 1;

        if self.shift_count == 5 {
            let register_index = (addr - 0x8000) / 0x2000;
            if register_index == 0 {
                self.control = self.shift_register & 0x1F;
            } else if register_index == 1 {
                self.chr_bank_0 = self.shift_register & 0x1F;
            } else if register_index == 2 {
                self.chr_bank_1 = self.shift_register & 0x1F;
            } else {
                self.prg_bank = self.shift_register & 0x1F;
            }
            self.shift_count = 0;
            self.shift_register = 0;
            self.update_banks();
        }
        Ok(())
    }

    /// A picture-side read of banked character memory.
    pub fn ppu_read(&self, addr: u16) -> (r: Result<u8, EmuError>)
        requires
            self.wf(),
        ensures
            r == self.spec_ppu_read(addr),
    {
        if addr <= 0x0FFF {
            let idx = self.chr_bank_0_offset + (addr as usize);
            if idx < self.chr_rom.len() {
                Ok(self.chr_rom[idx])
            } else {
                Err(EmuError::CartridgeBounds { addr })
            }
        } else if addr <= 0x1FFF {
            // The second window is rebased before its offset applies.
            let idx = self.chr_bank_1_offset + ((addr - 0x1000) as usize);
            if idx < self.chr_rom.len() {
                Ok(self.chr_rom[idx])
            } else {
                Err(EmuError::CartridgeBounds { addr })
            }
        } else {
            Err(EmuError::CartridgeBounds { addr })
        }
    }

    /// A picture-side write: allowed only into writable character memory; the
    /// second window is rebased before the offset is applied.
    pub fn ppu_write(&mut self, addr: u16, data: u8) -> (r: Result<(), EmuError>)
        requires
            old(self).wf(),
        ensures
            final(self).wf(),
            ({
                let idx = if addr <= 0x0FFF {
                    old(self).chr_bank_0_offset + addr as int
                } else {
                    old(self).chr_bank_1_offset + (addr - 0x1000) as int
                };
                if old(self).chr_is_ram && addr < 0x2000 && idx < old(self).chr_rom.len() {
                    &&& r is Ok
                    &&& final(self).chr_rom@ == old(self).chr_rom@.update(idx, data)
                    &&& *final(self) == (Mapper1 { chr_rom: final(self).chr_rom, ..*old(self) })
                } else {
                    &&& r == Err::<(), EmuError>(EmuError::ChrWrite { addr })
                    &&& *final(self) == *old(self)
                }
            }),
    {
        if self.chr_is_ram && addr < 0x2000 {
            if addr <= 0x0FFF {
                let idx = self.chr_bank_0_offset + (addr as usize);
                if idx < self.chr_rom.len() {
                    self.chr_rom[idx] = data;
                    Ok(())
                } else {
                    Err(EmuError::ChrWrite { addr })
                }
            } else {
                let idx = self.chr_bank_1_offset + ((addr - 0x1000) as usize);
                if idx < self.chr_rom.len() {
                    self.chr_rom[idx] = data;
                    Ok(())
                } else {
                    Err(EmuError::ChrWrite { addr })
                }
            }
        } else {
            Err(EmuError::ChrWrite { addr })
        }
    }
}

/// Bounds of the masked bank registers.
proof fn lemma_mapper1_masks(x: u8)
    by (bit_vector)
    ensures
        x & 0x0F <= 0x0F,
        (x & 0x0F) & 0x0E <= 0x0E,
        x & 0x1F <= 0x1F,
{
}

/// How five data bits assemble in the shift register: the first written bit
/// lands at bit 0, the fifth at bit 4, and the result already fits in five
/// bits.
proof fn lemma_shift_chain(d1: u8, d2: u8, d3: u8, d4: u8, d5: u8)
    by (bit_vector)
    ensures
        spec_shift_step(
            spec_shift_step(
                spec_shift_step(spec_shift_step(spec_shift_step(0u8, d1), d2), d3),
                d4,
            ),
            d5,
        ) == ((d1 & 1) | ((d2 & 1) << 1) | ((d3 & 1) << 2) | ((d4 & 1) << 3) | ((d5 & 1) << 4)),
        (((d1 & 1) | ((d2 & 1) << 1) | ((d3 & 1) << 2) | ((d4 & 1) << 3) | ((d5 & 1) << 4)) & 0x1F)
            == ((d1 & 1) | ((d2 & 1) << 1) | ((d3 & 1) << 2) | ((d4 & 1) << 3) | ((d5 & 1) << 4)),
{
}

/// A write with bit 7 set resets the shift register and restores program-bank
/// mode 3 (fix the last bank under the second window).
pub proof fn lemma_mapper1_reset(m: Mapper1, addr: u16, data: u8)
    requires
        0x8000 <= addr,
        data & 0x80 != 0,
    ensures
        m.spec_sr_write(addr, data).shift_register == 0,
        m.spec_sr_write(addr, data).shift_count == 0,
        m.spec_sr_write(addr, data).control == 0x0C,
        m.spec_sr_write(addr, data).prg_rom_bank_mode == 3,
{
    assert((0x0Cu8 >> 2) & 0x03 == 3) by (bit_vector);
}

/// After five shift-register writes to the program-bank selector carrying the
/// bits b0..b4 (low bit of each written byte, in order), the program-bank
/// register holds the value `b0 | b1<<1 | b2<<2 | b3<<3 | b4<<4` --- the five
/// bits masked into the register --- the shift register is empty again, and
/// in fix-last-bank mode the first window's cached offset selects that bank
/// clipped to the mode's four valid bits.
pub proof fn lemma_mapper1_bank_select(m: Mapper1, addr: u16, d1: u8, d2: u8, d3: u8, d4: u8, d5: u8)
    requires
        m.shift_count == 0,
        m.shift_register == 0,
        0xE000 <= addr,
        d1 & 0x80 == 0,
        d2 & 0x80 == 0,
        d3 & 0x80 == 0,
        d4 & 0x80 == 0,
        d5 & 0x80 == 0,
    ensures
        ({
            let v = (d1 & 1) | ((d2 & 1) << 1) | ((d3 & 1) << 2) | ((d4 & 1) << 3) | ((d5 & 1)
                << 4);
            let end = m.spec_sr_write(addr, d1).spec_sr_write(addr, d2).spec_sr_write(
                addr,
                d3,
            ).spec_sr_write(addr, d4).spec_sr_write(addr, d5);
            &&& end.prg_bank == v
            &&& end.shift_count == 0
            &&& end.shift_register == 0
            &&& (m.control >> 2) & 0x03 == 3 ==> end.prg_bank_offset_first == (v & 0x0F) * 0x4000
        }),
{
    lemma_shift_chain(d1, d2, d3, d4, d5);
    let v = (d1 & 1) | ((d2 & 1) << 1) | ((d3 & 1) << 2) | ((d4 & 1) << 3) | ((d5 & 1) << 4);
    let m1 = m.spec_sr_write(addr, d1);
    let m2 = m1.spec_sr_write(addr, d2);
    let m3 = m2.spec_sr_write(addr, d3);
    let m4 = m3.spec_sr_write(addr, d4);
    let end = m4.spec_sr_write(addr, d5);
    assert(((addr - 0x8000) as int) / 0x2000 == 3);
    assert(end.prg_bank == v);
    if (m.control >> 2) & 0x03 == 3 {
        assert(end.prg_bank_offset_first == (v & 0x0F) * 0x4000);
    }
}

} // verus!
