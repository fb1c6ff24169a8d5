use vstd::prelude::*;

verus! {

use crate::bytes::{byte_vec, copy_bytes};
use crate::errors::EmuError;
use crate::joypad::Joypad;
use crate::mapper::Mapper;
use crate::ppu::NesPPU;
use crate::rom::{Mirroring, Rom};

/// A dummy cartridge for runs that need no image: one program bank full of
/// no-operation opcodes.
pub fn test_rom_gen() -> (r: Rom)
    ensures
        r.prg_rom@ == Seq::new(0x4000nat, |i: int| 0xEAu8),
        r.chr_rom@ == Seq::new(5nat, |i: int| 0u8),
        r.mapper_id == 0,
        r.screen_mirroring == Mirroring::HORIZONTAL,
        !r.is_chr_ram,
{
    Rom {
        prg_rom: byte_vec(0x4000, 0xEA),
        chr_rom: byte_vec(5, 0),
        is_chr_ram: false,
        mapper_id: 0,
        screen_mirroring: Mirroring::HORIZONTAL,
    }
}

/// The address bus: routes every processor access to internal memory, the
/// picture-processor registers, the controller port or the cartridge mapper;
/// counts processor cycles and advances the picture processor three dots for
/// each one; and latches the frame-ready edge when a vertical blank begins.
///
/// In strict mode a forbidden access stops emulation with an error; in
/// lenient mode reads of write-only ports return zero and forbidden writes
/// are dropped.
pub struct Bus {
    pub cpu_vram: Vec<u8>,
    pub joypad1: Joypad,
    pub ppu: NesPPU,
    pub mapper: Mapper,
    pub cycles: usize,
    pub strict: bool,
    pub frame_ready: bool,
}

/// A saturating count of processor cycles.
pub open spec fn spec_sat_add(a: usize, b: usize) -> usize {
    if a + b <= usize::MAX {
        (a + b) as usize
    } else {
        usize::MAX
    }
}

/// The bus after `n` processor cycles of time: the counter grows, the
/// picture processor takes three dots per cycle, and the frame-ready latch
/// catches the rising edge of its interrupt line.
pub open spec fn spec_tick_bus(b: Bus, n: usize) -> Bus {
    let (p1, f1) = b.ppu.spec_tick(n);
    let (p2, f2) = p1.spec_tick(n);
    let (p3, f3) = p2.spec_tick(n);
    Bus {
        cycles: spec_sat_add(b.cycles, n),
        ppu: p3,
        frame_ready: b.frame_ready || (!b.ppu.trigger_nmi && p3.trigger_nmi),
        ..b
    }
}

impl Bus {
    pub open spec fn wf(self) -> bool {
        &&& self.cpu_vram.len() == 2048
        &&& self.ppu.wf()
        &&& self.ppu.cycles < 341
        &&& self.mapper.wf()
    }

    /// Which picture-processor port an address in 0x2000..=0x3FFF lands on:
    /// the eight ports repeat through the whole window.
    pub open spec fn spec_reg_of(addr: u16) -> u16 {
        (0x2000 + (addr & 0x0007)) as u16
    }

    /// One processor-side read: the value (or the strict-mode error) paired
    /// with the bus afterwards.  Reading the status port clears its blank bit
    /// and the write latches; reading the data port steps the pointer and the
    /// buffer; reading the controller shifts its index; everything else
    /// leaves the bus as it was.
    #[verifier::opaque]
    pub open spec fn spec_read_model(self, addr: u16) -> (Result<u8, EmuError>, Bus) {
        if addr <= 0x1FFF {
            (Ok(self.cpu_vram@[(addr & 0x07FF) as int]), self)
        } else if addr <= 0x3FFF {
            let r = Self::spec_reg_of(addr);
            if r == 0x2002 {
                (Ok(self.ppu.status.bits), Bus { ppu: self.ppu.spec_read_status_step(), ..self })
            } else if r == 0x2004 {
                (Ok(self.ppu.oam_data@[self.ppu.oam_addr as int]), self)
            } else if r == 0x2007 {
                match self.ppu.spec_read_data_result() {
                    Ok(v) => (Ok(v), Bus { ppu: self.ppu.spec_read_data_step(), ..self }),
                    Err(e) => if self.strict {
                        (Err(e), self)
                    } else {
                        (Ok(0), self)
                    },
                }
            } else {
                if self.strict {
                    (Err(EmuError::ReadWriteOnly { addr }), self)
                } else {
                    (Ok(0), self)
                }
            }
        } else if addr == 0x4014 {
            if self.strict {
                (Err(EmuError::ReadWriteOnly { addr }), self)
            } else {
                (Ok(0), self)
            }
        } else if addr == 0x4016 {
            (
                Ok(self.joypad1.spec_read_value()),
                Bus { joypad1: self.joypad1.spec_read_step(), ..self },
            )
        } else if 0x6000 <= addr {
            match self.mapper.spec_cpu_read(addr) {
                Ok(v) => (Ok(v), self),
                Err(e) => if self.strict {
                    (Err(e), self)
                } else {
                    (Ok(0), self)
                },
            }
        } else {
            // The second controller, the audio registers and the expansion
            // area read as zero.
            (Ok(0), self)
        }
    }

    /// The value a read would produce, without any side effect and with every
    /// forbidden access coerced to zero.
    #[verifier::opaque]
    pub open spec fn spec_peek(self, addr: u16) -> u8 {
        if addr <= 0x1FFF {
            self.cpu_vram@[(addr & 0x07FF) as int]
        } else if addr <= 0x3FFF {
            let r = Self::spec_reg_of(addr);
            if r == 0x2002 {
                self.ppu.status.bits
            } else if r == 0x2004 {
                self.ppu.oam_data@[self.ppu.oam_addr as int]
            } else if r == 0x2007 {
                self.ppu.spec_peek_data()
            } else {
                0u8
            }
        } else if addr == 0x4016 {
            self.joypad1.spec_read_value()
        } else if 0x6000 <= addr {
            match self.mapper.spec_cpu_read(addr) {
                Ok(v) => v,
                Err(_) => 0u8,
            }
        } else {
            0u8
        }
    }

    /// The two-byte little-endian value the peek surface shows at `addr` and
    /// its wrapping successor.
    pub open spec fn spec_peek_u16(self, addr: u16) -> u16 {
        ((self.spec_peek(vstd::wrapping::u16_specs::wrapping_add(addr, 1)) as u16) << 8) | (
        self.spec_peek(addr) as u16)
    }

    /// Two reads compose into one little-endian word read.
    pub open spec fn spec_read_u16_model(self, addr: u16) -> (Result<u16, EmuError>, Bus) {
        let (lo, b1) = self.spec_read_model(addr);
        match lo {
            Ok(l) => {
                let (hi, b2) = b1.spec_read_model(vstd::wrapping::u16_specs::wrapping_add(addr, 1));
                match hi {
                    Ok(h) => (Ok((((h as u16) << 8) | (l as u16)) as u16), b2),
                    Err(e) => (Err(e), b2),
                }
            },
            Err(e) => (Err(e), b1),
        }
    }

    /// The first `k` bytes a sprite-upload burst starting at `base` would
    /// read, threaded through the read side effects; an error stops the
    /// burst.
    pub open spec fn spec_dma_gather(self, base: u16, k: nat) -> Result<(Seq<u8>, Bus), EmuError>
        decreases k,
    {
        if k == 0 {
            Ok((Seq::empty(), self))
        } else {
            match self.spec_dma_gather(base, (k - 1) as nat) {
                Ok(p) => {
                    let (bytes, b) = p;
                    let (r, b2) = b.spec_read_model((base + k - 1) as u16);
                    match r {
                        Ok(v) => Ok((bytes.push(v), b2)),
                        Err(e) => Err(e),
                    }
                },
                Err(e) => Err(e),
            }
        }
    }

    /// The outcome a processor-side write reports, as a function of the bus
    /// before it: success is owed everywhere but on the forbidden accesses in
    /// strict mode and on a sprite upload whose burst cannot be read.
    #[verifier::opaque]
    pub open spec fn spec_write_result(self, addr: u16, data: u8) -> Result<(), EmuError> {
        if addr <= 0x1FFF {
            Ok(())
        } else if addr <= 0x3FFF {
            let reg = Self::spec_reg_of(addr);
            if reg == 0x2002 {
                if self.strict {
                    Err(EmuError::WriteReadOnly { addr })
                } else {
                    Ok(())
                }
            } else if reg == 0x2007 {
                let a = self.ppu.addr.spec_get();
                if 0x2000 <= a && a <= 0x2FFF && self.ppu.spec_mirror_vram_addr(a) < 2048 {
                    Ok(())
                } else if 0x3F00 <= a && NesPPU::spec_palette_index(a) < 32 {
                    Ok(())
                } else if self.strict {
                    Err(self.ppu.spec_data_write_err())
                } else {
                    Ok(())
                }
            } else {
                Ok(())
            }
        } else if addr == 0x4014 {
            match self.spec_dma_gather(((data as u16) << 8) as u16, 256) {
                Ok(_) => Ok(()),
                Err(e) => Err(e),
            }
        } else if 0x6000 <= addr {
            if self.strict {
                self.mapper.spec_cpu_write_result(addr)
            } else {
                Ok(())
            }
        } else {
            Ok(())
        }
    }

    /// How one processor-side write relates the bus after (`post`) to the bus
    /// before (`pre`), together with the outcome it reports.  The sprite
    /// upload at 0x4014 is covered separately.
    #[verifier::opaque]
    pub open spec fn spec_write_rel(
        pre: Bus,
        post: Bus,
        addr: u16,
        data: u8,
        r: Result<(), EmuError>,
    ) -> bool {
        if addr <= 0x1FFF {
            &&& r is Ok
            &&& post.cpu_vram@ == pre.cpu_vram@.update((addr & 0x07FF) as int, data)
            &&& post == (Bus { cpu_vram: post.cpu_vram, ..pre })
        } else if addr <= 0x3FFF {
            let reg = Self::spec_reg_of(addr);
            if reg == 0x2000 {
                &&& r is Ok
                &&& post == (Bus { ppu: pre.ppu.spec_write_to_ctrl_step(data), ..pre })
            } else if reg == 0x2001 {
                &&& r is Ok
                &&& post == (Bus {
                    ppu: NesPPU {
                        mask: crate::registers::MaskRegister { bits: data },
                        ..pre.ppu
                    },
                    ..pre
                })
            } else if reg == 0x2002 {
                // The status port is read-only: the write never lands, and in
                // strict mode it stops emulation.
                &&& post == pre
                &&& if pre.strict {
                    r == Err::<(), EmuError>(EmuError::WriteReadOnly { addr })
                } else {
                    r is Ok
                }
            } else if reg == 0x2003 {
                &&& r is Ok
                &&& post == (Bus { ppu: NesPPU { oam_addr: data, ..pre.ppu }, ..pre })
            } else if reg == 0x2004 {
                &&& r is Ok
                &&& post.ppu.oam_data@ == pre.ppu.oam_data@.update(pre.ppu.oam_addr as int, data)
                &&& post == (Bus {
                    ppu: NesPPU {
                        oam_data: post.ppu.oam_data,
                        oam_addr: vstd::wrapping::u8_specs::wrapping_add(pre.ppu.oam_addr, 1),
                        ..pre.ppu
                    },
                    ..pre
                })
            } else if reg == 0x2005 {
                &&& r is Ok
                &&& post == (Bus { ppu: pre.ppu.spec_write_scroll_step(data), ..pre })
            } else if reg == 0x2006 {
                &&& r is Ok
                &&& post == (Bus { ppu: pre.ppu.spec_write_to_ppu_addr_step(data), ..pre })
            } else {
                // The data port: nametable or palette memory, or an error
                // outside them.
                let a = pre.ppu.addr.spec_get();
                let stepped = pre.ppu.addr.spec_increment(pre.ppu.ctrl.spec_vram_increment());
                if 0x2000 <= a && a <= 0x2FFF && pre.ppu.spec_mirror_vram_addr(a) < 2048 {
                    &&& r is Ok
                    &&& post.ppu.vram@ == pre.ppu.vram@.update(
                        pre.ppu.spec_mirror_vram_addr(a) as int,
                        data,
                    )
                    &&& post == (Bus {
                        ppu: NesPPU { vram: post.ppu.vram, addr: stepped, ..pre.ppu },
                        ..pre
                    })
                } else if 0x3F00 <= a && NesPPU::spec_palette_index(a) < 32 {
                    &&& r is Ok
                    &&& post.ppu.palette_table@ == pre.ppu.palette_table@.update(
                        NesPPU::spec_palette_index(a),
                        data,
                    )
                    &&& post == (Bus {
                        ppu: NesPPU {
                            palette_table: post.ppu.palette_table,
                            addr: stepped,
                            ..pre.ppu
                        },
                        ..pre
                    })
                } else {
                    &&& post == pre
                    &&& if pre.strict {
                        r == Err::<(), EmuError>(pre.ppu.spec_data_write_err())
                    } else {
                        r is Ok
                    }
                }
            }
        } else if addr == 0x4014 {
            // Handled by the sprite-upload clause of `mem_write`.
            true
        } else if addr == 0x4016 {
            &&& r is Ok
            &&& if data & 1 == 1 {
                post == (Bus {
                    joypad1: Joypad {
                        strobe_status: true,
                        button_index: 0,
                        button_status: pre.joypad1.button_status,
                    },
                    ..pre
                })
            } else {
                post == (Bus {
                    joypad1: Joypad {
                        strobe_status: false,
                        button_index: pre.joypad1.button_index,
                        button_status: pre.joypad1.button_status,
                    },
                    ..pre
                })
            }
        } else if 0x6000 <= addr {
            &&& post == (Bus { mapper: post.mapper, ..pre })
            &&& if pre.strict {
                Mapper::spec_cpu_write_rel(pre.mapper, post.mapper, addr, data, r)
            } else {
                &&& r is Ok
                &&& exists|mr: Result<(), EmuError>|
                    #[trigger] Mapper::spec_cpu_write_rel(pre.mapper, post.mapper, addr, data, mr)
            }
        } else {
            // Audio, the second controller and the expansion area drop the
            // write.
            &&& r is Ok
            &&& post == pre
        }
    }

    /// A bus over a decoded cartridge, in strict mode, at power-on.
    pub fn new(rom: Rom) -> (r: Bus)
        ensures
            r.wf(),
            r.cpu_vram@ == Seq::new(2048nat, |i: int| 0u8),
            r.joypad1 == (Joypad { strobe_status: false, button_index: 0, button_status: 0 }),
            r.cycles == 0,
            r.strict == true,
            r.frame_ready == false,
            r.mapper.spec_prg() == rom.prg_rom@,
            r.mapper.spec_chr() == rom.chr_rom@,
            r.mapper.spec_mirroring() == rom.screen_mirroring,
            rom.mapper_id == 1 <==> r.mapper is Sxrom,
            r.ppu.chr_rom@ == rom.chr_rom@,
            r.ppu.mirroring == rom.screen_mirroring,
            r.ppu.vram@ == Seq::new(2048nat, |i: int| 0u8),
            r.ppu.oam_data@ == Seq::new(256nat, |i: int| 0u8),
            r.ppu.palette_table@ == Seq::new(32nat, |i: int| 0u8),
            r.ppu.internal_data_buf == 0,
            r.ppu.oam_addr == 0,
            r.ppu.cycles == 0,
            r.ppu.scanline == 0,
            r.ppu.trigger_nmi == false,
            r.ppu.status.bits == 0,
            r.ppu.ctrl.bits == 0,
            r.ppu.mask.bits == 0,
            r.ppu.addr == (crate::registers::AddrRegister { value: (0u8, 0u8), hi_ptr: true }),
            r.ppu.scroll == (crate::registers::ScrollRegister {
                x_val: 0,
                y_val: 0,
                latch: true,
            }),
    {
        let mapper = rom.generate_mapper();
        let ppu = NesPPU::new(copy_bytes(&rom.chr_rom), rom.screen_mirroring);

        Bus {
            cpu_vram: byte_vec(2048, 0),
            joypad1: Joypad::new(),
            ppu,
            mapper,
            cycles: 0,
            strict: true,
            frame_ready: false,
        }
    }

    /// A bus over the dummy cartridge.
    pub fn new_fake_rom() -> (r: Bus)
        ensures
            r.wf(),
            r.cpu_vram@ == Seq::new(2048nat, |i: int| 0u8),
            r.joypad1 == (Joypad { strobe_status: false, button_index: 0, button_status: 0 }),
            r.cycles == 0,
            r.strict == true,
            r.frame_ready == false,
            r.mapper.spec_prg() == Seq::new(0x4000nat, |i: int| 0xEAu8),
            r.mapper is Nrom,
            r.mapper.spec_mirroring() == Mirroring::HORIZONTAL,
            r.ppu.chr_rom@ == Seq::new(5nat, |i: int| 0u8),
            r.ppu.mirroring == Mirroring::HORIZONTAL,
            r.ppu.vram@ == Seq::new(2048nat, |i: int| 0u8),
            r.ppu.oam_data@ == Seq::new(256nat, |i: int| 0u8),
            r.ppu.palette_table@ == Seq::new(32nat, |i: int| 0u8),
            r.ppu.internal_data_buf == 0,
            r.ppu.oam_addr == 0,
            r.ppu.cycles == 0,
            r.ppu.scanline == 0,
            r.ppu.trigger_nmi == false,
            r.ppu.status.bits == 0,
            r.ppu.ctrl.bits == 0,
            r.ppu.mask.bits == 0,
            r.ppu.addr == (crate::registers::AddrRegister { value: (0u8, 0u8), hi_ptr: true }),
            r.ppu.scroll == (crate::registers::ScrollRegister {
                x_val: 0,
                y_val: 0,
                latch: true,
            }),
    {
        let temp_rom = test_rom_gen();
        Bus::new(temp_rom)
    }

    /// Advances bus time: `cycles` processor cycles, three picture dots each.
    /// When the picture processor raises its interrupt during the advance ---
    /// the rising edge of the vertical blank --- the frame-ready latch is
    /// set, exactly once per frame.
    pub fn tick(&mut self, cycles: usize)
        requires
            old(self).wf(),
            cycles <= 0xFFFF,
        ensures
            final(self).wf(),
            *final(self) == spec_tick_bus(*old(self), cycles),
    {
        if cycles > usize::MAX - self.cycles {
            self.cycles = usize::MAX;
        } else {
            self.cycles = self.cycles + cycles;
        }

        // The interrupt line before and after the advance tells whether this
        // tick entered the vertical blank.
        let nmi_before = self.ppu.get_nmi_status();
        proof {
            crate::ppu::lemma_tick_drain_bound(
                NesPPU { cycles: (old(self).ppu.cycles + cycles) as usize, ..old(self).ppu },
                false,
            );
        }
        let _ = self.ppu.tick(cycles);
        proof {
            crate::ppu::lemma_tick_drain_bound(
                NesPPU { cycles: (self.ppu.cycles + cycles) as usize, ..self.ppu },
                false,
            );
        }
        let _ = self.ppu.tick(cycles);
        proof {
            crate::ppu::lemma_tick_drain_bound(
                NesPPU { cycles: (self.ppu.cycles + cycles) as usize, ..self.ppu },
                false,
            );
        }
        let _ = self.ppu.tick(cycles);
        let nmi_after = self.ppu.get_nmi_status();

        if !nmi_before && nmi_after {
            self.frame_ready = true;
        }
    }

    /// A processor-side read, with its side effects.
    pub fn mem_read(&mut self, addr: u16) -> (r: Result<u8, EmuError>)
        requires
            old(self).wf(),
        ensures
            final(self).wf(),
            (r, *final(self)) == old(self).spec_read_model(addr),
    {
        reveal(Bus::spec_read_model);
        proof {
            lemma_bus_masks(addr);
        }
        if addr <= 0x1FFF {
            Ok(self.cpu_vram[(addr & 0x07FF) as usize])
        } else if addr <= 0x3FFF {
            let reg = 0x2000 + (addr & 0x0007);
            if reg == 0x2002 {
                Ok(self.ppu.read_status())
            } else if reg == 0x2004 {
                Ok(self.ppu.oam_data_read())
            } else if reg == 0x2007 {
                match self.ppu.read_data() {
                    Ok(v) => Ok(v),
                    Err(e) => if self.strict {
                        Err(e)
                    } else {
                        Ok(0)
                    },
                }
            } else {
                // 0x2000, 0x2001, 0x2003, 0x2005 and 0x2006 are write-only.
                if self.strict {
                    Err(EmuError::ReadWriteOnly { addr })
                } else {
                    Ok(0)
                }
            }
        } else if addr == 0x4014 {
            if self.strict {
                Err(EmuError::ReadWriteOnly { addr })
            } else {
                Ok(0)
            }
        } else if addr == 0x4016 {
            Ok(self.joypad1.read())
        } else if 0x6000 <= addr {
            match self.mapper.cpu_read(addr) {
                Ok(v) => Ok(v),
                Err(e) => if self.strict {
                    Err(e)
                } else {
                    Ok(0)
                },
            }
        } else {
            Ok(0)
        }
    }

    /// The value a read would produce, with no side effect: the trace surface.
    pub fn mem_peek(&self, addr: u16) -> (r: u8)
        requires
            self.wf(),
        ensures
            r == self.spec_peek(addr),
    {
        reveal(Bus::spec_peek);
        proof {
            lemma_bus_masks(addr);
        }
        if addr <= 0x1FFF {
            self.cpu_vram[(addr & 0x07FF) as usize]
        } else if addr <= 0x3FFF {
            let reg = 0x2000 + (addr & 0x0007);
            if reg == 0x2002 {
                self.ppu.peek_status()
            } else if reg == 0x2004 {
                self.ppu.oam_data_read()
            } else if reg == 0x2007 {
                self.ppu.peek_data()
            } else {
                0
            }
        } else if addr == 0x4016 {
            self.joypad1.peek()
        } else if 0x6000 <= addr {
            match self.mapper.cpu_read(addr) {
                Ok(v) => v,
                Err(_) => 0,
            }
        } else {
            0
        }
    }

    /// A little-endian word read: low byte first, high byte from the wrapping
    /// successor address.
    pub fn mem_read_u16(&mut self, addr: u16) -> (r: Result<u16, EmuError>)
        requires
            old(self).wf(),
        ensures
            final(self).wf(),
            (r, *final(self)) == old(self).spec_read_u16_model(addr),
    {
        let lo = match self.mem_read(addr) {
            Ok(v) => v,
            Err(e) => {
                return Err(e);
            },
        };
        let hi = match self.mem_read(addr.wrapping_add(1)) {
            Ok(v) => v,
            Err(e) => {
                return Err(e);
            },
        };
        Ok(((hi as u16) << 8) | (lo as u16))
    }

    /// The word the peek surface shows, with no side effect.
    pub fn mem_peek_u16(&self, addr: u16) -> (r: u16)
        requires
            self.wf(),
        ensures
            r == self.spec_peek_u16(addr),
    {
        let lo = self.mem_peek(addr);
        let hi = self.mem_peek(addr.wrapping_add(1));
        ((hi as u16) << 8) | (lo as u16)
    }

    /// A processor-side write.  A write to 0x4014 performs the sprite upload:
    /// 256 bytes read from page `data` of processor space land in
    /// object-attribute memory, starting at its current address.
    #[verifier::rlimit(100)]
    pub fn mem_write(&mut self, addr: u16, data: u8) -> (r: Result<(), EmuError>)
        requires
            old(self).wf(),
        ensures
            final(self).wf(),
            r == old(self).spec_write_result(addr, data),
            final(self).strict == old(self).strict,
            addr != 0x4014 ==> final(self).cycles == old(self).cycles,
            addr != 0x4014 ==> final(self).frame_ready == old(self).frame_ready,
            spec_write_effect(*old(self), *final(self), addr, data, r),
    {
        reveal(Bus::spec_read_model);
        reveal(Bus::spec_peek);
        reveal(Bus::spec_write_rel);
        reveal(Bus::spec_write_result);
        reveal(spec_write_effect);
        proof {
            lemma_bus_masks(addr);
            lemma_page_base(data);
        }
        if addr <= 0x1FFF {
            let idx = (addr & 0x07FF) as usize;
            self.cpu_vram[idx] = data;
            Ok(())
        } else if addr <= 0x3FFF {
            let reg = 0x2000 + (addr & 0x0007);
            if reg == 0x2000 {
                self.ppu.write_to_ctrl(data);
                Ok(())
            } else if reg == 0x2001 {
                self.ppu.write_mask(data);
                Ok(())
            } else if reg == 0x2002 {
                if self.strict {
                    Err(EmuError::WriteReadOnly { addr })
                } else {
                    Ok(())
                }
            } else if reg == 0x2003 {
                self.ppu.oam_addr_write(data);
                Ok(())
            } else if reg == 0x2004 {
                self.ppu.oam_data_write(data);
                Ok(())
            } else if reg == 0x2005 {
                self.ppu.write_scroll(data);
                Ok(())
            } else if reg == 0x2006 {
                self.ppu.write_to_ppu_addr(data);
                Ok(())
            } else {
                match self.ppu.write_to_data(data) {
                    Ok(()) => Ok(()),
                    Err(e) => if self.strict {
                        Err(e)
                    } else {
                        Ok(())
                    },
                }
            }
        } else if addr == 0x4014 {
            let base = (data as u16) << 8;
            let ghost start = *self;
            let mut buf = [0u8; 256];
            proof {
                assert(buf@.subrange(0, 0) =~= Seq::<u8>::empty());
            }
            let mut i: usize = 0;
            while i < 256
                invariant
                    self.wf(),
                    i <= 256,
                    addr == 0x4014,
                    start == *old(self),
                    self.cycles == start.cycles,
                    self.strict == start.strict,
                    self.frame_ready == start.frame_ready,
                    base == ((data as u16) << 8),
                    base <= 0xFF00,
                    start.spec_dma_gather(base, i as nat) == Ok::<(Seq<u8>, Bus), EmuError>(
                        (buf@.subrange(0, i as int), *self),
                    ),
                decreases 256 - i,
            {
                reveal(Bus::spec_read_model);
                let ghost pre = *self;
                let ghost sub = buf@.subrange(0, i as int);
                match self.mem_read(base + (i as u16)) {
                    Ok(v) => {
                        proof {
                            assert((Ok::<u8, EmuError>(v), *self) == pre.spec_read_model(
                                (base + (i as u16)) as u16,
                            ));
                        }
                        buf[i] = v;
                        proof {
                            assert(buf@.subrange(0, i as int) =~= sub);
                            assert(buf@.subrange(0, i as int + 1) =~= sub.push(v));
                            assert(start.spec_dma_gather(base, (i + 1) as nat) == Ok::<
                                (Seq<u8>, Bus),
                                EmuError,
                            >((sub.push(v), *self)));
                        }
                    },
                    Err(e) => {
                        reveal(Bus::spec_write_result);
                        reveal(spec_write_effect);
                        proof {
                            assert(start.spec_dma_gather(base, (i + 1) as nat) == Err::<
                                (Seq<u8>, Bus),
                                EmuError,
                            >(e));
                            lemma_dma_gather_err(start, base, (i + 1) as nat, 256);
                        }
                        return Err(e);
                    },
                }
                i = i + 1;
            }
            reveal(Bus::spec_read_model);
            reveal(Bus::spec_write_result);
            reveal(spec_write_effect);
            proof {
                assert(buf@.subrange(0, 256) =~= buf@);
            }
            self.ppu.oam_dma_write(&buf);
            // The burst occupies the bus: it advances bus time by 513 cycles
            // (the faithful cost, taking the even split of the two parities).
            let ghost copied = *self;
            self.tick(513);
            proof {
                let (p1, _) = copied.ppu.spec_tick(513);
                let (p2, _) = p1.spec_tick(513);
                crate::ppu::lemma_tick_frame(
                    NesPPU { cycles: (copied.ppu.cycles + 513) as usize, ..copied.ppu },
                    false,
                );
                crate::ppu::lemma_tick_frame(
                    NesPPU { cycles: (p1.cycles + 513) as usize, ..p1 },
                    false,
                );
                crate::ppu::lemma_tick_frame(
                    NesPPU { cycles: (p2.cycles + 513) as usize, ..p2 },
                    false,
                );
            }
            Ok(())
        } else if addr == 0x4016 {
            self.joypad1.write(data);
            Ok(())
        } else if 0x6000 <= addr {
            match self.mapper.cpu_write(addr, data) {
                Ok(()) => Ok(()),
                Err(e) => if self.strict {
                    Err(e)
                } else {
                    proof {
                        assert(Mapper::spec_cpu_write_rel(
                            old(self).mapper,
                            self.mapper,
                            addr,
                            data,
                            Err(e),
                        ));
                    }
                    Ok(())
                },
            }
        } else {
            // Audio registers, the second controller and the expansion area
            // drop the write.
            Ok(())
        }
    }

    /// A little-endian word write: low byte at `addr`, high byte at its
    /// wrapping successor.
    pub fn mem_write_u16(&mut self, addr: u16, data: u16) -> (r: Result<(), EmuError>)
        requires
            old(self).wf(),
            addr != 0x4014,
            vstd::wrapping::u16_specs::wrapping_add(addr, 1) != 0x4014,
        ensures
            final(self).wf(),
            r is Ok ==> exists|mid: Bus|
                {
                    &&& #[trigger] Bus::spec_write_rel(
                        *old(self),
                        mid,
                        addr,
                        (data & 0x00FF) as u8,
                        Ok(()),
                    )
                    &&& Bus::spec_write_rel(
                        mid,
                        *final(self),
                        vstd::wrapping::u16_specs::wrapping_add(addr, 1),
                        (data >> 8) as u8,
                        Ok(()),
                    )
                },
    {
        reveal(Bus::spec_write_rel);
        reveal(spec_write_effect);
        let hi = (data >> 8) as u8;
        let lo = (data & 0x00FF) as u8;

        match self.mem_write(addr, lo) {
            Ok(()) => {},
            Err(e) => {
                return Err(e);
            },
        }
        let ghost mid = *self;
        match self.mem_write(addr.wrapping_add(1), hi) {
            Ok(()) => {
                proof {
                    assert(Bus::spec_write_rel(*old(self), mid, addr, (data & 0x00FF) as u8, Ok(())));
                }
                Ok(())
            },
            Err(e) => Err(e),
        }
    }

    /// Whether the picture processor holds its interrupt line up.
    pub fn poll_nmi_status(&mut self) -> (r: bool)
        ensures
            *final(self) == *old(self),
            r == old(self).ppu.trigger_nmi,
    {
        self.ppu.get_nmi_status()
    }

    /// Hands out the frame-ready latch and clears it.
    pub fn poll_frame_ready(&mut self) -> (r: bool)
        ensures
            r == old(self).frame_ready,
            *final(self) == (Bus { frame_ready: false, ..*old(self) }),
    {
        let r = self.frame_ready;
        self.frame_ready = false;
        r
    }
}

/// A write to the read-only status port at 0x2002 never lands: the bus is
/// unchanged, the picture-processor status byte with it, and the write is
/// reported as an error in strict mode and dropped in lenient mode.
pub proof fn lemma_status_port_write_rejected(
    pre: Bus,
    post: Bus,
    data: u8,
    r: Result<(), EmuError>,
)
    requires
        Bus::spec_write_rel(pre, post, 0x2002, data, r),
    ensures
        post == pre,
        post.ppu.status == pre.ppu.status,
        pre.strict ==> r == Err::<(), EmuError>(EmuError::WriteReadOnly { addr: 0x2002 }),
        !pre.strict ==> r is Ok,
{
    reveal(Bus::spec_write_rel);
    assert(0x2002u16 & 0x0007 == 2) by (bit_vector);
}

/// One processor-side write, the sprite upload at 0x4014 included: how the
/// bus after relates to the bus before, with the outcome reported.
#[verifier::opaque]
pub open spec fn spec_write_effect(
    pre: Bus,
    post: Bus,
    addr: u16,
    data: u8,
    r: Result<(), EmuError>,
) -> bool {
    if addr == 0x4014 {
        match pre.spec_dma_gather(((data as u16) << 8) as u16, 256) {
            Ok(p) => {
                &&& r is Ok
                &&& post.ppu.oam_data@ == NesPPU::spec_oam_after_dma(
                    p.1.ppu.oam_data@,
                    p.1.ppu.oam_addr,
                    p.0,
                )
                &&& post == spec_tick_bus(
                    Bus { ppu: NesPPU { oam_data: post.ppu.oam_data, ..p.1.ppu }, ..p.1 },
                    513,
                )
            },
            Err(e) => r == Err::<(), EmuError>(e),
        }
    } else {
        Bus::spec_write_rel(pre, post, addr, data, r)
    }
}

/// Address masks the bus routing relies on.
proof fn lemma_bus_masks(a: u16)
    by (bit_vector)
    ensures
        a & 0x07FF < 2048,
        a & 0x0007 <= 7,
{
}

/// A page number shifted up stays one page below the top of the address
/// space.
proof fn lemma_page_base(d: u8)
    by (bit_vector)
    ensures
        ((d as u16) << 8) <= 0xFF00,
{
}

/// An upload burst that has failed stays failed, with the same error.
proof fn lemma_dma_gather_err(b: Bus, base: u16, k: nat, n: nat)
    requires
        k <= n,
        b.spec_dma_gather(base, k) is Err,
    ensures
        b.spec_dma_gather(base, n) == b.spec_dma_gather(base, k),
    decreases n,
{
    if n > k {
        lemma_dma_gather_err(b, base, k, (n - 1) as nat);
    }
}

} // verus!
