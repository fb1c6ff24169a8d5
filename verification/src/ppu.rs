use vstd::prelude::*;

verus! {

use crate::bytes::byte_vec;
use crate::errors::EmuError;
use crate::registers::{
    AddrRegister,
    ControlRegister,
    MaskRegister,
    ScrollRegister,
    StatusRegister,
    lemma_addr_increment_in_range,
    lemma_addr_two_writes,
    lemma_addr_update_in_range,
};
use crate::rom::Mirroring;

/// The picture processor: 2 KiB of nametable memory, 32 bytes of palette
/// memory, 256 bytes of object-attribute memory, its own copy of character
/// memory, the memory-mapped registers, and the scanline/dot clock.
pub struct NesPPU {
    pub chr_rom: Vec<u8>,
    pub palette_table: Vec<u8>,
    pub vram: Vec<u8>,
    pub oam_data: Vec<u8>,
    pub internal_data_buf: u8,
    pub oam_addr: u8,
    pub mirroring: Mirroring,
    pub cycles: usize,
    pub scanline: u16,
    pub trigger_nmi: bool,
    pub addr: AddrRegister,
    pub status: StatusRegister,
    pub scroll: ScrollRegister,
    pub mask: MaskRegister,
    pub ctrl: ControlRegister,
}

impl NesPPU {
    /// The memories have their fixed sizes, the video memory pointer lies in
    /// its 14-bit space, and the scanline counter stays within one frame.
    pub open spec fn wf(self) -> bool {
        &&& self.vram.len() == 2048
        &&& self.palette_table.len() == 32
        &&& self.oam_data.len() == 256
        &&& self.addr.spec_get() <= 0x3FFF
        &&& self.scanline <= 261
    }

    /// Folds a nametable address into the 2 KiB of physical memory under the
    /// cartridge's mirroring: four logical 1 KiB tables map onto two pages.
    pub open spec fn spec_mirror_vram_addr(self, addr: u16) -> u16 {
        let mirrored = addr & 0x2FFF;
        let vram_index = (mirrored - 0x2000) as u16;
        let name_table = vram_index / 0x400;
        if self.mirroring == Mirroring::VERTICAL && (name_table == 2 || name_table == 3) {
            (vram_index - 0x800) as u16
        } else if self.mirroring == Mirroring::HORIZONTAL && (name_table == 2 || name_table == 1) {
            (vram_index - 0x400) as u16
        } else if self.mirroring == Mirroring::HORIZONTAL && name_table == 3 {
            (vram_index - 0x800) as u16
        } else {
            vram_index
        }
    }

    /// One scanline boundary: entering scanline 241 starts the vertical
    /// blank, clears the sprite-zero hit and, when enabled, raises the
    /// non-maskable interrupt; passing the last scanline wraps to 0, clears
    /// the blank-period flags, lowers the interrupt and completes a frame.
    pub open spec fn spec_scanline_step(self) -> (NesPPU, bool) {
        let sl = (self.scanline + 1) as u16;
        let c = (self.cycles - 341) as usize;
        let at241 = if sl == 241 {
            NesPPU {
                cycles: c,
                scanline: sl,
                status: self.status.spec_with_flag(0x80, true).spec_with_flag(0x40, false),
                trigger_nmi: self.trigger_nmi || self.ctrl.spec_generate_nmi(),
                ..self
            }
        } else {
            NesPPU { cycles: c, scanline: sl, ..self }
        };
        if sl >= 262 {
            (
                NesPPU {
                    scanline: 0,
                    trigger_nmi: false,
                    status: at241.status.spec_with_flag(0x80, false).spec_with_flag(
                        0x20,
                        false,
                    ).spec_with_flag(0x40, false),
                    ..at241
                },
                true,
            )
        } else {
            (at241, false)
        }
    }

    /// Drains whole scanlines out of the dot accumulator.
    pub open spec fn spec_tick_drain(self, frame: bool) -> (NesPPU, bool)
        decreases self.cycles,
    {
        if self.cycles >= 341 {
            let (p, f) = self.spec_scanline_step();
            p.spec_tick_drain(frame || f)
        } else {
            (self, frame)
        }
    }

    /// The state after `n` more dots have elapsed.
    pub open spec fn spec_tick(self, n: usize) -> (NesPPU, bool) {
        NesPPU { cycles: (self.cycles + n) as usize, ..self }.spec_tick_drain(false)
    }

    /// A read of the status port: the byte goes out as it stands, then the
    /// vertical-blank bit clears and both two-write latches reset.
    pub open spec fn spec_read_status_step(self) -> NesPPU {
        NesPPU {
            addr: AddrRegister { value: self.addr.value, hi_ptr: true },
            scroll: ScrollRegister {
                x_val: self.scroll.x_val,
                y_val: self.scroll.y_val,
                latch: true,
            },
            status: StatusRegister { bits: self.status.bits & 0x7F },
            ..self
        }
    }

    /// A write to the control port: the new bits land, and if interrupt
    /// generation turns on during a vertical blank the interrupt goes up at
    /// once.
    pub open spec fn spec_write_to_ctrl_step(self, value: u8) -> NesPPU {
        let turned_on = !self.ctrl.spec_generate_nmi() && (ControlRegister {
            bits: value,
        }).spec_generate_nmi();
        NesPPU {
            ctrl: ControlRegister { bits: value },
            trigger_nmi: self.trigger_nmi || (turned_on && self.status.spec_vblank()),
            ..self
        }
    }

    /// A write to the scroll port.
    pub open spec fn spec_write_scroll_step(self, data: u8) -> NesPPU {
        NesPPU { scroll: self.scroll.spec_write(data), ..self }
    }

    /// A write to the address port.
    pub open spec fn spec_write_to_ppu_addr_step(self, value: u8) -> NesPPU {
        NesPPU { addr: self.addr.spec_update(value), ..self }
    }

    /// Where a palette access lands: entries 0x10, 0x14, 0x18 and 0x1C are
    /// images of 0x00, 0x04, 0x08 and 0x0C.
    pub open spec fn spec_palette_index(addr: u16) -> int {
        let i = (addr - 0x3F00) as int;
        if i == 0x10 || i == 0x14 || i == 0x18 || i == 0x1C {
            i - 0x10
        } else {
            i
        }
    }

    /// What a data-port read returns, before any side effect: a buffered byte
    /// below the palette window, the palette byte itself inside it.
    pub open spec fn spec_read_data_result(self) -> Result<u8, EmuError> {
        let a = self.addr.spec_get();
        if a <= 0x1FFF {
            if (a as int) < self.chr_rom.len() {
                Ok(self.internal_data_buf)
            } else {
                Err(EmuError::CartridgeBounds { addr: a })
            }
        } else if a <= 0x2FFF {
            if self.spec_mirror_vram_addr(a) < 2048 {
                Ok(self.internal_data_buf)
            } else {
                Err(EmuError::NametableBounds { addr: a })
            }
        } else if a <= 0x3EFF {
            Err(EmuError::VramWindow { addr: a })
        } else {
            if Self::spec_palette_index(a) < 32 {
                Ok(self.palette_table@[Self::spec_palette_index(a)])
            } else {
                Err(EmuError::PaletteBounds { addr: a })
            }
        }
    }

    /// The state after a successful data-port read: the pointer steps by the
    /// configured increment and, below the palette window, the buffer reloads
    /// from the byte behind the pointer.
    pub open spec fn spec_read_data_step(self) -> NesPPU {
        let a = self.addr.spec_get();
        let stepped = self.addr.spec_increment(self.ctrl.spec_vram_increment());
        if a <= 0x1FFF {
            NesPPU { addr: stepped, internal_data_buf: self.chr_rom@[a as int], ..self }
        } else if a <= 0x2FFF {
            NesPPU {
                addr: stepped,
                internal_data_buf: self.vram@[self.spec_mirror_vram_addr(a) as int],
                ..self
            }
        } else {
            NesPPU { addr: stepped, ..self }
        }
    }

    /// The error a data-port write reports when the pointer sits outside
    /// writable memory.
    pub open spec fn spec_data_write_err(self) -> EmuError {
        let a = self.addr.spec_get();
        if a <= 0x1FFF {
            EmuError::ChrWrite { addr: a }
        } else if a <= 0x2FFF {
            EmuError::NametableBounds { addr: a }
        } else if a <= 0x3EFF {
            EmuError::VramWindow { addr: a }
        } else {
            EmuError::PaletteBounds { addr: a }
        }
    }

    /// What a data-port read would return, with no side effect; a pointer the
    /// read would refuse shows the zero a lenient read coerces to.
    pub open spec fn spec_peek_data(self) -> u8 {
        match self.spec_read_data_result() {
            Ok(v) => v,
            Err(_) => 0u8,
        }
    }

    /// A picture processor with no cartridge attached: 2 KiB of blank
    /// character memory and horizontal mirroring.
    pub fn new_empty_rom() -> (r: Self)
        ensures
            r.wf(),
            r.chr_rom@ == Seq::new(2048nat, |i: int| 0u8),
            r.mirroring == Mirroring::HORIZONTAL,
            r.palette_table@ == Seq::new(32nat, |i: int| 0u8),
            r.vram@ == Seq::new(2048nat, |i: int| 0u8),
            r.oam_data@ == Seq::new(256nat, |i: int| 0u8),
            r.internal_data_buf == 0,
            r.oam_addr == 0,
            r.cycles == 0,
            r.scanline == 0,
            r.trigger_nmi == false,
            r.addr == (AddrRegister { value: (0u8, 0u8), hi_ptr: true }),
            r.status.bits == 0,
            r.scroll == (ScrollRegister { x_val: 0, y_val: 0, latch: true }),
            r.mask.bits == 0,
            r.ctrl.bits == 0,
    {
        NesPPU::new(byte_vec(2048, 0), Mirroring::HORIZONTAL)
    }

    /// A picture processor over the cartridge's character memory.
    pub fn new(chr_rom: Vec<u8>, mirroring: Mirroring) -> (r: Self)
        ensures
            r.wf(),
            r.chr_rom@ == chr_rom@,
            r.mirroring == mirroring,
            r.palette_table@ == Seq::new(32nat, |i: int| 0u8),
            r.vram@ == Seq::new(2048nat, |i: int| 0u8),
            r.oam_data@ == Seq::new(256nat, |i: int| 0u8),
            r.internal_data_buf == 0,
            r.oam_addr == 0,
            r.cycles == 0,
            r.scanline == 0,
            r.trigger_nmi == false,
            r.addr == (AddrRegister { value: (0u8, 0u8), hi_ptr: true }),
            r.status.bits == 0,
            r.scroll == (ScrollRegister { x_val: 0, y_val: 0, latch: true }),
            r.mask.bits == 0,
            r.ctrl.bits == 0,
    {
        NesPPU {
            chr_rom,
            mirroring,
            internal_data_buf: 0,
            oam_addr: 0,
            vram: byte_vec(2048, 0),
            oam_data: byte_vec(256, 0),
            palette_table: byte_vec(32, 0),
            cycles: 0,
            scanline: 0,
            trigger_nmi: false,
            addr: AddrRegister::new(),
            status: StatusRegister::new(),
            scroll: ScrollRegister::new(),
            mask: MaskRegister::new(),
            ctrl: ControlRegister::new(),
        }
    }

    /// Advances the dot clock: every full scanline's worth of dots in the
    /// accumulator advances the scanline, with the vertical-blank effects at
    /// scanline 241 and the frame wrap past the last scanline.  Returns
    /// whether a frame was completed.
    pub fn tick(&mut self, cycles: usize) -> (frame: bool)
        requires
            old(self).wf(),
            old(self).cycles + cycles <= usize::MAX,
        ensures
            final(self).wf(),
            (*final(self), frame) == old(self).spec_tick(cycles),
    {
        self.cycles = self.cycles + cycles;
        let mut frame = false;
        let ghost start = *self;

        while self.cycles >= 341
            invariant
                self.wf(),
                start.spec_tick_drain(false) == self.spec_tick_drain(frame),
            decreases self.cycles,
        {
            self.cycles = self.cycles - 341;
            self.scanline = self.scanline + 1;

            if self.scanline == 241 {
                self.status.set_vblank_started(true);
                self.status.set_sprite_zero_hit(false);
                if self.ctrl.is_generate_nmi() {
                    self.trigger_nmi = true;
                }
            }

            if self.scanline >= 262 {
                self.trigger_nmi = false;
                self.scanline = 0;
                self.status.set_vblank_started(false);
                self.status.set_sprite_overflow(false);
                self.status.set_sprite_zero_hit(false);
                frame = true;
            }
        }
        frame
    }

    /// A write through the 0x2006 port.
    pub fn write_to_ppu_addr(&mut self, value: u8)
        requires
            old(self).wf(),
        ensures
            final(self).wf(),
            *final(self) == old(self).spec_write_to_ppu_addr_step(value),
    {
        proof {
            lemma_addr_update_in_range(self.addr, value);
        }
        self.addr.update(value);
    }

    /// A write through the 0x2000 port.
    pub fn write_to_ctrl(&mut self, value: u8)
        requires
            old(self).wf(),
        ensures
            final(self).wf(),
            *final(self) == old(self).spec_write_to_ctrl_step(value),
    {
        let prev_ctrl_status = self.ctrl.is_generate_nmi();
        self.ctrl.update(value);
        if !prev_ctrl_status && self.ctrl.is_generate_nmi() && self.status.is_vblank_started() {
            self.trigger_nmi = true;
        }
    }

    /// Whether the non-maskable interrupt is pending.
    pub fn get_nmi_status(&self) -> (r: bool)
        ensures
            r == self.trigger_nmi,
    {
        self.trigger_nmi
    }

    /// Steps the video memory pointer by the increment the control register
    /// selects.
    pub fn increment_vram_addr(&mut self)
        requires
            old(self).wf(),
        ensures
            final(self).wf(),
            *final(self) == (NesPPU {
                addr: old(self).addr.spec_increment(old(self).ctrl.spec_vram_increment()),
                ..*old(self)
            }),
    {
        proof {
            lemma_addr_increment_in_range(self.addr, self.ctrl.spec_vram_increment());
        }
        let inc = self.ctrl.vram_addr_increment();
        self.addr.increment(inc);
    }

    /// A read through the 0x2007 port: buffered below the palette window,
    /// direct inside it, stepping the pointer on success.
    pub fn read_data(&mut self) -> (r: Result<u8, EmuError>)
        requires
            old(self).wf(),
        ensures
            final(self).wf(),
            r == old(self).spec_read_data_result(),
            r is Ok ==> *final(self) == old(self).spec_read_data_step(),
            r is Err ==> *final(self) == *old(self),
    {
        let addr = self.addr.get();

        if addr <= 0x1FFF {
            if (addr as usize) < self.chr_rom.len() {
                let result = self.internal_data_buf;
                self.internal_data_buf = self.chr_rom[addr as usize];
                self.increment_vram_addr();
                Ok(result)
            } else {
                Err(EmuError::CartridgeBounds { addr })
            }
        } else if addr <= 0x2FFF {
            let m = self.mirror_vram_addr(addr);
            if m < 2048 {
                let result = self.internal_data_buf;
                self.internal_data_buf = self.vram[m as usize];
                self.increment_vram_addr();
                Ok(result)
            } else {
                Err(EmuError::NametableBounds { addr })
            }
        } else if addr <= 0x3EFF {
            // This window mirrors nametable memory on real hardware, but the
            // pointer is never expected to sit here.
            Err(EmuError::VramWindow { addr })
        } else {
            let base = addr - 0x3F00;
            let idx = if base == 0x10 || base == 0x14 || base == 0x18 || base == 0x1C {
                base - 0x10
            } else {
                base
            };
            if idx < 32 {
                let result = self.palette_table[idx as usize];
                self.increment_vram_addr();
                Ok(result)
            } else {
                Err(EmuError::PaletteBounds { addr })
            }
        }
    }

    /// A write through the 0x2007 port: nametable or palette memory only,
    /// stepping the pointer on success.
    pub fn write_to_data(&mut self, data: u8) -> (r: Result<(), EmuError>)
        requires
            old(self).wf(),
        ensures
            final(self).wf(),
            ({
                let a = old(self).addr.spec_get();
                let stepped = old(self).addr.spec_increment(old(self).ctrl.spec_vram_increment());
                if a <= 0x1FFF {
                    &&& r == Err::<(), EmuError>(EmuError::ChrWrite { addr: a })
                    &&& *final(self) == *old(self)
                } else if a <= 0x2FFF {
                    let m = old(self).spec_mirror_vram_addr(a);
                    if m < 2048 {
                        &&& r is Ok
                        &&& final(self).vram@ == old(self).vram@.update(m as int, data)
                        &&& *final(self) == (NesPPU {
                            vram: final(self).vram,
                            addr: stepped,
                            ..*old(self)
                        })
                    } else {
                        &&& r == Err::<(), EmuError>(EmuError::NametableBounds { addr: a })
                        &&& *final(self) == *old(self)
                    }
                } else if a <= 0x3EFF {
                    &&& r == Err::<(), EmuError>(EmuError::VramWindow { addr: a })
                    &&& *final(self) == *old(self)
                } else {
                    let i = Self::spec_palette_index(a);
                    if i < 32 {
                        &&& r is Ok
                        &&& final(self).palette_table@ == old(self).palette_table@.update(i, data)
                        &&& *final(self) == (NesPPU {
                            palette_table: final(self).palette_table,
                            addr: stepped,
                            ..*old(self)
                        })
                    } else {
                        &&& r == Err::<(), EmuError>(EmuError::PaletteBounds { addr: a })
                        &&& *final(self) == *old(self)
                    }
                }
            }),
    {
        let addr = self.addr.get();

        if addr <= 0x1FFF {
            Err(EmuError::ChrWrite { addr })
        } else if addr <= 0x2FFF {
            let m = self.mirror_vram_addr(addr);
            if m < 2048 {
                self.vram[m as usize] = data;
                self.increment_vram_addr();
                Ok(())
            } else {
                Err(EmuError::NametableBounds { addr })
            }
        } else if addr <= 0x3EFF {
            Err(EmuError::VramWindow { addr })
        } else {
            let base = addr - 0x3F00;
            let idx = if base == 0x10 || base == 0x14 || base == 0x18 || base == 0x1C {
                base - 0x10
            } else {
                base
            };
            if idx < 32 {
                self.palette_table[idx as usize] = data;
                self.increment_vram_addr();
                Ok(())
            } else {
                Err(EmuError::PaletteBounds { addr })
            }
        }
    }

    /// A read of the 0x2002 status port: returns the byte, clears the
    /// vertical-blank bit and resets both two-write latches.
    pub fn read_status(&mut self) -> (r: u8)
        requires
            old(self).wf(),
        ensures
            final(self).wf(),
            r == old(self).status.bits,
            *final(self) == old(self).spec_read_status_step(),
    {
        self.addr.reset_latch();
        self.scroll.reset_latch();
        self.status.read()
    }

    /// The status byte with no side effect.
    pub fn peek_status(&self) -> (r: u8)
        ensures
            r == self.status.bits,
    {
        self.status.current_val()
    }

    /// What the data port would return, with no side effect.
    pub fn peek_data(&self) -> (r: u8)
        requires
            self.wf(),
        ensures
            r == self.spec_peek_data(),
    {
        let addr = self.addr.get();
        if addr <= 0x1FFF {
            if (addr as usize) < self.chr_rom.len() {
                self.internal_data_buf
            } else {
                0
            }
        } else if addr <= 0x2FFF {
            if self.mirror_vram_addr(addr) < 2048 {
                self.internal_data_buf
            } else {
                0
            }
        } else if addr <= 0x3EFF {
            0
        } else {
            let base = addr - 0x3F00;
            let idx = if base == 0x10 || base == 0x14 || base == 0x18 || base == 0x1C {
                base - 0x10
            } else {
                base
            };
            if idx < 32 {
                self.palette_table[idx as usize]
            } else {
                0
            }
        }
    }

    /// A write through the 0x2005 scroll port.
    pub fn write_scroll(&mut self, data: u8)
        requires
            old(self).wf(),
        ensures
            final(self).wf(),
            *final(self) == old(self).spec_write_scroll_step(data),
    {
        self.scroll.write(data);
    }

    /// A write through the 0x2001 mask port.
    pub fn write_mask(&mut self, data: u8)
        requires
            old(self).wf(),
        ensures
            final(self).wf(),
            *final(self) == (NesPPU { mask: MaskRegister { bits: data }, ..*old(self) }),
    {
        self.mask.update(data);
    }

    /// A write through the 0x2003 port sets the object-attribute address.
    pub fn oam_addr_write(&mut self, data: u8)
        requires
            old(self).wf(),
        ensures
            final(self).wf(),
            *final(self) == (NesPPU { oam_addr: data, ..*old(self) }),
    {
        self.oam_addr = data;
    }

    /// A read through the 0x2004 port: the byte under the current
    /// object-attribute address, which does not move.
    pub fn oam_data_read(&self) -> (r: u8)
        requires
            self.wf(),
        ensures
            r == self.oam_data@[self.oam_addr as int],
    {
        self.oam_data[self.oam_addr as usize]
    }

    /// A write through the 0x2004 port: stores at the current
    /// object-attribute address, which then steps forward.
    pub fn oam_data_write(&mut self, data: u8)
        requires
            old(self).wf(),
        ensures
            final(self).wf(),
            final(self).oam_data@ == old(self).oam_data@.update(old(self).oam_addr as int, data),
            *final(self) == (NesPPU {
                oam_data: final(self).oam_data,
                oam_addr: vstd::wrapping::u8_specs::wrapping_add(old(self).oam_addr, 1),
                ..*old(self)
            }),
    {
        self.oam_data[self.oam_addr as usize] = data;
        self.oam_addr = self.oam_addr.wrapping_add(1);
    }

    /// The whole object-attribute memory after a 256-byte burst that starts
    /// at `start`: every slot receives the burst byte whose offset wraps
    /// around to it.
    pub open spec fn spec_oam_after_dma(oam: Seq<u8>, start: u8, data: Seq<u8>) -> Seq<u8> {
        Seq::new(256nat, |i: int| data[(i - start + 256) % 256])
    }

    /// A 256-byte sprite upload: the burst lands at the current
    /// object-attribute address, wrapping around, and leaves the address
    /// where it started.
    pub fn oam_dma_write(&mut self, data: &[u8; 256])
        requires
            old(self).wf(),
        ensures
            final(self).wf(),
            final(self).oam_data@ == Self::spec_oam_after_dma(
                old(self).oam_data@,
                old(self).oam_addr,
                data@,
            ),
            *final(self) == (NesPPU { oam_data: final(self).oam_data, ..*old(self) }),
    {
        let ghost start = self.oam_addr as int;
        let mut k: usize = 0;
        while k < 256
            invariant
                self.wf(),
                k <= 256,
                self.oam_addr as int == (start + k) % 256,
                0 <= start < 256,
                forall|i: int|
                    0 <= i < 256 ==> self.oam_data@[i] == (if (i - start + 256) % 256 < k {
                        data@[(i - start + 256) % 256]
                    } else {
                        old(self).oam_data@[i]
                    }),
                *self == (NesPPU { oam_data: self.oam_data, oam_addr: self.oam_addr, ..*old(self) }),
            decreases 256 - k,
        {
            let idx = self.oam_addr as usize;
            self.oam_data[idx] = data[k];
            self.oam_addr = self.oam_addr.wrapping_add(1);
            proof {
                assert((idx - start + 256) % 256 == k) by (nonlinear_arith)
                    requires
                        0 <= start < 256,
                        0 <= k < 256,
                        idx == (start + k) % 256,
                ;
                assert((start + (k + 1)) % 256 == ((start + k) % 256 + 1) % 256)
                    by (nonlinear_arith)
                    requires
                        0 <= start < 256,
                        0 <= k < 256,
                ;
            }
            k = k + 1;
        }
        proof {
            assert(self.oam_data@ =~= Self::spec_oam_after_dma(
                old(self).oam_data@,
                old(self).oam_addr,
                data@,
            ));
            assert((start + 256) % 256 == start) by (nonlinear_arith)
                requires
                    0 <= start < 256,
            ;
        }
    }

    /// Folds a nametable address into physical nametable memory.
    pub fn mirror_vram_addr(&self, addr: u16) -> (r: u16)
        requires
            0x2000 <= addr <= 0x3FFF,
        ensures
            r == self.spec_mirror_vram_addr(addr),
    {
        proof {
            lemma_vram_window(addr);
        }
        let mirrored = addr & 0x2FFF;
        let vram_index = mirrored - 0x2000;
        let name_table = vram_index / 0x400;
        if (matches!(self.mirroring, Mirroring::VERTICAL) && (name_table == 2 || name_table == 3))
        {
            vram_index - 0x800
        } else if (matches!(self.mirroring, Mirroring::HORIZONTAL) && (name_table == 2 || name_table
            == 1)) {
            vram_index - 0x400
        } else if (matches!(self.mirroring, Mirroring::HORIZONTAL) && name_table == 3) {
            vram_index - 0x800
        } else {
            vram_index
        }
    }
}

/// Advancing the dot clock touches only the clock, the status flags and the
/// interrupt line: every memory and every other register keeps its value.
pub proof fn lemma_tick_frame(p: NesPPU, f: bool)
    ensures
        ({
            let (q, _) = p.spec_tick_drain(f);
            &&& q.chr_rom == p.chr_rom
            &&& q.palette_table == p.palette_table
            &&& q.vram == p.vram
            &&& q.oam_data == p.oam_data
            &&& q.internal_data_buf == p.internal_data_buf
            &&& q.oam_addr == p.oam_addr
            &&& q.mirroring == p.mirroring
            &&& q.addr == p.addr
            &&& q.scroll == p.scroll
            &&& q.mask == p.mask
            &&& q.ctrl == p.ctrl
        }),
    decreases p.cycles,
{
    if p.cycles >= 341 {
        let (q, f2) = p.spec_scanline_step();
        lemma_tick_frame(q, f || f2);
    }
}

/// Draining the dot accumulator always leaves fewer dots than one scanline.
pub proof fn lemma_tick_drain_bound(p: NesPPU, f: bool)
    ensures
        p.spec_tick_drain(f).0.cycles < 341,
    decreases p.cycles,
{
    if p.cycles >= 341 {
        let (q, f2) = p.spec_scanline_step();
        lemma_tick_drain_bound(q, f || f2);
    }
}

/// Masking an in-window address keeps it between the nametable base and the
/// top of its mirror space.
proof fn lemma_vram_window(a: u16)
    by (bit_vector)
    ensures
        0x2000 <= a && a <= 0x3FFF ==> (0x2000 <= (a & 0x2FFF) && (a & 0x2FFF) <= 0x2FFF),
{
}

/// After any two consecutive writes through the address port, with the shared
/// write latch in its reset state, the video memory pointer equals
/// `((first & 0x3F) << 8) | second`.
pub proof fn lemma_ppu_addr_two_writes(p: NesPPU, first: u8, second: u8)
    requires
        p.addr.hi_ptr,
    ensures
        p.spec_write_to_ppu_addr_step(first).spec_write_to_ppu_addr_step(
            second,
        ).addr.spec_get() == (((first & 0x3F) as u16) << 8) | (second as u16),
{
    lemma_addr_two_writes(p.addr, first, second);
}

/// After a read of the status port, the next write to the scroll port is
/// treated as the first of a pair, whatever the latch held before: it sets
/// the horizontal offset and leaves the latch waiting for the vertical one.
pub proof fn lemma_status_read_resets_scroll_pair(p: NesPPU, d: u8)
    ensures
        p.spec_read_status_step().spec_write_scroll_step(d).scroll.x_val == d,
        p.spec_read_status_step().spec_write_scroll_step(d).scroll.latch == false,
        p.spec_read_status_step().spec_write_scroll_step(d).scroll.y_val == p.scroll.y_val,
{
}

/// After a read of the status port, the next write to the address port is
/// likewise the first of a pair: it fills the high byte of the pointer.
pub proof fn lemma_status_read_resets_addr_pair(p: NesPPU, first: u8, second: u8)
    ensures
        p.spec_read_status_step().spec_write_to_ppu_addr_step(first).spec_write_to_ppu_addr_step(
            second,
        ).addr.spec_get() == (((first & 0x3F) as u16) << 8) | (second as u16),
{
    lemma_addr_two_writes(p.spec_read_status_step().addr, first, second);
}

} // verus!
