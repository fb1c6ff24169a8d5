use vstd::prelude::*;

verus! {

/// The two-write address latch behind the 0x2006 port.  `value` holds the
/// high and low byte of the 14-bit video memory pointer; `hi_ptr` tells which
/// of the pair the next write fills.
pub struct AddrRegister {
    pub value: (u8, u8),
    pub hi_ptr: bool,
}

impl AddrRegister {
    /// The 16-bit pointer held by the pair.
    pub open spec fn spec_get(self) -> u16 {
        ((self.value.0 as u16) << 8) | (self.value.1 as u16)
    }

    /// The pair after storing a full 16-bit value.
    pub open spec fn spec_set(self, data: u16) -> AddrRegister {
        AddrRegister { value: ((data >> 8) as u8, (data & 0xFF) as u8), hi_ptr: self.hi_ptr }
    }

    /// One write through the port: it fills the half selected by the latch,
    /// folds the pointer back into 14 bits, and flips the latch.
    pub open spec fn spec_update(self, data: u8) -> AddrRegister {
        let filled = if self.hi_ptr {
            AddrRegister { value: (data, self.value.1), hi_ptr: self.hi_ptr }
        } else {
            AddrRegister { value: (self.value.0, data), hi_ptr: self.hi_ptr }
        };
        let masked = if filled.spec_get() > 0x3FFF {
            filled.spec_set(filled.spec_get() & 0x3FFF)
        } else {
            filled
        };
        AddrRegister { value: masked.value, hi_ptr: !self.hi_ptr }
    }

    /// The pointer after the data port steps it by `inc`, with the low byte
    /// carrying into the high byte and the result folded into 14 bits.
    pub open spec fn spec_increment(self, inc: u8) -> AddrRegister {
        let lo = self.value.1;
        let new_lo = vstd::wrapping::u8_specs::wrapping_add(lo, inc);
        let stepped = AddrRegister {
            value: (
                if lo > new_lo {
                    vstd::wrapping::u8_specs::wrapping_add(self.value.0, 1)
                } else {
                    self.value.0
                },
                new_lo,
            ),
            hi_ptr: self.hi_ptr,
        };
        if stepped.spec_get() > 0x3FFF {
            stepped.spec_set(stepped.spec_get() & 0x3FFF)
        } else {
            stepped
        }
    }

    pub fn new() -> (r: Self)
        ensures
            r.value == (0u8, 0u8),
            r.hi_ptr == true,
            r.spec_get() == 0,
    {
        assert(((0u8 as u16) << 8) | (0u8 as u16) == 0) by (bit_vector);
        AddrRegister { value: (0, 0), hi_ptr: true }
    }

    pub fn set(&mut self, data: u16)
        ensures
            *final(self) == old(self).spec_set(data),
    {
        self.value = ((data >> 8) as u8, (data & 0xFF) as u8);
    }

    pub fn get(&self) -> (r: u16)
        ensures
            r == self.spec_get(),
    {
        ((self.value.0 as u16) << 8) | (self.value.1 as u16)
    }

    pub fn update(&mut self, data: u8)
        ensures
            *final(self) == old(self).spec_update(data),
    {
        if self.hi_ptr {
            self.value = (data, self.value.1);
        } else {
            self.value = (self.value.0, data);
        }

        // Everything above 0x3FFF is folded back into the 14-bit space.
        if self.get() > 0x3FFF {
            let v = self.get();
            self.set(v & 0x3FFF);
        }
        self.hi_ptr = !self.hi_ptr;
    }

    pub fn increment(&mut self, inc: u8)
        ensures
            *final(self) == old(self).spec_increment(inc),
    {
        let lo = self.value.1;
        self.value = (self.value.0, lo.wrapping_add(inc));
        if lo > self.value.1 {
            self.value = (self.value.0.wrapping_add(1), self.value.1);
        }
        if self.get() > 0x3FFF {
            let v = self.get();
            self.set(v & 0x3FFF);
        }
    }

    pub fn reset_latch(&mut self)
        ensures
            *final(self) == (AddrRegister { value: old(self).value, hi_ptr: true }),
    {
        self.hi_ptr = true;
    }
}

/// Packing and masking a 16-bit pointer through the byte pair keeps it intact
/// and within 14 bits.
proof fn lemma_addr_mask(x: u16)
    by (bit_vector)
    ensures
        ((((x & 0x3FFF) >> 8) as u8) as u16) << 8 | ((((x & 0x3FFF) & 0xFF) as u8) as u16) == x
            & 0x3FFF,
        x & 0x3FFF <= 0x3FFF,
{
}

/// Every write through the address port leaves the pointer within 14 bits.
pub proof fn lemma_addr_update_in_range(r: AddrRegister, data: u8)
    ensures
        r.spec_update(data).spec_get() <= 0x3FFF,
{
    let filled = if r.hi_ptr {
        AddrRegister { value: (data, r.value.1), hi_ptr: r.hi_ptr }
    } else {
        AddrRegister { value: (r.value.0, data), hi_ptr: r.hi_ptr }
    };
    if filled.spec_get() > 0x3FFF {
        lemma_addr_mask(filled.spec_get());
    }
}

/// Every data-port step leaves the pointer within 14 bits, provided it was
/// within range before.
pub proof fn lemma_addr_increment_in_range(r: AddrRegister, inc: u8)
    requires
        r.spec_get() <= 0x3FFF,
    ensures
        r.spec_increment(inc).spec_get() <= 0x3FFF,
{
    let lo = r.value.1;
    let new_lo = vstd::wrapping::u8_specs::wrapping_add(lo, inc);
    let stepped = AddrRegister {
        value: (
            if lo > new_lo {
                vstd::wrapping::u8_specs::wrapping_add(r.value.0, 1)
            } else {
                r.value.0
            },
            new_lo,
        ),
        hi_ptr: r.hi_ptr,
    };
    if stepped.spec_get() > 0x3FFF {
        lemma_addr_mask(stepped.spec_get());
    }
}

/// The pointer left by a pair of writes through the address port: the first
/// byte, clipped to six bits, above the second byte.
proof fn lemma_addr_pair_bits(f: u8, v1: u8, s: u8)
    by (bit_vector)
    ensures
        ((f as u16) << 8 | (v1 as u16)) > 0x3FFF ==> ((((((f as u16) << 8 | (v1 as u16)) & 0x3FFF)
            >> 8) as u8) as u16) << 8 | (s as u16) == (((f & 0x3F) as u16) << 8) | (s as u16),
        ((f as u16) << 8 | (v1 as u16)) <= 0x3FFF ==> ((f as u16) << 8) | (s as u16) == (((f
            & 0x3F) as u16) << 8) | (s as u16),
        (((f & 0x3F) as u16) << 8) | (s as u16) <= 0x3FFF,
        ((((((f as u16) << 8 | (v1 as u16)) & 0x3FFF) & 0xFF) as u8) == v1),
{
}

/// After any two consecutive writes through the address port, starting with
/// the latch waiting for the high byte, the video memory pointer equals
/// `((first & 0x3F) << 8) | second`.
pub proof fn lemma_addr_two_writes(r: AddrRegister, first: u8, second: u8)
    requires
        r.hi_ptr,
    ensures
        r.spec_update(first).spec_update(second).spec_get() == (((first & 0x3F) as u16) << 8) | (
        second as u16),
{
    let one = r.spec_update(first);
    lemma_addr_pair_bits(first, r.value.1, second);
    let two = one.spec_update(second);
    lemma_addr_mask((((one.value.0 as u16) << 8) | (second as u16)));
}

/// The picture-processor status byte.  Bit 5 reports sprite overflow, bit 6
/// the sprite-zero hit, bit 7 the vertical blank; reading the port clears the
/// vertical-blank bit.
pub struct StatusRegister {
    pub bits: u8,
}

impl StatusRegister {
    pub open spec fn spec_sprite_overflow(self) -> bool {
        self.bits & 0x20 != 0
    }

    pub open spec fn spec_sprite_zero_hit(self) -> bool {
        self.bits & 0x40 != 0
    }

    pub open spec fn spec_vblank(self) -> bool {
        self.bits & 0x80 != 0
    }

    pub open spec fn spec_with_flag(self, mask: u8, value: bool) -> StatusRegister {
        if value {
            StatusRegister { bits: self.bits | mask }
        } else {
            StatusRegister { bits: self.bits & !mask }
        }
    }

    pub fn new() -> (r: Self)
        ensures
            r.bits == 0,
    {
        StatusRegister { bits: 0 }
    }

    /// A port read: hands the byte out, then clears the vertical-blank bit.
    pub fn read(&mut self) -> (r: u8)
        ensures
            r == old(self).bits,
            final(self).bits == old(self).bits & 0x7F,
    {
        let output = self.bits;
        self.bits = self.bits & 0x7F;
        output
    }

    /// The byte as it stands, with no side effect.
    pub fn current_val(&self) -> (r: u8)
        ensures
            r == self.bits,
    {
        self.bits
    }

    pub fn is_sprite_overflow(&self) -> (r: bool)
        ensures
            r == self.spec_sprite_overflow(),
    {
        self.bits & 0x20 != 0
    }

    pub fn is_sprite_zero_hit(&self) -> (r: bool)
        ensures
            r == self.spec_sprite_zero_hit(),
    {
        self.bits & 0x40 != 0
    }

    pub fn is_vblank_started(&self) -> (r: bool)
        ensures
            r == self.spec_vblank(),
    {
        self.bits & 0x80 != 0
    }

    pub fn set_sprite_overflow(&mut self, value: bool)
        ensures
            *final(self) == old(self).spec_with_flag(0x20, value),
    {
        if value {
            self.bits = self.bits | 0x20;
        } else {
            self.bits = self.bits & !0x20;
        }
    }

    pub fn set_sprite_zero_hit(&mut self, value: bool)
        ensures
            *final(self) == old(self).spec_with_flag(0x40, value),
    {
        if value {
            self.bits = self.bits | 0x40;
        } else {
            self.bits = self.bits & !0x40;
        }
    }

    pub fn set_vblank_started(&mut self, value: bool)
        ensures
            *final(self) == old(self).spec_with_flag(0x80, value),
    {
        if value {
            self.bits = self.bits | 0x80;
        } else {
            self.bits = self.bits & !0x80;
        }
    }

    pub fn update(&mut self, data: u8)
        ensures
            final(self).bits == data,
    {
        self.bits = data;
    }
}

/// The write-only control register at 0x2000.
///
/// Bits 0-1 pick the base nametable, bit 2 the data-port step (1 or 32),
/// bit 3 the sprite pattern bank, bit 4 the background pattern bank, bit 5
/// the 8x16 sprite mode, bit 6 the master/slave line and bit 7 whether the
/// start of vertical blank raises the non-maskable interrupt.
pub struct ControlRegister {
    pub bits: u8,
}

impl ControlRegister {
    pub open spec fn spec_generate_nmi(self) -> bool {
        self.bits & 0x80 != 0
    }

    pub open spec fn spec_sprite_size(self) -> bool {
        self.bits & 0x20 != 0
    }

    pub open spec fn spec_vram_increment(self) -> u8 {
        if self.bits & 0x04 == 0 {
            1u8
        } else {
            32u8
        }
    }

    /// The processor-space address of the base nametable the register picks.
    pub open spec fn spec_nametable_addr(self) -> u16 {
        (0x2000 + ((self.bits & 0x03) as u16) * 0x400) as u16
    }

    /// The pattern bank the background reads from.
    pub open spec fn spec_background_bank(self) -> u16 {
        if self.bits & 0x10 != 0 {
            0x1000u16
        } else {
            0u16
        }
    }

    pub fn new() -> (r: Self)
        ensures
            r.bits == 0,
    {
        ControlRegister { bits: 0 }
    }

    pub fn is_nametable1(&self) -> (r: bool)
        ensures
            r == (self.bits & 0x01 != 0),
    {
        self.bits & 0x01 != 0
    }

    pub fn is_nametable2(&self) -> (r: bool)
        ensures
            r == (self.bits & 0x02 != 0),
    {
        self.bits & 0x02 != 0
    }

    pub fn is_sprite_pattern_addr(&self) -> (r: bool)
        ensures
            r == (self.bits & 0x08 != 0),
    {
        self.bits & 0x08 != 0
    }

    pub fn is_background_pattern_addr(&self) -> (r: bool)
        ensures
            r == (self.bits & 0x10 != 0),
    {
        self.bits & 0x10 != 0
    }

    pub fn is_sprite_size(&self) -> (r: bool)
        ensures
            r == self.spec_sprite_size(),
    {
        self.bits & 0x20 != 0
    }

    pub fn is_master_slave_select(&self) -> (r: bool)
        ensures
            r == (self.bits & 0x40 != 0),
    {
        self.bits & 0x40 != 0
    }

    pub fn is_generate_nmi(&self) -> (r: bool)
        ensures
            r == self.spec_generate_nmi(),
    {
        self.bits & 0x80 != 0
    }

    /// How far the data port steps the video memory pointer: 1 across, 32
    /// down.
    pub fn vram_addr_increment(&self) -> (r: u8)
        ensures
            r == self.spec_vram_increment(),
    {
        if self.bits & 0x04 == 0 {
            1
        } else {
            32
        }
    }

    /// The processor-space address of the base nametable.
    pub fn read_nametable(&self) -> (r: u16)
        ensures
            r == self.spec_nametable_addr(),
    {
        let b = self.bits;
        assert(b & 0x03 <= 3) by (bit_vector);
        0x2000 + ((self.bits & 0x03) as u16) * 0x400
    }

    /// The pattern bank the background reads from.
    pub fn get_background_bank_val(&self) -> (r: u16)
        ensures
            r == self.spec_background_bank(),
    {
        if self.bits & 0x10 != 0 {
            0x1000
        } else {
            0
        }
    }

    pub fn update(&mut self, data: u8)
        ensures
            final(self).bits == data,
    {
        self.bits = data;
    }
}

/// The write-only mask register at 0x2001: greyscale, left-column visibility,
/// background and sprite enables, and the three colour-emphasis lines.
pub struct MaskRegister {
    pub bits: u8,
}

impl MaskRegister {
    pub fn new() -> (r: Self)
        ensures
            r.bits == 0,
    {
        MaskRegister { bits: 0 }
    }

    pub fn is_greyscale(&self) -> (r: bool)
        ensures
            r == (self.bits & 0x01 != 0),
    {
        self.bits & 0x01 != 0
    }

    pub fn is_left_background(&self) -> (r: bool)
        ensures
            r == (self.bits & 0x02 != 0),
    {
        self.bits & 0x02 != 0
    }

    pub fn is_left_sprites(&self) -> (r: bool)
        ensures
            r == (self.bits & 0x04 != 0),
    {
        self.bits & 0x04 != 0
    }

    pub fn is_background_rendering(&self) -> (r: bool)
        ensures
            r == (self.bits & 0x08 != 0),
    {
        self.bits & 0x08 != 0
    }

    pub fn is_sprite_rendering(&self) -> (r: bool)
        ensures
            r == (self.bits & 0x10 != 0),
    {
        self.bits & 0x10 != 0
    }

    pub fn is_emphasizing_red(&self) -> (r: bool)
        ensures
            r == (self.bits & 0x20 != 0),
    {
        self.bits & 0x20 != 0
    }

    pub fn is_emphasizing_green(&self) -> (r: bool)
        ensures
            r == (self.bits & 0x40 != 0),
    {
        self.bits & 0x40 != 0
    }

    pub fn is_emphasizing_blue(&self) -> (r: bool)
        ensures
            r == (self.bits & 0x80 != 0),
    {
        self.bits & 0x80 != 0
    }

    pub fn update(&mut self, data: u8)
        ensures
            final(self).bits == data,
    {
        self.bits = data;
    }
}

/// The two-write scroll latch behind the 0x2005 port: the first write of a
/// pair sets the horizontal offset, the second the vertical one.
pub struct ScrollRegister {
    pub x_val: u8,
    pub y_val: u8,
    pub latch: bool,
}

impl ScrollRegister {
    /// One write through the port: the latch picks the axis, then flips.
    pub open spec fn spec_write(self, data: u8) -> ScrollRegister {
        if self.latch {
            ScrollRegister { x_val: data, y_val: self.y_val, latch: false }
        } else {
            ScrollRegister { x_val: self.x_val, y_val: data, latch: true }
        }
    }

    pub fn new() -> (r: Self)
        ensures
            r.x_val == 0,
            r.y_val == 0,
            r.latch == true,
    {
        ScrollRegister { x_val: 0, y_val: 0, latch: true }
    }

    /// One write through the port: the latch picks the axis, then flips.
    pub fn write(&mut self, data: u8)
        ensures
            *final(self) == old(self).spec_write(data),
    {
        if self.latch {
            self.x_val = data;
        } else {
            self.y_val = data;
        }
        self.latch = !self.latch;
    }

    pub fn read(&self) -> (r: (u8, u8))
        ensures
            r == (self.x_val, self.y_val),
    {
        (self.x_val, self.y_val)
    }

    pub fn reset_latch(&mut self)
        ensures
            *final(self) == (ScrollRegister {
                x_val: old(self).x_val,
                y_val: old(self).y_val,
                latch: true,
            }),
    {
        self.latch = true;
    }
}

} // verus!
