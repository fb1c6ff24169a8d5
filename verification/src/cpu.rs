use vstd::prelude::*;

verus! {

use crate::bus::Bus;
use crate::errors::EmuError;
use crate::opcodes::{AddressingMode, Mnemonic, OpCode, is_page_crosser, opcode_lookup, spec_is_page_crosser, spec_opcode};

/// What one execution step reports: an ordinary instruction ran, or a break
/// instruction was fetched and the loop should stop.
#[derive(Debug, Clone, Copy, PartialEq, Eq, Structural)]
pub enum StepEvent {
    Ran,
    Brk,
}

/// The central processor: accumulator, index registers, packed status flags,
/// program counter, stack pointer, the bus it owns, and the penalty-cycle
/// accumulator for page crossings and taken branches.
///
/// Status bits, top to bottom: negative, overflow, unused (1 on pushes),
/// break, decimal, interrupt-disable, zero, carry.
pub struct CPU {
    pub reg_a: u8,
    pub reg_x: u8,
    pub reg_y: u8,
    pub status: u8,
    pub pc: u16,
    pub sp: u8,
    pub bus: Bus,
    pub extra_cycles: usize,
}

/// The status byte with one flag forced on or off.
pub open spec fn spec_set_flag(status: u8, mask: u8, on: bool) -> u8 {
    if on {
        status | mask
    } else {
        status & !mask
    }
}

/// The status byte after a result value drives the zero and negative flags.
pub open spec fn spec_zn(status: u8, value: u8) -> u8 {
    spec_set_flag(spec_set_flag(status, 0x02, value == 0), 0x80, value & 0x80 != 0)
}

/// Whether adding the (zero-extended) offset to the address leaves its
/// 256-byte page.
pub open spec fn spec_page_cross(addr: u16, offset: u8) -> bool {
    (addr & 0xFF00) != (vstd::wrapping::u16_specs::wrapping_add(addr, offset as u16) & 0xFF00)
}

/// Whether a conditional branch is taken under the given status byte.
pub open spec fn spec_branch_taken(status: u8, m: Mnemonic) -> bool {
    match m {
        Mnemonic::BCC => (status ^ 0x01) & 0x01 == 0x01,
        Mnemonic::BCS => status & 0x01 == 0x01,
        Mnemonic::BEQ => status & 0x02 == 0x02,
        Mnemonic::BNE => (status ^ 0x02) & 0x02 == 0x02,
        Mnemonic::BMI => status & 0x80 == 0x80,
        Mnemonic::BPL => (status ^ 0x80) & 0x80 == 0x80,
        Mnemonic::BVC => (status ^ 0x40) & 0x40 == 0x40,
        Mnemonic::BVS => status & 0x40 == 0x40,
        _ => false,
    }
}

/// Whether a taken branch pays the second penalty cycle: the target lies on
/// a different 256-byte page than the instruction after the branch.
pub open spec fn spec_branch_cross(pc_at_offset: u16, off: u8) -> bool {
    let next = vstd::wrapping::u16_specs::wrapping_add(pc_at_offset, 1);
    (next & 0xFF00) != (vstd::wrapping::u16_specs::wrapping_add(next, spec_sign_extend(off))
        & 0xFF00)
}

/// An 8-bit branch offset sign-extended to the width of the program counter.
pub open spec fn spec_sign_extend(off: u8) -> u16 {
    if off >= 0x80 {
        (0xFF00u16 | (off as u16)) as u16
    } else {
        off as u16
    }
}

impl CPU {
    pub open spec fn wf(self) -> bool {
        self.bus.wf()
    }

    /// One bus read, threaded through the processor state.
    pub open spec fn spec_read(self, addr: u16) -> (Result<u8, EmuError>, CPU) {
        let (r, b) = self.bus.spec_read_model(addr);
        (r, CPU { bus: b, ..self })
    }

    /// One little-endian word read, threaded through the processor state.
    pub open spec fn spec_read_u16(self, addr: u16) -> (Result<u16, EmuError>, CPU) {
        let (r, b) = self.bus.spec_read_u16_model(addr);
        (r, CPU { bus: b, ..self })
    }

    /// The effective address an addressing mode resolves to, together with
    /// the processor after the resolution's own memory reads.
    pub open spec fn spec_operand_addr(self, mode: AddressingMode) -> Result<(u16, CPU), EmuError> {
        match mode {
            AddressingMode::Immediate => Ok((self.pc, self)),
            AddressingMode::ZeroPage => match self.spec_read(self.pc) {
                (Ok(v), c) => Ok((v as u16, c)),
                (Err(e), _) => Err(e),
            },
            AddressingMode::ZeroPage_X => match self.spec_read(self.pc) {
                (Ok(v), c) => Ok(
                    (vstd::wrapping::u8_specs::wrapping_add(v, c.reg_x) as u16, c),
                ),
                (Err(e), _) => Err(e),
            },
            AddressingMode::ZeroPage_Y => match self.spec_read(self.pc) {
                (Ok(v), c) => Ok(
                    (vstd::wrapping::u8_specs::wrapping_add(v, c.reg_y) as u16, c),
                ),
                (Err(e), _) => Err(e),
            },
            AddressingMode::Absolute => match self.spec_read_u16(self.pc) {
                (Ok(a), c) => Ok((a, c)),
                (Err(e), _) => Err(e),
            },
            AddressingMode::Absolute_X => match self.spec_read_u16(self.pc) {
                (Ok(a), c) => Ok(
                    (vstd::wrapping::u16_specs::wrapping_add(a, c.reg_x as u16), c),
                ),
                (Err(e), _) => Err(e),
            },
            AddressingMode::Absolute_Y => match self.spec_read_u16(self.pc) {
                (Ok(a), c) => Ok(
                    (vstd::wrapping::u16_specs::wrapping_add(a, c.reg_y as u16), c),
                ),
                (Err(e), _) => Err(e),
            },
            AddressingMode::Indirect => match self.spec_read_u16(self.pc) {
                (Ok(a), c) => Ok((a, c)),
                (Err(e), _) => Err(e),
            },
            AddressingMode::Indirect_X => match self.spec_read(self.pc) {
                (Ok(base), c1) => {
                    let ptr = vstd::wrapping::u8_specs::wrapping_add(base, c1.reg_x);
                    match c1.spec_read(ptr as u16) {
                        (Ok(lo), c2) => match c2.spec_read(
                            vstd::wrapping::u8_specs::wrapping_add(ptr, 1) as u16,
                        ) {
                            (Ok(hi), c3) => Ok(((((hi as u16) << 8) | (lo as u16)) as u16, c3)),
                            (Err(e), _) => Err(e),
                        },
                        (Err(e), _) => Err(e),
                    }
                },
                (Err(e), _) => Err(e),
            },
            AddressingMode::Indirect_Y => match self.spec_read(self.pc) {
                (Ok(base), c1) => match c1.spec_read(base as u16) {
                    (Ok(lo), c2) => match c2.spec_read(
                        vstd::wrapping::u8_specs::wrapping_add(base, 1) as u16,
                    ) {
                        (Ok(hi), c3) => {
                            let ptr = (((hi as u16) << 8) | (lo as u16)) as u16;
                            Ok((vstd::wrapping::u16_specs::wrapping_add(ptr, c3.reg_y as u16), c3))
                        },
                        (Err(e), _) => Err(e),
                    },
                    (Err(e), _) => Err(e),
                },
                (Err(e), _) => Err(e),
            },
            AddressingMode::NoneAddressing => Ok((0, self)),
        }
    }

    /// The operand byte an addressing mode names, with the processor after
    /// the resolution and the read.
    pub open spec fn spec_operand_value(self, mode: AddressingMode) -> Result<(u8, CPU), EmuError> {
        match self.spec_operand_addr(mode) {
            Ok(p) => match p.1.spec_read(p.0) {
                (Ok(v), c) => Ok((v, c)),
                (Err(e), _) => Err(e),
            },
            Err(e) => Err(e),
        }
    }

    /// The page-crossing penalty an indexed operand pays, over the reads that
    /// establish it.
    pub open spec fn spec_page_extra(self, mode: AddressingMode) -> Result<(usize, CPU), EmuError> {
        match mode {
            AddressingMode::Absolute_X => match self.spec_read_u16(self.pc) {
                (Ok(a), c) => Ok(
                    ((if spec_page_cross(a, c.reg_x) {
                        1usize
                    } else {
                        0usize
                    }), c),
                ),
                (Err(e), _) => Err(e),
            },
            AddressingMode::Absolute_Y => match self.spec_read_u16(self.pc) {
                (Ok(a), c) => Ok(
                    ((if spec_page_cross(a, c.reg_y) {
                        1usize
                    } else {
                        0usize
                    }), c),
                ),
                (Err(e), _) => Err(e),
            },
            AddressingMode::Indirect_Y => match self.spec_read(self.pc) {
                (Ok(base), c1) => match c1.spec_read(base as u16) {
                    (Ok(lo), c2) => match c2.spec_read(
                        vstd::wrapping::u8_specs::wrapping_add(base, 1) as u16,
                    ) {
                        (Ok(hi), c3) => {
                            let ptr = (((hi as u16) << 8) | (lo as u16)) as u16;
                            Ok(
                                ((if spec_page_cross(ptr, c3.reg_y) {
                                    1usize
                                } else {
                                    0usize
                                }), c3),
                            )
                        },
                        (Err(e), _) => Err(e),
                    },
                    (Err(e), _) => Err(e),
                },
                (Err(e), _) => Err(e),
            },
            _ => Ok((0, self)),
        }
    }

    /// The effective address the trace surface shows for an instruction at
    /// `old_pc`, computed entirely over the side-effect-free peek surface.
    pub open spec fn spec_debug_operand(self, old_pc: u16, mode: AddressingMode) -> u16 {
        match mode {
            AddressingMode::Immediate => old_pc,
            AddressingMode::ZeroPage => self.bus.spec_peek(old_pc) as u16,
            AddressingMode::ZeroPage_X => vstd::wrapping::u8_specs::wrapping_add(
                self.bus.spec_peek(old_pc),
                self.reg_x,
            ) as u16,
            AddressingMode::ZeroPage_Y => vstd::wrapping::u8_specs::wrapping_add(
                self.bus.spec_peek(old_pc),
                self.reg_y,
            ) as u16,
            AddressingMode::Absolute => self.bus.spec_peek_u16(old_pc),
            AddressingMode::Absolute_X => vstd::wrapping::u16_specs::wrapping_add(
                self.bus.spec_peek_u16(old_pc),
                self.reg_x as u16,
            ),
            AddressingMode::Absolute_Y => vstd::wrapping::u16_specs::wrapping_add(
                self.bus.spec_peek_u16(old_pc),
                self.reg_y as u16,
            ),
            AddressingMode::Indirect => self.bus.spec_peek_u16(old_pc),
            AddressingMode::Indirect_X => {
                let ptr = vstd::wrapping::u8_specs::wrapping_add(
                    self.bus.spec_peek(old_pc),
                    self.reg_x,
                );
                (((self.bus.spec_peek(
                    vstd::wrapping::u8_specs::wrapping_add(ptr, 1) as u16,
                ) as u16) << 8) | (self.bus.spec_peek(ptr as u16) as u16)) as u16
            },
            AddressingMode::Indirect_Y => {
                let base = self.bus.spec_peek(old_pc);
                let ptr = (((self.bus.spec_peek(
                    vstd::wrapping::u8_specs::wrapping_add(base, 1) as u16,
                ) as u16) << 8) | (self.bus.spec_peek(base as u16) as u16)) as u16;
                vstd::wrapping::u16_specs::wrapping_add(ptr, self.reg_y as u16)
            },
            AddressingMode::NoneAddressing => 0,
        }
    }

    /// A processor at power-on, owning the given bus.
    pub fn new(bus: Bus) -> (r: CPU)
        ensures
            r == (CPU {
                reg_a: 0,
                reg_x: 0,
                reg_y: 0,
                status: 0,
                pc: 0,
                sp: 0xFF,
                bus: r.bus,
                extra_cycles: 0,
            }),
            r.bus == bus,
    {
        CPU { reg_a: 0, status: 0, pc: 0, sp: 0xFF, reg_x: 0, reg_y: 0, extra_cycles: 0, bus }
    }

    /// One bus read, with the registers untouched.
    pub fn mem_read(&mut self, addr: u16) -> (r: Result<u8, EmuError>)
        requires
            old(self).wf(),
        ensures
            final(self).wf(),
            ({
                let (mr, c) = old(self).spec_read(addr);
                r == mr && *final(self) == c
            }),
            final(self).bus.cycles == old(self).bus.cycles,
            final(self).bus.strict == old(self).bus.strict,
            final(self).bus.frame_ready == old(self).bus.frame_ready,
            final(self).bus.mapper == old(self).bus.mapper,
            final(self).bus.cpu_vram == old(self).bus.cpu_vram,
            *final(self) == (CPU { bus: final(self).bus, ..*old(self) }),
    {
        reveal(Bus::spec_read_model);
        match self.bus.mem_read(addr) {
            Ok(v) => Ok(v),
            Err(e) => Err(e),
        }
    }

    /// One bus write, with the registers untouched.
    pub fn mem_write(&mut self, addr: u16, data: u8) -> (r: Result<(), EmuError>)
        requires
            old(self).wf(),
        ensures
            final(self).wf(),
            r == old(self).bus.spec_write_result(addr, data),
            crate::bus::spec_write_effect(old(self).bus, final(self).bus, addr, data, r),
            final(self).bus.strict == old(self).bus.strict,
            addr != 0x4014 ==> final(self).bus.cycles == old(self).bus.cycles,
            addr != 0x4014 ==> final(self).bus.frame_ready == old(self).bus.frame_ready,
            *final(self) == (CPU { bus: final(self).bus, ..*old(self) }),
    {
        self.bus.mem_write(addr, data)
    }

    /// One little-endian word read, with the registers untouched.
    pub fn mem_read_u16(&mut self, addr: u16) -> (r: Result<u16, EmuError>)
        requires
            old(self).wf(),
        ensures
            final(self).wf(),
            ({
                let (mr, c) = old(self).spec_read_u16(addr);
                r == mr && *final(self) == c
            }),
            final(self).bus.cycles == old(self).bus.cycles,
            final(self).bus.strict == old(self).bus.strict,
            final(self).bus.frame_ready == old(self).bus.frame_ready,
            final(self).bus.mapper == old(self).bus.mapper,
            final(self).bus.cpu_vram == old(self).bus.cpu_vram,
            *final(self) == (CPU { bus: final(self).bus, ..*old(self) }),
    {
        reveal(Bus::spec_read_model);
        match self.bus.mem_read_u16(addr) {
            Ok(v) => Ok(v),
            Err(e) => Err(e),
        }
    }

    /// One little-endian word write, with the registers untouched.
    pub fn mem_write_u16(&mut self, addr: u16, data: u16) -> (r: Result<(), EmuError>)
        requires
            old(self).wf(),
            addr != 0x4014,
            vstd::wrapping::u16_specs::wrapping_add(addr, 1) != 0x4014,
        ensures
            final(self).wf(),
            r is Ok ==> exists|mid: Bus|
                {
                    &&& #[trigger] Bus::spec_write_rel(
                        old(self).bus,
                        mid,
                        addr,
                        (data & 0x00FF) as u8,
                        Ok(()),
                    )
                    &&& Bus::spec_write_rel(
                        mid,
                        final(self).bus,
                        vstd::wrapping::u16_specs::wrapping_add(addr, 1),
                        (data >> 8) as u8,
                        Ok(()),
                    )
                },
            *final(self) == (CPU { bus: final(self).bus, ..*old(self) }),
    {
        match self.bus.mem_write_u16(addr, data) {
            Ok(()) => Ok(()),
            Err(e) => Err(e),
        }
    }

    /// The trace surface: one byte, no side effect.
    pub fn mem_peek(&self, addr: u16) -> (r: u8)
        requires
            self.wf(),
        ensures
            r == self.bus.spec_peek(addr),
    {
        self.bus.mem_peek(addr)
    }

    /// The trace surface: one little-endian word, no side effect.
    pub fn mem_peek_u16(&self, addr: u16) -> (r: u16)
        requires
            self.wf(),
        ensures
            r == self.bus.spec_peek_u16(addr),
    {
        self.bus.mem_peek_u16(addr)
    }

    /// Resolves an addressing mode to its effective address, performing the
    /// resolution's memory reads.
    pub fn get_opperand_address(&mut self, mode: &AddressingMode) -> (r: Result<u16, EmuError>)
        requires
            old(self).wf(),
            *mode != AddressingMode::NoneAddressing,
        ensures
            final(self).wf(),
            match old(self).spec_operand_addr(*mode) {
                Ok(p) => r == Ok::<u16, EmuError>(p.0) && *final(self) == p.1,
                Err(e) => r == Err::<u16, EmuError>(e),
            },
            final(self).bus.cycles == old(self).bus.cycles,
            final(self).bus.strict == old(self).bus.strict,
            final(self).bus.frame_ready == old(self).bus.frame_ready,
            final(self).bus.mapper == old(self).bus.mapper,
            final(self).bus.cpu_vram == old(self).bus.cpu_vram,
            *final(self) == (CPU { bus: final(self).bus, ..*old(self) }),
    {
        match mode {
            AddressingMode::Immediate => Ok(self.pc),
            AddressingMode::ZeroPage => {
                let v = match self.mem_read(self.pc) {
                    Ok(v) => v,
                    Err(e) => {
                        return Err(e);
                    },
                };
                Ok(v as u16)
            },
            AddressingMode::ZeroPage_X => {
                let addr = match self.mem_read(self.pc) {
                    Ok(v) => v,
                    Err(e) => {
                        return Err(e);
                    },
                };
                Ok(addr.wrapping_add(self.reg_x) as u16)
            },
            AddressingMode::ZeroPage_Y => {
                let addr = match self.mem_read(self.pc) {
                    Ok(v) => v,
                    Err(e) => {
                        return Err(e);
                    },
                };
                Ok(addr.wrapping_add(self.reg_y) as u16)
            },
            AddressingMode::Absolute => self.mem_read_u16(self.pc),
            AddressingMode::Absolute_X => {
                let addr = match self.mem_read_u16(self.pc) {
                    Ok(v) => v,
                    Err(e) => {
                        return Err(e);
                    },
                };
                Ok(addr.wrapping_add(self.reg_x as u16))
            },
            AddressingMode::Absolute_Y => {
                let addr = match self.mem_read_u16(self.pc) {
                    Ok(v) => v,
                    Err(e) => {
                        return Err(e);
                    },
                };
                Ok(addr.wrapping_add(self.reg_y as u16))
            },
            AddressingMode::Indirect => self.mem_read_u16(self.pc),
            AddressingMode::Indirect_X => {
                let base = match self.mem_read(self.pc) {
                    Ok(v) => v,
                    Err(e) => {
                        return Err(e);
                    },
                };
                let ptr = base.wrapping_add(self.reg_x);
                let lo = match self.mem_read(ptr as u16) {
                    Ok(v) => v,
                    Err(e) => {
                        return Err(e);
                    },
                };
                let hi = match self.mem_read(ptr.wrapping_add(1) as u16) {
                    Ok(v) => v,
                    Err(e) => {
                        return Err(e);
                    },
                };
                Ok(((hi as u16) << 8) | (lo as u16))
            },
            AddressingMode::Indirect_Y => {
                let base = match self.mem_read(self.pc) {
                    Ok(v) => v,
                    Err(e) => {
                        return Err(e);
                    },
                };
                let lo = match self.mem_read(base as u16) {
                    Ok(v) => v,
                    Err(e) => {
                        return Err(e);
                    },
                };
                let hi = match self.mem_read(base.wrapping_add(1) as u16) {
                    Ok(v) => v,
                    Err(e) => {
                        return Err(e);
                    },
                };
                let ptr = ((hi as u16) << 8) | (lo as u16);
                Ok(ptr.wrapping_add(self.reg_y as u16))
            },
            AddressingMode::NoneAddressing => {
                // Excluded by the precondition: no operand to resolve.
                Ok(0)
            },
        }
    }

    /// The effective address an instruction at `old_pc` names, over the peek
    /// surface only.
    pub fn debug_operand(&self, old_pc: u16, mode: &AddressingMode) -> (r: u16)
        requires
            self.wf(),
        ensures
            r == self.spec_debug_operand(old_pc, *mode),
    {
        match mode {
            AddressingMode::Immediate => old_pc,
            AddressingMode::ZeroPage => self.mem_peek(old_pc) as u16,
            AddressingMode::ZeroPage_X => {
                let addr = self.mem_peek(old_pc);
                addr.wrapping_add(self.reg_x) as u16
            },
            AddressingMode::ZeroPage_Y => {
                let addr = self.mem_peek(old_pc);
                addr.wrapping_add(self.reg_y) as u16
            },
            AddressingMode::Absolute => self.mem_peek_u16(old_pc),
            AddressingMode::Absolute_X => {
                let addr = self.mem_peek_u16(old_pc);
                addr.wrapping_add(self.reg_x as u16)
            },
            AddressingMode::Absolute_Y => {
                let addr = self.mem_peek_u16(old_pc);
                addr.wrapping_add(self.reg_y as u16)
            },
            AddressingMode::Indirect => self.mem_peek_u16(old_pc),
            AddressingMode::Indirect_X => {
                let addr = self.mem_peek(old_pc);
                let ptr = addr.wrapping_add(self.reg_x);
                let lo = self.mem_peek(ptr as u16);
                let hi = self.mem_peek(ptr.wrapping_add(1) as u16);
                ((hi as u16) << 8) | (lo as u16)
            },
            AddressingMode::Indirect_Y => {
                let addr = self.mem_peek(old_pc);
                let lo = self.mem_peek(addr as u16);
                let hi = self.mem_peek(addr.wrapping_add(1) as u16);
                let ptr = ((hi as u16) << 8) | (lo as u16);
                ptr.wrapping_add(self.reg_y as u16)
            },
            AddressingMode::NoneAddressing => 0,
        }
    }

    /// Pushes one byte at the stack pointer, which then steps down.
    fn stack_push(&mut self, data: u8) -> (r: Result<(), EmuError>)
        requires
            old(self).wf(),
        ensures
            final(self).wf(),
            r is Ok,
            final(self).bus.cpu_vram@ == old(self).bus.cpu_vram@.update(
                (((0x0100 + (old(self).sp as u16)) as u16) & 0x07FF) as int,
                data,
            ),
            *final(self) == (CPU {
                sp: vstd::wrapping::u8_specs::wrapping_sub(old(self).sp, 1),
                bus: Bus { cpu_vram: final(self).bus.cpu_vram, ..old(self).bus },
                ..*old(self)
            }),
    {
        reveal(crate::bus::spec_write_effect);
        reveal(Bus::spec_write_rel);
        reveal(Bus::spec_write_result);
        let full_sp: u16 = 0x0100 + (self.sp as u16);
        match self.mem_write(full_sp, data) {
            Ok(()) => {},
            Err(_) => {
                proof {
                    assert(false);
                }
            },
        }
        self.sp = self.sp.wrapping_sub(1);
        Ok(())
    }

    /// Pushes a word: the pointer steps down, the word lands little-endian at
    /// the two slots it now names, and the pointer steps down once more.
    fn stack_push_u16(&mut self, data: u16) -> (r: Result<(), EmuError>)
        requires
            old(self).wf(),
        ensures
            final(self).wf(),
            r is Ok,
            ({
                let sp1 = vstd::wrapping::u8_specs::wrapping_sub(old(self).sp, 1);
                let lo_slot = (((0x0100 + (sp1 as u16)) as u16) & 0x07FF) as int;
                let hi_slot = (vstd::wrapping::u16_specs::wrapping_add(
                    (0x0100 + (sp1 as u16)) as u16,
                    1,
                ) & 0x07FF) as int;
                &&& final(self).bus.cpu_vram@ == old(self).bus.cpu_vram@.update(
                    lo_slot,
                    (data & 0x00FF) as u8,
                ).update(hi_slot, (data >> 8) as u8)
                &&& *final(self) == (CPU {
                    sp: vstd::wrapping::u8_specs::wrapping_sub(old(self).sp, 2),
                    bus: Bus { cpu_vram: final(self).bus.cpu_vram, ..old(self).bus },
                    ..*old(self)
                })
            }),
    {
        reveal(crate::bus::spec_write_effect);
        reveal(Bus::spec_write_rel);
        reveal(Bus::spec_write_result);
        self.sp = self.sp.wrapping_sub(1);
        let full_sp: u16 = 0x0100 + (self.sp as u16);

        let lo = (data & 0x00FF) as u8;
        let hi = (data >> 8) as u8;
        match self.mem_write(full_sp, lo) {
            Ok(()) => {},
            Err(_) => {
                proof {
                    assert(false);
                }
            },
        }
        match self.mem_write(full_sp.wrapping_add(1), hi) {
            Ok(()) => {},
            Err(_) => {
                proof {
                    assert(false);
                }
            },
        }
        self.sp = self.sp.wrapping_sub(1);
        Ok(())
    }

    /// The byte at the stack pointer, which does not move.
    fn stack_read(&mut self) -> (r: u8)
        requires
            old(self).wf(),
        ensures
            final(self).wf(),
            *final(self) == *old(self),
            r == old(self).bus.spec_peek((0x0100 + (old(self).sp as u16)) as u16),
    {
        reveal(Bus::spec_read_model);
        reveal(Bus::spec_peek);
        let full_sp: u16 = 0x0100 + (self.sp as u16);
        match self.mem_read(full_sp) {
            Ok(v) => v,
            Err(_) => {
                proof {
                    assert(false);
                }
                0
            },
        }
    }

    /// The word at the stack pointer, which does not move.
    fn stack_read_u16(&mut self) -> (r: u16)
        requires
            old(self).wf(),
        ensures
            final(self).wf(),
            *final(self) == *old(self),
            r == old(self).bus.spec_peek_u16((0x0100 + (old(self).sp as u16)) as u16),
    {
        reveal(Bus::spec_read_model);
        reveal(Bus::spec_peek);
        let full_sp: u16 = 0x0100 + (self.sp as u16);
        match self.mem_read_u16(full_sp) {
            Ok(v) => v,
            Err(_) => {
                proof {
                    assert(false);
                }
                0
            },
        }
    }


    /// Pushes the accumulator.
    fn pha(&mut self) -> (r: Result<(), EmuError>)
        requires
            old(self).wf(),
        ensures
            final(self).wf(),
            r is Ok,
            final(self).bus.cpu_vram@ == old(self).bus.cpu_vram@.update(
                (((0x0100 + (old(self).sp as u16)) as u16) & 0x07FF) as int,
                old(self).reg_a,
            ),
            *final(self) == (CPU {
                sp: vstd::wrapping::u8_specs::wrapping_sub(old(self).sp, 1),
                bus: Bus { cpu_vram: final(self).bus.cpu_vram, ..old(self).bus },
                ..*old(self)
            }),
    {
        let a = self.reg_a;
        self.stack_push(a)
    }

    /// Pushes the status byte with the break flag raised; the flag stays
    /// raised in the register as well.
    fn php(&mut self) -> (r: Result<(), EmuError>)
        requires
            old(self).wf(),
        ensures
            final(self).wf(),
            r is Ok,
            final(self).bus.cpu_vram@ == old(self).bus.cpu_vram@.update(
                (((0x0100 + (old(self).sp as u16)) as u16) & 0x07FF) as int,
                old(self).status | 0x10,
            ),
            *final(self) == (CPU {
                sp: vstd::wrapping::u8_specs::wrapping_sub(old(self).sp, 1),
                status: old(self).status | 0x10,
                bus: Bus { cpu_vram: final(self).bus.cpu_vram, ..old(self).bus },
                ..*old(self)
            }),
    {
        self.update_b_flag(true);
        let st = self.status;
        self.stack_push(st)
    }

    /// Pulls the accumulator, driving the zero and negative flags from it.
    fn pla(&mut self)
        requires
            old(self).wf(),
        ensures
            final(self).wf(),
            *final(self) == ({
                let sp1 = vstd::wrapping::u8_specs::wrapping_add(old(self).sp, 1);
                let v = old(self).bus.spec_peek((0x0100 + (sp1 as u16)) as u16);
                CPU { sp: sp1, reg_a: v, status: spec_zn(old(self).status, v), ..*old(self) }
            }),
    {
        self.stack_pop();
        let v = self.stack_read();
        self.reg_a = v;
        self.update_z_and_n_flags(v);
    }

    /// Pulls the status byte; its unused fifth bit always reads as set.
    fn plp(&mut self)
        requires
            old(self).wf(),
        ensures
            final(self).wf(),
            *final(self) == ({
                let sp1 = vstd::wrapping::u8_specs::wrapping_add(old(self).sp, 1);
                let v = old(self).bus.spec_peek((0x0100 + (sp1 as u16)) as u16);
                CPU { sp: sp1, status: v | 0x20, ..*old(self) }
            }),
    {
        self.stack_pop();
        let v = self.stack_read();
        self.status = v | 0x20;
    }

    /// Where a jump lands, its reads threaded through the processor state.
    /// The absolute form is the indirect jump and reproduces the documented
    /// wrap fault: a pointer whose low byte is 0xFF fetches its high byte
    /// from the start of the same page.
    pub open spec fn spec_jmp(self, mode: AddressingMode) -> Result<CPU, EmuError> {
        match self.spec_operand_addr(mode) {
            Ok(p) => {
                if mode == AddressingMode::Absolute {
                    match p.1.spec_read_u16(p.1.pc) {
                        (Ok(next), c2) => {
                            if next & 0x00FF == 0x00FF {
                                match c2.spec_read((next & 0xFF00) as u16) {
                                    (Ok(hi), c3) => match c3.spec_read(next) {
                                        (Ok(lo), c4) => Ok(
                                            CPU {
                                                pc: ((((hi as u16) << 8) + (lo as u16)) as u16),
                                                ..c4
                                            },
                                        ),
                                        (Err(e), _) => Err(e),
                                    },
                                    (Err(e), _) => Err(e),
                                }
                            } else {
                                match c2.spec_read_u16(p.0) {
                                    (Ok(t), c3) => Ok(CPU { pc: t, ..c3 }),
                                    (Err(e), _) => Err(e),
                                }
                            }
                        },
                        (Err(e), _) => Err(e),
                    }
                } else {
                    match p.1.spec_read_u16(p.0) {
                        (Ok(t), c2) => Ok(CPU { pc: t, ..c2 }),
                        (Err(e), _) => Err(e),
                    }
                }
            },
            Err(e) => Err(e),
        }
    }

    /// Moves the program counter to the jump target.
    fn jmp(&mut self, mode: &AddressingMode) -> (r: Result<(), EmuError>)
        requires
            old(self).wf(),
            *mode != AddressingMode::NoneAddressing,
        ensures
            final(self).wf(),
            match old(self).spec_jmp(*mode) {
                Ok(c) => r is Ok && *final(self) == c,
                Err(e) => r == Err::<(), EmuError>(e),
            },
            final(self).extra_cycles == old(self).extra_cycles,
    {
        let addr = match self.get_opperand_address(mode) {
            Ok(a) => a,
            Err(e) => {
                return Err(e);
            },
        };

        if matches!(mode, AddressingMode::Absolute) {
            let next_addr = match self.mem_read_u16(self.pc) {
                Ok(v) => v,
                Err(e) => {
                    return Err(e);
                },
            };

            // The wrap fault: a pointer ending in 0xFF never crosses into the
            // next page for its high byte.
            if next_addr & 0x00FF == 0x00FF {
                let bad_read_addr: u16 = next_addr & 0xFF00;
                let hi = match self.mem_read(bad_read_addr) {
                    Ok(v) => v,
                    Err(e) => {
                        return Err(e);
                    },
                };
                let lo = match self.mem_read(next_addr) {
                    Ok(v) => v,
                    Err(e) => {
                        return Err(e);
                    },
                };
                proof {
                    lemma_hi_byte_bound(hi);
                }
                self.pc = ((hi as u16) << 8) + (lo as u16);
            } else {
                let t = match self.mem_read_u16(addr) {
                    Ok(v) => v,
                    Err(e) => {
                        return Err(e);
                    },
                };
                self.pc = t;
            }
        } else {
            let t = match self.mem_read_u16(addr) {
                Ok(v) => v,
                Err(e) => {
                    return Err(e);
                },
            };
            self.pc = t;
        }
        Ok(())
    }

    /// Jumps to a subroutine: the address of the last byte of this
    /// instruction goes on the stack, and the counter moves to the target.
    fn jsr(&mut self, mode: &AddressingMode) -> (r: Result<(), EmuError>)
        requires
            old(self).wf(),
            *mode != AddressingMode::NoneAddressing,
        ensures
            final(self).wf(),
            match old(self).spec_operand_addr(*mode) {
                Ok(p) => r is Ok && ({
                    let ret = vstd::wrapping::u16_specs::wrapping_add(old(self).pc, 1);
                    let sp1 = vstd::wrapping::u8_specs::wrapping_sub(p.1.sp, 1);
                    let lo_slot = (((0x0100 + (sp1 as u16)) as u16) & 0x07FF) as int;
                    let hi_slot = (vstd::wrapping::u16_specs::wrapping_add((0x0100 + (sp1 as u16)) as u16, 1) & 0x07FF) as int;
                    &&& final(self).bus.cpu_vram@ == p.1.bus.cpu_vram@.update(
                        lo_slot,
                        (ret & 0x00FF) as u8,
                    ).update(hi_slot, (ret >> 8) as u8)
                    &&& *final(self) == (CPU {
                        pc: p.0,
                        sp: vstd::wrapping::u8_specs::wrapping_sub(p.1.sp, 2),
                        bus: Bus { cpu_vram: final(self).bus.cpu_vram, ..p.1.bus },
                        ..p.1
                    })
                }),
                Err(e) => r == Err::<(), EmuError>(e),
            },
            final(self).extra_cycles == old(self).extra_cycles,
    {
        let addr = match self.get_opperand_address(mode) {
            Ok(a) => a,
            Err(e) => {
                return Err(e);
            },
        };

        let return_ptr = self.pc.wrapping_add(1);
        match self.stack_push_u16(return_ptr) {
            Ok(()) => {},
            Err(_) => {
                proof {
                    assert(false);
                }
            },
        }
        self.pc = addr;
        Ok(())
    }

    /// Returns from a subroutine: pulls the return address and resumes one
    /// byte past it.
    fn rts(&mut self)
        requires
            old(self).wf(),
        ensures
            final(self).wf(),
            *final(self) == ({
                let sp1 = vstd::wrapping::u8_specs::wrapping_add(old(self).sp, 1);
                let ptr = old(self).bus.spec_peek_u16((0x0100 + (sp1 as u16)) as u16);
                CPU { sp: vstd::wrapping::u8_specs::wrapping_add(old(self).sp, 2), pc: vstd::wrapping::u16_specs::wrapping_add(ptr, 1), ..*old(self) }
            }),
    {
        self.stack_pop();
        let ptr: u16 = self.stack_read_u16();
        self.stack_pop();

        self.pc = ptr.wrapping_add(1);
    }

    /// Returns from an interrupt: pulls the status byte, then the program
    /// counter, with no adjustment.
    fn rti(&mut self)
        requires
            old(self).wf(),
        ensures
            final(self).wf(),
            *final(self) == ({
                let sp1 = vstd::wrapping::u8_specs::wrapping_add(old(self).sp, 1);
                let st = old(self).bus.spec_peek((0x0100 + (sp1 as u16)) as u16);
                let sp2 = vstd::wrapping::u8_specs::wrapping_add(old(self).sp, 2);
                let target = old(self).bus.spec_peek_u16((0x0100 + (sp2 as u16)) as u16);
                CPU {
                    sp: vstd::wrapping::u8_specs::wrapping_add(old(self).sp, 3),
                    status: st | 0x20,
                    pc: target,
                    ..*old(self)
                }
            }),
    {
        self.stack_pop();
        let st = self.stack_read();
        // The unused fifth bit always reads as set from pulled status.
        self.status = st | 0x20;

        self.stack_pop();
        let target = self.stack_read_u16();
        self.stack_pop();
        self.pc = target;
    }

    /// Services the non-maskable interrupt: pushes the program counter and the status byte with the break flag low, masks further interrupts, charges two cycles, and enters the handler named at 0xFFFA.
    fn interrupt_nmi(&mut self) -> (r: Result<(), EmuError>)
        requires
            old(self).wf(),
        ensures
            final(self).wf(),
            r is Ok ==> ({
                let pushed = old(self).pc;
                let flag = (old(self).status & 0xEF) | 0x20;
                let sp1 = vstd::wrapping::u8_specs::wrapping_sub(old(self).sp, 1);
                let lo_slot = (((0x0100 + (sp1 as u16)) as u16) & 0x07FF) as int;
                let hi_slot = (vstd::wrapping::u16_specs::wrapping_add((0x0100 + (sp1 as u16)) as u16, 1) & 0x07FF) as int;
                let flag_slot = (((0x0100 + (vstd::wrapping::u8_specs::wrapping_sub(old(self).sp, 2) as u16)) as u16)
                    & 0x07FF) as int;
                let ticked = crate::ppu::NesPPU::spec_tick(
                    crate::ppu::NesPPU::spec_tick(
                        crate::ppu::NesPPU::spec_tick(old(self).bus.ppu, 2).0,
                        2,
                    ).0,
                    2,
                ).0;
                &&& final(self).bus.cpu_vram@ == old(self).bus.cpu_vram@.update(
                    lo_slot,
                    (pushed & 0x00FF) as u8,
                ).update(hi_slot, (pushed >> 8) as u8).update(flag_slot, flag)
                &&& final(self).sp == vstd::wrapping::u8_specs::wrapping_sub(old(self).sp, 3)
                &&& final(self).status == (old(self).status | 0x04)
                &&& final(self).reg_a == old(self).reg_a
                &&& final(self).reg_x == old(self).reg_x
                &&& final(self).reg_y == old(self).reg_y
                &&& final(self).extra_cycles == old(self).extra_cycles
                &&& final(self).bus.cycles == crate::bus::spec_sat_add(old(self).bus.cycles, 2)
                &&& final(self).bus.ppu == ticked
                &&& final(self).bus.mapper == old(self).bus.mapper
                &&& final(self).bus.joypad1 == old(self).bus.joypad1
                &&& final(self).bus.strict == old(self).bus.strict
                &&& final(self).bus.frame_ready == (old(self).bus.frame_ready || (!old(
                    self,
                ).bus.ppu.trigger_nmi && ticked.trigger_nmi))
                &&& final(self).pc == old(self).bus.spec_peek_u16(0xFFFA)
            }),
    {
        reveal(Bus::spec_read_model);
        reveal(Bus::spec_peek);
        let pc = self.pc;
        match self.stack_push_u16(pc) {
            Ok(()) => {},
            Err(_) => {
                proof {
                    assert(false);
                }
            },
        }
        let mut flag = self.status;
        flag = flag & 0xEF;
        flag = flag | 0x20;
        match self.stack_push(flag) {
            Ok(()) => {},
            Err(_) => {
                proof {
                    assert(false);
                }
            },
        }
        // Further maskable interrupts wait until the handler finishes.
        self.status = self.status | 0x04;

        self.bus.tick(2);
        let v = match self.mem_read_u16(0xFFFA) {
            Ok(v) => v,
            Err(e) => {
                return Err(e);
            },
        };
        self.pc = v;
        Ok(())
    }

    /// Services a maskable-style interrupt (the break instruction): pushes the address one past the break padding byte and the status byte with the break flag high, masks further interrupts, charges two cycles, and enters the handler named at 0xFFFE.
    fn interrupt_irq(&mut self) -> (r: Result<(), EmuError>)
        requires
            old(self).wf(),
        ensures
            final(self).wf(),
            r is Ok ==> ({
                let pushed = vstd::wrapping::u16_specs::wrapping_add(old(self).pc, 1);
                let flag = (old(self).status | 0x10) | 0x20;
                let sp1 = vstd::wrapping::u8_specs::wrapping_sub(old(self).sp, 1);
                let lo_slot = (((0x0100 + (sp1 as u16)) as u16) & 0x07FF) as int;
                let hi_slot = (vstd::wrapping::u16_specs::wrapping_add((0x0100 + (sp1 as u16)) as u16, 1) & 0x07FF) as int;
                let flag_slot = (((0x0100 + (vstd::wrapping::u8_specs::wrapping_sub(old(self).sp, 2) as u16)) as u16)
                    & 0x07FF) as int;
                let ticked = crate::ppu::NesPPU::spec_tick(
                    crate::ppu::NesPPU::spec_tick(
                        crate::ppu::NesPPU::spec_tick(old(self).bus.ppu, 2).0,
                        2,
                    ).0,
                    2,
                ).0;
                &&& final(self).bus.cpu_vram@ == old(self).bus.cpu_vram@.update(
                    lo_slot,
                    (pushed & 0x00FF) as u8,
                ).update(hi_slot, (pushed >> 8) as u8).update(flag_slot, flag)
                &&& final(self).sp == vstd::wrapping::u8_specs::wrapping_sub(old(self).sp, 3)
                &&& final(self).status == (old(self).status | 0x04)
                &&& final(self).reg_a == old(self).reg_a
                &&& final(self).reg_x == old(self).reg_x
                &&& final(self).reg_y == old(self).reg_y
                &&& final(self).extra_cycles == old(self).extra_cycles
                &&& final(self).bus.cycles == crate::bus::spec_sat_add(old(self).bus.cycles, 2)
                &&& final(self).bus.ppu == ticked
                &&& final(self).bus.mapper == old(self).bus.mapper
                &&& final(self).bus.joypad1 == old(self).bus.joypad1
                &&& final(self).bus.strict == old(self).bus.strict
                &&& final(self).bus.frame_ready == (old(self).bus.frame_ready || (!old(
                    self,
                ).bus.ppu.trigger_nmi && ticked.trigger_nmi))
                &&& final(self).pc == old(self).bus.spec_peek_u16(0xFFFE)
            }),
    {
        reveal(Bus::spec_read_model);
        reveal(Bus::spec_peek);
        let pc = self.pc.wrapping_add(1);
        match self.stack_push_u16(pc) {
            Ok(()) => {},
            Err(_) => {
                proof {
                    assert(false);
                }
            },
        }
        let mut flag = self.status;
        flag = flag | 0x10;
        flag = flag | 0x20;
        match self.stack_push(flag) {
            Ok(()) => {},
            Err(_) => {
                proof {
                    assert(false);
                }
            },
        }
        // Further maskable interrupts wait until the handler finishes.
        self.status = self.status | 0x04;

        self.bus.tick(2);
        let v = match self.mem_read_u16(0xFFFE) {
            Ok(v) => v,
            Err(e) => {
                return Err(e);
            },
        };
        self.pc = v;
        Ok(())
    }

    /// The break instruction as the hardware defines it: a maskable-style
    /// interrupt through the vector at 0xFFFE.  The execution loop instead
    /// stops when it fetches a break, which is what the test programs rely
    /// on.
    pub fn brk(&mut self) -> (r: Result<(), EmuError>)
        requires
            old(self).wf(),
        ensures
            final(self).wf(),
            r is Ok ==> final(self).sp == vstd::wrapping::u8_specs::wrapping_sub(old(self).sp, 3) && final(self).status == (old(
                self,
            ).status | 0x04) && final(self).pc == old(self).bus.spec_peek_u16(0xFFFE),
    {
        self.interrupt_irq()
    }


    /// Brings the processor to its reset state: registers cleared, the unused
    /// status bit set, the stack pointer at the top, and the program counter
    /// loaded from the reset vector at 0xFFFC.
    pub fn reset(&mut self) -> (r: Result<(), EmuError>)
        requires
            old(self).wf(),
        ensures
            final(self).wf(),
            r is Ok ==> *final(self) == (CPU {
                reg_a: 0,
                reg_x: 0,
                reg_y: 0,
                status: 0x20,
                sp: 0xFF,
                pc: old(self).bus.spec_peek_u16(0xFFFC),
                bus: old(self).bus,
                extra_cycles: old(self).extra_cycles,
            }),
    {
        reveal(Bus::spec_read_model);
        reveal(Bus::spec_peek);
        self.reg_a = 0;
        self.reg_x = 0;
        self.reg_y = 0;
        self.status = 0x20;
        self.sp = 0xFF;

        let v = match self.mem_read_u16(0xFFFC) {
            Ok(v) => v,
            Err(e) => {
                return Err(e);
            },
        };
        self.pc = v;
        Ok(())
    }



    /// Whether the loop advances the counter past the operand bytes after
    /// this mnemonic: the jumps and returns set the counter themselves.
    pub open spec fn spec_should_inc(m: Mnemonic) -> bool {
        !(m == Mnemonic::JMP || m == Mnemonic::JSR || m == Mnemonic::RTS || m == Mnemonic::RTI)
    }

    /// The outcome one instruction's semantic action reports, as a function
    /// of the processor before it: an error comes exactly where one of its
    /// modeled reads or writes fails.
    #[verifier::opaque]
    pub open spec fn spec_instr_result(self, op: OpCode) -> Result<(), EmuError> {
        let pre = self;
        match op.code {
            Mnemonic::LDA => match pre.spec_operand_value(op.addressing_mode) {
                Ok(_) => Ok(()),
                Err(e) => Err(e),
            },
            Mnemonic::LDX => match pre.spec_operand_value(op.addressing_mode) {
                Ok(_) => Ok(()),
                Err(e) => Err(e),
            },
            Mnemonic::LDY => match pre.spec_operand_value(op.addressing_mode) {
                Ok(_) => Ok(()),
                Err(e) => Err(e),
            },
            Mnemonic::AND => match pre.spec_operand_value(op.addressing_mode) {
                Ok(_) => Ok(()),
                Err(e) => Err(e),
            },
            Mnemonic::ORA => match pre.spec_operand_value(op.addressing_mode) {
                Ok(_) => Ok(()),
                Err(e) => Err(e),
            },
            Mnemonic::EOR => match pre.spec_operand_value(op.addressing_mode) {
                Ok(_) => Ok(()),
                Err(e) => Err(e),
            },
            Mnemonic::ADC => match pre.spec_operand_value(op.addressing_mode) {
                Ok(_) => Ok(()),
                Err(e) => Err(e),
            },
            Mnemonic::SBC => match pre.spec_operand_value(op.addressing_mode) {
                Ok(_) => Ok(()),
                Err(e) => Err(e),
            },
            Mnemonic::CMP => match pre.spec_operand_value(op.addressing_mode) {
                Ok(_) => Ok(()),
                Err(e) => Err(e),
            },
            Mnemonic::CPX => match pre.spec_operand_value(op.addressing_mode) {
                Ok(_) => Ok(()),
                Err(e) => Err(e),
            },
            Mnemonic::CPY => match pre.spec_operand_value(op.addressing_mode) {
                Ok(_) => Ok(()),
                Err(e) => Err(e),
            },
            Mnemonic::BIT => match pre.spec_operand_value(op.addressing_mode) {
                Ok(_) => Ok(()),
                Err(e) => Err(e),
            },
            Mnemonic::TAX => Ok(()),
            Mnemonic::TAY => Ok(()),
            Mnemonic::TXA => Ok(()),
            Mnemonic::TYA => Ok(()),
            Mnemonic::TSX => Ok(()),
            Mnemonic::TXS => Ok(()),
            Mnemonic::INX => Ok(()),
            Mnemonic::INY => Ok(()),
            Mnemonic::DEX => Ok(()),
            Mnemonic::DEY => Ok(()),
            Mnemonic::CLC => Ok(()),
            Mnemonic::SEC => Ok(()),
            Mnemonic::CLD => Ok(()),
            Mnemonic::CLI => Ok(()),
            Mnemonic::CLV => Ok(()),
            Mnemonic::SED => Ok(()),
            Mnemonic::SEI => Ok(()),
            Mnemonic::NOP => Ok(()),
            Mnemonic::PLA => Ok(()),
            Mnemonic::PLP => Ok(()),
            Mnemonic::RTS => Ok(()),
            Mnemonic::RTI => Ok(()),
            Mnemonic::BCC => if (pre.status ^ 0x01) & 0x01 == 0x01 {
                match pre.spec_read(pre.pc) {
                    (Ok(_), _) => Ok(()),
                    (Err(e), _) => Err(e),
                }
            } else {
                Ok(())
            },
            Mnemonic::BCS => if (pre.status & 0x01) == 0x01 {
                match pre.spec_read(pre.pc) {
                    (Ok(_), _) => Ok(()),
                    (Err(e), _) => Err(e),
                }
            } else {
                Ok(())
            },
            Mnemonic::BEQ => if (pre.status & 0x02) == 0x02 {
                match pre.spec_read(pre.pc) {
                    (Ok(_), _) => Ok(()),
                    (Err(e), _) => Err(e),
                }
            } else {
                Ok(())
            },
            Mnemonic::BNE => if (pre.status ^ 0x02) & 0x02 == 0x02 {
                match pre.spec_read(pre.pc) {
                    (Ok(_), _) => Ok(()),
                    (Err(e), _) => Err(e),
                }
            } else {
                Ok(())
            },
            Mnemonic::BMI => if (pre.status & 0x80) == 0x80 {
                match pre.spec_read(pre.pc) {
                    (Ok(_), _) => Ok(()),
                    (Err(e), _) => Err(e),
                }
            } else {
                Ok(())
            },
            Mnemonic::BPL => if (pre.status ^ 0x80) & 0x80 == 0x80 {
                match pre.spec_read(pre.pc) {
                    (Ok(_), _) => Ok(()),
                    (Err(e), _) => Err(e),
                }
            } else {
                Ok(())
            },
            Mnemonic::BVC => if (pre.status ^ 0x40) & 0x40 == 0x40 {
                match pre.spec_read(pre.pc) {
                    (Ok(_), _) => Ok(()),
                    (Err(e), _) => Err(e),
                }
            } else {
                Ok(())
            },
            Mnemonic::BVS => if (pre.status & 0x40) == 0x40 {
                match pre.spec_read(pre.pc) {
                    (Ok(_), _) => Ok(()),
                    (Err(e), _) => Err(e),
                }
            } else {
                Ok(())
            },
            Mnemonic::STA => match pre.spec_operand_addr(op.addressing_mode) {
                Ok(p) => p.1.bus.spec_write_result(p.0, p.1.reg_a),
                Err(e) => Err(e),
            },
            Mnemonic::STX => match pre.spec_operand_addr(op.addressing_mode) {
                Ok(p) => p.1.bus.spec_write_result(p.0, p.1.reg_x),
                Err(e) => Err(e),
            },
            Mnemonic::STY => match pre.spec_operand_addr(op.addressing_mode) {
                Ok(p) => p.1.bus.spec_write_result(p.0, p.1.reg_y),
                Err(e) => Err(e),
            },
            Mnemonic::LSR => if op.addressing_mode == AddressingMode::NoneAddressing {
                Ok(())
            } else {
                match pre.spec_operand_addr(op.addressing_mode) {
                    Ok(p) => match p.1.spec_read(p.0) {
                        (Ok(v), c2) => c2.bus.spec_write_result(p.0, v >> 1),
                        (Err(e), _) => Err(e),
                    },
                    Err(e) => Err(e),
                }
            },
            Mnemonic::ROL => if op.addressing_mode == AddressingMode::NoneAddressing {
                Ok(())
            } else {
                match pre.spec_operand_addr(op.addressing_mode) {
                    Ok(p) => match p.1.spec_read(p.0) {
                        (Ok(v), c2) => c2.bus.spec_write_result(p.0, (v << 1) | (c2.status & 0x01)),
                        (Err(e), _) => Err(e),
                    },
                    Err(e) => Err(e),
                }
            },
            Mnemonic::ROR => if op.addressing_mode == AddressingMode::NoneAddressing {
                Ok(())
            } else {
                match pre.spec_operand_addr(op.addressing_mode) {
                    Ok(p) => match p.1.spec_read(p.0) {
                        (Ok(v), c2) => c2.bus.spec_write_result(p.0, (v >> 1) | ((c2.status & 0x01) << 7)),
                        (Err(e), _) => Err(e),
                    },
                    Err(e) => Err(e),
                }
            },
            Mnemonic::ASL => if op.addressing_mode == AddressingMode::NoneAddressing {
                Ok(())
            } else {
                match pre.spec_operand_addr(op.addressing_mode) {
                    Ok(p) => match p.1.spec_read(p.0) {
                        (Ok(v), c2) => ({
                            let out = v << 1;
                            let c3 = CPU {
                                status: spec_zn(
                                    spec_set_flag(c2.status, 0x01, v & 0x80 == 0x80),
                                    out,
                                ),
                                ..c2
                            };
                            match c3.spec_operand_addr(op.addressing_mode) {
                                Ok(p2) => p2.1.bus.spec_write_result(p2.0, out),
                                Err(e) => Err(e),
                            }
                        }),
                        (Err(e), _) => Err(e),
                    },
                    Err(e) => Err(e),
                }
            },
            Mnemonic::INC => match pre.spec_operand_addr(op.addressing_mode) {
                Ok(p) => match p.1.spec_read(p.0) {
                    (Ok(v), c2) => c2.bus.spec_write_result(p.0, vstd::wrapping::u8_specs::wrapping_add(v, 1)),
                    (Err(e), _) => Err(e),
                },
                Err(e) => Err(e),
            },
            Mnemonic::DEC => match pre.spec_operand_addr(op.addressing_mode) {
                Ok(p) => match p.1.spec_read(p.0) {
                    (Ok(v), c2) => c2.bus.spec_write_result(p.0, vstd::wrapping::u8_specs::wrapping_sub(v, 1)),
                    (Err(e), _) => Err(e),
                },
                Err(e) => Err(e),
            },
            Mnemonic::JMP => match pre.spec_jmp(op.addressing_mode) {
                Ok(_) => Ok(()),
                Err(e) => Err(e),
            },
            Mnemonic::JSR => match pre.spec_operand_addr(op.addressing_mode) {
                Ok(_) => Ok(()),
                Err(e) => Err(e),
            },
            Mnemonic::PHA => Ok(()),
            Mnemonic::PHP => Ok(()),
            Mnemonic::BRK => Ok(()),
        }
    }

    /// How one instruction's semantic action relates the processor after
    /// (`post`) to the processor before (`pre`), together with the outcome it
    /// reports: each mnemonic's clause composes the operand model, the flag
    /// functions and the bus write effect.
    #[verifier::opaque]
    pub open spec fn spec_instr_rel(pre: CPU, post: CPU, op: OpCode, r: Result<(), EmuError>) -> bool {
        match op.code {
            Mnemonic::LDA => match pre.spec_operand_value(op.addressing_mode) {
                Ok(p) => r is Ok && post == (CPU { reg_a: p.0, status: spec_zn(p.1.status, p.0), ..p.1 }),
                Err(e) => r == Err::<(), EmuError>(e),
            },
            Mnemonic::LDX => match pre.spec_operand_value(op.addressing_mode) {
                Ok(p) => r is Ok && post == (CPU { reg_x: p.0, status: spec_zn(p.1.status, p.0), ..p.1 }),
                Err(e) => r == Err::<(), EmuError>(e),
            },
            Mnemonic::LDY => match pre.spec_operand_value(op.addressing_mode) {
                Ok(p) => r is Ok && post == (CPU { reg_y: p.0, status: spec_zn(p.1.status, p.0), ..p.1 }),
                Err(e) => r == Err::<(), EmuError>(e),
            },
            Mnemonic::AND => match pre.spec_operand_value(op.addressing_mode) {
                Ok(p) => r is Ok && post == (CPU { reg_a: (p.1.reg_a & p.0), status: spec_zn(p.1.status, (p.1.reg_a & p.0)), ..p.1 }),
                Err(e) => r == Err::<(), EmuError>(e),
            },
            Mnemonic::ORA => match pre.spec_operand_value(op.addressing_mode) {
                Ok(p) => r is Ok && post == (CPU { reg_a: (p.1.reg_a | p.0), status: spec_zn(p.1.status, (p.1.reg_a | p.0)), ..p.1 }),
                Err(e) => r == Err::<(), EmuError>(e),
            },
            Mnemonic::EOR => match pre.spec_operand_value(op.addressing_mode) {
                Ok(p) => r is Ok && post == (CPU { reg_a: (p.1.reg_a ^ p.0), status: spec_zn(p.1.status, (p.1.reg_a ^ p.0)), ..p.1 }),
                Err(e) => r == Err::<(), EmuError>(e),
            },
            Mnemonic::ADC => match pre.spec_operand_value(op.addressing_mode) {
                Ok(p) => r is Ok && post == (p.1.spec_add_carry(p.0)),
                Err(e) => r == Err::<(), EmuError>(e),
            },
            Mnemonic::SBC => match pre.spec_operand_value(op.addressing_mode) {
                Ok(p) => r is Ok && post == (p.1.spec_add_carry(!p.0)),
                Err(e) => r == Err::<(), EmuError>(e),
            },
            Mnemonic::CMP => match pre.spec_operand_value(op.addressing_mode) {
                Ok(p) => r is Ok && post == (CPU { status: spec_zn(spec_set_flag(p.1.status, 0x01, p.1.reg_a >= p.0), vstd::wrapping::u8_specs::wrapping_sub(p.1.reg_a, p.0)), ..p.1 }),
                Err(e) => r == Err::<(), EmuError>(e),
            },
            Mnemonic::CPX => match pre.spec_operand_value(op.addressing_mode) {
                Ok(p) => r is Ok && post == (CPU { status: spec_zn(spec_set_flag(p.1.status, 0x01, p.1.reg_x >= p.0), vstd::wrapping::u8_specs::wrapping_sub(p.1.reg_x, p.0)), ..p.1 }),
                Err(e) => r == Err::<(), EmuError>(e),
            },
            Mnemonic::CPY => match pre.spec_operand_value(op.addressing_mode) {
                Ok(p) => r is Ok && post == (CPU { status: spec_zn(spec_set_flag(p.1.status, 0x01, p.1.reg_y >= p.0), vstd::wrapping::u8_specs::wrapping_sub(p.1.reg_y, p.0)), ..p.1 }),
                Err(e) => r == Err::<(), EmuError>(e),
            },
            Mnemonic::BIT => match pre.spec_operand_value(op.addressing_mode) {
                Ok(p) => r is Ok && post == (CPU { status: spec_set_flag(spec_set_flag(spec_set_flag(p.1.status, 0x02, (p.0 & p.1.reg_a) == 0), 0x80, (p.0 & 0x80) == 0x80), 0x40, (p.0 & 0x40) == 0x40), ..p.1 }),
                Err(e) => r == Err::<(), EmuError>(e),
            },
            Mnemonic::TAX => r is Ok && post == (CPU { reg_x: pre.reg_a, status: spec_zn(pre.status, pre.reg_a), ..pre }),
            Mnemonic::TAY => r is Ok && post == (CPU { reg_y: pre.reg_a, status: spec_zn(pre.status, pre.reg_a), ..pre }),
            Mnemonic::TXA => r is Ok && post == (CPU { reg_a: pre.reg_x, status: spec_zn(pre.status, pre.reg_x), ..pre }),
            Mnemonic::TYA => r is Ok && post == (CPU { reg_a: pre.reg_y, status: spec_zn(pre.status, pre.reg_y), ..pre }),
            Mnemonic::TSX => r is Ok && post == (CPU { reg_x: pre.sp, status: spec_zn(pre.status, pre.sp), ..pre }),
            Mnemonic::TXS => r is Ok && post == (CPU { sp: pre.reg_x, ..pre }),
            Mnemonic::INX => r is Ok && post == (CPU { reg_x: vstd::wrapping::u8_specs::wrapping_add(pre.reg_x, 1), status: spec_zn(pre.status, vstd::wrapping::u8_specs::wrapping_add(pre.reg_x, 1)), ..pre }),
            Mnemonic::INY => r is Ok && post == (CPU { reg_y: vstd::wrapping::u8_specs::wrapping_add(pre.reg_y, 1), status: spec_zn(pre.status, vstd::wrapping::u8_specs::wrapping_add(pre.reg_y, 1)), ..pre }),
            Mnemonic::DEX => r is Ok && post == (CPU { reg_x: vstd::wrapping::u8_specs::wrapping_sub(pre.reg_x, 1), status: spec_zn(spec_zn(pre.status, vstd::wrapping::u8_specs::wrapping_sub(pre.reg_x, 1)), vstd::wrapping::u8_specs::wrapping_sub(pre.reg_x, 1)), ..pre }),
            Mnemonic::DEY => r is Ok && post == (CPU { reg_y: vstd::wrapping::u8_specs::wrapping_sub(pre.reg_y, 1), status: spec_zn(spec_zn(pre.status, vstd::wrapping::u8_specs::wrapping_sub(pre.reg_y, 1)), vstd::wrapping::u8_specs::wrapping_sub(pre.reg_y, 1)), ..pre }),
            Mnemonic::CLC => r is Ok && post == (CPU { status: pre.status & !0x01, ..pre }),
            Mnemonic::SEC => r is Ok && post == (CPU { status: pre.status | 0x01, ..pre }),
            Mnemonic::CLD => r is Ok && post == (CPU { status: pre.status & !0x08, ..pre }),
            Mnemonic::CLI => r is Ok && post == (CPU { status: pre.status & !0x04, ..pre }),
            Mnemonic::CLV => r is Ok && post == (CPU { status: pre.status & !0x40, ..pre }),
            Mnemonic::SED => r is Ok && post == (CPU { status: pre.status | 0x08, ..pre }),
            Mnemonic::SEI => r is Ok && post == (CPU { status: pre.status | 0x04, ..pre }),
            Mnemonic::NOP => r is Ok && post == (pre),
            Mnemonic::PLA => r is Ok && post == (({
                let sp1 = vstd::wrapping::u8_specs::wrapping_add(pre.sp, 1);
                let v = pre.bus.spec_peek((0x0100 + (sp1 as u16)) as u16);
                CPU { sp: sp1, reg_a: v, status: spec_zn(pre.status, v), ..pre }
            })),
            Mnemonic::PLP => r is Ok && post == (({
                let sp1 = vstd::wrapping::u8_specs::wrapping_add(pre.sp, 1);
                let v = pre.bus.spec_peek((0x0100 + (sp1 as u16)) as u16);
                CPU { sp: sp1, status: v | 0x20, ..pre }
            })),
            Mnemonic::RTS => r is Ok && post == (({
                let sp1 = vstd::wrapping::u8_specs::wrapping_add(pre.sp, 1);
                let ptr = pre.bus.spec_peek_u16((0x0100 + (sp1 as u16)) as u16);
                CPU { sp: vstd::wrapping::u8_specs::wrapping_add(pre.sp, 2), pc: vstd::wrapping::u16_specs::wrapping_add(ptr, 1), ..pre }
            })),
            Mnemonic::RTI => r is Ok && post == (({
                let sp1 = vstd::wrapping::u8_specs::wrapping_add(pre.sp, 1);
                let st = pre.bus.spec_peek((0x0100 + (sp1 as u16)) as u16);
                let sp2 = vstd::wrapping::u8_specs::wrapping_add(pre.sp, 2);
                let target = pre.bus.spec_peek_u16((0x0100 + (sp2 as u16)) as u16);
                CPU { sp: vstd::wrapping::u8_specs::wrapping_add(pre.sp, 3), status: st | 0x20, pc: target, ..pre }
            })),
            Mnemonic::BCC => if (pre.status ^ 0x01) & 0x01 == 0x01 {
                match pre.spec_branch_step() {
                    Ok(c) => r is Ok && post == c,
                    Err(e) => r == Err::<(), EmuError>(e),
                }
            } else {
                r is Ok && post == pre
            },
            Mnemonic::BCS => if (pre.status & 0x01) == 0x01 {
                match pre.spec_branch_step() {
                    Ok(c) => r is Ok && post == c,
                    Err(e) => r == Err::<(), EmuError>(e),
                }
            } else {
                r is Ok && post == pre
            },
            Mnemonic::BEQ => if (pre.status & 0x02) == 0x02 {
                match pre.spec_branch_step() {
                    Ok(c) => r is Ok && post == c,
                    Err(e) => r == Err::<(), EmuError>(e),
                }
            } else {
                r is Ok && post == pre
            },
            Mnemonic::BNE => if (pre.status ^ 0x02) & 0x02 == 0x02 {
                match pre.spec_branch_step() {
                    Ok(c) => r is Ok && post == c,
                    Err(e) => r == Err::<(), EmuError>(e),
                }
            } else {
                r is Ok && post == pre
            },
            Mnemonic::BMI => if (pre.status & 0x80) == 0x80 {
                match pre.spec_branch_step() {
                    Ok(c) => r is Ok && post == c,
                    Err(e) => r == Err::<(), EmuError>(e),
                }
            } else {
                r is Ok && post == pre
            },
            Mnemonic::BPL => if (pre.status ^ 0x80) & 0x80 == 0x80 {
                match pre.spec_branch_step() {
                    Ok(c) => r is Ok && post == c,
                    Err(e) => r == Err::<(), EmuError>(e),
                }
            } else {
                r is Ok && post == pre
            },
            Mnemonic::BVC => if (pre.status ^ 0x40) & 0x40 == 0x40 {
                match pre.spec_branch_step() {
                    Ok(c) => r is Ok && post == c,
                    Err(e) => r == Err::<(), EmuError>(e),
                }
            } else {
                r is Ok && post == pre
            },
            Mnemonic::BVS => if (pre.status & 0x40) == 0x40 {
                match pre.spec_branch_step() {
                    Ok(c) => r is Ok && post == c,
                    Err(e) => r == Err::<(), EmuError>(e),
                }
            } else {
                r is Ok && post == pre
            },
            Mnemonic::STA => match pre.spec_operand_addr(op.addressing_mode) {
                Ok(p) => crate::bus::spec_write_effect(p.1.bus, post.bus, p.0, p.1.reg_a, r)
                    && post == (CPU { bus: post.bus, ..p.1 }),
                Err(e) => r == Err::<(), EmuError>(e),
            },
            Mnemonic::STX => match pre.spec_operand_addr(op.addressing_mode) {
                Ok(p) => crate::bus::spec_write_effect(p.1.bus, post.bus, p.0, p.1.reg_x, r)
                    && post == (CPU { bus: post.bus, ..p.1 }),
                Err(e) => r == Err::<(), EmuError>(e),
            },
            Mnemonic::STY => match pre.spec_operand_addr(op.addressing_mode) {
                Ok(p) => crate::bus::spec_write_effect(p.1.bus, post.bus, p.0, p.1.reg_y, r)
                    && post == (CPU { bus: post.bus, ..p.1 }),
                Err(e) => r == Err::<(), EmuError>(e),
            },
            Mnemonic::LSR => if op.addressing_mode == AddressingMode::NoneAddressing {
                r is Ok && post == ({
                    let out = pre.reg_a >> 1;
                    CPU {
                        reg_a: out,
                        status: spec_zn(spec_set_flag(pre.status, 0x01, pre.reg_a & 0x01 == 0x01), out),
                        ..pre
                    }
                })
            } else {
                match pre.spec_operand_addr(op.addressing_mode) {
                    Ok(p) => match p.1.spec_read(p.0) {
                        (Ok(v), c2) => ({
                            let out = v >> 1;
                            let c3 = CPU {
                                status: spec_zn(spec_set_flag(c2.status, 0x01, v & 0x01 == 0x01), out),
                                ..c2
                            };
                            &&& crate::bus::spec_write_effect(c3.bus, post.bus, p.0, out, r)
                            &&& post == (CPU { bus: post.bus, ..c3 })
                        }),
                        (Err(e), _) => r == Err::<(), EmuError>(e),
                    },
                    Err(e) => r == Err::<(), EmuError>(e),
                }
            },
            Mnemonic::ROL => if op.addressing_mode == AddressingMode::NoneAddressing {
                r is Ok && post == ({
                    let out = (pre.reg_a << 1) | (pre.status & 0x01);
                    CPU {
                        reg_a: out,
                        status: spec_zn(spec_set_flag(pre.status, 0x01, pre.reg_a & 0x80 == 0x80), out),
                        ..pre
                    }
                })
            } else {
                match pre.spec_operand_addr(op.addressing_mode) {
                    Ok(p) => match p.1.spec_read(p.0) {
                        (Ok(v), c2) => ({
                            let out = (v << 1) | (c2.status & 0x01);
                            let c3 = CPU {
                                status: spec_zn(spec_set_flag(c2.status, 0x01, v & 0x80 == 0x80), out),
                                ..c2
                            };
                            &&& crate::bus::spec_write_effect(c3.bus, post.bus, p.0, out, r)
                            &&& post == (CPU { bus: post.bus, ..c3 })
                        }),
                        (Err(e), _) => r == Err::<(), EmuError>(e),
                    },
                    Err(e) => r == Err::<(), EmuError>(e),
                }
            },
            Mnemonic::ROR => if op.addressing_mode == AddressingMode::NoneAddressing {
                r is Ok && post == ({
                    let out = (pre.reg_a >> 1) | ((pre.status & 0x01) << 7);
                    CPU {
                        reg_a: out,
                        status: spec_zn(spec_set_flag(pre.status, 0x01, pre.reg_a & 0x01 == 0x01), out),
                        ..pre
                    }
                })
            } else {
                match pre.spec_operand_addr(op.addressing_mode) {
                    Ok(p) => match p.1.spec_read(p.0) {
                        (Ok(v), c2) => ({
                            let out = (v >> 1) | ((c2.status & 0x01) << 7);
                            let c3 = CPU {
                                status: spec_zn(spec_set_flag(c2.status, 0x01, v & 0x01 == 0x01), out),
                                ..c2
                            };
                            &&& crate::bus::spec_write_effect(c3.bus, post.bus, p.0, out, r)
                            &&& post == (CPU { bus: post.bus, ..c3 })
                        }),
                        (Err(e), _) => r == Err::<(), EmuError>(e),
                    },
                    Err(e) => r == Err::<(), EmuError>(e),
                }
            },
            Mnemonic::ASL => if op.addressing_mode == AddressingMode::NoneAddressing {
                r is Ok && post == ({
                    let out = pre.reg_a << 1;
                    CPU {
                        reg_a: out,
                        status: spec_zn(
                            spec_set_flag(pre.status, 0x01, pre.reg_a & 0x80 == 0x80),
                            out,
                        ),
                        ..pre
                    }
                })
            } else {
                match pre.spec_operand_addr(op.addressing_mode) {
                    Ok(p) => match p.1.spec_read(p.0) {
                        (Ok(v), c2) => ({
                            let out = v << 1;
                            let c3 = CPU {
                                status: spec_zn(
                                    spec_set_flag(c2.status, 0x01, v & 0x80 == 0x80),
                                    out,
                                ),
                                ..c2
                            };
                            match c3.spec_operand_addr(op.addressing_mode) {
                                Ok(p2) => crate::bus::spec_write_effect(
                                    p2.1.bus,
                                    post.bus,
                                    p2.0,
                                    out,
                                    r,
                                ) && post == (CPU { bus: post.bus, ..p2.1 }),
                                Err(e) => r == Err::<(), EmuError>(e),
                            }
                        }),
                        (Err(e), _) => r == Err::<(), EmuError>(e),
                    },
                    Err(e) => r == Err::<(), EmuError>(e),
                }
            },
            Mnemonic::INC => match pre.spec_operand_addr(op.addressing_mode) {
                Ok(p) => match p.1.spec_read(p.0) {
                    (Ok(v), c2) => ({
                        let out = vstd::wrapping::u8_specs::wrapping_add(v, 1);
                        &&& crate::bus::spec_write_effect(c2.bus, post.bus, p.0, out, r)
                        &&& post == (CPU {
                            status: if r is Ok {
                                spec_zn(c2.status, out)
                            } else {
                                c2.status
                            },
                            bus: post.bus,
                            ..c2
                        })
                    }),
                    (Err(e), _) => r == Err::<(), EmuError>(e),
                },
                Err(e) => r == Err::<(), EmuError>(e),
            },
            Mnemonic::DEC => match pre.spec_operand_addr(op.addressing_mode) {
                Ok(p) => match p.1.spec_read(p.0) {
                    (Ok(v), c2) => ({
                        let out = vstd::wrapping::u8_specs::wrapping_sub(v, 1);
                        let c3 = CPU { status: spec_zn(spec_zn(c2.status, out), out), ..c2 };
                        &&& crate::bus::spec_write_effect(c3.bus, post.bus, p.0, out, r)
                        &&& post == (CPU { bus: post.bus, ..c3 })
                    }),
                    (Err(e), _) => r == Err::<(), EmuError>(e),
                },
                Err(e) => r == Err::<(), EmuError>(e),
            },
            Mnemonic::JMP => match pre.spec_jmp(op.addressing_mode) {
                Ok(c) => r is Ok && post == c,
                Err(e) => r == Err::<(), EmuError>(e),
            },
            Mnemonic::JSR => match pre.spec_operand_addr(op.addressing_mode) {
                Ok(p) => r is Ok && ({
                    let ret = vstd::wrapping::u16_specs::wrapping_add(pre.pc, 1);
                    let sp1 = vstd::wrapping::u8_specs::wrapping_sub(p.1.sp, 1);
                    let lo_slot = (((0x0100 + (sp1 as u16)) as u16) & 0x07FF) as int;
                    let hi_slot = (vstd::wrapping::u16_specs::wrapping_add((0x0100 + (sp1 as u16)) as u16, 1) & 0x07FF) as int;
                    &&& post.bus.cpu_vram@ == p.1.bus.cpu_vram@.update(
                        lo_slot,
                        (ret & 0x00FF) as u8,
                    ).update(hi_slot, (ret >> 8) as u8)
                    &&& post == (CPU {
                        pc: p.0,
                        sp: vstd::wrapping::u8_specs::wrapping_sub(p.1.sp, 2),
                        bus: Bus { cpu_vram: post.bus.cpu_vram, ..p.1.bus },
                        ..p.1
                    })
                }),
                Err(e) => r == Err::<(), EmuError>(e),
            },
            Mnemonic::PHA => r is Ok && post.bus.cpu_vram@ == pre.bus.cpu_vram@.update(
                (((0x0100 + (pre.sp as u16)) as u16) & 0x07FF) as int,
                pre.reg_a,
            ) && post == (CPU {
                sp: vstd::wrapping::u8_specs::wrapping_sub(pre.sp, 1),
                bus: Bus { cpu_vram: post.bus.cpu_vram, ..pre.bus },
                ..pre
            }),
            Mnemonic::PHP => r is Ok && post.bus.cpu_vram@ == pre.bus.cpu_vram@.update(
                (((0x0100 + (pre.sp as u16)) as u16) & 0x07FF) as int,
                pre.status | 0x10,
            ) && post == (CPU {
                sp: vstd::wrapping::u8_specs::wrapping_sub(pre.sp, 1),
                status: pre.status | 0x10,
                bus: Bus { cpu_vram: post.bus.cpu_vram, ..pre.bus },
                ..pre
            }),
            Mnemonic::BRK => false,
        }
    }

    /// The processor right before the semantic action runs: after the opcode
    /// fetch and counter step, the page-crossing set has read its operand
    /// once to charge the crossing penalty.
    pub open spec fn spec_pre_dispatch(c: CPU, op: OpCode) -> Result<CPU, EmuError> {
        if spec_is_page_crosser(op.addr) {
            match c.spec_page_extra(op.addressing_mode) {
                Ok(p) => Ok(CPU { extra_cycles: (p.1.extra_cycles + p.0) as usize, ..p.1 }),
                Err(e) => Err(e),
            }
        } else {
            Ok(c)
        }
    }

    /// The processor at the end of a successful step, from the state `mid`
    /// the semantic action left: bus time advances by the base cycles plus
    /// the accumulated penalty, the penalty accumulator empties, and the
    /// counter moves past the operand bytes.
    pub open spec fn spec_finish_step(mid: CPU, op: OpCode) -> CPU {
        let ticked = CPU {
            bus: crate::bus::spec_tick_bus(mid.bus, (op.cycles + mid.extra_cycles) as usize),
            ..mid
        };
        CPU {
            extra_cycles: 0,
            pc: if Self::spec_should_inc(op.code) {
                vstd::wrapping::u16_specs::wrapping_add(ticked.pc, (op.bytes - 1) as u16)
            } else {
                ticked.pc
            },
            ..ticked
        }
    }

    /// Runs one decoded instruction's semantic action.  Reports whether the
    /// loop should still advance the counter past the operand bytes (jumps
    /// and returns set the counter themselves).  Branches add their penalty
    /// to the cycle accumulator; nothing else touches it or the cycle
    /// counter.
    /// Runs one decoded instruction's semantic action.  Reports whether the
    /// loop should still advance the counter past the operand bytes (jumps
    /// and returns set the counter themselves).  Branches add their penalty
    /// to the cycle accumulator; nothing else touches it or the cycle
    /// counter.
    fn dispatch(&mut self, op: OpCode) -> (r: Result<bool, EmuError>)
        requires
            old(self).wf(),
            old(self).extra_cycles <= 1,
            spec_opcode(op.addr) == Some(op),
            op.code != Mnemonic::BRK,
        ensures
            final(self).wf(),
            (match r {
                Ok(_) => Ok::<(), EmuError>(()),
                Err(e) => Err::<(), EmuError>(e),
            }) == old(self).spec_instr_result(op),
            CPU::spec_instr_rel(
                *old(self),
                *final(self),
                op,
                (match r {
                    Ok(_) => Ok::<(), EmuError>(()),
                    Err(e) => Err::<(), EmuError>(e),
                }),
            ),
            r matches Ok(b) ==> b == CPU::spec_should_inc(op.code),
            r is Ok ==> ({
                if spec_branch_taken(old(self).status, op.code) {
                    match old(self).spec_read(old(self).pc) {
                        (Ok(off), c) => final(self).extra_cycles == old(self).extra_cycles + (
                        if spec_branch_cross(c.pc, off) {
                            2int
                        } else {
                            1int
                        }),
                        (Err(_), _) => false,
                    }
                } else {
                    final(self).extra_cycles == old(self).extra_cycles
                }
            }),
    {
        match op.code {
            Mnemonic::BCC | Mnemonic::BCS | Mnemonic::BEQ | Mnemonic::BNE | Mnemonic::BMI
            | Mnemonic::BPL | Mnemonic::BVC | Mnemonic::BVS => self.dispatch_branch(op),
            Mnemonic::JMP | Mnemonic::JSR | Mnemonic::RTS | Mnemonic::RTI => self.dispatch_jump(op),
            Mnemonic::LDA | Mnemonic::LDX | Mnemonic::LDY | Mnemonic::AND | Mnemonic::ORA
            | Mnemonic::EOR | Mnemonic::ADC | Mnemonic::SBC | Mnemonic::CMP | Mnemonic::CPX
            | Mnemonic::CPY | Mnemonic::BIT => self.dispatch_load(op),
            Mnemonic::STA | Mnemonic::STX | Mnemonic::STY | Mnemonic::INC | Mnemonic::DEC
            => self.dispatch_store(op),
            Mnemonic::ASL | Mnemonic::LSR | Mnemonic::ROL | Mnemonic::ROR
            => self.dispatch_shift(op),
            _ => self.dispatch_register(op),
        }
    }

    /// Runs one conditional branch.
    #[verifier::spinoff_prover]
    #[verifier::rlimit(100)]
    fn dispatch_branch(&mut self, op: OpCode) -> (r: Result<bool, EmuError>)
        requires
            old(self).wf(),
            old(self).extra_cycles <= 1,
            spec_opcode(op.addr) == Some(op),
            op.code != Mnemonic::BRK,
            (op.code == Mnemonic::BCC || op.code == Mnemonic::BCS || op.code == Mnemonic::BEQ
                || op.code == Mnemonic::BNE || op.code == Mnemonic::BMI
                || op.code == Mnemonic::BPL || op.code == Mnemonic::BVC
                || op.code == Mnemonic::BVS),
        ensures
            final(self).wf(),
            (match r {
                Ok(_) => Ok::<(), EmuError>(()),
                Err(e) => Err::<(), EmuError>(e),
            }) == old(self).spec_instr_result(op),
            CPU::spec_instr_rel(
                *old(self),
                *final(self),
                op,
                (match r {
                    Ok(_) => Ok::<(), EmuError>(()),
                    Err(e) => Err::<(), EmuError>(e),
                }),
            ),
            r matches Ok(b) ==> b == CPU::spec_should_inc(op.code),
            r is Ok ==> ({
                if spec_branch_taken(old(self).status, op.code) {
                    match old(self).spec_read(old(self).pc) {
                        (Ok(off), c) => final(self).extra_cycles == old(self).extra_cycles + (
                        if spec_branch_cross(c.pc, off) {
                            2int
                        } else {
                            1int
                        }),
                        (Err(_), _) => false,
                    }
                } else {
                    final(self).extra_cycles == old(self).extra_cycles
                }
            }),
    {
        reveal(CPU::spec_instr_rel);
        reveal(CPU::spec_instr_result);
        proof {
            lemma_opcode_props(op.addr);
        }
        let mut should_inc: bool = true;

        let res: Result<(), EmuError> = match op.code {
            Mnemonic::BCC => self.bcc(),
            Mnemonic::BCS => self.bcs(),
            Mnemonic::BEQ => self.beq(),
            Mnemonic::BNE => self.bne(),
            Mnemonic::BMI => self.bmi(),
            Mnemonic::BPL => self.bpl(),
            Mnemonic::BVC => self.bvc(),
            Mnemonic::BVS => self.bvs(),
            _ => {
                // The other mnemonics are routed to their own group.
                proof {
                    assert(false);
                }
                Ok(())
            },
        };
        match res {
            Ok(()) => Ok(should_inc),
            Err(e) => Err(e),
        }
    }

    /// Runs one jump or return instruction.
    #[verifier::spinoff_prover]
    #[verifier::rlimit(100)]
    fn dispatch_jump(&mut self, op: OpCode) -> (r: Result<bool, EmuError>)
        requires
            old(self).wf(),
            old(self).extra_cycles <= 1,
            spec_opcode(op.addr) == Some(op),
            op.code != Mnemonic::BRK,
            (op.code == Mnemonic::JMP || op.code == Mnemonic::JSR || op.code == Mnemonic::RTS
                || op.code == Mnemonic::RTI),
        ensures
            final(self).wf(),
            (match r {
                Ok(_) => Ok::<(), EmuError>(()),
                Err(e) => Err::<(), EmuError>(e),
            }) == old(self).spec_instr_result(op),
            CPU::spec_instr_rel(
                *old(self),
                *final(self),
                op,
                (match r {
                    Ok(_) => Ok::<(), EmuError>(()),
                    Err(e) => Err::<(), EmuError>(e),
                }),
            ),
            r matches Ok(b) ==> b == CPU::spec_should_inc(op.code),
            r is Ok ==> final(self).extra_cycles == old(self).extra_cycles,
    {
        reveal(CPU::spec_instr_rel);
        reveal(CPU::spec_instr_result);
        proof {
            lemma_opcode_props(op.addr);
        }
        let mut should_inc: bool = true;

        let res: Result<(), EmuError> = match op.code {
            Mnemonic::JMP => {
                should_inc = false;
                self.jmp(&op.addressing_mode)
            },
            Mnemonic::JSR => {
                should_inc = false;
                self.jsr(&op.addressing_mode)
            },
            Mnemonic::RTS => {
                should_inc = false;
                self.rts();
                Ok(())
            },
            Mnemonic::RTI => {
                should_inc = false;
                self.rti();
                Ok(())
            },
            _ => {
                // The other mnemonics are routed to their own group.
                proof {
                    assert(false);
                }
                Ok(())
            },
        };
        match res {
            Ok(()) => Ok(should_inc),
            Err(e) => Err(e),
        }
    }

    /// Runs one instruction that reads an operand into a register or the flags.
    #[verifier::spinoff_prover]
    #[verifier::rlimit(100)]
    fn dispatch_load(&mut self, op: OpCode) -> (r: Result<bool, EmuError>)
        requires
            old(self).wf(),
            old(self).extra_cycles <= 1,
            spec_opcode(op.addr) == Some(op),
            op.code != Mnemonic::BRK,
            (op.code == Mnemonic::LDA || op.code == Mnemonic::LDX || op.code == Mnemonic::LDY
                || op.code == Mnemonic::AND || op.code == Mnemonic::ORA
                || op.code == Mnemonic::EOR || op.code == Mnemonic::ADC
                || op.code == Mnemonic::SBC || op.code == Mnemonic::CMP
                || op.code == Mnemonic::CPX || op.code == Mnemonic::CPY
                || op.code == Mnemonic::BIT),
        ensures
            final(self).wf(),
            (match r {
                Ok(_) => Ok::<(), EmuError>(()),
                Err(e) => Err::<(), EmuError>(e),
            }) == old(self).spec_instr_result(op),
            CPU::spec_instr_rel(
                *old(self),
                *final(self),
                op,
                (match r {
                    Ok(_) => Ok::<(), EmuError>(()),
                    Err(e) => Err::<(), EmuError>(e),
                }),
            ),
            r matches Ok(b) ==> b == CPU::spec_should_inc(op.code),
            r is Ok ==> final(self).extra_cycles == old(self).extra_cycles,
    {
        reveal(CPU::spec_instr_rel);
        reveal(CPU::spec_instr_result);
        proof {
            lemma_opcode_props(op.addr);
        }
        let mut should_inc: bool = true;

        let res: Result<(), EmuError> = match op.code {
            Mnemonic::LDA => self.lda(&op.addressing_mode),
            Mnemonic::LDX => self.ldx(&op.addressing_mode),
            Mnemonic::LDY => self.ldy(&op.addressing_mode),
            Mnemonic::AND => self.and(&op.addressing_mode),
            Mnemonic::ORA => self.ora(&op.addressing_mode),
            Mnemonic::EOR => self.eor(&op.addressing_mode),
            Mnemonic::ADC => self.adc(&op.addressing_mode),
            Mnemonic::SBC => self.sbc(&op.addressing_mode),
            Mnemonic::CMP => self.cmp(&op.addressing_mode),
            Mnemonic::CPX => self.cpx(&op.addressing_mode),
            Mnemonic::CPY => self.cpy(&op.addressing_mode),
            Mnemonic::BIT => self.bit(&op.addressing_mode),
            _ => {
                // The other mnemonics are routed to their own group.
                proof {
                    assert(false);
                }
                Ok(())
            },
        };
        match res {
            Ok(()) => Ok(should_inc),
            Err(e) => Err(e),
        }
    }

    /// Runs one instruction that stores a register or steps a byte in memory.
    #[verifier::spinoff_prover]
    #[verifier::rlimit(100)]
    fn dispatch_store(&mut self, op: OpCode) -> (r: Result<bool, EmuError>)
        requires
            old(self).wf(),
            old(self).extra_cycles <= 1,
            spec_opcode(op.addr) == Some(op),
            op.code != Mnemonic::BRK,
            (op.code == Mnemonic::STA || op.code == Mnemonic::STX || op.code == Mnemonic::STY
                || op.code == Mnemonic::INC || op.code == Mnemonic::DEC),
        ensures
            final(self).wf(),
            (match r {
                Ok(_) => Ok::<(), EmuError>(()),
                Err(e) => Err::<(), EmuError>(e),
            }) == old(self).spec_instr_result(op),
            CPU::spec_instr_rel(
                *old(self),
                *final(self),
                op,
                (match r {
                    Ok(_) => Ok::<(), EmuError>(()),
                    Err(e) => Err::<(), EmuError>(e),
                }),
            ),
            r matches Ok(b) ==> b == CPU::spec_should_inc(op.code),
            r is Ok ==> final(self).extra_cycles == old(self).extra_cycles,
    {
        reveal(CPU::spec_instr_rel);
        reveal(CPU::spec_instr_result);
        reveal(crate::bus::spec_write_effect);
        reveal(Bus::spec_write_result);
        proof {
            lemma_opcode_props(op.addr);
        }
        let mut should_inc: bool = true;

        let res: Result<(), EmuError> = match op.code {
            Mnemonic::STA => self.sta(&op.addressing_mode),
            Mnemonic::STX => self.stx(&op.addressing_mode),
            Mnemonic::STY => self.sty(&op.addressing_mode),
            Mnemonic::INC => self.inc(&op.addressing_mode),
            Mnemonic::DEC => self.dec(&op.addressing_mode),
            _ => {
                // The other mnemonics are routed to their own group.
                proof {
                    assert(false);
                }
                Ok(())
            },
        };
        match res {
            Ok(()) => Ok(should_inc),
            Err(e) => Err(e),
        }
    }

    /// Runs one shift or rotate.
    #[verifier::spinoff_prover]
    #[verifier::rlimit(100)]
    fn dispatch_shift(&mut self, op: OpCode) -> (r: Result<bool, EmuError>)
        requires
            old(self).wf(),
            old(self).extra_cycles <= 1,
            spec_opcode(op.addr) == Some(op),
            op.code != Mnemonic::BRK,
            (op.code == Mnemonic::ASL || op.code == Mnemonic::LSR || op.code == Mnemonic::ROL
                || op.code == Mnemonic::ROR),
        ensures
            final(self).wf(),
            (match r {
                Ok(_) => Ok::<(), EmuError>(()),
                Err(e) => Err::<(), EmuError>(e),
            }) == old(self).spec_instr_result(op),
            CPU::spec_instr_rel(
                *old(self),
                *final(self),
                op,
                (match r {
                    Ok(_) => Ok::<(), EmuError>(()),
                    Err(e) => Err::<(), EmuError>(e),
                }),
            ),
            r matches Ok(b) ==> b == CPU::spec_should_inc(op.code),
            r is Ok ==> final(self).extra_cycles == old(self).extra_cycles,
    {
        reveal(CPU::spec_instr_rel);
        reveal(CPU::spec_instr_result);
        reveal(crate::bus::spec_write_effect);
        reveal(Bus::spec_write_result);
        proof {
            lemma_opcode_props(op.addr);
        }
        let mut should_inc: bool = true;

        let res: Result<(), EmuError> = match op.code {
            Mnemonic::ASL => self.asl(&op.addressing_mode),
            Mnemonic::LSR => self.lsr(&op.addressing_mode),
            Mnemonic::ROL => self.rol(&op.addressing_mode),
            Mnemonic::ROR => self.ror(&op.addressing_mode),
            _ => {
                // The other mnemonics are routed to their own group.
                proof {
                    assert(false);
                }
                Ok(())
            },
        };
        match res {
            Ok(()) => Ok(should_inc),
            Err(e) => Err(e),
        }
    }

    /// Runs one register, flag or stack instruction.
    #[verifier::spinoff_prover]
    #[verifier::rlimit(100)]
    fn dispatch_register(&mut self, op: OpCode) -> (r: Result<bool, EmuError>)
        requires
            old(self).wf(),
            old(self).extra_cycles <= 1,
            spec_opcode(op.addr) == Some(op),
            op.code != Mnemonic::BRK,
            (op.code == Mnemonic::TAX || op.code == Mnemonic::TAY || op.code == Mnemonic::TSX
                || op.code == Mnemonic::TXA || op.code == Mnemonic::TXS
                || op.code == Mnemonic::TYA || op.code == Mnemonic::INX
                || op.code == Mnemonic::INY || op.code == Mnemonic::DEX
                || op.code == Mnemonic::DEY || op.code == Mnemonic::CLC
                || op.code == Mnemonic::SEC || op.code == Mnemonic::CLD
                || op.code == Mnemonic::CLI || op.code == Mnemonic::CLV
                || op.code == Mnemonic::SED || op.code == Mnemonic::SEI
                || op.code == Mnemonic::NOP || op.code == Mnemonic::PHA
                || op.code == Mnemonic::PHP || op.code == Mnemonic::PLA
                || op.code == Mnemonic::PLP),
        ensures
            final(self).wf(),
            (match r {
                Ok(_) => Ok::<(), EmuError>(()),
                Err(e) => Err::<(), EmuError>(e),
            }) == old(self).spec_instr_result(op),
            CPU::spec_instr_rel(
                *old(self),
                *final(self),
                op,
                (match r {
                    Ok(_) => Ok::<(), EmuError>(()),
                    Err(e) => Err::<(), EmuError>(e),
                }),
            ),
            r matches Ok(b) ==> b == CPU::spec_should_inc(op.code),
            r is Ok ==> final(self).extra_cycles == old(self).extra_cycles,
    {
        reveal(CPU::spec_instr_rel);
        reveal(CPU::spec_instr_result);
        proof {
            lemma_opcode_props(op.addr);
        }
        let mut should_inc: bool = true;

        let res: Result<(), EmuError> = match op.code {
            Mnemonic::TAX => {
                self.tax();
                Ok(())
            },
            Mnemonic::TAY => {
                self.tay();
                Ok(())
            },
            Mnemonic::TSX => {
                self.tsx();
                Ok(())
            },
            Mnemonic::TXA => {
                self.txa();
                Ok(())
            },
            Mnemonic::TXS => {
                self.txs();
                Ok(())
            },
            Mnemonic::TYA => {
                self.tya();
                Ok(())
            },
            Mnemonic::INX => {
                self.inx();
                Ok(())
            },
            Mnemonic::INY => {
                self.iny();
                Ok(())
            },
            Mnemonic::DEX => {
                self.dex();
                Ok(())
            },
            Mnemonic::DEY => {
                self.dey();
                Ok(())
            },
            Mnemonic::CLC => {
                self.clc();
                Ok(())
            },
            Mnemonic::SEC => {
                self.sec();
                Ok(())
            },
            Mnemonic::CLD => {
                self.cld();
                Ok(())
            },
            Mnemonic::CLI => {
                self.cli();
                Ok(())
            },
            Mnemonic::CLV => {
                self.clv();
                Ok(())
            },
            Mnemonic::SED => {
                self.sed();
                Ok(())
            },
            Mnemonic::SEI => {
                self.sei();
                Ok(())
            },
            Mnemonic::NOP => Ok(()),
            Mnemonic::PHA => self.pha(),
            Mnemonic::PHP => self.php(),
            Mnemonic::PLA => {
                self.pla();
                Ok(())
            },
            Mnemonic::PLP => {
                self.plp();
                Ok(())
            },
            _ => {
                // The other mnemonics are routed to their own group.
                proof {
                    assert(false);
                }
                Ok(())
            },
        };
        match res {
            Ok(()) => Ok(should_inc),
            Err(e) => Err(e),
        }
    }

    /// One turn of the execution loop: service a pending interrupt, fetch and
    /// decode the opcode, account the page-crossing penalty, run the
    /// instruction, advance bus time by the base cycles plus any penalty, and
    /// move the counter past the operand bytes.
    ///
    /// When no interrupt is pending, the bus cycle counter advances by
    /// exactly the instruction's documented base count plus the page-crossing
    /// and branch penalties; a break instruction stops the loop before any of
    /// that, and a byte outside the official set is reported with its
    /// address.
    #[verifier::rlimit(100)]
    pub fn step(&mut self) -> (r: Result<StepEvent, EmuError>)
        requires
            old(self).wf(),
            old(self).extra_cycles == 0,
        ensures
            final(self).wf(),
            r is Ok ==> final(self).extra_cycles == 0,
            !old(self).bus.ppu.trigger_nmi ==> ({
                let (fr, c1) = old(self).spec_read(old(self).pc);
                match fr {
                    Ok(opbyte) => {
                        &&& (opbyte == 0x00 <==> r == Ok::<StepEvent, EmuError>(StepEvent::Brk))
                        &&& (opbyte == 0x00 ==> *final(self) == (CPU {
                            pc: vstd::wrapping::u16_specs::wrapping_add(c1.pc, 1),
                            ..c1
                        }))
                        &&& (spec_opcode(opbyte) is None ==> r == Err::<StepEvent, EmuError>(
                            EmuError::UnknownOpcode { opcode: opbyte, pc: old(self).pc },
                        ))
                        &&& (opbyte != 0x00 ==> match spec_opcode(opbyte) {
                            Some(op) => ({
                                let c2 = CPU {
                                    pc: vstd::wrapping::u16_specs::wrapping_add(c1.pc, 1),
                                    ..c1
                                };
                                match CPU::spec_pre_dispatch(c2, op) {
                                    Ok(c3) => {
                                        &&& (r == Ok::<StepEvent, EmuError>(StepEvent::Ran)
                                            <==> c3.spec_instr_result(op) is Ok)
                                        &&& (match c3.spec_instr_result(op) {
                                            Err(e) => r == Err::<StepEvent, EmuError>(e),
                                            Ok(_) => true,
                                        })
                                        &&& (r == Ok::<StepEvent, EmuError>(StepEvent::Ran)
                                            ==> exists|mid: CPU|
                                            {
                                                &&& #[trigger] CPU::spec_instr_rel(
                                                    c3,
                                                    mid,
                                                    op,
                                                    Ok(()),
                                                )
                                                &&& *final(self) == CPU::spec_finish_step(mid, op)
                                            })
                                    },
                                    Err(e) => r == Err::<StepEvent, EmuError>(e),
                                }
                            }),
                            None => true,
                        })
                    },
                    Err(e) => r == Err::<StepEvent, EmuError>(e),
                }
            }),
    {
        if self.bus.poll_nmi_status() {
            match self.interrupt_nmi() {
                Ok(()) => {},
                Err(e) => {
                    return Err(e);
                },
            }
        }

        let opbyte = match self.mem_read(self.pc) {
            Ok(v) => v,
            Err(e) => {
                return Err(e);
            },
        };
        let op = match opcode_lookup(opbyte) {
            Some(o) => o,
            None => {
                return Err(EmuError::UnknownOpcode { opcode: opbyte, pc: self.pc });
            },
        };
        proof {
            lemma_opcode_props(opbyte);
        }

        self.pc = self.pc.wrapping_add(1);

        if opbyte == 0x00 {
            // The break instruction stops the loop.
            return Ok(StepEvent::Brk);
        }

        if is_page_crosser(opbyte) {
            let extra = match self.calc_page_cycles(&op.addressing_mode) {
                Ok(v) => v,
                Err(e) => {
                    return Err(e);
                },
            };
            self.extra_cycles = self.extra_cycles + extra;
        }

        let ghost pre_dispatch = *self;
        let should_inc = match self.dispatch(op) {
            Ok(b) => b,
            Err(e) => {
                return Err(e);
            },
        };
        let ghost mid = *self;


        self.bus.tick(op.cycles + self.extra_cycles);

        if self.extra_cycles > 0 {
            self.extra_cycles = 0;
        }

        if should_inc {
            self.pc = self.pc.wrapping_add((op.bytes - 1) as u16);
        }

        Ok(StepEvent::Ran)
    }

    /// Runs instructions until a break instruction or an emulation error; as
    /// the termination bound the verifier demands, the loop also ends after
    /// an unreachable number of instructions.
    pub fn run(&mut self) -> (r: Result<(), EmuError>)
        requires
            old(self).wf(),
            old(self).extra_cycles == 0,
        ensures
            final(self).wf(),
    {
        let mut remaining: u64 = u64::MAX;
        while remaining > 0
            invariant
                self.wf(),
                self.extra_cycles == 0,
            decreases remaining,
        {
            match self.step() {
                Ok(StepEvent::Ran) => {
                    remaining = remaining - 1;
                },
                Ok(StepEvent::Brk) => {
                    return Ok(());
                },
                Err(e) => {
                    return Err(e);
                },
            }
        }
        Ok(())
    }

    /// Resets the processor, then runs the cartridge.
    pub fn run_rom(&mut self) -> (r: Result<(), EmuError>)
        requires
            old(self).wf(),
            old(self).extra_cycles == 0,
        ensures
            final(self).wf(),
    {
        match self.reset() {
            Ok(()) => {},
            Err(e) => {
                return Err(e);
            },
        }
        self.run()
    }

    /// Steps the stack pointer back up after a pull.
    fn stack_pop(&mut self)
        ensures
            *final(self) == (CPU {
                sp: vstd::wrapping::u8_specs::wrapping_add(old(self).sp, 1),
                ..*old(self)
            }),
    {
        self.sp = self.sp.wrapping_add(1);
    }

    /// Drives the negative flag.
    fn update_n_flag(&mut self, status: bool)
        ensures
            *final(self) == (CPU { status: spec_set_flag(old(self).status, 0x80, status), ..*old(self) }),
    {
        if status {
            self.status = self.status | 0x80;
        } else {
            self.status = self.status & !0x80;
        }
    }

    /// Drives the zero flag.
    fn update_z_flag(&mut self, status: bool)
        ensures
            *final(self) == (CPU { status: spec_set_flag(old(self).status, 0x02, status), ..*old(self) }),
    {
        if status {
            self.status = self.status | 0x02;
        } else {
            self.status = self.status & !0x02;
        }
    }

    /// Drives the overflow flag.
    fn update_o_flag(&mut self, status: bool)
        ensures
            *final(self) == (CPU { status: spec_set_flag(old(self).status, 0x40, status), ..*old(self) }),
    {
        if status {
            self.status = self.status | 0x40;
        } else {
            self.status = self.status & !0x40;
        }
    }

    /// Drives the break flag.
    fn update_b_flag(&mut self, status: bool)
        ensures
            *final(self) == (CPU { status: spec_set_flag(old(self).status, 0x10, status), ..*old(self) }),
    {
        if status {
            self.status = self.status | 0x10;
        } else {
            self.status = self.status & !0x10;
        }
    }

    /// Drives the carry flag.
    fn update_c_bit(&mut self, status: bool)
        ensures
            *final(self) == (CPU { status: spec_set_flag(old(self).status, 0x01, status), ..*old(self) }),
    {
        if status {
            self.status = self.status | 0x01;
        } else {
            self.status = self.status & !0x01;
        }
    }

    /// Sets the zero flag from the value and the negative flag from its top
    /// bit.
    fn update_z_and_n_flags(&mut self, value: u8)
        ensures
            *final(self) == (CPU { status: spec_zn(old(self).status, value), ..*old(self) }),
    {
        if value == 0 {
            self.status = self.status | 0x02;
        } else {
            self.status = self.status & !0x02;
        }
        if value & 0x80 != 0 {
            self.status = self.status | 0x80;
        } else {
            self.status = self.status & !0x80;
        }
    }

    /// The instruction that clears the carry flag.
    fn clc(&mut self)
        ensures
            *final(self) == (CPU { status: old(self).status & !0x01, ..*old(self) }),
    {
        self.status = self.status & !0x01;
    }

    /// The instruction that sets the carry flag.
    fn sec(&mut self)
        ensures
            *final(self) == (CPU { status: old(self).status | 0x01, ..*old(self) }),
    {
        self.status = self.status | 0x01;
    }

    /// The instruction that clears the decimal flag.
    fn cld(&mut self)
        ensures
            *final(self) == (CPU { status: old(self).status & !0x08, ..*old(self) }),
    {
        self.status = self.status & !0x08;
    }

    /// The instruction that clears the interrupt-disable flag.
    fn cli(&mut self)
        ensures
            *final(self) == (CPU { status: old(self).status & !0x04, ..*old(self) }),
    {
        self.status = self.status & !0x04;
    }

    /// The instruction that clears the overflow flag.
    fn clv(&mut self)
        ensures
            *final(self) == (CPU { status: old(self).status & !0x40, ..*old(self) }),
    {
        self.status = self.status & !0x40;
    }

    /// The instruction that sets the decimal flag.
    fn sed(&mut self)
        ensures
            *final(self) == (CPU { status: old(self).status | 0x08, ..*old(self) }),
    {
        self.status = self.status | 0x08;
    }

    /// The instruction that sets the interrupt-disable flag.
    fn sei(&mut self)
        ensures
            *final(self) == (CPU { status: old(self).status | 0x04, ..*old(self) }),
    {
        self.status = self.status | 0x04;
    }

    /// The instruction that copies the accumulator into X and drives the zero and negative flags from
    /// it.
    fn tax(&mut self)
        ensures
            *final(self) == (CPU {
                reg_x: old(self).reg_a,
                status: spec_zn(old(self).status, old(self).reg_a),
                ..*old(self)
            }),
    {
        self.reg_x = self.reg_a;
        self.update_z_and_n_flags(self.reg_x);
    }

    /// The instruction that copies the accumulator into Y and drives the zero and negative flags from
    /// it.
    fn tay(&mut self)
        ensures
            *final(self) == (CPU {
                reg_y: old(self).reg_a,
                status: spec_zn(old(self).status, old(self).reg_a),
                ..*old(self)
            }),
    {
        self.reg_y = self.reg_a;
        self.update_z_and_n_flags(self.reg_y);
    }

    /// The instruction that copies X into the accumulator and drives the zero and negative flags from
    /// it.
    fn txa(&mut self)
        ensures
            *final(self) == (CPU {
                reg_a: old(self).reg_x,
                status: spec_zn(old(self).status, old(self).reg_x),
                ..*old(self)
            }),
    {
        self.reg_a = self.reg_x;
        self.update_z_and_n_flags(self.reg_a);
    }

    /// The instruction that copies Y into the accumulator and drives the zero and negative flags from
    /// it.
    fn tya(&mut self)
        ensures
            *final(self) == (CPU {
                reg_a: old(self).reg_y,
                status: spec_zn(old(self).status, old(self).reg_y),
                ..*old(self)
            }),
    {
        self.reg_a = self.reg_y;
        self.update_z_and_n_flags(self.reg_a);
    }

    /// The instruction that copies the stack pointer into X and drives the zero and negative flags from
    /// it.
    fn tsx(&mut self)
        ensures
            *final(self) == (CPU {
                reg_x: old(self).sp,
                status: spec_zn(old(self).status, old(self).sp),
                ..*old(self)
            }),
    {
        self.reg_x = self.sp;
        self.update_z_and_n_flags(self.reg_x);
    }

    /// The instruction that copies X into the stack pointer, with no flag
    /// effect.
    fn txs(&mut self)
        ensures
            *final(self) == (CPU { sp: old(self).reg_x, ..*old(self) }),
    {
        self.sp = self.reg_x;
    }

    /// The instruction that steps X up by one, wrapping, and drives the zero and
    /// negative flags from the result.
    fn inx(&mut self)
        ensures
            *final(self) == (CPU {
                reg_x: vstd::wrapping::u8_specs::wrapping_add(old(self).reg_x, 1),
                status: spec_zn(old(self).status, vstd::wrapping::u8_specs::wrapping_add(old(self).reg_x, 1)),
                ..*old(self)
            }),
    {
        self.reg_x = self.reg_x.wrapping_add(1);
        self.update_z_and_n_flags(self.reg_x);
    }

    /// The instruction that steps Y up by one, wrapping, and drives the zero and
    /// negative flags from the result.
    fn iny(&mut self)
        ensures
            *final(self) == (CPU {
                reg_y: vstd::wrapping::u8_specs::wrapping_add(old(self).reg_y, 1),
                status: spec_zn(old(self).status, vstd::wrapping::u8_specs::wrapping_add(old(self).reg_y, 1)),
                ..*old(self)
            }),
    {
        self.reg_y = self.reg_y.wrapping_add(1);
        self.update_z_and_n_flags(self.reg_y);
    }

    /// One wrapping decrement, driving the zero and negative flags from the
    /// result.
    fn decrement(&mut self, value: u8) -> (r: u8)
        ensures
            r == vstd::wrapping::u8_specs::wrapping_sub(value, 1),
            *final(self) == (CPU {
                status: spec_zn(old(self).status, vstd::wrapping::u8_specs::wrapping_sub(value, 1)),
                ..*old(self)
            }),
    {
        let output = value.wrapping_sub(1);
        self.update_z_and_n_flags(output);
        output
    }

    /// The instruction that steps X down by one, wrapping, and drives the
    /// zero and negative flags from the result.
    fn dex(&mut self)
        ensures
            *final(self) == (CPU {
                reg_x: vstd::wrapping::u8_specs::wrapping_sub(old(self).reg_x, 1),
                status: spec_zn(
                    spec_zn(old(self).status, vstd::wrapping::u8_specs::wrapping_sub(old(self).reg_x, 1)),
                    vstd::wrapping::u8_specs::wrapping_sub(old(self).reg_x, 1),
                ),
                ..*old(self)
            }),
    {
        let v = self.reg_x;
        self.reg_x = self.decrement(v);
        self.update_z_and_n_flags(self.reg_x);
    }

    /// The instruction that steps Y down by one, wrapping, and drives the
    /// zero and negative flags from the result.
    fn dey(&mut self)
        ensures
            *final(self) == (CPU {
                reg_y: vstd::wrapping::u8_specs::wrapping_sub(old(self).reg_y, 1),
                status: spec_zn(
                    spec_zn(old(self).status, vstd::wrapping::u8_specs::wrapping_sub(old(self).reg_y, 1)),
                    vstd::wrapping::u8_specs::wrapping_sub(old(self).reg_y, 1),
                ),
                ..*old(self)
            }),
    {
        let v = self.reg_y;
        self.reg_y = self.decrement(v);
        self.update_z_and_n_flags(self.reg_y);
    }

    /// Compares a register against an operand: carry reports register >=
    /// operand, zero and negative come from the wrapping difference.
    fn compare(&mut self, val1: u8, val2: u8)
        ensures
            *final(self) == (CPU {
                status: spec_zn(
                    spec_set_flag(old(self).status, 0x01, val1 >= val2),
                    vstd::wrapping::u8_specs::wrapping_sub(val1, val2),
                ),
                ..*old(self)
            }),
    {
        let result = val1.wrapping_sub(val2);
        if val1 >= val2 {
            self.update_c_bit(true);
        } else {
            self.update_c_bit(false);
        }
        self.update_z_and_n_flags(result);
    }

    /// The accumulator after an add-with-carry of `param`: a nine-bit sum
    /// drives the carry, the sign bits drive the overflow, and the truncated
    /// sum lands in the accumulator with its zero and negative flags.
    pub open spec fn spec_add_carry(self, param: u8) -> CPU {
        let cin: u32 = if self.status & 0x01 == 0x01 {
            1u32
        } else {
            0u32
        };
        let sum: u32 = ((self.reg_a as u32) + (param as u32) + cin) as u32;
        let short = (sum & 0xFF) as u8;
        let with_c = spec_set_flag(self.status, 0x01, sum > 0xFF);
        let with_v = spec_set_flag(
            with_c,
            0x40,
            (self.reg_a ^ short) & (param ^ short) & 0x80 == 0x80,
        );
        CPU { reg_a: short, status: spec_zn(with_v, short), ..self }
    }

    /// Adds `param` and the carry into the accumulator.
    fn add_carry(&mut self, param: u8)
        ensures
            *final(self) == old(self).spec_add_carry(param),
    {
        let mut sum: u32 = (self.reg_a as u32) + (param as u32);
        if (self.status & 0x01) == 0x01 {
            sum = sum + 1;
        }

        if sum > 0xFF {
            self.update_c_bit(true);
        } else {
            self.update_c_bit(false);
        }

        proof {
            lemma_low_byte(sum);
        }
        let short_sum: u8 = (sum & 0xFF) as u8;

        // Overflow: the operands agree in sign and the result does not.
        if (self.reg_a ^ short_sum) & (param ^ short_sum) & 0x80 == 0x80 {
            self.update_o_flag(true);
        } else {
            self.update_o_flag(false);
        }

        self.reg_a = short_sum;
        self.update_z_and_n_flags(self.reg_a);
    }

    /// Loads the accumulator.
    fn lda(&mut self, mode: &AddressingMode) -> (r: Result<(), EmuError>)
        requires
            old(self).wf(),
            *mode != AddressingMode::NoneAddressing,
        ensures
            final(self).wf(),
            final(self).extra_cycles == old(self).extra_cycles,
            match old(self).spec_operand_value(*mode) {
                Ok(p) => r is Ok && *final(self) == (CPU { reg_a: p.0, status: spec_zn(p.1.status, p.0), ..p.1 }),
                Err(e) => r == Err::<(), EmuError>(e),
            },
    {
        let addr = match self.get_opperand_address(mode) {
            Ok(a) => a,
            Err(e) => {
                return Err(e);
            },
        };
        let param = match self.mem_read(addr) {
            Ok(v) => v,
            Err(e) => {
                return Err(e);
            },
        };
        self.reg_a = param;
        self.update_z_and_n_flags(self.reg_a);
        Ok(())
    }

    /// Loads the X register.
    fn ldx(&mut self, mode: &AddressingMode) -> (r: Result<(), EmuError>)
        requires
            old(self).wf(),
            *mode != AddressingMode::NoneAddressing,
        ensures
            final(self).wf(),
            final(self).extra_cycles == old(self).extra_cycles,
            match old(self).spec_operand_value(*mode) {
                Ok(p) => r is Ok && *final(self) == (CPU { reg_x: p.0, status: spec_zn(p.1.status, p.0), ..p.1 }),
                Err(e) => r == Err::<(), EmuError>(e),
            },
    {
        let addr = match self.get_opperand_address(mode) {
            Ok(a) => a,
            Err(e) => {
                return Err(e);
            },
        };
        let param = match self.mem_read(addr) {
            Ok(v) => v,
            Err(e) => {
                return Err(e);
            },
        };
        self.reg_x = param;
        self.update_z_and_n_flags(self.reg_x);
        Ok(())
    }

    /// Loads the Y register.
    fn ldy(&mut self, mode: &AddressingMode) -> (r: Result<(), EmuError>)
        requires
            old(self).wf(),
            *mode != AddressingMode::NoneAddressing,
        ensures
            final(self).wf(),
            final(self).extra_cycles == old(self).extra_cycles,
            match old(self).spec_operand_value(*mode) {
                Ok(p) => r is Ok && *final(self) == (CPU { reg_y: p.0, status: spec_zn(p.1.status, p.0), ..p.1 }),
                Err(e) => r == Err::<(), EmuError>(e),
            },
    {
        let addr = match self.get_opperand_address(mode) {
            Ok(a) => a,
            Err(e) => {
                return Err(e);
            },
        };
        let param = match self.mem_read(addr) {
            Ok(v) => v,
            Err(e) => {
                return Err(e);
            },
        };
        self.reg_y = param;
        self.update_z_and_n_flags(self.reg_y);
        Ok(())
    }

    /// Masks the accumulator with the operand.
    fn and(&mut self, mode: &AddressingMode) -> (r: Result<(), EmuError>)
        requires
            old(self).wf(),
            *mode != AddressingMode::NoneAddressing,
        ensures
            final(self).wf(),
            final(self).extra_cycles == old(self).extra_cycles,
            match old(self).spec_operand_value(*mode) {
                Ok(p) => r is Ok && *final(self) == (CPU { reg_a: (p.1.reg_a & p.0), status: spec_zn(p.1.status, (p.1.reg_a & p.0)), ..p.1 }),
                Err(e) => r == Err::<(), EmuError>(e),
            },
    {
        let addr = match self.get_opperand_address(mode) {
            Ok(a) => a,
            Err(e) => {
                return Err(e);
            },
        };
        let param = match self.mem_read(addr) {
            Ok(v) => v,
            Err(e) => {
                return Err(e);
            },
        };
        self.reg_a = self.reg_a & param;
        self.update_z_and_n_flags(self.reg_a);
        Ok(())
    }

    /// Merges the operand into the accumulator.
    fn ora(&mut self, mode: &AddressingMode) -> (r: Result<(), EmuError>)
        requires
            old(self).wf(),
            *mode != AddressingMode::NoneAddressing,
        ensures
            final(self).wf(),
            final(self).extra_cycles == old(self).extra_cycles,
            match old(self).spec_operand_value(*mode) {
                Ok(p) => r is Ok && *final(self) == (CPU { reg_a: (p.1.reg_a | p.0), status: spec_zn(p.1.status, (p.1.reg_a | p.0)), ..p.1 }),
                Err(e) => r == Err::<(), EmuError>(e),
            },
    {
        let addr = match self.get_opperand_address(mode) {
            Ok(a) => a,
            Err(e) => {
                return Err(e);
            },
        };
        let param = match self.mem_read(addr) {
            Ok(v) => v,
            Err(e) => {
                return Err(e);
            },
        };
        self.reg_a = self.reg_a | param;
        self.update_z_and_n_flags(self.reg_a);
        Ok(())
    }

    /// Folds the operand into the accumulator exclusively.
    fn eor(&mut self, mode: &AddressingMode) -> (r: Result<(), EmuError>)
        requires
            old(self).wf(),
            *mode != AddressingMode::NoneAddressing,
        ensures
            final(self).wf(),
            final(self).extra_cycles == old(self).extra_cycles,
            match old(self).spec_operand_value(*mode) {
                Ok(p) => r is Ok && *final(self) == (CPU { reg_a: (p.1.reg_a ^ p.0), status: spec_zn(p.1.status, (p.1.reg_a ^ p.0)), ..p.1 }),
                Err(e) => r == Err::<(), EmuError>(e),
            },
    {
        let addr = match self.get_opperand_address(mode) {
            Ok(a) => a,
            Err(e) => {
                return Err(e);
            },
        };
        let param = match self.mem_read(addr) {
            Ok(v) => v,
            Err(e) => {
                return Err(e);
            },
        };
        self.reg_a = self.reg_a ^ param;
        self.update_z_and_n_flags(self.reg_a);
        Ok(())
    }

    /// Adds the operand and the carry into the accumulator.
    fn adc(&mut self, mode: &AddressingMode) -> (r: Result<(), EmuError>)
        requires
            old(self).wf(),
            *mode != AddressingMode::NoneAddressing,
        ensures
            final(self).wf(),
            final(self).extra_cycles == old(self).extra_cycles,
            match old(self).spec_operand_value(*mode) {
                Ok(p) => r is Ok && *final(self) == (p.1.spec_add_carry(p.0)),
                Err(e) => r == Err::<(), EmuError>(e),
            },
    {
        let addr = match self.get_opperand_address(mode) {
            Ok(a) => a,
            Err(e) => {
                return Err(e);
            },
        };
        let param = match self.mem_read(addr) {
            Ok(v) => v,
            Err(e) => {
                return Err(e);
            },
        };
        self.add_carry(param);
        Ok(())
    }

    /// Subtracts the operand and the borrow from the accumulator: an add-with-carry of the operand's complement.
    fn sbc(&mut self, mode: &AddressingMode) -> (r: Result<(), EmuError>)
        requires
            old(self).wf(),
            *mode != AddressingMode::NoneAddressing,
        ensures
            final(self).wf(),
            final(self).extra_cycles == old(self).extra_cycles,
            match old(self).spec_operand_value(*mode) {
                Ok(p) => r is Ok && *final(self) == (p.1.spec_add_carry(!p.0)),
                Err(e) => r == Err::<(), EmuError>(e),
            },
    {
        let addr = match self.get_opperand_address(mode) {
            Ok(a) => a,
            Err(e) => {
                return Err(e);
            },
        };
        let param = match self.mem_read(addr) {
            Ok(v) => v,
            Err(e) => {
                return Err(e);
            },
        };
        let n_param = !param;
        self.add_carry(n_param);
        Ok(())
    }

    /// Compares the accumulator with the operand.
    fn cmp(&mut self, mode: &AddressingMode) -> (r: Result<(), EmuError>)
        requires
            old(self).wf(),
            *mode != AddressingMode::NoneAddressing,
        ensures
            final(self).wf(),
            final(self).extra_cycles == old(self).extra_cycles,
            match old(self).spec_operand_value(*mode) {
                Ok(p) => r is Ok && *final(self) == (CPU { status: spec_zn(spec_set_flag(p.1.status, 0x01, p.1.reg_a >= p.0), vstd::wrapping::u8_specs::wrapping_sub(p.1.reg_a, p.0)), ..p.1 }),
                Err(e) => r == Err::<(), EmuError>(e),
            },
    {
        let addr = match self.get_opperand_address(mode) {
            Ok(a) => a,
            Err(e) => {
                return Err(e);
            },
        };
        let param = match self.mem_read(addr) {
            Ok(v) => v,
            Err(e) => {
                return Err(e);
            },
        };
        let a = self.reg_a;
        self.compare(a, param);
        Ok(())
    }

    /// Compares the X register with the operand.
    fn cpx(&mut self, mode: &AddressingMode) -> (r: Result<(), EmuError>)
        requires
            old(self).wf(),
            *mode != AddressingMode::NoneAddressing,
        ensures
            final(self).wf(),
            final(self).extra_cycles == old(self).extra_cycles,
            match old(self).spec_operand_value(*mode) {
                Ok(p) => r is Ok && *final(self) == (CPU { status: spec_zn(spec_set_flag(p.1.status, 0x01, p.1.reg_x >= p.0), vstd::wrapping::u8_specs::wrapping_sub(p.1.reg_x, p.0)), ..p.1 }),
                Err(e) => r == Err::<(), EmuError>(e),
            },
    {
        let addr = match self.get_opperand_address(mode) {
            Ok(a) => a,
            Err(e) => {
                return Err(e);
            },
        };
        let param = match self.mem_read(addr) {
            Ok(v) => v,
            Err(e) => {
                return Err(e);
            },
        };
        let x = self.reg_x;
        self.compare(x, param);
        Ok(())
    }

    /// Compares the Y register with the operand.
    fn cpy(&mut self, mode: &AddressingMode) -> (r: Result<(), EmuError>)
        requires
            old(self).wf(),
            *mode != AddressingMode::NoneAddressing,
        ensures
            final(self).wf(),
            final(self).extra_cycles == old(self).extra_cycles,
            match old(self).spec_operand_value(*mode) {
                Ok(p) => r is Ok && *final(self) == (CPU { status: spec_zn(spec_set_flag(p.1.status, 0x01, p.1.reg_y >= p.0), vstd::wrapping::u8_specs::wrapping_sub(p.1.reg_y, p.0)), ..p.1 }),
                Err(e) => r == Err::<(), EmuError>(e),
            },
    {
        let addr = match self.get_opperand_address(mode) {
            Ok(a) => a,
            Err(e) => {
                return Err(e);
            },
        };
        let param = match self.mem_read(addr) {
            Ok(v) => v,
            Err(e) => {
                return Err(e);
            },
        };
        let y = self.reg_y;
        self.compare(y, param);
        Ok(())
    }

    /// Tests the operand: zero from its mask with the accumulator, negative and overflow copied from its two top bits.
    fn bit(&mut self, mode: &AddressingMode) -> (r: Result<(), EmuError>)
        requires
            old(self).wf(),
            *mode != AddressingMode::NoneAddressing,
        ensures
            final(self).wf(),
            final(self).extra_cycles == old(self).extra_cycles,
            match old(self).spec_operand_value(*mode) {
                Ok(p) => r is Ok && *final(self) == (CPU { status: spec_set_flag(spec_set_flag(spec_set_flag(p.1.status, 0x02, (p.0 & p.1.reg_a) == 0), 0x80, (p.0 & 0x80) == 0x80), 0x40, (p.0 & 0x40) == 0x40), ..p.1 }),
                Err(e) => r == Err::<(), EmuError>(e),
            },
    {
        let addr = match self.get_opperand_address(mode) {
            Ok(a) => a,
            Err(e) => {
                return Err(e);
            },
        };
        let param = match self.mem_read(addr) {
            Ok(v) => v,
            Err(e) => {
                return Err(e);
            },
        };
        let output = param & self.reg_a;
        if output == 0 {
            self.update_z_flag(true);
        } else {
            self.update_z_flag(false);
        }
        if (param & 0x80) == 0x80 {
            self.update_n_flag(true);
        } else {
            self.update_n_flag(false);
        }
        if (param & 0x40) == 0x40 {
            self.update_o_flag(true);
        } else {
            self.update_o_flag(false);
        }
        Ok(())
    }

    /// Branches when the carry flag is clear: the signed offset joins the program counter, at
    /// the cost of one cycle plus one more if the target leaves the page.
    fn bcc(&mut self) -> (r: Result<(), EmuError>)
        requires
            old(self).wf(),
            old(self).extra_cycles <= 4,
        ensures
            final(self).wf(),
            final(self).bus.cycles == old(self).bus.cycles,
            ((old(self).status ^ 0x01) & 0x01 == 0x01) ==> match old(self).spec_branch_step() {
                Ok(c) => r is Ok && *final(self) == c,
                Err(e) => r == Err::<(), EmuError>(e),
            },
            !((old(self).status ^ 0x01) & 0x01 == 0x01) ==> r is Ok && *final(self) == *old(self),
    {
        if (self.status ^ 0x01) & 0x01 == 0x01 {
            self.branch()
        } else {
            Ok(())
        }
    }

    /// Branches when the carry flag is set: the signed offset joins the program counter, at
    /// the cost of one cycle plus one more if the target leaves the page.
    fn bcs(&mut self) -> (r: Result<(), EmuError>)
        requires
            old(self).wf(),
            old(self).extra_cycles <= 4,
        ensures
            final(self).wf(),
            final(self).bus.cycles == old(self).bus.cycles,
            ((old(self).status & 0x01) == 0x01) ==> match old(self).spec_branch_step() {
                Ok(c) => r is Ok && *final(self) == c,
                Err(e) => r == Err::<(), EmuError>(e),
            },
            !((old(self).status & 0x01) == 0x01) ==> r is Ok && *final(self) == *old(self),
    {
        if (self.status & 0x01) == 0x01 {
            self.branch()
        } else {
            Ok(())
        }
    }

    /// Branches when the zero flag is set: the signed offset joins the program counter, at
    /// the cost of one cycle plus one more if the target leaves the page.
    fn beq(&mut self) -> (r: Result<(), EmuError>)
        requires
            old(self).wf(),
            old(self).extra_cycles <= 4,
        ensures
            final(self).wf(),
            final(self).bus.cycles == old(self).bus.cycles,
            ((old(self).status & 0x02) == 0x02) ==> match old(self).spec_branch_step() {
                Ok(c) => r is Ok && *final(self) == c,
                Err(e) => r == Err::<(), EmuError>(e),
            },
            !((old(self).status & 0x02) == 0x02) ==> r is Ok && *final(self) == *old(self),
    {
        if (self.status & 0x02) == 0x02 {
            self.branch()
        } else {
            Ok(())
        }
    }

    /// Branches when the zero flag is clear: the signed offset joins the program counter, at
    /// the cost of one cycle plus one more if the target leaves the page.
    fn bne(&mut self) -> (r: Result<(), EmuError>)
        requires
            old(self).wf(),
            old(self).extra_cycles <= 4,
        ensures
            final(self).wf(),
            final(self).bus.cycles == old(self).bus.cycles,
            ((old(self).status ^ 0x02) & 0x02 == 0x02) ==> match old(self).spec_branch_step() {
                Ok(c) => r is Ok && *final(self) == c,
                Err(e) => r == Err::<(), EmuError>(e),
            },
            !((old(self).status ^ 0x02) & 0x02 == 0x02) ==> r is Ok && *final(self) == *old(self),
    {
        if (self.status ^ 0x02) & 0x02 == 0x02 {
            self.branch()
        } else {
            Ok(())
        }
    }

    /// Branches when the negative flag is set: the signed offset joins the program counter, at
    /// the cost of one cycle plus one more if the target leaves the page.
    fn bmi(&mut self) -> (r: Result<(), EmuError>)
        requires
            old(self).wf(),
            old(self).extra_cycles <= 4,
        ensures
            final(self).wf(),
            final(self).bus.cycles == old(self).bus.cycles,
            ((old(self).status & 0x80) == 0x80) ==> match old(self).spec_branch_step() {
                Ok(c) => r is Ok && *final(self) == c,
                Err(e) => r == Err::<(), EmuError>(e),
            },
            !((old(self).status & 0x80) == 0x80) ==> r is Ok && *final(self) == *old(self),
    {
        if (self.status & 0x80) == 0x80 {
            self.branch()
        } else {
            Ok(())
        }
    }

    /// Branches when the negative flag is clear: the signed offset joins the program counter, at
    /// the cost of one cycle plus one more if the target leaves the page.
    fn bpl(&mut self) -> (r: Result<(), EmuError>)
        requires
            old(self).wf(),
            old(self).extra_cycles <= 4,
        ensures
            final(self).wf(),
            final(self).bus.cycles == old(self).bus.cycles,
            ((old(self).status ^ 0x80) & 0x80 == 0x80) ==> match old(self).spec_branch_step() {
                Ok(c) => r is Ok && *final(self) == c,
                Err(e) => r == Err::<(), EmuError>(e),
            },
            !((old(self).status ^ 0x80) & 0x80 == 0x80) ==> r is Ok && *final(self) == *old(self),
    {
        if (self.status ^ 0x80) & 0x80 == 0x80 {
            self.branch()
        } else {
            Ok(())
        }
    }

    /// Branches when the overflow flag is clear: the signed offset joins the program counter, at
    /// the cost of one cycle plus one more if the target leaves the page.
    fn bvc(&mut self) -> (r: Result<(), EmuError>)
        requires
            old(self).wf(),
            old(self).extra_cycles <= 4,
        ensures
            final(self).wf(),
            final(self).bus.cycles == old(self).bus.cycles,
            ((old(self).status ^ 0x40) & 0x40 == 0x40) ==> match old(self).spec_branch_step() {
                Ok(c) => r is Ok && *final(self) == c,
                Err(e) => r == Err::<(), EmuError>(e),
            },
            !((old(self).status ^ 0x40) & 0x40 == 0x40) ==> r is Ok && *final(self) == *old(self),
    {
        if (self.status ^ 0x40) & 0x40 == 0x40 {
            self.branch()
        } else {
            Ok(())
        }
    }

    /// Branches when the overflow flag is set: the signed offset joins the program counter, at
    /// the cost of one cycle plus one more if the target leaves the page.
    fn bvs(&mut self) -> (r: Result<(), EmuError>)
        requires
            old(self).wf(),
            old(self).extra_cycles <= 4,
        ensures
            final(self).wf(),
            final(self).bus.cycles == old(self).bus.cycles,
            ((old(self).status & 0x40) == 0x40) ==> match old(self).spec_branch_step() {
                Ok(c) => r is Ok && *final(self) == c,
                Err(e) => r == Err::<(), EmuError>(e),
            },
            !((old(self).status & 0x40) == 0x40) ==> r is Ok && *final(self) == *old(self),
    {
        if (self.status & 0x40) == 0x40 {
            self.branch()
        } else {
            Ok(())
        }
    }

    /// A taken branch, after its flag test: reads the signed offset, pays the
    /// cycle penalty, and moves the program counter.
    pub open spec fn spec_branch_step(self) -> Result<CPU, EmuError> {
        match self.spec_read(self.pc) {
            (Ok(off), c) => Ok(
                CPU {
                    pc: vstd::wrapping::u16_specs::wrapping_add(c.pc, spec_sign_extend(off)),
                    extra_cycles: (c.extra_cycles + (if spec_branch_cross(c.pc, off) {
                        2int
                    } else {
                        1int
                    })) as usize,
                    ..c
                },
            ),
            (Err(e), _) => Err(e),
        }
    }

    /// The shared tail of every taken branch.
    fn branch(&mut self) -> (r: Result<(), EmuError>)
        requires
            old(self).wf(),
            old(self).extra_cycles <= 4,
        ensures
            final(self).wf(),
            final(self).bus.cycles == old(self).bus.cycles,
            match old(self).spec_branch_step() {
                Ok(c) => r is Ok && *final(self) == c,
                Err(e) => r == Err::<(), EmuError>(e),
            },
    {
        let offset = match self.mem_read(self.pc) {
            Ok(v) => v,
            Err(e) => {
                return Err(e);
            },
        };
        let off16: u16 = if offset >= 0x80 {
            0xFF00u16 | (offset as u16)
        } else {
            offset as u16
        };
        // The instruction after the branch against the branch target.
        let next = self.pc.wrapping_add(1);
        self.conditional_cycle_check(next, next.wrapping_add(off16));
        self.pc = self.pc.wrapping_add(off16);
        Ok(())
    }

    /// Charges the branch penalty: one cycle for the taken branch, one more
    /// when the two addresses lie on different 256-byte pages.
    fn conditional_cycle_check(&mut self, from: u16, to: u16)
        requires
            old(self).extra_cycles <= 4,
        ensures
            *final(self) == (CPU {
                extra_cycles: (old(self).extra_cycles + (if (from & 0xFF00) != (to & 0xFF00) {
                    2int
                } else {
                    1int
                })) as usize,
                ..*old(self)
            }),
    {
        if (from & 0xFF00) != (to & 0xFF00) {
            self.extra_cycles = self.extra_cycles + 2;
        } else {
            self.extra_cycles = self.extra_cycles + 1;
        }
    }

    /// Whether the zero-extended offset carries the address over a page edge.
    fn is_page_cross(&self, addr: u16, offset: u8) -> (r: bool)
        ensures
            r == spec_page_cross(addr, offset),
    {
        (addr & 0xFF00) != (addr.wrapping_add(offset as u16) & 0xFF00)
    }

    /// The page-crossing penalty of an indexed operand, reading what the
    /// resolution would read.
    fn calc_page_cycles(&mut self, mode: &AddressingMode) -> (r: Result<usize, EmuError>)
        requires
            old(self).wf(),
            *mode == AddressingMode::Absolute_X || *mode == AddressingMode::Absolute_Y || *mode
                == AddressingMode::Indirect_Y,
        ensures
            final(self).wf(),
            match old(self).spec_page_extra(*mode) {
                Ok(p) => r == Ok::<usize, EmuError>(p.0) && *final(self) == p.1,
                Err(e) => r == Err::<usize, EmuError>(e),
            },
            final(self).extra_cycles == old(self).extra_cycles,
    {
        match mode {
            AddressingMode::Absolute_X => {
                let addr = match self.mem_read_u16(self.pc) {
                    Ok(v) => v,
                    Err(e) => {
                        return Err(e);
                    },
                };
                if self.is_page_cross(addr, self.reg_x) {
                    Ok(1)
                } else {
                    Ok(0)
                }
            },
            AddressingMode::Absolute_Y => {
                let addr = match self.mem_read_u16(self.pc) {
                    Ok(v) => v,
                    Err(e) => {
                        return Err(e);
                    },
                };
                if self.is_page_cross(addr, self.reg_y) {
                    Ok(1)
                } else {
                    Ok(0)
                }
            },
            AddressingMode::Indirect_Y => {
                let base = match self.mem_read(self.pc) {
                    Ok(v) => v,
                    Err(e) => {
                        return Err(e);
                    },
                };
                let lo = match self.mem_read(base as u16) {
                    Ok(v) => v,
                    Err(e) => {
                        return Err(e);
                    },
                };
                let hi = match self.mem_read(base.wrapping_add(1) as u16) {
                    Ok(v) => v,
                    Err(e) => {
                        return Err(e);
                    },
                };
                let ptr = ((hi as u16) << 8) | (lo as u16);
                if self.is_page_cross(ptr, self.reg_y) {
                    Ok(1)
                } else {
                    Ok(0)
                }
            },
            _ => Ok(0),
        }
    }

    /// Stores the accumulator at the operand address.
    fn sta(&mut self, mode: &AddressingMode) -> (r: Result<(), EmuError>)
        requires
            old(self).wf(),
            *mode != AddressingMode::NoneAddressing,
        ensures
            final(self).wf(),
            match old(self).spec_operand_addr(*mode) {
                Ok(p) => crate::bus::spec_write_effect(p.1.bus, final(self).bus, p.0, p.1.reg_a, r)
                    && *final(self) == (CPU { bus: final(self).bus, ..p.1 }) && r
                    == p.1.bus.spec_write_result(p.0, p.1.reg_a),
                Err(e) => r == Err::<(), EmuError>(e),
            },
            final(self).extra_cycles == old(self).extra_cycles,
    {
        reveal(crate::bus::spec_write_effect);
        reveal(Bus::spec_write_result);
        let addr = match self.get_opperand_address(mode) {
            Ok(a) => a,
            Err(e) => {
                return Err(e);
            },
        };
        let v = self.reg_a;
        self.mem_write(addr, v)
    }

    /// Stores the X register at the operand address.
    fn stx(&mut self, mode: &AddressingMode) -> (r: Result<(), EmuError>)
        requires
            old(self).wf(),
            *mode != AddressingMode::NoneAddressing,
        ensures
            final(self).wf(),
            match old(self).spec_operand_addr(*mode) {
                Ok(p) => crate::bus::spec_write_effect(p.1.bus, final(self).bus, p.0, p.1.reg_x, r)
                    && *final(self) == (CPU { bus: final(self).bus, ..p.1 }) && r
                    == p.1.bus.spec_write_result(p.0, p.1.reg_x),
                Err(e) => r == Err::<(), EmuError>(e),
            },
            final(self).extra_cycles == old(self).extra_cycles,
    {
        reveal(crate::bus::spec_write_effect);
        reveal(Bus::spec_write_result);
        let addr = match self.get_opperand_address(mode) {
            Ok(a) => a,
            Err(e) => {
                return Err(e);
            },
        };
        let v = self.reg_x;
        self.mem_write(addr, v)
    }

    /// Stores the Y register at the operand address.
    fn sty(&mut self, mode: &AddressingMode) -> (r: Result<(), EmuError>)
        requires
            old(self).wf(),
            *mode != AddressingMode::NoneAddressing,
        ensures
            final(self).wf(),
            match old(self).spec_operand_addr(*mode) {
                Ok(p) => crate::bus::spec_write_effect(p.1.bus, final(self).bus, p.0, p.1.reg_y, r)
                    && *final(self) == (CPU { bus: final(self).bus, ..p.1 }) && r
                    == p.1.bus.spec_write_result(p.0, p.1.reg_y),
                Err(e) => r == Err::<(), EmuError>(e),
            },
            final(self).extra_cycles == old(self).extra_cycles,
    {
        reveal(crate::bus::spec_write_effect);
        reveal(Bus::spec_write_result);
        let addr = match self.get_opperand_address(mode) {
            Ok(a) => a,
            Err(e) => {
                return Err(e);
            },
        };
        let v = self.reg_y;
        self.mem_write(addr, v)
    }

    /// Shifts right by one: the carry takes the bit shifted out, zero and negative follow the result.
    fn lsr(&mut self, mode: &AddressingMode) -> (r: Result<(), EmuError>)
        requires
            old(self).wf(),
        ensures
            final(self).wf(),
            *mode == AddressingMode::NoneAddressing ==> r is Ok && *final(self) == ({
                let out = old(self).reg_a >> 1;
                CPU {
                    reg_a: out,
                    status: spec_zn(spec_set_flag(old(self).status, 0x01, old(self).reg_a & 0x01 == 0x01), out),
                    ..*old(self)
                }
            }),
            *mode != AddressingMode::NoneAddressing ==> match old(self).spec_operand_addr(*mode) {
                Ok(p) => match p.1.spec_read(p.0) {
                    (Ok(v), c2) => ({
                        let out = v >> 1;
                        let c3 = CPU {
                            status: spec_zn(spec_set_flag(c2.status, 0x01, v & 0x01 == 0x01), out),
                            ..c2
                        };
                        &&& crate::bus::spec_write_effect(c3.bus, final(self).bus, p.0, out, r)
                        &&& *final(self) == (CPU { bus: final(self).bus, ..c3 })
                        &&& r == c2.bus.spec_write_result(p.0, out)
                    }),
                    (Err(e), _) => r == Err::<(), EmuError>(e),
                },
                Err(e) => r == Err::<(), EmuError>(e),
            },
            final(self).extra_cycles == old(self).extra_cycles,
    {
        reveal(crate::bus::spec_write_effect);
        reveal(Bus::spec_write_result);
        if matches!(mode, AddressingMode::NoneAddressing) {
            if self.reg_a & 0x01 == 0x01 {
                self.update_c_bit(true);
            } else {
                self.update_c_bit(false);
            }
            self.reg_a = self.reg_a >> 1;
            let a = self.reg_a;
            self.update_z_and_n_flags(a);
            Ok(())
        } else {
            let addr = match self.get_opperand_address(mode) {
                Ok(a) => a,
                Err(e) => {
                    return Err(e);
                },
            };
            let param = match self.mem_read(addr) {
                Ok(v) => v,
                Err(e) => {
                    return Err(e);
                },
            };
            if param & 0x01 == 0x01 {
                self.update_c_bit(true);
            } else {
                self.update_c_bit(false);
            }
            let output = param >> 1;
            self.update_z_and_n_flags(output);
            self.mem_write(addr, output)
        }
    }

    /// Rotates left by one: the old carry enters at the bottom, the carry takes the bit shifted out.
    fn rol(&mut self, mode: &AddressingMode) -> (r: Result<(), EmuError>)
        requires
            old(self).wf(),
        ensures
            final(self).wf(),
            *mode == AddressingMode::NoneAddressing ==> r is Ok && *final(self) == ({
                let out = (old(self).reg_a << 1) | (old(self).status & 0x01);
                CPU {
                    reg_a: out,
                    status: spec_zn(spec_set_flag(old(self).status, 0x01, old(self).reg_a & 0x80 == 0x80), out),
                    ..*old(self)
                }
            }),
            *mode != AddressingMode::NoneAddressing ==> match old(self).spec_operand_addr(*mode) {
                Ok(p) => match p.1.spec_read(p.0) {
                    (Ok(v), c2) => ({
                        let out = (v << 1) | (c2.status & 0x01);
                        let c3 = CPU {
                            status: spec_zn(spec_set_flag(c2.status, 0x01, v & 0x80 == 0x80), out),
                            ..c2
                        };
                        &&& crate::bus::spec_write_effect(c3.bus, final(self).bus, p.0, out, r)
                        &&& *final(self) == (CPU { bus: final(self).bus, ..c3 })
                        &&& r == c2.bus.spec_write_result(p.0, out)
                    }),
                    (Err(e), _) => r == Err::<(), EmuError>(e),
                },
                Err(e) => r == Err::<(), EmuError>(e),
            },
            final(self).extra_cycles == old(self).extra_cycles,
    {
        reveal(crate::bus::spec_write_effect);
        reveal(Bus::spec_write_result);
        if matches!(mode, AddressingMode::NoneAddressing) {
            let old_c: u8 = self.status & 0x01;
            if self.reg_a & 0x80 == 0x80 {
                self.update_c_bit(true);
            } else {
                self.update_c_bit(false);
            }
            self.reg_a = (self.reg_a << 1) | old_c;
            let a = self.reg_a;
            self.update_z_and_n_flags(a);
            Ok(())
        } else {
            let addr = match self.get_opperand_address(mode) {
                Ok(a) => a,
                Err(e) => {
                    return Err(e);
                },
            };
            let param = match self.mem_read(addr) {
                Ok(v) => v,
                Err(e) => {
                    return Err(e);
                },
            };
            let old_c: u8 = self.status & 0x01;
            if param & 0x80 == 0x80 {
                self.update_c_bit(true);
            } else {
                self.update_c_bit(false);
            }
            let output = (param << 1) | old_c;
            self.update_z_and_n_flags(output);
            self.mem_write(addr, output)
        }
    }

    /// Rotates right by one: the old carry enters at the top, the carry takes the bit shifted out.
    fn ror(&mut self, mode: &AddressingMode) -> (r: Result<(), EmuError>)
        requires
            old(self).wf(),
        ensures
            final(self).wf(),
            *mode == AddressingMode::NoneAddressing ==> r is Ok && *final(self) == ({
                let out = (old(self).reg_a >> 1) | ((old(self).status & 0x01) << 7);
                CPU {
                    reg_a: out,
                    status: spec_zn(spec_set_flag(old(self).status, 0x01, old(self).reg_a & 0x01 == 0x01), out),
                    ..*old(self)
                }
            }),
            *mode != AddressingMode::NoneAddressing ==> match old(self).spec_operand_addr(*mode) {
                Ok(p) => match p.1.spec_read(p.0) {
                    (Ok(v), c2) => ({
                        let out = (v >> 1) | ((c2.status & 0x01) << 7);
                        let c3 = CPU {
                            status: spec_zn(spec_set_flag(c2.status, 0x01, v & 0x01 == 0x01), out),
                            ..c2
                        };
                        &&& crate::bus::spec_write_effect(c3.bus, final(self).bus, p.0, out, r)
                        &&& *final(self) == (CPU { bus: final(self).bus, ..c3 })
                        &&& r == c2.bus.spec_write_result(p.0, out)
                    }),
                    (Err(e), _) => r == Err::<(), EmuError>(e),
                },
                Err(e) => r == Err::<(), EmuError>(e),
            },
            final(self).extra_cycles == old(self).extra_cycles,
    {
        reveal(crate::bus::spec_write_effect);
        reveal(Bus::spec_write_result);
        if matches!(mode, AddressingMode::NoneAddressing) {
            let old_c: u8 = (self.status & 0x01) << 7;
            if self.reg_a & 0x01 == 0x01 {
                self.update_c_bit(true);
            } else {
                self.update_c_bit(false);
            }
            self.reg_a = (self.reg_a >> 1) | old_c;
            let a = self.reg_a;
            self.update_z_and_n_flags(a);
            Ok(())
        } else {
            let addr = match self.get_opperand_address(mode) {
                Ok(a) => a,
                Err(e) => {
                    return Err(e);
                },
            };
            let param = match self.mem_read(addr) {
                Ok(v) => v,
                Err(e) => {
                    return Err(e);
                },
            };
            let old_c: u8 = (self.status & 0x01) << 7;
            if param & 0x01 == 0x01 {
                self.update_c_bit(true);
            } else {
                self.update_c_bit(false);
            }
            let output = (param >> 1) | old_c;
            self.update_z_and_n_flags(output);
            self.mem_write(addr, output)
        }
    }

    /// Shifts left by one: the carry takes the top bit.  The memory form
    /// resolves its operand twice, once to read and once to write back.
    fn asl(&mut self, mode: &AddressingMode) -> (r: Result<(), EmuError>)
        requires
            old(self).wf(),
        ensures
            final(self).wf(),
            *mode == AddressingMode::NoneAddressing ==> r is Ok && *final(self) == ({
                let out = old(self).reg_a << 1;
                CPU {
                    reg_a: out,
                    status: spec_zn(
                        spec_set_flag(old(self).status, 0x01, old(self).reg_a & 0x80 == 0x80),
                        out,
                    ),
                    ..*old(self)
                }
            }),
            *mode != AddressingMode::NoneAddressing ==> match old(self).spec_operand_addr(*mode) {
                Ok(p) => match p.1.spec_read(p.0) {
                    (Ok(v), c2) => ({
                        let out = v << 1;
                        let c3 = CPU {
                            status: spec_zn(spec_set_flag(c2.status, 0x01, v & 0x80 == 0x80), out),
                            ..c2
                        };
                        match c3.spec_operand_addr(*mode) {
                            Ok(p2) => {
                                &&& crate::bus::spec_write_effect(
                                    p2.1.bus,
                                    final(self).bus,
                                    p2.0,
                                    out,
                                    r,
                                )
                                &&& *final(self) == (CPU { bus: final(self).bus, ..p2.1 })
                                &&& r == p2.1.bus.spec_write_result(p2.0, out)
                            },
                            Err(e) => r == Err::<(), EmuError>(e),
                        }
                    }),
                    (Err(e), _) => r == Err::<(), EmuError>(e),
                },
                Err(e) => r == Err::<(), EmuError>(e),
            },
            final(self).extra_cycles == old(self).extra_cycles,
    {
        reveal(crate::bus::spec_write_effect);
        reveal(Bus::spec_write_result);
        if matches!(mode, AddressingMode::NoneAddressing) {
            let param = self.reg_a;
            let output = param << 1;
            if (param & 0x80) == 0x80 {
                self.sec();
            } else {
                self.clc();
            }
            self.update_z_and_n_flags(output);
            self.reg_a = output;
            Ok(())
        } else {
            let addr = match self.get_opperand_address(mode) {
                Ok(a) => a,
                Err(e) => {
                    return Err(e);
                },
            };
            let param = match self.mem_read(addr) {
                Ok(v) => v,
                Err(e) => {
                    return Err(e);
                },
            };
            let output = param << 1;
            if (param & 0x80) == 0x80 {
                self.sec();
            } else {
                self.clc();
            }
            self.update_z_and_n_flags(output);
            let addr2 = match self.get_opperand_address(mode) {
                Ok(a) => a,
                Err(e) => {
                    return Err(e);
                },
            };
            self.mem_write(addr2, output)
        }
    }

    /// Steps the operand byte up by one, wrapping: the new value lands in
    /// memory first and then drives the zero and negative flags.
    fn inc(&mut self, mode: &AddressingMode) -> (r: Result<(), EmuError>)
        requires
            old(self).wf(),
            *mode != AddressingMode::NoneAddressing,
        ensures
            final(self).wf(),
            match old(self).spec_operand_addr(*mode) {
                Ok(p) => match p.1.spec_read(p.0) {
                    (Ok(v), c2) => ({
                        let out = vstd::wrapping::u8_specs::wrapping_add(v, 1);
                        &&& crate::bus::spec_write_effect(c2.bus, final(self).bus, p.0, out, r)
                        &&& *final(self) == (CPU {
                            status: if r is Ok {
                                spec_zn(c2.status, out)
                            } else {
                                c2.status
                            },
                            bus: final(self).bus,
                            ..c2
                        })
                        &&& r == c2.bus.spec_write_result(p.0, out)
                    }),
                    (Err(e), _) => r == Err::<(), EmuError>(e),
                },
                Err(e) => r == Err::<(), EmuError>(e),
            },
            final(self).extra_cycles == old(self).extra_cycles,
    {
        reveal(crate::bus::spec_write_effect);
        reveal(Bus::spec_write_result);
        let addr = match self.get_opperand_address(mode) {
            Ok(a) => a,
            Err(e) => {
                return Err(e);
            },
        };
        let param = match self.mem_read(addr) {
            Ok(v) => v,
            Err(e) => {
                return Err(e);
            },
        };
        let output = param.wrapping_add(1);
        match self.mem_write(addr, output) {
            Ok(()) => {},
            Err(e) => {
                return Err(e);
            },
        }
        self.update_z_and_n_flags(output);
        Ok(())
    }

    /// Steps the operand byte down by one, wrapping: the flags settle before
    /// the new value lands in memory.
    fn dec(&mut self, mode: &AddressingMode) -> (r: Result<(), EmuError>)
        requires
            old(self).wf(),
            *mode != AddressingMode::NoneAddressing,
        ensures
            final(self).wf(),
            match old(self).spec_operand_addr(*mode) {
                Ok(p) => match p.1.spec_read(p.0) {
                    (Ok(v), c2) => ({
                        let out = vstd::wrapping::u8_specs::wrapping_sub(v, 1);
                        let c3 = CPU { status: spec_zn(spec_zn(c2.status, out), out), ..c2 };
                        &&& crate::bus::spec_write_effect(c3.bus, final(self).bus, p.0, out, r)
                        &&& *final(self) == (CPU { bus: final(self).bus, ..c3 })
                        &&& r == c2.bus.spec_write_result(p.0, out)
                    }),
                    (Err(e), _) => r == Err::<(), EmuError>(e),
                },
                Err(e) => r == Err::<(), EmuError>(e),
            },
            final(self).extra_cycles == old(self).extra_cycles,
    {
        reveal(crate::bus::spec_write_effect);
        reveal(Bus::spec_write_result);
        let addr = match self.get_opperand_address(mode) {
            Ok(a) => a,
            Err(e) => {
                return Err(e);
            },
        };
        let param = match self.mem_read(addr) {
            Ok(v) => v,
            Err(e) => {
                return Err(e);
            },
        };
        let output = self.decrement(param);
        self.update_z_and_n_flags(output);
        self.mem_write(addr, output)
    }
}

/// Facts the execution loop needs about every row of the instruction table:
/// the row carries its own opcode byte, plausible sizes and base costs, the
/// operand-taking mnemonics never come without an operand form, and the
/// page-crossing set uses only the three indexed forms.
proof fn lemma_opcode_props(op: u8)
    ensures
        match spec_opcode(op) {
            Some(o) => {
                &&& o.addr == op
                &&& 1 <= o.bytes <= 3
                &&& 2 <= o.cycles <= 7
                &&& ((o.code == Mnemonic::LDA || o.code == Mnemonic::LDX || o.code == Mnemonic::LDY
                    || o.code == Mnemonic::AND || o.code == Mnemonic::ORA || o.code
                    == Mnemonic::EOR || o.code == Mnemonic::ADC || o.code == Mnemonic::SBC
                    || o.code == Mnemonic::CMP || o.code == Mnemonic::CPX || o.code
                    == Mnemonic::CPY || o.code == Mnemonic::BIT || o.code == Mnemonic::STA
                    || o.code == Mnemonic::STX || o.code == Mnemonic::STY || o.code
                    == Mnemonic::INC || o.code == Mnemonic::DEC || o.code == Mnemonic::JMP
                    || o.code == Mnemonic::JSR) ==> o.addressing_mode
                    != AddressingMode::NoneAddressing)
                &&& (spec_is_page_crosser(op) ==> (o.addressing_mode == AddressingMode::Absolute_X
                    || o.addressing_mode == AddressingMode::Absolute_Y || o.addressing_mode
                    == AddressingMode::Indirect_Y))
                &&& (o.code == Mnemonic::BRK <==> op == 0x00)
            },
            None => !spec_is_page_crosser(op),
        },
{
}

/// A byte shifted into the high half stays one page below the top.
proof fn lemma_hi_byte_bound(h: u8)
    by (bit_vector)
    ensures
        ((h as u16) << 8) <= 0xFF00,
{
}

/// The low byte of a 32-bit sum.
proof fn lemma_low_byte(x: u32)
    by (bit_vector)
    ensures
        x & 0xFF < 256,
{
}

} // verus!
