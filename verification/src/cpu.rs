//! LR35902 CPU interpreter.
//!
//! Fetch-decode-execute over the primary and CB-prefixed opcode tables, one
//! instruction per step, each returning its T-cycle count.  The flag byte
//! keeps Z, N, H, C in bits 7..=4 with the low nibble always zero.
//! Interrupts are dispatched at instruction boundaries: with IME set, a
//! pending enabled interrupt pushes PC, clears IME and the serviced bit,
//! and jumps to its vector, costing 20 T-cycles; with IME clear a pending
//! interrupt only wakes a halted CPU.  EI takes effect after the following
//! instruction; DI at once.  The frame driver runs instructions until
//! 70 224 T-cycles have elapsed, ticking the pixel, timer and sound units
//! in lock-step.

use vstd::prelude::*;

use crate::bus::Bus;
use crate::ppu::Ppu;
use crate::util::bit8;
use crate::util::set_bit8;
use crate::util::clear_bit8;
use crate::util::spec_bit8;
use crate::util::spec_set_bit8;
use crate::util::spec_clear_bit8;

verus! {

/// Execution failed: the fetched byte is not an LR35902 instruction.
#[derive(Clone, Copy, Debug, PartialEq, Eq, Structural)]
pub enum CpuError {
    UnknownOpcode,
}

/// A fetched instruction: its byte and whether it came after a CB prefix.
#[derive(Clone, Copy, Debug, PartialEq, Eq, Structural)]
pub struct Opcode {
    pub cb_prefix: bool,
    pub code: u8,
}

pub struct Cpu {
    pub a: u8,
    pub b: u8,
    pub c: u8,
    pub d: u8,
    pub e: u8,
    /// Flag byte: Z N H C in bits 7..=4, low nibble always zero.
    pub f: u8,
    pub h: u8,
    pub l: u8,
    pub sp: u16,
    pub pc: u16,
    pub bus: Bus,
    pub halt: bool,
    /// Interrupt master enable.
    pub ime: bool,
    /// EI has run and IME turns on after the next instruction.
    pub ime_pending: bool,
    pub step_flag: bool,
    pub debug_flag: bool,
    pub break_points: Vec<u16>,
    /// The executed instruction wrote PC itself, so the driver must not
    /// advance it.
    pub jmp_flag: bool,
    /// T-cycles forwarded to the pixel, timer and sound units since
    /// power-on; the frame driver moves it by exactly 70 224 per frame.
    pub t_cycles: u64,
    /// T-cycles of the frame's last instruction that overhang the frame
    /// boundary, forwarded at the start of the next frame.
    pub pending_ticks: u8,
}

/// The flag byte assembled from the four flags.
pub open spec fn spec_flags(z: bool, n: bool, h: bool, c: bool) -> u8 {
    ((if z {
        128int
    } else {
        0int
    }) + (if n {
        64int
    } else {
        0int
    }) + (if h {
        32int
    } else {
        0int
    }) + (if c {
        16int
    } else {
        0int
    })) as u8
}

/// 8-bit addition result, wrapped.
pub open spec fn spec_add8_val(a: u8, r: u8) -> u8 {
    ((a + r) % 256) as u8
}

/// 8-bit subtraction result, wrapped.
pub open spec fn spec_sub8_val(a: u8, r: u8) -> u8 {
    ((a + 256 - r) % 256) as u8
}

/// SP plus a signed 8-bit immediate, as the 16-bit wrap-around sum.
pub open spec fn spec_sp_plus_e8(sp: u16, off: u8) -> u16 {
    if off < 128 {
        ((sp + off) % 65536) as u16
    } else {
        ((sp + off + 65280) % 65536) as u16
    }
}

/// A after the DAA adjustment, driven by the N, H and C flags.
pub open spec fn spec_daa_val(a: u8, n: bool, h: bool, c: bool) -> u8 {
    if !n {
        let a1 = if c || a > 0x99 {
            ((a + 0x60) % 256) as u8
        } else {
            a
        };
        if h || a % 16 > 9 {
            ((a1 + 0x06) % 256) as u8
        } else {
            a1
        }
    } else {
        let a1 = if c {
            ((a + 256 - 0x60) % 256) as u8
        } else {
            a
        };
        if h {
            ((a1 + 256 - 0x06) % 256) as u8
        } else {
            a1
        }
    }
}

/// The carry flag DAA leaves: set when it was set or a decimal carry out of
/// the additive adjustment occurred.
pub open spec fn spec_daa_carry(a: u8, n: bool, c: bool) -> bool {
    c || (!n && a > 0x99)
}

impl Cpu {
    /// The invariant every instruction preserves: the flag low nibble is
    /// zero and the attached bus is well-formed.
    pub open spec fn wf(self) -> bool {
        &&& self.f % 16 == 0
        &&& self.bus.wf()
    }

    pub open spec fn spec_zf(self) -> bool {
        self.f / 128 % 2 == 1
    }

    pub open spec fn spec_nf(self) -> bool {
        self.f / 64 % 2 == 1
    }

    pub open spec fn spec_hf(self) -> bool {
        self.f / 32 % 2 == 1
    }

    pub open spec fn spec_cf(self) -> bool {
        self.f / 16 % 2 == 1
    }

    /// The carry flag as 0 or 1, for the ADC/SBC arithmetic.
    pub open spec fn spec_carry(self) -> int {
        if self.spec_cf() {
            1
        } else {
            0
        }
    }

    pub open spec fn spec_af(self) -> u16 {
        (self.a * 256 + self.f) as u16
    }

    pub open spec fn spec_bc(self) -> u16 {
        (self.b * 256 + self.c) as u16
    }

    pub open spec fn spec_de(self) -> u16 {
        (self.d * 256 + self.e) as u16
    }

    pub open spec fn spec_hl(self) -> u16 {
        (self.h * 256 + self.l) as u16
    }

    /// The immediate byte after the opcode.
    pub open spec fn spec_imm8(self) -> u8 {
        self.bus.spec_read(((self.pc + 1) % 65536) as u16)
    }

    /// The immediate 16-bit word after the opcode, low byte first.
    pub open spec fn spec_imm16(self) -> u16 {
        (self.bus.spec_read(((self.pc + 2) % 65536) as u16) * 256 + self.bus.spec_read(
            ((self.pc + 1) % 65536) as u16,
        )) as u16
    }

    pub fn get_zero_flag(&self) -> (r: bool)
        ensures
            r == self.spec_zf(),
    {
        self.f / 128 % 2 == 1
    }

    pub fn get_n_flag(&self) -> (r: bool)
        ensures
            r == self.spec_nf(),
    {
        self.f / 64 % 2 == 1
    }

    pub fn get_half_carry_flag(&self) -> (r: bool)
        ensures
            r == self.spec_hf(),
    {
        self.f / 32 % 2 == 1
    }

    pub fn get_carry_flag(&self) -> (r: bool)
        ensures
            r == self.spec_cf(),
    {
        self.f / 16 % 2 == 1
    }

    /// Assemble the flag byte; its low nibble is zero by construction.
    pub fn set_flag(&mut self, z: bool, n: bool, h: bool, c: bool)
        ensures
            *final(self) == (Cpu { f: spec_flags(z, n, h, c), ..*old(self) }),
            final(self).f % 16 == 0,
            final(self).spec_zf() == z,
            final(self).spec_nf() == n,
            final(self).spec_hf() == h,
            final(self).spec_cf() == c,
    {
        let mut fv: u8 = 0;
        if z {
            fv = fv + 128;
        }
        if n {
            fv = fv + 64;
        }
        if h {
            fv = fv + 32;
        }
        if c {
            fv = fv + 16;
        }
        self.f = fv;
    }

    /// Half-carry and carry of an 8-bit addition.
    pub fn is_carry_positive(&self, left: u8, right: u8) -> (r: (bool, bool))
        ensures
            r.0 == (left % 16 + right % 16 > 15),
            r.1 == (left + right > 255),
    {
        let hc = left % 16 + right % 16 > 15;
        let cc = left as u16 + right as u16 > 255;
        (hc, cc)
    }

    /// Half-borrow and borrow of an 8-bit subtraction.
    pub fn is_carry_negative(&self, left: u8, right: u8) -> (r: (bool, bool))
        ensures
            r.0 == (left % 16 < right % 16),
            r.1 == (left < right),
    {
        (left % 16 < right % 16, left < right)
    }

    /// Half-carry (bit 11) and carry (bit 15) of a 16-bit addition.
    pub fn is_carry_positive_16(&self, left: u16, right: u16) -> (r: (bool, bool))
        ensures
            r.0 == (left % 4096 + right % 4096 > 4095),
            r.1 == (left + right > 65535),
    {
        let hc = left % 4096 + right % 4096 > 4095;
        let cc = left as u32 + right as u32 > 65535;
        (hc, cc)
    }

    /// Half-borrow and borrow of a 16-bit subtraction.
    pub fn is_carry_negative_16(&self, left: u16, right: u16) -> (r: (bool, bool))
        ensures
            r.0 == (left % 4096 < right % 4096),
            r.1 == (left < right),
    {
        (left % 4096 < right % 4096, left < right)
    }

    pub fn get_af(&self) -> (r: u16)
        ensures
            r == self.spec_af(),
    {
        self.a as u16 * 256 + self.f as u16
    }

    pub fn get_bc(&self) -> (r: u16)
        ensures
            r == self.spec_bc(),
    {
        self.b as u16 * 256 + self.c as u16
    }

    pub fn get_de(&self) -> (r: u16)
        ensures
            r == self.spec_de(),
    {
        self.d as u16 * 256 + self.e as u16
    }

    pub fn get_hl(&self) -> (r: u16)
        ensures
            r == self.spec_hl(),
    {
        self.h as u16 * 256 + self.l as u16
    }

    /// Split a word into A and F; the low nibble of F reads back as zero.
    pub fn set_af(&mut self, data: u16)
        ensures
            *final(self) == (Cpu {
                a: (data as int / 256) as u8,
                f: ((data % 256) / 16 * 16) as u8,
                ..*old(self)
            }),
            final(self).f % 16 == 0,
    {
        self.a = (data / 256) as u8;
        self.f = ((data % 256) / 16 * 16) as u8;
    }

    pub fn set_bc(&mut self, data: u16)
        ensures
            *final(self) == (Cpu {
                b: (data as int / 256) as u8,
                c: (data % 256) as u8,
                ..*old(self)
            }),
    {
        self.b = (data / 256) as u8;
        self.c = (data % 256) as u8;
    }

    pub fn set_de(&mut self, data: u16)
        ensures
            *final(self) == (Cpu {
                d: (data as int / 256) as u8,
                e: (data % 256) as u8,
                ..*old(self)
            }),
    {
        self.d = (data / 256) as u8;
        self.e = (data % 256) as u8;
    }

    pub fn set_hl(&mut self, data: u16)
        ensures
            *final(self) == (Cpu {
                h: (data as int / 256) as u8,
                l: (data % 256) as u8,
                ..*old(self)
            }),
    {
        self.h = (data / 256) as u8;
        self.l = (data % 256) as u8;
    }

    fn increment_pc(&mut self)
        ensures
            *final(self) == (Cpu { pc: ((old(self).pc + 1) % 65536) as u16, ..*old(self) }),
    {
        self.pc = ((self.pc as u32 + 1) % 65536) as u16;
    }

    fn increment_sp(&mut self)
        ensures
            *final(self) == (Cpu { sp: ((old(self).sp + 1) % 65536) as u16, ..*old(self) }),
    {
        self.sp = ((self.sp as u32 + 1) % 65536) as u16;
    }

    fn decrement_sp(&mut self)
        ensures
            *final(self) == (Cpu { sp: ((old(self).sp + 65535) % 65536) as u16, ..*old(self) }),
    {
        self.sp = ((self.sp as u32 + 65535) % 65536) as u16;
    }

    fn increment_hl(&mut self)
        ensures
            *final(self) == (Cpu {
                h: (((old(self).spec_hl() + 1) % 65536) as int / 256) as u8,
                l: (((old(self).spec_hl() + 1) % 65536) % 256) as u8,
                ..*old(self)
            }),
    {
        let hl = self.get_hl();
        let nv = ((hl as u32 + 1) % 65536) as u16;
        self.set_hl(nv);
    }

    fn decrement_hl(&mut self)
        ensures
            *final(self) == (Cpu {
                h: (((old(self).spec_hl() + 65535) % 65536) as int / 256) as u8,
                l: (((old(self).spec_hl() + 65535) % 65536) % 256) as u8,
                ..*old(self)
            }),
    {
        let hl = self.get_hl();
        let nv = ((hl as u32 + 65535) % 65536) as u16;
        self.set_hl(nv);
    }

    fn increment_bc(&mut self)
        ensures
            *final(self) == (Cpu {
                b: (((old(self).spec_bc() + 1) % 65536) as int / 256) as u8,
                c: (((old(self).spec_bc() + 1) % 65536) % 256) as u8,
                ..*old(self)
            }),
    {
        let bc = self.get_bc();
        let nv = ((bc as u32 + 1) % 65536) as u16;
        self.set_bc(nv);
    }

    fn decrement_bc(&mut self)
        ensures
            *final(self) == (Cpu {
                b: (((old(self).spec_bc() + 65535) % 65536) as int / 256) as u8,
                c: (((old(self).spec_bc() + 65535) % 65536) % 256) as u8,
                ..*old(self)
            }),
    {
        let bc = self.get_bc();
        let nv = ((bc as u32 + 65535) % 65536) as u16;
        self.set_bc(nv);
    }

    fn increment_de(&mut self)
        ensures
            *final(self) == (Cpu {
                d: (((old(self).spec_de() + 1) % 65536) as int / 256) as u8,
                e: (((old(self).spec_de() + 1) % 65536) % 256) as u8,
                ..*old(self)
            }),
    {
        let de = self.get_de();
        let nv = ((de as u32 + 1) % 65536) as u16;
        self.set_de(nv);
    }

    fn decrement_de(&mut self)
        ensures
            *final(self) == (Cpu {
                d: (((old(self).spec_de() + 65535) % 65536) as int / 256) as u8,
                e: (((old(self).spec_de() + 65535) % 65536) % 256) as u8,
                ..*old(self)
            }),
    {
        let de = self.get_de();
        let nv = ((de as u32 + 65535) % 65536) as u16;
        self.set_de(nv);
    }

    /// Swap the nibbles of a byte.
    pub fn swap_8bit(&self, target: u8) -> (r: u8)
        ensures
            r == (target % 16) * 16 + target / 16,
    {
        (target % 16) * 16 + target / 16
    }

    /// Fetch the opcode at PC; a CB prefix consumes one extra byte.
    fn read_inst(&mut self) -> (r: Opcode)
        requires
            old(self).wf(),
        ensures
            final(self).wf(),
            old(self).bus.spec_read(old(self).pc) == 0xCB ==> r == (Opcode {
                cb_prefix: true,
                code: old(self).spec_imm8(),
            }) && *final(self) == (Cpu { pc: ((old(self).pc + 1) % 65536) as u16, ..*old(self) }),
            old(self).bus.spec_read(old(self).pc) != 0xCB ==> r == (Opcode {
                cb_prefix: false,
                code: old(self).bus.spec_read(old(self).pc),
            }) && *final(self) == *old(self),
    {
        let first = self.bus.read(self.pc);
        if first == 0xCB {
            self.increment_pc();
            let code = self.bus.read(self.pc);
            Opcode { cb_prefix: true, code }
        } else {
            Opcode { cb_prefix: false, code: first }
        }
    }

    /// Read the immediate byte after the opcode, advancing PC onto it.
    pub fn read_next_8(&mut self) -> (r: u8)
        requires
            old(self).wf(),
        ensures
            final(self).wf(),
            r == old(self).spec_imm8(),
            *final(self) == (Cpu { pc: ((old(self).pc + 1) % 65536) as u16, ..*old(self) }),
    {
        self.increment_pc();
        self.bus.read(self.pc)
    }

    /// Read the immediate word after the opcode, advancing PC onto its high
    /// byte.
    pub fn read_next_16(&mut self) -> (r: u16)
        requires
            old(self).wf(),
        ensures
            final(self).wf(),
            r == old(self).spec_imm16(),
            *final(self) == (Cpu { pc: ((old(self).pc + 2) % 65536) as u16, ..*old(self) }),
    {
        self.increment_pc();
        let lower = self.bus.read(self.pc);
        self.increment_pc();
        let upper = self.bus.read(self.pc);
        proof {
            let p = old(self).pc as int;
            assert((p + 1) % 65536 + 1 == p + 2 || (p + 1) % 65536 + 1 == p + 2 - 65536);
            assert(((p + 1) % 65536 + 1) % 65536 == (p + 2) % 65536) by (nonlinear_arith)
                requires
                    (p + 1) % 65536 + 1 == p + 2 || (p + 1) % 65536 + 1 == p + 2 - 65536,
                    0 <= p < 65536,
            ;
        }
        upper as u16 * 256 + lower as u16
    }
}

impl Cpu {
    /// ADD A,A.
    fn add_87(&mut self) -> (cycle: u8)
        requires
            old(self).wf(),
        ensures
            final(self).wf(),
            cycle == 4,
            *final(self) == (Cpu {
                a: spec_add8_val(old(self).a, old(self).a),
                f: spec_flags(
                    spec_add8_val(old(self).a, old(self).a) == 0,
                    false,
                    old(self).a % 16 + old(self).a % 16 > 15,
                    old(self).a + old(self).a > 255,
                ),
                ..*old(self)
            }),
    {
        let left = self.a;
        let right = self.a;
        let val = ((left as u16 + right as u16) % 256) as u8;
        let (hc, cc) = self.is_carry_positive(left, right);
        self.a = val;
        self.set_flag(val == 0, false, hc, cc);
        4
    }

    /// ADD A,B.
    fn add_80(&mut self) -> (cycle: u8)
        requires
            old(self).wf(),
        ensures
            final(self).wf(),
            cycle == 4,
            *final(self) == (Cpu {
                a: spec_add8_val(old(self).a, old(self).b),
                f: spec_flags(
                    spec_add8_val(old(self).a, old(self).b) == 0,
                    false,
                    old(self).a % 16 + old(self).b % 16 > 15,
                    old(self).a + old(self).b > 255,
                ),
                ..*old(self)
            }),
    {
        let left = self.a;
        let right = self.b;
        let val = ((left as u16 + right as u16) % 256) as u8;
        let (hc, cc) = self.is_carry_positive(left, right);
        self.a = val;
        self.set_flag(val == 0, false, hc, cc);
        4
    }

    /// ADD A,C.
    fn add_81(&mut self) -> (cycle: u8)
        requires
            old(self).wf(),
        ensures
            final(self).wf(),
            cycle == 4,
            *final(self) == (Cpu {
                a: spec_add8_val(old(self).a, old(self).c),
                f: spec_flags(
                    spec_add8_val(old(self).a, old(self).c) == 0,
                    false,
                    old(self).a % 16 + old(self).c % 16 > 15,
                    old(self).a + old(self).c > 255,
                ),
                ..*old(self)
            }),
    {
        let left = self.a;
        let right = self.c;
        let val = ((left as u16 + right as u16) % 256) as u8;
        let (hc, cc) = self.is_carry_positive(left, right);
        self.a = val;
        self.set_flag(val == 0, false, hc, cc);
        4
    }

    /// ADD A,D.
    fn add_82(&mut self) -> (cycle: u8)
        requires
            old(self).wf(),
        ensures
            final(self).wf(),
            cycle == 4,
            *final(self) == (Cpu {
                a: spec_add8_val(old(self).a, old(self).d),
                f: spec_flags(
                    spec_add8_val(old(self).a, old(self).d) == 0,
                    false,
                    old(self).a % 16 + old(self).d % 16 > 15,
                    old(self).a + old(self).d > 255,
                ),
                ..*old(self)
            }),
    {
        let left = self.a;
        let right = self.d;
        let val = ((left as u16 + right as u16) % 256) as u8;
        let (hc, cc) = self.is_carry_positive(left, right);
        self.a = val;
        self.set_flag(val == 0, false, hc, cc);
        4
    }

    /// ADD A,E.
    fn add_83(&mut self) -> (cycle: u8)
        requires
            old(self).wf(),
        ensures
            final(self).wf(),
            cycle == 4,
            *final(self) == (Cpu {
                a: spec_add8_val(old(self).a, old(self).e),
                f: spec_flags(
                    spec_add8_val(old(self).a, old(self).e) == 0,
                    false,
                    old(self).a % 16 + old(self).e % 16 > 15,
                    old(self).a + old(self).e > 255,
                ),
                ..*old(self)
            }),
    {
        let left = self.a;
        let right = self.e;
        let val = ((left as u16 + right as u16) % 256) as u8;
        let (hc, cc) = self.is_carry_positive(left, right);
        self.a = val;
        self.set_flag(val == 0, false, hc, cc);
        4
    }

    /// ADD A,H.
    fn add_84(&mut self) -> (cycle: u8)
        requires
            old(self).wf(),
        ensures
            final(self).wf(),
            cycle == 4,
            *final(self) == (Cpu {
                a: spec_add8_val(old(self).a, old(self).h),
                f: spec_flags(
                    spec_add8_val(old(self).a, old(self).h) == 0,
                    false,
                    old(self).a % 16 + old(self).h % 16 > 15,
                    old(self).a + old(self).h > 255,
                ),
                ..*old(self)
            }),
    {
        let left = self.a;
        let right = self.h;
        let val = ((left as u16 + right as u16) % 256) as u8;
        let (hc, cc) = self.is_carry_positive(left, right);
        self.a = val;
        self.set_flag(val == 0, false, hc, cc);
        4
    }

    /// ADD A,L.
    fn add_85(&mut self) -> (cycle: u8)
        requires
            old(self).wf(),
        ensures
            final(self).wf(),
            cycle == 4,
            *final(self) == (Cpu {
                a: spec_add8_val(old(self).a, old(self).l),
                f: spec_flags(
                    spec_add8_val(old(self).a, old(self).l) == 0,
                    false,
                    old(self).a % 16 + old(self).l % 16 > 15,
                    old(self).a + old(self).l > 255,
                ),
                ..*old(self)
            }),
    {
        let left = self.a;
        let right = self.l;
        let val = ((left as u16 + right as u16) % 256) as u8;
        let (hc, cc) = self.is_carry_positive(left, right);
        self.a = val;
        self.set_flag(val == 0, false, hc, cc);
        4
    }

    /// ADD A,(HL).
    fn add_86(&mut self) -> (cycle: u8)
        requires
            old(self).wf(),
        ensures
            final(self).wf(),
            cycle == 8,
            *final(self) == (Cpu {
                a: spec_add8_val(old(self).a, old(self).bus.spec_read(old(self).spec_hl())),
                f: spec_flags(
                    spec_add8_val(old(self).a, old(self).bus.spec_read(old(self).spec_hl())) == 0,
                    false,
                    old(self).a % 16 + (old(self).bus.spec_read(old(self).spec_hl())) % 16 > 15,
                    old(self).a + old(self).bus.spec_read(old(self).spec_hl()) > 255,
                ),
                ..*old(self)
            }),
    {
        let left = self.a;
        let right = self.bus.read(self.get_hl());
        let val = ((left as u16 + right as u16) % 256) as u8;
        let (hc, cc) = self.is_carry_positive(left, right);
        self.a = val;
        self.set_flag(val == 0, false, hc, cc);
        8
    }

    /// ADD A,d8.
    fn add_C6(&mut self) -> (cycle: u8)
        requires
            old(self).wf(),
        ensures
            final(self).wf(),
            cycle == 8,
            *final(self) == (Cpu {
                a: spec_add8_val(old(self).a, old(self).spec_imm8()),
                f: spec_flags(
                    spec_add8_val(old(self).a, old(self).spec_imm8()) == 0,
                    false,
                    old(self).a % 16 + (old(self).spec_imm8()) % 16 > 15,
                    old(self).a + old(self).spec_imm8() > 255,
                ),
                pc: ((old(self).pc + 1) % 65536) as u16,
                ..*old(self)
            }),
    {
        let left = self.a;
        let right = self.read_next_8();
        let val = ((left as u16 + right as u16) % 256) as u8;
        let (hc, cc) = self.is_carry_positive(left, right);
        self.a = val;
        self.set_flag(val == 0, false, hc, cc);
        8
    }

    /// ADC A,A.
    fn adc_8F(&mut self) -> (cycle: u8)
        requires
            old(self).wf(),
        ensures
            final(self).wf(),
            cycle == 4,
            *final(self) == (Cpu {
                a: (((old(self).a + old(self).a + old(self).spec_carry()) % 256)) as u8,
                f: spec_flags(
                    (old(self).a + old(self).a + old(self).spec_carry()) % 256 == 0,
                    false,
                    old(self).a % 16 + (old(self).a) % 16 + old(self).spec_carry() > 15,
                    old(self).a + old(self).a + old(self).spec_carry() > 255,
                ),
                ..*old(self)
            }),
    {
        let cy: u8 = if self.get_carry_flag() {
            1
        } else {
            0
        };
        let left = self.a;
        let right = self.a;
        let val = ((left as u16 + right as u16 + cy as u16) % 256) as u8;
        let hc = left % 16 + right % 16 + cy > 15;
        let cc = left as u16 + right as u16 + cy as u16 > 255;
        self.a = val;
        self.set_flag(val == 0, false, hc, cc);
        4
    }

    /// ADC A,B.
    fn adc_88(&mut self) -> (cycle: u8)
        requires
            old(self).wf(),
        ensures
            final(self).wf(),
            cycle == 4,
            *final(self) == (Cpu {
                a: (((old(self).a + old(self).b + old(self).spec_carry()) % 256)) as u8,
                f: spec_flags(
                    (old(self).a + old(self).b + old(self).spec_carry()) % 256 == 0,
                    false,
                    old(self).a % 16 + (old(self).b) % 16 + old(self).spec_carry() > 15,
                    old(self).a + old(self).b + old(self).spec_carry() > 255,
                ),
                ..*old(self)
            }),
    {
        let cy: u8 = if self.get_carry_flag() {
            1
        } else {
            0
        };
        let left = self.a;
        let right = self.b;
        let val = ((left as u16 + right as u16 + cy as u16) % 256) as u8;
        let hc = left % 16 + right % 16 + cy > 15;
        let cc = left as u16 + right as u16 + cy as u16 > 255;
        self.a = val;
        self.set_flag(val == 0, false, hc, cc);
        4
    }

    /// ADC A,C.
    fn adc_89(&mut self) -> (cycle: u8)
        requires
            old(self).wf(),
        ensures
            final(self).wf(),
            cycle == 4,
            *final(self) == (Cpu {
                a: (((old(self).a + old(self).c + old(self).spec_carry()) % 256)) as u8,
                f: spec_flags(
                    (old(self).a + old(self).c + old(self).spec_carry()) % 256 == 0,
                    false,
                    old(self).a % 16 + (old(self).c) % 16 + old(self).spec_carry() > 15,
                    old(self).a + old(self).c + old(self).spec_carry() > 255,
                ),
                ..*old(self)
            }),
    {
        let cy: u8 = if self.get_carry_flag() {
            1
        } else {
            0
        };
        let left = self.a;
        let right = self.c;
        let val = ((left as u16 + right as u16 + cy as u16) % 256) as u8;
        let hc = left % 16 + right % 16 + cy > 15;
        let cc = left as u16 + right as u16 + cy as u16 > 255;
        self.a = val;
        self.set_flag(val == 0, false, hc, cc);
        4
    }

    /// ADC A,D.
    fn adc_8A(&mut self) -> (cycle: u8)
        requires
            old(self).wf(),
        ensures
            final(self).wf(),
            cycle == 4,
            *final(self) == (Cpu {
                a: (((old(self).a + old(self).d + old(self).spec_carry()) % 256)) as u8,
                f: spec_flags(
                    (old(self).a + old(self).d + old(self).spec_carry()) % 256 == 0,
                    false,
                    old(self).a % 16 + (old(self).d) % 16 + old(self).spec_carry() > 15,
                    old(self).a + old(self).d + old(self).spec_carry() > 255,
                ),
                ..*old(self)
            }),
    {
        let cy: u8 = if self.get_carry_flag() {
            1
        } else {
            0
        };
        let left = self.a;
        let right = self.d;
        let val = ((left as u16 + right as u16 + cy as u16) % 256) as u8;
        let hc = left % 16 + right % 16 + cy > 15;
        let cc = left as u16 + right as u16 + cy as u16 > 255;
        self.a = val;
        self.set_flag(val == 0, false, hc, cc);
        4
    }

    /// ADC A,E.
    fn adc_8B(&mut self) -> (cycle: u8)
        requires
            old(self).wf(),
        ensures
            final(self).wf(),
            cycle == 4,
            *final(self) == (Cpu {
                a: (((old(self).a + old(self).e + old(self).spec_carry()) % 256)) as u8,
                f: spec_flags(
                    (old(self).a + old(self).e + old(self).spec_carry()) % 256 == 0,
                    false,
                    old(self).a % 16 + (old(self).e) % 16 + old(self).spec_carry() > 15,
                    old(self).a + old(self).e + old(self).spec_carry() > 255,
                ),
                ..*old(self)
            }),
    {
        let cy: u8 = if self.get_carry_flag() {
            1
        } else {
            0
        };
        let left = self.a;
        let right = self.e;
        let val = ((left as u16 + right as u16 + cy as u16) % 256) as u8;
        let hc = left % 16 + right % 16 + cy > 15;
        let cc = left as u16 + right as u16 + cy as u16 > 255;
        self.a = val;
        self.set_flag(val == 0, false, hc, cc);
        4
    }

    /// ADC A,H.
    fn adc_8C(&mut self) -> (cycle: u8)
        requires
            old(self).wf(),
        ensures
            final(self).wf(),
            cycle == 4,
            *final(self) == (Cpu {
                a: (((old(self).a + old(self).h + old(self).spec_carry()) % 256)) as u8,
                f: spec_flags(
                    (old(self).a + old(self).h + old(self).spec_carry()) % 256 == 0,
                    false,
                    old(self).a % 16 + (old(self).h) % 16 + old(self).spec_carry() > 15,
                    old(self).a + old(self).h + old(self).spec_carry() > 255,
                ),
                ..*old(self)
            }),
    {
        let cy: u8 = if self.get_carry_flag() {
            1
        } else {
            0
        };
        let left = self.a;
        let right = self.h;
        let val = ((left as u16 + right as u16 + cy as u16) % 256) as u8;
        let hc = left % 16 + right % 16 + cy > 15;
        let cc = left as u16 + right as u16 + cy as u16 > 255;
        self.a = val;
        self.set_flag(val == 0, false, hc, cc);
        4
    }

    /// ADC A,L.
    fn adc_8D(&mut self) -> (cycle: u8)
        requires
            old(self).wf(),
        ensures
            final(self).wf(),
            cycle == 4,
            *final(self) == (Cpu {
                a: (((old(self).a + old(self).l + old(self).spec_carry()) % 256)) as u8,
                f: spec_flags(
                    (old(self).a + old(self).l + old(self).spec_carry()) % 256 == 0,
                    false,
                    old(self).a % 16 + (old(self).l) % 16 + old(self).spec_carry() > 15,
                    old(self).a + old(self).l + old(self).spec_carry() > 255,
                ),
                ..*old(self)
            }),
    {
        let cy: u8 = if self.get_carry_flag() {
            1
        } else {
            0
        };
        let left = self.a;
        let right = self.l;
        let val = ((left as u16 + right as u16 + cy as u16) % 256) as u8;
        let hc = left % 16 + right % 16 + cy > 15;
        let cc = left as u16 + right as u16 + cy as u16 > 255;
        self.a = val;
        self.set_flag(val == 0, false, hc, cc);
        4
    }

    /// ADC A,(HL).
    fn adc_8E(&mut self) -> (cycle: u8)
        requires
            old(self).wf(),
        ensures
            final(self).wf(),
            cycle == 8,
            *final(self) == (Cpu {
                a: (((old(self).a + old(self).bus.spec_read(old(self).spec_hl()) + old(self).spec_carry()) % 256)) as u8,
                f: spec_flags(
                    (old(self).a + old(self).bus.spec_read(old(self).spec_hl()) + old(self).spec_carry()) % 256 == 0,
                    false,
                    old(self).a % 16 + (old(self).bus.spec_read(old(self).spec_hl())) % 16 + old(self).spec_carry() > 15,
                    old(self).a + old(self).bus.spec_read(old(self).spec_hl()) + old(self).spec_carry() > 255,
                ),
                ..*old(self)
            }),
    {
        let cy: u8 = if self.get_carry_flag() {
            1
        } else {
            0
        };
        let left = self.a;
        let right = self.bus.read(self.get_hl());
        let val = ((left as u16 + right as u16 + cy as u16) % 256) as u8;
        let hc = left % 16 + right % 16 + cy > 15;
        let cc = left as u16 + right as u16 + cy as u16 > 255;
        self.a = val;
        self.set_flag(val == 0, false, hc, cc);
        8
    }

    /// ADC A,d8.
    fn adc_CE(&mut self) -> (cycle: u8)
        requires
            old(self).wf(),
        ensures
            final(self).wf(),
            cycle == 8,
            *final(self) == (Cpu {
                a: (((old(self).a + old(self).spec_imm8() + old(self).spec_carry()) % 256)) as u8,
                f: spec_flags(
                    (old(self).a + old(self).spec_imm8() + old(self).spec_carry()) % 256 == 0,
                    false,
                    old(self).a % 16 + (old(self).spec_imm8()) % 16 + old(self).spec_carry() > 15,
                    old(self).a + old(self).spec_imm8() + old(self).spec_carry() > 255,
                ),
                pc: ((old(self).pc + 1) % 65536) as u16,
                ..*old(self)
            }),
    {
        let cy: u8 = if self.get_carry_flag() {
            1
        } else {
            0
        };
        let left = self.a;
        let right = self.read_next_8();
        let val = ((left as u16 + right as u16 + cy as u16) % 256) as u8;
        let hc = left % 16 + right % 16 + cy > 15;
        let cc = left as u16 + right as u16 + cy as u16 > 255;
        self.a = val;
        self.set_flag(val == 0, false, hc, cc);
        8
    }

    /// SUB A.
    fn sub_97(&mut self) -> (cycle: u8)
        requires
            old(self).wf(),
        ensures
            final(self).wf(),
            cycle == 4,
            *final(self) == (Cpu {
                a: spec_sub8_val(old(self).a, old(self).a),
                f: spec_flags(
                    spec_sub8_val(old(self).a, old(self).a) == 0,
                    true,
                    old(self).a % 16 < (old(self).a) % 16,
                    old(self).a < old(self).a,
                ),
                ..*old(self)
            }),
    {
        let left = self.a;
        let right = self.a;
        let val = ((left as u16 + 256 - right as u16) % 256) as u8;
        let (hc, cc) = self.is_carry_negative(left, right);
        self.a = val;
        self.set_flag(val == 0, true, hc, cc);
        4
    }

    /// SUB B.
    fn sub_90(&mut self) -> (cycle: u8)
        requires
            old(self).wf(),
        ensures
            final(self).wf(),
            cycle == 4,
            *final(self) == (Cpu {
                a: spec_sub8_val(old(self).a, old(self).b),
                f: spec_flags(
                    spec_sub8_val(old(self).a, old(self).b) == 0,
                    true,
                    old(self).a % 16 < (old(self).b) % 16,
                    old(self).a < old(self).b,
                ),
                ..*old(self)
            }),
    {
        let left = self.a;
        let right = self.b;
        let val = ((left as u16 + 256 - right as u16) % 256) as u8;
        let (hc, cc) = self.is_carry_negative(left, right);
        self.a = val;
        self.set_flag(val == 0, true, hc, cc);
        4
    }

    /// SUB C.
    fn sub_91(&mut self) -> (cycle: u8)
        requires
            old(self).wf(),
        ensures
            final(self).wf(),
            cycle == 4,
            *final(self) == (Cpu {
                a: spec_sub8_val(old(self).a, old(self).c),
                f: spec_flags(
                    spec_sub8_val(old(self).a, old(self).c) == 0,
                    true,
                    old(self).a % 16 < (old(self).c) % 16,
                    old(self).a < old(self).c,
                ),
                ..*old(self)
            }),
    {
        let left = self.a;
        let right = self.c;
        let val = ((left as u16 + 256 - right as u16) % 256) as u8;
        let (hc, cc) = self.is_carry_negative(left, right);
        self.a = val;
        self.set_flag(val == 0, true, hc, cc);
        4
    }

    /// SUB D.
    fn sub_92(&mut self) -> (cycle: u8)
        requires
            old(self).wf(),
        ensures
            final(self).wf(),
            cycle == 4,
            *final(self) == (Cpu {
                a: spec_sub8_val(old(self).a, old(self).d),
                f: spec_flags(
                    spec_sub8_val(old(self).a, old(self).d) == 0,
                    true,
                    old(self).a % 16 < (old(self).d) % 16,
                    old(self).a < old(self).d,
                ),
                ..*old(self)
            }),
    {
        let left = self.a;
        let right = self.d;
        let val = ((left as u16 + 256 - right as u16) % 256) as u8;
        let (hc, cc) = self.is_carry_negative(left, right);
        self.a = val;
        self.set_flag(val == 0, true, hc, cc);
        4
    }

    /// SUB E.
    fn sub_93(&mut self) -> (cycle: u8)
        requires
            old(self).wf(),
        ensures
            final(self).wf(),
            cycle == 4,
            *final(self) == (Cpu {
                a: spec_sub8_val(old(self).a, old(self).e),
                f: spec_flags(
                    spec_sub8_val(old(self).a, old(self).e) == 0,
                    true,
                    old(self).a % 16 < (old(self).e) % 16,
                    old(self).a < old(self).e,
                ),
                ..*old(self)
            }),
    {
        let left = self.a;
        let right = self.e;
        let val = ((left as u16 + 256 - right as u16) % 256) as u8;
        let (hc, cc) = self.is_carry_negative(left, right);
        self.a = val;
        self.set_flag(val == 0, true, hc, cc);
        4
    }

    /// SUB H.
    fn sub_94(&mut self) -> (cycle: u8)
        requires
            old(self).wf(),
        ensures
            final(self).wf(),
            cycle == 4,
            *final(self) == (Cpu {
                a: spec_sub8_val(old(self).a, old(self).h),
                f: spec_flags(
                    spec_sub8_val(old(self).a, old(self).h) == 0,
                    true,
                    old(self).a % 16 < (old(self).h) % 16,
                    old(self).a < old(self).h,
                ),
                ..*old(self)
            }),
    {
        let left = self.a;
        let right = self.h;
        let val = ((left as u16 + 256 - right as u16) % 256) as u8;
        let (hc, cc) = self.is_carry_negative(left, right);
        self.a = val;
        self.set_flag(val == 0, true, hc, cc);
        4
    }

    /// SUB L.
    fn sub_95(&mut self) -> (cycle: u8)
        requires
            old(self).wf(),
        ensures
            final(self).wf(),
            cycle == 4,
            *final(self) == (Cpu {
                a: spec_sub8_val(old(self).a, old(self).l),
                f: spec_flags(
                    spec_sub8_val(old(self).a, old(self).l) == 0,
                    true,
                    old(self).a % 16 < (old(self).l) % 16,
                    old(self).a < old(self).l,
                ),
                ..*old(self)
            }),
    {
        let left = self.a;
        let right = self.l;
        let val = ((left as u16 + 256 - right as u16) % 256) as u8;
        let (hc, cc) = self.is_carry_negative(left, right);
        self.a = val;
        self.set_flag(val == 0, true, hc, cc);
        4
    }

    /// SUB (HL).
    fn sub_96(&mut self) -> (cycle: u8)
        requires
            old(self).wf(),
        ensures
            final(self).wf(),
            cycle == 8,
            *final(self) == (Cpu {
                a: spec_sub8_val(old(self).a, old(self).bus.spec_read(old(self).spec_hl())),
                f: spec_flags(
                    spec_sub8_val(old(self).a, old(self).bus.spec_read(old(self).spec_hl())) == 0,
                    true,
                    old(self).a % 16 < (old(self).bus.spec_read(old(self).spec_hl())) % 16,
                    old(self).a < old(self).bus.spec_read(old(self).spec_hl()),
                ),
                ..*old(self)
            }),
    {
        let left = self.a;
        let right = self.bus.read(self.get_hl());
        let val = ((left as u16 + 256 - right as u16) % 256) as u8;
        let (hc, cc) = self.is_carry_negative(left, right);
        self.a = val;
        self.set_flag(val == 0, true, hc, cc);
        8
    }

    /// SUB d8.
    fn sub_D6(&mut self) -> (cycle: u8)
        requires
            old(self).wf(),
        ensures
            final(self).wf(),
            cycle == 8,
            *final(self) == (Cpu {
                a: spec_sub8_val(old(self).a, old(self).spec_imm8()),
                f: spec_flags(
                    spec_sub8_val(old(self).a, old(self).spec_imm8()) == 0,
                    true,
                    old(self).a % 16 < (old(self).spec_imm8()) % 16,
                    old(self).a < old(self).spec_imm8(),
                ),
                pc: ((old(self).pc + 1) % 65536) as u16,
                ..*old(self)
            }),
    {
        let left = self.a;
        let right = self.read_next_8();
        let val = ((left as u16 + 256 - right as u16) % 256) as u8;
        let (hc, cc) = self.is_carry_negative(left, right);
        self.a = val;
        self.set_flag(val == 0, true, hc, cc);
        8
    }

    /// CP A: compare without storing.
    fn cp_BF(&mut self) -> (cycle: u8)
        requires
            old(self).wf(),
        ensures
            final(self).wf(),
            cycle == 4,
            *final(self) == (Cpu {
                f: spec_flags(
                    spec_sub8_val(old(self).a, old(self).a) == 0,
                    true,
                    old(self).a % 16 < (old(self).a) % 16,
                    old(self).a < old(self).a,
                ),
                ..*old(self)
            }),
    {
        let left = self.a;
        let right = self.a;
        let val = ((left as u16 + 256 - right as u16) % 256) as u8;
        let (hc, cc) = self.is_carry_negative(left, right);
        
        self.set_flag(val == 0, true, hc, cc);
        4
    }

    /// CP B: compare without storing.
    fn cp_B8(&mut self) -> (cycle: u8)
        requires
            old(self).wf(),
        ensures
            final(self).wf(),
            cycle == 4,
            *final(self) == (Cpu {
                f: spec_flags(
                    spec_sub8_val(old(self).a, old(self).b) == 0,
                    true,
                    old(self).a % 16 < (old(self).b) % 16,
                    old(self).a < old(self).b,
                ),
                ..*old(self)
            }),
    {
        let left = self.a;
        let right = self.b;
        let val = ((left as u16 + 256 - right as u16) % 256) as u8;
        let (hc, cc) = self.is_carry_negative(left, right);
        
        self.set_flag(val == 0, true, hc, cc);
        4
    }

    /// CP C: compare without storing.
    fn cp_B9(&mut self) -> (cycle: u8)
        requires
            old(self).wf(),
        ensures
            final(self).wf(),
            cycle == 4,
            *final(self) == (Cpu {
                f: spec_flags(
                    spec_sub8_val(old(self).a, old(self).c) == 0,
                    true,
                    old(self).a % 16 < (old(self).c) % 16,
                    old(self).a < old(self).c,
                ),
                ..*old(self)
            }),
    {
        let left = self.a;
        let right = self.c;
        let val = ((left as u16 + 256 - right as u16) % 256) as u8;
        let (hc, cc) = self.is_carry_negative(left, right);
        
        self.set_flag(val == 0, true, hc, cc);
        4
    }

    /// CP D: compare without storing.
    fn cp_BA(&mut self) -> (cycle: u8)
        requires
            old(self).wf(),
        ensures
            final(self).wf(),
            cycle == 4,
            *final(self) == (Cpu {
                f: spec_flags(
                    spec_sub8_val(old(self).a, old(self).d) == 0,
                    true,
                    old(self).a % 16 < (old(self).d) % 16,
                    old(self).a < old(self).d,
                ),
                ..*old(self)
            }),
    {
        let left = self.a;
        let right = self.d;
        let val = ((left as u16 + 256 - right as u16) % 256) as u8;
        let (hc, cc) = self.is_carry_negative(left, right);
        
        self.set_flag(val == 0, true, hc, cc);
        4
    }

    /// CP E: compare without storing.
    fn cp_BB(&mut self) -> (cycle: u8)
        requires
            old(self).wf(),
        ensures
            final(self).wf(),
            cycle == 4,
            *final(self) == (Cpu {
                f: spec_flags(
                    spec_sub8_val(old(self).a, old(self).e) == 0,
                    true,
                    old(self).a % 16 < (old(self).e) % 16,
                    old(self).a < old(self).e,
                ),
                ..*old(self)
            }),
    {
        let left = self.a;
        let right = self.e;
        let val = ((left as u16 + 256 - right as u16) % 256) as u8;
        let (hc, cc) = self.is_carry_negative(left, right);
        
        self.set_flag(val == 0, true, hc, cc);
        4
    }

    /// CP H: compare without storing.
    fn cp_BC(&mut self) -> (cycle: u8)
        requires
            old(self).wf(),
        ensures
            final(self).wf(),
            cycle == 4,
            *final(self) == (Cpu {
                f: spec_flags(
                    spec_sub8_val(old(self).a, old(self).h) == 0,
                    true,
                    old(self).a % 16 < (old(self).h) % 16,
                    old(self).a < old(self).h,
                ),
                ..*old(self)
            }),
    {
        let left = self.a;
        let right = self.h;
        let val = ((left as u16 + 256 - right as u16) % 256) as u8;
        let (hc, cc) = self.is_carry_negative(left, right);
        
        self.set_flag(val == 0, true, hc, cc);
        4
    }

    /// CP L: compare without storing.
    fn cp_BD(&mut self) -> (cycle: u8)
        requires
            old(self).wf(),
        ensures
            final(self).wf(),
            cycle == 4,
            *final(self) == (Cpu {
                f: spec_flags(
                    spec_sub8_val(old(self).a, old(self).l) == 0,
                    true,
                    old(self).a % 16 < (old(self).l) % 16,
                    old(self).a < old(self).l,
                ),
                ..*old(self)
            }),
    {
        let left = self.a;
        let right = self.l;
        let val = ((left as u16 + 256 - right as u16) % 256) as u8;
        let (hc, cc) = self.is_carry_negative(left, right);
        
        self.set_flag(val == 0, true, hc, cc);
        4
    }

    /// CP (HL).
    fn cp_BE(&mut self) -> (cycle: u8)
        requires
            old(self).wf(),
        ensures
            final(self).wf(),
            cycle == 8,
            *final(self) == (Cpu {
                f: spec_flags(
                    spec_sub8_val(old(self).a, old(self).bus.spec_read(old(self).spec_hl())) == 0,
                    true,
                    old(self).a % 16 < (old(self).bus.spec_read(old(self).spec_hl())) % 16,
                    old(self).a < old(self).bus.spec_read(old(self).spec_hl()),
                ),
                ..*old(self)
            }),
    {
        let left = self.a;
        let right = self.bus.read(self.get_hl());
        let val = ((left as u16 + 256 - right as u16) % 256) as u8;
        let (hc, cc) = self.is_carry_negative(left, right);
        
        self.set_flag(val == 0, true, hc, cc);
        8
    }

    /// CP d8.
    fn cp_FE(&mut self) -> (cycle: u8)
        requires
            old(self).wf(),
        ensures
            final(self).wf(),
            cycle == 8,
            *final(self) == (Cpu {
                f: spec_flags(
                    spec_sub8_val(old(self).a, old(self).spec_imm8()) == 0,
                    true,
                    old(self).a % 16 < (old(self).spec_imm8()) % 16,
                    old(self).a < old(self).spec_imm8(),
                ),
                pc: ((old(self).pc + 1) % 65536) as u16,
                ..*old(self)
            }),
    {
        let left = self.a;
        let right = self.read_next_8();
        let val = ((left as u16 + 256 - right as u16) % 256) as u8;
        let (hc, cc) = self.is_carry_negative(left, right);
        
        self.set_flag(val == 0, true, hc, cc);
        8
    }

    /// SBC A,A.
    fn sbc_9F(&mut self) -> (cycle: u8)
        requires
            old(self).wf(),
        ensures
            final(self).wf(),
            cycle == 4,
            *final(self) == (Cpu {
                a: (((old(self).a + 512 - old(self).a - old(self).spec_carry()) % 256)) as u8,
                f: spec_flags(
                    (old(self).a + 512 - old(self).a - old(self).spec_carry()) % 256 == 0,
                    true,
                    old(self).a % 16 < (old(self).a) % 16 + old(self).spec_carry(),
                    old(self).a < old(self).a + old(self).spec_carry(),
                ),
                ..*old(self)
            }),
    {
        let cy: u8 = if self.get_carry_flag() {
            1
        } else {
            0
        };
        let left = self.a;
        let right = self.a;
        let val = ((left as u16 + 512 - right as u16 - cy as u16) % 256) as u8;
        let hc = left % 16 < right % 16 + cy;
        let cc = (left as u16) < right as u16 + cy as u16;
        self.a = val;
        self.set_flag(val == 0, true, hc, cc);
        4
    }

    /// SBC A,B.
    fn sbc_98(&mut self) -> (cycle: u8)
        requires
            old(self).wf(),
        ensures
            final(self).wf(),
            cycle == 4,
            *final(self) == (Cpu {
                a: (((old(self).a + 512 - old(self).b - old(self).spec_carry()) % 256)) as u8,
                f: spec_flags(
                    (old(self).a + 512 - old(self).b - old(self).spec_carry()) % 256 == 0,
                    true,
                    old(self).a % 16 < (old(self).b) % 16 + old(self).spec_carry(),
                    old(self).a < old(self).b + old(self).spec_carry(),
                ),
                ..*old(self)
            }),
    {
        let cy: u8 = if self.get_carry_flag() {
            1
        } else {
            0
        };
        let left = self.a;
        let right = self.b;
        let val = ((left as u16 + 512 - right as u16 - cy as u16) % 256) as u8;
        let hc = left % 16 < right % 16 + cy;
        let cc = (left as u16) < right as u16 + cy as u16;
        self.a = val;
        self.set_flag(val == 0, true, hc, cc);
        4
    }

    /// SBC A,C.
    fn sbc_99(&mut self) -> (cycle: u8)
        requires
            old(self).wf(),
        ensures
            final(self).wf(),
            cycle == 4,
            *final(self) == (Cpu {
                a: (((old(self).a + 512 - old(self).c - old(self).spec_carry()) % 256)) as u8,
                f: spec_flags(
                    (old(self).a + 512 - old(self).c - old(self).spec_carry()) % 256 == 0,
                    true,
                    old(self).a % 16 < (old(self).c) % 16 + old(self).spec_carry(),
                    old(self).a < old(self).c + old(self).spec_carry(),
                ),
                ..*old(self)
            }),
    {
        let cy: u8 = if self.get_carry_flag() {
            1
        } else {
            0
        };
        let left = self.a;
        let right = self.c;
        let val = ((left as u16 + 512 - right as u16 - cy as u16) % 256) as u8;
        let hc = left % 16 < right % 16 + cy;
        let cc = (left as u16) < right as u16 + cy as u16;
        self.a = val;
        self.set_flag(val == 0, true, hc, cc);
        4
    }

    /// SBC A,D.
    fn sbc_9A(&mut self) -> (cycle: u8)
        requires
            old(self).wf(),
        ensures
            final(self).wf(),
            cycle == 4,
            *final(self) == (Cpu {
                a: (((old(self).a + 512 - old(self).d - old(self).spec_carry()) % 256)) as u8,
                f: spec_flags(
                    (old(self).a + 512 - old(self).d - old(self).spec_carry()) % 256 == 0,
                    true,
                    old(self).a % 16 < (old(self).d) % 16 + old(self).spec_carry(),
                    old(self).a < old(self).d + old(self).spec_carry(),
                ),
                ..*old(self)
            }),
    {
        let cy: u8 = if self.get_carry_flag() {
            1
        } else {
            0
        };
        let left = self.a;
        let right = self.d;
        let val = ((left as u16 + 512 - right as u16 - cy as u16) % 256) as u8;
        let hc = left % 16 < right % 16 + cy;
        let cc = (left as u16) < right as u16 + cy as u16;
        self.a = val;
        self.set_flag(val == 0, true, hc, cc);
        4
    }

    /// SBC A,E.
    fn sbc_9B(&mut self) -> (cycle: u8)
        requires
            old(self).wf(),
        ensures
            final(self).wf(),
            cycle == 4,
            *final(self) == (Cpu {
                a: (((old(self).a + 512 - old(self).e - old(self).spec_carry()) % 256)) as u8,
                f: spec_flags(
                    (old(self).a + 512 - old(self).e - old(self).spec_carry()) % 256 == 0,
                    true,
                    old(self).a % 16 < (old(self).e) % 16 + old(self).spec_carry(),
                    old(self).a < old(self).e + old(self).spec_carry(),
                ),
                ..*old(self)
            }),
    {
        let cy: u8 = if self.get_carry_flag() {
            1
        } else {
            0
        };
        let left = self.a;
        let right = self.e;
        let val = ((left as u16 + 512 - right as u16 - cy as u16) % 256) as u8;
        let hc = left % 16 < right % 16 + cy;
        let cc = (left as u16) < right as u16 + cy as u16;
        self.a = val;
        self.set_flag(val == 0, true, hc, cc);
        4
    }

    /// SBC A,H.
    fn sbc_9C(&mut self) -> (cycle: u8)
        requires
            old(self).wf(),
        ensures
            final(self).wf(),
            cycle == 4,
            *final(self) == (Cpu {
                a: (((old(self).a + 512 - old(self).h - old(self).spec_carry()) % 256)) as u8,
                f: spec_flags(
                    (old(self).a + 512 - old(self).h - old(self).spec_carry()) % 256 == 0,
                    true,
                    old(self).a % 16 < (old(self).h) % 16 + old(self).spec_carry(),
                    old(self).a < old(self).h + old(self).spec_carry(),
                ),
                ..*old(self)
            }),
    {
        let cy: u8 = if self.get_carry_flag() {
            1
        } else {
            0
        };
        let left = self.a;
        let right = self.h;
        let val = ((left as u16 + 512 - right as u16 - cy as u16) % 256) as u8;
        let hc = left % 16 < right % 16 + cy;
        let cc = (left as u16) < right as u16 + cy as u16;
        self.a = val;
        self.set_flag(val == 0, true, hc, cc);
        4
    }

    /// SBC A,L.
    fn sbc_9D(&mut self) -> (cycle: u8)
        requires
            old(self).wf(),
        ensures
            final(self).wf(),
            cycle == 4,
            *final(self) == (Cpu {
                a: (((old(self).a + 512 - old(self).l - old(self).spec_carry()) % 256)) as u8,
                f: spec_flags(
                    (old(self).a + 512 - old(self).l - old(self).spec_carry()) % 256 == 0,
                    true,
                    old(self).a % 16 < (old(self).l) % 16 + old(self).spec_carry(),
                    old(self).a < old(self).l + old(self).spec_carry(),
                ),
                ..*old(self)
            }),
    {
        let cy: u8 = if self.get_carry_flag() {
            1
        } else {
            0
        };
        let left = self.a;
        let right = self.l;
        let val = ((left as u16 + 512 - right as u16 - cy as u16) % 256) as u8;
        let hc = left % 16 < right % 16 + cy;
        let cc = (left as u16) < right as u16 + cy as u16;
        self.a = val;
        self.set_flag(val == 0, true, hc, cc);
        4
    }

    /// SBC A,(HL).
    fn sbc_9E(&mut self) -> (cycle: u8)
        requires
            old(self).wf(),
        ensures
            final(self).wf(),
            cycle == 8,
            *final(self) == (Cpu {
                a: (((old(self).a + 512 - old(self).bus.spec_read(old(self).spec_hl()) - old(self).spec_carry()) % 256)) as u8,
                f: spec_flags(
                    (old(self).a + 512 - old(self).bus.spec_read(old(self).spec_hl()) - old(self).spec_carry()) % 256 == 0,
                    true,
                    old(self).a % 16 < (old(self).bus.spec_read(old(self).spec_hl())) % 16 + old(self).spec_carry(),
                    old(self).a < old(self).bus.spec_read(old(self).spec_hl()) + old(self).spec_carry(),
                ),
                ..*old(self)
            }),
    {
        let cy: u8 = if self.get_carry_flag() {
            1
        } else {
            0
        };
        let left = self.a;
        let right = self.bus.read(self.get_hl());
        let val = ((left as u16 + 512 - right as u16 - cy as u16) % 256) as u8;
        let hc = left % 16 < right % 16 + cy;
        let cc = (left as u16) < right as u16 + cy as u16;
        self.a = val;
        self.set_flag(val == 0, true, hc, cc);
        8
    }

    /// AND A.
    fn and_A7(&mut self) -> (cycle: u8)
        requires
            old(self).wf(),
        ensures
            final(self).wf(),
            cycle == 4,
            *final(self) == (Cpu {
                a: old(self).a & old(self).a,
                f: spec_flags((old(self).a & old(self).a) == 0, false, true, false),
                ..*old(self)
            }),
    {
        let left = self.a;
        let right = self.a;
        let val = left & right;
        self.a = val;
        self.set_flag(val == 0, false, true, false);
        4
    }

    /// AND B.
    fn and_A0(&mut self) -> (cycle: u8)
        requires
            old(self).wf(),
        ensures
            final(self).wf(),
            cycle == 4,
            *final(self) == (Cpu {
                a: old(self).a & old(self).b,
                f: spec_flags((old(self).a & old(self).b) == 0, false, true, false),
                ..*old(self)
            }),
    {
        let left = self.a;
        let right = self.b;
        let val = left & right;
        self.a = val;
        self.set_flag(val == 0, false, true, false);
        4
    }

    /// AND C.
    fn and_A1(&mut self) -> (cycle: u8)
        requires
            old(self).wf(),
        ensures
            final(self).wf(),
            cycle == 4,
            *final(self) == (Cpu {
                a: old(self).a & old(self).c,
                f: spec_flags((old(self).a & old(self).c) == 0, false, true, false),
                ..*old(self)
            }),
    {
        let left = self.a;
        let right = self.c;
        let val = left & right;
        self.a = val;
        self.set_flag(val == 0, false, true, false);
        4
    }

    /// AND D.
    fn and_A2(&mut self) -> (cycle: u8)
        requires
            old(self).wf(),
        ensures
            final(self).wf(),
            cycle == 4,
            *final(self) == (Cpu {
                a: old(self).a & old(self).d,
                f: spec_flags((old(self).a & old(self).d) == 0, false, true, false),
                ..*old(self)
            }),
    {
        let left = self.a;
        let right = self.d;
        let val = left & right;
        self.a = val;
        self.set_flag(val == 0, false, true, false);
        4
    }

    /// AND E.
    fn and_A3(&mut self) -> (cycle: u8)
        requires
            old(self).wf(),
        ensures
            final(self).wf(),
            cycle == 4,
            *final(self) == (Cpu {
                a: old(self).a & old(self).e,
                f: spec_flags((old(self).a & old(self).e) == 0, false, true, false),
                ..*old(self)
            }),
    {
        let left = self.a;
        let right = self.e;
        let val = left & right;
        self.a = val;
        self.set_flag(val == 0, false, true, false);
        4
    }

    /// AND H.
    fn and_A4(&mut self) -> (cycle: u8)
        requires
            old(self).wf(),
        ensures
            final(self).wf(),
            cycle == 4,
            *final(self) == (Cpu {
                a: old(self).a & old(self).h,
                f: spec_flags((old(self).a & old(self).h) == 0, false, true, false),
                ..*old(self)
            }),
    {
        let left = self.a;
        let right = self.h;
        let val = left & right;
        self.a = val;
        self.set_flag(val == 0, false, true, false);
        4
    }

    /// AND L.
    fn and_A5(&mut self) -> (cycle: u8)
        requires
            old(self).wf(),
        ensures
            final(self).wf(),
            cycle == 4,
            *final(self) == (Cpu {
                a: old(self).a & old(self).l,
                f: spec_flags((old(self).a & old(self).l) == 0, false, true, false),
                ..*old(self)
            }),
    {
        let left = self.a;
        let right = self.l;
        let val = left & right;
        self.a = val;
        self.set_flag(val == 0, false, true, false);
        4
    }

    /// AND (HL).
    fn and_A6(&mut self) -> (cycle: u8)
        requires
            old(self).wf(),
        ensures
            final(self).wf(),
            cycle == 8,
            *final(self) == (Cpu {
                a: old(self).a & old(self).bus.spec_read(old(self).spec_hl()),
                f: spec_flags((old(self).a & old(self).bus.spec_read(old(self).spec_hl())) == 0, false, true, false),
                ..*old(self)
            }),
    {
        let left = self.a;
        let right = self.bus.read(self.get_hl());
        let val = left & right;
        self.a = val;
        self.set_flag(val == 0, false, true, false);
        8
    }

    /// AND d8.
    fn and_E6(&mut self) -> (cycle: u8)
        requires
            old(self).wf(),
        ensures
            final(self).wf(),
            cycle == 8,
            *final(self) == (Cpu {
                a: old(self).a & old(self).spec_imm8(),
                f: spec_flags((old(self).a & old(self).spec_imm8()) == 0, false, true, false),
                pc: ((old(self).pc + 1) % 65536) as u16,
                ..*old(self)
            }),
    {
        let left = self.a;
        let right = self.read_next_8();
        let val = left & right;
        self.a = val;
        self.set_flag(val == 0, false, true, false);
        8
    }

    /// XOR A.
    fn xor_AF(&mut self) -> (cycle: u8)
        requires
            old(self).wf(),
        ensures
            final(self).wf(),
            cycle == 4,
            *final(self) == (Cpu {
                a: old(self).a ^ old(self).a,
                f: spec_flags((old(self).a ^ old(self).a) == 0, false, false, false),
                ..*old(self)
            }),
    {
        let left = self.a;
        let right = self.a;
        let val = left ^ right;
        self.a = val;
        self.set_flag(val == 0, false, false, false);
        4
    }

    /// XOR B.
    fn xor_A8(&mut self) -> (cycle: u8)
        requires
            old(self).wf(),
        ensures
            final(self).wf(),
            cycle == 4,
            *final(self) == (Cpu {
                a: old(self).a ^ old(self).b,
                f: spec_flags((old(self).a ^ old(self).b) == 0, false, false, false),
                ..*old(self)
            }),
    {
        let left = self.a;
        let right = self.b;
        let val = left ^ right;
        self.a = val;
        self.set_flag(val == 0, false, false, false);
        4
    }

    /// XOR C.
    fn xor_A9(&mut self) -> (cycle: u8)
        requires
            old(self).wf(),
        ensures
            final(self).wf(),
            cycle == 4,
            *final(self) == (Cpu {
                a: old(self).a ^ old(self).c,
                f: spec_flags((old(self).a ^ old(self).c) == 0, false, false, false),
                ..*old(self)
            }),
    {
        let left = self.a;
        let right = self.c;
        let val = left ^ right;
        self.a = val;
        self.set_flag(val == 0, false, false, false);
        4
    }

    /// XOR D.
    fn xor_AA(&mut self) -> (cycle: u8)
        requires
            old(self).wf(),
        ensures
            final(self).wf(),
            cycle == 4,
            *final(self) == (Cpu {
                a: old(self).a ^ old(self).d,
                f: spec_flags((old(self).a ^ old(self).d) == 0, false, false, false),
                ..*old(self)
            }),
    {
        let left = self.a;
        let right = self.d;
        let val = left ^ right;
        self.a = val;
        self.set_flag(val == 0, false, false, false);
        4
    }

    /// XOR E.
    fn xor_AB(&mut self) -> (cycle: u8)
        requires
            old(self).wf(),
        ensures
            final(self).wf(),
            cycle == 4,
            *final(self) == (Cpu {
                a: old(self).a ^ old(self).e,
                f: spec_flags((old(self).a ^ old(self).e) == 0, false, false, false),
                ..*old(self)
            }),
    {
        let left = self.a;
        let right = self.e;
        let val = left ^ right;
        self.a = val;
        self.set_flag(val == 0, false, false, false);
        4
    }

    /// XOR H.
    fn xor_AC(&mut self) -> (cycle: u8)
        requires
            old(self).wf(),
        ensures
            final(self).wf(),
            cycle == 4,
            *final(self) == (Cpu {
                a: old(self).a ^ old(self).h,
                f: spec_flags((old(self).a ^ old(self).h) == 0, false, false, false),
                ..*old(self)
            }),
    {
        let left = self.a;
        let right = self.h;
        let val = left ^ right;
        self.a = val;
        self.set_flag(val == 0, false, false, false);
        4
    }

    /// XOR L.
    fn xor_AD(&mut self) -> (cycle: u8)
        requires
            old(self).wf(),
        ensures
            final(self).wf(),
            cycle == 4,
            *final(self) == (Cpu {
                a: old(self).a ^ old(self).l,
                f: spec_flags((old(self).a ^ old(self).l) == 0, false, false, false),
                ..*old(self)
            }),
    {
        let left = self.a;
        let right = self.l;
        let val = left ^ right;
        self.a = val;
        self.set_flag(val == 0, false, false, false);
        4
    }

    /// XOR (HL).
    fn xor_AE(&mut self) -> (cycle: u8)
        requires
            old(self).wf(),
        ensures
            final(self).wf(),
            cycle == 8,
            *final(self) == (Cpu {
                a: old(self).a ^ old(self).bus.spec_read(old(self).spec_hl()),
                f: spec_flags((old(self).a ^ old(self).bus.spec_read(old(self).spec_hl())) == 0, false, false, false),
                ..*old(self)
            }),
    {
        let left = self.a;
        let right = self.bus.read(self.get_hl());
        let val = left ^ right;
        self.a = val;
        self.set_flag(val == 0, false, false, false);
        8
    }

    /// XOR d8.
    fn xor_EE(&mut self) -> (cycle: u8)
        requires
            old(self).wf(),
        ensures
            final(self).wf(),
            cycle == 8,
            *final(self) == (Cpu {
                a: old(self).a ^ old(self).spec_imm8(),
                f: spec_flags((old(self).a ^ old(self).spec_imm8()) == 0, false, false, false),
                pc: ((old(self).pc + 1) % 65536) as u16,
                ..*old(self)
            }),
    {
        let left = self.a;
        let right = self.read_next_8();
        let val = left ^ right;
        self.a = val;
        self.set_flag(val == 0, false, false, false);
        8
    }

    /// OR A.
    fn or_B7(&mut self) -> (cycle: u8)
        requires
            old(self).wf(),
        ensures
            final(self).wf(),
            cycle == 4,
            *final(self) == (Cpu {
                a: old(self).a | old(self).a,
                f: spec_flags((old(self).a | old(self).a) == 0, false, false, false),
                ..*old(self)
            }),
    {
        let left = self.a;
        let right = self.a;
        let val = left | right;
        self.a = val;
        self.set_flag(val == 0, false, false, false);
        4
    }

    /// OR B.
    fn or_B0(&mut self) -> (cycle: u8)
        requires
            old(self).wf(),
        ensures
            final(self).wf(),
            cycle == 4,
            *final(self) == (Cpu {
                a: old(self).a | old(self).b,
                f: spec_flags((old(self).a | old(self).b) == 0, false, false, false),
                ..*old(self)
            }),
    {
        let left = self.a;
        let right = self.b;
        let val = left | right;
        self.a = val;
        self.set_flag(val == 0, false, false, false);
        4
    }

    /// OR C.
    fn or_B1(&mut self) -> (cycle: u8)
        requires
            old(self).wf(),
        ensures
            final(self).wf(),
            cycle == 4,
            *final(self) == (Cpu {
                a: old(self).a | old(self).c,
                f: spec_flags((old(self).a | old(self).c) == 0, false, false, false),
                ..*old(self)
            }),
    {
        let left = self.a;
        let right = self.c;
        let val = left | right;
        self.a = val;
        self.set_flag(val == 0, false, false, false);
        4
    }

    /// OR D.
    fn or_B2(&mut self) -> (cycle: u8)
        requires
            old(self).wf(),
        ensures
            final(self).wf(),
            cycle == 4,
            *final(self) == (Cpu {
                a: old(self).a | old(self).d,
                f: spec_flags((old(self).a | old(self).d) == 0, false, false, false),
                ..*old(self)
            }),
    {
        let left = self.a;
        let right = self.d;
        let val = left | right;
        self.a = val;
        self.set_flag(val == 0, false, false, false);
        4
    }

    /// OR E.
    fn or_B3(&mut self) -> (cycle: u8)
        requires
            old(self).wf(),
        ensures
            final(self).wf(),
            cycle == 4,
            *final(self) == (Cpu {
                a: old(self).a | old(self).e,
                f: spec_flags((old(self).a | old(self).e) == 0, false, false, false),
                ..*old(self)
            }),
    {
        let left = self.a;
        let right = self.e;
        let val = left | right;
        self.a = val;
        self.set_flag(val == 0, false, false, false);
        4
    }

    /// OR H.
    fn or_B4(&mut self) -> (cycle: u8)
        requires
            old(self).wf(),
        ensures
            final(self).wf(),
            cycle == 4,
            *final(self) == (Cpu {
                a: old(self).a | old(self).h,
                f: spec_flags((old(self).a | old(self).h) == 0, false, false, false),
                ..*old(self)
            }),
    {
        let left = self.a;
        let right = self.h;
        let val = left | right;
        self.a = val;
        self.set_flag(val == 0, false, false, false);
        4
    }

    /// OR L.
    fn or_B5(&mut self) -> (cycle: u8)
        requires
            old(self).wf(),
        ensures
            final(self).wf(),
            cycle == 4,
            *final(self) == (Cpu {
                a: old(self).a | old(self).l,
                f: spec_flags((old(self).a | old(self).l) == 0, false, false, false),
                ..*old(self)
            }),
    {
        let left = self.a;
        let right = self.l;
        let val = left | right;
        self.a = val;
        self.set_flag(val == 0, false, false, false);
        4
    }

    /// OR (HL).
    fn or_B6(&mut self) -> (cycle: u8)
        requires
            old(self).wf(),
        ensures
            final(self).wf(),
            cycle == 8,
            *final(self) == (Cpu {
                a: old(self).a | old(self).bus.spec_read(old(self).spec_hl()),
                f: spec_flags((old(self).a | old(self).bus.spec_read(old(self).spec_hl())) == 0, false, false, false),
                ..*old(self)
            }),
    {
        let left = self.a;
        let right = self.bus.read(self.get_hl());
        let val = left | right;
        self.a = val;
        self.set_flag(val == 0, false, false, false);
        8
    }

    /// OR d8.
    fn or_F6(&mut self) -> (cycle: u8)
        requires
            old(self).wf(),
        ensures
            final(self).wf(),
            cycle == 8,
            *final(self) == (Cpu {
                a: old(self).a | old(self).spec_imm8(),
                f: spec_flags((old(self).a | old(self).spec_imm8()) == 0, false, false, false),
                pc: ((old(self).pc + 1) % 65536) as u16,
                ..*old(self)
            }),
    {
        let left = self.a;
        let right = self.read_next_8();
        let val = left | right;
        self.a = val;
        self.set_flag(val == 0, false, false, false);
        8
    }

    /// INC A: the carry flag is untouched.
    fn inc_3C(&mut self) -> (cycle: u8)
        requires
            old(self).wf(),
        ensures
            final(self).wf(),
            cycle == 4,
            *final(self) == (Cpu {
                a: spec_add8_val(old(self).a, 1),
                f: spec_flags(
                    spec_add8_val(old(self).a, 1) == 0,
                    false,
                    old(self).a % 16 == 15,
                    old(self).spec_cf(),
                ),
                ..*old(self)
            }),
    {
        let left = self.a;
        let val = ((left as u16 + 1) % 256) as u8;
        let cf = self.get_carry_flag();
        self.a = val;
        self.set_flag(val == 0, false, left % 16 == 15, cf);
        4
    }

    /// INC B: the carry flag is untouched.
    fn inc_04(&mut self) -> (cycle: u8)
        requires
            old(self).wf(),
        ensures
            final(self).wf(),
            cycle == 4,
            *final(self) == (Cpu {
                b: spec_add8_val(old(self).b, 1),
                f: spec_flags(
                    spec_add8_val(old(self).b, 1) == 0,
                    false,
                    old(self).b % 16 == 15,
                    old(self).spec_cf(),
                ),
                ..*old(self)
            }),
    {
        let left = self.b;
        let val = ((left as u16 + 1) % 256) as u8;
        let cf = self.get_carry_flag();
        self.b = val;
        self.set_flag(val == 0, false, left % 16 == 15, cf);
        4
    }

    /// INC C: the carry flag is untouched.
    fn inc_0C(&mut self) -> (cycle: u8)
        requires
            old(self).wf(),
        ensures
            final(self).wf(),
            cycle == 4,
            *final(self) == (Cpu {
                c: spec_add8_val(old(self).c, 1),
                f: spec_flags(
                    spec_add8_val(old(self).c, 1) == 0,
                    false,
                    old(self).c % 16 == 15,
                    old(self).spec_cf(),
                ),
                ..*old(self)
            }),
    {
        let left = self.c;
        let val = ((left as u16 + 1) % 256) as u8;
        let cf = self.get_carry_flag();
        self.c = val;
        self.set_flag(val == 0, false, left % 16 == 15, cf);
        4
    }

    /// INC D: the carry flag is untouched.
    fn inc_14(&mut self) -> (cycle: u8)
        requires
            old(self).wf(),
        ensures
            final(self).wf(),
            cycle == 4,
            *final(self) == (Cpu {
                d: spec_add8_val(old(self).d, 1),
                f: spec_flags(
                    spec_add8_val(old(self).d, 1) == 0,
                    false,
                    old(self).d % 16 == 15,
                    old(self).spec_cf(),
                ),
                ..*old(self)
            }),
    {
        let left = self.d;
        let val = ((left as u16 + 1) % 256) as u8;
        let cf = self.get_carry_flag();
        self.d = val;
        self.set_flag(val == 0, false, left % 16 == 15, cf);
        4
    }

    /// INC E: the carry flag is untouched.
    fn inc_1C(&mut self) -> (cycle: u8)
        requires
            old(self).wf(),
        ensures
            final(self).wf(),
            cycle == 4,
            *final(self) == (Cpu {
                e: spec_add8_val(old(self).e, 1),
                f: spec_flags(
                    spec_add8_val(old(self).e, 1) == 0,
                    false,
                    old(self).e % 16 == 15,
                    old(self).spec_cf(),
                ),
                ..*old(self)
            }),
    {
        let left = self.e;
        let val = ((left as u16 + 1) % 256) as u8;
        let cf = self.get_carry_flag();
        self.e = val;
        self.set_flag(val == 0, false, left % 16 == 15, cf);
        4
    }

    /// INC H: the carry flag is untouched.
    fn inc_24(&mut self) -> (cycle: u8)
        requires
            old(self).wf(),
        ensures
            final(self).wf(),
            cycle == 4,
            *final(self) == (Cpu {
                h: spec_add8_val(old(self).h, 1),
                f: spec_flags(
                    spec_add8_val(old(self).h, 1) == 0,
                    false,
                    old(self).h % 16 == 15,
                    old(self).spec_cf(),
                ),
                ..*old(self)
            }),
    {
        let left = self.h;
        let val = ((left as u16 + 1) % 256) as u8;
        let cf = self.get_carry_flag();
        self.h = val;
        self.set_flag(val == 0, false, left % 16 == 15, cf);
        4
    }

    /// INC L: the carry flag is untouched.
    fn inc_2C(&mut self) -> (cycle: u8)
        requires
            old(self).wf(),
        ensures
            final(self).wf(),
            cycle == 4,
            *final(self) == (Cpu {
                l: spec_add8_val(old(self).l, 1),
                f: spec_flags(
                    spec_add8_val(old(self).l, 1) == 0,
                    false,
                    old(self).l % 16 == 15,
                    old(self).spec_cf(),
                ),
                ..*old(self)
            }),
    {
        let left = self.l;
        let val = ((left as u16 + 1) % 256) as u8;
        let cf = self.get_carry_flag();
        self.l = val;
        self.set_flag(val == 0, false, left % 16 == 15, cf);
        4
    }

    /// DEC A: the carry flag is untouched.
    fn dec_3D(&mut self) -> (cycle: u8)
        requires
            old(self).wf(),
        ensures
            final(self).wf(),
            cycle == 4,
            *final(self) == (Cpu {
                a: spec_sub8_val(old(self).a, 1),
                f: spec_flags(
                    spec_sub8_val(old(self).a, 1) == 0,
                    true,
                    old(self).a % 16 == 0,
                    old(self).spec_cf(),
                ),
                ..*old(self)
            }),
    {
        let left = self.a;
        let val = ((left as u16 + 255) % 256) as u8;
        let cf = self.get_carry_flag();
        self.a = val;
        self.set_flag(val == 0, true, left % 16 == 0, cf);
        4
    }

    /// DEC B: the carry flag is untouched.
    fn dec_05(&mut self) -> (cycle: u8)
        requires
            old(self).wf(),
        ensures
            final(self).wf(),
            cycle == 4,
            *final(self) == (Cpu {
                b: spec_sub8_val(old(self).b, 1),
                f: spec_flags(
                    spec_sub8_val(old(self).b, 1) == 0,
                    true,
                    old(self).b % 16 == 0,
                    old(self).spec_cf(),
                ),
                ..*old(self)
            }),
    {
        let left = self.b;
        let val = ((left as u16 + 255) % 256) as u8;
        let cf = self.get_carry_flag();
        self.b = val;
        self.set_flag(val == 0, true, left % 16 == 0, cf);
        4
    }

    /// DEC C: the carry flag is untouched.
    fn dec_0D(&mut self) -> (cycle: u8)
        requires
            old(self).wf(),
        ensures
            final(self).wf(),
            cycle == 4,
            *final(self) == (Cpu {
                c: spec_sub8_val(old(self).c, 1),
                f: spec_flags(
                    spec_sub8_val(old(self).c, 1) == 0,
                    true,
                    old(self).c % 16 == 0,
                    old(self).spec_cf(),
                ),
                ..*old(self)
            }),
    {
        let left = self.c;
        let val = ((left as u16 + 255) % 256) as u8;
        let cf = self.get_carry_flag();
        self.c = val;
        self.set_flag(val == 0, true, left % 16 == 0, cf);
        4
    }

    /// DEC D: the carry flag is untouched.
    fn dec_15(&mut self) -> (cycle: u8)
        requires
            old(self).wf(),
        ensures
            final(self).wf(),
            cycle == 4,
            *final(self) == (Cpu {
                d: spec_sub8_val(old(self).d, 1),
                f: spec_flags(
                    spec_sub8_val(old(self).d, 1) == 0,
                    true,
                    old(self).d % 16 == 0,
                    old(self).spec_cf(),
                ),
                ..*old(self)
            }),
    {
        let left = self.d;
        let val = ((left as u16 + 255) % 256) as u8;
        let cf = self.get_carry_flag();
        self.d = val;
        self.set_flag(val == 0, true, left % 16 == 0, cf);
        4
    }

    /// DEC E: the carry flag is untouched.
    fn dec_1D(&mut self) -> (cycle: u8)
        requires
            old(self).wf(),
        ensures
            final(self).wf(),
            cycle == 4,
            *final(self) == (Cpu {
                e: spec_sub8_val(old(self).e, 1),
                f: spec_flags(
                    spec_sub8_val(old(self).e, 1) == 0,
                    true,
                    old(self).e % 16 == 0,
                    old(self).spec_cf(),
                ),
                ..*old(self)
            }),
    {
        let left = self.e;
        let val = ((left as u16 + 255) % 256) as u8;
        let cf = self.get_carry_flag();
        self.e = val;
        self.set_flag(val == 0, true, left % 16 == 0, cf);
        4
    }

    /// DEC H: the carry flag is untouched.
    fn dec_25(&mut self) -> (cycle: u8)
        requires
            old(self).wf(),
        ensures
            final(self).wf(),
            cycle == 4,
            *final(self) == (Cpu {
                h: spec_sub8_val(old(self).h, 1),
                f: spec_flags(
                    spec_sub8_val(old(self).h, 1) == 0,
                    true,
                    old(self).h % 16 == 0,
                    old(self).spec_cf(),
                ),
                ..*old(self)
            }),
    {
        let left = self.h;
        let val = ((left as u16 + 255) % 256) as u8;
        let cf = self.get_carry_flag();
        self.h = val;
        self.set_flag(val == 0, true, left % 16 == 0, cf);
        4
    }

    /// DEC L: the carry flag is untouched.
    fn dec_2D(&mut self) -> (cycle: u8)
        requires
            old(self).wf(),
        ensures
            final(self).wf(),
            cycle == 4,
            *final(self) == (Cpu {
                l: spec_sub8_val(old(self).l, 1),
                f: spec_flags(
                    spec_sub8_val(old(self).l, 1) == 0,
                    true,
                    old(self).l % 16 == 0,
                    old(self).spec_cf(),
                ),
                ..*old(self)
            }),
    {
        let left = self.l;
        let val = ((left as u16 + 255) % 256) as u8;
        let cf = self.get_carry_flag();
        self.l = val;
        self.set_flag(val == 0, true, left % 16 == 0, cf);
        4
    }

    /// SBC A,d8.
    fn sbc_DE(&mut self) -> (cycle: u8)
        requires
            old(self).wf(),
        ensures
            final(self).wf(),
            cycle == 8,
            *final(self) == (Cpu {
                a: (((old(self).a + 512 - old(self).spec_imm8() - old(self).spec_carry())
                    % 256)) as u8,
                f: spec_flags(
                    (old(self).a + 512 - old(self).spec_imm8() - old(self).spec_carry()) % 256
                        == 0,
                    true,
                    old(self).a % 16 < (old(self).spec_imm8()) % 16 + old(self).spec_carry(),
                    old(self).a < old(self).spec_imm8() + old(self).spec_carry(),
                ),
                pc: ((old(self).pc + 1) % 65536) as u16,
                ..*old(self)
            }),
    {
        let cy: u8 = if self.get_carry_flag() {
            1
        } else {
            0
        };
        let left = self.a;
        let right = self.read_next_8();
        let val = ((left as u16 + 512 - right as u16 - cy as u16) % 256) as u8;
        let hc = left % 16 < right % 16 + cy;
        let cc = (left as u16) < right as u16 + cy as u16;
        self.a = val;
        self.set_flag(val == 0, true, hc, cc);
        8
    }

    /// INC (HL): the carry flag is untouched.
    fn inc_34(&mut self) -> (cycle: u8)
        requires
            old(self).wf(),
        ensures
            final(self).wf(),
            cycle == 12,
            ({
                let v = old(self).bus.spec_read(old(self).spec_hl());
                &&& *final(self) == (Cpu {
                    f: spec_flags(
                        spec_add8_val(v, 1) == 0,
                        false,
                        v % 16 == 15,
                        old(self).spec_cf(),
                    ),
                    bus: final(self).bus,
                    ..*old(self)
                })
                &&& old(self).bus.spec_write_effect(
                    old(self).spec_hl(),
                    spec_add8_val(v, 1),
                    final(self).bus,
                )
            }),
    {
        let address = self.get_hl();
        let left = self.bus.read(address);
        let val = ((left as u16 + 1) % 256) as u8;
        let cf = self.get_carry_flag();
        self.bus.write(address, val);
        self.set_flag(val == 0, false, left % 16 == 15, cf);
        12
    }

    /// DEC (HL): the carry flag is untouched.
    fn dec_35(&mut self) -> (cycle: u8)
        requires
            old(self).wf(),
        ensures
            final(self).wf(),
            cycle == 12,
            ({
                let v = old(self).bus.spec_read(old(self).spec_hl());
                &&& *final(self) == (Cpu {
                    f: spec_flags(
                        spec_sub8_val(v, 1) == 0,
                        true,
                        v % 16 == 0,
                        old(self).spec_cf(),
                    ),
                    bus: final(self).bus,
                    ..*old(self)
                })
                &&& old(self).bus.spec_write_effect(
                    old(self).spec_hl(),
                    spec_sub8_val(v, 1),
                    final(self).bus,
                )
            }),
    {
        let address = self.get_hl();
        let left = self.bus.read(address);
        let val = ((left as u16 + 255) % 256) as u8;
        let cf = self.get_carry_flag();
        self.bus.write(address, val);
        self.set_flag(val == 0, true, left % 16 == 0, cf);
        12
    }

    /// INC BC: no flags are touched.
    fn inc_03(&mut self) -> (cycle: u8)
        requires
            old(self).wf(),
        ensures
            final(self).wf(),
            cycle == 8,
            *final(self) == (Cpu {
                b: (((old(self).spec_bc() + 1) % 65536) as int / 256) as u8,
                c: (((old(self).spec_bc() + 1) % 65536) % 256) as u8,
                ..*old(self)
            }),
    {
        self.increment_bc();
        8
    }

    /// INC DE: no flags are touched.
    fn inc_13(&mut self) -> (cycle: u8)
        requires
            old(self).wf(),
        ensures
            final(self).wf(),
            cycle == 8,
            *final(self) == (Cpu {
                d: (((old(self).spec_de() + 1) % 65536) as int / 256) as u8,
                e: (((old(self).spec_de() + 1) % 65536) % 256) as u8,
                ..*old(self)
            }),
    {
        self.increment_de();
        8
    }

    /// INC HL: no flags are touched.
    fn inc_23(&mut self) -> (cycle: u8)
        requires
            old(self).wf(),
        ensures
            final(self).wf(),
            cycle == 8,
            *final(self) == (Cpu {
                h: (((old(self).spec_hl() + 1) % 65536) as int / 256) as u8,
                l: (((old(self).spec_hl() + 1) % 65536) % 256) as u8,
                ..*old(self)
            }),
    {
        self.increment_hl();
        8
    }

    /// DEC BC: no flags are touched.
    fn dec_0B(&mut self) -> (cycle: u8)
        requires
            old(self).wf(),
        ensures
            final(self).wf(),
            cycle == 8,
            *final(self) == (Cpu {
                b: (((old(self).spec_bc() + 65535) % 65536) as int / 256) as u8,
                c: (((old(self).spec_bc() + 65535) % 65536) % 256) as u8,
                ..*old(self)
            }),
    {
        self.decrement_bc();
        8
    }

    /// DEC DE: no flags are touched.
    fn dec_1B(&mut self) -> (cycle: u8)
        requires
            old(self).wf(),
        ensures
            final(self).wf(),
            cycle == 8,
            *final(self) == (Cpu {
                d: (((old(self).spec_de() + 65535) % 65536) as int / 256) as u8,
                e: (((old(self).spec_de() + 65535) % 65536) % 256) as u8,
                ..*old(self)
            }),
    {
        self.decrement_de();
        8
    }

    /// DEC HL: no flags are touched.
    fn dec_2B(&mut self) -> (cycle: u8)
        requires
            old(self).wf(),
        ensures
            final(self).wf(),
            cycle == 8,
            *final(self) == (Cpu {
                h: (((old(self).spec_hl() + 65535) % 65536) as int / 256) as u8,
                l: (((old(self).spec_hl() + 65535) % 65536) % 256) as u8,
                ..*old(self)
            }),
    {
        self.decrement_hl();
        8
    }

    /// INC SP: no flags are touched.
    fn inc_33(&mut self) -> (cycle: u8)
        requires
            old(self).wf(),
        ensures
            final(self).wf(),
            cycle == 8,
            *final(self) == (Cpu { sp: ((old(self).sp + 1) % 65536) as u16, ..*old(self) }),
    {
        self.increment_sp();
        8
    }

    /// DEC SP: no flags are touched.
    fn dec_3B(&mut self) -> (cycle: u8)
        requires
            old(self).wf(),
        ensures
            final(self).wf(),
            cycle == 8,
            *final(self) == (Cpu { sp: ((old(self).sp + 65535) % 65536) as u16, ..*old(self) }),
    {
        self.decrement_sp();
        8
    }

    /// ADD HL,BC: Z is kept, N cleared, H from bit 11, C from bit 15.
    fn add_09(&mut self) -> (cycle: u8)
        requires
            old(self).wf(),
        ensures
            final(self).wf(),
            cycle == 8,
            *final(self) == (Cpu {
                h: (((old(self).spec_hl() + old(self).spec_bc()) % 65536) as int / 256) as u8,
                l: (((old(self).spec_hl() + old(self).spec_bc()) % 65536) % 256) as u8,
                f: spec_flags(
                    old(self).spec_zf(),
                    false,
                    old(self).spec_hl() % 4096 + old(self).spec_bc() % 4096 > 4095,
                    old(self).spec_hl() + old(self).spec_bc() > 65535,
                ),
                ..*old(self)
            }),
    {
        let left = self.get_hl();
        let right = self.get_bc();
        let val = ((left as u32 + right as u32) % 65536) as u16;
        let (hc, cc) = self.is_carry_positive_16(left, right);
        let zf = self.get_zero_flag();
        self.set_hl(val);
        self.set_flag(zf, false, hc, cc);
        8
    }

    /// ADD HL,DE: Z is kept, N cleared, H from bit 11, C from bit 15.
    fn add_19(&mut self) -> (cycle: u8)
        requires
            old(self).wf(),
        ensures
            final(self).wf(),
            cycle == 8,
            *final(self) == (Cpu {
                h: (((old(self).spec_hl() + old(self).spec_de()) % 65536) as int / 256) as u8,
                l: (((old(self).spec_hl() + old(self).spec_de()) % 65536) % 256) as u8,
                f: spec_flags(
                    old(self).spec_zf(),
                    false,
                    old(self).spec_hl() % 4096 + old(self).spec_de() % 4096 > 4095,
                    old(self).spec_hl() + old(self).spec_de() > 65535,
                ),
                ..*old(self)
            }),
    {
        let left = self.get_hl();
        let right = self.get_de();
        let val = ((left as u32 + right as u32) % 65536) as u16;
        let (hc, cc) = self.is_carry_positive_16(left, right);
        let zf = self.get_zero_flag();
        self.set_hl(val);
        self.set_flag(zf, false, hc, cc);
        8
    }

    /// ADD HL,HL: Z is kept, N cleared, H from bit 11, C from bit 15.
    fn add_29(&mut self) -> (cycle: u8)
        requires
            old(self).wf(),
        ensures
            final(self).wf(),
            cycle == 8,
            *final(self) == (Cpu {
                h: (((old(self).spec_hl() + old(self).spec_hl()) % 65536) as int / 256) as u8,
                l: (((old(self).spec_hl() + old(self).spec_hl()) % 65536) % 256) as u8,
                f: spec_flags(
                    old(self).spec_zf(),
                    false,
                    old(self).spec_hl() % 4096 + old(self).spec_hl() % 4096 > 4095,
                    old(self).spec_hl() + old(self).spec_hl() > 65535,
                ),
                ..*old(self)
            }),
    {
        let left = self.get_hl();
        let right = self.get_hl();
        let val = ((left as u32 + right as u32) % 65536) as u16;
        let (hc, cc) = self.is_carry_positive_16(left, right);
        let zf = self.get_zero_flag();
        self.set_hl(val);
        self.set_flag(zf, false, hc, cc);
        8
    }

    /// ADD HL,SP: Z is kept, N cleared, H from bit 11, C from bit 15.
    fn add_39(&mut self) -> (cycle: u8)
        requires
            old(self).wf(),
        ensures
            final(self).wf(),
            cycle == 8,
            *final(self) == (Cpu {
                h: (((old(self).spec_hl() + old(self).sp) % 65536) as int / 256) as u8,
                l: (((old(self).spec_hl() + old(self).sp) % 65536) % 256) as u8,
                f: spec_flags(
                    old(self).spec_zf(),
                    false,
                    old(self).spec_hl() % 4096 + old(self).sp % 4096 > 4095,
                    old(self).spec_hl() + old(self).sp > 65535,
                ),
                ..*old(self)
            }),
    {
        let left = self.get_hl();
        let right = self.sp;
        let val = ((left as u32 + right as u32) % 65536) as u16;
        let (hc, cc) = self.is_carry_positive_16(left, right);
        let zf = self.get_zero_flag();
        self.set_hl(val);
        self.set_flag(zf, false, hc, cc);
        8
    }

    /// ADD SP,e8: the signed immediate moves SP; H and C come from the
    /// low-byte addition, Z and N are cleared.
    fn add_E8(&mut self) -> (cycle: u8)
        requires
            old(self).wf(),
        ensures
            final(self).wf(),
            cycle == 16,
            ({
                let off = old(self).spec_imm8();
                *final(self) == (Cpu {
                    sp: spec_sp_plus_e8(old(self).sp, off),
                    pc: ((old(self).pc + 1) % 65536) as u16,
                    f: spec_flags(
                        false,
                        false,
                        old(self).sp % 16 + off % 16 > 15,
                        old(self).sp % 256 + off > 255,
                    ),
                    ..*old(self)
                })
            }),
    {
        let off = self.read_next_8();
        let sp0 = self.sp;
        let nv: u16 = if off < 128 {
            ((sp0 as u32 + off as u32) % 65536) as u16
        } else {
            ((sp0 as u32 + off as u32 + 65280) % 65536) as u16
        };
        let hc = sp0 % 16 + (off % 16) as u16 > 15;
        let cc = sp0 % 256 + off as u16 > 255;
        self.sp = nv;
        self.set_flag(false, false, hc, cc);
        16
    }

    /// LD HL,SP+e8: like ADD SP,e8 but the sum lands in HL.
    fn ld_F8(&mut self) -> (cycle: u8)
        requires
            old(self).wf(),
        ensures
            final(self).wf(),
            cycle == 12,
            ({
                let off = old(self).spec_imm8();
                *final(self) == (Cpu {
                    h: (spec_sp_plus_e8(old(self).sp, off) as int / 256) as u8,
                    l: (spec_sp_plus_e8(old(self).sp, off) % 256) as u8,
                    pc: ((old(self).pc + 1) % 65536) as u16,
                    f: spec_flags(
                        false,
                        false,
                        old(self).sp % 16 + off % 16 > 15,
                        old(self).sp % 256 + off > 255,
                    ),
                    ..*old(self)
                })
            }),
    {
        let off = self.read_next_8();
        let sp0 = self.sp;
        let nv: u16 = if off < 128 {
            ((sp0 as u32 + off as u32) % 65536) as u16
        } else {
            ((sp0 as u32 + off as u32 + 65280) % 65536) as u16
        };
        let hc = sp0 % 16 + (off % 16) as u16 > 15;
        let cc = sp0 % 256 + off as u16 > 255;
        self.set_hl(nv);
        self.set_flag(false, false, hc, cc);
        12
    }

    /// RLCA: rotate A left; Z is always cleared.
    fn rlca(&mut self) -> (cycle: u8)
        requires
            old(self).wf(),
        ensures
            final(self).wf(),
            cycle == 4,
            *final(self) == (Cpu {
                a: ((old(self).a * 2) % 256 + old(self).a as int / 128) as u8,
                f: spec_flags(false, false, false, old(self).a >= 128),
                ..*old(self)
            }),
    {
        let v = self.a;
        let val = ((v as u16 * 2) % 256) as u8 + v / 128;
        self.a = val;
        self.set_flag(false, false, false, v >= 128);
        4
    }

    /// RRCA: rotate A right; Z is always cleared.
    fn rrca(&mut self) -> (cycle: u8)
        requires
            old(self).wf(),
        ensures
            final(self).wf(),
            cycle == 4,
            *final(self) == (Cpu {
                a: (old(self).a as int / 2 + (old(self).a % 2) * 128) as u8,
                f: spec_flags(false, false, false, old(self).a % 2 == 1),
                ..*old(self)
            }),
    {
        let v = self.a;
        let val = v / 2 + (v % 2) * 128;
        self.a = val;
        self.set_flag(false, false, false, v % 2 == 1);
        4
    }

    /// RLA: rotate A left through the carry flag; Z is always cleared.
    fn rla(&mut self) -> (cycle: u8)
        requires
            old(self).wf(),
        ensures
            final(self).wf(),
            cycle == 4,
            *final(self) == (Cpu {
                a: ((old(self).a * 2) % 256 + old(self).spec_carry()) as u8,
                f: spec_flags(false, false, false, old(self).a >= 128),
                ..*old(self)
            }),
    {
        let cy: u8 = if self.get_carry_flag() {
            1
        } else {
            0
        };
        let v = self.a;
        let val = ((v as u16 * 2) % 256) as u8 + cy;
        self.a = val;
        self.set_flag(false, false, false, v >= 128);
        4
    }

    /// RRA: rotate A right through the carry flag; Z is always cleared.
    fn rra(&mut self) -> (cycle: u8)
        requires
            old(self).wf(),
        ensures
            final(self).wf(),
            cycle == 4,
            *final(self) == (Cpu {
                a: (old(self).a as int / 2 + old(self).spec_carry() * 128) as u8,
                f: spec_flags(false, false, false, old(self).a % 2 == 1),
                ..*old(self)
            }),
    {
        let cy: u8 = if self.get_carry_flag() {
            1
        } else {
            0
        };
        let v = self.a;
        let val = v / 2 + cy * 128;
        self.a = val;
        self.set_flag(false, false, false, v % 2 == 1);
        4
    }

    /// DAA: adjust A after a BCD addition or subtraction, driven by N, H
    /// and C; H is cleared, C reports the decimal carry.
    fn decimal_adjust_accumlator(&mut self) -> (cycle: u8)
        requires
            old(self).wf(),
        ensures
            final(self).wf(),
            cycle == 4,
            *final(self) == (Cpu {
                a: spec_daa_val(old(self).a, old(self).spec_nf(), old(self).spec_hf(), old(self).spec_cf()),
                f: spec_flags(
                    spec_daa_val(old(self).a, old(self).spec_nf(), old(self).spec_hf(), old(self).spec_cf()) == 0,
                    old(self).spec_nf(),
                    false,
                    spec_daa_carry(old(self).a, old(self).spec_nf(), old(self).spec_cf()),
                ),
                ..*old(self)
            }),
    {
        let a0 = self.a;
        let n_flag = self.get_n_flag();
        let c_flag = self.get_carry_flag();
        let h_flag = self.get_half_carry_flag();

        let mut val = a0;
        let mut c_new_flag = c_flag;

        if !n_flag {
            if c_flag || a0 > 0x99 {
                val = ((val as u16 + 0x60) % 256) as u8;
                c_new_flag = true;
            }
            if h_flag || a0 % 16 > 9 {
                val = ((val as u16 + 0x06) % 256) as u8;
            }
        } else {
            if c_flag {
                val = ((val as u16 + 256 - 0x60) % 256) as u8;
            }
            if h_flag {
                val = ((val as u16 + 256 - 0x06) % 256) as u8;
            }
        }

        self.a = val;
        self.set_flag(val == 0, n_flag, false, c_new_flag);
        4
    }

    /// CPL: complement A; N and H are set.
    fn cpl(&mut self) -> (cycle: u8)
        requires
            old(self).wf(),
        ensures
            final(self).wf(),
            cycle == 4,
            *final(self) == (Cpu {
                a: (255 - old(self).a) as u8,
                f: spec_flags(old(self).spec_zf(), true, true, old(self).spec_cf()),
                ..*old(self)
            }),
    {
        let val = 255 - self.a;
        self.a = val;
        let zf = self.get_zero_flag();
        let cf = self.get_carry_flag();
        self.set_flag(zf, true, true, cf);
        4
    }

    /// SCF: set the carry flag; N and H are cleared.
    fn scf(&mut self) -> (cycle: u8)
        requires
            old(self).wf(),
        ensures
            final(self).wf(),
            cycle == 4,
            *final(self) == (Cpu {
                f: spec_flags(old(self).spec_zf(), false, false, true),
                ..*old(self)
            }),
    {
        let zf = self.get_zero_flag();
        self.set_flag(zf, false, false, true);
        4
    }

    /// CCF: flip the carry flag; N and H are cleared.
    fn ccf(&mut self) -> (cycle: u8)
        requires
            old(self).wf(),
        ensures
            final(self).wf(),
            cycle == 4,
            *final(self) == (Cpu {
                f: spec_flags(old(self).spec_zf(), false, false, !old(self).spec_cf()),
                ..*old(self)
            }),
    {
        let zf = self.get_zero_flag();
        let cf = self.get_carry_flag();
        self.set_flag(zf, false, false, !cf);
        4
    }

    /// EI: IME turns on only after the next instruction has run.
    fn ei(&mut self) -> (cycle: u8)
        requires
            old(self).wf(),
        ensures
            final(self).wf(),
            cycle == 4,
            *final(self) == (Cpu { ime_pending: true, ..*old(self) }),
    {
        self.ime_pending = true;
        4
    }

    /// DI: IME turns off at once, cancelling a pending EI.
    fn di(&mut self) -> (cycle: u8)
        requires
            old(self).wf(),
        ensures
            final(self).wf(),
            cycle == 4,
            *final(self) == (Cpu { ime: false, ime_pending: false, ..*old(self) }),
    {
        self.ime = false;
        self.ime_pending = false;
        4
    }

    /// STOP: halts the CPU and freezes the divider until a button press.
    fn stop(&mut self) -> (cycle: u8)
        requires
            old(self).wf(),
        ensures
            final(self).wf(),
            cycle == 4,
            *final(self) == (Cpu {
                halt: true,
                bus: Bus {
                    timer: crate::timer::Timer { is_stop: true, ..old(self).bus.timer },
                    ..old(self).bus
                },
                ..*old(self)
            }),
    {
        self.halt = true;
        self.bus.timer.is_stop = true;
        4
    }

    /// HALT: the CPU idles until an interrupt is pending.
    fn halt(&mut self) -> (cycle: u8)
        requires
            old(self).wf(),
        ensures
            final(self).wf(),
            cycle == 4,
            *final(self) == (Cpu { halt: true, ..*old(self) }),
    {
        self.halt = true;
        4
    }

    /// NOP.
    fn nop(&mut self) -> (cycle: u8)
        requires
            old(self).wf(),
        ensures
            final(self).wf(),
            cycle == 4,
            *final(self) == *old(self),
    {
        4
    }

    /// LD B,B.
    fn ld_40(&mut self) -> (cycle: u8)
        requires
            old(self).wf(),
        ensures
            final(self).wf(),
            cycle == 4,
            *final(self) == (Cpu { b: old(self).b, ..*old(self) }),
    {
        self.b = self.b;
        4
    }

    /// LD B,C.
    fn ld_41(&mut self) -> (cycle: u8)
        requires
            old(self).wf(),
        ensures
            final(self).wf(),
            cycle == 4,
            *final(self) == (Cpu { b: old(self).c, ..*old(self) }),
    {
        self.b = self.c;
        4
    }

    /// LD B,D.
    fn ld_42(&mut self) -> (cycle: u8)
        requires
            old(self).wf(),
        ensures
            final(self).wf(),
            cycle == 4,
            *final(self) == (Cpu { b: old(self).d, ..*old(self) }),
    {
        self.b = self.d;
        4
    }

    /// LD B,E.
    fn ld_43(&mut self) -> (cycle: u8)
        requires
            old(self).wf(),
        ensures
            final(self).wf(),
            cycle == 4,
            *final(self) == (Cpu { b: old(self).e, ..*old(self) }),
    {
        self.b = self.e;
        4
    }

    /// LD B,H.
    fn ld_44(&mut self) -> (cycle: u8)
        requires
            old(self).wf(),
        ensures
            final(self).wf(),
            cycle == 4,
            *final(self) == (Cpu { b: old(self).h, ..*old(self) }),
    {
        self.b = self.h;
        4
    }

    /// LD B,L.
    fn ld_45(&mut self) -> (cycle: u8)
        requires
            old(self).wf(),
        ensures
            final(self).wf(),
            cycle == 4,
            *final(self) == (Cpu { b: old(self).l, ..*old(self) }),
    {
        self.b = self.l;
        4
    }

    /// LD B,(HL).
    fn ld_46(&mut self) -> (cycle: u8)
        requires
            old(self).wf(),
        ensures
            final(self).wf(),
            cycle == 8,
            *final(self) == (Cpu {
                b: old(self).bus.spec_read(old(self).spec_hl()),
                ..*old(self)
            }),
    {
        self.b = self.bus.read(self.get_hl());
        8
    }

    /// LD B,A.
    fn ld_47(&mut self) -> (cycle: u8)
        requires
            old(self).wf(),
        ensures
            final(self).wf(),
            cycle == 4,
            *final(self) == (Cpu { b: old(self).a, ..*old(self) }),
    {
        self.b = self.a;
        4
    }

    /// LD C,B.
    fn ld_48(&mut self) -> (cycle: u8)
        requires
            old(self).wf(),
        ensures
            final(self).wf(),
            cycle == 4,
            *final(self) == (Cpu { c: old(self).b, ..*old(self) }),
    {
        self.c = self.b;
        4
    }

    /// LD C,C.
    fn ld_49(&mut self) -> (cycle: u8)
        requires
            old(self).wf(),
        ensures
            final(self).wf(),
            cycle == 4,
            *final(self) == (Cpu { c: old(self).c, ..*old(self) }),
    {
        self.c = self.c;
        4
    }

    /// LD C,D.
    fn ld_4A(&mut self) -> (cycle: u8)
        requires
            old(self).wf(),
        ensures
            final(self).wf(),
            cycle == 4,
            *final(self) == (Cpu { c: old(self).d, ..*old(self) }),
    {
        self.c = self.d;
        4
    }

    /// LD C,E.
    fn ld_4B(&mut self) -> (cycle: u8)
        requires
            old(self).wf(),
        ensures
            final(self).wf(),
            cycle == 4,
            *final(self) == (Cpu { c: old(self).e, ..*old(self) }),
    {
        self.c = self.e;
        4
    }

    /// LD C,H.
    fn ld_4C(&mut self) -> (cycle: u8)
        requires
            old(self).wf(),
        ensures
            final(self).wf(),
            cycle == 4,
            *final(self) == (Cpu { c: old(self).h, ..*old(self) }),
    {
        self.c = self.h;
        4
    }

    /// LD C,L.
    fn ld_4D(&mut self) -> (cycle: u8)
        requires
            old(self).wf(),
        ensures
            final(self).wf(),
            cycle == 4,
            *final(self) == (Cpu { c: old(self).l, ..*old(self) }),
    {
        self.c = self.l;
        4
    }

    /// LD C,(HL).
    fn ld_4E(&mut self) -> (cycle: u8)
        requires
            old(self).wf(),
        ensures
            final(self).wf(),
            cycle == 8,
            *final(self) == (Cpu {
                c: old(self).bus.spec_read(old(self).spec_hl()),
                ..*old(self)
            }),
    {
        self.c = self.bus.read(self.get_hl());
        8
    }

    /// LD C,A.
    fn ld_4F(&mut self) -> (cycle: u8)
        requires
            old(self).wf(),
        ensures
            final(self).wf(),
            cycle == 4,
            *final(self) == (Cpu { c: old(self).a, ..*old(self) }),
    {
        self.c = self.a;
        4
    }

    /// LD D,B.
    fn ld_50(&mut self) -> (cycle: u8)
        requires
            old(self).wf(),
        ensures
            final(self).wf(),
            cycle == 4,
            *final(self) == (Cpu { d: old(self).b, ..*old(self) }),
    {
        self.d = self.b;
        4
    }

    /// LD D,C.
    fn ld_51(&mut self) -> (cycle: u8)
        requires
            old(self).wf(),
        ensures
            final(self).wf(),
            cycle == 4,
            *final(self) == (Cpu { d: old(self).c, ..*old(self) }),
    {
        self.d = self.c;
        4
    }

    /// LD D,D.
    fn ld_52(&mut self) -> (cycle: u8)
        requires
            old(self).wf(),
        ensures
            final(self).wf(),
            cycle == 4,
            *final(self) == (Cpu { d: old(self).d, ..*old(self) }),
    {
        self.d = self.d;
        4
    }

    /// LD D,E.
    fn ld_53(&mut self) -> (cycle: u8)
        requires
            old(self).wf(),
        ensures
            final(self).wf(),
            cycle == 4,
            *final(self) == (Cpu { d: old(self).e, ..*old(self) }),
    {
        self.d = self.e;
        4
    }

    /// LD D,H.
    fn ld_54(&mut self) -> (cycle: u8)
        requires
            old(self).wf(),
        ensures
            final(self).wf(),
            cycle == 4,
            *final(self) == (Cpu { d: old(self).h, ..*old(self) }),
    {
        self.d = self.h;
        4
    }

    /// LD D,L.
    fn ld_55(&mut self) -> (cycle: u8)
        requires
            old(self).wf(),
        ensures
            final(self).wf(),
            cycle == 4,
            *final(self) == (Cpu { d: old(self).l, ..*old(self) }),
    {
        self.d = self.l;
        4
    }

    /// LD D,(HL).
    fn ld_56(&mut self) -> (cycle: u8)
        requires
            old(self).wf(),
        ensures
            final(self).wf(),
            cycle == 8,
            *final(self) == (Cpu {
                d: old(self).bus.spec_read(old(self).spec_hl()),
                ..*old(self)
            }),
    {
        self.d = self.bus.read(self.get_hl());
        8
    }

    /// LD D,A.
    fn ld_57(&mut self) -> (cycle: u8)
        requires
            old(self).wf(),
        ensures
            final(self).wf(),
            cycle == 4,
            *final(self) == (Cpu { d: old(self).a, ..*old(self) }),
    {
        self.d = self.a;
        4
    }

    /// LD E,B.
    fn ld_58(&mut self) -> (cycle: u8)
        requires
            old(self).wf(),
        ensures
            final(self).wf(),
            cycle == 4,
            *final(self) == (Cpu { e: old(self).b, ..*old(self) }),
    {
        self.e = self.b;
        4
    }

    /// LD E,C.
    fn ld_59(&mut self) -> (cycle: u8)
        requires
            old(self).wf(),
        ensures
            final(self).wf(),
            cycle == 4,
            *final(self) == (Cpu { e: old(self).c, ..*old(self) }),
    {
        self.e = self.c;
        4
    }

    /// LD E,D.
    fn ld_5A(&mut self) -> (cycle: u8)
        requires
            old(self).wf(),
        ensures
            final(self).wf(),
            cycle == 4,
            *final(self) == (Cpu { e: old(self).d, ..*old(self) }),
    {
        self.e = self.d;
        4
    }

    /// LD E,E.
    fn ld_5B(&mut self) -> (cycle: u8)
        requires
            old(self).wf(),
        ensures
            final(self).wf(),
            cycle == 4,
            *final(self) == (Cpu { e: old(self).e, ..*old(self) }),
    {
        self.e = self.e;
        4
    }

    /// LD E,H.
    fn ld_5C(&mut self) -> (cycle: u8)
        requires
            old(self).wf(),
        ensures
            final(self).wf(),
            cycle == 4,
            *final(self) == (Cpu { e: old(self).h, ..*old(self) }),
    {
        self.e = self.h;
        4
    }

    /// LD E,L.
    fn ld_5D(&mut self) -> (cycle: u8)
        requires
            old(self).wf(),
        ensures
            final(self).wf(),
            cycle == 4,
            *final(self) == (Cpu { e: old(self).l, ..*old(self) }),
    {
        self.e = self.l;
        4
    }

    /// LD E,(HL).
    fn ld_5E(&mut self) -> (cycle: u8)
        requires
            old(self).wf(),
        ensures
            final(self).wf(),
            cycle == 8,
            *final(self) == (Cpu {
                e: old(self).bus.spec_read(old(self).spec_hl()),
                ..*old(self)
            }),
    {
        self.e = self.bus.read(self.get_hl());
        8
    }

    /// LD E,A.
    fn ld_5F(&mut self) -> (cycle: u8)
        requires
            old(self).wf(),
        ensures
            final(self).wf(),
            cycle == 4,
            *final(self) == (Cpu { e: old(self).a, ..*old(self) }),
    {
        self.e = self.a;
        4
    }

    /// LD H,B.
    fn ld_60(&mut self) -> (cycle: u8)
        requires
            old(self).wf(),
        ensures
            final(self).wf(),
            cycle == 4,
            *final(self) == (Cpu { h: old(self).b, ..*old(self) }),
    {
        self.h = self.b;
        4
    }

    /// LD H,C.
    fn ld_61(&mut self) -> (cycle: u8)
        requires
            old(self).wf(),
        ensures
            final(self).wf(),
            cycle == 4,
            *final(self) == (Cpu { h: old(self).c, ..*old(self) }),
    {
        self.h = self.c;
        4
    }

    /// LD H,D.
    fn ld_62(&mut self) -> (cycle: u8)
        requires
            old(self).wf(),
        ensures
            final(self).wf(),
            cycle == 4,
            *final(self) == (Cpu { h: old(self).d, ..*old(self) }),
    {
        self.h = self.d;
        4
    }

    /// LD H,E.
    fn ld_63(&mut self) -> (cycle: u8)
        requires
            old(self).wf(),
        ensures
            final(self).wf(),
            cycle == 4,
            *final(self) == (Cpu { h: old(self).e, ..*old(self) }),
    {
        self.h = self.e;
        4
    }

    /// LD H,H.
    fn ld_64(&mut self) -> (cycle: u8)
        requires
            old(self).wf(),
        ensures
            final(self).wf(),
            cycle == 4,
            *final(self) == (Cpu { h: old(self).h, ..*old(self) }),
    {
        self.h = self.h;
        4
    }

    /// LD H,L.
    fn ld_65(&mut self) -> (cycle: u8)
        requires
            old(self).wf(),
        ensures
            final(self).wf(),
            cycle == 4,
            *final(self) == (Cpu { h: old(self).l, ..*old(self) }),
    {
        self.h = self.l;
        4
    }

    /// LD H,(HL).
    fn ld_66(&mut self) -> (cycle: u8)
        requires
            old(self).wf(),
        ensures
            final(self).wf(),
            cycle == 8,
            *final(self) == (Cpu {
                h: old(self).bus.spec_read(old(self).spec_hl()),
                ..*old(self)
            }),
    {
        self.h = self.bus.read(self.get_hl());
        8
    }

    /// LD H,A.
    fn ld_67(&mut self) -> (cycle: u8)
        requires
            old(self).wf(),
        ensures
            final(self).wf(),
            cycle == 4,
            *final(self) == (Cpu { h: old(self).a, ..*old(self) }),
    {
        self.h = self.a;
        4
    }

    /// LD L,B.
    fn ld_68(&mut self) -> (cycle: u8)
        requires
            old(self).wf(),
        ensures
            final(self).wf(),
            cycle == 4,
            *final(self) == (Cpu { l: old(self).b, ..*old(self) }),
    {
        self.l = self.b;
        4
    }

    /// LD L,C.
    fn ld_69(&mut self) -> (cycle: u8)
        requires
            old(self).wf(),
        ensures
            final(self).wf(),
            cycle == 4,
            *final(self) == (Cpu { l: old(self).c, ..*old(self) }),
    {
        self.l = self.c;
        4
    }

    /// LD L,D.
    fn ld_6A(&mut self) -> (cycle: u8)
        requires
            old(self).wf(),
        ensures
            final(self).wf(),
            cycle == 4,
            *final(self) == (Cpu { l: old(self).d, ..*old(self) }),
    {
        self.l = self.d;
        4
    }

    /// LD L,E.
    fn ld_6B(&mut self) -> (cycle: u8)
        requires
            old(self).wf(),
        ensures
            final(self).wf(),
            cycle == 4,
            *final(self) == (Cpu { l: old(self).e, ..*old(self) }),
    {
        self.l = self.e;
        4
    }

    /// LD L,H.
    fn ld_6C(&mut self) -> (cycle: u8)
        requires
            old(self).wf(),
        ensures
            final(self).wf(),
            cycle == 4,
            *final(self) == (Cpu { l: old(self).h, ..*old(self) }),
    {
        self.l = self.h;
        4
    }

    /// LD L,L.
    fn ld_6D(&mut self) -> (cycle: u8)
        requires
            old(self).wf(),
        ensures
            final(self).wf(),
            cycle == 4,
            *final(self) == (Cpu { l: old(self).l, ..*old(self) }),
    {
        self.l = self.l;
        4
    }

    /// LD L,(HL).
    fn ld_6E(&mut self) -> (cycle: u8)
        requires
            old(self).wf(),
        ensures
            final(self).wf(),
            cycle == 8,
            *final(self) == (Cpu {
                l: old(self).bus.spec_read(old(self).spec_hl()),
                ..*old(self)
            }),
    {
        self.l = self.bus.read(self.get_hl());
        8
    }

    /// LD L,A.
    fn ld_6F(&mut self) -> (cycle: u8)
        requires
            old(self).wf(),
        ensures
            final(self).wf(),
            cycle == 4,
            *final(self) == (Cpu { l: old(self).a, ..*old(self) }),
    {
        self.l = self.a;
        4
    }

    /// LD (HL),B.
    fn ld_70(&mut self) -> (cycle: u8)
        requires
            old(self).wf(),
        ensures
            final(self).wf(),
            cycle == 8,
            *final(self) == (Cpu { bus: final(self).bus, ..*old(self) }),
            old(self).bus.spec_write_effect(old(self).spec_hl(), old(self).b, final(self).bus),
    {
        let address = self.get_hl();
        self.bus.write(address, self.b);
        8
    }

    /// LD (HL),C.
    fn ld_71(&mut self) -> (cycle: u8)
        requires
            old(self).wf(),
        ensures
            final(self).wf(),
            cycle == 8,
            *final(self) == (Cpu { bus: final(self).bus, ..*old(self) }),
            old(self).bus.spec_write_effect(old(self).spec_hl(), old(self).c, final(self).bus),
    {
        let address = self.get_hl();
        self.bus.write(address, self.c);
        8
    }

    /// LD (HL),D.
    fn ld_72(&mut self) -> (cycle: u8)
        requires
            old(self).wf(),
        ensures
            final(self).wf(),
            cycle == 8,
            *final(self) == (Cpu { bus: final(self).bus, ..*old(self) }),
            old(self).bus.spec_write_effect(old(self).spec_hl(), old(self).d, final(self).bus),
    {
        let address = self.get_hl();
        self.bus.write(address, self.d);
        8
    }

    /// LD (HL),E.
    fn ld_73(&mut self) -> (cycle: u8)
        requires
            old(self).wf(),
        ensures
            final(self).wf(),
            cycle == 8,
            *final(self) == (Cpu { bus: final(self).bus, ..*old(self) }),
            old(self).bus.spec_write_effect(old(self).spec_hl(), old(self).e, final(self).bus),
    {
        let address = self.get_hl();
        self.bus.write(address, self.e);
        8
    }

    /// LD (HL),H.
    fn ld_74(&mut self) -> (cycle: u8)
        requires
            old(self).wf(),
        ensures
            final(self).wf(),
            cycle == 8,
            *final(self) == (Cpu { bus: final(self).bus, ..*old(self) }),
            old(self).bus.spec_write_effect(old(self).spec_hl(), old(self).h, final(self).bus),
    {
        let address = self.get_hl();
        self.bus.write(address, self.h);
        8
    }

    /// LD (HL),L.
    fn ld_75(&mut self) -> (cycle: u8)
        requires
            old(self).wf(),
        ensures
            final(self).wf(),
            cycle == 8,
            *final(self) == (Cpu { bus: final(self).bus, ..*old(self) }),
            old(self).bus.spec_write_effect(old(self).spec_hl(), old(self).l, final(self).bus),
    {
        let address = self.get_hl();
        self.bus.write(address, self.l);
        8
    }

    /// LD (HL),A.
    fn ld_77(&mut self) -> (cycle: u8)
        requires
            old(self).wf(),
        ensures
            final(self).wf(),
            cycle == 8,
            *final(self) == (Cpu { bus: final(self).bus, ..*old(self) }),
            old(self).bus.spec_write_effect(old(self).spec_hl(), old(self).a, final(self).bus),
    {
        let address = self.get_hl();
        self.bus.write(address, self.a);
        8
    }

    /// LD A,B.
    fn ld_78(&mut self) -> (cycle: u8)
        requires
            old(self).wf(),
        ensures
            final(self).wf(),
            cycle == 4,
            *final(self) == (Cpu { a: old(self).b, ..*old(self) }),
    {
        self.a = self.b;
        4
    }

    /// LD A,C.
    fn ld_79(&mut self) -> (cycle: u8)
        requires
            old(self).wf(),
        ensures
            final(self).wf(),
            cycle == 4,
            *final(self) == (Cpu { a: old(self).c, ..*old(self) }),
    {
        self.a = self.c;
        4
    }

    /// LD A,D.
    fn ld_7A(&mut self) -> (cycle: u8)
        requires
            old(self).wf(),
        ensures
            final(self).wf(),
            cycle == 4,
            *final(self) == (Cpu { a: old(self).d, ..*old(self) }),
    {
        self.a = self.d;
        4
    }

    /// LD A,E.
    fn ld_7B(&mut self) -> (cycle: u8)
        requires
            old(self).wf(),
        ensures
            final(self).wf(),
            cycle == 4,
            *final(self) == (Cpu { a: old(self).e, ..*old(self) }),
    {
        self.a = self.e;
        4
    }

    /// LD A,H.
    fn ld_7C(&mut self) -> (cycle: u8)
        requires
            old(self).wf(),
        ensures
            final(self).wf(),
            cycle == 4,
            *final(self) == (Cpu { a: old(self).h, ..*old(self) }),
    {
        self.a = self.h;
        4
    }

    /// LD A,L.
    fn ld_7D(&mut self) -> (cycle: u8)
        requires
            old(self).wf(),
        ensures
            final(self).wf(),
            cycle == 4,
            *final(self) == (Cpu { a: old(self).l, ..*old(self) }),
    {
        self.a = self.l;
        4
    }

    /// LD A,(HL).
    fn ld_7E(&mut self) -> (cycle: u8)
        requires
            old(self).wf(),
        ensures
            final(self).wf(),
            cycle == 8,
            *final(self) == (Cpu {
                a: old(self).bus.spec_read(old(self).spec_hl()),
                ..*old(self)
            }),
    {
        self.a = self.bus.read(self.get_hl());
        8
    }

    /// LD A,A.
    fn ld_7F(&mut self) -> (cycle: u8)
        requires
            old(self).wf(),
        ensures
            final(self).wf(),
            cycle == 4,
            *final(self) == (Cpu { a: old(self).a, ..*old(self) }),
    {
        self.a = self.a;
        4
    }

    /// LD A,d8.
    fn ld_3E(&mut self) -> (cycle: u8)
        requires
            old(self).wf(),
        ensures
            final(self).wf(),
            cycle == 8,
            *final(self) == (Cpu {
                a: old(self).spec_imm8(),
                pc: ((old(self).pc + 1) % 65536) as u16,
                ..*old(self)
            }),
    {
        let v = self.read_next_8();
        self.a = v;
        8
    }

    /// LD B,d8.
    fn ld_06(&mut self) -> (cycle: u8)
        requires
            old(self).wf(),
        ensures
            final(self).wf(),
            cycle == 8,
            *final(self) == (Cpu {
                b: old(self).spec_imm8(),
                pc: ((old(self).pc + 1) % 65536) as u16,
                ..*old(self)
            }),
    {
        let v = self.read_next_8();
        self.b = v;
        8
    }

    /// LD C,d8.
    fn ld_0E(&mut self) -> (cycle: u8)
        requires
            old(self).wf(),
        ensures
            final(self).wf(),
            cycle == 8,
            *final(self) == (Cpu {
                c: old(self).spec_imm8(),
                pc: ((old(self).pc + 1) % 65536) as u16,
                ..*old(self)
            }),
    {
        let v = self.read_next_8();
        self.c = v;
        8
    }

    /// LD D,d8.
    fn ld_16(&mut self) -> (cycle: u8)
        requires
            old(self).wf(),
        ensures
            final(self).wf(),
            cycle == 8,
            *final(self) == (Cpu {
                d: old(self).spec_imm8(),
                pc: ((old(self).pc + 1) % 65536) as u16,
                ..*old(self)
            }),
    {
        let v = self.read_next_8();
        self.d = v;
        8
    }

    /// LD E,d8.
    fn ld_1E(&mut self) -> (cycle: u8)
        requires
            old(self).wf(),
        ensures
            final(self).wf(),
            cycle == 8,
            *final(self) == (Cpu {
                e: old(self).spec_imm8(),
                pc: ((old(self).pc + 1) % 65536) as u16,
                ..*old(self)
            }),
    {
        let v = self.read_next_8();
        self.e = v;
        8
    }

    /// LD H,d8.
    fn ld_26(&mut self) -> (cycle: u8)
        requires
            old(self).wf(),
        ensures
            final(self).wf(),
            cycle == 8,
            *final(self) == (Cpu {
                h: old(self).spec_imm8(),
                pc: ((old(self).pc + 1) % 65536) as u16,
                ..*old(self)
            }),
    {
        let v = self.read_next_8();
        self.h = v;
        8
    }

    /// LD L,d8.
    fn ld_2E(&mut self) -> (cycle: u8)
        requires
            old(self).wf(),
        ensures
            final(self).wf(),
            cycle == 8,
            *final(self) == (Cpu {
                l: old(self).spec_imm8(),
                pc: ((old(self).pc + 1) % 65536) as u16,
                ..*old(self)
            }),
    {
        let v = self.read_next_8();
        self.l = v;
        8
    }

    /// LD (HL),d8.
    fn ld_36(&mut self) -> (cycle: u8)
        requires
            old(self).wf(),
        ensures
            final(self).wf(),
            cycle == 12,
            *final(self) == (Cpu {
                pc: ((old(self).pc + 1) % 65536) as u16,
                bus: final(self).bus,
                ..*old(self)
            }),
            old(self).bus.spec_write_effect(
                old(self).spec_hl(),
                old(self).spec_imm8(),
                final(self).bus,
            ),
    {
        let v = self.read_next_8();
        let address = self.get_hl();
        self.bus.write(address, v);
        12
    }

    /// LD A,(BC).
    fn ld_0A(&mut self) -> (cycle: u8)
        requires
            old(self).wf(),
        ensures
            final(self).wf(),
            cycle == 8,
            *final(self) == (Cpu {
                a: old(self).bus.spec_read(old(self).spec_bc()),
                ..*old(self)
            }),
    {
        self.a = self.bus.read(self.get_bc());
        8
    }

    /// LD A,(DE).
    fn ld_1A(&mut self) -> (cycle: u8)
        requires
            old(self).wf(),
        ensures
            final(self).wf(),
            cycle == 8,
            *final(self) == (Cpu {
                a: old(self).bus.spec_read(old(self).spec_de()),
                ..*old(self)
            }),
    {
        self.a = self.bus.read(self.get_de());
        8
    }

    /// LD (BC),A.
    fn ld_02(&mut self) -> (cycle: u8)
        requires
            old(self).wf(),
        ensures
            final(self).wf(),
            cycle == 8,
            *final(self) == (Cpu { bus: final(self).bus, ..*old(self) }),
            old(self).bus.spec_write_effect(old(self).spec_bc(), old(self).a, final(self).bus),
    {
        let address = self.get_bc();
        self.bus.write(address, self.a);
        8
    }

    /// LD (DE),A.
    fn ld_12(&mut self) -> (cycle: u8)
        requires
            old(self).wf(),
        ensures
            final(self).wf(),
            cycle == 8,
            *final(self) == (Cpu { bus: final(self).bus, ..*old(self) }),
            old(self).bus.spec_write_effect(old(self).spec_de(), old(self).a, final(self).bus),
    {
        let address = self.get_de();
        self.bus.write(address, self.a);
        8
    }

    /// LD (HL+),A: store A then move HL.
    fn ld_22(&mut self) -> (cycle: u8)
        requires
            old(self).wf(),
        ensures
            final(self).wf(),
            cycle == 8,
            *final(self) == (Cpu {
                h: (((old(self).spec_hl() + 1) % 65536) as int / 256) as u8,
                l: (((old(self).spec_hl() + 1) % 65536) % 256) as u8,
                bus: final(self).bus,
                ..*old(self)
            }),
            old(self).bus.spec_write_effect(old(self).spec_hl(), old(self).a, final(self).bus),
    {
        let address = self.get_hl();
        self.bus.write(address, self.a);
        self.increment_hl();
        8
    }

    /// LD (HL-),A: store A then move HL.
    fn ld_32(&mut self) -> (cycle: u8)
        requires
            old(self).wf(),
        ensures
            final(self).wf(),
            cycle == 8,
            *final(self) == (Cpu {
                h: (((old(self).spec_hl() + 65535) % 65536) as int / 256) as u8,
                l: (((old(self).spec_hl() + 65535) % 65536) % 256) as u8,
                bus: final(self).bus,
                ..*old(self)
            }),
            old(self).bus.spec_write_effect(old(self).spec_hl(), old(self).a, final(self).bus),
    {
        let address = self.get_hl();
        self.bus.write(address, self.a);
        self.decrement_hl();
        8
    }

    /// LD A,(HL+): load A then move HL.
    fn ld_2A(&mut self) -> (cycle: u8)
        requires
            old(self).wf(),
        ensures
            final(self).wf(),
            cycle == 8,
            *final(self) == (Cpu {
                a: old(self).bus.spec_read(old(self).spec_hl()),
                h: (((old(self).spec_hl() + 1) % 65536) as int / 256) as u8,
                l: (((old(self).spec_hl() + 1) % 65536) % 256) as u8,
                ..*old(self)
            }),
    {
        self.a = self.bus.read(self.get_hl());
        self.increment_hl();
        8
    }

    /// LD A,(HL-): load A then move HL.
    fn ld_3A(&mut self) -> (cycle: u8)
        requires
            old(self).wf(),
        ensures
            final(self).wf(),
            cycle == 8,
            *final(self) == (Cpu {
                a: old(self).bus.spec_read(old(self).spec_hl()),
                h: (((old(self).spec_hl() + 65535) % 65536) as int / 256) as u8,
                l: (((old(self).spec_hl() + 65535) % 65536) % 256) as u8,
                ..*old(self)
            }),
    {
        self.a = self.bus.read(self.get_hl());
        self.decrement_hl();
        8
    }

    /// LDH (a8),A: store A into high memory at 0xFF00 + a8.
    fn ld_E0(&mut self) -> (cycle: u8)
        requires
            old(self).wf(),
        ensures
            final(self).wf(),
            cycle == 12,
            *final(self) == (Cpu {
                pc: ((old(self).pc + 1) % 65536) as u16,
                bus: final(self).bus,
                ..*old(self)
            }),
            old(self).bus.spec_write_effect(
                (0xFF00 + old(self).spec_imm8()) as u16,
                old(self).a,
                final(self).bus,
            ),
    {
        let off = self.read_next_8();
        let address = 0xFF00 + off as u16;
        self.bus.write(address, self.a);
        12
    }

    /// LDH A,(a8): load A from high memory at 0xFF00 + a8.
    fn ld_F0(&mut self) -> (cycle: u8)
        requires
            old(self).wf(),
        ensures
            final(self).wf(),
            cycle == 12,
            *final(self) == (Cpu {
                a: old(self).bus.spec_read((0xFF00 + old(self).spec_imm8()) as u16),
                pc: ((old(self).pc + 1) % 65536) as u16,
                ..*old(self)
            }),
    {
        let off = self.read_next_8();
        let address = 0xFF00 + off as u16;
        self.a = self.bus.read(address);
        12
    }

    /// LD (C),A: store A at 0xFF00 + C.
    fn ld_E2(&mut self) -> (cycle: u8)
        requires
            old(self).wf(),
        ensures
            final(self).wf(),
            cycle == 8,
            *final(self) == (Cpu { bus: final(self).bus, ..*old(self) }),
            old(self).bus.spec_write_effect(
                (0xFF00 + old(self).c) as u16,
                old(self).a,
                final(self).bus,
            ),
    {
        let address = 0xFF00 + self.c as u16;
        self.bus.write(address, self.a);
        8
    }

    /// LD A,(C): load A from 0xFF00 + C.
    fn ld_F2(&mut self) -> (cycle: u8)
        requires
            old(self).wf(),
        ensures
            final(self).wf(),
            cycle == 8,
            *final(self) == (Cpu {
                a: old(self).bus.spec_read((0xFF00 + old(self).c) as u16),
                ..*old(self)
            }),
    {
        let address = 0xFF00 + self.c as u16;
        self.a = self.bus.read(address);
        8
    }

    /// LD (a16),A.
    fn ld_EA(&mut self) -> (cycle: u8)
        requires
            old(self).wf(),
        ensures
            final(self).wf(),
            cycle == 16,
            *final(self) == (Cpu {
                pc: ((old(self).pc + 2) % 65536) as u16,
                bus: final(self).bus,
                ..*old(self)
            }),
            old(self).bus.spec_write_effect(old(self).spec_imm16(), old(self).a, final(self).bus),
    {
        let address = self.read_next_16();
        self.bus.write(address, self.a);
        16
    }

    /// LD A,(a16).
    fn ld_FA(&mut self) -> (cycle: u8)
        requires
            old(self).wf(),
        ensures
            final(self).wf(),
            cycle == 16,
            *final(self) == (Cpu {
                a: old(self).bus.spec_read(old(self).spec_imm16()),
                pc: ((old(self).pc + 2) % 65536) as u16,
                ..*old(self)
            }),
    {
        let address = self.read_next_16();
        self.a = self.bus.read(address);
        16
    }

    /// LD BC,d16.
    fn ld_01(&mut self) -> (cycle: u8)
        requires
            old(self).wf(),
        ensures
            final(self).wf(),
            cycle == 12,
            *final(self) == (Cpu {
                b: (old(self).spec_imm16() as int / 256) as u8,
                c: (old(self).spec_imm16() % 256) as u8,
                pc: ((old(self).pc + 2) % 65536) as u16,
                ..*old(self)
            }),
    {
        let v = self.read_next_16();
        self.b = (v / 256) as u8;
        self.c = (v % 256) as u8;
        12
    }

    /// LD DE,d16.
    fn ld_11(&mut self) -> (cycle: u8)
        requires
            old(self).wf(),
        ensures
            final(self).wf(),
            cycle == 12,
            *final(self) == (Cpu {
                d: (old(self).spec_imm16() as int / 256) as u8,
                e: (old(self).spec_imm16() % 256) as u8,
                pc: ((old(self).pc + 2) % 65536) as u16,
                ..*old(self)
            }),
    {
        let v = self.read_next_16();
        self.d = (v / 256) as u8;
        self.e = (v % 256) as u8;
        12
    }

    /// LD HL,d16.
    fn ld_21(&mut self) -> (cycle: u8)
        requires
            old(self).wf(),
        ensures
            final(self).wf(),
            cycle == 12,
            *final(self) == (Cpu {
                h: (old(self).spec_imm16() as int / 256) as u8,
                l: (old(self).spec_imm16() % 256) as u8,
                pc: ((old(self).pc + 2) % 65536) as u16,
                ..*old(self)
            }),
    {
        let v = self.read_next_16();
        self.h = (v / 256) as u8;
        self.l = (v % 256) as u8;
        12
    }

    /// LD SP,d16.
    fn ld_31(&mut self) -> (cycle: u8)
        requires
            old(self).wf(),
        ensures
            final(self).wf(),
            cycle == 12,
            *final(self) == (Cpu {
                sp: old(self).spec_imm16(),
                pc: ((old(self).pc + 2) % 65536) as u16,
                ..*old(self)
            }),
    {
        let v = self.read_next_16();
        self.sp = v;
        12
    }

    /// LD SP,HL.
    fn ld_F9(&mut self) -> (cycle: u8)
        requires
            old(self).wf(),
        ensures
            final(self).wf(),
            cycle == 8,
            *final(self) == (Cpu { sp: old(self).spec_hl(), ..*old(self) }),
    {
        self.sp = self.get_hl();
        8
    }

    /// LD (a16),SP: store SP's low byte at a16 and high byte right after.
    fn ld_08(&mut self) -> (cycle: u8)
        requires
            old(self).wf(),
        ensures
            final(self).wf(),
            cycle == 20,
            *final(self) == (Cpu {
                pc: ((old(self).pc + 2) % 65536) as u16,
                bus: final(self).bus,
                ..*old(self)
            }),
            exists|mid: Bus|
                old(self).bus.spec_write_effect(
                    old(self).spec_imm16(),
                    (old(self).sp % 256) as u8,
                    mid,
                ) && #[trigger] mid.spec_write_effect(
                    ((old(self).spec_imm16() + 1) % 65536) as u16,
                    (old(self).sp as int / 256) as u8,
                    final(self).bus,
                ),
    {
        let address = self.read_next_16();
        let lo = (self.sp % 256) as u8;
        let hi = (self.sp / 256) as u8;
        self.bus.write(address, lo);
        let address2 = ((address as u32 + 1) % 65536) as u16;
        self.bus.write(address2, hi);
        20
    }

    /// Push a return address and jump: the stack takes the address of the
    /// instruction after this one (PC + 1 at this point), high byte at
    /// SP - 1, low byte at SP - 2.
    #[verifier::rlimit(100)]
    fn base_call(&mut self, address: u16)
        requires
            old(self).wf(),
        ensures
            final(self).wf(),
            *final(self) == (Cpu {
                sp: ((old(self).sp + 65534) % 65536) as u16,
                pc: address,
                jmp_flag: true,
                bus: final(self).bus,
                ..*old(self)
            }),
            exists|mid: Bus|
                old(self).bus.spec_write_effect(
                    ((old(self).sp + 65535) % 65536) as u16,
                    ((((old(self).pc + 1) % 65536)) as int / 256) as u8,
                    mid,
                ) && #[trigger] mid.spec_write_effect(
                    ((old(self).sp + 65534) % 65536) as u16,
                    ((((old(self).pc + 1) % 65536)) % 256) as u8,
                    final(self).bus,
                ),
    {
        let ret_addr = ((self.pc as u32 + 1) % 65536) as u16;
        self.decrement_sp();
        self.bus.write(self.sp, (ret_addr / 256) as u8);
        self.decrement_sp();
        self.bus.write(self.sp, (ret_addr % 256) as u8);
        self.pc = address;
        self.jmp_flag = true;
    }

    /// The interrupt dispatcher's push: the stack takes PC itself.
    #[verifier::rlimit(100)]
    fn int_call(&mut self, address: u16)
        requires
            old(self).wf(),
        ensures
            final(self).wf(),
            *final(self) == (Cpu {
                sp: ((old(self).sp + 65534) % 65536) as u16,
                pc: address,
                bus: final(self).bus,
                ..*old(self)
            }),
            exists|mid: Bus|
                old(self).bus.spec_write_effect(
                    ((old(self).sp + 65535) % 65536) as u16,
                    (old(self).pc as int / 256) as u8,
                    mid,
                ) && #[trigger] mid.spec_write_effect(
                    ((old(self).sp + 65534) % 65536) as u16,
                    (old(self).pc % 256) as u8,
                    final(self).bus,
                ),
    {
        let ret_addr = self.pc;
        self.decrement_sp();
        self.bus.write(self.sp, (ret_addr / 256) as u8);
        self.decrement_sp();
        self.bus.write(self.sp, (ret_addr % 256) as u8);
        self.pc = address;
    }

    /// What RET pops into PC: the word at SP, low byte first.
    pub open spec fn spec_stack_top(self) -> u16 {
        (self.bus.spec_read(((self.sp + 1) % 65536) as u16) * 256 + self.bus.spec_read(
            self.sp,
        )) as u16
    }

    /// RET: pop the return address into PC.
    fn ret(&mut self) -> (cycle: u8)
        requires
            old(self).wf(),
        ensures
            final(self).wf(),
            cycle == 16,
            *final(self) == (Cpu {
                pc: old(self).spec_stack_top(),
                sp: ((old(self).sp + 2) % 65536) as u16,
                jmp_flag: true,
                ..*old(self)
            }),
    {
        let lo = self.bus.read(self.sp);
        let hi = self.bus.read(((self.sp as u32 + 1) % 65536) as u16);
        self.pc = hi as u16 * 256 + lo as u16;
        self.jmp_flag = true;
        self.increment_sp();
        self.increment_sp();
        proof {
            let p = old(self).sp as int;
            assert(((p + 1) % 65536 + 1) % 65536 == (p + 2) % 65536) by (nonlinear_arith)
                requires
                    0 <= p < 65536,
            ;
        }
        16
    }

    /// RETI: RET, with IME re-enabled at once.
    fn reti(&mut self) -> (cycle: u8)
        requires
            old(self).wf(),
        ensures
            final(self).wf(),
            cycle == 16,
            *final(self) == (Cpu {
                pc: old(self).spec_stack_top(),
                sp: ((old(self).sp + 2) % 65536) as u16,
                jmp_flag: true,
                ime: true,
                ..*old(self)
            }),
    {
        let lo = self.bus.read(self.sp);
        let hi = self.bus.read(((self.sp as u32 + 1) % 65536) as u16);
        self.pc = hi as u16 * 256 + lo as u16;
        self.jmp_flag = true;
        self.increment_sp();
        self.increment_sp();
        self.ime = true;
        proof {
            let p = old(self).sp as int;
            assert(((p + 1) % 65536 + 1) % 65536 == (p + 2) % 65536) by (nonlinear_arith)
                requires
                    0 <= p < 65536,
            ;
        }
        16
    }

    /// RET C: pop into PC only when the condition holds.
    fn ret_c(&mut self) -> (cycle: u8)
        requires
            old(self).wf(),
        ensures
            final(self).wf(),
            old(self).spec_cf() ==> cycle == 20 && *final(self) == (Cpu {
                pc: old(self).spec_stack_top(),
                sp: ((old(self).sp + 2) % 65536) as u16,
                jmp_flag: true,
                ..*old(self)
            }),
            !(old(self).spec_cf()) ==> cycle == 8 && *final(self) == *old(self),
    {
        let taken = self.get_carry_flag();
        if taken {
            let lo = self.bus.read(self.sp);
            let hi = self.bus.read(((self.sp as u32 + 1) % 65536) as u16);
            self.pc = hi as u16 * 256 + lo as u16;
            self.jmp_flag = true;
            self.increment_sp();
            self.increment_sp();
            proof {
                let p = old(self).sp as int;
                assert(((p + 1) % 65536 + 1) % 65536 == (p + 2) % 65536) by (nonlinear_arith)
                    requires
                        0 <= p < 65536,
                ;
            }
            20
        } else {
            8
        }
    }

    /// RET NC: pop into PC only when the condition holds.
    fn ret_nc(&mut self) -> (cycle: u8)
        requires
            old(self).wf(),
        ensures
            final(self).wf(),
            !old(self).spec_cf() ==> cycle == 20 && *final(self) == (Cpu {
                pc: old(self).spec_stack_top(),
                sp: ((old(self).sp + 2) % 65536) as u16,
                jmp_flag: true,
                ..*old(self)
            }),
            !(!old(self).spec_cf()) ==> cycle == 8 && *final(self) == *old(self),
    {
        let taken = !self.get_carry_flag();
        if taken {
            let lo = self.bus.read(self.sp);
            let hi = self.bus.read(((self.sp as u32 + 1) % 65536) as u16);
            self.pc = hi as u16 * 256 + lo as u16;
            self.jmp_flag = true;
            self.increment_sp();
            self.increment_sp();
            proof {
                let p = old(self).sp as int;
                assert(((p + 1) % 65536 + 1) % 65536 == (p + 2) % 65536) by (nonlinear_arith)
                    requires
                        0 <= p < 65536,
                ;
            }
            20
        } else {
            8
        }
    }

    /// RET Z: pop into PC only when the condition holds.
    fn ret_z(&mut self) -> (cycle: u8)
        requires
            old(self).wf(),
        ensures
            final(self).wf(),
            old(self).spec_zf() ==> cycle == 20 && *final(self) == (Cpu {
                pc: old(self).spec_stack_top(),
                sp: ((old(self).sp + 2) % 65536) as u16,
                jmp_flag: true,
                ..*old(self)
            }),
            !(old(self).spec_zf()) ==> cycle == 8 && *final(self) == *old(self),
    {
        let taken = self.get_zero_flag();
        if taken {
            let lo = self.bus.read(self.sp);
            let hi = self.bus.read(((self.sp as u32 + 1) % 65536) as u16);
            self.pc = hi as u16 * 256 + lo as u16;
            self.jmp_flag = true;
            self.increment_sp();
            self.increment_sp();
            proof {
                let p = old(self).sp as int;
                assert(((p + 1) % 65536 + 1) % 65536 == (p + 2) % 65536) by (nonlinear_arith)
                    requires
                        0 <= p < 65536,
                ;
            }
            20
        } else {
            8
        }
    }

    /// RET NZ: pop into PC only when the condition holds.
    fn ret_nz(&mut self) -> (cycle: u8)
        requires
            old(self).wf(),
        ensures
            final(self).wf(),
            !old(self).spec_zf() ==> cycle == 20 && *final(self) == (Cpu {
                pc: old(self).spec_stack_top(),
                sp: ((old(self).sp + 2) % 65536) as u16,
                jmp_flag: true,
                ..*old(self)
            }),
            !(!old(self).spec_zf()) ==> cycle == 8 && *final(self) == *old(self),
    {
        let taken = !self.get_zero_flag();
        if taken {
            let lo = self.bus.read(self.sp);
            let hi = self.bus.read(((self.sp as u32 + 1) % 65536) as u16);
            self.pc = hi as u16 * 256 + lo as u16;
            self.jmp_flag = true;
            self.increment_sp();
            self.increment_sp();
            proof {
                let p = old(self).sp as int;
                assert(((p + 1) % 65536 + 1) % 65536 == (p + 2) % 65536) by (nonlinear_arith)
                    requires
                        0 <= p < 65536,
                ;
            }
            20
        } else {
            8
        }
    }

    /// JP a16.
    fn jp(&mut self) -> (cycle: u8)
        requires
            old(self).wf(),
        ensures
            final(self).wf(),
            cycle == 16,
            *final(self) == (Cpu {
                pc: old(self).spec_imm16(),
                jmp_flag: true,
                ..*old(self)
            }),
    {
        let address = self.read_next_16();
        self.pc = address;
        self.jmp_flag = true;
        16
    }

    /// JP HL.
    fn jp_hl(&mut self) -> (cycle: u8)
        requires
            old(self).wf(),
        ensures
            final(self).wf(),
            cycle == 4,
            *final(self) == (Cpu { pc: old(self).spec_hl(), jmp_flag: true, ..*old(self) }),
    {
        self.pc = self.get_hl();
        self.jmp_flag = true;
        4
    }

    /// JP C,a16: jump only when the condition holds; the immediate is
    /// consumed either way.
    fn jp_c(&mut self) -> (cycle: u8)
        requires
            old(self).wf(),
        ensures
            final(self).wf(),
            old(self).spec_cf() ==> cycle == 16 && *final(self) == (Cpu {
                pc: old(self).spec_imm16(),
                jmp_flag: true,
                ..*old(self)
            }),
            !(old(self).spec_cf()) ==> cycle == 12 && *final(self) == (Cpu {
                pc: ((old(self).pc + 2) % 65536) as u16,
                ..*old(self)
            }),
    {
        let address = self.read_next_16();
        let taken = self.get_carry_flag();
        if taken {
            self.pc = address;
            self.jmp_flag = true;
            16
        } else {
            12
        }
    }

    /// JP NC,a16: jump only when the condition holds; the immediate is
    /// consumed either way.
    fn jp_nc(&mut self) -> (cycle: u8)
        requires
            old(self).wf(),
        ensures
            final(self).wf(),
            !old(self).spec_cf() ==> cycle == 16 && *final(self) == (Cpu {
                pc: old(self).spec_imm16(),
                jmp_flag: true,
                ..*old(self)
            }),
            !(!old(self).spec_cf()) ==> cycle == 12 && *final(self) == (Cpu {
                pc: ((old(self).pc + 2) % 65536) as u16,
                ..*old(self)
            }),
    {
        let address = self.read_next_16();
        let taken = !self.get_carry_flag();
        if taken {
            self.pc = address;
            self.jmp_flag = true;
            16
        } else {
            12
        }
    }

    /// JP Z,a16: jump only when the condition holds; the immediate is
    /// consumed either way.
    fn jp_z(&mut self) -> (cycle: u8)
        requires
            old(self).wf(),
        ensures
            final(self).wf(),
            old(self).spec_zf() ==> cycle == 16 && *final(self) == (Cpu {
                pc: old(self).spec_imm16(),
                jmp_flag: true,
                ..*old(self)
            }),
            !(old(self).spec_zf()) ==> cycle == 12 && *final(self) == (Cpu {
                pc: ((old(self).pc + 2) % 65536) as u16,
                ..*old(self)
            }),
    {
        let address = self.read_next_16();
        let taken = self.get_zero_flag();
        if taken {
            self.pc = address;
            self.jmp_flag = true;
            16
        } else {
            12
        }
    }

    /// JP NZ,a16: jump only when the condition holds; the immediate is
    /// consumed either way.
    fn jp_nz(&mut self) -> (cycle: u8)
        requires
            old(self).wf(),
        ensures
            final(self).wf(),
            !old(self).spec_zf() ==> cycle == 16 && *final(self) == (Cpu {
                pc: old(self).spec_imm16(),
                jmp_flag: true,
                ..*old(self)
            }),
            !(!old(self).spec_zf()) ==> cycle == 12 && *final(self) == (Cpu {
                pc: ((old(self).pc + 2) % 65536) as u16,
                ..*old(self)
            }),
    {
        let address = self.read_next_16();
        let taken = !self.get_zero_flag();
        if taken {
            self.pc = address;
            self.jmp_flag = true;
            16
        } else {
            12
        }
    }

    /// The JR target: the instruction after the offset byte, moved by the
    /// signed offset.
    pub open spec fn spec_jr_target(self) -> u16 {
        let base = (self.pc + 2) % 65536;
        let off = self.spec_imm8();
        if off < 128 {
            ((base + off) % 65536) as u16
        } else {
            ((base + off + 65280) % 65536) as u16
        }
    }

    /// JR e8.
    fn jr(&mut self) -> (cycle: u8)
        requires
            old(self).wf(),
        ensures
            final(self).wf(),
            cycle == 12,
            *final(self) == (Cpu {
                pc: old(self).spec_jr_target(),
                jmp_flag: true,
                ..*old(self)
            }),
    {
        let off = self.read_next_8();
        let base = ((self.pc as u32 + 1) % 65536) as u16;
        let target: u16 = if off < 128 {
            ((base as u32 + off as u32) % 65536) as u16
        } else {
            ((base as u32 + off as u32 + 65280) % 65536) as u16
        };
        proof {
            let p = old(self).pc as int;
            let offv = old(self).spec_imm8() as int;
            assert(((p + 1) % 65536 + 1) % 65536 == (p + 2) % 65536) by (nonlinear_arith)
                requires
                    0 <= p < 65536,
            ;
            assert((((p + 2) % 65536) + offv) % 65536 == (((p + 2) % 65536 + offv)) % 65536);
            assert(((p + 2) % 65536 + offv) % 65536 == ((p + 2) % 65536 + offv) % 65536);
        }
        self.pc = target;
        self.jmp_flag = true;
        12
    }

    /// JR C,e8: relative jump only when the condition holds; the offset is
    /// consumed either way.
    fn jr_c(&mut self) -> (cycle: u8)
        requires
            old(self).wf(),
        ensures
            final(self).wf(),
            old(self).spec_cf() ==> cycle == 12 && *final(self) == (Cpu {
                pc: old(self).spec_jr_target(),
                jmp_flag: true,
                ..*old(self)
            }),
            !(old(self).spec_cf()) ==> cycle == 8 && *final(self) == (Cpu {
                pc: ((old(self).pc + 1) % 65536) as u16,
                ..*old(self)
            }),
    {
        let off = self.read_next_8();
        let taken = self.get_carry_flag();
        if taken {
            let base = ((self.pc as u32 + 1) % 65536) as u16;
            let target: u16 = if off < 128 {
                ((base as u32 + off as u32) % 65536) as u16
            } else {
                ((base as u32 + off as u32 + 65280) % 65536) as u16
            };
            proof {
                let p = old(self).pc as int;
                assert(((p + 1) % 65536 + 1) % 65536 == (p + 2) % 65536) by (nonlinear_arith)
                    requires
                        0 <= p < 65536,
                ;
            }
            self.pc = target;
            self.jmp_flag = true;
            12
        } else {
            8
        }
    }

    /// JR NC,e8: relative jump only when the condition holds; the offset is
    /// consumed either way.
    fn jr_nc(&mut self) -> (cycle: u8)
        requires
            old(self).wf(),
        ensures
            final(self).wf(),
            !old(self).spec_cf() ==> cycle == 12 && *final(self) == (Cpu {
                pc: old(self).spec_jr_target(),
                jmp_flag: true,
                ..*old(self)
            }),
            !(!old(self).spec_cf()) ==> cycle == 8 && *final(self) == (Cpu {
                pc: ((old(self).pc + 1) % 65536) as u16,
                ..*old(self)
            }),
    {
        let off = self.read_next_8();
        let taken = !self.get_carry_flag();
        if taken {
            let base = ((self.pc as u32 + 1) % 65536) as u16;
            let target: u16 = if off < 128 {
                ((base as u32 + off as u32) % 65536) as u16
            } else {
                ((base as u32 + off as u32 + 65280) % 65536) as u16
            };
            proof {
                let p = old(self).pc as int;
                assert(((p + 1) % 65536 + 1) % 65536 == (p + 2) % 65536) by (nonlinear_arith)
                    requires
                        0 <= p < 65536,
                ;
            }
            self.pc = target;
            self.jmp_flag = true;
            12
        } else {
            8
        }
    }

    /// JR Z,e8: relative jump only when the condition holds; the offset is
    /// consumed either way.
    fn jr_z(&mut self) -> (cycle: u8)
        requires
            old(self).wf(),
        ensures
            final(self).wf(),
            old(self).spec_zf() ==> cycle == 12 && *final(self) == (Cpu {
                pc: old(self).spec_jr_target(),
                jmp_flag: true,
                ..*old(self)
            }),
            !(old(self).spec_zf()) ==> cycle == 8 && *final(self) == (Cpu {
                pc: ((old(self).pc + 1) % 65536) as u16,
                ..*old(self)
            }),
    {
        let off = self.read_next_8();
        let taken = self.get_zero_flag();
        if taken {
            let base = ((self.pc as u32 + 1) % 65536) as u16;
            let target: u16 = if off < 128 {
                ((base as u32 + off as u32) % 65536) as u16
            } else {
                ((base as u32 + off as u32 + 65280) % 65536) as u16
            };
            proof {
                let p = old(self).pc as int;
                assert(((p + 1) % 65536 + 1) % 65536 == (p + 2) % 65536) by (nonlinear_arith)
                    requires
                        0 <= p < 65536,
                ;
            }
            self.pc = target;
            self.jmp_flag = true;
            12
        } else {
            8
        }
    }

    /// JR NZ,e8: relative jump only when the condition holds; the offset is
    /// consumed either way.
    fn jr_nz(&mut self) -> (cycle: u8)
        requires
            old(self).wf(),
        ensures
            final(self).wf(),
            !old(self).spec_zf() ==> cycle == 12 && *final(self) == (Cpu {
                pc: old(self).spec_jr_target(),
                jmp_flag: true,
                ..*old(self)
            }),
            !(!old(self).spec_zf()) ==> cycle == 8 && *final(self) == (Cpu {
                pc: ((old(self).pc + 1) % 65536) as u16,
                ..*old(self)
            }),
    {
        let off = self.read_next_8();
        let taken = !self.get_zero_flag();
        if taken {
            let base = ((self.pc as u32 + 1) % 65536) as u16;
            let target: u16 = if off < 128 {
                ((base as u32 + off as u32) % 65536) as u16
            } else {
                ((base as u32 + off as u32 + 65280) % 65536) as u16
            };
            proof {
                let p = old(self).pc as int;
                assert(((p + 1) % 65536 + 1) % 65536 == (p + 2) % 65536) by (nonlinear_arith)
                    requires
                        0 <= p < 65536,
                ;
            }
            self.pc = target;
            self.jmp_flag = true;
            12
        } else {
            8
        }
    }

    /// CALL a16: the address of the instruction after the immediate goes
    /// onto the stack, high byte at SP - 1, low byte at SP - 2.
    fn call(&mut self) -> (cycle: u8)
        requires
            old(self).wf(),
        ensures
            final(self).wf(),
            cycle == 24,
            final(self).pc == old(self).spec_imm16(),
            final(self).sp == ((old(self).sp + 65534) % 65536) as u16,
            *final(self) == (Cpu {
                sp: final(self).sp,
                pc: final(self).pc,
                jmp_flag: true,
                bus: final(self).bus,
                ..*old(self)
            }),
            exists|mid: Bus|
                old(self).bus.spec_write_effect(
                    ((old(self).sp + 65535) % 65536) as u16,
                    ((((old(self).pc + 3) % 65536)) as int / 256) as u8,
                    mid,
                ) && #[trigger] mid.spec_write_effect(
                    ((old(self).sp + 65534) % 65536) as u16,
                    ((((old(self).pc + 3) % 65536)) % 256) as u8,
                    final(self).bus,
                ),
    {
        let address = self.read_next_16();
        proof {
            let p = old(self).pc as int;
            assert(((p + 2) % 65536 + 1) % 65536 == (p + 3) % 65536) by (nonlinear_arith)
                requires
                    0 <= p < 65536,
            ;
        }
        self.base_call(address);
        24
    }

    /// CALL C,a16: call only when the condition holds; the immediate is
    /// consumed either way.
    fn call_c(&mut self) -> (cycle: u8)
        requires
            old(self).wf(),
        ensures
            final(self).wf(),
            old(self).spec_cf() ==> cycle == 24 && final(self).pc == old(self).spec_imm16()
                && final(self).sp == ((old(self).sp + 65534) % 65536) as u16 && *final(self) == (Cpu {
                sp: final(self).sp,
                pc: final(self).pc,
                jmp_flag: true,
                bus: final(self).bus,
                ..*old(self)
            }) && (exists|mid: Bus|
                old(self).bus.spec_write_effect(
                    ((old(self).sp + 65535) % 65536) as u16,
                    ((((old(self).pc + 3) % 65536)) as int / 256) as u8,
                    mid,
                ) && #[trigger] mid.spec_write_effect(
                    ((old(self).sp + 65534) % 65536) as u16,
                    ((((old(self).pc + 3) % 65536)) % 256) as u8,
                    final(self).bus,
                )),
            !(old(self).spec_cf()) ==> cycle == 12 && *final(self) == (Cpu {
                pc: ((old(self).pc + 2) % 65536) as u16,
                ..*old(self)
            }),
    {
        let address = self.read_next_16();
        let taken = self.get_carry_flag();
        if taken {
            proof {
                let p = old(self).pc as int;
                assert(((p + 2) % 65536 + 1) % 65536 == (p + 3) % 65536) by (nonlinear_arith)
                    requires
                        0 <= p < 65536,
                ;
            }
            self.base_call(address);
            24
        } else {
            12
        }
    }

    /// CALL NC,a16: call only when the condition holds; the immediate is
    /// consumed either way.
    fn call_nc(&mut self) -> (cycle: u8)
        requires
            old(self).wf(),
        ensures
            final(self).wf(),
            !old(self).spec_cf() ==> cycle == 24 && final(self).pc == old(self).spec_imm16()
                && final(self).sp == ((old(self).sp + 65534) % 65536) as u16 && *final(self) == (Cpu {
                sp: final(self).sp,
                pc: final(self).pc,
                jmp_flag: true,
                bus: final(self).bus,
                ..*old(self)
            }) && (exists|mid: Bus|
                old(self).bus.spec_write_effect(
                    ((old(self).sp + 65535) % 65536) as u16,
                    ((((old(self).pc + 3) % 65536)) as int / 256) as u8,
                    mid,
                ) && #[trigger] mid.spec_write_effect(
                    ((old(self).sp + 65534) % 65536) as u16,
                    ((((old(self).pc + 3) % 65536)) % 256) as u8,
                    final(self).bus,
                )),
            !(!old(self).spec_cf()) ==> cycle == 12 && *final(self) == (Cpu {
                pc: ((old(self).pc + 2) % 65536) as u16,
                ..*old(self)
            }),
    {
        let address = self.read_next_16();
        let taken = !self.get_carry_flag();
        if taken {
            proof {
                let p = old(self).pc as int;
                assert(((p + 2) % 65536 + 1) % 65536 == (p + 3) % 65536) by (nonlinear_arith)
                    requires
                        0 <= p < 65536,
                ;
            }
            self.base_call(address);
            24
        } else {
            12
        }
    }

    /// CALL Z,a16: call only when the condition holds; the immediate is
    /// consumed either way.
    fn call_z(&mut self) -> (cycle: u8)
        requires
            old(self).wf(),
        ensures
            final(self).wf(),
            old(self).spec_zf() ==> cycle == 24 && final(self).pc == old(self).spec_imm16()
                && final(self).sp == ((old(self).sp + 65534) % 65536) as u16 && *final(self) == (Cpu {
                sp: final(self).sp,
                pc: final(self).pc,
                jmp_flag: true,
                bus: final(self).bus,
                ..*old(self)
            }) && (exists|mid: Bus|
                old(self).bus.spec_write_effect(
                    ((old(self).sp + 65535) % 65536) as u16,
                    ((((old(self).pc + 3) % 65536)) as int / 256) as u8,
                    mid,
                ) && #[trigger] mid.spec_write_effect(
                    ((old(self).sp + 65534) % 65536) as u16,
                    ((((old(self).pc + 3) % 65536)) % 256) as u8,
                    final(self).bus,
                )),
            !(old(self).spec_zf()) ==> cycle == 12 && *final(self) == (Cpu {
                pc: ((old(self).pc + 2) % 65536) as u16,
                ..*old(self)
            }),
    {
        let address = self.read_next_16();
        let taken = self.get_zero_flag();
        if taken {
            proof {
                let p = old(self).pc as int;
                assert(((p + 2) % 65536 + 1) % 65536 == (p + 3) % 65536) by (nonlinear_arith)
                    requires
                        0 <= p < 65536,
                ;
            }
            self.base_call(address);
            24
        } else {
            12
        }
    }

    /// CALL NZ,a16: call only when the condition holds; the immediate is
    /// consumed either way.
    fn call_nz(&mut self) -> (cycle: u8)
        requires
            old(self).wf(),
        ensures
            final(self).wf(),
            !old(self).spec_zf() ==> cycle == 24 && final(self).pc == old(self).spec_imm16()
                && final(self).sp == ((old(self).sp + 65534) % 65536) as u16 && *final(self) == (Cpu {
                sp: final(self).sp,
                pc: final(self).pc,
                jmp_flag: true,
                bus: final(self).bus,
                ..*old(self)
            }) && (exists|mid: Bus|
                old(self).bus.spec_write_effect(
                    ((old(self).sp + 65535) % 65536) as u16,
                    ((((old(self).pc + 3) % 65536)) as int / 256) as u8,
                    mid,
                ) && #[trigger] mid.spec_write_effect(
                    ((old(self).sp + 65534) % 65536) as u16,
                    ((((old(self).pc + 3) % 65536)) % 256) as u8,
                    final(self).bus,
                )),
            !(!old(self).spec_zf()) ==> cycle == 12 && *final(self) == (Cpu {
                pc: ((old(self).pc + 2) % 65536) as u16,
                ..*old(self)
            }),
    {
        let address = self.read_next_16();
        let taken = !self.get_zero_flag();
        if taken {
            proof {
                let p = old(self).pc as int;
                assert(((p + 2) % 65536 + 1) % 65536 == (p + 3) % 65536) by (nonlinear_arith)
                    requires
                        0 <= p < 65536,
                ;
            }
            self.base_call(address);
            24
        } else {
            12
        }
    }

    /// The fixed target of each RST opcode.
    pub open spec fn spec_rst_target(code: u8) -> u16 {
        if code == 0xC7 {
            0x00
        } else if code == 0xCF {
            0x08
        } else if code == 0xD7 {
            0x10
        } else if code == 0xDF {
            0x18
        } else if code == 0xE7 {
            0x20
        } else if code == 0xEF {
            0x28
        } else if code == 0xF7 {
            0x30
        } else {
            0x38
        }
    }

    /// RST: push the next instruction's address and jump to the opcode's
    /// fixed vector.
    fn rst(&mut self, code: u8) -> (cycle: u8)
        requires
            old(self).wf(),
            code == 0xC7 || code == 0xCF || code == 0xD7 || code == 0xDF || code == 0xE7
                || code == 0xEF || code == 0xF7 || code == 0xFF,
        ensures
            final(self).wf(),
            cycle == 16,
            final(self).pc == Self::spec_rst_target(code),
            final(self).sp == ((old(self).sp + 65534) % 65536) as u16,
            *final(self) == (Cpu {
                sp: final(self).sp,
                pc: final(self).pc,
                jmp_flag: true,
                bus: final(self).bus,
                ..*old(self)
            }),
            exists|mid: Bus|
                old(self).bus.spec_write_effect(
                    ((old(self).sp + 65535) % 65536) as u16,
                    ((((old(self).pc + 1) % 65536)) as int / 256) as u8,
                    mid,
                ) && #[trigger] mid.spec_write_effect(
                    ((old(self).sp + 65534) % 65536) as u16,
                    ((((old(self).pc + 1) % 65536)) % 256) as u8,
                    final(self).bus,
                ),
    {
        let address: u16 = if code == 0xC7 {
            0x00
        } else if code == 0xCF {
            0x08
        } else if code == 0xD7 {
            0x10
        } else if code == 0xDF {
            0x18
        } else if code == 0xE7 {
            0x20
        } else if code == 0xEF {
            0x28
        } else if code == 0xF7 {
            0x30
        } else {
            0x38
        };
        self.base_call(address);
        16
    }

    /// PUSH BC: high byte at SP - 1, low byte at SP - 2.
    #[verifier::rlimit(60)]
    fn push_C5(&mut self) -> (cycle: u8)
        requires
            old(self).wf(),
        ensures
            final(self).wf(),
            cycle == 16,
            *final(self) == (Cpu {
                sp: ((old(self).sp + 65534) % 65536) as u16,
                bus: final(self).bus,
                ..*old(self)
            }),
            exists|mid: Bus|
                old(self).bus.spec_write_effect(
                    ((old(self).sp + 65535) % 65536) as u16,
                    old(self).b,
                    mid,
                ) && #[trigger] mid.spec_write_effect(
                    ((old(self).sp + 65534) % 65536) as u16,
                    old(self).c,
                    final(self).bus,
                ),
    {
        self.decrement_sp();
        let hi = self.b;
        self.bus.write(self.sp, hi);
        self.decrement_sp();
        let lo = self.c;
        self.bus.write(self.sp, lo);
        16
    }

    /// PUSH DE: high byte at SP - 1, low byte at SP - 2.
    #[verifier::rlimit(60)]
    fn push_D5(&mut self) -> (cycle: u8)
        requires
            old(self).wf(),
        ensures
            final(self).wf(),
            cycle == 16,
            *final(self) == (Cpu {
                sp: ((old(self).sp + 65534) % 65536) as u16,
                bus: final(self).bus,
                ..*old(self)
            }),
            exists|mid: Bus|
                old(self).bus.spec_write_effect(
                    ((old(self).sp + 65535) % 65536) as u16,
                    old(self).d,
                    mid,
                ) && #[trigger] mid.spec_write_effect(
                    ((old(self).sp + 65534) % 65536) as u16,
                    old(self).e,
                    final(self).bus,
                ),
    {
        self.decrement_sp();
        let hi = self.d;
        self.bus.write(self.sp, hi);
        self.decrement_sp();
        let lo = self.e;
        self.bus.write(self.sp, lo);
        16
    }

    /// PUSH HL: high byte at SP - 1, low byte at SP - 2.
    #[verifier::rlimit(60)]
    fn push_E5(&mut self) -> (cycle: u8)
        requires
            old(self).wf(),
        ensures
            final(self).wf(),
            cycle == 16,
            *final(self) == (Cpu {
                sp: ((old(self).sp + 65534) % 65536) as u16,
                bus: final(self).bus,
                ..*old(self)
            }),
            exists|mid: Bus|
                old(self).bus.spec_write_effect(
                    ((old(self).sp + 65535) % 65536) as u16,
                    old(self).h,
                    mid,
                ) && #[trigger] mid.spec_write_effect(
                    ((old(self).sp + 65534) % 65536) as u16,
                    old(self).l,
                    final(self).bus,
                ),
    {
        self.decrement_sp();
        let hi = self.h;
        self.bus.write(self.sp, hi);
        self.decrement_sp();
        let lo = self.l;
        self.bus.write(self.sp, lo);
        16
    }

    /// PUSH AF: the flag byte goes out with its low nibble zero.
    #[verifier::rlimit(60)]
    fn push_F5(&mut self) -> (cycle: u8)
        requires
            old(self).wf(),
        ensures
            final(self).wf(),
            cycle == 16,
            *final(self) == (Cpu {
                sp: ((old(self).sp + 65534) % 65536) as u16,
                bus: final(self).bus,
                ..*old(self)
            }),
            exists|mid: Bus|
                old(self).bus.spec_write_effect(
                    ((old(self).sp + 65535) % 65536) as u16,
                    old(self).a,
                    mid,
                ) && #[trigger] mid.spec_write_effect(
                    ((old(self).sp + 65534) % 65536) as u16,
                    old(self).f,
                    final(self).bus,
                ),
    {
        self.decrement_sp();
        let hi = self.a;
        self.bus.write(self.sp, hi);
        self.decrement_sp();
        let lo = self.f;
        self.bus.write(self.sp, lo);
        16
    }

    /// POP BC: low byte from SP, high byte from SP + 1.
    fn pop_C1(&mut self) -> (cycle: u8)
        requires
            old(self).wf(),
        ensures
            final(self).wf(),
            cycle == 12,
            *final(self) == (Cpu {
                b: old(self).bus.spec_read(((old(self).sp + 1) % 65536) as u16),
                c: old(self).bus.spec_read(old(self).sp),
                sp: ((old(self).sp + 2) % 65536) as u16,
                ..*old(self)
            }),
    {
        let lo = self.bus.read(self.sp);
        let hi = self.bus.read(((self.sp as u32 + 1) % 65536) as u16);
        self.c = lo;
        self.b = hi;
        self.increment_sp();
        self.increment_sp();
        proof {
            let p = old(self).sp as int;
            assert(((p + 1) % 65536 + 1) % 65536 == (p + 2) % 65536) by (nonlinear_arith)
                requires
                    0 <= p < 65536,
            ;
        }
        12
    }

    /// POP DE: low byte from SP, high byte from SP + 1.
    fn pop_D1(&mut self) -> (cycle: u8)
        requires
            old(self).wf(),
        ensures
            final(self).wf(),
            cycle == 12,
            *final(self) == (Cpu {
                d: old(self).bus.spec_read(((old(self).sp + 1) % 65536) as u16),
                e: old(self).bus.spec_read(old(self).sp),
                sp: ((old(self).sp + 2) % 65536) as u16,
                ..*old(self)
            }),
    {
        let lo = self.bus.read(self.sp);
        let hi = self.bus.read(((self.sp as u32 + 1) % 65536) as u16);
        self.e = lo;
        self.d = hi;
        self.increment_sp();
        self.increment_sp();
        proof {
            let p = old(self).sp as int;
            assert(((p + 1) % 65536 + 1) % 65536 == (p + 2) % 65536) by (nonlinear_arith)
                requires
                    0 <= p < 65536,
            ;
        }
        12
    }

    /// POP HL: low byte from SP, high byte from SP + 1.
    fn pop_E1(&mut self) -> (cycle: u8)
        requires
            old(self).wf(),
        ensures
            final(self).wf(),
            cycle == 12,
            *final(self) == (Cpu {
                h: old(self).bus.spec_read(((old(self).sp + 1) % 65536) as u16),
                l: old(self).bus.spec_read(old(self).sp),
                sp: ((old(self).sp + 2) % 65536) as u16,
                ..*old(self)
            }),
    {
        let lo = self.bus.read(self.sp);
        let hi = self.bus.read(((self.sp as u32 + 1) % 65536) as u16);
        self.l = lo;
        self.h = hi;
        self.increment_sp();
        self.increment_sp();
        proof {
            let p = old(self).sp as int;
            assert(((p + 1) % 65536 + 1) % 65536 == (p + 2) % 65536) by (nonlinear_arith)
                requires
                    0 <= p < 65536,
            ;
        }
        12
    }

    /// POP AF: the low nibble of the popped flag byte reads back as zero.
    fn pop_F1(&mut self) -> (cycle: u8)
        requires
            old(self).wf(),
        ensures
            final(self).wf(),
            cycle == 12,
            *final(self) == (Cpu {
                a: old(self).bus.spec_read(((old(self).sp + 1) % 65536) as u16),
                f: (old(self).bus.spec_read(old(self).sp) as int / 16 * 16) as u8,
                sp: ((old(self).sp + 2) % 65536) as u16,
                ..*old(self)
            }),
            final(self).f % 16 == 0,
    {
        let lo = self.bus.read(self.sp);
        let hi = self.bus.read(((self.sp as u32 + 1) % 65536) as u16);
        self.f = lo / 16 * 16;
        self.a = hi;
        self.increment_sp();
        self.increment_sp();
        proof {
            let p = old(self).sp as int;
            assert(((p + 1) % 65536 + 1) % 65536 == (p + 2) % 65536) by (nonlinear_arith)
                requires
                    0 <= p < 65536,
            ;
        }
        12
    }

    /// Whether a CB opcode's operand is the byte at (HL).
    pub open spec fn spec_is_hl_op(code: u8) -> bool {
        code % 8 == 6
    }

    /// The register a CB opcode's low three bits select (not (HL)).
    pub open spec fn spec_reg_operand(self, code: u8) -> u8 {
        let k = code % 8;
        if k == 0 {
            self.b
        } else if k == 1 {
            self.c
        } else if k == 2 {
            self.d
        } else if k == 3 {
            self.e
        } else if k == 4 {
            self.h
        } else if k == 5 {
            self.l
        } else {
            self.a
        }
    }

    /// The CB operand: the selected register, or the byte at (HL).
    pub open spec fn spec_cb_operand(self, code: u8) -> u8 {
        if Self::spec_is_hl_op(code) {
            self.bus.spec_read(self.spec_hl())
        } else {
            self.spec_reg_operand(code)
        }
    }

    /// The CPU with the register a CB opcode selects replaced by `v`.
    pub open spec fn spec_with_reg(self, code: u8, v: u8) -> Cpu {
        let k = code % 8;
        if k == 0 {
            Cpu { b: v, ..self }
        } else if k == 1 {
            Cpu { c: v, ..self }
        } else if k == 2 {
            Cpu { d: v, ..self }
        } else if k == 3 {
            Cpu { e: v, ..self }
        } else if k == 4 {
            Cpu { h: v, ..self }
        } else if k == 5 {
            Cpu { l: v, ..self }
        } else if k == 7 {
            Cpu { a: v, ..self }
        } else {
            self
        }
    }

    /// The CB operand as the value-or-address pair the executor works on:
    /// the register's value with `true`, or HL with `false` for a memory
    /// operand.
    fn opcode_to_read_registers(&self, code: u8) -> (r: (u16, bool))
        ensures
            Self::spec_is_hl_op(code) ==> r == (self.spec_hl(), false),
            !Self::spec_is_hl_op(code) ==> r == (self.spec_reg_operand(code) as u16, true),
    {
        let k = code % 8;
        if k == 0 {
            (self.b as u16, true)
        } else if k == 1 {
            (self.c as u16, true)
        } else if k == 2 {
            (self.d as u16, true)
        } else if k == 3 {
            (self.e as u16, true)
        } else if k == 4 {
            (self.h as u16, true)
        } else if k == 5 {
            (self.l as u16, true)
        } else if k == 6 {
            (self.get_hl(), false)
        } else {
            (self.a as u16, true)
        }
    }

    /// Store a CB result back into the selected register (memory operands
    /// are written by the caller).
    fn opcode_to_write_registers(&mut self, code: u8, data: u8)
        ensures
            *final(self) == old(self).spec_with_reg(code, data),
    {
        let k = code % 8;
        if k == 0 {
            self.b = data;
        } else if k == 1 {
            self.c = data;
        } else if k == 2 {
            self.d = data;
        } else if k == 3 {
            self.e = data;
        } else if k == 4 {
            self.h = data;
        } else if k == 5 {
            self.l = data;
        } else if k == 7 {
            self.a = data;
        }
    }

    /// The bit index a BIT/RES/SET opcode names, inside its 64-opcode row
    /// block starting at row `first`.
    fn get_bit_target(&self, code: u8, first: u8) -> (r: u8)
        requires
            code / 16 >= first,
            code / 16 <= first + 3,
        ensures
            r == (code / 16 - first) * 2 + (if code % 16 > 7 {
                1int
            } else {
                0int
            }),
            r < 8,
    {
        let upper = code / 16;
        let mut target = (upper - first) * 2;
        if code % 16 > 7 {
            target = target + 1;
        }
        target
    }

    /// RLC on the register or (HL) operand of a CB opcode; Z from the
    /// result, C from the shifted-out bit, N and H cleared.
    fn rlc_CB(&mut self, code: u8) -> (cycle: u8)
        requires
            old(self).wf(),
        ensures
            final(self).wf(),
            ({
                let t = old(self).spec_cb_operand(code);
                let v = ((t * 2) % 256 + t as int / 128) as u8;
                let fv = spec_flags(v == 0, false, false, t >= 128);
                if Self::spec_is_hl_op(code) {
                    &&& cycle == 16
                    &&& *final(self) == (Cpu { f: fv, bus: final(self).bus, ..*old(self) })
                    &&& old(self).bus.spec_write_effect(old(self).spec_hl(), v, final(self).bus)
                } else {
                    &&& cycle == 8
                    &&& *final(self) == (Cpu {
                        f: fv,
                        ..old(self).spec_with_reg(code, v)
                    })
                }
            }),
    {
        let (register_val, is_cast) = self.opcode_to_read_registers(code);
        if is_cast {
            let t = register_val as u8;
            let val = ((t as u16 * 2) % 256) as u8 + t / 128;
            let carry = t >= 128;
            self.opcode_to_write_registers(code, val);
            self.set_flag(val == 0, false, false, carry);
            8
        } else {
            let address = register_val;
            let t = self.bus.read(address);
            let val = ((t as u16 * 2) % 256) as u8 + t / 128;
            let carry = t >= 128;
            self.bus.write(address, val);
            self.set_flag(val == 0, false, false, carry);
            16
        }
    }

    /// RRC on the register or (HL) operand of a CB opcode; Z from the
    /// result, C from the shifted-out bit, N and H cleared.
    fn rrc_CB(&mut self, code: u8) -> (cycle: u8)
        requires
            old(self).wf(),
        ensures
            final(self).wf(),
            ({
                let t = old(self).spec_cb_operand(code);
                let v = (t as int / 2 + (t % 2) * 128) as u8;
                let fv = spec_flags(v == 0, false, false, t % 2 == 1);
                if Self::spec_is_hl_op(code) {
                    &&& cycle == 16
                    &&& *final(self) == (Cpu { f: fv, bus: final(self).bus, ..*old(self) })
                    &&& old(self).bus.spec_write_effect(old(self).spec_hl(), v, final(self).bus)
                } else {
                    &&& cycle == 8
                    &&& *final(self) == (Cpu {
                        f: fv,
                        ..old(self).spec_with_reg(code, v)
                    })
                }
            }),
    {
        let (register_val, is_cast) = self.opcode_to_read_registers(code);
        if is_cast {
            let t = register_val as u8;
            let val = t / 2 + (t % 2) * 128;
            let carry = t % 2 == 1;
            self.opcode_to_write_registers(code, val);
            self.set_flag(val == 0, false, false, carry);
            8
        } else {
            let address = register_val;
            let t = self.bus.read(address);
            let val = t / 2 + (t % 2) * 128;
            let carry = t % 2 == 1;
            self.bus.write(address, val);
            self.set_flag(val == 0, false, false, carry);
            16
        }
    }

    /// RL on the register or (HL) operand of a CB opcode; Z from the
    /// result, C from the shifted-out bit, N and H cleared.
    fn rl_CB(&mut self, code: u8) -> (cycle: u8)
        requires
            old(self).wf(),
        ensures
            final(self).wf(),
            ({
            let cy = old(self).spec_carry();
                let t = old(self).spec_cb_operand(code);
                let v = ((t * 2) % 256 + cy) as u8;
                let fv = spec_flags(v == 0, false, false, t >= 128);
                if Self::spec_is_hl_op(code) {
                    &&& cycle == 16
                    &&& *final(self) == (Cpu { f: fv, bus: final(self).bus, ..*old(self) })
                    &&& old(self).bus.spec_write_effect(old(self).spec_hl(), v, final(self).bus)
                } else {
                    &&& cycle == 8
                    &&& *final(self) == (Cpu {
                        f: fv,
                        ..old(self).spec_with_reg(code, v)
                    })
                }
            }),
    {
        let cyv: u8 = if self.get_carry_flag() {
            1
        } else {
            0
        };
        let (register_val, is_cast) = self.opcode_to_read_registers(code);
        if is_cast {
            let t = register_val as u8;
            let val = ((t as u16 * 2) % 256) as u8 + cyv;
            let carry = t >= 128;
            self.opcode_to_write_registers(code, val);
            self.set_flag(val == 0, false, false, carry);
            8
        } else {
            let address = register_val;
            let t = self.bus.read(address);
            let val = ((t as u16 * 2) % 256) as u8 + cyv;
            let carry = t >= 128;
            self.bus.write(address, val);
            self.set_flag(val == 0, false, false, carry);
            16
        }
    }

    /// RR on the register or (HL) operand of a CB opcode; Z from the
    /// result, C from the shifted-out bit, N and H cleared.
    fn rr_CB(&mut self, code: u8) -> (cycle: u8)
        requires
            old(self).wf(),
        ensures
            final(self).wf(),
            ({
            let cy = old(self).spec_carry();
                let t = old(self).spec_cb_operand(code);
                let v = (t as int / 2 + cy * 128) as u8;
                let fv = spec_flags(v == 0, false, false, t % 2 == 1);
                if Self::spec_is_hl_op(code) {
                    &&& cycle == 16
                    &&& *final(self) == (Cpu { f: fv, bus: final(self).bus, ..*old(self) })
                    &&& old(self).bus.spec_write_effect(old(self).spec_hl(), v, final(self).bus)
                } else {
                    &&& cycle == 8
                    &&& *final(self) == (Cpu {
                        f: fv,
                        ..old(self).spec_with_reg(code, v)
                    })
                }
            }),
    {
        let cyv: u8 = if self.get_carry_flag() {
            1
        } else {
            0
        };
        let (register_val, is_cast) = self.opcode_to_read_registers(code);
        if is_cast {
            let t = register_val as u8;
            let val = t / 2 + cyv * 128;
            let carry = t % 2 == 1;
            self.opcode_to_write_registers(code, val);
            self.set_flag(val == 0, false, false, carry);
            8
        } else {
            let address = register_val;
            let t = self.bus.read(address);
            let val = t / 2 + cyv * 128;
            let carry = t % 2 == 1;
            self.bus.write(address, val);
            self.set_flag(val == 0, false, false, carry);
            16
        }
    }

    /// SLA on the register or (HL) operand of a CB opcode; Z from the
    /// result, C from the shifted-out bit, N and H cleared.
    fn sla_CB(&mut self, code: u8) -> (cycle: u8)
        requires
            old(self).wf(),
        ensures
            final(self).wf(),
            ({
                let t = old(self).spec_cb_operand(code);
                let v = ((t * 2) % 256) as u8;
                let fv = spec_flags(v == 0, false, false, t >= 128);
                if Self::spec_is_hl_op(code) {
                    &&& cycle == 16
                    &&& *final(self) == (Cpu { f: fv, bus: final(self).bus, ..*old(self) })
                    &&& old(self).bus.spec_write_effect(old(self).spec_hl(), v, final(self).bus)
                } else {
                    &&& cycle == 8
                    &&& *final(self) == (Cpu {
                        f: fv,
                        ..old(self).spec_with_reg(code, v)
                    })
                }
            }),
    {
        let (register_val, is_cast) = self.opcode_to_read_registers(code);
        if is_cast {
            let t = register_val as u8;
            let val = ((t as u16 * 2) % 256) as u8;
            let carry = t >= 128;
            self.opcode_to_write_registers(code, val);
            self.set_flag(val == 0, false, false, carry);
            8
        } else {
            let address = register_val;
            let t = self.bus.read(address);
            let val = ((t as u16 * 2) % 256) as u8;
            let carry = t >= 128;
            self.bus.write(address, val);
            self.set_flag(val == 0, false, false, carry);
            16
        }
    }

    /// SRA on the register or (HL) operand of a CB opcode; Z from the
    /// result, C from the shifted-out bit, N and H cleared.
    fn sra_CB(&mut self, code: u8) -> (cycle: u8)
        requires
            old(self).wf(),
        ensures
            final(self).wf(),
            ({
                let t = old(self).spec_cb_operand(code);
                let v = (t as int / 2 + (if t >= 128 { 128int } else { 0int })) as u8;
                let fv = spec_flags(v == 0, false, false, t % 2 == 1);
                if Self::spec_is_hl_op(code) {
                    &&& cycle == 16
                    &&& *final(self) == (Cpu { f: fv, bus: final(self).bus, ..*old(self) })
                    &&& old(self).bus.spec_write_effect(old(self).spec_hl(), v, final(self).bus)
                } else {
                    &&& cycle == 8
                    &&& *final(self) == (Cpu {
                        f: fv,
                        ..old(self).spec_with_reg(code, v)
                    })
                }
            }),
    {
        let (register_val, is_cast) = self.opcode_to_read_registers(code);
        if is_cast {
            let t = register_val as u8;
            let val = t / 2 + (if t >= 128 { 128 } else { 0 });
            let carry = t % 2 == 1;
            self.opcode_to_write_registers(code, val);
            self.set_flag(val == 0, false, false, carry);
            8
        } else {
            let address = register_val;
            let t = self.bus.read(address);
            let val = t / 2 + (if t >= 128 { 128 } else { 0 });
            let carry = t % 2 == 1;
            self.bus.write(address, val);
            self.set_flag(val == 0, false, false, carry);
            16
        }
    }

    /// SWAP on the register or (HL) operand of a CB opcode; Z from the
    /// result, C from the shifted-out bit, N and H cleared.
    fn swap_CB(&mut self, code: u8) -> (cycle: u8)
        requires
            old(self).wf(),
        ensures
            final(self).wf(),
            ({
                let t = old(self).spec_cb_operand(code);
                let v = ((t % 16) * 16 + t as int / 16) as u8;
                let fv = spec_flags(v == 0, false, false, false);
                if Self::spec_is_hl_op(code) {
                    &&& cycle == 16
                    &&& *final(self) == (Cpu { f: fv, bus: final(self).bus, ..*old(self) })
                    &&& old(self).bus.spec_write_effect(old(self).spec_hl(), v, final(self).bus)
                } else {
                    &&& cycle == 8
                    &&& *final(self) == (Cpu {
                        f: fv,
                        ..old(self).spec_with_reg(code, v)
                    })
                }
            }),
    {
        let (register_val, is_cast) = self.opcode_to_read_registers(code);
        if is_cast {
            let t = register_val as u8;
            let val = (t % 16) * 16 + t / 16;
            let carry = false;
            self.opcode_to_write_registers(code, val);
            self.set_flag(val == 0, false, false, carry);
            8
        } else {
            let address = register_val;
            let t = self.bus.read(address);
            let val = (t % 16) * 16 + t / 16;
            let carry = false;
            self.bus.write(address, val);
            self.set_flag(val == 0, false, false, carry);
            16
        }
    }

    /// SRL on the register or (HL) operand of a CB opcode; Z from the
    /// result, C from the shifted-out bit, N and H cleared.
    fn srl_CB(&mut self, code: u8) -> (cycle: u8)
        requires
            old(self).wf(),
        ensures
            final(self).wf(),
            ({
                let t = old(self).spec_cb_operand(code);
                let v = (t as int / 2) as u8;
                let fv = spec_flags(v == 0, false, false, t % 2 == 1);
                if Self::spec_is_hl_op(code) {
                    &&& cycle == 16
                    &&& *final(self) == (Cpu { f: fv, bus: final(self).bus, ..*old(self) })
                    &&& old(self).bus.spec_write_effect(old(self).spec_hl(), v, final(self).bus)
                } else {
                    &&& cycle == 8
                    &&& *final(self) == (Cpu {
                        f: fv,
                        ..old(self).spec_with_reg(code, v)
                    })
                }
            }),
    {
        let (register_val, is_cast) = self.opcode_to_read_registers(code);
        if is_cast {
            let t = register_val as u8;
            let val = t / 2;
            let carry = t % 2 == 1;
            self.opcode_to_write_registers(code, val);
            self.set_flag(val == 0, false, false, carry);
            8
        } else {
            let address = register_val;
            let t = self.bus.read(address);
            let val = t / 2;
            let carry = t % 2 == 1;
            self.bus.write(address, val);
            self.set_flag(val == 0, false, false, carry);
            16
        }
    }

    /// BIT n: Z reports the complement of the tested bit; H set, N clear,
    /// C kept.
    fn bit_CB(&mut self, code: u8) -> (cycle: u8)
        requires
            old(self).wf(),
            0x40 <= code <= 0x7F,
        ensures
            final(self).wf(),
            ({
                let bit = (code as int / 16 - 4) * 2 + (if code % 16 > 7 {
                    1int
                } else {
                    0int
                });
                let t = old(self).spec_cb_operand(code);
                let fv = spec_flags(
                    !spec_bit8(t, bit),
                    false,
                    true,
                    old(self).spec_cf(),
                );
                &&& cycle == (if Self::spec_is_hl_op(code) {
                    12int
                } else {
                    8int
                })
                &&& *final(self) == (Cpu { f: fv, ..*old(self) })
            }),
    {
        let target_bit = self.get_bit_target(code, 4);
        let cf = self.get_carry_flag();
        let (register_val, is_cast) = self.opcode_to_read_registers(code);
        if is_cast {
            let t = register_val as u8;
            let z = !bit8(t, target_bit);
            self.set_flag(z, false, true, cf);
            8
        } else {
            let t = self.bus.read(register_val);
            let z = !bit8(t, target_bit);
            self.set_flag(z, false, true, cf);
            12
        }
    }

    /// RES n: clear one bit of the operand; no flags are touched.
    fn res_CB(&mut self, code: u8) -> (cycle: u8)
        requires
            old(self).wf(),
            0x80 <= code <= 0xBF,
        ensures
            final(self).wf(),
            ({
                let bit = (code as int / 16 - 8) * 2 + (if code % 16 > 7 {
                    1int
                } else {
                    0int
                });
                let t = old(self).spec_cb_operand(code);
                let v = spec_clear_bit8(t, bit);
                if Self::spec_is_hl_op(code) {
                    &&& cycle == 16
                    &&& *final(self) == (Cpu { bus: final(self).bus, ..*old(self) })
                    &&& old(self).bus.spec_write_effect(old(self).spec_hl(), v, final(self).bus)
                } else {
                    &&& cycle == 8
                    &&& *final(self) == old(self).spec_with_reg(code, v)
                }
            }),
    {
        let target_bit = self.get_bit_target(code, 8);
        let (register_val, is_cast) = self.opcode_to_read_registers(code);
        if is_cast {
            let t = register_val as u8;
            let val = clear_bit8(t, target_bit);
            self.opcode_to_write_registers(code, val);
            8
        } else {
            let address = register_val;
            let t = self.bus.read(address);
            let val = clear_bit8(t, target_bit);
            self.bus.write(address, val);
            16
        }
    }

    /// SET n: set one bit of the operand; no flags are touched.
    fn set_CB(&mut self, code: u8) -> (cycle: u8)
        requires
            old(self).wf(),
            0xC0 <= code,
        ensures
            final(self).wf(),
            ({
                let bit = (code as int / 16 - 12) * 2 + (if code % 16 > 7 {
                    1int
                } else {
                    0int
                });
                let t = old(self).spec_cb_operand(code);
                let v = spec_set_bit8(t, bit);
                if Self::spec_is_hl_op(code) {
                    &&& cycle == 16
                    &&& *final(self) == (Cpu { bus: final(self).bus, ..*old(self) })
                    &&& old(self).bus.spec_write_effect(old(self).spec_hl(), v, final(self).bus)
                } else {
                    &&& cycle == 8
                    &&& *final(self) == old(self).spec_with_reg(code, v)
                }
            }),
    {
        let target_bit = self.get_bit_target(code, 12);
        let (register_val, is_cast) = self.opcode_to_read_registers(code);
        if is_cast {
            let t = register_val as u8;
            let val = set_bit8(t, target_bit);
            self.opcode_to_write_registers(code, val);
            8
        } else {
            let address = register_val;
            let t = self.bus.read(address);
            let val = set_bit8(t, target_bit);
            self.bus.write(address, val);
            16
        }
    }

    /// The exact effect of CB-prefixed opcodes 0x00..=0x1F.
    pub open spec fn spec_cb_effect_a(pre: Cpu, post: Cpu, code: u8, cycles: u8) -> bool {
        if code < 0x08 {
            &&& (({
                let t = pre.spec_cb_operand(code);
                let v = ((t * 2) % 256 + t as int / 128) as u8;
                let fv = spec_flags(v == 0, false, false, t >= 128);
                if Self::spec_is_hl_op(code) {
                    &&& cycles == 16
                    &&& post == (Cpu { f: fv, bus: post.bus, ..pre })
                    &&& pre.bus.spec_write_effect(pre.spec_hl(), v, post.bus)
                } else {
                    &&& cycles == 8
                    &&& post == (Cpu {
                        f: fv,
                        ..pre.spec_with_reg(code, v)
                    })
                }
            }))
        } else if code < 0x10 {
            &&& (({
                let t = pre.spec_cb_operand(code);
                let v = (t as int / 2 + (t % 2) * 128) as u8;
                let fv = spec_flags(v == 0, false, false, t % 2 == 1);
                if Self::spec_is_hl_op(code) {
                    &&& cycles == 16
                    &&& post == (Cpu { f: fv, bus: post.bus, ..pre })
                    &&& pre.bus.spec_write_effect(pre.spec_hl(), v, post.bus)
                } else {
                    &&& cycles == 8
                    &&& post == (Cpu {
                        f: fv,
                        ..pre.spec_with_reg(code, v)
                    })
                }
            }))
        } else if code < 0x18 {
            &&& (({
            let cy = pre.spec_carry();
                let t = pre.spec_cb_operand(code);
                let v = ((t * 2) % 256 + cy) as u8;
                let fv = spec_flags(v == 0, false, false, t >= 128);
                if Self::spec_is_hl_op(code) {
                    &&& cycles == 16
                    &&& post == (Cpu { f: fv, bus: post.bus, ..pre })
                    &&& pre.bus.spec_write_effect(pre.spec_hl(), v, post.bus)
                } else {
                    &&& cycles == 8
                    &&& post == (Cpu {
                        f: fv,
                        ..pre.spec_with_reg(code, v)
                    })
                }
            }))
        } else {
            &&& (({
            let cy = pre.spec_carry();
                let t = pre.spec_cb_operand(code);
                let v = (t as int / 2 + cy * 128) as u8;
                let fv = spec_flags(v == 0, false, false, t % 2 == 1);
                if Self::spec_is_hl_op(code) {
                    &&& cycles == 16
                    &&& post == (Cpu { f: fv, bus: post.bus, ..pre })
                    &&& pre.bus.spec_write_effect(pre.spec_hl(), v, post.bus)
                } else {
                    &&& cycles == 8
                    &&& post == (Cpu {
                        f: fv,
                        ..pre.spec_with_reg(code, v)
                    })
                }
            }))
        }
    }

    /// Dispatch of CB-prefixed opcodes 0x00..=0x1F.
    #[verifier::rlimit(100)]
    #[verifier::spinoff_prover]
    fn excute_cb_a(&mut self, code: u8) -> (cycle: u8)
        requires
            old(self).wf(),
            0x00 <= code <= 0x1F,
        ensures
            final(self).wf(),
            4 <= cycle <= 16,
            Self::spec_cb_effect_a(*old(self), *final(self), code, cycle),
            crate::bus::same_frame_counters(old(self).bus, final(self).bus),
            final(self).t_cycles == old(self).t_cycles,
            final(self).pending_ticks == old(self).pending_ticks,
    {
        proof {
            broadcast use crate::bus::lemma_write_preserves_frame_counters;
        }
        if code < 0x08 {
            self.rlc_CB(code)
        } else if code < 0x10 {
            self.rrc_CB(code)
        } else if code < 0x18 {
            self.rl_CB(code)
        } else {
            self.rr_CB(code)
        }
    }

    /// The exact effect of CB-prefixed opcodes 0x20..=0x3F.
    pub open spec fn spec_cb_effect_b(pre: Cpu, post: Cpu, code: u8, cycles: u8) -> bool {
        if code < 0x28 {
            &&& (({
                let t = pre.spec_cb_operand(code);
                let v = ((t * 2) % 256) as u8;
                let fv = spec_flags(v == 0, false, false, t >= 128);
                if Self::spec_is_hl_op(code) {
                    &&& cycles == 16
                    &&& post == (Cpu { f: fv, bus: post.bus, ..pre })
                    &&& pre.bus.spec_write_effect(pre.spec_hl(), v, post.bus)
                } else {
                    &&& cycles == 8
                    &&& post == (Cpu {
                        f: fv,
                        ..pre.spec_with_reg(code, v)
                    })
                }
            }))
        } else if code < 0x30 {
            &&& (({
                let t = pre.spec_cb_operand(code);
                let v = (t as int / 2 + (if t >= 128 { 128int } else { 0int })) as u8;
                let fv = spec_flags(v == 0, false, false, t % 2 == 1);
                if Self::spec_is_hl_op(code) {
                    &&& cycles == 16
                    &&& post == (Cpu { f: fv, bus: post.bus, ..pre })
                    &&& pre.bus.spec_write_effect(pre.spec_hl(), v, post.bus)
                } else {
                    &&& cycles == 8
                    &&& post == (Cpu {
                        f: fv,
                        ..pre.spec_with_reg(code, v)
                    })
                }
            }))
        } else if code < 0x38 {
            &&& (({
                let t = pre.spec_cb_operand(code);
                let v = ((t % 16) * 16 + t as int / 16) as u8;
                let fv = spec_flags(v == 0, false, false, false);
                if Self::spec_is_hl_op(code) {
                    &&& cycles == 16
                    &&& post == (Cpu { f: fv, bus: post.bus, ..pre })
                    &&& pre.bus.spec_write_effect(pre.spec_hl(), v, post.bus)
                } else {
                    &&& cycles == 8
                    &&& post == (Cpu {
                        f: fv,
                        ..pre.spec_with_reg(code, v)
                    })
                }
            }))
        } else {
            &&& (({
                let t = pre.spec_cb_operand(code);
                let v = (t as int / 2) as u8;
                let fv = spec_flags(v == 0, false, false, t % 2 == 1);
                if Self::spec_is_hl_op(code) {
                    &&& cycles == 16
                    &&& post == (Cpu { f: fv, bus: post.bus, ..pre })
                    &&& pre.bus.spec_write_effect(pre.spec_hl(), v, post.bus)
                } else {
                    &&& cycles == 8
                    &&& post == (Cpu {
                        f: fv,
                        ..pre.spec_with_reg(code, v)
                    })
                }
            }))
        }
    }

    /// Dispatch of CB-prefixed opcodes 0x20..=0x3F.
    #[verifier::rlimit(100)]
    #[verifier::spinoff_prover]
    fn excute_cb_b(&mut self, code: u8) -> (cycle: u8)
        requires
            old(self).wf(),
            0x20 <= code <= 0x3F,
        ensures
            final(self).wf(),
            4 <= cycle <= 16,
            Self::spec_cb_effect_b(*old(self), *final(self), code, cycle),
            crate::bus::same_frame_counters(old(self).bus, final(self).bus),
            final(self).t_cycles == old(self).t_cycles,
            final(self).pending_ticks == old(self).pending_ticks,
    {
        proof {
            broadcast use crate::bus::lemma_write_preserves_frame_counters;
        }
        if code < 0x28 {
            self.sla_CB(code)
        } else if code < 0x30 {
            self.sra_CB(code)
        } else if code < 0x38 {
            self.swap_CB(code)
        } else {
            self.srl_CB(code)
        }
    }

    /// The exact effect of CB-prefixed opcodes 0x40..=0x7F.
    pub open spec fn spec_cb_effect_c(pre: Cpu, post: Cpu, code: u8, cycles: u8) -> bool {
        &&& (({
                let bit = (code as int / 16 - 4) * 2 + (if code % 16 > 7 {
                    1int
                } else {
                    0int
                });
                let t = pre.spec_cb_operand(code);
                let fv = spec_flags(
                    !spec_bit8(t, bit),
                    false,
                    true,
                    pre.spec_cf(),
                );
                &&& cycles == (if Self::spec_is_hl_op(code) {
                    12int
                } else {
                    8int
                })
                &&& post == (Cpu { f: fv, ..pre })
            }))
    }

    /// Dispatch of CB-prefixed opcodes 0x40..=0x7F.
    #[verifier::rlimit(100)]
    #[verifier::spinoff_prover]
    fn excute_cb_c(&mut self, code: u8) -> (cycle: u8)
        requires
            old(self).wf(),
            0x40 <= code <= 0x7F,
        ensures
            final(self).wf(),
            4 <= cycle <= 16,
            Self::spec_cb_effect_c(*old(self), *final(self), code, cycle),
            crate::bus::same_frame_counters(old(self).bus, final(self).bus),
            final(self).t_cycles == old(self).t_cycles,
            final(self).pending_ticks == old(self).pending_ticks,
    {
        proof {
            broadcast use crate::bus::lemma_write_preserves_frame_counters;
        }
        self.bit_CB(code)
    }

    /// The exact effect of CB-prefixed opcodes 0x80..=0xFF.
    pub open spec fn spec_cb_effect_d(pre: Cpu, post: Cpu, code: u8, cycles: u8) -> bool {
        if code < 0xC0 {
            &&& (({
                let bit = (code as int / 16 - 8) * 2 + (if code % 16 > 7 {
                    1int
                } else {
                    0int
                });
                let t = pre.spec_cb_operand(code);
                let v = spec_clear_bit8(t, bit);
                if Self::spec_is_hl_op(code) {
                    &&& cycles == 16
                    &&& post == (Cpu { bus: post.bus, ..pre })
                    &&& pre.bus.spec_write_effect(pre.spec_hl(), v, post.bus)
                } else {
                    &&& cycles == 8
                    &&& post == pre.spec_with_reg(code, v)
                }
            }))
        } else {
            &&& (({
                let bit = (code as int / 16 - 12) * 2 + (if code % 16 > 7 {
                    1int
                } else {
                    0int
                });
                let t = pre.spec_cb_operand(code);
                let v = spec_set_bit8(t, bit);
                if Self::spec_is_hl_op(code) {
                    &&& cycles == 16
                    &&& post == (Cpu { bus: post.bus, ..pre })
                    &&& pre.bus.spec_write_effect(pre.spec_hl(), v, post.bus)
                } else {
                    &&& cycles == 8
                    &&& post == pre.spec_with_reg(code, v)
                }
            }))
        }
    }

    /// Dispatch of CB-prefixed opcodes 0x80..=0xFF.
    #[verifier::rlimit(100)]
    #[verifier::spinoff_prover]
    fn excute_cb_d(&mut self, code: u8) -> (cycle: u8)
        requires
            old(self).wf(),
            0x80 <= code <= 0xFF,
        ensures
            final(self).wf(),
            4 <= cycle <= 16,
            Self::spec_cb_effect_d(*old(self), *final(self), code, cycle),
            crate::bus::same_frame_counters(old(self).bus, final(self).bus),
            final(self).t_cycles == old(self).t_cycles,
            final(self).pending_ticks == old(self).pending_ticks,
    {
        proof {
            broadcast use crate::bus::lemma_write_preserves_frame_counters;
        }
        if code < 0xC0 {
            self.res_CB(code)
        } else {
            self.set_CB(code)
        }
    }

    /// The exact effect of any CB-prefixed opcode.
    pub open spec fn spec_cb_effect(pre: Cpu, post: Cpu, code: u8, cycles: u8) -> bool {
        if code < 0x20 {
            Self::spec_cb_effect_a(pre, post, code, cycles)
        } else if code < 0x40 {
            Self::spec_cb_effect_b(pre, post, code, cycles)
        } else if code < 0x80 {
            Self::spec_cb_effect_c(pre, post, code, cycles)
        } else {
            Self::spec_cb_effect_d(pre, post, code, cycles)
        }
    }

    /// Dispatch one CB-prefixed opcode: the 256 opcodes form an 8 x 32 grid
    /// of operation rows over the eight operands.
    fn excute_cb_op(&mut self, code: u8) -> (cycle: u8)
        requires
            old(self).wf(),
        ensures
            final(self).wf(),
            4 <= cycle <= 16,
            Self::spec_cb_effect(*old(self), *final(self), code, cycle),
            crate::bus::same_frame_counters(old(self).bus, final(self).bus),
            final(self).t_cycles == old(self).t_cycles,
            final(self).pending_ticks == old(self).pending_ticks,
    {
        if code < 0x20 {
            self.excute_cb_a(code)
        } else if code < 0x40 {
            self.excute_cb_b(code)
        } else if code < 0x80 {
            self.excute_cb_c(code)
        } else {
            self.excute_cb_d(code)
        }
    }

    /// The byte values with no instruction in the primary table (the CB
    /// prefix byte itself is consumed by the fetch and never dispatched).
    pub open spec fn spec_illegal_opcode(code: u8) -> bool {
        code == 0xCB || code == 0xD3 || code == 0xDB || code == 0xDD || code == 0xE3 || code
            == 0xE4 || code == 0xEB || code == 0xEC || code == 0xED || code == 0xF4 || code == 0xFC
            || code == 0xFD
    }

    /// The exact effect of a primary-table opcode in 0x00..=0x0F: the
    /// clauses of each instruction's own contract, as a pre/post relation.
    pub open spec fn spec_op_effect_00(pre: Cpu, post: Cpu, code: u8, cycles: u8) -> bool {
        if code == 0x00 {
            &&& (cycles == 4)
            &&& (post == pre)
        } else if code == 0x01 {
            &&& (cycles == 12)
            &&& (post == (Cpu {
                b: (pre.spec_imm16() as int / 256) as u8,
                c: (pre.spec_imm16() % 256) as u8,
                pc: ((pre.pc + 2) % 65536) as u16,
                ..pre
            }))
        } else if code == 0x02 {
            &&& (cycles == 8)
            &&& (post == (Cpu { bus: post.bus, ..pre }))
            &&& (pre.bus.spec_write_effect(pre.spec_bc(), pre.a, post.bus))
        } else if code == 0x03 {
            &&& (cycles == 8)
            &&& (post == (Cpu {
                b: (((pre.spec_bc() + 1) % 65536) as int / 256) as u8,
                c: (((pre.spec_bc() + 1) % 65536) % 256) as u8,
                ..pre
            }))
        } else if code == 0x04 {
            &&& (cycles == 4)
            &&& (post == (Cpu {
                b: spec_add8_val(pre.b, 1),
                f: spec_flags(
                    spec_add8_val(pre.b, 1) == 0,
                    false,
                    pre.b % 16 == 15,
                    pre.spec_cf(),
                ),
                ..pre
            }))
        } else if code == 0x05 {
            &&& (cycles == 4)
            &&& (post == (Cpu {
                b: spec_sub8_val(pre.b, 1),
                f: spec_flags(
                    spec_sub8_val(pre.b, 1) == 0,
                    true,
                    pre.b % 16 == 0,
                    pre.spec_cf(),
                ),
                ..pre
            }))
        } else if code == 0x06 {
            &&& (cycles == 8)
            &&& (post == (Cpu {
                b: pre.spec_imm8(),
                pc: ((pre.pc + 1) % 65536) as u16,
                ..pre
            }))
        } else if code == 0x07 {
            &&& (cycles == 4)
            &&& (post == (Cpu {
                a: ((pre.a * 2) % 256 + pre.a as int / 128) as u8,
                f: spec_flags(false, false, false, pre.a >= 128),
                ..pre
            }))
        } else if code == 0x08 {
            &&& (cycles == 20)
            &&& (post == (Cpu {
                pc: ((pre.pc + 2) % 65536) as u16,
                bus: post.bus,
                ..pre
            }))
            &&& (exists|mid: Bus|
                pre.bus.spec_write_effect(
                    pre.spec_imm16(),
                    (pre.sp % 256) as u8,
                    mid,
                ) && #[trigger] mid.spec_write_effect(
                    ((pre.spec_imm16() + 1) % 65536) as u16,
                    (pre.sp as int / 256) as u8,
                    post.bus,
                ))
        } else if code == 0x09 {
            &&& (cycles == 8)
            &&& (post == (Cpu {
                h: (((pre.spec_hl() + pre.spec_bc()) % 65536) as int / 256) as u8,
                l: (((pre.spec_hl() + pre.spec_bc()) % 65536) % 256) as u8,
                f: spec_flags(
                    pre.spec_zf(),
                    false,
                    pre.spec_hl() % 4096 + pre.spec_bc() % 4096 > 4095,
                    pre.spec_hl() + pre.spec_bc() > 65535,
                ),
                ..pre
            }))
        } else if code == 0x0A {
            &&& (cycles == 8)
            &&& (post == (Cpu {
                a: pre.bus.spec_read(pre.spec_bc()),
                ..pre
            }))
        } else if code == 0x0B {
            &&& (cycles == 8)
            &&& (post == (Cpu {
                b: (((pre.spec_bc() + 65535) % 65536) as int / 256) as u8,
                c: (((pre.spec_bc() + 65535) % 65536) % 256) as u8,
                ..pre
            }))
        } else if code == 0x0C {
            &&& (cycles == 4)
            &&& (post == (Cpu {
                c: spec_add8_val(pre.c, 1),
                f: spec_flags(
                    spec_add8_val(pre.c, 1) == 0,
                    false,
                    pre.c % 16 == 15,
                    pre.spec_cf(),
                ),
                ..pre
            }))
        } else if code == 0x0D {
            &&& (cycles == 4)
            &&& (post == (Cpu {
                c: spec_sub8_val(pre.c, 1),
                f: spec_flags(
                    spec_sub8_val(pre.c, 1) == 0,
                    true,
                    pre.c % 16 == 0,
                    pre.spec_cf(),
                ),
                ..pre
            }))
        } else if code == 0x0E {
            &&& (cycles == 8)
            &&& (post == (Cpu {
                c: pre.spec_imm8(),
                pc: ((pre.pc + 1) % 65536) as u16,
                ..pre
            }))
        } else if code == 0x0F {
            &&& (cycles == 4)
            &&& (post == (Cpu {
                a: (pre.a as int / 2 + (pre.a % 2) * 128) as u8,
                f: spec_flags(false, false, false, pre.a % 2 == 1),
                ..pre
            }))
        } else {
            true
        }
    }

    /// Dispatch of primary opcodes 0x00..=0x0F.
    #[verifier::rlimit(100)]
    #[verifier::spinoff_prover]
    fn excute_op_00(&mut self, code: u8) -> (r: Result<u8, CpuError>)
        requires
            old(self).wf(),
            0x00 <= code <= 0x0F,
        ensures
            final(self).wf(),
            r is Ok ==> 4 <= r->Ok_0 <= 24,
            r is Err <==> Self::spec_illegal_opcode(code),
            r is Err ==> *final(self) == *old(self),
            r is Ok ==> Self::spec_op_effect_00(*old(self), *final(self), code, r->Ok_0),
            crate::bus::same_frame_counters(old(self).bus, final(self).bus),
            final(self).t_cycles == old(self).t_cycles,
            final(self).pending_ticks == old(self).pending_ticks,
    {
        proof {
            broadcast use crate::bus::lemma_write_preserves_frame_counters;
        }
        match code {
            0x00 => Ok(self.nop()),
            0x01 => Ok(self.ld_01()),
            0x02 => Ok(self.ld_02()),
            0x03 => Ok(self.inc_03()),
            0x04 => Ok(self.inc_04()),
            0x05 => Ok(self.dec_05()),
            0x06 => Ok(self.ld_06()),
            0x07 => Ok(self.rlca()),
            0x08 => Ok(self.ld_08()),
            0x09 => Ok(self.add_09()),
            0x0A => Ok(self.ld_0A()),
            0x0B => Ok(self.dec_0B()),
            0x0C => Ok(self.inc_0C()),
            0x0D => Ok(self.dec_0D()),
            0x0E => Ok(self.ld_0E()),
            0x0F => Ok(self.rrca()),
            _ => Err(CpuError::UnknownOpcode),
        }
    }

    /// The exact effect of a primary-table opcode in 0x10..=0x1F: the
    /// clauses of each instruction's own contract, as a pre/post relation.
    pub open spec fn spec_op_effect_10(pre: Cpu, post: Cpu, code: u8, cycles: u8) -> bool {
        if code == 0x10 {
            &&& (cycles == 4)
            &&& (post == (Cpu {
                halt: true,
                bus: Bus {
                    timer: crate::timer::Timer { is_stop: true, ..pre.bus.timer },
                    ..pre.bus
                },
                ..pre
            }))
        } else if code == 0x11 {
            &&& (cycles == 12)
            &&& (post == (Cpu {
                d: (pre.spec_imm16() as int / 256) as u8,
                e: (pre.spec_imm16() % 256) as u8,
                pc: ((pre.pc + 2) % 65536) as u16,
                ..pre
            }))
        } else if code == 0x12 {
            &&& (cycles == 8)
            &&& (post == (Cpu { bus: post.bus, ..pre }))
            &&& (pre.bus.spec_write_effect(pre.spec_de(), pre.a, post.bus))
        } else if code == 0x13 {
            &&& (cycles == 8)
            &&& (post == (Cpu {
                d: (((pre.spec_de() + 1) % 65536) as int / 256) as u8,
                e: (((pre.spec_de() + 1) % 65536) % 256) as u8,
                ..pre
            }))
        } else if code == 0x14 {
            &&& (cycles == 4)
            &&& (post == (Cpu {
                d: spec_add8_val(pre.d, 1),
                f: spec_flags(
                    spec_add8_val(pre.d, 1) == 0,
                    false,
                    pre.d % 16 == 15,
                    pre.spec_cf(),
                ),
                ..pre
            }))
        } else if code == 0x15 {
            &&& (cycles == 4)
            &&& (post == (Cpu {
                d: spec_sub8_val(pre.d, 1),
                f: spec_flags(
                    spec_sub8_val(pre.d, 1) == 0,
                    true,
                    pre.d % 16 == 0,
                    pre.spec_cf(),
                ),
                ..pre
            }))
        } else if code == 0x16 {
            &&& (cycles == 8)
            &&& (post == (Cpu {
                d: pre.spec_imm8(),
                pc: ((pre.pc + 1) % 65536) as u16,
                ..pre
            }))
        } else if code == 0x17 {
            &&& (cycles == 4)
            &&& (post == (Cpu {
                a: ((pre.a * 2) % 256 + pre.spec_carry()) as u8,
                f: spec_flags(false, false, false, pre.a >= 128),
                ..pre
            }))
        } else if code == 0x18 {
            &&& (cycles == 12)
            &&& (post == (Cpu {
                pc: pre.spec_jr_target(),
                jmp_flag: true,
                ..pre
            }))
        } else if code == 0x19 {
            &&& (cycles == 8)
            &&& (post == (Cpu {
                h: (((pre.spec_hl() + pre.spec_de()) % 65536) as int / 256) as u8,
                l: (((pre.spec_hl() + pre.spec_de()) % 65536) % 256) as u8,
                f: spec_flags(
                    pre.spec_zf(),
                    false,
                    pre.spec_hl() % 4096 + pre.spec_de() % 4096 > 4095,
                    pre.spec_hl() + pre.spec_de() > 65535,
                ),
                ..pre
            }))
        } else if code == 0x1A {
            &&& (cycles == 8)
            &&& (post == (Cpu {
                a: pre.bus.spec_read(pre.spec_de()),
                ..pre
            }))
        } else if code == 0x1B {
            &&& (cycles == 8)
            &&& (post == (Cpu {
                d: (((pre.spec_de() + 65535) % 65536) as int / 256) as u8,
                e: (((pre.spec_de() + 65535) % 65536) % 256) as u8,
                ..pre
            }))
        } else if code == 0x1C {
            &&& (cycles == 4)
            &&& (post == (Cpu {
                e: spec_add8_val(pre.e, 1),
                f: spec_flags(
                    spec_add8_val(pre.e, 1) == 0,
                    false,
                    pre.e % 16 == 15,
                    pre.spec_cf(),
                ),
                ..pre
            }))
        } else if code == 0x1D {
            &&& (cycles == 4)
            &&& (post == (Cpu {
                e: spec_sub8_val(pre.e, 1),
                f: spec_flags(
                    spec_sub8_val(pre.e, 1) == 0,
                    true,
                    pre.e % 16 == 0,
                    pre.spec_cf(),
                ),
                ..pre
            }))
        } else if code == 0x1E {
            &&& (cycles == 8)
            &&& (post == (Cpu {
                e: pre.spec_imm8(),
                pc: ((pre.pc + 1) % 65536) as u16,
                ..pre
            }))
        } else if code == 0x1F {
            &&& (cycles == 4)
            &&& (post == (Cpu {
                a: (pre.a as int / 2 + pre.spec_carry() * 128) as u8,
                f: spec_flags(false, false, false, pre.a % 2 == 1),
                ..pre
            }))
        } else {
            true
        }
    }

    /// Dispatch of primary opcodes 0x10..=0x1F.
    #[verifier::rlimit(100)]
    #[verifier::spinoff_prover]
    fn excute_op_10(&mut self, code: u8) -> (r: Result<u8, CpuError>)
        requires
            old(self).wf(),
            0x10 <= code <= 0x1F,
        ensures
            final(self).wf(),
            r is Ok ==> 4 <= r->Ok_0 <= 24,
            r is Err <==> Self::spec_illegal_opcode(code),
            r is Err ==> *final(self) == *old(self),
            r is Ok ==> Self::spec_op_effect_10(*old(self), *final(self), code, r->Ok_0),
            crate::bus::same_frame_counters(old(self).bus, final(self).bus),
            final(self).t_cycles == old(self).t_cycles,
            final(self).pending_ticks == old(self).pending_ticks,
    {
        proof {
            broadcast use crate::bus::lemma_write_preserves_frame_counters;
        }
        match code {
            0x10 => Ok(self.stop()),
            0x11 => Ok(self.ld_11()),
            0x12 => Ok(self.ld_12()),
            0x13 => Ok(self.inc_13()),
            0x14 => Ok(self.inc_14()),
            0x15 => Ok(self.dec_15()),
            0x16 => Ok(self.ld_16()),
            0x17 => Ok(self.rla()),
            0x18 => Ok(self.jr()),
            0x19 => Ok(self.add_19()),
            0x1A => Ok(self.ld_1A()),
            0x1B => Ok(self.dec_1B()),
            0x1C => Ok(self.inc_1C()),
            0x1D => Ok(self.dec_1D()),
            0x1E => Ok(self.ld_1E()),
            0x1F => Ok(self.rra()),
            _ => Err(CpuError::UnknownOpcode),
        }
    }

    /// The exact effect of a primary-table opcode in 0x20..=0x2F: the
    /// clauses of each instruction's own contract, as a pre/post relation.
    pub open spec fn spec_op_effect_20(pre: Cpu, post: Cpu, code: u8, cycles: u8) -> bool {
        if code == 0x20 {
            &&& (!pre.spec_zf() ==> cycles == 12 && post == (Cpu {
                pc: pre.spec_jr_target(),
                jmp_flag: true,
                ..pre
            }))
            &&& (!(!pre.spec_zf()) ==> cycles == 8 && post == (Cpu {
                pc: ((pre.pc + 1) % 65536) as u16,
                ..pre
            }))
        } else if code == 0x21 {
            &&& (cycles == 12)
            &&& (post == (Cpu {
                h: (pre.spec_imm16() as int / 256) as u8,
                l: (pre.spec_imm16() % 256) as u8,
                pc: ((pre.pc + 2) % 65536) as u16,
                ..pre
            }))
        } else if code == 0x22 {
            &&& (cycles == 8)
            &&& (post == (Cpu {
                h: (((pre.spec_hl() + 1) % 65536) as int / 256) as u8,
                l: (((pre.spec_hl() + 1) % 65536) % 256) as u8,
                bus: post.bus,
                ..pre
            }))
            &&& (pre.bus.spec_write_effect(pre.spec_hl(), pre.a, post.bus))
        } else if code == 0x23 {
            &&& (cycles == 8)
            &&& (post == (Cpu {
                h: (((pre.spec_hl() + 1) % 65536) as int / 256) as u8,
                l: (((pre.spec_hl() + 1) % 65536) % 256) as u8,
                ..pre
            }))
        } else if code == 0x24 {
            &&& (cycles == 4)
            &&& (post == (Cpu {
                h: spec_add8_val(pre.h, 1),
                f: spec_flags(
                    spec_add8_val(pre.h, 1) == 0,
                    false,
                    pre.h % 16 == 15,
                    pre.spec_cf(),
                ),
                ..pre
            }))
        } else if code == 0x25 {
            &&& (cycles == 4)
            &&& (post == (Cpu {
                h: spec_sub8_val(pre.h, 1),
                f: spec_flags(
                    spec_sub8_val(pre.h, 1) == 0,
                    true,
                    pre.h % 16 == 0,
                    pre.spec_cf(),
                ),
                ..pre
            }))
        } else if code == 0x26 {
            &&& (cycles == 8)
            &&& (post == (Cpu {
                h: pre.spec_imm8(),
                pc: ((pre.pc + 1) % 65536) as u16,
                ..pre
            }))
        } else if code == 0x27 {
            &&& (cycles == 4)
            &&& (post == (Cpu {
                a: spec_daa_val(pre.a, pre.spec_nf(), pre.spec_hf(), pre.spec_cf()),
                f: spec_flags(
                    spec_daa_val(pre.a, pre.spec_nf(), pre.spec_hf(), pre.spec_cf()) == 0,
                    pre.spec_nf(),
                    false,
                    spec_daa_carry(pre.a, pre.spec_nf(), pre.spec_cf()),
                ),
                ..pre
            }))
        } else if code == 0x28 {
            &&& (pre.spec_zf() ==> cycles == 12 && post == (Cpu {
                pc: pre.spec_jr_target(),
                jmp_flag: true,
                ..pre
            }))
            &&& (!(pre.spec_zf()) ==> cycles == 8 && post == (Cpu {
                pc: ((pre.pc + 1) % 65536) as u16,
                ..pre
            }))
        } else if code == 0x29 {
            &&& (cycles == 8)
            &&& (post == (Cpu {
                h: (((pre.spec_hl() + pre.spec_hl()) % 65536) as int / 256) as u8,
                l: (((pre.spec_hl() + pre.spec_hl()) % 65536) % 256) as u8,
                f: spec_flags(
                    pre.spec_zf(),
                    false,
                    pre.spec_hl() % 4096 + pre.spec_hl() % 4096 > 4095,
                    pre.spec_hl() + pre.spec_hl() > 65535,
                ),
                ..pre
            }))
        } else if code == 0x2A {
            &&& (cycles == 8)
            &&& (post == (Cpu {
                a: pre.bus.spec_read(pre.spec_hl()),
                h: (((pre.spec_hl() + 1) % 65536) as int / 256) as u8,
                l: (((pre.spec_hl() + 1) % 65536) % 256) as u8,
                ..pre
            }))
        } else if code == 0x2B {
            &&& (cycles == 8)
            &&& (post == (Cpu {
                h: (((pre.spec_hl() + 65535) % 65536) as int / 256) as u8,
                l: (((pre.spec_hl() + 65535) % 65536) % 256) as u8,
                ..pre
            }))
        } else if code == 0x2C {
            &&& (cycles == 4)
            &&& (post == (Cpu {
                l: spec_add8_val(pre.l, 1),
                f: spec_flags(
                    spec_add8_val(pre.l, 1) == 0,
                    false,
                    pre.l % 16 == 15,
                    pre.spec_cf(),
                ),
                ..pre
            }))
        } else if code == 0x2D {
            &&& (cycles == 4)
            &&& (post == (Cpu {
                l: spec_sub8_val(pre.l, 1),
                f: spec_flags(
                    spec_sub8_val(pre.l, 1) == 0,
                    true,
                    pre.l % 16 == 0,
                    pre.spec_cf(),
                ),
                ..pre
            }))
        } else if code == 0x2E {
            &&& (cycles == 8)
            &&& (post == (Cpu {
                l: pre.spec_imm8(),
                pc: ((pre.pc + 1) % 65536) as u16,
                ..pre
            }))
        } else if code == 0x2F {
            &&& (cycles == 4)
            &&& (post == (Cpu {
                a: (255 - pre.a) as u8,
                f: spec_flags(pre.spec_zf(), true, true, pre.spec_cf()),
                ..pre
            }))
        } else {
            true
        }
    }

    /// Dispatch of primary opcodes 0x20..=0x2F.
    #[verifier::rlimit(100)]
    #[verifier::spinoff_prover]
    fn excute_op_20(&mut self, code: u8) -> (r: Result<u8, CpuError>)
        requires
            old(self).wf(),
            0x20 <= code <= 0x2F,
        ensures
            final(self).wf(),
            r is Ok ==> 4 <= r->Ok_0 <= 24,
            r is Err <==> Self::spec_illegal_opcode(code),
            r is Err ==> *final(self) == *old(self),
            r is Ok ==> Self::spec_op_effect_20(*old(self), *final(self), code, r->Ok_0),
            crate::bus::same_frame_counters(old(self).bus, final(self).bus),
            final(self).t_cycles == old(self).t_cycles,
            final(self).pending_ticks == old(self).pending_ticks,
    {
        proof {
            broadcast use crate::bus::lemma_write_preserves_frame_counters;
        }
        match code {
            0x20 => Ok(self.jr_nz()),
            0x21 => Ok(self.ld_21()),
            0x22 => Ok(self.ld_22()),
            0x23 => Ok(self.inc_23()),
            0x24 => Ok(self.inc_24()),
            0x25 => Ok(self.dec_25()),
            0x26 => Ok(self.ld_26()),
            0x27 => Ok(self.decimal_adjust_accumlator()),
            0x28 => Ok(self.jr_z()),
            0x29 => Ok(self.add_29()),
            0x2A => Ok(self.ld_2A()),
            0x2B => Ok(self.dec_2B()),
            0x2C => Ok(self.inc_2C()),
            0x2D => Ok(self.dec_2D()),
            0x2E => Ok(self.ld_2E()),
            0x2F => Ok(self.cpl()),
            _ => Err(CpuError::UnknownOpcode),
        }
    }

    /// The exact effect of a primary-table opcode in 0x30..=0x3F: the
    /// clauses of each instruction's own contract, as a pre/post relation.
    pub open spec fn spec_op_effect_30(pre: Cpu, post: Cpu, code: u8, cycles: u8) -> bool {
        if code == 0x30 {
            &&& (!pre.spec_cf() ==> cycles == 12 && post == (Cpu {
                pc: pre.spec_jr_target(),
                jmp_flag: true,
                ..pre
            }))
            &&& (!(!pre.spec_cf()) ==> cycles == 8 && post == (Cpu {
                pc: ((pre.pc + 1) % 65536) as u16,
                ..pre
            }))
        } else if code == 0x31 {
            &&& (cycles == 12)
            &&& (post == (Cpu {
                sp: pre.spec_imm16(),
                pc: ((pre.pc + 2) % 65536) as u16,
                ..pre
            }))
        } else if code == 0x32 {
            &&& (cycles == 8)
            &&& (post == (Cpu {
                h: (((pre.spec_hl() + 65535) % 65536) as int / 256) as u8,
                l: (((pre.spec_hl() + 65535) % 65536) % 256) as u8,
                bus: post.bus,
                ..pre
            }))
            &&& (pre.bus.spec_write_effect(pre.spec_hl(), pre.a, post.bus))
        } else if code == 0x33 {
            &&& (cycles == 8)
            &&& (post == (Cpu { sp: ((pre.sp + 1) % 65536) as u16, ..pre }))
        } else if code == 0x34 {
            &&& (cycles == 12)
            &&& (({
                let v = pre.bus.spec_read(pre.spec_hl());
                &&& post == (Cpu {
                    f: spec_flags(
                        spec_add8_val(v, 1) == 0,
                        false,
                        v % 16 == 15,
                        pre.spec_cf(),
                    ),
                    bus: post.bus,
                    ..pre
                })
                &&& pre.bus.spec_write_effect(
                    pre.spec_hl(),
                    spec_add8_val(v, 1),
                    post.bus,
                )
            }))
        } else if code == 0x35 {
            &&& (cycles == 12)
            &&& (({
                let v = pre.bus.spec_read(pre.spec_hl());
                &&& post == (Cpu {
                    f: spec_flags(
                        spec_sub8_val(v, 1) == 0,
                        true,
                        v % 16 == 0,
                        pre.spec_cf(),
                    ),
                    bus: post.bus,
                    ..pre
                })
                &&& pre.bus.spec_write_effect(
                    pre.spec_hl(),
                    spec_sub8_val(v, 1),
                    post.bus,
                )
            }))
        } else if code == 0x36 {
            &&& (cycles == 12)
            &&& (post == (Cpu {
                pc: ((pre.pc + 1) % 65536) as u16,
                bus: post.bus,
                ..pre
            }))
            &&& (pre.bus.spec_write_effect(
                pre.spec_hl(),
                pre.spec_imm8(),
                post.bus,
            ))
        } else if code == 0x37 {
            &&& (cycles == 4)
            &&& (post == (Cpu {
                f: spec_flags(pre.spec_zf(), false, false, true),
                ..pre
            }))
        } else if code == 0x38 {
            &&& (pre.spec_cf() ==> cycles == 12 && post == (Cpu {
                pc: pre.spec_jr_target(),
                jmp_flag: true,
                ..pre
            }))
            &&& (!(pre.spec_cf()) ==> cycles == 8 && post == (Cpu {
                pc: ((pre.pc + 1) % 65536) as u16,
                ..pre
            }))
        } else if code == 0x39 {
            &&& (cycles == 8)
            &&& (post == (Cpu {
                h: (((pre.spec_hl() + pre.sp) % 65536) as int / 256) as u8,
                l: (((pre.spec_hl() + pre.sp) % 65536) % 256) as u8,
                f: spec_flags(
                    pre.spec_zf(),
                    false,
                    pre.spec_hl() % 4096 + pre.sp % 4096 > 4095,
                    pre.spec_hl() + pre.sp > 65535,
                ),
                ..pre
            }))
        } else if code == 0x3A {
            &&& (cycles == 8)
            &&& (post == (Cpu {
                a: pre.bus.spec_read(pre.spec_hl()),
                h: (((pre.spec_hl() + 65535) % 65536) as int / 256) as u8,
                l: (((pre.spec_hl() + 65535) % 65536) % 256) as u8,
                ..pre
            }))
        } else if code == 0x3B {
            &&& (cycles == 8)
            &&& (post == (Cpu { sp: ((pre.sp + 65535) % 65536) as u16, ..pre }))
        } else if code == 0x3C {
            &&& (cycles == 4)
            &&& (post == (Cpu {
                a: spec_add8_val(pre.a, 1),
                f: spec_flags(
                    spec_add8_val(pre.a, 1) == 0,
                    false,
                    pre.a % 16 == 15,
                    pre.spec_cf(),
                ),
                ..pre
            }))
        } else if code == 0x3D {
            &&& (cycles == 4)
            &&& (post == (Cpu {
                a: spec_sub8_val(pre.a, 1),
                f: spec_flags(
                    spec_sub8_val(pre.a, 1) == 0,
                    true,
                    pre.a % 16 == 0,
                    pre.spec_cf(),
                ),
                ..pre
            }))
        } else if code == 0x3E {
            &&& (cycles == 8)
            &&& (post == (Cpu {
                a: pre.spec_imm8(),
                pc: ((pre.pc + 1) % 65536) as u16,
                ..pre
            }))
        } else if code == 0x3F {
            &&& (cycles == 4)
            &&& (post == (Cpu {
                f: spec_flags(pre.spec_zf(), false, false, !pre.spec_cf()),
                ..pre
            }))
        } else {
            true
        }
    }

    /// Dispatch of primary opcodes 0x30..=0x3F.
    #[verifier::rlimit(100)]
    #[verifier::spinoff_prover]
    fn excute_op_30(&mut self, code: u8) -> (r: Result<u8, CpuError>)
        requires
            old(self).wf(),
            0x30 <= code <= 0x3F,
        ensures
            final(self).wf(),
            r is Ok ==> 4 <= r->Ok_0 <= 24,
            r is Err <==> Self::spec_illegal_opcode(code),
            r is Err ==> *final(self) == *old(self),
            r is Ok ==> Self::spec_op_effect_30(*old(self), *final(self), code, r->Ok_0),
            crate::bus::same_frame_counters(old(self).bus, final(self).bus),
            final(self).t_cycles == old(self).t_cycles,
            final(self).pending_ticks == old(self).pending_ticks,
    {
        proof {
            broadcast use crate::bus::lemma_write_preserves_frame_counters;
        }
        match code {
            0x30 => Ok(self.jr_nc()),
            0x31 => Ok(self.ld_31()),
            0x32 => Ok(self.ld_32()),
            0x33 => Ok(self.inc_33()),
            0x34 => Ok(self.inc_34()),
            0x35 => Ok(self.dec_35()),
            0x36 => Ok(self.ld_36()),
            0x37 => Ok(self.scf()),
            0x38 => Ok(self.jr_c()),
            0x39 => Ok(self.add_39()),
            0x3A => Ok(self.ld_3A()),
            0x3B => Ok(self.dec_3B()),
            0x3C => Ok(self.inc_3C()),
            0x3D => Ok(self.dec_3D()),
            0x3E => Ok(self.ld_3E()),
            0x3F => Ok(self.ccf()),
            _ => Err(CpuError::UnknownOpcode),
        }
    }

    /// The exact effect of a primary-table opcode in 0x40..=0x4F: the
    /// clauses of each instruction's own contract, as a pre/post relation.
    pub open spec fn spec_op_effect_40(pre: Cpu, post: Cpu, code: u8, cycles: u8) -> bool {
        if code == 0x40 {
            &&& (cycles == 4)
            &&& (post == (Cpu { b: pre.b, ..pre }))
        } else if code == 0x41 {
            &&& (cycles == 4)
            &&& (post == (Cpu { b: pre.c, ..pre }))
        } else if code == 0x42 {
            &&& (cycles == 4)
            &&& (post == (Cpu { b: pre.d, ..pre }))
        } else if code == 0x43 {
            &&& (cycles == 4)
            &&& (post == (Cpu { b: pre.e, ..pre }))
        } else if code == 0x44 {
            &&& (cycles == 4)
            &&& (post == (Cpu { b: pre.h, ..pre }))
        } else if code == 0x45 {
            &&& (cycles == 4)
            &&& (post == (Cpu { b: pre.l, ..pre }))
        } else if code == 0x46 {
            &&& (cycles == 8)
            &&& (post == (Cpu {
                b: pre.bus.spec_read(pre.spec_hl()),
                ..pre
            }))
        } else if code == 0x47 {
            &&& (cycles == 4)
            &&& (post == (Cpu { b: pre.a, ..pre }))
        } else if code == 0x48 {
            &&& (cycles == 4)
            &&& (post == (Cpu { c: pre.b, ..pre }))
        } else if code == 0x49 {
            &&& (cycles == 4)
            &&& (post == (Cpu { c: pre.c, ..pre }))
        } else if code == 0x4A {
            &&& (cycles == 4)
            &&& (post == (Cpu { c: pre.d, ..pre }))
        } else if code == 0x4B {
            &&& (cycles == 4)
            &&& (post == (Cpu { c: pre.e, ..pre }))
        } else if code == 0x4C {
            &&& (cycles == 4)
            &&& (post == (Cpu { c: pre.h, ..pre }))
        } else if code == 0x4D {
            &&& (cycles == 4)
            &&& (post == (Cpu { c: pre.l, ..pre }))
        } else if code == 0x4E {
            &&& (cycles == 8)
            &&& (post == (Cpu {
                c: pre.bus.spec_read(pre.spec_hl()),
                ..pre
            }))
        } else if code == 0x4F {
            &&& (cycles == 4)
            &&& (post == (Cpu { c: pre.a, ..pre }))
        } else {
            true
        }
    }

    /// Dispatch of primary opcodes 0x40..=0x4F.
    #[verifier::rlimit(100)]
    #[verifier::spinoff_prover]
    fn excute_op_40(&mut self, code: u8) -> (r: Result<u8, CpuError>)
        requires
            old(self).wf(),
            0x40 <= code <= 0x4F,
        ensures
            final(self).wf(),
            r is Ok ==> 4 <= r->Ok_0 <= 24,
            r is Err <==> Self::spec_illegal_opcode(code),
            r is Err ==> *final(self) == *old(self),
            r is Ok ==> Self::spec_op_effect_40(*old(self), *final(self), code, r->Ok_0),
            crate::bus::same_frame_counters(old(self).bus, final(self).bus),
            final(self).t_cycles == old(self).t_cycles,
            final(self).pending_ticks == old(self).pending_ticks,
    {
        proof {
            broadcast use crate::bus::lemma_write_preserves_frame_counters;
        }
        match code {
            0x40 => Ok(self.ld_40()),
            0x41 => Ok(self.ld_41()),
            0x42 => Ok(self.ld_42()),
            0x43 => Ok(self.ld_43()),
            0x44 => Ok(self.ld_44()),
            0x45 => Ok(self.ld_45()),
            0x46 => Ok(self.ld_46()),
            0x47 => Ok(self.ld_47()),
            0x48 => Ok(self.ld_48()),
            0x49 => Ok(self.ld_49()),
            0x4A => Ok(self.ld_4A()),
            0x4B => Ok(self.ld_4B()),
            0x4C => Ok(self.ld_4C()),
            0x4D => Ok(self.ld_4D()),
            0x4E => Ok(self.ld_4E()),
            0x4F => Ok(self.ld_4F()),
            _ => Err(CpuError::UnknownOpcode),
        }
    }

    /// The exact effect of a primary-table opcode in 0x50..=0x5F: the
    /// clauses of each instruction's own contract, as a pre/post relation.
    pub open spec fn spec_op_effect_50(pre: Cpu, post: Cpu, code: u8, cycles: u8) -> bool {
        if code == 0x50 {
            &&& (cycles == 4)
            &&& (post == (Cpu { d: pre.b, ..pre }))
        } else if code == 0x51 {
            &&& (cycles == 4)
            &&& (post == (Cpu { d: pre.c, ..pre }))
        } else if code == 0x52 {
            &&& (cycles == 4)
            &&& (post == (Cpu { d: pre.d, ..pre }))
        } else if code == 0x53 {
            &&& (cycles == 4)
            &&& (post == (Cpu { d: pre.e, ..pre }))
        } else if code == 0x54 {
            &&& (cycles == 4)
            &&& (post == (Cpu { d: pre.h, ..pre }))
        } else if code == 0x55 {
            &&& (cycles == 4)
            &&& (post == (Cpu { d: pre.l, ..pre }))
        } else if code == 0x56 {
            &&& (cycles == 8)
            &&& (post == (Cpu {
                d: pre.bus.spec_read(pre.spec_hl()),
                ..pre
            }))
        } else if code == 0x57 {
            &&& (cycles == 4)
            &&& (post == (Cpu { d: pre.a, ..pre }))
        } else if code == 0x58 {
            &&& (cycles == 4)
            &&& (post == (Cpu { e: pre.b, ..pre }))
        } else if code == 0x59 {
            &&& (cycles == 4)
            &&& (post == (Cpu { e: pre.c, ..pre }))
        } else if code == 0x5A {
            &&& (cycles == 4)
            &&& (post == (Cpu { e: pre.d, ..pre }))
        } else if code == 0x5B {
            &&& (cycles == 4)
            &&& (post == (Cpu { e: pre.e, ..pre }))
        } else if code == 0x5C {
            &&& (cycles == 4)
            &&& (post == (Cpu { e: pre.h, ..pre }))
        } else if code == 0x5D {
            &&& (cycles == 4)
            &&& (post == (Cpu { e: pre.l, ..pre }))
        } else if code == 0x5E {
            &&& (cycles == 8)
            &&& (post == (Cpu {
                e: pre.bus.spec_read(pre.spec_hl()),
                ..pre
            }))
        } else if code == 0x5F {
            &&& (cycles == 4)
            &&& (post == (Cpu { e: pre.a, ..pre }))
        } else {
            true
        }
    }

    /// Dispatch of primary opcodes 0x50..=0x5F.
    #[verifier::rlimit(100)]
    #[verifier::spinoff_prover]
    fn excute_op_50(&mut self, code: u8) -> (r: Result<u8, CpuError>)
        requires
            old(self).wf(),
            0x50 <= code <= 0x5F,
        ensures
            final(self).wf(),
            r is Ok ==> 4 <= r->Ok_0 <= 24,
            r is Err <==> Self::spec_illegal_opcode(code),
            r is Err ==> *final(self) == *old(self),
            r is Ok ==> Self::spec_op_effect_50(*old(self), *final(self), code, r->Ok_0),
            crate::bus::same_frame_counters(old(self).bus, final(self).bus),
            final(self).t_cycles == old(self).t_cycles,
            final(self).pending_ticks == old(self).pending_ticks,
    {
        proof {
            broadcast use crate::bus::lemma_write_preserves_frame_counters;
        }
        match code {
            0x50 => Ok(self.ld_50()),
            0x51 => Ok(self.ld_51()),
            0x52 => Ok(self.ld_52()),
            0x53 => Ok(self.ld_53()),
            0x54 => Ok(self.ld_54()),
            0x55 => Ok(self.ld_55()),
            0x56 => Ok(self.ld_56()),
            0x57 => Ok(self.ld_57()),
            0x58 => Ok(self.ld_58()),
            0x59 => Ok(self.ld_59()),
            0x5A => Ok(self.ld_5A()),
            0x5B => Ok(self.ld_5B()),
            0x5C => Ok(self.ld_5C()),
            0x5D => Ok(self.ld_5D()),
            0x5E => Ok(self.ld_5E()),
            0x5F => Ok(self.ld_5F()),
            _ => Err(CpuError::UnknownOpcode),
        }
    }

    /// The exact effect of a primary-table opcode in 0x60..=0x6F: the
    /// clauses of each instruction's own contract, as a pre/post relation.
    pub open spec fn spec_op_effect_60(pre: Cpu, post: Cpu, code: u8, cycles: u8) -> bool {
        if code == 0x60 {
            &&& (cycles == 4)
            &&& (post == (Cpu { h: pre.b, ..pre }))
        } else if code == 0x61 {
            &&& (cycles == 4)
            &&& (post == (Cpu { h: pre.c, ..pre }))
        } else if code == 0x62 {
            &&& (cycles == 4)
            &&& (post == (Cpu { h: pre.d, ..pre }))
        } else if code == 0x63 {
            &&& (cycles == 4)
            &&& (post == (Cpu { h: pre.e, ..pre }))
        } else if code == 0x64 {
            &&& (cycles == 4)
            &&& (post == (Cpu { h: pre.h, ..pre }))
        } else if code == 0x65 {
            &&& (cycles == 4)
            &&& (post == (Cpu { h: pre.l, ..pre }))
        } else if code == 0x66 {
            &&& (cycles == 8)
            &&& (post == (Cpu {
                h: pre.bus.spec_read(pre.spec_hl()),
                ..pre
            }))
        } else if code == 0x67 {
            &&& (cycles == 4)
            &&& (post == (Cpu { h: pre.a, ..pre }))
        } else if code == 0x68 {
            &&& (cycles == 4)
            &&& (post == (Cpu { l: pre.b, ..pre }))
        } else if code == 0x69 {
            &&& (cycles == 4)
            &&& (post == (Cpu { l: pre.c, ..pre }))
        } else if code == 0x6A {
            &&& (cycles == 4)
            &&& (post == (Cpu { l: pre.d, ..pre }))
        } else if code == 0x6B {
            &&& (cycles == 4)
            &&& (post == (Cpu { l: pre.e, ..pre }))
        } else if code == 0x6C {
            &&& (cycles == 4)
            &&& (post == (Cpu { l: pre.h, ..pre }))
        } else if code == 0x6D {
            &&& (cycles == 4)
            &&& (post == (Cpu { l: pre.l, ..pre }))
        } else if code == 0x6E {
            &&& (cycles == 8)
            &&& (post == (Cpu {
                l: pre.bus.spec_read(pre.spec_hl()),
                ..pre
            }))
        } else if code == 0x6F {
            &&& (cycles == 4)
            &&& (post == (Cpu { l: pre.a, ..pre }))
        } else {
            true
        }
    }

    /// Dispatch of primary opcodes 0x60..=0x6F.
    #[verifier::rlimit(100)]
    #[verifier::spinoff_prover]
    fn excute_op_60(&mut self, code: u8) -> (r: Result<u8, CpuError>)
        requires
            old(self).wf(),
            0x60 <= code <= 0x6F,
        ensures
            final(self).wf(),
            r is Ok ==> 4 <= r->Ok_0 <= 24,
            r is Err <==> Self::spec_illegal_opcode(code),
            r is Err ==> *final(self) == *old(self),
            r is Ok ==> Self::spec_op_effect_60(*old(self), *final(self), code, r->Ok_0),
            crate::bus::same_frame_counters(old(self).bus, final(self).bus),
            final(self).t_cycles == old(self).t_cycles,
            final(self).pending_ticks == old(self).pending_ticks,
    {
        proof {
            broadcast use crate::bus::lemma_write_preserves_frame_counters;
        }
        match code {
            0x60 => Ok(self.ld_60()),
            0x61 => Ok(self.ld_61()),
            0x62 => Ok(self.ld_62()),
            0x63 => Ok(self.ld_63()),
            0x64 => Ok(self.ld_64()),
            0x65 => Ok(self.ld_65()),
            0x66 => Ok(self.ld_66()),
            0x67 => Ok(self.ld_67()),
            0x68 => Ok(self.ld_68()),
            0x69 => Ok(self.ld_69()),
            0x6A => Ok(self.ld_6A()),
            0x6B => Ok(self.ld_6B()),
            0x6C => Ok(self.ld_6C()),
            0x6D => Ok(self.ld_6D()),
            0x6E => Ok(self.ld_6E()),
            0x6F => Ok(self.ld_6F()),
            _ => Err(CpuError::UnknownOpcode),
        }
    }

    /// The exact effect of a primary-table opcode in 0x70..=0x7F: the
    /// clauses of each instruction's own contract, as a pre/post relation.
    pub open spec fn spec_op_effect_70(pre: Cpu, post: Cpu, code: u8, cycles: u8) -> bool {
        if code == 0x70 {
            &&& (cycles == 8)
            &&& (post == (Cpu { bus: post.bus, ..pre }))
            &&& (pre.bus.spec_write_effect(pre.spec_hl(), pre.b, post.bus))
        } else if code == 0x71 {
            &&& (cycles == 8)
            &&& (post == (Cpu { bus: post.bus, ..pre }))
            &&& (pre.bus.spec_write_effect(pre.spec_hl(), pre.c, post.bus))
        } else if code == 0x72 {
            &&& (cycles == 8)
            &&& (post == (Cpu { bus: post.bus, ..pre }))
            &&& (pre.bus.spec_write_effect(pre.spec_hl(), pre.d, post.bus))
        } else if code == 0x73 {
            &&& (cycles == 8)
            &&& (post == (Cpu { bus: post.bus, ..pre }))
            &&& (pre.bus.spec_write_effect(pre.spec_hl(), pre.e, post.bus))
        } else if code == 0x74 {
            &&& (cycles == 8)
            &&& (post == (Cpu { bus: post.bus, ..pre }))
            &&& (pre.bus.spec_write_effect(pre.spec_hl(), pre.h, post.bus))
        } else if code == 0x75 {
            &&& (cycles == 8)
            &&& (post == (Cpu { bus: post.bus, ..pre }))
            &&& (pre.bus.spec_write_effect(pre.spec_hl(), pre.l, post.bus))
        } else if code == 0x76 {
            &&& (cycles == 4)
            &&& (post == (Cpu { halt: true, ..pre }))
        } else if code == 0x77 {
            &&& (cycles == 8)
            &&& (post == (Cpu { bus: post.bus, ..pre }))
            &&& (pre.bus.spec_write_effect(pre.spec_hl(), pre.a, post.bus))
        } else if code == 0x78 {
            &&& (cycles == 4)
            &&& (post == (Cpu { a: pre.b, ..pre }))
        } else if code == 0x79 {
            &&& (cycles == 4)
            &&& (post == (Cpu { a: pre.c, ..pre }))
        } else if code == 0x7A {
            &&& (cycles == 4)
            &&& (post == (Cpu { a: pre.d, ..pre }))
        } else if code == 0x7B {
            &&& (cycles == 4)
            &&& (post == (Cpu { a: pre.e, ..pre }))
        } else if code == 0x7C {
            &&& (cycles == 4)
            &&& (post == (Cpu { a: pre.h, ..pre }))
        } else if code == 0x7D {
            &&& (cycles == 4)
            &&& (post == (Cpu { a: pre.l, ..pre }))
        } else if code == 0x7E {
            &&& (cycles == 8)
            &&& (post == (Cpu {
                a: pre.bus.spec_read(pre.spec_hl()),
                ..pre
            }))
        } else if code == 0x7F {
            &&& (cycles == 4)
            &&& (post == (Cpu { a: pre.a, ..pre }))
        } else {
            true
        }
    }

    /// Dispatch of primary opcodes 0x70..=0x7F.
    #[verifier::rlimit(100)]
    #[verifier::spinoff_prover]
    fn excute_op_70(&mut self, code: u8) -> (r: Result<u8, CpuError>)
        requires
            old(self).wf(),
            0x70 <= code <= 0x7F,
        ensures
            final(self).wf(),
            r is Ok ==> 4 <= r->Ok_0 <= 24,
            r is Err <==> Self::spec_illegal_opcode(code),
            r is Err ==> *final(self) == *old(self),
            r is Ok ==> Self::spec_op_effect_70(*old(self), *final(self), code, r->Ok_0),
            crate::bus::same_frame_counters(old(self).bus, final(self).bus),
            final(self).t_cycles == old(self).t_cycles,
            final(self).pending_ticks == old(self).pending_ticks,
    {
        proof {
            broadcast use crate::bus::lemma_write_preserves_frame_counters;
        }
        match code {
            0x70 => Ok(self.ld_70()),
            0x71 => Ok(self.ld_71()),
            0x72 => Ok(self.ld_72()),
            0x73 => Ok(self.ld_73()),
            0x74 => Ok(self.ld_74()),
            0x75 => Ok(self.ld_75()),
            0x76 => Ok(self.halt()),
            0x77 => Ok(self.ld_77()),
            0x78 => Ok(self.ld_78()),
            0x79 => Ok(self.ld_79()),
            0x7A => Ok(self.ld_7A()),
            0x7B => Ok(self.ld_7B()),
            0x7C => Ok(self.ld_7C()),
            0x7D => Ok(self.ld_7D()),
            0x7E => Ok(self.ld_7E()),
            0x7F => Ok(self.ld_7F()),
            _ => Err(CpuError::UnknownOpcode),
        }
    }

    /// The exact effect of a primary-table opcode in 0x80..=0x8F: the
    /// clauses of each instruction's own contract, as a pre/post relation.
    pub open spec fn spec_op_effect_80(pre: Cpu, post: Cpu, code: u8, cycles: u8) -> bool {
        if code == 0x80 {
            &&& (cycles == 4)
            &&& (post == (Cpu {
                a: spec_add8_val(pre.a, pre.b),
                f: spec_flags(
                    spec_add8_val(pre.a, pre.b) == 0,
                    false,
                    pre.a % 16 + pre.b % 16 > 15,
                    pre.a + pre.b > 255,
                ),
                ..pre
            }))
        } else if code == 0x81 {
            &&& (cycles == 4)
            &&& (post == (Cpu {
                a: spec_add8_val(pre.a, pre.c),
                f: spec_flags(
                    spec_add8_val(pre.a, pre.c) == 0,
                    false,
                    pre.a % 16 + pre.c % 16 > 15,
                    pre.a + pre.c > 255,
                ),
                ..pre
            }))
        } else if code == 0x82 {
            &&& (cycles == 4)
            &&& (post == (Cpu {
                a: spec_add8_val(pre.a, pre.d),
                f: spec_flags(
                    spec_add8_val(pre.a, pre.d) == 0,
                    false,
                    pre.a % 16 + pre.d % 16 > 15,
                    pre.a + pre.d > 255,
                ),
                ..pre
            }))
        } else if code == 0x83 {
            &&& (cycles == 4)
            &&& (post == (Cpu {
                a: spec_add8_val(pre.a, pre.e),
                f: spec_flags(
                    spec_add8_val(pre.a, pre.e) == 0,
                    false,
                    pre.a % 16 + pre.e % 16 > 15,
                    pre.a + pre.e > 255,
                ),
                ..pre
            }))
        } else if code == 0x84 {
            &&& (cycles == 4)
            &&& (post == (Cpu {
                a: spec_add8_val(pre.a, pre.h),
                f: spec_flags(
                    spec_add8_val(pre.a, pre.h) == 0,
                    false,
                    pre.a % 16 + pre.h % 16 > 15,
                    pre.a + pre.h > 255,
                ),
                ..pre
            }))
        } else if code == 0x85 {
            &&& (cycles == 4)
            &&& (post == (Cpu {
                a: spec_add8_val(pre.a, pre.l),
                f: spec_flags(
                    spec_add8_val(pre.a, pre.l) == 0,
                    false,
                    pre.a % 16 + pre.l % 16 > 15,
                    pre.a + pre.l > 255,
                ),
                ..pre
            }))
        } else if code == 0x86 {
            &&& (cycles == 8)
            &&& (post == (Cpu {
                a: spec_add8_val(pre.a, pre.bus.spec_read(pre.spec_hl())),
                f: spec_flags(
                    spec_add8_val(pre.a, pre.bus.spec_read(pre.spec_hl())) == 0,
                    false,
                    pre.a % 16 + (pre.bus.spec_read(pre.spec_hl())) % 16 > 15,
                    pre.a + pre.bus.spec_read(pre.spec_hl()) > 255,
                ),
                ..pre
            }))
        } else if code == 0x87 {
            &&& (cycles == 4)
            &&& (post == (Cpu {
                a: spec_add8_val(pre.a, pre.a),
                f: spec_flags(
                    spec_add8_val(pre.a, pre.a) == 0,
                    false,
                    pre.a % 16 + pre.a % 16 > 15,
                    pre.a + pre.a > 255,
                ),
                ..pre
            }))
        } else if code == 0x88 {
            &&& (cycles == 4)
            &&& (post == (Cpu {
                a: (((pre.a + pre.b + pre.spec_carry()) % 256)) as u8,
                f: spec_flags(
                    (pre.a + pre.b + pre.spec_carry()) % 256 == 0,
                    false,
                    pre.a % 16 + (pre.b) % 16 + pre.spec_carry() > 15,
                    pre.a + pre.b + pre.spec_carry() > 255,
                ),
                ..pre
            }))
        } else if code == 0x89 {
            &&& (cycles == 4)
            &&& (post == (Cpu {
                a: (((pre.a + pre.c + pre.spec_carry()) % 256)) as u8,
                f: spec_flags(
                    (pre.a + pre.c + pre.spec_carry()) % 256 == 0,
                    false,
                    pre.a % 16 + (pre.c) % 16 + pre.spec_carry() > 15,
                    pre.a + pre.c + pre.spec_carry() > 255,
                ),
                ..pre
            }))
        } else if code == 0x8A {
            &&& (cycles == 4)
            &&& (post == (Cpu {
                a: (((pre.a + pre.d + pre.spec_carry()) % 256)) as u8,
                f: spec_flags(
                    (pre.a + pre.d + pre.spec_carry()) % 256 == 0,
                    false,
                    pre.a % 16 + (pre.d) % 16 + pre.spec_carry() > 15,
                    pre.a + pre.d + pre.spec_carry() > 255,
                ),
                ..pre
            }))
        } else if code == 0x8B {
            &&& (cycles == 4)
            &&& (post == (Cpu {
                a: (((pre.a + pre.e + pre.spec_carry()) % 256)) as u8,
                f: spec_flags(
                    (pre.a + pre.e + pre.spec_carry()) % 256 == 0,
                    false,
                    pre.a % 16 + (pre.e) % 16 + pre.spec_carry() > 15,
                    pre.a + pre.e + pre.spec_carry() > 255,
                ),
                ..pre
            }))
        } else if code == 0x8C {
            &&& (cycles == 4)
            &&& (post == (Cpu {
                a: (((pre.a + pre.h + pre.spec_carry()) % 256)) as u8,
                f: spec_flags(
                    (pre.a + pre.h + pre.spec_carry()) % 256 == 0,
                    false,
                    pre.a % 16 + (pre.h) % 16 + pre.spec_carry() > 15,
                    pre.a + pre.h + pre.spec_carry() > 255,
                ),
                ..pre
            }))
        } else if code == 0x8D {
            &&& (cycles == 4)
            &&& (post == (Cpu {
                a: (((pre.a + pre.l + pre.spec_carry()) % 256)) as u8,
                f: spec_flags(
                    (pre.a + pre.l + pre.spec_carry()) % 256 == 0,
                    false,
                    pre.a % 16 + (pre.l) % 16 + pre.spec_carry() > 15,
                    pre.a + pre.l + pre.spec_carry() > 255,
                ),
                ..pre
            }))
        } else if code == 0x8E {
            &&& (cycles == 8)
            &&& (post == (Cpu {
                a: (((pre.a + pre.bus.spec_read(pre.spec_hl()) + pre.spec_carry()) % 256)) as u8,
                f: spec_flags(
                    (pre.a + pre.bus.spec_read(pre.spec_hl()) + pre.spec_carry()) % 256 == 0,
                    false,
                    pre.a % 16 + (pre.bus.spec_read(pre.spec_hl())) % 16 + pre.spec_carry() > 15,
                    pre.a + pre.bus.spec_read(pre.spec_hl()) + pre.spec_carry() > 255,
                ),
                ..pre
            }))
        } else if code == 0x8F {
            &&& (cycles == 4)
            &&& (post == (Cpu {
                a: (((pre.a + pre.a + pre.spec_carry()) % 256)) as u8,
                f: spec_flags(
                    (pre.a + pre.a + pre.spec_carry()) % 256 == 0,
                    false,
                    pre.a % 16 + (pre.a) % 16 + pre.spec_carry() > 15,
                    pre.a + pre.a + pre.spec_carry() > 255,
                ),
                ..pre
            }))
        } else {
            true
        }
    }

    /// Dispatch of primary opcodes 0x80..=0x8F.
    #[verifier::rlimit(100)]
    #[verifier::spinoff_prover]
    fn excute_op_80(&mut self, code: u8) -> (r: Result<u8, CpuError>)
        requires
            old(self).wf(),
            0x80 <= code <= 0x8F,
        ensures
            final(self).wf(),
            r is Ok ==> 4 <= r->Ok_0 <= 24,
            r is Err <==> Self::spec_illegal_opcode(code),
            r is Err ==> *final(self) == *old(self),
            r is Ok ==> Self::spec_op_effect_80(*old(self), *final(self), code, r->Ok_0),
            crate::bus::same_frame_counters(old(self).bus, final(self).bus),
            final(self).t_cycles == old(self).t_cycles,
            final(self).pending_ticks == old(self).pending_ticks,
    {
        proof {
            broadcast use crate::bus::lemma_write_preserves_frame_counters;
        }
        match code {
            0x80 => Ok(self.add_80()),
            0x81 => Ok(self.add_81()),
            0x82 => Ok(self.add_82()),
            0x83 => Ok(self.add_83()),
            0x84 => Ok(self.add_84()),
            0x85 => Ok(self.add_85()),
            0x86 => Ok(self.add_86()),
            0x87 => Ok(self.add_87()),
            0x88 => Ok(self.adc_88()),
            0x89 => Ok(self.adc_89()),
            0x8A => Ok(self.adc_8A()),
            0x8B => Ok(self.adc_8B()),
            0x8C => Ok(self.adc_8C()),
            0x8D => Ok(self.adc_8D()),
            0x8E => Ok(self.adc_8E()),
            0x8F => Ok(self.adc_8F()),
            _ => Err(CpuError::UnknownOpcode),
        }
    }

    /// The exact effect of a primary-table opcode in 0x90..=0x9F: the
    /// clauses of each instruction's own contract, as a pre/post relation.
    pub open spec fn spec_op_effect_90(pre: Cpu, post: Cpu, code: u8, cycles: u8) -> bool {
        if code == 0x90 {
            &&& (cycles == 4)
            &&& (post == (Cpu {
                a: spec_sub8_val(pre.a, pre.b),
                f: spec_flags(
                    spec_sub8_val(pre.a, pre.b) == 0,
                    true,
                    pre.a % 16 < (pre.b) % 16,
                    pre.a < pre.b,
                ),
                ..pre
            }))
        } else if code == 0x91 {
            &&& (cycles == 4)
            &&& (post == (Cpu {
                a: spec_sub8_val(pre.a, pre.c),
                f: spec_flags(
                    spec_sub8_val(pre.a, pre.c) == 0,
                    true,
                    pre.a % 16 < (pre.c) % 16,
                    pre.a < pre.c,
                ),
                ..pre
            }))
        } else if code == 0x92 {
            &&& (cycles == 4)
            &&& (post == (Cpu {
                a: spec_sub8_val(pre.a, pre.d),
                f: spec_flags(
                    spec_sub8_val(pre.a, pre.d) == 0,
                    true,
                    pre.a % 16 < (pre.d) % 16,
                    pre.a < pre.d,
                ),
                ..pre
            }))
        } else if code == 0x93 {
            &&& (cycles == 4)
            &&& (post == (Cpu {
                a: spec_sub8_val(pre.a, pre.e),
                f: spec_flags(
                    spec_sub8_val(pre.a, pre.e) == 0,
                    true,
                    pre.a % 16 < (pre.e) % 16,
                    pre.a < pre.e,
                ),
                ..pre
            }))
        } else if code == 0x94 {
            &&& (cycles == 4)
            &&& (post == (Cpu {
                a: spec_sub8_val(pre.a, pre.h),
                f: spec_flags(
                    spec_sub8_val(pre.a, pre.h) == 0,
                    true,
                    pre.a % 16 < (pre.h) % 16,
                    pre.a < pre.h,
                ),
                ..pre
            }))
        } else if code == 0x95 {
            &&& (cycles == 4)
            &&& (post == (Cpu {
                a: spec_sub8_val(pre.a, pre.l),
                f: spec_flags(
                    spec_sub8_val(pre.a, pre.l) == 0,
                    true,
                    pre.a % 16 < (pre.l) % 16,
                    pre.a < pre.l,
                ),
                ..pre
            }))
        } else if code == 0x96 {
            &&& (cycles == 8)
            &&& (post == (Cpu {
                a: spec_sub8_val(pre.a, pre.bus.spec_read(pre.spec_hl())),
                f: spec_flags(
                    spec_sub8_val(pre.a, pre.bus.spec_read(pre.spec_hl())) == 0,
                    true,
                    pre.a % 16 < (pre.bus.spec_read(pre.spec_hl())) % 16,
                    pre.a < pre.bus.spec_read(pre.spec_hl()),
                ),
                ..pre
            }))
        } else if code == 0x97 {
            &&& (cycles == 4)
            &&& (post == (Cpu {
                a: spec_sub8_val(pre.a, pre.a),
                f: spec_flags(
                    spec_sub8_val(pre.a, pre.a) == 0,
                    true,
                    pre.a % 16 < (pre.a) % 16,
                    pre.a < pre.a,
                ),
                ..pre
            }))
        } else if code == 0x98 {
            &&& (cycles == 4)
            &&& (post == (Cpu {
                a: (((pre.a + 512 - pre.b - pre.spec_carry()) % 256)) as u8,
                f: spec_flags(
                    (pre.a + 512 - pre.b - pre.spec_carry()) % 256 == 0,
                    true,
                    pre.a % 16 < (pre.b) % 16 + pre.spec_carry(),
                    pre.a < pre.b + pre.spec_carry(),
                ),
                ..pre
            }))
        } else if code == 0x99 {
            &&& (cycles == 4)
            &&& (post == (Cpu {
                a: (((pre.a + 512 - pre.c - pre.spec_carry()) % 256)) as u8,
                f: spec_flags(
                    (pre.a + 512 - pre.c - pre.spec_carry()) % 256 == 0,
                    true,
                    pre.a % 16 < (pre.c) % 16 + pre.spec_carry(),
                    pre.a < pre.c + pre.spec_carry(),
                ),
                ..pre
            }))
        } else if code == 0x9A {
            &&& (cycles == 4)
            &&& (post == (Cpu {
                a: (((pre.a + 512 - pre.d - pre.spec_carry()) % 256)) as u8,
                f: spec_flags(
                    (pre.a + 512 - pre.d - pre.spec_carry()) % 256 == 0,
                    true,
                    pre.a % 16 < (pre.d) % 16 + pre.spec_carry(),
                    pre.a < pre.d + pre.spec_carry(),
                ),
                ..pre
            }))
        } else if code == 0x9B {
            &&& (cycles == 4)
            &&& (post == (Cpu {
                a: (((pre.a + 512 - pre.e - pre.spec_carry()) % 256)) as u8,
                f: spec_flags(
                    (pre.a + 512 - pre.e - pre.spec_carry()) % 256 == 0,
                    true,
                    pre.a % 16 < (pre.e) % 16 + pre.spec_carry(),
                    pre.a < pre.e + pre.spec_carry(),
                ),
                ..pre
            }))
        } else if code == 0x9C {
            &&& (cycles == 4)
            &&& (post == (Cpu {
                a: (((pre.a + 512 - pre.h - pre.spec_carry()) % 256)) as u8,
                f: spec_flags(
                    (pre.a + 512 - pre.h - pre.spec_carry()) % 256 == 0,
                    true,
                    pre.a % 16 < (pre.h) % 16 + pre.spec_carry(),
                    pre.a < pre.h + pre.spec_carry(),
                ),
                ..pre
            }))
        } else if code == 0x9D {
            &&& (cycles == 4)
            &&& (post == (Cpu {
                a: (((pre.a + 512 - pre.l - pre.spec_carry()) % 256)) as u8,
                f: spec_flags(
                    (pre.a + 512 - pre.l - pre.spec_carry()) % 256 == 0,
                    true,
                    pre.a % 16 < (pre.l) % 16 + pre.spec_carry(),
                    pre.a < pre.l + pre.spec_carry(),
                ),
                ..pre
            }))
        } else if code == 0x9E {
            &&& (cycles == 8)
            &&& (post == (Cpu {
                a: (((pre.a + 512 - pre.bus.spec_read(pre.spec_hl()) - pre.spec_carry()) % 256)) as u8,
                f: spec_flags(
                    (pre.a + 512 - pre.bus.spec_read(pre.spec_hl()) - pre.spec_carry()) % 256 == 0,
                    true,
                    pre.a % 16 < (pre.bus.spec_read(pre.spec_hl())) % 16 + pre.spec_carry(),
                    pre.a < pre.bus.spec_read(pre.spec_hl()) + pre.spec_carry(),
                ),
                ..pre
            }))
        } else if code == 0x9F {
            &&& (cycles == 4)
            &&& (post == (Cpu {
                a: (((pre.a + 512 - pre.a - pre.spec_carry()) % 256)) as u8,
                f: spec_flags(
                    (pre.a + 512 - pre.a - pre.spec_carry()) % 256 == 0,
                    true,
                    pre.a % 16 < (pre.a) % 16 + pre.spec_carry(),
                    pre.a < pre.a + pre.spec_carry(),
                ),
                ..pre
            }))
        } else {
            true
        }
    }

    /// Dispatch of primary opcodes 0x90..=0x9F.
    #[verifier::rlimit(100)]
    #[verifier::spinoff_prover]
    fn excute_op_90(&mut self, code: u8) -> (r: Result<u8, CpuError>)
        requires
            old(self).wf(),
            0x90 <= code <= 0x9F,
        ensures
            final(self).wf(),
            r is Ok ==> 4 <= r->Ok_0 <= 24,
            r is Err <==> Self::spec_illegal_opcode(code),
            r is Err ==> *final(self) == *old(self),
            r is Ok ==> Self::spec_op_effect_90(*old(self), *final(self), code, r->Ok_0),
            crate::bus::same_frame_counters(old(self).bus, final(self).bus),
            final(self).t_cycles == old(self).t_cycles,
            final(self).pending_ticks == old(self).pending_ticks,
    {
        proof {
            broadcast use crate::bus::lemma_write_preserves_frame_counters;
        }
        match code {
            0x90 => Ok(self.sub_90()),
            0x91 => Ok(self.sub_91()),
            0x92 => Ok(self.sub_92()),
            0x93 => Ok(self.sub_93()),
            0x94 => Ok(self.sub_94()),
            0x95 => Ok(self.sub_95()),
            0x96 => Ok(self.sub_96()),
            0x97 => Ok(self.sub_97()),
            0x98 => Ok(self.sbc_98()),
            0x99 => Ok(self.sbc_99()),
            0x9A => Ok(self.sbc_9A()),
            0x9B => Ok(self.sbc_9B()),
            0x9C => Ok(self.sbc_9C()),
            0x9D => Ok(self.sbc_9D()),
            0x9E => Ok(self.sbc_9E()),
            0x9F => Ok(self.sbc_9F()),
            _ => Err(CpuError::UnknownOpcode),
        }
    }

    /// The exact effect of a primary-table opcode in 0xA0..=0xAF: the
    /// clauses of each instruction's own contract, as a pre/post relation.
    pub open spec fn spec_op_effect_a0(pre: Cpu, post: Cpu, code: u8, cycles: u8) -> bool {
        if code == 0xA0 {
            &&& (cycles == 4)
            &&& (post == (Cpu {
                a: pre.a & pre.b,
                f: spec_flags((pre.a & pre.b) == 0, false, true, false),
                ..pre
            }))
        } else if code == 0xA1 {
            &&& (cycles == 4)
            &&& (post == (Cpu {
                a: pre.a & pre.c,
                f: spec_flags((pre.a & pre.c) == 0, false, true, false),
                ..pre
            }))
        } else if code == 0xA2 {
            &&& (cycles == 4)
            &&& (post == (Cpu {
                a: pre.a & pre.d,
                f: spec_flags((pre.a & pre.d) == 0, false, true, false),
                ..pre
            }))
        } else if code == 0xA3 {
            &&& (cycles == 4)
            &&& (post == (Cpu {
                a: pre.a & pre.e,
                f: spec_flags((pre.a & pre.e) == 0, false, true, false),
                ..pre
            }))
        } else if code == 0xA4 {
            &&& (cycles == 4)
            &&& (post == (Cpu {
                a: pre.a & pre.h,
                f: spec_flags((pre.a & pre.h) == 0, false, true, false),
                ..pre
            }))
        } else if code == 0xA5 {
            &&& (cycles == 4)
            &&& (post == (Cpu {
                a: pre.a & pre.l,
                f: spec_flags((pre.a & pre.l) == 0, false, true, false),
                ..pre
            }))
        } else if code == 0xA6 {
            &&& (cycles == 8)
            &&& (post == (Cpu {
                a: pre.a & pre.bus.spec_read(pre.spec_hl()),
                f: spec_flags((pre.a & pre.bus.spec_read(pre.spec_hl())) == 0, false, true, false),
                ..pre
            }))
        } else if code == 0xA7 {
            &&& (cycles == 4)
            &&& (post == (Cpu {
                a: pre.a & pre.a,
                f: spec_flags((pre.a & pre.a) == 0, false, true, false),
                ..pre
            }))
        } else if code == 0xA8 {
            &&& (cycles == 4)
            &&& (post == (Cpu {
                a: pre.a ^ pre.b,
                f: spec_flags((pre.a ^ pre.b) == 0, false, false, false),
                ..pre
            }))
        } else if code == 0xA9 {
            &&& (cycles == 4)
            &&& (post == (Cpu {
                a: pre.a ^ pre.c,
                f: spec_flags((pre.a ^ pre.c) == 0, false, false, false),
                ..pre
            }))
        } else if code == 0xAA {
            &&& (cycles == 4)
            &&& (post == (Cpu {
                a: pre.a ^ pre.d,
                f: spec_flags((pre.a ^ pre.d) == 0, false, false, false),
                ..pre
            }))
        } else if code == 0xAB {
            &&& (cycles == 4)
            &&& (post == (Cpu {
                a: pre.a ^ pre.e,
                f: spec_flags((pre.a ^ pre.e) == 0, false, false, false),
                ..pre
            }))
        } else if code == 0xAC {
            &&& (cycles == 4)
            &&& (post == (Cpu {
                a: pre.a ^ pre.h,
                f: spec_flags((pre.a ^ pre.h) == 0, false, false, false),
                ..pre
            }))
        } else if code == 0xAD {
            &&& (cycles == 4)
            &&& (post == (Cpu {
                a: pre.a ^ pre.l,
                f: spec_flags((pre.a ^ pre.l) == 0, false, false, false),
                ..pre
            }))
        } else if code == 0xAE {
            &&& (cycles == 8)
            &&& (post == (Cpu {
                a: pre.a ^ pre.bus.spec_read(pre.spec_hl()),
                f: spec_flags((pre.a ^ pre.bus.spec_read(pre.spec_hl())) == 0, false, false, false),
                ..pre
            }))
        } else if code == 0xAF {
            &&& (cycles == 4)
            &&& (post == (Cpu {
                a: pre.a ^ pre.a,
                f: spec_flags((pre.a ^ pre.a) == 0, false, false, false),
                ..pre
            }))
        } else {
            true
        }
    }

    /// Dispatch of primary opcodes 0xA0..=0xAF.
    #[verifier::rlimit(100)]
    #[verifier::spinoff_prover]
    fn excute_op_a0(&mut self, code: u8) -> (r: Result<u8, CpuError>)
        requires
            old(self).wf(),
            0xA0 <= code <= 0xAF,
        ensures
            final(self).wf(),
            r is Ok ==> 4 <= r->Ok_0 <= 24,
            r is Err <==> Self::spec_illegal_opcode(code),
            r is Err ==> *final(self) == *old(self),
            r is Ok ==> Self::spec_op_effect_a0(*old(self), *final(self), code, r->Ok_0),
            crate::bus::same_frame_counters(old(self).bus, final(self).bus),
            final(self).t_cycles == old(self).t_cycles,
            final(self).pending_ticks == old(self).pending_ticks,
    {
        proof {
            broadcast use crate::bus::lemma_write_preserves_frame_counters;
        }
        match code {
            0xA0 => Ok(self.and_A0()),
            0xA1 => Ok(self.and_A1()),
            0xA2 => Ok(self.and_A2()),
            0xA3 => Ok(self.and_A3()),
            0xA4 => Ok(self.and_A4()),
            0xA5 => Ok(self.and_A5()),
            0xA6 => Ok(self.and_A6()),
            0xA7 => Ok(self.and_A7()),
            0xA8 => Ok(self.xor_A8()),
            0xA9 => Ok(self.xor_A9()),
            0xAA => Ok(self.xor_AA()),
            0xAB => Ok(self.xor_AB()),
            0xAC => Ok(self.xor_AC()),
            0xAD => Ok(self.xor_AD()),
            0xAE => Ok(self.xor_AE()),
            0xAF => Ok(self.xor_AF()),
            _ => Err(CpuError::UnknownOpcode),
        }
    }

    /// The exact effect of a primary-table opcode in 0xB0..=0xBF: the
    /// clauses of each instruction's own contract, as a pre/post relation.
    pub open spec fn spec_op_effect_b0(pre: Cpu, post: Cpu, code: u8, cycles: u8) -> bool {
        if code == 0xB0 {
            &&& (cycles == 4)
            &&& (post == (Cpu {
                a: pre.a | pre.b,
                f: spec_flags((pre.a | pre.b) == 0, false, false, false),
                ..pre
            }))
        } else if code == 0xB1 {
            &&& (cycles == 4)
            &&& (post == (Cpu {
                a: pre.a | pre.c,
                f: spec_flags((pre.a | pre.c) == 0, false, false, false),
                ..pre
            }))
        } else if code == 0xB2 {
            &&& (cycles == 4)
            &&& (post == (Cpu {
                a: pre.a | pre.d,
                f: spec_flags((pre.a | pre.d) == 0, false, false, false),
                ..pre
            }))
        } else if code == 0xB3 {
            &&& (cycles == 4)
            &&& (post == (Cpu {
                a: pre.a | pre.e,
                f: spec_flags((pre.a | pre.e) == 0, false, false, false),
                ..pre
            }))
        } else if code == 0xB4 {
            &&& (cycles == 4)
            &&& (post == (Cpu {
                a: pre.a | pre.h,
                f: spec_flags((pre.a | pre.h) == 0, false, false, false),
                ..pre
            }))
        } else if code == 0xB5 {
            &&& (cycles == 4)
            &&& (post == (Cpu {
                a: pre.a | pre.l,
                f: spec_flags((pre.a | pre.l) == 0, false, false, false),
                ..pre
            }))
        } else if code == 0xB6 {
            &&& (cycles == 8)
            &&& (post == (Cpu {
                a: pre.a | pre.bus.spec_read(pre.spec_hl()),
                f: spec_flags((pre.a | pre.bus.spec_read(pre.spec_hl())) == 0, false, false, false),
                ..pre
            }))
        } else if code == 0xB7 {
            &&& (cycles == 4)
            &&& (post == (Cpu {
                a: pre.a | pre.a,
                f: spec_flags((pre.a | pre.a) == 0, false, false, false),
                ..pre
            }))
        } else if code == 0xB8 {
            &&& (cycles == 4)
            &&& (post == (Cpu {
                f: spec_flags(
                    spec_sub8_val(pre.a, pre.b) == 0,
                    true,
                    pre.a % 16 < (pre.b) % 16,
                    pre.a < pre.b,
                ),
                ..pre
            }))
        } else if code == 0xB9 {
            &&& (cycles == 4)
            &&& (post == (Cpu {
                f: spec_flags(
                    spec_sub8_val(pre.a, pre.c) == 0,
                    true,
                    pre.a % 16 < (pre.c) % 16,
                    pre.a < pre.c,
                ),
                ..pre
            }))
        } else if code == 0xBA {
            &&& (cycles == 4)
            &&& (post == (Cpu {
                f: spec_flags(
                    spec_sub8_val(pre.a, pre.d) == 0,
                    true,
                    pre.a % 16 < (pre.d) % 16,
                    pre.a < pre.d,
                ),
                ..pre
            }))
        } else if code == 0xBB {
            &&& (cycles == 4)
            &&& (post == (Cpu {
                f: spec_flags(
                    spec_sub8_val(pre.a, pre.e) == 0,
                    true,
                    pre.a % 16 < (pre.e) % 16,
                    pre.a < pre.e,
                ),
                ..pre
            }))
        } else if code == 0xBC {
            &&& (cycles == 4)
            &&& (post == (Cpu {
                f: spec_flags(
                    spec_sub8_val(pre.a, pre.h) == 0,
                    true,
                    pre.a % 16 < (pre.h) % 16,
                    pre.a < pre.h,
                ),
                ..pre
            }))
        } else if code == 0xBD {
            &&& (cycles == 4)
            &&& (post == (Cpu {
                f: spec_flags(
                    spec_sub8_val(pre.a, pre.l) == 0,
                    true,
                    pre.a % 16 < (pre.l) % 16,
                    pre.a < pre.l,
                ),
                ..pre
            }))
        } else if code == 0xBE {
            &&& (cycles == 8)
            &&& (post == (Cpu {
                f: spec_flags(
                    spec_sub8_val(pre.a, pre.bus.spec_read(pre.spec_hl())) == 0,
                    true,
                    pre.a % 16 < (pre.bus.spec_read(pre.spec_hl())) % 16,
                    pre.a < pre.bus.spec_read(pre.spec_hl()),
                ),
                ..pre
            }))
        } else if code == 0xBF {
            &&& (cycles == 4)
            &&& (post == (Cpu {
                f: spec_flags(
                    spec_sub8_val(pre.a, pre.a) == 0,
                    true,
                    pre.a % 16 < (pre.a) % 16,
                    pre.a < pre.a,
                ),
                ..pre
            }))
        } else {
            true
        }
    }

    /// Dispatch of primary opcodes 0xB0..=0xBF.
    #[verifier::rlimit(100)]
    #[verifier::spinoff_prover]
    fn excute_op_b0(&mut self, code: u8) -> (r: Result<u8, CpuError>)
        requires
            old(self).wf(),
            0xB0 <= code <= 0xBF,
        ensures
            final(self).wf(),
            r is Ok ==> 4 <= r->Ok_0 <= 24,
            r is Err <==> Self::spec_illegal_opcode(code),
            r is Err ==> *final(self) == *old(self),
            r is Ok ==> Self::spec_op_effect_b0(*old(self), *final(self), code, r->Ok_0),
            crate::bus::same_frame_counters(old(self).bus, final(self).bus),
            final(self).t_cycles == old(self).t_cycles,
            final(self).pending_ticks == old(self).pending_ticks,
    {
        proof {
            broadcast use crate::bus::lemma_write_preserves_frame_counters;
        }
        match code {
            0xB0 => Ok(self.or_B0()),
            0xB1 => Ok(self.or_B1()),
            0xB2 => Ok(self.or_B2()),
            0xB3 => Ok(self.or_B3()),
            0xB4 => Ok(self.or_B4()),
            0xB5 => Ok(self.or_B5()),
            0xB6 => Ok(self.or_B6()),
            0xB7 => Ok(self.or_B7()),
            0xB8 => Ok(self.cp_B8()),
            0xB9 => Ok(self.cp_B9()),
            0xBA => Ok(self.cp_BA()),
            0xBB => Ok(self.cp_BB()),
            0xBC => Ok(self.cp_BC()),
            0xBD => Ok(self.cp_BD()),
            0xBE => Ok(self.cp_BE()),
            0xBF => Ok(self.cp_BF()),
            _ => Err(CpuError::UnknownOpcode),
        }
    }

    /// The exact effect of a primary-table opcode in 0xC0..=0xCF: the
    /// clauses of each instruction's own contract, as a pre/post relation.
    pub open spec fn spec_op_effect_c0(pre: Cpu, post: Cpu, code: u8, cycles: u8) -> bool {
        if code == 0xC0 {
            &&& (!pre.spec_zf() ==> cycles == 20 && post == (Cpu {
                pc: pre.spec_stack_top(),
                sp: ((pre.sp + 2) % 65536) as u16,
                jmp_flag: true,
                ..pre
            }))
            &&& (!(!pre.spec_zf()) ==> cycles == 8 && post == pre)
        } else if code == 0xC1 {
            &&& (cycles == 12)
            &&& (post == (Cpu {
                b: pre.bus.spec_read(((pre.sp + 1) % 65536) as u16),
                c: pre.bus.spec_read(pre.sp),
                sp: ((pre.sp + 2) % 65536) as u16,
                ..pre
            }))
        } else if code == 0xC2 {
            &&& (!pre.spec_zf() ==> cycles == 16 && post == (Cpu {
                pc: pre.spec_imm16(),
                jmp_flag: true,
                ..pre
            }))
            &&& (!(!pre.spec_zf()) ==> cycles == 12 && post == (Cpu {
                pc: ((pre.pc + 2) % 65536) as u16,
                ..pre
            }))
        } else if code == 0xC3 {
            &&& (cycles == 16)
            &&& (post == (Cpu {
                pc: pre.spec_imm16(),
                jmp_flag: true,
                ..pre
            }))
        } else if code == 0xC4 {
            &&& (!pre.spec_zf() ==> cycles == 24 && post.pc == pre.spec_imm16()
                && post.sp == ((pre.sp + 65534) % 65536) as u16 && post == (Cpu {
                sp: post.sp,
                pc: post.pc,
                jmp_flag: true,
                bus: post.bus,
                ..pre
            }) && (exists|mid: Bus|
                pre.bus.spec_write_effect(
                    ((pre.sp + 65535) % 65536) as u16,
                    ((((pre.pc + 3) % 65536)) as int / 256) as u8,
                    mid,
                ) && #[trigger] mid.spec_write_effect(
                    ((pre.sp + 65534) % 65536) as u16,
                    ((((pre.pc + 3) % 65536)) % 256) as u8,
                    post.bus,
                )))
            &&& (!(!pre.spec_zf()) ==> cycles == 12 && post == (Cpu {
                pc: ((pre.pc + 2) % 65536) as u16,
                ..pre
            }))
        } else if code == 0xC5 {
            &&& (cycles == 16)
            &&& (post == (Cpu {
                sp: ((pre.sp + 65534) % 65536) as u16,
                bus: post.bus,
                ..pre
            }))
            &&& (exists|mid: Bus|
                pre.bus.spec_write_effect(
                    ((pre.sp + 65535) % 65536) as u16,
                    pre.b,
                    mid,
                ) && #[trigger] mid.spec_write_effect(
                    ((pre.sp + 65534) % 65536) as u16,
                    pre.c,
                    post.bus,
                ))
        } else if code == 0xC6 {
            &&& (cycles == 8)
            &&& (post == (Cpu {
                a: spec_add8_val(pre.a, pre.spec_imm8()),
                f: spec_flags(
                    spec_add8_val(pre.a, pre.spec_imm8()) == 0,
                    false,
                    pre.a % 16 + (pre.spec_imm8()) % 16 > 15,
                    pre.a + pre.spec_imm8() > 255,
                ),
                pc: ((pre.pc + 1) % 65536) as u16,
                ..pre
            }))
        } else if code == 0xC7 {
            &&& (cycles == 16)
            &&& (post.pc == Self::spec_rst_target(0xC7))
            &&& (post.sp == ((pre.sp + 65534) % 65536) as u16)
            &&& (post == (Cpu {
                sp: post.sp,
                pc: post.pc,
                jmp_flag: true,
                bus: post.bus,
                ..pre
            }))
            &&& (exists|mid: Bus|
                pre.bus.spec_write_effect(
                    ((pre.sp + 65535) % 65536) as u16,
                    ((((pre.pc + 1) % 65536)) as int / 256) as u8,
                    mid,
                ) && #[trigger] mid.spec_write_effect(
                    ((pre.sp + 65534) % 65536) as u16,
                    ((((pre.pc + 1) % 65536)) % 256) as u8,
                    post.bus,
                ))
        } else if code == 0xC8 {
            &&& (pre.spec_zf() ==> cycles == 20 && post == (Cpu {
                pc: pre.spec_stack_top(),
                sp: ((pre.sp + 2) % 65536) as u16,
                jmp_flag: true,
                ..pre
            }))
            &&& (!(pre.spec_zf()) ==> cycles == 8 && post == pre)
        } else if code == 0xC9 {
            &&& (cycles == 16)
            &&& (post == (Cpu {
                pc: pre.spec_stack_top(),
                sp: ((pre.sp + 2) % 65536) as u16,
                jmp_flag: true,
                ..pre
            }))
        } else if code == 0xCA {
            &&& (pre.spec_zf() ==> cycles == 16 && post == (Cpu {
                pc: pre.spec_imm16(),
                jmp_flag: true,
                ..pre
            }))
            &&& (!(pre.spec_zf()) ==> cycles == 12 && post == (Cpu {
                pc: ((pre.pc + 2) % 65536) as u16,
                ..pre
            }))
        } else if code == 0xCC {
            &&& (pre.spec_zf() ==> cycles == 24 && post.pc == pre.spec_imm16()
                && post.sp == ((pre.sp + 65534) % 65536) as u16 && post == (Cpu {
                sp: post.sp,
                pc: post.pc,
                jmp_flag: true,
                bus: post.bus,
                ..pre
            }) && (exists|mid: Bus|
                pre.bus.spec_write_effect(
                    ((pre.sp + 65535) % 65536) as u16,
                    ((((pre.pc + 3) % 65536)) as int / 256) as u8,
                    mid,
                ) && #[trigger] mid.spec_write_effect(
                    ((pre.sp + 65534) % 65536) as u16,
                    ((((pre.pc + 3) % 65536)) % 256) as u8,
                    post.bus,
                )))
            &&& (!(pre.spec_zf()) ==> cycles == 12 && post == (Cpu {
                pc: ((pre.pc + 2) % 65536) as u16,
                ..pre
            }))
        } else if code == 0xCD {
            &&& (cycles == 24)
            &&& (post.pc == pre.spec_imm16())
            &&& (post.sp == ((pre.sp + 65534) % 65536) as u16)
            &&& (post == (Cpu {
                sp: post.sp,
                pc: post.pc,
                jmp_flag: true,
                bus: post.bus,
                ..pre
            }))
            &&& (exists|mid: Bus|
                pre.bus.spec_write_effect(
                    ((pre.sp + 65535) % 65536) as u16,
                    ((((pre.pc + 3) % 65536)) as int / 256) as u8,
                    mid,
                ) && #[trigger] mid.spec_write_effect(
                    ((pre.sp + 65534) % 65536) as u16,
                    ((((pre.pc + 3) % 65536)) % 256) as u8,
                    post.bus,
                ))
        } else if code == 0xCE {
            &&& (cycles == 8)
            &&& (post == (Cpu {
                a: (((pre.a + pre.spec_imm8() + pre.spec_carry()) % 256)) as u8,
                f: spec_flags(
                    (pre.a + pre.spec_imm8() + pre.spec_carry()) % 256 == 0,
                    false,
                    pre.a % 16 + (pre.spec_imm8()) % 16 + pre.spec_carry() > 15,
                    pre.a + pre.spec_imm8() + pre.spec_carry() > 255,
                ),
                pc: ((pre.pc + 1) % 65536) as u16,
                ..pre
            }))
        } else if code == 0xCF {
            &&& (cycles == 16)
            &&& (post.pc == Self::spec_rst_target(0xCF))
            &&& (post.sp == ((pre.sp + 65534) % 65536) as u16)
            &&& (post == (Cpu {
                sp: post.sp,
                pc: post.pc,
                jmp_flag: true,
                bus: post.bus,
                ..pre
            }))
            &&& (exists|mid: Bus|
                pre.bus.spec_write_effect(
                    ((pre.sp + 65535) % 65536) as u16,
                    ((((pre.pc + 1) % 65536)) as int / 256) as u8,
                    mid,
                ) && #[trigger] mid.spec_write_effect(
                    ((pre.sp + 65534) % 65536) as u16,
                    ((((pre.pc + 1) % 65536)) % 256) as u8,
                    post.bus,
                ))
        } else {
            true
        }
    }

    /// Dispatch of primary opcodes 0xC0..=0xCF.
    #[verifier::rlimit(100)]
    #[verifier::spinoff_prover]
    fn excute_op_c0(&mut self, code: u8) -> (r: Result<u8, CpuError>)
        requires
            old(self).wf(),
            0xC0 <= code <= 0xCF,
        ensures
            final(self).wf(),
            r is Ok ==> 4 <= r->Ok_0 <= 24,
            r is Err <==> Self::spec_illegal_opcode(code),
            r is Err ==> *final(self) == *old(self),
            r is Ok ==> Self::spec_op_effect_c0(*old(self), *final(self), code, r->Ok_0),
            crate::bus::same_frame_counters(old(self).bus, final(self).bus),
            final(self).t_cycles == old(self).t_cycles,
            final(self).pending_ticks == old(self).pending_ticks,
    {
        proof {
            broadcast use crate::bus::lemma_write_preserves_frame_counters;
        }
        match code {
            0xC0 => Ok(self.ret_nz()),
            0xC1 => Ok(self.pop_C1()),
            0xC2 => Ok(self.jp_nz()),
            0xC3 => Ok(self.jp()),
            0xC4 => Ok(self.call_nz()),
            0xC5 => Ok(self.push_C5()),
            0xC6 => Ok(self.add_C6()),
            0xC7 => Ok(self.rst(0xC7)),
            0xC8 => Ok(self.ret_z()),
            0xC9 => Ok(self.ret()),
            0xCA => Ok(self.jp_z()),
            0xCC => Ok(self.call_z()),
            0xCD => Ok(self.call()),
            0xCE => Ok(self.adc_CE()),
            0xCF => Ok(self.rst(0xCF)),
            _ => Err(CpuError::UnknownOpcode),
        }
    }

    /// The exact effect of a primary-table opcode in 0xD0..=0xDF: the
    /// clauses of each instruction's own contract, as a pre/post relation.
    pub open spec fn spec_op_effect_d0(pre: Cpu, post: Cpu, code: u8, cycles: u8) -> bool {
        if code == 0xD0 {
            &&& (!pre.spec_cf() ==> cycles == 20 && post == (Cpu {
                pc: pre.spec_stack_top(),
                sp: ((pre.sp + 2) % 65536) as u16,
                jmp_flag: true,
                ..pre
            }))
            &&& (!(!pre.spec_cf()) ==> cycles == 8 && post == pre)
        } else if code == 0xD1 {
            &&& (cycles == 12)
            &&& (post == (Cpu {
                d: pre.bus.spec_read(((pre.sp + 1) % 65536) as u16),
                e: pre.bus.spec_read(pre.sp),
                sp: ((pre.sp + 2) % 65536) as u16,
                ..pre
            }))
        } else if code == 0xD2 {
            &&& (!pre.spec_cf() ==> cycles == 16 && post == (Cpu {
                pc: pre.spec_imm16(),
                jmp_flag: true,
                ..pre
            }))
            &&& (!(!pre.spec_cf()) ==> cycles == 12 && post == (Cpu {
                pc: ((pre.pc + 2) % 65536) as u16,
                ..pre
            }))
        } else if code == 0xD4 {
            &&& (!pre.spec_cf() ==> cycles == 24 && post.pc == pre.spec_imm16()
                && post.sp == ((pre.sp + 65534) % 65536) as u16 && post == (Cpu {
                sp: post.sp,
                pc: post.pc,
                jmp_flag: true,
                bus: post.bus,
                ..pre
            }) && (exists|mid: Bus|
                pre.bus.spec_write_effect(
                    ((pre.sp + 65535) % 65536) as u16,
                    ((((pre.pc + 3) % 65536)) as int / 256) as u8,
                    mid,
                ) && #[trigger] mid.spec_write_effect(
                    ((pre.sp + 65534) % 65536) as u16,
                    ((((pre.pc + 3) % 65536)) % 256) as u8,
                    post.bus,
                )))
            &&& (!(!pre.spec_cf()) ==> cycles == 12 && post == (Cpu {
                pc: ((pre.pc + 2) % 65536) as u16,
                ..pre
            }))
        } else if code == 0xD5 {
            &&& (cycles == 16)
            &&& (post == (Cpu {
                sp: ((pre.sp + 65534) % 65536) as u16,
                bus: post.bus,
                ..pre
            }))
            &&& (exists|mid: Bus|
                pre.bus.spec_write_effect(
                    ((pre.sp + 65535) % 65536) as u16,
                    pre.d,
                    mid,
                ) && #[trigger] mid.spec_write_effect(
                    ((pre.sp + 65534) % 65536) as u16,
                    pre.e,
                    post.bus,
                ))
        } else if code == 0xD6 {
            &&& (cycles == 8)
            &&& (post == (Cpu {
                a: spec_sub8_val(pre.a, pre.spec_imm8()),
                f: spec_flags(
                    spec_sub8_val(pre.a, pre.spec_imm8()) == 0,
                    true,
                    pre.a % 16 < (pre.spec_imm8()) % 16,
                    pre.a < pre.spec_imm8(),
                ),
                pc: ((pre.pc + 1) % 65536) as u16,
                ..pre
            }))
        } else if code == 0xD7 {
            &&& (cycles == 16)
            &&& (post.pc == Self::spec_rst_target(0xD7))
            &&& (post.sp == ((pre.sp + 65534) % 65536) as u16)
            &&& (post == (Cpu {
                sp: post.sp,
                pc: post.pc,
                jmp_flag: true,
                bus: post.bus,
                ..pre
            }))
            &&& (exists|mid: Bus|
                pre.bus.spec_write_effect(
                    ((pre.sp + 65535) % 65536) as u16,
                    ((((pre.pc + 1) % 65536)) as int / 256) as u8,
                    mid,
                ) && #[trigger] mid.spec_write_effect(
                    ((pre.sp + 65534) % 65536) as u16,
                    ((((pre.pc + 1) % 65536)) % 256) as u8,
                    post.bus,
                ))
        } else if code == 0xD8 {
            &&& (pre.spec_cf() ==> cycles == 20 && post == (Cpu {
                pc: pre.spec_stack_top(),
                sp: ((pre.sp + 2) % 65536) as u16,
                jmp_flag: true,
                ..pre
            }))
            &&& (!(pre.spec_cf()) ==> cycles == 8 && post == pre)
        } else if code == 0xD9 {
            &&& (cycles == 16)
            &&& (post == (Cpu {
                pc: pre.spec_stack_top(),
                sp: ((pre.sp + 2) % 65536) as u16,
                jmp_flag: true,
                ime: true,
                ..pre
            }))
        } else if code == 0xDA {
            &&& (pre.spec_cf() ==> cycles == 16 && post == (Cpu {
                pc: pre.spec_imm16(),
                jmp_flag: true,
                ..pre
            }))
            &&& (!(pre.spec_cf()) ==> cycles == 12 && post == (Cpu {
                pc: ((pre.pc + 2) % 65536) as u16,
                ..pre
            }))
        } else if code == 0xDC {
            &&& (pre.spec_cf() ==> cycles == 24 && post.pc == pre.spec_imm16()
                && post.sp == ((pre.sp + 65534) % 65536) as u16 && post == (Cpu {
                sp: post.sp,
                pc: post.pc,
                jmp_flag: true,
                bus: post.bus,
                ..pre
            }) && (exists|mid: Bus|
                pre.bus.spec_write_effect(
                    ((pre.sp + 65535) % 65536) as u16,
                    ((((pre.pc + 3) % 65536)) as int / 256) as u8,
                    mid,
                ) && #[trigger] mid.spec_write_effect(
                    ((pre.sp + 65534) % 65536) as u16,
                    ((((pre.pc + 3) % 65536)) % 256) as u8,
                    post.bus,
                )))
            &&& (!(pre.spec_cf()) ==> cycles == 12 && post == (Cpu {
                pc: ((pre.pc + 2) % 65536) as u16,
                ..pre
            }))
        } else if code == 0xDE {
            &&& (cycles == 8)
            &&& (post == (Cpu {
                a: (((pre.a + 512 - pre.spec_imm8() - pre.spec_carry())
                    % 256)) as u8,
                f: spec_flags(
                    (pre.a + 512 - pre.spec_imm8() - pre.spec_carry()) % 256
                        == 0,
                    true,
                    pre.a % 16 < (pre.spec_imm8()) % 16 + pre.spec_carry(),
                    pre.a < pre.spec_imm8() + pre.spec_carry(),
                ),
                pc: ((pre.pc + 1) % 65536) as u16,
                ..pre
            }))
        } else if code == 0xDF {
            &&& (cycles == 16)
            &&& (post.pc == Self::spec_rst_target(0xDF))
            &&& (post.sp == ((pre.sp + 65534) % 65536) as u16)
            &&& (post == (Cpu {
                sp: post.sp,
                pc: post.pc,
                jmp_flag: true,
                bus: post.bus,
                ..pre
            }))
            &&& (exists|mid: Bus|
                pre.bus.spec_write_effect(
                    ((pre.sp + 65535) % 65536) as u16,
                    ((((pre.pc + 1) % 65536)) as int / 256) as u8,
                    mid,
                ) && #[trigger] mid.spec_write_effect(
                    ((pre.sp + 65534) % 65536) as u16,
                    ((((pre.pc + 1) % 65536)) % 256) as u8,
                    post.bus,
                ))
        } else {
            true
        }
    }

    /// Dispatch of primary opcodes 0xD0..=0xDF.
    #[verifier::rlimit(100)]
    #[verifier::spinoff_prover]
    fn excute_op_d0(&mut self, code: u8) -> (r: Result<u8, CpuError>)
        requires
            old(self).wf(),
            0xD0 <= code <= 0xDF,
        ensures
            final(self).wf(),
            r is Ok ==> 4 <= r->Ok_0 <= 24,
            r is Err <==> Self::spec_illegal_opcode(code),
            r is Err ==> *final(self) == *old(self),
            r is Ok ==> Self::spec_op_effect_d0(*old(self), *final(self), code, r->Ok_0),
            crate::bus::same_frame_counters(old(self).bus, final(self).bus),
            final(self).t_cycles == old(self).t_cycles,
            final(self).pending_ticks == old(self).pending_ticks,
    {
        proof {
            broadcast use crate::bus::lemma_write_preserves_frame_counters;
        }
        match code {
            0xD0 => Ok(self.ret_nc()),
            0xD1 => Ok(self.pop_D1()),
            0xD2 => Ok(self.jp_nc()),
            0xD4 => Ok(self.call_nc()),
            0xD5 => Ok(self.push_D5()),
            0xD6 => Ok(self.sub_D6()),
            0xD7 => Ok(self.rst(0xD7)),
            0xD8 => Ok(self.ret_c()),
            0xD9 => Ok(self.reti()),
            0xDA => Ok(self.jp_c()),
            0xDC => Ok(self.call_c()),
            0xDE => Ok(self.sbc_DE()),
            0xDF => Ok(self.rst(0xDF)),
            _ => Err(CpuError::UnknownOpcode),
        }
    }

    /// The exact effect of a primary-table opcode in 0xE0..=0xEF: the
    /// clauses of each instruction's own contract, as a pre/post relation.
    pub open spec fn spec_op_effect_e0(pre: Cpu, post: Cpu, code: u8, cycles: u8) -> bool {
        if code == 0xE0 {
            &&& (cycles == 12)
            &&& (post == (Cpu {
                pc: ((pre.pc + 1) % 65536) as u16,
                bus: post.bus,
                ..pre
            }))
            &&& (pre.bus.spec_write_effect(
                (0xFF00 + pre.spec_imm8()) as u16,
                pre.a,
                post.bus,
            ))
        } else if code == 0xE1 {
            &&& (cycles == 12)
            &&& (post == (Cpu {
                h: pre.bus.spec_read(((pre.sp + 1) % 65536) as u16),
                l: pre.bus.spec_read(pre.sp),
                sp: ((pre.sp + 2) % 65536) as u16,
                ..pre
            }))
        } else if code == 0xE2 {
            &&& (cycles == 8)
            &&& (post == (Cpu { bus: post.bus, ..pre }))
            &&& (pre.bus.spec_write_effect(
                (0xFF00 + pre.c) as u16,
                pre.a,
                post.bus,
            ))
        } else if code == 0xE5 {
            &&& (cycles == 16)
            &&& (post == (Cpu {
                sp: ((pre.sp + 65534) % 65536) as u16,
                bus: post.bus,
                ..pre
            }))
            &&& (exists|mid: Bus|
                pre.bus.spec_write_effect(
                    ((pre.sp + 65535) % 65536) as u16,
                    pre.h,
                    mid,
                ) && #[trigger] mid.spec_write_effect(
                    ((pre.sp + 65534) % 65536) as u16,
                    pre.l,
                    post.bus,
                ))
        } else if code == 0xE6 {
            &&& (cycles == 8)
            &&& (post == (Cpu {
                a: pre.a & pre.spec_imm8(),
                f: spec_flags((pre.a & pre.spec_imm8()) == 0, false, true, false),
                pc: ((pre.pc + 1) % 65536) as u16,
                ..pre
            }))
        } else if code == 0xE7 {
            &&& (cycles == 16)
            &&& (post.pc == Self::spec_rst_target(0xE7))
            &&& (post.sp == ((pre.sp + 65534) % 65536) as u16)
            &&& (post == (Cpu {
                sp: post.sp,
                pc: post.pc,
                jmp_flag: true,
                bus: post.bus,
                ..pre
            }))
            &&& (exists|mid: Bus|
                pre.bus.spec_write_effect(
                    ((pre.sp + 65535) % 65536) as u16,
                    ((((pre.pc + 1) % 65536)) as int / 256) as u8,
                    mid,
                ) && #[trigger] mid.spec_write_effect(
                    ((pre.sp + 65534) % 65536) as u16,
                    ((((pre.pc + 1) % 65536)) % 256) as u8,
                    post.bus,
                ))
        } else if code == 0xE8 {
            &&& (cycles == 16)
            &&& (({
                let off = pre.spec_imm8();
                post == (Cpu {
                    sp: spec_sp_plus_e8(pre.sp, off),
                    pc: ((pre.pc + 1) % 65536) as u16,
                    f: spec_flags(
                        false,
                        false,
                        pre.sp % 16 + off % 16 > 15,
                        pre.sp % 256 + off > 255,
                    ),
                    ..pre
                })
            }))
        } else if code == 0xE9 {
            &&& (cycles == 4)
            &&& (post == (Cpu { pc: pre.spec_hl(), jmp_flag: true, ..pre }))
        } else if code == 0xEA {
            &&& (cycles == 16)
            &&& (post == (Cpu {
                pc: ((pre.pc + 2) % 65536) as u16,
                bus: post.bus,
                ..pre
            }))
            &&& (pre.bus.spec_write_effect(pre.spec_imm16(), pre.a, post.bus))
        } else if code == 0xEE {
            &&& (cycles == 8)
            &&& (post == (Cpu {
                a: pre.a ^ pre.spec_imm8(),
                f: spec_flags((pre.a ^ pre.spec_imm8()) == 0, false, false, false),
                pc: ((pre.pc + 1) % 65536) as u16,
                ..pre
            }))
        } else if code == 0xEF {
            &&& (cycles == 16)
            &&& (post.pc == Self::spec_rst_target(0xEF))
            &&& (post.sp == ((pre.sp + 65534) % 65536) as u16)
            &&& (post == (Cpu {
                sp: post.sp,
                pc: post.pc,
                jmp_flag: true,
                bus: post.bus,
                ..pre
            }))
            &&& (exists|mid: Bus|
                pre.bus.spec_write_effect(
                    ((pre.sp + 65535) % 65536) as u16,
                    ((((pre.pc + 1) % 65536)) as int / 256) as u8,
                    mid,
                ) && #[trigger] mid.spec_write_effect(
                    ((pre.sp + 65534) % 65536) as u16,
                    ((((pre.pc + 1) % 65536)) % 256) as u8,
                    post.bus,
                ))
        } else {
            true
        }
    }

    /// Dispatch of primary opcodes 0xE0..=0xEF.
    #[verifier::rlimit(100)]
    #[verifier::spinoff_prover]
    fn excute_op_e0(&mut self, code: u8) -> (r: Result<u8, CpuError>)
        requires
            old(self).wf(),
            0xE0 <= code <= 0xEF,
        ensures
            final(self).wf(),
            r is Ok ==> 4 <= r->Ok_0 <= 24,
            r is Err <==> Self::spec_illegal_opcode(code),
            r is Err ==> *final(self) == *old(self),
            r is Ok ==> Self::spec_op_effect_e0(*old(self), *final(self), code, r->Ok_0),
            crate::bus::same_frame_counters(old(self).bus, final(self).bus),
            final(self).t_cycles == old(self).t_cycles,
            final(self).pending_ticks == old(self).pending_ticks,
    {
        proof {
            broadcast use crate::bus::lemma_write_preserves_frame_counters;
        }
        match code {
            0xE0 => Ok(self.ld_E0()),
            0xE1 => Ok(self.pop_E1()),
            0xE2 => Ok(self.ld_E2()),
            0xE5 => Ok(self.push_E5()),
            0xE6 => Ok(self.and_E6()),
            0xE7 => Ok(self.rst(0xE7)),
            0xE8 => Ok(self.add_E8()),
            0xE9 => Ok(self.jp_hl()),
            0xEA => Ok(self.ld_EA()),
            0xEE => Ok(self.xor_EE()),
            0xEF => Ok(self.rst(0xEF)),
            _ => Err(CpuError::UnknownOpcode),
        }
    }

    /// The exact effect of a primary-table opcode in 0xF0..=0xFF: the
    /// clauses of each instruction's own contract, as a pre/post relation.
    pub open spec fn spec_op_effect_f0(pre: Cpu, post: Cpu, code: u8, cycles: u8) -> bool {
        if code == 0xF0 {
            &&& (cycles == 12)
            &&& (post == (Cpu {
                a: pre.bus.spec_read((0xFF00 + pre.spec_imm8()) as u16),
                pc: ((pre.pc + 1) % 65536) as u16,
                ..pre
            }))
        } else if code == 0xF1 {
            &&& (cycles == 12)
            &&& (post == (Cpu {
                a: pre.bus.spec_read(((pre.sp + 1) % 65536) as u16),
                f: (pre.bus.spec_read(pre.sp) as int / 16 * 16) as u8,
                sp: ((pre.sp + 2) % 65536) as u16,
                ..pre
            }))
            &&& (post.f % 16 == 0)
        } else if code == 0xF2 {
            &&& (cycles == 8)
            &&& (post == (Cpu {
                a: pre.bus.spec_read((0xFF00 + pre.c) as u16),
                ..pre
            }))
        } else if code == 0xF3 {
            &&& (cycles == 4)
            &&& (post == (Cpu { ime: false, ime_pending: false, ..pre }))
        } else if code == 0xF5 {
            &&& (cycles == 16)
            &&& (post == (Cpu {
                sp: ((pre.sp + 65534) % 65536) as u16,
                bus: post.bus,
                ..pre
            }))
            &&& (exists|mid: Bus|
                pre.bus.spec_write_effect(
                    ((pre.sp + 65535) % 65536) as u16,
                    pre.a,
                    mid,
                ) && #[trigger] mid.spec_write_effect(
                    ((pre.sp + 65534) % 65536) as u16,
                    pre.f,
                    post.bus,
                ))
        } else if code == 0xF6 {
            &&& (cycles == 8)
            &&& (post == (Cpu {
                a: pre.a | pre.spec_imm8(),
                f: spec_flags((pre.a | pre.spec_imm8()) == 0, false, false, false),
                pc: ((pre.pc + 1) % 65536) as u16,
                ..pre
            }))
        } else if code == 0xF7 {
            &&& (cycles == 16)
            &&& (post.pc == Self::spec_rst_target(0xF7))
            &&& (post.sp == ((pre.sp + 65534) % 65536) as u16)
            &&& (post == (Cpu {
                sp: post.sp,
                pc: post.pc,
                jmp_flag: true,
                bus: post.bus,
                ..pre
            }))
            &&& (exists|mid: Bus|
                pre.bus.spec_write_effect(
                    ((pre.sp + 65535) % 65536) as u16,
                    ((((pre.pc + 1) % 65536)) as int / 256) as u8,
                    mid,
                ) && #[trigger] mid.spec_write_effect(
                    ((pre.sp + 65534) % 65536) as u16,
                    ((((pre.pc + 1) % 65536)) % 256) as u8,
                    post.bus,
                ))
        } else if code == 0xF8 {
            &&& (cycles == 12)
            &&& (({
                let off = pre.spec_imm8();
                post == (Cpu {
                    h: (spec_sp_plus_e8(pre.sp, off) as int / 256) as u8,
                    l: (spec_sp_plus_e8(pre.sp, off) % 256) as u8,
                    pc: ((pre.pc + 1) % 65536) as u16,
                    f: spec_flags(
                        false,
                        false,
                        pre.sp % 16 + off % 16 > 15,
                        pre.sp % 256 + off > 255,
                    ),
                    ..pre
                })
            }))
        } else if code == 0xF9 {
            &&& (cycles == 8)
            &&& (post == (Cpu { sp: pre.spec_hl(), ..pre }))
        } else if code == 0xFA {
            &&& (cycles == 16)
            &&& (post == (Cpu {
                a: pre.bus.spec_read(pre.spec_imm16()),
                pc: ((pre.pc + 2) % 65536) as u16,
                ..pre
            }))
        } else if code == 0xFB {
            &&& (cycles == 4)
            &&& (post == (Cpu { ime_pending: true, ..pre }))
        } else if code == 0xFE {
            &&& (cycles == 8)
            &&& (post == (Cpu {
                f: spec_flags(
                    spec_sub8_val(pre.a, pre.spec_imm8()) == 0,
                    true,
                    pre.a % 16 < (pre.spec_imm8()) % 16,
                    pre.a < pre.spec_imm8(),
                ),
                pc: ((pre.pc + 1) % 65536) as u16,
                ..pre
            }))
        } else if code == 0xFF {
            &&& (cycles == 16)
            &&& (post.pc == Self::spec_rst_target(0xFF))
            &&& (post.sp == ((pre.sp + 65534) % 65536) as u16)
            &&& (post == (Cpu {
                sp: post.sp,
                pc: post.pc,
                jmp_flag: true,
                bus: post.bus,
                ..pre
            }))
            &&& (exists|mid: Bus|
                pre.bus.spec_write_effect(
                    ((pre.sp + 65535) % 65536) as u16,
                    ((((pre.pc + 1) % 65536)) as int / 256) as u8,
                    mid,
                ) && #[trigger] mid.spec_write_effect(
                    ((pre.sp + 65534) % 65536) as u16,
                    ((((pre.pc + 1) % 65536)) % 256) as u8,
                    post.bus,
                ))
        } else {
            true
        }
    }

    /// Dispatch of primary opcodes 0xF0..=0xFF.
    #[verifier::rlimit(100)]
    #[verifier::spinoff_prover]
    fn excute_op_f0(&mut self, code: u8) -> (r: Result<u8, CpuError>)
        requires
            old(self).wf(),
            0xF0 <= code <= 0xFF,
        ensures
            final(self).wf(),
            r is Ok ==> 4 <= r->Ok_0 <= 24,
            r is Err <==> Self::spec_illegal_opcode(code),
            r is Err ==> *final(self) == *old(self),
            r is Ok ==> Self::spec_op_effect_f0(*old(self), *final(self), code, r->Ok_0),
            crate::bus::same_frame_counters(old(self).bus, final(self).bus),
            final(self).t_cycles == old(self).t_cycles,
            final(self).pending_ticks == old(self).pending_ticks,
    {
        proof {
            broadcast use crate::bus::lemma_write_preserves_frame_counters;
        }
        match code {
            0xF0 => Ok(self.ld_F0()),
            0xF1 => Ok(self.pop_F1()),
            0xF2 => Ok(self.ld_F2()),
            0xF3 => Ok(self.di()),
            0xF5 => Ok(self.push_F5()),
            0xF6 => Ok(self.or_F6()),
            0xF7 => Ok(self.rst(0xF7)),
            0xF8 => Ok(self.ld_F8()),
            0xF9 => Ok(self.ld_F9()),
            0xFA => Ok(self.ld_FA()),
            0xFB => Ok(self.ei()),
            0xFE => Ok(self.cp_FE()),
            0xFF => Ok(self.rst(0xFF)),
            _ => Err(CpuError::UnknownOpcode),
        }
    }

    /// The exact effect of any assigned primary-table opcode.
    pub open spec fn spec_op_effect(pre: Cpu, post: Cpu, code: u8, cycles: u8) -> bool {
        if code <= 0x0F {
            Self::spec_op_effect_00(pre, post, code, cycles)
        } else if code <= 0x1F {
            Self::spec_op_effect_10(pre, post, code, cycles)
        } else if code <= 0x2F {
            Self::spec_op_effect_20(pre, post, code, cycles)
        } else if code <= 0x3F {
            Self::spec_op_effect_30(pre, post, code, cycles)
        } else if code <= 0x4F {
            Self::spec_op_effect_40(pre, post, code, cycles)
        } else if code <= 0x5F {
            Self::spec_op_effect_50(pre, post, code, cycles)
        } else if code <= 0x6F {
            Self::spec_op_effect_60(pre, post, code, cycles)
        } else if code <= 0x7F {
            Self::spec_op_effect_70(pre, post, code, cycles)
        } else if code <= 0x8F {
            Self::spec_op_effect_80(pre, post, code, cycles)
        } else if code <= 0x9F {
            Self::spec_op_effect_90(pre, post, code, cycles)
        } else if code <= 0xAF {
            Self::spec_op_effect_a0(pre, post, code, cycles)
        } else if code <= 0xBF {
            Self::spec_op_effect_b0(pre, post, code, cycles)
        } else if code <= 0xCF {
            Self::spec_op_effect_c0(pre, post, code, cycles)
        } else if code <= 0xDF {
            Self::spec_op_effect_d0(pre, post, code, cycles)
        } else if code <= 0xEF {
            Self::spec_op_effect_e0(pre, post, code, cycles)
        } else {
            Self::spec_op_effect_f0(pre, post, code, cycles)
        }
    }

    /// Execute one decoded instruction and return its T-cycle count
    /// (between 4 and 24).  Fails, changing nothing, exactly on the
    /// unassigned primary opcodes.  On success the post-state satisfies the
    /// opcode's transition relation, which restates the instruction's own
    /// exact contract; the machine invariant holds either way, and no
    /// instruction moves the pixel unit's frame counters.
    pub fn excute_op(&mut self, opcode: &Opcode) -> (r: Result<u8, CpuError>)
        requires
            old(self).wf(),
        ensures
            final(self).wf(),
            r is Ok ==> 4 <= r->Ok_0 <= 24,
            r is Err <==> !opcode.cb_prefix && Self::spec_illegal_opcode(opcode.code),
            r is Err ==> *final(self) == *old(self),
            r is Ok && opcode.cb_prefix ==> Self::spec_cb_effect(
                *old(self),
                *final(self),
                opcode.code,
                r->Ok_0,
            ),
            r is Ok && !opcode.cb_prefix ==> Self::spec_op_effect(
                *old(self),
                *final(self),
                opcode.code,
                r->Ok_0,
            ),
            crate::bus::same_frame_counters(old(self).bus, final(self).bus),
            final(self).t_cycles == old(self).t_cycles,
            final(self).pending_ticks == old(self).pending_ticks,
    {
        if opcode.cb_prefix {
            return Ok(self.excute_cb_op(opcode.code));
        }
        let code = opcode.code;

        if code <= 0x0F {
            self.excute_op_00(code)
        } else if code <= 0x1F {
            self.excute_op_10(code)
        } else if code <= 0x2F {
            self.excute_op_20(code)
        } else if code <= 0x3F {
            self.excute_op_30(code)
        } else if code <= 0x4F {
            self.excute_op_40(code)
        } else if code <= 0x5F {
            self.excute_op_50(code)
        } else if code <= 0x6F {
            self.excute_op_60(code)
        } else if code <= 0x7F {
            self.excute_op_70(code)
        } else if code <= 0x8F {
            self.excute_op_80(code)
        } else if code <= 0x9F {
            self.excute_op_90(code)
        } else if code <= 0xAF {
            self.excute_op_a0(code)
        } else if code <= 0xBF {
            self.excute_op_b0(code)
        } else if code <= 0xCF {
            self.excute_op_c0(code)
        } else if code <= 0xDF {
            self.excute_op_d0(code)
        } else if code <= 0xEF {
            self.excute_op_e0(code)
        } else {
            self.excute_op_f0(code)
        }
    }

    /// Whether interrupt `k` is both requested and enabled.
    pub open spec fn spec_pending(self, k: int) -> bool {
        spec_bit8(self.bus.int_flag, k) && spec_bit8(self.bus.ie_flag, k)
    }

    /// Whether any of the five interrupts is pending.
    pub open spec fn spec_any_pending(self) -> bool {
        self.spec_pending(0) || self.spec_pending(1) || self.spec_pending(2) || self.spec_pending(
            3,
        ) || self.spec_pending(4)
    }

    /// The lowest pending interrupt bit, which is the one serviced.
    pub open spec fn spec_lowest_pending(self) -> int {
        if self.spec_pending(0) {
            0
        } else if self.spec_pending(1) {
            1
        } else if self.spec_pending(2) {
            2
        } else if self.spec_pending(3) {
            3
        } else {
            4
        }
    }

    /// Collect the subsystems' interrupt requests into IF: VBlank to bit 0,
    /// STAT to bit 1, timer to bit 2, joypad to bit 4, clearing each
    /// source's own request flag.
    pub open spec fn spec_collect_interrupts(bus: Bus) -> Bus {
        Self::spec_collect_other_interrupts(Self::spec_collect_ppu_interrupts(bus))
    }

    /// The pixel unit's share of the interrupt collection.
    pub open spec fn spec_collect_ppu_interrupts(bus: Bus) -> Bus {
        Self::spec_collect_stat_interrupt(Self::spec_collect_vblank_interrupt(bus))
    }

    /// The timer's and joypad's share of the interrupt collection.
    pub open spec fn spec_collect_other_interrupts(bus: Bus) -> Bus {
        Self::spec_collect_joypad_interrupt(Self::spec_collect_timer_interrupt(bus))
    }

    /// The VBlank share of the interrupt collection.
    pub open spec fn spec_collect_vblank_interrupt(bus: Bus) -> Bus {
        if bus.ppu.int_vblank {
            Bus {
                ppu: Ppu { int_vblank: false, ..bus.ppu },
                int_flag: spec_set_bit8(bus.int_flag, 0),
                ..bus
            }
        } else {
            bus
        }
    }

    /// The STAT share of the interrupt collection.
    pub open spec fn spec_collect_stat_interrupt(bus: Bus) -> Bus {
        if bus.ppu.int_lcd_stat {
            Bus {
                ppu: Ppu { int_lcd_stat: false, ..bus.ppu },
                int_flag: spec_set_bit8(bus.int_flag, 1),
                ..bus
            }
        } else {
            bus
        }
    }

    #[verifier::rlimit(100)]
    fn update_interrupt_vblank(&mut self)
        requires
            old(self).wf(),
        ensures
            final(self).wf(),
            *final(self) == (Cpu {
                bus: Self::spec_collect_vblank_interrupt(old(self).bus),
                ..*old(self)
            }),
    {
        if self.bus.ppu.int_vblank {
            self.bus.ppu.int_vblank = false;
            self.bus.int_flag = set_bit8(self.bus.int_flag, 0);
        }
    }

    #[verifier::rlimit(100)]
    fn update_interrupt_stat(&mut self)
        requires
            old(self).wf(),
        ensures
            final(self).wf(),
            *final(self) == (Cpu {
                bus: Self::spec_collect_stat_interrupt(old(self).bus),
                ..*old(self)
            }),
    {
        if self.bus.ppu.int_lcd_stat {
            self.bus.ppu.int_lcd_stat = false;
            self.bus.int_flag = set_bit8(self.bus.int_flag, 1);
        }
    }

    #[verifier::rlimit(100)]
    fn update_interrupt_ppu(&mut self)
        requires
            old(self).wf(),
        ensures
            final(self).wf(),
            *final(self) == (Cpu {
                bus: Self::spec_collect_ppu_interrupts(old(self).bus),
                ..*old(self)
            }),
    {
        self.update_interrupt_vblank();
        self.update_interrupt_stat();
    }

    /// The timer's share of the interrupt collection.
    pub open spec fn spec_collect_timer_interrupt(bus: Bus) -> Bus {
        if bus.timer.int_timer_flag {
            Bus {
                timer: crate::timer::Timer { int_timer_flag: false, ..bus.timer },
                int_flag: spec_set_bit8(bus.int_flag, 2),
                ..bus
            }
        } else {
            bus
        }
    }

    /// The joypad's share of the interrupt collection.
    pub open spec fn spec_collect_joypad_interrupt(bus: Bus) -> Bus {
        if bus.joypad.int_flag {
            Bus {
                joypad: crate::joypad::Joypad { int_flag: false, ..bus.joypad },
                int_flag: spec_set_bit8(bus.int_flag, 4),
                ..bus
            }
        } else {
            bus
        }
    }

    #[verifier::rlimit(100)]
    fn update_interrupt_timer(&mut self)
        requires
            old(self).wf(),
        ensures
            final(self).wf(),
            *final(self) == (Cpu {
                bus: Self::spec_collect_timer_interrupt(old(self).bus),
                ..*old(self)
            }),
    {
        if self.bus.timer.int_timer_flag {
            self.bus.timer.int_timer_flag = false;
            self.bus.int_flag = set_bit8(self.bus.int_flag, 2);
        }
    }

    #[verifier::rlimit(100)]
    fn update_interrupt_joypad(&mut self)
        requires
            old(self).wf(),
        ensures
            final(self).wf(),
            *final(self) == (Cpu {
                bus: Self::spec_collect_joypad_interrupt(old(self).bus),
                ..*old(self)
            }),
    {
        if self.bus.joypad.int_flag {
            self.bus.joypad.int_flag = false;
            self.bus.int_flag = set_bit8(self.bus.int_flag, 4);
        }
    }

    #[verifier::rlimit(100)]
    fn update_interrupt_other(&mut self)
        requires
            old(self).wf(),
        ensures
            final(self).wf(),
            *final(self) == (Cpu {
                bus: Self::spec_collect_other_interrupts(old(self).bus),
                ..*old(self)
            }),
    {
        self.update_interrupt_timer();
        self.update_interrupt_joypad();
    }

    /// Move the subsystems' pending requests into the IF register.
    #[verifier::rlimit(100)]
    fn update_interrupt(&mut self)
        requires
            old(self).wf(),
        ensures
            final(self).wf(),
            *final(self) == (Cpu {
                bus: Self::spec_collect_interrupts(old(self).bus),
                ..*old(self)
            }),
            crate::bus::same_frame_counters(old(self).bus, final(self).bus),
    {
        self.update_interrupt_ppu();
        self.update_interrupt_other();
    }

    /// Service the lowest pending interrupt if IME allows: 20 T-cycles to
    /// push PC, clear IME and the serviced IF bit, and jump to the vector.
    /// With IME off a pending interrupt only wakes a halted CPU.  Without a
    /// pending interrupt nothing happens.
    fn check_interrupt(&mut self) -> (cycle: u8)
        requires
            old(self).wf(),
        ensures
            final(self).wf(),
            cycle == 0 || cycle == 20,
            crate::bus::same_frame_counters(old(self).bus, final(self).bus),
            !old(self).spec_any_pending() ==> cycle == 0 && *final(self) == *old(self),
            old(self).spec_any_pending() && !old(self).ime ==> cycle == 0 && *final(self) == (Cpu {
                halt: false,
                ..*old(self)
            }),
            old(self).spec_any_pending() && old(self).ime ==> ({
                let k = old(self).spec_lowest_pending();
                let armed = Cpu {
                    bus: Bus {
                        int_flag: spec_clear_bit8(old(self).bus.int_flag, k),
                        timer: crate::timer::Timer {
                            is_stop: old(self).bus.timer.is_stop && k != 4,
                            ..old(self).bus.timer
                        },
                        ..old(self).bus
                    },
                    halt: false,
                    ime: false,
                    ..*old(self)
                };
                &&& cycle == 20
                &&& final(self).pc == 0x40 + 8 * k
                &&& final(self).sp == ((old(self).sp + 65534) % 65536) as u16
                &&& *final(self) == (Cpu {
                    sp: final(self).sp,
                    pc: final(self).pc,
                    bus: final(self).bus,
                    ..armed
                })
                &&& exists|mid: Bus|
                    armed.bus.spec_write_effect(
                        ((old(self).sp + 65535) % 65536) as u16,
                        (old(self).pc as int / 256) as u8,
                        mid,
                    ) && #[trigger] mid.spec_write_effect(
                        ((old(self).sp + 65534) % 65536) as u16,
                        (old(self).pc % 256) as u8,
                        final(self).bus,
                    )
            }),
    {
        let mut idx: u8 = 5;
        if bit8(self.bus.int_flag, 0) && bit8(self.bus.ie_flag, 0) {
            idx = 0;
        } else if bit8(self.bus.int_flag, 1) && bit8(self.bus.ie_flag, 1) {
            idx = 1;
        } else if bit8(self.bus.int_flag, 2) && bit8(self.bus.ie_flag, 2) {
            idx = 2;
        } else if bit8(self.bus.int_flag, 3) && bit8(self.bus.ie_flag, 3) {
            idx = 3;
        } else if bit8(self.bus.int_flag, 4) && bit8(self.bus.ie_flag, 4) {
            idx = 4;
        }
        if idx == 5 {
            return 0;
        }
        if !self.ime {
            self.halt = false;
            return 0;
        }
        self.handle_interrupt(idx)
    }

    /// The service routine for one interrupt index.
    #[verifier::rlimit(100)]
    fn handle_interrupt(&mut self, interrupt_idx: u8) -> (cycle: u8)
        requires
            old(self).wf(),
            old(self).ime,
            interrupt_idx < 5,
            old(self).spec_pending(interrupt_idx as int),
        ensures
            final(self).wf(),
            cycle == 20,
            crate::bus::same_frame_counters(old(self).bus, final(self).bus),
            ({
                let k = interrupt_idx as int;
                let armed = Cpu {
                    bus: Bus {
                        int_flag: spec_clear_bit8(old(self).bus.int_flag, k),
                        timer: crate::timer::Timer {
                            is_stop: old(self).bus.timer.is_stop && k != 4,
                            ..old(self).bus.timer
                        },
                        ..old(self).bus
                    },
                    halt: false,
                    ime: false,
                    ..*old(self)
                };
                &&& final(self).pc == 0x40 + 8 * k
                &&& final(self).sp == ((old(self).sp + 65534) % 65536) as u16
                &&& *final(self) == (Cpu {
                    sp: final(self).sp,
                    pc: final(self).pc,
                    bus: final(self).bus,
                    ..armed
                })
                &&& exists|mid: Bus|
                    armed.bus.spec_write_effect(
                        ((old(self).sp + 65535) % 65536) as u16,
                        (old(self).pc as int / 256) as u8,
                        mid,
                    ) && #[trigger] mid.spec_write_effect(
                        ((old(self).sp + 65534) % 65536) as u16,
                        (old(self).pc % 256) as u8,
                        final(self).bus,
                    )
            }),
    {
        proof {
            broadcast use crate::bus::lemma_write_preserves_frame_counters;
        }
        self.bus.int_flag = clear_bit8(self.bus.int_flag, interrupt_idx);
        self.halt = false;
        self.ime = false;
        if interrupt_idx == 4 {
            self.bus.timer.is_stop = false;
        }
        let address: u16 = 0x40 + 8 * interrupt_idx as u16;
        self.int_call(address);
        20
    }

}

impl Cpu {
    /// Flag breakpoint hits by enabling step mode when PC sits on a
    /// registered breakpoint.
    fn check_break_points(&mut self)
        ensures
            *final(self) == (Cpu { step_flag: final(self).step_flag, ..*old(self) }),
    {
        let mut i: usize = 0;
        while i < self.break_points.len()
            invariant
                *self == (Cpu { step_flag: self.step_flag, ..*old(self) }),
                i <= self.break_points@.len(),
            decreases self.break_points@.len() - i,
        {
            if self.break_points[i] == self.pc {
                self.step_flag = true;
            }
            i = i + 1;
        }
    }

    /// Register a PC breakpoint for the host's debugger.
    pub fn set_break_point(&mut self, bp: u16)
        ensures
            *final(self) == (Cpu { break_points: final(self).break_points, ..*old(self) }),
            final(self).break_points@ == old(self).break_points@.push(bp),
    {
        self.break_points.push(bp);
    }

    /// Copy the most recent completed frame to the host's RGBA surface.
    pub fn render(&self, frame: &mut Vec<u8>)
        requires
            old(frame)@.len() == 92160,
        ensures
            final(frame)@ == self.bus.ppu.frame_buffer@,
    {
        self.bus.ppu.render(frame);
    }

    /// Forward `n` T-cycles to the pixel unit, the timer and the sound
    /// unit, and account them in `t_cycles`.  Nothing else of the machine
    /// moves; the pixel unit advances exactly as its own tick contract
    /// says.
    fn tick_peripherals(&mut self, n: u8)
        requires
            old(self).wf(),
            old(self).t_cycles + n <= 0xFFFF_FFFF_FFFF_FFFF,
        ensures
            final(self).wf(),
            *final(self) == (Cpu {
                bus: final(self).bus,
                t_cycles: (old(self).t_cycles + n) as u64,
                ..*old(self)
            }),
            final(self).bus == (Bus {
                ppu: final(self).bus.ppu,
                timer: final(self).bus.timer,
                sound: final(self).bus.sound,
                ..old(self).bus
            }),
            !old(self).bus.ppu.spec_lcd_bit(7) ==> final(self).bus.ppu == old(self).bus.ppu,
            old(self).bus.ppu.spec_lcd_bit(7) ==> ({
                let pre = old(self).bus.ppu;
                let post = final(self).bus.ppu;
                &&& pre.same_config(post)
                &&& post.spec_pos() == (pre.spec_pos() + n) % 70224
                &&& (pre.vblank_count < 0xFFFF_FFFF_FFFF_0000 ==> post.vblank_count
                    == pre.vblank_count + crate::ppu::Ppu::spec_crossings(
                    pre.spec_pos(),
                    n as int,
                ))
            }),
            final(self).bus.ppu.vblank_count >= old(self).bus.ppu.vblank_count,
    {
        self.bus.ppu.tick(n);
        let ghost bus_snapshot = self.bus;
        let mut t: u8 = 0;
        while t < n
            invariant
                t <= n,
                self.wf(),
                *self == (Cpu { bus: self.bus, ..*old(self) }),
                self.bus == (Bus {
                    timer: self.bus.timer,
                    sound: self.bus.sound,
                    ..bus_snapshot
                }),
            decreases n - t,
        {
            self.bus.timer.tick();
            let div = self.bus.timer.read_div();
            self.bus.sound.tick(div);
            t = t + 1;
        }
        self.t_cycles = self.t_cycles + n as u64;
    }

    /// One instruction boundary of the frame driver: breakpoint check,
    /// fetch and execute (or idle while halted), the PC advance and the
    /// delayed EI enable, interrupt collection and dispatch.  Returns the
    /// T-cycle count to forward to the peripherals; fails, leaving the
    /// unassigned opcode at PC, exactly as the executor does.  The pixel
    /// unit's frame counters do not move.
    fn step_instruction(&mut self) -> (r: Result<u8, CpuError>)
        requires
            old(self).wf(),
        ensures
            final(self).wf(),
            crate::bus::same_frame_counters(old(self).bus, final(self).bus),
            final(self).t_cycles == old(self).t_cycles,
            final(self).pending_ticks == old(self).pending_ticks,
            r is Ok ==> 4 <= r->Ok_0 <= 44,
            r is Err ==> Self::spec_illegal_opcode(
                final(self).bus.spec_read(final(self).pc),
            ) && !final(self).halt,
    {
        self.check_break_points();
        let mut op_cycle: u8 = 4;

        if !self.halt {
            let pending_ei = self.ime_pending;
            let opcode = self.read_inst();
            op_cycle = match self.excute_op(&opcode) {
                Ok(cycles) => cycles,
                Err(e) => {
                    return Err(e);
                },
            };
            if !self.jmp_flag {
                self.increment_pc();
            } else {
                self.jmp_flag = false;
            }
            if pending_ei && self.ime_pending {
                self.ime = true;
                self.ime_pending = false;
            }
        }

        self.update_interrupt();
        let int_cycle = self.check_interrupt();
        Ok(op_cycle + int_cycle)
    }

    /// Run one frame: execute instructions (or idle while halted),
    /// dispatching pending interrupts at instruction boundaries, and
    /// forward exactly 70 224 T-cycles to the pixel unit, timer and sound
    /// unit — the overhang of the frame's last instruction is carried in
    /// `pending_ticks` and forwarded at the start of the next call, so
    /// consecutive frame boundaries sit exactly 70 224 T-cycles apart.
    /// With the VBlank tally inside its range, at most one VBlank interrupt
    /// is raised per frame (exactly one while the LCD stays enabled, which
    /// the pixel unit's own contract and frame lemmas pin down).  The call
    /// fails only by stopping at an unassigned opcode, which then sits at
    /// PC with fewer than 70 224 cycles forwarded.
    #[verifier::rlimit(100)]
    pub fn run(&mut self) -> (r: Result<(), CpuError>)
        requires
            old(self).wf(),
            old(self).t_cycles <= 0xFFFF_FFFF_FFF0_0000,
        ensures
            final(self).wf(),
            r is Ok ==> final(self).t_cycles == old(self).t_cycles + 70224,
            r is Err ==> final(self).t_cycles <= old(self).t_cycles + 70224,
            old(self).bus.ppu.vblank_count < 0xFFFF_FFFF_0000_0000
                ==> final(self).bus.ppu.vblank_count <= old(self).bus.ppu.vblank_count + 1,
            r is Err ==> Self::spec_illegal_opcode(
                final(self).bus.spec_read(final(self).pc),
            ) && !final(self).halt,
    {
        let ghost pos0 = self.bus.ppu.spec_pos();
        let ghost count0 = self.bus.ppu.vblank_count;
        let ghost mut dots_on: int = 0;

        proof {
            let lyv = old(self).bus.ppu.ly as int;
            let ccv = old(self).bus.ppu.current_cycle as int;
            assert(0 <= lyv * 456 + ccv < 70224) by (nonlinear_arith)
                requires
                    0 <= lyv < 154,
                    0 <= ccv < 456,
            ;
            vstd::arithmetic::div_mod::lemma_small_mod(pos0 as nat, 70224);
        }

        // Forward the overhang of the previous frame's last instruction.
        let pending = self.pending_ticks;
        self.pending_ticks = 0;
        let ghost lcd_on = self.bus.ppu.spec_lcd_bit(7);
        self.tick_peripherals(pending);
        proof {
            if lcd_on {
                crate::ppu::lemma_crossings_compose(pos0, 0, pending as int);
                dots_on = pending as int;
            }
            assert(crate::ppu::Ppu::spec_crossings(pos0, 0) == 0) by {
                vstd::arithmetic::div_mod::lemma_mod_bound(pos0 + 70224 - 144 * 456, 70224);
                vstd::arithmetic::div_mod::lemma_basic_div(
                    (pos0 + 70224 - 144 * 456) % 70224,
                    70224,
                );
            }
        }
        let mut ticked: u32 = pending as u32;

        while ticked < 70224
            invariant
                self.wf(),
                ticked <= 70224,
                0 <= pos0 < 70224,
                self.t_cycles == old(self).t_cycles + ticked,
                old(self).t_cycles <= 0xFFFF_FFFF_FFF0_0000,
                0 <= dots_on <= ticked,
                count0 == old(self).bus.ppu.vblank_count,
                self.bus.ppu.spec_pos() == (pos0 + dots_on) % 70224,
                self.bus.ppu.vblank_count >= count0,
                count0 < 0xFFFF_FFFF_0000_0000 ==> self.bus.ppu.vblank_count == count0
                    + crate::ppu::Ppu::spec_crossings(pos0, dots_on),
            decreases 70224 - ticked,
        {
            proof {
                crate::ppu::lemma_one_vblank_per_frame(pos0, dots_on);
            }
            let op_cycle: u8 = match self.step_instruction() {
                Ok(cycles) => cycles,
                Err(e) => {
                    return Err(e);
                },
            };

            let remaining: u32 = 70224 - ticked;
            let chunk: u8 = if op_cycle as u32 <= remaining {
                op_cycle
            } else {
                self.pending_ticks = op_cycle - remaining as u8;
                remaining as u8
            };

            let ghost lcd_on = self.bus.ppu.spec_lcd_bit(7);
            let ghost pre_pos = self.bus.ppu.spec_pos();
            self.tick_peripherals(chunk);
            proof {
                if lcd_on {
                    crate::ppu::lemma_mod_add_assoc(pos0 + dots_on, chunk as int);
                    crate::ppu::lemma_crossings_compose(pos0, dots_on, chunk as int);
                    dots_on = dots_on + chunk as int;
                }
            }
            ticked = ticked + chunk as u32;
        }

        proof {
            crate::ppu::lemma_one_vblank_per_frame(pos0, dots_on);
        }
        Ok(())
    }

    /// The machine at its post-boot state around the given bus: PC at the
    /// cartridge entry, SP at the top of HRAM, the registers at their
    /// documented power-on values, interrupts off.
    pub fn new(bus: Bus) -> (r: Cpu)
        requires
            bus.wf(),
        ensures
            r.wf(),
            r == (Cpu {
                a: 0x01,
                b: 0x00,
                c: 0x13,
                d: 0x00,
                e: 0xD8,
                f: 0xB0,
                h: 0x01,
                l: 0x4D,
                sp: 0xFFFE,
                pc: 0x100,
                bus: r.bus,
                halt: false,
                ime: false,
                ime_pending: false,
                step_flag: false,
                debug_flag: false,
                break_points: r.break_points,
                jmp_flag: false,
                t_cycles: 0,
                pending_ticks: 0,
            }),
            r.bus == bus,
            r.break_points@.len() == 0,
    {
        Cpu {
            a: 0x01,
            b: 0x00,
            c: 0x13,
            d: 0x00,
            e: 0xD8,
            f: 0xB0,
            h: 0x01,
            l: 0x4D,
            sp: 0xFFFE,
            pc: 0x100,
            bus,
            halt: false,
            ime: false,
            ime_pending: false,
            step_flag: false,
            debug_flag: false,
            break_points: Vec::new(),
            jmp_flag: false,
            t_cycles: 0,
            pending_ticks: 0,
        }
    }
}

/// An ADD of a register followed by a SUB of the same register restores A:
/// the sum and difference specifications the arithmetic instructions'
/// contracts use cancel exactly, whatever the flag side-effects were.
pub proof fn lemma_add_then_sub_restores_a(a: u8, r: u8)
    ensures
        spec_sub8_val(spec_add8_val(a, r), r) == a,
{
    let v = (a + r) % 256;
    if a + r < 256 {
        vstd::arithmetic::div_mod::lemma_small_mod((a + r) as nat, 256);
        assert(v == a + r);
        if r == 0 {
            vstd::arithmetic::div_mod::lemma_small_mod(a as nat, 256);
        } else {
            vstd::arithmetic::div_mod::lemma_fundamental_div_mod_converse(v + 256 - r, 256, 1, a as int);
        }
    } else {
        vstd::arithmetic::div_mod::lemma_fundamental_div_mod_converse(
            (a + r) as int,
            256,
            1,
            a + r - 256,
        );
        assert(v == a + r - 256);
        vstd::arithmetic::div_mod::lemma_small_mod(a as nat, 256);
    }
}

/// The machine invariant's arithmetic form of the flag rule carries over to
/// the bitwise one: a flag byte that is a multiple of 16 has a clear low
/// nibble.
pub proof fn lemma_flag_low_nibble_clear(fv: u8)
    requires
        fv % 16 == 0,
    ensures
        fv & 0x0F == 0,
{
    assert(fv % 16 == 0 ==> fv & 0x0F == 0) by (bit_vector);
}


} // verus!
