use vstd::prelude::*;

verus! {

pub const FLAG_C: u8 = 0x01;
pub const FLAG_Z: u8 = 0x02;
pub const FLAG_I: u8 = 0x04;
pub const FLAG_D: u8 = 0x08;
pub const FLAG_B: u8 = 0x10;
pub const FLAG_X1: u8 = 0x20;
pub const FLAG_V: u8 = 0x40;
pub const FLAG_N: u8 = 0x80;

/// Register file of the 6507: accumulator, index registers, stack pointer,
/// program counter and processor status.
pub struct PcState {
    pub a: u8,
    pub x: u8,
    pub y: u8,
    pub s: u8,
    pub pc: u16,
    pub p: u8,
}

/// `p` with the bits of `mask` set when `v` holds and cleared otherwise.
pub open spec fn with_bits(p: u8, mask: u8, v: bool) -> u8 {
    if v {
        p | mask
    } else {
        p & !mask
    }
}

/// `pc` moved by a signed offset, modulo 2^16.
pub open spec fn pc_offset(pc: u16, delta: int) -> u16 {
    ((pc as int + delta) % 0x10000) as u16
}

/// `s` moved by a signed offset, modulo 2^8.
pub open spec fn s_offset(s: u8, delta: int) -> u8 {
    ((s as int + delta) % 0x100) as u8
}

impl PcState {
    pub const CYCLES_TO_CLOCK: u8 = 3;

    pub open spec fn flag(self, mask: u8) -> bool {
        self.p & mask != 0
    }

    pub open spec fn with_flag(self, mask: u8, v: bool) -> PcState {
        PcState { p: with_bits(self.p, mask, v), ..self }
    }

    /// N from bit 7 of `v`, Z from `v == 0`.
    pub open spec fn with_nz(self, v: u8) -> PcState {
        self.with_flag(FLAG_N, v & 0x80 != 0).with_flag(FLAG_Z, v == 0)
    }

    pub fn new() -> (r: Self)
        ensures
            r.a == 0 && r.x == 0 && r.y == 0 && r.pc == 0 && r.p == 0,
            r.s == 0xFF,
    {
        PcState { a: 0, x: 0, y: 0, s: 0xFF, pc: 0, p: 0 }
    }

    pub fn get_a(&self) -> (r: u8)
        ensures
            r == self.a,
    {
        self.a
    }

    pub fn get_x(&self) -> (r: u8)
        ensures
            r == self.x,
    {
        self.x
    }

    pub fn get_y(&self) -> (r: u8)
        ensures
            r == self.y,
    {
        self.y
    }

    pub fn get_s(&self) -> (r: u8)
        ensures
            r == self.s,
    {
        self.s
    }

    pub fn get_pc(&self) -> (r: u16)
        ensures
            r == self.pc,
    {
        self.pc
    }

    pub fn get_p(&self) -> (r: u8)
        ensures
            r == self.p,
    {
        self.p
    }

    pub fn get_pcl(&self) -> (r: u8)
        ensures
            r == self.pc % 256,
    {
        (self.pc % 256) as u8
    }

    pub fn get_pch(&self) -> (r: u8)
        ensures
            r == self.pc / 256,
    {
        (self.pc / 256) as u8
    }

    pub fn set_a(&mut self, v: u8)
        ensures
            *final(self) == (PcState { a: v, ..*old(self) }),
    {
        self.a = v;
    }

    pub fn set_x(&mut self, v: u8)
        ensures
            *final(self) == (PcState { x: v, ..*old(self) }),
    {
        self.x = v;
    }

    pub fn set_y(&mut self, v: u8)
        ensures
            *final(self) == (PcState { y: v, ..*old(self) }),
    {
        self.y = v;
    }

    pub fn set_s(&mut self, v: u8)
        ensures
            *final(self) == (PcState { s: v, ..*old(self) }),
    {
        self.s = v;
    }

    pub fn set_pc(&mut self, v: u16)
        ensures
            *final(self) == (PcState { pc: v, ..*old(self) }),
    {
        self.pc = v;
    }

    pub fn set_p(&mut self, v: u8)
        ensures
            *final(self) == (PcState { p: v, ..*old(self) }),
    {
        self.p = v;
    }

    pub fn set_pcl(&mut self, v: u8)
        ensures
            *final(self) == (PcState { pc: ((old(self).pc / 256) * 256 + v) as u16, ..*old(self) }),
    {
        self.pc = (self.pc / 256) * 256 + v as u16;
    }

    pub fn set_pch(&mut self, v: u8)
        ensures
            *final(self) == (PcState { pc: (v * 256 + old(self).pc % 256) as u16, ..*old(self) }),
    {
        self.pc = (v as u16) * 256 + self.pc % 256;
    }

    /// Moves the program counter by a signed offset, wrapping at 16 bits.
    pub fn increment_pc(&mut self, delta: i16)
        ensures
            *final(self) == (PcState { pc: pc_offset(old(self).pc, delta as int), ..*old(self) }),
    {
        let n: i32 = (self.pc as i32 + delta as i32 + 0x10000) % 0x10000;
        self.pc = n as u16;
    }

    /// Moves the stack pointer by a signed offset, wrapping at 8 bits.
    pub fn increment_s(&mut self, delta: i8)
        ensures
            *final(self) == (PcState { s: s_offset(old(self).s, delta as int), ..*old(self) }),
    {
        let n: i16 = (self.s as i16 + delta as i16 + 0x100) % 0x100;
        self.s = n as u8;
    }

    fn set_flag(&mut self, mask: u8, v: bool)
        ensures
            *final(self) == old(self).with_flag(mask, v),
    {
        if v {
            self.p = self.p | mask;
        } else {
            self.p = self.p & !mask;
        }
    }

    pub fn set_flag_c(&mut self, v: bool)
        ensures
            *final(self) == old(self).with_flag(FLAG_C, v),
    {
        self.set_flag(FLAG_C, v);
    }

    pub fn set_flag_z(&mut self, v: bool)
        ensures
            *final(self) == old(self).with_flag(FLAG_Z, v),
    {
        self.set_flag(FLAG_Z, v);
    }

    pub fn set_flag_i(&mut self, v: bool)
        ensures
            *final(self) == old(self).with_flag(FLAG_I, v),
    {
        self.set_flag(FLAG_I, v);
    }

    pub fn set_flag_d(&mut self, v: bool)
        ensures
            *final(self) == old(self).with_flag(FLAG_D, v),
    {
        self.set_flag(FLAG_D, v);
    }

    pub fn set_flag_b(&mut self, v: bool)
        ensures
            *final(self) == old(self).with_flag(FLAG_B, v),
    {
        self.set_flag(FLAG_B, v);
    }

    pub fn set_flag_x1(&mut self, v: bool)
        ensures
            *final(self) == old(self).with_flag(FLAG_X1, v),
    {
        self.set_flag(FLAG_X1, v);
    }

    pub fn set_flag_v(&mut self, v: bool)
        ensures
            *final(self) == old(self).with_flag(FLAG_V, v),
    {
        self.set_flag(FLAG_V, v);
    }

    pub fn set_flag_n(&mut self, v: bool)
        ensures
            *final(self) == old(self).with_flag(FLAG_N, v),
    {
        self.set_flag(FLAG_N, v);
    }

    pub fn get_flag_c(&self) -> (r: bool)
        ensures
            r == self.flag(FLAG_C),
    {
        self.p & FLAG_C != 0
    }

    pub fn get_flag_z(&self) -> (r: bool)
        ensures
            r == self.flag(FLAG_Z),
    {
        self.p & FLAG_Z != 0
    }

    pub fn get_flag_i(&self) -> (r: bool)
        ensures
            r == self.flag(FLAG_I),
    {
        self.p & FLAG_I != 0
    }

    pub fn get_flag_d(&self) -> (r: bool)
        ensures
            r == self.flag(FLAG_D),
    {
        self.p & FLAG_D != 0
    }

    pub fn get_flag_b(&self) -> (r: bool)
        ensures
            r == self.flag(FLAG_B),
    {
        self.p & FLAG_B != 0
    }

    pub fn get_flag_v(&self) -> (r: bool)
        ensures
            r == self.flag(FLAG_V),
    {
        self.p & FLAG_V != 0
    }

    pub fn get_flag_n(&self) -> (r: bool)
        ensures
            r == self.flag(FLAG_N),
    {
        self.p & FLAG_N != 0
    }
}

/// Sets N and Z from `value`.
pub fn set_status_nz(pc_state: &mut PcState, value: u8)
    ensures
        *final(pc_state) == old(pc_state).with_nz(value),
{
    pc_state.set_flag_n(value & 0x80 != 0);
    pc_state.set_flag_z(value == 0);
}

} // verus!
