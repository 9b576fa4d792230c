use vstd::prelude::*;
use crate::clocks::Clock;
use crate::memory::{mem_read, Memory};
use crate::pc_state::{pc_offset, PcState};

verus! {

/// The 6502 addressing modes that compute an effective address.
#[derive(Clone, Copy, PartialEq, Eq, Structural)]
pub enum Mode {
    Imm,
    Zp,
    Zpx,
    Zpy,
    Izx,
    Izy,
    Abs,
    Abx,
    Aby,
    Indirect,
}

/// Operand bytes and extra CPU cycles of an addressing mode.
pub struct Addressing {
    pub size: u8,
    pub cycles: u8,
}

impl Addressing {
    pub fn new(size: u8, cycles: u8) -> (r: Self)
        ensures
            r.size == size && r.cycles == cycles,
    {
        Addressing { size, cycles }
    }
}

pub open spec fn mode_size(m: Mode) -> u8 {
    match m {
        Mode::Abs | Mode::Abx | Mode::Aby | Mode::Indirect => 2,
        _ => 1,
    }
}

pub open spec fn mode_cycles(m: Mode) -> u8 {
    match m {
        Mode::Imm => 0,
        Mode::Zp => 1,
        Mode::Zpx | Mode::Zpy => 2,
        Mode::Izx | Mode::Indirect => 4,
        Mode::Izy => 3,
        Mode::Abs | Mode::Abx | Mode::Aby => 2,
    }
}

/// Size and cycle cost of a mode.
pub fn addressing_of(m: Mode) -> (r: Addressing)
    ensures
        r.size == mode_size(m) && r.cycles == mode_cycles(m),
{
    match m {
        Mode::Imm => Addressing::new(1, 0),
        Mode::Zp => Addressing::new(1, 1),
        Mode::Zpx => Addressing::new(1, 2),
        Mode::Zpy => Addressing::new(1, 2),
        Mode::Izx => Addressing::new(1, 4),
        Mode::Izy => Addressing::new(1, 3),
        Mode::Abs => Addressing::new(2, 2),
        Mode::Abx => Addressing::new(2, 2),
        Mode::Aby => Addressing::new(2, 2),
        Mode::Indirect => Addressing::new(2, 4),
    }
}

/// Little-endian word read at `a` and `b`.
pub open spec fn word(m: Memory, t: u64, a: u16, b: u16) -> u16 {
    (mem_read(m, t, a) + 256 * mem_read(m, t, b)) as u16
}

/// `base + index` modulo 2^16, and whether that crosses a page.
pub open spec fn indexed(base: u16, index: u8) -> (u16, bool) {
    let a = ((base + index) % 0x10000) as u16;
    (a, base / 256 != a / 256)
}

/// Effective address of the instruction at `p.pc` in mode `mode`, and
/// whether indexing crossed a page.
#[verifier::opaque]
pub open spec fn ea_spec(mode: Mode, p: PcState, m: Memory, t: u64) -> (u16, bool) {
    let op1 = pc_offset(p.pc, 1);
    let op2 = pc_offset(p.pc, 2);
    let zp = mem_read(m, t, op1);
    let abs = word(m, t, op1, op2);
    match mode {
        Mode::Imm => (op1, false),
        Mode::Zp => (zp as u16, false),
        Mode::Zpx => (((zp + p.x) % 256) as u16, false),
        Mode::Zpy => (((zp + p.y) % 256) as u16, false),
        Mode::Izx => {
            let z = ((zp + p.x) % 256) as u16;
            (word(m, t, z, (z + 1) as u16), false)
        },
        Mode::Izy => indexed(word(m, t, zp as u16, (zp + 1) as u16), p.y),
        Mode::Abs => (abs, false),
        Mode::Abx => indexed(abs, p.x),
        Mode::Aby => indexed(abs, p.y),
        Mode::Indirect => (word(m, t, abs, ((abs / 256) * 256 + (abs + 1) % 256) as u16), false),
    }
}

fn read_word(memory: &Memory, clock: &Clock, a: u16, b: u16) -> (r: u16)
    requires
        memory.wf(),
    ensures
        r == word(*memory, clock.ticks, a, b),
{
    memory.read(clock, a) as u16 + 256 * memory.read(clock, b) as u16
}

fn index(base: u16, i: u8) -> (r: (u16, bool))
    ensures
        r == indexed(base, i),
{
    let a = ((base as u32 + i as u32) % 0x10000) as u16;
    (a, base / 256 != a / 256)
}

/// Computes the effective address (the operand bytes follow the opcode).
#[verifier::rlimit(60)]
pub fn address16(mode: Mode, clock: &Clock, pc_state: &PcState, memory: &Memory) -> (r: (u16, bool))
    requires
        memory.wf(),
    ensures
        r == ea_spec(mode, *pc_state, *memory, clock.ticks),
{
    proof {
        reveal(ea_spec);
    }
    let pc = pc_state.get_pc();
    let op1: u16 = ((pc as u32 + 1) % 0x10000) as u16;
    let op2: u16 = ((pc as u32 + 2) % 0x10000) as u16;
    match mode {
        Mode::Imm => (op1, false),
        Mode::Zp => (memory.read(clock, op1) as u16, false),
        Mode::Zpx => (((memory.read(clock, op1) as u16 + pc_state.get_x() as u16) % 256), false),
        Mode::Zpy => (((memory.read(clock, op1) as u16 + pc_state.get_y() as u16) % 256), false),
        Mode::Izx => {
            let z = (memory.read(clock, op1) as u16 + pc_state.get_x() as u16) % 256;
            (read_word(memory, clock, z, z + 1), false)
        },
        Mode::Izy => {
            let z = memory.read(clock, op1) as u16;
            index(read_word(memory, clock, z, z + 1), pc_state.get_y())
        },
        Mode::Abs => (read_word(memory, clock, op1, op2), false),
        Mode::Abx => index(read_word(memory, clock, op1, op2), pc_state.get_x()),
        Mode::Aby => index(read_word(memory, clock, op1, op2), pc_state.get_y()),
        Mode::Indirect => {
            let abs = read_word(memory, clock, op1, op2);
            (read_word(memory, clock, abs, (abs / 256) * 256 + (abs % 256 + 1) % 256), false)
        },
    }
}

/// Address of the immediate operand.
pub struct AddressingIMM {
    pub addressing: Addressing,
}

impl AddressingIMM {
    pub fn new() -> (r: Self)
        ensures
            r.addressing.size == 1 && r.addressing.cycles == 0,
    {
        AddressingIMM { addressing: Addressing::new(1, 0) }
    }

    pub fn address(&self, pc_state: &PcState, memory: &Memory) -> (r: u16)
        ensures
            r == pc_offset(pc_state.pc, 1),
    {
        pc_state.get_pc().wrapping_add(1)
    }
}

/// Indexed indirect: the word at zero page `operand + X`.
pub struct AddressingIZX {
    pub addressing: Addressing,
}

impl AddressingIZX {
    pub fn new() -> (r: Self)
        ensures
            r.addressing.size == 1 && r.addressing.cycles == 4,
    {
        AddressingIZX { addressing: Addressing::new(1, 4) }
    }

    pub fn address(&self, clock: &Clock, pc_state: &PcState, memory: &Memory) -> (r: u16)
        requires
            memory.wf(),
        ensures
            r == ea_spec(Mode::Izx, *pc_state, *memory, clock.ticks).0,
    {
        address16(Mode::Izx, clock, pc_state, memory).0
    }
}

} // verus!
