use vstd::prelude::*;
use crate::addressing::Mode;
use crate::clocks::{Clock, CLOCK_LIMIT};
use crate::instruction_set::{
    branch_instruction, break_instruction, jump_instruction, jump_sub_routine_instruction, pha_effect,
    pha_instruction, php_effect, php_instruction, pla_effect, pla_instruction, plp_effect,
    plp_instruction, read_write_instruction_additional_delay, return_from_interrupt,
    return_from_sub_routine_instruction, rw_effect, single_byte_instruction, single_effect, rts_effect,
    rti_effect, jump_effect, branch_effect, jsr_effect, brk_effect, Op, ReadSource, Register, WriteSink,
};
use crate::memory::Memory;
use crate::pc_state::PcState;

verus! {

/// How an opcode executes: a one-byte register instruction, a
/// read/modify/write instruction, or one of the hand-coded ones.
#[derive(Clone, Copy, PartialEq, Eq, Structural)]
pub enum Decoded {
    Single(Register, Register, Op),
    ReadWrite(Mode, ReadSource, WriteSink, Op, u8),
    Break,
    JumpSub,
    ReturnInterrupt,
    ReturnSub,
    Jump(Mode),
    Php,
    Plp,
    Pha,
    Pla,
    Branch(u8, u8),
}

/// Why the CPU stopped.
#[derive(Debug, PartialEq, Eq, Structural)]
pub enum CpuError {
    /// The opcode is not one this CPU implements.
    UnimplementedOpcode(u8),
}

/// The opcode table.
#[verifier::opaque]
pub open spec fn decode_spec(op_code: u8) -> Option<Decoded> {
    match op_code {
        0x00 => Option::Some(Decoded::Break),
        0x01 => Option::Some(Decoded::ReadWrite(Mode::Izx, ReadSource::Memory, WriteSink::Null, Op::Or, 0)),
        0x03 => Option::Some(Decoded::ReadWrite(Mode::Izx, ReadSource::Memory, WriteSink::Memory, Op::Slo, 0)),
        0x05 => Option::Some(Decoded::ReadWrite(Mode::Zp, ReadSource::Memory, WriteSink::Null, Op::Or, 0)),
        0x06 => Option::Some(Decoded::ReadWrite(Mode::Zp, ReadSource::Memory, WriteSink::Memory, Op::Asl, 0)),
        0x07 => Option::Some(Decoded::ReadWrite(Mode::Zp, ReadSource::Memory, WriteSink::Memory, Op::Slo, 0)),
        0x08 => Option::Some(Decoded::Php),
        0x09 => Option::Some(Decoded::ReadWrite(Mode::Imm, ReadSource::Memory, WriteSink::Null, Op::Or, 0)),
        0x0A => Option::Some(Decoded::Single(Register::A, Register::A, Op::Asl)),
        0x0D => Option::Some(Decoded::ReadWrite(Mode::Abs, ReadSource::Memory, WriteSink::Null, Op::Or, 0)),
        0x0E => Option::Some(Decoded::ReadWrite(Mode::Abs, ReadSource::Memory, WriteSink::Memory, Op::Asl, 0)),
        0x0F => Option::Some(Decoded::ReadWrite(Mode::Abs, ReadSource::Memory, WriteSink::Memory, Op::Slo, 0)),
        0x10 => Option::Some(Decoded::Branch(0x80, 0x00)),
        0x11 => Option::Some(Decoded::ReadWrite(Mode::Izy, ReadSource::Memory, WriteSink::Null, Op::Or, 0)),
        0x13 => Option::Some(Decoded::ReadWrite(Mode::Izy, ReadSource::Memory, WriteSink::Memory, Op::Slo, 1)),
        0x15 => Option::Some(Decoded::ReadWrite(Mode::Zpx, ReadSource::Memory, WriteSink::Null, Op::Or, 0)),
        0x16 => Option::Some(Decoded::ReadWrite(Mode::Zpx, ReadSource::Memory, WriteSink::Memory, Op::Asl, 0)),
        0x17 => Option::Some(Decoded::ReadWrite(Mode::Zpx, ReadSource::Memory, WriteSink::Memory, Op::Slo, 0)),
        0x18 => Option::Some(Decoded::Single(Register::Null, Register::Null, Op::Clc)),
        0x19 => Option::Some(Decoded::ReadWrite(Mode::Aby, ReadSource::Memory, WriteSink::Null, Op::Or, 0)),
        0x1B => Option::Some(Decoded::ReadWrite(Mode::Aby, ReadSource::Memory, WriteSink::Memory, Op::Slo, 1)),
        0x1D => Option::Some(Decoded::ReadWrite(Mode::Abx, ReadSource::Memory, WriteSink::Null, Op::Or, 0)),
        0x1E => Option::Some(Decoded::ReadWrite(Mode::Abx, ReadSource::Memory, WriteSink::Memory, Op::Asl, 1)),
        0x1F => Option::Some(Decoded::ReadWrite(Mode::Abx, ReadSource::Memory, WriteSink::Memory, Op::Slo, 1)),
        0x20 => Option::Some(Decoded::JumpSub),
        0x21 => Option::Some(Decoded::ReadWrite(Mode::Izx, ReadSource::Memory, WriteSink::Null, Op::And, 0)),
        0x24 => Option::Some(Decoded::ReadWrite(Mode::Zp, ReadSource::Memory, WriteSink::Null, Op::Bit, 0)),
        0x25 => Option::Some(Decoded::ReadWrite(Mode::Zp, ReadSource::Memory, WriteSink::Null, Op::And, 0)),
        0x26 => Option::Some(Decoded::ReadWrite(Mode::Zp, ReadSource::Memory, WriteSink::Memory, Op::Rol, 0)),
        0x28 => Option::Some(Decoded::Plp),
        0x29 => Option::Some(Decoded::ReadWrite(Mode::Imm, ReadSource::Memory, WriteSink::Null, Op::And, 0)),
        0x2A => Option::Some(Decoded::Single(Register::A, Register::A, Op::Rol)),
        0x2C => Option::Some(Decoded::ReadWrite(Mode::Abs, ReadSource::Memory, WriteSink::Null, Op::Bit, 0)),
        0x2D => Option::Some(Decoded::ReadWrite(Mode::Abs, ReadSource::Memory, WriteSink::Null, Op::And, 0)),
        0x2E => Option::Some(Decoded::ReadWrite(Mode::Abs, ReadSource::Memory, WriteSink::Memory, Op::Rol, 0)),
        0x30 => Option::Some(Decoded::Branch(0x80, 0x80)),
        0x31 => Option::Some(Decoded::ReadWrite(Mode::Izy, ReadSource::Memory, WriteSink::Null, Op::And, 0)),
        0x35 => Option::Some(Decoded::ReadWrite(Mode::Zpx, ReadSource::Memory, WriteSink::Null, Op::And, 0)),
        0x36 => Option::Some(Decoded::ReadWrite(Mode::Zpx, ReadSource::Memory, WriteSink::Memory, Op::Rol, 0)),
        0x38 => Option::Some(Decoded::Single(Register::Null, Register::Null, Op::Sec)),
        0x39 => Option::Some(Decoded::ReadWrite(Mode::Aby, ReadSource::Memory, WriteSink::Null, Op::And, 0)),
        0x3D => Option::Some(Decoded::ReadWrite(Mode::Abx, ReadSource::Memory, WriteSink::Null, Op::And, 0)),
        0x3E => Option::Some(Decoded::ReadWrite(Mode::Abx, ReadSource::Memory, WriteSink::Memory, Op::Rol, 1)),
        0x40 => Option::Some(Decoded::ReturnInterrupt),
        0x41 => Option::Some(Decoded::ReadWrite(Mode::Izx, ReadSource::Memory, WriteSink::Null, Op::Eor, 0)),
        0x45 => Option::Some(Decoded::ReadWrite(Mode::Zp, ReadSource::Memory, WriteSink::Null, Op::Eor, 0)),
        0x46 => Option::Some(Decoded::ReadWrite(Mode::Zp, ReadSource::Memory, WriteSink::Memory, Op::Lsr, 0)),
        0x48 => Option::Some(Decoded::Pha),
        0x49 => Option::Some(Decoded::ReadWrite(Mode::Imm, ReadSource::Memory, WriteSink::Null, Op::Eor, 0)),
        0x4A => Option::Some(Decoded::Single(Register::A, Register::A, Op::Lsr)),
        0x4C => Option::Some(Decoded::Jump(Mode::Abs)),
        0x4D => Option::Some(Decoded::ReadWrite(Mode::Abs, ReadSource::Memory, WriteSink::Null, Op::Eor, 0)),
        0x4E => Option::Some(Decoded::ReadWrite(Mode::Abs, ReadSource::Memory, WriteSink::Memory, Op::Lsr, 0)),
        0x50 => Option::Some(Decoded::Branch(0x40, 0x00)),
        0x51 => Option::Some(Decoded::ReadWrite(Mode::Izy, ReadSource::Memory, WriteSink::Null, Op::Eor, 0)),
        0x55 => Option::Some(Decoded::ReadWrite(Mode::Zpx, ReadSource::Memory, WriteSink::Null, Op::Eor, 0)),
        0x56 => Option::Some(Decoded::ReadWrite(Mode::Zpx, ReadSource::Memory, WriteSink::Memory, Op::Lsr, 0)),
        0x58 => Option::Some(Decoded::Single(Register::Null, Register::Null, Op::Cli)),
        0x59 => Option::Some(Decoded::ReadWrite(Mode::Aby, ReadSource::Memory, WriteSink::Null, Op::Eor, 0)),
        0x5D => Option::Some(Decoded::ReadWrite(Mode::Abx, ReadSource::Memory, WriteSink::Null, Op::Eor, 0)),
        0x5E => Option::Some(Decoded::ReadWrite(Mode::Abx, ReadSource::Memory, WriteSink::Memory, Op::Lsr, 1)),
        0x60 => Option::Some(Decoded::ReturnSub),
        0x61 => Option::Some(Decoded::ReadWrite(Mode::Izx, ReadSource::Memory, WriteSink::Null, Op::Adc, 0)),
        0x65 => Option::Some(Decoded::ReadWrite(Mode::Zp, ReadSource::Memory, WriteSink::Null, Op::Adc, 0)),
        0x66 => Option::Some(Decoded::ReadWrite(Mode::Zp, ReadSource::Memory, WriteSink::Memory, Op::Ror, 0)),
        0x68 => Option::Some(Decoded::Pla),
        0x69 => Option::Some(Decoded::ReadWrite(Mode::Imm, ReadSource::Memory, WriteSink::Null, Op::Adc, 0)),
        0x6A => Option::Some(Decoded::Single(Register::A, Register::A, Op::Ror)),
        0x6C => Option::Some(Decoded::Jump(Mode::Indirect)),
        0x6D => Option::Some(Decoded::ReadWrite(Mode::Abs, ReadSource::Memory, WriteSink::Null, Op::Adc, 0)),
        0x6E => Option::Some(Decoded::ReadWrite(Mode::Abs, ReadSource::Memory, WriteSink::Memory, Op::Ror, 0)),
        0x70 => Option::Some(Decoded::Branch(0x40, 0x40)),
        0x71 => Option::Some(Decoded::ReadWrite(Mode::Izy, ReadSource::Memory, WriteSink::Null, Op::Adc, 0)),
        0x75 => Option::Some(Decoded::ReadWrite(Mode::Zpx, ReadSource::Memory, WriteSink::Null, Op::Adc, 0)),
        0x76 => Option::Some(Decoded::ReadWrite(Mode::Zpx, ReadSource::Memory, WriteSink::Memory, Op::Ror, 0)),
        0x78 => Option::Some(Decoded::Single(Register::Null, Register::Null, Op::Sei)),
        0x79 => Option::Some(Decoded::ReadWrite(Mode::Aby, ReadSource::Memory, WriteSink::Null, Op::Adc, 0)),
        0x7D => Option::Some(Decoded::ReadWrite(Mode::Abx, ReadSource::Memory, WriteSink::Null, Op::Adc, 0)),
        0x7E => Option::Some(Decoded::ReadWrite(Mode::Abx, ReadSource::Memory, WriteSink::Memory, Op::Ror, 1)),
        0x81 => Option::Some(Decoded::ReadWrite(Mode::Izx, ReadSource::Null, WriteSink::Memory, Op::Sta, 0)),
        0x83 => Option::Some(Decoded::ReadWrite(Mode::Izx, ReadSource::Null, WriteSink::Memory, Op::Sax, 0)),
        0x84 => Option::Some(Decoded::ReadWrite(Mode::Zp, ReadSource::Null, WriteSink::Memory, Op::Sty, 0)),
        0x85 => Option::Some(Decoded::ReadWrite(Mode::Zp, ReadSource::Null, WriteSink::Memory, Op::Sta, 0)),
        0x86 => Option::Some(Decoded::ReadWrite(Mode::Zp, ReadSource::Null, WriteSink::Memory, Op::Stx, 0)),
        0x87 => Option::Some(Decoded::ReadWrite(Mode::Zp, ReadSource::Null, WriteSink::Memory, Op::Sax, 0)),
        0x88 => Option::Some(Decoded::Single(Register::Y, Register::Y, Op::Dec)),
        0x8A => Option::Some(Decoded::Single(Register::X, Register::A, Op::TStatus)),
        0x8C => Option::Some(Decoded::ReadWrite(Mode::Abs, ReadSource::Null, WriteSink::Memory, Op::Sty, 0)),
        0x8D => Option::Some(Decoded::ReadWrite(Mode::Abs, ReadSource::Null, WriteSink::Memory, Op::Sta, 0)),
        0x8E => Option::Some(Decoded::ReadWrite(Mode::Abs, ReadSource::Null, WriteSink::Memory, Op::Stx, 0)),
        0x8F => Option::Some(Decoded::ReadWrite(Mode::Abs, ReadSource::Null, WriteSink::Memory, Op::Sax, 0)),
        0x90 => Option::Some(Decoded::Branch(0x01, 0x00)),
        0x91 => Option::Some(Decoded::ReadWrite(Mode::Izy, ReadSource::Null, WriteSink::Memory, Op::Sta, 1)),
        0x94 => Option::Some(Decoded::ReadWrite(Mode::Zpx, ReadSource::Null, WriteSink::Memory, Op::Sty, 0)),
        0x95 => Option::Some(Decoded::ReadWrite(Mode::Zpx, ReadSource::Null, WriteSink::Memory, Op::Sta, 0)),
        0x96 => Option::Some(Decoded::ReadWrite(Mode::Zpy, ReadSource::Null, WriteSink::Memory, Op::Stx, 0)),
        0x97 => Option::Some(Decoded::ReadWrite(Mode::Zpy, ReadSource::Null, WriteSink::Memory, Op::Sax, 0)),
        0x98 => Option::Some(Decoded::Single(Register::Y, Register::A, Op::TStatus)),
        0x99 => Option::Some(Decoded::ReadWrite(Mode::Aby, ReadSource::Null, WriteSink::Memory, Op::Sta, 1)),
        0x9A => Option::Some(Decoded::Single(Register::X, Register::S, Op::TNoStatus)),
        0x9D => Option::Some(Decoded::ReadWrite(Mode::Abx, ReadSource::Null, WriteSink::Memory, Op::Sta, 1)),
        0xA0 => Option::Some(Decoded::ReadWrite(Mode::Imm, ReadSource::Memory, WriteSink::Null, Op::Ldy, 0)),
        0xA1 => Option::Some(Decoded::ReadWrite(Mode::Izx, ReadSource::Memory, WriteSink::Null, Op::Lda, 0)),
        0xA2 => Option::Some(Decoded::ReadWrite(Mode::Imm, ReadSource::Memory, WriteSink::Null, Op::Ldx, 0)),
        0xA3 => Option::Some(Decoded::ReadWrite(Mode::Izx, ReadSource::Memory, WriteSink::Null, Op::Lax, 0)),
        0xA4 => Option::Some(Decoded::ReadWrite(Mode::Zp, ReadSource::Memory, WriteSink::Null, Op::Ldy, 0)),
        0xA5 => Option::Some(Decoded::ReadWrite(Mode::Zp, ReadSource::Memory, WriteSink::Null, Op::Lda, 0)),
        0xA6 => Option::Some(Decoded::ReadWrite(Mode::Zp, ReadSource::Memory, WriteSink::Null, Op::Ldx, 0)),
        0xA7 => Option::Some(Decoded::ReadWrite(Mode::Zp, ReadSource::Memory, WriteSink::Null, Op::Lax, 0)),
        0xA8 => Option::Some(Decoded::Single(Register::A, Register::Y, Op::TStatus)),
        0xA9 => Option::Some(Decoded::ReadWrite(Mode::Imm, ReadSource::Memory, WriteSink::Null, Op::Lda, 0)),
        0xAA => Option::Some(Decoded::Single(Register::A, Register::X, Op::TStatus)),
        0xAC => Option::Some(Decoded::ReadWrite(Mode::Abs, ReadSource::Memory, WriteSink::Null, Op::Ldy, 0)),
        0xAD => Option::Some(Decoded::ReadWrite(Mode::Abs, ReadSource::Memory, WriteSink::Null, Op::Lda, 0)),
        0xAE => Option::Some(Decoded::ReadWrite(Mode::Abs, ReadSource::Memory, WriteSink::Null, Op::Ldx, 0)),
        0xAF => Option::Some(Decoded::ReadWrite(Mode::Abs, ReadSource::Memory, WriteSink::Null, Op::Lax, 0)),
        0xB0 => Option::Some(Decoded::Branch(0x01, 0x01)),
        0xB1 => Option::Some(Decoded::ReadWrite(Mode::Izy, ReadSource::Memory, WriteSink::Null, Op::Lda, 0)),
        0xB3 => Option::Some(Decoded::ReadWrite(Mode::Izy, ReadSource::Memory, WriteSink::Null, Op::Lax, 0)),
        0xB4 => Option::Some(Decoded::ReadWrite(Mode::Zpx, ReadSource::Memory, WriteSink::Null, Op::Ldy, 0)),
        0xB5 => Option::Some(Decoded::ReadWrite(Mode::Zpx, ReadSource::Memory, WriteSink::Null, Op::Lda, 0)),
        0xB6 => Option::Some(Decoded::ReadWrite(Mode::Zpy, ReadSource::Memory, WriteSink::Null, Op::Ldx, 0)),
        0xB7 => Option::Some(Decoded::ReadWrite(Mode::Zpy, ReadSource::Memory, WriteSink::Null, Op::Lax, 0)),
        0xB8 => Option::Some(Decoded::Single(Register::Null, Register::Null, Op::Clv)),
        0xB9 => Option::Some(Decoded::ReadWrite(Mode::Aby, ReadSource::Memory, WriteSink::Null, Op::Lda, 0)),
        0xBA => Option::Some(Decoded::Single(Register::S, Register::X, Op::TStatus)),
        0xBC => Option::Some(Decoded::ReadWrite(Mode::Abx, ReadSource::Memory, WriteSink::Null, Op::Ldy, 0)),
        0xBD => Option::Some(Decoded::ReadWrite(Mode::Abx, ReadSource::Memory, WriteSink::Null, Op::Lda, 0)),
        0xBE => Option::Some(Decoded::ReadWrite(Mode::Aby, ReadSource::Memory, WriteSink::Null, Op::Ldx, 0)),
        0xBF => Option::Some(Decoded::ReadWrite(Mode::Aby, ReadSource::Memory, WriteSink::Null, Op::Lax, 0)),
        0xC0 => Option::Some(Decoded::ReadWrite(Mode::Imm, ReadSource::Memory, WriteSink::Null, Op::Cpy, 0)),
        0xC1 => Option::Some(Decoded::ReadWrite(Mode::Izx, ReadSource::Memory, WriteSink::Null, Op::Cmp, 0)),
        0xC3 => Option::Some(Decoded::ReadWrite(Mode::Izx, ReadSource::Memory, WriteSink::Memory, Op::Dcp, 0)),
        0xC4 => Option::Some(Decoded::ReadWrite(Mode::Zp, ReadSource::Memory, WriteSink::Null, Op::Cpy, 0)),
        0xC5 => Option::Some(Decoded::ReadWrite(Mode::Zp, ReadSource::Memory, WriteSink::Null, Op::Cmp, 0)),
        0xC6 => Option::Some(Decoded::ReadWrite(Mode::Zp, ReadSource::Memory, WriteSink::Memory, Op::Dec, 0)),
        0xC7 => Option::Some(Decoded::ReadWrite(Mode::Zp, ReadSource::Memory, WriteSink::Memory, Op::Dcp, 0)),
        0xC8 => Option::Some(Decoded::Single(Register::Y, Register::Y, Op::Inc)),
        0xC9 => Option::Some(Decoded::ReadWrite(Mode::Imm, ReadSource::Memory, WriteSink::Null, Op::Cmp, 0)),
        0xCA => Option::Some(Decoded::Single(Register::X, Register::X, Op::Dec)),
        0xCC => Option::Some(Decoded::ReadWrite(Mode::Abs, ReadSource::Memory, WriteSink::Null, Op::Cpy, 0)),
        0xCD => Option::Some(Decoded::ReadWrite(Mode::Abs, ReadSource::Memory, WriteSink::Null, Op::Cmp, 0)),
        0xCE => Option::Some(Decoded::ReadWrite(Mode::Abs, ReadSource::Memory, WriteSink::Memory, Op::Dec, 0)),
        0xCF => Option::Some(Decoded::ReadWrite(Mode::Abs, ReadSource::Memory, WriteSink::Memory, Op::Dcp, 0)),
        0xD0 => Option::Some(Decoded::Branch(0x02, 0x00)),
        0xD1 => Option::Some(Decoded::ReadWrite(Mode::Izy, ReadSource::Memory, WriteSink::Null, Op::Cmp, 0)),
        0xD3 => Option::Some(Decoded::ReadWrite(Mode::Izy, ReadSource::Memory, WriteSink::Memory, Op::Dcp, 1)),
        0xD5 => Option::Some(Decoded::ReadWrite(Mode::Zpx, ReadSource::Memory, WriteSink::Null, Op::Cmp, 0)),
        0xD6 => Option::Some(Decoded::ReadWrite(Mode::Zpx, ReadSource::Memory, WriteSink::Memory, Op::Dec, 0)),
        0xD7 => Option::Some(Decoded::ReadWrite(Mode::Zpx, ReadSource::Memory, WriteSink::Memory, Op::Dcp, 0)),
        0xD8 => Option::Some(Decoded::Single(Register::Null, Register::Null, Op::Cld)),
        0xD9 => Option::Some(Decoded::ReadWrite(Mode::Aby, ReadSource::Memory, WriteSink::Null, Op::Cmp, 0)),
        0xDB => Option::Some(Decoded::ReadWrite(Mode::Aby, ReadSource::Memory, WriteSink::Memory, Op::Dcp, 1)),
        0xDD => Option::Some(Decoded::ReadWrite(Mode::Abx, ReadSource::Memory, WriteSink::Null, Op::Cmp, 0)),
        0xDE => Option::Some(Decoded::ReadWrite(Mode::Abx, ReadSource::Memory, WriteSink::Memory, Op::Dec, 1)),
        0xDF => Option::Some(Decoded::ReadWrite(Mode::Abx, ReadSource::Memory, WriteSink::Memory, Op::Dcp, 1)),
        0xE0 => Option::Some(Decoded::ReadWrite(Mode::Imm, ReadSource::Memory, WriteSink::Null, Op::Cpx, 0)),
        0xE1 => Option::Some(Decoded::ReadWrite(Mode::Izx, ReadSource::Memory, WriteSink::Null, Op::Sbc, 0)),
        0xE3 => Option::Some(Decoded::ReadWrite(Mode::Izx, ReadSource::Memory, WriteSink::Memory, Op::Isc, 0)),
        0xE4 => Option::Some(Decoded::ReadWrite(Mode::Zp, ReadSource::Memory, WriteSink::Null, Op::Cpx, 0)),
        0xE5 => Option::Some(Decoded::ReadWrite(Mode::Zp, ReadSource::Memory, WriteSink::Null, Op::Sbc, 0)),
        0xE6 => Option::Some(Decoded::ReadWrite(Mode::Zp, ReadSource::Memory, WriteSink::Memory, Op::Inc, 0)),
        0xE7 => Option::Some(Decoded::ReadWrite(Mode::Zp, ReadSource::Memory, WriteSink::Memory, Op::Isc, 0)),
        0xE8 => Option::Some(Decoded::Single(Register::X, Register::X, Op::Inc)),
        0xE9 => Option::Some(Decoded::ReadWrite(Mode::Imm, ReadSource::Memory, WriteSink::Null, Op::Sbc, 0)),
        0xEA => Option::Some(Decoded::Single(Register::Null, Register::Null, Op::Nop)),
        0xEC => Option::Some(Decoded::ReadWrite(Mode::Abs, ReadSource::Memory, WriteSink::Null, Op::Cpx, 0)),
        0xED => Option::Some(Decoded::ReadWrite(Mode::Abs, ReadSource::Memory, WriteSink::Null, Op::Sbc, 0)),
        0xEE => Option::Some(Decoded::ReadWrite(Mode::Abs, ReadSource::Memory, WriteSink::Memory, Op::Inc, 0)),
        0xEF => Option::Some(Decoded::ReadWrite(Mode::Abs, ReadSource::Memory, WriteSink::Memory, Op::Isc, 0)),
        0xF0 => Option::Some(Decoded::Branch(0x02, 0x02)),
        0xF1 => Option::Some(Decoded::ReadWrite(Mode::Izy, ReadSource::Memory, WriteSink::Null, Op::Sbc, 0)),
        0xF3 => Option::Some(Decoded::ReadWrite(Mode::Izy, ReadSource::Memory, WriteSink::Memory, Op::Isc, 1)),
        0xF5 => Option::Some(Decoded::ReadWrite(Mode::Zpx, ReadSource::Memory, WriteSink::Null, Op::Sbc, 0)),
        0xF6 => Option::Some(Decoded::ReadWrite(Mode::Zpx, ReadSource::Memory, WriteSink::Memory, Op::Inc, 0)),
        0xF7 => Option::Some(Decoded::ReadWrite(Mode::Zpx, ReadSource::Memory, WriteSink::Memory, Op::Isc, 0)),
        0xF8 => Option::Some(Decoded::Single(Register::Null, Register::Null, Op::Sed)),
        0xF9 => Option::Some(Decoded::ReadWrite(Mode::Aby, ReadSource::Memory, WriteSink::Null, Op::Sbc, 0)),
        0xFB => Option::Some(Decoded::ReadWrite(Mode::Aby, ReadSource::Memory, WriteSink::Memory, Op::Isc, 1)),
        0xFD => Option::Some(Decoded::ReadWrite(Mode::Abx, ReadSource::Memory, WriteSink::Null, Op::Sbc, 0)),
        0xFE => Option::Some(Decoded::ReadWrite(Mode::Abx, ReadSource::Memory, WriteSink::Memory, Op::Inc, 1)),
        0xFF => Option::Some(Decoded::ReadWrite(Mode::Abx, ReadSource::Memory, WriteSink::Memory, Op::Isc, 1)),
        _ => Option::None,
    }
}

/// Extra cycles of a table entry stay small.
pub open spec fn decoded_ok(d: Decoded) -> bool {
    match d {
        Decoded::ReadWrite(_, read, write, _, delay) => delay <= 1 && (read == ReadSource::Memory || write
            == WriteSink::Memory),
        Decoded::Jump(mode) => crate::addressing::mode_cycles(mode) >= 1,
        _ => true,
    }
}

/// Looks an opcode up in the table.
pub fn decode(op_code: u8) -> (r: Option<Decoded>)
    ensures
        r == decode_spec(op_code),
        r.is_some() ==> decoded_ok(r.unwrap()),
{
    proof {
        reveal(decode_spec);
    }
    match op_code {
        0x00 => Option::Some(Decoded::Break),
        0x01 => Option::Some(Decoded::ReadWrite(Mode::Izx, ReadSource::Memory, WriteSink::Null, Op::Or, 0)),
        0x03 => Option::Some(Decoded::ReadWrite(Mode::Izx, ReadSource::Memory, WriteSink::Memory, Op::Slo, 0)),
        0x05 => Option::Some(Decoded::ReadWrite(Mode::Zp, ReadSource::Memory, WriteSink::Null, Op::Or, 0)),
        0x06 => Option::Some(Decoded::ReadWrite(Mode::Zp, ReadSource::Memory, WriteSink::Memory, Op::Asl, 0)),
        0x07 => Option::Some(Decoded::ReadWrite(Mode::Zp, ReadSource::Memory, WriteSink::Memory, Op::Slo, 0)),
        0x08 => Option::Some(Decoded::Php),
        0x09 => Option::Some(Decoded::ReadWrite(Mode::Imm, ReadSource::Memory, WriteSink::Null, Op::Or, 0)),
        0x0A => Option::Some(Decoded::Single(Register::A, Register::A, Op::Asl)),
        0x0D => Option::Some(Decoded::ReadWrite(Mode::Abs, ReadSource::Memory, WriteSink::Null, Op::Or, 0)),
        0x0E => Option::Some(Decoded::ReadWrite(Mode::Abs, ReadSource::Memory, WriteSink::Memory, Op::Asl, 0)),
        0x0F => Option::Some(Decoded::ReadWrite(Mode::Abs, ReadSource::Memory, WriteSink::Memory, Op::Slo, 0)),
        0x10 => Option::Some(Decoded::Branch(0x80, 0x00)),
        0x11 => Option::Some(Decoded::ReadWrite(Mode::Izy, ReadSource::Memory, WriteSink::Null, Op::Or, 0)),
        0x13 => Option::Some(Decoded::ReadWrite(Mode::Izy, ReadSource::Memory, WriteSink::Memory, Op::Slo, 1)),
        0x15 => Option::Some(Decoded::ReadWrite(Mode::Zpx, ReadSource::Memory, WriteSink::Null, Op::Or, 0)),
        0x16 => Option::Some(Decoded::ReadWrite(Mode::Zpx, ReadSource::Memory, WriteSink::Memory, Op::Asl, 0)),
        0x17 => Option::Some(Decoded::ReadWrite(Mode::Zpx, ReadSource::Memory, WriteSink::Memory, Op::Slo, 0)),
        0x18 => Option::Some(Decoded::Single(Register::Null, Register::Null, Op::Clc)),
        0x19 => Option::Some(Decoded::ReadWrite(Mode::Aby, ReadSource::Memory, WriteSink::Null, Op::Or, 0)),
        0x1B => Option::Some(Decoded::ReadWrite(Mode::Aby, ReadSource::Memory, WriteSink::Memory, Op::Slo, 1)),
        0x1D => Option::Some(Decoded::ReadWrite(Mode::Abx, ReadSource::Memory, WriteSink::Null, Op::Or, 0)),
        0x1E => Option::Some(Decoded::ReadWrite(Mode::Abx, ReadSource::Memory, WriteSink::Memory, Op::Asl, 1)),
        0x1F => Option::Some(Decoded::ReadWrite(Mode::Abx, ReadSource::Memory, WriteSink::Memory, Op::Slo, 1)),
        0x20 => Option::Some(Decoded::JumpSub),
        0x21 => Option::Some(Decoded::ReadWrite(Mode::Izx, ReadSource::Memory, WriteSink::Null, Op::And, 0)),
        0x24 => Option::Some(Decoded::ReadWrite(Mode::Zp, ReadSource::Memory, WriteSink::Null, Op::Bit, 0)),
        0x25 => Option::Some(Decoded::ReadWrite(Mode::Zp, ReadSource::Memory, WriteSink::Null, Op::And, 0)),
        0x26 => Option::Some(Decoded::ReadWrite(Mode::Zp, ReadSource::Memory, WriteSink::Memory, Op::Rol, 0)),
        0x28 => Option::Some(Decoded::Plp),
        0x29 => Option::Some(Decoded::ReadWrite(Mode::Imm, ReadSource::Memory, WriteSink::Null, Op::And, 0)),
        0x2A => Option::Some(Decoded::Single(Register::A, Register::A, Op::Rol)),
        0x2C => Option::Some(Decoded::ReadWrite(Mode::Abs, ReadSource::Memory, WriteSink::Null, Op::Bit, 0)),
        0x2D => Option::Some(Decoded::ReadWrite(Mode::Abs, ReadSource::Memory, WriteSink::Null, Op::And, 0)),
        0x2E => Option::Some(Decoded::ReadWrite(Mode::Abs, ReadSource::Memory, WriteSink::Memory, Op::Rol, 0)),
        0x30 => Option::Some(Decoded::Branch(0x80, 0x80)),
        0x31 => Option::Some(Decoded::ReadWrite(Mode::Izy, ReadSource::Memory, WriteSink::Null, Op::And, 0)),
        0x35 => Option::Some(Decoded::ReadWrite(Mode::Zpx, ReadSource::Memory, WriteSink::Null, Op::And, 0)),
        0x36 => Option::Some(Decoded::ReadWrite(Mode::Zpx, ReadSource::Memory, WriteSink::Memory, Op::Rol, 0)),
        0x38 => Option::Some(Decoded::Single(Register::Null, Register::Null, Op::Sec)),
        0x39 => Option::Some(Decoded::ReadWrite(Mode::Aby, ReadSource::Memory, WriteSink::Null, Op::And, 0)),
        0x3D => Option::Some(Decoded::ReadWrite(Mode::Abx, ReadSource::Memory, WriteSink::Null, Op::And, 0)),
        0x3E => Option::Some(Decoded::ReadWrite(Mode::Abx, ReadSource::Memory, WriteSink::Memory, Op::Rol, 1)),
        0x40 => Option::Some(Decoded::ReturnInterrupt),
        0x41 => Option::Some(Decoded::ReadWrite(Mode::Izx, ReadSource::Memory, WriteSink::Null, Op::Eor, 0)),
        0x45 => Option::Some(Decoded::ReadWrite(Mode::Zp, ReadSource::Memory, WriteSink::Null, Op::Eor, 0)),
        0x46 => Option::Some(Decoded::ReadWrite(Mode::Zp, ReadSource::Memory, WriteSink::Memory, Op::Lsr, 0)),
        0x48 => Option::Some(Decoded::Pha),
        0x49 => Option::Some(Decoded::ReadWrite(Mode::Imm, ReadSource::Memory, WriteSink::Null, Op::Eor, 0)),
        0x4A => Option::Some(Decoded::Single(Register::A, Register::A, Op::Lsr)),
        0x4C => Option::Some(Decoded::Jump(Mode::Abs)),
        0x4D => Option::Some(Decoded::ReadWrite(Mode::Abs, ReadSource::Memory, WriteSink::Null, Op::Eor, 0)),
        0x4E => Option::Some(Decoded::ReadWrite(Mode::Abs, ReadSource::Memory, WriteSink::Memory, Op::Lsr, 0)),
        0x50 => Option::Some(Decoded::Branch(0x40, 0x00)),
        0x51 => Option::Some(Decoded::ReadWrite(Mode::Izy, ReadSource::Memory, WriteSink::Null, Op::Eor, 0)),
        0x55 => Option::Some(Decoded::ReadWrite(Mode::Zpx, ReadSource::Memory, WriteSink::Null, Op::Eor, 0)),
        0x56 => Option::Some(Decoded::ReadWrite(Mode::Zpx, ReadSource::Memory, WriteSink::Memory, Op::Lsr, 0)),
        0x58 => Option::Some(Decoded::Single(Register::Null, Register::Null, Op::Cli)),
        0x59 => Option::Some(Decoded::ReadWrite(Mode::Aby, ReadSource::Memory, WriteSink::Null, Op::Eor, 0)),
        0x5D => Option::Some(Decoded::ReadWrite(Mode::Abx, ReadSource::Memory, WriteSink::Null, Op::Eor, 0)),
        0x5E => Option::Some(Decoded::ReadWrite(Mode::Abx, ReadSource::Memory, WriteSink::Memory, Op::Lsr, 1)),
        0x60 => Option::Some(Decoded::ReturnSub),
        0x61 => Option::Some(Decoded::ReadWrite(Mode::Izx, ReadSource::Memory, WriteSink::Null, Op::Adc, 0)),
        0x65 => Option::Some(Decoded::ReadWrite(Mode::Zp, ReadSource::Memory, WriteSink::Null, Op::Adc, 0)),
        0x66 => Option::Some(Decoded::ReadWrite(Mode::Zp, ReadSource::Memory, WriteSink::Memory, Op::Ror, 0)),
        0x68 => Option::Some(Decoded::Pla),
        0x69 => Option::Some(Decoded::ReadWrite(Mode::Imm, ReadSource::Memory, WriteSink::Null, Op::Adc, 0)),
        0x6A => Option::Some(Decoded::Single(Register::A, Register::A, Op::Ror)),
        0x6C => Option::Some(Decoded::Jump(Mode::Indirect)),
        0x6D => Option::Some(Decoded::ReadWrite(Mode::Abs, ReadSource::Memory, WriteSink::Null, Op::Adc, 0)),
        0x6E => Option::Some(Decoded::ReadWrite(Mode::Abs, ReadSource::Memory, WriteSink::Memory, Op::Ror, 0)),
        0x70 => Option::Some(Decoded::Branch(0x40, 0x40)),
        0x71 => Option::Some(Decoded::ReadWrite(Mode::Izy, ReadSource::Memory, WriteSink::Null, Op::Adc, 0)),
        0x75 => Option::Some(Decoded::ReadWrite(Mode::Zpx, ReadSource::Memory, WriteSink::Null, Op::Adc, 0)),
        0x76 => Option::Some(Decoded::ReadWrite(Mode::Zpx, ReadSource::Memory, WriteSink::Memory, Op::Ror, 0)),
        0x78 => Option::Some(Decoded::Single(Register::Null, Register::Null, Op::Sei)),
        0x79 => Option::Some(Decoded::ReadWrite(Mode::Aby, ReadSource::Memory, WriteSink::Null, Op::Adc, 0)),
        0x7D => Option::Some(Decoded::ReadWrite(Mode::Abx, ReadSource::Memory, WriteSink::Null, Op::Adc, 0)),
        0x7E => Option::Some(Decoded::ReadWrite(Mode::Abx, ReadSource::Memory, WriteSink::Memory, Op::Ror, 1)),
        0x81 => Option::Some(Decoded::ReadWrite(Mode::Izx, ReadSource::Null, WriteSink::Memory, Op::Sta, 0)),
        0x83 => Option::Some(Decoded::ReadWrite(Mode::Izx, ReadSource::Null, WriteSink::Memory, Op::Sax, 0)),
        0x84 => Option::Some(Decoded::ReadWrite(Mode::Zp, ReadSource::Null, WriteSink::Memory, Op::Sty, 0)),
        0x85 => Option::Some(Decoded::ReadWrite(Mode::Zp, ReadSource::Null, WriteSink::Memory, Op::Sta, 0)),
        0x86 => Option::Some(Decoded::ReadWrite(Mode::Zp, ReadSource::Null, WriteSink::Memory, Op::Stx, 0)),
        0x87 => Option::Some(Decoded::ReadWrite(Mode::Zp, ReadSource::Null, WriteSink::Memory, Op::Sax, 0)),
        0x88 => Option::Some(Decoded::Single(Register::Y, Register::Y, Op::Dec)),
        0x8A => Option::Some(Decoded::Single(Register::X, Register::A, Op::TStatus)),
        0x8C => Option::Some(Decoded::ReadWrite(Mode::Abs, ReadSource::Null, WriteSink::Memory, Op::Sty, 0)),
        0x8D => Option::Some(Decoded::ReadWrite(Mode::Abs, ReadSource::Null, WriteSink::Memory, Op::Sta, 0)),
        0x8E => Option::Some(Decoded::ReadWrite(Mode::Abs, ReadSource::Null, WriteSink::Memory, Op::Stx, 0)),
        0x8F => Option::Some(Decoded::ReadWrite(Mode::Abs, ReadSource::Null, WriteSink::Memory, Op::Sax, 0)),
        0x90 => Option::Some(Decoded::Branch(0x01, 0x00)),
        0x91 => Option::Some(Decoded::ReadWrite(Mode::Izy, ReadSource::Null, WriteSink::Memory, Op::Sta, 1)),
        0x94 => Option::Some(Decoded::ReadWrite(Mode::Zpx, ReadSource::Null, WriteSink::Memory, Op::Sty, 0)),
        0x95 => Option::Some(Decoded::ReadWrite(Mode::Zpx, ReadSource::Null, WriteSink::Memory, Op::Sta, 0)),
        0x96 => Option::Some(Decoded::ReadWrite(Mode::Zpy, ReadSource::Null, WriteSink::Memory, Op::Stx, 0)),
        0x97 => Option::Some(Decoded::ReadWrite(Mode::Zpy, ReadSource::Null, WriteSink::Memory, Op::Sax, 0)),
        0x98 => Option::Some(Decoded::Single(Register::Y, Register::A, Op::TStatus)),
        0x99 => Option::Some(Decoded::ReadWrite(Mode::Aby, ReadSource::Null, WriteSink::Memory, Op::Sta, 1)),
        0x9A => Option::Some(Decoded::Single(Register::X, Register::S, Op::TNoStatus)),
        0x9D => Option::Some(Decoded::ReadWrite(Mode::Abx, ReadSource::Null, WriteSink::Memory, Op::Sta, 1)),
        0xA0 => Option::Some(Decoded::ReadWrite(Mode::Imm, ReadSource::Memory, WriteSink::Null, Op::Ldy, 0)),
        0xA1 => Option::Some(Decoded::ReadWrite(Mode::Izx, ReadSource::Memory, WriteSink::Null, Op::Lda, 0)),
        0xA2 => Option::Some(Decoded::ReadWrite(Mode::Imm, ReadSource::Memory, WriteSink::Null, Op::Ldx, 0)),
        0xA3 => Option::Some(Decoded::ReadWrite(Mode::Izx, ReadSource::Memory, WriteSink::Null, Op::Lax, 0)),
        0xA4 => Option::Some(Decoded::ReadWrite(Mode::Zp, ReadSource::Memory, WriteSink::Null, Op::Ldy, 0)),
        0xA5 => Option::Some(Decoded::ReadWrite(Mode::Zp, ReadSource::Memory, WriteSink::Null, Op::Lda, 0)),
        0xA6 => Option::Some(Decoded::ReadWrite(Mode::Zp, ReadSource::Memory, WriteSink::Null, Op::Ldx, 0)),
        0xA7 => Option::Some(Decoded::ReadWrite(Mode::Zp, ReadSource::Memory, WriteSink::Null, Op::Lax, 0)),
        0xA8 => Option::Some(Decoded::Single(Register::A, Register::Y, Op::TStatus)),
        0xA9 => Option::Some(Decoded::ReadWrite(Mode::Imm, ReadSource::Memory, WriteSink::Null, Op::Lda, 0)),
        0xAA => Option::Some(Decoded::Single(Register::A, Register::X, Op::TStatus)),
        0xAC => Option::Some(Decoded::ReadWrite(Mode::Abs, ReadSource::Memory, WriteSink::Null, Op::Ldy, 0)),
        0xAD => Option::Some(Decoded::ReadWrite(Mode::Abs, ReadSource::Memory, WriteSink::Null, Op::Lda, 0)),
        0xAE => Option::Some(Decoded::ReadWrite(Mode::Abs, ReadSource::Memory, WriteSink::Null, Op::Ldx, 0)),
        0xAF => Option::Some(Decoded::ReadWrite(Mode::Abs, ReadSource::Memory, WriteSink::Null, Op::Lax, 0)),
        0xB0 => Option::Some(Decoded::Branch(0x01, 0x01)),
        0xB1 => Option::Some(Decoded::ReadWrite(Mode::Izy, ReadSource::Memory, WriteSink::Null, Op::Lda, 0)),
        0xB3 => Option::Some(Decoded::ReadWrite(Mode::Izy, ReadSource::Memory, WriteSink::Null, Op::Lax, 0)),
        0xB4 => Option::Some(Decoded::ReadWrite(Mode::Zpx, ReadSource::Memory, WriteSink::Null, Op::Ldy, 0)),
        0xB5 => Option::Some(Decoded::ReadWrite(Mode::Zpx, ReadSource::Memory, WriteSink::Null, Op::Lda, 0)),
        0xB6 => Option::Some(Decoded::ReadWrite(Mode::Zpy, ReadSource::Memory, WriteSink::Null, Op::Ldx, 0)),
        0xB7 => Option::Some(Decoded::ReadWrite(Mode::Zpy, ReadSource::Memory, WriteSink::Null, Op::Lax, 0)),
        0xB8 => Option::Some(Decoded::Single(Register::Null, Register::Null, Op::Clv)),
        0xB9 => Option::Some(Decoded::ReadWrite(Mode::Aby, ReadSource::Memory, WriteSink::Null, Op::Lda, 0)),
        0xBA => Option::Some(Decoded::Single(Register::S, Register::X, Op::TStatus)),
        0xBC => Option::Some(Decoded::ReadWrite(Mode::Abx, ReadSource::Memory, WriteSink::Null, Op::Ldy, 0)),
        0xBD => Option::Some(Decoded::ReadWrite(Mode::Abx, ReadSource::Memory, WriteSink::Null, Op::Lda, 0)),
        0xBE => Option::Some(Decoded::ReadWrite(Mode::Aby, ReadSource::Memory, WriteSink::Null, Op::Ldx, 0)),
        0xBF => Option::Some(Decoded::ReadWrite(Mode::Aby, ReadSource::Memory, WriteSink::Null, Op::Lax, 0)),
        0xC0 => Option::Some(Decoded::ReadWrite(Mode::Imm, ReadSource::Memory, WriteSink::Null, Op::Cpy, 0)),
        0xC1 => Option::Some(Decoded::ReadWrite(Mode::Izx, ReadSource::Memory, WriteSink::Null, Op::Cmp, 0)),
        0xC3 => Option::Some(Decoded::ReadWrite(Mode::Izx, ReadSource::Memory, WriteSink::Memory, Op::Dcp, 0)),
        0xC4 => Option::Some(Decoded::ReadWrite(Mode::Zp, ReadSource::Memory, WriteSink::Null, Op::Cpy, 0)),
        0xC5 => Option::Some(Decoded::ReadWrite(Mode::Zp, ReadSource::Memory, WriteSink::Null, Op::Cmp, 0)),
        0xC6 => Option::Some(Decoded::ReadWrite(Mode::Zp, ReadSource::Memory, WriteSink::Memory, Op::Dec, 0)),
        0xC7 => Option::Some(Decoded::ReadWrite(Mode::Zp, ReadSource::Memory, WriteSink::Memory, Op::Dcp, 0)),
        0xC8 => Option::Some(Decoded::Single(Register::Y, Register::Y, Op::Inc)),
        0xC9 => Option::Some(Decoded::ReadWrite(Mode::Imm, ReadSource::Memory, WriteSink::Null, Op::Cmp, 0)),
        0xCA => Option::Some(Decoded::Single(Register::X, Register::X, Op::Dec)),
        0xCC => Option::Some(Decoded::ReadWrite(Mode::Abs, ReadSource::Memory, WriteSink::Null, Op::Cpy, 0)),
        0xCD => Option::Some(Decoded::ReadWrite(Mode::Abs, ReadSource::Memory, WriteSink::Null, Op::Cmp, 0)),
        0xCE => Option::Some(Decoded::ReadWrite(Mode::Abs, ReadSource::Memory, WriteSink::Memory, Op::Dec, 0)),
        0xCF => Option::Some(Decoded::ReadWrite(Mode::Abs, ReadSource::Memory, WriteSink::Memory, Op::Dcp, 0)),
        0xD0 => Option::Some(Decoded::Branch(0x02, 0x00)),
        0xD1 => Option::Some(Decoded::ReadWrite(Mode::Izy, ReadSource::Memory, WriteSink::Null, Op::Cmp, 0)),
        0xD3 => Option::Some(Decoded::ReadWrite(Mode::Izy, ReadSource::Memory, WriteSink::Memory, Op::Dcp, 1)),
        0xD5 => Option::Some(Decoded::ReadWrite(Mode::Zpx, ReadSource::Memory, WriteSink::Null, Op::Cmp, 0)),
        0xD6 => Option::Some(Decoded::ReadWrite(Mode::Zpx, ReadSource::Memory, WriteSink::Memory, Op::Dec, 0)),
        0xD7 => Option::Some(Decoded::ReadWrite(Mode::Zpx, ReadSource::Memory, WriteSink::Memory, Op::Dcp, 0)),
        0xD8 => Option::Some(Decoded::Single(Register::Null, Register::Null, Op::Cld)),
        0xD9 => Option::Some(Decoded::ReadWrite(Mode::Aby, ReadSource::Memory, WriteSink::Null, Op::Cmp, 0)),
        0xDB => Option::Some(Decoded::ReadWrite(Mode::Aby, ReadSource::Memory, WriteSink::Memory, Op::Dcp, 1)),
        0xDD => Option::Some(Decoded::ReadWrite(Mode::Abx, ReadSource::Memory, WriteSink::Null, Op::Cmp, 0)),
        0xDE => Option::Some(Decoded::ReadWrite(Mode::Abx, ReadSource::Memory, WriteSink::Memory, Op::Dec, 1)),
        0xDF => Option::Some(Decoded::ReadWrite(Mode::Abx, ReadSource::Memory, WriteSink::Memory, Op::Dcp, 1)),
        0xE0 => Option::Some(Decoded::ReadWrite(Mode::Imm, ReadSource::Memory, WriteSink::Null, Op::Cpx, 0)),
        0xE1 => Option::Some(Decoded::ReadWrite(Mode::Izx, ReadSource::Memory, WriteSink::Null, Op::Sbc, 0)),
        0xE3 => Option::Some(Decoded::ReadWrite(Mode::Izx, ReadSource::Memory, WriteSink::Memory, Op::Isc, 0)),
        0xE4 => Option::Some(Decoded::ReadWrite(Mode::Zp, ReadSource::Memory, WriteSink::Null, Op::Cpx, 0)),
        0xE5 => Option::Some(Decoded::ReadWrite(Mode::Zp, ReadSource::Memory, WriteSink::Null, Op::Sbc, 0)),
        0xE6 => Option::Some(Decoded::ReadWrite(Mode::Zp, ReadSource::Memory, WriteSink::Memory, Op::Inc, 0)),
        0xE7 => Option::Some(Decoded::ReadWrite(Mode::Zp, ReadSource::Memory, WriteSink::Memory, Op::Isc, 0)),
        0xE8 => Option::Some(Decoded::Single(Register::X, Register::X, Op::Inc)),
        0xE9 => Option::Some(Decoded::ReadWrite(Mode::Imm, ReadSource::Memory, WriteSink::Null, Op::Sbc, 0)),
        0xEA => Option::Some(Decoded::Single(Register::Null, Register::Null, Op::Nop)),
        0xEC => Option::Some(Decoded::ReadWrite(Mode::Abs, ReadSource::Memory, WriteSink::Null, Op::Cpx, 0)),
        0xED => Option::Some(Decoded::ReadWrite(Mode::Abs, ReadSource::Memory, WriteSink::Null, Op::Sbc, 0)),
        0xEE => Option::Some(Decoded::ReadWrite(Mode::Abs, ReadSource::Memory, WriteSink::Memory, Op::Inc, 0)),
        0xEF => Option::Some(Decoded::ReadWrite(Mode::Abs, ReadSource::Memory, WriteSink::Memory, Op::Isc, 0)),
        0xF0 => Option::Some(Decoded::Branch(0x02, 0x02)),
        0xF1 => Option::Some(Decoded::ReadWrite(Mode::Izy, ReadSource::Memory, WriteSink::Null, Op::Sbc, 0)),
        0xF3 => Option::Some(Decoded::ReadWrite(Mode::Izy, ReadSource::Memory, WriteSink::Memory, Op::Isc, 1)),
        0xF5 => Option::Some(Decoded::ReadWrite(Mode::Zpx, ReadSource::Memory, WriteSink::Null, Op::Sbc, 0)),
        0xF6 => Option::Some(Decoded::ReadWrite(Mode::Zpx, ReadSource::Memory, WriteSink::Memory, Op::Inc, 0)),
        0xF7 => Option::Some(Decoded::ReadWrite(Mode::Zpx, ReadSource::Memory, WriteSink::Memory, Op::Isc, 0)),
        0xF8 => Option::Some(Decoded::Single(Register::Null, Register::Null, Op::Sed)),
        0xF9 => Option::Some(Decoded::ReadWrite(Mode::Aby, ReadSource::Memory, WriteSink::Null, Op::Sbc, 0)),
        0xFB => Option::Some(Decoded::ReadWrite(Mode::Aby, ReadSource::Memory, WriteSink::Memory, Op::Isc, 1)),
        0xFD => Option::Some(Decoded::ReadWrite(Mode::Abx, ReadSource::Memory, WriteSink::Null, Op::Sbc, 0)),
        0xFE => Option::Some(Decoded::ReadWrite(Mode::Abx, ReadSource::Memory, WriteSink::Memory, Op::Inc, 1)),
        0xFF => Option::Some(Decoded::ReadWrite(Mode::Abx, ReadSource::Memory, WriteSink::Memory, Op::Isc, 1)),
        _ => Option::None,
    }
}

/// What executing `d` does.
pub open spec fn executed(d: Decoded, p: PcState, m: Memory, t: u64, np: PcState, nm: Memory, nt: u64) -> bool {
    match d {
        Decoded::ReadWrite(mode, read, write, op, delay) => rw_effect(mode, read, write, op, delay, p, m, t, np, nm, nt),
        Decoded::Pha => pha_effect(p, m, t, np, nm, nt),
        Decoded::Pla => pla_effect(p, m, t, np, nm, nt),
        Decoded::Php => php_effect(p, m, t, np, nm, nt),
        Decoded::Plp => plp_effect(p, m, t, np, nm, nt),
        Decoded::Single(read, write, op) => nm == m && single_effect(read, write, op, p, t, np, nt),
        Decoded::ReturnSub => nm == m && rts_effect(p, m, t, np, nt),
        Decoded::ReturnInterrupt => nm == m && rti_effect(p, m, t, np, nt),
        Decoded::Jump(mode) => nm == m && jump_effect(mode, p, m, t, np, nt),
        Decoded::Branch(mask, condition) => nm == m && branch_effect(mask, condition, p, m, t, np, nt),
        Decoded::JumpSub => jsr_effect(p, m, t, np, nm, nt),
        Decoded::Break => brk_effect(p, m, t, np, nm, nt),
    }
}

pub struct Instruction {}

impl Instruction {
    /// Executes one instruction whose opcode has been fetched.
    pub fn execute(op_code: u8, clock: &mut Clock, memory: &mut Memory, pc_state: &mut PcState) -> (r: Result<(), CpuError>)
        requires
            old(clock).ticks < CLOCK_LIMIT,
            old(memory).wf(),
        ensures
            r.is_err() <==> decode_spec(op_code).is_none(),
            r.is_err() ==> r == Err::<(), CpuError>(CpuError::UnimplementedOpcode(op_code)) && *final(clock)
                == *old(clock) && *final(memory) == *old(memory) && *final(pc_state) == *old(pc_state),
            final(memory).wf(),
            old(clock).ticks <= final(clock).ticks <= old(clock).ticks + 1000,
            r.is_ok() ==> final(clock).ticks >= old(clock).ticks + 6,
            r.is_ok() ==> executed(
                decode_spec(op_code).unwrap(),
                *old(pc_state),
                *old(memory),
                old(clock).ticks,
                *final(pc_state),
                *final(memory),
                final(clock).ticks,
            ),
    {
        match decode(op_code) {
            Option::Some(Decoded::Single(read, write, op)) => {
                single_byte_instruction(clock, pc_state, read, write, op);
            },
            Option::Some(Decoded::ReadWrite(mode, read, write, op, delay)) => {
                read_write_instruction_additional_delay(clock, pc_state, memory, mode, read, write, op, delay);
            },
            Option::Some(Decoded::Break) => {
                break_instruction(clock, pc_state, memory);
            },
            Option::Some(Decoded::JumpSub) => {
                jump_sub_routine_instruction(clock, pc_state, memory);
            },
            Option::Some(Decoded::ReturnInterrupt) => {
                return_from_interrupt(clock, pc_state, memory);
            },
            Option::Some(Decoded::ReturnSub) => {
                return_from_sub_routine_instruction(clock, pc_state, memory);
            },
            Option::Some(Decoded::Jump(mode)) => {
                jump_instruction(clock, pc_state, memory, mode);
            },
            Option::Some(Decoded::Php) => {
                php_instruction(clock, pc_state, memory);
            },
            Option::Some(Decoded::Plp) => {
                plp_instruction(clock, pc_state, memory);
            },
            Option::Some(Decoded::Pha) => {
                pha_instruction(clock, pc_state, memory);
            },
            Option::Some(Decoded::Pla) => {
                pla_instruction(clock, pc_state, memory);
            },
            Option::Some(Decoded::Branch(mask, condition)) => {
                branch_instruction(clock, pc_state, memory, mask, condition);
            },
            Option::None => {
                return Err(CpuError::UnimplementedOpcode(op_code));
            },
        }
        Ok(())
    }
}

} // verus!
