use vstd::prelude::*;
use crate::addressing::{address16, addressing_of, ea_spec, mode_cycles, mode_size, Mode};
use crate::clocks::{Clock, CLOCK_LIMIT};
use crate::memory::{mem_read, mem_written, Memory};
use crate::pc_state::{
    pc_offset, s_offset, set_status_nz, PcState, FLAG_B, FLAG_C, FLAG_D, FLAG_I, FLAG_N, FLAG_V, FLAG_Z,
};
use crate::riot::Riot;

verus! {

// ---------------------------------------------------------------------------
// Meaning of the ALU primitives. Each takes the register file and the operand
// and gives the new register file and the value that is handed to the
// instruction's write sink.
// ---------------------------------------------------------------------------

/// Two's-complement value of a byte.
pub open spec fn signed(v: u8) -> int {
    if v < 128 {
        v as int
    } else {
        v as int - 256
    }
}

/// Value of a packed BCD byte (a digit nibble above 9 counts modulo 10).
pub open spec fn bcd_value(v: u8) -> int {
    (v / 16) as int * 10 + (v % 16) as int % 10
}

/// Packed BCD byte of a value below 100.
pub open spec fn bcd_byte(r: int) -> u8 {
    ((r / 10) * 16 + r % 10) as u8
}

pub open spec fn add_carry_spec(p: PcState, a: u8, b: u8, c: u8) -> (PcState, u8) {
    let bin = ((a + b + c) % 256) as u8;
    if !p.flag(FLAG_D) {
        let sr = signed(a) + signed(b) + c;
        (
            p.with_flag(FLAG_N, bin & 0x80 != 0).with_flag(FLAG_Z, bin == 0).with_flag(
                FLAG_V,
                sr < -128 || sr > 127,
            ).with_flag(FLAG_C, a + b + c >= 256),
            bin,
        )
    } else {
        let r = bcd_value(a) + bcd_value(b) + c;
        (
            p.with_flag(FLAG_N, false).with_flag(FLAG_Z, bin == 0).with_flag(FLAG_C, r > 99),
            bcd_byte(r % 100),
        )
    }
}

pub open spec fn sub_carry_spec(p: PcState, a: u8, b: u8, c: u8) -> (PcState, u8) {
    let bin = ((a - b - c + 512) % 256) as u8;
    let sr = signed(a) - signed(b) - c;
    if !p.flag(FLAG_D) {
        (
            p.with_flag(FLAG_N, bin & 0x80 != 0).with_flag(FLAG_Z, bin == 0).with_flag(
                FLAG_V,
                sr < -128 || sr > 127,
            ).with_flag(FLAG_C, a - b - c >= 0),
            bin,
        )
    } else {
        let r = bcd_value(a) - bcd_value(b) - c;
        (
            p.with_flag(FLAG_N, r < 0).with_flag(FLAG_Z, r == 0).with_flag(
                FLAG_V,
                sr < -128 || sr > 127,
            ).with_flag(FLAG_C, 0 <= r <= 99),
            bcd_byte((r + 200) % 100),
        )
    }
}

/// Flags of a comparison: as for `a - b`, with C meaning "no borrow".
pub open spec fn compare_spec(p: PcState, a: u8, b: u8) -> PcState {
    let rs = ((a - b + 256) % 256) as u8;
    p.with_flag(FLAG_N, rs & 0x80 != 0).with_flag(FLAG_Z, a == b).with_flag(FLAG_C, a >= b)
}

pub open spec fn asl_spec(p: PcState, d: u8) -> (PcState, u8) {
    let r = ((d * 2) % 256) as u8;
    (p.with_flag(FLAG_C, d >= 128).with_nz(r), r)
}

pub open spec fn lsr_spec(p: PcState, d: u8) -> (PcState, u8) {
    let r = d / 2;
    (p.with_flag(FLAG_C, d % 2 == 1).with_nz(r), r)
}

pub open spec fn rol_spec(p: PcState, d: u8) -> (PcState, u8) {
    let r = ((d * 2) % 256 + (if p.flag(FLAG_C) { 1int } else { 0 })) as u8;
    (p.with_flag(FLAG_C, d >= 128).with_nz(r), r)
}

pub open spec fn ror_spec(p: PcState, d: u8) -> (PcState, u8) {
    let r = (d / 2 + (if p.flag(FLAG_C) { 128int } else { 0 })) as u8;
    (p.with_flag(FLAG_C, d % 2 == 1).with_nz(r), r)
}

pub open spec fn inc_spec(p: PcState, d: u8) -> (PcState, u8) {
    let r = ((d + 1) % 256) as u8;
    (p.with_nz(r), r)
}

pub open spec fn dec_spec(p: PcState, d: u8) -> (PcState, u8) {
    let r = ((d + 255) % 256) as u8;
    (p.with_nz(r), r)
}

pub open spec fn carry_in(p: PcState) -> u8 {
    if p.flag(FLAG_C) {
        1
    } else {
        0
    }
}

pub open spec fn adc_spec(p: PcState, d: u8) -> (PcState, u8) {
    let (q, r) = add_carry_spec(p, p.a, d, carry_in(p));
    (PcState { a: r, ..q }, 0)
}

pub open spec fn sbc_spec(p: PcState, d: u8) -> (PcState, u8) {
    let (q, r) = sub_carry_spec(p, p.a, d, (1 - carry_in(p)) as u8);
    (PcState { a: r, ..q }, 0)
}

pub open spec fn lda_spec(p: PcState, d: u8) -> (PcState, u8) {
    (PcState { a: d, ..p }.with_nz(d), 0)
}

pub open spec fn ldx_spec(p: PcState, d: u8) -> (PcState, u8) {
    (PcState { x: d, ..p }.with_nz(d), 0)
}

pub open spec fn ldy_spec(p: PcState, d: u8) -> (PcState, u8) {
    (PcState { y: d, ..p }.with_nz(d), 0)
}

pub open spec fn or_spec(p: PcState, d: u8) -> (PcState, u8) {
    (PcState { a: p.a | d, ..p }.with_nz(p.a | d), 0)
}

// ---------------------------------------------------------------------------
// The primitives.
// ---------------------------------------------------------------------------

/// No operation: the operand passes through.
pub fn nop(pc_state: &mut PcState, data: u8) -> (r: u8)
    ensures
        *final(pc_state) == *old(pc_state),
        r == data,
{
    data
}

pub fn asl(pc_state: &mut PcState, data: u8) -> (r: u8)
    ensures
        (*final(pc_state), r) == asl_spec(*old(pc_state), data),
{
    pc_state.set_flag_c(data >= 128);
    let left_shift = ((data as u16 * 2) % 256) as u8;
    set_status_nz(pc_state, left_shift);
    left_shift
}

pub fn lsr(pc_state: &mut PcState, data: u8) -> (r: u8)
    ensures
        (*final(pc_state), r) == lsr_spec(*old(pc_state), data),
{
    pc_state.set_flag_c(data % 2 == 1);
    let right_shift = data / 2;
    set_status_nz(pc_state, right_shift);
    right_shift
}

pub fn rol(pc_state: &mut PcState, data: u8) -> (r: u8)
    ensures
        (*final(pc_state), r) == rol_spec(*old(pc_state), data),
{
    let c: u16 = if pc_state.get_flag_c() { 1 } else { 0 };
    let t8 = ((data as u16 * 2) % 256 + c) as u8;
    pc_state.set_flag_c(data >= 128);
    set_status_nz(pc_state, t8);
    t8
}

pub fn ror(pc_state: &mut PcState, data: u8) -> (r: u8)
    ensures
        (*final(pc_state), r) == ror_spec(*old(pc_state), data),
{
    let c: u8 = if pc_state.get_flag_c() { 128 } else { 0 };
    let t8 = data / 2 + c;
    pc_state.set_flag_c(data % 2 == 1);
    set_status_nz(pc_state, t8);
    t8
}

pub fn ldx(pc_state: &mut PcState, data: u8) -> (r: u8)
    ensures
        (*final(pc_state), r) == ldx_spec(*old(pc_state), data),
{
    pc_state.set_x(data);
    set_status_nz(pc_state, data);
    0
}

pub fn ldy(pc_state: &mut PcState, data: u8) -> (r: u8)
    ensures
        (*final(pc_state), r) == ldy_spec(*old(pc_state), data),
{
    pc_state.set_y(data);
    set_status_nz(pc_state, data);
    0
}

pub fn lda(pc_state: &mut PcState, data: u8) -> (r: u8)
    ensures
        (*final(pc_state), r) == lda_spec(*old(pc_state), data),
{
    pc_state.set_a(data);
    set_status_nz(pc_state, data);
    0
}

pub fn and(pc_state: &mut PcState, data: u8) -> (r: u8)
    ensures
        *final(pc_state) == (PcState { a: old(pc_state).a & data, ..*old(pc_state) }).with_nz(
            old(pc_state).a & data,
        ),
        r == 0,
{
    let v = pc_state.get_a() & data;
    pc_state.set_a(v);
    set_status_nz(pc_state, v);
    0
}

pub fn eor(pc_state: &mut PcState, data: u8) -> (r: u8)
    ensures
        *final(pc_state) == (PcState { a: old(pc_state).a ^ data, ..*old(pc_state) }).with_nz(
            old(pc_state).a ^ data,
        ),
        r == 0,
{
    let v = pc_state.get_a() ^ data;
    pc_state.set_a(v);
    set_status_nz(pc_state, v);
    0
}

pub fn or(pc_state: &mut PcState, data: u8) -> (r: u8)
    ensures
        (*final(pc_state), r) == or_spec(*old(pc_state), data),
{
    let v = pc_state.get_a() | data;
    pc_state.set_a(v);
    set_status_nz(pc_state, v);
    0
}

/// Adds `a`, `b` and the carry `c`, in binary or, with D set, in packed BCD.
pub fn add_carry(pc_state: &mut PcState, a: u8, b: u8, c: u8) -> (r: u8)
    requires
        c <= 1,
    ensures
        (*final(pc_state), r) == add_carry_spec(*old(pc_state), a, b, c),
{
    let bin = ((a as u16 + b as u16 + c as u16) % 256) as u8;
    if !pc_state.get_flag_d() {
        let r: u16 = a as u16 + b as u16 + c as u16;
        let sa: i16 = if a < 128 { a as i16 } else { a as i16 - 256 };
        let sb: i16 = if b < 128 { b as i16 } else { b as i16 - 256 };
        let sr: i16 = sa + sb + c as i16;
        pc_state.set_flag_n(bin & 0x80 != 0);
        pc_state.set_flag_z(bin == 0);
        pc_state.set_flag_v(sr < -128 || sr > 127);
        pc_state.set_flag_c(r >= 256);
        bin
    } else {
        let r: u16 = (a / 16) as u16 * 10 + (a % 16) as u16 % 10 + (b / 16) as u16 * 10 + (b % 16) as u16 % 10 + c as u16;
        pc_state.set_flag_n(false);
        pc_state.set_flag_z(bin == 0);
        pc_state.set_flag_c(r > 99);
        let m = r % 100;
        ((m / 10) * 16 + m % 10) as u8
    }
}

/// Subtracts `b` and the borrow `c` from `a`, in binary or, with D set, in
/// packed BCD; C ends up meaning "no borrow".
pub fn sub_carry(pc_state: &mut PcState, a: u8, b: u8, c: u8) -> (r: u8)
    requires
        c <= 1,
    ensures
        (*final(pc_state), r) == sub_carry_spec(*old(pc_state), a, b, c),
{
    let bin = ((a as i16 - b as i16 - c as i16 + 512) % 256) as u8;
    let sa: i16 = if a < 128 { a as i16 } else { a as i16 - 256 };
    let sb: i16 = if b < 128 { b as i16 } else { b as i16 - 256 };
    let sr: i16 = sa - sb - c as i16;
    if !pc_state.get_flag_d() {
        pc_state.set_flag_n(bin & 0x80 != 0);
        pc_state.set_flag_z(bin == 0);
        pc_state.set_flag_v(sr < -128 || sr > 127);
        pc_state.set_flag_c(a as i16 - b as i16 - c as i16 >= 0);
        bin
    } else {
        let r: i16 = ((a / 16) as i16 * 10 + (a % 16) as i16 % 10) - ((b / 16) as i16 * 10 + (b
            % 16) as i16 % 10) - c as i16;
        pc_state.set_flag_n(r < 0);
        pc_state.set_flag_z(r == 0);
        pc_state.set_flag_v(sr < -128 || sr > 127);
        pc_state.set_flag_c(0 <= r && r <= 99);
        let m = (r + 200) % 100;
        ((m / 10) * 16 + m % 10) as u8
    }
}

pub fn adc(pc_state: &mut PcState, data: u8) -> (r: u8)
    ensures
        (*final(pc_state), r) == adc_spec(*old(pc_state), data),
{
    let c: u8 = if pc_state.get_flag_c() { 1 } else { 0 };
    let a = pc_state.get_a();
    let result = add_carry(pc_state, a, data, c);
    pc_state.set_a(result);
    0
}

pub fn sbc(pc_state: &mut PcState, data: u8) -> (r: u8)
    ensures
        (*final(pc_state), r) == sbc_spec(*old(pc_state), data),
{
    let c: u8 = if pc_state.get_flag_c() { 0 } else { 1 };
    let a = pc_state.get_a();
    let result = sub_carry(pc_state, a, data, c);
    pc_state.set_a(result);
    0
}

pub fn compare(pc_state: &mut PcState, a: u8, b: u8)
    ensures
        *final(pc_state) == compare_spec(*old(pc_state), a, b),
{
    let rs = ((a as u16 + 256 - b as u16) % 256) as u8;
    pc_state.set_flag_n(rs & 0x80 != 0);
    pc_state.set_flag_z(a == b);
    pc_state.set_flag_c(a >= b);
}

pub fn cpx(pc_state: &mut PcState, data: u8) -> (r: u8)
    ensures
        *final(pc_state) == compare_spec(*old(pc_state), old(pc_state).x, data),
        r == 0,
{
    let x = pc_state.get_x();
    compare(pc_state, x, data);
    0
}

pub fn cpy(pc_state: &mut PcState, data: u8) -> (r: u8)
    ensures
        *final(pc_state) == compare_spec(*old(pc_state), old(pc_state).y, data),
        r == 0,
{
    let y = pc_state.get_y();
    compare(pc_state, y, data);
    0
}

pub fn cmp(pc_state: &mut PcState, data: u8) -> (r: u8)
    ensures
        *final(pc_state) == compare_spec(*old(pc_state), old(pc_state).a, data),
        r == 0,
{
    let a = pc_state.get_a();
    compare(pc_state, a, data);
    0
}

/// Copies bits 7 and 6 of the operand into N and V; Z from `A & operand`.
pub fn bit(pc_state: &mut PcState, data: u8) -> (r: u8)
    ensures
        *final(pc_state) == old(pc_state).with_flag(FLAG_N, data & 0x80 != 0).with_flag(
            FLAG_V,
            data & 0x40 != 0,
        ).with_flag(FLAG_Z, old(pc_state).a & data == 0),
        r == 0,
{
    pc_state.set_flag_n(data & 0x80 != 0);
    pc_state.set_flag_v(data & 0x40 != 0);
    let a = pc_state.get_a();
    pc_state.set_flag_z(a & data == 0);
    0
}

pub fn sta(pc_state: &mut PcState, data: u8) -> (r: u8)
    ensures
        *final(pc_state) == *old(pc_state),
        r == old(pc_state).a,
{
    pc_state.get_a()
}

pub fn stx(pc_state: &mut PcState, data: u8) -> (r: u8)
    ensures
        *final(pc_state) == *old(pc_state),
        r == old(pc_state).x,
{
    pc_state.get_x()
}

pub fn sty(pc_state: &mut PcState, data: u8) -> (r: u8)
    ensures
        *final(pc_state) == *old(pc_state),
        r == old(pc_state).y,
{
    pc_state.get_y()
}

/// Stores `A & X` (undocumented).
pub fn sax(pc_state: &mut PcState, data: u8) -> (r: u8)
    ensures
        *final(pc_state) == *old(pc_state),
        r == old(pc_state).a & old(pc_state).x,
{
    pc_state.get_a() & pc_state.get_x()
}

pub fn inc(pc_state: &mut PcState, data: u8) -> (r: u8)
    ensures
        (*final(pc_state), r) == inc_spec(*old(pc_state), data),
{
    let incremented = ((data as u16 + 1) % 256) as u8;
    set_status_nz(pc_state, incremented);
    incremented
}

pub fn dec(pc_state: &mut PcState, data: u8) -> (r: u8)
    ensures
        (*final(pc_state), r) == dec_spec(*old(pc_state), data),
{
    let decremented = ((data as u16 + 255) % 256) as u8;
    set_status_nz(pc_state, decremented);
    decremented
}

/// Decrements the operand and compares A with it (undocumented).
pub fn dcp(pc_state: &mut PcState, data: u8) -> (r: u8)
    ensures
        r == dec_spec(*old(pc_state), data).1,
        *final(pc_state) == compare_spec(dec_spec(*old(pc_state), data).0, old(pc_state).a, r),
{
    let decremented = dec(pc_state, data);
    let a = pc_state.get_a();
    compare(pc_state, a, decremented);
    decremented
}

/// Increments the operand and subtracts it from A (undocumented).
pub fn isc(pc_state: &mut PcState, data: u8) -> (r: u8)
    ensures
        r == inc_spec(*old(pc_state), data).1,
        *final(pc_state) == sbc_spec(inc_spec(*old(pc_state), data).0, r).0,
{
    let increment = inc(pc_state, data);
    sbc(pc_state, increment);
    increment
}

/// Shifts the operand left and ORs it into A (undocumented).
pub fn slo(pc_state: &mut PcState, data: u8) -> (r: u8)
    ensures
        r == asl_spec(*old(pc_state), data).1,
        *final(pc_state) == or_spec(asl_spec(*old(pc_state), data).0, r).0,
{
    let shift = asl(pc_state, data);
    or(pc_state, shift);
    shift
}

/// Loads the operand into both A and X (undocumented).
pub fn lax(pc_state: &mut PcState, data: u8) -> (r: u8)
    ensures
        *final(pc_state) == ldx_spec(lda_spec(*old(pc_state), data).0, data).0,
        r == 0,
{
    lda(pc_state, data);
    ldx(pc_state, data)
}

pub fn clc(pc_state: &mut PcState, data: u8) -> (r: u8)
    ensures
        *final(pc_state) == old(pc_state).with_flag(FLAG_C, false),
        r == 0,
{
    pc_state.set_flag_c(false);
    0
}

pub fn cld(pc_state: &mut PcState, data: u8) -> (r: u8)
    ensures
        *final(pc_state) == old(pc_state).with_flag(FLAG_D, false),
        r == 0,
{
    pc_state.set_flag_d(false);
    0
}

pub fn cli(pc_state: &mut PcState, data: u8) -> (r: u8)
    ensures
        *final(pc_state) == old(pc_state).with_flag(FLAG_I, false),
        r == 0,
{
    pc_state.set_flag_i(false);
    0
}

pub fn clv(pc_state: &mut PcState, data: u8) -> (r: u8)
    ensures
        *final(pc_state) == old(pc_state).with_flag(FLAG_V, false),
        r == 0,
{
    pc_state.set_flag_v(false);
    0
}

pub fn sec(pc_state: &mut PcState, data: u8) -> (r: u8)
    ensures
        *final(pc_state) == old(pc_state).with_flag(FLAG_C, true),
        r == 0,
{
    pc_state.set_flag_c(true);
    0
}

pub fn sei(pc_state: &mut PcState, data: u8) -> (r: u8)
    ensures
        *final(pc_state) == old(pc_state).with_flag(FLAG_I, true),
        r == 0,
{
    pc_state.set_flag_i(true);
    0
}

pub fn sed(pc_state: &mut PcState, data: u8) -> (r: u8)
    ensures
        *final(pc_state) == old(pc_state).with_flag(FLAG_D, true),
        r == 0,
{
    pc_state.set_flag_d(true);
    0
}

/// Register transfer without flag changes (TXS).
pub fn t_no_status(pc_state: &mut PcState, data: u8) -> (r: u8)
    ensures
        *final(pc_state) == *old(pc_state),
        r == data,
{
    data
}

/// Register transfer that sets N and Z (TAX, TXA, ...).
pub fn t_status(pc_state: &mut PcState, data: u8) -> (r: u8)
    ensures
        *final(pc_state) == old(pc_state).with_nz(data),
        r == data,
{
    set_status_nz(pc_state, data);
    data
}

// ---------------------------------------------------------------------------
// Dispatch over the primitives, and the instruction skeletons.
// ---------------------------------------------------------------------------

/// The ALU primitive of an instruction.
#[derive(Clone, Copy, PartialEq, Eq, Structural)]
pub enum Op {
    Adc,
    And,
    Asl,
    Bit,
    Clc,
    Cld,
    Cli,
    Clv,
    Cmp,
    Cpx,
    Cpy,
    Dcp,
    Dec,
    Eor,
    Inc,
    Isc,
    Lax,
    Lda,
    Ldx,
    Ldy,
    Lsr,
    Nop,
    Or,
    Rol,
    Ror,
    Sax,
    Sbc,
    Sec,
    Sed,
    Sei,
    Slo,
    Sta,
    Stx,
    Sty,
    TNoStatus,
    TStatus,
}

#[verifier::opaque]
pub open spec fn op_spec(op: Op, p: PcState, d: u8) -> (PcState, u8) {
    match op {
        Op::Adc => adc_spec(p, d),
        Op::And => (PcState { a: p.a & d, ..p }.with_nz(p.a & d), 0),
        Op::Asl => asl_spec(p, d),
        Op::Bit => (p.with_flag(FLAG_N, d & 0x80 != 0).with_flag(FLAG_V, d & 0x40 != 0).with_flag(FLAG_Z, p.a & d == 0), 0),
        Op::Clc => (p.with_flag(FLAG_C, false), 0),
        Op::Cld => (p.with_flag(FLAG_D, false), 0),
        Op::Cli => (p.with_flag(FLAG_I, false), 0),
        Op::Clv => (p.with_flag(FLAG_V, false), 0),
        Op::Cmp => (compare_spec(p, p.a, d), 0),
        Op::Cpx => (compare_spec(p, p.x, d), 0),
        Op::Cpy => (compare_spec(p, p.y, d), 0),
        Op::Dcp => (compare_spec(dec_spec(p, d).0, p.a, dec_spec(p, d).1), dec_spec(p, d).1),
        Op::Dec => dec_spec(p, d),
        Op::Eor => (PcState { a: p.a ^ d, ..p }.with_nz(p.a ^ d), 0),
        Op::Inc => inc_spec(p, d),
        Op::Isc => (sbc_spec(inc_spec(p, d).0, inc_spec(p, d).1).0, inc_spec(p, d).1),
        Op::Lax => (ldx_spec(lda_spec(p, d).0, d).0, 0),
        Op::Lda => lda_spec(p, d),
        Op::Ldx => ldx_spec(p, d),
        Op::Ldy => ldy_spec(p, d),
        Op::Lsr => lsr_spec(p, d),
        Op::Nop => (p, d),
        Op::Or => or_spec(p, d),
        Op::Rol => rol_spec(p, d),
        Op::Ror => ror_spec(p, d),
        Op::Sax => (p, p.a & p.x),
        Op::Sbc => sbc_spec(p, d),
        Op::Sec => (p.with_flag(FLAG_C, true), 0),
        Op::Sed => (p.with_flag(FLAG_D, true), 0),
        Op::Sei => (p.with_flag(FLAG_I, true), 0),
        Op::Slo => (or_spec(asl_spec(p, d).0, asl_spec(p, d).1).0, asl_spec(p, d).1),
        Op::Sta => (p, p.a),
        Op::Stx => (p, p.x),
        Op::Sty => (p, p.y),
        Op::TNoStatus => (p, d),
        Op::TStatus => (p.with_nz(d), d),
    }
}

/// Runs the primitive `op` on the operand.
pub fn apply_op(op: Op, pc_state: &mut PcState, data: u8) -> (r: u8)
    ensures
        (*final(pc_state), r) == op_spec(op, *old(pc_state), data),
        final(pc_state).pc == old(pc_state).pc,
{
    proof {
        reveal(op_spec);
    }
    match op {
        Op::Adc => adc(pc_state, data),
        Op::And => and(pc_state, data),
        Op::Asl => asl(pc_state, data),
        Op::Bit => bit(pc_state, data),
        Op::Clc => clc(pc_state, data),
        Op::Cld => cld(pc_state, data),
        Op::Cli => cli(pc_state, data),
        Op::Clv => clv(pc_state, data),
        Op::Cmp => cmp(pc_state, data),
        Op::Cpx => cpx(pc_state, data),
        Op::Cpy => cpy(pc_state, data),
        Op::Dcp => dcp(pc_state, data),
        Op::Dec => dec(pc_state, data),
        Op::Eor => eor(pc_state, data),
        Op::Inc => inc(pc_state, data),
        Op::Isc => isc(pc_state, data),
        Op::Lax => lax(pc_state, data),
        Op::Lda => lda(pc_state, data),
        Op::Ldx => ldx(pc_state, data),
        Op::Ldy => ldy(pc_state, data),
        Op::Lsr => lsr(pc_state, data),
        Op::Nop => nop(pc_state, data),
        Op::Or => or(pc_state, data),
        Op::Rol => rol(pc_state, data),
        Op::Ror => ror(pc_state, data),
        Op::Sax => sax(pc_state, data),
        Op::Sbc => sbc(pc_state, data),
        Op::Sec => sec(pc_state, data),
        Op::Sed => sed(pc_state, data),
        Op::Sei => sei(pc_state, data),
        Op::Slo => slo(pc_state, data),
        Op::Sta => sta(pc_state, data),
        Op::Stx => stx(pc_state, data),
        Op::Sty => sty(pc_state, data),
        Op::TNoStatus => t_no_status(pc_state, data),
        Op::TStatus => t_status(pc_state, data),
    }
}

/// A register as the operand source or result sink of a one-byte instruction.
#[derive(Clone, Copy, PartialEq, Eq, Structural)]
pub enum Register {
    A,
    X,
    Y,
    S,
    Null,
}

pub open spec fn reg_value(p: PcState, r: Register) -> u8 {
    match r {
        Register::A => p.a,
        Register::X => p.x,
        Register::Y => p.y,
        Register::S => p.s,
        Register::Null => 0,
    }
}

pub open spec fn with_reg(p: PcState, r: Register, v: u8) -> PcState {
    match r {
        Register::A => PcState { a: v, ..p },
        Register::X => PcState { x: v, ..p },
        Register::Y => PcState { y: v, ..p },
        Register::S => PcState { s: v, ..p },
        Register::Null => p,
    }
}

fn read_reg(pc_state: &PcState, r: Register) -> (v: u8)
    ensures
        v == reg_value(*pc_state, r),
{
    match r {
        Register::A => pc_state.get_a(),
        Register::X => pc_state.get_x(),
        Register::Y => pc_state.get_y(),
        Register::S => pc_state.get_s(),
        Register::Null => 0,
    }
}

fn write_reg(pc_state: &mut PcState, r: Register, v: u8)
    ensures
        *final(pc_state) == with_reg(*old(pc_state), r, v),
{
    match r {
        Register::A => pc_state.set_a(v),
        Register::X => pc_state.set_x(v),
        Register::Y => pc_state.set_y(v),
        Register::S => pc_state.set_s(v),
        Register::Null => {},
    }
}

/// Where a read/modify/write instruction takes its operand from.
#[derive(Clone, Copy, PartialEq, Eq, Structural)]
pub enum ReadSource {
    Memory,
    Null,
}

/// Where a read/modify/write instruction puts its result.
#[derive(Clone, Copy, PartialEq, Eq, Structural)]
pub enum WriteSink {
    Memory,
    Null,
}

/// Colour clocks of a read/modify/write instruction after the opcode fetch:
/// the mode's cycles, two for a read and two for a write, and one more when
/// indexing crossed a page on a read-only instruction.
pub open spec fn rw_time(mode: Mode, read: ReadSource, write: WriteSink, crossed: bool) -> int {
    3 * (mode_cycles(mode) + (if read == ReadSource::Memory { 2int } else { 0 }) + (if read
        == ReadSource::Memory && write == WriteSink::Null && crossed { 1int } else { 0 }) + (if write
        == WriteSink::Memory { 2int } else { 0 }))
}

/// What a one-byte instruction does.
pub open spec fn single_effect(read: Register, write: Register, op: Op, p: PcState, t: u64, np: PcState, nt: u64) -> bool {
    let (p1, r) = op_spec(op, p, reg_value(p, read));
    &&& nt == t + 6
    &&& np == PcState { pc: pc_offset(p.pc, 1), ..with_reg(p1, write, r) }
}

/// A one-byte instruction: operand from register `read`, result to register
/// `write`, two cycles.
pub fn single_byte_instruction(clock: &mut Clock, pc_state: &mut PcState, read: Register, write: Register, op: Op)
    requires
        old(clock).ticks < CLOCK_LIMIT,
    ensures
        single_effect(read, write, op, *old(pc_state), old(clock).ticks, *final(pc_state), final(clock).ticks),
{
    clock.increment(PcState::CYCLES_TO_CLOCK as u32);
    let data = read_reg(pc_state, read);
    let result = apply_op(op, pc_state, data);
    write_reg(pc_state, write, result);
    clock.increment(PcState::CYCLES_TO_CLOCK as u32);
    pc_state.increment_pc(1);
}

/// What a read/modify/write instruction does: `n*` are the state after it.
pub open spec fn rw_effect(
    mode: Mode,
    read: ReadSource,
    write: WriteSink,
    op: Op,
    delay: u8,
    p: PcState,
    m: Memory,
    t: u64,
    np: PcState,
    nm: Memory,
    nt: u64,
) -> bool {
    let (addr, crossed) = ea_spec(mode, p, m, t);
    let value = if read == ReadSource::Memory {
        mem_read(m, t, addr)
    } else {
        0
    };
    let (p1, data) = op_spec(op, p, value);
    let t1 = (t + rw_time(mode, read, write, crossed) + 3 * delay) as u64;
    &&& np == PcState { pc: pc_offset(p.pc, mode_size(mode) + 1), ..p1 }
    &&& nm.wf()
    &&& if write == WriteSink::Memory {
        mem_written(m, nm, t1, nt, addr, data)
    } else {
        nm == m && nt == t1
    }
}

pub fn read_write_instruction(
    clock: &mut Clock,
    pc_state: &mut PcState,
    memory: &mut Memory,
    mode: Mode,
    read: ReadSource,
    write: WriteSink,
    op: Op,
)
    requires
        old(clock).ticks < CLOCK_LIMIT,
        old(memory).wf(),
    ensures
        rw_effect(mode, read, write, op, 0, *old(pc_state), *old(memory), old(clock).ticks, *final(pc_state), *final(memory), final(clock).ticks),
        final(clock).ticks >= old(clock).ticks,
{
    read_write_instruction_additional_delay(clock, pc_state, memory, mode, read, write, op, 0);
}

/// A read/modify/write instruction taking `additional_delay` more cycles
/// (indexed stores and read-modify-writes).
pub fn read_write_instruction_additional_delay(
    clock: &mut Clock,
    pc_state: &mut PcState,
    memory: &mut Memory,
    mode: Mode,
    read: ReadSource,
    write: WriteSink,
    op: Op,
    additional_delay: u8,
)
    requires
        old(clock).ticks < CLOCK_LIMIT,
        old(memory).wf(),
        additional_delay <= 2,
    ensures
        rw_effect(mode, read, write, op, additional_delay, *old(pc_state), *old(memory), old(clock).ticks, *final(pc_state), *final(memory), final(clock).ticks),
        old(clock).ticks <= final(clock).ticks <= old(clock).ticks + 300,
        read == ReadSource::Memory || write == WriteSink::Memory ==> final(clock).ticks >= old(clock).ticks + 6,
{
    let address = addressing_of(mode);
    let (addr, crossed) = address16(mode, clock, pc_state, memory);
    let mut execute_time: u32 = address.cycles as u32 * 3;
    let value = if read == ReadSource::Memory {
        execute_time = execute_time + 6;
        if crossed && write == WriteSink::Null {
            execute_time = execute_time + 3;
        }
        memory.read(clock, addr)
    } else {
        0
    };
    if write == WriteSink::Memory {
        execute_time = execute_time + 6;
    }
    let data = apply_op(op, pc_state, value);
    clock.increment(execute_time);
    clock.increment(additional_delay as u32 * 3);
    if write == WriteSink::Memory {
        memory.write(clock, addr, data);
    }
    pc_state.increment_pc((address.size + 1) as i16);
}

// ---------------------------------------------------------------------------
// Stack instructions. The stack lives at 0x100 + S, in RIOT RAM.
// ---------------------------------------------------------------------------

/// Address of the stack byte at `s`.
pub open spec fn stack_addr(s: u8) -> u16 {
    (s + 0x100) as u16
}

/// PHA: A pushed at S, S decremented.
pub open spec fn pha_effect(p: PcState, m: Memory, t: u64, np: PcState, nm: Memory, nt: u64) -> bool {
    &&& nt == t + 9
    &&& pushed1(m, nm, p.s, p.a)
    &&& np == PcState { pc: pc_offset(p.pc, 1), s: s_offset(p.s, -1), ..p }
    &&& nm.wf()
}

/// PLA: S incremented, A pulled from S, N and Z set from it.
pub open spec fn pla_effect(p: PcState, m: Memory, t: u64, np: PcState, nm: Memory, nt: u64) -> bool {
    let v = mem_read(m, (t + 9) as u64, stack_addr(s_offset(p.s, 1)));
    &&& nt == t + 12
    &&& nm == m
    &&& np == PcState { pc: pc_offset(p.pc, 1), s: s_offset(p.s, 1), a: v, ..p }.with_nz(v)
}

/// PHP: P pushed with B and the unused bit 5 set; P itself unchanged.
pub open spec fn php_effect(p: PcState, m: Memory, t: u64, np: PcState, nm: Memory, nt: u64) -> bool {
    &&& nt == t + 9
    &&& pushed1(m, nm, p.s, p.p | 0x30)
    &&& np == PcState { pc: pc_offset(p.pc, 1), s: s_offset(p.s, -1), ..p }
    &&& nm.wf()
}

/// P as PLP or RTI leaves it: B and bit 5 cannot be written.
pub open spec fn pulled_status(p: u8, v: u8) -> u8 {
    (v & 0xCF) | (p & 0x30)
}

/// PLP: S incremented, P pulled from S (B and bit 5 kept).
pub open spec fn plp_effect(p: PcState, m: Memory, t: u64, np: PcState, nm: Memory, nt: u64) -> bool {
    let v = mem_read(m, (t + 9) as u64, stack_addr(s_offset(p.s, 1)));
    &&& nt == t + 12
    &&& nm == m
    &&& np == PcState { pc: pc_offset(p.pc, 1), s: s_offset(p.s, 1), p: pulled_status(p.p, v), ..p }
}

pub fn php_instruction(clock: &mut Clock, pc_state: &mut PcState, memory: &mut Memory)
    requires
        old(clock).ticks < CLOCK_LIMIT,
        old(memory).wf(),
    ensures
        php_effect(*old(pc_state), *old(memory), old(clock).ticks, *final(pc_state), *final(memory), final(clock).ticks),
{
    // T1 - PC + 1
    clock.increment(PcState::CYCLES_TO_CLOCK as u32);
    pc_state.increment_pc(1);
    // T2 - push with B and bit 5 set
    clock.increment(PcState::CYCLES_TO_CLOCK as u32);
    let p = pc_state.get_p();
    push_byte(clock, pc_state, memory, p | 0x30);
}

pub fn plp_instruction(clock: &mut Clock, pc_state: &mut PcState, memory: &mut Memory)
    requires
        old(clock).ticks < CLOCK_LIMIT,
        old(memory).wf(),
    ensures
        plp_effect(*old(pc_state), *old(memory), old(clock).ticks, *final(pc_state), *final(memory), final(clock).ticks),
{
    // T1 - PC + 1
    clock.increment(PcState::CYCLES_TO_CLOCK as u32);
    pc_state.increment_pc(1);
    // T2 - stack pointer (data discarded)
    clock.increment(PcState::CYCLES_TO_CLOCK as u32);
    memory.read_sp(clock, pc_state.get_s());
    // T3 - stack pointer + 1
    clock.increment(PcState::CYCLES_TO_CLOCK as u32);
    pc_state.increment_s(1);
    let v = memory.read_sp(clock, pc_state.get_s());
    let p = pc_state.get_p();
    pc_state.set_p((v & 0xCF) | (p & 0x30));
    // T0 - next instruction
    clock.increment(PcState::CYCLES_TO_CLOCK as u32);
}

pub fn pha_instruction(clock: &mut Clock, pc_state: &mut PcState, memory: &mut Memory)
    requires
        old(clock).ticks < CLOCK_LIMIT,
        old(memory).wf(),
    ensures
        pha_effect(*old(pc_state), *old(memory), old(clock).ticks, *final(pc_state), *final(memory), final(clock).ticks),
{
    // T1 - PC + 1
    clock.increment(PcState::CYCLES_TO_CLOCK as u32);
    pc_state.increment_pc(1);
    // T2 - push
    clock.increment(PcState::CYCLES_TO_CLOCK as u32);
    let a = pc_state.get_a();
    push_byte(clock, pc_state, memory, a);
}

pub fn pla_instruction(clock: &mut Clock, pc_state: &mut PcState, memory: &mut Memory)
    requires
        old(clock).ticks < CLOCK_LIMIT,
        old(memory).wf(),
    ensures
        pla_effect(*old(pc_state), *old(memory), old(clock).ticks, *final(pc_state), *final(memory), final(clock).ticks),
{
    // T1 - PC + 1
    clock.increment(PcState::CYCLES_TO_CLOCK as u32);
    pc_state.increment_pc(1);
    // T2 - stack pointer (data discarded)
    clock.increment(PcState::CYCLES_TO_CLOCK as u32);
    memory.read_sp(clock, pc_state.get_s());
    // T3 - stack pointer + 1
    clock.increment(PcState::CYCLES_TO_CLOCK as u32);
    pc_state.increment_s(1);
    let v = memory.read_sp(clock, pc_state.get_s());
    pc_state.set_a(v);
    set_status_nz(pc_state, v);
    // T0 - next instruction
    clock.increment(PcState::CYCLES_TO_CLOCK as u32);
}

/// PHA then PLA gives A back and leaves S as it was.
pub proof fn law_pha_then_pla(
    p0: PcState,
    m0: Memory,
    t0: u64,
    p1: PcState,
    m1: Memory,
    t1: u64,
    t2: u64,
    p2: PcState,
    m2: Memory,
    t3: u64,
)
    requires
        m0.wf(),
        pha_effect(p0, m0, t0, p1, m1, t1),
        pla_effect(p1, m1, t2, p2, m2, t3),
    ensures
        p2.a == p0.a,
        p2.s == p0.s,
{
    assert(s_offset(p1.s, 1) == p0.s);
    crate::memory::lemma_stack_routing(m1, (t2 + 9) as u64, p0.s);
}

/// PHP then PLP gives P back exactly.
pub proof fn law_php_then_plp(
    p0: PcState,
    m0: Memory,
    t0: u64,
    p1: PcState,
    m1: Memory,
    t1: u64,
    t2: u64,
    p2: PcState,
    m2: Memory,
    t3: u64,
)
    requires
        m0.wf(),
        php_effect(p0, m0, t0, p1, m1, t1),
        plp_effect(p1, m1, t2, p2, m2, t3),
    ensures
        p2.p == p0.p,
        p2.s == p0.s,
{
    assert(s_offset(p1.s, 1) == p0.s);
    crate::memory::lemma_stack_routing(m1, (t2 + 9) as u64, p0.s);
    let v = p0.p;
    assert(((v | 0x30) & 0xCF) | (v & 0x30) == v) by (bit_vector);
}

/// The status byte that PHP (and BRK) push always has bit 5 set.
pub proof fn law_pushed_status_bit5(p: u8)
    ensures
        (p | 0x30) & 0x20 != 0,
{
    assert((p | 0x30) & 0x20 != 0) by (bit_vector);
}

// ---------------------------------------------------------------------------
// Jumps, subroutines, interrupts and branches.
// ---------------------------------------------------------------------------

/// RAM after byte `v` was pushed at `s`.
pub open spec fn pushed1(m: Memory, nm: Memory, s: u8, v: u8) -> bool {
    &&& nm == Memory { riot: nm.riot, ..m }
    &&& nm.riot == Riot { ram: nm.riot.ram, ..m.riot }
    &&& nm.riot.ram@ == m.riot.ram@.update((s % 128) as int, v)
}

/// Pushes `v` at S, decrements S, and takes a cycle.
fn push_byte(clock: &mut Clock, pc_state: &mut PcState, memory: &mut Memory, v: u8)
    requires
        old(clock).ticks < CLOCK_LIMIT + 0x1000,
        old(memory).wf(),
    ensures
        final(memory).wf(),
        *final(pc_state) == (PcState { s: s_offset(old(pc_state).s, -1), ..*old(pc_state) }),
        final(clock).ticks == old(clock).ticks + 3,
        pushed1(
            *old(memory),
            *final(memory),
            old(pc_state).s,
            v,
        ),
{
    let t = clock.ticks;
    memory.write_sp(clock, pc_state.get_s(), v);
    proof {
        {
            crate::memory::lemma_ram_push(*old(memory), *memory, t, clock.ticks, old(pc_state).s, v);
        }
    }
    pc_state.increment_s(-1);
    clock.increment(PcState::CYCLES_TO_CLOCK as u32);
}

/// Pushes the word `w`, high byte first.
#[verifier::rlimit(100)]
fn push_word(clock: &mut Clock, pc_state: &mut PcState, memory: &mut Memory, w: u16)
    requires
        old(clock).ticks < CLOCK_LIMIT + 0x100,
        old(memory).wf(),
    ensures
        final(memory).wf(),
        *final(pc_state) == (PcState { s: s_offset(old(pc_state).s, -2), ..*old(pc_state) }),
        final(clock).ticks == old(clock).ticks + 6,
        pushed2(
            *old(memory),
            *final(memory),
            old(pc_state).s,
            (w / 256) as u8,
            (w % 256) as u8,
        ),
{
    let ghost m0 = *memory;
    push_byte(clock, pc_state, memory, (w / 256) as u8);
    let ghost m1 = *memory;
    push_byte(clock, pc_state, memory, (w % 256) as u8);
    proof {
        {
            assert(m1.cartridge == m0.cartridge && m1.stella == m0.stella);
            assert(memory.cartridge == m0.cartridge && memory.stella == m0.stella);
            assert(memory.riot.ram@ == m0.riot.ram@.update((old(pc_state).s % 128) as int, (w / 256) as u8).update(
                (s_offset(old(pc_state).s, -1) % 128) as int,
                (w % 256) as u8,
            ));
        }
    }
}

/// RAM after bytes `hi` then `lo` were pushed at `s` and `s - 1`.
pub open spec fn pushed2(m: Memory, nm: Memory, s: u8, hi: u8, lo: u8) -> bool {
    &&& nm == Memory { riot: nm.riot, ..m }
    &&& nm.riot == Riot { ram: nm.riot.ram, ..m.riot }
    &&& nm.riot.ram@ == m.riot.ram@.update((s % 128) as int, hi).update((s_offset(s, -1) % 128) as int, lo)
}

/// RAM after bytes `a`, `b`, `c` were pushed at `s`, `s - 1`, `s - 2`.
pub open spec fn pushed3(m: Memory, nm: Memory, s: u8, a: u8, b: u8, c: u8) -> bool {
    &&& nm == Memory { riot: nm.riot, ..m }
    &&& nm.riot == Riot { ram: nm.riot.ram, ..m.riot }
    &&& nm.riot.ram@ == m.riot.ram@.update((s % 128) as int, a).update((s_offset(s, -1) % 128) as int, b).update(
        (s_offset(s, -2) % 128) as int,
        c,
    )
}

/// What JSR does: the return address (that of its last byte) is pushed, high
/// byte first, and PC loaded from the operand (its high byte read last).
pub open spec fn jsr_effect(p: PcState, m: Memory, t: u64, np: PcState, nm: Memory, nt: u64) -> bool {
    let adl = mem_read(m, (t + 6) as u64, pc_offset(p.pc, 1));
    let adh = mem_read(nm, (t + 15) as u64, pc_offset(p.pc, 2));
    let ret = pc_offset(p.pc, 2);
    &&& nm.wf()
    &&& nt == t + 18
    &&& np == PcState { pc: (adl + 256 * adh) as u16, s: s_offset(p.s, -2), ..p }
    &&& pushed2(m, nm, p.s, (ret / 256) as u8, (ret % 256) as u8)
}

/// JSR: pushes the address of its last byte, then jumps (six cycles).
#[verifier::rlimit(100)]
pub fn jump_sub_routine_instruction(clock: &mut Clock, pc_state: &mut PcState, memory: &mut Memory)
    requires
        old(clock).ticks < CLOCK_LIMIT,
        old(memory).wf(),
    ensures
        jsr_effect(*old(pc_state), *old(memory), old(clock).ticks, *final(pc_state), *final(memory), final(clock).ticks),
{
    clock.increment(PcState::CYCLES_TO_CLOCK as u32);
    pc_state.increment_pc(1);
    clock.increment(PcState::CYCLES_TO_CLOCK as u32);
    let adl = memory.read(clock, pc_state.get_pc());
    clock.increment(PcState::CYCLES_TO_CLOCK as u32);
    // Increment before the push, to carry from the low byte into the high.
    pc_state.increment_pc(1);
    let ret = pc_state.get_pc();
    push_word(clock, pc_state, memory, ret);
    let adh = memory.read(clock, pc_state.get_pc());
    clock.increment(PcState::CYCLES_TO_CLOCK as u32);
    pc_state.set_pc(adl as u16 + (adh as u16) * 256);
}

/// What RTS does.
pub open spec fn rts_effect(p: PcState, m: Memory, t: u64, np: PcState, nt: u64) -> bool {
    let pcl = mem_read(m, (t + 9) as u64, stack_addr(s_offset(p.s, 1)));
    let pch = mem_read(m, (t + 12) as u64, stack_addr(s_offset(p.s, 2)));
    &&& nt == t + 18
    &&& np == PcState { pc: pc_offset((pcl + 256 * pch) as u16, 1), s: s_offset(p.s, 2), ..p }
}

/// RTS: pulls the return address and continues after it.
#[verifier::rlimit(100)]
pub fn return_from_sub_routine_instruction(clock: &mut Clock, pc_state: &mut PcState, memory: &Memory)
    requires
        old(clock).ticks < CLOCK_LIMIT,
        memory.wf(),
    ensures
        rts_effect(*old(pc_state), *memory, old(clock).ticks, *final(pc_state), final(clock).ticks),
{
    // T1 - PC + 1
    clock.increment(PcState::CYCLES_TO_CLOCK as u32);
    pc_state.increment_pc(1);
    // T2 - stack pointer
    clock.increment(PcState::CYCLES_TO_CLOCK as u32);
    // T3 - stack pointer + 1 -> PCL
    clock.increment(PcState::CYCLES_TO_CLOCK as u32);
    pc_state.increment_s(1);
    let pcl = memory.read_sp(clock, pc_state.get_s());
    pc_state.set_pcl(pcl);
    // T4 - stack pointer + 1 -> PCH
    clock.increment(PcState::CYCLES_TO_CLOCK as u32);
    pc_state.increment_s(1);
    let pch = memory.read_sp(clock, pc_state.get_s());
    pc_state.set_pch(pch);
    // T5 - discarded read
    clock.increment(PcState::CYCLES_TO_CLOCK as u32);
    memory.read(clock, pc_state.get_pc());
    // T0 - next instruction
    clock.increment(PcState::CYCLES_TO_CLOCK as u32);
    pc_state.increment_pc(1);
}

/// What RTI does.
pub open spec fn rti_effect(p: PcState, m: Memory, t: u64, np: PcState, nt: u64) -> bool {
    let v = mem_read(m, (t + 6) as u64, stack_addr(s_offset(p.s, 1)));
    let pcl = mem_read(m, (t + 9) as u64, stack_addr(s_offset(p.s, 2)));
    let pch = mem_read(m, (t + 12) as u64, stack_addr(s_offset(p.s, 3)));
    &&& nt == t + 18
    &&& np == PcState { pc: (pcl + 256 * pch) as u16, s: s_offset(p.s, 3), p: pulled_status(p.p, v), ..p }
}

/// RTI: pulls P (B and bit 5 kept) and the return address.
#[verifier::rlimit(100)]
pub fn return_from_interrupt(clock: &mut Clock, pc_state: &mut PcState, memory: &Memory)
    requires
        old(clock).ticks < CLOCK_LIMIT,
        memory.wf(),
    ensures
        rti_effect(*old(pc_state), *memory, old(clock).ticks, *final(pc_state), final(clock).ticks),
{
    clock.increment(PcState::CYCLES_TO_CLOCK as u32);
    pc_state.increment_pc(1);
    clock.increment(PcState::CYCLES_TO_CLOCK as u32);
    pc_state.increment_s(1);
    let v = memory.read_sp(clock, pc_state.get_s());
    let p = pc_state.get_p();
    pc_state.set_p((v & 0xCF) | (p & 0x30));
    clock.increment(PcState::CYCLES_TO_CLOCK as u32);
    pc_state.increment_s(1);
    let pcl = memory.read_sp(clock, pc_state.get_s());
    pc_state.set_pcl(pcl);
    clock.increment(PcState::CYCLES_TO_CLOCK as u32);
    pc_state.increment_s(1);
    let pch = memory.read_sp(clock, pc_state.get_s());
    pc_state.set_pch(pch);
    clock.increment(PcState::CYCLES_TO_CLOCK as u32);
    memory.read(clock, pc_state.get_pc());
    clock.increment(PcState::CYCLES_TO_CLOCK as u32);
}

/// Pushes PC and P (with B and bit 5 set on the pushed copy).
#[verifier::rlimit(100)]
fn push_interrupt_frame(clock: &mut Clock, pc_state: &mut PcState, memory: &mut Memory)
    requires
        old(clock).ticks < CLOCK_LIMIT + 0x100,
        old(memory).wf(),
    ensures
        final(memory).wf(),
        *final(pc_state) == (PcState { s: s_offset(old(pc_state).s, -3), ..*old(pc_state) }),
        final(clock).ticks == old(clock).ticks + 9,
        pushed3(
            *old(memory),
            *final(memory),
            old(pc_state).s,
            (old(pc_state).pc / 256) as u8,
            (old(pc_state).pc % 256) as u8,
            old(pc_state).p | 0x30,
        ),
{
    let ghost m0 = *memory;
    let ret = pc_state.get_pc();
    push_word(clock, pc_state, memory, ret);
    let ghost m1 = *memory;
    let p = pc_state.get_p();
    push_byte(clock, pc_state, memory, p | 0x30);
    proof {
        {
            assert(memory.cartridge == m0.cartridge && memory.stella == m0.stella);
            assert(memory.riot.ram@ == m1.riot.ram@.update((s_offset(old(pc_state).s, -2) % 128) as int, old(pc_state).p | 0x30));
        }
    }
}

/// What BRK does: PC + 2 and P (with B and bit 5 set) are pushed, B is
/// cleared and PC loaded from the vector at 0xFFFE.
pub open spec fn brk_effect(p: PcState, m: Memory, t: u64, np: PcState, nm: Memory, nt: u64) -> bool {
    let adl = mem_read(m, (t + 6) as u64, 0xFFFE);
    let adh = mem_read(nm, (t + 18) as u64, 0xFFFF);
    let ret = pc_offset(p.pc, 2);
    &&& nm.wf()
    &&& nt == t + 21
    &&& np == PcState { pc: (adl + 256 * adh) as u16, s: s_offset(p.s, -3), ..p.with_flag(FLAG_B, false) }
    &&& pushed3(m, nm, p.s, (ret / 256) as u8, (ret % 256) as u8, p.p | 0x30)
}

/// BRK: pushes the address after its padding byte and P (with B and bit 5
/// set), clears B, and jumps through the vector at 0xFFFE.
#[verifier::rlimit(100)]
pub fn break_instruction(clock: &mut Clock, pc_state: &mut PcState, memory: &mut Memory)
    requires
        old(clock).ticks < CLOCK_LIMIT,
        old(memory).wf(),
    ensures
        brk_effect(*old(pc_state), *old(memory), old(clock).ticks, *final(pc_state), *final(memory), final(clock).ticks),
{
    clock.increment(PcState::CYCLES_TO_CLOCK as u32);
    pc_state.increment_pc(2);
    clock.increment(PcState::CYCLES_TO_CLOCK as u32);
    let adl = memory.read(clock, 0xFFFE);
    clock.increment(PcState::CYCLES_TO_CLOCK as u32);
    push_interrupt_frame(clock, pc_state, memory);
    pc_state.set_flag_b(false);
    let adh = memory.read(clock, 0xFFFF);
    clock.increment(PcState::CYCLES_TO_CLOCK as u32);
    pc_state.set_pc(adl as u16 + (adh as u16) * 256);
}

/// What JMP does.
pub open spec fn jump_effect(mode: Mode, p: PcState, m: Memory, t: u64, np: PcState, nt: u64) -> bool {
    &&& nt == t + 3 + 3 * mode_cycles(mode)
    &&& np == PcState { pc: ea_spec(mode, p, m, (t + 3) as u64).0, ..p }
}

/// JMP: absolute or indirect (through a pointer whose high byte is read
/// from the same page).
pub fn jump_instruction(clock: &mut Clock, pc_state: &mut PcState, memory: &Memory, mode: Mode)
    requires
        old(clock).ticks < CLOCK_LIMIT,
        memory.wf(),
    ensures
        jump_effect(mode, *old(pc_state), *memory, old(clock).ticks, *final(pc_state), final(clock).ticks),
{
    clock.increment(PcState::CYCLES_TO_CLOCK as u32);
    let address = addressing_of(mode);
    let (addr, _crossed) = address16(mode, clock, pc_state, memory);
    let execute_time = address.cycles as u32 * 3;
    clock.increment(execute_time);
    pc_state.set_pc(addr);
}

/// Adds a cycle when `start_address` and `end_address` lie in different
/// pages.
pub fn branch_page_delay(clock: &mut Clock, start_address: u16, end_address: u16)
    requires
        old(clock).ticks < CLOCK_LIMIT + 0x1000,
    ensures
        final(clock).ticks == old(clock).ticks + (if start_address / 256 != end_address / 256 {
            3int
        } else {
            0
        }),
{
    if (start_address & 0xFF00) != (end_address & 0xFF00) {
        assert((start_address & 0xFF00) != (end_address & 0xFF00) ==> start_address / 256 != end_address / 256) by (bit_vector);
        clock.increment(PcState::CYCLES_TO_CLOCK as u32);
    } else {
        assert((start_address & 0xFF00) == (end_address & 0xFF00) ==> start_address / 256 == end_address / 256) by (bit_vector);
    }
}

/// Target of a taken branch at `pc` with offset byte `d`.
pub open spec fn branch_target(pc: u16, d: u8) -> u16 {
    pc_offset(pc_offset(pc, signed(d)), 2)
}

/// What a conditional branch does.
pub open spec fn branch_effect(condition_mask: u8, condition: u8, p: PcState, m: Memory, t: u64, np: PcState, nt: u64) -> bool {
    if p.p & condition_mask == condition {
        let d = mem_read(m, (t + 3) as u64, pc_offset(p.pc, 1));
        let target = branch_target(p.pc, d);
        &&& np == PcState { pc: target, ..p }
        &&& nt == t + 9 + (if pc_offset(p.pc, 2) / 256 != target / 256 {
            3int
        } else {
            0
        })
    } else {
        &&& np == PcState { pc: pc_offset(p.pc, 2), ..p }
        &&& nt == t + 6
    }
}

/// A conditional branch, taken when `P & condition_mask == condition`: two
/// cycles, one more when taken and another when the target lies in another
/// page.
pub fn branch_instruction(clock: &mut Clock, pc_state: &mut PcState, memory: &Memory, condition_mask: u8, condition: u8)
    requires
        old(clock).ticks < CLOCK_LIMIT,
        memory.wf(),
    ensures
        branch_effect(condition_mask, condition, *old(pc_state), *memory, old(clock).ticks, *final(pc_state), final(clock).ticks),
{
    clock.increment(PcState::CYCLES_TO_CLOCK as u32);
    if (pc_state.get_p() & condition_mask) == condition {
        let initial_pc = pc_state.get_pc();
        let delta = memory.read(clock, ((initial_pc as u32 + 1) % 0x10000) as u16);
        let off: i16 = if delta >= 128 { delta as i16 - 256 } else { delta as i16 };
        pc_state.increment_pc(off);
        let start = ((initial_pc as u32 + 2) % 0x10000) as u16;
        let end = ((pc_state.get_pc() as u32 + 2) % 0x10000) as u16;
        branch_page_delay(clock, start, end);
        clock.increment(PcState::CYCLES_TO_CLOCK as u32);
    }
    pc_state.increment_pc(2);
    clock.increment(PcState::CYCLES_TO_CLOCK as u32);
}

/// RTS returns to the instruction after a JSR when the subroutine leaves S
/// and the two bytes JSR pushed as it found them.
#[verifier::rlimit(60)]
pub proof fn law_jsr_then_rts(
    p0: PcState,
    m0: Memory,
    t0: u64,
    p1: PcState,
    m1: Memory,
    t1: u64,
    q: PcState,
    mq: Memory,
    t2: u64,
    p2: PcState,
    t3: u64,
)
    requires
        m0.wf(),
        jsr_effect(p0, m0, t0, p1, m1, t1),
        q.s == p1.s,
        mq.riot.ram@.len() == 128,
        mq.riot.ram@[(p0.s % 128) as int] == m1.riot.ram@[(p0.s % 128) as int],
        mq.riot.ram@[(s_offset(p0.s, -1) % 128) as int] == m1.riot.ram@[(s_offset(p0.s, -1) % 128) as int],
        rts_effect(q, mq, t2, p2, t3),
    ensures
        p2.pc == pc_offset(p0.pc, 3),
        p2.s == p0.s,
{
    let ret = pc_offset(p0.pc, 2);
    let lo_i = (s_offset(p0.s, -1) % 128) as int;
    let hi_i = (p0.s % 128) as int;
    lemma_pushed2_bytes(m0, m1, p0.s, (ret / 256) as u8, (ret % 256) as u8);
    assert(s_offset(q.s, 1) == s_offset(p0.s, -1));
    assert(s_offset(q.s, 2) == p0.s);
    crate::memory::lemma_stack_routing(mq, (t2 + 9) as u64, s_offset(p0.s, -1));
    crate::memory::lemma_stack_routing(mq, (t2 + 12) as u64, p0.s);
    assert(mq.riot.ram@[lo_i] == (ret % 256) as u8);
    assert(mq.riot.ram@[hi_i] == (ret / 256) as u8);
}

proof fn lemma_pushed2_bytes(m: Memory, nm: Memory, s: u8, hi: u8, lo: u8)
    requires
        m.riot.ram@.len() == 128,
        pushed2(m, nm, s, hi, lo),
    ensures
        nm.riot.ram@[(s % 128) as int] == hi,
        nm.riot.ram@[(s_offset(s, -1) % 128) as int] == lo,
{
    assert(s_offset(s, -1) % 128 != s % 128);
}

} // verus!
