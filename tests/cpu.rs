use atari2600::cartridge::Cartridge;
use atari2600::clocks::Clock;
use atari2600::display::Colours;
use atari2600::instruction_set::{
    adc, add_carry, asl, branch_instruction, cmp, lsr, pha_instruction, php_instruction,
    pla_instruction, plp_instruction, rol, ror, sbc, sub_carry,
};
use atari2600::instructions::{CpuError, Instruction};
use atari2600::machine::Core;
use atari2600::memory::Memory;
use atari2600::pc_state::{PcState, FLAG_C, FLAG_D, FLAG_N, FLAG_V, FLAG_Z};
use atari2600::riot::Riot;
use atari2600::stella::Stella;

fn memory_with(rom: Vec<u8>) -> Memory {
    let cartridge = Cartridge::new(rom).unwrap();
    let stella = Stella::new(false, true, Colours::new());
    Memory::new(cartridge, stella, Riot::new())
}

fn flags(p: &PcState) -> (bool, bool, bool, bool) {
    (p.p & FLAG_N != 0, p.p & FLAG_V != 0, p.p & FLAG_Z != 0, p.p & FLAG_C != 0)
}

#[test]
fn adc_wraps_to_zero_with_carry() {
    let mut p = PcState::new();
    p.a = 0xFF;
    adc(&mut p, 0x01);
    assert_eq!(p.a, 0x00);
    assert_eq!(flags(&p), (false, false, true, true));
}

#[test]
fn adc_signed_overflow_sets_v() {
    let mut p = PcState::new();
    p.a = 0x50;
    adc(&mut p, 0x50);
    assert_eq!(p.a, 0xA0);
    assert_eq!(flags(&p), (true, true, false, false));
}

#[test]
fn adc_decimal_carries_into_tens() {
    let mut p = PcState::new();
    p.p = FLAG_D;
    p.a = 0x09;
    adc(&mut p, 0x01);
    assert_eq!(p.a, 0x10);
    assert_eq!(p.p & FLAG_C, 0);
}

#[test]
fn adc_decimal_above_99_sets_carry() {
    let mut p = PcState::new();
    p.p = FLAG_D;
    let r = add_carry(&mut p, 0x99, 0x01, 0);
    assert_eq!(r, 0x00);
    assert_ne!(p.p & FLAG_C, 0);
}

#[test]
fn sbc_binary_borrow() {
    let mut p = PcState::new();
    p.p = FLAG_C;
    p.a = 0x00;
    sbc(&mut p, 0x01);
    assert_eq!(p.a, 0xFF);
    assert_eq!(flags(&p), (true, false, false, false));
}

#[test]
fn sbc_decimal_wraps_below_zero() {
    let mut p = PcState::new();
    p.p = FLAG_D;
    let r = sub_carry(&mut p, 0x00, 0x01, 0);
    assert_eq!(r, 0x99);
    assert_eq!(p.p & FLAG_C, 0);
    assert_ne!(p.p & FLAG_N, 0);
}

#[test]
fn asl_of_0x80() {
    let mut p = PcState::new();
    let r = asl(&mut p, 0x80);
    assert_eq!(r, 0x00);
    assert_ne!(p.p & FLAG_C, 0);
    assert_ne!(p.p & FLAG_Z, 0);
}

#[test]
fn shifts_and_rotates() {
    let mut p = PcState::new();
    assert_eq!(lsr(&mut p, 0x03), 0x01);
    assert_ne!(p.p & FLAG_C, 0);
    assert_eq!(rol(&mut p, 0x80), 0x01);
    assert_ne!(p.p & FLAG_C, 0);
    assert_eq!(ror(&mut p, 0x02), 0x81);
    assert_eq!(p.p & FLAG_C, 0);
    assert_ne!(p.p & FLAG_N, 0);
}

#[test]
fn cmp_equal_values() {
    let mut p = PcState::new();
    p.a = 0x50;
    cmp(&mut p, 0x50);
    assert_ne!(p.p & FLAG_Z, 0);
    assert_ne!(p.p & FLAG_C, 0);
    assert_eq!(p.p & FLAG_N, 0);
}

fn branch_cost(offset: u8, taken: bool) -> (u64, u16) {
    let mut rom = vec![0u8; 4096];
    rom[0x0F1] = offset;
    let memory = memory_with(rom);
    let mut clock = Clock::new();
    let mut p = PcState::new();
    p.pc = 0x10F0;
    p.p = if taken { 0 } else { FLAG_Z };
    branch_instruction(&mut clock, &mut p, &memory, 0x02, 0x00);
    (clock.ticks, p.pc)
}

#[test]
fn branch_across_page_costs_two_more_cycles() {
    let (not_taken, pc0) = branch_cost(0x20, false);
    assert_eq!(pc0, 0x10F2);
    assert_eq!(not_taken, 6);
    let (same_page, pc1) = branch_cost(0x02, true);
    assert_eq!(pc1, 0x10F4);
    assert_eq!(same_page, 9);
    let (crossing, pc2) = branch_cost(0x20, true);
    assert_eq!(pc2, 0x1112);
    assert_eq!(crossing - not_taken, 2 * 3);
}

#[test]
fn branch_backwards() {
    let (_, pc) = branch_cost(0xFC, true);
    assert_eq!(pc, 0x10EE);
}

#[test]
fn reset_vector_loads_pc() {
    let mut rom = vec![0u8; 4096];
    rom[0xFFC] = 0x34;
    rom[0xFFD] = 0x12;
    let mut core = Core::new(Clock::new(), memory_with(rom), PcState::new());
    core.reset();
    assert_eq!(core.pc_state.pc, 0x1234);
}

#[test]
fn pha_then_pla_restores_a() {
    let mut memory = memory_with(vec![0u8; 4096]);
    let mut clock = Clock::new();
    let mut p = PcState::new();
    p.a = 0x42;
    pha_instruction(&mut clock, &mut p, &mut memory);
    assert_eq!(p.s, 0xFE);
    p.a = 0;
    pla_instruction(&mut clock, &mut p, &mut memory);
    assert_eq!(p.a, 0x42);
    assert_eq!(p.s, 0xFF);
    assert_eq!(clock.ticks, 9 + 12);
}

#[test]
fn php_then_plp_restores_p() {
    let mut memory = memory_with(vec![0u8; 4096]);
    let mut clock = Clock::new();
    let mut p = PcState::new();
    p.p = 0xC3;
    php_instruction(&mut clock, &mut p, &mut memory);
    assert_eq!(memory.riot.ram[0x7F], 0xF3);
    p.p = 0x00;
    plp_instruction(&mut clock, &mut p, &mut memory);
    assert_eq!(p.p, 0xC3);
    assert_eq!(p.s, 0xFF);
}

#[test]
fn php_pushes_bit_5() {
    let mut memory = memory_with(vec![0u8; 4096]);
    let mut clock = Clock::new();
    let mut p = PcState::new();
    p.p = 0x00;
    php_instruction(&mut clock, &mut p, &mut memory);
    assert_ne!(memory.riot.ram[0x7F] & 0x20, 0);
}

#[test]
fn program_runs_lda_sta_jmp() {
    // F000: LDA #$5A; STA $80; JSR $F010; JMP $F000 ... F010: INX; RTS
    let mut rom = vec![0xEAu8; 4096];
    let program = [0xA9, 0x5A, 0x85, 0x80, 0x20, 0x10, 0xF0, 0x4C, 0x00, 0xF0];
    rom[..program.len()].copy_from_slice(&program);
    rom[0x010] = 0xE8;
    rom[0x011] = 0x60;
    rom[0xFFC] = 0x00;
    rom[0xFFD] = 0xF0;
    let mut core = Core::new(Clock::new(), memory_with(rom), PcState::new());
    core.reset();
    for _ in 0..6 {
        core.step().unwrap();
    }
    assert_eq!(core.pc_state.a, 0x5A);
    assert_eq!(core.memory.riot.ram[0], 0x5A);
    assert_eq!(core.pc_state.x, 1);
    assert_eq!(core.pc_state.pc, 0xF000);
    assert_eq!(core.pc_state.s, 0xFF);
    // 2 + 3 + 6 + 2 + 6 + 3 cycles
    assert_eq!(core.clock.ticks, 3 * 22);
}

#[test]
fn unimplemented_opcode_is_an_error() {
    let mut memory = memory_with(vec![0u8; 4096]);
    let mut clock = Clock::new();
    let mut p = PcState::new();
    let r = Instruction::execute(0x02, &mut clock, &mut memory, &mut p);
    assert_eq!(r, Err(CpuError::UnimplementedOpcode(0x02)));
    assert_eq!(clock.ticks, 0);
}

#[test]
fn brk_pushes_and_vectors() {
    let mut rom = vec![0u8; 4096];
    rom[0xFFE] = 0x00;
    rom[0xFFF] = 0xF8;
    let mut memory = memory_with(rom);
    let mut clock = Clock::new();
    let mut p = PcState::new();
    p.pc = 0xF123;
    p.p = 0x01;
    Instruction::execute(0x00, &mut clock, &mut memory, &mut p).unwrap();
    assert_eq!(p.pc, 0xF800);
    assert_eq!(p.s, 0xFC);
    assert_eq!(memory.riot.ram[0x7F], 0xF1);
    assert_eq!(memory.riot.ram[0x7E], 0x25);
    assert_eq!(memory.riot.ram[0x7D], 0x31);
    assert_eq!(clock.ticks, 21);
    Instruction::execute(0x40, &mut clock, &mut memory, &mut p).unwrap();
    assert_eq!(p.pc, 0xF125);
    assert_eq!(p.s, 0xFF);
    assert_eq!(p.p, 0x01);
}

#[test]
fn stack_below_0x80_is_ram_too() {
    let mut memory = memory_with(vec![0u8; 4096]);
    let mut clock = Clock::new();
    let mut p = PcState::new();
    p.s = 0x02;
    p.a = 0x99;
    pha_instruction(&mut clock, &mut p, &mut memory);
    assert_eq!(clock.ticks, 9);
    assert_eq!(memory.riot.ram[0x02], 0x99);
    p.a = 0;
    pla_instruction(&mut clock, &mut p, &mut memory);
    assert_eq!(p.a, 0x99);
    assert_eq!(p.s, 0x02);
}

#[test]
fn jsr_then_rts_with_low_stack() {
    let mut rom = vec![0xEAu8; 4096];
    rom[0x000] = 0x20;
    rom[0x001] = 0x00;
    rom[0x002] = 0xF1;
    rom[0x100] = 0x60;
    let mut memory = memory_with(rom);
    let mut clock = Clock::new();
    let mut p = PcState::new();
    p.pc = 0xF000;
    p.s = 0x05;
    Instruction::execute(0x20, &mut clock, &mut memory, &mut p).unwrap();
    assert_eq!(p.pc, 0xF100);
    assert_eq!(clock.ticks, 18);
    Instruction::execute(0x60, &mut clock, &mut memory, &mut p).unwrap();
    assert_eq!(p.pc, 0xF003);
    assert_eq!(p.s, 0x05);
    assert_eq!(clock.ticks, 36);
}
