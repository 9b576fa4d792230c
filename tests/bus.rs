use atari2600::cartridge::{Cartridge, CartridgeError};
use atari2600::clocks::Clock;
use atari2600::display::Colours;
use atari2600::memory::Memory;
use atari2600::riot::Riot;
use atari2600::stella::Stella;

fn memory_with(rom: Vec<u8>) -> Memory {
    Memory::new(Cartridge::new(rom).unwrap(), Stella::new(false, true, Colours::new()), Riot::new())
}

#[test]
fn cartridge_sizes() {
    assert!(Cartridge::new(vec![0; 4096]).is_ok());
    assert!(Cartridge::new(vec![0; 2048]).is_ok());
    assert_eq!(Cartridge::new(vec![0; 100]).err(), Some(CartridgeError::UnsupportedSize));
}

#[test]
fn rom_is_mirrored() {
    let mut rom = vec![0u8; 2048];
    rom[0x7FC] = 0xAB;
    let memory = memory_with(rom);
    let clock = Clock::new();
    assert_eq!(memory.read(&clock, 0xFFFC), 0xAB);
    assert_eq!(memory.read(&clock, 0x17FC), 0xAB);
    assert_eq!(memory.read16(&clock, 0xF7FC), 0x00AB);
}

#[test]
fn ram_and_its_stack_mirror() {
    let mut memory = memory_with(vec![0u8; 4096]);
    let mut clock = Clock::new();
    memory.write(&mut clock, 0x80, 0x11);
    assert_eq!(memory.read(&clock, 0x80), 0x11);
    assert_eq!(memory.read(&clock, 0x180), 0x11);
    memory.write_sp(&mut clock, 0xFF, 0x22);
    assert_eq!(memory.read(&clock, 0xFF), 0x22);
    assert_eq!(memory.read_sp(&clock, 0xFF), 0x22);
}

#[test]
fn tia_writes_reach_the_tia() {
    let mut memory = memory_with(vec![0u8; 4096]);
    let mut clock = Clock::new();
    memory.write(&mut clock, 0x09, 0x1C);
    assert_eq!(memory.stella.next_line.background_colour, 0x0E);
    memory.write(&mut clock, 0x49, 0x20);
    assert_eq!(memory.stella.next_line.background_colour, 0x10);
}

#[test]
fn riot_timer_counts_down() {
    let mut memory = memory_with(vec![0u8; 4096]);
    let mut clock = Clock::new();
    memory.write(&mut clock, 0x296, 10);
    clock.ticks = 3 * 64 * 3;
    assert_eq!(memory.read(&clock, 0x284), 7);
    clock.ticks = 3 * 64 * 11;
    assert_eq!(memory.read(&clock, 0x284), 0xFF);
}

#[test]
fn riot_ports() {
    let mut memory = memory_with(vec![0u8; 4096]);
    memory.riot.set_ports(0xEF, 0x0A);
    let clock = Clock::new();
    assert_eq!(memory.read(&clock, 0x280), 0xEF);
    assert_eq!(memory.read(&clock, 0x282), 0x0A);
}

#[test]
fn unmapped_write_is_ignored() {
    let mut memory = memory_with(vec![0u8; 4096]);
    let mut clock = Clock::new();
    memory.write(&mut clock, 0x0200, 0x55);
    assert_eq!(clock.ticks, 0);
}

#[test]
fn upper_address_lines_ignored() {
    let mut rom = vec![0u8; 4096];
    rom[0] = 5;
    let mut memory = memory_with(rom);
    let mut clock = Clock::new();
    assert_eq!(memory.read(&clock, 0x2100), memory.read(&clock, 0x0100));
    assert_eq!(memory.read(&clock, 0xF000), 5);
    assert_eq!(memory.read(&clock, 0x3000), 5);
    memory.write(&mut clock, 0xE080, 0x77);
    assert_eq!(memory.read(&clock, 0x0080), 0x77);
}
