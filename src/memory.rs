use vstd::prelude::*;
use crate::cartridge::Cartridge;
use crate::clocks::Clock;
use crate::riot::{riot_read, riot_written, Riot};
use crate::stella::{read_value, tia_write, Stella};

verus! {

/// Where the bus routes an access, with the address the device sees.
pub enum Target {
    Tia(u16),
    Riot(u16),
    Rom(u16),
    Unmapped,
}

/// Address lines A0..A12 are the only ones connected.
pub open spec fn decoded_lines(address: u16) -> u16 {
    address & 0x1FFF
}

/// Routing of a read: cartridge when A12 is set, then the stack page and
/// RIOT (RAM, ports, timer), then the TIA.
pub open spec fn read_target(address: u16) -> Target {
    let a = decoded_lines(address);
    if a & 0x1000 == 0x1000 {
        Target::Rom(a)
    } else if 0x100 <= a < 0x200 {
        Target::Riot(a)
    } else if a & 0xDC80 == 0x80 {
        Target::Riot(a & 0x037F)
    } else if a & 0xFE80 == 0 {
        Target::Tia(a & 0x017F)
    } else {
        Target::Rom(a & 0xD000)
    }
}

/// Routing of a write: the stack page, TIA, RIOT, cartridge; anything else
/// is ignored.
pub open spec fn write_target(address: u16) -> Target {
    let a = decoded_lines(address);
    if 0x100 <= a < 0x200 {
        Target::Riot(a)
    } else if (a & 0xFFEF) & 0xFE80 == 0 {
        Target::Tia(a & 0x017F)
    } else if a & 0xDC80 == 0x80 {
        Target::Riot(a & 0x037F)
    } else if a & 0x1000 == 0x1000 {
        Target::Rom(a)
    } else {
        Target::Unmapped
    }
}

/// The address decoder joining the cartridge, the TIA and the RIOT.
pub struct Memory {
    pub cartridge: Cartridge,
    pub stella: Stella,
    pub riot: Riot,
}

/// What a read of `address` at clock `ticks` returns.
#[verifier::opaque]
pub open spec fn mem_read(m: Memory, ticks: u64, address: u16) -> u8 {
    match read_target(address) {
        Target::Rom(a) => m.cartridge.byte_at(a),
        Target::Riot(a) => riot_read(m.riot, ticks, a),
        Target::Tia(a) => read_value(m.stella, ticks, a),
        Target::Unmapped => 0,
    }
}

/// `n` and the clock value `nt` are what a write of `data` to `address` at
/// clock `t` leaves of `o`.
#[verifier::opaque]
pub open spec fn mem_written(o: Memory, n: Memory, t: u64, nt: u64, address: u16, data: u8) -> bool {
    match write_target(address) {
        Target::Tia(a) => n == Memory { stella: n.stella, ..o } && tia_write(o.stella, n.stella, t, nt, a, data),
        Target::Riot(a) => n == Memory { riot: n.riot, ..o } && riot_written(o.riot, n.riot, t, a, data) && nt == t && n.riot.wf(),
        _ => n == o && nt == t,
    }
}

/// The stack byte at `0x100 + s`, which lives in RIOT RAM.
pub open spec fn stack_byte(m: Memory, s: u8) -> u8 {
    m.riot.ram@[(s % 128) as int]
}

proof fn lemma_stack_address(s: u16)
    requires
        s < 256,
    ensures
        ((s + 0x100) as u16) & 0x1FFF == (s + 0x100) as u16,
        ((s + 0x100) as u16) & 0x1000 != 0x1000,
        ((s + 0x100) as u16) & 0x200 == 0,
{
    let a: u16 = (s + 0x100) as u16;
    assert(a & 0x1FFF == a) by (bit_vector)
        requires a == s + 0x100, s < 256;
    assert(a & 0x1000 != 0x1000) by (bit_vector)
        requires a == s + 0x100, s < 256;
    assert(a & 0x200 == 0) by (bit_vector)
        requires a == s + 0x100, s < 256;
}

/// The whole stack page addresses RIOT RAM, at `s % 128`.
pub proof fn lemma_stack_routing(m: Memory, ticks: u64, s: u8)
    ensures
        mem_read(m, ticks, (s + 0x100) as u16) == stack_byte(m, s),
        write_target((s + 0x100) as u16) == Target::Riot((s + 0x100) as u16),
        ((s + 0x100) as u16) & 0x200 == 0,
        ((s + 0x100) as u16) % 128 == s % 128,
{
    reveal(mem_read);
    lemma_stack_address(s as u16);
}

/// A write to the stack byte at `0x100 + s` changes that RAM byte alone.
pub proof fn lemma_ram_push(m: Memory, nm: Memory, t: u64, nt: u64, s: u8, v: u8)
    requires
        mem_written(m, nm, t, nt, (s + 0x100) as u16, v),
    ensures
        nt == t,
        nm == (Memory { riot: nm.riot, ..m }),
        nm.riot == (Riot { ram: nm.riot.ram, ..m.riot }),
        nm.riot.ram@ == m.riot.ram@.update((s % 128) as int, v),
{
    reveal(mem_written);
    lemma_stack_routing(m, t, s);
}

/// Address lines above A12 are ignored by reads and writes alike.
pub proof fn lemma_upper_lines_ignored(m: Memory, ticks: u64, address: u16)
    ensures
        mem_read(m, ticks, address) == mem_read(m, ticks, address & 0x1FFF),
        write_target(address) == write_target(address & 0x1FFF),
{
    reveal(mem_read);
    assert((address & 0x1FFF) & 0x1FFF == address & 0x1FFF) by (bit_vector);
}

impl Memory {
    pub const STELLA_MASK: u16 = 0xFE80;
    pub const STELLA_ADDR: u16 = 0x0;
    pub const STACK_OFFSET: u16 = 0x100;
    pub const STACK_LENGTH: u16 = 0x100;
    pub const RIOT_MASK: u16 = 0xDC80;
    pub const RIOT_ADDR: u16 = 0x80;
    pub const ROM_MASK: u16 = 0xD000;
    pub const ROM_ADDRLINE: u16 = 0x1000;

    pub open spec fn wf(&self) -> bool {
        self.cartridge.wf() && self.stella.wf() && self.riot.wf()
    }

    pub fn new(cartridge: Cartridge, stella: Stella, riot: Riot) -> (r: Self)
        requires
            cartridge.wf(),
            stella.wf(),
            riot.wf(),
        ensures
            r.wf(),
            r == (Memory { cartridge, stella, riot }),
    {
        Memory { cartridge, stella, riot }
    }

    /// Puts in another cartridge.
    pub fn reset(&mut self, cartridge: Cartridge)
        requires
            cartridge.wf(),
            old(self).wf(),
        ensures
            final(self).wf(),
            *final(self) == (Memory { cartridge, ..*old(self) }),
    {
        self.cartridge = cartridge;
    }

    pub fn write(&mut self, clock: &mut Clock, address: u16, data: u8)
        requires
            old(self).wf(),
        ensures
            final(self).wf(),
            mem_written(*old(self), *final(self), old(clock).ticks, final(clock).ticks, address, data),
            final(clock).ticks >= old(clock).ticks,
            final(clock).ticks <= old(clock).ticks + 228,
    {
        proof {
            reveal(mem_written);
        }
        // Only address lines A0..A12 are connected, higher bits ignored.
        let a = address & 0x1FFF;
        if Memory::STACK_OFFSET <= a && a < Memory::STACK_OFFSET + Memory::STACK_LENGTH {
            self.riot.write(clock, a, data);
        } else if ((a & 0xFFEF) & Memory::STELLA_MASK) == Memory::STELLA_ADDR {
            self.stella.write(clock, a & 0x017F, data);
        } else if (a & Memory::RIOT_MASK) == Memory::RIOT_ADDR {
            self.riot.write(clock, a & 0x037F, data);
        } else if (a & Memory::ROM_ADDRLINE) == Memory::ROM_ADDRLINE {
            self.cartridge.write(a, data);
        }
    }

    pub fn read(&self, clock: &Clock, address: u16) -> (r: u8)
        requires
            self.wf(),
        ensures
            r == mem_read(*self, clock.ticks, address),
    {
        proof {
            reveal(mem_read);
        }
        // Only address lines A0..A12 are connected, higher bits ignored.
        let a = address & 0x1FFF;
        if (a & Memory::ROM_ADDRLINE) == Memory::ROM_ADDRLINE {
            return self.cartridge.read(a);
        }
        if Memory::STACK_OFFSET <= a && a < Memory::STACK_OFFSET + Memory::STACK_LENGTH {
            return self.riot.read(clock, a);
        }
        if (a & Memory::RIOT_MASK) == Memory::RIOT_ADDR {
            return self.riot.read(clock, a & 0x037F);
        }
        if (a & Memory::STELLA_MASK) == Memory::STELLA_ADDR {
            return self.stella.read(clock, a & 0x017F);
        }
        self.cartridge.read(a & Memory::ROM_MASK)
    }

    /// Little-endian word at `address` (the high byte from the next address,
    /// wrapping at 16 bits).
    pub fn read16(&self, clock: &Clock, address: u16) -> (r: u16)
        requires
            self.wf(),
        ensures
            r == mem_read(*self, clock.ticks, address) + 256 * mem_read(*self, clock.ticks, address.wrapping_add(1)),
    {
        self.read(clock, address) as u16 + (self.read(clock, address.wrapping_add(1)) as u16) * 256
    }

    pub fn read_sp(&self, clock: &Clock, address: u8) -> (r: u8)
        requires
            self.wf(),
        ensures
            r == mem_read(*self, clock.ticks, (address + 0x100) as u16),
    {
        self.read(clock, address as u16 + Memory::STACK_LENGTH)
    }

    pub fn write_sp(&mut self, clock: &mut Clock, address: u8, data: u8)
        requires
            old(self).wf(),
        ensures
            final(self).wf(),
            mem_written(*old(self), *final(self), old(clock).ticks, final(clock).ticks, (address + 0x100) as u16, data),
            final(clock).ticks >= old(clock).ticks,
            final(clock).ticks <= old(clock).ticks + 228,
    {
        self.write(clock, address as u16 + Memory::STACK_LENGTH, data);
    }
}

} // verus!
