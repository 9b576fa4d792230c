use vstd::prelude::*;
use crate::clocks::Clock;

verus! {

/// The 6532 RIOT as the bus sees it: 128 bytes of RAM, the two I/O ports
/// (joystick and console switches) and the interval timer.
pub struct Riot {
    pub ram: Vec<u8>,
    pub swcha: u8,
    pub swchb: u8,
    pub timer_start: u64,
    pub timer_value: u8,
    pub timer_shift: u8,
}

/// Timer count read at `ticks`: it counts down once per `2^shift` CPU
/// cycles from `value`, then once per cycle from 0xFF.
pub open spec fn timer_count(r: Riot, ticks: u64) -> u8 {
    let e = if ticks >= r.timer_start {
        (ticks - r.timer_start) / 3
    } else {
        0
    };
    let period = if r.timer_shift == 0 {
        1int
    } else if r.timer_shift == 3 {
        8
    } else if r.timer_shift == 6 {
        64
    } else {
        1024
    };
    if e < (r.timer_value + 1) * period {
        (r.timer_value - e / period) as u8
    } else {
        ((255 - (e - (r.timer_value + 1) * period) % 256)) as u8
    }
}

/// Whether `address` (as the bus hands it over) selects the RAM.
pub open spec fn is_ram(address: u16) -> bool {
    address & 0x200 == 0
}

pub open spec fn riot_read(r: Riot, ticks: u64, address: u16) -> u8 {
    if is_ram(address) {
        r.ram@[(address % 128) as int]
    } else if address % 8 == 0 {
        r.swcha
    } else if address % 8 == 2 {
        r.swchb
    } else if address % 8 == 4 || address % 8 == 6 {
        timer_count(r, ticks)
    } else {
        0
    }
}

/// Timer period exponent selected by a write to TIM1T .. T1024T.
pub open spec fn timer_shift_of(address: u16) -> u8 {
    let k = address % 4;
    if k == 0 {
        0
    } else if k == 1 {
        3
    } else if k == 2 {
        6
    } else {
        10
    }
}

/// Whether a write to `address` sets the timer.
pub open spec fn is_timer_write(address: u16) -> bool {
    !is_ram(address) && address % 32 >= 0x14
}

pub open spec fn riot_written(o: Riot, n: Riot, ticks: u64, address: u16, data: u8) -> bool {
    if is_ram(address) {
        n == Riot { ram: n.ram, ..o } && n.ram@ == o.ram@.update((address % 128) as int, data)
    } else if is_timer_write(address) {
        n == Riot { timer_start: ticks, timer_value: data, timer_shift: timer_shift_of(address), ..o }
    } else {
        n == o
    }
}

impl Riot {
    pub open spec fn wf(&self) -> bool {
        &&& self.ram@.len() == 128
        &&& self.timer_shift == 0 || self.timer_shift == 3 || self.timer_shift == 6 || self.timer_shift == 10
    }

    pub fn new() -> (r: Self)
        ensures
            r.wf(),
            forall|i: int| 0 <= i < 128 ==> r.ram@[i] == 0,
            r.swcha == 0xFF && r.swchb == 0x0B,
    {
        let mut ram: Vec<u8> = Vec::new();
        let mut i: u8 = 0;
        while i < 128
            invariant
                i <= 128,
                ram@.len() == i,
                forall|j: int| 0 <= j < i ==> ram@[j] == 0,
            decreases 128 - i,
        {
            ram.push(0);
            i += 1;
        }
        Riot { ram, swcha: 0xFF, swchb: 0x0B, timer_start: 0, timer_value: 0, timer_shift: 10 }
    }

    /// Sets the port inputs (joystick directions and console switches).
    pub fn set_ports(&mut self, swcha: u8, swchb: u8)
        ensures
            *final(self) == (Riot { swcha, swchb, ..*old(self) }),
    {
        self.swcha = swcha;
        self.swchb = swchb;
    }

    fn intim(&self, clock: &Clock) -> (r: u8)
        requires
            self.timer_shift == 0 || self.timer_shift == 3 || self.timer_shift == 6 || self.timer_shift == 10,
        ensures
            r == timer_count(*self, clock.ticks),
    {
        let e: u64 = if clock.ticks >= self.timer_start {
            (clock.ticks - self.timer_start) / 3
        } else {
            0
        };
        let period: u64 = if self.timer_shift == 0 {
            1
        } else if self.timer_shift == 3 {
            8
        } else if self.timer_shift == 6 {
            64
        } else {
            1024
        };
        let span: u64 = (self.timer_value as u64 + 1) * period;
        if e < span {
            assert(e / period <= self.timer_value) by (nonlinear_arith)
                requires e < (self.timer_value + 1) * period, period >= 1;
            (self.timer_value as u64 - e / period) as u8
        } else {
            (255 - (e - span) % 256) as u8
        }
    }

    pub fn read(&self, clock: &Clock, address: u16) -> (r: u8)
        requires
            self.wf(),
        ensures
            r == riot_read(*self, clock.ticks, address),
    {
        if address & 0x200 == 0 {
            self.ram[(address % 128) as usize]
        } else if address % 8 == 0 {
            self.swcha
        } else if address % 8 == 2 {
            self.swchb
        } else if address % 8 == 4 || address % 8 == 6 {
            self.intim(clock)
        } else {
            0
        }
    }

    pub fn write(&mut self, clock: &Clock, address: u16, data: u8)
        requires
            old(self).wf(),
        ensures
            riot_written(*old(self), *final(self), clock.ticks, address, data),
            final(self).wf(),
    {
        if address & 0x200 == 0 {
            self.ram.set((address % 128) as usize, data);
        } else if address % 32 >= 0x14 {
            self.timer_start = clock.ticks;
            self.timer_value = data;
            self.timer_shift = match address % 4 {
                0 => 0,
                1 => 3,
                2 => 6,
                _ => 10,
            };
        }
    }
}

} // verus!
