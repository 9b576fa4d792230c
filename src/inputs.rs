use vstd::prelude::*;
use crate::stella::Input;

verus! {

/// Port values and TIA inputs for the host's joystick and console switches:
/// `(SWCHA, SWCHB, inputs)`. A pressed direction or switch pulls its bit
/// low; the fire button pulls INPT4 low.
pub fn console_inputs(right: bool, left: bool, down: bool, up: bool, reset: bool, select: bool, fire: bool) -> (r: (
    u8,
    u8,
    Input,
))
    ensures
        r.0 == 0xFF - (if right { 0x80int } else { 0 }) - (if left { 0x40int } else { 0 }) - (if down {
            0x20int
        } else {
            0
        }) - (if up { 0x10int } else { 0 }),
        r.1 == 0x0B - (if reset { 1int } else { 0 }) - (if select { 2int } else { 0 }),
        r.2 == (Input {
            input0: 0,
            input1: 0,
            input2: 0,
            input3: 0,
            input4: if fire { 0u8 } else { 0x80u8 },
            input5: 0x80,
        }),
{
    let mut swcha: u8 = 0xFF;
    if right {
        swcha = swcha - 0x80;
    }
    if left {
        swcha = swcha - 0x40;
    }
    if down {
        swcha = swcha - 0x20;
    }
    if up {
        swcha = swcha - 0x10;
    }
    let mut swchb: u8 = 0x0B;
    if reset {
        swchb = swchb - 1;
    }
    if select {
        swchb = swchb - 2;
    }
    let mut input = Input::new();
    if fire {
        input.input4 = 0;
    }
    (swcha, swchb, input)
}

} // verus!
