use vstd::prelude::*;
use crate::addressing::word;
use crate::clocks::{Clock, CLOCK_LIMIT};
use crate::instructions::{decode_spec, executed, CpuError, Instruction};
use crate::memory::{mem_read, Memory};
use crate::pc_state::PcState;
use crate::stella::{frame_byte, Stella, FRAME_BYTES};

verus! {

/// The machine: clock, CPU registers and the memory bus with its devices.
pub struct Core {
    pub clock: Clock,
    pub memory: Memory,
    pub pc_state: PcState,
}

impl Core {
    pub const PROGRAM_ENTRY_ADDR: u16 = 0xFFFC;

    pub open spec fn wf(&self) -> bool {
        self.memory.wf()
    }

    pub fn new(clock: Clock, memory: Memory, pc_state: PcState) -> (r: Self)
        requires
            memory.wf(),
        ensures
            r.wf(),
            r == (Core { clock, memory, pc_state }),
    {
        Core { clock, memory, pc_state }
    }

    /// Loads PC from the reset vector at 0xFFFC (little-endian).
    pub fn reset(&mut self)
        requires
            old(self).wf(),
        ensures
            final(self).wf(),
            *final(self) == (Core {
                pc_state: PcState {
                    pc: word(old(self).memory, old(self).clock.ticks, 0xFFFC, 0xFFFD),
                    ..old(self).pc_state
                },
                ..*old(self)
            }),
    {
        let pc = self.memory.read16(&self.clock, Core::PROGRAM_ENTRY_ADDR);
        self.pc_state.set_pc(pc);
    }

    /// Fetches the opcode at PC, executes it, and brings the audio up to the
    /// clock. An opcode outside the table stops the machine unchanged.
    pub fn step(&mut self) -> (r: Result<(), CpuError>)
        requires
            old(self).wf(),
            old(self).clock.ticks < CLOCK_LIMIT,
        ensures
            final(self).wf(),
            old(self).clock.ticks <= final(self).clock.ticks <= old(self).clock.ticks + 1000,
            r.is_err() <==> decode_spec(mem_read(old(self).memory, old(self).clock.ticks, old(self).pc_state.pc)).is_none(),
            r.is_err() ==> *final(self) == *old(self),
            r.is_ok() ==> exists|nm: Memory|
                {
                    &&& executed(
                        decode_spec(mem_read(old(self).memory, old(self).clock.ticks, old(self).pc_state.pc)).unwrap(),
                        old(self).pc_state,
                        old(self).memory,
                        old(self).clock.ticks,
                        final(self).pc_state,
                        nm,
                        final(self).clock.ticks,
                    )
                    &&& final(self).memory == (Memory {
                        stella: Stella { tiasound: final(self).memory.stella.tiasound, ..nm.stella },
                        ..nm
                    })
                    &&& final(self).memory.stella.tiasound.generated_from(nm.stella.tiasound, final(self).clock.ticks)
                },
    {
        let op_code = self.memory.read(&self.clock, self.pc_state.get_pc());
        let r = Instruction::execute(op_code, &mut self.clock, &mut self.memory, &mut self.pc_state);
        if r.is_ok() {
            let ghost nm = self.memory;
            self.memory.stella.step_tia_sound(&self.clock);
            proof {
                assert(self.memory == (Memory { stella: Stella { tiasound: self.memory.stella.tiasound, ..nm.stella }, ..nm }));
                assert(executed(
                    decode_spec(mem_read(old(self).memory, old(self).clock.ticks, old(self).pc_state.pc)).unwrap(),
                    old(self).pc_state,
                    old(self).memory,
                    old(self).clock.ticks,
                    self.pc_state,
                    nm,
                    self.clock.ticks,
                ));
                assert(self.memory.stella.tiasound.generated_from(nm.stella.tiasound, self.clock.ticks));
            }
        }
        r
    }

    /// Writes the current frame into a host buffer, four bytes per pixel.
    pub fn generate_display(&self, buffer: &mut Vec<u8>)
        requires
            self.wf(),
            old(buffer)@.len() == FRAME_BYTES,
        ensures
            final(buffer)@.len() == FRAME_BYTES,
            forall|i: int| 0 <= i < FRAME_BYTES ==> final(buffer)@[i] == frame_byte(self.memory.stella, i),
    {
        self.memory.stella.generate_display(buffer);
    }
}

} // verus!
