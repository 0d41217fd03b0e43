//! The instruction-execution core of a 65816-class processor: registers and
//! flags, a memory bus that routes between system RAM and a cartridge mapper,
//! width-aware operand access, and a step function that runs one instruction.

use vstd::prelude::*;

pub mod bitwidth;
pub mod buffer;
pub mod cpu;
pub mod fault;
pub mod flags;
pub mod instructions;
pub mod laws;
pub mod mapper;

use crate::bitwidth::load_byte;
use crate::buffer::PIXELS;
use crate::cpu::{blank_machine, reset_target, Machine, CPU};
use crate::fault::Fault;
use crate::instructions::stepped;
use crate::mapper::Mapper;

verus! {

/// Where in bank 0 the cartridge's title begins.
pub const TITLE_OFFSET: u16 = 0xFFC0;

/// Length of the cartridge's title, in bytes.
pub const TITLE_LENGTH: usize = 21;

/// Instructions run for one frame.
pub const STEPS_PER_FRAME: u32 = 1_000_000;

/// The machine after up to `steps` steps: it stops at the first fault, in the
/// state in which that step left it.
pub open spec fn ran<M: Mapper>(machine: Machine<M>, steps: nat) -> (Machine<M>, Result<(), Fault>)
    decreases steps,
{
    if steps == 0 {
        (machine, Ok(()))
    } else {
        let one = stepped(machine);
        if one.1.is_ok() {
            ran(one.0, (steps - 1) as nat)
        } else {
            one
        }
    }
}

/// The place of the title's byte `i`.
pub open spec fn title_address(i: int) -> u16 {
    (TITLE_OFFSET + i) as u16
}

/// An emulation session: one processor with its cartridge.
pub struct Emulator<M: Mapper> {
    cpu: CPU<M>,
}

impl<M: Mapper> View for Emulator<M> {
    type V = Machine<M>;

    closed spec fn view(&self) -> Machine<M> {
        self.cpu@
    }
}

impl<M: Mapper> Emulator<M> {
    /// A session on the given cartridge, with the processor reset. Fails where
    /// the cartridge has no reset vector.
    pub fn from_rom(mapper: M) -> (made: Result<Emulator<M>, Fault>)
        ensures
            match reset_target(mapper) {
                Ok(pc) => made.is_ok() && made.unwrap()@ == blank_machine(mapper).with_pc(pc),
                Err(fault) => made == Err::<Emulator<M>, Fault>(fault),
            },
    {
        match CPU::new(mapper) {
            Ok(cpu) => Ok(Emulator { cpu: cpu }),
            Err(fault) => Err(fault),
        }
    }

    /// The processor, for inspection.
    pub fn cpu(&self) -> (cpu: &CPU<M>)
        ensures
            cpu@ == self@,
    {
        &self.cpu
    }

    /// The cartridge's title as it stands in the header: raw bytes, padding
    /// included. Fails with the fault of the first byte that cannot be read.
    pub fn game_title(&self) -> (title: Result<[u8; TITLE_LENGTH], Fault>)
        ensures
            match title {
                Ok(bytes) => forall|i: int|
                    0 <= i < TITLE_LENGTH ==> load_byte(self@, 0x00, title_address(i)) == Ok::<
                        u8,
                        Fault,
                    >(#[trigger] bytes@[i]),
                Err(fault) => exists|i: int|
                    0 <= i < TITLE_LENGTH && #[trigger] load_byte(self@, 0x00, title_address(i))
                        == Err::<u8, Fault>(fault) && forall|j: int|
                        0 <= j < i ==> (#[trigger] load_byte(self@, 0x00, title_address(j))).is_ok(),
            },
    {
        let mut out: [u8; TITLE_LENGTH] = [0u8;TITLE_LENGTH];
        let mut i: usize = 0;
        while i < TITLE_LENGTH
            invariant
                i <= TITLE_LENGTH,
                forall|j: int|
                    0 <= j < i ==> load_byte(self@, 0x00, title_address(j)) == Ok::<u8, Fault>(
                        #[trigger] out@[j],
                    ),
                forall|j: int|
                    0 <= j < i ==> (#[trigger] load_byte(self@, 0x00, title_address(j))).is_ok(),
            decreases TITLE_LENGTH - i,
        {
            match self.cpu.read::<u8>(0x00, TITLE_OFFSET + i as u16) {
                Ok(byte) => {
                    out[i] = byte;
                },
                Err(fault) => {
                    assert(load_byte(self@, 0x00, title_address(i as int)) == Err::<u8, Fault>(
                        fault,
                    ));
                    return Err(fault);
                },
            }
            i += 1;
        }
        Ok(out)
    }

    /// Runs one frame: `STEPS_PER_FRAME` instructions, or fewer where one of
    /// them faults. No picture is drawn yet: the buffer is left as it was.
    pub fn run_frame(&mut self, buffer: &mut [u32; PIXELS]) -> (done: Result<(), Fault>)
        ensures
            (final(self)@, done) == ran(old(self)@, STEPS_PER_FRAME as nat),
            *final(buffer) == *old(buffer),
    {
        let mut i: u32 = 0;
        while i < STEPS_PER_FRAME
            invariant
                i <= STEPS_PER_FRAME,
                ran(old(self)@, STEPS_PER_FRAME as nat) == ran(self@, (STEPS_PER_FRAME - i) as nat),
            decreases STEPS_PER_FRAME - i,
        {
            match self.cpu.step() {
                Ok(()) => {},
                Err(fault) => {
                    return Err(fault);
                },
            }
            i += 1;
        }
        Ok(())
    }
}

} // verus!
