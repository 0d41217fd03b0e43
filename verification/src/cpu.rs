//! The processor: its registers, its RAM, and the bus that decides which
//! places are RAM and which belong to the cartridge.

use vstd::prelude::*;
use crate::bitwidth::{load, load_word, narrowed, store, BitWidth};
use crate::fault::Fault;
use crate::flags::{Flags, FLAG_NO_IRQ};
use crate::instructions::{run_instruction, stepped};
use crate::mapper::Mapper;

verus! {

/// Bytes of system RAM: two banks of 64 KiB, one after the other.
pub const RAM_SIZE: usize = 0x2_0000;

/// Where in system RAM the second bank begins.
pub const HIGH_RAM_BASE: usize = 0x1_0000;

/// What every RAM cell holds before the program writes to it.
pub const RAM_FILL: u8 = 0x55;

/// Where in bank 0 the address lies at which execution begins.
pub const RESET_VECTOR: u16 = 0xFFFC;

/// The stack pointer after reset.
pub const RESET_STACK: u16 = 0x00FF;

/// The registers. `a`, `x` and `y` always store 16 bits; how many of them an
/// instruction sees goes by the width flags.
#[derive(Clone, Copy, Debug, PartialEq, Eq, Structural)]
pub struct Registers {
    pub a: u16,
    pub x: u16,
    pub y: u16,
    pub dp: u16,
    pub sp: u16,
    pub db: u8,
    pub pc: u16,
    pub pb: u8,
    pub flags: Flags,
}

/// A processor with its RAM and its cartridge.
pub struct CPU<M: Mapper> {
    pub registers: Registers,
    pub ram: [u8; RAM_SIZE],
    pub mapper: M,
}

/// The processor as contracts see it: the registers, the contents of RAM, and
/// the cartridge.
pub struct Machine<M> {
    pub registers: Registers,
    pub ram: Seq<u8>,
    pub mapper: M,
}

impl<M: Mapper> View for CPU<M> {
    type V = Machine<M>;

    open spec fn view(&self) -> Machine<M> {
        Machine { registers: self.registers, ram: self.ram@, mapper: self.mapper }
    }
}

/// The RAM cell that `(bank, address)` names, or `None` where the access goes
/// to the cartridge. The first 8 KiB of RAM show in banks 0x00 to 0x3F, all of
/// its first bank in bank 0x7E, all of its second in bank 0x7F.
pub open spec fn ram_cell(bank: u8, address: u16) -> Option<int> {
    if (bank <= 0x3F && address <= 0x1FFF) || bank == 0x7E {
        Some(address as int)
    } else if bank == 0x7F {
        Some(HIGH_RAM_BASE as int + address as int)
    } else {
        None
    }
}

/// The registers after reset, before the program counter is seeded.
pub open spec fn reset_registers() -> Registers {
    Registers {
        a: 0,
        x: 0,
        y: 0,
        dp: 0,
        sp: RESET_STACK,
        db: 0,
        pc: 0,
        pb: 0,
        flags: Flags { bits: FLAG_NO_IRQ },
    }
}

/// The machine that a cartridge is first plugged into.
pub open spec fn blank_machine<M: Mapper>(mapper: M) -> Machine<M> {
    Machine {
        registers: reset_registers(),
        ram: Seq::new(RAM_SIZE as nat, |i: int| RAM_FILL),
        mapper: mapper,
    }
}

/// The address at which execution begins, as the cartridge gives it.
pub open spec fn reset_target<M: Mapper>(mapper: M) -> Result<u16, Fault> {
    load_word(blank_machine(mapper), 0x00, RESET_VECTOR)
}

impl<M> Machine<M> {
    /// RAM holds as many cells as the processor has.
    pub open spec fn wf(self) -> bool {
        self.ram.len() == RAM_SIZE
    }

    /// The machine with the program counter at `pc`.
    pub open spec fn with_pc(self, pc: u16) -> Machine<M> {
        Machine { registers: Registers { pc: pc, ..self.registers }, ..self }
    }

    /// The machine with `a` in the accumulator.
    pub open spec fn with_a(self, a: u16) -> Machine<M> {
        Machine { registers: Registers { a: a, ..self.registers }, ..self }
    }

    /// The machine with the given flags.
    pub open spec fn with_flags(self, flags: Flags) -> Machine<M> {
        Machine { registers: Registers { flags: flags, ..self.registers }, ..self }
    }
}

/// The index into RAM of the cell that `(bank, address)` names, if it names
/// one.
pub fn ram_index(bank: u8, address: u16) -> (cell: Option<usize>)
    ensures
        cell.is_some() == ram_cell(bank, address).is_some(),
        cell matches Some(i) ==> ram_cell(bank, address) == Some(i as int) && i < RAM_SIZE,
{
    if (bank <= 0x3F && address <= 0x1FFF) || bank == 0x7E {
        Some(address as usize)
    } else if bank == 0x7F {
        Some(HIGH_RAM_BASE + address as usize)
    } else {
        None
    }
}

impl<M: Mapper> CPU<M> {
    /// A processor after reset: RAM filled with `RAM_FILL`, the stack pointer
    /// at `RESET_STACK`, interrupts disabled, and the program counter set from
    /// the reset vector. Fails where the cartridge has no reset vector.
    pub fn new(mapper: M) -> (made: Result<Self, Fault>)
        ensures
            match reset_target(mapper) {
                Ok(pc) => made.is_ok() && made.unwrap()@ == blank_machine(mapper).with_pc(pc),
                Err(fault) => made == Err::<Self, Fault>(fault),
            },
    {
        let mut cpu = CPU {
            ram: [RAM_FILL;RAM_SIZE],
            registers: Registers {
                a: 0,
                x: 0,
                y: 0,
                dp: 0,
                sp: RESET_STACK,
                db: 0,
                pc: 0,
                pb: 0,
                flags: Flags { bits: FLAG_NO_IRQ },
            },
            mapper: mapper,
        };
        assert(cpu@.ram =~= blank_machine(mapper).ram);
        match cpu.read::<u16>(0x00, RESET_VECTOR) {
            Ok(pc) => {
                cpu.registers.pc = pc;
                Ok(cpu)
            },
            Err(fault) => Err(fault),
        }
    }

    /// The machine that a processor stands for has all of its RAM.
    pub proof fn view_is_wf(&self)
        ensures
            self@.wf(),
    {
    }

    /// Reads a value of `T`'s width from `(bank, address)`.
    pub fn read<T: BitWidth>(&self, bank: u8, address: u16) -> (value: Result<T, Fault>)
        ensures
            value == narrowed::<T>(load(self@, T::sixteen_bits(), bank, address)),
    {
        T::read(self, bank, address)
    }

    /// Writes a value of `T`'s width to `(bank, address)`.
    pub fn write<T: BitWidth>(&mut self, bank: u8, address: u16, value: T) -> (done: Result<
        (),
        Fault,
    >)
        ensures
            (final(self)@, done) == store(old(self)@, bank, address, value.operand()),
    {
        T::write(self, bank, address, value)
    }

    /// Runs one instruction.
    pub fn step(&mut self) -> (done: Result<(), Fault>)
        ensures
            (final(self)@, done) == stepped(old(self)@),
    {
        run_instruction(self)
    }
}

} // verus!
