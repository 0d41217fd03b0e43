//! Operand widths: how a value of 8 or of 16 bits is read from the bus, written
//! to it, taken from a register and put into one.

use vstd::prelude::*;
use crate::cpu::{ram_cell, ram_index, Machine, CPU};
use crate::fault::Fault;
use crate::mapper::Mapper;

verus! {

/// The low eight bits of a 16-bit value.
pub open spec fn low_byte(value: u16) -> u8 {
    (value % 256) as u8
}

/// The high eight bits of a 16-bit value.
pub open spec fn high_byte(value: u16) -> u8 {
    (value / 256) as u8
}

/// The 16-bit value with the given low and high bytes.
pub open spec fn word(low: u8, high: u8) -> u16 {
    (high * 256 + low) as u16
}

/// The address after `address` in its bank; the last is followed by the first.
pub open spec fn next_address(address: u16) -> u16 {
    if address == 0xFFFF {
        0
    } else {
        (address + 1) as u16
    }
}

/// An operand: a byte where the register it is meant for is 8 bits wide, a
/// word where it is 16 bits wide.
#[derive(Clone, Copy, Debug, PartialEq, Eq, Structural)]
pub enum Operand {
    Byte(u8),
    Word(u16),
}

/// What a one-byte read at `(bank, address)` gives: the RAM cell where the
/// place names one, else the cartridge's byte.
pub open spec fn load_byte<M: Mapper>(machine: Machine<M>, bank: u8, address: u16) -> Result<
    u8,
    Fault,
> {
    match ram_cell(bank, address) {
        Some(cell) => Ok(machine.ram[cell]),
        None => match machine.mapper.peek(bank, address) {
            Some(byte) => Ok(byte),
            None => Err(Fault::Unmapped { bank, address }),
        },
    }
}

/// What a two-byte read gives: the low byte from `address`, the high byte from
/// the address after it in the same bank.
pub open spec fn load_word<M: Mapper>(machine: Machine<M>, bank: u8, address: u16) -> Result<
    u16,
    Fault,
> {
    match load_byte(machine, bank, address) {
        Ok(low) => match load_byte(machine, bank, next_address(address)) {
            Ok(high) => Ok(word(low, high)),
            Err(fault) => Err(fault),
        },
        Err(fault) => Err(fault),
    }
}

/// What a read of the given width gives.
pub open spec fn load<M: Mapper>(
    machine: Machine<M>,
    sixteen_bits: bool,
    bank: u8,
    address: u16,
) -> Result<Operand, Fault> {
    if sixteen_bits {
        match load_word(machine, bank, address) {
            Ok(value) => Ok(Operand::Word(value)),
            Err(fault) => Err(fault),
        }
    } else {
        match load_byte(machine, bank, address) {
            Ok(value) => Ok(Operand::Byte(value)),
            Err(fault) => Err(fault),
        }
    }
}

/// The machine after a one-byte write at `(bank, address)`, and whether the
/// write went through. A write that the cartridge refuses changes nothing.
pub open spec fn store_byte<M: Mapper>(
    machine: Machine<M>,
    bank: u8,
    address: u16,
    value: u8,
) -> (Machine<M>, Result<(), Fault>) {
    match ram_cell(bank, address) {
        Some(cell) => (Machine { ram: machine.ram.update(cell, value), ..machine }, Ok(())),
        None => match machine.mapper.poke(bank, address, value) {
            Some(mapper) => (Machine { mapper: mapper, ..machine }, Ok(())),
            None => (machine, Err(Fault::WriteRefused { bank, address, value })),
        },
    }
}

/// The machine after a two-byte write: the low byte goes to `address`, then
/// the high byte to the address after it in the same bank. Where the first
/// write is refused the second is not made.
pub open spec fn store_word<M: Mapper>(
    machine: Machine<M>,
    bank: u8,
    address: u16,
    value: u16,
) -> (Machine<M>, Result<(), Fault>) {
    let first = store_byte(machine, bank, address, low_byte(value));
    if first.1.is_ok() {
        store_byte(first.0, bank, next_address(address), high_byte(value))
    } else {
        first
    }
}

/// The machine after a write of the operand's width.
pub open spec fn store<M: Mapper>(
    machine: Machine<M>,
    bank: u8,
    address: u16,
    value: Operand,
) -> (Machine<M>, Result<(), Fault>) {
    match value {
        Operand::Byte(byte) => store_byte(machine, bank, address, byte),
        Operand::Word(both) => store_word(machine, bank, address, both),
    }
}

/// What a register that holds `value` shows at the given width: its low byte,
/// or all of it.
pub open spec fn shown(sixteen_bits: bool, value: u16) -> Operand {
    if sixteen_bits {
        Operand::Word(value)
    } else {
        Operand::Byte(low_byte(value))
    }
}

/// What a register that holds `value` holds once `to` is put into it: a byte
/// replaces the low byte and leaves the high byte, a word replaces both.
pub open spec fn merged(value: u16, to: Operand) -> u16 {
    match to {
        Operand::Byte(byte) => word(byte, high_byte(value)),
        Operand::Word(both) => both,
    }
}

/// An operand width. One implementation serves the 8-bit operands, one the
/// 16-bit operands, so that each instruction is written once for both.
pub trait BitWidth: Sized {
    /// Whether values of this type are 16 bits wide.
    spec fn sixteen_bits() -> bool;

    /// The value as an operand.
    spec fn operand(self) -> Operand;

    /// The value of this type that an operand of its width stands for.
    spec fn of(operand: Operand) -> Self;

    fn read<M: Mapper>(cpu: &CPU<M>, bank: u8, address: u16) -> (value: Result<Self, Fault>)
        ensures
            value == match load(cpu@, Self::sixteen_bits(), bank, address) {
                Ok(operand) => Ok::<Self, Fault>(Self::of(operand)),
                Err(fault) => Err::<Self, Fault>(fault),
            },
    ;

    fn write<M: Mapper>(cpu: &mut CPU<M>, bank: u8, address: u16, value: Self) -> (done: Result<
        (),
        Fault,
    >)
        ensures
            (final(cpu)@, done) == store(old(cpu)@, bank, address, value.operand()),
    ;

    fn get(value: u16) -> (part: Self)
        ensures
            part == Self::of(shown(Self::sixteen_bits(), value)),
    ;

    fn set(value: &mut u16, to: Self)
        ensures
            *final(value) == merged(*old(value), to.operand()),
    ;
}

/// A read's outcome as a value of type `T`.
pub open spec fn narrowed<T: BitWidth>(outcome: Result<Operand, Fault>) -> Result<T, Fault> {
    match outcome {
        Ok(operand) => Ok(T::of(operand)),
        Err(fault) => Err(fault),
    }
}

impl BitWidth for u8 {
    open spec fn sixteen_bits() -> bool {
        false
    }

    open spec fn operand(self) -> Operand {
        Operand::Byte(self)
    }

    open spec fn of(operand: Operand) -> u8 {
        match operand {
            Operand::Byte(byte) => byte,
            Operand::Word(both) => low_byte(both),
        }
    }

    fn read<M: Mapper>(cpu: &CPU<M>, bank: u8, address: u16) -> (value: Result<u8, Fault>) {
        match ram_index(bank, address) {
            Some(cell) => Ok(cpu.ram[cell]),
            None => match cpu.mapper.read(bank, address) {
                Some(byte) => Ok(byte),
                None => Err(Fault::Unmapped { bank, address }),
            },
        }
    }

    fn write<M: Mapper>(cpu: &mut CPU<M>, bank: u8, address: u16, value: u8) -> (done: Result<
        (),
        Fault,
    >) {
        match ram_index(bank, address) {
            Some(cell) => {
                cpu.ram[cell] = value;
                Ok(())
            },
            None => {
                if cpu.mapper.write(bank, address, value) {
                    Ok(())
                } else {
                    Err(Fault::WriteRefused { bank, address, value })
                }
            },
        }
    }

    fn get(value: u16) -> (part: u8) {
        assert(value as u8 == (value % 256) as u8) by (bit_vector);
        value as u8
    }

    fn set(value: &mut u16, to: u8) {
        let before: u16 = *value;
        assert(((before & 0xFF00) | to as u16) == ((before / 256) as u8 * 256 + to) as u16)
            by (bit_vector);
        *value = (*value & 0xFF00) | to as u16;
    }
}

impl BitWidth for u16 {
    open spec fn sixteen_bits() -> bool {
        true
    }

    open spec fn operand(self) -> Operand {
        Operand::Word(self)
    }

    open spec fn of(operand: Operand) -> u16 {
        match operand {
            Operand::Byte(byte) => byte as u16,
            Operand::Word(both) => both,
        }
    }

    fn read<M: Mapper>(cpu: &CPU<M>, bank: u8, address: u16) -> (value: Result<u16, Fault>) {
        let a: u8 = <u8 as BitWidth>::read(cpu, bank, address)?;
        let b: u8 = <u8 as BitWidth>::read(cpu, bank, address.wrapping_add(1))?;
        assert((a as u16 | ((b as u16) << 8)) == (b * 256 + a) as u16) by (bit_vector);
        Ok(a as u16 | ((b as u16) << 8))
    }

    fn write<M: Mapper>(cpu: &mut CPU<M>, bank: u8, address: u16, value: u16) -> (done: Result<
        (),
        Fault,
    >) {
        assert(value as u8 == (value % 256) as u8) by (bit_vector);
        assert((value >> 8) as u8 == (value / 256) as u8) by (bit_vector);
        <u8 as BitWidth>::write(cpu, bank, address, value as u8)?;
        <u8 as BitWidth>::write(cpu, bank, address.wrapping_add(1), (value >> 8) as u8)
    }

    fn get(value: u16) -> (part: u16) {
        value
    }

    fn set(value: &mut u16, to: u16) {
        *value = to;
    }
}

} // verus!
