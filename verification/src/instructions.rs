//! Addressing modes and instructions, and the step that fetches an opcode and
//! runs its instruction.

use vstd::prelude::*;
use crate::bitwidth::{
    load, load_byte, merged, next_address, store, word, BitWidth, Operand,
};
use crate::cpu::{Machine, CPU};
use crate::fault::Fault;
use crate::flags::{Flags, FLAG_A16, FLAG_NO_IRQ};
use crate::mapper::Mapper;

verus! {

/// BRA: branch always, PC-relative.
pub const OP_BRA: u8 = 0x80;

/// LDA: load the accumulator, immediate.
pub const OP_LDA_IMMEDIATE: u8 = 0xA9;

/// LDA: load the accumulator, absolute.
pub const OP_LDA_ABSOLUTE: u8 = 0xAD;

/// SEI: set the interrupt-disable flag.
pub const OP_SEI: u8 = 0x78;

/// STZ: store zero to memory, absolute.
pub const OP_STZ_ABSOLUTE: u8 = 0x9C;

/// The opcodes that this core executes.
pub open spec fn implemented(opcode: u8) -> bool {
    opcode == OP_BRA || opcode == OP_LDA_IMMEDIATE || opcode == OP_LDA_ABSOLUTE || opcode == OP_SEI
        || opcode == OP_STZ_ABSOLUTE
}

/// Where a branch taken at `pc` with the given displacement byte lands: the
/// byte counts as a signed number, and the sum stays within the bank.
pub open spec fn branch_target(pc: u16, displacement: u8) -> u16 {
    let offset: int = if displacement < 0x80 {
        displacement as int
    } else {
        displacement as int - 0x100
    };
    ((pc as int + offset) % 0x1_0000) as u16
}

/// One byte taken from the instruction stream: the byte at the program
/// counter, which then moves on by one within its bank. Where there is no
/// byte the program counter stays.
pub open spec fn fetched<M: Mapper>(machine: Machine<M>) -> (Machine<M>, Result<u8, Fault>) {
    match load_byte(machine, machine.registers.pb, machine.registers.pc) {
        Ok(byte) => (machine.with_pc(next_address(machine.registers.pc)), Ok(byte)),
        Err(fault) => (machine, Err(fault)),
    }
}

/// Two bytes taken from the instruction stream, low byte first.
pub open spec fn fetched_word<M: Mapper>(machine: Machine<M>) -> (Machine<M>, Result<u16, Fault>) {
    let first = fetched(machine);
    match first.1 {
        Ok(low) => {
            let second = fetched(first.0);
            match second.1 {
                Ok(high) => (second.0, Ok(word(low, high))),
                Err(fault) => (second.0, Err(fault)),
            }
        },
        Err(fault) => (first.0, Err(fault)),
    }
}

/// An operand taken from the instruction stream itself: one byte, or two.
pub open spec fn immediate_operand<M: Mapper>(machine: Machine<M>, sixteen_bits: bool) -> (
    Machine<M>,
    Result<Operand, Fault>,
) {
    if sixteen_bits {
        let both = fetched_word(machine);
        match both.1 {
            Ok(value) => (both.0, Ok(Operand::Word(value))),
            Err(fault) => (both.0, Err(fault)),
        }
    } else {
        let one = fetched(machine);
        match one.1 {
            Ok(value) => (one.0, Ok(Operand::Byte(value))),
            Err(fault) => (one.0, Err(fault)),
        }
    }
}

/// An operand read from the data bank, at the address that the instruction
/// stream gives.
pub open spec fn absolute_operand<M: Mapper>(machine: Machine<M>, sixteen_bits: bool) -> (
    Machine<M>,
    Result<Operand, Fault>,
) {
    let place = fetched_word(machine);
    match place.1 {
        Ok(address) => (place.0, load(place.0, sixteen_bits, place.0.registers.db, address)),
        Err(fault) => (place.0, Err(fault)),
    }
}

/// A displacement byte taken from the instruction stream, and the branch made
/// where `when` holds.
pub open spec fn branched<M: Mapper>(machine: Machine<M>, when: bool) -> (
    Machine<M>,
    Result<(), Fault>,
) {
    let one = fetched(machine);
    match one.1 {
        Ok(displacement) => if when {
            (one.0.with_pc(branch_target(one.0.registers.pc, displacement)), Ok(()))
        } else {
            (one.0, Ok(()))
        },
        Err(fault) => (one.0, Err(fault)),
    }
}

/// The accumulator loaded with what an addressing mode gave.
pub open spec fn loaded<M: Mapper>(got: (Machine<M>, Result<Operand, Fault>)) -> (
    Machine<M>,
    Result<(), Fault>,
) {
    match got.1 {
        Ok(operand) => (got.0.with_a(merged(got.0.registers.a, operand)), Ok(())),
        Err(fault) => (got.0, Err(fault)),
    }
}

/// A zero of the given width.
pub open spec fn zero(sixteen_bits: bool) -> Operand {
    if sixteen_bits {
        Operand::Word(0)
    } else {
        Operand::Byte(0)
    }
}

/// A zero of the given width stored in the data bank, at the address that the
/// instruction stream gives.
pub open spec fn zeroed<M: Mapper>(machine: Machine<M>, sixteen_bits: bool) -> (
    Machine<M>,
    Result<(), Fault>,
) {
    let place = fetched_word(machine);
    match place.1 {
        Ok(address) => store(place.0, place.0.registers.db, address, zero(sixteen_bits)),
        Err(fault) => (place.0, Err(fault)),
    }
}

/// What the instruction with the given opcode does to a machine whose program
/// counter stands behind the opcode. The accumulator's width is the one that
/// the flags show when the instruction begins.
pub open spec fn executed<M: Mapper>(machine: Machine<M>, opcode: u8) -> (
    Machine<M>,
    Result<(), Fault>,
) {
    let sixteen_bits = machine.registers.flags.has(Flags { bits: FLAG_A16 });
    if opcode == OP_BRA {
        branched(machine, true)
    } else if opcode == OP_LDA_IMMEDIATE {
        loaded(immediate_operand(machine, sixteen_bits))
    } else if opcode == OP_LDA_ABSOLUTE {
        loaded(absolute_operand(machine, sixteen_bits))
    } else if opcode == OP_SEI {
        (machine.with_flags(machine.registers.flags.with(Flags { bits: FLAG_NO_IRQ })), Ok(()))
    } else if opcode == OP_STZ_ABSOLUTE {
        zeroed(machine, sixteen_bits)
    } else {
        (machine, Err(Fault::Unimplemented { opcode }))
    }
}

/// One step: the opcode is taken from the instruction stream and its
/// instruction executed. An opcode that this core does not execute, or a
/// program counter at which the cartridge has no byte, leaves the machine as
/// it was.
pub open spec fn stepped<M: Mapper>(machine: Machine<M>) -> (Machine<M>, Result<(), Fault>) {
    let first = fetched(machine);
    match first.1 {
        Ok(opcode) => if implemented(opcode) {
            executed(first.0, opcode)
        } else {
            (machine, Err(Fault::Unimplemented { opcode }))
        },
        Err(fault) => (machine, Err(fault)),
    }
}

/// Takes the next byte of the instruction stream.
pub fn fetch<M: Mapper>(cpu: &mut CPU<M>) -> (byte: Result<u8, Fault>)
    ensures
        (final(cpu)@, byte) == fetched(old(cpu)@),
{
    let byte: u8 = cpu.read::<u8>(cpu.registers.pb, cpu.registers.pc)?;
    cpu.registers.pc = cpu.registers.pc.wrapping_add(1);
    Ok(byte)
}

/// Sets the given flags and leaves the others.
pub fn set_flag<M: Mapper>(cpu: &mut CPU<M>, flags: Flags)
    ensures
        final(cpu)@ == old(cpu)@.with_flags(old(cpu).registers.flags.with(flags)),
{
    cpu.registers.flags.insert(flags);
}

/// Absolute addressing for instructions that work on the operand's value.
pub fn absolute<M: Mapper>(cpu: &mut CPU<M>, sixteen_bits: bool) -> (value: Result<Operand, Fault>)
    ensures
        (final(cpu)@, value) == absolute_operand(old(cpu)@, sixteen_bits),
{
    let address: u16 = absolute_address(cpu)?;
    if sixteen_bits {
        let both: u16 = cpu.read::<u16>(cpu.registers.db, address)?;
        Ok(Operand::Word(both))
    } else {
        let byte: u8 = cpu.read::<u8>(cpu.registers.db, address)?;
        Ok(Operand::Byte(byte))
    }
}

/// Absolute addressing for instructions that work on the operand's address.
pub fn absolute_address<M: Mapper>(cpu: &mut CPU<M>) -> (address: Result<u16, Fault>)
    ensures
        (final(cpu)@, address) == fetched_word(old(cpu)@),
{
    let a: u8 = fetch(cpu)?;
    let b: u8 = fetch(cpu)?;
    assert((a as u16 | ((b as u16) << 8)) == (b * 256 + a) as u16) by (bit_vector);
    Ok(a as u16 | ((b as u16) << 8))
}

/// Immediate addressing.
pub fn immediate<M: Mapper>(cpu: &mut CPU<M>, sixteen_bits: bool) -> (value: Result<Operand, Fault>)
    ensures
        (final(cpu)@, value) == immediate_operand(old(cpu)@, sixteen_bits),
{
    let a: u8 = fetch(cpu)?;
    if sixteen_bits {
        let b: u8 = fetch(cpu)?;
        assert((a as u16 | ((b as u16) << 8)) == (b * 256 + a) as u16) by (bit_vector);
        Ok(Operand::Word(a as u16 | ((b as u16) << 8)))
    } else {
        Ok(Operand::Byte(a))
    }
}

/// PC-relative addressing: the branch is made where `when` holds.
pub fn pc_relative<M: Mapper>(cpu: &mut CPU<M>, when: bool) -> (done: Result<(), Fault>)
    ensures
        (final(cpu)@, done) == branched(old(cpu)@, when),
{
    let value: u8 = fetch(cpu)?;
    if when {
        let pc: u16 = cpu.registers.pc;
        assert(pc.wrapping_add(value as i8 as u16) == branch_target(pc, value)) by {
            assert(value < 0x80 ==> (value as i8 as u16) == value as u16) by (bit_vector);
            assert(value >= 0x80 ==> (value as i8 as u16) == (0xFF00 + value) as u16)
                by (bit_vector);
        }
        cpu.registers.pc = pc.wrapping_add(value as i8 as u16);
    }
    Ok(())
}

/// Whether the accumulator is 16 bits wide.
pub fn a16<M: Mapper>(cpu: &CPU<M>) -> (sixteen_bits: bool)
    ensures
        sixteen_bits == cpu.registers.flags.has(Flags { bits: FLAG_A16 }),
{
    cpu.registers.flags.contains(Flags { bits: FLAG_A16 })
}

/// LDA: puts `value` into the accumulator, at the width of `T`. No flag
/// changes.
pub fn lda<M: Mapper, T: BitWidth>(cpu: &mut CPU<M>, value: T)
    ensures
        final(cpu)@ == old(cpu)@.with_a(merged(old(cpu).registers.a, value.operand())),
{
    T::set(&mut cpu.registers.a, value);
}

/// STZ: writes the zero of `T` to `address` in the data bank.
pub fn stz<M: Mapper, T: BitWidth + Default>(cpu: &mut CPU<M>, address: u16) -> (done: Result<
    (),
    Fault,
>)
    ensures
        exists|nothing: T|
            call_ensures(T::default, (), nothing) && (final(cpu)@, done) == store(
                old(cpu)@,
                old(cpu).registers.db,
                address,
                #[trigger] nothing.operand(),
            ),
{
    let db: u8 = cpu.registers.db;
    cpu.write(db, address, T::default())
}

/// Runs the instruction at the program counter.
pub fn run_instruction<M: Mapper>(cpu: &mut CPU<M>) -> (done: Result<(), Fault>)
    ensures
        (final(cpu)@, done) == stepped(old(cpu)@),
{
    let start: u16 = cpu.registers.pc;
    let opcode: u8 = fetch(cpu)?;
    if opcode == OP_BRA {
        pc_relative(cpu, true)
    } else if opcode == OP_LDA_IMMEDIATE {
        let sixteen_bits: bool = a16(cpu);
        match immediate(cpu, sixteen_bits)? {
            Operand::Byte(byte) => lda(cpu, byte),
            Operand::Word(both) => lda(cpu, both),
        }
        Ok(())
    } else if opcode == OP_LDA_ABSOLUTE {
        let sixteen_bits: bool = a16(cpu);
        match absolute(cpu, sixteen_bits)? {
            Operand::Byte(byte) => lda(cpu, byte),
            Operand::Word(both) => lda(cpu, both),
        }
        Ok(())
    } else if opcode == OP_SEI {
        set_flag(cpu, Flags { bits: FLAG_NO_IRQ });
        Ok(())
    } else if opcode == OP_STZ_ABSOLUTE {
        let sixteen_bits: bool = a16(cpu);
        let address: u16 = absolute_address(cpu)?;
        if sixteen_bits {
            stz::<M, u16>(cpu, address)
        } else {
            stz::<M, u8>(cpu, address)
        }
    } else {
        cpu.registers.pc = start;
        Err(Fault::Unimplemented { opcode })
    }
}

} // verus!
