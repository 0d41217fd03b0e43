//! What holds of the bus, of register access and of the instructions, whatever
//! the machine and the cartridge.

use vstd::prelude::*;
use crate::bitwidth::{
    high_byte, load_byte, load_word, low_byte, merged, next_address, shown, store_byte, store_word,
    word, Operand,
};
use crate::cpu::{ram_cell, reset_registers, Machine, HIGH_RAM_BASE, RAM_SIZE};
use crate::fault::Fault;
use crate::flags::{Flags, FLAG_A16, FLAG_NO_IRQ, FLAG_XY16};
use crate::instructions::{
    branch_target, fetched, implemented, stepped, OP_BRA, OP_LDA_IMMEDIATE, OP_SEI,
};
use crate::mapper::Mapper;
use crate::ran;

verus! {

/// A byte written to RAM is read back: at every place in the low 8 KiB of
/// banks 0x00 to 0x3F and at every place in banks 0x7E and 0x7F, the write
/// goes through, and a read at the same place gives the byte written.
pub proof fn ram_byte_round_trip<M: Mapper>(
    machine: Machine<M>,
    bank: u8,
    address: u16,
    value: u8,
)
    requires
        machine.wf(),
        (bank <= 0x3F && address <= 0x1FFF) || bank == 0x7E || bank == 0x7F,
    ensures
        store_byte(machine, bank, address, value).1 == Ok::<(), Fault>(()),
        store_byte(machine, bank, address, value).0.wf(),
        load_byte(store_byte(machine, bank, address, value).0, bank, address) == Ok::<u8, Fault>(
            value,
        ),
{
}

/// Places that name the same RAM cell show the same byte: what is written
/// through one of them is read through the other.
pub proof fn ram_mirrors_agree<M: Mapper>(
    machine: Machine<M>,
    bank: u8,
    address: u16,
    value: u8,
    other_bank: u8,
    other_address: u16,
)
    requires
        machine.wf(),
        ram_cell(bank, address).is_some(),
        ram_cell(other_bank, other_address) == ram_cell(bank, address),
    ensures
        load_byte(machine, other_bank, other_address) == load_byte(machine, bank, address),
        load_byte(store_byte(machine, bank, address, value).0, other_bank, other_address) == Ok::<
            u8,
            Fault,
        >(value),
{
}

/// A write to RAM changes one cell: a read at a place that names another cell
/// gives what it gave before, and so does every read from the cartridge.
pub proof fn ram_write_is_local<M: Mapper>(
    machine: Machine<M>,
    bank: u8,
    address: u16,
    value: u8,
    other_bank: u8,
    other_address: u16,
)
    requires
        machine.wf(),
        ram_cell(bank, address).is_some(),
        ram_cell(other_bank, other_address) != ram_cell(bank, address),
    ensures
        load_byte(store_byte(machine, bank, address, value).0, other_bank, other_address)
            == load_byte(machine, other_bank, other_address),
{
}

/// The places that name RAM cells, and the cells they name. Every cell lies
/// within RAM.
pub proof fn ram_places(bank: u8, address: u16)
    ensures
        (bank <= 0x3F && address <= 0x1FFF) || bank == 0x7E ==> ram_cell(bank, address) == Some(
            address as int,
        ),
        bank == 0x7F ==> ram_cell(bank, address) == Some(HIGH_RAM_BASE + address),
        !((bank <= 0x3F && address <= 0x1FFF) || bank == 0x7E || bank == 0x7F) ==> ram_cell(
            bank,
            address,
        ).is_none(),
        ram_cell(bank, address) matches Some(cell) ==> 0 <= cell < RAM_SIZE,
{
}

/// A word written where both of its bytes lie in RAM is read back from there.
pub proof fn ram_word_round_trip<M: Mapper>(
    machine: Machine<M>,
    bank: u8,
    address: u16,
    value: u16,
)
    requires
        machine.wf(),
        ram_cell(bank, address).is_some(),
        ram_cell(bank, next_address(address)).is_some(),
    ensures
        store_word(machine, bank, address, value).1 == Ok::<(), Fault>(()),
        load_word(store_word(machine, bank, address, value).0, bank, address) == Ok::<u16, Fault>(
            value,
        ),
{
    word_of_its_bytes(value);
}

/// A 16-bit value is the word of its low and its high byte.
pub proof fn word_of_its_bytes(value: u16)
    ensures
        word(low_byte(value), high_byte(value)) == value,
{
}

/// Bank 0x7F is the second half of RAM: its offset `k` is the cell
/// `HIGH_RAM_BASE + k`, for reading and for writing, so that what is written
/// through the bank stands in that cell, and what stands in that cell is read
/// through the bank.
pub proof fn high_bank_is_second_half<M: Mapper>(machine: Machine<M>, offset: u16, value: u8)
    requires
        machine.wf(),
    ensures
        load_byte(machine, 0x7F, offset) == Ok::<u8, Fault>(machine.ram[HIGH_RAM_BASE + offset]),
        store_byte(machine, 0x7F, offset, value).1 == Ok::<(), Fault>(()),
        store_byte(machine, 0x7F, offset, value).0 == (Machine {
            ram: machine.ram.update(HIGH_RAM_BASE + offset, value),
            ..machine
        }),
        store_byte(machine, 0x7F, offset, value).0.ram[HIGH_RAM_BASE + offset] == value,
        load_byte(
            Machine { ram: machine.ram.update(HIGH_RAM_BASE + offset, value), ..machine },
            0x7F,
            offset,
        ) == Ok::<u8, Fault>(value),
{
}

/// A word at the last address of a bank has its high byte at the first address
/// of the same bank: the address wraps, the bank does not change.
pub proof fn word_wraps_within_bank<M: Mapper>(machine: Machine<M>, bank: u8, value: u16)
    ensures
        next_address(0xFFFF) == 0x0000,
        load_word(machine, bank, 0xFFFF) == match load_byte(machine, bank, 0xFFFF) {
            Ok(low) => match load_byte(machine, bank, 0x0000) {
                Ok(high) => Ok::<u16, Fault>(word(low, high)),
                Err(fault) => Err::<u16, Fault>(fault),
            },
            Err(fault) => Err::<u16, Fault>(fault),
        },
        store_word(machine, bank, 0xFFFF, value) == ({
            let first = store_byte(machine, bank, 0xFFFF, low_byte(value));
            if first.1.is_ok() {
                store_byte(first.0, bank, 0x0000, high_byte(value))
            } else {
                first
            }
        }),
{
}

/// A byte put into a register replaces its low byte and keeps its high byte,
/// and a register shows its low byte alone at 8 bits; at 16 bits the whole
/// value is put and shown.
pub proof fn register_access_by_width(value: u16, byte: u8, both: u16)
    ensures
        high_byte(merged(value, Operand::Byte(byte))) == high_byte(value),
        low_byte(merged(value, Operand::Byte(byte))) == byte,
        shown(false, merged(value, Operand::Byte(byte))) == Operand::Byte(byte),
        merged(value, Operand::Word(both)) == both,
        shown(true, merged(value, Operand::Word(both))) == Operand::Word(both),
{
}

/// SEI sets the interrupt-disable bit and no other: every other bit of the
/// flags, every register but the program counter, RAM and the cartridge stay
/// as they were.
pub proof fn sei_sets_only_no_irq<M: Mapper>(machine: Machine<M>)
    requires
        fetched(machine).1 == Ok::<u8, Fault>(OP_SEI),
    ensures
        stepped(machine).1 == Ok::<(), Fault>(()),
        stepped(machine).0 == fetched(machine).0.with_flags(
            Flags { bits: machine.registers.flags.bits | FLAG_NO_IRQ },
        ),
        stepped(machine).0.registers.flags.has(Flags { bits: FLAG_NO_IRQ }),
        forall|mask: u8|
            mask & FLAG_NO_IRQ == 0 ==> #[trigger] (stepped(machine).0.registers.flags.bits & mask)
                == machine.registers.flags.bits & mask,
{
    let before: u8 = machine.registers.flags.bits;
    assert((before | 0x04) & 0x04 == 0x04) by (bit_vector);
    assert forall|mask: u8| mask & 0x04 == 0 implies #[trigger] ((before | 0x04) & mask) == before
        & mask by {
        assert(mask & 0x04 == 0 ==> ((before | 0x04) & mask) == before & mask) by (bit_vector);
    }
}

/// An opcode that this core does not execute is reported as such, and the
/// machine stays as it was: a step changes nothing, and neither does any
/// number of them.
pub proof fn unknown_opcode_changes_nothing<M: Mapper>(machine: Machine<M>, opcode: u8, steps: nat)
    requires
        fetched(machine).1 == Ok::<u8, Fault>(opcode),
        !implemented(opcode),
        steps > 0,
    ensures
        stepped(machine) == (machine, Err::<(), Fault>(Fault::Unimplemented { opcode })),
        ran(machine, steps) == (machine, Err::<(), Fault>(Fault::Unimplemented { opcode })),
{
}

/// After reset the accumulator and the index registers are 8 bits wide and
/// interrupts are disabled.
pub proof fn reset_is_eight_bit()
    ensures
        !reset_registers().flags.has(Flags { bits: FLAG_A16 }),
        !reset_registers().flags.has(Flags { bits: FLAG_XY16 }),
        reset_registers().flags.has(Flags { bits: FLAG_NO_IRQ }),
{
    assert(0x04u8 & 0x20u8 != 0x20u8) by (bit_vector);
    assert(0x04u8 & 0x10u8 != 0x10u8) by (bit_vector);
    assert(0x04u8 & 0x04u8 == 0x04u8) by (bit_vector);
}

/// LDA with an immediate operand, the accumulator 8 bits wide: the operand
/// byte replaces the accumulator's low byte, the program counter stands behind
/// the operand, and nothing else changes, no flag either.
pub proof fn lda_immediate_at_eight_bits<M: Mapper>(machine: Machine<M>, operand: u8)
    requires
        !machine.registers.flags.has(Flags { bits: FLAG_A16 }),
        fetched(machine).1 == Ok::<u8, Fault>(OP_LDA_IMMEDIATE),
        fetched(fetched(machine).0).1 == Ok::<u8, Fault>(operand),
    ensures
        stepped(machine) == (
            machine.with_pc(next_address(next_address(machine.registers.pc))).with_a(
                word(operand, high_byte(machine.registers.a)),
            ),
            Ok::<(), Fault>(()),
        ),
{
}

/// BRA with the displacement 0xFE, which is -2, branches to itself: a step
/// leaves the machine as it was, and so does any number of steps.
pub proof fn bra_to_itself_loops<M: Mapper>(machine: Machine<M>, steps: nat)
    requires
        fetched(machine).1 == Ok::<u8, Fault>(OP_BRA),
        fetched(fetched(machine).0).1 == Ok::<u8, Fault>(0xFE),
    ensures
        stepped(machine) == (machine, Ok::<(), Fault>(())),
        ran(machine, steps) == (machine, Ok::<(), Fault>(())),
    decreases steps,
{
    let pc = machine.registers.pc;
    assert(branch_target(next_address(next_address(pc)), 0xFE) == pc);
    assert(machine.with_pc(pc) == machine);
    if steps > 0 {
        bra_to_itself_loops(machine, (steps - 1) as nat);
    }
}

} // verus!
