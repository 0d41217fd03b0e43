//! Cartridges: the interface through which the bus reaches one, and the
//! linear ROM mapping.

use vstd::prelude::*;

verus! {

/// Size of the window that each bank shows of a linearly mapped ROM image.
pub const LOROM_BANK_SIZE: usize = 0x8000;

/// Length of the header that some tools put before a ROM image.
pub const HEADER_SIZE: usize = 0x200;

/// A ROM image is a whole number of blocks of this size; a file that is longer
/// by exactly one header carries one.
pub const IMAGE_BLOCK_SIZE: usize = 0x1000;

/// Whether a file of the given length begins with a header.
pub open spec fn has_header(len: nat) -> bool {
    len % (IMAGE_BLOCK_SIZE as nat) == HEADER_SIZE
}

/// The ROM image within a file's bytes: the bytes behind the header where the
/// file's length shows that it has one, else all of them.
pub fn strip_header(file: &[u8]) -> (image: &[u8])
    ensures
        image@ == if has_header(file@.len()) {
            file@.subrange(HEADER_SIZE as int, file@.len() as int)
        } else {
            file@
        },
{
    if file.len() % IMAGE_BLOCK_SIZE == HEADER_SIZE {
        &file[HEADER_SIZE..file.len()]
    } else {
        file
    }
}

/// A cartridge: what the bus hands every access to that system RAM does not
/// answer. The two spec functions are the cartridge's own account of itself;
/// `read` and `write` are held to them.
pub trait Mapper: Sized {
    /// The byte found at `(bank, address)`, or `None` where the cartridge has
    /// nothing there.
    spec fn peek(&self, bank: u8, address: u16) -> Option<u8>;

    /// The cartridge as a write of `value` at `(bank, address)` leaves it, or
    /// `None` where it takes no write.
    spec fn poke(&self, bank: u8, address: u16, value: u8) -> Option<Self>;

    fn read(&self, bank: u8, address: u16) -> (byte: Option<u8>)
        ensures
            byte == self.peek(bank, address),
    ;

    /// Returns whether the write was taken. A refused write changes nothing.
    fn write(&mut self, bank: u8, address: u16, value: u8) -> (taken: bool)
        ensures
            taken == old(self).poke(bank, address, value).is_some(),
            *final(self) == match old(self).poke(bank, address, value) {
                Some(after) => after,
                None => *old(self),
            },
    ;
}

/// A ROM image mapped linearly: bank `b` shows the image's bytes from
/// `b * 0x8000` on, in both halves of the bank. There is no save RAM.
pub struct LoROM<'a> {
    rom: &'a [u8],
}

/// Where in a linearly mapped image the byte of `(bank, address)` lies.
pub open spec fn lorom_index(bank: u8, address: u16) -> int {
    bank as int * 0x8000 + address as int % 0x8000
}

impl<'a> View for LoROM<'a> {
    type V = Seq<u8>;

    closed spec fn view(&self) -> Seq<u8> {
        self.rom@
    }
}

impl<'a> LoROM<'a> {
    /// The mapping of the given image.
    pub fn new(rom: &[u8]) -> (mapper: LoROM<'_>)
        ensures
            mapper@ == rom@,
    {
        LoROM { rom: rom }
    }
}

impl<'a> Mapper for LoROM<'a> {
    open spec fn peek(&self, bank: u8, address: u16) -> Option<u8> {
        if lorom_index(bank, address) < self@.len() {
            Some(self@[lorom_index(bank, address)])
        } else {
            None
        }
    }

    open spec fn poke(&self, bank: u8, address: u16, value: u8) -> Option<Self> {
        None
    }

    fn read(&self, bank: u8, address: u16) -> (byte: Option<u8>) {
        assert(address & 0x7FFF == address % 0x8000) by (bit_vector);
        let index: usize = bank as usize * LOROM_BANK_SIZE + (address as usize & 0x7FFF);
        if index < self.rom.len() {
            Some(self.rom[index])
        } else {
            None
        }
    }

    fn write(&mut self, bank: u8, address: u16, value: u8) -> (taken: bool) {
        false
    }
}

} // verus!
