use snesemu_cpu::buffer::{HEIGHT, PIXELS, WIDTH};
use snesemu_cpu::fault::Fault;
use snesemu_cpu::mapper::{LoROM, Mapper};
use snesemu_cpu::{Emulator, STEPS_PER_FRAME, TITLE_LENGTH, TITLE_OFFSET};

fn create_rom(input: &[u8]) -> Vec<u8> {
    let mut output = vec![0; 0x10000];
    output[..input.len()].copy_from_slice(input);
    output[0x7FFC..0x7FFE].copy_from_slice(&[0x00, 0x80]);
    output
}

fn blank_buffer(pixel: u32) -> Box<[u32; PIXELS]> {
    match vec![pixel; PIXELS].into_boxed_slice().try_into() {
        Ok(buffer) => buffer,
        Err(_) => unreachable!(),
    }
}

#[test]
fn buffer_is_512_by_480() {
    assert_eq!(512, WIDTH);
    assert_eq!(480, HEIGHT);
    assert_eq!(245_760, PIXELS);
    assert_eq!(1_000_000, STEPS_PER_FRAME);
    assert_eq!(21, TITLE_LENGTH);
    assert_eq!(0xFFC0, TITLE_OFFSET);
}

#[test]
fn game_title_is_the_raw_header_field() {
    let mut rom = create_rom(&[]);
    rom[0x7FC0..0x7FC0 + 21].copy_from_slice(b"SUPER MARIOWORLD     ");
    rom[0x7FC0 + 21] = b'X';
    let emulator = Emulator::from_rom(LoROM::new(&rom)).ok().unwrap();
    assert_eq!(Ok(*b"SUPER MARIOWORLD     "), emulator.game_title());
}

/// A cartridge that has the same byte everywhere but at one place, where it
/// has none.
struct Holed {
    hole: u16,
}

impl Mapper for Holed {
    fn peek(&self, bank: u8, address: u16) -> Option<u8> {
        self.read(bank, address)
    }

    fn poke(&self, _bank: u8, _address: u16, _value: u8) -> Option<Self> {
        None
    }

    fn read(&self, _bank: u8, address: u16) -> Option<u8> {
        if address == self.hole {
            None
        } else {
            Some(b'A')
        }
    }

    fn write(&mut self, _bank: u8, _address: u16, _value: u8) -> bool {
        false
    }
}

#[test]
fn game_title_reports_the_first_byte_that_is_missing() {
    let emulator = Emulator::from_rom(Holed { hole: 0xFFC7 }).ok().unwrap();
    assert_eq!(Err(Fault::Unmapped { bank: 0x00, address: 0xFFC7 }), emulator.game_title());
    let emulator = Emulator::from_rom(Holed { hole: 0xFFD4 }).ok().unwrap();
    assert_eq!(Err(Fault::Unmapped { bank: 0x00, address: 0xFFD4 }), emulator.game_title());
    let emulator = Emulator::from_rom(Holed { hole: 0xFFD5 }).ok().unwrap();
    assert_eq!(Ok([b'A'; 21]), emulator.game_title());
    let emulator = Emulator::from_rom(Holed { hole: 0xFFBF }).ok().unwrap();
    assert_eq!(Ok([b'A'; 21]), emulator.game_title());
}

#[test]
fn from_rom_fails_without_a_reset_vector() {
    let rom = [0u8; 16];
    assert_eq!(
        Some(Fault::Unmapped { bank: 0x00, address: 0xFFFC }),
        Emulator::from_rom(LoROM::new(&rom)).err()
    );
}

#[test]
fn run_frame_runs_a_loop_and_leaves_the_buffer() {
    let rom = create_rom(&[0x80, 0xFE]);
    let mut buffer = blank_buffer(0x00C0_FFEE);
    let mut emulator = Emulator::from_rom(LoROM::new(&rom)).ok().unwrap();
    assert_eq!(Ok(()), emulator.run_frame(&mut buffer));
    assert_eq!(Ok(()), emulator.run_frame(&mut buffer));
    assert!(buffer.iter().all(|&pixel| pixel == 0x00C0_FFEE));
}

#[test]
fn run_frame_stops_at_the_first_fault() {
    let rom = create_rom(&[0x78, 0xA9, 0x01, 0x9C, 0x00, 0x80, 0x80, 0xFE]);
    let mut buffer = blank_buffer(0);
    let mut emulator = Emulator::from_rom(LoROM::new(&rom)).ok().unwrap();
    assert_eq!(
        Err(Fault::WriteRefused { bank: 0x00, address: 0x8000, value: 0x00 }),
        emulator.run_frame(&mut buffer)
    );
    assert!(buffer.iter().all(|&pixel| pixel == 0));
}

#[test]
fn run_frame_reports_an_unknown_opcode_every_time() {
    let rom = create_rom(&[0xEA]);
    let mut buffer = blank_buffer(0);
    let mut emulator = Emulator::from_rom(LoROM::new(&rom)).ok().unwrap();
    assert_eq!(Err(Fault::Unimplemented { opcode: 0xEA }), emulator.run_frame(&mut buffer));
    assert_eq!(Err(Fault::Unimplemented { opcode: 0xEA }), emulator.run_frame(&mut buffer));
}
