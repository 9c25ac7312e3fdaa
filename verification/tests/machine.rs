use std::io::{Read, Seek, SeekFrom, Write};

use chip8::decoder::DecodeError;
use chip8::machine::{
    Machine, MachineError, LAST_FETCH_ADDRESS, MEMORY_SIZE, PROGRAM_CAPACITY, PROGRAM_OFFSET,
    REGISTER_COUNT, STACK_SIZE,
};
use chip8::opcodes::Instruction;

/// Reads a program image as the loader does: at most the program area's size.
fn read_image(file: &mut impl Read) -> Vec<u8> {
    let mut buffer = vec![0u8; PROGRAM_CAPACITY];
    let count = file.read(&mut buffer).unwrap();
    buffer.truncate(count);
    buffer
}

#[test]
fn test_copy_into_mem_no_data() {
    let mut tmpfile = tempfile::tempfile().unwrap();
    let mut vm = Machine::new("TestVM");
    vm.load_rom(&read_image(&mut tmpfile));
    assert_eq!(vm.memory().len(), 4096);
    // every byte in memory is zero when file is empty
    for byte in vm.memory().iter() {
        assert_eq!(*byte, 0);
    }
}

#[test]
fn test_copy_into_mem_some_data() {
    let mut tmpfile = tempfile::tempfile().unwrap();
    let mut vm = Machine::new("TestVM");
    tmpfile.write_all(b"Hello World!").unwrap(); // Write
    tmpfile.seek(SeekFrom::Start(0)).unwrap(); // Seek to start
    vm.load_rom(&read_image(&mut tmpfile));
    let expected = [72, 101, 108, 108, 111, 32, 87, 111, 114, 108, 100, 33];
    let mut count = 0;
    for _ in 0..expected.len() {
        assert_eq!(vm.memory()[PROGRAM_OFFSET + count], expected[count]);
        count += 1;
    }
}

#[test]
fn test_create_opcode() {
    assert_eq!(Machine::get_opcode(&[0x31, 0x42]), 0x3142);
    assert_eq!(Machine::get_opcode(&[0x1, 0x2]), 0x0102);
    assert_eq!(Machine::get_opcode(&[0xAB, 0x9C]), 0xAB9C);

    // doesn't magically append or prepend zeroes to the final output
    assert_ne!(Machine::get_opcode(&[0x1, 0x2]), 0x1200);
    assert_ne!(Machine::get_opcode(&[0x1, 0x2]), 0x0012);
}

#[test]
fn test_create_opcode_edges() {
    assert_eq!(Machine::get_opcode(&[0x00, 0x00]), 0x0000);
    assert_eq!(Machine::get_opcode(&[0xFF, 0xFF]), 0xFFFF);
    assert_eq!(Machine::get_opcode(&[0xFF, 0x00]), 0xFF00);
    assert_eq!(Machine::get_opcode(&[0x00, 0xFF]), 0x00FF);
    // only the first two bytes count
    assert_eq!(Machine::get_opcode(&[0x12, 0x34, 0x56]), 0x1234);
}

#[test]
fn test_new_machine_is_zero() {
    let vm = Machine::new("Chip8");
    assert_eq!(vm.name(), "Chip8");
    assert_eq!(vm.counter(), 0x200);
    assert_eq!(vm.stack_ptr(), 0);
    assert_eq!(vm.i(), 0);
    assert_eq!(vm.delay_register(), 0);
    assert_eq!(vm.sound_register(), 0);
    assert_eq!(vm.memory().len(), MEMORY_SIZE);
    assert_eq!(vm.stack().len(), STACK_SIZE);
    assert_eq!(vm.registers().len(), REGISTER_COUNT);
    assert!(vm.memory().iter().all(|byte| *byte == 0));
    assert!(vm.stack().iter().all(|slot| *slot == 0));
    assert!(vm.registers().iter().all(|register| *register == 0));
    assert!(vm.nonzero_memory().is_empty());
}

#[test]
fn test_sizes() {
    assert_eq!(MEMORY_SIZE, 4096);
    assert_eq!(PROGRAM_OFFSET, 0x200);
    assert_eq!(PROGRAM_CAPACITY, 4096 - 512);
    assert_eq!(STACK_SIZE, 16);
    assert_eq!(REGISTER_COUNT, 16);
    assert_eq!(LAST_FETCH_ADDRESS, 0xFFE);
}

#[test]
fn test_load_rom_leaves_reserved_area_and_state() {
    let mut vm = Machine::new("TestVM");
    vm.set_counter(0x300);
    vm.load_rom(&[0xAA; 16]);
    assert_eq!(vm.counter(), 0x300);
    assert_eq!(vm.name(), "TestVM");
    assert!(vm.memory()[..PROGRAM_OFFSET].iter().all(|byte| *byte == 0));
    assert!(vm.memory()[PROGRAM_OFFSET..PROGRAM_OFFSET + 16].iter().all(|byte| *byte == 0xAA));
    assert!(vm.memory()[PROGRAM_OFFSET + 16..].iter().all(|byte| *byte == 0));
    assert_eq!(vm.stack_ptr(), 0);
}

#[test]
fn test_load_rom_fills_the_whole_program_area() {
    let image: Vec<u8> = (0..PROGRAM_CAPACITY).map(|k| (k % 251) as u8 + 1).collect();
    let mut vm = Machine::new("TestVM");
    vm.load_rom(&image);
    assert_eq!(&vm.memory()[PROGRAM_OFFSET..], &image[..]);
    assert_eq!(vm.memory()[MEMORY_SIZE - 1], image[PROGRAM_CAPACITY - 1]);
}

#[test]
fn test_load_rom_cuts_off_what_passes_memory() {
    let image: Vec<u8> = (0..PROGRAM_CAPACITY + 100).map(|k| (k % 251) as u8 + 1).collect();
    let mut vm = Machine::new("TestVM");
    vm.load_rom(&image);
    assert_eq!(vm.memory().len(), MEMORY_SIZE);
    assert_eq!(&vm.memory()[PROGRAM_OFFSET..], &image[..PROGRAM_CAPACITY]);
    assert!(vm.memory()[..PROGRAM_OFFSET].iter().all(|byte| *byte == 0));
}

#[test]
fn test_load_rom_again_clears_the_rest() {
    let mut vm = Machine::new("TestVM");
    vm.load_rom(&[0x11; 32]);
    vm.load_rom(&[0x22; 4]);
    assert_eq!(&vm.memory()[PROGRAM_OFFSET..PROGRAM_OFFSET + 4], &[0x22; 4]);
    assert!(vm.memory()[PROGRAM_OFFSET + 4..].iter().all(|byte| *byte == 0));
}

#[test]
fn test_fetch_reproduces_payload_in_big_endian_pairs() {
    let payload = b"Hello World!";
    let mut vm = Machine::new("TestVM");
    vm.load_rom(payload);
    let expected = [0x4865u16, 0x6C6C, 0x6F20, 0x576F, 0x726C, 0x6421];
    for (k, word) in expected.iter().enumerate() {
        assert_eq!(vm.counter() as usize, PROGRAM_OFFSET + 2 * k);
        assert_eq!(vm.fetch(), Ok(*word));
    }
    assert_eq!(vm.counter(), 0x20C);
    // behind the payload memory is zero
    assert_eq!(vm.fetch(), Ok(0x0000));
}

#[test]
fn test_fetch_at_the_last_window_succeeds() {
    let mut image = vec![0u8; PROGRAM_CAPACITY];
    image[PROGRAM_CAPACITY - 2] = 0xAB;
    image[PROGRAM_CAPACITY - 1] = 0xCD;
    let mut vm = Machine::new("TestVM");
    vm.load_rom(&image);
    vm.set_counter(0xFFE);
    assert_eq!(vm.fetch(), Ok(0xABCD));
    assert_eq!(vm.counter(), 0x1000);
}

#[test]
fn test_fetch_past_the_last_window_is_fatal() {
    let mut vm = Machine::new("TestVM");
    vm.set_counter(0xFFF);
    assert_eq!(vm.fetch(), Err(MachineError::FetchOutOfBounds));
    // nothing moved
    assert_eq!(vm.counter(), 0xFFF);
    vm.set_counter(0x1000);
    assert_eq!(vm.fetch(), Err(MachineError::FetchOutOfBounds));
    assert_eq!(vm.counter(), 0x1000);
    vm.set_counter(0xFFFF);
    assert_eq!(vm.fetch(), Err(MachineError::FetchOutOfBounds));
    assert_eq!(vm.counter(), 0xFFFF);
}

#[test]
fn test_fetch_at_an_odd_address() {
    let mut vm = Machine::new("TestVM");
    vm.load_rom(&[0x12, 0x34, 0x56]);
    vm.set_counter(0x201);
    assert_eq!(vm.fetch(), Ok(0x3456));
    assert_eq!(vm.counter(), 0x203);
}

#[test]
fn test_fetch_in_the_reserved_area_reads_it() {
    let mut vm = Machine::new("TestVM");
    vm.load_rom(&[0x12, 0x34]);
    vm.set_counter(0x1FE);
    assert_eq!(vm.fetch(), Ok(0x0000));
    assert_eq!(vm.fetch(), Ok(0x1234));
}

#[test]
fn test_step_decodes_what_it_fetches() {
    let mut vm = Machine::new("TestVM");
    vm.load_rom(&[0x00, 0xE0, 0x1A, 0xBC, 0xFC, 0x14, 0x00, 0x00, 0x8D, 0xB5]);
    assert_eq!(vm.step(), Ok(Instruction::ClearScreen));
    assert_eq!(vm.step(), Ok(Instruction::Jump(0xABC)));
    assert_eq!(vm.counter(), 0x204);
    assert_eq!(vm.step(), Err(MachineError::Decode(DecodeError::UnknownOpcode(0xFC14))));
    // the counter stands behind the word that did not decode
    assert_eq!(vm.counter(), 0x206);
    assert_eq!(vm.step(), Ok(Instruction::NoOp));
    assert_eq!(vm.step(), Ok(Instruction::SubRegister(0xD, 0xB)));
    assert_eq!(vm.counter(), 0x20A);
}

#[test]
fn test_step_past_the_last_window_is_fatal() {
    let mut vm = Machine::new("TestVM");
    vm.set_counter(0xFFF);
    assert_eq!(vm.step(), Err(MachineError::FetchOutOfBounds));
    assert_eq!(vm.counter(), 0xFFF);
}

#[test]
fn test_start_runs_to_the_end_of_memory() {
    let mut vm = Machine::new("TestVM");
    vm.load_rom(&[0x00, 0xE0, 0x1A, 0xBC, 0x8D, 0xB5]);
    assert_eq!(vm.start(), Err(MachineError::FetchOutOfBounds));
    assert_eq!(vm.counter(), 0x1000);
    // the program is still there
    assert_eq!(&vm.memory()[0x200..0x206], &[0x00, 0xE0, 0x1A, 0xBC, 0x8D, 0xB5]);
    // and a machine that has halted stays halted
    assert_eq!(vm.start(), Err(MachineError::FetchOutOfBounds));
    assert_eq!(vm.counter(), 0x1000);
}

#[test]
fn test_start_from_an_odd_address_stops_at_0xfff() {
    let mut vm = Machine::new("TestVM");
    vm.set_counter(0x201);
    assert_eq!(vm.start(), Err(MachineError::FetchOutOfBounds));
    assert_eq!(vm.counter(), 0xFFF);
}

#[test]
fn test_start_reports_an_unknown_opcode_and_can_go_on() {
    let mut vm = Machine::new("TestVM");
    vm.load_rom(&[0x00, 0xE0, 0xFC, 0x14, 0x1A, 0xBC, 0xEB, 0x8E]);
    assert_eq!(vm.start(), Err(MachineError::Decode(DecodeError::UnknownOpcode(0xFC14))));
    assert_eq!(vm.counter(), 0x204);
    assert_eq!(vm.start(), Err(MachineError::Decode(DecodeError::UnknownOpcode(0xEB8E))));
    assert_eq!(vm.counter(), 0x208);
    assert_eq!(vm.start(), Err(MachineError::FetchOutOfBounds));
    assert_eq!(vm.counter(), 0x1000);
}

#[test]
fn test_nonzero_memory_lists_cells_by_address() {
    let mut vm = Machine::new("TestVM");
    vm.load_rom(&[0x12, 0x00, 0x00, 0x34, 0xFF]);
    assert_eq!(vm.nonzero_memory(), vec![(0x200, 0x12), (0x203, 0x34), (0x204, 0xFF)]);
}

#[test]
fn test_nonzero_memory_of_a_full_program_area() {
    let mut vm = Machine::new("TestVM");
    vm.load_rom(&[0x01; PROGRAM_CAPACITY]);
    let cells = vm.nonzero_memory();
    assert_eq!(cells.len(), PROGRAM_CAPACITY);
    assert_eq!(cells[0], (PROGRAM_OFFSET, 0x01));
    assert_eq!(cells[PROGRAM_CAPACITY - 1], (MEMORY_SIZE - 1, 0x01));
}

#[test]
fn test_set_counter_changes_the_counter_only() {
    let mut vm = Machine::new("TestVM");
    vm.load_rom(&[0x12, 0x34]);
    vm.set_counter(0xABC);
    assert_eq!(vm.counter(), 0xABC);
    assert_eq!(vm.name(), "TestVM");
    assert_eq!(vm.nonzero_memory(), vec![(0x200, 0x12), (0x201, 0x34)]);
    assert_eq!(vm.stack_ptr(), 0);
}
