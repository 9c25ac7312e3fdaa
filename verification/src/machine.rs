//! The machine state and the fetch loop.
//!
//! The state is a fixed container: memory, registers, call stack, timers and
//! program counter. The fetch loop reads big-endian words at the program
//! counter and hands them to the decoder; it owns no instruction semantics.

use vstd::prelude::*;
use crate::decoder::{decode, decode_spec, DecodeError};
use crate::opcodes::Instruction;

verus! {

/// Number of addressable bytes.
pub const MEMORY_SIZE: usize = 4096;

/// Depth of the call stack.
pub const STACK_SIZE: usize = 16;

/// Number of general registers, `V0` to `VF`.
pub const REGISTER_COUNT: usize = 16;

/// First address of the program area; the bytes below are reserved.
pub const PROGRAM_OFFSET: usize = 512;

/// Largest number of bytes that a program image can bring.
pub const PROGRAM_CAPACITY: usize = 3584;

/// Last address at which a two-byte fetch is possible.
pub const LAST_FETCH_ADDRESS: u16 = 0xFFE;

/// Why the machine stopped.
#[derive(Clone, Copy, Debug, PartialEq, Eq, Structural)]
pub enum MachineError {
    /// The program counter has run past the last two-byte window of memory.
    /// Nothing can be fetched any more.
    FetchOutOfBounds,
    /// A fetched word encodes no operation. The program counter stands
    /// behind the word, so the caller may go on.
    Decode(DecodeError),
}

/// The machine state as plain values.
pub struct MachineState {
    pub name: Seq<char>,
    pub counter: u16,
    pub stack_ptr: u8,
    pub memory: Seq<u8>,
    pub stack: Seq<u16>,
    pub registers: Seq<u8>,
    pub i: u16,
    pub delay_register: u8,
    pub sound_register: u8,
}

impl MachineState {
    /// The container's fixed sizes, and a stack pointer within the stack.
    pub open spec fn well_formed(self) -> bool {
        &&& self.memory.len() == MEMORY_SIZE
        &&& self.stack.len() == STACK_SIZE
        &&& self.registers.len() == REGISTER_COUNT
        &&& self.stack_ptr <= STACK_SIZE
    }
}

/// The big-endian word made of two bytes.
pub open spec fn word_of(high: u8, low: u8) -> u16 {
    ((high as u16) << 8) | (low as u16)
}

/// The word that a fetch at `counter` reads from `memory`.
pub open spec fn word_at(memory: Seq<u8>, counter: int) -> u16 {
    word_of(memory[counter], memory[counter + 1])
}

/// A big-endian word is its high byte times 256 plus its low byte.
pub proof fn lemma_word_of(high: u8, low: u8)
    ensures
        word_of(high, low) == high * 0x100 + low,
{
    assert((((high as u16) << 8) | (low as u16)) == high * 0x100 + low) by (bit_vector);
}

/// Memory after a program image is loaded: the reserved area as it was, the
/// image from the program offset on, cut off at the end of memory, and zero
/// behind it.
pub open spec fn loaded(memory: Seq<u8>, image: Seq<u8>) -> Seq<u8> {
    Seq::new(
        MEMORY_SIZE as nat,
        |address: int|
            if address < PROGRAM_OFFSET {
                memory[address]
            } else if address - PROGRAM_OFFSET < image.len() {
                image[address - PROGRAM_OFFSET]
            } else {
                0u8
            },
    )
}

/// Where the fetch loop that starts at `counter` stops, and why: at the first
/// word that does not decode, with the counter behind that word, or past the
/// last fetch address.
pub open spec fn halt_of(memory: Seq<u8>, counter: int) -> (int, MachineError)
    decreases 0x1000 - counter,
{
    if counter > LAST_FETCH_ADDRESS || counter < 0 {
        (counter, MachineError::FetchOutOfBounds)
    } else {
        match decode_spec(word_at(memory, counter)) {
            Err(error) => (counter + 2, MachineError::Decode(error)),
            Ok(_) => halt_of(memory, counter + 2),
        }
    }
}

/// Every cell of `memory` with its address.
pub open spec fn cells(memory: Seq<u8>) -> Seq<(usize, u8)> {
    Seq::new(memory.len(), |address: int| (address as usize, memory[address]))
}

/// The cells of `memory` that hold a byte other than zero, by rising address.
pub open spec fn nonzero_cells(memory: Seq<u8>) -> Seq<(usize, u8)> {
    cells(memory).filter(|cell: (usize, u8)| cell.1 != 0)
}

/// A CHIP-8 machine: 4096 bytes of memory, sixteen registers, a call stack of
/// sixteen return addresses, the address register `I`, two timers and the
/// program counter.
#[derive(Debug)]
pub struct Machine {
    name: String,
    counter: u16,
    stack_ptr: u8,
    mem: [u8; MEMORY_SIZE],
    stack: [u16; STACK_SIZE],
    v: [u8; REGISTER_COUNT],
    i: u16,
    delay_register: u8,
    sound_register: u8,
}

impl View for Machine {
    type V = MachineState;

    closed spec fn view(&self) -> MachineState {
        MachineState {
            name: self.name@,
            counter: self.counter,
            stack_ptr: self.stack_ptr,
            memory: self.mem@,
            stack: self.stack@,
            registers: self.v@,
            i: self.i,
            delay_register: self.delay_register,
            sound_register: self.sound_register,
        }
    }
}

impl Machine {
    #[verifier::type_invariant]
    spec fn stack_ptr_in_stack(&self) -> bool {
        self.stack_ptr <= STACK_SIZE
    }

    /// A machine with all memory, registers, stack and timers zero, and the
    /// program counter at the start of the program area.
    pub fn new(name: &str) -> (machine: Machine)
        ensures
            machine@.well_formed(),
            machine@ == (MachineState {
                name: name@,
                counter: PROGRAM_OFFSET as u16,
                stack_ptr: 0,
                memory: Seq::new(MEMORY_SIZE as nat, |address: int| 0u8),
                stack: Seq::new(STACK_SIZE as nat, |slot: int| 0u16),
                registers: Seq::new(REGISTER_COUNT as nat, |index: int| 0u8),
                i: 0,
                delay_register: 0,
                sound_register: 0,
            }),
    {
        let machine = Machine {
            name: String::from_str(name),
            counter: PROGRAM_OFFSET as u16,
            stack_ptr: 0,
            mem: [0; 4096],
            stack: [0; 16],
            v: [0; 16],
            i: 0,
            delay_register: 0,
            sound_register: 0,
        };
        assert(machine.mem@ =~= Seq::new(MEMORY_SIZE as nat, |address: int| 0u8));
        assert(machine.stack@ =~= Seq::new(STACK_SIZE as nat, |slot: int| 0u16));
        assert(machine.v@ =~= Seq::new(REGISTER_COUNT as nat, |index: int| 0u8));
        machine
    }

    /// Copies a program image into memory from the program offset on. The
    /// whole program area is overwritten: what the image does not reach is
    /// zero, and what of the image would pass the end of memory is left out.
    pub fn load_rom(&mut self, image: &[u8])
        ensures
            final(self)@ == (MachineState {
                memory: loaded(old(self)@.memory, image@),
                ..old(self)@
            }),
            final(self)@.well_formed(),
    {
        proof {
            use_type_invariant(&*self);
        }
        let mut offset: usize = 0;
        while offset < PROGRAM_CAPACITY
            invariant
                offset <= PROGRAM_CAPACITY,
                self.stack_ptr <= STACK_SIZE,
                self@ == (MachineState { memory: self.mem@, ..old(self)@ }),
                forall|address: int|
                    0 <= address < MEMORY_SIZE ==> self.mem@[address] == if PROGRAM_OFFSET
                        <= address < PROGRAM_OFFSET + offset {
                        loaded(old(self)@.memory, image@)[address]
                    } else {
                        old(self)@.memory[address]
                    },
            decreases PROGRAM_CAPACITY - offset,
        {
            let byte = if offset < image.len() {
                image[offset]
            } else {
                0
            };
            self.mem[PROGRAM_OFFSET + offset] = byte;
            offset += 1;
        }
        assert(self.mem@ =~= loaded(old(self)@.memory, image@));
    }

    /// Makes a 16-bit opcode out of two bytes, the first one high.
    pub fn get_opcode(b: &[u8]) -> (opcode: u16)
        requires
            b@.len() >= 2,
        ensures
            opcode == word_of(b@[0], b@[1]),
            opcode == b@[0] * 0x100 + b@[1],
    {
        let fb: u16 = b[0] as u16;
        let sb: u16 = b[1] as u16;
        proof {
            lemma_word_of(b@[0], b@[1]);
        }
        (fb << 8) | sb
    }

    /// Reads the word at the program counter and moves the counter behind
    /// it. Past the last fetch address nothing is read and nothing changes.
    pub fn fetch(&mut self) -> (fetched: Result<u16, MachineError>)
        ensures
            old(self)@.counter > LAST_FETCH_ADDRESS ==> fetched == Err::<u16, MachineError>(
                MachineError::FetchOutOfBounds,
            ) && final(self)@ == old(self)@,
            old(self)@.counter <= LAST_FETCH_ADDRESS ==> fetched == Ok::<u16, MachineError>(
                word_at(old(self)@.memory, old(self)@.counter as int),
            ) && final(self)@ == (MachineState {
                counter: (old(self)@.counter + 2) as u16,
                ..old(self)@
            }),
    {
        proof {
            use_type_invariant(&*self);
        }
        if self.counter > LAST_FETCH_ADDRESS {
            return Err(MachineError::FetchOutOfBounds);
        }
        let pc: usize = self.counter as usize;
        let opcode = Machine::get_opcode(&self.mem[pc..pc + 2]);
        self.counter += 2;
        Ok(opcode)
    }

    /// One cycle of the fetch loop: fetches the word at the program counter
    /// and decodes it. The counter moves behind the word whether or not the
    /// word decodes; past the last fetch address nothing changes.
    pub fn step(&mut self) -> (stepped: Result<Instruction, MachineError>)
        ensures
            old(self)@.counter > LAST_FETCH_ADDRESS ==> stepped == Err::<Instruction, MachineError>(
                MachineError::FetchOutOfBounds,
            ) && final(self)@ == old(self)@,
            old(self)@.counter <= LAST_FETCH_ADDRESS ==> final(self)@ == (MachineState {
                counter: (old(self)@.counter + 2) as u16,
                ..old(self)@
            }) && stepped == match decode_spec(
                word_at(old(self)@.memory, old(self)@.counter as int),
            ) {
                Ok(ins) => Ok::<Instruction, MachineError>(ins),
                Err(error) => Err::<Instruction, MachineError>(MachineError::Decode(error)),
            },
            stepped matches Ok(ins) ==> ins.well_formed(),
    {
        match self.fetch() {
            Err(error) => Err(error),
            Ok(opcode) => match decode(opcode) {
                Ok(ins) => Ok(ins),
                Err(error) => Err(MachineError::Decode(error)),
            },
        }
    }

    /// Runs the fetch loop from the program counter on until it has to stop:
    /// at the first word that does not decode, which is reported with the
    /// counter behind it, or when the counter has passed the last fetch
    /// address. Nothing but the counter changes.
    pub fn start(&mut self) -> (halted: Result<(), MachineError>)
        ensures
            halted == Err::<(), MachineError>(
                halt_of(old(self)@.memory, old(self)@.counter as int).1,
            ),
            final(self)@ == (MachineState {
                counter: halt_of(old(self)@.memory, old(self)@.counter as int).0 as u16,
                ..old(self)@
            }),
    {
        loop
            invariant
                self@ == (MachineState { counter: self@.counter, ..old(self)@ }),
                halt_of(old(self)@.memory, old(self)@.counter as int) == halt_of(
                    self@.memory,
                    self@.counter as int,
                ),
            decreases 0x10000 - self@.counter,
        {
            match self.step() {
                Ok(_) => {},
                Err(error) => {
                    return Err(error);
                },
            }
        }
    }

    /// The cells of memory that hold a byte other than zero, each with its
    /// address, by rising address: what a dump of the machine shows of its
    /// memory.
    pub fn nonzero_memory(&self) -> (found: Vec<(usize, u8)>)
        ensures
            found@ == nonzero_cells(self@.memory),
    {
        let mut found: Vec<(usize, u8)> = Vec::new();
        let mut address: usize = 0;
        proof {
            reveal(Seq::filter);
            assert(cells(self@.memory.take(0)) =~= Seq::empty());
        }
        while address < MEMORY_SIZE
            invariant
                address <= MEMORY_SIZE,
                self@.memory == self.mem@,
                found@ == nonzero_cells(self@.memory.take(address as int)),
            decreases MEMORY_SIZE - address,
        {
            let byte = self.mem[address];
            proof {
                reveal(Seq::filter);
                let before = cells(self@.memory.take(address as int));
                let after = cells(self@.memory.take(address + 1));
                assert(after =~= before.push((address, byte)));
                assert(after.drop_last() =~= before);
            }
            if byte != 0 {
                found.push((address, byte));
            }
            address += 1;
        }
        assert(self@.memory.take(MEMORY_SIZE as int) =~= self@.memory);
        found
    }

    /// The name the machine was made with.
    pub fn name(&self) -> (name: &str)
        ensures
            name@ == self@.name,
    {
        self.name.as_str()
    }

    /// The program counter: the address of the next fetch.
    pub fn counter(&self) -> (counter: u16)
        ensures
            counter == self@.counter,
    {
        self.counter
    }

    /// Moves the program counter, as a jump does.
    pub fn set_counter(&mut self, counter: u16)
        ensures
            final(self)@ == (MachineState { counter, ..old(self)@ }),
    {
        proof {
            use_type_invariant(&*self);
        }
        self.counter = counter;
    }

    /// The number of return addresses on the call stack, never more than
    /// the stack holds.
    pub fn stack_ptr(&self) -> (stack_ptr: u8)
        ensures
            stack_ptr == self@.stack_ptr,
            stack_ptr <= STACK_SIZE,
    {
        proof {
            use_type_invariant(self);
        }
        self.stack_ptr
    }

    /// All of memory, reserved area included.
    pub fn memory(&self) -> (memory: &[u8; MEMORY_SIZE])
        ensures
            memory@ == self@.memory,
            self@.well_formed(),
    {
        proof {
            use_type_invariant(self);
        }
        &self.mem
    }

    /// The slots of the call stack; those below the stack pointer are in use.
    pub fn stack(&self) -> (stack: &[u16; STACK_SIZE])
        ensures
            stack@ == self@.stack,
    {
        &self.stack
    }

    /// The registers `V0` to `VF`.
    pub fn registers(&self) -> (registers: &[u8; REGISTER_COUNT])
        ensures
            registers@ == self@.registers,
    {
        &self.v
    }

    /// The address register `I`.
    pub fn i(&self) -> (i: u16)
        ensures
            i == self@.i,
    {
        self.i
    }

    /// The delay timer.
    pub fn delay_register(&self) -> (delay: u8)
        ensures
            delay == self@.delay_register,
    {
        self.delay_register
    }

    /// The sound timer.
    pub fn sound_register(&self) -> (sound: u8)
        ensures
            sound == self@.sound_register,
    {
        self.sound_register
    }
}

} // verus!
