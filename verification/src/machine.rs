//! The machine: register file, data memory, call stack, flags, peripherals,
//! and the fetch-decode-execute loop with its memory-mapped I/O bus.

use vstd::prelude::*;

use crate::character_display::CharacterDisplay;
use crate::character_display::CharacterDisplayView;
use crate::controller::Controller;
use crate::emod;
use crate::instruction::wf_instruction;
use crate::instruction::Condition;
use crate::instruction::Instruction;
use crate::instruction::ADDRESS_COUNT;
use crate::number_display::NumberDisplay;
use crate::number_display::NumberDisplayView;
use crate::rng::fresh_rng;
use crate::rng::random_word;
use crate::screen::Screen;
use crate::screen::ScreenView;
use crate::stack::Stack;
use crate::stack::StackView;

verus! {

/// The machine's native register/memory unit.
pub type Word = u8;

/// How many of the top data-memory addresses are peripheral ports.
pub const PORTS: usize = 16;

/// How many registers the register file holds (index 0 is hardwired to zero).
pub const REGISTER_COUNT: usize = 16;

/// The size of the logical data-memory address space; load/store addresses
/// wrap modulo this.
pub const MEMORY_SIZE: usize = 256;

/// How many addresses are backed by real memory cells.
pub const USABLE_MEMORY_SIZE: usize = MEMORY_SIZE - PORTS;

/// The first port address: everything from here up is intercepted by the bus.
pub const PORTS_ADDRESS: usize = MEMORY_SIZE - PORTS;

/// A run of `len` zeroed words.
pub open spec fn zero_words(len: nat) -> Seq<Word> {
    Seq::new(len, |i: int| 0u8)
}

/// Allocates a run of `len` zeroed words.
pub(crate) fn zeroed_words(len: usize) -> (result: Vec<Word>)
    ensures
        result@ == zero_words(len as nat),
{
    let mut words: Vec<Word> = Vec::with_capacity(len);
    let mut i: usize = 0;
    while i < len
        invariant
            i <= len,
            words@ == zero_words(i as nat),
        decreases len - i,
    {
        words.push(0);
        proof {
            assert(words@ =~= zero_words((i + 1) as nat));
        }
        i = i + 1;
    }
    words
}

/// The fixed glyph table of the character display, by glyph index.
pub open spec fn glyph_table() -> Seq<char> {
    seq![
        ' ',
        'A',
        'B',
        'C',
        'D',
        'E',
        'F',
        'G',
        'H',
        'I',
        'J',
        'K',
        'L',
        'M',
        'N',
        'O',
        'P',
        'Q',
        'R',
        'S',
        'T',
        'U',
        'V',
        'W',
        'X',
        'Y',
        'Z',
        '.',
        '!',
        '?',
    ]
}

/// The glyph at a given table index, or nothing for an index past the table.
pub open spec fn spec_glyph(value: Word) -> Option<char> {
    if value < glyph_table().len() {
        Some(glyph_table()[value as int])
    } else {
        None
    }
}

/// Looks a word up in the glyph table.
pub fn glyph(value: Word) -> (result: Option<char>)
    ensures
        result == spec_glyph(value),
{
    match value {
        0 => Some(' '),
        1 => Some('A'),
        2 => Some('B'),
        3 => Some('C'),
        4 => Some('D'),
        5 => Some('E'),
        6 => Some('F'),
        7 => Some('G'),
        8 => Some('H'),
        9 => Some('I'),
        10 => Some('J'),
        11 => Some('K'),
        12 => Some('L'),
        13 => Some('M'),
        14 => Some('N'),
        15 => Some('O'),
        16 => Some('P'),
        17 => Some('Q'),
        18 => Some('R'),
        19 => Some('S'),
        20 => Some('T'),
        21 => Some('U'),
        22 => Some('V'),
        23 => Some('W'),
        24 => Some('X'),
        25 => Some('Y'),
        26 => Some('Z'),
        27 => Some('.'),
        28 => Some('!'),
        29 => Some('?'),
        _ => None,
    }
}

/// The truncated 8-bit sum.
pub open spec fn alu_sum(a: Word, b: Word) -> Word {
    ((a + b) % 256) as Word
}

/// Whether an 8-bit addition overflows: the carry flag of `add`.
pub open spec fn alu_sum_carry(a: Word, b: Word) -> bool {
    a + b > 255
}

/// The wrapping 8-bit difference.
pub open spec fn alu_difference(a: Word, b: Word) -> Word {
    ((a - b + 256) % 256) as Word
}

/// Whether an 8-bit subtraction did not borrow: the carry flag of `sub`.
pub open spec fn alu_difference_carry(a: Word, b: Word) -> bool {
    a >= b
}

/// The machine's abstract state: everything an observer can poll, plus the
/// loaded program. The random generator is deliberately absent; what the
/// random port will yield is not part of the state this model predicts.
#[verifier::ext_equal]
pub ghost struct MachineView {
    pub program_counter: u32,
    pub halt: bool,
    pub registers: Seq<Word>,
    pub memory: Seq<Word>,
    pub stack: StackView,
    pub registers_updated: bool,
    pub memory_updated: bool,
    pub zero_flag: bool,
    pub carry_flag: bool,
    pub flags_updated: bool,
    pub screen: ScreenView,
    pub character_display: CharacterDisplayView,
    pub number_display: NumberDisplayView,
    pub controller: Controller,
    pub instructions: Seq<Instruction>,
}

impl MachineView {
    /// The machine's structural invariant: the register file and memory have
    /// their fixed sizes, the zero register reads zero, the program counter
    /// and program fit the address space, every loaded instruction is well
    /// formed, and each peripheral satisfies its own invariant.
    pub open spec fn wf(self) -> bool {
        &&& self.registers.len() == REGISTER_COUNT
        &&& self.registers[0] == 0
        &&& self.memory.len() == USABLE_MEMORY_SIZE
        &&& self.program_counter <= ADDRESS_COUNT
        &&& self.instructions.len() <= ADDRESS_COUNT
        &&& self.stack.wf()
        &&& self.stack.max_size >= 1
        &&& self.screen.wf()
        &&& self.character_display.wf()
        &&& forall|i: int|
            0 <= i < self.instructions.len() ==> wf_instruction(#[trigger] self.instructions[i])
    }

    /// The freshly constructed machine.
    pub open spec fn spec_new() -> MachineView {
        MachineView {
            program_counter: 0,
            halt: false,
            registers: zero_words(REGISTER_COUNT as nat),
            memory: zero_words(USABLE_MEMORY_SIZE as nat),
            stack: StackView { max_size: 16, elems: Seq::<u32>::empty(), updated: true },
            registers_updated: true,
            memory_updated: true,
            zero_flag: false,
            carry_flag: false,
            flags_updated: true,
            screen: ScreenView::spec_new(32, 32),
            character_display: CharacterDisplayView {
                capacity: 10,
                buffer: Seq::<char>::empty(),
                data: Seq::<char>::empty(),
                updated: true,
            },
            number_display: NumberDisplayView::spec_clear(),
            controller: Controller::spec_clear(),
            instructions: Seq::<Instruction>::empty(),
        }
    }

    /// The state after a reset: every entity zeroed or cleared and marked
    /// for redisplay; the loaded program and every capacity are kept.
    pub open spec fn reset_model(self) -> MachineView {
        MachineView {
            program_counter: 0,
            halt: false,
            registers: zero_words(REGISTER_COUNT as nat),
            memory: zero_words(USABLE_MEMORY_SIZE as nat),
            stack: StackView { elems: Seq::<u32>::empty(), updated: true, ..self.stack },
            registers_updated: true,
            memory_updated: true,
            zero_flag: false,
            carry_flag: false,
            flags_updated: true,
            screen: ScreenView {
                buffer: zero_words(self.screen.buffer.len()),
                image: zero_words(self.screen.image.len()),
                updated: true,
                ..self.screen
            },
            character_display: CharacterDisplayView {
                buffer: Seq::<char>::empty(),
                data: Seq::<char>::empty(),
                updated: true,
                ..self.character_display
            },
            number_display: NumberDisplayView::spec_clear(),
            controller: Controller::spec_clear(),
            instructions: self.instructions,
        }
    }

    /// The state after a register write: index 0 is hardwired to zero, so
    /// writing it is silently discarded; any other write lands and marks the
    /// register file dirty.
    pub open spec fn write_register(self, register: u8, value: Word) -> MachineView {
        if register == 0 {
            self
        } else {
            MachineView {
                registers: self.registers.update(register as int, value),
                registers_updated: true,
                ..self
            }
        }
    }

    /// The state after an instruction overwrites both flags; the dirty mark
    /// is set exactly when a flag actually changes.
    pub open spec fn with_flags(self, zero: bool, carry: bool) -> MachineView {
        MachineView {
            zero_flag: zero,
            carry_flag: carry,
            flags_updated: self.flags_updated || zero != self.zero_flag || carry
                != self.carry_flag,
            ..self
        }
    }

    /// The state after the fall-through program-counter increment.
    pub open spec fn advance(self) -> MachineView {
        MachineView { program_counter: (self.program_counter + 1) as u32, ..self }
    }

    /// Whether a branch condition holds under the current flags.
    pub open spec fn condition_met(self, condition: Condition) -> bool {
        match condition {
            Condition::Zero => self.zero_flag,
            Condition::NotZero => !self.zero_flag,
            Condition::Carry => self.carry_flag,
            Condition::NotCarry => !self.carry_flag,
        }
    }

    /// The logical data-memory address a load or store hits: base register
    /// plus offset, wrapped around the full logical address space.
    pub open spec fn wrap_address(self, register: u8, offset: i8) -> int {
        (self.registers[register as int] + offset) % (MEMORY_SIZE as int)
    }

    /// What a bus read returns: plain memory below the port region; in the
    /// port region, the pixel under the screen cursor, the random port
    /// (whose value `random` stands for), the packed controller byte, and
    /// constant zero for every port without read behavior.
    pub open spec fn bus_read(self, address: int, random: Word) -> Word {
        if address < PORTS_ADDRESS {
            self.memory[address]
        } else if address == PORTS_ADDRESS + 4 {
            if self.screen.spec_pix() {
                1
            } else {
                0
            }
        } else if address == PORTS_ADDRESS + 14 {
            random
        } else if address == PORTS_ADDRESS + 15 {
            self.controller.spec_binary()
        } else {
            0
        }
    }

    /// The state after a bus write: plain memory below the port region is
    /// updated and marked dirty; a port write drives the peripheral it
    /// belongs to; ports without write behavior ignore it.
    pub open spec fn bus_write(self, address: int, value: Word) -> MachineView {
        if address < PORTS_ADDRESS {
            MachineView { memory: self.memory.update(address, value), memory_updated: true, ..self }
        } else {
            let port = address - PORTS_ADDRESS;
            if port == 0 {
                MachineView { screen: ScreenView { x: value as int, ..self.screen }, ..self }
            } else if port == 1 {
                MachineView { screen: ScreenView { y: value as int, ..self.screen }, ..self }
            } else if port == 2 {
                MachineView { screen: self.screen.set_pix_model(true), ..self }
            } else if port == 3 {
                MachineView { screen: self.screen.set_pix_model(false), ..self }
            } else if port == 5 {
                MachineView {
                    screen: ScreenView { image: self.screen.buffer, updated: true, ..self.screen },
                    ..self
                }
            } else if port == 6 {
                MachineView {
                    screen: ScreenView {
                        buffer: zero_words(self.screen.buffer.len()),
                        ..self.screen
                    },
                    ..self
                }
            } else if port == 7 {
                MachineView {
                    character_display: self.character_display.push_model(spec_glyph(value)),
                    ..self
                }
            } else if port == 8 {
                MachineView { character_display: self.character_display.commit_model(), ..self }
            } else if port == 9 {
                MachineView {
                    character_display: CharacterDisplayView {
                        buffer: Seq::<char>::empty(),
                        ..self.character_display
                    },
                    ..self
                }
            } else if port == 10 {
                MachineView {
                    number_display: NumberDisplayView {
                        value: value,
                        updated: true,
                        ..self.number_display
                    },
                    ..self
                }
            } else if port == 11 {
                MachineView { number_display: NumberDisplayView::spec_clear(), ..self }
            } else if port == 12 {
                MachineView {
                    number_display: NumberDisplayView { signed: true, ..self.number_display },
                    ..self
                }
            } else if port == 13 {
                MachineView {
                    number_display: NumberDisplayView { signed: false, ..self.number_display },
                    ..self
                }
            } else {
                self
            }
        }
    }

    /// Whether executing this instruction reads the random port, in which
    /// case the machine's next state is not a function of its current one.
    pub open spec fn reads_random(self, instruction: Instruction) -> bool {
        match instruction {
            Instruction::MemoryLoad(a, _b, offset) => self.wrap_address(a, offset)
                == PORTS_ADDRESS + 14,
            _ => false,
        }
    }

    /// The effect of one instruction: the machine's formal semantics.
    /// `random` names what the random port yields if this instruction reads
    /// it; the result does not depend on `random` otherwise.
    pub open spec fn step(self, instruction: Instruction, random: Word) -> MachineView {
        match instruction {
            Instruction::NoOperation => self.advance(),
            Instruction::Halt => MachineView { halt: true, program_counter: 0, ..self },
            Instruction::Addition(a, b, c) => {
                let x = self.registers[a as int];
                let y = self.registers[b as int];
                self.with_flags(alu_sum(x, y) == 0, alu_sum_carry(x, y)).write_register(
                    c,
                    alu_sum(x, y),
                ).advance()
            },
            Instruction::Subtraction(a, b, c) => {
                let x = self.registers[a as int];
                let y = self.registers[b as int];
                self.with_flags(alu_difference(x, y) == 0, alu_difference_carry(x, y))
                    .write_register(c, alu_difference(x, y)).advance()
            },
            Instruction::BitwiseNOR(a, b, c) => {
                let result = !(self.registers[a as int] | self.registers[b as int]);
                self.with_flags(result == 0, false).write_register(c, result).advance()
            },
            Instruction::BitwiseAND(a, b, c) => {
                let result = self.registers[a as int] & self.registers[b as int];
                self.with_flags(result == 0, false).write_register(c, result).advance()
            },
            Instruction::BitwiseXOR(a, b, c) => {
                let result = self.registers[a as int] ^ self.registers[b as int];
                self.with_flags(result == 0, false).write_register(c, result).advance()
            },
            Instruction::RightShift(a, c) => self.write_register(
                c,
                self.registers[a as int] >> 1u8,
            ).advance(),
            Instruction::LoadImmediate(a, value) => self.write_register(a, value).advance(),
            Instruction::AddImmediate(a, value) => {
                let x = self.registers[a as int];
                self.with_flags(alu_sum(x, value) == 0, alu_sum_carry(x, value)).write_register(
                    a,
                    alu_sum(x, value),
                ).advance()
            },
            Instruction::Jump(target) => MachineView { program_counter: target, ..self },
            Instruction::Branch(condition, target) => {
                if self.condition_met(condition) {
                    MachineView { program_counter: target, ..self }
                } else {
                    self.advance()
                }
            },
            Instruction::Call(target) => MachineView {
                program_counter: target,
                stack: self.stack.push_model(
                    (((self.program_counter + 1) as int) % (ADDRESS_COUNT as int)) as u32,
                ),
                ..self
            },
            Instruction::Return => match self.stack.pop_result() {
                Some(address) => MachineView {
                    program_counter: address,
                    stack: self.stack.pop_model(),
                    ..self
                },
                None => self.advance(),
            },
            Instruction::MemoryLoad(a, b, offset) => self.write_register(
                b,
                self.bus_read(self.wrap_address(a, offset), random),
            ).advance(),
            Instruction::MemoryStore(a, b, offset) => self.bus_write(
                self.wrap_address(a, offset),
                self.registers[b as int],
            ).advance(),
        }
    }

    /// The effect of one tick: with the program counter at or past the end
    /// of the stream the tick only advances the counter, wrapping at the
    /// maximum addressable instruction count; otherwise the instruction
    /// under the counter executes.
    pub open spec fn tick_model(self, random: Word) -> MachineView {
        if self.program_counter >= self.instructions.len() {
            MachineView {
                program_counter: (((self.program_counter + 1) as int) % (
                ADDRESS_COUNT as int)) as u32,
                ..self
            }
        } else {
            self.step(self.instructions[self.program_counter as int], random)
        }
    }

    /// Whether the next tick reads the random port.
    pub open spec fn tick_reads_random(self) -> bool {
        self.program_counter < self.instructions.len() && self.reads_random(
            self.instructions[self.program_counter as int],
        )
    }
}

pub struct Machine {
    rng: rand::rngs::ThreadRng,

    program_counter: u32,
    halt: bool,

    registers: Vec<Word>,
    memory: Vec<Word>,
    stack: Stack,

    registers_updated: bool,
    memory_updated: bool,

    zero_flag: bool,
    carry_flag: bool,

    flags_updated: bool,

    screen: Screen,
    character_display: CharacterDisplay,
    number_display: NumberDisplay,
    controller: Controller,

    instructions: Vec<Instruction>,
}

impl View for Machine {
    type V = MachineView;

    closed spec fn view(&self) -> MachineView {
        MachineView {
            program_counter: self.program_counter,
            halt: self.halt,
            registers: self.registers@,
            memory: self.memory@,
            stack: self.stack@,
            registers_updated: self.registers_updated,
            memory_updated: self.memory_updated,
            zero_flag: self.zero_flag,
            carry_flag: self.carry_flag,
            flags_updated: self.flags_updated,
            screen: self.screen@,
            character_display: self.character_display@,
            number_display: self.number_display@,
            controller: self.controller,
            instructions: self.instructions@,
        }
    }
}

impl Machine {
    pub fn new() -> (result: Self)
        ensures
            result@ == MachineView::spec_new(),
            result@.wf(),
    {
        let machine = Self {
            rng: fresh_rng(),

            program_counter: 0,
            halt: false,

            registers: zeroed_words(REGISTER_COUNT),
            memory: zeroed_words(USABLE_MEMORY_SIZE),
            stack: Stack::new(16),

            registers_updated: true,
            memory_updated: true,

            zero_flag: false,
            carry_flag: false,

            flags_updated: true,

            screen: Screen::new(32, 32),
            character_display: CharacterDisplay::new(10),
            number_display: NumberDisplay::new(),
            controller: Controller::new(),

            instructions: Vec::new(),
        };
        proof {
            assert(machine@ =~~= MachineView::spec_new());
        }
        machine
    }

    /// Zeroes and clears the whole machine state; the loaded program stays.
    pub fn reset(&mut self)
        ensures
            final(self)@ == old(self)@.reset_model(),
            old(self)@.wf() ==> final(self)@.wf(),
    {
        self.registers = zeroed_words(REGISTER_COUNT);
        self.memory = zeroed_words(USABLE_MEMORY_SIZE);
        self.stack.clear();

        self.registers_updated = true;
        self.memory_updated = true;

        self.zero_flag = false;
        self.carry_flag = false;

        self.flags_updated = true;

        self.screen.clear();
        self.character_display.clear();
        self.number_display.clear();
        self.controller.clear();

        self.program_counter = 0;
        self.halt = false;

        proof {
            assert(self@ =~~= old(self)@.reset_model());
        }
    }

    /// Loads a resolved program. The stream must fit the address space and
    /// every instruction must be well formed; a malformed stream is an
    /// assembler bug the machine refuses to guess around.
    pub fn set_instructions(&mut self, instructions: Vec<Instruction>)
        requires
            instructions@.len() <= ADDRESS_COUNT,
            forall|i: int|
                0 <= i < instructions@.len() ==> wf_instruction(#[trigger] instructions@[i]),
        ensures
            final(self)@ == (MachineView { instructions: instructions@, ..old(self)@ }),
    {
        self.instructions = instructions;
        proof {
            assert(self@ =~~= (MachineView { instructions: self.instructions@, ..old(self)@ }));
        }
    }

    /// Advances the machine by exactly one instruction slot: past the end of
    /// the stream the counter only advances (wrapping), otherwise the fetched
    /// instruction executes. The new state is the tick model for whatever the
    /// random port yielded; when the instruction does not read that port the
    /// tick is the deterministic model itself.
    pub fn tick(&mut self)
        requires
            old(self)@.wf(),
        ensures
            final(self)@.wf(),
            exists|random: Word| final(self)@ == old(self)@.tick_model(random),
            !old(self)@.tick_reads_random() ==> final(self)@ == old(self)@.tick_model(0),
    {
        if self.program_counter as usize >= self.instructions.len() {
            self.program_counter = (self.program_counter + 1) % ADDRESS_COUNT;
            proof {
                assert(self@ =~~= old(self)@.tick_model(0));
            }
            return;
        }

        let instruction = self.instructions[self.program_counter as usize];
        self.run_instruction(&instruction);
        proof {
            let random = choose|random: Word| self@ == old(self)@.step(instruction, random);
            assert(self@ == old(self)@.tick_model(random));
        }
    }

    fn run_instruction(&mut self, instruction: &Instruction)
        requires
            old(self)@.wf(),
            old(self)@.program_counter < old(self)@.instructions.len(),
            wf_instruction(*instruction),
        ensures
            final(self)@.wf(),
            exists|random: Word| final(self)@ == old(self)@.step(*instruction, random),
            !old(self)@.reads_random(*instruction) ==> final(self)@ == old(self)@.step(
                *instruction,
                0,
            ),
    {
        match *instruction {
            Instruction::NoOperation
            | Instruction::Addition(_, _, _)
            | Instruction::Subtraction(_, _, _)
            | Instruction::BitwiseNOR(_, _, _)
            | Instruction::BitwiseAND(_, _, _)
            | Instruction::BitwiseXOR(_, _, _)
            | Instruction::RightShift(_, _)
            | Instruction::LoadImmediate(_, _)
            | Instruction::AddImmediate(_, _) => {
                self.run_register_instruction(instruction);
                proof {
                    assert(exists|random: Word|
                        self@ == old(self)@.step(*instruction, random)) by {
                        assert(self@ == old(self)@.step(*instruction, 0));
                    }
                }
            },
            Instruction::Halt
            | Instruction::Jump(_)
            | Instruction::Branch(_, _)
            | Instruction::Call(_)
            | Instruction::Return => {
                self.run_control_instruction(instruction);
                proof {
                    assert(exists|random: Word|
                        self@ == old(self)@.step(*instruction, random)) by {
                        assert(self@ == old(self)@.step(*instruction, 0));
                    }
                }
            },
            Instruction::MemoryLoad(_, _, _) | Instruction::MemoryStore(_, _, _) => {
                self.run_memory_instruction(instruction);
            },
        }
    }

    /// Executes an instruction whose effect stays within the register file
    /// and the flags, then falls through to the next instruction slot.
    #[verifier::rlimit(100)]
    fn run_register_instruction(&mut self, instruction: &Instruction)
        requires
            old(self)@.wf(),
            old(self)@.program_counter < old(self)@.instructions.len(),
            wf_instruction(*instruction),
            (*instruction) matches Instruction::NoOperation || (*instruction) matches
                Instruction::Addition(_, _, _) || (*instruction) matches Instruction::Subtraction(
                _,
                _,
                _,
            ) || (*instruction) matches Instruction::BitwiseNOR(_, _, _) || (*instruction) matches
                Instruction::BitwiseAND(_, _, _) || (*instruction) matches Instruction::BitwiseXOR(
                _,
                _,
                _,
            ) || (*instruction) matches Instruction::RightShift(_, _) || (*instruction) matches
                Instruction::LoadImmediate(_, _) || (*instruction) matches
                Instruction::AddImmediate(_, _),
        ensures
            final(self)@.wf(),
            final(self)@ == old(self)@.step(*instruction, 0),
    {
        match *instruction {
            Instruction::Addition(a, b, c) => {
                let sum: u16 = self.reg(a) as u16 + self.reg(b) as u16;
                let result: Word = (sum % 256) as Word;

                self.set_alu_result(c, result, result == 0, sum > 255);
            },
            Instruction::Subtraction(a, b, c) => {
                let difference: u16 = 256 + self.reg(a) as u16 - self.reg(b) as u16;
                let result: Word = (difference % 256) as Word;
                let borrowed = self.reg(a) < self.reg(b);

                self.set_alu_result(c, result, result == 0, !borrowed);
            },
            Instruction::BitwiseNOR(a, b, c) => {
                let result = !(self.reg(a) | self.reg(b));

                self.set_alu_result(c, result, result == 0, false);
            },
            Instruction::BitwiseAND(a, b, c) => {
                let result = self.reg(a) & self.reg(b);

                self.set_alu_result(c, result, result == 0, false);
            },
            Instruction::BitwiseXOR(a, b, c) => {
                let result = self.reg(a) ^ self.reg(b);

                self.set_alu_result(c, result, result == 0, false);
            },
            Instruction::RightShift(a, c) => {
                let result = self.reg(a) >> 1u8;
                self.set_reg(c, result);
            },
            Instruction::LoadImmediate(a, value) => {
                self.set_reg(a, value);
            },
            Instruction::AddImmediate(a, value) => {
                let sum: u16 = self.reg(a) as u16 + value as u16;
                let result: Word = (sum % 256) as Word;

                self.set_alu_result(a, result, result == 0, sum > 255);
            },
            _ => {},
        }

        self.program_counter = self.program_counter + 1;
        proof {
            assert(self@ =~~= old(self)@.step(*instruction, 0));
        }
    }

    /// Executes an instruction that decides the next program counter itself:
    /// halting, jumping, branching, calling, or returning.
    fn run_control_instruction(&mut self, instruction: &Instruction)
        requires
            old(self)@.wf(),
            old(self)@.program_counter < old(self)@.instructions.len(),
            wf_instruction(*instruction),
            (*instruction) matches Instruction::Halt || (*instruction) matches Instruction::Jump(_)
                || (*instruction) matches Instruction::Branch(_, _) || (*instruction) matches
                Instruction::Call(_) || (*instruction) matches Instruction::Return,
        ensures
            final(self)@.wf(),
            final(self)@ == old(self)@.step(*instruction, 0),
    {
        match *instruction {
            Instruction::Halt => {
                self.halt = true;
                self.program_counter = 0;
                proof {
                    assert(self@ =~~= old(self)@.step(*instruction, 0));
                }
                return;
            },
            Instruction::Jump(target) => {
                self.program_counter = target;
                proof {
                    assert(self@ =~~= old(self)@.step(*instruction, 0));
                }
                return;
            },
            Instruction::Branch(condition, target) => {
                let condition_met = match condition {
                    Condition::Zero => self.zero_flag,
                    Condition::NotZero => !self.zero_flag,
                    Condition::Carry => self.carry_flag,
                    Condition::NotCarry => !self.carry_flag,
                };

                if condition_met {
                    self.program_counter = target;
                    proof {
                        assert(self@ =~~= old(self)@.step(*instruction, 0));
                    }
                    return;
                }
            },
            Instruction::Call(target) => {
                self.stack.push((self.program_counter + 1) % ADDRESS_COUNT);
                self.program_counter = target;
                proof {
                    assert(self@ =~~= old(self)@.step(*instruction, 0));
                }
                return;
            },
            Instruction::Return => {
                match self.stack.pop() {
                    Some(address) => {
                        self.program_counter = address;
                        proof {
                            assert(self@ =~~= old(self)@.step(*instruction, 0));
                        }
                        return;
                    },
                    None => {},
                }
            },
            _ => {},
        }

        self.program_counter = self.program_counter + 1;
        proof {
            assert(self@ =~~= old(self)@.step(*instruction, 0));
        }
    }

    /// Executes a load or store: the address wraps through the bus, then the
    /// machine falls through to the next instruction slot. A load of the
    /// random port is the one effect not determined by the current state.
    fn run_memory_instruction(&mut self, instruction: &Instruction)
        requires
            old(self)@.wf(),
            old(self)@.program_counter < old(self)@.instructions.len(),
            wf_instruction(*instruction),
            (*instruction) matches Instruction::MemoryLoad(_, _, _) || (*instruction) matches
                Instruction::MemoryStore(_, _, _),
        ensures
            final(self)@.wf(),
            exists|random: Word| final(self)@ == old(self)@.step(*instruction, random),
            !old(self)@.reads_random(*instruction) ==> final(self)@ == old(self)@.step(
                *instruction,
                0,
            ),
    {
        let ghost witness: Word = 0;
        match *instruction {
            Instruction::MemoryLoad(a, b, offset) => {
                let value = self.mem(self.reg(a) as i32 + offset as i32);
                proof {
                    witness = value;
                }
                self.set_reg(b, value);
            },
            Instruction::MemoryStore(a, b, offset) => {
                let address = self.reg(a) as i32 + offset as i32;
                let value = self.reg(b);
                self.set_mem(address, value);
            },
            _ => {},
        }

        self.program_counter = self.program_counter + 1;
        proof {
            assert(self@ =~~= old(self)@.step(*instruction, witness));
            assert(!old(self)@.reads_random(*instruction) ==> self@ =~~= old(self)@.step(
                *instruction,
                0,
            ));
        }
    }

    pub fn program_counter(&self) -> (result: u32)
        ensures
            result == self@.program_counter,
    {
        self.program_counter
    }

    /// Sets the program counter directly; the target must fit the address
    /// space.
    pub fn set_program_counter(&mut self, program_counter: u32)
        requires
            program_counter <= ADDRESS_COUNT,
        ensures
            final(self)@ == (MachineView { program_counter: program_counter, ..old(self)@ }),
    {
        self.program_counter = program_counter;
    }

    pub fn halt(&self) -> (result: bool)
        ensures
            result == self@.halt,
    {
        self.halt
    }

    pub fn set_halt(&mut self, halt: bool)
        ensures
            final(self)@ == (MachineView { halt: halt, ..old(self)@ }),
    {
        self.halt = halt;
    }

    pub fn zero_flag(&self) -> (result: bool)
        ensures
            result == self@.zero_flag,
    {
        self.zero_flag
    }

    /// Overwrites the zero flag, marking the flags dirty when it changes.
    pub fn set_zero_flag(&mut self, zero_flag: bool)
        ensures
            final(self)@ == (MachineView {
                zero_flag: zero_flag,
                flags_updated: old(self)@.flags_updated || zero_flag != old(self)@.zero_flag,
                ..old(self)@
            }),
    {
        if zero_flag != self.zero_flag {
            self.flags_updated = true;
        }

        self.zero_flag = zero_flag;
    }

    pub fn carry_flag(&self) -> (result: bool)
        ensures
            result == self@.carry_flag,
    {
        self.carry_flag
    }

    /// Overwrites the carry flag, marking the flags dirty when it changes.
    pub fn set_carry_flag(&mut self, carry_flag: bool)
        ensures
            final(self)@ == (MachineView {
                carry_flag: carry_flag,
                flags_updated: old(self)@.flags_updated || carry_flag != old(self)@.carry_flag,
                ..old(self)@
            }),
    {
        if carry_flag != self.carry_flag {
            self.flags_updated = true;
        }

        self.carry_flag = carry_flag;
    }

    pub fn registers(&self) -> (result: &Vec<Word>)
        ensures
            result@ == self@.registers,
    {
        &self.registers
    }

    pub fn memory(&self) -> (result: &Vec<Word>)
        ensures
            result@ == self@.memory,
    {
        &self.memory
    }

    pub fn stack(&self) -> (result: &Stack)
        ensures
            result@ == self@.stack,
    {
        &self.stack
    }

    pub fn screen(&self) -> (result: &Screen)
        ensures
            result@ == self@.screen,
    {
        &self.screen
    }

    pub fn character_display(&self) -> (result: &CharacterDisplay)
        ensures
            result@ == self@.character_display,
    {
        &self.character_display
    }

    pub fn number_display(&self) -> (result: &NumberDisplay)
        ensures
            result@ == self@.number_display,
    {
        &self.number_display
    }

    pub fn controller(&self) -> (result: &Controller)
        ensures
            *result == self@.controller,
    {
        &self.controller
    }

    /// Replaces the controller snapshot: how the host injects button states
    /// between ticks.
    pub fn set_controller(&mut self, controller: Controller)
        ensures
            final(self)@ == (MachineView { controller: controller, ..old(self)@ }),
    {
        self.controller = controller;
    }

    pub fn registers_updated(&self) -> (result: bool)
        ensures
            result == self@.registers_updated,
    {
        self.registers_updated
    }

    pub fn disable_registers_updated(&mut self)
        ensures
            final(self)@ == (MachineView { registers_updated: false, ..old(self)@ }),
    {
        self.registers_updated = false;
    }

    pub fn memory_updated(&self) -> (result: bool)
        ensures
            result == self@.memory_updated,
    {
        self.memory_updated
    }

    pub fn disable_memory_updated(&mut self)
        ensures
            final(self)@ == (MachineView { memory_updated: false, ..old(self)@ }),
    {
        self.memory_updated = false;
    }

    pub fn flags_updated(&self) -> (result: bool)
        ensures
            result == self@.flags_updated,
    {
        self.flags_updated
    }

    pub fn disable_flags_updated(&mut self)
        ensures
            final(self)@ == (MachineView { flags_updated: false, ..old(self)@ }),
    {
        self.flags_updated = false;
    }

    /// Reads a register.
    pub fn reg(&self, register: u8) -> (result: Word)
        requires
            register < REGISTER_COUNT,
            self@.registers.len() == REGISTER_COUNT,
        ensures
            result == self@.registers[register as int],
    {
        self.registers[register as usize]
    }

    /// Writes a register; a write to the hardwired zero register is silently
    /// discarded. This is also how the host pokes registers between ticks.
    pub fn set_reg(&mut self, register: u8, value: Word)
        requires
            register < REGISTER_COUNT,
            old(self)@.registers.len() == REGISTER_COUNT,
        ensures
            final(self)@ == old(self)@.write_register(register, value),
    {
        if register == 0 {
            return;
        }

        self.registers[register as usize] = value;
        self.registers_updated = true;
        proof {
            assert(self@ =~~= old(self)@.write_register(register, value));
        }
    }

    /// Lands an arithmetic or bitwise result: overwrites both flags and
    /// writes the destination register.
    fn set_alu_result(&mut self, register: u8, value: Word, zero: bool, carry: bool)
        requires
            register < REGISTER_COUNT,
            old(self)@.registers.len() == REGISTER_COUNT,
        ensures
            final(self)@ == old(self)@.with_flags(zero, carry).write_register(register, value),
    {
        self.set_carry_flag(carry);
        self.set_zero_flag(zero);

        self.set_reg(register, value);
        proof {
            assert(self@ =~~= old(self)@.with_flags(zero, carry).write_register(register, value));
        }
    }

    /// Reads through the bus: the address wraps around the logical address
    /// space, then either hits plain memory or a port. Only the random port
    /// keeps the result from being a function of the machine's state.
    pub fn mem(&mut self, address: i32) -> (result: Word)
        requires
            old(self)@.wf(),
        ensures
            final(self)@ == old(self)@,
            result == old(self)@.bus_read(address as int % (MEMORY_SIZE as int), result),
    {
        let address = emod(address as isize, MEMORY_SIZE);

        if address >= PORTS_ADDRESS {
            let port = address - PORTS_ADDRESS;
            let result = match port {
                4 => if self.screen.pix() {
                    1
                } else {
                    0
                },
                14 => random_word(&mut self.rng),
                15 => self.controller.binary(),
                _ => 0,
            };
            proof {
                assert(self@ =~~= old(self)@);
            }
            return result;
        }

        self.memory[address]
    }

    /// Writes through the bus: the address wraps around the logical address
    /// space, then either updates plain memory (marking it dirty) or drives
    /// the peripheral behind the port.
    pub fn set_mem(&mut self, address: i32, value: Word)
        requires
            old(self)@.wf(),
        ensures
            final(self)@ == old(self)@.bus_write(address as int % (MEMORY_SIZE as int), value),
            final(self)@.wf(),
    {
        let wrapped = emod(address as isize, MEMORY_SIZE);

        if wrapped >= PORTS_ADDRESS {
            self.write_port(wrapped - PORTS_ADDRESS, value);
            return;
        }

        self.memory[wrapped] = value;
        self.memory_updated = true;
        proof {
            assert(self@ =~~= old(self)@.bus_write(address as int % (MEMORY_SIZE as int), value));
        }
    }

    /// Drives the peripheral behind one port; ports without write behavior
    /// ignore the value.
    #[verifier::rlimit(100)]
    fn write_port(&mut self, port: usize, value: Word)
        requires
            old(self)@.wf(),
            port < PORTS,
        ensures
            final(self)@ == old(self)@.bus_write(PORTS_ADDRESS + port, value),
            final(self)@.wf(),
    {
        match port {
            0 => self.screen.set_x(value as isize),
            1 => self.screen.set_y(value as isize),
            2 => self.screen.set_pix(true),
            3 => self.screen.set_pix(false),
            5 => self.screen.push_buffer(),
            6 => self.screen.clear_buffer(),
            7 => {
                self.character_display.push(glyph(value));
            },
            8 => self.character_display.push_buffer(),
            9 => self.character_display.clear_buffer(),
            10 => self.number_display.set_value(value),
            11 => self.number_display.clear(),
            12 => self.number_display.set_signed(true),
            13 => self.number_display.set_signed(false),
            _ => (),
        }

        proof {
            assert(self@ =~~= old(self)@.bus_write(PORTS_ADDRESS + port, value));
        }
    }
}

/// Writing the zero register never changes anything: the write is discarded,
/// and under the machine invariant the register always reads back zero.
pub proof fn lemma_register_zero(v: MachineView, value: Word)
    ensures
        v.write_register(0, value) == v,
        v.wf() ==> v.registers[0] == 0,
{
}

/// The carry flag of an addition is set exactly when the true sum exceeds
/// the largest word, for all register contents.
pub proof fn lemma_addition_carry(v: MachineView, a: u8, b: u8, c: u8, random: Word)
    ensures
        v.step(Instruction::Addition(a, b, c), random).carry_flag == (v.registers[a as int]
            + v.registers[b as int] > 255),
{
}

/// The carry flag of a subtraction is set exactly when no borrow occurred:
/// when the minuend is at least the subtrahend, for all register contents.
pub proof fn lemma_subtraction_carry(v: MachineView, a: u8, b: u8, c: u8, random: Word)
    ensures
        v.step(Instruction::Subtraction(a, b, c), random).carry_flag == (v.registers[a as int]
            >= v.registers[b as int]),
{
}

/// A program consisting solely of halt sticks: once the machine has halted
/// with the counter back at zero, every further tick re-executes the halt
/// and changes nothing at all.
pub proof fn lemma_halt_program_sticks(v: MachineView, random: Word)
    requires
        v.instructions == seq![Instruction::Halt],
        v.halt,
        v.program_counter == 0,
    ensures
        v.tick_model(random) == v,
{
    assert(v.tick_model(random) =~~= v);
}

} // verus!
