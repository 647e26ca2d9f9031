use batpu_emulator::controller::Controller;
use batpu_emulator::instruction::Condition;
use batpu_emulator::instruction::Instruction;
use batpu_emulator::machine::Machine;

#[test]
fn store_at_negative_offset() {
    let mut machine = Machine::new();
    machine.set_instructions(vec![
        Instruction::LoadImmediate(1, 5),
        Instruction::LoadImmediate(2, 10),
        Instruction::MemoryStore(1, 2, -1),
    ]);

    machine.tick();
    machine.tick();
    machine.tick();

    assert_eq!(machine.memory()[4], 10);
    assert_eq!(machine.registers()[1], 5);
    assert_eq!(machine.registers()[2], 10);
    assert_eq!(machine.program_counter(), 3);
    assert!(!machine.halt());
}

#[test]
fn halt_resets_program_counter_and_sticks() {
    let mut machine = Machine::new();
    machine.set_instructions(vec![Instruction::Halt]);

    machine.tick();
    assert!(machine.halt());
    assert_eq!(machine.program_counter(), 0);

    // Further ticks re-execute the halt: the machine stays put.
    machine.tick();
    machine.tick();
    assert!(machine.halt());
    assert_eq!(machine.program_counter(), 0);
}

#[test]
fn running_past_the_end_wraps_the_counter() {
    let mut machine = Machine::new();
    machine.set_instructions(vec![Instruction::NoOperation]);

    machine.tick();
    assert_eq!(machine.program_counter(), 1);

    // Past the end: the tick is a no-op except that the counter advances.
    machine.tick();
    assert_eq!(machine.program_counter(), 2);
    assert!(!machine.halt());

    machine.set_program_counter(1023);
    machine.tick();
    assert_eq!(machine.program_counter(), 0);

    machine.set_program_counter(1024);
    machine.tick();
    assert_eq!(machine.program_counter(), 1);
}

#[test]
fn addition_sets_carry_and_zero_flags() {
    let mut machine = Machine::new();
    machine.set_instructions(vec![
        Instruction::LoadImmediate(1, 200),
        Instruction::LoadImmediate(2, 100),
        Instruction::Addition(1, 2, 3),
    ]);

    machine.tick();
    machine.tick();
    machine.tick();

    // 200 + 100 = 300: truncates to 44 with the carry set.
    assert_eq!(machine.registers()[3], 44);
    assert!(machine.carry_flag());
    assert!(!machine.zero_flag());
}

#[test]
fn addition_without_overflow_clears_carry() {
    let mut machine = Machine::new();
    machine.set_instructions(vec![
        Instruction::LoadImmediate(1, 2),
        Instruction::LoadImmediate(2, 3),
        Instruction::Addition(1, 2, 3),
    ]);
    machine.set_carry_flag(true);

    machine.tick();
    machine.tick();
    machine.tick();

    assert_eq!(machine.registers()[3], 5);
    assert!(!machine.carry_flag());
    assert!(!machine.zero_flag());
}

#[test]
fn addition_wrapping_to_zero_sets_both_flags() {
    let mut machine = Machine::new();
    machine.set_instructions(vec![
        Instruction::LoadImmediate(1, 255),
        Instruction::AddImmediate(1, 1),
    ]);

    machine.tick();
    machine.tick();

    assert_eq!(machine.registers()[1], 0);
    assert!(machine.carry_flag());
    assert!(machine.zero_flag());
}

#[test]
fn subtraction_carry_means_no_borrow() {
    let mut machine = Machine::new();
    machine.set_instructions(vec![
        Instruction::LoadImmediate(1, 5),
        Instruction::LoadImmediate(2, 7),
        Instruction::Subtraction(1, 2, 3),
        Instruction::Subtraction(2, 1, 4),
        Instruction::Subtraction(1, 1, 5),
    ]);

    machine.tick();
    machine.tick();

    // 5 - 7 borrows: wraps to 254, carry stays clear.
    machine.tick();
    assert_eq!(machine.registers()[3], 254);
    assert!(!machine.carry_flag());
    assert!(!machine.zero_flag());

    // 7 - 5 = 2 without borrow: carry set.
    machine.tick();
    assert_eq!(machine.registers()[4], 2);
    assert!(machine.carry_flag());
    assert!(!machine.zero_flag());

    // 5 - 5 = 0 without borrow: both flags set.
    machine.tick();
    assert_eq!(machine.registers()[5], 0);
    assert!(machine.carry_flag());
    assert!(machine.zero_flag());
}

#[test]
fn bitwise_instructions() {
    let mut machine = Machine::new();
    machine.set_instructions(vec![
        Instruction::LoadImmediate(1, 0b1100),
        Instruction::LoadImmediate(2, 0b1010),
        Instruction::BitwiseAND(1, 2, 3),
        Instruction::BitwiseXOR(1, 2, 4),
        Instruction::BitwiseNOR(1, 2, 5),
        Instruction::RightShift(1, 6),
    ]);

    for _ in 0..6 {
        machine.tick();
    }

    assert_eq!(machine.registers()[3], 0b1000);
    assert_eq!(machine.registers()[4], 0b0110);
    assert_eq!(machine.registers()[5], !0b1110u8);
    assert_eq!(machine.registers()[6], 0b0110);
}

#[test]
fn bitwise_and_zero_result_sets_zero_flag_clears_carry() {
    let mut machine = Machine::new();
    machine.set_instructions(vec![
        Instruction::LoadImmediate(1, 0b0101),
        Instruction::LoadImmediate(2, 0b1010),
        Instruction::BitwiseAND(1, 2, 3),
    ]);
    machine.set_carry_flag(true);

    machine.tick();
    machine.tick();
    machine.tick();

    assert_eq!(machine.registers()[3], 0);
    assert!(machine.zero_flag());
    assert!(!machine.carry_flag());
}

#[test]
fn writes_to_register_zero_are_discarded() {
    let mut machine = Machine::new();
    machine.set_instructions(vec![
        Instruction::LoadImmediate(0, 77),
        Instruction::AddImmediate(0, 1),
    ]);

    machine.tick();
    machine.tick();
    assert_eq!(machine.registers()[0], 0);

    machine.set_reg(0, 99);
    assert_eq!(machine.registers()[0], 0);

    machine.set_reg(1, 99);
    assert_eq!(machine.registers()[1], 99);
}

#[test]
fn jump_and_branch() {
    let mut machine = Machine::new();
    machine.set_instructions(vec![
        Instruction::Jump(2),
        Instruction::Halt,
        Instruction::LoadImmediate(1, 1),
        Instruction::Branch(Condition::Zero, 1),
        Instruction::Branch(Condition::NotZero, 6),
        Instruction::Halt,
        Instruction::LoadImmediate(2, 2),
    ]);

    machine.tick();
    assert_eq!(machine.program_counter(), 2);

    machine.tick();
    // Load of a nonzero immediate leaves the flags alone; the zero branch
    // falls through.
    machine.tick();
    assert_eq!(machine.program_counter(), 4);

    machine.tick();
    assert_eq!(machine.program_counter(), 6);

    machine.tick();
    assert_eq!(machine.registers()[2], 2);
    assert!(!machine.halt());
}

#[test]
fn branch_on_carry() {
    let mut machine = Machine::new();
    machine.set_instructions(vec![
        Instruction::Branch(Condition::NotCarry, 2),
        Instruction::Halt,
        Instruction::LoadImmediate(1, 255),
        Instruction::AddImmediate(1, 255),
        Instruction::Branch(Condition::Carry, 6),
        Instruction::Halt,
        Instruction::NoOperation,
    ]);

    machine.tick();
    assert_eq!(machine.program_counter(), 2);
    machine.tick();
    machine.tick();
    machine.tick();
    assert_eq!(machine.program_counter(), 6);
    assert!(!machine.halt());
}

#[test]
fn call_pushes_return_address_and_return_pops_it() {
    let mut machine = Machine::new();
    machine.set_instructions(vec![
        Instruction::Call(3),
        Instruction::LoadImmediate(2, 9),
        Instruction::Halt,
        Instruction::LoadImmediate(1, 7),
        Instruction::Return,
    ]);

    machine.tick();
    assert_eq!(machine.program_counter(), 3);
    assert_eq!(machine.stack().stack().len(), 1);
    assert_eq!(machine.stack().stack()[0], 1);

    machine.tick();
    machine.tick();
    assert_eq!(machine.program_counter(), 1);
    assert_eq!(machine.stack().stack().len(), 0);

    machine.tick();
    machine.tick();
    assert!(machine.halt());
    assert_eq!(machine.registers()[1], 7);
    assert_eq!(machine.registers()[2], 9);
}

#[test]
fn return_on_empty_stack_falls_through() {
    let mut machine = Machine::new();
    machine.set_instructions(vec![Instruction::Return, Instruction::LoadImmediate(1, 3)]);

    machine.tick();
    assert_eq!(machine.program_counter(), 1);
    machine.tick();
    assert_eq!(machine.registers()[1], 3);
}

#[test]
fn memory_load_round_trip() {
    let mut machine = Machine::new();
    machine.set_instructions(vec![
        Instruction::LoadImmediate(1, 20),
        Instruction::LoadImmediate(2, 123),
        Instruction::MemoryStore(1, 2, 3),
        Instruction::MemoryLoad(1, 4, 3),
    ]);

    for _ in 0..4 {
        machine.tick();
    }

    assert_eq!(machine.memory()[23], 123);
    assert_eq!(machine.registers()[4], 123);
}

#[test]
fn memory_addresses_wrap_around_the_address_space() {
    let mut machine = Machine::new();
    // 260 wraps to 4; -6 wraps to 250, which is a (write-ignoring) port.
    machine.set_mem(260, 9);
    assert_eq!(machine.memory()[4], 9);

    let loaded = machine.mem(260);
    assert_eq!(loaded, 9);

    machine.set_mem(-6, 1);
    assert_eq!(machine.mem(-6), 0);
}

#[test]
fn screen_ports_draw_commit_and_read_back() {
    let mut machine = Machine::new();

    // Cursor to (3, 1), pixel on, then read it back through the pixel port.
    machine.set_mem(240, 3);
    machine.set_mem(241, 1);
    machine.set_mem(242, 0);
    assert_eq!(machine.mem(244), 1);

    // Commit and inspect the displayed image: bit 35 is byte 4, bit 3.
    machine.set_mem(245, 0);
    assert_eq!(machine.screen().image()[4], 1 << 3);

    // Pixel off again, then clear the back buffer outright.
    machine.set_mem(243, 0);
    assert_eq!(machine.mem(244), 0);
    machine.set_mem(242, 0);
    machine.set_mem(246, 0);
    assert_eq!(machine.mem(244), 0);
}

#[test]
fn screen_port_cursor_wraps_like_the_screen() {
    let mut machine = Machine::new();
    // X = 35 wraps to 3 on a 32-wide screen.
    machine.set_mem(240, 35);
    machine.set_mem(241, 0);
    machine.set_mem(242, 0);

    machine.set_mem(240, 3);
    assert_eq!(machine.mem(244), 1);
}

#[test]
fn character_display_ports() {
    let mut machine = Machine::new();

    // Glyph indices 8, 9, 33: 'H', 'I', and one past the table (ignored).
    machine.set_mem(247, 8);
    machine.set_mem(247, 9);
    machine.set_mem(247, 33);
    machine.set_mem(248, 0);
    assert_eq!(
        machine.character_display().data().iter().collect::<String>(),
        "HI"
    );

    machine.set_mem(249, 0);
    machine.set_mem(248, 0);
    assert_eq!(machine.character_display().data().len(), 0);
}

#[test]
fn number_display_ports() {
    let mut machine = Machine::new();

    machine.set_mem(250, 200);
    assert_eq!(machine.number_display().value(), 200);

    machine.set_mem(252, 0);
    assert_eq!(machine.number_display().value(), -56);

    machine.set_mem(253, 0);
    assert_eq!(machine.number_display().value(), 200);

    machine.set_mem(251, 0);
    assert_eq!(machine.number_display().value(), 0);
}

#[test]
fn controller_port_reads_packed_buttons() {
    let mut machine = Machine::new();
    let mut controller = Controller::new();
    controller.start = true;
    controller.down = true;
    machine.set_controller(controller);

    assert_eq!(machine.mem(255), 0x80 | 0x02);
    assert_eq!(machine.controller().binary(), 0x80 | 0x02);
}

#[test]
fn ports_without_behavior_read_zero_and_ignore_writes() {
    let mut machine = Machine::new();
    // The random and controller ports ignore writes entirely.
    machine.set_mem(254, 9);
    machine.set_mem(255, 9);
    // Write-only ports read as constant zero.
    assert_eq!(machine.mem(240), 0);
    assert_eq!(machine.mem(252), 0);
    assert_eq!(machine.mem(255), 0);
}

#[test]
fn reset_clears_everything_but_the_program() {
    let mut machine = Machine::new();
    machine.set_instructions(vec![
        Instruction::LoadImmediate(1, 8),
        Instruction::Call(2),
        Instruction::Halt,
    ]);
    machine.tick();
    machine.tick();
    machine.tick();
    machine.set_mem(0, 13);
    assert!(machine.halt());

    machine.reset();

    assert_eq!(machine.program_counter(), 0);
    assert!(!machine.halt());
    assert!(!machine.zero_flag());
    assert!(!machine.carry_flag());
    assert!(machine.registers().iter().all(|&word| word == 0));
    assert!(machine.memory().iter().all(|&word| word == 0));
    assert_eq!(machine.stack().stack().len(), 0);

    // The program is kept: the machine re-runs it from the start.
    machine.tick();
    assert_eq!(machine.registers()[1], 8);
}

#[test]
fn random_port_yields_some_word() {
    let mut machine = Machine::new();
    // Nothing can be asserted of the value; the read must simply succeed
    // and leave the machine state alone.
    let _ = machine.mem(254);
    assert_eq!(machine.program_counter(), 0);
    assert_eq!(machine.memory().iter().filter(|&&word| word != 0).count(), 0);
}

#[test]
fn dirty_flags_track_mutations() {
    let mut machine = Machine::new();
    assert!(machine.registers_updated());
    assert!(machine.memory_updated());
    assert!(machine.flags_updated());

    machine.disable_registers_updated();
    machine.disable_memory_updated();
    machine.disable_flags_updated();
    assert!(!machine.registers_updated());
    assert!(!machine.memory_updated());
    assert!(!machine.flags_updated());

    machine.set_reg(1, 5);
    assert!(machine.registers_updated());

    machine.set_mem(0, 5);
    assert!(machine.memory_updated());

    machine.set_zero_flag(true);
    assert!(machine.flags_updated());

    machine.disable_flags_updated();
    // Overwriting a flag with its current value is not a change.
    machine.set_zero_flag(true);
    assert!(!machine.flags_updated());
}
