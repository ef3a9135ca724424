use bytecode_vm::{Opcode, State, VmError};

fn run_steps(state: &mut State, n: usize) {
    for _ in 0..n {
        assert_eq!(state.tick(), Ok(()));
    }
}

#[test]
fn new_state_is_zeroed() {
    let state = State::new(vec![0, 0, 0, 0]);
    assert_eq!(state.pc(), 0);
    assert_eq!(state.registers(), [0u16; 16]);
    assert_eq!(state.memory_byte(0), Ok(0));
    assert_eq!(state.memory_byte(8191), Ok(0));
    assert_eq!(state.memory_byte(8192), Err(VmError::OutOfRangeAccess));
}

#[test]
fn make_u16_is_big_endian() {
    assert_eq!(State::make_u16(0x12, 0x34), 0x1234);
    assert_eq!(State::make_u16(0xff, 0xff), 0xffff);
    assert_eq!(State::make_u16(0, 7), 7);
}

#[test]
fn decode_covers_the_table() {
    assert_eq!(Opcode::decode(0), Some(Opcode::Nop));
    assert_eq!(Opcode::decode(6), Some(Opcode::LoadImm));
    assert_eq!(Opcode::decode(14), Some(Opcode::GreaterEq));
    assert_eq!(Opcode::decode(16), Some(Opcode::JmpIfZero));
    assert_eq!(Opcode::decode(22), Some(Opcode::Not));
    assert_eq!(Opcode::decode(23), None);
    assert_eq!(Opcode::decode(255), None);
}

#[test]
fn add_wraps_around() {
    let mut state = State::new(vec![6, 3, 0xff, 0xff, 1, 3, 3, 3]);
    run_steps(&mut state, 2);
    assert_eq!(state.register(3), Ok(65534));
}

#[test]
fn mul_wraps_around() {
    let mut state = State::new(vec![6, 0, 0x01, 0x00, 2, 1, 0, 0, 6, 2, 0x01, 0x01, 2, 3, 2, 2]);
    run_steps(&mut state, 4);
    assert_eq!(state.register(1), Ok(0));
    assert_eq!(state.register(3), Ok(0x0201));
}

#[test]
fn sub_wraps_around() {
    let mut state = State::new(vec![6, 1, 0, 1, 3, 2, 0, 1, 3, 3, 1, 0]);
    run_steps(&mut state, 3);
    assert_eq!(state.register(2), Ok(65535));
    assert_eq!(state.register(3), Ok(1));
}

#[test]
fn div_truncates() {
    let mut state = State::new(vec![6, 0, 0, 17, 6, 1, 0, 5, 4, 2, 0, 1]);
    run_steps(&mut state, 3);
    assert_eq!(state.register(2), Ok(3));
}

#[test]
fn div_by_zero_is_an_error() {
    let mut state = State::new(vec![6, 1, 0, 7, 4, 2, 1, 0]);
    run_steps(&mut state, 1);
    assert_eq!(state.tick(), Err(VmError::DivisionByZero));
    assert_eq!(state.register(2), Ok(0));
    assert_eq!(state.pc(), 8);
}

#[test]
fn loadimm_sets_exact_value() {
    let mut state = State::new(vec![6, 9, 0x12, 0x34]);
    run_steps(&mut state, 1);
    assert_eq!(state.register(9), Ok(0x1234));
    assert_eq!(state.pc(), 4);
}

#[test]
fn copy_and_not() {
    let mut state = State::new(vec![6, 0, 0x0f, 0xf0, 5, 1, 0, 0, 22, 2, 1, 0]);
    run_steps(&mut state, 3);
    assert_eq!(state.register(1), Ok(0x0ff0));
    assert_eq!(state.register(2), Ok(0xf00f));
}

#[test]
fn bitwise_operations() {
    let mut state = State::new(vec![
        6, 0, 0x0f, 0x0f, 6, 1, 0x00, 0xff, 19, 2, 0, 1, 20, 3, 0, 1, 21, 4, 0, 1,
    ]);
    run_steps(&mut state, 5);
    assert_eq!(state.register(2), Ok(0x000f));
    assert_eq!(state.register(3), Ok(0x0fff));
    assert_eq!(state.register(4), Ok(0x0ff0));
}

fn compare(op: u8, x: u8, y: u8) -> u16 {
    let mut state = State::new(vec![6, 0, 0, x, 6, 1, 0, y, op, 2, 0, 1]);
    run_steps(&mut state, 3);
    state.register(2).unwrap()
}

#[test]
fn comparisons() {
    assert_eq!(compare(9, 4, 4), 1);
    assert_eq!(compare(9, 4, 5), 0);
    assert_eq!(compare(10, 4, 4), 0);
    assert_eq!(compare(10, 4, 5), 1);
    assert_eq!(compare(11, 4, 5), 1);
    assert_eq!(compare(11, 5, 5), 0);
    assert_eq!(compare(12, 5, 5), 1);
    assert_eq!(compare(12, 6, 5), 0);
    assert_eq!(compare(13, 6, 5), 1);
    assert_eq!(compare(13, 5, 5), 0);
}

#[test]
fn greater_or_equal_is_not_less_than() {
    assert_eq!(compare(14, 5, 5), 1);
    assert_eq!(compare(14, 6, 5), 1);
    assert_eq!(compare(14, 4, 5), 0);
}

#[test]
fn store_then_load_round_trips() {
    let mut state = State::new(vec![6, 1, 0xbe, 0xef, 8, 0x1f, 0xfe, 1, 7, 2, 0x1f, 0xfe]);
    run_steps(&mut state, 3);
    assert_eq!(state.register(2), Ok(0xbeef));
    assert_eq!(state.memory_byte(8190), Ok(0xbe));
    assert_eq!(state.memory_byte(8191), Ok(0xef));
}

#[test]
fn two_byte_access_past_memory_is_out_of_range() {
    let mut state = State::new(vec![8, 0x1f, 0xff, 1]);
    assert_eq!(state.tick(), Err(VmError::OutOfRangeAccess));
    let mut state = State::new(vec![7, 1, 0xff, 0xff]);
    assert_eq!(state.tick(), Err(VmError::OutOfRangeAccess));
    assert_eq!(state.pc(), 4);
    assert_eq!(state.register(1), Ok(0));
}

#[test]
fn register_index_past_the_file_is_out_of_range() {
    let mut state = State::new(vec![1, 16, 0, 0]);
    assert_eq!(state.tick(), Err(VmError::OutOfRangeAccess));
    let mut state = State::new(vec![6, 200, 0, 1]);
    assert_eq!(state.tick(), Err(VmError::OutOfRangeAccess));
    assert_eq!(state.register(16), Err(VmError::OutOfRangeAccess));
}

#[test]
fn jump_if_zero_taken() {
    // r0 is zero: jump to 12, skipping the loadimm at 4 and 8.
    let mut state = State::new(vec![16, 0, 12, 0, 6, 1, 0, 1, 6, 1, 0, 2, 6, 2, 0, 3]);
    run_steps(&mut state, 1);
    assert_eq!(state.pc(), 12);
    run_steps(&mut state, 1);
    assert_eq!(state.register(1), Ok(0));
    assert_eq!(state.register(2), Ok(3));
}

#[test]
fn jump_if_zero_not_taken() {
    let mut state = State::new(vec![6, 0, 0, 1, 16, 0, 16, 0, 6, 1, 0, 1]);
    run_steps(&mut state, 2);
    assert_eq!(state.pc(), 8);
    run_steps(&mut state, 1);
    assert_eq!(state.register(1), Ok(1));
}

#[test]
fn unconditional_jump() {
    let mut state = State::new(vec![15, 0, 8, 0, 6, 1, 0, 1, 0, 0, 0, 0]);
    run_steps(&mut state, 1);
    assert_eq!(state.pc(), 8);
}

#[test]
fn register_relative_jumps_are_not_implemented() {
    let mut state = State::new(vec![17, 0, 0, 0]);
    assert_eq!(state.tick(), Err(VmError::NotImplemented));
    let mut state = State::new(vec![18, 0, 0, 0]);
    assert_eq!(state.tick(), Err(VmError::NotImplemented));
    assert_eq!(state.pc(), 4);
}

#[test]
fn exact_fit_then_end_of_program() {
    let mut state = State::new(vec![6, 0, 0, 1, 0, 0, 0, 0]);
    run_steps(&mut state, 2);
    assert_eq!(state.tick(), Err(VmError::EndOfProgram));
    assert_eq!(state.pc(), 8);
}

#[test]
fn truncated_instruction_is_end_of_program() {
    let mut state = State::new(vec![6, 0, 0, 1, 6, 1, 0]);
    run_steps(&mut state, 1);
    assert_eq!(state.tick(), Err(VmError::EndOfProgram));
    assert_eq!(state.register(1), Ok(0));
    let mut state = State::new(vec![6, 0]);
    assert_eq!(state.tick(), Err(VmError::EndOfProgram));
    let mut state = State::new(vec![]);
    assert_eq!(state.tick(), Err(VmError::EndOfProgram));
}

#[test]
fn opcode_out_of_table_is_invalid() {
    for op in [23u8, 24, 100, 255] {
        let mut state = State::new(vec![op, 0, 0, 0]);
        assert_eq!(state.tick(), Err(VmError::InvalidOpcode));
        assert_eq!(state.pc(), 4);
    }
}

#[test]
fn running_off_the_address_space_ends_the_program() {
    let mut bin = vec![0u8; 65536];
    bin[0] = 15;
    bin[1] = 0xff;
    bin[2] = 0xfc;
    let mut state = State::new(bin);
    run_steps(&mut state, 1);
    assert_eq!(state.pc(), 0xfffc);
    assert!(!state.past_end());
    run_steps(&mut state, 1);
    assert_eq!(state.pc(), 0);
    assert!(state.past_end());
    assert_eq!(state.tick(), Err(VmError::EndOfProgram));
    assert_eq!(state.tick(), Err(VmError::EndOfProgram));
}

#[test]
fn jump_from_the_top_of_the_address_space_continues() {
    let mut bin = vec![0u8; 65536];
    bin[0] = 15;
    bin[1] = 0xff;
    bin[2] = 0xfc;
    bin[0xfffc] = 15;
    bin[0xfffd] = 0;
    bin[0xfffe] = 8;
    let mut state = State::new(bin);
    run_steps(&mut state, 2);
    assert_eq!(state.pc(), 8);
    assert!(!state.past_end());
    assert_eq!(state.tick(), Ok(()));
}

#[test]
fn end_to_end_add_program() {
    let mut state = State::new(vec![6, 0, 0, 5, 6, 1, 0, 3, 1, 2, 0, 1, 0, 0, 0, 0]);
    run_steps(&mut state, 3);
    let mut expected = [0u16; 16];
    expected[0] = 5;
    expected[1] = 3;
    expected[2] = 8;
    assert_eq!(state.registers(), expected);
    assert_eq!(state.tick(), Ok(()));
    assert_eq!(state.tick(), Err(VmError::EndOfProgram));
}

#[test]
fn handlers_called_directly() {
    let mut state = State::new(vec![]);
    assert_eq!(state.afc(0, 0xff, 0xff), Ok(()));
    assert_eq!(state.add(1, 0, 0), Ok(()));
    assert_eq!(state.register(1), Ok(65534));
    assert_eq!(state.execute(Opcode::Sub, 2, 1, 0), Ok(()));
    assert_eq!(state.register(2), Ok(65535));
    assert_eq!(state.div(3, 0, 4), Err(VmError::DivisionByZero));
    assert_eq!(state.jmp(0x01, 0x00, 0), Ok(()));
    assert_eq!(state.pc(), 0x0100);
}
