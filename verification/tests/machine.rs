//! End-to-end tests: small programs run on the machine, with exact
//! expected outputs and exit codes.

use wordvm::{Computer, ExitCode};

#[test]
fn out_literal_outputs_itself() {
    // A literal word resolves to itself: `out 7` appends the byte 7.
    let mut comp = Computer::new(&[19, 7, 0]);
    assert_eq!(comp.read_instructions_until_terminate(), ExitCode::Halt);
    assert_eq!(comp.get_output(), &[7u8]);
}

#[test]
fn out_two_chars_then_halt() {
    let mut comp = Computer::new(&[19, 65, 19, 66, 0]);
    assert_eq!(comp.read_instructions_until_terminate(), ExitCode::Halt);
    assert_eq!(comp.get_output(), &[65u8, 66]);
}

#[test]
fn add_through_registers_outputs_sum() {
    // set reg1 = 61; add reg0 = reg1 + 4; out reg0; halt.
    let mut comp = Computer::new(&[1, 32769, 61, 9, 32768, 32769, 4, 19, 32768, 0]);
    assert_eq!(comp.read_instructions_until_terminate(), ExitCode::Halt);
    assert_eq!(comp.get_output(), &[65u8]);
}

#[test]
fn unknown_opcode_faults() {
    let mut comp = Computer::new(&[255]);
    assert_eq!(
        comp.read_instructions_until_terminate(),
        ExitCode::InvalidOperation
    );
    assert!(comp.get_output().is_empty());
}

#[test]
fn in_suspends_then_consumes_line() {
    // in reg0; in reg1; out reg0; out reg1; halt.
    let mut comp = Computer::new(&[20, 32768, 20, 32769, 19, 32768, 19, 32769, 0]);
    assert_eq!(
        comp.read_instructions_until_terminate(),
        ExitCode::NeedInput
    );
    assert!(comp.get_output().is_empty());
    comp.add_input(b"X");
    assert_eq!(comp.read_instructions_until_terminate(), ExitCode::Halt);
    // The two reads consume 'X' then the newline terminator, in that order.
    assert_eq!(comp.get_output(), &[88u8, 10]);
}

#[test]
fn set_stores_resolved_value() {
    // set reg0 = 65; set reg1 = reg0; out reg1; halt.
    let mut comp = Computer::new(&[1, 32768, 65, 1, 32769, 32768, 19, 32769, 0]);
    assert_eq!(comp.read_instructions_until_terminate(), ExitCode::Halt);
    assert_eq!(comp.get_output(), &[65u8]);
}

#[test]
fn add_wraps_at_boundary() {
    // add reg0 = 32767 + 2 wraps to 1.
    let mut comp = Computer::new(&[9, 32768, 32767, 2, 19, 32768, 0]);
    assert_eq!(comp.read_instructions_until_terminate(), ExitCode::Halt);
    assert_eq!(comp.get_output(), &[1u8]);
}

#[test]
fn mult_wraps_at_boundary() {
    // mult reg0 = 32767 * 2 = 65534 mod 32768 = 32766; eq reg1 = (reg0 == 32766).
    let mut comp = Computer::new(&[10, 32768, 32767, 2, 4, 32769, 32768, 32766, 19, 32769, 0]);
    assert_eq!(comp.read_instructions_until_terminate(), ExitCode::Halt);
    assert_eq!(comp.get_output(), &[1u8]);
}

#[test]
fn not_is_involution() {
    // not reg0 = ~21; not reg0 = ~reg0; out reg0 restores 21.
    let mut comp = Computer::new(&[14, 32768, 21, 14, 32768, 32768, 19, 32768, 0]);
    assert_eq!(comp.read_instructions_until_terminate(), ExitCode::Halt);
    assert_eq!(comp.get_output(), &[21u8]);
}

#[test]
fn not_flips_fifteen_bits() {
    // not reg0 = ~0 = 32767; eq reg1 = (reg0 == 32767).
    let mut comp = Computer::new(&[14, 32768, 0, 4, 32769, 32768, 32767, 19, 32769, 0]);
    assert_eq!(comp.read_instructions_until_terminate(), ExitCode::Halt);
    assert_eq!(comp.get_output(), &[1u8]);
}

#[test]
fn call_ret_returns_after_call() {
    // call 5 jumps to a routine that prints 'A' and returns; the caller then
    // prints 'B': output order proves control came back after the call.
    let mut comp = Computer::new(&[17, 5, 19, 66, 0, 19, 65, 18]);
    assert_eq!(comp.read_instructions_until_terminate(), ExitCode::Halt);
    assert_eq!(comp.get_output(), &[65u8, 66]);
}

#[test]
fn ret_on_empty_stack_halts() {
    let mut comp = Computer::new(&[18]);
    assert_eq!(comp.read_instructions_until_terminate(), ExitCode::Halt);
    assert!(comp.get_output().is_empty());
}

#[test]
fn in_on_empty_queue_retries_same_instruction() {
    // in reg0; out reg0; halt. Suspension leaves the cursor on the `in`, so
    // resuming without input suspends again, and resuming with input runs it.
    let mut comp = Computer::new(&[20, 32768, 19, 32768, 0]);
    assert_eq!(
        comp.read_instructions_until_terminate(),
        ExitCode::NeedInput
    );
    assert_eq!(
        comp.read_instructions_until_terminate(),
        ExitCode::NeedInput
    );
    assert!(comp.get_output().is_empty());
    comp.add_input(b"");
    assert_eq!(comp.read_instructions_until_terminate(), ExitCode::Halt);
    // The empty line still carries its newline terminator.
    assert_eq!(comp.get_output(), &[10u8]);
}

#[test]
fn input_lines_queue_in_order() {
    // Four reads: 'A', newline, 'B', newline.
    let mut comp = Computer::new(&[
        20, 32768, 19, 32768, 20, 32768, 19, 32768, 20, 32768, 19, 32768, 20, 32768, 19, 32768, 0,
    ]);
    comp.add_input(b"A");
    comp.add_input(b"B");
    assert_eq!(comp.read_instructions_until_terminate(), ExitCode::Halt);
    assert_eq!(comp.get_output(), &[65u8, 10, 66, 10]);
}

#[test]
fn push_pop_roundtrip() {
    let mut comp = Computer::new(&[2, 65, 3, 32768, 19, 32768, 0]);
    assert_eq!(comp.read_instructions_until_terminate(), ExitCode::Halt);
    assert_eq!(comp.get_output(), &[65u8]);
}

#[test]
fn jmp_jumps_to_literal() {
    let mut comp = Computer::new(&[6, 4, 0, 0, 19, 65, 0]);
    assert_eq!(comp.read_instructions_until_terminate(), ExitCode::Halt);
    assert_eq!(comp.get_output(), &[65u8]);
}

#[test]
fn jt_taken_on_nonzero() {
    let mut comp = Computer::new(&[7, 1, 5, 0, 0, 19, 66, 0]);
    assert_eq!(comp.read_instructions_until_terminate(), ExitCode::Halt);
    assert_eq!(comp.get_output(), &[66u8]);
}

#[test]
fn jt_not_taken_on_zero() {
    let mut comp = Computer::new(&[7, 0, 6, 19, 65, 0]);
    assert_eq!(comp.read_instructions_until_terminate(), ExitCode::Halt);
    assert_eq!(comp.get_output(), &[65u8]);
}

#[test]
fn jf_taken_on_zero() {
    let mut comp = Computer::new(&[8, 0, 5, 0, 0, 19, 66, 0]);
    assert_eq!(comp.read_instructions_until_terminate(), ExitCode::Halt);
    assert_eq!(comp.get_output(), &[66u8]);
}

#[test]
fn jf_not_taken_on_nonzero() {
    let mut comp = Computer::new(&[8, 3, 6, 19, 65, 0]);
    assert_eq!(comp.read_instructions_until_terminate(), ExitCode::Halt);
    assert_eq!(comp.get_output(), &[65u8]);
}

#[test]
fn eq_stores_one_and_zero() {
    let mut equal = Computer::new(&[4, 32768, 5, 5, 19, 32768, 0]);
    assert_eq!(equal.read_instructions_until_terminate(), ExitCode::Halt);
    assert_eq!(equal.get_output(), &[1u8]);

    let mut unequal = Computer::new(&[4, 32768, 5, 6, 19, 32768, 0]);
    assert_eq!(unequal.read_instructions_until_terminate(), ExitCode::Halt);
    assert_eq!(unequal.get_output(), &[0u8]);
}

#[test]
fn gt_stores_one_and_zero() {
    let mut greater = Computer::new(&[5, 32768, 7, 5, 19, 32768, 0]);
    assert_eq!(greater.read_instructions_until_terminate(), ExitCode::Halt);
    assert_eq!(greater.get_output(), &[1u8]);

    let mut not_greater = Computer::new(&[5, 32768, 5, 5, 19, 32768, 0]);
    assert_eq!(
        not_greater.read_instructions_until_terminate(),
        ExitCode::Halt
    );
    assert_eq!(not_greater.get_output(), &[0u8]);
}

#[test]
fn and_or_mod_compute() {
    let mut and = Computer::new(&[12, 32768, 12, 10, 19, 32768, 0]);
    assert_eq!(and.read_instructions_until_terminate(), ExitCode::Halt);
    assert_eq!(and.get_output(), &[8u8]);

    let mut or = Computer::new(&[13, 32768, 12, 10, 19, 32768, 0]);
    assert_eq!(or.read_instructions_until_terminate(), ExitCode::Halt);
    assert_eq!(or.get_output(), &[14u8]);

    let mut rem = Computer::new(&[11, 32768, 17, 5, 19, 32768, 0]);
    assert_eq!(rem.read_instructions_until_terminate(), ExitCode::Halt);
    assert_eq!(rem.get_output(), &[2u8]);
}

#[test]
fn wmem_rmem_roundtrip() {
    // wmem mem[100] = 65; rmem reg0 = mem[100]; out reg0.
    let mut comp = Computer::new(&[16, 100, 65, 15, 32768, 100, 19, 32768, 0]);
    assert_eq!(comp.read_instructions_until_terminate(), ExitCode::Halt);
    assert_eq!(comp.get_output(), &[65u8]);
}

#[test]
fn wmem_resolves_destination_through_register() {
    // set reg0 = 100; wmem through reg0 stores at address 100, not at 32768.
    let mut comp = Computer::new(&[
        1, 32768, 100, 16, 32768, 66, 15, 32769, 100, 19, 32769, 0,
    ]);
    assert_eq!(comp.read_instructions_until_terminate(), ExitCode::Halt);
    assert_eq!(comp.get_output(), &[66u8]);
}

#[test]
fn set_to_literal_destination_writes_memory() {
    // set mem[10] = 65; rmem reg0 = mem[10]; out reg0.
    let mut comp = Computer::new(&[1, 10, 65, 15, 32768, 10, 19, 32768, 0, 0, 0]);
    assert_eq!(comp.read_instructions_until_terminate(), ExitCode::Halt);
    assert_eq!(comp.get_output(), &[65u8]);
}

#[test]
fn noop_advances_only() {
    let mut comp = Computer::new(&[21, 19, 65, 0]);
    assert_eq!(comp.read_instructions_until_terminate(), ExitCode::Halt);
    assert_eq!(comp.get_output(), &[65u8]);
}

#[test]
fn from_bytes_decodes_little_endian() {
    // Bytes [19,0, 65,0, 0,0] decode to the words [19, 65, 0].
    let mut comp = Computer::from_bytes(&[19, 0, 65, 0, 0, 0]);
    assert_eq!(comp.read_instructions_until_terminate(), ExitCode::Halt);
    assert_eq!(comp.get_output(), &[65u8]);
}

#[test]
fn from_bytes_ignores_trailing_odd_byte() {
    let mut comp = Computer::from_bytes(&[19, 0, 65, 0, 0, 0, 99]);
    assert_eq!(comp.read_instructions_until_terminate(), ExitCode::Halt);
    assert_eq!(comp.get_output(), &[65u8]);
}

#[test]
fn from_bytes_high_byte_counts() {
    // Bytes [1,1] decode to the word 257: out 257 is no byte, a fault.
    let mut comp = Computer::from_bytes(&[19, 0, 1, 1]);
    assert_eq!(
        comp.read_instructions_until_terminate(),
        ExitCode::InvalidOperation
    );
    assert!(comp.get_output().is_empty());
}

#[test]
fn get_output_as_string_drains() {
    let mut comp = Computer::new(&[19, 72, 19, 105, 0]);
    assert_eq!(comp.read_instructions_until_terminate(), ExitCode::Halt);
    assert_eq!(comp.get_output_as_string(), "Hi");
    assert!(comp.get_output().is_empty());
    assert_eq!(comp.get_output_as_string(), "");
}

#[test]
fn out_of_byte_range_faults() {
    let mut comp = Computer::new(&[19, 300]);
    assert_eq!(
        comp.read_instructions_until_terminate(),
        ExitCode::InvalidOperation
    );
    assert!(comp.get_output().is_empty());
}

#[test]
fn mod_by_zero_faults() {
    let mut comp = Computer::new(&[11, 32768, 5, 0]);
    assert_eq!(
        comp.read_instructions_until_terminate(),
        ExitCode::InvalidOperation
    );
}

#[test]
fn pop_on_empty_stack_faults() {
    let mut comp = Computer::new(&[3, 32768]);
    assert_eq!(
        comp.read_instructions_until_terminate(),
        ExitCode::InvalidOperation
    );
}

#[test]
fn write_to_invalid_word_faults() {
    // 32776 is past the registers and no memory address.
    let mut comp = Computer::new(&[1, 32776, 5]);
    assert_eq!(
        comp.read_instructions_until_terminate(),
        ExitCode::InvalidOperation
    );
}

#[test]
fn rmem_past_end_of_memory_faults() {
    // 32767 is one past the last memory cell.
    let mut comp = Computer::new(&[15, 32768, 32767]);
    assert_eq!(
        comp.read_instructions_until_terminate(),
        ExitCode::InvalidOperation
    );
}

#[test]
fn jmp_past_end_runs_out_of_operations() {
    let mut comp = Computer::new(&[6, 32767]);
    assert_eq!(
        comp.read_instructions_until_terminate(),
        ExitCode::OutOfOperations
    );
}

#[test]
fn operand_past_end_runs_out_of_operations() {
    // Plant an `out` opcode in the last memory cell's neighbourhood: its
    // operand would sit past the end of memory.
    let mut comp = Computer::new(&[16, 32766, 19, 6, 32766]);
    assert_eq!(
        comp.read_instructions_until_terminate(),
        ExitCode::OutOfOperations
    );
}

#[test]
fn halt_is_stable_across_runs() {
    let mut comp = Computer::new(&[0]);
    assert_eq!(comp.read_instructions_until_terminate(), ExitCode::Halt);
    assert_eq!(comp.read_instructions_until_terminate(), ExitCode::Halt);
    assert!(comp.get_output().is_empty());
}
