//! The mathematical model of the machine.
//!
//! A [`MachineState`] holds the whole execution state as sequences, and
//! [`step`] says exactly what one fetch-decode-execute cycle does to it.
//! The executable machine in [`crate::computer`] is proved to follow `step`,
//! and [`run_n`] / [`runs_to`] describe whole runs in its contracts.

use vstd::prelude::*;

verus! {

/// Why a run of the machine stopped. `Continue` is the transient "one more
/// instruction was executed" signal; a run reports it only in the practically
/// unreachable case that the step budget of a single call runs out.
#[derive(Clone, Copy, Debug, PartialEq, Eq, Structural)]
pub enum ExitCode {
    Continue,
    Halt,
    InvalidOperation,
    OutOfOperations,
    NeedInput,
}

/// Number of memory cells: literal addresses run from 0 to 32766.
pub const MEM_SIZE: usize = 32767;

/// Number of registers, addressed by the words 32768..=32775.
pub const NUM_REGISTERS: usize = 8;

/// The machine's entire execution state.
#[verifier::ext_equal]
pub ghost struct MachineState {
    /// Word memory, always `MEM_SIZE` cells.
    pub mem: Seq<u16>,
    /// The instruction pointer: index of the next opcode to decode.
    pub cursor: nat,
    /// Output bytes accumulated and not yet drained by the caller.
    pub output: Seq<u8>,
    /// The eight registers.
    pub regs: Seq<u16>,
    /// The call/value stack; the last element is the top.
    pub stack: Seq<u16>,
    /// Input bytes awaiting consumption; the first element is consumed next.
    pub input: Seq<u8>,
}

/// The shape every reachable state keeps: full-size memory and eight registers.
pub open spec fn wf_state(s: MachineState) -> bool {
    &&& s.mem.len() == MEM_SIZE as nat
    &&& s.regs.len() == NUM_REGISTERS as nat
}

/// Whether a word addresses a register.
pub open spec fn is_register(w: u16) -> bool {
    32768 <= w <= 32775
}

/// Address resolution: words below 32768 are literals, 32768..=32775 read a
/// register, and anything above is invalid and resolves to 0.
pub open spec fn read_spec(s: MachineState, w: u16) -> u16 {
    if w < 32768 {
        w
    } else if w <= 32775 {
        s.regs[w - 32768]
    } else {
        0
    }
}

/// Write resolution: a register address stores into that register, a literal
/// address stores into that memory cell, and anything else is invalid (`None`).
/// The value is stored as given, not re-resolved.
pub open spec fn write_spec(s: MachineState, dest: u16, val: u16) -> Option<MachineState> {
    if is_register(dest) {
        Some(MachineState { regs: s.regs.update(dest - 32768, val), ..s })
    } else if (dest as int) < s.mem.len() {
        Some(MachineState { mem: s.mem.update(dest as int, val), ..s })
    } else {
        None
    }
}

/// The 15-bit one's complement: flip the low fifteen bits, drop the rest.
pub open spec fn complement15(v: u16) -> u16 {
    (32767 - v as int % 32768) as u16
}

/// Operand `i` of the instruction at the cursor sits `i` words past the opcode.
pub open spec fn operand(s: MachineState, i: nat) -> u16 {
    s.mem[s.cursor + i as int]
}

/// Whether an instruction with `argc` operands lies entirely within memory.
pub open spec fn operands_in_bounds(s: MachineState, argc: nat) -> bool {
    s.cursor + argc < s.mem.len()
}

/// The state after consuming the opcode and `argc` operands.
pub open spec fn advanced(s: MachineState, argc: nat) -> MachineState {
    MachineState { cursor: s.cursor + argc + 1, ..s }
}

/// Store `val` through write resolution at destination `dest` after consuming
/// `argc` operands; an invalid destination is a decode fault.
pub open spec fn store_result(s: MachineState, argc: nat, dest: u16, val: u16) -> (MachineState,
    ExitCode) {
    match write_spec(advanced(s, argc), dest, val) {
        Some(s2) => (s2, ExitCode::Continue),
        None => (advanced(s, argc), ExitCode::InvalidOperation),
    }
}

/// `set a b`: store the resolved source operand.
pub open spec fn step_set(s: MachineState) -> (MachineState, ExitCode) {
    if !operands_in_bounds(s, 2) {
        (s, ExitCode::OutOfOperations)
    } else {
        store_result(s, 2, operand(s, 1), read_spec(s, operand(s, 2)))
    }
}

/// `push a`: push the resolved operand onto the stack.
pub open spec fn step_push(s: MachineState) -> (MachineState, ExitCode) {
    if !operands_in_bounds(s, 1) {
        (s, ExitCode::OutOfOperations)
    } else {
        (
            MachineState {
                cursor: s.cursor + 2,
                stack: s.stack.push(read_spec(s, operand(s, 1))),
                ..s
            },
            ExitCode::Continue,
        )
    }
}

/// `pop a`: pop the top of the stack into `a`; an empty stack is a fault.
pub open spec fn step_pop(s: MachineState) -> (MachineState, ExitCode) {
    if !operands_in_bounds(s, 1) {
        (s, ExitCode::OutOfOperations)
    } else if s.stack.len() == 0 {
        (advanced(s, 1), ExitCode::InvalidOperation)
    } else {
        store_result(
            MachineState { stack: s.stack.drop_last(), ..s },
            1,
            operand(s, 1),
            s.stack.last(),
        )
    }
}

/// `eq a b c`: store 1 if the operands resolve equal, else 0.
pub open spec fn step_eq(s: MachineState) -> (MachineState, ExitCode) {
    if !operands_in_bounds(s, 3) {
        (s, ExitCode::OutOfOperations)
    } else {
        store_result(
            s,
            3,
            operand(s, 1),
            if read_spec(s, operand(s, 2)) == read_spec(s, operand(s, 3)) {
                1u16
            } else {
                0u16
            },
        )
    }
}

/// `gt a b c`: store 1 if the second operand resolves greater, else 0.
pub open spec fn step_gt(s: MachineState) -> (MachineState, ExitCode) {
    if !operands_in_bounds(s, 3) {
        (s, ExitCode::OutOfOperations)
    } else {
        store_result(
            s,
            3,
            operand(s, 1),
            if read_spec(s, operand(s, 2)) > read_spec(s, operand(s, 3)) {
                1u16
            } else {
                0u16
            },
        )
    }
}

/// `jmp a`: jump to the resolved operand.
pub open spec fn step_jmp(s: MachineState) -> (MachineState, ExitCode) {
    if !operands_in_bounds(s, 1) {
        (s, ExitCode::OutOfOperations)
    } else {
        (MachineState { cursor: read_spec(s, operand(s, 1)) as nat, ..s }, ExitCode::Continue)
    }
}

/// `jt a b`: jump to `b` if `a` resolves nonzero.
pub open spec fn step_jt(s: MachineState) -> (MachineState, ExitCode) {
    if !operands_in_bounds(s, 2) {
        (s, ExitCode::OutOfOperations)
    } else if read_spec(s, operand(s, 1)) != 0 {
        (MachineState { cursor: read_spec(s, operand(s, 2)) as nat, ..s }, ExitCode::Continue)
    } else {
        (advanced(s, 2), ExitCode::Continue)
    }
}

/// `jf a b`: jump to `b` if `a` resolves to zero.
pub open spec fn step_jf(s: MachineState) -> (MachineState, ExitCode) {
    if !operands_in_bounds(s, 2) {
        (s, ExitCode::OutOfOperations)
    } else if read_spec(s, operand(s, 1)) == 0 {
        (MachineState { cursor: read_spec(s, operand(s, 2)) as nat, ..s }, ExitCode::Continue)
    } else {
        (advanced(s, 2), ExitCode::Continue)
    }
}

/// `add a b c`: store the sum modulo 32768.
pub open spec fn step_add(s: MachineState) -> (MachineState, ExitCode) {
    if !operands_in_bounds(s, 3) {
        (s, ExitCode::OutOfOperations)
    } else {
        store_result(
            s,
            3,
            operand(s, 1),
            ((read_spec(s, operand(s, 2)) as int + read_spec(s, operand(s, 3)) as int)
                % 32768) as u16,
        )
    }
}

/// `mult a b c`: store the product modulo 32768.
pub open spec fn step_mult(s: MachineState) -> (MachineState, ExitCode) {
    if !operands_in_bounds(s, 3) {
        (s, ExitCode::OutOfOperations)
    } else {
        store_result(
            s,
            3,
            operand(s, 1),
            ((read_spec(s, operand(s, 2)) as int * read_spec(s, operand(s, 3)) as int)
                % 32768) as u16,
        )
    }
}

/// `mod a b c`: store the remainder; a zero divisor is a fault.
pub open spec fn step_mod(s: MachineState) -> (MachineState, ExitCode) {
    if !operands_in_bounds(s, 3) {
        (s, ExitCode::OutOfOperations)
    } else if read_spec(s, operand(s, 3)) == 0 {
        (advanced(s, 3), ExitCode::InvalidOperation)
    } else {
        store_result(s, 3, operand(s, 1), read_spec(s, operand(s, 2)) % read_spec(s, operand(s, 3)))
    }
}

/// `and a b c`: store the bitwise and.
pub open spec fn step_and(s: MachineState) -> (MachineState, ExitCode) {
    if !operands_in_bounds(s, 3) {
        (s, ExitCode::OutOfOperations)
    } else {
        store_result(s, 3, operand(s, 1), read_spec(s, operand(s, 2)) & read_spec(s, operand(s, 3)))
    }
}

/// `or a b c`: store the bitwise or.
pub open spec fn step_or(s: MachineState) -> (MachineState, ExitCode) {
    if !operands_in_bounds(s, 3) {
        (s, ExitCode::OutOfOperations)
    } else {
        store_result(s, 3, operand(s, 1), read_spec(s, operand(s, 2)) | read_spec(s, operand(s, 3)))
    }
}

/// `not a b`: store the 15-bit complement of the resolved operand.
pub open spec fn step_not(s: MachineState) -> (MachineState, ExitCode) {
    if !operands_in_bounds(s, 2) {
        (s, ExitCode::OutOfOperations)
    } else {
        store_result(s, 2, operand(s, 1), complement15(read_spec(s, operand(s, 2))))
    }
}

/// `rmem a b`: store the memory cell the resolved operand addresses; an
/// address past the end of memory is a fault.
pub open spec fn step_rmem(s: MachineState) -> (MachineState, ExitCode) {
    if !operands_in_bounds(s, 2) {
        (s, ExitCode::OutOfOperations)
    } else if read_spec(s, operand(s, 2)) as int >= s.mem.len() {
        (advanced(s, 2), ExitCode::InvalidOperation)
    } else {
        store_result(s, 2, operand(s, 1), s.mem[read_spec(s, operand(s, 2)) as int])
    }
}

/// `wmem a b`: write the resolved second operand through the resolved first
/// operand, taken as a destination.
pub open spec fn step_wmem(s: MachineState) -> (MachineState, ExitCode) {
    if !operands_in_bounds(s, 2) {
        (s, ExitCode::OutOfOperations)
    } else {
        store_result(s, 2, read_spec(s, operand(s, 1)), read_spec(s, operand(s, 2)))
    }
}

/// `call a`: push the address of the next instruction, then jump.
pub open spec fn step_call(s: MachineState) -> (MachineState, ExitCode) {
    if !operands_in_bounds(s, 1) {
        (s, ExitCode::OutOfOperations)
    } else {
        (
            MachineState {
                cursor: read_spec(s, operand(s, 1)) as nat,
                stack: s.stack.push((s.cursor + 2) as u16),
                ..s
            },
            ExitCode::Continue,
        )
    }
}

/// `ret`: pop the return address into the cursor; an empty stack means the
/// program is complete and halts.
pub open spec fn step_ret(s: MachineState) -> (MachineState, ExitCode) {
    if s.stack.len() == 0 {
        (s, ExitCode::Halt)
    } else {
        (
            MachineState { cursor: s.stack.last() as nat, stack: s.stack.drop_last(), ..s },
            ExitCode::Continue,
        )
    }
}

/// `out a`: append the resolved operand to the output as one byte; a value
/// that is no byte is a fault.
pub open spec fn step_out(s: MachineState) -> (MachineState, ExitCode) {
    if !operands_in_bounds(s, 1) {
        (s, ExitCode::OutOfOperations)
    } else if read_spec(s, operand(s, 1)) > 255 {
        (advanced(s, 1), ExitCode::InvalidOperation)
    } else {
        (
            MachineState {
                cursor: s.cursor + 2,
                output: s.output.push(read_spec(s, operand(s, 1)) as u8),
                ..s
            },
            ExitCode::Continue,
        )
    }
}

/// `in a`: consume the next input byte into `a`; with no input pending the
/// machine suspends unchanged, so that resuming retries this instruction.
pub open spec fn step_in(s: MachineState) -> (MachineState, ExitCode) {
    if !operands_in_bounds(s, 1) {
        (s, ExitCode::OutOfOperations)
    } else if s.input.len() == 0 {
        (s, ExitCode::NeedInput)
    } else {
        store_result(
            MachineState { input: s.input.subrange(1, s.input.len() as int), ..s },
            1,
            operand(s, 1),
            s.input[0] as u16,
        )
    }
}

/// `noop`: consume the opcode and do nothing else.
pub open spec fn step_noop(s: MachineState) -> (MachineState, ExitCode) {
    (advanced(s, 0), ExitCode::Continue)
}

/// One fetch-decode-execute cycle: what the next instruction does to the
/// state, and whether execution goes on. A cursor past the end of memory
/// means the program ran out of instructions; an unrecognized opcode is a
/// decode fault. Every stopping step leaves the state it reports.
pub open spec fn step(s: MachineState) -> (MachineState, ExitCode) {
    if s.cursor >= s.mem.len() {
        (s, ExitCode::OutOfOperations)
    } else {
        let op = s.mem[s.cursor as int];
        if op == 0 {
            (s, ExitCode::Halt)
        } else if op == 1 {
            step_set(s)
        } else if op == 2 {
            step_push(s)
        } else if op == 3 {
            step_pop(s)
        } else if op == 4 {
            step_eq(s)
        } else if op == 5 {
            step_gt(s)
        } else if op == 6 {
            step_jmp(s)
        } else if op == 7 {
            step_jt(s)
        } else if op == 8 {
            step_jf(s)
        } else if op == 9 {
            step_add(s)
        } else if op == 10 {
            step_mult(s)
        } else if op == 11 {
            step_mod(s)
        } else if op == 12 {
            step_and(s)
        } else if op == 13 {
            step_or(s)
        } else if op == 14 {
            step_not(s)
        } else if op == 15 {
            step_rmem(s)
        } else if op == 16 {
            step_wmem(s)
        } else if op == 17 {
            step_call(s)
        } else if op == 18 {
            step_ret(s)
        } else if op == 19 {
            step_out(s)
        } else if op == 20 {
            step_in(s)
        } else if op == 21 {
            step_noop(s)
        } else {
            (s, ExitCode::InvalidOperation)
        }
    }
}

/// The state `n` steps after `s`.
pub open spec fn run_n(s: MachineState, n: nat) -> MachineState
    decreases n,
{
    if n == 0 {
        s
    } else {
        step(run_n(s, (n - 1) as nat)).0
    }
}

/// A run from `s0` executes `n` continuing steps, then one step that stops
/// with `r` and leaves the machine in `sf`.
pub open spec fn runs_to(s0: MachineState, sf: MachineState, n: nat, r: ExitCode) -> bool {
    &&& (forall|k: nat| k < n ==> step(#[trigger] run_n(s0, k)).1 == ExitCode::Continue)
    &&& step(run_n(s0, n)).1 == r
    &&& sf == step(run_n(s0, n)).0
    &&& r != ExitCode::Continue
}

/// The 16-bit word two bytes form in little-endian order.
pub open spec fn le_word(lo: u8, hi: u8) -> u16 {
    (lo + 256 * hi) as u16
}

/// The words of a program image: consecutive byte pairs, little-endian;
/// a trailing odd byte is ignored.
pub open spec fn words_of_bytes(bytes: Seq<u8>) -> Seq<u16> {
    Seq::new(bytes.len() / 2, |i: int| le_word(bytes[2 * i], bytes[2 * i + 1]))
}

/// The state of a freshly constructed machine: the program words at the low
/// end of a zero-filled memory (words past the end of memory are dropped),
/// everything else empty or zero.
pub open spec fn initial_state(words: Seq<u16>) -> MachineState {
    MachineState {
        mem: Seq::new(
            MEM_SIZE as nat,
            |i: int|
                if i < words.len() {
                    words[i]
                } else {
                    0u16
                },
        ),
        cursor: 0,
        output: Seq::empty(),
        regs: Seq::new(NUM_REGISTERS as nat, |i: int| 0u16),
        stack: Seq::empty(),
        input: Seq::empty(),
    }
}

} // verus!
