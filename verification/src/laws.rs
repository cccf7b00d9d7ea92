//! General properties of the machine, proved from the model.

use vstd::prelude::*;

use crate::model::{
    complement15, is_register, operand, read_spec, step, wf_state, ExitCode, MachineState,
};

verus! {

/// A literal word resolves to itself.
pub proof fn lemma_read_literal_identity(s: MachineState, w: u16)
    requires
        w < 32768,
    ensures
        read_spec(s, w) == w,
{
}

/// A `set` instruction whose destination is a register stores the resolved
/// source operand: afterwards the destination and the source operand resolve
/// to the same value, namely what the source resolved to before.
pub proof fn lemma_set_stores_resolved(s: MachineState)
    requires
        wf_state(s),
        s.cursor + 2 < s.mem.len(),
        s.mem[s.cursor as int] == 1,
        is_register(operand(s, 1)),
    ensures
        step(s).1 == ExitCode::Continue,
        read_spec(step(s).0, operand(s, 1)) == read_spec(step(s).0, operand(s, 2)),
        read_spec(step(s).0, operand(s, 1)) == read_spec(s, operand(s, 2)),
{
}

/// `add` and `mult` wrap at the word boundary: the value they store is the
/// sum or product modulo 32768, always a 15-bit word.
pub proof fn lemma_arith_result_in_range(s: MachineState)
    requires
        wf_state(s),
        s.cursor + 3 < s.mem.len(),
        s.mem[s.cursor as int] == 9 || s.mem[s.cursor as int] == 10,
        step(s).1 == ExitCode::Continue,
    ensures
        ({
            let x = read_spec(s, operand(s, 2)) as int;
            let y = read_spec(s, operand(s, 3)) as int;
            let v = (if s.mem[s.cursor as int] == 9 {
                (x + y) % 32768
            } else {
                (x * y) % 32768
            }) as u16;
            &&& 0 <= v < 32768
            &&& (is_register(operand(s, 1)) ==> step(s).0.regs[operand(s, 1) - 32768] == v)
            &&& (!is_register(operand(s, 1)) ==> step(s).0.mem[operand(s, 1) as int] == v)
        }),
{
    let x = read_spec(s, operand(s, 2)) as int;
    let y = read_spec(s, operand(s, 3)) as int;
    assert(x * y >= 0) by (nonlinear_arith)
        requires
            x >= 0,
            y >= 0,
    ;
}

/// The 15-bit complement is an involution: applying `not` twice restores the
/// original word, and one application always yields a 15-bit word.
pub proof fn lemma_not_involution(v: u16)
    requires
        v < 32768,
    ensures
        complement15(complement15(v)) == v,
        complement15(v) < 32768,
{
}

/// A `call` whose target holds a `ret` returns control to the instruction
/// immediately after the `call`, with the stack exactly as it was.
pub proof fn lemma_call_then_ret(s: MachineState)
    requires
        wf_state(s),
        s.cursor + 1 < s.mem.len(),
        s.mem[s.cursor as int] == 17,
        (read_spec(s, operand(s, 1)) as int) < s.mem.len(),
        s.mem[read_spec(s, operand(s, 1)) as int] == 18,
    ensures
        step(s).1 == ExitCode::Continue,
        step(step(s).0).1 == ExitCode::Continue,
        step(step(s).0).0.cursor == s.cursor + 2,
        step(step(s).0).0.stack == s.stack,
{
    let s1 = step(s).0;
    assert(s1.stack.len() == s.stack.len() + 1);
    assert(s1.stack.last() == (s.cursor + 2) as u16);
    assert(step(s1).0.stack =~= s.stack);
}

/// `ret` on an empty stack halts rather than faulting, leaving the state as
/// it is.
pub proof fn lemma_ret_empty_halts(s: MachineState)
    requires
        wf_state(s),
        s.cursor < s.mem.len(),
        s.mem[s.cursor as int] == 18,
        s.stack.len() == 0,
    ensures
        step(s).1 == ExitCode::Halt,
        step(s).0 == s,
{
}

/// `in` with an empty input queue suspends the machine with nothing changed —
/// in particular the instruction pointer still addresses the same `in`
/// instruction, so a resumed run retries it.
pub proof fn lemma_in_empty_suspends(s: MachineState)
    requires
        wf_state(s),
        s.cursor + 1 < s.mem.len(),
        s.mem[s.cursor as int] == 20,
        s.input.len() == 0,
    ensures
        step(s).1 == ExitCode::NeedInput,
        step(s).0 == s,
{
}

} // verus!
