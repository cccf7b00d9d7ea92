//! The executable machine, verified against the model in [`crate::model`].

use std::collections::VecDeque;
use vstd::prelude::*;
use vstd::utf8::{decode_utf8, encode_utf8, encode_utf8_decode_utf8, valid_utf8};

use crate::model::{
    advanced, initial_state, operand, read_spec, run_n, runs_to, step, step_add, step_and,
    step_call, step_eq, step_gt, step_in, step_jf, step_jmp, step_jt, step_mod, step_mult,
    step_noop, step_not, step_or, step_out, step_pop, step_push, step_ret, step_rmem, step_set,
    step_wmem, wf_state, words_of_bytes, write_spec, ExitCode, MachineState, MEM_SIZE,
    NUM_REGISTERS,
};

verus! {

/// The machine: word memory, registers, stack, output buffer and input queue,
/// driven by [`Computer::read_instructions_until_terminate`].
pub struct Computer {
    mem: Vec<u16>,
    cursor: usize,
    output: Vec<u8>,
    registers: Vec<u16>,
    stack: Vec<u16>,
    input: VecDeque<u8>,
}

impl View for Computer {
    type V = MachineState;

    closed spec fn view(&self) -> MachineState {
        MachineState {
            mem: self.mem@,
            cursor: self.cursor as nat,
            output: self.output@,
            regs: self.registers@,
            stack: self.stack@,
            input: self.input@,
        }
    }
}

impl Computer {
    /// The machine keeps its shape: full-size memory, eight registers.
    pub open spec fn wf(&self) -> bool {
        wf_state(self@)
    }

    /// Build a machine from an already-decoded word sequence: the words are
    /// laid at the low end of a zero-filled memory (words past the end of
    /// memory are dropped); registers, stack, output and input start empty.
    pub fn new(nums: &[u16]) -> (c: Computer)
        ensures
            c.wf(),
            c@ == initial_state(nums@),
    {
        let n: usize = if nums.len() < MEM_SIZE {
            nums.len()
        } else {
            MEM_SIZE
        };
        let mut mem: Vec<u16> = vec![0u16; MEM_SIZE];
        let mut i: usize = 0;
        while i < n
            invariant
                n <= nums@.len(),
                n <= MEM_SIZE,
                i <= n,
                mem@.len() == MEM_SIZE as nat,
                forall|j: int|
                    0 <= j < MEM_SIZE ==> mem@[j] == (if j < i {
                        nums@[j]
                    } else {
                        0u16
                    }),
            decreases n - i,
        {
            mem[i] = nums[i];
            i += 1;
        }
        let c = Computer {
            mem,
            cursor: 0,
            output: Vec::new(),
            registers: vec![0u16; NUM_REGISTERS],
            stack: Vec::new(),
            input: VecDeque::new(),
        };
        proof {
            assert(c@.mem =~= initial_state(nums@).mem);
            assert(c@.regs =~= initial_state(nums@).regs);
            assert(c@ =~= initial_state(nums@));
        }
        c
    }

    /// Build a machine from a binary program image: consecutive byte pairs
    /// decode as little-endian 16-bit words; a trailing odd byte is ignored.
    pub fn from_bytes(bytes: &[u8]) -> (c: Computer)
        ensures
            c.wf(),
            c@ == initial_state(words_of_bytes(bytes@)),
    {
        let n: usize = bytes.len() / 2;
        let mut words: Vec<u16> = Vec::new();
        let mut k: usize = 0;
        while k < n
            invariant
                n == bytes@.len() / 2,
                n <= usize::MAX / 2,
                k <= n,
                words@.len() == k as nat,
                forall|j: int| 0 <= j < k ==> words@[j] == words_of_bytes(bytes@)[j],
            decreases n - k,
        {
            let lo: u8 = bytes[2 * k];
            let hi: u8 = bytes[2 * k + 1];
            words.push(lo as u16 + 256 * (hi as u16));
            k += 1;
        }
        proof {
            assert(words@ =~= words_of_bytes(bytes@));
        }
        Computer::new(words.as_slice())
    }

    /// Append a line of input bytes, followed by the newline terminator.
    pub fn add_input(&mut self, line: &[u8])
        requires
            old(self).wf(),
        ensures
            final(self).wf(),
            final(self)@ == (MachineState {
                input: old(self)@.input + line@ + seq![10u8],
                ..old(self)@
            }),
    {
        let mut i: usize = 0;
        while i < line.len()
            invariant
                i <= line@.len(),
                self.wf(),
                self@ == (MachineState {
                    input: old(self)@.input + line@.take(i as int),
                    ..old(self)@
                }),
            decreases line@.len() - i,
        {
            self.input.push_back(line[i]);
            proof {
                assert(old(self)@.input + line@.take(i as int) + seq![line@[i as int]]
                    =~= old(self)@.input + line@.take(i as int + 1));
            }
            i += 1;
        }
        self.input.push_back(10u8);
        proof {
            assert(line@.take(line@.len() as int) =~= line@);
            assert(old(self)@.input + line@ + seq![10u8] =~= (old(self)@.input + line@).push(
                10u8,
            ));
        }
    }

    /// Address resolution, as [`read_spec`] states it.
    fn read(&self, num: u16) -> (r: u16)
        requires
            self.wf(),
        ensures
            r == read_spec(self@, num),
    {
        if num < 32768 {
            num
        } else if num <= 32775 {
            self.registers[(num - 32768) as usize]
        } else {
            0
        }
    }

    /// Store into a register, the destination already validated.
    fn set_reg(&mut self, reg: u16, val: u16)
        requires
            old(self).wf(),
            32768 <= reg <= 32775,
        ensures
            final(self).wf(),
            final(self)@ == (MachineState {
                regs: old(self)@.regs.update(reg - 32768, val),
                ..old(self)@
            }),
    {
        self.registers[(reg - 32768) as usize] = val;
    }

    /// Write resolution, as [`write_spec`] states it; returns whether the
    /// destination was valid, and changes nothing when it was not.
    fn set(&mut self, dest: u16, val: u16) -> (ok: bool)
        requires
            old(self).wf(),
        ensures
            final(self).wf(),
            match write_spec(old(self)@, dest, val) {
                Some(s2) => ok && final(self)@ == s2,
                None => !ok && final(self)@ == old(self)@,
            },
    {
        if dest >= 32768 {
            if dest <= 32775 {
                self.set_reg(dest, val);
                true
            } else {
                false
            }
        } else if (dest as usize) < self.mem.len() {
            self.mem[dest as usize] = val;
            true
        } else {
            false
        }
    }

    /// Consume the opcode of a no-operand instruction.
    fn get_no_arguments(&mut self)
        requires
            old(self).wf(),
            old(self)@.cursor < old(self)@.mem.len(),
        ensures
            final(self).wf(),
            final(self)@ == advanced(old(self)@, 0),
    {
        self.cursor += 1;
    }

    /// Consume the opcode and one operand, returning the operand.
    fn get_one_argument(&mut self) -> (a: u16)
        requires
            old(self).wf(),
            old(self)@.cursor + 1 < old(self)@.mem.len(),
        ensures
            final(self).wf(),
            final(self)@ == advanced(old(self)@, 1),
            a == operand(old(self)@, 1),
    {
        self.cursor += 2;
        self.mem[self.cursor - 1]
    }

    /// Consume the opcode and two operands, returning the operands.
    fn get_two_arguments(&mut self) -> (args: (u16, u16))
        requires
            old(self).wf(),
            old(self)@.cursor + 2 < old(self)@.mem.len(),
        ensures
            final(self).wf(),
            final(self)@ == advanced(old(self)@, 2),
            args.0 == operand(old(self)@, 1),
            args.1 == operand(old(self)@, 2),
    {
        self.cursor += 3;
        (self.mem[self.cursor - 2], self.mem[self.cursor - 1])
    }

    /// Consume the opcode and three operands, returning the operands.
    fn get_three_arguments(&mut self) -> (args: (u16, u16, u16))
        requires
            old(self).wf(),
            old(self)@.cursor + 3 < old(self)@.mem.len(),
        ensures
            final(self).wf(),
            final(self)@ == advanced(old(self)@, 3),
            args.0 == operand(old(self)@, 1),
            args.1 == operand(old(self)@, 2),
            args.2 == operand(old(self)@, 3),
    {
        self.cursor += 4;
        (self.mem[self.cursor - 3], self.mem[self.cursor - 2], self.mem[self.cursor - 1])
    }

    /// `set a b`: store the resolved source operand.
    fn set_op(&mut self) -> (r: ExitCode)
        requires
            old(self).wf(),
            old(self)@.cursor < old(self)@.mem.len(),
        ensures
            final(self).wf(),
            final(self)@ == step_set(old(self)@).0,
            r == step_set(old(self)@).1,
    {
        if self.cursor + 2 >= self.mem.len() {
            return ExitCode::OutOfOperations;
        }
        let (dest, src): (u16, u16) = self.get_two_arguments();
        let val: u16 = self.read(src);
        if self.set(dest, val) {
            ExitCode::Continue
        } else {
            ExitCode::InvalidOperation
        }
    }

    /// `push a`: push the resolved operand onto the stack.
    fn push_op(&mut self) -> (r: ExitCode)
        requires
            old(self).wf(),
            old(self)@.cursor < old(self)@.mem.len(),
        ensures
            final(self).wf(),
            final(self)@ == step_push(old(self)@).0,
            r == step_push(old(self)@).1,
    {
        if self.cursor + 1 >= self.mem.len() {
            return ExitCode::OutOfOperations;
        }
        let a: u16 = self.get_one_argument();
        let val: u16 = self.read(a);
        self.stack.push(val);
        ExitCode::Continue
    }

    /// `pop a`: pop the top of the stack into `a`; an empty stack is a fault.
    fn pop_op(&mut self) -> (r: ExitCode)
        requires
            old(self).wf(),
            old(self)@.cursor < old(self)@.mem.len(),
        ensures
            final(self).wf(),
            final(self)@ == step_pop(old(self)@).0,
            r == step_pop(old(self)@).1,
    {
        if self.cursor + 1 >= self.mem.len() {
            return ExitCode::OutOfOperations;
        }
        let dest: u16 = self.get_one_argument();
        match self.stack.pop() {
            Some(val) => {
                proof {
                    assert(old(self)@.stack.drop_last() =~= self@.stack);
                }
                if self.set(dest, val) {
                    ExitCode::Continue
                } else {
                    ExitCode::InvalidOperation
                }
            },
            None => ExitCode::InvalidOperation,
        }
    }

    /// `eq a b c`: store 1 if the operands resolve equal, else 0.
    fn eq_op(&mut self) -> (r: ExitCode)
        requires
            old(self).wf(),
            old(self)@.cursor < old(self)@.mem.len(),
        ensures
            final(self).wf(),
            final(self)@ == step_eq(old(self)@).0,
            r == step_eq(old(self)@).1,
    {
        if self.cursor + 3 >= self.mem.len() {
            return ExitCode::OutOfOperations;
        }
        let (dest, left, right): (u16, u16, u16) = self.get_three_arguments();
        let val: u16 = if self.read(left) == self.read(right) {
            1
        } else {
            0
        };
        if self.set(dest, val) {
            ExitCode::Continue
        } else {
            ExitCode::InvalidOperation
        }
    }

    /// `gt a b c`: store 1 if the second operand resolves greater, else 0.
    fn gt_op(&mut self) -> (r: ExitCode)
        requires
            old(self).wf(),
            old(self)@.cursor < old(self)@.mem.len(),
        ensures
            final(self).wf(),
            final(self)@ == step_gt(old(self)@).0,
            r == step_gt(old(self)@).1,
    {
        if self.cursor + 3 >= self.mem.len() {
            return ExitCode::OutOfOperations;
        }
        let (dest, left, right): (u16, u16, u16) = self.get_three_arguments();
        let val: u16 = if self.read(left) > self.read(right) {
            1
        } else {
            0
        };
        if self.set(dest, val) {
            ExitCode::Continue
        } else {
            ExitCode::InvalidOperation
        }
    }

    /// `jmp a`: jump to the resolved operand.
    fn jmp_op(&mut self) -> (r: ExitCode)
        requires
            old(self).wf(),
            old(self)@.cursor < old(self)@.mem.len(),
        ensures
            final(self).wf(),
            final(self)@ == step_jmp(old(self)@).0,
            r == step_jmp(old(self)@).1,
    {
        if self.cursor + 1 >= self.mem.len() {
            return ExitCode::OutOfOperations;
        }
        let a: u16 = self.get_one_argument();
        let target: u16 = self.read(a);
        self.cursor = target as usize;
        ExitCode::Continue
    }

    /// `jt a b`: jump to `b` if `a` resolves nonzero.
    fn jt_op(&mut self) -> (r: ExitCode)
        requires
            old(self).wf(),
            old(self)@.cursor < old(self)@.mem.len(),
        ensures
            final(self).wf(),
            final(self)@ == step_jt(old(self)@).0,
            r == step_jt(old(self)@).1,
    {
        if self.cursor + 2 >= self.mem.len() {
            return ExitCode::OutOfOperations;
        }
        let (cond, target): (u16, u16) = self.get_two_arguments();
        if self.read(cond) != 0 {
            let t: u16 = self.read(target);
            self.cursor = t as usize;
        }
        ExitCode::Continue
    }

    /// `jf a b`: jump to `b` if `a` resolves to zero.
    fn jf_op(&mut self) -> (r: ExitCode)
        requires
            old(self).wf(),
            old(self)@.cursor < old(self)@.mem.len(),
        ensures
            final(self).wf(),
            final(self)@ == step_jf(old(self)@).0,
            r == step_jf(old(self)@).1,
    {
        if self.cursor + 2 >= self.mem.len() {
            return ExitCode::OutOfOperations;
        }
        let (cond, target): (u16, u16) = self.get_two_arguments();
        if self.read(cond) == 0 {
            let t: u16 = self.read(target);
            self.cursor = t as usize;
        }
        ExitCode::Continue
    }

    /// `add a b c`: store the sum modulo 32768.
    fn add_op(&mut self) -> (r: ExitCode)
        requires
            old(self).wf(),
            old(self)@.cursor < old(self)@.mem.len(),
        ensures
            final(self).wf(),
            final(self)@ == step_add(old(self)@).0,
            r == step_add(old(self)@).1,
    {
        if self.cursor + 3 >= self.mem.len() {
            return ExitCode::OutOfOperations;
        }
        let (dest, left, right): (u16, u16, u16) = self.get_three_arguments();
        let x: u16 = self.read(left);
        let y: u16 = self.read(right);
        let val: u16 = ((x as u32 + y as u32) % 32768) as u16;
        if self.set(dest, val) {
            ExitCode::Continue
        } else {
            ExitCode::InvalidOperation
        }
    }

    /// `mult a b c`: store the product modulo 32768.
    fn mult_op(&mut self) -> (r: ExitCode)
        requires
            old(self).wf(),
            old(self)@.cursor < old(self)@.mem.len(),
        ensures
            final(self).wf(),
            final(self)@ == step_mult(old(self)@).0,
            r == step_mult(old(self)@).1,
    {
        if self.cursor + 3 >= self.mem.len() {
            return ExitCode::OutOfOperations;
        }
        let (dest, left, right): (u16, u16, u16) = self.get_three_arguments();
        let x: u16 = self.read(left);
        let y: u16 = self.read(right);
        proof {
            assert((x as int) * (y as int) <= 0xffff * 0xffff) by (nonlinear_arith)
                requires
                    x <= 0xffff,
                    y <= 0xffff,
            ;
        }
        let val: u16 = ((x as u64 * y as u64) % 32768) as u16;
        if self.set(dest, val) {
            ExitCode::Continue
        } else {
            ExitCode::InvalidOperation
        }
    }

    /// `mod a b c`: store the remainder; a zero divisor is a fault.
    fn mod_op(&mut self) -> (r: ExitCode)
        requires
            old(self).wf(),
            old(self)@.cursor < old(self)@.mem.len(),
        ensures
            final(self).wf(),
            final(self)@ == step_mod(old(self)@).0,
            r == step_mod(old(self)@).1,
    {
        if self.cursor + 3 >= self.mem.len() {
            return ExitCode::OutOfOperations;
        }
        let (dest, left, right): (u16, u16, u16) = self.get_three_arguments();
        let x: u16 = self.read(left);
        let y: u16 = self.read(right);
        if y == 0 {
            return ExitCode::InvalidOperation;
        }
        if self.set(dest, x % y) {
            ExitCode::Continue
        } else {
            ExitCode::InvalidOperation
        }
    }

    /// `and a b c`: store the bitwise and.
    fn and_op(&mut self) -> (r: ExitCode)
        requires
            old(self).wf(),
            old(self)@.cursor < old(self)@.mem.len(),
        ensures
            final(self).wf(),
            final(self)@ == step_and(old(self)@).0,
            r == step_and(old(self)@).1,
    {
        if self.cursor + 3 >= self.mem.len() {
            return ExitCode::OutOfOperations;
        }
        let (dest, left, right): (u16, u16, u16) = self.get_three_arguments();
        let val: u16 = self.read(left) & self.read(right);
        if self.set(dest, val) {
            ExitCode::Continue
        } else {
            ExitCode::InvalidOperation
        }
    }

    /// `or a b c`: store the bitwise or.
    fn or_op(&mut self) -> (r: ExitCode)
        requires
            old(self).wf(),
            old(self)@.cursor < old(self)@.mem.len(),
        ensures
            final(self).wf(),
            final(self)@ == step_or(old(self)@).0,
            r == step_or(old(self)@).1,
    {
        if self.cursor + 3 >= self.mem.len() {
            return ExitCode::OutOfOperations;
        }
        let (dest, left, right): (u16, u16, u16) = self.get_three_arguments();
        let val: u16 = self.read(left) | self.read(right);
        if self.set(dest, val) {
            ExitCode::Continue
        } else {
            ExitCode::InvalidOperation
        }
    }

    /// `not a b`: store the 15-bit complement of the resolved operand.
    fn not_op(&mut self) -> (r: ExitCode)
        requires
            old(self).wf(),
            old(self)@.cursor < old(self)@.mem.len(),
        ensures
            final(self).wf(),
            final(self)@ == step_not(old(self)@).0,
            r == step_not(old(self)@).1,
    {
        if self.cursor + 2 >= self.mem.len() {
            return ExitCode::OutOfOperations;
        }
        let (dest, src): (u16, u16) = self.get_two_arguments();
        let v: u16 = self.read(src);
        let flipped: u16 = 32767 - (v % 32768);
        if self.set(dest, flipped) {
            ExitCode::Continue
        } else {
            ExitCode::InvalidOperation
        }
    }

    /// `rmem a b`: store the memory cell the resolved operand addresses; an
    /// address past the end of memory is a fault.
    fn rmem_op(&mut self) -> (r: ExitCode)
        requires
            old(self).wf(),
            old(self)@.cursor < old(self)@.mem.len(),
        ensures
            final(self).wf(),
            final(self)@ == step_rmem(old(self)@).0,
            r == step_rmem(old(self)@).1,
    {
        if self.cursor + 2 >= self.mem.len() {
            return ExitCode::OutOfOperations;
        }
        let (dest, src): (u16, u16) = self.get_two_arguments();
        let addr: u16 = self.read(src);
        if (addr as usize) >= self.mem.len() {
            return ExitCode::InvalidOperation;
        }
        let val: u16 = self.mem[addr as usize];
        if self.set(dest, val) {
            ExitCode::Continue
        } else {
            ExitCode::InvalidOperation
        }
    }

    /// `wmem a b`: write the resolved second operand through the resolved
    /// first operand, taken as a destination.
    fn wmem_op(&mut self) -> (r: ExitCode)
        requires
            old(self).wf(),
            old(self)@.cursor < old(self)@.mem.len(),
        ensures
            final(self).wf(),
            final(self)@ == step_wmem(old(self)@).0,
            r == step_wmem(old(self)@).1,
    {
        if self.cursor + 2 >= self.mem.len() {
            return ExitCode::OutOfOperations;
        }
        let (dest_op, src): (u16, u16) = self.get_two_arguments();
        let dest: u16 = self.read(dest_op);
        let val: u16 = self.read(src);
        if self.set(dest, val) {
            ExitCode::Continue
        } else {
            ExitCode::InvalidOperation
        }
    }

    /// `call a`: push the address of the next instruction, then jump.
    fn call_op(&mut self) -> (r: ExitCode)
        requires
            old(self).wf(),
            old(self)@.cursor < old(self)@.mem.len(),
        ensures
            final(self).wf(),
            final(self)@ == step_call(old(self)@).0,
            r == step_call(old(self)@).1,
    {
        if self.cursor + 1 >= self.mem.len() {
            return ExitCode::OutOfOperations;
        }
        let a: u16 = self.get_one_argument();
        self.stack.push(self.cursor as u16);
        let target: u16 = self.read(a);
        self.cursor = target as usize;
        ExitCode::Continue
    }

    /// `ret`: pop the return address into the cursor; an empty stack means
    /// the program is complete and halts.
    fn ret_op(&mut self) -> (r: ExitCode)
        requires
            old(self).wf(),
            old(self)@.cursor < old(self)@.mem.len(),
        ensures
            final(self).wf(),
            final(self)@ == step_ret(old(self)@).0,
            r == step_ret(old(self)@).1,
    {
        match self.stack.pop() {
            Some(addr) => {
                proof {
                    assert(old(self)@.stack.drop_last() =~= self@.stack);
                }
                self.cursor = addr as usize;
                ExitCode::Continue
            },
            None => ExitCode::Halt,
        }
    }

    /// `out a`: append the resolved operand to the output as one byte; a
    /// value that is no byte is a fault.
    fn out_op(&mut self) -> (r: ExitCode)
        requires
            old(self).wf(),
            old(self)@.cursor < old(self)@.mem.len(),
        ensures
            final(self).wf(),
            final(self)@ == step_out(old(self)@).0,
            r == step_out(old(self)@).1,
    {
        if self.cursor + 1 >= self.mem.len() {
            return ExitCode::OutOfOperations;
        }
        let a: u16 = self.get_one_argument();
        let v: u16 = self.read(a);
        if v > 255 {
            return ExitCode::InvalidOperation;
        }
        self.output.push(v as u8);
        ExitCode::Continue
    }

    /// `in a`: consume the next input byte into `a`; with no input pending
    /// the machine suspends unchanged, so that resuming retries this
    /// instruction.
    fn in_op(&mut self) -> (r: ExitCode)
        requires
            old(self).wf(),
            old(self)@.cursor < old(self)@.mem.len(),
        ensures
            final(self).wf(),
            final(self)@ == step_in(old(self)@).0,
            r == step_in(old(self)@).1,
    {
        if self.cursor + 1 >= self.mem.len() {
            return ExitCode::OutOfOperations;
        }
        let dest: u16 = self.get_one_argument();
        match self.input.pop_front() {
            Some(byte) => {
                if self.set(dest, byte as u16) {
                    ExitCode::Continue
                } else {
                    ExitCode::InvalidOperation
                }
            },
            None => {
                self.cursor -= 2;
                proof {
                    assert(self@ =~= old(self)@);
                }
                ExitCode::NeedInput
            },
        }
    }

    /// `noop`: consume the opcode and do nothing else.
    fn no_op(&mut self) -> (r: ExitCode)
        requires
            old(self).wf(),
            old(self)@.cursor < old(self)@.mem.len(),
        ensures
            final(self).wf(),
            final(self)@ == step_noop(old(self)@).0,
            r == step_noop(old(self)@).1,
    {
        self.get_no_arguments();
        ExitCode::Continue
    }

    /// Run the machine until it stops: fetch, decode and execute instructions
    /// until a halt, a decode fault, the end of memory, or an `in` with no
    /// pending input (which suspends the machine resumably). Each call spends
    /// at most `usize::MAX` steps; a run that long reports the transient
    /// `Continue`, which no practical program reaches.
    pub fn read_instructions_until_terminate(&mut self) -> (r: ExitCode)
        requires
            old(self).wf(),
        ensures
            final(self).wf(),
            r != ExitCode::Continue ==> exists|n: nat| runs_to(old(self)@, final(self)@, n, r),
            r == ExitCode::Continue ==> final(self)@ == run_n(old(self)@, usize::MAX as nat),
            r == ExitCode::Continue ==> forall|k: nat|
                k < usize::MAX as nat ==> step(#[trigger] run_n(old(self)@, k)).1
                    == ExitCode::Continue,
    {
        let ghost s0 = self@;
        let ghost mut n: nat = 0;
        let mut fuel: usize = usize::MAX;
        loop
            invariant
                self.wf(),
                s0 == old(self)@,
                n + fuel == usize::MAX as nat,
                self@ == run_n(s0, n),
                forall|k: nat| k < n ==> step(#[trigger] run_n(s0, k)).1 == ExitCode::Continue,
            decreases fuel,
        {
            if fuel == 0 {
                return ExitCode::Continue;
            }
            let ghost pre = self@;
            if self.cursor >= self.mem.len() {
                proof {
                    assert(runs_to(s0, self@, n, ExitCode::OutOfOperations));
                }
                return ExitCode::OutOfOperations;
            }
            let op: u16 = self.mem[self.cursor];
            let code: ExitCode = match op {
                0 => ExitCode::Halt,
                1 => self.set_op(),
                2 => self.push_op(),
                3 => self.pop_op(),
                4 => self.eq_op(),
                5 => self.gt_op(),
                6 => self.jmp_op(),
                7 => self.jt_op(),
                8 => self.jf_op(),
                9 => self.add_op(),
                10 => self.mult_op(),
                11 => self.mod_op(),
                12 => self.and_op(),
                13 => self.or_op(),
                14 => self.not_op(),
                15 => self.rmem_op(),
                16 => self.wmem_op(),
                17 => self.call_op(),
                18 => self.ret_op(),
                19 => self.out_op(),
                20 => self.in_op(),
                21 => self.no_op(),
                _ => ExitCode::InvalidOperation,
            };
            proof {
                assert(self@ == step(pre).0);
                assert(code == step(pre).1);
            }
            match code {
                ExitCode::Continue => {
                    proof {
                        n = n + 1;
                    }
                    fuel = fuel - 1;
                },
                _ => {
                    proof {
                        assert(runs_to(s0, self@, n, code));
                    }
                    return code;
                },
            }
        }
    }

    /// A view of the output bytes accumulated since the last drain.
    pub fn get_output(&self) -> (r: &[u8])
        ensures
            r@ == self@.output,
    {
        self.output.as_slice()
    }

    /// Drain the output buffer as text: return the accumulated bytes decoded
    /// as UTF-8 and leave the buffer empty. The caller owes bytes that are
    /// valid UTF-8; draining raw or possibly non-text bytes is
    /// [`Computer::get_output`]'s job.
    pub fn get_output_as_string(&mut self) -> (r: String)
        requires
            old(self).wf(),
            valid_utf8(old(self)@.output),
        ensures
            final(self).wf(),
            r@ == decode_utf8(old(self)@.output),
            encode_utf8(r@) == old(self)@.output,
            final(self)@ == (MachineState { output: Seq::empty(), ..old(self)@ }),
    {
        let text: String = match bytes_to_string(&self.output) {
            Some(text) => text,
            None => unreached(),
        };
        self.output = Vec::new();
        proof {
            encode_utf8_decode_utf8(text@);
        }
        text
    }
}

/// Relies on String::from_utf8: it returns the string holding exactly the
/// given bytes when they are valid UTF-8, and rejects them otherwise.
#[verifier::external_body]
fn bytes_to_string(bytes: &Vec<u8>) -> (r: Option<String>)
    ensures
        (r is Some) <==> valid_utf8(bytes@),
        r matches Some(s) ==> encode_utf8(s@) == bytes@,
{
    String::from_utf8(bytes.clone()).ok()
}

} // verus!
