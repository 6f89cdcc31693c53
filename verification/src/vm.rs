//! The virtual machine: an operand stack, a fixed instruction sequence, and a
//! program counter, run to completion in one pass.

pub mod bytecode;
pub mod laws;
pub mod semantics;

use vstd::prelude::*;

use crate::vm::bytecode::{ByteCode, Inst};
use crate::vm::semantics::{
    binary_op_value, halts_after, is_binary_op, is_unary_op, lemma_halts_after_step, prog_wf,
    run_from, unary_op_value, Outcome, VmError,
};

verus! {

/// The Esta Virtual Machine.
///
/// The instruction sequence is fixed for the lifetime of one run; the operand
/// stack is the only data structure an instruction mutates. The program
/// counter starts at zero and only ever advances by one.
pub struct VirtualMachine<T> {
    stack: Vec<T>,
    inst: Vec<Inst<T>>,
    pc: usize,
}

impl<T> VirtualMachine<T> {
    /// The instruction sequence, as a mathematical sequence.
    pub closed spec fn prog(self) -> Seq<Inst<T>> {
        self.inst@
    }

    /// The operand stack, bottom first; the last element is the top.
    pub closed spec fn operands(self) -> Seq<T> {
        self.stack@
    }

    /// The program counter: the index of the next instruction to fetch.
    pub closed spec fn counter(self) -> nat {
        self.pc as nat
    }

    /// An idle machine over a fixed program: empty stack, counter at zero.
    /// The program is not validated here; a malformed one is rejected by
    /// `run`'s precondition.
    pub fn new(inst: Vec<Inst<T>>) -> (vm: VirtualMachine<T>)
        ensures
            vm.prog() == inst@,
            vm.operands() == Seq::<T>::empty(),
            vm.counter() == 0,
    {
        VirtualMachine { stack: Vec::new(), inst, pc: 0 }
    }

    /// Read-only view of the operand stack, for result extraction after a run.
    pub fn debug_stack(&self) -> (r: &Vec<T>)
        ensures
            r@ == self.operands(),
    {
        &self.stack
    }

    fn push(&mut self, data: T)
        ensures
            final(self).operands() == old(self).operands().push(data),
            final(self).prog() == old(self).prog(),
            final(self).counter() == old(self).counter(),
    {
        self.stack.push(data);
    }

    fn pop(&mut self) -> (r: Result<T, VmError>)
        ensures
            old(self).operands().len() == 0 ==> r == Err::<T, VmError>(VmError::StackUnderflow)
                && final(self).operands() == old(self).operands(),
            old(self).operands().len() > 0 ==> r == Ok::<T, VmError>(old(self).operands().last())
                && final(self).operands() == old(self).operands().drop_last(),
            final(self).prog() == old(self).prog(),
            final(self).counter() == old(self).counter(),
    {
        match self.stack.pop() {
            Some(v) => Ok(v),
            None => Err(VmError::StackUnderflow),
        }
    }
}

impl VirtualMachine<i64> {
    /// A machine state `run` accepts: every `LOADC` of the program carries
    /// its constant, and a halt instruction stands at or after the counter,
    /// so that the counter never runs past the end of the program.
    pub open spec fn wf(self) -> bool {
        prog_wf(self.prog()) && halts_after(self.prog(), self.counter())
    }

    fn apply_binary(op: ByteCode, a: i64, b: i64) -> (r: Result<i64, VmError>)
        requires
            is_binary_op(op),
        ensures
            r == binary_op_value(op, a, b),
    {
        match op {
            ByteCode::ADD => Ok(a.wrapping_add(b)),
            ByteCode::SUB => Ok(a.wrapping_sub(b)),
            ByteCode::MUL => Ok(a.wrapping_mul(b)),
            ByteCode::DIV => {
                if b == 0 {
                    Err(VmError::DivisionByZero)
                } else {
                    match a.checked_div(b) {
                        Some(v) => Ok(v),
                        None => Err(VmError::ArithmeticOverflow),
                    }
                }
            },
            ByteCode::MOD => {
                if b == 0 {
                    Err(VmError::DivisionByZero)
                } else {
                    match a.checked_rem(b) {
                        Some(v) => Ok(v),
                        None => Err(VmError::ArithmeticOverflow),
                    }
                }
            },
            ByteCode::AND => Ok(if a == 1 && b == 1 { 1 } else { 0 }),
            ByteCode::OR => Ok(if a == 1 || b == 1 { 1 } else { 0 }),
            ByteCode::EQ => Ok(if a == b { 1 } else { 0 }),
            ByteCode::NEQ => Ok(if a != b { 1 } else { 0 }),
            ByteCode::LE => Ok(if a < b { 1 } else { 0 }),
            ByteCode::LEQ => Ok(if a <= b { 1 } else { 0 }),
            ByteCode::GE => Ok(if a > b { 1 } else { 0 }),
            ByteCode::GEQ => Ok(if a >= b { 1 } else { 0 }),
            // excluded by the precondition
            _ => Err(VmError::StackUnderflow),
        }
    }

    fn apply_unary(op: ByteCode, a: i64) -> (r: Result<i64, VmError>)
        requires
            is_unary_op(op),
        ensures
            r == unary_op_value(op, a),
    {
        match op {
            ByteCode::NEG => {
                if a == i64::MIN {
                    Err(VmError::ArithmeticOverflow)
                } else {
                    Ok(-a)
                }
            },
            ByteCode::NOT => Ok(if a == 1 { 0 } else { 1 }),
            // excluded by the precondition
            _ => Err(VmError::StackUnderflow),
        }
    }

    /// Execute instructions from the current counter until a halt instruction
    /// or a fault. The result, and the operand stack left behind, are exactly
    /// what the model [`run_from`] gives for the starting state; on a fault
    /// the stack is left as it was just before the faulting instruction.
    pub fn run(&mut self) -> (r: Result<(), VmError>)
        requires
            old(self).wf(),
        ensures
            final(self).prog() == old(self).prog(),
            (match run_from(old(self).prog(), old(self).counter(), old(self).operands()) {
                Outcome::Halted { stack } => r == Ok::<(), VmError>(())
                    && final(self).operands() == stack,
                Outcome::Faulted { error, stack } => r == Err::<(), VmError>(error)
                    && final(self).operands() == stack,
                Outcome::Stuck => false,
            }),
    {
        loop
            invariant
                prog_wf(self.prog()),
                halts_after(self.prog(), self.counter()),
                self.prog() == old(self).prog(),
                run_from(self.prog(), self.counter(), self.operands()) == run_from(
                    old(self).prog(),
                    old(self).counter(),
                    old(self).operands(),
                ),
            decreases self.prog().len() - self.counter(),
        {
            let ghost pc0 = self.counter();
            // binds the program length so the counter increment stays in bounds
            let _len_prog: usize = self.inst.len();
            let ir = self.inst[self.pc];
            self.pc = self.pc + 1;
            match ir.inst {
                ByteCode::HALT => {
                    return Ok(());
                },
                ByteCode::LOADC => {
                    proof {
                        lemma_halts_after_step(self.prog(), pc0);
                    }
                    self.push(ir.data.unwrap());
                },
                ByteCode::ADD | ByteCode::SUB | ByteCode::MUL | ByteCode::DIV | ByteCode::MOD
                | ByteCode::AND | ByteCode::OR | ByteCode::EQ | ByteCode::NEQ | ByteCode::LE
                | ByteCode::LEQ | ByteCode::GE | ByteCode::GEQ => {
                    let n: usize = self.stack.len();
                    if n < 2 {
                        return Err(VmError::StackUnderflow);
                    }
                    let a: i64 = self.stack[n - 1];
                    let b: i64 = self.stack[n - 2];
                    match Self::apply_binary(ir.inst, a, b) {
                        Ok(v) => {
                            proof {
                                lemma_halts_after_step(self.prog(), pc0);
                            }
                            let _popped = self.pop();
                            let _popped = self.pop();
                            self.push(v);
                        },
                        Err(e) => {
                            return Err(e);
                        },
                    }
                },
                ByteCode::NEG | ByteCode::NOT => {
                    let n: usize = self.stack.len();
                    if n == 0 {
                        return Err(VmError::StackUnderflow);
                    }
                    let a: i64 = self.stack[n - 1];
                    match Self::apply_unary(ir.inst, a) {
                        Ok(v) => {
                            proof {
                                lemma_halts_after_step(self.prog(), pc0);
                            }
                            let _popped = self.pop();
                            self.push(v);
                        },
                        Err(e) => {
                            return Err(e);
                        },
                    }
                },
            }
        }
    }
}

} // verus!
