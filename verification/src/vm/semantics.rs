//! The mathematical model of execution: what each opcode does to the operand
//! stack, and the outcome of running a program from a given state.
//!
//! Conventions, fixed for the whole machine:
//! - The first-popped operand is the left-hand operand of a binary operator
//!   and the second-popped is the right-hand one, so with a stack `[.., b, a]`
//!   a binary opcode pushes `a OP b`.
//! - Boolean truth is encoded as one for true and zero for false; a value is
//!   read as true exactly when it equals one.
//! - `ADD`, `SUB` and `MUL` wrap on two's-complement overflow and never fault.
//! - `DIV` and `MOD` truncate toward zero; a zero divisor faults with
//!   [`VmError::DivisionByZero`], and an unrepresentable result (the minimum
//!   value divided by minus one) faults with [`VmError::ArithmeticOverflow`].
//! - A fault leaves the operand stack exactly as it was before the faulting
//!   instruction.

use vstd::prelude::*;

use crate::vm::bytecode::{ByteCode, Inst};

verus! {

/// The ways a run can fail.
#[derive(Clone, Copy, PartialEq, Eq, Structural, Debug)]
pub enum VmError {
    /// A pop was attempted against a stack holding too few operands.
    StackUnderflow,
    /// A negation, quotient or remainder has no representable result.
    ArithmeticOverflow,
    /// A quotient or remainder was taken with a zero divisor.
    DivisionByZero,
}

/// The outcome of running a program from a given state.
#[verifier::ext_equal]
pub enum Outcome {
    /// A halt instruction was reached; `stack` is the final operand stack.
    Halted { stack: Seq<i64> },
    /// An instruction faulted; `stack` is the operand stack at the fault,
    /// untouched by the faulting instruction.
    Faulted { error: VmError, stack: Seq<i64> },
    /// The machine gives the state no meaning: the counter ran past the end
    /// of the program, or a `LOADC` carried no constant. `run`'s precondition
    /// rules both out.
    Stuck,
}

/// Whether an opcode pops two operands.
pub open spec fn is_binary_op(op: ByteCode) -> bool {
    match op {
        ByteCode::ADD
        | ByteCode::SUB
        | ByteCode::MUL
        | ByteCode::DIV
        | ByteCode::MOD
        | ByteCode::AND
        | ByteCode::OR
        | ByteCode::EQ
        | ByteCode::NEQ
        | ByteCode::LE
        | ByteCode::LEQ
        | ByteCode::GE
        | ByteCode::GEQ => true,
        _ => false,
    }
}

/// Whether an opcode pops one operand.
pub open spec fn is_unary_op(op: ByteCode) -> bool {
    match op {
        ByteCode::NEG | ByteCode::NOT => true,
        _ => false,
    }
}

/// Reading a value as a boolean: only one counts as true.
pub open spec fn truthy(v: i64) -> bool {
    v == 1
}

/// Encoding a boolean back into a value: one for true, zero for false.
pub open spec fn encode_bool(b: bool) -> i64 {
    if b {
        1
    } else {
        0
    }
}

/// What a binary opcode pushes, or the fault it raises, given the
/// first-popped operand `a` (the left-hand one) and the second-popped `b`.
pub open spec fn binary_op_value(op: ByteCode, a: i64, b: i64) -> Result<i64, VmError>
    recommends
        is_binary_op(op),
{
    match op {
        ByteCode::ADD => Ok(a.wrapping_add(b)),
        ByteCode::SUB => Ok(a.wrapping_sub(b)),
        ByteCode::MUL => Ok(a.wrapping_mul(b)),
        ByteCode::DIV => if b == 0 {
            Err(VmError::DivisionByZero)
        } else {
            match a.checked_div(b) {
                Some(v) => Ok(v),
                None => Err(VmError::ArithmeticOverflow),
            }
        },
        ByteCode::MOD => if b == 0 {
            Err(VmError::DivisionByZero)
        } else {
            match a.checked_rem(b) {
                Some(v) => Ok(v),
                None => Err(VmError::ArithmeticOverflow),
            }
        },
        ByteCode::AND => Ok(encode_bool(truthy(a) && truthy(b))),
        ByteCode::OR => Ok(encode_bool(truthy(a) || truthy(b))),
        ByteCode::EQ => Ok(encode_bool(a == b)),
        ByteCode::NEQ => Ok(encode_bool(a != b)),
        ByteCode::LE => Ok(encode_bool(a < b)),
        ByteCode::LEQ => Ok(encode_bool(a <= b)),
        ByteCode::GE => Ok(encode_bool(a > b)),
        ByteCode::GEQ => Ok(encode_bool(a >= b)),
        _ => arbitrary(),
    }
}

/// What a unary opcode pushes, or the fault it raises, given its operand.
pub open spec fn unary_op_value(op: ByteCode, a: i64) -> Result<i64, VmError>
    recommends
        is_unary_op(op),
{
    match op {
        ByteCode::NEG => if a == i64::MIN {
            Err(VmError::ArithmeticOverflow)
        } else {
            Ok((-(a as int)) as i64)
        },
        ByteCode::NOT => Ok(encode_bool(!truthy(a))),
        _ => arbitrary(),
    }
}

/// Whether a halt instruction stands at or after position `pc`. Since the
/// counter only ever advances by one and execution stops at the first halt
/// or fault, this is what keeps a run from fetching past the end.
pub open spec fn halts_after(prog: Seq<Inst<i64>>, pc: nat) -> bool {
    exists|k: int| pc <= k < prog.len() && prog[k].inst == ByteCode::HALT
}

/// Whether every instruction of a program is well formed (every `LOADC`
/// carries its constant).
pub open spec fn prog_wf(prog: Seq<Inst<i64>>) -> bool {
    forall|k: int| 0 <= k < prog.len() ==> (#[trigger] prog[k]).wf()
}

/// The outcome of executing `prog` from counter `pc` with operand stack
/// `stack`: fetch, advance the counter by one, execute, repeat, until a halt
/// instruction or a fault. Terminates because the counter only grows.
pub open spec fn run_from(prog: Seq<Inst<i64>>, pc: nat, stack: Seq<i64>) -> Outcome
    decreases prog.len() - pc,
{
    if pc >= prog.len() {
        Outcome::Stuck
    } else {
        let ins = prog[pc as int];
        if ins.inst == ByteCode::HALT {
            Outcome::Halted { stack }
        } else if ins.inst == ByteCode::LOADC {
            match ins.data {
                Some(c) => run_from(prog, pc + 1, stack.push(c)),
                None => Outcome::Stuck,
            }
        } else if is_binary_op(ins.inst) {
            if stack.len() < 2 {
                Outcome::Faulted { error: VmError::StackUnderflow, stack }
            } else {
                let a = stack.last();
                let b = stack[stack.len() - 2];
                match binary_op_value(ins.inst, a, b) {
                    Ok(v) => run_from(prog, pc + 1, stack.drop_last().drop_last().push(v)),
                    Err(error) => Outcome::Faulted { error, stack },
                }
            }
        } else {
            if stack.len() == 0 {
                Outcome::Faulted { error: VmError::StackUnderflow, stack }
            } else {
                match unary_op_value(ins.inst, stack.last()) {
                    Ok(v) => run_from(prog, pc + 1, stack.drop_last().push(v)),
                    Err(error) => Outcome::Faulted { error, stack },
                }
            }
        }
    }
}

/// Executing any instruction other than a halt keeps a halt ahead of the
/// counter: the one that was ahead before cannot have been at the old counter.
pub proof fn lemma_halts_after_step(prog: Seq<Inst<i64>>, pc: nat)
    requires
        halts_after(prog, pc),
        pc < prog.len(),
        prog[pc as int].inst != ByteCode::HALT,
    ensures
        halts_after(prog, (pc + 1) as nat),
{
    let k = choose|k: int| pc <= k < prog.len() && prog[k].inst == ByteCode::HALT;
    assert(pc + 1 <= k < prog.len() && prog[k].inst == ByteCode::HALT);
}

} // verus!
