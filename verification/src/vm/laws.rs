//! Laws of the machine, each proved against the execution model.

use vstd::prelude::*;

use crate::vm::bytecode::{ByteCode, Inst};
use crate::vm::semantics::{
    binary_op_value, is_binary_op, is_unary_op, run_from, Outcome, VmError,
};
use vstd::arithmetic::div_mod::{
    lemma_div_is_ordered, lemma_div_is_ordered_by_denominator, lemma_div_nonincreasing,
    lemma_div_pos_is_pos,
};

verus! {

/// Loading a constant and immediately halting leaves a one-element stack
/// holding exactly that constant, whatever the constant is.
pub proof fn lemma_loadc_then_halt(c: i64)
    ensures
        ({
            let prog = seq![
                Inst::<i64> { inst: ByteCode::LOADC, data: Some(c) },
                Inst::<i64> { inst: ByteCode::HALT, data: None },
            ];
            run_from(prog, 0, Seq::empty()) == (Outcome::Halted { stack: seq![c] })
        }),
{
    let prog = seq![
        Inst::<i64> { inst: ByteCode::LOADC, data: Some(c) },
        Inst::<i64> { inst: ByteCode::HALT, data: None },
    ];
    reveal_with_fuel(run_from, 3);
    assert(Seq::<i64>::empty().push(c) =~= seq![c]);
}

/// Complementing a one/zero-encoded boolean twice restores it: a program that
/// loads such a value and applies `NOT` twice halts with that value back on
/// the stack.
pub proof fn lemma_double_not_restores_bool(v: i64)
    requires
        v == 0 || v == 1,
    ensures
        ({
            let prog = seq![
                Inst::<i64> { inst: ByteCode::LOADC, data: Some(v) },
                Inst::<i64> { inst: ByteCode::NOT, data: None },
                Inst::<i64> { inst: ByteCode::NOT, data: None },
                Inst::<i64> { inst: ByteCode::HALT, data: None },
            ];
            run_from(prog, 0, Seq::empty()) == (Outcome::Halted { stack: seq![v] })
        }),
{
    let prog = seq![
        Inst::<i64> { inst: ByteCode::LOADC, data: Some(v) },
        Inst::<i64> { inst: ByteCode::NOT, data: None },
        Inst::<i64> { inst: ByteCode::NOT, data: None },
        Inst::<i64> { inst: ByteCode::HALT, data: None },
    ];
    reveal_with_fuel(run_from, 5);
    let s1 = Seq::<i64>::empty().push(v);
    let w = if v == 1 { 0i64 } else { 1i64 };
    let s2 = s1.drop_last().push(w);
    let s3 = s2.drop_last().push(v);
    assert(s3 =~= seq![v]);
}

/// Negating twice restores the original value, for every value whose negation
/// is representable: the program that loads it and applies `NEG` twice halts
/// with the original back on the stack.
pub proof fn lemma_double_neg_restores_value(v: i64)
    requires
        v != i64::MIN,
    ensures
        ({
            let prog = seq![
                Inst::<i64> { inst: ByteCode::LOADC, data: Some(v) },
                Inst::<i64> { inst: ByteCode::NEG, data: None },
                Inst::<i64> { inst: ByteCode::NEG, data: None },
                Inst::<i64> { inst: ByteCode::HALT, data: None },
            ];
            run_from(prog, 0, Seq::empty()) == (Outcome::Halted { stack: seq![v] })
        }),
{
    let prog = seq![
        Inst::<i64> { inst: ByteCode::LOADC, data: Some(v) },
        Inst::<i64> { inst: ByteCode::NEG, data: None },
        Inst::<i64> { inst: ByteCode::NEG, data: None },
        Inst::<i64> { inst: ByteCode::HALT, data: None },
    ];
    reveal_with_fuel(run_from, 5);
    let s1 = Seq::<i64>::empty().push(v);
    let w = (-(v as int)) as i64;
    let s2 = s1.drop_last().push(w);
    let s3 = s2.drop_last().push(v);
    assert(s3 =~= seq![v]);
}

/// Conjunction does not depend on the order of its operands.
pub proof fn lemma_and_commutative(a: i64, b: i64)
    ensures
        binary_op_value(ByteCode::AND, a, b) == binary_op_value(ByteCode::AND, b, a),
{
}

/// For every pair of operands, the equality and inequality operators both
/// succeed and exactly one of them yields one.
pub proof fn lemma_eq_neq_complementary(a: i64, b: i64)
    ensures
        ({
            &&& binary_op_value(ByteCode::EQ, a, b) matches Ok(e)
            &&& binary_op_value(ByteCode::NEQ, a, b) matches Ok(n)
            &&& (e == 1 <==> n != 1)
            &&& (e == 1 || n == 1)
            &&& (e == 1 <==> a == b)
        }),
{
}

/// The quotient and remainder operators fault exactly on a zero divisor
/// (division by zero) or on the one unrepresentable result, the minimum value
/// divided by minus one (arithmetic overflow); on every other pair of
/// operands they succeed.
pub proof fn lemma_div_mod_fault_conditions(a: i64, b: i64)
    ensures
        binary_op_value(ByteCode::DIV, a, b) == Err::<i64, VmError>(VmError::DivisionByZero)
            <==> b == 0,
        binary_op_value(ByteCode::MOD, a, b) == Err::<i64, VmError>(VmError::DivisionByZero)
            <==> b == 0,
        binary_op_value(ByteCode::DIV, a, b) == Err::<i64, VmError>(VmError::ArithmeticOverflow)
            <==> (a == i64::MIN && b == -1),
        binary_op_value(ByteCode::MOD, a, b) == Err::<i64, VmError>(VmError::ArithmeticOverflow)
            <==> (a == i64::MIN && b == -1),
        binary_op_value(ByteCode::DIV, a, b) is Ok <==> (b != 0 && !(a == i64::MIN && b == -1)),
        binary_op_value(ByteCode::MOD, a, b) is Ok <==> (b != 0 && !(a == i64::MIN && b == -1)),
{
    let x = a as int;
    let d = b as int;
    if b != 0 {
        if x == 0 {
        } else if x > 0 && d > 0 {
            lemma_div_pos_is_pos(x, d);
            lemma_div_nonincreasing(x, d);
        } else if x < 0 && d < 0 {
            lemma_div_pos_is_pos(-x, -d);
            lemma_div_nonincreasing(-x, -d);
            if -d >= 2 {
                lemma_div_is_ordered_by_denominator(-x, 2, -d);
                lemma_div_is_ordered(-x, 0x8000_0000_0000_0000, 2);
            }
        } else if x < 0 && d > 0 {
            lemma_div_pos_is_pos(-x, d);
            lemma_div_nonincreasing(-x, d);
        } else {
            lemma_div_pos_is_pos(x, -d);
            lemma_div_nonincreasing(x, -d);
        }
    }
}

/// A binary operator over a stack holding fewer than two operands, or a unary
/// operator over an empty stack, faults with the stack-underflow error and
/// leaves the stack exactly as it was.
pub proof fn lemma_underflow_faults(prog: Seq<Inst<i64>>, pc: nat, stack: Seq<i64>)
    requires
        pc < prog.len(),
        (is_binary_op(prog[pc as int].inst) && stack.len() < 2) || (is_unary_op(
            prog[pc as int].inst,
        ) && stack.len() == 0),
    ensures
        run_from(prog, pc, stack) == (Outcome::Faulted { error: VmError::StackUnderflow, stack }),
{
}

} // verus!
