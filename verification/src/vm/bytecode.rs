//! Instructions: an opcode paired with an optional immediate constant.

use vstd::prelude::*;

verus! {

/// The closed set of opcodes. Every binary operator pops the two
/// most-recently-pushed operands and pushes one result; every unary operator
/// pops one and pushes one.
#[allow(non_camel_case_types)]
#[derive(Clone, Copy, PartialEq, Eq, Structural, Debug)]
pub enum ByteCode {
    /// Terminate execution successfully; no stack effect.
    HALT,
    /// Push the instruction's immediate constant.
    LOADC,
    /// Wrapping addition.
    ADD,
    /// Wrapping subtraction.
    SUB,
    /// Wrapping multiplication.
    MUL,
    /// Truncating division; faults on a zero divisor or an unrepresentable
    /// quotient.
    DIV,
    /// Remainder of truncating division; faults like `DIV`.
    MOD,
    /// Logical conjunction over the one/zero encoding.
    AND,
    /// Logical disjunction over the one/zero encoding.
    OR,
    /// One if the operands are equal, zero otherwise.
    EQ,
    /// One if the operands differ, zero otherwise.
    NEQ,
    /// Strictly-less comparison, one/zero encoded.
    LE,
    /// Less-or-equal comparison, one/zero encoded.
    LEQ,
    /// Strictly-greater comparison, one/zero encoded.
    GE,
    /// Greater-or-equal comparison, one/zero encoded.
    GEQ,
    /// Negation; faults where the negated value is not representable.
    NEG,
    /// Logical complement over the one/zero encoding.
    NOT,
}

/// One unit of program text: an opcode and, for `LOADC` only, an immediate
/// constant. Immutable once constructed.
#[derive(Clone, Copy, Debug)]
pub struct Inst<T> {
    /// The opcode.
    pub inst: ByteCode,
    /// The immediate constant; populated only for `LOADC`.
    pub data: Option<T>,
}

impl<T> Inst<T> {
    /// An instruction is well formed when a `LOADC` carries its constant.
    pub open spec fn wf(self) -> bool {
        self.inst == ByteCode::LOADC ==> self.data is Some
    }

    /// An instruction carrying no data, for control and operator opcodes.
    pub fn new_inst(inst: ByteCode) -> (r: Inst<T>)
        ensures
            r.inst == inst,
            r.data is None,
    {
        Inst { inst, data: None }
    }

    /// An instruction carrying one immediate constant, for `LOADC`.
    pub fn new_data(inst: ByteCode, data: T) -> (r: Inst<T>)
        ensures
            r.inst == inst,
            r.data == Some(data),
    {
        Inst { inst, data: Some(data) }
    }
}

} // verus!
