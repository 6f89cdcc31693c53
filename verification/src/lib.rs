//! A small stack-based virtual machine over 64-bit signed integers.
//!
//! A program is a finite sequence of instructions; each instruction pairs an
//! opcode with an optional immediate constant. The machine owns an operand
//! stack and a program counter and executes the program in one synchronous
//! pass until it reaches a halt instruction or a fault.

pub mod vm;
