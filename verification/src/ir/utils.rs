//! Questions about IR values that the analyses and the checkers ask.

use crate::ir::types::{MemArg, MemArgs, ValSize, Value, X86Regs};
use vstd::prelude::*;

verus! {

/// Whether a value is the full stack pointer.
pub open spec fn is_rsp_spec(v: Value) -> bool {
    v == Value::Reg(X86Regs::Rsp, ValSize::Size64)
}

/// Whether a value is the full stack pointer.
pub fn is_rsp(v: &Value) -> (r: bool)
    ensures
        r == is_rsp_spec(*v),
{
    match v {
        Value::Reg(X86Regs::Rsp, ValSize::Size64) => true,
        _ => false,
    }
}

/// Whether a value is the stack pointer at a width below 64 bits.
pub open spec fn is_partial_rsp_spec(v: Value) -> bool {
    match v {
        Value::Reg(X86Regs::Rsp, size) => size != ValSize::Size64,
        _ => false,
    }
}

/// Whether a value is the stack pointer at a width below 64 bits.
pub fn is_partial_rsp(v: &Value) -> (r: bool)
    ensures
        r == is_partial_rsp_spec(*v),
{
    match v {
        Value::Reg(X86Regs::Rsp, ValSize::Size64) => false,
        Value::Reg(X86Regs::Rsp, _) => true,
        _ => false,
    }
}

/// The number that an immediate holds.
pub open spec fn imm_offset_spec(v: Value) -> Option<i64> {
    match v {
        Value::Imm(_, _, n) => Some(n),
        _ => None,
    }
}

/// The number that an immediate holds; `None` for any other value.
pub fn get_imm_offset(v: &Value) -> (r: Option<i64>)
    ensures
        r == imm_offset_spec(*v),
{
    match v {
        Value::Imm(_, _, n) => Some(*n),
        _ => None,
    }
}

/// The offset from the stack pointer of an address of the form `[rsp]` or
/// `[rsp + constant]`.
pub open spec fn stack_offset_spec(memargs: MemArgs) -> Option<i64> {
    match memargs {
        MemArgs::Mem1Arg(MemArg::Reg(X86Regs::Rsp, _)) => Some(0i64),
        MemArgs::Mem2Args(MemArg::Reg(X86Regs::Rsp, _), MemArg::Imm(_, _, offset)) => Some(offset),
        _ => None,
    }
}

/// The offset from the stack pointer of an address of the form `[rsp]` or
/// `[rsp + constant]`; `None` for any other address.
pub fn extract_stack_offset(memargs: &MemArgs) -> (r: Option<i64>)
    ensures
        r == stack_offset_spec(*memargs),
{
    match memargs {
        MemArgs::Mem1Arg(MemArg::Reg(X86Regs::Rsp, _)) => Some(0),
        MemArgs::Mem2Args(MemArg::Reg(X86Regs::Rsp, _), MemArg::Imm(_, _, offset)) => Some(*offset),
        _ => None,
    }
}

/// Whether a value is a memory access at `[rsp]` or `[rsp + constant]`.
pub open spec fn is_stack_access_spec(v: Value) -> bool {
    match v {
        Value::Mem(_, memargs) => stack_offset_spec(memargs) is Some,
        _ => false,
    }
}

/// Whether a value is a memory access at `[rsp]` or `[rsp + constant]`.
pub fn is_stack_access(v: &Value) -> (r: bool)
    ensures
        r == is_stack_access_spec(*v),
{
    match v {
        Value::Mem(_, memargs) => extract_stack_offset(memargs).is_some(),
        _ => false,
    }
}

/// Whether a value is a memory access.
pub fn is_mem_access(v: &Value) -> (r: bool)
    ensures
        r == (*v is Mem),
{
    match v {
        Value::Mem(_, _) => true,
        _ => false,
    }
}

} // verus!
