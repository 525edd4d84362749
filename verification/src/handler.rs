//! The effect of each instruction on a [`Context`] whose operands are
//! registers and immediates.
use vstd::prelude::*;

use crate::machine::{add_bits, mul_bits, sub_bits, BinOp, Loc, Op, Semantics, Val};
use crate::{Bits, Context, Outcome, Register};

verus! {

/// The binary operation on two registers.
pub open spec fn reg_op(op: BinOp, result: Register, lhs: Register, rhs: Register) -> Op {
    Op::Bin { op, result: Loc::Reg(result as int), lhs: Val::Reg(lhs as int), rhs: Val::Reg(rhs as int) }
}

/// The binary operation on a register and an immediate.
pub open spec fn imm_op(op: BinOp, result: Register, src: Register, imm: Bits) -> Op {
    Op::Bin { op, result: Loc::Reg(result as int), lhs: Val::Reg(src as int), rhs: Val::Const(imm) }
}

/// The unconditional branch.
pub open spec fn branch_op(target: Register) -> Op {
    Op::Branch { target: target as int }
}

/// The branch taken where a register holds zero.
pub open spec fn branch_eqz_op(target: Register, condition: Register) -> Op {
    Op::BranchEqz { target: target as int, condition: Val::Reg(condition as int) }
}

/// The return of a register's value.
pub open spec fn ret_op(result: Register) -> Op {
    Op::Return { result: Val::Reg(result as int) }
}

/// Adds the contents of `lhs` and `rhs`, modulo 2^64, stores the result into
/// `result`, and advances.
pub fn add(context: &mut Context, result: Register, lhs: Register, rhs: Register) -> (outcome: Outcome)
    requires
        old(context)@.wf(),
        old(context)@.pc < usize::MAX,
        reg_op(BinOp::Add, result, lhs, rhs).operands_valid(),
    ensures
        final(context)@ == reg_op(BinOp::Add, result, lhs, rhs).step(old(context)@),
        outcome == Outcome::Continue,
{
    let lhs = context.get_reg(lhs);
    let rhs = context.get_reg(rhs);
    context.set_reg(result, add_bits(lhs, rhs));
    context.next_inst()
}

/// Adds the constant `imm` to the contents of `src`, modulo 2^64, stores the
/// result into `result`, and advances.
pub fn add_imm(context: &mut Context, result: Register, src: Register, imm: Bits) -> (outcome: Outcome)
    requires
        old(context)@.wf(),
        old(context)@.pc < usize::MAX,
        imm_op(BinOp::Add, result, src, imm).operands_valid(),
    ensures
        final(context)@ == imm_op(BinOp::Add, result, src, imm).step(old(context)@),
        outcome == Outcome::Continue,
{
    let lhs = context.get_reg(src);
    let rhs = imm;
    context.set_reg(result, add_bits(lhs, rhs));
    context.next_inst()
}

/// Subtracts the contents of `rhs` from those of `lhs`, modulo 2^64, stores
/// the result into `result`, and advances.
pub fn sub(context: &mut Context, result: Register, lhs: Register, rhs: Register) -> (outcome: Outcome)
    requires
        old(context)@.wf(),
        old(context)@.pc < usize::MAX,
        reg_op(BinOp::Sub, result, lhs, rhs).operands_valid(),
    ensures
        final(context)@ == reg_op(BinOp::Sub, result, lhs, rhs).step(old(context)@),
        outcome == Outcome::Continue,
{
    let lhs = context.get_reg(lhs);
    let rhs = context.get_reg(rhs);
    context.set_reg(result, sub_bits(lhs, rhs));
    context.next_inst()
}

/// Subtracts the constant `imm` from the contents of `src`, modulo 2^64,
/// stores the result into `result`, and advances.
pub fn sub_imm(context: &mut Context, result: Register, src: Register, imm: Bits) -> (outcome: Outcome)
    requires
        old(context)@.wf(),
        old(context)@.pc < usize::MAX,
        imm_op(BinOp::Sub, result, src, imm).operands_valid(),
    ensures
        final(context)@ == imm_op(BinOp::Sub, result, src, imm).step(old(context)@),
        outcome == Outcome::Continue,
{
    let lhs = context.get_reg(src);
    let rhs = imm;
    context.set_reg(result, sub_bits(lhs, rhs));
    context.next_inst()
}

/// Multiplies the contents of `lhs` and `rhs`, modulo 2^64, stores the
/// result into `result`, and advances.
pub fn mul(context: &mut Context, result: Register, lhs: Register, rhs: Register) -> (outcome: Outcome)
    requires
        old(context)@.wf(),
        old(context)@.pc < usize::MAX,
        reg_op(BinOp::Mul, result, lhs, rhs).operands_valid(),
    ensures
        final(context)@ == reg_op(BinOp::Mul, result, lhs, rhs).step(old(context)@),
        outcome == Outcome::Continue,
{
    let lhs = context.get_reg(lhs);
    let rhs = context.get_reg(rhs);
    context.set_reg(result, mul_bits(lhs, rhs));
    context.next_inst()
}

/// Multiplies the contents of `src` by the constant `imm`, modulo 2^64,
/// stores the result into `result`, and advances.
pub fn mul_imm(context: &mut Context, result: Register, src: Register, imm: Bits) -> (outcome: Outcome)
    requires
        old(context)@.wf(),
        old(context)@.pc < usize::MAX,
        imm_op(BinOp::Mul, result, src, imm).operands_valid(),
    ensures
        final(context)@ == imm_op(BinOp::Mul, result, src, imm).step(old(context)@),
        outcome == Outcome::Continue,
{
    let lhs = context.get_reg(src);
    let rhs = imm;
    context.set_reg(result, mul_bits(lhs, rhs));
    context.next_inst()
}

/// Jumps to the instruction indexed by `target`.
pub fn branch(context: &mut Context, target: Register) -> (outcome: Outcome)
    ensures
        final(context)@ == branch_op(target).step(old(context)@),
        outcome == Outcome::Continue,
{
    context.branch_to(target)
}

/// Jumps to the instruction indexed by `target` if the contents of
/// `condition` are zero, and advances otherwise.
pub fn branch_eqz(context: &mut Context, target: Register, condition: Register) -> (outcome: Outcome)
    requires
        old(context)@.wf(),
        branch_eqz_op(target, condition).step(old(context)@).pc <= usize::MAX,
        branch_eqz_op(target, condition).operands_valid(),
    ensures
        final(context)@ == branch_eqz_op(target, condition).step(old(context)@),
        old(context)@.regs[condition as int] == 0 ==> final(context)@.pc == target,
        old(context)@.regs[condition as int] != 0 ==> final(context)@.pc == old(context)@.pc + 1,
        outcome == Outcome::Continue,
{
    let condition = context.get_reg(condition);
    if condition == 0 {
        context.branch_to(target)
    } else {
        context.next_inst()
    }
}

/// Copies the contents of `result` into register 0 and ends the execution;
/// the program counter stays where it is.
pub fn ret(context: &mut Context, result: Register) -> (outcome: Outcome)
    requires
        old(context)@.wf(),
        ret_op(result).operands_valid(),
    ensures
        final(context)@ == ret_op(result).step(old(context)@),
        outcome == Outcome::Return,
{
    let result = context.get_reg(result);
    context.set_reg(0, result);
    Outcome::Return
}

} // verus!
