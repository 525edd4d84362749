//! Tag dispatch: a driving loop matches on the instruction at `pc`.
use vstd::prelude::*;

use crate::handler::{branch_eqz_op, branch_op, imm_op, reg_op, ret_op};
use crate::machine::{end_state, halts, lemma_halts_step, meaning, steps, well_formed, BinOp, Op, Semantics, Validate, SLOTS};
use crate::{Bits, Context, Outcome, Register, Target};

verus! {

#[derive(Copy, Clone)]
pub enum Inst {
    /// Adds the contents of `lhs` and `rhs` and stores the result into `result`.
    Add { result: Register, lhs: Register, rhs: Register },
    /// Adds the constant `imm` and the contents of `src` and stores the result into `result`.
    AddImm { result: Register, src: Register, imm: Bits },
    /// Subtracts the contents of `rhs` from `lhs` and stores the result into `result`.
    Sub { result: Register, lhs: Register, rhs: Register },
    /// Subtracts the constant `imm` from the contents of `src` and stores the result into `result`.
    SubImm { result: Register, src: Register, imm: Bits },
    /// Multiplies the contents of `lhs` and `rhs` and stores the result into `result`.
    Mul { result: Register, lhs: Register, rhs: Register },
    /// Multiplies the constant `imm` and the contents of `src` and stores the result into `result`.
    MulImm { result: Register, src: Register, imm: Bits },
    /// Branches to the instruction indexed by `target`.
    Branch { target: Target },
    /// Branches to the instruction indexed by `target` if the contents of `condition` are zero.
    BranchEqz { target: Target, condition: Register },
    /// Returns execution of the function and returns the result in `result`.
    Return { result: Register },
}

impl View for Inst {
    type V = Op;

    open spec fn view(&self) -> Op {
        match *self {
            Inst::Add { result, lhs, rhs } => reg_op(BinOp::Add, result, lhs, rhs),
            Inst::AddImm { result, src, imm } => imm_op(BinOp::Add, result, src, imm),
            Inst::Sub { result, lhs, rhs } => reg_op(BinOp::Sub, result, lhs, rhs),
            Inst::SubImm { result, src, imm } => imm_op(BinOp::Sub, result, src, imm),
            Inst::Mul { result, lhs, rhs } => reg_op(BinOp::Mul, result, lhs, rhs),
            Inst::MulImm { result, src, imm } => imm_op(BinOp::Mul, result, src, imm),
            Inst::Branch { target } => branch_op(target),
            Inst::BranchEqz { target, condition } => branch_eqz_op(target, condition),
            Inst::Return { result } => ret_op(result),
        }
    }
}

impl Inst {
    /// Executes the instruction once.
    pub fn execute(&self, context: &mut Context) -> (outcome: Outcome)
        requires
            old(context)@.wf(),
            self@.step(old(context)@).pc <= usize::MAX,
            self@.operands_valid(),
        ensures
            final(context)@ == self@.step(old(context)@),
            final(context)@.wf(),
            (outcome == Outcome::Return) == self@.ends(),
    {
        match self {
            Inst::Add { result, lhs, rhs } => crate::handler::add(context, *result, *lhs, *rhs),
            Inst::AddImm { result, src, imm } => crate::handler::add_imm(context, *result, *src, *imm),
            Inst::Sub { result, lhs, rhs } => crate::handler::sub(context, *result, *lhs, *rhs),
            Inst::SubImm { result, src, imm } => crate::handler::sub_imm(context, *result, *src, *imm),
            Inst::Mul { result, lhs, rhs } => crate::handler::mul(context, *result, *lhs, *rhs),
            Inst::MulImm { result, src, imm } => crate::handler::mul_imm(context, *result, *src, *imm),
            Inst::Branch { target } => crate::handler::branch(context, *target),
            Inst::BranchEqz { target, condition } => crate::handler::branch_eqz(context, *target, *condition),
            Inst::Return { result } => crate::handler::ret(context, *result),
        }
    }
}

impl Validate for Inst {
    fn is_valid(&self, len: usize) -> (ok: bool) {
        match *self {
            Inst::Add { result, lhs, rhs } => result < SLOTS && lhs < SLOTS && rhs < SLOTS,
            Inst::Sub { result, lhs, rhs } => result < SLOTS && lhs < SLOTS && rhs < SLOTS,
            Inst::Mul { result, lhs, rhs } => result < SLOTS && lhs < SLOTS && rhs < SLOTS,
            Inst::AddImm { result, src, imm } => result < SLOTS && src < SLOTS,
            Inst::SubImm { result, src, imm } => result < SLOTS && src < SLOTS,
            Inst::MulImm { result, src, imm } => result < SLOTS && src < SLOTS,
            Inst::Branch { target } => target < len,
            Inst::BranchEqz { target, condition } => target < len && condition < SLOTS,
            Inst::Return { result } => result < SLOTS,
        }
    }
}

/// Executes the list of instruction using the given [`Context`], until one
/// of them returns.
pub fn execute(insts: &[Inst], context: &mut Context)
    requires
        old(context)@.wf(),
        well_formed(meaning(insts@)),
        halts(meaning(insts@), old(context)@),
    ensures
        final(context)@ == end_state(meaning(insts@), old(context)@),
        final(context)@.wf(),
{
    let ghost prog = meaning(insts@);
    loop
        invariant
            prog == meaning(insts@),
            context@.wf(),
            well_formed(prog),
            halts(prog, context@),
            end_state(prog, context@) == end_state(prog, old(context)@),
        decreases steps(prog, context@),
    {
        proof {
            lemma_halts_step(prog, context@);
        }
        let pc = context.pc();
        let inst = &insts[pc];
        match inst.execute(context) {
            Outcome::Continue => continue,
            Outcome::Return => return,
        }
    }
}

} // verus!
