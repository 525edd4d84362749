//! Tag dispatch with register 0 held in a variable of the driving loop:
//! the instructions whose name ends in `0` work on that variable.
use vstd::prelude::*;

use crate::handler::{branch_eqz_op, branch_op, imm_op, reg_op, ret_op};
use crate::machine::{add_bits, end_state, halts, lemma_halts_step, lemma_step_promoted, meaning, steps, sub_bits, well_formed, BinOp, Op, Semantics, Validate, SLOTS};
use crate::{Bits, Context, Outcome, Register, Target};

verus! {

#[derive(Copy, Clone)]
pub enum Inst {
    /// Adds the contents of `lhs` and `rhs` and stores the result into `result`.
    Add { result: Register, lhs: Register, rhs: Register },
    /// Adds the constant `imm` and the contents of `src` and stores the result into `result`.
    AddImm { result: Register, src: Register, imm: Bits },
    /// Adds the constant `imm` to register 0.
    AddImm0 { imm: Bits },
    /// Subtracts the contents of `rhs` from `lhs` and stores the result into `result`.
    Sub { result: Register, lhs: Register, rhs: Register },
    /// Subtracts the constant `imm` from the contents of `src` and stores the result into `result`.
    SubImm { result: Register, src: Register, imm: Bits },
    /// Subtracts the constant `imm` from register 0.
    SubImm0 { imm: Bits },
    /// Multiplies the contents of `lhs` and `rhs` and stores the result into `result`.
    Mul { result: Register, lhs: Register, rhs: Register },
    /// Multiplies the constant `imm` and the contents of `src` and stores the result into `result`.
    MulImm { result: Register, src: Register, imm: Bits },
    /// Branches to the instruction indexed by `target`.
    Branch { target: Target },
    /// Branches to the instruction indexed by `target` if the contents of `condition` are zero.
    BranchEqz { target: Target, condition: Register },
    /// Branches to the instruction indexed by `target` if register 0 holds zero.
    BranchEqz0 { target: Target },
    /// Returns execution of the function and returns the result in `result`.
    Return { result: Register },
}

impl View for Inst {
    type V = Op;

    open spec fn view(&self) -> Op {
        match *self {
            Inst::Add { result, lhs, rhs } => reg_op(BinOp::Add, result, lhs, rhs),
            Inst::AddImm { result, src, imm } => imm_op(BinOp::Add, result, src, imm),
            Inst::AddImm0 { imm } => imm_op(BinOp::Add, 0, 0, imm),
            Inst::Sub { result, lhs, rhs } => reg_op(BinOp::Sub, result, lhs, rhs),
            Inst::SubImm { result, src, imm } => imm_op(BinOp::Sub, result, src, imm),
            Inst::SubImm0 { imm } => imm_op(BinOp::Sub, 0, 0, imm),
            Inst::Mul { result, lhs, rhs } => reg_op(BinOp::Mul, result, lhs, rhs),
            Inst::MulImm { result, src, imm } => imm_op(BinOp::Mul, result, src, imm),
            Inst::Branch { target } => branch_op(target),
            Inst::BranchEqz { target, condition } => branch_eqz_op(target, condition),
            Inst::BranchEqz0 { target } => branch_eqz_op(target, 0),
            Inst::Return { result } => ret_op(result),
        }
    }
}

impl Inst {
    /// The instruction works on register 0 through the variable that holds
    /// it, or leaves that register alone.
    pub open spec fn consistent(&self) -> bool {
        match *self {
            Inst::AddImm0 { .. } | Inst::SubImm0 { .. } | Inst::BranchEqz0 { .. } | Inst::Return { .. } => true,
            _ => self@.avoids_reg0(),
        }
    }

    /// Executes the instruction once, with register 0 held in `reg0`: only
    /// a return writes it back to its slot.
    pub fn execute(&self, context: &mut Context, reg0: &mut Bits) -> (outcome: Outcome)
        requires
            old(context)@.wf(),
            self@.step(old(context)@.promote(*old(reg0))).pc <= usize::MAX,
            self@.operands_valid(),
            self.consistent(),
        ensures
            final(context)@.promote(*final(reg0)) == self@.step(old(context)@.promote(*old(reg0))),
            final(context)@.regs[0] == if self@.ends() { *final(reg0) } else { old(context)@.regs[0] },
            final(context)@.wf(),
            (outcome == Outcome::Return) == self@.ends(),
    {
        proof {
            if self@.avoids_reg0() {
                lemma_step_promoted(self@, context@, *reg0);
            }
        }
        let ghost before = context@;
        let outcome = match self {
            Inst::Add { result, lhs, rhs } => crate::handler::add(context, *result, *lhs, *rhs),
            Inst::AddImm { result, src, imm } => crate::handler::add_imm(context, *result, *src, *imm),
            Inst::AddImm0 { imm } => {
                *reg0 = add_bits(*reg0, *imm);
                context.next_inst()
            },
            Inst::Sub { result, lhs, rhs } => crate::handler::sub(context, *result, *lhs, *rhs),
            Inst::SubImm { result, src, imm } => crate::handler::sub_imm(context, *result, *src, *imm),
            Inst::SubImm0 { imm } => {
                *reg0 = sub_bits(*reg0, *imm);
                context.next_inst()
            },
            Inst::Mul { result, lhs, rhs } => crate::handler::mul(context, *result, *lhs, *rhs),
            Inst::MulImm { result, src, imm } => crate::handler::mul_imm(context, *result, *src, *imm),
            Inst::Branch { target } => crate::handler::branch(context, *target),
            Inst::BranchEqz { target, condition } => crate::handler::branch_eqz(context, *target, *condition),
            Inst::BranchEqz0 { target } => {
                if *reg0 == 0 {
                    context.branch_to(*target)
                } else {
                    context.next_inst()
                }
            },
            Inst::Return { result } => {
                if *result != 0 {
                    *reg0 = context.get_reg(*result);
                }
                context.set_reg(0, *reg0);
                Outcome::Return
            },
        };
        proof {
            assert(context@.promote(*reg0).regs =~= self@.step(before.promote(*old(reg0))).regs);
        }
        outcome
    }
}

/// Every instruction of the program is consistent in its use of register 0.
pub open spec fn consistent(insts: Seq<Inst>) -> bool {
    forall|i: int| 0 <= i < insts.len() ==> (#[trigger] insts[i]).consistent()
}

impl Validate for Inst {
    fn is_valid(&self, len: usize) -> (ok: bool) {
        match *self {
            Inst::Add { result, lhs, rhs } => result < SLOTS && lhs < SLOTS && rhs < SLOTS,
            Inst::Sub { result, lhs, rhs } => result < SLOTS && lhs < SLOTS && rhs < SLOTS,
            Inst::Mul { result, lhs, rhs } => result < SLOTS && lhs < SLOTS && rhs < SLOTS,
            Inst::AddImm { result, src, imm } => result < SLOTS && src < SLOTS,
            Inst::SubImm { result, src, imm } => result < SLOTS && src < SLOTS,
            Inst::MulImm { result, src, imm } => result < SLOTS && src < SLOTS,
            Inst::AddImm0 { imm } => true,
            Inst::SubImm0 { imm } => true,
            Inst::BranchEqz0 { target } => target < len,
            Inst::Branch { target } => target < len,
            Inst::BranchEqz { target, condition } => target < len && condition < SLOTS,
            Inst::Return { result } => result < SLOTS,
        }
    }
}

impl Inst {
    /// Whether the instruction is consistent in its use of register 0.
    pub fn is_consistent(&self) -> (ok: bool)
        ensures
            ok == self.consistent(),
    {
        match *self {
            Inst::Add { result, lhs, rhs } => result != 0 && lhs != 0 && rhs != 0,
            Inst::Sub { result, lhs, rhs } => result != 0 && lhs != 0 && rhs != 0,
            Inst::Mul { result, lhs, rhs } => result != 0 && lhs != 0 && rhs != 0,
            Inst::AddImm { result, src, imm } => result != 0 && src != 0,
            Inst::SubImm { result, src, imm } => result != 0 && src != 0,
            Inst::MulImm { result, src, imm } => result != 0 && src != 0,
            Inst::AddImm0 { imm } => true,
            Inst::SubImm0 { imm } => true,
            Inst::Branch { target } => true,
            Inst::BranchEqz { target, condition } => condition != 0,
            Inst::BranchEqz0 { target } => true,
            Inst::Return { result } => true,
        }
    }
}

/// Whether every instruction of the program is consistent in its use of
/// register 0.
pub fn is_consistent(insts: &[Inst]) -> (ok: bool)
    ensures
        ok == consistent(insts@),
{
    let mut i: usize = 0;
    while i < insts.len()
        invariant
            i <= insts@.len(),
            forall|j: int| 0 <= j < i ==> (#[trigger] insts@[j]).consistent(),
        decreases insts@.len() - i,
    {
        if !insts[i].is_consistent() {
            return false;
        }
        i += 1;
    }
    true
}

/// Executes the list of instruction using the given [`Context`], until one
/// of them returns.
pub fn execute(insts: &[Inst], context: &mut Context)
    requires
        old(context)@.wf(),
        well_formed(meaning(insts@)),
        consistent(insts@),
        halts(meaning(insts@), old(context)@),
    ensures
        final(context)@ == end_state(meaning(insts@), old(context)@),
        final(context)@.wf(),
{
    let ghost prog = meaning(insts@);
    let mut reg0 = context.get_reg(0);
    proof {
        assert(context@.promote(reg0).regs =~= context@.regs);
    }
    loop
        invariant
            prog == meaning(insts@),
            context@.wf(),
            well_formed(prog),
            consistent(insts@),
            halts(prog, context@.promote(reg0)),
            end_state(prog, context@.promote(reg0)) == end_state(prog, old(context)@),
        decreases steps(prog, context@.promote(reg0)),
    {
        proof {
            lemma_halts_step(prog, context@.promote(reg0));
        }
        let pc = context.pc();
        let inst = &insts[pc];
        match inst.execute(context, &mut reg0) {
            Outcome::Continue => continue,
            Outcome::Return => {
                proof {
                    assert(context@.promote(reg0).regs =~= context@.regs);
                }
                return;
            },
        }
    }
}

} // verus!
