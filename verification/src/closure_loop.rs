//! Indirect dispatch: each instruction carries its own behaviour, and the
//! driving loop calls it without looking at what it is.
use vstd::prelude::*;

use crate::handler::{branch_eqz_op, branch_op, imm_op, ret_op};
use crate::machine::{end_state, halts, lemma_halts_step, meaning, steps, well_formed, BinOp, Op, Semantics, Validate, SLOTS};
use crate::{Bits, Context, Outcome, Register, Target};

verus! {

/// What an instruction does when it is called, with everything it needs.
#[derive(Copy, Clone)]
pub enum Handler {
    AddImm { result: Register, src: Register, imm: Bits },
    SubImm { result: Register, src: Register, imm: Bits },
    Branch { target: Target },
    BranchEqz { target: Target, condition: Register },
    Ret { result: Register },
}

impl View for Handler {
    type V = Op;

    open spec fn view(&self) -> Op {
        match *self {
            Handler::AddImm { result, src, imm } => imm_op(BinOp::Add, result, src, imm),
            Handler::SubImm { result, src, imm } => imm_op(BinOp::Sub, result, src, imm),
            Handler::Branch { target } => branch_op(target),
            Handler::BranchEqz { target, condition } => branch_eqz_op(target, condition),
            Handler::Ret { result } => ret_op(result),
        }
    }
}

/// An instruction that carries its own behaviour.
pub struct Inst {
    /// The handler stores everything required for the instruction execution.
    handler: Handler,
}

impl View for Inst {
    type V = Op;

    closed spec fn view(&self) -> Op {
        self.handler@
    }
}

impl Inst {
    /// Executes the given instruction using the given [`Context`].
    pub fn execute(&self, context: &mut Context) -> (outcome: Outcome)
        requires
            old(context)@.wf(),
            self@.step(old(context)@).pc <= usize::MAX,
            self@.operands_valid(),
        ensures
            final(context)@ == self@.step(old(context)@),
            final(context)@.wf(),
            (outcome == Outcome::Return) == self@.ends(),
    {
        match self.handler {
            Handler::AddImm { result, src, imm } => crate::handler::add_imm(context, result, src, imm),
            Handler::SubImm { result, src, imm } => crate::handler::sub_imm(context, result, src, imm),
            Handler::Branch { target } => crate::handler::branch(context, target),
            Handler::BranchEqz { target, condition } => crate::handler::branch_eqz(context, target, condition),
            Handler::Ret { result } => crate::handler::ret(context, result),
        }
    }

    /// Creates a new [`Inst`] from the given handler.
    pub fn new(handler: Handler) -> (inst: Self)
        ensures
            inst@ == handler@,
    {
        Self { handler }
    }

    /// Adds the constant `imm` and the contents of `src` and stores the result into `result`.
    pub fn add_imm(result: Register, src: Register, imm: Bits) -> (inst: Self)
        ensures
            inst@ == imm_op(BinOp::Add, result, src, imm),
    {
        Self::new(Handler::AddImm { result, src, imm })
    }

    /// Subtracts the constant `imm` from the contents of `src` and stores the result into `result`.
    pub fn sub_imm(result: Register, src: Register, imm: Bits) -> (inst: Self)
        ensures
            inst@ == imm_op(BinOp::Sub, result, src, imm),
    {
        Self::new(Handler::SubImm { result, src, imm })
    }

    /// Branches to the instruction indexed by `target`.
    pub fn branch(target: Target) -> (inst: Self)
        ensures
            inst@ == branch_op(target),
    {
        Self::new(Handler::Branch { target })
    }

    /// Branches to the instruction indexed by `target` if the contents of `condition` are zero.
    pub fn branch_eqz(target: Target, condition: Register) -> (inst: Self)
        ensures
            inst@ == branch_eqz_op(target, condition),
    {
        Self::new(Handler::BranchEqz { target, condition })
    }

    /// Returns execution of the function and returns the result in `result`.
    pub fn ret(result: Register) -> (inst: Self)
        ensures
            inst@ == ret_op(result),
    {
        Self::new(Handler::Ret { result })
    }
}

impl Validate for Inst {
    fn is_valid(&self, len: usize) -> (ok: bool) {
        match self.handler {
            Handler::AddImm { result, src, imm } => result < SLOTS && src < SLOTS,
            Handler::SubImm { result, src, imm } => result < SLOTS && src < SLOTS,
            Handler::Branch { target } => target < len,
            Handler::BranchEqz { target, condition } => target < len && condition < SLOTS,
            Handler::Ret { result } => result < SLOTS,
        }
    }
}

/// Executes the list of instruction using the given [`Context`], until one
/// of them returns.
pub fn execute(insts: &[Inst], context: &mut Context)
    requires
        old(context)@.wf(),
        well_formed(meaning(insts@)),
        halts(meaning(insts@), old(context)@),
    ensures
        final(context)@ == end_state(meaning(insts@), old(context)@),
        final(context)@.wf(),
{
    let ghost prog = meaning(insts@);
    loop
        invariant
            prog == meaning(insts@),
            context@.wf(),
            well_formed(prog),
            halts(prog, context@),
            end_state(prog, context@) == end_state(prog, old(context)@),
        decreases steps(prog, context@),
    {
        proof {
            lemma_halts_step(prog, context@);
        }
        let pc = context.pc();
        let inst = &insts[pc];
        match inst.execute(context) {
            Outcome::Continue => continue,
            Outcome::Return => return ,
        }
    }
}

} // verus!
