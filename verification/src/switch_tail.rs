//! Threaded dispatch over tagged instructions: executing an instruction
//! executes everything that follows it too.
use vstd::prelude::*;

use crate::machine::{end_state, end_state_after, halts, lemma_halts_step, meaning, steps, well_formed, Op, Semantics};
use crate::switch::Inst;
use crate::{Context, Outcome};

verus! {

/// An execution under way: the program and the context it runs on.
pub struct ExecContext<'i, 'c> {
    pub insts: &'i [Inst],
    pub context: &'c mut Context,
}

impl<'i, 'c> ExecContext<'i, 'c> {
    /// The program, by the meaning of its instructions.
    pub open spec fn program(&self) -> Seq<Op> {
        meaning(self.insts@)
    }

    /// Executes the instruction at `pc` and all that follow, until one returns.
    pub fn tail_execute_next(&mut self) -> (outcome: Outcome)
        requires
            old(self).context@.wf(),
            well_formed(old(self).program()),
            halts(old(self).program(), old(self).context@),
        ensures
            final(self).insts == old(self).insts,
            *final(final(self).context) == *final(old(self).context),
            final(self).context@ == end_state(old(self).program(), old(self).context@),
            final(self).context@.wf(),
            outcome == Outcome::Return,
    {
        let ghost prog = self.program();
        loop
            invariant
                self.insts == old(self).insts,
                *final(self.context) == *final(old(self).context),
                prog == self.program(),
                self.context@.wf(),
                well_formed(prog),
                halts(prog, self.context@),
                end_state(prog, self.context@) == end_state(prog, old(self).context@),
            decreases steps(prog, self.context@),
        {
            proof {
                lemma_halts_step(prog, self.context@);
            }
            let inst = &self.insts[self.context.pc()];
            match inst.execute(self.context) {
                Outcome::Continue => continue,
                Outcome::Return => return Outcome::Return,
            }
        }
    }
}

impl Inst {
    /// Executes the instruction, and then the program from where the
    /// instruction left it.
    pub fn tail_execute(&self, context: &mut ExecContext) -> (outcome: Outcome)
        requires
            old(context).context@.wf(),
            self@.step(old(context).context@).pc <= usize::MAX,
            self@.operands_valid(),
            well_formed(old(context).program()),
            !self@.ends() ==> halts(old(context).program(), self@.step(old(context).context@)),
        ensures
            final(context).insts == old(context).insts,
            *final(final(context).context) == *final(old(context).context),
            final(context).context@ == end_state_after(old(context).program(), self@, old(context).context@),
            final(context).context@.wf(),
            outcome == Outcome::Return,
    {
        match self {
            Inst::Add { result, lhs, rhs } => {
                crate::handler::add(context.context, *result, *lhs, *rhs);
                context.tail_execute_next()
            },
            Inst::AddImm { result, src, imm } => {
                crate::handler::add_imm(context.context, *result, *src, *imm);
                context.tail_execute_next()
            },
            Inst::Sub { result, lhs, rhs } => {
                crate::handler::sub(context.context, *result, *lhs, *rhs);
                context.tail_execute_next()
            },
            Inst::SubImm { result, src, imm } => {
                crate::handler::sub_imm(context.context, *result, *src, *imm);
                context.tail_execute_next()
            },
            Inst::Mul { result, lhs, rhs } => {
                crate::handler::mul(context.context, *result, *lhs, *rhs);
                context.tail_execute_next()
            },
            Inst::MulImm { result, src, imm } => {
                crate::handler::mul_imm(context.context, *result, *src, *imm);
                context.tail_execute_next()
            },
            Inst::Branch { target } => {
                crate::handler::branch(context.context, *target);
                context.tail_execute_next()
            },
            Inst::BranchEqz { target, condition } => {
                crate::handler::branch_eqz(context.context, *target, *condition);
                context.tail_execute_next()
            },
            Inst::Return { result } => crate::handler::ret(context.context, *result),
        }
    }
}

/// Executes the list of instruction using the given [`Context`], until one
/// of them returns.
pub fn execute(insts: &[Inst], context: &mut Context)
    requires
        old(context)@.wf(),
        well_formed(meaning(insts@)),
        halts(meaning(insts@), old(context)@),
    ensures
        final(context)@ == end_state(meaning(insts@), old(context)@),
        final(context)@.wf(),
{
    let mut exec_context = ExecContext { insts, context };
    exec_context.tail_execute_next();
}

} // verus!
