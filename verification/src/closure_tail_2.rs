//! Threaded dispatch over instructions that carry their own behaviour,
//! with register 0 handed from one instruction to the next as an argument.
use vstd::prelude::*;

use crate::handler::{branch_eqz_op, branch_op, imm_op, ret_op};
use crate::machine::{add_bits, end_state, end_state_after, halts, lemma_halts_step, lemma_step_promoted, meaning, steps, sub_bits, well_formed, BinOp, Op, Semantics, Validate, SLOTS};
use crate::{Bits, Context, Outcome, Register, Target};

verus! {

/// What an instruction does when it is called, with everything it needs.
#[derive(Copy, Clone)]
pub enum Handler {
    /// Adds the constant `imm` and the contents of `src` and stores the result into `result`.
    AddImm { result: Register, src: Register, imm: Bits },
    /// Adds the constant `imm` to register 0.
    AddImm0 { imm: Bits },
    /// Subtracts the constant `imm` from the contents of `src` and stores the result into `result`.
    SubImm { result: Register, src: Register, imm: Bits },
    /// Subtracts the constant `imm` from register 0.
    SubImm0 { imm: Bits },
    /// Branches to the instruction indexed by `target`.
    Branch { target: Target },
    /// Branches to the instruction indexed by `target` if the contents of `condition` are zero.
    BranchEqz { target: Target, condition: Register },
    /// Branches to the instruction indexed by `target` if register 0 holds zero.
    BranchEqz0 { target: Target },
    /// Returns execution of the function and returns the result in `result`.
    Ret { result: Register },
}

impl View for Handler {
    type V = Op;

    open spec fn view(&self) -> Op {
        match *self {
            Handler::AddImm { result, src, imm } => imm_op(BinOp::Add, result, src, imm),
            Handler::AddImm0 { imm } => imm_op(BinOp::Add, 0, 0, imm),
            Handler::SubImm { result, src, imm } => imm_op(BinOp::Sub, result, src, imm),
            Handler::SubImm0 { imm } => imm_op(BinOp::Sub, 0, 0, imm),
            Handler::Branch { target } => branch_op(target),
            Handler::BranchEqz { target, condition } => branch_eqz_op(target, condition),
            Handler::BranchEqz0 { target } => branch_eqz_op(target, 0),
            Handler::Ret { result } => ret_op(result),
        }
    }
}

impl Handler {
    /// The instruction works on register 0 through the value that is handed
    /// along, or leaves that register alone.
    pub open spec fn consistent(&self) -> bool {
        match *self {
            Handler::AddImm0 { .. } | Handler::SubImm0 { .. } | Handler::BranchEqz0 { .. } | Handler::Ret { .. } => true,
            _ => self@.avoids_reg0(),
        }
    }
}

/// An instruction that carries its own behaviour.
pub struct Inst {
    /// The handler stores everything required for the instruction execution.
    handler: Handler,
}

impl View for Inst {
    type V = Op;

    closed spec fn view(&self) -> Op {
        self.handler@
    }
}

impl Inst {
    /// The instruction works on register 0 through the value that is handed
    /// along, or leaves that register alone.
    pub closed spec fn consistent(&self) -> bool {
        self.handler.consistent()
    }
}

/// Every instruction of the program is consistent in its use of register 0.
pub open spec fn consistent(insts: Seq<Inst>) -> bool {
    forall|i: int| 0 <= i < insts.len() ==> (#[trigger] insts[i]).consistent()
}

/// An execution under way: the program and the context it runs on.
pub struct ExecContext<'i, 'c> {
    pub insts: &'i [Inst],
    pub context: &'c mut Context,
}

impl<'i, 'c> ExecContext<'i, 'c> {
    /// The program, by the meaning of its instructions.
    pub open spec fn program(&self) -> Seq<Op> {
        meaning(self.insts@)
    }

    /// Executes the instruction at `pc` and all that follow, until one
    /// returns, with register 0 held in `reg0` and not in its slot. The
    /// return writes it back.
    pub fn execute_next(&mut self, reg0: Bits) -> (outcome: Outcome)
        requires
            old(self).context@.wf(),
            well_formed(old(self).program()),
            consistent(old(self).insts@),
            halts(old(self).program(), old(self).context@.promote(reg0)),
        ensures
            final(self).insts == old(self).insts,
            *final(final(self).context) == *final(old(self).context),
            final(self).context@ == end_state(old(self).program(), old(self).context@.promote(reg0)),
            final(self).context@.wf(),
            outcome == Outcome::Return,
    {
        let ghost prog = self.program();
        let mut held = reg0;
        loop
            invariant
                self.insts == old(self).insts,
                *final(self.context) == *final(old(self).context),
                prog == self.program(),
                self.context@.wf(),
                well_formed(prog),
                consistent(self.insts@),
                halts(prog, self.context@.promote(held)),
                end_state(prog, self.context@.promote(held)) == end_state(prog, old(self).context@.promote(reg0)),
            decreases steps(prog, self.context@.promote(held)),
        {
            proof {
                lemma_halts_step(prog, self.context@.promote(held));
            }
            let inst = &self.insts[self.context.pc()];
            match inst.apply(self.context, &mut held) {
                Outcome::Continue => continue,
                Outcome::Return => {
                    proof {
                        assert(self.context@.promote(held).regs =~= self.context@.regs);
                    }
                    return Outcome::Return;
                },
            }
        }
    }
}

impl Inst {
    /// The instruction's own effect, without what follows it.
    fn apply(&self, context: &mut Context, reg0: &mut Bits) -> (outcome: Outcome)
        requires
            old(context)@.wf(),
            self@.step(old(context)@.promote(*old(reg0))).pc <= usize::MAX,
            self@.operands_valid(),
            self.consistent(),
        ensures
            final(context)@.promote(*final(reg0)) == self@.step(old(context)@.promote(*old(reg0))),
            final(context)@.regs[0] == if self@.ends() { *final(reg0) } else { old(context)@.regs[0] },
            final(context)@.wf(),
            (outcome == Outcome::Return) == self@.ends(),
    {
        proof {
            if self@.avoids_reg0() {
                lemma_step_promoted(self@, context@, *reg0);
            }
        }
        let ghost before = context@;
        let outcome = match self.handler {
            Handler::AddImm { result, src, imm } => crate::handler::add_imm(context, result, src, imm),
            Handler::AddImm0 { imm } => {
                *reg0 = add_bits(*reg0, imm);
                context.next_inst()
            },
            Handler::SubImm { result, src, imm } => crate::handler::sub_imm(context, result, src, imm),
            Handler::SubImm0 { imm } => {
                *reg0 = sub_bits(*reg0, imm);
                context.next_inst()
            },
            Handler::Branch { target } => crate::handler::branch(context, target),
            Handler::BranchEqz { target, condition } => crate::handler::branch_eqz(context, target, condition),
            Handler::BranchEqz0 { target } => {
                if *reg0 == 0 {
                    context.branch_to(target)
                } else {
                    context.next_inst()
                }
            },
            Handler::Ret { result } => {
                if result != 0 {
                    *reg0 = context.get_reg(result);
                }
                context.set_reg(0, *reg0);
                Outcome::Return
            },
        };
        proof {
            assert(context@.promote(*reg0).regs =~= self@.step(before.promote(*old(reg0))).regs);
        }
        outcome
    }

    /// Executes the instruction with register 0 held in `reg0`, and then
    /// the program from where the instruction left it.
    pub fn execute(&self, context: &mut ExecContext, reg0: Bits) -> (outcome: Outcome)
        requires
            old(context).context@.wf(),
            self@.step(old(context).context@.promote(reg0)).pc <= usize::MAX,
            self@.operands_valid(),
            self.consistent(),
            well_formed(old(context).program()),
            consistent(old(context).insts@),
            !self@.ends() ==> halts(old(context).program(), self@.step(old(context).context@.promote(reg0))),
        ensures
            final(context).insts == old(context).insts,
            *final(final(context).context) == *final(old(context).context),
            final(context).context@ == end_state_after(old(context).program(), self@, old(context).context@.promote(reg0)),
            final(context).context@.wf(),
            outcome == Outcome::Return,
    {
        proof {
            if self@.avoids_reg0() {
                lemma_step_promoted(self@, context.context@, reg0);
            }
        }
        let ghost before = context.context@.promote(reg0);
        match self.handler {
            Handler::AddImm { result, src, imm } => {
                crate::handler::add_imm(context.context, result, src, imm);
                context.execute_next(reg0)
            },
            Handler::AddImm0 { imm } => {
                let result = add_bits(reg0, imm);
                context.context.next_inst();
                proof {
                    assert(context.context@.promote(result).regs =~= self@.step(before).regs);
                }
                context.execute_next(result)
            },
            Handler::SubImm { result, src, imm } => {
                crate::handler::sub_imm(context.context, result, src, imm);
                context.execute_next(reg0)
            },
            Handler::SubImm0 { imm } => {
                let result = sub_bits(reg0, imm);
                context.context.next_inst();
                proof {
                    assert(context.context@.promote(result).regs =~= self@.step(before).regs);
                }
                context.execute_next(result)
            },
            Handler::Branch { target } => {
                crate::handler::branch(context.context, target);
                context.execute_next(reg0)
            },
            Handler::BranchEqz { target, condition } => {
                crate::handler::branch_eqz(context.context, target, condition);
                context.execute_next(reg0)
            },
            Handler::BranchEqz0 { target } => {
                if reg0 == 0 {
                    context.context.branch_to(target);
                } else {
                    context.context.next_inst();
                }
                context.execute_next(reg0)
            },
            Handler::Ret { result } => {
                let value = if result != 0 {
                    context.context.get_reg(result)
                } else {
                    reg0
                };
                context.context.set_reg(0, value);
                proof {
                    assert(context.context@.regs =~= self@.step(before).regs);
                }
                Outcome::Return
            },
        }
    }

    /// Creates a new [`Inst`] from the given handler.
    pub fn new(handler: Handler) -> (inst: Self)
        ensures
            inst@ == handler@,
            inst.consistent() == handler.consistent(),
    {
        Self { handler }
    }

    /// Adds the constant `imm` and the contents of `src` and stores the result into `result`.
    pub fn add_imm(result: Register, src: Register, imm: Bits) -> (inst: Self)
        ensures
            inst@ == imm_op(BinOp::Add, result, src, imm),
            inst.consistent() == (Handler::AddImm { result, src, imm }).consistent(),
    {
        Self::new(Handler::AddImm { result, src, imm })
    }

    /// Adds the constant `imm` to register 0, which is handed along.
    pub fn add_imm_0(imm: Bits) -> (inst: Self)
        ensures
            inst@ == imm_op(BinOp::Add, 0, 0, imm),
            inst.consistent() == (Handler::AddImm0 { imm }).consistent(),
    {
        Self::new(Handler::AddImm0 { imm })
    }

    /// Subtracts the constant `imm` from the contents of `src` and stores the result into `result`.
    pub fn sub_imm(result: Register, src: Register, imm: Bits) -> (inst: Self)
        ensures
            inst@ == imm_op(BinOp::Sub, result, src, imm),
            inst.consistent() == (Handler::SubImm { result, src, imm }).consistent(),
    {
        Self::new(Handler::SubImm { result, src, imm })
    }

    /// Subtracts the constant `imm` from register 0, which is handed along.
    pub fn sub_imm_0(imm: Bits) -> (inst: Self)
        ensures
            inst@ == imm_op(BinOp::Sub, 0, 0, imm),
            inst.consistent() == (Handler::SubImm0 { imm }).consistent(),
    {
        Self::new(Handler::SubImm0 { imm })
    }

    /// Branches to the instruction indexed by `target`.
    pub fn branch(target: Target) -> (inst: Self)
        ensures
            inst@ == branch_op(target),
            inst.consistent() == (Handler::Branch { target }).consistent(),
    {
        Self::new(Handler::Branch { target })
    }

    /// Branches to the instruction indexed by `target` if the contents of `condition` are zero.
    pub fn branch_eqz(target: Target, condition: Register) -> (inst: Self)
        ensures
            inst@ == branch_eqz_op(target, condition),
            inst.consistent() == (Handler::BranchEqz { target, condition }).consistent(),
    {
        Self::new(Handler::BranchEqz { target, condition })
    }

    /// Branches to the instruction indexed by `target` if register 0, which is handed along, holds zero.
    pub fn branch_eqz_0(target: Target) -> (inst: Self)
        ensures
            inst@ == branch_eqz_op(target, 0),
            inst.consistent() == (Handler::BranchEqz0 { target }).consistent(),
    {
        Self::new(Handler::BranchEqz0 { target })
    }

    /// Returns execution of the function and returns the result in `result`.
    pub fn ret(result: Register) -> (inst: Self)
        ensures
            inst@ == ret_op(result),
            inst.consistent() == (Handler::Ret { result }).consistent(),
    {
        Self::new(Handler::Ret { result })
    }
}

impl Validate for Inst {
    fn is_valid(&self, len: usize) -> (ok: bool) {
        match self.handler {
            Handler::AddImm { result, src, imm } => result < SLOTS && src < SLOTS,
            Handler::SubImm { result, src, imm } => result < SLOTS && src < SLOTS,
            Handler::AddImm0 { imm } => true,
            Handler::SubImm0 { imm } => true,
            Handler::BranchEqz0 { target } => target < len,
            Handler::Branch { target } => target < len,
            Handler::BranchEqz { target, condition } => target < len && condition < SLOTS,
            Handler::Ret { result } => result < SLOTS,
        }
    }
}

impl Inst {
    /// Whether the instruction is consistent in its use of register 0.
    pub fn is_consistent(&self) -> (ok: bool)
        ensures
            ok == self.consistent(),
    {
        match self.handler {
            Handler::AddImm { result, src, imm } => result != 0 && src != 0,
            Handler::SubImm { result, src, imm } => result != 0 && src != 0,
            Handler::AddImm0 { imm } => true,
            Handler::SubImm0 { imm } => true,
            Handler::Branch { target } => true,
            Handler::BranchEqz { target, condition } => condition != 0,
            Handler::BranchEqz0 { target } => true,
            Handler::Ret { result } => true,
        }
    }
}

/// Whether every instruction of the program is consistent in its use of
/// register 0.
pub fn is_consistent(insts: &[Inst]) -> (ok: bool)
    ensures
        ok == consistent(insts@),
{
    let mut i: usize = 0;
    while i < insts.len()
        invariant
            i <= insts@.len(),
            forall|j: int| 0 <= j < i ==> (#[trigger] insts@[j]).consistent(),
        decreases insts@.len() - i,
    {
        if !insts[i].is_consistent() {
            return false;
        }
        i += 1;
    }
    true
}

/// Executes the list of instruction using the given [`Context`], until one
/// of them returns.
pub fn execute(insts: &[Inst], context: &mut Context)
    requires
        old(context)@.wf(),
        well_formed(meaning(insts@)),
        consistent(insts@),
        halts(meaning(insts@), old(context)@),
    ensures
        final(context)@ == end_state(meaning(insts@), old(context)@),
        final(context)@.wf(),
{
    let reg0 = context.get_reg(0);
    proof {
        assert(context@.promote(reg0).regs =~= context@.regs);
    }
    let mut exec_context = ExecContext { insts, context };
    exec_context.execute_next(reg0);
}

} // verus!
