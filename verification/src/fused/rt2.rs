//! The dynamic form over registers alone: results go to registers, and each
//! source carries its kind, a register or a constant.
use vstd::prelude::*;
use vstd::std_specs::convert::{FromSpecImpl, IntoSpec};

use super::{Bits, Const, Context, Register};
use crate::machine::{add_bits, end_state, eq_bits, halts, lemma_halts_step, meaning, mul_bits, ne_bits, steps, sub_bits, well_formed, BinOp, Loc, Op, Semantics, Val, Validate};
use crate::{Outcome, Target};

verus! {

#[derive(Copy, Clone)]
pub enum Source {
    Const(Const),
    Register(Register),
}

impl View for Source {
    type V = Val;

    open spec fn view(&self) -> Val {
        match *self {
            Source::Const(constant) => constant@,
            Source::Register(register) => register@,
        }
    }
}

impl From<Const> for Source {
    fn from(constant: Const) -> (r: Self) {
        Self::Const(constant)
    }
}

impl FromSpecImpl<Const> for Source {
    open spec fn obeys_from_spec() -> bool {
        true
    }

    open spec fn from_spec(constant: Const) -> Self {
        Self::Const(constant)
    }
}

impl From<Register> for Source {
    fn from(register: Register) -> (r: Self) {
        Self::Register(register)
    }
}

impl FromSpecImpl<Register> for Source {
    open spec fn obeys_from_spec() -> bool {
        true
    }

    open spec fn from_spec(register: Register) -> Self {
        Self::Register(register)
    }
}

impl Source {
    /// Whether the register or global that the source names exists.
    pub fn is_valid(&self) -> (ok: bool)
        ensures
            ok == self@.valid(),
    {
        match self {
            Source::Const(_) => true,
            Source::Register(register) => register.is_valid(),
        }
    }

    pub fn load(&self, context: &Context) -> (bits: Bits)
        requires
            context@.wf(),
            self@.valid(),
        ensures
            bits == context@.load(self@),
    {
        match self {
            Source::Const(constant) => constant.into_bits(),
            Source::Register(register) => context.get_reg(*register),
        }
    }
}

/// An instruction that can execute itself once on a [`Context`]; its view
/// is what it means.
pub trait Execute: View<V = Op> + Sized {
    fn execute(&self, context: &mut Context) -> (outcome: Outcome)
        requires
            old(context)@.wf(),
            self@.step(old(context)@).pc <= usize::MAX,
            self@.operands_valid(),
        ensures
            final(context)@ == self@.step(old(context)@),
            final(context)@.wf(),
            (outcome == Outcome::Return) == self@.ends(),
    ;
}

#[derive(Copy, Clone)]
pub enum Inst {
    Add(AddInst),
    Sub(SubInst),
    Mul(MulInst),
    Eq(EqInst),
    Ne(NeInst),
    Branch(BranchInst),
    BranchEqz(BranchEqzInst),
    Return(ReturnInst),
}

impl View for Inst {
    type V = Op;

    open spec fn view(&self) -> Op {
        match *self {
            Inst::Add(inst) => inst@,
            Inst::Sub(inst) => inst@,
            Inst::Mul(inst) => inst@,
            Inst::Eq(inst) => inst@,
            Inst::Ne(inst) => inst@,
            Inst::Branch(inst) => inst@,
            Inst::BranchEqz(inst) => inst@,
            Inst::Return(inst) => inst@,
        }
    }
}

impl Inst {
    pub fn add<S0, S1>(result: Register, lhs: S0, rhs: S1) -> (inst: Self)
        where
            S0: Into<Source>,
            S1: Into<Source>,
        ensures
            S0::obeys_into_spec() && S1::obeys_into_spec() ==> inst == Self::Add(
                AddInst { result, lhs: lhs.into_spec(), rhs: rhs.into_spec() },
            ),
    {
        Self::Add(AddInst { result, lhs: lhs.into(), rhs: rhs.into() })
    }

    pub fn sub<S0, S1>(result: Register, lhs: S0, rhs: S1) -> (inst: Self)
        where
            S0: Into<Source>,
            S1: Into<Source>,
        ensures
            S0::obeys_into_spec() && S1::obeys_into_spec() ==> inst == Self::Sub(
                SubInst { result, lhs: lhs.into_spec(), rhs: rhs.into_spec() },
            ),
    {
        Self::Sub(SubInst { result, lhs: lhs.into(), rhs: rhs.into() })
    }

    pub fn mul<S0, S1>(result: Register, lhs: S0, rhs: S1) -> (inst: Self)
        where
            S0: Into<Source>,
            S1: Into<Source>,
        ensures
            S0::obeys_into_spec() && S1::obeys_into_spec() ==> inst == Self::Mul(
                MulInst { result, lhs: lhs.into_spec(), rhs: rhs.into_spec() },
            ),
    {
        Self::Mul(MulInst { result, lhs: lhs.into(), rhs: rhs.into() })
    }

    pub fn branch(target: Target) -> (inst: Self)
        ensures
            inst == Self::Branch(BranchInst { target }),
    {
        Self::Branch(BranchInst { target })
    }

    pub fn branch_eqz<C>(target: Target, condition: C) -> (inst: Self)
        where
            C: Into<Source>,
        ensures
            C::obeys_into_spec() ==> inst == Self::BranchEqz(BranchEqzInst { target, condition: condition.into_spec() }),
    {
        Self::BranchEqz(BranchEqzInst { target, condition: condition.into() })
    }

    pub fn ret<R>(result: R) -> (inst: Self)
        where
            R: Into<Source>,
        ensures
            R::obeys_into_spec() ==> inst == Self::Return(ReturnInst { result: result.into_spec() }),
    {
        Self::Return(ReturnInst { result: result.into() })
    }
}

impl Execute for Inst {
    fn execute(&self, context: &mut Context) -> (outcome: Outcome) {
        match self {
            Inst::Add(inst) => inst.execute(context),
            Inst::Sub(inst) => inst.execute(context),
            Inst::Mul(inst) => inst.execute(context),
            Inst::Eq(inst) => inst.execute(context),
            Inst::Ne(inst) => inst.execute(context),
            Inst::Branch(inst) => inst.execute(context),
            Inst::BranchEqz(inst) => inst.execute(context),
            Inst::Return(inst) => inst.execute(context),
        }
    }
}

#[derive(Copy, Clone)]
pub struct EqInst {
    pub result: Register,
    pub lhs: Source,
    pub rhs: Source,
}

impl View for EqInst {
    type V = Op;

    open spec fn view(&self) -> Op {
        Op::Bin { op: BinOp::Eq, result: Loc::Reg(self.result.0 as int), lhs: self.lhs@, rhs: self.rhs@ }
    }
}

impl Execute for EqInst {
    fn execute(&self, context: &mut Context) -> (outcome: Outcome) {
        let lhs = self.lhs.load(context);
        let rhs = self.rhs.load(context);
        context.set_reg(self.result, eq_bits(lhs, rhs));
        context.next_inst()
    }
}

#[derive(Copy, Clone)]
pub struct NeInst {
    pub result: Register,
    pub lhs: Source,
    pub rhs: Source,
}

impl View for NeInst {
    type V = Op;

    open spec fn view(&self) -> Op {
        Op::Bin { op: BinOp::Ne, result: Loc::Reg(self.result.0 as int), lhs: self.lhs@, rhs: self.rhs@ }
    }
}

impl Execute for NeInst {
    fn execute(&self, context: &mut Context) -> (outcome: Outcome) {
        let lhs = self.lhs.load(context);
        let rhs = self.rhs.load(context);
        context.set_reg(self.result, ne_bits(lhs, rhs));
        context.next_inst()
    }
}

#[derive(Copy, Clone)]
pub struct AddInst {
    pub result: Register,
    pub lhs: Source,
    pub rhs: Source,
}

impl View for AddInst {
    type V = Op;

    open spec fn view(&self) -> Op {
        Op::Bin { op: BinOp::Add, result: Loc::Reg(self.result.0 as int), lhs: self.lhs@, rhs: self.rhs@ }
    }
}

impl Execute for AddInst {
    fn execute(&self, context: &mut Context) -> (outcome: Outcome) {
        let lhs = self.lhs.load(context);
        let rhs = self.rhs.load(context);
        context.set_reg(self.result, add_bits(lhs, rhs));
        context.next_inst()
    }
}

#[derive(Copy, Clone)]
pub struct SubInst {
    pub result: Register,
    pub lhs: Source,
    pub rhs: Source,
}

impl View for SubInst {
    type V = Op;

    open spec fn view(&self) -> Op {
        Op::Bin { op: BinOp::Sub, result: Loc::Reg(self.result.0 as int), lhs: self.lhs@, rhs: self.rhs@ }
    }
}

impl Execute for SubInst {
    fn execute(&self, context: &mut Context) -> (outcome: Outcome) {
        let lhs = self.lhs.load(context);
        let rhs = self.rhs.load(context);
        context.set_reg(self.result, sub_bits(lhs, rhs));
        context.next_inst()
    }
}

#[derive(Copy, Clone)]
pub struct MulInst {
    pub result: Register,
    pub lhs: Source,
    pub rhs: Source,
}

impl View for MulInst {
    type V = Op;

    open spec fn view(&self) -> Op {
        Op::Bin { op: BinOp::Mul, result: Loc::Reg(self.result.0 as int), lhs: self.lhs@, rhs: self.rhs@ }
    }
}

impl Execute for MulInst {
    fn execute(&self, context: &mut Context) -> (outcome: Outcome) {
        let lhs = self.lhs.load(context);
        let rhs = self.rhs.load(context);
        context.set_reg(self.result, mul_bits(lhs, rhs));
        context.next_inst()
    }
}

#[derive(Copy, Clone)]
pub struct BranchInst {
    pub target: Target,
}

impl View for BranchInst {
    type V = Op;

    open spec fn view(&self) -> Op {
        Op::Branch { target: self.target as int }
    }
}

impl Execute for BranchInst {
    fn execute(&self, context: &mut Context) -> (outcome: Outcome) {
        context.branch_to(self.target)
    }
}

#[derive(Copy, Clone)]
pub struct BranchEqzInst {
    pub target: Target,
    pub condition: Source,
}

impl View for BranchEqzInst {
    type V = Op;

    open spec fn view(&self) -> Op {
        Op::BranchEqz { target: self.target as int, condition: self.condition@ }
    }
}

impl Execute for BranchEqzInst {
    fn execute(&self, context: &mut Context) -> (outcome: Outcome) {
        let condition = self.condition.load(context);
        if condition == 0 {
            context.branch_to(self.target)
        } else {
            context.next_inst()
        }
    }
}

#[derive(Copy, Clone)]
pub struct ReturnInst {
    pub result: Source,
}

impl View for ReturnInst {
    type V = Op;

    open spec fn view(&self) -> Op {
        Op::Return { result: self.result@ }
    }
}

impl Execute for ReturnInst {
    fn execute(&self, context: &mut Context) -> (outcome: Outcome) {
        let result = self.result.load(context);
        context.set_reg(Register(0), result);
        Outcome::Return
    }
}

impl Validate for Inst {
    fn is_valid(&self, len: usize) -> (ok: bool) {
        match self {
            Inst::Add(inst) => inst.result.is_valid() && inst.lhs.is_valid() && inst.rhs.is_valid(),
            Inst::Sub(inst) => inst.result.is_valid() && inst.lhs.is_valid() && inst.rhs.is_valid(),
            Inst::Mul(inst) => inst.result.is_valid() && inst.lhs.is_valid() && inst.rhs.is_valid(),
            Inst::Eq(inst) => inst.result.is_valid() && inst.lhs.is_valid() && inst.rhs.is_valid(),
            Inst::Ne(inst) => inst.result.is_valid() && inst.lhs.is_valid() && inst.rhs.is_valid(),
            Inst::Branch(inst) => inst.target < len,
            Inst::BranchEqz(inst) => inst.target < len && inst.condition.is_valid(),
            Inst::Return(inst) => inst.result.is_valid(),
        }
    }
}

/// Executes the list of instruction using the given [`Context`], until one
/// of them returns.
pub fn execute(insts: &[Inst], context: &mut Context)
    requires
        old(context)@.wf(),
        well_formed(meaning(insts@)),
        halts(meaning(insts@), old(context)@),
    ensures
        final(context)@ == end_state(meaning(insts@), old(context)@),
        final(context)@.wf(),
{
    let ghost prog = meaning(insts@);
    loop
        invariant
            prog == meaning(insts@),
            context@.wf(),
            well_formed(prog),
            halts(prog, context@),
            end_state(prog, context@) == end_state(prog, old(context)@),
        decreases steps(prog, context@),
    {
        proof {
            lemma_halts_step(prog, context@);
        }
        let pc = context.pc();
        let inst = &insts[pc];
        match inst.execute(context) {
            Outcome::Continue => continue,
            Outcome::Return => return,
        }
    }
}

} // verus!
