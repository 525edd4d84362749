//! The specializer over registers and constants: results go to registers,
//! and each source is a register or a constant.
use vstd::prelude::*;
use vstd::std_specs::convert::FromSpecImpl;

use super::ct::{AddInst, BranchEqzInst, BranchInst, EqInst, Execute, MulInst, NeInst, ReturnInst, SubInst};
use super::rt2;
use super::{Const, Context, Register};
use crate::machine::{end_state, halts, lemma_halts_step, meaning, steps, well_formed, Op, Semantics, State, Validate};
use crate::Outcome;

verus! {

/// The closed set of specialized instructions: one variant for each
/// operation and each combination of operand kinds.
#[derive(Copy, Clone)]
pub enum Inst {
    AddRr(AddInst<Register, Register, Register>),
    AddRc(AddInst<Register, Register, Const>),
    AddCr(AddInst<Register, Const, Register>),
    AddCc(AddInst<Register, Const, Const>),
    SubRr(SubInst<Register, Register, Register>),
    SubRc(SubInst<Register, Register, Const>),
    SubCr(SubInst<Register, Const, Register>),
    SubCc(SubInst<Register, Const, Const>),
    MulRr(MulInst<Register, Register, Register>),
    MulRc(MulInst<Register, Register, Const>),
    MulCr(MulInst<Register, Const, Register>),
    MulCc(MulInst<Register, Const, Const>),
    EqRr(EqInst<Register, Register, Register>),
    EqRc(EqInst<Register, Register, Const>),
    EqCr(EqInst<Register, Const, Register>),
    EqCc(EqInst<Register, Const, Const>),
    NeRr(NeInst<Register, Register, Register>),
    NeRc(NeInst<Register, Register, Const>),
    NeCr(NeInst<Register, Const, Register>),
    NeCc(NeInst<Register, Const, Const>),
    Branch(BranchInst),
    BranchEqzR(BranchEqzInst<Register>),
    BranchEqzC(BranchEqzInst<Const>),
    ReturnR(ReturnInst<Register>),
    ReturnC(ReturnInst<Const>),
}

impl View for Inst {
    type V = Op;

    open spec fn view(&self) -> Op {
        match *self {
            Inst::AddRr(inst) => inst@,
            Inst::AddRc(inst) => inst@,
            Inst::AddCr(inst) => inst@,
            Inst::AddCc(inst) => inst@,
            Inst::SubRr(inst) => inst@,
            Inst::SubRc(inst) => inst@,
            Inst::SubCr(inst) => inst@,
            Inst::SubCc(inst) => inst@,
            Inst::MulRr(inst) => inst@,
            Inst::MulRc(inst) => inst@,
            Inst::MulCr(inst) => inst@,
            Inst::MulCc(inst) => inst@,
            Inst::EqRr(inst) => inst@,
            Inst::EqRc(inst) => inst@,
            Inst::EqCr(inst) => inst@,
            Inst::EqCc(inst) => inst@,
            Inst::NeRr(inst) => inst@,
            Inst::NeRc(inst) => inst@,
            Inst::NeCr(inst) => inst@,
            Inst::NeCc(inst) => inst@,
            Inst::Branch(inst) => inst@,
            Inst::BranchEqzR(inst) => inst@,
            Inst::BranchEqzC(inst) => inst@,
            Inst::ReturnR(inst) => inst@,
            Inst::ReturnC(inst) => inst@,
        }
    }
}

impl From<AddInst<Register, Register, Register>> for Inst {
    fn from(inst: AddInst<Register, Register, Register>) -> (r: Self) {
        Self::AddRr(inst)
    }
}

impl FromSpecImpl<AddInst<Register, Register, Register>> for Inst {
    open spec fn obeys_from_spec() -> bool {
        true
    }

    open spec fn from_spec(inst: AddInst<Register, Register, Register>) -> Self {
        Self::AddRr(inst)
    }
}

impl From<AddInst<Register, Register, Const>> for Inst {
    fn from(inst: AddInst<Register, Register, Const>) -> (r: Self) {
        Self::AddRc(inst)
    }
}

impl FromSpecImpl<AddInst<Register, Register, Const>> for Inst {
    open spec fn obeys_from_spec() -> bool {
        true
    }

    open spec fn from_spec(inst: AddInst<Register, Register, Const>) -> Self {
        Self::AddRc(inst)
    }
}

impl From<AddInst<Register, Const, Register>> for Inst {
    fn from(inst: AddInst<Register, Const, Register>) -> (r: Self) {
        Self::AddCr(inst)
    }
}

impl FromSpecImpl<AddInst<Register, Const, Register>> for Inst {
    open spec fn obeys_from_spec() -> bool {
        true
    }

    open spec fn from_spec(inst: AddInst<Register, Const, Register>) -> Self {
        Self::AddCr(inst)
    }
}

impl From<AddInst<Register, Const, Const>> for Inst {
    fn from(inst: AddInst<Register, Const, Const>) -> (r: Self) {
        Self::AddCc(inst)
    }
}

impl FromSpecImpl<AddInst<Register, Const, Const>> for Inst {
    open spec fn obeys_from_spec() -> bool {
        true
    }

    open spec fn from_spec(inst: AddInst<Register, Const, Const>) -> Self {
        Self::AddCc(inst)
    }
}

impl From<SubInst<Register, Register, Register>> for Inst {
    fn from(inst: SubInst<Register, Register, Register>) -> (r: Self) {
        Self::SubRr(inst)
    }
}

impl FromSpecImpl<SubInst<Register, Register, Register>> for Inst {
    open spec fn obeys_from_spec() -> bool {
        true
    }

    open spec fn from_spec(inst: SubInst<Register, Register, Register>) -> Self {
        Self::SubRr(inst)
    }
}

impl From<SubInst<Register, Register, Const>> for Inst {
    fn from(inst: SubInst<Register, Register, Const>) -> (r: Self) {
        Self::SubRc(inst)
    }
}

impl FromSpecImpl<SubInst<Register, Register, Const>> for Inst {
    open spec fn obeys_from_spec() -> bool {
        true
    }

    open spec fn from_spec(inst: SubInst<Register, Register, Const>) -> Self {
        Self::SubRc(inst)
    }
}

impl From<SubInst<Register, Const, Register>> for Inst {
    fn from(inst: SubInst<Register, Const, Register>) -> (r: Self) {
        Self::SubCr(inst)
    }
}

impl FromSpecImpl<SubInst<Register, Const, Register>> for Inst {
    open spec fn obeys_from_spec() -> bool {
        true
    }

    open spec fn from_spec(inst: SubInst<Register, Const, Register>) -> Self {
        Self::SubCr(inst)
    }
}

impl From<SubInst<Register, Const, Const>> for Inst {
    fn from(inst: SubInst<Register, Const, Const>) -> (r: Self) {
        Self::SubCc(inst)
    }
}

impl FromSpecImpl<SubInst<Register, Const, Const>> for Inst {
    open spec fn obeys_from_spec() -> bool {
        true
    }

    open spec fn from_spec(inst: SubInst<Register, Const, Const>) -> Self {
        Self::SubCc(inst)
    }
}

impl From<MulInst<Register, Register, Register>> for Inst {
    fn from(inst: MulInst<Register, Register, Register>) -> (r: Self) {
        Self::MulRr(inst)
    }
}

impl FromSpecImpl<MulInst<Register, Register, Register>> for Inst {
    open spec fn obeys_from_spec() -> bool {
        true
    }

    open spec fn from_spec(inst: MulInst<Register, Register, Register>) -> Self {
        Self::MulRr(inst)
    }
}

impl From<MulInst<Register, Register, Const>> for Inst {
    fn from(inst: MulInst<Register, Register, Const>) -> (r: Self) {
        Self::MulRc(inst)
    }
}

impl FromSpecImpl<MulInst<Register, Register, Const>> for Inst {
    open spec fn obeys_from_spec() -> bool {
        true
    }

    open spec fn from_spec(inst: MulInst<Register, Register, Const>) -> Self {
        Self::MulRc(inst)
    }
}

impl From<MulInst<Register, Const, Register>> for Inst {
    fn from(inst: MulInst<Register, Const, Register>) -> (r: Self) {
        Self::MulCr(inst)
    }
}

impl FromSpecImpl<MulInst<Register, Const, Register>> for Inst {
    open spec fn obeys_from_spec() -> bool {
        true
    }

    open spec fn from_spec(inst: MulInst<Register, Const, Register>) -> Self {
        Self::MulCr(inst)
    }
}

impl From<MulInst<Register, Const, Const>> for Inst {
    fn from(inst: MulInst<Register, Const, Const>) -> (r: Self) {
        Self::MulCc(inst)
    }
}

impl FromSpecImpl<MulInst<Register, Const, Const>> for Inst {
    open spec fn obeys_from_spec() -> bool {
        true
    }

    open spec fn from_spec(inst: MulInst<Register, Const, Const>) -> Self {
        Self::MulCc(inst)
    }
}

impl From<EqInst<Register, Register, Register>> for Inst {
    fn from(inst: EqInst<Register, Register, Register>) -> (r: Self) {
        Self::EqRr(inst)
    }
}

impl FromSpecImpl<EqInst<Register, Register, Register>> for Inst {
    open spec fn obeys_from_spec() -> bool {
        true
    }

    open spec fn from_spec(inst: EqInst<Register, Register, Register>) -> Self {
        Self::EqRr(inst)
    }
}

impl From<EqInst<Register, Register, Const>> for Inst {
    fn from(inst: EqInst<Register, Register, Const>) -> (r: Self) {
        Self::EqRc(inst)
    }
}

impl FromSpecImpl<EqInst<Register, Register, Const>> for Inst {
    open spec fn obeys_from_spec() -> bool {
        true
    }

    open spec fn from_spec(inst: EqInst<Register, Register, Const>) -> Self {
        Self::EqRc(inst)
    }
}

impl From<EqInst<Register, Const, Register>> for Inst {
    fn from(inst: EqInst<Register, Const, Register>) -> (r: Self) {
        Self::EqCr(inst)
    }
}

impl FromSpecImpl<EqInst<Register, Const, Register>> for Inst {
    open spec fn obeys_from_spec() -> bool {
        true
    }

    open spec fn from_spec(inst: EqInst<Register, Const, Register>) -> Self {
        Self::EqCr(inst)
    }
}

impl From<EqInst<Register, Const, Const>> for Inst {
    fn from(inst: EqInst<Register, Const, Const>) -> (r: Self) {
        Self::EqCc(inst)
    }
}

impl FromSpecImpl<EqInst<Register, Const, Const>> for Inst {
    open spec fn obeys_from_spec() -> bool {
        true
    }

    open spec fn from_spec(inst: EqInst<Register, Const, Const>) -> Self {
        Self::EqCc(inst)
    }
}

impl From<NeInst<Register, Register, Register>> for Inst {
    fn from(inst: NeInst<Register, Register, Register>) -> (r: Self) {
        Self::NeRr(inst)
    }
}

impl FromSpecImpl<NeInst<Register, Register, Register>> for Inst {
    open spec fn obeys_from_spec() -> bool {
        true
    }

    open spec fn from_spec(inst: NeInst<Register, Register, Register>) -> Self {
        Self::NeRr(inst)
    }
}

impl From<NeInst<Register, Register, Const>> for Inst {
    fn from(inst: NeInst<Register, Register, Const>) -> (r: Self) {
        Self::NeRc(inst)
    }
}

impl FromSpecImpl<NeInst<Register, Register, Const>> for Inst {
    open spec fn obeys_from_spec() -> bool {
        true
    }

    open spec fn from_spec(inst: NeInst<Register, Register, Const>) -> Self {
        Self::NeRc(inst)
    }
}

impl From<NeInst<Register, Const, Register>> for Inst {
    fn from(inst: NeInst<Register, Const, Register>) -> (r: Self) {
        Self::NeCr(inst)
    }
}

impl FromSpecImpl<NeInst<Register, Const, Register>> for Inst {
    open spec fn obeys_from_spec() -> bool {
        true
    }

    open spec fn from_spec(inst: NeInst<Register, Const, Register>) -> Self {
        Self::NeCr(inst)
    }
}

impl From<NeInst<Register, Const, Const>> for Inst {
    fn from(inst: NeInst<Register, Const, Const>) -> (r: Self) {
        Self::NeCc(inst)
    }
}

impl FromSpecImpl<NeInst<Register, Const, Const>> for Inst {
    open spec fn obeys_from_spec() -> bool {
        true
    }

    open spec fn from_spec(inst: NeInst<Register, Const, Const>) -> Self {
        Self::NeCc(inst)
    }
}

impl From<BranchInst> for Inst {
    fn from(inst: BranchInst) -> (r: Self) {
        Self::Branch(inst)
    }
}

impl FromSpecImpl<BranchInst> for Inst {
    open spec fn obeys_from_spec() -> bool {
        true
    }

    open spec fn from_spec(inst: BranchInst) -> Self {
        Self::Branch(inst)
    }
}

impl From<BranchEqzInst<Register>> for Inst {
    fn from(inst: BranchEqzInst<Register>) -> (r: Self) {
        Self::BranchEqzR(inst)
    }
}

impl FromSpecImpl<BranchEqzInst<Register>> for Inst {
    open spec fn obeys_from_spec() -> bool {
        true
    }

    open spec fn from_spec(inst: BranchEqzInst<Register>) -> Self {
        Self::BranchEqzR(inst)
    }
}

impl From<BranchEqzInst<Const>> for Inst {
    fn from(inst: BranchEqzInst<Const>) -> (r: Self) {
        Self::BranchEqzC(inst)
    }
}

impl FromSpecImpl<BranchEqzInst<Const>> for Inst {
    open spec fn obeys_from_spec() -> bool {
        true
    }

    open spec fn from_spec(inst: BranchEqzInst<Const>) -> Self {
        Self::BranchEqzC(inst)
    }
}

impl From<ReturnInst<Register>> for Inst {
    fn from(inst: ReturnInst<Register>) -> (r: Self) {
        Self::ReturnR(inst)
    }
}

impl FromSpecImpl<ReturnInst<Register>> for Inst {
    open spec fn obeys_from_spec() -> bool {
        true
    }

    open spec fn from_spec(inst: ReturnInst<Register>) -> Self {
        Self::ReturnR(inst)
    }
}

impl From<ReturnInst<Const>> for Inst {
    fn from(inst: ReturnInst<Const>) -> (r: Self) {
        Self::ReturnC(inst)
    }
}

impl FromSpecImpl<ReturnInst<Const>> for Inst {
    open spec fn obeys_from_spec() -> bool {
        true
    }

    open spec fn from_spec(inst: ReturnInst<Const>) -> Self {
        Self::ReturnC(inst)
    }
}

impl Execute for Inst {
    fn execute(self, context: &mut Context) -> (outcome: Outcome) {
        match self {
            Inst::AddRr(inst) => inst.execute(context),
            Inst::AddRc(inst) => inst.execute(context),
            Inst::AddCr(inst) => inst.execute(context),
            Inst::AddCc(inst) => inst.execute(context),
            Inst::SubRr(inst) => inst.execute(context),
            Inst::SubRc(inst) => inst.execute(context),
            Inst::SubCr(inst) => inst.execute(context),
            Inst::SubCc(inst) => inst.execute(context),
            Inst::MulRr(inst) => inst.execute(context),
            Inst::MulRc(inst) => inst.execute(context),
            Inst::MulCr(inst) => inst.execute(context),
            Inst::MulCc(inst) => inst.execute(context),
            Inst::EqRr(inst) => inst.execute(context),
            Inst::EqRc(inst) => inst.execute(context),
            Inst::EqCr(inst) => inst.execute(context),
            Inst::EqCc(inst) => inst.execute(context),
            Inst::NeRr(inst) => inst.execute(context),
            Inst::NeRc(inst) => inst.execute(context),
            Inst::NeCr(inst) => inst.execute(context),
            Inst::NeCc(inst) => inst.execute(context),
            Inst::Branch(inst) => inst.execute(context),
            Inst::BranchEqzR(inst) => inst.execute(context),
            Inst::BranchEqzC(inst) => inst.execute(context),
            Inst::ReturnR(inst) => inst.execute(context),
            Inst::ReturnC(inst) => inst.execute(context),
        }
    }
}

/// A dynamic instruction that can be turned into the specialized
/// instruction with the same meaning.
pub trait Compile: View<V = Op> + Sized {
    fn compile(self) -> (inst: Inst)
        ensures
            inst@ == self@,
    ;
}

impl Compile for rt2::Inst {
    fn compile(self) -> (inst: Inst) {
        match self {
            rt2::Inst::Add(inst) => inst.compile(),
            rt2::Inst::Sub(inst) => inst.compile(),
            rt2::Inst::Mul(inst) => inst.compile(),
            rt2::Inst::Eq(inst) => inst.compile(),
            rt2::Inst::Ne(inst) => inst.compile(),
            rt2::Inst::Branch(inst) => inst.compile(),
            rt2::Inst::BranchEqz(inst) => inst.compile(),
            rt2::Inst::Return(inst) => inst.compile(),
        }
    }
}

impl Compile for rt2::AddInst {
    fn compile(self) -> (inst: Inst) {
        match (self.lhs, self.rhs) {
            (rt2::Source::Const(src0), rt2::Source::Const(src1)) => {
                Inst::from(AddInst::new(self.result, src0, src1))
            },
            (rt2::Source::Const(src0), rt2::Source::Register(src1)) => {
                Inst::from(AddInst::new(self.result, src0, src1))
            },
            (rt2::Source::Register(src0), rt2::Source::Const(src1)) => {
                Inst::from(AddInst::new(self.result, src0, src1))
            },
            (rt2::Source::Register(src0), rt2::Source::Register(src1)) => {
                Inst::from(AddInst::new(self.result, src0, src1))
            },
        }
    }
}

impl Compile for rt2::SubInst {
    fn compile(self) -> (inst: Inst) {
        match (self.lhs, self.rhs) {
            (rt2::Source::Const(src0), rt2::Source::Const(src1)) => {
                Inst::from(SubInst::new(self.result, src0, src1))
            },
            (rt2::Source::Const(src0), rt2::Source::Register(src1)) => {
                Inst::from(SubInst::new(self.result, src0, src1))
            },
            (rt2::Source::Register(src0), rt2::Source::Const(src1)) => {
                Inst::from(SubInst::new(self.result, src0, src1))
            },
            (rt2::Source::Register(src0), rt2::Source::Register(src1)) => {
                Inst::from(SubInst::new(self.result, src0, src1))
            },
        }
    }
}

impl Compile for rt2::MulInst {
    fn compile(self) -> (inst: Inst) {
        match (self.lhs, self.rhs) {
            (rt2::Source::Const(src0), rt2::Source::Const(src1)) => {
                Inst::from(MulInst::new(self.result, src0, src1))
            },
            (rt2::Source::Const(src0), rt2::Source::Register(src1)) => {
                Inst::from(MulInst::new(self.result, src0, src1))
            },
            (rt2::Source::Register(src0), rt2::Source::Const(src1)) => {
                Inst::from(MulInst::new(self.result, src0, src1))
            },
            (rt2::Source::Register(src0), rt2::Source::Register(src1)) => {
                Inst::from(MulInst::new(self.result, src0, src1))
            },
        }
    }
}

impl Compile for rt2::EqInst {
    fn compile(self) -> (inst: Inst) {
        match (self.lhs, self.rhs) {
            (rt2::Source::Const(src0), rt2::Source::Const(src1)) => {
                Inst::from(EqInst::new(self.result, src0, src1))
            },
            (rt2::Source::Const(src0), rt2::Source::Register(src1)) => {
                Inst::from(EqInst::new(self.result, src0, src1))
            },
            (rt2::Source::Register(src0), rt2::Source::Const(src1)) => {
                Inst::from(EqInst::new(self.result, src0, src1))
            },
            (rt2::Source::Register(src0), rt2::Source::Register(src1)) => {
                Inst::from(EqInst::new(self.result, src0, src1))
            },
        }
    }
}

impl Compile for rt2::NeInst {
    fn compile(self) -> (inst: Inst) {
        match (self.lhs, self.rhs) {
            (rt2::Source::Const(src0), rt2::Source::Const(src1)) => {
                Inst::from(NeInst::new(self.result, src0, src1))
            },
            (rt2::Source::Const(src0), rt2::Source::Register(src1)) => {
                Inst::from(NeInst::new(self.result, src0, src1))
            },
            (rt2::Source::Register(src0), rt2::Source::Const(src1)) => {
                Inst::from(NeInst::new(self.result, src0, src1))
            },
            (rt2::Source::Register(src0), rt2::Source::Register(src1)) => {
                Inst::from(NeInst::new(self.result, src0, src1))
            },
        }
    }
}

impl Compile for rt2::BranchInst {
    fn compile(self) -> (inst: Inst) {
        Inst::from(BranchInst::new(self.target))
    }
}

impl Compile for rt2::BranchEqzInst {
    fn compile(self) -> (inst: Inst) {
        match self.condition {
            rt2::Source::Const(condition) => Inst::from(BranchEqzInst::new(self.target, condition)),
            rt2::Source::Register(condition) => Inst::from(BranchEqzInst::new(self.target, condition)),
        }
    }
}

impl Compile for rt2::ReturnInst {
    fn compile(self) -> (inst: Inst) {
        match self.result {
            rt2::Source::Const(result) => Inst::from(ReturnInst::new(result)),
            rt2::Source::Register(result) => Inst::from(ReturnInst::new(result)),
        }
    }
}

/// Specializes a whole program, instruction by instruction: the result has
/// the same length, and each instruction keeps its meaning and its place.
pub fn compile_all(insts: &[rt2::Inst]) -> (compiled: Vec<Inst>)
    ensures
        compiled@.len() == insts@.len(),
        forall|i: int| 0 <= i < insts@.len() ==> (#[trigger] compiled@[i])@ == insts@[i]@,
        meaning(compiled@) == meaning(insts@),
{
    let mut compiled: Vec<Inst> = Vec::new();
    let mut i: usize = 0;
    while i < insts.len()
        invariant
            i <= insts@.len(),
            compiled@.len() == i,
            forall|j: int| 0 <= j < i ==> (#[trigger] compiled@[j])@ == insts@[j]@,
        decreases insts@.len() - i,
    {
        compiled.push(insts[i].compile());
        i += 1;
    }
    proof {
        lemma_specialization_transparent(insts@, compiled@, State::init());
    }
    compiled
}

/// No two specialized instructions alias: two that mean the same are the
/// same variant with the same operands.
pub proof fn lemma_no_alias(a: Inst, b: Inst)
    requires
        a@ == b@,
    ensures
        a == b,
{
}

/// Specialization is transparent: where each specialized instruction means
/// what the dynamic instruction at its place means, the two programs are
/// well formed together, halt together from every state, and end in the
/// same state.
pub proof fn lemma_specialization_transparent(dynamic: Seq<rt2::Inst>, specialized: Seq<Inst>, st: State)
    requires
        specialized.len() == dynamic.len(),
        forall|i: int| 0 <= i < dynamic.len() ==> (#[trigger] specialized[i])@ == dynamic[i]@,
    ensures
        meaning(specialized) == meaning(dynamic),
        well_formed(meaning(specialized)) == well_formed(meaning(dynamic)),
        halts(meaning(specialized), st) == halts(meaning(dynamic), st),
        end_state(meaning(specialized), st) == end_state(meaning(dynamic), st),
{
    assert(meaning(specialized) =~= meaning(dynamic));
}

impl Validate for Inst {
    fn is_valid(&self, len: usize) -> (ok: bool) {
        match self {
            Inst::AddRr(inst) => inst.is_valid(len),
            Inst::AddRc(inst) => inst.is_valid(len),
            Inst::AddCr(inst) => inst.is_valid(len),
            Inst::AddCc(inst) => inst.is_valid(len),
            Inst::SubRr(inst) => inst.is_valid(len),
            Inst::SubRc(inst) => inst.is_valid(len),
            Inst::SubCr(inst) => inst.is_valid(len),
            Inst::SubCc(inst) => inst.is_valid(len),
            Inst::MulRr(inst) => inst.is_valid(len),
            Inst::MulRc(inst) => inst.is_valid(len),
            Inst::MulCr(inst) => inst.is_valid(len),
            Inst::MulCc(inst) => inst.is_valid(len),
            Inst::EqRr(inst) => inst.is_valid(len),
            Inst::EqRc(inst) => inst.is_valid(len),
            Inst::EqCr(inst) => inst.is_valid(len),
            Inst::EqCc(inst) => inst.is_valid(len),
            Inst::NeRr(inst) => inst.is_valid(len),
            Inst::NeRc(inst) => inst.is_valid(len),
            Inst::NeCr(inst) => inst.is_valid(len),
            Inst::NeCc(inst) => inst.is_valid(len),
            Inst::Branch(inst) => inst.is_valid(len),
            Inst::BranchEqzR(inst) => inst.is_valid(len),
            Inst::BranchEqzC(inst) => inst.is_valid(len),
            Inst::ReturnR(inst) => inst.is_valid(len),
            Inst::ReturnC(inst) => inst.is_valid(len),
        }
    }
}

/// Executes the list of instruction using the given [`Context`], until one
/// of them returns.
pub fn execute(insts: &[Inst], context: &mut Context)
    requires
        old(context)@.wf(),
        well_formed(meaning(insts@)),
        halts(meaning(insts@), old(context)@),
    ensures
        final(context)@ == end_state(meaning(insts@), old(context)@),
        final(context)@.wf(),
{
    let ghost prog = meaning(insts@);
    loop
        invariant
            prog == meaning(insts@),
            context@.wf(),
            well_formed(prog),
            halts(prog, context@),
            end_state(prog, context@) == end_state(prog, old(context)@),
        decreases steps(prog, context@),
    {
        proof {
            lemma_halts_step(prog, context@);
        }
        let pc = context.pc();
        let inst = insts[pc];
        match inst.execute(context) {
            Outcome::Continue => continue,
            Outcome::Return => return,
        }
    }
}

} // verus!
