//! The specializer over registers, globals and constants: it turns each
//! dynamic instruction into the one specialized instruction with the same
//! operand kinds, so that no kind is looked at while the program runs.
use vstd::prelude::*;
use vstd::std_specs::convert::FromSpecImpl;

use super::ct::{AddInst, BranchEqzInst, BranchInst, EqInst, Execute, MulInst, NeInst, ReturnInst, SubInst};
use super::rt;
use super::{Const, Context, Global, Register};
use crate::machine::{end_state, halts, lemma_halts_step, meaning, steps, well_formed, Op, Semantics, State, Validate};
use crate::Outcome;

verus! {

/// The closed set of specialized instructions: one variant for each
/// operation and each combination of operand kinds.
#[derive(Copy, Clone)]
pub enum Inst {
    AddRrr(AddInst<Register, Register, Register>),
    AddRrg(AddInst<Register, Register, Global>),
    AddRrc(AddInst<Register, Register, Const>),
    AddRgr(AddInst<Register, Global, Register>),
    AddRgg(AddInst<Register, Global, Global>),
    AddRgc(AddInst<Register, Global, Const>),
    AddRcr(AddInst<Register, Const, Register>),
    AddRcg(AddInst<Register, Const, Global>),
    AddRcc(AddInst<Register, Const, Const>),
    AddGrr(AddInst<Global, Register, Register>),
    AddGrg(AddInst<Global, Register, Global>),
    AddGrc(AddInst<Global, Register, Const>),
    AddGgr(AddInst<Global, Global, Register>),
    AddGgg(AddInst<Global, Global, Global>),
    AddGgc(AddInst<Global, Global, Const>),
    AddGcr(AddInst<Global, Const, Register>),
    AddGcg(AddInst<Global, Const, Global>),
    AddGcc(AddInst<Global, Const, Const>),
    SubRrr(SubInst<Register, Register, Register>),
    SubRrg(SubInst<Register, Register, Global>),
    SubRrc(SubInst<Register, Register, Const>),
    SubRgr(SubInst<Register, Global, Register>),
    SubRgg(SubInst<Register, Global, Global>),
    SubRgc(SubInst<Register, Global, Const>),
    SubRcr(SubInst<Register, Const, Register>),
    SubRcg(SubInst<Register, Const, Global>),
    SubRcc(SubInst<Register, Const, Const>),
    SubGrr(SubInst<Global, Register, Register>),
    SubGrg(SubInst<Global, Register, Global>),
    SubGrc(SubInst<Global, Register, Const>),
    SubGgr(SubInst<Global, Global, Register>),
    SubGgg(SubInst<Global, Global, Global>),
    SubGgc(SubInst<Global, Global, Const>),
    SubGcr(SubInst<Global, Const, Register>),
    SubGcg(SubInst<Global, Const, Global>),
    SubGcc(SubInst<Global, Const, Const>),
    MulRrr(MulInst<Register, Register, Register>),
    MulRrg(MulInst<Register, Register, Global>),
    MulRrc(MulInst<Register, Register, Const>),
    MulRgr(MulInst<Register, Global, Register>),
    MulRgg(MulInst<Register, Global, Global>),
    MulRgc(MulInst<Register, Global, Const>),
    MulRcr(MulInst<Register, Const, Register>),
    MulRcg(MulInst<Register, Const, Global>),
    MulRcc(MulInst<Register, Const, Const>),
    MulGrr(MulInst<Global, Register, Register>),
    MulGrg(MulInst<Global, Register, Global>),
    MulGrc(MulInst<Global, Register, Const>),
    MulGgr(MulInst<Global, Global, Register>),
    MulGgg(MulInst<Global, Global, Global>),
    MulGgc(MulInst<Global, Global, Const>),
    MulGcr(MulInst<Global, Const, Register>),
    MulGcg(MulInst<Global, Const, Global>),
    MulGcc(MulInst<Global, Const, Const>),
    EqRrr(EqInst<Register, Register, Register>),
    EqRrg(EqInst<Register, Register, Global>),
    EqRrc(EqInst<Register, Register, Const>),
    EqRgr(EqInst<Register, Global, Register>),
    EqRgg(EqInst<Register, Global, Global>),
    EqRgc(EqInst<Register, Global, Const>),
    EqRcr(EqInst<Register, Const, Register>),
    EqRcg(EqInst<Register, Const, Global>),
    EqRcc(EqInst<Register, Const, Const>),
    EqGrr(EqInst<Global, Register, Register>),
    EqGrg(EqInst<Global, Register, Global>),
    EqGrc(EqInst<Global, Register, Const>),
    EqGgr(EqInst<Global, Global, Register>),
    EqGgg(EqInst<Global, Global, Global>),
    EqGgc(EqInst<Global, Global, Const>),
    EqGcr(EqInst<Global, Const, Register>),
    EqGcg(EqInst<Global, Const, Global>),
    EqGcc(EqInst<Global, Const, Const>),
    NeRrr(NeInst<Register, Register, Register>),
    NeRrg(NeInst<Register, Register, Global>),
    NeRrc(NeInst<Register, Register, Const>),
    NeRgr(NeInst<Register, Global, Register>),
    NeRgg(NeInst<Register, Global, Global>),
    NeRgc(NeInst<Register, Global, Const>),
    NeRcr(NeInst<Register, Const, Register>),
    NeRcg(NeInst<Register, Const, Global>),
    NeRcc(NeInst<Register, Const, Const>),
    NeGrr(NeInst<Global, Register, Register>),
    NeGrg(NeInst<Global, Register, Global>),
    NeGrc(NeInst<Global, Register, Const>),
    NeGgr(NeInst<Global, Global, Register>),
    NeGgg(NeInst<Global, Global, Global>),
    NeGgc(NeInst<Global, Global, Const>),
    NeGcr(NeInst<Global, Const, Register>),
    NeGcg(NeInst<Global, Const, Global>),
    NeGcc(NeInst<Global, Const, Const>),
    Branch(BranchInst),
    BranchEqzR(BranchEqzInst<Register>),
    BranchEqzG(BranchEqzInst<Global>),
    BranchEqzC(BranchEqzInst<Const>),
    ReturnR(ReturnInst<Register>),
    ReturnG(ReturnInst<Global>),
    ReturnC(ReturnInst<Const>),
}

impl View for Inst {
    type V = Op;

    open spec fn view(&self) -> Op {
        match *self {
            Inst::AddRrr(inst) => inst@,
            Inst::AddRrg(inst) => inst@,
            Inst::AddRrc(inst) => inst@,
            Inst::AddRgr(inst) => inst@,
            Inst::AddRgg(inst) => inst@,
            Inst::AddRgc(inst) => inst@,
            Inst::AddRcr(inst) => inst@,
            Inst::AddRcg(inst) => inst@,
            Inst::AddRcc(inst) => inst@,
            Inst::AddGrr(inst) => inst@,
            Inst::AddGrg(inst) => inst@,
            Inst::AddGrc(inst) => inst@,
            Inst::AddGgr(inst) => inst@,
            Inst::AddGgg(inst) => inst@,
            Inst::AddGgc(inst) => inst@,
            Inst::AddGcr(inst) => inst@,
            Inst::AddGcg(inst) => inst@,
            Inst::AddGcc(inst) => inst@,
            Inst::SubRrr(inst) => inst@,
            Inst::SubRrg(inst) => inst@,
            Inst::SubRrc(inst) => inst@,
            Inst::SubRgr(inst) => inst@,
            Inst::SubRgg(inst) => inst@,
            Inst::SubRgc(inst) => inst@,
            Inst::SubRcr(inst) => inst@,
            Inst::SubRcg(inst) => inst@,
            Inst::SubRcc(inst) => inst@,
            Inst::SubGrr(inst) => inst@,
            Inst::SubGrg(inst) => inst@,
            Inst::SubGrc(inst) => inst@,
            Inst::SubGgr(inst) => inst@,
            Inst::SubGgg(inst) => inst@,
            Inst::SubGgc(inst) => inst@,
            Inst::SubGcr(inst) => inst@,
            Inst::SubGcg(inst) => inst@,
            Inst::SubGcc(inst) => inst@,
            Inst::MulRrr(inst) => inst@,
            Inst::MulRrg(inst) => inst@,
            Inst::MulRrc(inst) => inst@,
            Inst::MulRgr(inst) => inst@,
            Inst::MulRgg(inst) => inst@,
            Inst::MulRgc(inst) => inst@,
            Inst::MulRcr(inst) => inst@,
            Inst::MulRcg(inst) => inst@,
            Inst::MulRcc(inst) => inst@,
            Inst::MulGrr(inst) => inst@,
            Inst::MulGrg(inst) => inst@,
            Inst::MulGrc(inst) => inst@,
            Inst::MulGgr(inst) => inst@,
            Inst::MulGgg(inst) => inst@,
            Inst::MulGgc(inst) => inst@,
            Inst::MulGcr(inst) => inst@,
            Inst::MulGcg(inst) => inst@,
            Inst::MulGcc(inst) => inst@,
            Inst::EqRrr(inst) => inst@,
            Inst::EqRrg(inst) => inst@,
            Inst::EqRrc(inst) => inst@,
            Inst::EqRgr(inst) => inst@,
            Inst::EqRgg(inst) => inst@,
            Inst::EqRgc(inst) => inst@,
            Inst::EqRcr(inst) => inst@,
            Inst::EqRcg(inst) => inst@,
            Inst::EqRcc(inst) => inst@,
            Inst::EqGrr(inst) => inst@,
            Inst::EqGrg(inst) => inst@,
            Inst::EqGrc(inst) => inst@,
            Inst::EqGgr(inst) => inst@,
            Inst::EqGgg(inst) => inst@,
            Inst::EqGgc(inst) => inst@,
            Inst::EqGcr(inst) => inst@,
            Inst::EqGcg(inst) => inst@,
            Inst::EqGcc(inst) => inst@,
            Inst::NeRrr(inst) => inst@,
            Inst::NeRrg(inst) => inst@,
            Inst::NeRrc(inst) => inst@,
            Inst::NeRgr(inst) => inst@,
            Inst::NeRgg(inst) => inst@,
            Inst::NeRgc(inst) => inst@,
            Inst::NeRcr(inst) => inst@,
            Inst::NeRcg(inst) => inst@,
            Inst::NeRcc(inst) => inst@,
            Inst::NeGrr(inst) => inst@,
            Inst::NeGrg(inst) => inst@,
            Inst::NeGrc(inst) => inst@,
            Inst::NeGgr(inst) => inst@,
            Inst::NeGgg(inst) => inst@,
            Inst::NeGgc(inst) => inst@,
            Inst::NeGcr(inst) => inst@,
            Inst::NeGcg(inst) => inst@,
            Inst::NeGcc(inst) => inst@,
            Inst::Branch(inst) => inst@,
            Inst::BranchEqzR(inst) => inst@,
            Inst::BranchEqzG(inst) => inst@,
            Inst::BranchEqzC(inst) => inst@,
            Inst::ReturnR(inst) => inst@,
            Inst::ReturnG(inst) => inst@,
            Inst::ReturnC(inst) => inst@,
        }
    }
}

impl From<AddInst<Register, Register, Register>> for Inst {
    fn from(inst: AddInst<Register, Register, Register>) -> (r: Self) {
        Self::AddRrr(inst)
    }
}

impl FromSpecImpl<AddInst<Register, Register, Register>> for Inst {
    open spec fn obeys_from_spec() -> bool {
        true
    }

    open spec fn from_spec(inst: AddInst<Register, Register, Register>) -> Self {
        Self::AddRrr(inst)
    }
}

impl From<AddInst<Register, Register, Global>> for Inst {
    fn from(inst: AddInst<Register, Register, Global>) -> (r: Self) {
        Self::AddRrg(inst)
    }
}

impl FromSpecImpl<AddInst<Register, Register, Global>> for Inst {
    open spec fn obeys_from_spec() -> bool {
        true
    }

    open spec fn from_spec(inst: AddInst<Register, Register, Global>) -> Self {
        Self::AddRrg(inst)
    }
}

impl From<AddInst<Register, Register, Const>> for Inst {
    fn from(inst: AddInst<Register, Register, Const>) -> (r: Self) {
        Self::AddRrc(inst)
    }
}

impl FromSpecImpl<AddInst<Register, Register, Const>> for Inst {
    open spec fn obeys_from_spec() -> bool {
        true
    }

    open spec fn from_spec(inst: AddInst<Register, Register, Const>) -> Self {
        Self::AddRrc(inst)
    }
}

impl From<AddInst<Register, Global, Register>> for Inst {
    fn from(inst: AddInst<Register, Global, Register>) -> (r: Self) {
        Self::AddRgr(inst)
    }
}

impl FromSpecImpl<AddInst<Register, Global, Register>> for Inst {
    open spec fn obeys_from_spec() -> bool {
        true
    }

    open spec fn from_spec(inst: AddInst<Register, Global, Register>) -> Self {
        Self::AddRgr(inst)
    }
}

impl From<AddInst<Register, Global, Global>> for Inst {
    fn from(inst: AddInst<Register, Global, Global>) -> (r: Self) {
        Self::AddRgg(inst)
    }
}

impl FromSpecImpl<AddInst<Register, Global, Global>> for Inst {
    open spec fn obeys_from_spec() -> bool {
        true
    }

    open spec fn from_spec(inst: AddInst<Register, Global, Global>) -> Self {
        Self::AddRgg(inst)
    }
}

impl From<AddInst<Register, Global, Const>> for Inst {
    fn from(inst: AddInst<Register, Global, Const>) -> (r: Self) {
        Self::AddRgc(inst)
    }
}

impl FromSpecImpl<AddInst<Register, Global, Const>> for Inst {
    open spec fn obeys_from_spec() -> bool {
        true
    }

    open spec fn from_spec(inst: AddInst<Register, Global, Const>) -> Self {
        Self::AddRgc(inst)
    }
}

impl From<AddInst<Register, Const, Register>> for Inst {
    fn from(inst: AddInst<Register, Const, Register>) -> (r: Self) {
        Self::AddRcr(inst)
    }
}

impl FromSpecImpl<AddInst<Register, Const, Register>> for Inst {
    open spec fn obeys_from_spec() -> bool {
        true
    }

    open spec fn from_spec(inst: AddInst<Register, Const, Register>) -> Self {
        Self::AddRcr(inst)
    }
}

impl From<AddInst<Register, Const, Global>> for Inst {
    fn from(inst: AddInst<Register, Const, Global>) -> (r: Self) {
        Self::AddRcg(inst)
    }
}

impl FromSpecImpl<AddInst<Register, Const, Global>> for Inst {
    open spec fn obeys_from_spec() -> bool {
        true
    }

    open spec fn from_spec(inst: AddInst<Register, Const, Global>) -> Self {
        Self::AddRcg(inst)
    }
}

impl From<AddInst<Register, Const, Const>> for Inst {
    fn from(inst: AddInst<Register, Const, Const>) -> (r: Self) {
        Self::AddRcc(inst)
    }
}

impl FromSpecImpl<AddInst<Register, Const, Const>> for Inst {
    open spec fn obeys_from_spec() -> bool {
        true
    }

    open spec fn from_spec(inst: AddInst<Register, Const, Const>) -> Self {
        Self::AddRcc(inst)
    }
}

impl From<AddInst<Global, Register, Register>> for Inst {
    fn from(inst: AddInst<Global, Register, Register>) -> (r: Self) {
        Self::AddGrr(inst)
    }
}

impl FromSpecImpl<AddInst<Global, Register, Register>> for Inst {
    open spec fn obeys_from_spec() -> bool {
        true
    }

    open spec fn from_spec(inst: AddInst<Global, Register, Register>) -> Self {
        Self::AddGrr(inst)
    }
}

impl From<AddInst<Global, Register, Global>> for Inst {
    fn from(inst: AddInst<Global, Register, Global>) -> (r: Self) {
        Self::AddGrg(inst)
    }
}

impl FromSpecImpl<AddInst<Global, Register, Global>> for Inst {
    open spec fn obeys_from_spec() -> bool {
        true
    }

    open spec fn from_spec(inst: AddInst<Global, Register, Global>) -> Self {
        Self::AddGrg(inst)
    }
}

impl From<AddInst<Global, Register, Const>> for Inst {
    fn from(inst: AddInst<Global, Register, Const>) -> (r: Self) {
        Self::AddGrc(inst)
    }
}

impl FromSpecImpl<AddInst<Global, Register, Const>> for Inst {
    open spec fn obeys_from_spec() -> bool {
        true
    }

    open spec fn from_spec(inst: AddInst<Global, Register, Const>) -> Self {
        Self::AddGrc(inst)
    }
}

impl From<AddInst<Global, Global, Register>> for Inst {
    fn from(inst: AddInst<Global, Global, Register>) -> (r: Self) {
        Self::AddGgr(inst)
    }
}

impl FromSpecImpl<AddInst<Global, Global, Register>> for Inst {
    open spec fn obeys_from_spec() -> bool {
        true
    }

    open spec fn from_spec(inst: AddInst<Global, Global, Register>) -> Self {
        Self::AddGgr(inst)
    }
}

impl From<AddInst<Global, Global, Global>> for Inst {
    fn from(inst: AddInst<Global, Global, Global>) -> (r: Self) {
        Self::AddGgg(inst)
    }
}

impl FromSpecImpl<AddInst<Global, Global, Global>> for Inst {
    open spec fn obeys_from_spec() -> bool {
        true
    }

    open spec fn from_spec(inst: AddInst<Global, Global, Global>) -> Self {
        Self::AddGgg(inst)
    }
}

impl From<AddInst<Global, Global, Const>> for Inst {
    fn from(inst: AddInst<Global, Global, Const>) -> (r: Self) {
        Self::AddGgc(inst)
    }
}

impl FromSpecImpl<AddInst<Global, Global, Const>> for Inst {
    open spec fn obeys_from_spec() -> bool {
        true
    }

    open spec fn from_spec(inst: AddInst<Global, Global, Const>) -> Self {
        Self::AddGgc(inst)
    }
}

impl From<AddInst<Global, Const, Register>> for Inst {
    fn from(inst: AddInst<Global, Const, Register>) -> (r: Self) {
        Self::AddGcr(inst)
    }
}

impl FromSpecImpl<AddInst<Global, Const, Register>> for Inst {
    open spec fn obeys_from_spec() -> bool {
        true
    }

    open spec fn from_spec(inst: AddInst<Global, Const, Register>) -> Self {
        Self::AddGcr(inst)
    }
}

impl From<AddInst<Global, Const, Global>> for Inst {
    fn from(inst: AddInst<Global, Const, Global>) -> (r: Self) {
        Self::AddGcg(inst)
    }
}

impl FromSpecImpl<AddInst<Global, Const, Global>> for Inst {
    open spec fn obeys_from_spec() -> bool {
        true
    }

    open spec fn from_spec(inst: AddInst<Global, Const, Global>) -> Self {
        Self::AddGcg(inst)
    }
}

impl From<AddInst<Global, Const, Const>> for Inst {
    fn from(inst: AddInst<Global, Const, Const>) -> (r: Self) {
        Self::AddGcc(inst)
    }
}

impl FromSpecImpl<AddInst<Global, Const, Const>> for Inst {
    open spec fn obeys_from_spec() -> bool {
        true
    }

    open spec fn from_spec(inst: AddInst<Global, Const, Const>) -> Self {
        Self::AddGcc(inst)
    }
}

impl From<SubInst<Register, Register, Register>> for Inst {
    fn from(inst: SubInst<Register, Register, Register>) -> (r: Self) {
        Self::SubRrr(inst)
    }
}

impl FromSpecImpl<SubInst<Register, Register, Register>> for Inst {
    open spec fn obeys_from_spec() -> bool {
        true
    }

    open spec fn from_spec(inst: SubInst<Register, Register, Register>) -> Self {
        Self::SubRrr(inst)
    }
}

impl From<SubInst<Register, Register, Global>> for Inst {
    fn from(inst: SubInst<Register, Register, Global>) -> (r: Self) {
        Self::SubRrg(inst)
    }
}

impl FromSpecImpl<SubInst<Register, Register, Global>> for Inst {
    open spec fn obeys_from_spec() -> bool {
        true
    }

    open spec fn from_spec(inst: SubInst<Register, Register, Global>) -> Self {
        Self::SubRrg(inst)
    }
}

impl From<SubInst<Register, Register, Const>> for Inst {
    fn from(inst: SubInst<Register, Register, Const>) -> (r: Self) {
        Self::SubRrc(inst)
    }
}

impl FromSpecImpl<SubInst<Register, Register, Const>> for Inst {
    open spec fn obeys_from_spec() -> bool {
        true
    }

    open spec fn from_spec(inst: SubInst<Register, Register, Const>) -> Self {
        Self::SubRrc(inst)
    }
}

impl From<SubInst<Register, Global, Register>> for Inst {
    fn from(inst: SubInst<Register, Global, Register>) -> (r: Self) {
        Self::SubRgr(inst)
    }
}

impl FromSpecImpl<SubInst<Register, Global, Register>> for Inst {
    open spec fn obeys_from_spec() -> bool {
        true
    }

    open spec fn from_spec(inst: SubInst<Register, Global, Register>) -> Self {
        Self::SubRgr(inst)
    }
}

impl From<SubInst<Register, Global, Global>> for Inst {
    fn from(inst: SubInst<Register, Global, Global>) -> (r: Self) {
        Self::SubRgg(inst)
    }
}

impl FromSpecImpl<SubInst<Register, Global, Global>> for Inst {
    open spec fn obeys_from_spec() -> bool {
        true
    }

    open spec fn from_spec(inst: SubInst<Register, Global, Global>) -> Self {
        Self::SubRgg(inst)
    }
}

impl From<SubInst<Register, Global, Const>> for Inst {
    fn from(inst: SubInst<Register, Global, Const>) -> (r: Self) {
        Self::SubRgc(inst)
    }
}

impl FromSpecImpl<SubInst<Register, Global, Const>> for Inst {
    open spec fn obeys_from_spec() -> bool {
        true
    }

    open spec fn from_spec(inst: SubInst<Register, Global, Const>) -> Self {
        Self::SubRgc(inst)
    }
}

impl From<SubInst<Register, Const, Register>> for Inst {
    fn from(inst: SubInst<Register, Const, Register>) -> (r: Self) {
        Self::SubRcr(inst)
    }
}

impl FromSpecImpl<SubInst<Register, Const, Register>> for Inst {
    open spec fn obeys_from_spec() -> bool {
        true
    }

    open spec fn from_spec(inst: SubInst<Register, Const, Register>) -> Self {
        Self::SubRcr(inst)
    }
}

impl From<SubInst<Register, Const, Global>> for Inst {
    fn from(inst: SubInst<Register, Const, Global>) -> (r: Self) {
        Self::SubRcg(inst)
    }
}

impl FromSpecImpl<SubInst<Register, Const, Global>> for Inst {
    open spec fn obeys_from_spec() -> bool {
        true
    }

    open spec fn from_spec(inst: SubInst<Register, Const, Global>) -> Self {
        Self::SubRcg(inst)
    }
}

impl From<SubInst<Register, Const, Const>> for Inst {
    fn from(inst: SubInst<Register, Const, Const>) -> (r: Self) {
        Self::SubRcc(inst)
    }
}

impl FromSpecImpl<SubInst<Register, Const, Const>> for Inst {
    open spec fn obeys_from_spec() -> bool {
        true
    }

    open spec fn from_spec(inst: SubInst<Register, Const, Const>) -> Self {
        Self::SubRcc(inst)
    }
}

impl From<SubInst<Global, Register, Register>> for Inst {
    fn from(inst: SubInst<Global, Register, Register>) -> (r: Self) {
        Self::SubGrr(inst)
    }
}

impl FromSpecImpl<SubInst<Global, Register, Register>> for Inst {
    open spec fn obeys_from_spec() -> bool {
        true
    }

    open spec fn from_spec(inst: SubInst<Global, Register, Register>) -> Self {
        Self::SubGrr(inst)
    }
}

impl From<SubInst<Global, Register, Global>> for Inst {
    fn from(inst: SubInst<Global, Register, Global>) -> (r: Self) {
        Self::SubGrg(inst)
    }
}

impl FromSpecImpl<SubInst<Global, Register, Global>> for Inst {
    open spec fn obeys_from_spec() -> bool {
        true
    }

    open spec fn from_spec(inst: SubInst<Global, Register, Global>) -> Self {
        Self::SubGrg(inst)
    }
}

impl From<SubInst<Global, Register, Const>> for Inst {
    fn from(inst: SubInst<Global, Register, Const>) -> (r: Self) {
        Self::SubGrc(inst)
    }
}

impl FromSpecImpl<SubInst<Global, Register, Const>> for Inst {
    open spec fn obeys_from_spec() -> bool {
        true
    }

    open spec fn from_spec(inst: SubInst<Global, Register, Const>) -> Self {
        Self::SubGrc(inst)
    }
}

impl From<SubInst<Global, Global, Register>> for Inst {
    fn from(inst: SubInst<Global, Global, Register>) -> (r: Self) {
        Self::SubGgr(inst)
    }
}

impl FromSpecImpl<SubInst<Global, Global, Register>> for Inst {
    open spec fn obeys_from_spec() -> bool {
        true
    }

    open spec fn from_spec(inst: SubInst<Global, Global, Register>) -> Self {
        Self::SubGgr(inst)
    }
}

impl From<SubInst<Global, Global, Global>> for Inst {
    fn from(inst: SubInst<Global, Global, Global>) -> (r: Self) {
        Self::SubGgg(inst)
    }
}

impl FromSpecImpl<SubInst<Global, Global, Global>> for Inst {
    open spec fn obeys_from_spec() -> bool {
        true
    }

    open spec fn from_spec(inst: SubInst<Global, Global, Global>) -> Self {
        Self::SubGgg(inst)
    }
}

impl From<SubInst<Global, Global, Const>> for Inst {
    fn from(inst: SubInst<Global, Global, Const>) -> (r: Self) {
        Self::SubGgc(inst)
    }
}

impl FromSpecImpl<SubInst<Global, Global, Const>> for Inst {
    open spec fn obeys_from_spec() -> bool {
        true
    }

    open spec fn from_spec(inst: SubInst<Global, Global, Const>) -> Self {
        Self::SubGgc(inst)
    }
}

impl From<SubInst<Global, Const, Register>> for Inst {
    fn from(inst: SubInst<Global, Const, Register>) -> (r: Self) {
        Self::SubGcr(inst)
    }
}

impl FromSpecImpl<SubInst<Global, Const, Register>> for Inst {
    open spec fn obeys_from_spec() -> bool {
        true
    }

    open spec fn from_spec(inst: SubInst<Global, Const, Register>) -> Self {
        Self::SubGcr(inst)
    }
}

impl From<SubInst<Global, Const, Global>> for Inst {
    fn from(inst: SubInst<Global, Const, Global>) -> (r: Self) {
        Self::SubGcg(inst)
    }
}

impl FromSpecImpl<SubInst<Global, Const, Global>> for Inst {
    open spec fn obeys_from_spec() -> bool {
        true
    }

    open spec fn from_spec(inst: SubInst<Global, Const, Global>) -> Self {
        Self::SubGcg(inst)
    }
}

impl From<SubInst<Global, Const, Const>> for Inst {
    fn from(inst: SubInst<Global, Const, Const>) -> (r: Self) {
        Self::SubGcc(inst)
    }
}

impl FromSpecImpl<SubInst<Global, Const, Const>> for Inst {
    open spec fn obeys_from_spec() -> bool {
        true
    }

    open spec fn from_spec(inst: SubInst<Global, Const, Const>) -> Self {
        Self::SubGcc(inst)
    }
}

impl From<MulInst<Register, Register, Register>> for Inst {
    fn from(inst: MulInst<Register, Register, Register>) -> (r: Self) {
        Self::MulRrr(inst)
    }
}

impl FromSpecImpl<MulInst<Register, Register, Register>> for Inst {
    open spec fn obeys_from_spec() -> bool {
        true
    }

    open spec fn from_spec(inst: MulInst<Register, Register, Register>) -> Self {
        Self::MulRrr(inst)
    }
}

impl From<MulInst<Register, Register, Global>> for Inst {
    fn from(inst: MulInst<Register, Register, Global>) -> (r: Self) {
        Self::MulRrg(inst)
    }
}

impl FromSpecImpl<MulInst<Register, Register, Global>> for Inst {
    open spec fn obeys_from_spec() -> bool {
        true
    }

    open spec fn from_spec(inst: MulInst<Register, Register, Global>) -> Self {
        Self::MulRrg(inst)
    }
}

impl From<MulInst<Register, Register, Const>> for Inst {
    fn from(inst: MulInst<Register, Register, Const>) -> (r: Self) {
        Self::MulRrc(inst)
    }
}

impl FromSpecImpl<MulInst<Register, Register, Const>> for Inst {
    open spec fn obeys_from_spec() -> bool {
        true
    }

    open spec fn from_spec(inst: MulInst<Register, Register, Const>) -> Self {
        Self::MulRrc(inst)
    }
}

impl From<MulInst<Register, Global, Register>> for Inst {
    fn from(inst: MulInst<Register, Global, Register>) -> (r: Self) {
        Self::MulRgr(inst)
    }
}

impl FromSpecImpl<MulInst<Register, Global, Register>> for Inst {
    open spec fn obeys_from_spec() -> bool {
        true
    }

    open spec fn from_spec(inst: MulInst<Register, Global, Register>) -> Self {
        Self::MulRgr(inst)
    }
}

impl From<MulInst<Register, Global, Global>> for Inst {
    fn from(inst: MulInst<Register, Global, Global>) -> (r: Self) {
        Self::MulRgg(inst)
    }
}

impl FromSpecImpl<MulInst<Register, Global, Global>> for Inst {
    open spec fn obeys_from_spec() -> bool {
        true
    }

    open spec fn from_spec(inst: MulInst<Register, Global, Global>) -> Self {
        Self::MulRgg(inst)
    }
}

impl From<MulInst<Register, Global, Const>> for Inst {
    fn from(inst: MulInst<Register, Global, Const>) -> (r: Self) {
        Self::MulRgc(inst)
    }
}

impl FromSpecImpl<MulInst<Register, Global, Const>> for Inst {
    open spec fn obeys_from_spec() -> bool {
        true
    }

    open spec fn from_spec(inst: MulInst<Register, Global, Const>) -> Self {
        Self::MulRgc(inst)
    }
}

impl From<MulInst<Register, Const, Register>> for Inst {
    fn from(inst: MulInst<Register, Const, Register>) -> (r: Self) {
        Self::MulRcr(inst)
    }
}

impl FromSpecImpl<MulInst<Register, Const, Register>> for Inst {
    open spec fn obeys_from_spec() -> bool {
        true
    }

    open spec fn from_spec(inst: MulInst<Register, Const, Register>) -> Self {
        Self::MulRcr(inst)
    }
}

impl From<MulInst<Register, Const, Global>> for Inst {
    fn from(inst: MulInst<Register, Const, Global>) -> (r: Self) {
        Self::MulRcg(inst)
    }
}

impl FromSpecImpl<MulInst<Register, Const, Global>> for Inst {
    open spec fn obeys_from_spec() -> bool {
        true
    }

    open spec fn from_spec(inst: MulInst<Register, Const, Global>) -> Self {
        Self::MulRcg(inst)
    }
}

impl From<MulInst<Register, Const, Const>> for Inst {
    fn from(inst: MulInst<Register, Const, Const>) -> (r: Self) {
        Self::MulRcc(inst)
    }
}

impl FromSpecImpl<MulInst<Register, Const, Const>> for Inst {
    open spec fn obeys_from_spec() -> bool {
        true
    }

    open spec fn from_spec(inst: MulInst<Register, Const, Const>) -> Self {
        Self::MulRcc(inst)
    }
}

impl From<MulInst<Global, Register, Register>> for Inst {
    fn from(inst: MulInst<Global, Register, Register>) -> (r: Self) {
        Self::MulGrr(inst)
    }
}

impl FromSpecImpl<MulInst<Global, Register, Register>> for Inst {
    open spec fn obeys_from_spec() -> bool {
        true
    }

    open spec fn from_spec(inst: MulInst<Global, Register, Register>) -> Self {
        Self::MulGrr(inst)
    }
}

impl From<MulInst<Global, Register, Global>> for Inst {
    fn from(inst: MulInst<Global, Register, Global>) -> (r: Self) {
        Self::MulGrg(inst)
    }
}

impl FromSpecImpl<MulInst<Global, Register, Global>> for Inst {
    open spec fn obeys_from_spec() -> bool {
        true
    }

    open spec fn from_spec(inst: MulInst<Global, Register, Global>) -> Self {
        Self::MulGrg(inst)
    }
}

impl From<MulInst<Global, Register, Const>> for Inst {
    fn from(inst: MulInst<Global, Register, Const>) -> (r: Self) {
        Self::MulGrc(inst)
    }
}

impl FromSpecImpl<MulInst<Global, Register, Const>> for Inst {
    open spec fn obeys_from_spec() -> bool {
        true
    }

    open spec fn from_spec(inst: MulInst<Global, Register, Const>) -> Self {
        Self::MulGrc(inst)
    }
}

impl From<MulInst<Global, Global, Register>> for Inst {
    fn from(inst: MulInst<Global, Global, Register>) -> (r: Self) {
        Self::MulGgr(inst)
    }
}

impl FromSpecImpl<MulInst<Global, Global, Register>> for Inst {
    open spec fn obeys_from_spec() -> bool {
        true
    }

    open spec fn from_spec(inst: MulInst<Global, Global, Register>) -> Self {
        Self::MulGgr(inst)
    }
}

impl From<MulInst<Global, Global, Global>> for Inst {
    fn from(inst: MulInst<Global, Global, Global>) -> (r: Self) {
        Self::MulGgg(inst)
    }
}

impl FromSpecImpl<MulInst<Global, Global, Global>> for Inst {
    open spec fn obeys_from_spec() -> bool {
        true
    }

    open spec fn from_spec(inst: MulInst<Global, Global, Global>) -> Self {
        Self::MulGgg(inst)
    }
}

impl From<MulInst<Global, Global, Const>> for Inst {
    fn from(inst: MulInst<Global, Global, Const>) -> (r: Self) {
        Self::MulGgc(inst)
    }
}

impl FromSpecImpl<MulInst<Global, Global, Const>> for Inst {
    open spec fn obeys_from_spec() -> bool {
        true
    }

    open spec fn from_spec(inst: MulInst<Global, Global, Const>) -> Self {
        Self::MulGgc(inst)
    }
}

impl From<MulInst<Global, Const, Register>> for Inst {
    fn from(inst: MulInst<Global, Const, Register>) -> (r: Self) {
        Self::MulGcr(inst)
    }
}

impl FromSpecImpl<MulInst<Global, Const, Register>> for Inst {
    open spec fn obeys_from_spec() -> bool {
        true
    }

    open spec fn from_spec(inst: MulInst<Global, Const, Register>) -> Self {
        Self::MulGcr(inst)
    }
}

impl From<MulInst<Global, Const, Global>> for Inst {
    fn from(inst: MulInst<Global, Const, Global>) -> (r: Self) {
        Self::MulGcg(inst)
    }
}

impl FromSpecImpl<MulInst<Global, Const, Global>> for Inst {
    open spec fn obeys_from_spec() -> bool {
        true
    }

    open spec fn from_spec(inst: MulInst<Global, Const, Global>) -> Self {
        Self::MulGcg(inst)
    }
}

impl From<MulInst<Global, Const, Const>> for Inst {
    fn from(inst: MulInst<Global, Const, Const>) -> (r: Self) {
        Self::MulGcc(inst)
    }
}

impl FromSpecImpl<MulInst<Global, Const, Const>> for Inst {
    open spec fn obeys_from_spec() -> bool {
        true
    }

    open spec fn from_spec(inst: MulInst<Global, Const, Const>) -> Self {
        Self::MulGcc(inst)
    }
}

impl From<EqInst<Register, Register, Register>> for Inst {
    fn from(inst: EqInst<Register, Register, Register>) -> (r: Self) {
        Self::EqRrr(inst)
    }
}

impl FromSpecImpl<EqInst<Register, Register, Register>> for Inst {
    open spec fn obeys_from_spec() -> bool {
        true
    }

    open spec fn from_spec(inst: EqInst<Register, Register, Register>) -> Self {
        Self::EqRrr(inst)
    }
}

impl From<EqInst<Register, Register, Global>> for Inst {
    fn from(inst: EqInst<Register, Register, Global>) -> (r: Self) {
        Self::EqRrg(inst)
    }
}

impl FromSpecImpl<EqInst<Register, Register, Global>> for Inst {
    open spec fn obeys_from_spec() -> bool {
        true
    }

    open spec fn from_spec(inst: EqInst<Register, Register, Global>) -> Self {
        Self::EqRrg(inst)
    }
}

impl From<EqInst<Register, Register, Const>> for Inst {
    fn from(inst: EqInst<Register, Register, Const>) -> (r: Self) {
        Self::EqRrc(inst)
    }
}

impl FromSpecImpl<EqInst<Register, Register, Const>> for Inst {
    open spec fn obeys_from_spec() -> bool {
        true
    }

    open spec fn from_spec(inst: EqInst<Register, Register, Const>) -> Self {
        Self::EqRrc(inst)
    }
}

impl From<EqInst<Register, Global, Register>> for Inst {
    fn from(inst: EqInst<Register, Global, Register>) -> (r: Self) {
        Self::EqRgr(inst)
    }
}

impl FromSpecImpl<EqInst<Register, Global, Register>> for Inst {
    open spec fn obeys_from_spec() -> bool {
        true
    }

    open spec fn from_spec(inst: EqInst<Register, Global, Register>) -> Self {
        Self::EqRgr(inst)
    }
}

impl From<EqInst<Register, Global, Global>> for Inst {
    fn from(inst: EqInst<Register, Global, Global>) -> (r: Self) {
        Self::EqRgg(inst)
    }
}

impl FromSpecImpl<EqInst<Register, Global, Global>> for Inst {
    open spec fn obeys_from_spec() -> bool {
        true
    }

    open spec fn from_spec(inst: EqInst<Register, Global, Global>) -> Self {
        Self::EqRgg(inst)
    }
}

impl From<EqInst<Register, Global, Const>> for Inst {
    fn from(inst: EqInst<Register, Global, Const>) -> (r: Self) {
        Self::EqRgc(inst)
    }
}

impl FromSpecImpl<EqInst<Register, Global, Const>> for Inst {
    open spec fn obeys_from_spec() -> bool {
        true
    }

    open spec fn from_spec(inst: EqInst<Register, Global, Const>) -> Self {
        Self::EqRgc(inst)
    }
}

impl From<EqInst<Register, Const, Register>> for Inst {
    fn from(inst: EqInst<Register, Const, Register>) -> (r: Self) {
        Self::EqRcr(inst)
    }
}

impl FromSpecImpl<EqInst<Register, Const, Register>> for Inst {
    open spec fn obeys_from_spec() -> bool {
        true
    }

    open spec fn from_spec(inst: EqInst<Register, Const, Register>) -> Self {
        Self::EqRcr(inst)
    }
}

impl From<EqInst<Register, Const, Global>> for Inst {
    fn from(inst: EqInst<Register, Const, Global>) -> (r: Self) {
        Self::EqRcg(inst)
    }
}

impl FromSpecImpl<EqInst<Register, Const, Global>> for Inst {
    open spec fn obeys_from_spec() -> bool {
        true
    }

    open spec fn from_spec(inst: EqInst<Register, Const, Global>) -> Self {
        Self::EqRcg(inst)
    }
}

impl From<EqInst<Register, Const, Const>> for Inst {
    fn from(inst: EqInst<Register, Const, Const>) -> (r: Self) {
        Self::EqRcc(inst)
    }
}

impl FromSpecImpl<EqInst<Register, Const, Const>> for Inst {
    open spec fn obeys_from_spec() -> bool {
        true
    }

    open spec fn from_spec(inst: EqInst<Register, Const, Const>) -> Self {
        Self::EqRcc(inst)
    }
}

impl From<EqInst<Global, Register, Register>> for Inst {
    fn from(inst: EqInst<Global, Register, Register>) -> (r: Self) {
        Self::EqGrr(inst)
    }
}

impl FromSpecImpl<EqInst<Global, Register, Register>> for Inst {
    open spec fn obeys_from_spec() -> bool {
        true
    }

    open spec fn from_spec(inst: EqInst<Global, Register, Register>) -> Self {
        Self::EqGrr(inst)
    }
}

impl From<EqInst<Global, Register, Global>> for Inst {
    fn from(inst: EqInst<Global, Register, Global>) -> (r: Self) {
        Self::EqGrg(inst)
    }
}

impl FromSpecImpl<EqInst<Global, Register, Global>> for Inst {
    open spec fn obeys_from_spec() -> bool {
        true
    }

    open spec fn from_spec(inst: EqInst<Global, Register, Global>) -> Self {
        Self::EqGrg(inst)
    }
}

impl From<EqInst<Global, Register, Const>> for Inst {
    fn from(inst: EqInst<Global, Register, Const>) -> (r: Self) {
        Self::EqGrc(inst)
    }
}

impl FromSpecImpl<EqInst<Global, Register, Const>> for Inst {
    open spec fn obeys_from_spec() -> bool {
        true
    }

    open spec fn from_spec(inst: EqInst<Global, Register, Const>) -> Self {
        Self::EqGrc(inst)
    }
}

impl From<EqInst<Global, Global, Register>> for Inst {
    fn from(inst: EqInst<Global, Global, Register>) -> (r: Self) {
        Self::EqGgr(inst)
    }
}

impl FromSpecImpl<EqInst<Global, Global, Register>> for Inst {
    open spec fn obeys_from_spec() -> bool {
        true
    }

    open spec fn from_spec(inst: EqInst<Global, Global, Register>) -> Self {
        Self::EqGgr(inst)
    }
}

impl From<EqInst<Global, Global, Global>> for Inst {
    fn from(inst: EqInst<Global, Global, Global>) -> (r: Self) {
        Self::EqGgg(inst)
    }
}

impl FromSpecImpl<EqInst<Global, Global, Global>> for Inst {
    open spec fn obeys_from_spec() -> bool {
        true
    }

    open spec fn from_spec(inst: EqInst<Global, Global, Global>) -> Self {
        Self::EqGgg(inst)
    }
}

impl From<EqInst<Global, Global, Const>> for Inst {
    fn from(inst: EqInst<Global, Global, Const>) -> (r: Self) {
        Self::EqGgc(inst)
    }
}

impl FromSpecImpl<EqInst<Global, Global, Const>> for Inst {
    open spec fn obeys_from_spec() -> bool {
        true
    }

    open spec fn from_spec(inst: EqInst<Global, Global, Const>) -> Self {
        Self::EqGgc(inst)
    }
}

impl From<EqInst<Global, Const, Register>> for Inst {
    fn from(inst: EqInst<Global, Const, Register>) -> (r: Self) {
        Self::EqGcr(inst)
    }
}

impl FromSpecImpl<EqInst<Global, Const, Register>> for Inst {
    open spec fn obeys_from_spec() -> bool {
        true
    }

    open spec fn from_spec(inst: EqInst<Global, Const, Register>) -> Self {
        Self::EqGcr(inst)
    }
}

impl From<EqInst<Global, Const, Global>> for Inst {
    fn from(inst: EqInst<Global, Const, Global>) -> (r: Self) {
        Self::EqGcg(inst)
    }
}

impl FromSpecImpl<EqInst<Global, Const, Global>> for Inst {
    open spec fn obeys_from_spec() -> bool {
        true
    }

    open spec fn from_spec(inst: EqInst<Global, Const, Global>) -> Self {
        Self::EqGcg(inst)
    }
}

impl From<EqInst<Global, Const, Const>> for Inst {
    fn from(inst: EqInst<Global, Const, Const>) -> (r: Self) {
        Self::EqGcc(inst)
    }
}

impl FromSpecImpl<EqInst<Global, Const, Const>> for Inst {
    open spec fn obeys_from_spec() -> bool {
        true
    }

    open spec fn from_spec(inst: EqInst<Global, Const, Const>) -> Self {
        Self::EqGcc(inst)
    }
}

impl From<NeInst<Register, Register, Register>> for Inst {
    fn from(inst: NeInst<Register, Register, Register>) -> (r: Self) {
        Self::NeRrr(inst)
    }
}

impl FromSpecImpl<NeInst<Register, Register, Register>> for Inst {
    open spec fn obeys_from_spec() -> bool {
        true
    }

    open spec fn from_spec(inst: NeInst<Register, Register, Register>) -> Self {
        Self::NeRrr(inst)
    }
}

impl From<NeInst<Register, Register, Global>> for Inst {
    fn from(inst: NeInst<Register, Register, Global>) -> (r: Self) {
        Self::NeRrg(inst)
    }
}

impl FromSpecImpl<NeInst<Register, Register, Global>> for Inst {
    open spec fn obeys_from_spec() -> bool {
        true
    }

    open spec fn from_spec(inst: NeInst<Register, Register, Global>) -> Self {
        Self::NeRrg(inst)
    }
}

impl From<NeInst<Register, Register, Const>> for Inst {
    fn from(inst: NeInst<Register, Register, Const>) -> (r: Self) {
        Self::NeRrc(inst)
    }
}

impl FromSpecImpl<NeInst<Register, Register, Const>> for Inst {
    open spec fn obeys_from_spec() -> bool {
        true
    }

    open spec fn from_spec(inst: NeInst<Register, Register, Const>) -> Self {
        Self::NeRrc(inst)
    }
}

impl From<NeInst<Register, Global, Register>> for Inst {
    fn from(inst: NeInst<Register, Global, Register>) -> (r: Self) {
        Self::NeRgr(inst)
    }
}

impl FromSpecImpl<NeInst<Register, Global, Register>> for Inst {
    open spec fn obeys_from_spec() -> bool {
        true
    }

    open spec fn from_spec(inst: NeInst<Register, Global, Register>) -> Self {
        Self::NeRgr(inst)
    }
}

impl From<NeInst<Register, Global, Global>> for Inst {
    fn from(inst: NeInst<Register, Global, Global>) -> (r: Self) {
        Self::NeRgg(inst)
    }
}

impl FromSpecImpl<NeInst<Register, Global, Global>> for Inst {
    open spec fn obeys_from_spec() -> bool {
        true
    }

    open spec fn from_spec(inst: NeInst<Register, Global, Global>) -> Self {
        Self::NeRgg(inst)
    }
}

impl From<NeInst<Register, Global, Const>> for Inst {
    fn from(inst: NeInst<Register, Global, Const>) -> (r: Self) {
        Self::NeRgc(inst)
    }
}

impl FromSpecImpl<NeInst<Register, Global, Const>> for Inst {
    open spec fn obeys_from_spec() -> bool {
        true
    }

    open spec fn from_spec(inst: NeInst<Register, Global, Const>) -> Self {
        Self::NeRgc(inst)
    }
}

impl From<NeInst<Register, Const, Register>> for Inst {
    fn from(inst: NeInst<Register, Const, Register>) -> (r: Self) {
        Self::NeRcr(inst)
    }
}

impl FromSpecImpl<NeInst<Register, Const, Register>> for Inst {
    open spec fn obeys_from_spec() -> bool {
        true
    }

    open spec fn from_spec(inst: NeInst<Register, Const, Register>) -> Self {
        Self::NeRcr(inst)
    }
}

impl From<NeInst<Register, Const, Global>> for Inst {
    fn from(inst: NeInst<Register, Const, Global>) -> (r: Self) {
        Self::NeRcg(inst)
    }
}

impl FromSpecImpl<NeInst<Register, Const, Global>> for Inst {
    open spec fn obeys_from_spec() -> bool {
        true
    }

    open spec fn from_spec(inst: NeInst<Register, Const, Global>) -> Self {
        Self::NeRcg(inst)
    }
}

impl From<NeInst<Register, Const, Const>> for Inst {
    fn from(inst: NeInst<Register, Const, Const>) -> (r: Self) {
        Self::NeRcc(inst)
    }
}

impl FromSpecImpl<NeInst<Register, Const, Const>> for Inst {
    open spec fn obeys_from_spec() -> bool {
        true
    }

    open spec fn from_spec(inst: NeInst<Register, Const, Const>) -> Self {
        Self::NeRcc(inst)
    }
}

impl From<NeInst<Global, Register, Register>> for Inst {
    fn from(inst: NeInst<Global, Register, Register>) -> (r: Self) {
        Self::NeGrr(inst)
    }
}

impl FromSpecImpl<NeInst<Global, Register, Register>> for Inst {
    open spec fn obeys_from_spec() -> bool {
        true
    }

    open spec fn from_spec(inst: NeInst<Global, Register, Register>) -> Self {
        Self::NeGrr(inst)
    }
}

impl From<NeInst<Global, Register, Global>> for Inst {
    fn from(inst: NeInst<Global, Register, Global>) -> (r: Self) {
        Self::NeGrg(inst)
    }
}

impl FromSpecImpl<NeInst<Global, Register, Global>> for Inst {
    open spec fn obeys_from_spec() -> bool {
        true
    }

    open spec fn from_spec(inst: NeInst<Global, Register, Global>) -> Self {
        Self::NeGrg(inst)
    }
}

impl From<NeInst<Global, Register, Const>> for Inst {
    fn from(inst: NeInst<Global, Register, Const>) -> (r: Self) {
        Self::NeGrc(inst)
    }
}

impl FromSpecImpl<NeInst<Global, Register, Const>> for Inst {
    open spec fn obeys_from_spec() -> bool {
        true
    }

    open spec fn from_spec(inst: NeInst<Global, Register, Const>) -> Self {
        Self::NeGrc(inst)
    }
}

impl From<NeInst<Global, Global, Register>> for Inst {
    fn from(inst: NeInst<Global, Global, Register>) -> (r: Self) {
        Self::NeGgr(inst)
    }
}

impl FromSpecImpl<NeInst<Global, Global, Register>> for Inst {
    open spec fn obeys_from_spec() -> bool {
        true
    }

    open spec fn from_spec(inst: NeInst<Global, Global, Register>) -> Self {
        Self::NeGgr(inst)
    }
}

impl From<NeInst<Global, Global, Global>> for Inst {
    fn from(inst: NeInst<Global, Global, Global>) -> (r: Self) {
        Self::NeGgg(inst)
    }
}

impl FromSpecImpl<NeInst<Global, Global, Global>> for Inst {
    open spec fn obeys_from_spec() -> bool {
        true
    }

    open spec fn from_spec(inst: NeInst<Global, Global, Global>) -> Self {
        Self::NeGgg(inst)
    }
}

impl From<NeInst<Global, Global, Const>> for Inst {
    fn from(inst: NeInst<Global, Global, Const>) -> (r: Self) {
        Self::NeGgc(inst)
    }
}

impl FromSpecImpl<NeInst<Global, Global, Const>> for Inst {
    open spec fn obeys_from_spec() -> bool {
        true
    }

    open spec fn from_spec(inst: NeInst<Global, Global, Const>) -> Self {
        Self::NeGgc(inst)
    }
}

impl From<NeInst<Global, Const, Register>> for Inst {
    fn from(inst: NeInst<Global, Const, Register>) -> (r: Self) {
        Self::NeGcr(inst)
    }
}

impl FromSpecImpl<NeInst<Global, Const, Register>> for Inst {
    open spec fn obeys_from_spec() -> bool {
        true
    }

    open spec fn from_spec(inst: NeInst<Global, Const, Register>) -> Self {
        Self::NeGcr(inst)
    }
}

impl From<NeInst<Global, Const, Global>> for Inst {
    fn from(inst: NeInst<Global, Const, Global>) -> (r: Self) {
        Self::NeGcg(inst)
    }
}

impl FromSpecImpl<NeInst<Global, Const, Global>> for Inst {
    open spec fn obeys_from_spec() -> bool {
        true
    }

    open spec fn from_spec(inst: NeInst<Global, Const, Global>) -> Self {
        Self::NeGcg(inst)
    }
}

impl From<NeInst<Global, Const, Const>> for Inst {
    fn from(inst: NeInst<Global, Const, Const>) -> (r: Self) {
        Self::NeGcc(inst)
    }
}

impl FromSpecImpl<NeInst<Global, Const, Const>> for Inst {
    open spec fn obeys_from_spec() -> bool {
        true
    }

    open spec fn from_spec(inst: NeInst<Global, Const, Const>) -> Self {
        Self::NeGcc(inst)
    }
}

impl From<BranchInst> for Inst {
    fn from(inst: BranchInst) -> (r: Self) {
        Self::Branch(inst)
    }
}

impl FromSpecImpl<BranchInst> for Inst {
    open spec fn obeys_from_spec() -> bool {
        true
    }

    open spec fn from_spec(inst: BranchInst) -> Self {
        Self::Branch(inst)
    }
}

impl From<BranchEqzInst<Register>> for Inst {
    fn from(inst: BranchEqzInst<Register>) -> (r: Self) {
        Self::BranchEqzR(inst)
    }
}

impl FromSpecImpl<BranchEqzInst<Register>> for Inst {
    open spec fn obeys_from_spec() -> bool {
        true
    }

    open spec fn from_spec(inst: BranchEqzInst<Register>) -> Self {
        Self::BranchEqzR(inst)
    }
}

impl From<BranchEqzInst<Global>> for Inst {
    fn from(inst: BranchEqzInst<Global>) -> (r: Self) {
        Self::BranchEqzG(inst)
    }
}

impl FromSpecImpl<BranchEqzInst<Global>> for Inst {
    open spec fn obeys_from_spec() -> bool {
        true
    }

    open spec fn from_spec(inst: BranchEqzInst<Global>) -> Self {
        Self::BranchEqzG(inst)
    }
}

impl From<BranchEqzInst<Const>> for Inst {
    fn from(inst: BranchEqzInst<Const>) -> (r: Self) {
        Self::BranchEqzC(inst)
    }
}

impl FromSpecImpl<BranchEqzInst<Const>> for Inst {
    open spec fn obeys_from_spec() -> bool {
        true
    }

    open spec fn from_spec(inst: BranchEqzInst<Const>) -> Self {
        Self::BranchEqzC(inst)
    }
}

impl From<ReturnInst<Register>> for Inst {
    fn from(inst: ReturnInst<Register>) -> (r: Self) {
        Self::ReturnR(inst)
    }
}

impl FromSpecImpl<ReturnInst<Register>> for Inst {
    open spec fn obeys_from_spec() -> bool {
        true
    }

    open spec fn from_spec(inst: ReturnInst<Register>) -> Self {
        Self::ReturnR(inst)
    }
}

impl From<ReturnInst<Global>> for Inst {
    fn from(inst: ReturnInst<Global>) -> (r: Self) {
        Self::ReturnG(inst)
    }
}

impl FromSpecImpl<ReturnInst<Global>> for Inst {
    open spec fn obeys_from_spec() -> bool {
        true
    }

    open spec fn from_spec(inst: ReturnInst<Global>) -> Self {
        Self::ReturnG(inst)
    }
}

impl From<ReturnInst<Const>> for Inst {
    fn from(inst: ReturnInst<Const>) -> (r: Self) {
        Self::ReturnC(inst)
    }
}

impl FromSpecImpl<ReturnInst<Const>> for Inst {
    open spec fn obeys_from_spec() -> bool {
        true
    }

    open spec fn from_spec(inst: ReturnInst<Const>) -> Self {
        Self::ReturnC(inst)
    }
}

impl Execute for Inst {
    fn execute(self, context: &mut Context) -> (outcome: Outcome) {
        match self {
            Inst::AddRrr(inst) => inst.execute(context),
            Inst::AddRrg(inst) => inst.execute(context),
            Inst::AddRrc(inst) => inst.execute(context),
            Inst::AddRgr(inst) => inst.execute(context),
            Inst::AddRgg(inst) => inst.execute(context),
            Inst::AddRgc(inst) => inst.execute(context),
            Inst::AddRcr(inst) => inst.execute(context),
            Inst::AddRcg(inst) => inst.execute(context),
            Inst::AddRcc(inst) => inst.execute(context),
            Inst::AddGrr(inst) => inst.execute(context),
            Inst::AddGrg(inst) => inst.execute(context),
            Inst::AddGrc(inst) => inst.execute(context),
            Inst::AddGgr(inst) => inst.execute(context),
            Inst::AddGgg(inst) => inst.execute(context),
            Inst::AddGgc(inst) => inst.execute(context),
            Inst::AddGcr(inst) => inst.execute(context),
            Inst::AddGcg(inst) => inst.execute(context),
            Inst::AddGcc(inst) => inst.execute(context),
            Inst::SubRrr(inst) => inst.execute(context),
            Inst::SubRrg(inst) => inst.execute(context),
            Inst::SubRrc(inst) => inst.execute(context),
            Inst::SubRgr(inst) => inst.execute(context),
            Inst::SubRgg(inst) => inst.execute(context),
            Inst::SubRgc(inst) => inst.execute(context),
            Inst::SubRcr(inst) => inst.execute(context),
            Inst::SubRcg(inst) => inst.execute(context),
            Inst::SubRcc(inst) => inst.execute(context),
            Inst::SubGrr(inst) => inst.execute(context),
            Inst::SubGrg(inst) => inst.execute(context),
            Inst::SubGrc(inst) => inst.execute(context),
            Inst::SubGgr(inst) => inst.execute(context),
            Inst::SubGgg(inst) => inst.execute(context),
            Inst::SubGgc(inst) => inst.execute(context),
            Inst::SubGcr(inst) => inst.execute(context),
            Inst::SubGcg(inst) => inst.execute(context),
            Inst::SubGcc(inst) => inst.execute(context),
            Inst::MulRrr(inst) => inst.execute(context),
            Inst::MulRrg(inst) => inst.execute(context),
            Inst::MulRrc(inst) => inst.execute(context),
            Inst::MulRgr(inst) => inst.execute(context),
            Inst::MulRgg(inst) => inst.execute(context),
            Inst::MulRgc(inst) => inst.execute(context),
            Inst::MulRcr(inst) => inst.execute(context),
            Inst::MulRcg(inst) => inst.execute(context),
            Inst::MulRcc(inst) => inst.execute(context),
            Inst::MulGrr(inst) => inst.execute(context),
            Inst::MulGrg(inst) => inst.execute(context),
            Inst::MulGrc(inst) => inst.execute(context),
            Inst::MulGgr(inst) => inst.execute(context),
            Inst::MulGgg(inst) => inst.execute(context),
            Inst::MulGgc(inst) => inst.execute(context),
            Inst::MulGcr(inst) => inst.execute(context),
            Inst::MulGcg(inst) => inst.execute(context),
            Inst::MulGcc(inst) => inst.execute(context),
            Inst::EqRrr(inst) => inst.execute(context),
            Inst::EqRrg(inst) => inst.execute(context),
            Inst::EqRrc(inst) => inst.execute(context),
            Inst::EqRgr(inst) => inst.execute(context),
            Inst::EqRgg(inst) => inst.execute(context),
            Inst::EqRgc(inst) => inst.execute(context),
            Inst::EqRcr(inst) => inst.execute(context),
            Inst::EqRcg(inst) => inst.execute(context),
            Inst::EqRcc(inst) => inst.execute(context),
            Inst::EqGrr(inst) => inst.execute(context),
            Inst::EqGrg(inst) => inst.execute(context),
            Inst::EqGrc(inst) => inst.execute(context),
            Inst::EqGgr(inst) => inst.execute(context),
            Inst::EqGgg(inst) => inst.execute(context),
            Inst::EqGgc(inst) => inst.execute(context),
            Inst::EqGcr(inst) => inst.execute(context),
            Inst::EqGcg(inst) => inst.execute(context),
            Inst::EqGcc(inst) => inst.execute(context),
            Inst::NeRrr(inst) => inst.execute(context),
            Inst::NeRrg(inst) => inst.execute(context),
            Inst::NeRrc(inst) => inst.execute(context),
            Inst::NeRgr(inst) => inst.execute(context),
            Inst::NeRgg(inst) => inst.execute(context),
            Inst::NeRgc(inst) => inst.execute(context),
            Inst::NeRcr(inst) => inst.execute(context),
            Inst::NeRcg(inst) => inst.execute(context),
            Inst::NeRcc(inst) => inst.execute(context),
            Inst::NeGrr(inst) => inst.execute(context),
            Inst::NeGrg(inst) => inst.execute(context),
            Inst::NeGrc(inst) => inst.execute(context),
            Inst::NeGgr(inst) => inst.execute(context),
            Inst::NeGgg(inst) => inst.execute(context),
            Inst::NeGgc(inst) => inst.execute(context),
            Inst::NeGcr(inst) => inst.execute(context),
            Inst::NeGcg(inst) => inst.execute(context),
            Inst::NeGcc(inst) => inst.execute(context),
            Inst::Branch(inst) => inst.execute(context),
            Inst::BranchEqzR(inst) => inst.execute(context),
            Inst::BranchEqzG(inst) => inst.execute(context),
            Inst::BranchEqzC(inst) => inst.execute(context),
            Inst::ReturnR(inst) => inst.execute(context),
            Inst::ReturnG(inst) => inst.execute(context),
            Inst::ReturnC(inst) => inst.execute(context),
        }
    }
}

/// A dynamic instruction that can be turned into the specialized
/// instruction with the same meaning.
pub trait Compile: View<V = Op> + Sized {
    fn compile(self) -> (inst: Inst)
        ensures
            inst@ == self@,
    ;
}

impl Compile for rt::Inst {
    fn compile(self) -> (inst: Inst) {
        match self {
            rt::Inst::Add(inst) => inst.compile(),
            rt::Inst::Sub(inst) => inst.compile(),
            rt::Inst::Mul(inst) => inst.compile(),
            rt::Inst::Eq(inst) => inst.compile(),
            rt::Inst::Ne(inst) => inst.compile(),
            rt::Inst::Branch(inst) => inst.compile(),
            rt::Inst::BranchEqz(inst) => inst.compile(),
            rt::Inst::Return(inst) => inst.compile(),
        }
    }
}

impl Compile for rt::AddInst {
    fn compile(self) -> (inst: Inst) {
        match (self.result, self.lhs, self.rhs) {
            (rt::Sink::Register(sink), rt::Source::Const(src0), rt::Source::Const(src1)) => {
                Inst::from(AddInst::new(sink, src0, src1))
            },
            (rt::Sink::Register(sink), rt::Source::Const(src0), rt::Source::Register(src1)) => {
                Inst::from(AddInst::new(sink, src0, src1))
            },
            (rt::Sink::Register(sink), rt::Source::Const(src0), rt::Source::Global(src1)) => {
                Inst::from(AddInst::new(sink, src0, src1))
            },
            (rt::Sink::Register(sink), rt::Source::Register(src0), rt::Source::Const(src1)) => {
                Inst::from(AddInst::new(sink, src0, src1))
            },
            (rt::Sink::Register(sink), rt::Source::Register(src0), rt::Source::Register(src1)) => {
                Inst::from(AddInst::new(sink, src0, src1))
            },
            (rt::Sink::Register(sink), rt::Source::Register(src0), rt::Source::Global(src1)) => {
                Inst::from(AddInst::new(sink, src0, src1))
            },
            (rt::Sink::Register(sink), rt::Source::Global(src0), rt::Source::Const(src1)) => {
                Inst::from(AddInst::new(sink, src0, src1))
            },
            (rt::Sink::Register(sink), rt::Source::Global(src0), rt::Source::Register(src1)) => {
                Inst::from(AddInst::new(sink, src0, src1))
            },
            (rt::Sink::Register(sink), rt::Source::Global(src0), rt::Source::Global(src1)) => {
                Inst::from(AddInst::new(sink, src0, src1))
            },
            (rt::Sink::Global(sink), rt::Source::Const(src0), rt::Source::Const(src1)) => {
                Inst::from(AddInst::new(sink, src0, src1))
            },
            (rt::Sink::Global(sink), rt::Source::Const(src0), rt::Source::Register(src1)) => {
                Inst::from(AddInst::new(sink, src0, src1))
            },
            (rt::Sink::Global(sink), rt::Source::Const(src0), rt::Source::Global(src1)) => {
                Inst::from(AddInst::new(sink, src0, src1))
            },
            (rt::Sink::Global(sink), rt::Source::Register(src0), rt::Source::Const(src1)) => {
                Inst::from(AddInst::new(sink, src0, src1))
            },
            (rt::Sink::Global(sink), rt::Source::Register(src0), rt::Source::Register(src1)) => {
                Inst::from(AddInst::new(sink, src0, src1))
            },
            (rt::Sink::Global(sink), rt::Source::Register(src0), rt::Source::Global(src1)) => {
                Inst::from(AddInst::new(sink, src0, src1))
            },
            (rt::Sink::Global(sink), rt::Source::Global(src0), rt::Source::Const(src1)) => {
                Inst::from(AddInst::new(sink, src0, src1))
            },
            (rt::Sink::Global(sink), rt::Source::Global(src0), rt::Source::Register(src1)) => {
                Inst::from(AddInst::new(sink, src0, src1))
            },
            (rt::Sink::Global(sink), rt::Source::Global(src0), rt::Source::Global(src1)) => {
                Inst::from(AddInst::new(sink, src0, src1))
            },
        }
    }
}

impl Compile for rt::SubInst {
    fn compile(self) -> (inst: Inst) {
        match (self.result, self.lhs, self.rhs) {
            (rt::Sink::Register(sink), rt::Source::Const(src0), rt::Source::Const(src1)) => {
                Inst::from(SubInst::new(sink, src0, src1))
            },
            (rt::Sink::Register(sink), rt::Source::Const(src0), rt::Source::Register(src1)) => {
                Inst::from(SubInst::new(sink, src0, src1))
            },
            (rt::Sink::Register(sink), rt::Source::Const(src0), rt::Source::Global(src1)) => {
                Inst::from(SubInst::new(sink, src0, src1))
            },
            (rt::Sink::Register(sink), rt::Source::Register(src0), rt::Source::Const(src1)) => {
                Inst::from(SubInst::new(sink, src0, src1))
            },
            (rt::Sink::Register(sink), rt::Source::Register(src0), rt::Source::Register(src1)) => {
                Inst::from(SubInst::new(sink, src0, src1))
            },
            (rt::Sink::Register(sink), rt::Source::Register(src0), rt::Source::Global(src1)) => {
                Inst::from(SubInst::new(sink, src0, src1))
            },
            (rt::Sink::Register(sink), rt::Source::Global(src0), rt::Source::Const(src1)) => {
                Inst::from(SubInst::new(sink, src0, src1))
            },
            (rt::Sink::Register(sink), rt::Source::Global(src0), rt::Source::Register(src1)) => {
                Inst::from(SubInst::new(sink, src0, src1))
            },
            (rt::Sink::Register(sink), rt::Source::Global(src0), rt::Source::Global(src1)) => {
                Inst::from(SubInst::new(sink, src0, src1))
            },
            (rt::Sink::Global(sink), rt::Source::Const(src0), rt::Source::Const(src1)) => {
                Inst::from(SubInst::new(sink, src0, src1))
            },
            (rt::Sink::Global(sink), rt::Source::Const(src0), rt::Source::Register(src1)) => {
                Inst::from(SubInst::new(sink, src0, src1))
            },
            (rt::Sink::Global(sink), rt::Source::Const(src0), rt::Source::Global(src1)) => {
                Inst::from(SubInst::new(sink, src0, src1))
            },
            (rt::Sink::Global(sink), rt::Source::Register(src0), rt::Source::Const(src1)) => {
                Inst::from(SubInst::new(sink, src0, src1))
            },
            (rt::Sink::Global(sink), rt::Source::Register(src0), rt::Source::Register(src1)) => {
                Inst::from(SubInst::new(sink, src0, src1))
            },
            (rt::Sink::Global(sink), rt::Source::Register(src0), rt::Source::Global(src1)) => {
                Inst::from(SubInst::new(sink, src0, src1))
            },
            (rt::Sink::Global(sink), rt::Source::Global(src0), rt::Source::Const(src1)) => {
                Inst::from(SubInst::new(sink, src0, src1))
            },
            (rt::Sink::Global(sink), rt::Source::Global(src0), rt::Source::Register(src1)) => {
                Inst::from(SubInst::new(sink, src0, src1))
            },
            (rt::Sink::Global(sink), rt::Source::Global(src0), rt::Source::Global(src1)) => {
                Inst::from(SubInst::new(sink, src0, src1))
            },
        }
    }
}

impl Compile for rt::MulInst {
    fn compile(self) -> (inst: Inst) {
        match (self.result, self.lhs, self.rhs) {
            (rt::Sink::Register(sink), rt::Source::Const(src0), rt::Source::Const(src1)) => {
                Inst::from(MulInst::new(sink, src0, src1))
            },
            (rt::Sink::Register(sink), rt::Source::Const(src0), rt::Source::Register(src1)) => {
                Inst::from(MulInst::new(sink, src0, src1))
            },
            (rt::Sink::Register(sink), rt::Source::Const(src0), rt::Source::Global(src1)) => {
                Inst::from(MulInst::new(sink, src0, src1))
            },
            (rt::Sink::Register(sink), rt::Source::Register(src0), rt::Source::Const(src1)) => {
                Inst::from(MulInst::new(sink, src0, src1))
            },
            (rt::Sink::Register(sink), rt::Source::Register(src0), rt::Source::Register(src1)) => {
                Inst::from(MulInst::new(sink, src0, src1))
            },
            (rt::Sink::Register(sink), rt::Source::Register(src0), rt::Source::Global(src1)) => {
                Inst::from(MulInst::new(sink, src0, src1))
            },
            (rt::Sink::Register(sink), rt::Source::Global(src0), rt::Source::Const(src1)) => {
                Inst::from(MulInst::new(sink, src0, src1))
            },
            (rt::Sink::Register(sink), rt::Source::Global(src0), rt::Source::Register(src1)) => {
                Inst::from(MulInst::new(sink, src0, src1))
            },
            (rt::Sink::Register(sink), rt::Source::Global(src0), rt::Source::Global(src1)) => {
                Inst::from(MulInst::new(sink, src0, src1))
            },
            (rt::Sink::Global(sink), rt::Source::Const(src0), rt::Source::Const(src1)) => {
                Inst::from(MulInst::new(sink, src0, src1))
            },
            (rt::Sink::Global(sink), rt::Source::Const(src0), rt::Source::Register(src1)) => {
                Inst::from(MulInst::new(sink, src0, src1))
            },
            (rt::Sink::Global(sink), rt::Source::Const(src0), rt::Source::Global(src1)) => {
                Inst::from(MulInst::new(sink, src0, src1))
            },
            (rt::Sink::Global(sink), rt::Source::Register(src0), rt::Source::Const(src1)) => {
                Inst::from(MulInst::new(sink, src0, src1))
            },
            (rt::Sink::Global(sink), rt::Source::Register(src0), rt::Source::Register(src1)) => {
                Inst::from(MulInst::new(sink, src0, src1))
            },
            (rt::Sink::Global(sink), rt::Source::Register(src0), rt::Source::Global(src1)) => {
                Inst::from(MulInst::new(sink, src0, src1))
            },
            (rt::Sink::Global(sink), rt::Source::Global(src0), rt::Source::Const(src1)) => {
                Inst::from(MulInst::new(sink, src0, src1))
            },
            (rt::Sink::Global(sink), rt::Source::Global(src0), rt::Source::Register(src1)) => {
                Inst::from(MulInst::new(sink, src0, src1))
            },
            (rt::Sink::Global(sink), rt::Source::Global(src0), rt::Source::Global(src1)) => {
                Inst::from(MulInst::new(sink, src0, src1))
            },
        }
    }
}

impl Compile for rt::EqInst {
    fn compile(self) -> (inst: Inst) {
        match (self.result, self.lhs, self.rhs) {
            (rt::Sink::Register(sink), rt::Source::Const(src0), rt::Source::Const(src1)) => {
                Inst::from(EqInst::new(sink, src0, src1))
            },
            (rt::Sink::Register(sink), rt::Source::Const(src0), rt::Source::Register(src1)) => {
                Inst::from(EqInst::new(sink, src0, src1))
            },
            (rt::Sink::Register(sink), rt::Source::Const(src0), rt::Source::Global(src1)) => {
                Inst::from(EqInst::new(sink, src0, src1))
            },
            (rt::Sink::Register(sink), rt::Source::Register(src0), rt::Source::Const(src1)) => {
                Inst::from(EqInst::new(sink, src0, src1))
            },
            (rt::Sink::Register(sink), rt::Source::Register(src0), rt::Source::Register(src1)) => {
                Inst::from(EqInst::new(sink, src0, src1))
            },
            (rt::Sink::Register(sink), rt::Source::Register(src0), rt::Source::Global(src1)) => {
                Inst::from(EqInst::new(sink, src0, src1))
            },
            (rt::Sink::Register(sink), rt::Source::Global(src0), rt::Source::Const(src1)) => {
                Inst::from(EqInst::new(sink, src0, src1))
            },
            (rt::Sink::Register(sink), rt::Source::Global(src0), rt::Source::Register(src1)) => {
                Inst::from(EqInst::new(sink, src0, src1))
            },
            (rt::Sink::Register(sink), rt::Source::Global(src0), rt::Source::Global(src1)) => {
                Inst::from(EqInst::new(sink, src0, src1))
            },
            (rt::Sink::Global(sink), rt::Source::Const(src0), rt::Source::Const(src1)) => {
                Inst::from(EqInst::new(sink, src0, src1))
            },
            (rt::Sink::Global(sink), rt::Source::Const(src0), rt::Source::Register(src1)) => {
                Inst::from(EqInst::new(sink, src0, src1))
            },
            (rt::Sink::Global(sink), rt::Source::Const(src0), rt::Source::Global(src1)) => {
                Inst::from(EqInst::new(sink, src0, src1))
            },
            (rt::Sink::Global(sink), rt::Source::Register(src0), rt::Source::Const(src1)) => {
                Inst::from(EqInst::new(sink, src0, src1))
            },
            (rt::Sink::Global(sink), rt::Source::Register(src0), rt::Source::Register(src1)) => {
                Inst::from(EqInst::new(sink, src0, src1))
            },
            (rt::Sink::Global(sink), rt::Source::Register(src0), rt::Source::Global(src1)) => {
                Inst::from(EqInst::new(sink, src0, src1))
            },
            (rt::Sink::Global(sink), rt::Source::Global(src0), rt::Source::Const(src1)) => {
                Inst::from(EqInst::new(sink, src0, src1))
            },
            (rt::Sink::Global(sink), rt::Source::Global(src0), rt::Source::Register(src1)) => {
                Inst::from(EqInst::new(sink, src0, src1))
            },
            (rt::Sink::Global(sink), rt::Source::Global(src0), rt::Source::Global(src1)) => {
                Inst::from(EqInst::new(sink, src0, src1))
            },
        }
    }
}

impl Compile for rt::NeInst {
    fn compile(self) -> (inst: Inst) {
        match (self.result, self.lhs, self.rhs) {
            (rt::Sink::Register(sink), rt::Source::Const(src0), rt::Source::Const(src1)) => {
                Inst::from(NeInst::new(sink, src0, src1))
            },
            (rt::Sink::Register(sink), rt::Source::Const(src0), rt::Source::Register(src1)) => {
                Inst::from(NeInst::new(sink, src0, src1))
            },
            (rt::Sink::Register(sink), rt::Source::Const(src0), rt::Source::Global(src1)) => {
                Inst::from(NeInst::new(sink, src0, src1))
            },
            (rt::Sink::Register(sink), rt::Source::Register(src0), rt::Source::Const(src1)) => {
                Inst::from(NeInst::new(sink, src0, src1))
            },
            (rt::Sink::Register(sink), rt::Source::Register(src0), rt::Source::Register(src1)) => {
                Inst::from(NeInst::new(sink, src0, src1))
            },
            (rt::Sink::Register(sink), rt::Source::Register(src0), rt::Source::Global(src1)) => {
                Inst::from(NeInst::new(sink, src0, src1))
            },
            (rt::Sink::Register(sink), rt::Source::Global(src0), rt::Source::Const(src1)) => {
                Inst::from(NeInst::new(sink, src0, src1))
            },
            (rt::Sink::Register(sink), rt::Source::Global(src0), rt::Source::Register(src1)) => {
                Inst::from(NeInst::new(sink, src0, src1))
            },
            (rt::Sink::Register(sink), rt::Source::Global(src0), rt::Source::Global(src1)) => {
                Inst::from(NeInst::new(sink, src0, src1))
            },
            (rt::Sink::Global(sink), rt::Source::Const(src0), rt::Source::Const(src1)) => {
                Inst::from(NeInst::new(sink, src0, src1))
            },
            (rt::Sink::Global(sink), rt::Source::Const(src0), rt::Source::Register(src1)) => {
                Inst::from(NeInst::new(sink, src0, src1))
            },
            (rt::Sink::Global(sink), rt::Source::Const(src0), rt::Source::Global(src1)) => {
                Inst::from(NeInst::new(sink, src0, src1))
            },
            (rt::Sink::Global(sink), rt::Source::Register(src0), rt::Source::Const(src1)) => {
                Inst::from(NeInst::new(sink, src0, src1))
            },
            (rt::Sink::Global(sink), rt::Source::Register(src0), rt::Source::Register(src1)) => {
                Inst::from(NeInst::new(sink, src0, src1))
            },
            (rt::Sink::Global(sink), rt::Source::Register(src0), rt::Source::Global(src1)) => {
                Inst::from(NeInst::new(sink, src0, src1))
            },
            (rt::Sink::Global(sink), rt::Source::Global(src0), rt::Source::Const(src1)) => {
                Inst::from(NeInst::new(sink, src0, src1))
            },
            (rt::Sink::Global(sink), rt::Source::Global(src0), rt::Source::Register(src1)) => {
                Inst::from(NeInst::new(sink, src0, src1))
            },
            (rt::Sink::Global(sink), rt::Source::Global(src0), rt::Source::Global(src1)) => {
                Inst::from(NeInst::new(sink, src0, src1))
            },
        }
    }
}

impl Compile for rt::BranchInst {
    fn compile(self) -> (inst: Inst) {
        Inst::from(BranchInst::new(self.target))
    }
}

impl Compile for rt::BranchEqzInst {
    fn compile(self) -> (inst: Inst) {
        match self.condition {
            rt::Source::Const(condition) => Inst::from(BranchEqzInst::new(self.target, condition)),
            rt::Source::Register(condition) => Inst::from(BranchEqzInst::new(self.target, condition)),
            rt::Source::Global(condition) => Inst::from(BranchEqzInst::new(self.target, condition)),
        }
    }
}

impl Compile for rt::ReturnInst {
    fn compile(self) -> (inst: Inst) {
        match self.result {
            rt::Source::Const(result) => Inst::from(ReturnInst::new(result)),
            rt::Source::Register(result) => Inst::from(ReturnInst::new(result)),
            rt::Source::Global(result) => Inst::from(ReturnInst::new(result)),
        }
    }
}

/// Specializes a whole program, instruction by instruction: the result has
/// the same length, and each instruction keeps its meaning and its place.
pub fn compile_all(insts: &[rt::Inst]) -> (compiled: Vec<Inst>)
    ensures
        compiled@.len() == insts@.len(),
        forall|i: int| 0 <= i < insts@.len() ==> (#[trigger] compiled@[i])@ == insts@[i]@,
        meaning(compiled@) == meaning(insts@),
{
    let mut compiled: Vec<Inst> = Vec::new();
    let mut i: usize = 0;
    while i < insts.len()
        invariant
            i <= insts@.len(),
            compiled@.len() == i,
            forall|j: int| 0 <= j < i ==> (#[trigger] compiled@[j])@ == insts@[j]@,
        decreases insts@.len() - i,
    {
        compiled.push(insts[i].compile());
        i += 1;
    }
    proof {
        lemma_specialization_transparent(insts@, compiled@, State::init());
    }
    compiled
}

/// No two specialized instructions alias: two that mean the same are the
/// same variant with the same operands.
pub proof fn lemma_no_alias(a: Inst, b: Inst)
    requires
        a@ == b@,
    ensures
        a == b,
{
}

/// Specialization is transparent: where each specialized instruction means
/// what the dynamic instruction at its place means, the two programs are
/// well formed together, halt together from every state, and end in the
/// same state.
pub proof fn lemma_specialization_transparent(dynamic: Seq<rt::Inst>, specialized: Seq<Inst>, st: State)
    requires
        specialized.len() == dynamic.len(),
        forall|i: int| 0 <= i < dynamic.len() ==> (#[trigger] specialized[i])@ == dynamic[i]@,
    ensures
        meaning(specialized) == meaning(dynamic),
        well_formed(meaning(specialized)) == well_formed(meaning(dynamic)),
        halts(meaning(specialized), st) == halts(meaning(dynamic), st),
        end_state(meaning(specialized), st) == end_state(meaning(dynamic), st),
{
    assert(meaning(specialized) =~= meaning(dynamic));
}

impl Validate for Inst {
    fn is_valid(&self, len: usize) -> (ok: bool) {
        match self {
            Inst::AddRrr(inst) => inst.is_valid(len),
            Inst::AddRrg(inst) => inst.is_valid(len),
            Inst::AddRrc(inst) => inst.is_valid(len),
            Inst::AddRgr(inst) => inst.is_valid(len),
            Inst::AddRgg(inst) => inst.is_valid(len),
            Inst::AddRgc(inst) => inst.is_valid(len),
            Inst::AddRcr(inst) => inst.is_valid(len),
            Inst::AddRcg(inst) => inst.is_valid(len),
            Inst::AddRcc(inst) => inst.is_valid(len),
            Inst::AddGrr(inst) => inst.is_valid(len),
            Inst::AddGrg(inst) => inst.is_valid(len),
            Inst::AddGrc(inst) => inst.is_valid(len),
            Inst::AddGgr(inst) => inst.is_valid(len),
            Inst::AddGgg(inst) => inst.is_valid(len),
            Inst::AddGgc(inst) => inst.is_valid(len),
            Inst::AddGcr(inst) => inst.is_valid(len),
            Inst::AddGcg(inst) => inst.is_valid(len),
            Inst::AddGcc(inst) => inst.is_valid(len),
            Inst::SubRrr(inst) => inst.is_valid(len),
            Inst::SubRrg(inst) => inst.is_valid(len),
            Inst::SubRrc(inst) => inst.is_valid(len),
            Inst::SubRgr(inst) => inst.is_valid(len),
            Inst::SubRgg(inst) => inst.is_valid(len),
            Inst::SubRgc(inst) => inst.is_valid(len),
            Inst::SubRcr(inst) => inst.is_valid(len),
            Inst::SubRcg(inst) => inst.is_valid(len),
            Inst::SubRcc(inst) => inst.is_valid(len),
            Inst::SubGrr(inst) => inst.is_valid(len),
            Inst::SubGrg(inst) => inst.is_valid(len),
            Inst::SubGrc(inst) => inst.is_valid(len),
            Inst::SubGgr(inst) => inst.is_valid(len),
            Inst::SubGgg(inst) => inst.is_valid(len),
            Inst::SubGgc(inst) => inst.is_valid(len),
            Inst::SubGcr(inst) => inst.is_valid(len),
            Inst::SubGcg(inst) => inst.is_valid(len),
            Inst::SubGcc(inst) => inst.is_valid(len),
            Inst::MulRrr(inst) => inst.is_valid(len),
            Inst::MulRrg(inst) => inst.is_valid(len),
            Inst::MulRrc(inst) => inst.is_valid(len),
            Inst::MulRgr(inst) => inst.is_valid(len),
            Inst::MulRgg(inst) => inst.is_valid(len),
            Inst::MulRgc(inst) => inst.is_valid(len),
            Inst::MulRcr(inst) => inst.is_valid(len),
            Inst::MulRcg(inst) => inst.is_valid(len),
            Inst::MulRcc(inst) => inst.is_valid(len),
            Inst::MulGrr(inst) => inst.is_valid(len),
            Inst::MulGrg(inst) => inst.is_valid(len),
            Inst::MulGrc(inst) => inst.is_valid(len),
            Inst::MulGgr(inst) => inst.is_valid(len),
            Inst::MulGgg(inst) => inst.is_valid(len),
            Inst::MulGgc(inst) => inst.is_valid(len),
            Inst::MulGcr(inst) => inst.is_valid(len),
            Inst::MulGcg(inst) => inst.is_valid(len),
            Inst::MulGcc(inst) => inst.is_valid(len),
            Inst::EqRrr(inst) => inst.is_valid(len),
            Inst::EqRrg(inst) => inst.is_valid(len),
            Inst::EqRrc(inst) => inst.is_valid(len),
            Inst::EqRgr(inst) => inst.is_valid(len),
            Inst::EqRgg(inst) => inst.is_valid(len),
            Inst::EqRgc(inst) => inst.is_valid(len),
            Inst::EqRcr(inst) => inst.is_valid(len),
            Inst::EqRcg(inst) => inst.is_valid(len),
            Inst::EqRcc(inst) => inst.is_valid(len),
            Inst::EqGrr(inst) => inst.is_valid(len),
            Inst::EqGrg(inst) => inst.is_valid(len),
            Inst::EqGrc(inst) => inst.is_valid(len),
            Inst::EqGgr(inst) => inst.is_valid(len),
            Inst::EqGgg(inst) => inst.is_valid(len),
            Inst::EqGgc(inst) => inst.is_valid(len),
            Inst::EqGcr(inst) => inst.is_valid(len),
            Inst::EqGcg(inst) => inst.is_valid(len),
            Inst::EqGcc(inst) => inst.is_valid(len),
            Inst::NeRrr(inst) => inst.is_valid(len),
            Inst::NeRrg(inst) => inst.is_valid(len),
            Inst::NeRrc(inst) => inst.is_valid(len),
            Inst::NeRgr(inst) => inst.is_valid(len),
            Inst::NeRgg(inst) => inst.is_valid(len),
            Inst::NeRgc(inst) => inst.is_valid(len),
            Inst::NeRcr(inst) => inst.is_valid(len),
            Inst::NeRcg(inst) => inst.is_valid(len),
            Inst::NeRcc(inst) => inst.is_valid(len),
            Inst::NeGrr(inst) => inst.is_valid(len),
            Inst::NeGrg(inst) => inst.is_valid(len),
            Inst::NeGrc(inst) => inst.is_valid(len),
            Inst::NeGgr(inst) => inst.is_valid(len),
            Inst::NeGgg(inst) => inst.is_valid(len),
            Inst::NeGgc(inst) => inst.is_valid(len),
            Inst::NeGcr(inst) => inst.is_valid(len),
            Inst::NeGcg(inst) => inst.is_valid(len),
            Inst::NeGcc(inst) => inst.is_valid(len),
            Inst::Branch(inst) => inst.is_valid(len),
            Inst::BranchEqzR(inst) => inst.is_valid(len),
            Inst::BranchEqzG(inst) => inst.is_valid(len),
            Inst::BranchEqzC(inst) => inst.is_valid(len),
            Inst::ReturnR(inst) => inst.is_valid(len),
            Inst::ReturnG(inst) => inst.is_valid(len),
            Inst::ReturnC(inst) => inst.is_valid(len),
        }
    }
}

/// Executes the list of instruction using the given [`Context`], until one
/// of them returns.
pub fn execute(insts: &[Inst], context: &mut Context)
    requires
        old(context)@.wf(),
        well_formed(meaning(insts@)),
        halts(meaning(insts@), old(context)@),
    ensures
        final(context)@ == end_state(meaning(insts@), old(context)@),
        final(context)@.wf(),
{
    let ghost prog = meaning(insts@);
    loop
        invariant
            prog == meaning(insts@),
            context@.wf(),
            well_formed(prog),
            halts(prog, context@),
            end_state(prog, context@) == end_state(prog, old(context)@),
        decreases steps(prog, context@),
    {
        proof {
            lemma_halts_step(prog, context@);
        }
        let pc = context.pc();
        let inst = insts[pc];
        match inst.execute(context) {
            Outcome::Continue => continue,
            Outcome::Return => return,
        }
    }
}

} // verus!
