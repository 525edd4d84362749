//! Instructions specialized at compile time: every operand's kind is a type
//! parameter, and an instruction without its types is a handler tag beside
//! raw operand words.
use vstd::prelude::*;
use vstd::std_specs::convert::FromSpecImpl;

use super::{Bits, Const, Context, Global, Register};
use crate::machine::{add_bits, eq_bits, mul_bits, ne_bits, end_state, halts, lemma_halts_step, meaning, steps, sub_bits, well_formed, BinOp, Loc, Op, Semantics, Val, Validate, SLOTS};
use crate::{Outcome, Target};

verus! {

/// Something a value can be stored to.
pub trait Store: Sized {
    /// The slot that is written.
    spec fn sink(&self) -> Loc;

    /// Whether the slot exists.
    fn can_store(&self) -> (ok: bool)
        ensures
            ok == self.sink().valid(),
    ;

    fn store(&self, context: &mut Context, value: Bits)
        requires
            old(context)@.wf(),
            self.sink().valid(),
        ensures
            final(context)@ == old(context)@.store(self.sink(), value),
    ;
}

impl Store for Register {
    open spec fn sink(&self) -> Loc {
        Loc::Reg(self.0 as int)
    }

    fn can_store(&self) -> (ok: bool) {
        self.is_valid()
    }

    fn store(&self, context: &mut Context, value: Bits) {
        context.set_reg(*self, value);
    }
}

impl Store for Global {
    open spec fn sink(&self) -> Loc {
        Loc::Glob(self.0 as int)
    }

    fn can_store(&self) -> (ok: bool) {
        self.is_valid()
    }

    fn store(&self, context: &mut Context, value: Bits) {
        context.set_global(*self, value);
    }
}

/// Something a value can be loaded from; its view says from where.
pub trait Load: View<V = Val> + Sized {
    /// Whether there is something to load from.
    fn can_load(&self) -> (ok: bool)
        ensures
            ok == self@.valid(),
    ;

    fn load(&self, context: &Context) -> (bits: Bits)
        requires
            context@.wf(),
            self@.valid(),
        ensures
            bits == context@.load(self@),
    ;
}

impl Load for Register {
    fn can_load(&self) -> (ok: bool) {
        self.is_valid()
    }

    fn load(&self, context: &Context) -> (bits: Bits) {
        context.get_reg(*self)
    }
}

impl Load for Global {
    fn can_load(&self) -> (ok: bool) {
        self.is_valid()
    }

    fn load(&self, context: &Context) -> (bits: Bits) {
        context.get_global(*self)
    }
}

impl Load for Const {
    fn can_load(&self) -> (ok: bool) {
        true
    }

    fn load(&self, _context: &Context) -> (bits: Bits) {
        self.0
    }
}

/// A sink without its kind.
#[derive(Copy, Clone)]
pub struct RawSink {
    pub index: usize,
}

impl From<Global> for RawSink {
    fn from(global: Global) -> (r: Self) {
        Self { index: global.0 }
    }
}

impl FromSpecImpl<Global> for RawSink {
    open spec fn obeys_from_spec() -> bool {
        true
    }

    open spec fn from_spec(global: Global) -> Self {
        Self { index: global.0 }
    }
}

impl From<Register> for RawSink {
    fn from(register: Register) -> (r: Self) {
        Self { index: register.0 }
    }
}

impl FromSpecImpl<Register> for RawSink {
    open spec fn obeys_from_spec() -> bool {
        true
    }

    open spec fn from_spec(register: Register) -> Self {
        Self { index: register.0 }
    }
}

/// A source without its kind: an index, or the bits of a constant.
#[derive(Copy, Clone)]
pub struct RawSource {
    pub index: u64,
}

impl From<Global> for RawSource {
    fn from(global: Global) -> (r: Self) {
        Self { index: global.0 as u64 }
    }
}

impl FromSpecImpl<Global> for RawSource {
    open spec fn obeys_from_spec() -> bool {
        true
    }

    open spec fn from_spec(global: Global) -> Self {
        Self { index: global.0 as u64 }
    }
}

impl From<Register> for RawSource {
    fn from(register: Register) -> (r: Self) {
        Self { index: register.0 as u64 }
    }
}

impl FromSpecImpl<Register> for RawSource {
    open spec fn obeys_from_spec() -> bool {
        true
    }

    open spec fn from_spec(register: Register) -> Self {
        Self { index: register.0 as u64 }
    }
}

impl From<Const> for RawSource {
    fn from(constant: Const) -> (r: Self) {
        Self { index: constant.0 }
    }
}

impl FromSpecImpl<Const> for RawSource {
    open spec fn obeys_from_spec() -> bool {
        true
    }

    open spec fn from_spec(constant: Const) -> Self {
        Self { index: constant.0 }
    }
}

impl From<RawSink> for Global {
    fn from(sink: RawSink) -> (r: Self) {
        Self(sink.index)
    }
}

impl FromSpecImpl<RawSink> for Global {
    open spec fn obeys_from_spec() -> bool {
        true
    }

    open spec fn from_spec(sink: RawSink) -> Self {
        Self(sink.index)
    }
}

impl From<RawSink> for Register {
    fn from(sink: RawSink) -> (r: Self) {
        Self(sink.index)
    }
}

impl FromSpecImpl<RawSink> for Register {
    open spec fn obeys_from_spec() -> bool {
        true
    }

    open spec fn from_spec(sink: RawSink) -> Self {
        Self(sink.index)
    }
}

impl From<RawSource> for Global {
    fn from(source: RawSource) -> (r: Self) {
        Self(source.index as usize)
    }
}

impl FromSpecImpl<RawSource> for Global {
    open spec fn obeys_from_spec() -> bool {
        true
    }

    open spec fn from_spec(source: RawSource) -> Self {
        Self(source.index as usize)
    }
}

impl From<RawSource> for Register {
    fn from(source: RawSource) -> (r: Self) {
        Self(source.index as usize)
    }
}

impl FromSpecImpl<RawSource> for Register {
    open spec fn obeys_from_spec() -> bool {
        true
    }

    open spec fn from_spec(source: RawSource) -> Self {
        Self(source.index as usize)
    }
}

impl From<RawSource> for Const {
    fn from(source: RawSource) -> (r: Self) {
        Self(source.index)
    }
}

impl FromSpecImpl<RawSource> for Const {
    open spec fn obeys_from_spec() -> bool {
        true
    }

    open spec fn from_spec(source: RawSource) -> Self {
        Self(source.index)
    }
}

/// The kind that a raw sink had.
#[derive(Copy, Clone)]
pub enum SinkKind {
    Register,
    Global,
}

/// The kind that a raw source had.
#[derive(Copy, Clone)]
pub enum SourceKind {
    Const,
    Register,
    Global,
}

impl SinkKind {
    /// Whether the slot that a raw sink of this kind names exists.
    pub fn is_valid(&self, raw: RawSink) -> (ok: bool)
        ensures
            ok == self.decode(raw).valid(),
    {
        raw.index < SLOTS
    }

    /// The slot that a raw sink of this kind names.
    pub open spec fn decode(self, raw: RawSink) -> Loc {
        match self {
            SinkKind::Register => Loc::Reg(raw.index as int),
            SinkKind::Global => Loc::Glob(raw.index as int),
        }
    }
}

impl SourceKind {
    /// Whether the register or global that a raw source of this kind names
    /// exists.
    pub fn is_valid(&self, raw: RawSource) -> (ok: bool)
        ensures
            ok == self.decode(raw).valid(),
    {
        match self {
            SourceKind::Const => true,
            SourceKind::Register => (raw.index as usize) < SLOTS,
            SourceKind::Global => (raw.index as usize) < SLOTS,
        }
    }

    /// The operand that a raw source of this kind names.
    pub open spec fn decode(self, raw: RawSource) -> Val {
        match self {
            SourceKind::Const => Val::Const(raw.index),
            SourceKind::Register => Val::Reg((raw.index as usize) as int),
            SourceKind::Global => Val::Glob((raw.index as usize) as int),
        }
    }
}

#[derive(Copy, Clone)]
pub struct InstData {
    pub sink: RawSink,
    pub src0: RawSource,
    pub src1: RawSource,
}

impl<Sink: Result, Src0: Param, Src1: Param> From<(Sink, Src0, Src1)> for InstData {
    fn from(parts: (Sink, Src0, Src1)) -> (r: Self) {
        Self { sink: parts.0.into_raw(), src0: parts.1.into_raw(), src1: parts.2.into_raw() }
    }
}

impl<Sink: Result, Src0: Param, Src1: Param> FromSpecImpl<(Sink, Src0, Src1)> for InstData {
    open spec fn obeys_from_spec() -> bool {
        true
    }

    open spec fn from_spec(parts: (Sink, Src0, Src1)) -> Self {
        Self { sink: parts.0.raw(), src0: parts.1.raw(), src1: parts.2.raw() }
    }
}

impl InstData {
    /// Reads the raw words back as operands of the kinds asked for.
    pub fn into_raw_parts<Sink: Result, Src0: Param, Src1: Param>(self) -> (parts: (Sink, Src0, Src1))
        ensures
            parts.0.sink() == Sink::kind_of().decode(self.sink),
            parts.1@ == Src0::kind_of().decode(self.src0),
            parts.2@ == Src1::kind_of().decode(self.src1),
    {
        (Sink::from_raw(self.sink), Src0::from_raw(self.src0), Src1::from_raw(self.src1))
    }
}

/// The handler of a type-erased instruction: the operation and the kinds of
/// its operands, which say how to read the raw words.
#[derive(Copy, Clone)]
pub enum Handler {
    Add(SinkKind, SourceKind, SourceKind),
    Sub(SinkKind, SourceKind, SourceKind),
    Mul(SinkKind, SourceKind, SourceKind),
    Eq(SinkKind, SourceKind, SourceKind),
    Ne(SinkKind, SourceKind, SourceKind),
    Branch,
    BranchEqz(SourceKind),
    Return(SourceKind),
}

impl Handler {
    /// The instruction that the raw words mean to this handler.
    pub open spec fn decode(self, data: InstData) -> Op {
        match self {
            Handler::Add(sink, src0, src1) => Op::Bin {
                op: BinOp::Add,
                result: sink.decode(data.sink),
                lhs: src0.decode(data.src0),
                rhs: src1.decode(data.src1),
            },
            Handler::Sub(sink, src0, src1) => Op::Bin {
                op: BinOp::Sub,
                result: sink.decode(data.sink),
                lhs: src0.decode(data.src0),
                rhs: src1.decode(data.src1),
            },
            Handler::Mul(sink, src0, src1) => Op::Bin {
                op: BinOp::Mul,
                result: sink.decode(data.sink),
                lhs: src0.decode(data.src0),
                rhs: src1.decode(data.src1),
            },
            Handler::Eq(sink, src0, src1) => Op::Bin {
                op: BinOp::Eq,
                result: sink.decode(data.sink),
                lhs: src0.decode(data.src0),
                rhs: src1.decode(data.src1),
            },
            Handler::Ne(sink, src0, src1) => Op::Bin {
                op: BinOp::Ne,
                result: sink.decode(data.sink),
                lhs: src0.decode(data.src0),
                rhs: src1.decode(data.src1),
            },
            Handler::Branch => Op::Branch { target: data.sink.index as int },
            Handler::BranchEqz(condition) => Op::BranchEqz {
                target: data.sink.index as int,
                condition: condition.decode(data.src0),
            },
            Handler::Return(result) => Op::Return { result: result.decode(data.src0) },
        }
    }
}

/// An instruction with its types erased.
#[derive(Copy, Clone)]
pub struct Inst {
    handler: Handler,
    data: InstData,
}

impl View for Inst {
    type V = Op;

    closed spec fn view(&self) -> Op {
        self.handler.decode(self.data)
    }
}

/// A sink that can lose its kind and get it back.
pub trait Result: Store {
    spec fn kind_of() -> SinkKind;

    spec fn raw(&self) -> RawSink;

    /// The kind reads the raw form back as the sink itself.
    proof fn lemma_raw(&self)
        ensures
            Self::kind_of().decode(self.raw()) == self.sink(),
    ;

    fn kind() -> (kind: SinkKind)
        ensures
            kind == Self::kind_of(),
    ;

    fn into_raw(self) -> (raw: RawSink)
        ensures
            raw == self.raw(),
            Self::kind_of().decode(raw) == self.sink(),
    ;

    fn from_raw(raw: RawSink) -> (sink: Self)
        ensures
            sink.sink() == Self::kind_of().decode(raw),
    ;
}

/// A source that can lose its kind and get it back.
pub trait Param: Load {
    spec fn kind_of() -> SourceKind;

    spec fn raw(&self) -> RawSource;

    /// The kind reads the raw form back as the source itself.
    proof fn lemma_raw(&self)
        ensures
            Self::kind_of().decode(self.raw()) == self@,
    ;

    fn kind() -> (kind: SourceKind)
        ensures
            kind == Self::kind_of(),
    ;

    fn into_raw(self) -> (raw: RawSource)
        ensures
            raw == self.raw(),
            Self::kind_of().decode(raw) == self@,
    ;

    fn from_raw(raw: RawSource) -> (source: Self)
        ensures
            source@ == Self::kind_of().decode(raw),
    ;
}

impl Result for Register {
    open spec fn kind_of() -> SinkKind {
        SinkKind::Register
    }

    open spec fn raw(&self) -> RawSink {
        RawSink { index: self.0 }
    }

    proof fn lemma_raw(&self) {
    }

    fn kind() -> (kind: SinkKind) {
        SinkKind::Register
    }

    fn into_raw(self) -> (raw: RawSink) {
        RawSink::from(self)
    }

    fn from_raw(raw: RawSink) -> (sink: Self) {
        Self::from(raw)
    }
}

impl Result for Global {
    open spec fn kind_of() -> SinkKind {
        SinkKind::Global
    }

    open spec fn raw(&self) -> RawSink {
        RawSink { index: self.0 }
    }

    proof fn lemma_raw(&self) {
    }

    fn kind() -> (kind: SinkKind) {
        SinkKind::Global
    }

    fn into_raw(self) -> (raw: RawSink) {
        RawSink::from(self)
    }

    fn from_raw(raw: RawSink) -> (sink: Self) {
        Self::from(raw)
    }
}

impl Param for Register {
    open spec fn kind_of() -> SourceKind {
        SourceKind::Register
    }

    open spec fn raw(&self) -> RawSource {
        RawSource { index: self.0 as u64 }
    }

    proof fn lemma_raw(&self) {
    }

    fn kind() -> (kind: SourceKind) {
        SourceKind::Register
    }

    fn into_raw(self) -> (raw: RawSource) {
        RawSource::from(self)
    }

    fn from_raw(raw: RawSource) -> (source: Self) {
        Self::from(raw)
    }
}

impl Param for Global {
    open spec fn kind_of() -> SourceKind {
        SourceKind::Global
    }

    open spec fn raw(&self) -> RawSource {
        RawSource { index: self.0 as u64 }
    }

    proof fn lemma_raw(&self) {
    }

    fn kind() -> (kind: SourceKind) {
        SourceKind::Global
    }

    fn into_raw(self) -> (raw: RawSource) {
        RawSource::from(self)
    }

    fn from_raw(raw: RawSource) -> (source: Self) {
        Self::from(raw)
    }
}

impl Param for Const {
    open spec fn kind_of() -> SourceKind {
        SourceKind::Const
    }

    open spec fn raw(&self) -> RawSource {
        RawSource { index: self.0 }
    }

    proof fn lemma_raw(&self) {
    }

    fn kind() -> (kind: SourceKind) {
        SourceKind::Const
    }

    fn into_raw(self) -> (raw: RawSource) {
        RawSource::from(self)
    }

    fn from_raw(raw: RawSource) -> (source: Self) {
        Self::from(raw)
    }
}

/// Reads the raw words as the instruction type `I` does, and executes that.
fn run<I: FromData + Execute>(data: InstData, context: &mut Context) -> (outcome: Outcome)
    requires
        old(context)@.wf(),
        I::handler_of().decode(data).step(old(context)@).pc <= usize::MAX,
        I::handler_of().decode(data).operands_valid(),
    ensures
        final(context)@ == I::handler_of().decode(data).step(old(context)@),
        final(context)@.wf(),
        (outcome == Outcome::Return) == I::handler_of().decode(data).ends(),
{
    I::from_data(data).execute(context)
}

/// Picks the `AddInst` of the three kinds, and executes the raw words as it.
fn run_add(sink: SinkKind, src0: SourceKind, src1: SourceKind, data: InstData, context: &mut Context) -> (outcome: Outcome)
    requires
        old(context)@.wf(),
        Handler::Add(sink, src0, src1).decode(data).step(old(context)@).pc <= usize::MAX,
        Handler::Add(sink, src0, src1).decode(data).operands_valid(),
    ensures
        final(context)@ == Handler::Add(sink, src0, src1).decode(data).step(old(context)@),
        final(context)@.wf(),
        outcome == Outcome::Continue,
{
    match (sink, src0, src1) {
        (SinkKind::Register, SourceKind::Const, SourceKind::Const) => run::<AddInst<Register, Const, Const>>(data, context),
        (SinkKind::Register, SourceKind::Const, SourceKind::Register) => run::<AddInst<Register, Const, Register>>(data, context),
        (SinkKind::Register, SourceKind::Const, SourceKind::Global) => run::<AddInst<Register, Const, Global>>(data, context),
        (SinkKind::Register, SourceKind::Register, SourceKind::Const) => run::<AddInst<Register, Register, Const>>(data, context),
        (SinkKind::Register, SourceKind::Register, SourceKind::Register) => run::<AddInst<Register, Register, Register>>(data, context),
        (SinkKind::Register, SourceKind::Register, SourceKind::Global) => run::<AddInst<Register, Register, Global>>(data, context),
        (SinkKind::Register, SourceKind::Global, SourceKind::Const) => run::<AddInst<Register, Global, Const>>(data, context),
        (SinkKind::Register, SourceKind::Global, SourceKind::Register) => run::<AddInst<Register, Global, Register>>(data, context),
        (SinkKind::Register, SourceKind::Global, SourceKind::Global) => run::<AddInst<Register, Global, Global>>(data, context),
        (SinkKind::Global, SourceKind::Const, SourceKind::Const) => run::<AddInst<Global, Const, Const>>(data, context),
        (SinkKind::Global, SourceKind::Const, SourceKind::Register) => run::<AddInst<Global, Const, Register>>(data, context),
        (SinkKind::Global, SourceKind::Const, SourceKind::Global) => run::<AddInst<Global, Const, Global>>(data, context),
        (SinkKind::Global, SourceKind::Register, SourceKind::Const) => run::<AddInst<Global, Register, Const>>(data, context),
        (SinkKind::Global, SourceKind::Register, SourceKind::Register) => run::<AddInst<Global, Register, Register>>(data, context),
        (SinkKind::Global, SourceKind::Register, SourceKind::Global) => run::<AddInst<Global, Register, Global>>(data, context),
        (SinkKind::Global, SourceKind::Global, SourceKind::Const) => run::<AddInst<Global, Global, Const>>(data, context),
        (SinkKind::Global, SourceKind::Global, SourceKind::Register) => run::<AddInst<Global, Global, Register>>(data, context),
        (SinkKind::Global, SourceKind::Global, SourceKind::Global) => run::<AddInst<Global, Global, Global>>(data, context),
    }
}

/// Picks the `SubInst` of the three kinds, and executes the raw words as it.
fn run_sub(sink: SinkKind, src0: SourceKind, src1: SourceKind, data: InstData, context: &mut Context) -> (outcome: Outcome)
    requires
        old(context)@.wf(),
        Handler::Sub(sink, src0, src1).decode(data).step(old(context)@).pc <= usize::MAX,
        Handler::Sub(sink, src0, src1).decode(data).operands_valid(),
    ensures
        final(context)@ == Handler::Sub(sink, src0, src1).decode(data).step(old(context)@),
        final(context)@.wf(),
        outcome == Outcome::Continue,
{
    match (sink, src0, src1) {
        (SinkKind::Register, SourceKind::Const, SourceKind::Const) => run::<SubInst<Register, Const, Const>>(data, context),
        (SinkKind::Register, SourceKind::Const, SourceKind::Register) => run::<SubInst<Register, Const, Register>>(data, context),
        (SinkKind::Register, SourceKind::Const, SourceKind::Global) => run::<SubInst<Register, Const, Global>>(data, context),
        (SinkKind::Register, SourceKind::Register, SourceKind::Const) => run::<SubInst<Register, Register, Const>>(data, context),
        (SinkKind::Register, SourceKind::Register, SourceKind::Register) => run::<SubInst<Register, Register, Register>>(data, context),
        (SinkKind::Register, SourceKind::Register, SourceKind::Global) => run::<SubInst<Register, Register, Global>>(data, context),
        (SinkKind::Register, SourceKind::Global, SourceKind::Const) => run::<SubInst<Register, Global, Const>>(data, context),
        (SinkKind::Register, SourceKind::Global, SourceKind::Register) => run::<SubInst<Register, Global, Register>>(data, context),
        (SinkKind::Register, SourceKind::Global, SourceKind::Global) => run::<SubInst<Register, Global, Global>>(data, context),
        (SinkKind::Global, SourceKind::Const, SourceKind::Const) => run::<SubInst<Global, Const, Const>>(data, context),
        (SinkKind::Global, SourceKind::Const, SourceKind::Register) => run::<SubInst<Global, Const, Register>>(data, context),
        (SinkKind::Global, SourceKind::Const, SourceKind::Global) => run::<SubInst<Global, Const, Global>>(data, context),
        (SinkKind::Global, SourceKind::Register, SourceKind::Const) => run::<SubInst<Global, Register, Const>>(data, context),
        (SinkKind::Global, SourceKind::Register, SourceKind::Register) => run::<SubInst<Global, Register, Register>>(data, context),
        (SinkKind::Global, SourceKind::Register, SourceKind::Global) => run::<SubInst<Global, Register, Global>>(data, context),
        (SinkKind::Global, SourceKind::Global, SourceKind::Const) => run::<SubInst<Global, Global, Const>>(data, context),
        (SinkKind::Global, SourceKind::Global, SourceKind::Register) => run::<SubInst<Global, Global, Register>>(data, context),
        (SinkKind::Global, SourceKind::Global, SourceKind::Global) => run::<SubInst<Global, Global, Global>>(data, context),
    }
}

/// Picks the `MulInst` of the three kinds, and executes the raw words as it.
fn run_mul(sink: SinkKind, src0: SourceKind, src1: SourceKind, data: InstData, context: &mut Context) -> (outcome: Outcome)
    requires
        old(context)@.wf(),
        Handler::Mul(sink, src0, src1).decode(data).step(old(context)@).pc <= usize::MAX,
        Handler::Mul(sink, src0, src1).decode(data).operands_valid(),
    ensures
        final(context)@ == Handler::Mul(sink, src0, src1).decode(data).step(old(context)@),
        final(context)@.wf(),
        outcome == Outcome::Continue,
{
    match (sink, src0, src1) {
        (SinkKind::Register, SourceKind::Const, SourceKind::Const) => run::<MulInst<Register, Const, Const>>(data, context),
        (SinkKind::Register, SourceKind::Const, SourceKind::Register) => run::<MulInst<Register, Const, Register>>(data, context),
        (SinkKind::Register, SourceKind::Const, SourceKind::Global) => run::<MulInst<Register, Const, Global>>(data, context),
        (SinkKind::Register, SourceKind::Register, SourceKind::Const) => run::<MulInst<Register, Register, Const>>(data, context),
        (SinkKind::Register, SourceKind::Register, SourceKind::Register) => run::<MulInst<Register, Register, Register>>(data, context),
        (SinkKind::Register, SourceKind::Register, SourceKind::Global) => run::<MulInst<Register, Register, Global>>(data, context),
        (SinkKind::Register, SourceKind::Global, SourceKind::Const) => run::<MulInst<Register, Global, Const>>(data, context),
        (SinkKind::Register, SourceKind::Global, SourceKind::Register) => run::<MulInst<Register, Global, Register>>(data, context),
        (SinkKind::Register, SourceKind::Global, SourceKind::Global) => run::<MulInst<Register, Global, Global>>(data, context),
        (SinkKind::Global, SourceKind::Const, SourceKind::Const) => run::<MulInst<Global, Const, Const>>(data, context),
        (SinkKind::Global, SourceKind::Const, SourceKind::Register) => run::<MulInst<Global, Const, Register>>(data, context),
        (SinkKind::Global, SourceKind::Const, SourceKind::Global) => run::<MulInst<Global, Const, Global>>(data, context),
        (SinkKind::Global, SourceKind::Register, SourceKind::Const) => run::<MulInst<Global, Register, Const>>(data, context),
        (SinkKind::Global, SourceKind::Register, SourceKind::Register) => run::<MulInst<Global, Register, Register>>(data, context),
        (SinkKind::Global, SourceKind::Register, SourceKind::Global) => run::<MulInst<Global, Register, Global>>(data, context),
        (SinkKind::Global, SourceKind::Global, SourceKind::Const) => run::<MulInst<Global, Global, Const>>(data, context),
        (SinkKind::Global, SourceKind::Global, SourceKind::Register) => run::<MulInst<Global, Global, Register>>(data, context),
        (SinkKind::Global, SourceKind::Global, SourceKind::Global) => run::<MulInst<Global, Global, Global>>(data, context),
    }
}

/// Picks the `EqInst` of the three kinds, and executes the raw words as it.
fn run_eq(sink: SinkKind, src0: SourceKind, src1: SourceKind, data: InstData, context: &mut Context) -> (outcome: Outcome)
    requires
        old(context)@.wf(),
        Handler::Eq(sink, src0, src1).decode(data).step(old(context)@).pc <= usize::MAX,
        Handler::Eq(sink, src0, src1).decode(data).operands_valid(),
    ensures
        final(context)@ == Handler::Eq(sink, src0, src1).decode(data).step(old(context)@),
        final(context)@.wf(),
        outcome == Outcome::Continue,
{
    match (sink, src0, src1) {
        (SinkKind::Register, SourceKind::Const, SourceKind::Const) => run::<EqInst<Register, Const, Const>>(data, context),
        (SinkKind::Register, SourceKind::Const, SourceKind::Register) => run::<EqInst<Register, Const, Register>>(data, context),
        (SinkKind::Register, SourceKind::Const, SourceKind::Global) => run::<EqInst<Register, Const, Global>>(data, context),
        (SinkKind::Register, SourceKind::Register, SourceKind::Const) => run::<EqInst<Register, Register, Const>>(data, context),
        (SinkKind::Register, SourceKind::Register, SourceKind::Register) => run::<EqInst<Register, Register, Register>>(data, context),
        (SinkKind::Register, SourceKind::Register, SourceKind::Global) => run::<EqInst<Register, Register, Global>>(data, context),
        (SinkKind::Register, SourceKind::Global, SourceKind::Const) => run::<EqInst<Register, Global, Const>>(data, context),
        (SinkKind::Register, SourceKind::Global, SourceKind::Register) => run::<EqInst<Register, Global, Register>>(data, context),
        (SinkKind::Register, SourceKind::Global, SourceKind::Global) => run::<EqInst<Register, Global, Global>>(data, context),
        (SinkKind::Global, SourceKind::Const, SourceKind::Const) => run::<EqInst<Global, Const, Const>>(data, context),
        (SinkKind::Global, SourceKind::Const, SourceKind::Register) => run::<EqInst<Global, Const, Register>>(data, context),
        (SinkKind::Global, SourceKind::Const, SourceKind::Global) => run::<EqInst<Global, Const, Global>>(data, context),
        (SinkKind::Global, SourceKind::Register, SourceKind::Const) => run::<EqInst<Global, Register, Const>>(data, context),
        (SinkKind::Global, SourceKind::Register, SourceKind::Register) => run::<EqInst<Global, Register, Register>>(data, context),
        (SinkKind::Global, SourceKind::Register, SourceKind::Global) => run::<EqInst<Global, Register, Global>>(data, context),
        (SinkKind::Global, SourceKind::Global, SourceKind::Const) => run::<EqInst<Global, Global, Const>>(data, context),
        (SinkKind::Global, SourceKind::Global, SourceKind::Register) => run::<EqInst<Global, Global, Register>>(data, context),
        (SinkKind::Global, SourceKind::Global, SourceKind::Global) => run::<EqInst<Global, Global, Global>>(data, context),
    }
}

/// Picks the `NeInst` of the three kinds, and executes the raw words as it.
fn run_ne(sink: SinkKind, src0: SourceKind, src1: SourceKind, data: InstData, context: &mut Context) -> (outcome: Outcome)
    requires
        old(context)@.wf(),
        Handler::Ne(sink, src0, src1).decode(data).step(old(context)@).pc <= usize::MAX,
        Handler::Ne(sink, src0, src1).decode(data).operands_valid(),
    ensures
        final(context)@ == Handler::Ne(sink, src0, src1).decode(data).step(old(context)@),
        final(context)@.wf(),
        outcome == Outcome::Continue,
{
    match (sink, src0, src1) {
        (SinkKind::Register, SourceKind::Const, SourceKind::Const) => run::<NeInst<Register, Const, Const>>(data, context),
        (SinkKind::Register, SourceKind::Const, SourceKind::Register) => run::<NeInst<Register, Const, Register>>(data, context),
        (SinkKind::Register, SourceKind::Const, SourceKind::Global) => run::<NeInst<Register, Const, Global>>(data, context),
        (SinkKind::Register, SourceKind::Register, SourceKind::Const) => run::<NeInst<Register, Register, Const>>(data, context),
        (SinkKind::Register, SourceKind::Register, SourceKind::Register) => run::<NeInst<Register, Register, Register>>(data, context),
        (SinkKind::Register, SourceKind::Register, SourceKind::Global) => run::<NeInst<Register, Register, Global>>(data, context),
        (SinkKind::Register, SourceKind::Global, SourceKind::Const) => run::<NeInst<Register, Global, Const>>(data, context),
        (SinkKind::Register, SourceKind::Global, SourceKind::Register) => run::<NeInst<Register, Global, Register>>(data, context),
        (SinkKind::Register, SourceKind::Global, SourceKind::Global) => run::<NeInst<Register, Global, Global>>(data, context),
        (SinkKind::Global, SourceKind::Const, SourceKind::Const) => run::<NeInst<Global, Const, Const>>(data, context),
        (SinkKind::Global, SourceKind::Const, SourceKind::Register) => run::<NeInst<Global, Const, Register>>(data, context),
        (SinkKind::Global, SourceKind::Const, SourceKind::Global) => run::<NeInst<Global, Const, Global>>(data, context),
        (SinkKind::Global, SourceKind::Register, SourceKind::Const) => run::<NeInst<Global, Register, Const>>(data, context),
        (SinkKind::Global, SourceKind::Register, SourceKind::Register) => run::<NeInst<Global, Register, Register>>(data, context),
        (SinkKind::Global, SourceKind::Register, SourceKind::Global) => run::<NeInst<Global, Register, Global>>(data, context),
        (SinkKind::Global, SourceKind::Global, SourceKind::Const) => run::<NeInst<Global, Global, Const>>(data, context),
        (SinkKind::Global, SourceKind::Global, SourceKind::Register) => run::<NeInst<Global, Global, Register>>(data, context),
        (SinkKind::Global, SourceKind::Global, SourceKind::Global) => run::<NeInst<Global, Global, Global>>(data, context),
    }
}

impl Inst {
    pub fn execute(&self, context: &mut Context) -> (outcome: Outcome)
        requires
            old(context)@.wf(),
            self@.step(old(context)@).pc <= usize::MAX,
            self@.operands_valid(),
        ensures
            final(context)@ == self@.step(old(context)@),
            final(context)@.wf(),
            (outcome == Outcome::Return) == self@.ends(),
    {
        match self.handler {
            Handler::Add(sink, src0, src1) => run_add(sink, src0, src1, self.data, context),
            Handler::Sub(sink, src0, src1) => run_sub(sink, src0, src1, self.data, context),
            Handler::Mul(sink, src0, src1) => run_mul(sink, src0, src1, self.data, context),
            Handler::Eq(sink, src0, src1) => run_eq(sink, src0, src1, self.data, context),
            Handler::Ne(sink, src0, src1) => run_ne(sink, src0, src1, self.data, context),
            Handler::Branch => run::<BranchInst>(self.data, context),
            Handler::BranchEqz(SourceKind::Const) => run::<BranchEqzInst<Const>>(self.data, context),
            Handler::BranchEqz(SourceKind::Register) => run::<BranchEqzInst<Register>>(self.data, context),
            Handler::BranchEqz(SourceKind::Global) => run::<BranchEqzInst<Global>>(self.data, context),
            Handler::Return(SourceKind::Const) => run::<ReturnInst<Const>>(self.data, context),
            Handler::Return(SourceKind::Register) => run::<ReturnInst<Register>>(self.data, context),
            Handler::Return(SourceKind::Global) => run::<ReturnInst<Global>>(self.data, context),
        }
    }

    pub fn add<R, S0, S1>(result: R, lhs: S0, rhs: S1) -> (inst: Self)
        where
            R: Result,
            S0: Param,
            S1: Param,
        ensures
            inst@ == (Op::Bin { op: BinOp::Add, result: result.sink(), lhs: lhs@, rhs: rhs@ }),
    {
        let inst = AddInst { result, lhs, rhs };
        Self { handler: AddInst::<R, S0, S1>::handler(), data: IntoData::into_data(inst) }
    }

    pub fn sub<R, S0, S1>(result: R, lhs: S0, rhs: S1) -> (inst: Self)
        where
            R: Result,
            S0: Param,
            S1: Param,
        ensures
            inst@ == (Op::Bin { op: BinOp::Sub, result: result.sink(), lhs: lhs@, rhs: rhs@ }),
    {
        let inst = SubInst { result, lhs, rhs };
        Self { handler: SubInst::<R, S0, S1>::handler(), data: IntoData::into_data(inst) }
    }

    pub fn mul<R, S0, S1>(result: R, lhs: S0, rhs: S1) -> (inst: Self)
        where
            R: Result,
            S0: Param,
            S1: Param,
        ensures
            inst@ == (Op::Bin { op: BinOp::Mul, result: result.sink(), lhs: lhs@, rhs: rhs@ }),
    {
        let inst = MulInst { result, lhs, rhs };
        Self { handler: MulInst::<R, S0, S1>::handler(), data: IntoData::into_data(inst) }
    }

    pub fn eq<R, S0, S1>(result: R, lhs: S0, rhs: S1) -> (inst: Self)
        where
            R: Result,
            S0: Param,
            S1: Param,
        ensures
            inst@ == (Op::Bin { op: BinOp::Eq, result: result.sink(), lhs: lhs@, rhs: rhs@ }),
    {
        let inst = EqInst { result, lhs, rhs };
        Self { handler: EqInst::<R, S0, S1>::handler(), data: IntoData::into_data(inst) }
    }

    pub fn ne<R, S0, S1>(result: R, lhs: S0, rhs: S1) -> (inst: Self)
        where
            R: Result,
            S0: Param,
            S1: Param,
        ensures
            inst@ == (Op::Bin { op: BinOp::Ne, result: result.sink(), lhs: lhs@, rhs: rhs@ }),
    {
        let inst = NeInst { result, lhs, rhs };
        Self { handler: NeInst::<R, S0, S1>::handler(), data: IntoData::into_data(inst) }
    }

    pub fn branch(target: Target) -> (inst: Self)
        ensures
            inst@ == (Op::Branch { target: target as int }),
    {
        let inst = BranchInst { target };
        Self { handler: BranchInst::handler(), data: IntoData::into_data(inst) }
    }

    pub fn branch_eqz<C>(target: Target, condition: C) -> (inst: Self)
        where
            C: Param,
        ensures
            inst@ == (Op::BranchEqz { target: target as int, condition: condition@ }),
    {
        let inst = BranchEqzInst { target, condition };
        Self { handler: BranchEqzInst::<C>::handler(), data: IntoData::into_data(inst) }
    }

    pub fn ret<R>(result: R) -> (inst: Self)
        where
            R: Param,
        ensures
            inst@ == (Op::Return { result: result@ }),
    {
        let inst = ReturnInst { result };
        Self { handler: ReturnInst::<R>::handler(), data: IntoData::into_data(inst) }
    }
}

/// An instruction type that can be read back from raw words.
pub trait FromData: View<V = Op> + Sized {
    /// The handler that stands for this type once it is erased.
    spec fn handler_of() -> Handler;

    fn handler() -> (handler: Handler)
        ensures
            handler == Self::handler_of(),
    ;

    fn from_data(data: InstData) -> (inst: Self)
        ensures
            inst@ == Self::handler_of().decode(data),
    ;
}

/// An instruction type that can be written as raw words.
pub trait IntoData: FromData {
    fn into_data(self) -> (data: InstData)
        ensures
            Self::handler_of().decode(data) == self@,
    ;
}

/// An instruction that can execute itself once on a [`Context`]; its view
/// is what it means.
pub trait Execute: View<V = Op> + Sized {
    fn execute(self, context: &mut Context) -> (outcome: Outcome)
        requires
            old(context)@.wf(),
            self@.step(old(context)@).pc <= usize::MAX,
            self@.operands_valid(),
        ensures
            final(context)@ == self@.step(old(context)@),
            final(context)@.wf(),
            (outcome == Outcome::Return) == self@.ends(),
    ;
}

#[derive(Copy, Clone)]
pub struct AddInst<R, S0, S1> {
    pub result: R,
    pub lhs: S0,
    pub rhs: S1,
}

impl<R, S0, S1> AddInst<R, S0, S1> {
    pub fn new(result: R, lhs: S0, rhs: S1) -> (inst: Self)
        ensures
            inst == (Self { result, lhs, rhs }),
    {
        Self { result, lhs, rhs }
    }
}

impl<R: Store, S0: Load, S1: Load> View for AddInst<R, S0, S1> {
    type V = Op;

    open spec fn view(&self) -> Op {
        Op::Bin { op: BinOp::Add, result: self.result.sink(), lhs: self.lhs@, rhs: self.rhs@ }
    }
}

impl<R: Result, S0: Param, S1: Param> IntoData for AddInst<R, S0, S1> {
    fn into_data(self) -> (data: InstData) {
        proof {
            self.result.lemma_raw();
            self.lhs.lemma_raw();
            self.rhs.lemma_raw();
        }
        InstData::from((self.result, self.lhs, self.rhs))
    }
}

impl<R: Result, S0: Param, S1: Param> FromData for AddInst<R, S0, S1> {
    open spec fn handler_of() -> Handler {
        Handler::Add(R::kind_of(), S0::kind_of(), S1::kind_of())
    }

    fn handler() -> (handler: Handler) {
        Handler::Add(R::kind(), S0::kind(), S1::kind())
    }

    fn from_data(data: InstData) -> (inst: Self) {
        let (result, lhs, rhs) = data.into_raw_parts();
        Self { result, lhs, rhs }
    }
}

impl<R: Store, S0: Load, S1: Load> Execute for AddInst<R, S0, S1> {
    fn execute(self, context: &mut Context) -> (outcome: Outcome) {
        let lhs = self.lhs.load(context);
        let rhs = self.rhs.load(context);
        self.result.store(context, add_bits(lhs, rhs));
        context.next_inst()
    }
}

#[derive(Copy, Clone)]
pub struct SubInst<R, S0, S1> {
    pub result: R,
    pub lhs: S0,
    pub rhs: S1,
}

impl<R, S0, S1> SubInst<R, S0, S1> {
    pub fn new(result: R, lhs: S0, rhs: S1) -> (inst: Self)
        ensures
            inst == (Self { result, lhs, rhs }),
    {
        Self { result, lhs, rhs }
    }
}

impl<R: Store, S0: Load, S1: Load> View for SubInst<R, S0, S1> {
    type V = Op;

    open spec fn view(&self) -> Op {
        Op::Bin { op: BinOp::Sub, result: self.result.sink(), lhs: self.lhs@, rhs: self.rhs@ }
    }
}

impl<R: Result, S0: Param, S1: Param> IntoData for SubInst<R, S0, S1> {
    fn into_data(self) -> (data: InstData) {
        proof {
            self.result.lemma_raw();
            self.lhs.lemma_raw();
            self.rhs.lemma_raw();
        }
        InstData::from((self.result, self.lhs, self.rhs))
    }
}

impl<R: Result, S0: Param, S1: Param> FromData for SubInst<R, S0, S1> {
    open spec fn handler_of() -> Handler {
        Handler::Sub(R::kind_of(), S0::kind_of(), S1::kind_of())
    }

    fn handler() -> (handler: Handler) {
        Handler::Sub(R::kind(), S0::kind(), S1::kind())
    }

    fn from_data(data: InstData) -> (inst: Self) {
        let (result, lhs, rhs) = data.into_raw_parts();
        Self { result, lhs, rhs }
    }
}

impl<R: Store, S0: Load, S1: Load> Execute for SubInst<R, S0, S1> {
    fn execute(self, context: &mut Context) -> (outcome: Outcome) {
        let lhs = self.lhs.load(context);
        let rhs = self.rhs.load(context);
        self.result.store(context, sub_bits(lhs, rhs));
        context.next_inst()
    }
}

#[derive(Copy, Clone)]
pub struct MulInst<R, S0, S1> {
    pub result: R,
    pub lhs: S0,
    pub rhs: S1,
}

impl<R, S0, S1> MulInst<R, S0, S1> {
    pub fn new(result: R, lhs: S0, rhs: S1) -> (inst: Self)
        ensures
            inst == (Self { result, lhs, rhs }),
    {
        Self { result, lhs, rhs }
    }
}

impl<R: Store, S0: Load, S1: Load> View for MulInst<R, S0, S1> {
    type V = Op;

    open spec fn view(&self) -> Op {
        Op::Bin { op: BinOp::Mul, result: self.result.sink(), lhs: self.lhs@, rhs: self.rhs@ }
    }
}

impl<R: Result, S0: Param, S1: Param> IntoData for MulInst<R, S0, S1> {
    fn into_data(self) -> (data: InstData) {
        proof {
            self.result.lemma_raw();
            self.lhs.lemma_raw();
            self.rhs.lemma_raw();
        }
        InstData::from((self.result, self.lhs, self.rhs))
    }
}

impl<R: Result, S0: Param, S1: Param> FromData for MulInst<R, S0, S1> {
    open spec fn handler_of() -> Handler {
        Handler::Mul(R::kind_of(), S0::kind_of(), S1::kind_of())
    }

    fn handler() -> (handler: Handler) {
        Handler::Mul(R::kind(), S0::kind(), S1::kind())
    }

    fn from_data(data: InstData) -> (inst: Self) {
        let (result, lhs, rhs) = data.into_raw_parts();
        Self { result, lhs, rhs }
    }
}

impl<R: Store, S0: Load, S1: Load> Execute for MulInst<R, S0, S1> {
    fn execute(self, context: &mut Context) -> (outcome: Outcome) {
        let lhs = self.lhs.load(context);
        let rhs = self.rhs.load(context);
        self.result.store(context, mul_bits(lhs, rhs));
        context.next_inst()
    }
}

#[derive(Copy, Clone)]
pub struct EqInst<R, S0, S1> {
    pub result: R,
    pub lhs: S0,
    pub rhs: S1,
}

impl<R, S0, S1> EqInst<R, S0, S1> {
    pub fn new(result: R, lhs: S0, rhs: S1) -> (inst: Self)
        ensures
            inst == (Self { result, lhs, rhs }),
    {
        Self { result, lhs, rhs }
    }
}

impl<R: Store, S0: Load, S1: Load> View for EqInst<R, S0, S1> {
    type V = Op;

    open spec fn view(&self) -> Op {
        Op::Bin { op: BinOp::Eq, result: self.result.sink(), lhs: self.lhs@, rhs: self.rhs@ }
    }
}

impl<R: Result, S0: Param, S1: Param> IntoData for EqInst<R, S0, S1> {
    fn into_data(self) -> (data: InstData) {
        proof {
            self.result.lemma_raw();
            self.lhs.lemma_raw();
            self.rhs.lemma_raw();
        }
        InstData::from((self.result, self.lhs, self.rhs))
    }
}

impl<R: Result, S0: Param, S1: Param> FromData for EqInst<R, S0, S1> {
    open spec fn handler_of() -> Handler {
        Handler::Eq(R::kind_of(), S0::kind_of(), S1::kind_of())
    }

    fn handler() -> (handler: Handler) {
        Handler::Eq(R::kind(), S0::kind(), S1::kind())
    }

    fn from_data(data: InstData) -> (inst: Self) {
        let (result, lhs, rhs) = data.into_raw_parts();
        Self { result, lhs, rhs }
    }
}

impl<R: Store, S0: Load, S1: Load> Execute for EqInst<R, S0, S1> {
    fn execute(self, context: &mut Context) -> (outcome: Outcome) {
        let lhs = self.lhs.load(context);
        let rhs = self.rhs.load(context);
        self.result.store(context, eq_bits(lhs, rhs));
        context.next_inst()
    }
}

#[derive(Copy, Clone)]
pub struct NeInst<R, S0, S1> {
    pub result: R,
    pub lhs: S0,
    pub rhs: S1,
}

impl<R, S0, S1> NeInst<R, S0, S1> {
    pub fn new(result: R, lhs: S0, rhs: S1) -> (inst: Self)
        ensures
            inst == (Self { result, lhs, rhs }),
    {
        Self { result, lhs, rhs }
    }
}

impl<R: Store, S0: Load, S1: Load> View for NeInst<R, S0, S1> {
    type V = Op;

    open spec fn view(&self) -> Op {
        Op::Bin { op: BinOp::Ne, result: self.result.sink(), lhs: self.lhs@, rhs: self.rhs@ }
    }
}

impl<R: Result, S0: Param, S1: Param> IntoData for NeInst<R, S0, S1> {
    fn into_data(self) -> (data: InstData) {
        proof {
            self.result.lemma_raw();
            self.lhs.lemma_raw();
            self.rhs.lemma_raw();
        }
        InstData::from((self.result, self.lhs, self.rhs))
    }
}

impl<R: Result, S0: Param, S1: Param> FromData for NeInst<R, S0, S1> {
    open spec fn handler_of() -> Handler {
        Handler::Ne(R::kind_of(), S0::kind_of(), S1::kind_of())
    }

    fn handler() -> (handler: Handler) {
        Handler::Ne(R::kind(), S0::kind(), S1::kind())
    }

    fn from_data(data: InstData) -> (inst: Self) {
        let (result, lhs, rhs) = data.into_raw_parts();
        Self { result, lhs, rhs }
    }
}

impl<R: Store, S0: Load, S1: Load> Execute for NeInst<R, S0, S1> {
    fn execute(self, context: &mut Context) -> (outcome: Outcome) {
        let lhs = self.lhs.load(context);
        let rhs = self.rhs.load(context);
        self.result.store(context, ne_bits(lhs, rhs));
        context.next_inst()
    }
}

#[derive(Copy, Clone)]
pub struct BranchInst {
    pub target: Target,
}

impl BranchInst {
    pub fn new(target: Target) -> (inst: Self)
        ensures
            inst == (Self { target }),
    {
        Self { target }
    }
}

impl View for BranchInst {
    type V = Op;

    open spec fn view(&self) -> Op {
        Op::Branch { target: self.target as int }
    }
}

impl IntoData for BranchInst {
    fn into_data(self) -> (data: InstData) {
        InstData { sink: RawSink { index: self.target }, src0: RawSource { index: 0 }, src1: RawSource { index: 0 } }
    }
}

impl FromData for BranchInst {
    open spec fn handler_of() -> Handler {
        Handler::Branch
    }

    fn handler() -> (handler: Handler) {
        Handler::Branch
    }

    fn from_data(data: InstData) -> (inst: Self) {
        let target = data.sink.index;
        Self { target }
    }
}

impl Execute for BranchInst {
    fn execute(self, context: &mut Context) -> (outcome: Outcome) {
        context.branch_to(self.target)
    }
}

#[derive(Copy, Clone)]
pub struct BranchEqzInst<C> {
    pub target: Target,
    pub condition: C,
}

impl<C> BranchEqzInst<C> {
    pub fn new(target: Target, condition: C) -> (inst: Self)
        ensures
            inst == (Self { target, condition }),
    {
        Self { target, condition }
    }
}

impl<C: Load> View for BranchEqzInst<C> {
    type V = Op;

    open spec fn view(&self) -> Op {
        Op::BranchEqz { target: self.target as int, condition: self.condition@ }
    }
}

impl<C: Param> IntoData for BranchEqzInst<C> {
    fn into_data(self) -> (data: InstData) {
        InstData { sink: RawSink { index: self.target }, src0: self.condition.into_raw(), src1: RawSource { index: 0 } }
    }
}

impl<C: Param> FromData for BranchEqzInst<C> {
    open spec fn handler_of() -> Handler {
        Handler::BranchEqz(C::kind_of())
    }

    fn handler() -> (handler: Handler) {
        Handler::BranchEqz(C::kind())
    }

    fn from_data(data: InstData) -> (inst: Self) {
        let target = data.sink.index;
        let condition = C::from_raw(data.src0);
        Self { target, condition }
    }
}

impl<C: Load> Execute for BranchEqzInst<C> {
    fn execute(self, context: &mut Context) -> (outcome: Outcome) {
        let condition = self.condition.load(context);
        if condition == 0 {
            context.branch_to(self.target)
        } else {
            context.next_inst()
        }
    }
}

#[derive(Copy, Clone)]
pub struct ReturnInst<R> {
    pub result: R,
}

impl<C> ReturnInst<C> {
    pub fn new(result: C) -> (inst: Self)
        ensures
            inst == (Self { result }),
    {
        Self { result }
    }
}

impl<R: Load> View for ReturnInst<R> {
    type V = Op;

    open spec fn view(&self) -> Op {
        Op::Return { result: self.result@ }
    }
}

impl<R: Param> IntoData for ReturnInst<R> {
    fn into_data(self) -> (data: InstData) {
        InstData { sink: RawSink { index: 0 }, src0: self.result.into_raw(), src1: RawSource { index: 0 } }
    }
}

impl<R: Param> FromData for ReturnInst<R> {
    open spec fn handler_of() -> Handler {
        Handler::Return(R::kind_of())
    }

    fn handler() -> (handler: Handler) {
        Handler::Return(R::kind())
    }

    fn from_data(data: InstData) -> (inst: Self) {
        let result = R::from_raw(data.src0);
        Self { result }
    }
}

impl<R: Load> Execute for ReturnInst<R> {
    fn execute(self, context: &mut Context) -> (outcome: Outcome) {
        let result = self.result.load(context);
        context.set_reg(Register(0), result);
        Outcome::Return
    }
}

impl Validate for Inst {
    fn is_valid(&self, len: usize) -> (ok: bool) {
        match self.handler {
            Handler::Add(sink, src0, src1) => {
                sink.is_valid(self.data.sink) && src0.is_valid(self.data.src0) && src1.is_valid(self.data.src1)
            },
            Handler::Sub(sink, src0, src1) => {
                sink.is_valid(self.data.sink) && src0.is_valid(self.data.src0) && src1.is_valid(self.data.src1)
            },
            Handler::Mul(sink, src0, src1) => {
                sink.is_valid(self.data.sink) && src0.is_valid(self.data.src0) && src1.is_valid(self.data.src1)
            },
            Handler::Eq(sink, src0, src1) => {
                sink.is_valid(self.data.sink) && src0.is_valid(self.data.src0) && src1.is_valid(self.data.src1)
            },
            Handler::Ne(sink, src0, src1) => {
                sink.is_valid(self.data.sink) && src0.is_valid(self.data.src0) && src1.is_valid(self.data.src1)
            },
            Handler::Branch => self.data.sink.index < len,
            Handler::BranchEqz(condition) => self.data.sink.index < len && condition.is_valid(self.data.src0),
            Handler::Return(result) => result.is_valid(self.data.src0),
        }
    }
}

impl<R: Store, S0: Load, S1: Load> Validate for AddInst<R, S0, S1> {
    fn is_valid(&self, len: usize) -> (ok: bool) {
        self.result.can_store() && self.lhs.can_load() && self.rhs.can_load()
    }
}

impl<R: Store, S0: Load, S1: Load> Validate for SubInst<R, S0, S1> {
    fn is_valid(&self, len: usize) -> (ok: bool) {
        self.result.can_store() && self.lhs.can_load() && self.rhs.can_load()
    }
}

impl<R: Store, S0: Load, S1: Load> Validate for MulInst<R, S0, S1> {
    fn is_valid(&self, len: usize) -> (ok: bool) {
        self.result.can_store() && self.lhs.can_load() && self.rhs.can_load()
    }
}

impl<R: Store, S0: Load, S1: Load> Validate for EqInst<R, S0, S1> {
    fn is_valid(&self, len: usize) -> (ok: bool) {
        self.result.can_store() && self.lhs.can_load() && self.rhs.can_load()
    }
}

impl<R: Store, S0: Load, S1: Load> Validate for NeInst<R, S0, S1> {
    fn is_valid(&self, len: usize) -> (ok: bool) {
        self.result.can_store() && self.lhs.can_load() && self.rhs.can_load()
    }
}

impl Validate for BranchInst {
    fn is_valid(&self, len: usize) -> (ok: bool) {
        self.target < len
    }
}

impl<C: Load> Validate for BranchEqzInst<C> {
    fn is_valid(&self, len: usize) -> (ok: bool) {
        self.target < len && self.condition.can_load()
    }
}

impl<R: Load> Validate for ReturnInst<R> {
    fn is_valid(&self, len: usize) -> (ok: bool) {
        self.result.can_load()
    }
}

/// Executes the list of instruction using the given [`Context`], until one
/// of them returns.
pub fn execute(insts: &[Inst], context: &mut Context)
    requires
        old(context)@.wf(),
        well_formed(meaning(insts@)),
        halts(meaning(insts@), old(context)@),
    ensures
        final(context)@ == end_state(meaning(insts@), old(context)@),
        final(context)@.wf(),
{
    let ghost prog = meaning(insts@);
    loop
        invariant
            prog == meaning(insts@),
            context@.wf(),
            well_formed(prog),
            halts(prog, context@),
            end_state(prog, context@) == end_state(prog, old(context)@),
        decreases steps(prog, context@),
    {
        proof {
            lemma_halts_step(prog, context@);
        }
        let pc = context.pc();
        let inst = &insts[pc];
        match inst.execute(context) {
            Outcome::Continue => continue,
            Outcome::Return => return,
        }
    }
}

} // verus!
