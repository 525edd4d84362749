//! Tag dispatch over instructions whose operands are expression trees.
use vstd::prelude::*;

use crate::machine::{add_bits, halts, lemma_halts_step, mul_bits, end_state, steps, sub_bits, well_formed, BinOp, Loc, Semantics, State, Val, SLOTS};
use crate::{Bits, Context, Outcome};

verus! {

#[derive(Copy, Clone)]
pub struct Global(pub u32);

#[derive(Copy, Clone)]
pub struct Label(pub usize);

#[derive(Copy, Clone)]
pub struct Register(pub usize);

#[derive(Copy, Clone)]
pub struct Immediate(pub Bits);

#[allow(inconsistent_fields)]
pub enum Expr {
    Immediate { immediate: Immediate },
    LocalGet { register: Register },
    LocalTee { register: Register, new_value: Box<Expr> },
    AddRr { lhs: Register, rhs: Register },
    AddRi { lhs: Register, rhs: Immediate },
    AddRe { lhs: Register, rhs: Box<Expr> },
    AddIe { lhs: Immediate, rhs: Box<Expr> },
    AddEe { lhs: Box<Expr>, rhs: Box<Expr> },
    SubRr { lhs: Register, rhs: Register },
    SubRi { lhs: Register, rhs: Immediate },
    SubRe { lhs: Register, rhs: Box<Expr> },
    SubIe { lhs: Immediate, rhs: Box<Expr> },
    SubEe { lhs: Box<Expr>, rhs: Box<Expr> },
    MulRr { lhs: Register, rhs: Register },
    MulRi { lhs: Register, rhs: Immediate },
    MulRe { lhs: Register, rhs: Box<Expr> },
    MulIe { lhs: Immediate, rhs: Box<Expr> },
    MulEe { lhs: Box<Expr>, rhs: Box<Expr> },
}

impl Register {
    pub open spec fn valid(self) -> bool {
        self.0 < SLOTS
    }

    /// Whether the register exists.
    pub fn is_valid(&self) -> (ok: bool)
        ensures
            ok == self.valid(),
    {
        self.0 < SLOTS
    }
}

/// A value and the state in which it came about.
pub struct Evaluated {
    pub state: State,
    pub bits: Bits,
}

impl Expr {
    /// Every register that the expression names exists.
    pub open spec fn valid(self) -> bool
        decreases self,
    {
        match self {
            Expr::Immediate { immediate } => true,
            Expr::LocalGet { register } => register.valid(),
            Expr::LocalTee { register, new_value } => register.valid() && new_value.valid(),
            Expr::AddRr { lhs, rhs } | Expr::SubRr { lhs, rhs } | Expr::MulRr { lhs, rhs } => lhs.valid() && rhs.valid(),
            Expr::AddRi { lhs, rhs } | Expr::SubRi { lhs, rhs } | Expr::MulRi { lhs, rhs } => lhs.valid(),
            Expr::AddRe { lhs, rhs } | Expr::SubRe { lhs, rhs } | Expr::MulRe { lhs, rhs } => lhs.valid() && rhs.valid(),
            Expr::AddIe { lhs, rhs } | Expr::SubIe { lhs, rhs } | Expr::MulIe { lhs, rhs } => rhs.valid(),
            Expr::AddEe { lhs, rhs } | Expr::SubEe { lhs, rhs } | Expr::MulEe { lhs, rhs } => lhs.valid() && rhs.valid(),
        }
    }

    /// The value of the expression in `st`, and the state that evaluating it
    /// leaves: operands are evaluated from left to right, and `LocalTee`
    /// stores what it evaluates.
    pub open spec fn eval(self, st: State) -> Evaluated
        decreases self,
    {
        match self {
            Expr::Immediate { immediate } => Evaluated { state: st, bits: immediate.0 },
            Expr::LocalGet { register } => Evaluated { state: st, bits: st.regs[register.0 as int] },
            Expr::LocalTee { register, new_value } => {
                let v = new_value.eval(st);
                Evaluated { state: v.state.store(Loc::Reg(register.0 as int), v.bits), bits: v.bits }
            },
            Expr::AddRr { lhs, rhs } => eval_rr(BinOp::Add, lhs, rhs, st),
            Expr::AddRi { lhs, rhs } => eval_ri(BinOp::Add, lhs, rhs, st),
            Expr::AddRe { lhs, rhs } => eval_be(BinOp::Add, st.regs[lhs.0 as int], rhs.eval(st)),
            Expr::AddIe { lhs, rhs } => eval_be(BinOp::Add, lhs.0, rhs.eval(st)),
            Expr::AddEe { lhs, rhs } => eval_be(BinOp::Add, lhs.eval(st).bits, rhs.eval(lhs.eval(st).state)),
            Expr::SubRr { lhs, rhs } => eval_rr(BinOp::Sub, lhs, rhs, st),
            Expr::SubRi { lhs, rhs } => eval_ri(BinOp::Sub, lhs, rhs, st),
            Expr::SubRe { lhs, rhs } => eval_be(BinOp::Sub, st.regs[lhs.0 as int], rhs.eval(st)),
            Expr::SubIe { lhs, rhs } => eval_be(BinOp::Sub, lhs.0, rhs.eval(st)),
            Expr::SubEe { lhs, rhs } => eval_be(BinOp::Sub, lhs.eval(st).bits, rhs.eval(lhs.eval(st).state)),
            Expr::MulRr { lhs, rhs } => eval_rr(BinOp::Mul, lhs, rhs, st),
            Expr::MulRi { lhs, rhs } => eval_ri(BinOp::Mul, lhs, rhs, st),
            Expr::MulRe { lhs, rhs } => eval_be(BinOp::Mul, st.regs[lhs.0 as int], rhs.eval(st)),
            Expr::MulIe { lhs, rhs } => eval_be(BinOp::Mul, lhs.0, rhs.eval(st)),
            Expr::MulEe { lhs, rhs } => eval_be(BinOp::Mul, lhs.eval(st).bits, rhs.eval(lhs.eval(st).state)),
        }
    }

    /// Evaluating an expression leaves the program counter and the globals
    /// alone.
    pub proof fn lemma_eval_frame(self, st: State)
        ensures
            self.eval(st).state.pc == st.pc,
            self.eval(st).state.globals == st.globals,
        decreases self,
    {
        match self {
            Expr::LocalTee { register, new_value } => {
                new_value.lemma_eval_frame(st);
            },
            Expr::AddRe { lhs, rhs } | Expr::SubRe { lhs, rhs } | Expr::MulRe { lhs, rhs } => {
                rhs.lemma_eval_frame(st);
            },
            Expr::AddIe { lhs, rhs } | Expr::SubIe { lhs, rhs } | Expr::MulIe { lhs, rhs } => {
                rhs.lemma_eval_frame(st);
            },
            Expr::AddEe { lhs, rhs } | Expr::SubEe { lhs, rhs } | Expr::MulEe { lhs, rhs } => {
                lhs.lemma_eval_frame(st);
                rhs.lemma_eval_frame(lhs.eval(st).state);
            },
            _ => {},
        }
    }

    /// Whether every register that the expression names exists.
    pub fn is_valid(&self) -> (ok: bool)
        ensures
            ok == self.valid(),
        decreases self,
    {
        match self {
            Expr::Immediate { immediate } => true,
            Expr::LocalGet { register } => register.is_valid(),
            Expr::LocalTee { register, new_value } => register.is_valid() && new_value.is_valid(),
            Expr::AddRr { lhs, rhs } => lhs.is_valid() && rhs.is_valid(),
            Expr::AddRi { lhs, rhs } => lhs.is_valid(),
            Expr::AddRe { lhs, rhs } => lhs.is_valid() && rhs.is_valid(),
            Expr::AddIe { lhs, rhs } => rhs.is_valid(),
            Expr::AddEe { lhs, rhs } => lhs.is_valid() && rhs.is_valid(),
            Expr::SubRr { lhs, rhs } => lhs.is_valid() && rhs.is_valid(),
            Expr::SubRi { lhs, rhs } => lhs.is_valid(),
            Expr::SubRe { lhs, rhs } => lhs.is_valid() && rhs.is_valid(),
            Expr::SubIe { lhs, rhs } => rhs.is_valid(),
            Expr::SubEe { lhs, rhs } => lhs.is_valid() && rhs.is_valid(),
            Expr::MulRr { lhs, rhs } => lhs.is_valid() && rhs.is_valid(),
            Expr::MulRi { lhs, rhs } => lhs.is_valid(),
            Expr::MulRe { lhs, rhs } => lhs.is_valid() && rhs.is_valid(),
            Expr::MulIe { lhs, rhs } => rhs.is_valid(),
            Expr::MulEe { lhs, rhs } => lhs.is_valid() && rhs.is_valid(),
        }
    }

    /// Evaluates the expression, storing what its `LocalTee` nodes ask for.
    pub fn evaluate(&self, context: &mut Context) -> (bits: Bits)
        requires
            old(context)@.wf(),
            self.valid(),
        ensures
            final(context)@ == self.eval(old(context)@).state,
            bits == self.eval(old(context)@).bits,
            final(context)@.wf(),
            final(context)@.pc == old(context)@.pc,
        decreases self,
    {
        match self {
            Expr::Immediate { immediate } => immediate.0,
            Expr::LocalGet { register } => context.get_reg(register.0),
            Expr::LocalTee { register, new_value } => {
                let new_value = new_value.evaluate(context);
                context.set_reg(register.0, new_value);
                new_value
            },
            Expr::AddRr { lhs, rhs } => {
                let lhs = context.get_reg(lhs.0);
                let rhs = context.get_reg(rhs.0);
                add_bits(lhs, rhs)
            },
            Expr::AddRi { lhs, rhs } => {
                let lhs = context.get_reg(lhs.0);
                let rhs = rhs.0;
                add_bits(lhs, rhs)
            },
            Expr::AddRe { lhs, rhs } => {
                let lhs = context.get_reg(lhs.0);
                let rhs = rhs.evaluate(context);
                add_bits(lhs, rhs)
            },
            Expr::AddIe { lhs, rhs } => {
                let lhs = lhs.0;
                let rhs = rhs.evaluate(context);
                add_bits(lhs, rhs)
            },
            Expr::AddEe { lhs, rhs } => {
                let lhs = lhs.evaluate(context);
                let rhs = rhs.evaluate(context);
                add_bits(lhs, rhs)
            },
            Expr::SubRr { lhs, rhs } => {
                let lhs = context.get_reg(lhs.0);
                let rhs = context.get_reg(rhs.0);
                sub_bits(lhs, rhs)
            },
            Expr::SubRi { lhs, rhs } => {
                let lhs = context.get_reg(lhs.0);
                let rhs = rhs.0;
                sub_bits(lhs, rhs)
            },
            Expr::SubRe { lhs, rhs } => {
                let lhs = context.get_reg(lhs.0);
                let rhs = rhs.evaluate(context);
                sub_bits(lhs, rhs)
            },
            Expr::SubIe { lhs, rhs } => {
                let lhs = lhs.0;
                let rhs = rhs.evaluate(context);
                sub_bits(lhs, rhs)
            },
            Expr::SubEe { lhs, rhs } => {
                let lhs = lhs.evaluate(context);
                let rhs = rhs.evaluate(context);
                sub_bits(lhs, rhs)
            },
            Expr::MulRr { lhs, rhs } => {
                let lhs = context.get_reg(lhs.0);
                let rhs = context.get_reg(rhs.0);
                mul_bits(lhs, rhs)
            },
            Expr::MulRi { lhs, rhs } => {
                let lhs = context.get_reg(lhs.0);
                let rhs = rhs.0;
                mul_bits(lhs, rhs)
            },
            Expr::MulRe { lhs, rhs } => {
                let lhs = context.get_reg(lhs.0);
                let rhs = rhs.evaluate(context);
                mul_bits(lhs, rhs)
            },
            Expr::MulIe { lhs, rhs } => {
                let lhs = lhs.0;
                let rhs = rhs.evaluate(context);
                mul_bits(lhs, rhs)
            },
            Expr::MulEe { lhs, rhs } => {
                let lhs = lhs.evaluate(context);
                let rhs = rhs.evaluate(context);
                mul_bits(lhs, rhs)
            },
        }
    }
}

/// `op` on two registers.
pub open spec fn eval_rr(op: BinOp, lhs: Register, rhs: Register, st: State) -> Evaluated {
    Evaluated { state: st, bits: op.apply(st.regs[lhs.0 as int], st.regs[rhs.0 as int]) }
}

/// `op` on a register and an immediate.
pub open spec fn eval_ri(op: BinOp, lhs: Register, rhs: Immediate, st: State) -> Evaluated {
    Evaluated { state: st, bits: op.apply(st.regs[lhs.0 as int], rhs.0) }
}

/// `op` on a value that is already there and an expression evaluated after it.
pub open spec fn eval_be(op: BinOp, lhs: Bits, rhs: Evaluated) -> Evaluated {
    Evaluated { state: rhs.state, bits: op.apply(lhs, rhs.bits) }
}

pub enum Inst {
    LocalSet { register: Register, expr: Expr },
    GlobalSet { global: Global, expr: Expr },
    Branch { label: Label },
    BranchIf { label: Label, condition: Expr },
    Return { result: Expr },
}

impl Inst {
    /// Every register and global that the instruction names exists.
    pub open spec fn operands_valid(self) -> bool {
        match self {
            Inst::LocalSet { register, expr } => register.valid() && expr.valid(),
            Inst::GlobalSet { global, expr } => global.0 < SLOTS && expr.valid(),
            Inst::Branch { label } => true,
            Inst::BranchIf { label, condition } => condition.valid(),
            Inst::Return { result } => result.valid(),
        }
    }
}

impl Semantics for Inst {
    open spec fn valid(self, len: nat) -> bool {
        &&& self.operands_valid()
        &&& match self {
            Inst::Branch { label } => label.0 < len,
            Inst::BranchIf { label, condition } => label.0 < len,
            _ => true,
        }
    }

    open spec fn ends(self) -> bool {
        self is Return
    }

    open spec fn step(self, st: State) -> State {
        match self {
            Inst::LocalSet { register, expr } => {
                let v = expr.eval(st);
                v.state.store(Loc::Reg(register.0 as int), v.bits).advance()
            },
            Inst::GlobalSet { global, expr } => {
                let v = expr.eval(st);
                v.state.store(Loc::Glob(global.0 as int), v.bits).advance()
            },
            Inst::Branch { label } => st.jump(label.0 as int),
            Inst::BranchIf { label, condition } => {
                let v = condition.eval(st);
                if v.bits == 0 {
                    v.state.jump(label.0 as int)
                } else {
                    v.state.advance()
                }
            },
            Inst::Return { result } => {
                let v = result.eval(st);
                v.state.store(Loc::Reg(0), v.bits)
            },
        }
    }
}

impl Inst {
    /// A valid instruction leaves the program counter below or at `len`.
    pub proof fn lemma_step_pc(self, st: State, len: nat)
        requires
            self.valid(len),
            0 <= st.pc < len,
        ensures
            0 <= self.step(st).pc <= len,
    {
        match self {
            Inst::LocalSet { register, expr } => expr.lemma_eval_frame(st),
            Inst::GlobalSet { global, expr } => expr.lemma_eval_frame(st),
            Inst::Branch { label } => {},
            Inst::BranchIf { label, condition } => condition.lemma_eval_frame(st),
            Inst::Return { result } => result.lemma_eval_frame(st),
        }
    }

    /// Executes the instruction once.
    pub fn execute(&self, context: &mut Context) -> (outcome: Outcome)
        requires
            old(context)@.wf(),
            self.step(old(context)@).pc <= usize::MAX,
            self.operands_valid(),
        ensures
            final(context)@ == self.step(old(context)@),
            final(context)@.wf(),
            (outcome == Outcome::Return) == self.ends(),
    {
        match self {
            Inst::LocalSet { register, expr } => {
                let new_value = expr.evaluate(context);
                context.set_reg(register.0, new_value);
                context.next_inst()
            },
            Inst::GlobalSet { global, expr } => {
                let new_value = expr.evaluate(context);
                context.set_global(global.0 as usize, new_value);
                context.next_inst()
            },
            Inst::Branch { label } => context.branch_to(label.0),
            Inst::BranchIf { label, condition } => {
                let condition = condition.evaluate(context);
                if condition == 0 {
                    context.branch_to(label.0)
                } else {
                    context.next_inst()
                }
            },
            Inst::Return { result } => {
                let new_value = result.evaluate(context);
                context.set_reg(0, new_value);
                Outcome::Return
            },
        }
    }
}

impl Inst {
    /// Whether the instruction names only registers and globals that exist,
    /// and only a label below `len`.
    pub fn is_valid(&self, len: usize) -> (ok: bool)
        ensures
            ok == self.valid(len as nat),
    {
        match self {
            Inst::LocalSet { register, expr } => register.is_valid() && expr.is_valid(),
            Inst::GlobalSet { global, expr } => (global.0 as usize) < SLOTS && expr.is_valid(),
            Inst::Branch { label } => label.0 < len,
            Inst::BranchIf { label, condition } => condition.is_valid() && label.0 < len,
            Inst::Return { result } => result.is_valid(),
        }
    }
}

/// Whether the program is well formed: whether each of its instructions is
/// valid for the program's length.
pub fn validate(insts: &[Inst]) -> (ok: bool)
    ensures
        ok == well_formed(insts@),
{
    let len = insts.len();
    let mut i: usize = 0;
    while i < len
        invariant
            i <= len,
            len == insts@.len(),
            forall|j: int| 0 <= j < i ==> (#[trigger] insts@[j]).valid(insts@.len()),
        decreases len - i,
    {
        if !insts[i].is_valid(len) {
            return false;
        }
        i += 1;
    }
    true
}

/// Executes the list of instruction using the given [`Context`], until one
/// of them returns.
pub fn execute(insts: &[Inst], context: &mut Context)
    requires
        old(context)@.wf(),
        well_formed(insts@),
        halts(insts@, old(context)@),
    ensures
        final(context)@ == end_state(insts@, old(context)@),
        final(context)@.wf(),
{
    loop
        invariant
            context@.wf(),
            well_formed(insts@),
            halts(insts@, context@),
            end_state(insts@, context@) == end_state(insts@, old(context)@),
        decreases steps(insts@, context@),
    {
        proof {
            lemma_halts_step(insts@, context@);
        }
        let pc = context.pc();
        let inst = &insts[pc];
        proof {
            inst.lemma_step_pc(context@, insts@.len());
        }
        match inst.execute(context) {
            Outcome::Continue => continue,
            Outcome::Return => return,
        }
    }
}

} // verus!
