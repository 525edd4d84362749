//! Structured dispatch: expressions are trees that store what they compute,
//! and instructions are blocks and loops that carry their own behaviour.
use vstd::prelude::*;
use vstd::std_specs::convert::FromSpecImpl;

use crate::machine::{BinOp, Loc, Semantics, State, SLOTS};
use crate::{Bits, Context, Outcome};

verus! {

#[derive(Copy, Clone)]
pub struct Register(pub usize);

/// An expression: it evaluates both operands, left first, stores the
/// result of the operation in a register, and has that result as its value.
pub struct Expr {
    pub op: BinOp,
    pub result: Register,
    pub lhs: Box<Input>,
    pub rhs: Box<Input>,
}

pub enum Input {
    Register(Register),
    Immediate(Bits),
    Expr(Expr),
}

impl From<Register> for Input {
    fn from(register: Register) -> (r: Self) {
        Self::Register(register)
    }
}

impl FromSpecImpl<Register> for Input {
    open spec fn obeys_from_spec() -> bool {
        true
    }

    open spec fn from_spec(register: Register) -> Self {
        Self::Register(register)
    }
}

impl From<Bits> for Input {
    fn from(bits: Bits) -> (r: Self) {
        Self::Immediate(bits)
    }
}

impl FromSpecImpl<Bits> for Input {
    open spec fn obeys_from_spec() -> bool {
        true
    }

    open spec fn from_spec(bits: Bits) -> Self {
        Self::Immediate(bits)
    }
}

impl From<Expr> for Input {
    fn from(expr: Expr) -> (r: Self) {
        Self::Expr(expr)
    }
}

impl FromSpecImpl<Expr> for Input {
    open spec fn obeys_from_spec() -> bool {
        true
    }

    open spec fn from_spec(expr: Expr) -> Self {
        Self::Expr(expr)
    }
}

/// A value and the state in which it came about.
pub struct Evaluated {
    pub state: State,
    pub bits: Bits,
}

impl Input {
    /// Every register that the input names exists.
    pub open spec fn valid(self) -> bool
        decreases self,
    {
        match self {
            Input::Register(register) => register.0 < SLOTS,
            Input::Immediate(_) => true,
            Input::Expr(expr) => expr.valid(),
        }
    }

    /// The value of the input in `st`, and the state that evaluating it leaves.
    pub open spec fn value(self, st: State) -> Evaluated
        decreases self,
    {
        match self {
            Input::Register(register) => Evaluated { state: st, bits: st.regs[register.0 as int] },
            Input::Immediate(bits) => Evaluated { state: st, bits },
            Input::Expr(expr) => expr.value(st),
        }
    }

    /// Whether every register that the input names exists.
    pub fn is_valid(&self) -> (ok: bool)
        ensures
            ok == self.valid(),
        decreases self,
    {
        match self {
            Input::Register(register) => register.0 < SLOTS,
            Input::Immediate(_) => true,
            Input::Expr(expr) => expr.is_valid(),
        }
    }

    /// Evaluates the input using the given [`Context`].
    pub fn eval(&self, context: &mut Context) -> (bits: Bits)
        requires
            old(context)@.wf(),
            self.valid(),
        ensures
            final(context)@ == self.value(old(context)@).state,
            bits == self.value(old(context)@).bits,
            final(context)@.wf(),
        decreases self,
    {
        match self {
            Input::Register(register) => context.get_reg(register.0),
            Input::Immediate(bits) => *bits,
            Input::Expr(expr) => expr.execute(context),
        }
    }
}

impl Expr {
    /// Every register that the expression names exists.
    pub open spec fn valid(self) -> bool
        decreases self,
    {
        self.result.0 < SLOTS && self.lhs.valid() && self.rhs.valid()
    }

    /// The value of the expression in `st`, and the state that evaluating
    /// it leaves.
    pub open spec fn value(self, st: State) -> Evaluated
        decreases self,
    {
        let lhs = self.lhs.value(st);
        let rhs = self.rhs.value(lhs.state);
        let bits = self.op.apply(lhs.bits, rhs.bits);
        Evaluated { state: rhs.state.store(Loc::Reg(self.result.0 as int), bits), bits }
    }

    /// Whether every register that the expression names exists.
    pub fn is_valid(&self) -> (ok: bool)
        ensures
            ok == self.valid(),
        decreases self,
    {
        self.result.0 < SLOTS && self.lhs.is_valid() && self.rhs.is_valid()
    }

    /// Executes the given expression using the given [`Context`].
    pub fn execute(&self, context: &mut Context) -> (bits: Bits)
        requires
            old(context)@.wf(),
            self.valid(),
        ensures
            final(context)@ == self.value(old(context)@).state,
            bits == self.value(old(context)@).bits,
            final(context)@.wf(),
        decreases self,
    {
        let lhs = self.lhs.eval(context);
        let rhs = self.rhs.eval(context);
        let new_value = self.op.compute(lhs, rhs);
        context.set_reg(self.result.0, new_value);
        new_value
    }

    /// Creates a new [`Expr`] from the operation and its operands.
    pub fn new(op: BinOp, result: Register, lhs: Input, rhs: Input) -> (expr: Self)
        ensures
            expr == (Expr { op, result, lhs: Box::new(lhs), rhs: Box::new(rhs) }),
    {
        Self { op, result, lhs: Box::new(lhs), rhs: Box::new(rhs) }
    }

    pub fn add<S0, S1>(result: Register, lhs: S0, rhs: S1) -> (expr: Self)
        where
            S0: Eval,
            S1: Eval,
        ensures
            expr == (Expr { op: BinOp::Add, result, lhs: Box::new(lhs.input()), rhs: Box::new(rhs.input()) }),
    {
        Self::new(BinOp::Add, result, lhs.into_input(), rhs.into_input())
    }

    pub fn sub<S0, S1>(result: Register, lhs: S0, rhs: S1) -> (expr: Self)
        where
            S0: Eval,
            S1: Eval,
        ensures
            expr == (Expr { op: BinOp::Sub, result, lhs: Box::new(lhs.input()), rhs: Box::new(rhs.input()) }),
    {
        Self::new(BinOp::Sub, result, lhs.into_input(), rhs.into_input())
    }

    pub fn mul<S0, S1>(result: Register, lhs: S0, rhs: S1) -> (expr: Self)
        where
            S0: Eval,
            S1: Eval,
        ensures
            expr == (Expr { op: BinOp::Mul, result, lhs: Box::new(lhs.input()), rhs: Box::new(rhs.input()) }),
    {
        Self::new(BinOp::Mul, result, lhs.into_input(), rhs.into_input())
    }
}

/// Something that has a value in a [`Context`] and can stand as an operand.
pub trait Eval: Sized {
    /// The operand that this value stands as.
    spec fn input(self) -> Input;

    fn eval(&self, context: &mut Context) -> (bits: Bits)
        requires
            old(context)@.wf(),
            (*self).input().valid(),
        ensures
            final(context)@ == (*self).input().value(old(context)@).state,
            bits == (*self).input().value(old(context)@).bits,
            final(context)@.wf(),
    ;

    fn into_input(self) -> (input: Input)
        ensures
            input == self.input(),
    ;
}

impl Eval for Register {
    open spec fn input(self) -> Input {
        Input::Register(self)
    }

    fn eval(&self, context: &mut Context) -> (bits: Bits) {
        context.get_reg(self.0)
    }

    fn into_input(self) -> (input: Input) {
        Input::from(self)
    }
}

impl Eval for Bits {
    open spec fn input(self) -> Input {
        Input::Immediate(self)
    }

    fn eval(&self, context: &mut Context) -> (bits: Bits) {
        *self
    }

    fn into_input(self) -> (input: Input) {
        Input::from(self)
    }
}

impl Eval for Expr {
    open spec fn input(self) -> Input {
        Input::Expr(self)
    }

    fn eval(&self, context: &mut Context) -> (bits: Bits) {
        self.execute(context)
    }

    fn into_input(self) -> (input: Input) {
        Input::from(self)
    }
}

/// What an instruction does when it is called, with everything it needs.
pub enum Handler {
    /// Evaluates the expression for what it stores.
    Exec(Expr),
    /// Stores the value of the input into the register.
    LocalSet(Register, Input),
    /// Returns where the expression's value is zero.
    BranchEqz(Expr),
    /// Executes the instructions one after another, until one returns.
    BasicBlock(Vec<Inst>),
    /// Executes the body again and again, until it returns.
    LoopBlock(Box<Inst>),
    /// Puts the register's value into register 0, and returns.
    Ret(Register),
}

/// An instruction that carries its own behaviour.
pub struct Inst {
    /// The handler stores everything required for the instruction execution.
    pub handler: Handler,
}

/// How an execution ended, and in what state.
pub struct Ran {
    pub state: State,
    pub outcome: Outcome,
}

/// What executing the instructions of a block from index `from` on does in
/// `st`, where `fuel` nested executions are enough for it.
pub open spec fn run_block(insts: Seq<Inst>, from: nat, st: State, fuel: nat) -> Option<Ran>
    decreases fuel, 0nat,
{
    if from >= insts.len() {
        Some(Ran { state: st, outcome: Outcome::Continue })
    } else if fuel == 0 {
        None
    } else {
        match insts[from as int].run(st, (fuel - 1) as nat) {
            None => None,
            Some(ran) => if ran.outcome == Outcome::Return {
                Some(ran)
            } else {
                run_block(insts, from + 1, ran.state, (fuel - 1) as nat)
            },
        }
    }
}

/// Fuel beyond what is enough changes nothing, for the rest of a block.
pub proof fn lemma_block_more_fuel(insts: Seq<Inst>, from: nat, st: State, fuel: nat, more: nat)
    requires
        run_block(insts, from, st, fuel) is Some,
        fuel <= more,
    ensures
        run_block(insts, from, st, more) == run_block(insts, from, st, fuel),
    decreases fuel, 0nat,
{
    if from < insts.len() {
        let first = insts[from as int];
        first.lemma_more_fuel(st, (fuel - 1) as nat, (more - 1) as nat);
        let ran = first.run(st, (fuel - 1) as nat).unwrap();
        if ran.outcome != Outcome::Return {
            lemma_block_more_fuel(insts, from + 1, ran.state, (fuel - 1) as nat, (more - 1) as nat);
        }
    }
}

impl Inst {
    /// Fuel beyond what is enough changes nothing.
    pub proof fn lemma_more_fuel(self, st: State, fuel: nat, more: nat)
        requires
            self.run(st, fuel) is Some,
            fuel <= more,
        ensures
            self.run(st, more) == self.run(st, fuel),
        decreases fuel, 1nat,
    {
        match self.handler {
            Handler::BasicBlock(insts) => {
                lemma_block_more_fuel(insts@, 0, st, fuel, more);
            },
            Handler::LoopBlock(body) => {
                body.lemma_more_fuel(st, (fuel - 1) as nat, (more - 1) as nat);
                let ran = body.run(st, (fuel - 1) as nat).unwrap();
                if ran.outcome != Outcome::Return {
                    self.lemma_more_fuel(ran.state, (fuel - 1) as nat, (more - 1) as nat);
                }
            },
            _ => {},
        }
    }

    /// What the instruction does with any fuel that is enough is how it ends.
    pub proof fn lemma_ran(self, st: State, fuel: nat)
        requires
            self.run(st, fuel) is Some,
        ensures
            self.terminates(st),
            self.run(st, fuel) == Some(self.ran(st)),
    {
        let chosen = choose|fuel: nat| self.run(st, fuel) is Some;
        if chosen <= fuel {
            self.lemma_more_fuel(st, chosen, fuel);
        } else {
            self.lemma_more_fuel(st, fuel, chosen);
        }
    }
}

impl Inst {
    /// Every register that the instruction names exists, in whatever block or
    /// loop it names it.
    pub open spec fn valid(self) -> bool
        decreases self,
    {
        match self.handler {
            Handler::Exec(expr) => expr.valid(),
            Handler::LocalSet(result, input) => result.0 < SLOTS && input.valid(),
            Handler::BranchEqz(condition) => condition.valid(),
            Handler::BasicBlock(insts) => forall|i: int| 0 <= i < insts@.len() ==> (#[trigger] insts@[i]).valid(),
            Handler::LoopBlock(body) => body.valid(),
            Handler::Ret(result) => result.0 < SLOTS,
        }
    }

    /// Whether every register that the instruction names exists.
    pub fn is_valid(&self) -> (ok: bool)
        ensures
            ok == self.valid(),
        decreases self,
    {
        match &self.handler {
            Handler::Exec(expr) => expr.is_valid(),
            Handler::LocalSet(result, input) => result.0 < SLOTS && input.is_valid(),
            Handler::BranchEqz(condition) => condition.is_valid(),
            Handler::BasicBlock(insts) => {
                let mut i: usize = 0;
                while i < insts.len()
                    invariant
                        i <= insts@.len(),
                        self.handler == Handler::BasicBlock(*insts),
                        forall|j: int| 0 <= j < i ==> (#[trigger] insts@[j]).valid(),
                    decreases insts@.len() - i,
                {
                    proof {
                        // The block is part of the handler, and the instruction part of the block.
                        let block = self.handler->BasicBlock_0;
                        assert(decreases_to!(self.handler => block));
                        assert(decreases_to!(block => block[i as int]));
                    }
                    if !insts[i].is_valid() {
                        return false;
                    }
                    i += 1;
                }
                true
            },
            Handler::LoopBlock(body) => body.is_valid(),
            Handler::Ret(result) => result.0 < SLOTS,
        }
    }
}

impl Inst {
    /// What executing the instruction does in `st`: `None` where `fuel`
    /// nested executions (of instructions in blocks, and of loop bodies) are
    /// not enough for it.
    pub open spec fn run(self, st: State, fuel: nat) -> Option<Ran>
        decreases fuel, 1nat,
    {
        match self.handler {
            Handler::Exec(expr) => Some(Ran { state: expr.value(st).state, outcome: Outcome::Continue }),
            Handler::LocalSet(result, input) => {
                let v = input.value(st);
                Some(Ran { state: v.state.store(Loc::Reg(result.0 as int), v.bits), outcome: Outcome::Continue })
            },
            Handler::BranchEqz(condition) => {
                let v = condition.value(st);
                Some(Ran { state: v.state, outcome: if v.bits == 0 { Outcome::Return } else { Outcome::Continue } })
            },
            Handler::BasicBlock(insts) => run_block(insts@, 0, st, fuel),
            Handler::LoopBlock(body) => if fuel == 0 {
                None
            } else {
                match body.run(st, (fuel - 1) as nat) {
                    None => None,
                    Some(ran) => if ran.outcome == Outcome::Return {
                        Some(ran)
                    } else {
                        self.run(ran.state, (fuel - 1) as nat)
                    },
                }
            },
            Handler::Ret(result) => Some(
                Ran { state: st.store(Loc::Reg(0), st.regs[result.0 as int]), outcome: Outcome::Return },
            ),
        }
    }

    /// From `st`, the instruction comes to an end: no loop in it goes on
    /// for ever.
    pub open spec fn terminates(self, st: State) -> bool {
        exists|fuel: nat| self.run(st, fuel) is Some
    }

    /// How the instruction ends from `st`, and in what state.
    pub open spec fn ran(self, st: State) -> Ran {
        self.run(st, choose|fuel: nat| self.run(st, fuel) is Some).unwrap()
    }

    /// Executes the instruction with a bound on the nested executions that
    /// is known to be enough.
    fn execute_within(&self, context: &mut Context, Ghost(fuel): Ghost<nat>) -> (outcome: Outcome)
        requires
            old(context)@.wf(),
            self.valid(),
            self.run(old(context)@, fuel) is Some,
        ensures
            self.run(old(context)@, fuel) == Some(Ran { state: final(context)@, outcome }),
            final(context)@.wf(),
        decreases fuel,
    {
        match &self.handler {
            Handler::Exec(expr) => {
                expr.eval(context);
                Outcome::Continue
            },
            Handler::LocalSet(result, input) => {
                let new_value = input.eval(context);
                context.set_reg(result.0, new_value);
                Outcome::Continue
            },
            Handler::BranchEqz(condition) => {
                let condition = condition.execute(context);
                if condition == 0 {
                    Outcome::Return
                } else {
                    Outcome::Continue
                }
            },
            Handler::BasicBlock(insts) => {
                let ghost mut left = fuel;
                let mut i: usize = 0;
                while i < insts.len()
                    invariant
                        i <= insts@.len(),
                        left <= fuel,
                        context@.wf(),
                        self.handler == Handler::BasicBlock(*insts),
                        forall|j: int| 0 <= j < insts@.len() ==> (#[trigger] insts@[j]).valid(),
                        run_block(insts@, i as nat, context@, left) is Some,
                        run_block(insts@, i as nat, context@, left) == run_block(insts@, 0, old(context)@, fuel),
                    decreases insts@.len() - i,
                {
                    match insts[i].execute_within(context, Ghost((left - 1) as nat)) {
                        Outcome::Continue => {},
                        Outcome::Return => return Outcome::Return,
                    }
                    i += 1;
                    proof {
                        left = (left - 1) as nat;
                    }
                }
                Outcome::Continue
            },
            Handler::LoopBlock(body) => {
                let ghost mut left = fuel;
                loop
                    invariant
                        left <= fuel,
                        context@.wf(),
                        self.handler == Handler::LoopBlock(*body),
                        body.valid(),
                        self.run(context@, left) is Some,
                        self.run(context@, left) == self.run(old(context)@, fuel),
                    decreases left,
                {
                    match body.execute_within(context, Ghost((left - 1) as nat)) {
                        Outcome::Continue => {},
                        Outcome::Return => return Outcome::Return,
                    }
                    proof {
                        left = (left - 1) as nat;
                    }
                }
            },
            Handler::Ret(result) => crate::handler::ret(context, result.0),
        }
    }

    /// Executes the given instruction using the given [`Context`].
    pub fn execute(&self, context: &mut Context) -> (outcome: Outcome)
        requires
            old(context)@.wf(),
            self.valid(),
            self.terminates(old(context)@),
        ensures
            self.ran(old(context)@) == (Ran { state: final(context)@, outcome }),
            final(context)@.wf(),
    {
        let ghost fuel = choose|fuel: nat| self.run(context@, fuel) is Some;
        self.execute_within(context, Ghost(fuel))
    }

    /// Creates a new [`Inst`] from the given handler.
    pub fn new(handler: Handler) -> (inst: Self)
        ensures
            inst.handler == handler,
    {
        Self { handler }
    }

    pub fn exec(expr: Expr) -> (inst: Self)
        ensures
            inst.handler == Handler::Exec(expr),
    {
        Self::new(Handler::Exec(expr))
    }

    pub fn local_set<I>(result: Register, input: I) -> (inst: Self)
        where
            I: Eval,
        ensures
            inst.handler == Handler::LocalSet(result, input.input()),
    {
        Self::new(Handler::LocalSet(result, input.into_input()))
    }

    /// Returns if the value of `condition` is zero.
    pub fn branch_eqz(condition: Expr) -> (inst: Self)
        ensures
            inst.handler == Handler::BranchEqz(condition),
    {
        Self::new(Handler::BranchEqz(condition))
    }

    /// Executes all the instructions in the basic block one after another.
    pub fn basic_block(insts: Vec<Inst>) -> (inst: Self)
        ensures
            inst.handler == Handler::BasicBlock(insts),
    {
        Self::new(Handler::BasicBlock(insts))
    }

    /// Loops the body until it returns.
    pub fn loop_block(body: Inst) -> (inst: Self)
        ensures
            inst.handler == Handler::LoopBlock(Box::new(body)),
    {
        Self::new(Handler::LoopBlock(Box::new(body)))
    }

    /// Returns execution of the function and returns the result in `result`.
    pub fn ret(result: Register) -> (inst: Self)
        ensures
            inst.handler == Handler::Ret(result),
    {
        Self::new(Handler::Ret(result))
    }
}

} // verus!
