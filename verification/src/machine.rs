//! The mathematical model of the register machine: its state, the meaning of
//! one instruction, and what it means for a program to run until it returns.
use vstd::prelude::*;

verus! {

/// The number of registers, and the number of globals, of every machine.
pub const SLOTS: usize = 16;

/// A machine state: the program counter and the two stores.
pub struct State {
    pub pc: int,
    pub regs: Seq<u64>,
    pub globals: Seq<u64>,
}

/// Something a value can be loaded from.
pub enum Val {
    Const(u64),
    Reg(int),
    Glob(int),
}

/// Something a value can be stored to.
pub enum Loc {
    Reg(int),
    Glob(int),
}

/// The binary operations of the instruction set.
#[derive(Copy, Clone)]
pub enum BinOp {
    Add,
    Sub,
    Mul,
    Eq,
    Ne,
}

/// The meaning of one flat instruction, whatever engine carries it.
#[allow(inconsistent_fields)]
pub enum Op {
    Bin { op: BinOp, result: Loc, lhs: Val, rhs: Val },
    Branch { target: int },
    BranchEqz { target: int, condition: Val },
    Return { result: Val },
}

/// Reduction of an integer to a machine word, modulo 2^64.
pub open spec fn wrap(v: int) -> u64 {
    (v % 0x1_0000_0000_0000_0000) as u64
}

impl BinOp {
    pub open spec fn apply(self, lhs: u64, rhs: u64) -> u64 {
        match self {
            BinOp::Add => wrap(lhs + rhs),
            BinOp::Sub => wrap(lhs - rhs),
            BinOp::Mul => wrap(lhs * rhs),
            BinOp::Eq => if lhs == rhs { 1u64 } else { 0u64 },
            BinOp::Ne => if lhs != rhs { 1u64 } else { 0u64 },
        }
    }
}

impl Val {
    pub open spec fn valid(self) -> bool {
        match self {
            Val::Const(_) => true,
            Val::Reg(i) => 0 <= i < SLOTS,
            Val::Glob(i) => 0 <= i < SLOTS,
        }
    }
}

impl Loc {
    pub open spec fn valid(self) -> bool {
        match self {
            Loc::Reg(i) => 0 <= i < SLOTS,
            Loc::Glob(i) => 0 <= i < SLOTS,
        }
    }
}

impl State {
    /// Both stores have all their slots.
    pub open spec fn wf(self) -> bool {
        self.regs.len() == SLOTS && self.globals.len() == SLOTS
    }

    /// The state every execution starts from: everything zero.
    pub open spec fn init() -> State {
        State { pc: 0, regs: Seq::new(SLOTS as nat, |i: int| 0u64), globals: Seq::new(SLOTS as nat, |i: int| 0u64) }
    }

    pub open spec fn load(self, v: Val) -> u64 {
        match v {
            Val::Const(bits) => bits,
            Val::Reg(i) => self.regs[i],
            Val::Glob(i) => self.globals[i],
        }
    }

    pub open spec fn store(self, l: Loc, bits: u64) -> State {
        match l {
            Loc::Reg(i) => State { regs: self.regs.update(i, bits), ..self },
            Loc::Glob(i) => State { globals: self.globals.update(i, bits), ..self },
        }
    }

    pub open spec fn advance(self) -> State {
        State { pc: self.pc + 1, ..self }
    }

    pub open spec fn jump(self, target: int) -> State {
        State { pc: target, ..self }
    }
}

impl State {
    /// The state with register 0 held apart, as `reg0`, put back in its slot.
    pub open spec fn promote(self, reg0: u64) -> State {
        State { regs: self.regs.update(0, reg0), ..self }
    }
}

impl Val {
    pub open spec fn avoids_reg0(self) -> bool {
        self != Val::Reg(0)
    }
}

/// What an instruction type has to say of itself for the machine to run
/// programs made of it.
pub trait Semantics: Sized {
    /// The instruction names only slots that exist, and only targets below `len`.
    spec fn valid(self, len: nat) -> bool;

    /// The instruction ends the execution.
    spec fn ends(self) -> bool;

    /// The state that executing the instruction once leaves.
    spec fn step(self, st: State) -> State;
}

impl Op {
    /// Every register and global that the instruction names exists.
    pub open spec fn operands_valid(self) -> bool {
        match self {
            Op::Bin { op, result, lhs, rhs } => result.valid() && lhs.valid() && rhs.valid(),
            Op::Branch { target } => true,
            Op::BranchEqz { target, condition } => condition.valid(),
            Op::Return { result } => result.valid(),
        }
    }

    /// The branch target, if the instruction has one, is below `len`.
    pub open spec fn target_below(self, len: nat) -> bool {
        match self {
            Op::Branch { target } => 0 <= target < len,
            Op::BranchEqz { target, condition } => 0 <= target < len,
            _ => true,
        }
    }
}

impl Op {
    /// The instruction neither reads nor writes register 0.
    pub open spec fn avoids_reg0(self) -> bool {
        match self {
            Op::Bin { op, result, lhs, rhs } => result != Loc::Reg(0) && lhs.avoids_reg0() && rhs.avoids_reg0(),
            Op::Branch { target } => true,
            Op::BranchEqz { target, condition } => condition.avoids_reg0(),
            Op::Return { result } => false,
        }
    }
}

impl Semantics for Op {
    open spec fn valid(self, len: nat) -> bool {
        self.operands_valid() && self.target_below(len)
    }

    open spec fn ends(self) -> bool {
        self is Return
    }

    open spec fn step(self, st: State) -> State {
        match self {
            Op::Bin { op, result, lhs, rhs } => st.store(result, op.apply(st.load(lhs), st.load(rhs))).advance(),
            Op::Branch { target } => st.jump(target),
            Op::BranchEqz { target, condition } => if st.load(condition) == 0 {
                st.jump(target)
            } else {
                st.advance()
            },
            Op::Return { result } => st.store(Loc::Reg(0), st.load(result)),
        }
    }
}

/// Every instruction of the program is valid for the program's length.
pub open spec fn well_formed<I: Semantics>(prog: Seq<I>) -> bool {
    forall|i: int| 0 <= i < prog.len() ==> (#[trigger] prog[i]).valid(prog.len())
}

/// From `st`, the program executes exactly `n` instructions that do not
/// return, never leaving its bounds, and then stands at one that returns.
pub open spec fn halts_in<I: Semantics>(prog: Seq<I>, st: State, n: nat) -> bool
    decreases n,
{
    &&& 0 <= st.pc < prog.len()
    &&& if prog[st.pc].ends() {
        n == 0
    } else {
        n > 0 && halts_in(prog, prog[st.pc].step(st), (n - 1) as nat)
    }
}

/// From `st`, the program reaches an instruction that returns.
pub open spec fn halts<I: Semantics>(prog: Seq<I>, st: State) -> bool {
    exists|n: nat| halts_in(prog, st, n)
}

/// The number of instructions executed before the one that returns.
pub open spec fn steps<I: Semantics>(prog: Seq<I>, st: State) -> nat {
    choose|n: nat| halts_in(prog, st, n)
}

/// The state after `n + 1` instructions.
pub open spec fn run<I: Semantics>(prog: Seq<I>, st: State, n: nat) -> State
    decreases n,
{
    let next = prog[st.pc].step(st);
    if n == 0 {
        next
    } else {
        run(prog, next, (n - 1) as nat)
    }
}

/// The state in which a halting execution ends: the one that the returning
/// instruction leaves.
pub open spec fn end_state<I: Semantics>(prog: Seq<I>, st: State) -> State {
    run(prog, st, steps(prog, st))
}

/// The state in which the program ends once `inst` has been executed in
/// `st` and the program has gone on from where that left it.
pub open spec fn end_state_after<I: Semantics>(prog: Seq<I>, inst: I, st: State) -> State {
    if inst.ends() {
        inst.step(st)
    } else {
        end_state(prog, inst.step(st))
    }
}

/// A halting execution has one length only.
pub proof fn lemma_halts_in_unique<I: Semantics>(prog: Seq<I>, st: State, n: nat, m: nat)
    requires
        halts_in(prog, st, n),
        halts_in(prog, st, m),
    ensures
        n == m,
    decreases n,
{
    if !prog[st.pc].ends() {
        lemma_halts_in_unique(prog, prog[st.pc].step(st), (n - 1) as nat, (m - 1) as nat);
    }
}

/// One step of a halting execution: either the current instruction returns and
/// leaves the outcome, or the execution from the next state halts one step
/// sooner with the same outcome.
pub proof fn lemma_halts_step<I: Semantics>(prog: Seq<I>, st: State)
    requires
        halts(prog, st),
    ensures
        0 <= st.pc < prog.len(),
        prog[st.pc].ends() ==> steps(prog, st) == 0 && end_state(prog, st) == prog[st.pc].step(st),
        !prog[st.pc].ends() ==> {
            let next = prog[st.pc].step(st);
            &&& halts(prog, next)
            &&& steps(prog, next) + 1 == steps(prog, st)
            &&& end_state(prog, next) == end_state(prog, st)
        },
{
    let n = steps(prog, st);
    assert(halts_in(prog, st, n));
    if !prog[st.pc].ends() {
        let next = prog[st.pc].step(st);
        assert(halts_in(prog, next, (n - 1) as nat));
        lemma_halts_in_unique(prog, next, (n - 1) as nat, steps(prog, next));
    }
}

/// The state in which the returning instruction of a halting execution
/// finds the machine.
pub open spec fn state_at_return<I: Semantics>(prog: Seq<I>, st: State) -> State {
    if steps(prog, st) == 0 {
        st
    } else {
        run(prog, st, (steps(prog, st) - 1) as nat)
    }
}

/// Where an execution halts in `n` steps, the state after those `n` steps
/// stands at an instruction that returns, and that instruction leaves what
/// `run` gives for `n`.
proof fn lemma_run_reaches_return<I: Semantics>(prog: Seq<I>, st: State, n: nat)
    requires
        halts_in(prog, st, n),
    ensures
        ({
            let at = if n == 0 { st } else { run(prog, st, (n - 1) as nat) };
            &&& 0 <= at.pc < prog.len()
            &&& prog[at.pc].ends()
            &&& run(prog, st, n) == prog[at.pc].step(at)
        }),
    decreases n,
{
    if n > 0 {
        let next = prog[st.pc].step(st);
        lemma_run_reaches_return(prog, next, (n - 1) as nat);
        if n > 1 {
            assert(run(prog, st, (n - 1) as nat) == run(prog, next, (n - 2) as nat));
        }
    }
}

/// A halting execution ends with an instruction that returns: the end state
/// is what that instruction makes of the state it finds.
pub proof fn lemma_ends_with_return<I: Semantics>(prog: Seq<I>, st: State)
    requires
        halts(prog, st),
    ensures
        0 <= state_at_return(prog, st).pc < prog.len(),
        prog[state_at_return(prog, st).pc].ends(),
        end_state(prog, st) == prog[state_at_return(prog, st).pc].step(state_at_return(prog, st)),
{
    lemma_run_reaches_return(prog, st, steps(prog, st));
}

/// The machine is still whole when a well-formed program comes to return.
proof fn lemma_wf_at_return(prog: Seq<Op>, st: State, n: nat)
    requires
        st.wf(),
        well_formed(prog),
        halts_in(prog, st, n),
    ensures
        (if n == 0 { st } else { run(prog, st, (n - 1) as nat) }).wf(),
    decreases n,
{
    if n > 0 {
        let next = prog[st.pc].step(st);
        lemma_wf_at_return(prog, next, (n - 1) as nat);
        if n > 1 {
            assert(run(prog, st, (n - 1) as nat) == run(prog, next, (n - 2) as nat));
        }
    }
}

/// A well-formed program that halts from a whole machine leaves it whole:
/// both where it comes to return and at the end.
pub proof fn lemma_end_state_wf(prog: Seq<Op>, st: State)
    requires
        st.wf(),
        well_formed(prog),
        halts(prog, st),
    ensures
        state_at_return(prog, st).wf(),
        end_state(prog, st).wf(),
{
    lemma_ends_with_return(prog, st);
    lemma_wf_at_return(prog, st, steps(prog, st));
}

/// The value that a halting program returns: at the end register 0 holds
/// what the operand of the returning instruction held when that
/// instruction was reached, the program counter still points at that
/// instruction, and nothing else has changed since.
pub proof fn lemma_return_value(prog: Seq<Op>, st: State)
    requires
        st.wf(),
        well_formed(prog),
        halts(prog, st),
    ensures
        ({
            let at = state_at_return(prog, st);
            &&& 0 <= at.pc < prog.len()
            &&& prog[at.pc] is Return
            &&& end_state(prog, st) == at.store(Loc::Reg(0), at.load(prog[at.pc]->Return_result))
            &&& end_state(prog, st).regs[0] == at.load(prog[at.pc]->Return_result)
        }),
{
    lemma_ends_with_return(prog, st);
    lemma_wf_at_return(prog, st, steps(prog, st));
}

/// The program has no way back: every branch goes to a later instruction,
/// and every instruction that can fall through has an instruction after it.
pub open spec fn forward_only(prog: Seq<Op>) -> bool {
    forall|i: int|
        0 <= i < prog.len() ==> match #[trigger] prog[i] {
            Op::Bin { .. } => i + 1 < prog.len(),
            Op::Branch { target } => i < target < prog.len(),
            Op::BranchEqz { target, .. } => i < target < prog.len() && i + 1 < prog.len(),
            Op::Return { .. } => true,
        }
}

/// A program with no way back halts from every instruction of it, whatever
/// the registers and globals hold, before it has executed as many
/// instructions as lie ahead.
pub proof fn lemma_forward_program_halts(prog: Seq<Op>, st: State)
    requires
        forward_only(prog),
        0 <= st.pc < prog.len(),
    ensures
        halts(prog, st),
        steps(prog, st) < prog.len() - st.pc,
    decreases prog.len() - st.pc,
{
    let op = prog[st.pc];
    if op.ends() {
        assert(halts_in(prog, st, 0));
        lemma_halts_in_unique(prog, st, 0, steps(prog, st));
    } else {
        let next = op.step(st);
        lemma_forward_program_halts(prog, next);
        let n = steps(prog, next);
        assert(halts_in(prog, next, n));
        assert(halts_in(prog, st, n + 1));
        lemma_halts_in_unique(prog, st, n + 1, steps(prog, st));
    }
}

/// Two programs, of whatever instruction types, that agree instruction by
/// instruction on every state behave alike: one halts in `n` steps where
/// the other does, and then in the same state.
pub proof fn lemma_same_behaviour<A: Semantics, B: Semantics>(a: Seq<A>, b: Seq<B>, st: State, n: nat)
    requires
        a.len() == b.len(),
        forall|i: int| 0 <= i < a.len() ==> (#[trigger] a[i]).ends() == b[i].ends(),
        forall|i: int, s: State| 0 <= i < a.len() ==> #[trigger] a[i].step(s) == b[i].step(s),
    ensures
        halts_in(a, st, n) == halts_in(b, st, n),
        halts_in(a, st, n) ==> run(a, st, n) == run(b, st, n),
    decreases n,
{
    if 0 <= st.pc < a.len() {
        assert(a[st.pc].ends() == b[st.pc].ends());
        assert(a[st.pc].step(st) == b[st.pc].step(st));
        if n > 0 {
            lemma_same_behaviour(a, b, a[st.pc].step(st), (n - 1) as nat);
        }
    }
}

/// Two programs that agree instruction by instruction halt from the same
/// states, and end in the same state.
pub proof fn lemma_same_end_state<A: Semantics, B: Semantics>(a: Seq<A>, b: Seq<B>, st: State)
    requires
        a.len() == b.len(),
        forall|i: int| 0 <= i < a.len() ==> (#[trigger] a[i]).ends() == b[i].ends(),
        forall|i: int, s: State| 0 <= i < a.len() ==> #[trigger] a[i].step(s) == b[i].step(s),
    ensures
        halts(a, st) == halts(b, st),
        halts(a, st) ==> end_state(a, st) == end_state(b, st),
{
    if halts(a, st) {
        let n = steps(a, st);
        lemma_same_behaviour(a, b, st, n);
        lemma_halts_in_unique(b, st, n, steps(b, st));
    }
    if halts(b, st) {
        let n = steps(b, st);
        lemma_same_behaviour(a, b, st, n);
    }
}

/// Engines are interchangeable: two sequences of instructions, of whatever
/// engines, that mean the same instruction at each place are the same
/// program, so that they are well formed together, halt from the same
/// states, and end in the same state.
pub proof fn lemma_dispatch_equivalence<A: View<V = Op>, B: View<V = Op>>(a: Seq<A>, b: Seq<B>, st: State)
    requires
        a.len() == b.len(),
        forall|i: int| 0 <= i < a.len() ==> (#[trigger] a[i])@ == b[i]@,
    ensures
        meaning(a) == meaning(b),
        well_formed(meaning(a)) == well_formed(meaning(b)),
        halts(meaning(a), st) == halts(meaning(b), st),
        end_state(meaning(a), st) == end_state(meaning(b), st),
{
    assert(meaning(a) =~= meaning(b));
}

/// Arithmetic wraps: a sum beyond 2^64 - 1 loses 2^64, a difference below
/// zero gains 2^64, and a product is reduced modulo 2^64; a result that
/// fits is left as it is.
pub proof fn lemma_arithmetic_wraps(lhs: u64, rhs: u64)
    ensures
        BinOp::Add.apply(lhs, rhs) == if lhs + rhs > u64::MAX { lhs + rhs - 0x1_0000_0000_0000_0000 } else { lhs + rhs },
        BinOp::Sub.apply(lhs, rhs) == if lhs < rhs { lhs - rhs + 0x1_0000_0000_0000_0000 } else { lhs - rhs },
        BinOp::Mul.apply(lhs, rhs) == (lhs * rhs) % 0x1_0000_0000_0000_0000,
        lhs * rhs <= u64::MAX ==> BinOp::Mul.apply(lhs, rhs) == lhs * rhs,
{
    assert(lhs * rhs >= 0) by (nonlinear_arith)
        requires
            lhs >= 0,
            rhs >= 0,
    ;
}

/// A conditional branch jumps to its target if and only if the condition
/// loads as zero; otherwise it falls through to the next instruction. Either
/// way it changes nothing but the program counter.
pub proof fn lemma_branch_eqz(target: int, condition: Val, st: State)
    ensures
        ({
            let after = (Op::BranchEqz { target, condition }).step(st);
            &&& st.load(condition) == 0 ==> after.pc == target
            &&& st.load(condition) != 0 ==> after.pc == st.pc + 1
            &&& after.regs == st.regs
            &&& after.globals == st.globals
        }),
{
}

/// An instruction that leaves register 0 alone does the same whether that
/// register's value is in its slot or held apart.
pub proof fn lemma_step_promoted(op: Op, st: State, reg0: u64)
    requires
        st.wf(),
        op.operands_valid(),
        op.avoids_reg0(),
    ensures
        op.step(st.promote(reg0)) == op.step(st).promote(reg0),
        op.step(st).regs[0] == st.regs[0],
{
    assert(op.step(st.promote(reg0)).regs =~= op.step(st).promote(reg0).regs);
}

/// The program that a sequence of instructions means, each taken by its view.
pub open spec fn meaning<T: View<V = Op>>(insts: Seq<T>) -> Seq<Op> {
    Seq::new(insts.len(), |i: int| insts[i]@)
}

/// An instruction that can be checked before a program with it is executed.
pub trait Validate: View<V = Op> + Sized {
    /// Whether the instruction names only registers and globals that exist,
    /// and only a branch target below `len`.
    fn is_valid(&self, len: usize) -> (ok: bool)
        ensures
            ok == self@.valid(len as nat),
    ;
}

/// Whether the program is well formed: whether each of its instructions is
/// valid for the program's length.
pub fn validate<T: Validate>(insts: &[T]) -> (ok: bool)
    ensures
        ok == well_formed(meaning(insts@)),
{
    let len = insts.len();
    let ghost prog = meaning(insts@);
    let mut i: usize = 0;
    while i < len
        invariant
            i <= len,
            len == insts@.len(),
            prog == meaning(insts@),
            forall|j: int| 0 <= j < i ==> (#[trigger] prog[j]).valid(prog.len()),
        decreases len - i,
    {
        if !insts[i].is_valid(len) {
            assert(!prog[i as int].valid(prog.len()));
            return false;
        }
        i += 1;
    }
    true
}

/// Addition modulo 2^64.
pub fn add_bits(lhs: u64, rhs: u64) -> (r: u64)
    ensures
        r == BinOp::Add.apply(lhs, rhs),
{
    lhs.wrapping_add(rhs)
}

/// Subtraction modulo 2^64.
pub fn sub_bits(lhs: u64, rhs: u64) -> (r: u64)
    ensures
        r == BinOp::Sub.apply(lhs, rhs),
{
    lhs.wrapping_sub(rhs)
}

/// Multiplication modulo 2^64.
pub fn mul_bits(lhs: u64, rhs: u64) -> (r: u64)
    ensures
        r == BinOp::Mul.apply(lhs, rhs),
{
    lhs.wrapping_mul(rhs)
}

impl BinOp {
    /// Computes the operation on two machine words.
    pub fn compute(&self, lhs: u64, rhs: u64) -> (r: u64)
        ensures
            r == self.apply(lhs, rhs),
    {
        match self {
            BinOp::Add => add_bits(lhs, rhs),
            BinOp::Sub => sub_bits(lhs, rhs),
            BinOp::Mul => mul_bits(lhs, rhs),
            BinOp::Eq => eq_bits(lhs, rhs),
            BinOp::Ne => ne_bits(lhs, rhs),
        }
    }
}

/// Equality as a machine word: 1 where the operands are equal, else 0.
pub fn eq_bits(lhs: u64, rhs: u64) -> (r: u64)
    ensures
        r == BinOp::Eq.apply(lhs, rhs),
{
    if lhs == rhs { 1 } else { 0 }
}

/// Inequality as a machine word: 1 where the operands differ, else 0.
pub fn ne_bits(lhs: u64, rhs: u64) -> (r: u64)
    ensures
        r == BinOp::Ne.apply(lhs, rhs),
{
    if lhs != rhs { 1 } else { 0 }
}

} // verus!
