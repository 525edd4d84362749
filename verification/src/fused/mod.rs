//! Instructions whose operands may be registers, globals or constants, in
//! a dynamic form and in forms specialized by operand kind.
use vstd::prelude::*;

pub mod ct;
pub mod ct2;
pub mod ct3;
pub mod rt;
pub mod rt2;

use crate::machine::{Loc, State, Val, SLOTS};
use crate::{Outcome, Target};

verus! {

pub type Bits = u64;

/// An execution context with a program counter, registers and globals.
pub struct Context {
    pc: usize,
    regs: Vec<Bits>,
    globals: Vec<Bits>,
}

impl View for Context {
    type V = State;

    closed spec fn view(&self) -> State {
        State { pc: self.pc as int, regs: self.regs@, globals: self.globals@ }
    }
}

impl Default for Context {
    fn default() -> (r: Self)
        ensures
            r@ == State::init(),
    {
        let r = Self { pc: 0, regs: vec![0x00; 16], globals: vec![0x00; 16] };
        assert(r.regs@ =~= State::init().regs);
        assert(r.globals@ =~= State::init().globals);
        r
    }
}

impl Context {
    /// The index of the instruction to execute next.
    pub fn pc(&self) -> (pc: usize)
        ensures
            pc == self@.pc,
    {
        self.pc
    }

    pub fn next_inst(&mut self) -> (outcome: Outcome)
        requires
            old(self)@.pc < usize::MAX,
        ensures
            final(self)@ == old(self)@.advance(),
            outcome == Outcome::Continue,
    {
        self.pc += 1;
        Outcome::Continue
    }

    pub fn branch_to(&mut self, target: Target) -> (outcome: Outcome)
        ensures
            final(self)@ == old(self)@.jump(target as int),
            outcome == Outcome::Continue,
    {
        self.pc = target;
        Outcome::Continue
    }

    pub fn set_reg(&mut self, reg: Register, new_value: Bits)
        requires
            old(self)@.wf(),
            reg@.valid(),
        ensures
            final(self)@ == old(self)@.store(Loc::Reg(reg.0 as int), new_value),
    {
        let reg = reg.into_usize();
        self.regs.set(reg, new_value);
    }

    pub fn get_reg(&self, reg: Register) -> (bits: Bits)
        requires
            self@.wf(),
            reg@.valid(),
        ensures
            bits == self@.load(reg@),
    {
        let reg = reg.into_usize();
        self.regs[reg]
    }

    pub fn set_global(&mut self, global: Global, new_value: Bits)
        requires
            old(self)@.wf(),
            global@.valid(),
        ensures
            final(self)@ == old(self)@.store(Loc::Glob(global.0 as int), new_value),
    {
        let global = global.into_usize();
        self.globals.set(global, new_value);
    }

    pub fn get_global(&self, global: Global) -> (bits: Bits)
        requires
            self@.wf(),
            global@.valid(),
        ensures
            bits == self@.load(global@),
    {
        let global = global.into_usize();
        self.globals[global]
    }
}

/// The index of a register.
#[derive(Copy, Clone)]
pub struct Register(pub usize);

impl View for Register {
    type V = Val;

    open spec fn view(&self) -> Val {
        Val::Reg(self.0 as int)
    }
}

impl Register {
    /// Whether the register exists.
    pub fn is_valid(&self) -> (ok: bool)
        ensures
            ok == self@.valid(),
    {
        self.0 < SLOTS
    }

    pub fn into_usize(self) -> (index: usize)
        ensures
            index == self.0,
    {
        self.0
    }
}

/// The index of a global.
#[derive(Copy, Clone)]
pub struct Global(pub usize);

impl View for Global {
    type V = Val;

    open spec fn view(&self) -> Val {
        Val::Glob(self.0 as int)
    }
}

impl Global {
    /// Whether the global exists.
    pub fn is_valid(&self) -> (ok: bool)
        ensures
            ok == self@.valid(),
    {
        self.0 < SLOTS
    }

    pub fn into_usize(self) -> (index: usize)
        ensures
            index == self.0,
    {
        self.0
    }
}

/// A constant operand.
#[derive(Copy, Clone)]
pub struct Const(pub Bits);

impl View for Const {
    type V = Val;

    open spec fn view(&self) -> Val {
        Val::Const(self.0)
    }
}

impl Const {
    pub fn into_bits(self) -> (bits: Bits)
        ensures
            bits == self.0,
    {
        self.0
    }
}

} // verus!
