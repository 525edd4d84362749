//! A small register machine and a family of interchangeable engines that
//! execute its programs.
use vstd::prelude::*;

pub mod closure_loop;
pub mod closure_tail;
pub mod closure_tail_2;
pub mod closure_tree;
pub mod enum_tree;
pub mod fused;
pub mod handler;
pub mod machine;
pub mod switch;
pub mod switch_2;
pub mod switch_tail;
pub mod switch_tail_2;

use crate::machine::{Loc, State, Val, SLOTS};

verus! {

pub type Register = usize;

pub type Bits = u64;

pub type Target = usize;

/// The outcome of an instruction execution.
#[derive(Copy, Clone, PartialEq, Eq, Structural, Debug)]
pub enum Outcome {
    /// Continue with the next instruction pointed to by the `pc`.
    Continue,
    /// Return function execution.
    Return,
}

/// A simple execution context with a program counter, some registers and
/// some globals.
pub struct Context {
    pc: usize,
    regs: Vec<Bits>,
    globals: Vec<Bits>,
}

impl View for Context {
    type V = State;

    closed spec fn view(&self) -> State {
        State { pc: self.pc as int, regs: self.regs@, globals: self.globals@ }
    }
}

impl Default for Context {
    fn default() -> (r: Self)
        ensures
            r@ == State::init(),
    {
        let r = Self { pc: 0, regs: vec![0x00; 16], globals: vec![0x00; 16] };
        assert(r.regs@ =~= State::init().regs);
        assert(r.globals@ =~= State::init().globals);
        r
    }
}

impl Context {
    /// The index of the instruction to execute next.
    pub fn pc(&self) -> (pc: usize)
        ensures
            pc == self@.pc,
    {
        self.pc
    }

    /// Sets the register `reg` to the `new_value`.
    pub fn set_reg(&mut self, reg: Register, new_value: Bits)
        requires
            old(self)@.wf(),
            reg < SLOTS,
        ensures
            final(self)@ == old(self)@.store(Loc::Reg(reg as int), new_value),
    {
        self.regs.set(reg, new_value);
    }

    /// Returns the current value of `reg`.
    pub fn get_reg(&self, reg: Register) -> (bits: Bits)
        requires
            self@.wf(),
            reg < SLOTS,
        ensures
            bits == self@.load(Val::Reg(reg as int)),
    {
        self.regs[reg]
    }

    /// Sets the global `global` to the `new_value`.
    pub fn set_global(&mut self, global: usize, new_value: Bits)
        requires
            old(self)@.wf(),
            global < SLOTS,
        ensures
            final(self)@ == old(self)@.store(Loc::Glob(global as int), new_value),
    {
        self.globals.set(global, new_value);
    }

    /// Returns the current value of `global`.
    pub fn get_global(&self, global: usize) -> (bits: Bits)
        requires
            self@.wf(),
            global < SLOTS,
        ensures
            bits == self@.load(Val::Glob(global as int)),
    {
        self.globals[global]
    }

    /// Sets the `pc` to point to the `new_pc`.
    pub fn branch_to(&mut self, new_pc: usize) -> (outcome: Outcome)
        ensures
            final(self)@ == old(self)@.jump(new_pc as int),
            outcome == Outcome::Continue,
    {
        self.pc = new_pc;
        Outcome::Continue
    }

    /// Advance the `pc` to the next instruction.
    pub fn next_inst(&mut self) -> (outcome: Outcome)
        requires
            old(self)@.pc < usize::MAX,
        ensures
            final(self)@ == old(self)@.advance(),
            outcome == Outcome::Continue,
    {
        self.pc += 1;
        Outcome::Continue
    }
}

} // verus!
