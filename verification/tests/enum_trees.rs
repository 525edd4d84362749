use dispatch_vm::enum_tree::{execute, Expr, Global, Immediate, Inst, Label, Register};
use dispatch_vm::{Context, Outcome};

#[test]
fn enum_tree_counter_loop() {
    let repetitions = 100_000_000;
    let insts = vec![
        // Store `repetitions` into r0.
        Inst::LocalSet {
            register: Register(0),
            expr: Expr::Immediate { immediate: Immediate(repetitions) },
        },
        // Decrease r0 by 1, and branch to the end if it is zero.
        Inst::BranchIf {
            label: Label(3),
            condition: Expr::LocalTee {
                register: Register(0),
                new_value: Box::new(Expr::SubRi { lhs: Register(0), rhs: Immediate(1) }),
            },
        },
        // Jump back to the loop header.
        Inst::Branch { label: Label(1) },
        // Return value and end function execution.
        Inst::Return { result: Expr::LocalGet { register: Register(0) } },
    ];
    let mut context = Context::default();
    execute(&insts, &mut context);
    assert_eq!(context.get_reg(0), 0);
}

#[test]
fn enum_tree_expressions() {
    let mut context = Context::default();
    context.set_reg(1, 6);
    context.set_reg(2, 7);
    let r1 = Register(1);
    let r2 = Register(2);
    assert_eq!(Expr::Immediate { immediate: Immediate(3) }.evaluate(&mut context), 3);
    assert_eq!(Expr::LocalGet { register: r2 }.evaluate(&mut context), 7);
    assert_eq!(Expr::AddRr { lhs: r1, rhs: r2 }.evaluate(&mut context), 13);
    assert_eq!(Expr::SubRr { lhs: r1, rhs: r2 }.evaluate(&mut context), u64::MAX);
    assert_eq!(Expr::MulRr { lhs: r1, rhs: r2 }.evaluate(&mut context), 42);
    assert_eq!(Expr::AddRi { lhs: r1, rhs: Immediate(u64::MAX) }.evaluate(&mut context), 5);
    assert_eq!(Expr::SubRi { lhs: r1, rhs: Immediate(2) }.evaluate(&mut context), 4);
    assert_eq!(Expr::MulRi { lhs: r1, rhs: Immediate(1 << 63) }.evaluate(&mut context), 0);
    let get2 = || Box::new(Expr::LocalGet { register: Register(2) });
    let imm = |bits: u64| Box::new(Expr::Immediate { immediate: Immediate(bits) });
    assert_eq!(Expr::AddRe { lhs: r1, rhs: get2() }.evaluate(&mut context), 13);
    assert_eq!(Expr::SubRe { lhs: r2, rhs: imm(2) }.evaluate(&mut context), 5);
    assert_eq!(Expr::MulRe { lhs: r2, rhs: get2() }.evaluate(&mut context), 49);
    assert_eq!(Expr::AddIe { lhs: Immediate(1), rhs: get2() }.evaluate(&mut context), 8);
    assert_eq!(Expr::SubIe { lhs: Immediate(1), rhs: get2() }.evaluate(&mut context), u64::MAX - 5);
    assert_eq!(Expr::MulIe { lhs: Immediate(3), rhs: get2() }.evaluate(&mut context), 21);
    assert_eq!(Expr::AddEe { lhs: imm(1), rhs: imm(2) }.evaluate(&mut context), 3);
    assert_eq!(Expr::SubEe { lhs: imm(1), rhs: imm(2) }.evaluate(&mut context), u64::MAX);
    assert_eq!(Expr::MulEe { lhs: get2(), rhs: imm(2) }.evaluate(&mut context), 14);
    // Nothing was stored so far.
    assert_eq!(context.get_reg(1), 6);
    assert_eq!(context.get_reg(2), 7);
    // `LocalTee` stores, and a register operand on the left is read before
    // the expression on the right stores into it.
    let tee = Expr::LocalTee { register: r1, new_value: imm(100) };
    let expr = Expr::AddRe { lhs: r1, rhs: Box::new(tee) };
    assert_eq!(expr.evaluate(&mut context), 106);
    assert_eq!(context.get_reg(1), 100);
    // With the storing expression on the left, the right one sees the new value.
    let tee = Expr::LocalTee { register: r1, new_value: imm(1) };
    let expr = Expr::SubEe { lhs: Box::new(tee), rhs: Box::new(Expr::LocalGet { register: r1 }) };
    assert_eq!(expr.evaluate(&mut context), 0);
    assert_eq!(context.get_reg(1), 1);
}

#[test]
fn enum_tree_instructions() {
    let mut context = Context::default();
    let set = Inst::LocalSet { register: Register(3), expr: Expr::Immediate { immediate: Immediate(8) } };
    assert_eq!(set.execute(&mut context), Outcome::Continue);
    assert_eq!(context.get_reg(3), 8);
    assert_eq!(context.pc(), 1);
    let set = Inst::GlobalSet { global: Global(2), expr: Expr::AddRi { lhs: Register(3), rhs: Immediate(1) } };
    assert_eq!(set.execute(&mut context), Outcome::Continue);
    assert_eq!(context.get_global(2), 9);
    assert_eq!(context.get_reg(2), 0);
    assert_eq!(context.pc(), 2);
    assert_eq!(Inst::Branch { label: Label(7) }.execute(&mut context), Outcome::Continue);
    assert_eq!(context.pc(), 7);
    let taken = Inst::BranchIf { label: Label(1), condition: Expr::LocalGet { register: Register(0) } };
    assert_eq!(taken.execute(&mut context), Outcome::Continue);
    assert_eq!(context.pc(), 1);
    let not_taken = Inst::BranchIf { label: Label(5), condition: Expr::LocalGet { register: Register(3) } };
    assert_eq!(not_taken.execute(&mut context), Outcome::Continue);
    assert_eq!(context.pc(), 2);
    let ret = Inst::Return { result: Expr::MulRi { lhs: Register(3), rhs: Immediate(2) } };
    assert_eq!(ret.execute(&mut context), Outcome::Return);
    assert_eq!(context.get_reg(0), 16);
    assert_eq!(context.pc(), 2);
}
