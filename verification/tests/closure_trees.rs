use dispatch_vm::closure_tree::{Expr, Inst, Register};
use dispatch_vm::{Context, Outcome};

#[test]
fn closure_tree_counter_loop() {
    let repetitions: u64 = 100_000_000;
    let inst = Inst::basic_block(vec![
        Inst::exec(Expr::add(
            Register(0),
            Register(0),
            repetitions,
        )),
        Inst::loop_block(Inst::branch_eqz(Expr::sub(
            Register(0),
            Register(0),
            1u64,
        ))),
    ]);
    let mut context = Context::default();
    assert_eq!(inst.execute(&mut context), Outcome::Return);
    assert_eq!(context.get_reg(0), 0);
}

#[test]
fn closure_tree_expression_stores_and_yields() {
    let mut context = Context::default();
    context.set_reg(1, 10);
    // r2 := r1 * ((r3 := r1 + 5) - 3)
    let expr = Expr::mul(
        Register(2),
        Register(1),
        Expr::sub(Register(4), Expr::add(Register(3), Register(1), 5u64), 3u64),
    );
    assert_eq!(expr.execute(&mut context), 120);
    assert_eq!(context.get_reg(3), 15);
    assert_eq!(context.get_reg(4), 12);
    assert_eq!(context.get_reg(2), 120);
    assert_eq!(context.get_reg(1), 10);
    // Operands are evaluated from left to right: the left one stores into r1
    // before the right one reads it.
    let expr = Expr::add(Register(5), Expr::add(Register(1), Register(1), 1u64), Register(1));
    assert_eq!(expr.execute(&mut context), 22);
    assert_eq!(context.get_reg(1), 11);
    assert_eq!(context.get_reg(5), 22);
    // Wrapping.
    let expr = Expr::sub(Register(6), 0u64, 1u64);
    assert_eq!(expr.execute(&mut context), u64::MAX);
    let expr = Expr::add(Register(6), Register(6), 2u64);
    assert_eq!(expr.execute(&mut context), 1);
}

#[test]
fn closure_tree_blocks_and_loops() {
    // A block goes on after an instruction that continues.
    let block = Inst::basic_block(vec![
        Inst::local_set(Register(1), 4u64),
        Inst::local_set(Register(2), Register(1)),
        Inst::exec(Expr::mul(Register(3), Register(1), Register(2))),
    ]);
    let mut context = Context::default();
    assert_eq!(block.execute(&mut context), Outcome::Continue);
    assert_eq!(context.get_reg(1), 4);
    assert_eq!(context.get_reg(2), 4);
    assert_eq!(context.get_reg(3), 16);
    // A block stops at the first instruction that returns.
    let block = Inst::basic_block(vec![
        Inst::local_set(Register(1), 9u64),
        Inst::ret(Register(1)),
        Inst::local_set(Register(1), 1u64),
    ]);
    let mut context = Context::default();
    assert_eq!(block.execute(&mut context), Outcome::Return);
    assert_eq!(context.get_reg(0), 9);
    assert_eq!(context.get_reg(1), 9);
    // The empty block continues.
    let mut context = Context::default();
    assert_eq!(Inst::basic_block(vec![]).execute(&mut context), Outcome::Continue);
    // A loop runs its body until the body returns: five times here, counted in r1.
    let inst = Inst::basic_block(vec![
        Inst::local_set(Register(0), 5u64),
        Inst::loop_block(Inst::basic_block(vec![
            Inst::exec(Expr::add(Register(1), Register(1), 1u64)),
            Inst::branch_eqz(Expr::sub(Register(0), Register(0), 1u64)),
        ])),
    ]);
    let mut context = Context::default();
    assert_eq!(inst.execute(&mut context), Outcome::Return);
    assert_eq!(context.get_reg(0), 0);
    assert_eq!(context.get_reg(1), 5);
    // `branch_eqz` continues on a value that is not zero.
    let mut context = Context::default();
    let inst = Inst::branch_eqz(Expr::add(Register(0), Register(0), 1u64));
    assert_eq!(inst.execute(&mut context), Outcome::Continue);
    assert_eq!(context.get_reg(0), 1);
}

