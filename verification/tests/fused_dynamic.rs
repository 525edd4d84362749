use dispatch_vm::fused::rt;
use dispatch_vm::fused::rt2;
use dispatch_vm::fused::{Const, Context, Global, Register};
use dispatch_vm::Outcome;
use dispatch_vm::fused::rt::Execute;

#[test]
fn rt_counter_loop() {
    let repetitions = 100_000_000;
    let insts = vec![
        // Store `repetitions` into r0.
        // Note: r0 is our loop counter register.
        rt::Inst::add(Register(0), Register(0), Const(repetitions)),
        // Branch to the end if r0 is zero.
        rt::Inst::branch_eqz(4, Register(0)),
        // Decrease r0 by 1.
        rt::Inst::sub(Register(0), Register(0), Const(1)),
        // Jump back to the loop header.
        rt::Inst::branch(1),
        // Return value and end function execution.
        rt::Inst::ret(Register(0)),
    ];
    let mut context = Context::default();
    rt::execute(&insts, &mut context);
    assert_eq!(context.get_reg(Register(0)), 0);
    assert_eq!(context.pc(), 4);
}

#[test]
fn rt2_counter_loop() {
    let repetitions = 100_000_000;
    let insts = vec![
        rt2::Inst::add(Register(0), Register(0), Const(repetitions)),
        rt2::Inst::branch_eqz(4, Register(0)),
        rt2::Inst::sub(Register(0), Register(0), Const(1)),
        rt2::Inst::branch(1),
        rt2::Inst::ret(Register(0)),
    ];
    let mut context = Context::default();
    rt2::execute(&insts, &mut context);
    assert_eq!(context.get_reg(Register(0)), 0);
    assert_eq!(context.pc(), 4);
}

#[test]
fn fused_context_accessors() {
    let mut context = Context::default();
    assert_eq!(context.pc(), 0);
    for i in 0..16 {
        assert_eq!(context.get_reg(Register(i)), 0);
        assert_eq!(context.get_global(Global(i)), 0);
    }
    context.set_reg(Register(15), 5);
    context.set_global(Global(0), 6);
    for i in 0..16 {
        assert_eq!(context.get_reg(Register(i)), if i == 15 { 5 } else { 0 });
        assert_eq!(context.get_global(Global(i)), if i == 0 { 6 } else { 0 });
    }
    assert_eq!(context.next_inst(), Outcome::Continue);
    assert_eq!(context.pc(), 1);
    assert_eq!(context.branch_to(8), Outcome::Continue);
    assert_eq!(context.pc(), 8);
    assert_eq!(Register(3).into_usize(), 3);
    assert_eq!(Global(4).into_usize(), 4);
    assert_eq!(Const(77).into_bits(), 77);
}

#[test]
fn sources_and_sinks() {
    let mut context = Context::default();
    context.set_reg(Register(2), 20);
    context.set_global(Global(2), 30);
    assert_eq!(rt::Source::from(Const(9)).load(&context), 9);
    assert_eq!(rt::Source::from(Register(2)).load(&context), 20);
    assert_eq!(rt::Source::from(Global(2)).load(&context), 30);
    assert_eq!(rt2::Source::from(Const(9)).load(&context), 9);
    assert_eq!(rt2::Source::from(Register(2)).load(&context), 20);
    rt::Sink::from(Register(4)).store(&mut context, 1);
    rt::Sink::from(Global(4)).store(&mut context, 2);
    assert_eq!(context.get_reg(Register(4)), 1);
    assert_eq!(context.get_global(Global(4)), 2);
    assert_eq!(context.get_reg(Register(2)), 20);
    assert_eq!(context.get_global(Global(2)), 30);
    assert_eq!(context.pc(), 0);
}

#[test]
fn rt_instructions_one_by_one() {
    let mut context = Context::default();
    context.set_reg(Register(1), u64::MAX);
    context.set_global(Global(1), 2);
    assert_eq!(rt::Inst::add(Global(0), Register(1), Global(1)).execute(&mut context), Outcome::Continue);
    assert_eq!(context.get_global(Global(0)), 1);
    assert_eq!(rt::Inst::sub(Register(2), Const(0), Global(1)).execute(&mut context), Outcome::Continue);
    assert_eq!(context.get_reg(Register(2)), u64::MAX - 1);
    assert_eq!(rt::Inst::mul(Register(3), Register(1), Global(1)).execute(&mut context), Outcome::Continue);
    assert_eq!(context.get_reg(Register(3)), u64::MAX - 1);
    assert_eq!(context.pc(), 3);
    let eq = rt::Inst::Eq(rt::EqInst {
        result: rt::Sink::Register(Register(4)),
        lhs: rt::Source::Register(Register(2)),
        rhs: rt::Source::Register(Register(3)),
    });
    assert_eq!(eq.execute(&mut context), Outcome::Continue);
    assert_eq!(context.get_reg(Register(4)), 1);
    let ne = rt::Inst::Ne(rt::NeInst {
        result: rt::Sink::Global(Global(5)),
        lhs: rt::Source::Register(Register(2)),
        rhs: rt::Source::Register(Register(3)),
    });
    assert_eq!(ne.execute(&mut context), Outcome::Continue);
    assert_eq!(context.get_global(Global(5)), 0);
    let ne = rt::Inst::Ne(rt::NeInst {
        result: rt::Sink::Global(Global(5)),
        lhs: rt::Source::Const(Const(1)),
        rhs: rt::Source::Const(Const(2)),
    });
    assert_eq!(ne.execute(&mut context), Outcome::Continue);
    assert_eq!(context.get_global(Global(5)), 1);
    assert_eq!(context.pc(), 6);
    assert_eq!(rt::Inst::branch_eqz(0, Global(1)).execute(&mut context), Outcome::Continue);
    assert_eq!(context.pc(), 7);
    assert_eq!(rt::Inst::branch_eqz(2, Global(9)).execute(&mut context), Outcome::Continue);
    assert_eq!(context.pc(), 2);
    assert_eq!(rt::Inst::branch(12).execute(&mut context), Outcome::Continue);
    assert_eq!(context.pc(), 12);
    assert_eq!(rt::Inst::ret(Global(1)).execute(&mut context), Outcome::Return);
    assert_eq!(context.get_reg(Register(0)), 2);
    assert_eq!(context.pc(), 12);
}
