use dispatch_vm::fused::ct::Execute;
use dispatch_vm::fused::ct3::{compile_all, execute, Compile, Inst};
use dispatch_vm::fused::rt2;
use dispatch_vm::fused::{Const, Context, Register};
use dispatch_vm::Outcome;

#[test]
fn ct3_counter_loop() {
    let repetitions = 100_000_000;
    let insts = [
        // Store `repetitions` into r0.
        // Note: r0 is our loop counter register.
        rt2::Inst::add(Register(0), Register(0), Const(repetitions)),
        // Branch to the end if r0 is zero.
        rt2::Inst::branch_eqz(4, Register(0)),
        // Decrease r0 by 1.
        rt2::Inst::sub(Register(0), Register(0), Const(1)),
        // Jump back to the loop header.
        rt2::Inst::branch(1),
        // Return value and end function execution.
        rt2::Inst::ret(Register(0)),
    ]
    .map(rt2::Inst::compile);
    let mut context = Context::default();
    execute(&insts, &mut context);
    assert_eq!(context.get_reg(Register(0)), 0);
    assert_eq!(context.pc(), 4);
}

#[test]
fn register_and_constant_combinations() {
    assert!(matches!(rt2::Inst::add(Register(1), Register(2), Register(3)).compile(), Inst::AddRr(_)));
    assert!(matches!(rt2::Inst::add(Register(1), Register(2), Const(3)).compile(), Inst::AddRc(_)));
    assert!(matches!(rt2::Inst::add(Register(1), Const(2), Register(3)).compile(), Inst::AddCr(_)));
    assert!(matches!(rt2::Inst::add(Register(1), Const(2), Const(3)).compile(), Inst::AddCc(_)));
    assert!(matches!(rt2::Inst::sub(Register(1), Register(2), Register(3)).compile(), Inst::SubRr(_)));
    assert!(matches!(rt2::Inst::sub(Register(1), Register(2), Const(3)).compile(), Inst::SubRc(_)));
    assert!(matches!(rt2::Inst::sub(Register(1), Const(2), Register(3)).compile(), Inst::SubCr(_)));
    assert!(matches!(rt2::Inst::sub(Register(1), Const(2), Const(3)).compile(), Inst::SubCc(_)));
    assert!(matches!(rt2::Inst::mul(Register(1), Register(2), Register(3)).compile(), Inst::MulRr(_)));
    assert!(matches!(rt2::Inst::mul(Register(1), Register(2), Const(3)).compile(), Inst::MulRc(_)));
    assert!(matches!(rt2::Inst::mul(Register(1), Const(2), Register(3)).compile(), Inst::MulCr(_)));
    assert!(matches!(rt2::Inst::mul(Register(1), Const(2), Const(3)).compile(), Inst::MulCc(_)));
    let r = rt2::Source::Register(Register(2));
    let c = rt2::Source::Const(Const(2));
    assert!(matches!(rt2::Inst::Eq(rt2::EqInst { result: Register(1), lhs: r, rhs: r }).compile(), Inst::EqRr(_)));
    assert!(matches!(rt2::Inst::Eq(rt2::EqInst { result: Register(1), lhs: r, rhs: c }).compile(), Inst::EqRc(_)));
    assert!(matches!(rt2::Inst::Eq(rt2::EqInst { result: Register(1), lhs: c, rhs: r }).compile(), Inst::EqCr(_)));
    assert!(matches!(rt2::Inst::Eq(rt2::EqInst { result: Register(1), lhs: c, rhs: c }).compile(), Inst::EqCc(_)));
    assert!(matches!(rt2::Inst::Ne(rt2::NeInst { result: Register(1), lhs: r, rhs: r }).compile(), Inst::NeRr(_)));
    assert!(matches!(rt2::Inst::Ne(rt2::NeInst { result: Register(1), lhs: r, rhs: c }).compile(), Inst::NeRc(_)));
    assert!(matches!(rt2::Inst::Ne(rt2::NeInst { result: Register(1), lhs: c, rhs: r }).compile(), Inst::NeCr(_)));
    assert!(matches!(rt2::Inst::Ne(rt2::NeInst { result: Register(1), lhs: c, rhs: c }).compile(), Inst::NeCc(_)));
    assert!(matches!(rt2::Inst::branch(0).compile(), Inst::Branch(_)));
    assert!(matches!(rt2::Inst::branch_eqz(0, Register(1)).compile(), Inst::BranchEqzR(_)));
    assert!(matches!(rt2::Inst::branch_eqz(0, Const(1)).compile(), Inst::BranchEqzC(_)));
    assert!(matches!(rt2::Inst::ret(Register(1)).compile(), Inst::ReturnR(_)));
    assert!(matches!(rt2::Inst::ret(Const(1)).compile(), Inst::ReturnC(_)));
    let mut context = Context::default();
    let inst = rt2::Inst::sub(Register(1), Const(2), Const(3)).compile();
    assert_eq!(inst.execute(&mut context), Outcome::Continue);
    assert_eq!(context.get_reg(Register(1)), u64::MAX);
    let inst = rt2::Inst::ret(Const(8)).compile();
    assert_eq!(inst.execute(&mut context), Outcome::Return);
    assert_eq!(context.get_reg(Register(0)), 8);
}

#[test]
fn register_program_with_every_opcode_ends_the_same_once_specialized() {
    let dynamic = vec![
        rt2::Inst::add(Register(0), Register(0), Const(5)),
        rt2::Inst::add(Register(1), Register(1), Const(1)),
        rt2::Inst::branch_eqz(8, Register(0)),
        rt2::Inst::mul(Register(1), Register(1), Const(3)),
        rt2::Inst::Eq(rt2::EqInst { result: Register(2), lhs: rt2::Source::Register(Register(0)), rhs: rt2::Source::Const(Const(1)) }),
        rt2::Inst::Ne(rt2::NeInst { result: Register(3), lhs: rt2::Source::Const(Const(81)), rhs: rt2::Source::Register(Register(1)) }),
        rt2::Inst::sub(Register(0), Register(0), Const(1)),
        rt2::Inst::branch(2),
        rt2::Inst::ret(Register(1)),
    ];
    let specialized = compile_all(&dynamic);
    assert_eq!(specialized.len(), dynamic.len());
    assert!(matches!(specialized[3], Inst::MulRc(_)));
    assert!(matches!(specialized[4], Inst::EqRc(_)));
    assert!(matches!(specialized[5], Inst::NeCr(_)));
    let mut direct = Context::default();
    rt2::execute(&dynamic, &mut direct);
    let mut fused = Context::default();
    execute(&specialized, &mut fused);
    assert_eq!(direct.get_reg(Register(0)), 243);
    assert_eq!(direct.get_reg(Register(2)), 1);
    assert_eq!(direct.get_reg(Register(3)), 1);
    assert_eq!(direct.pc(), fused.pc());
    for i in 0..16 {
        assert_eq!(direct.get_reg(Register(i)), fused.get_reg(Register(i)));
    }
    // Each opcode alone, on the same state.
    for inst in dynamic {
        let mut direct = Context::default();
        direct.set_reg(Register(0), 1);
        direct.set_reg(Register(1), 81);
        let mut fused = Context::default();
        fused.set_reg(Register(0), 1);
        fused.set_reg(Register(1), 81);
        assert_eq!(rt2::Execute::execute(&inst, &mut direct), inst.compile().execute(&mut fused));
        assert_eq!(direct.pc(), fused.pc());
        for i in 0..16 {
            assert_eq!(direct.get_reg(Register(i)), fused.get_reg(Register(i)));
        }
    }
}

#[test]
fn specialized_register_program_ends_as_the_dynamic_one() {
    let dynamic = vec![
        rt2::Inst::add(Register(0), Register(0), Const(6)),
        rt2::Inst::add(Register(1), Const(1), Register(1)),
        rt2::Inst::branch_eqz(6, Register(0)),
        rt2::Inst::add(Register(1), Register(1), Register(1)),
        rt2::Inst::sub(Register(0), Register(0), Const(1)),
        rt2::Inst::branch(2),
        rt2::Inst::ret(Register(1)),
    ];
    let specialized = compile_all(&dynamic);
    assert_eq!(specialized.len(), 7);
    let mut direct = Context::default();
    rt2::execute(&dynamic, &mut direct);
    let mut fused = Context::default();
    execute(&specialized, &mut fused);
    assert_eq!(direct.get_reg(Register(0)), 64);
    assert_eq!(direct.pc(), 6);
    assert_eq!(fused.pc(), 6);
    for i in 0..16 {
        assert_eq!(direct.get_reg(Register(i)), fused.get_reg(Register(i)));
    }
}
