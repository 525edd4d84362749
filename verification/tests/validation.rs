use dispatch_vm::fused::ct::{Load, Store};
use dispatch_vm::fused::ct2::Compile;
use dispatch_vm::fused::{ct, ct2, rt, rt2, Const, Global, Register};
use dispatch_vm::machine::{validate, Validate};
use dispatch_vm::{closure_loop, closure_tail, closure_tail_2, closure_tree, enum_tree, switch, switch_2, switch_tail_2};

#[test]
fn well_formed_programs_pass() {
    assert!(validate(&[
        switch::Inst::AddImm { result: 15, src: 0, imm: u64::MAX },
        switch::Inst::Mul { result: 0, lhs: 15, rhs: 15 },
        switch::Inst::BranchEqz { target: 3, condition: 15 },
        switch::Inst::Branch { target: 0 },
    ]));
    assert!(validate::<switch::Inst>(&[]));
    assert!(validate(&[closure_loop::Inst::branch(0)]));
    assert!(validate(&[closure_tail::Inst::ret(15), closure_tail::Inst::branch_eqz(1, 15)]));
    assert!(validate(&[closure_tail_2::Inst::branch_eqz_0(0), closure_tail_2::Inst::add_imm_0(1)]));
    assert!(validate(&[switch_2::Inst::BranchEqz0 { target: 0 }]));
    assert!(validate(&[switch_tail_2::Inst::SubImm0 { imm: 3 }]));
    assert!(validate(&[rt::Inst::add(Global(15), Register(15), Const(u64::MAX)), rt::Inst::branch(1)]));
    assert!(validate(&[rt2::Inst::mul(Register(15), Register(15), Const(u64::MAX))]));
    assert!(validate(&[ct::Inst::sub(Global(15), Global(15), Register(15)), ct::Inst::branch_eqz(1, Const(99))]));
    assert!(validate(&[rt::Inst::ret(Global(15)).compile()]));
}

#[test]
fn a_register_that_does_not_exist_fails() {
    assert!(!validate(&[switch::Inst::Add { result: 16, lhs: 0, rhs: 0 }]));
    assert!(!validate(&[switch::Inst::Sub { result: 0, lhs: 16, rhs: 0 }]));
    assert!(!validate(&[switch::Inst::Mul { result: 0, lhs: 0, rhs: 16 }]));
    assert!(!validate(&[switch::Inst::AddImm { result: 0, src: 16, imm: 0 }]));
    assert!(!validate(&[switch::Inst::Return { result: usize::MAX }]));
    assert!(!validate(&[switch::Inst::Return { result: 0 }, switch::Inst::BranchEqz { target: 0, condition: 16 }]));
    assert!(!validate(&[switch_2::Inst::SubImm { result: 16, src: 1, imm: 0 }]));
    assert!(!validate(&[switch_tail_2::Inst::Return { result: 16 }]));
    assert!(!validate(&[closure_loop::Inst::sub_imm(16, 0, 1)]));
    assert!(!validate(&[closure_tail::Inst::add_imm(0, 16, 1)]));
    assert!(!validate(&[closure_tail_2::Inst::ret(16)]));
    assert!(!validate(&[rt::Inst::add(Global(16), Register(0), Const(0))]));
    assert!(!validate(&[rt::Inst::add(Global(0), Global(16), Const(0))]));
    assert!(!validate(&[rt::Inst::ret(Register(16))]));
    assert!(!validate(&[rt2::Inst::sub(Register(0), Const(16), Register(16))]));
    assert!(!validate(&[ct::Inst::add(Register(16), Const(0), Const(0))]));
    assert!(!validate(&[ct::Inst::ret(Global(16))]));
    assert!(!validate(&[ct::Inst::mul(Register(0), Global(16), Const(0))]));
    assert!(!validate(&[ct::Inst::eq(Global(16), Const(0), Const(0))]));
    assert!(!validate(&[ct::Inst::ne(Global(0), Const(0), Register(16))]));
    assert!(validate(&[ct::Inst::ne(Global(15), Const(16), Register(15))]));
    assert!(!validate(&[rt::Inst::mul(Register(0), Register(16), Const(1)).compile()]));
    assert!(validate(&[rt::Inst::mul(Register(0), Register(15), Const(16)).compile()]));
    assert!(!validate(&[rt::Inst::branch_eqz(0, Global(16)).compile()]));
    // A constant is never out of range.
    assert!(validate(&[ct::Inst::ret(Const(16))]));
    assert!(validate(&[rt::Inst::ret(Const(16))]));
}

#[test]
fn a_target_outside_the_program_fails() {
    assert!(!validate(&[switch::Inst::Branch { target: 1 }]));
    assert!(!validate(&[switch::Inst::Return { result: 0 }, switch::Inst::BranchEqz { target: 2, condition: 0 }]));
    assert!(!validate(&[switch_2::Inst::BranchEqz0 { target: 1 }]));
    assert!(!validate(&[switch_tail_2::Inst::Branch { target: 7 }]));
    assert!(!validate(&[closure_loop::Inst::branch_eqz(1, 0)]));
    assert!(!validate(&[closure_tail::Inst::branch(1)]));
    assert!(!validate(&[closure_tail_2::Inst::branch_eqz_0(1)]));
    assert!(!validate(&[rt::Inst::branch(1)]));
    assert!(!validate(&[rt2::Inst::branch_eqz(usize::MAX, Const(0))]));
    assert!(!validate(&[ct::Inst::branch(1)]));
    assert!(!validate(&[ct::Inst::branch_eqz(1, Const(0))]));
    assert!(!validate(&[rt::Inst::branch(1).compile()]));
    // The same instruction is valid in a program that is long enough.
    assert!(switch::Inst::Branch { target: 1 }.is_valid(2));
    assert!(!switch::Inst::Branch { target: 1 }.is_valid(1));
    assert!(ct2::Inst::Branch(ct::BranchInst::new(4)).is_valid(5));
    assert!(!ct2::Inst::Branch(ct::BranchInst::new(5)).is_valid(5));
}

#[test]
fn operands_know_whether_they_exist() {
    assert!(Register(15).is_valid());
    assert!(!Register(16).is_valid());
    assert!(Global(15).is_valid());
    assert!(!Global(16).is_valid());
    assert!(rt::Source::Const(Const(16)).is_valid());
    assert!(!rt::Source::Register(Register(16)).is_valid());
    assert!(!rt::Source::Global(Global(16)).is_valid());
    assert!(rt::Sink::Global(Global(0)).is_valid());
    assert!(!rt::Sink::Register(Register(16)).is_valid());
    assert!(!rt2::Source::Register(Register(16)).is_valid());
    assert!(rt2::Source::Const(Const(16)).is_valid());
    assert!(Register(0).can_store());
    assert!(!Global(16).can_store());
    assert!(Const(100).can_load());
    assert!(!Register(16).can_load());
    assert!(Global(1).can_load());
    assert!(ct::SinkKind::Register.is_valid(ct::RawSink { index: 15 }));
    assert!(!ct::SinkKind::Global.is_valid(ct::RawSink { index: 16 }));
    assert!(ct::SourceKind::Const.is_valid(ct::RawSource { index: 16 }));
    assert!(!ct::SourceKind::Register.is_valid(ct::RawSource { index: 16 }));
    assert!(ct::SourceKind::Global.is_valid(ct::RawSource { index: 15 }));
}

#[test]
fn use_of_the_promoted_register_is_checked() {
    assert!(switch_2::is_consistent(&[
        switch_2::Inst::AddImm0 { imm: 1 },
        switch_2::Inst::AddImm { result: 1, src: 2, imm: 1 },
        switch_2::Inst::BranchEqz0 { target: 0 },
        switch_2::Inst::BranchEqz { target: 0, condition: 1 },
        switch_2::Inst::Return { result: 0 },
    ]));
    assert!(!switch_2::is_consistent(&[switch_2::Inst::AddImm { result: 0, src: 2, imm: 1 }]));
    assert!(!switch_2::is_consistent(&[switch_2::Inst::AddImm { result: 1, src: 0, imm: 1 }]));
    assert!(!switch_2::is_consistent(&[switch_2::Inst::Mul { result: 1, lhs: 1, rhs: 0 }]));
    assert!(!switch_2::is_consistent(&[switch_2::Inst::BranchEqz { target: 0, condition: 0 }]));
    assert!(switch_2::Inst::Sub { result: 1, lhs: 2, rhs: 3 }.is_consistent());
    assert!(!switch_2::Inst::Sub { result: 1, lhs: 0, rhs: 3 }.is_consistent());

    assert!(switch_tail_2::is_consistent(&[switch_tail_2::Inst::SubImm0 { imm: 1 }, switch_tail_2::Inst::Return { result: 0 }]));
    assert!(!switch_tail_2::is_consistent(&[switch_tail_2::Inst::SubImm { result: 0, src: 0, imm: 1 }]));
    assert!(!switch_tail_2::Inst::BranchEqz { target: 0, condition: 0 }.is_consistent());

    assert!(closure_tail_2::is_consistent(&[closure_tail_2::Inst::add_imm_0(1), closure_tail_2::Inst::ret(0)]));
    assert!(closure_tail_2::is_consistent(&[]));
    assert!(!closure_tail_2::is_consistent(&[closure_tail_2::Inst::add_imm(0, 1, 1)]));
    assert!(!closure_tail_2::Inst::sub_imm(1, 0, 1).is_consistent());
    assert!(!closure_tail_2::Inst::branch_eqz(3, 0).is_consistent());
    assert!(closure_tail_2::Inst::branch_eqz(3, 1).is_consistent());
}

#[test]
fn tree_programs_are_checked_through_their_expressions() {
    let get = |index: usize| enum_tree::Expr::LocalGet { register: enum_tree::Register(index) };
    let boxed = |index: usize| Box::new(enum_tree::Expr::LocalGet { register: enum_tree::Register(index) });
    assert!(get(15).is_valid());
    assert!(!get(16).is_valid());
    assert!(enum_tree::Expr::AddEe { lhs: boxed(1), rhs: boxed(2) }.is_valid());
    assert!(!enum_tree::Expr::AddEe { lhs: boxed(1), rhs: boxed(16) }.is_valid());
    assert!(!enum_tree::Expr::MulEe { lhs: boxed(16), rhs: boxed(1) }.is_valid());
    assert!(!enum_tree::Expr::SubRe { lhs: enum_tree::Register(16), rhs: boxed(1) }.is_valid());
    assert!(!enum_tree::Expr::SubIe { lhs: enum_tree::Immediate(16), rhs: boxed(16) }.is_valid());
    assert!(enum_tree::Expr::MulRi { lhs: enum_tree::Register(1), rhs: enum_tree::Immediate(16) }.is_valid());
    assert!(!enum_tree::Expr::LocalTee { register: enum_tree::Register(16), new_value: boxed(1) }.is_valid());
    assert!(!enum_tree::Expr::LocalTee { register: enum_tree::Register(1), new_value: boxed(16) }.is_valid());
    assert!(enum_tree::Register(15).is_valid());
    assert!(!enum_tree::Register(16).is_valid());

    assert!(enum_tree::validate(&[
        enum_tree::Inst::GlobalSet { global: enum_tree::Global(15), expr: get(15) },
        enum_tree::Inst::BranchIf { label: enum_tree::Label(2), condition: get(0) },
        enum_tree::Inst::Return { result: get(0) },
    ]));
    assert!(enum_tree::validate(&[]));
    assert!(!enum_tree::validate(&[enum_tree::Inst::GlobalSet { global: enum_tree::Global(16), expr: get(0) }]));
    assert!(!enum_tree::validate(&[enum_tree::Inst::LocalSet { register: enum_tree::Register(16), expr: get(0) }]));
    assert!(!enum_tree::validate(&[enum_tree::Inst::LocalSet { register: enum_tree::Register(0), expr: get(16) }]));
    assert!(!enum_tree::validate(&[enum_tree::Inst::Branch { label: enum_tree::Label(1) }]));
    assert!(!enum_tree::validate(&[enum_tree::Inst::BranchIf { label: enum_tree::Label(1), condition: get(0) }]));
    assert!(!enum_tree::validate(&[enum_tree::Inst::BranchIf { label: enum_tree::Label(0), condition: get(16) }]));
    assert!(!enum_tree::validate(&[enum_tree::Inst::Return { result: get(16) }]));
    assert!(enum_tree::Inst::Branch { label: enum_tree::Label(1) }.is_valid(2));
}

#[test]
fn structured_instructions_are_checked_all_the_way_down() {
    let reg = closure_tree::Register;
    assert!(closure_tree::Input::Register(reg(15)).is_valid());
    assert!(!closure_tree::Input::Register(reg(16)).is_valid());
    assert!(closure_tree::Input::Immediate(16).is_valid());
    assert!(closure_tree::Expr::add(reg(15), reg(0), 16u64).is_valid());
    assert!(!closure_tree::Expr::add(reg(16), reg(0), 1u64).is_valid());
    assert!(!closure_tree::Expr::sub(reg(0), reg(16), 1u64).is_valid());
    assert!(!closure_tree::Expr::mul(reg(0), 1u64, reg(16)).is_valid());
    assert!(!closure_tree::Expr::mul(reg(0), 1u64, closure_tree::Expr::add(reg(1), reg(16), 1u64)).is_valid());
    assert!(closure_tree::Input::Expr(closure_tree::Expr::add(reg(1), reg(2), 1u64)).is_valid());
    assert!(!closure_tree::Input::Expr(closure_tree::Expr::add(reg(1), reg(16), 1u64)).is_valid());

    assert!(closure_tree::Inst::exec(closure_tree::Expr::add(reg(1), reg(2), 1u64)).is_valid());
    assert!(!closure_tree::Inst::exec(closure_tree::Expr::add(reg(1), reg(16), 1u64)).is_valid());
    assert!(closure_tree::Inst::local_set(reg(15), 3u64).is_valid());
    assert!(!closure_tree::Inst::local_set(reg(16), 3u64).is_valid());
    assert!(!closure_tree::Inst::local_set(reg(1), reg(16)).is_valid());
    assert!(!closure_tree::Inst::branch_eqz(closure_tree::Expr::sub(reg(16), reg(0), 1u64)).is_valid());
    assert!(closure_tree::Inst::ret(reg(15)).is_valid());
    assert!(!closure_tree::Inst::ret(reg(16)).is_valid());
    assert!(closure_tree::Inst::basic_block(vec![]).is_valid());
    assert!(closure_tree::Inst::basic_block(vec![
        closure_tree::Inst::local_set(reg(1), 3u64),
        closure_tree::Inst::loop_block(closure_tree::Inst::basic_block(vec![
            closure_tree::Inst::branch_eqz(closure_tree::Expr::sub(reg(1), reg(1), 1u64)),
        ])),
    ])
    .is_valid());
    // One bad register, deep inside, spoils the whole.
    assert!(!closure_tree::Inst::basic_block(vec![
        closure_tree::Inst::local_set(reg(1), 3u64),
        closure_tree::Inst::loop_block(closure_tree::Inst::basic_block(vec![
            closure_tree::Inst::branch_eqz(closure_tree::Expr::sub(reg(1), reg(1), 1u64)),
            closure_tree::Inst::ret(reg(16)),
        ])),
    ])
    .is_valid());
    assert!(!closure_tree::Inst::loop_block(closure_tree::Inst::ret(reg(16))).is_valid());
}

#[test]
fn a_program_without_a_way_back_runs_straight_to_its_return() {
    // Every branch goes forward, so the program halts whatever the registers hold.
    let insts = vec![
        switch::Inst::BranchEqz { target: 3, condition: 1 },
        switch::Inst::AddImm { result: 2, src: 2, imm: 10 },
        switch::Inst::Branch { target: 4 },
        switch::Inst::AddImm { result: 2, src: 2, imm: 20 },
        switch::Inst::Return { result: 2 },
    ];
    assert!(validate(&insts));
    let mut context = dispatch_vm::Context::default();
    switch::execute(&insts, &mut context);
    assert_eq!(context.get_reg(0), 20);
    assert_eq!(context.pc(), 4);
    let mut context = dispatch_vm::Context::default();
    context.set_reg(1, 1);
    switch::execute(&insts, &mut context);
    assert_eq!(context.get_reg(0), 10);
    assert_eq!(context.pc(), 4);
}
