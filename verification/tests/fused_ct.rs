use dispatch_vm::fused::ct;
use dispatch_vm::fused::ct::{Execute, FromData, IntoData, Load, Param, Result, Store};
use dispatch_vm::fused::{Const, Context, Global, Register};
use dispatch_vm::Outcome;

#[test]
fn ct_counter_loop() {
    let repetitions = 100_000_000;
    let insts = vec![
        // Store `repetitions` into r0.
        // Note: r0 is our loop counter register.
        ct::Inst::add(Register(0), Register(0), Const(repetitions)),
        // Branch to the end if r0 is zero.
        ct::Inst::branch_eqz(4, Register(0)),
        // Decrease r0 by 1.
        ct::Inst::sub(Register(0), Register(0), Const(1)),
        // Jump back to the loop header.
        ct::Inst::branch(1),
        // Return value and end function execution.
        ct::Inst::ret(Register(0)),
    ];
    let mut context = Context::default();
    ct::execute(&insts, &mut context);
    assert_eq!(context.get_reg(Register(0)), 0);
    assert_eq!(context.pc(), 4);
}

#[test]
fn erased_instructions_keep_their_kinds() {
    let mut context = Context::default();
    context.set_reg(Register(1), 10);
    context.set_global(Global(1), 100);
    // The same indices, as registers and as globals, are different operands.
    assert_eq!(ct::Inst::add(Register(2), Register(1), Global(1)).execute(&mut context), Outcome::Continue);
    assert_eq!(context.get_reg(Register(2)), 110);
    assert_eq!(ct::Inst::add(Global(2), Global(1), Global(1)).execute(&mut context), Outcome::Continue);
    assert_eq!(context.get_global(Global(2)), 200);
    assert_eq!(ct::Inst::sub(Global(3), Const(1), Register(1)).execute(&mut context), Outcome::Continue);
    assert_eq!(context.get_global(Global(3)), u64::MAX - 8);
    assert_eq!(ct::Inst::sub(Register(3), Const(1), Const(1)).execute(&mut context), Outcome::Continue);
    assert_eq!(context.get_reg(Register(3)), 0);
    assert_eq!(context.pc(), 4);
    assert_eq!(ct::Inst::branch_eqz(9, Const(0)).execute(&mut context), Outcome::Continue);
    assert_eq!(context.pc(), 9);
    assert_eq!(ct::Inst::branch_eqz(1, Global(1)).execute(&mut context), Outcome::Continue);
    assert_eq!(context.pc(), 10);
    assert_eq!(ct::Inst::branch_eqz(1, Register(3)).execute(&mut context), Outcome::Continue);
    assert_eq!(context.pc(), 1);
    assert_eq!(ct::Inst::branch(6).execute(&mut context), Outcome::Continue);
    assert_eq!(context.pc(), 6);
    assert_eq!(ct::Inst::ret(Const(u64::MAX)).execute(&mut context), Outcome::Return);
    assert_eq!(context.get_reg(Register(0)), u64::MAX);
    assert_eq!(ct::Inst::ret(Global(2)).execute(&mut context), Outcome::Return);
    assert_eq!(context.get_reg(Register(0)), 200);
    assert_eq!(context.pc(), 6);
}

#[test]
fn erased_multiplication_and_comparisons() {
    let mut context = Context::default();
    context.set_reg(Register(1), 6);
    context.set_global(Global(1), 7);
    assert_eq!(ct::Inst::mul(Register(2), Register(1), Global(1)).execute(&mut context), Outcome::Continue);
    assert_eq!(context.get_reg(Register(2)), 42);
    assert_eq!(ct::Inst::mul(Global(2), Const(1 << 63), Const(2)).execute(&mut context), Outcome::Continue);
    assert_eq!(context.get_global(Global(2)), 0);
    assert_eq!(ct::Inst::eq(Register(3), Register(2), Const(42)).execute(&mut context), Outcome::Continue);
    assert_eq!(context.get_reg(Register(3)), 1);
    assert_eq!(ct::Inst::eq(Global(3), Register(1), Global(1)).execute(&mut context), Outcome::Continue);
    assert_eq!(context.get_global(Global(3)), 0);
    assert_eq!(ct::Inst::ne(Global(4), Register(1), Global(1)).execute(&mut context), Outcome::Continue);
    assert_eq!(context.get_global(Global(4)), 1);
    assert_eq!(ct::Inst::ne(Register(4), Global(1), Const(7)).execute(&mut context), Outcome::Continue);
    assert_eq!(context.get_reg(Register(4)), 0);
    assert_eq!(context.pc(), 6);
    // The typed forms, and their way through raw words.
    assert_eq!(ct::MulInst::new(Register(5), Register(1), Const(3)).execute(&mut context), Outcome::Continue);
    assert_eq!(context.get_reg(Register(5)), 18);
    assert_eq!(ct::EqInst::new(Global(5), Const(3), Const(3)).execute(&mut context), Outcome::Continue);
    assert_eq!(context.get_global(Global(5)), 1);
    assert_eq!(ct::NeInst::new(Global(5), Const(3), Const(3)).execute(&mut context), Outcome::Continue);
    assert_eq!(context.get_global(Global(5)), 0);
    let back = ct::MulInst::<Global, Const, Register>::from_data(ct::MulInst::new(Global(1), Const(2), Register(3)).into_data());
    assert_eq!(back.result.into_usize(), 1);
    assert_eq!(back.lhs.into_bits(), 2);
    assert_eq!(back.rhs.into_usize(), 3);
    let back = ct::EqInst::<Register, Global, Const>::from_data(ct::EqInst::new(Register(4), Global(5), Const(6)).into_data());
    assert_eq!(back.result.into_usize(), 4);
    assert_eq!(back.lhs.into_usize(), 5);
    assert_eq!(back.rhs.into_bits(), 6);
    let back = ct::NeInst::<Register, Register, Register>::from_data(ct::NeInst::new(Register(7), Register(8), Register(9)).into_data());
    assert_eq!(back.result.into_usize(), 7);
    assert_eq!(back.lhs.into_usize(), 8);
    assert_eq!(back.rhs.into_usize(), 9);
}

#[test]
fn raw_forms_round_trip() {
    assert_eq!(<Register as Result>::into_raw(Register(7)).index, 7);
    assert_eq!(<Global as Result>::into_raw(Global(8)).index, 8);
    assert_eq!(<Register as Param>::into_raw(Register(7)).index, 7);
    assert_eq!(<Global as Param>::into_raw(Global(8)).index, 8);
    assert_eq!(Const(u64::MAX).into_raw().index, u64::MAX);
    assert_eq!(<Register as Result>::from_raw(ct::RawSink { index: 3 }).into_usize(), 3);
    assert_eq!(<Global as Param>::from_raw(ct::RawSource { index: 4 }).into_usize(), 4);
    assert_eq!(Const::from_raw(ct::RawSource { index: 5 }).into_bits(), 5);
    assert_eq!(ct::RawSink::from(Global(2)).index, 2);
    assert_eq!(ct::RawSource::from(Const(12)).index, 12);
    assert_eq!(Register::from(ct::RawSource { index: 6 }).into_usize(), 6);

    let data = ct::InstData::from((Global(1), Const(2), Register(3)));
    assert_eq!(data.sink.index, 1);
    assert_eq!(data.src0.index, 2);
    assert_eq!(data.src1.index, 3);
    let (sink, src0, src1): (Global, Const, Register) = data.into_raw_parts();
    assert_eq!(sink.into_usize(), 1);
    assert_eq!(src0.into_bits(), 2);
    assert_eq!(src1.into_usize(), 3);

    let data = ct::AddInst::new(Register(1), Global(2), Const(3)).into_data();
    let back = ct::AddInst::<Register, Global, Const>::from_data(data);
    assert_eq!(back.result.into_usize(), 1);
    assert_eq!(back.lhs.into_usize(), 2);
    assert_eq!(back.rhs.into_bits(), 3);
    let data = ct::BranchEqzInst::new(11, Global(2)).into_data();
    let back = ct::BranchEqzInst::<Global>::from_data(data);
    assert_eq!(back.target, 11);
    assert_eq!(back.condition.into_usize(), 2);
    let back = ct::BranchInst::from_data(ct::BranchInst::new(13).into_data());
    assert_eq!(back.target, 13);
    let back = ct::ReturnInst::<Const>::from_data(ct::ReturnInst::new(Const(14)).into_data());
    assert_eq!(back.result.into_bits(), 14);
    let back = ct::SubInst::<Global, Register, Register>::from_data(ct::SubInst::new(Global(1), Register(2), Register(3)).into_data());
    assert_eq!(back.result.into_usize(), 1);
    assert_eq!(back.lhs.into_usize(), 2);
    assert_eq!(back.rhs.into_usize(), 3);
}

#[test]
fn typed_instructions_load_and_store() {
    let mut context = Context::default();
    Register(1).store(&mut context, 5);
    Global(1).store(&mut context, 6);
    assert_eq!(Register(1).load(&context), 5);
    assert_eq!(Global(1).load(&context), 6);
    assert_eq!(Const(7).load(&context), 7);
    assert_eq!(ct::AddInst::new(Global(2), Register(1), Global(1)).execute(&mut context), Outcome::Continue);
    assert_eq!(context.get_global(Global(2)), 11);
    assert_eq!(ct::SubInst::new(Register(2), Register(1), Global(1)).execute(&mut context), Outcome::Continue);
    assert_eq!(context.get_reg(Register(2)), u64::MAX);
    assert_eq!(context.pc(), 2);
    assert_eq!(ct::BranchEqzInst::new(5, Register(3)).execute(&mut context), Outcome::Continue);
    assert_eq!(context.pc(), 5);
    assert_eq!(ct::BranchEqzInst::new(0, Register(1)).execute(&mut context), Outcome::Continue);
    assert_eq!(context.pc(), 6);
    assert_eq!(ct::BranchInst::new(3).execute(&mut context), Outcome::Continue);
    assert_eq!(context.pc(), 3);
    assert_eq!(ct::ReturnInst::new(Global(2)).execute(&mut context), Outcome::Return);
    assert_eq!(context.get_reg(Register(0)), 11);
}
