use dispatch_vm::handler;
use dispatch_vm::machine::{add_bits, eq_bits, mul_bits, ne_bits, sub_bits, BinOp};
use dispatch_vm::{Context, Outcome};

#[test]
fn default_context_is_all_zero() {
    let context = Context::default();
    assert_eq!(context.pc(), 0);
    for i in 0..16 {
        assert_eq!(context.get_reg(i), 0);
        assert_eq!(context.get_global(i), 0);
    }
}

#[test]
fn set_touches_one_slot_only() {
    let mut context = Context::default();
    context.set_reg(3, 17);
    context.set_global(15, 99);
    for i in 0..16 {
        assert_eq!(context.get_reg(i), if i == 3 { 17 } else { 0 });
        assert_eq!(context.get_global(i), if i == 15 { 99 } else { 0 });
    }
    assert_eq!(context.pc(), 0);
}

#[test]
fn pc_moves_by_advance_and_jump() {
    let mut context = Context::default();
    assert_eq!(context.next_inst(), Outcome::Continue);
    assert_eq!(context.pc(), 1);
    assert_eq!(context.branch_to(9), Outcome::Continue);
    assert_eq!(context.pc(), 9);
    assert_eq!(context.next_inst(), Outcome::Continue);
    assert_eq!(context.pc(), 10);
}

#[test]
fn addition_wraps() {
    assert_eq!(add_bits(u64::MAX, 1), 0);
    assert_eq!(add_bits(u64::MAX, u64::MAX), u64::MAX - 1);
    assert_eq!(add_bits(2, 3), 5);
    let mut context = Context::default();
    context.set_reg(1, u64::MAX);
    context.set_reg(2, 1);
    assert_eq!(handler::add(&mut context, 0, 1, 2), Outcome::Continue);
    assert_eq!(context.get_reg(0), 0);
    assert_eq!(context.pc(), 1);
    assert_eq!(handler::add_imm(&mut context, 3, 1, 2), Outcome::Continue);
    assert_eq!(context.get_reg(3), 1);
    assert_eq!(context.pc(), 2);
}

#[test]
fn subtraction_wraps() {
    assert_eq!(sub_bits(0, 1), u64::MAX);
    assert_eq!(sub_bits(5, 7), u64::MAX - 1);
    assert_eq!(sub_bits(7, 5), 2);
    let mut context = Context::default();
    context.set_reg(2, 1);
    assert_eq!(handler::sub(&mut context, 0, 1, 2), Outcome::Continue);
    assert_eq!(context.get_reg(0), u64::MAX);
    assert_eq!(handler::sub_imm(&mut context, 4, 2, 3), Outcome::Continue);
    assert_eq!(context.get_reg(4), u64::MAX - 1);
    assert_eq!(context.pc(), 2);
}

#[test]
fn multiplication_wraps() {
    assert_eq!(mul_bits(1 << 63, 2), 0);
    assert_eq!(mul_bits(u64::MAX, u64::MAX), 1);
    assert_eq!(mul_bits(6, 7), 42);
    let mut context = Context::default();
    context.set_reg(1, 1 << 32);
    context.set_reg(2, 1 << 32);
    assert_eq!(handler::mul(&mut context, 0, 1, 2), Outcome::Continue);
    assert_eq!(context.get_reg(0), 0);
    assert_eq!(handler::mul_imm(&mut context, 5, 1, 3), Outcome::Continue);
    assert_eq!(context.get_reg(5), 3 << 32);
    assert_eq!(context.pc(), 2);
}

#[test]
fn comparisons_give_zero_or_one() {
    assert_eq!(eq_bits(4, 4), 1);
    assert_eq!(eq_bits(4, 5), 0);
    assert_eq!(ne_bits(4, 4), 0);
    assert_eq!(ne_bits(4, 5), 1);
    assert_eq!(BinOp::Eq.compute(0, 0), 1);
    assert_eq!(BinOp::Ne.compute(0, 0), 0);
    assert_eq!(BinOp::Add.compute(u64::MAX, 2), 1);
    assert_eq!(BinOp::Sub.compute(1, 2), u64::MAX);
    assert_eq!(BinOp::Mul.compute(3, 5), 15);
}

#[test]
fn branch_eqz_jumps_only_on_zero() {
    let mut context = Context::default();
    context.branch_to(3);
    assert_eq!(handler::branch_eqz(&mut context, 11, 1), Outcome::Continue);
    assert_eq!(context.pc(), 11);
    context.set_reg(1, 1);
    assert_eq!(handler::branch_eqz(&mut context, 2, 1), Outcome::Continue);
    assert_eq!(context.pc(), 12);
    context.set_reg(1, u64::MAX);
    assert_eq!(handler::branch_eqz(&mut context, 2, 1), Outcome::Continue);
    assert_eq!(context.pc(), 13);
    assert_eq!(handler::branch(&mut context, 2), Outcome::Continue);
    assert_eq!(context.pc(), 2);
}

#[test]
fn ret_copies_into_register_zero() {
    let mut context = Context::default();
    context.set_reg(5, 123);
    context.branch_to(4);
    assert_eq!(handler::ret(&mut context, 5), Outcome::Return);
    assert_eq!(context.get_reg(0), 123);
    assert_eq!(context.get_reg(5), 123);
    assert_eq!(context.pc(), 4);
}
