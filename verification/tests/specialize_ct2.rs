use dispatch_vm::fused::ct::Execute;
use dispatch_vm::fused::ct2::{compile_all, execute, Compile, Inst};
use dispatch_vm::fused::rt;
use dispatch_vm::fused::{Const, Context, Global, Register};
use dispatch_vm::Outcome;

#[test]
fn ct2_counter_loop() {
    let repetitions = 100_000_000;
    let insts = [
        // Store `repetitions` into r0.
        // Note: r0 is our loop counter register.
        rt::Inst::add(Register(0), Register(0), Const(repetitions)),
        // Branch to the end if r0 is zero.
        rt::Inst::branch_eqz(4, Register(0)),
        // Decrease r0 by 1.
        rt::Inst::sub(Register(0), Register(0), Const(1)),
        // Jump back to the loop header.
        rt::Inst::branch(1),
        // Return value and end function execution.
        rt::Inst::ret(Register(0)),
    ]
    .map(rt::Inst::compile);
    let mut context = Context::default();
    execute(&insts, &mut context);
    assert_eq!(context.get_reg(Register(0)), 0);
    assert_eq!(context.pc(), 4);
}

fn eq(result: rt::Sink, lhs: rt::Source, rhs: rt::Source) -> rt::Inst {
    rt::Inst::Eq(rt::EqInst { result, lhs, rhs })
}

fn ne(result: rt::Sink, lhs: rt::Source, rhs: rt::Source) -> rt::Inst {
    rt::Inst::Ne(rt::NeInst { result, lhs, rhs })
}

fn same_state(a: &Context, b: &Context) {
    assert_eq!(a.pc(), b.pc());
    for i in 0..16 {
        assert_eq!(a.get_reg(Register(i)), b.get_reg(Register(i)));
        assert_eq!(a.get_global(Global(i)), b.get_global(Global(i)));
    }
}

#[test]
fn every_opcode_executes_the_same_once_specialized() {
    let sinks = [rt::Sink::Register(Register(3)), rt::Sink::Global(Global(3)), rt::Sink::Register(Register(1))];
    let sources = [
        rt::Source::Const(Const(u64::MAX)),
        rt::Source::Const(Const(7)),
        rt::Source::Register(Register(1)),
        rt::Source::Global(Global(2)),
        rt::Source::Register(Register(5)),
    ];
    let mut insts = vec![rt::Inst::branch(9)];
    for sink in sinks {
        for lhs in sources {
            for rhs in sources {
                insts.push(rt::Inst::Add(rt::AddInst { result: sink, lhs, rhs }));
                insts.push(rt::Inst::Sub(rt::SubInst { result: sink, lhs, rhs }));
                insts.push(rt::Inst::Mul(rt::MulInst { result: sink, lhs, rhs }));
                insts.push(eq(sink, lhs, rhs));
                insts.push(ne(sink, lhs, rhs));
            }
        }
    }
    for source in sources {
        insts.push(rt::Inst::BranchEqz(rt::BranchEqzInst { target: 4, condition: source }));
        insts.push(rt::Inst::Return(rt::ReturnInst { result: source }));
    }
    for inst in insts {
        let mut direct = Context::default();
        direct.branch_to(2);
        direct.set_reg(Register(1), 7);
        direct.set_global(Global(2), u64::MAX - 1);
        let mut fused = Context::default();
        fused.branch_to(2);
        fused.set_reg(Register(1), 7);
        fused.set_global(Global(2), u64::MAX - 1);
        let direct_outcome = rt::Execute::execute(&inst, &mut direct);
        let fused_outcome = inst.compile().execute(&mut fused);
        assert_eq!(direct_outcome, fused_outcome);
        same_state(&direct, &fused);
    }
}

#[test]
fn specialized_arithmetic_and_comparisons() {
    let mut context = Context::default();
    context.set_reg(Register(1), 1 << 63);
    context.set_global(Global(1), 2);
    let inst = rt::Inst::mul(Global(3), Register(1), Global(1)).compile();
    assert_eq!(inst.execute(&mut context), Outcome::Continue);
    assert_eq!(context.get_global(Global(3)), 0);
    let inst = rt::Inst::mul(Register(3), Const(21), Global(1)).compile();
    assert_eq!(inst.execute(&mut context), Outcome::Continue);
    assert_eq!(context.get_reg(Register(3)), 42);
    let inst = eq(rt::Sink::Register(Register(4)), rt::Source::Global(Global(1)), rt::Source::Const(Const(2))).compile();
    assert_eq!(inst.execute(&mut context), Outcome::Continue);
    assert_eq!(context.get_reg(Register(4)), 1);
    let inst = eq(rt::Sink::Register(Register(4)), rt::Source::Global(Global(1)), rt::Source::Const(Const(3))).compile();
    assert_eq!(inst.execute(&mut context), Outcome::Continue);
    assert_eq!(context.get_reg(Register(4)), 0);
    let inst = ne(rt::Sink::Global(Global(4)), rt::Source::Global(Global(1)), rt::Source::Const(Const(3))).compile();
    assert_eq!(inst.execute(&mut context), Outcome::Continue);
    assert_eq!(context.get_global(Global(4)), 1);
    let inst = ne(rt::Sink::Global(Global(4)), rt::Source::Register(Register(3)), rt::Source::Const(Const(42))).compile();
    assert_eq!(inst.execute(&mut context), Outcome::Continue);
    assert_eq!(context.get_global(Global(4)), 0);
    assert_eq!(context.pc(), 6);
}

#[test]
fn program_with_every_opcode_ends_the_same_once_specialized() {
    // r1 := 1; for r0 in (6..=1).rev(): r1 := r1 * r0; g0 += (r0 == 3); g1 += (r0 != 3)
    let dynamic = vec![
        rt::Inst::add(Register(0), Register(0), Const(6)),
        rt::Inst::add(Register(1), Register(1), Const(1)),
        rt::Inst::branch_eqz(11, Register(0)),
        rt::Inst::mul(Register(1), Register(1), Register(0)),
        eq(rt::Sink::Register(Register(2)), rt::Source::Register(Register(0)), rt::Source::Const(Const(3))),
        rt::Inst::add(Global(0), Global(0), Register(2)),
        ne(rt::Sink::Global(Global(2)), rt::Source::Register(Register(0)), rt::Source::Const(Const(3))),
        rt::Inst::add(Global(1), Global(1), Global(2)),
        rt::Inst::sub(Register(0), Register(0), Const(1)),
        rt::Inst::branch(2),
        rt::Inst::branch(2),
        rt::Inst::ret(Register(1)),
    ];
    let specialized = compile_all(&dynamic);
    assert_eq!(specialized.len(), dynamic.len());
    assert!(matches!(specialized[3], Inst::MulRrr(_)));
    assert!(matches!(specialized[4], Inst::EqRrc(_)));
    assert!(matches!(specialized[6], Inst::NeGrc(_)));
    let mut direct = Context::default();
    rt::execute(&dynamic, &mut direct);
    let mut fused = Context::default();
    execute(&specialized, &mut fused);
    assert_eq!(direct.get_reg(Register(0)), 720);
    assert_eq!(direct.get_global(Global(0)), 1);
    assert_eq!(direct.get_global(Global(1)), 5);
    assert_eq!(direct.pc(), 11);
    same_state(&direct, &fused);
}

#[test]
fn each_kind_combination_has_its_variant() {
    assert!(matches!(rt::Inst::add(Register(1), Register(2), Register(3)).compile(), Inst::AddRrr(_)));
    assert!(matches!(rt::Inst::add(Register(1), Register(2), Global(3)).compile(), Inst::AddRrg(_)));
    assert!(matches!(rt::Inst::add(Register(1), Register(2), Const(3)).compile(), Inst::AddRrc(_)));
    assert!(matches!(rt::Inst::add(Register(1), Global(2), Register(3)).compile(), Inst::AddRgr(_)));
    assert!(matches!(rt::Inst::add(Register(1), Global(2), Global(3)).compile(), Inst::AddRgg(_)));
    assert!(matches!(rt::Inst::add(Register(1), Global(2), Const(3)).compile(), Inst::AddRgc(_)));
    assert!(matches!(rt::Inst::add(Register(1), Const(2), Register(3)).compile(), Inst::AddRcr(_)));
    assert!(matches!(rt::Inst::add(Register(1), Const(2), Global(3)).compile(), Inst::AddRcg(_)));
    assert!(matches!(rt::Inst::add(Register(1), Const(2), Const(3)).compile(), Inst::AddRcc(_)));
    assert!(matches!(rt::Inst::add(Global(1), Register(2), Register(3)).compile(), Inst::AddGrr(_)));
    assert!(matches!(rt::Inst::add(Global(1), Register(2), Global(3)).compile(), Inst::AddGrg(_)));
    assert!(matches!(rt::Inst::add(Global(1), Register(2), Const(3)).compile(), Inst::AddGrc(_)));
    assert!(matches!(rt::Inst::add(Global(1), Global(2), Register(3)).compile(), Inst::AddGgr(_)));
    assert!(matches!(rt::Inst::add(Global(1), Global(2), Global(3)).compile(), Inst::AddGgg(_)));
    assert!(matches!(rt::Inst::add(Global(1), Global(2), Const(3)).compile(), Inst::AddGgc(_)));
    assert!(matches!(rt::Inst::add(Global(1), Const(2), Register(3)).compile(), Inst::AddGcr(_)));
    assert!(matches!(rt::Inst::add(Global(1), Const(2), Global(3)).compile(), Inst::AddGcg(_)));
    assert!(matches!(rt::Inst::add(Global(1), Const(2), Const(3)).compile(), Inst::AddGcc(_)));
    assert!(matches!(rt::Inst::sub(Register(1), Register(2), Register(3)).compile(), Inst::SubRrr(_)));
    assert!(matches!(rt::Inst::sub(Register(1), Const(2), Global(3)).compile(), Inst::SubRcg(_)));
    assert!(matches!(rt::Inst::sub(Global(1), Global(2), Global(3)).compile(), Inst::SubGgg(_)));
    assert!(matches!(rt::Inst::sub(Global(1), Register(2), Const(3)).compile(), Inst::SubGrc(_)));
    assert!(matches!(rt::Inst::mul(Register(1), Register(2), Register(3)).compile(), Inst::MulRrr(_)));
    assert!(matches!(rt::Inst::mul(Register(1), Global(2), Const(3)).compile(), Inst::MulRgc(_)));
    assert!(matches!(rt::Inst::mul(Global(1), Const(2), Register(3)).compile(), Inst::MulGcr(_)));
    assert!(matches!(rt::Inst::mul(Global(1), Global(2), Global(3)).compile(), Inst::MulGgg(_)));
    assert!(matches!(eq(rt::Sink::Register(Register(1)), rt::Source::Register(Register(2)), rt::Source::Const(Const(3))).compile(), Inst::EqRrc(_)));
    assert!(matches!(eq(rt::Sink::Global(Global(1)), rt::Source::Global(Global(2)), rt::Source::Global(Global(3))).compile(), Inst::EqGgg(_)));
    assert!(matches!(eq(rt::Sink::Global(Global(1)), rt::Source::Const(Const(2)), rt::Source::Register(Register(3))).compile(), Inst::EqGcr(_)));
    assert!(matches!(ne(rt::Sink::Register(Register(1)), rt::Source::Const(Const(2)), rt::Source::Const(Const(3))).compile(), Inst::NeRcc(_)));
    assert!(matches!(ne(rt::Sink::Register(Register(1)), rt::Source::Global(Global(2)), rt::Source::Register(Register(3))).compile(), Inst::NeRgr(_)));
    assert!(matches!(ne(rt::Sink::Global(Global(1)), rt::Source::Register(Register(2)), rt::Source::Global(Global(3))).compile(), Inst::NeGrg(_)));
    assert!(matches!(rt::Inst::branch(3).compile(), Inst::Branch(_)));
    assert!(matches!(rt::Inst::branch_eqz(3, Register(1)).compile(), Inst::BranchEqzR(_)));
    assert!(matches!(rt::Inst::branch_eqz(3, Const(1)).compile(), Inst::BranchEqzC(_)));
    assert!(matches!(rt::Inst::branch_eqz(3, Global(1)).compile(), Inst::BranchEqzG(_)));
    assert!(matches!(rt::Inst::ret(Register(1)).compile(), Inst::ReturnR(_)));
    assert!(matches!(rt::Inst::ret(Const(1)).compile(), Inst::ReturnC(_)));
    assert!(matches!(rt::Inst::ret(Global(1)).compile(), Inst::ReturnG(_)));
}

#[test]
fn specialized_instruction_keeps_its_operands() {
    match rt::Inst::sub(Global(4), Const(9), Register(5)).compile() {
        Inst::SubGcr(inst) => {
            assert_eq!(inst.result.into_usize(), 4);
            assert_eq!(inst.lhs.into_bits(), 9);
            assert_eq!(inst.rhs.into_usize(), 5);
        }
        _ => panic!("wrong variant"),
    }
    match rt::Inst::branch_eqz(6, Global(2)).compile() {
        Inst::BranchEqzG(inst) => {
            assert_eq!(inst.target, 6);
            assert_eq!(inst.condition.into_usize(), 2);
        }
        _ => panic!("wrong variant"),
    }
    let mut context = Context::default();
    context.set_reg(Register(5), 10);
    let inst = rt::Inst::sub(Global(4), Const(9), Register(5)).compile();
    assert_eq!(inst.execute(&mut context), Outcome::Continue);
    assert_eq!(context.get_global(Global(4)), u64::MAX);
    assert_eq!(context.pc(), 1);
}

fn counter_over_globals(repetitions: u64) -> Vec<rt::Inst> {
    vec![
        rt::Inst::add(Global(0), Global(0), Const(repetitions)),
        rt::Inst::add(Global(1), Global(1), Const(1)),
        rt::Inst::branch_eqz(7, Global(0)),
        rt::Inst::add(Global(1), Global(1), Global(0)),
        rt::Inst::sub(Global(1), Global(1), Const(3)),
        rt::Inst::sub(Global(0), Global(0), Const(1)),
        rt::Inst::branch(2),
        rt::Inst::ret(Global(1)),
    ]
}

fn counter_over_registers(repetitions: u64) -> Vec<rt::Inst> {
    vec![
        rt::Inst::add(Register(2), Register(2), Const(repetitions)),
        rt::Inst::add(Register(1), Register(1), Const(1)),
        rt::Inst::branch_eqz(7, Register(2)),
        rt::Inst::add(Register(1), Register(1), Register(2)),
        rt::Inst::sub(Register(1), Register(1), Const(3)),
        rt::Inst::sub(Register(2), Register(2), Const(1)),
        rt::Inst::branch(2),
        rt::Inst::ret(Register(1)),
    ]
}

#[test]
fn globals_only_program_matches_registers_only_program() {
    let over_globals = compile_all(&counter_over_globals(10));
    assert!(matches!(over_globals[0], Inst::AddGgc(_)));
    assert!(matches!(over_globals[2], Inst::BranchEqzG(_)));
    assert!(matches!(over_globals[3], Inst::AddGgg(_)));
    assert!(matches!(over_globals[4], Inst::SubGgc(_)));
    assert!(matches!(over_globals[7], Inst::ReturnG(_)));
    let over_registers = compile_all(&counter_over_registers(10));
    assert!(matches!(over_registers[3], Inst::AddRrr(_)));
    assert!(matches!(over_registers[7], Inst::ReturnR(_)));
    let mut globals = Context::default();
    execute(&over_globals, &mut globals);
    let mut registers = Context::default();
    execute(&over_registers, &mut registers);
    // 1 + (10 + 9 + ... + 1) - 3 * 10
    assert_eq!(globals.get_reg(Register(0)), 26);
    assert_eq!(registers.get_reg(Register(0)), 26);
    assert_eq!(globals.get_global(Global(1)), registers.get_reg(Register(1)));
    assert_eq!(globals.get_global(Global(0)), registers.get_reg(Register(2)));
    assert_eq!(globals.pc(), registers.pc());
}

#[test]
fn specialized_program_ends_as_the_dynamic_one() {
    for repetitions in [0u64, 1, 5, 37] {
        let dynamic = counter_over_globals(repetitions);
        let specialized = compile_all(&dynamic);
        assert_eq!(specialized.len(), dynamic.len());
        let mut direct = Context::default();
        direct.set_global(Global(1), u64::MAX);
        rt::execute(&dynamic, &mut direct);
        let mut fused = Context::default();
        fused.set_global(Global(1), u64::MAX);
        execute(&specialized, &mut fused);
        assert_eq!(direct.pc(), fused.pc());
        for i in 0..16 {
            assert_eq!(direct.get_reg(Register(i)), fused.get_reg(Register(i)));
            assert_eq!(direct.get_global(Global(i)), fused.get_global(Global(i)));
        }
    }
    assert!(compile_all(&[]).is_empty());
}
