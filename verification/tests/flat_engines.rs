use dispatch_vm::{closure_loop, closure_tail, closure_tail_2, switch, switch_2, switch_tail, switch_tail_2};
use dispatch_vm::{Context, Outcome};

fn switch_counter(repetitions: u64) -> Vec<switch::Inst> {
    vec![
        // Store `repetitions` into r0.
        // Note: r0 is our loop counter register.
        switch::Inst::AddImm { result: 0, src: 0, imm: repetitions },
        // Branch to the end if r0 is zero.
        switch::Inst::BranchEqz { target: 4, condition: 0 },
        // Decrease r0 by 1.
        switch::Inst::SubImm { result: 0, src: 0, imm: 1 },
        // Jump back to the loop header.
        switch::Inst::Branch { target: 1 },
        // Return value and end function execution.
        switch::Inst::Return { result: 0 },
    ]
}

fn switch_comps(repetitions: u64) -> Vec<switch::Inst> {
    vec![
        // Store `repetitions` into r0.
        // Note: r0 is our loop counter register.
        switch::Inst::AddImm { result: 0, src: 0, imm: repetitions },
        // Store `1` into r1.
        // Note: r1 is our accumulator register.
        switch::Inst::AddImm { result: 1, src: 1, imm: 1 },
        // Branch to the end if r0 is zero.
        switch::Inst::BranchEqz { target: 7, condition: 0 },
        // Multiply r1 with r0.
        switch::Inst::Mul { result: 1, lhs: 1, rhs: 0 },
        // Subtract r0 from r1.
        switch::Inst::Sub { result: 1, lhs: 1, rhs: 0 },
        // Decrease r0 by 1.
        switch::Inst::SubImm { result: 0, src: 0, imm: 1 },
        // Jump back to the loop header.
        switch::Inst::Branch { target: 2 },
        // Return value and end function execution.
        switch::Inst::Return { result: 1 },
    ]
}

/// What `switch_comps` computes, step by step, in plain arithmetic.
fn comps_expected(repetitions: u64) -> u64 {
    let mut r0 = repetitions;
    let mut r1: u64 = 1;
    while r0 != 0 {
        r1 = r1.wrapping_mul(r0);
        r1 = r1.wrapping_sub(r0);
        r0 -= 1;
    }
    r1
}

fn switch_2_counter(repetitions: u64) -> Vec<switch_2::Inst> {
    vec![
        switch_2::Inst::AddImm0 { imm: repetitions },
        switch_2::Inst::BranchEqz0 { target: 4 },
        switch_2::Inst::SubImm0 { imm: 1 },
        switch_2::Inst::Branch { target: 1 },
        switch_2::Inst::Return { result: 0 },
    ]
}

fn switch_tail_2_counter(repetitions: u64) -> [switch_tail_2::Inst; 5] {
    [
        switch_tail_2::Inst::AddImm0 { imm: repetitions },
        switch_tail_2::Inst::BranchEqz0 { target: 4 },
        switch_tail_2::Inst::SubImm0 { imm: 1 },
        switch_tail_2::Inst::Branch { target: 1 },
        switch_tail_2::Inst::Return { result: 0 },
    ]
}

fn closure_loop_counter(repetitions: u64) -> Vec<closure_loop::Inst> {
    vec![
        closure_loop::Inst::add_imm(0, 0, repetitions),
        closure_loop::Inst::branch_eqz(4, 0),
        closure_loop::Inst::sub_imm(0, 0, 1),
        closure_loop::Inst::branch(1),
        closure_loop::Inst::ret(0),
    ]
}

fn closure_tail_counter(repetitions: u64) -> Vec<closure_tail::Inst> {
    vec![
        closure_tail::Inst::add_imm(0, 0, repetitions),
        closure_tail::Inst::branch_eqz(4, 0),
        closure_tail::Inst::sub_imm(0, 0, 1),
        closure_tail::Inst::branch(1),
        closure_tail::Inst::ret(0),
    ]
}

fn closure_tail_2_counter(repetitions: u64) -> Vec<closure_tail_2::Inst> {
    vec![
        closure_tail_2::Inst::add_imm_0(repetitions),
        closure_tail_2::Inst::branch_eqz_0(4),
        closure_tail_2::Inst::sub_imm_0(1),
        closure_tail_2::Inst::branch(1),
        closure_tail_2::Inst::ret(0),
    ]
}

#[test]
fn switch_counter_loop() {
    let repetitions = 100_000_000;
    let insts = switch_counter(repetitions);
    let mut context = Context::default();
    switch::execute(&insts, &mut context);
    assert_eq!(context.get_reg(0), 0);
    assert_eq!(context.pc(), 4);
}

#[test]
fn switch_more_comps() {
    let repetitions = 100_000_000;
    let insts = switch_comps(repetitions);
    let mut context = Context::default();
    switch::execute(&insts, &mut context);
    assert_eq!(context.get_reg(0), comps_expected(repetitions));
    assert_eq!(context.get_reg(1), comps_expected(repetitions));
    assert_eq!(context.pc(), 7);
}

#[test]
fn switch_2_counter_loop() {
    let repetitions = 100_000_000;
    let insts = switch_2_counter(repetitions);
    let mut context = Context::default();
    switch_2::execute(&insts, &mut context);
    assert_eq!(context.get_reg(0), 0);
}

#[test]
fn switch_tail_counter_loop() {
    let repetitions = 100_000_000;
    let insts = switch_counter(repetitions);
    let mut context = Context::default();
    switch_tail::execute(&insts, &mut context);
    assert_eq!(context.get_reg(0), 0);
}

#[test]
fn switch_tail_more_comps() {
    let repetitions = 100_000_000;
    let insts = switch_comps(repetitions);
    let mut context = Context::default();
    switch_tail::execute(&insts, &mut context);
    assert_eq!(context.get_reg(0), comps_expected(repetitions));
}

#[test]
fn switch_tail_2_counter_loop() {
    let repetitions = 100_000_000;
    let insts = switch_tail_2_counter(repetitions);
    let mut context = Context::default();
    switch_tail_2::execute(&insts, &mut context);
    assert_eq!(context.get_reg(0), 0);
}

#[test]
fn closure_loop_counter_loop() {
    let repetitions = 100_000_000;
    let insts = closure_loop_counter(repetitions);
    let mut context = Context::default();
    closure_loop::execute(&insts, &mut context);
    assert_eq!(context.get_reg(0), 0);
}

#[test]
fn closure_tail_counter_loop() {
    let repetitions = 100_000_000;
    let insts = closure_tail_counter(repetitions);
    let mut context = Context::default();
    closure_tail::execute(&insts, &mut context);
    assert_eq!(context.get_reg(0), 0);
}

#[test]
fn closure_tail_2_counter_loop() {
    let repetitions = 100_000_000;
    let insts = closure_tail_2_counter(repetitions);
    let mut context = Context::default();
    closure_tail_2::execute(&insts, &mut context);
    assert_eq!(context.get_reg(0), 0);
}

#[test]
fn counter_runs_five_iterations_on_every_engine() {
    // r0 := 5, then decrement to zero: the subtraction is reached five times,
    // and r1 counts how often by being bumped beside it.
    let insts = vec![
        switch::Inst::AddImm { result: 0, src: 0, imm: 5 },
        switch::Inst::BranchEqz { target: 5, condition: 0 },
        switch::Inst::SubImm { result: 0, src: 0, imm: 1 },
        switch::Inst::AddImm { result: 1, src: 1, imm: 1 },
        switch::Inst::Branch { target: 1 },
        switch::Inst::Return { result: 0 },
    ];
    let mut context = Context::default();
    switch::execute(&insts, &mut context);
    assert_eq!(context.get_reg(0), 0);
    assert_eq!(context.get_reg(1), 5);
    assert_eq!(context.pc(), 5);

    let mut context = Context::default();
    switch::execute(&switch_counter(5), &mut context);
    assert_eq!(context.get_reg(0), 0);
    let mut context = Context::default();
    switch_2::execute(&switch_2_counter(5), &mut context);
    assert_eq!(context.get_reg(0), 0);
    let mut context = Context::default();
    switch_tail::execute(&switch_counter(5), &mut context);
    assert_eq!(context.get_reg(0), 0);
    let mut context = Context::default();
    switch_tail_2::execute(&switch_tail_2_counter(5), &mut context);
    assert_eq!(context.get_reg(0), 0);
    let mut context = Context::default();
    closure_loop::execute(&closure_loop_counter(5), &mut context);
    assert_eq!(context.get_reg(0), 0);
    let mut context = Context::default();
    closure_tail::execute(&closure_tail_counter(5), &mut context);
    assert_eq!(context.get_reg(0), 0);
    let mut context = Context::default();
    closure_tail_2::execute(&closure_tail_2_counter(5), &mut context);
    assert_eq!(context.get_reg(0), 0);
}

#[test]
fn counter_with_zero_takes_the_branch_at_once() {
    let insts = vec![
        switch::Inst::AddImm { result: 0, src: 0, imm: 0 },
        switch::Inst::BranchEqz { target: 5, condition: 0 },
        switch::Inst::SubImm { result: 0, src: 0, imm: 1 },
        switch::Inst::AddImm { result: 1, src: 1, imm: 1 },
        switch::Inst::Branch { target: 1 },
        switch::Inst::Return { result: 0 },
    ];
    let mut context = Context::default();
    switch::execute(&insts, &mut context);
    assert_eq!(context.get_reg(0), 0);
    assert_eq!(context.get_reg(1), 0);

    let mut context = Context::default();
    closure_loop::execute(&closure_loop_counter(0), &mut context);
    assert_eq!(context.get_reg(0), 0);
    let mut context = Context::default();
    closure_tail_2::execute(&closure_tail_2_counter(0), &mut context);
    assert_eq!(context.get_reg(0), 0);
    let mut context = Context::default();
    switch_2::execute(&switch_2_counter(0), &mut context);
    assert_eq!(context.get_reg(0), 0);
}

#[test]
fn engines_agree_on_the_whole_state() {
    // The same program on the tag engine and on the threaded tag engine.
    let insts = switch_comps(20);
    let mut tagged = Context::default();
    switch::execute(&insts, &mut tagged);
    let mut threaded = Context::default();
    switch_tail::execute(&insts, &mut threaded);
    assert_eq!(tagged.pc(), threaded.pc());
    for reg in 0..16 {
        assert_eq!(tagged.get_reg(reg), threaded.get_reg(reg));
        assert_eq!(tagged.get_global(reg), threaded.get_global(reg));
    }
    assert_eq!(tagged.get_reg(0), comps_expected(20));

    // The same counting loop on the three kinds of engine, from r0 = 3.
    let mut tagged = Context::default();
    tagged.set_reg(0, 3);
    switch::execute(&switch_counter(4), &mut tagged);
    let mut indirect = Context::default();
    indirect.set_reg(0, 3);
    closure_loop::execute(&closure_loop_counter(4), &mut indirect);
    let mut threaded = Context::default();
    threaded.set_reg(0, 3);
    closure_tail::execute(&closure_tail_counter(4), &mut threaded);
    let mut promoted = Context::default();
    promoted.set_reg(0, 3);
    switch_2::execute(&switch_2_counter(4), &mut promoted);
    for reg in 0..16 {
        assert_eq!(tagged.get_reg(reg), indirect.get_reg(reg));
        assert_eq!(tagged.get_reg(reg), threaded.get_reg(reg));
        assert_eq!(tagged.get_reg(reg), promoted.get_reg(reg));
    }
    assert_eq!(tagged.pc(), indirect.pc());
    assert_eq!(tagged.pc(), threaded.pc());
    assert_eq!(tagged.pc(), promoted.pc());
}

#[test]
fn promoted_register_is_written_back_on_return() {
    // r0 is held apart while the program runs; the return must put it back.
    let insts = vec![
        switch_2::Inst::AddImm0 { imm: 7 },
        switch_2::Inst::AddImm { result: 2, src: 3, imm: 40 },
        switch_2::Inst::Return { result: 0 },
    ];
    let mut context = Context::default();
    switch_2::execute(&insts, &mut context);
    assert_eq!(context.get_reg(0), 7);
    assert_eq!(context.get_reg(2), 40);

    // Returning another register overwrites r0 with it.
    let insts = vec![
        closure_tail_2::Inst::add_imm_0(7),
        closure_tail_2::Inst::add_imm(2, 3, 40),
        closure_tail_2::Inst::ret(2),
    ];
    let mut context = Context::default();
    closure_tail_2::execute(&insts, &mut context);
    assert_eq!(context.get_reg(0), 40);

    let insts = [
        switch_tail_2::Inst::SubImm0 { imm: 1 },
        switch_tail_2::Inst::Return { result: 0 },
    ];
    let mut context = Context::default();
    switch_tail_2::execute(&insts, &mut context);
    assert_eq!(context.get_reg(0), u64::MAX);
}

#[test]
fn single_instruction_with_its_continuation() {
    // `tail_execute` runs the instruction it is called on, then the program
    // from wherever that instruction left the program counter.
    let insts = switch_counter(3);
    let mut context = Context::default();
    context.set_reg(0, 2);
    let mut exec = switch_tail::ExecContext { insts: &insts, context: &mut context };
    let first = switch::Inst::Branch { target: 1 };
    assert_eq!(first.tail_execute(&mut exec), Outcome::Return);
    assert_eq!(context.get_reg(0), 0);
    assert_eq!(context.pc(), 4);

    let insts = closure_tail_counter(3);
    let mut context = Context::default();
    let mut exec = closure_tail::ExecContext { insts: &insts, context: &mut context };
    assert_eq!(closure_tail::Inst::ret(0).execute(&mut exec), Outcome::Return);
    assert_eq!(context.pc(), 0);
    assert_eq!(context.get_reg(0), 0);

    // The rest of a program from the middle of it, on the context as it stands.
    let insts = closure_tail_counter(3);
    let mut context = Context::default();
    context.set_reg(0, 9);
    context.branch_to(1);
    let mut exec = closure_tail::ExecContext { insts: &insts, context: &mut context };
    assert_eq!(exec.execute_next(), Outcome::Return);
    assert_eq!(context.get_reg(0), 0);
    assert_eq!(context.pc(), 4);

    // With register 0 handed along: the slot is ignored until the return.
    let insts = switch_tail_2_counter(3);
    let mut context = Context::default();
    context.set_reg(0, 1000);
    let mut exec = switch_tail_2::ExecContext { insts: &insts, context: &mut context };
    assert_eq!(switch_tail_2::Inst::SubImm0 { imm: 1 }.tail_execute_2(&mut exec, 6), Outcome::Return);
    assert_eq!(context.get_reg(0), 0);
    assert_eq!(context.pc(), 4);
    let mut context = Context::default();
    context.branch_to(4);
    let mut exec = switch_tail_2::ExecContext { insts: &insts, context: &mut context };
    assert_eq!(exec.tail_execute_next_2(77), Outcome::Return);
    assert_eq!(context.get_reg(0), 77);

    let insts = closure_tail_2_counter(3);
    let mut context = Context::default();
    let mut exec = closure_tail_2::ExecContext { insts: &insts, context: &mut context };
    assert_eq!(closure_tail_2::Inst::add_imm_0(2).execute(&mut exec, 5), Outcome::Return);
    assert_eq!(context.get_reg(0), 0);
    assert_eq!(context.pc(), 4);
    let mut context = Context::default();
    context.branch_to(4);
    let mut exec = closure_tail_2::ExecContext { insts: &insts, context: &mut context };
    assert_eq!(exec.execute_next(31), Outcome::Return);
    assert_eq!(context.get_reg(0), 31);
}
