use crazyvm::instructions::{Bit13Literal, Opcode};
use crazyvm::machine::{CrazyVM, RuntimeError, StepAction};
use crazyvm::registers::Register;

use Register::{A, B, C, D, SP};

fn lit(v: u16) -> Bit13Literal {
    Bit13Literal(v)
}

fn machine(ops: &[Opcode], mem_size: usize) -> CrazyVM {
    let words: Vec<u32> = ops.iter().map(|op| op.encode()).collect();
    CrazyVM::new(&words, mem_size)
}

/// Steps `n` times, requiring each step to continue silently.
fn run(vm: &mut CrazyVM, n: usize) {
    for _ in 0..n {
        assert_eq!(vm.step().unwrap(), StepAction::Continue);
    }
}

#[test]
fn arithmetic_add_leaves_sources_unchanged() {
    let mut vm = machine(&[Opcode::Imm(A, lit(5)), Opcode::Imm(B, lit(3)), Opcode::Add(A, B, C)], 16);
    run(&mut vm, 3);
    let regs = vm.registers();
    assert_eq!(regs.c, 8);
    assert_eq!(regs.a, 5);
    assert_eq!(regs.b, 3);
}

#[test]
fn arithmetic_wraps_like_the_hardware() {
    let mut vm = machine(&[Opcode::Imm(A, lit(0)), Opcode::Imm(B, lit(1)), Opcode::Sub(A, B, C)], 16);
    run(&mut vm, 3);
    assert_eq!(vm.registers().c, u32::MAX);
}

#[test]
fn division_by_zero_is_a_fault() {
    let mut vm = machine(&[Opcode::Imm(A, lit(1)), Opcode::Imm(B, lit(0)), Opcode::Div(A, B, C)], 16);
    run(&mut vm, 2);
    assert_eq!(vm.step(), Err(RuntimeError::DivisionByZero));
}

#[test]
fn stack_lifo_restores_registers() {
    let mut vm = machine(
        &[
            Opcode::Imm(A, lit(1)),
            Opcode::Imm(B, lit(2)),
            Opcode::Push(A),
            Opcode::Push(B),
            Opcode::Imm(A, lit(9)),
            Opcode::Imm(B, lit(9)),
            Opcode::Pop(B),
            Opcode::Pop(A),
        ],
        16,
    );
    run(&mut vm, 8);
    let regs = vm.registers();
    assert_eq!(regs.a, 1);
    assert_eq!(regs.b, 2);
    assert_eq!(regs.sp, 0);
}

#[test]
fn pop_from_empty_stack_underflows() {
    let mut vm = machine(&[Opcode::Pop(A)], 16);
    assert_eq!(vm.step(), Err(RuntimeError::StackUnderflow));
    assert_eq!(vm.registers().sp, 0);
}

#[test]
fn push_at_capacity_overflows_without_mutating() {
    // One memory word: the stack pointer after a push would reach capacity.
    let mut vm = machine(&[Opcode::Push(A)], 1);
    assert_eq!(vm.step(), Err(RuntimeError::StackOverflow));
    let regs = vm.registers();
    assert_eq!(regs.sp, 0);
    assert_eq!(vm.dump_state().1, Vec::<u32>::new());
}

#[test]
fn pop_with_wild_stack_pointer_reports_memory_write() {
    let mut vm = machine(&[Opcode::Imm(SP, lit(100)), Opcode::Pop(A)], 10);
    run(&mut vm, 1);
    assert_eq!(vm.step(), Err(RuntimeError::MemoryWrite));
}

#[test]
fn compare_less_takes_jl() {
    let mut vm = machine(
        &[Opcode::Imm(A, lit(3)), Opcode::Imm(B, lit(5)), Opcode::Cmp(A, B), Opcode::Jl(lit(0))],
        16,
    );
    run(&mut vm, 4);
    assert_eq!(vm.registers().pc, 0);
}

#[test]
fn compare_greater_takes_jg() {
    let mut vm = machine(
        &[Opcode::Imm(A, lit(3)), Opcode::Imm(B, lit(5)), Opcode::Cmp(B, A), Opcode::Jg(lit(0))],
        16,
    );
    run(&mut vm, 4);
    assert_eq!(vm.registers().pc, 0);
}

#[test]
fn compare_equal_takes_je_but_not_jz() {
    // A = 3: equal to itself but not zero, so Jz falls through...
    let mut vm = machine(
        &[Opcode::Imm(A, lit(3)), Opcode::Cmp(A, A), Opcode::Jz(lit(0))],
        16,
    );
    run(&mut vm, 3);
    assert_eq!(vm.registers().pc, 3);

    // ...while Je branches.
    let mut vm = machine(
        &[Opcode::Imm(A, lit(3)), Opcode::Cmp(A, A), Opcode::Je(lit(0))],
        16,
    );
    run(&mut vm, 3);
    assert_eq!(vm.registers().pc, 0);

    // A zero register does take Jz.
    let mut vm = machine(
        &[Opcode::Imm(A, lit(0)), Opcode::Cmp(A, A), Opcode::Jz(lit(0))],
        16,
    );
    run(&mut vm, 3);
    assert_eq!(vm.registers().pc, 0);
}

#[test]
fn jge_requires_both_bits_and_never_fires_from_one_compare() {
    // The flag computation sets exactly one of the less/equal/greater bits,
    // so the literal both-bits test of Jge cannot pass after one Cmp.
    let mut vm = machine(
        &[Opcode::Imm(A, lit(3)), Opcode::Cmp(A, A), Opcode::Jge(lit(0))],
        16,
    );
    run(&mut vm, 3);
    assert_eq!(vm.registers().pc, 3);

    let mut vm = machine(
        &[Opcode::Imm(A, lit(4)), Opcode::Imm(B, lit(3)), Opcode::Cmp(A, B), Opcode::Jge(lit(0))],
        16,
    );
    run(&mut vm, 4);
    assert_eq!(vm.registers().pc, 4);
}

#[test]
fn jne_takes_branch_on_difference() {
    let mut vm = machine(
        &[Opcode::Imm(A, lit(1)), Opcode::Imm(B, lit(2)), Opcode::Cmp(A, B), Opcode::Jne(lit(1))],
        16,
    );
    run(&mut vm, 4);
    assert_eq!(vm.registers().pc, 1);
}

#[test]
fn function_body_is_inert_until_called() {
    // 0: Fn  1: Imm(A,7) (body)  2: Ret  3: Call(0)  4: Imm(B,1)
    let mut vm = machine(
        &[
            Opcode::Fn,
            Opcode::Imm(A, lit(7)),
            Opcode::Ret,
            Opcode::Call(lit(0)),
            Opcode::Imm(B, lit(1)),
        ],
        16,
    );

    // The linear pass falls through the body without executing it.
    run(&mut vm, 3);
    assert_eq!(vm.registers().a, 0);
    assert_eq!(vm.registers().pc, 3);

    // Call enters the body one word past the Fn marker.
    run(&mut vm, 1);
    assert_eq!(vm.registers().pc, 1);

    // The body runs for real now.
    run(&mut vm, 1);
    assert_eq!(vm.registers().a, 7);

    // Ret returns to the instruction after the Call.
    run(&mut vm, 1);
    assert_eq!(vm.registers().pc, 4);
    run(&mut vm, 1);
    assert_eq!(vm.registers().b, 1);

    // And the program then falls off its end.
    assert_eq!(vm.step(), Err(RuntimeError::NoNextInstruction));
}

#[test]
fn exit_syscall_returns_the_code() {
    let mut vm = machine(&[Opcode::Imm(A, lit(0)), Opcode::Imm(B, lit(42)), Opcode::Syscall], 16);
    run(&mut vm, 2);
    match vm.step() {
        Ok(StepAction::Exit(code)) => assert_eq!(code, 42),
        other => panic!("expected an exit, got {:?}", other),
    }
    // No further state mutation beyond the fetch itself.
    let regs = vm.registers();
    assert_eq!(regs.a, 0);
    assert_eq!(regs.b, 42);
    assert_eq!(regs.pc, 3);
    assert_eq!(regs.sp, 0);
}

#[test]
fn stepping_past_the_end_is_no_next_instruction() {
    let mut vm = machine(&[Opcode::Imm(A, lit(1))], 16);
    run(&mut vm, 1);
    assert_eq!(vm.step(), Err(RuntimeError::NoNextInstruction));
    // The signal repeats and mutates nothing.
    assert_eq!(vm.step(), Err(RuntimeError::NoNextInstruction));
    assert_eq!(vm.registers().pc, 1);
}

#[test]
fn unknown_opcode_is_a_fault() {
    let mut vm = CrazyVM::new(&[0xff], 16);
    assert_eq!(vm.step(), Err(RuntimeError::UnknownOpcode));
}

#[test]
fn unimplemented_syscall_is_a_fault() {
    let mut vm = machine(&[Opcode::Imm(A, lit(3)), Opcode::Syscall], 16);
    run(&mut vm, 1);
    assert_eq!(vm.step(), Err(RuntimeError::UnimplementedSyscall));
}

#[test]
fn stack_arithmetic_combines_in_operand_order() {
    let ops = |op: Opcode| {
        vec![
            Opcode::Imm(A, lit(6)),
            Opcode::Push(A),
            Opcode::Imm(A, lit(3)),
            Opcode::Push(A),
            op,
            Opcode::Pop(B),
        ]
    };

    let mut vm = machine(&ops(Opcode::StackAdd), 16);
    run(&mut vm, 6);
    assert_eq!(vm.registers().b, 9);

    let mut vm = machine(&ops(Opcode::StackSub), 16);
    run(&mut vm, 6);
    assert_eq!(vm.registers().b, 3);

    let mut vm = machine(&ops(Opcode::StackMul), 16);
    run(&mut vm, 6);
    assert_eq!(vm.registers().b, 18);

    let mut vm = machine(&ops(Opcode::StackDiv), 16);
    run(&mut vm, 6);
    assert_eq!(vm.registers().b, 2);
}

#[test]
fn stack_arithmetic_faults() {
    let mut vm = machine(&[Opcode::StackAdd], 16);
    assert_eq!(vm.step(), Err(RuntimeError::StackUnderflow));

    let mut vm = machine(
        &[
            Opcode::Imm(A, lit(5)),
            Opcode::Push(A),
            Opcode::Imm(A, lit(0)),
            Opcode::Push(A),
            Opcode::StackDiv,
        ],
        16,
    );
    run(&mut vm, 4);
    assert_eq!(vm.step(), Err(RuntimeError::DivisionByZero));
}

#[test]
fn write_syscall_emits_the_memory_range() {
    let mut vm = machine(
        &[
            Opcode::Imm(A, lit(72)),
            Opcode::Push(A),
            Opcode::Imm(A, lit(105)),
            Opcode::Push(A),
            Opcode::Imm(A, lit(2)),
            Opcode::Imm(C, lit(0)),
            Opcode::Imm(D, lit(2)),
            Opcode::Syscall,
        ],
        16,
    );
    run(&mut vm, 7);
    match vm.step() {
        Ok(StepAction::Output(words)) => assert_eq!(words, vec![72, 105]),
        other => panic!("expected output, got {:?}", other),
    }
}

#[test]
fn write_syscall_rejects_a_range_outside_memory() {
    let mut vm = machine(
        &[Opcode::Imm(A, lit(2)), Opcode::Imm(C, lit(100)), Opcode::Imm(D, lit(1)), Opcode::Syscall],
        10,
    );
    run(&mut vm, 3);
    assert_eq!(vm.step(), Err(RuntimeError::MemoryRead));
}

#[test]
fn read_syscall_stores_a_truncated_line() {
    // The read syscall fills memory at C for up to D bytes; the write
    // syscall afterwards emits that very range.
    let mut vm = machine(
        &[
            Opcode::Imm(C, lit(2)),
            Opcode::Imm(D, lit(3)),
            Opcode::Imm(A, lit(1)),
            Opcode::Syscall,
            Opcode::Imm(A, lit(2)),
            Opcode::Syscall,
        ],
        16,
    );
    run(&mut vm, 3);
    match vm.step() {
        Ok(StepAction::AwaitInput) => {}
        other => panic!("expected an input request, got {:?}", other),
    }
    vm.provide_input(&[10, 11, 12, 13]).unwrap();
    // The byte count is capped by D and register A carries the last byte.
    assert_eq!(vm.registers().a, 12);
    run(&mut vm, 1);
    match vm.step() {
        Ok(StepAction::Output(words)) => assert_eq!(words, vec![10, 11, 12]),
        other => panic!("expected output, got {:?}", other),
    }
}

#[test]
fn read_syscall_rejects_an_overflowing_destination() {
    let mut vm = machine(
        &[Opcode::Imm(C, lit(2)), Opcode::Imm(D, lit(9)), Opcode::Imm(A, lit(1)), Opcode::Syscall],
        4,
    );
    run(&mut vm, 3);
    assert!(matches!(vm.step(), Ok(StepAction::AwaitInput)));
    assert_eq!(
        vm.provide_input(&[1, 2, 3, 4, 5]),
        Err(RuntimeError::StackOverflow)
    );
}

#[test]
fn dump_state_reports_registers_and_stack() {
    let mut vm = machine(
        &[Opcode::Imm(A, lit(4)), Opcode::Push(A), Opcode::Imm(B, lit(6)), Opcode::Push(B)],
        16,
    );
    run(&mut vm, 4);
    let (regs, stack) = vm.dump_state();
    // SP, PC, Flag, Zero, A, B, C, D
    assert_eq!(regs, vec![2, 4, 0, 0, 4, 6, 0, 0]);
    assert_eq!(stack, vec![4, 6]);
}
