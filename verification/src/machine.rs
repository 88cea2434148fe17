//! The execution engine: fetch, decode and execute one instruction per step.
//!
//! The whole machine transition is captured by the specification function
//! [`spec_step`], an operational semantics over [`MachineView`]; the
//! executable [`CrazyVM::step`] is proved to implement it exactly, error
//! cases included.

use vstd::prelude::*;

use crate::codec::{opcode_wf, spec_decode};
use crate::instructions::Opcode;
use crate::memory::{Ram, Rom};
use crate::registers::{read_reg, regs_zero, write_reg, Register, Registers};

verus! {

/// The virtual machine state: the read-only instruction store, the register
/// file, the data/stack memory and the skip flag.
pub struct CrazyVM {
    program: Rom,
    registers: Registers,
    memory: Ram,
    skipping_body: bool,
}

/// A runtime condition that stops a step.
///
/// `StackOverflow`, `StackUnderflow`, `MemoryWrite`, `MemoryRead` and
/// `NoNextInstruction` are recoverable signals to the driver;
/// `NoNextInstruction` in particular is the normal end of a program that
/// falls off its last word. `UnknownOpcode`, `DivisionByZero` and
/// `UnimplementedSyscall` are programming-error faults that a conforming
/// instruction stream never produces.
#[derive(Clone, Copy, PartialEq, Eq, Structural, Debug)]
pub enum RuntimeError {
    StackOverflow,
    StackUnderflow,
    MemoryWrite,
    NoNextInstruction,
    MemoryRead,
    DivisionByZero,
    UnknownOpcode,
    UnimplementedSyscall,
}

/// The diagnostic message of a runtime condition.
pub open spec fn spec_error_message(e: RuntimeError) -> Seq<char> {
    match e {
        RuntimeError::StackOverflow => seq!['S', 't', 'a', 'c', 'k', ' ', 'o', 'v', 'e', 'r', 'f', 'l', 'e', 'w', '!'],
        RuntimeError::StackUnderflow => seq!['S', 't', 'a', 'c', 'k', ' ', 'u', 'n', 'd', 'e', 'r', 'f', 'l', 'e', 'w', '!'],
        RuntimeError::MemoryWrite => seq!['F', 'a', 'i', 'l', 'e', 'd', ' ', 't', 'o', ' ', 'w', 'r', 'i', 't', 'e', ' ', 't', 'o', ' ', 'm', 'e', 'm', 'o', 'r', 'y', '!'],
        RuntimeError::NoNextInstruction => seq!['F', 'a', 'i', 'l', 'e', 'd', ' ', 't', 'o', ' ', 'g', 'e', 't', ' ', 'n', 'e', 'x', 't', ' ', 'i', 'n', 's', 't', 'r', 'u', 'c', 't', 'i', 'o', 'n', '!'],
        RuntimeError::MemoryRead => seq!['F', 'a', 'i', 'l', 'e', 'd', ' ', 't', 'o', ' ', 'r', 'e', 'a', 'd', ' ', 'f', 'r', 'o', 'm', ' ', 'm', 'e', 'm', 'o', 'r', 'y', '!'],
        RuntimeError::DivisionByZero => seq!['D', 'i', 'v', 'i', 's', 'i', 'o', 'n', ' ', 'b', 'y', ' ', 'z', 'e', 'r', 'o', '!'],
        RuntimeError::UnknownOpcode => seq!['U', 'n', 'k', 'n', 'o', 'w', 'n', ' ', 'o', 'p', 'c', 'o', 'd', 'e', ' ', 'e', 'n', 'c', 'o', 'u', 'n', 't', 'e', 'r', 'e', 'd', '!'],
        RuntimeError::UnimplementedSyscall => seq!['U', 'n', 'i', 'm', 'p', 'l', 'e', 'm', 'e', 'n', 't', 'e', 'd', ' ', 's', 'y', 's', 'c', 'a', 'l', 'l', '!'],
    }
}

impl RuntimeError {
    /// The diagnostic message the driver shows for this condition.
    pub fn message(&self) -> (s: &'static str)
        ensures
            s@ == spec_error_message(*self),
    {
        proof {
            reveal_strlit("Stack overflew!");
            reveal_strlit("Stack underflew!");
            reveal_strlit("Failed to write to memory!");
            reveal_strlit("Failed to get next instruction!");
            reveal_strlit("Failed to read from memory!");
            reveal_strlit("Division by zero!");
            reveal_strlit("Unknown opcode encountered!");
            reveal_strlit("Unimplemented syscall!");
        }
        let s = match self {
            RuntimeError::StackOverflow => "Stack overflew!",
            RuntimeError::StackUnderflow => "Stack underflew!",
            RuntimeError::MemoryWrite => "Failed to write to memory!",
            RuntimeError::NoNextInstruction => "Failed to get next instruction!",
            RuntimeError::MemoryRead => "Failed to read from memory!",
            RuntimeError::DivisionByZero => "Division by zero!",
            RuntimeError::UnknownOpcode => "Unknown opcode encountered!",
            RuntimeError::UnimplementedSyscall => "Unimplemented syscall!",
        };
        proof {
            assert(s@ =~= spec_error_message(*self));
        }
        s
    }
}

/// What a successful step asks of the driver.
#[derive(PartialEq, Eq, Debug)]
pub enum StepAction {
    /// Keep stepping.
    Continue,
    /// The program invoked the exit syscall with this code; the run is over.
    Exit(u32),
    /// The program invoked the write syscall: emit these words, each one a
    /// character code, then keep stepping.
    Output(Vec<u32>),
    /// The program invoked the read syscall: obtain a line of input and hand
    /// its bytes to [`CrazyVM::provide_input`], then keep stepping.
    AwaitInput,
}

/// The mathematical machine state.
#[verifier::ext_equal]
pub ghost struct MachineView {
    pub program: Seq<u32>,
    pub regs: Registers,
    pub mem: Seq<u32>,
    pub skipping: bool,
}

/// The outcome of one specification-level step.
pub ghost enum StepOutcome {
    Continue,
    Exit(u32),
    Output(Seq<u32>),
    AwaitInput,
    Fail(RuntimeError),
}

/// One specification-level step: the machine state after it and its outcome.
#[verifier::ext_equal]
pub ghost struct StepRes {
    pub post: MachineView,
    pub out: StepOutcome,
}

impl MachineView {
    /// The machine limits every state satisfies: the program counter and the
    /// stack pointer are 32-bit registers, so both stores fit their reach.
    pub open spec fn wf(self) -> bool {
        self.program.len() <= 0xffff_ffff && self.mem.len() <= 0x1_0000_0000
    }
}

/// The value of register `r` in state `s`.
pub open spec fn rd(s: MachineView, r: Register) -> u32 {
    read_reg(s.regs, r)
}

/// State `s` with register `r` set to `v`.
pub open spec fn with_reg(s: MachineView, r: Register, v: u32) -> MachineView {
    MachineView { regs: write_reg(s.regs, r, v), ..s }
}

/// A step that continues in state `s`.
pub open spec fn step_cont(s: MachineView) -> StepRes {
    StepRes { post: s, out: StepOutcome::Continue }
}

/// A step that stops in state `s` with error `e`.
pub open spec fn step_fail(s: MachineView, e: RuntimeError) -> StepRes {
    StepRes { post: s, out: StepOutcome::Fail(e) }
}

/// Whether a push in state `s` would overflow: the stack pointer after the
/// push would reach the memory's capacity.
pub open spec fn push_overflow(s: MachineView) -> bool {
    s.regs.sp + 1 >= s.mem.len()
}

/// State `s` after pushing `v`: the word goes to the stack top and the
/// stack pointer moves up.
pub open spec fn spec_push_val(s: MachineView, v: u32) -> MachineView {
    MachineView {
        mem: s.mem.update(s.regs.sp as int, v),
        regs: write_reg(s.regs, Register::SP, (s.regs.sp + 1) as u32),
        ..s
    }
}

/// State `s` after popping into register `r`: the stack pointer moves down
/// first, then the exposed word lands in `r` (so popping into `SP` itself
/// leaves the popped word as the new stack pointer).
pub open spec fn spec_pop_reg(s: MachineView, r: Register) -> MachineView {
    MachineView {
        regs: write_reg(
            write_reg(s.regs, Register::SP, (s.regs.sp - 1) as u32),
            r,
            s.mem[s.regs.sp - 1],
        ),
        ..s
    }
}

/// State `s` after a pop whose memory read fails: the stack pointer has
/// already moved down when the read is rejected.
pub open spec fn spec_pop_fail(s: MachineView) -> MachineView {
    MachineView { regs: write_reg(s.regs, Register::SP, (s.regs.sp - 1) as u32), ..s }
}

/// The comparison bitfield for operand values `x` and `y`:
/// bit 0 = `x == 0`, bit 1 = `x < y`, bit 2 = `x > y`, bit 3 = `x == y`,
/// bit 4 = `x != y`.
pub open spec fn cmp_flags(x: u32, y: u32) -> u32 {
    (if x == 0 {
        1u32
    } else {
        0u32
    }) | ((if x < y {
        1u32
    } else {
        0u32
    }) << 1) | ((if x > y {
        1u32
    } else {
        0u32
    }) << 2) | ((if x == y {
        1u32
    } else {
        0u32
    }) << 3) | ((if x != y {
        1u32
    } else {
        0u32
    }) << 4)
}

/// What each comparison flag bit means: bit 0 reads "the first operand is
/// zero", bit 1 "less", bit 2 "greater", bit 3 "equal" and bit 4 "unequal".
/// In particular exactly one of the less/greater/equal bits is set for any
/// operand pair, and the unequal bit is the complement of the equal bit —
/// which is why the both-bits tests of `Jge` and `Jle` can never pass on
/// the outcome of a single comparison.
pub proof fn lemma_cmp_flag_bits(x: u32, y: u32)
    by (bit_vector)
    ensures
        cmp_flags(x, y) & 0x1 == 0x1 <==> x == 0,
        cmp_flags(x, y) & 0x2 == 0x2 <==> x < y,
        cmp_flags(x, y) & 0x4 == 0x4 <==> x > y,
        cmp_flags(x, y) & 0x8 == 0x8 <==> x == y,
        cmp_flags(x, y) & 0x10 == 0x10 <==> x != y,
        !(cmp_flags(x, y) & 0xc == 0xc),
        !(cmp_flags(x, y) & 0xa == 0xa),
{
}

/// A conditional jump: state `s` continues at `target` when `taken` holds,
/// and falls through otherwise.
pub open spec fn spec_jump_if(s: MachineView, taken: bool, target: u32) -> StepRes {
    if taken {
        step_cont(with_reg(s, Register::PC, target))
    } else {
        step_cont(s)
    }
}

/// Whether the two-operand stack arithmetic can run in state `s`: two words
/// on the stack, and the stack pointer within the memory.
pub open spec fn stack2_ready(s: MachineView) -> bool {
    2 <= s.regs.sp && s.regs.sp <= s.mem.len()
}

/// State `s` after a two-operand stack arithmetic producing `result`: the
/// two top words are consumed and the result takes their place.
pub open spec fn spec_stack_apply(s: MachineView, result: u32) -> MachineView {
    MachineView {
        mem: s.mem.update(s.regs.sp - 2, result),
        regs: write_reg(s.regs, Register::SP, (s.regs.sp - 1) as u32),
        ..s
    }
}

/// The failure of a two-operand stack arithmetic in a state where it cannot
/// run: fewer than two words is underflow, a stack pointer beyond the memory
/// is a rejected read.
pub open spec fn spec_stack2_fail(s: MachineView) -> RuntimeError {
    if s.regs.sp < 2 {
        RuntimeError::StackUnderflow
    } else {
        RuntimeError::MemoryRead
    }
}

/// The write syscall in state `s`: the words at `[C, C + D)` go to the
/// output stream; a range that leaves the memory is a rejected read.
pub open spec fn spec_syscall_output(s: MachineView) -> StepRes {
    let c = rd(s, Register::C);
    let d = rd(s, Register::D);
    if d > 0 && c + d > s.mem.len() {
        step_fail(s, RuntimeError::MemoryRead)
    } else {
        StepRes {
            post: s,
            out: StepOutcome::Output(
                if d == 0 {
                    Seq::empty()
                } else {
                    s.mem.subrange(c as int, c + d)
                },
            ),
        }
    }
}

/// Executes one decoded operation in state `s` (the program counter has
/// already advanced past the instruction word).
pub open spec fn spec_exec(s: MachineView, op: Opcode) -> StepRes {
    match op {
        Opcode::Add(r1, r2, r3) => step_cont(
            with_reg(s, r3, vstd::wrapping::u32_specs::wrapping_add(rd(s, r1), rd(s, r2))),
        ),
        Opcode::Sub(r1, r2, r3) => step_cont(
            with_reg(s, r3, vstd::wrapping::u32_specs::wrapping_sub(rd(s, r1), rd(s, r2))),
        ),
        Opcode::Mul(r1, r2, r3) => step_cont(
            with_reg(s, r3, vstd::wrapping::u32_specs::wrapping_mul(rd(s, r1), rd(s, r2))),
        ),
        Opcode::Div(r1, r2, r3) => if rd(s, r2) == 0 {
            step_fail(s, RuntimeError::DivisionByZero)
        } else {
            step_cont(with_reg(s, r3, (rd(s, r1) / rd(s, r2)) as u32))
        },
        Opcode::Imm(r1, imm) => step_cont(with_reg(s, r1, imm.0 as u32)),
        Opcode::Push(r1) => if push_overflow(s) {
            step_fail(s, RuntimeError::StackOverflow)
        } else {
            step_cont(spec_push_val(s, rd(s, r1)))
        },
        Opcode::Pop(r1) => if s.regs.sp < 1 {
            step_fail(s, RuntimeError::StackUnderflow)
        } else if s.regs.sp > s.mem.len() {
            StepRes { post: spec_pop_fail(s), out: StepOutcome::Fail(RuntimeError::MemoryWrite) }
        } else {
            step_cont(spec_pop_reg(s, r1))
        },
        Opcode::Cmp(r1, r2) => step_cont(
            with_reg(s, Register::Flag, cmp_flags(rd(s, r1), rd(s, r2))),
        ),
        Opcode::Jmp(imm) => step_cont(with_reg(s, Register::PC, imm.0 as u32)),
        Opcode::Je(imm) => spec_jump_if(s, s.regs.flag & 0x8 == 0x8, imm.0 as u32),
        Opcode::Jne(imm) => spec_jump_if(s, s.regs.flag & 0x10 == 0x10, imm.0 as u32),
        Opcode::Jg(imm) => spec_jump_if(s, s.regs.flag & 0x4 == 0x4, imm.0 as u32),
        Opcode::Jge(imm) => spec_jump_if(s, s.regs.flag & 0xc == 0xc, imm.0 as u32),
        Opcode::Jl(imm) => spec_jump_if(s, s.regs.flag & 0x2 == 0x2, imm.0 as u32),
        Opcode::Jle(imm) => spec_jump_if(s, s.regs.flag & 0xa == 0xa, imm.0 as u32),
        Opcode::Jz(imm) => spec_jump_if(s, s.regs.flag & 0x1 == 0x1, imm.0 as u32),
        Opcode::Jnz(imm) => spec_jump_if(s, s.regs.flag & 0x1 == 0x0, imm.0 as u32),
        Opcode::Ret => if s.regs.sp < 1 {
            step_fail(s, RuntimeError::StackUnderflow)
        } else if s.regs.sp > s.mem.len() {
            StepRes { post: spec_pop_fail(s), out: StepOutcome::Fail(RuntimeError::MemoryWrite) }
        } else {
            step_cont(spec_pop_reg(s, Register::PC))
        },
        Opcode::Call(imm) => if push_overflow(s) {
            step_fail(s, RuntimeError::StackOverflow)
        } else {
            step_cont(
                with_reg(spec_push_val(s, s.regs.pc), Register::PC, (imm.0 + 1) as u32),
            )
        },
        Opcode::Fn => step_cont(MachineView { skipping: true, ..s }),
        Opcode::StackAdd => if !stack2_ready(s) {
            step_fail(s, spec_stack2_fail(s))
        } else {
            step_cont(
                spec_stack_apply(
                    s,
                    vstd::wrapping::u32_specs::wrapping_add(
                        s.mem[s.regs.sp - 2],
                        s.mem[s.regs.sp - 1],
                    ),
                ),
            )
        },
        Opcode::StackSub => if !stack2_ready(s) {
            step_fail(s, spec_stack2_fail(s))
        } else {
            step_cont(
                spec_stack_apply(
                    s,
                    vstd::wrapping::u32_specs::wrapping_sub(
                        s.mem[s.regs.sp - 2],
                        s.mem[s.regs.sp - 1],
                    ),
                ),
            )
        },
        Opcode::StackMul => if !stack2_ready(s) {
            step_fail(s, spec_stack2_fail(s))
        } else {
            step_cont(
                spec_stack_apply(
                    s,
                    vstd::wrapping::u32_specs::wrapping_mul(
                        s.mem[s.regs.sp - 2],
                        s.mem[s.regs.sp - 1],
                    ),
                ),
            )
        },
        Opcode::StackDiv => if !stack2_ready(s) {
            step_fail(s, spec_stack2_fail(s))
        } else if s.mem[s.regs.sp - 1] == 0 {
            step_fail(s, RuntimeError::DivisionByZero)
        } else {
            step_cont(
                spec_stack_apply(
                    s,
                    (s.mem[s.regs.sp - 2] / s.mem[s.regs.sp - 1]) as u32,
                ),
            )
        },
        Opcode::Syscall => if rd(s, Register::A) == 0 {
            StepRes { post: s, out: StepOutcome::Exit(rd(s, Register::B)) }
        } else if rd(s, Register::A) == 1 {
            StepRes { post: s, out: StepOutcome::AwaitInput }
        } else if rd(s, Register::A) == 2 {
            spec_syscall_output(s)
        } else {
            step_fail(s, RuntimeError::UnimplementedSyscall)
        },
    }
}

/// How many input bytes the read syscall stores: the line is truncated to
/// the count in register `D`.
pub open spec fn input_count(s: MachineView, buf: Seq<u8>) -> int {
    if buf.len() <= rd(s, Register::D) {
        buf.len() as int
    } else {
        rd(s, Register::D) as int
    }
}

/// Whether storing the input would overflow the memory: the bytes go to
/// `[C, C + n)` through pushes, and the push at the last address would
/// reach the capacity.
pub open spec fn input_overflow(s: MachineView, buf: Seq<u8>) -> bool {
    input_count(s, buf) > 0 && rd(s, Register::C) + input_count(s, buf) >= s.mem.len()
}

/// State `s` after the read syscall stores `buf`: one byte per word from
/// address `C` on, truncated to `D` bytes; register `A` is left holding the
/// last stored byte (it carries each byte to the push); the stack pointer
/// is redirected to the destination for the pushes and restored afterwards.
pub open spec fn spec_provide_input(s: MachineView, buf: Seq<u8>) -> MachineView {
    let c = rd(s, Register::C);
    let n = input_count(s, buf);
    MachineView {
        mem: s.mem.map(
            |j: int, w: u32|
                if c <= j < c + n {
                    buf[j - c] as u32
                } else {
                    w
                },
        ),
        regs: if n > 0 {
            write_reg(s.regs, Register::A, buf[n - 1] as u32)
        } else {
            s.regs
        },
        ..s
    }
}

/// State `s` with the program counter advanced past the fetched word.
pub open spec fn fetch_advance(s: MachineView) -> MachineView {
    MachineView { regs: write_reg(s.regs, Register::PC, (s.regs.pc + 1) as u32), ..s }
}

/// One whole machine step from state `s`: fetch the word at `PC` (failing
/// with `NoNextInstruction` past the program's end), advance `PC`, decode
/// (an unknown tag is a fault), then either skip (in skip mode everything
/// but `Ret` is inert and `Ret` returns to running) or execute.
pub open spec fn spec_step(s: MachineView) -> StepRes {
    if s.regs.pc >= s.program.len() {
        step_fail(s, RuntimeError::NoNextInstruction)
    } else {
        let w = s.program[s.regs.pc as int];
        let s1 = fetch_advance(s);
        match spec_decode(w) {
            Option::None => step_fail(s1, RuntimeError::UnknownOpcode),
            Option::Some(op) => if s.skipping {
                if op == Opcode::Ret {
                    step_cont(MachineView { skipping: false, ..s1 })
                } else {
                    step_cont(s1)
                }
            } else {
                spec_exec(s1, op)
            },
        }
    }
}

/// Whether an executable result and post state agree with a
/// specification-level step result: same post state, and the returned
/// action or error matches the outcome case for case.
pub open spec fn res_matches(
    r: StepRes,
    post: MachineView,
    result: Result<StepAction, RuntimeError>,
) -> bool {
    post == r.post && (match (result, r.out) {
        (Result::Ok(StepAction::Continue), StepOutcome::Continue) => true,
        (Result::Ok(StepAction::Exit(c1)), StepOutcome::Exit(c2)) => c1 == c2,
        (Result::Ok(StepAction::Output(v)), StepOutcome::Output(sq)) => v@ == sq,
        (Result::Ok(StepAction::AwaitInput), StepOutcome::AwaitInput) => true,
        (Result::Err(e1), StepOutcome::Fail(e2)) => e1 == e2,
        _ => false,
    })
}

/// Whether the executable step result agrees with the specification-level
/// step from `pre`.
pub open spec fn step_matches(
    pre: MachineView,
    post: MachineView,
    result: Result<StepAction, RuntimeError>,
) -> bool {
    res_matches(spec_step(pre), post, result)
}

impl View for CrazyVM {
    type V = MachineView;

    closed spec fn view(&self) -> MachineView {
        MachineView {
            program: self.program@,
            regs: self.registers,
            mem: self.memory@,
            skipping: self.skipping_body,
        }
    }
}

impl CrazyVM {
    /// A fresh machine over the given program with `mem_size` words of
    /// zeroed data memory: all registers zero, running (not skipping).
    ///
    /// The bounds are machine limits: `PC` and `SP` are 32-bit registers,
    /// so neither store may outgrow their reach.
    pub fn new(program: &[u32], mem_size: usize) -> (vm: CrazyVM)
        requires
            program@.len() <= 0xffff_ffff,
            mem_size <= 0x1_0000_0000,
        ensures
            vm@ == (MachineView {
                program: program@,
                regs: regs_zero(),
                mem: Seq::new(mem_size as nat, |i: int| 0u32),
                skipping: false,
            }),
            vm@.wf(),
    {
        CrazyVM {
            program: Rom::from_words(program),
            registers: Registers::new(),
            memory: Ram::new(mem_size),
            skipping_body: false,
        }
    }

    /// The current register file, for drivers and diagnostics.
    pub fn registers(&self) -> (regs: Registers)
        ensures
            regs == self@.regs,
    {
        self.registers
    }

    /// Fetches and decodes the instruction at `PC`, advancing `PC` past it.
    /// A `PC` outside the program is `NoNextInstruction` (and `PC` does not
    /// move); a fetched word with an unknown tag is `UnknownOpcode` (after
    /// `PC` has moved).
    fn get_next_instruction(&mut self) -> (r: Result<Opcode, RuntimeError>)
        requires
            old(self)@.wf(),
        ensures
            final(self)@.wf(),
            match r {
                Result::Ok(op) => old(self)@.regs.pc < old(self)@.program.len() && spec_decode(
                    old(self)@.program[old(self)@.regs.pc as int],
                ) == Some(op) && opcode_wf(op) && final(self)@ == fetch_advance(old(self)@),
                Result::Err(RuntimeError::NoNextInstruction) => old(self)@.regs.pc >= old(
                    self,
                )@.program.len() && final(self)@ == old(self)@,
                Result::Err(RuntimeError::UnknownOpcode) => old(self)@.regs.pc < old(
                    self,
                )@.program.len() && spec_decode(old(self)@.program[old(self)@.regs.pc as int])
                    is None && final(self)@ == fetch_advance(old(self)@),
                Result::Err(_) => false,
            },
    {
        let pc = self.registers.get(Register::PC);
        let w = match self.program.read(pc as usize) {
            Ok(w) => w,
            Err(_) => {
                return Err(RuntimeError::NoNextInstruction);
            },
        };
        self.registers.set(Register::PC, pc + 1);
        match Opcode::decode(w) {
            Some(op) => Ok(op),
            None => Err(RuntimeError::UnknownOpcode),
        }
    }

    /// Pushes the value of register `r`: the word goes to the stack top and
    /// `SP` moves up; a stack pointer at or past the last memory word is an
    /// overflow and changes nothing.
    fn stack_push(&mut self, r: Register) -> (result: Result<(), RuntimeError>)
        requires
            old(self)@.wf(),
            r != Register::Count,
        ensures
            final(self)@.wf(),
            match result {
                Result::Ok(()) => !push_overflow(old(self)@) && final(self)@ == spec_push_val(
                    old(self)@,
                    rd(old(self)@, r),
                ),
                Result::Err(e) => e == RuntimeError::StackOverflow && push_overflow(old(self)@)
                    && final(self)@ == old(self)@,
            },
    {
        let sp = self.registers.get(Register::SP);
        let cap = self.memory.max_size();
        if cap == 0 || sp as usize >= cap - 1 {
            return Err(RuntimeError::StackOverflow);
        }
        let v = self.registers.get(r);
        match self.memory.write(v, sp as usize) {
            Ok(()) => {},
            Err(_) => {
                // Defensive: the capacity check above keeps the write in
                // bounds, so this arm is provably unreachable.
                return Err(RuntimeError::MemoryWrite);
            },
        }
        self.registers.set(Register::SP, sp + 1);
        Ok(())
    }

    /// Pops one word into register `r`: `SP` moves down first, then the
    /// exposed word lands in `r`. An empty stack is an underflow and changes
    /// nothing; a stack pointer beyond the memory leaves `SP` moved down and
    /// reports the rejected read.
    fn stack_pop(&mut self, r: Register) -> (result: Result<(), RuntimeError>)
        requires
            old(self)@.wf(),
            r != Register::Count,
        ensures
            final(self)@.wf(),
            match result {
                Result::Ok(()) => 1 <= old(self)@.regs.sp <= old(self)@.mem.len() && final(self)@
                    == spec_pop_reg(old(self)@, r),
                Result::Err(RuntimeError::StackUnderflow) => old(self)@.regs.sp < 1 && final(self)@
                    == old(self)@,
                Result::Err(RuntimeError::MemoryWrite) => old(self)@.regs.sp > old(
                    self,
                )@.mem.len() && final(self)@ == spec_pop_fail(old(self)@),
                Result::Err(_) => false,
            },
    {
        let sp = self.registers.get(Register::SP);
        if sp < 1 {
            return Err(RuntimeError::StackUnderflow);
        }
        self.registers.set(Register::SP, sp - 1);
        let v = match self.memory.read((sp - 1) as usize) {
            Ok(v) => v,
            Err(_) => {
                return Err(RuntimeError::MemoryWrite);
            },
        };
        self.registers.set(r, v);
        Ok(())
    }

    /// One fetch-decode-execute step.
    ///
    /// Implements [`spec_step`] exactly: the returned action or error and
    /// the new machine state are the specification's outcome and post state
    /// for the old state.
    pub fn step(&mut self) -> (result: Result<StepAction, RuntimeError>)
        requires
            old(self)@.wf(),
        ensures
            final(self)@.wf(),
            step_matches(old(self)@, final(self)@, result),
    {
        let ghost pre = self@;
        let ins = match self.get_next_instruction() {
            Ok(ins) => ins,
            Err(e) => {
                return Err(e);
            },
        };
        let ghost s1 = self@;

        if self.skipping_body {
            if ins == Opcode::Ret {
                self.skipping_body = false;
                return Ok(StepAction::Continue);
            }
            return Ok(StepAction::Continue);
        }

        let result = self.exec_op(ins);
        proof {
            assert(spec_step(pre) == spec_exec(s1, ins));
        }
        result
    }

    /// Executes one decoded operation (the program counter has already
    /// advanced); implements [`spec_exec`] exactly.
    #[verifier::rlimit(100)]
    fn exec_op(&mut self, ins: Opcode) -> (result: Result<StepAction, RuntimeError>)
        requires
            old(self)@.wf(),
            opcode_wf(ins),
        ensures
            final(self)@.wf(),
            res_matches(spec_exec(old(self)@, ins), final(self)@, result),
    {
        match ins {
            Opcode::Add(r1, r2, r3) => {
                let v = self.registers.get(r1).wrapping_add(self.registers.get(r2));
                self.registers.set(r3, v);
                Ok(StepAction::Continue)
            },
            Opcode::Sub(r1, r2, r3) => {
                let v = self.registers.get(r1).wrapping_sub(self.registers.get(r2));
                self.registers.set(r3, v);
                Ok(StepAction::Continue)
            },
            Opcode::Mul(r1, r2, r3) => {
                let v = self.registers.get(r1).wrapping_mul(self.registers.get(r2));
                self.registers.set(r3, v);
                Ok(StepAction::Continue)
            },
            Opcode::Div(r1, r2, r3) => {
                let y = self.registers.get(r2);
                if y == 0 {
                    return Err(RuntimeError::DivisionByZero);
                }
                let v = self.registers.get(r1) / y;
                self.registers.set(r3, v);
                Ok(StepAction::Continue)
            },
            Opcode::Imm(r1, imm) => {
                self.registers.set(r1, imm.value());
                Ok(StepAction::Continue)
            },
            Opcode::Push(r1) => {
                match self.stack_push(r1) {
                    Ok(()) => Ok(StepAction::Continue),
                    Err(e) => Err(e),
                }
            },
            Opcode::Pop(r1) => {
                match self.stack_pop(r1) {
                    Ok(()) => Ok(StepAction::Continue),
                    Err(e) => Err(e),
                }
            },
            Opcode::Cmp(r1, r2) => {
                let x = self.registers.get(r1);
                let y = self.registers.get(r2);
                let flag: u32 = (if x == 0 {
                    1u32
                } else {
                    0u32
                }) | ((if x < y {
                    1u32
                } else {
                    0u32
                }) << 1u32) | ((if x > y {
                    1u32
                } else {
                    0u32
                }) << 2u32) | ((if x == y {
                    1u32
                } else {
                    0u32
                }) << 3u32) | ((if x != y {
                    1u32
                } else {
                    0u32
                }) << 4u32);
                self.registers.set(Register::Flag, flag);
                Ok(StepAction::Continue)
            },
            Opcode::Jmp(imm) => {
                self.registers.set(Register::PC, imm.value());
                Ok(StepAction::Continue)
            },
            Opcode::Je(imm) => {
                if self.registers.get(Register::Flag) & 0x8 == 0x8 {
                    self.registers.set(Register::PC, imm.value());
                }
                Ok(StepAction::Continue)
            },
            Opcode::Jne(imm) => {
                if self.registers.get(Register::Flag) & 0x10 == 0x10 {
                    self.registers.set(Register::PC, imm.value());
                }
                Ok(StepAction::Continue)
            },
            Opcode::Jg(imm) => {
                if self.registers.get(Register::Flag) & 0x4 == 0x4 {
                    self.registers.set(Register::PC, imm.value());
                }
                Ok(StepAction::Continue)
            },
            Opcode::Jge(imm) => {
                if self.registers.get(Register::Flag) & 0xc == 0xc {
                    self.registers.set(Register::PC, imm.value());
                }
                Ok(StepAction::Continue)
            },
            Opcode::Jl(imm) => {
                if self.registers.get(Register::Flag) & 0x2 == 0x2 {
                    self.registers.set(Register::PC, imm.value());
                }
                Ok(StepAction::Continue)
            },
            Opcode::Jle(imm) => {
                if self.registers.get(Register::Flag) & 0xa == 0xa {
                    self.registers.set(Register::PC, imm.value());
                }
                Ok(StepAction::Continue)
            },
            Opcode::Jz(imm) => {
                if self.registers.get(Register::Flag) & 0x1 == 0x1 {
                    self.registers.set(Register::PC, imm.value());
                }
                Ok(StepAction::Continue)
            },
            Opcode::Jnz(imm) => {
                if self.registers.get(Register::Flag) & 0x1 == 0x0 {
                    self.registers.set(Register::PC, imm.value());
                }
                Ok(StepAction::Continue)
            },
            Opcode::Ret => {
                match self.stack_pop(Register::PC) {
                    Ok(()) => Ok(StepAction::Continue),
                    Err(e) => Err(e),
                }
            },
            Opcode::Call(imm) => {
                match self.stack_push(Register::PC) {
                    Ok(()) => {},
                    Err(e) => {
                        return Err(e);
                    },
                }
                self.registers.set(Register::PC, imm.value() + 1);
                Ok(StepAction::Continue)
            },
            Opcode::Fn => {
                self.skipping_body = true;
                Ok(StepAction::Continue)
            },
            Opcode::StackAdd => {
                let (a, b) = match self.stack_arith_operands() {
                    Ok(ab) => ab,
                    Err(e) => {
                        return Err(e);
                    },
                };
                self.stack_arith_apply(b.wrapping_add(a));
                Ok(StepAction::Continue)
            },
            Opcode::StackSub => {
                let (a, b) = match self.stack_arith_operands() {
                    Ok(ab) => ab,
                    Err(e) => {
                        return Err(e);
                    },
                };
                self.stack_arith_apply(b.wrapping_sub(a));
                Ok(StepAction::Continue)
            },
            Opcode::StackMul => {
                let (a, b) = match self.stack_arith_operands() {
                    Ok(ab) => ab,
                    Err(e) => {
                        return Err(e);
                    },
                };
                self.stack_arith_apply(b.wrapping_mul(a));
                Ok(StepAction::Continue)
            },
            Opcode::StackDiv => {
                let (a, b) = match self.stack_arith_operands() {
                    Ok(ab) => ab,
                    Err(e) => {
                        return Err(e);
                    },
                };
                if a == 0 {
                    return Err(RuntimeError::DivisionByZero);
                }
                self.stack_arith_apply(b / a);
                Ok(StepAction::Continue)
            },
            Opcode::Syscall => {
                let sel = self.registers.get(Register::A);
                if sel == 0 {
                    Ok(StepAction::Exit(self.registers.get(Register::B)))
                } else if sel == 1 {
                    Ok(StepAction::AwaitInput)
                } else if sel == 2 {
                    match self.syscall_output() {
                        Ok(words) => Ok(StepAction::Output(words)),
                        Err(e) => Err(e),
                    }
                } else {
                    Err(RuntimeError::UnimplementedSyscall)
                }
            },
        }
    }

    /// Reads the two stack arithmetic operands, topmost first, without
    /// moving the stack pointer; states where they cannot be read are
    /// rejected unchanged.
    fn stack_arith_operands(&mut self) -> (r: Result<(u32, u32), RuntimeError>)
        requires
            old(self)@.wf(),
        ensures
            final(self)@.wf(),
            match r {
                Result::Ok((a, b)) => stack2_ready(old(self)@) && a == old(self)@.mem[old(
                    self,
                )@.regs.sp - 1] && b == old(self)@.mem[old(self)@.regs.sp - 2],
                Result::Err(e) => !stack2_ready(old(self)@) && e == spec_stack2_fail(old(self)@),
            },
            final(self)@ == old(self)@,
    {
        let sp = self.registers.get(Register::SP);
        if sp < 2 {
            return Err(RuntimeError::StackUnderflow);
        }
        let cap = self.memory.max_size();
        if sp as usize > cap {
            return Err(RuntimeError::MemoryRead);
        }
        let a = match self.memory.read((sp - 1) as usize) {
            Ok(v) => v,
            Err(_) => {
                return Err(RuntimeError::MemoryRead);
            },
        };
        let b = match self.memory.read((sp - 2) as usize) {
            Ok(v) => v,
            Err(_) => {
                return Err(RuntimeError::MemoryRead);
            },
        };
        Ok((a, b))
    }

    /// Replaces the two stack arithmetic operands by `result`: the word
    /// below the pair takes the result and the stack pointer drops by one.
    fn stack_arith_apply(&mut self, result: u32)
        requires
            old(self)@.wf(),
            stack2_ready(old(self)@),
        ensures
            final(self)@.wf(),
            final(self)@ == spec_stack_apply(old(self)@, result),
    {
        let sp = self.registers.get(Register::SP);
        match self.memory.write(result, (sp - 2) as usize) {
            Ok(()) => {},
            Err(_) => {},
        }
        self.registers.set(Register::SP, sp - 1);
    }

    /// Collects the words the write syscall emits: the memory range
    /// `[C, C + D)`; a range that leaves the memory is a rejected read and
    /// changes nothing.
    fn syscall_output(&mut self) -> (r: Result<Vec<u32>, RuntimeError>)
        requires
            old(self)@.wf(),
        ensures
            final(self)@ == old(self)@,
            ({
                let res = spec_syscall_output(old(self)@);
                match r {
                    Result::Ok(words) => res.out == StepOutcome::Output(words@),
                    Result::Err(e) => res.out == StepOutcome::Fail(e),
                }
            }),
    {
        let c = self.registers.get(Register::C);
        let d = self.registers.get(Register::D);
        let cap = self.memory.max_size();
        if d > 0 && (c as usize >= cap || d as usize > cap - c as usize) {
            return Err(RuntimeError::MemoryRead);
        }
        let mut words: Vec<u32> = Vec::new();
        proof {
            if d > 0 {
                assert(words@ =~= self@.mem.subrange(c as int, c as int));
            } else {
                assert(words@ =~= Seq::<u32>::empty());
            }
        }
        let mut i: usize = 0;
        while i < d as usize
            invariant
                d > 0 ==> c + d <= self@.mem.len(),
                self@.mem.len() <= usize::MAX,
                i <= d as usize,
                d > 0 ==> words@ == self@.mem.subrange(c as int, c + i),
                d == 0 ==> words@ == Seq::<u32>::empty(),
            decreases d as usize - i,
        {
            let w = match self.memory.read(c as usize + i) {
                Ok(w) => w,
                Err(_) => {
                    return Err(RuntimeError::MemoryRead);
                },
            };
            words.push(w);
            proof {
                assert(words@ =~= self@.mem.subrange(c as int, c + i + 1));
            }
            i += 1;
        }
        Ok(words)
    }

    /// Completes a read syscall: stores the bytes of one input line into
    /// memory from address `C` on, one byte per word, truncated to `D`
    /// bytes. A destination range that would overflow the stack memory is
    /// rejected unchanged.
    pub fn provide_input(&mut self, buf: &[u8]) -> (result: Result<(), RuntimeError>)
        requires
            old(self)@.wf(),
        ensures
            final(self)@.wf(),
            match result {
                Result::Ok(()) => !input_overflow(old(self)@, buf@) && final(self)@
                    == spec_provide_input(old(self)@, buf@),
                Result::Err(e) => e == RuntimeError::StackOverflow && input_overflow(
                    old(self)@,
                    buf@,
                ) && final(self)@ == old(self)@,
            },
    {
        let c = self.registers.get(Register::C);
        let d = self.registers.get(Register::D);
        let cap = self.memory.max_size();
        let n: usize = if buf.len() <= d as usize {
            buf.len()
        } else {
            d as usize
        };
        if n > 0 && (c as usize >= cap || n >= cap - c as usize) {
            return Err(RuntimeError::StackOverflow);
        }
        let ghost target = spec_provide_input(self@, buf@);
        let ghost pre = self@;
        let mut i: usize = 0;
        while i < n
            invariant
                n == input_count(pre, buf@),
                n <= buf@.len(),
                i <= n,
                n > 0 ==> c + n < pre.mem.len(),
                pre.mem.len() <= usize::MAX,
                self@.program == pre.program,
                self@.regs == pre.regs,
                self@.skipping == pre.skipping,
                self@.mem.len() == pre.mem.len(),
                forall|j: int|
                    0 <= j < pre.mem.len() ==> self@.mem[j] == if c <= j < c + i {
                        buf@[j - c] as u32
                    } else {
                        pre.mem[j]
                    },
            decreases n - i,
        {
            let w = buf[i] as u32;
            match self.memory.write(w, c as usize + i) {
                Ok(()) => {},
                Err(_) => {},
            }
            i += 1;
        }
        if n > 0 {
            self.registers.set(Register::A, buf[n - 1] as u32);
        }
        proof {
            assert(self@.mem =~= target.mem);
            assert(self@ =~= target);
        }
        Ok(())
    }

    /// A read-only dump of the machine state for diagnostics: the eight
    /// register values in file order (`SP`, `PC`, `Flag`, `Zero`, `A`, `B`,
    /// `C`, `D`) and the stack contents below the stack pointer.
    pub fn dump_state(&self) -> (r: (Vec<u32>, Vec<u32>))
        ensures
            r.0@ == seq![
                self@.regs.sp,
                self@.regs.pc,
                self@.regs.flag,
                self@.regs.zero,
                self@.regs.a,
                self@.regs.b,
                self@.regs.c,
                self@.regs.d,
            ],
            r.1@ == self@.mem.subrange(
                0,
                if self@.regs.sp <= self@.mem.len() {
                    self@.regs.sp as int
                } else {
                    self@.mem.len() as int
                },
            ),
    {
        let mut regs: Vec<u32> = Vec::new();
        regs.push(self.registers.sp);
        regs.push(self.registers.pc);
        regs.push(self.registers.flag);
        regs.push(self.registers.zero);
        regs.push(self.registers.a);
        regs.push(self.registers.b);
        regs.push(self.registers.c);
        regs.push(self.registers.d);
        let sp = self.registers.sp;
        let cap = self.memory.max_size();
        let top: usize = if sp as usize <= cap {
            sp as usize
        } else {
            cap
        };
        let stack = match self.memory.read_many(0, top) {
            Ok(v) => v,
            Err(_) => {
                // Only an empty memory reaches this: the dump is empty.
                let empty: Vec<u32> = Vec::new();
                proof {
                    assert(empty@ =~= self@.mem.subrange(0, 0));
                }
                empty
            },
        };
        proof {
            assert(regs@ =~= seq![
                self@.regs.sp,
                self@.regs.pc,
                self@.regs.flag,
                self@.regs.zero,
                self@.regs.a,
                self@.regs.b,
                self@.regs.c,
                self@.regs.d,
            ]);
        }
        (regs, stack)
    }
}

/// State `s` after pushing the registers `rs`, in order: exactly the
/// effect of a successful [`CrazyVM::stack_push`] for each of them.
pub open spec fn spec_push_regs(s: MachineView, rs: Seq<Register>) -> MachineView
    decreases rs.len(),
{
    if rs.len() == 0 {
        s
    } else {
        spec_push_regs(spec_push_val(s, rd(s, rs[0])), rs.subrange(1, rs.len() as int))
    }
}

/// State `s` after popping into the registers `rs`, each in the reverse of
/// the order given: exactly the effect of a successful
/// [`CrazyVM::stack_pop`] for each of them, last first.
pub open spec fn spec_pop_regs_rev(s: MachineView, rs: Seq<Register>) -> MachineView
    decreases rs.len(),
{
    if rs.len() == 0 {
        s
    } else {
        spec_pop_reg(spec_pop_regs_rev(s, rs.subrange(1, rs.len() as int)), rs[0])
    }
}

/// Stack discipline: pushing any registers and then popping them in
/// reverse order restores every register — the stack pointer included — to
/// its value before the pushes, and touches no memory outside the pushed
/// range. The bound on the stack pointer is what makes every push succeed.
pub proof fn lemma_stack_lifo(s: MachineView, rs: Seq<Register>)
    requires
        s.wf(),
        forall|i: int| 0 <= i < rs.len() ==> rs[i] != Register::Count,
        s.regs.sp + rs.len() < s.mem.len(),
    ensures
        ({
            let t = spec_pop_regs_rev(spec_push_regs(s, rs), rs);
            t.regs == s.regs && t.program == s.program && t.skipping == s.skipping
                && t.mem.len() == s.mem.len() && forall|j: int|
                0 <= j < s.mem.len() && !(s.regs.sp <= j < s.regs.sp + rs.len()) ==> t.mem[j]
                    == s.mem[j]
        }),
    decreases rs.len(),
{
    if rs.len() == 0 {
    } else {
        let v = rd(s, rs[0]);
        let s1 = spec_push_val(s, v);
        let rest = rs.subrange(1, rs.len() as int);
        assert(forall|i: int| 0 <= i < rest.len() ==> rest[i] == rs[i + 1]);
        assert(s1.regs.sp == s.regs.sp + 1);
        lemma_stack_lifo(s1, rest);
        let t1 = spec_pop_regs_rev(spec_push_regs(s1, rest), rest);
        let t = spec_pop_reg(t1, rs[0]);
        assert(spec_push_regs(s, rs) == spec_push_regs(s1, rest));
        assert(spec_pop_regs_rev(spec_push_regs(s, rs), rs) == t);
        // The word pushed for `rs[0]` is still in place when it is popped.
        assert(t1.mem[s.regs.sp as int] == s1.mem[s.regs.sp as int]);
        assert(s1.mem[s.regs.sp as int] == v);
        // Popping writes back the very value the register held.
        assert(t.regs == write_reg(
            write_reg(write_reg(s.regs, Register::SP, (s.regs.sp + 1) as u32), Register::SP,
            s.regs.sp), rs[0], v,
        ));
        assert(write_reg(
            write_reg(write_reg(s.regs, Register::SP, (s.regs.sp + 1) as u32), Register::SP,
            s.regs.sp), rs[0], v,
        ) == write_reg(s.regs, rs[0], v));
        assert(write_reg(s.regs, rs[0], rd(s, rs[0])) == s.regs);
    }
}

} // verus!
