//! The canonical single-line textual rendering of instructions: the
//! mnemonic followed by space-separated operands, with literals in decimal.

use vstd::prelude::*;
use vstd::string::StringExecFns;

use crate::instructions::Opcode;
use crate::registers::spec_reg_name;

verus! {

/// The decimal digit character for a value below ten.
pub open spec fn dec_digit(d: nat) -> char {
    if d == 0 {
        '0'
    } else if d == 1 {
        '1'
    } else if d == 2 {
        '2'
    } else if d == 3 {
        '3'
    } else if d == 4 {
        '4'
    } else if d == 5 {
        '5'
    } else if d == 6 {
        '6'
    } else if d == 7 {
        '7'
    } else if d == 8 {
        '8'
    } else {
        '9'
    }
}

/// The decimal rendering of a number, most significant digit first, with
/// no leading zeroes (zero itself reads `"0"`).
pub open spec fn dec_str(n: nat) -> Seq<char>
    decreases n,
{
    if n < 10 {
        seq![dec_digit(n)]
    } else {
        dec_str(n / 10).push(dec_digit(n % 10))
    }
}

/// A single space.
pub open spec fn sp_char() -> Seq<char> {
    seq![' ']
}

/// The mnemonic of an opcode.
pub open spec fn spec_mnemonic(op: Opcode) -> Seq<char> {
    match op {
        Opcode::Add(..) => seq!['A', 'd', 'd'],
        Opcode::Sub(..) => seq!['S', 'u', 'b'],
        Opcode::Mul(..) => seq!['M', 'u', 'l'],
        Opcode::Div(..) => seq!['D', 'i', 'v'],
        Opcode::Imm(..) => seq!['I', 'm', 'm'],
        Opcode::Push(..) => seq!['P', 'u', 's', 'h'],
        Opcode::Pop(..) => seq!['P', 'o', 'p'],
        Opcode::Cmp(..) => seq!['C', 'm', 'p'],
        Opcode::Jmp(..) => seq!['J', 'm', 'p'],
        Opcode::Je(..) => seq!['J', 'e'],
        Opcode::Jne(..) => seq!['J', 'n', 'e'],
        Opcode::Jg(..) => seq!['J', 'g'],
        Opcode::Jge(..) => seq!['J', 'g', 'e'],
        Opcode::Jl(..) => seq!['J', 'l'],
        Opcode::Jle(..) => seq!['J', 'l', 'e'],
        Opcode::Jz(..) => seq!['J', 'z'],
        Opcode::Jnz(..) => seq!['J', 'n', 'z'],
        Opcode::Ret => seq!['R', 'e', 't'],
        Opcode::Call(..) => seq!['C', 'a', 'l', 'l'],
        Opcode::Fn => seq!['F', 'n'],
        Opcode::StackAdd => seq!['S', 't', 'a', 'c', 'k', 'A', 'd', 'd'],
        Opcode::StackSub => seq!['S', 't', 'a', 'c', 'k', 'S', 'u', 'b'],
        Opcode::StackMul => seq!['S', 't', 'a', 'c', 'k', 'M', 'u', 'l'],
        Opcode::StackDiv => seq!['S', 't', 'a', 'c', 'k', 'D', 'i', 'v'],
        Opcode::Syscall => seq!['S', 'y', 's', 'c', 'a', 'l', 'l'],
    }
}

/// The canonical rendering of an opcode: the mnemonic, then each operand
/// preceded by one space; registers by name, literals in decimal.
pub open spec fn spec_render(op: Opcode) -> Seq<char> {
    let m = spec_mnemonic(op);
    match op {
        Opcode::Add(r1, r2, r3) | Opcode::Sub(r1, r2, r3) | Opcode::Mul(r1, r2, r3) | Opcode::Div(
            r1,
            r2,
            r3,
        ) => m + sp_char() + spec_reg_name(r1) + sp_char() + spec_reg_name(r2) + sp_char()
            + spec_reg_name(r3),
        Opcode::Imm(r1, imm) => m + sp_char() + spec_reg_name(r1) + sp_char() + dec_str(
            imm.0 as nat,
        ),
        Opcode::Push(r1) | Opcode::Pop(r1) => m + sp_char() + spec_reg_name(r1),
        Opcode::Cmp(r1, r2) => m + sp_char() + spec_reg_name(r1) + sp_char() + spec_reg_name(r2),
        Opcode::Jmp(imm) | Opcode::Je(imm) | Opcode::Jne(imm) | Opcode::Jg(imm) | Opcode::Jge(imm)
            | Opcode::Jl(imm) | Opcode::Jle(imm) | Opcode::Jz(imm) | Opcode::Jnz(imm)
            | Opcode::Call(imm) => m + sp_char() + dec_str(imm.0 as nat),
        Opcode::Ret | Opcode::Fn | Opcode::StackAdd | Opcode::StackSub | Opcode::StackMul
            | Opcode::StackDiv | Opcode::Syscall => m,
    }
}

/// The string for a single decimal digit.
fn digit_str(d: u16) -> (s: &'static str)
    requires
        d < 10,
    ensures
        s@ == seq![dec_digit(d as nat)],
{
    proof {
        reveal_strlit("0");
        reveal_strlit("1");
        reveal_strlit("2");
        reveal_strlit("3");
        reveal_strlit("4");
        reveal_strlit("5");
        reveal_strlit("6");
        reveal_strlit("7");
        reveal_strlit("8");
        reveal_strlit("9");
    }
    let s = if d == 0 {
        "0"
    } else if d == 1 {
        "1"
    } else if d == 2 {
        "2"
    } else if d == 3 {
        "3"
    } else if d == 4 {
        "4"
    } else if d == 5 {
        "5"
    } else if d == 6 {
        "6"
    } else if d == 7 {
        "7"
    } else if d == 8 {
        "8"
    } else {
        "9"
    };
    proof {
        assert(s@ =~= seq![dec_digit(d as nat)]);
    }
    s
}

/// Appends the decimal rendering of `v` to `out`.
fn push_dec(out: &mut String, v: u16)
    ensures
        final(out)@ == old(out)@ + dec_str(v as nat),
    decreases v,
{
    if v < 10 {
        out.append(digit_str(v));
        proof {
            assert(out@ =~= old(out)@ + dec_str(v as nat));
        }
    } else {
        push_dec(out, v / 10);
        out.append(digit_str(v % 10));
        proof {
            assert(out@ =~= old(out)@ + dec_str(v as nat));
        }
    }
}

impl Opcode {
    /// The opcode's mnemonic.
    pub fn mnemonic(&self) -> (s: &'static str)
        ensures
            s@ == spec_mnemonic(*self),
    {
        proof {
            reveal_strlit("Add");
            reveal_strlit("Sub");
            reveal_strlit("Mul");
            reveal_strlit("Div");
            reveal_strlit("Imm");
            reveal_strlit("Push");
            reveal_strlit("Pop");
            reveal_strlit("Cmp");
            reveal_strlit("Jmp");
            reveal_strlit("Je");
            reveal_strlit("Jne");
            reveal_strlit("Jg");
            reveal_strlit("Jge");
            reveal_strlit("Jl");
            reveal_strlit("Jle");
            reveal_strlit("Jz");
            reveal_strlit("Jnz");
            reveal_strlit("Ret");
            reveal_strlit("Call");
            reveal_strlit("Fn");
            reveal_strlit("StackAdd");
            reveal_strlit("StackSub");
            reveal_strlit("StackMul");
            reveal_strlit("StackDiv");
            reveal_strlit("Syscall");
        }
        let s = match self {
            Opcode::Add(..) => "Add",
            Opcode::Sub(..) => "Sub",
            Opcode::Mul(..) => "Mul",
            Opcode::Div(..) => "Div",
            Opcode::Imm(..) => "Imm",
            Opcode::Push(..) => "Push",
            Opcode::Pop(..) => "Pop",
            Opcode::Cmp(..) => "Cmp",
            Opcode::Jmp(..) => "Jmp",
            Opcode::Je(..) => "Je",
            Opcode::Jne(..) => "Jne",
            Opcode::Jg(..) => "Jg",
            Opcode::Jge(..) => "Jge",
            Opcode::Jl(..) => "Jl",
            Opcode::Jle(..) => "Jle",
            Opcode::Jz(..) => "Jz",
            Opcode::Jnz(..) => "Jnz",
            Opcode::Ret => "Ret",
            Opcode::Call(..) => "Call",
            Opcode::Fn => "Fn",
            Opcode::StackAdd => "StackAdd",
            Opcode::StackSub => "StackSub",
            Opcode::StackMul => "StackMul",
            Opcode::StackDiv => "StackDiv",
            Opcode::Syscall => "Syscall",
        };
        proof {
            assert(s@ =~= spec_mnemonic(*self));
        }
        s
    }

    /// The canonical single-line rendering: mnemonic and space-separated
    /// operands, literals in decimal.
    pub fn render(&self) -> (s: String)
        ensures
            s@ == spec_render(*self),
    {
        proof {
            reveal_strlit(" ");
        }
        let mut out = String::new();
        out.append(self.mnemonic());
        match *self {
            Opcode::Add(r1, r2, r3) | Opcode::Sub(r1, r2, r3) | Opcode::Mul(r1, r2, r3)
                | Opcode::Div(r1, r2, r3) => {
                out.append(" ");
                out.append(r1.name());
                out.append(" ");
                out.append(r2.name());
                out.append(" ");
                out.append(r3.name());
            },
            Opcode::Imm(r1, imm) => {
                out.append(" ");
                out.append(r1.name());
                out.append(" ");
                push_dec(&mut out, imm.0);
            },
            Opcode::Push(r1) | Opcode::Pop(r1) => {
                out.append(" ");
                out.append(r1.name());
            },
            Opcode::Cmp(r1, r2) => {
                out.append(" ");
                out.append(r1.name());
                out.append(" ");
                out.append(r2.name());
            },
            Opcode::Jmp(imm) | Opcode::Je(imm) | Opcode::Jne(imm) | Opcode::Jg(imm) | Opcode::Jge(
                imm,
            ) | Opcode::Jl(imm) | Opcode::Jle(imm) | Opcode::Jz(imm) | Opcode::Jnz(imm)
                | Opcode::Call(imm) => {
                out.append(" ");
                push_dec(&mut out, imm.0);
            },
            Opcode::Ret | Opcode::Fn | Opcode::StackAdd | Opcode::StackSub | Opcode::StackMul
                | Opcode::StackDiv | Opcode::Syscall => {},
        }
        proof {
            assert(out@ =~= spec_render(*self));
        }
        out
    }
}

} // verus!
