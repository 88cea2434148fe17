//! The typed instruction set: 13-bit literals and the opcode union.

use vstd::prelude::*;
use vstd::string::StrSliceExecFns;

use crate::registers::Register;

verus! {

/// An unsigned literal constrained to the inclusive range `[0, 8191]`
/// (13 bits). It is the operand of immediate loads and the target of jumps
/// and calls (a word index into the instruction store).
#[derive(Clone, Copy, PartialEq, Eq, Structural, Debug)]
pub struct Bit13Literal(pub u16);

/// The error returned when text does not form a 13-bit literal.
#[derive(Clone, Copy, PartialEq, Eq, Structural, Debug)]
pub enum Invalid13BitLitError {
    /// The text parses as a number but exceeds 8191.
    TooBig,
    /// The text does not parse as a number in the selected base.
    InvalidDigit,
}

/// The decoded, executable form of one instruction word.
#[derive(Clone, Copy, PartialEq, Eq, Structural, Debug)]
pub enum Opcode {
    /// `regs[third] = regs[first] + regs[second]`, wrapping.
    Add(Register, Register, Register),
    /// `regs[third] = regs[first] - regs[second]`, wrapping.
    Sub(Register, Register, Register),
    /// `regs[third] = regs[first] * regs[second]`, wrapping.
    Mul(Register, Register, Register),
    /// `regs[third] = regs[first] / regs[second]`; a zero divisor is a fault.
    Div(Register, Register, Register),
    /// Loads the literal into the register, zero-extended to 32 bits.
    Imm(Register, Bit13Literal),
    /// Writes the register to the stack and bumps `SP`.
    Push(Register),
    /// Drops `SP` and reads the exposed word into the register.
    Pop(Register),
    /// Recomputes the `Flag` register from the two registers.
    Cmp(Register, Register),
    /// Unconditional jump.
    Jmp(Bit13Literal),
    /// Jump if the equal flag bit is set.
    Je(Bit13Literal),
    /// Jump if the not-equal flag bit is set.
    Jne(Bit13Literal),
    /// Jump if the greater flag bit is set.
    Jg(Bit13Literal),
    /// Jump if the greater and equal flag bits are both set.
    Jge(Bit13Literal),
    /// Jump if the less flag bit is set.
    Jl(Bit13Literal),
    /// Jump if the less and equal flag bits are both set.
    Jle(Bit13Literal),
    /// Jump if the zero flag bit is set.
    Jz(Bit13Literal),
    /// Jump if the zero flag bit is clear.
    Jnz(Bit13Literal),
    /// Pops the return address into `PC`.
    Ret,
    /// Pushes the return address and jumps one word past the target's
    /// `Fn` marker.
    Call(Bit13Literal),
    /// Marks the start of a function body; reaching it by fall-through makes
    /// the engine skip to the matching `Ret`.
    Fn,
    /// Pops two words and pushes their wrapping sum.
    StackAdd,
    /// Pops two words and pushes their wrapping difference.
    StackSub,
    /// Pops two words and pushes their wrapping product.
    StackMul,
    /// Pops two words and pushes their quotient; a zero divisor is a fault.
    StackDiv,
    /// Invokes the host service selected by register `A`.
    Syscall,
}

impl Bit13Literal {
    /// The literal zero-extended to a 32-bit word.
    pub fn value(self) -> (v: u32)
        ensures
            v == self.0 as u32,
    {
        self.0 as u32
    }
}

/// The numeric base selected by the literal's prefix: `#` means hexadecimal,
/// `$` binary, anything else decimal.
pub open spec fn lit_base(s: Seq<char>) -> u32 {
    if s.len() > 0 && s[0] == '#' {
        16
    } else if s.len() > 0 && s[0] == '$' {
        2
    } else {
        10
    }
}

/// The literal text with its base prefix stripped.
pub open spec fn lit_body(s: Seq<char>) -> Seq<char> {
    if s.len() > 0 && (s[0] == '#' || s[0] == '$') {
        s.subrange(1, s.len() as int)
    } else {
        s
    }
}

/// The digit part of the body: an optional leading `+` sign is accepted and
/// carries no value.
pub open spec fn lit_digits(s: Seq<char>) -> Seq<char> {
    let body = lit_body(s);
    if body.len() > 0 && body[0] == '+' {
        body.subrange(1, body.len() as int)
    } else {
        body
    }
}

/// The numeric value of one digit character in the given base, when it is
/// one; hexadecimal digits may use either letter case.
pub open spec fn spec_digit_val(c: char, base: u32) -> Option<u32> {
    let cv = c as u32;
    if '0' as u32 <= cv && cv <= '9' as u32 && cv - ('0' as u32) < base {
        Some((cv - '0' as u32) as u32)
    } else if 'a' as u32 <= cv && cv <= 'f' as u32 && cv - ('a' as u32) + 10 < base {
        Some((cv - 'a' as u32 + 10) as u32)
    } else if 'A' as u32 <= cv && cv <= 'F' as u32 && cv - ('A' as u32) + 10 < base {
        Some((cv - 'A' as u32 + 10) as u32)
    } else {
        None
    }
}

/// Whether the text parses in the selected base: at least one digit after
/// the optional sign, every character a digit of the base.
pub open spec fn lit_grammar_ok(s: Seq<char>) -> bool {
    let d = lit_digits(s);
    d.len() > 0 && forall|i: int| 0 <= i < d.len() ==> spec_digit_val(d[i], lit_base(s)).is_some()
}

/// The value of a digit string read most-significant first; characters that
/// are no digits of the base count as zero (the grammar check rejects them
/// separately).
pub open spec fn digits_val(d: Seq<char>, base: u32) -> nat
    decreases d.len(),
{
    if d.len() == 0 {
        0
    } else {
        (digits_val(d.drop_last(), base) * base + match spec_digit_val(d.last(), base) {
            Some(v) => v as nat,
            None => 0nat,
        }) as nat
    }
}

/// The numeric value the literal text denotes.
pub open spec fn lit_value(s: Seq<char>) -> nat {
    digits_val(lit_digits(s), lit_base(s))
}

/// A longer digit string never denotes a smaller value: extending the parsed
/// prefix can only grow the result.
proof fn lemma_digits_val_prefix_le(d: Seq<char>, base: u32, i: int)
    requires
        0 <= i <= d.len(),
        base >= 2,
    ensures
        digits_val(d.subrange(0, i), base) <= digits_val(d, base),
    decreases d.len() - i,
{
    if i < d.len() {
        let e = d.subrange(0, i + 1);
        assert(e.drop_last() =~= d.subrange(0, i));
        assert(digits_val(d.subrange(0, i), base) <= digits_val(e, base)) by {
            assert(digits_val(e, base) == digits_val(e.drop_last(), base) * base + match
                spec_digit_val(e.last(), base) {
                Some(v) => v as nat,
                None => 0,
            });
            assert(digits_val(e.drop_last(), base) * base >= digits_val(e.drop_last(), base))
                by (nonlinear_arith)
                requires
                    base >= 2,
            ;
        }
        lemma_digits_val_prefix_le(d, base, i + 1);
    } else {
        assert(d.subrange(0, i) =~= d);
    }
}

/// The numeric value of one digit character, or `None` for a non-digit.
fn digit_val(c: char, base: u32) -> (r: Option<u32>)
    requires
        base == 2 || base == 10 || base == 16,
    ensures
        r == spec_digit_val(c, base),
{
    let cv = c as u32;
    let zero = '0' as u32;
    let nine = '9' as u32;
    let la = 'a' as u32;
    let lf = 'f' as u32;
    let ua = 'A' as u32;
    let uf = 'F' as u32;
    if zero <= cv && cv <= nine && cv - zero < base {
        Some(cv - zero)
    } else if la <= cv && cv <= lf && cv - la + 10 < base {
        Some(cv - la + 10)
    } else if ua <= cv && cv <= uf && cv - ua + 10 < base {
        Some(cv - ua + 10)
    } else {
        None
    }
}

impl Bit13Literal {
    /// Parses a literal from text. A `#` prefix selects hexadecimal, a `$`
    /// prefix binary, no prefix decimal. Parsing fails with `InvalidDigit`
    /// when the remaining text is not a number of the base (or is too wide
    /// for 16 bits), and with `TooBig` when the number exceeds 8191.
    pub fn try_from(s: &str) -> (r: Result<Bit13Literal, Invalid13BitLitError>)
        ensures
            match r {
                Ok(lit) => lit_grammar_ok(s@) && lit_value(s@) <= 8191 && lit.0 == lit_value(s@),
                Err(Invalid13BitLitError::TooBig) => lit_grammar_ok(s@) && 8191 < lit_value(s@)
                    <= 65535,
                Err(Invalid13BitLitError::InvalidDigit) => !lit_grammar_ok(s@) || lit_value(s@)
                    > 65535,
            },
    {
        let n = s.unicode_len();
        let mut start: usize = 0;
        let mut base: u32 = 10;
        if n > 0 {
            let first = s.get_char(0);
            if first == '#' {
                base = 16;
                start = 1;
            } else if first == '$' {
                base = 2;
                start = 1;
            }
        }
        proof {
            assert(lit_base(s@) == base);
            assert(lit_body(s@) =~= s@.subrange(start as int, n as int));
        }

        // Skip a single leading '+' sign, which `u16::from_str_radix`-style
        // parsing accepts without effect on the value.
        if start < n && s.get_char(start) == '+' {
            start = start + 1;
        }
        let ghost d = lit_digits(s@);
        proof {
            assert(d =~= s@.subrange(start as int, n as int));
        }

        if start >= n {
            // No digits at all.
            return Err(Invalid13BitLitError::InvalidDigit);
        }

        let mut acc: u32 = 0;
        let mut i: usize = start;
        while i < n
            invariant
                start <= i <= n,
                n == s@.len(),
                start < n,
                base == 2 || base == 10 || base == 16,
                base == lit_base(s@),
                d == lit_digits(s@),
                d =~= s@.subrange(start as int, n as int),
                acc == digits_val(d.subrange(0, i - start), base),
                acc <= 65535,
                forall|j: int|
                    0 <= j < i - start ==> spec_digit_val(d[j], base).is_some(),
            decreases n - i,
        {
            let c = s.get_char(i);
            proof {
                assert(d[i - start] == s@[i as int]);
            }
            let dv = match digit_val(c, base) {
                Some(v) => v,
                None => {
                    // A non-digit character: the grammar is broken.
                    return Err(Invalid13BitLitError::InvalidDigit);
                },
            };
            let next = acc * base + dv;
            proof {
                let pre = d.subrange(0, i - start + 1);
                assert(pre.drop_last() =~= d.subrange(0, i - start));
                assert(pre.last() == d[i - start]);
                assert(next == digits_val(pre, base));
            }
            if next > 65535 {
                // The value cannot fit in 16 bits, however the rest reads.
                proof {
                    lemma_digits_val_prefix_le(d, base, i - start + 1);
                }
                return Err(Invalid13BitLitError::InvalidDigit);
            }
            acc = next;
            i += 1;
        }
        proof {
            assert(d.subrange(0, n - start) =~= d);
        }

        if acc > 8191 {
            Err(Invalid13BitLitError::TooBig)
        } else {
            Ok(Bit13Literal(acc as u16))
        }
    }
}

} // verus!

