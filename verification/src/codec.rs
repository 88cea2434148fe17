//! The instruction codec: pure functions between 32-bit instruction words
//! and typed opcodes.
//!
//! Wire layout: the 8-bit opcode tag occupies the low byte; register fields
//! are 3 bits wide at bit offsets 8, 11 and 14; a 13-bit literal field sits
//! at bit offset 11. Exactly one shape applies per opcode.

use vstd::prelude::*;

use crate::instructions::{Bit13Literal, Opcode};
use crate::registers::{reg_idx, reg_of, Register};

verus! {

/// The opcode tag in the low byte of a word.
pub open spec fn w_op(w: u32) -> u32 {
    w & 0xff
}

/// The first register field, bits 8-10.
pub open spec fn w_r1(w: u32) -> u32 {
    (w >> 8) & 0x7
}

/// The second register field, bits 11-13.
pub open spec fn w_r2(w: u32) -> u32 {
    (w >> 11) & 0x7
}

/// The third register field, bits 14-16.
pub open spec fn w_r3(w: u32) -> u32 {
    (w >> 14) & 0x7
}

/// The 13-bit literal field, bits 11-23.
pub open spec fn w_lit(w: u32) -> u32 {
    (w >> 11) & 0x1fff
}

/// A word holding a tag and one register field.
pub open spec fn enc_reg1(tag: u32, r1: Register) -> u32 {
    tag | ((reg_idx(r1) as u32 & 0x7) << 8)
}

/// A word holding a tag and two register fields.
pub open spec fn enc_reg2(tag: u32, r1: Register, r2: Register) -> u32 {
    tag | ((reg_idx(r1) as u32 & 0x7) << 8) | ((reg_idx(r2) as u32 & 0x7) << 11)
}

/// A word holding a tag and three register fields.
pub open spec fn enc_reg3(tag: u32, r1: Register, r2: Register, r3: Register) -> u32 {
    tag | ((reg_idx(r1) as u32 & 0x7) << 8) | ((reg_idx(r2) as u32 & 0x7) << 11) | ((reg_idx(r3)
        as u32 & 0x7) << 14)
}

/// A word holding a tag, one register field and a 13-bit literal.
pub open spec fn enc_imm(tag: u32, r1: Register, imm: Bit13Literal) -> u32 {
    tag | ((reg_idx(r1) as u32 & 0x7) << 8) | (((imm.0 as u32) & 0x1fff) << 11)
}

/// A word holding a tag and a 13-bit literal.
pub open spec fn enc_jump(tag: u32, imm: Bit13Literal) -> u32 {
    tag | (((imm.0 as u32) & 0x1fff) << 11)
}

/// The 32-bit wire encoding of an opcode.
pub open spec fn spec_encode(op: Opcode) -> u32 {
    match op {
        Opcode::Add(r1, r2, r3) => enc_reg3(0x01, r1, r2, r3),
        Opcode::Sub(r1, r2, r3) => enc_reg3(0x02, r1, r2, r3),
        Opcode::Mul(r1, r2, r3) => enc_reg3(0x03, r1, r2, r3),
        Opcode::Div(r1, r2, r3) => enc_reg3(0x04, r1, r2, r3),
        Opcode::Imm(r1, imm) => enc_imm(0x05, r1, imm),
        Opcode::Push(r1) => enc_reg1(0x06, r1),
        Opcode::Pop(r1) => enc_reg1(0x07, r1),
        Opcode::Cmp(r1, r2) => enc_reg2(0x08, r1, r2),
        Opcode::Jmp(imm) => enc_jump(0x09, imm),
        Opcode::Je(imm) => enc_jump(0x0a, imm),
        Opcode::Jne(imm) => enc_jump(0x0b, imm),
        Opcode::Jg(imm) => enc_jump(0x0c, imm),
        Opcode::Jge(imm) => enc_jump(0x0d, imm),
        Opcode::Jz(imm) => enc_jump(0x0e, imm),
        Opcode::Jnz(imm) => enc_jump(0x0f, imm),
        Opcode::Jl(imm) => enc_jump(0x10, imm),
        Opcode::Jle(imm) => enc_jump(0x11, imm),
        Opcode::Syscall => 0x12,
        Opcode::Ret => 0x13,
        Opcode::Call(imm) => enc_jump(0x14, imm),
        Opcode::Fn => 0x15,
        Opcode::StackAdd => 0x16,
        Opcode::StackSub => 0x17,
        Opcode::StackMul => 0x18,
        Opcode::StackDiv => 0x19,
    }
}

/// The opcode a word decodes to, or `None` when the low byte matches no
/// known tag.
pub open spec fn spec_decode(w: u32) -> Option<Opcode> {
    let t = w_op(w);
    let r1 = reg_of(w_r1(w));
    let r2 = reg_of(w_r2(w));
    let r3 = reg_of(w_r3(w));
    let lit = Bit13Literal(w_lit(w) as u16);
    if t == 0x01 {
        Some(Opcode::Add(r1, r2, r3))
    } else if t == 0x02 {
        Some(Opcode::Sub(r1, r2, r3))
    } else if t == 0x03 {
        Some(Opcode::Mul(r1, r2, r3))
    } else if t == 0x04 {
        Some(Opcode::Div(r1, r2, r3))
    } else if t == 0x05 {
        Some(Opcode::Imm(r1, lit))
    } else if t == 0x06 {
        Some(Opcode::Push(r1))
    } else if t == 0x07 {
        Some(Opcode::Pop(r1))
    } else if t == 0x08 {
        Some(Opcode::Cmp(r1, r2))
    } else if t == 0x09 {
        Some(Opcode::Jmp(lit))
    } else if t == 0x0a {
        Some(Opcode::Je(lit))
    } else if t == 0x0b {
        Some(Opcode::Jne(lit))
    } else if t == 0x0c {
        Some(Opcode::Jg(lit))
    } else if t == 0x0d {
        Some(Opcode::Jge(lit))
    } else if t == 0x0e {
        Some(Opcode::Jz(lit))
    } else if t == 0x0f {
        Some(Opcode::Jnz(lit))
    } else if t == 0x10 {
        Some(Opcode::Jl(lit))
    } else if t == 0x11 {
        Some(Opcode::Jle(lit))
    } else if t == 0x12 {
        Some(Opcode::Syscall)
    } else if t == 0x13 {
        Some(Opcode::Ret)
    } else if t == 0x14 {
        Some(Opcode::Call(lit))
    } else if t == 0x15 {
        Some(Opcode::Fn)
    } else if t == 0x16 {
        Some(Opcode::StackAdd)
    } else if t == 0x17 {
        Some(Opcode::StackSub)
    } else if t == 0x18 {
        Some(Opcode::StackMul)
    } else if t == 0x19 {
        Some(Opcode::StackDiv)
    } else {
        None
    }
}

/// A well-formed opcode: every register operand names an addressable
/// register (never the `Count` sentinel) and every literal fits in 13 bits.
/// These are exactly the values a valid instruction word can carry.
pub open spec fn opcode_wf(op: Opcode) -> bool {
    match op {
        Opcode::Add(r1, r2, r3) | Opcode::Sub(r1, r2, r3) | Opcode::Mul(r1, r2, r3) | Opcode::Div(
            r1,
            r2,
            r3,
        ) => r1 != Register::Count && r2 != Register::Count && r3 != Register::Count,
        Opcode::Imm(r1, imm) => r1 != Register::Count && imm.0 <= 8191,
        Opcode::Push(r1) | Opcode::Pop(r1) => r1 != Register::Count,
        Opcode::Cmp(r1, r2) => r1 != Register::Count && r2 != Register::Count,
        Opcode::Jmp(imm) | Opcode::Je(imm) | Opcode::Jne(imm) | Opcode::Jg(imm) | Opcode::Jge(imm)
            | Opcode::Jl(imm) | Opcode::Jle(imm) | Opcode::Jz(imm) | Opcode::Jnz(imm)
            | Opcode::Call(imm) => imm.0 <= 8191,
        Opcode::Ret | Opcode::Fn | Opcode::Syscall | Opcode::StackAdd | Opcode::StackSub
            | Opcode::StackMul | Opcode::StackDiv => true,
    }
}

/// Field extraction inverts composition for the three-register shape.
proof fn lemma_fields_reg3(tag: u32, v1: u32, v2: u32, v3: u32)
    by (bit_vector)
    requires
        tag < 0x100,
        v1 < 8,
        v2 < 8,
        v3 < 8,
    ensures
        (tag | ((v1 & 0x7) << 8) | ((v2 & 0x7) << 11) | ((v3 & 0x7) << 14)) & 0xff == tag,
        ((tag | ((v1 & 0x7) << 8) | ((v2 & 0x7) << 11) | ((v3 & 0x7) << 14)) >> 8) & 0x7 == v1,
        ((tag | ((v1 & 0x7) << 8) | ((v2 & 0x7) << 11) | ((v3 & 0x7) << 14)) >> 11) & 0x7 == v2,
        ((tag | ((v1 & 0x7) << 8) | ((v2 & 0x7) << 11) | ((v3 & 0x7) << 14)) >> 14) & 0x7 == v3,
{
}

/// Field extraction inverts composition for the two-register shape.
proof fn lemma_fields_reg2(tag: u32, v1: u32, v2: u32)
    by (bit_vector)
    requires
        tag < 0x100,
        v1 < 8,
        v2 < 8,
    ensures
        (tag | ((v1 & 0x7) << 8) | ((v2 & 0x7) << 11)) & 0xff == tag,
        ((tag | ((v1 & 0x7) << 8) | ((v2 & 0x7) << 11)) >> 8) & 0x7 == v1,
        ((tag | ((v1 & 0x7) << 8) | ((v2 & 0x7) << 11)) >> 11) & 0x7 == v2,
{
}

/// Field extraction inverts composition for the one-register shape.
proof fn lemma_fields_reg1(tag: u32, v1: u32)
    by (bit_vector)
    requires
        tag < 0x100,
        v1 < 8,
    ensures
        (tag | ((v1 & 0x7) << 8)) & 0xff == tag,
        ((tag | ((v1 & 0x7) << 8)) >> 8) & 0x7 == v1,
{
}

/// Field extraction inverts composition for the register-plus-literal shape.
proof fn lemma_fields_imm(tag: u32, v1: u32, lit: u32)
    by (bit_vector)
    requires
        tag < 0x100,
        v1 < 8,
        lit < 0x2000,
    ensures
        (tag | ((v1 & 0x7) << 8) | ((lit & 0x1fff) << 11)) & 0xff == tag,
        ((tag | ((v1 & 0x7) << 8) | ((lit & 0x1fff) << 11)) >> 8) & 0x7 == v1,
        ((tag | ((v1 & 0x7) << 8) | ((lit & 0x1fff) << 11)) >> 11) & 0x1fff == lit,
{
}

/// Field extraction inverts composition for the literal-only shape.
proof fn lemma_fields_jump(tag: u32, lit: u32)
    by (bit_vector)
    requires
        tag < 0x100,
        lit < 0x2000,
    ensures
        (tag | ((lit & 0x1fff) << 11)) & 0xff == tag,
        ((tag | ((lit & 0x1fff) << 11)) >> 11) & 0x1fff == lit,
{
}

/// The extracted fields of a word are in range: register fields below 8,
/// the literal field below 8192, the tag below 256.
proof fn lemma_fields_in_range(w: u32)
    by (bit_vector)
    ensures
        w & 0xff < 0x100,
        (w >> 8) & 0x7 < 8,
        (w >> 11) & 0x7 < 8,
        (w >> 14) & 0x7 < 8,
        (w >> 11) & 0x1fff < 0x2000,
{
}

/// Round trip for `Add`.
proof fn lemma_rt_add(r1: Register, r2: Register, r3: Register)
    requires
        r1 != Register::Count,
        r2 != Register::Count,
        r3 != Register::Count,
    ensures
        spec_decode(spec_encode(Opcode::Add(r1, r2, r3))) == Some(Opcode::Add(r1, r2, r3)),
{
    lemma_fields_reg3(0x01, reg_idx(r1) as u32, reg_idx(r2) as u32, reg_idx(r3) as u32);
}

/// Round trip for `Sub`.
proof fn lemma_rt_sub(r1: Register, r2: Register, r3: Register)
    requires
        r1 != Register::Count,
        r2 != Register::Count,
        r3 != Register::Count,
    ensures
        spec_decode(spec_encode(Opcode::Sub(r1, r2, r3))) == Some(Opcode::Sub(r1, r2, r3)),
{
    lemma_fields_reg3(0x02, reg_idx(r1) as u32, reg_idx(r2) as u32, reg_idx(r3) as u32);
}

/// Round trip for `Mul`.
proof fn lemma_rt_mul(r1: Register, r2: Register, r3: Register)
    requires
        r1 != Register::Count,
        r2 != Register::Count,
        r3 != Register::Count,
    ensures
        spec_decode(spec_encode(Opcode::Mul(r1, r2, r3))) == Some(Opcode::Mul(r1, r2, r3)),
{
    lemma_fields_reg3(0x03, reg_idx(r1) as u32, reg_idx(r2) as u32, reg_idx(r3) as u32);
}

/// Round trip for `Div`.
proof fn lemma_rt_div(r1: Register, r2: Register, r3: Register)
    requires
        r1 != Register::Count,
        r2 != Register::Count,
        r3 != Register::Count,
    ensures
        spec_decode(spec_encode(Opcode::Div(r1, r2, r3))) == Some(Opcode::Div(r1, r2, r3)),
{
    lemma_fields_reg3(0x04, reg_idx(r1) as u32, reg_idx(r2) as u32, reg_idx(r3) as u32);
}

/// Round trip for the one- and two-register opcodes and the immediate load.
proof fn lemma_rt_regs(op: Opcode)
    requires
        opcode_wf(op),
        op matches Opcode::Imm(..) || op matches Opcode::Push(..) || op matches Opcode::Pop(..)
            || op matches Opcode::Cmp(..),
    ensures
        spec_decode(spec_encode(op)) == Some(op),
{
    match op {
        Opcode::Imm(r1, imm) => {
            lemma_fields_imm(0x05, reg_idx(r1) as u32, imm.0 as u32);
        },
        Opcode::Push(r1) => {
            lemma_fields_reg1(0x06, reg_idx(r1) as u32);
        },
        Opcode::Pop(r1) => {
            lemma_fields_reg1(0x07, reg_idx(r1) as u32);
        },
        Opcode::Cmp(r1, r2) => {
            lemma_fields_reg2(0x08, reg_idx(r1) as u32, reg_idx(r2) as u32);
        },
        _ => {},
    }
}

/// Round trip for the jump-target opcodes.
proof fn lemma_rt_jumps(op: Opcode)
    requires
        opcode_wf(op),
        op matches Opcode::Jmp(..) || op matches Opcode::Je(..) || op matches Opcode::Jne(..)
            || op matches Opcode::Jg(..) || op matches Opcode::Jge(..) || op matches Opcode::Jl(..)
            || op matches Opcode::Jle(..) || op matches Opcode::Jz(..) || op matches Opcode::Jnz(
            ..,
        ) || op matches Opcode::Call(..),
    ensures
        spec_decode(spec_encode(op)) == Some(op),
{
    match op {
        Opcode::Jmp(imm) => {
            lemma_fields_jump(0x09, imm.0 as u32);
        },
        Opcode::Je(imm) => {
            lemma_fields_jump(0x0a, imm.0 as u32);
        },
        Opcode::Jne(imm) => {
            lemma_fields_jump(0x0b, imm.0 as u32);
        },
        Opcode::Jg(imm) => {
            lemma_fields_jump(0x0c, imm.0 as u32);
        },
        Opcode::Jge(imm) => {
            lemma_fields_jump(0x0d, imm.0 as u32);
        },
        Opcode::Jz(imm) => {
            lemma_fields_jump(0x0e, imm.0 as u32);
        },
        Opcode::Jnz(imm) => {
            lemma_fields_jump(0x0f, imm.0 as u32);
        },
        Opcode::Jl(imm) => {
            lemma_fields_jump(0x10, imm.0 as u32);
        },
        Opcode::Jle(imm) => {
            lemma_fields_jump(0x11, imm.0 as u32);
        },
        Opcode::Call(imm) => {
            lemma_fields_jump(0x14, imm.0 as u32);
        },
        _ => {},
    }
}

/// Round trip for the opcodes without operands, whose word is the bare tag.
proof fn lemma_rt_plain(op: Opcode)
    requires
        op matches Opcode::Syscall || op matches Opcode::Ret || op matches Opcode::Fn
            || op matches Opcode::StackAdd || op matches Opcode::StackSub
            || op matches Opcode::StackMul || op matches Opcode::StackDiv,
    ensures
        spec_decode(spec_encode(op)) == Some(op),
{
    assert(0x12u32 & 0xff == 0x12) by (bit_vector);
    assert(0x13u32 & 0xff == 0x13) by (bit_vector);
    assert(0x15u32 & 0xff == 0x15) by (bit_vector);
    assert(0x16u32 & 0xff == 0x16) by (bit_vector);
    assert(0x17u32 & 0xff == 0x17) by (bit_vector);
    assert(0x18u32 & 0xff == 0x18) by (bit_vector);
    assert(0x19u32 & 0xff == 0x19) by (bit_vector);
}

/// Encode/decode round-trip: decoding the encoding of any well-formed
/// opcode reproduces the opcode exactly, register identities and literal
/// value included.
pub proof fn lemma_encode_decode(op: Opcode)
    requires
        opcode_wf(op),
    ensures
        spec_decode(spec_encode(op)) == Some(op),
{
    match op {
        Opcode::Add(r1, r2, r3) => lemma_rt_add(r1, r2, r3),
        Opcode::Sub(r1, r2, r3) => lemma_rt_sub(r1, r2, r3),
        Opcode::Mul(r1, r2, r3) => lemma_rt_mul(r1, r2, r3),
        Opcode::Div(r1, r2, r3) => lemma_rt_div(r1, r2, r3),
        Opcode::Imm(..) | Opcode::Push(..) | Opcode::Pop(..) | Opcode::Cmp(..) => lemma_rt_regs(
            op,
        ),
        Opcode::Jmp(..) | Opcode::Je(..) | Opcode::Jne(..) | Opcode::Jg(..) | Opcode::Jge(..)
            | Opcode::Jl(..) | Opcode::Jle(..) | Opcode::Jz(..) | Opcode::Jnz(..) | Opcode::Call(
            ..,
        ) => lemma_rt_jumps(op),
        Opcode::Syscall | Opcode::Ret | Opcode::Fn | Opcode::StackAdd | Opcode::StackSub
            | Opcode::StackMul | Opcode::StackDiv => lemma_rt_plain(op),
    }
}

/// Every decoded opcode is well-formed: a 3-bit field cannot name the
/// sentinel register and a 13-bit field cannot exceed 8191.
pub proof fn lemma_decode_wf(w: u32)
    ensures
        spec_decode(w) matches Some(op) ==> opcode_wf(op),
{
    lemma_fields_in_range(w);
}

impl Opcode {
    /// Encodes the opcode as its 32-bit instruction word.
    pub fn encode(self) -> (w: u32)
        ensures
            w == spec_encode(self),
    {
        match self {
            Opcode::Add(r1, r2, r3) => 0x01 | ((r1.to_u32() & 0x7) << 8) | ((r2.to_u32() & 0x7)
                << 11) | ((r3.to_u32() & 0x7) << 14),
            Opcode::Sub(r1, r2, r3) => 0x02 | ((r1.to_u32() & 0x7) << 8) | ((r2.to_u32() & 0x7)
                << 11) | ((r3.to_u32() & 0x7) << 14),
            Opcode::Mul(r1, r2, r3) => 0x03 | ((r1.to_u32() & 0x7) << 8) | ((r2.to_u32() & 0x7)
                << 11) | ((r3.to_u32() & 0x7) << 14),
            Opcode::Div(r1, r2, r3) => 0x04 | ((r1.to_u32() & 0x7) << 8) | ((r2.to_u32() & 0x7)
                << 11) | ((r3.to_u32() & 0x7) << 14),
            Opcode::Imm(r1, imm) => 0x05 | ((r1.to_u32() & 0x7) << 8) | (((imm.0 as u32) & 0x1fff)
                << 11),
            Opcode::Push(r1) => 0x06 | ((r1.to_u32() & 0x7) << 8),
            Opcode::Pop(r1) => 0x07 | ((r1.to_u32() & 0x7) << 8),
            Opcode::Cmp(r1, r2) => 0x08 | ((r1.to_u32() & 0x7) << 8) | ((r2.to_u32() & 0x7) << 11),
            Opcode::Jmp(imm) => 0x09 | (((imm.0 as u32) & 0x1fff) << 11),
            Opcode::Je(imm) => 0x0a | (((imm.0 as u32) & 0x1fff) << 11),
            Opcode::Jne(imm) => 0x0b | (((imm.0 as u32) & 0x1fff) << 11),
            Opcode::Jg(imm) => 0x0c | (((imm.0 as u32) & 0x1fff) << 11),
            Opcode::Jge(imm) => 0x0d | (((imm.0 as u32) & 0x1fff) << 11),
            Opcode::Jz(imm) => 0x0e | (((imm.0 as u32) & 0x1fff) << 11),
            Opcode::Jnz(imm) => 0x0f | (((imm.0 as u32) & 0x1fff) << 11),
            Opcode::Jl(imm) => 0x10 | (((imm.0 as u32) & 0x1fff) << 11),
            Opcode::Jle(imm) => 0x11 | (((imm.0 as u32) & 0x1fff) << 11),
            Opcode::Syscall => 0x12,
            Opcode::Ret => 0x13,
            Opcode::Call(imm) => 0x14 | (((imm.0 as u32) & 0x1fff) << 11),
            Opcode::Fn => 0x15,
            Opcode::StackAdd => 0x16,
            Opcode::StackSub => 0x17,
            Opcode::StackMul => 0x18,
            Opcode::StackDiv => 0x19,
        }
    }

    /// Decodes a 32-bit instruction word; a low byte matching no known tag
    /// is a decode fault, reported as `None`.
    pub fn decode(w: u32) -> (r: Option<Opcode>)
        ensures
            r == spec_decode(w),
            r matches Some(op) ==> opcode_wf(op),
    {
        proof {
            lemma_fields_in_range(w);
            lemma_decode_wf(w);
        }
        let tag = w & 0xff;
        let r1 = Register::from_u32((w >> 8) & 0x7);
        let r2 = Register::from_u32((w >> 11) & 0x7);
        let r3 = Register::from_u32((w >> 14) & 0x7);
        let lit = Bit13Literal(((w >> 11) & 0x1fff) as u16);
        match tag {
            0x01 => Some(Opcode::Add(r1, r2, r3)),
            0x02 => Some(Opcode::Sub(r1, r2, r3)),
            0x03 => Some(Opcode::Mul(r1, r2, r3)),
            0x04 => Some(Opcode::Div(r1, r2, r3)),
            0x05 => Some(Opcode::Imm(r1, lit)),
            0x06 => Some(Opcode::Push(r1)),
            0x07 => Some(Opcode::Pop(r1)),
            0x08 => Some(Opcode::Cmp(r1, r2)),
            0x09 => Some(Opcode::Jmp(lit)),
            0x0a => Some(Opcode::Je(lit)),
            0x0b => Some(Opcode::Jne(lit)),
            0x0c => Some(Opcode::Jg(lit)),
            0x0d => Some(Opcode::Jge(lit)),
            0x0e => Some(Opcode::Jz(lit)),
            0x0f => Some(Opcode::Jnz(lit)),
            0x10 => Some(Opcode::Jl(lit)),
            0x11 => Some(Opcode::Jle(lit)),
            0x12 => Some(Opcode::Syscall),
            0x13 => Some(Opcode::Ret),
            0x14 => Some(Opcode::Call(lit)),
            0x15 => Some(Opcode::Fn),
            0x16 => Some(Opcode::StackAdd),
            0x17 => Some(Opcode::StackSub),
            0x18 => Some(Opcode::StackMul),
            0x19 => Some(Opcode::StackDiv),
            _ => None,
        }
    }
}

} // verus!

