use crazyvm::instructions::{Bit13Literal, Invalid13BitLitError, Opcode};
use crazyvm::registers::Register;

const REGS: [Register; 8] = [
    Register::SP,
    Register::PC,
    Register::Flag,
    Register::Zero,
    Register::A,
    Register::B,
    Register::C,
    Register::D,
];

fn round_trips(op: Opcode) {
    let word = op.encode();
    assert_eq!(Opcode::decode(word), Some(op));
}

#[test]
fn roundtrip_three_register_opcodes() {
    for &r1 in REGS.iter() {
        for &r2 in REGS.iter() {
            for &r3 in REGS.iter() {
                round_trips(Opcode::Add(r1, r2, r3));
                round_trips(Opcode::Sub(r1, r2, r3));
                round_trips(Opcode::Mul(r1, r2, r3));
                round_trips(Opcode::Div(r1, r2, r3));
            }
        }
    }
}

#[test]
fn roundtrip_register_opcodes() {
    for &r1 in REGS.iter() {
        round_trips(Opcode::Push(r1));
        round_trips(Opcode::Pop(r1));
        for &r2 in REGS.iter() {
            round_trips(Opcode::Cmp(r1, r2));
        }
        for lit in [0u16, 1, 42, 4096, 8191] {
            round_trips(Opcode::Imm(r1, Bit13Literal(lit)));
        }
    }
}

#[test]
fn roundtrip_jump_opcodes() {
    for lit in [0u16, 1, 5, 1000, 8191] {
        let imm = Bit13Literal(lit);
        round_trips(Opcode::Jmp(imm));
        round_trips(Opcode::Je(imm));
        round_trips(Opcode::Jne(imm));
        round_trips(Opcode::Jg(imm));
        round_trips(Opcode::Jge(imm));
        round_trips(Opcode::Jl(imm));
        round_trips(Opcode::Jle(imm));
        round_trips(Opcode::Jz(imm));
        round_trips(Opcode::Jnz(imm));
        round_trips(Opcode::Call(imm));
    }
}

#[test]
fn roundtrip_plain_opcodes() {
    round_trips(Opcode::Ret);
    round_trips(Opcode::Fn);
    round_trips(Opcode::Syscall);
    round_trips(Opcode::StackAdd);
    round_trips(Opcode::StackSub);
    round_trips(Opcode::StackMul);
    round_trips(Opcode::StackDiv);
}

#[test]
fn decode_rejects_unknown_tag() {
    assert_eq!(Opcode::decode(0x00), None);
    assert_eq!(Opcode::decode(0xff), None);
    assert_eq!(Opcode::decode(0x1a), None);
}

#[test]
fn field_layout_matches_the_wire_format() {
    // Tag in the low byte, registers at bits 8, 11 and 14.
    let w = Opcode::Add(Register::PC, Register::Flag, Register::Zero).encode();
    assert_eq!(w, 0x01 | (1 << 8) | (2 << 11) | (3 << 14));
    // A 13-bit literal sits at bit 11.
    let w = Opcode::Imm(Register::A, Bit13Literal(8191)).encode();
    assert_eq!(w, 0x05 | (4 << 8) | (0x1fff << 11));
}

#[test]
fn bit13_literal_range() {
    assert!(matches!(Bit13Literal::try_from("8191"), Ok(Bit13Literal(8191))));
    assert!(matches!(Bit13Literal::try_from("#1fff"), Ok(Bit13Literal(8191))));
    assert!(matches!(
        Bit13Literal::try_from("$1111111111111"),
        Ok(Bit13Literal(8191))
    ));
    assert!(matches!(
        Bit13Literal::try_from("8192"),
        Err(Invalid13BitLitError::TooBig)
    ));
    assert!(matches!(
        Bit13Literal::try_from("abc"),
        Err(Invalid13BitLitError::InvalidDigit)
    ));
}

#[test]
fn bit13_literal_parsing_details() {
    assert!(matches!(Bit13Literal::try_from("0"), Ok(Bit13Literal(0))));
    assert!(matches!(Bit13Literal::try_from("#A0"), Ok(Bit13Literal(160))));
    assert!(matches!(Bit13Literal::try_from("$101"), Ok(Bit13Literal(5))));
    assert!(matches!(Bit13Literal::try_from("+12"), Ok(Bit13Literal(12))));
    // Values that fit in 16 bits but not 13 are too big...
    assert!(matches!(
        Bit13Literal::try_from("65535"),
        Err(Invalid13BitLitError::TooBig)
    ));
    // ...while wider ones do not even parse as 16-bit numbers.
    assert!(matches!(
        Bit13Literal::try_from("65536"),
        Err(Invalid13BitLitError::InvalidDigit)
    ));
    assert!(matches!(
        Bit13Literal::try_from(""),
        Err(Invalid13BitLitError::InvalidDigit)
    ));
    assert!(matches!(
        Bit13Literal::try_from("#"),
        Err(Invalid13BitLitError::InvalidDigit)
    ));
    assert!(matches!(
        Bit13Literal::try_from("+"),
        Err(Invalid13BitLitError::InvalidDigit)
    ));
    assert!(matches!(
        Bit13Literal::try_from("12a"),
        Err(Invalid13BitLitError::InvalidDigit)
    ));
    // The base prefix decides which digits are admitted.
    assert!(matches!(
        Bit13Literal::try_from("$2"),
        Err(Invalid13BitLitError::InvalidDigit)
    ));
}

#[test]
fn register_names_parse() {
    assert!(matches!(Register::try_from("SP"), Ok(Register::SP)));
    assert!(matches!(Register::try_from("PC"), Ok(Register::PC)));
    assert!(matches!(Register::try_from("Flag"), Ok(Register::Flag)));
    assert!(matches!(Register::try_from("Zero"), Ok(Register::Zero)));
    assert!(matches!(Register::try_from("A"), Ok(Register::A)));
    assert!(matches!(Register::try_from("B"), Ok(Register::B)));
    assert!(matches!(Register::try_from("C"), Ok(Register::C)));
    assert!(matches!(Register::try_from("D"), Ok(Register::D)));
    assert!(Register::try_from("Count").is_err());
    assert!(Register::try_from("X").is_err());
    assert!(Register::try_from("").is_err());
}

#[test]
fn render_matches_the_assembly_syntax() {
    assert_eq!(
        Opcode::Add(Register::A, Register::B, Register::C).render(),
        "Add A B C"
    );
    assert_eq!(Opcode::Imm(Register::A, Bit13Literal(5)).render(), "Imm A 5");
    assert_eq!(Opcode::Push(Register::SP).render(), "Push SP");
    assert_eq!(Opcode::Pop(Register::D).render(), "Pop D");
    assert_eq!(Opcode::Cmp(Register::A, Register::Zero).render(), "Cmp A Zero");
    assert_eq!(Opcode::Jmp(Bit13Literal(8191)).render(), "Jmp 8191");
    assert_eq!(Opcode::Jge(Bit13Literal(0)).render(), "Jge 0");
    assert_eq!(Opcode::Call(Bit13Literal(10)).render(), "Call 10");
    assert_eq!(Opcode::Ret.render(), "Ret");
    assert_eq!(Opcode::Fn.render(), "Fn");
    assert_eq!(Opcode::Syscall.render(), "Syscall");
    assert_eq!(Opcode::StackAdd.render(), "StackAdd");
    assert_eq!(Opcode::Imm(Register::Flag, Bit13Literal(1024)).render(), "Imm Flag 1024");
}

#[test]
fn register_wire_values() {
    for (i, &r) in REGS.iter().enumerate() {
        assert_eq!(r.to_u32(), i as u32);
        assert_eq!(Register::from_u32(i as u32), r);
    }
    assert_eq!(Register::A.name(), "A");
    assert_eq!(Register::Flag.name(), "Flag");
}
