//! The architectural register file: eight named 32-bit slots.

use vstd::prelude::*;

verus! {

/// The closed set of architectural register names.
///
/// `SP` is the stack pointer (a word offset into data memory, growing
/// upward), `PC` the program counter (a word index into the instruction
/// store), `Flag` the comparison bitfield, `Zero` a register the ISA reserves
/// as always-zero by convention (writes are not special-cased), and `A`-`D`
/// are general purpose, doubling as syscall argument registers. `Count` is a
/// non-addressable sentinel used only to size the register file; no valid
/// instruction ever names it.
#[derive(Clone, Copy, PartialEq, Eq, Structural, Debug)]
pub enum Register {
    SP,
    PC,
    Flag,
    Zero,
    A,
    B,
    C,
    D,
    Count,
}

/// The index of a register inside the register file, `0` through `7`;
/// the sentinel `Count` maps to `8`, one past the last slot.
pub open spec fn reg_idx(r: Register) -> int {
    match r {
        Register::SP => 0,
        Register::PC => 1,
        Register::Flag => 2,
        Register::Zero => 3,
        Register::A => 4,
        Register::B => 5,
        Register::C => 6,
        Register::D => 7,
        Register::Count => 8,
    }
}

/// The register encoded by a 3-bit wire value; values `0` through `7` map
/// bijectively onto the eight addressable registers. Out-of-range values
/// (which a 3-bit field cannot carry) fall to the sentinel.
pub open spec fn reg_of(v: u32) -> Register {
    if v == 0 {
        Register::SP
    } else if v == 1 {
        Register::PC
    } else if v == 2 {
        Register::Flag
    } else if v == 3 {
        Register::Zero
    } else if v == 4 {
        Register::A
    } else if v == 5 {
        Register::B
    } else if v == 6 {
        Register::C
    } else if v == 7 {
        Register::D
    } else {
        Register::Count
    }
}

impl Register {
    /// The 3-bit wire value of this register (`Count` yields `8`, which no
    /// valid instruction encodes).
    pub fn to_u32(self) -> (v: u32)
        ensures
            v == reg_idx(self),
    {
        match self {
            Register::SP => 0,
            Register::PC => 1,
            Register::Flag => 2,
            Register::Zero => 3,
            Register::A => 4,
            Register::B => 5,
            Register::C => 6,
            Register::D => 7,
            Register::Count => 8,
        }
    }

    /// The register named by a 3-bit wire value.
    pub fn from_u32(v: u32) -> (r: Register)
        requires
            v < 8,
        ensures
            r == reg_of(v),
            r != Register::Count,
            reg_idx(r) == v as int,
    {
        if v == 0 {
            Register::SP
        } else if v == 1 {
            Register::PC
        } else if v == 2 {
            Register::Flag
        } else if v == 3 {
            Register::Zero
        } else if v == 4 {
            Register::A
        } else if v == 5 {
            Register::B
        } else if v == 6 {
            Register::C
        } else {
            Register::D
        }
    }
}

/// The error returned when a textual register name matches none of the
/// addressable registers.
#[derive(Clone, Copy, PartialEq, Eq, Structural, Debug)]
pub struct InvalidRegister;

/// The canonical textual name of a register.
pub open spec fn spec_reg_name(r: Register) -> Seq<char> {
    match r {
        Register::SP => seq!['S', 'P'],
        Register::PC => seq!['P', 'C'],
        Register::Flag => seq!['F', 'l', 'a', 'g'],
        Register::Zero => seq!['Z', 'e', 'r', 'o'],
        Register::A => seq!['A'],
        Register::B => seq!['B'],
        Register::C => seq!['C'],
        Register::D => seq!['D'],
        Register::Count => seq!['C', 'o', 'u', 'n', 't'],
    }
}

impl Register {
    /// The canonical textual name, as used by the assembly syntax and the
    /// instruction rendering.
    pub fn name(self) -> (s: &'static str)
        ensures
            s@ == spec_reg_name(self),
    {
        proof {
            reveal_strlit("SP");
            reveal_strlit("PC");
            reveal_strlit("Flag");
            reveal_strlit("Zero");
            reveal_strlit("A");
            reveal_strlit("B");
            reveal_strlit("C");
            reveal_strlit("D");
            reveal_strlit("Count");
        }
        match self {
            Register::SP => "SP",
            Register::PC => "PC",
            Register::Flag => "Flag",
            Register::Zero => "Zero",
            Register::A => "A",
            Register::B => "B",
            Register::C => "C",
            Register::D => "D",
            Register::Count => "Count",
        }
    }
}

impl Register {
    /// Parses a register from its textual name; only the eight addressable
    /// registers have one (the sentinel is not accepted).
    pub fn try_from(s: &str) -> (r: Result<Register, InvalidRegister>)
        ensures
            match r {
                Result::Ok(reg) => reg != Register::Count && s@ == spec_reg_name(reg),
                Result::Err(_) => forall|reg: Register|
                    reg != Register::Count ==> s@ != spec_reg_name(reg),
            },
    {
        let n = s.unicode_len();
        if n == 1 {
            let c0 = s.get_char(0);
            let reg = if c0 == 'A' {
                Register::A
            } else if c0 == 'B' {
                Register::B
            } else if c0 == 'C' {
                Register::C
            } else if c0 == 'D' {
                Register::D
            } else {
                return Err(InvalidRegister);
            };
            proof {
                assert(s@ =~= spec_reg_name(reg));
            }
            Ok(reg)
        } else if n == 2 {
            let c0 = s.get_char(0);
            let c1 = s.get_char(1);
            let reg = if c0 == 'S' && c1 == 'P' {
                Register::SP
            } else if c0 == 'P' && c1 == 'C' {
                Register::PC
            } else {
                return Err(InvalidRegister);
            };
            proof {
                assert(s@ =~= spec_reg_name(reg));
            }
            Ok(reg)
        } else if n == 4 {
            let c0 = s.get_char(0);
            let c1 = s.get_char(1);
            let c2 = s.get_char(2);
            let c3 = s.get_char(3);
            let reg = if c0 == 'F' && c1 == 'l' && c2 == 'a' && c3 == 'g' {
                Register::Flag
            } else if c0 == 'Z' && c1 == 'e' && c2 == 'r' && c3 == 'o' {
                Register::Zero
            } else {
                return Err(InvalidRegister);
            };
            proof {
                assert(s@ =~= spec_reg_name(reg));
            }
            Ok(reg)
        } else {
            Err(InvalidRegister)
        }
    }
}

/// The register file: one unsigned 32-bit slot per addressable register,
/// zero-initialized at construction.
#[derive(Clone, Copy, PartialEq, Eq, Structural, Debug)]
pub struct Registers {
    pub sp: u32,
    pub pc: u32,
    pub flag: u32,
    pub zero: u32,
    pub a: u32,
    pub b: u32,
    pub c: u32,
    pub d: u32,
}

/// The value the register file holds for an addressable register.
/// The sentinel `Count` names no slot and reads as zero.
pub open spec fn read_reg(regs: Registers, r: Register) -> u32 {
    match r {
        Register::SP => regs.sp,
        Register::PC => regs.pc,
        Register::Flag => regs.flag,
        Register::Zero => regs.zero,
        Register::A => regs.a,
        Register::B => regs.b,
        Register::C => regs.c,
        Register::D => regs.d,
        Register::Count => 0,
    }
}

/// The register file after storing `v` in the slot of `r`; storing through
/// the sentinel `Count` changes nothing.
pub open spec fn write_reg(regs: Registers, r: Register, v: u32) -> Registers {
    match r {
        Register::SP => Registers { sp: v, ..regs },
        Register::PC => Registers { pc: v, ..regs },
        Register::Flag => Registers { flag: v, ..regs },
        Register::Zero => Registers { zero: v, ..regs },
        Register::A => Registers { a: v, ..regs },
        Register::B => Registers { b: v, ..regs },
        Register::C => Registers { c: v, ..regs },
        Register::D => Registers { d: v, ..regs },
        Register::Count => regs,
    }
}

/// The zero-initialized register file.
pub open spec fn regs_zero() -> Registers {
    Registers { sp: 0, pc: 0, flag: 0, zero: 0, a: 0, b: 0, c: 0, d: 0 }
}

impl Registers {
    /// A fresh register file with every slot zero.
    pub fn new() -> (regs: Registers)
        ensures
            regs == regs_zero(),
    {
        Registers { sp: 0, pc: 0, flag: 0, zero: 0, a: 0, b: 0, c: 0, d: 0 }
    }

    /// Reads the slot of `r`.
    pub fn get(&self, r: Register) -> (v: u32)
        requires
            r != Register::Count,
        ensures
            v == read_reg(*self, r),
    {
        match r {
            Register::SP => self.sp,
            Register::PC => self.pc,
            Register::Flag => self.flag,
            Register::Zero => self.zero,
            Register::A => self.a,
            Register::B => self.b,
            Register::C => self.c,
            Register::D => self.d,
            Register::Count => 0,
        }
    }

    /// Stores `v` in the slot of `r`.
    pub fn set(&mut self, r: Register, v: u32)
        requires
            r != Register::Count,
        ensures
            *final(self) == write_reg(*old(self), r, v),
    {
        match r {
            Register::SP => self.sp = v,
            Register::PC => self.pc = v,
            Register::Flag => self.flag = v,
            Register::Zero => self.zero = v,
            Register::A => self.a = v,
            Register::B => self.b = v,
            Register::C => self.c = v,
            Register::D => self.d = v,
            Register::Count => (),
        }
    }
}

impl Default for Registers {
    /// The zero-initialized register file.
    fn default() -> (regs: Registers)
        ensures
            regs == regs_zero(),
    {
        Registers::new()
    }
}

/// Reading a slot just written yields the written value; every other slot
/// keeps its value.
pub proof fn lemma_write_read(regs: Registers, r: Register, v: u32)
    requires
        r != Register::Count,
    ensures
        read_reg(write_reg(regs, r, v), r) == v,
        forall|q: Register| q != r ==> read_reg(write_reg(regs, r, v), q) == read_reg(regs, q),
{
}

} // verus!
