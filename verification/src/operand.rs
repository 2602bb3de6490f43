//! Instruction operands and their Motorola-syntax text.

use vstd::prelude::*;
use vstd::string::StringExecFns;

use crate::optable::Size;

verus! {

/// Decimal digit characters.
pub open spec fn spec_dec_digit(d: int) -> char {
    if d == 0 {
        '0'
    } else if d == 1 {
        '1'
    } else if d == 2 {
        '2'
    } else if d == 3 {
        '3'
    } else if d == 4 {
        '4'
    } else if d == 5 {
        '5'
    } else if d == 6 {
        '6'
    } else if d == 7 {
        '7'
    } else if d == 8 {
        '8'
    } else {
        '9'
    }
}

/// Hexadecimal digit characters, lower case.
pub open spec fn spec_hex_digit(d: int) -> char {
    if d < 10 {
        spec_dec_digit(d)
    } else if d == 10 {
        'a'
    } else if d == 11 {
        'b'
    } else if d == 12 {
        'c'
    } else if d == 13 {
        'd'
    } else if d == 14 {
        'e'
    } else {
        'f'
    }
}

/// Decimal text of a non-negative number, without leading zeros.
pub open spec fn spec_dec(n: int) -> Seq<char>
    decreases n,
{
    if n < 10 {
        seq![spec_dec_digit(n)]
    } else {
        spec_dec(n / 10) + seq![spec_dec_digit(n % 10)]
    }
}

/// Decimal text of a signed number: a minus sign before the magnitude.
pub open spec fn spec_signed_dec(n: int) -> Seq<char> {
    if n < 0 {
        seq!['-'] + spec_dec(-n)
    } else {
        spec_dec(n)
    }
}

/// Hexadecimal text of a non-negative number, without leading zeros.
pub open spec fn spec_hex(n: int) -> Seq<char>
    decreases n,
{
    if n < 16 {
        seq![spec_hex_digit(n)]
    } else {
        spec_hex(n / 16) + seq![spec_hex_digit(n % 16)]
    }
}

/// Hexadecimal text of a number padded to a fixed digit count.
pub open spec fn spec_hex_fixed(n: int, digits: nat) -> Seq<char>
    decreases digits,
{
    if digits == 0 {
        seq![]
    } else {
        spec_hex_fixed(n / 16, (digits - 1) as nat) + seq![spec_hex_digit(n % 16)]
    }
}

/// The single-character string for a decimal digit.
fn dec_digit_str(d: u32) -> (r: &'static str)
    requires
        d < 10,
    ensures
        r@ == seq![spec_dec_digit(d as int)],
{
    proof {
        reveal_strlit("0");
        reveal_strlit("1");
        reveal_strlit("2");
        reveal_strlit("3");
        reveal_strlit("4");
        reveal_strlit("5");
        reveal_strlit("6");
        reveal_strlit("7");
        reveal_strlit("8");
        reveal_strlit("9");
    }
    let r = if d == 0 {
        "0"
    } else if d == 1 {
        "1"
    } else if d == 2 {
        "2"
    } else if d == 3 {
        "3"
    } else if d == 4 {
        "4"
    } else if d == 5 {
        "5"
    } else if d == 6 {
        "6"
    } else if d == 7 {
        "7"
    } else if d == 8 {
        "8"
    } else {
        "9"
    };
    proof {
        assert(r@ =~= seq![spec_dec_digit(d as int)]);
    }
    r
}

/// The single-character string for a hexadecimal digit.
fn hex_digit_str(d: u32) -> (r: &'static str)
    requires
        d < 16,
    ensures
        r@ == seq![spec_hex_digit(d as int)],
{
    if d < 10 {
        dec_digit_str(d)
    } else {
        proof {
            reveal_strlit("a");
            reveal_strlit("b");
            reveal_strlit("c");
            reveal_strlit("d");
            reveal_strlit("e");
            reveal_strlit("f");
        }
        let r = if d == 10 {
            "a"
        } else if d == 11 {
            "b"
        } else if d == 12 {
            "c"
        } else if d == 13 {
            "d"
        } else if d == 14 {
            "e"
        } else {
            "f"
        };
        proof {
            assert(r@ =~= seq![spec_hex_digit(d as int)]);
        }
        r
    }
}

/// Decimal rendering of an unsigned number.
pub fn dec_u32(n: u32) -> (r: String)
    ensures
        r@ == spec_dec(n as int),
    decreases n,
{
    if n < 10 {
        String::from_str(dec_digit_str(n))
    } else {
        let mut s = dec_u32(n / 10);
        s.append(dec_digit_str(n % 10));
        s
    }
}

/// Hexadecimal rendering of a number, without leading zeros.
pub fn hex_u32(n: u32) -> (r: String)
    ensures
        r@ == spec_hex(n as int),
    decreases n,
{
    if n < 16 {
        String::from_str(hex_digit_str(n))
    } else {
        let mut s = hex_u32(n / 16);
        s.append(hex_digit_str(n % 16));
        s
    }
}

/// Hexadecimal rendering of a number padded to a fixed digit count.
pub fn hex_fixed(n: u32, digits: u32) -> (r: String)
    ensures
        r@ == spec_hex_fixed(n as int, digits as nat),
    decreases digits,
{
    if digits == 0 {
        let s = String::new();
        proof {
            assert(s@ =~= spec_hex_fixed(n as int, 0));
        }
        s
    } else {
        let mut s = hex_fixed(n / 16, digits - 1);
        s.append(hex_digit_str(n % 16));
        s
    }
}

/// An effective-address operand, decoded from an opcode word and its
/// extension words. Each shape carries the register numbers and constants
/// its text needs; the index shapes carry the index register as the top four
/// bits of the extension word (data or address register select plus number).
#[derive(Copy, Clone, Debug, Hash, Eq, PartialEq, Structural)]
pub enum Operand {
    DataRegisterDirect(u8),
    AddressRegisterDirect(u8),
    AddressRegisterIndirect(u8),
    AddressRegisterIndirectWithPostincrement(u8),
    AddressRegisterIndirectWithPredecrement(u8),
    AddressRegisterIndirectWithDisplacement(u8, i16),
    AddressRegisterIndirectWithIndex(u8, u8, i8),
    PcWithDisplacement(i16),
    PcWithIndex(u8, i8),
    AbsoluteWord(u16),
    AbsoluteLong(u32),
    Immediate(Size, u32),
    StatusRegister(Size),
    Displacement(Size, u32),
    UserStackPointer,
}

/// Text of an index register field: the top bit selects a data or an address
/// register, the low three bits its number.
pub open spec fn spec_index_reg_text(ix: int) -> Seq<char> {
    if ix < 8 {
        seq!['D'] + spec_dec(ix)
    } else {
        seq!['A'] + spec_dec(ix - 8)
    }
}

/// The signed value a raw displacement word denotes at a given size.
pub open spec fn spec_disp_value(size: Size, value: u32) -> int {
    match size {
        Size::Byte => (value as u8) as i8 as int,
        Size::Word => (value as u16) as i16 as int,
        Size::Long => value as i32 as int,
        Size::Unsized => value as i32 as int,
    }
}

/// Size suffix of Motorola syntax.
pub open spec fn spec_size_suffix(size: Size) -> Seq<char> {
    match size {
        Size::Byte => seq!['.', 'B'],
        Size::Word => seq!['.', 'W'],
        Size::Long => seq!['.', 'L'],
        Size::Unsized => seq![],
    }
}

/// Motorola-syntax text of an operand.
pub open spec fn spec_operand_text(op: Operand) -> Seq<char> {
    match op {
        Operand::DataRegisterDirect(r) => seq!['D'] + spec_dec(r as int),
        Operand::AddressRegisterDirect(r) => seq!['A'] + spec_dec(r as int),
        Operand::AddressRegisterIndirect(r) => seq!['(', 'A'] + spec_dec(r as int) + seq![')'],
        Operand::AddressRegisterIndirectWithPostincrement(r) => seq!['(', 'A'] + spec_dec(r as int)
            + seq![')', '+'],
        Operand::AddressRegisterIndirectWithPredecrement(r) => seq!['-', '(', 'A'] + spec_dec(
            r as int,
        ) + seq![')'],
        Operand::AddressRegisterIndirectWithDisplacement(r, d) => spec_signed_dec(d as int)
            + seq!['(', 'A'] + spec_dec(r as int) + seq![')'],
        Operand::AddressRegisterIndirectWithIndex(r, ix, d) => spec_signed_dec(d as int)
            + seq!['(', 'A'] + spec_dec(r as int) + seq![','] + spec_index_reg_text(ix as int)
            + seq![')'],
        Operand::PcWithDisplacement(d) => spec_signed_dec(d as int) + seq!['(', 'P', 'C', ')'],
        Operand::PcWithIndex(ix, d) => spec_signed_dec(d as int) + seq!['(', 'P', 'C', ',']
            + spec_index_reg_text(ix as int) + seq![')'],
        Operand::AbsoluteWord(w) => seq!['$'] + spec_hex_fixed(w as int, 4),
        Operand::AbsoluteLong(l) => seq!['$'] + spec_hex_fixed(l as int, 8) + seq!['.', 'L'],
        Operand::Immediate(_, v) => seq!['#', '$'] + spec_hex(v as int),
        Operand::StatusRegister(s) => if s is Byte {
            seq!['C', 'C', 'R']
        } else {
            seq!['S', 'R']
        },
        Operand::Displacement(s, v) => spec_signed_dec(spec_disp_value(s, v)),
        Operand::UserStackPointer => seq!['U', 'S', 'P'],
    }
}

/// How many extension words an operand consumed after the opcode word.
pub open spec fn spec_extension_words(op: Operand) -> u32 {
    match op {
        Operand::AddressRegisterIndirectWithDisplacement(_, _) => 1,
        Operand::AddressRegisterIndirectWithIndex(_, _, _) => 1,
        Operand::PcWithDisplacement(_) => 1,
        Operand::PcWithIndex(_, _) => 1,
        Operand::AbsoluteWord(_) => 1,
        Operand::AbsoluteLong(_) => 2,
        Operand::Immediate(s, _) => match s {
            Size::Byte => 1,
            Size::Word => 1,
            Size::Long => 2,
            Size::Unsized => 0,
        },
        Operand::Displacement(s, _) => match s {
            Size::Byte => 0,
            Size::Word => 1,
            Size::Long => 2,
            Size::Unsized => 0,
        },
        _ => 0,
    }
}

/// Decimal rendering of any signed 32-bit value.
fn dec_i32(n: i32) -> (r: String)
    ensures
        r@ == spec_signed_dec(n as int),
{
    if n >= 0 {
        dec_u32(n as u32)
    } else {
        proof {
            reveal_strlit("-");
        }
        let mut s = String::from_str("-");
        let mag64: i64 = -(n as i64);
        let mag: u32 = mag64 as u32;
        assert(mag == -(n as int));
        s.append(dec_u32(mag).as_str());
        proof {
            assert(s@ =~= spec_signed_dec(n as int));
        }
        s
    }
}

/// Text of an index register field.
fn index_reg_text(ix: u8) -> (r: String)
    ensures
        r@ == spec_index_reg_text(ix as int),
{
    if ix < 8 {
        proof {
            reveal_strlit("D");
        }
        let mut s = String::from_str("D");
        s.append(dec_u32(ix as u32).as_str());
        proof {
            assert(s@ =~= spec_index_reg_text(ix as int));
        }
        s
    } else {
        proof {
            reveal_strlit("A");
        }
        let mut s = String::from_str("A");
        s.append(dec_u32((ix - 8) as u32).as_str());
        proof {
            assert(s@ =~= spec_index_reg_text(ix as int));
        }
        s
    }
}

impl Size {
    /// The size suffix written after a mnemonic.
    pub fn suffix(self) -> (r: &'static str)
        ensures
            r@ == spec_size_suffix(self),
    {
        proof {
            reveal_strlit(".B");
            reveal_strlit(".W");
            reveal_strlit(".L");
            reveal_strlit("");
        }
        let r = match self {
            Size::Byte => ".B",
            Size::Word => ".W",
            Size::Long => ".L",
            Size::Unsized => "",
        };
        proof {
            assert(r@ =~= spec_size_suffix(self));
        }
        r
    }
}

impl Operand {
    /// How many extension words this operand consumed after the opcode word.
    pub fn extension_words(&self) -> (r: u32)
        ensures
            r == spec_extension_words(*self),
    {
        match *self {
            Operand::AddressRegisterIndirectWithDisplacement(_, _) => 1,
            Operand::AddressRegisterIndirectWithIndex(_, _, _) => 1,
            Operand::PcWithDisplacement(_) => 1,
            Operand::PcWithIndex(_, _) => 1,
            Operand::AbsoluteWord(_) => 1,
            Operand::AbsoluteLong(_) => 2,
            Operand::Immediate(s, _) => match s {
                Size::Byte => 1,
                Size::Word => 1,
                Size::Long => 2,
                Size::Unsized => 0,
            },
            Operand::Displacement(s, _) => match s {
                Size::Byte => 0,
                Size::Word => 1,
                Size::Long => 2,
                Size::Unsized => 0,
            },
            _ => 0,
        }
    }

    /// The operand in Motorola syntax.
    pub fn text(&self) -> (r: String)
        ensures
            r@ == spec_operand_text(*self),
    {
        match *self {
            Operand::DataRegisterDirect(reg) => {
                proof {
                    reveal_strlit("D");
                }
                let mut s = String::from_str("D");
                s.append(dec_u32(reg as u32).as_str());
                proof {
                    assert(s@ =~= spec_operand_text(*self));
                }
                s
            },
            Operand::AddressRegisterDirect(reg) => {
                proof {
                    reveal_strlit("A");
                }
                let mut s = String::from_str("A");
                s.append(dec_u32(reg as u32).as_str());
                proof {
                    assert(s@ =~= spec_operand_text(*self));
                }
                s
            },
            Operand::AddressRegisterIndirect(reg) => {
                proof {
                    reveal_strlit("(A");
                    reveal_strlit(")");
                }
                let mut s = String::from_str("(A");
                s.append(dec_u32(reg as u32).as_str());
                s.append(")");
                proof {
                    assert(s@ =~= spec_operand_text(*self));
                }
                s
            },
            Operand::AddressRegisterIndirectWithPostincrement(reg) => {
                proof {
                    reveal_strlit("(A");
                    reveal_strlit(")+");
                }
                let mut s = String::from_str("(A");
                s.append(dec_u32(reg as u32).as_str());
                s.append(")+");
                proof {
                    assert(s@ =~= spec_operand_text(*self));
                }
                s
            },
            Operand::AddressRegisterIndirectWithPredecrement(reg) => {
                proof {
                    reveal_strlit("-(A");
                    reveal_strlit(")");
                }
                let mut s = String::from_str("-(A");
                s.append(dec_u32(reg as u32).as_str());
                s.append(")");
                proof {
                    assert(s@ =~= spec_operand_text(*self));
                }
                s
            },
            Operand::AddressRegisterIndirectWithDisplacement(reg, d) => {
                proof {
                    reveal_strlit("(A");
                    reveal_strlit(")");
                }
                let mut s = dec_i32(d as i32);
                s.append("(A");
                s.append(dec_u32(reg as u32).as_str());
                s.append(")");
                proof {
                    assert(s@ =~= spec_operand_text(*self));
                }
                s
            },
            Operand::AddressRegisterIndirectWithIndex(reg, ix, d) => {
                proof {
                    reveal_strlit("(A");
                    reveal_strlit(",");
                    reveal_strlit(")");
                }
                let mut s = dec_i32(d as i32);
                s.append("(A");
                s.append(dec_u32(reg as u32).as_str());
                s.append(",");
                s.append(index_reg_text(ix).as_str());
                s.append(")");
                proof {
                    assert(s@ =~= spec_operand_text(*self));
                }
                s
            },
            Operand::PcWithDisplacement(d) => {
                proof {
                    reveal_strlit("(PC)");
                }
                let mut s = dec_i32(d as i32);
                s.append("(PC)");
                proof {
                    assert(s@ =~= spec_operand_text(*self));
                }
                s
            },
            Operand::PcWithIndex(ix, d) => {
                proof {
                    reveal_strlit("(PC,");
                    reveal_strlit(")");
                }
                let mut s = dec_i32(d as i32);
                s.append("(PC,");
                s.append(index_reg_text(ix).as_str());
                s.append(")");
                proof {
                    assert(s@ =~= spec_operand_text(*self));
                }
                s
            },
            Operand::AbsoluteWord(w) => {
                proof {
                    reveal_strlit("$");
                }
                let mut s = String::from_str("$");
                s.append(hex_fixed(w as u32, 4).as_str());
                proof {
                    assert(s@ =~= spec_operand_text(*self));
                }
                s
            },
            Operand::AbsoluteLong(l) => {
                proof {
                    reveal_strlit("$");
                    reveal_strlit(".L");
                }
                let mut s = String::from_str("$");
                s.append(hex_fixed(l, 8).as_str());
                s.append(".L");
                proof {
                    assert(s@ =~= spec_operand_text(*self));
                }
                s
            },
            Operand::Immediate(_, v) => {
                proof {
                    reveal_strlit("#$");
                }
                let mut s = String::from_str("#$");
                s.append(hex_u32(v).as_str());
                proof {
                    assert(s@ =~= spec_operand_text(*self));
                }
                s
            },
            Operand::StatusRegister(sz) => {
                proof {
                    reveal_strlit("CCR");
                    reveal_strlit("SR");
                }
                let s = match sz {
                    Size::Byte => String::from_str("CCR"),
                    _ => String::from_str("SR"),
                };
                proof {
                    assert(s@ =~= spec_operand_text(*self));
                }
                s
            },
            Operand::Displacement(sz, v) => {
                let value: i32 = match sz {
                    Size::Byte => (v as u8) as i8 as i32,
                    Size::Word => (v as u16) as i16 as i32,
                    Size::Long => v as i32,
                    Size::Unsized => v as i32,
                };
                let s = dec_i32(value);
                proof {
                    assert(s@ =~= spec_operand_text(*self));
                }
                s
            },
            Operand::UserStackPointer => {
                proof {
                    reveal_strlit("USP");
                }
                let s = String::from_str("USP");
                proof {
                    assert(s@ =~= spec_operand_text(*self));
                }
                s
            },
        }
    }
}

/// The operands of an instruction joined with commas.
pub open spec fn spec_operands_text(ops: Seq<Operand>) -> Seq<char>
    decreases ops.len(),
{
    if ops.len() == 0 {
        seq![]
    } else if ops.len() == 1 {
        spec_operand_text(ops[0])
    } else {
        spec_operand_text(ops[0]) + seq![','] + spec_operands_text(ops.drop_first())
    }
}

/// One decoded instruction: its mnemonic, operand size, and operands.
#[derive(Debug)]
pub struct OpcodeInstance {
    pub mnemonic: &'static str,
    pub size: Size,
    pub operands: Vec<Operand>,
}

/// The whole instruction in Motorola syntax: mnemonic, size suffix, a tab,
/// and the operands joined with commas.
pub open spec fn spec_instance_text(mnemonic: Seq<char>, size: Size, ops: Seq<Operand>) -> Seq<
    char,
> {
    mnemonic + spec_size_suffix(size) + if ops.len() == 0 {
        seq![]
    } else {
        seq!['\t'] + spec_operands_text(ops)
    }
}

fn operands_text_from(ops: &Vec<Operand>, i: usize) -> (r: String)
    requires
        i <= ops@.len(),
    ensures
        r@ == spec_operands_text(ops@.skip(i as int)),
    decreases ops@.len() - i,
{
    if i == ops.len() {
        let s = String::new();
        proof {
            assert(s@ =~= spec_operands_text(ops@.skip(i as int)));
        }
        s
    } else if i + 1 == ops.len() {
        let s = ops[i].text();
        proof {
            assert(ops@.skip(i as int) =~= seq![ops@[i as int]]);
        }
        s
    } else {
        proof {
            reveal_strlit(",");
        }
        let mut s = ops[i].text();
        s.append(",");
        let rest = operands_text_from(ops, i + 1);
        s.append(rest.as_str());
        proof {
            assert(ops@.skip(i as int).drop_first() =~= ops@.skip(i as int + 1));
            assert(ops@.skip(i as int)[0] == ops@[i as int]);
            assert(s@ =~= spec_operands_text(ops@.skip(i as int)));
        }
        s
    }
}

impl OpcodeInstance {
    /// The instruction in Motorola syntax.
    pub fn text(&self) -> (r: String)
        ensures
            r@ == spec_instance_text(self.mnemonic@, self.size, self.operands@),
    {
        proof {
            reveal_strlit("\t");
        }
        let mut s = String::from_str(self.mnemonic);
        s.append(self.size.suffix());
        if self.operands.len() > 0 {
            s.append("\t");
            let rest = operands_text_from(&self.operands, 0);
            s.append(rest.as_str());
            proof {
                assert(self.operands@.skip(0) =~= self.operands@);
                assert(s@ =~= spec_instance_text(self.mnemonic@, self.size, self.operands@));
            }
            s
        } else {
            proof {
                assert(s@ =~= spec_instance_text(self.mnemonic@, self.size, self.operands@));
            }
            s
        }
    }
}

} // verus!
