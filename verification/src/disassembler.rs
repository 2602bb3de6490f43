//! The disassembler: effective-address decoding, the EA-class validators,
//! and reconstruction of instruction text from the shared opcode table.

use vstd::prelude::*;

use crate::memory::Memory;
use crate::operand::spec_extension_words;
use crate::operand::Operand;
use crate::operand::OpcodeInstance;
use crate::optable::lookup;
use crate::optable::lemma_every_opcode_has_one_entry;
use crate::optable::rule_decodable;
use crate::optable::rule_matches;
use crate::optable::rule_wf;
use crate::optable::Decoder;
use crate::optable::InstructionSetGenerator;
use crate::optable::OpcodeHandler;
use crate::optable::Size;
use crate::optable::Validator;

verus! {

/// Failure of disassembly: the word fetched at the program counter is not a
/// legal instruction. Carries the opcode word and the program counter.
#[derive(Copy, Clone, Debug, Hash, Eq, PartialEq, Structural)]
pub enum Exception {
    IllegalInstruction(u16, u32),
}

/// One bit per effective-address class, used to describe which classes an
/// instruction accepts.
pub const EA_DATA_REGISTER_DIRECT: u16 = 0x0800;

pub const EA_ADDRESS_REGISTER_DIRECT: u16 = 0x0400;

pub const EA_ADDRESS_REGISTER_INDIRECT: u16 = 0x0200;

pub const EA_ARI_POSTINCREMENT: u16 = 0x0100;

pub const EA_ARI_PREDECREMENT: u16 = 0x0080;

pub const EA_ARI_DISPLACEMENT: u16 = 0x0040;

pub const EA_ARI_INDEX: u16 = 0x0020;

pub const EA_ABSOLUTE_SHORT: u16 = 0x0010;

pub const EA_ABSOLUTE_LONG: u16 = 0x0008;

pub const EA_IMMEDIATE: u16 = 0x0004;

pub const EA_PC_DISPLACEMENT: u16 = 0x0002;

pub const EA_PC_INDEX: u16 = 0x0001;

/// Every effective-address class.
pub const EA_ALL: u16 = 0x0fff;

/// Every class but address-register direct.
pub const EA_ALL_EXCEPT_AN: u16 = 0x0bff;

/// Data addressing: every class but address-register direct.
pub const EA_DATA: u16 = 0x0bff;

/// Memory classes whose datum can be rewritten in place.
pub const EA_MEMORY_ALTERABLE: u16 = 0x03f8;

/// Alterable memory plus data-register direct.
pub const EA_DATA_ALTERABLE: u16 = 0x0bf8;

/// Control addressing: a single computable address, nothing auto-modified.
pub const EA_CONTROL: u16 = 0x027b;

/// Whether the effective-address field in the low six bits of an opcode
/// belongs to one of the classes granted by `ea_mask`. An empty mask grants
/// everything: it marks an instruction without an effective-address field.
pub open spec fn spec_valid_ea(opcode: u16, ea_mask: u16) -> bool {
    if ea_mask == 0 {
        true
    } else {
        let ea = opcode & 0x3f;
        if ea <= 0x07 {
            ea_mask & EA_DATA_REGISTER_DIRECT != 0
        } else if ea <= 0x0f {
            ea_mask & EA_ADDRESS_REGISTER_DIRECT != 0
        } else if ea <= 0x17 {
            ea_mask & EA_ADDRESS_REGISTER_INDIRECT != 0
        } else if ea <= 0x1f {
            ea_mask & EA_ARI_POSTINCREMENT != 0
        } else if ea <= 0x27 {
            ea_mask & EA_ARI_PREDECREMENT != 0
        } else if ea <= 0x2f {
            ea_mask & EA_ARI_DISPLACEMENT != 0
        } else if ea <= 0x37 {
            ea_mask & EA_ARI_INDEX != 0
        } else if ea == 0x38 {
            ea_mask & EA_ABSOLUTE_SHORT != 0
        } else if ea == 0x39 {
            ea_mask & EA_ABSOLUTE_LONG != 0
        } else if ea == 0x3a {
            ea_mask & EA_PC_DISPLACEMENT != 0
        } else if ea == 0x3b {
            ea_mask & EA_PC_INDEX != 0
        } else if ea == 0x3c {
            ea_mask & EA_IMMEDIATE != 0
        } else {
            false
        }
    }
}

/// Check whether an opcode's effective-address field is in a granted class.
pub fn valid_ea(opcode: u16, ea_mask: u16) -> (r: bool)
    ensures
        r == spec_valid_ea(opcode, ea_mask),
{
    if ea_mask == 0 {
        true
    } else {
        let ea = opcode & 0x3f;
        if ea <= 0x07 {
            ea_mask & EA_DATA_REGISTER_DIRECT != 0
        } else if ea <= 0x0f {
            ea_mask & EA_ADDRESS_REGISTER_DIRECT != 0
        } else if ea <= 0x17 {
            ea_mask & EA_ADDRESS_REGISTER_INDIRECT != 0
        } else if ea <= 0x1f {
            ea_mask & EA_ARI_POSTINCREMENT != 0
        } else if ea <= 0x27 {
            ea_mask & EA_ARI_PREDECREMENT != 0
        } else if ea <= 0x2f {
            ea_mask & EA_ARI_DISPLACEMENT != 0
        } else if ea <= 0x37 {
            ea_mask & EA_ARI_INDEX != 0
        } else if ea == 0x38 {
            ea_mask & EA_ABSOLUTE_SHORT != 0
        } else if ea == 0x39 {
            ea_mask & EA_ABSOLUTE_LONG != 0
        } else if ea == 0x3a {
            ea_mask & EA_PC_DISPLACEMENT != 0
        } else if ea == 0x3b {
            ea_mask & EA_PC_INDEX != 0
        } else if ea == 0x3c {
            ea_mask & EA_IMMEDIATE != 0
        } else {
            false
        }
    }
}

/// The destination effective-address field of a MOVE opcode, rearranged into
/// the usual mode/register layout: MOVE stores it as register then mode in
/// bits 6-11, while every other instruction stores mode then register in the
/// low six bits.
pub open spec fn spec_get_dest_ea(opcode: u16) -> u16 {
    ((opcode >> 3) & 0b111000) | ((opcode >> 9) & 0b111)
}

fn get_dest_ea(opcode: u16) -> (r: u16)
    ensures
        r == spec_get_dest_ea(opcode),
{
    ((opcode >> 3u16) & 0b111000) | ((opcode >> 9u16) & 0b111)
}

/// The opcode's effective address is memory-alterable.
pub fn ea_memory_alterable(opcode: u16) -> (r: bool)
    ensures
        r == spec_valid_ea(opcode, EA_MEMORY_ALTERABLE),
{
    valid_ea(opcode, EA_MEMORY_ALTERABLE)
}

/// The opcode's effective address is anything but address-register direct.
pub fn ea_all_except_an(opcode: u16) -> (r: bool)
    ensures
        r == spec_valid_ea(opcode, EA_ALL_EXCEPT_AN),
{
    valid_ea(opcode, EA_ALL_EXCEPT_AN)
}

/// The opcode's effective address is any class at all.
pub fn ea_all(opcode: u16) -> (r: bool)
    ensures
        r == spec_valid_ea(opcode, EA_ALL),
{
    valid_ea(opcode, EA_ALL)
}

/// The opcode's effective address is data-alterable.
pub fn ea_data_alterable(opcode: u16) -> (r: bool)
    ensures
        r == spec_valid_ea(opcode, EA_DATA_ALTERABLE),
{
    valid_ea(opcode, EA_DATA_ALTERABLE)
}

/// A MOVE opcode: any source, and a data-alterable destination.
pub fn ea_all_to_data_alterable(opcode: u16) -> (r: bool)
    ensures
        r == (spec_valid_ea(opcode, EA_ALL) && spec_valid_ea(
            spec_get_dest_ea(opcode),
            EA_DATA_ALTERABLE,
        )),
{
    valid_ea(opcode, EA_ALL) && valid_ea(get_dest_ea(opcode), EA_DATA_ALTERABLE)
}

/// The opcode's effective address is a data class.
pub fn ea_data(opcode: u16) -> (r: bool)
    ensures
        r == spec_valid_ea(opcode, EA_DATA),
{
    valid_ea(opcode, EA_DATA)
}

/// The opcode's effective address is a control class.
pub fn ea_control(opcode: u16) -> (r: bool)
    ensures
        r == spec_valid_ea(opcode, EA_CONTROL),
{
    valid_ea(opcode, EA_CONTROL)
}

/// Accept any opcode.
pub fn always(_opcode: u16) -> (r: bool)
    ensures
        r == true,
{
    true
}

/// The low byte holds a short branch displacement: zero and 0xff instead
/// select the word and long displacement forms.
pub open spec fn spec_valid_byte_displacement(opcode: u16) -> bool {
    let disp8 = opcode & 0xff;
    disp8 > 0 && disp8 < 0xff
}

/// Check for a usable short branch displacement in the low byte.
pub fn valid_byte_displacement(opcode: u16) -> (r: bool)
    ensures
        r == spec_valid_byte_displacement(opcode),
{
    let disp8 = opcode & 0xff;
    disp8 > 0 && disp8 < 0xff
}

/// Accept no opcode.
pub fn never(_opcode: u16) -> (r: bool)
    ensures
        r == false,
{
    false
}

/// What a descriptor's validator says of an opcode.
pub open spec fn spec_validate(v: Validator, opcode: u16) -> bool {
    match v {
        Validator::Always => true,
        Validator::ValidByteDisplacement => spec_valid_byte_displacement(opcode),
        Validator::Never => false,
    }
}

/// Apply a descriptor's validator to an opcode.
pub fn validate(v: Validator, opcode: u16) -> (r: bool)
    ensures
        r == spec_validate(v, opcode),
{
    match v {
        Validator::Always => always(opcode),
        Validator::ValidByteDisplacement => valid_byte_displacement(opcode),
        Validator::Never => never(opcode),
    }
}

/// The addressing mode field of an effective address: bits 3-5.
pub open spec fn spec_ea_mode(opcode: u16) -> u16 {
    (opcode >> 3) & 0b111
}

/// The register field of an effective address: bits 0-2.
pub open spec fn spec_ea_reg(opcode: u16) -> u16 {
    opcode & 0b111
}

/// Whether a mode/register pair is a real addressing mode. Mode 7 reserves
/// registers 5 to 7, and its register 4 (immediate) needs a definite operand
/// size.
pub open spec fn spec_ea_shape_ok(mode: u16, reg: u16, size: Size) -> bool {
    mode < 7 || reg <= 3 || (reg == 4 && !(size is Unsized))
}

/// How many extension words an effective address of this shape consumes.
pub open spec fn spec_ea_ext(mode: u16, reg: u16, size: Size) -> u32 {
    if mode < 5 {
        0
    } else if mode == 5 || mode == 6 {
        1
    } else if reg == 1 {
        2
    } else if reg == 4 {
        if size is Long {
            2
        } else {
            1
        }
    } else {
        1
    }
}

/// The words a decoder consuming `n` extension words reads: the `n` words
/// directly after the opcode word.
pub open spec fn mem_has_n<M: Memory>(mem: &M, pc: int, n: int) -> bool {
    &&& (n >= 1 ==> mem.has_word(pc + 2))
    &&& (n >= 2 ==> mem.has_word(pc + 4))
    &&& (n >= 3 ==> mem.has_word(pc + 6))
    &&& (n >= 4 ==> mem.has_word(pc + 8))
}

/// The operand denoted by a mode/register pair, reading extension words
/// after the opcode word at `pc`.
pub open spec fn spec_effective_address<M: Memory>(
    size: Size,
    pc: u32,
    mem: &M,
    mode: u16,
    reg: u16,
) -> Operand {
    if mode == 0 {
        Operand::DataRegisterDirect(reg as u8)
    } else if mode == 1 {
        Operand::AddressRegisterDirect(reg as u8)
    } else if mode == 2 {
        Operand::AddressRegisterIndirect(reg as u8)
    } else if mode == 3 {
        Operand::AddressRegisterIndirectWithPostincrement(reg as u8)
    } else if mode == 4 {
        Operand::AddressRegisterIndirectWithPredecrement(reg as u8)
    } else if mode == 5 {
        Operand::AddressRegisterIndirectWithDisplacement(
            reg as u8,
            mem.word_at(pc as int + 2) as i16,
        )
    } else if mode == 6 {
        Operand::AddressRegisterIndirectWithIndex(
            reg as u8,
            (mem.word_at(pc as int + 2) >> 12) as u8,
            mem.word_at(pc as int + 2) as i8,
        )
    } else if reg == 2 {
        Operand::PcWithDisplacement(mem.word_at(pc as int + 2) as i16)
    } else if reg == 3 {
        Operand::PcWithIndex(
            (mem.word_at(pc as int + 2) >> 12) as u8,
            mem.word_at(pc as int + 2) as i8,
        )
    } else if reg == 0 {
        Operand::AbsoluteWord(mem.word_at(pc as int + 2))
    } else if reg == 1 {
        Operand::AbsoluteLong(
            ((mem.word_at(pc as int + 2) as u32) << 16) | (mem.word_at(pc as int + 4) as u32),
        )
    } else if reg == 4 {
        match size {
            Size::Byte => Operand::Immediate(size, (mem.word_at(pc as int + 2) & 0xff) as u32),
            Size::Word => Operand::Immediate(size, mem.word_at(pc as int + 2) as u32),
            Size::Long => Operand::Immediate(
                size,
                ((mem.word_at(pc as int + 2) as u32) << 16) | (mem.word_at(pc as int + 4) as u32),
            ),
            Size::Unsized => Operand::DataRegisterDirect(0),
        }
    } else {
        Operand::DataRegisterDirect(0)
    }
}

/// Decode the operand of a mode/register pair, consuming extension words.
fn effective_address<M: Memory>(size: Size, pc: u32, mem: &M, mode: u16, reg: u16) -> (r: Operand)
    requires
        mode <= 7,
        reg <= 7,
        spec_ea_shape_ok(mode, reg, size),
        pc as int + 2 * spec_ea_ext(mode, reg, size) <= u32::MAX,
        mem_has_n(mem, pc as int, spec_ea_ext(mode, reg, size) as int),
    ensures
        r == spec_effective_address(size, pc, mem, mode, reg),
        spec_extension_words(r) == spec_ea_ext(mode, reg, size),
{
    if mode == 0 {
        Operand::DataRegisterDirect(reg as u8)
    } else if mode == 1 {
        Operand::AddressRegisterDirect(reg as u8)
    } else if mode == 2 {
        Operand::AddressRegisterIndirect(reg as u8)
    } else if mode == 3 {
        Operand::AddressRegisterIndirectWithPostincrement(reg as u8)
    } else if mode == 4 {
        Operand::AddressRegisterIndirectWithPredecrement(reg as u8)
    } else if mode == 5 {
        Operand::AddressRegisterIndirectWithDisplacement(reg as u8, mem.read_word(pc + 2) as i16)
    } else if mode == 6 {
        let extension = mem.read_word(pc + 2);
        Operand::AddressRegisterIndirectWithIndex(
            reg as u8,
            (extension >> 12u16) as u8,
            extension as i8,
        )
    } else if reg == 2 {
        Operand::PcWithDisplacement(mem.read_word(pc + 2) as i16)
    } else if reg == 3 {
        let extension = mem.read_word(pc + 2);
        Operand::PcWithIndex((extension >> 12u16) as u8, extension as i8)
    } else if reg == 0 {
        Operand::AbsoluteWord(mem.read_word(pc + 2))
    } else if reg == 1 {
        Operand::AbsoluteLong(
            ((mem.read_word(pc + 2) as u32) << 16u32) | (mem.read_word(pc + 4) as u32),
        )
    } else {
        match size {
            Size::Byte => Operand::Immediate(size, (mem.read_word(pc + 2) & 0xff) as u32),
            Size::Word => Operand::Immediate(size, mem.read_word(pc + 2) as u32),
            Size::Long => Operand::Immediate(
                size,
                ((mem.read_word(pc + 2) as u32) << 16u32) | (mem.read_word(pc + 4) as u32),
            ),
            Size::Unsized => vstd::pervasive::unreached(),
        }
    }
}

/// The source effective address of an opcode, held in the low six bits.
pub open spec fn spec_decode_ea<M: Memory>(opcode: u16, size: Size, pc: u32, mem: &M) -> Operand {
    spec_effective_address(size, pc, mem, spec_ea_mode(opcode), spec_ea_reg(opcode))
}

/// Extension words of the source effective address of an opcode.
pub open spec fn spec_decode_ea_ext(opcode: u16, size: Size) -> u32 {
    spec_ea_ext(spec_ea_mode(opcode), spec_ea_reg(opcode), size)
}

/// Bit fields extracted from an opcode word stay in their natural ranges.
proof fn lemma_bit_fields(op: u16)
    by (bit_vector)
    ensures
        (op >> 3) & 0b111 <= 7,
        op & 0b111 <= 7,
        (op >> 6) & 0b111 <= 7,
        (op >> 9) & 0b111 <= 7,
{
}

/// Decode the source effective address of an opcode.
fn decode_ea<M: Memory>(opcode: u16, size: Size, pc: u32, mem: &M) -> (r: Operand)
    requires
        spec_ea_shape_ok(spec_ea_mode(opcode), spec_ea_reg(opcode), size),
        pc as int + 2 * spec_decode_ea_ext(opcode, size) <= u32::MAX,
        mem_has_n(mem, pc as int, spec_decode_ea_ext(opcode, size) as int),
    ensures
        r == spec_decode_ea(opcode, size, pc, mem),
        spec_extension_words(r) == spec_decode_ea_ext(opcode, size),
{
    proof {
        lemma_bit_fields(opcode);
    }
    let mode = (opcode >> 3u16) & 0b111;
    let reg_y = opcode & 0b111;
    effective_address(size, pc, mem, mode, reg_y)
}

/// The destination mode field of a MOVE opcode: bits 6-8.
pub open spec fn spec_dest_mode(opcode: u16) -> u16 {
    (opcode >> 6) & 0b111
}

/// The destination register field of a MOVE opcode: bits 9-11.
pub open spec fn spec_dest_reg(opcode: u16) -> u16 {
    (opcode >> 9) & 0b111
}

/// The destination effective address of a MOVE opcode.
pub open spec fn spec_decode_destination_ea<M: Memory>(
    opcode: u16,
    size: Size,
    pc: u32,
    mem: &M,
) -> Operand {
    spec_effective_address(size, pc, mem, spec_dest_mode(opcode), spec_dest_reg(opcode))
}

/// Extension words of the destination effective address of a MOVE opcode.
pub open spec fn spec_decode_dest_ext(opcode: u16, size: Size) -> u32 {
    spec_ea_ext(spec_dest_mode(opcode), spec_dest_reg(opcode), size)
}

/// Decode the destination effective address of a MOVE opcode, whose field
/// holds the register bits above the mode bits.
fn decode_destination_ea<M: Memory>(opcode: u16, size: Size, pc: u32, mem: &M) -> (r: Operand)
    requires
        spec_ea_shape_ok(spec_dest_mode(opcode), spec_dest_reg(opcode), size),
        pc as int + 2 * spec_decode_dest_ext(opcode, size) <= u32::MAX,
        mem_has_n(mem, pc as int, spec_decode_dest_ext(opcode, size) as int),
    ensures
        r == spec_decode_destination_ea(opcode, size, pc, mem),
        spec_extension_words(r) == spec_decode_dest_ext(opcode, size),
{
    proof {
        lemma_bit_fields(opcode);
    }
    let mode = (opcode >> 6u16) & 0b111;
    let reg_y = (opcode >> 9u16) & 0b111;
    effective_address(size, pc, mem, mode, reg_y)
}

/// The data register selected by bits 9-11.
pub open spec fn spec_decode_dx(opcode: u16) -> Operand {
    Operand::DataRegisterDirect(((opcode >> 9) & 0b111) as u8)
}

fn decode_dx(opcode: u16) -> (r: Operand)
    ensures
        r == spec_decode_dx(opcode),
{
    Operand::DataRegisterDirect(((opcode >> 9u16) & 0b111) as u8)
}

/// The address register selected by bits 9-11.
pub open spec fn spec_decode_ax(opcode: u16) -> Operand {
    Operand::AddressRegisterDirect(((opcode >> 9) & 0b111) as u8)
}

fn decode_ax(opcode: u16) -> (r: Operand)
    ensures
        r == spec_decode_ax(opcode),
{
    Operand::AddressRegisterDirect(((opcode >> 9u16) & 0b111) as u8)
}

/// The data register selected by bits 0-2.
pub open spec fn spec_decode_dy(opcode: u16) -> Operand {
    Operand::DataRegisterDirect((opcode & 0b111) as u8)
}

/// The address register selected by bits 0-2.
pub open spec fn spec_decode_ay(opcode: u16) -> Operand {
    Operand::AddressRegisterDirect((opcode & 0b111) as u8)
}

/// Immediate words after the opcode.
pub open spec fn spec_decode_imm<M: Memory>(size: Size, pc: u32, mem: &M) -> Operand {
    match size {
        Size::Byte => Operand::Immediate(size, (mem.word_at(pc as int + 2) & 0xff) as u32),
        Size::Word => Operand::Immediate(size, mem.word_at(pc as int + 2) as u32),
        Size::Long => Operand::Immediate(
            size,
            ((mem.word_at(pc as int + 2) as u32) << 16) | (mem.word_at(pc as int + 4) as u32),
        ),
        Size::Unsized => Operand::DataRegisterDirect(0),
    }
}

/// Extension words an immediate of a size consumes.
pub open spec fn spec_imm_ext(size: Size) -> u32 {
    match size {
        Size::Byte => 1,
        Size::Word => 1,
        Size::Long => 2,
        Size::Unsized => 0,
    }
}

/// Decode an immediate operand of a definite size.
fn decode_imm<M: Memory>(size: Size, pc: u32, mem: &M) -> (r: Operand)
    requires
        !(size is Unsized),
        pc as int + 2 * spec_imm_ext(size) <= u32::MAX,
        mem_has_n(mem, pc as int, spec_imm_ext(size) as int),
    ensures
        r == spec_decode_imm(size, pc, mem),
        spec_extension_words(r) == spec_imm_ext(size),
{
    match size {
        Size::Byte => Operand::Immediate(size, (mem.read_word(pc + 2) & 0xff) as u32),
        Size::Word => Operand::Immediate(size, mem.read_word(pc + 2) as u32),
        Size::Long => Operand::Immediate(
            size,
            ((mem.read_word(pc + 2) as u32) << 16u32) | (mem.read_word(pc + 4) as u32),
        ),
        Size::Unsized => vstd::pervasive::unreached(),
    }
}

/// The decoder can compute addresses up to `2 n` bytes past `pc` without
/// wrapping.
pub open spec fn spec_pc_ok(pc: u32, n: int) -> bool {
    pc as int + 2 * n <= u32::MAX
}

fn two(a: Operand, b: Operand) -> (r: Vec<Operand>)
    ensures
        r@ == seq![a, b],
{
    let mut v: Vec<Operand> = Vec::new();
    v.push(a);
    v.push(b);
    proof {
        assert(v@ =~= seq![a, b]);
    }
    v
}

fn one(a: Operand) -> (r: Vec<Operand>)
    ensures
        r@ == seq![a],
{
    let mut v: Vec<Operand> = Vec::new();
    v.push(a);
    proof {
        assert(v@ =~= seq![a]);
    }
    v
}

/// Decode an effective address and the status register: MOVE to SR.
pub fn decode_ea_sr<M: Memory>(opcode: u16, size: Size, pc: u32, mem: &M) -> (r: Vec<Operand>)
    requires
        spec_ea_shape_ok(spec_ea_mode(opcode), spec_ea_reg(opcode), size),
        spec_pc_ok(pc, spec_decode_ea_ext(opcode, size) as int),
        mem_has_n(mem, pc as int, spec_decode_ea_ext(opcode, size) as int),
    ensures
        r@ == seq![
            spec_decode_ea(opcode, size, pc, mem),
            Operand::StatusRegister(Size::Word),
        ],
{
    two(decode_ea(opcode, size, pc, mem), Operand::StatusRegister(Size::Word))
}

/// Decode an effective address and the condition-code register: MOVE to CCR.
pub fn decode_ea_ccr<M: Memory>(opcode: u16, size: Size, pc: u32, mem: &M) -> (r: Vec<Operand>)
    requires
        spec_ea_shape_ok(spec_ea_mode(opcode), spec_ea_reg(opcode), size),
        spec_pc_ok(pc, spec_decode_ea_ext(opcode, size) as int),
        mem_has_n(mem, pc as int, spec_decode_ea_ext(opcode, size) as int),
    ensures
        r@ == seq![
            spec_decode_ea(opcode, size, pc, mem),
            Operand::StatusRegister(Size::Byte),
        ],
{
    two(decode_ea(opcode, size, pc, mem), Operand::StatusRegister(Size::Byte))
}

/// Decode an effective address and the data register in bits 9-11.
pub fn decode_ea_dx<M: Memory>(opcode: u16, size: Size, pc: u32, mem: &M) -> (r: Vec<Operand>)
    requires
        spec_ea_shape_ok(spec_ea_mode(opcode), spec_ea_reg(opcode), size),
        spec_pc_ok(pc, spec_decode_ea_ext(opcode, size) as int),
        mem_has_n(mem, pc as int, spec_decode_ea_ext(opcode, size) as int),
    ensures
        r@ == seq![spec_decode_ea(opcode, size, pc, mem), spec_decode_dx(opcode)],
{
    two(decode_ea(opcode, size, pc, mem), decode_dx(opcode))
}

/// Decode a MOVE opcode: source effective address, then destination.
pub fn decode_ea_ea<M: Memory>(opcode: u16, size: Size, pc: u32, mem: &M) -> (r: Vec<Operand>)
    requires
        spec_ea_shape_ok(spec_ea_mode(opcode), spec_ea_reg(opcode), size),
        spec_ea_shape_ok(spec_dest_mode(opcode), spec_dest_reg(opcode), size),
        spec_pc_ok(
            pc,
            spec_decode_ea_ext(opcode, size) as int + spec_decode_dest_ext(opcode, size) as int,
        ),
        mem_has_n(
            mem,
            pc as int,
            spec_decode_ea_ext(opcode, size) as int + spec_decode_dest_ext(opcode, size) as int,
        ),
    ensures
        r@ == seq![
            spec_decode_ea(opcode, size, pc, mem),
            spec_decode_destination_ea(
                opcode,
                size,
                (pc + 2 * spec_decode_ea_ext(opcode, size)) as u32,
                mem,
            ),
        ],
{
    let src = decode_ea(opcode, size, pc, mem);
    let dst = decode_destination_ea(opcode, size, pc + src.extension_words() * 2, mem);
    two(src, dst)
}

/// Decode an effective address and the address register in bits 9-11.
pub fn decode_ea_ax<M: Memory>(opcode: u16, size: Size, pc: u32, mem: &M) -> (r: Vec<Operand>)
    requires
        spec_ea_shape_ok(spec_ea_mode(opcode), spec_ea_reg(opcode), size),
        spec_pc_ok(pc, spec_decode_ea_ext(opcode, size) as int),
        mem_has_n(mem, pc as int, spec_decode_ea_ext(opcode, size) as int),
    ensures
        r@ == seq![spec_decode_ea(opcode, size, pc, mem), spec_decode_ax(opcode)],
{
    two(decode_ea(opcode, size, pc, mem), decode_ax(opcode))
}

/// Decode the data register in bits 9-11 and an effective address.
pub fn decode_dx_ea<M: Memory>(opcode: u16, size: Size, pc: u32, mem: &M) -> (r: Vec<Operand>)
    requires
        spec_ea_shape_ok(spec_ea_mode(opcode), spec_ea_reg(opcode), size),
        spec_pc_ok(pc, spec_decode_ea_ext(opcode, size) as int),
        mem_has_n(mem, pc as int, spec_decode_ea_ext(opcode, size) as int),
    ensures
        r@ == seq![spec_decode_dx(opcode), spec_decode_ea(opcode, size, pc, mem)],
{
    two(decode_dx(opcode), decode_ea(opcode, size, pc, mem))
}

/// Decode an immediate and an effective address: the immediate-operand
/// instructions.
pub fn decode_imm_ea<M: Memory>(opcode: u16, size: Size, pc: u32, mem: &M) -> (r: Vec<Operand>)
    requires
        !(size is Unsized),
        spec_ea_shape_ok(spec_ea_mode(opcode), spec_ea_reg(opcode), size),
        spec_pc_ok(pc, spec_imm_ext(size) as int + spec_decode_ea_ext(opcode, size) as int),
        mem_has_n(
            mem,
            pc as int,
            spec_imm_ext(size) as int + spec_decode_ea_ext(opcode, size) as int,
        ),
    ensures
        r@ == seq![
            spec_decode_imm(size, pc, mem),
            spec_decode_ea(opcode, size, (pc + 2 * spec_imm_ext(size)) as u32, mem),
        ],
{
    let imm = decode_imm(size, pc, mem);
    let ea = decode_ea(opcode, size, pc + imm.extension_words() * 2, mem);
    two(imm, ea)
}

/// How many extension words a branch displacement consumes: the low byte
/// holds it, except that zero selects a word form and 0xff a long form.
pub open spec fn spec_branch_ext(opcode: u16) -> u32 {
    if opcode & 0xff == 0 {
        1
    } else if opcode & 0xff == 0xff {
        2
    } else {
        0
    }
}

/// The displacement operand of a branch opcode.
pub open spec fn spec_decode_branch_operand<M: Memory>(opcode: u16, pc: u32, mem: &M) -> Operand {
    let disp8 = opcode & 0xff;
    if disp8 == 0 {
        Operand::Displacement(Size::Word, mem.word_at(pc as int + 2) as u32)
    } else if disp8 == 0xff {
        Operand::Displacement(
            Size::Long,
            ((mem.word_at(pc as int + 2) as u32) << 16) | (mem.word_at(pc as int + 4) as u32),
        )
    } else {
        Operand::Displacement(Size::Byte, disp8 as u32)
    }
}

/// Decode a branch displacement.
pub fn decode_branch<M: Memory>(opcode: u16, _size: Size, pc: u32, mem: &M) -> (r: Vec<Operand>)
    requires
        spec_pc_ok(pc, spec_branch_ext(opcode) as int),
        mem_has_n(mem, pc as int, spec_branch_ext(opcode) as int),
    ensures
        r@ == seq![spec_decode_branch_operand(opcode, pc, mem)],
{
    let disp8 = opcode & 0xff;
    if disp8 == 0 {
        one(Operand::Displacement(Size::Word, mem.read_word(pc + 2) as u32))
    } else if disp8 == 0xff {
        one(
            Operand::Displacement(
                Size::Long,
                ((mem.read_word(pc + 2) as u32) << 16u32) | (mem.read_word(pc + 4) as u32),
            ),
        )
    } else {
        one(Operand::Displacement(Size::Byte, disp8 as u32))
    }
}

/// The quick-immediate value in bits 9-11, where zero stands for eight.
pub open spec fn spec_quick_data(opcode: u16) -> u32 {
    let q = (opcode >> 9) & 0b111;
    if q == 0 {
        8
    } else {
        q as u32
    }
}

/// How many extension words a decoder consumes for a given opcode and size.
pub open spec fn spec_decode_ext(d: Decoder, size: Size, opcode: u16) -> int {
    match d {
        Decoder::EaDx => spec_decode_ea_ext(opcode, size) as int,
        Decoder::DxEa => spec_decode_ea_ext(opcode, size) as int,
        Decoder::EaAx => spec_decode_ea_ext(opcode, size) as int,
        Decoder::Ea => spec_decode_ea_ext(opcode, size) as int,
        Decoder::EaSr => spec_decode_ea_ext(opcode, size) as int,
        Decoder::SrEa => spec_decode_ea_ext(opcode, size) as int,
        Decoder::EaCcr => spec_decode_ea_ext(opcode, size) as int,
        Decoder::QuickEa => spec_decode_ea_ext(opcode, size) as int,
        Decoder::EaEa => spec_decode_ea_ext(opcode, size) as int + spec_decode_dest_ext(
            opcode,
            size,
        ) as int,
        Decoder::ImmEa => spec_imm_ext(size) as int + spec_decode_ea_ext(opcode, size) as int,
        Decoder::BitImm => 1 + spec_decode_ea_ext(opcode, size) as int,
        Decoder::MovemRe => 1 + spec_decode_ea_ext(opcode, size) as int,
        Decoder::MovemEr => 1 + spec_decode_ea_ext(opcode, size) as int,
        Decoder::ImmCcr => 1,
        Decoder::ImmSr => 1,
        Decoder::DnDisp => 1,
        Decoder::LinkImm => 1,
        Decoder::Imm16 => 1,
        Decoder::MovepEr => 1,
        Decoder::MovepRe => 1,
        Decoder::Branch => spec_branch_ext(opcode) as int,
        _ => 0,
    }
}

/// What a decoder must be able to read of the opcode itself.
pub open spec fn spec_decoder_pre(d: Decoder, size: Size, opcode: u16) -> bool {
    &&& (crate::optable::decoder_reads_ea(d) ==> spec_ea_shape_ok(
        spec_ea_mode(opcode),
        spec_ea_reg(opcode),
        size,
    ))
    &&& (d is EaEa ==> spec_ea_shape_ok(spec_dest_mode(opcode), spec_dest_reg(opcode), size))
    &&& (d is ImmEa ==> !(size is Unsized))
}

/// The operand list a decoder produces.
pub open spec fn spec_decode<M: Memory>(
    d: Decoder,
    size: Size,
    opcode: u16,
    pc: u32,
    mem: &M,
) -> Seq<Operand> {
    match d {
        Decoder::EaDx => seq![spec_decode_ea(opcode, size, pc, mem), spec_decode_dx(opcode)],
        Decoder::DxEa => seq![spec_decode_dx(opcode), spec_decode_ea(opcode, size, pc, mem)],
        Decoder::EaAx => seq![spec_decode_ea(opcode, size, pc, mem), spec_decode_ax(opcode)],
        Decoder::Ea => seq![spec_decode_ea(opcode, size, pc, mem)],
        Decoder::EaSr => seq![
            spec_decode_ea(opcode, size, pc, mem),
            Operand::StatusRegister(Size::Word),
        ],
        Decoder::SrEa => seq![
            Operand::StatusRegister(Size::Word),
            spec_decode_ea(opcode, size, pc, mem),
        ],
        Decoder::EaCcr => seq![
            spec_decode_ea(opcode, size, pc, mem),
            Operand::StatusRegister(Size::Byte),
        ],
        Decoder::QuickEa => seq![
            Operand::Immediate(Size::Unsized, spec_quick_data(opcode)),
            spec_decode_ea(opcode, size, pc, mem),
        ],
        Decoder::EaEa => seq![
            spec_decode_ea(opcode, size, pc, mem),
            spec_decode_destination_ea(
                opcode,
                size,
                (pc + 2 * spec_decode_ea_ext(opcode, size)) as u32,
                mem,
            ),
        ],
        Decoder::ImmEa => seq![
            spec_decode_imm(size, pc, mem),
            spec_decode_ea(opcode, size, (pc + 2 * spec_imm_ext(size)) as u32, mem),
        ],
        Decoder::BitImm => seq![
            Operand::Immediate(Size::Byte, (mem.word_at(pc as int + 2) & 0xff) as u32),
            spec_decode_ea(opcode, size, (pc + 2) as u32, mem),
        ],
        Decoder::MovemRe => seq![
            Operand::Immediate(Size::Word, mem.word_at(pc as int + 2) as u32),
            spec_decode_ea(opcode, size, (pc + 2) as u32, mem),
        ],
        Decoder::MovemEr => seq![
            spec_decode_ea(opcode, size, (pc + 2) as u32, mem),
            Operand::Immediate(Size::Word, mem.word_at(pc as int + 2) as u32),
        ],
        Decoder::ImmCcr => seq![
            Operand::Immediate(Size::Byte, (mem.word_at(pc as int + 2) & 0xff) as u32),
            Operand::StatusRegister(Size::Byte),
        ],
        Decoder::ImmSr => seq![
            Operand::Immediate(Size::Word, mem.word_at(pc as int + 2) as u32),
            Operand::StatusRegister(Size::Word),
        ],
        Decoder::DnDisp => seq![
            spec_decode_dy(opcode),
            Operand::Displacement(Size::Word, mem.word_at(pc as int + 2) as u32),
        ],
        Decoder::LinkImm => seq![
            spec_decode_ay(opcode),
            Operand::Immediate(Size::Word, mem.word_at(pc as int + 2) as u32),
        ],
        Decoder::Imm16 => seq![
            Operand::Immediate(Size::Word, mem.word_at(pc as int + 2) as u32),
        ],
        Decoder::MovepEr => seq![
            Operand::AddressRegisterIndirectWithDisplacement(
                (opcode & 0b111) as u8,
                mem.word_at(pc as int + 2) as i16,
            ),
            spec_decode_dx(opcode),
        ],
        Decoder::MovepRe => seq![
            spec_decode_dx(opcode),
            Operand::AddressRegisterIndirectWithDisplacement(
                (opcode & 0b111) as u8,
                mem.word_at(pc as int + 2) as i16,
            ),
        ],
        Decoder::Branch => seq![spec_decode_branch_operand(opcode, pc, mem)],
        Decoder::Moveq => seq![
            Operand::Immediate(Size::Unsized, (opcode & 0xff) as u32),
            spec_decode_dx(opcode),
        ],
        Decoder::DyDx => seq![spec_decode_dy(opcode), spec_decode_dx(opcode)],
        Decoder::PdPd => seq![
            Operand::AddressRegisterIndirectWithPredecrement((opcode & 0b111) as u8),
            Operand::AddressRegisterIndirectWithPredecrement(((opcode >> 9) & 0b111) as u8),
        ],
        Decoder::PiPi => seq![
            Operand::AddressRegisterIndirectWithPostincrement((opcode & 0b111) as u8),
            Operand::AddressRegisterIndirectWithPostincrement(((opcode >> 9) & 0b111) as u8),
        ],
        Decoder::ExgDd => seq![spec_decode_dx(opcode), spec_decode_dy(opcode)],
        Decoder::ExgAa => seq![spec_decode_ax(opcode), spec_decode_ay(opcode)],
        Decoder::ExgDa => seq![spec_decode_dx(opcode), spec_decode_ay(opcode)],
        Decoder::DnOnly => seq![spec_decode_dy(opcode)],
        Decoder::AnOnly => seq![spec_decode_ay(opcode)],
        Decoder::AnUsp => seq![spec_decode_ay(opcode), Operand::UserStackPointer],
        Decoder::UspAn => seq![Operand::UserStackPointer, spec_decode_ay(opcode)],
        Decoder::ShiftImm => seq![
            Operand::Immediate(Size::Unsized, spec_quick_data(opcode)),
            spec_decode_dy(opcode),
        ],
        Decoder::ShiftReg => seq![spec_decode_dx(opcode), spec_decode_dy(opcode)],
        Decoder::Vector => seq![Operand::Immediate(Size::Unsized, (opcode & 0xf) as u32)],
        Decoder::NoOperands => seq![],
    }
}

/// Run a decoder on an opcode, reading its extension words.
fn decode_operands<M: Memory>(d: Decoder, size: Size, opcode: u16, pc: u32, mem: &M) -> (r: Vec<
    Operand,
>)
    requires
        spec_decoder_pre(d, size, opcode),
        spec_pc_ok(pc, spec_decode_ext(d, size, opcode)),
        mem_has_n(mem, pc as int, spec_decode_ext(d, size, opcode)),
    ensures
        r@ == spec_decode(d, size, opcode, pc, mem),
{
    match d {
        Decoder::EaDx => decode_ea_dx(opcode, size, pc, mem),
        Decoder::DxEa => decode_dx_ea(opcode, size, pc, mem),
        Decoder::EaAx => decode_ea_ax(opcode, size, pc, mem),
        Decoder::Ea => one(decode_ea(opcode, size, pc, mem)),
        Decoder::EaSr => decode_ea_sr(opcode, size, pc, mem),
        Decoder::SrEa => two(
            Operand::StatusRegister(Size::Word),
            decode_ea(opcode, size, pc, mem),
        ),
        Decoder::EaCcr => decode_ea_ccr(opcode, size, pc, mem),
        Decoder::QuickEa => {
            let q = (opcode >> 9u16) & 0b111;
            let data: u32 = if q == 0 {
                8
            } else {
                q as u32
            };
            two(Operand::Immediate(Size::Unsized, data), decode_ea(opcode, size, pc, mem))
        },
        Decoder::EaEa => decode_ea_ea(opcode, size, pc, mem),
        Decoder::ImmEa => decode_imm_ea(opcode, size, pc, mem),
        Decoder::BitImm => two(
            Operand::Immediate(Size::Byte, (mem.read_word(pc + 2) & 0xff) as u32),
            decode_ea(opcode, size, pc + 2, mem),
        ),
        Decoder::MovemRe => two(
            Operand::Immediate(Size::Word, mem.read_word(pc + 2) as u32),
            decode_ea(opcode, size, pc + 2, mem),
        ),
        Decoder::MovemEr => two(
            decode_ea(opcode, size, pc + 2, mem),
            Operand::Immediate(Size::Word, mem.read_word(pc + 2) as u32),
        ),
        Decoder::ImmCcr => two(
            Operand::Immediate(Size::Byte, (mem.read_word(pc + 2) & 0xff) as u32),
            Operand::StatusRegister(Size::Byte),
        ),
        Decoder::ImmSr => two(
            Operand::Immediate(Size::Word, mem.read_word(pc + 2) as u32),
            Operand::StatusRegister(Size::Word),
        ),
        Decoder::DnDisp => two(
            Operand::DataRegisterDirect((opcode & 0b111) as u8),
            Operand::Displacement(Size::Word, mem.read_word(pc + 2) as u32),
        ),
        Decoder::LinkImm => two(
            Operand::AddressRegisterDirect((opcode & 0b111) as u8),
            Operand::Immediate(Size::Word, mem.read_word(pc + 2) as u32),
        ),
        Decoder::Imm16 => one(Operand::Immediate(Size::Word, mem.read_word(pc + 2) as u32)),
        Decoder::MovepEr => two(
            Operand::AddressRegisterIndirectWithDisplacement(
                (opcode & 0b111) as u8,
                mem.read_word(pc + 2) as i16,
            ),
            decode_dx(opcode),
        ),
        Decoder::MovepRe => two(
            decode_dx(opcode),
            Operand::AddressRegisterIndirectWithDisplacement(
                (opcode & 0b111) as u8,
                mem.read_word(pc + 2) as i16,
            ),
        ),
        Decoder::Branch => decode_branch(opcode, size, pc, mem),
        Decoder::Moveq => two(
            Operand::Immediate(Size::Unsized, (opcode & 0xff) as u32),
            decode_dx(opcode),
        ),
        Decoder::DyDx => two(
            Operand::DataRegisterDirect((opcode & 0b111) as u8),
            decode_dx(opcode),
        ),
        Decoder::PdPd => two(
            Operand::AddressRegisterIndirectWithPredecrement((opcode & 0b111) as u8),
            Operand::AddressRegisterIndirectWithPredecrement(((opcode >> 9u16) & 0b111) as u8),
        ),
        Decoder::PiPi => two(
            Operand::AddressRegisterIndirectWithPostincrement((opcode & 0b111) as u8),
            Operand::AddressRegisterIndirectWithPostincrement(((opcode >> 9u16) & 0b111) as u8),
        ),
        Decoder::ExgDd => two(
            decode_dx(opcode),
            Operand::DataRegisterDirect((opcode & 0b111) as u8),
        ),
        Decoder::ExgAa => two(
            decode_ax(opcode),
            Operand::AddressRegisterDirect((opcode & 0b111) as u8),
        ),
        Decoder::ExgDa => two(
            decode_dx(opcode),
            Operand::AddressRegisterDirect((opcode & 0b111) as u8),
        ),
        Decoder::DnOnly => one(Operand::DataRegisterDirect((opcode & 0b111) as u8)),
        Decoder::AnOnly => one(Operand::AddressRegisterDirect((opcode & 0b111) as u8)),
        Decoder::AnUsp => two(
            Operand::AddressRegisterDirect((opcode & 0b111) as u8),
            Operand::UserStackPointer,
        ),
        Decoder::UspAn => two(
            Operand::UserStackPointer,
            Operand::AddressRegisterDirect((opcode & 0b111) as u8),
        ),
        Decoder::ShiftImm => {
            let q = (opcode >> 9u16) & 0b111;
            let data: u32 = if q == 0 {
                8
            } else {
                q as u32
            };
            two(
                Operand::Immediate(Size::Unsized, data),
                Operand::DataRegisterDirect((opcode & 0b111) as u8),
            )
        },
        Decoder::ShiftReg => two(
            decode_dx(opcode),
            Operand::DataRegisterDirect((opcode & 0b111) as u8),
        ),
        Decoder::Vector => one(Operand::Immediate(Size::Unsized, (opcode & 0xf) as u32)),
        Decoder::NoOperands => {
            let v: Vec<Operand> = Vec::new();
            proof {
                assert(v@ =~= spec_decode(d, size, opcode, pc, mem));
            }
            v
        },
    }
}

/// A pattern that pins the mode bits pins every matching opcode's mode field
/// to its own, and likewise for the register field.
proof fn lemma_pinned_ea(m: u32, v: u32, op: u16)
    by (bit_vector)
    requires
        m & v == v,
        v <= 0xffff,
        m <= 0xffff,
        (op as u32) & m == v,
        m & 0x38 == 0x38,
    ensures
        (op >> 3) & 0b111 == ((v as u16) >> 3) & 0b111,
        m & 0b111 == 0b111 ==> op & 0b111 == (v as u16) & 0b111,
{
}

/// The same for the destination field of a MOVE pattern.
proof fn lemma_pinned_dest(m: u32, v: u32, op: u16)
    by (bit_vector)
    requires
        m & v == v,
        v <= 0xffff,
        m <= 0xffff,
        (op as u32) & m == v,
        m & 0x1c0 == 0x1c0,
    ensures
        (op >> 6) & 0b111 == ((v as u16) >> 6) & 0b111,
        m & 0xe00 == 0xe00 ==> (op >> 9) & 0b111 == ((v as u16) >> 9) & 0b111,
{
}

/// The dispatch-table entry of an opcode refuses disassembly: no rule
/// matches it, or the matching rule is kept only to pin the slot to the
/// illegal handler.
pub open spec fn spec_entry_illegal(rules: Seq<OpcodeHandler>, opcode: u16) -> bool {
    let j = lookup(rules, opcode);
    j == rules.len() || rules[j].validator is Never
}

/// Extension words the dispatch-table entry of an opcode will read.
pub open spec fn spec_entry_ext(rules: Seq<OpcodeHandler>, opcode: u16) -> int {
    if spec_entry_illegal(rules, opcode) {
        0
    } else {
        let j = lookup(rules, opcode);
        spec_decode_ext(rules[j].decoder, rules[j].size, opcode)
    }
}

/// The disassembler: the shared rule list and the dispatch table expanded
/// from it. Instruction selection is the same single indexed load the
/// executor uses, so the two can never pick different descriptors.
pub struct Disassembler {
    gen: InstructionSetGenerator,
    index: Vec<usize>,
}

impl Disassembler {
    /// The rule list this disassembler shares with the executor table.
    pub closed spec fn rules(&self) -> Seq<OpcodeHandler> {
        self.gen.rules()
    }

    /// The rule list is well-formed and the held table is its expansion.
    pub closed spec fn wf(&self) -> bool {
        &&& self.gen.wf()
        &&& self.index@.len() == 0x10000
        &&& forall|op: u16| #[trigger] self.index@[op as int] as int == lookup(self.rules(), op)
    }

    pub fn new() -> (r: Self)
        ensures
            r.wf(),
            r.rules() == crate::handlers::spec_optable(),
    {
        let gen = InstructionSetGenerator::new();
        let index = gen.generate();
        Disassembler { gen, index }
    }

    /// Disassemble the instruction at `pc`. The descriptor is selected by
    /// the shared dispatch table; an opcode whose entry is the illegal
    /// handler, or whose descriptor refuses disassembly, is reported as an
    /// illegal instruction. Every other opcode disassembles, and carries its
    /// descriptor's own mnemonic and size: the dispatcher and the
    /// disassembler agree.
    pub fn disassemble<M: Memory>(&self, pc: u32, mem: &M) -> (r: Result<OpcodeInstance, Exception>)
        requires
            self.wf(),
            mem.has_word(pc as int),
            spec_pc_ok(pc, spec_entry_ext(self.rules(), mem.word_at(pc as int))),
            mem_has_n(mem, pc as int, spec_entry_ext(self.rules(), mem.word_at(pc as int))),
        ensures
            ({
                let opcode = mem.word_at(pc as int);
                let j = lookup(self.rules(), opcode);
                if spec_entry_illegal(self.rules(), opcode) {
                    r == Result::<OpcodeInstance, Exception>::Err(
                        Exception::IllegalInstruction(opcode, pc),
                    )
                } else {
                    &&& r is Ok
                    &&& (r->Ok_0).mnemonic == self.rules()[j].mnemonic
                    &&& (r->Ok_0).size == self.rules()[j].size
                    &&& (r->Ok_0).operands@ == spec_decode(
                        self.rules()[j].decoder,
                        self.rules()[j].size,
                        opcode,
                        pc,
                        mem,
                    )
                }
            }),
    {
        let opcode = mem.read_word(pc);
        proof {
            lemma_every_opcode_has_one_entry(self.rules(), opcode);
        }
        let j = self.index[opcode as usize];
        let rules = self.gen.optable();
        if j >= rules.len() {
            return Err(Exception::IllegalInstruction(opcode, pc));
        }
        let rule = rules[j];
        if matches!(rule.validator, Validator::Never) {
            return Err(Exception::IllegalInstruction(opcode, pc));
        }
        proof {
            assert(rule_matches(self.rules()[j as int], opcode));
            assert(rule_wf(rule) && rule_decodable(rule));
            if crate::optable::decoder_reads_ea(rule.decoder) {
                lemma_pinned_ea(rule.mask, rule.matching, opcode);
            }
            if rule.decoder is EaEa {
                lemma_pinned_dest(rule.mask, rule.matching, opcode);
            }
            assert(spec_decoder_pre(rule.decoder, rule.size, opcode));
        }
        let operands = decode_operands(rule.decoder, rule.size, opcode, pc, mem);
        Ok(OpcodeInstance { mnemonic: rule.mnemonic, size: rule.size, operands })
    }
}

/// Disassemble the instruction at `pc` against the crate's own opcode table.
pub fn disassemble<M: Memory>(pc: u32, mem: &M) -> (r: Result<OpcodeInstance, Exception>)
    requires
        mem.has_word(pc as int),
        spec_pc_ok(pc, spec_entry_ext(crate::handlers::spec_optable(), mem.word_at(pc as int))),
        mem_has_n(
            mem,
            pc as int,
            spec_entry_ext(crate::handlers::spec_optable(), mem.word_at(pc as int)),
        ),
    ensures
        ({
            let rules = crate::handlers::spec_optable();
            let opcode = mem.word_at(pc as int);
            let j = lookup(rules, opcode);
            if spec_entry_illegal(rules, opcode) {
                r == Result::<OpcodeInstance, Exception>::Err(
                    Exception::IllegalInstruction(opcode, pc),
                )
            } else {
                &&& r is Ok
                &&& (r->Ok_0).mnemonic == rules[j].mnemonic
                &&& (r->Ok_0).size == rules[j].size
                &&& (r->Ok_0).operands@ == spec_decode(
                    rules[j].decoder,
                    rules[j].size,
                    opcode,
                    pc,
                    mem,
                )
            }
        }),
{
    let d = Disassembler::new();
    d.disassemble(pc, mem)
}

/// Disassemble the instruction at the very start of memory; the caller vouches
/// that one is there.
pub fn disassemble_first<M: Memory>(mem: &M) -> (r: OpcodeInstance)
    requires
        mem.has_word(0),
        mem_has_n(mem, 0, spec_entry_ext(crate::handlers::spec_optable(), mem.word_at(0))),
        !spec_entry_illegal(crate::handlers::spec_optable(), mem.word_at(0)),
    ensures
        ({
            let rules = crate::handlers::spec_optable();
            let opcode = mem.word_at(0);
            let j = lookup(rules, opcode);
            &&& r.mnemonic == rules[j].mnemonic
            &&& r.size == rules[j].size
            &&& r.operands@ == spec_decode(rules[j].decoder, rules[j].size, opcode, 0, mem)
        }),
{
    match disassemble(0, mem) {
        Ok(instance) => instance,
        Err(_) => vstd::pervasive::unreached(),
    }
}

} // verus!
