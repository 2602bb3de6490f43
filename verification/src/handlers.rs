//! The opcode-pattern rules: one entry per instruction variant of the
//! M68000, in mnemonic order. Together they describe every legal opcode;
//! the table built from them maps the rest to the illegal handler.

use vstd::prelude::*;

use crate::optable::op_entry;
use crate::optable::rule_decodable;
use crate::optable::rule_wf;
use crate::optable::spec_op_entry;
use crate::optable::Decoder;
use crate::optable::OpcodeHandler;
use crate::optable::Size;
use crate::optable::Validator;
use crate::optable::MASK_EXACT;
use crate::optable::MASK_LO3NIB;
use crate::optable::MASK_LOBYTE;
use crate::optable::MASK_LOBYTX;
use crate::optable::MASK_LONIB;
use crate::optable::MASK_OUT_X;
use crate::optable::MASK_OUT_X_Y;
use crate::optable::MASK_OUT_Y;

verus! {

/// Rules unimplemented_1010 through add_16_er_pcdi.
pub open spec fn rules_00() -> Seq<OpcodeHandler> {
    seq![
        spec_op_entry(MASK_LO3NIB, 0xa000, "unimplemented_1010", "UNIMPLEMENTED", Size::Unsized, Decoder::NoOperands, Validator::Never),
        spec_op_entry(MASK_LO3NIB, 0xf000, "unimplemented_1111", "UNIMPLEMENTED", Size::Unsized, Decoder::NoOperands, Validator::Never),
        spec_op_entry(MASK_OUT_X_Y, 0xc100, "abcd_8_rr", "ABCD", Size::Byte, Decoder::DyDx, Validator::Always),
        spec_op_entry(MASK_OUT_X_Y, 0xc108, "abcd_8_mm", "ABCD", Size::Byte, Decoder::PdPd, Validator::Always),
        spec_op_entry(MASK_OUT_X_Y, 0xd000, "add_8_er_dn", "ADD", Size::Byte, Decoder::EaDx, Validator::Always),
        spec_op_entry(MASK_OUT_X_Y, 0xd010, "add_8_er_ai", "ADD", Size::Byte, Decoder::EaDx, Validator::Always),
        spec_op_entry(MASK_OUT_X_Y, 0xd018, "add_8_er_pi", "ADD", Size::Byte, Decoder::EaDx, Validator::Always),
        spec_op_entry(MASK_OUT_X_Y, 0xd020, "add_8_er_pd", "ADD", Size::Byte, Decoder::EaDx, Validator::Always),
        spec_op_entry(MASK_OUT_X_Y, 0xd028, "add_8_er_di", "ADD", Size::Byte, Decoder::EaDx, Validator::Always),
        spec_op_entry(MASK_OUT_X_Y, 0xd030, "add_8_er_ix", "ADD", Size::Byte, Decoder::EaDx, Validator::Always),
        spec_op_entry(MASK_OUT_X, 0xd038, "add_8_er_aw", "ADD", Size::Byte, Decoder::EaDx, Validator::Always),
        spec_op_entry(MASK_OUT_X, 0xd039, "add_8_er_al", "ADD", Size::Byte, Decoder::EaDx, Validator::Always),
        spec_op_entry(MASK_OUT_X, 0xd03a, "add_8_er_pcdi", "ADD", Size::Byte, Decoder::EaDx, Validator::Always),
        spec_op_entry(MASK_OUT_X, 0xd03b, "add_8_er_pcix", "ADD", Size::Byte, Decoder::EaDx, Validator::Always),
        spec_op_entry(MASK_OUT_X, 0xd03c, "add_8_er_imm", "ADD", Size::Byte, Decoder::EaDx, Validator::Always),
        spec_op_entry(MASK_OUT_X_Y, 0xd110, "add_8_re_ai", "ADD", Size::Byte, Decoder::DxEa, Validator::Always),
        spec_op_entry(MASK_OUT_X_Y, 0xd118, "add_8_re_pi", "ADD", Size::Byte, Decoder::DxEa, Validator::Always),
        spec_op_entry(MASK_OUT_X_Y, 0xd120, "add_8_re_pd", "ADD", Size::Byte, Decoder::DxEa, Validator::Always),
        spec_op_entry(MASK_OUT_X_Y, 0xd128, "add_8_re_di", "ADD", Size::Byte, Decoder::DxEa, Validator::Always),
        spec_op_entry(MASK_OUT_X_Y, 0xd130, "add_8_re_ix", "ADD", Size::Byte, Decoder::DxEa, Validator::Always),
        spec_op_entry(MASK_OUT_X, 0xd138, "add_8_re_aw", "ADD", Size::Byte, Decoder::DxEa, Validator::Always),
        spec_op_entry(MASK_OUT_X, 0xd139, "add_8_re_al", "ADD", Size::Byte, Decoder::DxEa, Validator::Always),
        spec_op_entry(MASK_OUT_X_Y, 0xd040, "add_16_er_dn", "ADD", Size::Word, Decoder::EaDx, Validator::Always),
        spec_op_entry(MASK_OUT_X_Y, 0xd048, "add_16_er_an", "ADD", Size::Word, Decoder::EaDx, Validator::Always),
        spec_op_entry(MASK_OUT_X_Y, 0xd050, "add_16_er_ai", "ADD", Size::Word, Decoder::EaDx, Validator::Always),
        spec_op_entry(MASK_OUT_X_Y, 0xd058, "add_16_er_pi", "ADD", Size::Word, Decoder::EaDx, Validator::Always),
        spec_op_entry(MASK_OUT_X_Y, 0xd060, "add_16_er_pd", "ADD", Size::Word, Decoder::EaDx, Validator::Always),
        spec_op_entry(MASK_OUT_X_Y, 0xd068, "add_16_er_di", "ADD", Size::Word, Decoder::EaDx, Validator::Always),
        spec_op_entry(MASK_OUT_X_Y, 0xd070, "add_16_er_ix", "ADD", Size::Word, Decoder::EaDx, Validator::Always),
        spec_op_entry(MASK_OUT_X, 0xd078, "add_16_er_aw", "ADD", Size::Word, Decoder::EaDx, Validator::Always),
        spec_op_entry(MASK_OUT_X, 0xd079, "add_16_er_al", "ADD", Size::Word, Decoder::EaDx, Validator::Always),
        spec_op_entry(MASK_OUT_X, 0xd07a, "add_16_er_pcdi", "ADD", Size::Word, Decoder::EaDx, Validator::Always),
    ]
}

fn push_rules_00(v: &mut Vec<OpcodeHandler>)
    ensures
        final(v)@ == old(v)@ + rules_00(),
        forall|i: int|
            old(v)@.len() <= i < final(v)@.len() ==> rule_wf(#[trigger] final(v)@[i])
                && rule_decodable(final(v)@[i]),
{
    let ghost v0 = v@;
    v.push(op_entry(MASK_LO3NIB, 0xa000, "unimplemented_1010", "UNIMPLEMENTED", Size::Unsized, Decoder::NoOperands, Validator::Never));
    v.push(op_entry(MASK_LO3NIB, 0xf000, "unimplemented_1111", "UNIMPLEMENTED", Size::Unsized, Decoder::NoOperands, Validator::Never));
    v.push(op_entry(MASK_OUT_X_Y, 0xc100, "abcd_8_rr", "ABCD", Size::Byte, Decoder::DyDx, Validator::Always));
    v.push(op_entry(MASK_OUT_X_Y, 0xc108, "abcd_8_mm", "ABCD", Size::Byte, Decoder::PdPd, Validator::Always));
    v.push(op_entry(MASK_OUT_X_Y, 0xd000, "add_8_er_dn", "ADD", Size::Byte, Decoder::EaDx, Validator::Always));
    v.push(op_entry(MASK_OUT_X_Y, 0xd010, "add_8_er_ai", "ADD", Size::Byte, Decoder::EaDx, Validator::Always));
    v.push(op_entry(MASK_OUT_X_Y, 0xd018, "add_8_er_pi", "ADD", Size::Byte, Decoder::EaDx, Validator::Always));
    v.push(op_entry(MASK_OUT_X_Y, 0xd020, "add_8_er_pd", "ADD", Size::Byte, Decoder::EaDx, Validator::Always));
    v.push(op_entry(MASK_OUT_X_Y, 0xd028, "add_8_er_di", "ADD", Size::Byte, Decoder::EaDx, Validator::Always));
    v.push(op_entry(MASK_OUT_X_Y, 0xd030, "add_8_er_ix", "ADD", Size::Byte, Decoder::EaDx, Validator::Always));
    v.push(op_entry(MASK_OUT_X, 0xd038, "add_8_er_aw", "ADD", Size::Byte, Decoder::EaDx, Validator::Always));
    v.push(op_entry(MASK_OUT_X, 0xd039, "add_8_er_al", "ADD", Size::Byte, Decoder::EaDx, Validator::Always));
    v.push(op_entry(MASK_OUT_X, 0xd03a, "add_8_er_pcdi", "ADD", Size::Byte, Decoder::EaDx, Validator::Always));
    v.push(op_entry(MASK_OUT_X, 0xd03b, "add_8_er_pcix", "ADD", Size::Byte, Decoder::EaDx, Validator::Always));
    v.push(op_entry(MASK_OUT_X, 0xd03c, "add_8_er_imm", "ADD", Size::Byte, Decoder::EaDx, Validator::Always));
    v.push(op_entry(MASK_OUT_X_Y, 0xd110, "add_8_re_ai", "ADD", Size::Byte, Decoder::DxEa, Validator::Always));
    v.push(op_entry(MASK_OUT_X_Y, 0xd118, "add_8_re_pi", "ADD", Size::Byte, Decoder::DxEa, Validator::Always));
    v.push(op_entry(MASK_OUT_X_Y, 0xd120, "add_8_re_pd", "ADD", Size::Byte, Decoder::DxEa, Validator::Always));
    v.push(op_entry(MASK_OUT_X_Y, 0xd128, "add_8_re_di", "ADD", Size::Byte, Decoder::DxEa, Validator::Always));
    v.push(op_entry(MASK_OUT_X_Y, 0xd130, "add_8_re_ix", "ADD", Size::Byte, Decoder::DxEa, Validator::Always));
    v.push(op_entry(MASK_OUT_X, 0xd138, "add_8_re_aw", "ADD", Size::Byte, Decoder::DxEa, Validator::Always));
    v.push(op_entry(MASK_OUT_X, 0xd139, "add_8_re_al", "ADD", Size::Byte, Decoder::DxEa, Validator::Always));
    v.push(op_entry(MASK_OUT_X_Y, 0xd040, "add_16_er_dn", "ADD", Size::Word, Decoder::EaDx, Validator::Always));
    v.push(op_entry(MASK_OUT_X_Y, 0xd048, "add_16_er_an", "ADD", Size::Word, Decoder::EaDx, Validator::Always));
    v.push(op_entry(MASK_OUT_X_Y, 0xd050, "add_16_er_ai", "ADD", Size::Word, Decoder::EaDx, Validator::Always));
    v.push(op_entry(MASK_OUT_X_Y, 0xd058, "add_16_er_pi", "ADD", Size::Word, Decoder::EaDx, Validator::Always));
    v.push(op_entry(MASK_OUT_X_Y, 0xd060, "add_16_er_pd", "ADD", Size::Word, Decoder::EaDx, Validator::Always));
    v.push(op_entry(MASK_OUT_X_Y, 0xd068, "add_16_er_di", "ADD", Size::Word, Decoder::EaDx, Validator::Always));
    v.push(op_entry(MASK_OUT_X_Y, 0xd070, "add_16_er_ix", "ADD", Size::Word, Decoder::EaDx, Validator::Always));
    v.push(op_entry(MASK_OUT_X, 0xd078, "add_16_er_aw", "ADD", Size::Word, Decoder::EaDx, Validator::Always));
    v.push(op_entry(MASK_OUT_X, 0xd079, "add_16_er_al", "ADD", Size::Word, Decoder::EaDx, Validator::Always));
    v.push(op_entry(MASK_OUT_X, 0xd07a, "add_16_er_pcdi", "ADD", Size::Word, Decoder::EaDx, Validator::Always));
    proof {
        assert(v@ =~= v0 + rules_00());
    }
}

/// Rules add_16_er_pcix through adda_16_pi.
pub open spec fn rules_01() -> Seq<OpcodeHandler> {
    seq![
        spec_op_entry(MASK_OUT_X, 0xd07b, "add_16_er_pcix", "ADD", Size::Word, Decoder::EaDx, Validator::Always),
        spec_op_entry(MASK_OUT_X, 0xd07c, "add_16_er_imm", "ADD", Size::Word, Decoder::EaDx, Validator::Always),
        spec_op_entry(MASK_OUT_X_Y, 0xd150, "add_16_re_ai", "ADD", Size::Word, Decoder::DxEa, Validator::Always),
        spec_op_entry(MASK_OUT_X_Y, 0xd158, "add_16_re_pi", "ADD", Size::Word, Decoder::DxEa, Validator::Always),
        spec_op_entry(MASK_OUT_X_Y, 0xd160, "add_16_re_pd", "ADD", Size::Word, Decoder::DxEa, Validator::Always),
        spec_op_entry(MASK_OUT_X_Y, 0xd168, "add_16_re_di", "ADD", Size::Word, Decoder::DxEa, Validator::Always),
        spec_op_entry(MASK_OUT_X_Y, 0xd170, "add_16_re_ix", "ADD", Size::Word, Decoder::DxEa, Validator::Always),
        spec_op_entry(MASK_OUT_X, 0xd178, "add_16_re_aw", "ADD", Size::Word, Decoder::DxEa, Validator::Always),
        spec_op_entry(MASK_OUT_X, 0xd179, "add_16_re_al", "ADD", Size::Word, Decoder::DxEa, Validator::Always),
        spec_op_entry(MASK_OUT_X_Y, 0xd080, "add_32_er_dn", "ADD", Size::Long, Decoder::EaDx, Validator::Always),
        spec_op_entry(MASK_OUT_X_Y, 0xd088, "add_32_er_an", "ADD", Size::Long, Decoder::EaDx, Validator::Always),
        spec_op_entry(MASK_OUT_X_Y, 0xd090, "add_32_er_ai", "ADD", Size::Long, Decoder::EaDx, Validator::Always),
        spec_op_entry(MASK_OUT_X_Y, 0xd098, "add_32_er_pi", "ADD", Size::Long, Decoder::EaDx, Validator::Always),
        spec_op_entry(MASK_OUT_X_Y, 0xd0a0, "add_32_er_pd", "ADD", Size::Long, Decoder::EaDx, Validator::Always),
        spec_op_entry(MASK_OUT_X_Y, 0xd0a8, "add_32_er_di", "ADD", Size::Long, Decoder::EaDx, Validator::Always),
        spec_op_entry(MASK_OUT_X_Y, 0xd0b0, "add_32_er_ix", "ADD", Size::Long, Decoder::EaDx, Validator::Always),
        spec_op_entry(MASK_OUT_X, 0xd0b8, "add_32_er_aw", "ADD", Size::Long, Decoder::EaDx, Validator::Always),
        spec_op_entry(MASK_OUT_X, 0xd0b9, "add_32_er_al", "ADD", Size::Long, Decoder::EaDx, Validator::Always),
        spec_op_entry(MASK_OUT_X, 0xd0ba, "add_32_er_pcdi", "ADD", Size::Long, Decoder::EaDx, Validator::Always),
        spec_op_entry(MASK_OUT_X, 0xd0bb, "add_32_er_pcix", "ADD", Size::Long, Decoder::EaDx, Validator::Always),
        spec_op_entry(MASK_OUT_X, 0xd0bc, "add_32_er_imm", "ADD", Size::Long, Decoder::EaDx, Validator::Always),
        spec_op_entry(MASK_OUT_X_Y, 0xd190, "add_32_re_ai", "ADD", Size::Long, Decoder::DxEa, Validator::Always),
        spec_op_entry(MASK_OUT_X_Y, 0xd198, "add_32_re_pi", "ADD", Size::Long, Decoder::DxEa, Validator::Always),
        spec_op_entry(MASK_OUT_X_Y, 0xd1a0, "add_32_re_pd", "ADD", Size::Long, Decoder::DxEa, Validator::Always),
        spec_op_entry(MASK_OUT_X_Y, 0xd1a8, "add_32_re_di", "ADD", Size::Long, Decoder::DxEa, Validator::Always),
        spec_op_entry(MASK_OUT_X_Y, 0xd1b0, "add_32_re_ix", "ADD", Size::Long, Decoder::DxEa, Validator::Always),
        spec_op_entry(MASK_OUT_X, 0xd1b8, "add_32_re_aw", "ADD", Size::Long, Decoder::DxEa, Validator::Always),
        spec_op_entry(MASK_OUT_X, 0xd1b9, "add_32_re_al", "ADD", Size::Long, Decoder::DxEa, Validator::Always),
        spec_op_entry(MASK_OUT_X_Y, 0xd0c0, "adda_16_dn", "ADDA", Size::Word, Decoder::EaAx, Validator::Always),
        spec_op_entry(MASK_OUT_X_Y, 0xd0c8, "adda_16_an", "ADDA", Size::Word, Decoder::EaAx, Validator::Always),
        spec_op_entry(MASK_OUT_X_Y, 0xd0d0, "adda_16_ai", "ADDA", Size::Word, Decoder::EaAx, Validator::Always),
        spec_op_entry(MASK_OUT_X_Y, 0xd0d8, "adda_16_pi", "ADDA", Size::Word, Decoder::EaAx, Validator::Always),
    ]
}

fn push_rules_01(v: &mut Vec<OpcodeHandler>)
    ensures
        final(v)@ == old(v)@ + rules_01(),
        forall|i: int|
            old(v)@.len() <= i < final(v)@.len() ==> rule_wf(#[trigger] final(v)@[i])
                && rule_decodable(final(v)@[i]),
{
    let ghost v0 = v@;
    v.push(op_entry(MASK_OUT_X, 0xd07b, "add_16_er_pcix", "ADD", Size::Word, Decoder::EaDx, Validator::Always));
    v.push(op_entry(MASK_OUT_X, 0xd07c, "add_16_er_imm", "ADD", Size::Word, Decoder::EaDx, Validator::Always));
    v.push(op_entry(MASK_OUT_X_Y, 0xd150, "add_16_re_ai", "ADD", Size::Word, Decoder::DxEa, Validator::Always));
    v.push(op_entry(MASK_OUT_X_Y, 0xd158, "add_16_re_pi", "ADD", Size::Word, Decoder::DxEa, Validator::Always));
    v.push(op_entry(MASK_OUT_X_Y, 0xd160, "add_16_re_pd", "ADD", Size::Word, Decoder::DxEa, Validator::Always));
    v.push(op_entry(MASK_OUT_X_Y, 0xd168, "add_16_re_di", "ADD", Size::Word, Decoder::DxEa, Validator::Always));
    v.push(op_entry(MASK_OUT_X_Y, 0xd170, "add_16_re_ix", "ADD", Size::Word, Decoder::DxEa, Validator::Always));
    v.push(op_entry(MASK_OUT_X, 0xd178, "add_16_re_aw", "ADD", Size::Word, Decoder::DxEa, Validator::Always));
    v.push(op_entry(MASK_OUT_X, 0xd179, "add_16_re_al", "ADD", Size::Word, Decoder::DxEa, Validator::Always));
    v.push(op_entry(MASK_OUT_X_Y, 0xd080, "add_32_er_dn", "ADD", Size::Long, Decoder::EaDx, Validator::Always));
    v.push(op_entry(MASK_OUT_X_Y, 0xd088, "add_32_er_an", "ADD", Size::Long, Decoder::EaDx, Validator::Always));
    v.push(op_entry(MASK_OUT_X_Y, 0xd090, "add_32_er_ai", "ADD", Size::Long, Decoder::EaDx, Validator::Always));
    v.push(op_entry(MASK_OUT_X_Y, 0xd098, "add_32_er_pi", "ADD", Size::Long, Decoder::EaDx, Validator::Always));
    v.push(op_entry(MASK_OUT_X_Y, 0xd0a0, "add_32_er_pd", "ADD", Size::Long, Decoder::EaDx, Validator::Always));
    v.push(op_entry(MASK_OUT_X_Y, 0xd0a8, "add_32_er_di", "ADD", Size::Long, Decoder::EaDx, Validator::Always));
    v.push(op_entry(MASK_OUT_X_Y, 0xd0b0, "add_32_er_ix", "ADD", Size::Long, Decoder::EaDx, Validator::Always));
    v.push(op_entry(MASK_OUT_X, 0xd0b8, "add_32_er_aw", "ADD", Size::Long, Decoder::EaDx, Validator::Always));
    v.push(op_entry(MASK_OUT_X, 0xd0b9, "add_32_er_al", "ADD", Size::Long, Decoder::EaDx, Validator::Always));
    v.push(op_entry(MASK_OUT_X, 0xd0ba, "add_32_er_pcdi", "ADD", Size::Long, Decoder::EaDx, Validator::Always));
    v.push(op_entry(MASK_OUT_X, 0xd0bb, "add_32_er_pcix", "ADD", Size::Long, Decoder::EaDx, Validator::Always));
    v.push(op_entry(MASK_OUT_X, 0xd0bc, "add_32_er_imm", "ADD", Size::Long, Decoder::EaDx, Validator::Always));
    v.push(op_entry(MASK_OUT_X_Y, 0xd190, "add_32_re_ai", "ADD", Size::Long, Decoder::DxEa, Validator::Always));
    v.push(op_entry(MASK_OUT_X_Y, 0xd198, "add_32_re_pi", "ADD", Size::Long, Decoder::DxEa, Validator::Always));
    v.push(op_entry(MASK_OUT_X_Y, 0xd1a0, "add_32_re_pd", "ADD", Size::Long, Decoder::DxEa, Validator::Always));
    v.push(op_entry(MASK_OUT_X_Y, 0xd1a8, "add_32_re_di", "ADD", Size::Long, Decoder::DxEa, Validator::Always));
    v.push(op_entry(MASK_OUT_X_Y, 0xd1b0, "add_32_re_ix", "ADD", Size::Long, Decoder::DxEa, Validator::Always));
    v.push(op_entry(MASK_OUT_X, 0xd1b8, "add_32_re_aw", "ADD", Size::Long, Decoder::DxEa, Validator::Always));
    v.push(op_entry(MASK_OUT_X, 0xd1b9, "add_32_re_al", "ADD", Size::Long, Decoder::DxEa, Validator::Always));
    v.push(op_entry(MASK_OUT_X_Y, 0xd0c0, "adda_16_dn", "ADDA", Size::Word, Decoder::EaAx, Validator::Always));
    v.push(op_entry(MASK_OUT_X_Y, 0xd0c8, "adda_16_an", "ADDA", Size::Word, Decoder::EaAx, Validator::Always));
    v.push(op_entry(MASK_OUT_X_Y, 0xd0d0, "adda_16_ai", "ADDA", Size::Word, Decoder::EaAx, Validator::Always));
    v.push(op_entry(MASK_OUT_X_Y, 0xd0d8, "adda_16_pi", "ADDA", Size::Word, Decoder::EaAx, Validator::Always));
    proof {
        assert(v@ =~= v0 + rules_01());
    }
}

/// Rules adda_16_pd through addi_16_pd.
pub open spec fn rules_02() -> Seq<OpcodeHandler> {
    seq![
        spec_op_entry(MASK_OUT_X_Y, 0xd0e0, "adda_16_pd", "ADDA", Size::Word, Decoder::EaAx, Validator::Always),
        spec_op_entry(MASK_OUT_X_Y, 0xd0e8, "adda_16_di", "ADDA", Size::Word, Decoder::EaAx, Validator::Always),
        spec_op_entry(MASK_OUT_X_Y, 0xd0f0, "adda_16_ix", "ADDA", Size::Word, Decoder::EaAx, Validator::Always),
        spec_op_entry(MASK_OUT_X, 0xd0f8, "adda_16_aw", "ADDA", Size::Word, Decoder::EaAx, Validator::Always),
        spec_op_entry(MASK_OUT_X, 0xd0f9, "adda_16_al", "ADDA", Size::Word, Decoder::EaAx, Validator::Always),
        spec_op_entry(MASK_OUT_X, 0xd0fa, "adda_16_pcdi", "ADDA", Size::Word, Decoder::EaAx, Validator::Always),
        spec_op_entry(MASK_OUT_X, 0xd0fb, "adda_16_pcix", "ADDA", Size::Word, Decoder::EaAx, Validator::Always),
        spec_op_entry(MASK_OUT_X, 0xd0fc, "adda_16_imm", "ADDA", Size::Word, Decoder::EaAx, Validator::Always),
        spec_op_entry(MASK_OUT_X_Y, 0xd1c0, "adda_32_dn", "ADDA", Size::Long, Decoder::EaAx, Validator::Always),
        spec_op_entry(MASK_OUT_X_Y, 0xd1c8, "adda_32_an", "ADDA", Size::Long, Decoder::EaAx, Validator::Always),
        spec_op_entry(MASK_OUT_X_Y, 0xd1d0, "adda_32_ai", "ADDA", Size::Long, Decoder::EaAx, Validator::Always),
        spec_op_entry(MASK_OUT_X_Y, 0xd1d8, "adda_32_pi", "ADDA", Size::Long, Decoder::EaAx, Validator::Always),
        spec_op_entry(MASK_OUT_X_Y, 0xd1e0, "adda_32_pd", "ADDA", Size::Long, Decoder::EaAx, Validator::Always),
        spec_op_entry(MASK_OUT_X_Y, 0xd1e8, "adda_32_di", "ADDA", Size::Long, Decoder::EaAx, Validator::Always),
        spec_op_entry(MASK_OUT_X_Y, 0xd1f0, "adda_32_ix", "ADDA", Size::Long, Decoder::EaAx, Validator::Always),
        spec_op_entry(MASK_OUT_X, 0xd1f8, "adda_32_aw", "ADDA", Size::Long, Decoder::EaAx, Validator::Always),
        spec_op_entry(MASK_OUT_X, 0xd1f9, "adda_32_al", "ADDA", Size::Long, Decoder::EaAx, Validator::Always),
        spec_op_entry(MASK_OUT_X, 0xd1fa, "adda_32_pcdi", "ADDA", Size::Long, Decoder::EaAx, Validator::Always),
        spec_op_entry(MASK_OUT_X, 0xd1fb, "adda_32_pcix", "ADDA", Size::Long, Decoder::EaAx, Validator::Always),
        spec_op_entry(MASK_OUT_X, 0xd1fc, "adda_32_imm", "ADDA", Size::Long, Decoder::EaAx, Validator::Always),
        spec_op_entry(MASK_OUT_Y, 0x0600, "addi_8_dn", "ADDI", Size::Byte, Decoder::ImmEa, Validator::Always),
        spec_op_entry(MASK_OUT_Y, 0x0610, "addi_8_ai", "ADDI", Size::Byte, Decoder::ImmEa, Validator::Always),
        spec_op_entry(MASK_OUT_Y, 0x0618, "addi_8_pi", "ADDI", Size::Byte, Decoder::ImmEa, Validator::Always),
        spec_op_entry(MASK_OUT_Y, 0x0620, "addi_8_pd", "ADDI", Size::Byte, Decoder::ImmEa, Validator::Always),
        spec_op_entry(MASK_OUT_Y, 0x0628, "addi_8_di", "ADDI", Size::Byte, Decoder::ImmEa, Validator::Always),
        spec_op_entry(MASK_OUT_Y, 0x0630, "addi_8_ix", "ADDI", Size::Byte, Decoder::ImmEa, Validator::Always),
        spec_op_entry(MASK_EXACT, 0x0638, "addi_8_aw", "ADDI", Size::Byte, Decoder::ImmEa, Validator::Always),
        spec_op_entry(MASK_EXACT, 0x0639, "addi_8_al", "ADDI", Size::Byte, Decoder::ImmEa, Validator::Always),
        spec_op_entry(MASK_OUT_Y, 0x0640, "addi_16_dn", "ADDI", Size::Word, Decoder::ImmEa, Validator::Always),
        spec_op_entry(MASK_OUT_Y, 0x0650, "addi_16_ai", "ADDI", Size::Word, Decoder::ImmEa, Validator::Always),
        spec_op_entry(MASK_OUT_Y, 0x0658, "addi_16_pi", "ADDI", Size::Word, Decoder::ImmEa, Validator::Always),
        spec_op_entry(MASK_OUT_Y, 0x0660, "addi_16_pd", "ADDI", Size::Word, Decoder::ImmEa, Validator::Always),
    ]
}

fn push_rules_02(v: &mut Vec<OpcodeHandler>)
    ensures
        final(v)@ == old(v)@ + rules_02(),
        forall|i: int|
            old(v)@.len() <= i < final(v)@.len() ==> rule_wf(#[trigger] final(v)@[i])
                && rule_decodable(final(v)@[i]),
{
    let ghost v0 = v@;
    v.push(op_entry(MASK_OUT_X_Y, 0xd0e0, "adda_16_pd", "ADDA", Size::Word, Decoder::EaAx, Validator::Always));
    v.push(op_entry(MASK_OUT_X_Y, 0xd0e8, "adda_16_di", "ADDA", Size::Word, Decoder::EaAx, Validator::Always));
    v.push(op_entry(MASK_OUT_X_Y, 0xd0f0, "adda_16_ix", "ADDA", Size::Word, Decoder::EaAx, Validator::Always));
    v.push(op_entry(MASK_OUT_X, 0xd0f8, "adda_16_aw", "ADDA", Size::Word, Decoder::EaAx, Validator::Always));
    v.push(op_entry(MASK_OUT_X, 0xd0f9, "adda_16_al", "ADDA", Size::Word, Decoder::EaAx, Validator::Always));
    v.push(op_entry(MASK_OUT_X, 0xd0fa, "adda_16_pcdi", "ADDA", Size::Word, Decoder::EaAx, Validator::Always));
    v.push(op_entry(MASK_OUT_X, 0xd0fb, "adda_16_pcix", "ADDA", Size::Word, Decoder::EaAx, Validator::Always));
    v.push(op_entry(MASK_OUT_X, 0xd0fc, "adda_16_imm", "ADDA", Size::Word, Decoder::EaAx, Validator::Always));
    v.push(op_entry(MASK_OUT_X_Y, 0xd1c0, "adda_32_dn", "ADDA", Size::Long, Decoder::EaAx, Validator::Always));
    v.push(op_entry(MASK_OUT_X_Y, 0xd1c8, "adda_32_an", "ADDA", Size::Long, Decoder::EaAx, Validator::Always));
    v.push(op_entry(MASK_OUT_X_Y, 0xd1d0, "adda_32_ai", "ADDA", Size::Long, Decoder::EaAx, Validator::Always));
    v.push(op_entry(MASK_OUT_X_Y, 0xd1d8, "adda_32_pi", "ADDA", Size::Long, Decoder::EaAx, Validator::Always));
    v.push(op_entry(MASK_OUT_X_Y, 0xd1e0, "adda_32_pd", "ADDA", Size::Long, Decoder::EaAx, Validator::Always));
    v.push(op_entry(MASK_OUT_X_Y, 0xd1e8, "adda_32_di", "ADDA", Size::Long, Decoder::EaAx, Validator::Always));
    v.push(op_entry(MASK_OUT_X_Y, 0xd1f0, "adda_32_ix", "ADDA", Size::Long, Decoder::EaAx, Validator::Always));
    v.push(op_entry(MASK_OUT_X, 0xd1f8, "adda_32_aw", "ADDA", Size::Long, Decoder::EaAx, Validator::Always));
    v.push(op_entry(MASK_OUT_X, 0xd1f9, "adda_32_al", "ADDA", Size::Long, Decoder::EaAx, Validator::Always));
    v.push(op_entry(MASK_OUT_X, 0xd1fa, "adda_32_pcdi", "ADDA", Size::Long, Decoder::EaAx, Validator::Always));
    v.push(op_entry(MASK_OUT_X, 0xd1fb, "adda_32_pcix", "ADDA", Size::Long, Decoder::EaAx, Validator::Always));
    v.push(op_entry(MASK_OUT_X, 0xd1fc, "adda_32_imm", "ADDA", Size::Long, Decoder::EaAx, Validator::Always));
    v.push(op_entry(MASK_OUT_Y, 0x0600, "addi_8_dn", "ADDI", Size::Byte, Decoder::ImmEa, Validator::Always));
    v.push(op_entry(MASK_OUT_Y, 0x0610, "addi_8_ai", "ADDI", Size::Byte, Decoder::ImmEa, Validator::Always));
    v.push(op_entry(MASK_OUT_Y, 0x0618, "addi_8_pi", "ADDI", Size::Byte, Decoder::ImmEa, Validator::Always));
    v.push(op_entry(MASK_OUT_Y, 0x0620, "addi_8_pd", "ADDI", Size::Byte, Decoder::ImmEa, Validator::Always));
    v.push(op_entry(MASK_OUT_Y, 0x0628, "addi_8_di", "ADDI", Size::Byte, Decoder::ImmEa, Validator::Always));
    v.push(op_entry(MASK_OUT_Y, 0x0630, "addi_8_ix", "ADDI", Size::Byte, Decoder::ImmEa, Validator::Always));
    v.push(op_entry(MASK_EXACT, 0x0638, "addi_8_aw", "ADDI", Size::Byte, Decoder::ImmEa, Validator::Always));
    v.push(op_entry(MASK_EXACT, 0x0639, "addi_8_al", "ADDI", Size::Byte, Decoder::ImmEa, Validator::Always));
    v.push(op_entry(MASK_OUT_Y, 0x0640, "addi_16_dn", "ADDI", Size::Word, Decoder::ImmEa, Validator::Always));
    v.push(op_entry(MASK_OUT_Y, 0x0650, "addi_16_ai", "ADDI", Size::Word, Decoder::ImmEa, Validator::Always));
    v.push(op_entry(MASK_OUT_Y, 0x0658, "addi_16_pi", "ADDI", Size::Word, Decoder::ImmEa, Validator::Always));
    v.push(op_entry(MASK_OUT_Y, 0x0660, "addi_16_pd", "ADDI", Size::Word, Decoder::ImmEa, Validator::Always));
    proof {
        assert(v@ =~= v0 + rules_02());
    }
}

/// Rules addi_16_di through addq_32_ai.
pub open spec fn rules_03() -> Seq<OpcodeHandler> {
    seq![
        spec_op_entry(MASK_OUT_Y, 0x0668, "addi_16_di", "ADDI", Size::Word, Decoder::ImmEa, Validator::Always),
        spec_op_entry(MASK_OUT_Y, 0x0670, "addi_16_ix", "ADDI", Size::Word, Decoder::ImmEa, Validator::Always),
        spec_op_entry(MASK_EXACT, 0x0678, "addi_16_aw", "ADDI", Size::Word, Decoder::ImmEa, Validator::Always),
        spec_op_entry(MASK_EXACT, 0x0679, "addi_16_al", "ADDI", Size::Word, Decoder::ImmEa, Validator::Always),
        spec_op_entry(MASK_OUT_Y, 0x0680, "addi_32_dn", "ADDI", Size::Long, Decoder::ImmEa, Validator::Always),
        spec_op_entry(MASK_OUT_Y, 0x0690, "addi_32_ai", "ADDI", Size::Long, Decoder::ImmEa, Validator::Always),
        spec_op_entry(MASK_OUT_Y, 0x0698, "addi_32_pi", "ADDI", Size::Long, Decoder::ImmEa, Validator::Always),
        spec_op_entry(MASK_OUT_Y, 0x06a0, "addi_32_pd", "ADDI", Size::Long, Decoder::ImmEa, Validator::Always),
        spec_op_entry(MASK_OUT_Y, 0x06a8, "addi_32_di", "ADDI", Size::Long, Decoder::ImmEa, Validator::Always),
        spec_op_entry(MASK_OUT_Y, 0x06b0, "addi_32_ix", "ADDI", Size::Long, Decoder::ImmEa, Validator::Always),
        spec_op_entry(MASK_EXACT, 0x06b8, "addi_32_aw", "ADDI", Size::Long, Decoder::ImmEa, Validator::Always),
        spec_op_entry(MASK_EXACT, 0x06b9, "addi_32_al", "ADDI", Size::Long, Decoder::ImmEa, Validator::Always),
        spec_op_entry(MASK_OUT_X_Y, 0x5000, "addq_8_dn", "ADDQ", Size::Byte, Decoder::QuickEa, Validator::Always),
        spec_op_entry(MASK_OUT_X_Y, 0x5010, "addq_8_ai", "ADDQ", Size::Byte, Decoder::QuickEa, Validator::Always),
        spec_op_entry(MASK_OUT_X_Y, 0x5018, "addq_8_pi", "ADDQ", Size::Byte, Decoder::QuickEa, Validator::Always),
        spec_op_entry(MASK_OUT_X_Y, 0x5020, "addq_8_pd", "ADDQ", Size::Byte, Decoder::QuickEa, Validator::Always),
        spec_op_entry(MASK_OUT_X_Y, 0x5028, "addq_8_di", "ADDQ", Size::Byte, Decoder::QuickEa, Validator::Always),
        spec_op_entry(MASK_OUT_X_Y, 0x5030, "addq_8_ix", "ADDQ", Size::Byte, Decoder::QuickEa, Validator::Always),
        spec_op_entry(MASK_OUT_X, 0x5038, "addq_8_aw", "ADDQ", Size::Byte, Decoder::QuickEa, Validator::Always),
        spec_op_entry(MASK_OUT_X, 0x5039, "addq_8_al", "ADDQ", Size::Byte, Decoder::QuickEa, Validator::Always),
        spec_op_entry(MASK_OUT_X_Y, 0x5040, "addq_16_dn", "ADDQ", Size::Word, Decoder::QuickEa, Validator::Always),
        spec_op_entry(MASK_OUT_X_Y, 0x5048, "addq_16_an", "ADDQ", Size::Word, Decoder::QuickEa, Validator::Always),
        spec_op_entry(MASK_OUT_X_Y, 0x5050, "addq_16_ai", "ADDQ", Size::Word, Decoder::QuickEa, Validator::Always),
        spec_op_entry(MASK_OUT_X_Y, 0x5058, "addq_16_pi", "ADDQ", Size::Word, Decoder::QuickEa, Validator::Always),
        spec_op_entry(MASK_OUT_X_Y, 0x5060, "addq_16_pd", "ADDQ", Size::Word, Decoder::QuickEa, Validator::Always),
        spec_op_entry(MASK_OUT_X_Y, 0x5068, "addq_16_di", "ADDQ", Size::Word, Decoder::QuickEa, Validator::Always),
        spec_op_entry(MASK_OUT_X_Y, 0x5070, "addq_16_ix", "ADDQ", Size::Word, Decoder::QuickEa, Validator::Always),
        spec_op_entry(MASK_OUT_X, 0x5078, "addq_16_aw", "ADDQ", Size::Word, Decoder::QuickEa, Validator::Always),
        spec_op_entry(MASK_OUT_X, 0x5079, "addq_16_al", "ADDQ", Size::Word, Decoder::QuickEa, Validator::Always),
        spec_op_entry(MASK_OUT_X_Y, 0x5080, "addq_32_dn", "ADDQ", Size::Long, Decoder::QuickEa, Validator::Always),
        spec_op_entry(MASK_OUT_X_Y, 0x5088, "addq_32_an", "ADDQ", Size::Long, Decoder::QuickEa, Validator::Always),
        spec_op_entry(MASK_OUT_X_Y, 0x5090, "addq_32_ai", "ADDQ", Size::Long, Decoder::QuickEa, Validator::Always),
    ]
}

fn push_rules_03(v: &mut Vec<OpcodeHandler>)
    ensures
        final(v)@ == old(v)@ + rules_03(),
        forall|i: int|
            old(v)@.len() <= i < final(v)@.len() ==> rule_wf(#[trigger] final(v)@[i])
                && rule_decodable(final(v)@[i]),
{
    let ghost v0 = v@;
    v.push(op_entry(MASK_OUT_Y, 0x0668, "addi_16_di", "ADDI", Size::Word, Decoder::ImmEa, Validator::Always));
    v.push(op_entry(MASK_OUT_Y, 0x0670, "addi_16_ix", "ADDI", Size::Word, Decoder::ImmEa, Validator::Always));
    v.push(op_entry(MASK_EXACT, 0x0678, "addi_16_aw", "ADDI", Size::Word, Decoder::ImmEa, Validator::Always));
    v.push(op_entry(MASK_EXACT, 0x0679, "addi_16_al", "ADDI", Size::Word, Decoder::ImmEa, Validator::Always));
    v.push(op_entry(MASK_OUT_Y, 0x0680, "addi_32_dn", "ADDI", Size::Long, Decoder::ImmEa, Validator::Always));
    v.push(op_entry(MASK_OUT_Y, 0x0690, "addi_32_ai", "ADDI", Size::Long, Decoder::ImmEa, Validator::Always));
    v.push(op_entry(MASK_OUT_Y, 0x0698, "addi_32_pi", "ADDI", Size::Long, Decoder::ImmEa, Validator::Always));
    v.push(op_entry(MASK_OUT_Y, 0x06a0, "addi_32_pd", "ADDI", Size::Long, Decoder::ImmEa, Validator::Always));
    v.push(op_entry(MASK_OUT_Y, 0x06a8, "addi_32_di", "ADDI", Size::Long, Decoder::ImmEa, Validator::Always));
    v.push(op_entry(MASK_OUT_Y, 0x06b0, "addi_32_ix", "ADDI", Size::Long, Decoder::ImmEa, Validator::Always));
    v.push(op_entry(MASK_EXACT, 0x06b8, "addi_32_aw", "ADDI", Size::Long, Decoder::ImmEa, Validator::Always));
    v.push(op_entry(MASK_EXACT, 0x06b9, "addi_32_al", "ADDI", Size::Long, Decoder::ImmEa, Validator::Always));
    v.push(op_entry(MASK_OUT_X_Y, 0x5000, "addq_8_dn", "ADDQ", Size::Byte, Decoder::QuickEa, Validator::Always));
    v.push(op_entry(MASK_OUT_X_Y, 0x5010, "addq_8_ai", "ADDQ", Size::Byte, Decoder::QuickEa, Validator::Always));
    v.push(op_entry(MASK_OUT_X_Y, 0x5018, "addq_8_pi", "ADDQ", Size::Byte, Decoder::QuickEa, Validator::Always));
    v.push(op_entry(MASK_OUT_X_Y, 0x5020, "addq_8_pd", "ADDQ", Size::Byte, Decoder::QuickEa, Validator::Always));
    v.push(op_entry(MASK_OUT_X_Y, 0x5028, "addq_8_di", "ADDQ", Size::Byte, Decoder::QuickEa, Validator::Always));
    v.push(op_entry(MASK_OUT_X_Y, 0x5030, "addq_8_ix", "ADDQ", Size::Byte, Decoder::QuickEa, Validator::Always));
    v.push(op_entry(MASK_OUT_X, 0x5038, "addq_8_aw", "ADDQ", Size::Byte, Decoder::QuickEa, Validator::Always));
    v.push(op_entry(MASK_OUT_X, 0x5039, "addq_8_al", "ADDQ", Size::Byte, Decoder::QuickEa, Validator::Always));
    v.push(op_entry(MASK_OUT_X_Y, 0x5040, "addq_16_dn", "ADDQ", Size::Word, Decoder::QuickEa, Validator::Always));
    v.push(op_entry(MASK_OUT_X_Y, 0x5048, "addq_16_an", "ADDQ", Size::Word, Decoder::QuickEa, Validator::Always));
    v.push(op_entry(MASK_OUT_X_Y, 0x5050, "addq_16_ai", "ADDQ", Size::Word, Decoder::QuickEa, Validator::Always));
    v.push(op_entry(MASK_OUT_X_Y, 0x5058, "addq_16_pi", "ADDQ", Size::Word, Decoder::QuickEa, Validator::Always));
    v.push(op_entry(MASK_OUT_X_Y, 0x5060, "addq_16_pd", "ADDQ", Size::Word, Decoder::QuickEa, Validator::Always));
    v.push(op_entry(MASK_OUT_X_Y, 0x5068, "addq_16_di", "ADDQ", Size::Word, Decoder::QuickEa, Validator::Always));
    v.push(op_entry(MASK_OUT_X_Y, 0x5070, "addq_16_ix", "ADDQ", Size::Word, Decoder::QuickEa, Validator::Always));
    v.push(op_entry(MASK_OUT_X, 0x5078, "addq_16_aw", "ADDQ", Size::Word, Decoder::QuickEa, Validator::Always));
    v.push(op_entry(MASK_OUT_X, 0x5079, "addq_16_al", "ADDQ", Size::Word, Decoder::QuickEa, Validator::Always));
    v.push(op_entry(MASK_OUT_X_Y, 0x5080, "addq_32_dn", "ADDQ", Size::Long, Decoder::QuickEa, Validator::Always));
    v.push(op_entry(MASK_OUT_X_Y, 0x5088, "addq_32_an", "ADDQ", Size::Long, Decoder::QuickEa, Validator::Always));
    v.push(op_entry(MASK_OUT_X_Y, 0x5090, "addq_32_ai", "ADDQ", Size::Long, Decoder::QuickEa, Validator::Always));
    proof {
        assert(v@ =~= v0 + rules_03());
    }
}

/// Rules addq_32_pi through and_16_er_ai.
pub open spec fn rules_04() -> Seq<OpcodeHandler> {
    seq![
        spec_op_entry(MASK_OUT_X_Y, 0x5098, "addq_32_pi", "ADDQ", Size::Long, Decoder::QuickEa, Validator::Always),
        spec_op_entry(MASK_OUT_X_Y, 0x50a0, "addq_32_pd", "ADDQ", Size::Long, Decoder::QuickEa, Validator::Always),
        spec_op_entry(MASK_OUT_X_Y, 0x50a8, "addq_32_di", "ADDQ", Size::Long, Decoder::QuickEa, Validator::Always),
        spec_op_entry(MASK_OUT_X_Y, 0x50b0, "addq_32_ix", "ADDQ", Size::Long, Decoder::QuickEa, Validator::Always),
        spec_op_entry(MASK_OUT_X, 0x50b8, "addq_32_aw", "ADDQ", Size::Long, Decoder::QuickEa, Validator::Always),
        spec_op_entry(MASK_OUT_X, 0x50b9, "addq_32_al", "ADDQ", Size::Long, Decoder::QuickEa, Validator::Always),
        spec_op_entry(MASK_OUT_X_Y, 0xd100, "addx_8_rr", "ADDX", Size::Byte, Decoder::DyDx, Validator::Always),
        spec_op_entry(MASK_OUT_X_Y, 0xd108, "addx_8_mm", "ADDX", Size::Byte, Decoder::PdPd, Validator::Always),
        spec_op_entry(MASK_OUT_X_Y, 0xd140, "addx_16_rr", "ADDX", Size::Word, Decoder::DyDx, Validator::Always),
        spec_op_entry(MASK_OUT_X_Y, 0xd148, "addx_16_mm", "ADDX", Size::Word, Decoder::PdPd, Validator::Always),
        spec_op_entry(MASK_OUT_X_Y, 0xd180, "addx_32_rr", "ADDX", Size::Long, Decoder::DyDx, Validator::Always),
        spec_op_entry(MASK_OUT_X_Y, 0xd188, "addx_32_mm", "ADDX", Size::Long, Decoder::PdPd, Validator::Always),
        spec_op_entry(MASK_OUT_X_Y, 0xc000, "and_8_er_dn", "AND", Size::Byte, Decoder::EaDx, Validator::Always),
        spec_op_entry(MASK_OUT_X_Y, 0xc010, "and_8_er_ai", "AND", Size::Byte, Decoder::EaDx, Validator::Always),
        spec_op_entry(MASK_OUT_X_Y, 0xc018, "and_8_er_pi", "AND", Size::Byte, Decoder::EaDx, Validator::Always),
        spec_op_entry(MASK_OUT_X_Y, 0xc020, "and_8_er_pd", "AND", Size::Byte, Decoder::EaDx, Validator::Always),
        spec_op_entry(MASK_OUT_X_Y, 0xc028, "and_8_er_di", "AND", Size::Byte, Decoder::EaDx, Validator::Always),
        spec_op_entry(MASK_OUT_X_Y, 0xc030, "and_8_er_ix", "AND", Size::Byte, Decoder::EaDx, Validator::Always),
        spec_op_entry(MASK_OUT_X, 0xc038, "and_8_er_aw", "AND", Size::Byte, Decoder::EaDx, Validator::Always),
        spec_op_entry(MASK_OUT_X, 0xc039, "and_8_er_al", "AND", Size::Byte, Decoder::EaDx, Validator::Always),
        spec_op_entry(MASK_OUT_X, 0xc03a, "and_8_er_pcdi", "AND", Size::Byte, Decoder::EaDx, Validator::Always),
        spec_op_entry(MASK_OUT_X, 0xc03b, "and_8_er_pcix", "AND", Size::Byte, Decoder::EaDx, Validator::Always),
        spec_op_entry(MASK_OUT_X, 0xc03c, "and_8_er_imm", "AND", Size::Byte, Decoder::EaDx, Validator::Always),
        spec_op_entry(MASK_OUT_X_Y, 0xc110, "and_8_re_ai", "AND", Size::Byte, Decoder::DxEa, Validator::Always),
        spec_op_entry(MASK_OUT_X_Y, 0xc118, "and_8_re_pi", "AND", Size::Byte, Decoder::DxEa, Validator::Always),
        spec_op_entry(MASK_OUT_X_Y, 0xc120, "and_8_re_pd", "AND", Size::Byte, Decoder::DxEa, Validator::Always),
        spec_op_entry(MASK_OUT_X_Y, 0xc128, "and_8_re_di", "AND", Size::Byte, Decoder::DxEa, Validator::Always),
        spec_op_entry(MASK_OUT_X_Y, 0xc130, "and_8_re_ix", "AND", Size::Byte, Decoder::DxEa, Validator::Always),
        spec_op_entry(MASK_OUT_X, 0xc138, "and_8_re_aw", "AND", Size::Byte, Decoder::DxEa, Validator::Always),
        spec_op_entry(MASK_OUT_X, 0xc139, "and_8_re_al", "AND", Size::Byte, Decoder::DxEa, Validator::Always),
        spec_op_entry(MASK_OUT_X_Y, 0xc040, "and_16_er_dn", "AND", Size::Word, Decoder::EaDx, Validator::Always),
        spec_op_entry(MASK_OUT_X_Y, 0xc050, "and_16_er_ai", "AND", Size::Word, Decoder::EaDx, Validator::Always),
    ]
}

fn push_rules_04(v: &mut Vec<OpcodeHandler>)
    ensures
        final(v)@ == old(v)@ + rules_04(),
        forall|i: int|
            old(v)@.len() <= i < final(v)@.len() ==> rule_wf(#[trigger] final(v)@[i])
                && rule_decodable(final(v)@[i]),
{
    let ghost v0 = v@;
    v.push(op_entry(MASK_OUT_X_Y, 0x5098, "addq_32_pi", "ADDQ", Size::Long, Decoder::QuickEa, Validator::Always));
    v.push(op_entry(MASK_OUT_X_Y, 0x50a0, "addq_32_pd", "ADDQ", Size::Long, Decoder::QuickEa, Validator::Always));
    v.push(op_entry(MASK_OUT_X_Y, 0x50a8, "addq_32_di", "ADDQ", Size::Long, Decoder::QuickEa, Validator::Always));
    v.push(op_entry(MASK_OUT_X_Y, 0x50b0, "addq_32_ix", "ADDQ", Size::Long, Decoder::QuickEa, Validator::Always));
    v.push(op_entry(MASK_OUT_X, 0x50b8, "addq_32_aw", "ADDQ", Size::Long, Decoder::QuickEa, Validator::Always));
    v.push(op_entry(MASK_OUT_X, 0x50b9, "addq_32_al", "ADDQ", Size::Long, Decoder::QuickEa, Validator::Always));
    v.push(op_entry(MASK_OUT_X_Y, 0xd100, "addx_8_rr", "ADDX", Size::Byte, Decoder::DyDx, Validator::Always));
    v.push(op_entry(MASK_OUT_X_Y, 0xd108, "addx_8_mm", "ADDX", Size::Byte, Decoder::PdPd, Validator::Always));
    v.push(op_entry(MASK_OUT_X_Y, 0xd140, "addx_16_rr", "ADDX", Size::Word, Decoder::DyDx, Validator::Always));
    v.push(op_entry(MASK_OUT_X_Y, 0xd148, "addx_16_mm", "ADDX", Size::Word, Decoder::PdPd, Validator::Always));
    v.push(op_entry(MASK_OUT_X_Y, 0xd180, "addx_32_rr", "ADDX", Size::Long, Decoder::DyDx, Validator::Always));
    v.push(op_entry(MASK_OUT_X_Y, 0xd188, "addx_32_mm", "ADDX", Size::Long, Decoder::PdPd, Validator::Always));
    v.push(op_entry(MASK_OUT_X_Y, 0xc000, "and_8_er_dn", "AND", Size::Byte, Decoder::EaDx, Validator::Always));
    v.push(op_entry(MASK_OUT_X_Y, 0xc010, "and_8_er_ai", "AND", Size::Byte, Decoder::EaDx, Validator::Always));
    v.push(op_entry(MASK_OUT_X_Y, 0xc018, "and_8_er_pi", "AND", Size::Byte, Decoder::EaDx, Validator::Always));
    v.push(op_entry(MASK_OUT_X_Y, 0xc020, "and_8_er_pd", "AND", Size::Byte, Decoder::EaDx, Validator::Always));
    v.push(op_entry(MASK_OUT_X_Y, 0xc028, "and_8_er_di", "AND", Size::Byte, Decoder::EaDx, Validator::Always));
    v.push(op_entry(MASK_OUT_X_Y, 0xc030, "and_8_er_ix", "AND", Size::Byte, Decoder::EaDx, Validator::Always));
    v.push(op_entry(MASK_OUT_X, 0xc038, "and_8_er_aw", "AND", Size::Byte, Decoder::EaDx, Validator::Always));
    v.push(op_entry(MASK_OUT_X, 0xc039, "and_8_er_al", "AND", Size::Byte, Decoder::EaDx, Validator::Always));
    v.push(op_entry(MASK_OUT_X, 0xc03a, "and_8_er_pcdi", "AND", Size::Byte, Decoder::EaDx, Validator::Always));
    v.push(op_entry(MASK_OUT_X, 0xc03b, "and_8_er_pcix", "AND", Size::Byte, Decoder::EaDx, Validator::Always));
    v.push(op_entry(MASK_OUT_X, 0xc03c, "and_8_er_imm", "AND", Size::Byte, Decoder::EaDx, Validator::Always));
    v.push(op_entry(MASK_OUT_X_Y, 0xc110, "and_8_re_ai", "AND", Size::Byte, Decoder::DxEa, Validator::Always));
    v.push(op_entry(MASK_OUT_X_Y, 0xc118, "and_8_re_pi", "AND", Size::Byte, Decoder::DxEa, Validator::Always));
    v.push(op_entry(MASK_OUT_X_Y, 0xc120, "and_8_re_pd", "AND", Size::Byte, Decoder::DxEa, Validator::Always));
    v.push(op_entry(MASK_OUT_X_Y, 0xc128, "and_8_re_di", "AND", Size::Byte, Decoder::DxEa, Validator::Always));
    v.push(op_entry(MASK_OUT_X_Y, 0xc130, "and_8_re_ix", "AND", Size::Byte, Decoder::DxEa, Validator::Always));
    v.push(op_entry(MASK_OUT_X, 0xc138, "and_8_re_aw", "AND", Size::Byte, Decoder::DxEa, Validator::Always));
    v.push(op_entry(MASK_OUT_X, 0xc139, "and_8_re_al", "AND", Size::Byte, Decoder::DxEa, Validator::Always));
    v.push(op_entry(MASK_OUT_X_Y, 0xc040, "and_16_er_dn", "AND", Size::Word, Decoder::EaDx, Validator::Always));
    v.push(op_entry(MASK_OUT_X_Y, 0xc050, "and_16_er_ai", "AND", Size::Word, Decoder::EaDx, Validator::Always));
    proof {
        assert(v@ =~= v0 + rules_04());
    }
}

/// Rules and_16_er_pi through and_32_re_ix.
pub open spec fn rules_05() -> Seq<OpcodeHandler> {
    seq![
        spec_op_entry(MASK_OUT_X_Y, 0xc058, "and_16_er_pi", "AND", Size::Word, Decoder::EaDx, Validator::Always),
        spec_op_entry(MASK_OUT_X_Y, 0xc060, "and_16_er_pd", "AND", Size::Word, Decoder::EaDx, Validator::Always),
        spec_op_entry(MASK_OUT_X_Y, 0xc068, "and_16_er_di", "AND", Size::Word, Decoder::EaDx, Validator::Always),
        spec_op_entry(MASK_OUT_X_Y, 0xc070, "and_16_er_ix", "AND", Size::Word, Decoder::EaDx, Validator::Always),
        spec_op_entry(MASK_OUT_X, 0xc078, "and_16_er_aw", "AND", Size::Word, Decoder::EaDx, Validator::Always),
        spec_op_entry(MASK_OUT_X, 0xc079, "and_16_er_al", "AND", Size::Word, Decoder::EaDx, Validator::Always),
        spec_op_entry(MASK_OUT_X, 0xc07a, "and_16_er_pcdi", "AND", Size::Word, Decoder::EaDx, Validator::Always),
        spec_op_entry(MASK_OUT_X, 0xc07b, "and_16_er_pcix", "AND", Size::Word, Decoder::EaDx, Validator::Always),
        spec_op_entry(MASK_OUT_X, 0xc07c, "and_16_er_imm", "AND", Size::Word, Decoder::EaDx, Validator::Always),
        spec_op_entry(MASK_OUT_X_Y, 0xc150, "and_16_re_ai", "AND", Size::Word, Decoder::DxEa, Validator::Always),
        spec_op_entry(MASK_OUT_X_Y, 0xc158, "and_16_re_pi", "AND", Size::Word, Decoder::DxEa, Validator::Always),
        spec_op_entry(MASK_OUT_X_Y, 0xc160, "and_16_re_pd", "AND", Size::Word, Decoder::DxEa, Validator::Always),
        spec_op_entry(MASK_OUT_X_Y, 0xc168, "and_16_re_di", "AND", Size::Word, Decoder::DxEa, Validator::Always),
        spec_op_entry(MASK_OUT_X_Y, 0xc170, "and_16_re_ix", "AND", Size::Word, Decoder::DxEa, Validator::Always),
        spec_op_entry(MASK_OUT_X, 0xc178, "and_16_re_aw", "AND", Size::Word, Decoder::DxEa, Validator::Always),
        spec_op_entry(MASK_OUT_X, 0xc179, "and_16_re_al", "AND", Size::Word, Decoder::DxEa, Validator::Always),
        spec_op_entry(MASK_OUT_X_Y, 0xc080, "and_32_er_dn", "AND", Size::Long, Decoder::EaDx, Validator::Always),
        spec_op_entry(MASK_OUT_X_Y, 0xc090, "and_32_er_ai", "AND", Size::Long, Decoder::EaDx, Validator::Always),
        spec_op_entry(MASK_OUT_X_Y, 0xc098, "and_32_er_pi", "AND", Size::Long, Decoder::EaDx, Validator::Always),
        spec_op_entry(MASK_OUT_X_Y, 0xc0a0, "and_32_er_pd", "AND", Size::Long, Decoder::EaDx, Validator::Always),
        spec_op_entry(MASK_OUT_X_Y, 0xc0a8, "and_32_er_di", "AND", Size::Long, Decoder::EaDx, Validator::Always),
        spec_op_entry(MASK_OUT_X_Y, 0xc0b0, "and_32_er_ix", "AND", Size::Long, Decoder::EaDx, Validator::Always),
        spec_op_entry(MASK_OUT_X, 0xc0b8, "and_32_er_aw", "AND", Size::Long, Decoder::EaDx, Validator::Always),
        spec_op_entry(MASK_OUT_X, 0xc0b9, "and_32_er_al", "AND", Size::Long, Decoder::EaDx, Validator::Always),
        spec_op_entry(MASK_OUT_X, 0xc0ba, "and_32_er_pcdi", "AND", Size::Long, Decoder::EaDx, Validator::Always),
        spec_op_entry(MASK_OUT_X, 0xc0bb, "and_32_er_pcix", "AND", Size::Long, Decoder::EaDx, Validator::Always),
        spec_op_entry(MASK_OUT_X, 0xc0bc, "and_32_er_imm", "AND", Size::Long, Decoder::EaDx, Validator::Always),
        spec_op_entry(MASK_OUT_X_Y, 0xc190, "and_32_re_ai", "AND", Size::Long, Decoder::DxEa, Validator::Always),
        spec_op_entry(MASK_OUT_X_Y, 0xc198, "and_32_re_pi", "AND", Size::Long, Decoder::DxEa, Validator::Always),
        spec_op_entry(MASK_OUT_X_Y, 0xc1a0, "and_32_re_pd", "AND", Size::Long, Decoder::DxEa, Validator::Always),
        spec_op_entry(MASK_OUT_X_Y, 0xc1a8, "and_32_re_di", "AND", Size::Long, Decoder::DxEa, Validator::Always),
        spec_op_entry(MASK_OUT_X_Y, 0xc1b0, "and_32_re_ix", "AND", Size::Long, Decoder::DxEa, Validator::Always),
    ]
}

fn push_rules_05(v: &mut Vec<OpcodeHandler>)
    ensures
        final(v)@ == old(v)@ + rules_05(),
        forall|i: int|
            old(v)@.len() <= i < final(v)@.len() ==> rule_wf(#[trigger] final(v)@[i])
                && rule_decodable(final(v)@[i]),
{
    let ghost v0 = v@;
    v.push(op_entry(MASK_OUT_X_Y, 0xc058, "and_16_er_pi", "AND", Size::Word, Decoder::EaDx, Validator::Always));
    v.push(op_entry(MASK_OUT_X_Y, 0xc060, "and_16_er_pd", "AND", Size::Word, Decoder::EaDx, Validator::Always));
    v.push(op_entry(MASK_OUT_X_Y, 0xc068, "and_16_er_di", "AND", Size::Word, Decoder::EaDx, Validator::Always));
    v.push(op_entry(MASK_OUT_X_Y, 0xc070, "and_16_er_ix", "AND", Size::Word, Decoder::EaDx, Validator::Always));
    v.push(op_entry(MASK_OUT_X, 0xc078, "and_16_er_aw", "AND", Size::Word, Decoder::EaDx, Validator::Always));
    v.push(op_entry(MASK_OUT_X, 0xc079, "and_16_er_al", "AND", Size::Word, Decoder::EaDx, Validator::Always));
    v.push(op_entry(MASK_OUT_X, 0xc07a, "and_16_er_pcdi", "AND", Size::Word, Decoder::EaDx, Validator::Always));
    v.push(op_entry(MASK_OUT_X, 0xc07b, "and_16_er_pcix", "AND", Size::Word, Decoder::EaDx, Validator::Always));
    v.push(op_entry(MASK_OUT_X, 0xc07c, "and_16_er_imm", "AND", Size::Word, Decoder::EaDx, Validator::Always));
    v.push(op_entry(MASK_OUT_X_Y, 0xc150, "and_16_re_ai", "AND", Size::Word, Decoder::DxEa, Validator::Always));
    v.push(op_entry(MASK_OUT_X_Y, 0xc158, "and_16_re_pi", "AND", Size::Word, Decoder::DxEa, Validator::Always));
    v.push(op_entry(MASK_OUT_X_Y, 0xc160, "and_16_re_pd", "AND", Size::Word, Decoder::DxEa, Validator::Always));
    v.push(op_entry(MASK_OUT_X_Y, 0xc168, "and_16_re_di", "AND", Size::Word, Decoder::DxEa, Validator::Always));
    v.push(op_entry(MASK_OUT_X_Y, 0xc170, "and_16_re_ix", "AND", Size::Word, Decoder::DxEa, Validator::Always));
    v.push(op_entry(MASK_OUT_X, 0xc178, "and_16_re_aw", "AND", Size::Word, Decoder::DxEa, Validator::Always));
    v.push(op_entry(MASK_OUT_X, 0xc179, "and_16_re_al", "AND", Size::Word, Decoder::DxEa, Validator::Always));
    v.push(op_entry(MASK_OUT_X_Y, 0xc080, "and_32_er_dn", "AND", Size::Long, Decoder::EaDx, Validator::Always));
    v.push(op_entry(MASK_OUT_X_Y, 0xc090, "and_32_er_ai", "AND", Size::Long, Decoder::EaDx, Validator::Always));
    v.push(op_entry(MASK_OUT_X_Y, 0xc098, "and_32_er_pi", "AND", Size::Long, Decoder::EaDx, Validator::Always));
    v.push(op_entry(MASK_OUT_X_Y, 0xc0a0, "and_32_er_pd", "AND", Size::Long, Decoder::EaDx, Validator::Always));
    v.push(op_entry(MASK_OUT_X_Y, 0xc0a8, "and_32_er_di", "AND", Size::Long, Decoder::EaDx, Validator::Always));
    v.push(op_entry(MASK_OUT_X_Y, 0xc0b0, "and_32_er_ix", "AND", Size::Long, Decoder::EaDx, Validator::Always));
    v.push(op_entry(MASK_OUT_X, 0xc0b8, "and_32_er_aw", "AND", Size::Long, Decoder::EaDx, Validator::Always));
    v.push(op_entry(MASK_OUT_X, 0xc0b9, "and_32_er_al", "AND", Size::Long, Decoder::EaDx, Validator::Always));
    v.push(op_entry(MASK_OUT_X, 0xc0ba, "and_32_er_pcdi", "AND", Size::Long, Decoder::EaDx, Validator::Always));
    v.push(op_entry(MASK_OUT_X, 0xc0bb, "and_32_er_pcix", "AND", Size::Long, Decoder::EaDx, Validator::Always));
    v.push(op_entry(MASK_OUT_X, 0xc0bc, "and_32_er_imm", "AND", Size::Long, Decoder::EaDx, Validator::Always));
    v.push(op_entry(MASK_OUT_X_Y, 0xc190, "and_32_re_ai", "AND", Size::Long, Decoder::DxEa, Validator::Always));
    v.push(op_entry(MASK_OUT_X_Y, 0xc198, "and_32_re_pi", "AND", Size::Long, Decoder::DxEa, Validator::Always));
    v.push(op_entry(MASK_OUT_X_Y, 0xc1a0, "and_32_re_pd", "AND", Size::Long, Decoder::DxEa, Validator::Always));
    v.push(op_entry(MASK_OUT_X_Y, 0xc1a8, "and_32_re_di", "AND", Size::Long, Decoder::DxEa, Validator::Always));
    v.push(op_entry(MASK_OUT_X_Y, 0xc1b0, "and_32_re_ix", "AND", Size::Long, Decoder::DxEa, Validator::Always));
    proof {
        assert(v@ =~= v0 + rules_05());
    }
}

/// Rules and_32_re_aw through asl_16_s.
pub open spec fn rules_06() -> Seq<OpcodeHandler> {
    seq![
        spec_op_entry(MASK_OUT_X, 0xc1b8, "and_32_re_aw", "AND", Size::Long, Decoder::DxEa, Validator::Always),
        spec_op_entry(MASK_OUT_X, 0xc1b9, "and_32_re_al", "AND", Size::Long, Decoder::DxEa, Validator::Always),
        spec_op_entry(MASK_OUT_Y, 0x0200, "andi_8_dn", "ANDI", Size::Byte, Decoder::ImmEa, Validator::Always),
        spec_op_entry(MASK_OUT_Y, 0x0210, "andi_8_ai", "ANDI", Size::Byte, Decoder::ImmEa, Validator::Always),
        spec_op_entry(MASK_OUT_Y, 0x0218, "andi_8_pi", "ANDI", Size::Byte, Decoder::ImmEa, Validator::Always),
        spec_op_entry(MASK_OUT_Y, 0x0220, "andi_8_pd", "ANDI", Size::Byte, Decoder::ImmEa, Validator::Always),
        spec_op_entry(MASK_OUT_Y, 0x0228, "andi_8_di", "ANDI", Size::Byte, Decoder::ImmEa, Validator::Always),
        spec_op_entry(MASK_OUT_Y, 0x0230, "andi_8_ix", "ANDI", Size::Byte, Decoder::ImmEa, Validator::Always),
        spec_op_entry(MASK_EXACT, 0x0238, "andi_8_aw", "ANDI", Size::Byte, Decoder::ImmEa, Validator::Always),
        spec_op_entry(MASK_EXACT, 0x0239, "andi_8_al", "ANDI", Size::Byte, Decoder::ImmEa, Validator::Always),
        spec_op_entry(MASK_OUT_Y, 0x0240, "andi_16_dn", "ANDI", Size::Word, Decoder::ImmEa, Validator::Always),
        spec_op_entry(MASK_OUT_Y, 0x0250, "andi_16_ai", "ANDI", Size::Word, Decoder::ImmEa, Validator::Always),
        spec_op_entry(MASK_OUT_Y, 0x0258, "andi_16_pi", "ANDI", Size::Word, Decoder::ImmEa, Validator::Always),
        spec_op_entry(MASK_OUT_Y, 0x0260, "andi_16_pd", "ANDI", Size::Word, Decoder::ImmEa, Validator::Always),
        spec_op_entry(MASK_OUT_Y, 0x0268, "andi_16_di", "ANDI", Size::Word, Decoder::ImmEa, Validator::Always),
        spec_op_entry(MASK_OUT_Y, 0x0270, "andi_16_ix", "ANDI", Size::Word, Decoder::ImmEa, Validator::Always),
        spec_op_entry(MASK_EXACT, 0x0278, "andi_16_aw", "ANDI", Size::Word, Decoder::ImmEa, Validator::Always),
        spec_op_entry(MASK_EXACT, 0x0279, "andi_16_al", "ANDI", Size::Word, Decoder::ImmEa, Validator::Always),
        spec_op_entry(MASK_OUT_Y, 0x0280, "andi_32_dn", "ANDI", Size::Long, Decoder::ImmEa, Validator::Always),
        spec_op_entry(MASK_OUT_Y, 0x0290, "andi_32_ai", "ANDI", Size::Long, Decoder::ImmEa, Validator::Always),
        spec_op_entry(MASK_OUT_Y, 0x0298, "andi_32_pi", "ANDI", Size::Long, Decoder::ImmEa, Validator::Always),
        spec_op_entry(MASK_OUT_Y, 0x02a0, "andi_32_pd", "ANDI", Size::Long, Decoder::ImmEa, Validator::Always),
        spec_op_entry(MASK_OUT_Y, 0x02a8, "andi_32_di", "ANDI", Size::Long, Decoder::ImmEa, Validator::Always),
        spec_op_entry(MASK_OUT_Y, 0x02b0, "andi_32_ix", "ANDI", Size::Long, Decoder::ImmEa, Validator::Always),
        spec_op_entry(MASK_EXACT, 0x02b8, "andi_32_aw", "ANDI", Size::Long, Decoder::ImmEa, Validator::Always),
        spec_op_entry(MASK_EXACT, 0x02b9, "andi_32_al", "ANDI", Size::Long, Decoder::ImmEa, Validator::Always),
        spec_op_entry(MASK_EXACT, 0x023c, "andi_8_toc", "ANDI", Size::Byte, Decoder::ImmCcr, Validator::Always),
        spec_op_entry(MASK_EXACT, 0x027c, "andi_16_tos", "ANDI", Size::Word, Decoder::ImmSr, Validator::Always),
        spec_op_entry(MASK_OUT_X_Y, 0xe120, "asl_8_r", "ASL", Size::Byte, Decoder::ShiftReg, Validator::Always),
        spec_op_entry(MASK_OUT_X_Y, 0xe100, "asl_8_s", "ASL", Size::Byte, Decoder::ShiftImm, Validator::Always),
        spec_op_entry(MASK_OUT_X_Y, 0xe160, "asl_16_r", "ASL", Size::Word, Decoder::ShiftReg, Validator::Always),
        spec_op_entry(MASK_OUT_X_Y, 0xe140, "asl_16_s", "ASL", Size::Word, Decoder::ShiftImm, Validator::Always),
    ]
}

fn push_rules_06(v: &mut Vec<OpcodeHandler>)
    ensures
        final(v)@ == old(v)@ + rules_06(),
        forall|i: int|
            old(v)@.len() <= i < final(v)@.len() ==> rule_wf(#[trigger] final(v)@[i])
                && rule_decodable(final(v)@[i]),
{
    let ghost v0 = v@;
    v.push(op_entry(MASK_OUT_X, 0xc1b8, "and_32_re_aw", "AND", Size::Long, Decoder::DxEa, Validator::Always));
    v.push(op_entry(MASK_OUT_X, 0xc1b9, "and_32_re_al", "AND", Size::Long, Decoder::DxEa, Validator::Always));
    v.push(op_entry(MASK_OUT_Y, 0x0200, "andi_8_dn", "ANDI", Size::Byte, Decoder::ImmEa, Validator::Always));
    v.push(op_entry(MASK_OUT_Y, 0x0210, "andi_8_ai", "ANDI", Size::Byte, Decoder::ImmEa, Validator::Always));
    v.push(op_entry(MASK_OUT_Y, 0x0218, "andi_8_pi", "ANDI", Size::Byte, Decoder::ImmEa, Validator::Always));
    v.push(op_entry(MASK_OUT_Y, 0x0220, "andi_8_pd", "ANDI", Size::Byte, Decoder::ImmEa, Validator::Always));
    v.push(op_entry(MASK_OUT_Y, 0x0228, "andi_8_di", "ANDI", Size::Byte, Decoder::ImmEa, Validator::Always));
    v.push(op_entry(MASK_OUT_Y, 0x0230, "andi_8_ix", "ANDI", Size::Byte, Decoder::ImmEa, Validator::Always));
    v.push(op_entry(MASK_EXACT, 0x0238, "andi_8_aw", "ANDI", Size::Byte, Decoder::ImmEa, Validator::Always));
    v.push(op_entry(MASK_EXACT, 0x0239, "andi_8_al", "ANDI", Size::Byte, Decoder::ImmEa, Validator::Always));
    v.push(op_entry(MASK_OUT_Y, 0x0240, "andi_16_dn", "ANDI", Size::Word, Decoder::ImmEa, Validator::Always));
    v.push(op_entry(MASK_OUT_Y, 0x0250, "andi_16_ai", "ANDI", Size::Word, Decoder::ImmEa, Validator::Always));
    v.push(op_entry(MASK_OUT_Y, 0x0258, "andi_16_pi", "ANDI", Size::Word, Decoder::ImmEa, Validator::Always));
    v.push(op_entry(MASK_OUT_Y, 0x0260, "andi_16_pd", "ANDI", Size::Word, Decoder::ImmEa, Validator::Always));
    v.push(op_entry(MASK_OUT_Y, 0x0268, "andi_16_di", "ANDI", Size::Word, Decoder::ImmEa, Validator::Always));
    v.push(op_entry(MASK_OUT_Y, 0x0270, "andi_16_ix", "ANDI", Size::Word, Decoder::ImmEa, Validator::Always));
    v.push(op_entry(MASK_EXACT, 0x0278, "andi_16_aw", "ANDI", Size::Word, Decoder::ImmEa, Validator::Always));
    v.push(op_entry(MASK_EXACT, 0x0279, "andi_16_al", "ANDI", Size::Word, Decoder::ImmEa, Validator::Always));
    v.push(op_entry(MASK_OUT_Y, 0x0280, "andi_32_dn", "ANDI", Size::Long, Decoder::ImmEa, Validator::Always));
    v.push(op_entry(MASK_OUT_Y, 0x0290, "andi_32_ai", "ANDI", Size::Long, Decoder::ImmEa, Validator::Always));
    v.push(op_entry(MASK_OUT_Y, 0x0298, "andi_32_pi", "ANDI", Size::Long, Decoder::ImmEa, Validator::Always));
    v.push(op_entry(MASK_OUT_Y, 0x02a0, "andi_32_pd", "ANDI", Size::Long, Decoder::ImmEa, Validator::Always));
    v.push(op_entry(MASK_OUT_Y, 0x02a8, "andi_32_di", "ANDI", Size::Long, Decoder::ImmEa, Validator::Always));
    v.push(op_entry(MASK_OUT_Y, 0x02b0, "andi_32_ix", "ANDI", Size::Long, Decoder::ImmEa, Validator::Always));
    v.push(op_entry(MASK_EXACT, 0x02b8, "andi_32_aw", "ANDI", Size::Long, Decoder::ImmEa, Validator::Always));
    v.push(op_entry(MASK_EXACT, 0x02b9, "andi_32_al", "ANDI", Size::Long, Decoder::ImmEa, Validator::Always));
    v.push(op_entry(MASK_EXACT, 0x023c, "andi_8_toc", "ANDI", Size::Byte, Decoder::ImmCcr, Validator::Always));
    v.push(op_entry(MASK_EXACT, 0x027c, "andi_16_tos", "ANDI", Size::Word, Decoder::ImmSr, Validator::Always));
    v.push(op_entry(MASK_OUT_X_Y, 0xe120, "asl_8_r", "ASL", Size::Byte, Decoder::ShiftReg, Validator::Always));
    v.push(op_entry(MASK_OUT_X_Y, 0xe100, "asl_8_s", "ASL", Size::Byte, Decoder::ShiftImm, Validator::Always));
    v.push(op_entry(MASK_OUT_X_Y, 0xe160, "asl_16_r", "ASL", Size::Word, Decoder::ShiftReg, Validator::Always));
    v.push(op_entry(MASK_OUT_X_Y, 0xe140, "asl_16_s", "ASL", Size::Word, Decoder::ShiftImm, Validator::Always));
    proof {
        assert(v@ =~= v0 + rules_06());
    }
}

/// Rules asl_32_r through bmi_8.
pub open spec fn rules_07() -> Seq<OpcodeHandler> {
    seq![
        spec_op_entry(MASK_OUT_X_Y, 0xe1a0, "asl_32_r", "ASL", Size::Long, Decoder::ShiftReg, Validator::Always),
        spec_op_entry(MASK_OUT_X_Y, 0xe180, "asl_32_s", "ASL", Size::Long, Decoder::ShiftImm, Validator::Always),
        spec_op_entry(MASK_OUT_X_Y, 0xe020, "asr_8_r", "ASR", Size::Byte, Decoder::ShiftReg, Validator::Always),
        spec_op_entry(MASK_OUT_X_Y, 0xe000, "asr_8_s", "ASR", Size::Byte, Decoder::ShiftImm, Validator::Always),
        spec_op_entry(MASK_OUT_X_Y, 0xe060, "asr_16_r", "ASR", Size::Word, Decoder::ShiftReg, Validator::Always),
        spec_op_entry(MASK_OUT_X_Y, 0xe040, "asr_16_s", "ASR", Size::Word, Decoder::ShiftImm, Validator::Always),
        spec_op_entry(MASK_OUT_X_Y, 0xe0a0, "asr_32_r", "ASR", Size::Long, Decoder::ShiftReg, Validator::Always),
        spec_op_entry(MASK_OUT_X_Y, 0xe080, "asr_32_s", "ASR", Size::Long, Decoder::ShiftImm, Validator::Always),
        spec_op_entry(MASK_OUT_Y, 0xe1d0, "asl_16_ai", "ASL", Size::Word, Decoder::Ea, Validator::Always),
        spec_op_entry(MASK_OUT_Y, 0xe1d8, "asl_16_pi", "ASL", Size::Word, Decoder::Ea, Validator::Always),
        spec_op_entry(MASK_OUT_Y, 0xe1e0, "asl_16_pd", "ASL", Size::Word, Decoder::Ea, Validator::Always),
        spec_op_entry(MASK_OUT_Y, 0xe1e8, "asl_16_di", "ASL", Size::Word, Decoder::Ea, Validator::Always),
        spec_op_entry(MASK_OUT_Y, 0xe1f0, "asl_16_ix", "ASL", Size::Word, Decoder::Ea, Validator::Always),
        spec_op_entry(MASK_EXACT, 0xe1f8, "asl_16_aw", "ASL", Size::Word, Decoder::Ea, Validator::Always),
        spec_op_entry(MASK_EXACT, 0xe1f9, "asl_16_al", "ASL", Size::Word, Decoder::Ea, Validator::Always),
        spec_op_entry(MASK_OUT_Y, 0xe0d0, "asr_16_ai", "ASR", Size::Word, Decoder::Ea, Validator::Always),
        spec_op_entry(MASK_OUT_Y, 0xe0d8, "asr_16_pi", "ASR", Size::Word, Decoder::Ea, Validator::Always),
        spec_op_entry(MASK_OUT_Y, 0xe0e0, "asr_16_pd", "ASR", Size::Word, Decoder::Ea, Validator::Always),
        spec_op_entry(MASK_OUT_Y, 0xe0e8, "asr_16_di", "ASR", Size::Word, Decoder::Ea, Validator::Always),
        spec_op_entry(MASK_OUT_Y, 0xe0f0, "asr_16_ix", "ASR", Size::Word, Decoder::Ea, Validator::Always),
        spec_op_entry(MASK_EXACT, 0xe0f8, "asr_16_aw", "ASR", Size::Word, Decoder::Ea, Validator::Always),
        spec_op_entry(MASK_EXACT, 0xe0f9, "asr_16_al", "ASR", Size::Word, Decoder::Ea, Validator::Always),
        spec_op_entry(MASK_LOBYTE, 0x6200, "bhi_8", "BHI", Size::Byte, Decoder::Branch, Validator::ValidByteDisplacement),
        spec_op_entry(MASK_LOBYTE, 0x6300, "bls_8", "BLS", Size::Byte, Decoder::Branch, Validator::ValidByteDisplacement),
        spec_op_entry(MASK_LOBYTE, 0x6400, "bcc_8", "BCC", Size::Byte, Decoder::Branch, Validator::ValidByteDisplacement),
        spec_op_entry(MASK_LOBYTE, 0x6500, "bcs_8", "BCS", Size::Byte, Decoder::Branch, Validator::ValidByteDisplacement),
        spec_op_entry(MASK_LOBYTE, 0x6600, "bne_8", "BNE", Size::Byte, Decoder::Branch, Validator::ValidByteDisplacement),
        spec_op_entry(MASK_LOBYTE, 0x6700, "beq_8", "BEQ", Size::Byte, Decoder::Branch, Validator::ValidByteDisplacement),
        spec_op_entry(MASK_LOBYTE, 0x6800, "bvc_8", "BVC", Size::Byte, Decoder::Branch, Validator::ValidByteDisplacement),
        spec_op_entry(MASK_LOBYTE, 0x6900, "bvs_8", "BVS", Size::Byte, Decoder::Branch, Validator::ValidByteDisplacement),
        spec_op_entry(MASK_LOBYTE, 0x6a00, "bpl_8", "BPL", Size::Byte, Decoder::Branch, Validator::ValidByteDisplacement),
        spec_op_entry(MASK_LOBYTE, 0x6b00, "bmi_8", "BMI", Size::Byte, Decoder::Branch, Validator::ValidByteDisplacement),
    ]
}

fn push_rules_07(v: &mut Vec<OpcodeHandler>)
    ensures
        final(v)@ == old(v)@ + rules_07(),
        forall|i: int|
            old(v)@.len() <= i < final(v)@.len() ==> rule_wf(#[trigger] final(v)@[i])
                && rule_decodable(final(v)@[i]),
{
    let ghost v0 = v@;
    v.push(op_entry(MASK_OUT_X_Y, 0xe1a0, "asl_32_r", "ASL", Size::Long, Decoder::ShiftReg, Validator::Always));
    v.push(op_entry(MASK_OUT_X_Y, 0xe180, "asl_32_s", "ASL", Size::Long, Decoder::ShiftImm, Validator::Always));
    v.push(op_entry(MASK_OUT_X_Y, 0xe020, "asr_8_r", "ASR", Size::Byte, Decoder::ShiftReg, Validator::Always));
    v.push(op_entry(MASK_OUT_X_Y, 0xe000, "asr_8_s", "ASR", Size::Byte, Decoder::ShiftImm, Validator::Always));
    v.push(op_entry(MASK_OUT_X_Y, 0xe060, "asr_16_r", "ASR", Size::Word, Decoder::ShiftReg, Validator::Always));
    v.push(op_entry(MASK_OUT_X_Y, 0xe040, "asr_16_s", "ASR", Size::Word, Decoder::ShiftImm, Validator::Always));
    v.push(op_entry(MASK_OUT_X_Y, 0xe0a0, "asr_32_r", "ASR", Size::Long, Decoder::ShiftReg, Validator::Always));
    v.push(op_entry(MASK_OUT_X_Y, 0xe080, "asr_32_s", "ASR", Size::Long, Decoder::ShiftImm, Validator::Always));
    v.push(op_entry(MASK_OUT_Y, 0xe1d0, "asl_16_ai", "ASL", Size::Word, Decoder::Ea, Validator::Always));
    v.push(op_entry(MASK_OUT_Y, 0xe1d8, "asl_16_pi", "ASL", Size::Word, Decoder::Ea, Validator::Always));
    v.push(op_entry(MASK_OUT_Y, 0xe1e0, "asl_16_pd", "ASL", Size::Word, Decoder::Ea, Validator::Always));
    v.push(op_entry(MASK_OUT_Y, 0xe1e8, "asl_16_di", "ASL", Size::Word, Decoder::Ea, Validator::Always));
    v.push(op_entry(MASK_OUT_Y, 0xe1f0, "asl_16_ix", "ASL", Size::Word, Decoder::Ea, Validator::Always));
    v.push(op_entry(MASK_EXACT, 0xe1f8, "asl_16_aw", "ASL", Size::Word, Decoder::Ea, Validator::Always));
    v.push(op_entry(MASK_EXACT, 0xe1f9, "asl_16_al", "ASL", Size::Word, Decoder::Ea, Validator::Always));
    v.push(op_entry(MASK_OUT_Y, 0xe0d0, "asr_16_ai", "ASR", Size::Word, Decoder::Ea, Validator::Always));
    v.push(op_entry(MASK_OUT_Y, 0xe0d8, "asr_16_pi", "ASR", Size::Word, Decoder::Ea, Validator::Always));
    v.push(op_entry(MASK_OUT_Y, 0xe0e0, "asr_16_pd", "ASR", Size::Word, Decoder::Ea, Validator::Always));
    v.push(op_entry(MASK_OUT_Y, 0xe0e8, "asr_16_di", "ASR", Size::Word, Decoder::Ea, Validator::Always));
    v.push(op_entry(MASK_OUT_Y, 0xe0f0, "asr_16_ix", "ASR", Size::Word, Decoder::Ea, Validator::Always));
    v.push(op_entry(MASK_EXACT, 0xe0f8, "asr_16_aw", "ASR", Size::Word, Decoder::Ea, Validator::Always));
    v.push(op_entry(MASK_EXACT, 0xe0f9, "asr_16_al", "ASR", Size::Word, Decoder::Ea, Validator::Always));
    v.push(op_entry(MASK_LOBYTE, 0x6200, "bhi_8", "BHI", Size::Byte, Decoder::Branch, Validator::ValidByteDisplacement));
    v.push(op_entry(MASK_LOBYTE, 0x6300, "bls_8", "BLS", Size::Byte, Decoder::Branch, Validator::ValidByteDisplacement));
    v.push(op_entry(MASK_LOBYTE, 0x6400, "bcc_8", "BCC", Size::Byte, Decoder::Branch, Validator::ValidByteDisplacement));
    v.push(op_entry(MASK_LOBYTE, 0x6500, "bcs_8", "BCS", Size::Byte, Decoder::Branch, Validator::ValidByteDisplacement));
    v.push(op_entry(MASK_LOBYTE, 0x6600, "bne_8", "BNE", Size::Byte, Decoder::Branch, Validator::ValidByteDisplacement));
    v.push(op_entry(MASK_LOBYTE, 0x6700, "beq_8", "BEQ", Size::Byte, Decoder::Branch, Validator::ValidByteDisplacement));
    v.push(op_entry(MASK_LOBYTE, 0x6800, "bvc_8", "BVC", Size::Byte, Decoder::Branch, Validator::ValidByteDisplacement));
    v.push(op_entry(MASK_LOBYTE, 0x6900, "bvs_8", "BVS", Size::Byte, Decoder::Branch, Validator::ValidByteDisplacement));
    v.push(op_entry(MASK_LOBYTE, 0x6a00, "bpl_8", "BPL", Size::Byte, Decoder::Branch, Validator::ValidByteDisplacement));
    v.push(op_entry(MASK_LOBYTE, 0x6b00, "bmi_8", "BMI", Size::Byte, Decoder::Branch, Validator::ValidByteDisplacement));
    proof {
        assert(v@ =~= v0 + rules_07());
    }
}

/// Rules bge_8 through illegal.
pub open spec fn rules_08() -> Seq<OpcodeHandler> {
    seq![
        spec_op_entry(MASK_LOBYTE, 0x6c00, "bge_8", "BGE", Size::Byte, Decoder::Branch, Validator::ValidByteDisplacement),
        spec_op_entry(MASK_LOBYTE, 0x6d00, "blt_8", "BLT", Size::Byte, Decoder::Branch, Validator::ValidByteDisplacement),
        spec_op_entry(MASK_LOBYTE, 0x6e00, "bgt_8", "BGT", Size::Byte, Decoder::Branch, Validator::ValidByteDisplacement),
        spec_op_entry(MASK_LOBYTE, 0x6f00, "ble_8", "BLE", Size::Byte, Decoder::Branch, Validator::ValidByteDisplacement),
        spec_op_entry(MASK_LOBYTE, 0x6000, "bra_8", "BRA", Size::Byte, Decoder::Branch, Validator::ValidByteDisplacement),
        spec_op_entry(MASK_LOBYTE, 0x6100, "bsr_8", "BSR", Size::Byte, Decoder::Branch, Validator::ValidByteDisplacement),
        spec_op_entry(MASK_EXACT, 0x6200, "bhi_16", "BHI", Size::Word, Decoder::Branch, Validator::Always),
        spec_op_entry(MASK_EXACT, 0x6300, "bls_16", "BLS", Size::Word, Decoder::Branch, Validator::Always),
        spec_op_entry(MASK_EXACT, 0x6400, "bcc_16", "BCC", Size::Word, Decoder::Branch, Validator::Always),
        spec_op_entry(MASK_EXACT, 0x6500, "bcs_16", "BCS", Size::Word, Decoder::Branch, Validator::Always),
        spec_op_entry(MASK_EXACT, 0x6600, "bne_16", "BNE", Size::Word, Decoder::Branch, Validator::Always),
        spec_op_entry(MASK_EXACT, 0x6700, "beq_16", "BEQ", Size::Word, Decoder::Branch, Validator::Always),
        spec_op_entry(MASK_EXACT, 0x6800, "bvc_16", "BVC", Size::Word, Decoder::Branch, Validator::Always),
        spec_op_entry(MASK_EXACT, 0x6900, "bvs_16", "BVS", Size::Word, Decoder::Branch, Validator::Always),
        spec_op_entry(MASK_EXACT, 0x6a00, "bpl_16", "BPL", Size::Word, Decoder::Branch, Validator::Always),
        spec_op_entry(MASK_EXACT, 0x6b00, "bmi_16", "BMI", Size::Word, Decoder::Branch, Validator::Always),
        spec_op_entry(MASK_EXACT, 0x6c00, "bge_16", "BGE", Size::Word, Decoder::Branch, Validator::Always),
        spec_op_entry(MASK_EXACT, 0x6d00, "blt_16", "BLT", Size::Word, Decoder::Branch, Validator::Always),
        spec_op_entry(MASK_EXACT, 0x6e00, "bgt_16", "BGT", Size::Word, Decoder::Branch, Validator::Always),
        spec_op_entry(MASK_EXACT, 0x6f00, "ble_16", "BLE", Size::Word, Decoder::Branch, Validator::Always),
        spec_op_entry(MASK_EXACT, 0x6000, "bra_16", "BRA", Size::Word, Decoder::Branch, Validator::Always),
        spec_op_entry(MASK_EXACT, 0x6100, "bsr_16", "BSR", Size::Word, Decoder::Branch, Validator::Always),
        spec_op_entry(MASK_EXACT, 0x62ff, "illegal", "ILLEGAL", Size::Long, Decoder::NoOperands, Validator::Never),
        spec_op_entry(MASK_EXACT, 0x63ff, "illegal", "ILLEGAL", Size::Long, Decoder::NoOperands, Validator::Never),
        spec_op_entry(MASK_EXACT, 0x64ff, "illegal", "ILLEGAL", Size::Long, Decoder::NoOperands, Validator::Never),
        spec_op_entry(MASK_EXACT, 0x65ff, "illegal", "ILLEGAL", Size::Long, Decoder::NoOperands, Validator::Never),
        spec_op_entry(MASK_EXACT, 0x66ff, "illegal", "ILLEGAL", Size::Long, Decoder::NoOperands, Validator::Never),
        spec_op_entry(MASK_EXACT, 0x67ff, "illegal", "ILLEGAL", Size::Long, Decoder::NoOperands, Validator::Never),
        spec_op_entry(MASK_EXACT, 0x68ff, "illegal", "ILLEGAL", Size::Long, Decoder::NoOperands, Validator::Never),
        spec_op_entry(MASK_EXACT, 0x69ff, "illegal", "ILLEGAL", Size::Long, Decoder::NoOperands, Validator::Never),
        spec_op_entry(MASK_EXACT, 0x6aff, "illegal", "ILLEGAL", Size::Long, Decoder::NoOperands, Validator::Never),
        spec_op_entry(MASK_EXACT, 0x6bff, "illegal", "ILLEGAL", Size::Long, Decoder::NoOperands, Validator::Never),
    ]
}

fn push_rules_08(v: &mut Vec<OpcodeHandler>)
    ensures
        final(v)@ == old(v)@ + rules_08(),
        forall|i: int|
            old(v)@.len() <= i < final(v)@.len() ==> rule_wf(#[trigger] final(v)@[i])
                && rule_decodable(final(v)@[i]),
{
    let ghost v0 = v@;
    v.push(op_entry(MASK_LOBYTE, 0x6c00, "bge_8", "BGE", Size::Byte, Decoder::Branch, Validator::ValidByteDisplacement));
    v.push(op_entry(MASK_LOBYTE, 0x6d00, "blt_8", "BLT", Size::Byte, Decoder::Branch, Validator::ValidByteDisplacement));
    v.push(op_entry(MASK_LOBYTE, 0x6e00, "bgt_8", "BGT", Size::Byte, Decoder::Branch, Validator::ValidByteDisplacement));
    v.push(op_entry(MASK_LOBYTE, 0x6f00, "ble_8", "BLE", Size::Byte, Decoder::Branch, Validator::ValidByteDisplacement));
    v.push(op_entry(MASK_LOBYTE, 0x6000, "bra_8", "BRA", Size::Byte, Decoder::Branch, Validator::ValidByteDisplacement));
    v.push(op_entry(MASK_LOBYTE, 0x6100, "bsr_8", "BSR", Size::Byte, Decoder::Branch, Validator::ValidByteDisplacement));
    v.push(op_entry(MASK_EXACT, 0x6200, "bhi_16", "BHI", Size::Word, Decoder::Branch, Validator::Always));
    v.push(op_entry(MASK_EXACT, 0x6300, "bls_16", "BLS", Size::Word, Decoder::Branch, Validator::Always));
    v.push(op_entry(MASK_EXACT, 0x6400, "bcc_16", "BCC", Size::Word, Decoder::Branch, Validator::Always));
    v.push(op_entry(MASK_EXACT, 0x6500, "bcs_16", "BCS", Size::Word, Decoder::Branch, Validator::Always));
    v.push(op_entry(MASK_EXACT, 0x6600, "bne_16", "BNE", Size::Word, Decoder::Branch, Validator::Always));
    v.push(op_entry(MASK_EXACT, 0x6700, "beq_16", "BEQ", Size::Word, Decoder::Branch, Validator::Always));
    v.push(op_entry(MASK_EXACT, 0x6800, "bvc_16", "BVC", Size::Word, Decoder::Branch, Validator::Always));
    v.push(op_entry(MASK_EXACT, 0x6900, "bvs_16", "BVS", Size::Word, Decoder::Branch, Validator::Always));
    v.push(op_entry(MASK_EXACT, 0x6a00, "bpl_16", "BPL", Size::Word, Decoder::Branch, Validator::Always));
    v.push(op_entry(MASK_EXACT, 0x6b00, "bmi_16", "BMI", Size::Word, Decoder::Branch, Validator::Always));
    v.push(op_entry(MASK_EXACT, 0x6c00, "bge_16", "BGE", Size::Word, Decoder::Branch, Validator::Always));
    v.push(op_entry(MASK_EXACT, 0x6d00, "blt_16", "BLT", Size::Word, Decoder::Branch, Validator::Always));
    v.push(op_entry(MASK_EXACT, 0x6e00, "bgt_16", "BGT", Size::Word, Decoder::Branch, Validator::Always));
    v.push(op_entry(MASK_EXACT, 0x6f00, "ble_16", "BLE", Size::Word, Decoder::Branch, Validator::Always));
    v.push(op_entry(MASK_EXACT, 0x6000, "bra_16", "BRA", Size::Word, Decoder::Branch, Validator::Always));
    v.push(op_entry(MASK_EXACT, 0x6100, "bsr_16", "BSR", Size::Word, Decoder::Branch, Validator::Always));
    v.push(op_entry(MASK_EXACT, 0x62ff, "illegal", "ILLEGAL", Size::Long, Decoder::NoOperands, Validator::Never));
    v.push(op_entry(MASK_EXACT, 0x63ff, "illegal", "ILLEGAL", Size::Long, Decoder::NoOperands, Validator::Never));
    v.push(op_entry(MASK_EXACT, 0x64ff, "illegal", "ILLEGAL", Size::Long, Decoder::NoOperands, Validator::Never));
    v.push(op_entry(MASK_EXACT, 0x65ff, "illegal", "ILLEGAL", Size::Long, Decoder::NoOperands, Validator::Never));
    v.push(op_entry(MASK_EXACT, 0x66ff, "illegal", "ILLEGAL", Size::Long, Decoder::NoOperands, Validator::Never));
    v.push(op_entry(MASK_EXACT, 0x67ff, "illegal", "ILLEGAL", Size::Long, Decoder::NoOperands, Validator::Never));
    v.push(op_entry(MASK_EXACT, 0x68ff, "illegal", "ILLEGAL", Size::Long, Decoder::NoOperands, Validator::Never));
    v.push(op_entry(MASK_EXACT, 0x69ff, "illegal", "ILLEGAL", Size::Long, Decoder::NoOperands, Validator::Never));
    v.push(op_entry(MASK_EXACT, 0x6aff, "illegal", "ILLEGAL", Size::Long, Decoder::NoOperands, Validator::Never));
    v.push(op_entry(MASK_EXACT, 0x6bff, "illegal", "ILLEGAL", Size::Long, Decoder::NoOperands, Validator::Never));
    proof {
        assert(v@ =~= v0 + rules_08());
    }
}

/// Rules illegal through bclr_8_s_ai.
pub open spec fn rules_09() -> Seq<OpcodeHandler> {
    seq![
        spec_op_entry(MASK_EXACT, 0x6cff, "illegal", "ILLEGAL", Size::Long, Decoder::NoOperands, Validator::Never),
        spec_op_entry(MASK_EXACT, 0x6dff, "illegal", "ILLEGAL", Size::Long, Decoder::NoOperands, Validator::Never),
        spec_op_entry(MASK_EXACT, 0x6eff, "illegal", "ILLEGAL", Size::Long, Decoder::NoOperands, Validator::Never),
        spec_op_entry(MASK_EXACT, 0x6fff, "illegal", "ILLEGAL", Size::Long, Decoder::NoOperands, Validator::Never),
        spec_op_entry(MASK_EXACT, 0x60ff, "illegal", "ILLEGAL", Size::Long, Decoder::NoOperands, Validator::Never),
        spec_op_entry(MASK_EXACT, 0x61ff, "illegal", "ILLEGAL", Size::Long, Decoder::NoOperands, Validator::Never),
        spec_op_entry(MASK_OUT_X_Y, 0x0140, "bchg_32_r_dn", "BCHG", Size::Long, Decoder::DxEa, Validator::Always),
        spec_op_entry(MASK_OUT_Y, 0x0840, "bchg_32_s_dn", "BCHG", Size::Long, Decoder::BitImm, Validator::Always),
        spec_op_entry(MASK_OUT_X_Y, 0x0150, "bchg_8_r_ai", "BCHG", Size::Byte, Decoder::DxEa, Validator::Always),
        spec_op_entry(MASK_OUT_X_Y, 0x0158, "bchg_8_r_pi", "BCHG", Size::Byte, Decoder::DxEa, Validator::Always),
        spec_op_entry(MASK_OUT_X_Y, 0x0160, "bchg_8_r_pd", "BCHG", Size::Byte, Decoder::DxEa, Validator::Always),
        spec_op_entry(MASK_OUT_X_Y, 0x0168, "bchg_8_r_di", "BCHG", Size::Byte, Decoder::DxEa, Validator::Always),
        spec_op_entry(MASK_OUT_X_Y, 0x0170, "bchg_8_r_ix", "BCHG", Size::Byte, Decoder::DxEa, Validator::Always),
        spec_op_entry(MASK_OUT_X, 0x0178, "bchg_8_r_aw", "BCHG", Size::Byte, Decoder::DxEa, Validator::Always),
        spec_op_entry(MASK_OUT_X, 0x0179, "bchg_8_r_al", "BCHG", Size::Byte, Decoder::DxEa, Validator::Always),
        spec_op_entry(MASK_OUT_Y, 0x0850, "bchg_8_s_ai", "BCHG", Size::Byte, Decoder::BitImm, Validator::Always),
        spec_op_entry(MASK_OUT_Y, 0x0858, "bchg_8_s_pi", "BCHG", Size::Byte, Decoder::BitImm, Validator::Always),
        spec_op_entry(MASK_OUT_Y, 0x0860, "bchg_8_s_pd", "BCHG", Size::Byte, Decoder::BitImm, Validator::Always),
        spec_op_entry(MASK_OUT_Y, 0x0868, "bchg_8_s_di", "BCHG", Size::Byte, Decoder::BitImm, Validator::Always),
        spec_op_entry(MASK_OUT_Y, 0x0870, "bchg_8_s_ix", "BCHG", Size::Byte, Decoder::BitImm, Validator::Always),
        spec_op_entry(MASK_EXACT, 0x0878, "bchg_8_s_aw", "BCHG", Size::Byte, Decoder::BitImm, Validator::Always),
        spec_op_entry(MASK_EXACT, 0x0879, "bchg_8_s_al", "BCHG", Size::Byte, Decoder::BitImm, Validator::Always),
        spec_op_entry(MASK_OUT_X_Y, 0x0180, "bclr_32_r_dn", "BCLR", Size::Long, Decoder::DxEa, Validator::Always),
        spec_op_entry(MASK_OUT_Y, 0x0880, "bclr_32_s_dn", "BCLR", Size::Long, Decoder::BitImm, Validator::Always),
        spec_op_entry(MASK_OUT_X_Y, 0x0190, "bclr_8_r_ai", "BCLR", Size::Byte, Decoder::DxEa, Validator::Always),
        spec_op_entry(MASK_OUT_X_Y, 0x0198, "bclr_8_r_pi", "BCLR", Size::Byte, Decoder::DxEa, Validator::Always),
        spec_op_entry(MASK_OUT_X_Y, 0x01a0, "bclr_8_r_pd", "BCLR", Size::Byte, Decoder::DxEa, Validator::Always),
        spec_op_entry(MASK_OUT_X_Y, 0x01a8, "bclr_8_r_di", "BCLR", Size::Byte, Decoder::DxEa, Validator::Always),
        spec_op_entry(MASK_OUT_X_Y, 0x01b0, "bclr_8_r_ix", "BCLR", Size::Byte, Decoder::DxEa, Validator::Always),
        spec_op_entry(MASK_OUT_X, 0x01b8, "bclr_8_r_aw", "BCLR", Size::Byte, Decoder::DxEa, Validator::Always),
        spec_op_entry(MASK_OUT_X, 0x01b9, "bclr_8_r_al", "BCLR", Size::Byte, Decoder::DxEa, Validator::Always),
        spec_op_entry(MASK_OUT_Y, 0x0890, "bclr_8_s_ai", "BCLR", Size::Byte, Decoder::BitImm, Validator::Always),
    ]
}

fn push_rules_09(v: &mut Vec<OpcodeHandler>)
    ensures
        final(v)@ == old(v)@ + rules_09(),
        forall|i: int|
            old(v)@.len() <= i < final(v)@.len() ==> rule_wf(#[trigger] final(v)@[i])
                && rule_decodable(final(v)@[i]),
{
    let ghost v0 = v@;
    v.push(op_entry(MASK_EXACT, 0x6cff, "illegal", "ILLEGAL", Size::Long, Decoder::NoOperands, Validator::Never));
    v.push(op_entry(MASK_EXACT, 0x6dff, "illegal", "ILLEGAL", Size::Long, Decoder::NoOperands, Validator::Never));
    v.push(op_entry(MASK_EXACT, 0x6eff, "illegal", "ILLEGAL", Size::Long, Decoder::NoOperands, Validator::Never));
    v.push(op_entry(MASK_EXACT, 0x6fff, "illegal", "ILLEGAL", Size::Long, Decoder::NoOperands, Validator::Never));
    v.push(op_entry(MASK_EXACT, 0x60ff, "illegal", "ILLEGAL", Size::Long, Decoder::NoOperands, Validator::Never));
    v.push(op_entry(MASK_EXACT, 0x61ff, "illegal", "ILLEGAL", Size::Long, Decoder::NoOperands, Validator::Never));
    v.push(op_entry(MASK_OUT_X_Y, 0x0140, "bchg_32_r_dn", "BCHG", Size::Long, Decoder::DxEa, Validator::Always));
    v.push(op_entry(MASK_OUT_Y, 0x0840, "bchg_32_s_dn", "BCHG", Size::Long, Decoder::BitImm, Validator::Always));
    v.push(op_entry(MASK_OUT_X_Y, 0x0150, "bchg_8_r_ai", "BCHG", Size::Byte, Decoder::DxEa, Validator::Always));
    v.push(op_entry(MASK_OUT_X_Y, 0x0158, "bchg_8_r_pi", "BCHG", Size::Byte, Decoder::DxEa, Validator::Always));
    v.push(op_entry(MASK_OUT_X_Y, 0x0160, "bchg_8_r_pd", "BCHG", Size::Byte, Decoder::DxEa, Validator::Always));
    v.push(op_entry(MASK_OUT_X_Y, 0x0168, "bchg_8_r_di", "BCHG", Size::Byte, Decoder::DxEa, Validator::Always));
    v.push(op_entry(MASK_OUT_X_Y, 0x0170, "bchg_8_r_ix", "BCHG", Size::Byte, Decoder::DxEa, Validator::Always));
    v.push(op_entry(MASK_OUT_X, 0x0178, "bchg_8_r_aw", "BCHG", Size::Byte, Decoder::DxEa, Validator::Always));
    v.push(op_entry(MASK_OUT_X, 0x0179, "bchg_8_r_al", "BCHG", Size::Byte, Decoder::DxEa, Validator::Always));
    v.push(op_entry(MASK_OUT_Y, 0x0850, "bchg_8_s_ai", "BCHG", Size::Byte, Decoder::BitImm, Validator::Always));
    v.push(op_entry(MASK_OUT_Y, 0x0858, "bchg_8_s_pi", "BCHG", Size::Byte, Decoder::BitImm, Validator::Always));
    v.push(op_entry(MASK_OUT_Y, 0x0860, "bchg_8_s_pd", "BCHG", Size::Byte, Decoder::BitImm, Validator::Always));
    v.push(op_entry(MASK_OUT_Y, 0x0868, "bchg_8_s_di", "BCHG", Size::Byte, Decoder::BitImm, Validator::Always));
    v.push(op_entry(MASK_OUT_Y, 0x0870, "bchg_8_s_ix", "BCHG", Size::Byte, Decoder::BitImm, Validator::Always));
    v.push(op_entry(MASK_EXACT, 0x0878, "bchg_8_s_aw", "BCHG", Size::Byte, Decoder::BitImm, Validator::Always));
    v.push(op_entry(MASK_EXACT, 0x0879, "bchg_8_s_al", "BCHG", Size::Byte, Decoder::BitImm, Validator::Always));
    v.push(op_entry(MASK_OUT_X_Y, 0x0180, "bclr_32_r_dn", "BCLR", Size::Long, Decoder::DxEa, Validator::Always));
    v.push(op_entry(MASK_OUT_Y, 0x0880, "bclr_32_s_dn", "BCLR", Size::Long, Decoder::BitImm, Validator::Always));
    v.push(op_entry(MASK_OUT_X_Y, 0x0190, "bclr_8_r_ai", "BCLR", Size::Byte, Decoder::DxEa, Validator::Always));
    v.push(op_entry(MASK_OUT_X_Y, 0x0198, "bclr_8_r_pi", "BCLR", Size::Byte, Decoder::DxEa, Validator::Always));
    v.push(op_entry(MASK_OUT_X_Y, 0x01a0, "bclr_8_r_pd", "BCLR", Size::Byte, Decoder::DxEa, Validator::Always));
    v.push(op_entry(MASK_OUT_X_Y, 0x01a8, "bclr_8_r_di", "BCLR", Size::Byte, Decoder::DxEa, Validator::Always));
    v.push(op_entry(MASK_OUT_X_Y, 0x01b0, "bclr_8_r_ix", "BCLR", Size::Byte, Decoder::DxEa, Validator::Always));
    v.push(op_entry(MASK_OUT_X, 0x01b8, "bclr_8_r_aw", "BCLR", Size::Byte, Decoder::DxEa, Validator::Always));
    v.push(op_entry(MASK_OUT_X, 0x01b9, "bclr_8_r_al", "BCLR", Size::Byte, Decoder::DxEa, Validator::Always));
    v.push(op_entry(MASK_OUT_Y, 0x0890, "bclr_8_s_ai", "BCLR", Size::Byte, Decoder::BitImm, Validator::Always));
    proof {
        assert(v@ =~= v0 + rules_09());
    }
}

/// Rules bclr_8_s_pi through btst_8_r_pcdi.
pub open spec fn rules_10() -> Seq<OpcodeHandler> {
    seq![
        spec_op_entry(MASK_OUT_Y, 0x0898, "bclr_8_s_pi", "BCLR", Size::Byte, Decoder::BitImm, Validator::Always),
        spec_op_entry(MASK_OUT_Y, 0x08a0, "bclr_8_s_pd", "BCLR", Size::Byte, Decoder::BitImm, Validator::Always),
        spec_op_entry(MASK_OUT_Y, 0x08a8, "bclr_8_s_di", "BCLR", Size::Byte, Decoder::BitImm, Validator::Always),
        spec_op_entry(MASK_OUT_Y, 0x08b0, "bclr_8_s_ix", "BCLR", Size::Byte, Decoder::BitImm, Validator::Always),
        spec_op_entry(MASK_EXACT, 0x08b8, "bclr_8_s_aw", "BCLR", Size::Byte, Decoder::BitImm, Validator::Always),
        spec_op_entry(MASK_EXACT, 0x08b9, "bclr_8_s_al", "BCLR", Size::Byte, Decoder::BitImm, Validator::Always),
        spec_op_entry(MASK_OUT_X_Y, 0x01c0, "bset_32_r_dn", "BSET", Size::Long, Decoder::DxEa, Validator::Always),
        spec_op_entry(MASK_OUT_Y, 0x08c0, "bset_32_s_dn", "BSET", Size::Long, Decoder::BitImm, Validator::Always),
        spec_op_entry(MASK_OUT_X_Y, 0x01d0, "bset_8_r_ai", "BSET", Size::Byte, Decoder::DxEa, Validator::Always),
        spec_op_entry(MASK_OUT_X_Y, 0x01d8, "bset_8_r_pi", "BSET", Size::Byte, Decoder::DxEa, Validator::Always),
        spec_op_entry(MASK_OUT_X_Y, 0x01e0, "bset_8_r_pd", "BSET", Size::Byte, Decoder::DxEa, Validator::Always),
        spec_op_entry(MASK_OUT_X_Y, 0x01e8, "bset_8_r_di", "BSET", Size::Byte, Decoder::DxEa, Validator::Always),
        spec_op_entry(MASK_OUT_X_Y, 0x01f0, "bset_8_r_ix", "BSET", Size::Byte, Decoder::DxEa, Validator::Always),
        spec_op_entry(MASK_OUT_X, 0x01f8, "bset_8_r_aw", "BSET", Size::Byte, Decoder::DxEa, Validator::Always),
        spec_op_entry(MASK_OUT_X, 0x01f9, "bset_8_r_al", "BSET", Size::Byte, Decoder::DxEa, Validator::Always),
        spec_op_entry(MASK_OUT_Y, 0x08d0, "bset_8_s_ai", "BSET", Size::Byte, Decoder::BitImm, Validator::Always),
        spec_op_entry(MASK_OUT_Y, 0x08d8, "bset_8_s_pi", "BSET", Size::Byte, Decoder::BitImm, Validator::Always),
        spec_op_entry(MASK_OUT_Y, 0x08e0, "bset_8_s_pd", "BSET", Size::Byte, Decoder::BitImm, Validator::Always),
        spec_op_entry(MASK_OUT_Y, 0x08e8, "bset_8_s_di", "BSET", Size::Byte, Decoder::BitImm, Validator::Always),
        spec_op_entry(MASK_OUT_Y, 0x08f0, "bset_8_s_ix", "BSET", Size::Byte, Decoder::BitImm, Validator::Always),
        spec_op_entry(MASK_EXACT, 0x08f8, "bset_8_s_aw", "BSET", Size::Byte, Decoder::BitImm, Validator::Always),
        spec_op_entry(MASK_EXACT, 0x08f9, "bset_8_s_al", "BSET", Size::Byte, Decoder::BitImm, Validator::Always),
        spec_op_entry(MASK_OUT_X_Y, 0x0100, "btst_32_r_dn", "BTST", Size::Long, Decoder::DxEa, Validator::Always),
        spec_op_entry(MASK_OUT_Y, 0x0800, "btst_32_s_dn", "BTST", Size::Long, Decoder::BitImm, Validator::Always),
        spec_op_entry(MASK_OUT_X_Y, 0x0110, "btst_8_r_ai", "BTST", Size::Byte, Decoder::DxEa, Validator::Always),
        spec_op_entry(MASK_OUT_X_Y, 0x0118, "btst_8_r_pi", "BTST", Size::Byte, Decoder::DxEa, Validator::Always),
        spec_op_entry(MASK_OUT_X_Y, 0x0120, "btst_8_r_pd", "BTST", Size::Byte, Decoder::DxEa, Validator::Always),
        spec_op_entry(MASK_OUT_X_Y, 0x0128, "btst_8_r_di", "BTST", Size::Byte, Decoder::DxEa, Validator::Always),
        spec_op_entry(MASK_OUT_X_Y, 0x0130, "btst_8_r_ix", "BTST", Size::Byte, Decoder::DxEa, Validator::Always),
        spec_op_entry(MASK_OUT_X, 0x0138, "btst_8_r_aw", "BTST", Size::Byte, Decoder::DxEa, Validator::Always),
        spec_op_entry(MASK_OUT_X, 0x0139, "btst_8_r_al", "BTST", Size::Byte, Decoder::DxEa, Validator::Always),
        spec_op_entry(MASK_OUT_X, 0x013a, "btst_8_r_pcdi", "BTST", Size::Byte, Decoder::DxEa, Validator::Always),
    ]
}

fn push_rules_10(v: &mut Vec<OpcodeHandler>)
    ensures
        final(v)@ == old(v)@ + rules_10(),
        forall|i: int|
            old(v)@.len() <= i < final(v)@.len() ==> rule_wf(#[trigger] final(v)@[i])
                && rule_decodable(final(v)@[i]),
{
    let ghost v0 = v@;
    v.push(op_entry(MASK_OUT_Y, 0x0898, "bclr_8_s_pi", "BCLR", Size::Byte, Decoder::BitImm, Validator::Always));
    v.push(op_entry(MASK_OUT_Y, 0x08a0, "bclr_8_s_pd", "BCLR", Size::Byte, Decoder::BitImm, Validator::Always));
    v.push(op_entry(MASK_OUT_Y, 0x08a8, "bclr_8_s_di", "BCLR", Size::Byte, Decoder::BitImm, Validator::Always));
    v.push(op_entry(MASK_OUT_Y, 0x08b0, "bclr_8_s_ix", "BCLR", Size::Byte, Decoder::BitImm, Validator::Always));
    v.push(op_entry(MASK_EXACT, 0x08b8, "bclr_8_s_aw", "BCLR", Size::Byte, Decoder::BitImm, Validator::Always));
    v.push(op_entry(MASK_EXACT, 0x08b9, "bclr_8_s_al", "BCLR", Size::Byte, Decoder::BitImm, Validator::Always));
    v.push(op_entry(MASK_OUT_X_Y, 0x01c0, "bset_32_r_dn", "BSET", Size::Long, Decoder::DxEa, Validator::Always));
    v.push(op_entry(MASK_OUT_Y, 0x08c0, "bset_32_s_dn", "BSET", Size::Long, Decoder::BitImm, Validator::Always));
    v.push(op_entry(MASK_OUT_X_Y, 0x01d0, "bset_8_r_ai", "BSET", Size::Byte, Decoder::DxEa, Validator::Always));
    v.push(op_entry(MASK_OUT_X_Y, 0x01d8, "bset_8_r_pi", "BSET", Size::Byte, Decoder::DxEa, Validator::Always));
    v.push(op_entry(MASK_OUT_X_Y, 0x01e0, "bset_8_r_pd", "BSET", Size::Byte, Decoder::DxEa, Validator::Always));
    v.push(op_entry(MASK_OUT_X_Y, 0x01e8, "bset_8_r_di", "BSET", Size::Byte, Decoder::DxEa, Validator::Always));
    v.push(op_entry(MASK_OUT_X_Y, 0x01f0, "bset_8_r_ix", "BSET", Size::Byte, Decoder::DxEa, Validator::Always));
    v.push(op_entry(MASK_OUT_X, 0x01f8, "bset_8_r_aw", "BSET", Size::Byte, Decoder::DxEa, Validator::Always));
    v.push(op_entry(MASK_OUT_X, 0x01f9, "bset_8_r_al", "BSET", Size::Byte, Decoder::DxEa, Validator::Always));
    v.push(op_entry(MASK_OUT_Y, 0x08d0, "bset_8_s_ai", "BSET", Size::Byte, Decoder::BitImm, Validator::Always));
    v.push(op_entry(MASK_OUT_Y, 0x08d8, "bset_8_s_pi", "BSET", Size::Byte, Decoder::BitImm, Validator::Always));
    v.push(op_entry(MASK_OUT_Y, 0x08e0, "bset_8_s_pd", "BSET", Size::Byte, Decoder::BitImm, Validator::Always));
    v.push(op_entry(MASK_OUT_Y, 0x08e8, "bset_8_s_di", "BSET", Size::Byte, Decoder::BitImm, Validator::Always));
    v.push(op_entry(MASK_OUT_Y, 0x08f0, "bset_8_s_ix", "BSET", Size::Byte, Decoder::BitImm, Validator::Always));
    v.push(op_entry(MASK_EXACT, 0x08f8, "bset_8_s_aw", "BSET", Size::Byte, Decoder::BitImm, Validator::Always));
    v.push(op_entry(MASK_EXACT, 0x08f9, "bset_8_s_al", "BSET", Size::Byte, Decoder::BitImm, Validator::Always));
    v.push(op_entry(MASK_OUT_X_Y, 0x0100, "btst_32_r_dn", "BTST", Size::Long, Decoder::DxEa, Validator::Always));
    v.push(op_entry(MASK_OUT_Y, 0x0800, "btst_32_s_dn", "BTST", Size::Long, Decoder::BitImm, Validator::Always));
    v.push(op_entry(MASK_OUT_X_Y, 0x0110, "btst_8_r_ai", "BTST", Size::Byte, Decoder::DxEa, Validator::Always));
    v.push(op_entry(MASK_OUT_X_Y, 0x0118, "btst_8_r_pi", "BTST", Size::Byte, Decoder::DxEa, Validator::Always));
    v.push(op_entry(MASK_OUT_X_Y, 0x0120, "btst_8_r_pd", "BTST", Size::Byte, Decoder::DxEa, Validator::Always));
    v.push(op_entry(MASK_OUT_X_Y, 0x0128, "btst_8_r_di", "BTST", Size::Byte, Decoder::DxEa, Validator::Always));
    v.push(op_entry(MASK_OUT_X_Y, 0x0130, "btst_8_r_ix", "BTST", Size::Byte, Decoder::DxEa, Validator::Always));
    v.push(op_entry(MASK_OUT_X, 0x0138, "btst_8_r_aw", "BTST", Size::Byte, Decoder::DxEa, Validator::Always));
    v.push(op_entry(MASK_OUT_X, 0x0139, "btst_8_r_al", "BTST", Size::Byte, Decoder::DxEa, Validator::Always));
    v.push(op_entry(MASK_OUT_X, 0x013a, "btst_8_r_pcdi", "BTST", Size::Byte, Decoder::DxEa, Validator::Always));
    proof {
        assert(v@ =~= v0 + rules_10());
    }
}

/// Rules btst_8_r_pcix through clr_16_dn.
pub open spec fn rules_11() -> Seq<OpcodeHandler> {
    seq![
        spec_op_entry(MASK_OUT_X, 0x013b, "btst_8_r_pcix", "BTST", Size::Byte, Decoder::DxEa, Validator::Always),
        spec_op_entry(MASK_OUT_X, 0x013c, "btst_8_r_imm", "BTST", Size::Byte, Decoder::DxEa, Validator::Always),
        spec_op_entry(MASK_OUT_Y, 0x0810, "btst_8_s_ai", "BTST", Size::Byte, Decoder::BitImm, Validator::Always),
        spec_op_entry(MASK_OUT_Y, 0x0818, "btst_8_s_pi", "BTST", Size::Byte, Decoder::BitImm, Validator::Always),
        spec_op_entry(MASK_OUT_Y, 0x0820, "btst_8_s_pd", "BTST", Size::Byte, Decoder::BitImm, Validator::Always),
        spec_op_entry(MASK_OUT_Y, 0x0828, "btst_8_s_di", "BTST", Size::Byte, Decoder::BitImm, Validator::Always),
        spec_op_entry(MASK_OUT_Y, 0x0830, "btst_8_s_ix", "BTST", Size::Byte, Decoder::BitImm, Validator::Always),
        spec_op_entry(MASK_EXACT, 0x0838, "btst_8_s_aw", "BTST", Size::Byte, Decoder::BitImm, Validator::Always),
        spec_op_entry(MASK_EXACT, 0x0839, "btst_8_s_al", "BTST", Size::Byte, Decoder::BitImm, Validator::Always),
        spec_op_entry(MASK_EXACT, 0x083a, "btst_8_s_pcdi", "BTST", Size::Byte, Decoder::BitImm, Validator::Always),
        spec_op_entry(MASK_EXACT, 0x083b, "btst_8_s_pcix", "BTST", Size::Byte, Decoder::BitImm, Validator::Always),
        spec_op_entry(MASK_EXACT, 0x083c, "btst_8_s_imm", "BTST", Size::Byte, Decoder::BitImm, Validator::Always),
        spec_op_entry(MASK_OUT_X_Y, 0x4190, "chk_16_ai", "CHK", Size::Word, Decoder::EaDx, Validator::Always),
        spec_op_entry(MASK_OUT_X, 0x41b9, "chk_16_al", "CHK", Size::Word, Decoder::EaDx, Validator::Always),
        spec_op_entry(MASK_OUT_X, 0x41b8, "chk_16_aw", "CHK", Size::Word, Decoder::EaDx, Validator::Always),
        spec_op_entry(MASK_OUT_X_Y, 0x4180, "chk_16_dn", "CHK", Size::Word, Decoder::EaDx, Validator::Always),
        spec_op_entry(MASK_OUT_X_Y, 0x41a8, "chk_16_di", "CHK", Size::Word, Decoder::EaDx, Validator::Always),
        spec_op_entry(MASK_OUT_X, 0x41bc, "chk_16_imm", "CHK", Size::Word, Decoder::EaDx, Validator::Always),
        spec_op_entry(MASK_OUT_X_Y, 0x41b0, "chk_16_ix", "CHK", Size::Word, Decoder::EaDx, Validator::Always),
        spec_op_entry(MASK_OUT_X, 0x41ba, "chk_16_pcdi", "CHK", Size::Word, Decoder::EaDx, Validator::Always),
        spec_op_entry(MASK_OUT_X, 0x41bb, "chk_16_pcix", "CHK", Size::Word, Decoder::EaDx, Validator::Always),
        spec_op_entry(MASK_OUT_X_Y, 0x41a0, "chk_16_pd", "CHK", Size::Word, Decoder::EaDx, Validator::Always),
        spec_op_entry(MASK_OUT_X_Y, 0x4198, "chk_16_pi", "CHK", Size::Word, Decoder::EaDx, Validator::Always),
        spec_op_entry(MASK_OUT_Y, 0x4200, "clr_8_dn", "CLR", Size::Byte, Decoder::Ea, Validator::Always),
        spec_op_entry(MASK_OUT_Y, 0x4210, "clr_8_ai", "CLR", Size::Byte, Decoder::Ea, Validator::Always),
        spec_op_entry(MASK_OUT_Y, 0x4218, "clr_8_pi", "CLR", Size::Byte, Decoder::Ea, Validator::Always),
        spec_op_entry(MASK_OUT_Y, 0x4220, "clr_8_pd", "CLR", Size::Byte, Decoder::Ea, Validator::Always),
        spec_op_entry(MASK_OUT_Y, 0x4228, "clr_8_di", "CLR", Size::Byte, Decoder::Ea, Validator::Always),
        spec_op_entry(MASK_OUT_Y, 0x4230, "clr_8_ix", "CLR", Size::Byte, Decoder::Ea, Validator::Always),
        spec_op_entry(MASK_EXACT, 0x4238, "clr_8_aw", "CLR", Size::Byte, Decoder::Ea, Validator::Always),
        spec_op_entry(MASK_EXACT, 0x4239, "clr_8_al", "CLR", Size::Byte, Decoder::Ea, Validator::Always),
        spec_op_entry(MASK_OUT_Y, 0x4240, "clr_16_dn", "CLR", Size::Word, Decoder::Ea, Validator::Always),
    ]
}

fn push_rules_11(v: &mut Vec<OpcodeHandler>)
    ensures
        final(v)@ == old(v)@ + rules_11(),
        forall|i: int|
            old(v)@.len() <= i < final(v)@.len() ==> rule_wf(#[trigger] final(v)@[i])
                && rule_decodable(final(v)@[i]),
{
    let ghost v0 = v@;
    v.push(op_entry(MASK_OUT_X, 0x013b, "btst_8_r_pcix", "BTST", Size::Byte, Decoder::DxEa, Validator::Always));
    v.push(op_entry(MASK_OUT_X, 0x013c, "btst_8_r_imm", "BTST", Size::Byte, Decoder::DxEa, Validator::Always));
    v.push(op_entry(MASK_OUT_Y, 0x0810, "btst_8_s_ai", "BTST", Size::Byte, Decoder::BitImm, Validator::Always));
    v.push(op_entry(MASK_OUT_Y, 0x0818, "btst_8_s_pi", "BTST", Size::Byte, Decoder::BitImm, Validator::Always));
    v.push(op_entry(MASK_OUT_Y, 0x0820, "btst_8_s_pd", "BTST", Size::Byte, Decoder::BitImm, Validator::Always));
    v.push(op_entry(MASK_OUT_Y, 0x0828, "btst_8_s_di", "BTST", Size::Byte, Decoder::BitImm, Validator::Always));
    v.push(op_entry(MASK_OUT_Y, 0x0830, "btst_8_s_ix", "BTST", Size::Byte, Decoder::BitImm, Validator::Always));
    v.push(op_entry(MASK_EXACT, 0x0838, "btst_8_s_aw", "BTST", Size::Byte, Decoder::BitImm, Validator::Always));
    v.push(op_entry(MASK_EXACT, 0x0839, "btst_8_s_al", "BTST", Size::Byte, Decoder::BitImm, Validator::Always));
    v.push(op_entry(MASK_EXACT, 0x083a, "btst_8_s_pcdi", "BTST", Size::Byte, Decoder::BitImm, Validator::Always));
    v.push(op_entry(MASK_EXACT, 0x083b, "btst_8_s_pcix", "BTST", Size::Byte, Decoder::BitImm, Validator::Always));
    v.push(op_entry(MASK_EXACT, 0x083c, "btst_8_s_imm", "BTST", Size::Byte, Decoder::BitImm, Validator::Always));
    v.push(op_entry(MASK_OUT_X_Y, 0x4190, "chk_16_ai", "CHK", Size::Word, Decoder::EaDx, Validator::Always));
    v.push(op_entry(MASK_OUT_X, 0x41b9, "chk_16_al", "CHK", Size::Word, Decoder::EaDx, Validator::Always));
    v.push(op_entry(MASK_OUT_X, 0x41b8, "chk_16_aw", "CHK", Size::Word, Decoder::EaDx, Validator::Always));
    v.push(op_entry(MASK_OUT_X_Y, 0x4180, "chk_16_dn", "CHK", Size::Word, Decoder::EaDx, Validator::Always));
    v.push(op_entry(MASK_OUT_X_Y, 0x41a8, "chk_16_di", "CHK", Size::Word, Decoder::EaDx, Validator::Always));
    v.push(op_entry(MASK_OUT_X, 0x41bc, "chk_16_imm", "CHK", Size::Word, Decoder::EaDx, Validator::Always));
    v.push(op_entry(MASK_OUT_X_Y, 0x41b0, "chk_16_ix", "CHK", Size::Word, Decoder::EaDx, Validator::Always));
    v.push(op_entry(MASK_OUT_X, 0x41ba, "chk_16_pcdi", "CHK", Size::Word, Decoder::EaDx, Validator::Always));
    v.push(op_entry(MASK_OUT_X, 0x41bb, "chk_16_pcix", "CHK", Size::Word, Decoder::EaDx, Validator::Always));
    v.push(op_entry(MASK_OUT_X_Y, 0x41a0, "chk_16_pd", "CHK", Size::Word, Decoder::EaDx, Validator::Always));
    v.push(op_entry(MASK_OUT_X_Y, 0x4198, "chk_16_pi", "CHK", Size::Word, Decoder::EaDx, Validator::Always));
    v.push(op_entry(MASK_OUT_Y, 0x4200, "clr_8_dn", "CLR", Size::Byte, Decoder::Ea, Validator::Always));
    v.push(op_entry(MASK_OUT_Y, 0x4210, "clr_8_ai", "CLR", Size::Byte, Decoder::Ea, Validator::Always));
    v.push(op_entry(MASK_OUT_Y, 0x4218, "clr_8_pi", "CLR", Size::Byte, Decoder::Ea, Validator::Always));
    v.push(op_entry(MASK_OUT_Y, 0x4220, "clr_8_pd", "CLR", Size::Byte, Decoder::Ea, Validator::Always));
    v.push(op_entry(MASK_OUT_Y, 0x4228, "clr_8_di", "CLR", Size::Byte, Decoder::Ea, Validator::Always));
    v.push(op_entry(MASK_OUT_Y, 0x4230, "clr_8_ix", "CLR", Size::Byte, Decoder::Ea, Validator::Always));
    v.push(op_entry(MASK_EXACT, 0x4238, "clr_8_aw", "CLR", Size::Byte, Decoder::Ea, Validator::Always));
    v.push(op_entry(MASK_EXACT, 0x4239, "clr_8_al", "CLR", Size::Byte, Decoder::Ea, Validator::Always));
    v.push(op_entry(MASK_OUT_Y, 0x4240, "clr_16_dn", "CLR", Size::Word, Decoder::Ea, Validator::Always));
    proof {
        assert(v@ =~= v0 + rules_11());
    }
}

/// Rules clr_16_ai through cmp_16_di.
pub open spec fn rules_12() -> Seq<OpcodeHandler> {
    seq![
        spec_op_entry(MASK_OUT_Y, 0x4250, "clr_16_ai", "CLR", Size::Word, Decoder::Ea, Validator::Always),
        spec_op_entry(MASK_OUT_Y, 0x4258, "clr_16_pi", "CLR", Size::Word, Decoder::Ea, Validator::Always),
        spec_op_entry(MASK_OUT_Y, 0x4260, "clr_16_pd", "CLR", Size::Word, Decoder::Ea, Validator::Always),
        spec_op_entry(MASK_OUT_Y, 0x4268, "clr_16_di", "CLR", Size::Word, Decoder::Ea, Validator::Always),
        spec_op_entry(MASK_OUT_Y, 0x4270, "clr_16_ix", "CLR", Size::Word, Decoder::Ea, Validator::Always),
        spec_op_entry(MASK_EXACT, 0x4278, "clr_16_aw", "CLR", Size::Word, Decoder::Ea, Validator::Always),
        spec_op_entry(MASK_EXACT, 0x4279, "clr_16_al", "CLR", Size::Word, Decoder::Ea, Validator::Always),
        spec_op_entry(MASK_OUT_Y, 0x4280, "clr_32_dn", "CLR", Size::Long, Decoder::Ea, Validator::Always),
        spec_op_entry(MASK_OUT_Y, 0x4290, "clr_32_ai", "CLR", Size::Long, Decoder::Ea, Validator::Always),
        spec_op_entry(MASK_OUT_Y, 0x4298, "clr_32_pi", "CLR", Size::Long, Decoder::Ea, Validator::Always),
        spec_op_entry(MASK_OUT_Y, 0x42a0, "clr_32_pd", "CLR", Size::Long, Decoder::Ea, Validator::Always),
        spec_op_entry(MASK_OUT_Y, 0x42a8, "clr_32_di", "CLR", Size::Long, Decoder::Ea, Validator::Always),
        spec_op_entry(MASK_OUT_Y, 0x42b0, "clr_32_ix", "CLR", Size::Long, Decoder::Ea, Validator::Always),
        spec_op_entry(MASK_EXACT, 0x42b8, "clr_32_aw", "CLR", Size::Long, Decoder::Ea, Validator::Always),
        spec_op_entry(MASK_EXACT, 0x42b9, "clr_32_al", "CLR", Size::Long, Decoder::Ea, Validator::Always),
        spec_op_entry(MASK_OUT_X_Y, 0xb000, "cmp_8_dn", "CMP", Size::Byte, Decoder::EaDx, Validator::Always),
        spec_op_entry(MASK_OUT_X_Y, 0xb010, "cmp_8_ai", "CMP", Size::Byte, Decoder::EaDx, Validator::Always),
        spec_op_entry(MASK_OUT_X_Y, 0xb018, "cmp_8_pi", "CMP", Size::Byte, Decoder::EaDx, Validator::Always),
        spec_op_entry(MASK_OUT_X_Y, 0xb020, "cmp_8_pd", "CMP", Size::Byte, Decoder::EaDx, Validator::Always),
        spec_op_entry(MASK_OUT_X_Y, 0xb028, "cmp_8_di", "CMP", Size::Byte, Decoder::EaDx, Validator::Always),
        spec_op_entry(MASK_OUT_X_Y, 0xb030, "cmp_8_ix", "CMP", Size::Byte, Decoder::EaDx, Validator::Always),
        spec_op_entry(MASK_OUT_X, 0xb038, "cmp_8_aw", "CMP", Size::Byte, Decoder::EaDx, Validator::Always),
        spec_op_entry(MASK_OUT_X, 0xb039, "cmp_8_al", "CMP", Size::Byte, Decoder::EaDx, Validator::Always),
        spec_op_entry(MASK_OUT_X, 0xb03a, "cmp_8_pcdi", "CMP", Size::Byte, Decoder::EaDx, Validator::Always),
        spec_op_entry(MASK_OUT_X, 0xb03b, "cmp_8_pcix", "CMP", Size::Byte, Decoder::EaDx, Validator::Always),
        spec_op_entry(MASK_OUT_X, 0xb03c, "cmp_8_imm", "CMP", Size::Byte, Decoder::EaDx, Validator::Always),
        spec_op_entry(MASK_OUT_X_Y, 0xb040, "cmp_16_dn", "CMP", Size::Word, Decoder::EaDx, Validator::Always),
        spec_op_entry(MASK_OUT_X_Y, 0xb048, "cmp_16_an", "CMP", Size::Word, Decoder::EaDx, Validator::Always),
        spec_op_entry(MASK_OUT_X_Y, 0xb050, "cmp_16_ai", "CMP", Size::Word, Decoder::EaDx, Validator::Always),
        spec_op_entry(MASK_OUT_X_Y, 0xb058, "cmp_16_pi", "CMP", Size::Word, Decoder::EaDx, Validator::Always),
        spec_op_entry(MASK_OUT_X_Y, 0xb060, "cmp_16_pd", "CMP", Size::Word, Decoder::EaDx, Validator::Always),
        spec_op_entry(MASK_OUT_X_Y, 0xb068, "cmp_16_di", "CMP", Size::Word, Decoder::EaDx, Validator::Always),
    ]
}

fn push_rules_12(v: &mut Vec<OpcodeHandler>)
    ensures
        final(v)@ == old(v)@ + rules_12(),
        forall|i: int|
            old(v)@.len() <= i < final(v)@.len() ==> rule_wf(#[trigger] final(v)@[i])
                && rule_decodable(final(v)@[i]),
{
    let ghost v0 = v@;
    v.push(op_entry(MASK_OUT_Y, 0x4250, "clr_16_ai", "CLR", Size::Word, Decoder::Ea, Validator::Always));
    v.push(op_entry(MASK_OUT_Y, 0x4258, "clr_16_pi", "CLR", Size::Word, Decoder::Ea, Validator::Always));
    v.push(op_entry(MASK_OUT_Y, 0x4260, "clr_16_pd", "CLR", Size::Word, Decoder::Ea, Validator::Always));
    v.push(op_entry(MASK_OUT_Y, 0x4268, "clr_16_di", "CLR", Size::Word, Decoder::Ea, Validator::Always));
    v.push(op_entry(MASK_OUT_Y, 0x4270, "clr_16_ix", "CLR", Size::Word, Decoder::Ea, Validator::Always));
    v.push(op_entry(MASK_EXACT, 0x4278, "clr_16_aw", "CLR", Size::Word, Decoder::Ea, Validator::Always));
    v.push(op_entry(MASK_EXACT, 0x4279, "clr_16_al", "CLR", Size::Word, Decoder::Ea, Validator::Always));
    v.push(op_entry(MASK_OUT_Y, 0x4280, "clr_32_dn", "CLR", Size::Long, Decoder::Ea, Validator::Always));
    v.push(op_entry(MASK_OUT_Y, 0x4290, "clr_32_ai", "CLR", Size::Long, Decoder::Ea, Validator::Always));
    v.push(op_entry(MASK_OUT_Y, 0x4298, "clr_32_pi", "CLR", Size::Long, Decoder::Ea, Validator::Always));
    v.push(op_entry(MASK_OUT_Y, 0x42a0, "clr_32_pd", "CLR", Size::Long, Decoder::Ea, Validator::Always));
    v.push(op_entry(MASK_OUT_Y, 0x42a8, "clr_32_di", "CLR", Size::Long, Decoder::Ea, Validator::Always));
    v.push(op_entry(MASK_OUT_Y, 0x42b0, "clr_32_ix", "CLR", Size::Long, Decoder::Ea, Validator::Always));
    v.push(op_entry(MASK_EXACT, 0x42b8, "clr_32_aw", "CLR", Size::Long, Decoder::Ea, Validator::Always));
    v.push(op_entry(MASK_EXACT, 0x42b9, "clr_32_al", "CLR", Size::Long, Decoder::Ea, Validator::Always));
    v.push(op_entry(MASK_OUT_X_Y, 0xb000, "cmp_8_dn", "CMP", Size::Byte, Decoder::EaDx, Validator::Always));
    v.push(op_entry(MASK_OUT_X_Y, 0xb010, "cmp_8_ai", "CMP", Size::Byte, Decoder::EaDx, Validator::Always));
    v.push(op_entry(MASK_OUT_X_Y, 0xb018, "cmp_8_pi", "CMP", Size::Byte, Decoder::EaDx, Validator::Always));
    v.push(op_entry(MASK_OUT_X_Y, 0xb020, "cmp_8_pd", "CMP", Size::Byte, Decoder::EaDx, Validator::Always));
    v.push(op_entry(MASK_OUT_X_Y, 0xb028, "cmp_8_di", "CMP", Size::Byte, Decoder::EaDx, Validator::Always));
    v.push(op_entry(MASK_OUT_X_Y, 0xb030, "cmp_8_ix", "CMP", Size::Byte, Decoder::EaDx, Validator::Always));
    v.push(op_entry(MASK_OUT_X, 0xb038, "cmp_8_aw", "CMP", Size::Byte, Decoder::EaDx, Validator::Always));
    v.push(op_entry(MASK_OUT_X, 0xb039, "cmp_8_al", "CMP", Size::Byte, Decoder::EaDx, Validator::Always));
    v.push(op_entry(MASK_OUT_X, 0xb03a, "cmp_8_pcdi", "CMP", Size::Byte, Decoder::EaDx, Validator::Always));
    v.push(op_entry(MASK_OUT_X, 0xb03b, "cmp_8_pcix", "CMP", Size::Byte, Decoder::EaDx, Validator::Always));
    v.push(op_entry(MASK_OUT_X, 0xb03c, "cmp_8_imm", "CMP", Size::Byte, Decoder::EaDx, Validator::Always));
    v.push(op_entry(MASK_OUT_X_Y, 0xb040, "cmp_16_dn", "CMP", Size::Word, Decoder::EaDx, Validator::Always));
    v.push(op_entry(MASK_OUT_X_Y, 0xb048, "cmp_16_an", "CMP", Size::Word, Decoder::EaDx, Validator::Always));
    v.push(op_entry(MASK_OUT_X_Y, 0xb050, "cmp_16_ai", "CMP", Size::Word, Decoder::EaDx, Validator::Always));
    v.push(op_entry(MASK_OUT_X_Y, 0xb058, "cmp_16_pi", "CMP", Size::Word, Decoder::EaDx, Validator::Always));
    v.push(op_entry(MASK_OUT_X_Y, 0xb060, "cmp_16_pd", "CMP", Size::Word, Decoder::EaDx, Validator::Always));
    v.push(op_entry(MASK_OUT_X_Y, 0xb068, "cmp_16_di", "CMP", Size::Word, Decoder::EaDx, Validator::Always));
    proof {
        assert(v@ =~= v0 + rules_12());
    }
}

/// Rules cmp_16_ix through cmpa_32_an.
pub open spec fn rules_13() -> Seq<OpcodeHandler> {
    seq![
        spec_op_entry(MASK_OUT_X_Y, 0xb070, "cmp_16_ix", "CMP", Size::Word, Decoder::EaDx, Validator::Always),
        spec_op_entry(MASK_OUT_X, 0xb078, "cmp_16_aw", "CMP", Size::Word, Decoder::EaDx, Validator::Always),
        spec_op_entry(MASK_OUT_X, 0xb079, "cmp_16_al", "CMP", Size::Word, Decoder::EaDx, Validator::Always),
        spec_op_entry(MASK_OUT_X, 0xb07a, "cmp_16_pcdi", "CMP", Size::Word, Decoder::EaDx, Validator::Always),
        spec_op_entry(MASK_OUT_X, 0xb07b, "cmp_16_pcix", "CMP", Size::Word, Decoder::EaDx, Validator::Always),
        spec_op_entry(MASK_OUT_X, 0xb07c, "cmp_16_imm", "CMP", Size::Word, Decoder::EaDx, Validator::Always),
        spec_op_entry(MASK_OUT_X_Y, 0xb080, "cmp_32_dn", "CMP", Size::Long, Decoder::EaDx, Validator::Always),
        spec_op_entry(MASK_OUT_X_Y, 0xb088, "cmp_32_an", "CMP", Size::Long, Decoder::EaDx, Validator::Always),
        spec_op_entry(MASK_OUT_X_Y, 0xb090, "cmp_32_ai", "CMP", Size::Long, Decoder::EaDx, Validator::Always),
        spec_op_entry(MASK_OUT_X_Y, 0xb098, "cmp_32_pi", "CMP", Size::Long, Decoder::EaDx, Validator::Always),
        spec_op_entry(MASK_OUT_X_Y, 0xb0a0, "cmp_32_pd", "CMP", Size::Long, Decoder::EaDx, Validator::Always),
        spec_op_entry(MASK_OUT_X_Y, 0xb0a8, "cmp_32_di", "CMP", Size::Long, Decoder::EaDx, Validator::Always),
        spec_op_entry(MASK_OUT_X_Y, 0xb0b0, "cmp_32_ix", "CMP", Size::Long, Decoder::EaDx, Validator::Always),
        spec_op_entry(MASK_OUT_X, 0xb0b8, "cmp_32_aw", "CMP", Size::Long, Decoder::EaDx, Validator::Always),
        spec_op_entry(MASK_OUT_X, 0xb0b9, "cmp_32_al", "CMP", Size::Long, Decoder::EaDx, Validator::Always),
        spec_op_entry(MASK_OUT_X, 0xb0ba, "cmp_32_pcdi", "CMP", Size::Long, Decoder::EaDx, Validator::Always),
        spec_op_entry(MASK_OUT_X, 0xb0bb, "cmp_32_pcix", "CMP", Size::Long, Decoder::EaDx, Validator::Always),
        spec_op_entry(MASK_OUT_X, 0xb0bc, "cmp_32_imm", "CMP", Size::Long, Decoder::EaDx, Validator::Always),
        spec_op_entry(MASK_OUT_X_Y, 0xb0c0, "cmpa_16_dn", "CMPA", Size::Word, Decoder::EaAx, Validator::Always),
        spec_op_entry(MASK_OUT_X_Y, 0xb0c8, "cmpa_16_an", "CMPA", Size::Word, Decoder::EaAx, Validator::Always),
        spec_op_entry(MASK_OUT_X_Y, 0xb0d0, "cmpa_16_ai", "CMPA", Size::Word, Decoder::EaAx, Validator::Always),
        spec_op_entry(MASK_OUT_X_Y, 0xb0d8, "cmpa_16_pi", "CMPA", Size::Word, Decoder::EaAx, Validator::Always),
        spec_op_entry(MASK_OUT_X_Y, 0xb0e0, "cmpa_16_pd", "CMPA", Size::Word, Decoder::EaAx, Validator::Always),
        spec_op_entry(MASK_OUT_X_Y, 0xb0e8, "cmpa_16_di", "CMPA", Size::Word, Decoder::EaAx, Validator::Always),
        spec_op_entry(MASK_OUT_X_Y, 0xb0f0, "cmpa_16_ix", "CMPA", Size::Word, Decoder::EaAx, Validator::Always),
        spec_op_entry(MASK_OUT_X, 0xb0f8, "cmpa_16_aw", "CMPA", Size::Word, Decoder::EaAx, Validator::Always),
        spec_op_entry(MASK_OUT_X, 0xb0f9, "cmpa_16_al", "CMPA", Size::Word, Decoder::EaAx, Validator::Always),
        spec_op_entry(MASK_OUT_X, 0xb0fa, "cmpa_16_pcdi", "CMPA", Size::Word, Decoder::EaAx, Validator::Always),
        spec_op_entry(MASK_OUT_X, 0xb0fb, "cmpa_16_pcix", "CMPA", Size::Word, Decoder::EaAx, Validator::Always),
        spec_op_entry(MASK_OUT_X, 0xb0fc, "cmpa_16_imm", "CMPA", Size::Word, Decoder::EaAx, Validator::Always),
        spec_op_entry(MASK_OUT_X_Y, 0xb1c0, "cmpa_32_dn", "CMPA", Size::Long, Decoder::EaAx, Validator::Always),
        spec_op_entry(MASK_OUT_X_Y, 0xb1c8, "cmpa_32_an", "CMPA", Size::Long, Decoder::EaAx, Validator::Always),
    ]
}

fn push_rules_13(v: &mut Vec<OpcodeHandler>)
    ensures
        final(v)@ == old(v)@ + rules_13(),
        forall|i: int|
            old(v)@.len() <= i < final(v)@.len() ==> rule_wf(#[trigger] final(v)@[i])
                && rule_decodable(final(v)@[i]),
{
    let ghost v0 = v@;
    v.push(op_entry(MASK_OUT_X_Y, 0xb070, "cmp_16_ix", "CMP", Size::Word, Decoder::EaDx, Validator::Always));
    v.push(op_entry(MASK_OUT_X, 0xb078, "cmp_16_aw", "CMP", Size::Word, Decoder::EaDx, Validator::Always));
    v.push(op_entry(MASK_OUT_X, 0xb079, "cmp_16_al", "CMP", Size::Word, Decoder::EaDx, Validator::Always));
    v.push(op_entry(MASK_OUT_X, 0xb07a, "cmp_16_pcdi", "CMP", Size::Word, Decoder::EaDx, Validator::Always));
    v.push(op_entry(MASK_OUT_X, 0xb07b, "cmp_16_pcix", "CMP", Size::Word, Decoder::EaDx, Validator::Always));
    v.push(op_entry(MASK_OUT_X, 0xb07c, "cmp_16_imm", "CMP", Size::Word, Decoder::EaDx, Validator::Always));
    v.push(op_entry(MASK_OUT_X_Y, 0xb080, "cmp_32_dn", "CMP", Size::Long, Decoder::EaDx, Validator::Always));
    v.push(op_entry(MASK_OUT_X_Y, 0xb088, "cmp_32_an", "CMP", Size::Long, Decoder::EaDx, Validator::Always));
    v.push(op_entry(MASK_OUT_X_Y, 0xb090, "cmp_32_ai", "CMP", Size::Long, Decoder::EaDx, Validator::Always));
    v.push(op_entry(MASK_OUT_X_Y, 0xb098, "cmp_32_pi", "CMP", Size::Long, Decoder::EaDx, Validator::Always));
    v.push(op_entry(MASK_OUT_X_Y, 0xb0a0, "cmp_32_pd", "CMP", Size::Long, Decoder::EaDx, Validator::Always));
    v.push(op_entry(MASK_OUT_X_Y, 0xb0a8, "cmp_32_di", "CMP", Size::Long, Decoder::EaDx, Validator::Always));
    v.push(op_entry(MASK_OUT_X_Y, 0xb0b0, "cmp_32_ix", "CMP", Size::Long, Decoder::EaDx, Validator::Always));
    v.push(op_entry(MASK_OUT_X, 0xb0b8, "cmp_32_aw", "CMP", Size::Long, Decoder::EaDx, Validator::Always));
    v.push(op_entry(MASK_OUT_X, 0xb0b9, "cmp_32_al", "CMP", Size::Long, Decoder::EaDx, Validator::Always));
    v.push(op_entry(MASK_OUT_X, 0xb0ba, "cmp_32_pcdi", "CMP", Size::Long, Decoder::EaDx, Validator::Always));
    v.push(op_entry(MASK_OUT_X, 0xb0bb, "cmp_32_pcix", "CMP", Size::Long, Decoder::EaDx, Validator::Always));
    v.push(op_entry(MASK_OUT_X, 0xb0bc, "cmp_32_imm", "CMP", Size::Long, Decoder::EaDx, Validator::Always));
    v.push(op_entry(MASK_OUT_X_Y, 0xb0c0, "cmpa_16_dn", "CMPA", Size::Word, Decoder::EaAx, Validator::Always));
    v.push(op_entry(MASK_OUT_X_Y, 0xb0c8, "cmpa_16_an", "CMPA", Size::Word, Decoder::EaAx, Validator::Always));
    v.push(op_entry(MASK_OUT_X_Y, 0xb0d0, "cmpa_16_ai", "CMPA", Size::Word, Decoder::EaAx, Validator::Always));
    v.push(op_entry(MASK_OUT_X_Y, 0xb0d8, "cmpa_16_pi", "CMPA", Size::Word, Decoder::EaAx, Validator::Always));
    v.push(op_entry(MASK_OUT_X_Y, 0xb0e0, "cmpa_16_pd", "CMPA", Size::Word, Decoder::EaAx, Validator::Always));
    v.push(op_entry(MASK_OUT_X_Y, 0xb0e8, "cmpa_16_di", "CMPA", Size::Word, Decoder::EaAx, Validator::Always));
    v.push(op_entry(MASK_OUT_X_Y, 0xb0f0, "cmpa_16_ix", "CMPA", Size::Word, Decoder::EaAx, Validator::Always));
    v.push(op_entry(MASK_OUT_X, 0xb0f8, "cmpa_16_aw", "CMPA", Size::Word, Decoder::EaAx, Validator::Always));
    v.push(op_entry(MASK_OUT_X, 0xb0f9, "cmpa_16_al", "CMPA", Size::Word, Decoder::EaAx, Validator::Always));
    v.push(op_entry(MASK_OUT_X, 0xb0fa, "cmpa_16_pcdi", "CMPA", Size::Word, Decoder::EaAx, Validator::Always));
    v.push(op_entry(MASK_OUT_X, 0xb0fb, "cmpa_16_pcix", "CMPA", Size::Word, Decoder::EaAx, Validator::Always));
    v.push(op_entry(MASK_OUT_X, 0xb0fc, "cmpa_16_imm", "CMPA", Size::Word, Decoder::EaAx, Validator::Always));
    v.push(op_entry(MASK_OUT_X_Y, 0xb1c0, "cmpa_32_dn", "CMPA", Size::Long, Decoder::EaAx, Validator::Always));
    v.push(op_entry(MASK_OUT_X_Y, 0xb1c8, "cmpa_32_an", "CMPA", Size::Long, Decoder::EaAx, Validator::Always));
    proof {
        assert(v@ =~= v0 + rules_13());
    }
}

/// Rules cmpa_32_ai through cmpi_32_ix.
pub open spec fn rules_14() -> Seq<OpcodeHandler> {
    seq![
        spec_op_entry(MASK_OUT_X_Y, 0xb1d0, "cmpa_32_ai", "CMPA", Size::Long, Decoder::EaAx, Validator::Always),
        spec_op_entry(MASK_OUT_X_Y, 0xb1d8, "cmpa_32_pi", "CMPA", Size::Long, Decoder::EaAx, Validator::Always),
        spec_op_entry(MASK_OUT_X_Y, 0xb1e0, "cmpa_32_pd", "CMPA", Size::Long, Decoder::EaAx, Validator::Always),
        spec_op_entry(MASK_OUT_X_Y, 0xb1e8, "cmpa_32_di", "CMPA", Size::Long, Decoder::EaAx, Validator::Always),
        spec_op_entry(MASK_OUT_X_Y, 0xb1f0, "cmpa_32_ix", "CMPA", Size::Long, Decoder::EaAx, Validator::Always),
        spec_op_entry(MASK_OUT_X, 0xb1f8, "cmpa_32_aw", "CMPA", Size::Long, Decoder::EaAx, Validator::Always),
        spec_op_entry(MASK_OUT_X, 0xb1f9, "cmpa_32_al", "CMPA", Size::Long, Decoder::EaAx, Validator::Always),
        spec_op_entry(MASK_OUT_X, 0xb1fa, "cmpa_32_pcdi", "CMPA", Size::Long, Decoder::EaAx, Validator::Always),
        spec_op_entry(MASK_OUT_X, 0xb1fb, "cmpa_32_pcix", "CMPA", Size::Long, Decoder::EaAx, Validator::Always),
        spec_op_entry(MASK_OUT_X, 0xb1fc, "cmpa_32_imm", "CMPA", Size::Long, Decoder::EaAx, Validator::Always),
        spec_op_entry(MASK_OUT_Y, 0x0c00, "cmpi_8_dn", "CMPI", Size::Byte, Decoder::ImmEa, Validator::Always),
        spec_op_entry(MASK_OUT_Y, 0x0c10, "cmpi_8_ai", "CMPI", Size::Byte, Decoder::ImmEa, Validator::Always),
        spec_op_entry(MASK_OUT_Y, 0x0c18, "cmpi_8_pi", "CMPI", Size::Byte, Decoder::ImmEa, Validator::Always),
        spec_op_entry(MASK_OUT_Y, 0x0c20, "cmpi_8_pd", "CMPI", Size::Byte, Decoder::ImmEa, Validator::Always),
        spec_op_entry(MASK_OUT_Y, 0x0c28, "cmpi_8_di", "CMPI", Size::Byte, Decoder::ImmEa, Validator::Always),
        spec_op_entry(MASK_OUT_Y, 0x0c30, "cmpi_8_ix", "CMPI", Size::Byte, Decoder::ImmEa, Validator::Always),
        spec_op_entry(MASK_EXACT, 0x0c38, "cmpi_8_aw", "CMPI", Size::Byte, Decoder::ImmEa, Validator::Always),
        spec_op_entry(MASK_EXACT, 0x0c39, "cmpi_8_al", "CMPI", Size::Byte, Decoder::ImmEa, Validator::Always),
        spec_op_entry(MASK_OUT_Y, 0x0c40, "cmpi_16_dn", "CMPI", Size::Word, Decoder::ImmEa, Validator::Always),
        spec_op_entry(MASK_OUT_Y, 0x0c50, "cmpi_16_ai", "CMPI", Size::Word, Decoder::ImmEa, Validator::Always),
        spec_op_entry(MASK_OUT_Y, 0x0c58, "cmpi_16_pi", "CMPI", Size::Word, Decoder::ImmEa, Validator::Always),
        spec_op_entry(MASK_OUT_Y, 0x0c60, "cmpi_16_pd", "CMPI", Size::Word, Decoder::ImmEa, Validator::Always),
        spec_op_entry(MASK_OUT_Y, 0x0c68, "cmpi_16_di", "CMPI", Size::Word, Decoder::ImmEa, Validator::Always),
        spec_op_entry(MASK_OUT_Y, 0x0c70, "cmpi_16_ix", "CMPI", Size::Word, Decoder::ImmEa, Validator::Always),
        spec_op_entry(MASK_EXACT, 0x0c78, "cmpi_16_aw", "CMPI", Size::Word, Decoder::ImmEa, Validator::Always),
        spec_op_entry(MASK_EXACT, 0x0c79, "cmpi_16_al", "CMPI", Size::Word, Decoder::ImmEa, Validator::Always),
        spec_op_entry(MASK_OUT_Y, 0x0c80, "cmpi_32_dn", "CMPI", Size::Long, Decoder::ImmEa, Validator::Always),
        spec_op_entry(MASK_OUT_Y, 0x0c90, "cmpi_32_ai", "CMPI", Size::Long, Decoder::ImmEa, Validator::Always),
        spec_op_entry(MASK_OUT_Y, 0x0c98, "cmpi_32_pi", "CMPI", Size::Long, Decoder::ImmEa, Validator::Always),
        spec_op_entry(MASK_OUT_Y, 0x0ca0, "cmpi_32_pd", "CMPI", Size::Long, Decoder::ImmEa, Validator::Always),
        spec_op_entry(MASK_OUT_Y, 0x0ca8, "cmpi_32_di", "CMPI", Size::Long, Decoder::ImmEa, Validator::Always),
        spec_op_entry(MASK_OUT_Y, 0x0cb0, "cmpi_32_ix", "CMPI", Size::Long, Decoder::ImmEa, Validator::Always),
    ]
}

fn push_rules_14(v: &mut Vec<OpcodeHandler>)
    ensures
        final(v)@ == old(v)@ + rules_14(),
        forall|i: int|
            old(v)@.len() <= i < final(v)@.len() ==> rule_wf(#[trigger] final(v)@[i])
                && rule_decodable(final(v)@[i]),
{
    let ghost v0 = v@;
    v.push(op_entry(MASK_OUT_X_Y, 0xb1d0, "cmpa_32_ai", "CMPA", Size::Long, Decoder::EaAx, Validator::Always));
    v.push(op_entry(MASK_OUT_X_Y, 0xb1d8, "cmpa_32_pi", "CMPA", Size::Long, Decoder::EaAx, Validator::Always));
    v.push(op_entry(MASK_OUT_X_Y, 0xb1e0, "cmpa_32_pd", "CMPA", Size::Long, Decoder::EaAx, Validator::Always));
    v.push(op_entry(MASK_OUT_X_Y, 0xb1e8, "cmpa_32_di", "CMPA", Size::Long, Decoder::EaAx, Validator::Always));
    v.push(op_entry(MASK_OUT_X_Y, 0xb1f0, "cmpa_32_ix", "CMPA", Size::Long, Decoder::EaAx, Validator::Always));
    v.push(op_entry(MASK_OUT_X, 0xb1f8, "cmpa_32_aw", "CMPA", Size::Long, Decoder::EaAx, Validator::Always));
    v.push(op_entry(MASK_OUT_X, 0xb1f9, "cmpa_32_al", "CMPA", Size::Long, Decoder::EaAx, Validator::Always));
    v.push(op_entry(MASK_OUT_X, 0xb1fa, "cmpa_32_pcdi", "CMPA", Size::Long, Decoder::EaAx, Validator::Always));
    v.push(op_entry(MASK_OUT_X, 0xb1fb, "cmpa_32_pcix", "CMPA", Size::Long, Decoder::EaAx, Validator::Always));
    v.push(op_entry(MASK_OUT_X, 0xb1fc, "cmpa_32_imm", "CMPA", Size::Long, Decoder::EaAx, Validator::Always));
    v.push(op_entry(MASK_OUT_Y, 0x0c00, "cmpi_8_dn", "CMPI", Size::Byte, Decoder::ImmEa, Validator::Always));
    v.push(op_entry(MASK_OUT_Y, 0x0c10, "cmpi_8_ai", "CMPI", Size::Byte, Decoder::ImmEa, Validator::Always));
    v.push(op_entry(MASK_OUT_Y, 0x0c18, "cmpi_8_pi", "CMPI", Size::Byte, Decoder::ImmEa, Validator::Always));
    v.push(op_entry(MASK_OUT_Y, 0x0c20, "cmpi_8_pd", "CMPI", Size::Byte, Decoder::ImmEa, Validator::Always));
    v.push(op_entry(MASK_OUT_Y, 0x0c28, "cmpi_8_di", "CMPI", Size::Byte, Decoder::ImmEa, Validator::Always));
    v.push(op_entry(MASK_OUT_Y, 0x0c30, "cmpi_8_ix", "CMPI", Size::Byte, Decoder::ImmEa, Validator::Always));
    v.push(op_entry(MASK_EXACT, 0x0c38, "cmpi_8_aw", "CMPI", Size::Byte, Decoder::ImmEa, Validator::Always));
    v.push(op_entry(MASK_EXACT, 0x0c39, "cmpi_8_al", "CMPI", Size::Byte, Decoder::ImmEa, Validator::Always));
    v.push(op_entry(MASK_OUT_Y, 0x0c40, "cmpi_16_dn", "CMPI", Size::Word, Decoder::ImmEa, Validator::Always));
    v.push(op_entry(MASK_OUT_Y, 0x0c50, "cmpi_16_ai", "CMPI", Size::Word, Decoder::ImmEa, Validator::Always));
    v.push(op_entry(MASK_OUT_Y, 0x0c58, "cmpi_16_pi", "CMPI", Size::Word, Decoder::ImmEa, Validator::Always));
    v.push(op_entry(MASK_OUT_Y, 0x0c60, "cmpi_16_pd", "CMPI", Size::Word, Decoder::ImmEa, Validator::Always));
    v.push(op_entry(MASK_OUT_Y, 0x0c68, "cmpi_16_di", "CMPI", Size::Word, Decoder::ImmEa, Validator::Always));
    v.push(op_entry(MASK_OUT_Y, 0x0c70, "cmpi_16_ix", "CMPI", Size::Word, Decoder::ImmEa, Validator::Always));
    v.push(op_entry(MASK_EXACT, 0x0c78, "cmpi_16_aw", "CMPI", Size::Word, Decoder::ImmEa, Validator::Always));
    v.push(op_entry(MASK_EXACT, 0x0c79, "cmpi_16_al", "CMPI", Size::Word, Decoder::ImmEa, Validator::Always));
    v.push(op_entry(MASK_OUT_Y, 0x0c80, "cmpi_32_dn", "CMPI", Size::Long, Decoder::ImmEa, Validator::Always));
    v.push(op_entry(MASK_OUT_Y, 0x0c90, "cmpi_32_ai", "CMPI", Size::Long, Decoder::ImmEa, Validator::Always));
    v.push(op_entry(MASK_OUT_Y, 0x0c98, "cmpi_32_pi", "CMPI", Size::Long, Decoder::ImmEa, Validator::Always));
    v.push(op_entry(MASK_OUT_Y, 0x0ca0, "cmpi_32_pd", "CMPI", Size::Long, Decoder::ImmEa, Validator::Always));
    v.push(op_entry(MASK_OUT_Y, 0x0ca8, "cmpi_32_di", "CMPI", Size::Long, Decoder::ImmEa, Validator::Always));
    v.push(op_entry(MASK_OUT_Y, 0x0cb0, "cmpi_32_ix", "CMPI", Size::Long, Decoder::ImmEa, Validator::Always));
    proof {
        assert(v@ =~= v0 + rules_14());
    }
}

/// Rules cmpi_32_aw through divs_16_pi.
pub open spec fn rules_15() -> Seq<OpcodeHandler> {
    seq![
        spec_op_entry(MASK_EXACT, 0x0cb8, "cmpi_32_aw", "CMPI", Size::Long, Decoder::ImmEa, Validator::Always),
        spec_op_entry(MASK_EXACT, 0x0cb9, "cmpi_32_al", "CMPI", Size::Long, Decoder::ImmEa, Validator::Always),
        spec_op_entry(MASK_OUT_X_Y, 0xb108, "cmpm_8", "CMPM", Size::Byte, Decoder::PiPi, Validator::Always),
        spec_op_entry(MASK_OUT_X_Y, 0xb148, "cmpm_16", "CMPM", Size::Word, Decoder::PiPi, Validator::Always),
        spec_op_entry(MASK_OUT_X_Y, 0xb188, "cmpm_32", "CMPM", Size::Long, Decoder::PiPi, Validator::Always),
        spec_op_entry(MASK_OUT_Y, 0x50c8, "dbt_16", "DBT", Size::Word, Decoder::DnDisp, Validator::Always),
        spec_op_entry(MASK_OUT_Y, 0x51c8, "dbf_16", "DBF", Size::Word, Decoder::DnDisp, Validator::Always),
        spec_op_entry(MASK_OUT_Y, 0x52c8, "dbhi_16", "DBHI", Size::Word, Decoder::DnDisp, Validator::Always),
        spec_op_entry(MASK_OUT_Y, 0x53c8, "dbls_16", "DBLS", Size::Word, Decoder::DnDisp, Validator::Always),
        spec_op_entry(MASK_OUT_Y, 0x54c8, "dbcc_16", "DBCC", Size::Word, Decoder::DnDisp, Validator::Always),
        spec_op_entry(MASK_OUT_Y, 0x55c8, "dbcs_16", "DBCS", Size::Word, Decoder::DnDisp, Validator::Always),
        spec_op_entry(MASK_OUT_Y, 0x56c8, "dbne_16", "DBNE", Size::Word, Decoder::DnDisp, Validator::Always),
        spec_op_entry(MASK_OUT_Y, 0x57c8, "dbeq_16", "DBEQ", Size::Word, Decoder::DnDisp, Validator::Always),
        spec_op_entry(MASK_OUT_Y, 0x58c8, "dbvc_16", "DBVC", Size::Word, Decoder::DnDisp, Validator::Always),
        spec_op_entry(MASK_OUT_Y, 0x59c8, "dbvs_16", "DBVS", Size::Word, Decoder::DnDisp, Validator::Always),
        spec_op_entry(MASK_OUT_Y, 0x5ac8, "dbpl_16", "DBPL", Size::Word, Decoder::DnDisp, Validator::Always),
        spec_op_entry(MASK_OUT_Y, 0x5bc8, "dbmi_16", "DBMI", Size::Word, Decoder::DnDisp, Validator::Always),
        spec_op_entry(MASK_OUT_Y, 0x5cc8, "dbge_16", "DBGE", Size::Word, Decoder::DnDisp, Validator::Always),
        spec_op_entry(MASK_OUT_Y, 0x5dc8, "dblt_16", "DBLT", Size::Word, Decoder::DnDisp, Validator::Always),
        spec_op_entry(MASK_OUT_Y, 0x5ec8, "dbgt_16", "DBGT", Size::Word, Decoder::DnDisp, Validator::Always),
        spec_op_entry(MASK_OUT_Y, 0x5fc8, "dble_16", "DBLE", Size::Word, Decoder::DnDisp, Validator::Always),
        spec_op_entry(MASK_OUT_X_Y, 0x81d0, "divs_16_ai", "DIVS", Size::Word, Decoder::EaDx, Validator::Always),
        spec_op_entry(MASK_OUT_X, 0x81f9, "divs_16_al", "DIVS", Size::Word, Decoder::EaDx, Validator::Always),
        spec_op_entry(MASK_OUT_X, 0x81f8, "divs_16_aw", "DIVS", Size::Word, Decoder::EaDx, Validator::Always),
        spec_op_entry(MASK_OUT_X_Y, 0x81c0, "divs_16_dn", "DIVS", Size::Word, Decoder::EaDx, Validator::Always),
        spec_op_entry(MASK_OUT_X_Y, 0x81e8, "divs_16_di", "DIVS", Size::Word, Decoder::EaDx, Validator::Always),
        spec_op_entry(MASK_OUT_X, 0x81fc, "divs_16_imm", "DIVS", Size::Word, Decoder::EaDx, Validator::Always),
        spec_op_entry(MASK_OUT_X_Y, 0x81f0, "divs_16_ix", "DIVS", Size::Word, Decoder::EaDx, Validator::Always),
        spec_op_entry(MASK_OUT_X, 0x81fa, "divs_16_pcdi", "DIVS", Size::Word, Decoder::EaDx, Validator::Always),
        spec_op_entry(MASK_OUT_X, 0x81fb, "divs_16_pcix", "DIVS", Size::Word, Decoder::EaDx, Validator::Always),
        spec_op_entry(MASK_OUT_X_Y, 0x81e0, "divs_16_pd", "DIVS", Size::Word, Decoder::EaDx, Validator::Always),
        spec_op_entry(MASK_OUT_X_Y, 0x81d8, "divs_16_pi", "DIVS", Size::Word, Decoder::EaDx, Validator::Always),
    ]
}

fn push_rules_15(v: &mut Vec<OpcodeHandler>)
    ensures
        final(v)@ == old(v)@ + rules_15(),
        forall|i: int|
            old(v)@.len() <= i < final(v)@.len() ==> rule_wf(#[trigger] final(v)@[i])
                && rule_decodable(final(v)@[i]),
{
    let ghost v0 = v@;
    v.push(op_entry(MASK_EXACT, 0x0cb8, "cmpi_32_aw", "CMPI", Size::Long, Decoder::ImmEa, Validator::Always));
    v.push(op_entry(MASK_EXACT, 0x0cb9, "cmpi_32_al", "CMPI", Size::Long, Decoder::ImmEa, Validator::Always));
    v.push(op_entry(MASK_OUT_X_Y, 0xb108, "cmpm_8", "CMPM", Size::Byte, Decoder::PiPi, Validator::Always));
    v.push(op_entry(MASK_OUT_X_Y, 0xb148, "cmpm_16", "CMPM", Size::Word, Decoder::PiPi, Validator::Always));
    v.push(op_entry(MASK_OUT_X_Y, 0xb188, "cmpm_32", "CMPM", Size::Long, Decoder::PiPi, Validator::Always));
    v.push(op_entry(MASK_OUT_Y, 0x50c8, "dbt_16", "DBT", Size::Word, Decoder::DnDisp, Validator::Always));
    v.push(op_entry(MASK_OUT_Y, 0x51c8, "dbf_16", "DBF", Size::Word, Decoder::DnDisp, Validator::Always));
    v.push(op_entry(MASK_OUT_Y, 0x52c8, "dbhi_16", "DBHI", Size::Word, Decoder::DnDisp, Validator::Always));
    v.push(op_entry(MASK_OUT_Y, 0x53c8, "dbls_16", "DBLS", Size::Word, Decoder::DnDisp, Validator::Always));
    v.push(op_entry(MASK_OUT_Y, 0x54c8, "dbcc_16", "DBCC", Size::Word, Decoder::DnDisp, Validator::Always));
    v.push(op_entry(MASK_OUT_Y, 0x55c8, "dbcs_16", "DBCS", Size::Word, Decoder::DnDisp, Validator::Always));
    v.push(op_entry(MASK_OUT_Y, 0x56c8, "dbne_16", "DBNE", Size::Word, Decoder::DnDisp, Validator::Always));
    v.push(op_entry(MASK_OUT_Y, 0x57c8, "dbeq_16", "DBEQ", Size::Word, Decoder::DnDisp, Validator::Always));
    v.push(op_entry(MASK_OUT_Y, 0x58c8, "dbvc_16", "DBVC", Size::Word, Decoder::DnDisp, Validator::Always));
    v.push(op_entry(MASK_OUT_Y, 0x59c8, "dbvs_16", "DBVS", Size::Word, Decoder::DnDisp, Validator::Always));
    v.push(op_entry(MASK_OUT_Y, 0x5ac8, "dbpl_16", "DBPL", Size::Word, Decoder::DnDisp, Validator::Always));
    v.push(op_entry(MASK_OUT_Y, 0x5bc8, "dbmi_16", "DBMI", Size::Word, Decoder::DnDisp, Validator::Always));
    v.push(op_entry(MASK_OUT_Y, 0x5cc8, "dbge_16", "DBGE", Size::Word, Decoder::DnDisp, Validator::Always));
    v.push(op_entry(MASK_OUT_Y, 0x5dc8, "dblt_16", "DBLT", Size::Word, Decoder::DnDisp, Validator::Always));
    v.push(op_entry(MASK_OUT_Y, 0x5ec8, "dbgt_16", "DBGT", Size::Word, Decoder::DnDisp, Validator::Always));
    v.push(op_entry(MASK_OUT_Y, 0x5fc8, "dble_16", "DBLE", Size::Word, Decoder::DnDisp, Validator::Always));
    v.push(op_entry(MASK_OUT_X_Y, 0x81d0, "divs_16_ai", "DIVS", Size::Word, Decoder::EaDx, Validator::Always));
    v.push(op_entry(MASK_OUT_X, 0x81f9, "divs_16_al", "DIVS", Size::Word, Decoder::EaDx, Validator::Always));
    v.push(op_entry(MASK_OUT_X, 0x81f8, "divs_16_aw", "DIVS", Size::Word, Decoder::EaDx, Validator::Always));
    v.push(op_entry(MASK_OUT_X_Y, 0x81c0, "divs_16_dn", "DIVS", Size::Word, Decoder::EaDx, Validator::Always));
    v.push(op_entry(MASK_OUT_X_Y, 0x81e8, "divs_16_di", "DIVS", Size::Word, Decoder::EaDx, Validator::Always));
    v.push(op_entry(MASK_OUT_X, 0x81fc, "divs_16_imm", "DIVS", Size::Word, Decoder::EaDx, Validator::Always));
    v.push(op_entry(MASK_OUT_X_Y, 0x81f0, "divs_16_ix", "DIVS", Size::Word, Decoder::EaDx, Validator::Always));
    v.push(op_entry(MASK_OUT_X, 0x81fa, "divs_16_pcdi", "DIVS", Size::Word, Decoder::EaDx, Validator::Always));
    v.push(op_entry(MASK_OUT_X, 0x81fb, "divs_16_pcix", "DIVS", Size::Word, Decoder::EaDx, Validator::Always));
    v.push(op_entry(MASK_OUT_X_Y, 0x81e0, "divs_16_pd", "DIVS", Size::Word, Decoder::EaDx, Validator::Always));
    v.push(op_entry(MASK_OUT_X_Y, 0x81d8, "divs_16_pi", "DIVS", Size::Word, Decoder::EaDx, Validator::Always));
    proof {
        assert(v@ =~= v0 + rules_15());
    }
}

/// Rules divu_16_ai through eor_32_di.
pub open spec fn rules_16() -> Seq<OpcodeHandler> {
    seq![
        spec_op_entry(MASK_OUT_X_Y, 0x80d0, "divu_16_ai", "DIVU", Size::Word, Decoder::EaDx, Validator::Always),
        spec_op_entry(MASK_OUT_X, 0x80f9, "divu_16_al", "DIVU", Size::Word, Decoder::EaDx, Validator::Always),
        spec_op_entry(MASK_OUT_X, 0x80f8, "divu_16_aw", "DIVU", Size::Word, Decoder::EaDx, Validator::Always),
        spec_op_entry(MASK_OUT_X_Y, 0x80c0, "divu_16_dn", "DIVU", Size::Word, Decoder::EaDx, Validator::Always),
        spec_op_entry(MASK_OUT_X_Y, 0x80e8, "divu_16_di", "DIVU", Size::Word, Decoder::EaDx, Validator::Always),
        spec_op_entry(MASK_OUT_X, 0x80fc, "divu_16_imm", "DIVU", Size::Word, Decoder::EaDx, Validator::Always),
        spec_op_entry(MASK_OUT_X_Y, 0x80f0, "divu_16_ix", "DIVU", Size::Word, Decoder::EaDx, Validator::Always),
        spec_op_entry(MASK_OUT_X, 0x80fa, "divu_16_pcdi", "DIVU", Size::Word, Decoder::EaDx, Validator::Always),
        spec_op_entry(MASK_OUT_X, 0x80fb, "divu_16_pcix", "DIVU", Size::Word, Decoder::EaDx, Validator::Always),
        spec_op_entry(MASK_OUT_X_Y, 0x80e0, "divu_16_pd", "DIVU", Size::Word, Decoder::EaDx, Validator::Always),
        spec_op_entry(MASK_OUT_X_Y, 0x80d8, "divu_16_pi", "DIVU", Size::Word, Decoder::EaDx, Validator::Always),
        spec_op_entry(MASK_OUT_X_Y, 0xb100, "eor_8_dn", "EOR", Size::Byte, Decoder::DxEa, Validator::Always),
        spec_op_entry(MASK_OUT_X_Y, 0xb110, "eor_8_ai", "EOR", Size::Byte, Decoder::DxEa, Validator::Always),
        spec_op_entry(MASK_OUT_X_Y, 0xb118, "eor_8_pi", "EOR", Size::Byte, Decoder::DxEa, Validator::Always),
        spec_op_entry(MASK_OUT_X_Y, 0xb120, "eor_8_pd", "EOR", Size::Byte, Decoder::DxEa, Validator::Always),
        spec_op_entry(MASK_OUT_X_Y, 0xb128, "eor_8_di", "EOR", Size::Byte, Decoder::DxEa, Validator::Always),
        spec_op_entry(MASK_OUT_X_Y, 0xb130, "eor_8_ix", "EOR", Size::Byte, Decoder::DxEa, Validator::Always),
        spec_op_entry(MASK_OUT_X, 0xb138, "eor_8_aw", "EOR", Size::Byte, Decoder::DxEa, Validator::Always),
        spec_op_entry(MASK_OUT_X, 0xb139, "eor_8_al", "EOR", Size::Byte, Decoder::DxEa, Validator::Always),
        spec_op_entry(MASK_OUT_X_Y, 0xb140, "eor_16_dn", "EOR", Size::Word, Decoder::DxEa, Validator::Always),
        spec_op_entry(MASK_OUT_X_Y, 0xb150, "eor_16_ai", "EOR", Size::Word, Decoder::DxEa, Validator::Always),
        spec_op_entry(MASK_OUT_X_Y, 0xb158, "eor_16_pi", "EOR", Size::Word, Decoder::DxEa, Validator::Always),
        spec_op_entry(MASK_OUT_X_Y, 0xb160, "eor_16_pd", "EOR", Size::Word, Decoder::DxEa, Validator::Always),
        spec_op_entry(MASK_OUT_X_Y, 0xb168, "eor_16_di", "EOR", Size::Word, Decoder::DxEa, Validator::Always),
        spec_op_entry(MASK_OUT_X_Y, 0xb170, "eor_16_ix", "EOR", Size::Word, Decoder::DxEa, Validator::Always),
        spec_op_entry(MASK_OUT_X, 0xb178, "eor_16_aw", "EOR", Size::Word, Decoder::DxEa, Validator::Always),
        spec_op_entry(MASK_OUT_X, 0xb179, "eor_16_al", "EOR", Size::Word, Decoder::DxEa, Validator::Always),
        spec_op_entry(MASK_OUT_X_Y, 0xb180, "eor_32_dn", "EOR", Size::Long, Decoder::DxEa, Validator::Always),
        spec_op_entry(MASK_OUT_X_Y, 0xb190, "eor_32_ai", "EOR", Size::Long, Decoder::DxEa, Validator::Always),
        spec_op_entry(MASK_OUT_X_Y, 0xb198, "eor_32_pi", "EOR", Size::Long, Decoder::DxEa, Validator::Always),
        spec_op_entry(MASK_OUT_X_Y, 0xb1a0, "eor_32_pd", "EOR", Size::Long, Decoder::DxEa, Validator::Always),
        spec_op_entry(MASK_OUT_X_Y, 0xb1a8, "eor_32_di", "EOR", Size::Long, Decoder::DxEa, Validator::Always),
    ]
}

fn push_rules_16(v: &mut Vec<OpcodeHandler>)
    ensures
        final(v)@ == old(v)@ + rules_16(),
        forall|i: int|
            old(v)@.len() <= i < final(v)@.len() ==> rule_wf(#[trigger] final(v)@[i])
                && rule_decodable(final(v)@[i]),
{
    let ghost v0 = v@;
    v.push(op_entry(MASK_OUT_X_Y, 0x80d0, "divu_16_ai", "DIVU", Size::Word, Decoder::EaDx, Validator::Always));
    v.push(op_entry(MASK_OUT_X, 0x80f9, "divu_16_al", "DIVU", Size::Word, Decoder::EaDx, Validator::Always));
    v.push(op_entry(MASK_OUT_X, 0x80f8, "divu_16_aw", "DIVU", Size::Word, Decoder::EaDx, Validator::Always));
    v.push(op_entry(MASK_OUT_X_Y, 0x80c0, "divu_16_dn", "DIVU", Size::Word, Decoder::EaDx, Validator::Always));
    v.push(op_entry(MASK_OUT_X_Y, 0x80e8, "divu_16_di", "DIVU", Size::Word, Decoder::EaDx, Validator::Always));
    v.push(op_entry(MASK_OUT_X, 0x80fc, "divu_16_imm", "DIVU", Size::Word, Decoder::EaDx, Validator::Always));
    v.push(op_entry(MASK_OUT_X_Y, 0x80f0, "divu_16_ix", "DIVU", Size::Word, Decoder::EaDx, Validator::Always));
    v.push(op_entry(MASK_OUT_X, 0x80fa, "divu_16_pcdi", "DIVU", Size::Word, Decoder::EaDx, Validator::Always));
    v.push(op_entry(MASK_OUT_X, 0x80fb, "divu_16_pcix", "DIVU", Size::Word, Decoder::EaDx, Validator::Always));
    v.push(op_entry(MASK_OUT_X_Y, 0x80e0, "divu_16_pd", "DIVU", Size::Word, Decoder::EaDx, Validator::Always));
    v.push(op_entry(MASK_OUT_X_Y, 0x80d8, "divu_16_pi", "DIVU", Size::Word, Decoder::EaDx, Validator::Always));
    v.push(op_entry(MASK_OUT_X_Y, 0xb100, "eor_8_dn", "EOR", Size::Byte, Decoder::DxEa, Validator::Always));
    v.push(op_entry(MASK_OUT_X_Y, 0xb110, "eor_8_ai", "EOR", Size::Byte, Decoder::DxEa, Validator::Always));
    v.push(op_entry(MASK_OUT_X_Y, 0xb118, "eor_8_pi", "EOR", Size::Byte, Decoder::DxEa, Validator::Always));
    v.push(op_entry(MASK_OUT_X_Y, 0xb120, "eor_8_pd", "EOR", Size::Byte, Decoder::DxEa, Validator::Always));
    v.push(op_entry(MASK_OUT_X_Y, 0xb128, "eor_8_di", "EOR", Size::Byte, Decoder::DxEa, Validator::Always));
    v.push(op_entry(MASK_OUT_X_Y, 0xb130, "eor_8_ix", "EOR", Size::Byte, Decoder::DxEa, Validator::Always));
    v.push(op_entry(MASK_OUT_X, 0xb138, "eor_8_aw", "EOR", Size::Byte, Decoder::DxEa, Validator::Always));
    v.push(op_entry(MASK_OUT_X, 0xb139, "eor_8_al", "EOR", Size::Byte, Decoder::DxEa, Validator::Always));
    v.push(op_entry(MASK_OUT_X_Y, 0xb140, "eor_16_dn", "EOR", Size::Word, Decoder::DxEa, Validator::Always));
    v.push(op_entry(MASK_OUT_X_Y, 0xb150, "eor_16_ai", "EOR", Size::Word, Decoder::DxEa, Validator::Always));
    v.push(op_entry(MASK_OUT_X_Y, 0xb158, "eor_16_pi", "EOR", Size::Word, Decoder::DxEa, Validator::Always));
    v.push(op_entry(MASK_OUT_X_Y, 0xb160, "eor_16_pd", "EOR", Size::Word, Decoder::DxEa, Validator::Always));
    v.push(op_entry(MASK_OUT_X_Y, 0xb168, "eor_16_di", "EOR", Size::Word, Decoder::DxEa, Validator::Always));
    v.push(op_entry(MASK_OUT_X_Y, 0xb170, "eor_16_ix", "EOR", Size::Word, Decoder::DxEa, Validator::Always));
    v.push(op_entry(MASK_OUT_X, 0xb178, "eor_16_aw", "EOR", Size::Word, Decoder::DxEa, Validator::Always));
    v.push(op_entry(MASK_OUT_X, 0xb179, "eor_16_al", "EOR", Size::Word, Decoder::DxEa, Validator::Always));
    v.push(op_entry(MASK_OUT_X_Y, 0xb180, "eor_32_dn", "EOR", Size::Long, Decoder::DxEa, Validator::Always));
    v.push(op_entry(MASK_OUT_X_Y, 0xb190, "eor_32_ai", "EOR", Size::Long, Decoder::DxEa, Validator::Always));
    v.push(op_entry(MASK_OUT_X_Y, 0xb198, "eor_32_pi", "EOR", Size::Long, Decoder::DxEa, Validator::Always));
    v.push(op_entry(MASK_OUT_X_Y, 0xb1a0, "eor_32_pd", "EOR", Size::Long, Decoder::DxEa, Validator::Always));
    v.push(op_entry(MASK_OUT_X_Y, 0xb1a8, "eor_32_di", "EOR", Size::Long, Decoder::DxEa, Validator::Always));
    proof {
        assert(v@ =~= v0 + rules_16());
    }
}

/// Rules eor_32_ix through exg_32_da.
pub open spec fn rules_17() -> Seq<OpcodeHandler> {
    seq![
        spec_op_entry(MASK_OUT_X_Y, 0xb1b0, "eor_32_ix", "EOR", Size::Long, Decoder::DxEa, Validator::Always),
        spec_op_entry(MASK_OUT_X, 0xb1b8, "eor_32_aw", "EOR", Size::Long, Decoder::DxEa, Validator::Always),
        spec_op_entry(MASK_OUT_X, 0xb1b9, "eor_32_al", "EOR", Size::Long, Decoder::DxEa, Validator::Always),
        spec_op_entry(MASK_OUT_Y, 0x0a00, "eori_8_dn", "EORI", Size::Byte, Decoder::ImmEa, Validator::Always),
        spec_op_entry(MASK_OUT_Y, 0x0a10, "eori_8_ai", "EORI", Size::Byte, Decoder::ImmEa, Validator::Always),
        spec_op_entry(MASK_OUT_Y, 0x0a18, "eori_8_pi", "EORI", Size::Byte, Decoder::ImmEa, Validator::Always),
        spec_op_entry(MASK_OUT_Y, 0x0a20, "eori_8_pd", "EORI", Size::Byte, Decoder::ImmEa, Validator::Always),
        spec_op_entry(MASK_OUT_Y, 0x0a28, "eori_8_di", "EORI", Size::Byte, Decoder::ImmEa, Validator::Always),
        spec_op_entry(MASK_OUT_Y, 0x0a30, "eori_8_ix", "EORI", Size::Byte, Decoder::ImmEa, Validator::Always),
        spec_op_entry(MASK_EXACT, 0x0a38, "eori_8_aw", "EORI", Size::Byte, Decoder::ImmEa, Validator::Always),
        spec_op_entry(MASK_EXACT, 0x0a39, "eori_8_al", "EORI", Size::Byte, Decoder::ImmEa, Validator::Always),
        spec_op_entry(MASK_OUT_Y, 0x0a40, "eori_16_dn", "EORI", Size::Word, Decoder::ImmEa, Validator::Always),
        spec_op_entry(MASK_OUT_Y, 0x0a50, "eori_16_ai", "EORI", Size::Word, Decoder::ImmEa, Validator::Always),
        spec_op_entry(MASK_OUT_Y, 0x0a58, "eori_16_pi", "EORI", Size::Word, Decoder::ImmEa, Validator::Always),
        spec_op_entry(MASK_OUT_Y, 0x0a60, "eori_16_pd", "EORI", Size::Word, Decoder::ImmEa, Validator::Always),
        spec_op_entry(MASK_OUT_Y, 0x0a68, "eori_16_di", "EORI", Size::Word, Decoder::ImmEa, Validator::Always),
        spec_op_entry(MASK_OUT_Y, 0x0a70, "eori_16_ix", "EORI", Size::Word, Decoder::ImmEa, Validator::Always),
        spec_op_entry(MASK_EXACT, 0x0a78, "eori_16_aw", "EORI", Size::Word, Decoder::ImmEa, Validator::Always),
        spec_op_entry(MASK_EXACT, 0x0a79, "eori_16_al", "EORI", Size::Word, Decoder::ImmEa, Validator::Always),
        spec_op_entry(MASK_OUT_Y, 0x0a80, "eori_32_dn", "EORI", Size::Long, Decoder::ImmEa, Validator::Always),
        spec_op_entry(MASK_OUT_Y, 0x0a90, "eori_32_ai", "EORI", Size::Long, Decoder::ImmEa, Validator::Always),
        spec_op_entry(MASK_OUT_Y, 0x0a98, "eori_32_pi", "EORI", Size::Long, Decoder::ImmEa, Validator::Always),
        spec_op_entry(MASK_OUT_Y, 0x0aa0, "eori_32_pd", "EORI", Size::Long, Decoder::ImmEa, Validator::Always),
        spec_op_entry(MASK_OUT_Y, 0x0aa8, "eori_32_di", "EORI", Size::Long, Decoder::ImmEa, Validator::Always),
        spec_op_entry(MASK_OUT_Y, 0x0ab0, "eori_32_ix", "EORI", Size::Long, Decoder::ImmEa, Validator::Always),
        spec_op_entry(MASK_EXACT, 0x0ab8, "eori_32_aw", "EORI", Size::Long, Decoder::ImmEa, Validator::Always),
        spec_op_entry(MASK_EXACT, 0x0ab9, "eori_32_al", "EORI", Size::Long, Decoder::ImmEa, Validator::Always),
        spec_op_entry(MASK_EXACT, 0x0a3c, "eori_8_toc", "EORI", Size::Byte, Decoder::ImmCcr, Validator::Always),
        spec_op_entry(MASK_EXACT, 0x0a7c, "eori_16_tos", "EORI", Size::Word, Decoder::ImmSr, Validator::Always),
        spec_op_entry(MASK_OUT_X_Y, 0xc140, "exg_32_dd", "EXG", Size::Long, Decoder::ExgDd, Validator::Always),
        spec_op_entry(MASK_OUT_X_Y, 0xc148, "exg_32_aa", "EXG", Size::Long, Decoder::ExgAa, Validator::Always),
        spec_op_entry(MASK_OUT_X_Y, 0xc188, "exg_32_da", "EXG", Size::Long, Decoder::ExgDa, Validator::Always),
    ]
}

fn push_rules_17(v: &mut Vec<OpcodeHandler>)
    ensures
        final(v)@ == old(v)@ + rules_17(),
        forall|i: int|
            old(v)@.len() <= i < final(v)@.len() ==> rule_wf(#[trigger] final(v)@[i])
                && rule_decodable(final(v)@[i]),
{
    let ghost v0 = v@;
    v.push(op_entry(MASK_OUT_X_Y, 0xb1b0, "eor_32_ix", "EOR", Size::Long, Decoder::DxEa, Validator::Always));
    v.push(op_entry(MASK_OUT_X, 0xb1b8, "eor_32_aw", "EOR", Size::Long, Decoder::DxEa, Validator::Always));
    v.push(op_entry(MASK_OUT_X, 0xb1b9, "eor_32_al", "EOR", Size::Long, Decoder::DxEa, Validator::Always));
    v.push(op_entry(MASK_OUT_Y, 0x0a00, "eori_8_dn", "EORI", Size::Byte, Decoder::ImmEa, Validator::Always));
    v.push(op_entry(MASK_OUT_Y, 0x0a10, "eori_8_ai", "EORI", Size::Byte, Decoder::ImmEa, Validator::Always));
    v.push(op_entry(MASK_OUT_Y, 0x0a18, "eori_8_pi", "EORI", Size::Byte, Decoder::ImmEa, Validator::Always));
    v.push(op_entry(MASK_OUT_Y, 0x0a20, "eori_8_pd", "EORI", Size::Byte, Decoder::ImmEa, Validator::Always));
    v.push(op_entry(MASK_OUT_Y, 0x0a28, "eori_8_di", "EORI", Size::Byte, Decoder::ImmEa, Validator::Always));
    v.push(op_entry(MASK_OUT_Y, 0x0a30, "eori_8_ix", "EORI", Size::Byte, Decoder::ImmEa, Validator::Always));
    v.push(op_entry(MASK_EXACT, 0x0a38, "eori_8_aw", "EORI", Size::Byte, Decoder::ImmEa, Validator::Always));
    v.push(op_entry(MASK_EXACT, 0x0a39, "eori_8_al", "EORI", Size::Byte, Decoder::ImmEa, Validator::Always));
    v.push(op_entry(MASK_OUT_Y, 0x0a40, "eori_16_dn", "EORI", Size::Word, Decoder::ImmEa, Validator::Always));
    v.push(op_entry(MASK_OUT_Y, 0x0a50, "eori_16_ai", "EORI", Size::Word, Decoder::ImmEa, Validator::Always));
    v.push(op_entry(MASK_OUT_Y, 0x0a58, "eori_16_pi", "EORI", Size::Word, Decoder::ImmEa, Validator::Always));
    v.push(op_entry(MASK_OUT_Y, 0x0a60, "eori_16_pd", "EORI", Size::Word, Decoder::ImmEa, Validator::Always));
    v.push(op_entry(MASK_OUT_Y, 0x0a68, "eori_16_di", "EORI", Size::Word, Decoder::ImmEa, Validator::Always));
    v.push(op_entry(MASK_OUT_Y, 0x0a70, "eori_16_ix", "EORI", Size::Word, Decoder::ImmEa, Validator::Always));
    v.push(op_entry(MASK_EXACT, 0x0a78, "eori_16_aw", "EORI", Size::Word, Decoder::ImmEa, Validator::Always));
    v.push(op_entry(MASK_EXACT, 0x0a79, "eori_16_al", "EORI", Size::Word, Decoder::ImmEa, Validator::Always));
    v.push(op_entry(MASK_OUT_Y, 0x0a80, "eori_32_dn", "EORI", Size::Long, Decoder::ImmEa, Validator::Always));
    v.push(op_entry(MASK_OUT_Y, 0x0a90, "eori_32_ai", "EORI", Size::Long, Decoder::ImmEa, Validator::Always));
    v.push(op_entry(MASK_OUT_Y, 0x0a98, "eori_32_pi", "EORI", Size::Long, Decoder::ImmEa, Validator::Always));
    v.push(op_entry(MASK_OUT_Y, 0x0aa0, "eori_32_pd", "EORI", Size::Long, Decoder::ImmEa, Validator::Always));
    v.push(op_entry(MASK_OUT_Y, 0x0aa8, "eori_32_di", "EORI", Size::Long, Decoder::ImmEa, Validator::Always));
    v.push(op_entry(MASK_OUT_Y, 0x0ab0, "eori_32_ix", "EORI", Size::Long, Decoder::ImmEa, Validator::Always));
    v.push(op_entry(MASK_EXACT, 0x0ab8, "eori_32_aw", "EORI", Size::Long, Decoder::ImmEa, Validator::Always));
    v.push(op_entry(MASK_EXACT, 0x0ab9, "eori_32_al", "EORI", Size::Long, Decoder::ImmEa, Validator::Always));
    v.push(op_entry(MASK_EXACT, 0x0a3c, "eori_8_toc", "EORI", Size::Byte, Decoder::ImmCcr, Validator::Always));
    v.push(op_entry(MASK_EXACT, 0x0a7c, "eori_16_tos", "EORI", Size::Word, Decoder::ImmSr, Validator::Always));
    v.push(op_entry(MASK_OUT_X_Y, 0xc140, "exg_32_dd", "EXG", Size::Long, Decoder::ExgDd, Validator::Always));
    v.push(op_entry(MASK_OUT_X_Y, 0xc148, "exg_32_aa", "EXG", Size::Long, Decoder::ExgAa, Validator::Always));
    v.push(op_entry(MASK_OUT_X_Y, 0xc188, "exg_32_da", "EXG", Size::Long, Decoder::ExgDa, Validator::Always));
    proof {
        assert(v@ =~= v0 + rules_17());
    }
}

/// Rules ext_bw through lsl_8_s.
pub open spec fn rules_18() -> Seq<OpcodeHandler> {
    seq![
        spec_op_entry(MASK_OUT_Y, 0x4880, "ext_bw", "EXT", Size::Word, Decoder::DnOnly, Validator::Always),
        spec_op_entry(MASK_OUT_Y, 0x48c0, "ext_wl", "EXT", Size::Long, Decoder::DnOnly, Validator::Always),
        spec_op_entry(MASK_EXACT, 0x4afc, "real_illegal", "ILLEGAL", Size::Unsized, Decoder::NoOperands, Validator::Always),
        spec_op_entry(MASK_OUT_Y, 0x4ed0, "jmp_32_ai", "JMP", Size::Long, Decoder::Ea, Validator::Always),
        spec_op_entry(MASK_EXACT, 0x4ef9, "jmp_32_al", "JMP", Size::Long, Decoder::Ea, Validator::Always),
        spec_op_entry(MASK_EXACT, 0x4ef8, "jmp_32_aw", "JMP", Size::Long, Decoder::Ea, Validator::Always),
        spec_op_entry(MASK_OUT_Y, 0x4ee8, "jmp_32_di", "JMP", Size::Long, Decoder::Ea, Validator::Always),
        spec_op_entry(MASK_OUT_Y, 0x4ef0, "jmp_32_ix", "JMP", Size::Long, Decoder::Ea, Validator::Always),
        spec_op_entry(MASK_EXACT, 0x4efa, "jmp_32_pcdi", "JMP", Size::Long, Decoder::Ea, Validator::Always),
        spec_op_entry(MASK_EXACT, 0x4efb, "jmp_32_pcix", "JMP", Size::Long, Decoder::Ea, Validator::Always),
        spec_op_entry(MASK_OUT_Y, 0x4e90, "jsr_32_ai", "JSR", Size::Long, Decoder::Ea, Validator::Always),
        spec_op_entry(MASK_EXACT, 0x4eb9, "jsr_32_al", "JSR", Size::Long, Decoder::Ea, Validator::Always),
        spec_op_entry(MASK_EXACT, 0x4eb8, "jsr_32_aw", "JSR", Size::Long, Decoder::Ea, Validator::Always),
        spec_op_entry(MASK_OUT_Y, 0x4ea8, "jsr_32_di", "JSR", Size::Long, Decoder::Ea, Validator::Always),
        spec_op_entry(MASK_OUT_Y, 0x4eb0, "jsr_32_ix", "JSR", Size::Long, Decoder::Ea, Validator::Always),
        spec_op_entry(MASK_EXACT, 0x4eba, "jsr_32_pcdi", "JSR", Size::Long, Decoder::Ea, Validator::Always),
        spec_op_entry(MASK_EXACT, 0x4ebb, "jsr_32_pcix", "JSR", Size::Long, Decoder::Ea, Validator::Always),
        spec_op_entry(MASK_OUT_X_Y, 0x41d0, "lea_32_ai", "LEA", Size::Long, Decoder::EaAx, Validator::Always),
        spec_op_entry(MASK_OUT_X, 0x41f9, "lea_32_al", "LEA", Size::Long, Decoder::EaAx, Validator::Always),
        spec_op_entry(MASK_OUT_X, 0x41f8, "lea_32_aw", "LEA", Size::Long, Decoder::EaAx, Validator::Always),
        spec_op_entry(MASK_OUT_X_Y, 0x41e8, "lea_32_di", "LEA", Size::Long, Decoder::EaAx, Validator::Always),
        spec_op_entry(MASK_OUT_X_Y, 0x41f0, "lea_32_ix", "LEA", Size::Long, Decoder::EaAx, Validator::Always),
        spec_op_entry(MASK_OUT_X, 0x41fa, "lea_32_pcdi", "LEA", Size::Long, Decoder::EaAx, Validator::Always),
        spec_op_entry(MASK_OUT_X, 0x41fb, "lea_32_pcix", "LEA", Size::Long, Decoder::EaAx, Validator::Always),
        spec_op_entry(MASK_OUT_Y, 0x4e50, "link_16", "LINK", Size::Word, Decoder::LinkImm, Validator::Always),
        spec_op_entry(MASK_OUT_X_Y, 0xe008, "lsr_8_s", "LSR", Size::Byte, Decoder::ShiftImm, Validator::Always),
        spec_op_entry(MASK_OUT_X_Y, 0xe048, "lsr_16_s", "LSR", Size::Word, Decoder::ShiftImm, Validator::Always),
        spec_op_entry(MASK_OUT_X_Y, 0xe088, "lsr_32_s", "LSR", Size::Long, Decoder::ShiftImm, Validator::Always),
        spec_op_entry(MASK_OUT_X_Y, 0xe028, "lsr_8_r", "LSR", Size::Byte, Decoder::ShiftReg, Validator::Always),
        spec_op_entry(MASK_OUT_X_Y, 0xe068, "lsr_16_r", "LSR", Size::Word, Decoder::ShiftReg, Validator::Always),
        spec_op_entry(MASK_OUT_X_Y, 0xe0a8, "lsr_32_r", "LSR", Size::Long, Decoder::ShiftReg, Validator::Always),
        spec_op_entry(MASK_OUT_X_Y, 0xe108, "lsl_8_s", "LSL", Size::Byte, Decoder::ShiftImm, Validator::Always),
    ]
}

fn push_rules_18(v: &mut Vec<OpcodeHandler>)
    ensures
        final(v)@ == old(v)@ + rules_18(),
        forall|i: int|
            old(v)@.len() <= i < final(v)@.len() ==> rule_wf(#[trigger] final(v)@[i])
                && rule_decodable(final(v)@[i]),
{
    let ghost v0 = v@;
    v.push(op_entry(MASK_OUT_Y, 0x4880, "ext_bw", "EXT", Size::Word, Decoder::DnOnly, Validator::Always));
    v.push(op_entry(MASK_OUT_Y, 0x48c0, "ext_wl", "EXT", Size::Long, Decoder::DnOnly, Validator::Always));
    v.push(op_entry(MASK_EXACT, 0x4afc, "real_illegal", "ILLEGAL", Size::Unsized, Decoder::NoOperands, Validator::Always));
    v.push(op_entry(MASK_OUT_Y, 0x4ed0, "jmp_32_ai", "JMP", Size::Long, Decoder::Ea, Validator::Always));
    v.push(op_entry(MASK_EXACT, 0x4ef9, "jmp_32_al", "JMP", Size::Long, Decoder::Ea, Validator::Always));
    v.push(op_entry(MASK_EXACT, 0x4ef8, "jmp_32_aw", "JMP", Size::Long, Decoder::Ea, Validator::Always));
    v.push(op_entry(MASK_OUT_Y, 0x4ee8, "jmp_32_di", "JMP", Size::Long, Decoder::Ea, Validator::Always));
    v.push(op_entry(MASK_OUT_Y, 0x4ef0, "jmp_32_ix", "JMP", Size::Long, Decoder::Ea, Validator::Always));
    v.push(op_entry(MASK_EXACT, 0x4efa, "jmp_32_pcdi", "JMP", Size::Long, Decoder::Ea, Validator::Always));
    v.push(op_entry(MASK_EXACT, 0x4efb, "jmp_32_pcix", "JMP", Size::Long, Decoder::Ea, Validator::Always));
    v.push(op_entry(MASK_OUT_Y, 0x4e90, "jsr_32_ai", "JSR", Size::Long, Decoder::Ea, Validator::Always));
    v.push(op_entry(MASK_EXACT, 0x4eb9, "jsr_32_al", "JSR", Size::Long, Decoder::Ea, Validator::Always));
    v.push(op_entry(MASK_EXACT, 0x4eb8, "jsr_32_aw", "JSR", Size::Long, Decoder::Ea, Validator::Always));
    v.push(op_entry(MASK_OUT_Y, 0x4ea8, "jsr_32_di", "JSR", Size::Long, Decoder::Ea, Validator::Always));
    v.push(op_entry(MASK_OUT_Y, 0x4eb0, "jsr_32_ix", "JSR", Size::Long, Decoder::Ea, Validator::Always));
    v.push(op_entry(MASK_EXACT, 0x4eba, "jsr_32_pcdi", "JSR", Size::Long, Decoder::Ea, Validator::Always));
    v.push(op_entry(MASK_EXACT, 0x4ebb, "jsr_32_pcix", "JSR", Size::Long, Decoder::Ea, Validator::Always));
    v.push(op_entry(MASK_OUT_X_Y, 0x41d0, "lea_32_ai", "LEA", Size::Long, Decoder::EaAx, Validator::Always));
    v.push(op_entry(MASK_OUT_X, 0x41f9, "lea_32_al", "LEA", Size::Long, Decoder::EaAx, Validator::Always));
    v.push(op_entry(MASK_OUT_X, 0x41f8, "lea_32_aw", "LEA", Size::Long, Decoder::EaAx, Validator::Always));
    v.push(op_entry(MASK_OUT_X_Y, 0x41e8, "lea_32_di", "LEA", Size::Long, Decoder::EaAx, Validator::Always));
    v.push(op_entry(MASK_OUT_X_Y, 0x41f0, "lea_32_ix", "LEA", Size::Long, Decoder::EaAx, Validator::Always));
    v.push(op_entry(MASK_OUT_X, 0x41fa, "lea_32_pcdi", "LEA", Size::Long, Decoder::EaAx, Validator::Always));
    v.push(op_entry(MASK_OUT_X, 0x41fb, "lea_32_pcix", "LEA", Size::Long, Decoder::EaAx, Validator::Always));
    v.push(op_entry(MASK_OUT_Y, 0x4e50, "link_16", "LINK", Size::Word, Decoder::LinkImm, Validator::Always));
    v.push(op_entry(MASK_OUT_X_Y, 0xe008, "lsr_8_s", "LSR", Size::Byte, Decoder::ShiftImm, Validator::Always));
    v.push(op_entry(MASK_OUT_X_Y, 0xe048, "lsr_16_s", "LSR", Size::Word, Decoder::ShiftImm, Validator::Always));
    v.push(op_entry(MASK_OUT_X_Y, 0xe088, "lsr_32_s", "LSR", Size::Long, Decoder::ShiftImm, Validator::Always));
    v.push(op_entry(MASK_OUT_X_Y, 0xe028, "lsr_8_r", "LSR", Size::Byte, Decoder::ShiftReg, Validator::Always));
    v.push(op_entry(MASK_OUT_X_Y, 0xe068, "lsr_16_r", "LSR", Size::Word, Decoder::ShiftReg, Validator::Always));
    v.push(op_entry(MASK_OUT_X_Y, 0xe0a8, "lsr_32_r", "LSR", Size::Long, Decoder::ShiftReg, Validator::Always));
    v.push(op_entry(MASK_OUT_X_Y, 0xe108, "lsl_8_s", "LSL", Size::Byte, Decoder::ShiftImm, Validator::Always));
    proof {
        assert(v@ =~= v0 + rules_18());
    }
}

/// Rules lsl_16_s through move_8_di_ai.
pub open spec fn rules_19() -> Seq<OpcodeHandler> {
    seq![
        spec_op_entry(MASK_OUT_X_Y, 0xe148, "lsl_16_s", "LSL", Size::Word, Decoder::ShiftImm, Validator::Always),
        spec_op_entry(MASK_OUT_X_Y, 0xe188, "lsl_32_s", "LSL", Size::Long, Decoder::ShiftImm, Validator::Always),
        spec_op_entry(MASK_OUT_X_Y, 0xe128, "lsl_8_r", "LSL", Size::Byte, Decoder::ShiftReg, Validator::Always),
        spec_op_entry(MASK_OUT_X_Y, 0xe168, "lsl_16_r", "LSL", Size::Word, Decoder::ShiftReg, Validator::Always),
        spec_op_entry(MASK_OUT_X_Y, 0xe1a8, "lsl_32_r", "LSL", Size::Long, Decoder::ShiftReg, Validator::Always),
        spec_op_entry(MASK_OUT_Y, 0xe3d0, "lsl_16_ai", "LSL", Size::Word, Decoder::Ea, Validator::Always),
        spec_op_entry(MASK_OUT_Y, 0xe3d8, "lsl_16_pi", "LSL", Size::Word, Decoder::Ea, Validator::Always),
        spec_op_entry(MASK_OUT_Y, 0xe3e0, "lsl_16_pd", "LSL", Size::Word, Decoder::Ea, Validator::Always),
        spec_op_entry(MASK_OUT_Y, 0xe3e8, "lsl_16_di", "LSL", Size::Word, Decoder::Ea, Validator::Always),
        spec_op_entry(MASK_OUT_Y, 0xe3f0, "lsl_16_ix", "LSL", Size::Word, Decoder::Ea, Validator::Always),
        spec_op_entry(MASK_EXACT, 0xe3f8, "lsl_16_aw", "LSL", Size::Word, Decoder::Ea, Validator::Always),
        spec_op_entry(MASK_EXACT, 0xe3f9, "lsl_16_al", "LSL", Size::Word, Decoder::Ea, Validator::Always),
        spec_op_entry(MASK_OUT_Y, 0xe2d0, "lsr_16_ai", "LSR", Size::Word, Decoder::Ea, Validator::Always),
        spec_op_entry(MASK_OUT_Y, 0xe2d8, "lsr_16_pi", "LSR", Size::Word, Decoder::Ea, Validator::Always),
        spec_op_entry(MASK_OUT_Y, 0xe2e0, "lsr_16_pd", "LSR", Size::Word, Decoder::Ea, Validator::Always),
        spec_op_entry(MASK_OUT_Y, 0xe2e8, "lsr_16_di", "LSR", Size::Word, Decoder::Ea, Validator::Always),
        spec_op_entry(MASK_OUT_Y, 0xe2f0, "lsr_16_ix", "LSR", Size::Word, Decoder::Ea, Validator::Always),
        spec_op_entry(MASK_EXACT, 0xe2f8, "lsr_16_aw", "LSR", Size::Word, Decoder::Ea, Validator::Always),
        spec_op_entry(MASK_EXACT, 0xe2f9, "lsr_16_al", "LSR", Size::Word, Decoder::Ea, Validator::Always),
        spec_op_entry(MASK_OUT_X_Y, 0x1000, "move_8_dn_dn", "MOVE", Size::Byte, Decoder::EaEa, Validator::Always),
        spec_op_entry(MASK_OUT_X_Y, 0x1080, "move_8_ai_dn", "MOVE", Size::Byte, Decoder::EaEa, Validator::Always),
        spec_op_entry(MASK_OUT_X_Y, 0x10c0, "move_8_pi_dn", "MOVE", Size::Byte, Decoder::EaEa, Validator::Always),
        spec_op_entry(MASK_OUT_X_Y, 0x1100, "move_8_pd_dn", "MOVE", Size::Byte, Decoder::EaEa, Validator::Always),
        spec_op_entry(MASK_OUT_X_Y, 0x1140, "move_8_di_dn", "MOVE", Size::Byte, Decoder::EaEa, Validator::Always),
        spec_op_entry(MASK_OUT_X_Y, 0x1180, "move_8_ix_dn", "MOVE", Size::Byte, Decoder::EaEa, Validator::Always),
        spec_op_entry(MASK_OUT_Y, 0x11c0, "move_8_aw_dn", "MOVE", Size::Byte, Decoder::EaEa, Validator::Always),
        spec_op_entry(MASK_OUT_Y, 0x13c0, "move_8_al_dn", "MOVE", Size::Byte, Decoder::EaEa, Validator::Always),
        spec_op_entry(MASK_OUT_X_Y, 0x1010, "move_8_dn_ai", "MOVE", Size::Byte, Decoder::EaEa, Validator::Always),
        spec_op_entry(MASK_OUT_X_Y, 0x1090, "move_8_ai_ai", "MOVE", Size::Byte, Decoder::EaEa, Validator::Always),
        spec_op_entry(MASK_OUT_X_Y, 0x10d0, "move_8_pi_ai", "MOVE", Size::Byte, Decoder::EaEa, Validator::Always),
        spec_op_entry(MASK_OUT_X_Y, 0x1110, "move_8_pd_ai", "MOVE", Size::Byte, Decoder::EaEa, Validator::Always),
        spec_op_entry(MASK_OUT_X_Y, 0x1150, "move_8_di_ai", "MOVE", Size::Byte, Decoder::EaEa, Validator::Always),
    ]
}

fn push_rules_19(v: &mut Vec<OpcodeHandler>)
    ensures
        final(v)@ == old(v)@ + rules_19(),
        forall|i: int|
            old(v)@.len() <= i < final(v)@.len() ==> rule_wf(#[trigger] final(v)@[i])
                && rule_decodable(final(v)@[i]),
{
    let ghost v0 = v@;
    v.push(op_entry(MASK_OUT_X_Y, 0xe148, "lsl_16_s", "LSL", Size::Word, Decoder::ShiftImm, Validator::Always));
    v.push(op_entry(MASK_OUT_X_Y, 0xe188, "lsl_32_s", "LSL", Size::Long, Decoder::ShiftImm, Validator::Always));
    v.push(op_entry(MASK_OUT_X_Y, 0xe128, "lsl_8_r", "LSL", Size::Byte, Decoder::ShiftReg, Validator::Always));
    v.push(op_entry(MASK_OUT_X_Y, 0xe168, "lsl_16_r", "LSL", Size::Word, Decoder::ShiftReg, Validator::Always));
    v.push(op_entry(MASK_OUT_X_Y, 0xe1a8, "lsl_32_r", "LSL", Size::Long, Decoder::ShiftReg, Validator::Always));
    v.push(op_entry(MASK_OUT_Y, 0xe3d0, "lsl_16_ai", "LSL", Size::Word, Decoder::Ea, Validator::Always));
    v.push(op_entry(MASK_OUT_Y, 0xe3d8, "lsl_16_pi", "LSL", Size::Word, Decoder::Ea, Validator::Always));
    v.push(op_entry(MASK_OUT_Y, 0xe3e0, "lsl_16_pd", "LSL", Size::Word, Decoder::Ea, Validator::Always));
    v.push(op_entry(MASK_OUT_Y, 0xe3e8, "lsl_16_di", "LSL", Size::Word, Decoder::Ea, Validator::Always));
    v.push(op_entry(MASK_OUT_Y, 0xe3f0, "lsl_16_ix", "LSL", Size::Word, Decoder::Ea, Validator::Always));
    v.push(op_entry(MASK_EXACT, 0xe3f8, "lsl_16_aw", "LSL", Size::Word, Decoder::Ea, Validator::Always));
    v.push(op_entry(MASK_EXACT, 0xe3f9, "lsl_16_al", "LSL", Size::Word, Decoder::Ea, Validator::Always));
    v.push(op_entry(MASK_OUT_Y, 0xe2d0, "lsr_16_ai", "LSR", Size::Word, Decoder::Ea, Validator::Always));
    v.push(op_entry(MASK_OUT_Y, 0xe2d8, "lsr_16_pi", "LSR", Size::Word, Decoder::Ea, Validator::Always));
    v.push(op_entry(MASK_OUT_Y, 0xe2e0, "lsr_16_pd", "LSR", Size::Word, Decoder::Ea, Validator::Always));
    v.push(op_entry(MASK_OUT_Y, 0xe2e8, "lsr_16_di", "LSR", Size::Word, Decoder::Ea, Validator::Always));
    v.push(op_entry(MASK_OUT_Y, 0xe2f0, "lsr_16_ix", "LSR", Size::Word, Decoder::Ea, Validator::Always));
    v.push(op_entry(MASK_EXACT, 0xe2f8, "lsr_16_aw", "LSR", Size::Word, Decoder::Ea, Validator::Always));
    v.push(op_entry(MASK_EXACT, 0xe2f9, "lsr_16_al", "LSR", Size::Word, Decoder::Ea, Validator::Always));
    v.push(op_entry(MASK_OUT_X_Y, 0x1000, "move_8_dn_dn", "MOVE", Size::Byte, Decoder::EaEa, Validator::Always));
    v.push(op_entry(MASK_OUT_X_Y, 0x1080, "move_8_ai_dn", "MOVE", Size::Byte, Decoder::EaEa, Validator::Always));
    v.push(op_entry(MASK_OUT_X_Y, 0x10c0, "move_8_pi_dn", "MOVE", Size::Byte, Decoder::EaEa, Validator::Always));
    v.push(op_entry(MASK_OUT_X_Y, 0x1100, "move_8_pd_dn", "MOVE", Size::Byte, Decoder::EaEa, Validator::Always));
    v.push(op_entry(MASK_OUT_X_Y, 0x1140, "move_8_di_dn", "MOVE", Size::Byte, Decoder::EaEa, Validator::Always));
    v.push(op_entry(MASK_OUT_X_Y, 0x1180, "move_8_ix_dn", "MOVE", Size::Byte, Decoder::EaEa, Validator::Always));
    v.push(op_entry(MASK_OUT_Y, 0x11c0, "move_8_aw_dn", "MOVE", Size::Byte, Decoder::EaEa, Validator::Always));
    v.push(op_entry(MASK_OUT_Y, 0x13c0, "move_8_al_dn", "MOVE", Size::Byte, Decoder::EaEa, Validator::Always));
    v.push(op_entry(MASK_OUT_X_Y, 0x1010, "move_8_dn_ai", "MOVE", Size::Byte, Decoder::EaEa, Validator::Always));
    v.push(op_entry(MASK_OUT_X_Y, 0x1090, "move_8_ai_ai", "MOVE", Size::Byte, Decoder::EaEa, Validator::Always));
    v.push(op_entry(MASK_OUT_X_Y, 0x10d0, "move_8_pi_ai", "MOVE", Size::Byte, Decoder::EaEa, Validator::Always));
    v.push(op_entry(MASK_OUT_X_Y, 0x1110, "move_8_pd_ai", "MOVE", Size::Byte, Decoder::EaEa, Validator::Always));
    v.push(op_entry(MASK_OUT_X_Y, 0x1150, "move_8_di_ai", "MOVE", Size::Byte, Decoder::EaEa, Validator::Always));
    proof {
        assert(v@ =~= v0 + rules_19());
    }
}

/// Rules move_8_ix_ai through move_8_di_ix.
pub open spec fn rules_20() -> Seq<OpcodeHandler> {
    seq![
        spec_op_entry(MASK_OUT_X_Y, 0x1190, "move_8_ix_ai", "MOVE", Size::Byte, Decoder::EaEa, Validator::Always),
        spec_op_entry(MASK_OUT_Y, 0x11d0, "move_8_aw_ai", "MOVE", Size::Byte, Decoder::EaEa, Validator::Always),
        spec_op_entry(MASK_OUT_Y, 0x13d0, "move_8_al_ai", "MOVE", Size::Byte, Decoder::EaEa, Validator::Always),
        spec_op_entry(MASK_OUT_X_Y, 0x1018, "move_8_dn_pi", "MOVE", Size::Byte, Decoder::EaEa, Validator::Always),
        spec_op_entry(MASK_OUT_X_Y, 0x1098, "move_8_ai_pi", "MOVE", Size::Byte, Decoder::EaEa, Validator::Always),
        spec_op_entry(MASK_OUT_X_Y, 0x10d8, "move_8_pi_pi", "MOVE", Size::Byte, Decoder::EaEa, Validator::Always),
        spec_op_entry(MASK_OUT_X_Y, 0x1118, "move_8_pd_pi", "MOVE", Size::Byte, Decoder::EaEa, Validator::Always),
        spec_op_entry(MASK_OUT_X_Y, 0x1158, "move_8_di_pi", "MOVE", Size::Byte, Decoder::EaEa, Validator::Always),
        spec_op_entry(MASK_OUT_X_Y, 0x1198, "move_8_ix_pi", "MOVE", Size::Byte, Decoder::EaEa, Validator::Always),
        spec_op_entry(MASK_OUT_Y, 0x11d8, "move_8_aw_pi", "MOVE", Size::Byte, Decoder::EaEa, Validator::Always),
        spec_op_entry(MASK_OUT_Y, 0x13d8, "move_8_al_pi", "MOVE", Size::Byte, Decoder::EaEa, Validator::Always),
        spec_op_entry(MASK_OUT_X_Y, 0x1020, "move_8_dn_pd", "MOVE", Size::Byte, Decoder::EaEa, Validator::Always),
        spec_op_entry(MASK_OUT_X_Y, 0x10a0, "move_8_ai_pd", "MOVE", Size::Byte, Decoder::EaEa, Validator::Always),
        spec_op_entry(MASK_OUT_X_Y, 0x10e0, "move_8_pi_pd", "MOVE", Size::Byte, Decoder::EaEa, Validator::Always),
        spec_op_entry(MASK_OUT_X_Y, 0x1120, "move_8_pd_pd", "MOVE", Size::Byte, Decoder::EaEa, Validator::Always),
        spec_op_entry(MASK_OUT_X_Y, 0x1160, "move_8_di_pd", "MOVE", Size::Byte, Decoder::EaEa, Validator::Always),
        spec_op_entry(MASK_OUT_X_Y, 0x11a0, "move_8_ix_pd", "MOVE", Size::Byte, Decoder::EaEa, Validator::Always),
        spec_op_entry(MASK_OUT_Y, 0x11e0, "move_8_aw_pd", "MOVE", Size::Byte, Decoder::EaEa, Validator::Always),
        spec_op_entry(MASK_OUT_Y, 0x13e0, "move_8_al_pd", "MOVE", Size::Byte, Decoder::EaEa, Validator::Always),
        spec_op_entry(MASK_OUT_X_Y, 0x1028, "move_8_dn_di", "MOVE", Size::Byte, Decoder::EaEa, Validator::Always),
        spec_op_entry(MASK_OUT_X_Y, 0x10a8, "move_8_ai_di", "MOVE", Size::Byte, Decoder::EaEa, Validator::Always),
        spec_op_entry(MASK_OUT_X_Y, 0x10e8, "move_8_pi_di", "MOVE", Size::Byte, Decoder::EaEa, Validator::Always),
        spec_op_entry(MASK_OUT_X_Y, 0x1128, "move_8_pd_di", "MOVE", Size::Byte, Decoder::EaEa, Validator::Always),
        spec_op_entry(MASK_OUT_X_Y, 0x1168, "move_8_di_di", "MOVE", Size::Byte, Decoder::EaEa, Validator::Always),
        spec_op_entry(MASK_OUT_X_Y, 0x11a8, "move_8_ix_di", "MOVE", Size::Byte, Decoder::EaEa, Validator::Always),
        spec_op_entry(MASK_OUT_Y, 0x11e8, "move_8_aw_di", "MOVE", Size::Byte, Decoder::EaEa, Validator::Always),
        spec_op_entry(MASK_OUT_Y, 0x13e8, "move_8_al_di", "MOVE", Size::Byte, Decoder::EaEa, Validator::Always),
        spec_op_entry(MASK_OUT_X_Y, 0x1030, "move_8_dn_ix", "MOVE", Size::Byte, Decoder::EaEa, Validator::Always),
        spec_op_entry(MASK_OUT_X_Y, 0x10b0, "move_8_ai_ix", "MOVE", Size::Byte, Decoder::EaEa, Validator::Always),
        spec_op_entry(MASK_OUT_X_Y, 0x10f0, "move_8_pi_ix", "MOVE", Size::Byte, Decoder::EaEa, Validator::Always),
        spec_op_entry(MASK_OUT_X_Y, 0x1130, "move_8_pd_ix", "MOVE", Size::Byte, Decoder::EaEa, Validator::Always),
        spec_op_entry(MASK_OUT_X_Y, 0x1170, "move_8_di_ix", "MOVE", Size::Byte, Decoder::EaEa, Validator::Always),
    ]
}

fn push_rules_20(v: &mut Vec<OpcodeHandler>)
    ensures
        final(v)@ == old(v)@ + rules_20(),
        forall|i: int|
            old(v)@.len() <= i < final(v)@.len() ==> rule_wf(#[trigger] final(v)@[i])
                && rule_decodable(final(v)@[i]),
{
    let ghost v0 = v@;
    v.push(op_entry(MASK_OUT_X_Y, 0x1190, "move_8_ix_ai", "MOVE", Size::Byte, Decoder::EaEa, Validator::Always));
    v.push(op_entry(MASK_OUT_Y, 0x11d0, "move_8_aw_ai", "MOVE", Size::Byte, Decoder::EaEa, Validator::Always));
    v.push(op_entry(MASK_OUT_Y, 0x13d0, "move_8_al_ai", "MOVE", Size::Byte, Decoder::EaEa, Validator::Always));
    v.push(op_entry(MASK_OUT_X_Y, 0x1018, "move_8_dn_pi", "MOVE", Size::Byte, Decoder::EaEa, Validator::Always));
    v.push(op_entry(MASK_OUT_X_Y, 0x1098, "move_8_ai_pi", "MOVE", Size::Byte, Decoder::EaEa, Validator::Always));
    v.push(op_entry(MASK_OUT_X_Y, 0x10d8, "move_8_pi_pi", "MOVE", Size::Byte, Decoder::EaEa, Validator::Always));
    v.push(op_entry(MASK_OUT_X_Y, 0x1118, "move_8_pd_pi", "MOVE", Size::Byte, Decoder::EaEa, Validator::Always));
    v.push(op_entry(MASK_OUT_X_Y, 0x1158, "move_8_di_pi", "MOVE", Size::Byte, Decoder::EaEa, Validator::Always));
    v.push(op_entry(MASK_OUT_X_Y, 0x1198, "move_8_ix_pi", "MOVE", Size::Byte, Decoder::EaEa, Validator::Always));
    v.push(op_entry(MASK_OUT_Y, 0x11d8, "move_8_aw_pi", "MOVE", Size::Byte, Decoder::EaEa, Validator::Always));
    v.push(op_entry(MASK_OUT_Y, 0x13d8, "move_8_al_pi", "MOVE", Size::Byte, Decoder::EaEa, Validator::Always));
    v.push(op_entry(MASK_OUT_X_Y, 0x1020, "move_8_dn_pd", "MOVE", Size::Byte, Decoder::EaEa, Validator::Always));
    v.push(op_entry(MASK_OUT_X_Y, 0x10a0, "move_8_ai_pd", "MOVE", Size::Byte, Decoder::EaEa, Validator::Always));
    v.push(op_entry(MASK_OUT_X_Y, 0x10e0, "move_8_pi_pd", "MOVE", Size::Byte, Decoder::EaEa, Validator::Always));
    v.push(op_entry(MASK_OUT_X_Y, 0x1120, "move_8_pd_pd", "MOVE", Size::Byte, Decoder::EaEa, Validator::Always));
    v.push(op_entry(MASK_OUT_X_Y, 0x1160, "move_8_di_pd", "MOVE", Size::Byte, Decoder::EaEa, Validator::Always));
    v.push(op_entry(MASK_OUT_X_Y, 0x11a0, "move_8_ix_pd", "MOVE", Size::Byte, Decoder::EaEa, Validator::Always));
    v.push(op_entry(MASK_OUT_Y, 0x11e0, "move_8_aw_pd", "MOVE", Size::Byte, Decoder::EaEa, Validator::Always));
    v.push(op_entry(MASK_OUT_Y, 0x13e0, "move_8_al_pd", "MOVE", Size::Byte, Decoder::EaEa, Validator::Always));
    v.push(op_entry(MASK_OUT_X_Y, 0x1028, "move_8_dn_di", "MOVE", Size::Byte, Decoder::EaEa, Validator::Always));
    v.push(op_entry(MASK_OUT_X_Y, 0x10a8, "move_8_ai_di", "MOVE", Size::Byte, Decoder::EaEa, Validator::Always));
    v.push(op_entry(MASK_OUT_X_Y, 0x10e8, "move_8_pi_di", "MOVE", Size::Byte, Decoder::EaEa, Validator::Always));
    v.push(op_entry(MASK_OUT_X_Y, 0x1128, "move_8_pd_di", "MOVE", Size::Byte, Decoder::EaEa, Validator::Always));
    v.push(op_entry(MASK_OUT_X_Y, 0x1168, "move_8_di_di", "MOVE", Size::Byte, Decoder::EaEa, Validator::Always));
    v.push(op_entry(MASK_OUT_X_Y, 0x11a8, "move_8_ix_di", "MOVE", Size::Byte, Decoder::EaEa, Validator::Always));
    v.push(op_entry(MASK_OUT_Y, 0x11e8, "move_8_aw_di", "MOVE", Size::Byte, Decoder::EaEa, Validator::Always));
    v.push(op_entry(MASK_OUT_Y, 0x13e8, "move_8_al_di", "MOVE", Size::Byte, Decoder::EaEa, Validator::Always));
    v.push(op_entry(MASK_OUT_X_Y, 0x1030, "move_8_dn_ix", "MOVE", Size::Byte, Decoder::EaEa, Validator::Always));
    v.push(op_entry(MASK_OUT_X_Y, 0x10b0, "move_8_ai_ix", "MOVE", Size::Byte, Decoder::EaEa, Validator::Always));
    v.push(op_entry(MASK_OUT_X_Y, 0x10f0, "move_8_pi_ix", "MOVE", Size::Byte, Decoder::EaEa, Validator::Always));
    v.push(op_entry(MASK_OUT_X_Y, 0x1130, "move_8_pd_ix", "MOVE", Size::Byte, Decoder::EaEa, Validator::Always));
    v.push(op_entry(MASK_OUT_X_Y, 0x1170, "move_8_di_ix", "MOVE", Size::Byte, Decoder::EaEa, Validator::Always));
    proof {
        assert(v@ =~= v0 + rules_20());
    }
}

/// Rules move_8_ix_ix through move_8_di_pcix.
pub open spec fn rules_21() -> Seq<OpcodeHandler> {
    seq![
        spec_op_entry(MASK_OUT_X_Y, 0x11b0, "move_8_ix_ix", "MOVE", Size::Byte, Decoder::EaEa, Validator::Always),
        spec_op_entry(MASK_OUT_Y, 0x11f0, "move_8_aw_ix", "MOVE", Size::Byte, Decoder::EaEa, Validator::Always),
        spec_op_entry(MASK_OUT_Y, 0x13f0, "move_8_al_ix", "MOVE", Size::Byte, Decoder::EaEa, Validator::Always),
        spec_op_entry(MASK_OUT_X, 0x1038, "move_8_dn_aw", "MOVE", Size::Byte, Decoder::EaEa, Validator::Always),
        spec_op_entry(MASK_OUT_X, 0x10b8, "move_8_ai_aw", "MOVE", Size::Byte, Decoder::EaEa, Validator::Always),
        spec_op_entry(MASK_OUT_X, 0x10f8, "move_8_pi_aw", "MOVE", Size::Byte, Decoder::EaEa, Validator::Always),
        spec_op_entry(MASK_OUT_X, 0x1138, "move_8_pd_aw", "MOVE", Size::Byte, Decoder::EaEa, Validator::Always),
        spec_op_entry(MASK_OUT_X, 0x1178, "move_8_di_aw", "MOVE", Size::Byte, Decoder::EaEa, Validator::Always),
        spec_op_entry(MASK_OUT_X, 0x11b8, "move_8_ix_aw", "MOVE", Size::Byte, Decoder::EaEa, Validator::Always),
        spec_op_entry(MASK_EXACT, 0x11f8, "move_8_aw_aw", "MOVE", Size::Byte, Decoder::EaEa, Validator::Always),
        spec_op_entry(MASK_EXACT, 0x13f8, "move_8_al_aw", "MOVE", Size::Byte, Decoder::EaEa, Validator::Always),
        spec_op_entry(MASK_OUT_X, 0x1039, "move_8_dn_al", "MOVE", Size::Byte, Decoder::EaEa, Validator::Always),
        spec_op_entry(MASK_OUT_X, 0x10b9, "move_8_ai_al", "MOVE", Size::Byte, Decoder::EaEa, Validator::Always),
        spec_op_entry(MASK_OUT_X, 0x10f9, "move_8_pi_al", "MOVE", Size::Byte, Decoder::EaEa, Validator::Always),
        spec_op_entry(MASK_OUT_X, 0x1139, "move_8_pd_al", "MOVE", Size::Byte, Decoder::EaEa, Validator::Always),
        spec_op_entry(MASK_OUT_X, 0x1179, "move_8_di_al", "MOVE", Size::Byte, Decoder::EaEa, Validator::Always),
        spec_op_entry(MASK_OUT_X, 0x11b9, "move_8_ix_al", "MOVE", Size::Byte, Decoder::EaEa, Validator::Always),
        spec_op_entry(MASK_EXACT, 0x11f9, "move_8_aw_al", "MOVE", Size::Byte, Decoder::EaEa, Validator::Always),
        spec_op_entry(MASK_EXACT, 0x13f9, "move_8_al_al", "MOVE", Size::Byte, Decoder::EaEa, Validator::Always),
        spec_op_entry(MASK_OUT_X, 0x103a, "move_8_dn_pcdi", "MOVE", Size::Byte, Decoder::EaEa, Validator::Always),
        spec_op_entry(MASK_OUT_X, 0x10ba, "move_8_ai_pcdi", "MOVE", Size::Byte, Decoder::EaEa, Validator::Always),
        spec_op_entry(MASK_OUT_X, 0x10fa, "move_8_pi_pcdi", "MOVE", Size::Byte, Decoder::EaEa, Validator::Always),
        spec_op_entry(MASK_OUT_X, 0x113a, "move_8_pd_pcdi", "MOVE", Size::Byte, Decoder::EaEa, Validator::Always),
        spec_op_entry(MASK_OUT_X, 0x117a, "move_8_di_pcdi", "MOVE", Size::Byte, Decoder::EaEa, Validator::Always),
        spec_op_entry(MASK_OUT_X, 0x11ba, "move_8_ix_pcdi", "MOVE", Size::Byte, Decoder::EaEa, Validator::Always),
        spec_op_entry(MASK_EXACT, 0x11fa, "move_8_aw_pcdi", "MOVE", Size::Byte, Decoder::EaEa, Validator::Always),
        spec_op_entry(MASK_EXACT, 0x13fa, "move_8_al_pcdi", "MOVE", Size::Byte, Decoder::EaEa, Validator::Always),
        spec_op_entry(MASK_OUT_X, 0x103b, "move_8_dn_pcix", "MOVE", Size::Byte, Decoder::EaEa, Validator::Always),
        spec_op_entry(MASK_OUT_X, 0x10bb, "move_8_ai_pcix", "MOVE", Size::Byte, Decoder::EaEa, Validator::Always),
        spec_op_entry(MASK_OUT_X, 0x10fb, "move_8_pi_pcix", "MOVE", Size::Byte, Decoder::EaEa, Validator::Always),
        spec_op_entry(MASK_OUT_X, 0x113b, "move_8_pd_pcix", "MOVE", Size::Byte, Decoder::EaEa, Validator::Always),
        spec_op_entry(MASK_OUT_X, 0x117b, "move_8_di_pcix", "MOVE", Size::Byte, Decoder::EaEa, Validator::Always),
    ]
}

fn push_rules_21(v: &mut Vec<OpcodeHandler>)
    ensures
        final(v)@ == old(v)@ + rules_21(),
        forall|i: int|
            old(v)@.len() <= i < final(v)@.len() ==> rule_wf(#[trigger] final(v)@[i])
                && rule_decodable(final(v)@[i]),
{
    let ghost v0 = v@;
    v.push(op_entry(MASK_OUT_X_Y, 0x11b0, "move_8_ix_ix", "MOVE", Size::Byte, Decoder::EaEa, Validator::Always));
    v.push(op_entry(MASK_OUT_Y, 0x11f0, "move_8_aw_ix", "MOVE", Size::Byte, Decoder::EaEa, Validator::Always));
    v.push(op_entry(MASK_OUT_Y, 0x13f0, "move_8_al_ix", "MOVE", Size::Byte, Decoder::EaEa, Validator::Always));
    v.push(op_entry(MASK_OUT_X, 0x1038, "move_8_dn_aw", "MOVE", Size::Byte, Decoder::EaEa, Validator::Always));
    v.push(op_entry(MASK_OUT_X, 0x10b8, "move_8_ai_aw", "MOVE", Size::Byte, Decoder::EaEa, Validator::Always));
    v.push(op_entry(MASK_OUT_X, 0x10f8, "move_8_pi_aw", "MOVE", Size::Byte, Decoder::EaEa, Validator::Always));
    v.push(op_entry(MASK_OUT_X, 0x1138, "move_8_pd_aw", "MOVE", Size::Byte, Decoder::EaEa, Validator::Always));
    v.push(op_entry(MASK_OUT_X, 0x1178, "move_8_di_aw", "MOVE", Size::Byte, Decoder::EaEa, Validator::Always));
    v.push(op_entry(MASK_OUT_X, 0x11b8, "move_8_ix_aw", "MOVE", Size::Byte, Decoder::EaEa, Validator::Always));
    v.push(op_entry(MASK_EXACT, 0x11f8, "move_8_aw_aw", "MOVE", Size::Byte, Decoder::EaEa, Validator::Always));
    v.push(op_entry(MASK_EXACT, 0x13f8, "move_8_al_aw", "MOVE", Size::Byte, Decoder::EaEa, Validator::Always));
    v.push(op_entry(MASK_OUT_X, 0x1039, "move_8_dn_al", "MOVE", Size::Byte, Decoder::EaEa, Validator::Always));
    v.push(op_entry(MASK_OUT_X, 0x10b9, "move_8_ai_al", "MOVE", Size::Byte, Decoder::EaEa, Validator::Always));
    v.push(op_entry(MASK_OUT_X, 0x10f9, "move_8_pi_al", "MOVE", Size::Byte, Decoder::EaEa, Validator::Always));
    v.push(op_entry(MASK_OUT_X, 0x1139, "move_8_pd_al", "MOVE", Size::Byte, Decoder::EaEa, Validator::Always));
    v.push(op_entry(MASK_OUT_X, 0x1179, "move_8_di_al", "MOVE", Size::Byte, Decoder::EaEa, Validator::Always));
    v.push(op_entry(MASK_OUT_X, 0x11b9, "move_8_ix_al", "MOVE", Size::Byte, Decoder::EaEa, Validator::Always));
    v.push(op_entry(MASK_EXACT, 0x11f9, "move_8_aw_al", "MOVE", Size::Byte, Decoder::EaEa, Validator::Always));
    v.push(op_entry(MASK_EXACT, 0x13f9, "move_8_al_al", "MOVE", Size::Byte, Decoder::EaEa, Validator::Always));
    v.push(op_entry(MASK_OUT_X, 0x103a, "move_8_dn_pcdi", "MOVE", Size::Byte, Decoder::EaEa, Validator::Always));
    v.push(op_entry(MASK_OUT_X, 0x10ba, "move_8_ai_pcdi", "MOVE", Size::Byte, Decoder::EaEa, Validator::Always));
    v.push(op_entry(MASK_OUT_X, 0x10fa, "move_8_pi_pcdi", "MOVE", Size::Byte, Decoder::EaEa, Validator::Always));
    v.push(op_entry(MASK_OUT_X, 0x113a, "move_8_pd_pcdi", "MOVE", Size::Byte, Decoder::EaEa, Validator::Always));
    v.push(op_entry(MASK_OUT_X, 0x117a, "move_8_di_pcdi", "MOVE", Size::Byte, Decoder::EaEa, Validator::Always));
    v.push(op_entry(MASK_OUT_X, 0x11ba, "move_8_ix_pcdi", "MOVE", Size::Byte, Decoder::EaEa, Validator::Always));
    v.push(op_entry(MASK_EXACT, 0x11fa, "move_8_aw_pcdi", "MOVE", Size::Byte, Decoder::EaEa, Validator::Always));
    v.push(op_entry(MASK_EXACT, 0x13fa, "move_8_al_pcdi", "MOVE", Size::Byte, Decoder::EaEa, Validator::Always));
    v.push(op_entry(MASK_OUT_X, 0x103b, "move_8_dn_pcix", "MOVE", Size::Byte, Decoder::EaEa, Validator::Always));
    v.push(op_entry(MASK_OUT_X, 0x10bb, "move_8_ai_pcix", "MOVE", Size::Byte, Decoder::EaEa, Validator::Always));
    v.push(op_entry(MASK_OUT_X, 0x10fb, "move_8_pi_pcix", "MOVE", Size::Byte, Decoder::EaEa, Validator::Always));
    v.push(op_entry(MASK_OUT_X, 0x113b, "move_8_pd_pcix", "MOVE", Size::Byte, Decoder::EaEa, Validator::Always));
    v.push(op_entry(MASK_OUT_X, 0x117b, "move_8_di_pcix", "MOVE", Size::Byte, Decoder::EaEa, Validator::Always));
    proof {
        assert(v@ =~= v0 + rules_21());
    }
}

/// Rules move_8_ix_pcix through move_16_di_ai.
pub open spec fn rules_22() -> Seq<OpcodeHandler> {
    seq![
        spec_op_entry(MASK_OUT_X, 0x11bb, "move_8_ix_pcix", "MOVE", Size::Byte, Decoder::EaEa, Validator::Always),
        spec_op_entry(MASK_EXACT, 0x11fb, "move_8_aw_pcix", "MOVE", Size::Byte, Decoder::EaEa, Validator::Always),
        spec_op_entry(MASK_EXACT, 0x13fb, "move_8_al_pcix", "MOVE", Size::Byte, Decoder::EaEa, Validator::Always),
        spec_op_entry(MASK_OUT_X, 0x103c, "move_8_dn_imm", "MOVE", Size::Byte, Decoder::EaEa, Validator::Always),
        spec_op_entry(MASK_OUT_X, 0x10bc, "move_8_ai_imm", "MOVE", Size::Byte, Decoder::EaEa, Validator::Always),
        spec_op_entry(MASK_OUT_X, 0x10fc, "move_8_pi_imm", "MOVE", Size::Byte, Decoder::EaEa, Validator::Always),
        spec_op_entry(MASK_OUT_X, 0x113c, "move_8_pd_imm", "MOVE", Size::Byte, Decoder::EaEa, Validator::Always),
        spec_op_entry(MASK_OUT_X, 0x117c, "move_8_di_imm", "MOVE", Size::Byte, Decoder::EaEa, Validator::Always),
        spec_op_entry(MASK_OUT_X, 0x11bc, "move_8_ix_imm", "MOVE", Size::Byte, Decoder::EaEa, Validator::Always),
        spec_op_entry(MASK_EXACT, 0x11fc, "move_8_aw_imm", "MOVE", Size::Byte, Decoder::EaEa, Validator::Always),
        spec_op_entry(MASK_EXACT, 0x13fc, "move_8_al_imm", "MOVE", Size::Byte, Decoder::EaEa, Validator::Always),
        spec_op_entry(MASK_OUT_X_Y, 0x3000, "move_16_dn_dn", "MOVE", Size::Word, Decoder::EaEa, Validator::Always),
        spec_op_entry(MASK_OUT_X_Y, 0x3080, "move_16_ai_dn", "MOVE", Size::Word, Decoder::EaEa, Validator::Always),
        spec_op_entry(MASK_OUT_X_Y, 0x30c0, "move_16_pi_dn", "MOVE", Size::Word, Decoder::EaEa, Validator::Always),
        spec_op_entry(MASK_OUT_X_Y, 0x3100, "move_16_pd_dn", "MOVE", Size::Word, Decoder::EaEa, Validator::Always),
        spec_op_entry(MASK_OUT_X_Y, 0x3140, "move_16_di_dn", "MOVE", Size::Word, Decoder::EaEa, Validator::Always),
        spec_op_entry(MASK_OUT_X_Y, 0x3180, "move_16_ix_dn", "MOVE", Size::Word, Decoder::EaEa, Validator::Always),
        spec_op_entry(MASK_OUT_Y, 0x31c0, "move_16_aw_dn", "MOVE", Size::Word, Decoder::EaEa, Validator::Always),
        spec_op_entry(MASK_OUT_Y, 0x33c0, "move_16_al_dn", "MOVE", Size::Word, Decoder::EaEa, Validator::Always),
        spec_op_entry(MASK_OUT_X_Y, 0x3008, "move_16_dn_an", "MOVE", Size::Word, Decoder::EaEa, Validator::Always),
        spec_op_entry(MASK_OUT_X_Y, 0x3088, "move_16_ai_an", "MOVE", Size::Word, Decoder::EaEa, Validator::Always),
        spec_op_entry(MASK_OUT_X_Y, 0x30c8, "move_16_pi_an", "MOVE", Size::Word, Decoder::EaEa, Validator::Always),
        spec_op_entry(MASK_OUT_X_Y, 0x3108, "move_16_pd_an", "MOVE", Size::Word, Decoder::EaEa, Validator::Always),
        spec_op_entry(MASK_OUT_X_Y, 0x3148, "move_16_di_an", "MOVE", Size::Word, Decoder::EaEa, Validator::Always),
        spec_op_entry(MASK_OUT_X_Y, 0x3188, "move_16_ix_an", "MOVE", Size::Word, Decoder::EaEa, Validator::Always),
        spec_op_entry(MASK_OUT_Y, 0x31c8, "move_16_aw_an", "MOVE", Size::Word, Decoder::EaEa, Validator::Always),
        spec_op_entry(MASK_OUT_Y, 0x33c8, "move_16_al_an", "MOVE", Size::Word, Decoder::EaEa, Validator::Always),
        spec_op_entry(MASK_OUT_X_Y, 0x3010, "move_16_dn_ai", "MOVE", Size::Word, Decoder::EaEa, Validator::Always),
        spec_op_entry(MASK_OUT_X_Y, 0x3090, "move_16_ai_ai", "MOVE", Size::Word, Decoder::EaEa, Validator::Always),
        spec_op_entry(MASK_OUT_X_Y, 0x30d0, "move_16_pi_ai", "MOVE", Size::Word, Decoder::EaEa, Validator::Always),
        spec_op_entry(MASK_OUT_X_Y, 0x3110, "move_16_pd_ai", "MOVE", Size::Word, Decoder::EaEa, Validator::Always),
        spec_op_entry(MASK_OUT_X_Y, 0x3150, "move_16_di_ai", "MOVE", Size::Word, Decoder::EaEa, Validator::Always),
    ]
}

fn push_rules_22(v: &mut Vec<OpcodeHandler>)
    ensures
        final(v)@ == old(v)@ + rules_22(),
        forall|i: int|
            old(v)@.len() <= i < final(v)@.len() ==> rule_wf(#[trigger] final(v)@[i])
                && rule_decodable(final(v)@[i]),
{
    let ghost v0 = v@;
    v.push(op_entry(MASK_OUT_X, 0x11bb, "move_8_ix_pcix", "MOVE", Size::Byte, Decoder::EaEa, Validator::Always));
    v.push(op_entry(MASK_EXACT, 0x11fb, "move_8_aw_pcix", "MOVE", Size::Byte, Decoder::EaEa, Validator::Always));
    v.push(op_entry(MASK_EXACT, 0x13fb, "move_8_al_pcix", "MOVE", Size::Byte, Decoder::EaEa, Validator::Always));
    v.push(op_entry(MASK_OUT_X, 0x103c, "move_8_dn_imm", "MOVE", Size::Byte, Decoder::EaEa, Validator::Always));
    v.push(op_entry(MASK_OUT_X, 0x10bc, "move_8_ai_imm", "MOVE", Size::Byte, Decoder::EaEa, Validator::Always));
    v.push(op_entry(MASK_OUT_X, 0x10fc, "move_8_pi_imm", "MOVE", Size::Byte, Decoder::EaEa, Validator::Always));
    v.push(op_entry(MASK_OUT_X, 0x113c, "move_8_pd_imm", "MOVE", Size::Byte, Decoder::EaEa, Validator::Always));
    v.push(op_entry(MASK_OUT_X, 0x117c, "move_8_di_imm", "MOVE", Size::Byte, Decoder::EaEa, Validator::Always));
    v.push(op_entry(MASK_OUT_X, 0x11bc, "move_8_ix_imm", "MOVE", Size::Byte, Decoder::EaEa, Validator::Always));
    v.push(op_entry(MASK_EXACT, 0x11fc, "move_8_aw_imm", "MOVE", Size::Byte, Decoder::EaEa, Validator::Always));
    v.push(op_entry(MASK_EXACT, 0x13fc, "move_8_al_imm", "MOVE", Size::Byte, Decoder::EaEa, Validator::Always));
    v.push(op_entry(MASK_OUT_X_Y, 0x3000, "move_16_dn_dn", "MOVE", Size::Word, Decoder::EaEa, Validator::Always));
    v.push(op_entry(MASK_OUT_X_Y, 0x3080, "move_16_ai_dn", "MOVE", Size::Word, Decoder::EaEa, Validator::Always));
    v.push(op_entry(MASK_OUT_X_Y, 0x30c0, "move_16_pi_dn", "MOVE", Size::Word, Decoder::EaEa, Validator::Always));
    v.push(op_entry(MASK_OUT_X_Y, 0x3100, "move_16_pd_dn", "MOVE", Size::Word, Decoder::EaEa, Validator::Always));
    v.push(op_entry(MASK_OUT_X_Y, 0x3140, "move_16_di_dn", "MOVE", Size::Word, Decoder::EaEa, Validator::Always));
    v.push(op_entry(MASK_OUT_X_Y, 0x3180, "move_16_ix_dn", "MOVE", Size::Word, Decoder::EaEa, Validator::Always));
    v.push(op_entry(MASK_OUT_Y, 0x31c0, "move_16_aw_dn", "MOVE", Size::Word, Decoder::EaEa, Validator::Always));
    v.push(op_entry(MASK_OUT_Y, 0x33c0, "move_16_al_dn", "MOVE", Size::Word, Decoder::EaEa, Validator::Always));
    v.push(op_entry(MASK_OUT_X_Y, 0x3008, "move_16_dn_an", "MOVE", Size::Word, Decoder::EaEa, Validator::Always));
    v.push(op_entry(MASK_OUT_X_Y, 0x3088, "move_16_ai_an", "MOVE", Size::Word, Decoder::EaEa, Validator::Always));
    v.push(op_entry(MASK_OUT_X_Y, 0x30c8, "move_16_pi_an", "MOVE", Size::Word, Decoder::EaEa, Validator::Always));
    v.push(op_entry(MASK_OUT_X_Y, 0x3108, "move_16_pd_an", "MOVE", Size::Word, Decoder::EaEa, Validator::Always));
    v.push(op_entry(MASK_OUT_X_Y, 0x3148, "move_16_di_an", "MOVE", Size::Word, Decoder::EaEa, Validator::Always));
    v.push(op_entry(MASK_OUT_X_Y, 0x3188, "move_16_ix_an", "MOVE", Size::Word, Decoder::EaEa, Validator::Always));
    v.push(op_entry(MASK_OUT_Y, 0x31c8, "move_16_aw_an", "MOVE", Size::Word, Decoder::EaEa, Validator::Always));
    v.push(op_entry(MASK_OUT_Y, 0x33c8, "move_16_al_an", "MOVE", Size::Word, Decoder::EaEa, Validator::Always));
    v.push(op_entry(MASK_OUT_X_Y, 0x3010, "move_16_dn_ai", "MOVE", Size::Word, Decoder::EaEa, Validator::Always));
    v.push(op_entry(MASK_OUT_X_Y, 0x3090, "move_16_ai_ai", "MOVE", Size::Word, Decoder::EaEa, Validator::Always));
    v.push(op_entry(MASK_OUT_X_Y, 0x30d0, "move_16_pi_ai", "MOVE", Size::Word, Decoder::EaEa, Validator::Always));
    v.push(op_entry(MASK_OUT_X_Y, 0x3110, "move_16_pd_ai", "MOVE", Size::Word, Decoder::EaEa, Validator::Always));
    v.push(op_entry(MASK_OUT_X_Y, 0x3150, "move_16_di_ai", "MOVE", Size::Word, Decoder::EaEa, Validator::Always));
    proof {
        assert(v@ =~= v0 + rules_22());
    }
}

/// Rules move_16_ix_ai through move_16_di_ix.
pub open spec fn rules_23() -> Seq<OpcodeHandler> {
    seq![
        spec_op_entry(MASK_OUT_X_Y, 0x3190, "move_16_ix_ai", "MOVE", Size::Word, Decoder::EaEa, Validator::Always),
        spec_op_entry(MASK_OUT_Y, 0x31d0, "move_16_aw_ai", "MOVE", Size::Word, Decoder::EaEa, Validator::Always),
        spec_op_entry(MASK_OUT_Y, 0x33d0, "move_16_al_ai", "MOVE", Size::Word, Decoder::EaEa, Validator::Always),
        spec_op_entry(MASK_OUT_X_Y, 0x3018, "move_16_dn_pi", "MOVE", Size::Word, Decoder::EaEa, Validator::Always),
        spec_op_entry(MASK_OUT_X_Y, 0x3098, "move_16_ai_pi", "MOVE", Size::Word, Decoder::EaEa, Validator::Always),
        spec_op_entry(MASK_OUT_X_Y, 0x30d8, "move_16_pi_pi", "MOVE", Size::Word, Decoder::EaEa, Validator::Always),
        spec_op_entry(MASK_OUT_X_Y, 0x3118, "move_16_pd_pi", "MOVE", Size::Word, Decoder::EaEa, Validator::Always),
        spec_op_entry(MASK_OUT_X_Y, 0x3158, "move_16_di_pi", "MOVE", Size::Word, Decoder::EaEa, Validator::Always),
        spec_op_entry(MASK_OUT_X_Y, 0x3198, "move_16_ix_pi", "MOVE", Size::Word, Decoder::EaEa, Validator::Always),
        spec_op_entry(MASK_OUT_Y, 0x31d8, "move_16_aw_pi", "MOVE", Size::Word, Decoder::EaEa, Validator::Always),
        spec_op_entry(MASK_OUT_Y, 0x33d8, "move_16_al_pi", "MOVE", Size::Word, Decoder::EaEa, Validator::Always),
        spec_op_entry(MASK_OUT_X_Y, 0x3020, "move_16_dn_pd", "MOVE", Size::Word, Decoder::EaEa, Validator::Always),
        spec_op_entry(MASK_OUT_X_Y, 0x30a0, "move_16_ai_pd", "MOVE", Size::Word, Decoder::EaEa, Validator::Always),
        spec_op_entry(MASK_OUT_X_Y, 0x30e0, "move_16_pi_pd", "MOVE", Size::Word, Decoder::EaEa, Validator::Always),
        spec_op_entry(MASK_OUT_X_Y, 0x3120, "move_16_pd_pd", "MOVE", Size::Word, Decoder::EaEa, Validator::Always),
        spec_op_entry(MASK_OUT_X_Y, 0x3160, "move_16_di_pd", "MOVE", Size::Word, Decoder::EaEa, Validator::Always),
        spec_op_entry(MASK_OUT_X_Y, 0x31a0, "move_16_ix_pd", "MOVE", Size::Word, Decoder::EaEa, Validator::Always),
        spec_op_entry(MASK_OUT_Y, 0x31e0, "move_16_aw_pd", "MOVE", Size::Word, Decoder::EaEa, Validator::Always),
        spec_op_entry(MASK_OUT_Y, 0x33e0, "move_16_al_pd", "MOVE", Size::Word, Decoder::EaEa, Validator::Always),
        spec_op_entry(MASK_OUT_X_Y, 0x3028, "move_16_dn_di", "MOVE", Size::Word, Decoder::EaEa, Validator::Always),
        spec_op_entry(MASK_OUT_X_Y, 0x30a8, "move_16_ai_di", "MOVE", Size::Word, Decoder::EaEa, Validator::Always),
        spec_op_entry(MASK_OUT_X_Y, 0x30e8, "move_16_pi_di", "MOVE", Size::Word, Decoder::EaEa, Validator::Always),
        spec_op_entry(MASK_OUT_X_Y, 0x3128, "move_16_pd_di", "MOVE", Size::Word, Decoder::EaEa, Validator::Always),
        spec_op_entry(MASK_OUT_X_Y, 0x3168, "move_16_di_di", "MOVE", Size::Word, Decoder::EaEa, Validator::Always),
        spec_op_entry(MASK_OUT_X_Y, 0x31a8, "move_16_ix_di", "MOVE", Size::Word, Decoder::EaEa, Validator::Always),
        spec_op_entry(MASK_OUT_Y, 0x31e8, "move_16_aw_di", "MOVE", Size::Word, Decoder::EaEa, Validator::Always),
        spec_op_entry(MASK_OUT_Y, 0x33e8, "move_16_al_di", "MOVE", Size::Word, Decoder::EaEa, Validator::Always),
        spec_op_entry(MASK_OUT_X_Y, 0x3030, "move_16_dn_ix", "MOVE", Size::Word, Decoder::EaEa, Validator::Always),
        spec_op_entry(MASK_OUT_X_Y, 0x30b0, "move_16_ai_ix", "MOVE", Size::Word, Decoder::EaEa, Validator::Always),
        spec_op_entry(MASK_OUT_X_Y, 0x30f0, "move_16_pi_ix", "MOVE", Size::Word, Decoder::EaEa, Validator::Always),
        spec_op_entry(MASK_OUT_X_Y, 0x3130, "move_16_pd_ix", "MOVE", Size::Word, Decoder::EaEa, Validator::Always),
        spec_op_entry(MASK_OUT_X_Y, 0x3170, "move_16_di_ix", "MOVE", Size::Word, Decoder::EaEa, Validator::Always),
    ]
}

fn push_rules_23(v: &mut Vec<OpcodeHandler>)
    ensures
        final(v)@ == old(v)@ + rules_23(),
        forall|i: int|
            old(v)@.len() <= i < final(v)@.len() ==> rule_wf(#[trigger] final(v)@[i])
                && rule_decodable(final(v)@[i]),
{
    let ghost v0 = v@;
    v.push(op_entry(MASK_OUT_X_Y, 0x3190, "move_16_ix_ai", "MOVE", Size::Word, Decoder::EaEa, Validator::Always));
    v.push(op_entry(MASK_OUT_Y, 0x31d0, "move_16_aw_ai", "MOVE", Size::Word, Decoder::EaEa, Validator::Always));
    v.push(op_entry(MASK_OUT_Y, 0x33d0, "move_16_al_ai", "MOVE", Size::Word, Decoder::EaEa, Validator::Always));
    v.push(op_entry(MASK_OUT_X_Y, 0x3018, "move_16_dn_pi", "MOVE", Size::Word, Decoder::EaEa, Validator::Always));
    v.push(op_entry(MASK_OUT_X_Y, 0x3098, "move_16_ai_pi", "MOVE", Size::Word, Decoder::EaEa, Validator::Always));
    v.push(op_entry(MASK_OUT_X_Y, 0x30d8, "move_16_pi_pi", "MOVE", Size::Word, Decoder::EaEa, Validator::Always));
    v.push(op_entry(MASK_OUT_X_Y, 0x3118, "move_16_pd_pi", "MOVE", Size::Word, Decoder::EaEa, Validator::Always));
    v.push(op_entry(MASK_OUT_X_Y, 0x3158, "move_16_di_pi", "MOVE", Size::Word, Decoder::EaEa, Validator::Always));
    v.push(op_entry(MASK_OUT_X_Y, 0x3198, "move_16_ix_pi", "MOVE", Size::Word, Decoder::EaEa, Validator::Always));
    v.push(op_entry(MASK_OUT_Y, 0x31d8, "move_16_aw_pi", "MOVE", Size::Word, Decoder::EaEa, Validator::Always));
    v.push(op_entry(MASK_OUT_Y, 0x33d8, "move_16_al_pi", "MOVE", Size::Word, Decoder::EaEa, Validator::Always));
    v.push(op_entry(MASK_OUT_X_Y, 0x3020, "move_16_dn_pd", "MOVE", Size::Word, Decoder::EaEa, Validator::Always));
    v.push(op_entry(MASK_OUT_X_Y, 0x30a0, "move_16_ai_pd", "MOVE", Size::Word, Decoder::EaEa, Validator::Always));
    v.push(op_entry(MASK_OUT_X_Y, 0x30e0, "move_16_pi_pd", "MOVE", Size::Word, Decoder::EaEa, Validator::Always));
    v.push(op_entry(MASK_OUT_X_Y, 0x3120, "move_16_pd_pd", "MOVE", Size::Word, Decoder::EaEa, Validator::Always));
    v.push(op_entry(MASK_OUT_X_Y, 0x3160, "move_16_di_pd", "MOVE", Size::Word, Decoder::EaEa, Validator::Always));
    v.push(op_entry(MASK_OUT_X_Y, 0x31a0, "move_16_ix_pd", "MOVE", Size::Word, Decoder::EaEa, Validator::Always));
    v.push(op_entry(MASK_OUT_Y, 0x31e0, "move_16_aw_pd", "MOVE", Size::Word, Decoder::EaEa, Validator::Always));
    v.push(op_entry(MASK_OUT_Y, 0x33e0, "move_16_al_pd", "MOVE", Size::Word, Decoder::EaEa, Validator::Always));
    v.push(op_entry(MASK_OUT_X_Y, 0x3028, "move_16_dn_di", "MOVE", Size::Word, Decoder::EaEa, Validator::Always));
    v.push(op_entry(MASK_OUT_X_Y, 0x30a8, "move_16_ai_di", "MOVE", Size::Word, Decoder::EaEa, Validator::Always));
    v.push(op_entry(MASK_OUT_X_Y, 0x30e8, "move_16_pi_di", "MOVE", Size::Word, Decoder::EaEa, Validator::Always));
    v.push(op_entry(MASK_OUT_X_Y, 0x3128, "move_16_pd_di", "MOVE", Size::Word, Decoder::EaEa, Validator::Always));
    v.push(op_entry(MASK_OUT_X_Y, 0x3168, "move_16_di_di", "MOVE", Size::Word, Decoder::EaEa, Validator::Always));
    v.push(op_entry(MASK_OUT_X_Y, 0x31a8, "move_16_ix_di", "MOVE", Size::Word, Decoder::EaEa, Validator::Always));
    v.push(op_entry(MASK_OUT_Y, 0x31e8, "move_16_aw_di", "MOVE", Size::Word, Decoder::EaEa, Validator::Always));
    v.push(op_entry(MASK_OUT_Y, 0x33e8, "move_16_al_di", "MOVE", Size::Word, Decoder::EaEa, Validator::Always));
    v.push(op_entry(MASK_OUT_X_Y, 0x3030, "move_16_dn_ix", "MOVE", Size::Word, Decoder::EaEa, Validator::Always));
    v.push(op_entry(MASK_OUT_X_Y, 0x30b0, "move_16_ai_ix", "MOVE", Size::Word, Decoder::EaEa, Validator::Always));
    v.push(op_entry(MASK_OUT_X_Y, 0x30f0, "move_16_pi_ix", "MOVE", Size::Word, Decoder::EaEa, Validator::Always));
    v.push(op_entry(MASK_OUT_X_Y, 0x3130, "move_16_pd_ix", "MOVE", Size::Word, Decoder::EaEa, Validator::Always));
    v.push(op_entry(MASK_OUT_X_Y, 0x3170, "move_16_di_ix", "MOVE", Size::Word, Decoder::EaEa, Validator::Always));
    proof {
        assert(v@ =~= v0 + rules_23());
    }
}

/// Rules move_16_ix_ix through move_16_di_pcix.
pub open spec fn rules_24() -> Seq<OpcodeHandler> {
    seq![
        spec_op_entry(MASK_OUT_X_Y, 0x31b0, "move_16_ix_ix", "MOVE", Size::Word, Decoder::EaEa, Validator::Always),
        spec_op_entry(MASK_OUT_Y, 0x31f0, "move_16_aw_ix", "MOVE", Size::Word, Decoder::EaEa, Validator::Always),
        spec_op_entry(MASK_OUT_Y, 0x33f0, "move_16_al_ix", "MOVE", Size::Word, Decoder::EaEa, Validator::Always),
        spec_op_entry(MASK_OUT_X, 0x3038, "move_16_dn_aw", "MOVE", Size::Word, Decoder::EaEa, Validator::Always),
        spec_op_entry(MASK_OUT_X, 0x30b8, "move_16_ai_aw", "MOVE", Size::Word, Decoder::EaEa, Validator::Always),
        spec_op_entry(MASK_OUT_X, 0x30f8, "move_16_pi_aw", "MOVE", Size::Word, Decoder::EaEa, Validator::Always),
        spec_op_entry(MASK_OUT_X, 0x3138, "move_16_pd_aw", "MOVE", Size::Word, Decoder::EaEa, Validator::Always),
        spec_op_entry(MASK_OUT_X, 0x3178, "move_16_di_aw", "MOVE", Size::Word, Decoder::EaEa, Validator::Always),
        spec_op_entry(MASK_OUT_X, 0x31b8, "move_16_ix_aw", "MOVE", Size::Word, Decoder::EaEa, Validator::Always),
        spec_op_entry(MASK_EXACT, 0x31f8, "move_16_aw_aw", "MOVE", Size::Word, Decoder::EaEa, Validator::Always),
        spec_op_entry(MASK_EXACT, 0x33f8, "move_16_al_aw", "MOVE", Size::Word, Decoder::EaEa, Validator::Always),
        spec_op_entry(MASK_OUT_X, 0x3039, "move_16_dn_al", "MOVE", Size::Word, Decoder::EaEa, Validator::Always),
        spec_op_entry(MASK_OUT_X, 0x30b9, "move_16_ai_al", "MOVE", Size::Word, Decoder::EaEa, Validator::Always),
        spec_op_entry(MASK_OUT_X, 0x30f9, "move_16_pi_al", "MOVE", Size::Word, Decoder::EaEa, Validator::Always),
        spec_op_entry(MASK_OUT_X, 0x3139, "move_16_pd_al", "MOVE", Size::Word, Decoder::EaEa, Validator::Always),
        spec_op_entry(MASK_OUT_X, 0x3179, "move_16_di_al", "MOVE", Size::Word, Decoder::EaEa, Validator::Always),
        spec_op_entry(MASK_OUT_X, 0x31b9, "move_16_ix_al", "MOVE", Size::Word, Decoder::EaEa, Validator::Always),
        spec_op_entry(MASK_EXACT, 0x31f9, "move_16_aw_al", "MOVE", Size::Word, Decoder::EaEa, Validator::Always),
        spec_op_entry(MASK_EXACT, 0x33f9, "move_16_al_al", "MOVE", Size::Word, Decoder::EaEa, Validator::Always),
        spec_op_entry(MASK_OUT_X, 0x303a, "move_16_dn_pcdi", "MOVE", Size::Word, Decoder::EaEa, Validator::Always),
        spec_op_entry(MASK_OUT_X, 0x30ba, "move_16_ai_pcdi", "MOVE", Size::Word, Decoder::EaEa, Validator::Always),
        spec_op_entry(MASK_OUT_X, 0x30fa, "move_16_pi_pcdi", "MOVE", Size::Word, Decoder::EaEa, Validator::Always),
        spec_op_entry(MASK_OUT_X, 0x313a, "move_16_pd_pcdi", "MOVE", Size::Word, Decoder::EaEa, Validator::Always),
        spec_op_entry(MASK_OUT_X, 0x317a, "move_16_di_pcdi", "MOVE", Size::Word, Decoder::EaEa, Validator::Always),
        spec_op_entry(MASK_OUT_X, 0x31ba, "move_16_ix_pcdi", "MOVE", Size::Word, Decoder::EaEa, Validator::Always),
        spec_op_entry(MASK_EXACT, 0x31fa, "move_16_aw_pcdi", "MOVE", Size::Word, Decoder::EaEa, Validator::Always),
        spec_op_entry(MASK_EXACT, 0x33fa, "move_16_al_pcdi", "MOVE", Size::Word, Decoder::EaEa, Validator::Always),
        spec_op_entry(MASK_OUT_X, 0x303b, "move_16_dn_pcix", "MOVE", Size::Word, Decoder::EaEa, Validator::Always),
        spec_op_entry(MASK_OUT_X, 0x30bb, "move_16_ai_pcix", "MOVE", Size::Word, Decoder::EaEa, Validator::Always),
        spec_op_entry(MASK_OUT_X, 0x30fb, "move_16_pi_pcix", "MOVE", Size::Word, Decoder::EaEa, Validator::Always),
        spec_op_entry(MASK_OUT_X, 0x313b, "move_16_pd_pcix", "MOVE", Size::Word, Decoder::EaEa, Validator::Always),
        spec_op_entry(MASK_OUT_X, 0x317b, "move_16_di_pcix", "MOVE", Size::Word, Decoder::EaEa, Validator::Always),
    ]
}

fn push_rules_24(v: &mut Vec<OpcodeHandler>)
    ensures
        final(v)@ == old(v)@ + rules_24(),
        forall|i: int|
            old(v)@.len() <= i < final(v)@.len() ==> rule_wf(#[trigger] final(v)@[i])
                && rule_decodable(final(v)@[i]),
{
    let ghost v0 = v@;
    v.push(op_entry(MASK_OUT_X_Y, 0x31b0, "move_16_ix_ix", "MOVE", Size::Word, Decoder::EaEa, Validator::Always));
    v.push(op_entry(MASK_OUT_Y, 0x31f0, "move_16_aw_ix", "MOVE", Size::Word, Decoder::EaEa, Validator::Always));
    v.push(op_entry(MASK_OUT_Y, 0x33f0, "move_16_al_ix", "MOVE", Size::Word, Decoder::EaEa, Validator::Always));
    v.push(op_entry(MASK_OUT_X, 0x3038, "move_16_dn_aw", "MOVE", Size::Word, Decoder::EaEa, Validator::Always));
    v.push(op_entry(MASK_OUT_X, 0x30b8, "move_16_ai_aw", "MOVE", Size::Word, Decoder::EaEa, Validator::Always));
    v.push(op_entry(MASK_OUT_X, 0x30f8, "move_16_pi_aw", "MOVE", Size::Word, Decoder::EaEa, Validator::Always));
    v.push(op_entry(MASK_OUT_X, 0x3138, "move_16_pd_aw", "MOVE", Size::Word, Decoder::EaEa, Validator::Always));
    v.push(op_entry(MASK_OUT_X, 0x3178, "move_16_di_aw", "MOVE", Size::Word, Decoder::EaEa, Validator::Always));
    v.push(op_entry(MASK_OUT_X, 0x31b8, "move_16_ix_aw", "MOVE", Size::Word, Decoder::EaEa, Validator::Always));
    v.push(op_entry(MASK_EXACT, 0x31f8, "move_16_aw_aw", "MOVE", Size::Word, Decoder::EaEa, Validator::Always));
    v.push(op_entry(MASK_EXACT, 0x33f8, "move_16_al_aw", "MOVE", Size::Word, Decoder::EaEa, Validator::Always));
    v.push(op_entry(MASK_OUT_X, 0x3039, "move_16_dn_al", "MOVE", Size::Word, Decoder::EaEa, Validator::Always));
    v.push(op_entry(MASK_OUT_X, 0x30b9, "move_16_ai_al", "MOVE", Size::Word, Decoder::EaEa, Validator::Always));
    v.push(op_entry(MASK_OUT_X, 0x30f9, "move_16_pi_al", "MOVE", Size::Word, Decoder::EaEa, Validator::Always));
    v.push(op_entry(MASK_OUT_X, 0x3139, "move_16_pd_al", "MOVE", Size::Word, Decoder::EaEa, Validator::Always));
    v.push(op_entry(MASK_OUT_X, 0x3179, "move_16_di_al", "MOVE", Size::Word, Decoder::EaEa, Validator::Always));
    v.push(op_entry(MASK_OUT_X, 0x31b9, "move_16_ix_al", "MOVE", Size::Word, Decoder::EaEa, Validator::Always));
    v.push(op_entry(MASK_EXACT, 0x31f9, "move_16_aw_al", "MOVE", Size::Word, Decoder::EaEa, Validator::Always));
    v.push(op_entry(MASK_EXACT, 0x33f9, "move_16_al_al", "MOVE", Size::Word, Decoder::EaEa, Validator::Always));
    v.push(op_entry(MASK_OUT_X, 0x303a, "move_16_dn_pcdi", "MOVE", Size::Word, Decoder::EaEa, Validator::Always));
    v.push(op_entry(MASK_OUT_X, 0x30ba, "move_16_ai_pcdi", "MOVE", Size::Word, Decoder::EaEa, Validator::Always));
    v.push(op_entry(MASK_OUT_X, 0x30fa, "move_16_pi_pcdi", "MOVE", Size::Word, Decoder::EaEa, Validator::Always));
    v.push(op_entry(MASK_OUT_X, 0x313a, "move_16_pd_pcdi", "MOVE", Size::Word, Decoder::EaEa, Validator::Always));
    v.push(op_entry(MASK_OUT_X, 0x317a, "move_16_di_pcdi", "MOVE", Size::Word, Decoder::EaEa, Validator::Always));
    v.push(op_entry(MASK_OUT_X, 0x31ba, "move_16_ix_pcdi", "MOVE", Size::Word, Decoder::EaEa, Validator::Always));
    v.push(op_entry(MASK_EXACT, 0x31fa, "move_16_aw_pcdi", "MOVE", Size::Word, Decoder::EaEa, Validator::Always));
    v.push(op_entry(MASK_EXACT, 0x33fa, "move_16_al_pcdi", "MOVE", Size::Word, Decoder::EaEa, Validator::Always));
    v.push(op_entry(MASK_OUT_X, 0x303b, "move_16_dn_pcix", "MOVE", Size::Word, Decoder::EaEa, Validator::Always));
    v.push(op_entry(MASK_OUT_X, 0x30bb, "move_16_ai_pcix", "MOVE", Size::Word, Decoder::EaEa, Validator::Always));
    v.push(op_entry(MASK_OUT_X, 0x30fb, "move_16_pi_pcix", "MOVE", Size::Word, Decoder::EaEa, Validator::Always));
    v.push(op_entry(MASK_OUT_X, 0x313b, "move_16_pd_pcix", "MOVE", Size::Word, Decoder::EaEa, Validator::Always));
    v.push(op_entry(MASK_OUT_X, 0x317b, "move_16_di_pcix", "MOVE", Size::Word, Decoder::EaEa, Validator::Always));
    proof {
        assert(v@ =~= v0 + rules_24());
    }
}

/// Rules move_16_ix_pcix through move_32_di_ai.
pub open spec fn rules_25() -> Seq<OpcodeHandler> {
    seq![
        spec_op_entry(MASK_OUT_X, 0x31bb, "move_16_ix_pcix", "MOVE", Size::Word, Decoder::EaEa, Validator::Always),
        spec_op_entry(MASK_EXACT, 0x31fb, "move_16_aw_pcix", "MOVE", Size::Word, Decoder::EaEa, Validator::Always),
        spec_op_entry(MASK_EXACT, 0x33fb, "move_16_al_pcix", "MOVE", Size::Word, Decoder::EaEa, Validator::Always),
        spec_op_entry(MASK_OUT_X, 0x303c, "move_16_dn_imm", "MOVE", Size::Word, Decoder::EaEa, Validator::Always),
        spec_op_entry(MASK_OUT_X, 0x30bc, "move_16_ai_imm", "MOVE", Size::Word, Decoder::EaEa, Validator::Always),
        spec_op_entry(MASK_OUT_X, 0x30fc, "move_16_pi_imm", "MOVE", Size::Word, Decoder::EaEa, Validator::Always),
        spec_op_entry(MASK_OUT_X, 0x313c, "move_16_pd_imm", "MOVE", Size::Word, Decoder::EaEa, Validator::Always),
        spec_op_entry(MASK_OUT_X, 0x317c, "move_16_di_imm", "MOVE", Size::Word, Decoder::EaEa, Validator::Always),
        spec_op_entry(MASK_OUT_X, 0x31bc, "move_16_ix_imm", "MOVE", Size::Word, Decoder::EaEa, Validator::Always),
        spec_op_entry(MASK_EXACT, 0x31fc, "move_16_aw_imm", "MOVE", Size::Word, Decoder::EaEa, Validator::Always),
        spec_op_entry(MASK_EXACT, 0x33fc, "move_16_al_imm", "MOVE", Size::Word, Decoder::EaEa, Validator::Always),
        spec_op_entry(MASK_OUT_X_Y, 0x2000, "move_32_dn_dn", "MOVE", Size::Long, Decoder::EaEa, Validator::Always),
        spec_op_entry(MASK_OUT_X_Y, 0x2080, "move_32_ai_dn", "MOVE", Size::Long, Decoder::EaEa, Validator::Always),
        spec_op_entry(MASK_OUT_X_Y, 0x20c0, "move_32_pi_dn", "MOVE", Size::Long, Decoder::EaEa, Validator::Always),
        spec_op_entry(MASK_OUT_X_Y, 0x2100, "move_32_pd_dn", "MOVE", Size::Long, Decoder::EaEa, Validator::Always),
        spec_op_entry(MASK_OUT_X_Y, 0x2140, "move_32_di_dn", "MOVE", Size::Long, Decoder::EaEa, Validator::Always),
        spec_op_entry(MASK_OUT_X_Y, 0x2180, "move_32_ix_dn", "MOVE", Size::Long, Decoder::EaEa, Validator::Always),
        spec_op_entry(MASK_OUT_Y, 0x21c0, "move_32_aw_dn", "MOVE", Size::Long, Decoder::EaEa, Validator::Always),
        spec_op_entry(MASK_OUT_Y, 0x23c0, "move_32_al_dn", "MOVE", Size::Long, Decoder::EaEa, Validator::Always),
        spec_op_entry(MASK_OUT_X_Y, 0x2008, "move_32_dn_an", "MOVE", Size::Long, Decoder::EaEa, Validator::Always),
        spec_op_entry(MASK_OUT_X_Y, 0x2088, "move_32_ai_an", "MOVE", Size::Long, Decoder::EaEa, Validator::Always),
        spec_op_entry(MASK_OUT_X_Y, 0x20c8, "move_32_pi_an", "MOVE", Size::Long, Decoder::EaEa, Validator::Always),
        spec_op_entry(MASK_OUT_X_Y, 0x2108, "move_32_pd_an", "MOVE", Size::Long, Decoder::EaEa, Validator::Always),
        spec_op_entry(MASK_OUT_X_Y, 0x2148, "move_32_di_an", "MOVE", Size::Long, Decoder::EaEa, Validator::Always),
        spec_op_entry(MASK_OUT_X_Y, 0x2188, "move_32_ix_an", "MOVE", Size::Long, Decoder::EaEa, Validator::Always),
        spec_op_entry(MASK_OUT_Y, 0x21c8, "move_32_aw_an", "MOVE", Size::Long, Decoder::EaEa, Validator::Always),
        spec_op_entry(MASK_OUT_Y, 0x23c8, "move_32_al_an", "MOVE", Size::Long, Decoder::EaEa, Validator::Always),
        spec_op_entry(MASK_OUT_X_Y, 0x2010, "move_32_dn_ai", "MOVE", Size::Long, Decoder::EaEa, Validator::Always),
        spec_op_entry(MASK_OUT_X_Y, 0x2090, "move_32_ai_ai", "MOVE", Size::Long, Decoder::EaEa, Validator::Always),
        spec_op_entry(MASK_OUT_X_Y, 0x20d0, "move_32_pi_ai", "MOVE", Size::Long, Decoder::EaEa, Validator::Always),
        spec_op_entry(MASK_OUT_X_Y, 0x2110, "move_32_pd_ai", "MOVE", Size::Long, Decoder::EaEa, Validator::Always),
        spec_op_entry(MASK_OUT_X_Y, 0x2150, "move_32_di_ai", "MOVE", Size::Long, Decoder::EaEa, Validator::Always),
    ]
}

fn push_rules_25(v: &mut Vec<OpcodeHandler>)
    ensures
        final(v)@ == old(v)@ + rules_25(),
        forall|i: int|
            old(v)@.len() <= i < final(v)@.len() ==> rule_wf(#[trigger] final(v)@[i])
                && rule_decodable(final(v)@[i]),
{
    let ghost v0 = v@;
    v.push(op_entry(MASK_OUT_X, 0x31bb, "move_16_ix_pcix", "MOVE", Size::Word, Decoder::EaEa, Validator::Always));
    v.push(op_entry(MASK_EXACT, 0x31fb, "move_16_aw_pcix", "MOVE", Size::Word, Decoder::EaEa, Validator::Always));
    v.push(op_entry(MASK_EXACT, 0x33fb, "move_16_al_pcix", "MOVE", Size::Word, Decoder::EaEa, Validator::Always));
    v.push(op_entry(MASK_OUT_X, 0x303c, "move_16_dn_imm", "MOVE", Size::Word, Decoder::EaEa, Validator::Always));
    v.push(op_entry(MASK_OUT_X, 0x30bc, "move_16_ai_imm", "MOVE", Size::Word, Decoder::EaEa, Validator::Always));
    v.push(op_entry(MASK_OUT_X, 0x30fc, "move_16_pi_imm", "MOVE", Size::Word, Decoder::EaEa, Validator::Always));
    v.push(op_entry(MASK_OUT_X, 0x313c, "move_16_pd_imm", "MOVE", Size::Word, Decoder::EaEa, Validator::Always));
    v.push(op_entry(MASK_OUT_X, 0x317c, "move_16_di_imm", "MOVE", Size::Word, Decoder::EaEa, Validator::Always));
    v.push(op_entry(MASK_OUT_X, 0x31bc, "move_16_ix_imm", "MOVE", Size::Word, Decoder::EaEa, Validator::Always));
    v.push(op_entry(MASK_EXACT, 0x31fc, "move_16_aw_imm", "MOVE", Size::Word, Decoder::EaEa, Validator::Always));
    v.push(op_entry(MASK_EXACT, 0x33fc, "move_16_al_imm", "MOVE", Size::Word, Decoder::EaEa, Validator::Always));
    v.push(op_entry(MASK_OUT_X_Y, 0x2000, "move_32_dn_dn", "MOVE", Size::Long, Decoder::EaEa, Validator::Always));
    v.push(op_entry(MASK_OUT_X_Y, 0x2080, "move_32_ai_dn", "MOVE", Size::Long, Decoder::EaEa, Validator::Always));
    v.push(op_entry(MASK_OUT_X_Y, 0x20c0, "move_32_pi_dn", "MOVE", Size::Long, Decoder::EaEa, Validator::Always));
    v.push(op_entry(MASK_OUT_X_Y, 0x2100, "move_32_pd_dn", "MOVE", Size::Long, Decoder::EaEa, Validator::Always));
    v.push(op_entry(MASK_OUT_X_Y, 0x2140, "move_32_di_dn", "MOVE", Size::Long, Decoder::EaEa, Validator::Always));
    v.push(op_entry(MASK_OUT_X_Y, 0x2180, "move_32_ix_dn", "MOVE", Size::Long, Decoder::EaEa, Validator::Always));
    v.push(op_entry(MASK_OUT_Y, 0x21c0, "move_32_aw_dn", "MOVE", Size::Long, Decoder::EaEa, Validator::Always));
    v.push(op_entry(MASK_OUT_Y, 0x23c0, "move_32_al_dn", "MOVE", Size::Long, Decoder::EaEa, Validator::Always));
    v.push(op_entry(MASK_OUT_X_Y, 0x2008, "move_32_dn_an", "MOVE", Size::Long, Decoder::EaEa, Validator::Always));
    v.push(op_entry(MASK_OUT_X_Y, 0x2088, "move_32_ai_an", "MOVE", Size::Long, Decoder::EaEa, Validator::Always));
    v.push(op_entry(MASK_OUT_X_Y, 0x20c8, "move_32_pi_an", "MOVE", Size::Long, Decoder::EaEa, Validator::Always));
    v.push(op_entry(MASK_OUT_X_Y, 0x2108, "move_32_pd_an", "MOVE", Size::Long, Decoder::EaEa, Validator::Always));
    v.push(op_entry(MASK_OUT_X_Y, 0x2148, "move_32_di_an", "MOVE", Size::Long, Decoder::EaEa, Validator::Always));
    v.push(op_entry(MASK_OUT_X_Y, 0x2188, "move_32_ix_an", "MOVE", Size::Long, Decoder::EaEa, Validator::Always));
    v.push(op_entry(MASK_OUT_Y, 0x21c8, "move_32_aw_an", "MOVE", Size::Long, Decoder::EaEa, Validator::Always));
    v.push(op_entry(MASK_OUT_Y, 0x23c8, "move_32_al_an", "MOVE", Size::Long, Decoder::EaEa, Validator::Always));
    v.push(op_entry(MASK_OUT_X_Y, 0x2010, "move_32_dn_ai", "MOVE", Size::Long, Decoder::EaEa, Validator::Always));
    v.push(op_entry(MASK_OUT_X_Y, 0x2090, "move_32_ai_ai", "MOVE", Size::Long, Decoder::EaEa, Validator::Always));
    v.push(op_entry(MASK_OUT_X_Y, 0x20d0, "move_32_pi_ai", "MOVE", Size::Long, Decoder::EaEa, Validator::Always));
    v.push(op_entry(MASK_OUT_X_Y, 0x2110, "move_32_pd_ai", "MOVE", Size::Long, Decoder::EaEa, Validator::Always));
    v.push(op_entry(MASK_OUT_X_Y, 0x2150, "move_32_di_ai", "MOVE", Size::Long, Decoder::EaEa, Validator::Always));
    proof {
        assert(v@ =~= v0 + rules_25());
    }
}

/// Rules move_32_ix_ai through move_32_di_ix.
pub open spec fn rules_26() -> Seq<OpcodeHandler> {
    seq![
        spec_op_entry(MASK_OUT_X_Y, 0x2190, "move_32_ix_ai", "MOVE", Size::Long, Decoder::EaEa, Validator::Always),
        spec_op_entry(MASK_OUT_Y, 0x21d0, "move_32_aw_ai", "MOVE", Size::Long, Decoder::EaEa, Validator::Always),
        spec_op_entry(MASK_OUT_Y, 0x23d0, "move_32_al_ai", "MOVE", Size::Long, Decoder::EaEa, Validator::Always),
        spec_op_entry(MASK_OUT_X_Y, 0x2018, "move_32_dn_pi", "MOVE", Size::Long, Decoder::EaEa, Validator::Always),
        spec_op_entry(MASK_OUT_X_Y, 0x2098, "move_32_ai_pi", "MOVE", Size::Long, Decoder::EaEa, Validator::Always),
        spec_op_entry(MASK_OUT_X_Y, 0x20d8, "move_32_pi_pi", "MOVE", Size::Long, Decoder::EaEa, Validator::Always),
        spec_op_entry(MASK_OUT_X_Y, 0x2118, "move_32_pd_pi", "MOVE", Size::Long, Decoder::EaEa, Validator::Always),
        spec_op_entry(MASK_OUT_X_Y, 0x2158, "move_32_di_pi", "MOVE", Size::Long, Decoder::EaEa, Validator::Always),
        spec_op_entry(MASK_OUT_X_Y, 0x2198, "move_32_ix_pi", "MOVE", Size::Long, Decoder::EaEa, Validator::Always),
        spec_op_entry(MASK_OUT_Y, 0x21d8, "move_32_aw_pi", "MOVE", Size::Long, Decoder::EaEa, Validator::Always),
        spec_op_entry(MASK_OUT_Y, 0x23d8, "move_32_al_pi", "MOVE", Size::Long, Decoder::EaEa, Validator::Always),
        spec_op_entry(MASK_OUT_X_Y, 0x2020, "move_32_dn_pd", "MOVE", Size::Long, Decoder::EaEa, Validator::Always),
        spec_op_entry(MASK_OUT_X_Y, 0x20a0, "move_32_ai_pd", "MOVE", Size::Long, Decoder::EaEa, Validator::Always),
        spec_op_entry(MASK_OUT_X_Y, 0x20e0, "move_32_pi_pd", "MOVE", Size::Long, Decoder::EaEa, Validator::Always),
        spec_op_entry(MASK_OUT_X_Y, 0x2120, "move_32_pd_pd", "MOVE", Size::Long, Decoder::EaEa, Validator::Always),
        spec_op_entry(MASK_OUT_X_Y, 0x2160, "move_32_di_pd", "MOVE", Size::Long, Decoder::EaEa, Validator::Always),
        spec_op_entry(MASK_OUT_X_Y, 0x21a0, "move_32_ix_pd", "MOVE", Size::Long, Decoder::EaEa, Validator::Always),
        spec_op_entry(MASK_OUT_Y, 0x21e0, "move_32_aw_pd", "MOVE", Size::Long, Decoder::EaEa, Validator::Always),
        spec_op_entry(MASK_OUT_Y, 0x23e0, "move_32_al_pd", "MOVE", Size::Long, Decoder::EaEa, Validator::Always),
        spec_op_entry(MASK_OUT_X_Y, 0x2028, "move_32_dn_di", "MOVE", Size::Long, Decoder::EaEa, Validator::Always),
        spec_op_entry(MASK_OUT_X_Y, 0x20a8, "move_32_ai_di", "MOVE", Size::Long, Decoder::EaEa, Validator::Always),
        spec_op_entry(MASK_OUT_X_Y, 0x20e8, "move_32_pi_di", "MOVE", Size::Long, Decoder::EaEa, Validator::Always),
        spec_op_entry(MASK_OUT_X_Y, 0x2128, "move_32_pd_di", "MOVE", Size::Long, Decoder::EaEa, Validator::Always),
        spec_op_entry(MASK_OUT_X_Y, 0x2168, "move_32_di_di", "MOVE", Size::Long, Decoder::EaEa, Validator::Always),
        spec_op_entry(MASK_OUT_X_Y, 0x21a8, "move_32_ix_di", "MOVE", Size::Long, Decoder::EaEa, Validator::Always),
        spec_op_entry(MASK_OUT_Y, 0x21e8, "move_32_aw_di", "MOVE", Size::Long, Decoder::EaEa, Validator::Always),
        spec_op_entry(MASK_OUT_Y, 0x23e8, "move_32_al_di", "MOVE", Size::Long, Decoder::EaEa, Validator::Always),
        spec_op_entry(MASK_OUT_X_Y, 0x2030, "move_32_dn_ix", "MOVE", Size::Long, Decoder::EaEa, Validator::Always),
        spec_op_entry(MASK_OUT_X_Y, 0x20b0, "move_32_ai_ix", "MOVE", Size::Long, Decoder::EaEa, Validator::Always),
        spec_op_entry(MASK_OUT_X_Y, 0x20f0, "move_32_pi_ix", "MOVE", Size::Long, Decoder::EaEa, Validator::Always),
        spec_op_entry(MASK_OUT_X_Y, 0x2130, "move_32_pd_ix", "MOVE", Size::Long, Decoder::EaEa, Validator::Always),
        spec_op_entry(MASK_OUT_X_Y, 0x2170, "move_32_di_ix", "MOVE", Size::Long, Decoder::EaEa, Validator::Always),
    ]
}

fn push_rules_26(v: &mut Vec<OpcodeHandler>)
    ensures
        final(v)@ == old(v)@ + rules_26(),
        forall|i: int|
            old(v)@.len() <= i < final(v)@.len() ==> rule_wf(#[trigger] final(v)@[i])
                && rule_decodable(final(v)@[i]),
{
    let ghost v0 = v@;
    v.push(op_entry(MASK_OUT_X_Y, 0x2190, "move_32_ix_ai", "MOVE", Size::Long, Decoder::EaEa, Validator::Always));
    v.push(op_entry(MASK_OUT_Y, 0x21d0, "move_32_aw_ai", "MOVE", Size::Long, Decoder::EaEa, Validator::Always));
    v.push(op_entry(MASK_OUT_Y, 0x23d0, "move_32_al_ai", "MOVE", Size::Long, Decoder::EaEa, Validator::Always));
    v.push(op_entry(MASK_OUT_X_Y, 0x2018, "move_32_dn_pi", "MOVE", Size::Long, Decoder::EaEa, Validator::Always));
    v.push(op_entry(MASK_OUT_X_Y, 0x2098, "move_32_ai_pi", "MOVE", Size::Long, Decoder::EaEa, Validator::Always));
    v.push(op_entry(MASK_OUT_X_Y, 0x20d8, "move_32_pi_pi", "MOVE", Size::Long, Decoder::EaEa, Validator::Always));
    v.push(op_entry(MASK_OUT_X_Y, 0x2118, "move_32_pd_pi", "MOVE", Size::Long, Decoder::EaEa, Validator::Always));
    v.push(op_entry(MASK_OUT_X_Y, 0x2158, "move_32_di_pi", "MOVE", Size::Long, Decoder::EaEa, Validator::Always));
    v.push(op_entry(MASK_OUT_X_Y, 0x2198, "move_32_ix_pi", "MOVE", Size::Long, Decoder::EaEa, Validator::Always));
    v.push(op_entry(MASK_OUT_Y, 0x21d8, "move_32_aw_pi", "MOVE", Size::Long, Decoder::EaEa, Validator::Always));
    v.push(op_entry(MASK_OUT_Y, 0x23d8, "move_32_al_pi", "MOVE", Size::Long, Decoder::EaEa, Validator::Always));
    v.push(op_entry(MASK_OUT_X_Y, 0x2020, "move_32_dn_pd", "MOVE", Size::Long, Decoder::EaEa, Validator::Always));
    v.push(op_entry(MASK_OUT_X_Y, 0x20a0, "move_32_ai_pd", "MOVE", Size::Long, Decoder::EaEa, Validator::Always));
    v.push(op_entry(MASK_OUT_X_Y, 0x20e0, "move_32_pi_pd", "MOVE", Size::Long, Decoder::EaEa, Validator::Always));
    v.push(op_entry(MASK_OUT_X_Y, 0x2120, "move_32_pd_pd", "MOVE", Size::Long, Decoder::EaEa, Validator::Always));
    v.push(op_entry(MASK_OUT_X_Y, 0x2160, "move_32_di_pd", "MOVE", Size::Long, Decoder::EaEa, Validator::Always));
    v.push(op_entry(MASK_OUT_X_Y, 0x21a0, "move_32_ix_pd", "MOVE", Size::Long, Decoder::EaEa, Validator::Always));
    v.push(op_entry(MASK_OUT_Y, 0x21e0, "move_32_aw_pd", "MOVE", Size::Long, Decoder::EaEa, Validator::Always));
    v.push(op_entry(MASK_OUT_Y, 0x23e0, "move_32_al_pd", "MOVE", Size::Long, Decoder::EaEa, Validator::Always));
    v.push(op_entry(MASK_OUT_X_Y, 0x2028, "move_32_dn_di", "MOVE", Size::Long, Decoder::EaEa, Validator::Always));
    v.push(op_entry(MASK_OUT_X_Y, 0x20a8, "move_32_ai_di", "MOVE", Size::Long, Decoder::EaEa, Validator::Always));
    v.push(op_entry(MASK_OUT_X_Y, 0x20e8, "move_32_pi_di", "MOVE", Size::Long, Decoder::EaEa, Validator::Always));
    v.push(op_entry(MASK_OUT_X_Y, 0x2128, "move_32_pd_di", "MOVE", Size::Long, Decoder::EaEa, Validator::Always));
    v.push(op_entry(MASK_OUT_X_Y, 0x2168, "move_32_di_di", "MOVE", Size::Long, Decoder::EaEa, Validator::Always));
    v.push(op_entry(MASK_OUT_X_Y, 0x21a8, "move_32_ix_di", "MOVE", Size::Long, Decoder::EaEa, Validator::Always));
    v.push(op_entry(MASK_OUT_Y, 0x21e8, "move_32_aw_di", "MOVE", Size::Long, Decoder::EaEa, Validator::Always));
    v.push(op_entry(MASK_OUT_Y, 0x23e8, "move_32_al_di", "MOVE", Size::Long, Decoder::EaEa, Validator::Always));
    v.push(op_entry(MASK_OUT_X_Y, 0x2030, "move_32_dn_ix", "MOVE", Size::Long, Decoder::EaEa, Validator::Always));
    v.push(op_entry(MASK_OUT_X_Y, 0x20b0, "move_32_ai_ix", "MOVE", Size::Long, Decoder::EaEa, Validator::Always));
    v.push(op_entry(MASK_OUT_X_Y, 0x20f0, "move_32_pi_ix", "MOVE", Size::Long, Decoder::EaEa, Validator::Always));
    v.push(op_entry(MASK_OUT_X_Y, 0x2130, "move_32_pd_ix", "MOVE", Size::Long, Decoder::EaEa, Validator::Always));
    v.push(op_entry(MASK_OUT_X_Y, 0x2170, "move_32_di_ix", "MOVE", Size::Long, Decoder::EaEa, Validator::Always));
    proof {
        assert(v@ =~= v0 + rules_26());
    }
}

/// Rules move_32_ix_ix through move_32_di_pcix.
pub open spec fn rules_27() -> Seq<OpcodeHandler> {
    seq![
        spec_op_entry(MASK_OUT_X_Y, 0x21b0, "move_32_ix_ix", "MOVE", Size::Long, Decoder::EaEa, Validator::Always),
        spec_op_entry(MASK_OUT_Y, 0x21f0, "move_32_aw_ix", "MOVE", Size::Long, Decoder::EaEa, Validator::Always),
        spec_op_entry(MASK_OUT_Y, 0x23f0, "move_32_al_ix", "MOVE", Size::Long, Decoder::EaEa, Validator::Always),
        spec_op_entry(MASK_OUT_X, 0x2038, "move_32_dn_aw", "MOVE", Size::Long, Decoder::EaEa, Validator::Always),
        spec_op_entry(MASK_OUT_X, 0x20b8, "move_32_ai_aw", "MOVE", Size::Long, Decoder::EaEa, Validator::Always),
        spec_op_entry(MASK_OUT_X, 0x20f8, "move_32_pi_aw", "MOVE", Size::Long, Decoder::EaEa, Validator::Always),
        spec_op_entry(MASK_OUT_X, 0x2138, "move_32_pd_aw", "MOVE", Size::Long, Decoder::EaEa, Validator::Always),
        spec_op_entry(MASK_OUT_X, 0x2178, "move_32_di_aw", "MOVE", Size::Long, Decoder::EaEa, Validator::Always),
        spec_op_entry(MASK_OUT_X, 0x21b8, "move_32_ix_aw", "MOVE", Size::Long, Decoder::EaEa, Validator::Always),
        spec_op_entry(MASK_EXACT, 0x21f8, "move_32_aw_aw", "MOVE", Size::Long, Decoder::EaEa, Validator::Always),
        spec_op_entry(MASK_EXACT, 0x23f8, "move_32_al_aw", "MOVE", Size::Long, Decoder::EaEa, Validator::Always),
        spec_op_entry(MASK_OUT_X, 0x2039, "move_32_dn_al", "MOVE", Size::Long, Decoder::EaEa, Validator::Always),
        spec_op_entry(MASK_OUT_X, 0x20b9, "move_32_ai_al", "MOVE", Size::Long, Decoder::EaEa, Validator::Always),
        spec_op_entry(MASK_OUT_X, 0x20f9, "move_32_pi_al", "MOVE", Size::Long, Decoder::EaEa, Validator::Always),
        spec_op_entry(MASK_OUT_X, 0x2139, "move_32_pd_al", "MOVE", Size::Long, Decoder::EaEa, Validator::Always),
        spec_op_entry(MASK_OUT_X, 0x2179, "move_32_di_al", "MOVE", Size::Long, Decoder::EaEa, Validator::Always),
        spec_op_entry(MASK_OUT_X, 0x21b9, "move_32_ix_al", "MOVE", Size::Long, Decoder::EaEa, Validator::Always),
        spec_op_entry(MASK_EXACT, 0x21f9, "move_32_aw_al", "MOVE", Size::Long, Decoder::EaEa, Validator::Always),
        spec_op_entry(MASK_EXACT, 0x23f9, "move_32_al_al", "MOVE", Size::Long, Decoder::EaEa, Validator::Always),
        spec_op_entry(MASK_OUT_X, 0x203a, "move_32_dn_pcdi", "MOVE", Size::Long, Decoder::EaEa, Validator::Always),
        spec_op_entry(MASK_OUT_X, 0x20ba, "move_32_ai_pcdi", "MOVE", Size::Long, Decoder::EaEa, Validator::Always),
        spec_op_entry(MASK_OUT_X, 0x20fa, "move_32_pi_pcdi", "MOVE", Size::Long, Decoder::EaEa, Validator::Always),
        spec_op_entry(MASK_OUT_X, 0x213a, "move_32_pd_pcdi", "MOVE", Size::Long, Decoder::EaEa, Validator::Always),
        spec_op_entry(MASK_OUT_X, 0x217a, "move_32_di_pcdi", "MOVE", Size::Long, Decoder::EaEa, Validator::Always),
        spec_op_entry(MASK_OUT_X, 0x21ba, "move_32_ix_pcdi", "MOVE", Size::Long, Decoder::EaEa, Validator::Always),
        spec_op_entry(MASK_EXACT, 0x21fa, "move_32_aw_pcdi", "MOVE", Size::Long, Decoder::EaEa, Validator::Always),
        spec_op_entry(MASK_EXACT, 0x23fa, "move_32_al_pcdi", "MOVE", Size::Long, Decoder::EaEa, Validator::Always),
        spec_op_entry(MASK_OUT_X, 0x203b, "move_32_dn_pcix", "MOVE", Size::Long, Decoder::EaEa, Validator::Always),
        spec_op_entry(MASK_OUT_X, 0x20bb, "move_32_ai_pcix", "MOVE", Size::Long, Decoder::EaEa, Validator::Always),
        spec_op_entry(MASK_OUT_X, 0x20fb, "move_32_pi_pcix", "MOVE", Size::Long, Decoder::EaEa, Validator::Always),
        spec_op_entry(MASK_OUT_X, 0x213b, "move_32_pd_pcix", "MOVE", Size::Long, Decoder::EaEa, Validator::Always),
        spec_op_entry(MASK_OUT_X, 0x217b, "move_32_di_pcix", "MOVE", Size::Long, Decoder::EaEa, Validator::Always),
    ]
}

fn push_rules_27(v: &mut Vec<OpcodeHandler>)
    ensures
        final(v)@ == old(v)@ + rules_27(),
        forall|i: int|
            old(v)@.len() <= i < final(v)@.len() ==> rule_wf(#[trigger] final(v)@[i])
                && rule_decodable(final(v)@[i]),
{
    let ghost v0 = v@;
    v.push(op_entry(MASK_OUT_X_Y, 0x21b0, "move_32_ix_ix", "MOVE", Size::Long, Decoder::EaEa, Validator::Always));
    v.push(op_entry(MASK_OUT_Y, 0x21f0, "move_32_aw_ix", "MOVE", Size::Long, Decoder::EaEa, Validator::Always));
    v.push(op_entry(MASK_OUT_Y, 0x23f0, "move_32_al_ix", "MOVE", Size::Long, Decoder::EaEa, Validator::Always));
    v.push(op_entry(MASK_OUT_X, 0x2038, "move_32_dn_aw", "MOVE", Size::Long, Decoder::EaEa, Validator::Always));
    v.push(op_entry(MASK_OUT_X, 0x20b8, "move_32_ai_aw", "MOVE", Size::Long, Decoder::EaEa, Validator::Always));
    v.push(op_entry(MASK_OUT_X, 0x20f8, "move_32_pi_aw", "MOVE", Size::Long, Decoder::EaEa, Validator::Always));
    v.push(op_entry(MASK_OUT_X, 0x2138, "move_32_pd_aw", "MOVE", Size::Long, Decoder::EaEa, Validator::Always));
    v.push(op_entry(MASK_OUT_X, 0x2178, "move_32_di_aw", "MOVE", Size::Long, Decoder::EaEa, Validator::Always));
    v.push(op_entry(MASK_OUT_X, 0x21b8, "move_32_ix_aw", "MOVE", Size::Long, Decoder::EaEa, Validator::Always));
    v.push(op_entry(MASK_EXACT, 0x21f8, "move_32_aw_aw", "MOVE", Size::Long, Decoder::EaEa, Validator::Always));
    v.push(op_entry(MASK_EXACT, 0x23f8, "move_32_al_aw", "MOVE", Size::Long, Decoder::EaEa, Validator::Always));
    v.push(op_entry(MASK_OUT_X, 0x2039, "move_32_dn_al", "MOVE", Size::Long, Decoder::EaEa, Validator::Always));
    v.push(op_entry(MASK_OUT_X, 0x20b9, "move_32_ai_al", "MOVE", Size::Long, Decoder::EaEa, Validator::Always));
    v.push(op_entry(MASK_OUT_X, 0x20f9, "move_32_pi_al", "MOVE", Size::Long, Decoder::EaEa, Validator::Always));
    v.push(op_entry(MASK_OUT_X, 0x2139, "move_32_pd_al", "MOVE", Size::Long, Decoder::EaEa, Validator::Always));
    v.push(op_entry(MASK_OUT_X, 0x2179, "move_32_di_al", "MOVE", Size::Long, Decoder::EaEa, Validator::Always));
    v.push(op_entry(MASK_OUT_X, 0x21b9, "move_32_ix_al", "MOVE", Size::Long, Decoder::EaEa, Validator::Always));
    v.push(op_entry(MASK_EXACT, 0x21f9, "move_32_aw_al", "MOVE", Size::Long, Decoder::EaEa, Validator::Always));
    v.push(op_entry(MASK_EXACT, 0x23f9, "move_32_al_al", "MOVE", Size::Long, Decoder::EaEa, Validator::Always));
    v.push(op_entry(MASK_OUT_X, 0x203a, "move_32_dn_pcdi", "MOVE", Size::Long, Decoder::EaEa, Validator::Always));
    v.push(op_entry(MASK_OUT_X, 0x20ba, "move_32_ai_pcdi", "MOVE", Size::Long, Decoder::EaEa, Validator::Always));
    v.push(op_entry(MASK_OUT_X, 0x20fa, "move_32_pi_pcdi", "MOVE", Size::Long, Decoder::EaEa, Validator::Always));
    v.push(op_entry(MASK_OUT_X, 0x213a, "move_32_pd_pcdi", "MOVE", Size::Long, Decoder::EaEa, Validator::Always));
    v.push(op_entry(MASK_OUT_X, 0x217a, "move_32_di_pcdi", "MOVE", Size::Long, Decoder::EaEa, Validator::Always));
    v.push(op_entry(MASK_OUT_X, 0x21ba, "move_32_ix_pcdi", "MOVE", Size::Long, Decoder::EaEa, Validator::Always));
    v.push(op_entry(MASK_EXACT, 0x21fa, "move_32_aw_pcdi", "MOVE", Size::Long, Decoder::EaEa, Validator::Always));
    v.push(op_entry(MASK_EXACT, 0x23fa, "move_32_al_pcdi", "MOVE", Size::Long, Decoder::EaEa, Validator::Always));
    v.push(op_entry(MASK_OUT_X, 0x203b, "move_32_dn_pcix", "MOVE", Size::Long, Decoder::EaEa, Validator::Always));
    v.push(op_entry(MASK_OUT_X, 0x20bb, "move_32_ai_pcix", "MOVE", Size::Long, Decoder::EaEa, Validator::Always));
    v.push(op_entry(MASK_OUT_X, 0x20fb, "move_32_pi_pcix", "MOVE", Size::Long, Decoder::EaEa, Validator::Always));
    v.push(op_entry(MASK_OUT_X, 0x213b, "move_32_pd_pcix", "MOVE", Size::Long, Decoder::EaEa, Validator::Always));
    v.push(op_entry(MASK_OUT_X, 0x217b, "move_32_di_pcix", "MOVE", Size::Long, Decoder::EaEa, Validator::Always));
    proof {
        assert(v@ =~= v0 + rules_27());
    }
}

/// Rules move_32_ix_pcix through movea_32_al.
pub open spec fn rules_28() -> Seq<OpcodeHandler> {
    seq![
        spec_op_entry(MASK_OUT_X, 0x21bb, "move_32_ix_pcix", "MOVE", Size::Long, Decoder::EaEa, Validator::Always),
        spec_op_entry(MASK_EXACT, 0x21fb, "move_32_aw_pcix", "MOVE", Size::Long, Decoder::EaEa, Validator::Always),
        spec_op_entry(MASK_EXACT, 0x23fb, "move_32_al_pcix", "MOVE", Size::Long, Decoder::EaEa, Validator::Always),
        spec_op_entry(MASK_OUT_X, 0x203c, "move_32_dn_imm", "MOVE", Size::Long, Decoder::EaEa, Validator::Always),
        spec_op_entry(MASK_OUT_X, 0x20bc, "move_32_ai_imm", "MOVE", Size::Long, Decoder::EaEa, Validator::Always),
        spec_op_entry(MASK_OUT_X, 0x20fc, "move_32_pi_imm", "MOVE", Size::Long, Decoder::EaEa, Validator::Always),
        spec_op_entry(MASK_OUT_X, 0x213c, "move_32_pd_imm", "MOVE", Size::Long, Decoder::EaEa, Validator::Always),
        spec_op_entry(MASK_OUT_X, 0x217c, "move_32_di_imm", "MOVE", Size::Long, Decoder::EaEa, Validator::Always),
        spec_op_entry(MASK_OUT_X, 0x21bc, "move_32_ix_imm", "MOVE", Size::Long, Decoder::EaEa, Validator::Always),
        spec_op_entry(MASK_EXACT, 0x21fc, "move_32_aw_imm", "MOVE", Size::Long, Decoder::EaEa, Validator::Always),
        spec_op_entry(MASK_EXACT, 0x23fc, "move_32_al_imm", "MOVE", Size::Long, Decoder::EaEa, Validator::Always),
        spec_op_entry(MASK_OUT_X_Y, 0x3040, "movea_16_dn", "MOVEA", Size::Word, Decoder::EaAx, Validator::Always),
        spec_op_entry(MASK_OUT_X_Y, 0x3048, "movea_16_an", "MOVEA", Size::Word, Decoder::EaAx, Validator::Always),
        spec_op_entry(MASK_OUT_X_Y, 0x3050, "movea_16_ai", "MOVEA", Size::Word, Decoder::EaAx, Validator::Always),
        spec_op_entry(MASK_OUT_X_Y, 0x3058, "movea_16_pi", "MOVEA", Size::Word, Decoder::EaAx, Validator::Always),
        spec_op_entry(MASK_OUT_X_Y, 0x3060, "movea_16_pd", "MOVEA", Size::Word, Decoder::EaAx, Validator::Always),
        spec_op_entry(MASK_OUT_X_Y, 0x3068, "movea_16_di", "MOVEA", Size::Word, Decoder::EaAx, Validator::Always),
        spec_op_entry(MASK_OUT_X_Y, 0x3070, "movea_16_ix", "MOVEA", Size::Word, Decoder::EaAx, Validator::Always),
        spec_op_entry(MASK_OUT_X, 0x3078, "movea_16_aw", "MOVEA", Size::Word, Decoder::EaAx, Validator::Always),
        spec_op_entry(MASK_OUT_X, 0x3079, "movea_16_al", "MOVEA", Size::Word, Decoder::EaAx, Validator::Always),
        spec_op_entry(MASK_OUT_X, 0x307a, "movea_16_pcdi", "MOVEA", Size::Word, Decoder::EaAx, Validator::Always),
        spec_op_entry(MASK_OUT_X, 0x307b, "movea_16_pcix", "MOVEA", Size::Word, Decoder::EaAx, Validator::Always),
        spec_op_entry(MASK_OUT_X, 0x307c, "movea_16_imm", "MOVEA", Size::Word, Decoder::EaAx, Validator::Always),
        spec_op_entry(MASK_OUT_X_Y, 0x2040, "movea_32_dn", "MOVEA", Size::Long, Decoder::EaAx, Validator::Always),
        spec_op_entry(MASK_OUT_X_Y, 0x2048, "movea_32_an", "MOVEA", Size::Long, Decoder::EaAx, Validator::Always),
        spec_op_entry(MASK_OUT_X_Y, 0x2050, "movea_32_ai", "MOVEA", Size::Long, Decoder::EaAx, Validator::Always),
        spec_op_entry(MASK_OUT_X_Y, 0x2058, "movea_32_pi", "MOVEA", Size::Long, Decoder::EaAx, Validator::Always),
        spec_op_entry(MASK_OUT_X_Y, 0x2060, "movea_32_pd", "MOVEA", Size::Long, Decoder::EaAx, Validator::Always),
        spec_op_entry(MASK_OUT_X_Y, 0x2068, "movea_32_di", "MOVEA", Size::Long, Decoder::EaAx, Validator::Always),
        spec_op_entry(MASK_OUT_X_Y, 0x2070, "movea_32_ix", "MOVEA", Size::Long, Decoder::EaAx, Validator::Always),
        spec_op_entry(MASK_OUT_X, 0x2078, "movea_32_aw", "MOVEA", Size::Long, Decoder::EaAx, Validator::Always),
        spec_op_entry(MASK_OUT_X, 0x2079, "movea_32_al", "MOVEA", Size::Long, Decoder::EaAx, Validator::Always),
    ]
}

fn push_rules_28(v: &mut Vec<OpcodeHandler>)
    ensures
        final(v)@ == old(v)@ + rules_28(),
        forall|i: int|
            old(v)@.len() <= i < final(v)@.len() ==> rule_wf(#[trigger] final(v)@[i])
                && rule_decodable(final(v)@[i]),
{
    let ghost v0 = v@;
    v.push(op_entry(MASK_OUT_X, 0x21bb, "move_32_ix_pcix", "MOVE", Size::Long, Decoder::EaEa, Validator::Always));
    v.push(op_entry(MASK_EXACT, 0x21fb, "move_32_aw_pcix", "MOVE", Size::Long, Decoder::EaEa, Validator::Always));
    v.push(op_entry(MASK_EXACT, 0x23fb, "move_32_al_pcix", "MOVE", Size::Long, Decoder::EaEa, Validator::Always));
    v.push(op_entry(MASK_OUT_X, 0x203c, "move_32_dn_imm", "MOVE", Size::Long, Decoder::EaEa, Validator::Always));
    v.push(op_entry(MASK_OUT_X, 0x20bc, "move_32_ai_imm", "MOVE", Size::Long, Decoder::EaEa, Validator::Always));
    v.push(op_entry(MASK_OUT_X, 0x20fc, "move_32_pi_imm", "MOVE", Size::Long, Decoder::EaEa, Validator::Always));
    v.push(op_entry(MASK_OUT_X, 0x213c, "move_32_pd_imm", "MOVE", Size::Long, Decoder::EaEa, Validator::Always));
    v.push(op_entry(MASK_OUT_X, 0x217c, "move_32_di_imm", "MOVE", Size::Long, Decoder::EaEa, Validator::Always));
    v.push(op_entry(MASK_OUT_X, 0x21bc, "move_32_ix_imm", "MOVE", Size::Long, Decoder::EaEa, Validator::Always));
    v.push(op_entry(MASK_EXACT, 0x21fc, "move_32_aw_imm", "MOVE", Size::Long, Decoder::EaEa, Validator::Always));
    v.push(op_entry(MASK_EXACT, 0x23fc, "move_32_al_imm", "MOVE", Size::Long, Decoder::EaEa, Validator::Always));
    v.push(op_entry(MASK_OUT_X_Y, 0x3040, "movea_16_dn", "MOVEA", Size::Word, Decoder::EaAx, Validator::Always));
    v.push(op_entry(MASK_OUT_X_Y, 0x3048, "movea_16_an", "MOVEA", Size::Word, Decoder::EaAx, Validator::Always));
    v.push(op_entry(MASK_OUT_X_Y, 0x3050, "movea_16_ai", "MOVEA", Size::Word, Decoder::EaAx, Validator::Always));
    v.push(op_entry(MASK_OUT_X_Y, 0x3058, "movea_16_pi", "MOVEA", Size::Word, Decoder::EaAx, Validator::Always));
    v.push(op_entry(MASK_OUT_X_Y, 0x3060, "movea_16_pd", "MOVEA", Size::Word, Decoder::EaAx, Validator::Always));
    v.push(op_entry(MASK_OUT_X_Y, 0x3068, "movea_16_di", "MOVEA", Size::Word, Decoder::EaAx, Validator::Always));
    v.push(op_entry(MASK_OUT_X_Y, 0x3070, "movea_16_ix", "MOVEA", Size::Word, Decoder::EaAx, Validator::Always));
    v.push(op_entry(MASK_OUT_X, 0x3078, "movea_16_aw", "MOVEA", Size::Word, Decoder::EaAx, Validator::Always));
    v.push(op_entry(MASK_OUT_X, 0x3079, "movea_16_al", "MOVEA", Size::Word, Decoder::EaAx, Validator::Always));
    v.push(op_entry(MASK_OUT_X, 0x307a, "movea_16_pcdi", "MOVEA", Size::Word, Decoder::EaAx, Validator::Always));
    v.push(op_entry(MASK_OUT_X, 0x307b, "movea_16_pcix", "MOVEA", Size::Word, Decoder::EaAx, Validator::Always));
    v.push(op_entry(MASK_OUT_X, 0x307c, "movea_16_imm", "MOVEA", Size::Word, Decoder::EaAx, Validator::Always));
    v.push(op_entry(MASK_OUT_X_Y, 0x2040, "movea_32_dn", "MOVEA", Size::Long, Decoder::EaAx, Validator::Always));
    v.push(op_entry(MASK_OUT_X_Y, 0x2048, "movea_32_an", "MOVEA", Size::Long, Decoder::EaAx, Validator::Always));
    v.push(op_entry(MASK_OUT_X_Y, 0x2050, "movea_32_ai", "MOVEA", Size::Long, Decoder::EaAx, Validator::Always));
    v.push(op_entry(MASK_OUT_X_Y, 0x2058, "movea_32_pi", "MOVEA", Size::Long, Decoder::EaAx, Validator::Always));
    v.push(op_entry(MASK_OUT_X_Y, 0x2060, "movea_32_pd", "MOVEA", Size::Long, Decoder::EaAx, Validator::Always));
    v.push(op_entry(MASK_OUT_X_Y, 0x2068, "movea_32_di", "MOVEA", Size::Long, Decoder::EaAx, Validator::Always));
    v.push(op_entry(MASK_OUT_X_Y, 0x2070, "movea_32_ix", "MOVEA", Size::Long, Decoder::EaAx, Validator::Always));
    v.push(op_entry(MASK_OUT_X, 0x2078, "movea_32_aw", "MOVEA", Size::Long, Decoder::EaAx, Validator::Always));
    v.push(op_entry(MASK_OUT_X, 0x2079, "movea_32_al", "MOVEA", Size::Long, Decoder::EaAx, Validator::Always));
    proof {
        assert(v@ =~= v0 + rules_28());
    }
}

/// Rules movea_32_pcdi through move_16_tos_pcix.
pub open spec fn rules_29() -> Seq<OpcodeHandler> {
    seq![
        spec_op_entry(MASK_OUT_X, 0x207a, "movea_32_pcdi", "MOVEA", Size::Long, Decoder::EaAx, Validator::Always),
        spec_op_entry(MASK_OUT_X, 0x207b, "movea_32_pcix", "MOVEA", Size::Long, Decoder::EaAx, Validator::Always),
        spec_op_entry(MASK_OUT_X, 0x207c, "movea_32_imm", "MOVEA", Size::Long, Decoder::EaAx, Validator::Always),
        spec_op_entry(MASK_OUT_Y, 0x44c0, "move_16_toc_dn", "MOVE", Size::Word, Decoder::EaCcr, Validator::Always),
        spec_op_entry(MASK_OUT_Y, 0x44d0, "move_16_toc_ai", "MOVE", Size::Word, Decoder::EaCcr, Validator::Always),
        spec_op_entry(MASK_OUT_Y, 0x44d8, "move_16_toc_pi", "MOVE", Size::Word, Decoder::EaCcr, Validator::Always),
        spec_op_entry(MASK_OUT_Y, 0x44e0, "move_16_toc_pd", "MOVE", Size::Word, Decoder::EaCcr, Validator::Always),
        spec_op_entry(MASK_OUT_Y, 0x44e8, "move_16_toc_di", "MOVE", Size::Word, Decoder::EaCcr, Validator::Always),
        spec_op_entry(MASK_OUT_Y, 0x44f0, "move_16_toc_ix", "MOVE", Size::Word, Decoder::EaCcr, Validator::Always),
        spec_op_entry(MASK_EXACT, 0x44f8, "move_16_toc_aw", "MOVE", Size::Word, Decoder::EaCcr, Validator::Always),
        spec_op_entry(MASK_EXACT, 0x44f9, "move_16_toc_al", "MOVE", Size::Word, Decoder::EaCcr, Validator::Always),
        spec_op_entry(MASK_EXACT, 0x44fa, "move_16_toc_pcdi", "MOVE", Size::Word, Decoder::EaCcr, Validator::Always),
        spec_op_entry(MASK_EXACT, 0x44fb, "move_16_toc_pcix", "MOVE", Size::Word, Decoder::EaCcr, Validator::Always),
        spec_op_entry(MASK_EXACT, 0x44fc, "move_16_toc_imm", "MOVE", Size::Word, Decoder::EaCcr, Validator::Always),
        spec_op_entry(MASK_OUT_Y, 0x40c0, "move_16_frs_dn", "MOVE", Size::Word, Decoder::SrEa, Validator::Always),
        spec_op_entry(MASK_OUT_Y, 0x40d0, "move_16_frs_ai", "MOVE", Size::Word, Decoder::SrEa, Validator::Always),
        spec_op_entry(MASK_OUT_Y, 0x40d8, "move_16_frs_pi", "MOVE", Size::Word, Decoder::SrEa, Validator::Always),
        spec_op_entry(MASK_OUT_Y, 0x40e0, "move_16_frs_pd", "MOVE", Size::Word, Decoder::SrEa, Validator::Always),
        spec_op_entry(MASK_OUT_Y, 0x40e8, "move_16_frs_di", "MOVE", Size::Word, Decoder::SrEa, Validator::Always),
        spec_op_entry(MASK_OUT_Y, 0x40f0, "move_16_frs_ix", "MOVE", Size::Word, Decoder::SrEa, Validator::Always),
        spec_op_entry(MASK_EXACT, 0x40f8, "move_16_frs_aw", "MOVE", Size::Word, Decoder::SrEa, Validator::Always),
        spec_op_entry(MASK_EXACT, 0x40f9, "move_16_frs_al", "MOVE", Size::Word, Decoder::SrEa, Validator::Always),
        spec_op_entry(MASK_OUT_Y, 0x46c0, "move_16_tos_dn", "MOVE", Size::Word, Decoder::EaSr, Validator::Always),
        spec_op_entry(MASK_OUT_Y, 0x46d0, "move_16_tos_ai", "MOVE", Size::Word, Decoder::EaSr, Validator::Always),
        spec_op_entry(MASK_OUT_Y, 0x46d8, "move_16_tos_pi", "MOVE", Size::Word, Decoder::EaSr, Validator::Always),
        spec_op_entry(MASK_OUT_Y, 0x46e0, "move_16_tos_pd", "MOVE", Size::Word, Decoder::EaSr, Validator::Always),
        spec_op_entry(MASK_OUT_Y, 0x46e8, "move_16_tos_di", "MOVE", Size::Word, Decoder::EaSr, Validator::Always),
        spec_op_entry(MASK_OUT_Y, 0x46f0, "move_16_tos_ix", "MOVE", Size::Word, Decoder::EaSr, Validator::Always),
        spec_op_entry(MASK_EXACT, 0x46f8, "move_16_tos_aw", "MOVE", Size::Word, Decoder::EaSr, Validator::Always),
        spec_op_entry(MASK_EXACT, 0x46f9, "move_16_tos_al", "MOVE", Size::Word, Decoder::EaSr, Validator::Always),
        spec_op_entry(MASK_EXACT, 0x46fa, "move_16_tos_pcdi", "MOVE", Size::Word, Decoder::EaSr, Validator::Always),
        spec_op_entry(MASK_EXACT, 0x46fb, "move_16_tos_pcix", "MOVE", Size::Word, Decoder::EaSr, Validator::Always),
    ]
}

fn push_rules_29(v: &mut Vec<OpcodeHandler>)
    ensures
        final(v)@ == old(v)@ + rules_29(),
        forall|i: int|
            old(v)@.len() <= i < final(v)@.len() ==> rule_wf(#[trigger] final(v)@[i])
                && rule_decodable(final(v)@[i]),
{
    let ghost v0 = v@;
    v.push(op_entry(MASK_OUT_X, 0x207a, "movea_32_pcdi", "MOVEA", Size::Long, Decoder::EaAx, Validator::Always));
    v.push(op_entry(MASK_OUT_X, 0x207b, "movea_32_pcix", "MOVEA", Size::Long, Decoder::EaAx, Validator::Always));
    v.push(op_entry(MASK_OUT_X, 0x207c, "movea_32_imm", "MOVEA", Size::Long, Decoder::EaAx, Validator::Always));
    v.push(op_entry(MASK_OUT_Y, 0x44c0, "move_16_toc_dn", "MOVE", Size::Word, Decoder::EaCcr, Validator::Always));
    v.push(op_entry(MASK_OUT_Y, 0x44d0, "move_16_toc_ai", "MOVE", Size::Word, Decoder::EaCcr, Validator::Always));
    v.push(op_entry(MASK_OUT_Y, 0x44d8, "move_16_toc_pi", "MOVE", Size::Word, Decoder::EaCcr, Validator::Always));
    v.push(op_entry(MASK_OUT_Y, 0x44e0, "move_16_toc_pd", "MOVE", Size::Word, Decoder::EaCcr, Validator::Always));
    v.push(op_entry(MASK_OUT_Y, 0x44e8, "move_16_toc_di", "MOVE", Size::Word, Decoder::EaCcr, Validator::Always));
    v.push(op_entry(MASK_OUT_Y, 0x44f0, "move_16_toc_ix", "MOVE", Size::Word, Decoder::EaCcr, Validator::Always));
    v.push(op_entry(MASK_EXACT, 0x44f8, "move_16_toc_aw", "MOVE", Size::Word, Decoder::EaCcr, Validator::Always));
    v.push(op_entry(MASK_EXACT, 0x44f9, "move_16_toc_al", "MOVE", Size::Word, Decoder::EaCcr, Validator::Always));
    v.push(op_entry(MASK_EXACT, 0x44fa, "move_16_toc_pcdi", "MOVE", Size::Word, Decoder::EaCcr, Validator::Always));
    v.push(op_entry(MASK_EXACT, 0x44fb, "move_16_toc_pcix", "MOVE", Size::Word, Decoder::EaCcr, Validator::Always));
    v.push(op_entry(MASK_EXACT, 0x44fc, "move_16_toc_imm", "MOVE", Size::Word, Decoder::EaCcr, Validator::Always));
    v.push(op_entry(MASK_OUT_Y, 0x40c0, "move_16_frs_dn", "MOVE", Size::Word, Decoder::SrEa, Validator::Always));
    v.push(op_entry(MASK_OUT_Y, 0x40d0, "move_16_frs_ai", "MOVE", Size::Word, Decoder::SrEa, Validator::Always));
    v.push(op_entry(MASK_OUT_Y, 0x40d8, "move_16_frs_pi", "MOVE", Size::Word, Decoder::SrEa, Validator::Always));
    v.push(op_entry(MASK_OUT_Y, 0x40e0, "move_16_frs_pd", "MOVE", Size::Word, Decoder::SrEa, Validator::Always));
    v.push(op_entry(MASK_OUT_Y, 0x40e8, "move_16_frs_di", "MOVE", Size::Word, Decoder::SrEa, Validator::Always));
    v.push(op_entry(MASK_OUT_Y, 0x40f0, "move_16_frs_ix", "MOVE", Size::Word, Decoder::SrEa, Validator::Always));
    v.push(op_entry(MASK_EXACT, 0x40f8, "move_16_frs_aw", "MOVE", Size::Word, Decoder::SrEa, Validator::Always));
    v.push(op_entry(MASK_EXACT, 0x40f9, "move_16_frs_al", "MOVE", Size::Word, Decoder::SrEa, Validator::Always));
    v.push(op_entry(MASK_OUT_Y, 0x46c0, "move_16_tos_dn", "MOVE", Size::Word, Decoder::EaSr, Validator::Always));
    v.push(op_entry(MASK_OUT_Y, 0x46d0, "move_16_tos_ai", "MOVE", Size::Word, Decoder::EaSr, Validator::Always));
    v.push(op_entry(MASK_OUT_Y, 0x46d8, "move_16_tos_pi", "MOVE", Size::Word, Decoder::EaSr, Validator::Always));
    v.push(op_entry(MASK_OUT_Y, 0x46e0, "move_16_tos_pd", "MOVE", Size::Word, Decoder::EaSr, Validator::Always));
    v.push(op_entry(MASK_OUT_Y, 0x46e8, "move_16_tos_di", "MOVE", Size::Word, Decoder::EaSr, Validator::Always));
    v.push(op_entry(MASK_OUT_Y, 0x46f0, "move_16_tos_ix", "MOVE", Size::Word, Decoder::EaSr, Validator::Always));
    v.push(op_entry(MASK_EXACT, 0x46f8, "move_16_tos_aw", "MOVE", Size::Word, Decoder::EaSr, Validator::Always));
    v.push(op_entry(MASK_EXACT, 0x46f9, "move_16_tos_al", "MOVE", Size::Word, Decoder::EaSr, Validator::Always));
    v.push(op_entry(MASK_EXACT, 0x46fa, "move_16_tos_pcdi", "MOVE", Size::Word, Decoder::EaSr, Validator::Always));
    v.push(op_entry(MASK_EXACT, 0x46fb, "move_16_tos_pcix", "MOVE", Size::Word, Decoder::EaSr, Validator::Always));
    proof {
        assert(v@ =~= v0 + rules_29());
    }
}

/// Rules move_16_tos_imm through movep_16_er.
pub open spec fn rules_30() -> Seq<OpcodeHandler> {
    seq![
        spec_op_entry(MASK_EXACT, 0x46fc, "move_16_tos_imm", "MOVE", Size::Word, Decoder::EaSr, Validator::Always),
        spec_op_entry(MASK_OUT_Y, 0x4e60, "move_32_tou", "MOVE", Size::Long, Decoder::AnUsp, Validator::Always),
        spec_op_entry(MASK_OUT_Y, 0x4e68, "move_32_fru", "MOVE", Size::Long, Decoder::UspAn, Validator::Always),
        spec_op_entry(MASK_OUT_Y, 0x4890, "movem_16_re_ai", "MOVEM", Size::Word, Decoder::MovemRe, Validator::Always),
        spec_op_entry(MASK_OUT_Y, 0x48a0, "movem_16_re_pd", "MOVEM", Size::Word, Decoder::MovemRe, Validator::Always),
        spec_op_entry(MASK_OUT_Y, 0x48a8, "movem_16_re_di", "MOVEM", Size::Word, Decoder::MovemRe, Validator::Always),
        spec_op_entry(MASK_OUT_Y, 0x48b0, "movem_16_re_ix", "MOVEM", Size::Word, Decoder::MovemRe, Validator::Always),
        spec_op_entry(MASK_EXACT, 0x48b8, "movem_16_re_aw", "MOVEM", Size::Word, Decoder::MovemRe, Validator::Always),
        spec_op_entry(MASK_EXACT, 0x48b9, "movem_16_re_al", "MOVEM", Size::Word, Decoder::MovemRe, Validator::Always),
        spec_op_entry(MASK_OUT_Y, 0x4c90, "movem_16_er_ai", "MOVEM", Size::Word, Decoder::MovemEr, Validator::Always),
        spec_op_entry(MASK_OUT_Y, 0x4c98, "movem_16_er_pi", "MOVEM", Size::Word, Decoder::MovemEr, Validator::Always),
        spec_op_entry(MASK_OUT_Y, 0x4ca8, "movem_16_er_di", "MOVEM", Size::Word, Decoder::MovemEr, Validator::Always),
        spec_op_entry(MASK_OUT_Y, 0x4cb0, "movem_16_er_ix", "MOVEM", Size::Word, Decoder::MovemEr, Validator::Always),
        spec_op_entry(MASK_EXACT, 0x4cb8, "movem_16_er_aw", "MOVEM", Size::Word, Decoder::MovemEr, Validator::Always),
        spec_op_entry(MASK_EXACT, 0x4cb9, "movem_16_er_al", "MOVEM", Size::Word, Decoder::MovemEr, Validator::Always),
        spec_op_entry(MASK_EXACT, 0x4cba, "movem_16_er_pcdi", "MOVEM", Size::Word, Decoder::MovemEr, Validator::Always),
        spec_op_entry(MASK_EXACT, 0x4cbb, "movem_16_er_pcix", "MOVEM", Size::Word, Decoder::MovemEr, Validator::Always),
        spec_op_entry(MASK_OUT_Y, 0x48d0, "movem_32_re_ai", "MOVEM", Size::Long, Decoder::MovemRe, Validator::Always),
        spec_op_entry(MASK_OUT_Y, 0x48e0, "movem_32_re_pd", "MOVEM", Size::Long, Decoder::MovemRe, Validator::Always),
        spec_op_entry(MASK_OUT_Y, 0x48e8, "movem_32_re_di", "MOVEM", Size::Long, Decoder::MovemRe, Validator::Always),
        spec_op_entry(MASK_OUT_Y, 0x48f0, "movem_32_re_ix", "MOVEM", Size::Long, Decoder::MovemRe, Validator::Always),
        spec_op_entry(MASK_EXACT, 0x48f8, "movem_32_re_aw", "MOVEM", Size::Long, Decoder::MovemRe, Validator::Always),
        spec_op_entry(MASK_EXACT, 0x48f9, "movem_32_re_al", "MOVEM", Size::Long, Decoder::MovemRe, Validator::Always),
        spec_op_entry(MASK_OUT_Y, 0x4cd0, "movem_32_er_ai", "MOVEM", Size::Long, Decoder::MovemEr, Validator::Always),
        spec_op_entry(MASK_OUT_Y, 0x4cd8, "movem_32_er_pi", "MOVEM", Size::Long, Decoder::MovemEr, Validator::Always),
        spec_op_entry(MASK_OUT_Y, 0x4ce8, "movem_32_er_di", "MOVEM", Size::Long, Decoder::MovemEr, Validator::Always),
        spec_op_entry(MASK_OUT_Y, 0x4cf0, "movem_32_er_ix", "MOVEM", Size::Long, Decoder::MovemEr, Validator::Always),
        spec_op_entry(MASK_EXACT, 0x4cf8, "movem_32_er_aw", "MOVEM", Size::Long, Decoder::MovemEr, Validator::Always),
        spec_op_entry(MASK_EXACT, 0x4cf9, "movem_32_er_al", "MOVEM", Size::Long, Decoder::MovemEr, Validator::Always),
        spec_op_entry(MASK_EXACT, 0x4cfa, "movem_32_er_pcdi", "MOVEM", Size::Long, Decoder::MovemEr, Validator::Always),
        spec_op_entry(MASK_EXACT, 0x4cfb, "movem_32_er_pcix", "MOVEM", Size::Long, Decoder::MovemEr, Validator::Always),
        spec_op_entry(MASK_OUT_X_Y, 0x0108, "movep_16_er", "MOVEP", Size::Word, Decoder::MovepEr, Validator::Always),
    ]
}

fn push_rules_30(v: &mut Vec<OpcodeHandler>)
    ensures
        final(v)@ == old(v)@ + rules_30(),
        forall|i: int|
            old(v)@.len() <= i < final(v)@.len() ==> rule_wf(#[trigger] final(v)@[i])
                && rule_decodable(final(v)@[i]),
{
    let ghost v0 = v@;
    v.push(op_entry(MASK_EXACT, 0x46fc, "move_16_tos_imm", "MOVE", Size::Word, Decoder::EaSr, Validator::Always));
    v.push(op_entry(MASK_OUT_Y, 0x4e60, "move_32_tou", "MOVE", Size::Long, Decoder::AnUsp, Validator::Always));
    v.push(op_entry(MASK_OUT_Y, 0x4e68, "move_32_fru", "MOVE", Size::Long, Decoder::UspAn, Validator::Always));
    v.push(op_entry(MASK_OUT_Y, 0x4890, "movem_16_re_ai", "MOVEM", Size::Word, Decoder::MovemRe, Validator::Always));
    v.push(op_entry(MASK_OUT_Y, 0x48a0, "movem_16_re_pd", "MOVEM", Size::Word, Decoder::MovemRe, Validator::Always));
    v.push(op_entry(MASK_OUT_Y, 0x48a8, "movem_16_re_di", "MOVEM", Size::Word, Decoder::MovemRe, Validator::Always));
    v.push(op_entry(MASK_OUT_Y, 0x48b0, "movem_16_re_ix", "MOVEM", Size::Word, Decoder::MovemRe, Validator::Always));
    v.push(op_entry(MASK_EXACT, 0x48b8, "movem_16_re_aw", "MOVEM", Size::Word, Decoder::MovemRe, Validator::Always));
    v.push(op_entry(MASK_EXACT, 0x48b9, "movem_16_re_al", "MOVEM", Size::Word, Decoder::MovemRe, Validator::Always));
    v.push(op_entry(MASK_OUT_Y, 0x4c90, "movem_16_er_ai", "MOVEM", Size::Word, Decoder::MovemEr, Validator::Always));
    v.push(op_entry(MASK_OUT_Y, 0x4c98, "movem_16_er_pi", "MOVEM", Size::Word, Decoder::MovemEr, Validator::Always));
    v.push(op_entry(MASK_OUT_Y, 0x4ca8, "movem_16_er_di", "MOVEM", Size::Word, Decoder::MovemEr, Validator::Always));
    v.push(op_entry(MASK_OUT_Y, 0x4cb0, "movem_16_er_ix", "MOVEM", Size::Word, Decoder::MovemEr, Validator::Always));
    v.push(op_entry(MASK_EXACT, 0x4cb8, "movem_16_er_aw", "MOVEM", Size::Word, Decoder::MovemEr, Validator::Always));
    v.push(op_entry(MASK_EXACT, 0x4cb9, "movem_16_er_al", "MOVEM", Size::Word, Decoder::MovemEr, Validator::Always));
    v.push(op_entry(MASK_EXACT, 0x4cba, "movem_16_er_pcdi", "MOVEM", Size::Word, Decoder::MovemEr, Validator::Always));
    v.push(op_entry(MASK_EXACT, 0x4cbb, "movem_16_er_pcix", "MOVEM", Size::Word, Decoder::MovemEr, Validator::Always));
    v.push(op_entry(MASK_OUT_Y, 0x48d0, "movem_32_re_ai", "MOVEM", Size::Long, Decoder::MovemRe, Validator::Always));
    v.push(op_entry(MASK_OUT_Y, 0x48e0, "movem_32_re_pd", "MOVEM", Size::Long, Decoder::MovemRe, Validator::Always));
    v.push(op_entry(MASK_OUT_Y, 0x48e8, "movem_32_re_di", "MOVEM", Size::Long, Decoder::MovemRe, Validator::Always));
    v.push(op_entry(MASK_OUT_Y, 0x48f0, "movem_32_re_ix", "MOVEM", Size::Long, Decoder::MovemRe, Validator::Always));
    v.push(op_entry(MASK_EXACT, 0x48f8, "movem_32_re_aw", "MOVEM", Size::Long, Decoder::MovemRe, Validator::Always));
    v.push(op_entry(MASK_EXACT, 0x48f9, "movem_32_re_al", "MOVEM", Size::Long, Decoder::MovemRe, Validator::Always));
    v.push(op_entry(MASK_OUT_Y, 0x4cd0, "movem_32_er_ai", "MOVEM", Size::Long, Decoder::MovemEr, Validator::Always));
    v.push(op_entry(MASK_OUT_Y, 0x4cd8, "movem_32_er_pi", "MOVEM", Size::Long, Decoder::MovemEr, Validator::Always));
    v.push(op_entry(MASK_OUT_Y, 0x4ce8, "movem_32_er_di", "MOVEM", Size::Long, Decoder::MovemEr, Validator::Always));
    v.push(op_entry(MASK_OUT_Y, 0x4cf0, "movem_32_er_ix", "MOVEM", Size::Long, Decoder::MovemEr, Validator::Always));
    v.push(op_entry(MASK_EXACT, 0x4cf8, "movem_32_er_aw", "MOVEM", Size::Long, Decoder::MovemEr, Validator::Always));
    v.push(op_entry(MASK_EXACT, 0x4cf9, "movem_32_er_al", "MOVEM", Size::Long, Decoder::MovemEr, Validator::Always));
    v.push(op_entry(MASK_EXACT, 0x4cfa, "movem_32_er_pcdi", "MOVEM", Size::Long, Decoder::MovemEr, Validator::Always));
    v.push(op_entry(MASK_EXACT, 0x4cfb, "movem_32_er_pcix", "MOVEM", Size::Long, Decoder::MovemEr, Validator::Always));
    v.push(op_entry(MASK_OUT_X_Y, 0x0108, "movep_16_er", "MOVEP", Size::Word, Decoder::MovepEr, Validator::Always));
    proof {
        assert(v@ =~= v0 + rules_30());
    }
}

/// Rules movep_16_re through nbcd_8_ix.
pub open spec fn rules_31() -> Seq<OpcodeHandler> {
    seq![
        spec_op_entry(MASK_OUT_X_Y, 0x0188, "movep_16_re", "MOVEP", Size::Word, Decoder::MovepRe, Validator::Always),
        spec_op_entry(MASK_OUT_X_Y, 0x0148, "movep_32_er", "MOVEP", Size::Long, Decoder::MovepEr, Validator::Always),
        spec_op_entry(MASK_OUT_X_Y, 0x01c8, "movep_32_re", "MOVEP", Size::Long, Decoder::MovepRe, Validator::Always),
        spec_op_entry(MASK_LOBYTX, 0x7000, "moveq_32", "MOVEQ", Size::Long, Decoder::Moveq, Validator::Always),
        spec_op_entry(MASK_OUT_X_Y, 0xc1c0, "muls_16_dn", "MULS", Size::Word, Decoder::EaDx, Validator::Always),
        spec_op_entry(MASK_OUT_X_Y, 0xc1d0, "muls_16_ai", "MULS", Size::Word, Decoder::EaDx, Validator::Always),
        spec_op_entry(MASK_OUT_X_Y, 0xc1d8, "muls_16_pi", "MULS", Size::Word, Decoder::EaDx, Validator::Always),
        spec_op_entry(MASK_OUT_X_Y, 0xc1e0, "muls_16_pd", "MULS", Size::Word, Decoder::EaDx, Validator::Always),
        spec_op_entry(MASK_OUT_X_Y, 0xc1e8, "muls_16_di", "MULS", Size::Word, Decoder::EaDx, Validator::Always),
        spec_op_entry(MASK_OUT_X_Y, 0xc1f0, "muls_16_ix", "MULS", Size::Word, Decoder::EaDx, Validator::Always),
        spec_op_entry(MASK_OUT_X, 0xc1f8, "muls_16_aw", "MULS", Size::Word, Decoder::EaDx, Validator::Always),
        spec_op_entry(MASK_OUT_X, 0xc1f9, "muls_16_al", "MULS", Size::Word, Decoder::EaDx, Validator::Always),
        spec_op_entry(MASK_OUT_X, 0xc1fa, "muls_16_pcdi", "MULS", Size::Word, Decoder::EaDx, Validator::Always),
        spec_op_entry(MASK_OUT_X, 0xc1fb, "muls_16_pcix", "MULS", Size::Word, Decoder::EaDx, Validator::Always),
        spec_op_entry(MASK_OUT_X, 0xc1fc, "muls_16_imm", "MULS", Size::Word, Decoder::EaDx, Validator::Always),
        spec_op_entry(MASK_OUT_X_Y, 0xc0c0, "mulu_16_dn", "MULU", Size::Word, Decoder::EaDx, Validator::Always),
        spec_op_entry(MASK_OUT_X_Y, 0xc0d0, "mulu_16_ai", "MULU", Size::Word, Decoder::EaDx, Validator::Always),
        spec_op_entry(MASK_OUT_X_Y, 0xc0d8, "mulu_16_pi", "MULU", Size::Word, Decoder::EaDx, Validator::Always),
        spec_op_entry(MASK_OUT_X_Y, 0xc0e0, "mulu_16_pd", "MULU", Size::Word, Decoder::EaDx, Validator::Always),
        spec_op_entry(MASK_OUT_X_Y, 0xc0e8, "mulu_16_di", "MULU", Size::Word, Decoder::EaDx, Validator::Always),
        spec_op_entry(MASK_OUT_X_Y, 0xc0f0, "mulu_16_ix", "MULU", Size::Word, Decoder::EaDx, Validator::Always),
        spec_op_entry(MASK_OUT_X, 0xc0f8, "mulu_16_aw", "MULU", Size::Word, Decoder::EaDx, Validator::Always),
        spec_op_entry(MASK_OUT_X, 0xc0f9, "mulu_16_al", "MULU", Size::Word, Decoder::EaDx, Validator::Always),
        spec_op_entry(MASK_OUT_X, 0xc0fa, "mulu_16_pcdi", "MULU", Size::Word, Decoder::EaDx, Validator::Always),
        spec_op_entry(MASK_OUT_X, 0xc0fb, "mulu_16_pcix", "MULU", Size::Word, Decoder::EaDx, Validator::Always),
        spec_op_entry(MASK_OUT_X, 0xc0fc, "mulu_16_imm", "MULU", Size::Word, Decoder::EaDx, Validator::Always),
        spec_op_entry(MASK_OUT_Y, 0x4800, "nbcd_8_dn", "NBCD", Size::Byte, Decoder::Ea, Validator::Always),
        spec_op_entry(MASK_OUT_Y, 0x4810, "nbcd_8_ai", "NBCD", Size::Byte, Decoder::Ea, Validator::Always),
        spec_op_entry(MASK_OUT_Y, 0x4818, "nbcd_8_pi", "NBCD", Size::Byte, Decoder::Ea, Validator::Always),
        spec_op_entry(MASK_OUT_Y, 0x4820, "nbcd_8_pd", "NBCD", Size::Byte, Decoder::Ea, Validator::Always),
        spec_op_entry(MASK_OUT_Y, 0x4828, "nbcd_8_di", "NBCD", Size::Byte, Decoder::Ea, Validator::Always),
        spec_op_entry(MASK_OUT_Y, 0x4830, "nbcd_8_ix", "NBCD", Size::Byte, Decoder::Ea, Validator::Always),
    ]
}

fn push_rules_31(v: &mut Vec<OpcodeHandler>)
    ensures
        final(v)@ == old(v)@ + rules_31(),
        forall|i: int|
            old(v)@.len() <= i < final(v)@.len() ==> rule_wf(#[trigger] final(v)@[i])
                && rule_decodable(final(v)@[i]),
{
    let ghost v0 = v@;
    v.push(op_entry(MASK_OUT_X_Y, 0x0188, "movep_16_re", "MOVEP", Size::Word, Decoder::MovepRe, Validator::Always));
    v.push(op_entry(MASK_OUT_X_Y, 0x0148, "movep_32_er", "MOVEP", Size::Long, Decoder::MovepEr, Validator::Always));
    v.push(op_entry(MASK_OUT_X_Y, 0x01c8, "movep_32_re", "MOVEP", Size::Long, Decoder::MovepRe, Validator::Always));
    v.push(op_entry(MASK_LOBYTX, 0x7000, "moveq_32", "MOVEQ", Size::Long, Decoder::Moveq, Validator::Always));
    v.push(op_entry(MASK_OUT_X_Y, 0xc1c0, "muls_16_dn", "MULS", Size::Word, Decoder::EaDx, Validator::Always));
    v.push(op_entry(MASK_OUT_X_Y, 0xc1d0, "muls_16_ai", "MULS", Size::Word, Decoder::EaDx, Validator::Always));
    v.push(op_entry(MASK_OUT_X_Y, 0xc1d8, "muls_16_pi", "MULS", Size::Word, Decoder::EaDx, Validator::Always));
    v.push(op_entry(MASK_OUT_X_Y, 0xc1e0, "muls_16_pd", "MULS", Size::Word, Decoder::EaDx, Validator::Always));
    v.push(op_entry(MASK_OUT_X_Y, 0xc1e8, "muls_16_di", "MULS", Size::Word, Decoder::EaDx, Validator::Always));
    v.push(op_entry(MASK_OUT_X_Y, 0xc1f0, "muls_16_ix", "MULS", Size::Word, Decoder::EaDx, Validator::Always));
    v.push(op_entry(MASK_OUT_X, 0xc1f8, "muls_16_aw", "MULS", Size::Word, Decoder::EaDx, Validator::Always));
    v.push(op_entry(MASK_OUT_X, 0xc1f9, "muls_16_al", "MULS", Size::Word, Decoder::EaDx, Validator::Always));
    v.push(op_entry(MASK_OUT_X, 0xc1fa, "muls_16_pcdi", "MULS", Size::Word, Decoder::EaDx, Validator::Always));
    v.push(op_entry(MASK_OUT_X, 0xc1fb, "muls_16_pcix", "MULS", Size::Word, Decoder::EaDx, Validator::Always));
    v.push(op_entry(MASK_OUT_X, 0xc1fc, "muls_16_imm", "MULS", Size::Word, Decoder::EaDx, Validator::Always));
    v.push(op_entry(MASK_OUT_X_Y, 0xc0c0, "mulu_16_dn", "MULU", Size::Word, Decoder::EaDx, Validator::Always));
    v.push(op_entry(MASK_OUT_X_Y, 0xc0d0, "mulu_16_ai", "MULU", Size::Word, Decoder::EaDx, Validator::Always));
    v.push(op_entry(MASK_OUT_X_Y, 0xc0d8, "mulu_16_pi", "MULU", Size::Word, Decoder::EaDx, Validator::Always));
    v.push(op_entry(MASK_OUT_X_Y, 0xc0e0, "mulu_16_pd", "MULU", Size::Word, Decoder::EaDx, Validator::Always));
    v.push(op_entry(MASK_OUT_X_Y, 0xc0e8, "mulu_16_di", "MULU", Size::Word, Decoder::EaDx, Validator::Always));
    v.push(op_entry(MASK_OUT_X_Y, 0xc0f0, "mulu_16_ix", "MULU", Size::Word, Decoder::EaDx, Validator::Always));
    v.push(op_entry(MASK_OUT_X, 0xc0f8, "mulu_16_aw", "MULU", Size::Word, Decoder::EaDx, Validator::Always));
    v.push(op_entry(MASK_OUT_X, 0xc0f9, "mulu_16_al", "MULU", Size::Word, Decoder::EaDx, Validator::Always));
    v.push(op_entry(MASK_OUT_X, 0xc0fa, "mulu_16_pcdi", "MULU", Size::Word, Decoder::EaDx, Validator::Always));
    v.push(op_entry(MASK_OUT_X, 0xc0fb, "mulu_16_pcix", "MULU", Size::Word, Decoder::EaDx, Validator::Always));
    v.push(op_entry(MASK_OUT_X, 0xc0fc, "mulu_16_imm", "MULU", Size::Word, Decoder::EaDx, Validator::Always));
    v.push(op_entry(MASK_OUT_Y, 0x4800, "nbcd_8_dn", "NBCD", Size::Byte, Decoder::Ea, Validator::Always));
    v.push(op_entry(MASK_OUT_Y, 0x4810, "nbcd_8_ai", "NBCD", Size::Byte, Decoder::Ea, Validator::Always));
    v.push(op_entry(MASK_OUT_Y, 0x4818, "nbcd_8_pi", "NBCD", Size::Byte, Decoder::Ea, Validator::Always));
    v.push(op_entry(MASK_OUT_Y, 0x4820, "nbcd_8_pd", "NBCD", Size::Byte, Decoder::Ea, Validator::Always));
    v.push(op_entry(MASK_OUT_Y, 0x4828, "nbcd_8_di", "NBCD", Size::Byte, Decoder::Ea, Validator::Always));
    v.push(op_entry(MASK_OUT_Y, 0x4830, "nbcd_8_ix", "NBCD", Size::Byte, Decoder::Ea, Validator::Always));
    proof {
        assert(v@ =~= v0 + rules_31());
    }
}

/// Rules nbcd_8_aw through negx_8_ix.
pub open spec fn rules_32() -> Seq<OpcodeHandler> {
    seq![
        spec_op_entry(MASK_EXACT, 0x4838, "nbcd_8_aw", "NBCD", Size::Byte, Decoder::Ea, Validator::Always),
        spec_op_entry(MASK_EXACT, 0x4839, "nbcd_8_al", "NBCD", Size::Byte, Decoder::Ea, Validator::Always),
        spec_op_entry(MASK_OUT_Y, 0x4400, "neg_8_dn", "NEG", Size::Byte, Decoder::Ea, Validator::Always),
        spec_op_entry(MASK_OUT_Y, 0x4410, "neg_8_ai", "NEG", Size::Byte, Decoder::Ea, Validator::Always),
        spec_op_entry(MASK_OUT_Y, 0x4418, "neg_8_pi", "NEG", Size::Byte, Decoder::Ea, Validator::Always),
        spec_op_entry(MASK_OUT_Y, 0x4420, "neg_8_pd", "NEG", Size::Byte, Decoder::Ea, Validator::Always),
        spec_op_entry(MASK_OUT_Y, 0x4428, "neg_8_di", "NEG", Size::Byte, Decoder::Ea, Validator::Always),
        spec_op_entry(MASK_OUT_Y, 0x4430, "neg_8_ix", "NEG", Size::Byte, Decoder::Ea, Validator::Always),
        spec_op_entry(MASK_EXACT, 0x4438, "neg_8_aw", "NEG", Size::Byte, Decoder::Ea, Validator::Always),
        spec_op_entry(MASK_EXACT, 0x4439, "neg_8_al", "NEG", Size::Byte, Decoder::Ea, Validator::Always),
        spec_op_entry(MASK_OUT_Y, 0x4440, "neg_16_dn", "NEG", Size::Word, Decoder::Ea, Validator::Always),
        spec_op_entry(MASK_OUT_Y, 0x4450, "neg_16_ai", "NEG", Size::Word, Decoder::Ea, Validator::Always),
        spec_op_entry(MASK_OUT_Y, 0x4458, "neg_16_pi", "NEG", Size::Word, Decoder::Ea, Validator::Always),
        spec_op_entry(MASK_OUT_Y, 0x4460, "neg_16_pd", "NEG", Size::Word, Decoder::Ea, Validator::Always),
        spec_op_entry(MASK_OUT_Y, 0x4468, "neg_16_di", "NEG", Size::Word, Decoder::Ea, Validator::Always),
        spec_op_entry(MASK_OUT_Y, 0x4470, "neg_16_ix", "NEG", Size::Word, Decoder::Ea, Validator::Always),
        spec_op_entry(MASK_EXACT, 0x4478, "neg_16_aw", "NEG", Size::Word, Decoder::Ea, Validator::Always),
        spec_op_entry(MASK_EXACT, 0x4479, "neg_16_al", "NEG", Size::Word, Decoder::Ea, Validator::Always),
        spec_op_entry(MASK_OUT_Y, 0x4480, "neg_32_dn", "NEG", Size::Long, Decoder::Ea, Validator::Always),
        spec_op_entry(MASK_OUT_Y, 0x4490, "neg_32_ai", "NEG", Size::Long, Decoder::Ea, Validator::Always),
        spec_op_entry(MASK_OUT_Y, 0x4498, "neg_32_pi", "NEG", Size::Long, Decoder::Ea, Validator::Always),
        spec_op_entry(MASK_OUT_Y, 0x44a0, "neg_32_pd", "NEG", Size::Long, Decoder::Ea, Validator::Always),
        spec_op_entry(MASK_OUT_Y, 0x44a8, "neg_32_di", "NEG", Size::Long, Decoder::Ea, Validator::Always),
        spec_op_entry(MASK_OUT_Y, 0x44b0, "neg_32_ix", "NEG", Size::Long, Decoder::Ea, Validator::Always),
        spec_op_entry(MASK_EXACT, 0x44b8, "neg_32_aw", "NEG", Size::Long, Decoder::Ea, Validator::Always),
        spec_op_entry(MASK_EXACT, 0x44b9, "neg_32_al", "NEG", Size::Long, Decoder::Ea, Validator::Always),
        spec_op_entry(MASK_OUT_Y, 0x4000, "negx_8_dn", "NEGX", Size::Byte, Decoder::Ea, Validator::Always),
        spec_op_entry(MASK_OUT_Y, 0x4010, "negx_8_ai", "NEGX", Size::Byte, Decoder::Ea, Validator::Always),
        spec_op_entry(MASK_OUT_Y, 0x4018, "negx_8_pi", "NEGX", Size::Byte, Decoder::Ea, Validator::Always),
        spec_op_entry(MASK_OUT_Y, 0x4020, "negx_8_pd", "NEGX", Size::Byte, Decoder::Ea, Validator::Always),
        spec_op_entry(MASK_OUT_Y, 0x4028, "negx_8_di", "NEGX", Size::Byte, Decoder::Ea, Validator::Always),
        spec_op_entry(MASK_OUT_Y, 0x4030, "negx_8_ix", "NEGX", Size::Byte, Decoder::Ea, Validator::Always),
    ]
}

fn push_rules_32(v: &mut Vec<OpcodeHandler>)
    ensures
        final(v)@ == old(v)@ + rules_32(),
        forall|i: int|
            old(v)@.len() <= i < final(v)@.len() ==> rule_wf(#[trigger] final(v)@[i])
                && rule_decodable(final(v)@[i]),
{
    let ghost v0 = v@;
    v.push(op_entry(MASK_EXACT, 0x4838, "nbcd_8_aw", "NBCD", Size::Byte, Decoder::Ea, Validator::Always));
    v.push(op_entry(MASK_EXACT, 0x4839, "nbcd_8_al", "NBCD", Size::Byte, Decoder::Ea, Validator::Always));
    v.push(op_entry(MASK_OUT_Y, 0x4400, "neg_8_dn", "NEG", Size::Byte, Decoder::Ea, Validator::Always));
    v.push(op_entry(MASK_OUT_Y, 0x4410, "neg_8_ai", "NEG", Size::Byte, Decoder::Ea, Validator::Always));
    v.push(op_entry(MASK_OUT_Y, 0x4418, "neg_8_pi", "NEG", Size::Byte, Decoder::Ea, Validator::Always));
    v.push(op_entry(MASK_OUT_Y, 0x4420, "neg_8_pd", "NEG", Size::Byte, Decoder::Ea, Validator::Always));
    v.push(op_entry(MASK_OUT_Y, 0x4428, "neg_8_di", "NEG", Size::Byte, Decoder::Ea, Validator::Always));
    v.push(op_entry(MASK_OUT_Y, 0x4430, "neg_8_ix", "NEG", Size::Byte, Decoder::Ea, Validator::Always));
    v.push(op_entry(MASK_EXACT, 0x4438, "neg_8_aw", "NEG", Size::Byte, Decoder::Ea, Validator::Always));
    v.push(op_entry(MASK_EXACT, 0x4439, "neg_8_al", "NEG", Size::Byte, Decoder::Ea, Validator::Always));
    v.push(op_entry(MASK_OUT_Y, 0x4440, "neg_16_dn", "NEG", Size::Word, Decoder::Ea, Validator::Always));
    v.push(op_entry(MASK_OUT_Y, 0x4450, "neg_16_ai", "NEG", Size::Word, Decoder::Ea, Validator::Always));
    v.push(op_entry(MASK_OUT_Y, 0x4458, "neg_16_pi", "NEG", Size::Word, Decoder::Ea, Validator::Always));
    v.push(op_entry(MASK_OUT_Y, 0x4460, "neg_16_pd", "NEG", Size::Word, Decoder::Ea, Validator::Always));
    v.push(op_entry(MASK_OUT_Y, 0x4468, "neg_16_di", "NEG", Size::Word, Decoder::Ea, Validator::Always));
    v.push(op_entry(MASK_OUT_Y, 0x4470, "neg_16_ix", "NEG", Size::Word, Decoder::Ea, Validator::Always));
    v.push(op_entry(MASK_EXACT, 0x4478, "neg_16_aw", "NEG", Size::Word, Decoder::Ea, Validator::Always));
    v.push(op_entry(MASK_EXACT, 0x4479, "neg_16_al", "NEG", Size::Word, Decoder::Ea, Validator::Always));
    v.push(op_entry(MASK_OUT_Y, 0x4480, "neg_32_dn", "NEG", Size::Long, Decoder::Ea, Validator::Always));
    v.push(op_entry(MASK_OUT_Y, 0x4490, "neg_32_ai", "NEG", Size::Long, Decoder::Ea, Validator::Always));
    v.push(op_entry(MASK_OUT_Y, 0x4498, "neg_32_pi", "NEG", Size::Long, Decoder::Ea, Validator::Always));
    v.push(op_entry(MASK_OUT_Y, 0x44a0, "neg_32_pd", "NEG", Size::Long, Decoder::Ea, Validator::Always));
    v.push(op_entry(MASK_OUT_Y, 0x44a8, "neg_32_di", "NEG", Size::Long, Decoder::Ea, Validator::Always));
    v.push(op_entry(MASK_OUT_Y, 0x44b0, "neg_32_ix", "NEG", Size::Long, Decoder::Ea, Validator::Always));
    v.push(op_entry(MASK_EXACT, 0x44b8, "neg_32_aw", "NEG", Size::Long, Decoder::Ea, Validator::Always));
    v.push(op_entry(MASK_EXACT, 0x44b9, "neg_32_al", "NEG", Size::Long, Decoder::Ea, Validator::Always));
    v.push(op_entry(MASK_OUT_Y, 0x4000, "negx_8_dn", "NEGX", Size::Byte, Decoder::Ea, Validator::Always));
    v.push(op_entry(MASK_OUT_Y, 0x4010, "negx_8_ai", "NEGX", Size::Byte, Decoder::Ea, Validator::Always));
    v.push(op_entry(MASK_OUT_Y, 0x4018, "negx_8_pi", "NEGX", Size::Byte, Decoder::Ea, Validator::Always));
    v.push(op_entry(MASK_OUT_Y, 0x4020, "negx_8_pd", "NEGX", Size::Byte, Decoder::Ea, Validator::Always));
    v.push(op_entry(MASK_OUT_Y, 0x4028, "negx_8_di", "NEGX", Size::Byte, Decoder::Ea, Validator::Always));
    v.push(op_entry(MASK_OUT_Y, 0x4030, "negx_8_ix", "NEGX", Size::Byte, Decoder::Ea, Validator::Always));
    proof {
        assert(v@ =~= v0 + rules_32());
    }
}

/// Rules negx_8_aw through not_16_di.
pub open spec fn rules_33() -> Seq<OpcodeHandler> {
    seq![
        spec_op_entry(MASK_EXACT, 0x4038, "negx_8_aw", "NEGX", Size::Byte, Decoder::Ea, Validator::Always),
        spec_op_entry(MASK_EXACT, 0x4039, "negx_8_al", "NEGX", Size::Byte, Decoder::Ea, Validator::Always),
        spec_op_entry(MASK_OUT_Y, 0x4040, "negx_16_dn", "NEGX", Size::Word, Decoder::Ea, Validator::Always),
        spec_op_entry(MASK_OUT_Y, 0x4050, "negx_16_ai", "NEGX", Size::Word, Decoder::Ea, Validator::Always),
        spec_op_entry(MASK_OUT_Y, 0x4058, "negx_16_pi", "NEGX", Size::Word, Decoder::Ea, Validator::Always),
        spec_op_entry(MASK_OUT_Y, 0x4060, "negx_16_pd", "NEGX", Size::Word, Decoder::Ea, Validator::Always),
        spec_op_entry(MASK_OUT_Y, 0x4068, "negx_16_di", "NEGX", Size::Word, Decoder::Ea, Validator::Always),
        spec_op_entry(MASK_OUT_Y, 0x4070, "negx_16_ix", "NEGX", Size::Word, Decoder::Ea, Validator::Always),
        spec_op_entry(MASK_EXACT, 0x4078, "negx_16_aw", "NEGX", Size::Word, Decoder::Ea, Validator::Always),
        spec_op_entry(MASK_EXACT, 0x4079, "negx_16_al", "NEGX", Size::Word, Decoder::Ea, Validator::Always),
        spec_op_entry(MASK_OUT_Y, 0x4080, "negx_32_dn", "NEGX", Size::Long, Decoder::Ea, Validator::Always),
        spec_op_entry(MASK_OUT_Y, 0x4090, "negx_32_ai", "NEGX", Size::Long, Decoder::Ea, Validator::Always),
        spec_op_entry(MASK_OUT_Y, 0x4098, "negx_32_pi", "NEGX", Size::Long, Decoder::Ea, Validator::Always),
        spec_op_entry(MASK_OUT_Y, 0x40a0, "negx_32_pd", "NEGX", Size::Long, Decoder::Ea, Validator::Always),
        spec_op_entry(MASK_OUT_Y, 0x40a8, "negx_32_di", "NEGX", Size::Long, Decoder::Ea, Validator::Always),
        spec_op_entry(MASK_OUT_Y, 0x40b0, "negx_32_ix", "NEGX", Size::Long, Decoder::Ea, Validator::Always),
        spec_op_entry(MASK_EXACT, 0x40b8, "negx_32_aw", "NEGX", Size::Long, Decoder::Ea, Validator::Always),
        spec_op_entry(MASK_EXACT, 0x40b9, "negx_32_al", "NEGX", Size::Long, Decoder::Ea, Validator::Always),
        spec_op_entry(MASK_EXACT, 0x4e71, "nop", "NOP", Size::Unsized, Decoder::NoOperands, Validator::Always),
        spec_op_entry(MASK_OUT_Y, 0x4600, "not_8_dn", "NOT", Size::Byte, Decoder::Ea, Validator::Always),
        spec_op_entry(MASK_OUT_Y, 0x4610, "not_8_ai", "NOT", Size::Byte, Decoder::Ea, Validator::Always),
        spec_op_entry(MASK_OUT_Y, 0x4618, "not_8_pi", "NOT", Size::Byte, Decoder::Ea, Validator::Always),
        spec_op_entry(MASK_OUT_Y, 0x4620, "not_8_pd", "NOT", Size::Byte, Decoder::Ea, Validator::Always),
        spec_op_entry(MASK_OUT_Y, 0x4628, "not_8_di", "NOT", Size::Byte, Decoder::Ea, Validator::Always),
        spec_op_entry(MASK_OUT_Y, 0x4630, "not_8_ix", "NOT", Size::Byte, Decoder::Ea, Validator::Always),
        spec_op_entry(MASK_EXACT, 0x4638, "not_8_aw", "NOT", Size::Byte, Decoder::Ea, Validator::Always),
        spec_op_entry(MASK_EXACT, 0x4639, "not_8_al", "NOT", Size::Byte, Decoder::Ea, Validator::Always),
        spec_op_entry(MASK_OUT_Y, 0x4640, "not_16_dn", "NOT", Size::Word, Decoder::Ea, Validator::Always),
        spec_op_entry(MASK_OUT_Y, 0x4650, "not_16_ai", "NOT", Size::Word, Decoder::Ea, Validator::Always),
        spec_op_entry(MASK_OUT_Y, 0x4658, "not_16_pi", "NOT", Size::Word, Decoder::Ea, Validator::Always),
        spec_op_entry(MASK_OUT_Y, 0x4660, "not_16_pd", "NOT", Size::Word, Decoder::Ea, Validator::Always),
        spec_op_entry(MASK_OUT_Y, 0x4668, "not_16_di", "NOT", Size::Word, Decoder::Ea, Validator::Always),
    ]
}

fn push_rules_33(v: &mut Vec<OpcodeHandler>)
    ensures
        final(v)@ == old(v)@ + rules_33(),
        forall|i: int|
            old(v)@.len() <= i < final(v)@.len() ==> rule_wf(#[trigger] final(v)@[i])
                && rule_decodable(final(v)@[i]),
{
    let ghost v0 = v@;
    v.push(op_entry(MASK_EXACT, 0x4038, "negx_8_aw", "NEGX", Size::Byte, Decoder::Ea, Validator::Always));
    v.push(op_entry(MASK_EXACT, 0x4039, "negx_8_al", "NEGX", Size::Byte, Decoder::Ea, Validator::Always));
    v.push(op_entry(MASK_OUT_Y, 0x4040, "negx_16_dn", "NEGX", Size::Word, Decoder::Ea, Validator::Always));
    v.push(op_entry(MASK_OUT_Y, 0x4050, "negx_16_ai", "NEGX", Size::Word, Decoder::Ea, Validator::Always));
    v.push(op_entry(MASK_OUT_Y, 0x4058, "negx_16_pi", "NEGX", Size::Word, Decoder::Ea, Validator::Always));
    v.push(op_entry(MASK_OUT_Y, 0x4060, "negx_16_pd", "NEGX", Size::Word, Decoder::Ea, Validator::Always));
    v.push(op_entry(MASK_OUT_Y, 0x4068, "negx_16_di", "NEGX", Size::Word, Decoder::Ea, Validator::Always));
    v.push(op_entry(MASK_OUT_Y, 0x4070, "negx_16_ix", "NEGX", Size::Word, Decoder::Ea, Validator::Always));
    v.push(op_entry(MASK_EXACT, 0x4078, "negx_16_aw", "NEGX", Size::Word, Decoder::Ea, Validator::Always));
    v.push(op_entry(MASK_EXACT, 0x4079, "negx_16_al", "NEGX", Size::Word, Decoder::Ea, Validator::Always));
    v.push(op_entry(MASK_OUT_Y, 0x4080, "negx_32_dn", "NEGX", Size::Long, Decoder::Ea, Validator::Always));
    v.push(op_entry(MASK_OUT_Y, 0x4090, "negx_32_ai", "NEGX", Size::Long, Decoder::Ea, Validator::Always));
    v.push(op_entry(MASK_OUT_Y, 0x4098, "negx_32_pi", "NEGX", Size::Long, Decoder::Ea, Validator::Always));
    v.push(op_entry(MASK_OUT_Y, 0x40a0, "negx_32_pd", "NEGX", Size::Long, Decoder::Ea, Validator::Always));
    v.push(op_entry(MASK_OUT_Y, 0x40a8, "negx_32_di", "NEGX", Size::Long, Decoder::Ea, Validator::Always));
    v.push(op_entry(MASK_OUT_Y, 0x40b0, "negx_32_ix", "NEGX", Size::Long, Decoder::Ea, Validator::Always));
    v.push(op_entry(MASK_EXACT, 0x40b8, "negx_32_aw", "NEGX", Size::Long, Decoder::Ea, Validator::Always));
    v.push(op_entry(MASK_EXACT, 0x40b9, "negx_32_al", "NEGX", Size::Long, Decoder::Ea, Validator::Always));
    v.push(op_entry(MASK_EXACT, 0x4e71, "nop", "NOP", Size::Unsized, Decoder::NoOperands, Validator::Always));
    v.push(op_entry(MASK_OUT_Y, 0x4600, "not_8_dn", "NOT", Size::Byte, Decoder::Ea, Validator::Always));
    v.push(op_entry(MASK_OUT_Y, 0x4610, "not_8_ai", "NOT", Size::Byte, Decoder::Ea, Validator::Always));
    v.push(op_entry(MASK_OUT_Y, 0x4618, "not_8_pi", "NOT", Size::Byte, Decoder::Ea, Validator::Always));
    v.push(op_entry(MASK_OUT_Y, 0x4620, "not_8_pd", "NOT", Size::Byte, Decoder::Ea, Validator::Always));
    v.push(op_entry(MASK_OUT_Y, 0x4628, "not_8_di", "NOT", Size::Byte, Decoder::Ea, Validator::Always));
    v.push(op_entry(MASK_OUT_Y, 0x4630, "not_8_ix", "NOT", Size::Byte, Decoder::Ea, Validator::Always));
    v.push(op_entry(MASK_EXACT, 0x4638, "not_8_aw", "NOT", Size::Byte, Decoder::Ea, Validator::Always));
    v.push(op_entry(MASK_EXACT, 0x4639, "not_8_al", "NOT", Size::Byte, Decoder::Ea, Validator::Always));
    v.push(op_entry(MASK_OUT_Y, 0x4640, "not_16_dn", "NOT", Size::Word, Decoder::Ea, Validator::Always));
    v.push(op_entry(MASK_OUT_Y, 0x4650, "not_16_ai", "NOT", Size::Word, Decoder::Ea, Validator::Always));
    v.push(op_entry(MASK_OUT_Y, 0x4658, "not_16_pi", "NOT", Size::Word, Decoder::Ea, Validator::Always));
    v.push(op_entry(MASK_OUT_Y, 0x4660, "not_16_pd", "NOT", Size::Word, Decoder::Ea, Validator::Always));
    v.push(op_entry(MASK_OUT_Y, 0x4668, "not_16_di", "NOT", Size::Word, Decoder::Ea, Validator::Always));
    proof {
        assert(v@ =~= v0 + rules_33());
    }
}

/// Rules not_16_ix through or_16_er_pi.
pub open spec fn rules_34() -> Seq<OpcodeHandler> {
    seq![
        spec_op_entry(MASK_OUT_Y, 0x4670, "not_16_ix", "NOT", Size::Word, Decoder::Ea, Validator::Always),
        spec_op_entry(MASK_EXACT, 0x4678, "not_16_aw", "NOT", Size::Word, Decoder::Ea, Validator::Always),
        spec_op_entry(MASK_EXACT, 0x4679, "not_16_al", "NOT", Size::Word, Decoder::Ea, Validator::Always),
        spec_op_entry(MASK_OUT_Y, 0x4680, "not_32_dn", "NOT", Size::Long, Decoder::Ea, Validator::Always),
        spec_op_entry(MASK_OUT_Y, 0x4690, "not_32_ai", "NOT", Size::Long, Decoder::Ea, Validator::Always),
        spec_op_entry(MASK_OUT_Y, 0x4698, "not_32_pi", "NOT", Size::Long, Decoder::Ea, Validator::Always),
        spec_op_entry(MASK_OUT_Y, 0x46a0, "not_32_pd", "NOT", Size::Long, Decoder::Ea, Validator::Always),
        spec_op_entry(MASK_OUT_Y, 0x46a8, "not_32_di", "NOT", Size::Long, Decoder::Ea, Validator::Always),
        spec_op_entry(MASK_OUT_Y, 0x46b0, "not_32_ix", "NOT", Size::Long, Decoder::Ea, Validator::Always),
        spec_op_entry(MASK_EXACT, 0x46b8, "not_32_aw", "NOT", Size::Long, Decoder::Ea, Validator::Always),
        spec_op_entry(MASK_EXACT, 0x46b9, "not_32_al", "NOT", Size::Long, Decoder::Ea, Validator::Always),
        spec_op_entry(MASK_OUT_X_Y, 0x8000, "or_8_er_dn", "OR", Size::Byte, Decoder::EaDx, Validator::Always),
        spec_op_entry(MASK_OUT_X_Y, 0x8010, "or_8_er_ai", "OR", Size::Byte, Decoder::EaDx, Validator::Always),
        spec_op_entry(MASK_OUT_X_Y, 0x8018, "or_8_er_pi", "OR", Size::Byte, Decoder::EaDx, Validator::Always),
        spec_op_entry(MASK_OUT_X_Y, 0x8020, "or_8_er_pd", "OR", Size::Byte, Decoder::EaDx, Validator::Always),
        spec_op_entry(MASK_OUT_X_Y, 0x8028, "or_8_er_di", "OR", Size::Byte, Decoder::EaDx, Validator::Always),
        spec_op_entry(MASK_OUT_X_Y, 0x8030, "or_8_er_ix", "OR", Size::Byte, Decoder::EaDx, Validator::Always),
        spec_op_entry(MASK_OUT_X, 0x8038, "or_8_er_aw", "OR", Size::Byte, Decoder::EaDx, Validator::Always),
        spec_op_entry(MASK_OUT_X, 0x8039, "or_8_er_al", "OR", Size::Byte, Decoder::EaDx, Validator::Always),
        spec_op_entry(MASK_OUT_X, 0x803a, "or_8_er_pcdi", "OR", Size::Byte, Decoder::EaDx, Validator::Always),
        spec_op_entry(MASK_OUT_X, 0x803b, "or_8_er_pcix", "OR", Size::Byte, Decoder::EaDx, Validator::Always),
        spec_op_entry(MASK_OUT_X, 0x803c, "or_8_er_imm", "OR", Size::Byte, Decoder::EaDx, Validator::Always),
        spec_op_entry(MASK_OUT_X_Y, 0x8110, "or_8_re_ai", "OR", Size::Byte, Decoder::DxEa, Validator::Always),
        spec_op_entry(MASK_OUT_X_Y, 0x8118, "or_8_re_pi", "OR", Size::Byte, Decoder::DxEa, Validator::Always),
        spec_op_entry(MASK_OUT_X_Y, 0x8120, "or_8_re_pd", "OR", Size::Byte, Decoder::DxEa, Validator::Always),
        spec_op_entry(MASK_OUT_X_Y, 0x8128, "or_8_re_di", "OR", Size::Byte, Decoder::DxEa, Validator::Always),
        spec_op_entry(MASK_OUT_X_Y, 0x8130, "or_8_re_ix", "OR", Size::Byte, Decoder::DxEa, Validator::Always),
        spec_op_entry(MASK_OUT_X, 0x8138, "or_8_re_aw", "OR", Size::Byte, Decoder::DxEa, Validator::Always),
        spec_op_entry(MASK_OUT_X, 0x8139, "or_8_re_al", "OR", Size::Byte, Decoder::DxEa, Validator::Always),
        spec_op_entry(MASK_OUT_X_Y, 0x8040, "or_16_er_dn", "OR", Size::Word, Decoder::EaDx, Validator::Always),
        spec_op_entry(MASK_OUT_X_Y, 0x8050, "or_16_er_ai", "OR", Size::Word, Decoder::EaDx, Validator::Always),
        spec_op_entry(MASK_OUT_X_Y, 0x8058, "or_16_er_pi", "OR", Size::Word, Decoder::EaDx, Validator::Always),
    ]
}

fn push_rules_34(v: &mut Vec<OpcodeHandler>)
    ensures
        final(v)@ == old(v)@ + rules_34(),
        forall|i: int|
            old(v)@.len() <= i < final(v)@.len() ==> rule_wf(#[trigger] final(v)@[i])
                && rule_decodable(final(v)@[i]),
{
    let ghost v0 = v@;
    v.push(op_entry(MASK_OUT_Y, 0x4670, "not_16_ix", "NOT", Size::Word, Decoder::Ea, Validator::Always));
    v.push(op_entry(MASK_EXACT, 0x4678, "not_16_aw", "NOT", Size::Word, Decoder::Ea, Validator::Always));
    v.push(op_entry(MASK_EXACT, 0x4679, "not_16_al", "NOT", Size::Word, Decoder::Ea, Validator::Always));
    v.push(op_entry(MASK_OUT_Y, 0x4680, "not_32_dn", "NOT", Size::Long, Decoder::Ea, Validator::Always));
    v.push(op_entry(MASK_OUT_Y, 0x4690, "not_32_ai", "NOT", Size::Long, Decoder::Ea, Validator::Always));
    v.push(op_entry(MASK_OUT_Y, 0x4698, "not_32_pi", "NOT", Size::Long, Decoder::Ea, Validator::Always));
    v.push(op_entry(MASK_OUT_Y, 0x46a0, "not_32_pd", "NOT", Size::Long, Decoder::Ea, Validator::Always));
    v.push(op_entry(MASK_OUT_Y, 0x46a8, "not_32_di", "NOT", Size::Long, Decoder::Ea, Validator::Always));
    v.push(op_entry(MASK_OUT_Y, 0x46b0, "not_32_ix", "NOT", Size::Long, Decoder::Ea, Validator::Always));
    v.push(op_entry(MASK_EXACT, 0x46b8, "not_32_aw", "NOT", Size::Long, Decoder::Ea, Validator::Always));
    v.push(op_entry(MASK_EXACT, 0x46b9, "not_32_al", "NOT", Size::Long, Decoder::Ea, Validator::Always));
    v.push(op_entry(MASK_OUT_X_Y, 0x8000, "or_8_er_dn", "OR", Size::Byte, Decoder::EaDx, Validator::Always));
    v.push(op_entry(MASK_OUT_X_Y, 0x8010, "or_8_er_ai", "OR", Size::Byte, Decoder::EaDx, Validator::Always));
    v.push(op_entry(MASK_OUT_X_Y, 0x8018, "or_8_er_pi", "OR", Size::Byte, Decoder::EaDx, Validator::Always));
    v.push(op_entry(MASK_OUT_X_Y, 0x8020, "or_8_er_pd", "OR", Size::Byte, Decoder::EaDx, Validator::Always));
    v.push(op_entry(MASK_OUT_X_Y, 0x8028, "or_8_er_di", "OR", Size::Byte, Decoder::EaDx, Validator::Always));
    v.push(op_entry(MASK_OUT_X_Y, 0x8030, "or_8_er_ix", "OR", Size::Byte, Decoder::EaDx, Validator::Always));
    v.push(op_entry(MASK_OUT_X, 0x8038, "or_8_er_aw", "OR", Size::Byte, Decoder::EaDx, Validator::Always));
    v.push(op_entry(MASK_OUT_X, 0x8039, "or_8_er_al", "OR", Size::Byte, Decoder::EaDx, Validator::Always));
    v.push(op_entry(MASK_OUT_X, 0x803a, "or_8_er_pcdi", "OR", Size::Byte, Decoder::EaDx, Validator::Always));
    v.push(op_entry(MASK_OUT_X, 0x803b, "or_8_er_pcix", "OR", Size::Byte, Decoder::EaDx, Validator::Always));
    v.push(op_entry(MASK_OUT_X, 0x803c, "or_8_er_imm", "OR", Size::Byte, Decoder::EaDx, Validator::Always));
    v.push(op_entry(MASK_OUT_X_Y, 0x8110, "or_8_re_ai", "OR", Size::Byte, Decoder::DxEa, Validator::Always));
    v.push(op_entry(MASK_OUT_X_Y, 0x8118, "or_8_re_pi", "OR", Size::Byte, Decoder::DxEa, Validator::Always));
    v.push(op_entry(MASK_OUT_X_Y, 0x8120, "or_8_re_pd", "OR", Size::Byte, Decoder::DxEa, Validator::Always));
    v.push(op_entry(MASK_OUT_X_Y, 0x8128, "or_8_re_di", "OR", Size::Byte, Decoder::DxEa, Validator::Always));
    v.push(op_entry(MASK_OUT_X_Y, 0x8130, "or_8_re_ix", "OR", Size::Byte, Decoder::DxEa, Validator::Always));
    v.push(op_entry(MASK_OUT_X, 0x8138, "or_8_re_aw", "OR", Size::Byte, Decoder::DxEa, Validator::Always));
    v.push(op_entry(MASK_OUT_X, 0x8139, "or_8_re_al", "OR", Size::Byte, Decoder::DxEa, Validator::Always));
    v.push(op_entry(MASK_OUT_X_Y, 0x8040, "or_16_er_dn", "OR", Size::Word, Decoder::EaDx, Validator::Always));
    v.push(op_entry(MASK_OUT_X_Y, 0x8050, "or_16_er_ai", "OR", Size::Word, Decoder::EaDx, Validator::Always));
    v.push(op_entry(MASK_OUT_X_Y, 0x8058, "or_16_er_pi", "OR", Size::Word, Decoder::EaDx, Validator::Always));
    proof {
        assert(v@ =~= v0 + rules_34());
    }
}

/// Rules or_16_er_pd through or_32_re_aw.
pub open spec fn rules_35() -> Seq<OpcodeHandler> {
    seq![
        spec_op_entry(MASK_OUT_X_Y, 0x8060, "or_16_er_pd", "OR", Size::Word, Decoder::EaDx, Validator::Always),
        spec_op_entry(MASK_OUT_X_Y, 0x8068, "or_16_er_di", "OR", Size::Word, Decoder::EaDx, Validator::Always),
        spec_op_entry(MASK_OUT_X_Y, 0x8070, "or_16_er_ix", "OR", Size::Word, Decoder::EaDx, Validator::Always),
        spec_op_entry(MASK_OUT_X, 0x8078, "or_16_er_aw", "OR", Size::Word, Decoder::EaDx, Validator::Always),
        spec_op_entry(MASK_OUT_X, 0x8079, "or_16_er_al", "OR", Size::Word, Decoder::EaDx, Validator::Always),
        spec_op_entry(MASK_OUT_X, 0x807a, "or_16_er_pcdi", "OR", Size::Word, Decoder::EaDx, Validator::Always),
        spec_op_entry(MASK_OUT_X, 0x807b, "or_16_er_pcix", "OR", Size::Word, Decoder::EaDx, Validator::Always),
        spec_op_entry(MASK_OUT_X, 0x807c, "or_16_er_imm", "OR", Size::Word, Decoder::EaDx, Validator::Always),
        spec_op_entry(MASK_OUT_X_Y, 0x8150, "or_16_re_ai", "OR", Size::Word, Decoder::DxEa, Validator::Always),
        spec_op_entry(MASK_OUT_X_Y, 0x8158, "or_16_re_pi", "OR", Size::Word, Decoder::DxEa, Validator::Always),
        spec_op_entry(MASK_OUT_X_Y, 0x8160, "or_16_re_pd", "OR", Size::Word, Decoder::DxEa, Validator::Always),
        spec_op_entry(MASK_OUT_X_Y, 0x8168, "or_16_re_di", "OR", Size::Word, Decoder::DxEa, Validator::Always),
        spec_op_entry(MASK_OUT_X_Y, 0x8170, "or_16_re_ix", "OR", Size::Word, Decoder::DxEa, Validator::Always),
        spec_op_entry(MASK_OUT_X, 0x8178, "or_16_re_aw", "OR", Size::Word, Decoder::DxEa, Validator::Always),
        spec_op_entry(MASK_OUT_X, 0x8179, "or_16_re_al", "OR", Size::Word, Decoder::DxEa, Validator::Always),
        spec_op_entry(MASK_OUT_X_Y, 0x8080, "or_32_er_dn", "OR", Size::Long, Decoder::EaDx, Validator::Always),
        spec_op_entry(MASK_OUT_X_Y, 0x8090, "or_32_er_ai", "OR", Size::Long, Decoder::EaDx, Validator::Always),
        spec_op_entry(MASK_OUT_X_Y, 0x8098, "or_32_er_pi", "OR", Size::Long, Decoder::EaDx, Validator::Always),
        spec_op_entry(MASK_OUT_X_Y, 0x80a0, "or_32_er_pd", "OR", Size::Long, Decoder::EaDx, Validator::Always),
        spec_op_entry(MASK_OUT_X_Y, 0x80a8, "or_32_er_di", "OR", Size::Long, Decoder::EaDx, Validator::Always),
        spec_op_entry(MASK_OUT_X_Y, 0x80b0, "or_32_er_ix", "OR", Size::Long, Decoder::EaDx, Validator::Always),
        spec_op_entry(MASK_OUT_X, 0x80b8, "or_32_er_aw", "OR", Size::Long, Decoder::EaDx, Validator::Always),
        spec_op_entry(MASK_OUT_X, 0x80b9, "or_32_er_al", "OR", Size::Long, Decoder::EaDx, Validator::Always),
        spec_op_entry(MASK_OUT_X, 0x80ba, "or_32_er_pcdi", "OR", Size::Long, Decoder::EaDx, Validator::Always),
        spec_op_entry(MASK_OUT_X, 0x80bb, "or_32_er_pcix", "OR", Size::Long, Decoder::EaDx, Validator::Always),
        spec_op_entry(MASK_OUT_X, 0x80bc, "or_32_er_imm", "OR", Size::Long, Decoder::EaDx, Validator::Always),
        spec_op_entry(MASK_OUT_X_Y, 0x8190, "or_32_re_ai", "OR", Size::Long, Decoder::DxEa, Validator::Always),
        spec_op_entry(MASK_OUT_X_Y, 0x8198, "or_32_re_pi", "OR", Size::Long, Decoder::DxEa, Validator::Always),
        spec_op_entry(MASK_OUT_X_Y, 0x81a0, "or_32_re_pd", "OR", Size::Long, Decoder::DxEa, Validator::Always),
        spec_op_entry(MASK_OUT_X_Y, 0x81a8, "or_32_re_di", "OR", Size::Long, Decoder::DxEa, Validator::Always),
        spec_op_entry(MASK_OUT_X_Y, 0x81b0, "or_32_re_ix", "OR", Size::Long, Decoder::DxEa, Validator::Always),
        spec_op_entry(MASK_OUT_X, 0x81b8, "or_32_re_aw", "OR", Size::Long, Decoder::DxEa, Validator::Always),
    ]
}

fn push_rules_35(v: &mut Vec<OpcodeHandler>)
    ensures
        final(v)@ == old(v)@ + rules_35(),
        forall|i: int|
            old(v)@.len() <= i < final(v)@.len() ==> rule_wf(#[trigger] final(v)@[i])
                && rule_decodable(final(v)@[i]),
{
    let ghost v0 = v@;
    v.push(op_entry(MASK_OUT_X_Y, 0x8060, "or_16_er_pd", "OR", Size::Word, Decoder::EaDx, Validator::Always));
    v.push(op_entry(MASK_OUT_X_Y, 0x8068, "or_16_er_di", "OR", Size::Word, Decoder::EaDx, Validator::Always));
    v.push(op_entry(MASK_OUT_X_Y, 0x8070, "or_16_er_ix", "OR", Size::Word, Decoder::EaDx, Validator::Always));
    v.push(op_entry(MASK_OUT_X, 0x8078, "or_16_er_aw", "OR", Size::Word, Decoder::EaDx, Validator::Always));
    v.push(op_entry(MASK_OUT_X, 0x8079, "or_16_er_al", "OR", Size::Word, Decoder::EaDx, Validator::Always));
    v.push(op_entry(MASK_OUT_X, 0x807a, "or_16_er_pcdi", "OR", Size::Word, Decoder::EaDx, Validator::Always));
    v.push(op_entry(MASK_OUT_X, 0x807b, "or_16_er_pcix", "OR", Size::Word, Decoder::EaDx, Validator::Always));
    v.push(op_entry(MASK_OUT_X, 0x807c, "or_16_er_imm", "OR", Size::Word, Decoder::EaDx, Validator::Always));
    v.push(op_entry(MASK_OUT_X_Y, 0x8150, "or_16_re_ai", "OR", Size::Word, Decoder::DxEa, Validator::Always));
    v.push(op_entry(MASK_OUT_X_Y, 0x8158, "or_16_re_pi", "OR", Size::Word, Decoder::DxEa, Validator::Always));
    v.push(op_entry(MASK_OUT_X_Y, 0x8160, "or_16_re_pd", "OR", Size::Word, Decoder::DxEa, Validator::Always));
    v.push(op_entry(MASK_OUT_X_Y, 0x8168, "or_16_re_di", "OR", Size::Word, Decoder::DxEa, Validator::Always));
    v.push(op_entry(MASK_OUT_X_Y, 0x8170, "or_16_re_ix", "OR", Size::Word, Decoder::DxEa, Validator::Always));
    v.push(op_entry(MASK_OUT_X, 0x8178, "or_16_re_aw", "OR", Size::Word, Decoder::DxEa, Validator::Always));
    v.push(op_entry(MASK_OUT_X, 0x8179, "or_16_re_al", "OR", Size::Word, Decoder::DxEa, Validator::Always));
    v.push(op_entry(MASK_OUT_X_Y, 0x8080, "or_32_er_dn", "OR", Size::Long, Decoder::EaDx, Validator::Always));
    v.push(op_entry(MASK_OUT_X_Y, 0x8090, "or_32_er_ai", "OR", Size::Long, Decoder::EaDx, Validator::Always));
    v.push(op_entry(MASK_OUT_X_Y, 0x8098, "or_32_er_pi", "OR", Size::Long, Decoder::EaDx, Validator::Always));
    v.push(op_entry(MASK_OUT_X_Y, 0x80a0, "or_32_er_pd", "OR", Size::Long, Decoder::EaDx, Validator::Always));
    v.push(op_entry(MASK_OUT_X_Y, 0x80a8, "or_32_er_di", "OR", Size::Long, Decoder::EaDx, Validator::Always));
    v.push(op_entry(MASK_OUT_X_Y, 0x80b0, "or_32_er_ix", "OR", Size::Long, Decoder::EaDx, Validator::Always));
    v.push(op_entry(MASK_OUT_X, 0x80b8, "or_32_er_aw", "OR", Size::Long, Decoder::EaDx, Validator::Always));
    v.push(op_entry(MASK_OUT_X, 0x80b9, "or_32_er_al", "OR", Size::Long, Decoder::EaDx, Validator::Always));
    v.push(op_entry(MASK_OUT_X, 0x80ba, "or_32_er_pcdi", "OR", Size::Long, Decoder::EaDx, Validator::Always));
    v.push(op_entry(MASK_OUT_X, 0x80bb, "or_32_er_pcix", "OR", Size::Long, Decoder::EaDx, Validator::Always));
    v.push(op_entry(MASK_OUT_X, 0x80bc, "or_32_er_imm", "OR", Size::Long, Decoder::EaDx, Validator::Always));
    v.push(op_entry(MASK_OUT_X_Y, 0x8190, "or_32_re_ai", "OR", Size::Long, Decoder::DxEa, Validator::Always));
    v.push(op_entry(MASK_OUT_X_Y, 0x8198, "or_32_re_pi", "OR", Size::Long, Decoder::DxEa, Validator::Always));
    v.push(op_entry(MASK_OUT_X_Y, 0x81a0, "or_32_re_pd", "OR", Size::Long, Decoder::DxEa, Validator::Always));
    v.push(op_entry(MASK_OUT_X_Y, 0x81a8, "or_32_re_di", "OR", Size::Long, Decoder::DxEa, Validator::Always));
    v.push(op_entry(MASK_OUT_X_Y, 0x81b0, "or_32_re_ix", "OR", Size::Long, Decoder::DxEa, Validator::Always));
    v.push(op_entry(MASK_OUT_X, 0x81b8, "or_32_re_aw", "OR", Size::Long, Decoder::DxEa, Validator::Always));
    proof {
        assert(v@ =~= v0 + rules_35());
    }
}

/// Rules or_32_re_al through pea_32_al.
pub open spec fn rules_36() -> Seq<OpcodeHandler> {
    seq![
        spec_op_entry(MASK_OUT_X, 0x81b9, "or_32_re_al", "OR", Size::Long, Decoder::DxEa, Validator::Always),
        spec_op_entry(MASK_OUT_Y, 0x0000, "ori_8_dn", "ORI", Size::Byte, Decoder::ImmEa, Validator::Always),
        spec_op_entry(MASK_OUT_Y, 0x0010, "ori_8_ai", "ORI", Size::Byte, Decoder::ImmEa, Validator::Always),
        spec_op_entry(MASK_OUT_Y, 0x0018, "ori_8_pi", "ORI", Size::Byte, Decoder::ImmEa, Validator::Always),
        spec_op_entry(MASK_OUT_Y, 0x0020, "ori_8_pd", "ORI", Size::Byte, Decoder::ImmEa, Validator::Always),
        spec_op_entry(MASK_OUT_Y, 0x0028, "ori_8_di", "ORI", Size::Byte, Decoder::ImmEa, Validator::Always),
        spec_op_entry(MASK_OUT_Y, 0x0030, "ori_8_ix", "ORI", Size::Byte, Decoder::ImmEa, Validator::Always),
        spec_op_entry(MASK_EXACT, 0x0038, "ori_8_aw", "ORI", Size::Byte, Decoder::ImmEa, Validator::Always),
        spec_op_entry(MASK_EXACT, 0x0039, "ori_8_al", "ORI", Size::Byte, Decoder::ImmEa, Validator::Always),
        spec_op_entry(MASK_OUT_Y, 0x0040, "ori_16_dn", "ORI", Size::Word, Decoder::ImmEa, Validator::Always),
        spec_op_entry(MASK_OUT_Y, 0x0050, "ori_16_ai", "ORI", Size::Word, Decoder::ImmEa, Validator::Always),
        spec_op_entry(MASK_OUT_Y, 0x0058, "ori_16_pi", "ORI", Size::Word, Decoder::ImmEa, Validator::Always),
        spec_op_entry(MASK_OUT_Y, 0x0060, "ori_16_pd", "ORI", Size::Word, Decoder::ImmEa, Validator::Always),
        spec_op_entry(MASK_OUT_Y, 0x0068, "ori_16_di", "ORI", Size::Word, Decoder::ImmEa, Validator::Always),
        spec_op_entry(MASK_OUT_Y, 0x0070, "ori_16_ix", "ORI", Size::Word, Decoder::ImmEa, Validator::Always),
        spec_op_entry(MASK_EXACT, 0x0078, "ori_16_aw", "ORI", Size::Word, Decoder::ImmEa, Validator::Always),
        spec_op_entry(MASK_EXACT, 0x0079, "ori_16_al", "ORI", Size::Word, Decoder::ImmEa, Validator::Always),
        spec_op_entry(MASK_OUT_Y, 0x0080, "ori_32_dn", "ORI", Size::Long, Decoder::ImmEa, Validator::Always),
        spec_op_entry(MASK_OUT_Y, 0x0090, "ori_32_ai", "ORI", Size::Long, Decoder::ImmEa, Validator::Always),
        spec_op_entry(MASK_OUT_Y, 0x0098, "ori_32_pi", "ORI", Size::Long, Decoder::ImmEa, Validator::Always),
        spec_op_entry(MASK_OUT_Y, 0x00a0, "ori_32_pd", "ORI", Size::Long, Decoder::ImmEa, Validator::Always),
        spec_op_entry(MASK_OUT_Y, 0x00a8, "ori_32_di", "ORI", Size::Long, Decoder::ImmEa, Validator::Always),
        spec_op_entry(MASK_OUT_Y, 0x00b0, "ori_32_ix", "ORI", Size::Long, Decoder::ImmEa, Validator::Always),
        spec_op_entry(MASK_EXACT, 0x00b8, "ori_32_aw", "ORI", Size::Long, Decoder::ImmEa, Validator::Always),
        spec_op_entry(MASK_EXACT, 0x00b9, "ori_32_al", "ORI", Size::Long, Decoder::ImmEa, Validator::Always),
        spec_op_entry(MASK_EXACT, 0x003c, "ori_8_toc", "ORI", Size::Byte, Decoder::ImmCcr, Validator::Always),
        spec_op_entry(MASK_EXACT, 0x007c, "ori_16_tos", "ORI", Size::Word, Decoder::ImmSr, Validator::Always),
        spec_op_entry(MASK_OUT_Y, 0x4850, "pea_32_ai", "PEA", Size::Long, Decoder::Ea, Validator::Always),
        spec_op_entry(MASK_OUT_Y, 0x4868, "pea_32_di", "PEA", Size::Long, Decoder::Ea, Validator::Always),
        spec_op_entry(MASK_OUT_Y, 0x4870, "pea_32_ix", "PEA", Size::Long, Decoder::Ea, Validator::Always),
        spec_op_entry(MASK_EXACT, 0x4878, "pea_32_aw", "PEA", Size::Long, Decoder::Ea, Validator::Always),
        spec_op_entry(MASK_EXACT, 0x4879, "pea_32_al", "PEA", Size::Long, Decoder::Ea, Validator::Always),
    ]
}

fn push_rules_36(v: &mut Vec<OpcodeHandler>)
    ensures
        final(v)@ == old(v)@ + rules_36(),
        forall|i: int|
            old(v)@.len() <= i < final(v)@.len() ==> rule_wf(#[trigger] final(v)@[i])
                && rule_decodable(final(v)@[i]),
{
    let ghost v0 = v@;
    v.push(op_entry(MASK_OUT_X, 0x81b9, "or_32_re_al", "OR", Size::Long, Decoder::DxEa, Validator::Always));
    v.push(op_entry(MASK_OUT_Y, 0x0000, "ori_8_dn", "ORI", Size::Byte, Decoder::ImmEa, Validator::Always));
    v.push(op_entry(MASK_OUT_Y, 0x0010, "ori_8_ai", "ORI", Size::Byte, Decoder::ImmEa, Validator::Always));
    v.push(op_entry(MASK_OUT_Y, 0x0018, "ori_8_pi", "ORI", Size::Byte, Decoder::ImmEa, Validator::Always));
    v.push(op_entry(MASK_OUT_Y, 0x0020, "ori_8_pd", "ORI", Size::Byte, Decoder::ImmEa, Validator::Always));
    v.push(op_entry(MASK_OUT_Y, 0x0028, "ori_8_di", "ORI", Size::Byte, Decoder::ImmEa, Validator::Always));
    v.push(op_entry(MASK_OUT_Y, 0x0030, "ori_8_ix", "ORI", Size::Byte, Decoder::ImmEa, Validator::Always));
    v.push(op_entry(MASK_EXACT, 0x0038, "ori_8_aw", "ORI", Size::Byte, Decoder::ImmEa, Validator::Always));
    v.push(op_entry(MASK_EXACT, 0x0039, "ori_8_al", "ORI", Size::Byte, Decoder::ImmEa, Validator::Always));
    v.push(op_entry(MASK_OUT_Y, 0x0040, "ori_16_dn", "ORI", Size::Word, Decoder::ImmEa, Validator::Always));
    v.push(op_entry(MASK_OUT_Y, 0x0050, "ori_16_ai", "ORI", Size::Word, Decoder::ImmEa, Validator::Always));
    v.push(op_entry(MASK_OUT_Y, 0x0058, "ori_16_pi", "ORI", Size::Word, Decoder::ImmEa, Validator::Always));
    v.push(op_entry(MASK_OUT_Y, 0x0060, "ori_16_pd", "ORI", Size::Word, Decoder::ImmEa, Validator::Always));
    v.push(op_entry(MASK_OUT_Y, 0x0068, "ori_16_di", "ORI", Size::Word, Decoder::ImmEa, Validator::Always));
    v.push(op_entry(MASK_OUT_Y, 0x0070, "ori_16_ix", "ORI", Size::Word, Decoder::ImmEa, Validator::Always));
    v.push(op_entry(MASK_EXACT, 0x0078, "ori_16_aw", "ORI", Size::Word, Decoder::ImmEa, Validator::Always));
    v.push(op_entry(MASK_EXACT, 0x0079, "ori_16_al", "ORI", Size::Word, Decoder::ImmEa, Validator::Always));
    v.push(op_entry(MASK_OUT_Y, 0x0080, "ori_32_dn", "ORI", Size::Long, Decoder::ImmEa, Validator::Always));
    v.push(op_entry(MASK_OUT_Y, 0x0090, "ori_32_ai", "ORI", Size::Long, Decoder::ImmEa, Validator::Always));
    v.push(op_entry(MASK_OUT_Y, 0x0098, "ori_32_pi", "ORI", Size::Long, Decoder::ImmEa, Validator::Always));
    v.push(op_entry(MASK_OUT_Y, 0x00a0, "ori_32_pd", "ORI", Size::Long, Decoder::ImmEa, Validator::Always));
    v.push(op_entry(MASK_OUT_Y, 0x00a8, "ori_32_di", "ORI", Size::Long, Decoder::ImmEa, Validator::Always));
    v.push(op_entry(MASK_OUT_Y, 0x00b0, "ori_32_ix", "ORI", Size::Long, Decoder::ImmEa, Validator::Always));
    v.push(op_entry(MASK_EXACT, 0x00b8, "ori_32_aw", "ORI", Size::Long, Decoder::ImmEa, Validator::Always));
    v.push(op_entry(MASK_EXACT, 0x00b9, "ori_32_al", "ORI", Size::Long, Decoder::ImmEa, Validator::Always));
    v.push(op_entry(MASK_EXACT, 0x003c, "ori_8_toc", "ORI", Size::Byte, Decoder::ImmCcr, Validator::Always));
    v.push(op_entry(MASK_EXACT, 0x007c, "ori_16_tos", "ORI", Size::Word, Decoder::ImmSr, Validator::Always));
    v.push(op_entry(MASK_OUT_Y, 0x4850, "pea_32_ai", "PEA", Size::Long, Decoder::Ea, Validator::Always));
    v.push(op_entry(MASK_OUT_Y, 0x4868, "pea_32_di", "PEA", Size::Long, Decoder::Ea, Validator::Always));
    v.push(op_entry(MASK_OUT_Y, 0x4870, "pea_32_ix", "PEA", Size::Long, Decoder::Ea, Validator::Always));
    v.push(op_entry(MASK_EXACT, 0x4878, "pea_32_aw", "PEA", Size::Long, Decoder::Ea, Validator::Always));
    v.push(op_entry(MASK_EXACT, 0x4879, "pea_32_al", "PEA", Size::Long, Decoder::Ea, Validator::Always));
    proof {
        assert(v@ =~= v0 + rules_36());
    }
}

/// Rules pea_32_pcdi through roxr_32_s.
pub open spec fn rules_37() -> Seq<OpcodeHandler> {
    seq![
        spec_op_entry(MASK_EXACT, 0x487a, "pea_32_pcdi", "PEA", Size::Long, Decoder::Ea, Validator::Always),
        spec_op_entry(MASK_EXACT, 0x487b, "pea_32_pcix", "PEA", Size::Long, Decoder::Ea, Validator::Always),
        spec_op_entry(MASK_EXACT, 0x4e70, "reset", "RESET", Size::Unsized, Decoder::NoOperands, Validator::Always),
        spec_op_entry(MASK_OUT_X_Y, 0xe018, "ror_8_s", "ROR", Size::Byte, Decoder::ShiftImm, Validator::Always),
        spec_op_entry(MASK_OUT_X_Y, 0xe058, "ror_16_s", "ROR", Size::Word, Decoder::ShiftImm, Validator::Always),
        spec_op_entry(MASK_OUT_X_Y, 0xe098, "ror_32_s", "ROR", Size::Long, Decoder::ShiftImm, Validator::Always),
        spec_op_entry(MASK_OUT_X_Y, 0xe038, "ror_8_r", "ROR", Size::Byte, Decoder::ShiftReg, Validator::Always),
        spec_op_entry(MASK_OUT_X_Y, 0xe078, "ror_16_r", "ROR", Size::Word, Decoder::ShiftReg, Validator::Always),
        spec_op_entry(MASK_OUT_X_Y, 0xe0b8, "ror_32_r", "ROR", Size::Long, Decoder::ShiftReg, Validator::Always),
        spec_op_entry(MASK_OUT_X_Y, 0xe118, "rol_8_s", "ROL", Size::Byte, Decoder::ShiftImm, Validator::Always),
        spec_op_entry(MASK_OUT_X_Y, 0xe158, "rol_16_s", "ROL", Size::Word, Decoder::ShiftImm, Validator::Always),
        spec_op_entry(MASK_OUT_X_Y, 0xe198, "rol_32_s", "ROL", Size::Long, Decoder::ShiftImm, Validator::Always),
        spec_op_entry(MASK_OUT_X_Y, 0xe138, "rol_8_r", "ROL", Size::Byte, Decoder::ShiftReg, Validator::Always),
        spec_op_entry(MASK_OUT_X_Y, 0xe178, "rol_16_r", "ROL", Size::Word, Decoder::ShiftReg, Validator::Always),
        spec_op_entry(MASK_OUT_X_Y, 0xe1b8, "rol_32_r", "ROL", Size::Long, Decoder::ShiftReg, Validator::Always),
        spec_op_entry(MASK_OUT_Y, 0xe7d0, "rol_16_ai", "ROL", Size::Word, Decoder::Ea, Validator::Always),
        spec_op_entry(MASK_OUT_Y, 0xe7d8, "rol_16_pi", "ROL", Size::Word, Decoder::Ea, Validator::Always),
        spec_op_entry(MASK_OUT_Y, 0xe7e0, "rol_16_pd", "ROL", Size::Word, Decoder::Ea, Validator::Always),
        spec_op_entry(MASK_OUT_Y, 0xe7e8, "rol_16_di", "ROL", Size::Word, Decoder::Ea, Validator::Always),
        spec_op_entry(MASK_OUT_Y, 0xe7f0, "rol_16_ix", "ROL", Size::Word, Decoder::Ea, Validator::Always),
        spec_op_entry(MASK_EXACT, 0xe7f8, "rol_16_aw", "ROL", Size::Word, Decoder::Ea, Validator::Always),
        spec_op_entry(MASK_EXACT, 0xe7f9, "rol_16_al", "ROL", Size::Word, Decoder::Ea, Validator::Always),
        spec_op_entry(MASK_OUT_Y, 0xe6d0, "ror_16_ai", "ROR", Size::Word, Decoder::Ea, Validator::Always),
        spec_op_entry(MASK_OUT_Y, 0xe6d8, "ror_16_pi", "ROR", Size::Word, Decoder::Ea, Validator::Always),
        spec_op_entry(MASK_OUT_Y, 0xe6e0, "ror_16_pd", "ROR", Size::Word, Decoder::Ea, Validator::Always),
        spec_op_entry(MASK_OUT_Y, 0xe6e8, "ror_16_di", "ROR", Size::Word, Decoder::Ea, Validator::Always),
        spec_op_entry(MASK_OUT_Y, 0xe6f0, "ror_16_ix", "ROR", Size::Word, Decoder::Ea, Validator::Always),
        spec_op_entry(MASK_EXACT, 0xe6f8, "ror_16_aw", "ROR", Size::Word, Decoder::Ea, Validator::Always),
        spec_op_entry(MASK_EXACT, 0xe6f9, "ror_16_al", "ROR", Size::Word, Decoder::Ea, Validator::Always),
        spec_op_entry(MASK_OUT_X_Y, 0xe010, "roxr_8_s", "ROXR", Size::Byte, Decoder::ShiftImm, Validator::Always),
        spec_op_entry(MASK_OUT_X_Y, 0xe050, "roxr_16_s", "ROXR", Size::Word, Decoder::ShiftImm, Validator::Always),
        spec_op_entry(MASK_OUT_X_Y, 0xe090, "roxr_32_s", "ROXR", Size::Long, Decoder::ShiftImm, Validator::Always),
    ]
}

fn push_rules_37(v: &mut Vec<OpcodeHandler>)
    ensures
        final(v)@ == old(v)@ + rules_37(),
        forall|i: int|
            old(v)@.len() <= i < final(v)@.len() ==> rule_wf(#[trigger] final(v)@[i])
                && rule_decodable(final(v)@[i]),
{
    let ghost v0 = v@;
    v.push(op_entry(MASK_EXACT, 0x487a, "pea_32_pcdi", "PEA", Size::Long, Decoder::Ea, Validator::Always));
    v.push(op_entry(MASK_EXACT, 0x487b, "pea_32_pcix", "PEA", Size::Long, Decoder::Ea, Validator::Always));
    v.push(op_entry(MASK_EXACT, 0x4e70, "reset", "RESET", Size::Unsized, Decoder::NoOperands, Validator::Always));
    v.push(op_entry(MASK_OUT_X_Y, 0xe018, "ror_8_s", "ROR", Size::Byte, Decoder::ShiftImm, Validator::Always));
    v.push(op_entry(MASK_OUT_X_Y, 0xe058, "ror_16_s", "ROR", Size::Word, Decoder::ShiftImm, Validator::Always));
    v.push(op_entry(MASK_OUT_X_Y, 0xe098, "ror_32_s", "ROR", Size::Long, Decoder::ShiftImm, Validator::Always));
    v.push(op_entry(MASK_OUT_X_Y, 0xe038, "ror_8_r", "ROR", Size::Byte, Decoder::ShiftReg, Validator::Always));
    v.push(op_entry(MASK_OUT_X_Y, 0xe078, "ror_16_r", "ROR", Size::Word, Decoder::ShiftReg, Validator::Always));
    v.push(op_entry(MASK_OUT_X_Y, 0xe0b8, "ror_32_r", "ROR", Size::Long, Decoder::ShiftReg, Validator::Always));
    v.push(op_entry(MASK_OUT_X_Y, 0xe118, "rol_8_s", "ROL", Size::Byte, Decoder::ShiftImm, Validator::Always));
    v.push(op_entry(MASK_OUT_X_Y, 0xe158, "rol_16_s", "ROL", Size::Word, Decoder::ShiftImm, Validator::Always));
    v.push(op_entry(MASK_OUT_X_Y, 0xe198, "rol_32_s", "ROL", Size::Long, Decoder::ShiftImm, Validator::Always));
    v.push(op_entry(MASK_OUT_X_Y, 0xe138, "rol_8_r", "ROL", Size::Byte, Decoder::ShiftReg, Validator::Always));
    v.push(op_entry(MASK_OUT_X_Y, 0xe178, "rol_16_r", "ROL", Size::Word, Decoder::ShiftReg, Validator::Always));
    v.push(op_entry(MASK_OUT_X_Y, 0xe1b8, "rol_32_r", "ROL", Size::Long, Decoder::ShiftReg, Validator::Always));
    v.push(op_entry(MASK_OUT_Y, 0xe7d0, "rol_16_ai", "ROL", Size::Word, Decoder::Ea, Validator::Always));
    v.push(op_entry(MASK_OUT_Y, 0xe7d8, "rol_16_pi", "ROL", Size::Word, Decoder::Ea, Validator::Always));
    v.push(op_entry(MASK_OUT_Y, 0xe7e0, "rol_16_pd", "ROL", Size::Word, Decoder::Ea, Validator::Always));
    v.push(op_entry(MASK_OUT_Y, 0xe7e8, "rol_16_di", "ROL", Size::Word, Decoder::Ea, Validator::Always));
    v.push(op_entry(MASK_OUT_Y, 0xe7f0, "rol_16_ix", "ROL", Size::Word, Decoder::Ea, Validator::Always));
    v.push(op_entry(MASK_EXACT, 0xe7f8, "rol_16_aw", "ROL", Size::Word, Decoder::Ea, Validator::Always));
    v.push(op_entry(MASK_EXACT, 0xe7f9, "rol_16_al", "ROL", Size::Word, Decoder::Ea, Validator::Always));
    v.push(op_entry(MASK_OUT_Y, 0xe6d0, "ror_16_ai", "ROR", Size::Word, Decoder::Ea, Validator::Always));
    v.push(op_entry(MASK_OUT_Y, 0xe6d8, "ror_16_pi", "ROR", Size::Word, Decoder::Ea, Validator::Always));
    v.push(op_entry(MASK_OUT_Y, 0xe6e0, "ror_16_pd", "ROR", Size::Word, Decoder::Ea, Validator::Always));
    v.push(op_entry(MASK_OUT_Y, 0xe6e8, "ror_16_di", "ROR", Size::Word, Decoder::Ea, Validator::Always));
    v.push(op_entry(MASK_OUT_Y, 0xe6f0, "ror_16_ix", "ROR", Size::Word, Decoder::Ea, Validator::Always));
    v.push(op_entry(MASK_EXACT, 0xe6f8, "ror_16_aw", "ROR", Size::Word, Decoder::Ea, Validator::Always));
    v.push(op_entry(MASK_EXACT, 0xe6f9, "ror_16_al", "ROR", Size::Word, Decoder::Ea, Validator::Always));
    v.push(op_entry(MASK_OUT_X_Y, 0xe010, "roxr_8_s", "ROXR", Size::Byte, Decoder::ShiftImm, Validator::Always));
    v.push(op_entry(MASK_OUT_X_Y, 0xe050, "roxr_16_s", "ROXR", Size::Word, Decoder::ShiftImm, Validator::Always));
    v.push(op_entry(MASK_OUT_X_Y, 0xe090, "roxr_32_s", "ROXR", Size::Long, Decoder::ShiftImm, Validator::Always));
    proof {
        assert(v@ =~= v0 + rules_37());
    }
}

/// Rules roxr_8_r through scc_8_dn.
pub open spec fn rules_38() -> Seq<OpcodeHandler> {
    seq![
        spec_op_entry(MASK_OUT_X_Y, 0xe030, "roxr_8_r", "ROXR", Size::Byte, Decoder::ShiftReg, Validator::Always),
        spec_op_entry(MASK_OUT_X_Y, 0xe070, "roxr_16_r", "ROXR", Size::Word, Decoder::ShiftReg, Validator::Always),
        spec_op_entry(MASK_OUT_X_Y, 0xe0b0, "roxr_32_r", "ROXR", Size::Long, Decoder::ShiftReg, Validator::Always),
        spec_op_entry(MASK_OUT_X_Y, 0xe110, "roxl_8_s", "ROXL", Size::Byte, Decoder::ShiftImm, Validator::Always),
        spec_op_entry(MASK_OUT_X_Y, 0xe150, "roxl_16_s", "ROXL", Size::Word, Decoder::ShiftImm, Validator::Always),
        spec_op_entry(MASK_OUT_X_Y, 0xe190, "roxl_32_s", "ROXL", Size::Long, Decoder::ShiftImm, Validator::Always),
        spec_op_entry(MASK_OUT_X_Y, 0xe130, "roxl_8_r", "ROXL", Size::Byte, Decoder::ShiftReg, Validator::Always),
        spec_op_entry(MASK_OUT_X_Y, 0xe170, "roxl_16_r", "ROXL", Size::Word, Decoder::ShiftReg, Validator::Always),
        spec_op_entry(MASK_OUT_X_Y, 0xe1b0, "roxl_32_r", "ROXL", Size::Long, Decoder::ShiftReg, Validator::Always),
        spec_op_entry(MASK_OUT_Y, 0xe5d0, "roxl_16_ai", "ROXL", Size::Word, Decoder::Ea, Validator::Always),
        spec_op_entry(MASK_OUT_Y, 0xe5d8, "roxl_16_pi", "ROXL", Size::Word, Decoder::Ea, Validator::Always),
        spec_op_entry(MASK_OUT_Y, 0xe5e0, "roxl_16_pd", "ROXL", Size::Word, Decoder::Ea, Validator::Always),
        spec_op_entry(MASK_OUT_Y, 0xe5e8, "roxl_16_di", "ROXL", Size::Word, Decoder::Ea, Validator::Always),
        spec_op_entry(MASK_OUT_Y, 0xe5f0, "roxl_16_ix", "ROXL", Size::Word, Decoder::Ea, Validator::Always),
        spec_op_entry(MASK_EXACT, 0xe5f8, "roxl_16_aw", "ROXL", Size::Word, Decoder::Ea, Validator::Always),
        spec_op_entry(MASK_EXACT, 0xe5f9, "roxl_16_al", "ROXL", Size::Word, Decoder::Ea, Validator::Always),
        spec_op_entry(MASK_OUT_Y, 0xe4d0, "roxr_16_ai", "ROXR", Size::Word, Decoder::Ea, Validator::Always),
        spec_op_entry(MASK_OUT_Y, 0xe4d8, "roxr_16_pi", "ROXR", Size::Word, Decoder::Ea, Validator::Always),
        spec_op_entry(MASK_OUT_Y, 0xe4e0, "roxr_16_pd", "ROXR", Size::Word, Decoder::Ea, Validator::Always),
        spec_op_entry(MASK_OUT_Y, 0xe4e8, "roxr_16_di", "ROXR", Size::Word, Decoder::Ea, Validator::Always),
        spec_op_entry(MASK_OUT_Y, 0xe4f0, "roxr_16_ix", "ROXR", Size::Word, Decoder::Ea, Validator::Always),
        spec_op_entry(MASK_EXACT, 0xe4f8, "roxr_16_aw", "ROXR", Size::Word, Decoder::Ea, Validator::Always),
        spec_op_entry(MASK_EXACT, 0xe4f9, "roxr_16_al", "ROXR", Size::Word, Decoder::Ea, Validator::Always),
        spec_op_entry(MASK_EXACT, 0x4e73, "rte_32", "RTE", Size::Unsized, Decoder::NoOperands, Validator::Always),
        spec_op_entry(MASK_EXACT, 0x4e77, "rtr_32", "RTR", Size::Unsized, Decoder::NoOperands, Validator::Always),
        spec_op_entry(MASK_EXACT, 0x4e75, "rts_32", "RTS", Size::Unsized, Decoder::NoOperands, Validator::Always),
        spec_op_entry(MASK_OUT_X_Y, 0x8100, "sbcd_8_rr", "SBCD", Size::Byte, Decoder::DyDx, Validator::Always),
        spec_op_entry(MASK_OUT_X_Y, 0x8108, "sbcd_8_mm", "SBCD", Size::Byte, Decoder::PdPd, Validator::Always),
        spec_op_entry(MASK_OUT_Y, 0x54d0, "scc_8_ai", "SCC", Size::Byte, Decoder::Ea, Validator::Always),
        spec_op_entry(MASK_EXACT, 0x54f9, "scc_8_al", "SCC", Size::Byte, Decoder::Ea, Validator::Always),
        spec_op_entry(MASK_EXACT, 0x54f8, "scc_8_aw", "SCC", Size::Byte, Decoder::Ea, Validator::Always),
        spec_op_entry(MASK_OUT_Y, 0x54c0, "scc_8_dn", "SCC", Size::Byte, Decoder::Ea, Validator::Always),
    ]
}

fn push_rules_38(v: &mut Vec<OpcodeHandler>)
    ensures
        final(v)@ == old(v)@ + rules_38(),
        forall|i: int|
            old(v)@.len() <= i < final(v)@.len() ==> rule_wf(#[trigger] final(v)@[i])
                && rule_decodable(final(v)@[i]),
{
    let ghost v0 = v@;
    v.push(op_entry(MASK_OUT_X_Y, 0xe030, "roxr_8_r", "ROXR", Size::Byte, Decoder::ShiftReg, Validator::Always));
    v.push(op_entry(MASK_OUT_X_Y, 0xe070, "roxr_16_r", "ROXR", Size::Word, Decoder::ShiftReg, Validator::Always));
    v.push(op_entry(MASK_OUT_X_Y, 0xe0b0, "roxr_32_r", "ROXR", Size::Long, Decoder::ShiftReg, Validator::Always));
    v.push(op_entry(MASK_OUT_X_Y, 0xe110, "roxl_8_s", "ROXL", Size::Byte, Decoder::ShiftImm, Validator::Always));
    v.push(op_entry(MASK_OUT_X_Y, 0xe150, "roxl_16_s", "ROXL", Size::Word, Decoder::ShiftImm, Validator::Always));
    v.push(op_entry(MASK_OUT_X_Y, 0xe190, "roxl_32_s", "ROXL", Size::Long, Decoder::ShiftImm, Validator::Always));
    v.push(op_entry(MASK_OUT_X_Y, 0xe130, "roxl_8_r", "ROXL", Size::Byte, Decoder::ShiftReg, Validator::Always));
    v.push(op_entry(MASK_OUT_X_Y, 0xe170, "roxl_16_r", "ROXL", Size::Word, Decoder::ShiftReg, Validator::Always));
    v.push(op_entry(MASK_OUT_X_Y, 0xe1b0, "roxl_32_r", "ROXL", Size::Long, Decoder::ShiftReg, Validator::Always));
    v.push(op_entry(MASK_OUT_Y, 0xe5d0, "roxl_16_ai", "ROXL", Size::Word, Decoder::Ea, Validator::Always));
    v.push(op_entry(MASK_OUT_Y, 0xe5d8, "roxl_16_pi", "ROXL", Size::Word, Decoder::Ea, Validator::Always));
    v.push(op_entry(MASK_OUT_Y, 0xe5e0, "roxl_16_pd", "ROXL", Size::Word, Decoder::Ea, Validator::Always));
    v.push(op_entry(MASK_OUT_Y, 0xe5e8, "roxl_16_di", "ROXL", Size::Word, Decoder::Ea, Validator::Always));
    v.push(op_entry(MASK_OUT_Y, 0xe5f0, "roxl_16_ix", "ROXL", Size::Word, Decoder::Ea, Validator::Always));
    v.push(op_entry(MASK_EXACT, 0xe5f8, "roxl_16_aw", "ROXL", Size::Word, Decoder::Ea, Validator::Always));
    v.push(op_entry(MASK_EXACT, 0xe5f9, "roxl_16_al", "ROXL", Size::Word, Decoder::Ea, Validator::Always));
    v.push(op_entry(MASK_OUT_Y, 0xe4d0, "roxr_16_ai", "ROXR", Size::Word, Decoder::Ea, Validator::Always));
    v.push(op_entry(MASK_OUT_Y, 0xe4d8, "roxr_16_pi", "ROXR", Size::Word, Decoder::Ea, Validator::Always));
    v.push(op_entry(MASK_OUT_Y, 0xe4e0, "roxr_16_pd", "ROXR", Size::Word, Decoder::Ea, Validator::Always));
    v.push(op_entry(MASK_OUT_Y, 0xe4e8, "roxr_16_di", "ROXR", Size::Word, Decoder::Ea, Validator::Always));
    v.push(op_entry(MASK_OUT_Y, 0xe4f0, "roxr_16_ix", "ROXR", Size::Word, Decoder::Ea, Validator::Always));
    v.push(op_entry(MASK_EXACT, 0xe4f8, "roxr_16_aw", "ROXR", Size::Word, Decoder::Ea, Validator::Always));
    v.push(op_entry(MASK_EXACT, 0xe4f9, "roxr_16_al", "ROXR", Size::Word, Decoder::Ea, Validator::Always));
    v.push(op_entry(MASK_EXACT, 0x4e73, "rte_32", "RTE", Size::Unsized, Decoder::NoOperands, Validator::Always));
    v.push(op_entry(MASK_EXACT, 0x4e77, "rtr_32", "RTR", Size::Unsized, Decoder::NoOperands, Validator::Always));
    v.push(op_entry(MASK_EXACT, 0x4e75, "rts_32", "RTS", Size::Unsized, Decoder::NoOperands, Validator::Always));
    v.push(op_entry(MASK_OUT_X_Y, 0x8100, "sbcd_8_rr", "SBCD", Size::Byte, Decoder::DyDx, Validator::Always));
    v.push(op_entry(MASK_OUT_X_Y, 0x8108, "sbcd_8_mm", "SBCD", Size::Byte, Decoder::PdPd, Validator::Always));
    v.push(op_entry(MASK_OUT_Y, 0x54d0, "scc_8_ai", "SCC", Size::Byte, Decoder::Ea, Validator::Always));
    v.push(op_entry(MASK_EXACT, 0x54f9, "scc_8_al", "SCC", Size::Byte, Decoder::Ea, Validator::Always));
    v.push(op_entry(MASK_EXACT, 0x54f8, "scc_8_aw", "SCC", Size::Byte, Decoder::Ea, Validator::Always));
    v.push(op_entry(MASK_OUT_Y, 0x54c0, "scc_8_dn", "SCC", Size::Byte, Decoder::Ea, Validator::Always));
    proof {
        assert(v@ =~= v0 + rules_38());
    }
}

/// Rules scc_8_di through sge_8_dn.
pub open spec fn rules_39() -> Seq<OpcodeHandler> {
    seq![
        spec_op_entry(MASK_OUT_Y, 0x54e8, "scc_8_di", "SCC", Size::Byte, Decoder::Ea, Validator::Always),
        spec_op_entry(MASK_OUT_Y, 0x54f0, "scc_8_ix", "SCC", Size::Byte, Decoder::Ea, Validator::Always),
        spec_op_entry(MASK_OUT_Y, 0x54e0, "scc_8_pd", "SCC", Size::Byte, Decoder::Ea, Validator::Always),
        spec_op_entry(MASK_OUT_Y, 0x54d8, "scc_8_pi", "SCC", Size::Byte, Decoder::Ea, Validator::Always),
        spec_op_entry(MASK_OUT_Y, 0x55d0, "scs_8_ai", "SCS", Size::Byte, Decoder::Ea, Validator::Always),
        spec_op_entry(MASK_EXACT, 0x55f9, "scs_8_al", "SCS", Size::Byte, Decoder::Ea, Validator::Always),
        spec_op_entry(MASK_EXACT, 0x55f8, "scs_8_aw", "SCS", Size::Byte, Decoder::Ea, Validator::Always),
        spec_op_entry(MASK_OUT_Y, 0x55c0, "scs_8_dn", "SCS", Size::Byte, Decoder::Ea, Validator::Always),
        spec_op_entry(MASK_OUT_Y, 0x55e8, "scs_8_di", "SCS", Size::Byte, Decoder::Ea, Validator::Always),
        spec_op_entry(MASK_OUT_Y, 0x55f0, "scs_8_ix", "SCS", Size::Byte, Decoder::Ea, Validator::Always),
        spec_op_entry(MASK_OUT_Y, 0x55e0, "scs_8_pd", "SCS", Size::Byte, Decoder::Ea, Validator::Always),
        spec_op_entry(MASK_OUT_Y, 0x55d8, "scs_8_pi", "SCS", Size::Byte, Decoder::Ea, Validator::Always),
        spec_op_entry(MASK_OUT_Y, 0x57d0, "seq_8_ai", "SEQ", Size::Byte, Decoder::Ea, Validator::Always),
        spec_op_entry(MASK_EXACT, 0x57f9, "seq_8_al", "SEQ", Size::Byte, Decoder::Ea, Validator::Always),
        spec_op_entry(MASK_EXACT, 0x57f8, "seq_8_aw", "SEQ", Size::Byte, Decoder::Ea, Validator::Always),
        spec_op_entry(MASK_OUT_Y, 0x57c0, "seq_8_dn", "SEQ", Size::Byte, Decoder::Ea, Validator::Always),
        spec_op_entry(MASK_OUT_Y, 0x57e8, "seq_8_di", "SEQ", Size::Byte, Decoder::Ea, Validator::Always),
        spec_op_entry(MASK_OUT_Y, 0x57f0, "seq_8_ix", "SEQ", Size::Byte, Decoder::Ea, Validator::Always),
        spec_op_entry(MASK_OUT_Y, 0x57e0, "seq_8_pd", "SEQ", Size::Byte, Decoder::Ea, Validator::Always),
        spec_op_entry(MASK_OUT_Y, 0x57d8, "seq_8_pi", "SEQ", Size::Byte, Decoder::Ea, Validator::Always),
        spec_op_entry(MASK_OUT_Y, 0x51d0, "sf_8_ai", "SF", Size::Byte, Decoder::Ea, Validator::Always),
        spec_op_entry(MASK_EXACT, 0x51f9, "sf_8_al", "SF", Size::Byte, Decoder::Ea, Validator::Always),
        spec_op_entry(MASK_EXACT, 0x51f8, "sf_8_aw", "SF", Size::Byte, Decoder::Ea, Validator::Always),
        spec_op_entry(MASK_OUT_Y, 0x51c0, "sf_8_dn", "SF", Size::Byte, Decoder::Ea, Validator::Always),
        spec_op_entry(MASK_OUT_Y, 0x51e8, "sf_8_di", "SF", Size::Byte, Decoder::Ea, Validator::Always),
        spec_op_entry(MASK_OUT_Y, 0x51f0, "sf_8_ix", "SF", Size::Byte, Decoder::Ea, Validator::Always),
        spec_op_entry(MASK_OUT_Y, 0x51e0, "sf_8_pd", "SF", Size::Byte, Decoder::Ea, Validator::Always),
        spec_op_entry(MASK_OUT_Y, 0x51d8, "sf_8_pi", "SF", Size::Byte, Decoder::Ea, Validator::Always),
        spec_op_entry(MASK_OUT_Y, 0x5cd0, "sge_8_ai", "SGE", Size::Byte, Decoder::Ea, Validator::Always),
        spec_op_entry(MASK_EXACT, 0x5cf9, "sge_8_al", "SGE", Size::Byte, Decoder::Ea, Validator::Always),
        spec_op_entry(MASK_EXACT, 0x5cf8, "sge_8_aw", "SGE", Size::Byte, Decoder::Ea, Validator::Always),
        spec_op_entry(MASK_OUT_Y, 0x5cc0, "sge_8_dn", "SGE", Size::Byte, Decoder::Ea, Validator::Always),
    ]
}

fn push_rules_39(v: &mut Vec<OpcodeHandler>)
    ensures
        final(v)@ == old(v)@ + rules_39(),
        forall|i: int|
            old(v)@.len() <= i < final(v)@.len() ==> rule_wf(#[trigger] final(v)@[i])
                && rule_decodable(final(v)@[i]),
{
    let ghost v0 = v@;
    v.push(op_entry(MASK_OUT_Y, 0x54e8, "scc_8_di", "SCC", Size::Byte, Decoder::Ea, Validator::Always));
    v.push(op_entry(MASK_OUT_Y, 0x54f0, "scc_8_ix", "SCC", Size::Byte, Decoder::Ea, Validator::Always));
    v.push(op_entry(MASK_OUT_Y, 0x54e0, "scc_8_pd", "SCC", Size::Byte, Decoder::Ea, Validator::Always));
    v.push(op_entry(MASK_OUT_Y, 0x54d8, "scc_8_pi", "SCC", Size::Byte, Decoder::Ea, Validator::Always));
    v.push(op_entry(MASK_OUT_Y, 0x55d0, "scs_8_ai", "SCS", Size::Byte, Decoder::Ea, Validator::Always));
    v.push(op_entry(MASK_EXACT, 0x55f9, "scs_8_al", "SCS", Size::Byte, Decoder::Ea, Validator::Always));
    v.push(op_entry(MASK_EXACT, 0x55f8, "scs_8_aw", "SCS", Size::Byte, Decoder::Ea, Validator::Always));
    v.push(op_entry(MASK_OUT_Y, 0x55c0, "scs_8_dn", "SCS", Size::Byte, Decoder::Ea, Validator::Always));
    v.push(op_entry(MASK_OUT_Y, 0x55e8, "scs_8_di", "SCS", Size::Byte, Decoder::Ea, Validator::Always));
    v.push(op_entry(MASK_OUT_Y, 0x55f0, "scs_8_ix", "SCS", Size::Byte, Decoder::Ea, Validator::Always));
    v.push(op_entry(MASK_OUT_Y, 0x55e0, "scs_8_pd", "SCS", Size::Byte, Decoder::Ea, Validator::Always));
    v.push(op_entry(MASK_OUT_Y, 0x55d8, "scs_8_pi", "SCS", Size::Byte, Decoder::Ea, Validator::Always));
    v.push(op_entry(MASK_OUT_Y, 0x57d0, "seq_8_ai", "SEQ", Size::Byte, Decoder::Ea, Validator::Always));
    v.push(op_entry(MASK_EXACT, 0x57f9, "seq_8_al", "SEQ", Size::Byte, Decoder::Ea, Validator::Always));
    v.push(op_entry(MASK_EXACT, 0x57f8, "seq_8_aw", "SEQ", Size::Byte, Decoder::Ea, Validator::Always));
    v.push(op_entry(MASK_OUT_Y, 0x57c0, "seq_8_dn", "SEQ", Size::Byte, Decoder::Ea, Validator::Always));
    v.push(op_entry(MASK_OUT_Y, 0x57e8, "seq_8_di", "SEQ", Size::Byte, Decoder::Ea, Validator::Always));
    v.push(op_entry(MASK_OUT_Y, 0x57f0, "seq_8_ix", "SEQ", Size::Byte, Decoder::Ea, Validator::Always));
    v.push(op_entry(MASK_OUT_Y, 0x57e0, "seq_8_pd", "SEQ", Size::Byte, Decoder::Ea, Validator::Always));
    v.push(op_entry(MASK_OUT_Y, 0x57d8, "seq_8_pi", "SEQ", Size::Byte, Decoder::Ea, Validator::Always));
    v.push(op_entry(MASK_OUT_Y, 0x51d0, "sf_8_ai", "SF", Size::Byte, Decoder::Ea, Validator::Always));
    v.push(op_entry(MASK_EXACT, 0x51f9, "sf_8_al", "SF", Size::Byte, Decoder::Ea, Validator::Always));
    v.push(op_entry(MASK_EXACT, 0x51f8, "sf_8_aw", "SF", Size::Byte, Decoder::Ea, Validator::Always));
    v.push(op_entry(MASK_OUT_Y, 0x51c0, "sf_8_dn", "SF", Size::Byte, Decoder::Ea, Validator::Always));
    v.push(op_entry(MASK_OUT_Y, 0x51e8, "sf_8_di", "SF", Size::Byte, Decoder::Ea, Validator::Always));
    v.push(op_entry(MASK_OUT_Y, 0x51f0, "sf_8_ix", "SF", Size::Byte, Decoder::Ea, Validator::Always));
    v.push(op_entry(MASK_OUT_Y, 0x51e0, "sf_8_pd", "SF", Size::Byte, Decoder::Ea, Validator::Always));
    v.push(op_entry(MASK_OUT_Y, 0x51d8, "sf_8_pi", "SF", Size::Byte, Decoder::Ea, Validator::Always));
    v.push(op_entry(MASK_OUT_Y, 0x5cd0, "sge_8_ai", "SGE", Size::Byte, Decoder::Ea, Validator::Always));
    v.push(op_entry(MASK_EXACT, 0x5cf9, "sge_8_al", "SGE", Size::Byte, Decoder::Ea, Validator::Always));
    v.push(op_entry(MASK_EXACT, 0x5cf8, "sge_8_aw", "SGE", Size::Byte, Decoder::Ea, Validator::Always));
    v.push(op_entry(MASK_OUT_Y, 0x5cc0, "sge_8_dn", "SGE", Size::Byte, Decoder::Ea, Validator::Always));
    proof {
        assert(v@ =~= v0 + rules_39());
    }
}

/// Rules sge_8_di through sls_8_dn.
pub open spec fn rules_40() -> Seq<OpcodeHandler> {
    seq![
        spec_op_entry(MASK_OUT_Y, 0x5ce8, "sge_8_di", "SGE", Size::Byte, Decoder::Ea, Validator::Always),
        spec_op_entry(MASK_OUT_Y, 0x5cf0, "sge_8_ix", "SGE", Size::Byte, Decoder::Ea, Validator::Always),
        spec_op_entry(MASK_OUT_Y, 0x5ce0, "sge_8_pd", "SGE", Size::Byte, Decoder::Ea, Validator::Always),
        spec_op_entry(MASK_OUT_Y, 0x5cd8, "sge_8_pi", "SGE", Size::Byte, Decoder::Ea, Validator::Always),
        spec_op_entry(MASK_OUT_Y, 0x5ed0, "sgt_8_ai", "SGT", Size::Byte, Decoder::Ea, Validator::Always),
        spec_op_entry(MASK_EXACT, 0x5ef9, "sgt_8_al", "SGT", Size::Byte, Decoder::Ea, Validator::Always),
        spec_op_entry(MASK_EXACT, 0x5ef8, "sgt_8_aw", "SGT", Size::Byte, Decoder::Ea, Validator::Always),
        spec_op_entry(MASK_OUT_Y, 0x5ec0, "sgt_8_dn", "SGT", Size::Byte, Decoder::Ea, Validator::Always),
        spec_op_entry(MASK_OUT_Y, 0x5ee8, "sgt_8_di", "SGT", Size::Byte, Decoder::Ea, Validator::Always),
        spec_op_entry(MASK_OUT_Y, 0x5ef0, "sgt_8_ix", "SGT", Size::Byte, Decoder::Ea, Validator::Always),
        spec_op_entry(MASK_OUT_Y, 0x5ee0, "sgt_8_pd", "SGT", Size::Byte, Decoder::Ea, Validator::Always),
        spec_op_entry(MASK_OUT_Y, 0x5ed8, "sgt_8_pi", "SGT", Size::Byte, Decoder::Ea, Validator::Always),
        spec_op_entry(MASK_OUT_Y, 0x52d0, "shi_8_ai", "SHI", Size::Byte, Decoder::Ea, Validator::Always),
        spec_op_entry(MASK_EXACT, 0x52f9, "shi_8_al", "SHI", Size::Byte, Decoder::Ea, Validator::Always),
        spec_op_entry(MASK_EXACT, 0x52f8, "shi_8_aw", "SHI", Size::Byte, Decoder::Ea, Validator::Always),
        spec_op_entry(MASK_OUT_Y, 0x52c0, "shi_8_dn", "SHI", Size::Byte, Decoder::Ea, Validator::Always),
        spec_op_entry(MASK_OUT_Y, 0x52e8, "shi_8_di", "SHI", Size::Byte, Decoder::Ea, Validator::Always),
        spec_op_entry(MASK_OUT_Y, 0x52f0, "shi_8_ix", "SHI", Size::Byte, Decoder::Ea, Validator::Always),
        spec_op_entry(MASK_OUT_Y, 0x52e0, "shi_8_pd", "SHI", Size::Byte, Decoder::Ea, Validator::Always),
        spec_op_entry(MASK_OUT_Y, 0x52d8, "shi_8_pi", "SHI", Size::Byte, Decoder::Ea, Validator::Always),
        spec_op_entry(MASK_OUT_Y, 0x5fd0, "sle_8_ai", "SLE", Size::Byte, Decoder::Ea, Validator::Always),
        spec_op_entry(MASK_EXACT, 0x5ff9, "sle_8_al", "SLE", Size::Byte, Decoder::Ea, Validator::Always),
        spec_op_entry(MASK_EXACT, 0x5ff8, "sle_8_aw", "SLE", Size::Byte, Decoder::Ea, Validator::Always),
        spec_op_entry(MASK_OUT_Y, 0x5fc0, "sle_8_dn", "SLE", Size::Byte, Decoder::Ea, Validator::Always),
        spec_op_entry(MASK_OUT_Y, 0x5fe8, "sle_8_di", "SLE", Size::Byte, Decoder::Ea, Validator::Always),
        spec_op_entry(MASK_OUT_Y, 0x5ff0, "sle_8_ix", "SLE", Size::Byte, Decoder::Ea, Validator::Always),
        spec_op_entry(MASK_OUT_Y, 0x5fe0, "sle_8_pd", "SLE", Size::Byte, Decoder::Ea, Validator::Always),
        spec_op_entry(MASK_OUT_Y, 0x5fd8, "sle_8_pi", "SLE", Size::Byte, Decoder::Ea, Validator::Always),
        spec_op_entry(MASK_OUT_Y, 0x53d0, "sls_8_ai", "SLS", Size::Byte, Decoder::Ea, Validator::Always),
        spec_op_entry(MASK_EXACT, 0x53f9, "sls_8_al", "SLS", Size::Byte, Decoder::Ea, Validator::Always),
        spec_op_entry(MASK_EXACT, 0x53f8, "sls_8_aw", "SLS", Size::Byte, Decoder::Ea, Validator::Always),
        spec_op_entry(MASK_OUT_Y, 0x53c0, "sls_8_dn", "SLS", Size::Byte, Decoder::Ea, Validator::Always),
    ]
}

fn push_rules_40(v: &mut Vec<OpcodeHandler>)
    ensures
        final(v)@ == old(v)@ + rules_40(),
        forall|i: int|
            old(v)@.len() <= i < final(v)@.len() ==> rule_wf(#[trigger] final(v)@[i])
                && rule_decodable(final(v)@[i]),
{
    let ghost v0 = v@;
    v.push(op_entry(MASK_OUT_Y, 0x5ce8, "sge_8_di", "SGE", Size::Byte, Decoder::Ea, Validator::Always));
    v.push(op_entry(MASK_OUT_Y, 0x5cf0, "sge_8_ix", "SGE", Size::Byte, Decoder::Ea, Validator::Always));
    v.push(op_entry(MASK_OUT_Y, 0x5ce0, "sge_8_pd", "SGE", Size::Byte, Decoder::Ea, Validator::Always));
    v.push(op_entry(MASK_OUT_Y, 0x5cd8, "sge_8_pi", "SGE", Size::Byte, Decoder::Ea, Validator::Always));
    v.push(op_entry(MASK_OUT_Y, 0x5ed0, "sgt_8_ai", "SGT", Size::Byte, Decoder::Ea, Validator::Always));
    v.push(op_entry(MASK_EXACT, 0x5ef9, "sgt_8_al", "SGT", Size::Byte, Decoder::Ea, Validator::Always));
    v.push(op_entry(MASK_EXACT, 0x5ef8, "sgt_8_aw", "SGT", Size::Byte, Decoder::Ea, Validator::Always));
    v.push(op_entry(MASK_OUT_Y, 0x5ec0, "sgt_8_dn", "SGT", Size::Byte, Decoder::Ea, Validator::Always));
    v.push(op_entry(MASK_OUT_Y, 0x5ee8, "sgt_8_di", "SGT", Size::Byte, Decoder::Ea, Validator::Always));
    v.push(op_entry(MASK_OUT_Y, 0x5ef0, "sgt_8_ix", "SGT", Size::Byte, Decoder::Ea, Validator::Always));
    v.push(op_entry(MASK_OUT_Y, 0x5ee0, "sgt_8_pd", "SGT", Size::Byte, Decoder::Ea, Validator::Always));
    v.push(op_entry(MASK_OUT_Y, 0x5ed8, "sgt_8_pi", "SGT", Size::Byte, Decoder::Ea, Validator::Always));
    v.push(op_entry(MASK_OUT_Y, 0x52d0, "shi_8_ai", "SHI", Size::Byte, Decoder::Ea, Validator::Always));
    v.push(op_entry(MASK_EXACT, 0x52f9, "shi_8_al", "SHI", Size::Byte, Decoder::Ea, Validator::Always));
    v.push(op_entry(MASK_EXACT, 0x52f8, "shi_8_aw", "SHI", Size::Byte, Decoder::Ea, Validator::Always));
    v.push(op_entry(MASK_OUT_Y, 0x52c0, "shi_8_dn", "SHI", Size::Byte, Decoder::Ea, Validator::Always));
    v.push(op_entry(MASK_OUT_Y, 0x52e8, "shi_8_di", "SHI", Size::Byte, Decoder::Ea, Validator::Always));
    v.push(op_entry(MASK_OUT_Y, 0x52f0, "shi_8_ix", "SHI", Size::Byte, Decoder::Ea, Validator::Always));
    v.push(op_entry(MASK_OUT_Y, 0x52e0, "shi_8_pd", "SHI", Size::Byte, Decoder::Ea, Validator::Always));
    v.push(op_entry(MASK_OUT_Y, 0x52d8, "shi_8_pi", "SHI", Size::Byte, Decoder::Ea, Validator::Always));
    v.push(op_entry(MASK_OUT_Y, 0x5fd0, "sle_8_ai", "SLE", Size::Byte, Decoder::Ea, Validator::Always));
    v.push(op_entry(MASK_EXACT, 0x5ff9, "sle_8_al", "SLE", Size::Byte, Decoder::Ea, Validator::Always));
    v.push(op_entry(MASK_EXACT, 0x5ff8, "sle_8_aw", "SLE", Size::Byte, Decoder::Ea, Validator::Always));
    v.push(op_entry(MASK_OUT_Y, 0x5fc0, "sle_8_dn", "SLE", Size::Byte, Decoder::Ea, Validator::Always));
    v.push(op_entry(MASK_OUT_Y, 0x5fe8, "sle_8_di", "SLE", Size::Byte, Decoder::Ea, Validator::Always));
    v.push(op_entry(MASK_OUT_Y, 0x5ff0, "sle_8_ix", "SLE", Size::Byte, Decoder::Ea, Validator::Always));
    v.push(op_entry(MASK_OUT_Y, 0x5fe0, "sle_8_pd", "SLE", Size::Byte, Decoder::Ea, Validator::Always));
    v.push(op_entry(MASK_OUT_Y, 0x5fd8, "sle_8_pi", "SLE", Size::Byte, Decoder::Ea, Validator::Always));
    v.push(op_entry(MASK_OUT_Y, 0x53d0, "sls_8_ai", "SLS", Size::Byte, Decoder::Ea, Validator::Always));
    v.push(op_entry(MASK_EXACT, 0x53f9, "sls_8_al", "SLS", Size::Byte, Decoder::Ea, Validator::Always));
    v.push(op_entry(MASK_EXACT, 0x53f8, "sls_8_aw", "SLS", Size::Byte, Decoder::Ea, Validator::Always));
    v.push(op_entry(MASK_OUT_Y, 0x53c0, "sls_8_dn", "SLS", Size::Byte, Decoder::Ea, Validator::Always));
    proof {
        assert(v@ =~= v0 + rules_40());
    }
}

/// Rules sls_8_di through spl_8_dn.
pub open spec fn rules_41() -> Seq<OpcodeHandler> {
    seq![
        spec_op_entry(MASK_OUT_Y, 0x53e8, "sls_8_di", "SLS", Size::Byte, Decoder::Ea, Validator::Always),
        spec_op_entry(MASK_OUT_Y, 0x53f0, "sls_8_ix", "SLS", Size::Byte, Decoder::Ea, Validator::Always),
        spec_op_entry(MASK_OUT_Y, 0x53e0, "sls_8_pd", "SLS", Size::Byte, Decoder::Ea, Validator::Always),
        spec_op_entry(MASK_OUT_Y, 0x53d8, "sls_8_pi", "SLS", Size::Byte, Decoder::Ea, Validator::Always),
        spec_op_entry(MASK_OUT_Y, 0x5dd0, "slt_8_ai", "SLT", Size::Byte, Decoder::Ea, Validator::Always),
        spec_op_entry(MASK_EXACT, 0x5df9, "slt_8_al", "SLT", Size::Byte, Decoder::Ea, Validator::Always),
        spec_op_entry(MASK_EXACT, 0x5df8, "slt_8_aw", "SLT", Size::Byte, Decoder::Ea, Validator::Always),
        spec_op_entry(MASK_OUT_Y, 0x5dc0, "slt_8_dn", "SLT", Size::Byte, Decoder::Ea, Validator::Always),
        spec_op_entry(MASK_OUT_Y, 0x5de8, "slt_8_di", "SLT", Size::Byte, Decoder::Ea, Validator::Always),
        spec_op_entry(MASK_OUT_Y, 0x5df0, "slt_8_ix", "SLT", Size::Byte, Decoder::Ea, Validator::Always),
        spec_op_entry(MASK_OUT_Y, 0x5de0, "slt_8_pd", "SLT", Size::Byte, Decoder::Ea, Validator::Always),
        spec_op_entry(MASK_OUT_Y, 0x5dd8, "slt_8_pi", "SLT", Size::Byte, Decoder::Ea, Validator::Always),
        spec_op_entry(MASK_OUT_Y, 0x5bd0, "smi_8_ai", "SMI", Size::Byte, Decoder::Ea, Validator::Always),
        spec_op_entry(MASK_EXACT, 0x5bf9, "smi_8_al", "SMI", Size::Byte, Decoder::Ea, Validator::Always),
        spec_op_entry(MASK_EXACT, 0x5bf8, "smi_8_aw", "SMI", Size::Byte, Decoder::Ea, Validator::Always),
        spec_op_entry(MASK_OUT_Y, 0x5bc0, "smi_8_dn", "SMI", Size::Byte, Decoder::Ea, Validator::Always),
        spec_op_entry(MASK_OUT_Y, 0x5be8, "smi_8_di", "SMI", Size::Byte, Decoder::Ea, Validator::Always),
        spec_op_entry(MASK_OUT_Y, 0x5bf0, "smi_8_ix", "SMI", Size::Byte, Decoder::Ea, Validator::Always),
        spec_op_entry(MASK_OUT_Y, 0x5be0, "smi_8_pd", "SMI", Size::Byte, Decoder::Ea, Validator::Always),
        spec_op_entry(MASK_OUT_Y, 0x5bd8, "smi_8_pi", "SMI", Size::Byte, Decoder::Ea, Validator::Always),
        spec_op_entry(MASK_OUT_Y, 0x56d0, "sne_8_ai", "SNE", Size::Byte, Decoder::Ea, Validator::Always),
        spec_op_entry(MASK_EXACT, 0x56f9, "sne_8_al", "SNE", Size::Byte, Decoder::Ea, Validator::Always),
        spec_op_entry(MASK_EXACT, 0x56f8, "sne_8_aw", "SNE", Size::Byte, Decoder::Ea, Validator::Always),
        spec_op_entry(MASK_OUT_Y, 0x56c0, "sne_8_dn", "SNE", Size::Byte, Decoder::Ea, Validator::Always),
        spec_op_entry(MASK_OUT_Y, 0x56e8, "sne_8_di", "SNE", Size::Byte, Decoder::Ea, Validator::Always),
        spec_op_entry(MASK_OUT_Y, 0x56f0, "sne_8_ix", "SNE", Size::Byte, Decoder::Ea, Validator::Always),
        spec_op_entry(MASK_OUT_Y, 0x56e0, "sne_8_pd", "SNE", Size::Byte, Decoder::Ea, Validator::Always),
        spec_op_entry(MASK_OUT_Y, 0x56d8, "sne_8_pi", "SNE", Size::Byte, Decoder::Ea, Validator::Always),
        spec_op_entry(MASK_OUT_Y, 0x5ad0, "spl_8_ai", "SPL", Size::Byte, Decoder::Ea, Validator::Always),
        spec_op_entry(MASK_EXACT, 0x5af9, "spl_8_al", "SPL", Size::Byte, Decoder::Ea, Validator::Always),
        spec_op_entry(MASK_EXACT, 0x5af8, "spl_8_aw", "SPL", Size::Byte, Decoder::Ea, Validator::Always),
        spec_op_entry(MASK_OUT_Y, 0x5ac0, "spl_8_dn", "SPL", Size::Byte, Decoder::Ea, Validator::Always),
    ]
}

fn push_rules_41(v: &mut Vec<OpcodeHandler>)
    ensures
        final(v)@ == old(v)@ + rules_41(),
        forall|i: int|
            old(v)@.len() <= i < final(v)@.len() ==> rule_wf(#[trigger] final(v)@[i])
                && rule_decodable(final(v)@[i]),
{
    let ghost v0 = v@;
    v.push(op_entry(MASK_OUT_Y, 0x53e8, "sls_8_di", "SLS", Size::Byte, Decoder::Ea, Validator::Always));
    v.push(op_entry(MASK_OUT_Y, 0x53f0, "sls_8_ix", "SLS", Size::Byte, Decoder::Ea, Validator::Always));
    v.push(op_entry(MASK_OUT_Y, 0x53e0, "sls_8_pd", "SLS", Size::Byte, Decoder::Ea, Validator::Always));
    v.push(op_entry(MASK_OUT_Y, 0x53d8, "sls_8_pi", "SLS", Size::Byte, Decoder::Ea, Validator::Always));
    v.push(op_entry(MASK_OUT_Y, 0x5dd0, "slt_8_ai", "SLT", Size::Byte, Decoder::Ea, Validator::Always));
    v.push(op_entry(MASK_EXACT, 0x5df9, "slt_8_al", "SLT", Size::Byte, Decoder::Ea, Validator::Always));
    v.push(op_entry(MASK_EXACT, 0x5df8, "slt_8_aw", "SLT", Size::Byte, Decoder::Ea, Validator::Always));
    v.push(op_entry(MASK_OUT_Y, 0x5dc0, "slt_8_dn", "SLT", Size::Byte, Decoder::Ea, Validator::Always));
    v.push(op_entry(MASK_OUT_Y, 0x5de8, "slt_8_di", "SLT", Size::Byte, Decoder::Ea, Validator::Always));
    v.push(op_entry(MASK_OUT_Y, 0x5df0, "slt_8_ix", "SLT", Size::Byte, Decoder::Ea, Validator::Always));
    v.push(op_entry(MASK_OUT_Y, 0x5de0, "slt_8_pd", "SLT", Size::Byte, Decoder::Ea, Validator::Always));
    v.push(op_entry(MASK_OUT_Y, 0x5dd8, "slt_8_pi", "SLT", Size::Byte, Decoder::Ea, Validator::Always));
    v.push(op_entry(MASK_OUT_Y, 0x5bd0, "smi_8_ai", "SMI", Size::Byte, Decoder::Ea, Validator::Always));
    v.push(op_entry(MASK_EXACT, 0x5bf9, "smi_8_al", "SMI", Size::Byte, Decoder::Ea, Validator::Always));
    v.push(op_entry(MASK_EXACT, 0x5bf8, "smi_8_aw", "SMI", Size::Byte, Decoder::Ea, Validator::Always));
    v.push(op_entry(MASK_OUT_Y, 0x5bc0, "smi_8_dn", "SMI", Size::Byte, Decoder::Ea, Validator::Always));
    v.push(op_entry(MASK_OUT_Y, 0x5be8, "smi_8_di", "SMI", Size::Byte, Decoder::Ea, Validator::Always));
    v.push(op_entry(MASK_OUT_Y, 0x5bf0, "smi_8_ix", "SMI", Size::Byte, Decoder::Ea, Validator::Always));
    v.push(op_entry(MASK_OUT_Y, 0x5be0, "smi_8_pd", "SMI", Size::Byte, Decoder::Ea, Validator::Always));
    v.push(op_entry(MASK_OUT_Y, 0x5bd8, "smi_8_pi", "SMI", Size::Byte, Decoder::Ea, Validator::Always));
    v.push(op_entry(MASK_OUT_Y, 0x56d0, "sne_8_ai", "SNE", Size::Byte, Decoder::Ea, Validator::Always));
    v.push(op_entry(MASK_EXACT, 0x56f9, "sne_8_al", "SNE", Size::Byte, Decoder::Ea, Validator::Always));
    v.push(op_entry(MASK_EXACT, 0x56f8, "sne_8_aw", "SNE", Size::Byte, Decoder::Ea, Validator::Always));
    v.push(op_entry(MASK_OUT_Y, 0x56c0, "sne_8_dn", "SNE", Size::Byte, Decoder::Ea, Validator::Always));
    v.push(op_entry(MASK_OUT_Y, 0x56e8, "sne_8_di", "SNE", Size::Byte, Decoder::Ea, Validator::Always));
    v.push(op_entry(MASK_OUT_Y, 0x56f0, "sne_8_ix", "SNE", Size::Byte, Decoder::Ea, Validator::Always));
    v.push(op_entry(MASK_OUT_Y, 0x56e0, "sne_8_pd", "SNE", Size::Byte, Decoder::Ea, Validator::Always));
    v.push(op_entry(MASK_OUT_Y, 0x56d8, "sne_8_pi", "SNE", Size::Byte, Decoder::Ea, Validator::Always));
    v.push(op_entry(MASK_OUT_Y, 0x5ad0, "spl_8_ai", "SPL", Size::Byte, Decoder::Ea, Validator::Always));
    v.push(op_entry(MASK_EXACT, 0x5af9, "spl_8_al", "SPL", Size::Byte, Decoder::Ea, Validator::Always));
    v.push(op_entry(MASK_EXACT, 0x5af8, "spl_8_aw", "SPL", Size::Byte, Decoder::Ea, Validator::Always));
    v.push(op_entry(MASK_OUT_Y, 0x5ac0, "spl_8_dn", "SPL", Size::Byte, Decoder::Ea, Validator::Always));
    proof {
        assert(v@ =~= v0 + rules_41());
    }
}

/// Rules spl_8_di through sub_8_er_pi.
pub open spec fn rules_42() -> Seq<OpcodeHandler> {
    seq![
        spec_op_entry(MASK_OUT_Y, 0x5ae8, "spl_8_di", "SPL", Size::Byte, Decoder::Ea, Validator::Always),
        spec_op_entry(MASK_OUT_Y, 0x5af0, "spl_8_ix", "SPL", Size::Byte, Decoder::Ea, Validator::Always),
        spec_op_entry(MASK_OUT_Y, 0x5ae0, "spl_8_pd", "SPL", Size::Byte, Decoder::Ea, Validator::Always),
        spec_op_entry(MASK_OUT_Y, 0x5ad8, "spl_8_pi", "SPL", Size::Byte, Decoder::Ea, Validator::Always),
        spec_op_entry(MASK_OUT_Y, 0x50d0, "st_8_ai", "ST", Size::Byte, Decoder::Ea, Validator::Always),
        spec_op_entry(MASK_EXACT, 0x50f9, "st_8_al", "ST", Size::Byte, Decoder::Ea, Validator::Always),
        spec_op_entry(MASK_EXACT, 0x50f8, "st_8_aw", "ST", Size::Byte, Decoder::Ea, Validator::Always),
        spec_op_entry(MASK_OUT_Y, 0x50c0, "st_8_dn", "ST", Size::Byte, Decoder::Ea, Validator::Always),
        spec_op_entry(MASK_OUT_Y, 0x50e8, "st_8_di", "ST", Size::Byte, Decoder::Ea, Validator::Always),
        spec_op_entry(MASK_OUT_Y, 0x50f0, "st_8_ix", "ST", Size::Byte, Decoder::Ea, Validator::Always),
        spec_op_entry(MASK_OUT_Y, 0x50e0, "st_8_pd", "ST", Size::Byte, Decoder::Ea, Validator::Always),
        spec_op_entry(MASK_OUT_Y, 0x50d8, "st_8_pi", "ST", Size::Byte, Decoder::Ea, Validator::Always),
        spec_op_entry(MASK_OUT_Y, 0x58d0, "svc_8_ai", "SVC", Size::Byte, Decoder::Ea, Validator::Always),
        spec_op_entry(MASK_EXACT, 0x58f9, "svc_8_al", "SVC", Size::Byte, Decoder::Ea, Validator::Always),
        spec_op_entry(MASK_EXACT, 0x58f8, "svc_8_aw", "SVC", Size::Byte, Decoder::Ea, Validator::Always),
        spec_op_entry(MASK_OUT_Y, 0x58c0, "svc_8_dn", "SVC", Size::Byte, Decoder::Ea, Validator::Always),
        spec_op_entry(MASK_OUT_Y, 0x58e8, "svc_8_di", "SVC", Size::Byte, Decoder::Ea, Validator::Always),
        spec_op_entry(MASK_OUT_Y, 0x58f0, "svc_8_ix", "SVC", Size::Byte, Decoder::Ea, Validator::Always),
        spec_op_entry(MASK_OUT_Y, 0x58e0, "svc_8_pd", "SVC", Size::Byte, Decoder::Ea, Validator::Always),
        spec_op_entry(MASK_OUT_Y, 0x58d8, "svc_8_pi", "SVC", Size::Byte, Decoder::Ea, Validator::Always),
        spec_op_entry(MASK_OUT_Y, 0x59d0, "svs_8_ai", "SVS", Size::Byte, Decoder::Ea, Validator::Always),
        spec_op_entry(MASK_EXACT, 0x59f9, "svs_8_al", "SVS", Size::Byte, Decoder::Ea, Validator::Always),
        spec_op_entry(MASK_EXACT, 0x59f8, "svs_8_aw", "SVS", Size::Byte, Decoder::Ea, Validator::Always),
        spec_op_entry(MASK_OUT_Y, 0x59c0, "svs_8_dn", "SVS", Size::Byte, Decoder::Ea, Validator::Always),
        spec_op_entry(MASK_OUT_Y, 0x59e8, "svs_8_di", "SVS", Size::Byte, Decoder::Ea, Validator::Always),
        spec_op_entry(MASK_OUT_Y, 0x59f0, "svs_8_ix", "SVS", Size::Byte, Decoder::Ea, Validator::Always),
        spec_op_entry(MASK_OUT_Y, 0x59e0, "svs_8_pd", "SVS", Size::Byte, Decoder::Ea, Validator::Always),
        spec_op_entry(MASK_OUT_Y, 0x59d8, "svs_8_pi", "SVS", Size::Byte, Decoder::Ea, Validator::Always),
        spec_op_entry(MASK_EXACT, 0x4e72, "stop", "STOP", Size::Unsized, Decoder::Imm16, Validator::Always),
        spec_op_entry(MASK_OUT_X_Y, 0x9000, "sub_8_er_dn", "SUB", Size::Byte, Decoder::EaDx, Validator::Always),
        spec_op_entry(MASK_OUT_X_Y, 0x9010, "sub_8_er_ai", "SUB", Size::Byte, Decoder::EaDx, Validator::Always),
        spec_op_entry(MASK_OUT_X_Y, 0x9018, "sub_8_er_pi", "SUB", Size::Byte, Decoder::EaDx, Validator::Always),
    ]
}

fn push_rules_42(v: &mut Vec<OpcodeHandler>)
    ensures
        final(v)@ == old(v)@ + rules_42(),
        forall|i: int|
            old(v)@.len() <= i < final(v)@.len() ==> rule_wf(#[trigger] final(v)@[i])
                && rule_decodable(final(v)@[i]),
{
    let ghost v0 = v@;
    v.push(op_entry(MASK_OUT_Y, 0x5ae8, "spl_8_di", "SPL", Size::Byte, Decoder::Ea, Validator::Always));
    v.push(op_entry(MASK_OUT_Y, 0x5af0, "spl_8_ix", "SPL", Size::Byte, Decoder::Ea, Validator::Always));
    v.push(op_entry(MASK_OUT_Y, 0x5ae0, "spl_8_pd", "SPL", Size::Byte, Decoder::Ea, Validator::Always));
    v.push(op_entry(MASK_OUT_Y, 0x5ad8, "spl_8_pi", "SPL", Size::Byte, Decoder::Ea, Validator::Always));
    v.push(op_entry(MASK_OUT_Y, 0x50d0, "st_8_ai", "ST", Size::Byte, Decoder::Ea, Validator::Always));
    v.push(op_entry(MASK_EXACT, 0x50f9, "st_8_al", "ST", Size::Byte, Decoder::Ea, Validator::Always));
    v.push(op_entry(MASK_EXACT, 0x50f8, "st_8_aw", "ST", Size::Byte, Decoder::Ea, Validator::Always));
    v.push(op_entry(MASK_OUT_Y, 0x50c0, "st_8_dn", "ST", Size::Byte, Decoder::Ea, Validator::Always));
    v.push(op_entry(MASK_OUT_Y, 0x50e8, "st_8_di", "ST", Size::Byte, Decoder::Ea, Validator::Always));
    v.push(op_entry(MASK_OUT_Y, 0x50f0, "st_8_ix", "ST", Size::Byte, Decoder::Ea, Validator::Always));
    v.push(op_entry(MASK_OUT_Y, 0x50e0, "st_8_pd", "ST", Size::Byte, Decoder::Ea, Validator::Always));
    v.push(op_entry(MASK_OUT_Y, 0x50d8, "st_8_pi", "ST", Size::Byte, Decoder::Ea, Validator::Always));
    v.push(op_entry(MASK_OUT_Y, 0x58d0, "svc_8_ai", "SVC", Size::Byte, Decoder::Ea, Validator::Always));
    v.push(op_entry(MASK_EXACT, 0x58f9, "svc_8_al", "SVC", Size::Byte, Decoder::Ea, Validator::Always));
    v.push(op_entry(MASK_EXACT, 0x58f8, "svc_8_aw", "SVC", Size::Byte, Decoder::Ea, Validator::Always));
    v.push(op_entry(MASK_OUT_Y, 0x58c0, "svc_8_dn", "SVC", Size::Byte, Decoder::Ea, Validator::Always));
    v.push(op_entry(MASK_OUT_Y, 0x58e8, "svc_8_di", "SVC", Size::Byte, Decoder::Ea, Validator::Always));
    v.push(op_entry(MASK_OUT_Y, 0x58f0, "svc_8_ix", "SVC", Size::Byte, Decoder::Ea, Validator::Always));
    v.push(op_entry(MASK_OUT_Y, 0x58e0, "svc_8_pd", "SVC", Size::Byte, Decoder::Ea, Validator::Always));
    v.push(op_entry(MASK_OUT_Y, 0x58d8, "svc_8_pi", "SVC", Size::Byte, Decoder::Ea, Validator::Always));
    v.push(op_entry(MASK_OUT_Y, 0x59d0, "svs_8_ai", "SVS", Size::Byte, Decoder::Ea, Validator::Always));
    v.push(op_entry(MASK_EXACT, 0x59f9, "svs_8_al", "SVS", Size::Byte, Decoder::Ea, Validator::Always));
    v.push(op_entry(MASK_EXACT, 0x59f8, "svs_8_aw", "SVS", Size::Byte, Decoder::Ea, Validator::Always));
    v.push(op_entry(MASK_OUT_Y, 0x59c0, "svs_8_dn", "SVS", Size::Byte, Decoder::Ea, Validator::Always));
    v.push(op_entry(MASK_OUT_Y, 0x59e8, "svs_8_di", "SVS", Size::Byte, Decoder::Ea, Validator::Always));
    v.push(op_entry(MASK_OUT_Y, 0x59f0, "svs_8_ix", "SVS", Size::Byte, Decoder::Ea, Validator::Always));
    v.push(op_entry(MASK_OUT_Y, 0x59e0, "svs_8_pd", "SVS", Size::Byte, Decoder::Ea, Validator::Always));
    v.push(op_entry(MASK_OUT_Y, 0x59d8, "svs_8_pi", "SVS", Size::Byte, Decoder::Ea, Validator::Always));
    v.push(op_entry(MASK_EXACT, 0x4e72, "stop", "STOP", Size::Unsized, Decoder::Imm16, Validator::Always));
    v.push(op_entry(MASK_OUT_X_Y, 0x9000, "sub_8_er_dn", "SUB", Size::Byte, Decoder::EaDx, Validator::Always));
    v.push(op_entry(MASK_OUT_X_Y, 0x9010, "sub_8_er_ai", "SUB", Size::Byte, Decoder::EaDx, Validator::Always));
    v.push(op_entry(MASK_OUT_X_Y, 0x9018, "sub_8_er_pi", "SUB", Size::Byte, Decoder::EaDx, Validator::Always));
    proof {
        assert(v@ =~= v0 + rules_42());
    }
}

/// Rules sub_8_er_pd through sub_16_re_ix.
pub open spec fn rules_43() -> Seq<OpcodeHandler> {
    seq![
        spec_op_entry(MASK_OUT_X_Y, 0x9020, "sub_8_er_pd", "SUB", Size::Byte, Decoder::EaDx, Validator::Always),
        spec_op_entry(MASK_OUT_X_Y, 0x9028, "sub_8_er_di", "SUB", Size::Byte, Decoder::EaDx, Validator::Always),
        spec_op_entry(MASK_OUT_X_Y, 0x9030, "sub_8_er_ix", "SUB", Size::Byte, Decoder::EaDx, Validator::Always),
        spec_op_entry(MASK_OUT_X, 0x9038, "sub_8_er_aw", "SUB", Size::Byte, Decoder::EaDx, Validator::Always),
        spec_op_entry(MASK_OUT_X, 0x9039, "sub_8_er_al", "SUB", Size::Byte, Decoder::EaDx, Validator::Always),
        spec_op_entry(MASK_OUT_X, 0x903a, "sub_8_er_pcdi", "SUB", Size::Byte, Decoder::EaDx, Validator::Always),
        spec_op_entry(MASK_OUT_X, 0x903b, "sub_8_er_pcix", "SUB", Size::Byte, Decoder::EaDx, Validator::Always),
        spec_op_entry(MASK_OUT_X, 0x903c, "sub_8_er_imm", "SUB", Size::Byte, Decoder::EaDx, Validator::Always),
        spec_op_entry(MASK_OUT_X_Y, 0x9110, "sub_8_re_ai", "SUB", Size::Byte, Decoder::DxEa, Validator::Always),
        spec_op_entry(MASK_OUT_X_Y, 0x9118, "sub_8_re_pi", "SUB", Size::Byte, Decoder::DxEa, Validator::Always),
        spec_op_entry(MASK_OUT_X_Y, 0x9120, "sub_8_re_pd", "SUB", Size::Byte, Decoder::DxEa, Validator::Always),
        spec_op_entry(MASK_OUT_X_Y, 0x9128, "sub_8_re_di", "SUB", Size::Byte, Decoder::DxEa, Validator::Always),
        spec_op_entry(MASK_OUT_X_Y, 0x9130, "sub_8_re_ix", "SUB", Size::Byte, Decoder::DxEa, Validator::Always),
        spec_op_entry(MASK_OUT_X, 0x9138, "sub_8_re_aw", "SUB", Size::Byte, Decoder::DxEa, Validator::Always),
        spec_op_entry(MASK_OUT_X, 0x9139, "sub_8_re_al", "SUB", Size::Byte, Decoder::DxEa, Validator::Always),
        spec_op_entry(MASK_OUT_X_Y, 0x9040, "sub_16_er_dn", "SUB", Size::Word, Decoder::EaDx, Validator::Always),
        spec_op_entry(MASK_OUT_X_Y, 0x9048, "sub_16_er_an", "SUB", Size::Word, Decoder::EaDx, Validator::Always),
        spec_op_entry(MASK_OUT_X_Y, 0x9050, "sub_16_er_ai", "SUB", Size::Word, Decoder::EaDx, Validator::Always),
        spec_op_entry(MASK_OUT_X_Y, 0x9058, "sub_16_er_pi", "SUB", Size::Word, Decoder::EaDx, Validator::Always),
        spec_op_entry(MASK_OUT_X_Y, 0x9060, "sub_16_er_pd", "SUB", Size::Word, Decoder::EaDx, Validator::Always),
        spec_op_entry(MASK_OUT_X_Y, 0x9068, "sub_16_er_di", "SUB", Size::Word, Decoder::EaDx, Validator::Always),
        spec_op_entry(MASK_OUT_X_Y, 0x9070, "sub_16_er_ix", "SUB", Size::Word, Decoder::EaDx, Validator::Always),
        spec_op_entry(MASK_OUT_X, 0x9078, "sub_16_er_aw", "SUB", Size::Word, Decoder::EaDx, Validator::Always),
        spec_op_entry(MASK_OUT_X, 0x9079, "sub_16_er_al", "SUB", Size::Word, Decoder::EaDx, Validator::Always),
        spec_op_entry(MASK_OUT_X, 0x907a, "sub_16_er_pcdi", "SUB", Size::Word, Decoder::EaDx, Validator::Always),
        spec_op_entry(MASK_OUT_X, 0x907b, "sub_16_er_pcix", "SUB", Size::Word, Decoder::EaDx, Validator::Always),
        spec_op_entry(MASK_OUT_X, 0x907c, "sub_16_er_imm", "SUB", Size::Word, Decoder::EaDx, Validator::Always),
        spec_op_entry(MASK_OUT_X_Y, 0x9150, "sub_16_re_ai", "SUB", Size::Word, Decoder::DxEa, Validator::Always),
        spec_op_entry(MASK_OUT_X_Y, 0x9158, "sub_16_re_pi", "SUB", Size::Word, Decoder::DxEa, Validator::Always),
        spec_op_entry(MASK_OUT_X_Y, 0x9160, "sub_16_re_pd", "SUB", Size::Word, Decoder::DxEa, Validator::Always),
        spec_op_entry(MASK_OUT_X_Y, 0x9168, "sub_16_re_di", "SUB", Size::Word, Decoder::DxEa, Validator::Always),
        spec_op_entry(MASK_OUT_X_Y, 0x9170, "sub_16_re_ix", "SUB", Size::Word, Decoder::DxEa, Validator::Always),
    ]
}

fn push_rules_43(v: &mut Vec<OpcodeHandler>)
    ensures
        final(v)@ == old(v)@ + rules_43(),
        forall|i: int|
            old(v)@.len() <= i < final(v)@.len() ==> rule_wf(#[trigger] final(v)@[i])
                && rule_decodable(final(v)@[i]),
{
    let ghost v0 = v@;
    v.push(op_entry(MASK_OUT_X_Y, 0x9020, "sub_8_er_pd", "SUB", Size::Byte, Decoder::EaDx, Validator::Always));
    v.push(op_entry(MASK_OUT_X_Y, 0x9028, "sub_8_er_di", "SUB", Size::Byte, Decoder::EaDx, Validator::Always));
    v.push(op_entry(MASK_OUT_X_Y, 0x9030, "sub_8_er_ix", "SUB", Size::Byte, Decoder::EaDx, Validator::Always));
    v.push(op_entry(MASK_OUT_X, 0x9038, "sub_8_er_aw", "SUB", Size::Byte, Decoder::EaDx, Validator::Always));
    v.push(op_entry(MASK_OUT_X, 0x9039, "sub_8_er_al", "SUB", Size::Byte, Decoder::EaDx, Validator::Always));
    v.push(op_entry(MASK_OUT_X, 0x903a, "sub_8_er_pcdi", "SUB", Size::Byte, Decoder::EaDx, Validator::Always));
    v.push(op_entry(MASK_OUT_X, 0x903b, "sub_8_er_pcix", "SUB", Size::Byte, Decoder::EaDx, Validator::Always));
    v.push(op_entry(MASK_OUT_X, 0x903c, "sub_8_er_imm", "SUB", Size::Byte, Decoder::EaDx, Validator::Always));
    v.push(op_entry(MASK_OUT_X_Y, 0x9110, "sub_8_re_ai", "SUB", Size::Byte, Decoder::DxEa, Validator::Always));
    v.push(op_entry(MASK_OUT_X_Y, 0x9118, "sub_8_re_pi", "SUB", Size::Byte, Decoder::DxEa, Validator::Always));
    v.push(op_entry(MASK_OUT_X_Y, 0x9120, "sub_8_re_pd", "SUB", Size::Byte, Decoder::DxEa, Validator::Always));
    v.push(op_entry(MASK_OUT_X_Y, 0x9128, "sub_8_re_di", "SUB", Size::Byte, Decoder::DxEa, Validator::Always));
    v.push(op_entry(MASK_OUT_X_Y, 0x9130, "sub_8_re_ix", "SUB", Size::Byte, Decoder::DxEa, Validator::Always));
    v.push(op_entry(MASK_OUT_X, 0x9138, "sub_8_re_aw", "SUB", Size::Byte, Decoder::DxEa, Validator::Always));
    v.push(op_entry(MASK_OUT_X, 0x9139, "sub_8_re_al", "SUB", Size::Byte, Decoder::DxEa, Validator::Always));
    v.push(op_entry(MASK_OUT_X_Y, 0x9040, "sub_16_er_dn", "SUB", Size::Word, Decoder::EaDx, Validator::Always));
    v.push(op_entry(MASK_OUT_X_Y, 0x9048, "sub_16_er_an", "SUB", Size::Word, Decoder::EaDx, Validator::Always));
    v.push(op_entry(MASK_OUT_X_Y, 0x9050, "sub_16_er_ai", "SUB", Size::Word, Decoder::EaDx, Validator::Always));
    v.push(op_entry(MASK_OUT_X_Y, 0x9058, "sub_16_er_pi", "SUB", Size::Word, Decoder::EaDx, Validator::Always));
    v.push(op_entry(MASK_OUT_X_Y, 0x9060, "sub_16_er_pd", "SUB", Size::Word, Decoder::EaDx, Validator::Always));
    v.push(op_entry(MASK_OUT_X_Y, 0x9068, "sub_16_er_di", "SUB", Size::Word, Decoder::EaDx, Validator::Always));
    v.push(op_entry(MASK_OUT_X_Y, 0x9070, "sub_16_er_ix", "SUB", Size::Word, Decoder::EaDx, Validator::Always));
    v.push(op_entry(MASK_OUT_X, 0x9078, "sub_16_er_aw", "SUB", Size::Word, Decoder::EaDx, Validator::Always));
    v.push(op_entry(MASK_OUT_X, 0x9079, "sub_16_er_al", "SUB", Size::Word, Decoder::EaDx, Validator::Always));
    v.push(op_entry(MASK_OUT_X, 0x907a, "sub_16_er_pcdi", "SUB", Size::Word, Decoder::EaDx, Validator::Always));
    v.push(op_entry(MASK_OUT_X, 0x907b, "sub_16_er_pcix", "SUB", Size::Word, Decoder::EaDx, Validator::Always));
    v.push(op_entry(MASK_OUT_X, 0x907c, "sub_16_er_imm", "SUB", Size::Word, Decoder::EaDx, Validator::Always));
    v.push(op_entry(MASK_OUT_X_Y, 0x9150, "sub_16_re_ai", "SUB", Size::Word, Decoder::DxEa, Validator::Always));
    v.push(op_entry(MASK_OUT_X_Y, 0x9158, "sub_16_re_pi", "SUB", Size::Word, Decoder::DxEa, Validator::Always));
    v.push(op_entry(MASK_OUT_X_Y, 0x9160, "sub_16_re_pd", "SUB", Size::Word, Decoder::DxEa, Validator::Always));
    v.push(op_entry(MASK_OUT_X_Y, 0x9168, "sub_16_re_di", "SUB", Size::Word, Decoder::DxEa, Validator::Always));
    v.push(op_entry(MASK_OUT_X_Y, 0x9170, "sub_16_re_ix", "SUB", Size::Word, Decoder::DxEa, Validator::Always));
    proof {
        assert(v@ =~= v0 + rules_43());
    }
}

/// Rules sub_16_re_aw through suba_16_pcix.
pub open spec fn rules_44() -> Seq<OpcodeHandler> {
    seq![
        spec_op_entry(MASK_OUT_X, 0x9178, "sub_16_re_aw", "SUB", Size::Word, Decoder::DxEa, Validator::Always),
        spec_op_entry(MASK_OUT_X, 0x9179, "sub_16_re_al", "SUB", Size::Word, Decoder::DxEa, Validator::Always),
        spec_op_entry(MASK_OUT_X_Y, 0x9080, "sub_32_er_dn", "SUB", Size::Long, Decoder::EaDx, Validator::Always),
        spec_op_entry(MASK_OUT_X_Y, 0x9088, "sub_32_er_an", "SUB", Size::Long, Decoder::EaDx, Validator::Always),
        spec_op_entry(MASK_OUT_X_Y, 0x9090, "sub_32_er_ai", "SUB", Size::Long, Decoder::EaDx, Validator::Always),
        spec_op_entry(MASK_OUT_X_Y, 0x9098, "sub_32_er_pi", "SUB", Size::Long, Decoder::EaDx, Validator::Always),
        spec_op_entry(MASK_OUT_X_Y, 0x90a0, "sub_32_er_pd", "SUB", Size::Long, Decoder::EaDx, Validator::Always),
        spec_op_entry(MASK_OUT_X_Y, 0x90a8, "sub_32_er_di", "SUB", Size::Long, Decoder::EaDx, Validator::Always),
        spec_op_entry(MASK_OUT_X_Y, 0x90b0, "sub_32_er_ix", "SUB", Size::Long, Decoder::EaDx, Validator::Always),
        spec_op_entry(MASK_OUT_X, 0x90b8, "sub_32_er_aw", "SUB", Size::Long, Decoder::EaDx, Validator::Always),
        spec_op_entry(MASK_OUT_X, 0x90b9, "sub_32_er_al", "SUB", Size::Long, Decoder::EaDx, Validator::Always),
        spec_op_entry(MASK_OUT_X, 0x90ba, "sub_32_er_pcdi", "SUB", Size::Long, Decoder::EaDx, Validator::Always),
        spec_op_entry(MASK_OUT_X, 0x90bb, "sub_32_er_pcix", "SUB", Size::Long, Decoder::EaDx, Validator::Always),
        spec_op_entry(MASK_OUT_X, 0x90bc, "sub_32_er_imm", "SUB", Size::Long, Decoder::EaDx, Validator::Always),
        spec_op_entry(MASK_OUT_X_Y, 0x9190, "sub_32_re_ai", "SUB", Size::Long, Decoder::DxEa, Validator::Always),
        spec_op_entry(MASK_OUT_X_Y, 0x9198, "sub_32_re_pi", "SUB", Size::Long, Decoder::DxEa, Validator::Always),
        spec_op_entry(MASK_OUT_X_Y, 0x91a0, "sub_32_re_pd", "SUB", Size::Long, Decoder::DxEa, Validator::Always),
        spec_op_entry(MASK_OUT_X_Y, 0x91a8, "sub_32_re_di", "SUB", Size::Long, Decoder::DxEa, Validator::Always),
        spec_op_entry(MASK_OUT_X_Y, 0x91b0, "sub_32_re_ix", "SUB", Size::Long, Decoder::DxEa, Validator::Always),
        spec_op_entry(MASK_OUT_X, 0x91b8, "sub_32_re_aw", "SUB", Size::Long, Decoder::DxEa, Validator::Always),
        spec_op_entry(MASK_OUT_X, 0x91b9, "sub_32_re_al", "SUB", Size::Long, Decoder::DxEa, Validator::Always),
        spec_op_entry(MASK_OUT_X_Y, 0x90c0, "suba_16_dn", "SUBA", Size::Word, Decoder::EaAx, Validator::Always),
        spec_op_entry(MASK_OUT_X_Y, 0x90c8, "suba_16_an", "SUBA", Size::Word, Decoder::EaAx, Validator::Always),
        spec_op_entry(MASK_OUT_X_Y, 0x90d0, "suba_16_ai", "SUBA", Size::Word, Decoder::EaAx, Validator::Always),
        spec_op_entry(MASK_OUT_X_Y, 0x90d8, "suba_16_pi", "SUBA", Size::Word, Decoder::EaAx, Validator::Always),
        spec_op_entry(MASK_OUT_X_Y, 0x90e0, "suba_16_pd", "SUBA", Size::Word, Decoder::EaAx, Validator::Always),
        spec_op_entry(MASK_OUT_X_Y, 0x90e8, "suba_16_di", "SUBA", Size::Word, Decoder::EaAx, Validator::Always),
        spec_op_entry(MASK_OUT_X_Y, 0x90f0, "suba_16_ix", "SUBA", Size::Word, Decoder::EaAx, Validator::Always),
        spec_op_entry(MASK_OUT_X, 0x90f8, "suba_16_aw", "SUBA", Size::Word, Decoder::EaAx, Validator::Always),
        spec_op_entry(MASK_OUT_X, 0x90f9, "suba_16_al", "SUBA", Size::Word, Decoder::EaAx, Validator::Always),
        spec_op_entry(MASK_OUT_X, 0x90fa, "suba_16_pcdi", "SUBA", Size::Word, Decoder::EaAx, Validator::Always),
        spec_op_entry(MASK_OUT_X, 0x90fb, "suba_16_pcix", "SUBA", Size::Word, Decoder::EaAx, Validator::Always),
    ]
}

fn push_rules_44(v: &mut Vec<OpcodeHandler>)
    ensures
        final(v)@ == old(v)@ + rules_44(),
        forall|i: int|
            old(v)@.len() <= i < final(v)@.len() ==> rule_wf(#[trigger] final(v)@[i])
                && rule_decodable(final(v)@[i]),
{
    let ghost v0 = v@;
    v.push(op_entry(MASK_OUT_X, 0x9178, "sub_16_re_aw", "SUB", Size::Word, Decoder::DxEa, Validator::Always));
    v.push(op_entry(MASK_OUT_X, 0x9179, "sub_16_re_al", "SUB", Size::Word, Decoder::DxEa, Validator::Always));
    v.push(op_entry(MASK_OUT_X_Y, 0x9080, "sub_32_er_dn", "SUB", Size::Long, Decoder::EaDx, Validator::Always));
    v.push(op_entry(MASK_OUT_X_Y, 0x9088, "sub_32_er_an", "SUB", Size::Long, Decoder::EaDx, Validator::Always));
    v.push(op_entry(MASK_OUT_X_Y, 0x9090, "sub_32_er_ai", "SUB", Size::Long, Decoder::EaDx, Validator::Always));
    v.push(op_entry(MASK_OUT_X_Y, 0x9098, "sub_32_er_pi", "SUB", Size::Long, Decoder::EaDx, Validator::Always));
    v.push(op_entry(MASK_OUT_X_Y, 0x90a0, "sub_32_er_pd", "SUB", Size::Long, Decoder::EaDx, Validator::Always));
    v.push(op_entry(MASK_OUT_X_Y, 0x90a8, "sub_32_er_di", "SUB", Size::Long, Decoder::EaDx, Validator::Always));
    v.push(op_entry(MASK_OUT_X_Y, 0x90b0, "sub_32_er_ix", "SUB", Size::Long, Decoder::EaDx, Validator::Always));
    v.push(op_entry(MASK_OUT_X, 0x90b8, "sub_32_er_aw", "SUB", Size::Long, Decoder::EaDx, Validator::Always));
    v.push(op_entry(MASK_OUT_X, 0x90b9, "sub_32_er_al", "SUB", Size::Long, Decoder::EaDx, Validator::Always));
    v.push(op_entry(MASK_OUT_X, 0x90ba, "sub_32_er_pcdi", "SUB", Size::Long, Decoder::EaDx, Validator::Always));
    v.push(op_entry(MASK_OUT_X, 0x90bb, "sub_32_er_pcix", "SUB", Size::Long, Decoder::EaDx, Validator::Always));
    v.push(op_entry(MASK_OUT_X, 0x90bc, "sub_32_er_imm", "SUB", Size::Long, Decoder::EaDx, Validator::Always));
    v.push(op_entry(MASK_OUT_X_Y, 0x9190, "sub_32_re_ai", "SUB", Size::Long, Decoder::DxEa, Validator::Always));
    v.push(op_entry(MASK_OUT_X_Y, 0x9198, "sub_32_re_pi", "SUB", Size::Long, Decoder::DxEa, Validator::Always));
    v.push(op_entry(MASK_OUT_X_Y, 0x91a0, "sub_32_re_pd", "SUB", Size::Long, Decoder::DxEa, Validator::Always));
    v.push(op_entry(MASK_OUT_X_Y, 0x91a8, "sub_32_re_di", "SUB", Size::Long, Decoder::DxEa, Validator::Always));
    v.push(op_entry(MASK_OUT_X_Y, 0x91b0, "sub_32_re_ix", "SUB", Size::Long, Decoder::DxEa, Validator::Always));
    v.push(op_entry(MASK_OUT_X, 0x91b8, "sub_32_re_aw", "SUB", Size::Long, Decoder::DxEa, Validator::Always));
    v.push(op_entry(MASK_OUT_X, 0x91b9, "sub_32_re_al", "SUB", Size::Long, Decoder::DxEa, Validator::Always));
    v.push(op_entry(MASK_OUT_X_Y, 0x90c0, "suba_16_dn", "SUBA", Size::Word, Decoder::EaAx, Validator::Always));
    v.push(op_entry(MASK_OUT_X_Y, 0x90c8, "suba_16_an", "SUBA", Size::Word, Decoder::EaAx, Validator::Always));
    v.push(op_entry(MASK_OUT_X_Y, 0x90d0, "suba_16_ai", "SUBA", Size::Word, Decoder::EaAx, Validator::Always));
    v.push(op_entry(MASK_OUT_X_Y, 0x90d8, "suba_16_pi", "SUBA", Size::Word, Decoder::EaAx, Validator::Always));
    v.push(op_entry(MASK_OUT_X_Y, 0x90e0, "suba_16_pd", "SUBA", Size::Word, Decoder::EaAx, Validator::Always));
    v.push(op_entry(MASK_OUT_X_Y, 0x90e8, "suba_16_di", "SUBA", Size::Word, Decoder::EaAx, Validator::Always));
    v.push(op_entry(MASK_OUT_X_Y, 0x90f0, "suba_16_ix", "SUBA", Size::Word, Decoder::EaAx, Validator::Always));
    v.push(op_entry(MASK_OUT_X, 0x90f8, "suba_16_aw", "SUBA", Size::Word, Decoder::EaAx, Validator::Always));
    v.push(op_entry(MASK_OUT_X, 0x90f9, "suba_16_al", "SUBA", Size::Word, Decoder::EaAx, Validator::Always));
    v.push(op_entry(MASK_OUT_X, 0x90fa, "suba_16_pcdi", "SUBA", Size::Word, Decoder::EaAx, Validator::Always));
    v.push(op_entry(MASK_OUT_X, 0x90fb, "suba_16_pcix", "SUBA", Size::Word, Decoder::EaAx, Validator::Always));
    proof {
        assert(v@ =~= v0 + rules_44());
    }
}

/// Rules suba_16_imm through subi_32_pi.
pub open spec fn rules_45() -> Seq<OpcodeHandler> {
    seq![
        spec_op_entry(MASK_OUT_X, 0x90fc, "suba_16_imm", "SUBA", Size::Word, Decoder::EaAx, Validator::Always),
        spec_op_entry(MASK_OUT_X_Y, 0x91c0, "suba_32_dn", "SUBA", Size::Long, Decoder::EaAx, Validator::Always),
        spec_op_entry(MASK_OUT_X_Y, 0x91c8, "suba_32_an", "SUBA", Size::Long, Decoder::EaAx, Validator::Always),
        spec_op_entry(MASK_OUT_X_Y, 0x91d0, "suba_32_ai", "SUBA", Size::Long, Decoder::EaAx, Validator::Always),
        spec_op_entry(MASK_OUT_X_Y, 0x91d8, "suba_32_pi", "SUBA", Size::Long, Decoder::EaAx, Validator::Always),
        spec_op_entry(MASK_OUT_X_Y, 0x91e0, "suba_32_pd", "SUBA", Size::Long, Decoder::EaAx, Validator::Always),
        spec_op_entry(MASK_OUT_X_Y, 0x91e8, "suba_32_di", "SUBA", Size::Long, Decoder::EaAx, Validator::Always),
        spec_op_entry(MASK_OUT_X_Y, 0x91f0, "suba_32_ix", "SUBA", Size::Long, Decoder::EaAx, Validator::Always),
        spec_op_entry(MASK_OUT_X, 0x91f8, "suba_32_aw", "SUBA", Size::Long, Decoder::EaAx, Validator::Always),
        spec_op_entry(MASK_OUT_X, 0x91f9, "suba_32_al", "SUBA", Size::Long, Decoder::EaAx, Validator::Always),
        spec_op_entry(MASK_OUT_X, 0x91fa, "suba_32_pcdi", "SUBA", Size::Long, Decoder::EaAx, Validator::Always),
        spec_op_entry(MASK_OUT_X, 0x91fb, "suba_32_pcix", "SUBA", Size::Long, Decoder::EaAx, Validator::Always),
        spec_op_entry(MASK_OUT_X, 0x91fc, "suba_32_imm", "SUBA", Size::Long, Decoder::EaAx, Validator::Always),
        spec_op_entry(MASK_OUT_Y, 0x0400, "subi_8_dn", "SUBI", Size::Byte, Decoder::ImmEa, Validator::Always),
        spec_op_entry(MASK_OUT_Y, 0x0410, "subi_8_ai", "SUBI", Size::Byte, Decoder::ImmEa, Validator::Always),
        spec_op_entry(MASK_OUT_Y, 0x0418, "subi_8_pi", "SUBI", Size::Byte, Decoder::ImmEa, Validator::Always),
        spec_op_entry(MASK_OUT_Y, 0x0420, "subi_8_pd", "SUBI", Size::Byte, Decoder::ImmEa, Validator::Always),
        spec_op_entry(MASK_OUT_Y, 0x0428, "subi_8_di", "SUBI", Size::Byte, Decoder::ImmEa, Validator::Always),
        spec_op_entry(MASK_OUT_Y, 0x0430, "subi_8_ix", "SUBI", Size::Byte, Decoder::ImmEa, Validator::Always),
        spec_op_entry(MASK_EXACT, 0x0438, "subi_8_aw", "SUBI", Size::Byte, Decoder::ImmEa, Validator::Always),
        spec_op_entry(MASK_EXACT, 0x0439, "subi_8_al", "SUBI", Size::Byte, Decoder::ImmEa, Validator::Always),
        spec_op_entry(MASK_OUT_Y, 0x0440, "subi_16_dn", "SUBI", Size::Word, Decoder::ImmEa, Validator::Always),
        spec_op_entry(MASK_OUT_Y, 0x0450, "subi_16_ai", "SUBI", Size::Word, Decoder::ImmEa, Validator::Always),
        spec_op_entry(MASK_OUT_Y, 0x0458, "subi_16_pi", "SUBI", Size::Word, Decoder::ImmEa, Validator::Always),
        spec_op_entry(MASK_OUT_Y, 0x0460, "subi_16_pd", "SUBI", Size::Word, Decoder::ImmEa, Validator::Always),
        spec_op_entry(MASK_OUT_Y, 0x0468, "subi_16_di", "SUBI", Size::Word, Decoder::ImmEa, Validator::Always),
        spec_op_entry(MASK_OUT_Y, 0x0470, "subi_16_ix", "SUBI", Size::Word, Decoder::ImmEa, Validator::Always),
        spec_op_entry(MASK_EXACT, 0x0478, "subi_16_aw", "SUBI", Size::Word, Decoder::ImmEa, Validator::Always),
        spec_op_entry(MASK_EXACT, 0x0479, "subi_16_al", "SUBI", Size::Word, Decoder::ImmEa, Validator::Always),
        spec_op_entry(MASK_OUT_Y, 0x0480, "subi_32_dn", "SUBI", Size::Long, Decoder::ImmEa, Validator::Always),
        spec_op_entry(MASK_OUT_Y, 0x0490, "subi_32_ai", "SUBI", Size::Long, Decoder::ImmEa, Validator::Always),
        spec_op_entry(MASK_OUT_Y, 0x0498, "subi_32_pi", "SUBI", Size::Long, Decoder::ImmEa, Validator::Always),
    ]
}

fn push_rules_45(v: &mut Vec<OpcodeHandler>)
    ensures
        final(v)@ == old(v)@ + rules_45(),
        forall|i: int|
            old(v)@.len() <= i < final(v)@.len() ==> rule_wf(#[trigger] final(v)@[i])
                && rule_decodable(final(v)@[i]),
{
    let ghost v0 = v@;
    v.push(op_entry(MASK_OUT_X, 0x90fc, "suba_16_imm", "SUBA", Size::Word, Decoder::EaAx, Validator::Always));
    v.push(op_entry(MASK_OUT_X_Y, 0x91c0, "suba_32_dn", "SUBA", Size::Long, Decoder::EaAx, Validator::Always));
    v.push(op_entry(MASK_OUT_X_Y, 0x91c8, "suba_32_an", "SUBA", Size::Long, Decoder::EaAx, Validator::Always));
    v.push(op_entry(MASK_OUT_X_Y, 0x91d0, "suba_32_ai", "SUBA", Size::Long, Decoder::EaAx, Validator::Always));
    v.push(op_entry(MASK_OUT_X_Y, 0x91d8, "suba_32_pi", "SUBA", Size::Long, Decoder::EaAx, Validator::Always));
    v.push(op_entry(MASK_OUT_X_Y, 0x91e0, "suba_32_pd", "SUBA", Size::Long, Decoder::EaAx, Validator::Always));
    v.push(op_entry(MASK_OUT_X_Y, 0x91e8, "suba_32_di", "SUBA", Size::Long, Decoder::EaAx, Validator::Always));
    v.push(op_entry(MASK_OUT_X_Y, 0x91f0, "suba_32_ix", "SUBA", Size::Long, Decoder::EaAx, Validator::Always));
    v.push(op_entry(MASK_OUT_X, 0x91f8, "suba_32_aw", "SUBA", Size::Long, Decoder::EaAx, Validator::Always));
    v.push(op_entry(MASK_OUT_X, 0x91f9, "suba_32_al", "SUBA", Size::Long, Decoder::EaAx, Validator::Always));
    v.push(op_entry(MASK_OUT_X, 0x91fa, "suba_32_pcdi", "SUBA", Size::Long, Decoder::EaAx, Validator::Always));
    v.push(op_entry(MASK_OUT_X, 0x91fb, "suba_32_pcix", "SUBA", Size::Long, Decoder::EaAx, Validator::Always));
    v.push(op_entry(MASK_OUT_X, 0x91fc, "suba_32_imm", "SUBA", Size::Long, Decoder::EaAx, Validator::Always));
    v.push(op_entry(MASK_OUT_Y, 0x0400, "subi_8_dn", "SUBI", Size::Byte, Decoder::ImmEa, Validator::Always));
    v.push(op_entry(MASK_OUT_Y, 0x0410, "subi_8_ai", "SUBI", Size::Byte, Decoder::ImmEa, Validator::Always));
    v.push(op_entry(MASK_OUT_Y, 0x0418, "subi_8_pi", "SUBI", Size::Byte, Decoder::ImmEa, Validator::Always));
    v.push(op_entry(MASK_OUT_Y, 0x0420, "subi_8_pd", "SUBI", Size::Byte, Decoder::ImmEa, Validator::Always));
    v.push(op_entry(MASK_OUT_Y, 0x0428, "subi_8_di", "SUBI", Size::Byte, Decoder::ImmEa, Validator::Always));
    v.push(op_entry(MASK_OUT_Y, 0x0430, "subi_8_ix", "SUBI", Size::Byte, Decoder::ImmEa, Validator::Always));
    v.push(op_entry(MASK_EXACT, 0x0438, "subi_8_aw", "SUBI", Size::Byte, Decoder::ImmEa, Validator::Always));
    v.push(op_entry(MASK_EXACT, 0x0439, "subi_8_al", "SUBI", Size::Byte, Decoder::ImmEa, Validator::Always));
    v.push(op_entry(MASK_OUT_Y, 0x0440, "subi_16_dn", "SUBI", Size::Word, Decoder::ImmEa, Validator::Always));
    v.push(op_entry(MASK_OUT_Y, 0x0450, "subi_16_ai", "SUBI", Size::Word, Decoder::ImmEa, Validator::Always));
    v.push(op_entry(MASK_OUT_Y, 0x0458, "subi_16_pi", "SUBI", Size::Word, Decoder::ImmEa, Validator::Always));
    v.push(op_entry(MASK_OUT_Y, 0x0460, "subi_16_pd", "SUBI", Size::Word, Decoder::ImmEa, Validator::Always));
    v.push(op_entry(MASK_OUT_Y, 0x0468, "subi_16_di", "SUBI", Size::Word, Decoder::ImmEa, Validator::Always));
    v.push(op_entry(MASK_OUT_Y, 0x0470, "subi_16_ix", "SUBI", Size::Word, Decoder::ImmEa, Validator::Always));
    v.push(op_entry(MASK_EXACT, 0x0478, "subi_16_aw", "SUBI", Size::Word, Decoder::ImmEa, Validator::Always));
    v.push(op_entry(MASK_EXACT, 0x0479, "subi_16_al", "SUBI", Size::Word, Decoder::ImmEa, Validator::Always));
    v.push(op_entry(MASK_OUT_Y, 0x0480, "subi_32_dn", "SUBI", Size::Long, Decoder::ImmEa, Validator::Always));
    v.push(op_entry(MASK_OUT_Y, 0x0490, "subi_32_ai", "SUBI", Size::Long, Decoder::ImmEa, Validator::Always));
    v.push(op_entry(MASK_OUT_Y, 0x0498, "subi_32_pi", "SUBI", Size::Long, Decoder::ImmEa, Validator::Always));
    proof {
        assert(v@ =~= v0 + rules_45());
    }
}

/// Rules subi_32_pd through subx_8_rr.
pub open spec fn rules_46() -> Seq<OpcodeHandler> {
    seq![
        spec_op_entry(MASK_OUT_Y, 0x04a0, "subi_32_pd", "SUBI", Size::Long, Decoder::ImmEa, Validator::Always),
        spec_op_entry(MASK_OUT_Y, 0x04a8, "subi_32_di", "SUBI", Size::Long, Decoder::ImmEa, Validator::Always),
        spec_op_entry(MASK_OUT_Y, 0x04b0, "subi_32_ix", "SUBI", Size::Long, Decoder::ImmEa, Validator::Always),
        spec_op_entry(MASK_EXACT, 0x04b8, "subi_32_aw", "SUBI", Size::Long, Decoder::ImmEa, Validator::Always),
        spec_op_entry(MASK_EXACT, 0x04b9, "subi_32_al", "SUBI", Size::Long, Decoder::ImmEa, Validator::Always),
        spec_op_entry(MASK_OUT_X_Y, 0x5100, "subq_8_dn", "SUBQ", Size::Byte, Decoder::QuickEa, Validator::Always),
        spec_op_entry(MASK_OUT_X_Y, 0x5110, "subq_8_ai", "SUBQ", Size::Byte, Decoder::QuickEa, Validator::Always),
        spec_op_entry(MASK_OUT_X_Y, 0x5118, "subq_8_pi", "SUBQ", Size::Byte, Decoder::QuickEa, Validator::Always),
        spec_op_entry(MASK_OUT_X_Y, 0x5120, "subq_8_pd", "SUBQ", Size::Byte, Decoder::QuickEa, Validator::Always),
        spec_op_entry(MASK_OUT_X_Y, 0x5128, "subq_8_di", "SUBQ", Size::Byte, Decoder::QuickEa, Validator::Always),
        spec_op_entry(MASK_OUT_X_Y, 0x5130, "subq_8_ix", "SUBQ", Size::Byte, Decoder::QuickEa, Validator::Always),
        spec_op_entry(MASK_OUT_X, 0x5138, "subq_8_aw", "SUBQ", Size::Byte, Decoder::QuickEa, Validator::Always),
        spec_op_entry(MASK_OUT_X, 0x5139, "subq_8_al", "SUBQ", Size::Byte, Decoder::QuickEa, Validator::Always),
        spec_op_entry(MASK_OUT_X_Y, 0x5140, "subq_16_dn", "SUBQ", Size::Word, Decoder::QuickEa, Validator::Always),
        spec_op_entry(MASK_OUT_X_Y, 0x5148, "subq_16_an", "SUBQ", Size::Word, Decoder::QuickEa, Validator::Always),
        spec_op_entry(MASK_OUT_X_Y, 0x5150, "subq_16_ai", "SUBQ", Size::Word, Decoder::QuickEa, Validator::Always),
        spec_op_entry(MASK_OUT_X_Y, 0x5158, "subq_16_pi", "SUBQ", Size::Word, Decoder::QuickEa, Validator::Always),
        spec_op_entry(MASK_OUT_X_Y, 0x5160, "subq_16_pd", "SUBQ", Size::Word, Decoder::QuickEa, Validator::Always),
        spec_op_entry(MASK_OUT_X_Y, 0x5168, "subq_16_di", "SUBQ", Size::Word, Decoder::QuickEa, Validator::Always),
        spec_op_entry(MASK_OUT_X_Y, 0x5170, "subq_16_ix", "SUBQ", Size::Word, Decoder::QuickEa, Validator::Always),
        spec_op_entry(MASK_OUT_X, 0x5178, "subq_16_aw", "SUBQ", Size::Word, Decoder::QuickEa, Validator::Always),
        spec_op_entry(MASK_OUT_X, 0x5179, "subq_16_al", "SUBQ", Size::Word, Decoder::QuickEa, Validator::Always),
        spec_op_entry(MASK_OUT_X_Y, 0x5180, "subq_32_dn", "SUBQ", Size::Long, Decoder::QuickEa, Validator::Always),
        spec_op_entry(MASK_OUT_X_Y, 0x5188, "subq_32_an", "SUBQ", Size::Long, Decoder::QuickEa, Validator::Always),
        spec_op_entry(MASK_OUT_X_Y, 0x5190, "subq_32_ai", "SUBQ", Size::Long, Decoder::QuickEa, Validator::Always),
        spec_op_entry(MASK_OUT_X_Y, 0x5198, "subq_32_pi", "SUBQ", Size::Long, Decoder::QuickEa, Validator::Always),
        spec_op_entry(MASK_OUT_X_Y, 0x51a0, "subq_32_pd", "SUBQ", Size::Long, Decoder::QuickEa, Validator::Always),
        spec_op_entry(MASK_OUT_X_Y, 0x51a8, "subq_32_di", "SUBQ", Size::Long, Decoder::QuickEa, Validator::Always),
        spec_op_entry(MASK_OUT_X_Y, 0x51b0, "subq_32_ix", "SUBQ", Size::Long, Decoder::QuickEa, Validator::Always),
        spec_op_entry(MASK_OUT_X, 0x51b8, "subq_32_aw", "SUBQ", Size::Long, Decoder::QuickEa, Validator::Always),
        spec_op_entry(MASK_OUT_X, 0x51b9, "subq_32_al", "SUBQ", Size::Long, Decoder::QuickEa, Validator::Always),
        spec_op_entry(MASK_OUT_X_Y, 0x9100, "subx_8_rr", "SUBX", Size::Byte, Decoder::DyDx, Validator::Always),
    ]
}

fn push_rules_46(v: &mut Vec<OpcodeHandler>)
    ensures
        final(v)@ == old(v)@ + rules_46(),
        forall|i: int|
            old(v)@.len() <= i < final(v)@.len() ==> rule_wf(#[trigger] final(v)@[i])
                && rule_decodable(final(v)@[i]),
{
    let ghost v0 = v@;
    v.push(op_entry(MASK_OUT_Y, 0x04a0, "subi_32_pd", "SUBI", Size::Long, Decoder::ImmEa, Validator::Always));
    v.push(op_entry(MASK_OUT_Y, 0x04a8, "subi_32_di", "SUBI", Size::Long, Decoder::ImmEa, Validator::Always));
    v.push(op_entry(MASK_OUT_Y, 0x04b0, "subi_32_ix", "SUBI", Size::Long, Decoder::ImmEa, Validator::Always));
    v.push(op_entry(MASK_EXACT, 0x04b8, "subi_32_aw", "SUBI", Size::Long, Decoder::ImmEa, Validator::Always));
    v.push(op_entry(MASK_EXACT, 0x04b9, "subi_32_al", "SUBI", Size::Long, Decoder::ImmEa, Validator::Always));
    v.push(op_entry(MASK_OUT_X_Y, 0x5100, "subq_8_dn", "SUBQ", Size::Byte, Decoder::QuickEa, Validator::Always));
    v.push(op_entry(MASK_OUT_X_Y, 0x5110, "subq_8_ai", "SUBQ", Size::Byte, Decoder::QuickEa, Validator::Always));
    v.push(op_entry(MASK_OUT_X_Y, 0x5118, "subq_8_pi", "SUBQ", Size::Byte, Decoder::QuickEa, Validator::Always));
    v.push(op_entry(MASK_OUT_X_Y, 0x5120, "subq_8_pd", "SUBQ", Size::Byte, Decoder::QuickEa, Validator::Always));
    v.push(op_entry(MASK_OUT_X_Y, 0x5128, "subq_8_di", "SUBQ", Size::Byte, Decoder::QuickEa, Validator::Always));
    v.push(op_entry(MASK_OUT_X_Y, 0x5130, "subq_8_ix", "SUBQ", Size::Byte, Decoder::QuickEa, Validator::Always));
    v.push(op_entry(MASK_OUT_X, 0x5138, "subq_8_aw", "SUBQ", Size::Byte, Decoder::QuickEa, Validator::Always));
    v.push(op_entry(MASK_OUT_X, 0x5139, "subq_8_al", "SUBQ", Size::Byte, Decoder::QuickEa, Validator::Always));
    v.push(op_entry(MASK_OUT_X_Y, 0x5140, "subq_16_dn", "SUBQ", Size::Word, Decoder::QuickEa, Validator::Always));
    v.push(op_entry(MASK_OUT_X_Y, 0x5148, "subq_16_an", "SUBQ", Size::Word, Decoder::QuickEa, Validator::Always));
    v.push(op_entry(MASK_OUT_X_Y, 0x5150, "subq_16_ai", "SUBQ", Size::Word, Decoder::QuickEa, Validator::Always));
    v.push(op_entry(MASK_OUT_X_Y, 0x5158, "subq_16_pi", "SUBQ", Size::Word, Decoder::QuickEa, Validator::Always));
    v.push(op_entry(MASK_OUT_X_Y, 0x5160, "subq_16_pd", "SUBQ", Size::Word, Decoder::QuickEa, Validator::Always));
    v.push(op_entry(MASK_OUT_X_Y, 0x5168, "subq_16_di", "SUBQ", Size::Word, Decoder::QuickEa, Validator::Always));
    v.push(op_entry(MASK_OUT_X_Y, 0x5170, "subq_16_ix", "SUBQ", Size::Word, Decoder::QuickEa, Validator::Always));
    v.push(op_entry(MASK_OUT_X, 0x5178, "subq_16_aw", "SUBQ", Size::Word, Decoder::QuickEa, Validator::Always));
    v.push(op_entry(MASK_OUT_X, 0x5179, "subq_16_al", "SUBQ", Size::Word, Decoder::QuickEa, Validator::Always));
    v.push(op_entry(MASK_OUT_X_Y, 0x5180, "subq_32_dn", "SUBQ", Size::Long, Decoder::QuickEa, Validator::Always));
    v.push(op_entry(MASK_OUT_X_Y, 0x5188, "subq_32_an", "SUBQ", Size::Long, Decoder::QuickEa, Validator::Always));
    v.push(op_entry(MASK_OUT_X_Y, 0x5190, "subq_32_ai", "SUBQ", Size::Long, Decoder::QuickEa, Validator::Always));
    v.push(op_entry(MASK_OUT_X_Y, 0x5198, "subq_32_pi", "SUBQ", Size::Long, Decoder::QuickEa, Validator::Always));
    v.push(op_entry(MASK_OUT_X_Y, 0x51a0, "subq_32_pd", "SUBQ", Size::Long, Decoder::QuickEa, Validator::Always));
    v.push(op_entry(MASK_OUT_X_Y, 0x51a8, "subq_32_di", "SUBQ", Size::Long, Decoder::QuickEa, Validator::Always));
    v.push(op_entry(MASK_OUT_X_Y, 0x51b0, "subq_32_ix", "SUBQ", Size::Long, Decoder::QuickEa, Validator::Always));
    v.push(op_entry(MASK_OUT_X, 0x51b8, "subq_32_aw", "SUBQ", Size::Long, Decoder::QuickEa, Validator::Always));
    v.push(op_entry(MASK_OUT_X, 0x51b9, "subq_32_al", "SUBQ", Size::Long, Decoder::QuickEa, Validator::Always));
    v.push(op_entry(MASK_OUT_X_Y, 0x9100, "subx_8_rr", "SUBX", Size::Byte, Decoder::DyDx, Validator::Always));
    proof {
        assert(v@ =~= v0 + rules_46());
    }
}

/// Rules subx_8_mm through tst_16_al.
pub open spec fn rules_47() -> Seq<OpcodeHandler> {
    seq![
        spec_op_entry(MASK_OUT_X_Y, 0x9108, "subx_8_mm", "SUBX", Size::Byte, Decoder::PdPd, Validator::Always),
        spec_op_entry(MASK_OUT_X_Y, 0x9140, "subx_16_rr", "SUBX", Size::Word, Decoder::DyDx, Validator::Always),
        spec_op_entry(MASK_OUT_X_Y, 0x9148, "subx_16_mm", "SUBX", Size::Word, Decoder::PdPd, Validator::Always),
        spec_op_entry(MASK_OUT_X_Y, 0x9180, "subx_32_rr", "SUBX", Size::Long, Decoder::DyDx, Validator::Always),
        spec_op_entry(MASK_OUT_X_Y, 0x9188, "subx_32_mm", "SUBX", Size::Long, Decoder::PdPd, Validator::Always),
        spec_op_entry(MASK_OUT_Y, 0x4840, "swap_32_dn", "SWAP", Size::Long, Decoder::DnOnly, Validator::Always),
        spec_op_entry(MASK_OUT_Y, 0x4ac0, "tas_8_dn", "TAS", Size::Byte, Decoder::Ea, Validator::Always),
        spec_op_entry(MASK_OUT_Y, 0x4ad0, "tas_8_ai", "TAS", Size::Byte, Decoder::Ea, Validator::Always),
        spec_op_entry(MASK_OUT_Y, 0x4ad8, "tas_8_pi", "TAS", Size::Byte, Decoder::Ea, Validator::Always),
        spec_op_entry(MASK_OUT_Y, 0x4ae0, "tas_8_pd", "TAS", Size::Byte, Decoder::Ea, Validator::Always),
        spec_op_entry(MASK_OUT_Y, 0x4ae8, "tas_8_di", "TAS", Size::Byte, Decoder::Ea, Validator::Always),
        spec_op_entry(MASK_OUT_Y, 0x4af0, "tas_8_ix", "TAS", Size::Byte, Decoder::Ea, Validator::Always),
        spec_op_entry(MASK_EXACT, 0x4af8, "tas_8_aw", "TAS", Size::Byte, Decoder::Ea, Validator::Always),
        spec_op_entry(MASK_EXACT, 0x4af9, "tas_8_al", "TAS", Size::Byte, Decoder::Ea, Validator::Always),
        spec_op_entry(MASK_LONIB, 0x4e40, "trap", "TRAP", Size::Unsized, Decoder::Vector, Validator::Always),
        spec_op_entry(MASK_EXACT, 0x4e76, "trapv", "TRAPV", Size::Unsized, Decoder::NoOperands, Validator::Always),
        spec_op_entry(MASK_OUT_Y, 0x4a00, "tst_8_dn", "TST", Size::Byte, Decoder::Ea, Validator::Always),
        spec_op_entry(MASK_OUT_Y, 0x4a10, "tst_8_ai", "TST", Size::Byte, Decoder::Ea, Validator::Always),
        spec_op_entry(MASK_OUT_Y, 0x4a18, "tst_8_pi", "TST", Size::Byte, Decoder::Ea, Validator::Always),
        spec_op_entry(MASK_OUT_Y, 0x4a20, "tst_8_pd", "TST", Size::Byte, Decoder::Ea, Validator::Always),
        spec_op_entry(MASK_OUT_Y, 0x4a28, "tst_8_di", "TST", Size::Byte, Decoder::Ea, Validator::Always),
        spec_op_entry(MASK_OUT_Y, 0x4a30, "tst_8_ix", "TST", Size::Byte, Decoder::Ea, Validator::Always),
        spec_op_entry(MASK_EXACT, 0x4a38, "tst_8_aw", "TST", Size::Byte, Decoder::Ea, Validator::Always),
        spec_op_entry(MASK_EXACT, 0x4a39, "tst_8_al", "TST", Size::Byte, Decoder::Ea, Validator::Always),
        spec_op_entry(MASK_OUT_Y, 0x4a40, "tst_16_dn", "TST", Size::Word, Decoder::Ea, Validator::Always),
        spec_op_entry(MASK_OUT_Y, 0x4a50, "tst_16_ai", "TST", Size::Word, Decoder::Ea, Validator::Always),
        spec_op_entry(MASK_OUT_Y, 0x4a58, "tst_16_pi", "TST", Size::Word, Decoder::Ea, Validator::Always),
        spec_op_entry(MASK_OUT_Y, 0x4a60, "tst_16_pd", "TST", Size::Word, Decoder::Ea, Validator::Always),
        spec_op_entry(MASK_OUT_Y, 0x4a68, "tst_16_di", "TST", Size::Word, Decoder::Ea, Validator::Always),
        spec_op_entry(MASK_OUT_Y, 0x4a70, "tst_16_ix", "TST", Size::Word, Decoder::Ea, Validator::Always),
        spec_op_entry(MASK_EXACT, 0x4a78, "tst_16_aw", "TST", Size::Word, Decoder::Ea, Validator::Always),
        spec_op_entry(MASK_EXACT, 0x4a79, "tst_16_al", "TST", Size::Word, Decoder::Ea, Validator::Always),
    ]
}

fn push_rules_47(v: &mut Vec<OpcodeHandler>)
    ensures
        final(v)@ == old(v)@ + rules_47(),
        forall|i: int|
            old(v)@.len() <= i < final(v)@.len() ==> rule_wf(#[trigger] final(v)@[i])
                && rule_decodable(final(v)@[i]),
{
    let ghost v0 = v@;
    v.push(op_entry(MASK_OUT_X_Y, 0x9108, "subx_8_mm", "SUBX", Size::Byte, Decoder::PdPd, Validator::Always));
    v.push(op_entry(MASK_OUT_X_Y, 0x9140, "subx_16_rr", "SUBX", Size::Word, Decoder::DyDx, Validator::Always));
    v.push(op_entry(MASK_OUT_X_Y, 0x9148, "subx_16_mm", "SUBX", Size::Word, Decoder::PdPd, Validator::Always));
    v.push(op_entry(MASK_OUT_X_Y, 0x9180, "subx_32_rr", "SUBX", Size::Long, Decoder::DyDx, Validator::Always));
    v.push(op_entry(MASK_OUT_X_Y, 0x9188, "subx_32_mm", "SUBX", Size::Long, Decoder::PdPd, Validator::Always));
    v.push(op_entry(MASK_OUT_Y, 0x4840, "swap_32_dn", "SWAP", Size::Long, Decoder::DnOnly, Validator::Always));
    v.push(op_entry(MASK_OUT_Y, 0x4ac0, "tas_8_dn", "TAS", Size::Byte, Decoder::Ea, Validator::Always));
    v.push(op_entry(MASK_OUT_Y, 0x4ad0, "tas_8_ai", "TAS", Size::Byte, Decoder::Ea, Validator::Always));
    v.push(op_entry(MASK_OUT_Y, 0x4ad8, "tas_8_pi", "TAS", Size::Byte, Decoder::Ea, Validator::Always));
    v.push(op_entry(MASK_OUT_Y, 0x4ae0, "tas_8_pd", "TAS", Size::Byte, Decoder::Ea, Validator::Always));
    v.push(op_entry(MASK_OUT_Y, 0x4ae8, "tas_8_di", "TAS", Size::Byte, Decoder::Ea, Validator::Always));
    v.push(op_entry(MASK_OUT_Y, 0x4af0, "tas_8_ix", "TAS", Size::Byte, Decoder::Ea, Validator::Always));
    v.push(op_entry(MASK_EXACT, 0x4af8, "tas_8_aw", "TAS", Size::Byte, Decoder::Ea, Validator::Always));
    v.push(op_entry(MASK_EXACT, 0x4af9, "tas_8_al", "TAS", Size::Byte, Decoder::Ea, Validator::Always));
    v.push(op_entry(MASK_LONIB, 0x4e40, "trap", "TRAP", Size::Unsized, Decoder::Vector, Validator::Always));
    v.push(op_entry(MASK_EXACT, 0x4e76, "trapv", "TRAPV", Size::Unsized, Decoder::NoOperands, Validator::Always));
    v.push(op_entry(MASK_OUT_Y, 0x4a00, "tst_8_dn", "TST", Size::Byte, Decoder::Ea, Validator::Always));
    v.push(op_entry(MASK_OUT_Y, 0x4a10, "tst_8_ai", "TST", Size::Byte, Decoder::Ea, Validator::Always));
    v.push(op_entry(MASK_OUT_Y, 0x4a18, "tst_8_pi", "TST", Size::Byte, Decoder::Ea, Validator::Always));
    v.push(op_entry(MASK_OUT_Y, 0x4a20, "tst_8_pd", "TST", Size::Byte, Decoder::Ea, Validator::Always));
    v.push(op_entry(MASK_OUT_Y, 0x4a28, "tst_8_di", "TST", Size::Byte, Decoder::Ea, Validator::Always));
    v.push(op_entry(MASK_OUT_Y, 0x4a30, "tst_8_ix", "TST", Size::Byte, Decoder::Ea, Validator::Always));
    v.push(op_entry(MASK_EXACT, 0x4a38, "tst_8_aw", "TST", Size::Byte, Decoder::Ea, Validator::Always));
    v.push(op_entry(MASK_EXACT, 0x4a39, "tst_8_al", "TST", Size::Byte, Decoder::Ea, Validator::Always));
    v.push(op_entry(MASK_OUT_Y, 0x4a40, "tst_16_dn", "TST", Size::Word, Decoder::Ea, Validator::Always));
    v.push(op_entry(MASK_OUT_Y, 0x4a50, "tst_16_ai", "TST", Size::Word, Decoder::Ea, Validator::Always));
    v.push(op_entry(MASK_OUT_Y, 0x4a58, "tst_16_pi", "TST", Size::Word, Decoder::Ea, Validator::Always));
    v.push(op_entry(MASK_OUT_Y, 0x4a60, "tst_16_pd", "TST", Size::Word, Decoder::Ea, Validator::Always));
    v.push(op_entry(MASK_OUT_Y, 0x4a68, "tst_16_di", "TST", Size::Word, Decoder::Ea, Validator::Always));
    v.push(op_entry(MASK_OUT_Y, 0x4a70, "tst_16_ix", "TST", Size::Word, Decoder::Ea, Validator::Always));
    v.push(op_entry(MASK_EXACT, 0x4a78, "tst_16_aw", "TST", Size::Word, Decoder::Ea, Validator::Always));
    v.push(op_entry(MASK_EXACT, 0x4a79, "tst_16_al", "TST", Size::Word, Decoder::Ea, Validator::Always));
    proof {
        assert(v@ =~= v0 + rules_47());
    }
}

/// Rules tst_32_dn through unlk_32.
pub open spec fn rules_48() -> Seq<OpcodeHandler> {
    seq![
        spec_op_entry(MASK_OUT_Y, 0x4a80, "tst_32_dn", "TST", Size::Long, Decoder::Ea, Validator::Always),
        spec_op_entry(MASK_OUT_Y, 0x4a90, "tst_32_ai", "TST", Size::Long, Decoder::Ea, Validator::Always),
        spec_op_entry(MASK_OUT_Y, 0x4a98, "tst_32_pi", "TST", Size::Long, Decoder::Ea, Validator::Always),
        spec_op_entry(MASK_OUT_Y, 0x4aa0, "tst_32_pd", "TST", Size::Long, Decoder::Ea, Validator::Always),
        spec_op_entry(MASK_OUT_Y, 0x4aa8, "tst_32_di", "TST", Size::Long, Decoder::Ea, Validator::Always),
        spec_op_entry(MASK_OUT_Y, 0x4ab0, "tst_32_ix", "TST", Size::Long, Decoder::Ea, Validator::Always),
        spec_op_entry(MASK_EXACT, 0x4ab8, "tst_32_aw", "TST", Size::Long, Decoder::Ea, Validator::Always),
        spec_op_entry(MASK_EXACT, 0x4ab9, "tst_32_al", "TST", Size::Long, Decoder::Ea, Validator::Always),
        spec_op_entry(MASK_OUT_Y, 0x4e58, "unlk_32", "UNLK", Size::Long, Decoder::AnOnly, Validator::Always),
    ]
}

fn push_rules_48(v: &mut Vec<OpcodeHandler>)
    ensures
        final(v)@ == old(v)@ + rules_48(),
        forall|i: int|
            old(v)@.len() <= i < final(v)@.len() ==> rule_wf(#[trigger] final(v)@[i])
                && rule_decodable(final(v)@[i]),
{
    let ghost v0 = v@;
    v.push(op_entry(MASK_OUT_Y, 0x4a80, "tst_32_dn", "TST", Size::Long, Decoder::Ea, Validator::Always));
    v.push(op_entry(MASK_OUT_Y, 0x4a90, "tst_32_ai", "TST", Size::Long, Decoder::Ea, Validator::Always));
    v.push(op_entry(MASK_OUT_Y, 0x4a98, "tst_32_pi", "TST", Size::Long, Decoder::Ea, Validator::Always));
    v.push(op_entry(MASK_OUT_Y, 0x4aa0, "tst_32_pd", "TST", Size::Long, Decoder::Ea, Validator::Always));
    v.push(op_entry(MASK_OUT_Y, 0x4aa8, "tst_32_di", "TST", Size::Long, Decoder::Ea, Validator::Always));
    v.push(op_entry(MASK_OUT_Y, 0x4ab0, "tst_32_ix", "TST", Size::Long, Decoder::Ea, Validator::Always));
    v.push(op_entry(MASK_EXACT, 0x4ab8, "tst_32_aw", "TST", Size::Long, Decoder::Ea, Validator::Always));
    v.push(op_entry(MASK_EXACT, 0x4ab9, "tst_32_al", "TST", Size::Long, Decoder::Ea, Validator::Always));
    v.push(op_entry(MASK_OUT_Y, 0x4e58, "unlk_32", "UNLK", Size::Long, Decoder::AnOnly, Validator::Always));
    proof {
        assert(v@ =~= v0 + rules_48());
    }
}

/// The full rule list, in the order the dispatch table applies it:
/// a later rule overrides an earlier one on the opcodes both match.
#[verifier::opaque]
pub open spec fn spec_optable() -> Seq<OpcodeHandler> {
    rules_00() + rules_01() + rules_02() + rules_03() + rules_04() + rules_05() + rules_06() + rules_07() + rules_08() + rules_09() + rules_10() + rules_11() + rules_12() + rules_13() + rules_14() + rules_15() + rules_16() + rules_17() + rules_18() + rules_19() + rules_20() + rules_21() + rules_22() + rules_23() + rules_24() + rules_25() + rules_26() + rules_27() + rules_28() + rules_29() + rules_30() + rules_31() + rules_32() + rules_33() + rules_34() + rules_35() + rules_36() + rules_37() + rules_38() + rules_39() + rules_40() + rules_41() + rules_42() + rules_43() + rules_44() + rules_45() + rules_46() + rules_47() + rules_48()
}

/// Build the full rule list.
#[verifier::rlimit(100)]
pub fn generate_optable() -> (rules: Vec<OpcodeHandler>)
    ensures
        rules@ == spec_optable(),
        rules@.len() > 0,
        forall|i: int|
            0 <= i < rules@.len() ==> rule_wf(#[trigger] rules@[i]) && rule_decodable(
                rules@[i],
            ),
{
    let mut v: Vec<OpcodeHandler> = Vec::new();
    push_rules_00(&mut v);
    push_rules_01(&mut v);
    push_rules_02(&mut v);
    push_rules_03(&mut v);
    push_rules_04(&mut v);
    push_rules_05(&mut v);
    push_rules_06(&mut v);
    push_rules_07(&mut v);
    push_rules_08(&mut v);
    push_rules_09(&mut v);
    push_rules_10(&mut v);
    push_rules_11(&mut v);
    push_rules_12(&mut v);
    push_rules_13(&mut v);
    push_rules_14(&mut v);
    push_rules_15(&mut v);
    push_rules_16(&mut v);
    push_rules_17(&mut v);
    push_rules_18(&mut v);
    push_rules_19(&mut v);
    push_rules_20(&mut v);
    push_rules_21(&mut v);
    push_rules_22(&mut v);
    push_rules_23(&mut v);
    push_rules_24(&mut v);
    push_rules_25(&mut v);
    push_rules_26(&mut v);
    push_rules_27(&mut v);
    push_rules_28(&mut v);
    push_rules_29(&mut v);
    push_rules_30(&mut v);
    push_rules_31(&mut v);
    push_rules_32(&mut v);
    push_rules_33(&mut v);
    push_rules_34(&mut v);
    push_rules_35(&mut v);
    push_rules_36(&mut v);
    push_rules_37(&mut v);
    push_rules_38(&mut v);
    push_rules_39(&mut v);
    push_rules_40(&mut v);
    push_rules_41(&mut v);
    push_rules_42(&mut v);
    push_rules_43(&mut v);
    push_rules_44(&mut v);
    push_rules_45(&mut v);
    push_rules_46(&mut v);
    push_rules_47(&mut v);
    push_rules_48(&mut v);
    proof {
        reveal(spec_optable);
        assert(v@ =~= spec_optable());
    }
    v
}

} // verus!
