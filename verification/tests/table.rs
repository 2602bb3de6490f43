use m68k_decode::handlers::generate_optable;
use m68k_decode::optable::InstructionSetGenerator;

#[test]
fn optable_mask_and_matching_makes_sense() {
    let optable = generate_optable();

    for op in optable {
        if op.mask & op.matching != op.matching {
            panic!(
                "Error generating op handler table: Op mask {:16b} and matching {:16b} is inconsistent for {}",
                op.mask, op.matching, op.name
            );
        }
    }
}

#[test]
fn table_assigns_expected_handlers() {
    let gen = InstructionSetGenerator::new();
    let rules = gen.optable().clone();
    let table = gen.generate();
    let name_of = |opcode: usize| -> &'static str {
        let j = table[opcode];
        if j < rules.len() { rules[j].name } else { "???" }
    };
    assert_eq!("add_8_er_ai", name_of(0xd411));
    assert_eq!("add_8_re_ai", name_of(0xd511));
    assert_eq!("nop", name_of(0x4e71));
    assert_eq!("real_illegal", name_of(0x4afc));
    assert_eq!("bne_16", name_of(0x6600));
    assert_eq!("bne_8", name_of(0x6602));
    assert_eq!("illegal", name_of(0x62ff));
    assert_eq!("unimplemented_1010", name_of(0xa123));
    assert_eq!("unimplemented_1111", name_of(0xf000));
    assert_eq!("moveq_32", name_of(0x7012));
    assert_eq!("stop", name_of(0x4e72));
    assert_eq!("trap", name_of(0x4e4f));
    assert_eq!("divu_16_imm", name_of(0x80fc));
    assert_eq!("move_8_dn_pd", name_of(0x1e27));
    // 0x4e7a..0x4e7f belong to later processors and stay unmapped here
    assert_eq!("???", name_of(0x4e7f));
}

#[test]
fn table_covers_every_opcode_once() {
    let gen = InstructionSetGenerator::new();
    let rules = gen.optable().clone();
    let table = gen.generate();
    assert_eq!(0x10000, table.len());
    for opcode in 0..0x10000_usize {
        let j = table[opcode];
        assert!(j <= rules.len());
        if j < rules.len() {
            let rule = &rules[j];
            assert_eq!((opcode as u32) & rule.mask, rule.matching, "entry must match its opcode");
        } else {
            for rule in rules.iter() {
                assert!(
                    (opcode as u32) & rule.mask != rule.matching,
                    "unmapped opcode {:04x} matched by {}",
                    opcode,
                    rule.name
                );
            }
        }
    }
}

#[test]
fn generate_with_maps_defaults_and_rules() {
    let gen = InstructionSetGenerator::new();
    let names: Vec<&str> = gen.generate_with("???", |op| op.name);
    assert_eq!(0x10000, names.len());
    assert_eq!("add_8_er_ai", names[0xd411]);
    assert_eq!("real_illegal", names[0x4afc]);
    assert_eq!("???", names[0x4e7f]);
    let mnemonics: Vec<&str> = gen.generate_with("", |op| op.mnemonic);
    assert_eq!("ADD", mnemonics[0xd411]);
    assert_eq!("", mnemonics[0x4e7f]);
}
