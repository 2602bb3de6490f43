use m68k_decode::disassembler::always;
use m68k_decode::disassembler::ea_all;
use m68k_decode::disassembler::ea_all_except_an;
use m68k_decode::disassembler::ea_all_to_data_alterable;
use m68k_decode::disassembler::ea_control;
use m68k_decode::disassembler::ea_data;
use m68k_decode::disassembler::ea_data_alterable;
use m68k_decode::disassembler::ea_memory_alterable;
use m68k_decode::disassembler::never;
use m68k_decode::disassembler::valid_byte_displacement;
use m68k_decode::disassembler::valid_ea;
use m68k_decode::disassembler::EA_CONTROL;

#[test]
fn ea_classes_admit_the_documented_modes() {
    // The low six bits hold the effective-address field: mode, then register.
    let dn = 0x00;
    let an = 0x08;
    let ai = 0x10;
    let pi = 0x18;
    let pd = 0x20;
    let di = 0x28;
    let ix = 0x30;
    let aw = 0x38;
    let al = 0x39;
    let pcdi = 0x3a;
    let pcix = 0x3b;
    let imm = 0x3c;

    for ea in [dn, an, ai, pi, pd, di, ix, aw, al, pcdi, pcix, imm] {
        assert!(ea_all(ea));
    }
    assert!(!ea_all(0x3d));
    assert!(!ea_all(0x3e));
    assert!(!ea_all(0x3f));

    assert!(!ea_all_except_an(an));
    assert!(ea_all_except_an(dn));
    assert!(ea_all_except_an(imm));

    assert!(!ea_data(an));
    assert!(ea_data(pcdi));

    assert!(ea_memory_alterable(ai));
    assert!(ea_memory_alterable(al));
    assert!(!ea_memory_alterable(dn));
    assert!(!ea_memory_alterable(pcdi));
    assert!(!ea_memory_alterable(imm));

    assert!(ea_data_alterable(dn));
    assert!(ea_data_alterable(pd));
    assert!(!ea_data_alterable(an));
    assert!(!ea_data_alterable(pcix));

    assert!(ea_control(ai));
    assert!(ea_control(di));
    assert!(ea_control(aw));
    assert!(ea_control(pcdi));
    assert!(ea_control(pcix));
    assert!(!ea_control(dn));
    assert!(!ea_control(pi));
    assert!(!ea_control(pd));
    assert!(!ea_control(imm));
}

#[test]
fn an_empty_class_mask_accepts_everything() {
    assert!(valid_ea(0x3f, 0));
    assert!(!valid_ea(0x3f, EA_CONTROL));
}

#[test]
fn move_destinations_must_be_data_alterable() {
    // Source field in the low six bits, destination register/mode in bits 6-11.
    assert!(ea_all_to_data_alterable(0x13c0));  // destination absolute long
    assert!(!ea_all_to_data_alterable(0x1040));  // destination address register
}

#[test]
fn byte_branch_displacements_exclude_the_escape_values() {
    assert!(!valid_byte_displacement(0x6600));
    assert!(valid_byte_displacement(0x6601));
    assert!(valid_byte_displacement(0x66fe));
    assert!(!valid_byte_displacement(0x66ff));
    assert!(always(0x1234));
    assert!(!never(0x1234));
}
