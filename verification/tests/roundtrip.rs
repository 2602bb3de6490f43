use m68k_decode::disassembler::Disassembler;
use m68k_decode::disassembler::Exception;
use m68k_decode::memory::MemoryVec;
use m68k_decode::optable::InstructionSetGenerator;

#[test]
fn roundtrips() {
    let mut over = 0;
    let mut under = 0;
    let mut wrong = 0;
    let gen = InstructionSetGenerator::new();
    let optable: Vec<&str> = gen.generate_with("???", |op| op.name);
    let d = Disassembler::new();
    for opcode in 0x0000..0xffff_usize {
        let op = optable[opcode];
        let parts: Vec<&str> = op.split('_').collect();
        let mnemonic = parts[0];
        let pc = 0;
        let extension_word_mask = 0b1111_1000_1111_1111;
        // bits 8-10 should always be zero in the ea extension word
        // as we don't know which word will be seen as the ea extension word
        // (as opposed to immediate operand values) just make sure these aren't set.
        let dasm_mem = &mut MemoryVec::new16(
            pc,
            vec![
                opcode as u16,
                0x001f,
                0x00a4,
                0x1234 & extension_word_mask,
                0x5678 & extension_word_mask,
            ],
        );
        match d.disassemble(pc, dasm_mem) {
            Err(Exception::IllegalInstruction(_opcode, _)) => {
                if op != "???" && op != "unimplemented_1111" && op != "unimplemented_1010"
                    && op != "illegal"
                {
                    under += 1;
                    println!("{:04x}: {} disasm under", opcode, op);
                }
            },
            Ok(dis_inst) => {
                if op == "???" || op == "unimplemented_1111" || op == "unimplemented_1010"
                    || op == "illegal"
                {
                    over += 1;
                    println!("{:04x}: {} disasm over, {}", opcode, op, dis_inst.text());
                } else if dis_inst.mnemonic.to_lowercase() != mnemonic && mnemonic != "real" {
                    // ILLEGAL == real_illegal
                    wrong += 1;
                    println!("{:04x}: {} disasm different {}", opcode, op, dis_inst.text());
                }
            },
        }
    }
    println!("{}  opcodes over, {} under, {} wrong", over, under, wrong);
}

#[test]
fn roundtrips_exactly() {
    // The same walk as `roundtrips`, insisting on the outcome: every opcode
    // the dispatch table maps to a real handler disassembles, with the
    // handler's own mnemonic, and every other opcode is refused.
    let gen = InstructionSetGenerator::new();
    let optable: Vec<&str> = gen.generate_with("???", |op| op.name);
    let d = Disassembler::new();
    for opcode in 0x0000..=0xffff_usize {
        let op = optable[opcode];
        let parts: Vec<&str> = op.split('_').collect();
        let mnemonic = parts[0];
        let extension_word_mask = 0b1111_1000_1111_1111;
        let dasm_mem = &mut MemoryVec::new16(
            0,
            vec![
                opcode as u16,
                0x001f,
                0x00a4,
                0x1234 & extension_word_mask,
                0x5678 & extension_word_mask,
            ],
        );
        let illegalish = op == "???" || op == "unimplemented_1111"
            || op == "unimplemented_1010" || op == "illegal";
        match d.disassemble(0, dasm_mem) {
            Err(Exception::IllegalInstruction(bad, at)) => {
                assert!(illegalish, "{:04x}: {} refused", opcode, op);
                assert_eq!(bad as usize, opcode);
                assert_eq!(at, 0);
            },
            Ok(dis_inst) => {
                assert!(!illegalish, "{:04x}: {} accepted", opcode, op);
                assert!(
                    dis_inst.mnemonic.to_lowercase() == mnemonic || mnemonic == "real",
                    "{:04x}: {} disassembled as {}",
                    opcode,
                    op,
                    dis_inst.mnemonic
                );
            },
        }
    }
}
