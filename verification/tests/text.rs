use m68k_decode::disassembler::disassemble;
use m68k_decode::disassembler::Disassembler;
use m68k_decode::memory::MemoryVec;
use m68k_decode::operand::dec_u32;
use m68k_decode::operand::hex_fixed;
use m68k_decode::operand::hex_u32;
use m68k_decode::operand::Operand;
use m68k_decode::optable::Size;

#[test]
fn renders_numbers() {
    assert_eq!("0", dec_u32(0));
    assert_eq!("7", dec_u32(7));
    assert_eq!("52", dec_u32(52));
    assert_eq!("4294967295", dec_u32(u32::MAX));
    assert_eq!("0", hex_u32(0));
    assert_eq!("1f00a4", hex_u32(0x1f00a4));
    assert_eq!("00ff", hex_fixed(0xff, 4));
    assert_eq!("12345678", hex_fixed(0x12345678, 8));
}

#[test]
fn renders_operands() {
    assert_eq!("D5", Operand::DataRegisterDirect(5).text());
    assert_eq!("A0", Operand::AddressRegisterDirect(0).text());
    assert_eq!("(A3)", Operand::AddressRegisterIndirect(3).text());
    assert_eq!("(A3)+", Operand::AddressRegisterIndirectWithPostincrement(3).text());
    assert_eq!("-(A7)", Operand::AddressRegisterIndirectWithPredecrement(7).text());
    assert_eq!("52(A5)", Operand::AddressRegisterIndirectWithDisplacement(5, 52).text());
    assert_eq!("-4(A3)", Operand::AddressRegisterIndirectWithDisplacement(3, -4).text());
    assert_eq!("52(A5,D2)", Operand::AddressRegisterIndirectWithIndex(5, 2, 52).text());
    assert_eq!("-1(A5,A6)", Operand::AddressRegisterIndirectWithIndex(5, 14, -1).text());
    assert_eq!("10(PC)", Operand::PcWithDisplacement(10).text());
    assert_eq!("-2(PC,D3)", Operand::PcWithIndex(3, -2).text());
    assert_eq!("$1234", Operand::AbsoluteWord(0x1234).text());
    assert_eq!("$0000ffff.L", Operand::AbsoluteLong(0xffff).text());
    assert_eq!("$12345678.L", Operand::AbsoluteLong(0x12345678).text());
    assert_eq!("#$1f", Operand::Immediate(Size::Byte, 0x1f).text());
    assert_eq!("CCR", Operand::StatusRegister(Size::Byte).text());
    assert_eq!("SR", Operand::StatusRegister(Size::Word).text());
    assert_eq!("USP", Operand::UserStackPointer.text());
    assert_eq!("-2", Operand::Displacement(Size::Byte, 0xfe).text());
    assert_eq!("2", Operand::Displacement(Size::Byte, 2).text());
    assert_eq!("-16", Operand::Displacement(Size::Word, 0xfff0).text());
}

#[test]
fn disassembles_branches_both_ways() {
    let mem = MemoryVec::new16(0, vec![0x6602, 0, 0, 0, 0]);
    let inst = disassemble(0, &mem).unwrap();
    assert_eq!("BNE.B\t2", inst.text());

    let mem = MemoryVec::new16(0, vec![0x6600, 0x0010, 0, 0, 0]);
    let inst = disassemble(0, &mem).unwrap();
    assert_eq!("BNE.W\t16", inst.text());

    let mem = MemoryVec::new16(0, vec![0x66ff, 0, 0x0100, 0, 0]);
    assert!(disassemble(0, &mem).is_err());
}

#[test]
fn disassembles_a_spread_of_instructions() {
    let d = Disassembler::new();
    let cases: Vec<(Vec<u16>, &str)> = vec![
        (vec![0x4e71], "NOP"),
        (vec![0x4e75], "RTS"),
        (vec![0x4e72, 0x2700], "STOP\t#$2700"),
        (vec![0x4e41], "TRAP\t#$1"),
        (vec![0x7012], "MOVEQ.L\t#$12,D0"),
        (vec![0x80fc, 0x0000], "DIVU.W\t#$0,D0"),
        (vec![0xd0b9, 0x0001, 0x0000], "ADD.L\t$00010000.L,D0"),
        (vec![0x1e27], "MOVE.B\t-(A7),D7"),
        (vec![0x2f00], "MOVE.L\tD0,-(A7)"),
        (vec![0x4cdf, 0x0303], "MOVEM.L\t(A7)+,#$303"),
        (vec![0x48e7, 0xc0c0], "MOVEM.L\t#$c0c0,-(A7)"),
        (vec![0x51c8, 0xfffc], "DBF.W\tD0,-4"),
        (vec![0xe508], "LSL.B\t#$2,D0"),
        (vec![0xe52c], "LSL.B\tD2,D4"),
        (vec![0x4840], "SWAP.L\tD0"),
        (vec![0x4e56, 0xfff0], "LINK.W\tA6,#$fff0"),
        (vec![0x4e5e], "UNLK.L\tA6"),
        (vec![0x4e60], "MOVE.L\tA0,USP"),
        (vec![0x4e68], "MOVE.L\tUSP,A0"),
        (vec![0xc342], "EXG.L\tD1,D2"),
        (vec![0x0801, 0x0007], "BTST.L\t#$7,D1"),
        (vec![0x44fc, 0x001f], "MOVE.W\t#$1f,CCR"),
        (vec![0x46fc, 0x2700], "MOVE.W\t#$2700,SR"),
        (vec![0x40c0], "MOVE.W\tSR,D0"),
        (vec![0xc101], "ABCD.B\tD1,D0"),
        (vec![0x8f02], "SBCD.B\tD2,D7"),
        (vec![0xd109], "ADDX.B\t-(A1),-(A0)"),
        (vec![0x9340], "SUBX.W\tD0,D1"),
        (vec![0xb308], "CMPM.B\t(A0)+,(A1)+"),
        (vec![0x4880], "EXT.W\tD0"),
        (vec![0x48c1], "EXT.L\tD1"),
        (vec![0x4e90], "JSR.L\t(A0)"),
        (vec![0x4ed1], "JMP.L\t(A1)"),
        (vec![0x41fa, 0x000a], "LEA.L\t10(PC),A0"),
        (vec![0x4850], "PEA.L\t(A0)"),
        (vec![0x50c0], "ST.B\tD0"),
        (vec![0x57c1], "SEQ.B\tD1"),
        (vec![0x0188, 0x0004], "MOVEP.W\tD0,4(A0)"),
        (vec![0x0148, 0x0004], "MOVEP.L\t4(A0),D0"),
        (vec![0x4180], "CHK.W\tD0,D0"),
        (vec![0x4ad0], "TAS.B\t(A0)"),
        (vec![0x4800], "NBCD.B\tD0"),
        (vec![0x4239, 0x0000, 0x0001], "CLR.B\t$00000001.L"),
        (vec![0xe5d0], "ROXL.W\t(A0)"),
        (vec![0x023c, 0x000f], "ANDI.B\t#$f,CCR"),
        (vec![0x0a7c, 0x0700], "EORI.W\t#$700,SR"),
        (vec![0x6004], "BRA.B\t4"),
        (vec![0x6100, 0x0020], "BSR.W\t32"),
        (vec![0x70ff], "MOVEQ.L\t#$ff,D0"),
        (vec![0x5248], "ADDQ.W\t#$1,A0"),
        (vec![0x5181], "SUBQ.L\t#$8,D1"),
        (vec![0xc788], "EXG.L\tD3,A0"),
        (vec![0xc149], "EXG.L\tA0,A1"),
    ];
    for (words, want) in cases {
        let mut padded = words.clone();
        while padded.len() < 5 {
            padded.push(0);
        }
        let mem = MemoryVec::new16(0, padded);
        let inst = d.disassemble(0, &mem).unwrap();
        assert_eq!(want, inst.text(), "opcode {:04x}", words[0]);
    }
}
