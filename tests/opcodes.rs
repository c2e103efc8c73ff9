use cpu_helper::machine_instruction::{MachineInstruction, CANONICAL_NOP};
use cpu_helper::register::GeneralRegister;

const REGISTERS: [GeneralRegister; 4] =
    [GeneralRegister::A, GeneralRegister::B, GeneralRegister::C, GeneralRegister::D];

fn all_instructions() -> Vec<MachineInstruction> {
    let mut all = vec![
        MachineInstruction::RTWL,
        MachineInstruction::RTWH,
        MachineInstruction::RTRL,
        MachineInstruction::RTRH,
        MachineInstruction::PJMP,
        MachineInstruction::JMP,
        MachineInstruction::JAL,
        MachineInstruction::RET,
        MachineInstruction::JCR,
        MachineInstruction::JZR,
        MachineInstruction::JNR,
        MachineInstruction::JLTR,
        MachineInstruction::PUSH,
        MachineInstruction::PULL,
        MachineInstruction::PEEK,
        MachineInstruction::SPOF,
        MachineInstruction::HLT,
        MachineInstruction::NOP,
    ];
    for a in REGISTERS {
        all.push(MachineInstruction::MEMR { dst: a });
        all.push(MachineInstruction::MEMW { src: a });
        all.push(MachineInstruction::MSRL { src: a });
        all.push(MachineInstruction::MSRH { src: a });
        all.push(MachineInstruction::LI { dst: a });
        all.push(MachineInstruction::ZERO { dst: a });
        all.push(MachineInstruction::ADDI { dst: a });
        all.push(MachineInstruction::INC { dst: a });
        all.push(MachineInstruction::DEC { dst: a });
        all.push(MachineInstruction::NEG { dst: a });
        all.push(MachineInstruction::SPSL { src: a });
        all.push(MachineInstruction::SPSH { src: a });
        for b in REGISTERS {
            all.push(MachineInstruction::MV { dst: a, src: b });
            all.push(MachineInstruction::ADD { acc: a, val: b });
            all.push(MachineInstruction::SUB { acc: a, val: b });
            all.push(MachineInstruction::NAND { acc: a, val: b });
            all.push(MachineInstruction::XOR { acc: a, val: b });
        }
    }
    all
}

#[test]
fn decode_then_encode_is_identity_but_for_spare_nops() {
    let mut nops = 0;
    for b in 0..=255u8 {
        let decoded = MachineInstruction::from_byte(b);
        if decoded == MachineInstruction::NOP {
            nops += 1;
            assert_eq!(decoded.opcode(), CANONICAL_NOP);
        } else {
            assert_eq!(decoded.opcode(), b);
        }
    }
    assert_eq!(nops, 256 - (all_instructions().len() - 1));
}

#[test]
fn encode_then_decode_is_identity() {
    let all = all_instructions();
    let mut codes: Vec<u8> = all.iter().map(|i| i.opcode()).collect();
    for i in &all {
        assert_eq!(MachineInstruction::from_byte(i.opcode()), *i);
    }
    codes.sort();
    codes.dedup();
    assert_eq!(codes.len(), all.len());
}

#[test]
fn known_opcodes() {
    assert_eq!(MachineInstruction::LI { dst: GeneralRegister::A }.opcode(), 0x20);
    assert_eq!(
        MachineInstruction::MV { dst: GeneralRegister::D, src: GeneralRegister::A }.opcode(),
        0x0c
    );
    assert_eq!(
        MachineInstruction::ADD { acc: GeneralRegister::A, val: GeneralRegister::B }.opcode(),
        0x41
    );
    assert_eq!(MachineInstruction::JCR.opcode(), 0xc4);
    assert_eq!(MachineInstruction::HLT.opcode(), 0xff);
    assert_eq!(MachineInstruction::NOP.opcode(), 0xfe);
    assert_eq!(MachineInstruction::from_byte(0x30), MachineInstruction::NOP);
    assert_eq!(MachineInstruction::from_byte(0x2a), MachineInstruction::NOP);
    assert_eq!(
        MachineInstruction::from_byte(0x8e),
        MachineInstruction::NEG { dst: GeneralRegister::C }
    );
}
