use cpu_helper::assemble::{assemble, to_machine_code};
use cpu_helper::assembly_instruction::{AbsoluteAddress, AssemblyInstruction, Offset};
use cpu_helper::assembly_line::parse_instructions;
use cpu_helper::binary_program::BinaryProgram;
use cpu_helper::error::AssemblyError;
use cpu_helper::intermediate_assembly::IntermediateAssembly;
use cpu_helper::label::Label;
use cpu_helper::register::AssemblyRegister;

const FIBONACCI: &str = "\
        # Start the Fibonacci sequence from 0x01 and 0x00
        LI A, 0x01
        LI B, 0x00

        :loop
            ADD A, B
            # Use D as a temporary register to swap A and B
            MV D, A
            MV A, B
            MV B, D
            JCR .halt
            PJMP :loop
            JMP

        .halt
        HLT";

fn bytes(text: &str) -> Vec<u8> {
    assemble(text).unwrap().0
}

#[test]
fn test_fibonacci() {
    let assembly = parse_instructions(FIBONACCI.trim()).unwrap();
    let intermediate_assembly = IntermediateAssembly::lower(&assembly).unwrap();
    let program = BinaryProgram::link(&intermediate_assembly).unwrap();

    assert_eq!(
        program.0,
        vec![0x20, 0x01, 0x21, 0x00, 0x41, 0x0c, 0x01, 0x07, 0xc4, 0x05, 0xc0, 0x00, 0x04, 0xc1, 0xff]
    );
}

#[test]
fn fibonacci_through_assemble() {
    assert_eq!(
        bytes(FIBONACCI),
        vec![0x20, 0x01, 0x21, 0x00, 0x41, 0x0c, 0x01, 0x07, 0xc4, 0x05, 0xc0, 0x00, 0x04, 0xc1, 0xff]
    );
}

#[test]
fn assembling_twice_gives_the_same_bytes() {
    assert_eq!(bytes(FIBONACCI), bytes(FIBONACCI));
}

#[test]
fn absolute_label_is_its_address_high_byte_first() {
    let mut text = String::from("PJMP :end\nJMP\n");
    for _ in 0..300 {
        text.push_str("NOP\n");
    }
    text.push_str(":end HLT");
    let out = bytes(&text);
    // PJMP, two address bytes, JMP, then 300 NOPs: the label is at 304.
    assert_eq!(out.len(), 305);
    assert_eq!(&out[0..4], &[0xc0, 0x01, 0x30, 0xc1]);
    assert_eq!(out[304], 0xff);
}

#[test]
fn absolute_label_at_small_address() {
    assert_eq!(bytes("NOP\nNOP\n:here PJMP :here"), vec![0xfe, 0xfe, 0xc0, 0x00, 0x02]);
}

#[test]
fn hard_coded_address_and_offsets() {
    assert_eq!(bytes("PJMP 0xBEEF"), vec![0xc0, 0xbe, 0xef]);
    assert_eq!(bytes("JZR -2\nJNR +5\nJLTR 127"), vec![0xc5, 0xfe, 0xc6, 0x05, 0xc7, 0x7f]);
    assert_eq!(bytes("SPOF 200\nADDI C , 0x0f"), vec![0xfb, 200, 0x82, 0x0f]);
}

#[test]
fn every_mnemonic_parses() {
    let text = "NOP\nMV A,B\nMEMR C\nMEMW D\nMSRL A\nMSRH B\nLI C,0x10\nZERO D\nRTWL\nRTWH\nRTRL\nRTRH\n\
                ADD A,B\nSUB B,C\nNAND C,D\nXOR D,A\nADDI A,0x01\nINC B\nDEC C\nNEG D\nPJMP 0x0001\n\
                JMP\nJAL\nRET\nJCR 0\nJZR 0\nJNR 0\nJLTR 0\nSPSL A\nSPSH B\nPUSH\nPULL\nPEEK\nSPOF 1\nHLT";
    assert_eq!(
        bytes(text),
        vec![
            0xfe, 0x01, 0x12, 0x17, 0x18, 0x1d, 0x22, 0x10, 0x27, 0x2c, 0x2d, 0x2e, 0x2f, 0x41,
            0x56, 0x6b, 0x7c, 0x80, 0x01, 0x85, 0x8a, 0x8f, 0xc0, 0x00, 0x01, 0xc1, 0xc2, 0xc3,
            0xc4, 0x00, 0xc5, 0x00, 0xc6, 0x00, 0xc7, 0x00, 0xf0, 0xf5, 0xf8, 0xf9, 0xfa, 0xfb,
            0x01, 0xff,
        ]
    );
}

#[test]
fn absolute_and_relative_labels_do_not_collide() {
    assert_eq!(bytes(":x NOP\n.x JCR .x\nPJMP :x"), vec![0xfe, 0xc4, 0xff, 0xc0, 0x00, 0x00]);
}

#[test]
fn duplicate_label_is_rejected() {
    match assemble(":a NOP\n:a HLT") {
        Err(AssemblyError::DuplicateLabel(l)) => assert!(l == Label::Absolute(String::from("a"))),
        other => panic!("unexpected: {:?}", other.map(|p| p.0)),
    }
    match assemble(".b NOP\nNOP\n.b HLT") {
        Err(AssemblyError::DuplicateLabel(l)) => assert!(l == Label::Relative(String::from("b"))),
        other => panic!("unexpected: {:?}", other.map(|p| p.0)),
    }
}

#[test]
fn undeclared_label_is_rejected() {
    match assemble("JCR .nowhere") {
        Err(AssemblyError::UndeclaredLabel(l)) => {
            assert!(l == Label::Relative(String::from("nowhere")))
        }
        other => panic!("unexpected: {:?}", other.map(|p| p.0)),
    }
}

fn forward_branch(gap: usize) -> String {
    // The offset byte is at 1; the label at 2 + gap.
    let mut text = String::from("JCR .t\n");
    for _ in 0..gap {
        text.push_str("NOP\n");
    }
    text.push_str(".t HLT");
    text
}

fn backward_branch(gap: usize) -> String {
    // The label is at 0; the offset byte at gap + 1.
    let mut text = String::from(".t NOP\n");
    for _ in 1..gap {
        text.push_str("NOP\n");
    }
    text.push_str("JCR .t");
    text
}

#[test]
fn relative_offset_bounds() {
    let out = bytes(&forward_branch(126));
    assert_eq!(out[1], 127);
    match assemble(&forward_branch(127)) {
        Err(AssemblyError::OffsetOutOfRange { label, address }) => {
            assert!(label == Label::Relative(String::from("t")));
            assert_eq!(address, 129);
        }
        other => panic!("unexpected: {:?}", other.map(|p| p.0)),
    }
    let out = bytes(&backward_branch(127));
    assert_eq!(out[128], 0x80);
    match assemble(&backward_branch(128)) {
        Err(AssemblyError::OffsetOutOfRange { address, .. }) => assert_eq!(address, 0),
        other => panic!("unexpected: {:?}", other.map(|p| p.0)),
    }
}

#[test]
fn syntax_errors_report_the_rest() {
    match assemble("NOP\nFOO") {
        Err(AssemblyError::Syntax { position, remaining }) => {
            assert_eq!(position, 4);
            assert_eq!(remaining, "FOO");
        }
        other => panic!("unexpected: {:?}", other.map(|p| p.0)),
    }
    match assemble("NOPNOP") {
        Err(AssemblyError::Syntax { position, .. }) => assert_eq!(position, 3),
        other => panic!("unexpected: {:?}", other.map(|p| p.0)),
    }
    assert!(matches!(assemble("LI A, 0x123"), Err(AssemblyError::Syntax { .. })));
    assert!(matches!(assemble("JCR 128"), Err(AssemblyError::Syntax { .. })));
    assert!(matches!(assemble("SPOF 256"), Err(AssemblyError::Syntax { .. })));
    assert!(matches!(assemble("MV E, A"), Err(AssemblyError::Syntax { .. })));
}

#[test]
fn comments_and_blank_space_are_separators() {
    assert_eq!(bytes("# header\n\n  HLT # trailing\n# end\n"), vec![0xff]);
    assert_eq!(bytes("LI A ,0x02\nLI B,   0x03"), vec![0x20, 0x02, 0x21, 0x03]);
    assert_eq!(bytes(""), Vec::<u8>::new());
}

#[test]
fn too_many_elements() {
    let text = "NOP\n".repeat(65536);
    match assemble(&text) {
        Err(AssemblyError::ProgramTooLarge(n)) => assert_eq!(n, 65536),
        other => panic!("unexpected: {:?}", other.map(|p| p.0.len())),
    }
}

#[test]
fn too_many_bytes() {
    let mut text = String::from(":a NOP\n");
    text.push_str(&"PJMP :a\n".repeat(30000));
    match assemble(&text) {
        Err(AssemblyError::ProgramTooLarge(n)) => assert_eq!(n, 90001),
        other => panic!("unexpected: {:?}", other.map(|p| p.0.len())),
    }
}

#[test]
fn label_addresses_follow_declaration_order() {
    let lines = parse_instructions(":a LI A, 0x01\n:b PJMP :a\n.c NOP\n:d HLT").unwrap();
    let intermediate = IntermediateAssembly::lower(&lines).unwrap();
    let table = BinaryProgram::compute_labels_addresses(&intermediate).unwrap();
    let addresses: Vec<u16> = table.iter().map(|(_, a)| *a).collect();
    assert_eq!(addresses, vec![0, 2, 5, 6]);
    assert!(table[2].0 == Label::Relative(String::from("c")));
}

#[test]
fn reported_lengths_match_the_bytes() {
    let lines = parse_instructions(FIBONACCI).unwrap();
    let intermediate = IntermediateAssembly::lower(&lines).unwrap();
    let lengths: usize = intermediate.0.iter().map(|l| l.assembly.content_length() as usize).sum();
    assert_eq!(intermediate.len(), lengths);
    assert_eq!(BinaryProgram::link(&intermediate).unwrap().0.len(), lengths);
    assert_eq!(intermediate.0.len(), 14);
}

#[test]
fn labels_attach_to_the_first_element_of_a_line() {
    let lines = parse_instructions(":x LI A, 0x05").unwrap();
    let intermediate = IntermediateAssembly::lower(&lines).unwrap();
    assert_eq!(intermediate.0.len(), 2);
    assert!(intermediate.0[0].label == Some(Label::Absolute(String::from("x"))));
    assert!(intermediate.0[1].label.is_none());
}

#[test]
fn machine_code_of_literal_instructions() {
    let li = AssemblyInstruction::LI { dst: AssemblyRegister::B, value: 0x42 };
    assert_eq!(to_machine_code(&li), Some(vec![0x21, 0x42]));
    let jump = AssemblyInstruction::PJMP { address: AbsoluteAddress::HardCoded { address: 0x1234 } };
    assert_eq!(to_machine_code(&jump), Some(vec![0xc0, 0x12, 0x34]));
    let back = AssemblyInstruction::JZR { offset: Offset::HardCoded { offset: -3 } };
    assert_eq!(to_machine_code(&back), Some(vec![0xc5, 0xfd]));
    let named = AssemblyInstruction::JZR { offset: Offset::Label { name: String::from("l") } };
    assert_eq!(to_machine_code(&named), None);
}
