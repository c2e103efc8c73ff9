use cpu_helper::control::{ControlLine, ControlWord, Flag, Flags};
use cpu_helper::register::GeneralRegister;

#[test]
fn control_line_bits() {
    assert_eq!(ControlLine::RST.value(), 1);
    assert_eq!(ControlLine::AO.value(), 1 << 21);
    assert_eq!(ControlLine::IPE.value(), 1 << 24);
    assert_eq!(ControlLine::RETS.value(), 1 << 37);
}

#[test]
fn control_words_combine_lines() {
    let word = ControlWord::from_lines(&[ControlLine::MO, ControlLine::A2I]);
    assert_eq!(word.value(), (1 << 14) | (1 << 17));
    assert_eq!(ControlWord::from_lines(&[]).value(), 0);
    let both = word.union(ControlWord::from_lines(&[ControlLine::IPA]));
    assert_eq!(both.value(), (1 << 13) | (1 << 14) | (1 << 17));
}

#[test]
fn register_control_words() {
    assert_eq!(GeneralRegister::A.register_in().value(), 1 << 5);
    assert_eq!(GeneralRegister::D.register_in().value(), (1 << 5) | (1 << 6) | (1 << 7));
    assert_eq!(GeneralRegister::B.register_out().value(), (1 << 2) | (1 << 3));
    assert_eq!(GeneralRegister::C.register_out().value(), (1 << 2) | (1 << 4));
}

#[test]
fn flags() {
    let flags = Flags::from_flags(&[Flag::CO, Flag::NEG]);
    assert_eq!(flags.0, 0b1010);
    assert!(flags.has(Flag::CO));
    assert!(!flags.has(Flag::FZ));
    assert!(Flags::from_bits(0b0100).has(Flag::A2G1));
}
