use chip8::disasm::{disassemble, translate};

#[test]
fn translate_control_flow() {
    assert_eq!(translate(0x00E0), "CLR");
    assert_eq!(translate(0x00EE), "RET");
    assert_eq!(translate(0x0123), "FAIL (OPCODE MISSING  123)");
    assert_eq!(translate(0x1ABC), "JMP 0xabc");
    assert_eq!(translate(0x1005), "JMP 0x005");
    assert_eq!(translate(0x2345), "CLL 0x345");
    assert_eq!(translate(0xB123), "JMP 0x123, V0");
    assert_eq!(translate(0xA0FF), "ADR 0x0ff");
}

#[test]
fn translate_register_forms() {
    assert_eq!(translate(0x3A12), "IF Va, 18");
    assert_eq!(translate(0x4A12), "IF NOT Va, 18");
    assert_eq!(translate(0x5120), "IF V1, V32");
    assert_eq!(translate(0x6C7F), "SET Vc, 127");
    assert_eq!(translate(0x7C01), "ADD Vc, 1");
    assert_eq!(translate(0x8AB0), "SET Va, Vb");
    assert_eq!(translate(0x8121), "OR  V1, V2");
    assert_eq!(translate(0x8AB4), "ADD Va, Vb");
    assert_eq!(translate(0x8127), "SU2 V1, V2");
    assert_eq!(translate(0x812E), "SHL V1, V2");
    assert_eq!(translate(0x9AB0), "IF NOT Va, Vb");
    assert_eq!(translate(0xC30F), "RND V3, 0x0f");
    assert_eq!(translate(0xD125), "DRW V1, V2, 5");
}

#[test]
fn translate_key_and_timer_forms() {
    assert_eq!(translate(0xE49E), "KEY 4");
    assert_eq!(translate(0xEAA1), "KEY NOT 10");
    assert_eq!(translate(0xF007), "GETDELAY V0");
    assert_eq!(translate(0xFE0A), "KEYWAIT Ve");
    assert_eq!(translate(0xF115), "SETDELAY V1");
    assert_eq!(translate(0xF218), "SETSOUND V2");
    assert_eq!(translate(0xF31E), "ADDR V3");
    assert_eq!(translate(0xF029), "FONT V0");
    assert_eq!(translate(0xF533), "BCD V5");
    assert_eq!(translate(0xFF55), "WRITE Vf");
    assert_eq!(translate(0xF665), "READ V6");
}

#[test]
fn translate_invalid_words() {
    assert_eq!(translate(0x8128), "FAIL (OPCODE INVALID 8128)");
    assert_eq!(translate(0xE400), "FAIL (OPCODE INVALID e400)");
    assert_eq!(translate(0xF075), "FAIL (OPCODE MISSING f075)");
    assert_eq!(translate(0xF0FF), "FAIL (OPCODE INVALID f0ff)");
    assert_eq!(translate(0x0001), "FAIL (OPCODE MISSING    1)");
}

#[test]
fn disassemble_program() {
    let text = disassemble(&[0x00, 0xE0, 0x12, 0x00, 0x60, 0x05]);
    assert_eq!(text, vec!["CLR", "JMP 0x200", "SET V0, 5"]);
    assert!(disassemble(&[]).is_empty());
}
