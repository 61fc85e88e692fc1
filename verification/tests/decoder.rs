use chip8::opcodes::decode;
use chip8::opcodes::kk;
use chip8::opcodes::n;
use chip8::opcodes::nnn;
use chip8::opcodes::x;
use chip8::opcodes::y;
use chip8::Instruction;

#[test]
fn field_helpers_extract_exact_bits() {
    assert_eq!(nnn(0xABCD), 0xBCD);
    assert_eq!(nnn(0x1000), 0x000);
    assert_eq!(kk(0xABCD), 0xCD);
    assert_eq!(n(0xABCD), 0xD);
    assert_eq!(x(0xABCD), 0xB);
    assert_eq!(y(0xABCD), 0xC);
    assert_eq!(x(0xF0F0), 0x0);
    assert_eq!(y(0xF0F0), 0xF);
}

#[test]
fn decode_is_total() {
    // Every 16-bit value decodes to some instruction without failing.
    for op in 0..=0xFFFFu16 {
        let _ = decode(op);
    }
}

#[test]
fn decode_is_deterministic() {
    for op in 0..=0xFFFFu16 {
        assert_eq!(decode(op), decode(op));
    }
}

#[test]
fn decode_class_0() {
    assert_eq!(decode(0x00E0), Instruction::CLS);
    assert_eq!(decode(0x00EE), Instruction::RET);
    assert_eq!(decode(0x0123), Instruction::SYS(0x123));
    assert_eq!(decode(0x00FB), Instruction::SCR);
    assert_eq!(decode(0x00FC), Instruction::SCL);
    assert_eq!(decode(0x00FD), Instruction::EXIT);
    assert_eq!(decode(0x00FE), Instruction::LOW);
    assert_eq!(decode(0x00FF), Instruction::HIGH);
    assert_eq!(decode(0x00C5), Instruction::SCD(0x5));
}

#[test]
fn decode_jumps_and_calls() {
    assert_eq!(decode(0x1234), Instruction::JP(0x234));
    assert_eq!(decode(0x2ABC), Instruction::CALL(0xABC));
    assert_eq!(decode(0xA111), Instruction::LDI(0x111));
    assert_eq!(decode(0xB222), Instruction::JPV0(0x222));
}

#[test]
fn decode_skips() {
    assert_eq!(decode(0x3A42), Instruction::SEVxImm { x: 0xA, imm: 0x42 });
    assert_eq!(decode(0x4B99), Instruction::SNEVxImm { x: 0xB, imm: 0x99 });
    assert_eq!(decode(0x5120), Instruction::SEVxVy { x: 0x1, y: 0x2 });
    assert_eq!(decode(0x5121), Instruction::Unknown(0x5121));
    assert_eq!(decode(0x9340), Instruction::SNEVxVy { x: 0x3, y: 0x4 });
    assert_eq!(decode(0x9341), Instruction::Unknown(0x9341));
}

#[test]
fn decode_immediates() {
    assert_eq!(decode(0x6C10), Instruction::LDVxImm { x: 0xC, imm: 0x10 });
    assert_eq!(decode(0x7D20), Instruction::ADDVxImm { x: 0xD, imm: 0x20 });
    assert_eq!(decode(0xCE30), Instruction::RNDVxImm { x: 0xE, imm: 0x30 });
}

#[test]
fn decode_alu() {
    assert_eq!(decode(0x8120), Instruction::LDVxVy { x: 1, y: 2 });
    assert_eq!(decode(0x8121), Instruction::ORVxVy { x: 1, y: 2 });
    assert_eq!(decode(0x8122), Instruction::ANDVxVy { x: 1, y: 2 });
    assert_eq!(decode(0x8123), Instruction::XORVxVy { x: 1, y: 2 });
    assert_eq!(decode(0x8124), Instruction::ADDVxVy { x: 1, y: 2 });
    assert_eq!(decode(0x8125), Instruction::SUBVxVy { x: 1, y: 2 });
    assert_eq!(decode(0x8126), Instruction::SHRVxVy { x: 1, y: 2 });
    assert_eq!(decode(0x8127), Instruction::SUBNVxVy { x: 1, y: 2 });
    assert_eq!(decode(0x812E), Instruction::SHLVxVy { x: 1, y: 2 });
    assert_eq!(decode(0x8128), Instruction::Unknown(0x8128));
    assert_eq!(decode(0x812F), Instruction::Unknown(0x812F));
}

#[test]
fn decode_draw() {
    assert_eq!(decode(0xD125), Instruction::DRWVxVyn { x: 1, y: 2, n: 5 });
    assert_eq!(decode(0xD120), Instruction::DRWVxVy0 { x: 1, y: 2 });
}

#[test]
fn decode_keys() {
    assert_eq!(decode(0xE19E), Instruction::SKPVx(1));
    assert_eq!(decode(0xE2A1), Instruction::SKNPVx(2));
    assert_eq!(decode(0xE100), Instruction::Unknown(0xE100));
}

#[test]
fn decode_class_f() {
    assert_eq!(decode(0xF107), Instruction::LDVxDT(1));
    assert_eq!(decode(0xF20A), Instruction::LDVxK(2));
    assert_eq!(decode(0xF315), Instruction::LDDTVx(3));
    assert_eq!(decode(0xF418), Instruction::LDSTVx(4));
    assert_eq!(decode(0xF51E), Instruction::ADDIVx(5));
    assert_eq!(decode(0xF629), Instruction::LDFVx(6));
    assert_eq!(decode(0xF730), Instruction::LDHFVx(7));
    assert_eq!(decode(0xF833), Instruction::LDBVx(8));
    assert_eq!(decode(0xF955), Instruction::LDIVx(9));
    assert_eq!(decode(0xFA65), Instruction::LDVxI(0xA));
    assert_eq!(decode(0xFB75), Instruction::LDRV(0xB));
    assert_eq!(decode(0xFC85), Instruction::LDVxR(0xC));
    assert_eq!(decode(0xF1FF), Instruction::Unknown(0xF1FF));
}
