use chip8_core::decode::decode_instruction;
use chip8_core::decode::DecodeError;
use chip8_core::instruction::Instruction;
use chip8_core::values::Address;
use chip8_core::values::Constant;
use chip8_core::values::Register;

fn reg(n: u8) -> Register {
    Register::new(n)
}

fn con(hi: u8, lo: u8) -> Constant {
    Constant::new(hi, lo)
}

fn addr(a: u8, b: u8, c: u8) -> Address {
    Address::new(a, b, c)
}

fn dec(hi: u8, lo: u8) -> Instruction {
    decode_instruction(hi, lo, 0x200).expect("pattern should decode")
}

#[test]
fn decode_set_immediate_packs_nibbles() {
    assert_eq!(dec(0x61, 0x23), Instruction::SetImmediate(reg(1), con(2, 3)));
    assert_eq!(con(2, 3).value, 0x23);
}

#[test]
fn decode_family_zero() {
    assert_eq!(dec(0x00, 0xE0), Instruction::ClearScreen);
    assert_eq!(dec(0x00, 0xEE), Instruction::Return);
    assert_eq!(dec(0x01, 0x23), Instruction::SysCall(addr(1, 2, 3)));
    assert_eq!(dec(0x00, 0x00), Instruction::SysCall(addr(0, 0, 0)));
}

#[test]
fn decode_control_transfers() {
    assert_eq!(dec(0x1A, 0xBC), Instruction::Jump(addr(0xA, 0xB, 0xC)));
    assert_eq!(addr(0xA, 0xB, 0xC).value, 0xABC);
    assert_eq!(dec(0x2F, 0xFF), Instruction::Call(addr(0xF, 0xF, 0xF)));
    assert_eq!(dec(0xB1, 0x23), Instruction::JumpOffset(addr(1, 2, 3)));
}

#[test]
fn decode_conditional_skips() {
    assert_eq!(dec(0x34, 0x56), Instruction::SkipIfEqual(reg(4), con(5, 6)));
    assert_eq!(dec(0x44, 0x56), Instruction::SkipIfNotEqual(reg(4), con(5, 6)));
    assert_eq!(dec(0x51, 0x20), Instruction::SkipIfRegistersEqual(reg(1), reg(2)));
    assert_eq!(dec(0x91, 0x20), Instruction::SkipIfRegistersNotEqual(reg(1), reg(2)));
}

#[test]
fn decode_immediate_arithmetic() {
    assert_eq!(dec(0x70, 0xFF), Instruction::AddImmediate(reg(0), con(0xF, 0xF)));
    assert_eq!(dec(0x6E, 0x01), Instruction::SetImmediate(reg(0xE), con(0, 1)));
}

#[test]
fn decode_register_family() {
    assert_eq!(dec(0x81, 0x20), Instruction::SetRegister(reg(1), reg(2)));
    assert_eq!(dec(0x81, 0x21), Instruction::OrRegister(reg(1), reg(2)));
    assert_eq!(dec(0x81, 0x22), Instruction::AndRegister(reg(1), reg(2)));
    assert_eq!(dec(0x81, 0x23), Instruction::XorRegister(reg(1), reg(2)));
    assert_eq!(dec(0x81, 0x24), Instruction::AdcRegister(reg(1), reg(2)));
    assert_eq!(dec(0x81, 0x25), Instruction::SwbRegister(reg(1), reg(2)));
    assert_eq!(dec(0x81, 0x26), Instruction::ShrRegister(reg(1), reg(2)));
    assert_eq!(dec(0x81, 0x27), Instruction::ReverseSwbRegister(reg(1), reg(2)));
    assert_eq!(dec(0x81, 0x2E), Instruction::ShlRegister(reg(1), reg(2)));
}

#[test]
fn decode_memory_and_misc() {
    assert_eq!(dec(0xA1, 0x23), Instruction::StoreAddress(addr(1, 2, 3)));
    assert_eq!(dec(0xC4, 0x7F), Instruction::StoreRandom(reg(4), con(7, 0xF)));
    assert_eq!(dec(0xD1, 0x25), Instruction::DrawSprite(reg(1), reg(2), Constant::new(0, 5)));
    assert_eq!(dec(0xE1, 0x9E), Instruction::SkipIfPressed(reg(1)));
    assert_eq!(dec(0xE1, 0xA1), Instruction::SkipIfNotPressed(reg(1)));
}

#[test]
fn decode_timer_and_block_family() {
    assert_eq!(dec(0xF1, 0x07), Instruction::SetFromDelay(reg(1)));
    assert_eq!(dec(0xF1, 0x0A), Instruction::WaitKeyPress(reg(1)));
    assert_eq!(dec(0xF1, 0x15), Instruction::SetToDelay(reg(1)));
    assert_eq!(dec(0xF1, 0x18), Instruction::SetToSound(reg(1)));
    assert_eq!(dec(0xF1, 0x1E), Instruction::AddAddress(reg(1)));
    assert_eq!(dec(0xF1, 0x29), Instruction::SetAddressToSprite(reg(1)));
    assert_eq!(dec(0xF1, 0x33), Instruction::StoreBCD(reg(1)));
    assert_eq!(dec(0xF1, 0x55), Instruction::StoreRegisters(reg(1)));
    assert_eq!(dec(0xF1, 0x65), Instruction::LoadRegisters(reg(1)));
}

#[test]
fn unknown_opcode_reports_address_and_nibbles() {
    let e = decode_instruction(0xF0, 0xFF, 0x0246).unwrap_err();
    assert_eq!(
        e,
        DecodeError { at: 0x0246, a: 0xF, b: 0x0, c: 0xF, d: 0xF }
    );
}

#[test]
fn unrecognized_subcodes_fail() {
    assert!(decode_instruction(0x51, 0x21, 0).is_err());
    assert!(decode_instruction(0x81, 0x28, 0).is_err());
    assert!(decode_instruction(0x91, 0x21, 0).is_err());
    assert!(decode_instruction(0xE1, 0x9F, 0).is_err());
    assert!(decode_instruction(0xF1, 0x56, 0).is_err());
}

#[test]
fn text_forms_are_stable() {
    assert_eq!(Instruction::ClearScreen.text(), "CLS");
    assert_eq!(Instruction::Return.text(), "RET");
    assert_eq!(Instruction::SysCall(addr(1, 2, 3)).text(), "SYS 123");
    assert_eq!(Instruction::Jump(addr(0xA, 0xB, 0xC)).text(), "JP ABC");
    assert_eq!(Instruction::Call(addr(0, 2, 0)).text(), "CALL 020");
    assert_eq!(Instruction::SkipIfEqual(reg(1), con(2, 3)).text(), "SE V1, 23");
    assert_eq!(Instruction::SkipIfNotEqual(reg(1), con(2, 3)).text(), "SNE V1, 23");
    assert_eq!(Instruction::SkipIfRegistersEqual(reg(1), reg(2)).text(), "SE V1, V2");
    assert_eq!(Instruction::SetImmediate(reg(1), con(0xD, 3)).text(), "LD V1, D3");
    assert_eq!(Instruction::AddImmediate(reg(1), con(0, 9)).text(), "ADD V1, 09");
    assert_eq!(Instruction::SetRegister(reg(1), reg(2)).text(), "LD V1, V2");
    assert_eq!(Instruction::OrRegister(reg(1), reg(2)).text(), "OR V1, V2");
    assert_eq!(Instruction::AndRegister(reg(1), reg(2)).text(), "AND V1, V2");
    assert_eq!(Instruction::XorRegister(reg(1), reg(2)).text(), "XOR V1, V2");
    assert_eq!(Instruction::AdcRegister(reg(1), reg(2)).text(), "ADD V1, V2");
    assert_eq!(Instruction::SwbRegister(reg(1), reg(2)).text(), "SUB V1, V2");
    assert_eq!(Instruction::ShrRegister(reg(1), reg(2)).text(), "SHR V1, V2");
    assert_eq!(Instruction::ReverseSwbRegister(reg(1), reg(2)).text(), "SUBN V1, V2");
    assert_eq!(Instruction::ShlRegister(reg(1), reg(2)).text(), "SHL V1, V2");
    assert_eq!(Instruction::SkipIfRegistersNotEqual(reg(1), reg(2)).text(), "SNE V1, V2");
    assert_eq!(Instruction::StoreAddress(addr(1, 2, 3)).text(), "LD I, 123");
    assert_eq!(Instruction::JumpOffset(addr(1, 2, 3)).text(), "JP V0, 123");
    assert_eq!(Instruction::StoreRandom(reg(4), con(7, 0xF)).text(), "RND V4, 7F");
    assert_eq!(Instruction::DrawSprite(reg(1), reg(2), Constant::new(0, 5)).text(), "DRW V1, V2, 05");
    assert_eq!(Instruction::SkipIfPressed(reg(1)).text(), "SKP V1");
    assert_eq!(Instruction::SkipIfNotPressed(reg(1)).text(), "SKNP V1");
    assert_eq!(Instruction::SetFromDelay(reg(1)).text(), "LD V1, DT");
    assert_eq!(Instruction::WaitKeyPress(reg(1)).text(), "LD V1, K");
    assert_eq!(Instruction::SetToDelay(reg(1)).text(), "LD DT, V1");
    assert_eq!(Instruction::SetToSound(reg(1)).text(), "LD ST, V1");
    assert_eq!(Instruction::AddAddress(reg(1)).text(), "ADD I, V1");
    assert_eq!(Instruction::SetAddressToSprite(reg(1)).text(), "LD F, V1");
    assert_eq!(Instruction::StoreBCD(reg(1)).text(), "LD B, V1");
    assert_eq!(Instruction::StoreRegisters(reg(1)).text(), "LD [I], V1");
    assert_eq!(Instruction::LoadRegisters(reg(1)).text(), "LD V1, [I]");
}

#[test]
fn text_forms_distinguish_operand_shapes() {
    let imm = Instruction::SetImmediate(reg(1), Constant::new(0xD, 0xE)).text();
    let rr = Instruction::SetRegister(reg(1), reg(0xE)).text();
    let dt = Instruction::SetFromDelay(reg(1)).text();
    assert_ne!(imm, rr);
    assert_ne!(imm, dt);
    assert_ne!(rr, dt);
}

#[test]
fn decode_then_text_golden() {
    assert_eq!(dec(0x61, 0x23).text(), "LD V1, 23");
    assert_eq!(dec(0x00, 0xE0).text(), "CLS");
    assert_eq!(dec(0x8A, 0xB4).text(), "ADD VA, VB");
    assert_eq!(dec(0xF3, 0x65).text(), "LD V3, [I]");
}
