//! The canonical text form of each operation, for tooling and debugging:
//! one mnemonic-and-operand rendering per variant, with addresses as
//! three uppercase hex digits, constants as two, and registers as `V`
//! followed by one. The form is a stable output contract: a spec-level
//! parser maps every rendered text back to the operation it came from,
//! so the rendering is unique per operation.

use vstd::prelude::*;
use vstd::string::StringExecFns;
use vstd::arithmetic::div_mod::lemma_fundamental_div_mod;
use vstd::arithmetic::div_mod::lemma_mod_bound;
use vstd::arithmetic::div_mod::lemma_div_denominator;
use crate::values::Address;
use crate::values::Constant;
use crate::values::Register;
use crate::instruction::Instruction;

verus! {

/// The uppercase hex digit for a nibble value.
pub open spec fn hexc(n: int) -> char {
    if n == 0 { '0' }
    else if n == 1 { '1' }
    else if n == 2 { '2' }
    else if n == 3 { '3' }
    else if n == 4 { '4' }
    else if n == 5 { '5' }
    else if n == 6 { '6' }
    else if n == 7 { '7' }
    else if n == 8 { '8' }
    else if n == 9 { '9' }
    else if n == 10 { 'A' }
    else if n == 11 { 'B' }
    else if n == 12 { 'C' }
    else if n == 13 { 'D' }
    else if n == 14 { 'E' }
    else if n == 15 { 'F' }
    else { '?' }
}

/// The nibble value of an uppercase hex digit, or 16 for any other
/// character.
pub open spec fn hexv(ch: char) -> int {
    if ch == '0' { 0 }
    else if ch == '1' { 1 }
    else if ch == '2' { 2 }
    else if ch == '3' { 3 }
    else if ch == '4' { 4 }
    else if ch == '5' { 5 }
    else if ch == '6' { 6 }
    else if ch == '7' { 7 }
    else if ch == '8' { 8 }
    else if ch == '9' { 9 }
    else if ch == 'A' { 10 }
    else if ch == 'B' { 11 }
    else if ch == 'C' { 12 }
    else if ch == 'D' { 13 }
    else if ch == 'E' { 14 }
    else if ch == 'F' { 15 }
    else { 16 }
}

/// Rendering a nibble and reading it back is the identity, and a hex
/// digit is never one of the punctuation or keyword characters the
/// parser dispatches on.
pub broadcast proof fn lemma_hexc_props(n: int)
    requires
        0 <= n < 16,
    ensures
        hexv(#[trigger] hexc(n)) == n,
        hexc(n) != 'V',
        hexc(n) != 'T',
        hexc(n) != 'K',
        hexc(n) != 'I',
        hexc(n) != '[',
        hexc(n) != ']',
        hexc(n) != ',',
        hexc(n) != ' ',
{
}

/// The digit character of a register identifier.
pub open spec fn regc(r: Register) -> char {
    hexc(r.value as int)
}

/// The high digit of an 8-bit constant.
pub open spec fn chi(v: u8) -> char {
    hexc(v as int / 16)
}

/// The low digit of an 8-bit constant.
pub open spec fn clo(v: u8) -> char {
    hexc(v as int % 16)
}

/// The three digits of a 12-bit address, high to low.
pub open spec fn a1(v: u16) -> char {
    hexc(v as int / 256)
}

pub open spec fn a2(v: u16) -> char {
    hexc((v as int / 16) % 16)
}

pub open spec fn a3(v: u16) -> char {
    hexc(v as int % 16)
}

/// An 8-bit value splits into two nibbles that reassemble to it.
pub proof fn lemma_const_digits(v: u8)
    ensures
        0 <= v as int / 16 < 16,
        0 <= v as int % 16 < 16,
        16 * (v as int / 16) + v as int % 16 == v as int,
{
    lemma_fundamental_div_mod(v as int, 16);
    lemma_mod_bound(v as int, 16);
}

/// A 12-bit value splits into three nibbles that reassemble to it.
pub proof fn lemma_addr_digits(v: u16)
    requires
        v <= 0xFFF,
    ensures
        0 <= v as int / 256 < 16,
        0 <= (v as int / 16) % 16 < 16,
        0 <= v as int % 16 < 16,
        256 * (v as int / 256) + 16 * ((v as int / 16) % 16) + v as int % 16 == v as int,
{
    let x = v as int;
    lemma_fundamental_div_mod(x, 16);
    lemma_mod_bound(x, 16);
    lemma_fundamental_div_mod(x / 16, 16);
    lemma_mod_bound(x / 16, 16);
    lemma_div_denominator(x, 16, 16);
}

/// The canonical text of an operation.
pub open spec fn text_spec(i: Instruction) -> Seq<char> {
    match i {
        Instruction::ClearScreen => seq!['C', 'L', 'S'],
        Instruction::Return => seq!['R', 'E', 'T'],
        Instruction::SysCall(a) => seq!['S', 'Y', 'S', ' ', a1(a.value), a2(a.value), a3(a.value)],
        Instruction::Jump(a) => seq!['J', 'P', ' ', a1(a.value), a2(a.value), a3(a.value)],
        Instruction::Call(a) => seq!['C', 'A', 'L', 'L', ' ', a1(a.value), a2(a.value), a3(a.value)],
        Instruction::SkipIfEqual(x, c) => seq!['S', 'E', ' ', 'V', regc(x), ',', ' ', chi(c.value), clo(c.value)],
        Instruction::SkipIfNotEqual(x, c) => seq!['S', 'N', 'E', ' ', 'V', regc(x), ',', ' ', chi(c.value), clo(c.value)],
        Instruction::SkipIfRegistersEqual(x, y) => seq!['S', 'E', ' ', 'V', regc(x), ',', ' ', 'V', regc(y)],
        Instruction::SetImmediate(x, c) => seq!['L', 'D', ' ', 'V', regc(x), ',', ' ', chi(c.value), clo(c.value)],
        Instruction::AddImmediate(x, c) => seq!['A', 'D', 'D', ' ', 'V', regc(x), ',', ' ', chi(c.value), clo(c.value)],
        Instruction::SetRegister(x, y) => seq!['L', 'D', ' ', 'V', regc(x), ',', ' ', 'V', regc(y)],
        Instruction::OrRegister(x, y) => seq!['O', 'R', ' ', 'V', regc(x), ',', ' ', 'V', regc(y)],
        Instruction::AndRegister(x, y) => seq!['A', 'N', 'D', ' ', 'V', regc(x), ',', ' ', 'V', regc(y)],
        Instruction::XorRegister(x, y) => seq!['X', 'O', 'R', ' ', 'V', regc(x), ',', ' ', 'V', regc(y)],
        Instruction::AdcRegister(x, y) => seq!['A', 'D', 'D', ' ', 'V', regc(x), ',', ' ', 'V', regc(y)],
        Instruction::SwbRegister(x, y) => seq!['S', 'U', 'B', ' ', 'V', regc(x), ',', ' ', 'V', regc(y)],
        Instruction::ShrRegister(x, y) => seq!['S', 'H', 'R', ' ', 'V', regc(x), ',', ' ', 'V', regc(y)],
        Instruction::ReverseSwbRegister(x, y) => seq!['S', 'U', 'B', 'N', ' ', 'V', regc(x), ',', ' ', 'V', regc(y)],
        Instruction::ShlRegister(x, y) => seq!['S', 'H', 'L', ' ', 'V', regc(x), ',', ' ', 'V', regc(y)],
        Instruction::SkipIfRegistersNotEqual(x, y) => seq!['S', 'N', 'E', ' ', 'V', regc(x), ',', ' ', 'V', regc(y)],
        Instruction::StoreAddress(a) => seq!['L', 'D', ' ', 'I', ',', ' ', a1(a.value), a2(a.value), a3(a.value)],
        Instruction::JumpOffset(a) => seq!['J', 'P', ' ', 'V', '0', ',', ' ', a1(a.value), a2(a.value), a3(a.value)],
        Instruction::StoreRandom(x, c) => seq!['R', 'N', 'D', ' ', 'V', regc(x), ',', ' ', chi(c.value), clo(c.value)],
        Instruction::DrawSprite(x, y, n) => seq!['D', 'R', 'W', ' ', 'V', regc(x), ',', ' ', 'V', regc(y), ',', ' ', chi(n.value), clo(n.value)],
        Instruction::SkipIfPressed(x) => seq!['S', 'K', 'P', ' ', 'V', regc(x)],
        Instruction::SkipIfNotPressed(x) => seq!['S', 'K', 'N', 'P', ' ', 'V', regc(x)],
        Instruction::SetFromDelay(x) => seq!['L', 'D', ' ', 'V', regc(x), ',', ' ', 'D', 'T'],
        Instruction::WaitKeyPress(x) => seq!['L', 'D', ' ', 'V', regc(x), ',', ' ', 'K'],
        Instruction::SetToDelay(x) => seq!['L', 'D', ' ', 'D', 'T', ',', ' ', 'V', regc(x)],
        Instruction::SetToSound(x) => seq!['L', 'D', ' ', 'S', 'T', ',', ' ', 'V', regc(x)],
        Instruction::AddAddress(x) => seq!['A', 'D', 'D', ' ', 'I', ',', ' ', 'V', regc(x)],
        Instruction::SetAddressToSprite(x) => seq!['L', 'D', ' ', 'F', ',', ' ', 'V', regc(x)],
        Instruction::StoreBCD(x) => seq!['L', 'D', ' ', 'B', ',', ' ', 'V', regc(x)],
        Instruction::StoreRegisters(x) => seq!['L', 'D', ' ', '[', 'I', ']', ',', ' ', 'V', regc(x)],
        Instruction::LoadRegisters(x) => seq!['L', 'D', ' ', 'V', regc(x), ',', ' ', '[', 'I', ']'],
    }
}

/// Whether the character at `k` is a hex digit.
pub open spec fn hx(s: Seq<char>, k: int) -> bool {
    hexv(s[k]) < 16
}

/// The register named by the digit at `k`.
pub open spec fn p_reg(s: Seq<char>, k: int) -> Register {
    Register { value: hexv(s[k]) as u8 }
}

/// The constant read from the two digits at `k`, `k + 1`.
pub open spec fn p_const(s: Seq<char>, k: int) -> Constant {
    Constant { value: (16 * hexv(s[k]) + hexv(s[k + 1])) as u8 }
}

/// The address read from the three digits at `k`, `k + 1`, `k + 2`.
pub open spec fn p_addr(s: Seq<char>, k: int) -> Address {
    Address { value: (256 * hexv(s[k]) + 16 * hexv(s[k + 1]) + hexv(s[k + 2])) as u16 }
}

/// The parser for the canonical text form: maps a character sequence to
/// the one operation whose rendering it is, or `None`. Dispatch is on
/// the length, then on the few characters that distinguish mnemonics
/// and operand shapes (a register operand starts with `V`, which is
/// never a hex digit).
pub open spec fn parse_text_spec(s: Seq<char>) -> Option<Instruction> {
    if s.len() == 3 {
        if s[0] == 'C' && s[1] == 'L' && s[2] == 'S' {
            Some(Instruction::ClearScreen)
        } else if s[0] == 'R' && s[1] == 'E' && s[2] == 'T' {
            Some(Instruction::Return)
        } else {
            None
        }
    } else if s.len() == 6 {
        if s[0] == 'J' && s[1] == 'P' && s[2] == ' ' && hx(s, 3) && hx(s, 4) && hx(s, 5) {
            Some(Instruction::Jump(p_addr(s, 3)))
        } else if s[0] == 'S' && s[1] == 'K' && s[2] == 'P' && s[3] == ' ' && s[4] == 'V' && hx(s, 5) {
            Some(Instruction::SkipIfPressed(p_reg(s, 5)))
        } else {
            None
        }
    } else if s.len() == 7 {
        if s[0] == 'S' && s[1] == 'Y' && s[2] == 'S' && s[3] == ' ' && hx(s, 4) && hx(s, 5) && hx(s, 6) {
            Some(Instruction::SysCall(p_addr(s, 4)))
        } else if s[0] == 'S' && s[1] == 'K' && s[2] == 'N' && s[3] == 'P' && s[4] == ' ' && s[5] == 'V' && hx(s, 6) {
            Some(Instruction::SkipIfNotPressed(p_reg(s, 6)))
        } else {
            None
        }
    } else if s.len() == 8 {
        if s[0] == 'C' && s[1] == 'A' && s[2] == 'L' && s[3] == 'L' && s[4] == ' ' && hx(s, 5) && hx(s, 6) && hx(s, 7) {
            Some(Instruction::Call(p_addr(s, 5)))
        } else if s[0] == 'L' && s[1] == 'D' && s[2] == ' ' && s[3] == 'F' && s[4] == ',' && s[5] == ' ' && s[6] == 'V' && hx(s, 7) {
            Some(Instruction::SetAddressToSprite(p_reg(s, 7)))
        } else if s[0] == 'L' && s[1] == 'D' && s[2] == ' ' && s[3] == 'B' && s[4] == ',' && s[5] == ' ' && s[6] == 'V' && hx(s, 7) {
            Some(Instruction::StoreBCD(p_reg(s, 7)))
        } else if s[0] == 'L' && s[1] == 'D' && s[2] == ' ' && s[3] == 'V' && hx(s, 4) && s[5] == ',' && s[6] == ' ' && s[7] == 'K' {
            Some(Instruction::WaitKeyPress(p_reg(s, 4)))
        } else {
            None
        }
    } else if s.len() == 9 {
        if s[0] == 'S' && s[1] == 'E' && s[2] == ' ' && s[3] == 'V' && hx(s, 4) && s[5] == ',' && s[6] == ' ' {
            if s[7] == 'V' && hx(s, 8) {
                Some(Instruction::SkipIfRegistersEqual(p_reg(s, 4), p_reg(s, 8)))
            } else if hx(s, 7) && hx(s, 8) {
                Some(Instruction::SkipIfEqual(p_reg(s, 4), p_const(s, 7)))
            } else {
                None
            }
        } else if s[0] == 'O' && s[1] == 'R' && s[2] == ' ' && s[3] == 'V' && hx(s, 4) && s[5] == ',' && s[6] == ' ' && s[7] == 'V' && hx(s, 8) {
            Some(Instruction::OrRegister(p_reg(s, 4), p_reg(s, 8)))
        } else if s[0] == 'A' && s[1] == 'D' && s[2] == 'D' && s[3] == ' ' && s[4] == 'I' && s[5] == ',' && s[6] == ' ' && s[7] == 'V' && hx(s, 8) {
            Some(Instruction::AddAddress(p_reg(s, 8)))
        } else if s[0] == 'L' && s[1] == 'D' && s[2] == ' ' {
            if s[3] == 'I' && s[4] == ',' && s[5] == ' ' && hx(s, 6) && hx(s, 7) && hx(s, 8) {
                Some(Instruction::StoreAddress(p_addr(s, 6)))
            } else if s[3] == 'D' && s[4] == 'T' && s[5] == ',' && s[6] == ' ' && s[7] == 'V' && hx(s, 8) {
                Some(Instruction::SetToDelay(p_reg(s, 8)))
            } else if s[3] == 'S' && s[4] == 'T' && s[5] == ',' && s[6] == ' ' && s[7] == 'V' && hx(s, 8) {
                Some(Instruction::SetToSound(p_reg(s, 8)))
            } else if s[3] == 'V' && hx(s, 4) && s[5] == ',' && s[6] == ' ' {
                if s[7] == 'V' && hx(s, 8) {
                    Some(Instruction::SetRegister(p_reg(s, 4), p_reg(s, 8)))
                } else if s[7] == 'D' && s[8] == 'T' {
                    Some(Instruction::SetFromDelay(p_reg(s, 4)))
                } else if hx(s, 7) && hx(s, 8) {
                    Some(Instruction::SetImmediate(p_reg(s, 4), p_const(s, 7)))
                } else {
                    None
                }
            } else {
                None
            }
        } else {
            None
        }
    } else if s.len() == 10 {
        if s[0] == 'S' && s[1] == 'N' && s[2] == 'E' && s[3] == ' ' && s[4] == 'V' && hx(s, 5) && s[6] == ',' && s[7] == ' ' {
            if s[8] == 'V' && hx(s, 9) {
                Some(Instruction::SkipIfRegistersNotEqual(p_reg(s, 5), p_reg(s, 9)))
            } else if hx(s, 8) && hx(s, 9) {
                Some(Instruction::SkipIfNotEqual(p_reg(s, 5), p_const(s, 8)))
            } else {
                None
            }
        } else if s[0] == 'S' && s[1] == 'U' && s[2] == 'B' && s[3] == ' ' && s[4] == 'V' && hx(s, 5) && s[6] == ',' && s[7] == ' ' && s[8] == 'V' && hx(s, 9) {
            Some(Instruction::SwbRegister(p_reg(s, 5), p_reg(s, 9)))
        } else if s[0] == 'S' && s[1] == 'H' && s[2] == 'R' && s[3] == ' ' && s[4] == 'V' && hx(s, 5) && s[6] == ',' && s[7] == ' ' && s[8] == 'V' && hx(s, 9) {
            Some(Instruction::ShrRegister(p_reg(s, 5), p_reg(s, 9)))
        } else if s[0] == 'S' && s[1] == 'H' && s[2] == 'L' && s[3] == ' ' && s[4] == 'V' && hx(s, 5) && s[6] == ',' && s[7] == ' ' && s[8] == 'V' && hx(s, 9) {
            Some(Instruction::ShlRegister(p_reg(s, 5), p_reg(s, 9)))
        } else if s[0] == 'A' && s[1] == 'D' && s[2] == 'D' && s[3] == ' ' && s[4] == 'V' && hx(s, 5) && s[6] == ',' && s[7] == ' ' {
            if s[8] == 'V' && hx(s, 9) {
                Some(Instruction::AdcRegister(p_reg(s, 5), p_reg(s, 9)))
            } else if hx(s, 8) && hx(s, 9) {
                Some(Instruction::AddImmediate(p_reg(s, 5), p_const(s, 8)))
            } else {
                None
            }
        } else if s[0] == 'A' && s[1] == 'N' && s[2] == 'D' && s[3] == ' ' && s[4] == 'V' && hx(s, 5) && s[6] == ',' && s[7] == ' ' && s[8] == 'V' && hx(s, 9) {
            Some(Instruction::AndRegister(p_reg(s, 5), p_reg(s, 9)))
        } else if s[0] == 'X' && s[1] == 'O' && s[2] == 'R' && s[3] == ' ' && s[4] == 'V' && hx(s, 5) && s[6] == ',' && s[7] == ' ' && s[8] == 'V' && hx(s, 9) {
            Some(Instruction::XorRegister(p_reg(s, 5), p_reg(s, 9)))
        } else if s[0] == 'R' && s[1] == 'N' && s[2] == 'D' && s[3] == ' ' && s[4] == 'V' && hx(s, 5) && s[6] == ',' && s[7] == ' ' && hx(s, 8) && hx(s, 9) {
            Some(Instruction::StoreRandom(p_reg(s, 5), p_const(s, 8)))
        } else if s[0] == 'J' && s[1] == 'P' && s[2] == ' ' && s[3] == 'V' && s[4] == '0' && s[5] == ',' && s[6] == ' ' && hx(s, 7) && hx(s, 8) && hx(s, 9) {
            Some(Instruction::JumpOffset(p_addr(s, 7)))
        } else if s[0] == 'L' && s[1] == 'D' && s[2] == ' ' && s[3] == '[' && s[4] == 'I' && s[5] == ']' && s[6] == ',' && s[7] == ' ' && s[8] == 'V' && hx(s, 9) {
            Some(Instruction::StoreRegisters(p_reg(s, 9)))
        } else if s[0] == 'L' && s[1] == 'D' && s[2] == ' ' && s[3] == 'V' && hx(s, 4) && s[5] == ',' && s[6] == ' ' && s[7] == '[' && s[8] == 'I' && s[9] == ']' {
            Some(Instruction::LoadRegisters(p_reg(s, 4)))
        } else {
            None
        }
    } else if s.len() == 11 {
        if s[0] == 'S' && s[1] == 'U' && s[2] == 'B' && s[3] == 'N' && s[4] == ' ' && s[5] == 'V' && hx(s, 6) && s[7] == ',' && s[8] == ' ' && s[9] == 'V' && hx(s, 10) {
            Some(Instruction::ReverseSwbRegister(p_reg(s, 6), p_reg(s, 10)))
        } else {
            None
        }
    } else if s.len() == 14 {
        if s[0] == 'D' && s[1] == 'R' && s[2] == 'W' && s[3] == ' ' && s[4] == 'V' && hx(s, 5) && s[6] == ',' && s[7] == ' ' && s[8] == 'V' && hx(s, 9) && s[10] == ',' && s[11] == ' ' && hx(s, 12) && hx(s, 13) {
            Some(Instruction::DrawSprite(p_reg(s, 5), p_reg(s, 9), p_const(s, 12)))
        } else {
            None
        }
    } else {
        None
    }
}

/// Round trip via the text form: parsing the canonical rendering of any
/// well-formed operation yields that operation again. The text form is
/// therefore unique per operation.
pub proof fn lemma_text_round_trip(i: Instruction)
    requires
        i.wf(),
    ensures
        parse_text_spec(text_spec(i)) == Some(i),
{
    broadcast use lemma_hexc_props;

    match i {
        Instruction::SysCall(a) => lemma_addr_digits(a.value),
        Instruction::Jump(a) => lemma_addr_digits(a.value),
        Instruction::Call(a) => lemma_addr_digits(a.value),
        Instruction::StoreAddress(a) => lemma_addr_digits(a.value),
        Instruction::JumpOffset(a) => lemma_addr_digits(a.value),
        Instruction::SkipIfEqual(x, c) => lemma_const_digits(c.value),
        Instruction::SkipIfNotEqual(x, c) => lemma_const_digits(c.value),
        Instruction::SetImmediate(x, c) => lemma_const_digits(c.value),
        Instruction::AddImmediate(x, c) => lemma_const_digits(c.value),
        Instruction::StoreRandom(x, c) => lemma_const_digits(c.value),
        Instruction::DrawSprite(x, y, n) => lemma_const_digits(n.value),
        _ => (),
    }
}

/// The text form is unique per operation: two well-formed operations
/// with the same canonical text are the same operation.
pub proof fn lemma_text_unique(i1: Instruction, i2: Instruction)
    requires
        i1.wf(),
        i2.wf(),
        text_spec(i1) == text_spec(i2),
    ensures
        i1 == i2,
{
    lemma_text_round_trip(i1);
    lemma_text_round_trip(i2);
}

/// One uppercase hex digit as a one-character string slice.
fn hex_str(n: u8) -> (r: &'static str)
    requires
        n < 16,
    ensures
        r@ == seq![hexc(n as int)],
{
    proof {
        reveal_strlit("0");
        reveal_strlit("1");
        reveal_strlit("2");
        reveal_strlit("3");
        reveal_strlit("4");
        reveal_strlit("5");
        reveal_strlit("6");
        reveal_strlit("7");
        reveal_strlit("8");
        reveal_strlit("9");
        reveal_strlit("A");
        reveal_strlit("B");
        reveal_strlit("C");
        reveal_strlit("D");
        reveal_strlit("E");
        reveal_strlit("F");
    }
    let r: &'static str = match n {
        0 => "0",
        1 => "1",
        2 => "2",
        3 => "3",
        4 => "4",
        5 => "5",
        6 => "6",
        7 => "7",
        8 => "8",
        9 => "9",
        10 => "A",
        11 => "B",
        12 => "C",
        13 => "D",
        14 => "E",
        _ => "F",
    };
    proof {
        assert(r@ =~= seq![hexc(n as int)]);
    }
    r
}

/// Appends `V` and the register's digit.
fn push_reg(s: &mut String, r: Register)
    requires
        r.wf(),
    ensures
        final(s)@ == old(s)@ + seq!['V', regc(r)],
{
    s.append("V");
    s.append(hex_str(r.value));
    proof {
        reveal_strlit("V");
        assert(s@ =~= old(s)@ + seq!['V', regc(r)]);
    }
}

/// Appends the two digits of a constant.
fn push_const(s: &mut String, c: Constant)
    ensures
        final(s)@ == old(s)@ + seq![chi(c.value), clo(c.value)],
{
    proof {
        lemma_const_digits(c.value);
    }
    s.append(hex_str(c.value / 16));
    s.append(hex_str(c.value % 16));
    proof {
        assert(s@ =~= old(s)@ + seq![chi(c.value), clo(c.value)]);
    }
}

/// Appends the three digits of an address.
fn push_addr(s: &mut String, a: Address)
    requires
        a.wf(),
    ensures
        final(s)@ == old(s)@ + seq![a1(a.value), a2(a.value), a3(a.value)],
{
    proof {
        lemma_addr_digits(a.value);
    }
    s.append(hex_str((a.value / 256) as u8));
    s.append(hex_str(((a.value / 16) % 16) as u8));
    s.append(hex_str((a.value % 16) as u8));
    proof {
        assert(s@ =~= old(s)@ + seq![a1(a.value), a2(a.value), a3(a.value)]);
    }
}

impl Instruction {
    /// Renders the operation in its canonical text form.
    pub fn text(&self) -> (r: String)
        requires
            self.wf(),
        ensures
            r@ == text_spec(*self),
    {
        match *self {
            Instruction::ClearScreen => {
                let s = String::from_str("CLS");
                proof {
                    reveal_strlit("CLS");
                    assert(s@ =~= text_spec(*self));
                }
                s
            },
            Instruction::Return => {
                let s = String::from_str("RET");
                proof {
                    reveal_strlit("RET");
                    assert(s@ =~= text_spec(*self));
                }
                s
            },
            Instruction::SysCall(a) => {
                let mut s = String::from_str("SYS ");
                push_addr(&mut s, a);
                proof {
                    reveal_strlit("SYS ");
                    assert(s@ =~= text_spec(*self));
                }
                s
            },
            Instruction::Jump(a) => {
                let mut s = String::from_str("JP ");
                push_addr(&mut s, a);
                proof {
                    reveal_strlit("JP ");
                    assert(s@ =~= text_spec(*self));
                }
                s
            },
            Instruction::Call(a) => {
                let mut s = String::from_str("CALL ");
                push_addr(&mut s, a);
                proof {
                    reveal_strlit("CALL ");
                    assert(s@ =~= text_spec(*self));
                }
                s
            },
            Instruction::SkipIfEqual(x, c) => {
                let mut s = String::from_str("SE ");
                push_reg(&mut s, x);
                s.append(", ");
                push_const(&mut s, c);
                proof {
                    reveal_strlit("SE ");
                    reveal_strlit(", ");
                    assert(s@ =~= text_spec(*self));
                }
                s
            },
            Instruction::SkipIfNotEqual(x, c) => {
                let mut s = String::from_str("SNE ");
                push_reg(&mut s, x);
                s.append(", ");
                push_const(&mut s, c);
                proof {
                    reveal_strlit("SNE ");
                    reveal_strlit(", ");
                    assert(s@ =~= text_spec(*self));
                }
                s
            },
            Instruction::SkipIfRegistersEqual(x, y) => {
                let mut s = String::from_str("SE ");
                push_reg(&mut s, x);
                s.append(", ");
                push_reg(&mut s, y);
                proof {
                    reveal_strlit("SE ");
                    reveal_strlit(", ");
                    assert(s@ =~= text_spec(*self));
                }
                s
            },
            Instruction::SetImmediate(x, c) => {
                let mut s = String::from_str("LD ");
                push_reg(&mut s, x);
                s.append(", ");
                push_const(&mut s, c);
                proof {
                    reveal_strlit("LD ");
                    reveal_strlit(", ");
                    assert(s@ =~= text_spec(*self));
                }
                s
            },
            Instruction::AddImmediate(x, c) => {
                let mut s = String::from_str("ADD ");
                push_reg(&mut s, x);
                s.append(", ");
                push_const(&mut s, c);
                proof {
                    reveal_strlit("ADD ");
                    reveal_strlit(", ");
                    assert(s@ =~= text_spec(*self));
                }
                s
            },
            Instruction::SetRegister(x, y) => {
                let mut s = String::from_str("LD ");
                push_reg(&mut s, x);
                s.append(", ");
                push_reg(&mut s, y);
                proof {
                    reveal_strlit("LD ");
                    reveal_strlit(", ");
                    assert(s@ =~= text_spec(*self));
                }
                s
            },
            Instruction::OrRegister(x, y) => {
                let mut s = String::from_str("OR ");
                push_reg(&mut s, x);
                s.append(", ");
                push_reg(&mut s, y);
                proof {
                    reveal_strlit("OR ");
                    reveal_strlit(", ");
                    assert(s@ =~= text_spec(*self));
                }
                s
            },
            Instruction::AndRegister(x, y) => {
                let mut s = String::from_str("AND ");
                push_reg(&mut s, x);
                s.append(", ");
                push_reg(&mut s, y);
                proof {
                    reveal_strlit("AND ");
                    reveal_strlit(", ");
                    assert(s@ =~= text_spec(*self));
                }
                s
            },
            Instruction::XorRegister(x, y) => {
                let mut s = String::from_str("XOR ");
                push_reg(&mut s, x);
                s.append(", ");
                push_reg(&mut s, y);
                proof {
                    reveal_strlit("XOR ");
                    reveal_strlit(", ");
                    assert(s@ =~= text_spec(*self));
                }
                s
            },
            Instruction::AdcRegister(x, y) => {
                let mut s = String::from_str("ADD ");
                push_reg(&mut s, x);
                s.append(", ");
                push_reg(&mut s, y);
                proof {
                    reveal_strlit("ADD ");
                    reveal_strlit(", ");
                    assert(s@ =~= text_spec(*self));
                }
                s
            },
            Instruction::SwbRegister(x, y) => {
                let mut s = String::from_str("SUB ");
                push_reg(&mut s, x);
                s.append(", ");
                push_reg(&mut s, y);
                proof {
                    reveal_strlit("SUB ");
                    reveal_strlit(", ");
                    assert(s@ =~= text_spec(*self));
                }
                s
            },
            Instruction::ShrRegister(x, y) => {
                let mut s = String::from_str("SHR ");
                push_reg(&mut s, x);
                s.append(", ");
                push_reg(&mut s, y);
                proof {
                    reveal_strlit("SHR ");
                    reveal_strlit(", ");
                    assert(s@ =~= text_spec(*self));
                }
                s
            },
            Instruction::ReverseSwbRegister(x, y) => {
                let mut s = String::from_str("SUBN ");
                push_reg(&mut s, x);
                s.append(", ");
                push_reg(&mut s, y);
                proof {
                    reveal_strlit("SUBN ");
                    reveal_strlit(", ");
                    assert(s@ =~= text_spec(*self));
                }
                s
            },
            Instruction::ShlRegister(x, y) => {
                let mut s = String::from_str("SHL ");
                push_reg(&mut s, x);
                s.append(", ");
                push_reg(&mut s, y);
                proof {
                    reveal_strlit("SHL ");
                    reveal_strlit(", ");
                    assert(s@ =~= text_spec(*self));
                }
                s
            },
            Instruction::SkipIfRegistersNotEqual(x, y) => {
                let mut s = String::from_str("SNE ");
                push_reg(&mut s, x);
                s.append(", ");
                push_reg(&mut s, y);
                proof {
                    reveal_strlit("SNE ");
                    reveal_strlit(", ");
                    assert(s@ =~= text_spec(*self));
                }
                s
            },
            Instruction::StoreAddress(a) => {
                let mut s = String::from_str("LD I, ");
                push_addr(&mut s, a);
                proof {
                    reveal_strlit("LD I, ");
                    assert(s@ =~= text_spec(*self));
                }
                s
            },
            Instruction::JumpOffset(a) => {
                let mut s = String::from_str("JP V0, ");
                push_addr(&mut s, a);
                proof {
                    reveal_strlit("JP V0, ");
                    assert(s@ =~= text_spec(*self));
                }
                s
            },
            Instruction::StoreRandom(x, c) => {
                let mut s = String::from_str("RND ");
                push_reg(&mut s, x);
                s.append(", ");
                push_const(&mut s, c);
                proof {
                    reveal_strlit("RND ");
                    reveal_strlit(", ");
                    assert(s@ =~= text_spec(*self));
                }
                s
            },
            Instruction::DrawSprite(x, y, n) => {
                let mut s = String::from_str("DRW ");
                push_reg(&mut s, x);
                s.append(", ");
                push_reg(&mut s, y);
                s.append(", ");
                push_const(&mut s, n);
                proof {
                    reveal_strlit("DRW ");
                    reveal_strlit(", ");
                    assert(s@ =~= text_spec(*self));
                }
                s
            },
            Instruction::SkipIfPressed(x) => {
                let mut s = String::from_str("SKP ");
                push_reg(&mut s, x);
                proof {
                    reveal_strlit("SKP ");
                    assert(s@ =~= text_spec(*self));
                }
                s
            },
            Instruction::SkipIfNotPressed(x) => {
                let mut s = String::from_str("SKNP ");
                push_reg(&mut s, x);
                proof {
                    reveal_strlit("SKNP ");
                    assert(s@ =~= text_spec(*self));
                }
                s
            },
            Instruction::SetFromDelay(x) => {
                let mut s = String::from_str("LD ");
                push_reg(&mut s, x);
                s.append(", DT");
                proof {
                    reveal_strlit("LD ");
                    reveal_strlit(", DT");
                    assert(s@ =~= text_spec(*self));
                }
                s
            },
            Instruction::WaitKeyPress(x) => {
                let mut s = String::from_str("LD ");
                push_reg(&mut s, x);
                s.append(", K");
                proof {
                    reveal_strlit("LD ");
                    reveal_strlit(", K");
                    assert(s@ =~= text_spec(*self));
                }
                s
            },
            Instruction::SetToDelay(x) => {
                let mut s = String::from_str("LD DT, ");
                push_reg(&mut s, x);
                proof {
                    reveal_strlit("LD DT, ");
                    assert(s@ =~= text_spec(*self));
                }
                s
            },
            Instruction::SetToSound(x) => {
                let mut s = String::from_str("LD ST, ");
                push_reg(&mut s, x);
                proof {
                    reveal_strlit("LD ST, ");
                    assert(s@ =~= text_spec(*self));
                }
                s
            },
            Instruction::AddAddress(x) => {
                let mut s = String::from_str("ADD I, ");
                push_reg(&mut s, x);
                proof {
                    reveal_strlit("ADD I, ");
                    assert(s@ =~= text_spec(*self));
                }
                s
            },
            Instruction::SetAddressToSprite(x) => {
                let mut s = String::from_str("LD F, ");
                push_reg(&mut s, x);
                proof {
                    reveal_strlit("LD F, ");
                    assert(s@ =~= text_spec(*self));
                }
                s
            },
            Instruction::StoreBCD(x) => {
                let mut s = String::from_str("LD B, ");
                push_reg(&mut s, x);
                proof {
                    reveal_strlit("LD B, ");
                    assert(s@ =~= text_spec(*self));
                }
                s
            },
            Instruction::StoreRegisters(x) => {
                let mut s = String::from_str("LD [I], ");
                push_reg(&mut s, x);
                proof {
                    reveal_strlit("LD [I], ");
                    assert(s@ =~= text_spec(*self));
                }
                s
            },
            Instruction::LoadRegisters(x) => {
                let mut s = String::from_str("LD ");
                push_reg(&mut s, x);
                s.append(", [I]");
                proof {
                    reveal_strlit("LD ");
                    reveal_strlit(", [I]");
                    assert(s@ =~= text_spec(*self));
                }
                s
            },
        }
    }
}

} // verus!
