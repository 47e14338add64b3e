use chip8_core::exec::Effect;
use chip8_core::instruction::Instruction;
use chip8_core::machine::MachineError;
use chip8_core::machine::MachineState;
use chip8_core::timers::Timers;
use chip8_core::values::Address;
use chip8_core::values::Constant;
use chip8_core::values::Register;

fn reg(n: u8) -> Register {
    Register::new(n)
}

fn con(v: u8) -> Constant {
    Constant::new(v >> 4, v & 0x0F)
}

fn addr(v: u16) -> Address {
    Address::new((v >> 8) as u8, ((v >> 4) & 0xF) as u8, (v & 0xF) as u8)
}

fn run(m: &mut MachineState, t: &mut Timers, i: Instruction) -> Effect {
    m.execute(t, i, 0, 0).expect("operation should succeed")
}

#[test]
fn add_with_carry_sets_flag_on_overflow() {
    let mut m = MachineState::new();
    let mut t = Timers::new();
    m.registers[1] = 250;
    m.registers[2] = 10;
    run(&mut m, &mut t, Instruction::AdcRegister(reg(1), reg(2)));
    assert_eq!(m.registers[1], 4);
    assert_eq!(m.registers[15], 1);
}

#[test]
fn add_with_carry_clears_flag_without_overflow() {
    let mut m = MachineState::new();
    let mut t = Timers::new();
    m.registers[1] = 10;
    m.registers[2] = 20;
    m.registers[15] = 1;
    run(&mut m, &mut t, Instruction::AdcRegister(reg(1), reg(2)));
    assert_eq!(m.registers[1], 30);
    assert_eq!(m.registers[15], 0);
}

#[test]
fn subtract_with_borrow_wraps_and_clears_flag() {
    let mut m = MachineState::new();
    let mut t = Timers::new();
    m.registers[1] = 10;
    m.registers[2] = 20;
    run(&mut m, &mut t, Instruction::SwbRegister(reg(1), reg(2)));
    assert_eq!(m.registers[1], 246);
    assert_eq!(m.registers[15], 0);
}

#[test]
fn subtract_without_borrow_sets_flag() {
    let mut m = MachineState::new();
    let mut t = Timers::new();
    m.registers[1] = 20;
    m.registers[2] = 10;
    run(&mut m, &mut t, Instruction::SwbRegister(reg(1), reg(2)));
    assert_eq!(m.registers[1], 10);
    assert_eq!(m.registers[15], 1);
}

#[test]
fn reverse_subtract_uses_inverted_operands() {
    let mut m = MachineState::new();
    let mut t = Timers::new();
    m.registers[1] = 10;
    m.registers[2] = 20;
    run(&mut m, &mut t, Instruction::ReverseSwbRegister(reg(1), reg(2)));
    assert_eq!(m.registers[1], 10);
    assert_eq!(m.registers[15], 1);
}

#[test]
fn shift_right_reports_bit_shifted_out() {
    let mut m = MachineState::new();
    let mut t = Timers::new();
    m.registers[3] = 0b0000_0011;
    run(&mut m, &mut t, Instruction::ShrRegister(reg(3), reg(4)));
    assert_eq!(m.registers[3], 0b0000_0001);
    assert_eq!(m.registers[15], 1);
}

#[test]
fn shift_left_reports_high_bit_and_wraps() {
    let mut m = MachineState::new();
    let mut t = Timers::new();
    m.registers[3] = 0b1000_0010;
    run(&mut m, &mut t, Instruction::ShlRegister(reg(3), reg(4)));
    assert_eq!(m.registers[3], 0b0000_0100);
    assert_eq!(m.registers[15], 1);
}

#[test]
fn skip_if_equal_advances_by_four_on_match() {
    let mut m = MachineState::new();
    let mut t = Timers::new();
    m.registers[1] = 0x23;
    let before = m.ip;
    run(&mut m, &mut t, Instruction::SkipIfEqual(reg(1), con(0x23)));
    assert_eq!(m.ip, before + 4);
}

#[test]
fn skip_if_equal_advances_by_two_on_mismatch() {
    let mut m = MachineState::new();
    let mut t = Timers::new();
    m.registers[1] = 0x24;
    let before = m.ip;
    run(&mut m, &mut t, Instruction::SkipIfEqual(reg(1), con(0x23)));
    assert_eq!(m.ip, before + 2);
}

#[test]
fn bitwise_operations() {
    let mut m = MachineState::new();
    let mut t = Timers::new();
    m.registers[1] = 0b1100;
    m.registers[2] = 0b1010;
    run(&mut m, &mut t, Instruction::OrRegister(reg(1), reg(2)));
    assert_eq!(m.registers[1], 0b1110);
    m.registers[1] = 0b1100;
    run(&mut m, &mut t, Instruction::AndRegister(reg(1), reg(2)));
    assert_eq!(m.registers[1], 0b1000);
    m.registers[1] = 0b1100;
    run(&mut m, &mut t, Instruction::XorRegister(reg(1), reg(2)));
    assert_eq!(m.registers[1], 0b0110);
}

#[test]
fn immediate_add_wraps_without_flag() {
    let mut m = MachineState::new();
    let mut t = Timers::new();
    m.registers[1] = 250;
    run(&mut m, &mut t, Instruction::AddImmediate(reg(1), con(10)));
    assert_eq!(m.registers[1], 4);
    assert_eq!(m.registers[15], 0);
}

#[test]
fn call_then_return_restores_next_instruction_address() {
    let mut m = MachineState::new();
    let mut t = Timers::new();
    let before = m.ip;
    run(&mut m, &mut t, Instruction::Call(addr(0x400)));
    assert_eq!(m.ip, 0x400);
    assert_eq!(m.stack.len(), 1);
    run(&mut m, &mut t, Instruction::Return);
    assert_eq!(m.ip, before + 2);
    assert_eq!(m.stack.len(), 0);
}

#[test]
fn nested_calls_to_depth_succeed_one_more_overflows() {
    let mut m = MachineState::new();
    let mut t = Timers::new();
    for _ in 0..16 {
        run(&mut m, &mut t, Instruction::Call(addr(0x400)));
    }
    let r = m.execute(&mut t, Instruction::Call(addr(0x400)), 0, 0);
    assert_eq!(r.unwrap_err(), MachineError::StackOverflow);
}

#[test]
fn return_on_empty_stack_underflows() {
    let mut m = MachineState::new();
    let mut t = Timers::new();
    let r = m.execute(&mut t, Instruction::Return, 0, 0);
    assert_eq!(r.unwrap_err(), MachineError::StackUnderflow);
}

#[test]
fn jump_and_jump_offset() {
    let mut m = MachineState::new();
    let mut t = Timers::new();
    run(&mut m, &mut t, Instruction::Jump(addr(0x300)));
    assert_eq!(m.ip, 0x300);
    m.registers[0] = 5;
    run(&mut m, &mut t, Instruction::JumpOffset(addr(0x300)));
    assert_eq!(m.ip, 0x305);
}

#[test]
fn random_value_is_masked() {
    let mut m = MachineState::new();
    let mut t = Timers::new();
    let e = m
        .execute(&mut t, Instruction::StoreRandom(reg(4), con(0x0F)), 0, 0xAB)
        .unwrap();
    assert!(matches!(e, Effect::NoEffect));
    assert_eq!(m.registers[4], 0x0B);
}

#[test]
fn store_address_and_add_address() {
    let mut m = MachineState::new();
    let mut t = Timers::new();
    run(&mut m, &mut t, Instruction::StoreAddress(addr(0xFFE)));
    assert_eq!(m.addr.value, 0xFFE);
    m.registers[1] = 4;
    run(&mut m, &mut t, Instruction::AddAddress(reg(1)));
    assert_eq!(m.addr.value, 0x002);
}

#[test]
fn sprite_address_lookup() {
    let mut m = MachineState::new();
    let mut t = Timers::new();
    m.registers[1] = 0x0A;
    run(&mut m, &mut t, Instruction::SetAddressToSprite(reg(1)));
    assert_eq!(m.addr.value, 50);
}

#[test]
fn bcd_writes_three_digits() {
    let mut m = MachineState::new();
    let mut t = Timers::new();
    m.registers[1] = 173;
    m.addr = addr(0x500);
    run(&mut m, &mut t, Instruction::StoreBCD(reg(1)));
    assert_eq!(m.memory[0x500], 1);
    assert_eq!(m.memory[0x501], 7);
    assert_eq!(m.memory[0x502], 3);
    assert_eq!(m.addr.value, 0x500);
}

#[test]
fn bcd_out_of_bounds_is_reported() {
    let mut m = MachineState::new();
    let mut t = Timers::new();
    m.addr = addr(0xFFE);
    let r = m.execute(&mut t, Instruction::StoreBCD(reg(1)), 0, 0);
    assert_eq!(r.unwrap_err(), MachineError::OutOfBounds { at: 0xFFE });
}

#[test]
fn store_and_load_register_block() {
    let mut m = MachineState::new();
    let mut t = Timers::new();
    for i in 0..4 {
        m.registers[i] = (i as u8) + 10;
    }
    m.addr = addr(0x600);
    run(&mut m, &mut t, Instruction::StoreRegisters(reg(3)));
    assert_eq!(&m.memory[0x600..0x604], &[10, 11, 12, 13]);
    assert_eq!(m.memory[0x604], 0);
    assert_eq!(m.addr.value, 0x600);

    for i in 0..16 {
        m.registers[i] = 0xEE;
    }
    run(&mut m, &mut t, Instruction::LoadRegisters(reg(3)));
    assert_eq!(&m.registers[0..4], &[10, 11, 12, 13]);
    assert_eq!(m.registers[4], 0xEE);
}

#[test]
fn draw_sprite_returns_bytes_and_collision_sets_flag() {
    let mut m = MachineState::new();
    let mut t = Timers::new();
    m.addr = addr(0x700);
    m.memory[0x700] = 0x3C;
    m.memory[0x701] = 0xC3;
    m.registers[1] = 8;
    m.registers[2] = 9;
    let e = run(
        &mut m,
        &mut t,
        Instruction::DrawSprite(reg(1), reg(2), Constant::new(0, 2)),
    );
    match e {
        Effect::Draw { x, y, sprite } => {
            assert_eq!(x, 8);
            assert_eq!(y, 9);
            assert_eq!(sprite, vec![0x3C, 0xC3]);
        }
        _ => panic!("expected a draw request"),
    }
    m.set_collision_flag(true);
    assert_eq!(m.registers[15], 1);
    m.set_collision_flag(false);
    assert_eq!(m.registers[15], 0);
}

#[test]
fn wait_key_pauses_and_resumes() {
    let mut m = MachineState::new();
    let mut t = Timers::new();
    let e = run(&mut m, &mut t, Instruction::WaitKeyPress(reg(6)));
    match e {
        Effect::WaitKey { dest } => assert_eq!(dest.value, 6),
        _ => panic!("expected a wait-key request"),
    }
    m.provide_key(reg(6), 0xC);
    assert_eq!(m.registers[6], 0xC);
}

#[test]
fn skip_if_pressed_consults_key_snapshot() {
    let mut m = MachineState::new();
    let mut t = Timers::new();
    m.registers[1] = 5;
    let before = m.ip;
    m.execute(&mut t, Instruction::SkipIfPressed(reg(1)), 1 << 5, 0)
        .unwrap();
    assert_eq!(m.ip, before + 4);
    let before = m.ip;
    m.execute(&mut t, Instruction::SkipIfNotPressed(reg(1)), 1 << 5, 0)
        .unwrap();
    assert_eq!(m.ip, before + 2);
}

#[test]
fn timer_instructions_touch_timers() {
    let mut m = MachineState::new();
    let mut t = Timers::new();
    m.registers[1] = 42;
    run(&mut m, &mut t, Instruction::SetToDelay(reg(1)));
    assert_eq!(t.delay, 42);
    run(&mut m, &mut t, Instruction::SetToSound(reg(1)));
    assert_eq!(t.sound, 42);
    run(&mut m, &mut t, Instruction::SetFromDelay(reg(2)));
    assert_eq!(m.registers[2], 42);
}

#[test]
fn syscall_is_surfaced_not_executed() {
    let mut m = MachineState::new();
    let mut t = Timers::new();
    let before = m.ip;
    let e = run(&mut m, &mut t, Instruction::SysCall(addr(0x123)));
    match e {
        Effect::Sys { target } => assert_eq!(target.value, 0x123),
        _ => panic!("expected a legacy call to be surfaced"),
    }
    assert_eq!(m.ip, before + 2);
}

#[test]
fn machine_starts_at_conventional_load_address() {
    let m = MachineState::new();
    assert_eq!(m.ip, 0x200);
    assert_eq!(m.stack.len(), 0);
    assert!(!m.finished);
    assert!(m.registers.iter().all(|&r| r == 0));
    assert_eq!(m.memory.len(), 4096);
}

#[test]
fn load_program_places_bytes_at_load_address() {
    let mut m = MachineState::new();
    m.load_program(&vec![0x61, 0x23, 0x00, 0xE0]).unwrap();
    assert_eq!(m.memory[0x200], 0x61);
    assert_eq!(m.memory[0x203], 0xE0);
    assert_eq!(m.memory[0x1FF], 0);
}

#[test]
fn load_program_rejects_oversized_image() {
    let mut m = MachineState::new();
    let r = m.load_program(&vec![0u8; 4096 - 0x200 + 1]);
    assert_eq!(r.unwrap_err(), MachineError::OutOfBounds { at: 0x200 });
}

#[test]
fn step_runs_fetch_decode_execute() {
    let mut m = MachineState::new();
    let mut t = Timers::new();
    m.load_program(&vec![0x61, 0x23, 0x71, 0x02]).unwrap();
    m.step(&mut t, 0, 0).unwrap();
    assert_eq!(m.registers[1], 0x23);
    assert_eq!(m.ip, 0x202);
    m.step(&mut t, 0, 0).unwrap();
    assert_eq!(m.registers[1], 0x25);
}

#[test]
fn step_reports_unknown_opcode_with_address() {
    let mut m = MachineState::new();
    let mut t = Timers::new();
    m.load_program(&vec![0xF0, 0xFF]).unwrap();
    let r = m.step(&mut t, 0, 0);
    match r.unwrap_err() {
        MachineError::Decode(e) => {
            assert_eq!(e.at, 0x200);
            assert_eq!((e.a, e.b, e.c, e.d), (0xF, 0x0, 0xF, 0xF));
        }
        other => panic!("expected a decode error, got {:?}", other),
    }
    assert_eq!(m.ip, 0x200);
}

#[test]
fn step_reports_out_of_bounds_program_counter() {
    let mut m = MachineState::new();
    let mut t = Timers::new();
    m.ip = 4095;
    let r = m.step(&mut t, 0, 0);
    assert_eq!(r.unwrap_err(), MachineError::OutOfBounds { at: 4095 });
}

#[test]
fn draw_out_of_bounds_is_reported() {
    let mut m = MachineState::new();
    let mut t = Timers::new();
    m.addr = addr(0xFFF);
    let r = m.execute(
        &mut t,
        Instruction::DrawSprite(reg(1), reg(2), Constant::new(0, 2)),
        0,
        0,
    );
    assert_eq!(r.unwrap_err(), MachineError::OutOfBounds { at: 0xFFF });
}
