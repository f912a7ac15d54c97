use chip8_core::FONT_SET;
use chip8_core::processor::{
    Chip8Error, Cpu, ProgramCounterAction, CHIP8_FONT_SET_SIZE, CHIP8_HEIGHT, CHIP8_WIDTH,
};

#[test]
fn test_initial_state() {
    let cpu = Cpu::new();

    for i in 0..CHIP8_FONT_SET_SIZE {
        assert_eq!(cpu.ram[i], FONT_SET[i]);
    }

    assert_eq!(cpu.pc, 0x200);
    assert_eq!(cpu.sp, 0x0);
}

#[test]
fn test_construction_zeroed() {
    let cpu = Cpu::new();

    for i in CHIP8_FONT_SET_SIZE..4096 {
        assert_eq!(cpu.ram[i], 0);
    }
    for i in 0..16 {
        assert_eq!(cpu.v[i], 0);
        assert_eq!(cpu.stack[i], 0);
    }
    assert_eq!(cpu.i, 0);
    assert_eq!(cpu.dt, 0);
    assert_eq!(cpu.st, 0);
}

#[test]
fn test_cls_opcode() {
    let mut cpu = Cpu::new();
    let r = cpu.run(0x00e0);
    assert!(r.is_ok());

    // Check that PC is now pointing to next instruction.
    assert_eq!(cpu.pc, 0x200 + 2);

    // Check that the vram is actually cleared.
    for row in 0..CHIP8_HEIGHT {
        for col in 0..CHIP8_WIDTH {
            assert_eq!(cpu.vram[row][col], 0);
        }
    }
}

#[test]
fn test_cls_twice_idempotent() {
    let mut cpu = Cpu::new();
    assert!(cpu.run(0x00e0).is_ok());
    assert!(cpu.run(0x00e0).is_ok());

    assert_eq!(cpu.pc, 0x200 + 4);
    for row in 0..CHIP8_HEIGHT {
        for col in 0..CHIP8_WIDTH {
            assert_eq!(cpu.vram[row][col], 0);
        }
    }
}

#[test]
fn test_unknown_opcode_rejected() {
    let mut cpu = Cpu::new();
    let r = cpu.run(0x0022);

    assert_eq!(r, Err(Chip8Error::UnknownOpcode(0x0022)));
    // The failed step must not advance or mutate any state.
    assert_eq!(cpu.pc, 0x200);
    assert_eq!(cpu.sp, 0);
    for i in 0..16 {
        assert_eq!(cpu.v[i], 0);
    }
}

#[test]
fn test_read_opcode() {
    let mut cpu = Cpu::new();

    cpu.ram[0x200] = 0xB1;
    cpu.ram[0x201] = 0x5A;

    let opcode: u16 = cpu.read_opcode();
    assert_eq!(
        opcode, 0xB15A,
        "the opcode was correctly read using two bytes starting at PC."
    );
}

#[test]
fn test_op_8xye() {
    let mut cpu = Cpu::new();
    cpu.v[1] = 0b10000001;
    let r = cpu.run(0x812e);
    assert!(r.is_ok());

    assert_eq!(cpu.v[0xf], 1, "Vf is set to carry");
    assert_eq!(cpu.v[1], 0b00000010, "Vx is set to Vx << 1");
}

#[test]
fn test_op_8xye_no_carry() {
    let mut cpu = Cpu::new();
    cpu.v[1] = 0b00100001;
    assert!(cpu.run(0x812e).is_ok());

    assert_eq!(cpu.v[0xf], 0);
    assert_eq!(cpu.v[1], 0b01000010);
}

#[test]
fn test_op_8xy4_with_carry() {
    let mut cpu = Cpu::new();
    cpu.v[0] = 0xFF;
    cpu.v[1] = 0x02;
    assert!(cpu.run(0x8014).is_ok());

    assert_eq!(cpu.v[0], 0x01);
    assert_eq!(cpu.v[0xf], 1);
}

#[test]
fn test_op_8xy4_without_carry() {
    let mut cpu = Cpu::new();
    cpu.v[0] = 0x01;
    cpu.v[1] = 0x02;
    assert!(cpu.run(0x8014).is_ok());

    assert_eq!(cpu.v[0], 0x03);
    assert_eq!(cpu.v[0xf], 0);
}

#[test]
fn test_op_8xy4_flag_register_as_target() {
    let mut cpu = Cpu::new();
    cpu.v[0xf] = 0xFF;
    cpu.v[0] = 0x02;
    assert!(cpu.run(0x8F04).is_ok());

    // The flag write comes last, so VF holds the carry, not the sum.
    assert_eq!(cpu.v[0xf], 1);
}

#[test]
fn test_op_8xy5_with_borrow() {
    let mut cpu = Cpu::new();
    cpu.v[0] = 0x01;
    cpu.v[1] = 0x02;
    assert!(cpu.run(0x8015).is_ok());

    assert_eq!(cpu.v[0], 0xFF);
    assert_eq!(cpu.v[0xf], 1);
}

#[test]
fn test_op_8xy5_without_borrow() {
    let mut cpu = Cpu::new();
    cpu.v[0] = 0x05;
    cpu.v[1] = 0x02;
    assert!(cpu.run(0x8015).is_ok());

    assert_eq!(cpu.v[0], 0x03);
    assert_eq!(cpu.v[0xf], 0);
}

#[test]
fn test_op_8xy7() {
    let mut cpu = Cpu::new();
    cpu.v[0] = 0x02;
    cpu.v[1] = 0x05;
    assert!(cpu.run(0x8017).is_ok());
    assert_eq!(cpu.v[0], 0x03);
    assert_eq!(cpu.v[0xf], 0);

    let mut cpu = Cpu::new();
    cpu.v[0] = 0x05;
    cpu.v[1] = 0x02;
    assert!(cpu.run(0x8017).is_ok());
    assert_eq!(cpu.v[0], 0xFD);
    assert_eq!(cpu.v[0xf], 1);
}

#[test]
fn test_op_8xy6() {
    let mut cpu = Cpu::new();
    cpu.v[3] = 0b0000_0101;
    assert!(cpu.run(0x8306).is_ok());

    assert_eq!(cpu.v[3], 0b0000_0010);
    assert_eq!(cpu.v[0xf], 1);
}

#[test]
fn test_call_then_ret_restores_pc_and_sp() {
    let mut cpu = Cpu::new();

    assert!(cpu.run(0x2400).is_ok());
    assert_eq!(cpu.pc, 0x400);
    assert_eq!(cpu.sp, 1);
    assert_eq!(cpu.stack[1], 0x202);

    assert!(cpu.run(0x00ee).is_ok());
    assert_eq!(cpu.pc, 0x202);
    assert_eq!(cpu.sp, 0);
}

#[test]
fn test_ret_on_empty_stack_underflows() {
    let mut cpu = Cpu::new();
    let r = cpu.run(0x00ee);

    assert_eq!(r, Err(Chip8Error::StackUnderflow));
    assert_eq!(cpu.pc, 0x200);
    assert_eq!(cpu.sp, 0);
}

#[test]
fn test_call_on_full_stack_overflows() {
    let mut cpu = Cpu::new();
    for _ in 0..15 {
        assert!(cpu.run(0x2200).is_ok());
    }
    assert_eq!(cpu.sp, 15);

    let r = cpu.run(0x2200);
    assert_eq!(r, Err(Chip8Error::StackOverflow));
    assert_eq!(cpu.sp, 15);
    assert_eq!(cpu.pc, 0x200);
}

#[test]
fn test_op_1nnn() {
    let mut cpu = Cpu::new();
    assert!(cpu.run(0x1ABC).is_ok());
    assert_eq!(cpu.pc, 0x0ABC);
}

#[test]
fn test_op_3xkk() {
    let mut cpu = Cpu::new();
    cpu.v[0] = 0x05;
    assert!(cpu.run(0x3005).is_ok());
    assert_eq!(cpu.pc, 0x204);

    let mut cpu = Cpu::new();
    cpu.v[0] = 0x05;
    assert!(cpu.run(0x3006).is_ok());
    assert_eq!(cpu.pc, 0x202);
}

#[test]
fn test_op_4xkk() {
    let mut cpu = Cpu::new();
    cpu.v[0] = 0x05;
    assert!(cpu.run(0x4005).is_ok());
    assert_eq!(cpu.pc, 0x202);

    let mut cpu = Cpu::new();
    cpu.v[0] = 0x05;
    assert!(cpu.run(0x4006).is_ok());
    assert_eq!(cpu.pc, 0x204);
}

#[test]
fn test_op_5xy0() {
    let mut cpu = Cpu::new();
    cpu.v[1] = 0x07;
    cpu.v[2] = 0x07;
    assert!(cpu.run(0x5120).is_ok());
    assert_eq!(cpu.pc, 0x204);

    let mut cpu = Cpu::new();
    cpu.v[1] = 0x07;
    cpu.v[2] = 0x08;
    assert!(cpu.run(0x5120).is_ok());
    assert_eq!(cpu.pc, 0x202);
}

#[test]
fn test_op_5xy0_with_nonzero_low_nibble_is_unknown() {
    let mut cpu = Cpu::new();
    let r = cpu.run(0x5123);
    assert_eq!(r, Err(Chip8Error::UnknownOpcode(0x5123)));
    assert_eq!(cpu.pc, 0x200);
}

#[test]
fn test_op_6xkk() {
    let mut cpu = Cpu::new();
    assert!(cpu.run(0x6A42).is_ok());
    assert_eq!(cpu.v[0xA], 0x42);
    assert_eq!(cpu.pc, 0x202);
}

#[test]
fn test_op_7xkk_wraps_without_flag() {
    let mut cpu = Cpu::new();
    cpu.v[2] = 0xF0;
    assert!(cpu.run(0x7220).is_ok());

    assert_eq!(cpu.v[2], 0x10);
    // VF is not a flag for the immediate addition.
    assert_eq!(cpu.v[0xf], 0);
}

#[test]
fn test_op_8xy0() {
    let mut cpu = Cpu::new();
    cpu.v[0xB] = 7;
    assert!(cpu.run(0x8AB0).is_ok());
    assert_eq!(cpu.v[0xA], 7);
}

#[test]
fn test_op_8xy1_8xy2_8xy3() {
    let mut cpu = Cpu::new();
    cpu.v[0] = 0b1100;
    cpu.v[1] = 0b1010;
    assert!(cpu.run(0x8011).is_ok());
    assert_eq!(cpu.v[0], 0b1110);

    let mut cpu = Cpu::new();
    cpu.v[0] = 0b1100;
    cpu.v[1] = 0b1010;
    assert!(cpu.run(0x8012).is_ok());
    assert_eq!(cpu.v[0], 0b1000);

    let mut cpu = Cpu::new();
    cpu.v[0] = 0b1100;
    cpu.v[1] = 0b1010;
    assert!(cpu.run(0x8013).is_ok());
    assert_eq!(cpu.v[0], 0b0110);
}

#[test]
fn test_skip_if() {
    assert!(matches!(
        ProgramCounterAction::skip_if(true),
        ProgramCounterAction::Skip
    ));
    assert!(matches!(
        ProgramCounterAction::skip_if(false),
        ProgramCounterAction::Next
    ));
}
