use chip8::constants::{DEFAULT_PROGRAM_ADDRESS, MEMORY_SIZE, SCREEN_HEIGHT, SCREEN_WIDTH};
use chip8::DataRegister::{V1, V2, V3, VA, VB};
use chip8::PixelView;
use chip8::{
    Blocked, Chip8, CycleError, DataRegister, Instruction, InstructionExecutionError,
    InstructionParsingError, Key, KeyState, Memory, Pixel, ReadInstructionError, WriteError,
};

fn set_reg(m: &mut Chip8, vx: DataRegister, value: u8) {
    m.execute_instruction(Instruction::StoreNumInVx { vx, num: value }).unwrap();
}

fn set_address_register(m: &mut Chip8, address: usize) {
    m.execute_instruction(Instruction::StoreAddressInAddressRegister { address }).unwrap();
}

fn reg(m: &Chip8, vx: DataRegister) -> u8 {
    m.data_registers.get(vx)
}

const ALL_REGISTERS: [DataRegister; 16] = [
    DataRegister::V0,
    DataRegister::V1,
    DataRegister::V2,
    DataRegister::V3,
    DataRegister::V4,
    DataRegister::V5,
    DataRegister::V6,
    DataRegister::V7,
    DataRegister::V8,
    DataRegister::V9,
    DataRegister::VA,
    DataRegister::VB,
    DataRegister::VC,
    DataRegister::VD,
    DataRegister::VE,
    DataRegister::VF,
];

#[test]
fn block_transfer_round_trip_all_registers() {
    for (last_index, last) in ALL_REGISTERS.iter().enumerate() {
        let mut m = Chip8::new();
        for (i, vx) in ALL_REGISTERS.iter().enumerate() {
            set_reg(&mut m, *vx, 40 + i as u8);
        }
        set_address_register(&mut m, 0x300);
        m.execute_instruction(Instruction::StoreRegistersInMemory { vx: *last }).unwrap();
        // Clobber every register in the stored range, then load back.
        for vx in ALL_REGISTERS.iter() {
            set_reg(&mut m, *vx, 0);
        }
        m.execute_instruction(Instruction::FillRegistersFromMemory { vx: *last }).unwrap();
        for (i, vx) in ALL_REGISTERS.iter().enumerate() {
            if i <= last_index {
                assert_eq!(reg(&m, *vx), 40 + i as u8);
            } else {
                assert_eq!(reg(&m, *vx), 0);
            }
        }
    }
}

#[test]
fn block_transfer_single_register_range() {
    let mut m = Chip8::new();
    set_reg(&mut m, DataRegister::V0, 123);
    set_address_register(&mut m, 0x400);
    m.execute_instruction(Instruction::StoreRegistersInMemory { vx: DataRegister::V0 }).unwrap();
    assert_eq!(m.memory.raw_data[0x400], 123);
    assert_eq!(m.memory.raw_data[0x401], 0);
    set_reg(&mut m, DataRegister::V0, 0);
    m.execute_instruction(Instruction::FillRegistersFromMemory { vx: DataRegister::V0 }).unwrap();
    assert_eq!(reg(&m, DataRegister::V0), 123);
}

fn draw_glyph_zero_at(m: &mut Chip8, x: u8, y: u8) -> u8 {
    // Font glyph for 0 lives at address 0 after a program load.
    set_address_register(m, 0);
    set_reg(m, DataRegister::V0, x);
    set_reg(m, DataRegister::V1, y);
    m.execute_instruction(Instruction::DrawSpriteAtVxVy {
        vx: DataRegister::V0,
        vy: DataRegister::V1,
        byte_count: 5,
    })
    .unwrap();
    reg(m, DataRegister::VF)
}

#[test]
fn draw_twice_erases_and_reports_collision() {
    let mut m = Chip8::new();
    m.load_program(&[]).unwrap();
    let first = draw_glyph_zero_at(&mut m, 0, 0);
    assert_eq!(first, 0);
    // Glyph 0 row 0 is 0xF0: leftmost four pixels on.
    let fb = m.screen.framebuffer();
    assert_eq!(fb[0][0], Pixel::On);
    assert_eq!(fb[0][3], Pixel::On);
    assert_eq!(fb[0][4], Pixel::Off);
    let second = draw_glyph_zero_at(&mut m, 0, 0);
    assert_eq!(second, 1);
    let fb = m.screen.framebuffer();
    for row in fb.iter() {
        for px in row.iter() {
            assert_eq!(*px, Pixel::Off);
        }
    }
}

#[test]
fn draw_wraps_at_screen_width_and_height() {
    let mut a = Chip8::new();
    a.load_program(&[]).unwrap();
    draw_glyph_zero_at(&mut a, SCREEN_WIDTH as u8, SCREEN_HEIGHT as u8);
    let mut b = Chip8::new();
    b.load_program(&[]).unwrap();
    draw_glyph_zero_at(&mut b, 0, 0);
    assert_eq!(a.screen.framebuffer(), b.screen.framebuffer());
    assert_eq!(a.screen.framebuffer()[0][0], Pixel::On);
}

#[test]
fn draw_partially_off_screen_wraps_around() {
    let mut m = Chip8::new();
    m.load_program(&[]).unwrap();
    // x = 62: columns 62, 63 then wrap to 0, 1.
    draw_glyph_zero_at(&mut m, 62, 0);
    let fb = m.screen.framebuffer();
    assert_eq!(fb[0][62], Pixel::On);
    assert_eq!(fb[0][63], Pixel::On);
    assert_eq!(fb[0][0], Pixel::On);
    assert_eq!(fb[0][1], Pixel::On);
    assert_eq!(fb[0][2], Pixel::Off);
}

#[test]
fn draw_sets_dirty_flag() {
    let mut m = Chip8::new();
    m.load_program(&[]).unwrap();
    assert!(!m.screen.has_content_updated());
    draw_glyph_zero_at(&mut m, 0, 0);
    assert!(m.screen.has_content_updated());
    m.screen.reset_content_updated();
    assert!(!m.screen.has_content_updated());
}

#[test]
fn draw_out_of_memory_bounds_fails() {
    let mut m = Chip8::new();
    set_address_register(&mut m, MEMORY_SIZE - 2);
    let r = m.execute_instruction(Instruction::DrawSpriteAtVxVy {
        vx: DataRegister::V0,
        vy: DataRegister::V1,
        byte_count: 5,
    });
    assert_eq!(r, Err(InstructionExecutionError::InvalidMemoryAccess(MEMORY_SIZE + 3)));
}

#[test]
fn subtract_underflow_sets_borrow_flag_zero() {
    let mut m = Chip8::new();
    set_reg(&mut m, DataRegister::V0, 5);
    set_reg(&mut m, DataRegister::V1, 10);
    m.execute_instruction(Instruction::SubtractVyFromVx {
        vx: DataRegister::V0,
        vy: DataRegister::V1,
    })
    .unwrap();
    assert_eq!(reg(&m, DataRegister::V0), 251);
    assert_eq!(reg(&m, DataRegister::VF), 0);
}

#[test]
fn subtract_without_borrow_sets_flag_one() {
    let mut m = Chip8::new();
    set_reg(&mut m, DataRegister::V0, 10);
    set_reg(&mut m, DataRegister::V1, 3);
    m.execute_instruction(Instruction::SubtractVyFromVx {
        vx: DataRegister::V0,
        vy: DataRegister::V1,
    })
    .unwrap();
    assert_eq!(reg(&m, DataRegister::V0), 7);
    assert_eq!(reg(&m, DataRegister::VF), 1);
}

#[test]
fn reverse_subtract_follows_same_convention() {
    let mut m = Chip8::new();
    set_reg(&mut m, DataRegister::V0, 10);
    set_reg(&mut m, DataRegister::V1, 5);
    m.execute_instruction(Instruction::SetVxToVyMinusVx {
        vx: DataRegister::V0,
        vy: DataRegister::V1,
    })
    .unwrap();
    assert_eq!(reg(&m, DataRegister::V0), 251);
    assert_eq!(reg(&m, DataRegister::VF), 0);
}

#[test]
fn add_immediate_overflow_sets_carry_flag() {
    let mut m = Chip8::new();
    set_reg(&mut m, DataRegister::V0, 250);
    m.execute_instruction(Instruction::AddNumToVx { vx: DataRegister::V0, num: 10 }).unwrap();
    assert_eq!(reg(&m, DataRegister::V0), 4);
    assert_eq!(reg(&m, DataRegister::VF), 1);
}

#[test]
fn add_registers_overflow_sets_carry_flag() {
    let mut m = Chip8::new();
    set_reg(&mut m, DataRegister::V0, 250);
    set_reg(&mut m, DataRegister::V1, 10);
    m.execute_instruction(Instruction::AddVyToVx { vx: DataRegister::V0, vy: DataRegister::V1 })
        .unwrap();
    assert_eq!(reg(&m, DataRegister::V0), 4);
    assert_eq!(reg(&m, DataRegister::VF), 1);
    set_reg(&mut m, DataRegister::V2, 3);
    set_reg(&mut m, DataRegister::V3, 4);
    m.execute_instruction(Instruction::AddVyToVx { vx: DataRegister::V2, vy: DataRegister::V3 })
        .unwrap();
    assert_eq!(reg(&m, DataRegister::V2), 7);
    assert_eq!(reg(&m, DataRegister::VF), 0);
}

#[test]
fn bcd_store_writes_three_digits() {
    let mut m = Chip8::new();
    set_reg(&mut m, DataRegister::V7, 234);
    set_address_register(&mut m, 0x300);
    m.execute_instruction(Instruction::StoreBCDOfVx { vx: DataRegister::V7 }).unwrap();
    assert_eq!(m.memory.raw_data[0x300], 2);
    assert_eq!(m.memory.raw_data[0x301], 3);
    assert_eq!(m.memory.raw_data[0x302], 4);
}

#[test]
fn bcd_store_out_of_bounds_fails_without_writing() {
    let mut m = Chip8::new();
    set_reg(&mut m, DataRegister::V0, 99);
    set_address_register(&mut m, MEMORY_SIZE - 2);
    let r = m.execute_instruction(Instruction::StoreBCDOfVx { vx: DataRegister::V0 });
    assert_eq!(r, Err(InstructionExecutionError::InvalidMemoryAccess(MEMORY_SIZE)));
    assert_eq!(m.memory.raw_data[MEMORY_SIZE - 2], 0);
    assert_eq!(m.memory.raw_data[MEMORY_SIZE - 1], 0);
}

#[test]
fn skip_advances_by_exactly_one_instruction_width() {
    let mut m = Chip8::new();
    set_reg(&mut m, DataRegister::V0, 7);
    let pc = m.program_counter;
    m.execute_instruction(Instruction::SkipIfVxEqualsNum { vx: DataRegister::V0, num: 7 })
        .unwrap();
    assert_eq!(m.program_counter, pc + 2);
    m.execute_instruction(Instruction::SkipIfVxEqualsNum { vx: DataRegister::V0, num: 8 })
        .unwrap();
    assert_eq!(m.program_counter, pc + 2);
    m.execute_instruction(Instruction::SkipIfVxNotEqualNum { vx: DataRegister::V0, num: 8 })
        .unwrap();
    assert_eq!(m.program_counter, pc + 4);
}

#[test]
fn skip_through_cycle_advances_two_widths_when_taken() {
    let mut m = Chip8::new();
    // 0x3007: skip if V0 == 7; V0 is 0, so no skip: pc advances by 2.
    m.load_program(&[0x30, 0x07]).unwrap();
    m.cycle().unwrap();
    assert_eq!(m.program_counter, DEFAULT_PROGRAM_ADDRESS + 2);
    // Taken skip: one extra width, never more.
    let mut m = Chip8::new();
    m.load_program(&[0x30, 0x00]).unwrap();
    m.cycle().unwrap();
    assert_eq!(m.program_counter, DEFAULT_PROGRAM_ADDRESS + 4);
}

#[test]
fn reset_restores_initial_state() {
    let mut m = Chip8::new();
    m.load_program(&[0x60, 0x2A]).unwrap();
    m.cycle().unwrap();
    set_address_register(&mut m, 0x321);
    m.execute_instruction(Instruction::SetDelayTimerToVx { vx: DataRegister::V0 }).unwrap();
    m.execute_instruction(Instruction::SetSoundTimerToVx { vx: DataRegister::V0 }).unwrap();
    m.execute_instruction(Instruction::ExecuteSubroutine { address: 0x300 }).unwrap();
    draw_glyph_zero_at(&mut m, 0, 0);
    m.execute_instruction(Instruction::WaitForKeypressStoreInVx { vx: DataRegister::V2 })
        .unwrap();
    m.reset();
    for vx in ALL_REGISTERS.iter() {
        assert_eq!(reg(&m, *vx), 0);
    }
    assert_eq!(m.address_register, 0);
    assert_eq!(m.delay_timer, 0);
    assert_eq!(m.sound_timer, 0);
    assert_eq!(m.program_counter, DEFAULT_PROGRAM_ADDRESS);
    assert!(m.stack.is_empty());
    assert_eq!(m.blocked, Blocked::No);
    assert!(!m.is_blocked());
    for b in m.memory.raw_data.iter() {
        assert_eq!(*b, 0);
    }
    for row in m.screen.framebuffer().iter() {
        for px in row.iter() {
            assert_eq!(*px, Pixel::Off);
        }
    }
}

#[test]
fn blocked_machine_freezes_until_matching_key_up() {
    let mut m = Chip8::new();
    m.load_program(&[0x60, 0x2A]).unwrap();
    m.execute_instruction(Instruction::SetDelayTimerToVx { vx: DataRegister::V1 }).unwrap();
    set_reg(&mut m, DataRegister::V1, 9);
    m.execute_instruction(Instruction::SetDelayTimerToVx { vx: DataRegister::V1 }).unwrap();
    m.execute_instruction(Instruction::WaitForKeypressStoreInVx { vx: DataRegister::V3 })
        .unwrap();
    assert!(m.is_blocked());
    let pc = m.program_counter;
    // cycle is a no-op while blocked.
    assert_eq!(m.cycle(), Ok(()));
    assert_eq!(m.program_counter, pc);
    assert_eq!(reg(&m, DataRegister::V0), 0);
    // Timers freeze while blocked.
    m.update_timers();
    assert_eq!(m.delay_timer, 9);
    // A key press does not unblock.
    m.key_down(Key::A);
    assert!(m.is_blocked());
    // The release delivers the key code into the remembered register.
    m.key_up(Key::A);
    assert!(!m.is_blocked());
    assert_eq!(reg(&m, DataRegister::V3), 0xA);
    // Once unblocked, timers run again.
    m.update_timers();
    assert_eq!(m.delay_timer, 8);
}

#[test]
fn key_up_without_blocked_state_only_updates_table() {
    let mut m = Chip8::new();
    m.key_down(Key::Num5);
    m.key_up(Key::Num5);
    for vx in ALL_REGISTERS.iter() {
        assert_eq!(reg(&m, *vx), 0);
    }
    assert!(!m.is_blocked());
}

#[test]
fn protected_region_write_fails_and_leaves_memory_unchanged() {
    let mut memory = Memory::new();
    let r = memory.write_restricted(&[1, 2, 3], 0x100);
    assert_eq!(r, Err(WriteError::InProtectedMemoryArea(0x100, 0x103)));
    for b in memory.raw_data.iter() {
        assert_eq!(*b, 0);
    }
    // The unrestricted path may write there.
    memory.write_unrestricted(&[1, 2, 3], 0x100).unwrap();
    assert_eq!(memory.raw_data[0x100], 1);
    assert_eq!(memory.raw_data[0x102], 3);
}

#[test]
fn load_program_to_protected_address_fails() {
    let mut m = Chip8::new();
    let r = m.load_program_to_address(&[0xAA], 0x1FF);
    assert_eq!(r, Err(WriteError::InProtectedMemoryArea(0x1FF, 0x200)));
    // The reset and font install have still happened.
    assert_eq!(m.memory.raw_data[0], 0xF0);
    assert_eq!(m.memory.raw_data[0x1FF], 0);
}

#[test]
fn load_program_past_end_of_memory_fails() {
    let mut m = Chip8::new();
    let r = m.load_program_to_address(&[1, 2, 3], MEMORY_SIZE - 2);
    assert_eq!(r, Err(WriteError::OutOfRange(MEMORY_SIZE - 2, MEMORY_SIZE + 1)));
}

#[test]
fn load_program_installs_font_program_and_entry_point() {
    let mut m = Chip8::new();
    m.load_program(&[0xAA, 0xBB]).unwrap();
    assert_eq!(m.program_counter, DEFAULT_PROGRAM_ADDRESS);
    assert_eq!(m.memory.raw_data[DEFAULT_PROGRAM_ADDRESS], 0xAA);
    assert_eq!(m.memory.raw_data[DEFAULT_PROGRAM_ADDRESS + 1], 0xBB);
    assert_eq!(m.memory.raw_data[0], 0xF0);
    // Glyph F starts at 15 * 5 = 75.
    assert_eq!(m.memory.raw_data[75], 0xF0);
    assert_eq!(m.memory.raw_data[79], 0x80);
}

#[test]
fn return_on_empty_stack_fails() {
    let mut m = Chip8::new();
    let r = m.execute_instruction(Instruction::ReturnFromSubroutine);
    assert_eq!(r, Err(InstructionExecutionError::InvalidReturn));
}

#[test]
fn call_and_return_round_trip_program_counter() {
    let mut m = Chip8::new();
    let mut program = vec![0u8; 0x102];
    program[0] = 0x23;
    program[1] = 0x00;  // 0x2300: call subroutine at 0x300
    program[0x100] = 0x00;
    program[0x101] = 0xEE;  // 0x00EE at 0x300: return
    m.load_program(&program).unwrap();
    m.cycle().unwrap();
    assert_eq!(m.program_counter, 0x300);
    assert_eq!(m.stack, vec![0x202]);
    m.cycle().unwrap();
    assert_eq!(m.program_counter, 0x202);
    assert!(m.stack.is_empty());
}

#[test]
fn jump_suppresses_automatic_advance() {
    let mut m = Chip8::new();
    m.load_program(&[0x12, 0x34]).unwrap();
    m.cycle().unwrap();
    assert_eq!(m.program_counter, 0x234);
}

#[test]
fn indexed_jump_adds_v0() {
    let mut m = Chip8::new();
    set_reg(&mut m, DataRegister::V0, 0x10);
    m.execute_instruction(Instruction::JumpToAddressPlusV0 { address: 0x300 }).unwrap();
    assert_eq!(m.program_counter, 0x310);
}

#[test]
fn block_store_partial_write_is_not_rolled_back() {
    let mut m = Chip8::new();
    for (i, vx) in ALL_REGISTERS.iter().enumerate() {
        set_reg(&mut m, *vx, 10 + i as u8);
    }
    set_address_register(&mut m, MEMORY_SIZE - 3);
    let r = m.execute_instruction(Instruction::StoreRegistersInMemory { vx: DataRegister::V7 });
    assert_eq!(r, Err(InstructionExecutionError::InvalidMemoryAccess(MEMORY_SIZE)));
    // The first three transfers happened and stay in place.
    assert_eq!(m.memory.raw_data[MEMORY_SIZE - 3], 10);
    assert_eq!(m.memory.raw_data[MEMORY_SIZE - 2], 11);
    assert_eq!(m.memory.raw_data[MEMORY_SIZE - 1], 12);
}

#[test]
fn block_fill_partial_load_is_not_rolled_back() {
    let mut m = Chip8::new();
    m.memory.write_unrestricted(&[7, 8, 9], MEMORY_SIZE - 3).unwrap();
    set_address_register(&mut m, MEMORY_SIZE - 3);
    let r = m.execute_instruction(Instruction::FillRegistersFromMemory { vx: DataRegister::V7 });
    assert_eq!(r, Err(InstructionExecutionError::InvalidMemoryAccess(MEMORY_SIZE)));
    assert_eq!(reg(&m, DataRegister::V0), 7);
    assert_eq!(reg(&m, DataRegister::V1), 8);
    assert_eq!(reg(&m, DataRegister::V2), 9);
    assert_eq!(reg(&m, DataRegister::V3), 0);
}

#[test]
fn key_skip_with_invalid_key_code_fails() {
    let mut m = Chip8::new();
    set_reg(&mut m, DataRegister::V0, 20);
    let r = m.execute_instruction(Instruction::SkipIfKeyInVxPressed { vx: DataRegister::V0 });
    assert_eq!(r, Err(InstructionExecutionError::InvalidKey(20)));
    let r = m.execute_instruction(Instruction::SkipIfKeyInVxNotPressed { vx: DataRegister::V0 });
    assert_eq!(r, Err(InstructionExecutionError::InvalidKey(20)));
}

#[test]
fn key_state_skips_follow_keyboard() {
    let mut m = Chip8::new();
    set_reg(&mut m, DataRegister::V0, 5);
    let pc = m.program_counter;
    m.execute_instruction(Instruction::SkipIfKeyInVxPressed { vx: DataRegister::V0 }).unwrap();
    assert_eq!(m.program_counter, pc);
    m.key_down(Key::Num5);
    m.execute_instruction(Instruction::SkipIfKeyInVxPressed { vx: DataRegister::V0 }).unwrap();
    assert_eq!(m.program_counter, pc + 2);
    m.execute_instruction(Instruction::SkipIfKeyInVxNotPressed { vx: DataRegister::V0 })
        .unwrap();
    assert_eq!(m.program_counter, pc + 2);
    m.key_up(Key::Num5);
    m.execute_instruction(Instruction::SkipIfKeyInVxNotPressed { vx: DataRegister::V0 })
        .unwrap();
    assert_eq!(m.program_counter, pc + 4);
}

#[test]
fn random_with_zero_mask_yields_zero() {
    let mut m = Chip8::new();
    set_reg(&mut m, DataRegister::V0, 99);
    m.execute_instruction(Instruction::SetVxToRandomWithMask { vx: DataRegister::V0, mask: 0 })
        .unwrap();
    assert_eq!(reg(&m, DataRegister::V0), 0);
}

#[test]
fn random_respects_mask_bits() {
    let mut m = Chip8::new();
    for _ in 0..32 {
        m.execute_instruction(Instruction::SetVxToRandomWithMask {
            vx: DataRegister::V0,
            mask: 0x0F,
        })
        .unwrap();
        assert!(reg(&m, DataRegister::V0) <= 0x0F);
    }
}

#[test]
fn shift_right_reports_low_bit_of_source() {
    let mut m = Chip8::new();
    set_reg(&mut m, DataRegister::V1, 5);
    m.execute_instruction(Instruction::ShiftVyRightStoreInVx {
        vx: DataRegister::V0,
        vy: DataRegister::V1,
    })
    .unwrap();
    assert_eq!(reg(&m, DataRegister::V0), 2);
    assert_eq!(reg(&m, DataRegister::VF), 1);
    assert_eq!(reg(&m, DataRegister::V1), 5);
}

#[test]
fn shift_left_reports_high_bit_of_source() {
    let mut m = Chip8::new();
    set_reg(&mut m, DataRegister::V1, 0x81);
    m.execute_instruction(Instruction::ShiftVyLeftStoreInVx {
        vx: DataRegister::V0,
        vy: DataRegister::V1,
    })
    .unwrap();
    assert_eq!(reg(&m, DataRegister::V0), 2);
    assert_eq!(reg(&m, DataRegister::VF), 1);
}

#[test]
fn bitwise_and_or_xor_store_and_copy() {
    let mut m = Chip8::new();
    set_reg(&mut m, DataRegister::V0, 0b1100);
    set_reg(&mut m, DataRegister::V1, 0b1010);
    m.execute_instruction(Instruction::SetVxToVxOrVy { vx: DataRegister::V0, vy: DataRegister::V1 })
        .unwrap();
    assert_eq!(reg(&m, DataRegister::V0), 0b1110);
    m.execute_instruction(Instruction::SetVxToVxAndVy {
        vx: DataRegister::V0,
        vy: DataRegister::V1,
    })
    .unwrap();
    assert_eq!(reg(&m, DataRegister::V0), 0b1010);
    m.execute_instruction(Instruction::SetVxToVxXorVy {
        vx: DataRegister::V0,
        vy: DataRegister::V1,
    })
    .unwrap();
    assert_eq!(reg(&m, DataRegister::V0), 0);
    m.execute_instruction(Instruction::StoreVyInVx { vx: DataRegister::V0, vy: DataRegister::V1 })
        .unwrap();
    assert_eq!(reg(&m, DataRegister::V0), 0b1010);
}

#[test]
fn timers_decrement_and_floor_at_zero() {
    let mut m = Chip8::new();
    set_reg(&mut m, DataRegister::V0, 2);
    m.execute_instruction(Instruction::SetDelayTimerToVx { vx: DataRegister::V0 }).unwrap();
    set_reg(&mut m, DataRegister::V1, 1);
    m.execute_instruction(Instruction::SetSoundTimerToVx { vx: DataRegister::V1 }).unwrap();
    m.update_timers();
    assert_eq!(m.delay_timer, 1);
    assert_eq!(m.sound_timer, 0);
    m.update_timers();
    assert_eq!(m.delay_timer, 0);
    assert_eq!(m.sound_timer, 0);
    m.update_timers();
    assert_eq!(m.delay_timer, 0);
}

#[test]
fn delay_timer_reads_back_into_register() {
    let mut m = Chip8::new();
    set_reg(&mut m, DataRegister::V0, 42);
    m.execute_instruction(Instruction::SetDelayTimerToVx { vx: DataRegister::V0 }).unwrap();
    m.execute_instruction(Instruction::StoreDelayTimerInVx { vx: DataRegister::V5 }).unwrap();
    assert_eq!(reg(&m, DataRegister::V5), 42);
}

#[test]
fn font_sprite_address_uses_fixed_stride() {
    let mut m = Chip8::new();
    set_reg(&mut m, DataRegister::V0, 3);
    m.execute_instruction(Instruction::SetAddressRegisterToSpriteAddressOfSpriteInVx {
        vx: DataRegister::V0,
    })
    .unwrap();
    assert_eq!(m.address_register, 15);
}

#[test]
fn add_register_to_address_register() {
    let mut m = Chip8::new();
    set_address_register(&mut m, 0x300);
    set_reg(&mut m, DataRegister::V2, 7);
    m.execute_instruction(Instruction::AddVxToAddressRegister { vx: DataRegister::V2 }).unwrap();
    assert_eq!(m.address_register, 0x307);
}

#[test]
fn clear_screen_instruction_clears_pixels() {
    let mut m = Chip8::new();
    m.load_program(&[]).unwrap();
    draw_glyph_zero_at(&mut m, 0, 0);
    m.execute_instruction(Instruction::ClearScreen).unwrap();
    for row in m.screen.framebuffer().iter() {
        for px in row.iter() {
            assert_eq!(*px, Pixel::Off);
        }
    }
}

#[test]
fn machine_language_subroutine_is_an_accepted_no_op() {
    let mut m = Chip8::new();
    let pc = m.program_counter;
    m.execute_instruction(Instruction::ExecuteMachineLanguageSubroutine { address: 0x123 })
        .unwrap();
    assert_eq!(m.program_counter, pc);
    // Through a cycle, it only advances the program counter.
    let mut m = Chip8::new();
    m.load_program(&[0x01, 0x23]).unwrap();
    m.cycle().unwrap();
    assert_eq!(m.program_counter, DEFAULT_PROGRAM_ADDRESS + 2);
}

#[test]
fn decode_covers_the_opcode_shapes() {
    assert_eq!(Instruction::parse(0x00, 0xE0), Ok(Instruction::ClearScreen));
    assert_eq!(Instruction::parse(0x00, 0xEE), Ok(Instruction::ReturnFromSubroutine));
    assert_eq!(
        Instruction::parse(0x01, 0x23),
        Ok(Instruction::ExecuteMachineLanguageSubroutine { address: 0x123 })
    );
    assert_eq!(Instruction::parse(0x1A, 0xBC), Ok(Instruction::JumpToAddress { address: 0xABC }));
    assert_eq!(Instruction::parse(0x2A, 0xBC), Ok(Instruction::ExecuteSubroutine { address: 0xABC }));
    assert_eq!(
        Instruction::parse(0x31, 0x44),
        Ok(Instruction::SkipIfVxEqualsNum { vx: V1, num: 0x44 })
    );
    assert_eq!(
        Instruction::parse(0x41, 0x44),
        Ok(Instruction::SkipIfVxNotEqualNum { vx: V1, num: 0x44 })
    );
    assert_eq!(Instruction::parse(0x51, 0x20), Ok(Instruction::SkipIfVxEqualsVy { vx: V1, vy: V2 }));
    assert_eq!(Instruction::parse(0x61, 0x44), Ok(Instruction::StoreNumInVx { vx: V1, num: 0x44 }));
    assert_eq!(Instruction::parse(0x71, 0x44), Ok(Instruction::AddNumToVx { vx: V1, num: 0x44 }));
    assert_eq!(Instruction::parse(0x8A, 0xB0), Ok(Instruction::StoreVyInVx { vx: VA, vy: VB }));
    assert_eq!(Instruction::parse(0x8A, 0xB1), Ok(Instruction::SetVxToVxOrVy { vx: VA, vy: VB }));
    assert_eq!(Instruction::parse(0x8A, 0xB2), Ok(Instruction::SetVxToVxAndVy { vx: VA, vy: VB }));
    assert_eq!(Instruction::parse(0x8A, 0xB3), Ok(Instruction::SetVxToVxXorVy { vx: VA, vy: VB }));
    assert_eq!(Instruction::parse(0x8A, 0xB4), Ok(Instruction::AddVyToVx { vx: VA, vy: VB }));
    assert_eq!(Instruction::parse(0x8A, 0xB5), Ok(Instruction::SubtractVyFromVx { vx: VA, vy: VB }));
    assert_eq!(
        Instruction::parse(0x8A, 0xB6),
        Ok(Instruction::ShiftVyRightStoreInVx { vx: VA, vy: VB })
    );
    assert_eq!(
        Instruction::parse(0x8A, 0xB7),
        Ok(Instruction::SetVxToVyMinusVx { vx: VA, vy: VB })
    );
    assert_eq!(
        Instruction::parse(0x8A, 0xBE),
        Ok(Instruction::ShiftVyLeftStoreInVx { vx: VA, vy: VB })
    );
    assert_eq!(
        Instruction::parse(0x9A, 0xB0),
        Ok(Instruction::SkipIfVxNotEqualVy { vx: VA, vy: VB })
    );
    assert_eq!(
        Instruction::parse(0xAB, 0xCD),
        Ok(Instruction::StoreAddressInAddressRegister { address: 0xBCD })
    );
    assert_eq!(
        Instruction::parse(0xBB, 0xCD),
        Ok(Instruction::JumpToAddressPlusV0 { address: 0xBCD })
    );
    assert_eq!(
        Instruction::parse(0xC1, 0x0F),
        Ok(Instruction::SetVxToRandomWithMask { vx: V1, mask: 0x0F })
    );
    assert_eq!(
        Instruction::parse(0xD1, 0x25),
        Ok(Instruction::DrawSpriteAtVxVy { vx: V1, vy: V2, byte_count: 5 })
    );
    assert_eq!(Instruction::parse(0xE2, 0x9E), Ok(Instruction::SkipIfKeyInVxPressed { vx: V2 }));
    assert_eq!(Instruction::parse(0xE2, 0xA1), Ok(Instruction::SkipIfKeyInVxNotPressed { vx: V2 }));
    assert_eq!(Instruction::parse(0xF3, 0x07), Ok(Instruction::StoreDelayTimerInVx { vx: V3 }));
    assert_eq!(
        Instruction::parse(0xF3, 0x0A),
        Ok(Instruction::WaitForKeypressStoreInVx { vx: V3 })
    );
    assert_eq!(Instruction::parse(0xF3, 0x15), Ok(Instruction::SetDelayTimerToVx { vx: V3 }));
    assert_eq!(Instruction::parse(0xF3, 0x18), Ok(Instruction::SetSoundTimerToVx { vx: V3 }));
    assert_eq!(Instruction::parse(0xF3, 0x1E), Ok(Instruction::AddVxToAddressRegister { vx: V3 }));
    assert_eq!(
        Instruction::parse(0xF3, 0x29),
        Ok(Instruction::SetAddressRegisterToSpriteAddressOfSpriteInVx { vx: V3 })
    );
    assert_eq!(Instruction::parse(0xF3, 0x33), Ok(Instruction::StoreBCDOfVx { vx: V3 }));
    assert_eq!(Instruction::parse(0xF3, 0x55), Ok(Instruction::StoreRegistersInMemory { vx: V3 }));
    assert_eq!(
        Instruction::parse(0xF3, 0x65),
        Ok(Instruction::FillRegistersFromMemory { vx: V3 })
    );
}

#[test]
fn decode_rejects_unknown_patterns() {
    assert_eq!(
        Instruction::parse(0xFF, 0xFF),
        Err(InstructionParsingError::InvalidInstruction(0xFFFF))
    );
    assert_eq!(
        Instruction::parse(0x51, 0x21),
        Err(InstructionParsingError::InvalidInstruction(0x5121))
    );
    assert_eq!(
        Instruction::parse(0x8A, 0xB8),
        Err(InstructionParsingError::InvalidInstruction(0x8AB8))
    );
    assert_eq!(
        Instruction::parse(0xE2, 0x9F),
        Err(InstructionParsingError::InvalidInstruction(0xE29F))
    );
}

#[test]
fn fetch_rejects_protected_and_out_of_range_addresses() {
    let mut m = Chip8::new();
    m.load_program(&[0xFF, 0xFF]).unwrap();
    assert_eq!(
        m.memory.read_instruction(0x100),
        Err(ReadInstructionError::AddressInProtectedMemoryArea(0x100))
    );
    assert_eq!(
        m.memory.read_instruction(MEMORY_SIZE - 1),
        Err(ReadInstructionError::AddressOutOfRange(MEMORY_SIZE - 1))
    );
    assert_eq!(
        m.memory.read_instruction(DEFAULT_PROGRAM_ADDRESS),
        Err(ReadInstructionError::ParseError(InstructionParsingError::InvalidInstruction(0xFFFF)))
    );
}

#[test]
fn cycle_propagates_fetch_and_execution_errors() {
    let mut m = Chip8::new();
    m.load_program(&[0xFF, 0xFF]).unwrap();
    let r = m.cycle();
    assert_eq!(
        r,
        Err(CycleError::FetchError(ReadInstructionError::ParseError(
            InstructionParsingError::InvalidInstruction(0xFFFF)
        )))
    );
    // 0x00EE with an empty stack: the execution error comes through.
    let mut m = Chip8::new();
    m.load_program(&[0x00, 0xEE]).unwrap();
    let r = m.cycle();
    assert_eq!(
        r,
        Err(CycleError::ExecutionError(InstructionExecutionError::InvalidReturn))
    );
    // The program counter is left where the failing instruction put it.
    assert_eq!(m.program_counter, DEFAULT_PROGRAM_ADDRESS);
}

#[test]
fn key_table_tracks_presses_and_releases() {
    let mut m = Chip8::new();
    assert_eq!(m.keyboard.get_key_state(Key::B), KeyState::Released);
    m.key_down(Key::B);
    assert_eq!(m.keyboard.get_key_state(Key::B), KeyState::Pressed);
    assert_eq!(m.keyboard.get_key_state(Key::C), KeyState::Released);
    m.key_up(Key::B);
    assert_eq!(m.keyboard.get_key_state(Key::B), KeyState::Released);
}

#[test]
fn register_and_key_codes_round_trip() {
    for i in 0u8..16 {
        let d = DataRegister::try_from_u8(i).unwrap();
        assert_eq!(d.as_u8(), i);
        let k = Key::try_from_u8(i).unwrap();
        assert_eq!(k.as_u8(), i);
    }
    assert_eq!(DataRegister::try_from_u8(16), Err(16));
    assert_eq!(Key::try_from_u8(255), Err(255));
}

#[test]
fn draw_with_zero_byte_count_reports_no_collision() {
    let mut m = Chip8::new();
    m.load_program(&[]).unwrap();
    set_reg(&mut m, DataRegister::VF, 1);
    m.execute_instruction(Instruction::DrawSpriteAtVxVy {
        vx: DataRegister::V0,
        vy: DataRegister::V1,
        byte_count: 0,
    })
    .unwrap();
    assert_eq!(reg(&m, DataRegister::VF), 0);
    assert!(!m.screen.has_content_updated());
}

#[test]
fn sprite_view_exposes_bits_row_major() {
    let mut m = Chip8::new();
    m.load_program(&[]).unwrap();
    let sprite = m.memory.read_sprite(0, 5).unwrap();
    assert_eq!(sprite.width(), 8);
    assert_eq!(sprite.height(), 5);
    // Glyph 0 row 0 is 0xF0.
    assert_eq!(sprite.get_pixel_unchecked(0, 0), Pixel::On);
    assert_eq!(sprite.get_pixel_unchecked(3, 0), Pixel::On);
    assert_eq!(sprite.get_pixel_unchecked(4, 0), Pixel::Off);
    // Glyph 0 row 1 is 0x90.
    assert_eq!(sprite.get_pixel_unchecked(0, 1), Pixel::On);
    assert_eq!(sprite.get_pixel_unchecked(1, 1), Pixel::Off);
    assert_eq!(sprite.get_pixel_unchecked(3, 1), Pixel::On);
}

#[test]
fn read_sprite_rejects_out_of_bounds_ranges() {
    let m = Chip8::new();
    assert!(m.memory.read_sprite(MEMORY_SIZE - 1, 2).is_none());
    assert!(m.memory.read_sprite(MEMORY_SIZE - 2, 2).is_some());
    // A zero-length range at the very end is still in bounds.
    assert!(m.memory.read_sprite(MEMORY_SIZE, 0).is_some());
}

#[test]
fn font_table_has_sixteen_five_byte_glyphs() {
    let font = chip8::constants::font_sprites();
    assert_eq!(font.len(), 80);
    assert_eq!(font[0], 0xF0);
    assert_eq!(font[79], 0x80);
}

#[test]
fn pixel_xor_is_exclusive_or() {
    assert_eq!(Pixel::On.bitxor(Pixel::Off), Pixel::On);
    assert_eq!(Pixel::Off.bitxor(Pixel::On), Pixel::On);
    assert_eq!(Pixel::On.bitxor(Pixel::On), Pixel::Off);
    assert_eq!(Pixel::Off.bitxor(Pixel::Off), Pixel::Off);
}

#[test]
fn xor_pixel_wraps_and_reports_erasure() {
    let mut s = chip8::Screen::new();
    let r = s.xor_pixel_wrapped_position(SCREEN_WIDTH + 1, SCREEN_HEIGHT + 2, Pixel::On);
    assert_eq!(r, chip8::XorPixelErased::No);
    assert_eq!(s.framebuffer()[2][1], Pixel::On);
    assert!(s.has_content_updated());
    // Composing the same pixel again erases it: the only definition of
    // collision.
    let r = s.xor_pixel_wrapped_position(1, 2, Pixel::On);
    assert_eq!(r, chip8::XorPixelErased::Yes);
    assert_eq!(s.framebuffer()[2][1], Pixel::Off);
    // Composing Off never erases and never changes the pixel.
    let r = s.xor_pixel_wrapped_position(1, 2, Pixel::Off);
    assert_eq!(r, chip8::XorPixelErased::No);
    assert_eq!(s.framebuffer()[2][1], Pixel::Off);
}

#[test]
fn key_from_char_accepts_hex_digits_either_case() {
    assert_eq!(Key::try_from_char('0'), Ok(Key::Num0));
    assert_eq!(Key::try_from_char('9'), Ok(Key::Num9));
    assert_eq!(Key::try_from_char('a'), Ok(Key::A));
    assert_eq!(Key::try_from_char('A'), Ok(Key::A));
    assert_eq!(Key::try_from_char('f'), Ok(Key::F));
    assert_eq!(Key::try_from_char('F'), Ok(Key::F));
    assert_eq!(Key::try_from_char('g'), Err(()));
    assert_eq!(Key::try_from_char(' '), Err(()));
}
