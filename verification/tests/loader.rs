use lc3::isa::{OpCode, Register, TrapCode};
use lc3::machine::{VmState, VM};
use lc3::{read_image, sign_extend};

#[test]
fn sign_extend_five_bit_fields() {
    // Top bit set: the value becomes the matching 16-bit negative.
    assert_eq!(sign_extend(0x1F, 5), 0xFFFF);
    assert_eq!(sign_extend(0x10, 5), 0xFFF0);
    // Top bit clear: the value is unchanged.
    assert_eq!(sign_extend(0x0F, 5), 0x0F);
    assert_eq!(sign_extend(0x00, 5), 0x00);
}

#[test]
fn sign_extend_six_bit_fields() {
    assert_eq!(sign_extend(0x3F, 6), 0xFFFF);
    assert_eq!(sign_extend(0x20, 6), 0xFFE0);
    assert_eq!(sign_extend(0x1F, 6), 0x1F);
}

#[test]
fn sign_extend_nine_bit_fields() {
    assert_eq!(sign_extend(0x1FF, 9), 0xFFFF);
    assert_eq!(sign_extend(0x100, 9), 0xFF00);
    assert_eq!(sign_extend(0x0FF, 9), 0x0FF);
}

#[test]
fn sign_extend_eleven_bit_fields() {
    assert_eq!(sign_extend(0x7FF, 11), 0xFFFF);
    assert_eq!(sign_extend(0x400, 11), 0xFC00);
    assert_eq!(sign_extend(0x3FF, 11), 0x3FF);
}

#[test]
fn read_image_then_lea_scenario() {
    // Origin 0x3000 followed by LEA R0 with PCoffset9 = 3: after the
    // fetch increment R0 holds 0x3001 + 3 and the flags are positive.
    let mut vm = VM::new();
    let bytes = vec![0x30, 0x00, 0xE0, 0x03];
    assert!(read_image(&mut vm, &bytes));
    assert_eq!(vm.mem_read(0x3000), 0xE003);
    vm.start();
    assert!(vm.step().is_ok());
    assert_eq!(vm.get_register(Register::R0), 0x3004);
    assert_eq!(vm.get_register(Register::Cond), 1);
    assert_eq!(vm.get_register(Register::Pc), 0x3001);
}

#[test]
fn read_image_empty_stream_fails() {
    let mut vm = VM::new();
    assert!(!read_image(&mut vm, &vec![]));
    assert_eq!(vm.mem_read(0x3000), 0);
}

#[test]
fn read_image_half_word_fails() {
    let mut vm = VM::new();
    assert!(!read_image(&mut vm, &vec![0x30]));
    assert!(!read_image(&mut vm, &vec![0x30, 0x00, 0xE0]));
}

#[test]
fn read_image_origin_only_loads_nothing() {
    let mut vm = VM::new();
    assert!(read_image(&mut vm, &vec![0x30, 0x00]));
    assert_eq!(vm.mem_read(0x3000), 0);
    assert_eq!(vm.mem_read(0x3001), 0);
}

#[test]
fn read_image_is_big_endian() {
    let mut vm = VM::new();
    assert!(read_image(&mut vm, &vec![0x12, 0x34, 0xAB, 0xCD]));
    assert_eq!(vm.mem_read(0x1234), 0xABCD);
}

#[test]
fn load_image_wraps_past_top_of_memory() {
    let mut vm = VM::new();
    vm.load_image(0xFFFF, &vec![1, 2, 3]);
    assert_eq!(vm.mem_read(0xFFFF), 1);
    assert_eq!(vm.mem_read(0x0000), 2);
    assert_eq!(vm.mem_read(0x0001), 3);
}

#[test]
fn later_loads_overwrite_earlier_ones() {
    let mut vm = VM::new();
    vm.load_image(0x3000, &vec![1, 2]);
    vm.load_image(0x3001, &vec![9]);
    assert_eq!(vm.mem_read(0x3000), 1);
    assert_eq!(vm.mem_read(0x3001), 9);
}

#[test]
fn new_machine_is_zeroed_and_running() {
    let vm = VM::new();
    assert_eq!(vm.get_register(Register::R0), 0);
    assert_eq!(vm.get_register(Register::R7), 0);
    assert_eq!(vm.get_register(Register::Pc), 0);
    assert_eq!(vm.get_register(Register::Cond), 0);
    assert_eq!(vm.mem_read(0), 0);
    assert_eq!(vm.mem_read(0xFFFF), 0);
    assert_eq!(vm.run_state(), VmState::Running);
}

#[test]
fn start_sets_entry_point_and_zero_flag() {
    let mut vm = VM::new();
    vm.start();
    assert_eq!(vm.get_register(Register::Pc), 0x3000);
    assert_eq!(vm.get_register(Register::Cond), 2);
    assert_eq!(vm.run_state(), VmState::Running);
}

#[test]
fn memory_write_read_roundtrip() {
    let mut vm = VM::new();
    vm.mem_write(0x1234, 0xCAFE);
    assert_eq!(vm.mem_read(0x1234), 0xCAFE);
    assert_eq!(vm.mem_read(0x1233), 0);
}

#[test]
fn register_set_get_roundtrip() {
    let mut vm = VM::new();
    vm.set_register(Register::R5, 0x5555);
    assert_eq!(vm.get_register(Register::R5), 0x5555);
    assert_eq!(vm.get_register(Register::R4), 0);
}

#[test]
fn register_decoding() {
    assert_eq!(Register::from_u16(0), Some(Register::R0));
    assert_eq!(Register::from_u16(7), Some(Register::R7));
    assert_eq!(Register::from_u16(8), Some(Register::Pc));
    assert_eq!(Register::from_u16(9), Some(Register::Cond));
    assert_eq!(Register::from_u16(10), None);
}

#[test]
fn opcode_decoding() {
    assert_eq!(OpCode::from_u16(0), Some(OpCode::Br));
    assert_eq!(OpCode::from_u16(1), Some(OpCode::Add));
    assert_eq!(OpCode::from_u16(8), Some(OpCode::Rti));
    assert_eq!(OpCode::from_u16(13), Some(OpCode::Res));
    assert_eq!(OpCode::from_u16(15), Some(OpCode::Trap));
    assert_eq!(OpCode::from_u16(16), None);
}

#[test]
fn trap_code_decoding() {
    assert_eq!(TrapCode::from_u16(0x20), Some(TrapCode::Getc));
    assert_eq!(TrapCode::from_u16(0x25), Some(TrapCode::Halt));
    assert_eq!(TrapCode::from_u16(0x1F), None);
    assert_eq!(TrapCode::from_u16(0x26), None);
    assert_eq!(TrapCode::from_u16(0x99), None);
}
