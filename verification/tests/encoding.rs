use elfgen::fault::Fault;
use elfgen::instruction::{Instruction, Register};

#[test]
fn mov_rax_one() {
    let i = Instruction::mov(Register::Rax, 0x01);
    assert_eq!(i.as_bytes().as_slice(), &[0x48, 0xC7, 0xC0, 0x01, 0x00, 0x00, 0x00]);
}

#[test]
fn mov_rax_exit_number() {
    let i = Instruction::mov(Register::Rax, 0x3C);
    assert_eq!(i.as_bytes().as_slice(), &[0x48, 0xC7, 0xC0, 0x3C, 0x00, 0x00, 0x00]);
}

#[test]
fn mov_rdx_small_immediate() {
    let i = Instruction::mov(Register::Rdx, 0x12);
    assert_eq!(i.as_bytes().as_slice(), &[0x48, 0xC7, 0xC2, 0x12, 0x00, 0x00, 0x00]);
}

#[test]
fn mov_rsi_data_address() {
    let i = Instruction::mov(Register::Rsi, 0x402000);
    assert_eq!(i.as_bytes().as_slice(), &[0x48, 0xC7, 0xC6, 0x00, 0x20, 0x40, 0x00]);
}

#[test]
fn mov_rdi_one() {
    let i = Instruction::mov(Register::Rdi, 0x01);
    assert_eq!(i.as_bytes().as_slice(), &[0x48, 0xC7, 0xC7, 0x01, 0x00, 0x00, 0x00]);
}

#[test]
fn xor_rdi_with_itself() {
    let i = Instruction::xor(Register::Rdi, Register::Rdi).unwrap();
    assert_eq!(i.as_bytes().as_slice(), &[0x48, 0x31, 0xFF]);
}

#[test]
fn xor_rax_with_itself() {
    let i = Instruction::xor(Register::Rax, Register::Rax).unwrap();
    assert_eq!(i.as_bytes().as_slice(), &[0x48, 0x31, 0xC0]);
}

#[test]
fn xor_of_two_different_registers_fails() {
    let r = Instruction::xor(Register::Rax, Register::Rdi);
    assert!(matches!(r, Err(Fault::UnsupportedOperation)));
    let r = Instruction::xor(Register::Rdi, Register::Rsi);
    assert!(matches!(r, Err(Fault::UnsupportedOperation)));
}

#[test]
fn syscall_encoding() {
    let i = Instruction::syscall();
    assert_eq!(i.as_bytes().as_slice(), &[0x0F, 0x05]);
}

#[test]
fn lea_rip_relative_encoding() {
    let i = Instruction::lea_rip_relative(Register::Rdi, 0x10);
    assert_eq!(i.as_bytes().as_slice(), &[0x48, 0x8D, 0x3D, 0x10, 0x00, 0x00, 0x00]);
}

#[test]
fn empty_instruction_has_no_bytes() {
    let i = Instruction::new();
    assert!(i.as_bytes().is_empty());
}
