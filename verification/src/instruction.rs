use crate::bytes::{push_le32, spec_le32};
use crate::fault::Fault;
use vstd::prelude::*;

verus! {

/// One of the eight x86-64 general-purpose registers reachable without a
/// REX.B prefix.
#[derive(Clone, Copy, Debug, PartialEq, Eq, Structural)]
pub enum Register {
    Rax,
    Rcx,
    Rdx,
    Rbx,
    Rsp,
    Rbp,
    Rsi,
    Rdi,
}

impl Register {
    /// The register's three-bit encoding, as the ModR/M byte carries it.
    pub open spec fn spec_code(self) -> u8 {
        match self {
            Register::Rax => 0,
            Register::Rcx => 1,
            Register::Rdx => 2,
            Register::Rbx => 3,
            Register::Rsp => 4,
            Register::Rbp => 5,
            Register::Rsi => 6,
            Register::Rdi => 7,
        }
    }

    /// The register's three-bit encoding, as the ModR/M byte carries it.
    pub fn code(self) -> (r: u8)
        ensures
            r == self.spec_code(),
    {
        match self {
            Register::Rax => 0,
            Register::Rcx => 1,
            Register::Rdx => 2,
            Register::Rbx => 3,
            Register::Rsp => 4,
            Register::Rbp => 5,
            Register::Rsi => 6,
            Register::Rdi => 7,
        }
    }
}

/// The bytes of `mov reg, imm32`: REX.W prefix, opcode, a ModR/M byte in
/// register-direct mode selecting `register`, then the little-endian
/// immediate.
pub open spec fn spec_mov(register: Register, value: u32) -> Seq<u8> {
    seq![0x48u8, 0xC7u8, 0xC0u8 | register.spec_code()] + spec_le32(value)
}

/// The bytes of `lea reg, [rip + displacement]`: REX.W prefix, opcode, a
/// ModR/M byte with RIP-relative addressing, then the little-endian
/// displacement.
pub open spec fn spec_lea_rip_relative(register: Register, displacement: u32) -> Seq<u8> {
    seq![0x48u8, 0x8Du8, (register.spec_code() << 3) | 0x05u8] + spec_le32(displacement)
}

/// The bytes of `xor reg, reg` on a single register: the idiom that zeroes
/// it.
pub open spec fn spec_xor_self(register: Register) -> Seq<u8> {
    seq![0x48u8, 0x31u8, 0xC0u8 | (register.spec_code() << 3) | register.spec_code()]
}

/// The two bytes of the `syscall` trap.
pub open spec fn spec_syscall() -> Seq<u8> {
    seq![0x0Fu8, 0x05u8]
}

/// One encoded machine instruction: its opcode bytes, at most fifteen of
/// them, immutable once constructed.
#[derive(Clone, Debug)]
pub struct Instruction {
    bytes: Vec<u8>,
}

impl View for Instruction {
    type V = Seq<u8>;

    closed spec fn view(&self) -> Seq<u8> {
        self.bytes@
    }
}

impl Instruction {
    /// An instruction with no bytes yet.
    pub fn new() -> (r: Instruction)
        ensures
            r@ == Seq::<u8>::empty(),
    {
        Instruction { bytes: Vec::new() }
    }

    /// Encode `mov register, value`: a seven-byte form loading a 32-bit
    /// immediate into a 64-bit register.
    pub fn mov(register: Register, value: u32) -> (r: Instruction)
        ensures
            r@ == spec_mov(register, value),
            r@.len() == 7,
    {
        let mut bytes: Vec<u8> = Vec::new();
        bytes.push(0x48);
        bytes.push(0xC7);
        bytes.push(0xC0 | register.code());
        push_le32(&mut bytes, value);
        proof {
            assert(bytes@ =~= spec_mov(register, value));
        }
        Instruction { bytes }
    }

    /// Encode `lea register, [rip + displacement]`: a seven-byte
    /// RIP-relative address load.
    pub fn lea_rip_relative(register: Register, displacement: u32) -> (r: Instruction)
        ensures
            r@ == spec_lea_rip_relative(register, displacement),
            r@.len() == 7,
    {
        let mut bytes: Vec<u8> = Vec::new();
        bytes.push(0x48);
        bytes.push(0x8D);
        bytes.push((register.code() << 3) | 0x05);
        push_le32(&mut bytes, displacement);
        proof {
            assert(bytes@ =~= spec_lea_rip_relative(register, displacement));
        }
        Instruction { bytes }
    }

    /// Encode `xor left, right`, supported only for `left == right`: the
    /// three-byte idiom that zeroes a register. Any other pair is an
    /// unsupported operation and fails rather than emitting wrong bytes.
    pub fn xor(left: Register, right: Register) -> (r: Result<Instruction, Fault>)
        ensures
            left == right ==> (r matches Ok(i) && i@ == spec_xor_self(left) && i@.len() == 3),
            left != right ==> r == Result::<Instruction, Fault>::Err(Fault::UnsupportedOperation),
    {
        if left != right {
            return Err(Fault::UnsupportedOperation);
        }
        let mut bytes: Vec<u8> = Vec::new();
        bytes.push(0x48);
        bytes.push(0x31);
        bytes.push(0xC0 | (left.code() << 3) | right.code());
        proof {
            assert(bytes@ =~= spec_xor_self(left));
        }
        Ok(Instruction { bytes })
    }

    /// Encode the two-byte `syscall` trap.
    pub fn syscall() -> (r: Instruction)
        ensures
            r@ == spec_syscall(),
            r@.len() == 2,
    {
        let mut bytes: Vec<u8> = Vec::new();
        bytes.push(0x0F);
        bytes.push(0x05);
        proof {
            assert(bytes@ =~= spec_syscall());
        }
        Instruction { bytes }
    }

    /// The encoded bytes.
    pub fn as_bytes(&self) -> (r: &Vec<u8>)
        ensures
            r@ == self@,
    {
        &self.bytes
    }
}

} // verus!
