use crate::bytes::{push_le32, push_le64, spec_le32, spec_le64};
use vstd::prelude::*;

verus! {

/// What a section holds.
#[derive(Clone, Copy, Debug, PartialEq, Eq, Structural)]
pub enum Kind {
    Null,
    ProgramData,
    SymbolTable,
    StringTable,
}

impl Kind {
    /// The section-type word this kind is written as.
    pub open spec fn spec_code(self) -> u32 {
        match self {
            Kind::Null => 0,
            Kind::ProgramData => 1,
            Kind::SymbolTable => 2,
            Kind::StringTable => 3,
        }
    }

    /// The section-type word this kind is written as.
    pub fn code(self) -> (r: u32)
        ensures
            r == self.spec_code(),
    {
        match self {
            Kind::Null => 0,
            Kind::ProgramData => 1,
            Kind::SymbolTable => 2,
            Kind::StringTable => 3,
        }
    }
}

/// One section descriptor: a fixed 64-byte record naming a region of the
/// file for linkers and tooling. `name` is a byte offset into the string
/// table, where the section's null-terminated name begins.
#[derive(Clone, Copy, Debug, PartialEq, Eq, Structural)]
pub struct SectionHeader {
    pub name: u32,
    pub kind: Kind,
    pub flags: u32,
    pub addr: u64,
    pub offset: u64,
    pub size: u64,
    pub link: u32,
    pub info: u32,
    pub addr_align: u64,
    pub entry_size: u64,
}

impl SectionHeader {
    /// The entry `new` returns: a program-data section with every other
    /// field zeroed.
    pub open spec fn spec_new() -> SectionHeader {
        SectionHeader {
            name: 0,
            kind: Kind::ProgramData,
            flags: 0,
            addr: 0,
            offset: 0,
            size: 0,
            link: 0,
            info: 0,
            addr_align: 0,
            entry_size: 0,
        }
    }

    /// A program-data section with every other field zeroed, to be filled
    /// by the assembler.
    pub fn new() -> (r: SectionHeader)
        ensures
            r == SectionHeader::spec_new(),
    {
        SectionHeader {
            name: 0,
            kind: Kind::ProgramData,
            flags: 0,
            addr: 0,
            offset: 0,
            size: 0,
            link: 0,
            info: 0,
            addr_align: 0,
            entry_size: 0,
        }
    }

    /// The entry's byte-exact serialized form: each field in declaration
    /// order, little-endian, 64 bytes in all. The flags word is 64 bits on
    /// disk; its upper four bytes are always zero here.
    pub open spec fn spec_bytes(self) -> Seq<u8> {
        spec_le32(self.name) + spec_le32(self.kind.spec_code()) + spec_le32(self.flags)
            + seq![0u8, 0u8, 0u8, 0u8] + spec_le64(self.addr) + spec_le64(self.offset) + spec_le64(
            self.size,
        ) + spec_le32(self.link) + spec_le32(self.info) + spec_le64(self.addr_align) + spec_le64(
            self.entry_size,
        )
    }

    /// Serialize the entry field by field, in the declared order and
    /// endianness.
    pub fn as_bytes(&self) -> (r: Vec<u8>)
        ensures
            r@ == self.spec_bytes(),
            r@.len() == 64,
    {
        let mut r: Vec<u8> = Vec::new();
        push_le32(&mut r, self.name);
        push_le32(&mut r, self.kind.code());
        push_le32(&mut r, self.flags);
        r.push(0);
        r.push(0);
        r.push(0);
        r.push(0);
        push_le64(&mut r, self.addr);
        push_le64(&mut r, self.offset);
        push_le64(&mut r, self.size);
        push_le32(&mut r, self.link);
        push_le32(&mut r, self.info);
        push_le64(&mut r, self.addr_align);
        push_le64(&mut r, self.entry_size);
        proof {
            assert(r@ =~= self.spec_bytes());
        }
        r
    }
}

} // verus!
