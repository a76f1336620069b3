use crate::bytes::{push_le32, push_le64, spec_le32, spec_le64};
use vstd::prelude::*;

verus! {

/// One loadable-segment descriptor: a fixed 56-byte record telling the
/// loader to map a contiguous region of the file into memory with the
/// given permissions.
#[derive(Clone, Copy, Debug, PartialEq, Eq, Structural)]
pub struct ProgramHeader {
    pub kind: u32,
    pub flags: u32,
    pub offset: u64,
    pub virtual_addr: u64,
    pub physical_addr: u64,
    pub file_size: u64,
    pub memory_size: u64,
    pub align: u64,
}

impl ProgramHeader {
    /// The entry `new` returns: a read-only loadable segment with every
    /// layout-dependent field zeroed.
    pub open spec fn spec_new() -> ProgramHeader {
        ProgramHeader {
            kind: 1,
            flags: 0x4,
            offset: 0,
            virtual_addr: 0,
            physical_addr: 0,
            file_size: 0,
            memory_size: 0,
            align: 0,
        }
    }

    /// A loadable (`PT_LOAD`), readable segment with every
    /// layout-dependent field zeroed, to be filled by the assembler.
    pub fn new() -> (r: ProgramHeader)
        ensures
            r == ProgramHeader::spec_new(),
    {
        ProgramHeader {
            kind: 1,
            flags: 0x4,
            offset: 0,
            virtual_addr: 0,
            physical_addr: 0,
            file_size: 0,
            memory_size: 0,
            align: 0,
        }
    }

    /// The entry's byte-exact serialized form: each field in declaration
    /// order, little-endian, 56 bytes in all.
    pub open spec fn spec_bytes(self) -> Seq<u8> {
        spec_le32(self.kind) + spec_le32(self.flags) + spec_le64(self.offset) + spec_le64(
            self.virtual_addr,
        ) + spec_le64(self.physical_addr) + spec_le64(self.file_size) + spec_le64(self.memory_size)
            + spec_le64(self.align)
    }

    /// Serialize the entry field by field, in the declared order and
    /// endianness.
    pub fn as_bytes(&self) -> (r: Vec<u8>)
        ensures
            r@ == self.spec_bytes(),
            r@.len() == 56,
    {
        let mut r: Vec<u8> = Vec::new();
        push_le32(&mut r, self.kind);
        push_le32(&mut r, self.flags);
        push_le64(&mut r, self.offset);
        push_le64(&mut r, self.virtual_addr);
        push_le64(&mut r, self.physical_addr);
        push_le64(&mut r, self.file_size);
        push_le64(&mut r, self.memory_size);
        push_le64(&mut r, self.align);
        proof {
            assert(r@ =~= self.spec_bytes());
        }
        r
    }
}

} // verus!
