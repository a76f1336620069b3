use crate::bytes::{push_le16, push_le32, push_le64, spec_le16, spec_le32, spec_le64};
use vstd::prelude::*;

verus! {

/// Word width of the object file.
#[derive(Clone, Copy, Debug, PartialEq, Eq, Structural)]
pub enum BitWidth {
    ThirtyTwo,
    SixtyFour,
}

impl BitWidth {
    /// The identification byte this width is written as.
    pub open spec fn spec_code(self) -> u8 {
        match self {
            BitWidth::ThirtyTwo => 1,
            BitWidth::SixtyFour => 2,
        }
    }

    /// The identification byte this width is written as.
    pub fn code(self) -> (r: u8)
        ensures
            r == self.spec_code(),
    {
        match self {
            BitWidth::ThirtyTwo => 1,
            BitWidth::SixtyFour => 2,
        }
    }
}

/// Byte order of the object file.
#[derive(Clone, Copy, Debug, PartialEq, Eq, Structural)]
pub enum Endian {
    Little,
    Big,
}

impl Endian {
    /// The identification byte this byte order is written as.
    pub open spec fn spec_code(self) -> u8 {
        match self {
            Endian::Little => 1,
            Endian::Big => 2,
        }
    }

    /// The identification byte this byte order is written as.
    pub fn code(self) -> (r: u8)
        ensures
            r == self.spec_code(),
    {
        match self {
            Endian::Little => 1,
            Endian::Big => 2,
        }
    }
}

/// Version of the object-file format; only the original version exists.
#[derive(Clone, Copy, Debug, PartialEq, Eq, Structural)]
pub enum Version {
    One,
}

impl Version {
    /// The identification byte this version is written as.
    pub open spec fn spec_code(self) -> u8 {
        match self {
            Version::One => 1,
        }
    }

    /// The identification byte this version is written as.
    pub fn code(self) -> (r: u8)
        ensures
            r == self.spec_code(),
    {
        match self {
            Version::One => 1,
        }
    }
}

/// Operating-system ABI the file targets.
#[derive(Clone, Copy, Debug, PartialEq, Eq, Structural)]
pub enum Env {
    SysV,
}

impl Env {
    /// The identification byte this ABI is written as.
    pub open spec fn spec_code(self) -> u8 {
        match self {
            Env::SysV => 0,
        }
    }

    /// The identification byte this ABI is written as.
    pub fn code(self) -> (r: u8)
        ensures
            r == self.spec_code(),
    {
        match self {
            Env::SysV => 0,
        }
    }
}

/// The fixed 64-byte record at the start of the file.
///
/// The layout-dependent fields (entry address, table offsets and counts,
/// string-table index) start zeroed and are filled by the assembler; the
/// architecture-fixed fields are set by `new`.
#[derive(Clone, Copy, Debug, PartialEq, Eq, Structural)]
pub struct ElfHeader {
    pub bit_width: BitWidth,
    pub endian: Endian,
    pub version: Version,
    pub env: Env,
    pub env_version: u8,
    pub kind: u16,
    pub arch: u16,
    pub version2: u32,
    pub entry_address: u64,
    pub program_table: u64,
    pub section_table: u64,
    pub flags: u32,
    pub size: u16,
    pub program_table_size: u16,
    pub program_table_len: u16,
    pub section_table_size: u16,
    pub section_table_len: u16,
    pub section_table_index: u16,
}

/// The serialized size of the header itself.
pub const ELF_HEADER_SIZE: u16 = 64;

/// The serialized size of one program-header entry.
pub const PROGRAM_HEADER_SIZE: u16 = 56;

/// The serialized size of one section-header entry.
pub const SECTION_HEADER_SIZE: u16 = 64;

impl ElfHeader {
    /// The header `new` returns: a 64-bit little-endian SysV executable for
    /// x86-64, with every layout-dependent field zeroed.
    pub open spec fn spec_new() -> ElfHeader {
        ElfHeader {
            bit_width: BitWidth::SixtyFour,
            endian: Endian::Little,
            version: Version::One,
            env: Env::SysV,
            env_version: 0,
            kind: 2,
            arch: 0x3E,
            version2: 1,
            entry_address: 0,
            program_table: 0,
            section_table: 0,
            flags: 0,
            size: 64,
            program_table_size: 56,
            program_table_len: 0,
            section_table_size: 64,
            section_table_len: 0,
            section_table_index: 0,
        }
    }

    /// A header with the architecture-fixed fields pre-populated and the
    /// layout-dependent fields zeroed. The recorded sizes equal the actual
    /// serialized sizes of the three record types.
    pub fn new() -> (r: ElfHeader)
        ensures
            r == ElfHeader::spec_new(),
            r.size == ELF_HEADER_SIZE,
            r.program_table_size == PROGRAM_HEADER_SIZE,
            r.section_table_size == SECTION_HEADER_SIZE,
    {
        ElfHeader {
            bit_width: BitWidth::SixtyFour,
            endian: Endian::Little,
            version: Version::One,
            env: Env::SysV,
            env_version: 0,
            kind: 2,
            arch: 0x3E,
            version2: 1,
            entry_address: 0,
            program_table: 0,
            section_table: 0,
            flags: 0,
            size: ELF_HEADER_SIZE,
            program_table_size: PROGRAM_HEADER_SIZE,
            program_table_len: 0,
            section_table_size: SECTION_HEADER_SIZE,
            section_table_len: 0,
            section_table_index: 0,
        }
    }

    /// The header's byte-exact serialized form: the magic, the five
    /// identification bytes, seven bytes of padding, then each field in
    /// declaration order, little-endian.
    pub open spec fn spec_bytes(self) -> Seq<u8> {
        seq![0x7Fu8, 0x45u8, 0x4Cu8, 0x46u8]
            + seq![
            self.bit_width.spec_code(),
            self.endian.spec_code(),
            self.version.spec_code(),
            self.env.spec_code(),
            self.env_version,
        ] + seq![0u8, 0u8, 0u8, 0u8, 0u8, 0u8, 0u8] + spec_le16(self.kind) + spec_le16(self.arch)
            + spec_le32(self.version2) + spec_le64(self.entry_address) + spec_le64(
            self.program_table,
        ) + spec_le64(self.section_table) + spec_le32(self.flags) + spec_le16(self.size)
            + spec_le16(self.program_table_size) + spec_le16(self.program_table_len) + spec_le16(
            self.section_table_size,
        ) + spec_le16(self.section_table_len) + spec_le16(self.section_table_index)
    }

    /// Serialize the header field by field, in the declared order and
    /// endianness.
    pub fn as_bytes(&self) -> (r: Vec<u8>)
        ensures
            r@ == self.spec_bytes(),
            r@.len() == 64,
    {
        let mut r: Vec<u8> = Vec::new();
        r.push(0x7F);
        r.push(0x45);
        r.push(0x4C);
        r.push(0x46);
        r.push(self.bit_width.code());
        r.push(self.endian.code());
        r.push(self.version.code());
        r.push(self.env.code());
        r.push(self.env_version);
        r.push(0);
        r.push(0);
        r.push(0);
        r.push(0);
        r.push(0);
        r.push(0);
        r.push(0);
        push_le16(&mut r, self.kind);
        push_le16(&mut r, self.arch);
        push_le32(&mut r, self.version2);
        push_le64(&mut r, self.entry_address);
        push_le64(&mut r, self.program_table);
        push_le64(&mut r, self.section_table);
        push_le32(&mut r, self.flags);
        push_le16(&mut r, self.size);
        push_le16(&mut r, self.program_table_size);
        push_le16(&mut r, self.program_table_len);
        push_le16(&mut r, self.section_table_size);
        push_le16(&mut r, self.section_table_len);
        push_le16(&mut r, self.section_table_index);
        proof {
            assert(r@ =~= self.spec_bytes());
        }
        r
    }
}

/// The sizes a freshly constructed header records equal the actual
/// serialized sizes of the three record types, whatever values their
/// layout-dependent fields later take.
pub proof fn lemma_recorded_sizes(
    h: ElfHeader,
    p: crate::program_header::ProgramHeader,
    s: crate::section_header::SectionHeader,
)
    requires
        h.size == ELF_HEADER_SIZE,
        h.program_table_size == PROGRAM_HEADER_SIZE,
        h.section_table_size == SECTION_HEADER_SIZE,
    ensures
        h.size == h.spec_bytes().len(),
        h.program_table_size == p.spec_bytes().len(),
        h.section_table_size == s.spec_bytes().len(),
{
}

} // verus!
