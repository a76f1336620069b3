use crate::bytes::zeroed;
use crate::elf_header::ElfHeader;
use crate::instruction::{spec_mov, spec_syscall, spec_xor_self, Instruction, Register};
use crate::io::buf::Buf;
use crate::program_header::ProgramHeader;
use crate::section_header::{Kind, SectionHeader};
use crate::string_table::{
    lemma_split_round_trip, lemma_table_push, spec_name_seqs, spec_offset, spec_split_nulls,
    spec_table, string_table_bytes, string_table_offsets,
};
use vstd::prelude::*;

verus! {

/// Byte offset of the program-header table within the image.
pub const PROGRAM_HEADERS_OFFSET: u64 = 64;

/// Byte offset of the section-header table within the image.
pub const SECTION_HEADERS_OFFSET: u64 = 232;

/// Byte offset of the code region within the image.
pub const CODE_OFFSET: u64 = 488;

/// Byte offset of the read-only data region within the image.
pub const READ_ONLY_DATA_OFFSET: u64 = 530;

/// Byte offset of the string table within the image.
pub const STRINGS_TABLE_OFFSET: u64 = 542;

/// Total size of the image in bytes.
pub const IMAGE_SIZE: usize = 567;

/// The name of the code section.
pub open spec fn spec_text_name() -> Seq<u8> {
    seq![0x2Eu8, 0x74u8, 0x65u8, 0x78u8, 0x74u8]
}

/// The name of the read-only data section.
pub open spec fn spec_rodata_name() -> Seq<u8> {
    seq![0x2Eu8, 0x72u8, 0x6Fu8, 0x64u8, 0x61u8, 0x74u8, 0x61u8]
}

/// The name of the section-name string table's own section.
pub open spec fn spec_shstrtab_name() -> Seq<u8> {
    seq![0x2Eu8, 0x73u8, 0x68u8, 0x73u8, 0x68u8, 0x72u8, 0x74u8, 0x61u8, 0x62u8]
}

/// The four section names in string-table order: the three named sections,
/// then the empty name of the null section.
pub open spec fn spec_names() -> Seq<Seq<u8>> {
    seq![spec_text_name(), spec_rodata_name(), spec_shstrtab_name(), Seq::<u8>::empty()]
}

/// The message the program writes to standard output.
pub open spec fn spec_message() -> Seq<u8> {
    seq![0x68u8, 0x65u8, 0x6Cu8, 0x6Cu8, 0x6Fu8, 0x20u8, 0x77u8, 0x6Fu8, 0x72u8, 0x6Cu8, 0x64u8, 0x7Eu8]
}

/// The encoded instruction stream: load the write syscall number, the
/// file descriptor, the message address and the message length, trap; then
/// load the exit syscall number, zero the exit code, trap.
pub open spec fn spec_code() -> Seq<u8> {
    spec_mov(Register::Rax, 0x01) + spec_mov(Register::Rdi, 0x01) + spec_mov(
        Register::Rsi,
        0x402000,
    ) + spec_mov(Register::Rdx, 0x0C) + spec_syscall() + spec_mov(Register::Rax, 0x3C)
        + spec_xor_self(Register::Rdi) + spec_syscall()
}

/// The image's ELF header: entry at the code segment's virtual address,
/// both table offsets and entry counts filled in, and the string-table
/// section's index recorded.
pub open spec fn spec_image_header() -> ElfHeader {
    ElfHeader {
        entry_address: 0x401000,
        program_table: PROGRAM_HEADERS_OFFSET,
        program_table_len: 3,
        section_table: SECTION_HEADERS_OFFSET,
        section_table_len: 4,
        section_table_index: 3,
        ..ElfHeader::spec_new()
    }
}

/// The image's three loadable segments: header and tables (read-only),
/// code (execute and read), read-only data, at their fixed virtual
/// addresses. The first segment spans the whole 488-byte header-and-tables
/// region, so the three segments partition the file.
///
/// The code and data segments' file offsets (488 and 530) do not agree
/// with their virtual addresses modulo the recorded 0x1000 alignment: the
/// fixed 567-byte layout leaves no room to pad each region out to a page
/// boundary, so a loader that insists on page-congruent mappings will
/// refuse the image as it stands.
pub open spec fn spec_program_headers() -> Seq<ProgramHeader> {
    seq![
        ProgramHeader {
            flags: 0x4,
            offset: 0,
            memory_size: 0x1E8,
            file_size: 0x1E8,
            virtual_addr: 0x400000,
            physical_addr: 0x400000,
            align: 0x1000,
            ..ProgramHeader::spec_new()
        },
        ProgramHeader {
            flags: 0x5,
            offset: CODE_OFFSET,
            memory_size: 42,
            file_size: 42,
            virtual_addr: 0x401000,
            physical_addr: 0x401000,
            align: 0x1000,
            ..ProgramHeader::spec_new()
        },
        ProgramHeader {
            flags: 0x4,
            offset: READ_ONLY_DATA_OFFSET,
            memory_size: 12,
            file_size: 12,
            virtual_addr: 0x402000,
            physical_addr: 0x402000,
            align: 0x1000,
            ..ProgramHeader::spec_new()
        },
    ]
}

/// The image's four sections: the null section, then code, read-only data
/// and the string table, each naming itself by its offset in that table.
pub open spec fn spec_section_headers() -> Seq<SectionHeader> {
    seq![
        SectionHeader {
            kind: Kind::Null,
            name: spec_offset(spec_names(), 3) as u32,
            ..SectionHeader::spec_new()
        },
        SectionHeader {
            kind: Kind::ProgramData,
            offset: CODE_OFFSET,
            size: 42,
            name: spec_offset(spec_names(), 0) as u32,
            flags: 0x6,
            addr: 0x401000,
            addr_align: 1,
            ..SectionHeader::spec_new()
        },
        SectionHeader {
            kind: Kind::ProgramData,
            offset: READ_ONLY_DATA_OFFSET,
            size: 12,
            name: spec_offset(spec_names(), 1) as u32,
            flags: 0x2,
            addr: 0x402000,
            addr_align: 1,
            ..SectionHeader::spec_new()
        },
        SectionHeader {
            kind: Kind::StringTable,
            offset: STRINGS_TABLE_OFFSET,
            size: 25,
            name: spec_offset(spec_names(), 2) as u32,
            addr_align: 1,
            ..SectionHeader::spec_new()
        },
    ]
}

/// The whole file image, region by region in its fixed order.
pub open spec fn spec_image_bytes() -> Seq<u8> {
    spec_image_header().spec_bytes() + spec_program_headers()[0].spec_bytes()
        + spec_program_headers()[1].spec_bytes() + spec_program_headers()[2].spec_bytes()
        + spec_section_headers()[0].spec_bytes() + spec_section_headers()[1].spec_bytes()
        + spec_section_headers()[2].spec_bytes() + spec_section_headers()[3].spec_bytes()
        + spec_code() + spec_message() + spec_table(spec_names())
}

/// The complete executable image: every header, the code, the read-only
/// data and the string table, in the order they appear in the file.
#[derive(Clone, Debug)]
pub struct Elf {
    pub header: ElfHeader,
    pub program_headers: Vec<ProgramHeader>,
    pub section_headers: Vec<SectionHeader>,
    pub code: Vec<u8>,
    pub read_only_data: Vec<u8>,
    pub strings_table: Vec<u8>,
}

impl Elf {
    /// Every region has its fixed size.
    pub open spec fn wf(self) -> bool {
        self.program_headers@.len() == 3 && self.section_headers@.len() == 4 && self.code@.len()
            == 42 && self.read_only_data@.len() == 12 && self.strings_table@.len() == 25
    }

    /// The image's serialized form: each region's bytes, in the fixed
    /// order header, program headers, section headers, code, read-only
    /// data, string table.
    pub open spec fn spec_bytes(self) -> Seq<u8> {
        self.header.spec_bytes() + self.program_headers@[0].spec_bytes()
            + self.program_headers@[1].spec_bytes() + self.program_headers@[2].spec_bytes()
            + self.section_headers@[0].spec_bytes() + self.section_headers@[1].spec_bytes()
            + self.section_headers@[2].spec_bytes() + self.section_headers@[3].spec_bytes()
            + self.code@ + self.read_only_data@ + self.strings_table@
    }

    /// Build the image. Every field of the result is fixed: the same image
    /// comes out of every build, byte for byte.
    pub fn new() -> (r: Elf)
        ensures
            r.wf(),
            r.header == spec_image_header(),
            r.program_headers@ == spec_program_headers(),
            r.section_headers@ == spec_section_headers(),
            r.code@ == spec_code(),
            r.read_only_data@ == spec_message(),
            r.strings_table@ == spec_table(spec_names()),
            r.spec_bytes() == spec_image_bytes(),
            r.header.program_table == PROGRAM_HEADERS_OFFSET,
            r.header.section_table == SECTION_HEADERS_OFFSET,
            r.header.program_table_len == 3,
            r.header.section_table_len == 4,
            r.header.section_table_index == 3,
            r.header.entry_address == r.program_headers@[1].virtual_addr,
            r.program_headers@[1].virtual_addr == 0x401000,
    {
        let read_only_data = message();

        // The code region: the fixed instruction sequence, encoded through
        // a cursor over the 42-byte region it must exactly fill.
        let mut buf = Buf::new(zeroed(42));
        let i0 = Instruction::mov(Register::Rax, 0x01);
        let _ = buf.write(i0.as_bytes().as_slice());
        proof {
            assert(buf@.take(7) =~= spec_mov(Register::Rax, 0x01));
        }
        let i1 = Instruction::mov(Register::Rdi, 0x01);
        let _ = buf.write(i1.as_bytes().as_slice());
        proof {
            assert(buf@.take(14) =~= spec_mov(Register::Rax, 0x01) + spec_mov(
                Register::Rdi,
                0x01,
            ));
        }
        let i2 = Instruction::mov(Register::Rsi, 0x402000);
        let _ = buf.write(i2.as_bytes().as_slice());
        proof {
            assert(buf@.take(21) =~= spec_mov(Register::Rax, 0x01) + spec_mov(Register::Rdi, 0x01)
                + spec_mov(Register::Rsi, 0x402000));
        }
        let i3 = Instruction::mov(Register::Rdx, 0x0C);
        let _ = buf.write(i3.as_bytes().as_slice());
        proof {
            assert(buf@.take(28) =~= spec_mov(Register::Rax, 0x01) + spec_mov(Register::Rdi, 0x01)
                + spec_mov(Register::Rsi, 0x402000) + spec_mov(Register::Rdx, 0x0C));
        }
        let i4 = Instruction::syscall();
        let _ = buf.write(i4.as_bytes().as_slice());
        proof {
            assert(buf@.take(30) =~= spec_mov(Register::Rax, 0x01) + spec_mov(Register::Rdi, 0x01)
                + spec_mov(Register::Rsi, 0x402000) + spec_mov(Register::Rdx, 0x0C)
                + spec_syscall());
        }
        let i5 = Instruction::mov(Register::Rax, 0x3C);
        let _ = buf.write(i5.as_bytes().as_slice());
        proof {
            assert(buf@.take(37) =~= spec_mov(Register::Rax, 0x01) + spec_mov(Register::Rdi, 0x01)
                + spec_mov(Register::Rsi, 0x402000) + spec_mov(Register::Rdx, 0x0C)
                + spec_syscall() + spec_mov(Register::Rax, 0x3C));
        }
        let i6 = match Instruction::xor(Register::Rdi, Register::Rdi) {
            Ok(i) => i,
            Err(_) => Instruction::new(),
        };
        let _ = buf.write(i6.as_bytes().as_slice());
        proof {
            assert(buf@.take(40) =~= spec_mov(Register::Rax, 0x01) + spec_mov(Register::Rdi, 0x01)
                + spec_mov(Register::Rsi, 0x402000) + spec_mov(Register::Rdx, 0x0C)
                + spec_syscall() + spec_mov(Register::Rax, 0x3C) + spec_xor_self(Register::Rdi));
        }
        let i7 = Instruction::syscall();
        let _ = buf.write(i7.as_bytes().as_slice());
        proof {
            assert(buf@.take(42) =~= spec_code());
            assert(buf@ =~= buf@.take(42));
        }
        let code = buf.into_bytes();

        // The string table and each name's starting offset in it.
        let mut names: Vec<Vec<u8>> = Vec::new();
        names.push(text_name());
        names.push(rodata_name());
        names.push(shstrtab_name());
        names.push(Vec::new());
        proof {
            assert(spec_name_seqs(names@) =~= spec_names());
            lemma_names_facts();
        }
        let strings_table = string_table_bytes(&names);
        let offsets = string_table_offsets(&names);

        let ph_base = ProgramHeader::new();
        let mut program_headers: Vec<ProgramHeader> = Vec::new();
        program_headers.push(
            ProgramHeader {
                flags: 0x4,
                offset: 0,
                memory_size: 0x1E8,
                file_size: 0x1E8,
                virtual_addr: 0x400000,
                physical_addr: 0x400000,
                align: 0x1000,
                ..ph_base
            },
        );
        program_headers.push(
            ProgramHeader {
                flags: 0x5,
                offset: CODE_OFFSET,
                memory_size: 42,
                file_size: 42,
                virtual_addr: 0x401000,
                physical_addr: 0x401000,
                align: 0x1000,
                ..ph_base
            },
        );
        program_headers.push(
            ProgramHeader {
                flags: 0x4,
                offset: READ_ONLY_DATA_OFFSET,
                memory_size: 12,
                file_size: 12,
                virtual_addr: 0x402000,
                physical_addr: 0x402000,
                align: 0x1000,
                ..ph_base
            },
        );
        proof {
            assert(program_headers@ =~= spec_program_headers());
        }

        let sh_base = SectionHeader::new();
        let mut section_headers: Vec<SectionHeader> = Vec::new();
        section_headers.push(
            SectionHeader { kind: Kind::Null, name: offsets[3] as u32, ..sh_base },
        );
        section_headers.push(
            SectionHeader {
                kind: Kind::ProgramData,
                offset: CODE_OFFSET,
                size: 42,
                name: offsets[0] as u32,
                flags: 0x6,
                addr: 0x401000,
                addr_align: 1,
                ..sh_base
            },
        );
        section_headers.push(
            SectionHeader {
                kind: Kind::ProgramData,
                offset: READ_ONLY_DATA_OFFSET,
                size: 12,
                name: offsets[1] as u32,
                flags: 0x2,
                addr: 0x402000,
                addr_align: 1,
                ..sh_base
            },
        );
        section_headers.push(
            SectionHeader {
                kind: Kind::StringTable,
                offset: STRINGS_TABLE_OFFSET,
                size: 25,
                name: offsets[2] as u32,
                addr_align: 1,
                ..sh_base
            },
        );
        proof {
            assert(section_headers@ =~= spec_section_headers());
        }

        let header_base = ElfHeader::new();
        let header = ElfHeader {
            entry_address: 0x401000,
            program_table: PROGRAM_HEADERS_OFFSET,
            program_table_len: 3,
            section_table: SECTION_HEADERS_OFFSET,
            section_table_len: 4,
            section_table_index: 3,
            ..header_base
        };

        Elf { header, program_headers, section_headers, code, read_only_data, strings_table }
    }

    /// Serialize the image: each region's bytes in the fixed order. No
    /// field is recomputed; the result is exactly the assembled regions.
    pub fn as_bytes(&self) -> (r: Vec<u8>)
        requires
            self.wf(),
        ensures
            r@ == self.spec_bytes(),
    {
        let mut r = self.header.as_bytes();
        let mut p0 = self.program_headers[0].as_bytes();
        r.append(&mut p0);
        let mut p1 = self.program_headers[1].as_bytes();
        r.append(&mut p1);
        let mut p2 = self.program_headers[2].as_bytes();
        r.append(&mut p2);
        let mut s0 = self.section_headers[0].as_bytes();
        r.append(&mut s0);
        let mut s1 = self.section_headers[1].as_bytes();
        r.append(&mut s1);
        let mut s2 = self.section_headers[2].as_bytes();
        r.append(&mut s2);
        let mut s3 = self.section_headers[3].as_bytes();
        r.append(&mut s3);
        r.extend_from_slice(self.code.as_slice());
        r.extend_from_slice(self.read_only_data.as_slice());
        r.extend_from_slice(self.strings_table.as_slice());
        proof {
            assert(r@ =~= self.spec_bytes());
        }
        r
    }
}

/// The string-table facts the assembler relies on: each name's starting
/// offset, and the table's total length.
pub proof fn lemma_names_facts()
    ensures
        spec_offset(spec_names(), 0) == 0,
        spec_offset(spec_names(), 1) == 6,
        spec_offset(spec_names(), 2) == 14,
        spec_offset(spec_names(), 3) == 24,
        spec_table(spec_names()).len() == 25,
{
    let n = spec_names();
    assert(n.take(0) =~= Seq::<Seq<u8>>::empty());
    assert(n.take(1) =~= n.take(0).push(spec_text_name()));
    assert(n.take(2) =~= n.take(1).push(spec_rodata_name()));
    assert(n.take(3) =~= n.take(2).push(spec_shstrtab_name()));
    assert(n.take(4) =~= n.take(3).push(Seq::<u8>::empty()));
    assert(n.take(4) =~= n);
    assert(spec_table(n.take(0)) == Seq::<u8>::empty());
    lemma_table_push(n.take(0), spec_text_name());
    lemma_table_push(n.take(1), spec_rodata_name());
    lemma_table_push(n.take(2), spec_shstrtab_name());
    lemma_table_push(n.take(3), Seq::<u8>::empty());
}

/// The image is exactly 567 bytes, for every build.
pub proof fn lemma_image_size()
    ensures
        spec_image_bytes().len() == IMAGE_SIZE,
{
    lemma_names_facts();
    assert(spec_image_header().spec_bytes().len() == 64);
    assert(spec_program_headers()[0].spec_bytes().len() == 56);
    assert(spec_program_headers()[1].spec_bytes().len() == 56);
    assert(spec_program_headers()[2].spec_bytes().len() == 56);
    assert(spec_section_headers()[0].spec_bytes().len() == 64);
    assert(spec_section_headers()[1].spec_bytes().len() == 64);
    assert(spec_section_headers()[2].spec_bytes().len() == 64);
    assert(spec_section_headers()[3].spec_bytes().len() == 64);
    assert(spec_code().len() == 42);
    assert(spec_message().len() == 12);
}

/// Every offset recorded in the image equals the actual byte distance from
/// the start of the image to the region it names.
#[verifier::rlimit(100)]
pub proof fn lemma_region_layout(e: Elf)
    requires
        e.wf(),
    ensures
        e.spec_bytes().len() == IMAGE_SIZE,
        e.spec_bytes().subrange(
            PROGRAM_HEADERS_OFFSET as int,
            SECTION_HEADERS_OFFSET as int,
        ) == e.program_headers@[0].spec_bytes() + e.program_headers@[1].spec_bytes()
            + e.program_headers@[2].spec_bytes(),
        e.spec_bytes().subrange(SECTION_HEADERS_OFFSET as int, CODE_OFFSET as int)
            == e.section_headers@[0].spec_bytes() + e.section_headers@[1].spec_bytes()
            + e.section_headers@[2].spec_bytes() + e.section_headers@[3].spec_bytes(),
        e.spec_bytes().subrange(CODE_OFFSET as int, READ_ONLY_DATA_OFFSET as int) == e.code@,
        e.spec_bytes().subrange(READ_ONLY_DATA_OFFSET as int, STRINGS_TABLE_OFFSET as int)
            == e.read_only_data@,
        e.spec_bytes().subrange(STRINGS_TABLE_OFFSET as int, IMAGE_SIZE as int)
            == e.strings_table@,
{
    let b1 = e.header.spec_bytes();
    let b2 = b1 + e.program_headers@[0].spec_bytes();
    let b3 = b2 + e.program_headers@[1].spec_bytes();
    let b4 = b3 + e.program_headers@[2].spec_bytes();
    let b5 = b4 + e.section_headers@[0].spec_bytes();
    let b6 = b5 + e.section_headers@[1].spec_bytes();
    let b7 = b6 + e.section_headers@[2].spec_bytes();
    let b8 = b7 + e.section_headers@[3].spec_bytes();
    let b9 = b8 + e.code@;
    let b10 = b9 + e.read_only_data@;
    let b11 = b10 + e.strings_table@;
    assert(e.spec_bytes() == b11);
    assert(b1.len() == 64);
    assert(b2.len() == 120);
    assert(b3.len() == 176);
    assert(b4.len() == 232);
    assert(b5.len() == 296);
    assert(b6.len() == 360);
    assert(b7.len() == 424);
    assert(b8.len() == 488);
    assert(b9.len() == 530);
    assert(b10.len() == 542);
    assert(b11.len() == 567);
    assert(b11.subrange(542, 567) =~= e.strings_table@);
    assert(b11.subrange(530, 542) =~= e.read_only_data@);
    assert(b11.subrange(488, 530) =~= e.code@);
    assert(b11.subrange(232, 488) =~= e.section_headers@[0].spec_bytes()
        + e.section_headers@[1].spec_bytes() + e.section_headers@[2].spec_bytes()
        + e.section_headers@[3].spec_bytes());
    assert(b11.subrange(64, 232) =~= e.program_headers@[0].spec_bytes()
        + e.program_headers@[1].spec_bytes() + e.program_headers@[2].spec_bytes());
}

/// Splitting the image's string table on its zero bytes gives back exactly
/// the four section names, in order.
pub proof fn lemma_section_names_round_trip()
    ensures
        spec_split_nulls(spec_table(spec_names())) == spec_names(),
{
    assert forall|i: int| 0 <= i < spec_names().len() implies !(
    #[trigger] spec_names()[i]).contains(0u8) by {
        if spec_names()[i].contains(0u8) {
            let j = choose|j: int|
                0 <= j < spec_names()[i].len() && spec_names()[i][j] == 0u8;
            assert(spec_names()[i][j] != 0u8);
        }
    }
    lemma_split_round_trip(spec_names());
}

/// The message bytes, `hello world~`.
fn message() -> (r: Vec<u8>)
    ensures
        r@ == spec_message(),
{
    let mut r: Vec<u8> = Vec::new();
    r.push(0x68u8);
    r.push(0x65u8);
    r.push(0x6Cu8);
    r.push(0x6Cu8);
    r.push(0x6Fu8);
    r.push(0x20u8);
    r.push(0x77u8);
    r.push(0x6Fu8);
    r.push(0x72u8);
    r.push(0x6Cu8);
    r.push(0x64u8);
    r.push(0x7Eu8);
    proof {
        assert(r@ =~= spec_message());
    }
    r
}

/// The bytes of `.text`.
fn text_name() -> (r: Vec<u8>)
    ensures
        r@ == spec_text_name(),
{
    let mut r: Vec<u8> = Vec::new();
    r.push(0x2Eu8);
    r.push(0x74u8);
    r.push(0x65u8);
    r.push(0x78u8);
    r.push(0x74u8);
    proof {
        assert(r@ =~= spec_text_name());
    }
    r
}

/// The bytes of `.rodata`.
fn rodata_name() -> (r: Vec<u8>)
    ensures
        r@ == spec_rodata_name(),
{
    let mut r: Vec<u8> = Vec::new();
    r.push(0x2Eu8);
    r.push(0x72u8);
    r.push(0x6Fu8);
    r.push(0x64u8);
    r.push(0x61u8);
    r.push(0x74u8);
    r.push(0x61u8);
    proof {
        assert(r@ =~= spec_rodata_name());
    }
    r
}

/// The bytes of `.shshrtab`, the string-table section's recorded name.
fn shstrtab_name() -> (r: Vec<u8>)
    ensures
        r@ == spec_shstrtab_name(),
{
    let mut r: Vec<u8> = Vec::new();
    r.push(0x2Eu8);
    r.push(0x73u8);
    r.push(0x68u8);
    r.push(0x73u8);
    r.push(0x68u8);
    r.push(0x72u8);
    r.push(0x74u8);
    r.push(0x61u8);
    r.push(0x62u8);
    proof {
        assert(r@ =~= spec_shstrtab_name());
    }
    r
}

} // verus!
