use elfgen::elf::Elf;
use elfgen::section_header::Kind;

#[test]
fn image_is_567_bytes() {
    let elf = Elf::new();
    assert_eq!(elf.as_bytes().len(), 567);
}

#[test]
fn builds_are_identical() {
    let first = Elf::new().as_bytes();
    let second = Elf::new().as_bytes();
    assert_eq!(first, second);
}

#[test]
fn header_table_fields() {
    let elf = Elf::new();
    assert_eq!(elf.header.program_table, 64);
    assert_eq!(elf.header.section_table, 232);
    assert_eq!(elf.header.program_table_len, 3);
    assert_eq!(elf.header.section_table_len, 4);
    assert_eq!(elf.header.section_table_index, 3);
    assert_eq!(elf.header.size, 64);
    assert_eq!(elf.header.program_table_size, 56);
    assert_eq!(elf.header.section_table_size, 64);
}

#[test]
fn entry_address_matches_code_segment() {
    let elf = Elf::new();
    assert_eq!(elf.program_headers[1].virtual_addr, 0x401000);
    assert_eq!(elf.header.entry_address, elf.program_headers[1].virtual_addr);
}

#[test]
fn identification_bytes() {
    let bytes = Elf::new().as_bytes();
    assert_eq!(&bytes[0..16], &[0x7F, 0x45, 0x4C, 0x46, 2, 1, 1, 0, 0, 0, 0, 0, 0, 0, 0, 0]);
    // Executable kind, x86-64 architecture, version one, little-endian.
    assert_eq!(&bytes[16..24], &[0x02, 0x00, 0x3E, 0x00, 0x01, 0x00, 0x00, 0x00]);
    // Entry address 0x401000.
    assert_eq!(&bytes[24..32], &[0x00, 0x10, 0x40, 0x00, 0x00, 0x00, 0x00, 0x00]);
}

#[test]
fn code_region_bytes() {
    let bytes = Elf::new().as_bytes();
    let expected: [u8; 42] = [
        0x48, 0xC7, 0xC0, 0x01, 0x00, 0x00, 0x00, // mov rax, 1
        0x48, 0xC7, 0xC7, 0x01, 0x00, 0x00, 0x00, // mov rdi, 1
        0x48, 0xC7, 0xC6, 0x00, 0x20, 0x40, 0x00, // mov rsi, 0x402000
        0x48, 0xC7, 0xC2, 0x0C, 0x00, 0x00, 0x00, // mov rdx, 12
        0x0F, 0x05, // syscall
        0x48, 0xC7, 0xC0, 0x3C, 0x00, 0x00, 0x00, // mov rax, 0x3C
        0x48, 0x31, 0xFF, // xor rdi, rdi
        0x0F, 0x05, // syscall
    ];
    assert_eq!(&bytes[488..530], &expected);
}

#[test]
fn read_only_data_region() {
    let bytes = Elf::new().as_bytes();
    assert_eq!(&bytes[530..542], b"hello world~");
}

#[test]
fn string_table_region() {
    let bytes = Elf::new().as_bytes();
    assert_eq!(&bytes[542..567], b".text\0.rodata\0.shshrtab\0\0");
}

#[test]
fn string_table_reconstructs_names() {
    let elf = Elf::new();
    let mut names: Vec<Vec<u8>> = Vec::new();
    let mut current: Vec<u8> = Vec::new();
    for &byte in &elf.strings_table {
        if byte == 0 {
            names.push(current);
            current = Vec::new();
        } else {
            current.push(byte);
        }
    }
    assert!(current.is_empty());
    let expected: Vec<Vec<u8>> =
        vec![b".text".to_vec(), b".rodata".to_vec(), b".shshrtab".to_vec(), Vec::new()];
    assert_eq!(names, expected);
}

#[test]
fn section_names_index_into_the_table() {
    let elf = Elf::new();
    let expected: [&[u8]; 4] = [b"", b".text", b".rodata", b".shshrtab"];
    for (section, want) in elf.section_headers.iter().zip(expected.iter()) {
        let start = section.name as usize;
        let end = start
            + elf.strings_table[start..].iter().position(|&b| b == 0).unwrap();
        assert_eq!(&elf.strings_table[start..end], *want);
    }
}

#[test]
fn program_header_fields() {
    let elf = Elf::new();
    let ph = &elf.program_headers;
    assert_eq!(ph.len(), 3);
    for entry in ph.iter() {
        assert_eq!(entry.kind, 1);
        assert_eq!(entry.align, 0x1000);
        assert_eq!(entry.file_size, entry.memory_size);
        assert_eq!(entry.virtual_addr, entry.physical_addr);
    }
    assert_eq!((ph[0].flags, ph[0].offset, ph[0].file_size, ph[0].virtual_addr), (4, 0, 0x1E8, 0x400000));
    assert_eq!((ph[1].flags, ph[1].offset, ph[1].file_size, ph[1].virtual_addr), (5, 488, 42, 0x401000));
    assert_eq!((ph[2].flags, ph[2].offset, ph[2].file_size, ph[2].virtual_addr), (4, 530, 12, 0x402000));
}

#[test]
fn section_header_fields() {
    let elf = Elf::new();
    let sh = &elf.section_headers;
    assert_eq!(sh.len(), 4);
    assert!(matches!(sh[0].kind, Kind::Null));
    assert!(matches!(sh[1].kind, Kind::ProgramData));
    assert!(matches!(sh[2].kind, Kind::ProgramData));
    assert!(matches!(sh[3].kind, Kind::StringTable));
    assert_eq!((sh[1].offset, sh[1].size, sh[1].addr, sh[1].flags), (488, 42, 0x401000, 6));
    assert_eq!((sh[2].offset, sh[2].size, sh[2].addr, sh[2].flags), (530, 12, 0x402000, 2));
    assert_eq!((sh[3].offset, sh[3].size), (542, 25));
    assert_eq!([sh[0].name, sh[1].name, sh[2].name, sh[3].name], [24, 0, 6, 14]);
}

#[test]
fn serialized_record_sizes() {
    let elf = Elf::new();
    assert_eq!(elf.header.as_bytes().len(), 64);
    assert_eq!(elf.program_headers[0].as_bytes().len(), 56);
    assert_eq!(elf.section_headers[0].as_bytes().len(), 64);
}
