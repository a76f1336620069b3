pub mod bytes;
pub mod elf;
pub mod elf_header;
pub mod fault;
pub mod instruction;
pub mod io;
pub mod program_header;
pub mod section_header;
pub mod string_table;
