use elfgen::string_table::{string_table_bytes, string_table_offsets};

fn section_names() -> Vec<Vec<u8>> {
    vec![b".text".to_vec(), b".rodata".to_vec(), b".shshrtab".to_vec(), Vec::new()]
}

#[test]
fn offsets_are_running_sums() {
    let offsets = string_table_offsets(&section_names());
    assert_eq!(offsets, vec![0, 6, 14, 24]);
}

#[test]
fn table_concatenates_terminated_names() {
    let table = string_table_bytes(&section_names());
    assert_eq!(table, b".text\0.rodata\0.shshrtab\0\0".to_vec());
    assert_eq!(table.len(), 25);
}

#[test]
fn empty_name_list_gives_empty_table() {
    let table = string_table_bytes(&Vec::new());
    assert!(table.is_empty());
    let offsets = string_table_offsets(&Vec::new());
    assert!(offsets.is_empty());
}

#[test]
fn table_splits_back_into_the_names() {
    let names = section_names();
    let table = string_table_bytes(&names);
    let mut split: Vec<Vec<u8>> = Vec::new();
    let mut current: Vec<u8> = Vec::new();
    for byte in table {
        if byte == 0 {
            split.push(current);
            current = Vec::new();
        } else {
            current.push(byte);
        }
    }
    assert!(current.is_empty());
    assert_eq!(split, names);
}
