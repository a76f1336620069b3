use elfgen::fault::Fault;
use elfgen::io::buf::Buf;

#[test]
fn write_within_capacity_places_bytes() {
    let mut buf = Buf::new(vec![0u8; 4]);
    assert_eq!(buf.remaining(), 4);
    assert!(buf.write(&[1, 2]).is_ok());
    assert_eq!(buf.remaining(), 2);
    assert!(buf.write(&[3]).is_ok());
    assert_eq!(buf.remaining(), 1);
    assert_eq!(buf.into_bytes(), vec![1, 2, 3, 0]);
}

#[test]
fn write_past_capacity_fails_and_changes_nothing() {
    let mut buf = Buf::new(vec![0u8; 3]);
    let r = buf.write(&[1, 2, 3, 4]);
    assert!(matches!(r, Err(Fault::CapacityExceeded)));
    assert_eq!(buf.remaining(), 3);
    assert_eq!(buf.into_bytes(), vec![0, 0, 0]);
}

#[test]
fn write_into_exhausted_cursor_fails() {
    let mut buf = Buf::new(vec![0u8; 2]);
    assert!(buf.write(&[7, 8]).is_ok());
    assert_eq!(buf.remaining(), 0);
    let r = buf.write(&[9]);
    assert!(matches!(r, Err(Fault::CapacityExceeded)));
    assert_eq!(buf.into_bytes(), vec![7, 8]);
}

#[test]
fn empty_write_always_succeeds() {
    let mut buf = Buf::new(Vec::new());
    assert!(buf.write(&[]).is_ok());
    assert_eq!(buf.remaining(), 0);
}

#[test]
fn advance_moves_the_position() {
    let mut buf = Buf::new(vec![0u8; 5]);
    assert!(buf.advance(3).is_ok());
    assert_eq!(buf.remaining(), 2);
}

#[test]
fn advance_past_capacity_fails() {
    let mut buf = Buf::new(vec![0u8; 5]);
    let r = buf.advance(6);
    assert!(matches!(r, Err(Fault::CapacityExceeded)));
    assert_eq!(buf.remaining(), 5);
}
