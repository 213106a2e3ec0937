use f1_telemetry::cursor::ByteCursor;
use f1_telemetry::error::DecodeError;

#[test]
fn read_u8_consumes_one_byte() {
    let mut cursor = ByteCursor::new(vec![0xAB, 0xCD]);

    assert_eq!(Ok(0xAB), cursor.read_u8());
    assert_eq!(1, cursor.position());
    assert_eq!(Ok(0xCD), cursor.read_u8());
    assert_eq!(0, cursor.remaining());
}

#[test]
fn read_u16_le_combines_two_bytes() {
    let mut cursor = ByteCursor::new(vec![0xE3, 0x07]);

    assert_eq!(Ok(2019), cursor.read_u16_le());
    assert_eq!(0, cursor.remaining());
}

#[test]
fn read_u32_le_combines_four_bytes() {
    let mut cursor = ByteCursor::new(vec![0x78, 0x56, 0x34, 0x12]);

    assert_eq!(Ok(0x1234_5678), cursor.read_u32_le());
}

#[test]
fn read_u64_le_combines_eight_bytes() {
    let mut cursor = ByteCursor::new(vec![0xEF, 0xCD, 0xAB, 0x89, 0x67, 0x45, 0x23, 0x01]);

    assert_eq!(Ok(0x0123_4567_89AB_CDEF), cursor.read_u64_le());
}

#[test]
fn peek_u16_le_does_not_consume() {
    let cursor = ByteCursor::new(vec![0xE3, 0x07, 0xFF]);

    assert_eq!(Ok(2019), cursor.peek_u16_le());
    assert_eq!(0, cursor.position());
    assert_eq!(3, cursor.remaining());
}

#[test]
fn read_bytes_returns_the_requested_range() {
    let mut cursor = ByteCursor::new(vec![1, 2, 3, 4, 5]);

    assert_eq!(Ok(1), cursor.read_u8());
    assert_eq!(Ok(vec![2, 3, 4]), cursor.read_bytes(3));
    assert_eq!(4, cursor.position());
    assert_eq!(Ok(5), cursor.read_u8());
}

#[test]
fn reads_past_the_end_fail_without_consuming() {
    let mut cursor = ByteCursor::new(vec![1, 2, 3]);

    assert_eq!(Ok(1), cursor.read_u8());
    assert_eq!(
        Err(DecodeError::InsufficientData { expected: 4, actual: 2 }),
        cursor.read_u32_le()
    );
    assert_eq!(
        Err(DecodeError::InsufficientData { expected: 8, actual: 2 }),
        cursor.read_u64_le()
    );
    assert_eq!(
        Err(DecodeError::InsufficientData { expected: 3, actual: 2 }),
        cursor.read_bytes(3)
    );
    assert_eq!(1, cursor.position());
    assert_eq!(Ok(0x0302), cursor.read_u16_le());
}
