use f1_telemetry::cursor::ByteCursor;
use f1_telemetry::error::DecodeError;
use f1_telemetry::packet::ensure_packet_size;

struct Packet {
    counter: u8,
}

const PACKET_SIZE: usize = 1;

fn decode_packet(cursor: &mut ByteCursor) -> Result<Packet, DecodeError> {
    ensure_packet_size(PACKET_SIZE, cursor)?;

    Ok(Packet { counter: cursor.read_u8()? })
}

#[test]
fn ensure_packet_size_correctly() {
    let mut cursor = ByteCursor::new(vec![0]);

    let packet = decode_packet(&mut cursor).unwrap();
    assert_eq!(0, packet.counter);
}

#[test]
fn ensure_packet_size_with_error() {
    let mut cursor = ByteCursor::new(Vec::new());

    let packet = decode_packet(&mut cursor);
    assert!(packet.is_err());
}

#[test]
fn empty_buffer_reports_expected_and_actual() {
    let mut cursor = ByteCursor::new(Vec::new());

    let result = decode_packet(&mut cursor);
    assert!(matches!(
        result,
        Err(DecodeError::InsufficientData { expected: 1, actual: 0 })
    ));
}

#[test]
fn read_after_failed_guard_reproduces_the_failure() {
    let mut cursor = ByteCursor::new(Vec::new());

    let guarded = ensure_packet_size(1, &mut cursor);
    assert_eq!(
        guarded,
        Err(DecodeError::InsufficientData { expected: 1, actual: 0 })
    );

    let read = cursor.read_u8();
    assert_eq!(
        read,
        Err(DecodeError::InsufficientData { expected: 1, actual: 0 })
    );
}

#[test]
fn guard_succeeds_without_consuming() {
    let mut cursor = ByteCursor::new(vec![1, 2, 3]);

    assert_eq!(Ok(()), ensure_packet_size(3, &mut cursor));
    assert_eq!(0, cursor.position());
    assert_eq!(3, cursor.remaining());
}

#[test]
fn failed_guard_leaves_position_unchanged() {
    let mut cursor = ByteCursor::new(vec![1, 2, 3]);
    assert_eq!(Ok(1), cursor.read_u8());

    let result = ensure_packet_size(5, &mut cursor);
    assert_eq!(
        result,
        Err(DecodeError::InsufficientData { expected: 5, actual: 2 })
    );
    assert_eq!(1, cursor.position());
}
