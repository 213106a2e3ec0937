use f1_telemetry::cursor::ByteCursor;
use f1_telemetry::error::DecodeError;
use f1_telemetry::nineteen;
use f1_telemetry::packet::decode_packet;
use f1_telemetry::packet::event::Event;
use f1_telemetry::packet::header::ApiSpec;
use f1_telemetry::packet::header::GameVersion;
use f1_telemetry::packet::header::Header;
use f1_telemetry::packet::header::PacketType;
use f1_telemetry::packet::Packet;

const SESSION_UID: u64 = 0xDEAD_BEEF_CAFE_F00D;
const SESSION_TIME: f32 = 88.5;
const FRAME_IDENTIFIER: u32 = 4242;
const PLAYER_CAR_INDEX: u8 = 19;

fn header_bytes(packet_id: u8) -> Vec<u8> {
    let mut bytes = Vec::new();
    bytes.extend_from_slice(&2019u16.to_le_bytes());
    bytes.push(1); // game major version
    bytes.push(23); // game minor version
    bytes.push(1); // packet version
    bytes.push(packet_id);
    bytes.extend_from_slice(&SESSION_UID.to_le_bytes());
    bytes.extend_from_slice(&SESSION_TIME.to_bits().to_le_bytes());
    bytes.extend_from_slice(&FRAME_IDENTIFIER.to_le_bytes());
    bytes.push(PLAYER_CAR_INDEX);
    bytes
}

fn assert_header(header: Header, packet_type: PacketType) {
    assert_eq!(ApiSpec::Nineteen, header.api_spec());
    assert_eq!(Some(GameVersion::new(1, 23)), header.game_version());
    assert_eq!(packet_type, header.packet_type());
    assert_eq!(SESSION_UID, header.session_uid());
    assert_eq!(SESSION_TIME.to_bits(), header.session_time());
    assert_eq!(FRAME_IDENTIFIER, header.frame_identifier());
    assert_eq!(PLAYER_CAR_INDEX, header.player_car_index());
}

fn event_packet_bytes() -> Vec<u8> {
    let mut bytes = header_bytes(3);
    bytes.extend_from_slice(b"FTLP");
    bytes.push(7); // vehicle index
    bytes.extend_from_slice(&83.225f32.to_bits().to_le_bytes());
    bytes
}

fn lap_packet_bytes() -> Vec<u8> {
    let mut bytes = header_bytes(2);
    for car in 0..20u32 {
        for field in 0..8u32 {
            bytes.extend_from_slice(&(1000 * car + field).to_le_bytes());
        }
        let car = car as u8;
        bytes.push(car + 1); // car position
        bytes.push(12); // current lap number
        bytes.push(car % 2); // pit status
        bytes.push(car % 3); // sector
        bytes.push(0); // current lap invalid
        bytes.push(car % 5); // penalties
        bytes.push(20 - car); // grid position
        bytes.push(1); // driver status
        bytes.push(2); // result status
    }
    bytes
}

fn participants_packet_bytes() -> Vec<u8> {
    let mut bytes = header_bytes(4);
    bytes.push(20); // number of active cars
    for car in 0..20u8 {
        bytes.push(car % 2); // ai controlled
        bytes.push(car + 30); // driver id
        bytes.push(car % 10); // team id
        bytes.push(car + 2); // race number
        bytes.push(13); // nationality
        let mut name = format!("DRIVER {}", car).into_bytes();
        name.resize(48, 0);
        bytes.extend_from_slice(&name);
        bytes.push(1); // telemetry setting
    }
    bytes
}

#[test]
fn decode_event_packet_fields() {
    let mut cursor = ByteCursor::new(event_packet_bytes());

    let packet = decode_packet(&mut cursor).unwrap();
    match packet {
        Packet::Event(event_packet) => {
            assert_header(event_packet.header(), PacketType::Event);
            assert_eq!(
                Event::FastestLap { vehicle_index: 7, lap_time: 83.225f32.to_bits() },
                event_packet.event()
            );
        }
        _ => panic!("expected an event packet"),
    }
    assert_eq!(32, cursor.position());
    assert_eq!(0, cursor.remaining());
}

#[test]
fn decode_every_known_event_code() {
    let cases: [(&[u8; 4], Event); 9] = [
        (b"SSTA", Event::SessionStarted),
        (b"SEND", Event::SessionEnded),
        (b"FTLP", Event::FastestLap { vehicle_index: 3, lap_time: 0x0102_0304 }),
        (b"RTMT", Event::Retirement),
        (b"DRSE", Event::DrsEnabled),
        (b"DRSD", Event::DrsDisabled),
        (b"TMPT", Event::TeamMateInPits),
        (b"CHQF", Event::ChequeredFlag),
        (b"RCWN", Event::RaceWinner),
    ];
    for (code, expected) in cases {
        let mut bytes = header_bytes(3);
        bytes.extend_from_slice(code);
        bytes.push(3); // vehicle index
        bytes.extend_from_slice(&0x0102_0304u32.to_le_bytes());
        let mut cursor = ByteCursor::new(bytes);

        let packet = decode_packet(&mut cursor).unwrap();
        match packet {
            Packet::Event(event_packet) => assert_eq!(expected, event_packet.event()),
            _ => panic!("expected an event packet"),
        }
    }
}

#[test]
fn unknown_event_code_is_malformed_payload() {
    let mut bytes = header_bytes(3);
    bytes.extend_from_slice(b"XXXX");
    bytes.push(0);
    bytes.extend_from_slice(&0u32.to_le_bytes());
    let mut cursor = ByteCursor::new(bytes);

    let result = decode_packet(&mut cursor);
    assert_eq!(
        Err(DecodeError::MalformedPayload { value: u32::from_le_bytes(*b"XXXX") as u64 }),
        result
    );
    assert_eq!(0, cursor.position());
}

#[test]
fn decode_lap_packet_fields() {
    let mut cursor = ByteCursor::new(lap_packet_bytes());

    let packet = decode_packet(&mut cursor).unwrap();
    match packet {
        Packet::Lap(lap_packet) => {
            assert_header(lap_packet.header(), PacketType::Lap);
            let laps = lap_packet.laps();
            assert_eq!(20, laps.len());
            for (index, lap) in laps.iter().enumerate() {
                let car = index as u32;
                assert_eq!(1000 * car, lap.last_lap_time);
                assert_eq!(1000 * car + 1, lap.current_lap_time);
                assert_eq!(1000 * car + 2, lap.best_lap_time);
                assert_eq!(1000 * car + 3, lap.sector_one_time);
                assert_eq!(1000 * car + 4, lap.sector_two_time);
                assert_eq!(1000 * car + 5, lap.lap_distance);
                assert_eq!(1000 * car + 6, lap.total_distance);
                assert_eq!(1000 * car + 7, lap.safety_car_delta);
                let car = index as u8;
                assert_eq!(car + 1, lap.car_position);
                assert_eq!(12, lap.current_lap_number);
                assert_eq!(car % 2, lap.pit_status);
                assert_eq!(car % 3, lap.sector);
                assert_eq!(0, lap.current_lap_invalid);
                assert_eq!(car % 5, lap.penalties);
                assert_eq!(20 - car, lap.grid_position);
                assert_eq!(1, lap.driver_status);
                assert_eq!(2, lap.result_status);
            }
        }
        _ => panic!("expected a lap packet"),
    }
    assert_eq!(843, cursor.position());
}

#[test]
fn decode_participants_packet_fields() {
    let mut cursor = ByteCursor::new(participants_packet_bytes());

    let packet = decode_packet(&mut cursor).unwrap();
    match packet {
        Packet::Nineteen(nineteen::Packet::Participants(participants_packet)) => {
            assert_header(participants_packet.header(), PacketType::Participants);
            assert_eq!(20, participants_packet.num_active_cars());
            let participants = participants_packet.participants();
            assert_eq!(20, participants.len());
            for (index, participant) in participants.iter().enumerate() {
                let car = index as u8;
                assert_eq!(car % 2, participant.ai_controlled);
                assert_eq!(car + 30, participant.driver_id);
                assert_eq!(car % 10, participant.team_id);
                assert_eq!(car + 2, participant.race_number);
                assert_eq!(13, participant.nationality);
                let mut name = format!("DRIVER {}", car).into_bytes();
                name.resize(48, 0);
                assert_eq!(name, participant.name);
                assert_eq!(1, participant.telemetry_setting);
            }
        }
        _ => panic!("expected a participants packet"),
    }
    assert_eq!(1104, cursor.position());
}

#[test]
fn truncated_event_packet_reports_documented_size() {
    let mut bytes = event_packet_bytes();
    bytes.pop();
    let truncated_len = bytes.len();
    let mut cursor = ByteCursor::new(bytes);

    let result = decode_packet(&mut cursor);
    assert_eq!(
        Err(DecodeError::InsufficientData { expected: 32, actual: truncated_len }),
        result
    );
    assert_eq!(0, cursor.position());
}

#[test]
fn truncated_lap_packet_reports_documented_size() {
    let mut bytes = lap_packet_bytes();
    bytes.pop();
    let truncated_len = bytes.len();
    let mut cursor = ByteCursor::new(bytes);

    let result = decode_packet(&mut cursor);
    assert_eq!(
        Err(DecodeError::InsufficientData { expected: 843, actual: truncated_len }),
        result
    );
    assert_eq!(0, cursor.position());
}

#[test]
fn truncated_header_reports_header_size() {
    let mut bytes = header_bytes(3);
    bytes.truncate(10);
    let mut cursor = ByteCursor::new(bytes);

    let result = decode_packet(&mut cursor);
    assert_eq!(
        Err(DecodeError::InsufficientData { expected: 23, actual: 10 }),
        result
    );
    assert_eq!(0, cursor.position());
}

#[test]
fn unknown_packet_format_is_malformed_header() {
    let mut bytes = header_bytes(3);
    bytes[0] = 0xE2; // 2018 in little endian
    let mut cursor = ByteCursor::new(bytes);

    let result = decode_packet(&mut cursor);
    assert_eq!(Err(DecodeError::MalformedHeader { value: 2018 }), result);
    assert_eq!(0, cursor.position());
}

#[test]
fn unsupported_packet_names_spec_and_kind() {
    let mut bytes = header_bytes(0); // motion packets have no registered decoder
    bytes.resize(2000, 0);
    let mut cursor = ByteCursor::new(bytes);

    let result = decode_packet(&mut cursor);
    assert_eq!(
        Err(DecodeError::UnsupportedPacket {
            api_spec: ApiSpec::Nineteen,
            packet_type: PacketType::Motion,
        }),
        result
    );
    assert_eq!(0, cursor.position());
}

#[test]
fn every_discriminant_value_is_classified() {
    for id in 0..=255u8 {
        let mut bytes = header_bytes(id);
        bytes.resize(2000, 0);
        let mut cursor = ByteCursor::new(bytes);

        let result = decode_packet(&mut cursor);
        match id {
            2 | 4 => assert!(result.is_ok(), "packet id {} should decode", id),
            3 => assert_eq!(
                Err(DecodeError::MalformedPayload { value: 0 }),
                result,
                "packet id {} carries a zeroed event code",
                id
            ),
            0 | 1 | 5 | 6 | 7 => {
                let packet_type = match id {
                    0 => PacketType::Motion,
                    1 => PacketType::Session,
                    5 => PacketType::Setup,
                    6 => PacketType::Telemetry,
                    _ => PacketType::Status,
                };
                assert_eq!(
                    Err(DecodeError::UnsupportedPacket {
                        api_spec: ApiSpec::Nineteen,
                        packet_type,
                    }),
                    result,
                    "packet id {} is known but unsupported",
                    id
                );
            }
            _ => assert_eq!(
                Err(DecodeError::MalformedHeader { value: id as u64 }),
                result,
                "packet id {} is outside the known set",
                id
            ),
        }
    }
}

#[test]
fn decoding_is_deterministic() {
    for bytes in [event_packet_bytes(), lap_packet_bytes(), participants_packet_bytes()] {
        let mut first_cursor = ByteCursor::new(bytes.clone());
        let mut second_cursor = ByteCursor::new(bytes);

        let first = decode_packet(&mut first_cursor);
        let second = decode_packet(&mut second_cursor);
        assert!(first.is_ok());
        assert_eq!(first, second);
    }
}

#[test]
fn consecutive_packets_decode_from_one_buffer() {
    let mut bytes = event_packet_bytes();
    bytes.extend_from_slice(&lap_packet_bytes());
    let mut cursor = ByteCursor::new(bytes);

    let first = decode_packet(&mut cursor).unwrap();
    assert!(matches!(first, Packet::Event(_)));
    assert_eq!(32, cursor.position());

    let second = decode_packet(&mut cursor).unwrap();
    assert!(matches!(second, Packet::Lap(_)));
    assert_eq!(0, cursor.remaining());
}
