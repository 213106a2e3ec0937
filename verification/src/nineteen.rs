//! Decoding of packets that follow the 2019 API specification

use crate::cursor::ByteCursor;
use crate::cursor::le16_at;
use crate::cursor::le32_at;
use crate::cursor::le64_at;
use crate::error::DecodeError;
use crate::packet::ensure_packet_size;
use crate::packet::header::ApiSpec;
use crate::packet::header::GameVersion;
use crate::packet::header::Header;
use crate::packet::header::PacketType;
use crate::packet::event::Event;
use crate::packet::event::EventPacket;
use crate::packet::lap::LapData;
use crate::packet::lap::LapPacket;
use crate::packet::lap::LapPacketView;
use crate::packet::result_view;
use vstd::prelude::*;

verus! {

/// The value of the packet format field that announces the 2019
/// specification.
pub const PACKET_FORMAT: u16 = 2019;

/// The width of the packet format field in bytes.
pub const PACKET_FORMAT_SIZE: usize = 2;

/// The size of the packet header in bytes.
pub const HEADER_SIZE: usize = 23;

/// The size of a complete event packet in bytes.
pub const EVENT_PACKET_SIZE: usize = 32;

/// The size of a complete lap data packet in bytes.
pub const LAP_PACKET_SIZE: usize = 843;

/// The size of a complete participants packet in bytes.
pub const PARTICIPANTS_PACKET_SIZE: usize = 1104;

/// The number of entries in the per-vehicle arrays of the 2019
/// specification.
pub const NUMBER_OF_CARS: usize = 20;

/// The size of one car's lap data in bytes.
pub const LAP_DATA_SIZE: usize = 41;

/// The size of one participant entry in bytes.
pub const PARTICIPANT_SIZE: usize = 54;

/// The length of a participant's name field in bytes.
pub const PARTICIPANT_NAME_LENGTH: usize = 48;

/// A single entry in the participants packet, describing one driver.
#[derive(Debug, PartialEq, Eq, Clone)]
pub struct ParticipantData {
    /// Whether the vehicle is controlled by the game's AI.
    pub ai_controlled: u8,

    /// The identifier of the driver.
    pub driver_id: u8,

    /// The identifier of the team.
    pub team_id: u8,

    /// The race number of the car.
    pub race_number: u8,

    /// The nationality of the driver.
    pub nationality: u8,

    /// The name of the driver, as the raw bytes of the wire's
    /// null-terminated UTF-8 field.
    pub name: Vec<u8>,

    /// Whether the driver shares their telemetry.
    pub telemetry_setting: u8,
}

/// The state of a [`ParticipantData`] as specifications see it.
pub struct ParticipantDataView {
    pub ai_controlled: u8,
    pub driver_id: u8,
    pub team_id: u8,
    pub race_number: u8,
    pub nationality: u8,
    pub name: Seq<u8>,
    pub telemetry_setting: u8,
}

impl View for ParticipantData {
    type V = ParticipantDataView;

    open spec fn view(&self) -> ParticipantDataView {
        ParticipantDataView {
            ai_controlled: self.ai_controlled,
            driver_id: self.driver_id,
            team_id: self.team_id,
            race_number: self.race_number,
            nationality: self.nationality,
            name: self.name@,
            telemetry_setting: self.telemetry_setting,
        }
    }
}

/// The participants packet lists the drivers taking part in the session.
#[derive(Debug, PartialEq, Eq, Clone)]
pub struct ParticipantsPacket {
    /// The header prefixing the packet.
    pub header: Header,

    /// The number of active cars in the session.
    pub num_active_cars: u8,

    /// One entry per vehicle slot, active or not.
    pub participants: Vec<ParticipantData>,
}

/// The state of a [`ParticipantsPacket`] as specifications see it.
pub struct ParticipantsPacketView {
    pub header: Header,
    pub num_active_cars: u8,
    pub participants: Seq<ParticipantDataView>,
}

impl View for ParticipantsPacket {
    type V = ParticipantsPacketView;

    open spec fn view(&self) -> ParticipantsPacketView {
        ParticipantsPacketView {
            header: self.header,
            num_active_cars: self.num_active_cars,
            participants: self.participants@.map_values(|p: ParticipantData| p@),
        }
    }
}

impl ParticipantsPacket {
    /// Builds a participants packet from its fields.
    pub fn new(header: Header, num_active_cars: u8, participants: Vec<ParticipantData>) -> (r:
        ParticipantsPacket)
        ensures
            r.header == header,
            r.num_active_cars == num_active_cars,
            r.participants == participants,
    {
        ParticipantsPacket { header, num_active_cars, participants }
    }

    /// Returns the header prefixing the packet.
    pub fn header(&self) -> (r: Header)
        ensures
            r == self.header,
    {
        self.header
    }

    /// Returns the number of active cars in the session.
    pub fn num_active_cars(&self) -> (r: u8)
        ensures
            r == self.num_active_cars,
    {
        self.num_active_cars
    }

    /// Returns the participant entries, one per vehicle slot.
    pub fn participants(&self) -> (r: &Vec<ParticipantData>)
        ensures
            r == self.participants,
    {
        &self.participants
    }
}

/// Packets whose decoded form is specific to the 2019 specification.
///
/// Kinds with a representation shared across specifications (events, lap
/// data) decode into the types under `packet`; the kinds listed here keep a
/// specification-qualified representation.
#[derive(Debug, PartialEq, Eq, Clone)]
pub enum Packet {
    /// The list of drivers taking part in the session.
    Participants(ParticipantsPacket),
}

/// The state of a 2019-specific [`Packet`] as specifications see it.
pub enum NineteenPacketView {
    Participants(ParticipantsPacketView),
}

impl View for Packet {
    type V = NineteenPacketView;

    open spec fn view(&self) -> NineteenPacketView {
        match self {
            Packet::Participants(p) => NineteenPacketView::Participants(p@),
        }
    }
}

/// The packet kind announced by a value of the header's packet identifier
/// field, if the value is inside the known set of the 2019 specification.
pub open spec fn spec_packet_type(id: int) -> Option<PacketType> {
    if id == 0 {
        Some(PacketType::Motion)
    } else if id == 1 {
        Some(PacketType::Session)
    } else if id == 2 {
        Some(PacketType::Lap)
    } else if id == 3 {
        Some(PacketType::Event)
    } else if id == 4 {
        Some(PacketType::Participants)
    } else if id == 5 {
        Some(PacketType::Setup)
    } else if id == 6 {
        Some(PacketType::Telemetry)
    } else if id == 7 {
        Some(PacketType::Status)
    } else {
        None
    }
}

/// Whether this build registers a decoder for a packet kind of the 2019
/// specification.
pub open spec fn spec_registered(packet_type: PacketType) -> bool {
    ||| packet_type == PacketType::Event
    ||| packet_type == PacketType::Lap
    ||| packet_type == PacketType::Participants
}

/// The header encoded at byte `p` of `s`, assuming a complete header of the
/// 2019 specification with the given packet kind.
pub open spec fn spec_header(s: Seq<u8>, p: int, packet_type: PacketType) -> Header {
    Header {
        api_spec: ApiSpec::Nineteen,
        game_version: Some(GameVersion { major: s[p + 2], minor: s[p + 3] }),
        packet_type: packet_type,
        session_uid: le64_at(s, p + 6) as u64,
        session_time: le32_at(s, p + 14) as u32,
        frame_identifier: le32_at(s, p + 18) as u32,
        player_car_index: s[p + 22],
    }
}

/// The event announced by an event code and its detail fields, if the code
/// is one of the known four-letter codes of the 2019 specification.
pub open spec fn spec_event_code(
    c0: u8,
    c1: u8,
    c2: u8,
    c3: u8,
    vehicle_index: u8,
    lap_time: u32,
) -> Option<Event> {
    if c0 == 0x53 && c1 == 0x53 && c2 == 0x54 && c3 == 0x41 {  // "SSTA"
        Some(Event::SessionStarted)
    } else if c0 == 0x53 && c1 == 0x45 && c2 == 0x4E && c3 == 0x44 {  // "SEND"
        Some(Event::SessionEnded)
    } else if c0 == 0x46 && c1 == 0x54 && c2 == 0x4C && c3 == 0x50 {  // "FTLP"
        Some(Event::FastestLap { vehicle_index, lap_time })
    } else if c0 == 0x52 && c1 == 0x54 && c2 == 0x4D && c3 == 0x54 {  // "RTMT"
        Some(Event::Retirement)
    } else if c0 == 0x44 && c1 == 0x52 && c2 == 0x53 && c3 == 0x45 {  // "DRSE"
        Some(Event::DrsEnabled)
    } else if c0 == 0x44 && c1 == 0x52 && c2 == 0x53 && c3 == 0x44 {  // "DRSD"
        Some(Event::DrsDisabled)
    } else if c0 == 0x54 && c1 == 0x4D && c2 == 0x50 && c3 == 0x54 {  // "TMPT"
        Some(Event::TeamMateInPits)
    } else if c0 == 0x43 && c1 == 0x48 && c2 == 0x51 && c3 == 0x46 {  // "CHQF"
        Some(Event::ChequeredFlag)
    } else if c0 == 0x52 && c1 == 0x43 && c2 == 0x57 && c3 == 0x4E {  // "RCWN"
        Some(Event::RaceWinner)
    } else {
        None
    }
}

/// The event encoded in the payload starting at byte `q` of `s`, assuming a
/// complete event payload.
pub open spec fn spec_event(s: Seq<u8>, q: int) -> Option<Event> {
    spec_event_code(s[q], s[q + 1], s[q + 2], s[q + 3], s[q + 4], le32_at(s, q + 5) as u32)
}

/// The lap data of one car, encoded at byte `b` of `s`.
pub open spec fn spec_lap_data(s: Seq<u8>, b: int) -> LapData {
    LapData {
        last_lap_time: le32_at(s, b) as u32,
        current_lap_time: le32_at(s, b + 4) as u32,
        best_lap_time: le32_at(s, b + 8) as u32,
        sector_one_time: le32_at(s, b + 12) as u32,
        sector_two_time: le32_at(s, b + 16) as u32,
        lap_distance: le32_at(s, b + 20) as u32,
        total_distance: le32_at(s, b + 24) as u32,
        safety_car_delta: le32_at(s, b + 28) as u32,
        car_position: s[b + 32],
        current_lap_number: s[b + 33],
        pit_status: s[b + 34],
        sector: s[b + 35],
        current_lap_invalid: s[b + 36],
        penalties: s[b + 37],
        grid_position: s[b + 38],
        driver_status: s[b + 39],
        result_status: s[b + 40],
    }
}

/// One participant entry, encoded at byte `b` of `s`.
pub open spec fn spec_participant(s: Seq<u8>, b: int) -> ParticipantDataView {
    ParticipantDataView {
        ai_controlled: s[b],
        driver_id: s[b + 1],
        team_id: s[b + 2],
        race_number: s[b + 3],
        nationality: s[b + 4],
        name: s.subrange(b + 5, b + 5 + PARTICIPANT_NAME_LENGTH),
        telemetry_setting: s[b + 53],
    }
}

/// What decoding an event payload at byte `q` of `s` yields, under a header
/// `h`: the event packet, an insufficient-data error in whole-packet units,
/// or a malformed-payload error carrying an unknown event code.
pub open spec fn spec_decode_event(h: Header, s: Seq<u8>, q: int) -> Result<
    crate::packet::PacketView,
    DecodeError,
> {
    if s.len() - q < EVENT_PACKET_SIZE - HEADER_SIZE {
        Err(DecodeError::InsufficientData {
            expected: EVENT_PACKET_SIZE,
            actual: (HEADER_SIZE + s.len() - q) as usize,
        })
    } else {
        match spec_event(s, q) {
            Some(event) => Ok(crate::packet::PacketView::Event(EventPacket { header: h, event })),
            None => Err(DecodeError::MalformedPayload { value: le32_at(s, q) as u64 }),
        }
    }
}

/// What decoding a lap data payload at byte `q` of `s` yields, under a
/// header `h`.
pub open spec fn spec_decode_lap(h: Header, s: Seq<u8>, q: int) -> Result<
    crate::packet::PacketView,
    DecodeError,
> {
    if s.len() - q < LAP_PACKET_SIZE - HEADER_SIZE {
        Err(DecodeError::InsufficientData {
            expected: LAP_PACKET_SIZE,
            actual: (HEADER_SIZE + s.len() - q) as usize,
        })
    } else {
        Ok(crate::packet::PacketView::Lap(LapPacketView {
            header: h,
            laps: Seq::new(NUMBER_OF_CARS as nat, |i: int| spec_lap_data(s, q + LAP_DATA_SIZE * i)),
        }))
    }
}

/// What decoding a participants payload at byte `q` of `s` yields, under a
/// header `h`.
pub open spec fn spec_decode_participants(h: Header, s: Seq<u8>, q: int) -> Result<
    crate::packet::PacketView,
    DecodeError,
> {
    if s.len() - q < PARTICIPANTS_PACKET_SIZE - HEADER_SIZE {
        Err(DecodeError::InsufficientData {
            expected: PARTICIPANTS_PACKET_SIZE,
            actual: (HEADER_SIZE + s.len() - q) as usize,
        })
    } else {
        Ok(crate::packet::PacketView::Nineteen(NineteenPacketView::Participants(
            ParticipantsPacketView {
                header: h,
                num_active_cars: s[q],
                participants: Seq::new(
                    NUMBER_OF_CARS as nat,
                    |i: int| spec_participant(s, q + 1 + PARTICIPANT_SIZE * i),
                ),
            },
        )))
    }
}

/// What decoding a packet of the 2019 specification at byte `p` of `s`
/// yields.
pub open spec fn spec_decode(s: Seq<u8>, p: int) -> Result<crate::packet::PacketView, DecodeError> {
    if s.len() - p < HEADER_SIZE {
        Err(DecodeError::InsufficientData {
            expected: HEADER_SIZE,
            actual: (s.len() - p) as usize,
        })
    } else if le16_at(s, p) != PACKET_FORMAT as int {
        Err(DecodeError::MalformedHeader { value: le16_at(s, p) as u64 })
    } else {
        match spec_packet_type(s[p + 5] as int) {
            None => Err(DecodeError::MalformedHeader { value: s[p + 5] as u64 }),
            Some(packet_type) => {
                let h = spec_header(s, p, packet_type);
                if packet_type == PacketType::Event {
                    spec_decode_event(h, s, p + HEADER_SIZE)
                } else if packet_type == PacketType::Lap {
                    spec_decode_lap(h, s, p + HEADER_SIZE)
                } else if packet_type == PacketType::Participants {
                    spec_decode_participants(h, s, p + HEADER_SIZE)
                } else {
                    Err(DecodeError::UnsupportedPacket {
                        api_spec: ApiSpec::Nineteen,
                        packet_type: packet_type,
                    })
                }
            },
        }
    }
}

/// Maps a value of the header's packet identifier field to the packet kind
/// it announces, if the value is inside the known set of the 2019
/// specification.
pub fn packet_type_from_id(id: u8) -> (r: Option<PacketType>)
    ensures
        r == spec_packet_type(id as int),
{
    match id {
        0 => Some(PacketType::Motion),
        1 => Some(PacketType::Session),
        2 => Some(PacketType::Lap),
        3 => Some(PacketType::Event),
        4 => Some(PacketType::Participants),
        5 => Some(PacketType::Setup),
        6 => Some(PacketType::Telemetry),
        7 => Some(PacketType::Status),
        _ => None,
    }
}

/// Maps an event code and its detail fields to the event they announce, if
/// the code is one of the known four-letter codes of the 2019
/// specification.
pub fn event_from_code(c0: u8, c1: u8, c2: u8, c3: u8, vehicle_index: u8, lap_time: u32) -> (r:
    Option<Event>)
    ensures
        r == spec_event_code(c0, c1, c2, c3, vehicle_index, lap_time),
{
    if c0 == 0x53 && c1 == 0x53 && c2 == 0x54 && c3 == 0x41 {  // "SSTA"
        Some(Event::SessionStarted)
    } else if c0 == 0x53 && c1 == 0x45 && c2 == 0x4E && c3 == 0x44 {  // "SEND"
        Some(Event::SessionEnded)
    } else if c0 == 0x46 && c1 == 0x54 && c2 == 0x4C && c3 == 0x50 {  // "FTLP"
        Some(Event::FastestLap { vehicle_index, lap_time })
    } else if c0 == 0x52 && c1 == 0x54 && c2 == 0x4D && c3 == 0x54 {  // "RTMT"
        Some(Event::Retirement)
    } else if c0 == 0x44 && c1 == 0x52 && c2 == 0x53 && c3 == 0x45 {  // "DRSE"
        Some(Event::DrsEnabled)
    } else if c0 == 0x44 && c1 == 0x52 && c2 == 0x53 && c3 == 0x44 {  // "DRSD"
        Some(Event::DrsDisabled)
    } else if c0 == 0x54 && c1 == 0x4D && c2 == 0x50 && c3 == 0x54 {  // "TMPT"
        Some(Event::TeamMateInPits)
    } else if c0 == 0x43 && c1 == 0x48 && c2 == 0x51 && c3 == 0x46 {  // "CHQF"
        Some(Event::ChequeredFlag)
    } else if c0 == 0x52 && c1 == 0x43 && c2 == 0x57 && c3 == 0x4E {  // "RCWN"
        Some(Event::RaceWinner)
    } else {
        None
    }
}

/// Decodes the fixed header that prefixes every packet of the 2019
/// specification, leaving the cursor positioned immediately after it.
///
/// The decoder runs the size guard with the header's fixed byte length
/// before reading anything. A buffer whose packet format or packet
/// identifier field is outside the known set is rejected as malformed; on
/// every rejection the cursor is left where it started.
pub fn decode_header(cursor: &mut ByteCursor) -> (r: Result<Header, DecodeError>)
    requires
        old(cursor).wf(),
    ensures
        final(cursor).wf(),
        final(cursor)@.bytes == old(cursor)@.bytes,
        r is Err ==> final(cursor)@.pos == old(cursor)@.pos,
        old(cursor)@.remaining() < HEADER_SIZE ==> r == Err::<Header, DecodeError>(
            DecodeError::InsufficientData {
                expected: HEADER_SIZE,
                actual: old(cursor)@.remaining() as usize,
            },
        ),
        old(cursor)@.remaining() >= HEADER_SIZE && le16_at(old(cursor)@.bytes, old(cursor)@.pos)
            != PACKET_FORMAT as int ==> r == Err::<Header, DecodeError>(
            DecodeError::MalformedHeader {
                value: le16_at(old(cursor)@.bytes, old(cursor)@.pos) as u64,
            },
        ),
        old(cursor)@.remaining() >= HEADER_SIZE && le16_at(old(cursor)@.bytes, old(cursor)@.pos)
            == PACKET_FORMAT as int && spec_packet_type(
            old(cursor)@.bytes[old(cursor)@.pos + 5] as int,
        ) is None ==> r == Err::<Header, DecodeError>(
            DecodeError::MalformedHeader { value: old(cursor)@.bytes[old(cursor)@.pos + 5] as u64 },
        ),
        old(cursor)@.remaining() >= HEADER_SIZE && le16_at(old(cursor)@.bytes, old(cursor)@.pos)
            == PACKET_FORMAT as int && spec_packet_type(
            old(cursor)@.bytes[old(cursor)@.pos + 5] as int,
        ) is Some ==> {
            &&& r == Ok::<Header, DecodeError>(
                spec_header(
                    old(cursor)@.bytes,
                    old(cursor)@.pos,
                    spec_packet_type(old(cursor)@.bytes[old(cursor)@.pos + 5] as int)->Some_0,
                ),
            )
            &&& final(cursor)@.pos == old(cursor)@.pos + HEADER_SIZE
        },
{
    let start = cursor.position();
    if let Err(e) = ensure_packet_size(HEADER_SIZE, cursor) {
        return Err(e);
    }
    let packet_format = match cursor.read_u16_le() {
        Ok(v) => v,
        Err(e) => return Err(e),
    };
    if packet_format != PACKET_FORMAT {
        cursor.set_position(start);
        return Err(DecodeError::MalformedHeader { value: packet_format as u64 });
    }
    let major = match cursor.read_u8() {
        Ok(v) => v,
        Err(e) => return Err(e),
    };
    let minor = match cursor.read_u8() {
        Ok(v) => v,
        Err(e) => return Err(e),
    };
    let _packet_version = match cursor.read_u8() {
        Ok(v) => v,
        Err(e) => return Err(e),
    };
    let id = match cursor.read_u8() {
        Ok(v) => v,
        Err(e) => return Err(e),
    };
    let packet_type = match packet_type_from_id(id) {
        Some(t) => t,
        None => {
            cursor.set_position(start);
            return Err(DecodeError::MalformedHeader { value: id as u64 });
        },
    };
    let session_uid = match cursor.read_u64_le() {
        Ok(v) => v,
        Err(e) => return Err(e),
    };
    let session_time = match cursor.read_u32_le() {
        Ok(v) => v,
        Err(e) => return Err(e),
    };
    let frame_identifier = match cursor.read_u32_le() {
        Ok(v) => v,
        Err(e) => return Err(e),
    };
    let player_car_index = match cursor.read_u8() {
        Ok(v) => v,
        Err(e) => return Err(e),
    };
    Ok(
        Header::new(
            ApiSpec::Nineteen,
            Some(GameVersion::new(major, minor)),
            packet_type,
            session_uid,
            session_time,
            frame_identifier,
            player_car_index,
        ),
    )
}

/// Decodes the payload of an event packet, with the cursor positioned
/// immediately after the header.
///
/// The decoder runs the size guard with the payload size of the event
/// packet first; a failed guard reports the documented size of the whole
/// packet and the bytes available from the packet's start. On every
/// rejection the cursor is left where it started.
pub fn decode_event(header: Header, cursor: &mut ByteCursor) -> (r: Result<
    crate::packet::Packet,
    DecodeError,
>)
    requires
        old(cursor).wf(),
    ensures
        final(cursor).wf(),
        final(cursor)@.bytes == old(cursor)@.bytes,
        result_view(r) == spec_decode_event(header, old(cursor)@.bytes, old(cursor)@.pos),
        r is Err ==> final(cursor)@.pos == old(cursor)@.pos,
        r is Ok ==> final(cursor)@.pos == old(cursor)@.pos + (EVENT_PACKET_SIZE - HEADER_SIZE),
{
    let start = cursor.position();
    if ensure_packet_size(EVENT_PACKET_SIZE - HEADER_SIZE, cursor).is_err() {
        let rem = cursor.remaining();
        return Err(DecodeError::InsufficientData {
            expected: EVENT_PACKET_SIZE,
            actual: HEADER_SIZE + rem,
        });
    }
    let c0 = match cursor.read_u8() {
        Ok(v) => v,
        Err(e) => return Err(e),
    };
    let c1 = match cursor.read_u8() {
        Ok(v) => v,
        Err(e) => return Err(e),
    };
    let c2 = match cursor.read_u8() {
        Ok(v) => v,
        Err(e) => return Err(e),
    };
    let c3 = match cursor.read_u8() {
        Ok(v) => v,
        Err(e) => return Err(e),
    };
    let vehicle_index = match cursor.read_u8() {
        Ok(v) => v,
        Err(e) => return Err(e),
    };
    let lap_time = match cursor.read_u32_le() {
        Ok(v) => v,
        Err(e) => return Err(e),
    };
    match event_from_code(c0, c1, c2, c3, vehicle_index, lap_time) {
        Some(event) => Ok(crate::packet::Packet::Event(EventPacket::new(header, event))),
        None => {
            cursor.set_position(start);
            Err(DecodeError::MalformedPayload {
                value: c0 as u64 + c1 as u64 * 0x100 + c2 as u64 * 0x1_0000 + c3 as u64
                    * 0x100_0000,
            })
        },
    }
}

/// Decodes the payload of a lap data packet, with the cursor positioned
/// immediately after the header.
///
/// The decoder runs the size guard with the payload size of the lap data
/// packet first; a failed guard reports the documented size of the whole
/// packet and the bytes available from the packet's start, and leaves the
/// cursor where it started.
pub fn decode_lap(header: Header, cursor: &mut ByteCursor) -> (r: Result<
    crate::packet::Packet,
    DecodeError,
>)
    requires
        old(cursor).wf(),
    ensures
        final(cursor).wf(),
        final(cursor)@.bytes == old(cursor)@.bytes,
        result_view(r) == spec_decode_lap(header, old(cursor)@.bytes, old(cursor)@.pos),
        r is Err ==> final(cursor)@.pos == old(cursor)@.pos,
        r is Ok ==> final(cursor)@.pos == old(cursor)@.pos + (LAP_PACKET_SIZE - HEADER_SIZE),
{
    if ensure_packet_size(LAP_PACKET_SIZE - HEADER_SIZE, cursor).is_err() {
        let rem = cursor.remaining();
        return Err(DecodeError::InsufficientData {
            expected: LAP_PACKET_SIZE,
            actual: HEADER_SIZE + rem,
        });
    }
    let ghost s = cursor@.bytes;
    let ghost q = cursor@.pos;
    let mut laps: Vec<LapData> = Vec::new();
    let mut i: usize = 0;
    while i < NUMBER_OF_CARS
        invariant
            i <= NUMBER_OF_CARS,
            cursor.wf(),
            cursor@.bytes == s,
            cursor@.pos == q + LAP_DATA_SIZE * i,
            0 <= q,
            q + (LAP_PACKET_SIZE - HEADER_SIZE) <= s.len(),
            laps@.len() == i as int,
            forall|j: int| 0 <= j < i ==> laps@[j] == spec_lap_data(s, q + LAP_DATA_SIZE * j),
        decreases NUMBER_OF_CARS - i,
    {
        let last_lap_time = match cursor.read_u32_le() {
            Ok(v) => v,
            Err(e) => return Err(e),
        };
        let current_lap_time = match cursor.read_u32_le() {
            Ok(v) => v,
            Err(e) => return Err(e),
        };
        let best_lap_time = match cursor.read_u32_le() {
            Ok(v) => v,
            Err(e) => return Err(e),
        };
        let sector_one_time = match cursor.read_u32_le() {
            Ok(v) => v,
            Err(e) => return Err(e),
        };
        let sector_two_time = match cursor.read_u32_le() {
            Ok(v) => v,
            Err(e) => return Err(e),
        };
        let lap_distance = match cursor.read_u32_le() {
            Ok(v) => v,
            Err(e) => return Err(e),
        };
        let total_distance = match cursor.read_u32_le() {
            Ok(v) => v,
            Err(e) => return Err(e),
        };
        let safety_car_delta = match cursor.read_u32_le() {
            Ok(v) => v,
            Err(e) => return Err(e),
        };
        let car_position = match cursor.read_u8() {
            Ok(v) => v,
            Err(e) => return Err(e),
        };
        let current_lap_number = match cursor.read_u8() {
            Ok(v) => v,
            Err(e) => return Err(e),
        };
        let pit_status = match cursor.read_u8() {
            Ok(v) => v,
            Err(e) => return Err(e),
        };
        let sector = match cursor.read_u8() {
            Ok(v) => v,
            Err(e) => return Err(e),
        };
        let current_lap_invalid = match cursor.read_u8() {
            Ok(v) => v,
            Err(e) => return Err(e),
        };
        let penalties = match cursor.read_u8() {
            Ok(v) => v,
            Err(e) => return Err(e),
        };
        let grid_position = match cursor.read_u8() {
            Ok(v) => v,
            Err(e) => return Err(e),
        };
        let driver_status = match cursor.read_u8() {
            Ok(v) => v,
            Err(e) => return Err(e),
        };
        let result_status = match cursor.read_u8() {
            Ok(v) => v,
            Err(e) => return Err(e),
        };
        laps.push(
            LapData {
                last_lap_time,
                current_lap_time,
                best_lap_time,
                sector_one_time,
                sector_two_time,
                lap_distance,
                total_distance,
                safety_car_delta,
                car_position,
                current_lap_number,
                pit_status,
                sector,
                current_lap_invalid,
                penalties,
                grid_position,
                driver_status,
                result_status,
            },
        );
        i = i + 1;
    }
    proof {
        assert(laps@ =~= Seq::new(
            NUMBER_OF_CARS as nat,
            |j: int| spec_lap_data(s, q + LAP_DATA_SIZE * j),
        ));
    }
    Ok(crate::packet::Packet::Lap(LapPacket::new(header, laps)))
}

/// Decodes the payload of a participants packet, with the cursor positioned
/// immediately after the header.
///
/// The decoder runs the size guard with the payload size of the
/// participants packet first; a failed guard reports the documented size of
/// the whole packet and the bytes available from the packet's start, and
/// leaves the cursor where it started.
pub fn decode_participants(header: Header, cursor: &mut ByteCursor) -> (r: Result<
    crate::packet::Packet,
    DecodeError,
>)
    requires
        old(cursor).wf(),
    ensures
        final(cursor).wf(),
        final(cursor)@.bytes == old(cursor)@.bytes,
        result_view(r) == spec_decode_participants(header, old(cursor)@.bytes, old(cursor)@.pos),
        r is Err ==> final(cursor)@.pos == old(cursor)@.pos,
        r is Ok ==> final(cursor)@.pos == old(cursor)@.pos + (PARTICIPANTS_PACKET_SIZE
            - HEADER_SIZE),
{
    if ensure_packet_size(PARTICIPANTS_PACKET_SIZE - HEADER_SIZE, cursor).is_err() {
        let rem = cursor.remaining();
        return Err(DecodeError::InsufficientData {
            expected: PARTICIPANTS_PACKET_SIZE,
            actual: HEADER_SIZE + rem,
        });
    }
    let ghost s = cursor@.bytes;
    let ghost q = cursor@.pos;
    let num_active_cars = match cursor.read_u8() {
        Ok(v) => v,
        Err(e) => return Err(e),
    };
    let mut participants: Vec<ParticipantData> = Vec::new();
    let mut i: usize = 0;
    while i < NUMBER_OF_CARS
        invariant
            i <= NUMBER_OF_CARS,
            cursor.wf(),
            cursor@.bytes == s,
            cursor@.pos == q + 1 + PARTICIPANT_SIZE * i,
            0 <= q,
            q + (PARTICIPANTS_PACKET_SIZE - HEADER_SIZE) <= s.len(),
            participants@.len() == i as int,
            forall|j: int| 0 <= j < i ==> participants@[j]@ == spec_participant(
                s,
                q + 1 + PARTICIPANT_SIZE * j,
            ),
        decreases NUMBER_OF_CARS - i,
    {
        let ai_controlled = match cursor.read_u8() {
            Ok(v) => v,
            Err(e) => return Err(e),
        };
        let driver_id = match cursor.read_u8() {
            Ok(v) => v,
            Err(e) => return Err(e),
        };
        let team_id = match cursor.read_u8() {
            Ok(v) => v,
            Err(e) => return Err(e),
        };
        let race_number = match cursor.read_u8() {
            Ok(v) => v,
            Err(e) => return Err(e),
        };
        let nationality = match cursor.read_u8() {
            Ok(v) => v,
            Err(e) => return Err(e),
        };
        let name = match cursor.read_bytes(PARTICIPANT_NAME_LENGTH) {
            Ok(v) => v,
            Err(e) => return Err(e),
        };
        let telemetry_setting = match cursor.read_u8() {
            Ok(v) => v,
            Err(e) => return Err(e),
        };
        participants.push(
            ParticipantData {
                ai_controlled,
                driver_id,
                team_id,
                race_number,
                nationality,
                name,
                telemetry_setting,
            },
        );
        i = i + 1;
    }
    let packet = ParticipantsPacket::new(header, num_active_cars, participants);
    proof {
        assert(packet@.participants =~= Seq::new(
            NUMBER_OF_CARS as nat,
            |j: int| spec_participant(s, q + 1 + PARTICIPANT_SIZE * j),
        ));
    }
    Ok(crate::packet::Packet::Nineteen(Packet::Participants(packet)))
}

/// Decodes a packet of the 2019 specification from the accumulated bytes.
///
/// The header is decoded first, and the registry dispatches on the packet
/// kind it announces: events, lap data and participants have registered
/// decoders, and every other known kind is reported as unsupported. On
/// every error the cursor is left where it started, so the caller can wait
/// for more bytes and decode again; on success it rests at the end of the
/// decoded packet.
pub fn decode_packet(cursor: &mut ByteCursor) -> (r: Result<crate::packet::Packet, DecodeError>)
    requires
        old(cursor).wf(),
    ensures
        final(cursor).wf(),
        final(cursor)@.bytes == old(cursor)@.bytes,
        result_view(r) == spec_decode(old(cursor)@.bytes, old(cursor)@.pos),
        r is Err ==> final(cursor)@.pos == old(cursor)@.pos,
        r matches Ok(p) ==> final(cursor)@.pos == old(cursor)@.pos
            + crate::packet::spec_packet_size(p@),
{
    let start = cursor.position();
    let header = match decode_header(cursor) {
        Ok(h) => h,
        Err(e) => return Err(e),
    };
    let result = match header.packet_type() {
        PacketType::Event => decode_event(header, cursor),
        PacketType::Lap => decode_lap(header, cursor),
        PacketType::Participants => decode_participants(header, cursor),
        t => Err(
            DecodeError::UnsupportedPacket { api_spec: ApiSpec::Nineteen, packet_type: t },
        ),
    };
    match result {
        Ok(p) => Ok(p),
        Err(e) => {
            cursor.set_position(start);
            Err(e)
        },
    }
}

/// Every value of the packet identifier field is classified without panic:
/// a value outside the known set of the 2019 specification yields a
/// malformed-header error carrying that value, and a known kind without a
/// registered decoder yields an unsupported-packet error naming the
/// specification and the kind.
pub proof fn lemma_discriminant_classified(s: Seq<u8>, p: int)
    requires
        0 <= p,
        s.len() - p >= HEADER_SIZE,
        le16_at(s, p) == PACKET_FORMAT as int,
    ensures
        spec_packet_type(s[p + 5] as int) is None ==> spec_decode(s, p) == Err::<
            crate::packet::PacketView,
            DecodeError,
        >(DecodeError::MalformedHeader { value: s[p + 5] as u64 }),
        spec_packet_type(s[p + 5] as int) is Some && !spec_registered(
            spec_packet_type(s[p + 5] as int)->Some_0,
        ) ==> spec_decode(s, p) == Err::<crate::packet::PacketView, DecodeError>(
            DecodeError::UnsupportedPacket {
                api_spec: ApiSpec::Nineteen,
                packet_type: spec_packet_type(s[p + 5] as int)->Some_0,
            },
        ),
{
}

} // verus!
