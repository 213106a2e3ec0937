//! Packet definitions

use crate::cursor::ByteCursor;
use crate::cursor::CursorView;
use crate::cursor::le16_at;
use crate::cursor::spec_read_u8;
use crate::error::DecodeError;
use crate::nineteen;
use crate::packet::event::EventPacket;
use crate::packet::lap::LapPacket;
use crate::packet::lap::LapPacketView;
use vstd::prelude::*;

pub mod event;
pub mod header;
pub mod lap;

verus! {

/// A packet published by an F1 game.
///
/// The F1 games publish different packets with different data at different
/// intervals. Each of these packets is decoded from UDP to their respective
/// representation in this Rust crate. The `Packet` enum lists all packets
/// that can be expected, and that a client should handle. Kinds whose
/// decoded form is specific to one API specification appear as
/// specification-qualified variants.
#[derive(Debug, PartialEq, Eq, Clone)]
pub enum Packet {
    /// The F1 games send event packets whenever certain events occur in a
    /// session. Some event packets carry a payload with more information
    /// about the event.
    Event(EventPacket),

    /// Lap data packets provide information about each car in a session,
    /// and are sent at an interval that can be configured in the game.
    Lap(LapPacket),

    /// Packet from F1 2019
    Nineteen(nineteen::Packet),
}

/// The state of a [`Packet`] as specifications see it.
pub enum PacketView {
    Event(EventPacket),
    Lap(LapPacketView),
    Nineteen(nineteen::NineteenPacketView),
}

impl View for Packet {
    type V = PacketView;

    open spec fn view(&self) -> PacketView {
        match self {
            Packet::Event(p) => PacketView::Event(*p),
            Packet::Lap(p) => PacketView::Lap(p@),
            Packet::Nineteen(p) => PacketView::Nineteen(p@),
        }
    }
}

/// The number of bytes a packet occupies on the wire.
pub open spec fn spec_packet_size(p: PacketView) -> int {
    match p {
        PacketView::Event(_) => nineteen::EVENT_PACKET_SIZE as int,
        PacketView::Lap(_) => nineteen::LAP_PACKET_SIZE as int,
        PacketView::Nineteen(_) => nineteen::PARTICIPANTS_PACKET_SIZE as int,
    }
}

/// A decode result as specifications see it: the decoded packet is replaced
/// by its view, and errors are kept as they are.
pub open spec fn result_view(r: Result<Packet, DecodeError>) -> Result<PacketView, DecodeError> {
    match r {
        Ok(p) => Ok(p@),
        Err(e) => Err(e),
    }
}

/// What decoding the bytes of `s` starting at byte `p` yields: the decoded
/// packet of the specification the buffer announces, or the error that
/// rejects it. Decoding is a pure function of the buffer, so decoding the
/// same bytes twice yields the same result.
pub open spec fn spec_decode(s: Seq<u8>, p: int) -> Result<PacketView, DecodeError> {
    if s.len() - p < nineteen::PACKET_FORMAT_SIZE {
        Err(DecodeError::InsufficientData {
            expected: nineteen::PACKET_FORMAT_SIZE,
            actual: (s.len() - p) as usize,
        })
    } else if le16_at(s, p) != nineteen::PACKET_FORMAT as int {
        Err(DecodeError::MalformedHeader { value: le16_at(s, p) as u64 })
    } else {
        nineteen::spec_decode(s, p)
    }
}

/// Decodes one packet from the accumulated bytes under the cursor.
///
/// The packet format field announces the API specification, and the
/// registry dispatches to that specification's decoder; a format outside
/// the supported set is rejected as malformed. The result is a pure
/// function of the bytes and the starting position, so decoding the same
/// buffer twice yields the same result. On every error the cursor is left
/// where it started — in particular, after an insufficient-data error the
/// caller can wait for more bytes and decode again; on success the cursor
/// rests at the end of the decoded packet.
pub fn decode_packet(cursor: &mut ByteCursor) -> (r: Result<Packet, DecodeError>)
    requires
        old(cursor).wf(),
    ensures
        final(cursor).wf(),
        final(cursor)@.bytes == old(cursor)@.bytes,
        result_view(r) == spec_decode(old(cursor)@.bytes, old(cursor)@.pos),
        r is Err ==> final(cursor)@.pos == old(cursor)@.pos,
        r matches Ok(p) ==> final(cursor)@.pos == old(cursor)@.pos + spec_packet_size(p@),
{
    if let Err(e) = ensure_packet_size(nineteen::PACKET_FORMAT_SIZE, cursor) {
        return Err(e);
    }
    let packet_format = match cursor.peek_u16_le() {
        Ok(v) => v,
        Err(e) => return Err(e),
    };
    if packet_format == nineteen::PACKET_FORMAT {
        nineteen::decode_packet(cursor)
    } else {
        Err(DecodeError::MalformedHeader { value: packet_format as u64 })
    }
}

/// What the size guard decides for an expected size on a cursor in state
/// `c`: success exactly when at least `expected` bytes remain, and otherwise
/// an error carrying the expected and the available byte counts.
pub open spec fn spec_ensure_size(expected: int, c: CursorView) -> Result<(), DecodeError> {
    if c.remaining() < expected {
        Err(DecodeError::InsufficientData { expected: expected as usize, actual: c.remaining() as usize })
    } else {
        Ok(())
    }
}

/// Ensure a packet has the expected size
///
/// Modern F1 games send their packets over UDP. Depending on their size,
/// these packets might be split into multiple UDP fragments. The decoder
/// collects these fragments, and asks the codec if enough data has been
/// received to decode a packet.
///
/// The sizes of the packets sent by F1 games are part of the API
/// specification, and can be used to determine if a full packet has been
/// received. This function takes a cursor to the raw data and the expected
/// size of the packet, and returns an error if not enough data is ready to
/// decode the complete packet. It only inspects the cursor and never
/// consumes bytes, so every decoder can gate on it before reading anything.
pub fn ensure_packet_size(expected_size: usize, cursor: &mut ByteCursor) -> (r: Result<
    (),
    DecodeError,
>)
    requires
        old(cursor).wf(),
    ensures
        *final(cursor) == *old(cursor),
        r == spec_ensure_size(expected_size as int, old(cursor)@),
        r is Ok <==> old(cursor)@.remaining() >= expected_size,
{
    if cursor.remaining() < expected_size {
        Err(DecodeError::InsufficientData { expected: expected_size, actual: cursor.remaining() })
    } else {
        Ok(())
    }
}

/// After the size guard has rejected a cursor for want of a single byte, a
/// read attempt on that cursor reproduces the same failure: it returns the
/// very error value the guard returned, with the cursor unchanged.
pub proof fn lemma_failed_guard_matches_read(c: CursorView)
    requires
        0 <= c.pos <= c.bytes.len(),
        spec_ensure_size(1, c) is Err,
    ensures
        spec_read_u8(c) == Err::<u8, DecodeError>(spec_ensure_size(1, c)->Err_0),
{
}

} // verus!
