//! Event packets

use crate::packet::header::Header;
use crate::types::RawF32;
use crate::types::VehicleIndex;
use vstd::prelude::*;

verus! {

/// An event that occurred during a session.
#[derive(Debug, PartialEq, Eq, Copy, Clone)]
pub enum Event {
    /// The session started.
    SessionStarted,
    /// The session ended.
    SessionEnded,
    /// A driver set the fastest lap of the session so far. Carries the index
    /// of that driver's vehicle and the lap time as the raw wire
    /// representation of seconds.
    FastestLap { vehicle_index: VehicleIndex, lap_time: RawF32 },
    /// A driver retired from the session.
    Retirement,
    /// The drag reduction system was enabled.
    DrsEnabled,
    /// The drag reduction system was disabled.
    DrsDisabled,
    /// The player's team mate entered the pits.
    TeamMateInPits,
    /// The chequered flag was waved.
    ChequeredFlag,
    /// A driver won the race.
    RaceWinner,
}

/// The F1 games send event packets whenever certain events occur in a
/// session. Some event packets carry a payload with more information about
/// the event.
#[derive(Debug, PartialEq, Eq, Copy, Clone)]
pub struct EventPacket {
    /// The header prefixing the packet.
    pub header: Header,

    /// The event the packet announces.
    pub event: Event,
}

impl EventPacket {
    /// Builds an event packet from its header and event.
    pub fn new(header: Header, event: Event) -> (r: EventPacket)
        ensures
            r.header == header,
            r.event == event,
    {
        EventPacket { header, event }
    }

    /// Returns the header prefixing the packet.
    pub fn header(&self) -> (r: Header)
        ensures
            r == self.header,
    {
        self.header
    }

    /// Returns the event the packet announces.
    pub fn event(&self) -> (r: Event)
        ensures
            r == self.event,
    {
        self.event
    }
}

} // verus!
