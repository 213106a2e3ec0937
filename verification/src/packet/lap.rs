//! Lap data packets

use crate::packet::header::Header;
use crate::types::RawF32;
use vstd::prelude::*;

verus! {

/// The lap data of a single car.
///
/// Timing and distance fields are transmitted as single-precision
/// floating-point numbers and are stored as their raw wire bit patterns; the
/// remaining fields are plain bytes whose meaning (pit status, sector, and so
/// on) is defined by the API specification.
#[derive(Debug, PartialEq, Eq, Copy, Clone)]
pub struct LapData {
    /// The previous lap's time, in the raw wire representation of seconds.
    pub last_lap_time: RawF32,

    /// The current lap's time so far, in the raw wire representation of
    /// seconds.
    pub current_lap_time: RawF32,

    /// The best lap time of the session, in the raw wire representation of
    /// seconds.
    pub best_lap_time: RawF32,

    /// The time spent in sector one, in the raw wire representation of
    /// seconds.
    pub sector_one_time: RawF32,

    /// The time spent in sector two, in the raw wire representation of
    /// seconds.
    pub sector_two_time: RawF32,

    /// The distance the car has covered on the current lap, in the raw wire
    /// representation of metres.
    pub lap_distance: RawF32,

    /// The distance the car has covered in the session, in the raw wire
    /// representation of metres.
    pub total_distance: RawF32,

    /// The delta to the safety car, in the raw wire representation of
    /// seconds.
    pub safety_car_delta: RawF32,

    /// The car's position in the race.
    pub car_position: u8,

    /// The number of the current lap.
    pub current_lap_number: u8,

    /// Whether the car is pitting.
    pub pit_status: u8,

    /// The sector the car is currently in.
    pub sector: u8,

    /// Whether the current lap is invalid.
    pub current_lap_invalid: u8,

    /// The accumulated penalties of the car, in seconds.
    pub penalties: u8,

    /// The grid position the car started the race in.
    pub grid_position: u8,

    /// The status of the driver.
    pub driver_status: u8,

    /// The status of the car's result.
    pub result_status: u8,
}

/// Lap data packets provide information about each car in a session, and are
/// sent at an interval that can be configured in the game.
#[derive(Debug, PartialEq, Eq, Clone)]
pub struct LapPacket {
    /// The header prefixing the packet.
    pub header: Header,

    /// The lap data of every car in the session, indexed by vehicle.
    pub laps: Vec<LapData>,
}

/// The state of a [`LapPacket`] as specifications see it.
pub struct LapPacketView {
    pub header: Header,
    pub laps: Seq<LapData>,
}

impl View for LapPacket {
    type V = LapPacketView;

    open spec fn view(&self) -> LapPacketView {
        LapPacketView { header: self.header, laps: self.laps@ }
    }
}

impl LapPacket {
    /// Builds a lap data packet from its header and per-car lap data.
    pub fn new(header: Header, laps: Vec<LapData>) -> (r: LapPacket)
        ensures
            r.header == header,
            r.laps == laps,
    {
        LapPacket { header, laps }
    }

    /// Returns the header prefixing the packet.
    pub fn header(&self) -> (r: Header)
        ensures
            r == self.header,
    {
        self.header
    }

    /// Returns the lap data of every car in the session, indexed by vehicle.
    pub fn laps(&self) -> (r: &Vec<LapData>)
        ensures
            r == self.laps,
    {
        &self.laps
    }
}

} // verus!
