//! Header prefixing packets from modern F1 games

use crate::types::RawF32;
use crate::types::VehicleIndex;
use core::cmp::Ordering;
use vstd::prelude::*;
use vstd::std_specs::cmp::PartialOrdSpec;

verus! {

/// Supported API specifications
///
/// The modern F1 games have their own API specifications, each an evolution
/// of the previous one. Since the data published by each game is unique in
/// one way or another, support for additional API specs has to be implemented
/// manually. Existing values never change meaning, so packets from older
/// games keep decoding as new specifications are added.
#[derive(Debug, PartialEq, Eq, Copy, Clone, PartialOrd, Ord, Hash)]
pub enum ApiSpec {
    Nineteen,
}

/// Packets sent by F1 games
///
/// The modern F1 games have divided their telemetry output into multiple
/// packets, which can be sent at different intervals based on how quickly
/// their data changes. The kinds are orthogonal to [`ApiSpec`]: the same kind
/// may have a different byte layout in each specification.
#[derive(Debug, PartialEq, Eq, Copy, Clone, PartialOrd, Ord, Hash)]
pub enum PacketType {
    Event,
    Lap,
    Motion,
    Participants,
    Session,
    Setup,
    Status,
    Telemetry,
}

/// Version number of the game
///
/// The modern F1 games include their version number in the packet header.
/// The games are versioned using the scheme `MAJOR.MINOR`, and versions are
/// ordered by major version first, then minor version.
#[derive(Debug, PartialEq, Eq, Copy, Clone, Ord, Hash, Default)]
pub struct GameVersion {
    /// The major version of the game.
    pub major: u8,

    /// The minor version of the game.
    pub minor: u8,
}

impl GameVersion {
    /// Builds a version from its major and minor numbers.
    pub fn new(major: u8, minor: u8) -> (r: GameVersion)
        ensures
            r.major == major,
            r.minor == minor,
    {
        GameVersion { major, minor }
    }

    /// Returns the major version of the game.
    pub fn major(&self) -> (r: u8)
        ensures
            r == self.major,
    {
        self.major
    }

    /// Returns the minor version of the game.
    pub fn minor(&self) -> (r: u8)
        ensures
            r == self.minor,
    {
        self.minor
    }
}

impl PartialOrd for GameVersion {
    fn partial_cmp(&self, other: &GameVersion) -> (r: Option<Ordering>) {
        if self.major < other.major {
            Some(Ordering::Less)
        } else if self.major > other.major {
            Some(Ordering::Greater)
        } else if self.minor < other.minor {
            Some(Ordering::Less)
        } else if self.minor > other.minor {
            Some(Ordering::Greater)
        } else {
            Some(Ordering::Equal)
        }
    }
}

impl vstd::std_specs::cmp::PartialOrdSpecImpl for GameVersion {
    open spec fn obeys_partial_cmp_spec() -> bool {
        true
    }

    open spec fn partial_cmp_spec(&self, other: &GameVersion) -> Option<Ordering> {
        if self.major < other.major {
            Some(Ordering::Less)
        } else if self.major > other.major {
            Some(Ordering::Greater)
        } else if self.minor < other.minor {
            Some(Ordering::Less)
        } else if self.minor > other.minor {
            Some(Ordering::Greater)
        } else {
            Some(Ordering::Equal)
        }
    }
}

/// Game versions are totally ordered: the major versions are compared first
/// and the minor versions break ties, and two versions compare equal exactly
/// when both numbers agree.
pub proof fn lemma_game_version_ordering(a: GameVersion, b: GameVersion)
    ensures
        a.partial_cmp_spec(&b) == Some(Ordering::Less) <==> (a.major < b.major || (a.major
            == b.major && a.minor < b.minor)),
        a.partial_cmp_spec(&b) == Some(Ordering::Greater) <==> (a.major > b.major || (a.major
            == b.major && a.minor > b.minor)),
        a.partial_cmp_spec(&b) == Some(Ordering::Equal) <==> a == b,
{
}

/// Header prefixing each packet
///
/// The modern F1 games use versioned API specifications. Each packet is
/// prefixed with a header that declares which version of the specification
/// the packet adheres to. This information is required to decode the packet
/// correctly.
///
/// The header also contains information about the session the packet belongs
/// to, and about the time the packet was created.
#[derive(Debug, PartialEq, Eq, Copy, Clone, PartialOrd, Ord, Hash)]
pub struct Header {
    /// The API specification that was used to decode the packet.
    pub api_spec: ApiSpec,

    /// The version of the game, for specifications that embed one.
    pub game_version: Option<GameVersion>,

    /// The type of the packet.
    ///
    /// The packet type is only required to determine how to decode the
    /// packet. After decoding it, the packet type is represented by Rust's
    /// type system.
    pub packet_type: PacketType,

    /// The unique session UID.
    pub session_uid: u64,

    /// The session time at the time the packet was sent, as the raw wire
    /// representation of elapsed seconds.
    pub session_time: RawF32,

    /// The frame identifier at the time the packet was sent.
    pub frame_identifier: u32,

    /// The player's car index.
    ///
    /// The setups and status of cars are published as arrays. This field
    /// indicates which position in these arrays the player's car has.
    pub player_car_index: VehicleIndex,
}

impl Header {
    /// Builds a header from its fields.
    pub fn new(
        api_spec: ApiSpec,
        game_version: Option<GameVersion>,
        packet_type: PacketType,
        session_uid: u64,
        session_time: RawF32,
        frame_identifier: u32,
        player_car_index: VehicleIndex,
    ) -> (r: Header)
        ensures
            r.api_spec == api_spec,
            r.game_version == game_version,
            r.packet_type == packet_type,
            r.session_uid == session_uid,
            r.session_time == session_time,
            r.frame_identifier == frame_identifier,
            r.player_car_index == player_car_index,
    {
        Header { api_spec, game_version, packet_type, session_uid, session_time, frame_identifier, player_car_index }
    }

    /// Returns the API specification that was used to decode the packet.
    pub fn api_spec(&self) -> (r: ApiSpec)
        ensures
            r == self.api_spec,
    {
        self.api_spec
    }

    /// Returns the version of the game.
    pub fn game_version(&self) -> (r: Option<GameVersion>)
        ensures
            r == self.game_version,
    {
        self.game_version
    }

    /// Returns the type of the packet.
    pub fn packet_type(&self) -> (r: PacketType)
        ensures
            r == self.packet_type,
    {
        self.packet_type
    }

    /// Returns the unique session UID.
    pub fn session_uid(&self) -> (r: u64)
        ensures
            r == self.session_uid,
    {
        self.session_uid
    }

    /// Returns the session time at the time the packet was sent.
    pub fn session_time(&self) -> (r: RawF32)
        ensures
            r == self.session_time,
    {
        self.session_time
    }

    /// Returns the frame identifier at the time the packet was sent.
    pub fn frame_identifier(&self) -> (r: u32)
        ensures
            r == self.frame_identifier,
    {
        self.frame_identifier
    }

    /// Returns the player's car index.
    pub fn player_car_index(&self) -> (r: VehicleIndex)
        ensures
            r == self.player_car_index,
    {
        self.player_car_index
    }
}

} // verus!
