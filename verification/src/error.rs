//! Errors returned by the packet decoders

use crate::packet::header::ApiSpec;
use crate::packet::header::PacketType;
use vstd::prelude::*;

verus! {

/// The ways in which decoding a packet can fail.
///
/// Every decode entry point returns a result; the crate performs no logging
/// and keeps no global error state.
#[derive(Debug, PartialEq, Eq, Copy, Clone)]
pub enum DecodeError {
    /// Fewer bytes have arrived than a complete packet requires.
    ///
    /// This error is recoverable: the caller can wait for more bytes and
    /// decode again. `expected` is the number of bytes the decoder needed,
    /// and `actual` the number that was available.
    InsufficientData { expected: usize, actual: usize },

    /// A header field decoded to a value outside the known set for the
    /// claimed specification. `value` is the offending discriminant.
    MalformedHeader { value: u64 },

    /// The header is structurally valid, but no decoder is registered for
    /// its combination of specification and packet kind. The data is not
    /// corrupt, merely unimplemented by this build.
    UnsupportedPacket { api_spec: ApiSpec, packet_type: PacketType },

    /// A payload field failed a structural check. `value` is the offending
    /// field value.
    MalformedPayload { value: u64 },
}

} // verus!
