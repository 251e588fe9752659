//! Secure-channel framing for an SSH-style binary packet protocol.
//!
//! The crate turns an ordered byte stream into authenticated, optionally
//! encrypted packets and back: an algorithm registry, per-direction sealing
//! and opening codecs, the packet serialization algorithm (length prefix,
//! padding, tag placement) and the incremental reader that assembles exactly
//! one decrypted packet from a live stream.

use vstd::prelude::*;

pub mod bytes;
pub mod cipher;
pub mod gcm;
pub mod laws;
pub mod name;
pub mod open;
pub mod seal;
pub mod sshbuffer;

verus! {

/// Length of the big-endian `packet_length` field on the wire.
pub const PACKET_LENGTH_LEN: usize = 4;

/// Length of the `padding_length` field on the wire.
pub const PADDING_LENGTH_LEN: usize = 1;

/// Smallest legal value of `packet_length` (the length field itself excluded).
pub const MINIMUM_PACKET_LEN: usize = 16;

/// Largest payload the sealing codec accepts: keeps `packet_length` within
/// 32 bits for every padding choice.
pub const MAX_PAYLOAD_LEN: usize = 0xFFFF_FE00;

/// Everything that can go wrong in this layer.
///
/// Variants deliberately carry no data: in particular an authentication
/// failure must never expose partially decrypted bytes.
#[derive(Debug, Clone, Copy, PartialEq, Eq, Structural)]
pub enum Error {
    /// The requested algorithm name is not present in the registry.
    UnsupportedAlgorithm,
    /// Key material handed to codec construction has the wrong length.
    KeyLengthMismatch,
    /// Nonce material handed to codec construction has the wrong length.
    NonceLengthMismatch,
    /// The authentication tag of an incoming packet did not verify.
    AuthenticationFailure,
    /// The declared padding length is inconsistent with the plaintext length.
    MalformedPacket,
}

} // verus!
