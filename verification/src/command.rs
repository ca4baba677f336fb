//! Operator intents and the volume conversion they carry.

use vstd::prelude::*;

verus! {

/// A host address, held as the four octets of a dotted-quad address.
///
/// The bridge never interprets the address; it is carried through the
/// login command to whatever performs the actual connection.
#[derive(Clone, Copy, Debug, PartialEq, Eq, Structural)]
pub struct HostAddress {
    pub octet0: u8,
    pub octet1: u8,
    pub octet2: u8,
    pub octet3: u8,
}

/// A multiplicative volume factor, held exactly as the fraction
/// `numer / denom` so that no rounding happens inside the bridge.
///
/// The operator-facing 0-100 percent value maps to `percent / 100`.
#[derive(Clone, Copy, Debug, PartialEq, Eq, Structural)]
pub struct VolumeFactor {
    pub numer: u32,
    pub denom: u32,
}

/// The factor the remote session must receive for an operator-facing
/// percent value: exactly `level_percent / 100`.
pub open spec fn spec_volume_factor(level_percent: u8) -> VolumeFactor {
    VolumeFactor { numer: level_percent as u32, denom: 100u32 }
}

/// Converts the operator-facing 0-100 level to the multiplicative
/// scale the remote session expects: `level_percent / 100`.
pub fn volume_factor(level_percent: u8) -> (f: VolumeFactor)
    ensures
        f == spec_volume_factor(level_percent),
        f.numer == level_percent as u32,
        f.denom == 100,
{
    VolumeFactor { numer: level_percent as u32, denom: 100 }
}

/// An operator-issued intent, carried from the consumer to the
/// session driver through the command queue.
#[derive(Clone, Debug, PartialEq, Eq)]
pub enum Command {
    /// One-shot login request; the only command that is meaningful
    /// while the session is disconnected.
    LogIn { address: HostAddress, port: u16, credential: String },
    /// Mute or unmute one named source. Idempotent at the protocol
    /// level; the source id is not validated by the bridge.
    SetMute { source_id: String, muted: bool },
    /// Set the level of one named source, as an operator-facing
    /// 0-100 percent value.
    SetVolume { source_id: String, level_percent: u8 },
}

/// True of the commands that adjust a source (mute or volume), as
/// opposed to the login request.
pub open spec fn is_operator_adjustment(c: Command) -> bool {
    c is SetMute || c is SetVolume
}

} // verus!
