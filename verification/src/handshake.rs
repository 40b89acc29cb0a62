//! Protocol version handshake.

use vstd::prelude::*;

verus! {

/// A protocol version: major and minor number.
#[derive(Clone, Copy, Debug, PartialEq, Eq, Structural)]
pub struct ProtocolVersion {
    pub major: u32,
    pub minor: u32,
}

/// The version spoken by this contract.
pub open spec fn current_version() -> ProtocolVersion {
    ProtocolVersion { major: 1, minor: 0 }
}

/// Return the version spoken by this contract (1.0).
pub fn get_current_version() -> (v: ProtocolVersion)
    ensures
        v == current_version(),
{
    ProtocolVersion { major: 1, minor: 0 }
}

/// A peer's version is compatible when its major number matches ours.
pub fn verify_version(other_version: ProtocolVersion) -> (ok: bool)
    ensures
        ok == (other_version.major == current_version().major),
{
    let current = get_current_version();
    current.major == other_version.major
}

} // verus!
