//! Errors of the cross-chain liquidation hook.

use vstd::prelude::*;

verus! {

/// Reasons a bridge attestation is rejected.
#[derive(Clone, Copy, Debug, PartialEq, Eq, Structural)]
pub enum CrossChainError {
    Unauthorized,
    InvalidSignature,
    ReplayAttack,
    InvalidAttestation,
}

} // verus!
