//! The auditable record of an outbound send.

use vstd::prelude::*;

verus! {

/// The "sent" event: an append-only, externally observable record of one
/// outbound transfer.  This crate constructs it; the host runtime publishes
/// it to the event log, and indexers and the foreign-chain relayer read it.
#[derive(Clone, Copy, Debug, PartialEq, Eq)]
pub struct WormholeTbtcSent {
    /// Canonical tokens burned and handed off.
    pub amount: u64,
    /// Identifier of the destination chain.
    pub recipient_chain: u16,
    /// Destination gateway; the all-zero identifier when no override was
    /// given.
    pub gateway: [u8; 32],
    /// Recipient on the destination chain.
    pub recipient: [u8; 32],
    /// Fee offered to an arbiter; zero when no fee was given.
    pub arbiter_fee: u64,
    /// Caller-supplied sequence value for external-protocol idempotency.
    pub nonce: u32,
}

} // verus!
