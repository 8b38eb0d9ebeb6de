//! Accounting and validation core of a cross-chain token gateway.
//!
//! The gateway custodies a wrapped token and mints a canonical local token
//! against it.  This crate holds the verified heart of the outbound ("send")
//! path: the custodian ledger that tracks the outstanding minted amount, the
//! pure validation of a send request, and the burn-and-delegate sequence that
//! debits the ledger, burns the sender's canonical tokens, produces the
//! auditable "sent" event and delegates custody of the wrapped tokens to the
//! bridge's transfer authority.  All on-chain plumbing (account loading,
//! cross-program invocations, event emission) belongs to the host runtime;
//! this crate works on the plain values those accounts carry and states
//! exactly how each operation changes them.

pub mod error;
pub mod event;
pub mod state;
pub mod token;
pub mod send;
