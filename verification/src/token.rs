//! Plain-value models of the token accounts the gateway reads and writes.
//!
//! The host ledger owns the real accounts; the gateway's logic only ever
//! depends on the balances, the total supply and the delegation recorded in
//! them, so those are what these types carry.

use vstd::prelude::*;

verus! {

/// The canonical token's mint, reduced to what the accounting reads: the
/// total supply, which a burn permanently destroys.
#[derive(Clone, Copy, Debug, PartialEq, Eq)]
pub struct TokenMint {
    /// Canonical tokens currently in existence.
    pub supply: u64,
}

/// A token account: a balance together with the spending right currently
/// delegated over it.
#[derive(Clone, Copy, Debug, PartialEq, Eq)]
pub struct TokenAccount {
    /// Tokens held by the account.
    pub amount: u64,
    /// The identity entitled to spend delegated tokens, if any.
    pub delegate: Option<[u8; 32]>,
    /// How many of the held tokens the delegate may spend.
    pub delegated_amount: u64,
}

} // verus!
