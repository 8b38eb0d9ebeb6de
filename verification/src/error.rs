//! The closed taxonomy of gateway failures.
//!
//! Every failure mode of the gateway is a distinct, terminal kind: nothing is
//! retried internally and nothing is collapsed into a generic failure.  Each
//! kind carries a fixed numeric code so that external callers can match on
//! the failure programmatically rather than by message text.

use vstd::prelude::*;

verus! {

/// A gateway failure kind.
///
/// The set is closed and stable: inbound ("receive") kinds such as
/// `TransferAlreadyRedeemed` are produced by the inbound accounting contract,
/// but they share this taxonomy and keep their codes.
#[derive(Clone, Copy, Debug, PartialEq, Eq)]
pub enum WormholeGatewayError {
    /// An inbound credit would exceed the custodian's minting limit.
    MintingLimitExceeded,
    /// The caller lacks custodian authority for a privileged action.
    IsNotAuthority,
    /// An outbound send names the all-zero recipient identifier.
    ZeroRecipient,
    /// The wrapped tokens held in custody do not cover the requested amount.
    NotEnoughWrappedTbtc,
    /// The requested amount is zero.
    ZeroAmount,
    /// The requested amount truncates to zero in the destination chain's
    /// precision.
    TruncatedZeroAmount,
    /// An inbound bridge transfer was already redeemed (replay detected).
    TransferAlreadyRedeemed,
    /// An inbound message's token identity is not the expected canonical
    /// asset.
    InvalidEthereumTbtc,
    /// An inbound message carries zero transferred value.
    NoTbtcTransferred,
    /// An inbound message names the all-zero receiver identifier.
    RecipientZeroAddress,
    /// A ledger debit would drive the outstanding minted amount negative.
    MintedAmountUnderflow,
}

impl WormholeGatewayError {
    /// The fixed numeric code of each failure kind.
    pub open spec fn code_spec(self) -> u32 {
        match self {
            WormholeGatewayError::MintingLimitExceeded => 0x10,
            WormholeGatewayError::IsNotAuthority => 0x20,
            WormholeGatewayError::ZeroRecipient => 0x30,
            WormholeGatewayError::NotEnoughWrappedTbtc => 0x40,
            WormholeGatewayError::ZeroAmount => 0x50,
            WormholeGatewayError::TruncatedZeroAmount => 0x60,
            WormholeGatewayError::TransferAlreadyRedeemed => 0x70,
            WormholeGatewayError::InvalidEthereumTbtc => 0x80,
            WormholeGatewayError::NoTbtcTransferred => 0x90,
            WormholeGatewayError::RecipientZeroAddress => 0xa0,
            WormholeGatewayError::MintedAmountUnderflow => 0xb0,
        }
    }

    /// Returns the stable numeric code of this failure kind.
    pub fn code(&self) -> (c: u32)
        ensures
            c == self.code_spec(),
    {
        match self {
            WormholeGatewayError::MintingLimitExceeded => 0x10,
            WormholeGatewayError::IsNotAuthority => 0x20,
            WormholeGatewayError::ZeroRecipient => 0x30,
            WormholeGatewayError::NotEnoughWrappedTbtc => 0x40,
            WormholeGatewayError::ZeroAmount => 0x50,
            WormholeGatewayError::TruncatedZeroAmount => 0x60,
            WormholeGatewayError::TransferAlreadyRedeemed => 0x70,
            WormholeGatewayError::InvalidEthereumTbtc => 0x80,
            WormholeGatewayError::NoTbtcTransferred => 0x90,
            WormholeGatewayError::RecipientZeroAddress => 0xa0,
            WormholeGatewayError::MintedAmountUnderflow => 0xb0,
        }
    }
}

} // verus!
