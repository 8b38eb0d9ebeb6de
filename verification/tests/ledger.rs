use wormhole_gateway::error::WormholeGatewayError;
use wormhole_gateway::state::Custodian;

#[test]
fn debit_underflow_boundary() {
    let mut custodian = Custodian { minted_amount: 100, minting_limit: 1000, bump: 255 };
    let r = custodian.debit(101);
    assert_eq!(r, Err(WormholeGatewayError::MintedAmountUnderflow));
    assert_eq!(custodian.minted_amount, 100);
    assert_eq!(custodian.minting_limit, 1000);
}

#[test]
fn debit_reduces_by_exactly_the_amount() {
    let mut custodian = Custodian { minted_amount: 100, minting_limit: 1000, bump: 0 };
    assert_eq!(custodian.debit(40), Ok(()));
    assert_eq!(custodian.minted_amount, 60);
}

#[test]
fn debit_of_everything_outstanding_is_covered() {
    let mut custodian = Custodian { minted_amount: 100, minting_limit: 1000, bump: 0 };
    assert_eq!(custodian.debit(100), Ok(()));
    assert_eq!(custodian.minted_amount, 0);
}

#[test]
fn credit_within_limit() {
    let mut custodian = Custodian { minted_amount: 90, minting_limit: 100, bump: 0 };
    assert_eq!(custodian.credit(10), Ok(()));
    assert_eq!(custodian.minted_amount, 100);
}

#[test]
fn credit_over_limit_rejected() {
    let mut custodian = Custodian { minted_amount: 90, minting_limit: 100, bump: 0 };
    assert_eq!(custodian.credit(11), Err(WormholeGatewayError::MintingLimitExceeded));
    assert_eq!(custodian.minted_amount, 90);
}

#[test]
fn minted_amount_equals_credits_minus_debits_after_any_prefix() {
    let mut custodian = Custodian { minted_amount: 0, minting_limit: 1000, bump: 0 };
    assert_eq!(custodian.credit(50), Ok(()));
    assert_eq!(custodian.minted_amount, 50);
    // A refused credit counts for nothing.
    assert_eq!(custodian.credit(2000), Err(WormholeGatewayError::MintingLimitExceeded));
    assert_eq!(custodian.minted_amount, 50);
    assert_eq!(custodian.debit(20), Ok(()));
    assert_eq!(custodian.minted_amount, 50 - 20);
    assert_eq!(custodian.credit(30), Ok(()));
    assert_eq!(custodian.minted_amount, 50 - 20 + 30);
    // A refused debit counts for nothing either.
    assert_eq!(custodian.debit(100), Err(WormholeGatewayError::MintedAmountUnderflow));
    assert_eq!(custodian.minted_amount, 50 - 20 + 30);
}

#[test]
fn error_codes_are_stable() {
    assert_eq!(WormholeGatewayError::MintingLimitExceeded.code(), 0x10);
    assert_eq!(WormholeGatewayError::IsNotAuthority.code(), 0x20);
    assert_eq!(WormholeGatewayError::ZeroRecipient.code(), 0x30);
    assert_eq!(WormholeGatewayError::NotEnoughWrappedTbtc.code(), 0x40);
    assert_eq!(WormholeGatewayError::ZeroAmount.code(), 0x50);
    assert_eq!(WormholeGatewayError::TruncatedZeroAmount.code(), 0x60);
    assert_eq!(WormholeGatewayError::TransferAlreadyRedeemed.code(), 0x70);
    assert_eq!(WormholeGatewayError::InvalidEthereumTbtc.code(), 0x80);
    assert_eq!(WormholeGatewayError::NoTbtcTransferred.code(), 0x90);
    assert_eq!(WormholeGatewayError::RecipientZeroAddress.code(), 0xa0);
    assert_eq!(WormholeGatewayError::MintedAmountUnderflow.code(), 0xb0);
}
