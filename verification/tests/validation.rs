use wormhole_gateway::error::WormholeGatewayError;
use wormhole_gateway::send::{address_is_zero, validate_send, validate_truncated_amount};

#[test]
fn recipient_check_precedes_amount_and_balance_checks() {
    // Everything is wrong at once; the recipient check wins.
    let r = validate_send(0, &[0u8; 32], 0);
    assert_eq!(r, Err(WormholeGatewayError::ZeroRecipient));
}

#[test]
fn zero_recipient_rejected() {
    let r = validate_send(100, &[0u8; 32], 10);
    assert_eq!(r, Err(WormholeGatewayError::ZeroRecipient));
}

#[test]
fn zero_amount_rejected() {
    let r = validate_send(100, &[7u8; 32], 0);
    assert_eq!(r, Err(WormholeGatewayError::ZeroAmount));
}

#[test]
fn insufficient_custody_rejected() {
    let r = validate_send(4, &[7u8; 32], 5);
    assert_eq!(r, Err(WormholeGatewayError::NotEnoughWrappedTbtc));
}

#[test]
fn exact_custody_balance_is_sufficient() {
    let r = validate_send(5, &[7u8; 32], 5);
    assert_eq!(r, Ok(()));
}

#[test]
fn surplus_custody_balance_accepted() {
    let r = validate_send(6, &[7u8; 32], 5);
    assert_eq!(r, Ok(()));
}

#[test]
fn zero_address_recognition() {
    assert!(address_is_zero(&[0u8; 32]));
    assert!(!address_is_zero(&[1u8; 32]));
    let mut nearly_zero = [0u8; 32];
    nearly_zero[31] = 1;
    assert!(!address_is_zero(&nearly_zero));
}

#[test]
fn amount_truncating_to_zero_rejected() {
    let r = validate_truncated_amount(9, 10);
    assert_eq!(r, Err(WormholeGatewayError::TruncatedZeroAmount));
}

#[test]
fn truncation_rounds_down_to_destination_precision() {
    assert_eq!(validate_truncated_amount(25, 10), Ok(20));
    assert_eq!(validate_truncated_amount(10, 10), Ok(10));
    assert_eq!(validate_truncated_amount(7, 1), Ok(7));
}
