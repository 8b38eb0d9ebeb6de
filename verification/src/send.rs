//! The outbound ("send") path: validation and the burn-and-delegate
//! sequence.
//!
//! A send is validated as a pure function of the request and the current
//! balances before anything moves; the burn-and-delegate sequence then
//! debits the custodian ledger, burns the sender's canonical tokens,
//! produces the auditable "sent" event and delegates custody of the wrapped
//! tokens to the bridge's transfer authority — all of it, or none of it.

use vstd::prelude::*;
use vstd::arithmetic::div_mod::{lemma_div_non_zero, lemma_remainder_lower};
use vstd::arithmetic::mul::lemma_mul_strictly_positive;

use crate::error::WormholeGatewayError;
use crate::event::WormholeTbtcSent;
use crate::state::{Custodian, debit_ok, debited};
use crate::token::{TokenAccount, TokenMint};

verus! {

/// Whether a 32-byte identifier is the all-zero identifier.
pub open spec fn is_zero_address(id: Seq<u8>) -> bool {
    forall|i: int| 0 <= i < id.len() ==> id[i] == 0
}

/// Returns whether `id` is the all-zero identifier.
pub fn address_is_zero(id: &[u8; 32]) -> (b: bool)
    ensures
        b == is_zero_address(id@),
{
    let mut i: usize = 0;
    while i < 32
        invariant
            i <= 32,
            forall|j: int| 0 <= j < i ==> id@[j] == 0,
        decreases 32 - i,
    {
        if id[i] != 0 {
            return false;
        }
        i = i + 1;
    }
    true
}

/// What `validate_send` decides: the checks run in a fixed order —
/// recipient, then amount, then custody balance — and the first failure
/// wins.
pub open spec fn validate_send_spec(
    custody_balance: u64,
    recipient: Seq<u8>,
    amount: u64,
) -> Result<(), WormholeGatewayError> {
    if is_zero_address(recipient) {
        Err(WormholeGatewayError::ZeroRecipient)
    } else if amount == 0 {
        Err(WormholeGatewayError::ZeroAmount)
    } else if custody_balance < amount {
        Err(WormholeGatewayError::NotEnoughWrappedTbtc)
    } else {
        Ok(())
    }
}

/// Validates an outbound send before any state is touched: the recipient
/// must not be the all-zero identifier, the amount must not be zero, and the
/// wrapped tokens in custody (`custody_balance`) must cover the amount.
///
/// Pure: reads nothing but its arguments and mutates nothing.  The checks
/// run in a fixed order and must not be reordered — each failure kind
/// carries its own user-facing meaning.
pub fn validate_send(
    custody_balance: u64,
    recipient: &[u8; 32],
    amount: u64,
) -> (r: Result<(), WormholeGatewayError>)
    ensures
        r == validate_send_spec(custody_balance, recipient@, amount),
{
    if address_is_zero(recipient) {
        return Err(WormholeGatewayError::ZeroRecipient);
    }
    if amount == 0 {
        return Err(WormholeGatewayError::ZeroAmount);
    }
    if custody_balance < amount {
        return Err(WormholeGatewayError::NotEnoughWrappedTbtc);
    }
    Ok(())
}

/// Law: a custody balance exactly equal to the requested amount is
/// sufficient — the custody check accepts equality, it does not demand a
/// strict surplus.
pub proof fn lemma_exact_balance_accepted(recipient: Seq<u8>, amount: u64)
    requires
        !is_zero_address(recipient),
        amount > 0,
    ensures
        validate_send_spec(amount, recipient, amount) == Ok::<(), WormholeGatewayError>(()),
{
}

/// The destination-chain precision rule: re-denominating for the foreign
/// chain keeps only whole multiples of `truncation_divisor` (ten to the
/// power of the local token's excess decimal places), so the bridgeable
/// amount is `amount` rounded down to such a multiple.
pub open spec fn truncated_amount(amount: u64, truncation_divisor: u64) -> int
    recommends
        truncation_divisor > 0,
{
    (amount as int / truncation_divisor as int) * truncation_divisor as int
}

/// Rejects an amount that rounds to zero once re-denominated for the
/// destination chain's precision, and otherwise returns the bridgeable
/// amount: the requested amount rounded down to that precision.  Callers
/// run this check before accepting a send.
pub fn validate_truncated_amount(amount: u64, truncation_divisor: u64) -> (r: Result<
    u64,
    WormholeGatewayError,
>)
    requires
        truncation_divisor > 0,
    ensures
        amount < truncation_divisor ==> r == Err::<u64, WormholeGatewayError>(
            WormholeGatewayError::TruncatedZeroAmount,
        ),
        amount >= truncation_divisor ==> (r matches Ok(bridgeable) && bridgeable
            == truncated_amount(amount, truncation_divisor) && bridgeable > 0),
{
    if amount < truncation_divisor {
        return Err(WormholeGatewayError::TruncatedZeroAmount);
    }
    proof {
        lemma_remainder_lower(amount as int, truncation_divisor as int);
        lemma_div_non_zero(amount as int, truncation_divisor as int);
        lemma_mul_strictly_positive(
            amount as int / truncation_divisor as int,
            truncation_divisor as int,
        );
    }
    let quotient: u64 = amount / truncation_divisor;
    Ok(quotient * truncation_divisor)
}

/// Everything the burn-and-delegate sequence reads and writes, in the plain
/// values the gateway's accounting depends on.
#[derive(Clone, Copy, Debug, PartialEq, Eq)]
pub struct PrepareTransfer {
    /// The custodian ledger to debit.
    pub custodian: Custodian,
    /// The canonical token's mint; the burn reduces its supply.
    pub tbtc_mint: TokenMint,
    /// The sender's canonical token account, from which the burn takes.
    pub sender_token: TokenAccount,
    /// The sender's identity.  The host runtime verifies this signature
    /// before the sequence runs; the accounting itself never reads it.
    pub sender: [u8; 32],
    /// The custody account holding wrapped tokens for outbound bridging.
    pub wrapped_tbtc_token: TokenAccount,
    /// The bridge's transfer authority, to which spending rights over the
    /// custody account are delegated.
    pub token_bridge_transfer_authority: [u8; 32],
}

impl PrepareTransfer {
    /// Validity: no single account holds more canonical tokens than exist.
    pub open spec fn wf(self) -> bool {
        self.sender_token.amount <= self.tbtc_mint.supply
    }
}

/// Failure of the burn-and-delegate sequence.
#[derive(Clone, Copy, Debug, PartialEq, Eq)]
pub enum TransferError {
    /// One of the gateway's own checks failed.
    Gateway(WormholeGatewayError),
    /// The underlying token mechanism refused an operation — here, a burn
    /// exceeding the sender's balance.
    TokenOperationFailed,
}

/// The accounts after a successful burn-and-delegate of `amount`: the ledger
/// debited, the sender's balance and the mint's supply burned down, and
/// `amount` of the custody account delegated to the bridge's transfer
/// authority.
pub open spec fn transfer_applied(pt: PrepareTransfer, amount: u64) -> PrepareTransfer {
    PrepareTransfer {
        custodian: debited(pt.custodian, amount),
        tbtc_mint: TokenMint { supply: (pt.tbtc_mint.supply - amount) as u64 },
        sender_token: TokenAccount {
            amount: (pt.sender_token.amount - amount) as u64,
            delegate: pt.sender_token.delegate,
            delegated_amount: pt.sender_token.delegated_amount,
        },
        sender: pt.sender,
        wrapped_tbtc_token: TokenAccount {
            amount: pt.wrapped_tbtc_token.amount,
            delegate: Some(pt.token_bridge_transfer_authority),
            delegated_amount: amount,
        },
        token_bridge_transfer_authority: pt.token_bridge_transfer_authority,
    }
}

/// The arbiter fee the event records: the override, or zero when omitted.
pub open spec fn effective_arbiter_fee(arbiter_fee: Option<u64>) -> u64 {
    match arbiter_fee {
        Some(fee) => fee,
        None => 0u64,
    }
}

/// Whether `recorded` is the gateway identifier the event must carry: the
/// override when one was given, the all-zero identifier when omitted.
pub open spec fn gateway_recorded(gateway: Option<[u8; 32]>, recorded: [u8; 32]) -> bool {
    match gateway {
        Some(override_id) => recorded == override_id,
        None => is_zero_address(recorded@),
    }
}

/// The outbound burn-and-delegate sequence, atomic as a unit: debit the
/// custodian ledger by `amount`, burn `amount` of the canonical token from
/// the sender, produce the "sent" event for the host to publish, and
/// delegate `amount` of the custody account to the bridge's transfer
/// authority.  If any step fails, the whole call leaves every account
/// exactly as it was and no event is produced.
pub fn burn_and_prepare_transfer(
    prepare_transfer: &mut PrepareTransfer,
    amount: u64,
    recipient_chain: u16,
    gateway: Option<[u8; 32]>,
    recipient: [u8; 32],
    arbiter_fee: Option<u64>,
    nonce: u32,
) -> (r: Result<WormholeTbtcSent, TransferError>)
    requires
        old(prepare_transfer).wf(),
    ensures
        r is Err ==> *final(prepare_transfer) == *old(prepare_transfer),
        !debit_ok(old(prepare_transfer).custodian, amount) ==> r == Err::<
            WormholeTbtcSent,
            TransferError,
        >(TransferError::Gateway(WormholeGatewayError::MintedAmountUnderflow)),
        debit_ok(old(prepare_transfer).custodian, amount) && amount > old(
            prepare_transfer,
        ).sender_token.amount ==> r == Err::<WormholeTbtcSent, TransferError>(
            TransferError::TokenOperationFailed,
        ),
        debit_ok(old(prepare_transfer).custodian, amount) && amount <= old(
            prepare_transfer,
        ).sender_token.amount ==> *final(prepare_transfer) == transfer_applied(
            *old(prepare_transfer),
            amount,
        ),
        debit_ok(old(prepare_transfer).custodian, amount) && amount <= old(
            prepare_transfer,
        ).sender_token.amount ==> (r matches Ok(event) && event.amount == amount
            && event.recipient_chain == recipient_chain && gateway_recorded(gateway, event.gateway)
            && event.recipient == recipient && event.arbiter_fee == effective_arbiter_fee(
            arbiter_fee,
        ) && event.nonce == nonce),
        final(prepare_transfer).wf(),
{
    if amount > prepare_transfer.custodian.minted_amount {
        return Err(TransferError::Gateway(WormholeGatewayError::MintedAmountUnderflow));
    }
    if amount > prepare_transfer.sender_token.amount {
        return Err(TransferError::TokenOperationFailed);
    }
    prepare_transfer.custodian.minted_amount = prepare_transfer.custodian.minted_amount - amount;
    prepare_transfer.tbtc_mint.supply = prepare_transfer.tbtc_mint.supply - amount;
    prepare_transfer.sender_token.amount = prepare_transfer.sender_token.amount - amount;
    prepare_transfer.wrapped_tbtc_token.delegate = Some(
        prepare_transfer.token_bridge_transfer_authority,
    );
    prepare_transfer.wrapped_tbtc_token.delegated_amount = amount;
    let gateway_id: [u8; 32] = match gateway {
        Some(override_id) => override_id,
        None => [0u8; 32],
    };
    let fee: u64 = match arbiter_fee {
        Some(fee) => fee,
        None => 0u64,
    };
    Ok(
        WormholeTbtcSent {
            amount,
            recipient_chain,
            gateway: gateway_id,
            recipient,
            arbiter_fee: fee,
            nonce,
        },
    )
}

} // verus!
