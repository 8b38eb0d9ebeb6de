//! The custodian ledger: the singleton accounting record of the gateway.
//!
//! `minted_amount` tracks how many canonical tokens are currently minted and
//! outstanding against bridged-in backing.  The inbound path credits it, the
//! outbound path debits it, and both operations either apply in full or leave
//! the ledger untouched.

use vstd::prelude::*;

use crate::error::WormholeGatewayError;

verus! {

/// The custodian's persistent accounting record.
#[derive(Clone, Copy, Debug, PartialEq, Eq)]
pub struct Custodian {
    /// Canonical tokens currently minted and outstanding against bridged-in
    /// backing.
    pub minted_amount: u64,
    /// Policy ceiling on the outstanding minted amount.
    pub minting_limit: u64,
    /// Seed bump of the custodian's derived signing authority; identity
    /// material only, never read by the accounting.
    pub bump: u8,
}

/// Whether a debit of `amount` is covered by the outstanding minted amount.
pub open spec fn debit_ok(custodian: Custodian, amount: u64) -> bool {
    amount <= custodian.minted_amount
}

/// The ledger after a covered debit of `amount`.
pub open spec fn debited(custodian: Custodian, amount: u64) -> Custodian {
    Custodian {
        minted_amount: (custodian.minted_amount - amount) as u64,
        minting_limit: custodian.minting_limit,
        bump: custodian.bump,
    }
}

/// Whether a credit of `amount` stays within the minting limit.
pub open spec fn credit_ok(custodian: Custodian, amount: u64) -> bool {
    custodian.minted_amount + amount <= custodian.minting_limit
}

/// The ledger after an in-limit credit of `amount`.
pub open spec fn credited(custodian: Custodian, amount: u64) -> Custodian {
    Custodian {
        minted_amount: (custodian.minted_amount + amount) as u64,
        minting_limit: custodian.minting_limit,
        bump: custodian.bump,
    }
}

impl Custodian {
    /// Validity: the outstanding minted amount never exceeds the policy
    /// ceiling.
    pub open spec fn wf(self) -> bool {
        self.minted_amount <= self.minting_limit
    }

    /// Debits the ledger by `amount`, the outbound counterpart of `credit`.
    ///
    /// Fails with `MintedAmountUnderflow`, touching nothing, when `amount`
    /// exceeds the outstanding minted amount; otherwise reduces
    /// `minted_amount` by exactly `amount`.
    pub fn debit(&mut self, amount: u64) -> (r: Result<(), WormholeGatewayError>)
        ensures
            debit_ok(*old(self), amount) ==> r == Ok::<(), WormholeGatewayError>(())
                && *final(self) == debited(*old(self), amount),
            !debit_ok(*old(self), amount) ==> r == Err::<(), WormholeGatewayError>(
                WormholeGatewayError::MintedAmountUnderflow,
            ) && *final(self) == *old(self),
            *final(self) == ledger_step(*old(self), LedgerOp::Debit { amount }),
            old(self).wf() ==> final(self).wf(),
    {
        if amount > self.minted_amount {
            return Err(WormholeGatewayError::MintedAmountUnderflow);
        }
        self.minted_amount = self.minted_amount - amount;
        Ok(())
    }

    /// Credits the ledger by `amount`, the inbound counterpart of `debit`.
    ///
    /// Fails with `MintingLimitExceeded`, touching nothing, when the credit
    /// would push the outstanding minted amount over the minting limit;
    /// otherwise raises `minted_amount` by exactly `amount`.
    pub fn credit(&mut self, amount: u64) -> (r: Result<(), WormholeGatewayError>)
        ensures
            credit_ok(*old(self), amount) ==> r == Ok::<(), WormholeGatewayError>(())
                && *final(self) == credited(*old(self), amount),
            !credit_ok(*old(self), amount) ==> r == Err::<(), WormholeGatewayError>(
                WormholeGatewayError::MintingLimitExceeded,
            ) && *final(self) == *old(self),
            *final(self) == ledger_step(*old(self), LedgerOp::Credit { amount }),
            final(self).wf() == (credit_ok(*old(self), amount) || old(self).wf()),
    {
        if self.minted_amount > self.minting_limit
            || amount > self.minting_limit - self.minted_amount {
            return Err(WormholeGatewayError::MintingLimitExceeded);
        }
        self.minted_amount = self.minted_amount + amount;
        Ok(())
    }
}

/// One attempted ledger operation: an inbound credit or an outbound debit.
#[derive(Clone, Copy, Debug, PartialEq, Eq)]
pub enum LedgerOp {
    /// An inbound credit of `amount`.
    Credit { amount: u64 },
    /// An outbound debit of `amount`.
    Debit { amount: u64 },
}

/// The ledger after one attempted operation: a failing attempt (an uncovered
/// debit, an over-limit credit) leaves it unchanged.
pub open spec fn ledger_step(custodian: Custodian, op: LedgerOp) -> Custodian {
    match op {
        LedgerOp::Credit { amount } => if credit_ok(custodian, amount) {
            credited(custodian, amount)
        } else {
            custodian
        },
        LedgerOp::Debit { amount } => if debit_ok(custodian, amount) {
            debited(custodian, amount)
        } else {
            custodian
        },
    }
}

/// The ledger after a sequence of attempted operations.
pub open spec fn ledger_after(init: Custodian, ops: Seq<LedgerOp>) -> Custodian
    decreases ops.len(),
{
    if ops.len() == 0 {
        init
    } else {
        ledger_step(ledger_after(init, ops.drop_last()), ops.last())
    }
}

/// The sum of the amounts actually credited along `ops`: a credit that the
/// minting limit refuses contributes nothing.
pub open spec fn total_credited(init: Custodian, ops: Seq<LedgerOp>) -> int
    decreases ops.len(),
{
    if ops.len() == 0 {
        0
    } else {
        total_credited(init, ops.drop_last()) + (match ops.last() {
            LedgerOp::Credit { amount } => if credit_ok(
                ledger_after(init, ops.drop_last()),
                amount,
            ) {
                amount as int
            } else {
                0
            },
            LedgerOp::Debit { .. } => 0,
        })
    }
}

/// The sum of the amounts actually debited along `ops`: a debit that would
/// underflow contributes nothing.
pub open spec fn total_debited(init: Custodian, ops: Seq<LedgerOp>) -> int
    decreases ops.len(),
{
    if ops.len() == 0 {
        0
    } else {
        total_debited(init, ops.drop_last()) + (match ops.last() {
            LedgerOp::Debit { amount } => if debit_ok(
                ledger_after(init, ops.drop_last()),
                amount,
            ) {
                amount as int
            } else {
                0
            },
            LedgerOp::Credit { .. } => 0,
        })
    }
}

/// Law: after any sequence of sends and receives — any prefix of credit and
/// debit attempts — the outstanding minted amount equals the initial amount
/// plus the sum of the credited amounts minus the sum of the debited
/// amounts, and it is never negative.  Attempts that fail move nothing and
/// count for nothing.
pub proof fn lemma_ledger_accounting(init: Custodian, ops: Seq<LedgerOp>)
    ensures
        ledger_after(init, ops).minted_amount == init.minted_amount + total_credited(init, ops)
            - total_debited(init, ops),
        ledger_after(init, ops).minted_amount >= 0,
    decreases ops.len(),
{
    if ops.len() > 0 {
        lemma_ledger_accounting(init, ops.drop_last());
    }
}

} // verus!
