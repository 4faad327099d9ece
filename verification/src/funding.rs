//! Funding operations: the value-level core of the transfer helpers.
//!
//! A transfer moves an exact amount from a sender balance to a recipient
//! balance; the receipt returned by the ledger carries a status word whose
//! success value is `1`. The unverified shell performs the actual
//! transaction and hands the resulting plain values back here.

use crate::dispatch::ScenarioError;
use vstd::prelude::*;

verus! {

/// True exactly when a transaction receipt's status word reports success.
pub open spec fn spec_receipt_success(status: u64) -> bool {
    status == 1
}

/// Decides whether a mined transaction receipt reports success.
pub fn receipt_is_success(status: u64) -> (r: bool)
    ensures
        r == spec_receipt_success(status),
{
    status == 1
}

/// Applies a transfer of `amount` to a pair of balances.
///
/// Returns the updated `(sender, recipient)` balances, or `None` when the
/// sender cannot cover the amount or the recipient balance would overflow.
pub fn settle_transfer(sender: u128, recipient: u128, amount: u128) -> (r: Option<(u128, u128)>)
    ensures
        r matches Some(b) ==> ({
            &&& b.0 == sender - amount
            &&& b.1 == recipient + amount
        }),
        r is Some <==> amount <= sender && recipient + amount <= u128::MAX,
{
    if amount <= sender && amount <= u128::MAX - recipient {
        Some((sender - amount, recipient + amount))
    } else {
        None
    }
}

/// Confirms a funding transfer's mined receipt. Success is owed exactly
/// when the status word reports success; any other status is the terminal
/// execution failure that invalidates the scenario.
pub fn confirm_receipt(status: u64) -> (r: Result<(), ScenarioError>)
    ensures
        r is Ok <==> spec_receipt_success(status),
        r is Err ==> r == Result::<(), ScenarioError>::Err(ScenarioError::ExecutionFailed),
{
    if status == 1 {
        Ok(())
    } else {
        Err(ScenarioError::ExecutionFailed)
    }
}

} // verus!
