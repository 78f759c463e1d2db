//! Compute-unit hints that a client attaches to the transaction of an operation.
use vstd::prelude::*;
use vstd::string::StrSliceExecFns;
use crate::error::UniversalNftError;

verus! {

/// Compute units suggested for an operation, by its name.
pub open spec fn compute_units_for(operation: Seq<char>) -> u32 {
    if operation == "mint"@ {
        200_000
    } else if operation == "cross_chain_transfer"@ {
        300_000
    } else if operation == "receive_cross_chain"@ {
        400_000
    } else if operation == "verify_ownership"@ {
        50_000
    } else {
        100_000
    }
}

/// Whether two strings hold the same characters.
fn same_str(a: &str, b: &str) -> (r: bool)
    ensures
        r == (a@ == b@),
{
    let n = a.unicode_len();
    if n != b.unicode_len() {
        return false;
    }
    let mut i: usize = 0;
    while i < n
        invariant
            0 <= i <= n,
            n == a@.len(),
            n == b@.len(),
            forall|j: int| 0 <= j < i ==> a@[j] == b@[j],
        decreases n - i,
    {
        if a.get_char(i) != b.get_char(i) {
            return false;
        }
        i = i + 1;
    }
    proof {
        assert(a@ =~= b@);
    }
    true
}

/// Requests `units` compute units; the request itself travels with the
/// client's transaction, so nothing here can fail.
pub fn increase_compute_budget(units: u32) -> (r: Result<(), UniversalNftError>)
    ensures
        r == Ok::<(), UniversalNftError>(()),
{
    Ok(())
}

/// The compute units to request for `operation`.
pub fn calculate_compute_budget(operation: &str) -> (r: u32)
    ensures
        r == compute_units_for(operation@),
{
    if same_str(operation, "mint") {
        200_000
    } else if same_str(operation, "cross_chain_transfer") {
        300_000
    } else if same_str(operation, "receive_cross_chain") {
        400_000
    } else if same_str(operation, "verify_ownership") {
        50_000
    } else {
        100_000
    }
}

/// Refuses an operation that needs more compute units than are available.
pub fn check_compute_budget(required: u32, available: u32) -> (r: Result<(), UniversalNftError>)
    ensures
        r == (if available < required {
            Err::<(), UniversalNftError>(UniversalNftError::ComputeBudgetExceeded)
        } else {
            Ok(())
        }),
{
    if available < required {
        return Err(UniversalNftError::ComputeBudgetExceeded);
    }
    Ok(())
}

} // verus!
