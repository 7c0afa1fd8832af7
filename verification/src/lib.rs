//! A fungible-token ledger with a fixed total supply.
//!
//! The ledger tracks how a fixed number of indivisible token units is
//! distributed over accounts.  An account can move units directly with
//! `transfer`, or grant a spender a bounded delegated right with `approve`,
//! which the spender exercises through `transfer_from`.  Every successful
//! mutation appends one notification to the ledger's event log; a failed
//! operation leaves the ledger bit-for-bit unchanged.
//!
//! The central invariant, `Erc20Token::wf`, states that the balances always
//! sum to the total supply.  Every operation requires it and preserves it.

use vstd::prelude::*;

pub mod allowance_table;
pub mod balance_table;
pub mod events;
pub mod token;

verus! {

/// Opaque identifier of a ledger participant.  The ledger imposes no
/// structure on it beyond equality.
pub type AccountId = u64;

/// A non-negative quantity of token units.
pub type Balance = u128;

} // verus!
