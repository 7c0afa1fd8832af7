//! Fire-and-forget notifications describing completed ledger transitions.
//! The ledger appends them to its event log; the host delivers them to an
//! observer and needs no acknowledgment.

use vstd::prelude::*;

verus! {

use crate::AccountId;
use crate::Balance;

/// Notification of a completed balance movement of `value` units from
/// `from` to `to`.
#[derive(Clone, Copy, Debug, PartialEq, Eq, Structural)]
pub struct Transfer {
    pub from: AccountId,
    pub to: AccountId,
    pub value: Balance,
}

/// Notification that `owner` set `spender`'s allowance to `value`.
#[derive(Clone, Copy, Debug, PartialEq, Eq, Structural)]
pub struct Approval {
    pub owner: AccountId,
    pub spender: AccountId,
    pub value: Balance,
}

/// One entry of the ledger's event log.
#[derive(Clone, Copy, Debug, PartialEq, Eq, Structural)]
pub enum Event {
    Transfer(Transfer),
    Approval(Approval),
}

} // verus!
