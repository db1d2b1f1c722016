//! Value movements that an accepted operation asks the ledger to make.

use vstd::prelude::*;
use crate::identity::Identity;

verus! {

/// Move `amount` from the account `from` to the account `to`. The ledger
/// carries it out; if it cannot, the whole operation is to be undone.
#[derive(Clone, Copy, Debug, PartialEq, Eq)]
pub struct Transfer {
    pub from: Identity,
    pub to: Identity,
    pub amount: u64,
}

} // verus!
