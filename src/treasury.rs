//! The treasury: the administrative record that owns the fee vault, created
//! once, and the authority's withdrawal from that vault.

use vstd::prelude::*;
use crate::error::Errors;
use crate::identity::Identity;
use crate::transfer::Transfer;

verus! {

/// The treasury record. Every escrow operation that touches it requires
/// `is_initialized`.
#[derive(Clone, Copy, Debug, PartialEq, Eq)]
pub struct DepositBaseAdmin {
    /// The only identity allowed to withdraw collected fees.
    pub admin_auth: Identity,
    /// The vault that collects settlement fees.
    pub admin_sol_vault: Identity,
    pub is_initialized: bool,
}

impl DepositBaseAdmin {
    /// A treasury record as the ledger hands it out before initialization.
    pub fn uninitialized() -> (r: DepositBaseAdmin)
        ensures
            !r.is_initialized,
    {
        DepositBaseAdmin {
            admin_auth: Identity::zeroed(),
            admin_sol_vault: Identity::zeroed(),
            is_initialized: false,
        }
    }
}

/// What the initialization reads and writes: the treasury record, the
/// authority that initializes it, and the fee vault's address.
#[derive(Clone, Copy, Debug, PartialEq, Eq)]
pub struct Initialize {
    pub admin_deposit_account: DepositBaseAdmin,
    pub admin_auth: Identity,
    pub admin_sol_vault: Identity,
}

/// What the treasury withdrawal reads: the treasury record and the caller.
#[derive(Clone, Copy, Debug, PartialEq, Eq)]
pub struct Withdraw {
    pub admin_deposit_account: DepositBaseAdmin,
    pub admin_auth: Identity,
}

/// Initializes the treasury once: records the authority and the fee vault.
/// A treasury that is already initialized is left alone.
pub fn initialize(ctx: &mut Initialize) -> (r: Result<(), Errors>)
    ensures
        old(ctx).admin_deposit_account.is_initialized ==> r == Err::<(), Errors>(
            Errors::AccountAlreadyInitialized,
        ) && *final(ctx) == *old(ctx),
        !old(ctx).admin_deposit_account.is_initialized ==> r is Ok && *final(ctx) == (Initialize {
            admin_deposit_account: DepositBaseAdmin {
                admin_auth: old(ctx).admin_auth,
                admin_sol_vault: old(ctx).admin_sol_vault,
                is_initialized: true,
            },
            ..*old(ctx)
        }),
{
    if ctx.admin_deposit_account.is_initialized {
        return Err(Errors::AccountAlreadyInitialized);
    }
    ctx.admin_deposit_account = DepositBaseAdmin {
        admin_auth: ctx.admin_auth,
        admin_sol_vault: ctx.admin_sol_vault,
        is_initialized: true,
    };
    Ok(())
}

/// The first reason, if any, for which the treasury withdrawal is refused.
pub open spec fn withdraw_error(ctx: Withdraw) -> Option<Errors> {
    if !ctx.admin_deposit_account.is_initialized {
        Some(Errors::AccountNotInitialized)
    } else if ctx.admin_auth != ctx.admin_deposit_account.admin_auth {
        Some(Errors::Unauthorized)
    } else {
        None
    }
}

/// The treasury authority takes `amount` out of the fee vault. Whether the
/// vault holds that much is left to the ledger.
pub fn withdraw(ctx: &Withdraw, amount: u64) -> (r: Result<Transfer, Errors>)
    ensures
        match withdraw_error(*ctx) {
            Some(e) => r == Err::<Transfer, Errors>(e),
            None => r == Ok::<Transfer, Errors>(
                Transfer {
                    from: ctx.admin_deposit_account.admin_sol_vault,
                    to: ctx.admin_auth,
                    amount,
                },
            ),
        },
{
    if !ctx.admin_deposit_account.is_initialized {
        return Err(Errors::AccountNotInitialized);
    }
    if !ctx.admin_auth.same(&ctx.admin_deposit_account.admin_auth) {
        return Err(Errors::Unauthorized);
    }
    Ok(Transfer { from: ctx.admin_deposit_account.admin_sol_vault, to: ctx.admin_auth, amount })
}

} // verus!
