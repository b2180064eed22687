//! Custody of the fee: moving a fixed amount from the one who pays to the
//! treasury, before anything else is changed.

use vstd::prelude::*;
use crate::error::ClawDnaError;
use crate::pubkey::Pubkey;

verus! {

/// A funded account of the ledger, as one call sees it: whose it is and what
/// it holds.
#[derive(Clone, Copy, Debug, PartialEq, Eq)]
pub struct Wallet {
    pub key: Pubkey,
    pub lamports: u64,
}

/// A movement of value that has been made.
#[derive(Clone, Copy, Debug, PartialEq, Eq)]
pub struct FeeTransfer {
    pub from: Pubkey,
    pub to: Pubkey,
    pub lamports: u64,
}

/// Why `amount` cannot move from `payer` to `treasury`, if anything: the
/// payer holds too little, or the treasury would hold more than fits.
pub open spec fn transfer_error(payer: Wallet, treasury: Wallet, amount: u64) -> Option<
    ClawDnaError,
> {
    if payer.lamports < amount {
        Some(ClawDnaError::InsufficientFee)
    } else if payer.key != treasury.key && treasury.lamports + amount > u64::MAX {
        Some(ClawDnaError::MathOverflow)
    } else {
        None
    }
}

/// The payer after `amount` has left it. A payer who is the treasury keeps
/// what it has.
pub open spec fn debited(payer: Wallet, treasury: Wallet, amount: u64) -> Wallet {
    if payer.key == treasury.key {
        payer
    } else {
        Wallet { key: payer.key, lamports: (payer.lamports - amount) as u64 }
    }
}

/// The treasury after `amount` has reached it. A treasury that is the payer
/// keeps what it has.
pub open spec fn credited(payer: Wallet, treasury: Wallet, amount: u64) -> Wallet {
    if payer.key == treasury.key {
        treasury
    } else {
        Wallet { key: treasury.key, lamports: (treasury.lamports + amount) as u64 }
    }
}

/// Moves exactly `amount` from `payer` to `treasury`, whatever the amount, or
/// moves nothing and says why.
pub fn transfer(payer: &mut Wallet, treasury: &mut Wallet, amount: u64) -> (res: Result<
    FeeTransfer,
    ClawDnaError,
>)
    ensures
        match transfer_error(*old(payer), *old(treasury), amount) {
            Some(e) => {
                &&& res == Err::<FeeTransfer, ClawDnaError>(e)
                &&& *final(payer) == *old(payer)
                &&& *final(treasury) == *old(treasury)
            },
            None => {
                &&& res == Ok::<FeeTransfer, ClawDnaError>(
                    FeeTransfer { from: old(payer).key, to: old(treasury).key, lamports: amount },
                )
                &&& *final(payer) == debited(*old(payer), *old(treasury), amount)
                &&& *final(treasury) == credited(*old(payer), *old(treasury), amount)
            },
        },
{
    if payer.lamports < amount {
        return Err(ClawDnaError::InsufficientFee);
    }
    if payer.key != treasury.key {
        match treasury.lamports.checked_add(amount) {
            None => {
                return Err(ClawDnaError::MathOverflow);
            },
            Some(total) => {
                payer.lamports = payer.lamports - amount;
                treasury.lamports = total;
            },
        }
    }
    Ok(FeeTransfer { from: payer.key, to: treasury.key, lamports: amount })
}

/// Collects a fee: a fee of zero moves nothing and makes no transfer; any
/// other fee is moved by `transfer`.
pub fn collect(payer: &mut Wallet, treasury: &mut Wallet, amount: u64) -> (res: Result<
    Option<FeeTransfer>,
    ClawDnaError,
>)
    ensures
        amount == 0 ==> {
            &&& res == Ok::<Option<FeeTransfer>, ClawDnaError>(None)
            &&& *final(payer) == *old(payer)
            &&& *final(treasury) == *old(treasury)
        },
        amount > 0 ==> match transfer_error(*old(payer), *old(treasury), amount) {
            Some(e) => {
                &&& res == Err::<Option<FeeTransfer>, ClawDnaError>(e)
                &&& *final(payer) == *old(payer)
                &&& *final(treasury) == *old(treasury)
            },
            None => {
                &&& res == Ok::<Option<FeeTransfer>, ClawDnaError>(
                    Some(
                        FeeTransfer {
                            from: old(payer).key,
                            to: old(treasury).key,
                            lamports: amount,
                        },
                    ),
                )
                &&& *final(payer) == debited(*old(payer), *old(treasury), amount)
                &&& *final(treasury) == credited(*old(payer), *old(treasury), amount)
            },
        },
{
    if amount > 0 {
        match transfer(payer, treasury, amount) {
            Ok(made) => Ok(Some(made)),
            Err(e) => Err(e),
        }
    } else {
        Ok(None)
    }
}

/// A transfer between different accounts moves value and makes none: what
/// the two hold together is the same before and after.
pub proof fn law_transfer_conserves(payer: Wallet, treasury: Wallet, amount: u64)
    requires
        transfer_error(payer, treasury, amount) is None,
        payer.key != treasury.key,
    ensures
        debited(payer, treasury, amount).lamports + credited(payer, treasury, amount).lamports
            == payer.lamports + treasury.lamports,
        credited(payer, treasury, amount).lamports == treasury.lamports + amount,
{
}

} // verus!
