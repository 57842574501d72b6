//! The balances that a payment moves between.

use vstd::prelude::*;

verus! {

/// One holder's balance of the token that payments are made in.
#[derive(Clone, Copy, Debug, PartialEq, Eq, Structural)]
pub struct TokenAccount {
    pub amount: u64,
}

/// The payer's balance does not cover a transfer, or the payee's balance
/// cannot take it.
#[derive(Clone, Copy, Debug, PartialEq, Eq, Structural)]
pub struct InsufficientFunds;

/// A transfer of `amount` can complete: the payer holds that much and the
/// payee's balance stays within its range.
pub open spec fn can_transfer(from: TokenAccount, to: TokenAccount, amount: u64) -> bool {
    from.amount >= amount && to.amount + amount <= u64::MAX
}

/// Decides [`can_transfer`].
pub fn transfer_completes(from: &TokenAccount, to: &TokenAccount, amount: u64) -> (ok: bool)
    ensures
        ok == can_transfer(*from, *to, amount),
{
    from.amount >= amount && amount <= u64::MAX - to.amount
}

/// Moves `amount` from `from` to `to`, or moves nothing.
pub fn transfer(from: &mut TokenAccount, to: &mut TokenAccount, amount: u64) -> (done: Result<
    (),
    InsufficientFunds,
>)
    ensures
        done is Ok <==> can_transfer(*old(from), *old(to), amount),
        done is Ok ==> final(from).amount == old(from).amount - amount && final(to).amount == old(
            to,
        ).amount + amount,
        done is Err ==> *final(from) == *old(from) && *final(to) == *old(to),
        final(from).amount + final(to).amount == old(from).amount + old(to).amount,
{
    if !transfer_completes(from, to, amount) {
        return Err(InsufficientFunds);
    }
    from.amount = from.amount - amount;
    to.amount = to.amount + amount;
    Ok(())
}

} // verus!
