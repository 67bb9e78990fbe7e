//! The ledger's token accounts, and the two operations of the token service
//! that the handlers rely on: moving units between accounts and closing an
//! emptied account.

use vstd::prelude::*;
use crate::identity::Identity;

verus! {

/// A token account as the ledger presents it to a handler.
///
/// `open` is false for an address at which no account exists (never created,
/// or closed); such an address holds nothing.
#[derive(Clone, Copy, Debug, PartialEq, Eq)]
pub struct TokenAccount {
    pub address: Identity,
    pub owner: Identity,
    pub mint: Identity,
    pub amount: u64,
    pub open: bool,
}

/// Why the token service refused an operation.
#[derive(Clone, Copy, Debug, PartialEq, Eq, Structural)]
pub enum TokenError {
    /// One of the accounts does not exist.
    AccountNotOpen,
    /// The two accounts hold different tokens.
    MintMismatch,
    /// The signing authority does not own the debited or closed account.
    InvalidAuthority,
    /// The debited account holds less than the amount.
    InsufficientFunds,
    /// The credited account cannot hold the sum.
    Overflow,
    /// The account to close still holds units.
    NonZeroBalance,
}

/// How a handler ends when it does not succeed. Whichever it is, the
/// transaction aborts and no account changes.
#[derive(Debug, PartialEq, Eq)]
pub enum Failure<E> {
    /// A rule of the program itself rejected the call.
    Rejected(E),
    /// The token service refused an operation.
    Token(TokenError),
    /// A value the handler had to compute does not fit in its type.
    Arithmetic,
}

impl TokenAccount {
    /// An address without an account holds nothing.
    pub open spec fn wf(&self) -> bool {
        !self.open ==> self.amount == 0
    }

    /// The account with another balance.
    pub open spec fn with_amount(self, amount: u64) -> TokenAccount {
        TokenAccount { amount, ..self }
    }

    /// The account after it was closed.
    pub open spec fn closed(self) -> TokenAccount {
        TokenAccount { amount: 0, open: false, ..self }
    }

    /// The account after it was created, if it did not exist.
    pub open spec fn opened(self) -> TokenAccount {
        TokenAccount { open: true, ..self }
    }

    /// Whether two account values agree in every field.
    pub fn same(&self, other: &TokenAccount) -> (r: bool)
        ensures
            r == (*self == *other),
    {
        self.address.same(&other.address) && self.owner.same(&other.owner) && self.mint.same(
            &other.mint,
        ) && self.amount == other.amount && self.open == other.open
    }

    /// An existing account holding `amount`.
    pub fn new(address: Identity, owner: Identity, mint: Identity, amount: u64) -> (account:
        TokenAccount)
        ensures
            account == (TokenAccount { address, owner, mint, amount, open: true }),
            account.wf(),
    {
        TokenAccount { address, owner, mint, amount, open: true }
    }

    /// The address of an account of `owner` for `mint` that does not exist yet.
    pub fn absent(address: Identity, owner: Identity, mint: Identity) -> (account: TokenAccount)
        ensures
            account == (TokenAccount { address, owner, mint, amount: 0, open: false }),
            account.wf(),
    {
        TokenAccount { address, owner, mint, amount: 0, open: false }
    }
}

/// What a transfer of `amount` from `from` to `to` under `authority` does:
/// the two accounts afterwards, or the reason it is refused. A transfer of an
/// account to itself is checked like any other and changes nothing.
///
/// This is the library's own model of the token service, made to state what
/// the handlers do to balances. Both the set of refusals and their order
/// (where several reasons apply, the first in the order of `TokenError`) are
/// the library's: the token program on the ledger also knows frozen
/// accounts and delegated authorities, and tests in another order, so on
/// accounts that the handlers' constraints do not admit it may refuse for
/// another reason than the one given here.
pub open spec fn transfer_outcome(
    from: TokenAccount,
    to: TokenAccount,
    authority: Identity,
    amount: u64,
) -> Result<(TokenAccount, TokenAccount), TokenError> {
    if !from.open || !to.open {
        Err(TokenError::AccountNotOpen)
    } else if from.mint != to.mint {
        Err(TokenError::MintMismatch)
    } else if from.owner != authority {
        Err(TokenError::InvalidAuthority)
    } else if from.amount < amount {
        Err(TokenError::InsufficientFunds)
    } else if from.address == to.address {
        Ok((from, to))
    } else if to.amount + amount > u64::MAX {
        Err(TokenError::Overflow)
    } else {
        Ok((from.with_amount((from.amount - amount) as u64), to.with_amount((to.amount + amount) as u64)))
    }
}

/// What closing `account` under `authority` does: an empty account of that
/// authority stops existing, any other is refused. As for `transfer_outcome`,
/// the refusals and their order are the library's own.
pub open spec fn close_outcome(account: TokenAccount, authority: Identity) -> Result<
    TokenAccount,
    TokenError,
> {
    if !account.open {
        Err(TokenError::AccountNotOpen)
    } else if account.owner != authority {
        Err(TokenError::InvalidAuthority)
    } else if account.amount != 0 {
        Err(TokenError::NonZeroBalance)
    } else {
        Ok(account.closed())
    }
}

/// Moves `amount` units from `from` to `to`, signed for by `authority`.
pub fn transfer(
    from: &mut TokenAccount,
    to: &mut TokenAccount,
    authority: &Identity,
    amount: u64,
) -> (result: Result<(), TokenError>)
    ensures
        match transfer_outcome(*old(from), *old(to), *authority, amount) {
            Ok((debited, credited)) => result.is_ok() && *final(from) == debited && *final(to)
                == credited,
            Err(e) => result == Err::<(), TokenError>(e) && *final(from) == *old(from)
                && *final(to) == *old(to),
        },
{
    if !from.open || !to.open {
        return Err(TokenError::AccountNotOpen);
    }
    if !from.mint.same(&to.mint) {
        return Err(TokenError::MintMismatch);
    }
    if !from.owner.same(authority) {
        return Err(TokenError::InvalidAuthority);
    }
    if from.amount < amount {
        return Err(TokenError::InsufficientFunds);
    }
    if from.address.same(&to.address) {
        return Ok(());
    }
    match to.amount.checked_add(amount) {
        None => Err(TokenError::Overflow),
        Some(sum) => {
            from.amount = from.amount - amount;
            to.amount = sum;
            Ok(())
        },
    }
}

/// Closes an emptied account, signed for by `authority`.
pub fn close_account(account: &mut TokenAccount, authority: &Identity) -> (result: Result<
    (),
    TokenError,
>)
    ensures
        match close_outcome(*old(account), *authority) {
            Ok(closed) => result.is_ok() && *final(account) == closed,
            Err(e) => result == Err::<(), TokenError>(e) && *final(account) == *old(account),
        },
{
    if !account.open {
        return Err(TokenError::AccountNotOpen);
    }
    if !account.owner.same(authority) {
        return Err(TokenError::InvalidAuthority);
    }
    if account.amount != 0 {
        return Err(TokenError::NonZeroBalance);
    }
    account.open = false;
    Ok(())
}

/// A transfer never creates or destroys units: what the two accounts hold
/// together is the same before and after, and both stay well formed.
pub proof fn lemma_transfer_conserves(
    from: TokenAccount,
    to: TokenAccount,
    authority: Identity,
    amount: u64,
)
    requires
        from.wf(),
        to.wf(),
    ensures
        match transfer_outcome(from, to, authority, amount) {
            Ok((debited, credited)) => debited.amount + credited.amount == from.amount + to.amount
                && debited.amount <= from.amount && debited.wf() && credited.wf(),
            Err(_) => true,
        },
{
}

} // verus!
