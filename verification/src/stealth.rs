//! The stealth escrow: a payer moves tokens to a one-time receiver identity,
//! and whoever controls that identity later sweeps them out.

use vstd::prelude::*;
use crate::address::{find_program_address, program_address};
use crate::identity::{Identity, UnverifiedIdentity, VerifiedSigner};
use crate::token::{close_account, transfer, transfer_outcome, Failure, TokenAccount};

verus! {

/// The address of the token program.
pub const TOKEN_PROGRAM_ID: [u8; 32] = [
    6, 221, 246, 225, 215, 101, 161, 147, 217, 203, 225, 70, 206, 235, 121, 172,
    28, 180, 133, 237, 95, 91, 55, 145, 58, 140, 245, 133, 126, 255, 0, 169,
];

/// The address of the associated-token program, under which the receiver's
/// token account is derived.
pub const ASSOCIATED_TOKEN_PROGRAM_ID: [u8; 32] = [
    140, 151, 37, 143, 78, 36, 137, 241, 187, 61, 16, 41, 20, 142, 13, 131,
    11, 90, 19, 153, 218, 255, 16, 132, 4, 142, 123, 216, 219, 233, 248, 89,
];

/// The rules a call can break.
#[derive(Clone, Copy, Debug, PartialEq, Eq, Structural)]
pub enum StealthError {
    /// The amount is zero, or a withdrawal asks for more than the balance.
    InvalidAmount,
    /// The destination token account is not owned by the stealth owner.
    DestinationOwnerMismatch,
    /// Source and destination are the same token account.
    SameAccount,
}

/// Logged for every payment and every announcement.
#[derive(Clone, Copy, Debug, PartialEq, Eq)]
pub struct PaymentEvent {
    pub stealth_owner: Identity,
    pub payer: Identity,
    pub mint: Identity,
    pub amount: u64,
    pub label: [u8; 32],
    pub eph_pubkey: Identity,
    /// `false`: funds moved; `true`: notice only.
    pub announce: bool,
}

/// Logged after every successful withdrawal.
#[derive(Clone, Copy, Debug, PartialEq, Eq)]
pub struct WithdrawEvent {
    pub stealth_owner: Identity,
    pub mint: Identity,
    pub amount: u64,
    pub destination: Identity,
}

/// What a payer states with a payment: the amount, and the tag and one-time
/// key by which the receiver recognises it.
#[derive(Clone, Copy, Debug, PartialEq, Eq)]
pub struct PayArgs {
    pub amount: u64,
    pub label: [u8; 32],
    pub eph_pubkey: Identity,
}

/// The accounts of a payment.
#[derive(Clone, Copy, Debug, PartialEq, Eq)]
pub struct Pay {
    /// The one-time receiver; it does not sign.
    pub stealth_owner: UnverifiedIdentity,
    /// The receiver's token account; created by the payment if absent.
    pub stealth_ata: TokenAccount,
    pub payer: VerifiedSigner,
    /// The token account the payer funds the payment from.
    pub payer_ata: TokenAccount,
    pub mint: Identity,
}

/// What the receiver asks to withdraw.
#[derive(Clone, Copy, Debug, PartialEq, Eq)]
pub struct WithdrawArgs {
    /// `u64::MAX` sweeps the whole balance.
    pub amount: u64,
}

/// The accounts of a withdrawal.
#[derive(Clone, Copy, Debug, PartialEq, Eq)]
pub struct Withdraw {
    /// The receiver, proving control of the one-time identity by signing.
    pub stealth_owner: VerifiedSigner,
    pub stealth_ata: TokenAccount,
    pub destination_ata: TokenAccount,
    pub mint: Identity,
}

/// What an announcement states: the same as a payment.
#[derive(Clone, Copy, Debug, PartialEq, Eq)]
pub struct AnnounceArgs {
    pub amount: u64,
    pub label: [u8; 32],
    pub eph_pubkey: Identity,
}

/// The accounts of an announcement.
#[derive(Clone, Copy, Debug, PartialEq, Eq)]
pub struct Announce {
    pub stealth_owner: UnverifiedIdentity,
    /// Whoever publishes the notice; not necessarily who paid.
    pub payer: VerifiedSigner,
    pub mint: Identity,
}

/// The address of the token account of `owner` for `mint`: derived from the
/// owner, the token program and the mint under the associated-token program,
/// so that there is one for each owner and mint.
pub open spec fn receiver_account_address_of(owner: Identity, mint: Identity) -> Option<Seq<u8>> {
    match program_address(
        seq![owner.bytes@, TOKEN_PROGRAM_ID@, mint.bytes@],
        ASSOCIATED_TOKEN_PROGRAM_ID@,
    ) {
        Some((address, _)) => Some(address),
        None => None,
    }
}

/// Derives the address of the token account of `owner` for `mint`.
pub fn receiver_account_address(owner: &Identity, mint: &Identity) -> (found: Option<Identity>)
    ensures
        match found {
            Some(address) => receiver_account_address_of(*owner, *mint) == Some(address.bytes@),
            None => receiver_account_address_of(*owner, *mint) is None,
        },
{
    let mut seeds: Vec<Vec<u8>> = Vec::new();
    seeds.push(owner.to_vec());
    seeds.push(Identity::new(TOKEN_PROGRAM_ID).to_vec());
    seeds.push(mint.to_vec());
    assert(seeds.deep_view() =~~= seq![owner.bytes@, TOKEN_PROGRAM_ID@, mint.bytes@]);
    match find_program_address(&seeds, &ASSOCIATED_TOKEN_PROGRAM_ID) {
        None => None,
        Some((key, _)) => Some(Identity::new(key)),
    }
}

impl Pay {
    /// What the ledger checks when it loads the accounts: the constraints
    /// that the handler relies on, and that the receiver's token account
    /// sits at the one address derived for the stealth owner and the mint.
    pub open spec fn loaded(&self) -> bool {
        &&& self.wf()
        &&& receiver_account_address_of(self.stealth_owner.key, self.mint) == Some(
            self.stealth_ata.address.bytes@,
        )
    }

    /// What the ledger guarantees of the accounts before the handler runs:
    /// the funding account exists, belongs to the payer and holds the mint;
    /// the receiver's account is the one of the stealth owner for the mint;
    /// and one address stands for one account.
    pub open spec fn wf(&self) -> bool {
        &&& self.payer_ata.wf()
        &&& self.stealth_ata.wf()
        &&& self.payer_ata.open
        &&& self.payer_ata.owner == self.payer.key
        &&& self.payer_ata.mint == self.mint
        &&& self.stealth_ata.owner == self.stealth_owner.key
        &&& self.stealth_ata.mint == self.mint
        &&& (self.payer_ata.address == self.stealth_ata.address ==> self.payer_ata
            == self.stealth_ata)
    }

    /// Gathers the accounts of a payment, given the address that was derived
    /// for the receiver's token account: `None` where the accounts break a
    /// constraint or the receiver's account sits elsewhere.
    pub fn assemble(
        derived: Option<Identity>,
        stealth_owner: UnverifiedIdentity,
        stealth_ata: TokenAccount,
        payer: VerifiedSigner,
        payer_ata: TokenAccount,
        mint: Identity,
    ) -> (accounts: Option<Pay>)
        ensures
            accounts.is_some() <==> (Pay { stealth_owner, stealth_ata, payer, payer_ata, mint }).wf()
                && derived == Some(stealth_ata.address),
            accounts.is_some() ==> accounts.unwrap() == (Pay {
                stealth_owner,
                stealth_ata,
                payer,
                payer_ata,
                mint,
            }),
    {
        let holds = (payer_ata.open || payer_ata.amount == 0) && (stealth_ata.open
            || stealth_ata.amount == 0) && payer_ata.open && payer_ata.owner.same(&payer.key)
            && payer_ata.mint.same(&mint) && stealth_ata.owner.same(&stealth_owner.key)
            && stealth_ata.mint.same(&mint) && (!payer_ata.address.same(&stealth_ata.address)
            || payer_ata.same(&stealth_ata));
        match derived {
            None => None,
            Some(address) => {
                if holds && stealth_ata.address.same(&address) {
                    Some(Pay { stealth_owner, stealth_ata, payer, payer_ata, mint })
                } else {
                    None
                }
            },
        }
    }

    /// Gathers the accounts of a payment as the ledger loads them, or `None`
    /// where they break a constraint.
    pub fn new(
        stealth_owner: UnverifiedIdentity,
        stealth_ata: TokenAccount,
        payer: VerifiedSigner,
        payer_ata: TokenAccount,
        mint: Identity,
    ) -> (accounts: Option<Pay>)
        ensures
            accounts.is_some() <==> (Pay {
                stealth_owner,
                stealth_ata,
                payer,
                payer_ata,
                mint,
            }).loaded(),
            accounts.is_some() ==> accounts.unwrap() == (Pay {
                stealth_owner,
                stealth_ata,
                payer,
                payer_ata,
                mint,
            }),
    {
        let derived = receiver_account_address(&stealth_owner.key, &mint);
        proof {
            if derived is Some && derived->Some_0.bytes@ == stealth_ata.address.bytes@ {
                assert(derived->Some_0.bytes =~= stealth_ata.address.bytes);
            }
        }
        Pay::assemble(derived, stealth_owner, stealth_ata, payer, payer_ata, mint)
    }
}

impl Withdraw {
    /// What the ledger guarantees of the accounts before the handler runs:
    /// the receiver's account exists, belongs to the signing stealth owner
    /// and holds the mint; the destination exists; and one address stands for
    /// one account.
    pub open spec fn wf(&self) -> bool {
        &&& self.stealth_ata.wf()
        &&& self.destination_ata.wf()
        &&& self.stealth_ata.open
        &&& self.stealth_ata.owner == self.stealth_owner.key
        &&& self.stealth_ata.mint == self.mint
        &&& self.destination_ata.open
        &&& (self.stealth_ata.address == self.destination_ata.address ==> self.stealth_ata
            == self.destination_ata)
    }

    /// Gathers the accounts of a withdrawal, or `None` where they break a
    /// constraint.
    pub fn new(
        stealth_owner: VerifiedSigner,
        stealth_ata: TokenAccount,
        destination_ata: TokenAccount,
        mint: Identity,
    ) -> (accounts: Option<Withdraw>)
        ensures
            accounts.is_some() <==> (Withdraw { stealth_owner, stealth_ata, destination_ata, mint }).wf(),
            accounts.is_some() ==> accounts.unwrap() == (Withdraw {
                stealth_owner,
                stealth_ata,
                destination_ata,
                mint,
            }),
    {
        let holds = stealth_ata.open && destination_ata.open && stealth_ata.owner.same(
            &stealth_owner.key,
        ) && stealth_ata.mint.same(&mint) && (!stealth_ata.address.same(&destination_ata.address)
            || stealth_ata.same(&destination_ata));
        if holds {
            Some(Withdraw { stealth_owner, stealth_ata, destination_ata, mint })
        } else {
            None
        }
    }
}

/// The record of a payment or announcement of `amount` with the given
/// discovery data.
pub open spec fn payment_record(
    stealth_owner: Identity,
    payer: Identity,
    mint: Identity,
    amount: u64,
    label: [u8; 32],
    eph_pubkey: Identity,
    announce: bool,
) -> PaymentEvent {
    PaymentEvent { stealth_owner, payer, mint, amount, label, eph_pubkey, announce }
}

/// What a payment does: the accounts afterwards and the record to log, or
/// the failure. A zero amount is rejected; otherwise the receiver's account
/// is created if absent and the token service moves the amount.
pub open spec fn pay_outcome(accounts: Pay, args: PayArgs) -> Result<
    (Pay, PaymentEvent),
    Failure<StealthError>,
> {
    if args.amount == 0 {
        Err(Failure::Rejected(StealthError::InvalidAmount))
    } else {
        match transfer_outcome(
            accounts.payer_ata,
            accounts.stealth_ata.opened(),
            accounts.payer.key,
            args.amount,
        ) {
            Err(e) => Err(Failure::Token(e)),
            Ok((debited, credited)) => Ok(
                (
                    Pay { payer_ata: debited, stealth_ata: credited, ..accounts },
                    payment_record(
                        accounts.stealth_owner.key,
                        accounts.payer.key,
                        accounts.mint,
                        args.amount,
                        args.label,
                        args.eph_pubkey,
                        false,
                    ),
                ),
            ),
        }
    }
}

/// What an announcement returns: the record, with `announce` set, for every
/// amount but zero.
pub open spec fn announce_outcome(accounts: Announce, args: AnnounceArgs) -> Result<
    PaymentEvent,
    StealthError,
> {
    if args.amount == 0 {
        Err(StealthError::InvalidAmount)
    } else {
        Ok(
            payment_record(
                accounts.stealth_owner.key,
                accounts.payer.key,
                accounts.mint,
                args.amount,
                args.label,
                args.eph_pubkey,
                true,
            ),
        )
    }
}

/// The amount a withdrawal request stands for: the whole balance for the
/// sentinel `u64::MAX`, the requested amount otherwise.
pub open spec fn sweep_amount(requested: u64, balance: u64) -> u64 {
    if requested == u64::MAX {
        balance
    } else {
        requested
    }
}

/// The checks of a withdrawal, in the order they are made, and the amount
/// that passes them.
pub open spec fn withdraw_check(accounts: Withdraw, args: WithdrawArgs) -> Result<
    u64,
    StealthError,
> {
    let balance = accounts.stealth_ata.amount;
    let amount = sweep_amount(args.amount, balance);
    if accounts.stealth_ata.address == accounts.destination_ata.address {
        Err(StealthError::SameAccount)
    } else if amount == 0 || amount > balance {
        Err(StealthError::InvalidAmount)
    } else if accounts.destination_ata.owner != accounts.stealth_owner.key {
        Err(StealthError::DestinationOwnerMismatch)
    } else {
        Ok(amount)
    }
}

/// The record of a withdrawal of `amount` from `accounts`.
pub open spec fn withdraw_record(accounts: Withdraw, amount: u64) -> WithdrawEvent {
    WithdrawEvent {
        stealth_owner: accounts.stealth_owner.key,
        mint: accounts.mint,
        amount,
        destination: accounts.destination_ata.address,
    }
}

/// The receiver's account after `debited` is what the transfer left of it:
/// closed if nothing is left, untouched otherwise.
pub open spec fn closed_if_empty(debited: TokenAccount) -> TokenAccount {
    if debited.amount == 0 {
        debited.closed()
    } else {
        debited
    }
}

/// What a withdrawal does: the accounts afterwards and the record to log,
/// or the failure.
pub open spec fn withdraw_outcome(accounts: Withdraw, args: WithdrawArgs) -> Result<
    (Withdraw, WithdrawEvent),
    Failure<StealthError>,
> {
    match withdraw_check(accounts, args) {
        Err(e) => Err(Failure::Rejected(e)),
        Ok(amount) => match transfer_outcome(
            accounts.stealth_ata,
            accounts.destination_ata,
            accounts.stealth_owner.key,
            amount,
        ) {
            Err(e) => Err(Failure::Token(e)),
            Ok((debited, credited)) => Ok(
                (
                    Withdraw {
                        stealth_ata: closed_if_empty(debited),
                        destination_ata: credited,
                        ..accounts
                    },
                    withdraw_record(accounts, amount),
                ),
            ),
        },
    }
}

/// Checks the amount of a payment and returns the record to log once the
/// funds have moved.
pub fn check_pay(accounts: &Pay, args: &PayArgs) -> (result: Result<PaymentEvent, StealthError>)
    ensures
        args.amount == 0 ==> result == Err::<PaymentEvent, StealthError>(
            StealthError::InvalidAmount,
        ),
        args.amount != 0 ==> result == Ok::<PaymentEvent, StealthError>(
            payment_record(
                accounts.stealth_owner.key,
                accounts.payer.key,
                accounts.mint,
                args.amount,
                args.label,
                args.eph_pubkey,
                false,
            ),
        ),
{
    if args.amount == 0 {
        return Err(StealthError::InvalidAmount);
    }
    Ok(
        PaymentEvent {
            stealth_owner: accounts.stealth_owner.key,
            payer: accounts.payer.key,
            mint: accounts.mint,
            amount: args.amount,
            label: args.label,
            eph_pubkey: args.eph_pubkey,
            announce: false,
        },
    )
}

/// Moves `args.amount` from the payer's token account to the receiver's,
/// creating the latter if it is absent, and returns the record to log.
pub fn handle_pay(accounts: &mut Pay, args: PayArgs) -> (result: Result<
    PaymentEvent,
    Failure<StealthError>,
>)
    requires
        old(accounts).wf(),
    ensures
        match pay_outcome(*old(accounts), args) {
            Ok((after, event)) => result == Ok::<PaymentEvent, Failure<StealthError>>(event)
                && *final(accounts) == after,
            Err(e) => result == Err::<PaymentEvent, Failure<StealthError>>(e) && *final(accounts)
                == *old(accounts),
        },
        final(accounts).wf(),
{
    let event = match check_pay(accounts, &args) {
        Err(e) => {
            return Err(Failure::Rejected(e));
        },
        Ok(event) => event,
    };
    let mut payer_ata = accounts.payer_ata;
    let mut stealth_ata = accounts.stealth_ata;
    stealth_ata.open = true;
    match transfer(&mut payer_ata, &mut stealth_ata, &accounts.payer.key, args.amount) {
        Err(e) => Err(Failure::Token(e)),
        Ok(()) => {
            accounts.payer_ata = payer_ata;
            accounts.stealth_ata = stealth_ata;
            Ok(event)
        },
    }
}

/// Resolves the sweep sentinel against the live balance.
pub fn resolve_amount(requested: u64, balance: u64) -> (amount: u64)
    ensures
        amount == sweep_amount(requested, balance),
{
    if requested == u64::MAX {
        balance
    } else {
        requested
    }
}

/// Runs the checks of a withdrawal and returns the record to log once the
/// funds have moved; its `amount` is the amount to move.
pub fn check_withdraw(accounts: &Withdraw, args: &WithdrawArgs) -> (result: Result<
    WithdrawEvent,
    StealthError,
>)
    ensures
        match withdraw_check(*accounts, *args) {
            Ok(amount) => result == Ok::<WithdrawEvent, StealthError>(
                withdraw_record(*accounts, amount),
            ),
            Err(e) => result == Err::<WithdrawEvent, StealthError>(e),
        },
{
    if accounts.stealth_ata.address.same(&accounts.destination_ata.address) {
        return Err(StealthError::SameAccount);
    }
    let balance = accounts.stealth_ata.amount;
    let amount = resolve_amount(args.amount, balance);
    if amount == 0 || amount > balance {
        return Err(StealthError::InvalidAmount);
    }
    if !accounts.destination_ata.owner.same(&accounts.stealth_owner.key) {
        return Err(StealthError::DestinationOwnerMismatch);
    }
    Ok(
        WithdrawEvent {
            stealth_owner: accounts.stealth_owner.key,
            mint: accounts.mint,
            amount,
            destination: accounts.destination_ata.address,
        },
    )
}

/// Whether the receiver's account is closed, given the balance read back
/// after the transfer.
pub fn should_close(balance_after: u64) -> (close: bool)
    ensures
        close == (balance_after == 0),
{
    balance_after == 0
}

/// Sweeps `args.amount` (or everything, for `u64::MAX`) from the receiver's
/// token account to a destination the receiver owns, closes the receiver's
/// account if that emptied it, and returns the record to log.
pub fn handle_withdraw(accounts: &mut Withdraw, args: WithdrawArgs) -> (result: Result<
    WithdrawEvent,
    Failure<StealthError>,
>)
    requires
        old(accounts).wf(),
    ensures
        match withdraw_outcome(*old(accounts), args) {
            Ok((after, event)) => result == Ok::<WithdrawEvent, Failure<StealthError>>(event)
                && *final(accounts) == after,
            Err(e) => result == Err::<WithdrawEvent, Failure<StealthError>>(e) && *final(accounts)
                == *old(accounts),
        },
        final(accounts).stealth_ata.wf(),
        final(accounts).destination_ata.wf(),
{
    let event = match check_withdraw(accounts, &args) {
        Err(e) => {
            return Err(Failure::Rejected(e));
        },
        Ok(event) => event,
    };
    let mut stealth_ata = accounts.stealth_ata;
    let mut destination_ata = accounts.destination_ata;
    match transfer(
        &mut stealth_ata,
        &mut destination_ata,
        &accounts.stealth_owner.key,
        event.amount,
    ) {
        Err(e) => {
            return Err(Failure::Token(e));
        },
        Ok(()) => {},
    }
    if should_close(stealth_ata.amount) {
        match close_account(&mut stealth_ata, &accounts.stealth_owner.key) {
            Err(e) => {
                return Err(Failure::Token(e));
            },
            Ok(()) => {},
        }
    }
    accounts.stealth_ata = stealth_ata;
    accounts.destination_ata = destination_ata;
    Ok(event)
}

/// Publishes the discovery data of a payment made by other means: no funds
/// move, and the record carries `announce = true`.
pub fn handle_announce(accounts: &Announce, args: AnnounceArgs) -> (result: Result<
    PaymentEvent,
    StealthError,
>)
    ensures
        result == announce_outcome(*accounts, args),
{
    if args.amount == 0 {
        return Err(StealthError::InvalidAmount);
    }
    Ok(
        PaymentEvent {
            stealth_owner: accounts.stealth_owner.key,
            payer: accounts.payer.key,
            mint: accounts.mint,
            amount: args.amount,
            label: args.label,
            eph_pubkey: args.eph_pubkey,
            announce: true,
        },
    )
}

/// Entry point of a payment.
pub fn pay(accounts: &mut Pay, args: PayArgs) -> (result: Result<
    PaymentEvent,
    Failure<StealthError>,
>)
    requires
        old(accounts).wf(),
    ensures
        match pay_outcome(*old(accounts), args) {
            Ok((after, event)) => result == Ok::<PaymentEvent, Failure<StealthError>>(event)
                && *final(accounts) == after,
            Err(e) => result == Err::<PaymentEvent, Failure<StealthError>>(e) && *final(accounts)
                == *old(accounts),
        },
        final(accounts).wf(),
{
    handle_pay(accounts, args)
}

/// Entry point of a withdrawal.
pub fn withdraw(accounts: &mut Withdraw, args: WithdrawArgs) -> (result: Result<
    WithdrawEvent,
    Failure<StealthError>,
>)
    requires
        old(accounts).wf(),
    ensures
        match withdraw_outcome(*old(accounts), args) {
            Ok((after, event)) => result == Ok::<WithdrawEvent, Failure<StealthError>>(event)
                && *final(accounts) == after,
            Err(e) => result == Err::<WithdrawEvent, Failure<StealthError>>(e) && *final(accounts)
                == *old(accounts),
        },
        final(accounts).stealth_ata.wf(),
        final(accounts).destination_ata.wf(),
{
    handle_withdraw(accounts, args)
}

/// Entry point of an announcement.
pub fn announce(accounts: &Announce, args: AnnounceArgs) -> (result: Result<
    PaymentEvent,
    StealthError,
>)
    ensures
        result == announce_outcome(*accounts, args),
{
    handle_announce(accounts, args)
}

/// A payment of a positive amount into an absent or empty receiver account,
/// followed by a withdrawal of the same amount to another account that the
/// receiver owns, succeeds, moves exactly that amount, and leaves the
/// receiver's account empty and closed.
pub proof fn lemma_pay_then_withdraw_closes(
    accounts: Pay,
    args: PayArgs,
    destination_ata: TokenAccount,
)
    requires
        accounts.wf(),
        args.amount > 0,
        accounts.stealth_ata.amount == 0,
        accounts.payer_ata.address != accounts.stealth_ata.address,
        pay_outcome(accounts, args) is Ok,
        destination_ata.open,
        destination_ata.owner == accounts.stealth_owner.key,
        destination_ata.mint == accounts.mint,
        destination_ata.address != accounts.stealth_ata.address,
        destination_ata.amount + args.amount <= u64::MAX,
    ensures
        ({
            let paid = pay_outcome(accounts, args)->Ok_0.0;
            let sweep = Withdraw {
                stealth_owner: VerifiedSigner { key: accounts.stealth_owner.key },
                stealth_ata: paid.stealth_ata,
                destination_ata,
                mint: accounts.mint,
            };
            let outcome = withdraw_outcome(sweep, WithdrawArgs { amount: args.amount });
            &&& sweep.wf()
            &&& outcome is Ok
            &&& outcome->Ok_0.0.stealth_ata.amount == 0
            &&& !outcome->Ok_0.0.stealth_ata.open
            &&& outcome->Ok_0.0.destination_ata.amount == destination_ata.amount + args.amount
            &&& outcome->Ok_0.1.amount == args.amount
        }),
{
}

/// A withdrawal never moves more than the receiver's account held before
/// the call, and a sweep (`u64::MAX`) that succeeds moves exactly that
/// balance: the account ends empty and closed, and the destination holds
/// that much more.
pub proof fn lemma_sweep_moves_balance(accounts: Withdraw, args: WithdrawArgs)
    requires
        accounts.wf(),
    ensures
        match withdraw_outcome(accounts, args) {
            Ok((after, event)) => {
                &&& 0 < event.amount <= accounts.stealth_ata.amount
                &&& after.stealth_ata.amount == accounts.stealth_ata.amount - event.amount
                &&& after.destination_ata.amount == accounts.destination_ata.amount + event.amount
                &&& after.stealth_ata.open == (event.amount < accounts.stealth_ata.amount)
                &&& args.amount == u64::MAX ==> event.amount == accounts.stealth_ata.amount
                    && !after.stealth_ata.open
            },
            Err(_) => true,
        },
{
}

/// A withdrawal towards a token account that the stealth owner does not own
/// never succeeds, whatever the amount and the balance; where the accounts
/// differ and the resolved amount is positive and within the balance, the
/// failure is `DestinationOwnerMismatch`.
pub proof fn lemma_foreign_destination_rejected(accounts: Withdraw, args: WithdrawArgs)
    requires
        accounts.destination_ata.owner != accounts.stealth_owner.key,
    ensures
        withdraw_outcome(accounts, args) is Err,
        withdraw_outcome(accounts, args)->Err_0 is Rejected,
        ({
            let balance = accounts.stealth_ata.amount;
            let amount = sweep_amount(args.amount, balance);
            accounts.stealth_ata.address != accounts.destination_ata.address && 0 < amount
                <= balance
        }) ==> withdraw_outcome(accounts, args) == Err::<
            (Withdraw, WithdrawEvent),
            Failure<StealthError>,
        >(Failure::Rejected(StealthError::DestinationOwnerMismatch)),
{
}

/// A withdrawal whose source and destination are the same token account
/// fails with `SameAccount`, whatever the amount.
pub proof fn lemma_same_account_rejected(accounts: Withdraw, args: WithdrawArgs)
    requires
        accounts.stealth_ata.address == accounts.destination_ata.address,
    ensures
        withdraw_outcome(accounts, args) == Err::<(Withdraw, WithdrawEvent), Failure<StealthError>>(
            Failure::Rejected(StealthError::SameAccount),
        ),
{
}

/// There is one receiver account for each stealth owner and mint: two sets
/// of accounts that the ledger loaded for the same owner and mint name the
/// same receiver account.
pub proof fn lemma_one_receiver_account(first: Pay, second: Pay)
    requires
        first.loaded(),
        second.loaded(),
        first.stealth_owner == second.stealth_owner,
        first.mint == second.mint,
    ensures
        first.stealth_ata.address == second.stealth_ata.address,
{
    assert(first.stealth_ata.address.bytes =~= second.stealth_ata.address.bytes);
}

/// Two payments in a row to the same receiver land in the same token
/// account: after both it is open and holds what it held before plus both
/// amounts.
pub proof fn lemma_payments_accumulate(accounts: Pay, first: PayArgs, second: PayArgs)
    requires
        accounts.wf(),
        accounts.payer_ata.address != accounts.stealth_ata.address,
        pay_outcome(accounts, first) is Ok,
        pay_outcome(pay_outcome(accounts, first)->Ok_0.0, second) is Ok,
    ensures
        ({
            let once = pay_outcome(accounts, first)->Ok_0.0;
            let twice = pay_outcome(once, second)->Ok_0.0;
            &&& once.wf()
            &&& twice.stealth_ata.open
            &&& twice.stealth_ata.address == accounts.stealth_ata.address
            &&& twice.stealth_ata.amount == accounts.stealth_ata.amount + first.amount
                + second.amount
            &&& twice.payer_ata.amount == accounts.payer_ata.amount - first.amount - second.amount
        }),
{
}

} // verus!
