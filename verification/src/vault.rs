//! The yield vault: one pooled token account, and for each depositor a
//! position that accrues simple interest at a fixed annual rate.

use vstd::prelude::*;
use crate::address::{find_program_address, program_address};
use crate::identity::{Identity, VerifiedSigner};
use crate::token::{transfer, transfer_outcome, Failure, TokenAccount};

verus! {

/// The annual rate, 4%, as a fraction.
pub const RATE_NUM: u128 = 4;

pub const RATE_DEN: u128 = 100;

pub const SECS_PER_YEAR: u128 = 31_536_000;

/// Internal units per native unit: positions count in 18 decimals, the token
/// in 6.
pub const DECIMALS_SHIFT: u128 = 1_000_000_000_000;

/// The one rule a vault call can break.
#[derive(Clone, Copy, Debug, PartialEq, Eq, Structural)]
pub enum ErrorCode {
    /// A deposit of nothing, or a withdrawal from a position worth nothing.
    InvalidAmount,
}

/// The right to sign for the pool as the vault program's seed-derived
/// authority. The only way to one is `ProgramAuthority::derive`, so whoever
/// holds one holds the address that the ledger derives for the program.
#[derive(Clone, Copy, Debug, PartialEq, Eq)]
pub struct ProgramAuthority {
    program: Identity,
    key: Identity,
    bump: u8,
}

/// A depositor's claim on the pool.
#[derive(Clone, Copy, Debug, PartialEq, Eq)]
pub struct Position {
    pub owner: Identity,
    /// Principal and folded-in interest, in internal units.
    pub amount: u128,
    /// Unix seconds of the last accrual checkpoint.
    pub last_ts: i64,
}

/// The accounts of a deposit.
#[derive(Clone, Copy, Debug, PartialEq, Eq)]
pub struct Deposit {
    /// Where the position record is stored.
    pub position_address: Identity,
    /// The position; one that was just created holds nothing.
    pub position: Position,
    pub owner: VerifiedSigner,
    /// The owner's token account that funds the deposit.
    pub src: TokenAccount,
    /// The pooled token account.
    pub vault: TokenAccount,
    pub program_authority: ProgramAuthority,
    pub mint: Identity,
}

/// The accounts of a withdrawal and of a balance query.
#[derive(Clone, Copy, Debug, PartialEq, Eq)]
pub struct Withdraw {
    pub position: Position,
    pub owner: VerifiedSigner,
    /// The owner's token account that receives the payout.
    pub dst: TokenAccount,
    /// The pooled token account.
    pub vault: TokenAccount,
    pub program_authority: ProgramAuthority,
    pub mint: Identity,
}

/// The accounts of a checkpoint patch.
#[derive(Clone, Copy, Debug, PartialEq, Eq)]
pub struct AdminPatch {
    pub position: Position,
    pub owner: VerifiedSigner,
}

/// The seed of the program authority: the bytes of `auth`.
pub open spec fn authority_seed() -> Seq<u8> {
    seq![97u8, 117u8, 116u8, 104u8]
}

/// The first seed of a position: the bytes of `vpos`.
pub open spec fn position_seed() -> Seq<u8> {
    seq![118u8, 112u8, 111u8, 115u8]
}

/// The address and bump seed of the authority of the program at `program`.
pub open spec fn authority_address(program: Identity) -> Option<(Seq<u8>, u8)> {
    program_address(seq![authority_seed()], program.bytes@)
}

/// The address and bump seed of the position of `owner` for `mint` under
/// the program at `program`: one position for each owner and mint.
pub open spec fn position_address_of(owner: Identity, mint: Identity, program: Identity) -> Option<
    (Seq<u8>, u8),
> {
    program_address(seq![position_seed(), owner.bytes@, mint.bytes@], program.bytes@)
}

impl ProgramAuthority {
    #[verifier::type_invariant]
    spec fn derived(self) -> bool {
        authority_address(self.program) == Some((self.key.bytes@, self.bump))
    }

    /// The program the authority signs for.
    pub closed spec fn program(self) -> Identity {
        self.program
    }

    /// The authority's address.
    pub closed spec fn key(self) -> Identity {
        self.key
    }

    /// The bump seed the address was found with.
    pub closed spec fn bump(self) -> u8 {
        self.bump
    }

    /// Derives the authority of the program at `program`; `None` where the
    /// ledger finds no address for it.
    pub fn derive(program: &Identity) -> (authority: Option<ProgramAuthority>)
        ensures
            match authority {
                Some(a) => a.program() == *program && authority_address(*program) == Some(
                    (a.key().bytes@, a.bump()),
                ),
                None => authority_address(*program) is None,
            },
    {
        let mut seed: Vec<u8> = Vec::new();
        seed.push(97);
        seed.push(117);
        seed.push(116);
        seed.push(104);
        let mut seeds: Vec<Vec<u8>> = Vec::new();
        seeds.push(seed);
        assert(seeds.deep_view() =~~= seq![authority_seed()]);
        match find_program_address(&seeds, &program.bytes) {
            None => None,
            Some((key, bump)) => Some(
                ProgramAuthority { program: *program, key: Identity { bytes: key }, bump },
            ),
        }
    }

    /// The program the authority signs for.
    pub fn program_id(&self) -> (program: Identity)
        ensures
            program == self.program(),
    {
        self.program
    }

    /// The authority's address.
    pub fn address(&self) -> (key: Identity)
        ensures
            key == self.key(),
            authority_address(self.program()) == Some((key.bytes@, self.bump())),
    {
        proof {
            use_type_invariant(self);
        }
        self.key
    }

    /// The bump seed to sign with.
    pub fn bump_seed(&self) -> (bump: u8)
        ensures
            bump == self.bump(),
            authority_address(self.program()) == Some((self.key().bytes@, bump)),
    {
        proof {
            use_type_invariant(self);
        }
        self.bump
    }
}

/// Derives the address of the position of `owner` for `mint` under the
/// program at `program`, with its bump seed.
pub fn position_address(owner: &Identity, mint: &Identity, program: &Identity) -> (found: Option<
    (Identity, u8),
>)
    ensures
        match found {
            Some((address, bump)) => position_address_of(*owner, *mint, *program) == Some(
                (address.bytes@, bump),
            ),
            None => position_address_of(*owner, *mint, *program) is None,
        },
{
    let mut seed: Vec<u8> = Vec::new();
    seed.push(118);
    seed.push(112);
    seed.push(111);
    seed.push(115);
    let mut seeds: Vec<Vec<u8>> = Vec::new();
    seeds.push(seed);
    seeds.push(owner.to_vec());
    seeds.push(mint.to_vec());
    assert(seeds.deep_view() =~~= seq![position_seed(), owner.bytes@, mint.bytes@]);
    match find_program_address(&seeds, &program.bytes) {
        None => None,
        Some((key, bump)) => Some((Identity { bytes: key }, bump)),
    }
}

/// Seconds from `start` to `now`, and none if the clock ran backwards.
pub open spec fn elapsed_seconds(start: i64, now: i64) -> nat {
    if now > start {
        (now - start) as nat
    } else {
        0
    }
}

/// The product of two numbers, capped at the largest `u128`.
pub open spec fn saturating_product(a: nat, b: nat) -> nat {
    if a * b > u128::MAX {
        u128::MAX as nat
    } else {
        a * b
    }
}

/// Simple interest on `amount` from `start` to `now`: the rate prorated by
/// the second, rounded down.
pub open spec fn interest(amount: u128, start: i64, now: i64) -> nat {
    saturating_product(
        saturating_product(amount as nat, RATE_NUM as nat),
        elapsed_seconds(start, now),
    ) / ((RATE_DEN * SECS_PER_YEAR) as nat)
}

/// `amount` with the interest it earned from `start` to `now`.
pub open spec fn accrued_total(amount: u128, start: i64, now: i64) -> nat {
    amount as nat + interest(amount, start, now)
}

/// Native units in internal units.
pub open spec fn internal_units(native: u64) -> nat {
    native as nat * DECIMALS_SHIFT as nat
}

/// Internal units in native units, rounded down.
pub open spec fn native_units(internal: u128) -> nat {
    internal as nat / DECIMALS_SHIFT as nat
}

/// `a * b`, or `u128::MAX` where the product does not fit.
pub fn mul_saturating(a: u128, b: u128) -> (product: u128)
    ensures
        product == saturating_product(a as nat, b as nat),
{
    match a.checked_mul(b) {
        Some(product) => product,
        None => u128::MAX,
    }
}

/// The seconds that interest is owed for.
pub fn elapsed(start: i64, now: i64) -> (dt: u128)
    ensures
        dt == elapsed_seconds(start, now),
{
    if now > start {
        let wide: i128 = (now as i128) - (start as i128);
        wide as u128
    } else {
        0
    }
}

/// The interest part of the accrual.
pub fn yield_part(amount: u128, start: i64, now: i64) -> (part: u128)
    ensures
        part == interest(amount, start, now),
{
    let dt = elapsed(start, now);
    let divisor: u128 = RATE_DEN * SECS_PER_YEAR;
    mul_saturating(mul_saturating(amount, RATE_NUM), dt) / divisor
}

/// `amount` with its interest, or `None` where the sum does not fit in a
/// `u128`.
pub fn checked_accrued(amount: u128, start: i64, now: i64) -> (total: Option<u128>)
    ensures
        match total {
            Some(t) => t == accrued_total(amount, start, now),
            None => accrued_total(amount, start, now) > u128::MAX,
        },
{
    amount.checked_add(yield_part(amount, start, now))
}

/// `amount` with the simple interest it earned from `start` to `now`.
pub fn accrued(amount: u128, start: i64, now: i64) -> (total: u128)
    requires
        accrued_total(amount, start, now) <= u128::MAX,
    ensures
        total == accrued_total(amount, start, now),
{
    amount + yield_part(amount, start, now)
}

/// Converts native token units to the internal scale.
pub fn to_internal_scale(native: u64) -> (internal: u128)
    ensures
        internal == internal_units(native),
{
    (native as u128) * DECIMALS_SHIFT
}

/// Converts internal units to native token units, rounding down: what is
/// lost is less than one native unit. `None` where the native amount does
/// not fit in the 64 bits the token service takes.
pub fn to_native_scale(internal: u128) -> (native: Option<u64>)
    ensures
        match native {
            Some(n) => n == native_units(internal) && n * DECIMALS_SHIFT <= internal < (n + 1)
                * DECIMALS_SHIFT,
            None => native_units(internal) > u64::MAX,
        },
{
    let quotient: u128 = internal / DECIMALS_SHIFT;
    if quotient > 0xffff_ffff_ffff_ffffu128 {
        None
    } else {
        Some(quotient as u64)
    }
}

impl Position {
    /// A position nobody has deposited into yet.
    pub fn empty(owner: Identity) -> (position: Position)
        ensures
            position == (Position { owner, amount: 0, last_ts: 0 }),
    {
        Position { owner, amount: 0, last_ts: 0 }
    }

    /// What the position is worth at `now`.
    pub open spec fn value_at(self, now: i64) -> nat {
        accrued_total(self.amount, self.last_ts, now)
    }

    /// Whether a deposit of `amount` at `now` keeps the position within a
    /// `u128`.
    pub open spec fn can_take(self, amount: u64, now: i64) -> bool {
        self.value_at(now) + internal_units(amount) <= u128::MAX
    }

    /// The position after a deposit of `amount` by `owner` at `now`: the
    /// interest earned so far is folded in, the deposit is added at the
    /// internal scale, and the checkpoint moves to `now`.
    pub open spec fn credited(self, owner: Identity, amount: u64, now: i64) -> Position {
        Position {
            owner,
            amount: (self.value_at(now) + internal_units(amount)) as u128,
            last_ts: now,
        }
    }

    /// The position after a full withdrawal at `now`.
    pub open spec fn emptied(self, now: i64) -> Position {
        Position { amount: 0, last_ts: now, ..self }
    }

    /// What the position is worth at `now`, or `None` where that does not
    /// fit in a `u128`.
    pub fn balance(&self, now: i64) -> (total: Option<u128>)
        ensures
            match total {
                Some(t) => t == self.value_at(now),
                None => self.value_at(now) > u128::MAX,
            },
    {
        checked_accrued(self.amount, self.last_ts, now)
    }

    /// What settling the position at `now` gives: the emptied position and
    /// the native amount to pay out for it, which is its value rounded down
    /// to native units. A value beyond `u128`, or a native amount beyond
    /// `u64`, cannot be computed, and a position worth nothing cannot be
    /// settled.
    pub open spec fn settled(self, now: i64) -> Result<(Position, u64), Failure<ErrorCode>> {
        if self.value_at(now) > u128::MAX {
            Err(Failure::Arithmetic)
        } else if self.value_at(now) == 0 {
            Err(Failure::Rejected(ErrorCode::InvalidAmount))
        } else if native_units(self.value_at(now) as u128) > u64::MAX {
            Err(Failure::Arithmetic)
        } else {
            Ok((self.emptied(now), native_units(self.value_at(now) as u128) as u64))
        }
    }

    /// Settles the position at `now`.
    pub fn settle(&self, now: i64) -> (result: Result<(Position, u64), Failure<ErrorCode>>)
        ensures
            result == self.settled(now),
    {
        let total = match checked_accrued(self.amount, self.last_ts, now) {
            None => {
                return Err(Failure::Arithmetic);
            },
            Some(total) => total,
        };
        if total == 0 {
            return Err(Failure::Rejected(ErrorCode::InvalidAmount));
        }
        match to_native_scale(total) {
            None => Err(Failure::Arithmetic),
            Some(paid) => Ok((Position { owner: self.owner, amount: 0, last_ts: now }, paid)),
        }
    }

    /// The position after a deposit of `amount` by `owner` at `now`, or
    /// `None` where it would not fit in a `u128`.
    pub fn credit(&self, owner: Identity, amount: u64, now: i64) -> (next: Option<Position>)
        ensures
            match next {
                Some(p) => self.can_take(amount, now) && p == self.credited(owner, amount, now),
                None => !self.can_take(amount, now),
            },
    {
        match checked_accrued(self.amount, self.last_ts, now) {
            None => None,
            Some(current) => match current.checked_add(to_internal_scale(amount)) {
                None => None,
                Some(sum) => Some(Position { owner, amount: sum, last_ts: now }),
            },
        }
    }
}

impl Deposit {
    /// What the ledger guarantees of the accounts before the handler runs:
    /// the funding account exists, belongs to the signing owner and holds
    /// the mint; the pool exists, holds the mint and belongs to the program
    /// authority; and one address stands for one account.
    pub open spec fn wf(&self) -> bool {
        &&& self.src.wf()
        &&& self.vault.wf()
        &&& self.src.open
        &&& self.src.owner == self.owner.key
        &&& self.src.mint == self.mint
        &&& self.vault.open
        &&& self.vault.mint == self.mint
        &&& self.vault.owner == self.program_authority.key()
        &&& (self.src.address == self.vault.address ==> self.src == self.vault)
    }

    /// What the ledger checks when it loads the accounts: the constraints
    /// that the handler relies on, and that the position record sits at the
    /// one address derived for the owner and the mint.
    pub open spec fn loaded(&self) -> bool {
        &&& self.wf()
        &&& position_address_of(self.owner.key, self.mint, self.program_authority.program())
            matches Some((address, _)) && address == self.position_address.bytes@
    }

    /// Gathers the accounts of a deposit, given the address that was derived
    /// for the position: `None` where the accounts break a constraint or the
    /// position record sits elsewhere.
    pub fn assemble(
        derived: Option<Identity>,
        position_address: Identity,
        position: Position,
        owner: VerifiedSigner,
        src: TokenAccount,
        vault: TokenAccount,
        program_authority: ProgramAuthority,
        mint: Identity,
    ) -> (accounts: Option<Deposit>)
        ensures
            accounts.is_some() <==> (Deposit {
                position_address,
                position,
                owner,
                src,
                vault,
                program_authority,
                mint,
            }).wf() && derived == Some(position_address),
            accounts.is_some() ==> accounts.unwrap() == (Deposit {
                position_address,
                position,
                owner,
                src,
                vault,
                program_authority,
                mint,
            }),
    {
        let holds = src.open && vault.open && src.owner.same(&owner.key) && src.mint.same(&mint)
            && vault.mint.same(&mint) && vault.owner.same(&program_authority.address())
            && (!src.address.same(&vault.address) || src.same(&vault));
        match derived {
            None => None,
            Some(address) => {
                if holds && position_address.same(&address) {
                    Some(
                        Deposit {
                            position_address,
                            position,
                            owner,
                            src,
                            vault,
                            program_authority,
                            mint,
                        },
                    )
                } else {
                    None
                }
            },
        }
    }

    /// Gathers the accounts of a deposit as the ledger loads them, or `None`
    /// where they break a constraint.
    pub fn new(
        position_address: Identity,
        position: Position,
        owner: VerifiedSigner,
        src: TokenAccount,
        vault: TokenAccount,
        program_authority: ProgramAuthority,
        mint: Identity,
    ) -> (accounts: Option<Deposit>)
        ensures
            accounts.is_some() <==> (Deposit {
                position_address,
                position,
                owner,
                src,
                vault,
                program_authority,
                mint,
            }).loaded(),
            accounts.is_some() ==> accounts.unwrap() == (Deposit {
                position_address,
                position,
                owner,
                src,
                vault,
                program_authority,
                mint,
            }),
    {
        let derived = match self::position_address(
            &owner.key,
            &mint,
            &program_authority.program_id(),
        ) {
            None => None,
            Some((address, _)) => Some(address),
        };
        proof {
            if derived is Some && derived->Some_0.bytes@ == position_address.bytes@ {
                assert(derived->Some_0.bytes =~= position_address.bytes);
            }
        }
        Deposit::assemble(
            derived,
            position_address,
            position,
            owner,
            src,
            vault,
            program_authority,
            mint,
        )
    }
}

impl Withdraw {
    /// What the ledger guarantees of the accounts before the handler runs:
    /// the position belongs to the signing owner; the receiving account
    /// exists, belongs to the owner and holds the mint; the pool exists,
    /// holds the mint and belongs to the program authority; and one address
    /// stands for one account.
    pub open spec fn wf(&self) -> bool {
        &&& self.dst.wf()
        &&& self.vault.wf()
        &&& self.position.owner == self.owner.key
        &&& self.dst.open
        &&& self.dst.owner == self.owner.key
        &&& self.dst.mint == self.mint
        &&& self.vault.open
        &&& self.vault.mint == self.mint
        &&& self.vault.owner == self.program_authority.key()
        &&& (self.dst.address == self.vault.address ==> self.dst == self.vault)
    }

    /// Gathers the accounts of a withdrawal, or `None` where they break a
    /// constraint.
    pub fn new(
        position: Position,
        owner: VerifiedSigner,
        dst: TokenAccount,
        vault: TokenAccount,
        program_authority: ProgramAuthority,
        mint: Identity,
    ) -> (accounts: Option<Withdraw>)
        ensures
            accounts.is_some() <==> (Withdraw {
                position,
                owner,
                dst,
                vault,
                program_authority,
                mint,
            }).wf(),
            accounts.is_some() ==> accounts.unwrap() == (Withdraw {
                position,
                owner,
                dst,
                vault,
                program_authority,
                mint,
            }),
    {
        let holds = position.owner.same(&owner.key) && dst.open && vault.open && dst.owner.same(
            &owner.key,
        ) && dst.mint.same(&mint) && vault.mint.same(&mint) && vault.owner.same(
            &program_authority.address(),
        ) && (!dst.address.same(&vault.address) || dst.same(&vault));
        if holds {
            Some(Withdraw { position, owner, dst, vault, program_authority, mint })
        } else {
            None
        }
    }
}

impl AdminPatch {
    /// The position belongs to the signing owner.
    pub open spec fn wf(&self) -> bool {
        self.position.owner == self.owner.key
    }

    /// Gathers the accounts of a checkpoint patch, or `None` where the
    /// position is not the signer's.
    pub fn new(position: Position, owner: VerifiedSigner) -> (accounts: Option<AdminPatch>)
        ensures
            accounts.is_some() <==> position.owner == owner.key,
            accounts.is_some() ==> accounts.unwrap() == (AdminPatch { position, owner }),
    {
        if position.owner.same(&owner.key) {
            Some(AdminPatch { position, owner })
        } else {
            None
        }
    }
}

/// What a deposit does: the accounts afterwards, or the failure. A zero
/// amount is rejected; otherwise the token service moves the amount from the
/// owner's account into the pool and the position is credited, unless its
/// new amount would not fit in a `u128`.
pub open spec fn deposit_outcome(accounts: Deposit, amount: u64, now: i64) -> Result<
    Deposit,
    Failure<ErrorCode>,
> {
    if amount == 0 {
        Err(Failure::Rejected(ErrorCode::InvalidAmount))
    } else {
        match transfer_outcome(accounts.src, accounts.vault, accounts.owner.key, amount) {
            Err(e) => Err(Failure::Token(e)),
            Ok((debited, credited)) => if accounts.position.can_take(amount, now) {
                Ok(
                    Deposit {
                        position: accounts.position.credited(accounts.owner.key, amount, now),
                        src: debited,
                        vault: credited,
                        ..accounts
                    },
                )
            } else {
                Err(Failure::Arithmetic)
            },
        }
    }
}

/// What a withdrawal does: the accounts afterwards and the native amount
/// paid out, or the failure. A position worth nothing is rejected, and one
/// whose value or native amount cannot be computed fails; otherwise the
/// token service pays the whole value, rounded down to native units, out of
/// the pool under the program authority, and the position is emptied
/// whatever the rounding left over.
pub open spec fn withdraw_outcome(accounts: Withdraw, now: i64) -> Result<
    (Withdraw, u64),
    Failure<ErrorCode>,
> {
    match accounts.position.settled(now) {
        Err(e) => Err(e),
        Ok((emptied, paid)) => match transfer_outcome(
            accounts.vault,
            accounts.dst,
            accounts.program_authority.key(),
            paid,
        ) {
            Err(e) => Err(Failure::Token(e)),
            Ok((debited, credited)) => Ok(
                (Withdraw { position: emptied, vault: debited, dst: credited, ..accounts }, paid),
            ),
        },
    }
}

/// Checks the amount of a deposit and converts it to the internal scale.
pub fn deposit_amount(amount: u64) -> (result: Result<u128, ErrorCode>)
    ensures
        amount == 0 ==> result == Err::<u128, ErrorCode>(ErrorCode::InvalidAmount),
        amount != 0 ==> result == Ok::<u128, ErrorCode>(internal_units(amount) as u128),
{
    if amount == 0 {
        return Err(ErrorCode::InvalidAmount);
    }
    Ok(to_internal_scale(amount))
}

/// Deposits `amount` native units at time `now`.
pub fn deposit(accounts: &mut Deposit, amount: u64, now: i64) -> (result: Result<
    (),
    Failure<ErrorCode>,
>)
    requires
        old(accounts).wf(),
    ensures
        match deposit_outcome(*old(accounts), amount, now) {
            Ok(after) => result.is_ok() && *final(accounts) == after,
            Err(e) => result == Err::<(), Failure<ErrorCode>>(e) && *final(accounts) == *old(accounts),
        },
        final(accounts).wf(),
{
    match deposit_amount(amount) {
        Err(e) => {
            return Err(Failure::Rejected(e));
        },
        Ok(_) => {},
    }
    let mut src = accounts.src;
    let mut vault = accounts.vault;
    match transfer(&mut src, &mut vault, &accounts.owner.key, amount) {
        Err(e) => {
            return Err(Failure::Token(e));
        },
        Ok(()) => {},
    }
    match accounts.position.credit(accounts.owner.key, amount, now) {
        None => Err(Failure::Arithmetic),
        Some(next) => {
            accounts.position = next;
            accounts.src = src;
            accounts.vault = vault;
            Ok(())
        },
    }
}

/// Pays out the whole position at time `now` and returns the native amount
/// that left the pool.
pub fn withdraw(accounts: &mut Withdraw, now: i64) -> (result: Result<u64, Failure<ErrorCode>>)
    requires
        old(accounts).wf(),
    ensures
        match withdraw_outcome(*old(accounts), now) {
            Ok((after, paid)) => result == Ok::<u64, Failure<ErrorCode>>(paid) && *final(accounts)
                == after,
            Err(e) => result == Err::<u64, Failure<ErrorCode>>(e) && *final(accounts) == *old(accounts),
        },
        final(accounts).wf(),
{
    let (emptied, paid) = match accounts.position.settle(now) {
        Err(e) => {
            return Err(e);
        },
        Ok(settled) => settled,
    };
    let mut vault = accounts.vault;
    let mut dst = accounts.dst;
    match transfer(&mut vault, &mut dst, &accounts.program_authority.address(), paid) {
        Err(e) => {
            return Err(Failure::Token(e));
        },
        Ok(()) => {},
    }
    accounts.position = emptied;
    accounts.vault = vault;
    accounts.dst = dst;
    Ok(paid)
}

/// What the position is worth at `now`, or `None` where that does not fit
/// in a `u128`; nothing changes.
pub fn get_balance(accounts: &Withdraw, now: i64) -> (balance: Option<u128>)
    ensures
        match balance {
            Some(b) => b == accounts.position.value_at(now),
            None => accounts.position.value_at(now) > u128::MAX,
        },
{
    accounts.position.balance(now)
}

/// Overwrites the accrual checkpoint, without any bound. For development
/// only: an owner who rewinds the checkpoint manufactures interest.
pub fn admin_patch_timestamp(accounts: &mut AdminPatch, new_ts: i64)
    ensures
        *final(accounts) == (AdminPatch {
            position: Position { last_ts: new_ts, ..old(accounts).position },
            owner: old(accounts).owner,
        }),
{
    accounts.position.last_ts = new_ts;
}

/// With no time elapsed there is no interest.
pub proof fn lemma_no_time_no_interest(amount: u128, t: i64)
    ensures
        accrued_total(amount, t, t) == amount,
{
    lemma_idle_product(saturating_product(amount as nat, RATE_NUM as nat));
}

/// A position that holds nothing earns nothing, however long it waits.
pub proof fn lemma_nothing_earns_nothing(start: i64, now: i64)
    ensures
        accrued_total(0, start, now) == 0,
{
    let dt = elapsed_seconds(start, now);
    assert(0 * RATE_NUM as nat == 0);
    assert(0 * dt == 0) by (nonlinear_arith);
}

/// Interest is never negative, and a clock that ran backwards earns none.
pub proof fn lemma_interest_never_negative(amount: u128, start: i64, now: i64)
    ensures
        accrued_total(amount, start, now) >= amount,
        now <= start ==> accrued_total(amount, start, now) == amount,
{
    if now <= start {
        lemma_idle_product(saturating_product(amount as nat, RATE_NUM as nat));
    }
}

/// Nothing times anything is nothing, capped or not.
proof fn lemma_idle_product(rated: nat)
    ensures
        saturating_product(rated, 0) == 0,
        saturating_product(rated, 0) / ((RATE_DEN * SECS_PER_YEAR) as nat) == 0,
{
    assert(rated * 0 == 0) by (nonlinear_arith);
}

/// The value of a position never falls as time passes.
pub proof fn lemma_value_grows_with_time(amount: u128, start: i64, earlier: i64, later: i64)
    requires
        earlier <= later,
    ensures
        accrued_total(amount, start, earlier) <= accrued_total(amount, start, later),
{
    let rated = saturating_product(amount as nat, RATE_NUM as nat);
    let dt1 = elapsed_seconds(start, earlier);
    let dt2 = elapsed_seconds(start, later);
    assert(rated * dt1 <= rated * dt2) by (nonlinear_arith)
        requires
            dt1 <= dt2,
    ;
    let capped_earlier = saturating_product(rated, dt1);
    let capped_later = saturating_product(rated, dt2);
    assert(capped_earlier <= capped_later);
    let d = (RATE_DEN * SECS_PER_YEAR) as nat;
    assert(d == 3_153_600_000);
    assert(capped_earlier / 3_153_600_000 <= capped_later / 3_153_600_000);
}

/// After exactly one year a position has earned the annual rate on its
/// amount, rounded down, as long as the products involved fit in a `u128`.
pub proof fn lemma_one_year_earns_the_rate(amount: u128, start: i64)
    requires
        amount * RATE_NUM * SECS_PER_YEAR <= u128::MAX,
        start + SECS_PER_YEAR <= i64::MAX,
    ensures
        accrued_total(amount, start, (start + SECS_PER_YEAR) as i64) == amount + (amount
            * RATE_NUM) / (RATE_DEN as int),
{
    let x = amount as nat * 4;
    assert(elapsed_seconds(start, (start + SECS_PER_YEAR) as i64) == 31_536_000);
    assert(x * 31_536_000 <= u128::MAX);
    assert(saturating_product(amount as nat, RATE_NUM as nat) == x);
    assert(saturating_product(x, 31_536_000) == x * 31_536_000);
    assert((x * 31_536_000) / 3_153_600_000 == x / 100);
}

/// Downscaling rounds down and loses less than one native unit.
pub proof fn lemma_downscale_loss(internal: u128)
    ensures
        native_units(internal) * DECIMALS_SHIFT <= internal,
        internal - native_units(internal) * DECIMALS_SHIFT < DECIMALS_SHIFT,
{
}

/// Upscaling then downscaling gives back the native amount.
pub proof fn lemma_scale_round_trip(native: u64)
    ensures
        internal_units(native) <= u128::MAX,
        native_units(internal_units(native) as u128) == native,
{
}

/// There is one position for each owner and mint: two sets of accounts that
/// the ledger loaded for the same owner, mint and program name the same
/// position record.
pub proof fn lemma_one_position(first: Deposit, second: Deposit)
    requires
        first.loaded(),
        second.loaded(),
        first.owner == second.owner,
        first.mint == second.mint,
        first.program_authority.program() == second.program_authority.program(),
    ensures
        first.position_address == second.position_address,
{
    assert(first.position_address.bytes =~= second.position_address.bytes);
}

/// A deposit that succeeds moves the amount from the owner's account into
/// the pool, records the owner, moves the checkpoint to `now`, and leaves the
/// position worth what it was worth at `now` plus the deposit: never less
/// than it held before.
pub proof fn lemma_deposit_raises_position(accounts: Deposit, amount: u64, now: i64)
    requires
        accounts.wf(),
        deposit_outcome(accounts, amount, now) is Ok,
    ensures
        ({
            let after = deposit_outcome(accounts, amount, now)->Ok_0;
            &&& amount > 0
            &&& after.position.owner == accounts.owner.key
            &&& after.position.last_ts == now
            &&& after.position.amount == accounts.position.value_at(now) + internal_units(amount)
            &&& after.position.amount >= accounts.position.amount + internal_units(amount)
            &&& after.src.amount + after.vault.amount == accounts.src.amount
                + accounts.vault.amount
            &&& accounts.src.address != accounts.vault.address ==> after.vault.amount
                == accounts.vault.amount + amount
        }),
{
    lemma_interest_never_negative(accounts.position.amount, accounts.position.last_ts, now);
}

/// A withdrawal that succeeds pays the whole value of the position, rounded
/// down to native units and so short of it by less than one native unit, out
/// of the pool, and leaves the position at zero with its checkpoint at
/// `now`.
pub proof fn lemma_withdraw_empties_position(accounts: Withdraw, now: i64)
    requires
        accounts.wf(),
        withdraw_outcome(accounts, now) is Ok,
    ensures
        ({
            let (after, paid) = withdraw_outcome(accounts, now)->Ok_0;
            let value = accounts.position.value_at(now);
            &&& 0 < value <= u128::MAX
            &&& paid == native_units(value as u128)
            &&& paid * DECIMALS_SHIFT <= value < (paid + 1) * DECIMALS_SHIFT
            &&& after.position == (Position {
                owner: accounts.position.owner,
                amount: 0,
                last_ts: now,
            })
            &&& after.dst.amount + after.vault.amount == accounts.dst.amount
                + accounts.vault.amount
            &&& accounts.dst.address != accounts.vault.address ==> after.dst.amount
                == accounts.dst.amount + paid
        }),
{
}

/// A withdrawal never pays less than the floor of the position's value: a
/// position worth more native units than the token service can move in one
/// transfer is not paid out in part, the call fails and nothing changes.
pub proof fn lemma_withdraw_never_truncates(accounts: Withdraw, now: i64)
    requires
        accounts.position.value_at(now) <= u128::MAX,
        native_units(accounts.position.value_at(now) as u128) > u64::MAX,
    ensures
        withdraw_outcome(accounts, now) == Err::<(Withdraw, u64), Failure<ErrorCode>>(
            Failure::Arithmetic,
        ),
{
}

/// A deposit of `amount` into an empty position, withdrawn at the same
/// instant: the withdrawal is not rejected, and if the token service lets it
/// through it pays out exactly `amount` and leaves the position at zero.
pub proof fn lemma_deposit_then_withdraw(
    accounts: Deposit,
    amount: u64,
    now: i64,
    dst: TokenAccount,
)
    requires
        accounts.wf(),
        accounts.position.amount == 0,
        amount > 0,
        deposit_outcome(accounts, amount, now) is Ok,
    ensures
        ({
            let after = deposit_outcome(accounts, amount, now)->Ok_0;
            let back = Withdraw {
                position: after.position,
                owner: accounts.owner,
                dst,
                vault: after.vault,
                program_authority: accounts.program_authority,
                mint: accounts.mint,
            };
            &&& after.position.amount == internal_units(amount)
            &&& after.position.value_at(now) == internal_units(amount)
            &&& match withdraw_outcome(back, now) {
                Ok((emptied, paid)) => paid == amount && emptied.position.amount == 0
                    && emptied.position.last_ts == now,
                Err(e) => e is Token,
            }
        }),
{
    let after = deposit_outcome(accounts, amount, now)->Ok_0;
    lemma_nothing_earns_nothing(accounts.position.last_ts, now);
    lemma_scale_round_trip(amount);
    assert(after.position.amount == internal_units(amount));
    lemma_no_time_no_interest(after.position.amount, now);
}

} // verus!
