use anchor_lang::prelude::Pubkey;
use pivy_stealth::identity::{Identity, VerifiedSigner};
use pivy_stealth::token::{Failure, TokenAccount, TokenError};
use pivy_stealth::vault::{
    accrued, admin_patch_timestamp, checked_accrued, deposit, deposit_amount, elapsed,
    get_balance, mul_saturating, position_address, to_internal_scale, to_native_scale, withdraw,
    yield_part, AdminPatch, Deposit, ErrorCode, Position, ProgramAuthority, Withdraw,
    DECIMALS_SHIFT, RATE_DEN, RATE_NUM, SECS_PER_YEAR,
};

fn id(n: u8) -> Identity {
    Identity::new([n; 32])
}

const OWNER: u8 = 1;
const MINT: u8 = 3;
const PROGRAM: u8 = 4;
const YEAR: i64 = 31_536_000;

fn authority() -> ProgramAuthority {
    ProgramAuthority::derive(&id(PROGRAM)).unwrap()
}

fn position_key() -> Identity {
    position_address(&id(OWNER), &id(MINT), &id(PROGRAM)).unwrap().0
}

fn deposit_accounts(position: Position, src_balance: u64, pool: u64) -> Deposit {
    Deposit::new(
        position_key(),
        position,
        VerifiedSigner::new(id(OWNER)),
        TokenAccount::new(id(21), id(OWNER), id(MINT), src_balance),
        TokenAccount::new(id(22), authority().address(), id(MINT), pool),
        authority(),
        id(MINT),
    )
    .unwrap()
}

fn withdraw_accounts(position: Position, dst_balance: u64, pool: u64) -> Withdraw {
    Withdraw::new(
        position,
        VerifiedSigner::new(id(OWNER)),
        TokenAccount::new(id(23), id(OWNER), id(MINT), dst_balance),
        TokenAccount::new(id(22), authority().address(), id(MINT), pool),
        authority(),
        id(MINT),
    )
    .unwrap()
}

#[test]
fn constants() {
    assert_eq!(RATE_NUM, 4);
    assert_eq!(RATE_DEN, 100);
    assert_eq!(SECS_PER_YEAR, 31_536_000);
    assert_eq!(DECIMALS_SHIFT, 1_000_000_000_000);
}

#[test]
fn accrued_with_no_time_is_the_amount() {
    for amount in [0u128, 1, 999, 1_000_000_000_000_000_000, u128::MAX] {
        for t in [i64::MIN, -5, 0, 1_700_000_000, i64::MAX] {
            assert_eq!(accrued(amount, t, t), amount);
        }
    }
}

#[test]
fn accrued_is_clamped_when_the_clock_runs_backwards() {
    assert_eq!(accrued(1_000, 100, 99), 1_000);
    assert_eq!(accrued(1_000, i64::MAX, i64::MIN), 1_000);
    assert_eq!(accrued(u128::MAX, 0, -1), u128::MAX);
    assert_eq!(elapsed(100, 99), 0);
    assert_eq!(elapsed(i64::MAX, i64::MIN), 0);
}

#[test]
fn accrued_is_never_below_the_amount() {
    for amount in [0u128, 1, 24, 25, 1_000_000_000_000_000_000] {
        for dt in [0i64, 1, 3_600, YEAR, 10 * YEAR] {
            assert!(accrued(amount, 1_000, 1_000 + dt) >= amount);
        }
    }
}

#[test]
fn accrued_exact_values() {
    // one year at 4%
    assert_eq!(accrued(100, 0, YEAR), 104);
    assert_eq!(accrued(1_000_000_000_000_000_000, 0, YEAR), 1_040_000_000_000_000_000);
    // half a year
    assert_eq!(accrued(1_000_000, 0, YEAR / 2), 1_020_000);
    // floor division: 99 * 4 / 100 = 3
    assert_eq!(accrued(99, 0, YEAR), 102);
    // one second on 10^18: 4 * 10^18 / 3_153_600_000 = 1_268_391_679 (floor)
    assert_eq!(accrued(1_000_000_000_000_000_000, 0, 1), 1_000_000_001_268_391_679);
    assert_eq!(yield_part(1_000_000_000_000_000_000, 0, 1), 1_268_391_679);
    // ten years, not compounded
    assert_eq!(accrued(1_000, 50, 50 + 10 * YEAR), 1_400);
}

#[test]
fn elapsed_spans_the_whole_clock_range() {
    assert_eq!(elapsed(i64::MIN, i64::MAX), u64::MAX as u128);
    assert_eq!(elapsed(-10, 10), 20);
    assert_eq!(elapsed(7, 7), 0);
}

#[test]
fn multiplication_saturates() {
    assert_eq!(mul_saturating(6, 7), 42);
    assert_eq!(mul_saturating(u128::MAX, 2), u128::MAX);
    assert_eq!(mul_saturating(u128::MAX, 1), u128::MAX);
    assert_eq!(mul_saturating(u128::MAX, 0), 0);
    assert_eq!(mul_saturating(1 << 64, 1 << 64), u128::MAX);
    assert_eq!(mul_saturating(1 << 64, (1 << 64) - 1), u128::MAX - (1 << 64) + 1);
}

#[test]
fn interest_on_a_saturated_product() {
    // amount * 4 saturates, times one second stays at the cap
    let amount = u128::MAX / 2;
    assert_eq!(yield_part(amount, 0, 1), u128::MAX / 3_153_600_000);
    assert_eq!(checked_accrued(amount, 0, 1), Some(amount + u128::MAX / 3_153_600_000));
    assert_eq!(checked_accrued(u128::MAX, 0, 1), None);
    assert_eq!(checked_accrued(u128::MAX, 0, 0), Some(u128::MAX));
    assert_eq!(checked_accrued(100, 0, YEAR), Some(104));
}

#[test]
fn scale_conversions() {
    assert_eq!(to_internal_scale(0), 0);
    assert_eq!(to_internal_scale(1), 1_000_000_000_000);
    assert_eq!(to_internal_scale(1_000_000), 1_000_000_000_000_000_000);
    assert_eq!(to_internal_scale(u64::MAX), 18_446_744_073_709_551_615_000_000_000_000);
    assert_eq!(to_native_scale(0), Some(0));
    assert_eq!(to_native_scale(999_999_999_999), Some(0));
    assert_eq!(to_native_scale(1_000_000_000_000), Some(1));
    assert_eq!(to_native_scale(1_999_999_999_999), Some(1));
    assert_eq!(to_native_scale(1_040_000_000_000_000_000), Some(1_040_000));
    assert_eq!(to_native_scale(to_internal_scale(u64::MAX)), Some(u64::MAX));
    assert_eq!(to_native_scale(to_internal_scale(u64::MAX) + 999_999_999_999), Some(u64::MAX));
    // a native amount beyond 64 bits is not cut down
    assert_eq!(to_native_scale(to_internal_scale(u64::MAX) + 1_000_000_000_000), None);
    assert_eq!(to_native_scale(to_internal_scale(u64::MAX) + 3_000_000_000_000), None);
    assert_eq!(to_native_scale(u128::MAX), None);
}

#[test]
fn deposit_amount_and_settlement() {
    assert_eq!(deposit_amount(0), Err(ErrorCode::InvalidAmount));
    assert_eq!(deposit_amount(5), Ok(5_000_000_000_000));
    let nothing = Position { owner: id(OWNER), amount: 0, last_ts: 5 };
    assert_eq!(nothing.settle(YEAR), Err(Failure::Rejected(ErrorCode::InvalidAmount)));
    let huge = Position { owner: id(OWNER), amount: u128::MAX, last_ts: 5 };
    assert_eq!(huge.settle(6), Err(Failure::Arithmetic));
    let dust = Position { owner: id(OWNER), amount: 1, last_ts: 5 };
    assert_eq!(dust.settle(5), Ok((Position { owner: id(OWNER), amount: 0, last_ts: 5 }, 0)));
    let some = Position { owner: id(OWNER), amount: 2_500_000_000_000, last_ts: 5 };
    assert_eq!(some.settle(9), Ok((Position { owner: id(OWNER), amount: 0, last_ts: 9 }, 2)));
}

#[test]
fn deposit_zero_is_rejected() {
    let mut accounts = deposit_accounts(Position::empty(id(0)), 100, 0);
    let before = accounts;
    assert_eq!(deposit(&mut accounts, 0, 1_000), Err(Failure::Rejected(ErrorCode::InvalidAmount)));
    assert_eq!(accounts, before);
}

#[test]
fn deposit_credits_the_position_and_fills_the_pool() {
    let mut accounts = deposit_accounts(Position::empty(id(0)), 5_000_000, 10);
    assert_eq!(deposit(&mut accounts, 1_000_000, 1_000), Ok(()));
    assert_eq!(accounts.position_address, position_key());
    assert_eq!(accounts.position.owner, id(OWNER));
    assert_eq!(accounts.position.amount, 1_000_000_000_000_000_000);
    assert_eq!(accounts.position.last_ts, 1_000);
    assert_eq!(accounts.src.amount, 4_000_000);
    assert_eq!(accounts.vault.amount, 1_000_010);
}

#[test]
fn second_deposit_folds_in_the_interest() {
    let mut accounts = deposit_accounts(Position::empty(id(0)), 5_000_000, 0);
    deposit(&mut accounts, 1_000_000, 1_000).unwrap();
    deposit(&mut accounts, 500_000, 1_000 + YEAR).unwrap();
    assert_eq!(accounts.position.amount, 1_540_000_000_000_000_000);
    assert_eq!(accounts.position.last_ts, 1_000 + YEAR);
    assert_eq!(accounts.position.owner, id(OWNER));
    assert_eq!(accounts.vault.amount, 1_500_000);
}

#[test]
fn deposit_without_funds_fails_in_the_token_service() {
    let mut accounts = deposit_accounts(Position::empty(id(0)), 5, 0);
    let before = accounts;
    assert_eq!(deposit(&mut accounts, 6, 0), Err(Failure::Token(TokenError::InsufficientFunds)));
    assert_eq!(accounts, before);
}

#[test]
fn one_year_balance_of_a_million() {
    let t0 = 1_700_000_000;
    let mut accounts = deposit_accounts(Position::empty(id(0)), 1_000_000, 1_000_000);
    deposit(&mut accounts, 1_000_000, t0).unwrap();
    let mut back = withdraw_accounts(accounts.position, 0, accounts.vault.amount);
    assert_eq!(get_balance(&back, t0 + 31_536_000), Some(1_040_000_000_000_000_000));
    assert_eq!(back.position.balance(t0 + 31_536_000), Some(1_040_000_000_000_000_000));
    assert_eq!(withdraw(&mut back, t0 + 31_536_000), Ok(1_040_000));
    assert_eq!(back.dst.amount, 1_040_000);
    assert_eq!(back.vault.amount, 960_000);
    assert_eq!(back.position.amount, 0);
    assert_eq!(back.position.last_ts, t0 + 31_536_000);
}

#[test]
fn deposit_then_immediate_withdraw_returns_the_deposit() {
    for x in [1u64, 7, 1_000_000, u64::MAX] {
        let t0 = 42;
        let mut accounts = deposit_accounts(Position::empty(id(0)), x, 0);
        deposit(&mut accounts, x, t0).unwrap();
        let mut back = withdraw_accounts(accounts.position, 0, accounts.vault.amount);
        assert_eq!(withdraw(&mut back, t0), Ok(x));
        assert_eq!(back.position.amount, 0);
        assert_eq!(back.dst.amount, x);
        assert_eq!(back.vault.amount, 0);
    }
}

#[test]
fn withdraw_from_an_empty_position_is_rejected() {
    let mut accounts = withdraw_accounts(Position::empty(id(OWNER)), 0, 100);
    let before = accounts;
    assert_eq!(withdraw(&mut accounts, 5_000), Err(Failure::Rejected(ErrorCode::InvalidAmount)));
    assert_eq!(accounts, before);
}

#[test]
fn withdraw_rounds_down_and_empties_the_position() {
    let position = Position { owner: id(OWNER), amount: 2_999_999_999_999, last_ts: 10 };
    let mut accounts = withdraw_accounts(position, 0, 100);
    assert_eq!(withdraw(&mut accounts, 10), Ok(2));
    assert_eq!(accounts.position.amount, 0);
    assert_eq!(accounts.position.owner, id(OWNER));
    assert_eq!(accounts.dst.amount, 2);
    assert_eq!(accounts.vault.amount, 98);

    // worth less than one native unit: nothing moves, the position is emptied all the same
    let dust = Position { owner: id(OWNER), amount: 1, last_ts: 10 };
    let mut accounts = withdraw_accounts(dust, 0, 100);
    assert_eq!(withdraw(&mut accounts, 10), Ok(0));
    assert_eq!(accounts.position.amount, 0);
    assert_eq!(accounts.vault.amount, 100);
}

#[test]
fn withdraw_from_a_short_pool_fails_in_the_token_service() {
    let position = Position { owner: id(OWNER), amount: 5_000_000_000_000, last_ts: 10 };
    let mut accounts = withdraw_accounts(position, 0, 4);
    let before = accounts;
    assert_eq!(withdraw(&mut accounts, 10), Err(Failure::Token(TokenError::InsufficientFunds)));
    assert_eq!(accounts, before);
}

#[test]
fn vault_accounts_are_checked() {
    let owner = VerifiedSigner::new(id(OWNER));
    let position = Position { owner: id(OWNER), amount: 0, last_ts: 0 };
    let own = TokenAccount::new(id(23), id(OWNER), id(MINT), 0);
    let pool = TokenAccount::new(id(22), authority().address(), id(MINT), 0);
    assert!(Withdraw::new(position, owner, own, pool, authority(), id(MINT)).is_some());
    assert!(Deposit::new(position_key(), position, owner, own, pool, authority(), id(MINT)).is_some());
    let foreign_position = Position { owner: id(70), amount: 0, last_ts: 0 };
    assert!(Withdraw::new(foreign_position, owner, own, pool, authority(), id(MINT)).is_none());
    let foreign = TokenAccount::new(id(23), id(71), id(MINT), 0);
    assert!(Withdraw::new(position, owner, foreign, pool, authority(), id(MINT)).is_none());
    assert!(Deposit::new(position_key(), position, owner, foreign, pool, authority(), id(MINT)).is_none());
    let stray_pool = TokenAccount::new(id(22), id(72), id(MINT), 0);
    assert!(Withdraw::new(position, owner, own, stray_pool, authority(), id(MINT)).is_none());
    assert!(Deposit::new(position_key(), position, owner, own, stray_pool, authority(), id(MINT)).is_none());
    let other_mint_pool = TokenAccount::new(id(22), authority().address(), id(73), 0);
    assert!(Deposit::new(position_key(), position, owner, own, other_mint_pool, authority(), id(MINT)).is_none());
    // a position record at another address than the derived one
    assert!(Deposit::new(id(90), position, owner, own, pool, authority(), id(MINT)).is_none());
    assert!(AdminPatch::new(position, owner).is_some());
    assert!(AdminPatch::new(foreign_position, owner).is_none());
}

#[test]
fn handlers_fail_where_the_value_does_not_fit() {
    let huge = Position { owner: id(OWNER), amount: u128::MAX - 5, last_ts: 0 };
    let mut accounts = deposit_accounts(huge, 10, 0);
    let before = accounts;
    assert_eq!(deposit(&mut accounts, 1, 0), Err(Failure::Arithmetic));
    assert_eq!(accounts, before);
    // without funds the token service refuses first
    assert_eq!(deposit(&mut accounts, 11, 0), Err(Failure::Token(TokenError::InsufficientFunds)));

    let mut accounts = withdraw_accounts(huge, 0, 10);
    let before = accounts;
    assert_eq!(get_balance(&accounts, 1), None);
    assert_eq!(withdraw(&mut accounts, 1), Err(Failure::Arithmetic));
    assert_eq!(accounts, before);
    assert_eq!(get_balance(&accounts, 0), Some(u128::MAX - 5));
}

#[test]
fn position_credit_reports_overflow() {
    let position = Position { owner: id(OWNER), amount: u128::MAX - 5, last_ts: 0 };
    assert_eq!(position.credit(id(OWNER), 1, 0), None);
    assert_eq!(position.balance(0), Some(u128::MAX - 5));
    assert_eq!(position.balance(1), None);
    let small = Position { owner: id(9), amount: 100, last_ts: 0 };
    assert_eq!(
        small.credit(id(OWNER), 2, YEAR),
        Some(Position { owner: id(OWNER), amount: 2_000_000_000_104, last_ts: YEAR })
    );
}

#[test]
fn patching_the_checkpoint_changes_only_the_checkpoint() {
    let position = Position { owner: id(OWNER), amount: 1_000, last_ts: 500 };
    let mut accounts = AdminPatch::new(position, VerifiedSigner::new(id(OWNER))).unwrap();
    admin_patch_timestamp(&mut accounts, -77);
    assert_eq!(accounts.position, Position { owner: id(OWNER), amount: 1_000, last_ts: -77 });
    assert_eq!(accounts.owner, VerifiedSigner::new(id(OWNER)));
    // rewinding the checkpoint by a year manufactures a year of interest
    admin_patch_timestamp(&mut accounts, 0);
    assert_eq!(accounts.position.balance(YEAR), Some(1_040));
}

#[test]
fn program_authority_is_the_derived_address() {
    let program = Pubkey::new_from_array([PROGRAM; 32]);
    let (key, bump) = Pubkey::find_program_address(&[b"auth"], &program);
    let authority = ProgramAuthority::derive(&id(PROGRAM)).unwrap();
    assert_eq!(authority.address().to_bytes(), key.to_bytes());
    assert_eq!(authority.bump_seed(), bump);
    assert_eq!(authority.program_id(), id(PROGRAM));
    assert_ne!(authority.address(), id(PROGRAM));
    // another program, another authority
    let other = ProgramAuthority::derive(&id(PROGRAM + 1)).unwrap();
    assert_ne!(other.address(), authority.address());
    let (other_key, other_bump) =
        Pubkey::find_program_address(&[b"auth"], &Pubkey::new_from_array([PROGRAM + 1; 32]));
    assert_eq!(other.address().to_bytes(), other_key.to_bytes());
    assert_eq!(other.bump_seed(), other_bump);
}

#[test]
fn position_address_is_derived_from_owner_and_mint() {
    let program = Pubkey::new_from_array([PROGRAM; 32]);
    let owner = [OWNER; 32];
    let mint = [MINT; 32];
    let (key, bump) = Pubkey::find_program_address(&[b"vpos", &owner, &mint], &program);
    let (address, found_bump) = position_address(&id(OWNER), &id(MINT), &id(PROGRAM)).unwrap();
    assert_eq!(address.to_bytes(), key.to_bytes());
    assert_eq!(found_bump, bump);
    // owner and mint are not interchangeable
    let (swapped, _) = position_address(&id(MINT), &id(OWNER), &id(PROGRAM)).unwrap();
    assert_ne!(swapped, address);
    let (other_owner, _) = position_address(&id(OWNER + 1), &id(MINT), &id(PROGRAM)).unwrap();
    assert_ne!(other_owner, address);
}

#[test]
fn identity_bytes_as_a_buffer() {
    let mut bytes = [0u8; 32];
    for (i, b) in bytes.iter_mut().enumerate() {
        *b = i as u8;
    }
    assert_eq!(Identity::new(bytes).to_vec(), bytes.to_vec());
}

#[test]
fn deposit_accounts_sit_at_the_given_position_address() {
    let owner = VerifiedSigner::new(id(OWNER));
    let position = Position::empty(id(0));
    let src = TokenAccount::new(id(21), id(OWNER), id(MINT), 9);
    let pool = TokenAccount::new(id(22), authority().address(), id(MINT), 0);
    let accounts =
        Deposit::assemble(Some(id(80)), id(80), position, owner, src, pool, authority(), id(MINT));
    assert_eq!(
        accounts,
        Some(Deposit {
            position_address: id(80),
            position,
            owner,
            src,
            vault: pool,
            program_authority: authority(),
            mint: id(MINT),
        })
    );
    assert_eq!(
        Deposit::assemble(Some(id(81)), id(80), position, owner, src, pool, authority(), id(MINT)),
        None
    );
    assert_eq!(
        Deposit::assemble(None, id(80), position, owner, src, pool, authority(), id(MINT)),
        None
    );
    let stray = TokenAccount::new(id(22), id(72), id(MINT), 0);
    assert_eq!(
        Deposit::assemble(Some(id(80)), id(80), position, owner, src, stray, authority(), id(MINT)),
        None
    );
}

#[test]
fn withdraw_of_more_than_one_transfer_can_move_fails_and_keeps_the_position() {
    // worth 2^64 native units: one more than fits
    let amount = to_internal_scale(u64::MAX) + 1_000_000_000_000;
    let position = Position { owner: id(OWNER), amount, last_ts: 10 };
    assert_eq!(position.settle(10), Err(Failure::Arithmetic));
    let mut accounts = withdraw_accounts(position, 0, 5);
    let before = accounts;
    assert_eq!(withdraw(&mut accounts, 10), Err(Failure::Arithmetic));
    assert_eq!(accounts, before);
    assert_eq!(accounts.position.amount, amount);
    assert_eq!(accounts.vault.amount, 5);
    assert_eq!(get_balance(&accounts, 10), Some(amount));

    // the largest value that can be paid out
    let most = Position { owner: id(OWNER), amount: amount - 1, last_ts: 10 };
    assert_eq!(
        most.settle(10),
        Ok((Position { owner: id(OWNER), amount: 0, last_ts: 10 }, u64::MAX))
    );
    let mut accounts = withdraw_accounts(most, 0, u64::MAX);
    assert_eq!(withdraw(&mut accounts, 10), Ok(u64::MAX));
    assert_eq!(accounts.position.amount, 0);
    assert_eq!(accounts.dst.amount, u64::MAX);
    assert_eq!(accounts.vault.amount, 0);
}

#[test]
fn two_maximal_deposits_cannot_be_paid_out_in_part() {
    // two maximal deposits make a position worth more than one transfer can move
    let mut accounts = deposit_accounts(Position::empty(id(0)), u64::MAX, 0);
    deposit(&mut accounts, u64::MAX, 0).unwrap();
    let mut again = deposit_accounts(accounts.position, u64::MAX, 0);
    deposit(&mut again, u64::MAX, 0).unwrap();
    assert_eq!(again.position.amount, 2 * to_internal_scale(u64::MAX));
    let mut back = withdraw_accounts(again.position, 0, u64::MAX);
    let before = back;
    assert_eq!(withdraw(&mut back, 0), Err(Failure::Arithmetic));
    assert_eq!(back, before);
}

#[test]
fn rewound_checkpoint_cannot_be_paid_out_in_part() {
    // u64::MAX native units, with the checkpoint rewound by fifty years: the
    // product behind the interest saturates, and the value passes what one
    // transfer can move
    let position = Position { owner: id(OWNER), amount: to_internal_scale(u64::MAX), last_ts: 0 };
    let mut patch = AdminPatch::new(position, VerifiedSigner::new(id(OWNER))).unwrap();
    admin_patch_timestamp(&mut patch, -50 * YEAR);
    let mut accounts = withdraw_accounts(patch.position, 0, u64::MAX);
    let before = accounts;
    assert_eq!(
        get_balance(&accounts, 0),
        Some(to_internal_scale(u64::MAX) + u128::MAX / 3_153_600_000)
    );
    assert_eq!(get_balance(&accounts, 0), Some(18_554_646_904_417_611_756_889_705_291_549));
    assert_eq!(withdraw(&mut accounts, 0), Err(Failure::Arithmetic));
    assert_eq!(accounts, before);
}
