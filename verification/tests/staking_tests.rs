use dsla::decimal::Decimal;
use dsla::errors::ErrorCode;
use dsla::sla::Address;
use dsla::sla::Slo;
use dsla::sla::SloType;
use dsla::sla::deploy_sla;
use dsla::staking::Side;
use dsla::staking::StakeUserSide;
use dsla::staking::TokenAccount;
use dsla::staking::TokenMint;
use dsla::staking::Vault;
use dsla::staking::handler;
use dsla::staking::stake;

fn addr(tag: u8) -> Address {
    Address { bytes: [tag; 32] }
}

fn test_sla() -> dsla::sla::Sla {
    deploy_sla(
        String::from("QmAgreementText"),
        addr(5),
        Slo {
            slo_value: Decimal::new(99, 0),
            slo_type: SloType::GreaterOrEqualTo,
        },
        2,
        addr(3),
        addr(6),
        addr(2),
        255,
    )
}

fn test_accounts(staker_balance: u64) -> StakeUserSide {
    StakeUserSide {
        user: addr(1),
        sla: test_sla(),
        staker: TokenAccount { owner: addr(1), mint: addr(3), amount: staker_balance },
        user_vault: Vault {
            side: Side::User,
            account: TokenAccount { owner: addr(2), mint: addr(3), amount: 0 },
        },
        ut_mint: TokenMint { address: addr(4), mint_authority: addr(2), supply: 0 },
        user_claims: TokenAccount { owner: addr(1), mint: addr(4), amount: 0 },
    }
}

#[test]
fn deploy_sla_records_every_part() {
    let sla = test_sla();
    assert_eq!(sla.ipfs_hash, "QmAgreementText");
    assert_eq!(sla.messenger_address.bytes, [5; 32]);
    assert_eq!(sla.leverage, 2);
    assert_eq!(sla.mint_address.bytes, [3; 32]);
    assert_eq!(sla.sla_authority.bytes, [2; 32]);
    assert_eq!(sla.authority_seed.bytes, [6; 32]);
    assert_eq!(sla.authority_bump_seed, [255]);
}

#[test]
fn authorize_as_signer_accepts_only_the_derived_authority() {
    let sla = test_sla();
    assert!(sla.authorize_as_signer(&addr(2)));
    assert!(!sla.authorize_as_signer(&addr(1)));
}

#[test]
fn stake_moves_all_three_balances() {
    let mut accounts = test_accounts(500);
    let r = handler(&mut accounts, 500);
    assert_eq!(r, Ok(()));
    assert_eq!(accounts.staker.amount, 0);
    assert_eq!(accounts.user_vault.account.amount, 500);
    assert_eq!(accounts.user_claims.amount, 500);
    assert_eq!(accounts.ut_mint.supply, 500);
}

#[test]
fn stake_of_part_of_the_balance() {
    let mut accounts = test_accounts(500);
    let r = handler(&mut accounts, 200);
    assert_eq!(r, Ok(()));
    assert_eq!(accounts.staker.amount, 300);
    assert_eq!(accounts.user_vault.account.amount, 200);
    assert_eq!(accounts.user_claims.amount, 200);
    assert_eq!(accounts.ut_mint.supply, 200);
}

#[test]
fn insufficient_balance_changes_nothing() {
    let mut accounts = test_accounts(400);
    let r = handler(&mut accounts, 500);
    assert_eq!(r, Err(ErrorCode::InsufficientFunds));
    assert_eq!(accounts.staker.amount, 400);
    assert_eq!(accounts.user_vault.account.amount, 0);
    assert_eq!(accounts.user_claims.amount, 0);
    assert_eq!(accounts.ut_mint.supply, 0);
}

#[test]
fn a_forced_mint_failure_rolls_back_the_transfer() {
    // The claim-token mint is not controlled by the agreement's authority,
    // so the mint step must fail, and with it the whole stake: the debit
    // of the staker must not persist.
    let mut accounts = test_accounts(500);
    accounts.ut_mint.mint_authority = addr(9);
    let r = handler(&mut accounts, 500);
    assert_eq!(r, Err(ErrorCode::VaultMismatch));
    assert_eq!(accounts.staker.amount, 500);
    assert_eq!(accounts.user_vault.account.amount, 0);
    assert_eq!(accounts.user_claims.amount, 0);
    assert_eq!(accounts.ut_mint.supply, 0);
}

#[test]
fn a_vault_of_another_agreement_is_rejected() {
    let mut accounts = test_accounts(500);
    accounts.user_vault.account.owner = addr(9);
    let r = handler(&mut accounts, 500);
    assert_eq!(r, Err(ErrorCode::VaultMismatch));
    assert_eq!(accounts.staker.amount, 500);
    assert_eq!(accounts.user_vault.account.amount, 0);
}

#[test]
fn a_vault_of_the_wrong_asset_is_rejected() {
    let mut accounts = test_accounts(500);
    accounts.user_vault.account.mint = addr(9);
    let r = handler(&mut accounts, 500);
    assert_eq!(r, Err(ErrorCode::VaultMismatch));
    assert_eq!(accounts.staker.amount, 500);
}

#[test]
fn a_vault_of_the_wrong_side_is_rejected() {
    let accounts = test_accounts(500);
    let sla = accounts.sla;
    let mut staker = accounts.staker;
    let mut vault = accounts.user_vault;
    let mut mint = accounts.ut_mint;
    let mut claims = accounts.user_claims;
    let r = stake(
        Side::Provider,
        &sla,
        &addr(1),
        &mut staker,
        &mut vault,
        &mut mint,
        &mut claims,
        100,
    );
    assert_eq!(r, Err(ErrorCode::VaultMismatch));
    assert_eq!(staker.amount, 500);
    assert_eq!(vault.account.amount, 0);
}

#[test]
fn the_largest_stake_fits() {
    let mut accounts = test_accounts(u64::MAX);
    let r = handler(&mut accounts, u64::MAX);
    assert_eq!(r, Ok(()));
    assert_eq!(accounts.staker.amount, 0);
    assert_eq!(accounts.user_vault.account.amount, u64::MAX);
    assert_eq!(accounts.user_claims.amount, u64::MAX);
    assert_eq!(accounts.ut_mint.supply, u64::MAX);
}

#[test]
fn transfer_rejects_a_foreign_authority() {
    let mut from = TokenAccount { owner: addr(1), mint: addr(3), amount: 100 };
    let mut to = TokenAccount { owner: addr(2), mint: addr(3), amount: 0 };
    let r = dsla::staking::transfer(&mut from, &mut to, &addr(9), 50);
    assert_eq!(r, Err(ErrorCode::VaultMismatch));
    assert_eq!(from.amount, 100);
    assert_eq!(to.amount, 0);
}

#[test]
fn mint_to_rejects_a_foreign_authority() {
    let mut mint = TokenMint { address: addr(4), mint_authority: addr(2), supply: 10 };
    let mut to = TokenAccount { owner: addr(1), mint: addr(4), amount: 0 };
    let r = dsla::staking::mint_to(&mut mint, &mut to, &addr(9), 50);
    assert_eq!(r, Err(ErrorCode::VaultMismatch));
    assert_eq!(mint.supply, 10);
    assert_eq!(to.amount, 0);
}

#[test]
fn stake_works_for_the_provider_side_too() {
    let accounts = test_accounts(500);
    let sla = accounts.sla;
    let mut staker = accounts.staker;
    let mut vault = Vault {
        side: Side::Provider,
        account: TokenAccount { owner: addr(2), mint: addr(3), amount: 7 },
    };
    let mut mint = accounts.ut_mint;
    let mut claims = accounts.user_claims;
    let r = stake(
        Side::Provider,
        &sla,
        &addr(1),
        &mut staker,
        &mut vault,
        &mut mint,
        &mut claims,
        100,
    );
    assert_eq!(r, Ok(()));
    assert_eq!(staker.amount, 400);
    assert_eq!(vault.account.amount, 107);
    assert_eq!(mint.supply, 100);
    assert_eq!(claims.amount, 100);
}
