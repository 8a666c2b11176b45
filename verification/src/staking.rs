use vstd::prelude::*;

use crate::errors::ErrorCode;
use crate::sla::Address;
use crate::sla::Sla;

verus! {

/// The two staking sides of an agreement: the user pool and the provider.
#[derive(Clone, Copy, Debug, PartialEq, Eq, Structural)]
pub enum Side {
    User,
    Provider,
}

/// A fungible-token balance: the account's owner, the asset it holds, and
/// the amount held.
pub struct TokenAccount {
    pub owner: Address,
    pub mint: Address,
    pub amount: u64,
}

/// A fungible-token mint: its identity, the sole authority allowed to mint,
/// and the outstanding supply.
pub struct TokenMint {
    pub address: Address,
    pub mint_authority: Address,
    pub supply: u64,
}

/// A side-scoped custody vault of an agreement: the token account that holds
/// one side's staked funds, owned by the agreement's signing authority.
pub struct Vault {
    pub side: Side,
    pub account: TokenAccount,
}

/// A transfer is allowed exactly when the presented authority owns the
/// source, both accounts hold the same asset, and the source covers the
/// amount.
pub open spec fn transfer_allowed(
    from: TokenAccount,
    to: TokenAccount,
    authority: Address,
    amount: u64,
) -> bool {
    &&& from.owner.eq_spec(authority)
    &&& from.mint.eq_spec(to.mint)
    &&& from.amount >= amount
}

/// Debits `amount` from `from` and credits it to `to`, authorized by the
/// source's owner.  Fails cleanly: on any rejection neither account changes.
pub fn transfer(
    from: &mut TokenAccount,
    to: &mut TokenAccount,
    authority: &Address,
    amount: u64,
) -> (r: Result<(), ErrorCode>)
    requires
        old(to).amount + amount <= u64::MAX,
    ensures
        transfer_allowed(*old(from), *old(to), *authority, amount) ==> {
            &&& r == Ok::<(), ErrorCode>(())
            &&& *final(from) == (TokenAccount {
                amount: (old(from).amount - amount) as u64,
                ..*old(from)
            })
            &&& *final(to) == (TokenAccount {
                amount: (old(to).amount + amount) as u64,
                ..*old(to)
            })
        },
        !transfer_allowed(*old(from), *old(to), *authority, amount) ==> {
            &&& *final(from) == *old(from)
            &&& *final(to) == *old(to)
            &&& !(old(from).owner.eq_spec(*authority) && old(from).mint.eq_spec(old(to).mint))
                ==> r == Err::<(), ErrorCode>(ErrorCode::VaultMismatch)
            &&& old(from).owner.eq_spec(*authority) && old(from).mint.eq_spec(old(to).mint)
                && old(from).amount < amount ==> r == Err::<(), ErrorCode>(
                ErrorCode::InsufficientFunds,
            )
        },
{
    if !from.owner.addr_eq(authority) || !from.mint.addr_eq(&to.mint) {
        return Err(ErrorCode::VaultMismatch);
    }
    if from.amount < amount {
        return Err(ErrorCode::InsufficientFunds);
    }
    from.amount = from.amount - amount;
    to.amount = to.amount + amount;
    Ok(())
}

/// Minting is allowed exactly when the presented authority is the mint's
/// authority and the credited account holds the minted asset.
pub open spec fn mint_allowed(mint: TokenMint, to: TokenAccount, authority: Address) -> bool {
    &&& mint.mint_authority.eq_spec(authority)
    &&& to.mint.eq_spec(mint.address)
}

/// Mints `amount` new tokens to `to`, authorized by the mint's authority.
/// Fails cleanly: on rejection neither the supply nor the account changes.
pub fn mint_to(
    mint: &mut TokenMint,
    to: &mut TokenAccount,
    authority: &Address,
    amount: u64,
) -> (r: Result<(), ErrorCode>)
    requires
        old(mint).supply + amount <= u64::MAX,
        old(to).amount + amount <= u64::MAX,
    ensures
        mint_allowed(*old(mint), *old(to), *authority) ==> {
            &&& r == Ok::<(), ErrorCode>(())
            &&& *final(mint) == (TokenMint {
                supply: (old(mint).supply + amount) as u64,
                ..*old(mint)
            })
            &&& *final(to) == (TokenAccount {
                amount: (old(to).amount + amount) as u64,
                ..*old(to)
            })
        },
        !mint_allowed(*old(mint), *old(to), *authority) ==> {
            &&& r == Err::<(), ErrorCode>(ErrorCode::VaultMismatch)
            &&& *final(mint) == *old(mint)
            &&& *final(to) == *old(to)
        },
{
    if !mint.mint_authority.addr_eq(authority) || !to.mint.addr_eq(&mint.address) {
        return Err(ErrorCode::VaultMismatch);
    }
    mint.supply = mint.supply + amount;
    to.amount = to.amount + amount;
    Ok(())
}

/// The supplied accounts all belong to the agreement and side: the vault is
/// the side's vault, owned by the agreement's signing authority and holding
/// the staking asset; the staker's source account is owned by the staker and
/// holds the same asset; and the claim-token mint is controlled by the
/// agreement's signing authority and feeds the staker's claim account.
pub open spec fn stake_accounts_match(
    sla: Sla,
    side: Side,
    staker: TokenAccount,
    staker_owner: Address,
    vault: Vault,
    ut_mint: TokenMint,
    claims: TokenAccount,
) -> bool {
    &&& vault.side == side
    &&& vault.account.owner.eq_spec(sla.sla_authority)
    &&& vault.account.mint.eq_spec(sla.mint_address)
    &&& staker.owner.eq_spec(staker_owner)
    &&& staker.mint.eq_spec(sla.mint_address)
    &&& ut_mint.mint_authority.eq_spec(sla.sla_authority)
    &&& claims.mint.eq_spec(ut_mint.address)
}

/// Stakes `amount` of the agreement's asset on the given side: debits the
/// staker's source account, credits the side's custody vault, and mints
/// `amount` claim tokens to the staker.  The three steps are atomic: every
/// precondition is established before the first balance moves, so either all
/// three changes commit or, on any failure, none does.
pub fn stake(
    side: Side,
    sla: &Sla,
    staker_owner: &Address,
    staker: &mut TokenAccount,
    vault: &mut Vault,
    ut_mint: &mut TokenMint,
    claims: &mut TokenAccount,
    amount: u64,
) -> (r: Result<(), ErrorCode>)
    requires
        amount > 0,
        old(vault).account.amount + amount <= u64::MAX,
        old(ut_mint).supply + amount <= u64::MAX,
        old(claims).amount + amount <= u64::MAX,
    ensures
        !stake_accounts_match(
            *sla,
            side,
            *old(staker),
            *staker_owner,
            *old(vault),
            *old(ut_mint),
            *old(claims),
        ) ==> {
            &&& r == Err::<(), ErrorCode>(ErrorCode::VaultMismatch)
            &&& *final(staker) == *old(staker)
            &&& *final(vault) == *old(vault)
            &&& *final(ut_mint) == *old(ut_mint)
            &&& *final(claims) == *old(claims)
        },
        stake_accounts_match(
            *sla,
            side,
            *old(staker),
            *staker_owner,
            *old(vault),
            *old(ut_mint),
            *old(claims),
        ) && old(staker).amount < amount ==> {
            &&& r == Err::<(), ErrorCode>(ErrorCode::InsufficientFunds)
            &&& *final(staker) == *old(staker)
            &&& *final(vault) == *old(vault)
            &&& *final(ut_mint) == *old(ut_mint)
            &&& *final(claims) == *old(claims)
        },
        stake_accounts_match(
            *sla,
            side,
            *old(staker),
            *staker_owner,
            *old(vault),
            *old(ut_mint),
            *old(claims),
        ) && old(staker).amount >= amount ==> {
            &&& r == Ok::<(), ErrorCode>(())
            &&& *final(staker) == (TokenAccount {
                amount: (old(staker).amount - amount) as u64,
                ..*old(staker)
            })
            &&& *final(vault) == (Vault {
                account: TokenAccount {
                    amount: (old(vault).account.amount + amount) as u64,
                    ..old(vault).account
                },
                ..*old(vault)
            })
            &&& *final(ut_mint) == (TokenMint {
                supply: (old(ut_mint).supply + amount) as u64,
                ..*old(ut_mint)
            })
            &&& *final(claims) == (TokenAccount {
                amount: (old(claims).amount + amount) as u64,
                ..*old(claims)
            })
        },
{
    let side_matches = match (side, vault.side) {
        (Side::User, Side::User) => true,
        (Side::Provider, Side::Provider) => true,
        _ => false,
    };
    if !side_matches || !vault.account.owner.addr_eq(&sla.sla_authority)
        || !vault.account.mint.addr_eq(&sla.mint_address) || !staker.owner.addr_eq(staker_owner)
        || !staker.mint.addr_eq(&sla.mint_address)
        || !ut_mint.mint_authority.addr_eq(&sla.sla_authority)
        || !claims.mint.addr_eq(&ut_mint.address) {
        return Err(ErrorCode::VaultMismatch);
    }
    if staker.amount < amount {
        return Err(ErrorCode::InsufficientFunds);
    }
    match transfer(staker, &mut vault.account, staker_owner, amount) {
        Ok(()) => {},
        Err(e) => {
            return Err(e);
        },
    }
    match mint_to(ut_mint, claims, &sla.sla_authority, amount) {
        Ok(()) => {},
        Err(e) => {
            return Err(e);
        },
    }
    Ok(())
}

/// The account bundle of a user-side stake request.
pub struct StakeUserSide {
    /// The signer staking the tokens; receives the minted claim tokens.
    pub user: Address,
    /// The agreement staked into.
    pub sla: Sla,
    /// The token account with the tokens to be staked.
    pub staker: TokenAccount,
    /// The agreement's user-side custody vault.
    pub user_vault: Vault,
    /// The agreement's user-side claim-token mint.
    pub ut_mint: TokenMint,
    /// The user's claim-token account.
    pub user_claims: TokenAccount,
}

/// The bundle after a successful stake of `amount`: the staker debited, the
/// vault credited, and `amount` claim tokens minted to the user; nothing
/// else changes.
pub open spec fn user_stake_applied(pre: StakeUserSide, amount: u64) -> StakeUserSide {
    StakeUserSide {
        staker: TokenAccount { amount: (pre.staker.amount - amount) as u64, ..pre.staker },
        user_vault: Vault {
            account: TokenAccount {
                amount: (pre.user_vault.account.amount + amount) as u64,
                ..pre.user_vault.account
            },
            ..pre.user_vault
        },
        ut_mint: TokenMint { supply: (pre.ut_mint.supply + amount) as u64, ..pre.ut_mint },
        user_claims: TokenAccount {
            amount: (pre.user_claims.amount + amount) as u64,
            ..pre.user_claims
        },
        ..pre
    }
}

/// The minting half of the claim-token invariant: a successful stake raises
/// the claim-token supply, the staker's claim balance and the vault balance
/// by the same amount, so the outstanding supply keeps tracking what was
/// staked on the side.
pub proof fn lemma_claim_supply_tracks_stake(pre: StakeUserSide, amount: u64)
    requires
        pre.user_vault.account.amount + amount <= u64::MAX,
        pre.ut_mint.supply + amount <= u64::MAX,
        pre.user_claims.amount + amount <= u64::MAX,
    ensures
        ({
            let post = user_stake_applied(pre, amount);
            &&& post.ut_mint.supply - pre.ut_mint.supply == post.user_vault.account.amount
                - pre.user_vault.account.amount
            &&& post.user_claims.amount - pre.user_claims.amount == post.user_vault.account.amount
                - pre.user_vault.account.amount
        }),
{
}

/// The user-side accounts of the bundle belong to its agreement.
pub open spec fn user_accounts_match(a: StakeUserSide) -> bool {
    stake_accounts_match(
        a.sla,
        Side::User,
        a.staker,
        a.user,
        a.user_vault,
        a.ut_mint,
        a.user_claims,
    )
}

/// Stakes `token_amount` on the user side of the bundle's agreement,
/// atomically: transfer into the vault and claim-token mint to the user
/// either both commit, or on any failure the bundle is left untouched.
pub fn handler(accounts: &mut StakeUserSide, token_amount: u64) -> (r: Result<(), ErrorCode>)
    requires
        token_amount > 0,
        old(accounts).user_vault.account.amount + token_amount <= u64::MAX,
        old(accounts).ut_mint.supply + token_amount <= u64::MAX,
        old(accounts).user_claims.amount + token_amount <= u64::MAX,
    ensures
        !user_accounts_match(*old(accounts)) ==> {
            &&& r == Err::<(), ErrorCode>(ErrorCode::VaultMismatch)
            &&& *final(accounts) == *old(accounts)
        },
        user_accounts_match(*old(accounts)) && old(accounts).staker.amount < token_amount ==> {
            &&& r == Err::<(), ErrorCode>(ErrorCode::InsufficientFunds)
            &&& *final(accounts) == *old(accounts)
        },
        user_accounts_match(*old(accounts)) && old(accounts).staker.amount >= token_amount ==> {
            &&& r == Ok::<(), ErrorCode>(())
            &&& *final(accounts) == user_stake_applied(*old(accounts), token_amount)
        },
{
    stake(
        Side::User,
        &accounts.sla,
        &accounts.user,
        &mut accounts.staker,
        &mut accounts.user_vault,
        &mut accounts.ut_mint,
        &mut accounts.user_claims,
        token_amount,
    )
}

} // verus!
