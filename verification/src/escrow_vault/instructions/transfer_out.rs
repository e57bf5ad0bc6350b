//! A privileged caller pays tokens out of custody, from a user's balance.
use vstd::prelude::*;
use crate::escrow_vault::error::VaultError;
use crate::escrow_vault::events::TokensTransferredOut;
use crate::escrow_vault::state::{UserBalance, VaultAuthority, VaultConfig};
use crate::escrow_vault::utils::{admit_caller, spec_admit, InstructionsSysvar};
use crate::pubkey::Pubkey;
use crate::token::{TokenAccount, Transfer};

verus! {

/// What paying out works on: the user's record, the custody record of its
/// token with its address, the token account in custody, the address of
/// the token account that is paid, and what the host shows of the
/// transaction.
#[derive(Clone, Debug, PartialEq, Eq)]
pub struct TransferOut {
    pub config: VaultConfig,
    pub user_balance: UserBalance,
    pub vault_authority: VaultAuthority,
    pub vault_authority_key: Pubkey,
    pub vault_token_account: TokenAccount,
    pub recipient_token_account: Pubkey,
    pub instruction_sysvar: InstructionsSysvar,
}

/// Where a payment comes from and where it goes: the custody record's
/// address, the token account in custody, and the address of the token
/// account that is paid.
#[derive(Clone, Copy, Debug, PartialEq, Eq)]
pub struct PaymentRoute {
    pub vault_authority_key: Pubkey,
    pub vault_token_account: TokenAccount,
    pub recipient_token_account: Pubkey,
}

/// Whether `amount` can be paid out of `user_balance` along `route`.
pub open spec fn spec_check(
    config: VaultConfig,
    user_balance: UserBalance,
    vault_authority: VaultAuthority,
    route: PaymentRoute,
    shown: InstructionsSysvar,
    amount: u64,
) -> Result<(), VaultError> {
    if user_balance.balance < amount {
        Err(VaultError::InsufficientBalance)
    } else if route.vault_token_account.mint != user_balance.token_mint {
        Err(VaultError::TokenMintMismatch)
    } else if route.vault_token_account.owner != route.vault_authority_key {
        Err(VaultError::InvalidVaultAuthority)
    } else if spec_admit(config, shown) is Err {
        Err(spec_admit(config, shown)->Err_0)
    } else if amount == 0 {
        Err(VaultError::ZeroAmount)
    } else if vault_authority.total_deposits < amount {
        Err(VaultError::InsufficientBalance)
    } else {
        Ok(())
    }
}

/// The user's record after `amount` was paid out of it.
pub open spec fn spec_balance_after(user_balance: UserBalance, amount: u64) -> UserBalance {
    UserBalance { balance: (user_balance.balance - amount) as u64, ..user_balance }
}

/// The custody record after `amount` left custody.
pub open spec fn spec_authority_after(vault_authority: VaultAuthority, amount: u64) -> VaultAuthority {
    VaultAuthority {
        total_deposits: (vault_authority.total_deposits - amount) as u64,
        ..vault_authority
    }
}

/// The transfer out of custody and the announcement of a payment of
/// `amount` to `recipient`.
pub open spec fn spec_outcome(
    config: VaultConfig,
    user_balance: UserBalance,
    route: PaymentRoute,
    shown: InstructionsSysvar,
    recipient: Pubkey,
    amount: u64,
) -> (Transfer, TokensTransferredOut) {
    (
        Transfer {
            from: route.vault_token_account.key,
            to: route.recipient_token_account,
            authority: route.vault_authority_key,
            amount,
        },
        TokensTransferredOut {
            user: user_balance.user,
            recipient,
            token_mint: user_balance.token_mint,
            amount,
            caller_program: spec_admit(config, shown)->Ok_0,
        },
    )
}

/// Pays `amount` out of custody to `recipient`: the user's balance and the
/// custody total both shrink by `amount`, and the tokens are to be moved
/// from custody into the recipient's token account.
///
/// Refused with `InsufficientBalance` whenever less than `amount` is
/// available; then where the token account in custody holds another token
/// or is not the custody record's; then where the caller is not admitted;
/// then where `amount` is zero; then where less than `amount` is in
/// custody. Where it is refused, both records stay as they were.
pub fn pay_out(
    config: &VaultConfig,
    user_balance: &mut UserBalance,
    vault_authority: &mut VaultAuthority,
    route: &PaymentRoute,
    shown: &InstructionsSysvar,
    recipient: Pubkey,
    amount: u64,
) -> (r: Result<(Transfer, TokensTransferredOut), VaultError>)
    ensures
        match spec_check(
            *config,
            *old(user_balance),
            *old(vault_authority),
            *route,
            *shown,
            amount,
        ) {
            Ok(_) => {
                &&& r == Ok::<(Transfer, TokensTransferredOut), VaultError>(
                    spec_outcome(*config, *old(user_balance), *route, *shown, recipient, amount),
                )
                &&& *final(user_balance) == spec_balance_after(*old(user_balance), amount)
                &&& *final(vault_authority) == spec_authority_after(*old(vault_authority), amount)
            },
            Err(e) => {
                &&& r == Err::<(Transfer, TokensTransferredOut), VaultError>(e)
                &&& *final(user_balance) == *old(user_balance)
                &&& *final(vault_authority) == *old(vault_authority)
            },
        },
{
    if user_balance.balance < amount {
        return Err(VaultError::InsufficientBalance);
    }
    if route.vault_token_account.mint != user_balance.token_mint {
        return Err(VaultError::TokenMintMismatch);
    }
    if route.vault_token_account.owner != route.vault_authority_key {
        return Err(VaultError::InvalidVaultAuthority);
    }
    let caller_program_id = admit_caller(config, shown, "TransferOut")?;
    if amount == 0 {
        return Err(VaultError::ZeroAmount);
    }
    if vault_authority.total_deposits < amount {
        return Err(VaultError::InsufficientBalance);
    }
    user_balance.slash_balance(amount)?;
    vault_authority.subtract_deposit(amount)?;
    Ok(
        (
            Transfer {
                from: route.vault_token_account.key,
                to: route.recipient_token_account,
                authority: route.vault_authority_key,
                amount,
            },
            TokensTransferredOut {
                user: user_balance.user,
                recipient,
                token_mint: user_balance.token_mint,
                amount,
                caller_program: caller_program_id,
            },
        ),
    )
}

impl TransferOut {
    /// Where the payment comes from and where it goes.
    pub open spec fn spec_route(self) -> PaymentRoute {
        PaymentRoute {
            vault_authority_key: self.vault_authority_key,
            vault_token_account: self.vault_token_account,
            recipient_token_account: self.recipient_token_account,
        }
    }
}

/// Pays `amount` out of custody to `recipient`: [`pay_out`] on the records
/// of `ctx`. Where it is refused, nothing changes.
pub fn handler(ctx: &mut TransferOut, recipient: Pubkey, amount: u64) -> (r: Result<
    (Transfer, TokensTransferredOut),
    VaultError,
>)
    ensures
        match spec_check(
            old(ctx).config,
            old(ctx).user_balance,
            old(ctx).vault_authority,
            old(ctx).spec_route(),
            old(ctx).instruction_sysvar,
            amount,
        ) {
            Ok(_) => r == Ok::<(Transfer, TokensTransferredOut), VaultError>(
                spec_outcome(
                    old(ctx).config,
                    old(ctx).user_balance,
                    old(ctx).spec_route(),
                    old(ctx).instruction_sysvar,
                    recipient,
                    amount,
                ),
            ) && *final(ctx) == (TransferOut {
                user_balance: spec_balance_after(old(ctx).user_balance, amount),
                vault_authority: spec_authority_after(old(ctx).vault_authority, amount),
                ..*old(ctx)
            }),
            Err(e) => r == Err::<(Transfer, TokensTransferredOut), VaultError>(e) && *final(ctx)
                == *old(ctx),
        },
{
    let mut user_balance = ctx.user_balance;
    let mut vault_authority = ctx.vault_authority;
    let route = PaymentRoute {
        vault_authority_key: ctx.vault_authority_key,
        vault_token_account: ctx.vault_token_account,
        recipient_token_account: ctx.recipient_token_account,
    };
    let outcome = pay_out(
        &ctx.config,
        &mut user_balance,
        &mut vault_authority,
        &route,
        &ctx.instruction_sysvar,
        recipient,
        amount,
    )?;
    ctx.user_balance = user_balance;
    ctx.vault_authority = vault_authority;
    Ok(outcome)
}

} // verus!
