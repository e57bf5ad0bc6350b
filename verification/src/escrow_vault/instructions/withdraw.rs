//! A user takes available tokens out of custody.
use vstd::prelude::*;
use crate::escrow_vault::error::VaultError;
use crate::escrow_vault::events::CollateralWithdrawn;
use crate::escrow_vault::state::{UserBalance, VaultAuthority, VaultConfig};
use crate::pubkey::Pubkey;
use crate::token::{TokenAccount, Transfer};

verus! {

/// What a withdrawal works on: the user's record, the custody record of
/// its token with its address, and the two token accounts.
#[derive(Clone, Debug, PartialEq, Eq)]
pub struct WithdrawCollateral {
    pub config: VaultConfig,
    pub user_balance: UserBalance,
    pub vault_authority: VaultAuthority,
    pub vault_authority_key: Pubkey,
    pub vault_ata: TokenAccount,
    pub user_ata: TokenAccount,
    pub user: Pubkey,
}

impl WithdrawCollateral {
    /// Whether `amount` can be withdrawn.
    pub open spec fn spec_check(self, amount: u64) -> Result<(), VaultError> {
        if self.config.paused {
            Err(VaultError::VaultPaused)
        } else if self.user_balance.user != self.user {
            Err(VaultError::InvalidAccountOwner)
        } else if self.user_balance.balance < amount {
            Err(VaultError::InsufficientBalance)
        } else if self.vault_authority.token_mint != self.user_balance.token_mint {
            Err(VaultError::InvalidTokenMint)
        } else if self.vault_ata.key != self.vault_authority.vault_ata {
            Err(VaultError::InvalidTokenMint)
        } else if self.vault_ata.mint != self.user_balance.token_mint {
            Err(VaultError::InvalidTokenMint)
        } else if self.user_ata.mint != self.user_balance.token_mint {
            Err(VaultError::InvalidTokenMint)
        } else if self.user_ata.owner != self.user {
            Err(VaultError::InvalidAccountOwner)
        } else if amount == 0 {
            Err(VaultError::ZeroAmount)
        } else if self.vault_authority.total_deposits < amount {
            Err(VaultError::InsufficientBalance)
        } else {
            Ok(())
        }
    }

    /// The records after `amount` was withdrawn.
    pub open spec fn spec_after(self, amount: u64) -> WithdrawCollateral {
        WithdrawCollateral {
            user_balance: UserBalance {
                balance: (self.user_balance.balance - amount) as u64,
                ..self.user_balance
            },
            vault_authority: VaultAuthority {
                total_deposits: (self.vault_authority.total_deposits - amount) as u64,
                ..self.vault_authority
            },
            ..self
        }
    }

    /// The transfer out of custody and the announcement of a withdrawal of
    /// `amount`.
    pub open spec fn spec_outcome(self, amount: u64) -> (Transfer, CollateralWithdrawn) {
        (
            Transfer {
                from: self.vault_ata.key,
                to: self.user_ata.key,
                authority: self.vault_authority_key,
                amount,
            },
            CollateralWithdrawn {
                user: self.user,
                token_mint: self.user_balance.token_mint,
                amount,
                remaining_balance: (self.user_balance.balance - amount) as u64,
            },
        )
    }
}

/// Withdraws `amount` of the user's available balance: the balance and the
/// custody total both shrink by `amount`, and the tokens are to be moved
/// out of custody into the user's token account.
///
/// Refused where the ledger is paused, where the record is not the user's,
/// where less than `amount` is available or in custody, where a record or a
/// token account belongs to another token or is not the user's, and where
/// `amount` is zero. Where the withdrawal is refused, nothing changes.
pub fn handler(ctx: &mut WithdrawCollateral, amount: u64) -> (r: Result<
    (Transfer, CollateralWithdrawn),
    VaultError,
>)
    ensures
        match old(ctx).spec_check(amount) {
            Ok(_) => r == Ok::<(Transfer, CollateralWithdrawn), VaultError>(
                old(ctx).spec_outcome(amount),
            ) && *final(ctx) == old(ctx).spec_after(amount),
            Err(e) => r == Err::<(Transfer, CollateralWithdrawn), VaultError>(e) && *final(ctx)
                == *old(ctx),
        },
{
    if ctx.config.paused {
        return Err(VaultError::VaultPaused);
    }
    if ctx.user_balance.user != ctx.user {
        return Err(VaultError::InvalidAccountOwner);
    }
    if ctx.user_balance.balance < amount {
        return Err(VaultError::InsufficientBalance);
    }
    if ctx.vault_authority.token_mint != ctx.user_balance.token_mint {
        return Err(VaultError::InvalidTokenMint);
    }
    if ctx.vault_ata.key != ctx.vault_authority.vault_ata {
        return Err(VaultError::InvalidTokenMint);
    }
    if ctx.vault_ata.mint != ctx.user_balance.token_mint {
        return Err(VaultError::InvalidTokenMint);
    }
    if ctx.user_ata.mint != ctx.user_balance.token_mint {
        return Err(VaultError::InvalidTokenMint);
    }
    if ctx.user_ata.owner != ctx.user {
        return Err(VaultError::InvalidAccountOwner);
    }
    if amount == 0 {
        return Err(VaultError::ZeroAmount);
    }
    let mut user_balance = ctx.user_balance;
    let mut vault_authority = ctx.vault_authority;
    user_balance.slash_balance(amount)?;
    vault_authority.subtract_deposit(amount)?;
    ctx.user_balance = user_balance;
    ctx.vault_authority = vault_authority;
    Ok(
        (
            Transfer {
                from: ctx.vault_ata.key,
                to: ctx.user_ata.key,
                authority: ctx.vault_authority_key,
                amount,
            },
            CollateralWithdrawn {
                user: ctx.user,
                token_mint: user_balance.token_mint,
                amount,
                remaining_balance: user_balance.balance,
            },
        ),
    )
}

} // verus!
