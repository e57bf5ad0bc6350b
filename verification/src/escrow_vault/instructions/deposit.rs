//! A user puts tokens into custody.
use vstd::prelude::*;
use crate::escrow_vault::error::VaultError;
use crate::escrow_vault::events::CollateralDeposited;
use crate::escrow_vault::state::{UserBalance, VaultAuthority, VaultConfig};
use crate::pubkey::Pubkey;
use crate::token::{TokenAccount, Transfer};

verus! {

/// What a deposit works on.
///
/// `user_balance` and `vault_authority` are the records that the host keeps
/// under the keys of (`user`, `token_mint`) and of `token_mint`; a record
/// that was never written has the all-zero identity in its first field, and
/// would be written under the address with the bump given here.
#[derive(Clone, Debug, PartialEq, Eq)]
pub struct DepositCollateral {
    pub config: VaultConfig,
    pub user_balance: UserBalance,
    pub user_balance_bump: u8,
    pub vault_authority: VaultAuthority,
    pub vault_authority_key: Pubkey,
    pub vault_authority_bump: u8,
    pub vault_ata: TokenAccount,
    pub user_ata: TokenAccount,
    pub token_mint: Pubkey,
    pub user: Pubkey,
}

impl DepositCollateral {
    /// The user's record as the deposit finds or starts it.
    pub open spec fn opened_balance(self) -> UserBalance {
        if self.user_balance.is_new() {
            UserBalance {
                user: self.user,
                token_mint: self.token_mint,
                balance: 0,
                bump: self.user_balance_bump,
            }
        } else {
            self.user_balance
        }
    }

    /// The custody record as the deposit finds or starts it.
    pub open spec fn opened_authority(self) -> VaultAuthority {
        if self.vault_authority.is_new() {
            VaultAuthority {
                token_mint: self.token_mint,
                vault_ata: self.vault_ata.key,
                total_deposits: 0,
                bump: self.vault_authority_bump,
            }
        } else {
            self.vault_authority
        }
    }

    /// Whether `amount` can be deposited.
    pub open spec fn spec_check(self, amount: u64) -> Result<(), VaultError> {
        if self.config.paused {
            Err(VaultError::VaultPaused)
        } else if self.vault_ata.mint != self.token_mint {
            Err(VaultError::InvalidTokenMint)
        } else if self.vault_ata.owner != self.vault_authority_key {
            Err(VaultError::InvalidAccountOwner)
        } else if self.user_ata.mint != self.token_mint {
            Err(VaultError::InvalidTokenMint)
        } else if self.user_ata.owner != self.user {
            Err(VaultError::InvalidAccountOwner)
        } else if self.user_ata.amount < amount {
            Err(VaultError::InsufficientBalance)
        } else if amount == 0 {
            Err(VaultError::ZeroAmount)
        } else if self.opened_balance().balance + amount > u64::MAX {
            Err(VaultError::MathOverflow)
        } else if self.opened_authority().total_deposits + amount > u64::MAX {
            Err(VaultError::MathOverflow)
        } else {
            Ok(())
        }
    }

    /// The records after `amount` was deposited.
    pub open spec fn spec_after(self, amount: u64) -> DepositCollateral {
        DepositCollateral {
            user_balance: UserBalance {
                balance: (self.opened_balance().balance + amount) as u64,
                ..self.opened_balance()
            },
            vault_authority: VaultAuthority {
                total_deposits: (self.opened_authority().total_deposits + amount) as u64,
                ..self.opened_authority()
            },
            ..self
        }
    }

    /// The transfer into custody and the announcement of a deposit of
    /// `amount`.
    pub open spec fn spec_outcome(self, amount: u64) -> (Transfer, CollateralDeposited) {
        (
            Transfer {
                from: self.user_ata.key,
                to: self.vault_ata.key,
                authority: self.user,
                amount,
            },
            CollateralDeposited {
                user: self.user,
                token_mint: self.token_mint,
                amount,
                new_balance: (self.opened_balance().balance + amount) as u64,
            },
        )
    }
}

/// Deposits `amount` of the user's tokens: the user's balance and the
/// custody total both grow by `amount`, and the tokens are to be moved from
/// the user's token account into custody.
///
/// Refused where the ledger is paused, where a token account holds another
/// token or is not its supposed owner's, where the user holds less than
/// `amount`, where `amount` is zero, and where a sum would not fit in 64
/// bits. Where the deposit is refused, nothing changes.
pub fn handler(ctx: &mut DepositCollateral, amount: u64) -> (r: Result<
    (Transfer, CollateralDeposited),
    VaultError,
>)
    ensures
        match old(ctx).spec_check(amount) {
            Ok(_) => r == Ok::<(Transfer, CollateralDeposited), VaultError>(
                old(ctx).spec_outcome(amount),
            ) && *final(ctx) == old(ctx).spec_after(amount),
            Err(e) => r == Err::<(Transfer, CollateralDeposited), VaultError>(e) && *final(ctx)
                == *old(ctx),
        },
{
    if ctx.config.paused {
        return Err(VaultError::VaultPaused);
    }
    if ctx.vault_ata.mint != ctx.token_mint {
        return Err(VaultError::InvalidTokenMint);
    }
    if ctx.vault_ata.owner != ctx.vault_authority_key {
        return Err(VaultError::InvalidAccountOwner);
    }
    if ctx.user_ata.mint != ctx.token_mint {
        return Err(VaultError::InvalidTokenMint);
    }
    if ctx.user_ata.owner != ctx.user {
        return Err(VaultError::InvalidAccountOwner);
    }
    if ctx.user_ata.amount < amount {
        return Err(VaultError::InsufficientBalance);
    }
    if amount == 0 {
        return Err(VaultError::ZeroAmount);
    }
    let mut user_balance = ctx.user_balance;
    if user_balance.user.is_default() {
        user_balance.initialize(ctx.user, ctx.token_mint, ctx.user_balance_bump);
    }
    let mut vault_authority = ctx.vault_authority;
    if vault_authority.token_mint.is_default() {
        vault_authority.initialize(ctx.token_mint, ctx.vault_ata.key, ctx.vault_authority_bump);
    }
    user_balance.credit_balance(amount)?;
    vault_authority.add_deposit(amount)?;
    ctx.user_balance = user_balance;
    ctx.vault_authority = vault_authority;
    Ok(
        (
            Transfer {
                from: ctx.user_ata.key,
                to: ctx.vault_ata.key,
                authority: ctx.user,
                amount,
            },
            CollateralDeposited {
                user: ctx.user,
                token_mint: ctx.token_mint,
                amount,
                new_balance: user_balance.balance,
            },
        ),
    )
}

} // verus!
