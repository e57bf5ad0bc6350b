//! A privileged caller moves balance from one user to another.
use vstd::prelude::*;
use crate::escrow_vault::error::VaultError;
use crate::escrow_vault::events::BalanceTransferred;
use crate::escrow_vault::state::{UserBalance, VaultAuthority, VaultConfig};
use crate::escrow_vault::utils::{admit_caller, spec_admit, InstructionsSysvar};
use crate::pubkey::Pubkey;

verus! {

/// What moving balance works on: the records of the two users, the custody
/// record of their token, and what the host shows of the transaction.
#[derive(Clone, Debug, PartialEq, Eq)]
pub struct TransferBalance {
    pub config: VaultConfig,
    pub from_balance: UserBalance,
    pub to_balance: UserBalance,
    pub vault_authority: VaultAuthority,
    pub instruction_sysvar: InstructionsSysvar,
}

impl TransferBalance {
    /// Whether `amount` can be moved from `from_user` to `to_user`.
    pub open spec fn spec_check(self, from_user: Pubkey, to_user: Pubkey, amount: u64) -> Result<
        (),
        VaultError,
    > {
        if self.from_balance.balance < amount {
            Err(VaultError::InsufficientBalance)
        } else if self.from_balance.token_mint != self.to_balance.token_mint {
            Err(VaultError::TokenMintMismatch)
        } else if spec_admit(self.config, self.instruction_sysvar) is Err {
            Err(spec_admit(self.config, self.instruction_sysvar)->Err_0)
        } else if amount == 0 {
            Err(VaultError::ZeroAmount)
        } else if from_user == to_user {
            Err(VaultError::InvalidRecipient)
        } else if self.to_balance.balance + amount > u64::MAX {
            Err(VaultError::MathOverflow)
        } else {
            Ok(())
        }
    }

    /// The records after `amount` was moved.
    pub open spec fn spec_after(self, amount: u64) -> TransferBalance {
        TransferBalance {
            from_balance: UserBalance {
                balance: (self.from_balance.balance - amount) as u64,
                ..self.from_balance
            },
            to_balance: UserBalance {
                balance: (self.to_balance.balance + amount) as u64,
                ..self.to_balance
            },
            ..self
        }
    }

    /// The announcement that `amount` was moved.
    pub open spec fn spec_outcome(
        self,
        from_user: Pubkey,
        to_user: Pubkey,
        amount: u64,
    ) -> BalanceTransferred {
        BalanceTransferred {
            from_user,
            to_user,
            token_mint: self.from_balance.token_mint,
            amount,
            caller_program: spec_admit(self.config, self.instruction_sysvar)->Ok_0,
        }
    }
}

/// Moves `amount` from one user's available balance to another's: what is
/// taken from the one is added to the other, or neither happens.
///
/// Refused with `InsufficientBalance` whenever less than `amount` is
/// available; then where the two records belong to different tokens; then
/// where the caller is not admitted; then where `amount` is zero; then
/// where both users are the same; then with `MathOverflow` where the
/// receiving balance would not fit in 64 bits. Where it is refused, nothing
/// changes.
pub fn handler(ctx: &mut TransferBalance, from_user: Pubkey, to_user: Pubkey, amount: u64) -> (r:
    Result<BalanceTransferred, VaultError>)
    ensures
        match old(ctx).spec_check(from_user, to_user, amount) {
            Ok(_) => r == Ok::<BalanceTransferred, VaultError>(
                old(ctx).spec_outcome(from_user, to_user, amount),
            ) && *final(ctx) == old(ctx).spec_after(amount),
            Err(e) => r == Err::<BalanceTransferred, VaultError>(e) && *final(ctx) == *old(ctx),
        },
        r is Ok ==> final(ctx).from_balance.balance + final(ctx).to_balance.balance
            == old(ctx).from_balance.balance + old(ctx).to_balance.balance,
{
    if ctx.from_balance.balance < amount {
        return Err(VaultError::InsufficientBalance);
    }
    if ctx.from_balance.token_mint != ctx.to_balance.token_mint {
        return Err(VaultError::TokenMintMismatch);
    }
    let caller_program_id = admit_caller(&ctx.config, &ctx.instruction_sysvar, "TransferBalance")?;
    if amount == 0 {
        return Err(VaultError::ZeroAmount);
    }
    if from_user == to_user {
        return Err(VaultError::InvalidRecipient);
    }
    let mut from_balance = ctx.from_balance;
    let mut to_balance = ctx.to_balance;
    from_balance.slash_balance(amount)?;
    to_balance.credit_balance(amount)?;
    ctx.from_balance = from_balance;
    ctx.to_balance = to_balance;
    Ok(
        BalanceTransferred {
            from_user,
            to_user,
            token_mint: from_balance.token_mint,
            amount,
            caller_program: caller_program_id,
        },
    )
}

} // verus!
