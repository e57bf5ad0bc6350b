//! A privileged caller adds to a user's balance, to unlock collateral.
use vstd::prelude::*;
use crate::escrow_vault::error::VaultError;
use crate::escrow_vault::events::BalanceCredited;
use crate::escrow_vault::state::{UserBalance, VaultAuthority, VaultConfig};
use crate::escrow_vault::utils::{admit_caller, spec_admit, InstructionsSysvar};

verus! {

/// What adding to a balance works on: the user's record, the custody
/// record of its token, and what the host shows of the transaction.
#[derive(Clone, Debug, PartialEq, Eq)]
pub struct CreditBalance {
    pub config: VaultConfig,
    pub user_balance: UserBalance,
    pub vault_authority: VaultAuthority,
    pub instruction_sysvar: InstructionsSysvar,
}

/// Whether `amount` can be added to `user_balance`.
pub open spec fn spec_check(
    config: VaultConfig,
    user_balance: UserBalance,
    shown: InstructionsSysvar,
    amount: u64,
) -> Result<(), VaultError> {
    if spec_admit(config, shown) is Err {
        Err(spec_admit(config, shown)->Err_0)
    } else if amount == 0 {
        Err(VaultError::ZeroAmount)
    } else if user_balance.balance + amount > u64::MAX {
        Err(VaultError::MathOverflow)
    } else {
        Ok(())
    }
}

/// The user's record after `amount` was added.
pub open spec fn spec_after(user_balance: UserBalance, amount: u64) -> UserBalance {
    UserBalance { balance: (user_balance.balance + amount) as u64, ..user_balance }
}

/// The announcement that `amount` was added.
pub open spec fn spec_outcome(
    config: VaultConfig,
    user_balance: UserBalance,
    shown: InstructionsSysvar,
    amount: u64,
) -> BalanceCredited {
    BalanceCredited {
        user: user_balance.user,
        token_mint: user_balance.token_mint,
        amount,
        caller_program: spec_admit(config, shown)->Ok_0,
    }
}

/// Adds `amount` to the available balance in `user_balance`. What is in
/// custody stays as it is.
///
/// Refused where the caller is not admitted; then where `amount` is zero;
/// then with `MathOverflow` where the balance would not fit in 64 bits.
/// Where it is refused, the record stays as it was.
pub fn credit(
    config: &VaultConfig,
    user_balance: &mut UserBalance,
    shown: &InstructionsSysvar,
    amount: u64,
) -> (r: Result<BalanceCredited, VaultError>)
    ensures
        match spec_check(*config, *old(user_balance), *shown, amount) {
            Ok(_) => r == Ok::<BalanceCredited, VaultError>(
                spec_outcome(*config, *old(user_balance), *shown, amount),
            ) && *final(user_balance) == spec_after(*old(user_balance), amount),
            Err(e) => r == Err::<BalanceCredited, VaultError>(e) && *final(user_balance) == *old(
                user_balance
            ),
        },
{
    let caller_program_id = admit_caller(config, shown, "CreditBalance")?;
    if amount == 0 {
        return Err(VaultError::ZeroAmount);
    }
    user_balance.credit_balance(amount)?;
    Ok(
        BalanceCredited {
            user: user_balance.user,
            token_mint: user_balance.token_mint,
            amount,
            caller_program: caller_program_id,
        },
    )
}

/// Adds `amount` to the user's available balance: [`credit`] on the records
/// of `ctx`. Where it is refused, nothing changes.
pub fn handler(ctx: &mut CreditBalance, amount: u64) -> (r: Result<BalanceCredited, VaultError>)
    ensures
        match spec_check(old(ctx).config, old(ctx).user_balance, old(ctx).instruction_sysvar, amount) {
            Ok(_) => r == Ok::<BalanceCredited, VaultError>(
                spec_outcome(
                    old(ctx).config,
                    old(ctx).user_balance,
                    old(ctx).instruction_sysvar,
                    amount,
                ),
            ) && *final(ctx) == (CreditBalance {
                user_balance: spec_after(old(ctx).user_balance, amount),
                ..*old(ctx)
            }),
            Err(e) => r == Err::<BalanceCredited, VaultError>(e) && *final(ctx) == *old(ctx),
        },
{
    let mut user_balance = ctx.user_balance;
    let announced = credit(&ctx.config, &mut user_balance, &ctx.instruction_sysvar, amount)?;
    ctx.user_balance = user_balance;
    Ok(announced)
}

} // verus!
