//! A privileged caller takes from a user's balance, to lock collateral.
use vstd::prelude::*;
use crate::escrow_vault::error::VaultError;
use crate::escrow_vault::events::BalanceSlashed;
use crate::escrow_vault::state::{UserBalance, VaultAuthority, VaultConfig};
use crate::escrow_vault::utils::{admit_caller, spec_admit, InstructionsSysvar};

verus! {

/// What taking from a balance works on: the user's record, the custody
/// record of its token, and what the host shows of the transaction.
#[derive(Clone, Debug, PartialEq, Eq)]
pub struct SlashBalance {
    pub config: VaultConfig,
    pub user_balance: UserBalance,
    pub vault_authority: VaultAuthority,
    pub instruction_sysvar: InstructionsSysvar,
}

/// Whether `amount` can be taken from `user_balance`.
pub open spec fn spec_check(
    config: VaultConfig,
    user_balance: UserBalance,
    shown: InstructionsSysvar,
    amount: u64,
) -> Result<(), VaultError> {
    if user_balance.balance < amount {
        Err(VaultError::InsufficientBalance)
    } else if spec_admit(config, shown) is Err {
        Err(spec_admit(config, shown)->Err_0)
    } else if amount == 0 {
        Err(VaultError::ZeroAmount)
    } else {
        Ok(())
    }
}

/// The user's record after `amount` was taken.
pub open spec fn spec_after(user_balance: UserBalance, amount: u64) -> UserBalance {
    UserBalance { balance: (user_balance.balance - amount) as u64, ..user_balance }
}

/// The announcement that `amount` was taken.
pub open spec fn spec_outcome(
    config: VaultConfig,
    user_balance: UserBalance,
    shown: InstructionsSysvar,
    amount: u64,
) -> BalanceSlashed {
    BalanceSlashed {
        user: user_balance.user,
        token_mint: user_balance.token_mint,
        amount,
        caller_program: spec_admit(config, shown)->Ok_0,
    }
}

/// Takes `amount` from the available balance in `user_balance`. What is in
/// custody stays there: the amount is locked.
///
/// Refused with `InsufficientBalance` whenever less than `amount` is
/// available; then where the caller is not admitted; then where `amount` is
/// zero. Where it is refused, the record stays as it was.
pub fn slash(
    config: &VaultConfig,
    user_balance: &mut UserBalance,
    shown: &InstructionsSysvar,
    amount: u64,
) -> (r: Result<BalanceSlashed, VaultError>)
    ensures
        match spec_check(*config, *old(user_balance), *shown, amount) {
            Ok(_) => r == Ok::<BalanceSlashed, VaultError>(
                spec_outcome(*config, *old(user_balance), *shown, amount),
            ) && *final(user_balance) == spec_after(*old(user_balance), amount),
            Err(e) => r == Err::<BalanceSlashed, VaultError>(e) && *final(user_balance) == *old(
                user_balance
            ),
        },
        amount > old(user_balance).balance ==> r == Err::<BalanceSlashed, VaultError>(
            VaultError::InsufficientBalance,
        ),
{
    if user_balance.balance < amount {
        return Err(VaultError::InsufficientBalance);
    }
    let caller_program_id = admit_caller(config, shown, "SlashBalance")?;
    if amount == 0 {
        return Err(VaultError::ZeroAmount);
    }
    user_balance.slash_balance(amount)?;
    Ok(
        BalanceSlashed {
            user: user_balance.user,
            token_mint: user_balance.token_mint,
            amount,
            caller_program: caller_program_id,
        },
    )
}

/// Takes `amount` from the user's available balance: [`slash`] on the
/// records of `ctx`. Where it is refused, nothing changes.
pub fn handler(ctx: &mut SlashBalance, amount: u64) -> (r: Result<BalanceSlashed, VaultError>)
    ensures
        match spec_check(old(ctx).config, old(ctx).user_balance, old(ctx).instruction_sysvar, amount) {
            Ok(_) => r == Ok::<BalanceSlashed, VaultError>(
                spec_outcome(
                    old(ctx).config,
                    old(ctx).user_balance,
                    old(ctx).instruction_sysvar,
                    amount,
                ),
            ) && *final(ctx) == (SlashBalance {
                user_balance: spec_after(old(ctx).user_balance, amount),
                ..*old(ctx)
            }),
            Err(e) => r == Err::<BalanceSlashed, VaultError>(e) && *final(ctx) == *old(ctx),
        },
        amount > old(ctx).user_balance.balance ==> r == Err::<BalanceSlashed, VaultError>(
            VaultError::InsufficientBalance,
        ),
{
    let mut user_balance = ctx.user_balance;
    let announced = slash(&ctx.config, &mut user_balance, &ctx.instruction_sysvar, amount)?;
    ctx.user_balance = user_balance;
    Ok(announced)
}

} // verus!
