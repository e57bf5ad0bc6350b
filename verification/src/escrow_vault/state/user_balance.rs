//! The balance that one user has available in one token.
use vstd::prelude::*;
use crate::escrow_vault::error::VaultError;
use crate::pubkey::Pubkey;

verus! {

/// One user's available balance in one token.
///
/// Collateral that is locked for a trade is not recorded anywhere else: it
/// is what has been taken out of `balance` and is still in custody.
#[derive(Clone, Copy, Debug, PartialEq, Eq)]
pub struct UserBalance {
    pub user: Pubkey,
    pub token_mint: Pubkey,
    pub balance: u64,
    pub bump: u8,
}

impl UserBalance {
    /// Bytes that the record occupies in storage.
    pub const INIT_SPACE: usize = 32 + 32 + 8 + 1;

    /// The record after `amount` was added, or the overflow.
    pub open spec fn spec_credit(self, amount: u64) -> Result<UserBalance, VaultError> {
        if self.balance + amount > u64::MAX {
            Err(VaultError::MathOverflow)
        } else {
            Ok(UserBalance { balance: (self.balance + amount) as u64, ..self })
        }
    }

    /// The record after `amount` was taken, or the shortfall.
    pub open spec fn spec_slash(self, amount: u64) -> Result<UserBalance, VaultError> {
        if self.balance < amount {
            Err(VaultError::InsufficientBalance)
        } else {
            Ok(UserBalance { balance: (self.balance - amount) as u64, ..self })
        }
    }

    /// Whether the record has never been written.
    pub open spec fn is_new(self) -> bool {
        self.user == Pubkey::spec_default()
    }

    /// Starts the record of `user` in `token_mint` with nothing available.
    pub fn initialize(&mut self, user: Pubkey, token_mint: Pubkey, bump: u8)
        ensures
            *final(self) == (UserBalance { user, token_mint, balance: 0, bump }),
    {
        self.user = user;
        self.token_mint = token_mint;
        self.balance = 0;
        self.bump = bump;
    }

    /// Adds `amount` to the balance; at the numeric ceiling the record stays
    /// as it was.
    pub fn credit_balance(&mut self, amount: u64) -> (r: Result<(), VaultError>)
        ensures
            old(self).balance + amount <= u64::MAX ==> r is Ok && final(self).balance
                == old(self).balance + amount,
            old(self).balance + amount > u64::MAX ==> r == Err::<(), VaultError>(
                VaultError::MathOverflow,
            ) && *final(self) == *old(self),
            final(self).user == old(self).user,
            final(self).token_mint == old(self).token_mint,
            final(self).bump == old(self).bump,
            match old(self).spec_credit(amount) {
                Ok(after) => r is Ok && *final(self) == after,
                Err(e) => r == Err::<(), VaultError>(e) && *final(self) == *old(self),
            },
    {
        match self.balance.checked_add(amount) {
            Some(sum) => {
                self.balance = sum;
                Ok(())
            },
            None => Err(VaultError::MathOverflow),
        }
    }

    /// Takes `amount` from the balance; where less is available the record
    /// stays as it was.
    pub fn slash_balance(&mut self, amount: u64) -> (r: Result<(), VaultError>)
        ensures
            amount <= old(self).balance ==> r is Ok && final(self).balance == old(self).balance
                - amount,
            amount > old(self).balance ==> r == Err::<(), VaultError>(
                VaultError::InsufficientBalance,
            ) && *final(self) == *old(self),
            final(self).user == old(self).user,
            final(self).token_mint == old(self).token_mint,
            final(self).bump == old(self).bump,
            match old(self).spec_slash(amount) {
                Ok(after) => r is Ok && *final(self) == after,
                Err(e) => r == Err::<(), VaultError>(e) && *final(self) == *old(self),
            },
    {
        if self.balance < amount {
            return Err(VaultError::InsufficientBalance);
        }
        self.balance = self.balance - amount;
        Ok(())
    }

    /// Whether at least `amount` is available.
    pub fn has_sufficient_balance(&self, amount: u64) -> (r: bool)
        ensures
            r == (self.balance >= amount),
    {
        self.balance >= amount
    }
}

/// Taking an amount that is available and adding it again gives the record
/// back exactly.
pub proof fn lemma_slash_then_credit_restores(record: UserBalance, amount: u64)
    requires
        amount <= record.balance,
    ensures
        record.spec_slash(amount) is Ok,
        record.spec_slash(amount).unwrap().spec_credit(amount) == Ok::<UserBalance, VaultError>(
            record,
        ),
{
}

/// Adding an amount that fits and taking it again gives the record back
/// exactly.
pub proof fn lemma_credit_then_slash_restores(record: UserBalance, amount: u64)
    requires
        record.balance + amount <= u64::MAX,
    ensures
        record.spec_credit(amount) is Ok,
        record.spec_credit(amount).unwrap().spec_slash(amount) == Ok::<UserBalance, VaultError>(
            record,
        ),
{
}

} // verus!
