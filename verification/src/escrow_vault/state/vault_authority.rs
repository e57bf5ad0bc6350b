//! The custody record of one token.
use vstd::prelude::*;
use crate::escrow_vault::error::VaultError;
use crate::pubkey::Pubkey;

verus! {

/// What is held in custody of one token, over all users.
#[derive(Clone, Copy, Debug, PartialEq, Eq)]
pub struct VaultAuthority {
    pub token_mint: Pubkey,
    pub vault_ata: Pubkey,
    pub total_deposits: u64,
    pub bump: u8,
}

impl VaultAuthority {
    /// Bytes that the record occupies in storage.
    pub const INIT_SPACE: usize = 32 + 32 + 8 + 1;

    /// The record after `amount` came into custody, or the overflow.
    pub open spec fn spec_add_deposit(self, amount: u64) -> Result<VaultAuthority, VaultError> {
        if self.total_deposits + amount > u64::MAX {
            Err(VaultError::MathOverflow)
        } else {
            Ok(VaultAuthority { total_deposits: (self.total_deposits + amount) as u64, ..self })
        }
    }

    /// The record after `amount` left custody, or the shortfall.
    pub open spec fn spec_subtract_deposit(self, amount: u64) -> Result<
        VaultAuthority,
        VaultError,
    > {
        if self.total_deposits < amount {
            Err(VaultError::InsufficientBalance)
        } else {
            Ok(VaultAuthority { total_deposits: (self.total_deposits - amount) as u64, ..self })
        }
    }

    /// Whether the record has never been written.
    pub open spec fn is_new(self) -> bool {
        self.token_mint == Pubkey::spec_default()
    }

    /// Starts the custody record of `token_mint` with nothing held.
    pub fn initialize(&mut self, token_mint: Pubkey, vault_ata: Pubkey, bump: u8)
        ensures
            *final(self) == (VaultAuthority { token_mint, vault_ata, total_deposits: 0, bump }),
    {
        self.token_mint = token_mint;
        self.vault_ata = vault_ata;
        self.total_deposits = 0;
        self.bump = bump;
    }

    /// Counts `amount` more in custody; at the numeric ceiling the record
    /// stays as it was.
    pub fn add_deposit(&mut self, amount: u64) -> (r: Result<(), VaultError>)
        ensures
            match old(self).spec_add_deposit(amount) {
                Ok(after) => r is Ok && *final(self) == after,
                Err(e) => r == Err::<(), VaultError>(e) && *final(self) == *old(self),
            },
    {
        match self.total_deposits.checked_add(amount) {
            Some(sum) => {
                self.total_deposits = sum;
                Ok(())
            },
            None => Err(VaultError::MathOverflow),
        }
    }

    /// Counts `amount` less in custody; where less is held the record stays
    /// as it was.
    pub fn subtract_deposit(&mut self, amount: u64) -> (r: Result<(), VaultError>)
        ensures
            match old(self).spec_subtract_deposit(amount) {
                Ok(after) => r is Ok && *final(self) == after,
                Err(e) => r == Err::<(), VaultError>(e) && *final(self) == *old(self),
            },
    {
        if self.total_deposits < amount {
            return Err(VaultError::InsufficientBalance);
        }
        self.total_deposits = self.total_deposits - amount;
        Ok(())
    }
}

} // verus!
