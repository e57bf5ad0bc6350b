//! The ledger's configuration: who administers it, whether it is paused,
//! and which programs may act on users' balances.
use vstd::prelude::*;
use crate::escrow_vault::error::VaultError;
use crate::program_ids::{
    system_program_bytes, system_program_id, token_program_bytes, token_program_id,
};
use crate::pubkey::{
    contains, first_at, lemma_pubkey_eq, lemma_push_keeps_distinct, lemma_remove_keeps_distinct,
    position, removed_first, Pubkey,
};

verus! {

/// Most programs that the allow-list can hold.
pub const MAX_AUTHORIZED_TRADERS: usize = 10;

/// The ledger's one configuration record.
#[derive(Clone, Debug, PartialEq, Eq)]
pub struct VaultConfig {
    pub admin: Pubkey,
    pub emergency_admin: Pubkey,
    pub paused: bool,
    pub authorized_traders: Vec<Pubkey>,
    pub bump: u8,
}

impl VaultConfig {
    /// Bytes that the record occupies in storage with a full allow-list.
    pub const INIT_SPACE: usize = 32 + 32 + 1 + 4 + (32 * 10) + 1;

    /// The allow-list holds at most ten programs, none of them twice.
    pub open spec fn wf(self) -> bool {
        &&& self.authorized_traders@.len() <= MAX_AUTHORIZED_TRADERS
        &&& self.authorized_traders@.no_duplicates()
    }

    /// The programs on the allow-list.
    pub open spec fn traders(self) -> Set<Pubkey> {
        self.authorized_traders@.to_set()
    }

    /// Everything but the allow-list is as in `before`.
    pub open spec fn same_settings(self, before: VaultConfig) -> bool {
        &&& self.admin == before.admin
        &&& self.emergency_admin == before.emergency_admin
        &&& self.paused == before.paused
        &&& self.bump == before.bump
    }

    /// Whether `trader_program` can be put on the allow-list.
    pub open spec fn spec_add_trader(self, trader_program: Pubkey) -> Result<(), VaultError> {
        if self.authorized_traders@.contains(trader_program) {
            Err(VaultError::TraderAlreadyAuthorized)
        } else if self.authorized_traders@.len() >= MAX_AUTHORIZED_TRADERS {
            Err(VaultError::MaximumTradersReached)
        } else {
            Ok(())
        }
    }

    /// Whether `trader_program` can be taken off the allow-list.
    pub open spec fn spec_remove_trader(self, trader_program: Pubkey) -> Result<(), VaultError> {
        if self.authorized_traders@.contains(trader_program) {
            Ok(())
        } else {
            Err(VaultError::TraderNotFound)
        }
    }

    /// What a caller is told: paused, not on the list, or admitted.
    pub open spec fn spec_authorize(self, caller: Pubkey) -> Result<(), VaultError> {
        if self.paused {
            Err(VaultError::VaultPaused)
        } else if !self.authorized_traders@.contains(caller) {
            Err(VaultError::UnauthorizedTrader)
        } else {
            Ok(())
        }
    }

    /// Starts the configuration: not paused, nobody on the allow-list.
    pub fn initialize(&mut self, admin: Pubkey, emergency_admin: Pubkey, bump: u8)
        ensures
            final(self).admin == admin,
            final(self).emergency_admin == emergency_admin,
            !final(self).paused,
            final(self).authorized_traders@ == Seq::<Pubkey>::empty(),
            final(self).bump == bump,
            final(self).wf(),
    {
        self.admin = admin;
        self.emergency_admin = emergency_admin;
        self.paused = false;
        self.authorized_traders = Vec::new();
        self.bump = bump;
    }

    /// Whether `trader_program` is on the allow-list.
    pub fn is_authorized_trader(&self, trader_program: &Pubkey) -> (r: bool)
        ensures
            r == self.authorized_traders@.contains(*trader_program),
    {
        contains(&self.authorized_traders, trader_program)
    }

    /// Puts `trader_program` on the allow-list. A program that is on it
    /// already, or an eleventh program, is refused and the list stays as it
    /// was.
    pub fn add_authorized_trader(&mut self, trader_program: Pubkey) -> (r: Result<(), VaultError>)
        ensures
            r == old(self).spec_add_trader(trader_program),
            r is Ok ==> final(self).authorized_traders@ == old(self).authorized_traders@.push(
                trader_program,
            ),
            r is Err ==> final(self).authorized_traders@ == old(self).authorized_traders@,
            final(self).same_settings(*old(self)),
            old(self).wf() ==> final(self).wf(),
    {
        if contains(&self.authorized_traders, &trader_program) {
            return Err(VaultError::TraderAlreadyAuthorized);
        }
        if self.authorized_traders.len() >= MAX_AUTHORIZED_TRADERS {
            return Err(VaultError::MaximumTradersReached);
        }
        proof {
            lemma_push_keeps_distinct(self.authorized_traders@, trader_program);
        }
        self.authorized_traders.push(trader_program);
        Ok(())
    }

    /// Takes `trader_program` off the allow-list, where it stands first; the
    /// others keep their order. A program that is not on it is reported and
    /// the list stays as it was.
    pub fn remove_authorized_trader(&mut self, trader_program: &Pubkey) -> (r: Result<
        (),
        VaultError,
    >)
        ensures
            r == old(self).spec_remove_trader(*trader_program),
            r is Ok ==> removed_first(
                old(self).authorized_traders@,
                *trader_program,
                final(self).authorized_traders@,
            ),
            r is Err ==> final(self).authorized_traders@ == old(self).authorized_traders@,
            final(self).same_settings(*old(self)),
            old(self).wf() ==> final(self).wf(),
            old(self).wf() && r is Ok ==> !final(self).authorized_traders@.contains(
                *trader_program,
            ),
    {
        match position(&self.authorized_traders, trader_program) {
            Some(at) => {
                proof {
                    lemma_remove_keeps_distinct(self.authorized_traders@, at as int);
                    assert(first_at(self.authorized_traders@, *trader_program, at as int));
                }
                self.authorized_traders.remove(at);
                Ok(())
            },
            None => Err(VaultError::TraderNotFound),
        }
    }

    /// What a caller who is on the allow-list is told where the host's own
    /// programs are refused as well.
    pub open spec fn spec_authorize_advanced(self, caller: Pubkey) -> Result<(), VaultError> {
        if self.spec_authorize(caller) is Err {
            self.spec_authorize(caller)
        } else if caller@ == system_program_bytes() || caller@ == token_program_bytes() {
            Err(VaultError::UnauthorizedTrader)
        } else {
            Ok(())
        }
    }

    /// Checks that the ledger is not paused. This alone admits nobody: it
    /// does not look at the caller.
    pub fn validate_cpi_caller(&self) -> (r: Result<(), VaultError>)
        ensures
            self.paused ==> r == Err::<(), VaultError>(VaultError::VaultPaused),
            !self.paused ==> r is Ok,
    {
        if self.paused {
            return Err(VaultError::VaultPaused);
        }
        Ok(())
    }

    /// Admits the caller `caller_program` as [`Self::validate_cpi_caller_precise`]
    /// does.
    pub fn validate_cpi_caller_with_logging(&self, caller_program: &Pubkey, operation: &str) -> (r:
        Result<(), VaultError>)
        ensures
            r == self.spec_authorize(*caller_program),
    {
        if self.paused {
            return Err(VaultError::VaultPaused);
        }
        if !self.is_authorized_trader(caller_program) {
            return Err(VaultError::UnauthorizedTrader);
        }
        Ok(())
    }

    /// Admits the caller `caller_program` as [`Self::validate_cpi_caller_precise`]
    /// does, and refuses the host's system program and token program even
    /// where they are on the allow-list.
    pub fn validate_cpi_caller_advanced(&self, caller_program: &Pubkey, operation: &str) -> (r:
        Result<(), VaultError>)
        ensures
            r == self.spec_authorize_advanced(*caller_program),
    {
        if self.paused {
            return Err(VaultError::VaultPaused);
        }
        if !self.is_authorized_trader(caller_program) {
            return Err(VaultError::UnauthorizedTrader);
        }
        let system = system_program_id();
        let token = token_program_id();
        proof {
            lemma_pubkey_eq(*caller_program, system);
            lemma_pubkey_eq(*caller_program, token);
        }
        if *caller_program == system {
            return Err(VaultError::UnauthorizedTrader);
        }
        if *caller_program == token {
            return Err(VaultError::UnauthorizedTrader);
        }
        Ok(())
    }

    /// Admits a privileged caller: the ledger must not be paused and the
    /// caller, as detected from the running transaction, must be on the
    /// allow-list. `operation` names the operation for the caller's records
    /// and decides nothing.
    pub fn validate_cpi_caller_precise(&self, caller_program_id: &Pubkey, operation: &str) -> (r:
        Result<(), VaultError>)
        ensures
            r == self.spec_authorize(*caller_program_id),
    {
        if self.paused {
            return Err(VaultError::VaultPaused);
        }
        if !self.is_authorized_trader(caller_program_id) {
            return Err(VaultError::UnauthorizedTrader);
        }
        Ok(())
    }
}

} // verus!
