//! Pausing and resuming the ledger.
use vstd::prelude::*;
use crate::escrow_vault::error::VaultError;
use crate::escrow_vault::events::{VaultPaused, VaultUnpaused};
use crate::escrow_vault::state::VaultConfig;
use crate::pubkey::Pubkey;

verus! {

/// What pausing and resuming work on: the configuration record and the
/// signer, who must be the emergency administrator.
#[derive(Clone, Debug, PartialEq, Eq)]
pub struct EmergencyControl {
    pub config: VaultConfig,
    pub emergency_admin: Pubkey,
}

impl EmergencyControl {
    /// Whether the ledger can be paused.
    pub open spec fn spec_check_pause(self) -> Result<(), VaultError> {
        if self.config.emergency_admin != self.emergency_admin {
            Err(VaultError::InvalidEmergencyAdmin)
        } else if self.config.paused {
            Err(VaultError::VaultPaused)
        } else {
            Ok(())
        }
    }

    /// Whether the ledger can be resumed.
    pub open spec fn spec_check_unpause(self) -> Result<(), VaultError> {
        if self.config.emergency_admin != self.emergency_admin {
            Err(VaultError::InvalidEmergencyAdmin)
        } else if !self.config.paused {
            Err(VaultError::VaultNotPaused)
        } else {
            Ok(())
        }
    }

    /// The same records with the pause switch at `paused`.
    pub open spec fn with_paused(self, paused: bool) -> EmergencyControl {
        EmergencyControl { config: VaultConfig { paused, ..self.config }, ..self }
    }
}

/// Pauses the ledger at `now`. Only the emergency administrator can, and
/// only a ledger that is running; else nothing changes.
pub fn pause_handler(ctx: &mut EmergencyControl, now: i64) -> (r: Result<VaultPaused, VaultError>)
    ensures
        match old(ctx).spec_check_pause() {
            Ok(_) => r == Ok::<VaultPaused, VaultError>(
                VaultPaused { emergency_admin: old(ctx).emergency_admin, timestamp: now },
            ) && *final(ctx) == old(ctx).with_paused(true),
            Err(e) => r == Err::<VaultPaused, VaultError>(e) && *final(ctx) == *old(ctx),
        },
{
    if ctx.config.emergency_admin != ctx.emergency_admin {
        return Err(VaultError::InvalidEmergencyAdmin);
    }
    if ctx.config.paused {
        return Err(VaultError::VaultPaused);
    }
    ctx.config.paused = true;
    Ok(VaultPaused { emergency_admin: ctx.emergency_admin, timestamp: now })
}

/// Resumes the ledger at `now`. Only the emergency administrator can, and
/// only a ledger that is paused; else nothing changes.
pub fn unpause_handler(ctx: &mut EmergencyControl, now: i64) -> (r: Result<
    VaultUnpaused,
    VaultError,
>)
    ensures
        match old(ctx).spec_check_unpause() {
            Ok(_) => r == Ok::<VaultUnpaused, VaultError>(
                VaultUnpaused { emergency_admin: old(ctx).emergency_admin, timestamp: now },
            ) && *final(ctx) == old(ctx).with_paused(false),
            Err(e) => r == Err::<VaultUnpaused, VaultError>(e) && *final(ctx) == *old(ctx),
        },
{
    if ctx.config.emergency_admin != ctx.emergency_admin {
        return Err(VaultError::InvalidEmergencyAdmin);
    }
    if !ctx.config.paused {
        return Err(VaultError::VaultNotPaused);
    }
    ctx.config.paused = false;
    Ok(VaultUnpaused { emergency_admin: ctx.emergency_admin, timestamp: now })
}

} // verus!
