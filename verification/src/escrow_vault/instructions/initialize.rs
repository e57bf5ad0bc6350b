//! Setting the ledger up.
use vstd::prelude::*;
use crate::escrow_vault::error::VaultError;
use crate::escrow_vault::events::VaultInitialized;
use crate::escrow_vault::state::VaultConfig;
use crate::pubkey::Pubkey;

verus! {

/// What setting up works on: the configuration record, which the host has
/// just created under the address with the bump `config_bump`, and the
/// signer who pays for it.
#[derive(Clone, Debug, PartialEq, Eq)]
pub struct InitializeVault {
    pub config: VaultConfig,
    pub config_bump: u8,
    pub admin: Pubkey,
}

/// Sets the ledger up at `now` with `admin` and `emergency_admin`: not
/// paused, nobody on the allow-list.
pub fn handler(ctx: &mut InitializeVault, admin: Pubkey, emergency_admin: Pubkey, now: i64) -> (r:
    Result<VaultInitialized, VaultError>)
    ensures
        r == Ok::<VaultInitialized, VaultError>(
            VaultInitialized { admin, emergency_admin, timestamp: now },
        ),
        final(ctx).config.admin == admin,
        final(ctx).config.emergency_admin == emergency_admin,
        !final(ctx).config.paused,
        final(ctx).config.authorized_traders@ == Seq::<Pubkey>::empty(),
        final(ctx).config.bump == old(ctx).config_bump,
        final(ctx).config.wf(),
        final(ctx).config_bump == old(ctx).config_bump,
        final(ctx).admin == old(ctx).admin,
{
    let bump = ctx.config_bump;
    ctx.config.initialize(admin, emergency_admin, bump);
    Ok(VaultInitialized { admin, emergency_admin, timestamp: now })
}

} // verus!
