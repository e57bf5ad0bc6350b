//! Keeping the allow-list of programs that may act on users' balances.
use vstd::prelude::*;
use crate::escrow_vault::error::VaultError;
use crate::escrow_vault::events::{AuthorizedTraderAdded, AuthorizedTraderRemoved};
use crate::escrow_vault::state::VaultConfig;
use crate::pubkey::{removed_first, Pubkey};

verus! {

/// What keeping the allow-list works on: the configuration record and the
/// signer, who must be the administrator.
#[derive(Clone, Debug, PartialEq, Eq)]
pub struct ManageAuthorizedTrader {
    pub config: VaultConfig,
    pub admin: Pubkey,
}

impl ManageAuthorizedTrader {
    /// Whether `trader_program` can be put on the allow-list.
    pub open spec fn spec_check_add(self, trader_program: Pubkey) -> Result<(), VaultError> {
        if self.config.admin != self.admin {
            Err(VaultError::InvalidAdmin)
        } else {
            self.config.spec_add_trader(trader_program)
        }
    }

    /// Whether `trader_program` can be taken off the allow-list.
    pub open spec fn spec_check_remove(self, trader_program: Pubkey) -> Result<(), VaultError> {
        if self.config.admin != self.admin {
            Err(VaultError::InvalidAdmin)
        } else {
            self.config.spec_remove_trader(trader_program)
        }
    }
}

/// Puts `trader_program` on the allow-list at `now`. Only the administrator
/// can. A program that is on the list already, or an eleventh program, is
/// refused. Where the operation fails, nothing changes.
pub fn add_handler(ctx: &mut ManageAuthorizedTrader, trader_program: Pubkey, now: i64) -> (r:
    Result<AuthorizedTraderAdded, VaultError>)
    ensures
        match old(ctx).spec_check_add(trader_program) {
            Ok(_) => r == Ok::<AuthorizedTraderAdded, VaultError>(
                AuthorizedTraderAdded { trader_program, admin: old(ctx).admin, timestamp: now },
            ) && final(ctx).config.authorized_traders@ == old(ctx).config.authorized_traders@.push(
                trader_program,
            ),
            Err(e) => r == Err::<AuthorizedTraderAdded, VaultError>(e)
                && final(ctx).config.authorized_traders@ == old(ctx).config.authorized_traders@,
        },
        final(ctx).config.same_settings(old(ctx).config),
        final(ctx).admin == old(ctx).admin,
        old(ctx).config.wf() ==> final(ctx).config.wf(),
{
    if ctx.config.admin != ctx.admin {
        return Err(VaultError::InvalidAdmin);
    }
    match ctx.config.add_authorized_trader(trader_program) {
        Ok(_) => {},
        Err(e) => { return Err(e); },
    }
    Ok(AuthorizedTraderAdded { trader_program, admin: ctx.admin, timestamp: now })
}

/// Takes `trader_program` off the allow-list at `now`. Only the
/// administrator can. A program that is not on the list is reported. Where
/// the operation fails, nothing changes.
pub fn remove_handler(ctx: &mut ManageAuthorizedTrader, trader_program: Pubkey, now: i64) -> (r:
    Result<AuthorizedTraderRemoved, VaultError>)
    ensures
        match old(ctx).spec_check_remove(trader_program) {
            Ok(_) => r == Ok::<AuthorizedTraderRemoved, VaultError>(
                AuthorizedTraderRemoved { trader_program, admin: old(ctx).admin, timestamp: now },
            ) && removed_first(
                old(ctx).config.authorized_traders@,
                trader_program,
                final(ctx).config.authorized_traders@,
            ),
            Err(e) => r == Err::<AuthorizedTraderRemoved, VaultError>(e)
                && final(ctx).config.authorized_traders@ == old(ctx).config.authorized_traders@,
        },
        final(ctx).config.same_settings(old(ctx).config),
        final(ctx).admin == old(ctx).admin,
        old(ctx).config.wf() ==> final(ctx).config.wf(),
{
    if ctx.config.admin != ctx.admin {
        return Err(VaultError::InvalidAdmin);
    }
    match ctx.config.remove_authorized_trader(&trader_program) {
        Ok(_) => {},
        Err(e) => { return Err(e); },
    }
    Ok(AuthorizedTraderRemoved { trader_program, admin: ctx.admin, timestamp: now })
}

} // verus!
