//! A user's profile: a display name under the user's own authority.
use vstd::prelude::*;
use crate::premarket_trade::instructions::create_token_market::byte_length;
use crate::pubkey::Pubkey;

verus! {

/// Most bytes in a profile's name.
pub const MAX_PROFILE_NAME_LENGTH: usize = 32;

/// Why a profile operation was rejected.
#[derive(Clone, Copy, Debug, PartialEq, Eq, Structural, Hash)]
pub enum UserProfileError {
    NameTooLong,
    NameEmpty,
    Unauthorized,
}

/// The record of one profile.
#[derive(Clone, Debug, PartialEq, Eq)]
pub struct UserProfile {
    pub authority: Pubkey,
    pub name: String,
    pub created_at: i64,
    pub updated_at: Option<i64>,
    pub version: u8,
    pub bump: u8,
}

/// What starting a profile works on: the record, which the host has just
/// created under the address with the bump `profile_bump`, and the signer.
#[derive(Clone, Debug, PartialEq, Eq)]
pub struct InitializeProfile {
    pub profile: UserProfile,
    pub profile_bump: u8,
    pub user: Pubkey,
}

/// What renaming a profile works on: the record and the signer.
#[derive(Clone, Debug, PartialEq, Eq)]
pub struct UpdateProfile {
    pub profile: UserProfile,
    pub user: Pubkey,
}

/// What closing a profile works on: the record and the signer.
#[derive(Clone, Debug, PartialEq, Eq)]
pub struct CloseProfile {
    pub profile: UserProfile,
    pub user: Pubkey,
}

/// Whether `name` can be a profile's name: at most 32 bytes in UTF-8, and
/// not empty.
pub open spec fn spec_validate_name(name: Seq<char>) -> Result<(), UserProfileError> {
    if byte_length(name) > MAX_PROFILE_NAME_LENGTH {
        Err(UserProfileError::NameTooLong)
    } else if name.len() == 0 {
        Err(UserProfileError::NameEmpty)
    } else {
        Ok(())
    }
}

/// Checks that `name` can be a profile's name.
pub fn validate_name(name: &str) -> (r: Result<(), UserProfileError>)
    ensures
        r == spec_validate_name(name@),
{
    if name.len() > MAX_PROFILE_NAME_LENGTH {
        return Err(UserProfileError::NameTooLong);
    }
    if name.is_empty() {
        return Err(UserProfileError::NameEmpty);
    }
    Ok(())
}

/// Starts the signer's profile at `now` under the name `name`, in the
/// first version of the record. A name that is too long or empty is
/// refused, and nothing changes.
pub fn initialize_profile(ctx: &mut InitializeProfile, name: String, now: i64) -> (r: Result<
    (),
    UserProfileError,
>)
    ensures
        r == spec_validate_name(name@),
        r is Ok ==> {
            &&& final(ctx).profile.authority == old(ctx).user
            &&& final(ctx).profile.name@ == name@
            &&& final(ctx).profile.created_at == now
            &&& final(ctx).profile.updated_at == old(ctx).profile.updated_at
            &&& final(ctx).profile.version == 1
            &&& final(ctx).profile.bump == old(ctx).profile_bump
        },
        r is Err ==> final(ctx).profile == old(ctx).profile,
        final(ctx).profile_bump == old(ctx).profile_bump,
        final(ctx).user == old(ctx).user,
{
    validate_name(name.as_str())?;
    ctx.profile.authority = ctx.user;
    ctx.profile.name = name;
    ctx.profile.created_at = now;
    ctx.profile.version = 1;
    ctx.profile.bump = ctx.profile_bump;
    Ok(())
}

/// Whether the signer can rename the profile to `new_name`.
pub open spec fn spec_check_update(ctx: UpdateProfile, new_name: Seq<char>) -> Result<
    (),
    UserProfileError,
> {
    if ctx.profile.authority != ctx.user {
        Err(UserProfileError::Unauthorized)
    } else {
        spec_validate_name(new_name)
    }
}

/// Renames the profile at `now`. Only the profile's authority can. A name
/// that is too long or empty is refused. Where the operation is refused,
/// nothing changes.
pub fn update_profile(ctx: &mut UpdateProfile, new_name: String, now: i64) -> (r: Result<
    (),
    UserProfileError,
>)
    ensures
        r == spec_check_update(*old(ctx), new_name@),
        r is Ok ==> {
            &&& final(ctx).profile.name@ == new_name@
            &&& final(ctx).profile.updated_at == Some(now)
            &&& final(ctx).profile.authority == old(ctx).profile.authority
            &&& final(ctx).profile.created_at == old(ctx).profile.created_at
            &&& final(ctx).profile.version == old(ctx).profile.version
            &&& final(ctx).profile.bump == old(ctx).profile.bump
        },
        r is Err ==> final(ctx).profile == old(ctx).profile,
        final(ctx).user == old(ctx).user,
{
    if ctx.profile.authority != ctx.user {
        return Err(UserProfileError::Unauthorized);
    }
    validate_name(new_name.as_str())?;
    ctx.profile.name = new_name;
    ctx.profile.updated_at = Some(now);
    Ok(())
}

/// Closes the profile: only the profile's authority can. The record stays
/// as it is; the host removes it where the operation succeeds.
pub fn close_profile(ctx: &CloseProfile) -> (r: Result<(), UserProfileError>)
    ensures
        ctx.profile.authority == ctx.user ==> r is Ok,
        ctx.profile.authority != ctx.user ==> r == Err::<(), UserProfileError>(
            UserProfileError::Unauthorized,
        ),
{
    if ctx.profile.authority != ctx.user {
        return Err(UserProfileError::Unauthorized);
    }
    Ok(())
}

} // verus!
