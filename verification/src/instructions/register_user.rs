//! Registering a user: a profile for the identity, and a referral code,
//! the username, that leads to it.

use vstd::prelude::*;
use crate::constants::MAX_USERNAME_LENGTH;
use crate::errors::FuseError;
use crate::state::{Pubkey, ReferralCode, UserProfile};
use crate::text::{byte_length, text_length};

verus! {

/// The records that a registration reads and writes.
#[derive(Clone, Debug, PartialEq, Eq)]
pub struct RegisterUser {
    /// Who registers.
    pub user: Pubkey,
    /// The profile kept for `user`: `None` until they register.
    pub user_profile: Option<UserProfile>,
    /// The record kept for the username: `None` until someone claims it.
    pub referral_code_mapping: Option<ReferralCode>,
    /// Address bump of the profile.
    pub user_profile_bump: u8,
    /// Address bump of the referral code's record.
    pub referral_code_mapping_bump: u8,
}

/// Why a registration is refused, or `None` where it goes through. The
/// first reason that applies, in this order, is the one given.
pub open spec fn register_user_error(accounts: RegisterUser, username: Seq<char>) -> Option<
    FuseError,
> {
    if accounts.user_profile is Some {
        Some(FuseError::AlreadyRegistered)
    } else if accounts.referral_code_mapping is Some {
        Some(FuseError::UsernameTaken)
    } else if byte_length(username) > MAX_USERNAME_LENGTH {
        Some(FuseError::NameTooLong)
    } else {
        None
    }
}

/// The profile of a user who has just registered: no referrer, nobody
/// referred, nothing earned.
pub open spec fn new_profile(accounts: RegisterUser, username: String) -> UserProfile {
    UserProfile {
        authority: accounts.user,
        username,
        referrer: None,
        referral_count: 0,
        total_referral_fees: 0,
        bump: accounts.user_profile_bump,
    }
}

/// The referral code of a user who has just registered.
pub open spec fn new_referral_code(accounts: RegisterUser, username: String) -> ReferralCode {
    ReferralCode {
        owner: accounts.user,
        code: username,
        bump: accounts.referral_code_mapping_bump,
    }
}

/// Registers `accounts.user` under `username`.
///
/// The registration is refused, and nothing changes, for the first of these
/// reasons that applies: the identity has a profile (`AlreadyRegistered`);
/// the username is claimed (`UsernameTaken`); the username is longer than
/// 20 bytes (`NameTooLong`).
pub fn handler(accounts: &mut RegisterUser, username: String) -> (r: Result<(), FuseError>)
    ensures
        r is Ok <==> register_user_error(*old(accounts), username@) is None,
        r is Err ==> {
            &&& register_user_error(*old(accounts), username@) == Some(r->Err_0)
            &&& *final(accounts) == *old(accounts)
        },
        r is Ok ==> *final(accounts) == (RegisterUser {
            user_profile: Some(new_profile(*old(accounts), username)),
            referral_code_mapping: Some(new_referral_code(*old(accounts), username)),
            ..*old(accounts)
        }),
{
    if accounts.user_profile.is_some() {
        return Err(FuseError::AlreadyRegistered);
    }
    if accounts.referral_code_mapping.is_some() {
        return Err(FuseError::UsernameTaken);
    }
    if text_length(&username) > MAX_USERNAME_LENGTH {
        return Err(FuseError::NameTooLong);
    }
    accounts.user_profile = Some(
        UserProfile {
            authority: accounts.user,
            username: username.clone(),
            referrer: None,
            referral_count: 0,
            total_referral_fees: 0,
            bump: accounts.user_profile_bump,
        },
    );
    accounts.referral_code_mapping = Some(
        ReferralCode {
            owner: accounts.user,
            code: username,
            bump: accounts.referral_code_mapping_bump,
        },
    );
    Ok(())
}

} // verus!
