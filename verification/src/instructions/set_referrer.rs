//! Naming one's referrer by their referral code.

use vstd::prelude::*;
use crate::config::ProtocolConfig;
use crate::errors::FuseError;
use crate::instructions::buy::{accounts_after_buy, buy_receipt, Buy};
use crate::instructions::register_user::{new_profile, RegisterUser};
use crate::instructions::sell::{accounts_after_sell, sell_receipt, Sell};
use crate::referral::{binds_referrer, is_trader, refers_self, user_profile_after};
use crate::state::{Pubkey, ReferralCode, UserProfile};

verus! {

/// The records that naming a referrer reads and writes.
#[derive(Clone, Debug, PartialEq, Eq)]
pub struct SetReferrer {
    /// Who names their referrer.
    pub user: Pubkey,
    /// The profile of `user`.
    pub user_profile: UserProfile,
    /// The referral code that `user` gives.
    pub referral_code_account: ReferralCode,
    /// The profile in which the referral is counted: the code owner's.
    pub referrer_profile: UserProfile,
}

/// Why naming a referrer is refused, or `None` where it goes through. The
/// first reason that applies, in this order, is the one given.
pub open spec fn set_referrer_error(accounts: SetReferrer) -> Option<FuseError> {
    if accounts.user_profile.referrer is Some {
        Some(FuseError::ReferralAlreadyExists)
    } else if accounts.referral_code_account.owner == accounts.user
        || accounts.referral_code_account.owner == accounts.user_profile.authority {
        Some(FuseError::CannotReferSelf)
    } else if accounts.referrer_profile.authority != accounts.referral_code_account.owner {
        Some(FuseError::Unauthorized)
    } else if accounts.referrer_profile.referral_count == u64::MAX {
        Some(FuseError::MathOverflow)
    } else {
        None
    }
}

/// The records after a referrer is named: the user is bound to the code's
/// owner, who has one more referral.
pub open spec fn accounts_after_set_referrer(accounts: SetReferrer) -> SetReferrer {
    SetReferrer {
        user_profile: accounts.user_profile.bound_to(accounts.referral_code_account.owner),
        referrer_profile: UserProfile {
            referral_count: (accounts.referrer_profile.referral_count + 1) as u64,
            ..accounts.referrer_profile
        },
        ..accounts
    }
}

/// A referrer is written once. Whoever has one keeps it: naming another is
/// refused, and no trade, whoever asks for it and whoever's profile and
/// wallet come with it, puts another in its place.
pub proof fn lemma_referrer_is_written_once(
    accounts: SetReferrer,
    user: Pubkey,
    referrer_profile: Option<UserProfile>,
    referrer_wallet: Option<Pubkey>,
)
    requires
        accounts.user_profile.referrer is Some,
    ensures
        set_referrer_error(accounts) == Some(FuseError::ReferralAlreadyExists),
        !binds_referrer(user, Some(accounts.user_profile), referrer_profile, referrer_wallet),
        user_profile_after(user, Some(accounts.user_profile), referrer_profile, referrer_wallet)
            == Some(accounts.user_profile),
{
}

/// Once a referrer is named, or a trade has bound the trader, the profile
/// has a referrer, so that `lemma_referrer_is_written_once` holds of it
/// from then on.
pub proof fn lemma_binding_leaves_a_referrer(
    accounts: SetReferrer,
    user: Pubkey,
    user_profile: Option<UserProfile>,
    referrer_profile: Option<UserProfile>,
    referrer_wallet: Option<Pubkey>,
)
    ensures
        set_referrer_error(accounts) is None ==> accounts_after_set_referrer(
            accounts,
        ).user_profile.referrer == Some(accounts.referral_code_account.owner),
        binds_referrer(user, user_profile, referrer_profile, referrer_wallet)
            ==> user_profile_after(
            user,
            user_profile,
            referrer_profile,
            referrer_wallet,
        )->0.referrer == Some(referrer_profile->0.authority),
{
}

/// Nobody is their own referrer. A profile starts without a referrer;
/// naming a referrer never leaves a profile that names its owner; no buy
/// and no sell makes a profile name its owner that did not before; and no
/// buy and no sell pays the referrer's share to the one who trades.
pub proof fn lemma_nobody_refers_themself(
    registering: RegisterUser,
    username: String,
    naming: SetReferrer,
    buying: Buy,
    selling: Sell,
    config: ProtocolConfig,
    now: i64,
    amount_in: u64,
)
    ensures
        !refers_self(new_profile(registering, username)),
        set_referrer_error(naming) is None ==> !refers_self(
            accounts_after_set_referrer(naming).user_profile,
        ),
        buying.user_profile is Some && !refers_self(buying.user_profile->0) ==> !refers_self(
            accounts_after_buy(buying, config, amount_in).user_profile->0,
        ),
        selling.user_profile is Some && !refers_self(selling.user_profile->0) ==> !refers_self(
            accounts_after_sell(selling, config, amount_in).user_profile->0,
        ),
        buy_receipt(buying, config, now, amount_in).routing.referrer matches Some(paid)
            ==> !is_trader(buying.user, buying.user_profile, paid),
        sell_receipt(selling, config, now, amount_in).routing.referrer matches Some(paid)
            ==> !is_trader(selling.user, selling.user_profile, paid),
{
}

/// Binds `accounts.user` to the owner of the referral code.
///
/// It is refused, and nothing changes, for the first of these reasons that
/// applies: the user has a referrer (`ReferralAlreadyExists`); the code's
/// owner is the user or the owner of the user's profile
/// (`CannotReferSelf`); the profile that comes as the referrer's is not
/// the code owner's (`Unauthorized`); the owner's count of referrals is at
/// the end of its range (`MathOverflow`).
pub fn handler(accounts: &mut SetReferrer) -> (r: Result<(), FuseError>)
    ensures
        r is Ok <==> set_referrer_error(*old(accounts)) is None,
        r is Err ==> {
            &&& set_referrer_error(*old(accounts)) == Some(r->Err_0)
            &&& *final(accounts) == *old(accounts)
        },
        r is Ok ==> {
            &&& final(accounts).user_profile.referrer == Some(
                old(accounts).referral_code_account.owner,
            )
            &&& old(accounts).referrer_profile.authority == old(
                accounts,
            ).referral_code_account.owner
            &&& final(accounts).referrer_profile.referral_count == old(
                accounts,
            ).referrer_profile.referral_count + 1
            &&& *final(accounts) == accounts_after_set_referrer(*old(accounts))
        },
{
    if accounts.user_profile.referrer.is_some() {
        return Err(FuseError::ReferralAlreadyExists);
    }
    let referrer_key: Pubkey = accounts.referral_code_account.owner;
    if referrer_key == accounts.user || referrer_key == accounts.user_profile.authority {
        return Err(FuseError::CannotReferSelf);
    }
    if accounts.referrer_profile.authority != referrer_key {
        return Err(FuseError::Unauthorized);
    }
    let count: u64 = match accounts.referrer_profile.referral_count.checked_add(1) {
        Some(count) => count,
        None => {
            return Err(FuseError::MathOverflow);
        },
    };
    match accounts.user_profile.bind_referrer(referrer_key) {
        Ok(_) => {
            accounts.referrer_profile.referral_count = count;
            Ok(())
        },
        Err(e) => Err(e),
    }
}

} // verus!
