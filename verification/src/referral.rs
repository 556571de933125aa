//! Who, if anyone, earns a share of the protocol fee on a trade, and what
//! the trade writes into the referral records.
//!
//! A trader who is bound to a referrer keeps that referrer. A trader who is
//! not is bound, on their first trade that names one, to the referrer whose
//! profile comes with the trade. The referrer is paid only where their
//! profile and their wallet both come with the trade and both are theirs.
//! Nobody refers themself: where the referrer that counts is the trader,
//! nobody is paid and nothing is bound.

use vstd::prelude::*;
use crate::constants::REFERRAL_FEE_DIVISOR;
use crate::errors::FuseError;
use crate::state::{Pubkey, UserProfile};

verus! {

/// How the protocol fee of one trade is divided.
#[derive(Clone, Copy, Debug, PartialEq, Eq)]
pub struct ReferralRouting {
    /// The referrer who is paid, if one is.
    pub referrer: Option<Pubkey>,
    /// What the referrer is paid; zero where none is.
    pub referral_fee: u64,
    /// What is left for the treasury.
    pub treasury_fee: u64,
}

/// The referrer's part of `protocol_fee`, rounded down.
pub open spec fn referral_fee(protocol_fee: int) -> int {
    protocol_fee / 10
}

/// Whether `key` is the one who trades: `user`, who asks for the trade, or
/// the owner of the trader's profile where one comes with the trade.
pub open spec fn is_trader(user: Pubkey, user_profile: Option<UserProfile>, key: Pubkey) -> bool {
    key == user || (user_profile is Some && key == user_profile->0.authority)
}

/// The referrer that counts for a trade: the one the trader is bound to, or
/// else the owner of the profile that comes with the trade.
pub open spec fn active_referrer(
    user_profile: Option<UserProfile>,
    referrer_profile: Option<UserProfile>,
) -> Option<Pubkey> {
    if user_profile is Some && user_profile->0.referrer is Some {
        user_profile->0.referrer
    } else if referrer_profile is Some {
        Some(referrer_profile->0.authority)
    } else {
        None
    }
}

/// Whether a trade pays a referrer: one counts, it is not the trader, and
/// the profile and the wallet that come with the trade are both the
/// referrer's.
pub open spec fn referrer_is_paid(
    user: Pubkey,
    user_profile: Option<UserProfile>,
    referrer_profile: Option<UserProfile>,
    referrer_wallet: Option<Pubkey>,
) -> bool {
    &&& active_referrer(user_profile, referrer_profile) is Some
    &&& !is_trader(user, user_profile, active_referrer(user_profile, referrer_profile)->0)
    &&& referrer_profile is Some
    &&& referrer_wallet is Some
    &&& referrer_profile->0.authority == active_referrer(user_profile, referrer_profile)->0
    &&& referrer_wallet->0 == active_referrer(user_profile, referrer_profile)->0
}

/// Whether a trade binds the trader: a referrer is paid, and the trader has
/// a profile without a referrer.
pub open spec fn binds_referrer(
    user: Pubkey,
    user_profile: Option<UserProfile>,
    referrer_profile: Option<UserProfile>,
    referrer_wallet: Option<Pubkey>,
) -> bool {
    &&& referrer_is_paid(user, user_profile, referrer_profile, referrer_wallet)
    &&& user_profile is Some
    &&& user_profile->0.referrer is None
}

/// Why the booking of a referral is refused, or `None` where it goes
/// through: a referrer is paid, and their count of referrals, where the
/// trade binds the trader, or their earnings would leave the range of 64
/// bits.
pub open spec fn routing_error(
    user: Pubkey,
    user_profile: Option<UserProfile>,
    referrer_profile: Option<UserProfile>,
    referrer_wallet: Option<Pubkey>,
    protocol_fee: u64,
) -> Option<FuseError> {
    let paid = referrer_is_paid(user, user_profile, referrer_profile, referrer_wallet);
    let binds = binds_referrer(user, user_profile, referrer_profile, referrer_wallet);
    let count = referrer_profile->0.referral_count;
    let earned = referrer_profile->0.total_referral_fees;
    if paid && binds && count + 1 > u64::MAX {
        Some(FuseError::MathOverflow)
    } else if paid && earned + referral_fee(protocol_fee as int) > u64::MAX {
        Some(FuseError::MathOverflow)
    } else {
        None
    }
}

/// How a trade divides `protocol_fee`.
pub open spec fn routing(
    user: Pubkey,
    user_profile: Option<UserProfile>,
    referrer_profile: Option<UserProfile>,
    referrer_wallet: Option<Pubkey>,
    protocol_fee: u64,
) -> ReferralRouting {
    if referrer_is_paid(user, user_profile, referrer_profile, referrer_wallet) {
        ReferralRouting {
            referrer: active_referrer(user_profile, referrer_profile),
            referral_fee: referral_fee(protocol_fee as int) as u64,
            treasury_fee: (protocol_fee - referral_fee(protocol_fee as int)) as u64,
        }
    } else {
        ReferralRouting { referrer: None, referral_fee: 0, treasury_fee: protocol_fee }
    }
}

/// The trader's profile after a trade.
pub open spec fn user_profile_after(
    user: Pubkey,
    user_profile: Option<UserProfile>,
    referrer_profile: Option<UserProfile>,
    referrer_wallet: Option<Pubkey>,
) -> Option<UserProfile> {
    if binds_referrer(user, user_profile, referrer_profile, referrer_wallet) {
        Some(user_profile->0.bound_to(referrer_profile->0.authority))
    } else {
        user_profile
    }
}

/// The referrer's profile after a trade: one more referral where the trade
/// binds the trader, and the referral fee added to the earnings.
pub open spec fn referrer_profile_after(
    user: Pubkey,
    user_profile: Option<UserProfile>,
    referrer_profile: Option<UserProfile>,
    referrer_wallet: Option<Pubkey>,
    protocol_fee: u64,
) -> Option<UserProfile> {
    if referrer_is_paid(user, user_profile, referrer_profile, referrer_wallet) {
        let profile = referrer_profile->0;
        Some(
            UserProfile {
                referral_count: if binds_referrer(
                    user,
                    user_profile,
                    referrer_profile,
                    referrer_wallet,
                ) {
                    (profile.referral_count + 1) as u64
                } else {
                    profile.referral_count
                },
                total_referral_fees: (profile.total_referral_fees + referral_fee(
                    protocol_fee as int,
                )) as u64,
                ..profile
            },
        )
    } else {
        referrer_profile
    }
}

/// Whether a profile names its own owner as referrer.
pub open spec fn refers_self(profile: UserProfile) -> bool {
    profile.referrer == Some(profile.authority)
}

/// No trade makes anybody their own referrer, and no trade pays the trader
/// a referrer's share. Whoever the records that come with the trade belong
/// to: a profile that does not name its owner as referrer does not do so
/// after the trade; the referrer who is paid is never the trader; and where
/// the referrer that counts is the trader, the whole protocol fee is the
/// treasury's and both profiles stay as they were.
pub proof fn lemma_trades_refer_nobody_to_themself(
    user: Pubkey,
    user_profile: Option<UserProfile>,
    referrer_profile: Option<UserProfile>,
    referrer_wallet: Option<Pubkey>,
    protocol_fee: u64,
)
    ensures
        user_profile is Some && !refers_self(user_profile->0) ==> !refers_self(
            user_profile_after(user, user_profile, referrer_profile, referrer_wallet)->0,
        ),
        routing(user, user_profile, referrer_profile, referrer_wallet, protocol_fee).referrer
            matches Some(paid) ==> !is_trader(user, user_profile, paid),
        active_referrer(user_profile, referrer_profile) matches Some(key) && is_trader(
            user,
            user_profile,
            key,
        ) ==> {
            &&& routing(user, user_profile, referrer_profile, referrer_wallet, protocol_fee) == (
            ReferralRouting { referrer: None, referral_fee: 0, treasury_fee: protocol_fee })
            &&& routing_error(user, user_profile, referrer_profile, referrer_wallet, protocol_fee)
                is None
            &&& user_profile_after(user, user_profile, referrer_profile, referrer_wallet)
                == user_profile
            &&& referrer_profile_after(
                user,
                user_profile,
                referrer_profile,
                referrer_wallet,
                protocol_fee,
            ) == referrer_profile
        },
{
}

/// Divides the protocol fee of one trade between a referrer and the
/// treasury, binds the trader where the trade is their first with a
/// referrer, and books the referral in the referrer's profile.
///
/// It is refused with `MathOverflow`, and nothing changes, exactly where a
/// referrer is paid and their count of referrals or their earnings would
/// leave the range of 64 bits.
pub fn route_protocol_fee(
    user: Pubkey,
    user_profile: &mut Option<UserProfile>,
    referrer_profile: &mut Option<UserProfile>,
    referrer_wallet: Option<Pubkey>,
    protocol_fee: u64,
) -> (r: Result<ReferralRouting, FuseError>)
    ensures
        r is Ok <==> routing_error(
            user,
            *old(user_profile),
            *old(referrer_profile),
            referrer_wallet,
            protocol_fee,
        ) is None,
        r matches Err(e) ==> {
            &&& e == FuseError::MathOverflow
            &&& *final(user_profile) == *old(user_profile)
            &&& *final(referrer_profile) == *old(referrer_profile)
        },
        r matches Ok(split) ==> {
            &&& split == routing(
                user,
                *old(user_profile),
                *old(referrer_profile),
                referrer_wallet,
                protocol_fee,
            )
            &&& split.referral_fee + split.treasury_fee == protocol_fee
            &&& split.referrer is Some ==> split.referral_fee == protocol_fee / 10
            &&& split.referrer is None ==> split.referral_fee == 0
            &&& *final(user_profile) == user_profile_after(
                user,
                *old(user_profile),
                *old(referrer_profile),
                referrer_wallet,
            )
            &&& *final(referrer_profile) == referrer_profile_after(
                user,
                *old(user_profile),
                *old(referrer_profile),
                referrer_wallet,
                protocol_fee,
            )
        },
{
    let nobody: ReferralRouting = ReferralRouting {
        referrer: None,
        referral_fee: 0,
        treasury_fee: protocol_fee,
    };
    let bound: Option<Pubkey> = match user_profile {
        Some(profile) => profile.referrer,
        None => None,
    };
    let owner: Pubkey = match user_profile {
        Some(profile) => profile.authority,
        None => user,
    };
    let unbound_profile: bool = user_profile.is_some() && bound.is_none();
    let wallet: Pubkey = match referrer_wallet {
        Some(wallet) => wallet,
        None => {
            return Ok(nobody);
        },
    };
    let fee: u64 = protocol_fee / REFERRAL_FEE_DIVISOR;
    let key: Pubkey = match referrer_profile {
        Some(profile) => {
            let key: Pubkey = match bound {
                Some(key) => key,
                None => profile.authority,
            };
            if key == user || key == owner || profile.authority != key || wallet != key {
                return Ok(nobody);
            }
            let count: u64 = if unbound_profile {
                match profile.referral_count.checked_add(1) {
                    Some(count) => count,
                    None => {
                        return Err(FuseError::MathOverflow);
                    },
                }
            } else {
                profile.referral_count
            };
            let earned: u64 = match profile.total_referral_fees.checked_add(fee) {
                Some(earned) => earned,
                None => {
                    return Err(FuseError::MathOverflow);
                },
            };
            profile.referral_count = count;
            profile.total_referral_fees = earned;
            key
        },
        None => {
            return Ok(nobody);
        },
    };
    if unbound_profile {
        match user_profile {
            Some(profile) => {
                let _ = profile.bind_referrer(key);
            },
            None => {},
        }
    }
    Ok(ReferralRouting { referrer: Some(key), referral_fee: fee, treasury_fee: protocol_fee - fee })
}

} // verus!
