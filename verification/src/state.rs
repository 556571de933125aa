//! The ledger entities: identities, bonding curves, user profiles,
//! referral codes and the protocol's global record.

use vstd::prelude::*;
use crate::errors::FuseError;

verus! {

/// An identity on the ledger: 32 bytes.
#[derive(Clone, Copy, Debug)]
pub struct Pubkey {
    pub bytes: [u8; 32],
}

impl View for Pubkey {
    type V = Seq<u8>;

    open spec fn view(&self) -> Seq<u8> {
        self.bytes@
    }
}

impl PartialEq for Pubkey {
    fn eq(&self, other: &Pubkey) -> (r: bool) {
        let mut i: usize = 0;
        while i < 32
            invariant
                i <= 32,
                forall|j: int| 0 <= j < i ==> self.bytes[j] == other.bytes[j],
            decreases 32 - i,
        {
            if self.bytes[i] != other.bytes[i] {
                return false;
            }
            i = i + 1;
        }
        proof {
            assert(self.bytes@ =~= other.bytes@);
            assert(self.bytes == other.bytes);
        }
        true
    }
}

impl Eq for Pubkey {

}

impl vstd::std_specs::cmp::PartialEqSpecImpl for Pubkey {
    open spec fn obeys_eq_spec() -> bool {
        true
    }

    open spec fn eq_spec(&self, other: &Pubkey) -> bool {
        *self == *other
    }
}

impl Pubkey {
    /// The identity made of the given bytes.
    pub fn new_from_array(bytes: [u8; 32]) -> (key: Pubkey)
        ensures
            key.bytes == bytes,
    {
        Pubkey { bytes }
    }

    /// The bytes of the identity.
    pub fn to_bytes(&self) -> (bytes: [u8; 32])
        ensures
            bytes == self.bytes,
    {
        self.bytes
    }

    /// Two identities are the same exactly when their bytes are.
    pub proof fn lemma_equal_iff_same_bytes(a: Pubkey, b: Pubkey)
        ensures
            a == b <==> a@ == b@,
    {
        if a@ == b@ {
            assert(a.bytes@ =~= b.bytes@);
            assert(a.bytes == b.bytes);
        }
    }
}

/// The state of one launched asset.
#[derive(Clone, Debug, PartialEq, Eq)]
pub struct BondingCurve {
    /// Who launched the asset. Never changes.
    pub creator: Pubkey,
    /// The asset. Never changes.
    pub token_mint: Pubkey,
    /// The minted supply. Never changes.
    pub token_total_supply: u64,
    /// Pricing counter for the quote currency.
    pub virtual_sol_reserves: u64,
    /// Pricing counter for the asset.
    pub virtual_token_reserves: u64,
    /// Quote currency actually raised.
    pub real_sol_reserves: u64,
    /// Tokens actually left for sale.
    pub real_token_reserves: u64,
    /// Set once, at migration.
    pub complete: bool,
    /// Address bump of the curve's record.
    pub bump: u8,
    /// Creator fees not yet paid out.
    pub creator_fee_accumulated: u64,
    /// When the asset was launched, in seconds.
    pub launch_timestamp: i64,
    /// Display name.
    pub name: String,
    /// Ticker.
    pub symbol: String,
    /// Where the metadata lives.
    pub uri: String,
}

impl BondingCurve {
    /// What holds of every curve that the operations of this library leave
    /// behind: both pricing counters are positive, no more tokens are for
    /// sale than the pricing counter holds, and a completed curve holds no
    /// real reserves.
    pub open spec fn wf(&self) -> bool {
        &&& self.virtual_sol_reserves > 0
        &&& self.virtual_token_reserves > 0
        &&& self.real_token_reserves <= self.virtual_token_reserves
        &&& self.complete ==> self.real_sol_reserves == 0 && self.real_token_reserves == 0
    }

    /// The product of the two pricing counters.
    pub open spec fn invariant_product(&self) -> int {
        self.virtual_sol_reserves * self.virtual_token_reserves
    }

    /// The four reserves.
    pub open spec fn reserves(&self) -> ReserveSnapshot {
        ReserveSnapshot {
            virtual_sol_reserves: self.virtual_sol_reserves,
            virtual_token_reserves: self.virtual_token_reserves,
            real_sol_reserves: self.real_sol_reserves,
            real_token_reserves: self.real_token_reserves,
        }
    }

    /// Tests `wf`.
    pub fn is_well_formed(&self) -> (ok: bool)
        ensures
            ok == self.wf(),
    {
        let counters_positive: bool = self.virtual_sol_reserves > 0 && self.virtual_token_reserves
            > 0;
        let tokens_covered: bool = self.real_token_reserves <= self.virtual_token_reserves;
        let emptied_if_complete: bool = !self.complete || (self.real_sol_reserves == 0
            && self.real_token_reserves == 0);
        counters_positive && tokens_covered && emptied_if_complete
    }

    /// The four reserves as they stand.
    pub fn snapshot(&self) -> (s: ReserveSnapshot)
        ensures
            s == self.reserves(),
    {
        ReserveSnapshot {
            virtual_sol_reserves: self.virtual_sol_reserves,
            virtual_token_reserves: self.virtual_token_reserves,
            real_sol_reserves: self.real_sol_reserves,
            real_token_reserves: self.real_token_reserves,
        }
    }
}

/// The four reserves of a curve at one moment.
#[derive(Clone, Copy, Debug, PartialEq, Eq, Structural)]
pub struct ReserveSnapshot {
    pub virtual_sol_reserves: u64,
    pub virtual_token_reserves: u64,
    pub real_sol_reserves: u64,
    pub real_token_reserves: u64,
}

/// The protocol's global record.
#[derive(Clone, Copy, Debug, PartialEq, Eq)]
pub struct ProtocolState {
    /// The protocol's administrator, who alone may migrate a curve.
    pub authority: Pubkey,
    /// Where protocol fees go.
    pub treasury: Pubkey,
    /// Assets launched so far.
    pub total_tokens_launched: u64,
    /// Lifetime volume in lamports.
    pub total_volume_sol: u64,
    /// Curves that have graduated.
    pub total_graduated: u64,
    /// Emergency stop.
    pub is_paused: bool,
    /// Address bump of the record.
    pub bump: u8,
}

impl ProtocolState {
    /// The protocol's record as it is first written: nothing launched,
    /// nothing traded, nothing graduated, and not paused.
    pub fn new(authority: Pubkey, treasury: Pubkey, bump: u8) -> (state: ProtocolState)
        ensures
            state == (ProtocolState {
                authority,
                treasury,
                total_tokens_launched: 0,
                total_volume_sol: 0,
                total_graduated: 0,
                is_paused: false,
                bump,
            }),
    {
        ProtocolState {
            authority,
            treasury,
            total_tokens_launched: 0,
            total_volume_sol: 0,
            total_graduated: 0,
            is_paused: false,
            bump,
        }
    }
}

/// One registered user.
#[derive(Clone, Debug, PartialEq, Eq)]
pub struct UserProfile {
    /// Whose profile this is.
    pub authority: Pubkey,
    /// The unique display name.
    pub username: String,
    /// Who referred this user. Goes from `None` to `Some` once, and stays.
    pub referrer: Option<Pubkey>,
    /// How many users this user has referred.
    pub referral_count: u64,
    /// Lamports earned from referrals.
    pub total_referral_fees: u64,
    /// Address bump of the profile.
    pub bump: u8,
}

impl UserProfile {
    /// This profile with `referrer` as its referrer.
    pub open spec fn bound_to(self, referrer: Pubkey) -> UserProfile {
        UserProfile { referrer: Some(referrer), ..self }
    }

    /// The one way in which a referrer is ever written. A profile that has a
    /// referrer keeps it, and nobody is their own referrer: such an attempt
    /// is refused and changes nothing.
    pub fn bind_referrer(&mut self, referrer: Pubkey) -> (r: Result<(), FuseError>)
        ensures
            r is Ok <==> old(self).referrer is None && referrer != old(self).authority,
            r is Ok ==> *final(self) == old(self).bound_to(referrer),
            r is Err ==> *final(self) == *old(self),
            old(self).referrer is Some ==> r == Err::<(), FuseError>(
                FuseError::ReferralAlreadyExists,
            ),
            old(self).referrer is None && referrer == old(self).authority ==> r == Err::<
                (),
                FuseError,
            >(FuseError::CannotReferSelf),
    {
        if self.referrer.is_some() {
            return Err(FuseError::ReferralAlreadyExists);
        }
        if referrer == self.authority {
            return Err(FuseError::CannotReferSelf);
        }
        self.referrer = Some(referrer);
        Ok(())
    }
}

/// A referral code and who owns it.
#[derive(Clone, Debug, PartialEq, Eq)]
pub struct ReferralCode {
    /// The owner of the code.
    pub owner: Pubkey,
    /// The code: the owner's username.
    pub code: String,
    /// Address bump of the record.
    pub bump: u8,
}

} // verus!
