//! Per-(realm, user) payout preferences: an optional preferred payout mint
//! and the resolution mode — direct to the user's canonical wallet, or into
//! an escrow released by a designated admin. An absent or malformed record
//! means the defaults; registration and claim never fail merely because a
//! user never set preferences.

use vstd::prelude::*;
use vstd::slice::slice_to_vec;
use vstd::string::StringSliceAdditionalSpecFns;

use crate::address::Address;
use crate::derivation::{
    associated_token_account, associated_token_address, derive_address, derives_to,
};
use crate::escrow::spec_escrow_seeds;
use crate::escrow::get_escrow_address;

verus! {

/// Where a user's payout goes: their canonical wallet for the mint, or an
/// escrow account scoped by (realm, release admin, user, mint).
#[derive(Clone, Copy, PartialEq, Eq, Structural, Debug)]
pub enum ResolutionPreference {
    Wallet,
    Escrow { admin: Address },
}

impl Default for ResolutionPreference {
    /// The default resolution is a direct wallet payout.
    fn default() -> (r: Self)
        ensures
            r == ResolutionPreference::Wallet,
    {
        ResolutionPreference::Wallet
    }
}

/// One user's payout preferences within one realm.
#[derive(Clone, Copy, PartialEq, Eq, Structural, Debug)]
pub struct UserPreferences {
    pub preferred_mint: Option<Address>,
    pub resolution_preference: ResolutionPreference,
}

impl Default for UserPreferences {
    /// The defaults: no preferred mint, direct wallet payout.
    fn default() -> (r: Self)
        ensures
            r == spec_default_preferences(),
    {
        UserPreferences { preferred_mint: None, resolution_preference: ResolutionPreference::Wallet }
    }
}

/// The preferences assumed for a user who never set any.
pub open spec fn spec_default_preferences() -> UserPreferences {
    UserPreferences { preferred_mint: None, resolution_preference: ResolutionPreference::Wallet }
}

/// The preferences in force given what was read from the ledger: the stored
/// record if one deserialized, the defaults otherwise.
pub open spec fn spec_get_or_default(stored: Option<UserPreferences>) -> UserPreferences {
    match stored {
        Some(p) => p,
        None => spec_default_preferences(),
    }
}

/// The seed tuple locating the preferences of `user` within `realm`.
pub open spec fn spec_preferences_seeds(user: Address, realm: Address) -> Seq<Seq<u8>> {
    seq![realm@, "preferences".spec_bytes(), user@]
}

impl ResolutionPreference {
    /// The only account a payout under this preference may go to: the
    /// canonical associated wallet of (user, mint) for a direct payout, the
    /// derived escrow account of (realm, admin, user, mint) for an escrow
    /// payout. Escrow derivation can fail; a wallet payout address always
    /// exists.
    pub fn payout_address(
        &self,
        user: Address,
        mint: Address,
        realm: Address,
        program_id: Address,
    ) -> (r: Option<Address>)
        ensures
            match *self {
                ResolutionPreference::Wallet => r matches Some(a) && a@
                    == associated_token_address(user@, mint@),
                ResolutionPreference::Escrow { admin } => derives_to(
                    spec_escrow_seeds(realm, admin, user, mint),
                    program_id,
                    r,
                ),
            },
    {
        match self {
            ResolutionPreference::Wallet => Some(associated_token_account(user, mint)),
            ResolutionPreference::Escrow { admin } => get_escrow_address(
                realm,
                *admin,
                user,
                mint,
                program_id,
            ),
        }
    }
}

impl UserPreferences {
    /// The preferences in force: the stored record, or the defaults when the
    /// user never stored one (or the stored bytes did not parse).
    pub fn get_or_default(stored: Option<UserPreferences>) -> (r: UserPreferences)
        ensures
            r == spec_get_or_default(stored),
    {
        match stored {
            Some(p) => p,
            None => UserPreferences {
                preferred_mint: None,
                resolution_preference: ResolutionPreference::Wallet,
            },
        }
    }

    /// The derived address of the preferences record of `user` within
    /// `realm`, under the owning program `program_id`.
    pub fn get_address(user: Address, realm: Address, program_id: Address) -> (r: Option<Address>)
        ensures
            derives_to(spec_preferences_seeds(user, realm), program_id, r),
    {
        let mut seeds: Vec<Vec<u8>> = Vec::new();
        seeds.push(realm.to_bytes());
        seeds.push(slice_to_vec("preferences".as_bytes()));
        seeds.push(user.to_bytes());
        proof {
            assert(seeds.deep_view() =~~= spec_preferences_seeds(user, realm));
        }
        derive_address(&seeds, program_id)
    }
}

/// Record a new preferred payout mint, leaving the resolution mode unchanged.
pub fn set_preferred_mint(preferences: &mut UserPreferences, new_preference: Option<Address>)
    ensures
        final(preferences).preferred_mint == new_preference,
        final(preferences).resolution_preference == old(preferences).resolution_preference,
{
    preferences.preferred_mint = new_preference;
}

/// Record a new resolution mode, leaving the preferred mint unchanged.
pub fn set_resolution_preference(
    preferences: &mut UserPreferences,
    new_preference: ResolutionPreference,
)
    ensures
        final(preferences).resolution_preference == new_preference,
        final(preferences).preferred_mint == old(preferences).preferred_mint,
{
    preferences.resolution_preference = new_preference;
}

} // verus!
