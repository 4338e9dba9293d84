//! Escrow payout accounts: an intermediary holding account per (realm,
//! release admin, user, mint), owned by a per-realm escrow authority and
//! released only by the designated release admin. This module derives the
//! addresses; moving funds in and out of an escrow is the token service's
//! work and stays outside the library.

use vstd::prelude::*;
use vstd::slice::slice_to_vec;
use vstd::string::StringSliceAdditionalSpecFns;

use crate::address::Address;
use crate::derivation::{
    associated_token_account, associated_token_address, derive_address, derives_to,
};

verus! {

/// The seed tuple of the escrow account for (realm, release admin, user,
/// mint).
pub open spec fn spec_escrow_seeds(
    realm: Address,
    release_admin: Address,
    user: Address,
    mint: Address,
) -> Seq<Seq<u8>> {
    seq![realm@, release_admin@, "escrow".spec_bytes(), user@, mint@]
}

/// The seed tuple of the authority owning every escrow account of a realm.
pub open spec fn spec_escrow_owner_seeds(realm: Address) -> Seq<Seq<u8>> {
    seq!["escrow owner".spec_bytes(), realm@]
}

/// The derived escrow account address for (realm, release admin, user, mint)
/// under the owning program `program_id`.
pub fn get_escrow_address(
    realm: Address,
    release_admin: Address,
    user: Address,
    mint: Address,
    program_id: Address,
) -> (r: Option<Address>)
    ensures
        derives_to(spec_escrow_seeds(realm, release_admin, user, mint), program_id, r),
{
    let mut seeds: Vec<Vec<u8>> = Vec::new();
    seeds.push(realm.to_bytes());
    seeds.push(release_admin.to_bytes());
    seeds.push(slice_to_vec("escrow".as_bytes()));
    seeds.push(user.to_bytes());
    seeds.push(mint.to_bytes());
    proof {
        assert(seeds.deep_view() =~~= spec_escrow_seeds(realm, release_admin, user, mint));
    }
    derive_address(&seeds, program_id)
}

/// The derived authority that owns a realm's escrow accounts.
pub fn get_escrow_owner(realm: Address, program_id: Address) -> (r: Option<Address>)
    ensures
        derives_to(spec_escrow_owner_seeds(realm), program_id, r),
{
    let mut seeds: Vec<Vec<u8>> = Vec::new();
    seeds.push(slice_to_vec("escrow owner".as_bytes()));
    seeds.push(realm.to_bytes());
    proof {
        assert(seeds.deep_view() =~~= spec_escrow_owner_seeds(realm));
    }
    derive_address(&seeds, program_id)
}

/// Where an escrow release may go: releasing funds out of an escrow pays the
/// user's canonical associated account for the escrow's mint, and nowhere
/// else. The release itself — moving the balance, under the realm's escrow
/// authority and the release admin's signature — is the token service's work.
pub fn release_destination_ok(destination: Address, user: Address, mint: Address) -> (r: bool)
    ensures
        r == (destination@ == associated_token_address(user@, mint@)),
{
    let expected = associated_token_account(user, mint);
    proof {
        Address::lemma_view_injective(expected, destination);
    }
    expected == destination
}

} // verus!
