//! Claiming: pay out a registrant's pro-rata share exactly once. All checks
//! — the one-shot flag, the phase gate, and the payout-destination check —
//! run before any counter moves, so a failing claim leaves the pool and the
//! record untouched; the caller then moves the returned amount out of the
//! option's funding wallet.

use vstd::prelude::*;

use crate::address::Address;
use crate::claim_data::ClaimData;
use crate::derivation::{associated_token_account, associated_token_address, derived_address};
use crate::distribution::{spec_user_reward, Distribution};
use crate::error::GovernanceRewardsError;
use crate::escrow::{get_escrow_address, spec_escrow_seeds};
use crate::options::{lemma_options_weight_at_least_slot, TokenAccountData};
use crate::preferences::{spec_get_or_default, ResolutionPreference, UserPreferences};

verus! {

/// The destination a payout may go to, by resolution preference: for a
/// direct payout, the canonical associated account of (user, mint), owned by
/// the user and holding that mint; for an escrow payout, the derived escrow
/// account of (realm, release admin, user, mint).
pub open spec fn spec_payout_account_ok(
    preference: ResolutionPreference,
    to_account: TokenAccountData,
    claimant: Address,
    mint: Address,
    realm: Address,
    program_id: Address,
) -> bool {
    match preference {
        ResolutionPreference::Wallet => {
            &&& to_account.address@ == associated_token_address(claimant@, mint@)
            &&& to_account.owner == claimant
            &&& to_account.mint == mint
        },
        ResolutionPreference::Escrow { admin } => derived_address(
            spec_escrow_seeds(realm, admin, claimant, mint),
            program_id@,
        ) == Some(to_account.address@),
    }
}

/// The first error a claim hits, in check order: the one-shot flag, the
/// phase gate, the payout-destination check.
pub open spec fn spec_claim_error(
    dist: Distribution,
    cd: ClaimData,
    to_account: TokenAccountData,
    preferences: UserPreferences,
    claimant: Address,
    program_id: Address,
    now: u64,
) -> Option<GovernanceRewardsError> {
    if cd.has_claimed {
        Some(GovernanceRewardsError::AlreadyClaimed)
    } else if !dist.spec_can_claim(now) {
        Some(GovernanceRewardsError::NotInClaimPeriod)
    } else if !spec_payout_account_ok(
        preferences.resolution_preference,
        to_account,
        claimant,
        cd.spec_chosen_option(dist).mint,
        dist.realm,
        program_id,
    ) {
        Some(GovernanceRewardsError::WrongPayoutAccount)
    } else {
        None
    }
}

/// Check that the payout destination is the one the preference allows.
fn payout_account_ok(
    preference: ResolutionPreference,
    to_account: &TokenAccountData,
    claimant: Address,
    mint: Address,
    realm: Address,
    program_id: Address,
) -> (r: bool)
    ensures
        r == spec_payout_account_ok(preference, *to_account, claimant, mint, realm, program_id),
{
    match preference {
        ResolutionPreference::Wallet => {
            let expected = associated_token_account(claimant, mint);
            proof {
                Address::lemma_view_injective(expected, to_account.address);
            }
            expected == to_account.address && to_account.owner == claimant && to_account.mint
                == mint
        },
        ResolutionPreference::Escrow { admin } => {
            match get_escrow_address(realm, admin, claimant, mint, program_id) {
                Some(expected) => {
                    proof {
                        Address::lemma_view_injective(expected, to_account.address);
                    }
                    expected == to_account.address
                },
                None => false,
            }
        },
    }
}

/// Claim a registrant's share: exactly once, only during the claim period,
/// and only to the destination the user's resolution preference names. On
/// success the record's claim flag is set, the claimed counter grows by the
/// record's weight, and the returned amount — the two-stage proportional
/// share of the chosen option's funds — is what the caller must transfer
/// out of that option's funding wallet. On any error nothing changes.
pub fn claim(
    distribution: &mut Distribution,
    distribution_address: Address,
    claim_data: &mut ClaimData,
    to_account: &TokenAccountData,
    preferences: Option<UserPreferences>,
    claimant: Address,
    program_id: Address,
    now: u64,
) -> (r: Result<u64, GovernanceRewardsError>)
    requires
        old(distribution).wf(),
        old(claim_data).valid_for(*old(distribution)),
        old(claim_data).distribution == distribution_address,
    ensures
        match spec_claim_error(
            *old(distribution),
            *old(claim_data),
            *to_account,
            spec_get_or_default(preferences),
            claimant,
            program_id,
            now,
        ) {
            Some(e) => r == Err::<u64, GovernanceRewardsError>(e) && *final(distribution) == *old(
                distribution,
            ) && *final(claim_data) == *old(claim_data),
            None => r matches Ok(amount) && {
                &&& amount as int == spec_user_reward(
                    old(claim_data).spec_chosen_option(*old(distribution)),
                    old(distribution).total_vote_weight,
                    old(claim_data).weight,
                )
                &&& amount <= old(claim_data).spec_chosen_option(*old(distribution)).total_amount
                &&& *final(claim_data) == (ClaimData { has_claimed: true, ..*old(claim_data) })
                &&& *final(distribution) == (Distribution {
                    total_vote_weight_claimed: (old(distribution).total_vote_weight_claimed + old(
                        claim_data,
                    ).weight) as u64,
                    ..*old(distribution)
                })
                &&& final(distribution).wf()
            },
        },
{
    if claim_data.has_claimed {
        return Err(GovernanceRewardsError::AlreadyClaimed);
    }
    if !distribution.can_claim(now) {
        return Err(GovernanceRewardsError::NotInClaimPeriod);
    }

    let option = claim_data.chosen_option(distribution);
    let prefs = UserPreferences::get_or_default(preferences);
    if !payout_account_ok(
        prefs.resolution_preference,
        to_account,
        claimant,
        option.mint,
        distribution.realm,
        program_id,
    ) {
        return Err(GovernanceRewardsError::WrongPayoutAccount);
    }

    proof {
        lemma_options_weight_at_least_slot(
            distribution.distribution_options.slots@,
            old(claim_data).claim_option as int,
        );
    }
    let rewards = distribution.calculate_rewards(option, claim_data.weight);

    claim_data.has_claimed = true;
    distribution.total_vote_weight_claimed = distribution.total_vote_weight_claimed
        + claim_data.weight;

    Ok(rewards)
}

/// Claiming is one-shot: after a claim succeeds, the very same claim —
/// same destination, same preferences, same time — is refused with
/// `AlreadyClaimed`, and by `claim`'s contract a refused claim changes no
/// counter and no flag.
pub proof fn lemma_claim_is_one_shot(
    dist1: Distribution,
    cd1: ClaimData,
    dist2: Distribution,
    cd2: ClaimData,
    to_account: TokenAccountData,
    preferences: UserPreferences,
    claimant: Address,
    program_id: Address,
    now: u64,
)
    requires
        spec_claim_error(dist1, cd1, to_account, preferences, claimant, program_id, now) is None,
        cd2 == (ClaimData { has_claimed: true, ..cd1 }),
        dist2 == (Distribution {
            total_vote_weight_claimed: (dist1.total_vote_weight_claimed + cd1.weight) as u64,
            ..dist1
        }),
    ensures
        spec_claim_error(dist2, cd2, to_account, preferences, claimant, program_id, now) == Some(
            GovernanceRewardsError::AlreadyClaimed,
        ),
{
}

} // verus!
