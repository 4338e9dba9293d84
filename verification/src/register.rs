//! Registration: a validated weight attestation becomes a per-user claim
//! record, its weight attributed to the payout option the user's preferences
//! pick. All checks run before any counter moves, so a failing registration
//! leaves the pool untouched.

use vstd::pervasive::VecAdditionalExecFns;
use vstd::prelude::*;

use crate::addin::{spec_validate, Unvalidated, VoterWeightRecord};
use crate::address::Address;
use crate::claim_data::ClaimData;
use crate::distribution::Distribution;
use crate::error::GovernanceRewardsError;
use crate::options::{
    lemma_options_weight_at_least_slot, lemma_options_weight_update, lemma_pick_by_mint_occupied,
    spec_pick_by_mint, DistributionOption,
};
use crate::preferences::{spec_get_or_default, UserPreferences};

verus! {

/// The first error registration hits, in check order: the five attestation
/// checks, the phase gate, a zero weight, counter overflow, an empty option
/// table.
pub open spec fn spec_register_error(
    dist: Distribution,
    rec: VoterWeightRecord,
    distribution_address: Address,
    registrant: Address,
    preferences: UserPreferences,
    now: u64,
    current_slot: u64,
) -> Option<GovernanceRewardsError> {
    match spec_validate(rec, dist, distribution_address, registrant, current_slot) {
        Err(e) => Some(e),
        Ok(_) => {
            if !dist.spec_can_register(now) {
                Some(GovernanceRewardsError::RegistrationOver)
            } else if rec.voter_weight == 0 {
                Some(GovernanceRewardsError::NoVoteWeight)
            } else if dist.total_vote_weight as int + rec.voter_weight as int > u64::MAX as int {
                Some(GovernanceRewardsError::Arithmetic)
            } else if spec_pick_by_mint(
                dist.distribution_options.slots@,
                preferences.preferred_mint,
            ) is None {
                Some(GovernanceRewardsError::NoDistributionOptions)
            } else {
                None
            }
        },
    }
}

/// Register a user: validate the attestation, pick the payout option by the
/// user's preferred mint, and attribute the attested weight to both the pool
/// total and the chosen option. Creating the record for an already
/// registered user is refused by the ledger itself before this logic runs.
pub fn register_for_rewards(
    distribution: &mut Distribution,
    distribution_address: Address,
    voter_weight_record: Unvalidated<VoterWeightRecord>,
    preferences: Option<UserPreferences>,
    registrant: Address,
    now: u64,
    current_slot: u64,
) -> (r: Result<ClaimData, GovernanceRewardsError>)
    requires
        old(distribution).wf(),
    ensures
        match spec_register_error(
            *old(distribution),
            voter_weight_record.record(),
            distribution_address,
            registrant,
            spec_get_or_default(preferences),
            now,
            current_slot,
        ) {
            Some(e) => r == Err::<ClaimData, GovernanceRewardsError>(e) && *final(distribution)
                == *old(distribution),
            None => r matches Ok(cd) && ({
                let rec = voter_weight_record.record();
                let i = spec_pick_by_mint(
                    old(distribution).distribution_options.slots@,
                    spec_get_or_default(preferences).preferred_mint,
                )->Some_0;
                let old_opt = old(distribution).distribution_options.slots@[i]->Some_0;
                &&& cd == (ClaimData {
                    weight: rec.voter_weight,
                    distribution: distribution_address,
                    claim_option: i as u8,
                    has_claimed: false,
                    belongs_to: registrant,
                })
                &&& final(distribution).distribution_options.slots@ == old(
                    distribution,
                ).distribution_options.slots@.update(
                    i,
                    Some(
                        DistributionOption {
                            total_vote_weight: (old_opt.total_vote_weight + rec.voter_weight) as u64,
                            ..old_opt
                        },
                    ),
                )
                &&& final(distribution).total_vote_weight == old(distribution).total_vote_weight
                    + rec.voter_weight
                &&& final(distribution).total_vote_weight_claimed == old(
                    distribution,
                ).total_vote_weight_claimed
                &&& final(distribution).registration_period_end_ts == old(
                    distribution,
                ).registration_period_end_ts
                &&& final(distribution).realm == old(distribution).realm
                &&& final(distribution).voter_weight_program == old(
                    distribution,
                ).voter_weight_program
                &&& final(distribution).registrar == old(distribution).registrar
                &&& final(distribution).admin == old(distribution).admin
                &&& final(distribution).wf()
                &&& cd.valid_for(*final(distribution))
            }),
        },
{
    let record = voter_weight_record.validate(
        distribution,
        distribution_address,
        registrant,
        current_slot,
    )?;

    if !distribution.can_register(now) {
        return Err(GovernanceRewardsError::RegistrationOver);
    }

    let weight = record.voter_weight;
    if weight == 0 {
        return Err(GovernanceRewardsError::NoVoteWeight);
    }
    if distribution.total_vote_weight > u64::MAX - weight {
        return Err(GovernanceRewardsError::Arithmetic);
    }

    let prefs = UserPreferences::get_or_default(preferences);
    let index = distribution.distribution_options.pick_by_mint(prefs.preferred_mint)?;

    proof {
        lemma_pick_by_mint_occupied(
            distribution.distribution_options.slots@,
            prefs.preferred_mint,
        );
        lemma_options_weight_at_least_slot(
            distribution.distribution_options.slots@,
            index as int,
        );
    }
    let idx = index as usize;
    let opt = distribution.distribution_options.slots[idx].unwrap();
    let updated = DistributionOption {
        total_vote_weight: opt.total_vote_weight + weight,
        ..opt
    };
    proof {
        lemma_options_weight_update(
            distribution.distribution_options.slots@,
            idx as int,
            Some(updated),
        );
    }
    distribution.distribution_options.slots.set(idx, Some(updated));
    distribution.total_vote_weight = distribution.total_vote_weight + weight;

    Ok(
        ClaimData {
            weight,
            distribution: distribution_address,
            claim_option: index,
            has_claimed: false,
            belongs_to: registrant,
        },
    )
}

} // verus!
