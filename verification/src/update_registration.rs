//! Re-registration: an existing claim record takes a fresh attested weight
//! and possibly a different payout option. The old weight is withdrawn from
//! the old option before the new weight joins the new one, so the pool total
//! equals the sum of the options' weights at every step — also when the old
//! and the new option coincide.

use vstd::pervasive::VecAdditionalExecFns;
use vstd::prelude::*;

use crate::addin::{spec_validate, Unvalidated, VoterWeightRecord};
use crate::address::Address;
use crate::claim_data::ClaimData;
use crate::distribution::Distribution;
use crate::error::GovernanceRewardsError;
use crate::options::{
    lemma_options_weight_at_least_slot, lemma_options_weight_update, lemma_pick_by_mint_occupied,
    spec_pick_by_mint, DistributionOption,
};
use crate::preferences::{spec_get_or_default, UserPreferences};

verus! {

/// The option table after moving `old_weight` off the option at `from` and
/// adding `new_weight` to the option at `to`; `from` and `to` may coincide.
pub open spec fn spec_reattributed_slots(
    s: Seq<Option<DistributionOption>>,
    from: int,
    to: int,
    old_weight: u64,
    new_weight: u64,
) -> Seq<Option<DistributionOption>> {
    let from_opt = s[from]->Some_0;
    let sub = s.update(
        from,
        Some(
            DistributionOption {
                total_vote_weight: (from_opt.total_vote_weight - old_weight) as u64,
                ..from_opt
            },
        ),
    );
    let to_opt = sub[to]->Some_0;
    sub.update(
        to,
        Some(
            DistributionOption {
                total_vote_weight: (to_opt.total_vote_weight + new_weight) as u64,
                ..to_opt
            },
        ),
    )
}

/// The first error an update hits: the same checks as registration, in the
/// same order. The option table cannot be empty here — the record's own
/// option occupies a slot — so no check for that case remains.
pub open spec fn spec_update_registration_error(
    dist: Distribution,
    cd: ClaimData,
    rec: VoterWeightRecord,
    distribution_address: Address,
    registrant: Address,
    preferences: UserPreferences,
    now: u64,
    current_slot: u64,
) -> Option<GovernanceRewardsError> {
    match spec_validate(rec, dist, distribution_address, registrant, current_slot) {
        Err(e) => Some(e),
        Ok(_) => {
            if !dist.spec_can_register(now) {
                Some(GovernanceRewardsError::RegistrationOver)
            } else if rec.voter_weight == 0 {
                Some(GovernanceRewardsError::NoVoteWeight)
            } else if dist.total_vote_weight as int - cd.weight as int + rec.voter_weight as int
                > u64::MAX as int {
                Some(GovernanceRewardsError::Arithmetic)
            } else {
                None
            }
        },
    }
}

/// Re-register a user: validate the fresh attestation, withdraw the old
/// weight from the record's old option and the pool total, resolve the
/// preference again, and attribute the new weight to the newly chosen option.
/// The record is overwritten in place with its claim flag reset.
///
/// A record can only be updated while registration is open, and claims only
/// open once registration has closed for good, so an updated record has
/// never been claimed; the precondition states that.
pub fn update_registration(
    distribution: &mut Distribution,
    distribution_address: Address,
    claim_data: &mut ClaimData,
    voter_weight_record: Unvalidated<VoterWeightRecord>,
    preferences: Option<UserPreferences>,
    registrant: Address,
    now: u64,
    current_slot: u64,
) -> (r: Result<(), GovernanceRewardsError>)
    requires
        old(distribution).wf(),
        old(claim_data).valid_for(*old(distribution)),
        old(claim_data).distribution == distribution_address,
        !old(claim_data).has_claimed,
    ensures
        match spec_update_registration_error(
            *old(distribution),
            *old(claim_data),
            voter_weight_record.record(),
            distribution_address,
            registrant,
            spec_get_or_default(preferences),
            now,
            current_slot,
        ) {
            Some(e) => r == Err::<(), GovernanceRewardsError>(e) && *final(distribution) == *old(
                distribution,
            ) && *final(claim_data) == *old(claim_data),
            None => r is Ok && ({
                let rec = voter_weight_record.record();
                let from = old(claim_data).claim_option as int;
                let i = spec_pick_by_mint(
                    old(distribution).distribution_options.slots@,
                    spec_get_or_default(preferences).preferred_mint,
                )->Some_0;
                &&& *final(claim_data) == (ClaimData {
                    weight: rec.voter_weight,
                    distribution: distribution_address,
                    claim_option: i as u8,
                    has_claimed: false,
                    belongs_to: registrant,
                })
                &&& final(distribution).distribution_options.slots@ == spec_reattributed_slots(
                    old(distribution).distribution_options.slots@,
                    from,
                    i,
                    old(claim_data).weight,
                    rec.voter_weight,
                )
                &&& final(distribution).total_vote_weight == old(distribution).total_vote_weight
                    - old(claim_data).weight + rec.voter_weight
                &&& final(distribution).total_vote_weight_claimed == old(
                    distribution,
                ).total_vote_weight_claimed
                &&& final(distribution).registration_period_end_ts == old(
                    distribution,
                ).registration_period_end_ts
                &&& final(distribution).realm == old(distribution).realm
                &&& final(distribution).voter_weight_program == old(
                    distribution,
                ).voter_weight_program
                &&& final(distribution).registrar == old(distribution).registrar
                &&& final(distribution).admin == old(distribution).admin
                &&& final(distribution).wf()
                &&& final(claim_data).valid_for(*final(distribution))
            }),
        },
{
    let record = voter_weight_record.validate(
        distribution,
        distribution_address,
        registrant,
        current_slot,
    )?;

    if !distribution.can_register(now) {
        return Err(GovernanceRewardsError::RegistrationOver);
    }

    let weight = record.voter_weight;
    if weight == 0 {
        return Err(GovernanceRewardsError::NoVoteWeight);
    }

    let old_weight = claim_data.weight;
    proof {
        lemma_options_weight_at_least_slot(
            distribution.distribution_options.slots@,
            old(claim_data).claim_option as int,
        );
    }
    let lowered_total = distribution.total_vote_weight - old_weight;
    if lowered_total > u64::MAX - weight {
        return Err(GovernanceRewardsError::Arithmetic);
    }

    // Resolve the preference against the table as it stands; occupancy and
    // mints are untouched by the weight moves below.
    let prefs = UserPreferences::get_or_default(preferences);
    proof {
        lemma_pick_by_mint_occupied(
            distribution.distribution_options.slots@,
            prefs.preferred_mint,
        );
    }
    let index = distribution.distribution_options.pick_by_mint(prefs.preferred_mint)?;

    // Withdraw the old weight from the old option first: when the old and
    // the new option coincide, this keeps the sum of the options equal to
    // the pool total with no transient double count.
    let from = claim_data.claim_option as usize;
    let from_opt = distribution.distribution_options.slots[from].unwrap();
    let lowered = DistributionOption {
        total_vote_weight: from_opt.total_vote_weight - old_weight,
        ..from_opt
    };
    proof {
        lemma_options_weight_update(
            distribution.distribution_options.slots@,
            from as int,
            Some(lowered),
        );
    }
    distribution.distribution_options.slots.set(from, Some(lowered));

    let idx = index as usize;
    proof {
        lemma_options_weight_at_least_slot(
            distribution.distribution_options.slots@,
            idx as int,
        );
    }
    let to_opt = distribution.distribution_options.slots[idx].unwrap();
    let raised = DistributionOption {
        total_vote_weight: to_opt.total_vote_weight + weight,
        ..to_opt
    };
    proof {
        lemma_options_weight_update(
            distribution.distribution_options.slots@,
            idx as int,
            Some(raised),
        );
    }
    distribution.distribution_options.slots.set(idx, Some(raised));
    distribution.total_vote_weight = lowered_total + weight;

    claim_data.weight = weight;
    claim_data.distribution = distribution_address;
    claim_data.claim_option = index;
    claim_data.has_claimed = false;
    claim_data.belongs_to = registrant;

    Ok(())
}

} // verus!
