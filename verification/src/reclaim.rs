//! Reclaiming: once registration has closed, the admin may recover each
//! option's unused remainder — the dust the first stage of the proportional
//! formula leaves unattributed — exactly once per option; and once a pool is
//! fully claimed, each registrant may release the storage of their own claim
//! record.

use vstd::pervasive::VecAdditionalExecFns;
use vstd::prelude::*;

use crate::address::Address;
use crate::claim_data::ClaimData;
use crate::distribution::{spec_total_rewards, Distribution};
use crate::error::GovernanceRewardsError;
use crate::options::{
    lemma_first_wallet_from_props, lemma_options_weight_at_least_slot,
    lemma_options_weight_update, spec_first_wallet_from, DistributionOption,
};

verus! {

/// The first error a funds reclaim hits, in check order: the caller is not
/// the admin, registration is still open, no option is backed by the
/// supplied wallet, the option's remainder was already reclaimed, or the
/// pool counts no weight at all (the proportional formula would divide by
/// zero).
pub open spec fn spec_reclaim_funds_error(
    dist: Distribution,
    from_wallet: Address,
    caller: Address,
    now: u64,
) -> Option<GovernanceRewardsError> {
    if caller != dist.admin {
        Some(GovernanceRewardsError::AdminOnly)
    } else if dist.spec_can_register(now) {
        Some(GovernanceRewardsError::CannotReclaimFundsYet)
    } else {
        match spec_first_wallet_from(dist.distribution_options.slots@, from_wallet, 0) {
            None => Some(GovernanceRewardsError::NoMatchingOption),
            Some(i) => {
                if dist.distribution_options.slots@[i]->Some_0.extra_reclaimed {
                    Some(GovernanceRewardsError::AlreadyReclaimed)
                } else if dist.total_vote_weight == 0 {
                    Some(GovernanceRewardsError::Arithmetic)
                } else {
                    None
                }
            },
        }
    }
}

/// Reclaim one option's unused remainder: admin-only, only once registration
/// has closed, and one-shot per option. On success the option's reclaim flag
/// is set and the returned amount — the funds the first stage of the
/// formula never attributed — is what the caller must transfer out of the
/// option's wallet. On any error nothing changes.
pub fn reclaim_funds(
    distribution: &mut Distribution,
    from_wallet: Address,
    caller: Address,
    now: u64,
) -> (r: Result<u64, GovernanceRewardsError>)
    requires
        old(distribution).wf(),
    ensures
        match spec_reclaim_funds_error(*old(distribution), from_wallet, caller, now) {
            Some(e) => r == Err::<u64, GovernanceRewardsError>(e) && *final(distribution) == *old(
                distribution,
            ),
            None => r matches Ok(amount) && ({
                let i = spec_first_wallet_from(
                    old(distribution).distribution_options.slots@,
                    from_wallet,
                    0,
                )->Some_0;
                let opt = old(distribution).distribution_options.slots@[i]->Some_0;
                &&& amount as int == opt.total_amount as int - spec_total_rewards(
                    opt,
                    old(distribution).total_vote_weight,
                )
                &&& final(distribution).distribution_options.slots@ == old(
                    distribution,
                ).distribution_options.slots@.update(
                    i,
                    Some(DistributionOption { extra_reclaimed: true, ..opt }),
                )
                &&& final(distribution).total_vote_weight == old(distribution).total_vote_weight
                &&& final(distribution).total_vote_weight_claimed == old(
                    distribution,
                ).total_vote_weight_claimed
                &&& final(distribution).registration_period_end_ts == old(
                    distribution,
                ).registration_period_end_ts
                &&& final(distribution).realm == old(distribution).realm
                &&& final(distribution).voter_weight_program == old(
                    distribution,
                ).voter_weight_program
                &&& final(distribution).registrar == old(distribution).registrar
                &&& final(distribution).admin == old(distribution).admin
                &&& final(distribution).wf()
            }),
        },
{
    if caller != distribution.admin {
        return Err(GovernanceRewardsError::AdminOnly);
    }
    if distribution.can_register(now) {
        return Err(GovernanceRewardsError::CannotReclaimFundsYet);
    }

    let found = distribution.distribution_options.by_wallet(from_wallet);
    proof {
        lemma_first_wallet_from_props(
            distribution.distribution_options.slots@,
            from_wallet,
            0,
        );
    }
    let index = match found {
        Some(i) => i,
        None => {
            return Err(GovernanceRewardsError::NoMatchingOption);
        },
    };

    let idx = index as usize;
    let option = distribution.distribution_options.slots[idx].unwrap();
    if option.extra_reclaimed {
        return Err(GovernanceRewardsError::AlreadyReclaimed);
    }
    if distribution.total_vote_weight == 0 {
        return Err(GovernanceRewardsError::Arithmetic);
    }

    proof {
        lemma_options_weight_at_least_slot(
            distribution.distribution_options.slots@,
            idx as int,
        );
    }
    let reclaimable = distribution.calculate_unused_rewards(option);

    let updated = DistributionOption { extra_reclaimed: true, ..option };
    proof {
        lemma_options_weight_update(
            distribution.distribution_options.slots@,
            idx as int,
            Some(updated),
        );
    }
    distribution.distribution_options.slots.set(idx, Some(updated));

    Ok(reclaimable)
}

/// Setting one option's reclaim flag changes no wallet, so a wallet scan
/// finds the same slot before and after.
proof fn lemma_first_wallet_unchanged_by_flag(
    s: Seq<Option<DistributionOption>>,
    t: Seq<Option<DistributionOption>>,
    w: Address,
    i: int,
)
    requires
        s.len() == t.len(),
        forall|j: int|
            i <= j < s.len() ==> ((#[trigger] s[j] matches Some(o) && o.wallet == w) <==> (
            #[trigger] t[j] matches Some(o) && o.wallet == w)),
        0 <= i <= s.len(),
    ensures
        spec_first_wallet_from(s, w, i) == spec_first_wallet_from(t, w, i),
    decreases s.len() - i,
{
    if i < s.len() {
        lemma_first_wallet_unchanged_by_flag(s, t, w, i + 1);
    }
}

/// Reclaiming is one-shot per option: after a reclaim succeeds, the same
/// reclaim — same wallet, same caller, same time — is refused with
/// `AlreadyReclaimed`, and by `reclaim_funds`'s contract a refused reclaim
/// changes nothing.
pub proof fn lemma_reclaim_is_one_shot(
    dist1: Distribution,
    dist2: Distribution,
    from_wallet: Address,
    caller: Address,
    now: u64,
)
    requires
        dist1.wf(),
        spec_reclaim_funds_error(dist1, from_wallet, caller, now) is None,
        ({
            let i = spec_first_wallet_from(dist1.distribution_options.slots@, from_wallet, 0)->Some_0;
            let opt = dist1.distribution_options.slots@[i]->Some_0;
            &&& dist2.distribution_options.slots@ == dist1.distribution_options.slots@.update(
                i,
                Some(DistributionOption { extra_reclaimed: true, ..opt }),
            )
            &&& dist2.total_vote_weight == dist1.total_vote_weight
            &&& dist2.registration_period_end_ts == dist1.registration_period_end_ts
            &&& dist2.admin == dist1.admin
        }),
    ensures
        spec_reclaim_funds_error(dist2, from_wallet, caller, now) == Some(
            GovernanceRewardsError::AlreadyReclaimed,
        ),
{
    let s = dist1.distribution_options.slots@;
    let t = dist2.distribution_options.slots@;
    let i = spec_first_wallet_from(s, from_wallet, 0)->Some_0;
    lemma_first_wallet_from_props(s, from_wallet, 0);
    lemma_first_wallet_unchanged_by_flag(s, t, from_wallet, 0);
}

/// The first error a record cleanup hits, in check order: the record belongs
/// to a different distribution, the pool is not fully claimed yet, or the
/// caller is not the record's own registrant.
pub open spec fn spec_reclaim_user_data_error(
    dist: Distribution,
    cd: ClaimData,
    distribution_address: Address,
    caller: Address,
    now: u64,
) -> Option<GovernanceRewardsError> {
    if cd.distribution != distribution_address {
        Some(GovernanceRewardsError::WrongDistributionForClaim)
    } else if !dist.spec_fully_claimed(now) {
        Some(GovernanceRewardsError::CannotCleanUpYet)
    } else if cd.belongs_to != caller {
        Some(GovernanceRewardsError::CannotCleanUpAfterOtherUser)
    } else {
        None
    }
}

/// Decide whether a stale claim record may be destroyed and its storage
/// released to `caller`: only the record's own registrant may do so, only
/// against the distribution the record names, and only once the pool is
/// fully claimed. The destruction itself is the ledger's work; on `Ok` the
/// caller performs it.
pub fn reclaim_user_data(
    distribution: &Distribution,
    distribution_address: Address,
    claim_data: &ClaimData,
    caller: Address,
    now: u64,
) -> (r: Result<(), GovernanceRewardsError>)
    ensures
        match spec_reclaim_user_data_error(
            *distribution,
            *claim_data,
            distribution_address,
            caller,
            now,
        ) {
            Some(e) => r == Err::<(), GovernanceRewardsError>(e),
            None => r is Ok,
        },
{
    if claim_data.distribution != distribution_address {
        return Err(GovernanceRewardsError::WrongDistributionForClaim);
    }
    if !distribution.fully_claimed(now) {
        return Err(GovernanceRewardsError::CannotCleanUpYet);
    }
    if claim_data.belongs_to != caller {
        return Err(GovernanceRewardsError::CannotCleanUpAfterOtherUser);
    }
    Ok(())
}

} // verus!
