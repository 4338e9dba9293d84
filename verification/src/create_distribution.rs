//! Creating a pool: a registration deadline strictly in the future, the
//! identities that later validate attestations, and up to eight candidate
//! funding accounts, each of which must be owned by the pool's payout
//! authority. Partial success is not allowed: one bad candidate fails the
//! whole construction.

use vstd::prelude::*;

use crate::address::Address;
use crate::distribution::Distribution;
use crate::error::GovernanceRewardsError;
use crate::options::{spec_option_of, DistributionOptions, TokenAccountData, OPTION_SLOTS};

verus! {

/// The first error pool creation hits, in check order: a deadline not in the
/// future, too many candidates, a candidate not owned by the payout
/// authority.
pub open spec fn spec_create_distribution_error(
    registration_cutoff: u64,
    now: u64,
    candidates: Seq<TokenAccountData>,
    payout_authority: Address,
) -> Option<GovernanceRewardsError> {
    if registration_cutoff <= now {
        Some(GovernanceRewardsError::RegistrationCutoffInPast)
    } else if candidates.len() > OPTION_SLOTS as int {
        Some(GovernanceRewardsError::TooManyOptions)
    } else if exists|k: int|
        0 <= k < candidates.len() && candidates[k].owner != payout_authority {
        Some(GovernanceRewardsError::TokenAccountNotOwned)
    } else {
        None
    }
}

/// Create a pool. On success the pool is in its registration phase, counts
/// no weight, and its option table holds exactly the candidates, in order,
/// each with its funded balance frozen.
pub fn create_distribution(
    registration_cutoff: u64,
    registrar: Option<Address>,
    realm: Address,
    voter_weight_program: Address,
    admin: Address,
    payout_authority: Address,
    candidates: &Vec<TokenAccountData>,
    now: u64,
) -> (r: Result<Distribution, GovernanceRewardsError>)
    ensures
        match spec_create_distribution_error(registration_cutoff, now, candidates@, payout_authority) {
            Some(e) => r == Err::<Distribution, GovernanceRewardsError>(e),
            None => r matches Ok(d) && {
                &&& d.wf()
                &&& d.registration_period_end_ts == registration_cutoff
                &&& d.realm == realm
                &&& d.voter_weight_program == voter_weight_program
                &&& d.registrar == registrar
                &&& d.admin == admin
                &&& d.total_vote_weight == 0
                &&& d.total_vote_weight_claimed == 0
                &&& d.spec_can_register(now)
                &&& forall|j: int|
                    0 <= j < candidates@.len() ==> d.distribution_options.slots@[j] == Some(
                        spec_option_of(candidates@[j]),
                    )
                &&& forall|j: int|
                    candidates@.len() <= j < OPTION_SLOTS as int
                        ==> d.distribution_options.slots@[j] is None
            },
        },
{
    if registration_cutoff <= now {
        return Err(GovernanceRewardsError::RegistrationCutoffInPast);
    }
    let distribution_options = DistributionOptions::from_accounts(candidates, payout_authority)?;
    Ok(
        Distribution {
            registration_period_end_ts: registration_cutoff,
            voter_weight_program,
            realm,
            registrar,
            total_vote_weight: 0,
            total_vote_weight_claimed: 0,
            distribution_options,
            admin,
        },
    )
}

} // verus!
