//! The per-user claim record: the weight last attributed, the option it is
//! attributed to, the one-shot claim flag, and a weak back-reference to the
//! owning distribution that every operation re-validates against the
//! caller-supplied pool record.

use vstd::prelude::*;
use vstd::slice::slice_to_vec;
use vstd::string::StringSliceAdditionalSpecFns;

use crate::address::Address;
use crate::derivation::{derive_address, derives_to};
use crate::distribution::Distribution;
use crate::options::DistributionOption;

verus! {

/// One registrant's record in one distribution: created at registration,
/// mutated at update and claim, destroyed at cleanup.
#[derive(Clone, Copy, PartialEq, Eq, Structural, Debug)]
pub struct ClaimData {
    /// Last-known attributed voting weight.
    pub weight: u64,
    /// The distribution this record belongs to, re-validated on every access.
    pub distribution: Address,
    /// Index into the owning distribution's option table.
    pub claim_option: u8,
    /// One-shot flag: claiming is refused once true.
    pub has_claimed: bool,
    /// The registrant this record was created for.
    pub belongs_to: Address,
}

/// The seed tuple locating the claim record of `user` in `distribution`.
pub open spec fn spec_claim_data_seeds(user: Address, distribution: Address) -> Seq<Seq<u8>> {
    seq![distribution@, "claim data".spec_bytes(), user@]
}

impl ClaimData {
    /// The record points into the option table of `dist` and its weight is
    /// accounted there: its weight is positive (a zero weight is never
    /// registered), the slot it names is occupied and carries at least this
    /// record's weight, and, while the record is unclaimed, the pool still
    /// owes it at least this weight. Registration establishes this shape and
    /// every operation preserves it.
    pub open spec fn valid_for(self, dist: Distribution) -> bool {
        &&& 0 < self.weight
        &&& (self.claim_option as int) < dist.distribution_options.slots@.len()
        &&& dist.distribution_options.slots@[self.claim_option as int] matches Some(opt)
            && self.weight <= opt.total_vote_weight
        &&& (!self.has_claimed ==> self.weight as int <= dist.total_vote_weight as int
            - dist.total_vote_weight_claimed as int)
    }

    /// The option this record's weight is currently attributed to.
    pub open spec fn spec_chosen_option(self, dist: Distribution) -> DistributionOption {
        dist.distribution_options.slots@[self.claim_option as int]->Some_0
    }

    pub fn chosen_option(&self, distribution: &Distribution) -> (r: DistributionOption)
        requires
            self.valid_for(*distribution),
        ensures
            r == self.spec_chosen_option(*distribution),
    {
        distribution.distribution_options.slots[self.claim_option as usize].unwrap()
    }

    /// The derived address of the claim record for `user` in `distribution`,
    /// under the owning program `program_id`.
    pub fn get_address(user: Address, distribution: Address, program_id: Address) -> (r: Option<
        Address,
    >)
        ensures
            derives_to(spec_claim_data_seeds(user, distribution), program_id, r),
    {
        let mut seeds: Vec<Vec<u8>> = Vec::new();
        seeds.push(distribution.to_bytes());
        seeds.push(slice_to_vec("claim data".as_bytes()));
        seeds.push(user.to_bytes());
        proof {
            assert(seeds.deep_view() =~~= spec_claim_data_seeds(user, distribution));
        }
        derive_address(&seeds, program_id)
    }
}

} // verus!
