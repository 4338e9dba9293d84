//! The pool record: registration deadline, identities used to validate
//! attestations, aggregate weight counters, the option table and the admin.
//! The record exposes the phase predicates that gate every operation and the
//! two-stage proportional-reward formula. Division truncates toward zero on
//! purpose: the compounded truncation leaves unclaimed dust, and exactly the
//! remainder of the first stage is what the admin may reclaim per option.

use vstd::arithmetic::div_mod::{
    lemma_div_is_ordered, lemma_div_multiples_vanish, lemma_div_pos_is_pos,
};
use vstd::arithmetic::mul::lemma_mul_inequality;
use vstd::prelude::*;
use vstd::slice::slice_to_vec;
use vstd::string::StringSliceAdditionalSpecFns;

use crate::address::Address;
use crate::derivation::{derive_address, derives_to};
use crate::options::{spec_options_weight, DistributionOption, DistributionOptions};

verus! {

/// One reward pool: created once, mutated by registration, update, claim and
/// reclaim, never deleted in scope.
#[derive(Clone, PartialEq, Eq, Debug)]
pub struct Distribution {
    pub registration_period_end_ts: u64,
    pub voter_weight_program: Address,
    pub realm: Address,
    pub registrar: Option<Address>,
    pub total_vote_weight: u64,
    pub total_vote_weight_claimed: u64,
    pub distribution_options: DistributionOptions,
    pub admin: Address,
}

/// The seed tuple of the authority entitled to move funds out of a
/// distribution's funding wallets.
pub open spec fn spec_payout_authority_seeds(distribution: Address) -> Seq<Seq<u8>> {
    seq!["payout authority".spec_bytes(), distribution@]
}

/// First stage of the proportional formula: the slice of the pool's funds
/// earmarked for one option, `floor(amount * option_weight / total_weight)`.
pub open spec fn spec_total_rewards(option: DistributionOption, total_weight: u64) -> int
    recommends
        total_weight > 0,
{
    (option.total_amount as int * option.total_vote_weight as int) / (total_weight as int)
}

/// Second stage: one registrant's share of the option's slice,
/// `floor(option_reward * user_weight / option_weight)`.
pub open spec fn spec_user_reward(option: DistributionOption, total_weight: u64, weight: u64) -> int
    recommends
        total_weight > 0,
        option.total_vote_weight > 0,
{
    (spec_total_rewards(option, total_weight) * weight as int) / (option.total_vote_weight as int)
}

/// A truncating proportional share never exceeds the amount being split:
/// `0 <= (a * b) / c <= a` whenever `0 <= b <= c`.
proof fn lemma_mul_div_le(a: int, b: int, c: int)
    requires
        0 <= a,
        0 <= b <= c,
        0 < c,
    ensures
        0 <= (a * b) / c <= a,
{
    lemma_mul_inequality(b, c, a);
    assert(a * b == b * a) by (nonlinear_arith);
    assert(a * c == c * a) by (nonlinear_arith);
    lemma_div_is_ordered(a * b, a * c, c);
    lemma_div_multiples_vanish(a, c);
    assert(a * b >= 0) by (nonlinear_arith)
        requires
            0 <= a,
            0 <= b,
    ;
    lemma_div_pos_is_pos(a * b, c);
}

impl Distribution {
    /// The aggregate-counter invariant of every reachable pool state: the
    /// option table has its fixed shape, the pool's total weight equals the
    /// sum of the weights attributed to its options, and no more weight has
    /// been claimed than was ever registered.
    pub open spec fn wf(self) -> bool {
        &&& self.distribution_options.wf()
        &&& spec_options_weight(self.distribution_options.slots@)
            == self.total_vote_weight as int
        &&& self.total_vote_weight_claimed <= self.total_vote_weight
    }

    /// Registration is allowed strictly before the deadline.
    pub open spec fn spec_can_register(self, now: u64) -> bool {
        now < self.registration_period_end_ts
    }

    pub fn can_register(&self, now: u64) -> (r: bool)
        ensures
            r == self.spec_can_register(now),
    {
        now < self.registration_period_end_ts
    }

    /// The pool is fully claimed once registration has closed and every
    /// registered unit of weight has been claimed.
    pub open spec fn spec_fully_claimed(self, now: u64) -> bool {
        self.total_vote_weight_claimed >= self.total_vote_weight && !self.spec_can_register(now)
    }

    pub fn fully_claimed(&self, now: u64) -> (r: bool)
        ensures
            r == self.spec_fully_claimed(now),
    {
        self.total_vote_weight_claimed >= self.total_vote_weight && !self.can_register(now)
    }

    /// Claims are allowed once registration has closed, until the pool is
    /// fully claimed.
    pub open spec fn spec_can_claim(self, now: u64) -> bool {
        !self.spec_can_register(now) && !self.spec_fully_claimed(now)
    }

    pub fn can_claim(&self, now: u64) -> (r: bool)
        ensures
            r == self.spec_can_claim(now),
    {
        !self.can_register(now) && !self.fully_claimed(now)
    }

    /// First stage of the proportional formula, computed with 128-bit
    /// intermediate precision so the multiply cannot overflow.
    fn calculate_total_rewards(&self, option: DistributionOption) -> (r: u128)
        requires
            self.total_vote_weight > 0,
            option.total_vote_weight <= self.total_vote_weight,
        ensures
            r as int == spec_total_rewards(option, self.total_vote_weight),
            r <= option.total_amount,
    {
        proof {
            lemma_mul_div_le(
                option.total_amount as int,
                option.total_vote_weight as int,
                self.total_vote_weight as int,
            );
            assert(option.total_amount as int * option.total_vote_weight as int
                <= u64::MAX as int * u64::MAX as int) by (nonlinear_arith)
                requires
                    option.total_amount <= u64::MAX,
                    option.total_vote_weight <= u64::MAX,
            ;
        }
        let product: u128 = (option.total_amount as u128) * (option.total_vote_weight as u128);
        product / (self.total_vote_weight as u128)
    }

    /// One registrant's reward, using the option's current weight and the
    /// registrant's attributed weight, both frozen at registration time.
    pub fn calculate_rewards(&self, option: DistributionOption, weight: u64) -> (r: u64)
        requires
            self.total_vote_weight > 0,
            option.total_vote_weight > 0,
            option.total_vote_weight <= self.total_vote_weight,
            weight <= option.total_vote_weight,
        ensures
            r as int == spec_user_reward(option, self.total_vote_weight, weight),
            r <= option.total_amount,
    {
        let stage_one: u128 = self.calculate_total_rewards(option);
        proof {
            lemma_mul_div_le(
                stage_one as int,
                weight as int,
                option.total_vote_weight as int,
            );
            assert(stage_one as int * weight as int <= u64::MAX as int * u64::MAX as int)
                by (nonlinear_arith)
                requires
                    stage_one <= u64::MAX,
                    weight <= u64::MAX,
            ;
        }
        let product: u128 = stage_one * (weight as u128);
        let r128: u128 = product / (option.total_vote_weight as u128);
        r128 as u64
    }

    /// The remainder the first stage leaves unattributed to any registrant of
    /// this option: `amount - floor(amount * option_weight / total_weight)`.
    /// This is what the admin may reclaim once registration has closed.
    pub fn calculate_unused_rewards(&self, option: DistributionOption) -> (r: u64)
        requires
            self.total_vote_weight > 0,
            option.total_vote_weight <= self.total_vote_weight,
        ensures
            r as int == option.total_amount as int - spec_total_rewards(
                option,
                self.total_vote_weight,
            ),
    {
        let stage_one: u128 = self.calculate_total_rewards(option);
        option.total_amount - (stage_one as u64)
    }

    /// The derived authority entitled to move funds out of the funding
    /// wallets of the distribution at `key`, under the owning program
    /// `program_id`.
    pub fn get_payout_authority(key: Address, program_id: Address) -> (r: Option<Address>)
        ensures
            derives_to(spec_payout_authority_seeds(key), program_id, r),
    {
        let mut seeds: Vec<Vec<u8>> = Vec::new();
        seeds.push(slice_to_vec("payout authority".as_bytes()));
        seeds.push(key.to_bytes());
        proof {
            assert(seeds.deep_view() =~~= spec_payout_authority_seeds(key));
        }
        derive_address(&seeds, program_id)
    }
}

} // verus!
