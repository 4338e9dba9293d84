//! The distribution option table: a fixed-capacity, sparse, order-preserving
//! table of payout options, each backed by one funding wallet. Slot indices
//! are durable external references (a claim record stores the index of the
//! option its weight is attributed to), so the table never reshuffles slots.

use vstd::prelude::*;

use crate::address::Address;
use crate::error::GovernanceRewardsError;

verus! {

/// The number of slots in every option table.
pub const OPTION_SLOTS: usize = 8;

/// One payout option: a funding wallet, its mint, the weight currently
/// attributed to it, the balance it was funded with, and the one-shot flag
/// set when the admin reclaims its unused remainder.
#[derive(Clone, Copy, PartialEq, Eq, Structural, Debug)]
pub struct DistributionOption {
    pub total_vote_weight: u64,
    pub total_amount: u64,
    pub extra_reclaimed: bool,
    pub mint: Address,
    pub wallet: Address,
}

/// The fields of a fungible-token account that the pool logic reads: its
/// address, its mint, the authority that owns it, and its balance.
#[derive(Clone, Copy, PartialEq, Eq, Structural, Debug)]
pub struct TokenAccountData {
    pub address: Address,
    pub mint: Address,
    pub owner: Address,
    pub amount: u64,
}

/// A fixed-capacity (8-slot) sparse array of payout options.
#[derive(Clone, PartialEq, Eq, Debug)]
pub struct DistributionOptions {
    pub slots: Vec<Option<DistributionOption>>,
}

/// The weight a slot contributes to the pool's aggregate counter.
pub open spec fn slot_weight(o: Option<DistributionOption>) -> int {
    match o {
        Some(x) => x.total_vote_weight as int,
        None => 0,
    }
}

/// Sum of the weights attributed to all slots of the table.
pub open spec fn spec_options_weight(s: Seq<Option<DistributionOption>>) -> int
    decreases s.len(),
{
    if s.len() == 0 {
        0
    } else {
        spec_options_weight(s.drop_last()) + slot_weight(s.last())
    }
}

/// The first slot at or after `i` that is occupied.
pub open spec fn spec_first_occupied_from(s: Seq<Option<DistributionOption>>, i: int) -> Option<
    int,
>
    decreases s.len() - i,
    when 0 <= i <= s.len()
{
    if i >= s.len() {
        None
    } else if s[i] is Some {
        Some(i)
    } else {
        spec_first_occupied_from(s, i + 1)
    }
}

/// The first slot at or after `i` occupied by an option with mint `m`.
pub open spec fn spec_first_match_from(
    s: Seq<Option<DistributionOption>>,
    m: Address,
    i: int,
) -> Option<int>
    decreases s.len() - i,
    when 0 <= i <= s.len()
{
    if i >= s.len() {
        None
    } else if s[i] matches Some(o) && o.mint == m {
        Some(i)
    } else {
        spec_first_match_from(s, m, i + 1)
    }
}

/// The first slot at or after `i` occupied by an option backed by wallet `w`.
pub open spec fn spec_first_wallet_from(
    s: Seq<Option<DistributionOption>>,
    w: Address,
    i: int,
) -> Option<int>
    decreases s.len() - i,
    when 0 <= i <= s.len()
{
    if i >= s.len() {
        None
    } else if s[i] matches Some(o) && o.wallet == w {
        Some(i)
    } else {
        spec_first_wallet_from(s, w, i + 1)
    }
}

/// The slot a registration with the given preferred mint is attributed to:
/// the first slot carrying the preferred mint if one exists, otherwise the
/// first occupied slot; `None` only when the table has no occupied slot.
pub open spec fn spec_pick_by_mint(
    s: Seq<Option<DistributionOption>>,
    preferred: Option<Address>,
) -> Option<int> {
    match preferred {
        Some(m) => match spec_first_match_from(s, m, 0) {
            Some(i) => Some(i),
            None => spec_first_occupied_from(s, 0),
        },
        None => spec_first_occupied_from(s, 0),
    }
}

/// The option built from one funding account: its weight starts at zero, its
/// funded balance is the account's balance, and its remainder is unreclaimed.
pub open spec fn spec_option_of(c: TokenAccountData) -> DistributionOption {
    DistributionOption {
        total_vote_weight: 0,
        total_amount: c.amount,
        extra_reclaimed: false,
        mint: c.mint,
        wallet: c.address,
    }
}

pub proof fn lemma_options_weight_push(s: Seq<Option<DistributionOption>>, v: Option<
    DistributionOption,
>)
    ensures
        spec_options_weight(s.push(v)) == spec_options_weight(s) + slot_weight(v),
{
    assert(s.push(v).drop_last() =~= s);
    assert(s.push(v).last() == v);
}

pub proof fn lemma_options_weight_update(
    s: Seq<Option<DistributionOption>>,
    i: int,
    v: Option<DistributionOption>,
)
    requires
        0 <= i < s.len(),
    ensures
        spec_options_weight(s.update(i, v)) == spec_options_weight(s) - slot_weight(s[i])
            + slot_weight(v),
    decreases s.len(),
{
    if i == s.len() - 1 {
        assert(s.update(i, v).drop_last() =~= s.drop_last());
        assert(s.update(i, v).last() == v);
    } else {
        assert(s.update(i, v).drop_last() =~= s.drop_last().update(i, v));
        assert(s.update(i, v).last() == s.last());
        lemma_options_weight_update(s.drop_last(), i, v);
    }
}

pub proof fn lemma_options_weight_nonneg(s: Seq<Option<DistributionOption>>)
    ensures
        spec_options_weight(s) >= 0,
    decreases s.len(),
{
    if s.len() > 0 {
        lemma_options_weight_nonneg(s.drop_last());
    }
}

/// An occupied slot never carries more weight than the whole table.
pub proof fn lemma_options_weight_at_least_slot(s: Seq<Option<DistributionOption>>, i: int)
    requires
        0 <= i < s.len(),
    ensures
        slot_weight(s[i]) <= spec_options_weight(s),
    decreases s.len(),
{
    lemma_options_weight_nonneg(s.drop_last());
    if i == s.len() - 1 {
        assert(s.last() == s[i]);
    } else {
        lemma_options_weight_at_least_slot(s.drop_last(), i);
    }
}

/// Where `spec_first_occupied_from` points, and what it means when it
/// points nowhere.
pub proof fn lemma_first_occupied_from_props(s: Seq<Option<DistributionOption>>, i: int)
    requires
        0 <= i <= s.len(),
    ensures
        match spec_first_occupied_from(s, i) {
            Some(k) => i <= k < s.len() && s[k] is Some,
            None => forall|j: int| i <= j < s.len() ==> s[j] is None,
        },
    decreases s.len() - i,
{
    if i < s.len() && !(s[i] is Some) {
        lemma_first_occupied_from_props(s, i + 1);
    }
}

pub proof fn lemma_first_match_from_props(s: Seq<Option<DistributionOption>>, m: Address, i: int)
    requires
        0 <= i <= s.len(),
    ensures
        match spec_first_match_from(s, m, i) {
            Some(k) => i <= k < s.len() && (s[k] matches Some(o) && o.mint == m),
            None => forall|j: int|
                i <= j < s.len() ==> match #[trigger] s[j] {
                    Some(o) => o.mint != m,
                    None => true,
                },
        },
    decreases s.len() - i,
{
    if i < s.len() && !(s[i] matches Some(o) && o.mint == m) {
        lemma_first_match_from_props(s, m, i + 1);
    }
}

pub proof fn lemma_first_wallet_from_props(s: Seq<Option<DistributionOption>>, w: Address, i: int)
    requires
        0 <= i <= s.len(),
    ensures
        match spec_first_wallet_from(s, w, i) {
            Some(k) => i <= k < s.len() && (s[k] matches Some(o) && o.wallet == w),
            None => forall|j: int|
                i <= j < s.len() ==> match #[trigger] s[j] {
                    Some(o) => o.wallet != w,
                    None => true,
                },
        },
    decreases s.len() - i,
{
    if i < s.len() && !(s[i] matches Some(o) && o.wallet == w) {
        lemma_first_wallet_from_props(s, w, i + 1);
    }
}

/// The chosen slot is always occupied.
pub proof fn lemma_pick_by_mint_occupied(
    s: Seq<Option<DistributionOption>>,
    preferred: Option<Address>,
)
    ensures
        match spec_pick_by_mint(s, preferred) {
            Some(k) => 0 <= k < s.len() && s[k] is Some,
            None => forall|j: int| 0 <= j < s.len() ==> s[j] is None,
        },
{
    lemma_first_occupied_from_props(s, 0);
    match preferred {
        Some(m) => lemma_first_match_from_props(s, m, 0),
        None => (),
    }
}

impl DistributionOptions {
    /// The table always holds exactly eight slots.
    pub open spec fn wf(self) -> bool {
        self.slots@.len() == OPTION_SLOTS as int
    }

    /// An empty table: eight vacant slots.
    pub fn empty() -> (r: DistributionOptions)
        ensures
            r.wf(),
            forall|j: int| 0 <= j < OPTION_SLOTS as int ==> r.slots@[j] is None,
            spec_options_weight(r.slots@) == 0,
    {
        let mut slots: Vec<Option<DistributionOption>> = Vec::new();
        let mut j: usize = 0;
        while j < OPTION_SLOTS
            invariant
                j <= OPTION_SLOTS,
                slots@.len() == j as int,
                forall|k: int| 0 <= k < j as int ==> slots@[k] is None,
                spec_options_weight(slots@) == 0,
            decreases OPTION_SLOTS - j,
        {
            proof {
                lemma_options_weight_push(slots@, None);
            }
            slots.push(None);
            j += 1;
        }
        DistributionOptions { slots }
    }

    /// Build the table from a list of candidate funding accounts, each of
    /// which must be owned by the payout `authority`; partial success is not
    /// allowed. Candidates fill the first slots in order; the rest stay vacant.
    pub fn from_accounts(candidates: &Vec<TokenAccountData>, authority: Address) -> (r: Result<
        DistributionOptions,
        GovernanceRewardsError,
    >)
        ensures
            candidates@.len() > OPTION_SLOTS as int ==> r == Err::<
                DistributionOptions,
                GovernanceRewardsError,
            >(GovernanceRewardsError::TooManyOptions),
            candidates@.len() <= OPTION_SLOTS as int ==> {
                if exists|k: int| 0 <= k < candidates@.len() && candidates@[k].owner != authority {
                    r == Err::<DistributionOptions, GovernanceRewardsError>(
                        GovernanceRewardsError::TokenAccountNotOwned,
                    )
                } else {
                    r matches Ok(t) && {
                        &&& t.wf()
                        &&& forall|j: int|
                            0 <= j < candidates@.len() ==> t.slots@[j] == Some(
                                spec_option_of(candidates@[j]),
                            )
                        &&& forall|j: int|
                            candidates@.len() <= j < OPTION_SLOTS as int ==> t.slots@[j] is None
                        &&& spec_options_weight(t.slots@) == 0
                    }
                }
            },
    {
        if candidates.len() > OPTION_SLOTS {
            return Err(GovernanceRewardsError::TooManyOptions);
        }
        let mut slots: Vec<Option<DistributionOption>> = Vec::new();
        let mut j: usize = 0;
        while j < candidates.len()
            invariant
                j <= candidates@.len() <= OPTION_SLOTS as int,
                slots@.len() == j as int,
                forall|k: int| 0 <= k < j as int ==> candidates@[k].owner == authority,
                forall|k: int|
                    0 <= k < j as int ==> slots@[k] == Some(spec_option_of(candidates@[k])),
                spec_options_weight(slots@) == 0,
            decreases candidates@.len() - j,
        {
            let c = candidates[j];
            if c.owner != authority {
                return Err(GovernanceRewardsError::TokenAccountNotOwned);
            }
            let opt = DistributionOption {
                total_vote_weight: 0,
                total_amount: c.amount,
                extra_reclaimed: false,
                mint: c.mint,
                wallet: c.address,
            };
            proof {
                lemma_options_weight_push(slots@, Some(opt));
            }
            slots.push(Some(opt));
            j += 1;
        }
        while j < OPTION_SLOTS
            invariant
                candidates@.len() <= j as int <= OPTION_SLOTS as int,
                slots@.len() == j as int,
                forall|k: int|
                    0 <= k < candidates@.len() ==> slots@[k] == Some(
                        spec_option_of(candidates@[k]),
                    ),
                forall|k: int| candidates@.len() <= k < j as int ==> slots@[k] is None,
                spec_options_weight(slots@) == 0,
            decreases OPTION_SLOTS - j,
        {
            proof {
                lemma_options_weight_push(slots@, None);
            }
            slots.push(None);
            j += 1;
        }
        Ok(DistributionOptions { slots })
    }

    /// Pick the slot a registration is attributed to: the first slot carrying
    /// the preferred mint if one exists, otherwise the first occupied slot.
    /// Fails only when the table has no occupied slot at all.
    pub fn pick_by_mint(&self, preferred: Option<Address>) -> (r: Result<
        u8,
        GovernanceRewardsError,
    >)
        requires
            self.wf(),
        ensures
            match spec_pick_by_mint(self.slots@, preferred) {
                Some(i) => r matches Ok(k) && k as int == i,
                None => r == Err::<u8, GovernanceRewardsError>(
                    GovernanceRewardsError::NoDistributionOptions,
                ),
            },
    {
        let n = self.slots.len();
        let mut fallback: Option<u8> = None;
        let mut j: usize = 0;
        while j < n
            invariant
                self.wf(),
                n == OPTION_SLOTS,
                j <= n,
                match preferred {
                    Some(m) => spec_first_match_from(self.slots@, m, 0) == spec_first_match_from(
                        self.slots@,
                        m,
                        j as int,
                    ),
                    None => true,
                },
                preferred is None ==> fallback is None,
                match fallback {
                    Some(k) => spec_first_occupied_from(self.slots@, 0) == Some(k as int),
                    None => spec_first_occupied_from(self.slots@, 0) == spec_first_occupied_from(
                        self.slots@,
                        j as int,
                    ),
                },
            decreases n - j,
        {
            let slot = self.slots[j];
            if let Some(opt) = slot {
                match preferred {
                    Some(m) => {
                        if opt.mint == m {
                            return Ok(j as u8);
                        }
                    },
                    None => {
                        return Ok(j as u8);
                    },
                }
                if fallback.is_none() {
                    fallback = Some(j as u8);
                }
            }
            j += 1;
        }
        match fallback {
            Some(k) => Ok(k),
            None => Err(GovernanceRewardsError::NoDistributionOptions),
        }
    }

    /// Locate the slot whose backing wallet is `wallet`, if any.
    pub fn by_wallet(&self, wallet: Address) -> (r: Option<u8>)
        requires
            self.wf(),
        ensures
            match spec_first_wallet_from(self.slots@, wallet, 0) {
                Some(i) => r matches Some(k) && k as int == i,
                None => r is None,
            },
    {
        let n = self.slots.len();
        let mut j: usize = 0;
        while j < n
            invariant
                self.wf(),
                n == OPTION_SLOTS,
                j <= n,
                spec_first_wallet_from(self.slots@, wallet, 0) == spec_first_wallet_from(
                    self.slots@,
                    wallet,
                    j as int,
                ),
            decreases n - j,
        {
            let slot = self.slots[j];
            if let Some(opt) = slot {
                if opt.wallet == wallet {
                    return Some(j as u8);
                }
            }
            j += 1;
        }
        None
    }
}

} // verus!
