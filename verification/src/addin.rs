//! The externally issued voting-weight attestation and its validation. The
//! attestation is produced by a separate voting-weight program; this library
//! only reads it, and attributes its weight to a pool only after five checks
//! pass: freshness, action kind, action target, realm, and registrant.

use vstd::bytes::{spec_u64_from_le_bytes, u64_from_le_bytes};
use vstd::prelude::*;
use vstd::slice::slice_subrange;

use crate::address::{spec_address_from_bytes, Address};
use crate::distribution::Distribution;
use crate::error::GovernanceRewardsError;

verus! {

/// The action a voting-weight attestation was issued for.
#[derive(Clone, Copy, PartialEq, Eq, Structural, Debug)]
pub enum VoterWeightAction {
    /// Cast a vote for a proposal.
    CastVote,
    /// Comment on a proposal.
    CommentProposal,
    /// Create a governance within a realm.
    CreateGovernance,
    /// Create a proposal for a governance.
    CreateProposal,
    /// Sign off a proposal for a governance.
    SignOffProposal,
    /// Register for a rewards distribution.
    RegisterForRewards,
}

/// An externally issued attestation of a user's voting weight. This library
/// never issues or mutates these records; it only validates and reads them.
#[derive(Clone, Copy, PartialEq, Eq, Structural, Debug)]
pub struct VoterWeightRecord {
    pub realm: Address,
    pub governing_token_mint: Address,
    pub governing_token_owner: Address,
    pub voter_weight: u64,
    pub voter_weight_expiry: Option<u64>,
    pub weight_action: Option<VoterWeightAction>,
    pub weight_action_target: Option<Address>,
}

/// A value that has been read but whose checks have not run yet: the weight
/// of the record inside may not be used until `validate` succeeds.
pub struct Unvalidated<T> {
    inner: T,
}

impl<T> Unvalidated<T> {
    /// The value awaiting validation.
    pub closed spec fn record(self) -> T {
        self.inner
    }

    pub fn new(inner: T) -> (r: Unvalidated<T>)
        ensures
            r.record() == inner,
    {
        Unvalidated { inner }
    }

    /// Read the value without validating it; what is read this way must not
    /// be attributed to a pool.
    pub fn peek(&self) -> (r: &T)
        ensures
            *r == self.record(),
    {
        &self.inner
    }
}

impl VoterWeightRecord {
    /// The attestation is fresh at `current_slot`: it either never expires or
    /// expires no earlier than the current slot.
    pub open spec fn spec_is_not_expired(self, current_slot: u64) -> bool {
        match self.voter_weight_expiry {
            Some(slot) => slot >= current_slot,
            None => true,
        }
    }

    pub fn is_not_expired(&self, current_slot: u64) -> (r: bool)
        ensures
            r == self.spec_is_not_expired(current_slot),
    {
        match self.voter_weight_expiry {
            Some(slot) => slot >= current_slot,
            None => true,
        }
    }

    pub fn is_still_valid(&self, current_slot: u64) -> (r: bool)
        ensures
            r == self.spec_is_not_expired(current_slot),
    {
        self.is_not_expired(current_slot)
    }

    /// An attestation as the voting-weight program would issue it for a
    /// registration targeting the given distribution.
    pub fn create_test(
        realm: Address,
        governing_token_mint: Address,
        governing_token_owner: Address,
        distribution: Address,
        weight: u64,
        expiry: Option<u64>,
    ) -> (r: VoterWeightRecord)
        ensures
            r == (VoterWeightRecord {
                realm,
                governing_token_mint,
                governing_token_owner,
                voter_weight: weight,
                voter_weight_expiry: expiry,
                weight_action: Some(VoterWeightAction::RegisterForRewards),
                weight_action_target: Some(distribution),
            }),
    {
        VoterWeightRecord {
            realm,
            governing_token_mint,
            governing_token_owner,
            voter_weight: weight,
            voter_weight_expiry: expiry,
            weight_action: Some(VoterWeightAction::RegisterForRewards),
            weight_action_target: Some(distribution),
        }
    }
}

/// The outcome of validating an attestation against a distribution and a
/// registrant, in the order the checks run: freshness, action kind, action
/// target, realm, registrant. Only a record that passes all five may have
/// its weight attributed.
pub open spec fn spec_validate(
    rec: VoterWeightRecord,
    dist: Distribution,
    distribution_address: Address,
    registrant: Address,
    current_slot: u64,
) -> Result<VoterWeightRecord, GovernanceRewardsError> {
    if !rec.spec_is_not_expired(current_slot) {
        Err(GovernanceRewardsError::OutdatedVoteWeightRecord)
    } else if rec.weight_action != Some(VoterWeightAction::RegisterForRewards) {
        Err(GovernanceRewardsError::WrongAction)
    } else if !(rec.weight_action_target is None || rec.weight_action_target == Some(
        distribution_address,
    )) {
        Err(GovernanceRewardsError::WrongActionTarget)
    } else if rec.realm != dist.realm {
        Err(GovernanceRewardsError::WrongRealm)
    } else if rec.governing_token_owner != registrant {
        Err(GovernanceRewardsError::WrongRegistrant)
    } else {
        Ok(rec)
    }
}

impl Unvalidated<VoterWeightRecord> {
    /// Run the five checks, failing fast on the first violation; the weight
    /// inside becomes usable only through the returned record.
    pub fn validate(
        self,
        distribution: &Distribution,
        distribution_address: Address,
        registrant: Address,
        current_slot: u64,
    ) -> (r: Result<VoterWeightRecord, GovernanceRewardsError>)
        ensures
            r == spec_validate(
                self.record(),
                *distribution,
                distribution_address,
                registrant,
                current_slot,
            ),
    {
        if !self.inner.is_not_expired(current_slot) {
            return Err(GovernanceRewardsError::OutdatedVoteWeightRecord);
        }
        let action_ok = match self.inner.weight_action {
            Some(VoterWeightAction::RegisterForRewards) => true,
            _ => false,
        };
        if !action_ok {
            return Err(GovernanceRewardsError::WrongAction);
        }
        let target_ok = match self.inner.weight_action_target {
            Some(target) => target == distribution_address,
            None => true,
        };
        if !target_ok {
            return Err(GovernanceRewardsError::WrongActionTarget);
        }
        if self.inner.realm != distribution.realm {
            return Err(GovernanceRewardsError::WrongRealm);
        }
        if self.inner.governing_token_owner != registrant {
            return Err(GovernanceRewardsError::WrongRegistrant);
        }
        Ok(self.inner)
    }
}

/// The 8-byte tag opening every attestation account of the current layout.
pub open spec fn spec_record_discriminator() -> Seq<u8> {
    seq![46u8, 249u8, 155u8, 75u8, 153u8, 248u8, 116u8, 9u8]
}

/// The tag of the older attestation layout, still accepted.
pub open spec fn spec_legacy_discriminator() -> Seq<u8> {
    seq![50u8, 101u8, 102u8, 57u8, 57u8, 98u8, 52u8, 98u8]
}

/// An optional 64-bit little-endian field of the wire format: a one-byte
/// presence tag, then the value if present. Yields the value and the offset
/// after it, or nothing on a bad tag or a short buffer.
pub open spec fn spec_parse_opt_u64(s: Seq<u8>, off: int) -> Option<(Option<u64>, int)> {
    if off + 1 > s.len() {
        None
    } else if s[off] == 0 {
        Some((None::<u64>, off + 1))
    } else if s[off] == 1 {
        if off + 9 <= s.len() {
            Some((Some(spec_u64_from_le_bytes(s.subrange(off + 1, off + 9))), off + 9))
        } else {
            None
        }
    } else {
        None
    }
}

/// The action a one-byte wire tag stands for.
pub open spec fn spec_action_of_byte(b: u8) -> Option<VoterWeightAction> {
    if b == 0 {
        Some(VoterWeightAction::CastVote)
    } else if b == 1 {
        Some(VoterWeightAction::CommentProposal)
    } else if b == 2 {
        Some(VoterWeightAction::CreateGovernance)
    } else if b == 3 {
        Some(VoterWeightAction::CreateProposal)
    } else if b == 4 {
        Some(VoterWeightAction::SignOffProposal)
    } else if b == 5 {
        Some(VoterWeightAction::RegisterForRewards)
    } else {
        None
    }
}

/// An optional action field: a presence tag, then a one-byte variant index.
pub open spec fn spec_parse_opt_action(s: Seq<u8>, off: int) -> Option<
    (Option<VoterWeightAction>, int),
> {
    if off + 1 > s.len() {
        None
    } else if s[off] == 0 {
        Some((None::<VoterWeightAction>, off + 1))
    } else if s[off] == 1 {
        if off + 2 <= s.len() {
            match spec_action_of_byte(s[off + 1]) {
                Some(action) => Some((Some(action), off + 2)),
                None => None,
            }
        } else {
            None
        }
    } else {
        None
    }
}

/// An optional address field: a presence tag, then 32 bytes.
pub open spec fn spec_parse_opt_address(s: Seq<u8>, off: int) -> Option<(Option<Address>, int)> {
    if off + 1 > s.len() {
        None
    } else if s[off] == 0 {
        Some((None::<Address>, off + 1))
    } else if s[off] == 1 {
        if off + 33 <= s.len() {
            Some((Some(spec_address_from_bytes(s.subrange(off + 1, off + 33))), off + 33))
        } else {
            None
        }
    } else {
        None
    }
}

/// The attestation account layout: an 8-byte discriminator (current or
/// legacy), three 32-byte addresses (realm, governing token mint, governing
/// token owner), the 64-bit weight, the optional expiry slot, the optional
/// action, the optional action target, and 8 reserved bytes. Bytes after the
/// record are ignored, as the ledger's reader ignores them.
pub open spec fn spec_parse_voter_weight_record(s: Seq<u8>) -> Option<VoterWeightRecord> {
    if s.len() < 112 {
        None
    } else if s.subrange(0, 8) != spec_record_discriminator() && s.subrange(0, 8)
        != spec_legacy_discriminator() {
        None
    } else {
        match spec_parse_opt_u64(s, 112) {
            None => None,
            Some((expiry, off1)) => match spec_parse_opt_action(s, off1) {
                None => None,
                Some((action, off2)) => match spec_parse_opt_address(s, off2) {
                    None => None,
                    Some((target, off3)) => {
                        if off3 + 8 <= s.len() {
                            Some(
                                VoterWeightRecord {
                                    realm: spec_address_from_bytes(s.subrange(8, 40)),
                                    governing_token_mint: spec_address_from_bytes(
                                        s.subrange(40, 72),
                                    ),
                                    governing_token_owner: spec_address_from_bytes(
                                        s.subrange(72, 104),
                                    ),
                                    voter_weight: spec_u64_from_le_bytes(s.subrange(104, 112)),
                                    voter_weight_expiry: expiry,
                                    weight_action: action,
                                    weight_action_target: target,
                                },
                            )
                        } else {
                            None
                        }
                    },
                },
            },
        }
    }
}

/// The buffer opens with one of the two accepted discriminators.
fn discriminator_ok(bytes: &[u8]) -> (r: bool)
    requires
        bytes@.len() >= 8,
    ensures
        r == (bytes@.subrange(0, 8) == spec_record_discriminator() || bytes@.subrange(0, 8)
            == spec_legacy_discriminator()),
{
    let current = bytes[0] == 46 && bytes[1] == 249 && bytes[2] == 155 && bytes[3] == 75
        && bytes[4] == 153 && bytes[5] == 248 && bytes[6] == 116 && bytes[7] == 9;
    let legacy = bytes[0] == 50 && bytes[1] == 101 && bytes[2] == 102 && bytes[3] == 57
        && bytes[4] == 57 && bytes[5] == 98 && bytes[6] == 52 && bytes[7] == 98;
    proof {
        let d = bytes@.subrange(0, 8);
        assert(current <==> (d =~= spec_record_discriminator()));
        assert(legacy <==> (d =~= spec_legacy_discriminator()));
    }
    current || legacy
}

fn parse_opt_u64(bytes: &[u8], off: usize) -> (r: Option<(Option<u64>, usize)>)
    ensures
        match r {
            Some((v, next)) => spec_parse_opt_u64(bytes@, off as int) == Some((v, next as int)),
            None => spec_parse_opt_u64(bytes@, off as int) is None,
        },
{
    if off >= bytes.len() {
        return None;
    }
    let tag = bytes[off];
    if tag == 0 {
        Some((None, off + 1))
    } else if tag == 1 && bytes.len() - off >= 9 {
        let value = u64_from_le_bytes(slice_subrange(bytes, off + 1, off + 9));
        Some((Some(value), off + 9))
    } else {
        None
    }
}

fn parse_opt_action(bytes: &[u8], off: usize) -> (r: Option<(Option<VoterWeightAction>, usize)>)
    ensures
        match r {
            Some((v, next)) => spec_parse_opt_action(bytes@, off as int) == Some((v, next as int)),
            None => spec_parse_opt_action(bytes@, off as int) is None,
        },
{
    if off >= bytes.len() {
        return None;
    }
    let tag = bytes[off];
    if tag == 0 {
        Some((None, off + 1))
    } else if tag == 1 && bytes.len() - off >= 2 {
        let b = bytes[off + 1];
        let action = if b == 0 {
            VoterWeightAction::CastVote
        } else if b == 1 {
            VoterWeightAction::CommentProposal
        } else if b == 2 {
            VoterWeightAction::CreateGovernance
        } else if b == 3 {
            VoterWeightAction::CreateProposal
        } else if b == 4 {
            VoterWeightAction::SignOffProposal
        } else if b == 5 {
            VoterWeightAction::RegisterForRewards
        } else {
            return None;
        };
        Some((Some(action), off + 2))
    } else {
        None
    }
}

fn parse_opt_address(bytes: &[u8], off: usize) -> (r: Option<(Option<Address>, usize)>)
    ensures
        match r {
            Some((v, next)) => spec_parse_opt_address(bytes@, off as int) == Some((v, next as int)),
            None => spec_parse_opt_address(bytes@, off as int) is None,
        },
{
    if off >= bytes.len() {
        return None;
    }
    let tag = bytes[off];
    if tag == 0 {
        Some((None, off + 1))
    } else if tag == 1 && bytes.len() - off >= 33 {
        let value = Address::from_bytes(slice_subrange(bytes, off + 1, off + 33));
        Some((Some(value), off + 33))
    } else {
        None
    }
}

impl VoterWeightRecord {
    /// Read an attestation from the raw bytes of its account, exactly as the
    /// wire layout defines them; the result still awaits validation. Returns
    /// nothing when the bytes do not carry the expected layout.
    pub fn try_from(bytes: &[u8]) -> (r: Option<Unvalidated<VoterWeightRecord>>)
        ensures
            match r {
                Some(u) => spec_parse_voter_weight_record(bytes@) == Some(u.record()),
                None => spec_parse_voter_weight_record(bytes@) is None,
            },
    {
        if bytes.len() < 112 {
            return None;
        }
        if !discriminator_ok(bytes) {
            return None;
        }
        let realm = Address::from_bytes(slice_subrange(bytes, 8, 40));
        let governing_token_mint = Address::from_bytes(slice_subrange(bytes, 40, 72));
        let governing_token_owner = Address::from_bytes(slice_subrange(bytes, 72, 104));
        let voter_weight = u64_from_le_bytes(slice_subrange(bytes, 104, 112));
        let (voter_weight_expiry, off1) = match parse_opt_u64(bytes, 112) {
            Some(v) => v,
            None => {
                return None;
            },
        };
        let (weight_action, off2) = match parse_opt_action(bytes, off1) {
            Some(v) => v,
            None => {
                return None;
            },
        };
        let (weight_action_target, off3) = match parse_opt_address(bytes, off2) {
            Some(v) => v,
            None => {
                return None;
            },
        };
        if off3 > bytes.len() || bytes.len() - off3 < 8 {
            return None;
        }
        Some(
            Unvalidated::new(
                VoterWeightRecord {
                    realm,
                    governing_token_mint,
                    governing_token_owner,
                    voter_weight,
                    voter_weight_expiry,
                    weight_action,
                    weight_action_target,
                },
            ),
        )
    }
}

} // verus!
