//! The error taxonomy of the reward ledger. Timing errors mean an operation
//! was attempted outside its valid phase; validation errors mean attested or
//! supplied data failed a precondition; state errors mean an operation would
//! violate a one-shot or ownership invariant; authorization errors mean the
//! caller or destination failed an authority check; `Arithmetic` means a
//! checked computation would overflow or divide by zero.

use vstd::prelude::*;

verus! {

#[derive(Clone, Copy, PartialEq, Eq, Structural, Debug)]
pub enum GovernanceRewardsError {
    /// The attestation record is no longer valid.
    OutdatedVoteWeightRecord,
    /// The attestation record carries the wrong kind of action.
    WrongAction,
    /// The attestation record targets a different distribution.
    WrongActionTarget,
    /// The attestation record belongs to a different realm.
    WrongRealm,
    /// Registration was attempted at or after the registration deadline.
    RegistrationOver,
    /// The attested voting weight is zero.
    NoVoteWeight,
    /// The option table has no occupied slot.
    NoDistributionOptions,
    /// The attestation record names a different token owner than the registrant.
    WrongRegistrant,
    /// A claim record already exists for this distribution and user.
    AlreadyRegistered,
    /// A funding account is not owned by the distribution's payout authority.
    TokenAccountNotOwned,
    /// More funding accounts were supplied than the option table can hold.
    TooManyOptions,
    /// The registration deadline would lie in the past.
    RegistrationCutoffInPast,
    /// A claim was attempted outside the claim period.
    NotInClaimPeriod,
    /// The user has already claimed.
    AlreadyClaimed,
    /// The payout destination is not the canonical account for this user.
    WrongPayoutAccount,
    /// The claim record belongs to a different distribution.
    WrongDistributionForClaim,
    /// Per-user records cannot be cleaned up until the pool is fully claimed.
    CannotCleanUpYet,
    /// Only the record's own registrant may release its storage.
    CannotCleanUpAfterOtherUser,
    /// Only the distribution admin may take this action.
    AdminOnly,
    /// No distribution option is backed by the supplied wallet.
    NoMatchingOption,
    /// Unused funds cannot be reclaimed until the registration period is over.
    CannotReclaimFundsYet,
    /// The option's unused remainder has already been reclaimed.
    AlreadyReclaimed,
    /// A checked computation would overflow or divide by zero.
    Arithmetic,
}

} // verus!
