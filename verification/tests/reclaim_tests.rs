use governance_rewards::addin::{Unvalidated, VoterWeightRecord};
use governance_rewards::address::Address;
use governance_rewards::claim::claim;
use governance_rewards::claim_data::ClaimData;
use governance_rewards::create_distribution::create_distribution;
use governance_rewards::distribution::Distribution;
use governance_rewards::error::GovernanceRewardsError;
use governance_rewards::options::TokenAccountData;
use governance_rewards::preferences::{ResolutionPreference, UserPreferences};
use governance_rewards::reclaim::{reclaim_funds, reclaim_user_data};
use governance_rewards::register::register_for_rewards;

fn addr(n: u64) -> Address {
    Address { w0: n, w1: 0, w2: 0, w3: 0 }
}

const REALM: u64 = 3;
const DIST: u64 = 5;
const ADMIN: u64 = 1;
const PROGRAM: u64 = 99;

fn two_option_distribution() -> Distribution {
    let authority = addr(2);
    create_distribution(
        10,
        None,
        addr(REALM),
        addr(4),
        addr(ADMIN),
        authority,
        &vec![
            TokenAccountData { address: addr(10), mint: addr(11), owner: authority, amount: 100 },
            TokenAccountData { address: addr(20), mint: addr(21), owner: authority, amount: 150 },
        ],
        5,
    )
    .unwrap()
}

fn register(dist: &mut Distribution, user: Address, weight: u64, mint: u64) -> ClaimData {
    let record = VoterWeightRecord::create_test(
        addr(REALM),
        addr(mint),
        user,
        addr(DIST),
        weight,
        Some(u64::MAX),
    );
    let prefs = UserPreferences {
        preferred_mint: Some(addr(mint)),
        resolution_preference: ResolutionPreference::Wallet,
    };
    register_for_rewards(dist, addr(DIST), Unvalidated::new(record), Some(prefs), user, 5, 0)
        .unwrap()
}

#[test]
fn test_reclaim() {
    // Option funded with 100 carries 30 of 100 total weight: the first stage
    // attributes floor(100 * 30 / 100) = 30, so 70 are reclaimable.
    let mut dist = two_option_distribution();
    register(&mut dist, addr(50), 30, 11);
    register(&mut dist, addr(51), 70, 21);

    let amount = reclaim_funds(&mut dist, addr(10), addr(ADMIN), 11).unwrap();
    assert_eq!(amount, 70);
    assert!(dist.distribution_options.slots[0].unwrap().extra_reclaimed);
    assert!(!dist.distribution_options.slots[1].unwrap().extra_reclaimed);
}

#[test]
fn test_reclaim_twice_err() {
    let mut dist = two_option_distribution();
    register(&mut dist, addr(50), 30, 11);

    reclaim_funds(&mut dist, addr(10), addr(ADMIN), 11).unwrap();
    let before = dist.clone();
    let r = reclaim_funds(&mut dist, addr(10), addr(ADMIN), 11);
    assert_eq!(r, Err(GovernanceRewardsError::AlreadyReclaimed));
    assert_eq!(dist, before);
}

#[test]
fn test_reclaim_early_err() {
    let mut dist = two_option_distribution();
    register(&mut dist, addr(50), 30, 11);

    let r = reclaim_funds(&mut dist, addr(10), addr(ADMIN), 9);
    assert_eq!(r, Err(GovernanceRewardsError::CannotReclaimFundsYet));
    assert!(!dist.distribution_options.slots[0].unwrap().extra_reclaimed);
}

#[test]
fn test_reclaim_admin_only_err() {
    let mut dist = two_option_distribution();
    register(&mut dist, addr(50), 30, 11);

    let r = reclaim_funds(&mut dist, addr(10), addr(66), 11);
    assert_eq!(r, Err(GovernanceRewardsError::AdminOnly));
}

#[test]
fn test_reclaim_no_matching_option_err() {
    let mut dist = two_option_distribution();
    register(&mut dist, addr(50), 30, 11);

    let r = reclaim_funds(&mut dist, addr(77), addr(ADMIN), 11);
    assert_eq!(r, Err(GovernanceRewardsError::NoMatchingOption));
}

#[test]
fn test_reclaim_unregistered_pool_err() {
    // With no registered weight the proportional formula has no denominator;
    // the reclaim aborts rather than moving a made-up amount.
    let mut dist = two_option_distribution();
    let r = reclaim_funds(&mut dist, addr(10), addr(ADMIN), 11);
    assert_eq!(r, Err(GovernanceRewardsError::Arithmetic));
}

#[test]
fn test_reclaim_after_full_claim_finds_no_dust() {
    // Pool funded with 100, one option, three registrants of weight 1: each
    // claims 33. The one leftover unit is second-stage dust; the first stage
    // attributed everything, so the reclaimable remainder is 0 — whether the
    // reclaim runs before or after the claims.
    let authority = addr(2);
    let mut dist = create_distribution(
        10,
        None,
        addr(REALM),
        addr(4),
        addr(ADMIN),
        authority,
        &vec![TokenAccountData { address: addr(10), mint: addr(11), owner: authority, amount: 100 }],
        5,
    )
    .unwrap();
    let users = [addr(50), addr(51), addr(52)];
    let mut records: Vec<ClaimData> =
        users.iter().map(|u| register(&mut dist, *u, 1, 11)).collect();

    // Reclaim before any claim: floor(100 * 3 / 3) = 100 attributed, 0 left.
    let amount = reclaim_funds(&mut dist, addr(10), addr(ADMIN), 11).unwrap();
    assert_eq!(amount, 0);

    for (user, cd) in users.iter().zip(records.iter_mut()) {
        let payout = ResolutionPreference::Wallet
            .payout_address(*user, addr(11), addr(REALM), addr(PROGRAM))
            .unwrap();
        let to_account =
            TokenAccountData { address: payout, mint: addr(11), owner: *user, amount: 0 };
        let paid =
            claim(&mut dist, addr(DIST), cd, &to_account, None, *user, addr(PROGRAM), 11).unwrap();
        assert_eq!(paid, 33);
    }
    assert!(dist.fully_claimed(11));

    // After full claim the one-shot flag, not the phase, blocks a re-run.
    let r = reclaim_funds(&mut dist, addr(10), addr(ADMIN), 11);
    assert_eq!(r, Err(GovernanceRewardsError::AlreadyReclaimed));
}

#[test]
fn test_reclaim_user_data_flow() {
    let mut dist = two_option_distribution();
    let user = addr(50);
    let mut cd = register(&mut dist, user, 30, 11);

    // Not fully claimed yet.
    let r = reclaim_user_data(&dist, addr(DIST), &cd, user, 11);
    assert_eq!(r, Err(GovernanceRewardsError::CannotCleanUpYet));

    let payout = ResolutionPreference::Wallet
        .payout_address(user, addr(11), addr(REALM), addr(PROGRAM))
        .unwrap();
    let to_account = TokenAccountData { address: payout, mint: addr(11), owner: user, amount: 0 };
    claim(&mut dist, addr(DIST), &mut cd, &to_account, None, user, addr(PROGRAM), 11).unwrap();
    assert!(dist.fully_claimed(11));

    // Wrong distribution handle.
    let r = reclaim_user_data(&dist, addr(66), &cd, user, 11);
    assert_eq!(r, Err(GovernanceRewardsError::WrongDistributionForClaim));

    // Only the registrant may release the record.
    let r = reclaim_user_data(&dist, addr(DIST), &cd, addr(51), 11);
    assert_eq!(r, Err(GovernanceRewardsError::CannotCleanUpAfterOtherUser));

    let r = reclaim_user_data(&dist, addr(DIST), &cd, user, 11);
    assert!(r.is_ok());
}
