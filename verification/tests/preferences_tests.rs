use governance_rewards::addin::{Unvalidated, VoterWeightRecord};
use governance_rewards::address::Address;
use governance_rewards::claim_data::ClaimData;
use governance_rewards::create_distribution::create_distribution;
use governance_rewards::distribution::Distribution;
use governance_rewards::options::TokenAccountData;
use governance_rewards::preferences::{
    set_preferred_mint, set_resolution_preference, ResolutionPreference, UserPreferences,
};
use governance_rewards::register::register_for_rewards;

fn addr(n: u64) -> Address {
    Address { w0: n, w1: 0, w2: 0, w3: 0 }
}

#[test]
fn test_get_or_default() {
    let stored = UserPreferences {
        preferred_mint: Some(addr(11)),
        resolution_preference: ResolutionPreference::Escrow { admin: addr(60) },
    };
    assert_eq!(UserPreferences::get_or_default(Some(stored)), stored);

    let defaults = UserPreferences::get_or_default(None);
    assert_eq!(defaults.preferred_mint, None);
    assert_eq!(defaults.resolution_preference, ResolutionPreference::Wallet);
    assert_eq!(defaults, UserPreferences::default());
    assert_eq!(ResolutionPreference::default(), ResolutionPreference::Wallet);
}

#[test]
fn test_set_preferred_mint() {
    let mut prefs = UserPreferences::default();
    set_preferred_mint(&mut prefs, Some(addr(11)));
    assert_eq!(prefs.preferred_mint, Some(addr(11)));
    assert_eq!(prefs.resolution_preference, ResolutionPreference::Wallet);
    set_preferred_mint(&mut prefs, None);
    assert_eq!(prefs.preferred_mint, None);
}

#[test]
fn test_set_resolution_preference() {
    let mut prefs = UserPreferences {
        preferred_mint: Some(addr(11)),
        resolution_preference: ResolutionPreference::Wallet,
    };
    set_resolution_preference(
        &mut prefs,
        ResolutionPreference::Escrow { admin: addr(60) },
    );
    assert_eq!(
        prefs.resolution_preference,
        ResolutionPreference::Escrow { admin: addr(60) }
    );
    assert_eq!(prefs.preferred_mint, Some(addr(11)));
}

#[test]
fn test_record_addresses_are_derived() {
    let user = addr(50);
    let realm = addr(3);
    let dist = addr(5);
    let program = addr(99);

    let prefs_address = UserPreferences::get_address(user, realm, program).unwrap();
    assert_ne!(prefs_address, user);
    assert_ne!(prefs_address, realm);

    let cd_address = ClaimData::get_address(user, dist, program).unwrap();
    assert_ne!(cd_address, user);
    assert_ne!(cd_address, prefs_address);

    let other_user = ClaimData::get_address(addr(51), dist, program).unwrap();
    assert_ne!(cd_address, other_user);
    assert_eq!(cd_address, ClaimData::get_address(user, dist, program).unwrap());

    let owner = governance_rewards::escrow::get_escrow_owner(realm, program).unwrap();
    assert_ne!(owner, realm);
    assert_eq!(owner, governance_rewards::escrow::get_escrow_owner(realm, program).unwrap());
}

#[test]
fn test_address_bytes_round_trip() {
    let a = Address { w0: 1, w1: 2, w2: u64::MAX, w3: 4 };
    let bytes = a.to_bytes();
    assert_eq!(bytes.len(), 32);
    assert_eq!(Address::from_bytes(bytes.as_slice()), a);
}

#[test]
fn test_validate_passes_only_matching_records() {
    let authority = addr(2);
    let dist: Distribution = create_distribution(
        10,
        None,
        addr(3),
        addr(4),
        addr(1),
        authority,
        &vec![TokenAccountData { address: addr(10), mint: addr(11), owner: authority, amount: 100 }],
        5,
    )
    .unwrap();

    let record = VoterWeightRecord::create_test(addr(3), addr(11), addr(50), addr(5), 10, None);
    let validated = Unvalidated::new(record).validate(&dist, addr(5), addr(50), 0).unwrap();
    assert_eq!(validated.voter_weight, 10);

    // A record with no expiry never goes stale.
    assert!(record.is_not_expired(u64::MAX));
    assert!(record.is_still_valid(u64::MAX));
    let mut expiring = record;
    expiring.voter_weight_expiry = Some(7);
    assert!(expiring.is_not_expired(7));
    assert!(!expiring.is_not_expired(8));
}

#[test]
fn test_weight_invariant_holds_across_operations() {
    // The pool total always equals the sum of the options' weights.
    let authority = addr(2);
    let mut dist = create_distribution(
        10,
        None,
        addr(3),
        addr(4),
        addr(1),
        authority,
        &vec![
            TokenAccountData { address: addr(10), mint: addr(11), owner: authority, amount: 100 },
            TokenAccountData { address: addr(20), mint: addr(21), owner: authority, amount: 150 },
        ],
        5,
    )
    .unwrap();

    let sum_options = |d: &Distribution| -> u64 {
        d.distribution_options
            .slots
            .iter()
            .map(|s| s.map(|o| o.total_vote_weight).unwrap_or(0))
            .sum()
    };
    assert_eq!(sum_options(&dist), dist.total_vote_weight);

    for (i, weight) in [(50u64, 10u64), (51, 20), (52, 30)] {
        let user = addr(i);
        let record =
            VoterWeightRecord::create_test(addr(3), addr(11), user, addr(5), weight, None);
        register_for_rewards(&mut dist, addr(5), Unvalidated::new(record), None, user, 5, 0)
            .unwrap();
        assert_eq!(sum_options(&dist), dist.total_vote_weight);
        assert!(dist.total_vote_weight_claimed <= dist.total_vote_weight);
    }
    assert_eq!(dist.total_vote_weight, 60);
}
