use governance_rewards::addin::{Unvalidated, VoterWeightRecord};
use governance_rewards::address::Address;
use governance_rewards::claim::claim;
use governance_rewards::create_distribution::create_distribution;
use governance_rewards::distribution::Distribution;
use governance_rewards::error::GovernanceRewardsError;
use governance_rewards::escrow::get_escrow_address;
use governance_rewards::options::TokenAccountData;
use governance_rewards::preferences::{ResolutionPreference, UserPreferences};
use governance_rewards::register::register_for_rewards;

fn addr(n: u64) -> Address {
    Address { w0: n, w1: 0, w2: 0, w3: 0 }
}

const REALM: u64 = 3;
const DIST: u64 = 5;
const PROGRAM: u64 = 99;
const MINT: u64 = 11;

fn funded_distribution(amount: u64) -> Distribution {
    let authority = addr(2);
    create_distribution(
        10,
        None,
        addr(REALM),
        addr(4),
        addr(1),
        authority,
        &vec![TokenAccountData {
            address: addr(10),
            mint: addr(MINT),
            owner: authority,
            amount,
        }],
        5,
    )
    .unwrap()
}

fn register(dist: &mut Distribution, user: Address, weight: u64) -> governance_rewards::claim_data::ClaimData {
    let record = VoterWeightRecord::create_test(
        addr(REALM),
        addr(MINT),
        user,
        addr(DIST),
        weight,
        Some(u64::MAX),
    );
    register_for_rewards(dist, addr(DIST), Unvalidated::new(record), None, user, 5, 0).unwrap()
}

fn wallet_destination(user: Address) -> TokenAccountData {
    let payout = ResolutionPreference::Wallet
        .payout_address(user, addr(MINT), addr(REALM), addr(PROGRAM))
        .unwrap();
    TokenAccountData { address: payout, mint: addr(MINT), owner: user, amount: 0 }
}

#[test]
fn test_claim() {
    let mut dist = funded_distribution(100);
    let user = addr(50);
    let mut cd = register(&mut dist, user, 10);

    let to_account = wallet_destination(user);
    let amount = claim(
        &mut dist,
        addr(DIST),
        &mut cd,
        &to_account,
        None,
        user,
        addr(PROGRAM),
        11,
    )
    .unwrap();

    // The only registrant takes the whole option.
    assert_eq!(amount, 100);
    assert!(cd.has_claimed);
    assert_eq!(dist.total_vote_weight_claimed, 10);
}

#[test]
fn test_claim_early_err() {
    let mut dist = funded_distribution(100);
    let user = addr(50);
    let mut cd = register(&mut dist, user, 10);

    let to_account = wallet_destination(user);
    let r = claim(
        &mut dist,
        addr(DIST),
        &mut cd,
        &to_account,
        None,
        user,
        addr(PROGRAM),
        9,
    );
    assert_eq!(r, Err(GovernanceRewardsError::NotInClaimPeriod));
    assert!(!cd.has_claimed);
    assert_eq!(dist.total_vote_weight_claimed, 0);
}

#[test]
fn test_claim_twice_err() {
    let mut dist = funded_distribution(100);
    let user = addr(50);
    let mut cd = register(&mut dist, user, 10);

    let to_account = wallet_destination(user);
    claim(&mut dist, addr(DIST), &mut cd, &to_account, None, user, addr(PROGRAM), 11).unwrap();

    let claimed_before = dist.total_vote_weight_claimed;
    let r = claim(&mut dist, addr(DIST), &mut cd, &to_account, None, user, addr(PROGRAM), 11);
    assert_eq!(r, Err(GovernanceRewardsError::AlreadyClaimed));
    // The refused second claim moved nothing.
    assert_eq!(dist.total_vote_weight_claimed, claimed_before);
    assert!(cd.has_claimed);
}

#[test]
fn test_claim_proportional_split() {
    // One option funded with 100, registrants of weight 30 and 70: exactly
    // 30 and 70 come out, with no rounding loss.
    let mut dist = funded_distribution(100);
    let alice = addr(50);
    let bob = addr(51);
    let mut cd_alice = register(&mut dist, alice, 30);
    let mut cd_bob = register(&mut dist, bob, 70);

    let paid_alice = claim(
        &mut dist,
        addr(DIST),
        &mut cd_alice,
        &wallet_destination(alice),
        None,
        alice,
        addr(PROGRAM),
        11,
    )
    .unwrap();
    let paid_bob = claim(
        &mut dist,
        addr(DIST),
        &mut cd_bob,
        &wallet_destination(bob),
        None,
        bob,
        addr(PROGRAM),
        11,
    )
    .unwrap();

    assert_eq!(paid_alice, 30);
    assert_eq!(paid_bob, 70);
    assert_eq!(dist.total_vote_weight_claimed, 100);
    assert!(dist.fully_claimed(11));
}

#[test]
fn test_claim_rounding_dust() {
    // One option funded with 100, three registrants of weight 1: each claims
    // floor(100 / 3) = 33 and one unit of dust stays in the wallet.
    let mut dist = funded_distribution(100);
    let users = [addr(50), addr(51), addr(52)];
    let mut records: Vec<_> = users.iter().map(|u| register(&mut dist, *u, 1)).collect();

    let mut paid_total: u64 = 0;
    for (user, cd) in users.iter().zip(records.iter_mut()) {
        let paid = claim(
            &mut dist,
            addr(DIST),
            cd,
            &wallet_destination(*user),
            None,
            *user,
            addr(PROGRAM),
            11,
        )
        .unwrap();
        assert_eq!(paid, 33);
        paid_total += paid;
    }

    assert_eq!(paid_total, 99);
    assert!(dist.fully_claimed(11));
}

#[test]
fn test_claim_wrong_payout_account_err() {
    let mut dist = funded_distribution(100);
    let user = addr(50);
    let mut cd = register(&mut dist, user, 10);

    // Wrong destination address.
    let mut to_account = wallet_destination(user);
    to_account.address = addr(123);
    let r = claim(&mut dist, addr(DIST), &mut cd, &to_account, None, user, addr(PROGRAM), 11);
    assert_eq!(r, Err(GovernanceRewardsError::WrongPayoutAccount));

    // Right address, wrong owner.
    let mut to_account = wallet_destination(user);
    to_account.owner = addr(51);
    let r = claim(&mut dist, addr(DIST), &mut cd, &to_account, None, user, addr(PROGRAM), 11);
    assert_eq!(r, Err(GovernanceRewardsError::WrongPayoutAccount));

    // Right address, wrong mint.
    let mut to_account = wallet_destination(user);
    to_account.mint = addr(12);
    let r = claim(&mut dist, addr(DIST), &mut cd, &to_account, None, user, addr(PROGRAM), 11);
    assert_eq!(r, Err(GovernanceRewardsError::WrongPayoutAccount));

    assert!(!cd.has_claimed);
    assert_eq!(dist.total_vote_weight_claimed, 0);
}

#[test]
fn test_claim_from_escrow() {
    let mut dist = funded_distribution(100);
    let user = addr(50);
    let mut cd = register(&mut dist, user, 10);

    let release_admin = addr(60);
    let escrow = get_escrow_address(addr(REALM), release_admin, user, addr(MINT), addr(PROGRAM))
        .unwrap();
    let prefs = UserPreferences {
        preferred_mint: None,
        resolution_preference: ResolutionPreference::Escrow { admin: release_admin },
    };
    let to_account = TokenAccountData {
        address: escrow,
        mint: addr(MINT),
        owner: addr(61),
        amount: 0,
    };

    // A destination other than the derived escrow is refused.
    let wrong = TokenAccountData { address: addr(62), ..to_account };
    let r = claim(
        &mut dist,
        addr(DIST),
        &mut cd,
        &wrong,
        Some(prefs),
        user,
        addr(PROGRAM),
        11,
    );
    assert_eq!(r, Err(GovernanceRewardsError::WrongPayoutAccount));
    assert!(!cd.has_claimed);

    let amount = claim(
        &mut dist,
        addr(DIST),
        &mut cd,
        &to_account,
        Some(prefs),
        user,
        addr(PROGRAM),
        11,
    )
    .unwrap();
    assert_eq!(amount, 100);
    assert!(cd.has_claimed);
}

#[test]
fn test_payout_address_depends_on_inputs() {
    // The canonical wallet address is a real derivation: it differs from its
    // inputs and separates users and mints.
    let a = ResolutionPreference::Wallet
        .payout_address(addr(50), addr(MINT), addr(REALM), addr(PROGRAM))
        .unwrap();
    assert_ne!(a, addr(50));
    assert_ne!(a, addr(MINT));
    let b = ResolutionPreference::Wallet
        .payout_address(addr(51), addr(MINT), addr(REALM), addr(PROGRAM))
        .unwrap();
    assert_ne!(a, b);
    let c = ResolutionPreference::Wallet
        .payout_address(addr(50), addr(12), addr(REALM), addr(PROGRAM))
        .unwrap();
    assert_ne!(a, c);
    // And it is deterministic.
    let again = ResolutionPreference::Wallet
        .payout_address(addr(50), addr(MINT), addr(REALM), addr(PROGRAM))
        .unwrap();
    assert_eq!(a, again);
}

#[test]
fn test_escrow_addresses_are_scoped() {
    // Escrow accounts are scoped per (realm, release admin, user, mint).
    let base = get_escrow_address(addr(REALM), addr(60), addr(50), addr(MINT), addr(PROGRAM))
        .unwrap();
    let other_admin =
        get_escrow_address(addr(REALM), addr(61), addr(50), addr(MINT), addr(PROGRAM)).unwrap();
    assert_ne!(base, other_admin);
    let other_realm =
        get_escrow_address(addr(7), addr(60), addr(50), addr(MINT), addr(PROGRAM)).unwrap();
    assert_ne!(base, other_realm);
}

#[test]
fn test_release_destination_is_the_users_wallet() {
    let user = addr(50);
    let wallet = ResolutionPreference::Wallet
        .payout_address(user, addr(MINT), addr(REALM), addr(PROGRAM))
        .unwrap();
    assert!(governance_rewards::escrow::release_destination_ok(wallet, user, addr(MINT)));
    assert!(!governance_rewards::escrow::release_destination_ok(addr(62), user, addr(MINT)));
    assert!(!governance_rewards::escrow::release_destination_ok(wallet, addr(51), addr(MINT)));
}
