use mint_controller::{
    accept_if_fresh, ccip_mint, initialize, mint_initial_supply, reserve, update_admin,
    update_oracle_signers, Config, CustomError, Pubkey, INITIAL_MINT, MAX_SUPPLY,
};

fn key(b: u8) -> Pubkey {
    Pubkey::new([b; 32])
}

fn fresh_config() -> Config {
    initialize(key(1), key(2), 2, vec![key(10), key(11), key(12)]).unwrap()
}

#[test]
fn initialize_sets_all_fields() {
    let c = fresh_config();
    assert_eq!(c.admin, key(1));
    assert_eq!(c.mint, key(2));
    assert_eq!(c.quorum, 2);
    assert_eq!(c.total_minted, 0);
    assert_eq!(c.nonce, 0);
    assert_eq!(c.oracle_signers, vec![key(10), key(11), key(12)]);
}

#[test]
fn initialize_rejects_zero_quorum() {
    let r = initialize(key(1), key(2), 0, vec![key(10)]);
    assert_eq!(r.err(), Some(CustomError::InvalidQuorum));
}

#[test]
fn initialize_rejects_quorum_above_signer_count() {
    let r = initialize(key(1), key(2), 4, vec![key(10), key(11), key(12)]);
    assert_eq!(r.err(), Some(CustomError::InvalidQuorum));
}

#[test]
fn initialize_rejects_eleven_signers() {
    let signers: Vec<Pubkey> = (0..11).map(|i| key(i as u8)).collect();
    let r = initialize(key(1), key(2), 1, signers);
    assert_eq!(r.err(), Some(CustomError::TooManySigners));
}

#[test]
fn initialize_accepts_ten_signers_full_quorum() {
    let signers: Vec<Pubkey> = (0..10).map(|i| key(i as u8)).collect();
    let c = initialize(key(1), key(2), 10, signers).unwrap();
    assert_eq!(c.quorum, 10);
    assert_eq!(c.oracle_signers.len(), 10);
}

#[test]
fn initialize_tolerates_duplicate_signers() {
    let c = initialize(key(1), key(2), 2, vec![key(10), key(10), key(11)]).unwrap();
    assert_eq!(c.oracle_signers.len(), 3);
}

#[test]
fn replay_guard_accepts_only_strictly_greater() {
    let mut c = fresh_config();
    c.nonce = 5;
    assert!(accept_if_fresh(&c, 6).is_ok());
    // Gaps are permitted: nonces need not be sequential.
    assert!(accept_if_fresh(&c, 100).is_ok());
    assert_eq!(accept_if_fresh(&c, 5).err(), Some(CustomError::InvalidNonce));
    assert_eq!(accept_if_fresh(&c, 4).err(), Some(CustomError::InvalidNonce));
    assert_eq!(accept_if_fresh(&c, 0).err(), Some(CustomError::InvalidNonce));
}

#[test]
fn reserve_returns_exact_new_total() {
    let mut c = fresh_config();
    c.total_minted = 1_000;
    assert_eq!(reserve(&c, 234).unwrap(), 1_234);
}

#[test]
fn reserve_accepts_exactly_max_supply() {
    let c = fresh_config();
    assert_eq!(reserve(&c, MAX_SUPPLY).unwrap(), MAX_SUPPLY);
}

#[test]
fn reserve_rejects_one_past_max_supply() {
    let mut c = fresh_config();
    c.total_minted = 1;
    assert_eq!(reserve(&c, MAX_SUPPLY).err(), Some(CustomError::ExceedsMaxSupply));
}

#[test]
fn reserve_detects_overflow() {
    let mut c = fresh_config();
    c.total_minted = 1_000;
    assert_eq!(reserve(&c, u64::MAX).err(), Some(CustomError::Overflow));
}

#[test]
fn initial_mint_requires_admin() {
    let mut c = fresh_config();
    let r = mint_initial_supply(&mut c, &key(99));
    assert_eq!(r.err(), Some(CustomError::Unauthorized));
    assert_eq!(c.total_minted, 0);
}

#[test]
fn initial_mint_happens_once() {
    let mut c = fresh_config();
    mint_initial_supply(&mut c, &key(1)).unwrap();
    assert_eq!(c.total_minted, INITIAL_MINT);
    let again = mint_initial_supply(&mut c, &key(1));
    assert_eq!(again.err(), Some(CustomError::InitialMintAlreadyDone));
    assert_eq!(c.total_minted, INITIAL_MINT);
}

#[test]
fn ccip_mint_commits_exact_total() {
    let mut c = fresh_config();
    ccip_mint(&mut c, 500).unwrap();
    ccip_mint(&mut c, 700).unwrap();
    assert_eq!(c.total_minted, 1_200);
}

#[test]
fn ccip_mint_enforces_cap_and_leaves_state() {
    let mut c = fresh_config();
    ccip_mint(&mut c, 500).unwrap();
    let r = ccip_mint(&mut c, MAX_SUPPLY);
    assert_eq!(r.err(), Some(CustomError::ExceedsMaxSupply));
    assert_eq!(c.total_minted, 500);
    let r2 = ccip_mint(&mut c, u64::MAX);
    assert_eq!(r2.err(), Some(CustomError::Overflow));
    assert_eq!(c.total_minted, 500);
}

#[test]
fn ccip_mint_fills_to_cap_after_initial_seed() {
    let mut c = fresh_config();
    mint_initial_supply(&mut c, &key(1)).unwrap();
    ccip_mint(&mut c, MAX_SUPPLY - INITIAL_MINT).unwrap();
    assert_eq!(c.total_minted, MAX_SUPPLY);
    assert_eq!(ccip_mint(&mut c, 1).err(), Some(CustomError::ExceedsMaxSupply));
    assert_eq!(c.total_minted, MAX_SUPPLY);
}

#[test]
fn update_signers_requires_admin() {
    let mut c = fresh_config();
    let r = update_oracle_signers(&mut c, &key(99), vec![key(20)], 1);
    assert_eq!(r.err(), Some(CustomError::Unauthorized));
    assert_eq!(c.oracle_signers, vec![key(10), key(11), key(12)]);
    assert_eq!(c.quorum, 2);
}

#[test]
fn update_signers_validates_like_initialize() {
    let mut c = fresh_config();
    let r = update_oracle_signers(&mut c, &key(1), vec![key(20)], 0);
    assert_eq!(r.err(), Some(CustomError::InvalidQuorum));
    let r2 = update_oracle_signers(&mut c, &key(1), vec![key(20)], 2);
    assert_eq!(r2.err(), Some(CustomError::InvalidQuorum));
    let eleven: Vec<Pubkey> = (0..11).map(|i| key(i as u8)).collect();
    let r3 = update_oracle_signers(&mut c, &key(1), eleven, 3);
    assert_eq!(r3.err(), Some(CustomError::TooManySigners));
    assert_eq!(c.oracle_signers, vec![key(10), key(11), key(12)]);
}

#[test]
fn update_signers_replaces_whole_set() {
    let mut c = fresh_config();
    update_oracle_signers(&mut c, &key(1), vec![key(20), key(21)], 1).unwrap();
    assert_eq!(c.oracle_signers, vec![key(20), key(21)]);
    assert_eq!(c.quorum, 1);
    // The rest of the registry is untouched.
    assert_eq!(c.admin, key(1));
    assert_eq!(c.total_minted, 0);
    assert_eq!(c.nonce, 0);
}

#[test]
fn update_admin_hands_over_control() {
    let mut c = fresh_config();
    let r = update_admin(&mut c, &key(99), key(50));
    assert_eq!(r.err(), Some(CustomError::Unauthorized));
    assert_eq!(c.admin, key(1));
    update_admin(&mut c, &key(1), key(50)).unwrap();
    assert_eq!(c.admin, key(50));
    // The old administrator is now locked out.
    let r2 = update_admin(&mut c, &key(1), key(1));
    assert_eq!(r2.err(), Some(CustomError::Unauthorized));
    // The successor is in control.
    update_admin(&mut c, &key(50), key(1)).unwrap();
    assert_eq!(c.admin, key(1));
}

#[test]
fn describe_names_every_error() {
    assert_eq!(CustomError::QuorumNotReached.describe(), "Quorum not reached");
    assert_eq!(CustomError::Overflow.describe(), "Arithmetic overflow");
    assert_eq!(
        CustomError::InvalidNonce.describe(),
        "Invalid nonce (must be greater than current)"
    );
}
