//! The address deriver against the engine's reference implementation.

use std::str::FromStr;

use solana_program::pubkey::Pubkey;

use lending_client::consts::get_asset_pool_k;
use lending_client::consts::get_asset_pool_spl_k;
use lending_client::consts::get_user_info_k;
use lending_client::consts::get_user_pages_stats_k;
use lending_client::consts::get_users_page_k;
use lending_client::consts::pool_id_to_seed_str;
use lending_client::consts::program_id;
use lending_client::derivation::derive_identity;
use lending_client::derivation::DeriveError;
use lending_client::identity::Identity;

fn token_program() -> Identity {
    Identity::new(spl_token::ID.to_bytes())
}

fn reference_derive(base: &Identity, seed: &str, namespace: &Identity) -> Identity {
    let b = Pubkey::new_from_array(base.to_bytes());
    let n = Pubkey::new_from_array(namespace.to_bytes());
    Identity::new(Pubkey::create_with_seed(&b, seed, &n).unwrap().to_bytes())
}

#[test]
fn derive_matches_reference_engine() {
    let base = Identity::new([3u8; 32]);
    let ns = Identity::new([9u8; 32]);
    let seed: Vec<u8> = b"hello".to_vec();
    let derived = derive_identity(&base, &seed, &ns).unwrap();
    assert_eq!(derived, reference_derive(&base, "hello", &ns));
}

#[test]
fn derive_is_deterministic() {
    let base = Identity::new([5u8; 32]);
    let ns = Identity::new([6u8; 32]);
    let seed: Vec<u8> = b"UserInfo".to_vec();
    let first = derive_identity(&base, &seed, &ns).unwrap();
    let second = derive_identity(&base, &seed, &ns).unwrap();
    assert_eq!(first.to_bytes(), second.to_bytes());
}

#[test]
fn distinct_seeds_derive_distinct_identities() {
    let base = Identity::new([5u8; 32]);
    let ns = program_id();
    let seeds: Vec<Vec<u8>> = vec![
        b"UserInfo".to_vec(),
        b"UserPagesStats".to_vec(),
        b"POOL__aa".to_vec(),
        b"POOL__ab".to_vec(),
        b"UsersPage_0".to_vec(),
        b"UsersPage_1".to_vec(),
    ];
    let mut seen = std::collections::HashSet::new();
    for seed in &seeds {
        let derived = derive_identity(&base, seed, &ns).unwrap();
        assert!(seen.insert(derived.to_bytes()));
    }
    assert_eq!(seen.len(), seeds.len());
}

#[test]
fn distinct_pools_derive_distinct_pool_identities() {
    let mut seen = std::collections::HashSet::new();
    for pool_id in 0..=255u8 {
        assert!(seen.insert(get_asset_pool_k(pool_id).to_bytes()));
    }
    assert_eq!(seen.len(), 256);
}

#[test]
fn too_long_seed_is_rejected() {
    let base = Identity::new([1u8; 32]);
    let ns = Identity::new([2u8; 32]);
    let seed: Vec<u8> = vec![b'a'; 33];
    assert_eq!(derive_identity(&base, &seed, &ns), Err(DeriveError::SeedTooLong));
    let b = Pubkey::new_from_array(base.to_bytes());
    let n = Pubkey::new_from_array(ns.to_bytes());
    let long = String::from_utf8(seed).unwrap();
    assert!(Pubkey::create_with_seed(&b, &long, &n).is_err());
}

#[test]
fn marked_owner_is_rejected() {
    let base = Identity::new([1u8; 32]);
    let mut owner_bytes = [0u8; 32];
    owner_bytes[11..32].copy_from_slice(b"ProgramDerivedAddress");
    let ns = Identity::new(owner_bytes);
    let seed: Vec<u8> = b"abc".to_vec();
    assert_eq!(derive_identity(&base, &seed, &ns), Err(DeriveError::IllegalOwner));
    let b = Pubkey::new_from_array(base.to_bytes());
    let n = Pubkey::new_from_array(owner_bytes);
    assert!(Pubkey::create_with_seed(&b, "abc", &n).is_err());
}

#[test]
fn user_info_identity_matches_reference() {
    let wallet = Identity::new(
        Pubkey::from_str("HidHf4DzeZj6F7BL37WP6YnTuhh4c4DTsdSTmiFaDtSf").unwrap().to_bytes(),
    );
    assert_eq!(
        get_user_info_k(&wallet),
        reference_derive(&wallet, "UserInfo", &program_id())
    );
}

#[test]
fn user_pages_stats_identity_matches_reference() {
    let base = lending_client::consts::get_base_pda();
    assert_eq!(
        get_user_pages_stats_k(),
        reference_derive(&base, "UserPagesStats", &program_id())
    );
}

#[test]
fn users_page_identity_matches_reference() {
    let base = lending_client::consts::get_base_pda();
    for page_id in [0usize, 1, 9, 10, 42, 12345, usize::MAX] {
        let seed = format!("UsersPage_{}", page_id);
        assert_eq!(
            get_users_page_k(page_id),
            reference_derive(&base, &seed, &program_id())
        );
    }
}

#[test]
fn asset_pool_identity_matches_reference() {
    let base = lending_client::consts::get_base_pda();
    for pool_id in [0u8, 7, 16, 255] {
        let seed_bytes = pool_id_to_seed_str(pool_id);
        let seed = String::from_utf8(seed_bytes).unwrap();
        assert_eq!(
            get_asset_pool_k(pool_id),
            reference_derive(&base, &seed, &program_id())
        );
    }
}

#[test]
fn asset_pool_spl_identity_matches_reference() {
    let base = lending_client::consts::get_base_pda();
    let token_program = token_program();
    for pool_id in [0u8, 7, 255] {
        let seed_bytes = pool_id_to_seed_str(pool_id);
        let seed = String::from_utf8(seed_bytes).unwrap();
        assert_eq!(
            get_asset_pool_spl_k(&token_program, pool_id),
            reference_derive(&base, &seed, &token_program)
        );
    }
}
