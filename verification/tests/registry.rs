//! The fixed identities of the seed registry and the pool-seed formatter.

use std::str::FromStr;

use solana_program::pubkey::Pubkey;

use lending_client::consts::get_base_pda;
use lending_client::consts::get_pool_summaries_k;
use lending_client::consts::get_price_pda;
use lending_client::consts::get_price_summaries_k;
use lending_client::consts::pool_id_to_seed_str;
use lending_client::consts::program_id;
use lending_client::consts::BASE_PDA_BUMP;
use lending_client::consts::PRICE_PDA_BUMP;

#[test]
fn program_identity_matches_declared_id() {
    let expected = Pubkey::from_str("HidHf4DzeZj6F7BL37WP6YnTuhh4c4DTsdSTmiFaDtSf").unwrap();
    assert_eq!(program_id().to_bytes(), expected.to_bytes());
}

#[test]
fn base_pda_identity_matches_declared_id() {
    let expected = Pubkey::from_str("JBSGCV1hPY3CTfpqDQqB4TzwnL9Mjv9ahrSGkpvnxSiM").unwrap();
    assert_eq!(get_base_pda().to_bytes(), expected.to_bytes());
}

#[test]
fn price_pda_identity_matches_declared_id() {
    let expected = Pubkey::from_str("BPLk2Nd5B9pggzD6i6upRqPFptLBCjQSwfKHjjLjFYNp").unwrap();
    assert_eq!(get_price_pda().to_bytes(), expected.to_bytes());
}

#[test]
fn pool_summaries_identity_matches_declared_id() {
    let expected = Pubkey::from_str("vmw4aLng87nsu7adSGvjzsdrN8BixFnSwtfttXx7N6T").unwrap();
    assert_eq!(get_pool_summaries_k().to_bytes(), expected.to_bytes());
}

#[test]
fn price_summaries_identity_matches_declared_id() {
    let expected = Pubkey::from_str("G1cmF3D5PAEAjnwdMFbcGQbnBmWNH7t4hv8cpmfHzS2V").unwrap();
    assert_eq!(get_price_summaries_k().to_bytes(), expected.to_bytes());
}

#[test]
fn token_program_matches_declared_id() {
    let expected = Pubkey::from_str("TokenkegQfeZyiNwAJbNbGKPFXCWuBvf9Ss623VQ5DA").unwrap();
    assert_eq!(spl_token::ID.to_bytes(), expected.to_bytes());
}

#[test]
fn bump_tags_are_retained() {
    assert_eq!(BASE_PDA_BUMP, 255);
    assert_eq!(PRICE_PDA_BUMP, 254);
}

#[test]
fn pool_seed_concrete_values() {
    assert_eq!(pool_id_to_seed_str(0), b"POOL__aa".to_vec());
    assert_eq!(pool_id_to_seed_str(7), b"POOL__ah".to_vec());
    assert_eq!(pool_id_to_seed_str(16), b"POOL__ba".to_vec());
    assert_eq!(pool_id_to_seed_str(255), b"POOL__pp".to_vec());
}

#[test]
fn pool_seed_shape_over_full_domain() {
    for pool_id in 0..=255u8 {
        let seed = pool_id_to_seed_str(pool_id);
        assert_eq!(seed.len(), 8);
        assert_eq!(&seed[0..6], b"POOL__");
        assert!(seed[6] >= b'a' && seed[6] <= b'p');
        assert!(seed[7] >= b'a' && seed[7] <= b'p');
    }
}

#[test]
fn pool_seed_injective_over_full_domain() {
    let mut seen = std::collections::HashSet::new();
    for pool_id in 0..=255u8 {
        assert!(seen.insert(pool_id_to_seed_str(pool_id)));
    }
    assert_eq!(seen.len(), 256);
}
