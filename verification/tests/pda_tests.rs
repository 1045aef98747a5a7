use std::str::FromStr;

use anchor_lang::prelude::Pubkey;
use cpi_example::addr::Address;
use cpi_example::known;
use cpi_example::pda::{
    derive_associated_token, derive_lock_escrow, derive_mint_metadata, derive_pool_with_config,
    derive_vault,
};

fn addr(n: u8) -> Address {
    Address::new([n; 32])
}

#[test]
fn known_ids_match_their_base58_form() {
    let cases: [(Address, &str); 8] = [
        (known::token_program_id(), "TokenkegQfeZyiNwAJbNbGKPFXCWuBvf9Ss623VQ5DA"),
        (known::associated_token_program_id(), "ATokenGPvbdGVxr1b2hvZbsiqW5xWH25efTNsLJA8knL"),
        (known::system_program_id(), "11111111111111111111111111111111"),
        (known::rent_sysvar_id(), "SysvarRent111111111111111111111111111111111"),
        (known::metadata_program_id(), "metaqbxxUerdq28cj1RbAWkYQm3ybzjb6a8bt518x1s"),
        (known::dynamic_amm_program_id(), "Eo7WjKq67rjJQSZxS6z3YkapzY3eMj6Xy8X5EQVn5UaB"),
        (known::dynamic_vault_program_id(), "24Uqj9JCLxUeoC3hGfh5W3s9FM9uCHDS2SG3LYwBpyTi"),
        (known::self_program_id(), "4JTNRRQpgLusbEhGnzTuE9kgPgMLXQX1wqBzU52GduqH"),
    ];
    for (ours, base58) in cases.iter() {
        let expected = Pubkey::from_str(base58).unwrap();
        assert_eq!(ours.bytes, expected.to_bytes());
    }
}

#[test]
fn lock_escrow_matches_direct_derivation() {
    let pool = addr(7);
    let user = addr(9);
    let (escrow, bump) = derive_lock_escrow(&pool, &user).unwrap();
    let amm = Pubkey::new_from_array(known::dynamic_amm_program_id().bytes);
    let (expected, expected_bump) =
        Pubkey::find_program_address(&[b"lock_escrow", &pool.bytes, &user.bytes], &amm);
    assert_eq!(escrow.bytes, expected.to_bytes());
    assert_eq!(bump, expected_bump);
}

#[test]
fn associated_token_matches_spl_derivation() {
    let wallet = addr(11);
    let mint = addr(13);
    let (vault, _) = derive_associated_token(&wallet, &mint).unwrap();
    let expected = anchor_spl::associated_token::get_associated_token_address(
        &Pubkey::new_from_array(wallet.bytes),
        &Pubkey::new_from_array(mint.bytes),
    );
    assert_eq!(vault.bytes, expected.to_bytes());
}

#[test]
fn pool_with_config_matches_direct_derivation() {
    let mint_a = addr(21);
    let mint_b = addr(22);
    let config = addr(23);
    let (pool, bump) = derive_pool_with_config(&mint_a, &mint_b, &config).unwrap();
    // The later mint in byte order seeds first, then the earlier, then the
    // configuration account.
    let (first, second) = if mint_a.bytes > mint_b.bytes {
        (mint_a.bytes, mint_b.bytes)
    } else {
        (mint_b.bytes, mint_a.bytes)
    };
    let amm = Pubkey::new_from_array(known::dynamic_amm_program_id().bytes);
    let (expected, expected_bump) =
        Pubkey::find_program_address(&[&first, &second, &config.bytes], &amm);
    assert_eq!(pool.bytes, expected.to_bytes());
    assert_eq!(bump, expected_bump);
    // The derivation is symmetric in the two mints.
    let (pool_swapped, _) = derive_pool_with_config(&mint_b, &mint_a, &config).unwrap();
    assert_eq!(pool.bytes, pool_swapped.bytes);
}

#[test]
fn vault_matches_direct_derivation() {
    let mint = addr(31);
    let base = addr(32);
    let (vault, bump) = derive_vault(&mint, &base).unwrap();
    let vault_program = Pubkey::new_from_array(known::dynamic_vault_program_id().bytes);
    let (expected, expected_bump) =
        Pubkey::find_program_address(&[b"vault", &mint.bytes, &base.bytes], &vault_program);
    assert_eq!(vault.bytes, expected.to_bytes());
    assert_eq!(bump, expected_bump);
}

#[test]
fn mint_metadata_matches_direct_derivation() {
    let mint = addr(41);
    let (metadata, bump) = derive_mint_metadata(&mint).unwrap();
    let metadata_program = Pubkey::new_from_array(known::metadata_program_id().bytes);
    let (expected, expected_bump) = Pubkey::find_program_address(
        &[b"metadata", &metadata_program.to_bytes(), &mint.bytes],
        &metadata_program,
    );
    assert_eq!(metadata.bytes, expected.to_bytes());
    assert_eq!(bump, expected_bump);
}

#[test]
fn derivation_is_deterministic_across_calls() {
    let pool = addr(51);
    let user = addr(52);
    let (escrow_first, bump_first) = derive_lock_escrow(&pool, &user).unwrap();
    let (escrow_second, bump_second) = derive_lock_escrow(&pool, &user).unwrap();
    assert_eq!(escrow_first.bytes, escrow_second.bytes);
    assert_eq!(bump_first, bump_second);
}

#[test]
fn distinct_seed_tuples_give_distinct_addresses() {
    let pool = addr(61);
    let other_pool = addr(62);
    let user = addr(63);
    let other_user = addr(64);
    let (escrow, _) = derive_lock_escrow(&pool, &user).unwrap();
    let (other_beneficiary, _) = derive_lock_escrow(&pool, &other_user).unwrap();
    let (other, _) = derive_lock_escrow(&other_pool, &user).unwrap();
    assert_ne!(escrow.bytes, other_beneficiary.bytes);
    assert_ne!(escrow.bytes, other.bytes);
    assert_ne!(other_beneficiary.bytes, other.bytes);
}
