use cpi_example::accounts::InitializePoolCtx;
use cpi_example::addr::Address;
use cpi_example::cpi::CpiError;
use cpi_example::flow::{dynamic_amm_swap, init_pool};
use cpi_example::known;
use cpi_example::schema::{AccountRef, SchemaError};

fn addr(n: u8) -> Address {
    Address::new([n; 32])
}

fn writable(n: u8) -> AccountRef {
    AccountRef::new(addr(n), true, false)
}

fn readonly(n: u8) -> AccountRef {
    AccountRef::new(addr(n), false, false)
}

fn program(key: Address) -> AccountRef {
    AccountRef::new(key, false, false)
}

/// A 27-account list matching the pool-bootstrap schema.
fn valid_init_refs() -> Vec<AccountRef> {
    vec![
        writable(1),                                    // pool
        readonly(2),                                    // config
        writable(3),                                    // lp_mint
        readonly(4),                                    // token_a_mint
        readonly(5),                                    // token_b_mint
        writable(6),                                    // a_vault
        writable(7),                                    // b_vault
        writable(8),                                    // a_token_vault
        writable(9),                                    // b_token_vault
        writable(10),                                   // a_vault_lp_mint
        writable(11),                                   // b_vault_lp_mint
        writable(12),                                   // a_vault_lp
        writable(13),                                   // b_vault_lp
        writable(14),                                   // payer_token_a
        writable(15),                                   // payer_token_b
        writable(16),                                   // payer_pool_lp
        writable(17),                                   // protocol_token_a_fee
        writable(18),                                   // protocol_token_b_fee
        AccountRef::new(addr(19), true, true),          // payer
        program(known::rent_sysvar_id()),               // rent
        writable(20),                                   // mint_metadata
        program(known::metadata_program_id()),          // metadata_program
        program(known::dynamic_vault_program_id()),     // vault_program
        program(known::token_program_id()),             // token_program
        program(known::associated_token_program_id()),  // associated_token_program
        program(known::system_program_id()),            // system_program
        program(known::dynamic_amm_program_id()),       // dynamic_amm_program
    ]
}

/// A 16-account list matching the swap schema.
fn valid_swap_refs() -> Vec<AccountRef> {
    vec![
        writable(1),                                 // pool
        writable(2),                                 // user_source_token
        writable(3),                                 // user_destination_token
        writable(4),                                 // a_vault
        writable(5),                                 // b_vault
        writable(6),                                 // a_token_vault
        writable(7),                                 // b_token_vault
        writable(8),                                 // a_vault_lp_mint
        writable(9),                                 // b_vault_lp_mint
        writable(10),                                // a_vault_lp
        writable(11),                                // b_vault_lp
        writable(12),                                // protocol_token_fee
        AccountRef::new(addr(13), false, true),      // user
        program(known::dynamic_vault_program_id()),  // vault_program
        program(known::token_program_id()),          // token_program
        program(known::dynamic_amm_program_id()),    // dynamic_amm_program
    ]
}

#[test]
fn valid_init_set_round_trips_in_order() {
    let refs = valid_init_refs();
    let ctx = InitializePoolCtx::from_refs(&refs).unwrap();
    let reencoded = ctx.to_refs();
    assert_eq!(reencoded.len(), refs.len());
    for (got, expected) in reencoded.iter().zip(refs.iter()) {
        assert_eq!(got.key.bytes, expected.key.bytes);
        assert_eq!(got.is_writable, expected.is_writable);
        assert_eq!(got.is_signer, expected.is_signer);
    }
}

#[test]
fn wrong_account_count_is_rejected() {
    let mut refs = valid_init_refs();
    refs.pop();
    assert_eq!(
        InitializePoolCtx::from_refs(&refs).unwrap_err(),
        SchemaError::WrongCount,
    );
    let err = init_pool(&refs, 1, 1, None).unwrap_err();
    assert_eq!(err, CpiError::SchemaMismatch(SchemaError::WrongCount));
}

#[test]
fn missing_signer_flag_is_rejected() {
    let mut refs = valid_init_refs();
    refs[18] = AccountRef::new(refs[18].key, true, false);
    let err = init_pool(&refs, 1, 1, None).unwrap_err();
    assert_eq!(err, CpiError::SchemaMismatch(SchemaError::MissingSigner(18)));
}

#[test]
fn missing_writable_flag_is_rejected() {
    let mut refs = valid_init_refs();
    refs[0] = AccountRef::new(refs[0].key, false, false);
    let err = init_pool(&refs, 1, 1, None).unwrap_err();
    assert_eq!(err, CpiError::SchemaMismatch(SchemaError::MissingWritable(0)));
}

#[test]
fn wrong_token_program_identity_is_rejected() {
    let mut refs = valid_init_refs();
    refs[23] = program(addr(90));
    let err = init_pool(&refs, 1, 1, None).unwrap_err();
    assert_eq!(err, CpiError::SchemaMismatch(SchemaError::WrongIdentity(23)));
}

#[test]
fn foreign_amm_identity_fails_before_any_build() {
    // An arbitrary, non-whitelisted address in the AMM program slot is
    // refused while the account list is decoded, before any invocation
    // exists.
    let mut refs = valid_init_refs();
    refs[26] = program(addr(66));
    let err = init_pool(&refs, 100_000_000, 100_000_000, None).unwrap_err();
    assert_eq!(err, CpiError::SchemaMismatch(SchemaError::WrongIdentity(26)));
}

#[test]
fn valid_swap_set_builds_the_swap_invocation() {
    let refs = valid_swap_refs();
    let inv = dynamic_amm_swap(&refs, 500, 495).unwrap();
    assert_eq!(inv.program_id.bytes, known::dynamic_amm_program_id().bytes);
    assert_eq!(inv.accounts.len(), 15);
    for (got, expected) in inv.accounts.iter().zip(refs.iter()) {
        assert_eq!(got.key.bytes, expected.key.bytes);
    }
    assert!(inv.signer_seeds.is_empty());
}

#[test]
fn swap_without_user_signature_is_rejected() {
    let mut refs = valid_swap_refs();
    refs[12] = AccountRef::new(refs[12].key, false, false);
    let err = dynamic_amm_swap(&refs, 500, 495).unwrap_err();
    assert_eq!(err, CpiError::SchemaMismatch(SchemaError::MissingSigner(12)));
}
