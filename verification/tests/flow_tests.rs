use cpi_example::addr::Address;
use cpi_example::cpi::{propagate_outcome, CpiError};
use cpi_example::flow::{init_pool, lock_lp, BootstrapFlow, FlowStage};
use cpi_example::known;
use cpi_example::pda::{derive_associated_token, derive_lock_escrow};
use cpi_example::schema::AccountRef;
use sha2::{Digest, Sha256};

fn addr(n: u8) -> Address {
    Address::new([n; 32])
}

fn writable(n: u8) -> AccountRef {
    AccountRef::new(addr(n), true, false)
}

fn readonly(n: u8) -> AccountRef {
    AccountRef::new(addr(n), false, false)
}

fn program(key: Address) -> AccountRef {
    AccountRef::new(key, false, false)
}

/// A 27-account list matching the pool-bootstrap schema.
fn valid_init_refs() -> Vec<AccountRef> {
    vec![
        writable(1),                                    // pool
        readonly(2),                                    // config
        writable(3),                                    // lp_mint
        readonly(4),                                    // token_a_mint
        readonly(5),                                    // token_b_mint
        writable(6),                                    // a_vault
        writable(7),                                    // b_vault
        writable(8),                                    // a_token_vault
        writable(9),                                    // b_token_vault
        writable(10),                                   // a_vault_lp_mint
        writable(11),                                   // b_vault_lp_mint
        writable(12),                                   // a_vault_lp
        writable(13),                                   // b_vault_lp
        writable(14),                                   // payer_token_a
        writable(15),                                   // payer_token_b
        writable(16),                                   // payer_pool_lp
        writable(17),                                   // protocol_token_a_fee
        writable(18),                                   // protocol_token_b_fee
        AccountRef::new(addr(19), true, true),          // payer
        program(known::rent_sysvar_id()),               // rent
        writable(20),                                   // mint_metadata
        program(known::metadata_program_id()),          // metadata_program
        program(known::dynamic_vault_program_id()),     // vault_program
        program(known::token_program_id()),             // token_program
        program(known::associated_token_program_id()),  // associated_token_program
        program(known::system_program_id()),            // system_program
        program(known::dynamic_amm_program_id()),       // dynamic_amm_program
    ]
}

/// A 20-account list matching the lock schema, with the escrows and escrow
/// vaults independently derived from the pool, the beneficiaries and the LP
/// mint.
fn valid_lock_refs(pool: Address, lp_mint: Address, user_0: Address, user_1: Address) -> Vec<
    AccountRef,
> {
    let (escrow_0, _) = derive_lock_escrow(&pool, &user_0).unwrap();
    let (escrow_1, _) = derive_lock_escrow(&pool, &user_1).unwrap();
    let (vault_0, _) = derive_associated_token(&escrow_0, &lp_mint).unwrap();
    let (vault_1, _) = derive_associated_token(&escrow_1, &lp_mint).unwrap();
    vec![
        AccountRef::new(pool, true, false),             // pool
        AccountRef::new(lp_mint, false, false),         // lp_mint
        AccountRef::new(escrow_0, true, false),         // lock_escrow_0
        AccountRef::new(escrow_1, true, false),         // lock_escrow_1
        AccountRef::new(vault_0, true, false),          // escrow_vault_0
        AccountRef::new(vault_1, true, false),          // escrow_vault_1
        writable(46),                                   // source_lp_tokens
        AccountRef::new(addr(47), true, true),          // payer
        AccountRef::new(user_0, false, false),          // user_0
        AccountRef::new(user_1, false, false),          // user_1
        readonly(48),                                   // a_vault
        readonly(49),                                   // b_vault
        readonly(50),                                   // a_vault_lp
        readonly(51),                                   // b_vault_lp
        readonly(52),                                   // a_vault_lp_mint
        readonly(53),                                   // b_vault_lp_mint
        program(known::dynamic_amm_program_id()),       // dynamic_amm_program
        program(known::token_program_id()),             // token_program
        program(known::associated_token_program_id()),  // associated_token_program
        program(known::system_program_id()),            // system_program
    ]
}

#[test]
fn test_init_pool_and_lock_lp() {
    // Bootstrap the pool, then lock its LP half-and-half to two distinct
    // beneficiaries, driving the flow to its terminal stage.
    let init_refs = valid_init_refs();
    let init_inv = init_pool(&init_refs, 100_000_000, 100_000_000, None).unwrap();
    assert_eq!(init_inv.program_id.bytes, known::dynamic_amm_program_id().bytes);
    assert_eq!(init_inv.accounts.len(), 26);

    let pool = init_refs[0].key;
    let lp_mint = init_refs[2].key;
    let user_0 = addr(44);
    let user_1 = addr(45);
    let lock_refs = valid_lock_refs(pool, lp_mint, user_0, user_1);
    let allocations = [5000_u16; 2];
    let (lock_0, lock_1) = lock_lp(&lock_refs, allocations).unwrap();
    assert_eq!(lock_0.program_id.bytes, known::dynamic_amm_program_id().bytes);
    assert_eq!(lock_1.program_id.bytes, known::dynamic_amm_program_id().bytes);
    assert_eq!(lock_0.accounts.len(), 13);
    assert_eq!(lock_1.accounts.len(), 13);
    // Each lock targets its own escrow and beneficiary.
    assert_eq!(lock_0.accounts[2].key.bytes, lock_refs[2].key.bytes);
    assert_eq!(lock_0.accounts[3].key.bytes, user_0.bytes);
    assert_eq!(lock_1.accounts[2].key.bytes, lock_refs[3].key.bytes);
    assert_eq!(lock_1.accounts[3].key.bytes, user_1.bytes);

    let mut bootstrap = BootstrapFlow::new(2);
    assert!(bootstrap.on_pool_init_outcome(Ok(())).is_ok());
    assert_eq!(bootstrap.stage, FlowStage::LockPending);
    assert!(bootstrap.on_lock_outcome(Ok(())).is_ok());
    assert_eq!(bootstrap.stage, FlowStage::LockPending);
    assert!(bootstrap.on_lock_outcome(Ok(())).is_ok());
    assert_eq!(bootstrap.stage, FlowStage::Done);
}

#[test]
fn init_pool_payload_has_the_declared_layout() {
    let refs = valid_init_refs();
    let inv = init_pool(&refs, 100_000_000, 100_000_000, None).unwrap();
    let discriminator = Sha256::digest(
        b"global:initialize_permissionless_constant_product_pool_with_config2",
    );
    assert_eq!(&inv.data[..8], &discriminator[..8]);
    assert_eq!(&inv.data[8..16], &100_000_000_u64.to_le_bytes());
    assert_eq!(&inv.data[16..24], &100_000_000_u64.to_le_bytes());
    assert_eq!(&inv.data[24..], &[0]);

    let inv_with_activation = init_pool(&refs, 7, 9, Some(42)).unwrap();
    assert_eq!(&inv_with_activation.data[8..16], &7_u64.to_le_bytes());
    assert_eq!(&inv_with_activation.data[16..24], &9_u64.to_le_bytes());
    assert_eq!(inv_with_activation.data[24], 1);
    assert_eq!(&inv_with_activation.data[25..], &42_u64.to_le_bytes());
}

#[test]
fn swap_payload_has_the_declared_layout() {
    let discriminator = Sha256::digest(b"global:swap");
    let built = cpi_example::payload::build_swap_payload(1000, 990);
    assert_eq!(&built[..8], &discriminator[..8]);
    assert_eq!(&built[8..16], &1000_u64.to_le_bytes());
    assert_eq!(&built[16..24], &990_u64.to_le_bytes());
}

#[test]
fn lock_allocations_are_forwarded_verbatim() {
    // A malformed allocation sum is not fixed up: the entries go out exactly
    // as supplied, and the external program's rejection is what surfaces.
    let pool = addr(71);
    let lp_mint = addr(72);
    let refs = valid_lock_refs(pool, lp_mint, addr(73), addr(74));
    let (lock_0, lock_1) = lock_lp(&refs, [5000, 4000]).unwrap();
    let discriminator = Sha256::digest(b"global:lock");
    for inv in [&lock_0, &lock_1] {
        assert_eq!(&inv.data[..8], &discriminator[..8]);
        assert_eq!(&inv.data[8..10], &5000_u16.to_le_bytes());
        assert_eq!(&inv.data[10..12], &4000_u16.to_le_bytes());
        assert_eq!(cpi_example::payload::decode_u16_le(inv.data[8], inv.data[9]), 5000);
        assert_eq!(cpi_example::payload::decode_u16_le(inv.data[10], inv.data[11]), 4000);
    }
}

#[test]
fn external_rejection_propagates_verbatim() {
    assert!(propagate_outcome(Ok(())).is_ok());
    assert_eq!(
        propagate_outcome(Err(6000)).unwrap_err(),
        CpiError::ExternalRejection(6000),
    );
}

#[test]
fn substituted_escrow_is_rejected_before_dispatch() {
    let pool = addr(81);
    let lp_mint = addr(82);
    let mut refs = valid_lock_refs(pool, lp_mint, addr(83), addr(84));
    refs[2] = AccountRef::new(addr(99), true, false);
    let err = lock_lp(&refs, [5000, 5000]).unwrap_err();
    assert_eq!(err, CpiError::AuthenticityMismatch);
}

#[test]
fn substituted_escrow_vault_is_rejected_before_dispatch() {
    let pool = addr(85);
    let lp_mint = addr(86);
    let mut refs = valid_lock_refs(pool, lp_mint, addr(87), addr(88));
    refs[5] = AccountRef::new(addr(98), true, false);
    let err = lock_lp(&refs, [5000, 5000]).unwrap_err();
    assert_eq!(err, CpiError::AuthenticityMismatch);
}

#[test]
fn empty_lock_batch_finishes_after_pool_init() {
    let mut bootstrap = BootstrapFlow::new(0);
    assert!(bootstrap.on_pool_init_outcome(Ok(())).is_ok());
    assert_eq!(bootstrap.stage, FlowStage::Done);
}

#[test]
fn failed_pool_init_aborts_the_flow() {
    let mut bootstrap = BootstrapFlow::new(2);
    let err = bootstrap.on_pool_init_outcome(Err(300)).unwrap_err();
    assert_eq!(err, CpiError::ExternalRejection(300));
    assert_eq!(bootstrap.stage, FlowStage::Aborted);
}

#[test]
fn failed_lock_aborts_the_flow() {
    let mut bootstrap = BootstrapFlow::new(2);
    assert!(bootstrap.on_pool_init_outcome(Ok(())).is_ok());
    assert!(bootstrap.on_lock_outcome(Ok(())).is_ok());
    let err = bootstrap.on_lock_outcome(Err(6028)).unwrap_err();
    assert_eq!(err, CpiError::ExternalRejection(6028));
    assert_eq!(bootstrap.stage, FlowStage::Aborted);
}
