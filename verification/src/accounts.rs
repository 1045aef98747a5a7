use vstd::prelude::*;
use crate::schema::{
    refs_match, schema_verdict, validate_refs, AccountRef, AccountRefV, SlotSpec, SlotSpecV,
    SchemaError,
};
use crate::known::{
    associated_token_program_id, dynamic_amm_program_id, dynamic_vault_program_id,
    known_associated_token_program, known_dynamic_amm_program, known_dynamic_vault_program,
    known_metadata_program, known_rent_sysvar, known_system_program, known_token_program,
    metadata_program_id, rent_sysvar_id, system_program_id, token_program_id,
};

verus! {

/// The size of a newly created pool record: an 8-byte discriminator plus the
/// external program's 944 bytes of pool state.
pub const POOL_SIZE: usize = 8 + 944;

// Spec-level shorthand for the three slot shapes a schema uses.

pub open spec fn spec_slot_any(writable: bool) -> SlotSpecV {
    SlotSpecV { writable, signer: false, identity: None }
}

pub open spec fn spec_slot_signer(writable: bool) -> SlotSpecV {
    SlotSpecV { writable, signer: true, identity: None }
}

pub open spec fn spec_slot_fixed(key: Seq<u8>) -> SlotSpecV {
    SlotSpecV { writable: false, signer: false, identity: Some(key) }
}

/// The declared schema of the pool-bootstrap instruction: 27 slots, in order,
/// with the mutability, signer and fixed-identity requirements each slot must
/// meet.
pub open spec fn init_pool_schema() -> Seq<SlotSpecV> {
    seq![
        spec_slot_any(true),  // pool
        spec_slot_any(false),  // config
        spec_slot_any(true),  // lp_mint
        spec_slot_any(false),  // token_a_mint
        spec_slot_any(false),  // token_b_mint
        spec_slot_any(true),  // a_vault
        spec_slot_any(true),  // b_vault
        spec_slot_any(true),  // a_token_vault
        spec_slot_any(true),  // b_token_vault
        spec_slot_any(true),  // a_vault_lp_mint
        spec_slot_any(true),  // b_vault_lp_mint
        spec_slot_any(true),  // a_vault_lp
        spec_slot_any(true),  // b_vault_lp
        spec_slot_any(true),  // payer_token_a
        spec_slot_any(true),  // payer_token_b
        spec_slot_any(true),  // payer_pool_lp
        spec_slot_any(true),  // protocol_token_a_fee
        spec_slot_any(true),  // protocol_token_b_fee
        spec_slot_signer(true),  // payer
        spec_slot_fixed(known_rent_sysvar()),  // rent
        spec_slot_any(true),  // mint_metadata
        spec_slot_fixed(known_metadata_program()),  // metadata_program
        spec_slot_fixed(known_dynamic_vault_program()),  // vault_program
        spec_slot_fixed(known_token_program()),  // token_program
        spec_slot_fixed(known_associated_token_program()),  // associated_token_program
        spec_slot_fixed(known_system_program()),  // system_program
        spec_slot_fixed(known_dynamic_amm_program()),  // dynamic_amm_program
    ]
}

pub fn init_pool_slots() -> (r: Vec<SlotSpec>)
    ensures
        r.deep_view() == init_pool_schema(),
{
    let mut v: Vec<SlotSpec> = Vec::new();
    v.push(SlotSpec::any(true));  // pool
    v.push(SlotSpec::any(false));  // config
    v.push(SlotSpec::any(true));  // lp_mint
    v.push(SlotSpec::any(false));  // token_a_mint
    v.push(SlotSpec::any(false));  // token_b_mint
    v.push(SlotSpec::any(true));  // a_vault
    v.push(SlotSpec::any(true));  // b_vault
    v.push(SlotSpec::any(true));  // a_token_vault
    v.push(SlotSpec::any(true));  // b_token_vault
    v.push(SlotSpec::any(true));  // a_vault_lp_mint
    v.push(SlotSpec::any(true));  // b_vault_lp_mint
    v.push(SlotSpec::any(true));  // a_vault_lp
    v.push(SlotSpec::any(true));  // b_vault_lp
    v.push(SlotSpec::any(true));  // payer_token_a
    v.push(SlotSpec::any(true));  // payer_token_b
    v.push(SlotSpec::any(true));  // payer_pool_lp
    v.push(SlotSpec::any(true));  // protocol_token_a_fee
    v.push(SlotSpec::any(true));  // protocol_token_b_fee
    v.push(SlotSpec::signer(true));  // payer
    v.push(SlotSpec::fixed(rent_sysvar_id()));  // rent
    v.push(SlotSpec::any(true));  // mint_metadata
    v.push(SlotSpec::fixed(metadata_program_id()));  // metadata_program
    v.push(SlotSpec::fixed(dynamic_vault_program_id()));  // vault_program
    v.push(SlotSpec::fixed(token_program_id()));  // token_program
    v.push(SlotSpec::fixed(associated_token_program_id()));  // associated_token_program
    v.push(SlotSpec::fixed(system_program_id()));  // system_program
    v.push(SlotSpec::fixed(dynamic_amm_program_id()));  // dynamic_amm_program
    proof {
        assert(v.deep_view() =~~= init_pool_schema());
    }
    v
}

/// The typed account set of the pool-bootstrap instruction: one field per
/// schema slot, in schema order.
#[derive(Clone, Copy, Debug)]
pub struct InitializePoolCtx {
    pub pool: AccountRef,
    pub config: AccountRef,
    pub lp_mint: AccountRef,
    pub token_a_mint: AccountRef,
    pub token_b_mint: AccountRef,
    pub a_vault: AccountRef,
    pub b_vault: AccountRef,
    pub a_token_vault: AccountRef,
    pub b_token_vault: AccountRef,
    pub a_vault_lp_mint: AccountRef,
    pub b_vault_lp_mint: AccountRef,
    pub a_vault_lp: AccountRef,
    pub b_vault_lp: AccountRef,
    pub payer_token_a: AccountRef,
    pub payer_token_b: AccountRef,
    pub payer_pool_lp: AccountRef,
    pub protocol_token_a_fee: AccountRef,
    pub protocol_token_b_fee: AccountRef,
    pub payer: AccountRef,
    pub rent: AccountRef,
    pub mint_metadata: AccountRef,
    pub metadata_program: AccountRef,
    pub vault_program: AccountRef,
    pub token_program: AccountRef,
    pub associated_token_program: AccountRef,
    pub system_program: AccountRef,
    pub dynamic_amm_program: AccountRef,
}

impl View for InitializePoolCtx {
    type V = Seq<AccountRefV>;

    /// The ordered slot sequence the set was decoded from.
    open spec fn view(&self) -> Seq<AccountRefV> {
        seq![
            self.pool@,
            self.config@,
            self.lp_mint@,
            self.token_a_mint@,
            self.token_b_mint@,
            self.a_vault@,
            self.b_vault@,
            self.a_token_vault@,
            self.b_token_vault@,
            self.a_vault_lp_mint@,
            self.b_vault_lp_mint@,
            self.a_vault_lp@,
            self.b_vault_lp@,
            self.payer_token_a@,
            self.payer_token_b@,
            self.payer_pool_lp@,
            self.protocol_token_a_fee@,
            self.protocol_token_b_fee@,
            self.payer@,
            self.rent@,
            self.mint_metadata@,
            self.metadata_program@,
            self.vault_program@,
            self.token_program@,
            self.associated_token_program@,
            self.system_program@,
            self.dynamic_amm_program@,
        ]
    }
}

impl InitializePoolCtx {
    /// Decodes the flat account list supplied with a pool-bootstrap
    /// instruction. Succeeds exactly when the list matches the declared
    /// schema, and then binds each slot, by position, to its named field;
    /// otherwise reports the count mismatch or the first failing slot.
    pub fn from_refs(refs: &Vec<AccountRef>) -> (r: Result<InitializePoolCtx, SchemaError>)
        ensures
            r is Ok <==> refs_match(refs.deep_view(), init_pool_schema()),
            r matches Ok(ctx) ==> ctx@ == refs.deep_view(),
            r matches Err(e) ==> Err::<(), SchemaError>(e) == schema_verdict(
                refs.deep_view(),
                init_pool_schema(),
            ),
    {
        let schema = init_pool_slots();
        match validate_refs(refs, &schema) {
            Err(e) => Err(e),
            Ok(_) => {
                let ctx = InitializePoolCtx {
                    pool: refs[0],
                    config: refs[1],
                    lp_mint: refs[2],
                    token_a_mint: refs[3],
                    token_b_mint: refs[4],
                    a_vault: refs[5],
                    b_vault: refs[6],
                    a_token_vault: refs[7],
                    b_token_vault: refs[8],
                    a_vault_lp_mint: refs[9],
                    b_vault_lp_mint: refs[10],
                    a_vault_lp: refs[11],
                    b_vault_lp: refs[12],
                    payer_token_a: refs[13],
                    payer_token_b: refs[14],
                    payer_pool_lp: refs[15],
                    protocol_token_a_fee: refs[16],
                    protocol_token_b_fee: refs[17],
                    payer: refs[18],
                    rent: refs[19],
                    mint_metadata: refs[20],
                    metadata_program: refs[21],
                    vault_program: refs[22],
                    token_program: refs[23],
                    associated_token_program: refs[24],
                    system_program: refs[25],
                    dynamic_amm_program: refs[26],
                };
                proof {
                    assert(ctx@ =~= refs.deep_view());
                }
                Ok(ctx)
            },
        }
    }

    /// Re-encodes the set as the flat account list it was decoded from, in
    /// the same order.
    pub fn to_refs(&self) -> (r: Vec<AccountRef>)
        ensures
            r.deep_view() == self@,
    {
        let mut out: Vec<AccountRef> = Vec::new();
        out.push(self.pool);
        out.push(self.config);
        out.push(self.lp_mint);
        out.push(self.token_a_mint);
        out.push(self.token_b_mint);
        out.push(self.a_vault);
        out.push(self.b_vault);
        out.push(self.a_token_vault);
        out.push(self.b_token_vault);
        out.push(self.a_vault_lp_mint);
        out.push(self.b_vault_lp_mint);
        out.push(self.a_vault_lp);
        out.push(self.b_vault_lp);
        out.push(self.payer_token_a);
        out.push(self.payer_token_b);
        out.push(self.payer_pool_lp);
        out.push(self.protocol_token_a_fee);
        out.push(self.protocol_token_b_fee);
        out.push(self.payer);
        out.push(self.rent);
        out.push(self.mint_metadata);
        out.push(self.metadata_program);
        out.push(self.vault_program);
        out.push(self.token_program);
        out.push(self.associated_token_program);
        out.push(self.system_program);
        out.push(self.dynamic_amm_program);
        proof {
            assert(out.deep_view() =~= self@);
        }
        out
    }
}

/// The declared schema of the swap instruction: 16 slots, in order.
pub open spec fn swap_schema() -> Seq<SlotSpecV> {
    seq![
        spec_slot_any(true),  // pool
        spec_slot_any(true),  // user_source_token
        spec_slot_any(true),  // user_destination_token
        spec_slot_any(true),  // a_vault
        spec_slot_any(true),  // b_vault
        spec_slot_any(true),  // a_token_vault
        spec_slot_any(true),  // b_token_vault
        spec_slot_any(true),  // a_vault_lp_mint
        spec_slot_any(true),  // b_vault_lp_mint
        spec_slot_any(true),  // a_vault_lp
        spec_slot_any(true),  // b_vault_lp
        spec_slot_any(true),  // protocol_token_fee
        spec_slot_signer(false),  // user
        spec_slot_fixed(known_dynamic_vault_program()),  // vault_program
        spec_slot_fixed(known_token_program()),  // token_program
        spec_slot_fixed(known_dynamic_amm_program()),  // dynamic_amm_program
    ]
}

pub fn swap_slots() -> (r: Vec<SlotSpec>)
    ensures
        r.deep_view() == swap_schema(),
{
    let mut v: Vec<SlotSpec> = Vec::new();
    v.push(SlotSpec::any(true));  // pool
    v.push(SlotSpec::any(true));  // user_source_token
    v.push(SlotSpec::any(true));  // user_destination_token
    v.push(SlotSpec::any(true));  // a_vault
    v.push(SlotSpec::any(true));  // b_vault
    v.push(SlotSpec::any(true));  // a_token_vault
    v.push(SlotSpec::any(true));  // b_token_vault
    v.push(SlotSpec::any(true));  // a_vault_lp_mint
    v.push(SlotSpec::any(true));  // b_vault_lp_mint
    v.push(SlotSpec::any(true));  // a_vault_lp
    v.push(SlotSpec::any(true));  // b_vault_lp
    v.push(SlotSpec::any(true));  // protocol_token_fee
    v.push(SlotSpec::signer(false));  // user
    v.push(SlotSpec::fixed(dynamic_vault_program_id()));  // vault_program
    v.push(SlotSpec::fixed(token_program_id()));  // token_program
    v.push(SlotSpec::fixed(dynamic_amm_program_id()));  // dynamic_amm_program
    proof {
        assert(v.deep_view() =~~= swap_schema());
    }
    v
}

/// The typed account set of the swap instruction: one field per schema slot,
/// in schema order.
#[derive(Clone, Copy, Debug)]
pub struct DynamicAmmSwap {
    pub pool: AccountRef,
    pub user_source_token: AccountRef,
    pub user_destination_token: AccountRef,
    pub a_vault: AccountRef,
    pub b_vault: AccountRef,
    pub a_token_vault: AccountRef,
    pub b_token_vault: AccountRef,
    pub a_vault_lp_mint: AccountRef,
    pub b_vault_lp_mint: AccountRef,
    pub a_vault_lp: AccountRef,
    pub b_vault_lp: AccountRef,
    pub protocol_token_fee: AccountRef,
    pub user: AccountRef,
    pub vault_program: AccountRef,
    pub token_program: AccountRef,
    pub dynamic_amm_program: AccountRef,
}

impl View for DynamicAmmSwap {
    type V = Seq<AccountRefV>;

    /// The ordered slot sequence the set was decoded from.
    open spec fn view(&self) -> Seq<AccountRefV> {
        seq![
            self.pool@,
            self.user_source_token@,
            self.user_destination_token@,
            self.a_vault@,
            self.b_vault@,
            self.a_token_vault@,
            self.b_token_vault@,
            self.a_vault_lp_mint@,
            self.b_vault_lp_mint@,
            self.a_vault_lp@,
            self.b_vault_lp@,
            self.protocol_token_fee@,
            self.user@,
            self.vault_program@,
            self.token_program@,
            self.dynamic_amm_program@,
        ]
    }
}

impl DynamicAmmSwap {
    /// Decodes the flat account list supplied with a swap instruction.
    /// Succeeds exactly when the list matches the declared schema, and then
    /// binds each slot, by position, to its named field; otherwise reports
    /// the count mismatch or the first failing slot.
    pub fn from_refs(refs: &Vec<AccountRef>) -> (r: Result<DynamicAmmSwap, SchemaError>)
        ensures
            r is Ok <==> refs_match(refs.deep_view(), swap_schema()),
            r matches Ok(ctx) ==> ctx@ == refs.deep_view(),
            r matches Err(e) ==> Err::<(), SchemaError>(e) == schema_verdict(
                refs.deep_view(),
                swap_schema(),
            ),
    {
        let schema = swap_slots();
        match validate_refs(refs, &schema) {
            Err(e) => Err(e),
            Ok(_) => {
                let ctx = DynamicAmmSwap {
                    pool: refs[0],
                    user_source_token: refs[1],
                    user_destination_token: refs[2],
                    a_vault: refs[3],
                    b_vault: refs[4],
                    a_token_vault: refs[5],
                    b_token_vault: refs[6],
                    a_vault_lp_mint: refs[7],
                    b_vault_lp_mint: refs[8],
                    a_vault_lp: refs[9],
                    b_vault_lp: refs[10],
                    protocol_token_fee: refs[11],
                    user: refs[12],
                    vault_program: refs[13],
                    token_program: refs[14],
                    dynamic_amm_program: refs[15],
                };
                proof {
                    assert(ctx@ =~= refs.deep_view());
                }
                Ok(ctx)
            },
        }
    }

    /// Re-encodes the set as the flat account list it was decoded from, in
    /// the same order.
    pub fn to_refs(&self) -> (r: Vec<AccountRef>)
        ensures
            r.deep_view() == self@,
    {
        let mut out: Vec<AccountRef> = Vec::new();
        out.push(self.pool);
        out.push(self.user_source_token);
        out.push(self.user_destination_token);
        out.push(self.a_vault);
        out.push(self.b_vault);
        out.push(self.a_token_vault);
        out.push(self.b_token_vault);
        out.push(self.a_vault_lp_mint);
        out.push(self.b_vault_lp_mint);
        out.push(self.a_vault_lp);
        out.push(self.b_vault_lp);
        out.push(self.protocol_token_fee);
        out.push(self.user);
        out.push(self.vault_program);
        out.push(self.token_program);
        out.push(self.dynamic_amm_program);
        proof {
            assert(out.deep_view() =~= self@);
        }
        out
    }
}

/// The declared schema of the two-beneficiary lock instruction: 20 slots, in
/// order.
pub open spec fn lock_liquidity_schema() -> Seq<SlotSpecV> {
    seq![
        spec_slot_any(true),  // pool
        spec_slot_any(false),  // lp_mint
        spec_slot_any(true),  // lock_escrow_0
        spec_slot_any(true),  // lock_escrow_1
        spec_slot_any(true),  // escrow_vault_0
        spec_slot_any(true),  // escrow_vault_1
        spec_slot_any(true),  // source_lp_tokens
        spec_slot_signer(true),  // payer
        spec_slot_any(false),  // user_0
        spec_slot_any(false),  // user_1
        spec_slot_any(false),  // a_vault
        spec_slot_any(false),  // b_vault
        spec_slot_any(false),  // a_vault_lp
        spec_slot_any(false),  // b_vault_lp
        spec_slot_any(false),  // a_vault_lp_mint
        spec_slot_any(false),  // b_vault_lp_mint
        spec_slot_fixed(known_dynamic_amm_program()),  // dynamic_amm_program
        spec_slot_fixed(known_token_program()),  // token_program
        spec_slot_fixed(known_associated_token_program()),  // associated_token_program
        spec_slot_fixed(known_system_program()),  // system_program
    ]
}

pub fn lock_liquidity_slots() -> (r: Vec<SlotSpec>)
    ensures
        r.deep_view() == lock_liquidity_schema(),
{
    let mut v: Vec<SlotSpec> = Vec::new();
    v.push(SlotSpec::any(true));  // pool
    v.push(SlotSpec::any(false));  // lp_mint
    v.push(SlotSpec::any(true));  // lock_escrow_0
    v.push(SlotSpec::any(true));  // lock_escrow_1
    v.push(SlotSpec::any(true));  // escrow_vault_0
    v.push(SlotSpec::any(true));  // escrow_vault_1
    v.push(SlotSpec::any(true));  // source_lp_tokens
    v.push(SlotSpec::signer(true));  // payer
    v.push(SlotSpec::any(false));  // user_0
    v.push(SlotSpec::any(false));  // user_1
    v.push(SlotSpec::any(false));  // a_vault
    v.push(SlotSpec::any(false));  // b_vault
    v.push(SlotSpec::any(false));  // a_vault_lp
    v.push(SlotSpec::any(false));  // b_vault_lp
    v.push(SlotSpec::any(false));  // a_vault_lp_mint
    v.push(SlotSpec::any(false));  // b_vault_lp_mint
    v.push(SlotSpec::fixed(dynamic_amm_program_id()));  // dynamic_amm_program
    v.push(SlotSpec::fixed(token_program_id()));  // token_program
    v.push(SlotSpec::fixed(associated_token_program_id()));  // associated_token_program
    v.push(SlotSpec::fixed(system_program_id()));  // system_program
    proof {
        assert(v.deep_view() =~~= lock_liquidity_schema());
    }
    v
}

/// The typed account set of the two-beneficiary lock instruction: one field
/// per schema slot, in schema order.
#[derive(Clone, Copy, Debug)]
pub struct LockLiquidity {
    pub pool: AccountRef,
    pub lp_mint: AccountRef,
    pub lock_escrow_0: AccountRef,
    pub lock_escrow_1: AccountRef,
    pub escrow_vault_0: AccountRef,
    pub escrow_vault_1: AccountRef,
    pub source_lp_tokens: AccountRef,
    pub payer: AccountRef,
    pub user_0: AccountRef,
    pub user_1: AccountRef,
    pub a_vault: AccountRef,
    pub b_vault: AccountRef,
    pub a_vault_lp: AccountRef,
    pub b_vault_lp: AccountRef,
    pub a_vault_lp_mint: AccountRef,
    pub b_vault_lp_mint: AccountRef,
    pub dynamic_amm_program: AccountRef,
    pub token_program: AccountRef,
    pub associated_token_program: AccountRef,
    pub system_program: AccountRef,
}

impl View for LockLiquidity {
    type V = Seq<AccountRefV>;

    /// The ordered slot sequence the set was decoded from.
    open spec fn view(&self) -> Seq<AccountRefV> {
        seq![
            self.pool@,
            self.lp_mint@,
            self.lock_escrow_0@,
            self.lock_escrow_1@,
            self.escrow_vault_0@,
            self.escrow_vault_1@,
            self.source_lp_tokens@,
            self.payer@,
            self.user_0@,
            self.user_1@,
            self.a_vault@,
            self.b_vault@,
            self.a_vault_lp@,
            self.b_vault_lp@,
            self.a_vault_lp_mint@,
            self.b_vault_lp_mint@,
            self.dynamic_amm_program@,
            self.token_program@,
            self.associated_token_program@,
            self.system_program@,
        ]
    }
}

impl LockLiquidity {
    /// Decodes the flat account list supplied with a lock instruction.
    /// Succeeds exactly when the list matches the declared schema, and then
    /// binds each slot, by position, to its named field; otherwise reports
    /// the count mismatch or the first failing slot.
    pub fn from_refs(refs: &Vec<AccountRef>) -> (r: Result<LockLiquidity, SchemaError>)
        ensures
            r is Ok <==> refs_match(refs.deep_view(), lock_liquidity_schema()),
            r matches Ok(ctx) ==> ctx@ == refs.deep_view(),
            r matches Err(e) ==> Err::<(), SchemaError>(e) == schema_verdict(
                refs.deep_view(),
                lock_liquidity_schema(),
            ),
    {
        let schema = lock_liquidity_slots();
        match validate_refs(refs, &schema) {
            Err(e) => Err(e),
            Ok(_) => {
                let ctx = LockLiquidity {
                    pool: refs[0],
                    lp_mint: refs[1],
                    lock_escrow_0: refs[2],
                    lock_escrow_1: refs[3],
                    escrow_vault_0: refs[4],
                    escrow_vault_1: refs[5],
                    source_lp_tokens: refs[6],
                    payer: refs[7],
                    user_0: refs[8],
                    user_1: refs[9],
                    a_vault: refs[10],
                    b_vault: refs[11],
                    a_vault_lp: refs[12],
                    b_vault_lp: refs[13],
                    a_vault_lp_mint: refs[14],
                    b_vault_lp_mint: refs[15],
                    dynamic_amm_program: refs[16],
                    token_program: refs[17],
                    associated_token_program: refs[18],
                    system_program: refs[19],
                };
                proof {
                    assert(ctx@ =~= refs.deep_view());
                }
                Ok(ctx)
            },
        }
    }

    /// Re-encodes the set as the flat account list it was decoded from, in
    /// the same order.
    pub fn to_refs(&self) -> (r: Vec<AccountRef>)
        ensures
            r.deep_view() == self@,
    {
        let mut out: Vec<AccountRef> = Vec::new();
        out.push(self.pool);
        out.push(self.lp_mint);
        out.push(self.lock_escrow_0);
        out.push(self.lock_escrow_1);
        out.push(self.escrow_vault_0);
        out.push(self.escrow_vault_1);
        out.push(self.source_lp_tokens);
        out.push(self.payer);
        out.push(self.user_0);
        out.push(self.user_1);
        out.push(self.a_vault);
        out.push(self.b_vault);
        out.push(self.a_vault_lp);
        out.push(self.b_vault_lp);
        out.push(self.a_vault_lp_mint);
        out.push(self.b_vault_lp_mint);
        out.push(self.dynamic_amm_program);
        out.push(self.token_program);
        out.push(self.associated_token_program);
        out.push(self.system_program);
        proof {
            assert(out.deep_view() =~= self@);
        }
        out
    }
}

} // verus!
