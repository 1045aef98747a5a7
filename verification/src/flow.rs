use vstd::prelude::*;
use crate::accounts::{
    init_pool_schema, lock_liquidity_schema, swap_schema, DynamicAmmSwap, InitializePoolCtx,
    LockLiquidity,
};
use crate::cpi::{build_invocation, propagate_outcome, whitelisted, CpiError, CpiInvocation, CpiInvocationV};
use crate::known::known_dynamic_amm_program;
use crate::payload::{
    build_init_pool_payload, build_lock_payload, build_swap_payload, init_pool_payload,
    lock_payload, swap_payload,
};
use crate::pda::{
    derive_associated_token, derive_lock_escrow, spec_associated_token, spec_lock_escrow,
};
use crate::schema::{refs_match, schema_verdict, slot_ok, AccountRef, AccountRefV};

verus! {

/// The account order the external pool-creating instruction expects, as a
/// rearrangement of the typed set's slot sequence.
pub open spec fn init_pool_cpi_accounts(v: Seq<AccountRefV>) -> Seq<AccountRefV> {
    seq![
        v[0],  // pool
        v[3],  // token_a_mint
        v[4],  // token_b_mint
        v[5],  // a_vault
        v[6],  // b_vault
        v[7],  // a_token_vault
        v[8],  // b_token_vault
        v[9],  // a_vault_lp_mint
        v[10],  // b_vault_lp_mint
        v[11],  // a_vault_lp
        v[12],  // b_vault_lp
        v[13],  // payer_token_a
        v[14],  // payer_token_b
        v[15],  // payer_pool_lp
        v[16],  // protocol_token_a_fee
        v[17],  // protocol_token_b_fee
        v[18],  // payer
        v[19],  // rent
        v[20],  // mint_metadata
        v[21],  // metadata_program
        v[22],  // vault_program
        v[23],  // token_program
        v[24],  // associated_token_program
        v[2],  // lp_mint
        v[25],  // system_program
        v[1],  // config
    ]
}

/// Assembles the pool-creating invocation from an already decoded account
/// set: the external instruction's accounts in its expected order and the
/// serialized arguments. Refuses a set whose target slot is not the
/// whitelisted AMM program.
pub fn handle_init_pool(
    ctx: &InitializePoolCtx,
    token_a_amount: u64,
    token_b_amount: u64,
    activation_point: Option<u64>,
) -> (r: Result<CpiInvocation, CpiError>)
    ensures
        r is Ok <==> whitelisted(ctx.dynamic_amm_program@.key),
        r matches Ok(inv) ==> inv@ == (CpiInvocationV {
            program_id: ctx.dynamic_amm_program@.key,
            accounts: init_pool_cpi_accounts(ctx@),
            signer_seeds: Seq::empty(),
            data: init_pool_payload(token_a_amount, token_b_amount, activation_point),
        }),
        !whitelisted(ctx.dynamic_amm_program@.key) ==> r == Err::<CpiInvocation, CpiError>(
            CpiError::WhitelistViolation,
        ),
{
    let mut accounts: Vec<AccountRef> = Vec::new();
    accounts.push(ctx.pool);
    accounts.push(ctx.token_a_mint);
    accounts.push(ctx.token_b_mint);
    accounts.push(ctx.a_vault);
    accounts.push(ctx.b_vault);
    accounts.push(ctx.a_token_vault);
    accounts.push(ctx.b_token_vault);
    accounts.push(ctx.a_vault_lp_mint);
    accounts.push(ctx.b_vault_lp_mint);
    accounts.push(ctx.a_vault_lp);
    accounts.push(ctx.b_vault_lp);
    accounts.push(ctx.payer_token_a);
    accounts.push(ctx.payer_token_b);
    accounts.push(ctx.payer_pool_lp);
    accounts.push(ctx.protocol_token_a_fee);
    accounts.push(ctx.protocol_token_b_fee);
    accounts.push(ctx.payer);
    accounts.push(ctx.rent);
    accounts.push(ctx.mint_metadata);
    accounts.push(ctx.metadata_program);
    accounts.push(ctx.vault_program);
    accounts.push(ctx.token_program);
    accounts.push(ctx.associated_token_program);
    accounts.push(ctx.lp_mint);
    accounts.push(ctx.system_program);
    accounts.push(ctx.config);
    proof {
        assert(accounts.deep_view() =~= init_pool_cpi_accounts(ctx@));
    }
    let data = build_init_pool_payload(token_a_amount, token_b_amount, activation_point);
    build_invocation(&ctx.dynamic_amm_program.key, accounts, data)
}

/// Decodes, validates and assembles the pool-bootstrap instruction: succeeds
/// exactly on an account list matching the declared schema, and then yields
/// the fully assembled external invocation; any mismatch is reported before
/// anything is dispatched.
pub fn init_pool(
    refs: &Vec<AccountRef>,
    token_a_amount: u64,
    token_b_amount: u64,
    activation_point: Option<u64>,
) -> (r: Result<CpiInvocation, CpiError>)
    ensures
        r is Ok <==> refs_match(refs.deep_view(), init_pool_schema()),
        r matches Ok(inv) ==> inv@ == (CpiInvocationV {
            program_id: known_dynamic_amm_program(),
            accounts: init_pool_cpi_accounts(refs.deep_view()),
            signer_seeds: Seq::empty(),
            data: init_pool_payload(token_a_amount, token_b_amount, activation_point),
        }),
        r matches Err(e) ==> (schema_verdict(refs.deep_view(), init_pool_schema()) matches Err(se)
            && e == CpiError::SchemaMismatch(se)),
{
    match InitializePoolCtx::from_refs(refs) {
        Err(e) => Err(CpiError::SchemaMismatch(e)),
        Ok(ctx) => {
            proof {
                assert(slot_ok(refs.deep_view()[26], init_pool_schema()[26]));
            }
            handle_init_pool(&ctx, token_a_amount, token_b_amount, activation_point)
        },
    }
}

/// Any account set matching the pool-bootstrap schema carries the
/// whitelisted AMM program in its target slot: the schema's fixed-identity
/// requirement and the context builder's whitelist agree.
pub proof fn lemma_pool_schema_forces_whitelisted_target(v: Seq<AccountRefV>)
    requires
        refs_match(v, init_pool_schema()),
    ensures
        whitelisted(v[26].key),
{
    assert(slot_ok(v[26], init_pool_schema()[26]));
}

/// The account order the external swap instruction expects: the typed set's
/// slots save the target program itself.
pub open spec fn swap_cpi_accounts(v: Seq<AccountRefV>) -> Seq<AccountRefV> {
    v.subrange(0, 15)
}

/// Decodes, validates and assembles the swap instruction, forwarding the
/// amounts verbatim: succeeds exactly on an account list matching the
/// declared schema.
pub fn dynamic_amm_swap(refs: &Vec<AccountRef>, amount_in: u64, min_amount_out: u64) -> (r: Result<
    CpiInvocation,
    CpiError,
>)
    ensures
        r is Ok <==> refs_match(refs.deep_view(), swap_schema()),
        r matches Ok(inv) ==> inv@ == (CpiInvocationV {
            program_id: known_dynamic_amm_program(),
            accounts: swap_cpi_accounts(refs.deep_view()),
            signer_seeds: Seq::empty(),
            data: swap_payload(amount_in, min_amount_out),
        }),
        r matches Err(e) ==> (schema_verdict(refs.deep_view(), swap_schema()) matches Err(se)
            && e == CpiError::SchemaMismatch(se)),
{
    match DynamicAmmSwap::from_refs(refs) {
        Err(e) => Err(CpiError::SchemaMismatch(e)),
        Ok(ctx) => {
            proof {
                assert(slot_ok(refs.deep_view()[15], swap_schema()[15]));
            }
            let mut accounts: Vec<AccountRef> = Vec::new();
            accounts.push(ctx.pool);
            accounts.push(ctx.user_source_token);
            accounts.push(ctx.user_destination_token);
            accounts.push(ctx.a_vault);
            accounts.push(ctx.b_vault);
            accounts.push(ctx.a_token_vault);
            accounts.push(ctx.b_token_vault);
            accounts.push(ctx.a_vault_lp_mint);
            accounts.push(ctx.b_vault_lp_mint);
            accounts.push(ctx.a_vault_lp);
            accounts.push(ctx.b_vault_lp);
            accounts.push(ctx.protocol_token_fee);
            accounts.push(ctx.user);
            accounts.push(ctx.vault_program);
            accounts.push(ctx.token_program);
            proof {
                assert(accounts.deep_view() =~= swap_cpi_accounts(refs.deep_view()));
            }
            let data = build_swap_payload(amount_in, min_amount_out);
            build_invocation(&ctx.dynamic_amm_program.key, accounts, data)
        },
    }
}

/// Every derived account supplied with a lock instruction is the one this
/// layer independently derives: each beneficiary's escrow from the pool and
/// the beneficiary, and each escrow's vault as the escrow's associated token
/// account for the LP mint.
pub open spec fn lock_authentic(v: Seq<AccountRefV>) -> bool {
    &&& (spec_lock_escrow(v[0].key, v[8].key) matches Some(p) && p.0 == v[2].key)
    &&& (spec_lock_escrow(v[0].key, v[9].key) matches Some(p) && p.0 == v[3].key)
    &&& (spec_associated_token(v[2].key, v[1].key) matches Some(p) && p.0 == v[4].key)
    &&& (spec_associated_token(v[3].key, v[1].key) matches Some(p) && p.0 == v[5].key)
}

/// The account order the external lock instruction expects for the first
/// beneficiary's escrow.
pub open spec fn lock_cpi_accounts_fst(v: Seq<AccountRefV>) -> Seq<AccountRefV> {
    seq![
        v[0],  // pool
        v[1],  // lp_mint
        v[2],  // lock_escrow_0
        v[8],  // user_0
        v[6],  // source_lp_tokens
        v[4],  // escrow_vault_0
        v[17],  // token_program
        v[10],  // a_vault
        v[11],  // b_vault
        v[12],  // a_vault_lp
        v[13],  // b_vault_lp
        v[14],  // a_vault_lp_mint
        v[15],  // b_vault_lp_mint
    ]
}

/// The account order the external lock instruction expects for the second
/// beneficiary's escrow.
pub open spec fn lock_cpi_accounts_snd(v: Seq<AccountRefV>) -> Seq<AccountRefV> {
    seq![
        v[0],  // pool
        v[1],  // lp_mint
        v[3],  // lock_escrow_1
        v[9],  // user_1
        v[6],  // source_lp_tokens
        v[5],  // escrow_vault_1
        v[17],  // token_program
        v[10],  // a_vault
        v[11],  // b_vault
        v[12],  // a_vault_lp
        v[13],  // b_vault_lp
        v[14],  // a_vault_lp_mint
        v[15],  // b_vault_lp_mint
    ]
}

/// Decodes, validates and assembles the two lock invocations of the
/// two-beneficiary lock instruction. Succeeds exactly when the account list
/// matches the declared schema and every supplied escrow and escrow vault is
/// the independently derived one; the allocation array is forwarded verbatim
/// in both payloads, never adjusted. Any mismatch is reported before anything
/// is dispatched.
pub fn lock_lp(refs: &Vec<AccountRef>, allocations: [u16; 2]) -> (r: Result<
    (CpiInvocation, CpiInvocation),
    CpiError,
>)
    ensures
        r is Ok <==> refs_match(refs.deep_view(), lock_liquidity_schema()) && lock_authentic(
            refs.deep_view(),
        ),
        r matches Ok(pair) ==> pair.0@ == (CpiInvocationV {
            program_id: known_dynamic_amm_program(),
            accounts: lock_cpi_accounts_fst(refs.deep_view()),
            signer_seeds: Seq::empty(),
            data: lock_payload(allocations[0], allocations[1]),
        }),
        r matches Ok(pair) ==> pair.1@ == (CpiInvocationV {
            program_id: known_dynamic_amm_program(),
            accounts: lock_cpi_accounts_snd(refs.deep_view()),
            signer_seeds: Seq::empty(),
            data: lock_payload(allocations[0], allocations[1]),
        }),
        r matches Err(e) ==> match schema_verdict(refs.deep_view(), lock_liquidity_schema()) {
            Err(se) => e == CpiError::SchemaMismatch(se),
            Ok(_) => e == CpiError::AuthenticityMismatch && !lock_authentic(refs.deep_view()),
        },
{
    let ctx = match LockLiquidity::from_refs(refs) {
        Err(e) => {
            return Err(CpiError::SchemaMismatch(e));
        },
        Ok(ctx) => ctx,
    };
    proof {
        crate::schema::lemma_schema_verdict_ok(refs.deep_view(), lock_liquidity_schema());
        assert(refs.deep_view()[0] == ctx.pool@);
        assert(refs.deep_view()[1] == ctx.lp_mint@);
        assert(refs.deep_view()[2] == ctx.lock_escrow_0@);
        assert(refs.deep_view()[3] == ctx.lock_escrow_1@);
        assert(refs.deep_view()[4] == ctx.escrow_vault_0@);
        assert(refs.deep_view()[5] == ctx.escrow_vault_1@);
        assert(refs.deep_view()[8] == ctx.user_0@);
        assert(refs.deep_view()[9] == ctx.user_1@);
    }
    let escrow_fst = match derive_lock_escrow(&ctx.pool.key, &ctx.user_0.key) {
        None => {
            proof {
                assert(!lock_authentic(refs.deep_view()));
            }
            return Err(CpiError::AuthenticityMismatch);
        },
        Some(p) => p.0,
    };
    if !(escrow_fst == ctx.lock_escrow_0.key) {
        proof {
            assert(!lock_authentic(refs.deep_view()));
        }
        return Err(CpiError::AuthenticityMismatch);
    }
    let escrow_snd = match derive_lock_escrow(&ctx.pool.key, &ctx.user_1.key) {
        None => {
            proof {
                assert(!lock_authentic(refs.deep_view()));
            }
            return Err(CpiError::AuthenticityMismatch);
        },
        Some(p) => p.0,
    };
    if !(escrow_snd == ctx.lock_escrow_1.key) {
        proof {
            assert(!lock_authentic(refs.deep_view()));
        }
        return Err(CpiError::AuthenticityMismatch);
    }
    let vault_fst = match derive_associated_token(&ctx.lock_escrow_0.key, &ctx.lp_mint.key) {
        None => {
            proof {
                assert(!lock_authentic(refs.deep_view()));
            }
            return Err(CpiError::AuthenticityMismatch);
        },
        Some(p) => p.0,
    };
    if !(vault_fst == ctx.escrow_vault_0.key) {
        proof {
            assert(!lock_authentic(refs.deep_view()));
        }
        return Err(CpiError::AuthenticityMismatch);
    }
    let vault_snd = match derive_associated_token(&ctx.lock_escrow_1.key, &ctx.lp_mint.key) {
        None => {
            proof {
                assert(!lock_authentic(refs.deep_view()));
            }
            return Err(CpiError::AuthenticityMismatch);
        },
        Some(p) => p.0,
    };
    if !(vault_snd == ctx.escrow_vault_1.key) {
        proof {
            assert(!lock_authentic(refs.deep_view()));
        }
        return Err(CpiError::AuthenticityMismatch);
    }
    proof {
        assert(slot_ok(refs.deep_view()[16], lock_liquidity_schema()[16]));
    }
    let mut accounts_fst: Vec<AccountRef> = Vec::new();
    accounts_fst.push(ctx.pool);
    accounts_fst.push(ctx.lp_mint);
    accounts_fst.push(ctx.lock_escrow_0);
    accounts_fst.push(ctx.user_0);
    accounts_fst.push(ctx.source_lp_tokens);
    accounts_fst.push(ctx.escrow_vault_0);
    accounts_fst.push(ctx.token_program);
    accounts_fst.push(ctx.a_vault);
    accounts_fst.push(ctx.b_vault);
    accounts_fst.push(ctx.a_vault_lp);
    accounts_fst.push(ctx.b_vault_lp);
    accounts_fst.push(ctx.a_vault_lp_mint);
    accounts_fst.push(ctx.b_vault_lp_mint);
    proof {
        assert(accounts_fst.deep_view() =~= lock_cpi_accounts_fst(refs.deep_view()));
    }
    let mut accounts_snd: Vec<AccountRef> = Vec::new();
    accounts_snd.push(ctx.pool);
    accounts_snd.push(ctx.lp_mint);
    accounts_snd.push(ctx.lock_escrow_1);
    accounts_snd.push(ctx.user_1);
    accounts_snd.push(ctx.source_lp_tokens);
    accounts_snd.push(ctx.escrow_vault_1);
    accounts_snd.push(ctx.token_program);
    accounts_snd.push(ctx.a_vault);
    accounts_snd.push(ctx.b_vault);
    accounts_snd.push(ctx.a_vault_lp);
    accounts_snd.push(ctx.b_vault_lp);
    accounts_snd.push(ctx.a_vault_lp_mint);
    accounts_snd.push(ctx.b_vault_lp_mint);
    proof {
        assert(accounts_snd.deep_view() =~= lock_cpi_accounts_snd(refs.deep_view()));
    }
    let data_fst = build_lock_payload(allocations[0], allocations[1]);
    let data_snd = build_lock_payload(allocations[0], allocations[1]);
    let inv_fst = match build_invocation(&ctx.dynamic_amm_program.key, accounts_fst, data_fst) {
        Err(e) => {
            return Err(e);
        },
        Ok(inv) => inv,
    };
    let inv_snd = match build_invocation(&ctx.dynamic_amm_program.key, accounts_snd, data_snd) {
        Err(e) => {
            return Err(e);
        },
        Ok(inv) => inv,
    };
    Ok((inv_fst, inv_snd))
}

/// The stage a bootstrap transaction's processing is in.
#[derive(Clone, Copy, Debug, PartialEq, Eq, Structural)]
pub enum FlowStage {
    /// The pool-creating call is being prepared or dispatched.
    PoolInit,
    /// The pool-creating call succeeded and lock calls remain.
    LockPending,
    /// Every call in the batch succeeded.
    Done,
    /// A call failed, so the enclosing transaction aborts with its error.
    Aborted,
}

/// The bootstrap orchestration: one pool-creating call, then a batch of lock
/// calls, a later call attempted only while every earlier call succeeded. A
/// failure aborts the flow and surfaces the external error verbatim; there is
/// no retry and no partial success.
pub struct BootstrapFlow {
    pub stage: FlowStage,
    pub locks_remaining: usize,
}

impl BootstrapFlow {
    pub fn new(lock_count: usize) -> (r: BootstrapFlow)
        ensures
            r.stage is PoolInit,
            r.locks_remaining == lock_count,
    {
        BootstrapFlow { stage: FlowStage::PoolInit, locks_remaining: lock_count }
    }

    /// Consumes the pool-creating call's outcome: on success the flow moves
    /// on to the lock batch (or is done when the batch is empty); on failure
    /// it aborts with the external error unchanged.
    pub fn on_pool_init_outcome(&mut self, outcome: Result<(), u64>) -> (r: Result<(), CpiError>)
        requires
            old(self).stage is PoolInit,
        ensures
            final(self).locks_remaining == old(self).locks_remaining,
            outcome is Ok ==> r is Ok,
            outcome is Ok && old(self).locks_remaining == 0 ==> final(self).stage is Done,
            outcome is Ok && old(self).locks_remaining > 0 ==> final(self).stage is LockPending,
            outcome matches Err(code) ==> final(self).stage is Aborted && r == Err::<
                (),
                CpiError,
            >(CpiError::ExternalRejection(code)),
    {
        match propagate_outcome(outcome) {
            Ok(_) => {
                if self.locks_remaining == 0 {
                    self.stage = FlowStage::Done;
                } else {
                    self.stage = FlowStage::LockPending;
                }
                Ok(())
            },
            Err(e) => {
                self.stage = FlowStage::Aborted;
                Err(e)
            },
        }
    }

    /// Consumes one lock call's outcome: on success one fewer lock remains,
    /// and the flow is done when the last one succeeded; on failure it aborts
    /// with the external error unchanged and the remaining locks are never
    /// attempted.
    pub fn on_lock_outcome(&mut self, outcome: Result<(), u64>) -> (r: Result<(), CpiError>)
        requires
            old(self).stage is LockPending,
            old(self).locks_remaining > 0,
        ensures
            outcome is Ok ==> r is Ok && final(self).locks_remaining == old(
                self,
            ).locks_remaining - 1,
            outcome is Ok && old(self).locks_remaining == 1 ==> final(self).stage is Done,
            outcome is Ok && old(self).locks_remaining > 1 ==> final(self).stage is LockPending,
            outcome matches Err(code) ==> final(self).stage is Aborted && r == Err::<
                (),
                CpiError,
            >(CpiError::ExternalRejection(code)),
    {
        match propagate_outcome(outcome) {
            Ok(_) => {
                self.locks_remaining = self.locks_remaining - 1;
                if self.locks_remaining == 0 {
                    self.stage = FlowStage::Done;
                }
                Ok(())
            },
            Err(e) => {
                self.stage = FlowStage::Aborted;
                Err(e)
            },
        }
    }
}

} // verus!
