use vstd::prelude::*;
use crate::addr::Address;
use crate::known::{
    known_associated_token_program, known_dynamic_amm_program, known_dynamic_vault_program,
    known_metadata_program, known_token_program, associated_token_program_id,
    dynamic_amm_program_id, dynamic_vault_program_id, metadata_program_id, token_program_id,
};

verus! {

/// What `Pubkey::try_find_program_address` returns for a seed tuple and a
/// program id: the derived address and its bump, or nothing when the bump
/// search is exhausted or a seed is over the length limit. The result is a
/// pure function of the two arguments.
pub uninterp spec fn pda_of(seeds: Seq<Seq<u8>>, program_id: Seq<u8>) -> Option<(Seq<u8>, u8)>;

/// Relies on solana-pubkey's `Pubkey::try_find_program_address`: the returned
/// address and bump depend on the seed slices and the program id alone, and
/// `None` comes exactly when that search fails.
#[verifier::external_body]
fn find_pda(seeds: &Vec<Vec<u8>>, program_id: &Address) -> (r: Option<(Address, u8)>)
    ensures
        match r {
            Some(p) => pda_of(seeds.deep_view(), program_id@) == Some((p.0@, p.1)),
            None => pda_of(seeds.deep_view(), program_id@) is None,
        },
{
    let seed_slices: Vec<&[u8]> = seeds.iter().map(|s| s.as_slice()).collect();
    let pid = anchor_lang::prelude::Pubkey::new_from_array(program_id.bytes);
    anchor_lang::prelude::Pubkey::try_find_program_address(&seed_slices, &pid)
        .map(|(key, bump)| (Address { bytes: key.to_bytes() }, bump))
}

/// The seed prefix of a liquidity lock escrow, the bytes of "lock_escrow".
pub open spec fn lock_escrow_prefix() -> Seq<u8> {
    seq![108u8, 111, 99, 107, 95, 101, 115, 99, 114, 111, 119]
}

fn lock_escrow_prefix_bytes() -> (r: Vec<u8>)
    ensures
        r@ == lock_escrow_prefix(),
{
    let mut v: Vec<u8> = Vec::new();
    v.push(108);
    v.push(111);
    v.push(99);
    v.push(107);
    v.push(95);
    v.push(101);
    v.push(115);
    v.push(99);
    v.push(114);
    v.push(111);
    v.push(119);
    proof {
        assert(v@ =~= lock_escrow_prefix());
    }
    v
}

/// The seed prefix of a vault, the bytes of "vault".
pub open spec fn vault_prefix() -> Seq<u8> {
    seq![118u8, 97, 117, 108, 116]
}

fn vault_prefix_bytes() -> (r: Vec<u8>)
    ensures
        r@ == vault_prefix(),
{
    let mut v: Vec<u8> = Vec::new();
    v.push(118);
    v.push(97);
    v.push(117);
    v.push(108);
    v.push(116);
    proof {
        assert(v@ =~= vault_prefix());
    }
    v
}

/// The seed prefix of a mint's metadata record, the bytes of "metadata".
pub open spec fn metadata_prefix() -> Seq<u8> {
    seq![109u8, 101, 116, 97, 100, 97, 116, 97]
}

fn metadata_prefix_bytes() -> (r: Vec<u8>)
    ensures
        r@ == metadata_prefix(),
{
    let mut v: Vec<u8> = Vec::new();
    v.push(109);
    v.push(101);
    v.push(116);
    v.push(97);
    v.push(100);
    v.push(97);
    v.push(116);
    v.push(97);
    proof {
        assert(v@ =~= metadata_prefix());
    }
    v
}

/// The lock escrow of one beneficiary of one pool, derived under the dynamic
/// AMM program from ("lock_escrow", pool, beneficiary).
pub open spec fn spec_lock_escrow(pool: Seq<u8>, owner: Seq<u8>) -> Option<(Seq<u8>, u8)> {
    pda_of(seq![lock_escrow_prefix(), pool, owner], known_dynamic_amm_program())
}

pub fn derive_lock_escrow(pool: &Address, owner: &Address) -> (r: Option<(Address, u8)>)
    ensures
        match r {
            Some(p) => spec_lock_escrow(pool@, owner@) == Some((p.0@, p.1)),
            None => spec_lock_escrow(pool@, owner@) is None,
        },
{
    let mut seeds: Vec<Vec<u8>> = Vec::new();
    seeds.push(lock_escrow_prefix_bytes());
    seeds.push(pool.to_vec());
    seeds.push(owner.to_vec());
    proof {
        assert(seeds.deep_view() =~~= seq![lock_escrow_prefix(), pool@, owner@]);
    }
    find_pda(&seeds, &dynamic_amm_program_id())
}

/// The constant-product pool for a mint pair and a fee configuration, derived
/// under the dynamic AMM program from the later mint, the earlier mint and the
/// configuration account, mints ordered byte-lexicographically.
pub open spec fn spec_pool_with_config(
    token_a_mint: Seq<u8>,
    token_b_mint: Seq<u8>,
    config: Seq<u8>,
) -> Option<(Seq<u8>, u8)> {
    pda_of(
        seq![
            crate::addr::spec_max_key(token_a_mint, token_b_mint),
            crate::addr::spec_min_key(token_a_mint, token_b_mint),
            config,
        ],
        known_dynamic_amm_program(),
    )
}

pub fn derive_pool_with_config(token_a_mint: &Address, token_b_mint: &Address, config: &Address) -> (r:
    Option<(Address, u8)>)
    ensures
        match r {
            Some(p) => spec_pool_with_config(token_a_mint@, token_b_mint@, config@) == Some(
                (p.0@, p.1),
            ),
            None => spec_pool_with_config(token_a_mint@, token_b_mint@, config@) is None,
        },
{
    let first = crate::addr::max_key(token_a_mint, token_b_mint);
    let second = crate::addr::min_key(token_a_mint, token_b_mint);
    let mut seeds: Vec<Vec<u8>> = Vec::new();
    seeds.push(first.to_vec());
    seeds.push(second.to_vec());
    seeds.push(config.to_vec());
    proof {
        assert(seeds.deep_view() =~~= seq![
            crate::addr::spec_max_key(token_a_mint@, token_b_mint@),
            crate::addr::spec_min_key(token_a_mint@, token_b_mint@),
            config@,
        ]);
    }
    find_pda(&seeds, &dynamic_amm_program_id())
}

/// The yield vault of a token mint, derived under the dynamic vault program
/// from ("vault", token_mint, base).
pub open spec fn spec_vault(token_mint: Seq<u8>, base: Seq<u8>) -> Option<(Seq<u8>, u8)> {
    pda_of(seq![vault_prefix(), token_mint, base], known_dynamic_vault_program())
}

pub fn derive_vault(token_mint: &Address, base: &Address) -> (r: Option<(Address, u8)>)
    ensures
        match r {
            Some(p) => spec_vault(token_mint@, base@) == Some((p.0@, p.1)),
            None => spec_vault(token_mint@, base@) is None,
        },
{
    let mut seeds: Vec<Vec<u8>> = Vec::new();
    seeds.push(vault_prefix_bytes());
    seeds.push(token_mint.to_vec());
    seeds.push(base.to_vec());
    proof {
        assert(seeds.deep_view() =~~= seq![vault_prefix(), token_mint@, base@]);
    }
    find_pda(&seeds, &dynamic_vault_program_id())
}

/// The metadata record of a mint, derived under the metadata program from
/// ("metadata", metadata_program, mint).
pub open spec fn spec_mint_metadata(mint: Seq<u8>) -> Option<(Seq<u8>, u8)> {
    pda_of(
        seq![metadata_prefix(), known_metadata_program(), mint],
        known_metadata_program(),
    )
}

pub fn derive_mint_metadata(mint: &Address) -> (r: Option<(Address, u8)>)
    ensures
        match r {
            Some(p) => spec_mint_metadata(mint@) == Some((p.0@, p.1)),
            None => spec_mint_metadata(mint@) is None,
        },
{
    let metadata_program = metadata_program_id();
    let mut seeds: Vec<Vec<u8>> = Vec::new();
    seeds.push(metadata_prefix_bytes());
    seeds.push(metadata_program.to_vec());
    seeds.push(mint.to_vec());
    proof {
        assert(seeds.deep_view() =~~= seq![
            metadata_prefix(),
            known_metadata_program(),
            mint@,
        ]);
    }
    find_pda(&seeds, &metadata_program)
}

/// The associated token account of a wallet for a mint, derived under the
/// associated token program from (wallet, token_program, mint).
pub open spec fn spec_associated_token(wallet: Seq<u8>, mint: Seq<u8>) -> Option<(Seq<u8>, u8)> {
    pda_of(
        seq![wallet, known_token_program(), mint],
        known_associated_token_program(),
    )
}

pub fn derive_associated_token(wallet: &Address, mint: &Address) -> (r: Option<(Address, u8)>)
    ensures
        match r {
            Some(p) => spec_associated_token(wallet@, mint@) == Some((p.0@, p.1)),
            None => spec_associated_token(wallet@, mint@) is None,
        },
{
    let mut seeds: Vec<Vec<u8>> = Vec::new();
    seeds.push(wallet.to_vec());
    seeds.push(token_program_id().to_vec());
    seeds.push(mint.to_vec());
    proof {
        assert(seeds.deep_view() =~~= seq![wallet@, known_token_program(), mint@]);
    }
    find_pda(&seeds, &associated_token_program_id())
}

/// The seed material with which this program signs on behalf of a lock
/// escrow it controls: the escrow's derivation seeds with the bump appended.
pub open spec fn lock_escrow_signer_seeds(pool: Seq<u8>, owner: Seq<u8>, bump: u8) -> Seq<
    Seq<u8>,
> {
    seq![lock_escrow_prefix(), pool, owner, seq![bump]]
}

pub fn build_lock_escrow_signer_seeds(pool: &Address, owner: &Address, bump: u8) -> (r: Vec<
    Vec<u8>,
>)
    ensures
        r.deep_view() == lock_escrow_signer_seeds(pool@, owner@, bump),
{
    let mut bump_seed: Vec<u8> = Vec::new();
    bump_seed.push(bump);
    let mut seeds: Vec<Vec<u8>> = Vec::new();
    seeds.push(lock_escrow_prefix_bytes());
    seeds.push(pool.to_vec());
    seeds.push(owner.to_vec());
    seeds.push(bump_seed);
    proof {
        assert(seeds.deep_view() =~~= lock_escrow_signer_seeds(pool@, owner@, bump));
    }
    seeds
}

/// Derivation is deterministic: identical seed tuples and program ids always
/// yield the identical address and bump.
pub proof fn lemma_pda_deterministic(
    seeds_fst: Seq<Seq<u8>>,
    seeds_snd: Seq<Seq<u8>>,
    program_fst: Seq<u8>,
    program_snd: Seq<u8>,
)
    requires
        seeds_fst == seeds_snd,
        program_fst == program_snd,
    ensures
        pda_of(seeds_fst, program_fst) == pda_of(seeds_snd, program_snd),
{
}

/// Re-deriving the lock escrow of the same (pool, beneficiary) pair in
/// independent calls yields the same address and bump.
pub proof fn lemma_lock_escrow_idempotent(
    pool_fst: Seq<u8>,
    pool_snd: Seq<u8>,
    owner_fst: Seq<u8>,
    owner_snd: Seq<u8>,
)
    requires
        pool_fst == pool_snd,
        owner_fst == owner_snd,
    ensures
        spec_lock_escrow(pool_fst, owner_fst) == spec_lock_escrow(pool_snd, owner_snd),
{
}

} // verus!
