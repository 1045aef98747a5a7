use vstd::prelude::*;

verus! {

// A serialized instruction payload is an 8-byte discriminator naming the
// target instruction, followed by its arguments in fixed little-endian
// layout. The discriminators are the compiled-in constants of the dynamic AMM
// program's instruction set.

/// The two little-endian bytes of a 16-bit value.
pub open spec fn le_bytes_u16(x: u16) -> Seq<u8> {
    seq![(x % 256) as u8, ((x / 256) % 256) as u8]
}

/// The eight little-endian bytes of a 64-bit value.
pub open spec fn le_bytes_u64(x: u64) -> Seq<u8> {
    seq![
        (x % 256) as u8,
        ((x / 0x100) % 256) as u8,
        ((x / 0x10000) % 256) as u8,
        ((x / 0x1000000) % 256) as u8,
        ((x / 0x100000000) % 256) as u8,
        ((x / 0x10000000000) % 256) as u8,
        ((x / 0x1000000000000) % 256) as u8,
        ((x / 0x100000000000000) % 256) as u8,
    ]
}

/// An optional 64-bit value: a presence tag, then the value when present.
pub open spec fn opt_u64_bytes(x: Option<u64>) -> Seq<u8> {
    match x {
        None => seq![0u8],
        Some(v) => seq![1u8] + le_bytes_u64(v),
    }
}

/// The 16-bit value read back from two little-endian bytes.
pub open spec fn u16_of_le(b: Seq<u8>) -> u16
    recommends
        b.len() == 2,
{
    (b[0] + b[1] * 256) as u16
}

pub fn push_u16_le(out: &mut Vec<u8>, x: u16)
    ensures
        final(out)@ == old(out)@ + le_bytes_u16(x),
{
    out.push((x % 256) as u8);
    out.push(((x / 256) % 256) as u8);
    proof {
        assert(out@ =~= old(out)@ + le_bytes_u16(x));
    }
}

pub fn push_u64_le(out: &mut Vec<u8>, x: u64)
    ensures
        final(out)@ == old(out)@ + le_bytes_u64(x),
{
    out.push((x % 256) as u8);
    out.push(((x / 0x100) % 256) as u8);
    out.push(((x / 0x10000) % 256) as u8);
    out.push(((x / 0x1000000) % 256) as u8);
    out.push(((x / 0x100000000) % 256) as u8);
    out.push(((x / 0x10000000000) % 256) as u8);
    out.push(((x / 0x1000000000000) % 256) as u8);
    out.push(((x / 0x100000000000000) % 256) as u8);
    proof {
        assert(out@ =~= old(out)@ + le_bytes_u64(x));
    }
}

pub fn push_opt_u64(out: &mut Vec<u8>, x: Option<u64>)
    ensures
        final(out)@ == old(out)@ + opt_u64_bytes(x),
{
    match x {
        None => {
            out.push(0);
            proof {
                assert(out@ =~= old(out)@ + opt_u64_bytes(x));
            }
        },
        Some(v) => {
            out.push(1);
            push_u64_le(out, v);
            proof {
                assert(out@ =~= old(out)@ + opt_u64_bytes(x));
            }
        },
    }
}

/// Reads a 16-bit value back from its two little-endian bytes.
pub fn decode_u16_le(b0: u8, b1: u8) -> (r: u16)
    ensures
        r == u16_of_le(seq![b0, b1]),
{
    b0 as u16 + b1 as u16 * 256
}

/// Encoding a 16-bit value and reading it back yields the value unchanged.
pub proof fn lemma_u16_round_trip(x: u16)
    ensures
        u16_of_le(le_bytes_u16(x)) == x,
{
    vstd::arithmetic::div_mod::lemma_fundamental_div_mod(x as int, 256);
}

/// The discriminator of the pool-creating instruction,
/// initialize_permissionless_constant_product_pool_with_config2.
pub open spec fn init_pool_discriminator() -> Seq<u8> {
    seq![48u8, 149, 220, 130, 61, 11, 9, 178]
}

/// The discriminator of the swap instruction.
pub open spec fn swap_discriminator() -> Seq<u8> {
    seq![248u8, 198, 158, 145, 225, 117, 135, 200]
}

/// The discriminator of the lock instruction.
pub open spec fn lock_discriminator() -> Seq<u8> {
    seq![21u8, 19, 208, 43, 237, 62, 255, 87]
}

/// The serialized payload of the pool-creating instruction.
pub open spec fn init_pool_payload(
    token_a_amount: u64,
    token_b_amount: u64,
    activation_point: Option<u64>,
) -> Seq<u8> {
    init_pool_discriminator() + le_bytes_u64(token_a_amount) + le_bytes_u64(token_b_amount)
        + opt_u64_bytes(activation_point)
}

/// The serialized payload of the swap instruction.
pub open spec fn swap_payload(amount_in: u64, min_amount_out: u64) -> Seq<u8> {
    swap_discriminator() + le_bytes_u64(amount_in) + le_bytes_u64(min_amount_out)
}

/// The serialized payload of the lock instruction for a two-beneficiary
/// allocation array, entries forwarded in order.
pub open spec fn lock_payload(alloc_fst: u16, alloc_snd: u16) -> Seq<u8> {
    lock_discriminator() + le_bytes_u16(alloc_fst) + le_bytes_u16(alloc_snd)
}

fn push_init_pool_discriminator(out: &mut Vec<u8>)
    ensures
        final(out)@ == old(out)@ + init_pool_discriminator(),
{
    out.push(48);
    out.push(149);
    out.push(220);
    out.push(130);
    out.push(61);
    out.push(11);
    out.push(9);
    out.push(178);
    proof {
        assert(out@ =~= old(out)@ + init_pool_discriminator());
    }
}

fn push_swap_discriminator(out: &mut Vec<u8>)
    ensures
        final(out)@ == old(out)@ + swap_discriminator(),
{
    out.push(248);
    out.push(198);
    out.push(158);
    out.push(145);
    out.push(225);
    out.push(117);
    out.push(135);
    out.push(200);
    proof {
        assert(out@ =~= old(out)@ + swap_discriminator());
    }
}

fn push_lock_discriminator(out: &mut Vec<u8>)
    ensures
        final(out)@ == old(out)@ + lock_discriminator(),
{
    out.push(21);
    out.push(19);
    out.push(208);
    out.push(43);
    out.push(237);
    out.push(62);
    out.push(255);
    out.push(87);
    proof {
        assert(out@ =~= old(out)@ + lock_discriminator());
    }
}

pub fn build_init_pool_payload(
    token_a_amount: u64,
    token_b_amount: u64,
    activation_point: Option<u64>,
) -> (r: Vec<u8>)
    ensures
        r@ == init_pool_payload(token_a_amount, token_b_amount, activation_point),
{
    let mut out: Vec<u8> = Vec::new();
    push_init_pool_discriminator(&mut out);
    push_u64_le(&mut out, token_a_amount);
    push_u64_le(&mut out, token_b_amount);
    push_opt_u64(&mut out, activation_point);
    proof {
        assert(out@ =~= init_pool_payload(token_a_amount, token_b_amount, activation_point));
    }
    out
}

pub fn build_swap_payload(amount_in: u64, min_amount_out: u64) -> (r: Vec<u8>)
    ensures
        r@ == swap_payload(amount_in, min_amount_out),
{
    let mut out: Vec<u8> = Vec::new();
    push_swap_discriminator(&mut out);
    push_u64_le(&mut out, amount_in);
    push_u64_le(&mut out, min_amount_out);
    proof {
        assert(out@ =~= swap_payload(amount_in, min_amount_out));
    }
    out
}

pub fn build_lock_payload(alloc_fst: u16, alloc_snd: u16) -> (r: Vec<u8>)
    ensures
        r@ == lock_payload(alloc_fst, alloc_snd),
{
    let mut out: Vec<u8> = Vec::new();
    push_lock_discriminator(&mut out);
    push_u16_le(&mut out, alloc_fst);
    push_u16_le(&mut out, alloc_snd);
    proof {
        assert(out@ =~= lock_payload(alloc_fst, alloc_snd));
    }
    out
}

/// The allocation entries of a lock payload read back as the entries that
/// were encoded: the layer forwards an allocation array verbatim and never
/// adjusts it toward the basis-point sum the external program requires.
pub proof fn lemma_lock_allocations_verbatim(alloc_fst: u16, alloc_snd: u16)
    ensures
        u16_of_le(lock_payload(alloc_fst, alloc_snd).subrange(8, 10)) == alloc_fst,
        u16_of_le(lock_payload(alloc_fst, alloc_snd).subrange(10, 12)) == alloc_snd,
{
    assert(lock_payload(alloc_fst, alloc_snd).subrange(8, 10) =~= le_bytes_u16(alloc_fst));
    assert(lock_payload(alloc_fst, alloc_snd).subrange(10, 12) =~= le_bytes_u16(alloc_snd));
    lemma_u16_round_trip(alloc_fst);
    lemma_u16_round_trip(alloc_snd);
}

} // verus!
