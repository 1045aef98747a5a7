use vstd::prelude::*;
use crate::addr::Address;

verus! {

// The fixed identities that account schemas check supplied accounts against.
// Each is the 32-byte form of the corresponding base58 program or sysvar
// address.

/// The SPL token program, TokenkegQfeZyiNwAJbNbGKPFXCWuBvf9Ss623VQ5DA.
pub open spec fn known_token_program() -> Seq<u8> {
    seq![
        6u8, 221, 246, 225, 215, 101, 161, 147, 217, 203, 225, 70, 206, 235, 121, 172, 28, 180,
        133, 237, 95, 91, 55, 145, 58, 140, 245, 133, 126, 255, 0, 169,
    ]
}

pub fn token_program_id() -> (r: Address)
    ensures
        r@ == known_token_program(),
{
    let a = Address::new(
        [
            6, 221, 246, 225, 215, 101, 161, 147, 217, 203, 225, 70, 206, 235, 121, 172, 28, 180,
            133, 237, 95, 91, 55, 145, 58, 140, 245, 133, 126, 255, 0, 169,
        ],
    );
    proof {
        assert(a@ =~= known_token_program());
    }
    a
}

/// The associated token account program, ATokenGPvbdGVxr1b2hvZbsiqW5xWH25efTNsLJA8knL.
pub open spec fn known_associated_token_program() -> Seq<u8> {
    seq![
        140u8, 151, 37, 143, 78, 36, 137, 241, 187, 61, 16, 41, 20, 142, 13, 131, 11, 90, 19, 153,
        218, 255, 16, 132, 4, 142, 123, 216, 219, 233, 248, 89,
    ]
}

pub fn associated_token_program_id() -> (r: Address)
    ensures
        r@ == known_associated_token_program(),
{
    let a = Address::new(
        [
            140, 151, 37, 143, 78, 36, 137, 241, 187, 61, 16, 41, 20, 142, 13, 131, 11, 90, 19,
            153, 218, 255, 16, 132, 4, 142, 123, 216, 219, 233, 248, 89,
        ],
    );
    proof {
        assert(a@ =~= known_associated_token_program());
    }
    a
}

/// The system program, 11111111111111111111111111111111.
pub open spec fn known_system_program() -> Seq<u8> {
    seq![
        0u8, 0, 0, 0, 0, 0, 0, 0, 0, 0, 0, 0, 0, 0, 0, 0, 0, 0, 0, 0, 0, 0, 0, 0, 0, 0, 0, 0, 0,
        0, 0, 0,
    ]
}

pub fn system_program_id() -> (r: Address)
    ensures
        r@ == known_system_program(),
{
    let a = Address::new([0; 32]);
    proof {
        assert(a@ =~= known_system_program());
    }
    a
}

/// The rent sysvar, SysvarRent111111111111111111111111111111111.
pub open spec fn known_rent_sysvar() -> Seq<u8> {
    seq![
        6u8, 167, 213, 23, 25, 44, 92, 81, 33, 140, 201, 76, 61, 74, 241, 127, 88, 218, 238, 8,
        155, 161, 253, 68, 227, 219, 217, 138, 0, 0, 0, 0,
    ]
}

pub fn rent_sysvar_id() -> (r: Address)
    ensures
        r@ == known_rent_sysvar(),
{
    let a = Address::new(
        [
            6, 167, 213, 23, 25, 44, 92, 81, 33, 140, 201, 76, 61, 74, 241, 127, 88, 218, 238, 8,
            155, 161, 253, 68, 227, 219, 217, 138, 0, 0, 0, 0,
        ],
    );
    proof {
        assert(a@ =~= known_rent_sysvar());
    }
    a
}

/// The token metadata program, metaqbxxUerdq28cj1RbAWkYQm3ybzjb6a8bt518x1s.
pub open spec fn known_metadata_program() -> Seq<u8> {
    seq![
        11u8, 112, 101, 177, 227, 209, 124, 69, 56, 157, 82, 127, 107, 4, 195, 205, 88, 184, 108,
        115, 26, 160, 253, 181, 73, 182, 209, 188, 3, 248, 41, 70,
    ]
}

pub fn metadata_program_id() -> (r: Address)
    ensures
        r@ == known_metadata_program(),
{
    let a = Address::new(
        [
            11, 112, 101, 177, 227, 209, 124, 69, 56, 157, 82, 127, 107, 4, 195, 205, 88, 184,
            108, 115, 26, 160, 253, 181, 73, 182, 209, 188, 3, 248, 41, 70,
        ],
    );
    proof {
        assert(a@ =~= known_metadata_program());
    }
    a
}

/// The dynamic AMM program this layer composes calls into,
/// Eo7WjKq67rjJQSZxS6z3YkapzY3eMj6Xy8X5EQVn5UaB.
pub open spec fn known_dynamic_amm_program() -> Seq<u8> {
    seq![
        204u8, 248, 2, 212, 204, 204, 132, 215, 251, 33, 181, 247, 59, 73, 216, 26, 22, 197, 180,
        200, 142, 227, 35, 148, 225, 201, 29, 53, 136, 204, 64, 128,
    ]
}

pub fn dynamic_amm_program_id() -> (r: Address)
    ensures
        r@ == known_dynamic_amm_program(),
{
    let a = Address::new(
        [
            204, 248, 2, 212, 204, 204, 132, 215, 251, 33, 181, 247, 59, 73, 216, 26, 22, 197,
            180, 200, 142, 227, 35, 148, 225, 201, 29, 53, 136, 204, 64, 128,
        ],
    );
    proof {
        assert(a@ =~= known_dynamic_amm_program());
    }
    a
}

/// The single-sided yield vault program backing the AMM,
/// 24Uqj9JCLxUeoC3hGfh5W3s9FM9uCHDS2SG3LYwBpyTi.
pub open spec fn known_dynamic_vault_program() -> Seq<u8> {
    seq![
        15u8, 191, 232, 132, 109, 104, 92, 189, 198, 44, 202, 126, 4, 199, 232, 246, 141, 204, 49,
        58, 179, 18, 119, 226, 224, 17, 42, 46, 192, 224, 82, 229,
    ]
}

pub fn dynamic_vault_program_id() -> (r: Address)
    ensures
        r@ == known_dynamic_vault_program(),
{
    let a = Address::new(
        [
            15, 191, 232, 132, 109, 104, 92, 189, 198, 44, 202, 126, 4, 199, 232, 246, 141, 204,
            49, 58, 179, 18, 119, 226, 224, 17, 42, 46, 192, 224, 82, 229,
        ],
    );
    proof {
        assert(a@ =~= known_dynamic_vault_program());
    }
    a
}

/// This program's own declared id, 4JTNRRQpgLusbEhGnzTuE9kgPgMLXQX1wqBzU52GduqH.
pub open spec fn known_self_program() -> Seq<u8> {
    seq![
        49u8, 11, 192, 28, 13, 147, 207, 118, 52, 204, 124, 20, 35, 146, 149, 186, 84, 220, 185,
        106, 244, 112, 84, 240, 151, 220, 227, 166, 135, 228, 30, 240,
    ]
}

pub fn self_program_id() -> (r: Address)
    ensures
        r@ == known_self_program(),
{
    let a = Address::new(
        [
            49, 11, 192, 28, 13, 147, 207, 118, 52, 204, 124, 20, 35, 146, 149, 186, 84, 220,
            185, 106, 244, 112, 84, 240, 151, 220, 227, 166, 135, 228, 30, 240,
        ],
    );
    proof {
        assert(a@ =~= known_self_program());
    }
    a
}

} // verus!
