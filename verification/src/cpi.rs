use vstd::prelude::*;
use crate::addr::Address;
use crate::known::{dynamic_amm_program_id, known_dynamic_amm_program};
use crate::schema::{AccountRef, AccountRefV, SchemaError};

verus! {

/// Why an invocation was refused, or why the enclosing transaction fails.
#[derive(Clone, Copy, Debug, PartialEq, Eq, Structural)]
pub enum CpiError {
    /// The supplied account list does not match the instruction's declared
    /// schema; found before anything is dispatched.
    SchemaMismatch(SchemaError),
    /// A supplied derived account is not the one this layer independently
    /// derives; found before anything is dispatched.
    AuthenticityMismatch,
    /// The invocation's target is not a whitelisted external program; found
    /// at context-build time.
    WhitelistViolation,
    /// The invoked program itself reported failure, with its error code
    /// forwarded verbatim.
    ExternalRejection(u64),
}

/// One fully assembled cross-program invocation: the target program, the
/// ordered account references the target's instruction expects, the seed
/// tuples this program signs with on behalf of its derived addresses, and the
/// serialized payload.
#[derive(Debug)]
pub struct CpiInvocation {
    pub program_id: Address,
    pub accounts: Vec<AccountRef>,
    pub signer_seeds: Vec<Vec<Vec<u8>>>,
    pub data: Vec<u8>,
}

/// The mathematical shape of an assembled invocation.
pub struct CpiInvocationV {
    pub program_id: Seq<u8>,
    pub accounts: Seq<AccountRefV>,
    pub signer_seeds: Seq<Seq<Seq<u8>>>,
    pub data: Seq<u8>,
}

impl View for CpiInvocation {
    type V = CpiInvocationV;

    open spec fn view(&self) -> CpiInvocationV {
        CpiInvocationV {
            program_id: self.program_id@,
            accounts: self.accounts.deep_view(),
            signer_seeds: self.signer_seeds.deep_view(),
            data: self.data@,
        }
    }
}

/// The target identities this program is willing to invoke: exactly the
/// compiled-in dynamic AMM program.
pub open spec fn whitelisted(program_id: Seq<u8>) -> bool {
    program_id == known_dynamic_amm_program()
}

/// Binds an account list and a serialized payload to a target program,
/// attaching the seed tuples the runtime needs to accept this program's
/// signature on behalf of its derived addresses. Refuses any target that is
/// not whitelisted, before any account is touched.
pub fn build_signed_invocation(
    target: &Address,
    accounts: Vec<AccountRef>,
    signer_seeds: Vec<Vec<Vec<u8>>>,
    data: Vec<u8>,
) -> (r: Result<CpiInvocation, CpiError>)
    ensures
        r is Ok <==> whitelisted(target@),
        r matches Ok(inv) ==> inv@ == (CpiInvocationV {
            program_id: target@,
            accounts: accounts.deep_view(),
            signer_seeds: signer_seeds.deep_view(),
            data: data@,
        }),
        !whitelisted(target@) ==> r == Err::<CpiInvocation, CpiError>(CpiError::WhitelistViolation),
{
    if !(*target == dynamic_amm_program_id()) {
        return Err(CpiError::WhitelistViolation);
    }
    Ok(CpiInvocation { program_id: *target, accounts, signer_seeds, data })
}

/// Binds an account list and a serialized payload to a target program with no
/// signer seeds attached, for invocations authorized by the transaction's own
/// signers alone.
pub fn build_invocation(target: &Address, accounts: Vec<AccountRef>, data: Vec<u8>) -> (r: Result<
    CpiInvocation,
    CpiError,
>)
    ensures
        r is Ok <==> whitelisted(target@),
        r matches Ok(inv) ==> inv@ == (CpiInvocationV {
            program_id: target@,
            accounts: accounts.deep_view(),
            signer_seeds: Seq::empty(),
            data: data@,
        }),
        !whitelisted(target@) ==> r == Err::<CpiInvocation, CpiError>(CpiError::WhitelistViolation),
{
    let seeds: Vec<Vec<Vec<u8>>> = Vec::new();
    proof {
        assert(seeds.deep_view() =~= Seq::<Seq<Seq<u8>>>::empty());
    }
    build_signed_invocation(target, accounts, seeds, data)
}

/// Forwards a dispatched invocation's outcome unchanged: success propagates
/// as success, and a failure the external program reported propagates
/// verbatim as this layer's own failure, with no retry and no suppression.
pub fn propagate_outcome(outcome: Result<(), u64>) -> (r: Result<(), CpiError>)
    ensures
        r is Ok <==> outcome is Ok,
        outcome matches Err(code) ==> r == Err::<(), CpiError>(CpiError::ExternalRejection(code)),
{
    match outcome {
        Ok(_) => Ok(()),
        Err(code) => Err(CpiError::ExternalRejection(code)),
    }
}

} // verus!
