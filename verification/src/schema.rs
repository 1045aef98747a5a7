use vstd::prelude::*;
use crate::addr::Address;

verus! {

/// One supplied account slot: its identity and the authority flags it was
/// provided with.
#[derive(Clone, Copy, Debug)]
pub struct AccountRef {
    pub key: Address,
    pub is_writable: bool,
    pub is_signer: bool,
}

/// The mathematical shape of an account slot.
pub struct AccountRefV {
    pub key: Seq<u8>,
    pub is_writable: bool,
    pub is_signer: bool,
}

impl View for AccountRef {
    type V = AccountRefV;

    open spec fn view(&self) -> AccountRefV {
        AccountRefV { key: self.key@, is_writable: self.is_writable, is_signer: self.is_signer }
    }
}

impl DeepView for AccountRef {
    type V = AccountRefV;

    open spec fn deep_view(&self) -> AccountRefV {
        self@
    }
}

impl AccountRef {
    pub fn new(key: Address, is_writable: bool, is_signer: bool) -> (r: AccountRef)
        ensures
            r@ == (AccountRefV { key: key@, is_writable, is_signer }),
    {
        AccountRef { key, is_writable, is_signer }
    }
}

/// What a schema requires of one slot's identity: any address, or one fixed
/// well-known address.
#[derive(Clone, Copy, Debug)]
pub enum IdentityRule {
    Any,
    Fixed(Address),
}

/// What an instruction's schema requires of one slot.
#[derive(Clone, Copy, Debug)]
pub struct SlotSpec {
    pub writable: bool,
    pub signer: bool,
    pub identity: IdentityRule,
}

/// The mathematical shape of one slot requirement.
pub struct SlotSpecV {
    pub writable: bool,
    pub signer: bool,
    pub identity: Option<Seq<u8>>,
}

impl View for SlotSpec {
    type V = SlotSpecV;

    open spec fn view(&self) -> SlotSpecV {
        SlotSpecV {
            writable: self.writable,
            signer: self.signer,
            identity: match self.identity {
                IdentityRule::Any => None,
                IdentityRule::Fixed(a) => Some(a@),
            },
        }
    }
}

impl DeepView for SlotSpec {
    type V = SlotSpecV;

    open spec fn deep_view(&self) -> SlotSpecV {
        self@
    }
}

impl SlotSpec {
    /// A slot that may hold any address.
    pub fn any(writable: bool) -> (r: SlotSpec)
        ensures
            r@ == (SlotSpecV { writable, signer: false, identity: None }),
    {
        SlotSpec { writable, signer: false, identity: IdentityRule::Any }
    }

    /// A slot that must be provided with signer authority.
    pub fn signer(writable: bool) -> (r: SlotSpec)
        ensures
            r@ == (SlotSpecV { writable, signer: true, identity: None }),
    {
        SlotSpec { writable, signer: true, identity: IdentityRule::Any }
    }

    /// A slot that must hold one fixed well-known address.
    pub fn fixed(key: Address) -> (r: SlotSpec)
        ensures
            r@ == (SlotSpecV { writable: false, signer: false, identity: Some(key@) }),
    {
        SlotSpec { writable: false, signer: false, identity: IdentityRule::Fixed(key) }
    }
}

/// A supplied slot satisfies a slot requirement: required flags are present
/// and a fixed identity matches.
pub open spec fn slot_ok(a: AccountRefV, s: SlotSpecV) -> bool {
    &&& s.writable ==> a.is_writable
    &&& s.signer ==> a.is_signer
    &&& match s.identity {
        Some(k) => a.key == k,
        None => true,
    }
}

/// A supplied account sequence exactly matches a schema: same count, and every
/// slot satisfies its requirement.
pub open spec fn refs_match(accs: Seq<AccountRefV>, schema: Seq<SlotSpecV>) -> bool {
    &&& accs.len() == schema.len()
    &&& forall|i: int| 0 <= i < accs.len() ==> slot_ok(#[trigger] accs[i], schema[i])
}

/// A mismatch between a supplied account sequence and an instruction's
/// declared schema, found before anything is dispatched.
#[derive(Clone, Copy, Debug, PartialEq, Eq, Structural)]
pub enum SchemaError {
    /// The number of supplied accounts differs from the schema's size.
    WrongCount,
    /// The slot at this position was not provided with signer authority.
    MissingSigner(usize),
    /// The slot at this position was not provided as writable.
    MissingWritable(usize),
    /// The slot at this position must hold a fixed well-known address and
    /// holds another.
    WrongIdentity(usize),
}

/// The verdict on one slot: identity first, then the signer flag, then
/// the writable flag.
pub open spec fn slot_verdict(a: AccountRefV, s: SlotSpecV, i: usize) -> Result<(), SchemaError> {
    if s.identity is Some && a.key != s.identity->0 {
        Err(SchemaError::WrongIdentity(i))
    } else if s.signer && !a.is_signer {
        Err(SchemaError::MissingSigner(i))
    } else if s.writable && !a.is_writable {
        Err(SchemaError::MissingWritable(i))
    } else {
        Ok(())
    }
}

/// The verdict on slots from position `i` on: the error of the first slot that
/// fails its requirement, if any.
pub open spec fn slots_verdict_from(
    accs: Seq<AccountRefV>,
    schema: Seq<SlotSpecV>,
    i: int,
) -> Result<(), SchemaError>
    decreases accs.len() - i,
{
    if i < 0 || i >= accs.len() {
        Ok(())
    } else if slot_ok(accs[i], schema[i]) {
        slots_verdict_from(accs, schema, i + 1)
    } else {
        slot_verdict(accs[i], schema[i], i as usize)
    }
}

/// The verdict on a whole supplied account sequence: a count mismatch, or the
/// first failing slot's error, or success.
pub open spec fn schema_verdict(
    accs: Seq<AccountRefV>,
    schema: Seq<SlotSpecV>,
) -> Result<(), SchemaError> {
    if accs.len() != schema.len() {
        Err(SchemaError::WrongCount)
    } else {
        slots_verdict_from(accs, schema, 0)
    }
}

/// When every slot before `i` satisfies its requirement, the verdict from 0
/// equals the verdict from `i`.
proof fn lemma_slots_verdict_skip(accs: Seq<AccountRefV>, schema: Seq<SlotSpecV>, i: int)
    requires
        accs.len() == schema.len(),
        0 <= i <= accs.len(),
        forall|j: int| 0 <= j < i ==> slot_ok(#[trigger] accs[j], schema[j]),
    ensures
        slots_verdict_from(accs, schema, 0) == slots_verdict_from(accs, schema, i),
    decreases i,
{
    if i > 0 {
        lemma_slots_verdict_skip(accs, schema, i - 1);
    }
}

/// The verdict from `i` is success exactly when every slot from `i` on
/// satisfies its requirement.
proof fn lemma_slots_verdict_ok(accs: Seq<AccountRefV>, schema: Seq<SlotSpecV>, i: int)
    requires
        accs.len() == schema.len(),
        0 <= i <= accs.len(),
    ensures
        slots_verdict_from(accs, schema, i) is Ok <==> forall|j: int|
            i <= j < accs.len() ==> slot_ok(#[trigger] accs[j], schema[j]),
    decreases accs.len() - i,
{
    if i < accs.len() {
        lemma_slots_verdict_ok(accs, schema, i + 1);
        if !slot_ok(accs[i], schema[i]) {
            assert(slot_verdict(accs[i], schema[i], i as usize) is Err);
        }
    }
}

/// Success of the whole verdict is exactly a schema match.
pub proof fn lemma_schema_verdict_ok(accs: Seq<AccountRefV>, schema: Seq<SlotSpecV>)
    ensures
        schema_verdict(accs, schema) is Ok <==> refs_match(accs, schema),
{
    if accs.len() == schema.len() {
        lemma_slots_verdict_ok(accs, schema, 0);
    }
}

fn check_slot(a: &AccountRef, s: &SlotSpec, i: usize) -> (r: Result<(), SchemaError>)
    ensures
        r == slot_verdict(a@, s@, i),
        r is Ok <==> slot_ok(a@, s@),
{
    match &s.identity {
        IdentityRule::Fixed(k) => {
            if !(a.key == *k) {
                return Err(SchemaError::WrongIdentity(i));
            }
        },
        IdentityRule::Any => {},
    }
    if s.signer && !a.is_signer {
        return Err(SchemaError::MissingSigner(i));
    }
    if s.writable && !a.is_writable {
        return Err(SchemaError::MissingWritable(i));
    }
    Ok(())
}

/// Validates a supplied account sequence against an instruction's schema.
/// Succeeds exactly on a schema match; otherwise reports the count mismatch or
/// the first failing slot, with nothing dispatched and nothing changed.
pub fn validate_refs(accs: &Vec<AccountRef>, schema: &Vec<SlotSpec>) -> (r: Result<
    (),
    SchemaError,
>)
    ensures
        r == schema_verdict(accs.deep_view(), schema.deep_view()),
        r is Ok <==> refs_match(accs.deep_view(), schema.deep_view()),
{
    proof {
        lemma_schema_verdict_ok(accs.deep_view(), schema.deep_view());
    }
    let ghost gaccs = accs.deep_view();
    let ghost gschema = schema.deep_view();
    if accs.len() != schema.len() {
        return Err(SchemaError::WrongCount);
    }
    let n = accs.len();
    let mut i: usize = 0;
    while i < n
        invariant
            0 <= i <= n,
            n == gaccs.len(),
            n == gschema.len(),
            gaccs == accs.deep_view(),
            gschema == schema.deep_view(),
            forall|j: int| 0 <= j < i ==> slot_ok(#[trigger] gaccs[j], gschema[j]),
        decreases n - i,
    {
        let verdict = check_slot(&accs[i], &schema[i], i);
        match verdict {
            Err(e) => {
                proof {
                    lemma_slots_verdict_skip(gaccs, gschema, i as int);
                }
                return Err(e);
            },
            Ok(_) => {},
        }
        i = i + 1;
    }
    proof {
        lemma_slots_verdict_skip(gaccs, gschema, n as int);
    }
    Ok(())
}

} // verus!
