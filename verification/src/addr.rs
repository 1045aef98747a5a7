use vstd::prelude::*;

verus! {

/// A 32-byte on-chain address: a wallet public key, a program id, or a
/// program-derived address.
#[derive(Clone, Copy, Debug)]
pub struct Address {
    pub bytes: [u8; 32],
}

impl View for Address {
    type V = Seq<u8>;

    open spec fn view(&self) -> Seq<u8> {
        self.bytes@
    }
}

impl DeepView for Address {
    type V = Seq<u8>;

    open spec fn deep_view(&self) -> Seq<u8> {
        self@
    }
}

impl Address {
    pub fn new(bytes: [u8; 32]) -> (r: Address)
        ensures
            r@ == bytes@,
    {
        Address { bytes }
    }

    /// The 32 bytes of this address as a growable buffer, for use as a
    /// derivation seed.
    pub fn to_vec(&self) -> (r: Vec<u8>)
        ensures
            r@ == self@,
    {
        let mut out: Vec<u8> = Vec::new();
        let mut i: usize = 0;
        while i < 32
            invariant
                0 <= i <= 32,
                out@ =~= self.bytes@.take(i as int),
            decreases 32 - i,
        {
            out.push(self.bytes[i]);
            i = i + 1;
        }
        proof {
            assert(out@ =~= self.bytes@);
        }
        out
    }
}

impl PartialEq for Address {
    fn eq(&self, other: &Address) -> (r: bool) {
        let mut i: usize = 0;
        while i < 32
            invariant
                0 <= i <= 32,
                forall|j: int| 0 <= j < i ==> self.bytes@[j] == other.bytes@[j],
            decreases 32 - i,
        {
            if self.bytes[i] != other.bytes[i] {
                return false;
            }
            i = i + 1;
        }
        proof {
            assert(self.bytes@ =~= other.bytes@);
        }
        true
    }
}

impl vstd::std_specs::cmp::PartialEqSpecImpl for Address {
    open spec fn obeys_eq_spec() -> bool {
        true
    }

    open spec fn eq_spec(&self, other: &Address) -> bool {
        self@ == other@
    }
}

/// Strict lexicographic order on byte strings: `a` comes before `b` at the
/// first differing position, and a proper prefix comes before its extension.
pub open spec fn lex_lt(a: Seq<u8>, b: Seq<u8>) -> bool
    decreases a.len(),
{
    if a.len() == 0 {
        b.len() > 0
    } else if b.len() == 0 {
        false
    } else if a[0] < b[0] {
        true
    } else if a[0] > b[0] {
        false
    } else {
        lex_lt(a.drop_first(), b.drop_first())
    }
}

/// Two equal-length byte strings that agree up to position `i` and differ at
/// `i` are ordered by the bytes at `i`.
proof fn lemma_lex_lt_at(a: Seq<u8>, b: Seq<u8>, i: int)
    requires
        a.len() == b.len(),
        0 <= i < a.len(),
        forall|j: int| 0 <= j < i ==> a[j] == b[j],
        a[i] < b[i],
    ensures
        lex_lt(a, b),
    decreases i,
{
    if i == 0 {
    } else {
        lemma_lex_lt_at(a.drop_first(), b.drop_first(), i - 1);
    }
}

/// Equal byte strings are not strictly ordered.
proof fn lemma_lex_irrefl(a: Seq<u8>)
    ensures
        !lex_lt(a, a),
    decreases a.len(),
{
    if a.len() > 0 {
        lemma_lex_irrefl(a.drop_first());
    }
}

/// Compares two addresses byte-wise, lexicographically.
pub fn addr_lt(a: &Address, b: &Address) -> (r: bool)
    ensures
        r == lex_lt(a@, b@),
{
    let mut i: usize = 0;
    while i < 32
        invariant
            0 <= i <= 32,
            forall|j: int| 0 <= j < i ==> a.bytes@[j] == b.bytes@[j],
        decreases 32 - i,
    {
        if a.bytes[i] < b.bytes[i] {
            proof {
                lemma_lex_lt_at(a@, b@, i as int);
            }
            return true;
        }
        if a.bytes[i] > b.bytes[i] {
            proof {
                lemma_lex_lt_at(b@, a@, i as int);
                lemma_lex_asymm(b@, a@);
            }
            return false;
        }
        i = i + 1;
    }
    proof {
        assert(a@ =~= b@);
        lemma_lex_irrefl(a@);
    }
    false
}

/// Strict lexicographic order is asymmetric.
proof fn lemma_lex_asymm(a: Seq<u8>, b: Seq<u8>)
    requires
        lex_lt(a, b),
    ensures
        !lex_lt(b, a),
    decreases a.len(),
{
    if a.len() > 0 && b.len() > 0 && a[0] == b[0] {
        lemma_lex_asymm(a.drop_first(), b.drop_first());
    }
}

/// The later of two addresses in lexicographic order; `a` when they are equal.
pub open spec fn spec_max_key(a: Seq<u8>, b: Seq<u8>) -> Seq<u8> {
    if lex_lt(a, b) {
        b
    } else {
        a
    }
}

/// The earlier of two addresses in lexicographic order; `b` when they are equal.
pub open spec fn spec_min_key(a: Seq<u8>, b: Seq<u8>) -> Seq<u8> {
    if lex_lt(a, b) {
        a
    } else {
        b
    }
}

pub fn max_key(a: &Address, b: &Address) -> (r: Address)
    ensures
        r@ == spec_max_key(a@, b@),
{
    if addr_lt(a, b) {
        *b
    } else {
        *a
    }
}

pub fn min_key(a: &Address, b: &Address) -> (r: Address)
    ensures
        r@ == spec_min_key(a@, b@),
{
    if addr_lt(a, b) {
        *a
    } else {
        *b
    }
}

} // verus!
