//! Token identifiers: EGLD, or the ticker of an ESDT token.
use vstd::prelude::*;

verus! {

/// The identifier of a fungible token, as the bytes of MultiversX's `EgldOrEsdtTokenIdentifier`.
/// EGLD itself is written `EGLD-000000`.
#[derive(Clone, Debug, PartialEq, Eq)]
pub struct TokenId {
    pub bytes: Vec<u8>,
}

impl View for TokenId {
    type V = Seq<u8>;

    open spec fn view(&self) -> Seq<u8> {
        self.bytes@
    }
}

/// The bytes of `EGLD-000000`.
pub open spec fn egld_view() -> Seq<u8> {
    seq![69u8, 71u8, 76u8, 68u8, 45u8, 48u8, 48u8, 48u8, 48u8, 48u8, 48u8]
}

/// The identifier under which MultiversX writes EGLD, `multiversx_chain_core::EGLD_000000_TOKEN_IDENTIFIER`.
/// Trusted: its contract says that the constant reads `EGLD-000000`, as the crate's source defines it.
#[verifier::external_body]
fn egld_identifier_bytes() -> (r: Vec<u8>)
    ensures
        r@ == egld_view(),
{
    multiversx_sc::chain_core::EGLD_000000_TOKEN_IDENTIFIER.as_bytes().to_vec()
}

/// Whether two byte strings are equal.
pub fn bytes_equal(a: &Vec<u8>, b: &Vec<u8>) -> (r: bool)
    ensures
        r == (a@ == b@),
{
    if a.len() != b.len() {
        return false;
    }
    let mut i: usize = 0;
    while i < a.len()
        invariant
            i <= a@.len(),
            a@.len() == b@.len(),
            forall|j: int| 0 <= j < i ==> a@[j] == b@[j],
        decreases a@.len() - i,
    {
        if a[i] != b[i] {
            return false;
        }
        i = i + 1;
    }
    proof {
        assert(a@ =~= b@);
    }
    true
}

/// A copy of a byte string.
pub fn copy_bytes(a: &Vec<u8>) -> (r: Vec<u8>)
    ensures
        r@ == a@,
{
    let mut r: Vec<u8> = Vec::new();
    let mut i: usize = 0;
    while i < a.len()
        invariant
            i <= a@.len(),
            r@ =~= a@.subrange(0, i as int),
        decreases a@.len() - i,
    {
        r.push(a[i]);
        i = i + 1;
    }
    proof {
        assert(r@ =~= a@);
    }
    r
}

impl TokenId {
    /// The identifier of EGLD.
    pub fn egld() -> (r: TokenId)
        ensures
            r@ == egld_view(),
    {
        TokenId { bytes: egld_identifier_bytes() }
    }

    /// The identifier with the given bytes.
    pub fn new(bytes: Vec<u8>) -> (r: TokenId)
        ensures
            r@ == bytes@,
    {
        TokenId { bytes }
    }

    /// Whether this identifier names EGLD.
    pub fn is_egld(&self) -> (r: bool)
        ensures
            r == (self@ == egld_view()),
    {
        let e = egld_identifier_bytes();
        bytes_equal(&self.bytes, &e)
    }

    /// Whether the two identifiers name the same token.
    pub fn same_as(&self, other: &TokenId) -> (r: bool)
        ensures
            r == (self@ == other@),
    {
        bytes_equal(&self.bytes, &other.bytes)
    }

    /// A copy of this identifier.
    pub fn duplicate(&self) -> (r: TokenId)
        ensures
            r@ == self@,
    {
        TokenId { bytes: copy_bytes(&self.bytes) }
    }
}

} // verus!
