//! Token amounts: unbounded natural numbers held as canonical big-endian bytes.
use vstd::prelude::*;

verus! {

/// `256` raised to `n`.
pub open spec fn pow256(n: nat) -> nat
    decreases n,
{
    if n == 0 {
        1
    } else {
        256 * pow256((n - 1) as nat)
    }
}

/// The number that a big-endian byte string denotes.
pub open spec fn be_value(s: Seq<u8>) -> nat
    decreases s.len(),
{
    if s.len() == 0 {
        0
    } else {
        s[0] as nat * pow256((s.len() - 1) as nat) + be_value(s.drop_first())
    }
}

/// A big-endian byte string without leading zero bytes.
pub open spec fn canonical(s: Seq<u8>) -> bool {
    s.len() == 0 || s[0] != 0
}

/// Lexicographic "strictly before" on two byte strings of the same length.
pub open spec fn lex_lt(s: Seq<u8>, t: Seq<u8>) -> bool
    decreases s.len(),
{
    if s.len() == 0 || t.len() == 0 {
        false
    } else if s[0] < t[0] {
        true
    } else if s[0] > t[0] {
        false
    } else {
        lex_lt(s.drop_first(), t.drop_first())
    }
}

pub proof fn lemma_pow256_positive(n: nat)
    ensures
        pow256(n) >= 1,
    decreases n,
{
    if n > 0 {
        lemma_pow256_positive((n - 1) as nat);
    }
}

/// A string of `n` bytes denotes a number below `256^n`.
pub proof fn lemma_be_value_upper(s: Seq<u8>)
    ensures
        be_value(s) < pow256(s.len()),
    decreases s.len(),
{
    if s.len() > 0 {
        let p = pow256((s.len() - 1) as nat);
        lemma_be_value_upper(s.drop_first());
        assert(s[0] as nat * p <= 255 * p) by (nonlinear_arith)
            requires
                s[0] <= 255,
        ;
    }
}

/// A canonical string of `n > 0` bytes denotes at least `256^(n-1)`.
pub proof fn lemma_be_value_lower(s: Seq<u8>)
    requires
        s.len() > 0,
        s[0] != 0,
    ensures
        be_value(s) >= pow256((s.len() - 1) as nat),
{
    let p = pow256((s.len() - 1) as nat);
    assert(s[0] as nat * p >= p) by (nonlinear_arith)
        requires
            s[0] >= 1,
    ;
}

/// Between strings of the same length, lexicographic order is numeric order.
pub proof fn lemma_lex_lt_is_numeric(s: Seq<u8>, t: Seq<u8>)
    requires
        s.len() == t.len(),
    ensures
        lex_lt(s, t) <==> be_value(s) < be_value(t),
    decreases s.len(),
{
    if s.len() > 0 {
        let p = pow256((s.len() - 1) as nat);
        lemma_be_value_upper(s.drop_first());
        lemma_be_value_upper(t.drop_first());
        lemma_lex_lt_is_numeric(s.drop_first(), t.drop_first());
        let a = s[0] as nat;
        let b = t[0] as nat;
        let x = be_value(s.drop_first());
        let y = be_value(t.drop_first());
        if a < b {
            assert(a * p + x < b * p + y) by (nonlinear_arith)
                requires
                    a < b,
                    x < p,
            ;
        } else if a > b {
            assert(b * p + y < a * p + x) by (nonlinear_arith)
                requires
                    a > b,
                    y < p,
            ;
        }
    }
}

/// Between canonical strings, a shorter one denotes a smaller number.
pub proof fn lemma_shorter_is_smaller(s: Seq<u8>, t: Seq<u8>)
    requires
        canonical(t),
        s.len() < t.len(),
    ensures
        be_value(s) < be_value(t),
{
    lemma_be_value_upper(s);
    lemma_be_value_lower(t);
    lemma_pow256_monotonic(s.len(), (t.len() - 1) as nat);
}

pub proof fn lemma_pow256_monotonic(m: nat, n: nat)
    requires
        m <= n,
    ensures
        pow256(m) <= pow256(n),
    decreases n,
{
    if m < n {
        lemma_pow256_monotonic(m, (n - 1) as nat);
        lemma_pow256_positive((n - 1) as nat);
    }
}

/// Canonical strings that denote the same number are the same string.
pub proof fn lemma_canonical_unique(s: Seq<u8>, t: Seq<u8>)
    requires
        canonical(s),
        canonical(t),
        be_value(s) == be_value(t),
    ensures
        s == t,
{
    if s.len() < t.len() {
        lemma_shorter_is_smaller(s, t);
    } else if t.len() < s.len() {
        lemma_shorter_is_smaller(t, s);
    } else {
        lemma_equal_value_same_length(s, t);
    }
}

proof fn lemma_equal_value_same_length(s: Seq<u8>, t: Seq<u8>)
    requires
        s.len() == t.len(),
        be_value(s) == be_value(t),
    ensures
        s == t,
    decreases s.len(),
{
    if s.len() > 0 {
        lemma_lex_lt_is_numeric(s, t);
        lemma_lex_lt_is_numeric(t, s);
        assert(s[0] == t[0]);
        lemma_equal_value_same_length(s.drop_first(), t.drop_first());
        assert(s =~= seq![s[0]] + s.drop_first());
        assert(t =~= seq![t[0]] + t.drop_first());
    } else {
        assert(s =~= t);
    }
}

/// A leading zero byte does not change the number.
proof fn lemma_skip_zero(s: Seq<u8>)
    requires
        s.len() > 0,
        s[0] == 0,
    ensures
        be_value(s) == be_value(s.drop_first()),
{
}

/// An amount of a token, as the unbounded natural number that MultiversX's `BigUint` holds.
#[derive(Debug, PartialEq, Eq)]
pub struct Amount {
    be: Vec<u8>,
}

impl View for Amount {
    type V = nat;

    closed spec fn view(&self) -> nat {
        be_value(self.be@)
    }
}

impl Amount {
    #[verifier::type_invariant]
    spec fn well_formed(self) -> bool {
        canonical(self.be@)
    }

    /// The bytes that make up this amount, most significant first, without leading zeros.
    pub closed spec fn bytes_view(&self) -> Seq<u8> {
        self.be@
    }

    /// The amount zero.
    pub fn zero() -> (r: Amount)
        ensures
            r@ == 0,
    {
        Amount { be: Vec::new() }
    }

    /// The amount that `bytes` denote, read as a big-endian number; leading zeros are allowed.
    pub fn from_bytes_be(bytes: &[u8]) -> (r: Amount)
        ensures
            r@ == be_value(bytes@),
    {
        let n = bytes.len();
        let mut k: usize = 0;
        proof {
            assert(bytes@.subrange(0, n as int) =~= bytes@);
        }
        while k < n && bytes[k] == 0
            invariant
                k <= n,
                n == bytes@.len(),
                be_value(bytes@) == be_value(bytes@.subrange(k as int, n as int)),
            decreases n - k,
        {
            proof {
                let rest = bytes@.subrange(k as int, n as int);
                lemma_skip_zero(rest);
                assert(rest.drop_first() =~= bytes@.subrange(k + 1, n as int));
            }
            k = k + 1;
        }
        let mut be: Vec<u8> = Vec::new();
        let mut i: usize = k;
        while i < n
            invariant
                k <= i <= n,
                n == bytes@.len(),
                be@ =~= bytes@.subrange(k as int, i as int),
            decreases n - i,
        {
            be.push(bytes[i]);
            i = i + 1;
        }
        proof {
            assert(be@ =~= bytes@.subrange(k as int, n as int));
        }
        Amount { be }
    }

    /// The amount as big-endian bytes without leading zeros (empty for zero).
    pub fn to_bytes_be(&self) -> (r: Vec<u8>)
        ensures
            be_value(r@) == self@,
            canonical(r@),
            r@ == self.bytes_view(),
    {
        proof {
            use_type_invariant(self);
        }
        let mut r: Vec<u8> = Vec::new();
        let mut i: usize = 0;
        while i < self.be.len()
            invariant
                i <= self.be@.len(),
                r@ =~= self.be@.subrange(0, i as int),
            decreases self.be@.len() - i,
        {
            r.push(self.be[i]);
            i = i + 1;
        }
        proof {
            assert(r@ =~= self.be@);
        }
        r
    }

    /// Whether the amount is zero.
    pub fn is_zero(&self) -> (r: bool)
        ensures
            r == (self@ == 0),
    {
        proof {
            use_type_invariant(self);
            if self.be@.len() > 0 {
                lemma_be_value_lower(self.be@);
                lemma_pow256_positive((self.be@.len() - 1) as nat);
            }
        }
        self.be.len() == 0
    }

    /// Whether this amount is strictly below `other`.
    pub fn is_less_than(&self, other: &Amount) -> (r: bool)
        ensures
            r == (self@ < other@),
    {
        proof {
            use_type_invariant(self);
            use_type_invariant(other);
        }
        let a = &self.be;
        let b = &other.be;
        if a.len() < b.len() {
            proof {
                lemma_shorter_is_smaller(a@, b@);
            }
            return true;
        }
        if b.len() < a.len() {
            proof {
                lemma_shorter_is_smaller(b@, a@);
            }
            return false;
        }
        let n = a.len();
        proof {
            lemma_lex_lt_is_numeric(a@, b@);
            assert(a@.subrange(0, n as int) =~= a@);
            assert(b@.subrange(0, n as int) =~= b@);
        }
        let mut i: usize = 0;
        while i < n
            invariant
                i <= n,
                n == a@.len(),
                n == b@.len(),
                a@ == self.be@,
                b@ == other.be@,
                lex_lt(a@, b@) <==> self@ < other@,
                lex_lt(a@, b@) == lex_lt(
                    a@.subrange(i as int, n as int),
                    b@.subrange(i as int, n as int),
                ),
            decreases n - i,
        {
            let x = a[i];
            let y = b[i];
            proof {
                assert(a@.subrange(i as int, n as int)[0] == x);
                assert(b@.subrange(i as int, n as int)[0] == y);
            }
            if x < y {
                return true;
            }
            if x > y {
                return false;
            }
            proof {
                assert(a@.subrange(i as int, n as int).drop_first() =~= a@.subrange(
                    i + 1,
                    n as int,
                ));
                assert(b@.subrange(i as int, n as int).drop_first() =~= b@.subrange(
                    i + 1,
                    n as int,
                ));
            }
            i = i + 1;
        }
        false
    }

    /// Whether this amount is at least `other`.
    pub fn is_at_least(&self, other: &Amount) -> (r: bool)
        ensures
            r == (self@ >= other@),
    {
        !self.is_less_than(other)
    }

    /// Whether this amount is strictly above `other`.
    pub fn is_greater_than(&self, other: &Amount) -> (r: bool)
        ensures
            r == (self@ > other@),
    {
        other.is_less_than(self)
    }

    /// Whether the two amounts are the same number.
    pub fn same_as(&self, other: &Amount) -> (r: bool)
        ensures
            r == (self@ == other@),
    {
        !self.is_less_than(other) && !other.is_less_than(self)
    }

    /// A copy of this amount.
    pub fn duplicate(&self) -> (r: Amount)
        ensures
            r@ == self@,
            r.bytes_view() == self.bytes_view(),
    {
        proof {
            use_type_invariant(self);
        }
        let be = self.to_bytes_be();
        Amount { be }
    }
}

} // verus!
