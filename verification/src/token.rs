use vstd::prelude::*;

verus! {

/// An unsigned 160-bit quantity, held as its upper 32 bits and its lower 128 bits.
///
/// Account identifiers and packed square-root prices are both of this width.
#[derive(Clone, Copy, Debug, PartialEq, Eq, Structural)]
pub struct U160 {
    pub hi: u32,
    pub lo: u128,
}

/// Two to the power 128: the weight of the upper word of a `U160`.
pub open spec fn upper_word_weight() -> nat {
    (u128::MAX as nat) + 1
}

/// The number that a sequence of bytes stands for, most significant byte
/// first.
pub open spec fn be_value(bytes: Seq<u8>) -> nat
    decreases bytes.len(),
{
    if bytes.len() == 0 {
        0
    } else {
        be_value(bytes.drop_last()) * 256 + bytes.last() as nat
    }
}

/// 256 to the power `k`: the weight of the byte that `k` bytes follow.
pub open spec fn pow256(k: nat) -> nat
    decreases k,
{
    if k == 0 {
        1
    } else {
        256 * pow256((k - 1) as nat)
    }
}

/// The 160-bit quantity with the given value.
pub open spec fn words_of(value: nat) -> U160 {
    U160 {
        hi: (value / upper_word_weight()) as u32,
        lo: (value % upper_word_weight()) as u128,
    }
}

impl U160 {
    /// The number that the two words stand for.
    pub open spec fn value(self) -> nat {
        (self.hi as nat) * upper_word_weight() + (self.lo as nat)
    }

    pub fn new(hi: u32, lo: u128) -> (r: U160)
        ensures
            r.hi == hi,
            r.lo == lo,
            r.value() == (hi as nat) * upper_word_weight() + (lo as nat),
    {
        U160 { hi, lo }
    }

    /// A quantity that fits in the lower word.
    pub fn from_u128(lo: u128) -> (r: U160)
        ensures
            r.value() == lo as nat,
            r.hi == 0,
            r.lo == lo,
    {
        U160 { hi: 0, lo }
    }

    /// The quantity that twenty bytes stand for, most significant byte first:
    /// the form in which an account identifier is written.
    pub fn from_be_bytes(bytes: &[u8; 20]) -> (r: U160)
        ensures
            r.value() == be_value(bytes@),
            r == words_of(be_value(bytes@)),
    {
        let mut hi: u32 = 0;
        let mut i: usize = 0;
        proof {
            reveal_with_fuel(pow256, 5);
            assert(bytes@.take(0) =~= Seq::<u8>::empty());
        }
        while i < 4
            invariant
                i <= 4,
                hi as nat == be_value(bytes@.take(i as int)),
                (hi as nat) < pow256(i as nat),
                pow256(4) == 0x1_0000_0000,
            decreases 4 - i,
        {
            let b = bytes[i];
            proof {
                let next = bytes@.take(i + 1);
                assert(next.drop_last() =~= bytes@.take(i as int));
                assert(next.last() == b);
                lemma_pow256_monotonic((i + 1) as nat, 4);
                let h = hi as nat;
                let p = pow256(i as nat);
                assert(h * 256 + 255 < 256 * p) by (nonlinear_arith)
                    requires
                        h < p,
                ;
            }
            hi = hi * 256 + b as u32;
            i = i + 1;
        }
        let mut lo: u128 = 0;
        proof {
            lemma_pow256_sixteen();
            assert(pow256(0) == 1);
            assert((hi as nat) * pow256(0) == hi as nat) by (nonlinear_arith)
                requires
                    pow256(0) == 1,
            ;
        }
        while i < 20
            invariant
                4 <= i <= 20,
                (hi as nat) * pow256((i - 4) as nat) + (lo as nat) == be_value(
                    bytes@.take(i as int),
                ),
                (lo as nat) < pow256((i - 4) as nat),
                pow256(16) == upper_word_weight(),
            decreases 20 - i,
        {
            let b = bytes[i];
            proof {
                let next = bytes@.take(i + 1);
                assert(next.drop_last() =~= bytes@.take(i as int));
                assert(next.last() == b);
                lemma_pow256_monotonic((i - 3) as nat, 16);
                let h = hi as nat;
                let l = lo as nat;
                let p = pow256((i - 4) as nat);
                assert(pow256((i - 3) as nat) == 256 * p);
                assert(l * 256 + 255 < 256 * p) by (nonlinear_arith)
                    requires
                        l < p,
                ;
                assert((h * p + l) * 256 == h * (256 * p) + l * 256) by (nonlinear_arith);
            }
            lo = lo * 256 + b as u128;
            i = i + 1;
        }
        proof {
            assert(bytes@.take(20) =~= bytes@);
            lemma_words_of_value(U160 { hi, lo });
        }
        U160 { hi, lo }
    }

    pub fn is_zero(&self) -> (r: bool)
        ensures
            r == (self.value() == 0),
    {
        proof {
            lemma_value_bounds(*self);
        }
        self.hi == 0 && self.lo == 0
    }

    /// Whether `self` is numerically smaller than `other`.
    pub fn lt(&self, other: &U160) -> (r: bool)
        ensures
            r == (self.value() < other.value()),
    {
        proof {
            lemma_value_order(*self, *other);
        }
        self.hi < other.hi || (self.hi == other.hi && self.lo < other.lo)
    }
}

/// A power of 256 is at least one, and grows with its exponent.
pub proof fn lemma_pow256_monotonic(a: nat, b: nat)
    requires
        a <= b,
    ensures
        1 <= pow256(a) <= pow256(b),
    decreases b,
{
    if a == 0 {
        if b > 0 {
            lemma_pow256_monotonic(0, (b - 1) as nat);
        }
    } else {
        lemma_pow256_monotonic((a - 1) as nat, (b - 1) as nat);
    }
}

/// Sixteen bytes fill the lower word exactly.
pub proof fn lemma_pow256_sixteen()
    ensures
        pow256(16) == upper_word_weight(),
{
    reveal_with_fuel(pow256, 17);
}

/// The value of a `U160` lies between the contribution of its upper word and
/// the next multiple of the upper word's weight.
pub proof fn lemma_value_bounds(x: U160)
    ensures
        (x.hi as nat) * upper_word_weight() <= x.value(),
        x.value() < (x.hi as nat + 1) * upper_word_weight(),
        x.value() == 0 <==> (x.hi == 0 && x.lo == 0),
{
    let w = upper_word_weight();
    let h = x.hi as nat;
    assert((h + 1) * w == h * w + w) by (nonlinear_arith);
    if h > 0 {
        assert(h * w >= w) by (nonlinear_arith)
            requires
                h >= 1,
                w >= 0,
        ;
    } else {
        assert(h * w == 0) by (nonlinear_arith)
            requires
                h == 0,
        ;
    }
}

/// A 160-bit quantity is the one that its value names.
pub proof fn lemma_words_of_value(x: U160)
    ensures
        words_of(x.value()) == x,
{
    let w = upper_word_weight() as int;
    vstd::arithmetic::div_mod::lemma_fundamental_div_mod_converse(
        x.value() as int,
        w,
        x.hi as int,
        x.lo as int,
    );
}

/// Values are ordered as their words are: by the upper word first, then by
/// the lower one.
pub proof fn lemma_value_order(x: U160, y: U160)
    ensures
        x.value() < y.value() <==> (x.hi < y.hi || (x.hi == y.hi && x.lo < y.lo)),
{
    lemma_value_bounds(x);
    lemma_value_bounds(y);
    let w = upper_word_weight();
    let a = x.hi as nat;
    let b = y.hi as nat;
    if a < b {
        assert((a + 1) * w <= b * w) by (nonlinear_arith)
            requires
                a + 1 <= b,
                w >= 0,
        ;
    }
    if b < a {
        assert((b + 1) * w <= a * w) by (nonlinear_arith)
            requires
                b + 1 <= a,
                w >= 0,
        ;
    }
}

/// Two 160-bit quantities with the same value have the same words.
pub proof fn lemma_value_injective(x: U160, y: U160)
    ensures
        x.value() == y.value() <==> x == y,
{
    lemma_value_order(x, y);
    lemma_value_order(y, x);
}

/// A token: the account it lives at and the number of decimals of its quantities.
#[derive(Clone, Copy, Debug, PartialEq, Eq, Structural)]
pub struct TokenRef {
    pub address: U160,
    pub decimals: u8,
}

/// The canonical order of two tokens: the one at the numerically smaller
/// address comes first and is the pool's token0.
pub open spec fn precedes(a: TokenRef, b: TokenRef) -> bool {
    a.address.value() < b.address.value()
}

impl TokenRef {
    pub fn new(address: U160, decimals: u8) -> (r: TokenRef)
        ensures
            r.address == address,
            r.decimals == decimals,
    {
        TokenRef { address, decimals }
    }

    /// Whether `self` is token0 of the pool that it forms with `other`.
    pub fn is_token0_with(&self, other: &TokenRef) -> (r: bool)
        ensures
            r == precedes(*self, *other),
    {
        self.address.lt(&other.address)
    }
}

/// The canonical order is a strict total order on addresses: no token precedes
/// itself, of two tokens at different addresses exactly one precedes the other,
/// and the order is transitive.
pub proof fn lemma_token_order_strict_total(a: TokenRef, b: TokenRef, c: TokenRef)
    ensures
        !precedes(a, a),
        a.address != b.address ==> (precedes(a, b) != precedes(b, a)),
        a.address == b.address ==> (!precedes(a, b) && !precedes(b, a)),
        precedes(a, b) && precedes(b, c) ==> precedes(a, c),
{
    lemma_value_injective(a.address, b.address);
}

/// The canonical order looks at addresses alone: decimals play no part in it.
pub proof fn lemma_token_order_ignores_decimals(a: TokenRef, b: TokenRef, da: u8, db: u8)
    ensures
        precedes(a, b) == precedes(
            TokenRef { address: a.address, decimals: da },
            TokenRef { address: b.address, decimals: db },
        ),
{
}

} // verus!
