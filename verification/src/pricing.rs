use vstd::prelude::*;
use vstd::arithmetic::power2::pow2;
use vstd::arithmetic::power2::lemma_pow2_pos;
use crate::token::U160;
use crate::token::TokenRef;
use crate::token::precedes;
use crate::token::lemma_value_injective;
use crate::normalize::PriceError;
use crate::normalize::COMMON_DECIMALS;
use crate::normalize::normalize;
use crate::normalize::normalized;
use crate::normalize::decimal_distance;
use crate::normalize::pow10;
use crate::normalize::lemma_pow10_add;
use crate::normalize::lemma_pow10_monotonic;
use crate::normalize::lemma_normalization_scale_consistent;

verus! {

/// What a constant-product pool holds: the raw reserves of token0 and token1,
/// each in its own token's decimals.
#[derive(Clone, Copy, Debug, PartialEq, Eq, Structural)]
pub struct ReserveState {
    pub reserve0: u128,
    pub reserve1: u128,
}

/// What a concentrated-liquidity pool reports: the square root of the price of
/// token0 in token1 as a fixed-point number with 96 fractional bits, and the
/// tick and observation fields that come with it and play no part in pricing.
#[derive(Clone, Copy, Debug, PartialEq, Eq, Structural)]
pub struct SqrtPriceState {
    pub sqrt_price_x96: U160,
    pub tick: i32,
    pub observation_index: u16,
    pub observation_cardinality: u16,
    pub observation_cardinality_next: u16,
    pub fee_protocol: u8,
    pub unlocked: bool,
}

/// One reading of a pool, in the shape of its pricing model.
#[derive(Clone, Copy, Debug, PartialEq, Eq, Structural)]
pub enum PoolState {
    Reserves(ReserveState),
    SqrtPrice(SqrtPriceState),
}

/// The square of the fixed-point denominator of a packed square-root price.
pub open spec fn fixed_point_denominator() -> nat {
    pow2(192)
}

/// The part of a signed decimal exponent that multiplies.
pub open spec fn exponent_up(e: int) -> nat {
    if e >= 0 {
        e as nat
    } else {
        0
    }
}

/// The part of a signed decimal exponent that divides.
pub open spec fn exponent_down(e: int) -> nat {
    if e < 0 {
        (-e) as nat
    } else {
        0
    }
}

/// An exact price: a fraction that is kept in the terms it was derived from,
/// so that nothing is rounded before the final division.
#[derive(Clone, Copy, Debug, PartialEq, Eq, Structural)]
pub enum Price {
    /// `numerator / denominator`, two quantities on the common decimal basis.
    Quotient { numerator: u128, denominator: u128 },
    /// `sqrt_price_x96^2 / 2^192 * 10^exponent`, or one over that where
    /// `inverted` is set.
    SqrtRatio { sqrt_price_x96: U160, exponent: i16, inverted: bool },
}

impl Price {
    /// The numerator of the fraction that this price is.
    pub open spec fn numerator(self) -> nat {
        match self {
            Price::Quotient { numerator, denominator } => numerator as nat,
            Price::SqrtRatio { sqrt_price_x96, exponent, inverted } => if inverted {
                fixed_point_denominator() * pow10(exponent_down(exponent as int))
            } else {
                sqrt_price_x96.value() * sqrt_price_x96.value() * pow10(
                    exponent_up(exponent as int),
                )
            },
        }
    }

    /// The power of ten that a square-root price is corrected by; zero for a
    /// quotient of quantities that are on one basis already.
    pub open spec fn decimal_exponent(self) -> int {
        match self {
            Price::Quotient { numerator, denominator } => 0,
            Price::SqrtRatio { sqrt_price_x96, exponent, inverted } => exponent as int,
        }
    }

    /// The denominator of the fraction that this price is.
    pub open spec fn denominator(self) -> nat {
        self.flipped().numerator()
    }

    /// One over this price.
    pub open spec fn flipped(self) -> Price {
        match self {
            Price::Quotient { numerator, denominator } => Price::Quotient {
                numerator: denominator,
                denominator: numerator,
            },
            Price::SqrtRatio { sqrt_price_x96, exponent, inverted } => Price::SqrtRatio {
                sqrt_price_x96,
                exponent,
                inverted: !inverted,
            },
        }
    }

    /// A price is defined where neither side of its fraction is zero.
    pub open spec fn is_defined(self) -> bool {
        self.numerator() > 0 && self.denominator() > 0
    }

    /// One over this price: the same terms with numerator and denominator
    /// exchanged.
    pub fn reciprocal(&self) -> (r: Price)
        ensures
            r == self.flipped(),
            r.numerator() == self.denominator(),
            r.denominator() == self.numerator(),
    {
        match *self {
            Price::Quotient { numerator, denominator } => Price::Quotient {
                numerator: denominator,
                denominator: numerator,
            },
            Price::SqrtRatio { sqrt_price_x96, exponent, inverted } => Price::SqrtRatio {
                sqrt_price_x96,
                exponent,
                inverted: !inverted,
            },
        }
    }
}

/// The price of token A in units of token B, and the price of B in units of A.
#[derive(Clone, Copy, Debug, PartialEq, Eq, Structural)]
pub struct PricePair {
    pub a_in_b: Price,
    pub b_in_a: Price,
}

impl PricePair {
    /// The two prices are defined and each is one over the other.
    pub open spec fn wf(self) -> bool {
        self.a_in_b.is_defined() && self.b_in_a == self.a_in_b.flipped()
    }

    /// The same pair as seen by a caller who names the tokens the other way
    /// round.
    pub open spec fn swapped(self) -> PricePair {
        PricePair { a_in_b: self.b_in_a, b_in_a: self.a_in_b }
    }
}

/// The pair whose first price is `quote / base`.
pub open spec fn quotient_pair(base: u128, quote: u128) -> PricePair {
    PricePair {
        a_in_b: Price::Quotient { numerator: quote, denominator: base },
        b_in_a: Price::Quotient { numerator: base, denominator: quote },
    }
}

/// The raw reserve of the caller's token A, then that of token B: token0's
/// reserve belongs to whichever of the two has the smaller address.
pub open spec fn reserves_by_role(state: ReserveState, a: TokenRef, b: TokenRef) -> (u128, u128) {
    if precedes(a, b) {
        (state.reserve0, state.reserve1)
    } else {
        (state.reserve1, state.reserve0)
    }
}

/// The price pair of a constant-product pool: the reserve of B over the reserve
/// of A, both on the common decimal basis.
pub open spec fn constant_product_spec(state: ReserveState, a: TokenRef, b: TokenRef) -> Result<
    PricePair,
    PriceError,
> {
    let (ra, rb) = reserves_by_role(state, a, b);
    let na = normalized(ra as nat, a.decimals as nat);
    let nb = normalized(rb as nat, b.decimals as nat);
    if state.reserve0 == 0 || state.reserve1 == 0 {
        Err(PriceError::DegeneratePrice)
    } else if a.decimals > COMMON_DECIMALS || b.decimals > COMMON_DECIMALS {
        Err(PriceError::DecimalOverflow)
    } else if na > u128::MAX || nb > u128::MAX {
        Err(PriceError::ReserveOverflow)
    } else {
        Ok(quotient_pair(na as u128, nb as u128))
    }
}

/// The price of token0 in token1 that a packed square-root price stands for,
/// where token0 has `decimals0` decimals and token1 has `decimals1`.
pub open spec fn token0_price(sqrt_price_x96: U160, decimals0: u8, decimals1: u8) -> Price {
    Price::SqrtRatio {
        sqrt_price_x96,
        exponent: (decimals0 as int - decimals1 as int) as i16,
        inverted: false,
    }
}

/// The price pair of a concentrated-liquidity pool: the squared square-root
/// price is the price of token0 in token1, and goes to whichever of the
/// caller's tokens is token0.
pub open spec fn concentrated_liquidity_spec(
    state: SqrtPriceState,
    a: TokenRef,
    b: TokenRef,
) -> Result<PricePair, PriceError> {
    if state.sqrt_price_x96.value() == 0 {
        Err(PriceError::DegeneratePrice)
    } else if precedes(a, b) {
        let p = token0_price(state.sqrt_price_x96, a.decimals, b.decimals);
        Ok(PricePair { a_in_b: p, b_in_a: p.flipped() })
    } else {
        let p = token0_price(state.sqrt_price_x96, b.decimals, a.decimals);
        Ok(PricePair { a_in_b: p.flipped(), b_in_a: p })
    }
}

/// The price pair that a reading of a pool stands for, by the pool's model.
pub open spec fn price_pair_spec(state: PoolState, a: TokenRef, b: TokenRef) -> Result<
    PricePair,
    PriceError,
> {
    match state {
        PoolState::Reserves(s) => constant_product_spec(s, a, b),
        PoolState::SqrtPrice(s) => concentrated_liquidity_spec(s, a, b),
    }
}

/// Prices token A in B and B in A from the reserves of a constant-product
/// pool.
///
/// A zero reserve on either side gives `DegeneratePrice`; otherwise a token
/// with more decimals than the common basis gives `DecimalOverflow`; otherwise
/// a scaled reserve that does not fit gives `ReserveOverflow`.
pub fn constant_product_price(state: &ReserveState, a: &TokenRef, b: &TokenRef) -> (r: Result<
    PricePair,
    PriceError,
>)
    ensures
        r == constant_product_spec(*state, *a, *b),
        (state.reserve0 == 0 || state.reserve1 == 0) ==> r == Err::<PricePair, PriceError>(
            PriceError::DegeneratePrice,
        ),
        r matches Ok(p) ==> p.wf() && p.a_in_b.numerator() == normalized(
            reserves_by_role(*state, *a, *b).1 as nat,
            b.decimals as nat,
        ) && p.a_in_b.denominator() == normalized(
            reserves_by_role(*state, *a, *b).0 as nat,
            a.decimals as nat,
        ),
{
    if state.reserve0 == 0 || state.reserve1 == 0 {
        return Err(PriceError::DegeneratePrice);
    }
    if a.decimals > COMMON_DECIMALS || b.decimals > COMMON_DECIMALS {
        return Err(PriceError::DecimalOverflow);
    }
    let (ra, rb) = if a.is_token0_with(b) {
        (state.reserve0, state.reserve1)
    } else {
        (state.reserve1, state.reserve0)
    };
    let na = match normalize(ra, a.decimals) {
        Ok(v) => v,
        Err(e) => {
            return Err(e);
        },
    };
    let nb = match normalize(rb, b.decimals) {
        Ok(v) => v,
        Err(e) => {
            return Err(e);
        },
    };
    proof {
        lemma_normalized_positive(ra as nat, a.decimals as nat);
        lemma_normalized_positive(rb as nat, b.decimals as nat);
    }
    Ok(
        PricePair {
            a_in_b: Price::Quotient { numerator: nb, denominator: na },
            b_in_a: Price::Quotient { numerator: na, denominator: nb },
        },
    )
}

/// Prices token A in B and B in A from the square-root price of a
/// concentrated-liquidity pool.
///
/// A square-root price of zero gives `DegeneratePrice`; every other reading
/// gives a pair.
pub fn concentrated_liquidity_price(state: &SqrtPriceState, a: &TokenRef, b: &TokenRef) -> (r:
    Result<PricePair, PriceError>)
    ensures
        r == concentrated_liquidity_spec(*state, *a, *b),
        r is Err <==> state.sqrt_price_x96.value() == 0,
        r matches Ok(p) ==> p.wf() && exponent_up(p.a_in_b.decimal_exponent()) + exponent_down(
            p.a_in_b.decimal_exponent(),
        ) == decimal_distance(a.decimals, b.decimals),
{
    if state.sqrt_price_x96.is_zero() {
        return Err(PriceError::DegeneratePrice);
    }
    let a_first = a.is_token0_with(b);
    let d0: i16 = if a_first {
        a.decimals as i16
    } else {
        b.decimals as i16
    };
    let d1: i16 = if a_first {
        b.decimals as i16
    } else {
        a.decimals as i16
    };
    let exponent: i16 = d0 - d1;
    let p = Price::SqrtRatio { sqrt_price_x96: state.sqrt_price_x96, exponent, inverted: false };
    proof {
        lemma_sqrt_ratio_defined(state.sqrt_price_x96, exponent);
    }
    if a_first {
        Ok(PricePair { a_in_b: p, b_in_a: p.reciprocal() })
    } else {
        Ok(PricePair { a_in_b: p.reciprocal(), b_in_a: p })
    }
}

/// Prices token A in B and B in A from one reading of a pool, by the pricing
/// model that the reading belongs to.
pub fn price_pair(state: &PoolState, a: &TokenRef, b: &TokenRef) -> (r: Result<
    PricePair,
    PriceError,
>)
    ensures
        r == price_pair_spec(*state, *a, *b),
        r matches Ok(p) ==> p.wf(),
{
    match state {
        PoolState::Reserves(s) => constant_product_price(s, a, b),
        PoolState::SqrtPrice(s) => concentrated_liquidity_price(s, a, b),
    }
}

/// Whether a reading is degenerate: a zero reserve, or a zero square-root
/// price.
pub open spec fn is_degenerate(state: PoolState) -> bool {
    match state {
        PoolState::Reserves(s) => s.reserve0 == 0 || s.reserve1 == 0,
        PoolState::SqrtPrice(s) => s.sqrt_price_x96.value() == 0,
    }
}

/// A positive quantity stays positive on the common basis.
pub proof fn lemma_normalized_positive(raw: nat, decimals: nat)
    requires
        raw > 0,
        decimals <= COMMON_DECIMALS,
    ensures
        normalized(raw, decimals) > 0,
{
    let p = pow10((COMMON_DECIMALS - decimals) as nat);
    lemma_pow10_monotonic(0, (COMMON_DECIMALS - decimals) as nat);
    assert(raw * p > 0) by (nonlinear_arith)
        requires
            raw > 0,
            p >= 1,
    ;
}

/// A price read from a non-zero square-root price is defined, whichever way
/// round it is taken.
pub proof fn lemma_sqrt_ratio_defined(sqrt_price_x96: U160, exponent: i16)
    requires
        sqrt_price_x96.value() > 0,
    ensures
        (Price::SqrtRatio { sqrt_price_x96, exponent, inverted: false }).is_defined(),
        (Price::SqrtRatio { sqrt_price_x96, exponent, inverted: true }).is_defined(),
{
    let s = sqrt_price_x96.value();
    let up = pow10(exponent_up(exponent as int));
    let down = pow10(exponent_down(exponent as int));
    let f = fixed_point_denominator();
    lemma_pow10_monotonic(0, exponent_up(exponent as int));
    lemma_pow10_monotonic(0, exponent_down(exponent as int));
    lemma_pow2_pos(192);
    assert(s * s * up > 0) by (nonlinear_arith)
        requires
            s > 0,
            up >= 1,
    ;
    assert(f * down > 0) by (nonlinear_arith)
        requires
            f > 0,
            down >= 1,
    ;
}

/// The two prices of a pair multiply to one: the product of their numerators
/// equals the product of their denominators, and neither product is zero.
pub proof fn lemma_pair_product_is_one(p: PricePair)
    requires
        p.wf(),
    ensures
        p.a_in_b.numerator() * p.b_in_a.numerator() == p.a_in_b.denominator()
            * p.b_in_a.denominator(),
        p.a_in_b.numerator() * p.b_in_a.numerator() > 0,
        p.b_in_a.is_defined(),
{
    let n = p.a_in_b.numerator();
    let d = p.a_in_b.denominator();
    lemma_flipped_twice(p.a_in_b);
    assert(p.b_in_a.numerator() == d);
    assert(p.b_in_a.denominator() == n);
    assert(n * d == d * n && n * d > 0) by (nonlinear_arith)
        requires
            n > 0,
            d > 0,
    ;
}

/// Taking one over a price twice gives the price back.
pub proof fn lemma_flipped_twice(p: Price)
    ensures
        p.flipped().flipped() == p,
        p.flipped().numerator() == p.denominator(),
        p.flipped().denominator() == p.numerator(),
{
}

/// Naming the two tokens the other way round exchanges the two prices and
/// changes nothing else: the same reading gives the same pair with its fields
/// swapped, or the same error.
pub proof fn lemma_swapping_tokens_swaps_prices(state: PoolState, a: TokenRef, b: TokenRef)
    requires
        a.address != b.address,
    ensures
        match price_pair_spec(state, a, b) {
            Ok(p) => price_pair_spec(state, b, a) == Ok::<PricePair, PriceError>(p.swapped()),
            Err(e) => price_pair_spec(state, b, a) == Err::<PricePair, PriceError>(e),
        },
{
    lemma_value_injective(a.address, b.address);
    assert(precedes(a, b) != precedes(b, a));
}

/// The price of a constant-product pool is the ratio of the raw reserves
/// corrected by the net difference of the decimals: the price of A in B equals
/// `(reserve_b * 10^decimals_a) / (reserve_a * 10^decimals_b)`, stated here
/// without division.
pub proof fn lemma_constant_product_is_corrected_raw_ratio(
    state: ReserveState,
    a: TokenRef,
    b: TokenRef,
)
    requires
        constant_product_spec(state, a, b) is Ok,
    ensures
        ({
            let p = constant_product_spec(state, a, b)->Ok_0;
            let (ra, rb) = reserves_by_role(state, a, b);
            p.a_in_b.numerator() * (ra as nat * pow10(b.decimals as nat)) == p.a_in_b.denominator()
                * (rb as nat * pow10(a.decimals as nat))
        }),
{
    let (ra, rb) = reserves_by_role(state, a, b);
    lemma_normalization_scale_consistent(
        ra as nat,
        a.decimals as nat,
        rb as nat,
        b.decimals as nat,
    );
}

/// A degenerate reading never yields a price: it yields the undefined-price
/// outcome, whatever the tokens.
pub proof fn lemma_degenerate_is_undefined(state: PoolState, a: TokenRef, b: TokenRef)
    requires
        is_degenerate(state),
    ensures
        price_pair_spec(state, a, b) == Err::<PricePair, PriceError>(PriceError::DegeneratePrice),
{
}

/// The decimal exponent of a square-root price is the decimals of token0 less
/// those of token1: the price of token0 in token1 equals
/// `sqrt^2 * 10^decimals0 / (2^192 * 10^decimals1)`, stated here without
/// division.
pub proof fn lemma_token0_price_aligns_decimals(sqrt_price_x96: U160, decimals0: u8, decimals1: u8)
    ensures
        token0_price(sqrt_price_x96, decimals0, decimals1).numerator() * (fixed_point_denominator()
            * pow10(decimals1 as nat)) == token0_price(
            sqrt_price_x96,
            decimals0,
            decimals1,
        ).denominator() * (sqrt_price_x96.value() * sqrt_price_x96.value() * pow10(
            decimals0 as nat,
        )),
{
    let s = sqrt_price_x96.value();
    let f = fixed_point_denominator();
    let d0 = decimals0 as nat;
    let d1 = decimals1 as nat;
    let ten0 = pow10(d0);
    let ten1 = pow10(d1);
    let price = token0_price(sqrt_price_x96, decimals0, decimals1);
    if d0 >= d1 {
        let k = pow10((d0 - d1) as nat);
        lemma_pow10_add((d0 - d1) as nat, d1);
        assert((d0 - d1) as nat + d1 == d0);
        assert(price.numerator() == s * s * k);
        assert(price.denominator() == f * pow10(0));
        assert(pow10(0) == 1);
        assert((s * s * k) * (f * ten1) == (f * 1) * (s * s * (k * ten1))) by (nonlinear_arith);
    } else {
        let k = pow10((d1 - d0) as nat);
        lemma_pow10_add((d1 - d0) as nat, d0);
        assert((d1 - d0) as nat + d0 == d1);
        assert(price.numerator() == s * s * pow10(0));
        assert(price.denominator() == f * k);
        assert(pow10(0) == 1);
        assert((s * s * 1) * (f * (k * ten0)) == (f * k) * (s * s * ten0)) by (nonlinear_arith);
    }
}

} // verus!
