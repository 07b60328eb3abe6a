use vstd::prelude::*;

verus! {

/// The number of decimals that every quantity is brought to before two tokens
/// are compared.
pub const COMMON_DECIMALS: u8 = 18;

/// Why no price could be derived from a pool's state.
#[derive(Clone, Copy, Debug, PartialEq, Eq, Structural)]
pub enum PriceError {
    /// A token has more decimals than the common basis.
    DecimalOverflow,
    /// A quantity on the common basis does not fit in 128 bits.
    ReserveOverflow,
    /// A reserve, or the square-root price, is zero: the price is undefined.
    DegeneratePrice,
}

/// Ten to the power `e`.
pub open spec fn pow10(e: nat) -> nat
    decreases e,
{
    if e == 0 {
        1
    } else {
        10 * pow10((e - 1) as nat)
    }
}

/// A raw quantity of a token with `decimals` decimals, on the common basis.
pub open spec fn normalized(raw: nat, decimals: nat) -> nat
    recommends
        decimals <= COMMON_DECIMALS,
{
    raw * pow10((COMMON_DECIMALS - decimals) as nat)
}

/// Powers of ten multiply as their exponents add.
pub proof fn lemma_pow10_add(a: nat, b: nat)
    ensures
        pow10(a + b) == pow10(a) * pow10(b),
    decreases a,
{
    if a == 0 {
        assert(pow10(0) * pow10(b) == pow10(b)) by (nonlinear_arith)
            requires
                pow10(0) == 1,
        ;
    } else {
        lemma_pow10_add((a - 1) as nat, b);
        let p = pow10((a - 1) as nat);
        let q = pow10(b);
        assert(pow10(a + b) == 10 * pow10((a + b - 1) as nat));
        assert((a - 1) as nat + b == (a + b - 1) as nat);
        assert(10 * (p * q) == (10 * p) * q) by (nonlinear_arith);
    }
}

/// A power of ten is at least one, and grows with its exponent.
pub proof fn lemma_pow10_monotonic(a: nat, b: nat)
    requires
        a <= b,
    ensures
        1 <= pow10(a) <= pow10(b),
    decreases b,
{
    if a == 0 {
        if b > 0 {
            lemma_pow10_monotonic(0, (b - 1) as nat);
        }
    } else {
        lemma_pow10_monotonic((a - 1) as nat, (b - 1) as nat);
    }
}

/// Ten to the power of the common basis, written out.
pub proof fn lemma_pow10_common()
    ensures
        pow10(COMMON_DECIMALS as nat) == 1_000_000_000_000_000_000,
{
    reveal_with_fuel(pow10, 19);
}

/// Ten to the power `e`, for an exponent within the common basis.
fn scale_factor(e: u8) -> (r: u128)
    requires
        e <= COMMON_DECIMALS,
    ensures
        r == pow10(e as nat),
        r <= 1_000_000_000_000_000_000,
{
    let mut r: u128 = 1;
    let mut i: u8 = 0;
    proof {
        lemma_pow10_common();
        lemma_pow10_monotonic(0, COMMON_DECIMALS as nat);
    }
    while i < e
        invariant
            i <= e <= COMMON_DECIMALS,
            r == pow10(i as nat),
            pow10(COMMON_DECIMALS as nat) == 1_000_000_000_000_000_000,
        decreases e - i,
    {
        proof {
            lemma_pow10_monotonic((i + 1) as nat, COMMON_DECIMALS as nat);
        }
        r = r * 10;
        i = i + 1;
    }
    proof {
        lemma_pow10_monotonic(e as nat, COMMON_DECIMALS as nat);
    }
    r
}

/// Brings a raw quantity of a token with `decimals` decimals to the common
/// basis: the quantity times ten to the power of the decimals that the token
/// lacks.
///
/// A token with more decimals than the common basis is refused, and so is a
/// quantity whose scaled value does not fit in 128 bits: nothing is truncated.
pub fn normalize(raw: u128, decimals: u8) -> (r: Result<u128, PriceError>)
    ensures
        decimals > COMMON_DECIMALS ==> r == Err::<u128, PriceError>(PriceError::DecimalOverflow),
        decimals <= COMMON_DECIMALS && normalized(raw as nat, decimals as nat) > u128::MAX ==> r
            == Err::<u128, PriceError>(PriceError::ReserveOverflow),
        decimals <= COMMON_DECIMALS && normalized(raw as nat, decimals as nat) <= u128::MAX ==> r
            == Ok::<u128, PriceError>(normalized(raw as nat, decimals as nat) as u128),
{
    if decimals > COMMON_DECIMALS {
        return Err(PriceError::DecimalOverflow);
    }
    let factor: u128 = scale_factor(COMMON_DECIMALS - decimals);
    match raw.checked_mul(factor) {
        Some(v) => Ok(v),
        None => Err(PriceError::ReserveOverflow),
    }
}

/// The distance between the decimals of two tokens.
pub open spec fn decimal_distance(a: u8, b: u8) -> nat {
    if a >= b {
        (a - b) as nat
    } else {
        (b - a) as nat
    }
}

/// The distance between the decimals of two tokens: what a price that already
/// is a ratio has to be corrected by, in either direction.
pub fn decimal_difference(decimals_a: u8, decimals_b: u8) -> (r: u8)
    ensures
        r == decimal_distance(decimals_a, decimals_b),
        r == decimal_distance(decimals_b, decimals_a),
{
    if decimals_a >= decimals_b {
        decimals_a - decimals_b
    } else {
        decimals_b - decimals_a
    }
}

/// Scaling two raw quantities to the common basis and then taking their ratio
/// gives the ratio of the raw quantities corrected by the net difference of the
/// decimals: `normalized(y, dy) / normalized(x, dx)` equals
/// `(y * 10^dx) / (x * 10^dy)`, stated here without division.
pub proof fn lemma_normalization_scale_consistent(x: nat, dx: nat, y: nat, dy: nat)
    requires
        dx <= COMMON_DECIMALS,
        dy <= COMMON_DECIMALS,
    ensures
        normalized(y, dy) * (x * pow10(dy)) == normalized(x, dx) * (y * pow10(dx)),
{
    let c = COMMON_DECIMALS as nat;
    let px = pow10((c - dx) as nat);
    let py = pow10((c - dy) as nat);
    let qx = pow10(dx);
    let qy = pow10(dy);
    lemma_pow10_add((c - dx) as nat, dx);
    lemma_pow10_add((c - dy) as nat, dy);
    assert((c - dx) as nat + dx == c);
    assert((c - dy) as nat + dy == c);
    let t = pow10(c);
    assert(px * qx == t);
    assert(py * qy == t);
    assert((y * py) * (x * qy) == (x * y) * (py * qy)) by (nonlinear_arith);
    assert((x * px) * (y * qx) == (x * y) * (px * qx)) by (nonlinear_arith);
}

/// Scaling both of two quantities by the same power of ten leaves their ratio
/// as it was.
pub proof fn lemma_common_scale_cancels(x: nat, y: nat, e: nat)
    ensures
        (y * pow10(e)) * x == (x * pow10(e)) * y,
{
    let p = pow10(e);
    assert((y * p) * x == (x * p) * y) by (nonlinear_arith);
}

} // verus!
