use vstd::prelude::*;

use crate::errors::VaultError;
use soroban_sdk::Env;

verus! {

/// Basis points in one whole.
pub const BPS: i128 = 10_000;

/// Rust's truncating integer division, for `d != 0`.
pub open spec fn trunc_div(x: int, d: int) -> int {
    if x >= 0 && d > 0 {
        x / d
    } else if x < 0 && d < 0 {
        (-x) / (-d)
    } else if x < 0 {
        -((-x) / d)
    } else {
        -(x / (-d))
    }
}

pub open spec fn fits_i128(x: int) -> bool {
    i128::MIN <= x <= i128::MAX
}

/// `x` clamped to the range of `i128`.
pub open spec fn clamp_i128(x: int) -> int {
    if x > i128::MAX {
        i128::MAX as int
    } else if x < i128::MIN {
        i128::MIN as int
    } else {
        x
    }
}

/// `max(x, 0)`.
pub open spec fn pos_part(x: int) -> int {
    if x > 0 {
        x
    } else {
        0
    }
}

/// `a + b`, clamped to the range of `i128`.
pub fn saturating_add_i128(a: i128, b: i128) -> (r: i128)
    ensures
        r == clamp_i128(a + b),
{
    match a.checked_add(b) {
        Some(v) => v,
        None => if b > 0 {
            i128::MAX
        } else {
            i128::MIN
        },
    }
}

/// `a - b`, clamped to the range of `i128`.
pub fn saturating_sub_i128(a: i128, b: i128) -> (r: i128)
    ensures
        r == clamp_i128(a - b),
{
    match a.checked_sub(b) {
        Some(v) => v,
        None => if b < 0 {
            i128::MAX
        } else {
            i128::MIN
        },
    }
}

/// `max(x, 0)`.
pub fn max_zero(x: i128) -> (r: i128)
    ensures
        r == pos_part(x as int),
{
    if x > 0 {
        x
    } else {
        0
    }
}

/// `floor(a * b / d)` for non-negative operands and a positive divisor,
/// failing with `ArithmeticError` on a negative operand, a non-positive
/// divisor, or a product that does not fit in `i128`.
pub fn mul_div_floor(a: i128, b: i128, d: i128) -> (r: Result<i128, VaultError>)
    ensures
        r is Ok <==> (a >= 0 && b >= 0 && d > 0 && fits_i128(a * b)),
        r matches Ok(v) ==> v == (a * b) / (d as int),
        r matches Err(e) ==> e == VaultError::ArithmeticError,
{
    if a < 0 || b < 0 || d <= 0 {
        return Err(VaultError::ArithmeticError);
    }
    match a.checked_mul(b) {
        Some(p) => match p.checked_div(d) {
            Some(q) => Ok(q),
            None => Err(VaultError::ArithmeticError),
        },
        None => Err(VaultError::ArithmeticError),
    }
}

/// `(a * b + d - 1) / d` with Rust's truncating division (the ceiling of
/// `a * b / d` whenever `a * b >= 0` and `d > 0`), and `0` when `a == 0`;
/// fails with `ArithmeticError` when the product or the biased numerator
/// leaves `i128`, or when the division is undefined.
pub fn mul_div_ceil(a: i128, b: i128, d: i128) -> (r: Result<i128, VaultError>)
    requires
        d > i128::MIN,
    ensures
        a == 0 ==> r == Ok::<i128, VaultError>(0),
        a != 0 ==> (r is Ok <==> (fits_i128(a * b) && fits_i128(a * b + d - 1) && d != 0
            && fits_i128(trunc_div(a * b + d - 1, d as int)))),
        a != 0 ==> (r matches Ok(v) ==> v == trunc_div(a * b + d - 1, d as int)),
        r matches Err(e) ==> e == VaultError::ArithmeticError,
{
    if a == 0 {
        return Ok(0);
    }
    let p = match a.checked_mul(b) {
        Some(p) => p,
        None => return Err(VaultError::ArithmeticError),
    };
    match p.checked_add(d - 1) {
        Some(n) => match n.checked_div(d) {
            Some(q) => Ok(q),
            None => Err(VaultError::ArithmeticError),
        },
        None => Err(VaultError::ArithmeticError),
    }
}

/// For a non-negative numerator and a positive divisor the biased truncating
/// division is the ceiling of the quotient.
pub proof fn lemma_biased_div_is_ceil(n: int, d: int)
    requires
        n >= 0,
        d > 0,
    ensures
        trunc_div(n + d - 1, d) * d >= n,
        (trunc_div(n + d - 1, d) - 1) * d < n,
{
    assert(n + d - 1 >= 0);
    let q = (n + d - 1) / d;
    let r = (n + d - 1) % d;
    vstd::arithmetic::div_mod::lemma_fundamental_div_mod(n + d - 1, d);
    assert(q * d + r == n + d - 1) by (nonlinear_arith)
        requires q == (n + d - 1) / d, r == (n + d - 1) % d, d > 0, n + d - 1 == d * ((n + d - 1) / d) + (n + d - 1) % d;
    assert(0 <= r < d);
    assert(q * d >= n) by (nonlinear_arith) requires q * d + r == n + d - 1, r < d;
    assert((q - 1) * d < n) by (nonlinear_arith) requires q * d + r == n + d - 1, r >= 0, d > 0;
}

/// `10^n`.
pub open spec fn pow10_spec(n: nat) -> int
    decreases n,
{
    if n == 0 {
        1
    } else {
        10 * pow10_spec((n - 1) as nat)
    }
}

proof fn lemma_pow10_monotone(i: nat, j: nat)
    requires
        i <= j,
    ensures
        1 <= pow10_spec(i) <= pow10_spec(j),
    decreases j,
{
    if j > i {
        lemma_pow10_monotone(i, (j - 1) as nat);
    } else if i > 0 {
        lemma_pow10_monotone((i - 1) as nat, (i - 1) as nat);
    }
}

proof fn lemma_pow10_38()
    ensures
        pow10_spec(38) == 100000000000000000000000000000000000000int,
{
    reveal_with_fuel(pow10_spec, 39);
}

/// `10^exp`.
pub fn pow10(exp: u32) -> (r: i128)
    requires
        exp <= 38,
    ensures
        r == pow10_spec(exp as nat),
{
    let mut r: i128 = 1;
    let mut i: u32 = 0;
    while i < exp
        invariant
            i <= exp <= 38,
            r == pow10_spec(i as nat),
        decreases exp - i,
    {
        proof {
            lemma_pow10_monotone((i + 1) as nat, 38);
            lemma_pow10_38();
        }
        r = r * 10;
        i = i + 1;
    }
    r
}

/// The contract environment, carried through to the fixed-point library,
/// which builds its 256-bit intermediates in it.
#[verifier::external_type_specification]
#[verifier::external_body]
pub struct ExEnv(soroban_sdk::Env);

/// Rounding direction of a fixed-point division.
#[derive(Clone, Copy, Debug, PartialEq, Eq, Structural)]
pub enum Rounding {
    /// Toward negative infinity.
    Floor,
    /// Toward positive infinity.
    Ceil,
    /// Toward zero.
    Truncate,
}

/// `floor(n / d)` for `d != 0`.
pub open spec fn floor_div(n: int, d: int) -> int {
    if d > 0 {
        n / d
    } else {
        (-n) / (-d)
    }
}

/// `ceil(n / d)` for `d != 0`.
pub open spec fn ceil_div(n: int, d: int) -> int {
    -floor_div(-n, d)
}

/// `n / d` rounded in the given direction, for `d != 0`.
pub open spec fn rounded_div(n: int, d: int, rounding: Rounding) -> int {
    match rounding {
        Rounding::Floor => floor_div(n, d),
        Rounding::Ceil => ceil_div(n, d),
        Rounding::Truncate => trunc_div(n, d),
    }
}

/// Calls `stellar_contract_utils::math::i128_fixed_point::mul_div_with_rounding`,
/// which computes `x * y / denominator` exactly (through a 256-bit
/// intermediate when the product leaves `i128`) and rounds it as asked. It
/// panics on a zero denominator and on a result outside `i128`; both are
/// excluded here. The contract claims that it returns the exactly rounded
/// quotient.
#[verifier::external_body]
pub(crate) fn fixed_point_mul_div(env: &Env, x: i128, y: i128, denominator: i128, rounding: Rounding) -> (r: i128)
    requires
        denominator != 0,
        fits_i128(rounded_div(x * y, denominator as int, rounding)),
    ensures
        r == rounded_div(x * y, denominator as int, rounding),
{
    let mode = match rounding {
        Rounding::Floor => stellar_contract_utils::math::Rounding::Floor,
        Rounding::Ceil => stellar_contract_utils::math::Rounding::Ceil,
        Rounding::Truncate => stellar_contract_utils::math::Rounding::Truncate,
    };
    stellar_contract_utils::math::i128_fixed_point::mul_div_with_rounding(env, x, y, denominator, mode)
}

} // verus!
