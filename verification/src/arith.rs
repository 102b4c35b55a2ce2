//! Integer arithmetic as the contracts' `i128` operations perform it.
use vstd::prelude::*;

verus! {

/// Whether `x` is a value of `i128`.
pub open spec fn is_i128(x: int) -> bool {
    i128::MIN <= x <= i128::MAX
}

/// The absolute value of `x`.
pub open spec fn abs(x: int) -> int {
    if x < 0 { -x } else { x }
}

/// Division that rounds toward zero, as Rust's `/` on signed integers does.
pub open spec fn trunc_div(x: int, d: int) -> int {
    let q = abs(x) / abs(d);
    if (x < 0) == (d < 0) { q } else { -q }
}

/// The number of values of `i128`.
pub open spec fn i128_modulus() -> int {
    0x1_0000_0000_0000_0000_0000_0000_0000_0000int
}

/// `x` reduced to `i128` by two's-complement wrap-around.
pub open spec fn wrap_i128(x: int) -> int {
    let r = x % i128_modulus();
    if r > i128::MAX { r - i128_modulus() } else { r }
}

/// A sum or difference of two `i128` values wraps as `wrapping_add` and `wrapping_sub` do.
pub proof fn lemma_wrap_small(v: int)
    requires
        -i128_modulus() <= v < i128_modulus(),
    ensures
        wrap_i128(v) == if v > i128::MAX {
            v - i128_modulus()
        } else if v < i128::MIN {
            v + i128_modulus()
        } else {
            v
        },
{
    let m = i128_modulus();
    if v >= 0 {
        vstd::arithmetic::div_mod::lemma_fundamental_div_mod_converse(v, m, 0, v);
    } else {
        vstd::arithmetic::div_mod::lemma_fundamental_div_mod_converse(v, m, -1, v + m);
    }
}

/// `wrapping_add` on `i128` is the wrapped sum.
pub(crate) fn wrapping_add_i128(x: i128, y: i128) -> (r: i128)
    ensures
        r == wrap_i128(x + y),
{
    proof {
        lemma_wrap_small(x + y);
    }
    x.wrapping_add(y)
}

/// `wrapping_sub` on `i128` is the wrapped difference.
pub(crate) fn wrapping_sub_i128(x: i128, y: i128) -> (r: i128)
    ensures
        r == wrap_i128(x - y),
{
    proof {
        lemma_wrap_small(x - y);
    }
    x.wrapping_sub(y)
}

/// `wrapping_mul` on `i128` is the wrapped product.
pub(crate) fn wrapping_mul_i128(x: i128, y: i128) -> (r: i128)
    ensures
        r == wrap_i128(x * y),
{
    x.wrapping_mul(y)
}

/// The quotient `x / d` on `i128`: defined for a nonzero divisor and a quotient that fits.
pub(crate) fn div_i128(x: i128, d: i128) -> (q: i128)
    requires
        d != 0,
        is_i128(trunc_div(x as int, d as int)),
    ensures
        q == trunc_div(x as int, d as int),
{
    match x.checked_div(d) {
        Some(q) => q,
        None => 0,
    }
}

} // verus!
