//! Two's-complement wrapping of 32-bit arithmetic. The quantities of the store
//! are `i32`, added and subtracted as a release build of Rust does: modulo
//! 2^32, back into the `i32` range.
use vstd::prelude::*;
use vstd::arithmetic::div_mod::{
    lemma_fundamental_div_mod,
    lemma_mod_multiples_vanish,
    lemma_small_mod,
};
use vstd::wrapping::i32_specs;

verus! {

/// 2^32, the modulus of `i32` arithmetic.
pub open spec fn i32_modulus() -> int {
    0x1_0000_0000
}

/// The `i32` value that `x` wraps to: the unique value in
/// `i32::MIN..=i32::MAX` congruent to `x` modulo 2^32.
pub open spec fn wrap_i32(x: int) -> int {
    (x - i32::MIN) % i32_modulus() + i32::MIN
}

/// Values in the `i32` range wrap to themselves.
pub proof fn lemma_wrap_small(x: int)
    requires
        i32::MIN <= x <= i32::MAX,
    ensures
        wrap_i32(x) == x,
{
    lemma_small_mod((x - i32::MIN) as nat, i32_modulus() as nat);
}

/// Adding a multiple of 2^32 does not change the wrapped value.
pub proof fn lemma_wrap_shift(x: int, k: int)
    ensures
        wrap_i32(x + i32_modulus() * k) == wrap_i32(x),
{
    lemma_mod_multiples_vanish(k, x - i32::MIN, i32_modulus());
    assert(i32_modulus() * k + (x - i32::MIN) == (x + i32_modulus() * k) - i32::MIN);
}

/// Wrapping differs from the value by a multiple of 2^32.
pub proof fn lemma_wrap_congruent(x: int) -> (k: int)
    ensures
        wrap_i32(x) == x + i32_modulus() * k,
{
    lemma_fundamental_div_mod(x - i32::MIN, i32_modulus());
    let q = (x - i32::MIN) / i32_modulus();
    assert(i32_modulus() * (-q) == -(i32_modulus() * q)) by (nonlinear_arith);
    -q
}

/// Wrapping an intermediate result does not change the final wrapped sum.
pub proof fn lemma_wrap_add(x: int, y: int)
    ensures
        wrap_i32(wrap_i32(x) + y) == wrap_i32(x + y),
{
    let k = lemma_wrap_congruent(x);
    assert(wrap_i32(x) + y == (x + y) + i32_modulus() * k);
    lemma_wrap_shift(x + y, k);
}

/// Wrapping the subtrahend does not change the wrapped difference.
pub proof fn lemma_wrap_sub(x: int, y: int)
    ensures
        wrap_i32(x - wrap_i32(y)) == wrap_i32(x - y),
{
    let k = lemma_wrap_congruent(y);
    assert(x - wrap_i32(y) == (x - y) + i32_modulus() * (-k)) by (nonlinear_arith)
        requires
            wrap_i32(y) == y + i32_modulus() * k,
    ;
    lemma_wrap_shift(x - y, -k);
}

/// `i32::wrapping_add` is the wrapped mathematical sum.
pub proof fn lemma_wrapping_add(a: i32, b: i32)
    ensures
        i32_specs::wrapping_add(a, b) as int == wrap_i32(a + b),
{
    let s = a + b;
    if s > i32::MAX {
        lemma_wrap_shift(s - i32_modulus(), 1);
        lemma_wrap_small(s - i32_modulus());
    } else if s < i32::MIN {
        lemma_wrap_shift(s + i32_modulus(), -1);
        lemma_wrap_small(s + i32_modulus());
    } else {
        lemma_wrap_small(s);
    }
}

/// `i32::wrapping_sub` is the wrapped mathematical difference.
pub proof fn lemma_wrapping_sub(a: i32, b: i32)
    ensures
        i32_specs::wrapping_sub(a, b) as int == wrap_i32(a - b),
{
    let s = a - b;
    if s > i32::MAX {
        lemma_wrap_shift(s - i32_modulus(), 1);
        lemma_wrap_small(s - i32_modulus());
    } else if s < i32::MIN {
        lemma_wrap_shift(s + i32_modulus(), -1);
        lemma_wrap_small(s + i32_modulus());
    } else {
        lemma_wrap_small(s);
    }
}

} // verus!
