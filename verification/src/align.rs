//! Alignment and work-splitting arithmetic for GPU buffers and dispatches.

use vstd::arithmetic::power2::pow2;
use vstd::prelude::*;

verus! {

/// Number of invocations in one compute workgroup of the ray shaders.
pub const WORKGROUP_SIZE: u32 = 256;

/// `alignment` is a power of two that a `u32` can hold.
pub open spec fn is_u32_power_of_two(alignment: nat) -> bool {
    exists|k: nat| k < 32 && pow2(k) == alignment
}

/// The smallest multiple of `m` that is at least `x`.
pub open spec fn round_up_spec(x: nat, m: nat) -> nat {
    if x % m == 0 { x } else { x + (m - x % m) as nat }
}

/// The smallest `n` with `n * d >= x`.
pub open spec fn div_ceil_spec(x: nat, d: nat) -> nat {
    if x % d == 0 { x / d } else { x / d + 1 }
}

/// Rounding up gives the least multiple of `m` that is at least `x`, and a
/// ceiling quotient is the fewest `m`-sized groups that hold `x` items.
pub proof fn lemma_round_up_is_least(x: nat, m: nat)
    requires
        m > 0,
    ensures
        round_up_spec(x, m) % m == 0,
        x <= round_up_spec(x, m) < x + m,
        div_ceil_spec(x, m) * m >= x,
        div_ceil_spec(x, m) == 0 || (div_ceil_spec(x, m) - 1) * m < x,
{
    let q = x / m;
    let r = x % m;
    vstd::arithmetic::div_mod::lemma_fundamental_div_mod(x as int, m as int);
    assert((q + 1) * m == m * q + m) by (nonlinear_arith);
    assert(q * m == m * q) by (nonlinear_arith);
    if r != 0 {
        vstd::arithmetic::div_mod::lemma_fundamental_div_mod_converse_mod(
            x + (m - r),
            m as int,
            (q + 1) as int,
            0,
        );
        if q > 0 {
            assert((q - 1) * m == m * q - m) by (nonlinear_arith);
        }
    } else {
        if q > 0 {
            assert((q - 1) * m == m * q - m) by (nonlinear_arith);
        }
    }
}

/// Rounds `size` up with the mask trick `(size + alignment - 1) & !(alignment - 1)`;
/// for a power-of-two `alignment` this is the next multiple of `alignment`.
pub fn align_to(size: u32, alignment: u32) -> (r: u32)
    requires
        alignment >= 1,
        size + alignment <= u32::MAX,
    ensures
        r == ((size + alignment - 1) as u32) & !((alignment - 1) as u32),
        is_u32_power_of_two(alignment as nat) ==> r as nat == round_up_spec(
            size as nat,
            alignment as nat,
        ),
{
    let r = (size + alignment - 1) & !(alignment - 1);
    proof {
        if is_u32_power_of_two(alignment as nat) {
            let k = choose|k: nat| k < 32 && pow2(k) == alignment;
            lemma_mask_rounds_down((size + alignment - 1) as u32, k);
            lemma_round_up_by_remainder(size as nat, alignment as nat);
        }
    }
    r
}

/// Number of workgroups of `WORKGROUP_SIZE` invocations that a dispatch over
/// `total_elements` rays needs: one invocation per ray, rounded up.
pub fn workgroup_count(total_elements: u32) -> (n: u32)
    ensures
        n as nat == div_ceil_spec(total_elements as nat, WORKGROUP_SIZE as nat),
        n * WORKGROUP_SIZE >= total_elements,
        n == 0 || (n - 1) * WORKGROUP_SIZE < total_elements,
{
    let q = total_elements / WORKGROUP_SIZE;
    if total_elements % WORKGROUP_SIZE == 0 {
        q
    } else {
        q + 1
    }
}

/// `x + m - 1` minus its remainder mod `m` is the next multiple of `m` from `x`.
proof fn lemma_round_up_by_remainder(x: nat, m: nat)
    requires
        m >= 1,
    ensures
        (x + m - 1) - (x + m - 1) % (m as int) == round_up_spec(x, m),
{
    let q = x as int / m as int;
    let s = x as int % m as int;
    vstd::arithmetic::div_mod::lemma_fundamental_div_mod(x as int, m as int);
    if s == 0 {
        assert(q * m == m * q) by (nonlinear_arith);
        vstd::arithmetic::div_mod::lemma_fundamental_div_mod_converse_mod(
            x + m - 1,
            m as int,
            q,
            m - 1,
        );
    } else {
        assert((q + 1) * m == m * q + m) by (nonlinear_arith);
        vstd::arithmetic::div_mod::lemma_fundamental_div_mod_converse_mod(
            x + m - 1,
            m as int,
            q + 1,
            s - 1,
        );
    }
}

/// Clearing the low `k` bits rounds down to a multiple of `2^k`.
proof fn lemma_mask_rounds_down(x: u32, k: nat)
    requires
        k < 32,
    ensures
        (x & !((pow2(k) - 1) as u32)) == x - x % (pow2(k) as u32),
        pow2(k) <= u32::MAX,
{
    vstd::bits::lemma_u32_pow2_no_overflow(k);
    vstd::bits::lemma_u32_low_bits_mask_is_mod(x, k);
    let m = (pow2(k) - 1) as u32;
    assert(m == vstd::bits::low_bits_mask(k) as u32);
    assert((x & !m) == x - (x & m)) by (bit_vector);
}

} // verus!
