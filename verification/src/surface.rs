//! The off-screen surface that a window is painted on.

use vstd::prelude::*;
use vstd::arithmetic::power2::pow2;
use vstd::arithmetic::power2::lemma_pow2_pos;
use vstd::arithmetic::power2::lemma_pow2_unfold;
use vstd::arithmetic::power2::lemma2_to64;
use vstd::arithmetic::div_mod::lemma_fundamental_div_mod;
use vstd::arithmetic::div_mod::lemma_fundamental_div_mod_converse;
use vstd::arithmetic::div_mod::lemma_mod_bound;
use vstd::arithmetic::div_mod::lemma_mod_multiples_basic;
use vstd::arithmetic::mul::lemma_mul_is_commutative;

verus! {

/// The largest dimension whose rounded size is sure to be a machine integer.
pub const MAX_DIMENSION: i32 = 0x6000_0000;

/// The number of binary digits of `x`; zero has none.
pub open spec fn bit_length(x: nat) -> nat
    decreases x,
{
    if x == 0 {
        0
    } else {
        1 + bit_length(x / 2)
    }
}

/// The step to which a surface dimension is rounded: a power of two, no less than 32.
pub open spec fn accuracy(x: int) -> int {
    if x < 0 {
        0x4000_0000
    } else if bit_length(x as nat) < 7 {
        32
    } else {
        pow2((bit_length(x as nat) - 2) as nat) as int
    }
}

/// The least multiple of `accuracy(x)` that is not below `x`.
pub open spec fn rounded_size(x: int) -> int {
    ((x + accuracy(x) - 1) / accuracy(x)) * accuracy(x)
}

/// `b` binary digits hold exactly the numbers from `2^(b-1)` up to `2^b`.
proof fn lemma_bit_length_bounds(x: nat)
    requires
        x > 0,
    ensures
        bit_length(x) > 0,
        pow2((bit_length(x) - 1) as nat) <= x < pow2(bit_length(x)),
    decreases x,
{
    if x == 1 {
        lemma2_to64();
        assert(bit_length(1) == 1 + bit_length(0));
    } else {
        lemma_bit_length_bounds(x / 2);
        lemma_pow2_unfold(bit_length(x / 2));
        lemma_pow2_unfold(bit_length(x));
    }
}

proof fn lemma_pow2_monotone(a: nat, b: nat)
    requires
        a <= b,
    ensures
        pow2(a) <= pow2(b),
    decreases b,
{
    if a < b {
        lemma_pow2_monotone(a, (b - 1) as nat);
        lemma_pow2_unfold(b);
    }
}

/// Powers of two pin down the number of binary digits between them.
proof fn lemma_bit_length_unique(x: nat, b: nat)
    requires
        b > 0,
        pow2((b - 1) as nat) <= x < pow2(b),
    ensures
        bit_length(x) == b,
{
    lemma_pow2_pos((b - 1) as nat);
    lemma_bit_length_bounds(x);
    if bit_length(x) < b {
        lemma_pow2_monotone(bit_length(x), (b - 1) as nat);
    }
    if bit_length(x) > b {
        lemma_pow2_monotone(b, (bit_length(x) - 1) as nat);
    }
}

proof fn lemma_shift_is_pow2(k: u32)
    requires
        k < 32,
    ensures
        (1u64 << (k as u64)) == pow2(k as nat),
    decreases k,
{
    lemma2_to64();
    if k == 0 {
        assert(1u64 << 0u64 == 1) by (bit_vector);
    } else {
        let j: u32 = (k - 1) as u32;
        lemma_shift_is_pow2(j);
        lemma_pow2_unfold(k as nat);
        assert(1u64 << (k as u64) == 2 * (1u64 << (j as u64))) by (bit_vector)
            requires
                0 < k < 32,
                j == k - 1,
        ;
    }
}

/// The leading zeros of a machine word are what its binary digits leave over.
proof fn lemma_leading_zeros(x: u32)
    ensures
        0 <= vstd::std_specs::bits::u32_leading_zeros(x) <= 32,
        bit_length(x as nat) == 32 - vstd::std_specs::bits::u32_leading_zeros(x),
{
    let lz = vstd::std_specs::bits::u32_leading_zeros(x);
    vstd::std_specs::bits::axiom_u32_leading_zeros(x);
    if x != 0 {
        let top: u32 = (31 - lz) as u32;
        let digits: u32 = (32 - lz) as u32;
        assert(1u64 << (top as u64) <= x) by (bit_vector)
            requires
                top < 32,
                (x >> top) & 1u32 != 0u32,
        ;
        if lz > 0 {
            assert(x < 1u64 << (digits as u64)) by (bit_vector)
                requires
                    digits < 32,
                    x >> digits == 0,
            ;
        }
        lemma_shift_is_pow2((31 - lz) as u32);
        if lz > 0 {
            lemma_shift_is_pow2((32 - lz) as u32);
        } else {
            lemma2_to64();
        }
        lemma_bit_length_unique(x as nat, (32 - lz) as nat);
    }
}

/// Clearing the low `k` bits of `y` rounds it down to a multiple of `2^k`.
proof fn lemma_clear_low_bits(y: i32, k: u32, step: i32, mask: i32)
    requires
        5 <= k <= 30,
        step == 1i32 << k,
        mask == step - 1,
    ensures
        step == pow2(k as nat),
        (y & !mask) == (y as int / step as int) * step,
{
    lemma_shift_is_pow2(k);
    assert((1i32 << k) as int == (1u64 << (k as u64)) as int) by (bit_vector)
        requires
            5 <= k <= 30,
    ;
    let q: i32 = y >> k;
    let m: i32 = y & mask;
    assert(0 <= m && m <= mask && (y & !mask) + m == y) by (bit_vector)
        requires
            5 <= k <= 30,
            step == 1i32 << k,
            mask == step - 1,
            m == y & mask,
    ;
    assert((y & !mask) == q * step) by (bit_vector)
        requires
            5 <= k <= 30,
            step == 1i32 << k,
            mask == step - 1,
            q == y >> k,
    ;
    assert(y == step * q + m) by (nonlinear_arith)
        requires
            y == q * step + m,
    ;
    lemma_fundamental_div_mod_converse(y as int, step as int, q as int, m as int);
}

/// Rounds a surface dimension up to the nearest multiple of its accuracy, which for dimensions
/// of at least 64 lies between a quarter and a half of the dimension. Nothing is rounded more
/// finely than to multiples of 32.
pub fn next_size(x: i32) -> (r: i32)
    requires
        x <= MAX_DIMENSION,
    ensures
        r == rounded_size(x as int),
{
    let word: u32 = #[verifier::truncate] (x as u32);
    let zeros: u32 = word.leading_zeros();
    proof {
        lemma_leading_zeros(word);
        assert(x >= 0 ==> x as u32 == x) by (bit_vector);
        assert(x < 0 ==> x as u32 >= 0x8000_0000u32) by (bit_vector);
        lemma2_to64();
        if x < 0 {
            lemma_bit_length_unique(word as nat, 32);
        } else if x > 0 {
            lemma_bit_length_bounds(x as nat);
            if bit_length(x as nat) >= 32 {
                lemma_pow2_monotone(31, (bit_length(x as nat) - 1) as nat);
            }
            if x < 0x4000_0000 && bit_length(x as nat) >= 31 {
                lemma_pow2_monotone(30, (bit_length(x as nat) - 1) as nat);
            }
        }
    }
    let digits: u32 = if 32 - zeros < 7 { 7 } else { 32 - zeros };
    let step: i32 = 1i32 << (digits - 2);
    proof {
        let k: u32 = (digits - 2) as u32;
        lemma_shift_is_pow2(k);
        assert(0 < (1i32 << k) && (1i32 << k) as int == (1u64 << (k as u64)) as int) by (bit_vector)
            requires
                5 <= k <= 30,
        ;
        lemma_pow2_monotone(k as nat, 30);
        if x >= 0 {
            lemma_pow2_monotone(k as nat, 29);
        }
        if 0 <= x < 0x4000_0000 {
            lemma_pow2_monotone(k as nat, 28);
        }
    }
    let mask: i32 = step - 1;
    proof {
        lemma_clear_low_bits((x + mask) as i32, (digits - 2) as u32, step, mask);
    }
    (x + mask) & !mask
}

proof fn lemma_accuracy_positive(x: int)
    ensures
        accuracy(x) >= 32,
{
    lemma2_to64();
    if x >= 0 && bit_length(x as nat) >= 7 {
        lemma_pow2_monotone(5, (bit_length(x as nat) - 2) as nat);
    }
}

/// A rounded dimension is a multiple of the accuracy, is no smaller than the dimension itself,
/// and exceeds it by less than the accuracy.
pub proof fn law_rounded_size_bounds(x: int)
    ensures
        x <= rounded_size(x) < x + accuracy(x),
        rounded_size(x) % accuracy(x) == 0,
{
    lemma_accuracy_positive(x);
    let a = accuracy(x);
    lemma_fundamental_div_mod(x + a - 1, a);
    lemma_mod_bound(x + a - 1, a);
    lemma_mul_is_commutative(a, (x + a - 1) / a);
    lemma_mod_multiples_basic((x + a - 1) / a, a);
}

/// No multiple of the accuracy between a dimension and its rounded size is passed over.
pub proof fn law_rounded_size_least(x: int, n: int)
    requires
        n % accuracy(x) == 0,
        n >= x,
    ensures
        rounded_size(x) <= n,
{
    lemma_accuracy_positive(x);
    law_rounded_size_bounds(x);
    let a = accuracy(x);
    let q = (x + a - 1) / a;
    lemma_fundamental_div_mod(n, a);
    if rounded_size(x) > n {
        assert(q >= n / a + 1) by (nonlinear_arith)
            requires
                q * a > a * (n / a),
                a > 0,
        ;
        assert(q * a >= a * (n / a) + a) by (nonlinear_arith)
            requires
                q >= n / a + 1,
                a > 0,
        ;
    }
}

/// From 64 on, the accuracy is more than a quarter and at most a half of the dimension.
pub proof fn law_accuracy_range(x: int)
    requires
        x >= 64,
    ensures
        2 * accuracy(x) <= x < 4 * accuracy(x),
{
    let b = bit_length(x as nat);
    lemma2_to64();
    lemma_bit_length_bounds(x as nat);
    if b < 7 {
        lemma_pow2_monotone(b, 6);
    }
    lemma_pow2_unfold(b);
    lemma_pow2_unfold((b - 1) as nat);
}

/// The accuracy is always a power of two. Dimensions below 64 share that of 32, and the negative
/// ones, which have all digits of a machine word, the largest.
pub proof fn law_accuracy_is_a_power_of_two(x: int)
    requires
        x <= i32::MAX,
    ensures
        exists|k: nat| 5 <= k <= 30 && accuracy(x) == #[trigger] pow2(k),
        0 <= x < 64 ==> accuracy(x) == 32,
        x < 0 ==> accuracy(x) == 0x4000_0000,
{
    lemma2_to64();
    if x < 0 {
        assert(accuracy(x) == pow2(30));
    } else if x == 0 {
        assert(accuracy(x) == pow2(5));
    } else {
        let b = bit_length(x as nat);
        lemma_bit_length_bounds(x as nat);
        if x < 64 && b >= 7 {
            lemma_pow2_monotone(6, (b - 1) as nat);
        }
        if b > 31 {
            lemma_pow2_monotone(31, (b - 1) as nat);
        }
        if b < 7 {
            assert(accuracy(x) == pow2(5));
        } else {
            assert(accuracy(x) == pow2((b - 2) as nat));
        }
    }
}

/// The power of two above a positive dimension is a multiple of its accuracy, so rounding
/// never passes it. Dimensions of fewer than seven digits share 64.
proof fn lemma_rounded_size_power(x: int)
    requires
        x > 0,
    ensures
        bit_length(x as nat) >= 7 ==> rounded_size(x) <= pow2(bit_length(x as nat)),
        bit_length(x as nat) < 7 ==> x < 64 && rounded_size(x) <= 64,
{
    let b = bit_length(x as nat);
    lemma2_to64();
    lemma_bit_length_bounds(x as nat);
    if b >= 7 {
        let a = accuracy(x);
        lemma_pow2_unfold(b);
        lemma_pow2_unfold((b - 1) as nat);
        lemma_accuracy_positive(x);
        lemma_mod_multiples_basic(4, a);
        law_rounded_size_least(x, pow2(b) as int);
    } else {
        lemma_pow2_monotone(b, 6);
        law_rounded_size_least(x, 64);
    }
}

/// A larger dimension never gets a smaller surface.
pub proof fn law_rounded_size_monotone(x: int, y: int)
    requires
        x <= y,
    ensures
        rounded_size(x) <= rounded_size(y),
{
    law_rounded_size_bounds(x);
    law_rounded_size_bounds(y);
    lemma2_to64();
    if accuracy(x) == accuracy(y) {
        law_rounded_size_least(x, rounded_size(y));
    } else if x <= 0 {
        lemma_accuracy_positive(x);
        law_rounded_size_least(x, 0);
    } else {
        let bx = bit_length(x as nat);
        let by = bit_length(y as nat);
        lemma_bit_length_bounds(x as nat);
        lemma_bit_length_bounds(y as nat);
        lemma_rounded_size_power(x);
        if by < bx {
            lemma_pow2_monotone(by, (bx - 1) as nat);
        }
        if bx >= 7 {
            lemma_pow2_monotone(bx, (by - 1) as nat);
        } else {
            lemma_pow2_monotone(6, (by - 1) as nat);
        }
    }
}

/// A size that has been rounded already is kept: asking again for the same dimension never
/// calls for another surface.
pub proof fn law_rounded_size_idempotent(x: int)
    ensures
        rounded_size(rounded_size(x)) == rounded_size(x),
{
    let r = rounded_size(x);
    law_rounded_size_bounds(x);
    law_rounded_size_bounds(r);
    lemma_accuracy_positive(x);
    lemma_accuracy_positive(r);
    lemma2_to64();
    if x < 0 {
        law_rounded_size_least(x, 0);
    } else if x > 0 {
        let b = bit_length(x as nat);
        lemma_bit_length_bounds(x as nat);
        lemma_rounded_size_power(x);
        if b >= 7 {
            if r < pow2(b) {
                lemma_bit_length_unique(r as nat, b);
            } else {
                lemma_pow2_unfold(b + 1);
                lemma_pow2_unfold(b);
                lemma_bit_length_unique(r as nat, b + 1);
                lemma_mod_multiples_basic(2, accuracy(r));
            }
        } else if r < 64 {
            lemma_bit_length_bounds(r as nat);
            if bit_length(r as nat) >= 7 {
                lemma_pow2_monotone(6, (bit_length(r as nat) - 1) as nat);
            }
        } else {
            lemma_bit_length_unique(64, 7);
        }
    }
    law_rounded_size_least(r, r);
}

/// The largest dimension that can be rounded without leaving the machine integers is kept.
pub proof fn lemma_largest_is_rounded()
    ensures
        rounded_size(0x6000_0000) == 0x6000_0000,
{
    lemma2_to64();
    lemma_bit_length_unique(0x6000_0000, 31);
    assert(0x6000_0000int % 0x2000_0000 == 0);
    law_rounded_size_least(0x6000_0000, 0x6000_0000);
    law_rounded_size_bounds(0x6000_0000);
}

/// What a surface holds of each pixel.
#[derive(Clone, Copy, Debug, PartialEq, Eq, Structural)]
pub enum Content {
    Color,
    ColorAlpha,
}

/// What became of the attempt to make a surface.
#[derive(Clone, Copy, Debug, PartialEq, Eq, Structural)]
pub enum SurfaceOutcome {
    Created,
    /// The drawing area has a window, but it gave no surface.
    Failed,
    /// The drawing area has no window to make a surface for.
    NoWindow,
}

/// Why there is no surface.
#[derive(Clone, Copy, Debug, PartialEq, Eq, Structural)]
pub enum SurfaceError {
    CreateFailed,
    NoWindow,
}

impl SurfaceError {
    /// The words for the error.
    pub fn message(&self) -> (r: &'static str)
        ensures
            *self is CreateFailed ==> r@ == "create_similar_surface failed"@,
            *self is NoWindow ==> r@ == "drawing area has no window"@,
    {
        match self {
            SurfaceError::CreateFailed => "create_similar_surface failed",
            SurfaceError::NoWindow => "drawing area has no window",
        }
    }
}

}
