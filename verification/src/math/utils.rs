use vstd::prelude::*;

verus! {

/// The fraction `num / den`, cut off at 1, scaled to `0 ..= levels` and
/// rounded to the nearest integer, a half rounding up.
pub open spec fn quantized(num: int, den: int, levels: int) -> int {
    let n = if num > den {
        den
    } else {
        num
    };
    (2 * levels * n + den) / (2 * den)
}

/// Quantizes the fraction `num / den` to a channel value of `0 ..= levels`.
pub fn quantize_ratio(num: u32, den: u32, levels: u16) -> (q: u16)
    requires
        den > 0,
    ensures
        q == quantized(num as int, den as int, levels as int),
        q <= levels,
        num >= den ==> q == levels,
        num == 0 ==> q == 0,
{
    let n: u64 = if num > den {
        den as u64
    } else {
        num as u64
    };
    let d: u64 = den as u64;
    let l: u64 = levels as u64;
    assert(2 * l * n <= 2 * 65535 * 0xFFFF_FFFF) by (nonlinear_arith)
        requires
            l <= 65535,
            n <= 0xFFFF_FFFF,
    ;
    let q: u64 = (2 * l * n + d) / (2 * d);
    proof {
        lemma_quantized_close(n as int, d as int, l as int);
        lemma_quantized_ends(d as int, l as int);
    }
    q as u16
}

/// Quantizing and scaling back loses at most half a step: the distance of
/// `q / levels` from `num / den` is at most `1 / (2 levels)`, stated here
/// with all denominators cleared. The result never exceeds `levels`.
pub proof fn lemma_quantized_close(num: int, den: int, levels: int)
    requires
        0 <= num <= den,
        0 < den,
        0 <= levels,
    ensures
        0 <= quantized(num, den, levels) <= levels,
        -den < 2 * den * quantized(num, den, levels) - 2 * levels * num <= den,
{
    let q = quantized(num, den, levels);
    let t = 2 * levels * num + den;
    assert(0 <= levels * num <= levels * den) by (nonlinear_arith)
        requires
            0 <= num <= den,
            0 <= levels,
    ;
    vstd::arithmetic::div_mod::lemma_fundamental_div_mod(t, 2 * den);
    vstd::arithmetic::div_mod::lemma_mod_bound(t, 2 * den);
    assert(t == (2 * den) * q + t % (2 * den));
    assert((2 * den) * q == 2 * den * q) by (nonlinear_arith);
    assert(0 <= q <= levels) by (nonlinear_arith)
        requires
            -den < 2 * den * q - 2 * levels * num <= den,
            0 <= levels * num <= levels * den,
            0 < den,
    ;
}

/// 0 quantizes to 0 and 1 to `levels`.
pub proof fn lemma_quantized_ends(den: int, levels: int)
    requires
        0 < den,
        0 <= levels,
    ensures
        quantized(0, den, levels) == 0,
        quantized(den, den, levels) == levels,
{
    assert(2 * levels * 0 + den == den) by (nonlinear_arith);
    assert(den / (2 * den) == 0) by (nonlinear_arith)
        requires
            0 < den,
    ;
    assert((2 * levels * den + den) / (2 * den) == levels) by (nonlinear_arith)
        requires
            0 < den,
            0 <= levels,
    ;
}

} // verus!
