use vstd::arithmetic::power::{
    lemma_pow_adds, lemma_pow_increases, lemma_pow_multiplies, lemma_pow_positive, pow,
};
use vstd::arithmetic::power2::lemma2_to64;
use vstd::prelude::*;

verus! {

/// The base of the digits of a large number: `2^32`.
pub open spec fn digit_base() -> int {
    0x1_0000_0000
}

/// The number whose base-`2^32` digits, least significant first, are `s`.
pub open spec fn big_value(s: Seq<u32>) -> int
    decreases s.len(),
{
    if s.len() == 0 {
        0
    } else {
        big_value(s.drop_last()) + s.last() * pow(digit_base(), (s.len() - 1) as nat)
    }
}

/// `k` is `floor(n * log2(n))`: `2^k <= n^n < 2^(k+1)`.
pub open spec fn is_n_log2_n_floor(n: nat, k: nat) -> bool {
    pow(2, k) <= pow(n as int, n) < pow(2, k + 1)
}

/// `floor(n * log2(n))`, the largest `k` with `2^k <= n^n` (`0` for `n <= 1`).
pub open spec fn n_log2_n_floor(n: nat) -> nat {
    choose|k: nat| is_n_log2_n_floor(n, k)
}

proof fn lemma_floor_unique(n: nat, k1: nat, k2: nat)
    requires
        is_n_log2_n_floor(n, k1),
        is_n_log2_n_floor(n, k2),
    ensures
        k1 == k2,
{
    if k1 < k2 {
        lemma_pow_increases(2, k1 + 1, k2);
    } else if k2 < k1 {
        lemma_pow_increases(2, k2 + 1, k1);
    }
}

proof fn lemma_base_power(t: nat)
    ensures
        pow(digit_base(), t) == pow(2, 32 * t),
        pow(digit_base(), t + 1) == digit_base() * pow(digit_base(), t),
        pow(digit_base(), t) > 0,
{
    reveal(pow);
    lemma2_to64();
    reveal(vstd::arithmetic::power2::pow2);
    assert(pow(2, 32) == digit_base());
    lemma_pow_multiplies(2, 32, t);
    lemma_pow_positive(digit_base(), t);
}

proof fn lemma_value_push(s: Seq<u32>, d: u32)
    ensures
        big_value(s.push(d)) == big_value(s) + d * pow(digit_base(), s.len()),
{
    assert(s.push(d).drop_last() =~= s);
}

proof fn lemma_value_bounds(s: Seq<u32>)
    ensures
        0 <= big_value(s) < pow(digit_base(), s.len()),
    decreases s.len(),
{
    if s.len() == 0 {
        reveal(pow);
    } else {
        let t = (s.len() - 1) as nat;
        lemma_value_bounds(s.drop_last());
        lemma_base_power(t);
        let p = pow(digit_base(), t);
        let v = big_value(s.drop_last());
        let d = s.last() as int;
        assert(0 <= v + d * p < digit_base() * p) by (nonlinear_arith)
            requires
                0 <= v < p,
                0 <= d < digit_base(),
        ;
    }
}

proof fn lemma_value_zero_top(s: Seq<u32>, h: int)
    requires
        0 <= h <= s.len(),
        forall|j: int| h <= j < s.len() ==> s[j] == 0,
    ensures
        big_value(s) == big_value(s.take(h)),
    decreases s.len(),
{
    if s.len() > h {
        assert(s.drop_last().take(h) =~= s.take(h));
        assert(s[s.len() - 1] == 0);
        lemma_value_zero_top(s.drop_last(), h);
    } else {
        assert(s.take(h) =~= s);
    }
}

/// `s` times the digit `c`.
fn mul_digit(s: &Vec<u32>, c: u32) -> (r: Vec<u32>)
    ensures
        big_value(r@) == big_value(s@) * c,
        r.len() <= s.len() + 1,
{
    let mut out: Vec<u32> = Vec::new();
    let mut carry: u64 = 0;
    let mut i: usize = 0;
    while i < s.len()
        invariant
            i <= s.len(),
            out.len() == i,
            carry < digit_base(),
            big_value(out@) + carry * pow(digit_base(), i as nat) == big_value(s@.take(i as int))
                * c,
        decreases s.len() - i,
    {
        assert(s[i as int] * c + carry <= 0xffff_ffff_0000_0000) by (nonlinear_arith)
            requires
                s[i as int] <= 0xffff_ffff,
                c <= 0xffff_ffff,
                carry <= 0xffff_ffff,
        ;
        let prod: u64 = s[i] as u64 * c as u64 + carry;
        let digit = (prod % 0x1_0000_0000) as u32;
        let next_carry = prod / 0x1_0000_0000;
        proof {
            let p = pow(digit_base(), i as nat);
            lemma_value_push(out@, digit);
            lemma_base_power(i as nat);
            assert(s@.take(i + 1).drop_last() =~= s@.take(i as int));
            let v = big_value(out@);
            let w = big_value(s@.take(i as int));
            assert(v + digit * p + next_carry * (digit_base() * p) == (w + s[i as int] * p) * c)
                by (nonlinear_arith)
                requires
                    v + carry * p == w * c,
                    prod == s[i as int] * c + carry,
                    prod == digit + next_carry * digit_base(),
            ;
        }
        out.push(digit);
        carry = next_carry;
        i = i + 1;
    }
    assert(s@.take(s.len() as int) =~= s@);
    if carry > 0 {
        proof { lemma_value_push(out@, carry as u32) }
        out.push(carry as u32);
    }
    out
}

/// `floor(log2(b))` for a positive digit, with `2^e <= b < 2^(e+1)`.
fn digit_log2(b: u32) -> (e: u32)
    requires
        0 < b,
    ensures
        pow(2, e as nat) <= b < pow(2, (e + 1) as nat),
        e < 32,
{
    let mut rest: u32 = b;
    let mut e: u32 = 0;
    proof { reveal(pow) }
    while rest >= 2
        invariant
            1 <= rest <= b,
            rest * pow(2, e as nat) <= b < (rest + 1) * pow(2, e as nat),
            rest * pow(2, e as nat) <= 0xffff_ffff,
            e < 32,
        decreases rest,
    {
        let half = rest / 2;
        proof {
            let p = pow(2, e as nat);
            reveal(pow);
            assert(pow(2, (e + 1) as nat) == 2 * p);
            lemma_pow_positive(2, e as nat);
            assert(half * (2 * p) <= rest * p && (rest + 1) * p <= (half + 1) * (2 * p))
                by (nonlinear_arith)
                requires
                    rest == 2 * half || rest == 2 * half + 1,
                    p > 0,
            ;
            if e + 1 >= 32 {
                lemma_pow_increases(2, 32, (e + 1) as nat);
                lemma2_to64();
                reveal(vstd::arithmetic::power2::pow2);
                assert(half * (2 * p) >= 2 * p) by (nonlinear_arith)
                    requires
                        half >= 1,
                        p > 0,
                ;
            }
        }
        rest = half;
        e = e + 1;
    }
    proof {
        reveal(pow);
        assert(pow(2, (e + 1) as nat) == 2 * pow(2, e as nat));
    }
    e
}

/// `floor(n * log2(n))`: the largest `k` with `2^k <= n^n`, computed exactly from
/// the digits of `n^n`; `0` for `n <= 1`.
pub fn n_log2_n(n: usize) -> (k: usize)
    requires
        n * n <= usize::MAX,
    ensures
        is_n_log2_n_floor(n as nat, k as nat),
        k == n_log2_n_floor(n as nat),
{
    assert(n < 0x1_0000_0000) by (nonlinear_arith)
        requires
            n * n <= usize::MAX,
            usize::MAX <= 0xffff_ffff_ffff_ffff,
    ;
    let mut x: Vec<u32> = Vec::new();
    proof {
        lemma_value_push(x@, 1u32);
        reveal(pow);
    }
    x.push(1u32);
    let mut e: usize = 0;
    while e < n
        invariant
            e <= n,
            n < 0x1_0000_0000,
            big_value(x@) == pow(n as int, e as nat),
            x.len() <= e + 1,
        decreases n - e,
    {
        x = mul_digit(&x, n as u32);
        proof {
            reveal(pow);
            assert(pow(n as int, (e + 1) as nat) == n * pow(n as int, e as nat));
            assert(pow(n as int, e as nat) * n == n * pow(n as int, e as nat)) by (nonlinear_arith);
        }
        e = e + 1;
    }
    let ghost v = big_value(x@);
    proof {
        if n > 0 {
            lemma_pow_positive(n as int, n as nat);
        } else {
            reveal(pow);
        }
    }
    let mut h: usize = x.len();
    while h > 0 && x[h - 1] == 0
        invariant
            h <= x.len(),
            forall|j: int| h <= j < x.len() ==> x@[j] == 0,
        decreases h,
    {
        h = h - 1;
    }
    proof {
        lemma_value_zero_top(x@, h as int);
        if h == 0 {
            assert(x@.take(0) =~= Seq::<u32>::empty());
        }
    }
    let t = h - 1;
    let top = x[t];
    let d = digit_log2(top);
    proof {
        let s = x@.take(h as int);
        assert(s.drop_last() =~= x@.take(t as int));
        lemma_value_bounds(x@.take(t as int));
        lemma_base_power(t as nat);
        let p = pow(digit_base(), t as nat);
        let low = big_value(x@.take(t as int));
        let lo = pow(2, d as nat);
        let hi = pow(2, (d + 1) as nat);
        assert(v == low + top * p);
        assert(lo * p <= v < hi * p) by (nonlinear_arith)
            requires
                v == low + top * p,
                0 <= low < p,
                lo <= top < hi,
                p > 0,
        ;
        lemma_pow_adds(2, 32 * t as nat, d as nat);
        lemma_pow_adds(2, 32 * t as nat, (d + 1) as nat);
        assert(32 * t + d + 1 == 32 * t + (d + 1));
        assert(is_n_log2_n_floor(n as nat, (32 * t + d) as nat));
        lemma_floor_unique(n as nat, (32 * t + d) as nat, n_log2_n_floor(n as nat));
        assert(32 * t + d < 32 * (n + 1));
        assert(32 * (n + 1) <= usize::MAX) by (nonlinear_arith)
            requires
                n * n <= usize::MAX,
                usize::MAX >= 0xffff_ffff,
        ;
    }
    32 * t + d as usize
}

} // verus!
