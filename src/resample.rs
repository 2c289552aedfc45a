//! Linear-interpolation resampling.
//!
//! Rates are handled in exact integer arithmetic: output index `i` reads the
//! source at position `i * from / to`, split into a whole index and a
//! remainder `(i * from) % to` over the denominator `to`. The blend of two
//! neighbouring samples is supplied by the caller, so the same code serves
//! any sample type.
use vstd::prelude::*;

verus! {

/// Number of output samples for `n` input samples: `floor(n * to / from)`.
pub open spec fn resampled_len(n: nat, from: nat, to: nat) -> nat {
    if from == 0 {
        0
    } else {
        (n * to) / from
    }
}

/// Whole part of the source position of output index `i`.
pub open spec fn source_index(i: nat, from: nat, to: nat) -> nat {
    if to == 0 {
        0
    } else {
        (i * from) / to
    }
}

/// Fractional part of the source position of output index `i`, as a
/// numerator over the denominator `to`.
pub open spec fn source_frac(i: nat, from: nat, to: nat) -> nat {
    if to == 0 {
        0
    } else {
        (i * from) % to
    }
}

/// What output index `i` of a resampling holds: a blend of the two source
/// samples around the source position, or the nearest source sample where
/// the position has no right neighbour.
pub open spec fn resampled_at<T, F: Fn(T, T, u32, u32) -> T>(
    s: Seq<T>,
    from: nat,
    to: nat,
    blend: F,
    i: nat,
    out: T,
) -> bool {
    let b = source_index(i, from, to);
    if b + 1 < s.len() {
        call_ensures(blend, (s[b as int], s[(b + 1) as int], source_frac(i, from, to) as u32, to as u32), out)
    } else {
        out == s[if b < s.len() { b as int } else { s.len() - 1 }]
    }
}

/// Converts `samples` taken at `from_rate` into samples at `to_rate` by
/// linear interpolation. `blend(a, b, num, den)` gives the point
/// `num / den` of the way from `a` to `b`, with `num < den`.
///
/// Empty input, or equal rates, give the input back unchanged.
pub fn resample<T: Copy, F: Fn(T, T, u32, u32) -> T>(
    samples: &[T],
    from_rate: u32,
    to_rate: u32,
    blend: F,
) -> (out: Vec<T>)
    requires
        samples.len() == 0 || from_rate > 0 || from_rate == to_rate,
        from_rate > 0 ==> resampled_len(samples.len() as nat, from_rate as nat, to_rate as nat)
            <= usize::MAX,
        forall|a: T, b: T, num: u32, den: u32| num < den ==> call_requires(blend, (a, b, num, den)),
    ensures
        samples.len() == 0 || from_rate == to_rate ==> out@ == samples@,
        samples.len() > 0 && from_rate != to_rate ==> {
            &&& out.len() == resampled_len(samples.len() as nat, from_rate as nat, to_rate as nat)
            &&& forall|i: int|
                0 <= i < out.len() ==> resampled_at(
                    samples@,
                    from_rate as nat,
                    to_rate as nat,
                    blend,
                    i as nat,
                    #[trigger] out[i],
                )
        },
{
    if samples.len() == 0 || from_rate == to_rate {
        return copy_samples(samples);
    }
    let n: usize = samples.len();
    let from: u128 = from_rate as u128;
    let to: u128 = to_rate as u128;
    proof {
        assert((n as nat) * (to_rate as nat) <= (usize::MAX as nat) * (u32::MAX as nat))
            by (nonlinear_arith)
            requires
                n <= usize::MAX,
                to_rate <= u32::MAX,
        ;
    }
    let prod: u128 = n as u128 * to;
    let q: u128 = prod / from;
    proof {
        assert(q == resampled_len(n as nat, from_rate as nat, to_rate as nat));
        resampled_len_within_one(n as nat, from_rate as nat, to_rate as nat);
    }
    let out_len: usize = q as usize;
    let mut out: Vec<T> = Vec::with_capacity(out_len);
    let mut i: usize = 0;
    while i < out_len
        invariant
            0 <= i <= out_len,
            out.len() == i,
            n == samples.len(),
            n > 0,
            from_rate > 0,
            from == from_rate as u128,
            to == to_rate as u128,
            out_len == resampled_len(n as nat, from_rate as nat, to_rate as nat),
            out_len as nat * from_rate as nat <= n as nat * to_rate as nat,
            forall|a: T, b: T, num: u32, den: u32| num < den ==> call_requires(blend, (a, b, num, den)),
            forall|k: int|
                0 <= k < i ==> resampled_at(
                    samples@,
                    from_rate as nat,
                    to_rate as nat,
                    blend,
                    k as nat,
                    #[trigger] out[k],
                ),
        decreases out_len - i,
    {
        proof {
            assert((i as nat) * (from_rate as nat) < n as nat * to_rate as nat)
                by (nonlinear_arith)
                requires
                    i < out_len,
                    from_rate > 0,
                    out_len as nat * from_rate as nat <= n as nat * to_rate as nat,
            ;
            assert(to_rate > 0) by (nonlinear_arith)
                requires
                    (i as nat) * (from_rate as nat) < n as nat * to_rate as nat,
            ;
            assert(n as nat * to_rate as nat <= (usize::MAX as nat) * (u32::MAX as nat))
                by (nonlinear_arith)
                requires
                    n <= usize::MAX,
                    to_rate <= u32::MAX,
            ;
        }
        let pos: u128 = i as u128 * from;
        proof {
            assert((pos as nat) / (to as nat) < n as nat) by (nonlinear_arith)
                requires
                    (pos as nat) < n as nat * (to as nat),
                    to > 0,
            ;
        }
        let idx: usize = (pos / to) as usize;
        let frac: u32 = (pos % to) as u32;
        let s: T = if idx + 1 < n {
            blend(samples[idx], samples[idx + 1], frac, to_rate)
        } else {
            samples[idx]
        };
        out.push(s);
        proof {
            assert(resampled_at(samples@, from_rate as nat, to_rate as nat, blend, i as nat, out[i as int]));
        }
        i = i + 1;
    }
    out
}

/// A copy of `samples`, element for element.
fn copy_samples<T: Copy>(samples: &[T]) -> (out: Vec<T>)
    ensures
        out@ == samples@,
{
    let mut out: Vec<T> = Vec::with_capacity(samples.len());
    let mut k: usize = 0;
    while k < samples.len()
        invariant
            0 <= k <= samples.len(),
            out@ == samples@.subrange(0, k as int),
        decreases samples.len() - k,
    {
        out.push(samples[k]);
        k = k + 1;
    }
    assert(samples@.subrange(0, samples.len() as int) == samples@);
    out
}

/// The length of a resampling stays within one sample of
/// `n * to / from`: it is the whole part of that ratio.
pub proof fn resampled_len_within_one(n: nat, from: nat, to: nat)
    requires
        from > 0,
    ensures
        resampled_len(n, from, to) * from <= n * to,
        n * to < (resampled_len(n, from, to) + 1) * from,
{
    let q = (n * to) / from;
    vstd::arithmetic::div_mod::lemma_fundamental_div_mod((n * to) as int, from as int);
    assert(q * from <= n * to && n * to < (q + 1) * from) by (nonlinear_arith)
        requires
            n * to == from * q + (n * to) % from,
            0 <= (n * to) % from < from,
    ;
}

} // verus!
