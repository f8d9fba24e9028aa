//! Nearest-index decimation of a chunk of samples.
//!
//! A fractional cursor starts at the first sample of the chunk and advances by
//! `native_rate / target_rate` for every sample it hands out; the sample under
//! the cursor, rounded down, is kept.  The cursor is held exactly, as a whole
//! part and the numerator of a fraction over `target_rate`, so no rounding
//! error builds up however long the chunk is.

use vstd::prelude::*;
use vstd::arithmetic::div_mod::lemma_fundamental_div_mod;
use vstd::arithmetic::div_mod::lemma_fundamental_div_mod_converse_div;

verus! {

/// Index of the input sample that becomes output sample `k`: the cursor
/// `k * native / target`, rounded down.
pub open spec fn source_index(k: int, native: int, target: int) -> int {
    (k * native) / target
}

/// How many samples a chunk of `n` input samples yields: one for every cursor
/// position that still lies inside the chunk, which is `n * target / native`
/// rounded up.
pub open spec fn decimated_len(n: int, native: int, target: int) -> int {
    (n * target + native - 1) / native
}

/// The decimated chunk: output sample `k` is the input sample at
/// `source_index(k)`.
pub open spec fn decimated<S>(input: Seq<S>, native: int, target: int) -> Seq<S> {
    Seq::new(
        decimated_len(input.len() as int, native, target) as nat,
        |k: int| input[source_index(k, native, target)],
    )
}

/// For a positive divisor, a quotient stays below a bound exactly when the
/// dividend stays below the bound's multiple.
proof fn lemma_quotient_below(x: int, d: int, bound: int)
    requires
        d > 0,
    ensures
        x / d < bound <==> x < bound * d,
{
    lemma_fundamental_div_mod(x, d);
    let q = x / d;
    let r = x % d;
    assert(x == d * q + r);
    assert(0 <= r < d);
    if q < bound {
        assert(d * q + r < bound * d) by (nonlinear_arith)
            requires
                q + 1 <= bound,
                0 <= r < d,
        ;
    } else {
        assert(d * q + r >= bound * d) by (nonlinear_arith)
            requires
                q >= bound,
                0 <= r,
                d > 0,
        ;
    }
}

/// The cursor of output sample `k` lies inside a chunk of `n` samples exactly
/// when `k` is below the decimated length: no sample is taken from beyond the
/// chunk and none inside it is left out.
pub proof fn lemma_cursor_inside_chunk(k: int, n: int, native: int, target: int)
    requires
        0 <= k,
        0 <= n,
        native > 0,
        target > 0,
    ensures
        k < decimated_len(n, native, target) <==> source_index(k, native, target) < n,
        source_index(k, native, target) >= 0,
{
    // source_index(k) < n  <==>  k * native < n * target
    lemma_quotient_below(k * native, target, n);
    // k + 1 <= ceil  <==>  (k + 1) * native <= n * target + native - 1
    lemma_quotient_below(n * target + native - 1, native, k + 1);
    assert((k + 1) * native == k * native + native) by (nonlinear_arith);
    assert(k * native >= 0) by (nonlinear_arith)
        requires
            k >= 0,
            native > 0,
    ;
    lemma_quotient_below(k * native, target, 0);
}

/// The decimated length is never negative.
pub proof fn lemma_decimated_len_nonnegative(n: int, native: int, target: int)
    requires
        0 <= n,
        native > 0,
        target > 0,
    ensures
        decimated_len(n, native, target) >= 0,
{
    assert(n * target >= 0) by (nonlinear_arith)
        requires
            n >= 0,
            target > 0,
    ;
    lemma_quotient_below(n * target + native - 1, native, 0);
}

/// The output runs at the target rate within rounding: the decimated length
/// is `n * target / native` rounded up, so scaled back by `native` it reaches
/// `n * target` and overshoots it by less than one input step.
pub proof fn lemma_decimated_len_tracks_ratio(n: int, native: int, target: int)
    requires
        0 <= n,
        native > 0,
        target > 0,
    ensures
        n * target <= decimated_len(n, native, target) * native < n * target + native,
{
    let x = n * target + native - 1;
    lemma_fundamental_div_mod(x, native);
    let q = x / native;
    let r = x % native;
    assert(x == native * q + r);
    assert(native * q == q * native) by (nonlinear_arith);
}

/// Downsampling never yields more samples than it was given: when the native
/// rate is at least the target rate, the output is no longer than the input.
pub proof fn lemma_downsampling_never_lengthens(n: int, native: int, target: int)
    requires
        0 <= n,
        target > 0,
        native >= target,
    ensures
        decimated_len(n, native, target) <= n,
{
    // the cursor of output sample n is at or beyond n
    lemma_cursor_inside_chunk(n, n, native, target);
    lemma_quotient_below(n * native, target, n);
    assert(n * native >= n * target) by (nonlinear_arith)
        requires
            n >= 0,
            native >= target,
    ;
}

/// The cursor never moves backwards, and when downsampling it moves on by at
/// least one sample per step, so no input sample is handed out twice.
pub proof fn lemma_cursor_advances(k: int, native: int, target: int)
    requires
        0 <= k,
        native > 0,
        target > 0,
    ensures
        source_index(k, native, target) <= source_index(k + 1, native, target),
        native >= target ==> source_index(k, native, target) < source_index(
            k + 1,
            native,
            target,
        ),
{
    let a = source_index(k, native, target);
    assert((k + 1) * native == k * native + native) by (nonlinear_arith);
    // a <= (k*native)/target, so a * target <= k * native < (k+1) * native
    lemma_quotient_below(k * native, target, a);
    lemma_quotient_below((k + 1) * native, target, a);
    if native >= target {
        lemma_quotient_below((k + 1) * native, target, a + 1);
        assert((a + 1) * target == a * target + target) by (nonlinear_arith);
    }
}

/// At equal rates decimation keeps every sample.
pub proof fn lemma_equal_rates_keep_everything<S>(input: Seq<S>, rate: int)
    requires
        rate > 0,
    ensures
        decimated(input, rate, rate) == input,
{
    let n = input.len() as int;
    lemma_decimated_len_tracks_ratio(n, rate, rate);
    let len = decimated_len(n, rate, rate);
    assert(len == n) by (nonlinear_arith)
        requires
            n * rate <= len * rate < n * rate + rate,
            rate > 0,
    ;
    assert forall|k: int| 0 <= k < n implies source_index(k, rate, rate) == k by {
        lemma_fundamental_div_mod_converse_div(k * rate, rate, k, 0);
    }
    assert(decimated(input, rate, rate) =~= input);
}

/// What downsampling does to a chunk: from a native rate that is at least the
/// target rate, the chunk comes out no longer than it went in; its length is
/// the input's length times `target / native`, rounded up, so that the output
/// runs at the target rate to within one sample; and every output sample is
/// an input sample, each later one taken from further on.
pub proof fn lemma_downsampling<S>(input: Seq<S>, native: int, target: int)
    requires
        target > 0,
        native >= target,
    ensures
        decimated(input, native, target).len() <= input.len(),
        input.len() * target <= decimated(input, native, target).len() * native < input.len()
            * target + native,
        forall|k: int|
            0 <= k < decimated(input, native, target).len() ==> 0 <= #[trigger] source_index(
                k,
                native,
                target,
            ) < input.len() && decimated(input, native, target)[k] == input[source_index(
                k,
                native,
                target,
            )],
        forall|k: int|
            0 <= k ==> #[trigger] source_index(k, native, target) < source_index(
                k + 1,
                native,
                target,
            ),
{
    let n = input.len() as int;
    lemma_decimated_len_nonnegative(n, native, target);
    lemma_downsampling_never_lengthens(n, native, target);
    lemma_decimated_len_tracks_ratio(n, native, target);
    assert forall|k: int| 0 <= k < decimated(input, native, target).len() implies 0
        <= #[trigger] source_index(k, native, target) < input.len() by {
        lemma_cursor_inside_chunk(k, n, native, target);
    }
    assert forall|k: int| 0 <= k implies #[trigger] source_index(k, native, target)
        < source_index(k + 1, native, target) by {
        lemma_cursor_advances(k, native, target);
    }
}

/// Decimates one chunk from `native_rate` to `target_rate`.
pub fn decimate<S: Copy>(input: &[S], native_rate: u32, target_rate: u32) -> (out: Vec<S>)
    requires
        native_rate > 0,
        target_rate > 0,
    ensures
        out@ == decimated(input@, native_rate as int, target_rate as int),
{
    let n: usize = input.len();
    let whole_step: u128 = (native_rate / target_rate) as u128;
    let frac_step: u64 = (native_rate % target_rate) as u64;
    let target: u64 = target_rate as u64;
    let mut out: Vec<S> = Vec::new();
    // the cursor is `pos + frac / target`
    let mut pos: u128 = 0;
    let mut frac: u64 = 0;
    let ghost native = native_rate as int;
    let ghost tgt = target_rate as int;
    proof {
        lemma_fundamental_div_mod(native, tgt);
        lemma_decimated_len_nonnegative(n as int, native, tgt);
        assert(0 * tgt + 0 == 0 * native) by (nonlinear_arith);
    }
    while pos < n as u128
        invariant
            n == input@.len(),
            native == native_rate as int,
            tgt == target_rate as int,
            target == target_rate,
            native > 0,
            tgt > 0,
            whole_step as int == native / tgt,
            frac_step as int == native % tgt,
            native == tgt * (native / tgt) + native % tgt,
            0 <= frac < target,
            pos <= n as int + whole_step as int + 1,
            pos as int * tgt + frac as int == out@.len() as int * native,
            out@.len() <= decimated_len(n as int, native, tgt),
            forall|j: int|
                0 <= j < out@.len() ==> 0 <= #[trigger] source_index(j, native, tgt) < n
                    && out@[j] == input@[source_index(j, native, tgt)],
        decreases decimated_len(n as int, native, tgt) - out@.len(),
    {
        let ghost k = out@.len() as int;
        proof {
            lemma_fundamental_div_mod_converse_div(k * native, tgt, pos as int, frac as int);
            lemma_cursor_inside_chunk(k, n as int, native, tgt);
        }
        out.push(input[pos as usize]);
        let mut next_frac: u64 = frac + frac_step;
        let mut next_pos: u128 = pos + whole_step;
        if next_frac >= target {
            next_frac = next_frac - target;
            next_pos = next_pos + 1;
        }
        proof {
            let w = native / tgt;
            let f = native % tgt;
            assert(next_pos as int * tgt + next_frac as int == (pos as int * tgt + frac as int) + (
            tgt * w + f)) by (nonlinear_arith)
                requires
                    (next_pos as int == pos as int + w && next_frac as int == frac as int + f) || (
                    next_pos as int == pos as int + w + 1 && next_frac as int == frac as int + f
                        - tgt),
            ;
            assert((k + 1) * native == k * native + native) by (nonlinear_arith);
        }
        pos = next_pos;
        frac = next_frac;
    }
    proof {
        let k = out@.len() as int;
        lemma_fundamental_div_mod_converse_div(k * native, tgt, pos as int, frac as int);
        lemma_cursor_inside_chunk(k, n as int, native, tgt);
        assert(out@ =~= decimated(input@, native, tgt));
    }
    out
}

} // verus!
