//! Voice activity detection on one block of audio samples.
//!
//! A block is speech when its root-mean-square amplitude is above a fixed
//! fraction of full scale. The test is memoryless: nothing of an earlier block
//! enters the classification of the next one.
//!
//! Samples are signed fixed-point numbers with 31 fractional bits, so that
//! `-2^31` stands for -1.0. Sums of squares of such samples are integers, and
//! the comparison with the threshold is exact.

use vstd::prelude::*;
use crate::flag::SpeakingFlag;

verus! {

/// The amplitude that stands for 1.0.
pub const FULL_SCALE: u64 = 0x8000_0000;

/// Numerator of the threshold, as a fraction of full scale.
pub const THRESHOLD_NUM: u64 = 1;

/// Denominator of the threshold, as a fraction of full scale.
pub const THRESHOLD_DEN: u64 = 10;

/// The square of one sample.
pub open spec fn sample_energy(sample: i32) -> nat {
    (sample as int * sample as int) as nat
}

/// The sum of the squares of all samples of a block.
pub open spec fn block_energy(block: Seq<i32>) -> nat
    decreases block.len(),
{
    if block.len() == 0 {
        0
    } else {
        block_energy(block.drop_last()) + sample_energy(block.last())
    }
}

/// Whether a block of `len` samples with the given energy has an RMS amplitude
/// above the threshold.
///
/// The RMS is `sqrt(energy / len)`. Both sides of
/// `sqrt(energy / len) / FULL_SCALE > THRESHOLD_NUM / THRESHOLD_DEN` are
/// non-negative, so the comparison is the same after squaring and clearing
/// the fractions, which leaves a statement about integers.
pub open spec fn rms_above_threshold(energy: nat, len: nat) -> bool {
    THRESHOLD_DEN * THRESHOLD_DEN * energy > THRESHOLD_NUM * THRESHOLD_NUM * FULL_SCALE
        * FULL_SCALE * len
}

/// The classification of a block: speech exactly when its RMS amplitude is
/// above the threshold. The empty block, which has no amplitude, is silence.
pub open spec fn speaking(block: Seq<i32>) -> bool {
    rms_above_threshold(block_energy(block), block.len())
}

/// The magnitude of a sample.
pub open spec fn magnitude(sample: i32) -> nat {
    if sample < 0 {
        (-(sample as int)) as nat
    } else {
        sample as nat
    }
}

/// A block that repeats one sample.
pub open spec fn steady_block(sample: i32, len: nat) -> Seq<i32> {
    Seq::new(len, |i: int| sample)
}

proof fn lemma_sample_energy_bound(sample: i32)
    ensures
        sample_energy(sample) == sample as int * sample as int,
        sample_energy(sample) <= 0x4000_0000_0000_0000,
{
    let s = sample as int;
    assert(0 <= s * s <= 0x4000_0000_0000_0000) by (nonlinear_arith)
        requires
            -0x8000_0000 <= s <= 0x7FFF_FFFF,
    ;
}

/// Classifies one block of samples.
pub fn is_speaking(block: &[i32]) -> (r: bool)
    ensures
        r == speaking(block@),
{
    let n = block.len();
    let mut energy: u128 = 0;
    let mut i: usize = 0;
    while i < n
        invariant
            i <= n,
            n == block@.len(),
            energy == block_energy(block@.take(i as int)),
            energy <= i * 0x4000_0000_0000_0000,
        decreases n - i,
    {
        let s: i64 = block[i] as i64;
        proof {
            lemma_sample_energy_bound(block[i as int]);
            assert(block@.take(i + 1).drop_last() =~= block@.take(i as int));
        }
        let square: i64 = s * s;
        energy = energy + square as u128;
        i = i + 1;
    }
    proof {
        assert(block@.take(n as int) =~= block@);
    }
    let den: u128 = THRESHOLD_DEN as u128;
    let num: u128 = THRESHOLD_NUM as u128;
    let full: u128 = FULL_SCALE as u128;
    assert(den == 10 && num == 1 && full == 0x8000_0000);
    let scale: u128 = den * den;
    let limit: u128 = num * num * full * full;
    assert(scale == 100 && limit == 0x4000_0000_0000_0000);
    assert(n <= u64::MAX);
    // `scale * energy` may not fit in 128 bits; `energy` is a whole number,
    // so it is above `limit * n / scale` exactly when it is above the whole
    // part of that quotient.
    let bound: u128 = (limit * (n as u128)) / scale;
    energy > bound
}

/// Classifies one block and publishes the classification to the flag,
/// whether or not it differs from the one published before. Answers with
/// what was published.
pub fn on_block(flag: &SpeakingFlag, block: &[i32]) -> (r: bool)
    ensures
        r == speaking(block@),
{
    let r = is_speaking(block);
    flag.publish(r);
    r
}

/// The classification depends on the mean square of the block alone, and so
/// on its RMS alone: two non-empty blocks with the same mean square are
/// classified alike, whatever their lengths.
pub proof fn classification_follows_mean_square(a: Seq<i32>, b: Seq<i32>)
    requires
        a.len() > 0,
        b.len() > 0,
        block_energy(a) * b.len() == block_energy(b) * a.len(),
    ensures
        speaking(a) == speaking(b),
{
    let ea = block_energy(a) as int;
    let eb = block_energy(b) as int;
    let la = a.len() as int;
    let lb = b.len() as int;
    assert(THRESHOLD_DEN * THRESHOLD_DEN == 100);
    assert(THRESHOLD_NUM * THRESHOLD_NUM * FULL_SCALE * FULL_SCALE == 0x4000_0000_0000_0000);
    assert(speaking(a) == (100 * ea > 0x4000_0000_0000_0000 * la));
    assert(speaking(b) == (100 * eb > 0x4000_0000_0000_0000 * lb));
    assert((100 * ea > 0x4000_0000_0000_0000 * la) == (100 * eb > 0x4000_0000_0000_0000 * lb))
        by (nonlinear_arith)
        requires
            la > 0,
            lb > 0,
            ea * lb == eb * la,
    ;
}

/// The energy of a block that repeats one sample is the length times the
/// square of the sample.
pub proof fn steady_block_energy(sample: i32, len: nat)
    ensures
        block_energy(steady_block(sample, len)) == len * sample_energy(sample),
    decreases len,
{
    if len == 0 {
        assert(len * sample_energy(sample) == 0) by (nonlinear_arith)
            requires
                len == 0,
        ;
    } else {
        let shorter = (len - 1) as nat;
        assert(steady_block(sample, len).drop_last() =~= steady_block(sample, shorter));
        assert(steady_block(sample, len).last() == sample);
        steady_block_energy(sample, shorter);
        assert(len * sample_energy(sample) == shorter * sample_energy(sample) + sample_energy(
            sample,
        )) by (nonlinear_arith)
            requires
                len == shorter + 1,
        ;
    }
}

/// A non-empty block that repeats one sample has the magnitude of that sample
/// as its RMS, so it is speech exactly when that magnitude is above the
/// threshold, whatever the length of the block.
pub proof fn steady_block_classification(sample: i32, len: nat)
    requires
        len > 0,
    ensures
        speaking(steady_block(sample, len)) == (THRESHOLD_DEN * magnitude(sample) > THRESHOLD_NUM
            * FULL_SCALE),
{
    steady_block_energy(sample, len);
    lemma_sample_energy_bound(sample);
    let m = magnitude(sample) as int;
    let e = sample_energy(sample) as int;
    let n = len as int;
    let total = block_energy(steady_block(sample, len)) as int;
    assert(e == m * m) by (nonlinear_arith)
        requires
            e == (sample as int) * (sample as int),
            m == sample as int || m == -(sample as int),
    ;
    assert(THRESHOLD_DEN * THRESHOLD_DEN == 100);
    assert(THRESHOLD_NUM * THRESHOLD_NUM * FULL_SCALE * FULL_SCALE == 0x4000_0000_0000_0000);
    assert(THRESHOLD_DEN * magnitude(sample) == 10 * m);
    assert(THRESHOLD_NUM * FULL_SCALE == 0x8000_0000);
    assert(steady_block(sample, len).len() == len);
    assert(speaking(steady_block(sample, len)) == (100 * total > 0x4000_0000_0000_0000 * n));
    assert((100 * total > 0x4000_0000_0000_0000 * n) == (10 * m > 0x8000_0000))
        by (nonlinear_arith)
        requires
            total == n * e,
            e == m * m,
            n > 0,
            m >= 0,
    ;
}

} // verus!
