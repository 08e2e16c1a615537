use vstd::prelude::*;

verus! {

/// Largest sample-set length the filter accepts.  The bound keeps every
/// intermediate product of the exact arithmetic inside `i128`.
pub const MAX_SAMPLES: usize = 0x10_0000;

/// Largest numerator or denominator of the threshold multiplier.  Together
/// with `MAX_SAMPLES` it bounds the squared, scaled deviation test below
/// `i128::MAX`.
pub const MAX_THRESHOLD_PART: u32 = 1000;

/// Sum of the samples, as a mathematical integer.
pub open spec fn seq_sum(s: Seq<i32>) -> int
    decreases s.len(),
{
    if s.len() == 0 {
        0
    } else {
        seq_sum(s.drop_last()) + s.last()
    }
}

/// Sum of the squared samples.
pub open spec fn seq_sum_sq(s: Seq<i32>) -> int
    decreases s.len(),
{
    if s.len() == 0 {
        0
    } else {
        seq_sum_sq(s.drop_last()) + s.last() * s.last()
    }
}

/// `n²` times the population variance of `s`, where `n = s.len()`.
///
/// With `S = Σx` and `Q = Σx²`:  `n²·V = n²·(Q/n − (S/n)²) = n·Q − S²`.
pub open spec fn variance_num(s: Seq<i32>) -> int {
    s.len() * seq_sum_sq(s) - seq_sum(s) * seq_sum(s)
}

/// Whether `x` deviates from the mean of `s` by more than `t_num/t_den`
/// standard deviations.
///
/// The defining inequality is `|x − S/n| > (t_num/t_den)·σ` with
/// `σ = sqrt(V)`.  Both sides are non-negative, so it is equivalent to its
/// square, `(x − S/n)² > (t_num/t_den)²·V`; multiplying by the positive
/// `n²·t_den²` gives the exact integer form used here:
///
///   `t_den²·(n·x − S)² > t_num²·(n·Q − S²)`.
pub open spec fn is_outlier(x: i32, s: Seq<i32>, t_num: int, t_den: int) -> bool {
    let n = s.len() as int;
    let dev = n * x - seq_sum(s);
    t_den * t_den * dev * dev > t_num * t_num * variance_num(s)
}

/// The subsequence of `s` whose elements are outliers with respect to the
/// full sample set `all`, kept in their original order.
pub open spec fn outlier_seq(s: Seq<i32>, all: Seq<i32>, t_num: int, t_den: int) -> Seq<i32>
    decreases s.len(),
{
    if s.len() == 0 {
        Seq::empty()
    } else {
        let rest = outlier_seq(s.drop_last(), all, t_num, t_den);
        if is_outlier(s.last(), all, t_num, t_den) {
            rest.push(s.last())
        } else {
            rest
        }
    }
}

/// The outliers of a sample set, in order.
pub open spec fn outliers(s: Seq<i32>, t_num: int, t_den: int) -> Seq<i32> {
    outlier_seq(s, s, t_num, t_den)
}

/// Numerator of the adjusted mean: the sum of the samples that survive the
/// filter, or of all samples when the filter removed everything (the
/// fallback to the unfiltered mean).
pub open spec fn adjusted_sum(s: Seq<i32>, t_num: int, t_den: int) -> int {
    let out = outliers(s, t_num, t_den);
    if out.len() < s.len() {
        seq_sum(s) - seq_sum(out)
    } else {
        seq_sum(s)
    }
}

/// Denominator of the adjusted mean; see `adjusted_sum`.
pub open spec fn adjusted_count(s: Seq<i32>, t_num: int, t_den: int) -> int {
    let out = outliers(s, t_num, t_den);
    if out.len() < s.len() {
        s.len() - out.len()
    } else {
        s.len() as int
    }
}

/// An exact mean: the rational `sum / count`.
#[derive(Clone, Copy, Debug, PartialEq, Eq, Structural)]
pub struct MeanRatio {
    pub sum: i64,
    pub count: u32,
}

impl MeanRatio {
    /// A mean is a quotient by the number of contributing samples, which is
    /// never zero.
    pub open spec fn wf(self) -> bool {
        self.count >= 1
    }
}

/// An exact population variance: the rational `num / den` with `den = n²`.
#[derive(Clone, Copy, Debug, PartialEq, Eq, Structural)]
pub struct Variance {
    pub num: i128,
    pub den: i128,
}

proof fn lemma_seq_sum_bounds(s: Seq<i32>)
    requires
        s.len() <= MAX_SAMPLES,
    ensures
        -0x8_0000_0000_0000 <= seq_sum(s) <= 0x8_0000_0000_0000,
        -(s.len() as int) * 0x8000_0000 <= seq_sum(s) <= (s.len() as int) * 0x8000_0000,
    decreases s.len(),
{
    if s.len() > 0 {
        lemma_seq_sum_bounds(s.drop_last());
    }
    assert(-0x8_0000_0000_0000 <= seq_sum(s) <= 0x8_0000_0000_0000) by (nonlinear_arith)
        requires
            s.len() <= 0x10_0000,
            -(s.len() as int) * 0x8000_0000 <= seq_sum(s) <= (s.len() as int) * 0x8000_0000,
    ;
}

proof fn lemma_seq_sum_sq_bounds(s: Seq<i32>)
    requires
        s.len() <= MAX_SAMPLES,
    ensures
        0 <= seq_sum_sq(s) <= 0x4_0000_0000_0000_0000_0000,
        0 <= seq_sum_sq(s) <= (s.len() as int) * 0x4000_0000_0000_0000,
    decreases s.len(),
{
    if s.len() > 0 {
        lemma_seq_sum_sq_bounds(s.drop_last());
        let x = s.last() as int;
        assert(0 <= x * x <= 0x4000_0000_0000_0000) by (nonlinear_arith)
            requires
                -0x8000_0000 <= x <= 0x7fff_ffff,
        ;
    }
    assert(0 <= seq_sum_sq(s) <= 0x4_0000_0000_0000_0000_0000) by (nonlinear_arith)
        requires
            s.len() <= 0x10_0000,
            0 <= seq_sum_sq(s) <= (s.len() as int) * 0x4000_0000_0000_0000,
    ;
}

proof fn lemma_variance_num_bounds(s: Seq<i32>)
    requires
        s.len() <= MAX_SAMPLES,
    ensures
        -0x80_0000_0000_0000_0000_0000_0000 <= variance_num(s) <= 0x80_0000_0000_0000_0000_0000_0000,
{
    lemma_seq_sum_bounds(s);
    lemma_seq_sum_sq_bounds(s);
    assert(-0x80_0000_0000_0000_0000_0000_0000 <= (s.len() as int) * seq_sum_sq(s)
        - seq_sum(s) * seq_sum(s) <= 0x80_0000_0000_0000_0000_0000_0000) by (nonlinear_arith)
        requires
            s.len() <= 0x10_0000,
            -0x8_0000_0000_0000 <= seq_sum(s) <= 0x8_0000_0000_0000,
            0 <= seq_sum_sq(s) <= 0x4_0000_0000_0000_0000_0000,
    ;
}

proof fn lemma_outlier_seq_len(s: Seq<i32>, all: Seq<i32>, t_num: int, t_den: int)
    ensures
        outlier_seq(s, all, t_num, t_den).len() <= s.len(),
    decreases s.len(),
{
    if s.len() > 0 {
        lemma_outlier_seq_len(s.drop_last(), all, t_num, t_den);
    }
}

/// Splits a sample set into its outliers and its adjusted mean, exactly.
///
/// The threshold multiplier is the rational `t_num / t_den`; the filter of
/// this probe uses one half.  Returns, in order: the adjusted mean (the mean
/// of the non-outliers, falling back to the mean of all samples when every
/// sample is an outlier), the population variance, and the outliers in their
/// original order.
pub fn detect_anomalies(data: &Vec<i32>, t_num: u32, t_den: u32) -> (r: (MeanRatio, Variance, Vec<i32>))
    requires
        1 <= data@.len() <= MAX_SAMPLES,
        1 <= t_den <= MAX_THRESHOLD_PART,
        t_num <= MAX_THRESHOLD_PART,
    ensures
        r.0.wf(),
        r.0.sum == adjusted_sum(data@, t_num as int, t_den as int),
        r.0.count == adjusted_count(data@, t_num as int, t_den as int),
        r.1.num == variance_num(data@),
        r.1.den == data@.len() * data@.len(),
        r.2@ == outliers(data@, t_num as int, t_den as int),
{
    let n = data.len();
    let mut i: usize = 0;
    let mut sum: i128 = 0;
    let mut sum_sq: i128 = 0;
    while i < n
        invariant
            i <= n == data@.len() <= MAX_SAMPLES,
            sum == seq_sum(data@.subrange(0, i as int)),
            sum_sq == seq_sum_sq(data@.subrange(0, i as int)),
        decreases n - i,
    {
        let x = data[i] as i128;
        proof {
            lemma_seq_sum_bounds(data@.subrange(0, i as int));
            lemma_seq_sum_sq_bounds(data@.subrange(0, i as int));
            assert(0 <= x * x <= 0x4000_0000_0000_0000) by (nonlinear_arith)
                requires
                    -0x8000_0000 <= x <= 0x7fff_ffff,
            ;
            assert(data@.subrange(0, i + 1 as int).drop_last() =~= data@.subrange(0, i as int));
        }
        sum = sum + x;
        sum_sq = sum_sq + x * x;
        i = i + 1;
    }
    proof {
        assert(data@.subrange(0, n as int) =~= data@);
        lemma_seq_sum_bounds(data@);
        lemma_seq_sum_sq_bounds(data@);
        lemma_variance_num_bounds(data@);
        assert(0 <= (n as int) * (sum_sq as int) <= 0x10_0000 * 0x4_0000_0000_0000_0000_0000)
            by (nonlinear_arith)
            requires
                1 <= (n as int) <= 0x10_0000,
                0 <= (sum_sq as int) <= 0x4_0000_0000_0000_0000_0000,
        ;
        assert(0 <= (sum as int) * (sum as int) <= 0x8_0000_0000_0000 * 0x8_0000_0000_0000)
            by (nonlinear_arith)
            requires
                -0x8_0000_0000_0000 <= (sum as int) <= 0x8_0000_0000_0000,
        ;
    }

    let var_num: i128 = (n as i128) * sum_sq - sum * sum;

    let mut out: Vec<i32> = Vec::new();
    let mut out_sum: i128 = 0;
    let mut j: usize = 0;
    while j < n
        invariant
            j <= n == data@.len() <= MAX_SAMPLES,
            sum == seq_sum(data@),
            sum_sq == seq_sum_sq(data@),
            var_num == variance_num(data@),
            1 <= t_den <= MAX_THRESHOLD_PART,
            t_num <= MAX_THRESHOLD_PART,
            out@ == outlier_seq(data@.subrange(0, j as int), data@, t_num as int, t_den as int),
            out@.len() <= j,
            out_sum == seq_sum(out@),
        decreases n - j,
    {
        let x = data[j];
        proof {
            lemma_seq_sum_bounds(data@);
            lemma_variance_num_bounds(data@);
            lemma_seq_sum_bounds(out@);
            let ni = n as int;
            let xi = x as int;
            let td = t_den as int;
            let tn = t_num as int;
            let sm = seq_sum(data@);
            assert(-0x8_0000_0000_0000 <= ni * xi <= 0x8_0000_0000_0000) by (nonlinear_arith)
                requires
                    1 <= ni <= 0x10_0000,
                    -0x8000_0000 <= xi <= 0x7fff_ffff,
            ;
            let d = ni * xi - sm;
            assert(0 <= td * td <= 0x10_0000) by (nonlinear_arith)
                requires
                    1 <= td <= 1000,
            ;
            assert(0 <= tn * tn <= 0x10_0000) by (nonlinear_arith)
                requires
                    0 <= tn <= 1000,
            ;
            assert(-0x100_0000_0000_0000_0000 <= td * td * d <= 0x100_0000_0000_0000_0000)
                by (nonlinear_arith)
                requires
                    0 <= td * td <= 0x10_0000,
                    -0x10_0000_0000_0000 <= d <= 0x10_0000_0000_0000,
            ;
            assert(-0x100_0000_0000_0000_0000 * 0x10_0000_0000_0000 <= td * td * d * d
                <= 0x100_0000_0000_0000_0000 * 0x10_0000_0000_0000) by (nonlinear_arith)
                requires
                    -0x100_0000_0000_0000_0000 <= td * td * d <= 0x100_0000_0000_0000_0000,
                    -0x10_0000_0000_0000 <= d <= 0x10_0000_0000_0000,
            ;
            assert(-0x10_0000 * 0x80_0000_0000_0000_0000_0000_0000 <= tn * tn * variance_num(data@)
                <= 0x10_0000 * 0x80_0000_0000_0000_0000_0000_0000) by (nonlinear_arith)
                requires
                    0 <= tn * tn <= 0x10_0000,
                    -0x80_0000_0000_0000_0000_0000_0000 <= variance_num(data@)
                        <= 0x80_0000_0000_0000_0000_0000_0000,
            ;
            assert(data@.subrange(0, j + 1 as int).drop_last() =~= data@.subrange(0, j as int));
        }
        let dev: i128 = (n as i128) * (x as i128) - sum;
        let lhs: i128 = (t_den as i128) * (t_den as i128) * dev * dev;
        let rhs: i128 = (t_num as i128) * (t_num as i128) * var_num;
        proof {
            assert((lhs > rhs) == is_outlier(x, data@, t_num as int, t_den as int));
        }
        let ghost out0 = out@;
        let ghost out_sum0 = out_sum as int;
        if lhs > rhs {
            out.push(x);
            out_sum = out_sum + x as i128;
            proof {
                assert(out@.drop_last() =~= out0);
                assert(seq_sum(out@) == out_sum0 + x);
            }
        }
        j = j + 1;
    }
    proof {
        assert(data@.subrange(0, n as int) =~= data@);
        lemma_outlier_seq_len(data@, data@, t_num as int, t_den as int);
        lemma_seq_sum_bounds(data@);
        lemma_seq_sum_bounds(out@);
    }

    proof {
        assert(0 <= (n as int) * (n as int) <= 0x100_0000_0000) by (nonlinear_arith)
            requires
                1 <= (n as int) <= 0x10_0000,
        ;
    }
    let k = out.len();
    let adjusted = if k < n {
        MeanRatio { sum: (sum - out_sum) as i64, count: (n - k) as u32 }
    } else {
        MeanRatio { sum: sum as i64, count: n as u32 }
    };
    let variance = Variance { num: var_num, den: (n as i128) * (n as i128) };
    (adjusted, variance, out)
}

/// Law: a uniform sample set has variance zero and no outliers, and its
/// adjusted mean is the common value (as the ratio `(n·v) / n`).
pub proof fn lemma_uniform_samples(s: Seq<i32>, v: i32, t_num: int, t_den: int)
    requires
        s.len() >= 1,
        forall|i: int| 0 <= i < s.len() ==> s[i] == v,
        t_num >= 0,
        t_den >= 1,
    ensures
        seq_sum(s) == s.len() * v,
        variance_num(s) == 0,
        outliers(s, t_num, t_den) =~= Seq::<i32>::empty(),
        adjusted_sum(s, t_num, t_den) == s.len() * v,
        adjusted_count(s, t_num, t_den) == s.len(),
{
    lemma_uniform_sums(s, v);
    let n = s.len() as int;
    assert(n * (n * ((v as int) * (v as int))) - (n * (v as int)) * (n * (v as int)) == 0)
        by (nonlinear_arith);
    assert forall|i: int| 0 <= i < s.len() implies !is_outlier(s[i], s, t_num, t_den) by {
        assert(n * (s[i] as int) - seq_sum(s) == 0) by (nonlinear_arith)
            requires
                s[i] == v,
                seq_sum(s) == n * (v as int),
        ;
    }
    lemma_no_outliers(s, s, t_num, t_den);
}

proof fn lemma_uniform_sums(s: Seq<i32>, v: i32)
    requires
        forall|i: int| 0 <= i < s.len() ==> s[i] == v,
    ensures
        seq_sum(s) == s.len() * v,
        seq_sum_sq(s) == s.len() * ((v as int) * (v as int)),
    decreases s.len(),
{
    if s.len() > 0 {
        lemma_uniform_sums(s.drop_last(), v);
        let n = s.len() as int;
        let vi = v as int;
        assert(s.last() == v);
        assert(seq_sum(s) == (n - 1) * vi + vi);
        assert((n - 1) * vi + vi == n * vi) by (nonlinear_arith);
        assert(seq_sum_sq(s) == (n - 1) * (vi * vi) + vi * vi);
        assert((n - 1) * (vi * vi) + vi * vi == n * (vi * vi)) by (nonlinear_arith);
        assert(seq_sum(s) == s.len() * v);
    } else {
        assert(seq_sum(s) == s.len() * v);
    }
}

proof fn lemma_no_outliers(s: Seq<i32>, all: Seq<i32>, t_num: int, t_den: int)
    requires
        forall|i: int| 0 <= i < s.len() ==> !is_outlier(s[i], all, t_num, t_den),
    ensures
        outlier_seq(s, all, t_num, t_den) =~= Seq::<i32>::empty(),
    decreases s.len(),
{
    if s.len() > 0 {
        assert(!is_outlier(s.last(), all, t_num, t_den));
        lemma_no_outliers(s.drop_last(), all, t_num, t_den);
    }
}

/// Law: when every sample is classified as an outlier, the adjusted mean
/// falls back to the unfiltered mean `seq_sum(s) / s.len()`.
pub proof fn lemma_all_outliers_fallback(s: Seq<i32>, t_num: int, t_den: int)
    requires
        s.len() >= 1,
        outliers(s, t_num, t_den).len() == s.len(),
    ensures
        adjusted_sum(s, t_num, t_den) == seq_sum(s),
        adjusted_count(s, t_num, t_den) == s.len(),
{
}

} // verus!
