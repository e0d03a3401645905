//! The exposure/binning controller: a single-shot, purely functional
//! transform from a luminance sample population, the current exposure
//! and the current binning to the next exposure and binning.
//!
//! Brightness targets are measured on the 16-bit sample scale (a target
//! of `32767` is about half of full scale), the percentile in parts per
//! hundred thousand, and exposures in microseconds.

use vstd::arithmetic::power::pow;
use vstd::math::abs;
use vstd::prelude::*;
use vstd::seq_lib::group_to_multiset_ensures;
use vstd::seq_lib::lemma_sorted_unique;

use crate::SerialImageError;

verus! {

/// A sample population in ascending order.
pub open spec fn sorted_samples(s: Seq<u16>) -> bool {
    forall|p: int, q: int| 0 <= p < q < s.len() ==> s[p] <= s[q]
}

/// The index of the target percentile in a population of `n` sorted
/// samples: `floor(pp * (n - 1) / 100000)`, re-read from just below the
/// excluded top band when it falls inside that band. (With `excl == n`
/// the re-read lands before the first sample; the lookup then fails and
/// the sample value is taken as zero, see [`sample_at`].)
pub open spec fn percentile_coord(pp: int, n: int, excl: int) -> int {
    let c = pp * (n - 1) / 100000;
    if c < excl {
        n - 1 - excl
    } else {
        c
    }
}

/// The sample at a coordinate, zero when the coordinate lies outside
/// the population.
pub open spec fn sample_at(s: Seq<u16>, coord: int) -> int {
    if 0 <= coord < s.len() {
        s[coord] as int
    } else {
        0
    }
}

/// The linear brightness-to-exposure estimate: the current exposure
/// scaled by `target / measured`. A measured value of zero stands in
/// for the floor of one hundred-thousandth of a sample unit, so the
/// estimate becomes `exposure * target * 100000`.
pub open spec fn estimated_exposure(exp: int, tgt: int, val: int) -> int {
    if val == 0 {
        exp * tgt * 100000
    } else {
        exp * tgt / val
    }
}

/// Trade binning for exposure downward: while the estimate stays below
/// the allowed maximum and the bin can still be halved, halve the bin
/// and multiply the estimate by four (halving the linear bin size cuts
/// the per-sample photon count fourfold).
pub open spec fn halve_bins(est: int, bin: int, max_exp: int) -> (int, int)
    decreases bin,
{
    if est < max_exp && bin > 2 {
        halve_bins(est * 4, bin / 2, max_exp)
    } else {
        (est, bin)
    }
}

/// Trade exposure for binning upward: while the estimate exceeds the
/// allowed maximum and doubling the bin stays within the ceiling,
/// double the bin and divide the estimate by four.
pub open spec fn double_bins(est: int, bin: int, max_exp: int, max_bin: int) -> (int, int)
    decreases est,
{
    if est > max_exp && max_exp >= 1 && 2 * bin <= max_bin {
        double_bins(est / 4, 2 * bin, max_exp, max_bin)
    } else {
        (est, bin)
    }
}

/// Clamp a value into `[lo, hi]` (upper bound applied first, as the
/// controller does).
pub open spec fn clamp_int(x: int, lo: int, hi: int) -> int {
    if x > hi {
        hi
    } else if x < lo {
        lo
    } else {
        x
    }
}

/// Configuration of the optimum-exposure search.
///
/// `percentile_pix` is in parts per hundred thousand; `pixel_tgt` and
/// `pixel_uncertainty` are on the 16-bit sample scale (valid range one
/// to 65535); the exposure bounds are in microseconds with
/// `min_allowed_exp < max_allowed_exp`; `max_allowed_bin` below two
/// disables binning changes; `pixel_exclusion` is the count of the
/// brightest samples to ignore.
#[derive(Clone, Copy, Debug, PartialEq, Eq, Structural)]
pub struct OptimumExposureConfig {
    percentile_pix: u32,
    pixel_tgt: u32,
    pixel_uncertainty: u32,
    min_allowed_exp: u64,
    max_allowed_exp: u64,
    max_allowed_bin: u16,
    pixel_exclusion: u32,
}

impl OptimumExposureConfig {
    /// The configured percentile, in parts per hundred thousand.
    pub closed spec fn spec_percentile(&self) -> int {
        self.percentile_pix as int
    }

    /// The configured brightness target, on the 16-bit sample scale.
    pub closed spec fn spec_tgt(&self) -> int {
        self.pixel_tgt as int
    }

    /// The configured dead-band half-width, on the 16-bit sample scale.
    pub closed spec fn spec_uncertainty(&self) -> int {
        self.pixel_uncertainty as int
    }

    /// The minimum exposure the controller may return, in microseconds.
    pub closed spec fn spec_min_exp(&self) -> int {
        self.min_allowed_exp as int
    }

    /// The maximum exposure the controller may return, in microseconds.
    pub closed spec fn spec_max_exp(&self) -> int {
        self.max_allowed_exp as int
    }

    /// The binning ceiling.
    pub closed spec fn spec_max_bin(&self) -> int {
        self.max_allowed_bin as int
    }

    /// The count of brightest samples to ignore.
    pub closed spec fn spec_exclusion(&self) -> int {
        self.pixel_exclusion as int
    }

    /// The call-time validation: a non-empty population, targets on the
    /// sample scale, the percentile a fraction, ordered exposure bounds,
    /// and an exclusion count no larger than the population.
    pub open spec fn valid_for(&self, n: int) -> bool {
        &&& n >= 1
        &&& 1 <= self.spec_tgt() <= 65535
        &&& 1 <= self.spec_uncertainty() <= 65535
        &&& self.spec_percentile() <= 100000
        &&& self.spec_min_exp() < self.spec_max_exp()
        &&& self.spec_exclusion() <= n
    }

    /// What one controller evaluation returns for the sorted population
    /// `s`: the pair of the next exposure (microseconds) and the next
    /// bin. Inside the dead band the inputs come back unchanged;
    /// otherwise the estimate is computed, traded against the binning
    /// when binning is enabled, and clamped into the allowed ranges.
    pub open spec fn spec_outcome(&self, s: Seq<u16>, exp: int, bin: int) -> (int, int)
        recommends
            self.valid_for(s.len() as int),
            sorted_samples(s),
    {
        let n = s.len() as int;
        let maxb = if self.spec_max_bin() < 2 {
            1int
        } else {
            self.spec_max_bin()
        };
        let coord = percentile_coord(self.spec_percentile(), n, self.spec_exclusion());
        let val = sample_at(s, coord);
        if abs(self.spec_tgt() - val) < self.spec_uncertainty() {
            (exp, bin)
        } else {
            let est = estimated_exposure(exp, self.spec_tgt(), val);
            let adjusted = if maxb >= 2 {
                if est < self.spec_max_exp() {
                    halve_bins(est, bin, self.spec_max_exp())
                } else {
                    double_bins(est, bin, self.spec_max_exp(), maxb)
                }
            } else {
                (est, bin)
            };
            let e = clamp_int(adjusted.0, self.spec_min_exp(), self.spec_max_exp());
            let b = clamp_int(adjusted.1, 1, maxb);
            (e, b)
        }
    }

    /// Create a new configuration.
    ///
    /// # Arguments
    ///  * `percentile_pix` - The percentile of the sample population to
    ///    drive, in parts per hundred thousand.
    ///  * `pixel_tgt` - The target sample value, on the 16-bit scale.
    ///  * `pixel_tol` - The dead-band half-width, on the 16-bit scale.
    ///  * `pixel_exclusion` - The number of brightest samples to ignore.
    ///  * `min_exposure` - The minimum allowed exposure, microseconds.
    ///  * `max_exposure` - The maximum allowed exposure, microseconds.
    ///  * `max_bin` - The maximum allowed binning.
    ///
    /// Fails exactly when the exposure bounds are not strictly ordered.
    pub fn new(
        percentile_pix: u32,
        pixel_tgt: u32,
        pixel_tol: u32,
        pixel_exclusion: u32,
        min_exposure: u64,
        max_exposure: u64,
        max_bin: u16,
    ) -> (r: Option<OptimumExposureConfig>)
        ensures
            (r is Some) == (min_exposure < max_exposure),
            r is Some ==> {
                let c = r->0;
                &&& c.spec_percentile() == percentile_pix
                &&& c.spec_tgt() == pixel_tgt
                &&& c.spec_uncertainty() == pixel_tol
                &&& c.spec_exclusion() == pixel_exclusion
                &&& c.spec_min_exp() == min_exposure
                &&& c.spec_max_exp() == max_exposure
                &&& c.spec_max_bin() == max_bin
            },
    {
        if min_exposure >= max_exposure {
            return None;
        }
        Some(
            OptimumExposureConfig {
                percentile_pix,
                pixel_tgt,
                pixel_uncertainty: pixel_tol,
                min_allowed_exp: min_exposure,
                max_allowed_exp: max_exposure,
                max_allowed_bin: max_bin,
                pixel_exclusion,
            },
        )
    }

    /// Find the optimum exposure and binning to drive the configured
    /// percentile of the sample population to the target brightness.
    /// The algorithm uses no hysteresis, only simple linear scaling with
    /// a dead band.
    ///
    /// # Arguments
    ///  * `img` - The image luminance data, consumed by the call.
    ///  * `exposure` - The exposure that produced the samples, in
    ///    microseconds.
    ///  * `bin` - The binning that produced the samples.
    ///
    /// Fails with `ConfigValidation` exactly when the population is
    /// empty or the configuration is out of range for it; otherwise the
    /// result is the outcome of
    /// [`OptimumExposureConfig::spec_outcome`] on the sorted population.
    pub fn find_optimum_exposure(&self, img: Vec<u16>, exposure: u64, bin: u8) -> (r: Result<
        (u64, u16),
        SerialImageError,
    >)
        ensures
            (r is Ok) == self.valid_for(img@.len() as int),
            r is Err ==> r == Err::<(u64, u16), SerialImageError>(
                SerialImageError::ConfigValidation,
            ),
            r is Ok ==> forall|s: Seq<u16>|
                #![trigger sorted_samples(s)]
                sorted_samples(s) && s.to_multiset() == img@.to_multiset() ==> {
                    let o = self.spec_outcome(s, exposure as int, bin as int);
                    r->Ok_0.0 == o.0 && r->Ok_0.1 == o.1
                },
    {
        let ghost orig = img@;
        let n = img.len();
        if n == 0 {
            return Err(SerialImageError::ConfigValidation);
        }
        if self.pixel_tgt < 1 || self.pixel_tgt > 65535 {
            return Err(SerialImageError::ConfigValidation);
        }
        if self.pixel_uncertainty < 1 || self.pixel_uncertainty > 65535 {
            return Err(SerialImageError::ConfigValidation);
        }
        if self.percentile_pix > 100000 {
            return Err(SerialImageError::ConfigValidation);
        }
        if self.min_allowed_exp >= self.max_allowed_exp {
            return Err(SerialImageError::ConfigValidation);
        }
        if self.pixel_exclusion as u64 > n as u64 {
            return Err(SerialImageError::ConfigValidation);
        }
        let maxb: u16 = if self.max_allowed_bin < 2 {
            1
        } else {
            self.max_allowed_bin
        };
        let change_bin = maxb >= 2;

        let img = sort_samples(img);
        let ghost s = img@;
        let excl = self.pixel_exclusion as usize;
        proof {
            assert(self.percentile_pix as int * (n - 1) as int <= u128::MAX as int)
                by (nonlinear_arith)
                requires
                    self.percentile_pix <= u32::MAX,
                    1 <= n <= usize::MAX,
            ;
        }
        let c128: u128 = (self.percentile_pix as u128) * ((n - 1) as u128) / 100000;
        proof {
            assert(self.percentile_pix as int * (n - 1) as int <= 100000 * (n - 1) as int)
                by (nonlinear_arith)
                requires
                    self.percentile_pix <= 100000,
                    n >= 1,
            ;
            vstd::arithmetic::div_mod::lemma_div_is_ordered(
                self.percentile_pix as int * (n - 1) as int,
                100000 * (n - 1) as int,
                100000,
            );
            vstd::arithmetic::div_mod::lemma_div_multiples_vanish((n - 1) as int, 100000);
        }
        let c = c128 as usize;
        let val: u16 = if c < excl {
            if excl < n {
                img[n - 1 - excl]
            } else {
                // The re-read below the excluded band lands before the
                // first sample; treat the lookup as failed.
                0
            }
        } else {
            img[c]
        };
        let ghost coord = percentile_coord(
            self.spec_percentile(),
            n as int,
            self.spec_exclusion(),
        );
        proof {
            assert(val as int == sample_at(s, coord));
        }
        let tgt: u32 = self.pixel_tgt;
        let unc: u32 = self.pixel_uncertainty;
        let diff: u32 = if tgt >= val as u32 {
            tgt - val as u32
        } else {
            val as u32 - tgt
        };
        proof {
            assert(diff as int == abs(tgt as int - val as int));
        }
        if diff < unc {
            proof {
                assert forall|t: Seq<u16>|
                    #![trigger sorted_samples(t)]
                    sorted_samples(t) && t.to_multiset() == orig.to_multiset() implies {
                    let ot = self.spec_outcome(t, exposure as int, bin as int);
                    exposure as int == ot.0 && bin as int == ot.1
                } by {
                    lemma_sorted_arrangement_unique(t, s);
                }
            }
            return Ok((exposure, bin as u16));
        }
        proof {
            assert(exposure as int * tgt as int * 100000 <= u128::MAX as int) by (nonlinear_arith)
                requires
                    exposure <= u64::MAX,
                    tgt <= 65535,
            ;
            assert(val != 0 ==> exposure as int * tgt as int / val as int <= exposure as int
                * tgt as int) by {
                if val != 0 {
                    vstd::arithmetic::div_mod::lemma_div_nonincreasing(
                        exposure as int * tgt as int,
                        val as int,
                    );
                }
            }
        }
        let est0: u128 = if val == 0 {
            exposure as u128 * tgt as u128 * 100000
        } else {
            exposure as u128 * tgt as u128 / val as u128
        };
        let ghost est_spec = estimated_exposure(exposure as int, tgt as int, val as int);
        proof {
            assert(est0 as int == est_spec);
        }
        let maxe: u64 = self.max_allowed_exp;
        let mut est: u128 = est0;
        let mut bin_cur: u32 = bin as u32;
        if change_bin {
            if est < maxe as u128 {
                while est < maxe as u128 && bin_cur > 2
                    invariant
                        maxe == self.spec_max_exp(),
                        halve_bins(est as int, bin_cur as int, maxe as int) == halve_bins(
                            est_spec,
                            bin as int,
                            maxe as int,
                        ),
                        bin_cur <= u16::MAX,
                    decreases bin_cur,
                {
                    bin_cur = bin_cur / 2;
                    est = est * 4;
                }
            } else {
                while est > maxe as u128 && 2 * bin_cur <= maxb as u32
                    invariant
                        maxe == self.spec_max_exp(),
                        maxe >= 1,
                        maxb <= u16::MAX,
                        double_bins(est as int, bin_cur as int, maxe as int, maxb as int)
                            == double_bins(est_spec, bin as int, maxe as int, maxb as int),
                        bin_cur <= u16::MAX,
                    decreases est,
                {
                    bin_cur = 2 * bin_cur;
                    est = est / 4;
                }
            }
        }
        let exp_hi: u64 = if est > maxe as u128 {
            maxe
        } else {
            est as u64
        };
        let exp_final: u64 = if exp_hi < self.min_allowed_exp {
            self.min_allowed_exp
        } else {
            exp_hi
        };
        let bin_final: u16 = if bin_cur < 1 {
            1
        } else if bin_cur > maxb as u32 {
            maxb
        } else {
            bin_cur as u16
        };
        proof {
            let o = self.spec_outcome(s, exposure as int, bin as int);
            assert(exp_final as int == o.0 && bin_final as int == o.1);
            assert forall|t: Seq<u16>|
                #![trigger sorted_samples(t)]
                sorted_samples(t) && t.to_multiset() == orig.to_multiset() implies {
                let ot = self.spec_outcome(t, exposure as int, bin as int);
                exp_final as int == ot.0 && bin_final as int == ot.1
            } by {
                lemma_sorted_arrangement_unique(t, s);
            }
        }
        Ok((exp_final, bin_final))
    }
}

/// Each halving of the bin multiplies the estimated exposure by exactly
/// four: the downward trade returns `(est * 4^j, bin / 2^j)` for some
/// number of halvings `j`, and at least one halving happens whenever
/// the estimate is below the allowed maximum and the bin can be halved.
pub proof fn lemma_halve_bins_scaling(est: int, bin: int, max_exp: int)
    ensures
        exists|j: nat|
            halve_bins(est, bin, max_exp) == (est * pow(4, j), bin / (pow(2, j) as int)) && (est
                < max_exp && bin > 2 ==> j >= 1),
    decreases (if bin >= 0 {
        bin
    } else {
        0
    }),
{
    if est < max_exp && bin > 2 {
        lemma_halve_bins_scaling(est * 4, bin / 2, max_exp);
        let j0 = choose|j: nat|
            halve_bins(est * 4, bin / 2, max_exp) == ((est * 4) * pow(4, j), (bin / 2) / (pow(
                2,
                j,
            ) as int)) && (est * 4 < max_exp && bin / 2 > 2 ==> j >= 1);
        vstd::arithmetic::power::lemma_pow_positive(2, j0);
        vstd::arithmetic::power::lemma_pow_positive(4, j0);
        assert(pow(4, j0 + 1) == 4 * pow(4, j0)) by {
            vstd::arithmetic::power::lemma_pow_adds(4, j0, 1);
            vstd::arithmetic::power::lemma_pow1(4);
            assert(pow(4, j0) * pow(4, 1) == 4 * pow(4, j0)) by (nonlinear_arith)
                requires
                    pow(4, 1) == 4,
            ;
        }
        assert(pow(2, j0 + 1) == 2 * pow(2, j0)) by {
            vstd::arithmetic::power::lemma_pow_adds(2, j0, 1);
            vstd::arithmetic::power::lemma_pow1(2);
            assert(pow(2, j0) * pow(2, 1) == 2 * pow(2, j0)) by (nonlinear_arith)
                requires
                    pow(2, 1) == 2,
            ;
        }
        assert((est * 4) * pow(4, j0) == est * pow(4, j0 + 1)) by (nonlinear_arith)
            requires
                pow(4, j0 + 1) == 4 * pow(4, j0),
        ;
        assert((bin / 2) / (pow(2, j0) as int) == bin / (pow(2, j0 + 1) as int)) by {
            vstd::arithmetic::div_mod::lemma_div_denominator(bin, 2, pow(2, j0) as int);
        }
        assert(halve_bins(est, bin, max_exp) == (est * pow(4, j0 + 1), bin / (pow(
            2,
            (j0 + 1) as nat,
        ) as int)) && (est < max_exp && bin > 2 ==> j0 + 1 >= 1));
    } else {
        assert(pow(4, 0) == 1 && pow(2, 0) == 1) by {
            vstd::arithmetic::power::lemma_pow0(4);
            vstd::arithmetic::power::lemma_pow0(2);
        }
        assert(halve_bins(est, bin, max_exp) == (est * pow(4, 0), bin / (pow(2, 0) as int)) && (
        est < max_exp && bin > 2 ==> 0 >= 1)) by {
            assert(est * 1 == est && bin / 1 == bin);
        }
    }
}

/// With the estimate below the allowed maximum and the bin at four, the
/// downward trade halves the binning exactly once: the bin comes out at
/// two and the estimate exactly four times larger.
pub proof fn lemma_one_halving_at_bin_four(est: int, max_exp: int)
    requires
        est < max_exp,
    ensures
        halve_bins(est, 4, max_exp) == (est * 4, 2int),
{
    assert(halve_bins(est, 4, max_exp) == halve_bins(est * 4, 2, max_exp));
    assert(halve_bins(est * 4, 2, max_exp) == (est * 4, 2int));
}

/// The dead band: when the percentile sample already lies within the
/// configured uncertainty of the target, the controller returns the
/// exposure and bin it was given.
pub proof fn lemma_dead_band(
    cfg: OptimumExposureConfig,
    s: Seq<u16>,
    exp: int,
    bin: int,
    coord: int,
)
    requires
        coord == percentile_coord(cfg.spec_percentile(), s.len() as int, cfg.spec_exclusion()),
        abs(cfg.spec_tgt() - sample_at(s, coord)) < cfg.spec_uncertainty(),
    ensures
        cfg.spec_outcome(s, exp, bin) == (exp, bin),
{
}

/// The exposure clamp: outside the dead band the returned exposure is
/// the traded estimate clamped into the allowed range; an estimate
/// below the minimum comes back as exactly the minimum, one above the
/// maximum as exactly the maximum.
pub proof fn lemma_exposure_clamped(cfg: OptimumExposureConfig, s: Seq<u16>, exp: int, bin: int)
    requires
        ({
            let coord = percentile_coord(
                cfg.spec_percentile(),
                s.len() as int,
                cfg.spec_exclusion(),
            );
            abs(cfg.spec_tgt() - sample_at(s, coord)) >= cfg.spec_uncertainty()
        }),
    ensures
        ({
            let coord = percentile_coord(
                cfg.spec_percentile(),
                s.len() as int,
                cfg.spec_exclusion(),
            );
            let est = estimated_exposure(exp, cfg.spec_tgt(), sample_at(s, coord));
            let maxb = if cfg.spec_max_bin() < 2 {
                1int
            } else {
                cfg.spec_max_bin()
            };
            let adjusted = if maxb >= 2 {
                if est < cfg.spec_max_exp() {
                    halve_bins(est, bin, cfg.spec_max_exp())
                } else {
                    double_bins(est, bin, cfg.spec_max_exp(), maxb)
                }
            } else {
                (est, bin)
            };
            &&& cfg.spec_outcome(s, exp, bin).0 == clamp_int(
                adjusted.0,
                cfg.spec_min_exp(),
                cfg.spec_max_exp(),
            )
            &&& (cfg.spec_min_exp() < cfg.spec_max_exp() && adjusted.0 < cfg.spec_min_exp()
                ==> cfg.spec_outcome(s, exp, bin).0 == cfg.spec_min_exp())
            &&& (cfg.spec_min_exp() < cfg.spec_max_exp() && adjusted.0 > cfg.spec_max_exp()
                ==> cfg.spec_outcome(s, exp, bin).0 == cfg.spec_max_exp())
        }),
{
}

/// A percentile of one selects the greatest sample: the coordinate is
/// the last index when nothing is excluded.
pub proof fn lemma_full_percentile_selects_last(n: int)
    requires
        n >= 1,
    ensures
        percentile_coord(100000, n, 0) == n - 1,
{
    vstd::arithmetic::div_mod::lemma_div_multiples_vanish(n - 1, 100000);
}

/// Two ascending arrangements of the same sample population are the
/// same sequence.
pub proof fn lemma_sorted_arrangement_unique(s: Seq<u16>, t: Seq<u16>)
    requires
        sorted_samples(s),
        sorted_samples(t),
        s.to_multiset() == t.to_multiset(),
    ensures
        s == t,
{
    let leq = |x: u16, y: u16| x <= y;
    assert(vstd::relations::total_ordering(leq));
    assert(vstd::relations::sorted_by(s, leq));
    assert(vstd::relations::sorted_by(t, leq));
    lemma_sorted_unique(s, t, leq);
}

/// Sort a sample population, ascending, by merge sort: the result is
/// ordered and holds exactly the original samples.
fn sort_samples(v: Vec<u16>) -> (r: Vec<u16>)
    ensures
        sorted_samples(r@),
        r@.to_multiset() == v@.to_multiset(),
        r@.len() == v@.len(),
    decreases v@.len(),
{
    if v.len() <= 1 {
        return v;
    }
    let ghost whole = v@;
    let mut left = v;
    let mid = left.len() / 2;
    let right = left.split_off(mid);
    let sorted_left = sort_samples(left);
    let sorted_right = sort_samples(right);
    let merged = merge_ascending(sorted_left, sorted_right);
    proof {
        let front = whole.subrange(0, mid as int);
        let back = whole.subrange(mid as int, whole.len() as int);
        vstd::seq_lib::lemma_multiset_commutative(front, back);
        assert(whole =~= front + back);
    }
    merged
}

/// Merge two ascending populations into one ascending population
/// holding exactly the samples of both.
fn merge_ascending(a: Vec<u16>, b: Vec<u16>) -> (r: Vec<u16>)
    requires
        sorted_samples(a@),
        sorted_samples(b@),
    ensures
        sorted_samples(r@),
        r@.to_multiset() == a@.to_multiset().add(b@.to_multiset()),
        r@.len() == a@.len() + b@.len(),
{
    let mut out: Vec<u16> = Vec::new();
    let mut i: usize = 0;
    let mut j: usize = 0;
    proof {
        broadcast use group_to_multiset_ensures;
        broadcast use vstd::multiset::group_multiset_axioms;

        assert(a@.subrange(0, 0) =~= Seq::<u16>::empty());
        assert(b@.subrange(0, 0) =~= Seq::<u16>::empty());
        assert(out@.to_multiset() =~= a@.subrange(0, 0).to_multiset().add(
            b@.subrange(0, 0).to_multiset(),
        ));
    }
    while i < a.len() || j < b.len()
        invariant
            i <= a@.len(),
            j <= b@.len(),
            sorted_samples(a@),
            sorted_samples(b@),
            sorted_samples(out@),
            out@.len() == i + j,
            out@.to_multiset() == a@.subrange(0, i as int).to_multiset().add(
                b@.subrange(0, j as int).to_multiset(),
            ),
            forall|q: int| 0 <= q < out@.len() && i < a@.len() ==> #[trigger] out@[q] <= a@[
                i as int
            ],
            forall|q: int| 0 <= q < out@.len() && j < b@.len() ==> #[trigger] out@[q] <= b@[
                j as int
            ],
        decreases a@.len() + b@.len() - i - j,
    {
        proof {
            broadcast use group_to_multiset_ensures;
            broadcast use vstd::multiset::group_multiset_axioms;
        }
        let take_left = if i < a.len() {
            j >= b.len() || a[i] <= b[j]
        } else {
            false
        };
        if take_left {
            let x = a[i];
            out.push(x);
            proof {
                assert(a@.subrange(0, i + 1) =~= a@.subrange(0, i as int).push(x));
                assert(out@.to_multiset() =~= a@.subrange(0, i + 1).to_multiset().add(
                    b@.subrange(0, j as int).to_multiset(),
                ));
            }
            i = i + 1;
        } else {
            let x = b[j];
            out.push(x);
            proof {
                assert(b@.subrange(0, j + 1) =~= b@.subrange(0, j as int).push(x));
                assert(out@.to_multiset() =~= a@.subrange(0, i as int).to_multiset().add(
                    b@.subrange(0, j + 1).to_multiset(),
                ));
            }
            j = j + 1;
        }
    }
    proof {
        assert(a@.subrange(0, a@.len() as int) =~= a@);
        assert(b@.subrange(0, b@.len() as int) =~= b@);
    }
    out
}

} // verus!
