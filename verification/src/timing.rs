//! Timing analysis: inferring WAF processing from request latencies.  The
//! measurements are taken by the caller; deciding whether a delay falls in
//! the configured WAF window, and with what confidence, is verified here.

use vstd::prelude::*;
use vstd::string::StringExecFns;
use crate::DetectionMethod;
use crate::Evidence;
use crate::text::append_str;
use crate::text::u64_to_string;

verus! {

/// The timing techniques.
#[derive(Debug, Clone, Copy, PartialEq, Eq, Structural)]
pub enum TimingTechnique {
    BaselineComparison,
    PatternAnalysis,
    BurstTiming,
}

/// Configuration for timing analysis; delays are in milliseconds, the
/// request timeout in seconds.
#[derive(Debug, Clone, Copy, PartialEq, Eq, Structural)]
pub struct TimingConfig {
    pub min_waf_delay_ms: u64,
    pub max_waf_delay_ms: u64,
    pub baseline_requests: usize,
    pub test_requests: usize,
    pub request_timeout: u64,
}

impl Default for TimingConfig {
    /// The default window: a WAF adds 50 to 200 milliseconds.
    fn default() -> (r: Self)
        ensures
            r == (TimingConfig {
                min_waf_delay_ms: 50u64,
                max_waf_delay_ms: 200u64,
                baseline_requests: 3usize,
                test_requests: 3usize,
                request_timeout: 5u64,
            }),
    {
        TimingConfig {
            min_waf_delay_ms: 50,
            max_waf_delay_ms: 200,
            baseline_requests: 3,
            test_requests: 3,
            request_timeout: 5,
        }
    }
}

/// One timing verdict.
#[derive(Debug, Clone)]
pub struct TimingAnalysis {
    pub baseline_time_ms: u64,
    pub test_time_ms: u64,
    pub delay_detected: bool,
    pub delay_amount_ms: u64,
    /// Confidence in micro units.
    pub confidence: u64,
    pub technique_used: TimingTechnique,
}

/// The timing analyzer; requests themselves run outside the library.
#[derive(Debug, Clone)]
pub struct TimingAnalyzer {
    pub config: TimingConfig,
}

/// Sum of a sequence of samples.
pub open spec fn sum_of(times: Seq<u64>) -> int
    decreases times.len(),
{
    if times.len() == 0 {
        0
    } else {
        sum_of(times.drop_last()) + times.last()
    }
}

/// Mean of a non-empty sequence, rounded down.
pub open spec fn mean_of(times: Seq<u64>) -> int {
    sum_of(times) / times.len() as int
}

/// Sum of squared deviations from `mean`.
pub open spec fn sum_sq_dev(times: Seq<u64>, mean: int) -> int
    decreases times.len(),
{
    if times.len() == 0 {
        0
    } else {
        sum_sq_dev(times.drop_last(), mean) + (times.last() - mean) * (times.last() - mean)
    }
}

/// The coefficient of variation in micro units: the standard deviation,
/// carried in micro-milliseconds through the integer square root, divided
/// by the mean and capped at one.
pub open spec fn is_cv_of(times: Seq<u64>, mean: u64, cv: u64) -> bool {
    if times.len() <= 1 || mean == 0 {
        cv == 0
    } else {
        let v = sum_sq_dev(times, mean as int) * 1000000000000 / times.len() as int;
        exists|sd: int|
            (0 <= sd) && (#[trigger] (sd * sd) <= v) && (v < (sd + 1) * (sd + 1)) && (cv as int
                == (if sd / (mean as int) > 1000000 {
                1000000int
            } else {
                sd / (mean as int)
            }))
    }
}

/// The delay a pair of averages shows: test minus baseline, floored at 0.
pub open spec fn spec_delay(baseline_avg: int, test_avg: int) -> int {
    if test_avg > baseline_avg {
        test_avg - baseline_avg
    } else {
        0
    }
}

/// Whether a delay falls in the configured WAF window.
pub open spec fn in_waf_window(cfg: TimingConfig, delay: int) -> bool {
    cfg.min_waf_delay_ms <= delay && delay <= cfg.max_waf_delay_ms
}

/// The mean a variance computation uses: the average itself when it fits
/// the sample bound, zero otherwise.
pub open spec fn var_mean(avg: int) -> u64 {
    if 0 <= avg < 0x1000000 {
        avg as u64
    } else {
        0
    }
}

/// The detected-case baseline confidence: 0.7 times the delay normalised
/// into the window plus 0.3 times the consistency, capped at 0.95.
pub open spec fn spec_baseline_conf(cfg: TimingConfig, delay: int, bv: int, tv: int) -> int {
    let span = cfg.max_waf_delay_ms - cfg.min_waf_delay_ms;
    let delay_score = (delay - cfg.min_waf_delay_ms) * 1000000 / span;
    let consistency = 1000000 - (bv + tv) / 2;
    let raw = (delay_score * 7 + consistency * 3) / 10;
    if raw > 950000 {
        950000
    } else {
        raw
    }
}

/// The detected-case pattern confidence: 0.6 times the time score (0.8
/// inside the window ceiling, 0.4 above it) plus 0.4 times the
/// consistency, capped at 0.90.
pub open spec fn spec_pattern_conf(cfg: TimingConfig, avg: int, cv: int) -> int {
    let time_score: int = if avg <= cfg.max_waf_delay_ms {
        800000
    } else {
        400000
    };
    let consistency = 1000000 - cv;
    let raw = (time_score * 6 + consistency * 4) / 10;
    if raw > 900000 {
        900000
    } else {
        raw
    }
}

/// Integer square root.
fn isqrt(x: u128) -> (r: u64)
    requires
        x < 0x1000000_00000000_00000000_00000000,
    ensures
        ((r * r) as int) <= (x as int),
        (x as int) < ((r + 1) as int) * ((r + 1) as int),
{
    let mut lo: u128 = 0;
    let mut hi: u128 = 0x1000_0000_0000_0000;
    // Invariant: lo*lo <= x < hi*hi.
    proof {
        assert(x < 0x1000_0000_0000_0000 * 0x1000_0000_0000_0000) by (nonlinear_arith)
            requires
                x < 0x1000000_00000000_00000000_00000000,
        ;
    }
    while lo + 1 < hi
        invariant
            lo < hi,
            hi <= 0x1000_0000_0000_0000,
            ((lo * lo) as int) <= (x as int),
            (x as int) < ((hi * hi) as int),
        decreases hi - lo,
    {
        let mid: u128 = lo + (hi - lo) / 2;
        proof {
            assert(mid * mid <= 0x1000_0000_0000_0000 * 0x1000_0000_0000_0000)
                by (nonlinear_arith)
                requires
                    mid <= 0x1000_0000_0000_0000,
            ;
        }
        if mid * mid <= x {
            lo = mid;
        } else {
            hi = mid;
        }
    }
    proof {
        assert(((lo + 1) as int) * ((lo + 1) as int) == (hi * hi) as int);
    }
    lo as u64
}

/// Sums samples, each below sixteen million milliseconds.
fn sum_times(times: &Vec<u64>) -> (r: u128)
    requires
        forall|i: int| 0 <= i < times@.len() ==> #[trigger] times@[i] < 0x1000000,
        times@.len() < 0x1000000,
    ensures
        r as int == sum_of(times@),
        r < 0x1_0000_0000_0000,
{
    let n: usize = times.len();
    let mut total: u128 = 0;
    let mut i: usize = 0;
    proof {
        assert(times@.take(0) =~= Seq::<u64>::empty());
    }
    while i < n
        invariant
            n == times@.len(),
            forall|j: int| 0 <= j < n ==> #[trigger] times@[j] < 0x1000000,
            n < 0x1000000,
            i <= n,
            total as int == sum_of(times@.take(i as int)),
            total <= (i as u128) * 0x1000000,
        decreases n - i,
    {
        total = total + times[i] as u128;
        i = i + 1;
        proof {
            let cur = times@.take(i as int);
            assert(cur.drop_last() =~= times@.take(i - 1));
            assert(cur.last() == times@[i - 1]);
            assert((i as u128) * 0x1000000 == ((i - 1) as u128) * 0x1000000 + 0x1000000);
        }
    }
    proof {
        assert(times@.take(n as int) =~= times@);
        assert(total <= (n as u128) * 0x1000000);
        assert((n as u128) * 0x1000000 < 0x1000000 * 0x1000000) by (nonlinear_arith)
            requires
                n < 0x1000000,
        ;
    }
    total
}

impl TimingAnalyzer {
    pub fn new(config: TimingConfig) -> (r: Self)
        ensures
            r.config == config,
    {
        TimingAnalyzer { config }
    }

    /// The coefficient of variation of the samples around `mean`, in micro
    /// units, capped at one.
    pub fn calculate_variance(&self, times: &Vec<u64>, mean: u64) -> (r: u64)
        requires
            forall|i: int| 0 <= i < times@.len() ==> #[trigger] times@[i] < 0x1000000,
            times@.len() < 0x1000000,
            mean < 0x1000000,
        ensures
            is_cv_of(times@, mean, r),
            r <= 1000000,
    {
        let n: usize = times.len();
        if n <= 1 || mean == 0 {
            return 0;
        }
        let mut total: u128 = 0;
        let mut i: usize = 0;
        proof {
            assert(times@.take(0) =~= Seq::<u64>::empty());
        }
        while i < n
            invariant
                n == times@.len(),
                forall|j: int| 0 <= j < n ==> #[trigger] times@[j] < 0x1000000,
                n < 0x1000000,
                mean < 0x1000000,
                i <= n,
                total as int == sum_sq_dev(times@.take(i as int), mean as int),
                total <= (i as u128) * 0x1_0000_0000_0000,
            decreases n - i,
        {
            let t = times[i];
            let diff: u64 = if t > mean {
                t - mean
            } else {
                mean - t
            };
            proof {
                assert(diff < 0x1000000);
                assert((diff as u128) * (diff as u128) < 0x1_0000_0000_0000) by (nonlinear_arith)
                    requires
                        diff < 0x1000000,
                ;
                assert((diff as int) == (t as int) - (mean as int) || (diff as int) == (
                mean as int) - (t as int));
                assert(((diff as int) * (diff as int)) == (((t as int) - (mean as int)) * ((
                t as int) - (mean as int)))) by (nonlinear_arith)
                    requires
                        (diff as int) == (t as int) - (mean as int) || (diff as int) == (
                        mean as int) - (t as int),
                ;
                assert((t as int) == times@[i as int]);
            }
            total = total + (diff as u128) * (diff as u128);
            i = i + 1;
            proof {
                let cur = times@.take(i as int);
                assert(cur.drop_last() =~= times@.take(i - 1));
                assert(cur.last() == times@[i - 1]);
                assert((i as u128) * 0x1_0000_0000_0000 == ((i - 1) as u128)
                    * 0x1_0000_0000_0000 + 0x1_0000_0000_0000);
            }
        }
        proof {
            assert(times@.take(n as int) =~= times@);
            assert(total <= (n as u128) * 0x1_0000_0000_0000);
            assert((n as u128) * 0x1_0000_0000_0000 < 0x1000000 * 0x1_0000_0000_0000)
                by (nonlinear_arith)
                requires
                    n < 0x1000000,
            ;
        }
        proof {
            assert(total * 1000000000000 < 0x1000000_00000000_00000000_00000000)
                by (nonlinear_arith)
                requires
                    total < 0x1000000 * 0x1_0000_0000_0000,
            ;
        }
        let scaled: u128 = total * 1000000000000;
        let variance: u128 = scaled / (n as u128);
        let sd: u64 = isqrt(variance);
        let cv_raw: u64 = sd / mean;
        let cv: u64 = if cv_raw > 1000000 {
            1000000
        } else {
            cv_raw
        };
        proof {
            assert(is_cv_of(times@, mean, cv));
        }
        cv
    }

    /// Compares baseline against test latencies: the delay is detected
    /// exactly when it falls within the configured WAF window.
    pub fn evaluate_baseline(&self, baseline_times: &Vec<u64>, test_times: &Vec<u64>) -> (r:
        TimingAnalysis)
        requires
            baseline_times@.len() > 0,
            test_times@.len() > 0,
            forall|i: int| 0 <= i < baseline_times@.len() ==> #[trigger] baseline_times@[i]
                < 0x1000000,
            forall|i: int| 0 <= i < test_times@.len() ==> #[trigger] test_times@[i] < 0x1000000,
            baseline_times@.len() < 0x1000000,
            test_times@.len() < 0x1000000,
            self.config.min_waf_delay_ms < self.config.max_waf_delay_ms,
            self.config.max_waf_delay_ms < 0x1000000,
        ensures
            r.technique_used == TimingTechnique::BaselineComparison,
            r.baseline_time_ms as int == mean_of(baseline_times@),
            r.test_time_ms as int == mean_of(test_times@),
            r.delay_amount_ms as int == spec_delay(
                mean_of(baseline_times@),
                mean_of(test_times@),
            ),
            r.delay_detected <==> in_waf_window(self.config, r.delay_amount_ms as int),
            r.confidence <= 950000,
            !r.delay_detected ==> r.confidence == 0,
            r.delay_detected ==> exists|bv: u64, tv: u64|
                is_cv_of(baseline_times@, var_mean(mean_of(baseline_times@)), bv) && is_cv_of(
                    test_times@,
                    var_mean(mean_of(test_times@)),
                    tv,
                ) && r.confidence as int == spec_baseline_conf(
                    self.config,
                    r.delay_amount_ms as int,
                    bv as int,
                    tv as int,
                ),
    {
        let nb: usize = baseline_times.len();
        let nt: usize = test_times.len();
        let bsum = sum_times(baseline_times);
        let tsum = sum_times(test_times);
        let baseline_avg: u64 = (bsum / (nb as u128)) as u64;
        let test_avg: u64 = (tsum / (nt as u128)) as u64;
        proof {
            assert(baseline_avg as int == mean_of(baseline_times@));
            assert(test_avg as int == mean_of(test_times@));
            assert(baseline_avg < 0x1_0000_0000_0000);
            assert(test_avg < 0x1_0000_0000_0000);
        }
        let delay_amount: u64 = if test_avg > baseline_avg {
            test_avg - baseline_avg
        } else {
            0
        };
        let delay_detected = self.config.min_waf_delay_ms <= delay_amount && delay_amount
            <= self.config.max_waf_delay_ms;
        let confidence: u64 = if delay_detected {
            let span: u64 = self.config.max_waf_delay_ms - self.config.min_waf_delay_ms;
            let gap: u64 = delay_amount - self.config.min_waf_delay_ms;
            proof {
                assert(gap <= span);
                assert((gap as int) * 1000000 <= (span as int) * 1000000) by (nonlinear_arith)
                    requires
                        (gap as int) <= (span as int),
                        0 <= (gap as int),
                ;
                assert((span as int) * 1000000 < 0x1000000 * 1000000int);
            }
            let delay_score: u64 = gap * 1000000 / span;
            proof {
                assert((delay_score as int) <= 1000000) by (nonlinear_arith)
                    requires
                        0 <= (gap as int) * 1000000 <= (span as int) * 1000000,
                        (span as int) > 0,
                        (delay_score as int) == (gap as int) * 1000000 / (span as int),
                ;
            }
            let mean_b: u64 = if baseline_avg < 0x1000000 {
                baseline_avg
            } else {
                0
            };
            let mean_t: u64 = if test_avg < 0x1000000 {
                test_avg
            } else {
                0
            };
            let bv = self.calculate_variance(baseline_times, mean_b);
            let tv = self.calculate_variance(test_times, mean_t);
            let consistency: u64 = 1000000 - (bv + tv) / 2;
            let raw: u64 = (delay_score * 7 + consistency * 3) / 10;
            let capped: u64 = if raw > 950000 {
                950000
            } else {
                raw
            };
            proof {
                assert(mean_b == var_mean(mean_of(baseline_times@)));
                assert(mean_t == var_mean(mean_of(test_times@)));
                assert(capped as int == spec_baseline_conf(
                    self.config,
                    delay_amount as int,
                    bv as int,
                    tv as int,
                ));
                assert(is_cv_of(baseline_times@, var_mean(mean_of(baseline_times@)), bv));
                assert(is_cv_of(test_times@, var_mean(mean_of(test_times@)), tv));
                assert(exists|b: u64, t: u64|
                    is_cv_of(baseline_times@, var_mean(mean_of(baseline_times@)), b)
                        && is_cv_of(test_times@, var_mean(mean_of(test_times@)), t) && capped as int
                        == spec_baseline_conf(
                        self.config,
                        delay_amount as int,
                        b as int,
                        t as int,
                    ));
            }
            capped
        } else {
            0
        };
        proof {
            if delay_detected {
                assert(exists|b: u64, t: u64|
                    is_cv_of(baseline_times@, var_mean(mean_of(baseline_times@)), b)
                        && is_cv_of(test_times@, var_mean(mean_of(test_times@)), t)
                        && confidence as int == spec_baseline_conf(
                        self.config,
                        delay_amount as int,
                        b as int,
                        t as int,
                    ));
            }
        }
        TimingAnalysis {
            baseline_time_ms: baseline_avg,
            test_time_ms: test_avg,
            delay_detected,
            delay_amount_ms: delay_amount,
            confidence,
            technique_used: TimingTechnique::BaselineComparison,
        }
    }

    /// Looks for a consistent elevated latency pattern: detected exactly
    /// when the mean clears the window floor, stays within a second, and
    /// the coefficient of variation is under 0.3.
    pub fn evaluate_pattern(&self, all_times: &Vec<u64>) -> (r: TimingAnalysis)
        requires
            all_times@.len() > 0,
            forall|i: int| 0 <= i < all_times@.len() ==> #[trigger] all_times@[i] < 0x1000000,
            all_times@.len() < 0x1000000,
        ensures
            r.technique_used == TimingTechnique::PatternAnalysis,
            r.baseline_time_ms as int == mean_of(all_times@),
            r.test_time_ms as int == mean_of(all_times@),
            r.delay_detected ==> r.delay_amount_ms == r.baseline_time_ms,
            !r.delay_detected ==> r.delay_amount_ms == 0,
            r.confidence <= 900000,
            !r.delay_detected ==> r.confidence == 0,
            exists|cv: u64|
                (#[trigger] is_cv_of(all_times@, var_mean(mean_of(all_times@)), cv)) && (
                r.delay_detected <==> (self.config.min_waf_delay_ms <= mean_of(all_times@)
                    && mean_of(all_times@) <= 1000 && cv < 300000)) && (r.delay_detected
                    ==> r.confidence as int == spec_pattern_conf(
                    self.config,
                    mean_of(all_times@),
                    cv as int,
                )),
    {
        let n: usize = all_times.len();
        let total = sum_times(all_times);
        let avg: u64 = (total / (n as u128)) as u64;
        proof {
            assert(avg as int == mean_of(all_times@));
            assert(avg < 0x1_0000_0000_0000);
        }
        let mean_for_var: u64 = if avg < 0x1000000 {
            avg
        } else {
            0
        };
        let variance = self.calculate_variance(all_times, mean_for_var);
        let delay_detected = self.config.min_waf_delay_ms <= avg && avg <= 1000 && variance
            < 300000;
        let confidence: u64 = if delay_detected {
            let time_score: u64 = if avg <= self.config.max_waf_delay_ms {
                800000
            } else {
                400000
            };
            let consistency: u64 = 1000000 - variance;
            let raw: u64 = (time_score * 6 + consistency * 4) / 10;
            if raw > 900000 {
                900000
            } else {
                raw
            }
        } else {
            0
        };
        proof {
            assert(mean_for_var == var_mean(mean_of(all_times@)));
            assert(is_cv_of(all_times@, var_mean(mean_of(all_times@)), variance));
            assert(delay_detected <==> (self.config.min_waf_delay_ms <= mean_of(all_times@)
                && mean_of(all_times@) <= 1000 && variance < 300000));
            assert(delay_detected ==> confidence as int == spec_pattern_conf(
                self.config,
                mean_of(all_times@),
                variance as int,
            ));
            assert(exists|cv: u64|
                (#[trigger] is_cv_of(all_times@, var_mean(mean_of(all_times@)), cv)) && (
                delay_detected <==> (self.config.min_waf_delay_ms <= mean_of(all_times@)
                    && mean_of(all_times@) <= 1000 && cv < 300000)) && (delay_detected
                    ==> confidence as int == spec_pattern_conf(
                    self.config,
                    mean_of(all_times@),
                    cv as int,
                )));
        }
        TimingAnalysis {
            baseline_time_ms: avg,
            test_time_ms: avg,
            delay_detected,
            delay_amount_ms: if delay_detected {
                avg
            } else {
                0
            },
            confidence,
            technique_used: TimingTechnique::PatternAnalysis,
        }
    }

    /// Turns the two verdicts into evidence: at most one item per
    /// technique, and one exactly when that technique detected a delay.
    pub fn evidence_from_analyses(
        &self,
        baseline: &TimingAnalysis,
        pattern: &TimingAnalysis,
    ) -> (r: Vec<Evidence>)
        requires
            baseline.confidence <= crate::CONF_ONE,
            pattern.confidence <= crate::CONF_ONE,
        ensures
            r@.len() <= 2,
            crate::all_evidence_wf(r.deep_view()),
            r@.len() == (if baseline.delay_detected {
                1int
            } else {
                0int
            }) + (if pattern.delay_detected {
                1int
            } else {
                0int
            }),
            baseline.delay_detected ==> r@[0]@.signature_matched == "timing-waf-delay"@
                && r@[0]@.confidence == baseline.confidence,
            pattern.delay_detected ==> r@[r@.len() - 1]@.signature_matched
                == "timing-pattern-analysis"@ && r@[r@.len() - 1]@.confidence
                == pattern.confidence,
    {
        let mut out: Vec<Evidence> = Vec::new();
        if baseline.delay_detected {
            let mut desc = <String as StringExecFns>::from_str("WAF processing delay detected: ");
            let d = u64_to_string(baseline.delay_amount_ms);
            append_str(&mut desc, d.as_str());
            append_str(&mut desc, "ms (technique: baseline comparison)");
            let mut raw = <String as StringExecFns>::from_str("baseline: ");
            let b = u64_to_string(baseline.baseline_time_ms);
            append_str(&mut raw, b.as_str());
            append_str(&mut raw, "ms, test: ");
            let t = u64_to_string(baseline.test_time_ms);
            append_str(&mut raw, t.as_str());
            append_str(&mut raw, "ms, delay: ");
            append_str(&mut raw, d.as_str());
            append_str(&mut raw, "ms");
            out.push(Evidence {
                method_type: DetectionMethod::Timing,
                confidence: baseline.confidence,
                description: desc,
                raw_data: raw,
                signature_matched: <String as StringExecFns>::from_str("timing-waf-delay"),
            });
        }
        if pattern.delay_detected {
            let mut desc = <String as StringExecFns>::from_str("WAF timing pattern detected: ");
            let d = u64_to_string(pattern.delay_amount_ms);
            append_str(&mut desc, d.as_str());
            append_str(&mut desc, "ms consistent delay");
            let mut raw = <String as StringExecFns>::from_str("pattern_detected: ");
            append_str(&mut raw, d.as_str());
            append_str(&mut raw, "ms average delay");
            out.push(Evidence {
                method_type: DetectionMethod::Timing,
                confidence: pattern.confidence,
                description: desc,
                raw_data: raw,
                signature_matched: <String as StringExecFns>::from_str("timing-pattern-analysis"),
            });
        }
        out
    }
}

} // verus!
