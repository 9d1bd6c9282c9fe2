//! A compact Bayesian-flavoured confidence combiner, kept alongside the
//! main scorer; all values are micro-unit fixed point.

use vstd::prelude::*;
use crate::CONF_ONE;
use crate::text::str_eq;

verus! {

/// Simple confidence engine with per-provider prior weights.
#[derive(Debug, Clone)]
pub struct ConfidenceEngine {
    pub base_confidence: u64,
}

/// The per-provider weight: known vendors carry a tuned prior, everything
/// else 0.8.
pub open spec fn spec_provider_weight(name: Seq<char>) -> u64 {
    if name == "CloudFlare"@ {
        950000
    } else if name == "Akamai"@ {
        920000
    } else {
        800000
    }
}

/// The posterior the engine computes: prior times likelihood times an
/// evidence-count factor, normalised against the complementary mass.
pub open spec fn spec_posterior(prior: int, likelihood: int, count: int) -> int {
    let factor = 1000000 + count * 100000;
    let num = prior * likelihood / 1000000 * factor / 1000000;
    let den = num + (1000000 - prior) * (1000000 - likelihood) / 1000000;
    if den == 0 {
        0
    } else if num * 1000000 / den > 1000000 {
        1000000
    } else {
        num * 1000000 / den
    }
}

impl ConfidenceEngine {
    pub fn new() -> (r: Self)
        ensures
            r.base_confidence == 500000u64,
    {
        ConfidenceEngine { base_confidence: 500000 }
    }

    /// The posterior for one provider given the evidence count and overall
    /// strength.
    pub fn calculate_confidence(
        &self,
        provider_name: &str,
        evidence_count: usize,
        evidence_strength: u64,
    ) -> (r: u64)
        requires
            self.base_confidence <= CONF_ONE,
            evidence_strength <= CONF_ONE,
            evidence_count <= 1000,
        ensures
            r as int == spec_posterior(
                self.base_confidence as int,
                (evidence_strength as int) * spec_provider_weight(provider_name@) / 1000000,
                evidence_count as int,
            ),
            r <= CONF_ONE,
    {
        let weight: u64 = if str_eq(provider_name, "CloudFlare") {
            950000
        } else if str_eq(provider_name, "Akamai") {
            920000
        } else {
            800000
        };
        let likelihood: u64 = evidence_strength * weight / 1000000;
        let factor: u64 = 1000000 + (evidence_count as u64) * 100000;
        proof {
            assert(evidence_strength * weight <= 1000000 * 1000000) by (nonlinear_arith)
                requires
                    evidence_strength <= 1000000,
                    weight <= 1000000,
            ;
            assert(likelihood <= 1000000);
        }
        proof {
            assert(self.base_confidence * likelihood <= 1000000 * 1000000) by (nonlinear_arith)
                requires
                    self.base_confidence <= 1000000,
                    likelihood <= 1000000,
            ;
        }
        let m: u64 = self.base_confidence * likelihood / 1000000;
        proof {
            assert(m <= 1000000);
            assert(factor <= 101000000);
            assert(m * factor <= 1000000 * 101000000) by (nonlinear_arith)
                requires
                    m <= 1000000,
                    factor <= 101000000,
            ;
        }
        let num: u64 = m * factor / 1000000;
        proof {
            assert((1000000 - self.base_confidence) * (1000000 - likelihood) <= 1000000
                * 1000000) by (nonlinear_arith)
                requires
                    self.base_confidence <= 1000000,
                    likelihood <= 1000000,
            ;
        }
        let rest: u64 = (1000000 - self.base_confidence) * (1000000 - likelihood) / 1000000;
        let den: u64 = num + rest;
        if den == 0 {
            return 0;
        }
        let scaled: u64 = num * 1000000 / den;
        proof {
            assert(num * 1000000 <= 101000000 * 1000000int) by (nonlinear_arith)
                requires
                    num <= 101000000int,
            ;
        }
        if scaled > 1000000 {
            1000000
        } else {
            scaled
        }
    }

    /// Combines independent confidences: one minus the product of the
    /// complements.
    pub fn combine_confidences(&self, confidences: &Vec<u64>) -> (r: u64)
        requires
            forall|i: int| 0 <= i < confidences@.len() ==> #[trigger] confidences@[i] <= CONF_ONE,
        ensures
            r as int == 1000000 - spec_complement_product(confidences@),
            r <= CONF_ONE,
            confidences@.len() == 0 ==> r == 0,
    {
        let n: usize = confidences.len();
        if n == 0 {
            proof {
                assert(spec_complement_product(confidences@) == 1000000);
            }
            return 0;
        }
        let mut rest: u64 = 1000000;
        let mut i: usize = 0;
        proof {
            assert(confidences@.take(0) =~= Seq::<u64>::empty());
        }
        while i < n
            invariant
                n == confidences@.len(),
                forall|j: int| 0 <= j < n ==> #[trigger] confidences@[j] <= 1000000,
                i <= n,
                rest as int == spec_complement_product(confidences@.take(i as int)),
                rest <= 1000000,
            decreases n - i,
        {
            let c = confidences[i];
            proof {
                assert(confidences@[i as int] <= 1000000);
                assert(rest * (1000000 - c) <= 1000000 * 1000000) by (nonlinear_arith)
                    requires
                        rest <= 1000000,
                        c <= 1000000,
                ;
            }
            rest = rest * (1000000 - c) / 1000000;
            i = i + 1;
            proof {
                let cur = confidences@.take(i as int);
                assert(cur.drop_last() =~= confidences@.take(i - 1));
                assert(cur.last() == confidences@[i - 1]);
            }
        }
        proof {
            assert(confidences@.take(n as int) =~= confidences@);
        }
        1000000 - rest
    }

    /// Subtracts a tenth per false-positive indicator, floored at zero.
    pub fn adjust_for_false_positives(&self, confidence: u64, false_positive_indicators: usize) -> (
        r: u64)
        requires
            confidence <= CONF_ONE,
            false_positive_indicators <= 1000,
        ensures
            r as int == (if confidence >= (false_positive_indicators as int) * 100000 {
                confidence - (false_positive_indicators as int) * 100000
            } else {
                0
            }),
            r <= confidence,
    {
        let penalty: u64 = (false_positive_indicators as u64) * 100000;
        if confidence >= penalty {
            confidence - penalty
        } else {
            0
        }
    }
}

/// The product of the complements, in micro units, with the running value
/// floored after each factor.
pub open spec fn spec_complement_product(confidences: Seq<u64>) -> int
    decreases confidences.len(),
{
    if confidences.len() == 0 {
        1000000
    } else {
        spec_complement_product(confidences.drop_last()) * (1000000 - confidences.last()) / 1000000
    }
}

} // verus!
