//! The detection engine: owns the provider registry and fuses one run's
//! observations into a `DetectionResult`.  Network probes are performed by
//! the caller, who hands their outcomes in as plain values.

use vstd::prelude::*;
use crate::DetectionContext;
use crate::DetectionResult;
use crate::Evidence;
use crate::all_evidence_wf;
use crate::providers::Provider;
use crate::providers::ProviderMetadata;
use crate::providers::akamai::AkamaiProvider;
use crate::providers::aws::AwsProvider;
use crate::providers::cloudflare::CloudFlareProvider;
use crate::providers::fastly::FastlyProvider;
use crate::providers::vercel::VercelProvider;
use crate::registry::ProviderRegistry;
use crate::registry::best_pick;
use crate::registry::dashmap_contents;
use crate::registry::bucket_of;
use crate::registry::score_of;

verus! {

/// Main detection engine.
pub struct DetectionEngine {
    pub registry: ProviderRegistry,
}

/// A registry holding the default provider set: CloudFlare, Akamai, AWS,
/// Fastly and Vercel, in that order.
pub fn default_registry() -> (r: ProviderRegistry)
    ensures
        r.wf(),
        r.providers@.len() == 5,
        r.providers@[0] is CloudFlare,
        r.providers@[1] is Akamai,
        r.providers@[2] is AWS,
        r.providers@[3] is Fastly,
        r.providers@[4] is Vercel,
{
    proof {
        lemma_default_names_distinct();
    }
    let mut reg = ProviderRegistry::new();
    let p0 = Provider::CloudFlare(CloudFlareProvider::new());
    proof {
        assert(p0.name_spec() == "CloudFlare"@);
    }
    let res0 = reg.register_provider(p0);
    proof {
        if res0 is Err {
            let m = dashmap_contents(reg.index);
            assert(m.dom().contains("CloudFlare"@));
            assert(m["CloudFlare"@] < reg.providers@.len());
            assert(false);
        }
        assert(reg.providers@.len() == 1 && reg.providers@[0] is CloudFlare
            && reg.providers@[0].name_spec() == "CloudFlare"@);
    }
    let p1 = Provider::Akamai(AkamaiProvider::new());
    proof {
        assert(p1.name_spec() == "Akamai"@);
    }
    let res1 = reg.register_provider(p1);
    proof {
        if res1 is Err {
            let m = dashmap_contents(reg.index);
            assert(m.dom().contains("Akamai"@));
            assert(m["Akamai"@] < reg.providers@.len());
            assert(reg.providers@[m["Akamai"@] as int].name_spec() == "Akamai"@);
            assert(false);
        }
        assert(reg.providers@.len() == 2 && reg.providers@[1] is Akamai
            && reg.providers@[1].name_spec() == "Akamai"@);
    }
    let p2 = Provider::AWS(AwsProvider::new());
    proof {
        assert(p2.name_spec() == "AWS"@);
    }
    let res2 = reg.register_provider(p2);
    proof {
        if res2 is Err {
            let m = dashmap_contents(reg.index);
            assert(m.dom().contains("AWS"@));
            assert(m["AWS"@] < reg.providers@.len());
            assert(reg.providers@[m["AWS"@] as int].name_spec() == "AWS"@);
            assert(false);
        }
        assert(reg.providers@.len() == 3 && reg.providers@[2] is AWS
            && reg.providers@[2].name_spec() == "AWS"@);
    }
    let p3 = Provider::Fastly(FastlyProvider::new());
    proof {
        assert(p3.name_spec() == "Fastly"@);
    }
    let res3 = reg.register_provider(p3);
    proof {
        if res3 is Err {
            let m = dashmap_contents(reg.index);
            assert(m.dom().contains("Fastly"@));
            assert(m["Fastly"@] < reg.providers@.len());
            assert(reg.providers@[m["Fastly"@] as int].name_spec() == "Fastly"@);
            assert(false);
        }
        assert(reg.providers@.len() == 4 && reg.providers@[3] is Fastly
            && reg.providers@[3].name_spec() == "Fastly"@);
    }
    let p4 = Provider::Vercel(VercelProvider::new());
    proof {
        assert(p4.name_spec() == "Vercel"@);
    }
    let res4 = reg.register_provider(p4);
    proof {
        if res4 is Err {
            let m = dashmap_contents(reg.index);
            assert(m.dom().contains("Vercel"@));
            assert(m["Vercel"@] < reg.providers@.len());
            assert(reg.providers@[m["Vercel"@] as int].name_spec() == "Vercel"@);
            assert(false);
        }
        assert(reg.providers@.len() == 5 && reg.providers@[4] is Vercel);
    }
    reg
}

/// The five default provider names are pairwise distinct.
proof fn lemma_default_names_distinct()
    ensures
        "CloudFlare"@ != "Akamai"@,
        "CloudFlare"@ != "AWS"@,
        "CloudFlare"@ != "Fastly"@,
        "CloudFlare"@ != "Vercel"@,
        "Akamai"@ != "AWS"@,
        "Akamai"@ != "Fastly"@,
        "Akamai"@ != "Vercel"@,
        "AWS"@ != "Fastly"@,
        "AWS"@ != "Vercel"@,
        "Fastly"@ != "Vercel"@,
{
    reveal_strlit("CloudFlare");
    reveal_strlit("Akamai");
    reveal_strlit("AWS");
    reveal_strlit("Fastly");
    reveal_strlit("Vercel");
    assert(("CloudFlare"@).len() == 10);
    assert(("Akamai"@).len() == 6);
    assert(("AWS"@).len() == 3);
    assert(("Fastly"@).len() == 6);
    assert(("Vercel"@).len() == 6);
    assert("Akamai"@[0] != "Fastly"@[0]);
    assert("Akamai"@[0] != "Vercel"@[0]);
    assert("Fastly"@[0] != "Vercel"@[0]);
}

impl DetectionEngine {
    pub fn new(registry: ProviderRegistry) -> (e: Self)
        ensures
            e.registry == registry,
    {
        DetectionEngine { registry }
    }

    /// Fuses one run's observations; see `ProviderRegistry::detect_all`.
    pub fn detect_from_parts(
        &self,
        context: &DetectionContext,
        timing_evidence: &Vec<Evidence>,
        dns_evidence: &Vec<Evidence>,
        payload_evidence: &Vec<Evidence>,
        detection_time_ms: u64,
    ) -> (r: DetectionResult)
        requires
            self.registry.wf(),
            (context.response matches Some(resp) ==> resp@.headers.len() <= 0x1000_0000),
            all_evidence_wf(timing_evidence.deep_view()),
            all_evidence_wf(dns_evidence.deep_view()),
            all_evidence_wf(payload_evidence.deep_view()),
            timing_evidence@.len() <= 0x1_0000_0000,
            dns_evidence@.len() <= 0x1_0000_0000,
            payload_evidence@.len() <= 0x1_0000_0000,
        ensures
            r.url@ == context.url@,
            r.detection_time_ms == detection_time_ms,
            r.evidence_map@.len() == self.registry.providers@.len() + 3,
            (r.detected_waf is Some <==> best_pick(
                self.registry.providers@,
                *context,
                self.registry.providers@.len() as int,
                true,
            ) is Some),
            r.detected_waf matches Some(d) ==> (best_pick(
                self.registry.providers@,
                *context,
                self.registry.providers@.len() as int,
                true,
            ) matches Some(i) && d.name@ == self.registry.providers@[i].name_spec()
                && d.confidence as int == score_of(self.registry.providers@[i], *context)),
            (r.detected_cdn is Some <==> best_pick(
                self.registry.providers@,
                *context,
                self.registry.providers@.len() as int,
                false,
            ) is Some),
            r.detected_cdn matches Some(d) ==> (best_pick(
                self.registry.providers@,
                *context,
                self.registry.providers@.len() as int,
                false,
            ) matches Some(i) && d.name@ == self.registry.providers@[i].name_spec()
                && d.confidence as int == score_of(self.registry.providers@[i], *context)),
            forall|j: int|
                0 <= j < self.registry.providers@.len() ==> (#[trigger] r.evidence_map@[j].0)@
                    == self.registry.providers@[j].name_spec() && r.evidence_map@[j].1.deep_view()
                    == bucket_of(self.registry.providers@[j], *context),
    {
        self.registry.detect_all(
            context,
            timing_evidence,
            dns_evidence,
            payload_evidence,
            detection_time_ms,
        )
    }

    /// Metadata of every registered provider, by priority.
    pub fn list_providers(&self) -> (r: Vec<ProviderMetadata>)
        ensures
            r@.len() == self.registry.providers@.len(),
            forall|i: int, j: int| 0 <= i < j < r@.len() ==> r@[i].priority >= r@[j].priority,
    {
        self.registry.list_providers()
    }

    pub fn get_provider_count(&self) -> (r: usize)
        ensures
            r == self.registry.providers@.len(),
    {
        self.registry.get_provider_count()
    }
}

} // verus!
