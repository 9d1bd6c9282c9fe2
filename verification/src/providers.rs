//! Provider plugins: each inspects an already-fetched response and emits
//! signature-match evidence, with the emitted list pinned by a spec function.
//! The closed set of providers is dispatched through one enum.

pub mod akamai;
pub mod aws;
pub mod cloudflare;
pub mod fastly;
pub mod vercel;

use vstd::prelude::*;
use vstd::string::StringExecFns;
use crate::DetectionContext;
use crate::Evidence;
use crate::EvidenceV;
use crate::ProviderType;
use crate::http::HttpResponse;
use crate::http::RespV;
use self::akamai::AkamaiProvider;
use self::akamai::akamai_passive_spec;
use self::aws::AwsProvider;
use self::aws::aws_passive_spec;
use self::cloudflare::CloudFlareProvider;
use self::cloudflare::cf_passive_spec;
use self::fastly::FastlyProvider;
use self::fastly::fastly_passive_spec;
use self::vercel::VercelProvider;
use self::vercel::vercel_passive_spec;

verus! {

/// The closed set of detection providers.
#[derive(Debug)]
pub enum Provider {
    CloudFlare(CloudFlareProvider),
    Akamai(AkamaiProvider),
    AWS(AwsProvider),
    Fastly(FastlyProvider),
    Vercel(VercelProvider),
}

/// Provider metadata for listing.
#[derive(Debug)]
pub struct ProviderMetadata {
    pub name: String,
    pub version: String,
    pub description: Option<String>,
    pub provider_type: String,
    pub enabled: bool,
    pub priority: u32,
}

/// Mathematical model of a `ProviderMetadata`.
pub struct MetaV {
    pub name: Seq<char>,
    pub version: Seq<char>,
    pub description: Option<Seq<char>>,
    pub provider_type: Seq<char>,
    pub enabled: bool,
    pub priority: u32,
}

impl View for ProviderMetadata {
    type V = MetaV;

    open spec fn view(&self) -> MetaV {
        MetaV {
            name: self.name@,
            version: self.version@,
            description: self.description.deep_view(),
            provider_type: self.provider_type@,
            enabled: self.enabled,
            priority: self.priority,
        }
    }
}

impl DeepView for ProviderMetadata {
    type V = MetaV;

    open spec fn deep_view(&self) -> MetaV {
        self.view()
    }
}

impl Clone for ProviderMetadata {
    /// A clone carries the same fields.
    fn clone(&self) -> (res: Self)
        ensures
            res@ == self@,
    {
        ProviderMetadata {
            name: self.name.clone(),
            version: self.version.clone(),
            description: match &self.description {
                Some(d) => Some(d.clone()),
                None => None,
            },
            provider_type: self.provider_type.clone(),
            enabled: self.enabled,
            priority: self.priority,
        }
    }
}

/// The metadata one provider lists as.
pub open spec fn spec_metadata(p: Provider) -> MetaV {
    match p {
        Provider::CloudFlare(q) => MetaV {
            name: q.name@,
            version: q.version@,
            description: Some(q.description@),
            provider_type: "Both"@,
            enabled: q.enabled,
            priority: 100,
        },
        Provider::Akamai(q) => MetaV {
            name: q.name@,
            version: q.version@,
            description: Some(q.description@),
            provider_type: "Both"@,
            enabled: q.enabled,
            priority: 95,
        },
        Provider::AWS(q) => MetaV {
            name: q.name@,
            version: q.version@,
            description: Some(q.description@),
            provider_type: "Both"@,
            enabled: q.enabled,
            priority: 100,
        },
        Provider::Fastly(q) => MetaV {
            name: q.name@,
            version: q.version@,
            description: Some(q.description@),
            provider_type: "Both"@,
            enabled: q.enabled,
            priority: 95,
        },
        Provider::Vercel(q) => MetaV {
            name: q.name@,
            version: q.version@,
            description: Some(q.description@),
            provider_type: "CDN Only"@,
            enabled: q.enabled,
            priority: 90,
        },
    }
}

impl Provider {
    /// The provider's display name.
    pub open spec fn name_spec(&self) -> Seq<char> {
        match self {
            Provider::CloudFlare(p) => p.name@,
            Provider::Akamai(p) => p.name@,
            Provider::AWS(p) => p.name@,
            Provider::Fastly(p) => p.name@,
            Provider::Vercel(p) => p.name@,
        }
    }

    /// The service kind the provider offers.
    pub open spec fn type_spec(&self) -> ProviderType {
        match self {
            Provider::CloudFlare(_) => ProviderType::Both,
            Provider::Akamai(_) => ProviderType::Both,
            Provider::AWS(_) => ProviderType::Both,
            Provider::Fastly(_) => ProviderType::Both,
            Provider::Vercel(_) => ProviderType::CDN,
        }
    }

    /// Tie-break priority; higher wins.
    pub open spec fn priority_spec(&self) -> u32 {
        match self {
            Provider::CloudFlare(_) => 100,
            Provider::Akamai(_) => 95,
            Provider::AWS(_) => 100,
            Provider::Fastly(_) => 95,
            Provider::Vercel(_) => 90,
        }
    }

    /// Whether the provider takes part in detection.
    pub open spec fn enabled_spec(&self) -> bool {
        match self {
            Provider::CloudFlare(p) => p.enabled,
            Provider::Akamai(p) => p.enabled,
            Provider::AWS(p) => p.enabled,
            Provider::Fastly(p) => p.enabled,
            Provider::Vercel(p) => p.enabled,
        }
    }

    /// Everything the provider's passive inspection emits on a response.
    pub open spec fn passive_spec(&self, r: RespV) -> Seq<EvidenceV> {
        match self {
            Provider::CloudFlare(_) => cf_passive_spec(r),
            Provider::Akamai(_) => akamai_passive_spec(r),
            Provider::AWS(_) => aws_passive_spec(r),
            Provider::Fastly(_) => fastly_passive_spec(r),
            Provider::Vercel(_) => vercel_passive_spec(r),
        }
    }

    pub fn name(&self) -> (r: &str)
        ensures
            r@ == self.name_spec(),
    {
        match self {
            Provider::CloudFlare(p) => p.name.as_str(),
            Provider::Akamai(p) => p.name.as_str(),
            Provider::AWS(p) => p.name.as_str(),
            Provider::Fastly(p) => p.name.as_str(),
            Provider::Vercel(p) => p.name.as_str(),
        }
    }

    pub fn version(&self) -> (r: &str)
        ensures
            r@ == match self {
                Provider::CloudFlare(p) => p.version@,
                Provider::Akamai(p) => p.version@,
                Provider::AWS(p) => p.version@,
                Provider::Fastly(p) => p.version@,
                Provider::Vercel(p) => p.version@,
            },
    {
        match self {
            Provider::CloudFlare(p) => p.version.as_str(),
            Provider::Akamai(p) => p.version.as_str(),
            Provider::AWS(p) => p.version.as_str(),
            Provider::Fastly(p) => p.version.as_str(),
            Provider::Vercel(p) => p.version.as_str(),
        }
    }

    pub fn description(&self) -> (r: Option<String>)
        ensures
            r is Some,
            r matches Some(d) ==> d@ == match self {
                Provider::CloudFlare(p) => p.description@,
                Provider::Akamai(p) => p.description@,
                Provider::AWS(p) => p.description@,
                Provider::Fastly(p) => p.description@,
                Provider::Vercel(p) => p.description@,
            },
    {
        match self {
            Provider::CloudFlare(p) => Some(p.description.clone()),
            Provider::Akamai(p) => Some(p.description.clone()),
            Provider::AWS(p) => Some(p.description.clone()),
            Provider::Fastly(p) => Some(p.description.clone()),
            Provider::Vercel(p) => Some(p.description.clone()),
        }
    }

    pub fn provider_type(&self) -> (t: ProviderType)
        ensures
            t == self.type_spec(),
    {
        match self {
            Provider::CloudFlare(p) => p.provider_type(),
            Provider::Akamai(p) => p.provider_type(),
            Provider::AWS(p) => p.provider_type(),
            Provider::Fastly(p) => p.provider_type(),
            Provider::Vercel(p) => p.provider_type(),
        }
    }

    /// A plugin self-report, unused by the scorer.
    pub fn confidence_base(&self) -> (c: u64)
        ensures
            c <= crate::CONF_ONE,
    {
        match self {
            Provider::CloudFlare(p) => p.confidence_base(),
            Provider::Akamai(p) => p.confidence_base(),
            Provider::AWS(p) => p.confidence_base(),
            Provider::Fastly(p) => p.confidence_base(),
            Provider::Vercel(p) => p.confidence_base(),
        }
    }

    pub fn priority(&self) -> (p: u32)
        ensures
            p == self.priority_spec(),
    {
        match self {
            Provider::CloudFlare(p) => p.priority(),
            Provider::Akamai(p) => p.priority(),
            Provider::AWS(p) => p.priority(),
            Provider::Fastly(p) => p.priority(),
            Provider::Vercel(p) => p.priority(),
        }
    }

    pub fn enabled(&self) -> (r: bool)
        ensures
            r == self.enabled_spec(),
    {
        match self {
            Provider::CloudFlare(p) => p.enabled,
            Provider::Akamai(p) => p.enabled,
            Provider::AWS(p) => p.enabled,
            Provider::Fastly(p) => p.enabled,
            Provider::Vercel(p) => p.enabled,
        }
    }

    /// Passive detection on an already-fetched response.
    pub fn passive_detect(&self, resp: &HttpResponse) -> (r: Vec<Evidence>)
        ensures
            r.deep_view() == self.passive_spec(resp@),
    {
        match self {
            Provider::CloudFlare(p) => p.passive_detect(resp),
            Provider::Akamai(p) => p.passive_detect(resp),
            Provider::AWS(p) => p.passive_detect(resp),
            Provider::Fastly(p) => p.passive_detect(resp),
            Provider::Vercel(p) => p.passive_detect(resp),
        }
    }

    /// Detection over a context: passive inspection when a response is
    /// present, nothing otherwise.
    pub fn detect(&self, context: &DetectionContext) -> (r: Vec<Evidence>)
        ensures
            r.deep_view() == match context.response {
                Some(resp) => self.passive_spec(resp@),
                None => Seq::<EvidenceV>::empty(),
            },
    {
        match &context.response {
            Some(resp) => self.passive_detect(resp),
            None => {
                let ev: Vec<Evidence> = Vec::new();
                proof {
                    assert(ev.deep_view() =~= Seq::<EvidenceV>::empty());
                }
                ev
            },
        }
    }

    /// Metadata for listing, with the service kind spelled out.
    pub fn metadata(&self) -> (m: ProviderMetadata)
        ensures
            m@ == spec_metadata(*self),
            m.name@ == self.name_spec(),
            m.priority == self.priority_spec(),
            m.enabled == self.enabled_spec(),
    {
        let type_str = match self.provider_type() {
            ProviderType::WAF => String::from_str("WAF Only"),
            ProviderType::CDN => String::from_str("CDN Only"),
            ProviderType::Both => String::from_str("Both"),
        };
        ProviderMetadata {
            name: String::from_str(self.name()),
            version: String::from_str(self.version()),
            description: self.description(),
            provider_type: type_str,
            enabled: self.enabled(),
            priority: self.priority(),
        }
    }
}

impl Clone for Provider {
    /// A clone carries the same variant and fields.
    fn clone(&self) -> (res: Self)
        ensures
            res == *self,
    {
        match self {
            Provider::CloudFlare(p) => Provider::CloudFlare(p.clone()),
            Provider::Akamai(p) => Provider::Akamai(p.clone()),
            Provider::AWS(p) => Provider::AWS(p.clone()),
            Provider::Fastly(p) => Provider::Fastly(p.clone()),
            Provider::Vercel(p) => Provider::Vercel(p.clone()),
        }
    }
}

} // verus!
