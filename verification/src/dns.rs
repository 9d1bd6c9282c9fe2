//! DNS analysis: provider identification through CNAME records.  The
//! resolver runs outside the library; matching a resolved CNAME chain
//! against the per-provider pattern table is verified here.

use vstd::prelude::*;
use vstd::string::StrSliceExecFns;
use vstd::string::StringExecFns;
use crate::CONF_ONE;
use crate::DetectionMethod;
use crate::Evidence;
use crate::EvidenceV;
use crate::MethodV;
use crate::outside::regex_is_match;
use crate::outside::regex_match;
use crate::text::append_str;
use crate::text::lower_seq;
use crate::text::to_lower;

verus! {

/// One CNAME match rule: a regex pattern with its local confidence.
#[derive(Debug, Clone)]
pub struct DnsPattern {
    pub pattern: String,
    /// Local confidence in micro units.
    pub confidence: u64,
    pub description: String,
}

/// Mathematical model of a `DnsPattern`.
pub struct DnsPatternV {
    pub pattern: Seq<char>,
    pub confidence: u64,
    pub description: Seq<char>,
}

impl View for DnsPattern {
    type V = DnsPatternV;

    open spec fn view(&self) -> DnsPatternV {
        DnsPatternV {
            pattern: self.pattern@,
            confidence: self.confidence,
            description: self.description@,
        }
    }
}

impl DeepView for DnsPattern {
    type V = DnsPatternV;

    open spec fn deep_view(&self) -> DnsPatternV {
        self.view()
    }
}

/// DNS resolver output matcher, with the per-provider pattern table.
#[derive(Debug)]
pub struct DnsAnalyzer {
    pub provider_patterns: Vec<(String, Vec<DnsPattern>)>,
}

/// One pattern entry of the table.
pub open spec fn pat(p: Seq<char>, c: u64, d: Seq<char>) -> DnsPatternV {
    DnsPatternV { pattern: p, confidence: c, description: d }
}

/// The default CNAME pattern table, one entry per provider.
pub open spec fn spec_dns_table() -> Seq<(Seq<char>, Seq<DnsPatternV>)> {
    seq![
        (
            "CloudFlare"@,
            seq![
                pat(".*\\.cloudflare\\.net$"@, 980000, "CloudFlare CDN CNAME record"@),
                pat(".*\\.cloudflaressl\\.com$"@, 950000, "CloudFlare SSL CNAME record"@),
                pat(".*\\.cf-dns\\.com$"@, 900000, "CloudFlare DNS CNAME record"@),
            ],
        ),
        (
            "AWS"@,
            seq![
                pat(".*\\.cloudfront\\.net$"@, 980000, "AWS CloudFront CNAME record"@),
                pat(
                    "d[0-9a-z]+\\.cloudfront\\.net$"@,
                    990000,
                    "AWS CloudFront distribution CNAME"@,
                ),
                pat(".*\\.amazonaws\\.com$"@, 950000, "AWS service CNAME record"@),
            ],
        ),
        (
            "Fastly"@,
            seq![
                pat(".*\\.fastly\\.com$"@, 980000, "Fastly CDN CNAME record"@),
                pat(".*\\.fastlylb\\.net$"@, 950000, "Fastly load balancer CNAME"@),
                pat(".*\\.global\\.fastly\\.net$"@, 960000, "Fastly global network CNAME"@),
            ],
        ),
        (
            "Akamai"@,
            seq![
                pat(".*\\.akamai\\.net$"@, 980000, "Akamai CDN CNAME record"@),
                pat(".*\\.akamaized\\.net$"@, 950000, "Akamai edge network CNAME"@),
                pat(".*\\.akamaihd\\.net$"@, 960000, "Akamai HD network CNAME"@),
                pat(".*\\.edgesuite\\.net$"@, 940000, "Akamai EdgeSuite CNAME"@),
            ],
        ),
        (
            "Vercel"@,
            seq![
                pat(".*\\.vercel\\.app$"@, 990000, "Vercel deployment CNAME"@),
                pat(".*\\.vercel-dns\\.com$"@, 960000, "Vercel DNS CNAME record"@),
            ],
        ),
        (
            "KeyCDN"@,
            seq![pat(".*\\.keycdn\\.com$"@, 980000, "KeyCDN CNAME record"@)],
        ),
        (
            "MaxCDN"@,
            seq![pat(".*\\.maxcdn\\.com$"@, 980000, "MaxCDN CNAME record"@)],
        ),
    ]
}

/// A CNAME record with any trailing dot removed.
pub open spec fn trim_dot(s: Seq<char>) -> Seq<char> {
    if s.len() > 0 && s.last() == '.' {
        s.drop_last()
    } else {
        s
    }
}

/// The evidence one pattern emits for one (already trimmed) CNAME.
pub open spec fn dns_pat_ev(
    domain: Seq<char>,
    cname: Seq<char>,
    provider: Seq<char>,
    p: DnsPatternV,
) -> Option<EvidenceV> {
    if regex_is_match(p.pattern, cname) {
        Some(
            EvidenceV {
                method_type: MethodV::DNS("cname"@),
                confidence: p.confidence,
                description: p.description + " - "@ + provider + " detected via CNAME record"@,
                raw_data: domain + " -> "@ + cname,
                signature_matched: "dns-cname-"@ + lower_seq(provider),
            },
        )
    } else {
        None
    }
}

/// The evidence one provider's pattern list emits for one CNAME.
pub open spec fn dns_pats_scan(
    domain: Seq<char>,
    cname: Seq<char>,
    provider: Seq<char>,
    pats: Seq<DnsPatternV>,
) -> Seq<EvidenceV>
    decreases pats.len(),
{
    if pats.len() == 0 {
        Seq::empty()
    } else {
        dns_pats_scan(domain, cname, provider, pats.drop_last()) + crate::signatures::opt_seq(
            dns_pat_ev(domain, cname, provider, pats.last()),
        )
    }
}

/// The evidence the whole table emits for one CNAME.
pub open spec fn dns_table_scan(
    domain: Seq<char>,
    cname: Seq<char>,
    table: Seq<(Seq<char>, Seq<DnsPatternV>)>,
) -> Seq<EvidenceV>
    decreases table.len(),
{
    if table.len() == 0 {
        Seq::empty()
    } else {
        dns_table_scan(domain, cname, table.drop_last()) + dns_pats_scan(
            domain,
            trim_dot(cname),
            table.last().0,
            table.last().1,
        )
    }
}

/// The evidence the table emits over a CNAME chain.
pub open spec fn dns_cnames_scan(
    domain: Seq<char>,
    cnames: Seq<Seq<char>>,
    table: Seq<(Seq<char>, Seq<DnsPatternV>)>,
) -> Seq<EvidenceV>
    decreases cnames.len(),
{
    if cnames.len() == 0 {
        Seq::empty()
    } else {
        dns_cnames_scan(domain, cnames.drop_last(), table) + dns_table_scan(
            domain,
            cnames.last(),
            table,
        )
    }
}

/// The part of a string before the first occurrence of `sub`, or the whole
/// string.
pub open spec fn cut_before(s: Seq<char>, sub: Seq<char>) -> Seq<char> {
    match crate::text::first_match_idx(s, sub) {
        Some(i) => s.take(i),
        None => s,
    }
}

/// The part of a string after the first scheme separator, or the whole
/// string.
pub open spec fn after_protocol(s: Seq<char>) -> Seq<char> {
    match crate::text::first_match_idx(s, "://"@) {
        Some(i) => s.skip(i + 3),
        None => s,
    }
}

/// The string with a trailing all-digit port removed.
pub open spec fn strip_port(s: Seq<char>) -> Seq<char> {
    match crate::text::last_char_idx(s, ':') {
        Some(i) => if crate::text::all_digits_range(s, i + 1, s.len() as int) {
            s.take(i)
        } else {
            s
        },
        None => s,
    }
}

/// The bare domain of a URL-ish string: whitespace trimmed, scheme
/// dropped, cut at the first path, query or fragment separator, and a
/// trailing numeric port removed.
pub open spec fn spec_extract_domain(s: Seq<char>) -> Seq<char> {
    strip_port(
        cut_before(
            cut_before(cut_before(after_protocol(crate::text::trim_spaces(s)), "/"@), "?"@),
            "#"@,
        ),
    )
}

impl DnsAnalyzer {
    /// The analyzer with the default pattern table.
    pub fn new() -> (r: Self)
        ensures
            r.provider_patterns.deep_view() == spec_dns_table(),
    {
        let mut table: Vec<(String, Vec<DnsPattern>)> = Vec::new();
        let mut cf: Vec<DnsPattern> = Vec::new();
        cf.push(Self::mk_pat(".*\\.cloudflare\\.net$", 980000, "CloudFlare CDN CNAME record"));
        cf.push(Self::mk_pat(".*\\.cloudflaressl\\.com$", 950000, "CloudFlare SSL CNAME record"));
        cf.push(Self::mk_pat(".*\\.cf-dns\\.com$", 900000, "CloudFlare DNS CNAME record"));
        table.push((<String as StringExecFns>::from_str("CloudFlare"), cf));
        let mut aws: Vec<DnsPattern> = Vec::new();
        aws.push(Self::mk_pat(".*\\.cloudfront\\.net$", 980000, "AWS CloudFront CNAME record"));
        aws.push(
            Self::mk_pat(
                "d[0-9a-z]+\\.cloudfront\\.net$",
                990000,
                "AWS CloudFront distribution CNAME",
            ),
        );
        aws.push(Self::mk_pat(".*\\.amazonaws\\.com$", 950000, "AWS service CNAME record"));
        table.push((<String as StringExecFns>::from_str("AWS"), aws));
        let mut fastly: Vec<DnsPattern> = Vec::new();
        fastly.push(Self::mk_pat(".*\\.fastly\\.com$", 980000, "Fastly CDN CNAME record"));
        fastly.push(Self::mk_pat(".*\\.fastlylb\\.net$", 950000, "Fastly load balancer CNAME"));
        fastly.push(
            Self::mk_pat(".*\\.global\\.fastly\\.net$", 960000, "Fastly global network CNAME"),
        );
        table.push((<String as StringExecFns>::from_str("Fastly"), fastly));
        let mut akamai: Vec<DnsPattern> = Vec::new();
        akamai.push(Self::mk_pat(".*\\.akamai\\.net$", 980000, "Akamai CDN CNAME record"));
        akamai.push(Self::mk_pat(".*\\.akamaized\\.net$", 950000, "Akamai edge network CNAME"));
        akamai.push(Self::mk_pat(".*\\.akamaihd\\.net$", 960000, "Akamai HD network CNAME"));
        akamai.push(Self::mk_pat(".*\\.edgesuite\\.net$", 940000, "Akamai EdgeSuite CNAME"));
        table.push((<String as StringExecFns>::from_str("Akamai"), akamai));
        let mut vercel: Vec<DnsPattern> = Vec::new();
        vercel.push(Self::mk_pat(".*\\.vercel\\.app$", 990000, "Vercel deployment CNAME"));
        vercel.push(Self::mk_pat(".*\\.vercel-dns\\.com$", 960000, "Vercel DNS CNAME record"));
        table.push((<String as StringExecFns>::from_str("Vercel"), vercel));
        let mut keycdn: Vec<DnsPattern> = Vec::new();
        keycdn.push(Self::mk_pat(".*\\.keycdn\\.com$", 980000, "KeyCDN CNAME record"));
        table.push((<String as StringExecFns>::from_str("KeyCDN"), keycdn));
        let mut maxcdn: Vec<DnsPattern> = Vec::new();
        maxcdn.push(Self::mk_pat(".*\\.maxcdn\\.com$", 980000, "MaxCDN CNAME record"));
        table.push((<String as StringExecFns>::from_str("MaxCDN"), maxcdn));
        let r = DnsAnalyzer { provider_patterns: table };
        proof {
            assert(r.provider_patterns.deep_view() =~~= spec_dns_table());
        }
        r
    }

    /// Builds one pattern entry.
    fn mk_pat(p: &str, c: u64, d: &str) -> (r: DnsPattern)
        ensures
            r@ == pat(p@, c, d@),
    {
        DnsPattern {
            pattern: <String as StringExecFns>::from_str(p),
            confidence: c,
            description: <String as StringExecFns>::from_str(d),
        }
    }

    /// Matches a resolved CNAME chain against the table: one evidence per
    /// matching (CNAME, provider pattern) pair, with trailing dots trimmed.
    pub fn match_cnames(&self, domain: &str, cnames: &Vec<String>) -> (r: Vec<Evidence>)
        ensures
            r.deep_view() == dns_cnames_scan(
                domain@,
                cnames.deep_view(),
                self.provider_patterns.deep_view(),
            ),
    {
        let ghost table = self.provider_patterns.deep_view();
        let ghost cns = cnames.deep_view();
        let mut out: Vec<Evidence> = Vec::new();
        let nc: usize = cnames.len();
        let mut ci: usize = 0;
        proof {
            assert(cns.take(0) =~= Seq::<Seq<char>>::empty());
            assert(out.deep_view() =~= dns_cnames_scan(domain@, cns.take(0), table));
        }
        while ci < nc
            invariant
                nc == cnames.len(),
                cns == cnames.deep_view(),
                table == self.provider_patterns.deep_view(),
                ci <= nc,
                out.deep_view() == dns_cnames_scan(domain@, cns.take(ci as int), table),
            decreases nc - ci,
        {
            proof {
                assert(cnames.deep_view()[ci as int] == cnames@[ci as int].deep_view());
            }
            let raw = &cnames[ci];
            let n: usize = raw.as_str().unicode_len();
            let trimmed: String = if n > 0 && raw.as_str().get_char(n - 1) == '.' {
                let t = <String as StringExecFns>::from_str(
                    raw.as_str().substring_char(0, n - 1),
                );
                proof {
                    assert(t@ =~= trim_dot(raw@));
                }
                t
            } else {
                proof {
                    assert(raw@ == trim_dot(raw@));
                }
                raw.clone()
            };
            let np: usize = self.provider_patterns.len();
            let mut pi: usize = 0;
            proof {
                assert(table.take(0) =~= Seq::<(Seq<char>, Seq<DnsPatternV>)>::empty());
                assert(out.deep_view() =~= dns_cnames_scan(domain@, cns.take(ci as int), table)
                    + dns_table_scan(domain@, cns[ci as int], table.take(0)));
            }
            while pi < np
                invariant
                    nc == cnames.len(),
                    cns == cnames.deep_view(),
                    table == self.provider_patterns.deep_view(),
                    np == self.provider_patterns.len(),
                    ci < nc,
                    pi <= np,
                    trimmed@ == trim_dot(cns[ci as int]),
                    out.deep_view() == dns_cnames_scan(domain@, cns.take(ci as int), table)
                        + dns_table_scan(domain@, cns[ci as int], table.take(pi as int)),
                decreases np - pi,
            {
                proof {
                    assert(self.provider_patterns.deep_view()[pi as int] == self.provider_patterns@[
                        pi as int
                    ].deep_view());
                    assert(self.provider_patterns@[pi as int].0@ == table[pi as int].0);
                    assert(self.provider_patterns@[pi as int].1.deep_view() == table[
                        pi as int
                    ].1);
                }
                let provider = &self.provider_patterns[pi].0;
                let pats = &self.provider_patterns[pi].1;
                let npat: usize = pats.len();
                let mut ki: usize = 0;
                proof {
                    assert(table[pi as int].1.take(0) =~= Seq::<DnsPatternV>::empty());
                    assert(out.deep_view() =~= dns_cnames_scan(domain@, cns.take(ci as int), table)
                        + dns_table_scan(domain@, cns[ci as int], table.take(pi as int))
                        + dns_pats_scan(
                        domain@,
                        trim_dot(cns[ci as int]),
                        table[pi as int].0,
                        table[pi as int].1.take(0),
                    ));
                }
                while ki < npat
                    invariant
                        nc == cnames.len(),
                        cns == cnames.deep_view(),
                        table == self.provider_patterns.deep_view(),
                        np == self.provider_patterns.len(),
                        npat == pats.len(),
                        pats.deep_view() == table[pi as int].1,
                        provider@ == table[pi as int].0,
                        ci < nc,
                        pi < np,
                        ki <= npat,
                        trimmed@ == trim_dot(cns[ci as int]),
                        out.deep_view() == dns_cnames_scan(domain@, cns.take(ci as int), table)
                            + dns_table_scan(domain@, cns[ci as int], table.take(pi as int))
                            + dns_pats_scan(
                            domain@,
                            trim_dot(cns[ci as int]),
                            table[pi as int].0,
                            table[pi as int].1.take(ki as int),
                        ),
                    decreases npat - ki,
                {
                    proof {
                        assert(pats.deep_view()[ki as int] == pats@[ki as int].deep_view());
                    }
                    let p = &pats[ki];
                    let ghost pre = out.deep_view();
                    if regex_match(p.pattern.as_str(), trimmed.as_str()) {
                        let mut desc = p.description.clone();
                        append_str(&mut desc, " - ");
                        append_str(&mut desc, provider.as_str());
                        append_str(&mut desc, " detected via CNAME record");
                        let mut raw_data = <String as StringExecFns>::from_str(domain);
                        append_str(&mut raw_data, " -> ");
                        append_str(&mut raw_data, trimmed.as_str());
                        let lowered = to_lower(provider.as_str());
                        let mut sig = <String as StringExecFns>::from_str("dns-cname-");
                        append_str(&mut sig, lowered.as_str());
                        let e = Evidence {
                            method_type: DetectionMethod::DNS(
                                <String as StringExecFns>::from_str("cname"),
                            ),
                            confidence: p.confidence,
                            description: desc,
                            raw_data,
                            signature_matched: sig,
                        };
                        proof {
                            assert(e.deep_view() == dns_pat_ev(
                                domain@,
                                trim_dot(cns[ci as int]),
                                table[pi as int].0,
                                table[pi as int].1[ki as int],
                            ).unwrap());
                        }
                        out.push(e);
                        proof {
                            assert(out.deep_view() =~= pre.push(
                                dns_pat_ev(
                                    domain@,
                                    trim_dot(cns[ci as int]),
                                    table[pi as int].0,
                                    table[pi as int].1[ki as int],
                                ).unwrap(),
                            ));
                        }
                    }
                    ki = ki + 1;
                    proof {
                        let cur = table[pi as int].1.take(ki as int);
                        assert(cur.drop_last() =~= table[pi as int].1.take(ki - 1));
                        assert(cur.last() == table[pi as int].1[ki - 1]);
                        assert(out.deep_view() =~= dns_cnames_scan(
                            domain@,
                            cns.take(ci as int),
                            table,
                        ) + dns_table_scan(domain@, cns[ci as int], table.take(pi as int))
                            + dns_pats_scan(
                            domain@,
                            trim_dot(cns[ci as int]),
                            table[pi as int].0,
                            cur,
                        ));
                    }
                }
                pi = pi + 1;
                proof {
                    assert(table[pi - 1].1.take(npat as int) =~= table[pi - 1].1);
                    let cur = table.take(pi as int);
                    assert(cur.drop_last() =~= table.take(pi - 1));
                    assert(cur.last() == table[pi - 1]);
                    assert(out.deep_view() =~= dns_cnames_scan(domain@, cns.take(ci as int), table)
                        + dns_table_scan(domain@, cns[ci as int], cur));
                }
            }
            ci = ci + 1;
            proof {
                assert(table.take(np as int) =~= table);
                let cur = cns.take(ci as int);
                assert(cur.drop_last() =~= cns.take(ci - 1));
                assert(cur.last() == cns[ci - 1]);
                assert(out.deep_view() =~= dns_cnames_scan(domain@, cur, table));
            }
        }
        proof {
            assert(cns.take(nc as int) =~= cns);
        }
        out
    }

    /// Extracts the bare domain from a URL-ish string: surrounding
    /// whitespace and any scheme prefix are dropped, the first path, query
    /// or fragment separator ends the domain, and a trailing numeric port
    /// is removed.
    pub fn extract_domain(&self, url: &str) -> (r: String)
        ensures
            r@ == spec_extract_domain(url@),
    {
        let t: String = crate::text::trim_ascii(url);
        let wp: String = match crate::text::find_sub(t.as_str(), "://") {
            Some(i) => {
                proof {
                    crate::text::lemma_first_match_props(t@, "://"@, 0);
                    reveal_strlit("://");
                }
                let nn: usize = t.as_str().unicode_len();
                <String as StringExecFns>::from_str(t.as_str().substring_char(i + 3, nn))
            },
            None => t,
        };
        let c1: String = match crate::text::find_sub(wp.as_str(), "/") {
            Some(i) => {
                proof {
                    crate::text::lemma_first_match_props(wp@, "/"@, 0);
                }
                <String as StringExecFns>::from_str(wp.as_str().substring_char(0, i))
            },
            None => wp,
        };
        let c2: String = match crate::text::find_sub(c1.as_str(), "?") {
            Some(i) => {
                proof {
                    crate::text::lemma_first_match_props(c1@, "?"@, 0);
                }
                <String as StringExecFns>::from_str(c1.as_str().substring_char(0, i))
            },
            None => c1,
        };
        let c3: String = match crate::text::find_sub(c2.as_str(), "#") {
            Some(i) => {
                proof {
                    crate::text::lemma_first_match_props(c2@, "#"@, 0);
                }
                <String as StringExecFns>::from_str(c2.as_str().substring_char(0, i))
            },
            None => c2,
        };
        let n3: usize = c3.as_str().unicode_len();
        match crate::text::rfind_char(c3.as_str(), ':') {
            Some(i) => {
                proof {
                    crate::text::lemma_last_char_props(c3@, ':');
                    assert(i < n3);
                }
                if crate::text::all_digits_from(c3.as_str(), i + 1) {
                    <String as StringExecFns>::from_str(c3.as_str().substring_char(0, i))
                } else {
                    c3
                }
            },
            None => c3,
        }
    }

    /// The names of every provider the table covers, in table order.
    pub fn get_supported_providers(&self) -> (r: Vec<String>)
        ensures
            r@.len() == self.provider_patterns@.len(),
            forall|i: int|
                0 <= i < r@.len() ==> (#[trigger] r@[i])@ == self.provider_patterns.deep_view()[
                    i
                ].0,
    {
        let mut out: Vec<String> = Vec::new();
        let n: usize = self.provider_patterns.len();
        let mut i: usize = 0;
        while i < n
            invariant
                n == self.provider_patterns.len(),
                i <= n,
                out@.len() == i,
                forall|j: int|
                    0 <= j < i ==> (#[trigger] out@[j])@ == self.provider_patterns.deep_view()[
                        j
                    ].0,
            decreases n - i,
        {
            proof {
                assert(self.provider_patterns.deep_view()[i as int] == self.provider_patterns@[
                    i as int
                ].deep_view());
            }
            out.push(self.provider_patterns[i].0.clone());
            i = i + 1;
        }
        out
    }

    /// How many patterns the table holds for a provider; zero for one it
    /// does not cover.
    pub fn get_pattern_count(&self, provider: &str) -> (r: usize)
        ensures
            (exists|i: int|
                0 <= i < self.provider_patterns.deep_view().len()
                    && (#[trigger] self.provider_patterns.deep_view()[i]).0 == provider@
                    && self.provider_patterns.deep_view()[i].1.len() == r) || (r == 0 && forall|
                i: int,
            |
                0 <= i < self.provider_patterns.deep_view().len() ==> (
                #[trigger] self.provider_patterns.deep_view()[i]).0 != provider@),
    {
        let n: usize = self.provider_patterns.len();
        let mut i: usize = 0;
        while i < n
            invariant
                n == self.provider_patterns.len(),
                i <= n,
                forall|j: int|
                    0 <= j < i ==> (#[trigger] self.provider_patterns.deep_view()[j]).0
                        != provider@,
            decreases n - i,
        {
            proof {
                assert(self.provider_patterns.deep_view()[i as int] == self.provider_patterns@[
                    i as int
                ].deep_view());
            }
            if crate::text::str_eq(self.provider_patterns[i].0.as_str(), provider) {
                return self.provider_patterns[i].1.len();
            }
            i = i + 1;
        }
        0
    }
}

/// Every confidence in the default table is a valid probability.
pub proof fn lemma_dns_table_wf()
    ensures
        forall|i: int, k: int|
            0 <= i < spec_dns_table().len() && 0 <= k < (#[trigger] spec_dns_table()[i]).1.len()
                ==> (#[trigger] spec_dns_table()[i].1[k]).confidence <= CONF_ONE,
{
}

} // verus!
