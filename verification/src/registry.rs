//! The provider registry: providers live in a vector, and a concurrent map
//! indexes them by name so lookups stay cheap after registration.  The map
//! is an outside collection; its contents are named by an uninterpreted
//! function and every method the registry calls goes through a wrapper
//! whose contract states what that crate's source shows.

use vstd::prelude::*;
use vstd::string::StringExecFns;
use crate::DetectionContext;
use crate::DetectionMetadata;
use crate::DetectionResult;
use crate::Evidence;
use crate::EvidenceV;
use crate::ProviderDetection;
use crate::ProviderType;
use crate::all_evidence_wf;
use crate::providers::Provider;
use crate::providers::MetaV;
use crate::providers::ProviderMetadata;
use crate::providers::spec_metadata;
use crate::scoring::AdvancedScoring;
use crate::scoring::spec_score;
use crate::text::lex_lt;

verus! {

#[verifier::external_type_specification]
#[verifier::external_body]
#[verifier::reject_recursive_types(K)]
#[verifier::reject_recursive_types(V)]
#[verifier::reject_recursive_types(S)]
pub struct ExDashMap<K, V, S>(dashmap::DashMap<K, V, S>);

/// The concurrent map type the registry indexes provider names with.
pub type NameIndex = dashmap::DashMap<String, u64, std::collections::hash_map::RandomState>;

/// What the index map holds: provider name to slot number.
pub uninterp spec fn dashmap_contents(m: NameIndex) -> Map<Seq<char>, u64>;

/// The empty name-to-slot map.
pub open spec fn empty_index() -> Map<Seq<char>, u64> {
    Map::empty()
}

/// Relies on `dashmap::DashMap::new`: a fresh map holds nothing.
#[verifier::external_body]
fn dm_new() -> (r: NameIndex)
    ensures
        dashmap_contents(r) == empty_index(),
{
    dashmap::DashMap::new()
}

/// Relies on `dashmap::DashMap::insert`: maps the key to the value and
/// returns the value it replaced, if the key was present.
#[verifier::external_body]
fn dm_insert(m: &mut NameIndex, k: String, v: u64) -> (prev: Option<u64>)
    ensures
        dashmap_contents(*final(m)) == dashmap_contents(*old(m)).insert(k@, v),
        prev is Some <==> dashmap_contents(*old(m)).dom().contains(k@),
        prev matches Some(pv) ==> pv == dashmap_contents(*old(m))[k@],
{
    m.insert(k, v)
}

/// Relies on `dashmap::DashMap::get`: the value mapped to the key, if any.
#[verifier::external_body]
fn dm_get(m: &NameIndex, k: &str) -> (r: Option<u64>)
    ensures
        r is Some <==> dashmap_contents(*m).dom().contains(k@),
        r matches Some(v) ==> v == dashmap_contents(*m)[k@],
{
    m.get(k).map(|entry| *entry)
}

/// Relies on `dashmap::DashMap::contains_key`.
#[verifier::external_body]
fn dm_contains(m: &NameIndex, k: &str) -> (r: bool)
    ensures
        r == dashmap_contents(*m).dom().contains(k@),
{
    m.contains_key(k)
}

/// Registry of detection providers, indexed by name.
pub struct ProviderRegistry {
    pub providers: Vec<Provider>,
    pub index: NameIndex,
}

impl ProviderRegistry {
    /// The index maps exactly the registered names to their slots.
    pub open spec fn wf(&self) -> bool {
        let m = dashmap_contents(self.index);
        &&& forall|k: Seq<char>|
            m.dom().contains(k) ==> #[trigger] m[k] < self.providers@.len()
                && self.providers@[m[k] as int].name_spec() == k
        &&& forall|i: int|
            0 <= i < self.providers@.len() ==> m.dom().contains(
                #[trigger] self.providers@[i].name_spec(),
            ) && m[self.providers@[i].name_spec()] == i
    }

    /// An empty registry.
    pub fn new() -> (r: Self)
        ensures
            r.wf(),
            r.providers@.len() == 0,
    {
        let r = ProviderRegistry { providers: Vec::new(), index: dm_new() };
        proof {
            assert(r.wf());
        }
        r
    }

    /// Registers a provider under its name; a name can be taken only once.
    pub fn register_provider(&mut self, provider: Provider) -> (r: Result<(), String>)
        requires
            old(self).wf(),
            old(self).providers@.len() < 0xffff_ffff,
        ensures
            final(self).wf(),
            r is Ok ==> final(self).providers@ == old(self).providers@.push(provider)
                && !old(self).has_name(provider.name_spec()),
            r is Err ==> final(self).providers@ == old(self).providers@
                && final(self).has_name(provider.name_spec()),
    {
        let name = provider.name();
        if dm_contains(&self.index, name) {
            let mut msg = String::new();
            crate::text::append_str(&mut msg, "Provider '");
            crate::text::append_str(&mut msg, name);
            crate::text::append_str(&mut msg, "' is already registered");
            return Err(msg);
        }
        let idx: u64 = self.providers.len() as u64;
        let name_owned = <String as vstd::string::StringExecFns>::from_str(name);
        let _ = dm_insert(&mut self.index, name_owned, idx);
        self.providers.push(provider);
        proof {
            let m = dashmap_contents(self.index);
            let old_m = dashmap_contents(old(self).index);
            assert(m == old_m.insert(provider.name_spec(), idx));
            assert forall|i: int| 0 <= i < self.providers@.len() implies m.dom().contains(
                #[trigger] self.providers@[i].name_spec(),
            ) && m[self.providers@[i].name_spec()] == i by {
                if i < old(self).providers@.len() {
                    assert(self.providers@[i] == old(self).providers@[i]);
                    assert(old(self).providers@[i].name_spec() != provider.name_spec());
                }
            }
        }
        Ok(())
    }

    /// Whether some registered provider carries this name.
    pub open spec fn has_name(&self, name: Seq<char>) -> bool {
        dashmap_contents(self.index).dom().contains(name)
    }

    /// The registered provider with this name, if any.
    pub fn get_provider(&self, name: &str) -> (r: Option<Provider>)
        requires
            self.wf(),
        ensures
            r is Some <==> self.has_name(name@),
            r matches Some(p) ==> exists|i: int|
                0 <= i < self.providers@.len() && p == self.providers@[i]
                    && p.name_spec() == name@,
    {
        let n: usize = self.providers.len();
        match dm_get(&self.index, name) {
            Some(idx) => {
                proof {
                    assert(n == self.providers@.len());
                    let m = dashmap_contents(self.index);
                    assert(m.dom().contains(name@));
                    assert(m[name@] < self.providers@.len());
                    assert(self.providers@[m[name@] as int].name_spec() == name@);
                    assert(idx == m[name@]);
                }
                let i = idx as usize;
                let p = self.providers[i].clone();
                proof {
                    let m = dashmap_contents(self.index);
                    assert(idx == m[name@]);
                    assert(idx < self.providers@.len());
                    assert((i as int) == (idx as int));
                    assert(p == self.providers@[i as int]);
                    assert(p.name_spec() == name@);
                }
                Some(p)
            },
            None => None,
        }
    }

    pub fn is_provider_registered(&self, name: &str) -> (r: bool)
        ensures
            r == self.has_name(name@),
    {
        dm_contains(&self.index, name)
    }

    pub fn get_provider_count(&self) -> (r: usize)
        ensures
            r == self.providers@.len(),
    {
        self.providers.len()
    }

    /// Metadata of every registered provider, ordered by priority, highest
    /// first; the entries are a permutation of the registered providers'
    /// metadata.
    pub fn list_providers(&self) -> (r: Vec<ProviderMetadata>)
        ensures
            r@.len() == self.providers@.len(),
            forall|i: int, j: int| 0 <= i < j < r@.len() ==> r@[i].priority >= r@[j].priority,
            r.deep_view().to_multiset() == metas_of(self.providers@).to_multiset(),
    {
        let ghost ps = self.providers@;
        let mut metas: Vec<ProviderMetadata> = Vec::new();
        let n: usize = self.providers.len();
        let mut i: usize = 0;
        proof {
            assert(ps.take(0) =~= Seq::<Provider>::empty());
            assert(metas.deep_view() =~= metas_of(ps.take(0)));
        }
        while i < n
            invariant
                n == self.providers.len(),
                ps == self.providers@,
                i <= n,
                metas@.len() == i,
                metas.deep_view() == metas_of(ps.take(i as int)),
            decreases n - i,
        {
            let ghost pre = metas.deep_view();
            let m = self.providers[i].metadata();
            metas.push(m);
            i = i + 1;
            proof {
                let cur = ps.take(i as int);
                assert(cur.drop_last() =~= ps.take(i - 1));
                assert(cur.last() == ps[i - 1]);
                assert(metas.deep_view() =~= pre.push(spec_metadata(ps[i - 1])));
                assert(metas.deep_view() =~= metas_of(cur));
            }
        }
        proof {
            assert(ps.take(n as int) =~= ps);
        }
        // Insertion sort on priority, descending; each insertion keeps the
        // multiset of entries.
        let mut sorted: Vec<ProviderMetadata> = Vec::new();
        let mut k: usize = 0;
        proof {
            broadcast use vstd::seq_lib::group_to_multiset_ensures;

            assert(metas.deep_view().take(0) =~= Seq::<MetaV>::empty());
            assert(sorted.deep_view() =~= metas.deep_view().take(0));
        }
        while k < metas.len()
            invariant
                k <= metas@.len(),
                metas@.len() == n,
                metas.deep_view() == metas_of(ps),
                sorted@.len() == k,
                forall|a: int, b: int|
                    0 <= a < b < sorted@.len() ==> sorted@[a].priority >= sorted@[b].priority,
                sorted.deep_view().to_multiset() == metas.deep_view().take(
                    k as int,
                ).to_multiset(),
            decreases metas@.len() - k,
        {
            broadcast use vstd::seq_lib::group_to_multiset_ensures;

            let item = metas[k].clone();
            proof {
                assert(item@ == metas.deep_view()[k as int]);
            }
            let mut pos: usize = 0;
            while pos < sorted.len() && sorted[pos].priority >= item.priority
                invariant
                    pos <= sorted@.len(),
                    forall|a: int| 0 <= a < pos ==> sorted@[a].priority >= item.priority,
                    forall|a: int, b: int|
                        0 <= a < b < sorted@.len() ==> sorted@[a].priority >= sorted@[b].priority,
                decreases sorted@.len() - pos,
            {
                pos = pos + 1;
            }
            proof {
                assert(pos < sorted@.len() ==> sorted@[pos as int].priority < item.priority);
            }
            let ghost pre = sorted.deep_view();
            sorted.insert(pos, item);
            proof {
                assert(sorted.deep_view() =~= pre.insert(pos as int, metas.deep_view()[
                    k as int
                ]));
                lemma_multiset_insert(pre, pos as int, metas.deep_view()[k as int]);
                assert(metas.deep_view().take(k + 1) =~= metas.deep_view().take(k as int).push(
                    metas.deep_view()[k as int],
                ));
                assert(sorted.deep_view().to_multiset() =~= metas.deep_view().take(
                    k + 1,
                ).to_multiset());
                assert forall|a: int, b: int|
                    0 <= a < b < sorted@.len() implies sorted@[a].priority
                    >= sorted@[b].priority by {
                    if b < pos {
                    } else if a == pos as int {
                    } else if b == pos as int {
                    }
                }
            }
            k = k + 1;
        }
        proof {
            assert(metas.deep_view().take(n as int) =~= metas.deep_view());
        }
        sorted
    }
}

/// The metadata of a provider list, in order.
pub open spec fn metas_of(ps: Seq<Provider>) -> Seq<MetaV>
    decreases ps.len(),
{
    if ps.len() == 0 {
        Seq::empty()
    } else {
        metas_of(ps.drop_last()).push(spec_metadata(ps.last()))
    }
}

/// Inserting an element anywhere adds exactly that element to the
/// multiset.
proof fn lemma_multiset_insert(t: Seq<MetaV>, pos: int, x: MetaV)
    requires
        0 <= pos <= t.len(),
    ensures
        t.insert(pos, x).to_multiset() == t.to_multiset().insert(x),
{
    broadcast use vstd::seq_lib::group_to_multiset_ensures;

    let u = t.insert(pos, x);
    assert(u.len() == t.len() + 1);
    assert(u[pos] == x);
    assert(u.remove(pos) =~= t);
    assert(u.remove(pos).to_multiset() =~= u.to_multiset().remove(x));
    assert(u.to_multiset().contains(x)) by {
        assert(u.contains(x));
    }
    assert(u.to_multiset() =~= u.to_multiset().remove(x).insert(x));
}

/// The response headers a detection context carries, or nothing.
pub open spec fn ctx_headers(ctx: DetectionContext) -> Seq<(Seq<char>, Seq<char>)> {
    match ctx.response {
        Some(resp) => resp@.headers,
        None => Seq::empty(),
    }
}

/// The evidence bucket one provider produces for a context: its passive
/// signature matches, or nothing when it is disabled or no response exists.
pub open spec fn bucket_of(p: Provider, ctx: DetectionContext) -> Seq<EvidenceV> {
    if !p.enabled_spec() {
        Seq::empty()
    } else {
        match ctx.response {
            Some(resp) => p.passive_spec(resp@),
            None => Seq::empty(),
        }
    }
}

/// One provider's fused score for a context.
pub open spec fn score_of(p: Provider, ctx: DetectionContext) -> int {
    spec_score(p.name_spec(), bucket_of(p, ctx), ctx_headers(ctx))
}

/// Eligibility for the WAF slot: kind WAF or Both.
pub open spec fn waf_eligible(p: Provider) -> bool {
    p.type_spec() == ProviderType::WAF || p.type_spec() == ProviderType::Both
}

/// Eligibility for the CDN slot: kind CDN or Both.
pub open spec fn cdn_eligible(p: Provider) -> bool {
    p.type_spec() == ProviderType::CDN || p.type_spec() == ProviderType::Both
}

/// Strictly better candidate: higher score, then higher priority, then
/// lexicographically earlier name.
pub open spec fn beats(sa: int, pa: u32, na: Seq<char>, sb: int, pb: u32, nb: Seq<char>) -> bool {
    sa > sb || (sa == sb && pa > pb) || (sa == sb && pa == pb && lex_lt(na, nb))
}

/// The slot winner among the first `n` providers: the highest-scoring
/// eligible provider with a positive score, ties broken by priority and
/// then name.
pub open spec fn best_pick(ps: Seq<Provider>, ctx: DetectionContext, n: int, waf: bool) -> Option<
    int,
>
    decreases n,
{
    if n <= 0 {
        None
    } else {
        let prev = best_pick(ps, ctx, n - 1, waf);
        let i = n - 1;
        let elig = if waf {
            waf_eligible(ps[i])
        } else {
            cdn_eligible(ps[i])
        };
        if elig && score_of(ps[i], ctx) > 0 {
            match prev {
                None => Some(i),
                Some(j) => if beats(
                    score_of(ps[i], ctx),
                    ps[i].priority_spec(),
                    ps[i].name_spec(),
                    score_of(ps[j], ctx),
                    ps[j].priority_spec(),
                    ps[j].name_spec(),
                ) {
                    Some(i)
                } else {
                    Some(j)
                },
            }
        } else {
            prev
        }
    }
}

/// A slot winner is an eligible provider with a positive score.
pub proof fn lemma_best_pick_sound(ps: Seq<Provider>, ctx: DetectionContext, n: int, waf: bool)
    requires
        n <= ps.len(),
    ensures
        best_pick(ps, ctx, n, waf) matches Some(i) ==> 0 <= i < n && (if waf {
            waf_eligible(ps[i])
        } else {
            cdn_eligible(ps[i])
        }) && score_of(ps[i], ctx) > 0,
    decreases n,
{
    if n > 0 {
        lemma_best_pick_sound(ps, ctx, n - 1, waf);
    }
}

/// The slot winner's score is the maximum over all eligible positive
/// scores, and a slot stays empty exactly when there is none.
#[verifier::rlimit(100)]
#[verifier::spinoff_prover]
pub proof fn lemma_best_pick_max(ps: Seq<Provider>, ctx: DetectionContext, n: int, waf: bool)
    requires
        n <= ps.len(),
    ensures
        best_pick(ps, ctx, n, waf) matches Some(i) ==> forall|j: int|
            0 <= j < n && (if waf {
                waf_eligible(ps[j])
            } else {
                cdn_eligible(ps[j])
            }) && score_of(ps[j], ctx) > 0 ==> score_of(ps[j], ctx) <= score_of(ps[i], ctx),
        best_pick(ps, ctx, n, waf) is None ==> forall|j: int|
            0 <= j < n ==> !((if waf {
                waf_eligible(ps[j])
            } else {
                cdn_eligible(ps[j])
            }) && score_of(ps[j], ctx) > 0),
    decreases n,
{
    if n > 0 {
        lemma_best_pick_max(ps, ctx, n - 1, waf);
        lemma_best_pick_sound(ps, ctx, n - 1, waf);
        lemma_best_pick_sound(ps, ctx, n, waf);
        let prev = best_pick(ps, ctx, n - 1, waf);
        let cur = best_pick(ps, ctx, n, waf);
        match cur {
            Some(b) => {
                match prev {
                    Some(k) => {
                        assert(score_of(ps[k], ctx) <= score_of(ps[b], ctx));
                        assert forall|j: int|
                            0 <= j < n && (if waf {
                                waf_eligible(ps[j])
                            } else {
                                cdn_eligible(ps[j])
                            }) && score_of(ps[j], ctx) > 0 implies score_of(ps[j], ctx)
                            <= score_of(ps[b], ctx) by {
                            if j < n - 1 {
                                assert(score_of(ps[j], ctx) <= score_of(ps[k], ctx));
                            }
                        }
                    },
                    None => {
                        assert forall|j: int|
                            0 <= j < n && (if waf {
                                waf_eligible(ps[j])
                            } else {
                                cdn_eligible(ps[j])
                            }) && score_of(ps[j], ctx) > 0 implies score_of(ps[j], ctx)
                            <= score_of(ps[b], ctx) by {
                            if j < n - 1 {
                                assert(!((if waf {
                                    waf_eligible(ps[j])
                                } else {
                                    cdn_eligible(ps[j])
                                }) && score_of(ps[j], ctx) > 0));
                            }
                        }
                    },
                }
            },
            None => {},
        }
    }
}

/// A copy of an evidence list, with the same view.
fn clone_evidence_list(v: &Vec<Evidence>) -> (r: Vec<Evidence>)
    ensures
        r.deep_view() == v.deep_view(),
{
    let n: usize = v.len();
    let mut out: Vec<Evidence> = Vec::new();
    let mut i: usize = 0;
    while i < n
        invariant
            n == v.len(),
            i <= n,
            out.deep_view() == v.deep_view().take(i as int),
        decreases n - i,
    {
        proof {
            assert(v.deep_view()[i as int] == v@[i as int].deep_view());
        }
        let ghost pre = out.deep_view();
        out.push(v[i].clone_ev());
        proof {
            assert(out.deep_view() =~= pre.push(v.deep_view()[i as int]));
        }
        i = i + 1;
        proof {
            assert(v.deep_view().take(i as int) =~= v.deep_view().take(i - 1).push(
                v.deep_view()[i - 1],
            ));
        }
    }
    proof {
        assert(v.deep_view().take(n as int) =~= v.deep_view());
    }
    out
}

/// Every provider's bucket is well formed and at most one evidence per
/// response header plus a fixed number of signature rules long.
pub proof fn lemma_bucket_wf(p: Provider, ctx: DetectionContext)
    ensures
        all_evidence_wf(bucket_of(p, ctx)),
        bucket_of(p, ctx).len() <= ctx_headers(ctx).len() + 40,
{
    match ctx.response {
        Some(resp) => {
            match p {
                Provider::CloudFlare(_) => {
                    crate::providers::cloudflare::lemma_cf_confidences_wf(resp@);
                },
                Provider::Akamai(_) => {
                    crate::providers::akamai::lemma_akamai_confidences_wf(resp@);
                    crate::providers::akamai::lemma_akamai_scan_len(resp@.headers);
                },
                Provider::AWS(_) => {
                    crate::providers::aws::lemma_aws_confidences_wf(resp@);
                },
                Provider::Fastly(_) => {
                    crate::providers::fastly::lemma_fastly_confidences_wf(resp@);
                },
                Provider::Vercel(_) => {
                    crate::providers::vercel::lemma_vercel_confidences_wf(resp@);
                    crate::providers::vercel::lemma_vercel_scan_len(resp@.headers);
                },
            }
        },
        None => {},
    }
}

impl ProviderRegistry {
    /// The winner of one slot, from the per-provider scores.
    #[verifier::rlimit(100)]
    #[verifier::spinoff_prover]
    fn select_slot(&self, Ghost(ctxg): Ghost<DetectionContext>, scores: &Vec<u64>, waf: bool) -> (r:
        Option<(usize, u64)>)
        requires
            scores@.len() == self.providers@.len(),
            forall|j: int|
                0 <= j < scores@.len() ==> (#[trigger] scores@[j]) as int == score_of(
                    self.providers@[j],
                    ctxg,
                ),
        ensures
            (r is Some <==> best_pick(
                self.providers@,
                ctxg,
                self.providers@.len() as int,
                waf,
            ) is Some),
            r matches Some(pair) ==> (best_pick(
                self.providers@,
                ctxg,
                self.providers@.len() as int,
                waf,
            ) matches Some(k) && pair.0 as int == k && pair.1 as int == score_of(
                self.providers@[k],
                ctxg,
            ) && pair.0 < self.providers@.len()),
    {
        let ghost ps = self.providers@;
        let n: usize = self.providers.len();
        let mut best_idx: usize = 0;
        let mut best_some: bool = false;
        let mut best_score: u64 = 0;
        let mut best_prio: u32 = 0;
        let mut i: usize = 0;
        while i < n
            invariant
                n == self.providers.len(),
                ps == self.providers@,
                scores@.len() == n,
                forall|j: int|
                    0 <= j < scores@.len() ==> (#[trigger] scores@[j]) as int == score_of(
                        ps[j],
                        ctxg,
                    ),
                i <= n,
                (best_some <==> best_pick(ps, ctxg, i as int, waf) is Some),
                best_some ==> (best_pick(ps, ctxg, i as int, waf) matches Some(k) && best_idx as int
                    == k && best_score as int == score_of(ps[k], ctxg) && best_prio == ps[
                    k
                ].priority_spec() && best_idx < i),
            decreases n - i,
        {
            let p = &self.providers[i];
            let score: u64 = scores[i];
            let ptype = p.provider_type();
            let prio = p.priority();
            let elig = if waf {
                matches!(ptype, ProviderType::WAF) || matches!(ptype, ProviderType::Both)
            } else {
                matches!(ptype, ProviderType::CDN) || matches!(ptype, ProviderType::Both)
            };
            if elig && score > 0 {
                if !best_some {
                    best_some = true;
                    best_idx = i;
                    best_score = score;
                    best_prio = prio;
                } else {
                    let bname = self.providers[best_idx].name();
                    if score > best_score || (score == best_score && (prio > best_prio || (prio
                        == best_prio && crate::text::str_lex_lt(p.name(), bname)))) {
                        best_idx = i;
                        best_score = score;
                        best_prio = prio;
                    }
                }
            }
            i = i + 1;
        }
        if best_some {
            Some((best_idx, best_score))
        } else {
            None
        }
    }

    /// Fuses everything one detection run observed into a result.
    ///
    /// Every registered provider inspects the response; each bucket is
    /// scored against the response headers, as are the three synthetic
    /// sources, whose evidence the caller gathered.  The WAF slot goes to
    /// the highest-scoring enabled provider of kind WAF or Both with a
    /// positive score (ties: priority, then name) and the CDN slot likewise
    /// over kind CDN or Both; a slot stays empty when no score is positive.
    /// The evidence map holds a key for every registered provider and every
    /// synthetic source, with an empty list where nothing was observed.
    #[verifier::rlimit(100)]
    #[verifier::spinoff_prover]
    /// Builds the evidence map and score list: one entry per registered
    /// provider, then the three synthetic sources.
    #[verifier::rlimit(100)]
    #[verifier::spinoff_prover]
    fn build_maps(
        &self,
        context: &DetectionContext,
        timing_evidence: &Vec<Evidence>,
        dns_evidence: &Vec<Evidence>,
        payload_evidence: &Vec<Evidence>,
        response_headers: &Vec<(String, String)>,
    ) -> (r: (Vec<(String, Vec<Evidence>)>, Vec<(String, u64)>, Vec<u64>))
        requires
            response_headers.deep_view() == ctx_headers(*context),
            response_headers@.len() <= 0x1000_0000,
            all_evidence_wf(timing_evidence.deep_view()),
            all_evidence_wf(dns_evidence.deep_view()),
            all_evidence_wf(payload_evidence.deep_view()),
            timing_evidence@.len() <= 0x1_0000_0000,
            dns_evidence@.len() <= 0x1_0000_0000,
            payload_evidence@.len() <= 0x1_0000_0000,
        ensures
            r.0@.len() == self.providers@.len() + 3,
            r.1@.len() == self.providers@.len() + 3,
            r.2@.len() == self.providers@.len(),
            forall|j: int|
                0 <= j < self.providers@.len() ==> (#[trigger] r.0@[j].0)@
                    == self.providers@[j].name_spec() && r.0@[j].1.deep_view() == bucket_of(
                    self.providers@[j],
                    *context,
                ),
            forall|j: int|
                0 <= j < self.providers@.len() ==> (#[trigger] r.1@[j].0)@
                    == self.providers@[j].name_spec() && r.1@[j].1 as int == score_of(
                    self.providers@[j],
                    *context,
                ),
            forall|j: int|
                0 <= j < self.providers@.len() ==> (#[trigger] r.2@[j]) as int == score_of(
                    self.providers@[j],
                    *context,
                ),
            forall|j: int| 0 <= j < r.1@.len() ==> (#[trigger] r.1@[j].1) <= crate::CONF_ONE,
            r.0@[self.providers@.len() as int].0@ == "TimingAnalysis"@,
            r.0@[self.providers@.len() as int].1.deep_view() == timing_evidence.deep_view(),
            r.0@[self.providers@.len() + 1int].0@ == "DnsAnalysis"@,
            r.0@[self.providers@.len() + 1int].1.deep_view() == dns_evidence.deep_view(),
            r.0@[self.providers@.len() + 2int].0@ == "PayloadAnalysis"@,
            r.0@[self.providers@.len() + 2int].1.deep_view() == payload_evidence.deep_view(),
            r.1@[self.providers@.len() as int].1 as int == spec_score(
                "TimingAnalysis"@,
                timing_evidence.deep_view(),
                ctx_headers(*context),
            ),
            r.1@[self.providers@.len() + 1int].1 as int == spec_score(
                "DnsAnalysis"@,
                dns_evidence.deep_view(),
                ctx_headers(*context),
            ),
            r.1@[self.providers@.len() + 2int].1 as int == spec_score(
                "PayloadAnalysis"@,
                payload_evidence.deep_view(),
                ctx_headers(*context),
            ),
    {
        let ghost ps = self.providers@;
        let ghost ctxg = *context;
        let n: usize = self.providers.len();
        let scoring = AdvancedScoring::new();
        let mut evidence_map: Vec<(String, Vec<Evidence>)> = Vec::new();
        let mut provider_scores: Vec<(String, u64)> = Vec::new();
        let mut scores: Vec<u64> = Vec::new();
        let mut i: usize = 0;
        while i < n
            invariant
                n == self.providers.len(),
                ps == self.providers@,
                ctxg == *context,
                response_headers.deep_view() == ctx_headers(ctxg),
                response_headers@.len() <= 0x1000_0000,
                i <= n,
                evidence_map@.len() == i,
                provider_scores@.len() == i,
                scores@.len() == i,
                forall|j: int|
                    0 <= j < i ==> (#[trigger] evidence_map@[j].0)@ == ps[j].name_spec()
                        && evidence_map@[j].1.deep_view() == bucket_of(ps[j], ctxg),
                forall|j: int|
                    0 <= j < i ==> (#[trigger] provider_scores@[j].0)@ == ps[j].name_spec()
                        && provider_scores@[j].1 as int == score_of(ps[j], ctxg)
                        && provider_scores@[j].1 <= crate::CONF_ONE,
                forall|j: int| 0 <= j < i ==> (#[trigger] scores@[j]) as int == score_of(ps[j], ctxg),
            decreases n - i,
        {
            let p = &self.providers[i];
            let bucket: Vec<Evidence> = if p.enabled() {
                p.detect(context)
            } else {
                Vec::new()
            };
            proof {
                lemma_bucket_wf(ps[i as int], ctxg);
                assert(bucket.deep_view() =~= bucket_of(ps[i as int], ctxg));
            }
            let name = p.name();
            let cr = scoring.calculate_confidence(name, &bucket, response_headers);
            let score: u64 = cr.score;
            proof {
                assert(score as int == score_of(ps[i as int], ctxg));
            }
            let ghost em_pre = evidence_map@;
            let ghost psc_pre = provider_scores@;
            provider_scores.push((<String as StringExecFns>::from_str(name), score));
            evidence_map.push((<String as StringExecFns>::from_str(name), bucket));
            scores.push(score);
            i = i + 1;
            proof {
                assert((evidence_map@[i - 1].0)@ == ps[i - 1].name_spec());
                assert(evidence_map@[i - 1].1.deep_view() == bucket_of(ps[i - 1], ctxg));
                assert((provider_scores@[i - 1].0)@ == ps[i - 1].name_spec());
                assert(provider_scores@[i - 1].1 as int == score_of(ps[i - 1], ctxg));
                assert(scores@[i - 1] as int == score_of(ps[i - 1], ctxg));
                assert forall|j: int| 0 <= j < i implies (#[trigger] evidence_map@[j].0)@ == ps[
                    j
                ].name_spec() && evidence_map@[j].1.deep_view() == bucket_of(ps[j], ctxg) by {
                    if j < i - 1 {
                        assert(evidence_map@[j] == em_pre[j]);
                        assert((em_pre[j].0)@ == ps[j].name_spec() && em_pre[j].1.deep_view()
                            == bucket_of(ps[j], ctxg));
                    }
                }
                assert forall|j: int| 0 <= j < i implies (#[trigger] provider_scores@[j].0)@ == ps[
                    j
                ].name_spec() && provider_scores@[j].1 as int == score_of(ps[j], ctxg)
                    && provider_scores@[j].1 <= crate::CONF_ONE by {
                    if j < i - 1 {
                        assert(provider_scores@[j] == psc_pre[j]);
                        assert((psc_pre[j].0)@ == ps[j].name_spec() && psc_pre[j].1 as int
                            == score_of(ps[j], ctxg) && psc_pre[j].1 <= crate::CONF_ONE);
                    }
                }
            }
        }
        let ghost em1 = evidence_map@;
        let ghost psc1 = provider_scores@;

        // Synthetic sources: always present in the maps, scored like a
        // provider bucket.
        let t_cr = scoring.calculate_confidence("TimingAnalysis", timing_evidence,
            response_headers);
        provider_scores.push((<String as StringExecFns>::from_str("TimingAnalysis"), t_cr.score));
        evidence_map.push((
            <String as StringExecFns>::from_str("TimingAnalysis"),
            clone_evidence_list(timing_evidence),
        ));
        let d_cr = scoring.calculate_confidence("DnsAnalysis", dns_evidence, response_headers);
        provider_scores.push((<String as StringExecFns>::from_str("DnsAnalysis"), d_cr.score));
        evidence_map.push((
            <String as StringExecFns>::from_str("DnsAnalysis"),
            clone_evidence_list(dns_evidence),
        ));
        let p_cr = scoring.calculate_confidence("PayloadAnalysis", payload_evidence,
            response_headers);
        provider_scores.push((<String as StringExecFns>::from_str("PayloadAnalysis"), p_cr.score));
        evidence_map.push((
            <String as StringExecFns>::from_str("PayloadAnalysis"),
            clone_evidence_list(payload_evidence),
        ));
        proof {
            assert(i == n);
            assert forall|j: int| 0 <= j < n implies evidence_map@[j] == em1[j] by {}
            assert forall|j: int| 0 <= j < n implies provider_scores@[j] == psc1[j] by {}
            assert forall|j: int| 0 <= j < n implies (#[trigger] evidence_map@[j].0)@ == ps[
                j
            ].name_spec() && evidence_map@[j].1.deep_view() == bucket_of(ps[j], ctxg) by {
                assert(evidence_map@[j] == em1[j]);
                assert((em1[j].0)@ == ps[j].name_spec() && em1[j].1.deep_view() == bucket_of(
                    ps[j],
                    ctxg,
                ));
            }
            assert forall|j: int| 0 <= j < n implies (#[trigger] provider_scores@[j].0)@ == ps[
                j
            ].name_spec() && provider_scores@[j].1 as int == score_of(ps[j], ctxg) by {
                assert(provider_scores@[j] == psc1[j]);
                assert((psc1[j].0)@ == ps[j].name_spec() && psc1[j].1 as int == score_of(
                    ps[j],
                    ctxg,
                ));
            }
            assert(provider_scores@[n as int].1 <= crate::CONF_ONE);
            assert(provider_scores@[n + 1].1 <= crate::CONF_ONE);
            assert(provider_scores@[n + 2].1 <= crate::CONF_ONE);
            assert forall|j: int|
                0 <= j < provider_scores@.len() implies (#[trigger] provider_scores@[j].1)
                <= crate::CONF_ONE by {
                if j < n {
                    assert(provider_scores@[j] == psc1[j]);
                    assert((psc1[j].0)@ == ps[j].name_spec() && psc1[j].1
                        <= crate::CONF_ONE);
                }
            }
        }
        (evidence_map, provider_scores, scores)
    }

    pub fn detect_all(
        &self,
        context: &DetectionContext,
        timing_evidence: &Vec<Evidence>,
        dns_evidence: &Vec<Evidence>,
        payload_evidence: &Vec<Evidence>,
        detection_time_ms: u64,
    ) -> (r: DetectionResult)
        requires
            self.wf(),
            (context.response matches Some(resp) ==> resp@.headers.len() <= 0x1000_0000),
            all_evidence_wf(timing_evidence.deep_view()),
            all_evidence_wf(dns_evidence.deep_view()),
            all_evidence_wf(payload_evidence.deep_view()),
            timing_evidence@.len() <= 0x1_0000_0000,
            dns_evidence@.len() <= 0x1_0000_0000,
            payload_evidence@.len() <= 0x1_0000_0000,
        ensures
            r.url@ == context.url@,
            r.detection_time_ms == detection_time_ms,
            r.evidence_map@.len() == self.providers@.len() + 3,
            forall|j: int|
                0 <= j < self.providers@.len() ==> (#[trigger] r.evidence_map@[j].0)@
                    == self.providers@[j].name_spec() && r.evidence_map@[j].1.deep_view()
                    == bucket_of(self.providers@[j], *context),
            r.evidence_map@[self.providers@.len() as int].0@ == "TimingAnalysis"@,
            r.evidence_map@[self.providers@.len() as int].1.deep_view()
                == timing_evidence.deep_view(),
            r.evidence_map@[self.providers@.len() + 1int].0@ == "DnsAnalysis"@,
            r.evidence_map@[self.providers@.len() + 1int].1.deep_view() == dns_evidence.deep_view(),
            r.evidence_map@[self.providers@.len() + 2int].0@ == "PayloadAnalysis"@,
            r.evidence_map@[self.providers@.len() + 2int].1.deep_view()
                == payload_evidence.deep_view(),
            r.provider_scores@.len() == self.providers@.len() + 3,
            forall|j: int|
                0 <= j < self.providers@.len() ==> (#[trigger] r.provider_scores@[j].0)@
                    == self.providers@[j].name_spec() && r.provider_scores@[j].1 as int
                    == score_of(self.providers@[j], *context),
            r.provider_scores@[self.providers@.len() as int].1 as int == spec_score(
                "TimingAnalysis"@,
                timing_evidence.deep_view(),
                ctx_headers(*context),
            ),
            r.provider_scores@[self.providers@.len() + 1int].1 as int == spec_score(
                "DnsAnalysis"@,
                dns_evidence.deep_view(),
                ctx_headers(*context),
            ),
            r.provider_scores@[self.providers@.len() + 2int].1 as int == spec_score(
                "PayloadAnalysis"@,
                payload_evidence.deep_view(),
                ctx_headers(*context),
            ),
            forall|j: int|
                0 <= j < r.provider_scores@.len() ==> (#[trigger] r.provider_scores@[j].1)
                    <= crate::CONF_ONE,
            (r.detected_waf is Some <==> best_pick(
                self.providers@,
                *context,
                self.providers@.len() as int,
                true,
            ) is Some),
            r.detected_waf matches Some(d) ==> (best_pick(
                self.providers@,
                *context,
                self.providers@.len() as int,
                true,
            ) matches Some(i) && d.name@ == self.providers@[i].name_spec() && d.confidence as int
                == score_of(self.providers@[i], *context)),
            (r.detected_cdn is Some <==> best_pick(
                self.providers@,
                *context,
                self.providers@.len() as int,
                false,
            ) is Some),
            r.detected_cdn matches Some(d) ==> (best_pick(
                self.providers@,
                *context,
                self.providers@.len() as int,
                false,
            ) matches Some(i) && d.name@ == self.providers@[i].name_spec() && d.confidence as int
                == score_of(self.providers@[i], *context)),
            r.metadata.version@ == "0.1.0"@,
            r.metadata.user_agent@ == "WAF-Detector/1.0"@,
    {
        let ghost ps = self.providers@;
        let ghost ctxg = *context;
        let empty_headers: Vec<(String, String)> = Vec::new();
        let response_headers: &Vec<(String, String)> = match &context.response {
            Some(resp) => &resp.headers,
            None => &empty_headers,
        };
        proof {
            assert(response_headers.deep_view() =~= ctx_headers(ctxg));
        }
        let maps = self.build_maps(
            context,
            timing_evidence,
            dns_evidence,
            payload_evidence,
            response_headers,
        );
        let ghost em_snap = maps.0@;
        let ghost psc_snap = maps.1@;
        let evidence_map = maps.0;
        let provider_scores = maps.1;
        let scores = maps.2;
        proof {
            assert(evidence_map@ == em_snap);
            assert(provider_scores@ == psc_snap);
            assert forall|j: int| 0 <= j < self.providers@.len() implies (
            #[trigger] evidence_map@[j].0)@ == self.providers@[j].name_spec()
                && evidence_map@[j].1.deep_view() == bucket_of(self.providers@[j], *context) by {
                assert((em_snap[j].0)@ == self.providers@[j].name_spec());
                assert(em_snap[j].1.deep_view() == bucket_of(self.providers@[j], ctxg));
            }
            assert forall|j: int| 0 <= j < self.providers@.len() implies (
            #[trigger] provider_scores@[j].0)@ == self.providers@[j].name_spec()
                && provider_scores@[j].1 as int == score_of(self.providers@[j], *context) by {
                assert((psc_snap[j].0)@ == self.providers@[j].name_spec());
                assert(psc_snap[j].1 as int == score_of(self.providers@[j], ctxg));
            }
        }
        let waf_sel = self.select_slot(Ghost(ctxg), &scores, true);
        let cdn_sel = self.select_slot(Ghost(ctxg), &scores, false);
        let detected_waf: Option<ProviderDetection> = match waf_sel {
            Some((wi, ws)) => Some(
                ProviderDetection {
                    name: <String as StringExecFns>::from_str(self.providers[wi].name()),
                    confidence: ws,
                },
            ),
            None => None,
        };
        let detected_cdn: Option<ProviderDetection> = match cdn_sel {
            Some((ci, cs)) => Some(
                ProviderDetection {
                    name: <String as StringExecFns>::from_str(self.providers[ci].name()),
                    confidence: cs,
                },
            ),
            None => None,
        };
        DetectionResult {
            url: context.url.clone(),
            detected_waf,
            detected_cdn,
            provider_scores,
            evidence_map,
            detection_time_ms,
            metadata: DetectionMetadata {
                timestamp: crate::outside::now_rfc3339(),
                version: <String as StringExecFns>::from_str("0.1.0"),
                user_agent: <String as StringExecFns>::from_str("WAF-Detector/1.0"),
            },
        }
    }
}

} // verus!
