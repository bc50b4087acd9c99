//! The Wiz vulnerability feed: its wire records, the request for a page of
//! high-profile threats, page counting, and the mapping of a hit to a
//! vulnerability record.

use vstd::prelude::*;
use vstd::utf8::is_ascii_chars;
use crate::text::{ascii_lowercase, disclosure_format, lowercase_text, timestamp_text, to_lowercase, timestamp_to_datetime};
use crate::vuln_information::{CreateVulnInformation, Severity, severity_label};
use crate::vuln_plugin::{PluginInfo, PluginInfoView, PluginRegistry, VulnPlugin, register_plugin, string_views};

verus! {

/// Hits per page of the feed.
pub const WIZ_PAGE_SIZE: i32 = 10;

/// The body of a search request: one or more queries.
#[derive(Debug, Clone)]
pub struct WizRequest {
    pub requests: Vec<WizQueryRequest>,
}

/// One search query.
#[derive(Debug, Clone)]
pub struct WizQueryRequest {
    pub index_name: String,
    pub facet_filters: Option<Vec<Vec<String>>>,
    pub facets: Option<Vec<String>>,
    pub highlight_post_tag: String,
    pub highlight_pre_tag: String,
    pub hits_per_page: i32,
    pub max_values_per_facet: i32,
    pub page: i32,
    pub query: String,
    pub analytics: Option<bool>,
    pub click_analytics: Option<bool>,
}

/// The answer to a search request: one result per query.
#[derive(Debug, Clone)]
pub struct WizResponse {
    pub results: Vec<WizResult>,
}

/// The answer to one query.
#[derive(Debug, Clone)]
pub struct WizResult {
    pub hits: Vec<WizHit>,
    pub nb_hits: i64,
    pub page: i32,
    pub nb_pages: i32,
    pub hits_per_page: i32,
    pub processing_time_ms: i32,
    pub query: String,
    pub params: Option<String>,
}

/// One vulnerability of the feed. The three scores that the feed sends as
/// floating-point numbers are kept as their IEEE 754 bit patterns.
#[derive(Debug, Clone)]
pub struct WizHit {
    pub id: String,
    pub external_id: Option<String>,
    pub name: String,
    pub description: String,
    pub source_url: Option<String>,
    pub affected_software: Option<Vec<String>>,
    pub affected_technologies: Option<Vec<AffectedTechnology>>,
    pub severity: String,
    pub exploitable: Option<bool>,
    pub source_feeds: Option<Vec<SourceFeed>>,
    pub published_at: Option<i64>,
    pub epss_percentile_bits: Option<u64>,
    pub epss_probability_bits: Option<u64>,
    pub base_score_bits: Option<u64>,
    pub cvss2: Option<Cvss>,
    pub cvss3: Option<Cvss>,
    pub is_high_profile_threat: Option<bool>,
    pub has_cisa_kev_exploit: Option<bool>,
    pub ai_description: Option<AiDescription>,
    pub index: Option<bool>,
    pub has_fix: Option<bool>,
    pub has_more_than_50_affected_software: Option<bool>,
    pub batch_id: Option<String>,
    pub object_id: String,
}

/// A technology that a vulnerability affects.
#[derive(Debug, Clone)]
pub struct AffectedTechnology {
    pub id: String,
    pub name: String,
    pub icon: Option<String>,
    pub description: Option<String>,
    pub filter: Option<String>,
}

/// An advisory feed that reported a vulnerability.
#[derive(Debug, Clone)]
pub struct SourceFeed {
    pub name: String,
    pub id: String,
    pub url: Option<String>,
    pub icon: Option<String>,
    pub affected_platforms: Option<Vec<AffectedPlatform>>,
    pub filter: Option<String>,
}

/// A platform that a feed lists as affected.
#[derive(Debug, Clone)]
pub struct AffectedPlatform {
    pub added_at: Option<String>,
    pub advisory_url: Option<String>,
    pub affected_versions: Option<Vec<String>>,
    pub has_fix: Option<bool>,
    pub id: String,
    pub name: String,
    pub severity: Option<String>,
    pub technology: Option<Technology>,
}

/// A technology as a feed names it.
#[derive(Debug, Clone)]
pub struct Technology {
    pub id: String,
    pub name: String,
    pub icon: Option<String>,
}

/// The CVSS vector of a vulnerability.
#[derive(Debug, Clone)]
pub struct Cvss {
    pub attack_complexity: Option<String>,
    pub attack_vector: Option<String>,
    pub confidentiality_impact: Option<String>,
    pub integrity_impact: Option<String>,
    pub privileges_required: Option<bool>,
    pub user_interaction_required: Option<bool>,
}

/// A generated description of a vulnerability.
#[derive(Debug, Clone)]
pub struct AiDescription {
    pub overview: Option<String>,
    pub technical_details: Option<String>,
    pub impact: Option<String>,
    pub exploitability: Option<String>,
    pub mitigation_and_workarounds: Option<String>,
    pub community_reactions: Option<String>,
    pub additional_resources: Option<String>,
}

/// The facets that the page query asks for.
pub open spec fn page_query_facets() -> Seq<Seq<char>> {
    seq![
        "affectedTechnologies.filter"@,
        "exploitable"@,
        "hasCisaKevExploit"@,
        "hasFix"@,
        "isHighProfileThreat"@,
        "publishedAt"@,
        "severity"@,
        "sourceFeeds.filter"@,
    ]
}

/// The settings that both queries share.
pub open spec fn is_cve_db_query(q: WizQueryRequest) -> bool {
    &&& q.index_name@ == "cve-db"@
    &&& q.highlight_post_tag@ == "__/ais-highlight__"@
    &&& q.highlight_pre_tag@ == "__ais-highlight__"@
    &&& q.hits_per_page == WIZ_PAGE_SIZE
    &&& q.max_values_per_facet == 200
    &&& q.query@ == ""@
}

/// The query for page `page` of the high-profile threats.
pub open spec fn is_page_query(q: WizQueryRequest, page: i32) -> bool {
    &&& is_cve_db_query(q)
    &&& q.facet_filters.deep_view() == Some(seq![seq!["isHighProfileThreat:true"@]])
    &&& q.facets.deep_view() == Some(page_query_facets())
    &&& q.page == page
    &&& q.analytics is None
    &&& q.click_analytics is None
}

/// The query that counts high-profile threats, without analytics.
pub open spec fn is_facet_query(q: WizQueryRequest) -> bool {
    &&& is_cve_db_query(q)
    &&& q.facet_filters is None
    &&& q.facets.deep_view() == Some(seq!["isHighProfileThreat"@])
    &&& q.page == 0
    &&& q.analytics == Some(false)
    &&& q.click_analytics == Some(false)
}

/// Why a Wiz update stopped.
#[derive(Clone, Copy, Debug, PartialEq, Eq, Structural)]
pub enum WizError {
    /// The page count could not be taken: the response held no result.
    NoPageCount,
    /// A page could not be fetched or read.
    Fetch,
    /// A record could not be handed on.
    Send,
}

/// Integer division that rounds toward zero, as Rust's `/` does.
pub open spec fn div_toward_zero(a: int, b: int) -> int
    recommends
        b > 0,
{
    if a >= 0 {
        a / b
    } else {
        -((-a) / b)
    }
}

/// The number of pages that `total_hits` hits fill, `WIZ_PAGE_SIZE` to a
/// page, before it is cut to 32 bits.
pub open spec fn pages_for_hits(total_hits: int) -> int {
    div_toward_zero(total_hits + WIZ_PAGE_SIZE - 1, WIZ_PAGE_SIZE as int)
}

/// The number of pages, with the last one partly filled, that `total_hits`
/// hits fill, cut to 32 bits.
pub fn page_count_for_hits(total_hits: i64) -> (r: i32)
    requires
        total_hits + WIZ_PAGE_SIZE <= i64::MAX,
    ensures
        r == #[verifier::truncate] (pages_for_hits(total_hits as int) as i32),
        total_hits == 0 ==> r == 0,
        0 < total_hits <= 21474836470 ==> (r - 1) * 10 < total_hits <= r * 10,
{
    let pages: i64 = (total_hits + WIZ_PAGE_SIZE as i64 - 1) / WIZ_PAGE_SIZE as i64;
    proof {
        if total_hits >= 0 {
            lemma_pages_cover_hits(total_hits as int);
        }
    }
    #[verifier::truncate] (pages as i32)
}

/// Every hit falls on one of the counted pages and no counted page is
/// empty: `p` pages of 10 hold `total_hits` hits, the last one partly.
pub proof fn lemma_pages_cover_hits(total_hits: int)
    requires
        total_hits >= 0,
    ensures
        total_hits == 0 ==> pages_for_hits(total_hits) == 0,
        total_hits > 0 ==> (pages_for_hits(total_hits) - 1) * 10 < total_hits <= pages_for_hits(total_hits) * 10,
        pages_for_hits(total_hits) >= 0,
{
}

/// The number of pages of the first result of `resp`, or `NoPageCount` when
/// there is none.
pub fn get_page_count(resp: &WizResponse) -> (r: Result<i32, WizError>)
    requires
        resp.results@.len() > 0 ==> resp.results@[0].nb_hits + WIZ_PAGE_SIZE <= i64::MAX,
    ensures
        resp.results@.len() == 0 ==> r == Err::<i32, WizError>(WizError::NoPageCount),
        resp.results@.len() > 0 ==> r == Ok::<i32, WizError>(
            #[verifier::truncate] (pages_for_hits(resp.results@[0].nb_hits as int) as i32),
        ),
        resp.results@.len() > 0 && resp.results@[0].nb_hits == 0 ==> r == Ok::<i32, WizError>(0),
        resp.results@.len() > 0 && 0 < resp.results@[0].nb_hits <= 21474836470 ==> (r matches Ok(p)
            && (p - 1) * 10 < resp.results@[0].nb_hits <= p * 10),
{
    if resp.results.len() == 0 {
        return Err(WizError::NoPageCount);
    }
    Ok(page_count_for_hits(resp.results[0].nb_hits))
}

/// At most `page_limit` of `page_count` pages.
pub fn limit_page_count(page_count: i32, page_limit: i32) -> (r: i32)
    ensures
        r == if page_count > page_limit { page_limit } else { page_count },
{
    if page_count > page_limit {
        page_limit
    } else {
        page_count
    }
}

/// The hits of the first result of `resp`; none when it has no result.
pub fn take_first_hits(resp: WizResponse) -> (r: Vec<WizHit>)
    ensures
        resp.results@.len() > 0 ==> r@ == resp.results@[0].hits@,
        resp.results@.len() == 0 ==> r@.len() == 0,
{
    let mut results = resp.results;
    if results.len() == 0 {
        return Vec::new();
    }
    let first = results.remove(0);
    first.hits
}

/// The tag `tag`, when `flag` is present and true.
pub open spec fn flag_tag(flag: Option<bool>, tag: Seq<char>) -> Seq<Seq<char>> {
    if flag == Some(true) {
        seq![tag]
    } else {
        seq![]
    }
}

/// The tags of a hit, in this order: high-profile threat, exploitable, in
/// CISA's catalogue of known exploited vulnerabilities, has a fix.
pub open spec fn hit_tags(hit: WizHit) -> Seq<Seq<char>> {
    flag_tag(hit.is_high_profile_threat, "高危威胁"@)
        + flag_tag(hit.exploitable, "可利用"@)
        + flag_tag(hit.has_cisa_kev_exploit, "CISA KEV"@)
        + flag_tag(hit.has_fix, "有修复"@)
}

/// A hit's tags hold the tag of each of its four flags exactly when the
/// flag is present and true, and each tag at most once.
pub proof fn lemma_hit_tags_follow_flags(hit: WizHit)
    ensures
        hit_tags(hit).contains("高危威胁"@) <==> hit.is_high_profile_threat == Some(true),
        hit_tags(hit).contains("可利用"@) <==> hit.exploitable == Some(true),
        hit_tags(hit).contains("CISA KEV"@) <==> hit.has_cisa_kev_exploit == Some(true),
        hit_tags(hit).contains("有修复"@) <==> hit.has_fix == Some(true),
        hit_tags(hit).no_duplicates(),
{
    reveal_strlit("高危威胁");
    reveal_strlit("可利用");
    reveal_strlit("CISA KEV");
    reveal_strlit("有修复");
    let t1 = "高危威胁"@;
    let t2 = "可利用"@;
    let t3 = "CISA KEV"@;
    let t4 = "有修复"@;
    assert(t1[0] != t2[0] && t1[0] != t3[0] && t1[0] != t4[0] && t2[0] != t3[0] && t2[0] != t4[0]
        && t3[0] != t4[0]);
    assert(t1 != t2 && t1 != t3 && t1 != t4 && t2 != t3 && t2 != t4 && t3 != t4);
    let a = flag_tag(hit.is_high_profile_threat, t1);
    let b = flag_tag(hit.exploitable, t2);
    let c = flag_tag(hit.has_cisa_kev_exploit, t3);
    let d = flag_tag(hit.has_fix, t4);
    let all = a + b + c + d;
    assert(all == hit_tags(hit));
    assert forall|i: int| 0 <= i < all.len() implies #[trigger] all[i] == t1 || all[i] == t2 || all[i] == t3
        || all[i] == t4 by {
        if i < a.len() {
            assert(all[i] == a[i]);
        } else if i < a.len() + b.len() {
            assert(all[i] == b[i - a.len()]);
        } else if i < a.len() + b.len() + c.len() {
            assert(all[i] == c[i - a.len() - b.len()]);
        } else {
            assert(all[i] == d[i - a.len() - b.len() - c.len()]);
        }
    }
    // where each tag can stand
    assert forall|i: int| 0 <= i < all.len() && #[trigger] all[i] == t1 implies i < a.len() by {
        if i >= a.len() {
            if i < a.len() + b.len() {
                assert(all[i] == b[i - a.len()]);
            } else if i < a.len() + b.len() + c.len() {
                assert(all[i] == c[i - a.len() - b.len()]);
            } else {
                assert(all[i] == d[i - a.len() - b.len() - c.len()]);
            }
        }
    }
    assert forall|i: int| 0 <= i < all.len() && #[trigger] all[i] == t2 implies a.len() <= i < a.len() + b.len() by {
        if i < a.len() {
            assert(all[i] == a[i]);
        } else if i >= a.len() + b.len() {
            if i < a.len() + b.len() + c.len() {
                assert(all[i] == c[i - a.len() - b.len()]);
            } else {
                assert(all[i] == d[i - a.len() - b.len() - c.len()]);
            }
        }
    }
    assert forall|i: int| 0 <= i < all.len() && #[trigger] all[i] == t3 implies a.len() + b.len() <= i < a.len() + b.len() + c.len() by {
        if i < a.len() {
            assert(all[i] == a[i]);
        } else if i < a.len() + b.len() {
            assert(all[i] == b[i - a.len()]);
        } else if i >= a.len() + b.len() + c.len() {
            assert(all[i] == d[i - a.len() - b.len() - c.len()]);
        }
    }
    assert forall|i: int| 0 <= i < all.len() && #[trigger] all[i] == t4 implies a.len() + b.len() + c.len() <= i by {
        if i < a.len() {
            assert(all[i] == a[i]);
        } else if i < a.len() + b.len() {
            assert(all[i] == b[i - a.len()]);
        } else if i < a.len() + b.len() + c.len() {
            assert(all[i] == c[i - a.len() - b.len()]);
        }
    }
    if hit.is_high_profile_threat == Some(true) {
        assert(all[0] == t1);
    }
    if hit.exploitable == Some(true) {
        assert(all[a.len() as int] == t2);
    }
    if hit.has_cisa_kev_exploit == Some(true) {
        assert(all[(a.len() + b.len()) as int] == t3);
    }
    if hit.has_fix == Some(true) {
        assert(all[(a.len() + b.len() + c.len()) as int] == t4);
    }
    assert(a.len() <= 1 && b.len() <= 1 && c.len() <= 1 && d.len() <= 1);
}

/// The severity that a lower-cased severity text names; anything else is low.
pub open spec fn severity_of_lowercase(t: Seq<char>) -> Severity {
    if t == "critical"@ {
        Severity::Critical
    } else if t == "high"@ {
        Severity::High
    } else if t == "medium"@ {
        Severity::Medium
    } else {
        Severity::Low
    }
}

/// The disclosure date of a hit: its publication time written in the
/// disclosure format, or nothing when it has none or chrono cannot
/// represent it.
pub open spec fn disclosure_text(published_at: Option<i64>) -> Seq<char> {
    match published_at {
        Some(secs) => match timestamp_text(secs as int, disclosure_format()) {
            Some(t) => t,
            None => Seq::empty(),
        },
        None => Seq::empty(),
    }
}

/// The link to a vulnerability's page on the Wiz site.
pub open spec fn detail_link_for(title: Seq<char>) -> Seq<char> {
    "https://www.wiz.io/vulnerability-database/cve/"@ + title
}

/// `info` is the record of `hit`, found by the plugin named `source_name` at
/// `source`, with the given severity and disclosure date.
pub open spec fn describes_hit(
    info: CreateVulnInformation,
    hit: WizHit,
    severity: Severity,
    disclosure: Seq<char>,
) -> bool {
    &&& info.key@ == hit.object_id@
    &&& info.title@ == hit.name@
    &&& info.description@ == hit.description@
    &&& info.severity@ == severity_label(severity)
    &&& info.cve@ == match hit.external_id {
        Some(c) => c@,
        None => Seq::empty(),
    }
    &&& info.disclosure@ == disclosure
    &&& info.reference_links@.len() == 0
    &&& info.solutions@.len() == 0
    &&& info.source@ == "https://www.wiz.io"@
    &&& info.source_name@ == "WizPlugin"@
    &&& string_views(info.tags@) == hit_tags(hit)
    &&& info.reasons@.len() == 0
    &&& info.github_search@.len() == 0
    &&& !info.pushed
    &&& info.detail_link@ == detail_link_for(hit.name@)
}

/// The plugin for the Wiz vulnerability database.
#[derive(Debug)]
pub struct WizPlugin {
    name: String,
    display_name: String,
    link: String,
}

impl View for WizPlugin {
    type V = PluginInfoView;

    closed spec fn view(&self) -> PluginInfoView {
        (self.name@, self.display_name@, self.link@)
    }
}

/// The Wiz plugin's name, display name and link.
pub open spec fn wiz_plugin_texts() -> PluginInfoView {
    ("WizPlugin"@, "Wiz漏洞库"@, "https://www.wiz.io"@)
}

impl WizPlugin {
    #[verifier::type_invariant]
    closed spec fn inv(self) -> bool {
        &&& self.name@ == "WizPlugin"@
        &&& self.display_name@ == "Wiz漏洞库"@
        &&& self.link@ == "https://www.wiz.io"@
    }

    /// The plugin.
    pub fn new() -> (r: WizPlugin)
        ensures
            r@ == wiz_plugin_texts(),
    {
        WizPlugin {
            name: "WizPlugin".to_owned(),
            display_name: "Wiz漏洞库".to_owned(),
            link: "https://www.wiz.io".to_owned(),
        }
    }

    /// The plugin's description.
    pub fn info(&self) -> (r: PluginInfo)
        ensures
            r@ == wiz_plugin_texts(),
    {
        proof {
            use_type_invariant(self);
        }
        PluginInfo {
            name: self.name.clone(),
            display_name: self.display_name.clone(),
            link: self.link.clone(),
        }
    }

    /// Makes the plugin and registers it under its name.
    pub fn try_new(registry: &mut PluginRegistry) -> (r: WizPlugin)
        ensures
            final(registry)@ == old(registry)@.insert("WizPlugin"@, wiz_plugin_texts()),
            r@ == wiz_plugin_texts(),
    {
        let wiz = WizPlugin::new();
        let info = wiz.info();
        let name = wiz.get_name();
        register_plugin(registry, name, info);
        wiz
    }

    /// The request for page `page` of the high-profile threats, together
    /// with the query that counts them.
    pub fn wiz_request(page: i32) -> (r: WizRequest)
        ensures
            r.requests@.len() == 2,
            is_page_query(r.requests@[0], page),
            is_facet_query(r.requests@[1]),
    {
        let filter = vec!["isHighProfileThreat:true".to_owned()];
        assert(filter.deep_view() =~= seq!["isHighProfileThreat:true"@]);
        let filters = vec![filter];
        let facets = vec![
            "affectedTechnologies.filter".to_owned(),
            "exploitable".to_owned(),
            "hasCisaKevExploit".to_owned(),
            "hasFix".to_owned(),
            "isHighProfileThreat".to_owned(),
            "publishedAt".to_owned(),
            "severity".to_owned(),
            "sourceFeeds.filter".to_owned(),
        ];
        assert(filters.deep_view() =~= seq![seq!["isHighProfileThreat:true"@]]);
        assert(facets.deep_view() =~= page_query_facets());
        let page_query = WizQueryRequest {
            index_name: "cve-db".to_owned(),
            facet_filters: Some(filters),
            facets: Some(facets),
            highlight_post_tag: "__/ais-highlight__".to_owned(),
            highlight_pre_tag: "__ais-highlight__".to_owned(),
            hits_per_page: WIZ_PAGE_SIZE,
            max_values_per_facet: 200,
            page,
            query: "".to_owned(),
            analytics: None,
            click_analytics: None,
        };
        let count_facets = vec!["isHighProfileThreat".to_owned()];
        assert(count_facets.deep_view() =~= seq!["isHighProfileThreat"@]);
        let facet_query = WizQueryRequest {
            index_name: "cve-db".to_owned(),
            facet_filters: None,
            facets: Some(count_facets),
            highlight_post_tag: "__/ais-highlight__".to_owned(),
            highlight_pre_tag: "__ais-highlight__".to_owned(),
            hits_per_page: 10,
            max_values_per_facet: 200,
            page: 0,
            query: "".to_owned(),
            analytics: Some(false),
            click_analytics: Some(false),
        };
        WizRequest { requests: vec![page_query, facet_query] }
    }

    /// The severity that a severity text names, compared without case.
    pub fn get_severity(&self, severity_str: &str) -> (r: Severity)
        ensures
            r == severity_of_lowercase(lowercase_text(severity_str@)),
            is_ascii_chars(severity_str@) ==> r == severity_of_lowercase(ascii_lowercase(severity_str@)),
    {
        let lowered = to_lowercase(severity_str);
        severity_from_lowercase(lowered.as_str())
    }

    /// The record of `hit`, with the severity and disclosure date given.
    pub fn build_vuln_information(
        &self,
        hit: WizHit,
        severity: Severity,
        disclosure: String,
    ) -> (r: CreateVulnInformation)
        ensures
            describes_hit(r, hit, severity, disclosure@),
            string_views(r.tags@).contains("高危威胁"@) <==> hit.is_high_profile_threat == Some(true),
            string_views(r.tags@).contains("可利用"@) <==> hit.exploitable == Some(true),
            string_views(r.tags@).contains("CISA KEV"@) <==> hit.has_cisa_kev_exploit == Some(true),
            string_views(r.tags@).contains("有修复"@) <==> hit.has_fix == Some(true),
            string_views(r.tags@).no_duplicates(),
    {
        proof {
            use_type_invariant(self);
            lemma_hit_tags_follow_flags(hit);
        }
        let ghost original = hit;
        let mut tags: Vec<String> = Vec::new();
        if hit.is_high_profile_threat == Some(true) {
            tags.push("高危威胁".to_owned());
        }
        if hit.exploitable == Some(true) {
            tags.push("可利用".to_owned());
        }
        if hit.has_cisa_kev_exploit == Some(true) {
            tags.push("CISA KEV".to_owned());
        }
        if hit.has_fix == Some(true) {
            tags.push("有修复".to_owned());
        }
        assert(string_views(tags@) =~= hit_tags(original));
        let mut detail_link = "https://www.wiz.io/vulnerability-database/cve/".to_owned();
        detail_link.append(hit.name.as_str());
        let cve = match hit.external_id {
            Some(c) => c,
            None => String::new(),
        };
        CreateVulnInformation {
            key: hit.object_id,
            title: hit.name,
            description: hit.description,
            severity: severity.to_string(),
            cve,
            disclosure,
            reference_links: Vec::new(),
            solutions: String::new(),
            source: self.link.clone(),
            source_name: self.name.clone(),
            tags,
            reasons: Vec::new(),
            github_search: Vec::new(),
            pushed: false,
            detail_link,
        }
    }

    /// The vulnerability record of a hit.
    pub fn parse_hit(&self, hit: WizHit) -> (r: CreateVulnInformation)
        ensures
            describes_hit(
                r,
                hit,
                severity_of_lowercase(lowercase_text(hit.severity@)),
                disclosure_text(hit.published_at),
            ),
            string_views(r.tags@).contains("高危威胁"@) <==> hit.is_high_profile_threat == Some(true),
            string_views(r.tags@).contains("可利用"@) <==> hit.exploitable == Some(true),
            string_views(r.tags@).contains("CISA KEV"@) <==> hit.has_cisa_kev_exploit == Some(true),
            string_views(r.tags@).contains("有修复"@) <==> hit.has_fix == Some(true),
            string_views(r.tags@).no_duplicates(),
    {
        let severity = self.get_severity(hit.severity.as_str());
        let disclosure = match hit.published_at {
            Some(secs) => match timestamp_to_datetime(secs, "%Y-%m-%d %H:%M:%S") {
                Some(text) => text,
                None => String::new(),
            },
            None => String::new(),
        };
        self.build_vuln_information(hit, severity, disclosure)
    }

    /// The vulnerability records of `hits`, in order.
    pub fn parse_hits(&self, hits: Vec<WizHit>) -> (r: Vec<CreateVulnInformation>)
        ensures
            r@.len() == hits@.len(),
            forall|i: int|
                0 <= i < hits@.len() ==> describes_hit(
                    #[trigger] r@[i],
                    hits@[i],
                    severity_of_lowercase(lowercase_text(hits@[i].severity@)),
                    disclosure_text(hits@[i].published_at),
                ),
    {
        let ghost all = hits@;
        let mut rest = hits;
        let mut out: Vec<CreateVulnInformation> = Vec::new();
        while rest.len() > 0
            invariant
                out@.len() + rest@.len() == all.len(),
                rest@ == all.subrange(out@.len() as int, all.len() as int),
                forall|i: int|
                    0 <= i < out@.len() ==> describes_hit(
                        #[trigger] out@[i],
                        all[i],
                        severity_of_lowercase(lowercase_text(all[i].severity@)),
                        disclosure_text(all[i].published_at),
                    ),
            decreases rest@.len(),
        {
            let hit = rest.remove(0);
            let info = self.parse_hit(hit);
            out.push(info);
            assert(rest@ =~= all.subrange(out@.len() as int, all.len() as int));
        }
        out
    }
}

/// The severity that a lower-cased severity text names.
pub fn severity_from_lowercase(t: &str) -> (r: Severity)
    ensures
        r == severity_of_lowercase(t@),
{
    let text = t.to_owned();
    if text == "critical".to_owned() {
        Severity::Critical
    } else if text == "high".to_owned() {
        Severity::High
    } else if text == "medium".to_owned() {
        Severity::Medium
    } else {
        Severity::Low
    }
}

impl VulnPlugin for WizPlugin {
    fn get_name(&self) -> (r: String)
        ensures
            r@ == "WizPlugin"@,
    {
        proof {
            use_type_invariant(self);
        }
        self.name.clone()
    }

    fn get_display_name(&self) -> (r: String)
        ensures
            r@ == "Wiz漏洞库"@,
    {
        proof {
            use_type_invariant(self);
        }
        self.display_name.clone()
    }

    fn get_link(&self) -> (r: String)
        ensures
            r@ == "https://www.wiz.io"@,
    {
        proof {
            use_type_invariant(self);
        }
        self.link.clone()
    }
}

/// The first result's hits of a response; none when it has no result.
pub open spec fn first_hits(resp: WizResponse) -> Seq<WizHit> {
    if resp.results@.len() > 0 {
        resp.results@[0].hits@
    } else {
        Seq::empty()
    }
}

/// `infos` are the records of `hits`, one for one and in order.
pub open spec fn describes_hits(infos: Seq<CreateVulnInformation>, hits: Seq<WizHit>) -> bool {
    &&& infos.len() == hits.len()
    &&& forall|i: int|
        0 <= i < hits.len() ==> describes_hit(
            #[trigger] infos[i],
            hits[i],
            severity_of_lowercase(lowercase_text(hits[i].severity@)),
            disclosure_text(hits[i].published_at),
        )
}

/// Where an update of the Wiz feed stands.
#[derive(Clone, Copy, Debug, PartialEq, Eq, Structural)]
pub enum WizUpdatePhase {
    /// Waiting for the first page, to count the pages.
    Counting,
    /// Waiting for a page of hits.
    Fetching,
    /// Waiting for the records of a page to be handed on.
    Delivering,
    /// Finished.
    Done,
}

/// An update of the Wiz feed: the pages fetched so far of those it will
/// fetch.
#[derive(Clone, Copy, Debug, PartialEq, Eq, Structural)]
pub struct WizUpdate {
    pub page_limit: i32,
    pub page_count: i32,
    pub page: i32,
    pub phase: WizUpdatePhase,
}

/// What came of the last action.
#[derive(Debug)]
pub enum WizUpdateEvent {
    /// The page asked for arrived.
    PageFetched(WizResponse),
    /// The page asked for could not be fetched or read.
    FetchFailed,
    /// Every record was handed on.
    Delivered,
    /// A record could not be handed on.
    DeliveryFailed,
}

/// What to do next.
#[derive(Debug)]
pub enum WizUpdateAction {
    /// Fetch this page.
    FetchPage(i32),
    /// Hand on these records, in order, stopping at the first that cannot be.
    Deliver(Vec<CreateVulnInformation>),
    /// Stop, with this outcome.
    Finish(Result<(), WizError>),
}

/// The pages that an update fetches after counting, for a page count taken
/// from the first response.
pub open spec fn pages_to_fetch(page_limit: i32, resp: WizResponse) -> int {
    let count = counted_pages(resp);
    if count > page_limit {
        page_limit as int
    } else {
        count as int
    }
}

/// The page count that the first response gives, cut to 32 bits.
pub open spec fn counted_pages(resp: WizResponse) -> i32 {
    #[verifier::truncate] (pages_for_hits(resp.results@[0].nb_hits as int) as i32)
}

/// Whether an event can answer the action that an update in phase `phase`
/// asked for; a page that is to be counted must not overflow the count.
pub open spec fn wiz_expects(u: WizUpdate, e: WizUpdateEvent) -> bool {
    match u.phase {
        WizUpdatePhase::Counting => match e {
            WizUpdateEvent::PageFetched(resp) =>
                resp.results@.len() > 0 ==> resp.results@[0].nb_hits + WIZ_PAGE_SIZE <= i64::MAX,
            WizUpdateEvent::FetchFailed => true,
            _ => false,
        },
        WizUpdatePhase::Fetching => e is PageFetched || e is FetchFailed,
        WizUpdatePhase::Delivering => e is Delivered || e is DeliveryFailed,
        WizUpdatePhase::Done => false,
    }
}

/// The shape every update keeps: a page being fetched or delivered is one
/// of the pages to fetch, and there are no more of those than the limit.
pub open spec fn wiz_update_wf(u: WizUpdate) -> bool {
    (u.phase is Fetching || u.phase is Delivering) ==> 0 <= u.page < u.page_count <= u.page_limit
}

/// One step of an update: from `u`, on event `e`, to `n`, asking for `a`.
pub open spec fn wiz_step_ok(u: WizUpdate, e: WizUpdateEvent, n: WizUpdate, a: WizUpdateAction) -> bool {
    &&& wiz_update_wf(n)
    &&& n.page_limit == u.page_limit
    // counting: the first page gives the number of pages
    &&& u.phase is Counting ==> match e {
        WizUpdateEvent::PageFetched(resp) =>
            if resp.results@.len() == 0 {
                &&& n.phase is Done
                &&& a == WizUpdateAction::Finish(Err(WizError::NoPageCount))
            } else if pages_to_fetch(u.page_limit, resp) <= 0 {
                &&& n.phase is Done
                &&& a == WizUpdateAction::Finish(Ok(()))
            } else {
                &&& n.phase is Fetching
                &&& n.page == 0
                &&& n.page_count == pages_to_fetch(u.page_limit, resp)
                &&& a matches WizUpdateAction::FetchPage(p) && p == 0
            },
        _ => {
            &&& n.phase is Done
            &&& a matches WizUpdateAction::Finish(Err(err)) && err == WizError::Fetch
        },
    }
    // fetching: a page's records are handed on
    &&& u.phase is Fetching ==> match e {
        WizUpdateEvent::PageFetched(resp) => {
            &&& n.phase is Delivering
            &&& n.page == u.page
            &&& n.page_count == u.page_count
            &&& a matches WizUpdateAction::Deliver(infos) && describes_hits(infos@, first_hits(resp))
        },
        _ => {
            &&& n.phase is Done
            &&& a matches WizUpdateAction::Finish(Err(err)) && err == WizError::Fetch
        },
    }
    // delivering: on to the next page, or done after the last
    &&& u.phase is Delivering ==> match e {
        WizUpdateEvent::Delivered =>
            if u.page + 1 < u.page_count {
                &&& n.phase is Fetching
                &&& n.page == u.page + 1
                &&& n.page_count == u.page_count
                &&& a matches WizUpdateAction::FetchPage(p) && p == u.page + 1
            } else {
                &&& n.phase is Done
                &&& a == WizUpdateAction::Finish(Ok(()))
            },
        _ => {
            &&& n.phase is Done
            &&& a matches WizUpdateAction::Finish(Err(err)) && err == WizError::Send
        },
    }
}

impl WizUpdate {
    /// Starts an update that fetches at most `page_limit` pages: the first
    /// page is fetched to count the pages.
    pub fn start(page_limit: i32) -> (r: (WizUpdate, WizUpdateAction))
        ensures
            r.0.phase is Counting,
            r.0.page_limit == page_limit,
            wiz_update_wf(r.0),
            r.1 matches WizUpdateAction::FetchPage(p) && p == 0,
    {
        (WizUpdate { page_limit, page_count: 0, page: 0, phase: WizUpdatePhase::Counting }, WizUpdateAction::FetchPage(0))
    }

    /// Whether `event` can answer the action last asked for.
    pub fn accepts(&self, event: &WizUpdateEvent) -> (r: bool)
        ensures
            r == wiz_expects(*self, *event),
    {
        match self.phase {
            WizUpdatePhase::Counting => match event {
                WizUpdateEvent::PageFetched(resp) => {
                    if resp.results.len() > 0 {
                        resp.results[0].nb_hits <= i64::MAX - WIZ_PAGE_SIZE as i64
                    } else {
                        true
                    }
                },
                WizUpdateEvent::FetchFailed => true,
                _ => false,
            },
            WizUpdatePhase::Fetching => match event {
                WizUpdateEvent::PageFetched(_) => true,
                WizUpdateEvent::FetchFailed => true,
                _ => false,
            },
            WizUpdatePhase::Delivering => match event {
                WizUpdateEvent::Delivered => true,
                WizUpdateEvent::DeliveryFailed => true,
                _ => false,
            },
            WizUpdatePhase::Done => false,
        }
    }

    /// Takes in what came of the last action and says what to do next.
    pub fn step(&mut self, plugin: &WizPlugin, event: WizUpdateEvent) -> (action: WizUpdateAction)
        requires
            wiz_expects(*old(self), event),
            wiz_update_wf(*old(self)),
        ensures
            wiz_step_ok(*old(self), event, *final(self), action),
    {
        match self.phase {
            WizUpdatePhase::Counting => match event {
                WizUpdateEvent::PageFetched(resp) => {
                    match get_page_count(&resp) {
                        Err(e) => {
                            self.phase = WizUpdatePhase::Done;
                            WizUpdateAction::Finish(Err(e))
                        },
                        Ok(count) => {
                            let pages = limit_page_count(count, self.page_limit);
                            if pages <= 0 {
                                self.phase = WizUpdatePhase::Done;
                                WizUpdateAction::Finish(Ok(()))
                            } else {
                                self.page_count = pages;
                                self.page = 0;
                                self.phase = WizUpdatePhase::Fetching;
                                WizUpdateAction::FetchPage(0)
                            }
                        },
                    }
                },
                _ => {
                    self.phase = WizUpdatePhase::Done;
                    WizUpdateAction::Finish(Err(WizError::Fetch))
                },
            },
            WizUpdatePhase::Fetching => match event {
                WizUpdateEvent::PageFetched(resp) => {
                    let hits = take_first_hits(resp);
                    let infos = plugin.parse_hits(hits);
                    self.phase = WizUpdatePhase::Delivering;
                    WizUpdateAction::Deliver(infos)
                },
                _ => {
                    self.phase = WizUpdatePhase::Done;
                    WizUpdateAction::Finish(Err(WizError::Fetch))
                },
            },
            WizUpdatePhase::Delivering => match event {
                WizUpdateEvent::Delivered => {
                    if self.page + 1 < self.page_count {
                        self.page = self.page + 1;
                        self.phase = WizUpdatePhase::Fetching;
                        WizUpdateAction::FetchPage(self.page)
                    } else {
                        self.phase = WizUpdatePhase::Done;
                        WizUpdateAction::Finish(Ok(()))
                    }
                },
                _ => {
                    self.phase = WizUpdatePhase::Done;
                    WizUpdateAction::Finish(Err(WizError::Send))
                },
            },
            WizUpdatePhase::Done => {
                WizUpdateAction::Finish(Ok(()))
            },
        }
    }
}

/// The number of pages that an update with limit `limit` fetches and
/// delivers when the feed answers page `p` with `remote(p)`.
pub open spec fn pages_delivered(limit: i32, remote: spec_fn(int) -> WizResponse) -> int {
    if remote(0).results@.len() == 0 {
        0
    } else if pages_to_fetch(limit, remote(0)) <= 0 {
        0
    } else {
        pages_to_fetch(limit, remote(0))
    }
}

/// The outcome of an update in which no fetch and no hand-over fails.
pub open spec fn clean_outcome(remote: spec_fn(int) -> WizResponse) -> Result<(), WizError> {
    if remote(0).results@.len() == 0 {
        Err(WizError::NoPageCount)
    } else {
        Ok(())
    }
}

/// The event that answers action `a` when no fetch and no hand-over fails.
pub open spec fn clean_event(a: WizUpdateAction, remote: spec_fn(int) -> WizResponse) -> WizUpdateEvent {
    match a {
        WizUpdateAction::FetchPage(p) => WizUpdateEvent::PageFetched(remote(p as int)),
        _ => WizUpdateEvent::Delivered,
    }
}

/// `states[i]` and `actions[i]` are the state and the action after `i` steps
/// of an update with limit `limit`, from its start to its end, in which the
/// feed answers page `p` with `remote(p)` and nothing fails.
pub open spec fn is_clean_run(
    limit: i32,
    remote: spec_fn(int) -> WizResponse,
    states: Seq<WizUpdate>,
    actions: Seq<WizUpdateAction>,
) -> bool {
    &&& states.len() == actions.len()
    &&& actions.len() > 0
    &&& states[0].phase is Counting
    &&& states[0].page_limit == limit
    &&& actions[0] matches WizUpdateAction::FetchPage(p) && p == 0
    &&& forall|i: int| 0 <= i < actions.len() - 1 ==> !(#[trigger] actions[i] is Finish)
    &&& forall|i: int|
        0 <= i < actions.len() - 1 ==> wiz_step_ok(
            states[i],
            #[trigger] clean_event(actions[i], remote),
            states[i + 1],
            actions[i + 1],
        )
    &&& actions.last() is Finish
}

/// The action that fetches page `k` of a run.
pub open spec fn fetch_action(actions: Seq<WizUpdateAction>, k: int) -> WizUpdateAction {
    actions[2 * k + 1]
}

/// The action that hands on the records of page `k` of a run.
pub open spec fn deliver_action(actions: Seq<WizUpdateAction>, k: int) -> WizUpdateAction {
    actions[2 * k + 2]
}

/// Where a run stands after `i` steps.
spec fn run_point(
    limit: i32,
    remote: spec_fn(int) -> WizResponse,
    states: Seq<WizUpdate>,
    actions: Seq<WizUpdateAction>,
    i: int,
) -> bool {
    let n = pages_delivered(limit, remote);
    if i == 0 {
        states[0].phase is Counting && states[0].page_limit == limit
    } else if i % 2 == 1 {
        ||| {
            &&& (i - 1) / 2 < n
            &&& states[i].phase is Fetching
            &&& states[i].page == (i - 1) / 2
            &&& states[i].page_count == n
            &&& states[i].page_limit == limit
            &&& actions[i] matches WizUpdateAction::FetchPage(p) && p == (i - 1) / 2
        }
        ||| {
            &&& (i - 1) / 2 == n
            &&& states[i].phase is Done
            &&& actions[i] == WizUpdateAction::Finish(clean_outcome(remote))
        }
    } else {
        &&& (i - 2) / 2 < n
        &&& states[i].phase is Delivering
        &&& states[i].page == (i - 2) / 2
        &&& states[i].page_count == n
        &&& states[i].page_limit == limit
        &&& actions[i] matches WizUpdateAction::Deliver(v)
            && describes_hits(v@, first_hits(remote((i - 2) / 2)))
    }
}

proof fn lemma_run_point(
    limit: i32,
    remote: spec_fn(int) -> WizResponse,
    states: Seq<WizUpdate>,
    actions: Seq<WizUpdateAction>,
    i: int,
)
    requires
        is_clean_run(limit, remote, states, actions),
        0 <= i < actions.len(),
    ensures
        run_point(limit, remote, states, actions, i),
    decreases i,
{
    if i > 0 {
        let j = i - 1;
        lemma_run_point(limit, remote, states, actions, j);
        assert(!(actions[j] is Finish));
        let e = clean_event(actions[j], remote);
        assert(wiz_step_ok(states[j], e, states[i], actions[i]));
        let n = pages_delivered(limit, remote);
        if j == 0 {
            assert(e == WizUpdateEvent::PageFetched(remote(0)));
            assert(i % 2 == 1 && (i - 1) / 2 == 0);
            assert(run_point(limit, remote, states, actions, i));
        } else if j % 2 == 1 {
            let k = (j - 1) / 2;
            assert(states[j].phase is Fetching);
            assert(e == WizUpdateEvent::PageFetched(remote(k)));
            assert(i % 2 == 0 && (i - 2) / 2 == k);
            assert(run_point(limit, remote, states, actions, i));
        } else {
            let k = (j - 2) / 2;
            assert(e == WizUpdateEvent::Delivered);
            assert(i % 2 == 1 && (i - 1) / 2 == k + 1);
            if k + 1 >= n {
                assert(remote(0).results@.len() > 0);
                assert(states[i].phase is Done);
                assert(actions[i] == WizUpdateAction::Finish(clean_outcome(remote)));
            } else {
                assert(states[i].phase is Fetching);
            }
            assert(run_point(limit, remote, states, actions, i));
        }
    }
}

/// An update in which nothing fails fetches the first page to count the
/// pages, then fetches pages `0` to `n - 1` in order, each followed by the
/// hand-over of the records of that page's hits, and ends: `n` is the page
/// count cut to the limit, and the update fails only when the first
/// response holds no result.
pub proof fn lemma_clean_run_shape(
    limit: i32,
    remote: spec_fn(int) -> WizResponse,
    states: Seq<WizUpdate>,
    actions: Seq<WizUpdateAction>,
)
    requires
        is_clean_run(limit, remote, states, actions),
    ensures
        actions.len() == 2 * pages_delivered(limit, remote) + 2,
        forall|k: int|
            0 <= k < pages_delivered(limit, remote) ==> (#[trigger] fetch_action(actions, k)
                matches WizUpdateAction::FetchPage(p) && p == k),
        forall|k: int|
            0 <= k < pages_delivered(limit, remote) ==> (#[trigger] deliver_action(actions, k)
                matches WizUpdateAction::Deliver(v) && describes_hits(v@, first_hits(remote(k)))),
        actions.last() == WizUpdateAction::Finish(clean_outcome(remote)),
{
    let n = pages_delivered(limit, remote);
    let last = actions.len() - 1;
    lemma_run_point(limit, remote, states, actions, last);
    if last == 0 {
        assert(actions[0] is FetchPage);
    }
    assert(last % 2 == 1);
    assert(last == 2 * n + 1);
    assert forall|k: int| 0 <= k < n implies (#[trigger] fetch_action(actions, k)
        matches WizUpdateAction::FetchPage(p) && p == k) by {
        lemma_run_point(limit, remote, states, actions, 2 * k + 1);
        assert((2 * k + 1) % 2 == 1);
        assert((2 * k + 1 - 1) / 2 == k);
    }
    assert forall|k: int| 0 <= k < n implies (#[trigger] deliver_action(actions, k)
        matches WizUpdateAction::Deliver(v) && describes_hits(v@, first_hits(remote(k)))) by {
        lemma_run_point(limit, remote, states, actions, 2 * k + 2);
        assert((2 * k + 2) % 2 == 0);
        assert((2 * k + 2 - 2) / 2 == k);
    }
}

/// The hits of pages `0` to `n - 1` of the feed, in order.
pub open spec fn hits_of_pages(remote: spec_fn(int) -> WizResponse, n: int) -> Seq<WizHit>
    decreases n,
{
    if n <= 0 {
        Seq::empty()
    } else {
        hits_of_pages(remote, n - 1) + first_hits(remote(n - 1))
    }
}

/// The records that a run hands over for its pages `0` to `k - 1`, in order.
pub open spec fn delivered_records(actions: Seq<WizUpdateAction>, k: int) -> Seq<CreateVulnInformation>
    decreases k,
{
    if k <= 0 {
        Seq::empty()
    } else {
        delivered_records(actions, k - 1) + match deliver_action(actions, k - 1) {
            WizUpdateAction::Deliver(v) => v@,
            _ => Seq::empty(),
        }
    }
}

/// The hits whose records an update with limit `limit` hands over when
/// nothing fails.
pub open spec fn run_hits(limit: i32, remote: spec_fn(int) -> WizResponse) -> Seq<WizHit> {
    hits_of_pages(remote, pages_delivered(limit, remote))
}

/// The records that a run with limit `limit` hands over.
pub open spec fn run_records(
    limit: i32,
    remote: spec_fn(int) -> WizResponse,
    actions: Seq<WizUpdateAction>,
) -> Seq<CreateVulnInformation> {
    delivered_records(actions, pages_delivered(limit, remote))
}

proof fn lemma_describes_concat(
    a: Seq<CreateVulnInformation>,
    h1: Seq<WizHit>,
    b: Seq<CreateVulnInformation>,
    h2: Seq<WizHit>,
)
    requires
        describes_hits(a, h1),
        describes_hits(b, h2),
    ensures
        describes_hits(a + b, h1 + h2),
{
    assert forall|i: int| 0 <= i < (h1 + h2).len() implies describes_hit(
        #[trigger] (a + b)[i],
        (h1 + h2)[i],
        severity_of_lowercase(lowercase_text((h1 + h2)[i].severity@)),
        disclosure_text((h1 + h2)[i].published_at),
    ) by {
        if i < h1.len() {
            assert((a + b)[i] == a[i]);
            assert((h1 + h2)[i] == h1[i]);
        } else {
            assert((a + b)[i] == b[i - a.len()]);
            assert((h1 + h2)[i] == h2[i - h1.len()]);
        }
    }
}

proof fn lemma_delivered_upto(
    limit: i32,
    remote: spec_fn(int) -> WizResponse,
    states: Seq<WizUpdate>,
    actions: Seq<WizUpdateAction>,
    k: int,
)
    requires
        is_clean_run(limit, remote, states, actions),
        0 <= k <= pages_delivered(limit, remote),
    ensures
        describes_hits(delivered_records(actions, k), hits_of_pages(remote, k)),
    decreases k,
{
    if k > 0 {
        lemma_delivered_upto(limit, remote, states, actions, k - 1);
        lemma_clean_run_shape(limit, remote, states, actions);
        let d = deliver_action(actions, k - 1);
        assert(d matches WizUpdateAction::Deliver(v) && describes_hits(v@, first_hits(remote(k - 1))));
        let v = d->Deliver_0;
        lemma_describes_concat(
            delivered_records(actions, k - 1),
            hits_of_pages(remote, k - 1),
            v@,
            first_hits(remote(k - 1)),
        );
    }
}

/// The records that an update hands over when nothing fails are those of
/// the hits of its pages, in order.
pub proof fn lemma_clean_run_delivers(
    limit: i32,
    remote: spec_fn(int) -> WizResponse,
    states: Seq<WizUpdate>,
    actions: Seq<WizUpdateAction>,
)
    requires
        is_clean_run(limit, remote, states, actions),
    ensures
        describes_hits(run_records(limit, remote, actions), run_hits(limit, remote)),
{
    lemma_delivered_upto(limit, remote, states, actions, pages_delivered(limit, remote));
}

/// The hits of the first `m` pages begin the hits of the first `n`, for
/// `m <= n`.
pub proof fn lemma_pages_prefix(remote: spec_fn(int) -> WizResponse, m: int, n: int)
    requires
        0 <= m <= n,
    ensures
        hits_of_pages(remote, m).len() <= hits_of_pages(remote, n).len(),
        hits_of_pages(remote, n).subrange(0, hits_of_pages(remote, m).len() as int) == hits_of_pages(remote, m),
    decreases n,
{
    if m < n {
        lemma_pages_prefix(remote, m, n - 1);
        let a = hits_of_pages(remote, m);
        let b = hits_of_pages(remote, n - 1);
        assert((b + first_hits(remote(n - 1))).subrange(0, a.len() as int) =~= b.subrange(0, a.len() as int));
    } else {
        assert(hits_of_pages(remote, n).subrange(0, hits_of_pages(remote, n).len() as int) =~= hits_of_pages(
            remote,
            n,
        ));
    }
}

/// Against the same feed, with nothing failing, an update with a smaller
/// page limit hands over a prefix of what one with a larger limit hands
/// over, record for record; once the smaller limit reaches the page count,
/// both hand over the same.
pub proof fn lemma_smaller_limit_delivers_prefix(
    a: i32,
    b: i32,
    remote: spec_fn(int) -> WizResponse,
    states_a: Seq<WizUpdate>,
    actions_a: Seq<WizUpdateAction>,
    states_b: Seq<WizUpdate>,
    actions_b: Seq<WizUpdateAction>,
)
    requires
        a <= b,
        is_clean_run(a, remote, states_a, actions_a),
        is_clean_run(b, remote, states_b, actions_b),
    ensures
        pages_delivered(a, remote) <= pages_delivered(b, remote),
        run_hits(a, remote).len() <= run_hits(b, remote).len(),
        run_hits(b, remote).subrange(0, run_hits(a, remote).len() as int) == run_hits(a, remote),
        describes_hits(run_records(a, remote, actions_a), run_hits(a, remote)),
        describes_hits(run_records(b, remote, actions_b), run_hits(b, remote)),
        remote(0).results@.len() > 0 && a >= counted_pages(remote(0)) ==> run_hits(a, remote) == run_hits(b, remote),
{
    lemma_pages_prefix(remote, pages_delivered(a, remote), pages_delivered(b, remote));
    lemma_clean_run_delivers(a, remote, states_a, actions_a);
    lemma_clean_run_delivers(b, remote, states_b, actions_b);
}

} // verus!
