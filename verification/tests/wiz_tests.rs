use vulnfeed::vuln_information::Severity;
use vulnfeed::wiz::{
    get_page_count, limit_page_count, page_count_for_hits, severity_from_lowercase, take_first_hits,
    WizError, WizHit, WizPlugin, WizResponse, WizResult, WizUpdate, WizUpdateAction, WizUpdateEvent,
    WizUpdatePhase,
};

fn hit(object_id: &str, name: &str, severity: &str) -> WizHit {
    WizHit {
        id: format!("id-{}", object_id),
        external_id: None,
        name: name.to_string(),
        description: format!("about {}", name),
        source_url: None,
        affected_software: None,
        affected_technologies: None,
        severity: severity.to_string(),
        exploitable: None,
        source_feeds: None,
        published_at: None,
        epss_percentile_bits: None,
        epss_probability_bits: Some(0.5f64.to_bits()),
        base_score_bits: None,
        cvss2: None,
        cvss3: None,
        is_high_profile_threat: None,
        has_cisa_kev_exploit: None,
        ai_description: None,
        index: None,
        has_fix: None,
        has_more_than_50_affected_software: None,
        batch_id: None,
        object_id: object_id.to_string(),
    }
}

fn result(hits: Vec<WizHit>, nb_hits: i64) -> WizResult {
    WizResult {
        hits,
        nb_hits,
        page: 0,
        nb_pages: 0,
        hits_per_page: 10,
        processing_time_ms: 1,
        query: String::new(),
        params: None,
    }
}

#[test]
fn request_asks_for_the_page_and_the_facet_count() {
    let req = WizPlugin::wiz_request(3);
    assert_eq!(req.requests.len(), 2);
    let q = &req.requests[0];
    assert_eq!(q.index_name, "cve-db");
    assert_eq!(q.facet_filters, Some(vec![vec!["isHighProfileThreat:true".to_string()]]));
    assert_eq!(q.facets.as_ref().unwrap().len(), 8);
    assert_eq!(q.facets.as_ref().unwrap()[0], "affectedTechnologies.filter");
    assert_eq!(q.facets.as_ref().unwrap()[7], "sourceFeeds.filter");
    assert_eq!(q.highlight_post_tag, "__/ais-highlight__");
    assert_eq!(q.highlight_pre_tag, "__ais-highlight__");
    assert_eq!(q.hits_per_page, 10);
    assert_eq!(q.max_values_per_facet, 200);
    assert_eq!(q.page, 3);
    assert_eq!(q.query, "");
    assert_eq!(q.analytics, None);
    assert_eq!(q.click_analytics, None);
    let c = &req.requests[1];
    assert_eq!(c.facet_filters, None);
    assert_eq!(c.facets, Some(vec!["isHighProfileThreat".to_string()]));
    assert_eq!(c.page, 0);
    assert_eq!(c.analytics, Some(false));
    assert_eq!(c.click_analytics, Some(false));
}

#[test]
fn page_count_rounds_up_to_whole_pages() {
    assert_eq!(page_count_for_hits(0), 0);
    assert_eq!(page_count_for_hits(1), 1);
    assert_eq!(page_count_for_hits(10), 1);
    assert_eq!(page_count_for_hits(11), 2);
    assert_eq!(page_count_for_hits(1234), 124);
    // division rounds toward zero below zero
    assert_eq!(page_count_for_hits(-5), 0);
    assert_eq!(page_count_for_hits(-20), -1);
    // the count is cut to 32 bits
    assert_eq!(page_count_for_hits(i64::MAX - 10), ((i64::MAX - 1) / 10) as i32);
}

#[test]
fn page_count_needs_a_result() {
    assert_eq!(get_page_count(&WizResponse { results: vec![] }), Err(WizError::NoPageCount));
    let resp = WizResponse { results: vec![result(vec![], 25), result(vec![], 999)] };
    assert_eq!(get_page_count(&resp), Ok(3));
}

#[test]
fn page_limit_caps_the_count() {
    assert_eq!(limit_page_count(5, 1), 1);
    assert_eq!(limit_page_count(1, 5), 1);
    assert_eq!(limit_page_count(-3, 1), -3);
}

#[test]
fn first_hits_come_from_the_first_result() {
    let resp = WizResponse {
        results: vec![result(vec![hit("a", "CVE-1", "low"), hit("b", "CVE-2", "low")], 2), result(vec![hit("c", "CVE-3", "low")], 1)],
    };
    let hits = take_first_hits(resp);
    assert_eq!(hits.len(), 2);
    assert_eq!(hits[0].object_id, "a");
    assert_eq!(hits[1].object_id, "b");
    assert!(take_first_hits(WizResponse { results: vec![] }).is_empty());
}

#[test]
fn severity_is_read_without_case() {
    let wiz = WizPlugin::new();
    assert_eq!(wiz.get_severity("CRITICAL"), Severity::Critical);
    assert_eq!(wiz.get_severity("High"), Severity::High);
    assert_eq!(wiz.get_severity("medium"), Severity::Medium);
    assert_eq!(wiz.get_severity("LOW"), Severity::Low);
    assert_eq!(wiz.get_severity("unknown"), Severity::Low);
    assert_eq!(severity_from_lowercase("critical"), Severity::Critical);
    assert_eq!(severity_from_lowercase("Critical"), Severity::Low);
    assert_eq!(Severity::Critical.to_string(), "Critical");
    assert_eq!(Severity::Low.to_string(), "Low");
}

#[test]
fn parse_hit_maps_every_field() {
    let wiz = WizPlugin::new();
    let mut h = hit("obj-1", "CVE-2024-0001", "HIGH");
    h.external_id = Some("CVE-2024-0001".to_string());
    h.published_at = Some(1431648000);
    h.is_high_profile_threat = Some(true);
    h.exploitable = Some(false);
    h.has_cisa_kev_exploit = Some(true);
    h.has_fix = Some(true);
    let info = wiz.parse_hit(h);
    assert_eq!(info.key, "obj-1");
    assert_eq!(info.title, "CVE-2024-0001");
    assert_eq!(info.description, "about CVE-2024-0001");
    assert_eq!(info.severity, "High");
    assert_eq!(info.cve, "CVE-2024-0001");
    assert_eq!(info.disclosure, "2015-05-15 00:00:00");
    assert!(info.reference_links.is_empty());
    assert_eq!(info.solutions, "");
    assert_eq!(info.source, "https://www.wiz.io");
    assert_eq!(info.source_name, "WizPlugin");
    assert_eq!(info.tags, vec!["高危威胁".to_string(), "CISA KEV".to_string(), "有修复".to_string()]);
    assert!(info.reasons.is_empty());
    assert!(info.github_search.is_empty());
    assert!(!info.pushed);
    assert_eq!(info.detail_link, "https://www.wiz.io/vulnerability-database/cve/CVE-2024-0001");
}

#[test]
fn parse_hit_defaults_missing_fields() {
    let wiz = WizPlugin::new();
    let info = wiz.parse_hit(hit("obj-2", "CVE-2", "whatever"));
    assert_eq!(info.cve, "");
    assert_eq!(info.disclosure, "");
    assert!(info.tags.is_empty());
    assert_eq!(info.severity, "Low");
    let mut far = hit("obj-3", "CVE-3", "low");
    far.published_at = Some(i64::MAX);
    assert_eq!(wiz.parse_hit(far).disclosure, "");
}

#[test]
fn update_fetches_pages_up_to_the_limit() {
    let wiz = WizPlugin::new();
    let (mut run, action) = WizUpdate::start(2);
    assert!(matches!(action, WizUpdateAction::FetchPage(0)));
    // 35 hits make 4 pages; the limit keeps 2
    let counted = WizUpdateEvent::PageFetched(WizResponse { results: vec![result(vec![], 35)] });
    assert!(run.accepts(&counted));
    assert!(matches!(run.step(&wiz, counted), WizUpdateAction::FetchPage(0)));
    assert_eq!(run.page_count, 2);
    let page0 = WizUpdateEvent::PageFetched(WizResponse {
        results: vec![result(vec![hit("a", "CVE-A", "critical"), hit("b", "CVE-B", "low")], 35)],
    });
    match run.step(&wiz, page0) {
        WizUpdateAction::Deliver(infos) => {
            assert_eq!(infos.len(), 2);
            assert_eq!(infos[0].key, "a");
            assert_eq!(infos[0].severity, "Critical");
            assert_eq!(infos[1].key, "b");
        }
        other => panic!("unexpected {:?}", other),
    }
    assert!(!run.accepts(&WizUpdateEvent::FetchFailed));
    assert!(matches!(run.step(&wiz, WizUpdateEvent::Delivered), WizUpdateAction::FetchPage(1)));
    let page1 = WizUpdateEvent::PageFetched(WizResponse { results: vec![] });
    match run.step(&wiz, page1) {
        WizUpdateAction::Deliver(infos) => assert!(infos.is_empty()),
        other => panic!("unexpected {:?}", other),
    }
    assert!(matches!(run.step(&wiz, WizUpdateEvent::Delivered), WizUpdateAction::Finish(Ok(()))));
    assert_eq!(run.phase, WizUpdatePhase::Done);
}

#[test]
fn update_stops_on_failures() {
    let wiz = WizPlugin::new();
    let (mut run, _) = WizUpdate::start(1);
    let empty = WizUpdateEvent::PageFetched(WizResponse { results: vec![] });
    assert!(matches!(run.step(&wiz, empty), WizUpdateAction::Finish(Err(WizError::NoPageCount))));

    let (mut run, _) = WizUpdate::start(1);
    assert!(matches!(run.step(&wiz, WizUpdateEvent::FetchFailed), WizUpdateAction::Finish(Err(WizError::Fetch))));

    let (mut run, _) = WizUpdate::start(1);
    let none = WizUpdateEvent::PageFetched(WizResponse { results: vec![result(vec![], 0)] });
    assert!(matches!(run.step(&wiz, none), WizUpdateAction::Finish(Ok(()))));

    let (mut run, _) = WizUpdate::start(3);
    let counted = WizUpdateEvent::PageFetched(WizResponse { results: vec![result(vec![], 5)] });
    assert!(matches!(run.step(&wiz, counted), WizUpdateAction::FetchPage(0)));
    let page = WizUpdateEvent::PageFetched(WizResponse { results: vec![result(vec![hit("x", "CVE-X", "low")], 5)] });
    assert!(matches!(run.step(&wiz, page), WizUpdateAction::Deliver(_)));
    assert!(matches!(run.step(&wiz, WizUpdateEvent::DeliveryFailed), WizUpdateAction::Finish(Err(WizError::Send))));
}

#[test]
fn counting_refuses_a_hit_count_that_would_overflow() {
    let (run, _) = WizUpdate::start(1);
    let huge = WizUpdateEvent::PageFetched(WizResponse { results: vec![result(vec![], i64::MAX - 9)] });
    assert!(!run.accepts(&huge));
    let fine = WizUpdateEvent::PageFetched(WizResponse { results: vec![result(vec![], i64::MAX - 10)] });
    assert!(run.accepts(&fine));
}

#[test]
fn severity_ignores_ascii_case() {
    let wiz = WizPlugin::new();
    for (a, b, c) in [("critical", "CRITICAL", "CrItIcAl"), ("high", "HIGH", "hIgH"), ("medium", "MEDIUM", "Medium")] {
        assert_eq!(wiz.get_severity(a), wiz.get_severity(b));
        assert_eq!(wiz.get_severity(a), wiz.get_severity(c));
    }
}

/// Runs an update against `remote` with nothing failing, returning the
/// pages fetched after counting and the records handed over.
fn clean_run(limit: i32, remote: &dyn Fn(i32) -> WizResponse) -> (Vec<i32>, Vec<String>, Result<(), WizError>) {
    let wiz = WizPlugin::new();
    let (mut run, mut action) = WizUpdate::start(limit);
    let mut fetched = Vec::new();
    let mut keys = Vec::new();
    let mut counted = false;
    loop {
        let event = match action {
            WizUpdateAction::FetchPage(p) => {
                if counted {
                    fetched.push(p);
                }
                counted = true;
                WizUpdateEvent::PageFetched(remote(p))
            }
            WizUpdateAction::Deliver(infos) => {
                keys.extend(infos.into_iter().map(|i| i.key));
                WizUpdateEvent::Delivered
            }
            WizUpdateAction::Finish(r) => return (fetched, keys, r),
        };
        assert!(run.accepts(&event));
        action = run.step(&wiz, event);
    }
}

fn remote_feed(page: i32) -> WizResponse {
    let hits = (0..3).map(|i| hit(&format!("p{}-{}", page, i), &format!("CVE-{}-{}", page, i), "low")).collect();
    WizResponse { results: vec![result(hits, 25)] }
}

#[test]
fn smaller_limit_delivers_a_prefix() {
    let (pages1, keys1, r1) = clean_run(1, &remote_feed);
    let (pages2, keys2, r2) = clean_run(2, &remote_feed);
    let (pages5, keys5, r5) = clean_run(5, &remote_feed);
    let (pages9, keys9, _) = clean_run(9, &remote_feed);
    assert_eq!((r1, r2, r5), (Ok(()), Ok(()), Ok(())));
    assert_eq!(pages1, vec![0]);
    assert_eq!(pages2, vec![0, 1]);
    // 25 hits make 3 pages
    assert_eq!(pages5, vec![0, 1, 2]);
    assert_eq!(keys1, vec!["p0-0", "p0-1", "p0-2"]);
    assert_eq!(&keys2[..3], &keys1[..]);
    assert_eq!(&keys5[..6], &keys2[..]);
    assert_eq!(keys5.len(), 9);
    assert_eq!((pages9, keys9), (pages5, keys5));
    let (pages0, keys0, r0) = clean_run(0, &remote_feed);
    assert!(pages0.is_empty() && keys0.is_empty() && r0 == Ok(()));
    let (_, _, empty) = clean_run(3, &|_| WizResponse { results: vec![] });
    assert_eq!(empty, Err(WizError::NoPageCount));
}
