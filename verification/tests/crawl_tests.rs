use wdict::crawl::CrawlMode;
use wdict::crawl::CrawlOptions;
use wdict::crawl::Crawler;
use wdict::crawl::DirOutcome;
use wdict::crawl::FetchOutcome;
use wdict::crawl::FileOutcome;
use wdict::crawl::VisitDecision;
use wdict::error::Error;
use wdict::limiter::RateLimiter;
use wdict::limiter::pacing_delay_ms;
use wdict::site::SitePolicy;
use wdict::urldb::UrlDb;
use wdict::utils::num_between;

fn web_opts(url: &str, depth: usize) -> CrawlOptions {
    CrawlOptions::new(url.to_string(), depth, false, false, SitePolicy::All, 5, 4, CrawlMode::Web)
}

#[test]
fn test_single_page_exhausts_below_depth_limit() {
    let opts = web_opts("https://example.com/", 2);
    let mut crawler = Crawler::new(opts, UrlDb::new(), 0).unwrap();
    assert_eq!(crawler.depth_reached(), 0);

    assert!(crawler.should_continue());
    assert!(crawler.begin_round());
    let staged = crawler.staged_urls();
    assert_eq!(staged, vec!["https://example.com/".to_string()]);
    let decision = crawler.plan_visit(&staged[0]);
    let fetch_url = match decision {
        VisitDecision::FetchWeb(u) => u,
        _ => panic!("expected a web fetch"),
    };
    let body = b"<html><body>plain words only</body></html>".to_vec();
    let doc = crawler.record_web_outcome(&fetch_url, FetchOutcome::Fetched(body));
    assert!(doc.is_some());
    assert!(crawler.finish_round(false));
    assert_eq!(crawler.depth_reached(), 1);

    assert!(crawler.should_continue());
    assert!(!crawler.begin_round());
    assert_eq!(crawler.depth_reached(), 1);
    assert_eq!(crawler.urldb.num_visited_urls(), 1);
}

#[test]
fn test_links_are_discovered_and_staged() {
    let opts = web_opts("https://example.com/", 2);
    let mut crawler = Crawler::new(opts, UrlDb::new(), 0).unwrap();
    assert!(crawler.begin_round());
    let staged = crawler.staged_urls();
    let decision = crawler.plan_visit(&staged[0]);
    let fetch_url = match decision {
        VisitDecision::FetchWeb(u) => u,
        _ => panic!("expected a web fetch"),
    };
    let body = b"<html><body><a href=\"/next\">next</a><a href=\"#top\">top</a></body></html>"
        .to_vec();
    crawler.record_web_outcome(&fetch_url, FetchOutcome::Fetched(body));
    assert_eq!(crawler.urldb.num_unvisited_urls(), 1);
    let unvisited = crawler.urldb.unvisited_urls();
    assert_eq!(unvisited, vec!["https://example.com/next".to_string()]);
}

#[test]
fn test_shutdown_mid_round_keeps_outcomes_and_depth() {
    let opts = web_opts("https://example.com/", 3);
    let mut crawler = Crawler::new(opts, UrlDb::new(), 0).unwrap();
    assert!(crawler.begin_round());
    let staged = crawler.staged_urls();
    let decision = crawler.plan_visit(&staged[0]);
    let fetch_url = match decision {
        VisitDecision::FetchWeb(u) => u,
        _ => panic!("expected a web fetch"),
    };
    // a task dispatched before the shutdown still completes and records
    let body = b"<html><body>done</body></html>".to_vec();
    crawler.record_web_outcome(&fetch_url, FetchOutcome::Fetched(body));
    assert_eq!(crawler.urldb.num_visited_urls(), 1);
    // shutdown observed: the round closes without advancing the depth
    assert!(!crawler.finish_round(true));
    assert_eq!(crawler.depth_reached(), 0);
}

#[test]
fn test_cancelled_fetch_records_nothing() {
    let opts = web_opts("https://example.com/", 1);
    let mut crawler = Crawler::new(opts, UrlDb::new(), 0).unwrap();
    assert!(crawler.begin_round());
    let url = "https://example.com/".to_string();
    crawler.record_web_outcome(&url, FetchOutcome::Cancelled);
    assert_eq!(crawler.urldb.num_visited_urls(), 0);
    assert_eq!(crawler.urldb.num_errored_urls(), 0);
    assert_eq!(crawler.urldb.num_staged_urls(), 1);
}

#[test]
fn test_failed_fetch_marks_errored() {
    let opts = web_opts("https://example.com/", 1);
    let mut crawler = Crawler::new(opts, UrlDb::new(), 0).unwrap();
    let url = "https://example.com/".to_string();
    crawler.record_web_outcome(&url, FetchOutcome::Failed);
    assert_eq!(crawler.urldb.num_errored_urls(), 1);
}

#[test]
fn test_plan_visit_policy_violation_skips() {
    let opts = CrawlOptions::new(
        "https://a.com/".to_string(),
        1,
        false,
        false,
        SitePolicy::Same,
        5,
        4,
        CrawlMode::Web,
    );
    let mut crawler = Crawler::new(opts, UrlDb::new(), 0).unwrap();
    let foreign = "https://b.com/page".to_string();
    match crawler.plan_visit(&foreign) {
        VisitDecision::Skipped => {}
        _ => panic!("expected the policy to reject the url"),
    }
    assert_eq!(crawler.urldb.num_skipped_urls(), 1);
}

#[test]
fn test_plan_visit_invalid_url_errors() {
    let opts = web_opts("https://a.com/", 1);
    let mut crawler = Crawler::new(opts, UrlDb::new(), 0).unwrap();
    let junk = "not a url at all".to_string();
    match crawler.plan_visit(&junk) {
        VisitDecision::Invalid => {}
        _ => panic!("expected the url to be rejected"),
    }
    assert_eq!(crawler.urldb.num_errored_urls(), 1);
}

#[test]
fn test_local_mode_visits() {
    let opts = CrawlOptions::new(
        "file:///tmp/words/".to_string(),
        2,
        false,
        false,
        SitePolicy::All,
        5,
        4,
        CrawlMode::Local,
    );
    let mut crawler = Crawler::new(opts, UrlDb::new(), 0).unwrap();
    let dir = "file:///tmp/words/".to_string();
    match crawler.plan_visit(&dir) {
        VisitDecision::VisitLocal(u) => assert_eq!(u, dir),
        _ => panic!("expected a local visit"),
    }
    let children = vec![
        Some("file:///tmp/words/a.txt".to_string()),
        None,
        Some("file:///tmp/words/b.txt".to_string()),
    ];
    crawler.record_local_dir_outcome(&dir, &DirOutcome::Listed(children));
    assert_eq!(crawler.urldb.num_unvisited_urls(), 2);
    assert_eq!(crawler.urldb.num_visited_urls(), 1);

    let file = "file:///tmp/words/a.txt".to_string();
    let doc = crawler.record_local_file_outcome(&file, FileOutcome::Read(b"hello".to_vec()));
    assert_eq!(doc, Some(b"hello".to_vec()));
    assert_eq!(crawler.urldb.num_visited_urls(), 2);
    crawler.record_local_file_outcome(&"file:///tmp/words/b.txt".to_string(), FileOutcome::Failed);
    assert_eq!(crawler.urldb.num_errored_urls(), 1);
}

#[test]
fn test_empty_dir_listing_leaves_dir_unmarked() {
    let opts = CrawlOptions::new(
        "file:///tmp/empty/".to_string(),
        1,
        false,
        false,
        SitePolicy::All,
        5,
        4,
        CrawlMode::Local,
    );
    let mut crawler = Crawler::new(opts, UrlDb::new(), 0).unwrap();
    let dir = "file:///tmp/empty/".to_string();
    crawler.record_local_dir_outcome(&dir, &DirOutcome::Listed(vec![]));
    assert_eq!(crawler.urldb.num_visited_urls(), 0);
    crawler.record_local_dir_outcome(&dir, &DirOutcome::Failed);
    assert_eq!(crawler.urldb.num_errored_urls(), 1);
}

#[test]
fn test_url_from_href() {
    let base = "https://example.com/a/b".to_string();
    assert_eq!(
        Crawler::url_from_href(&base, &"".to_string()),
        Err(Error::StrWhitespaceError)
    );
    assert_eq!(
        Crawler::url_from_href(&base, &"#frag".to_string()),
        Err(Error::StrWhitespaceError)
    );
    assert_eq!(
        Crawler::url_from_href(&base, &"https://other.com/x".to_string()),
        Ok("https://other.com/x".to_string())
    );
    assert_eq!(
        Crawler::url_from_href(&base, &"c/d".to_string()),
        Ok("https://example.com/a/c/d".to_string())
    );
}

#[test]
fn test_mode_from_scheme() {
    assert_eq!(CrawlMode::from_scheme(&"file".to_string()), CrawlMode::Local);
    assert_eq!(CrawlMode::from_scheme(&"https".to_string()), CrawlMode::Web);
}

#[test]
fn test_rate_limiter_zero_rps_behaves_as_one() {
    let mut zero = RateLimiter::new(0, 0);
    let mut one = RateLimiter::new(1, 0);
    // capacity 1, starting empty (half of one): both must wait a full second
    let t0: u64 = 10;
    assert_eq!(zero.try_consume(t0), one.try_consume(t0));
    let t1: u64 = 1_000_000_001;
    assert_eq!(zero.try_consume(t1), Ok(()));
    assert_eq!(one.try_consume(t1), Ok(()));
    let t2: u64 = 1_000_000_002;
    assert_eq!(zero.try_consume(t2), one.try_consume(t2));
}

#[test]
fn test_rate_limiter_starts_half_full_and_refills() {
    let mut lim = RateLimiter::new(4, 0);
    // half of four tokens available before the first refill
    assert_eq!(lim.try_consume(1), Ok(()));
    assert_eq!(lim.try_consume(2), Ok(()));
    let wait = lim.try_consume(3).unwrap_err();
    assert_eq!(wait, 1_000_000_000 - 3);
    // a full second restores full capacity
    let t: u64 = 1_000_000_000;
    for k in 0..4u64 {
        assert_eq!(lim.try_consume(t + k), Ok(()));
    }
    assert!(lim.try_consume(t + 5).is_err());
}

#[test]
fn test_pacing_delay() {
    assert_eq!(pacing_delay_ms(5), 200);
    assert_eq!(pacing_delay_ms(1), 1000);
}

#[test]
fn test_num_between_stays_in_range() {
    for _ in 0..50 {
        let r = num_between(20, 120);
        assert!((20..120).contains(&r));
        let r2 = num_between(120, 20);
        assert!((20..120).contains(&r2));
    }
}

#[test]
fn test_set_depth_resumes() {
    let opts = web_opts("https://example.com/", 3);
    let mut crawler = Crawler::new(opts, UrlDb::new(), 0).unwrap();
    crawler.set_depth(2);
    assert_eq!(crawler.depth_reached(), 2);
    assert!(crawler.should_continue());
    crawler.set_depth(3);
    assert!(!crawler.should_continue());
}

#[test]
fn test_num_between_adjacent_bounds_is_exact() {
    // a one-wide range leaves no room for jitter
    assert_eq!(num_between(5, 6), 5);
    assert_eq!(num_between(6, 5), 5);
}

#[test]
fn test_error_messages() {
    assert_eq!(Error::StrWhitespaceError.message(), "value cannot have leading/trailing whitespace, nor consist of only whitespace");
    assert_eq!(Error::EarlyTerminationError.message(), "terminating early");
    assert_eq!(Error::UrlParseError.message(), "url parsing error");
}

#[test]
fn test_two_depth_crawl_reaches_limit() {
    let opts = web_opts("https://example.com/", 2);
    let mut crawler = Crawler::new(opts, UrlDb::new(), 0).unwrap();

    // first round: the root page links one page deeper
    assert!(crawler.should_continue());
    assert!(crawler.begin_round());
    for url in crawler.staged_urls() {
        if let VisitDecision::FetchWeb(u) = crawler.plan_visit(&url) {
            let body = b"<html><body><a href=\"/deeper\">deeper</a></body></html>".to_vec();
            crawler.record_web_outcome(&u, FetchOutcome::Fetched(body));
        }
    }
    assert!(crawler.finish_round(false));

    // second round: the deeper page has no further links
    assert!(crawler.should_continue());
    assert!(crawler.begin_round());
    let staged = crawler.staged_urls();
    assert_eq!(staged, vec!["https://example.com/deeper".to_string()]);
    for url in staged {
        if let VisitDecision::FetchWeb(u) = crawler.plan_visit(&url) {
            let body = b"<html><body>the end</body></html>".to_vec();
            crawler.record_web_outcome(&u, FetchOutcome::Fetched(body));
        }
    }
    // the depth limit is reached: the round closes the crawl
    assert!(!crawler.finish_round(false));
    assert_eq!(crawler.depth_reached(), 2);
    assert!(!crawler.should_continue());
    assert_eq!(crawler.urldb.num_visited_urls(), 2);
}

#[test]
fn test_css_and_js_links_follow_options() {
    let body = b"<html><head><link rel=\"stylesheet\" href=\"/style.css\"><link as=\"script\" href=\"/app.js\"></head></html>";
    // with neither flag, link elements contribute nothing
    let opts = CrawlOptions::new(
        "https://example.com/".to_string(), 2, false, false, SitePolicy::All, 5, 4, CrawlMode::Web,
    );
    let mut crawler = Crawler::new(opts, UrlDb::new(), 0).unwrap();
    crawler.record_web_outcome(&"https://example.com/".to_string(), FetchOutcome::Fetched(body.to_vec()));
    assert_eq!(crawler.urldb.num_unvisited_urls(), 0);
    // with both flags, both the stylesheet and the script are discovered
    let opts = CrawlOptions::new(
        "https://example.com/".to_string(), 2, true, true, SitePolicy::All, 5, 4, CrawlMode::Web,
    );
    let mut crawler = Crawler::new(opts, UrlDb::new(), 0).unwrap();
    crawler.record_web_outcome(&"https://example.com/".to_string(), FetchOutcome::Fetched(body.to_vec()));
    let mut unvisited = crawler.urldb.unvisited_urls();
    unvisited.sort();
    assert_eq!(
        unvisited,
        vec![
            "https://example.com/app.js".to_string(),
            "https://example.com/style.css".to_string(),
        ]
    );
}
