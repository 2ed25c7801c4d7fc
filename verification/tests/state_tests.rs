use wdict::cli::Cli;
use wdict::cli::FilterArg;
use wdict::cli::SitePolicyArg;
use wdict::cli::Target;
use wdict::cli::Theme;
use wdict::state::State;
use wdict::state::fill_urldb_from_state;
use wdict::state::merge;
use wdict::urldb::UrlDb;

fn snapshot() -> State {
    let mut s = State::new("https://example.com/");
    s.depth_reached = 1;
    s.visited = vec!["https://example.com/".to_string(), "https://example.com/a".to_string()];
    s.unvisited = vec![
        "https://example.com/b".to_string(),
        "https://example.com/c".to_string(),
        "https://example.com/d".to_string(),
    ];
    s.skipped = vec!["https://other.com/".to_string()];
    s
}

#[test]
fn test_restore_fills_fresh_store_and_drains_lists() {
    let mut s = snapshot();
    let mut db = UrlDb::new();
    fill_urldb_from_state(&mut db, &mut s);
    assert_eq!(db.num_visited_urls(), 2);
    assert_eq!(db.num_unvisited_urls(), 3);
    assert_eq!(db.num_skipped_urls(), 1);
    assert_eq!(db.num_staged_urls(), 0);
    assert_eq!(db.num_errored_urls(), 0);
    assert!(s.visited.is_empty());
    assert!(s.staged.is_empty());
    assert!(s.unvisited.is_empty());
    assert!(s.skipped.is_empty());
    assert!(s.errored.is_empty());
    assert_eq!(s.starting_url, "https://example.com/");
    assert_eq!(s.depth_reached, 1);
}

fn cli_args() -> Cli {
    Cli {
        target: Target {
            url: Some("https://example.com/".to_string()),
            theme: None,
            path: None,
            resume: false,
            resume_strict: true,
        },
        depth: 1,
        min_word_length: 3,
        max_word_length: usize::MAX,
        include_js: false,
        include_css: false,
        filters: vec![FilterArg::AsIs],
        site_policy: SitePolicyArg::Same,
        req_per_sec: 5,
        limit_concurrent: 5,
        output: "wdict.txt".to_string(),
        append: false,
        output_state: false,
        state_file: "state-wdict.json".to_string(),
    }
}

fn persisted() -> State {
    let mut s = State::new("https://example.com/");
    s.depth = 7;
    s.min_word_length = 4;
    s.max_word_length = 9;
    s.include_js = true;
    s.include_css = true;
    s.filters = vec![FilterArg::Deunicode, FilterArg::AllNumbers];
    s.site_policy = SitePolicyArg::Sibling;
    s.req_per_sec = 9;
    s.limit_concurrent = 2;
    s
}

#[test]
fn test_merge_strict_takes_persisted_options() {
    let merged = merge(&persisted(), &cli_args(), true);
    assert_eq!(merged.depth, 7);
    assert_eq!(merged.min_word_length, 4);
    assert_eq!(merged.max_word_length, 9);
    assert!(merged.include_js);
    assert!(merged.include_css);
    assert_eq!(merged.filters, vec![FilterArg::Deunicode, FilterArg::AllNumbers]);
    assert_eq!(merged.site_policy, SitePolicyArg::Sibling);
    assert_eq!(merged.req_per_sec, 9);
    assert_eq!(merged.limit_concurrent, 2);
    // output choices always come from the current invocation
    assert_eq!(merged.output, "wdict.txt");
    assert_eq!(merged.state_file, "state-wdict.json");
}

#[test]
fn test_merge_loose_keeps_current_options() {
    let merged = merge(&persisted(), &cli_args(), false);
    assert_eq!(merged.depth, 1);
    assert_eq!(merged.min_word_length, 3);
    assert_eq!(merged.max_word_length, usize::MAX);
    assert!(!merged.include_js);
    assert_eq!(merged.filters, vec![FilterArg::AsIs]);
    assert_eq!(merged.site_policy, SitePolicyArg::Same);
    assert_eq!(merged.req_per_sec, 5);
    assert_eq!(merged.limit_concurrent, 5);
}

#[test]
fn test_theme_urls() {
    assert_eq!(Theme::StarWars.as_str(), "https://www.starwars.com/databank");
    assert_eq!(Theme::Lovecraft.as_str(), "https://www.hplovecraft.com");
}

#[test]
fn test_filter_arg_names_round_trip() {
    let args = [
        FilterArg::Deunicode,
        FilterArg::Decancer,
        FilterArg::AllNumbers,
        FilterArg::AnyNumbers,
        FilterArg::NoNumbers,
        FilterArg::OnlyNumbers,
        FilterArg::AllAscii,
        FilterArg::AnyAscii,
        FilterArg::NoAscii,
        FilterArg::OnlyAscii,
        FilterArg::AsIs,
    ];
    for a in args {
        assert_eq!(FilterArg::from_name(a.as_str()), Some(a));
    }
    assert_eq!(FilterArg::from_name("bogus"), None);
}

#[test]
fn test_site_policy_arg_names_round_trip() {
    let args = [
        SitePolicyArg::Same,
        SitePolicyArg::Subdomain,
        SitePolicyArg::Sibling,
        SitePolicyArg::All,
    ];
    for a in args {
        assert_eq!(SitePolicyArg::from_name(a.as_str()), Some(a));
    }
    assert_eq!(SitePolicyArg::from_name("bogus"), None);
    assert_eq!(SitePolicyArg::Sibling.to_mode(), wdict::site::SitePolicy::Sibling);
}
