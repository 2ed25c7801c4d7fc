use wdict::site::SitePolicy;

fn check(policy: SitePolicy, src: &str, tgt: &str, expected: bool) {
    assert_eq!(policy.matches_policy_urls(src, tgt), expected);
}

#[test]
fn test_same_policy() {
    check(SitePolicy::Same, "https://a.com/x", "https://a.com/y", true);
    check(SitePolicy::Same, "https://a.com", "https://www.a.com", false);
    check(SitePolicy::Same, "https://www.example.com", "https://www.example.com", true);
    check(SitePolicy::Same, "https://example.com/a/b?c=d&e=f", "https://example.com/a/b/c?d=e#bar", true);
    check(SitePolicy::Same, "https://foo.bar.example.com", "https://bar.example.com", false);
    check(SitePolicy::Same, "https://www.example.com", "https://example.com", false);
}

#[test]
fn test_subdomain_policy() {
    check(SitePolicy::Subdomain, "https://a.com", "https://sub.a.com", true);
    check(SitePolicy::Subdomain, "https://sub.a.com", "https://a.com", false);
    check(SitePolicy::Subdomain, "https://example.com", "https://example.com", true);
    check(SitePolicy::Subdomain, "https://bar.example.com", "https://foo.bar.example.com", true);
    check(SitePolicy::Subdomain, "https://foo.bar.example.com", "https://abc.example.com", false);
    check(SitePolicy::Subdomain, "https://foo.bar.example.com", "https://abc.example.co.uk", false);
}

#[test]
fn test_sibling_policy() {
    check(SitePolicy::Sibling, "https://x.example.com", "https://y.example.com", true);
    check(SitePolicy::Sibling, "https://x.example.com", "https://y.example.co.uk", false);
    check(SitePolicy::Sibling, "https://www.example.com", "https://example.com", true);
    check(SitePolicy::Sibling, "https://foo.bar.example.com", "https://abc.example.com", true);
    check(SitePolicy::Sibling, "https://example.com", "https://www.example.com", true);
}

#[test]
fn test_all_policy() {
    check(SitePolicy::All, "https://a.com", "mailto:a@b.com", false);
    check(SitePolicy::All, "https://foo.bar.example.com", "https://abc.example.co.uk", true);
    check(SitePolicy::All, "https://example.com", "https://www.example.com", true);
}

#[test]
fn test_policy_on_hosts() {
    let src = Some("a.com".to_string());
    let tgt = Some("sub.a.com".to_string());
    assert!(SitePolicy::Subdomain.matches_policy(&src, &tgt));
    assert!(!SitePolicy::Subdomain.matches_policy(&tgt, &src));
    assert!(!SitePolicy::Same.matches_policy(&src, &tgt));
    assert!(!SitePolicy::All.matches_policy(&src, &None));
}
