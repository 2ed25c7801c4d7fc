//! Site policy: a pure predicate deciding whether a discovered URL is
//! eligible for visiting, given its host's relationship to the crawl
//! origin's host.

use vstd::prelude::*;
use vstd::string::StrSliceExecFns;

use crate::urls::url_host;
use crate::urls::opt_str_view;
use crate::urls::parse_url_parts;

verus! {

/// Defines options for crawling sites.
#[derive(Copy, Clone, Debug, PartialEq, Eq, Structural)]
pub enum SitePolicy {
    /// Allow crawling urls, only if the domain exactly matches.
    Same,
    /// Allow crawling urls if they are the same domain or subdomains.
    Subdomain,
    /// Allow crawling urls if they are the same domain or a sibling.
    Sibling,
    /// Allow crawling all urls, regardless of domain.
    All,
}

/// Relies on psl::domain_str: the registrable domain of a host name under
/// the public suffix list compiled into the crate, a function of the host
/// string alone.
pub uninterp spec fn registrable_domain(host: Seq<char>) -> Option<Seq<char>>;

/// Whether `host` is `suffix` prefixed by at least one label: `host` ends
/// with a dot followed by `suffix`.
pub open spec fn is_dot_suffix(suffix: Seq<char>, host: Seq<char>) -> bool {
    &&& host.len() > suffix.len()
    &&& host.subrange(host.len() - suffix.len() - 1, host.len() as int) == seq!['.'] + suffix
}

/// Whether a target host passes the policy relative to the source host. A
/// target without a host is rejected under every variant, including All.
pub open spec fn policy_matches(
    policy: SitePolicy,
    source_host: Option<Seq<char>>,
    target_host: Option<Seq<char>>,
) -> bool {
    match (source_host, target_host) {
        (Some(s), Some(t)) => match policy {
            SitePolicy::Same => t == s,
            SitePolicy::Subdomain => t == s || is_dot_suffix(s, t),
            SitePolicy::Sibling => {
                &&& registrable_domain(t) is Some
                &&& registrable_domain(s) is Some
                &&& registrable_domain(t) == registrable_domain(s)
            },
            SitePolicy::All => true,
        },
        (None, Some(t)) => policy is All,
        _ => false,
    }
}

/// Relies on psl::domain_str (see `registrable_domain`).
#[verifier::external_body]
fn psl_domain_str(host: &String) -> (r: Option<String>)
    ensures
        match r {
            Some(d) => registrable_domain(host@) == Some(d@),
            None => registrable_domain(host@) is None,
        },
{
    psl::domain_str(host).map(|d| d.to_string())
}

/// Whether `host` ends with a dot followed by `suffix`.
fn ends_with_dot_suffix(suffix: &String, host: &String) -> (r: bool)
    ensures
        r == is_dot_suffix(suffix@, host@),
{
    let hl = host.as_str().unicode_len();
    let sl = suffix.as_str().unicode_len();
    if hl <= sl {
        return false;
    }
    let base = hl - sl - 1;
    if host.as_str().get_char(base) != '.' {
        proof {
            if is_dot_suffix(suffix@, host@) {
                assert(host@.subrange(hl - sl - 1, hl as int)[0] == (seq!['.'] + suffix@)[0]);
            }
        }
        return false;
    }
    let mut i: usize = 0;
    while i < sl
        invariant
            hl == host@.len(),
            sl == suffix@.len(),
            sl < hl,
            base == hl - sl - 1,
            i <= sl,
            host@[base as int] == '.',
            forall|j: int| 0 <= j < i ==> host@[base + 1 + j] == suffix@[j],
        decreases sl - i,
    {
        if host.as_str().get_char(base + 1 + i) != suffix.as_str().get_char(i) {
            proof {
                if is_dot_suffix(suffix@, host@) {
                    assert(host@.subrange(hl - sl - 1, hl as int)[i + 1] == (seq!['.']
                        + suffix@)[i + 1]);
                }
            }
            return false;
        }
        i += 1;
    }
    proof {
        assert(host@.subrange(hl - sl - 1, hl as int) =~= seq!['.'] + suffix@) by {
            let sub = host@.subrange(hl - sl - 1, hl as int);
            assert(sub[0] == '.');
            assert forall|j: int| 0 <= j < sl implies sub[j + 1] == suffix@[j] by {
                assert(host@[base + 1 + j] == suffix@[j]);
            }
        }
    }
    true
}

/// The name each site policy is written as.
pub open spec fn site_policy_name(p: SitePolicy) -> Seq<char> {
    match p {
        SitePolicy::Same => "Same"@,
        SitePolicy::Subdomain => "Subdomain"@,
        SitePolicy::Sibling => "Sibling"@,
        SitePolicy::All => "All"@,
    }
}

impl SitePolicy {
    /// The name this policy is written as.
    pub fn as_str(&self) -> (r: &str)
        ensures
            r@ == site_policy_name(*self),
    {
        match self {
            SitePolicy::Same => "Same",
            SitePolicy::Subdomain => "Subdomain",
            SitePolicy::Sibling => "Sibling",
            SitePolicy::All => "All",
        }
    }

    /// Returns if the target host matches the site visiting policy relative
    /// to the source host.
    pub fn matches_policy(&self, source_host: &Option<String>, target_host: &Option<String>) -> (r:
        bool)
        ensures
            r == policy_matches(*self, opt_str_view(*source_host), opt_str_view(*target_host)),
    {
        match target_host {
            None => false,
            Some(t) => match self {
                SitePolicy::All => true,
                SitePolicy::Same => match source_host {
                    Some(s) => t.eq(s),
                    None => false,
                },
                SitePolicy::Subdomain => match source_host {
                    Some(s) => t.eq(s) || ends_with_dot_suffix(s, t),
                    None => false,
                },
                SitePolicy::Sibling => match source_host {
                    Some(s) => {
                        let td = psl_domain_str(t);
                        let sd = psl_domain_str(s);
                        match (td, sd) {
                            (Some(td), Some(sd)) => td.eq(&sd),
                            _ => false,
                        }
                    },
                    None => false,
                },
            },
        }
    }

    /// Returns if the target URL string matches the site visiting policy
    /// relative to the source URL string, comparing the hosts each URL
    /// parses to.
    pub fn matches_policy_urls(&self, source_url: &str, target_url: &str) -> (r: bool)
        ensures
            r == policy_matches(*self, url_host(source_url@), url_host(target_url@)),
    {
        let s = parse_url_parts(source_url);
        let t = parse_url_parts(target_url);
        let sh = match s {
            Some(p) => p.host,
            None => None,
        };
        let th = match t {
            Some(p) => p.host,
            None => None,
        };
        self.matches_policy(&sh, &th)
    }
}

} // verus!
