//! Crawl orchestration: per-run options, the depth-round state machine, the
//! per-URL visit decisions, and the recording of visit outcomes in the URL
//! store. Fetching, filesystem access and task dispatch live outside the
//! library; every decision about what they mean for the crawl lives here.

use vstd::prelude::*;
use vstd::string::StringExecFns;
use vstd::string::StrSliceExecFns;

use crate::error::Error;
use crate::limiter::RateLimiter;
use crate::limiter::initial_state;
use crate::site::SitePolicy;
use crate::site::policy_matches;
use crate::urldb::Status;
use crate::urldb::UrlDb;
use crate::urldb::cond_insert;
use crate::urldb::count_with_status;
use crate::urldb::stage_all;
use crate::urldb::status_keys;
use crate::urls::UrlParts;
use crate::urls::join_url;
use crate::urls::joined_url;
use crate::urls::opt_str_view;
use crate::urls::parse_url_parts;
use crate::urls::parsed_url;
use crate::urls::url_host;
use crate::urls::url_normalized;
use crate::utils::lossy_text;
use crate::utils::utf8_lossy;

verus! {

/// Whether a run crawls the web or walks a local directory tree.
#[derive(Copy, Clone, Debug, PartialEq, Eq, Structural)]
pub enum CrawlMode {
    Web,
    Local,
}

/// The mode a starting URL selects: the file scheme means a local crawl,
/// any other scheme a web crawl.
pub open spec fn mode_for_scheme(scheme: Seq<char>) -> CrawlMode {
    if scheme == "file"@ {
        CrawlMode::Local
    } else {
        CrawlMode::Web
    }
}

impl CrawlMode {
    /// The crawl mode a starting URL selects, by its scheme; None when the
    /// string does not parse as a URL.
    pub fn from_url(url: &str) -> (m: Option<CrawlMode>)
        ensures
            match parsed_url(url@) {
                Some(p) => m == Some(mode_for_scheme(p.1)),
                None => m is None,
            },
    {
        match parse_url_parts(url) {
            Some(p) => Some(CrawlMode::from_scheme(&p.scheme)),
            None => None,
        }
    }

    /// The crawl mode selected by a URL scheme.
    pub fn from_scheme(scheme: &String) -> (m: CrawlMode)
        ensures
            m == mode_for_scheme(scheme@),
    {
        let file_scheme: String = String::from_str("file");
        if scheme.eq(&file_scheme) {
            CrawlMode::Local
        } else {
            CrawlMode::Web
        }
    }
}

/// Options used when crawling and building wordlists. Immutable per-run
/// configuration, owned by the Crawler.
#[derive(Clone, Debug)]
pub struct CrawlOptions {
    /// Url to start crawling from.
    pub url: String,
    /// Limit the depth of crawling urls.
    pub depth: usize,
    /// Include javascript from html pages.
    pub include_js: bool,
    /// Include css from html pages.
    pub include_css: bool,
    /// Strategy for url crawling.
    pub site: SitePolicy,
    /// Upper limit of requests per second while crawling.
    pub req_per_sec: u64,
    /// Maximum number of concurrent requests.
    pub limit_concurrent: usize,
    /// Crawl mode.
    pub mode: CrawlMode,
}

impl CrawlOptions {
    /// Returns a new CrawlOptions instance.
    pub fn new(
        url: String,
        depth: usize,
        include_js: bool,
        include_css: bool,
        site: SitePolicy,
        req_per_sec: u64,
        limit_concurrent: usize,
        mode: CrawlMode,
    ) -> (r: CrawlOptions)
        ensures
            r == (CrawlOptions {
                url,
                depth,
                include_js,
                include_css,
                site,
                req_per_sec,
                limit_concurrent,
                mode,
            }),
    {
        CrawlOptions { url, depth, include_js, include_css, site, req_per_sec, limit_concurrent, mode }
    }

    /// Returns the url where crawling initiated from.
    pub fn url(&self) -> (r: String)
        ensures
            r == self.url,
    {
        self.url.clone()
    }

    /// Returns the url search depth used for crawling.
    pub fn depth(&self) -> (r: usize)
        ensures
            r == self.depth,
    {
        self.depth
    }

    /// Returns whether or not configuration dictates to include js.
    pub fn include_js(&self) -> (r: bool)
        ensures
            r == self.include_js,
    {
        self.include_js
    }

    /// Returns whether or not configuration dictates to include css.
    pub fn include_css(&self) -> (r: bool)
        ensures
            r == self.include_css,
    {
        self.include_css
    }

    /// Returns number of configured requests per second.
    pub fn requests_per_second(&self) -> (r: u64)
        ensures
            r == self.req_per_sec,
    {
        self.req_per_sec
    }

    /// Returns maximum number of concurrent requests allowed.
    pub fn limit_concurrent(&self) -> (r: usize)
        ensures
            r == self.limit_concurrent,
    {
        self.limit_concurrent
    }

    /// Returns the configured site policy for visiting discovered URLs.
    pub fn site(&self) -> (r: SitePolicy)
        ensures
            r == self.site,
    {
        self.site
    }
}

/// What the caller decides to do with one staged URL, as instructed by the
/// library: fetch it, read it locally, or leave it alone.
pub enum VisitDecision {
    /// The string is not a URL; it was marked errored.
    Invalid,
    /// The site policy rejects the URL; it was marked skipped.
    Skipped,
    /// Fetch this (normalized) URL over the network.
    FetchWeb(String),
    /// Visit this (normalized) URL on the filesystem.
    VisitLocal(String),
}

/// What a web fetch came to, reported back to the library.
pub enum FetchOutcome {
    /// The fetch succeeded with the raw document bytes.
    Fetched(Vec<u8>),
    /// The fetch failed (not by cancellation).
    Failed,
    /// Shutdown interrupted the fetch; nothing is recorded.
    Cancelled,
}


/// One element of a parsed document that carries an href: its tag name, the
/// href itself, and its rel and as attributes.
pub(crate) struct HrefEntry {
    /// The element's tag name.
    pub name: String,
    /// The href attribute's value.
    pub href: String,
    /// The rel attribute's value, if present.
    pub rel: Option<String>,
    /// The as attribute's value, if present.
    pub as_attr: Option<String>,
}

impl HrefEntry {
    /// The tuple of views this entry carries.
    pub(crate) open spec fn view_tuple(&self) -> (Seq<char>, Seq<char>, Option<Seq<char>>, Option<
        Seq<char>,
    >) {
        (self.name@, self.href@, opt_str_view(self.rel), opt_str_view(self.as_attr))
    }
}

/// Relies on scraper::Html::parse_document and the node accessors name and
/// attr: the elements of a document that carry an href attribute, in
/// document order, a function of the document text alone.
pub uninterp spec fn html_hrefs(doc: Seq<char>) -> Seq<(Seq<char>, Seq<char>, Option<Seq<char>>, Option<Seq<char>>)>;

/// Relies on scraper::Html::parse_document (see `html_hrefs`).
#[verifier::external_body]
fn html_href_entries(document: &String) -> (r: Vec<HrefEntry>)
    ensures
        r@.map_values(|e: HrefEntry| e.view_tuple()) == html_hrefs(document@),
{
    let doc = scraper::Html::parse_document(document);
    let mut out: Vec<HrefEntry> = Vec::new();
    for d in doc.root_element().descendants() {
        if let scraper::node::Node::Element(e) = d.value() {
            if let Some(h) = e.attr("href") {
                out.push(HrefEntry {
                    name: e.name().to_string(),
                    href: h.to_string(),
                    rel: e.attr("rel").map(|v| v.to_string()),
                    as_attr: e.attr("as").map(|v| v.to_string()),
                });
            }
        }
    }
    out
}

/// Whether a URL discovered on an element is taken up: anchors always;
/// stylesheet links only when css is included; script-referencing links
/// only when js is included. An element missing the tested attribute is
/// not taken up.
pub open spec fn link_accepted(
    name: Seq<char>,
    rel: Option<Seq<char>>,
    as_attr: Option<Seq<char>>,
    include_js: bool,
    include_css: bool,
) -> bool {
    if name == "link"@ {
        ||| include_css && rel == Some("stylesheet"@)
        ||| include_js && as_attr == Some("script"@)
    } else {
        name == "a"@
    }
}

/// What an href found on a page resolves to, relative to the page's URL:
/// nothing for an empty href or an anchor; the normalized URL if the href
/// is absolute; else the href joined onto the base, if that succeeds.
pub open spec fn resolved_href(base: Seq<char>, href: Seq<char>) -> Option<Seq<char>> {
    if href.len() == 0 || href[0] == '#' {
        None
    } else if url_normalized(href) is Some {
        url_normalized(href)
    } else {
        joined_url(base, href)
    }
}

/// The error a reference that resolves to nothing is reported with.
pub open spec fn href_error(href: Seq<char>) -> Error {
    if href.len() == 0 || href[0] == '#' {
        Error::StrWhitespaceError
    } else {
        Error::UrlParseError
    }
}

/// Conditionally adding one discovered URL to the store: recorded as
/// unvisited when it is nonempty and its element is accepted, and never
/// overwriting an already-known status.
pub open spec fn cond_insert_link(
    m: Map<Seq<char>, Status>,
    url: Seq<char>,
    name: Seq<char>,
    rel: Option<Seq<char>>,
    as_attr: Option<Seq<char>>,
    include_js: bool,
    include_css: bool,
) -> Map<Seq<char>, Status> {
    if url.len() > 0 && link_accepted(name, rel, as_attr, include_js, include_css) {
        cond_insert(m, url, Status::Unvisited)
    } else {
        m
    }
}

/// The store after recording every resolvable href of a page, in document
/// order.
pub open spec fn insert_links(
    m: Map<Seq<char>, Status>,
    base: Seq<char>,
    entries: Seq<(Seq<char>, Seq<char>, Option<Seq<char>>, Option<Seq<char>>)>,
    include_js: bool,
    include_css: bool,
) -> Map<Seq<char>, Status>
    decreases entries.len(),
{
    if entries.len() == 0 {
        m
    } else {
        let prev = insert_links(m, base, entries.drop_last(), include_js, include_css);
        let e = entries.last();
        match resolved_href(base, e.1) {
            Some(u) => cond_insert_link(prev, u, e.0, e.2, e.3, include_js, include_css),
            None => prev,
        }
    }
}

/// The store after recording a directory's children: each named child is
/// recorded as unvisited unless already known, and the directory itself is
/// re-marked visited once per named child.
pub open spec fn insert_children(
    m: Map<Seq<char>, Status>,
    dir: Seq<char>,
    children: Seq<Option<Seq<char>>>,
) -> Map<Seq<char>, Status>
    decreases children.len(),
{
    if children.len() == 0 {
        m
    } else {
        let prev = insert_children(m, dir, children.drop_last());
        match children.last() {
            Some(c) => cond_insert(prev, c, Status::Unvisited).insert(dir, Status::Visited),
            None => prev,
        }
    }
}

/// What reading a local file came to, reported back to the library.
pub enum FileOutcome {
    /// The file was read fully, with its bytes.
    Read(Vec<u8>),
    /// Opening or reading the file failed.
    Failed,
}

/// What enumerating a local directory came to, reported back to the
/// library: each child is the child's URL string, or None where a child
/// could not be read or converted.
pub enum DirOutcome {
    /// The directory was enumerated.
    Listed(Vec<Option<String>>),
    /// Reading the directory failed.
    Failed,
}

/// Crawls websites, gathering urls from pages.
pub struct Crawler {
    /// The per-run options.
    pub opts: CrawlOptions,
    /// The shared ground truth of URL statuses.
    pub urldb: UrlDb,
    /// The depth the crawl is currently working at.
    pub cur_depth: usize,
    /// The token bucket bounding visit throughput.
    pub limiter: RateLimiter,
}

impl Crawler {
    /// Well-formedness of the crawler's parts.
    pub open spec fn wf(&self) -> bool {
        &&& self.urldb.wf()
        &&& self.limiter.wf()
    }

    /// Returns a new Crawler instance: the rate limiter is built from the
    /// configured rate and the caller's monotonic clock reading
    /// (construction cannot fail here, but a failure would be fatal, hence
    /// the Result), and the starting URL is recorded as unvisited unless
    /// the store already knows it.
    pub fn new(opts: CrawlOptions, urldb: UrlDb, now_ns: u64) -> (r: Result<Crawler, Error>)
        requires
            urldb.wf(),
        ensures
            r is Ok,
            r->Ok_0.wf(),
            r->Ok_0.opts == opts,
            r->Ok_0.cur_depth == 0,
            r->Ok_0.limiter@ == initial_state(opts.req_per_sec, now_ns),
            r->Ok_0.urldb@ == cond_insert(urldb@, opts.url@, Status::Unvisited),
    {
        let limiter = RateLimiter::new(opts.req_per_sec, now_ns);
        let start_url = opts.url.clone();
        let mut crawler = Crawler { opts, urldb, cur_depth: 0, limiter };
        crawler.urldb.cond_mark_unvisited(start_url);
        Ok(crawler)
    }

    /// Force the current crawl depth to be of the given value; used to
    /// resume a crawl at the depth a snapshot reached.
    pub fn set_depth(&mut self, d: usize)
        ensures
            final(self).cur_depth == d,
            final(self).opts == old(self).opts,
            final(self).urldb == old(self).urldb,
            final(self).limiter == old(self).limiter,
    {
        self.cur_depth = d;
    }

    /// The depth the crawl has reached so far.
    pub fn depth_reached(&self) -> (r: usize)
        ensures
            r == self.cur_depth,
    {
        self.cur_depth
    }

    /// Whether another depth round may start: the depth limit is not yet
    /// reached.
    pub fn should_continue(&self) -> (r: bool)
        ensures
            r == (self.cur_depth < self.opts.depth),
    {
        self.cur_depth < self.opts.depth
    }

    /// Open a depth round: if nothing is staged, move every unvisited URL
    /// onto the stage. Returns whether the round has any staged URL to work
    /// on; false means the candidate space is exhausted.
    pub fn begin_round(&mut self) -> (r: bool)
        requires
            old(self).urldb.wf(),
        ensures
            final(self).urldb.wf(),
            final(self).opts == old(self).opts,
            final(self).cur_depth == old(self).cur_depth,
            final(self).limiter == old(self).limiter,
            count_with_status(old(self).urldb@, Status::Staged) > 0 ==> final(self).urldb@ == old(
                self,
            ).urldb@ && r,
            count_with_status(old(self).urldb@, Status::Staged) == 0 ==> final(self).urldb@
                == stage_all(old(self).urldb@) && r == (count_with_status(
                stage_all(old(self).urldb@),
                Status::Staged,
            ) > 0),
    {
        if self.urldb.num_staged_urls() < 1 {
            self.urldb.stage_unvisited_urls();
        }
        self.urldb.num_staged_urls() >= 1
    }

    /// A snapshot of the URLs staged for the current round.
    pub fn staged_urls(&self) -> (r: Vec<String>)
        requires
            self.urldb.wf(),
        ensures
            r@.map_values(|s: String| s@).to_set() == status_keys(self.urldb@, Status::Staged),
            r@.map_values(|s: String| s@).no_duplicates(),
            r@.len() == count_with_status(self.urldb@, Status::Staged),
    {
        self.urldb.staged_urls_iter()
    }

    /// Close a depth round. If shutdown was observed during the round the
    /// crawl stops and the depth does not advance; otherwise the depth
    /// counter moves on and the crawl continues while it is below the
    /// configured limit.
    pub fn finish_round(&mut self, shutdown_observed: bool) -> (cont: bool)
        requires
            old(self).cur_depth < old(self).opts.depth,
        ensures
            final(self).opts == old(self).opts,
            final(self).urldb == old(self).urldb,
            final(self).limiter == old(self).limiter,
            shutdown_observed ==> final(self).cur_depth == old(self).cur_depth && !cont,
            !shutdown_observed ==> final(self).cur_depth == old(self).cur_depth + 1 && cont == (
            final(self).cur_depth < old(self).opts.depth),
    {
        if shutdown_observed {
            return false;
        }
        self.cur_depth = self.cur_depth + 1;
        self.cur_depth < self.opts.depth
    }

    /// Decide what to do with one staged URL: an unparseable string is
    /// recorded as errored; in web mode a URL the site policy rejects is
    /// recorded as skipped; otherwise the caller is told to fetch or read
    /// the normalized URL.
    pub fn plan_visit(&mut self, url: &String) -> (d: VisitDecision)
        requires
            old(self).urldb.wf(),
        ensures
            final(self).urldb.wf(),
            final(self).opts == old(self).opts,
            final(self).cur_depth == old(self).cur_depth,
            final(self).limiter == old(self).limiter,
            match parsed_url(url@) {
                None => d is Invalid && final(self).urldb@ == old(self).urldb@.insert(
                    url@,
                    Status::Error,
                ),
                Some(p) => {
                    if old(self).opts.mode is Local {
                        &&& d matches VisitDecision::VisitLocal(u) && u@ == p.0
                        &&& final(self).urldb@ == old(self).urldb@
                    } else if policy_matches(
                        old(self).opts.site,
                        url_host(old(self).opts.url@),
                        p.2,
                    ) {
                        &&& d matches VisitDecision::FetchWeb(u) && u@ == p.0
                        &&& final(self).urldb@ == old(self).urldb@
                    } else {
                        &&& d is Skipped
                        &&& final(self).urldb@ == old(self).urldb@.insert(p.0, Status::Skip)
                    }
                },
            },
    {
        match parse_url_parts(url.as_str()) {
            None => {
                self.urldb.mark_errored(url.clone());
                VisitDecision::Invalid
            },
            Some(p) => {
                match self.opts.mode {
                    CrawlMode::Local => VisitDecision::VisitLocal(p.normalized),
                    CrawlMode::Web => {
                        let src = parse_url_parts(self.opts.url.as_str());
                        let src_host = match src {
                            Some(sp) => sp.host,
                            None => None,
                        };
                        if self.opts.site.matches_policy(&src_host, &p.host) {
                            VisitDecision::FetchWeb(p.normalized)
                        } else {
                            self.urldb.mark_skipped(p.normalized);
                            VisitDecision::Skipped
                        }
                    },
                }
            },
        }
    }

    /// Based on a page's original url, return a url based on the given href
    /// extracted from the page. Empty hrefs and anchors resolve to nothing;
    /// an absolute href stands on its own; anything else is joined onto the
    /// page's url.
    pub fn url_from_href(url: &String, href: &String) -> (r: Result<String, Error>)
        ensures
            match r {
                Ok(u) => resolved_href(url@, href@) == Some(u@),
                Err(e) => resolved_href(url@, href@) is None && e == href_error(href@),
            },
    {
        if href.as_str().is_empty() {
            return Err(Error::StrWhitespaceError);
        }
        if href.as_str().get_char(0) == '#' {
            return Err(Error::StrWhitespaceError);
        }
        match parse_url_parts(href.as_str()) {
            Some(p) => Ok(p.normalized),
            None => match join_url(url.as_str(), href.as_str()) {
                Some(u) => Ok(u),
                None => Err(Error::UrlParseError),
            },
        }
    }

    /// Conditionally save the given url if it adheres to configured options,
    /// determined by the name and attributes of the element the url was
    /// extracted from.
    pub fn conditional_insert_url(
        &mut self,
        url: String,
        name: &String,
        rel: &Option<String>,
        as_attr: &Option<String>,
    )
        requires
            old(self).urldb.wf(),
        ensures
            final(self).urldb.wf(),
            final(self).opts == old(self).opts,
            final(self).cur_depth == old(self).cur_depth,
            final(self).limiter == old(self).limiter,
            final(self).urldb@ == cond_insert_link(
                old(self).urldb@,
                url@,
                name@,
                opt_str_view(*rel),
                opt_str_view(*as_attr),
                old(self).opts.include_js,
                old(self).opts.include_css,
            ),
    {
        proof {
            reveal_strlit("a");
            reveal_strlit("link");
            reveal_strlit("stylesheet");
            reveal_strlit("script");
        }
        if url.as_str().is_empty() {
            return ;
        }
        let link_name: String = String::from_str("link");
        let a_name: String = String::from_str("a");
        if name.eq(&link_name) {
            let stylesheet_val: String = String::from_str("stylesheet");
            let script_val: String = String::from_str("script");
            let css_hit = self.opts.include_css && (match rel {
                Some(r) => r.eq(&stylesheet_val),
                None => false,
            });
            let js_hit = self.opts.include_js && (match as_attr {
                Some(a) => a.eq(&script_val),
                None => false,
            });
            if css_hit {
                self.urldb.cond_mark_unvisited(url.clone());
            }
            if js_hit {
                self.urldb.cond_mark_unvisited(url.clone());
            }
            proof {
                if css_hit && js_hit {
                    assert(old(self).urldb@.insert(url@, Status::Unvisited).dom().contains(url@));
                }
            }
        } else if name.eq(&a_name) {
            self.urldb.cond_mark_unvisited(url);
        }
    }

    /// Extract urls from an html document and record each as unvisited
    /// unless already known.
    pub fn urls_from_doc(&mut self, url: &String, document: &String)
        requires
            old(self).urldb.wf(),
        ensures
            final(self).urldb.wf(),
            final(self).opts == old(self).opts,
            final(self).cur_depth == old(self).cur_depth,
            final(self).limiter == old(self).limiter,
            final(self).urldb@ == insert_links(
                old(self).urldb@,
                url@,
                html_hrefs(document@),
                old(self).opts.include_js,
                old(self).opts.include_css,
            ),
    {
        let entries = html_href_entries(document);
        let ghost m0 = self.urldb@;
        let ghost hseq = html_hrefs(document@);
        let ghost js = self.opts.include_js;
        let ghost css = self.opts.include_css;
        let n = entries.len();
        let mut i: usize = 0;
        while i < n
            invariant
                self.urldb.wf(),
                n == entries.len(),
                entries@.map_values(|e: HrefEntry| e.view_tuple()) == hseq,
                i <= n,
                self.opts == old(self).opts,
                self.cur_depth == old(self).cur_depth,
                self.limiter == old(self).limiter,
                js == self.opts.include_js,
                css == self.opts.include_css,
                m0 == old(self).urldb@,
                self.urldb@ == insert_links(m0, url@, hseq.take(i as int), js, css),
            decreases n - i,
        {
            let e = &entries[i];
            proof {
                assert(hseq[i as int] == entries@[i as int].view_tuple());
            }
            match Self::url_from_href(url, &e.href) {
                Err(_) => {},
                Ok(u) => {
                    self.conditional_insert_url(u, &e.name, &e.rel, &e.as_attr);
                },
            }
            i += 1;
            proof {
                let pre = hseq.take(i - 1);
                let cur = hseq.take(i as int);
                assert(cur.drop_last() =~= pre);
                assert(cur.last() == hseq[i - 1]);
            }
        }
        proof {
            assert(hseq.take(n as int) =~= hseq);
        }
    }

    /// Record what a web fetch of the given (normalized) url came to: a
    /// fetched document marks the url visited and records every link of the
    /// page; a failure marks it errored; a cancelled fetch records nothing.
    /// Returns the document bytes for extraction, if any.
    pub fn record_web_outcome(&mut self, url: &String, outcome: FetchOutcome) -> (doc: Option<
        Vec<u8>,
    >)
        requires
            old(self).urldb.wf(),
        ensures
            final(self).urldb.wf(),
            final(self).opts == old(self).opts,
            final(self).cur_depth == old(self).cur_depth,
            final(self).limiter == old(self).limiter,
            match outcome {
                FetchOutcome::Cancelled => final(self).urldb@ == old(self).urldb@ && doc is None,
                FetchOutcome::Failed => final(self).urldb@ == old(self).urldb@.insert(
                    url@,
                    Status::Error,
                ) && doc is None,
                FetchOutcome::Fetched(b) => final(self).urldb@ == insert_links(
                    old(self).urldb@.insert(url@, Status::Visited),
                    url@,
                    html_hrefs(lossy_text(b@)),
                    old(self).opts.include_js,
                    old(self).opts.include_css,
                ) && doc == Some(b),
            },
    {
        match outcome {
            FetchOutcome::Cancelled => None,
            FetchOutcome::Failed => {
                self.urldb.mark_errored(url.clone());
                None
            },
            FetchOutcome::Fetched(bytes) => {
                let text = utf8_lossy(&bytes);
                self.urldb.mark_visited(url.clone());
                self.urls_from_doc(url, &text);
                Some(bytes)
            },
        }
    }

    /// Record what reading a local file came to: a full read marks the url
    /// visited and hands the bytes back for extraction; a failure marks it
    /// errored.
    pub fn record_local_file_outcome(&mut self, url: &String, outcome: FileOutcome) -> (doc: Option<
        Vec<u8>,
    >)
        requires
            old(self).urldb.wf(),
        ensures
            final(self).urldb.wf(),
            final(self).opts == old(self).opts,
            final(self).cur_depth == old(self).cur_depth,
            final(self).limiter == old(self).limiter,
            match outcome {
                FileOutcome::Failed => final(self).urldb@ == old(self).urldb@.insert(
                    url@,
                    Status::Error,
                ) && doc is None,
                FileOutcome::Read(b) => final(self).urldb@ == old(self).urldb@.insert(
                    url@,
                    Status::Visited,
                ) && doc == Some(b),
            },
    {
        match outcome {
            FileOutcome::Failed => {
                self.urldb.mark_errored(url.clone());
                None
            },
            FileOutcome::Read(bytes) => {
                self.urldb.mark_visited(url.clone());
                Some(bytes)
            },
        }
    }

    /// Record what enumerating a local directory came to: a failure marks
    /// the directory errored; otherwise each named child is recorded as
    /// unvisited unless already known, and the directory is re-marked
    /// visited once per named child, as the visit logic has always done.
    pub fn record_local_dir_outcome(&mut self, url: &String, outcome: &DirOutcome)
        requires
            old(self).urldb.wf(),
        ensures
            final(self).urldb.wf(),
            final(self).opts == old(self).opts,
            final(self).cur_depth == old(self).cur_depth,
            final(self).limiter == old(self).limiter,
            match outcome {
                DirOutcome::Failed => final(self).urldb@ == old(self).urldb@.insert(
                    url@,
                    Status::Error,
                ),
                DirOutcome::Listed(children) => final(self).urldb@ == insert_children(
                    old(self).urldb@,
                    url@,
                    children@.map_values(|c: Option<String>| opt_str_view(c)),
                ),
            },
    {
        match outcome {
            DirOutcome::Failed => {
                self.urldb.mark_errored(url.clone());
            },
            DirOutcome::Listed(children) => {
                let ghost m0 = self.urldb@;
                let ghost cseq = children@.map_values(|c: Option<String>| opt_str_view(c));
                let n = children.len();
                let mut i: usize = 0;
                while i < n
                    invariant
                        self.urldb.wf(),
                        n == children@.len(),
                        cseq == children@.map_values(|c: Option<String>| opt_str_view(c)),
                        i <= n,
                        self.opts == old(self).opts,
                        self.cur_depth == old(self).cur_depth,
                        self.limiter == old(self).limiter,
                        m0 == old(self).urldb@,
                        self.urldb@ == insert_children(m0, url@, cseq.take(i as int)),
                    decreases n - i,
                {
                    match &children[i] {
                        Some(c) => {
                            self.urldb.cond_mark_unvisited(c.clone());
                            self.urldb.mark_visited(url.clone());
                        },
                        None => {},
                    }
                    i += 1;
                    proof {
                        let pre = cseq.take(i - 1);
                        let cur = cseq.take(i as int);
                        assert(cur.drop_last() =~= pre);
                        assert(cur.last() == cseq[i - 1]);
                        assert(cseq[i - 1] == opt_str_view(children@[i - 1]));
                    }
                }
                proof {
                    assert(cseq.take(n as int) =~= cseq);
                }
            },
        }
    }
}

} // verus!
