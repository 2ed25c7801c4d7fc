//! Command-line-level types, free of any argument-parsing machinery: the
//! themed starting URLs and the argument enums, decoupled from the library's
//! own modes so a front end never touches them directly.

use vstd::prelude::*;
use vstd::string::StringExecFns;

use crate::filter::FilterMode;
use crate::site::SitePolicy;

verus! {

/// Pre-canned theme URLs to start crawling from (for fun).
#[derive(Copy, Clone, Debug, PartialEq, Eq, Structural)]
pub enum Theme {
    /// Star Wars themed URL.
    StarWars,
    /// Tolkien themed URL.
    Tolkien,
    /// Witcher themed URL.
    Witcher,
    /// Pokemon themed URL.
    Pokemon,
    /// Cowboy Bebop themed URL.
    Bebop,
    /// Greek Mythology themed URL.
    Greek,
    /// Greek and Roman Mythology themed URL.
    GrecoRoman,
    /// H.P. Lovecraft themed URL.
    Lovecraft,
}

/// The URL each theme stands for.
pub open spec fn theme_url(t: Theme) -> Seq<char> {
    match t {
        Theme::StarWars => "https://www.starwars.com/databank"@,
        Theme::Tolkien => "https://www.quicksilver899.com/Tolkien/Tolkien_Dictionary.html"@,
        Theme::Witcher => "https://witcher.fandom.com/wiki/Elder_Speech"@,
        Theme::Pokemon => "https://www.smogon.com"@,
        Theme::Bebop => "https://cowboybebop.fandom.com/wiki/Cowboy_Bebop"@,
        Theme::Greek => "https://www.theoi.com"@,
        Theme::GrecoRoman => "https://www.gutenberg.org/files/22381/22381-h/22381-h.htm"@,
        Theme::Lovecraft => "https://www.hplovecraft.com"@,
    }
}

impl Theme {
    /// Get URL string for the theme.
    pub fn as_str(&self) -> (r: &str)
        ensures
            r@ == theme_url(*self),
    {
        match self {
            Theme::StarWars => "https://www.starwars.com/databank",
            Theme::Tolkien => "https://www.quicksilver899.com/Tolkien/Tolkien_Dictionary.html",
            Theme::Witcher => "https://witcher.fandom.com/wiki/Elder_Speech",
            Theme::Pokemon => "https://www.smogon.com",
            Theme::Bebop => "https://cowboybebop.fandom.com/wiki/Cowboy_Bebop",
            Theme::Greek => "https://www.theoi.com",
            Theme::GrecoRoman => "https://www.gutenberg.org/files/22381/22381-h/22381-h.htm",
            Theme::Lovecraft => "https://www.hplovecraft.com",
        }
    }
}

/// Filter strategy for words, as given on a command line; exists just to
/// de-couple the library from the argument parser.
#[derive(Copy, Clone, Debug, PartialEq, Eq, Structural)]
pub enum FilterArg {
    /// Transform unicode to ASCII by transliteration.
    Deunicode,
    /// Cure unicode of confusable characters.
    Decancer,
    /// Ignore words that consist of all numbers.
    AllNumbers,
    /// Ignore words that contain any number.
    AnyNumbers,
    /// Ignore words that contain no numbers.
    NoNumbers,
    /// Keep only words that exclusively contain numbers.
    OnlyNumbers,
    /// Ignore words that consist of all ascii characters.
    AllAscii,
    /// Ignore words that contain any ascii character.
    AnyAscii,
    /// Ignore words that contain no ascii characters.
    NoAscii,
    /// Keep only words that exclusively contain ascii characters.
    OnlyAscii,
    /// Leave the word as-is.
    AsIs,
}

/// The filter mode each argument stands for.
pub open spec fn filter_mode_of(f: FilterArg) -> FilterMode {
    match f {
        FilterArg::Deunicode => FilterMode::Deunicode,
        FilterArg::Decancer => FilterMode::Decancer,
        FilterArg::AllNumbers => FilterMode::AllNumbers,
        FilterArg::AnyNumbers => FilterMode::AnyNumbers,
        FilterArg::NoNumbers => FilterMode::NoNumbers,
        FilterArg::OnlyNumbers => FilterMode::OnlyNumbers,
        FilterArg::AllAscii => FilterMode::AllAscii,
        FilterArg::AnyAscii => FilterMode::AnyAscii,
        FilterArg::NoAscii => FilterMode::NoAscii,
        FilterArg::OnlyAscii => FilterMode::OnlyAscii,
        FilterArg::AsIs => FilterMode::AsIs,
    }
}

/// The name each filter argument is written as.
pub open spec fn filter_arg_name(f: FilterArg) -> Seq<char> {
    match f {
        FilterArg::Deunicode => "deunicode"@,
        FilterArg::Decancer => "decancer"@,
        FilterArg::AllNumbers => "all-numbers"@,
        FilterArg::AnyNumbers => "any-numbers"@,
        FilterArg::NoNumbers => "no-numbers"@,
        FilterArg::OnlyNumbers => "only-numbers"@,
        FilterArg::AllAscii => "all-ascii"@,
        FilterArg::AnyAscii => "any-ascii"@,
        FilterArg::NoAscii => "no-ascii"@,
        FilterArg::OnlyAscii => "only-ascii"@,
        FilterArg::AsIs => "none"@,
    }
}

/// The filter argument a name denotes, if any; the inverse of
/// `filter_arg_name`.
pub open spec fn filter_arg_of_name(s: Seq<char>) -> Option<FilterArg> {
    if s == "deunicode"@ {
        Some(FilterArg::Deunicode)
    } else if s == "decancer"@ {
        Some(FilterArg::Decancer)
    } else if s == "all-numbers"@ {
        Some(FilterArg::AllNumbers)
    } else if s == "any-numbers"@ {
        Some(FilterArg::AnyNumbers)
    } else if s == "no-numbers"@ {
        Some(FilterArg::NoNumbers)
    } else if s == "only-numbers"@ {
        Some(FilterArg::OnlyNumbers)
    } else if s == "all-ascii"@ {
        Some(FilterArg::AllAscii)
    } else if s == "any-ascii"@ {
        Some(FilterArg::AnyAscii)
    } else if s == "no-ascii"@ {
        Some(FilterArg::NoAscii)
    } else if s == "only-ascii"@ {
        Some(FilterArg::OnlyAscii)
    } else if s == "none"@ {
        Some(FilterArg::AsIs)
    } else {
        None
    }
}

impl FilterArg {
    /// Get filter mode from arg; exists just to de-couple lib from the
    /// argument parser.
    pub fn to_mode(&self) -> (r: FilterMode)
        ensures
            r == filter_mode_of(*self),
    {
        match self {
            FilterArg::Deunicode => FilterMode::Deunicode,
            FilterArg::Decancer => FilterMode::Decancer,
            FilterArg::AllNumbers => FilterMode::AllNumbers,
            FilterArg::AnyNumbers => FilterMode::AnyNumbers,
            FilterArg::NoNumbers => FilterMode::NoNumbers,
            FilterArg::OnlyNumbers => FilterMode::OnlyNumbers,
            FilterArg::AllAscii => FilterMode::AllAscii,
            FilterArg::AnyAscii => FilterMode::AnyAscii,
            FilterArg::NoAscii => FilterMode::NoAscii,
            FilterArg::OnlyAscii => FilterMode::OnlyAscii,
            FilterArg::AsIs => FilterMode::AsIs,
        }
    }

    /// Convert a Vector of FilterArg to a Vector of FilterMode.
    pub fn to_modes(v: &Vec<FilterArg>) -> (r: Vec<FilterMode>)
        ensures
            r@ == v@.map_values(|f: FilterArg| filter_mode_of(f)),
    {
        let n = v.len();
        let mut out: Vec<FilterMode> = Vec::new();
        let mut i: usize = 0;
        while i < n
            invariant
                n == v@.len(),
                i <= n,
                out@.len() == i,
                forall|j: int| 0 <= j < i ==> out@[j] == filter_mode_of(v@[j]),
            decreases n - i,
        {
            out.push(v[i].to_mode());
            i += 1;
        }
        proof {
            assert(out@ =~= v@.map_values(|f: FilterArg| filter_mode_of(f)));
        }
        out
    }

    /// The name this argument is written as.
    pub fn as_str(&self) -> (r: &str)
        ensures
            r@ == filter_arg_name(*self),
    {
        match self {
            FilterArg::Deunicode => "deunicode",
            FilterArg::Decancer => "decancer",
            FilterArg::AllNumbers => "all-numbers",
            FilterArg::AnyNumbers => "any-numbers",
            FilterArg::NoNumbers => "no-numbers",
            FilterArg::OnlyNumbers => "only-numbers",
            FilterArg::AllAscii => "all-ascii",
            FilterArg::AnyAscii => "any-ascii",
            FilterArg::NoAscii => "no-ascii",
            FilterArg::OnlyAscii => "only-ascii",
            FilterArg::AsIs => "none",
        }
    }

    /// The argument a name denotes, if any.
    pub fn from_name(s: &str) -> (r: Option<FilterArg>)
        ensures
            r == filter_arg_of_name(s@),
    {
        let name: String = s.to_owned();
        if name.eq(&String::from_str("deunicode")) {
            Some(FilterArg::Deunicode)
        } else if name.eq(&String::from_str("decancer")) {
            Some(FilterArg::Decancer)
        } else if name.eq(&String::from_str("all-numbers")) {
            Some(FilterArg::AllNumbers)
        } else if name.eq(&String::from_str("any-numbers")) {
            Some(FilterArg::AnyNumbers)
        } else if name.eq(&String::from_str("no-numbers")) {
            Some(FilterArg::NoNumbers)
        } else if name.eq(&String::from_str("only-numbers")) {
            Some(FilterArg::OnlyNumbers)
        } else if name.eq(&String::from_str("all-ascii")) {
            Some(FilterArg::AllAscii)
        } else if name.eq(&String::from_str("any-ascii")) {
            Some(FilterArg::AnyAscii)
        } else if name.eq(&String::from_str("no-ascii")) {
            Some(FilterArg::NoAscii)
        } else if name.eq(&String::from_str("only-ascii")) {
            Some(FilterArg::OnlyAscii)
        } else if name.eq(&String::from_str("none")) {
            Some(FilterArg::AsIs)
        } else {
            None
        }
    }
}

/// Site policy for discovered URLs, as given on a command line.
#[derive(Copy, Clone, Debug, PartialEq, Eq, Structural)]
pub enum SitePolicyArg {
    /// Allow crawling URLs, only if the domain exactly matches.
    Same,
    /// Allow crawling URLs if they are the same domain or subdomains.
    Subdomain,
    /// Allow crawling URLs if they are the same domain or a sibling.
    Sibling,
    /// Allow crawling all URLs, regardless of domain.
    All,
}

/// The site policy each argument stands for.
pub open spec fn site_policy_of(a: SitePolicyArg) -> SitePolicy {
    match a {
        SitePolicyArg::Same => SitePolicy::Same,
        SitePolicyArg::Subdomain => SitePolicy::Subdomain,
        SitePolicyArg::Sibling => SitePolicy::Sibling,
        SitePolicyArg::All => SitePolicy::All,
    }
}

/// The name each site policy argument is written as.
pub open spec fn site_policy_arg_name(a: SitePolicyArg) -> Seq<char> {
    match a {
        SitePolicyArg::Same => "same"@,
        SitePolicyArg::Subdomain => "subdomain"@,
        SitePolicyArg::Sibling => "sibling"@,
        SitePolicyArg::All => "all"@,
    }
}

/// The site policy argument a name denotes, if any.
pub open spec fn site_policy_arg_of_name(s: Seq<char>) -> Option<SitePolicyArg> {
    if s == "same"@ {
        Some(SitePolicyArg::Same)
    } else if s == "subdomain"@ {
        Some(SitePolicyArg::Subdomain)
    } else if s == "sibling"@ {
        Some(SitePolicyArg::Sibling)
    } else if s == "all"@ {
        Some(SitePolicyArg::All)
    } else {
        None
    }
}

impl SitePolicyArg {
    /// Get site policy from arg; exists just to de-couple lib from the
    /// argument parser.
    pub fn to_mode(&self) -> (r: SitePolicy)
        ensures
            r == site_policy_of(*self),
    {
        match self {
            SitePolicyArg::Same => SitePolicy::Same,
            SitePolicyArg::Subdomain => SitePolicy::Subdomain,
            SitePolicyArg::Sibling => SitePolicy::Sibling,
            SitePolicyArg::All => SitePolicy::All,
        }
    }

    /// The name this argument is written as.
    pub fn as_str(&self) -> (r: &str)
        ensures
            r@ == site_policy_arg_name(*self),
    {
        match self {
            SitePolicyArg::Same => "same",
            SitePolicyArg::Subdomain => "subdomain",
            SitePolicyArg::Sibling => "sibling",
            SitePolicyArg::All => "all",
        }
    }

    /// The argument a name denotes, if any.
    pub fn from_name(s: &str) -> (r: Option<SitePolicyArg>)
        ensures
            r == site_policy_arg_of_name(s@),
    {
        let name: String = s.to_owned();
        if name.eq(&String::from_str("same")) {
            Some(SitePolicyArg::Same)
        } else if name.eq(&String::from_str("subdomain")) {
            Some(SitePolicyArg::Subdomain)
        } else if name.eq(&String::from_str("sibling")) {
            Some(SitePolicyArg::Sibling)
        } else if name.eq(&String::from_str("all")) {
            Some(SitePolicyArg::All)
        } else {
            None
        }
    }
}

/// Target to initiate crawling.
#[derive(Clone, Debug)]
pub struct Target {
    /// URL to start crawling from.
    pub url: Option<String>,
    /// Pre-canned theme URL to start crawling from.
    pub theme: Option<Theme>,
    /// Local file path to start crawling from.
    pub path: Option<String>,
    /// Resume crawling from a previous run, favoring fresh arguments.
    pub resume: bool,
    /// Resume crawling from a previous run, observing the persisted
    /// arguments.
    pub resume_strict: bool,
}

/// The command-line options a run is started with.
#[derive(Clone, Debug)]
pub struct Cli {
    /// Target to initiate crawling.
    pub target: Target,
    /// Limit the depth of crawling URLs.
    pub depth: usize,
    /// Only save words greater than or equal to this value.
    pub min_word_length: usize,
    /// Only save words less than or equal to this value.
    pub max_word_length: usize,
    /// Include javascript from script tags and URLs.
    pub include_js: bool,
    /// Include CSS from style tags and URLs.
    pub include_css: bool,
    /// Filter strategies for words.
    pub filters: Vec<FilterArg>,
    /// Site policy for discovered URLs.
    pub site_policy: SitePolicyArg,
    /// Number of requests to make per second.
    pub req_per_sec: u64,
    /// Limit the number of concurrent requests to this value.
    pub limit_concurrent: usize,
    /// File to write the dictionary to.
    pub output: String,
    /// Append extracted words to an existing dictionary.
    pub append: bool,
    /// Write crawl state to a file.
    pub output_state: bool,
    /// File to write state to.
    pub state_file: String,
}

} // verus!
