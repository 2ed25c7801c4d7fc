//! Extraction of words from fetched documents: type sniffing, text
//! harvesting from html, Unicode word segmentation, length bounds, and the
//! configured filter chain, accumulated into the word store.

use vstd::prelude::*;
use vstd::string::StringExecFns;
use vstd::string::StrSliceExecFns;
use vstd::utf8::encode_utf8;
use unicode_segmentation::UnicodeSegmentation;

use crate::filter::FilterMode;
use crate::filter::filtered;
use crate::utils::lossy_text;
use crate::utils::utf8_lossy;
use crate::worddb::WordDb;

verus! {

/// Relies on infer::get and Type::mime_type: the MIME type sniffed from the
/// leading bytes of a buffer, a function of the bytes alone; None when no
/// known signature matches.
pub uninterp spec fn sniffed_mime(b: Seq<u8>) -> Option<Seq<char>>;

/// Relies on infer::get (see `sniffed_mime`).
#[verifier::external_body]
fn sniff_mime(buf: &Vec<u8>) -> (r: Option<String>)
    ensures
        match r {
            Some(m) => sniffed_mime(buf@) == Some(m@),
            None => sniffed_mime(buf@) is None,
        },
{
    infer::get(buf).map(|k| k.mime_type().to_string())
}

/// Relies on scraper::Html::parse_document and the node accessors: the text
/// nodes of a parsed document that have an element parent, in document
/// order, each with its parent's tag name, a function of the text alone.
pub uninterp spec fn html_text_nodes(doc: Seq<char>) -> Seq<(Seq<char>, Seq<char>)>;

/// One text node of a parsed document, with the tag name of its parent.
pub(crate) struct TextChunk {
    /// The parent element's tag name.
    pub parent: String,
    /// The text itself.
    pub text: String,
}

impl TextChunk {
    /// The pair of views this chunk carries.
    pub(crate) open spec fn view_pair(&self) -> (Seq<char>, Seq<char>) {
        (self.parent@, self.text@)
    }
}

/// Relies on scraper::Html::parse_document (see `html_text_nodes`).
#[verifier::external_body]
fn html_text_chunks(document: &String) -> (r: Vec<TextChunk>)
    ensures
        r@.map_values(|c: TextChunk| c.view_pair()) == html_text_nodes(document@),
{
    let doc = scraper::Html::parse_document(document);
    let mut out: Vec<TextChunk> = Vec::new();
    for d in doc.root_element().descendants() {
        if let scraper::node::Node::Text(t) = d.value() {
            if let Some(p) = d.parent() {
                if let Some(e) = p.value().as_element() {
                    out.push(TextChunk { parent: e.name().to_string(), text: t.text.to_string() });
                }
            }
        }
    }
    out
}

/// Relies on UnicodeSegmentation::unicode_words: the words of a text under
/// Unicode word segmentation, in order, a function of the text alone.
pub uninterp spec fn segmented_words(s: Seq<char>) -> Seq<Seq<char>>;

/// Relies on UnicodeSegmentation::unicode_words (see `segmented_words`).
#[verifier::external_body]
fn split_unicode_words(s: &str) -> (r: Vec<String>)
    ensures
        r@.map_values(|w: String| w@) == segmented_words(s@),
{
    s.unicode_words().map(|w| w.to_string()).collect()
}

/// Whether a text node is taken, by the lowercased tag name of its parent:
/// script text only when js is included, style text only when css is
/// included, all other text always.
pub open spec fn chunk_included(lower_parent: Seq<char>, include_js: bool, include_css: bool) -> bool {
    if lower_parent == "script"@ {
        include_js
    } else if lower_parent == "style"@ {
        include_css
    } else {
        true
    }
}

/// The text a document's nodes contribute, in order, under the include
/// options.
pub open spec fn gathered_text(
    nodes: Seq<(Seq<char>, Seq<char>)>,
    include_js: bool,
    include_css: bool,
) -> Seq<char>
    decreases nodes.len(),
{
    if nodes.len() == 0 {
        Seq::empty()
    } else {
        let prev = gathered_text(nodes.drop_last(), include_js, include_css);
        let e = nodes.last();
        if chunk_included(crate::filter::lower_of(e.0), include_js, include_css) {
            prev + e.1
        } else {
            prev
        }
    }
}

/// The word left after applying each filter in turn.
pub open spec fn apply_filters(filters: Seq<FilterMode>, w: Seq<char>) -> Seq<char>
    decreases filters.len(),
{
    if filters.len() == 0 {
        w
    } else {
        filtered(filters.last(), apply_filters(filters.drop_last(), w))
    }
}

/// The word store after harvesting a sequence of words: each word whose
/// UTF-8 length lies within the bounds is passed through the filter chain
/// and inserted.
pub open spec fn words_added(
    s0: Set<Seq<char>>,
    words: Seq<Seq<char>>,
    min_len: usize,
    max_len: usize,
    filters: Seq<FilterMode>,
) -> Set<Seq<char>>
    decreases words.len(),
{
    if words.len() == 0 {
        s0
    } else {
        let prev = words_added(s0, words.drop_last(), min_len, max_len, filters);
        let w = words.last();
        if min_len <= encode_utf8(w).len() as usize && encode_utf8(w).len() as usize
            <= max_len {
            prev.insert(apply_filters(filters, w))
        } else {
            prev
        }
    }
}

/// The word store after extracting one document: an html document (by
/// sniffed type) contributes the text of its nodes under the include
/// options; a buffer of unknown type is treated as plain text; any other
/// sniffed type contributes nothing.
pub open spec fn doc_words(
    s0: Set<Seq<char>>,
    b: Seq<u8>,
    min_len: usize,
    max_len: usize,
    include_js: bool,
    include_css: bool,
    filters: Seq<FilterMode>,
) -> Set<Seq<char>> {
    match sniffed_mime(b) {
        Some(m) => if m == "text/html"@ {
            words_added(
                s0,
                segmented_words(
                    gathered_text(html_text_nodes(lossy_text(b)), include_js, include_css),
                ),
                min_len,
                max_len,
                filters,
            )
        } else {
            s0
        },
        None => words_added(s0, segmented_words(lossy_text(b)), min_len, max_len, filters),
    }
}

/// Options used when building wordlists.
#[derive(Clone, Debug)]
pub struct ExtractOptions {
    /// Only save words greater than or equal to this value.
    pub min_word_length: usize,
    /// Only save words less than or equal to this value.
    pub max_word_length: usize,
    /// Include javascript from html pages.
    pub include_js: bool,
    /// Include css from html pages.
    pub include_css: bool,
    /// Filter strategy for words; multiple can be specified.
    pub filters: Vec<FilterMode>,
}

impl ExtractOptions {
    /// Returns a new ExtractOptions instance.
    pub fn new(
        min_word_length: usize,
        max_word_length: usize,
        include_js: bool,
        include_css: bool,
        filters: Vec<FilterMode>,
    ) -> (r: ExtractOptions)
        ensures
            r == (ExtractOptions {
                min_word_length,
                max_word_length,
                include_js,
                include_css,
                filters,
            }),
    {
        ExtractOptions { min_word_length, max_word_length, include_js, include_css, filters }
    }

    /// Returns the minimum word length for saving words to the wordlist.
    pub fn min_word_length(&self) -> (r: usize)
        ensures
            r == self.min_word_length,
    {
        self.min_word_length
    }

    /// Returns the maximum word length for saving words to the wordlist.
    pub fn max_word_length(&self) -> (r: usize)
        ensures
            r == self.max_word_length,
    {
        self.max_word_length
    }

    /// Returns whether or not configuration dictates to include js.
    pub fn include_js(&self) -> (r: bool)
        ensures
            r == self.include_js,
    {
        self.include_js
    }

    /// Returns whether or not configuration dictates to include css.
    pub fn include_css(&self) -> (r: bool)
        ensures
            r == self.include_css,
    {
        self.include_css
    }

    /// Returns the configured filter modes for discovered words.
    pub fn filters(&self) -> (r: &Vec<FilterMode>)
        ensures
            r == &self.filters,
    {
        &self.filters
    }
}

/// Extracts words from documents.
pub struct Extractor {
    /// The extraction options.
    pub opts: ExtractOptions,
    /// The store the extracted words accumulate in.
    pub words: WordDb,
}

impl Extractor {
    /// Returns a new Extractor instance.
    pub fn new(opts: ExtractOptions, words: WordDb) -> (r: Extractor)
        ensures
            r.opts == opts,
            r.words == words,
    {
        Extractor { opts, words }
    }

    /// Filter text based on configured filters and capture resulting words.
    fn filter_text(&mut self, text: &str)
        requires
            old(self).words.wf(),
        ensures
            final(self).words.wf(),
            final(self).opts == old(self).opts,
            final(self).words@ == words_added(
                old(self).words@,
                segmented_words(text@),
                old(self).opts.min_word_length,
                old(self).opts.max_word_length,
                old(self).opts.filters@,
            ),
    {
        let words = split_unicode_words(text);
        let ghost wseq = segmented_words(text@);
        let ghost s0 = self.words@;
        let n = words.len();
        let mut i: usize = 0;
        while i < n
            invariant
                self.words.wf(),
                n == words.len(),
                words@.map_values(|w: String| w@) == wseq,
                i <= n,
                self.opts == old(self).opts,
                s0 == old(self).words@,
                self.words@ == words_added(
                    s0,
                    wseq.take(i as int),
                    self.opts.min_word_length,
                    self.opts.max_word_length,
                    self.opts.filters@,
                ),
            decreases n - i,
        {
            proof {
                assert(wseq[i as int] == words@[i as int]@);
            }
            let w = &words[i];
            let len = w.as_str().len();
            if len >= self.opts.min_word_length && len <= self.opts.max_word_length {
                let mut fintext = w.clone();
                let ghost w0 = fintext@;
                let nf = self.opts.filters.len();
                let mut j: usize = 0;
                while j < nf
                    invariant
                        nf == self.opts.filters.len(),
                        j <= nf,
                        self.opts == old(self).opts,
                        fintext@ == apply_filters(self.opts.filters@.take(j as int), w0),
                    decreases nf - j,
                {
                    let mode = self.opts.filters[j];
                    mode.filter_str(&mut fintext);
                    j += 1;
                    proof {
                        let fs = self.opts.filters@;
                        assert(fs.take(j as int).drop_last() =~= fs.take(j - 1));
                    }
                }
                proof {
                    assert(self.opts.filters@.take(nf as int) =~= self.opts.filters@);
                }
                self.words.insert(fintext);
            }
            i += 1;
            proof {
                assert(wseq.take(i as int).drop_last() =~= wseq.take(i - 1));
            }
        }
        proof {
            assert(wseq.take(n as int) =~= wseq);
        }
    }

    /// Extract words from the provided document, treating the buffer as
    /// html: text under script and style tags is taken only when the
    /// options say so.
    fn words_from_html(&mut self, buf: &Vec<u8>)
        requires
            old(self).words.wf(),
        ensures
            final(self).words.wf(),
            final(self).opts == old(self).opts,
            final(self).words@ == words_added(
                old(self).words@,
                segmented_words(
                    gathered_text(
                        html_text_nodes(lossy_text(buf@)),
                        old(self).opts.include_js,
                        old(self).opts.include_css,
                    ),
                ),
                old(self).opts.min_word_length,
                old(self).opts.max_word_length,
                old(self).opts.filters@,
            ),
    {
        let s = utf8_lossy(buf);
        let chunks = html_text_chunks(&s);
        let ghost nseq = html_text_nodes(s@);
        let mut fin = String::new();
        let script_name: String = String::from_str("script");
        let style_name: String = String::from_str("style");
        let n = chunks.len();
        let mut i: usize = 0;
        while i < n
            invariant
                n == chunks.len(),
                chunks@.map_values(|c: TextChunk| c.view_pair()) == nseq,
                i <= n,
                self == old(self),
                script_name@ == "script"@,
                style_name@ == "style"@,
                fin@ == gathered_text(
                    nseq.take(i as int),
                    self.opts.include_js,
                    self.opts.include_css,
                ),
            decreases n - i,
        {
            proof {
                assert(nseq[i as int] == chunks@[i as int].view_pair());
            }
            let c = &chunks[i];
            let lower = c.parent.as_str().to_lowercase();
            let included = if lower.eq(&script_name) {
                self.opts.include_js
            } else if lower.eq(&style_name) {
                self.opts.include_css
            } else {
                true
            };
            if included {
                fin.append(c.text.as_str());
            }
            i += 1;
            proof {
                assert(nseq.take(i as int).drop_last() =~= nseq.take(i - 1));
            }
        }
        proof {
            assert(nseq.take(n as int) =~= nseq);
        }
        self.filter_text(fin.as_str());
    }

    /// Extract words from the provided document, treating the buffer as
    /// plain text.
    fn words_from_text(&mut self, buf: &Vec<u8>)
        requires
            old(self).words.wf(),
        ensures
            final(self).words.wf(),
            final(self).opts == old(self).opts,
            final(self).words@ == words_added(
                old(self).words@,
                segmented_words(lossy_text(buf@)),
                old(self).opts.min_word_length,
                old(self).opts.max_word_length,
                old(self).opts.filters@,
            ),
    {
        let s = utf8_lossy(buf);
        self.filter_text(s.as_str());
    }

    /// Extract words from the provided document: an html document (by
    /// sniffed type) through the html path, a buffer of unknown type as
    /// plain text, any other type not at all.
    pub fn words_from_doc(&mut self, buf: &Vec<u8>)
        requires
            old(self).words.wf(),
        ensures
            final(self).words.wf(),
            final(self).opts == old(self).opts,
            final(self).words@ == doc_words(
                old(self).words@,
                buf@,
                old(self).opts.min_word_length,
                old(self).opts.max_word_length,
                old(self).opts.include_js,
                old(self).opts.include_css,
                old(self).opts.filters@,
            ),
    {
        match sniff_mime(buf) {
            Some(kind) => {
                let html_mime: String = String::from_str("text/html");
                if kind.eq(&html_mime) {
                    self.words_from_html(buf);
                }
            },
            None => {
                self.words_from_text(buf);
            },
        }
    }
}

} // verus!
