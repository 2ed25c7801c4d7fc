use wdict::doc_queue::DocQueue;
use wdict::extract::ExtractOptions;
use wdict::extract::Extractor;
use wdict::filter::FilterMode;
use wdict::worddb::WordDb;

fn extract(body: &[u8], opts: ExtractOptions) -> Vec<String> {
    let mut e = Extractor::new(opts, WordDb::new());
    e.words_from_doc(&body.to_vec());
    let mut words = e.words.iter();
    words.sort();
    words
}

#[test]
fn test_words_from_html_doc() {
    let body = b"<html><body><p>alpha beta alpha</p></body></html>";
    let opts = ExtractOptions::new(1, usize::MAX, false, false, vec![]);
    assert_eq!(extract(body, opts), vec!["alpha".to_string(), "beta".to_string()]);
}

#[test]
fn test_script_and_style_follow_options() {
    let body = b"<html><head><style> margins </style><script> scripted </script></head><body> prose </body></html>";
    let opts = ExtractOptions::new(1, usize::MAX, false, false, vec![]);
    assert_eq!(extract(body, opts), vec!["prose".to_string()]);
    let opts = ExtractOptions::new(1, usize::MAX, true, true, vec![]);
    assert_eq!(
        extract(body, opts),
        vec!["margins".to_string(), "prose".to_string(), "scripted".to_string()]
    );
}

#[test]
fn test_word_length_bounds() {
    let body = b"<html><body>a bb ccc dddd</body></html>";
    let opts = ExtractOptions::new(2, 3, false, false, vec![]);
    assert_eq!(extract(body, opts), vec!["bb".to_string(), "ccc".to_string()]);
}

#[test]
fn test_filters_apply_in_order() {
    let body = b"<html><body>MiXeD case</body></html>";
    let opts = ExtractOptions::new(1, usize::MAX, false, false, vec![FilterMode::ToLower]);
    assert_eq!(extract(body, opts), vec!["case".to_string(), "mixed".to_string()]);
}

#[test]
fn test_plain_text_bytes() {
    let body = b"plain text words";
    let opts = ExtractOptions::new(1, usize::MAX, false, false, vec![]);
    assert_eq!(
        extract(body, opts),
        vec!["plain".to_string(), "text".to_string(), "words".to_string()]
    );
}

#[test]
fn test_non_text_doc_is_ignored() {
    // a PNG signature sniffs to an image type, which contributes nothing
    let body = [0x89u8, 0x50, 0x4e, 0x47, 0x0d, 0x0a, 0x1a, 0x0a, 0, 0, 0, 0];
    let opts = ExtractOptions::new(1, usize::MAX, false, false, vec![]);
    assert_eq!(extract(&body, opts), Vec::<String>::new());
}

#[test]
fn test_worddb_dedups() {
    let mut db = WordDb::new();
    db.insert("word".to_string());
    db.insert("word".to_string());
    db.insert("other".to_string());
    assert_eq!(db.len(), 2);
    let mut words = db.iter();
    words.sort();
    assert_eq!(words, vec!["other".to_string(), "word".to_string()]);
}

#[test]
fn test_doc_queue_is_fifo() {
    let mut q = DocQueue::new();
    assert!(q.is_empty());
    assert_eq!(q.pop(), None);
    q.push(Some(b"first".to_vec()));
    q.push(Some(b"second".to_vec()));
    q.push(None);
    assert!(!q.is_empty());
    assert_eq!(q.pop(), Some(b"first".to_vec()));
    assert_eq!(q.pop(), Some(b"second".to_vec()));
    assert_eq!(q.pop(), None);
    assert!(q.is_empty());
}

#[test]
fn test_extract_options_getters() {
    let opts = ExtractOptions::new(2, 9, true, false, vec![FilterMode::Decancer]);
    assert_eq!(opts.min_word_length(), 2);
    assert_eq!(opts.max_word_length(), 9);
    assert!(opts.include_js());
    assert!(!opts.include_css());
    assert_eq!(opts.filters(), &vec![FilterMode::Decancer]);
}
