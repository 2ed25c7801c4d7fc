use wdict::filter::FilterMode;
use wdict::filter::filter_all_numeric;
use wdict::filter::filter_any_numeric;
use wdict::filter::flag_numeric_chars;
use wdict::filter::ignore_all_ascii;
use wdict::filter::ignore_all_numeric;
use wdict::filter::ignore_any_ascii;
use wdict::filter::ignore_any_numeric;
use wdict::filter::ignore_no_ascii;
use wdict::filter::ignore_no_numeric;
use wdict::filter::keep_only_ascii;
use wdict::filter::keep_only_numeric;
use wdict::filter::filter_to_lower;
use wdict::filter::filter_to_upper;
use wdict::filter::ignore_all_lowercase;
use wdict::filter::ignore_any_uppercase;
use wdict::filter::keep_only_lowercase;

#[test]
fn test_filter_all_numeric() {
    assert_eq!(filter_all_numeric("11"), "".to_string());
    assert_eq!(filter_all_numeric("a1"), "a1".to_string());
    assert_eq!(filter_all_numeric("ab"), "ab".to_string());
    assert_eq!(filter_all_numeric(""), "".to_string());
}

#[test]
fn test_filter_any_numeric() {
    assert_eq!(filter_any_numeric("11"), "".to_string());
    assert_eq!(filter_any_numeric("a1"), "".to_string());
    assert_eq!(filter_any_numeric("ab"), "ab".to_string());
    assert_eq!(filter_any_numeric(""), "".to_string());
}

fn run(f: fn(&mut String), input: &str) -> String {
    let mut s = input.to_string();
    f(&mut s);
    s
}

#[test]
fn test_ignore_numeric_family() {
    assert_eq!(run(ignore_all_numeric, "11"), "");
    assert_eq!(run(ignore_all_numeric, "a1"), "a1");
    assert_eq!(run(ignore_all_numeric, "ab"), "ab");
    assert_eq!(run(ignore_all_numeric, ""), "");
    assert_eq!(run(ignore_any_numeric, "11"), "");
    assert_eq!(run(ignore_any_numeric, "a1"), "");
    assert_eq!(run(ignore_any_numeric, "ab"), "ab");
    assert_eq!(run(ignore_no_numeric, "11"), "11");
    assert_eq!(run(ignore_no_numeric, "a1"), "a1");
    assert_eq!(run(ignore_no_numeric, "ab"), "");
    assert_eq!(run(keep_only_numeric, "11"), "11");
    assert_eq!(run(keep_only_numeric, "a1"), "");
    assert_eq!(run(keep_only_numeric, "ab"), "");
}

#[test]
fn test_ascii_family() {
    assert_eq!(run(ignore_all_ascii, "abc"), "");
    assert_eq!(run(ignore_all_ascii, "\u{2764}_\u{2764}"), "\u{2764}_\u{2764}");
    assert_eq!(run(ignore_any_ascii, "\u{2764}_\u{2764}"), "");
    assert_eq!(run(ignore_any_ascii, "\u{2764}\u{2764}\u{2764}"), "\u{2764}\u{2764}\u{2764}");
    assert_eq!(run(ignore_no_ascii, "\u{2764}\u{2764}\u{2764}"), "");
    assert_eq!(run(ignore_no_ascii, "abc"), "abc");
    assert_eq!(run(keep_only_ascii, "abc"), "abc");
    assert_eq!(run(keep_only_ascii, "\u{e9}ala"), "");
}

#[test]
fn test_case_family() {
    assert_eq!(run(filter_to_lower, "Aa"), "aa");
    assert_eq!(run(filter_to_lower, "A1"), "a1");
    assert_eq!(run(filter_to_upper, "Aa"), "AA");
    assert_eq!(run(filter_to_upper, "21"), "21");
    assert_eq!(run(ignore_all_lowercase, "aaa"), "");
    assert_eq!(run(ignore_all_lowercase, "aAa"), "aAa");
    assert_eq!(run(ignore_any_uppercase, "aAa"), "");
    assert_eq!(run(ignore_any_uppercase, "aaa"), "aaa");
    assert_eq!(run(keep_only_lowercase, "aaa"), "aaa");
    assert_eq!(run(keep_only_lowercase, "aAa"), "");
}

#[test]
fn test_filter_str_dispatch() {
    let mut s = "HeLLo".to_string();
    FilterMode::ToLower.filter_str(&mut s);
    assert_eq!(s, "hello");
    let mut s = "123".to_string();
    FilterMode::AllNumbers.filter_str(&mut s);
    assert_eq!(s, "");
    let mut s = "word".to_string();
    FilterMode::AsIs.filter_str(&mut s);
    assert_eq!(s, "word");
}

#[test]
fn test_filter_deunicode() {
    let mut s = "\u{e9}ala".to_string();
    FilterMode::Deunicode.filter_str(&mut s);
    assert_eq!(s, "eala");
}

#[test]
fn test_filter_decancer() {
    let mut s = "v\u{ff25}\u{24e1}\u{1d502} \u{1d53d}\u{1d54c}\u{147}\u{2115}\u{ff59}".to_string();
    FilterMode::Decancer.filter_str(&mut s);
    assert_eq!(s, "very funny");
}

#[test]
fn test_flag_numeric_chars() {
    let s = "a1".to_string();
    assert_eq!(flag_numeric_chars(&s), vec![false, true]);
}
