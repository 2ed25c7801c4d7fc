use wdict::urldb::UrlDb;

#[test]
fn test_mark_overwrites() {
    let mut db = UrlDb::new();
    db.mark_unvisited("https://a.com/".to_string());
    assert_eq!(db.num_unvisited_urls(), 1);
    db.mark_visited("https://a.com/".to_string());
    assert_eq!(db.num_unvisited_urls(), 0);
    assert_eq!(db.num_visited_urls(), 1);
}

#[test]
fn test_cond_mark_never_regresses() {
    let mut db = UrlDb::new();
    db.mark_visited("https://a.com/".to_string());
    db.cond_mark_unvisited("https://a.com/".to_string());
    assert_eq!(db.num_visited_urls(), 1);
    assert_eq!(db.num_unvisited_urls(), 0);
    db.cond_mark_unvisited("https://b.com/".to_string());
    assert_eq!(db.num_unvisited_urls(), 1);
    db.cond_mark_errored("https://b.com/".to_string());
    assert_eq!(db.num_unvisited_urls(), 1);
    assert_eq!(db.num_errored_urls(), 0);
}

#[test]
fn test_stage_unvisited_urls() {
    let mut db = UrlDb::new();
    db.mark_unvisited("a".to_string());
    db.mark_visited("b".to_string());
    db.mark_unvisited("c".to_string());
    db.stage_unvisited_urls();
    assert_eq!(db.num_staged_urls(), 2);
    assert_eq!(db.num_unvisited_urls(), 0);
    assert_eq!(db.num_visited_urls(), 1);
    let mut staged = db.staged_urls_iter();
    staged.sort();
    assert_eq!(staged, vec!["a".to_string(), "c".to_string()]);
    assert_eq!(db.visited_urls_iter(), vec!["b".to_string()]);
}

#[test]
fn test_partition_listings() {
    let mut db = UrlDb::new();
    db.mark_skipped("s".to_string());
    db.mark_errored("e".to_string());
    db.mark_visited("v".to_string());
    db.mark_unvisited("u".to_string());
    assert_eq!(db.skipped_urls(), vec!["s".to_string()]);
    assert_eq!(db.errored_urls(), vec!["e".to_string()]);
    assert_eq!(db.visited_urls(), vec!["v".to_string()]);
    assert_eq!(db.unvisited_urls(), vec!["u".to_string()]);
    assert_eq!(db.num_skipped_urls(), 1);
    assert_eq!(db.num_errored_urls(), 1);
}
