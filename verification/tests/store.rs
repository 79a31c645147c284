use sitegen::article::Article;
use sitegen::error::SiteError;
use sitegen::store::ArticleStore;
use sitegen::time::Timestamp;

fn article(slug: &str, secs: i64, nanos: u32) -> Article {
    Article::new(
        slug.to_string(),
        Timestamp { secs, nanos },
        Timestamp { secs: 0, nanos: 0 },
        vec![],
        format!("<p>{}</p>", slug),
    )
}

fn slugs(articles: &Vec<&Article>) -> Vec<String> {
    articles.iter().map(|a| a.slug().clone()).collect()
}

#[test]
fn new_store_is_empty() {
    let store = ArticleStore::new();
    assert_eq!(store.len(), 0);
    assert!(store.get(0).is_none());
    assert!(store.chronological().is_empty());
    assert!(store.chronological_order().is_empty());
}

#[test]
fn store_keeps_the_order_of_arrival() {
    let mut store = ArticleStore::new();
    assert_eq!(store.insert(article("b", 2, 0)), Ok(()));
    assert_eq!(store.insert(article("a", 1, 0)), Ok(()));
    assert_eq!(store.len(), 2);
    assert_eq!(store.get(0).unwrap().slug(), "b");
    assert_eq!(store.get(1).unwrap().slug(), "a");
    assert!(store.get(2).is_none());
    assert!(store.contains_slug("a"));
    assert!(!store.contains_slug("c"));
}

#[test]
fn duplicate_slug_is_refused_and_named() {
    let mut store = ArticleStore::new();
    assert_eq!(store.insert(article("a", 1, 0)), Ok(()));
    assert_eq!(store.insert(article("b", 2, 0)), Ok(()));
    assert_eq!(store.insert(article("a", 3, 0)), Err(SiteError::DuplicateSlug("a".to_string())));
    assert_eq!(store.len(), 2);
    assert_eq!(store.get(0).unwrap().created_at(), Timestamp { secs: 1, nanos: 0 });
}

#[test]
fn chronological_order_ascends() {
    let mut store = ArticleStore::new();
    for (slug, secs, nanos) in [("c", 3, 0), ("a", 1, 5), ("d", -4, 0), ("b", 1, 4)] {
        store.insert(article(slug, secs, nanos)).unwrap();
    }
    assert_eq!(store.chronological_order(), vec![2, 3, 1, 0]);
    assert_eq!(slugs(&store.chronological()), ["d", "b", "a", "c"]);
}

#[test]
fn articles_of_one_instant_stay_in_the_order_of_arrival() {
    let mut store = ArticleStore::new();
    for (slug, secs) in [("x", 5), ("m", 1), ("y", 5), ("n", 1), ("z", 5), ("o", 1)] {
        store.insert(article(slug, secs, 0)).unwrap();
    }
    assert_eq!(store.chronological_order(), vec![1, 3, 5, 0, 2, 4]);
    assert_eq!(slugs(&store.chronological()), ["m", "n", "o", "x", "y", "z"]);
}

#[test]
fn sorting_does_not_change_the_store() {
    let mut store = ArticleStore::new();
    store.insert(article("b", 2, 0)).unwrap();
    store.insert(article("a", 1, 0)).unwrap();
    let _ = store.chronological();
    assert_eq!(store.get(0).unwrap().slug(), "b");
    assert_eq!(store.get(1).unwrap().slug(), "a");
}

#[test]
fn instants_are_ordered_by_seconds_then_nanoseconds() {
    let early = Timestamp { secs: 1, nanos: 999_999_999 };
    let late = Timestamp { secs: 2, nanos: 0 };
    assert!(early.is_before(&late));
    assert!(!late.is_before(&early));
    assert!(!early.is_before(&early));
    assert!(Timestamp { secs: 1, nanos: 1 }.is_before(&Timestamp { secs: 1, nanos: 2 }));
    assert!(Timestamp { secs: -1, nanos: 5 }.is_before(&Timestamp { secs: 0, nanos: 0 }));
    assert!(early < late);
}

#[test]
fn timestamp_parses_rfc3339() {
    assert_eq!(
        Timestamp::parse("1996-12-19T16:39:57-08:00"),
        Some(Timestamp { secs: 851042397, nanos: 0 })
    );
    assert_eq!(
        Timestamp::parse("1969-12-31T23:59:59.5Z"),
        Some(Timestamp { secs: -1, nanos: 500_000_000 })
    );
    assert_eq!(Timestamp::parse("1996-12-19"), None);
    assert_eq!(Timestamp::parse("1996-12-19T16:39:57-08:00 "), None);
    assert_eq!(Timestamp::parse(""), None);
}
