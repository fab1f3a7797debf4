use feedparq::model::{EntryData, FeedData, FeedAddress, FetchError};
use feedparq::schedule::{partition_outcomes, Scheduler};
use feedparq::table::{flatten, Table};

fn table_with(id: &str, n: usize) -> Table {
    let mut feed = FeedData {
        id: id.to_string(),
        description: None,
        title: None,
        published_ms: None,
        updated_ms: None,
        entries: Vec::new(),
    };
    for k in 0..n {
        feed.entries.push(EntryData {
            id: format!("{id}-{k}"),
            title: None,
            links: Vec::new(),
            published_ms: None,
            updated_ms: None,
            summary: None,
            content_body: None,
            authors: Vec::new(),
            media: Vec::new(),
        });
    }
    flatten(&feed)
}

fn addresses(n: usize) -> Vec<FeedAddress> {
    (0..n).map(|k| FeedAddress::Network(format!("https://example.org/feed{k}.xml"))).collect()
}

#[test]
fn scheduler_caps_in_flight_and_drops_failures() {
    let mut sched = Scheduler::new(addresses(6), 4);

    // The cap admits exactly four launches before anything finishes.
    assert_eq!(sched.start_next(), Some(0));
    assert_eq!(sched.start_next(), Some(1));
    assert_eq!(sched.start_next(), Some(2));
    assert_eq!(sched.start_next(), Some(3));
    assert_eq!(sched.start_next(), None);
    assert!(!sched.done());

    // Two fetches complete out of submission order: one failure, one success.
    sched.finish(Err(FetchError::Network("connection refused".to_string())));
    sched.finish(Ok(table_with("feed2", 3)));

    // The freed slots admit the remaining two addresses.
    assert_eq!(sched.start_next(), Some(4));
    assert_eq!(sched.start_next(), Some(5));
    assert_eq!(sched.start_next(), None);

    sched.finish(Ok(table_with("feed0", 2)));
    sched.finish(Err(FetchError::Parse("unknown content type".to_string())));
    sched.finish(Err(FetchError::Io("no such file".to_string())));
    sched.finish(Ok(table_with("feed5", 1)));
    assert!(sched.done());

    // Exactly one table per successful fetch, in completion order; the
    // failures are kept apart.
    let (tables, failures) = sched.into_results();
    assert_eq!(tables.len(), 3);
    assert_eq!(tables[0].rows.len(), 3);
    assert_eq!(tables[0].rows[0].feed_id, "feed2");
    assert_eq!(tables[1].rows[0].feed_id, "feed0");
    assert_eq!(tables[2].rows[0].feed_id, "feed5");
    assert_eq!(failures.len(), 3);
    assert!(matches!(failures[0], FetchError::Network(_)));
    assert!(matches!(failures[1], FetchError::Parse(_)));
    assert!(matches!(failures[2], FetchError::Io(_)));
}

#[test]
fn scheduler_empty_batch_is_done_at_once() {
    let mut sched = Scheduler::new(Vec::new(), 4);
    assert!(sched.done());
    assert_eq!(sched.start_next(), None);
    let (tables, failures) = sched.into_results();
    assert_eq!(tables.len(), 0);
    assert_eq!(failures.len(), 0);
}

#[test]
fn partition_outcomes_splits_both_ways() {
    let outcomes: Vec<Result<Table, FetchError>> = vec![
        Ok(table_with("a", 1)),
        Err(FetchError::Network("timeout".to_string())),
        Ok(table_with("b", 2)),
        Err(FetchError::Io("denied".to_string())),
    ];
    let (tables, failures) = partition_outcomes(outcomes);
    assert_eq!(tables.len(), 2);
    assert_eq!(tables[0].rows[0].feed_id, "a");
    assert_eq!(tables[1].rows[0].feed_id, "b");
    assert_eq!(failures.len(), 2);
    assert!(matches!(failures[0], FetchError::Network(_)));
    assert!(matches!(failures[1], FetchError::Io(_)));
}
