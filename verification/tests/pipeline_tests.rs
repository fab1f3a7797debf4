use feedparq::ingest::feed_to_data;
use feedparq::model::FeedData;
use feedparq::table::{column_names, flatten, max_published_ms};

/// An RSS document with `n` items whose publication times step back one day
/// at a time from `latest_secs`.
fn rss_fixture(n: usize, latest_secs: i64) -> String {
    let mut items = String::new();
    for k in 0..n {
        let secs = latest_secs - (k as i64) * 86_400;
        let pub_date = chrono::DateTime::from_timestamp(secs, 0).unwrap().to_rfc2822();
        items.push_str(&format!(
            "<item><guid>urn:item:{k}</guid><title>Item {k}</title>\
             <link>https://example.org/{k}</link><pubDate>{pub_date}</pubDate>\
             <description>Body {k}</description></item>"
        ));
    }
    format!(
        "<?xml version=\"1.0\" encoding=\"UTF-8\"?><rss version=\"2.0\"><channel>\
         <title>Scots Whay Hae!</title><link>https://example.org/</link>\
         <description>A channel</description>{items}</channel></rss>"
    )
}

fn parse_fixture(xml: &str) -> FeedData {
    let feed = feed_rs::parser::parse(xml.as_bytes()).unwrap();
    feed_to_data(feed)
}

#[test]
fn test_feed_to_df() {
    let xml = rss_fixture(20, 1_718_949_619);
    let feed = parse_fixture(&xml);
    assert_eq!(feed.entries.len(), 20);
    let table = flatten(&feed);
    let n_rows = table.rows.len();
    assert_eq!(n_rows, 20);
    let n_cols = column_names().len();
    assert_eq!(n_cols, 16);
    let expected_columns = vec![
        "feed_id",
        "feed_description",
        "feed_published",
        "feed_title",
        "feed_updated",
        "id",
        "title",
        "link",
        "published",
        "published_ms",
        "summary",
        "content",
        "updated",
        "updated_ms",
        "authors",
        "media_url",
    ];
    assert_eq!(column_names(), expected_columns);
    let max_published = max_published_ms(&table).expect("could not get max value");
    assert_eq!(max_published, 1_718_949_619_000);
}

#[test]
fn parsed_fields_reach_the_rows() {
    let xml = rss_fixture(2, 1_718_949_619);
    let feed = parse_fixture(&xml);
    assert_eq!(feed.title.as_deref(), Some("Scots Whay Hae!"));
    let table = flatten(&feed);
    assert_eq!(table.rows[0].feed_title, "Scots Whay Hae!");
    assert_eq!(table.rows[0].title, "Item 0");
    assert_eq!(table.rows[0].link, "https://example.org/0");
    assert_eq!(table.rows[0].published_ms, 1_718_949_619_000);
    assert_eq!(table.rows[0].published, "Fri, 21 Jun 2024 06:00:19 +0000");
    assert_eq!(table.rows[0].summary, "Body 0");
    assert_eq!(table.rows[1].title, "Item 1");
    assert_eq!(table.rows[1].published_ms, 1_718_949_619_000 - 86_400_000);
}

#[test]
fn conversion_is_stable_except_for_invented_ids() {
    // Items without a guid and without a link force the parser to invent
    // entry ids; everything else must come out the same on every parse.
    let xml = "<?xml version=\"1.0\" encoding=\"UTF-8\"?><rss version=\"2.0\"><channel>\
               <title>A Channel</title><link>https://example.org/</link>\
               <description>d</description>\
               <item><title>First</title><description>one</description></item>\
               <item><title>Second</title><description>two</description></item>\
               </channel></rss>";
    let a = parse_fixture(xml);
    let b = parse_fixture(xml);
    assert_eq!(a.title, b.title);
    assert_eq!(a.description, b.description);
    assert_eq!(a.entries.len(), 2);
    assert_eq!(b.entries.len(), 2);
    for (ea, eb) in a.entries.iter().zip(b.entries.iter()) {
        assert_eq!(ea.title, eb.title);
        assert_eq!(ea.summary, eb.summary);
        assert_eq!(ea.published_ms, eb.published_ms);
        assert_eq!(ea.links, eb.links);
    }
}

#[test]
fn media_fields_survive_the_conversion() {
    let xml = "<?xml version=\"1.0\" encoding=\"UTF-8\"?>\
        <rss version=\"2.0\" xmlns:media=\"http://search.yahoo.com/mrss/\">\
        <channel><title>T</title><link>https://example.org/</link><description>d</description>\
        <item><guid>a</guid><title>Ep</title>\
        <media:content url=\"https://example.org/ep1.mp3\"/>\
        <media:description>An episode</media:description>\
        </item></channel></rss>";
    let feed = parse_fixture(xml);
    let table = flatten(&feed);
    assert_eq!(table.rows.len(), 1);
    assert_eq!(table.rows[0].media_url, "https://example.org/ep1.mp3");
}
