//! The data model of the harvester: feed addresses, the plain-value form of a
//! parsed feed, and the error taxonomy of one fetch.
use vstd::prelude::*;

verus! {

/// Where one feed lives: a local file or a network address.
#[derive(Clone)]
pub enum FeedAddress {
    FilePath(String),
    Network(String),
}

/// One media attachment of an entry: the optional URL of each of its content
/// items, in order, and its optional description.
pub struct MediaItem {
    pub content_urls: Vec<Option<String>>,
    pub description: Option<String>,
}

/// One entry of a feed, reduced to plain values. Timestamps are millisecond
/// counts since the Unix epoch; `authors` holds each author's optional name.
pub struct EntryData {
    pub id: String,
    pub title: Option<String>,
    pub links: Vec<String>,
    pub published_ms: Option<i64>,
    pub updated_ms: Option<i64>,
    pub summary: Option<String>,
    pub content_body: Option<String>,
    pub authors: Vec<Option<String>>,
    pub media: Vec<MediaItem>,
}

/// A feed reduced to plain values: its five scalars and its entries in
/// document order.
pub struct FeedData {
    pub id: String,
    pub description: Option<String>,
    pub title: Option<String>,
    pub published_ms: Option<i64>,
    pub updated_ms: Option<i64>,
    pub entries: Vec<EntryData>,
}

/// Why one feed yielded no table: a local read failure, a transport or status
/// failure, or malformed feed content. Each carries the underlying message.
#[derive(Debug)]
pub enum FetchError {
    Io(String),
    Network(String),
    Parse(String),
}

/// The string value of an optional text field after defaulting: the text when
/// present, the empty string otherwise.
pub open spec fn opt_str(o: Option<String>) -> Seq<char> {
    match o {
        Option::Some(s) => s@,
        Option::None => Seq::<char>::empty(),
    }
}

/// Defaulting of an optional text field, executable form.
pub fn unwrap_or_empty(o: &Option<String>) -> (r: String)
    ensures
        r@ == opt_str(*o),
{
    match o {
        Option::Some(s) => s.clone(),
        Option::None => String::new(),
    }
}

} // verus!
