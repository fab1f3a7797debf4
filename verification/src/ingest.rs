//! Reduction of feed_rs's parsed model to the plain-value model. The
//! syndication parser itself runs outside the library: its duration
//! handling reads unbounded digit runs with unchecked 64-bit arithmetic
//! and can abort on adversarial content, and no condition over the raw
//! bytes can fence that off (character references and declared encodings
//! assemble digits the bytes do not show), so the caller makes the parse
//! call under its own guard and hands the parsed model in. Everything the
//! model is read into here is plain values, and everything downstream of
//! this module is verified.
use vstd::prelude::*;

use crate::model::{EntryData, FeedData, MediaItem};

verus! {

#[verifier::external_type_specification]
#[verifier::external_body]
pub struct ExFeed(feed_rs::model::Feed);

#[verifier::external_type_specification]
#[verifier::external_body]
pub struct ExEntry(feed_rs::model::Entry);

/// The five feed-level scalars, read out of the parsed model.
struct FeedScalars {
    id: String,
    description: Option<String>,
    title: Option<String>,
    published_ms: Option<i64>,
    updated_ms: Option<i64>,
}

/// Relies on feed_rs's `Feed` fields (`id`, `description`, `title`,
/// `published`, `updated`; the texts' plain content) and on chrono's
/// `DateTime::timestamp_millis` for the two timestamps.
#[verifier::external_body]
fn feed_scalars(f: &feed_rs::model::Feed) -> (r: FeedScalars)
{
    FeedScalars {
        id: f.id.clone(),
        description: f.description.as_ref().map(|t| t.content.clone()),
        title: f.title.as_ref().map(|t| t.content.clone()),
        published_ms: f.published.map(|d| d.timestamp_millis()),
        updated_ms: f.updated.map(|d| d.timestamp_millis()),
    }
}

/// Relies on feed_rs's `Feed::entries`: the feed's entries in document
/// order.
#[verifier::external_body]
fn feed_entries(f: feed_rs::model::Feed) -> (r: Vec<feed_rs::model::Entry>)
{
    f.entries
}

/// Relies on feed_rs's `Entry` fields (`id`, `title`, `links`, `published`,
/// `updated`, `summary`, `content`, `authors`) and on chrono's
/// `DateTime::timestamp_millis` for the timestamps. The media attachments
/// come separately, from `entry_media`.
#[verifier::external_body]
fn entry_core(e: &feed_rs::model::Entry) -> (r: EntryData)
{
    EntryData {
        id: e.id.clone(),
        title: e.title.as_ref().map(|t| t.content.clone()),
        links: e.links.iter().map(|l| l.href.clone()).collect(),
        published_ms: e.published.map(|d| d.timestamp_millis()),
        updated_ms: e.updated.map(|d| d.timestamp_millis()),
        summary: e.summary.as_ref().map(|t| t.content.clone()),
        content_body: e.content.as_ref().and_then(|c| c.body.clone()),
        authors: e.authors.iter().map(|p| p.name.clone()).collect(),
        media: Vec::new(),
    }
}

/// Relies on feed_rs's `Entry::media` (each attachment's content items and
/// description) and on the url crate's `Display` for each content URL.
#[verifier::external_body]
fn entry_media(e: &feed_rs::model::Entry) -> (r: Vec<MediaItem>)
{
    e.media.iter().map(|m| MediaItem {
        content_urls: m.content.iter().map(|c| c.url.as_ref().map(|u| u.to_string())).collect(),
        description: m.description.as_ref().map(|t| t.content.clone()),
    }).collect()
}

/// One entry of the parsed model, reduced to plain values.
fn entry_to_data(e: &feed_rs::model::Entry) -> (r: EntryData)
{
    let mut d = entry_core(e);
    d.media = entry_media(e);
    d
}

/// A parsed feed reduced to plain values: the five scalars and one entry
/// per document entry, in document order. The parsed model is opaque, so
/// nothing relates the result to it here; every function that consumes the
/// result is verified for each of its values.
pub fn feed_to_data(f: feed_rs::model::Feed) -> (r: FeedData)
{
    let scalars = feed_scalars(&f);
    let raw_entries = feed_entries(f);
    let mut entries: Vec<EntryData> = Vec::new();
    let mut i: usize = 0;
    while i < raw_entries.len()
        decreases raw_entries.len() - i,
    {
        entries.push(entry_to_data(&raw_entries[i]));
        i = i + 1;
    }
    FeedData {
        id: scalars.id,
        description: scalars.description,
        title: scalars.title,
        published_ms: scalars.published_ms,
        updated_ms: scalars.updated_ms,
        entries,
    }
}

} // verus!
