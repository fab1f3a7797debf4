//! Flattening a feed into its fixed-schema table, and merging per-feed
//! tables into one output table.
//!
//! The schema is exactly the sixteen columns of `column_names`, in that
//! order. Media descriptions are not part of the schema: of an entry's media
//! attachments only the URL of the first content item of the first
//! attachment is kept, as the `media_url` column.
use vstd::prelude::*;

use crate::model::{EntryData, FeedData};
use crate::model::{opt_str, unwrap_or_empty};
use crate::timefmt::{render_2822, render_3339, rendered_2822_ok, rendered_3339_ok};

verus! {

/// One flattened entry: the fixed sixteen columns, in schema order. The five
/// `feed_*` columns are broadcast from the owning feed; the rest come from
/// the entry itself.
pub struct Row {
    pub feed_id: String,
    pub feed_description: String,
    pub feed_published: String,
    pub feed_title: String,
    pub feed_updated: String,
    pub id: String,
    pub title: String,
    pub link: String,
    pub published: String,
    pub published_ms: i64,
    pub summary: String,
    pub content: String,
    pub updated: String,
    pub updated_ms: i64,
    pub authors: String,
    pub media_url: String,
}

/// A table of flattened rows, one per entry, all sharing the fixed schema.
pub struct Table {
    pub rows: Vec<Row>,
}

/// The number of columns of the fixed schema.
pub const COLUMN_COUNT: usize = 16;

/// The names of the fixed schema's columns, in order.
pub fn column_names() -> (r: Vec<&'static str>)
    ensures
        r@.len() == COLUMN_COUNT,
        r@[0]@ == "feed_id"@,
        r@[1]@ == "feed_description"@,
        r@[2]@ == "feed_published"@,
        r@[3]@ == "feed_title"@,
        r@[4]@ == "feed_updated"@,
        r@[5]@ == "id"@,
        r@[6]@ == "title"@,
        r@[7]@ == "link"@,
        r@[8]@ == "published"@,
        r@[9]@ == "published_ms"@,
        r@[10]@ == "summary"@,
        r@[11]@ == "content"@,
        r@[12]@ == "updated"@,
        r@[13]@ == "updated_ms"@,
        r@[14]@ == "authors"@,
        r@[15]@ == "media_url"@,
{
    let mut v: Vec<&'static str> = Vec::new();
    v.push("feed_id");
    v.push("feed_description");
    v.push("feed_published");
    v.push("feed_title");
    v.push("feed_updated");
    v.push("id");
    v.push("title");
    v.push("link");
    v.push("published");
    v.push("published_ms");
    v.push("summary");
    v.push("content");
    v.push("updated");
    v.push("updated_ms");
    v.push("authors");
    v.push("media_url");
    v
}

/// The `link` column value of an entry: the href of its first link, or the
/// empty string when it has none.
pub open spec fn link_col(e: EntryData) -> Seq<char> {
    if e.links@.len() > 0 {
        e.links@[0]@
    } else {
        Seq::<char>::empty()
    }
}

/// The `media_url` column value of an entry: the URL of the first content
/// item of its first media attachment, or the empty string when any of those
/// is absent.
pub open spec fn media_url_col(e: EntryData) -> Seq<char> {
    if e.media@.len() > 0 && e.media@[0].content_urls@.len() > 0 {
        opt_str(e.media@[0].content_urls@[0])
    } else {
        Seq::<char>::empty()
    }
}

/// The millisecond column value of an optional timestamp: the count when
/// present, zero when absent.
pub open spec fn ms_col(oms: Option<i64>) -> i64 {
    match oms {
        Option::Some(ms) => ms,
        Option::None => 0,
    }
}

/// The `authors` column value: the authors' names joined with a comma and a
/// space, in order, an absent name contributing the empty string.
pub open spec fn joined_authors(names: Seq<Option<String>>) -> Seq<char>
    decreases names.len(),
{
    if names.len() == 0 {
        Seq::<char>::empty()
    } else if names.len() == 1 {
        opt_str(names[0])
    } else {
        joined_authors(names.drop_last()) + ", "@ + opt_str(names.last())
    }
}

/// Joins author names with a comma and a space.
pub fn join_authors(names: &Vec<Option<String>>) -> (r: String)
    ensures
        r@ == joined_authors(names@),
{
    let mut s = String::new();
    let mut i: usize = 0;
    while i < names.len()
        invariant
            i <= names@.len(),
            s@ == joined_authors(names@.take(i as int)),
        decreases names@.len() - i,
    {
        if i > 0 {
            s.append(", ");
        }
        let name = unwrap_or_empty(&names[i]);
        s.append(name.as_str());
        proof {
            let pre = names@.take(i as int);
            let cur = names@.take(i + 1 as int);
            assert(cur.drop_last() =~= pre);
            assert(cur.last() == names@[i as int]);
            if i == 0 {
                assert(cur.len() == 1);
                assert(joined_authors(cur) == opt_str(names@[0]));
            }
        }
        i = i + 1;
    }
    proof {
        assert(names@.take(names@.len() as int) =~= names@);
    }
    s
}

/// What flattening one entry of the feed `f` must produce: every column of
/// `r` pinned to the corresponding (defaulted) value of `f` and `e`.
pub open spec fn row_matches(r: Row, f: FeedData, e: EntryData) -> bool {
    &&& r.feed_id@ == f.id@
    &&& r.feed_description@ == opt_str(f.description)
    &&& rendered_3339_ok(f.published_ms, r.feed_published@)
    &&& r.feed_title@ == opt_str(f.title)
    &&& rendered_3339_ok(f.updated_ms, r.feed_updated@)
    &&& r.id@ == e.id@
    &&& r.title@ == opt_str(e.title)
    &&& r.link@ == link_col(e)
    &&& rendered_2822_ok(e.published_ms, r.published@)
    &&& r.published_ms == ms_col(e.published_ms)
    &&& r.summary@ == opt_str(e.summary)
    &&& r.content@ == opt_str(e.content_body)
    &&& rendered_2822_ok(e.updated_ms, r.updated@)
    &&& r.updated_ms == ms_col(e.updated_ms)
    &&& r.authors@ == joined_authors(e.authors@)
    &&& r.media_url@ == media_url_col(e)
}

/// What `flatten` promises of its result: one row per entry, in entry order,
/// each column pinned, and the five `feed_*` columns identical on all rows.
pub open spec fn flatten_post(t: Table, f: FeedData) -> bool {
    &&& t.rows@.len() == f.entries@.len()
    &&& forall|i: int|
        0 <= i < t.rows@.len() ==> row_matches(#[trigger] t.rows@[i], f, f.entries@[i])
    &&& forall|i: int, j: int|
        0 <= i < t.rows@.len() && 0 <= j < t.rows@.len() ==> {
            &&& (#[trigger] t.rows@[i]).feed_id@ == (#[trigger] t.rows@[j]).feed_id@
            &&& t.rows@[i].feed_description@ == t.rows@[j].feed_description@
            &&& t.rows@[i].feed_published@ == t.rows@[j].feed_published@
            &&& t.rows@[i].feed_title@ == t.rows@[j].feed_title@
            &&& t.rows@[i].feed_updated@ == t.rows@[j].feed_updated@
        }
}

/// The `link` column of an entry, executable form.
fn link_of(e: &EntryData) -> (r: String)
    ensures
        r@ == link_col(*e),
{
    if e.links.len() > 0 {
        e.links[0].clone()
    } else {
        String::new()
    }
}

/// The `media_url` column of an entry, executable form.
fn media_url_of(e: &EntryData) -> (r: String)
    ensures
        r@ == media_url_col(*e),
{
    if e.media.len() > 0 && e.media[0].content_urls.len() > 0 {
        unwrap_or_empty(&e.media[0].content_urls[0])
    } else {
        String::new()
    }
}

/// The millisecond column of an optional timestamp, executable form.
fn ms_of(oms: &Option<i64>) -> (r: i64)
    ensures
        r == ms_col(*oms),
{
    match oms {
        Option::Some(ms) => *ms,
        Option::None => 0,
    }
}

/// Builds the row of one entry, broadcasting the feed's five precomputed
/// column strings onto it.
fn make_row(
    f: &FeedData,
    e: &EntryData,
    fid: &String,
    fdesc: &String,
    fpub: &String,
    ftitle: &String,
    fupd: &String,
) -> (r: Row)
    requires
        fid@ == f.id@,
        fdesc@ == opt_str(f.description),
        rendered_3339_ok(f.published_ms, fpub@),
        ftitle@ == opt_str(f.title),
        rendered_3339_ok(f.updated_ms, fupd@),
    ensures
        row_matches(r, *f, *e),
        r.feed_id@ == fid@,
        r.feed_description@ == fdesc@,
        r.feed_published@ == fpub@,
        r.feed_title@ == ftitle@,
        r.feed_updated@ == fupd@,
{
    Row {
        feed_id: fid.clone(),
        feed_description: fdesc.clone(),
        feed_published: fpub.clone(),
        feed_title: ftitle.clone(),
        feed_updated: fupd.clone(),
        id: e.id.clone(),
        title: unwrap_or_empty(&e.title),
        link: link_of(e),
        published: render_2822(&e.published_ms),
        published_ms: ms_of(&e.published_ms),
        summary: unwrap_or_empty(&e.summary),
        content: unwrap_or_empty(&e.content_body),
        updated: render_2822(&e.updated_ms),
        updated_ms: ms_of(&e.updated_ms),
        authors: join_authors(&e.authors),
        media_url: media_url_of(e),
    }
}

/// Flattens one feed into its per-feed table: one row per entry, in entry
/// order, with the feed's five scalars broadcast onto every row. Never
/// fails; a feed with no entries yields a table with no rows.
pub fn flatten(f: &FeedData) -> (t: Table)
    ensures
        flatten_post(t, *f),
{
    let fid = f.id.clone();
    let fdesc = unwrap_or_empty(&f.description);
    let fpub = render_3339(&f.published_ms);
    let ftitle = unwrap_or_empty(&f.title);
    let fupd = render_3339(&f.updated_ms);
    let mut rows: Vec<Row> = Vec::new();
    let mut i: usize = 0;
    while i < f.entries.len()
        invariant
            i <= f.entries@.len(),
            rows@.len() == i,
            fid@ == f.id@,
            fdesc@ == opt_str(f.description),
            rendered_3339_ok(f.published_ms, fpub@),
            ftitle@ == opt_str(f.title),
            rendered_3339_ok(f.updated_ms, fupd@),
            forall|k: int|
                0 <= k < i ==> row_matches(#[trigger] rows@[k], *f, f.entries@[k]),
            forall|k: int|
                0 <= k < i ==> {
                    &&& (#[trigger] rows@[k]).feed_id@ == fid@
                    &&& rows@[k].feed_description@ == fdesc@
                    &&& rows@[k].feed_published@ == fpub@
                    &&& rows@[k].feed_title@ == ftitle@
                    &&& rows@[k].feed_updated@ == fupd@
                },
        decreases f.entries@.len() - i,
    {
        let r = make_row(f, &f.entries[i], &fid, &fdesc, &fpub, &ftitle, &fupd);
        rows.push(r);
        i = i + 1;
    }
    Table { rows }
}

/// The rows of a sequence of tables, concatenated in table order with each
/// table's internal order kept.
pub open spec fn merged_rows(ts: Seq<Table>) -> Seq<Row>
    decreases ts.len(),
{
    if ts.len() == 0 {
        Seq::<Row>::empty()
    } else {
        merged_rows(ts.drop_last()) + ts.last().rows@
    }
}

/// The total number of rows over a sequence of tables.
pub open spec fn total_rows(ts: Seq<Table>) -> nat
    decreases ts.len(),
{
    if ts.len() == 0 {
        0nat
    } else {
        total_rows(ts.drop_last()) + ts.last().rows@.len()
    }
}

/// The concatenation of a sequence of tables has as many rows as its parts
/// together.
pub proof fn lemma_merged_rows_len(ts: Seq<Table>)
    ensures
        merged_rows(ts).len() == total_rows(ts),
    decreases ts.len(),
{
    if ts.len() > 0 {
        lemma_merged_rows_len(ts.drop_last());
    }
}

/// Concatenates per-feed tables into one output table, keeping each table's
/// internal row order and the order the tables were supplied in. Never
/// fails; merging no tables at all yields a table with no rows, under the
/// same fixed schema.
pub fn merge(tables: Vec<Table>) -> (t: Table)
    ensures
        t.rows@ == merged_rows(tables@),
        t.rows@.len() == total_rows(tables@),
        tables@.len() == 0 ==> t.rows@ == Seq::<Row>::empty(),
{
    let ghost all = tables@;
    let mut tables = tables;
    let mut rows: Vec<Row> = Vec::new();
    let mut i: usize = 0;
    while i < tables.len()
        invariant
            tables@.len() == all.len(),
            forall|k: int| i <= k < all.len() ==> tables@[k] == all[k],
            i <= all.len(),
            rows@ == merged_rows(all.take(i as int)),
        decreases all.len() - i,
    {
        let mut part = Vec::new();
        core::mem::swap(&mut part, &mut tables[i].rows);
        rows.append(&mut part);
        proof {
            let cur = all.take(i + 1 as int);
            assert(cur.drop_last() =~= all.take(i as int));
            assert(cur.last() == all[i as int]);
        }
        i = i + 1;
    }
    proof {
        assert(all.take(all.len() as int) =~= all);
        lemma_merged_rows_len(all);
    }
    Table { rows }
}

/// The largest `published_ms` value of a table: absent exactly when the
/// table has no rows, and otherwise a value some row holds and no row
/// exceeds.
pub fn max_published_ms(t: &Table) -> (r: Option<i64>)
    ensures
        r is None <==> t.rows@.len() == 0,
        r matches Some(m) ==> {
            &&& exists|i: int| 0 <= i < t.rows@.len() && (#[trigger] t.rows@[i]).published_ms == m
            &&& forall|i: int| 0 <= i < t.rows@.len() ==> (#[trigger] t.rows@[i]).published_ms <= m
        },
{
    if t.rows.len() == 0 {
        return None;
    }
    let mut m = t.rows[0].published_ms;
    let mut i: usize = 1;
    while i < t.rows.len()
        invariant
            1 <= i <= t.rows@.len(),
            t.rows@.len() > 0,
            exists|k: int| 0 <= k < i && (#[trigger] t.rows@[k]).published_ms == m,
            forall|k: int| 0 <= k < i ==> (#[trigger] t.rows@[k]).published_ms <= m,
        decreases t.rows@.len() - i,
    {
        if t.rows[i].published_ms > m {
            m = t.rows[i].published_ms;
        }
        i = i + 1;
    }
    Some(m)
}

/// Within one flattened table the five `feed_*` columns are identical on all
/// rows and equal the owning feed's defaulted scalars.
pub proof fn lemma_feed_columns_uniform(t: Table, f: FeedData)
    requires
        flatten_post(t, f),
    ensures
        forall|i: int, j: int|
            0 <= i < t.rows@.len() && 0 <= j < t.rows@.len() ==> {
                &&& (#[trigger] t.rows@[i]).feed_id@ == (#[trigger] t.rows@[j]).feed_id@
                &&& t.rows@[i].feed_description@ == t.rows@[j].feed_description@
                &&& t.rows@[i].feed_published@ == t.rows@[j].feed_published@
                &&& t.rows@[i].feed_title@ == t.rows@[j].feed_title@
                &&& t.rows@[i].feed_updated@ == t.rows@[j].feed_updated@
            },
        forall|i: int|
            0 <= i < t.rows@.len() ==> {
                &&& (#[trigger] t.rows@[i]).feed_id@ == f.id@
                &&& t.rows@[i].feed_description@ == opt_str(f.description)
                &&& rendered_3339_ok(f.published_ms, t.rows@[i].feed_published@)
                &&& t.rows@[i].feed_title@ == opt_str(f.title)
                &&& rendered_3339_ok(f.updated_ms, t.rows@[i].feed_updated@)
            },
{
}

/// The timestamp columns of one row: the millisecond column is zero exactly
/// when the timestamp is absent, and the rendered column is non-empty
/// exactly when the millisecond column is non-zero. Holds for timestamps
/// within RFC 2822's reach other than the epoch instant itself.
pub proof fn lemma_timestamp_columns(r: Row, f: FeedData, e: EntryData)
    requires
        row_matches(r, f, e),
        e.published_ms matches Some(ms) ==> crate::timefmt::rfc2822_renderable(ms as int) && ms
            != 0,
        e.updated_ms matches Some(ms) ==> crate::timefmt::rfc2822_renderable(ms as int) && ms != 0,
    ensures
        r.published_ms == 0 <==> e.published_ms is None,
        r.updated_ms == 0 <==> e.updated_ms is None,
        e.published_ms matches Some(ms) ==> r.published_ms == ms,
        e.updated_ms matches Some(ms) ==> r.updated_ms == ms,
        r.published@.len() > 0 <==> r.published_ms != 0,
        r.updated@.len() > 0 <==> r.updated_ms != 0,
{
}

} // verus!
