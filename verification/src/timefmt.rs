//! Rendering of millisecond epoch timestamps into the two human-readable
//! forms the row schema uses. The rendering itself is chrono's; its results
//! are named, and everything around the calls is verified.
use vstd::prelude::*;

verus! {

/// Millisecond timestamps whose absolute value is at most this bound have
/// an RFC 3339 rendering: chrono covers dates roughly 262,000 years either
/// side of the epoch, and this bound stays about 253,000 years either side.
pub const TS_RENDER_BOUND_MS: i64 = 8_000_000_000_000_000;

/// Whether a millisecond timestamp is within the band the RFC 3339
/// rendering is promised for.
pub open spec fn ts_in_range(ms: int) -> bool {
    -(TS_RENDER_BOUND_MS as int) <= ms && ms <= TS_RENDER_BOUND_MS as int
}

/// The first millisecond of year 0, the earliest instant RFC 2822 can
/// express (the format carries a four-digit, non-negative year).
pub const RFC2822_MIN_MS: i64 = -62_167_219_200_000;

/// The first millisecond of year 10000, the earliest instant past RFC
/// 2822's reach.
pub const RFC2822_END_MS: i64 = 253_402_300_800_000;

/// Whether a millisecond timestamp falls in years 0 through 9999, the band
/// RFC 2822 can express.
pub open spec fn rfc2822_renderable(ms: int) -> bool {
    RFC2822_MIN_MS as int <= ms && ms < RFC2822_END_MS as int
}

/// The RFC 2822 rendering, in UTC, of a millisecond epoch timestamp.
pub uninterp spec fn rfc2822_of(ms: int) -> Seq<char>;

/// The RFC 3339 rendering, in UTC, of a millisecond epoch timestamp.
pub uninterp spec fn rfc3339_of(ms: int) -> Seq<char>;

/// Relies on chrono's `DateTime::<Utc>::from_timestamp_millis`, which
/// returns `Some` throughout the required band (chrono's own range reaches
/// about 262,000 years either side of the epoch), and on
/// `DateTime::to_rfc2822`, which panics only for years outside 0..=9999 —
/// excluded by the `requires` — and whose output depends on the timestamp
/// alone and is never empty.
#[verifier::external_body]
pub(crate) fn rfc2822_utc(ms: i64) -> (r: String)
    requires
        rfc2822_renderable(ms as int),
    ensures
        r@ == rfc2822_of(ms as int),
        r@.len() > 0,
{
    chrono::DateTime::<chrono::Utc>::from_timestamp_millis(ms).unwrap().to_rfc2822()
}

/// Relies on chrono's `DateTime::<Utc>::from_timestamp_millis`, which
/// returns `Some` throughout the required band (chrono's own range reaches
/// about 262,000 years either side of the epoch), and on
/// `DateTime::to_rfc3339`, which writes any representable year — out-of-band
/// ones with an explicit sign — cannot fail for a `String` writer, and whose
/// output depends on the timestamp alone and is never empty.
#[verifier::external_body]
pub(crate) fn rfc3339_utc(ms: i64) -> (r: String)
    requires
        ts_in_range(ms as int),
    ensures
        r@ == rfc3339_of(ms as int),
        r@.len() > 0,
{
    chrono::DateTime::<chrono::Utc>::from_timestamp_millis(ms).unwrap().to_rfc3339()
}

/// The RFC 2822 column string `s` of the optional timestamp `oms`: empty
/// when the timestamp is absent or outside the band RFC 2822 can express,
/// and exactly the (non-empty) rendering within it.
pub open spec fn rendered_2822_ok(oms: Option<i64>, s: Seq<char>) -> bool {
    match oms {
        Option::None => s == Seq::<char>::empty(),
        Option::Some(ms) => if rfc2822_renderable(ms as int) {
            s == rfc2822_of(ms as int) && s.len() > 0
        } else {
            s == Seq::<char>::empty()
        },
    }
}

/// The RFC 3339 counterpart of `rendered_2822_ok`: empty when the timestamp
/// is absent or beyond `ts_in_range`, and exactly the (non-empty) rendering
/// within it.
pub open spec fn rendered_3339_ok(oms: Option<i64>, s: Seq<char>) -> bool {
    match oms {
        Option::None => s == Seq::<char>::empty(),
        Option::Some(ms) => if ts_in_range(ms as int) {
            s == rfc3339_of(ms as int) && s.len() > 0
        } else {
            s == Seq::<char>::empty()
        },
    }
}

/// The RFC 2822 column value of an optional timestamp: empty when absent or
/// outside RFC 2822's reach, the rendering otherwise.
pub fn render_2822(oms: &Option<i64>) -> (r: String)
    ensures
        rendered_2822_ok(*oms, r@),
{
    match oms {
        Option::None => String::new(),
        Option::Some(ms) => {
            if RFC2822_MIN_MS <= *ms && *ms < RFC2822_END_MS {
                rfc2822_utc(*ms)
            } else {
                String::new()
            }
        },
    }
}

/// The RFC 3339 column value of an optional timestamp: empty when absent or
/// outside the promised band, the rendering otherwise.
pub fn render_3339(oms: &Option<i64>) -> (r: String)
    ensures
        rendered_3339_ok(*oms, r@),
{
    match oms {
        Option::None => String::new(),
        Option::Some(ms) => {
            if -TS_RENDER_BOUND_MS <= *ms && *ms <= TS_RENDER_BOUND_MS {
                rfc3339_utc(*ms)
            } else {
                String::new()
            }
        },
    }
}

} // verus!
