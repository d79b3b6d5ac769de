//! The one outside call the stream logic needs: rendering a UTC instant,
//! given in milliseconds since the Unix epoch, as `YYYY-MM-DD HH:MM:SS`.

use vstd::prelude::*;

verus! {

/// The text chrono renders for a UTC instant under the fixed
/// `YYYY-MM-DD HH:MM:SS` layout. It is a function of the instant alone;
/// it is named here rather than restated.
pub uninterp spec fn formatted_utc(millis_since_epoch: int) -> Seq<char>;

/// Instants comfortably inside chrono's calendar range, which reaches about
/// 262,000 years either side of the common era.
pub open spec fn renderable_millis(ms: int) -> bool {
    -8000000000000000 <= ms <= 8000000000000000
}

/// Relies on chrono's `DateTime::<Utc>::from_timestamp_millis`, which returns
/// `Some` for every instant within its calendar range (a superset of
/// `renderable_millis`), and on `DateTime::format` with the fixed numeric
/// `%Y-%m-%d %H:%M:%S` layout, whose output depends on the instant alone.
#[verifier::external_body]
pub(crate) fn format_utc_millis(ms: i64) -> (r: Option<String>)
    ensures
        r matches Some(text) ==> text@ == formatted_utc(ms as int),
        renderable_millis(ms as int) ==> r is Some,
{
    match chrono::DateTime::<chrono::Utc>::from_timestamp_millis(ms) {
        Some(dt) => Some(dt.format("%Y-%m-%d %H:%M:%S").to_string()),
        None => None,
    }
}

} // verus!
