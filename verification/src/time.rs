//! The clock and date formatting, from `chrono`. Timestamps are
//! microseconds since the Unix epoch, UTC.
use vstd::prelude::*;

verus! {

/// What `DateTime::<Utc>::from_timestamp_micros(micros)` formatted with
/// `"%d/%m/%Y %H:%M"` gives, `None` where chrono has no such instant.
pub uninterp spec fn spec_format_dmy_hm(micros: i64) -> Option<Seq<char>>;

/// `chrono::Utc::now().timestamp_micros()`. Nothing is claimed of the value:
/// it is the time of the call.
#[verifier::external_body]
pub(crate) fn now_micros() -> i64 {
    chrono::Utc::now().timestamp_micros()
}

/// `DateTime::<Utc>::from_timestamp_micros(micros)`, formatted as
/// `dd/mm/yyyy HH:MM`. Claimed: the outcome is the named formatting.
#[verifier::external_body]
pub(crate) fn format_dmy_hm(micros: i64) -> (r: Option<String>)
    ensures
        match r {
            Some(s) => spec_format_dmy_hm(micros) == Some(s@),
            None => spec_format_dmy_hm(micros) is None,
        },
{
    match chrono::DateTime::<chrono::Utc>::from_timestamp_micros(micros) {
        Some(d) => Some(d.format("%d/%m/%Y %H:%M").to_string()),
        None => None,
    }
}

/// The formatted instant, or the empty text where chrono has none.
pub open spec fn shown_instant(micros: i64) -> Seq<char> {
    match spec_format_dmy_hm(micros) {
        Some(s) => s,
        None => seq![],
    }
}

/// `micros` formatted as `dd/mm/yyyy HH:MM`; empty when out of chrono's range.
pub fn show_instant(micros: i64) -> (r: String)
    ensures
        r@ == shown_instant(micros),
{
    match format_dmy_hm(micros) {
        Some(s) => s,
        None => String::new(),
    }
}

pub const MICROS_PER_MINUTE: i64 = 60_000_000;
pub const MICROS_PER_HOUR: i64 = 3_600_000_000;
pub const MICROS_PER_DAY: i64 = 86_400_000_000;

/// `now + count * unit`, when it fits in an `i64`.
pub fn add_span(now: i64, count: i64, unit: i64) -> (r: Option<i64>)
    requires
        unit > 0,
    ensures
        match r {
            Some(t) => t == now + count * unit,
            None => !(i64::MIN <= now + count * unit <= i64::MAX),
        },
{
    let c = count as i128;
    let u = unit as i128;
    assert(i64::MIN as i128 * i64::MAX as i128 <= c * u <= i64::MAX as i128 * i64::MAX as i128) by (nonlinear_arith)
        requires
            i64::MIN <= c <= i64::MAX,
            0 < u <= i64::MAX;
    let delta: i128 = c * u;
    let t: i128 = now as i128 + delta;
    if t < i64::MIN as i128 || t > i64::MAX as i128 {
        None
    } else {
        Some(t as i64)
    }
}

} // verus!
