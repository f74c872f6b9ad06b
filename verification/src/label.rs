use vstd::pervasive::unreached;
use vstd::prelude::*;
use vstd::string::StrSliceExecFns;

verus! {

/// First character of the date label inside an RFC 3339 timestamp whose year
/// takes four characters: the start of `MM-DDTHH:MM:SS`.
pub const LABEL_START: usize = 5;

/// One past the last character of the date label.
pub const LABEL_END: usize = 19;

/// The date label carried by a timestamp: its characters
/// `LABEL_START .. LABEL_END`, the `MM-DDTHH:MM:SS` slice of an RFC 3339
/// timestamp with a four-digit year. A timestamp too short to carry the
/// slice yields nothing.
pub open spec fn spec_date_label(ts: Seq<char>) -> Option<Seq<char>> {
    if ts.len() >= LABEL_END {
        Some(ts.subrange(LABEL_START as int, LABEL_END as int))
    } else {
        None
    }
}

/// The date label of the given timestamp, exactly as [`spec_date_label`]
/// reads it.
pub fn date_label(ts: &str) -> (r: Option<String>)
    ensures
        match r {
            Some(l) => spec_date_label(ts@) == Some(l@),
            None => spec_date_label(ts@) is None,
        },
{
    let n = ts.unicode_len();
    if n >= LABEL_END {
        Some(ts.substring_char(LABEL_START, LABEL_END).to_owned())
    } else {
        None
    }
}

/// Relies on `chrono::Utc::now` and `chrono::DateTime::to_rfc3339`: the
/// current UTC instant written as an RFC 3339 timestamp. The instant depends
/// on the clock, so nothing is said of the content; the format always spends
/// at least four characters on the year and fifteen more on
/// `-MM-DDTHH:MM:SS` before any fraction and offset, so the string holds at
/// least nineteen characters, whatever the clock reads.
#[verifier::external_body]
fn now_rfc3339() -> (r: String)
    ensures
        r@.len() >= LABEL_END,
{
    chrono::Utc::now().to_rfc3339()
}

/// The date label of the present moment: what [`spec_date_label`] reads from
/// a freshly taken RFC 3339 timestamp. The clock decides the content; only
/// the shape — fourteen characters — holds of every outcome.
pub fn current_date_label() -> (r: String)
    ensures
        r@.len() == LABEL_END - LABEL_START,
{
    let ts = now_rfc3339();
    match date_label(ts.as_str()) {
        Some(l) => l,
        None => unreached(),
    }
}

} // verus!
