//! Small helpers: lossy text decoding and the jitter source used to stagger
//! request pacing.

use vstd::prelude::*;

verus! {

/// Relies on String::from_utf8_lossy: decoding bytes to text, substituting
/// replacement characters for invalid sequences, is a function of the bytes
/// alone.
pub uninterp spec fn lossy_text(b: Seq<u8>) -> Seq<char>;

/// Relies on String::from_utf8_lossy (see `lossy_text`).
#[verifier::external_body]
pub(crate) fn utf8_lossy(b: &Vec<u8>) -> (r: String)
    ensures
        r@ == lossy_text(b@),
{
    String::from_utf8_lossy(b).to_string()
}

/// Relies on std::time::SystemTime::now and duration_since: the nanosecond
/// fraction of the current wall-clock time past the epoch, or None when the
/// clock reads earlier than the epoch. The value is not a function of
/// anything the caller controls; nothing more than its range is promised.
#[verifier::external_body]
fn subsec_nanos_now() -> (r: Option<u32>)
    ensures
        r is Some ==> r->0 < 1_000_000_000,
{
    match std::time::SystemTime::now().duration_since(std::time::UNIX_EPOCH) {
        Ok(t) => Some(t.subsec_nanos()),
        Err(_) => None,
    }
}

/// Dumb and insecure pseudo random, used only to jitter request pacing:
/// some number at least the smaller bound and below the larger one. If an
/// error is observed while getting the time, returns the median.
pub fn num_between(lower: u32, upper: u32) -> (r: u32)
    requires
        lower != upper,
    ensures
        lower < upper ==> lower <= r < upper,
        upper < lower ==> upper <= r < lower,
{
    let (l, u) = if upper < lower {
        (upper, lower)
    } else {
        (lower, upper)
    };
    let dif = u - l;
    match subsec_nanos_now() {
        None => (dif / 2) + l,
        Some(t) => (t % dif) + l,
    }
}

} // verus!
