//! A day's price schedule and the price that applies at a given instant.

use vstd::prelude::*;

verus! {

/// One entry of a price schedule as received: two RFC 3339 timestamps and a price.
#[derive(Debug)]
pub struct RawInterval {
    pub time_start: String,
    pub time_end: String,
    pub price: i64,
}

/// One entry of a price schedule: `price` applies from `start` (included)
/// to `end` (excluded).
#[derive(Clone, Copy, Debug, PartialEq, Eq, Structural)]
pub struct PriceInterval {
    pub start: i64,
    pub end: i64,
    pub price: i64,
}

/// Why no price could be had for the current instant.
#[derive(Clone, Copy, Debug, PartialEq, Eq, Structural)]
pub enum PriceError {
    /// The entry at `index` holds a timestamp that is not RFC 3339.
    MalformedTimestamp { index: usize },
    /// No entry of the schedule covers the instant.
    Unavailable,
}

/// The instant an RFC 3339 timestamp denotes, in milliseconds since the
/// epoch, or `None` where the text is not a valid timestamp.
pub uninterp spec fn rfc3339_millis(s: Seq<char>) -> Option<i64>;

/// Relies on chrono's `DateTime::parse_from_rfc3339`, read back as an instant
/// through `DateTime::timestamp_millis`.
#[verifier::external_body]
fn parse_rfc3339_millis(s: &str) -> (r: Option<i64>)
    ensures
        r == rfc3339_millis(s@),
{
    match chrono::DateTime::parse_from_rfc3339(s) {
        Ok(d) => Some(d.timestamp_millis()),
        Err(_) => None,
    }
}

pub open spec fn interval_of(raw: RawInterval) -> Option<PriceInterval> {
    match (rfc3339_millis(raw.time_start@), rfc3339_millis(raw.time_end@)) {
        (Some(start), Some(end)) => Some(PriceInterval { start, end, price: raw.price }),
        _ => None,
    }
}

/// `now` lies in the interval: its start is included, its end excluded.
pub open spec fn covers(iv: PriceInterval, now: i64) -> bool {
    iv.start <= now && now < iv.end
}

/// `i` is the first entry of `s` that covers `now`.
pub open spec fn is_first_cover(s: Seq<PriceInterval>, now: i64, i: int) -> bool {
    &&& 0 <= i < s.len()
    &&& covers(s[i], now)
    &&& forall|j: int| 0 <= j < i ==> !covers(#[trigger] s[j], now)
}

/// What a lookup of `now` in `s` owes: `None` exactly when no entry covers
/// `now`, else the price of the first entry that does.
pub open spec fn lookup_result(s: Seq<PriceInterval>, now: i64, r: Option<i64>) -> bool {
    &&& r is None <==> forall|i: int| 0 <= i < s.len() ==> !covers(#[trigger] s[i], now)
    &&& r matches Some(p) ==> exists|i: int| is_first_cover(s, now, i) && s[i].price == p
}

/// Every entry of the schedule holds two valid timestamps.
pub open spec fn all_parsed(raws: Seq<RawInterval>) -> bool {
    forall|i: int| 0 <= i < raws.len() ==> (#[trigger] interval_of(raws[i])) is Some
}

/// `index` is the first entry of `raws` with an invalid timestamp.
pub open spec fn is_first_malformed(raws: Seq<RawInterval>, index: int) -> bool {
    &&& 0 <= index < raws.len()
    &&& interval_of(raws[index]) is None
    &&& forall|j: int| 0 <= j < index ==> (#[trigger] interval_of(raws[j])) is Some
}

/// The parsed schedule, meaningful where `all_parsed(raws)` holds.
pub open spec fn schedule_of(raws: Seq<RawInterval>) -> Seq<PriceInterval> {
    raws.map_values(|raw: RawInterval| interval_of(raw)->Some_0)
}

pub open spec fn price_of(r: Result<i64, PriceError>) -> Option<i64> {
    match r {
        Ok(p) => Some(p),
        Err(_) => None,
    }
}

/// Parses each entry's timestamps. Fails on the first entry whose start or
/// end is not a valid RFC 3339 timestamp.
pub fn parse_schedule(raws: &Vec<RawInterval>) -> (r: Result<Vec<PriceInterval>, PriceError>)
    ensures
        r is Ok <==> all_parsed(raws@),
        r matches Ok(v) ==> v@ == schedule_of(raws@),
        r matches Err(e) ==> e matches PriceError::MalformedTimestamp { index }
            && is_first_malformed(raws@, index as int),
{
    let mut out: Vec<PriceInterval> = Vec::new();
    let mut i: usize = 0;
    while i < raws.len()
        invariant
            i <= raws@.len(),
            out@.len() == i,
            forall|j: int| 0 <= j < i ==> interval_of(#[trigger] raws@[j]) == Some(out@[j]),
        decreases raws@.len() - i,
    {
        let raw = &raws[i];
        let start = parse_rfc3339_millis(raw.time_start.as_str());
        let end = parse_rfc3339_millis(raw.time_end.as_str());
        match (start, end) {
            (Some(s), Some(e)) => {
                out.push(PriceInterval { start: s, end: e, price: raw.price });
            },
            _ => {
                assert forall|j: int| 0 <= j < i implies (#[trigger] interval_of(raws@[j])) is Some by {
                    assert(interval_of(raws@[j]) == Some(out@[j]));
                }
                return Err(PriceError::MalformedTimestamp { index: i });
            },
        }
        i = i + 1;
    }
    assert(out@ =~= schedule_of(raws@));
    Ok(out)
}

/// The price of the first interval that covers `now`, or `None` where no
/// interval does.
pub fn current_price(intervals: &Vec<PriceInterval>, now: i64) -> (r: Option<i64>)
    ensures
        lookup_result(intervals@, now, r),
{
    let mut i: usize = 0;
    while i < intervals.len()
        invariant
            i <= intervals@.len(),
            forall|j: int| 0 <= j < i ==> !covers(#[trigger] intervals@[j], now),
        decreases intervals@.len() - i,
    {
        let iv = intervals[i];
        if iv.start <= now && now < iv.end {
            assert(is_first_cover(intervals@, now, i as int));
            return Some(iv.price);
        }
        i = i + 1;
    }
    None
}

/// The price that applies at `now` under the received schedule: an error
/// where an entry is malformed, or where no entry covers `now`.
pub fn price_now(raws: &Vec<RawInterval>, now: i64) -> (r: Result<i64, PriceError>)
    ensures
        all_parsed(raws@) ==> r is Ok || r == Err::<i64, PriceError>(PriceError::Unavailable),
        all_parsed(raws@) ==> lookup_result(schedule_of(raws@), now, price_of(r)),
        !all_parsed(raws@) ==> (r matches Err(PriceError::MalformedTimestamp { index })
            && is_first_malformed(raws@, index as int)),
{
    let intervals = match parse_schedule(raws) {
        Ok(v) => v,
        Err(e) => return Err(e),
    };
    match current_price(&intervals, now) {
        Some(p) => Ok(p),
        None => Err(PriceError::Unavailable),
    }
}

} // verus!
