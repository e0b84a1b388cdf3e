//! Wall-clock UTC instants, as seconds and nanoseconds since the Unix epoch.

use vstd::prelude::*;

verus! {

/// First second of the year 1 (0001-01-01T00:00:00Z).
pub const MIN_SECS: i64 = -62135596800;

/// Last second of the year 9999 (9999-12-31T23:59:59Z).
pub const MAX_SECS: i64 = 253402300799;

pub const NANOS_PER_SEC: i64 = 1000000000;

/// A UTC instant.
#[derive(Clone, Copy, Debug, PartialEq, Eq, Structural)]
pub struct Timestamp {
    pub secs: i64,
    pub nanos: u32,
}

impl Timestamp {
    /// Representable as an RFC 3339 date with a four-digit year.
    pub open spec fn valid(self) -> bool {
        MIN_SECS <= self.secs <= MAX_SECS && self.nanos < NANOS_PER_SEC
    }

    /// Nanoseconds since the epoch.
    pub open spec fn total_nanos(self) -> int {
        self.secs * NANOS_PER_SEC + self.nanos
    }

    pub fn is_valid(&self) -> (r: bool)
        ensures
            r == self.valid(),
    {
        MIN_SECS <= self.secs && self.secs <= MAX_SECS && (self.nanos as i64) < NANOS_PER_SEC
    }
}

/// Nanoseconds from `since` to `now` (negative when `since` is later).
pub open spec fn elapsed_nanos(now: Timestamp, since: Timestamp) -> int {
    now.total_nanos() - since.total_nanos()
}

/// Whether more than `limit_nanos` nanoseconds lie between `since` and `now`.
pub fn elapsed_exceeds(now: Timestamp, since: Timestamp, limit_nanos: u128) -> (r: bool)
    ensures
        r == (elapsed_nanos(now, since) > limit_nanos as int),
{
    let secs: i128 = now.secs as i128 - since.secs as i128;
    assert(-18446744073709551616 <= secs <= 18446744073709551616);
    let scaled: i128 = secs * 1000000000;
    let diff: i128 = scaled + now.nanos as i128 - since.nanos as i128;
    if diff < 0 {
        false
    } else {
        diff as u128 > limit_nanos
    }
}

/// The RFC 3339 text that chrono writes for an instant (`Z` offset,
/// as many fraction digits as needed).
pub uninterp spec fn rfc3339_of(secs: int, nanos: int) -> Seq<char>;

/// The instant that chrono reads from a text, as (seconds, nanoseconds).
pub uninterp spec fn rfc3339_parsed(s: Seq<char>) -> Option<(int, int)>;

/// Relies on chrono's `DateTime::from_timestamp` and
/// `DateTime::to_rfc3339_opts(SecondsFormat::AutoSi, true)`, the form that
/// chrono's serde support writes; its output holds only digits and `-:.TZ+`.
#[verifier::external_body]
pub(crate) fn format_rfc3339(t: Timestamp) -> (r: String)
    requires
        t.valid(),
    ensures
        r@ == rfc3339_of(t.secs as int, t.nanos as int),
        forall|i: int| 0 <= i < r@.len() ==> r@[i] != '"' && r@[i] != '\\',
{
    chrono::DateTime::from_timestamp(t.secs, t.nanos)
        .unwrap()
        .to_rfc3339_opts(chrono::SecondsFormat::AutoSi, true)
}

/// Relies on chrono's `FromStr for DateTime<FixedOffset>`, which chrono's
/// serde support uses, and on its reading back what `format_rfc3339` wrote.
#[verifier::external_body]
pub(crate) fn parse_rfc3339(s: &str) -> (r: Option<Timestamp>)
    ensures
        match rfc3339_parsed(s@) {
            None => r is None,
            Some(p) => r matches Some(t) && t.secs as int == p.0 && t.nanos as int == p.1,
        },
        forall|t: Timestamp|
            t.valid() && s@ == #[trigger] rfc3339_of(t.secs as int, t.nanos as int) ==> r == Some(
                t,
            ),
{
    match s.parse::<chrono::DateTime<chrono::FixedOffset>>() {
        Ok(d) => Some(Timestamp { secs: d.timestamp(), nanos: d.timestamp_subsec_nanos() }),
        Err(_) => None,
    }
}

#[verifier::external_type_specification]
#[verifier::external_body]
pub struct ExSystemTime(std::time::SystemTime);

/// Relies on std's `SystemTime::now`: the system clock's current reading.
#[verifier::external_body]
fn system_now() -> (r: std::time::SystemTime) {
    std::time::SystemTime::now()
}

/// Relies on std's `SystemTime::duration_since(UNIX_EPOCH)`: the reading's
/// distance from the epoch as (not before the epoch, whole seconds,
/// sub-second nanoseconds); `Duration::subsec_nanos` is below 10^9.
#[verifier::external_body]
fn epoch_offset(t: std::time::SystemTime) -> (r: (bool, u64, u32))
    ensures
        r.2 < NANOS_PER_SEC,
{
    match t.duration_since(std::time::UNIX_EPOCH) {
        Ok(d) => (true, d.as_secs(), d.subsec_nanos()),
        Err(e) => (false, e.duration().as_secs(), e.duration().subsec_nanos()),
    }
}

/// The instant at a signed distance from the epoch, when it is representable:
/// `secs` seconds and `nanos` nanoseconds after it, or before it when
/// `after` is false.
pub fn from_epoch_offset(after: bool, secs: u64, nanos: u32) -> (r: Option<Timestamp>)
    requires
        nanos < NANOS_PER_SEC,
    ensures
        match r {
            Some(t) => t.valid() && t.total_nanos() == if after {
                secs * NANOS_PER_SEC + nanos
            } else {
                -(secs * NANOS_PER_SEC + nanos)
            },
            None => {
                let d = secs * NANOS_PER_SEC + nanos;
                if after {
                    d > MAX_SECS * NANOS_PER_SEC + (NANOS_PER_SEC - 1)
                } else {
                    -d < MIN_SECS * NANOS_PER_SEC
                }
            },
        },
{
    if after {
        if secs > MAX_SECS as u64 {
            None
        } else {
            Some(Timestamp { secs: secs as i64, nanos })
        }
    } else if nanos == 0 {
        if secs > 62135596800 {
            None
        } else {
            Some(Timestamp { secs: -(secs as i64), nanos: 0 })
        }
    } else if secs >= 62135596800 {
        None
    } else {
        Some(Timestamp { secs: -(secs as i64) - 1, nanos: (NANOS_PER_SEC as u32) - nanos })
    }
}

/// The current time, when it lies between the years 1 and 9999.
pub fn now() -> (r: Option<Timestamp>)
    ensures
        r matches Some(t) ==> t.valid(),
{
    let (after, secs, nanos) = epoch_offset(system_now());
    from_epoch_offset(after, secs, nanos)
}

} // verus!
