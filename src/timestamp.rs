use vstd::prelude::*;

use chrono::{DateTime, FixedOffset, Local, TimeZone};

use crate::options::Options;

verus! {

#[verifier::external_type_specification]
#[verifier::external_body]
pub struct ExFixedOffset(chrono::FixedOffset);

/// Seconds in a day: a fixed offset lies strictly within one day of UTC.
pub const DAY_SECONDS: i32 = 86_400;

/// The time recorded in a commit: seconds since the Unix epoch, and the
/// author's offset from UTC in minutes.
#[derive(Clone, Copy, Debug, PartialEq, Eq, Structural)]
pub struct GitTime {
    pub seconds: i64,
    pub offset_minutes: i32,
}

impl GitTime {
    /// The offset in seconds east of UTC.
    pub open spec fn offset_seconds(self) -> int {
        self.offset_minutes as int * 60
    }

    pub open spec fn offset_representable(self) -> bool {
        -DAY_SECONDS < self.offset_seconds() < DAY_SECONDS
    }

    pub open spec fn millis_representable(self) -> bool {
        i64::MIN <= self.seconds as int * 1000 <= i64::MAX
    }
}

/// The civil-time candidates for an instant in a time zone.
pub enum Candidates<T> {
    Nothing,
    Single(T),
    Ambiguous(T, T),
}

impl<T> Candidates<T> {
    /// The first candidate, or the only one.
    pub open spec fn spec_earliest(self) -> Option<T> {
        match self {
            Candidates::Nothing => None,
            Candidates::Single(t) => Some(t),
            Candidates::Ambiguous(a, _) => Some(a),
        }
    }

    /// The last candidate, or the only one.
    pub open spec fn spec_latest(self) -> Option<T> {
        match self {
            Candidates::Nothing => None,
            Candidates::Single(t) => Some(t),
            Candidates::Ambiguous(_, b) => Some(b),
        }
    }

    pub fn earliest(self) -> (r: Option<T>)
        ensures
            r == self.spec_earliest(),
    {
        match self {
            Candidates::Nothing => None,
            Candidates::Single(t) => Some(t),
            Candidates::Ambiguous(a, _) => Some(a),
        }
    }

    pub fn latest(self) -> (r: Option<T>)
        ensures
            r == self.spec_latest(),
    {
        match self {
            Candidates::Nothing => None,
            Candidates::Single(t) => Some(t),
            Candidates::Ambiguous(_, b) => Some(b),
        }
    }
}

/// Picks one candidate by the tie-break that `options` selects.
pub open spec fn spec_pick<T>(c: Candidates<T>, options: Options) -> Option<T> {
    if options.latest() {
        c.spec_latest()
    } else {
        c.spec_earliest()
    }
}

pub fn pick<T>(c: Candidates<T>, options: Options) -> (r: Option<T>)
    ensures
        r == spec_pick(c, options),
{
    if options.is_latest() {
        c.latest()
    } else {
        c.earliest()
    }
}

/// A commit time as chrono renders it: the instant in milliseconds since
/// the Unix epoch, the fixed offset in seconds east of UTC, and the text.
#[derive(Clone, Debug, PartialEq, Eq)]
pub struct CommitTime {
    pub epoch_millis: i64,
    pub offset_seconds: i32,
    pub text: String,
}

/// What chrono's `timestamp_millis_opt` gives for an instant in milliseconds
/// in a fixed offset of the given seconds, read as the `Debug` text of the
/// civil time; none where chrono's calendar has no such time.
pub uninterp spec fn fixed_time_text(epoch_millis: int, offset_seconds: int) -> Option<Seq<char>>;

impl CommitTime {
    pub open spec fn well_formed(self) -> bool {
        &&& -DAY_SECONDS < self.offset_seconds < DAY_SECONDS
        &&& fixed_time_text(self.epoch_millis as int, self.offset_seconds as int) == Some(
            self.text@,
        )
    }
}

/// A fixed offset from UTC, with its size in seconds beside chrono's value.
/// Only `fixed_offset_east` makes one, so the two always agree.
pub struct FixedZone {
    seconds: i32,
    zone: FixedOffset,
}

impl FixedZone {
    pub closed spec fn spec_seconds(&self) -> i32 {
        self.seconds
    }
}

/// Relies on chrono's `FixedOffset::east_opt`, and `local_minus_utc` to read
/// the offset back: an offset exists exactly when it lies strictly within a
/// day of UTC, and then it is `secs` seconds east.
#[verifier::external_body]
fn fixed_offset_east(secs: i32) -> (r: Option<FixedZone>)
    ensures
        r.is_some() == (-DAY_SECONDS < secs < DAY_SECONDS),
        r matches Some(z) ==> z.spec_seconds() == secs,
{
    FixedOffset::east_opt(secs).map(|zone| FixedZone { seconds: zone.local_minus_utc(), zone })
}

/// Relies on chrono's `TimeZone::timestamp_millis_opt` for a fixed offset
/// (each result read back by `timestamp_millis`, `offset().local_minus_utc()`
/// and its `Debug` text): an instant maps to at most one civil time there,
/// carrying the same instant and the zone's offset.
#[verifier::external_body]
fn fixed_timestamp_millis(zone: &FixedZone, millis: i64) -> (r: Candidates<CommitTime>)
    ensures
        !(r is Ambiguous),
        r is Nothing == fixed_time_text(millis as int, zone.spec_seconds() as int) is None,
        r matches Candidates::Single(c) ==> c.epoch_millis == millis && c.offset_seconds
            == zone.spec_seconds() && fixed_time_text(millis as int, zone.spec_seconds() as int)
            == Some(c.text@),
{
    let read = |t: DateTime<FixedOffset>| CommitTime {
        epoch_millis: t.timestamp_millis(),
        offset_seconds: t.offset().local_minus_utc(),
        text: format!("{t:?}"),
    };
    match zone.zone.timestamp_millis_opt(millis) {
        chrono::MappedLocalTime::None => Candidates::Nothing,
        chrono::MappedLocalTime::Single(t) => Candidates::Single(read(t)),
        chrono::MappedLocalTime::Ambiguous(a, b) => Candidates::Ambiguous(read(a), read(b)),
    }
}

/// What chrono's `Debug` format of `Local::now()` gave: the time of the call
/// in the machine's zone, never empty.
#[verifier::external_body]
pub(crate) fn local_now_text() -> (r: String)
    ensures
        r@.len() > 0,
{
    format!("{:?}", Local::now())
}

/// The text of a commit's time in its own fixed offset: none where the
/// offset is a day or more from UTC, where the instant leaves the range of
/// milliseconds, or where chrono's calendar has no such time.
pub open spec fn spec_commit_text(t: GitTime) -> Option<Seq<char>> {
    if t.offset_representable() && t.millis_representable() {
        fixed_time_text(t.seconds * 1000, t.offset_seconds())
    } else {
        None
    }
}

/// Interprets a commit's time in its own fixed offset, as chrono does. A
/// fixed offset never gives two civil times; were there two, the tie-break
/// of `options` would choose.
pub fn calculate_time(git_time: GitTime, options: Options) -> (r: Option<CommitTime>)
    ensures
        r is Some == spec_commit_text(git_time) is Some,
        r matches Some(c) ==> c.well_formed() && c.epoch_millis == git_time.seconds * 1000
            && c.offset_seconds == git_time.offset_seconds() && spec_commit_text(git_time)
            == Some(c.text@),
{
    let offset_seconds = match git_time.offset_minutes.checked_mul(60) {
        Some(s) => s,
        None => return None,
    };
    let zone = match fixed_offset_east(offset_seconds) {
        Some(z) => z,
        None => return None,
    };
    let millis = match git_time.seconds.checked_mul(1000) {
        Some(m) => m,
        None => return None,
    };
    pick(fixed_timestamp_millis(&zone, millis), options)
}

} // verus!
