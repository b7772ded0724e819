//! Points in time.

use vstd::prelude::*;

verus! {

/// The earliest second that a calendar date can be given for: -262143-01-01 00:00:00 UTC.
pub const FIRST_SECOND: i64 = -8334601228800;

/// The latest second that a calendar date can be given for: 262142-12-31 23:59:59 UTC.
pub const LAST_SECOND: i64 = 8210266876799;

/// The nanoseconds of one second.
pub const NANOS_PER_SECOND: u32 = 1_000_000_000;

/// The nanoseconds of one day.
pub const NANOS_PER_DAY: u64 = 86_400_000_000_000;

/// A point in time, in UTC: whole seconds since 1970-01-01 00:00:00, and the nanoseconds since
/// the last whole second.
#[derive(Clone, Copy)]
pub struct Timestamp {
    seconds: i64,
    nanos: u32,
}

/// The mathematical value of a point in time.
pub struct TimestampView {
    pub seconds: i64,
    pub nanos: u32,
}

impl TimestampView {
    /// Whether a calendar date can be given for this point in time.
    pub open spec fn in_range(self) -> bool {
        FIRST_SECOND <= self.seconds <= LAST_SECOND && self.nanos < NANOS_PER_SECOND
    }
}

impl View for Timestamp {
    type V = TimestampView;

    closed spec fn view(&self) -> TimestampView {
        TimestampView { seconds: self.seconds, nanos: self.nanos }
    }
}

impl Timestamp {
    /// A calendar date can be given for every point in time.
    #[verifier::type_invariant]
    spec fn well_formed(self) -> bool {
        self@.in_range()
    }

    /// The point in time that lies `seconds` and `nanos` after 1970, where there is a calendar
    /// date for it.
    pub fn new(seconds: i64, nanos: u32) -> (time: Option<Timestamp>)
        ensures
            time is Some <==> (TimestampView { seconds, nanos }).in_range(),
            time matches Some(t) ==> t@ == (TimestampView { seconds, nanos }),
    {
        if FIRST_SECOND <= seconds && seconds <= LAST_SECOND && nanos < NANOS_PER_SECOND {
            Some(Timestamp { seconds, nanos })
        } else {
            None
        }
    }

    /// 1970-01-01 00:00:00.
    pub fn epoch() -> (time: Timestamp)
        ensures
            time@ == (TimestampView { seconds: 0, nanos: 0 }),
    {
        Timestamp { seconds: 0, nanos: 0 }
    }
}

/// The nanoseconds from `then` to `now`.
pub open spec fn nanos_between(now: TimestampView, then: TimestampView) -> int {
    (now.seconds - then.seconds) * NANOS_PER_SECOND + (now.nanos - then.nanos)
}

/// The whole days from `then` to `now`, with what is left of a day cut off: negative where `then`
/// is the later of the two by a day or more.
pub open spec fn whole_days(now: TimestampView, then: TimestampView) -> int {
    let nanos: int = nanos_between(now, then);
    if nanos >= 0 {
        nanos / NANOS_PER_DAY as int
    } else {
        -((-nanos) / NANOS_PER_DAY as int)
    }
}

/// How `chrono::DateTime<Utc>` prints the point in time that lies `seconds` and `nanos` after 1970.
pub uninterp spec fn calendar_text(seconds: i64, nanos: u32) -> Seq<char>;

/// `chrono::Utc::now`: the time that the system clock shows.
///
/// Of which time that is, only this is said: it lies in the calendar's range. The call panics
/// where the system clock is set to a time before 1970 or after that range.
#[verifier::external_body]
pub(crate) fn utc_now() -> (now: Timestamp)
    ensures
        now@.in_range(),
{
    let now = chrono::Utc::now();
    Timestamp { seconds: now.timestamp(), nanos: now.timestamp_subsec_nanos() }
}

/// `chrono::DateTime<Utc>`'s subtraction, and `chrono::TimeDelta::num_days` of the difference: the
/// whole days between the two, with what is left of a day cut off.
#[verifier::external_body]
fn num_days(now: Timestamp, then: Timestamp) -> (days: i64)
    requires
        now@.in_range(),
        then@.in_range(),
    ensures
        days == whole_days(now@, then@),
{
    let now = chrono::DateTime::from_timestamp(now.seconds, now.nanos).unwrap();
    let then = chrono::DateTime::from_timestamp(then.seconds, then.nanos).unwrap();
    (now - then).num_days()
}

/// `chrono::DateTime<Utc>::to_string`, whose result `calendar_text` names.
#[verifier::external_body]
fn date_to_string(time: Timestamp) -> (text: String)
    requires
        time@.in_range(),
    ensures
        text@ == calendar_text(time@.seconds, time@.nanos),
{
    chrono::DateTime::from_timestamp(time.seconds, time.nanos).unwrap().to_string()
}

impl Timestamp {
    /// The whole days from `then` to this point in time.
    pub fn days_since(self, then: Timestamp) -> (days: i64)
        ensures
            days == whole_days(self@, then@),
    {
        proof {
            use_type_invariant(&self);
            use_type_invariant(&then);
        }
        num_days(self, then)
    }

    /// The date and time of this point in time.
    pub fn to_text(self) -> (text: String)
        ensures
            text@ == calendar_text(self@.seconds, self@.nanos),
    {
        proof {
            use_type_invariant(&self);
        }
        date_to_string(self)
    }
}

} // verus!
