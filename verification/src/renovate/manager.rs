//! The Renovate badge of a repository: how long ago Renovate last finished a
//! job on it.
use vstd::prelude::*;
use vstd::string::*;

use chrono::{DateTime, NaiveDateTime, Utc};

use super::client::spec::{Job, JobResult};
use super::errors::RenovateError;
use crate::badges::{Badge, BadgeColor};
use crate::search::lemma_last_match;
use crate::text::{decimal, push_signed_decimal, signed_decimal};

verus! {

#[verifier::external_type_specification]
#[verifier::external_body]
pub struct ExNaiveDateTime(chrono::NaiveDateTime);

/// Names what `chrono::DateTime::parse_from_rfc3339` gives for a text, taken
/// in UTC with `naive_utc`: the instant, or nothing where the text is refused.
pub uninterp spec fn rfc3339_utc(text: Seq<char>) -> Option<NaiveDateTime>;

/// Calls `chrono::DateTime::parse_from_rfc3339` and takes the instant in UTC
/// with `naive_utc`. The contract claims that the result is the named one for
/// the text: it depends on the text alone.
#[verifier::external_body]
fn parse_rfc3339(text: &str) -> (r: Option<NaiveDateTime>)
    ensures
        r == rfc3339_utc(text@),
{
    DateTime::parse_from_rfc3339(text).ok().map(|dt| dt.naive_utc())
}

/// Calls `chrono::Utc::now` and takes the instant with `naive_utc`. Nothing is
/// claimed of the instant.
#[verifier::external_body]
fn now_utc() -> NaiveDateTime {
    Utc::now().naive_utc()
}

/// Names the span from one instant to another that
/// `chrono::NaiveDateTime::signed_duration_since` gives, as its whole seconds
/// (`num_seconds`, rounded towards zero) and the nanoseconds left over
/// (`subsec_nanos`, of the same sign).
pub uninterp spec fn chrono_span(from: NaiveDateTime, to: NaiveDateTime) -> (i64, i32);

/// Calls `chrono::NaiveDateTime::signed_duration_since` and takes the span
/// apart with `num_seconds` and `subsec_nanos`. The contract claims that the
/// parts are the named ones for the two instants, and what chrono's source
/// shows of them: the nanoseconds lie strictly between minus and plus one
/// second, and have the sign of the seconds where those are not zero.
#[verifier::external_body]
fn span_between(from: &NaiveDateTime, to: &NaiveDateTime) -> (r: (i64, i32))
    ensures
        r == chrono_span(*from, *to),
        -1_000_000_000 < r.1 < 1_000_000_000,
        r.0 > 0 ==> r.1 >= 0,
        r.0 < 0 ==> r.1 <= 0,
{
    let span = to.signed_duration_since(*from);
    (span.num_seconds(), span.subsec_nanos())
}

/// A span of time: its whole seconds, rounded towards zero, and the
/// nanoseconds left over, of the same sign.
#[derive(Clone, Copy, PartialEq, Eq, Structural, Debug)]
pub struct Duration {
    pub secs: i64,
    pub nanos: i32,
}

/// Whether the seconds and nanoseconds of a span fit together: the
/// nanoseconds make less than a second and share the sign of the seconds.
pub open spec fn span_parts_fit(secs: i64, nanos: i32) -> bool {
    &&& -1_000_000_000 < nanos < 1_000_000_000
    &&& secs > 0 ==> nanos >= 0
    &&& secs < 0 ==> nanos <= 0
}

/// Integer division rounding towards zero.
pub open spec fn trunc_div(a: int, b: int) -> int
    recommends
        b > 0,
{
    if a >= 0 {
        a / b
    } else {
        -((-a) / b)
    }
}

impl Duration {
    /// A span of `secs` seconds.
    pub fn seconds(secs: i64) -> (r: Duration)
        ensures
            r == (Duration { secs, nanos: 0 }),
    {
        Duration { secs, nanos: 0 }
    }

    /// A span of `minutes` minutes.
    pub fn minutes(minutes: i64) -> (r: Duration)
        requires
            i64::MIN <= minutes * 60 <= i64::MAX,
        ensures
            r == (Duration { secs: (minutes * 60) as i64, nanos: 0 }),
    {
        Duration { secs: minutes * 60, nanos: 0 }
    }

    /// A span of `hours` hours.
    pub fn hours(hours: i64) -> (r: Duration)
        requires
            i64::MIN <= hours * 3600 <= i64::MAX,
        ensures
            r == (Duration { secs: (hours * 3600) as i64, nanos: 0 }),
    {
        Duration { secs: hours * 3600, nanos: 0 }
    }

    /// The whole minutes of the span, rounded towards zero.
    pub fn num_minutes(&self) -> (r: i64)
        ensures
            r == trunc_div(self.secs as int, 60),
    {
        let a = self.secs as i128;
        if a >= 0 {
            (a / 60) as i64
        } else {
            let m = (-a) / 60;
            assert(m <= -a);
            (-m) as i64
        }
    }

    /// The whole hours of the span, rounded towards zero.
    pub fn num_hours(&self) -> (r: i64)
        ensures
            r == trunc_div(self.secs as int, 3600),
    {
        let a = self.secs as i128;
        if a >= 0 {
            (a / 3600) as i64
        } else {
            let h = (-a) / 3600;
            assert(h <= -a);
            (-h) as i64
        }
    }
}

/// How long ago something happened: in minutes below an hour, in hours
/// from then on.
#[derive(Clone, Copy, PartialEq, Eq, Structural, Debug)]
pub enum RelativeTimestamp {
    InMinutes(Duration),
    InHours(Duration),
}

/// The relative timestamp of a span of `secs` seconds and `nanos`
/// nanoseconds: a negative span (a clock that runs ahead) counts as none, and
/// the unit is minutes below an hour and hours from then on.
pub open spec fn relative_from_span(secs: i64, nanos: i32) -> RelativeTimestamp {
    let d = if secs < 0 || nanos < 0 {
        Duration { secs: 0, nanos: 0 }
    } else {
        Duration { secs, nanos }
    };
    if trunc_div(d.secs as int, 60) < 60 {
        RelativeTimestamp::InMinutes(d)
    } else {
        RelativeTimestamp::InHours(d)
    }
}

/// The relative timestamp of a span of `delta` whole seconds.
pub open spec fn relative_from_seconds(delta: i64) -> RelativeTimestamp {
    relative_from_span(delta, 0)
}

impl RelativeTimestamp {
    /// The text of a relative timestamp, such as `just now`, `1 minute ago`
    /// or `5 hours ago`.
    pub open spec fn spec_text(self) -> Seq<char> {
        match self {
            RelativeTimestamp::InMinutes(d) => {
                let m = trunc_div(d.secs as int, 60);
                if m == 0 {
                    "just now"@
                } else if m == 1 {
                    "1 minute ago"@
                } else {
                    signed_decimal(m) + " minutes ago"@
                }
            },
            RelativeTimestamp::InHours(d) => {
                let h = trunc_div(d.secs as int, 3600);
                if h == 1 {
                    "1 hour ago"@
                } else {
                    signed_decimal(h) + " hours ago"@
                }
            },
        }
    }

    /// The relative timestamp of a span of `delta` whole seconds.
    pub fn from_seconds(delta: i64) -> (r: RelativeTimestamp)
        ensures
            r == relative_from_seconds(delta),
    {
        Self::from_duration(Duration::seconds(delta))
    }

    /// The relative timestamp of a span: a negative span counts as none.
    pub fn from_duration(span: Duration) -> (r: RelativeTimestamp)
        ensures
            r == relative_from_span(span.secs, span.nanos),
    {
        let duration = if span.secs < 0 || span.nanos < 0 {
            Duration { secs: 0, nanos: 0 }
        } else {
            span
        };
        if duration.num_minutes() < 60 {
            RelativeTimestamp::InMinutes(duration)
        } else {
            RelativeTimestamp::InHours(duration)
        }
    }

    /// The text of the relative timestamp.
    pub fn to_string(&self) -> (r: String)
        ensures
            r@ == self.spec_text(),
    {
        match self {
            RelativeTimestamp::InMinutes(d) => {
                let m = d.num_minutes();
                if m == 0 {
                    "just now".to_owned()
                } else if m == 1 {
                    "1 minute ago".to_owned()
                } else {
                    let mut s = String::new();
                    push_signed_decimal(&mut s, m);
                    s.append(" minutes ago");
                    s
                }
            },
            RelativeTimestamp::InHours(d) => {
                let h = d.num_hours();
                if h == 1 {
                    "1 hour ago".to_owned()
                } else {
                    let mut s = String::new();
                    push_signed_decimal(&mut s, h);
                    s.append(" hours ago");
                    s
                }
            },
        }
    }
}

/// The index of the last job of the list that is done, if any.
pub open spec fn last_done(jobs: Seq<Job>) -> Option<int> {
    if exists|k: int| 0 <= k < jobs.len() && (#[trigger] jobs[k]).result is Done {
        Some(
            choose|k: int|
                0 <= k < jobs.len() && (#[trigger] jobs[k]).result is Done && forall|l: int|
                    k < l < jobs.len() ==> (#[trigger] jobs[l]).result !is Done,
        )
    } else {
        None
    }
}

/// The job a badge is made from is the latest finished one: it is done and
/// no job after it is; and there is none exactly when no job is done.
pub proof fn lemma_last_done_is_latest_finished(jobs: Seq<Job>)
    ensures
        last_done(jobs) matches Some(k) ==> 0 <= k < jobs.len() && jobs[k].result is Done && forall|
            l: int,
        | k < l < jobs.len() ==> (#[trigger] jobs[l]).result !is Done,
        last_done(jobs) is None <==> forall|l: int| 0 <= l < jobs.len() ==> (#[trigger] jobs[l]).result !is Done,
{
    if exists|k: int| 0 <= k < jobs.len() && (#[trigger] jobs[k]).result is Done {
        let k = choose|k: int| 0 <= k < jobs.len() && (#[trigger] jobs[k]).result is Done;
        lemma_last_match(jobs, |j: Job| j.result is Done, k);
    }
}

/// The badge message for a span given as whole seconds and nanoseconds.
pub open spec fn badge_message(span: (i64, i32)) -> Seq<char> {
    relative_from_span(span.0, span.1).spec_text()
}

/// An instant that lies after the reference instant (a clock that runs
/// ahead), or less than a minute before it, reads `just now`.
pub proof fn lemma_recent_or_future_is_just_now(secs: i64, nanos: i32)
    requires
        secs < 60,
        span_parts_fit(secs, nanos),
    ensures
        relative_from_span(secs, nanos).spec_text() == "just now"@,
{
}

/// Below an hour a span reads in minutes, from an hour on in hours.
pub proof fn lemma_unit_switches_at_an_hour(secs: i64, nanos: i32)
    requires
        secs >= 0,
        span_parts_fit(secs, nanos),
    ensures
        secs < 3600 ==> relative_from_span(secs, nanos) is InMinutes,
        secs >= 3600 ==> relative_from_span(secs, nanos) is InHours,
{
}

/// What a span that is not negative reads: `just now` below a minute,
/// `1 minute ago` below two, the whole minutes in base 10 and ` minutes ago`
/// below an hour, `1 hour ago` below two hours, and the whole hours in base
/// 10 and ` hours ago` from then on.
pub proof fn lemma_span_texts(secs: i64, nanos: i32)
    requires
        secs >= 0,
        0 <= nanos < 1_000_000_000,
    ensures
        secs < 60 ==> relative_from_span(secs, nanos).spec_text() == "just now"@,
        60 <= secs < 120 ==> relative_from_span(secs, nanos).spec_text() == "1 minute ago"@,
        120 <= secs < 3600 ==> relative_from_span(secs, nanos).spec_text() == decimal(
            (secs / 60) as nat,
        ) + " minutes ago"@,
        3600 <= secs < 7200 ==> relative_from_span(secs, nanos).spec_text() == "1 hour ago"@,
        7200 <= secs ==> relative_from_span(secs, nanos).spec_text() == decimal((secs / 3600) as nat)
            + " hours ago"@,
{
    assert(trunc_div(secs as int, 60) == secs / 60);
    assert(trunc_div(secs as int, 3600) == secs / 3600);
}

/// Answers the questions about Renovate with the client that fetches its
/// data.
pub struct RenovateManager<C> {
    client: C,
}

impl<C> RenovateManager<C> {
    pub fn new(client: C) -> (r: Self)
        ensures
            r.client() == client,
    {
        Self { client }
    }

    /// The client that fetches the data.
    pub closed spec fn client(&self) -> C {
        self.client
    }

    /// The client that fetches the data.
    pub fn get_client(&self) -> (r: &C)
        ensures
            *r == self.client(),
    {
        &self.client
    }

    /// How long before `dt2` the instant `dt1` lies, in minutes below an
    /// hour and in hours from then on; an instant after `dt2` counts as none.
    pub fn get_relative_timestamp(dt1: &NaiveDateTime, dt2: &NaiveDateTime) -> (r: RelativeTimestamp)
        ensures
            r == relative_from_span(chrono_span(*dt1, *dt2).0, chrono_span(*dt1, *dt2).1),
    {
        let span = span_between(dt1, dt2);
        RelativeTimestamp::from_duration(Duration { secs: span.0, nanos: span.1 })
    }

    /// The index of the last job of the list that is done, if any.
    pub fn find_last_done(jobs: &Vec<Job>) -> (r: Option<usize>)
        ensures
            match r {
                Some(k) => k < jobs@.len() && last_done(jobs@) == Some(k as int),
                None => last_done(jobs@) is None,
            },
    {
        let mut i: usize = jobs.len();
        while i > 0
            invariant
                i <= jobs@.len(),
                forall|l: int| i <= l < jobs@.len() ==> (#[trigger] jobs@[l]).result !is Done,
            decreases i,
        {
            i = i - 1;
            match &jobs[i].result {
                JobResult::Done => {
                    proof {
                        let k = i as int;
                        assert(0 <= k < jobs@.len() && jobs@[k].result is Done);
                        let c = choose|c: int|
                            0 <= c < jobs@.len() && (#[trigger] jobs@[c]).result is Done && forall|
                                l: int,
                            | c < l < jobs@.len() ==> (#[trigger] jobs@[l]).result !is Done;
                        assert(0 <= c < jobs@.len() && jobs@[c].result is Done && forall|l: int|
                            c < l < jobs@.len() ==> (#[trigger] jobs@[l]).result !is Done) by {
                            assert(forall|l: int|
                                k < l < jobs@.len() ==> (#[trigger] jobs@[l]).result !is Done);
                        }
                        if c < k {
                            assert(jobs@[k].result !is Done);
                        }
                        if c > k {
                            assert(jobs@[c].result !is Done);
                        }
                    }
                    return Some(i);
                },
                JobResult::Other(_) => {},
            }
        }
        None
    }

    /// The Renovate badge for the jobs of a repository, oldest first, at the
    /// instant `now`: its message tells how long ago the last finished job
    /// ended. Without a finished job the resource is missing; a finished job
    /// whose end is not an RFC 3339 timestamp is an internal error.
    pub fn badge_from_jobs(jobs: &Vec<Job>, now: &NaiveDateTime, style: BadgeColor) -> (r: Result<
        Badge,
        RenovateError,
    >)
        ensures
            last_done(jobs@) is None <==> r == Err::<Badge, RenovateError>(
                RenovateError::ResourceNotFound { source: None },
            ),
            last_done(jobs@) matches Some(k) ==> (rfc3339_utc(jobs@[k].ended@) is None <==> r
                == Err::<Badge, RenovateError>(RenovateError::InternalError)),
            last_done(jobs@) matches Some(k) ==> (rfc3339_utc(jobs@[k].ended@) is Some <==> r is Ok),
            r matches Ok(b) ==> {
                &&& b.schema_version == 1
                &&& b.label@ == "renovate"@
                &&& b.color == style
                &&& last_done(jobs@) matches Some(k) && rfc3339_utc(jobs@[k].ended@) matches Some(
                    ended,
                ) && b.message@ == badge_message(chrono_span(ended, *now))
            },
    {
        match Self::find_last_done(jobs) {
            Some(k) => match parse_rfc3339(jobs[k].ended.as_str()) {
                Some(ended) => {
                    let relative = Self::get_relative_timestamp(&ended, now);
                    let message = relative.to_string();
                    Ok(Badge::new("renovate".to_owned(), message, style))
                },
                None => Err(RenovateError::InternalError),
            },
            None => Err(RenovateError::ResourceNotFound { source: None }),
        }
    }

    /// The Renovate badge for the jobs of a repository, oldest first, as of
    /// now.
    pub fn get_badge(jobs: &Vec<Job>, style: BadgeColor) -> (r: Result<Badge, RenovateError>)
        ensures
            last_done(jobs@) is None <==> r == Err::<Badge, RenovateError>(
                RenovateError::ResourceNotFound { source: None },
            ),
            last_done(jobs@) matches Some(k) ==> (rfc3339_utc(jobs@[k].ended@) is None <==> r
                == Err::<Badge, RenovateError>(RenovateError::InternalError)),
            last_done(jobs@) matches Some(k) ==> (rfc3339_utc(jobs@[k].ended@) is Some <==> r is Ok),
            r matches Ok(b) ==> {
                &&& b.schema_version == 1
                &&& b.label@ == "renovate"@
                &&& b.color == style
                &&& last_done(jobs@) matches Some(k) && rfc3339_utc(jobs@[k].ended@) matches Some(
                    ended,
                ) && exists|now: NaiveDateTime| b.message@ == badge_message(chrono_span(ended, now))
            },
    {
        let now = now_utc();
        Self::badge_from_jobs(jobs, &now, style)
    }
}

} // verus!
