//! How long the machine has been running.

use crate::context::{
    field_views, lemma_publish_one, Field, FieldView, ScalarView, ScriptContext, Value, ValueView,
    Write,
};
use crate::errors::FetchError;
use crate::inject::Inject;
use chrono::{Datelike, TimeZone, Timelike, Utc};
use vstd::prelude::*;

verus! {

/// The number that chrono's calendar gives the first day of 1970, counting
/// from the first day of the year 1 as day 1.
pub const EPOCH_DAY: i64 = 719_163;

/// Whether chrono can hold the instant that lies `seconds` after the start
/// of 1970 in UTC.
pub uninterp spec fn utc_in_range(seconds: int) -> bool;

/// chrono's `TimeZone::timestamp_opt` on `Utc`, and of the instant that it
/// gives `Datelike::num_days_from_ce`, `Timelike::hour`, `Timelike::minute`
/// and `Timelike::second`, in this order.
///
/// Claimed: an instant comes back exactly when chrono can hold it, and it
/// can hold every instant up to `u32::MAX` seconds after the start of 1970.
/// The number of the day is that of the first day of 1970 and the whole
/// days since then, rounded towards the past. Hour, minute and second are
/// those of the time of day, which is what is left of `seconds` over those
/// whole days.
#[verifier::external_body]
fn utc_clock(seconds: i64) -> (clock: Option<(i32, u32, u32, u32)>)
    ensures
        clock is Some <==> utc_in_range(seconds as int),
        0 <= seconds <= u32::MAX ==> clock is Some,
        clock matches Some(c) ==> {
            &&& c.0 == EPOCH_DAY + seconds as int / 86400
            &&& c.1 == (seconds as int % 86400) / 3600
            &&& c.2 == (seconds as int % 3600) / 60
            &&& c.3 == seconds as int % 60
        },
{
    Utc.timestamp_opt(seconds, 0).single().map(
        |at| (at.num_days_from_ce(), at.hour(), at.minute(), at.second()),
    )
}

/// The uptime in whole days and the rest of it in hours, minutes and
/// seconds. The days are rounded towards the past, so that the four always
/// add up to the seconds that they were made of.
#[derive(Clone, Debug, PartialEq, Eq)]
pub struct Uptime {
    pub days: i64,
    pub hours: u32,
    pub minutes: u32,
    pub seconds: u32,
}

/// Whether `name` names a kernel on which the uptime is measured.
pub open spec fn is_measured(name: Seq<char>) -> bool {
    name == "Linux"@ || name == "Windows"@ || name == "MINIX"@
}

/// The seconds that count on the kernel `name` when `seconds` were
/// measured: the measured ones where the uptime is measured, 0 elsewhere.
pub open spec fn counted(name: Seq<char>, seconds: int) -> int {
    if is_measured(name) {
        seconds
    } else {
        0
    }
}

impl Uptime {
    /// Whether the uptime is measured on the kernel `kernel_name`.
    pub fn measured_on(kernel_name: &str) -> (measured: bool)
        ensures
            measured == is_measured(kernel_name@),
    {
        crate::context::same_text(kernel_name, "Linux") || crate::context::same_text(
            kernel_name,
            "Windows",
        ) || crate::context::same_text(kernel_name, "MINIX")
    }

    /// The seconds that lie between the moment `boot` at which the machine
    /// started and the moment `now`, both in seconds since the same start,
    /// where that number fits.
    pub fn since_boot(boot: i64, now: i64) -> (seconds: Option<i64>)
        ensures
            seconds is Some <==> i64::MIN <= now - boot <= i64::MAX,
            seconds matches Some(s) ==> s == now - boot,
    {
        now.checked_sub(boot)
    }

    /// The uptime on the kernel `kernel_name` where `seconds` were measured.
    /// On a kernel on which the uptime is not measured, `seconds` count for
    /// nothing and the uptime is that of 0 seconds. There is an uptime
    /// exactly when chrono can hold the instant that lies that many seconds
    /// after the start of 1970.
    pub fn new(kernel_name: &str, seconds: i64) -> (uptime: Option<Uptime>)
        ensures
            uptime is Some <==> utc_in_range(counted(kernel_name@, seconds as int)),
            !is_measured(kernel_name@) ==> uptime is Some,
            0 <= seconds <= u32::MAX ==> uptime is Some,
            uptime matches Some(u) ==> {
                let s = counted(kernel_name@, seconds as int);
                &&& u.days == s / 86400
                &&& u.hours == (s % 86400) / 3600
                &&& u.minutes == (s % 3600) / 60
                &&& u.seconds == s % 60
                &&& u.days * 86400 + u.hours * 3600 + u.minutes * 60 + u.seconds == s
            },
    {
        let counted: i64 = if Self::measured_on(kernel_name) {
            seconds
        } else {
            0
        };
        match utc_clock(counted) {
            Some((day, hours, minutes, seconds)) => {
                let days: i64 = day as i64 - EPOCH_DAY;
                Some(Uptime { days, hours, minutes, seconds })
            },
            None => None,
        }
    }

    /// The record that is published: `days`, `hours`, `minutes`, `seconds`.
    pub open spec fn record(&self) -> Seq<FieldView> {
        seq![
            FieldView { name: "days"@, value: ScalarView::Integer(self.days as int) },
            FieldView { name: "hours"@, value: ScalarView::Integer(self.hours as int) },
            FieldView { name: "minutes"@, value: ScalarView::Integer(self.minutes as int) },
            FieldView { name: "seconds"@, value: ScalarView::Integer(self.seconds as int) },
        ]
    }
}

impl Inject for Uptime {
    open spec fn prepared(&self) -> bool {
        true
    }

    /// One write: the record, under the name `uptime`.
    open spec fn writes(&self) -> Seq<Write> {
        seq![("uptime"@, ValueView::Record(self.record()))]
    }

    /// Nothing to prepare.
    fn prep(&mut self) -> (r: Result<(), FetchError>)
        ensures
            r is Ok,
            *final(self) == *old(self),
    {
        Ok(())
    }

    fn inject(&self, ctx: &mut ScriptContext) {
        let fields = vec![
            Field::integer("days", self.days as i128),
            Field::integer("hours", self.hours as i128),
            Field::integer("minutes", self.minutes as i128),
            Field::integer("seconds", self.seconds as i128),
        ];
        let value = Value::Record(fields);
        proof {
            assert(field_views(fields@) =~= self.record());
            lemma_publish_one(ctx.globals(), ("uptime"@, value@));
        }
        ctx.publish("uptime".to_owned(), value);
    }
}

} // verus!
