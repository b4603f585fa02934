//! The wall clock and the calendar, both read through `chrono`.

use vstd::prelude::*;

verus! {

/// One reading of the clock: the day it is in UTC and the instant, both
/// as the text in which records carry them.
#[derive(Debug, PartialEq, Eq)]
pub struct Moment {
    /// The calendar day, as `2025-12-22`.
    pub today: String,
    /// The instant, in RFC 3339 form.
    pub now: String,
}

/// A reading of the clock, with its texts as characters.
pub struct MomentModel {
    pub today: Seq<char>,
    pub now: Seq<char>,
}

impl View for Moment {
    type V = MomentModel;

    open spec fn view(&self) -> MomentModel {
        MomentModel { today: self.today@, now: self.now@ }
    }
}

impl Clone for Moment {
    fn clone(&self) -> (r: Self)
        ensures
            r@ == self@,
    {
        Moment { today: self.today.clone(), now: self.now.clone() }
    }
}

/// The day that lies `days` days before `date`, as `chrono` computes
/// it; `None` where `date` is no calendar day or the result is out of
/// the calendar's range.
pub uninterp spec fn date_before(date: Seq<char>, days: int) -> Option<Seq<char>>;

/// `Utc::now`, with the day and the instant written as text by
/// `NaiveDate::to_string` and `DateTime::to_rfc3339`. It depends on the
/// time of the call, so nothing is claimed of it.
#[verifier::external_body]
pub(crate) fn utc_now() -> Moment {
    let t = chrono::Utc::now();
    Moment { today: t.date_naive().to_string(), now: t.to_rfc3339() }
}

/// `NaiveDate::checked_sub_signed` on a day read by `NaiveDate`'s
/// `from_str`, written back by `NaiveDate::to_string`. The result
/// depends on the two arguments alone and is called `date_before`.
#[verifier::external_body]
pub(crate) fn days_before(date: &str, days: i32) -> (r: Option<String>)
    ensures
        r.deep_view() == date_before(date@, days as int),
{
    let day = date.parse::<chrono::NaiveDate>().ok()?;
    let span = chrono::TimeDelta::try_days(i64::from(days))?;
    day.checked_sub_signed(span).map(|d| d.to_string())
}

} // verus!
