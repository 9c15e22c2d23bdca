use vstd::prelude::*;

verus! {

/// The first day that a date can hold, counted from January 1 of year 1 (day 1).
pub const MIN_DAYS: i32 = -95_746_129;

/// The last day that a date can hold, counted from January 1 of year 1 (day 1).
pub const MAX_DAYS: i32 = 95_745_399;

/// Seconds after local midnight that still belong to the previous day.
pub const SHIFT_SECONDS: u32 = 14_400;

/// The number of seconds in a day.
pub const DAY_SECONDS: u32 = 86_400;

/// A day of the week.
#[derive(Clone, Copy, Debug, PartialEq, Eq, Structural)]
pub enum Weekday {
    Mon,
    Tue,
    Wed,
    Thu,
    Fri,
    Sat,
    Sun,
}

/// The weekday whose distance from Sunday is `n` days (Sunday is 0).
pub open spec fn weekday_from_sunday(n: int) -> Weekday {
    if n == 0 {
        Weekday::Sun
    } else if n == 1 {
        Weekday::Mon
    } else if n == 2 {
        Weekday::Tue
    } else if n == 3 {
        Weekday::Wed
    } else if n == 4 {
        Weekday::Thu
    } else if n == 5 {
        Weekday::Fri
    } else {
        Weekday::Sat
    }
}

impl Weekday {
    /// How many days this weekday comes after Sunday.
    pub open spec fn spec_days_from_sunday(self) -> int {
        match self {
            Weekday::Sun => 0,
            Weekday::Mon => 1,
            Weekday::Tue => 2,
            Weekday::Wed => 3,
            Weekday::Thu => 4,
            Weekday::Fri => 5,
            Weekday::Sat => 6,
        }
    }

    pub fn days_from_sunday(self) -> (r: u32)
        ensures
            r == self.spec_days_from_sunday(),
    {
        match self {
            Weekday::Sun => 0,
            Weekday::Mon => 1,
            Weekday::Tue => 2,
            Weekday::Wed => 3,
            Weekday::Thu => 4,
            Weekday::Fri => 5,
            Weekday::Sat => 6,
        }
    }
}

/// A calendar day of the proleptic Gregorian calendar, held as its number of
/// days from January 1 of year 1, which is day 1 and a Monday.
#[derive(Clone, Copy, Debug, PartialEq, Eq, Structural)]
pub struct Date {
    pub days: i32,
}

impl Date {
    /// The day lies in the range of days that a date can hold.
    pub open spec fn wf(self) -> bool {
        MIN_DAYS <= self.days <= MAX_DAYS
    }

    /// The day of the week of this date.
    pub open spec fn spec_weekday(&self) -> Weekday {
        weekday_from_sunday(self.days as int % 7)
    }

    /// The date with the given day number, if a date can hold it.
    pub fn from_days(days: i32) -> (r: Option<Date>)
        ensures
            r is Some <==> MIN_DAYS <= days <= MAX_DAYS,
            r is Some ==> r->0.days == days && r->0.wf(),
    {
        if MIN_DAYS <= days && days <= MAX_DAYS {
            Some(Date { days })
        } else {
            None
        }
    }

    #[verifier::when_used_as_spec(spec_weekday)]
    pub fn weekday(&self) -> (r: Weekday)
        ensures
            r == self.spec_weekday(),
    {
        let n: i32 = self.days % 7;
        let k: i32 = if n < 0 { n + 7 } else { n };
        assert(k == self.days as int % 7);
        if k == 0 {
            Weekday::Sun
        } else if k == 1 {
            Weekday::Mon
        } else if k == 2 {
            Weekday::Tue
        } else if k == 3 {
            Weekday::Wed
        } else if k == 4 {
            Weekday::Thu
        } else if k == 5 {
            Weekday::Fri
        } else {
            Weekday::Sat
        }
    }
}

/// A local date and the seconds elapsed since its midnight.
#[derive(Clone, Copy, Debug, PartialEq, Eq, Structural)]
pub struct LocalDateTime {
    pub date: Date,
    pub seconds: u32,
}

impl LocalDateTime {
    pub open spec fn wf(self) -> bool {
        self.date.wf() && self.seconds < DAY_SECONDS
    }
}

/// The day to which a local date and time belongs once the first hours after
/// midnight are counted to the day before.
pub open spec fn spec_reference_date(now: LocalDateTime) -> Date {
    if now.seconds < SHIFT_SECONDS {
        Date { days: (now.date.days - 1) as i32 }
    } else {
        now.date
    }
}

/// The reference day of a local date and time: the time is moved back by
/// four hours and the date of the result is taken.
pub fn reference_date(now: LocalDateTime) -> (r: Date)
    requires
        now.wf(),
        now.seconds < SHIFT_SECONDS ==> now.date.days > MIN_DAYS,
    ensures
        r == spec_reference_date(now),
        r.wf(),
{
    if now.seconds < SHIFT_SECONDS {
        Date { days: now.date.days - 1 }
    } else {
        now.date
    }
}

} // verus!
