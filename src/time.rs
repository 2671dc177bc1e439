//! The simulation's calendar: 1200 ticks a day, 28 days a month, 12 months
//! a year. A `DfTime` is a count of ticks.

use vstd::prelude::*;

verus! {

pub const TICKS_PER_DAY: u64 = 1200;
pub const TICKS_PER_WEEK: u64 = 8400;
pub const TICKS_PER_MONTH: u64 = 33600;
pub const TICKS_PER_YEAR: u64 = 403200;
pub const TICKS_PER_HOUR: u64 = 50;

/// A span of simulation time, in ticks.
#[derive(Clone, Copy, Debug, PartialEq, Eq, Structural)]
pub struct DfTime {
    pub ticks: u64,
}

/// Index, from 0, of the month in which tick count `t` falls.
pub open spec fn month_index(t: u64) -> int {
    (t / TICKS_PER_MONTH) as int % 12
}

pub open spec fn month_name(i: int) -> Seq<char> {
    if i == 0 {
        "Granite"@
    } else if i == 1 {
        "Slate"@
    } else if i == 2 {
        "Felsite"@
    } else if i == 3 {
        "Hematite"@
    } else if i == 4 {
        "Malachite"@
    } else if i == 5 {
        "Galena"@
    } else if i == 6 {
        "Limestone"@
    } else if i == 7 {
        "Sandstone"@
    } else if i == 8 {
        "Timber"@
    } else if i == 9 {
        "Moonstone"@
    } else if i == 10 {
        "Opal"@
    } else {
        "Obsidian"@
    }
}

/// Relies on `Duration::from_secs`, one tick to a second.
#[verifier::external_body]
fn duration_from_ticks(t: u64) -> (r: std::time::Duration) {
    std::time::Duration::from_secs(t)
}

impl DfTime {
    /// Index, from 0, of the current month of the year.
    pub fn month_of_year(&self) -> (r: u64)
        ensures
            r as int == month_index(self.ticks),
            r < 12,
    {
        (self.ticks / TICKS_PER_MONTH) % 12
    }

    /// Name of the current month of the year.
    pub fn current_month(&self) -> (r: String)
        ensures
            r@ == month_name(month_index(self.ticks)),
    {
        let m = self.month_of_year();
        let name = if m == 0 {
            "Granite"
        } else if m == 1 {
            "Slate"
        } else if m == 2 {
            "Felsite"
        } else if m == 3 {
            "Hematite"
        } else if m == 4 {
            "Malachite"
        } else if m == 5 {
            "Galena"
        } else if m == 6 {
            "Limestone"
        } else if m == 7 {
            "Sandstone"
        } else if m == 8 {
            "Timber"
        } else if m == 9 {
            "Moonstone"
        } else if m == 10 {
            "Opal"
        } else {
            "Obsidian"
        };
        String::from_str(name)
    }

    /// `years` whole years; a count too large for the tick counter gives 0.
    pub fn from_years(years: u64) -> (r: DfTime)
        ensures
            years * TICKS_PER_YEAR <= u64::MAX ==> r.ticks == years * TICKS_PER_YEAR,
            years * TICKS_PER_YEAR > u64::MAX ==> r.ticks == 0,
    {
        match years.checked_mul(TICKS_PER_YEAR) {
            Some(t) => DfTime { ticks: t },
            None => DfTime { ticks: 0 },
        }
    }

    pub fn from_months(months: u64) -> (r: DfTime)
        requires
            months * TICKS_PER_MONTH <= u64::MAX,
        ensures
            r.ticks == months * TICKS_PER_MONTH,
    {
        DfTime { ticks: months * TICKS_PER_MONTH }
    }

    pub fn from_weeks(weeks: u64) -> (r: DfTime)
        requires
            weeks * TICKS_PER_WEEK <= u64::MAX,
        ensures
            r.ticks == weeks * TICKS_PER_WEEK,
    {
        DfTime { ticks: weeks * TICKS_PER_WEEK }
    }

    pub fn from_days(days: u64) -> (r: DfTime)
        requires
            days * TICKS_PER_DAY <= u64::MAX,
        ensures
            r.ticks == days * TICKS_PER_DAY,
    {
        DfTime { ticks: days * TICKS_PER_DAY }
    }

    pub fn from_hours(hours: u64) -> (r: DfTime)
        requires
            hours * TICKS_PER_HOUR <= u64::MAX,
        ensures
            r.ticks == hours * TICKS_PER_HOUR,
    {
        DfTime { ticks: hours * TICKS_PER_HOUR }
    }

    /// Twelve minutes make a tick.
    pub fn from_minutes(minutes: u64) -> (r: DfTime)
        ensures
            r.ticks == minutes / 12,
    {
        DfTime { ticks: minutes / 12 }
    }

    pub fn from_seconds(seconds: u64) -> (r: DfTime)
        ensures
            r.ticks == seconds,
    {
        DfTime { ticks: seconds }
    }

    pub fn to_years(&self) -> (r: u64)
        ensures
            r == self.ticks / TICKS_PER_YEAR,
    {
        self.ticks / TICKS_PER_YEAR
    }

    pub fn to_months(&self) -> (r: u64)
        ensures
            r == self.ticks / TICKS_PER_MONTH,
    {
        self.ticks / TICKS_PER_MONTH
    }

    pub fn to_weeks(&self) -> (r: u64)
        ensures
            r == self.ticks / TICKS_PER_WEEK,
    {
        self.ticks / TICKS_PER_WEEK
    }

    pub fn to_days(&self) -> (r: u64)
        ensures
            r == self.ticks / TICKS_PER_DAY,
    {
        self.ticks / TICKS_PER_DAY
    }

    pub fn to_hours(&self) -> (r: u64)
        ensures
            r == self.ticks / TICKS_PER_HOUR,
    {
        self.ticks / TICKS_PER_HOUR
    }

    pub fn to_minutes(&self) -> (r: u64)
        requires
            self.ticks * 12 <= u64::MAX,
        ensures
            r == self.ticks * 12,
    {
        self.ticks * 12
    }

    pub fn to_seconds(&self) -> (r: u64)
        ensures
            r == self.ticks,
    {
        self.ticks
    }

    /// The span as a `Duration`, one tick to a second.
    pub fn as_duration(&self) -> std::time::Duration {
        duration_from_ticks(self.ticks)
    }

    /// This time, `other` ticks earlier.
    pub fn sub(&self, other: u64) -> (r: DfTime)
        requires
            other <= self.ticks,
        ensures
            r.ticks == self.ticks - other,
    {
        DfTime { ticks: self.ticks - other }
    }

    /// The sum of two spans.
    pub fn add(self, other: DfTime) -> (r: DfTime)
        requires
            self.ticks + other.ticks <= u64::MAX,
        ensures
            r.ticks == self.ticks + other.ticks,
    {
        DfTime { ticks: self.ticks + other.ticks }
    }

    pub fn default() -> (r: DfTime)
        ensures
            r.ticks == 0,
    {
        DfTime { ticks: 0 }
    }
}

} // verus!
