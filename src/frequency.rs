use crate::text::same_text;
use vstd::prelude::*;

verus! {

pub const SECONDS_PER_MINUTE: u64 = 60;
pub const SECONDS_PER_HOUR: u64 = 3600;
pub const SECONDS_PER_DAY: u64 = 86400;
pub const SECONDS_PER_WEEK: u64 = 604800;

/// A non-negative length of time in whole seconds.
#[derive(Clone, Copy, Debug, PartialEq, Eq, Structural)]
pub struct TimeSpan {
    pub seconds: u64,
}

/// `n`, or the largest `u64` where `n` does not fit.
pub open spec fn saturate(n: int) -> int {
    if n > u64::MAX {
        u64::MAX as int
    } else {
        n
    }
}

/// The unit in which a check frequency is configured.
#[derive(Clone, Copy, Debug, PartialEq, Eq, Structural)]
pub enum FrequencyPeriod {
    Minute,
    Hour,
    Day,
    Week,
}

impl FrequencyPeriod {
    pub open spec fn unit_seconds(self) -> int {
        match self {
            FrequencyPeriod::Minute => 60,
            FrequencyPeriod::Hour => 3600,
            FrequencyPeriod::Day => 86400,
            FrequencyPeriod::Week => 604800,
        }
    }

    /// The span of `value` units of this period; a span beyond `u64::MAX`
    /// seconds is held at `u64::MAX`.
    pub fn to_duration(&self, value: u64) -> (r: TimeSpan)
        ensures
            r.seconds == saturate(value * self.unit_seconds()),
    {
        let unit = match self {
            FrequencyPeriod::Minute => SECONDS_PER_MINUTE,
            FrequencyPeriod::Hour => SECONDS_PER_HOUR,
            FrequencyPeriod::Day => SECONDS_PER_DAY,
            FrequencyPeriod::Week => SECONDS_PER_WEEK,
        };
        match value.checked_mul(unit) {
            Some(s) => TimeSpan { seconds: s },
            None => TimeSpan { seconds: u64::MAX },
        }
    }
}

/// The period that a configuration names, in capitalised or lower-case form.
pub open spec fn period_named(name: Seq<char>) -> Option<FrequencyPeriod> {
    if name == "Minute"@ || name == "minute"@ {
        Some(FrequencyPeriod::Minute)
    } else if name == "Hour"@ || name == "hour"@ {
        Some(FrequencyPeriod::Hour)
    } else if name == "Day"@ || name == "day"@ {
        Some(FrequencyPeriod::Day)
    } else if name == "Week"@ || name == "week"@ {
        Some(FrequencyPeriod::Week)
    } else {
        None
    }
}

impl FrequencyPeriod {
    /// The period with the given name.
    pub fn from_name(name: &str) -> (r: Option<FrequencyPeriod>)
        ensures
            r == period_named(name@),
    {
        if same_text(name, "Minute") || same_text(name, "minute") {
            Some(FrequencyPeriod::Minute)
        } else if same_text(name, "Hour") || same_text(name, "hour") {
            Some(FrequencyPeriod::Hour)
        } else if same_text(name, "Day") || same_text(name, "day") {
            Some(FrequencyPeriod::Day)
        } else if same_text(name, "Week") || same_text(name, "week") {
            Some(FrequencyPeriod::Week)
        } else {
            None
        }
    }
}

impl Default for FrequencyPeriod {
    fn default() -> (r: Self)
        ensures
            r == FrequencyPeriod::Hour,
    {
        FrequencyPeriod::Hour
    }
}

/// How many periods make up a check frequency.
#[derive(Clone, Copy, Debug, PartialEq, Eq, Structural)]
pub struct FrequencyValue(pub u64);

impl Default for FrequencyValue {
    fn default() -> (r: Self)
        ensures
            r.0 == 1,
    {
        FrequencyValue(1)
    }
}

} // verus!
