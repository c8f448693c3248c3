//! A wall-clock time of day, checked on construction, and a builder for it.
use vstd::prelude::*;

verus! {

/// Whether `hour:minute:second` names a time of day.
pub open spec fn valid_time(hour: u8, minute: u8, second: u8) -> bool {
    hour <= 23 && minute <= 59 && second <= 59
}

/// A time of day, to the second.
#[derive(Debug, Clone, Copy)]
pub struct Time {
    hour: u8,
    minute: u8,
    second: u8,
}

impl View for Time {
    type V = (u8, u8, u8);

    /// Hour, minute and second.
    closed spec fn view(&self) -> (u8, u8, u8) {
        (self.hour, self.minute, self.second)
    }
}

impl Time {
    #[verifier::type_invariant]
    spec fn inv(self) -> bool {
        valid_time(self.hour, self.minute, self.second)
    }

    /// The time `hour:minute:second`, if it is one: hours run to 23,
    /// minutes and seconds to 59.
    pub fn new(hour: u8, minute: u8, second: u8) -> (r: Option<Self>)
        ensures
            r is Some <==> valid_time(hour, minute, second),
            r matches Some(t) ==> t@ == (hour, minute, second),
    {
        if hour > 23 {
            return None;
        }
        if minute > 59 {
            return None;
        }
        if second > 59 {
            return None;
        }
        Some(Time { hour, minute, second })
    }

    /// The time `hour:minute:second`, which must be one.
    pub fn new_unchecked(hour: u8, minute: u8, second: u8) -> (r: Self)
        requires
            valid_time(hour, minute, second),
        ensures
            r@ == (hour, minute, second),
    {
        Time::new(hour, minute, second).unwrap()
    }

    /// The hour, 0 to 23.
    pub fn hour(&self) -> (r: u8)
        ensures
            r == self@.0,
            r <= 23,
    {
        proof {
            use_type_invariant(self);
        }
        self.hour
    }

    /// The minute, 0 to 59.
    pub fn minute(&self) -> (r: u8)
        ensures
            r == self@.1,
            r <= 59,
    {
        proof {
            use_type_invariant(self);
        }
        self.minute
    }

    /// The second, 0 to 59.
    pub fn second(&self) -> (r: u8)
        ensures
            r == self@.2,
            r <= 59,
    {
        proof {
            use_type_invariant(self);
        }
        self.second
    }
}

impl Default for Time {
    /// Seven in the morning.
    fn default() -> (r: Self)
        ensures
            r@ == (7u8, 0u8, 0u8),
    {
        Time { hour: 7, minute: 0, second: 0 }
    }
}

/// Collects the parts of a time one by one; a part never given counts as
/// zero.
#[derive(Debug, Clone, Copy)]
pub struct TimeBuilder {
    hour: Option<u8>,
    minute: Option<u8>,
    second: Option<u8>,
}

impl View for TimeBuilder {
    type V = (Option<u8>, Option<u8>, Option<u8>);

    /// The parts given so far.
    closed spec fn view(&self) -> (Option<u8>, Option<u8>, Option<u8>) {
        (self.hour, self.minute, self.second)
    }
}

/// A part of a time as the builder uses it: zero when it was never given.
pub open spec fn part_or_zero(p: Option<u8>) -> u8 {
    match p {
        Some(v) => v,
        None => 0,
    }
}

impl TimeBuilder {
    /// A builder with no part given.
    pub fn new() -> (r: Self)
        ensures
            r@ == (None::<u8>, None::<u8>, None::<u8>),
    {
        TimeBuilder { hour: None, minute: None, second: None }
    }

    /// Sets the hour.
    pub fn hour(self, hour: u8) -> (r: Self)
        ensures
            r@ == (Some(hour), self@.1, self@.2),
    {
        TimeBuilder { hour: Some(hour), ..self }
    }

    /// Sets the minute.
    pub fn minute(self, minute: u8) -> (r: Self)
        ensures
            r@ == (self@.0, Some(minute), self@.2),
    {
        TimeBuilder { minute: Some(minute), ..self }
    }

    /// Sets the second.
    pub fn second(self, second: u8) -> (r: Self)
        ensures
            r@ == (self@.0, self@.1, Some(second)),
    {
        TimeBuilder { second: Some(second), ..self }
    }

    /// The time the parts name, a missing part counting as zero; `None` when
    /// that is no time of day.
    pub fn build(self) -> (r: Option<Time>)
        ensures
            r is Some <==> valid_time(
                part_or_zero(self@.0),
                part_or_zero(self@.1),
                part_or_zero(self@.2),
            ),
            r matches Some(t) ==> t@ == (
                part_or_zero(self@.0),
                part_or_zero(self@.1),
                part_or_zero(self@.2),
            ),
    {
        let hour = match self.hour {
            Some(h) => h,
            None => 0,
        };
        let minute = match self.minute {
            Some(m) => m,
            None => 0,
        };
        let second = match self.second {
            Some(s) => s,
            None => 0,
        };
        Time::new(hour, minute, second)
    }
}

impl Default for TimeBuilder {
    fn default() -> (r: Self)
        ensures
            r@ == (None::<u8>, None::<u8>, None::<u8>),
    {
        TimeBuilder::new()
    }
}

} // verus!
