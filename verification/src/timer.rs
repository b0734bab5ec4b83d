use vstd::prelude::*;

verus! {

/// The readings of a running timer, in nanoseconds of a clock that never
/// runs backwards.
#[derive(Clone, Copy, Debug, PartialEq, Eq, Structural)]
pub struct Times {
    pub start: u64,
    pub current: u64,
    pub previous: Option<u64>,
}

/// Measures the time between the frames of a loop. The caller reads the
/// clock and hands the readings in.
#[derive(Clone, Copy, Debug, PartialEq, Eq, Structural)]
pub struct Timer {
    pub times: Option<Times>,
}

/// The time from `earlier` to `later`, or nothing where the clock went back.
pub open spec fn elapsed(later: u64, earlier: u64) -> u64 {
    if later >= earlier {
        (later - earlier) as u64
    } else {
        0
    }
}

impl Times {
    /// Takes a new reading: the current one becomes the previous one.
    pub fn push(&mut self, time: u64)
        ensures
            *final(self) == (Times {
                start: old(self).start,
                current: time,
                previous: Some(old(self).current),
            }),
    {
        self.previous = Some(self.current);
        self.current = time;
    }
}

impl Timer {
    /// The time between the last two readings; before the second reading,
    /// the time since the start; before the start, nothing.
    pub open spec fn spec_dt(&self) -> u64 {
        match self.times {
            Some(t) => match t.previous {
                Some(prev) => elapsed(t.current, prev),
                None => elapsed(t.current, t.start),
            },
            None => 0,
        }
    }

    /// A timer that has not been started.
    pub fn new() -> (r: Timer)
        ensures
            r.times is None,
            r.dt() == 0,
    {
        Timer { times: None }
    }

    /// The time between the last two ticks, in nanoseconds.
    #[verifier::when_used_as_spec(spec_dt)]
    pub fn dt(&self) -> (r: u64)
        ensures
            r == self.spec_dt(),
    {
        match self.times {
            Some(t) => {
                let since: u64 = match t.previous {
                    Some(prev) => prev,
                    None => t.start,
                };
                if t.current >= since {
                    t.current - since
                } else {
                    0
                }
            },
            None => 0,
        }
    }

    /// Starts the timer at the reading `now`, forgetting what was before.
    pub fn start(&mut self, now: u64)
        ensures
            final(self).times == Some(Times { start: now, current: now, previous: None }),
            final(self).dt() == 0,
    {
        self.times = Some(Times { start: now, current: now, previous: None });
    }

    /// Marks a frame at the reading `now`. A timer that was not started
    /// stays as it is.
    pub fn tick(&mut self, now: u64)
        ensures
            final(self).times == (match old(self).times {
                Some(t) => Some(Times { start: t.start, current: now, previous: Some(t.current) }),
                None => None::<Times>,
            }),
            old(self).times is Some ==> final(self).dt() == elapsed(
                now,
                old(self).times->0.current,
            ),
    {
        match self.times {
            Some(t) => {
                let mut next = t;
                next.push(now);
                self.times = Some(next);
            },
            None => {},
        }
    }
}

} // verus!
