use vstd::prelude::*;

verus! {

/// How handing the timings of a frame to the profiler ended.
#[must_use]
#[derive(Clone, Copy, Debug, PartialEq, Eq, Structural)]
pub enum StreamResult {
    /// The timings were handed over.
    Success,
    /// The frame had no timings.
    Empty,
    /// The profiler takes no scopes at present.
    Disabled,
    /// The timings of the frame could not be had.
    Failure,
}

/// A span of time on the graphics device, in nanoseconds since the epoch of
/// its clock.
#[derive(Clone, Copy, Debug, PartialEq, Eq, Structural)]
pub struct Span {
    pub start: u64,
    pub end: u64,
}

/// The start of the first timing of a frame: every span is measured from it.
#[derive(Clone, Copy, Debug, PartialEq, Eq, Structural)]
pub struct Delta {
    pub first: u64,
}

/// How the hand-over ends, from whether the profiler takes scopes and from
/// the number of timings of the frame, if they could be had.
pub open spec fn stream_outcome(scopes_on: bool, timings: Option<usize>) -> StreamResult {
    if !scopes_on {
        StreamResult::Disabled
    } else {
        match timings {
            None => StreamResult::Failure,
            Some(n) => if n == 0 {
                StreamResult::Empty
            } else {
                StreamResult::Success
            },
        }
    }
}

/// Decides how the hand-over of a frame's timings ends. The profiler is
/// asked first; only then do the timings matter.
pub fn classify(scopes_on: bool, timings: Option<usize>) -> (r: StreamResult)
    ensures
        r == stream_outcome(scopes_on, timings),
{
    if !scopes_on {
        return StreamResult::Disabled;
    }
    match timings {
        None => StreamResult::Failure,
        Some(n) => if n == 0 {
            StreamResult::Empty
        } else {
            StreamResult::Success
        },
    }
}

/// A number of nanoseconds as the profiler wants it: the low 64 bits, read
/// as a signed number.
pub open spec fn signed_nanos(nanos: u128) -> i64 {
    let low = nanos % 0x1_0000_0000_0000_0000;
    if low >= 0x8000_0000_0000_0000 {
        (low - 0x1_0000_0000_0000_0000) as i64
    } else {
        low as i64
    }
}

/// Turns a number of nanoseconds into the signed form of the profiler.
/// Durations under 292 years come through unchanged.
pub fn duration_ns(nanos: u128) -> (r: i64)
    ensures
        r == signed_nanos(nanos),
        nanos <= i64::MAX ==> r == nanos,
{
    let low: u128 = nanos % 0x1_0000_0000_0000_0000;
    if low >= 0x8000_0000_0000_0000 {
        let back: u128 = 0x1_0000_0000_0000_0000 - low;
        if back == 0x8000_0000_0000_0000 {
            i64::MIN
        } else {
            -(back as i64)
        }
    } else {
        low as i64
    }
}

impl Delta {
    /// The start of the first of some timings, of which there must be one.
    pub fn new(timings: &[Span]) -> (r: Delta)
        requires
            timings@.len() > 0,
        ensures
            r.first == timings@[0].start,
    {
        Delta { first: timings[0].start }
    }

    /// A span measured from the first timing. Neither end of the span may
    /// lie before the first timing.
    pub fn range_to_nanos(&self, range: &Span) -> (r: (i64, i64))
        requires
            self.first <= range.start,
            self.first <= range.end,
        ensures
            r.0 == signed_nanos((range.start - self.first) as u128),
            r.1 == signed_nanos((range.end - self.first) as u128),
    {
        let start: u64 = range.start - self.first;
        let end: u64 = range.end - self.first;
        (duration_ns(start as u128), duration_ns(end as u128))
    }
}

} // verus!
