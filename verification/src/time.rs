//! The Time segment: formats a wall-clock value. The clock itself is read
//! by the caller and handed in as seconds since the Unix epoch.

use crate::text::dec_u128;
use crate::text::pad_left_zeros;
use crate::text::spec_dec;
use crate::text::spec_pad_left;
use vstd::prelude::*;

verus! {

/// How the Time segment formats the clock value.
#[derive(Debug, Clone)]
pub enum TimeFormat {
    HourMinute,
    HourMinuteSecond,
    Timestamp,
}

/// The Time segment.
pub struct TimeSegment {
    pub enabled: bool,
    pub format: TimeFormat,
}

/// A number as at least two digits, zero-padded.
pub open spec fn spec_two_digits(n: int) -> Seq<char> {
    spec_pad_left(spec_dec(n), 2)
}

fn two_digits(n: u64) -> (r: String)
    ensures
        r@ == spec_two_digits(n as int),
{
    pad_left_zeros(dec_u128(n as u128), 2)
}

/// What the Time segment shows for a clock value, per format: the clock
/// icon, then hours and minutes (and seconds), or the raw timestamp.
pub open spec fn spec_time_render(format: TimeFormat, now_secs: int) -> Seq<char> {
    match format {
        TimeFormat::HourMinute => "\u{1f550} "@.add(spec_two_digits(now_secs / 3600 % 24)).add(
            ":"@,
        ).add(spec_two_digits(now_secs / 60 % 60)),
        TimeFormat::HourMinuteSecond => "\u{1f550} "@.add(
            spec_two_digits(now_secs / 3600 % 24),
        ).add(":"@).add(spec_two_digits(now_secs / 60 % 60)).add(":"@).add(
            spec_two_digits(now_secs % 60),
        ),
        TimeFormat::Timestamp => "\u{1f550} "@.add(spec_dec(now_secs)),
    }
}

impl TimeSegment {
    pub fn new(enabled: bool) -> (s: TimeSegment)
        ensures
            s.enabled == enabled,
            s.format == TimeFormat::HourMinute,
    {
        TimeSegment { enabled, format: TimeFormat::HourMinute }
    }

    pub fn with_format(self, format: TimeFormat) -> (s: TimeSegment)
        ensures
            s.enabled == self.enabled,
            s.format == format,
    {
        TimeSegment { enabled: self.enabled, format }
    }

    /// Renders the Time segment for a clock value (seconds since the Unix
    /// epoch); the empty string when the segment is disabled.
    pub fn render(&self, now_secs: u64) -> (r: String)
        ensures
            self.enabled ==> r@ == spec_time_render(self.format, now_secs as int),
            !self.enabled ==> r@ == Seq::<char>::empty(),
    {
        if !self.enabled {
            return String::new();
        }
        match &self.format {
            TimeFormat::HourMinute => {
                let hours = (now_secs / 3600) % 24;
                let minutes = (now_secs / 60) % 60;
                let mut s = "\u{1f550} ".to_owned();
                let h = two_digits(hours);
                s.append(h.as_str());
                s.append(":");
                let m = two_digits(minutes);
                s.append(m.as_str());
                proof {
                    assert(s@ =~= spec_time_render(self.format, now_secs as int));
                }
                s
            },
            TimeFormat::HourMinuteSecond => {
                let hours = (now_secs / 3600) % 24;
                let minutes = (now_secs / 60) % 60;
                let seconds = now_secs % 60;
                let mut s = "\u{1f550} ".to_owned();
                let h = two_digits(hours);
                s.append(h.as_str());
                s.append(":");
                let m = two_digits(minutes);
                s.append(m.as_str());
                s.append(":");
                let sec = two_digits(seconds);
                s.append(sec.as_str());
                proof {
                    assert(s@ =~= spec_time_render(self.format, now_secs as int));
                }
                s
            },
            TimeFormat::Timestamp => {
                let mut s = "\u{1f550} ".to_owned();
                let t = dec_u128(now_secs as u128);
                s.append(t.as_str());
                proof {
                    assert(s@ =~= spec_time_render(self.format, now_secs as int));
                }
                s
            },
        }
    }

    pub fn enabled(&self) -> (r: bool)
        ensures
            r == self.enabled,
    {
        self.enabled
    }
}

} // verus!
