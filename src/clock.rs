//! Time spans and the interface every system clock offers.

use crate::port::PortWrite;
use vstd::prelude::*;

verus! {

/// Ticks per second of a clock, in Hz.
pub type Frequency = u32;

/// Result type of the clock interface; the error is a static message.
pub type SimpleResult<T> = Result<T, &'static str>;

/// Nanoseconds in one second.
pub const NSEC_MULTIPLIER: u64 = 1_000_000_000;

/// Number of decimal digits of the nanosecond part when printed.
pub const NSEC_DIGITS: usize = 9;

/// A span of time as whole seconds plus the nanoseconds beyond them.
#[derive(Clone, Copy, Debug, PartialEq, Eq, Structural)]
pub struct Duration {
    pub sec: u64,
    pub nsec: u64,
}

impl Duration {
    /// The nanosecond part is below one second.
    pub open spec fn valid(self) -> bool {
        self.nsec < NSEC_MULTIPLIER
    }

    /// The whole span in nanoseconds.
    pub open spec fn total_nanos(self) -> int {
        self.sec * NSEC_MULTIPLIER + self.nsec
    }

    /// Splits the whole seconds into hours, minutes (below 60) and seconds
    /// (below 60); the nanoseconds are dropped.
    pub fn hms(self) -> (r: SimpleResult<(u64, u64, u64)>)
        ensures
            r == Ok::<(u64, u64, u64), &'static str>(
                (self.sec / 3600, (self.sec % 3600) / 60, self.sec % 60),
            ),
            r matches Ok((h, m, s)) && m < 60 && s < 60 && h * 3600 + m * 60 + s == self.sec,
    {
        let h = self.sec / 3600;
        let m = (self.sec % 3600) / 60;
        let s = (self.sec % 3600) % 60;
        proof {
            let x = self.sec as int;
            assert((x % 3600) % 60 == x % 60) by (nonlinear_arith);
            assert(x == 3600 * (x / 3600) + x % 3600) by (nonlinear_arith);
            assert(x % 3600 == 60 * ((x % 3600) / 60) + (x % 3600) % 60) by (nonlinear_arith);
        }
        Ok((h, m, s))
    }

    /// `self` is at least as long as `other`.
    pub open spec fn ge(self, other: Duration) -> bool {
        self.total_nanos() >= other.total_nanos()
    }

    /// Difference of two spans, borrowing one second when the nanoseconds of
    /// `other` exceed those of `self`.
    pub open spec fn minus(self, other: Duration) -> Duration {
        if self.nsec >= other.nsec {
            Duration { sec: (self.sec - other.sec) as u64, nsec: (self.nsec - other.nsec) as u64 }
        } else {
            Duration {
                sec: (self.sec - other.sec - 1) as u64,
                nsec: (NSEC_MULTIPLIER + self.nsec - other.nsec) as u64,
            }
        }
    }

    /// Sum of two spans, carrying one second when the nanoseconds overflow.
    pub open spec fn plus(self, other: Duration) -> Duration {
        if self.nsec + other.nsec >= NSEC_MULTIPLIER {
            Duration {
                sec: (self.sec + other.sec + 1) as u64,
                nsec: (self.nsec + other.nsec - NSEC_MULTIPLIER) as u64,
            }
        } else {
            Duration { sec: (self.sec + other.sec) as u64, nsec: (self.nsec + other.nsec) as u64 }
        }
    }

    /// `self - other` for `self` at least as long as `other`.
    pub fn sub(self, other: Duration) -> (r: Duration)
        requires
            self.valid(),
            other.valid(),
            self.ge(other),
        ensures
            r == self.minus(other),
            r.valid(),
            r.total_nanos() == self.total_nanos() - other.total_nanos(),
    {
        let mut sec = self.sec - other.sec;
        let nsec;
        if self.nsec > other.nsec {
            nsec = self.nsec - other.nsec;
        } else if self.nsec == other.nsec {
            nsec = 0;
        } else {
            sec -= 1;
            nsec = NSEC_MULTIPLIER - (other.nsec - self.nsec);
        }
        Duration { sec: sec, nsec: nsec }
    }
}

/// Time elapsed after `ticks` ticks of a clock running at `frequency` Hz,
/// with `resolution` nanoseconds per tick.
pub open spec fn elapsed(ticks: u64, frequency: u32, resolution: u64) -> Duration {
    Duration {
        sec: (ticks / frequency as u64) as u64,
        nsec: ((ticks % frequency as u64) * resolution) as u64,
    }
}

/// A system clock driven by a periodic interrupt.
pub trait Clock {
    /// The clock is configured consistently.
    spec fn clock_wf(&self) -> bool;

    /// The configured frequency.
    spec fn spec_frequency(&self) -> Frequency;

    /// Nanoseconds per tick.
    spec fn spec_resolution(&self) -> u64;

    /// Ticks counted so far (modulo 2^64).
    spec fn tick_count(&self) -> u64;

    /// The port writes that program the hardware to start ticking.
    spec fn start_sequence(&self) -> Seq<PortWrite>;

    /// Returns the port writes that start the clock, in the order they must
    /// be issued.
    fn start(&self) -> (r: Vec<PortWrite>)
        requires
            self.clock_wf(),
        ensures
            r@ == self.start_sequence(),
    ;

    /// Receive the frequency the clock is set for.
    fn frequency(&self) -> (r: SimpleResult<Frequency>)
        requires
            self.clock_wf(),
        ensures
            r == Ok::<Frequency, &'static str>(self.spec_frequency()),
    ;

    /// Advances the tick counter by one, wrapping at 2^64.
    /// The time of one tick is `1/self.frequency()`s.
    fn tick(&mut self)
        requires
            old(self).clock_wf(),
        ensures
            final(self).clock_wf(),
            final(self).tick_count() as int == (old(self).tick_count() + 1) % 0x1_0000_0000_0000_0000,
            final(self).spec_frequency() == old(self).spec_frequency(),
            final(self).spec_resolution() == old(self).spec_resolution(),
            final(self).start_sequence() == old(self).start_sequence(),
    ;

    /// The tick counter together with the time it stands for.
    fn ticks(&self) -> (r: SimpleResult<(u64, Duration)>)
        requires
            self.clock_wf(),
        ensures
            r == Ok::<(u64, Duration), &'static str>(
                (
                    self.tick_count(),
                    elapsed(self.tick_count(), self.spec_frequency(), self.spec_resolution()),
                ),
            ),
    ;

    /// The time since the clock started, assuming every interrupt of the
    /// clock has been counted with `tick`.
    fn uptime(&self) -> (r: SimpleResult<Duration>)
        requires
            self.clock_wf(),
        ensures
            r == Ok::<Duration, &'static str>(
                elapsed(self.tick_count(), self.spec_frequency(), self.spec_resolution()),
            ),
    ;
}

/// Subtracting a shorter span and adding it back restores the longer one.
pub proof fn lemma_sub_then_add(a: Duration, b: Duration)
    requires
        a.valid(),
        b.valid(),
        a.ge(b),
    ensures
        a.minus(b).plus(b) == a,
{
}

} // verus!
