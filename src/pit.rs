//! A system clock on the Programmable Interval Timer (8254).
//!
//! The caller performs the port writes that `start` returns and calls `tick`
//! from the timer interrupt.

use crate::clock::{elapsed, Clock, Duration, Frequency, SimpleResult, NSEC_MULTIPLIER};
use crate::port::PortWrite;
use vstd::prelude::*;

verus! {

/// Input frequency of the PIT in Hz.
pub const BASE_FREQUENCY: u32 = 1193182;

/// Data port of channel 0.
pub const CHANNEL0_IO_PORT: u16 = 0x40;

/// Data port of channel 1.
pub const CHANNEL1_IO_PORT: u16 = 0x41;

/// Data port of channel 2.
pub const CHANNEL2_IO_PORT: u16 = 0x42;

/// Mode/command port.
pub const COMMAND_PORT: u16 = 0x43;

/// A PIT channel used as periodic tick source.
pub struct Pit {
    pub frequency: Frequency,
    pub divisor: u16,
    pub resolution: u64,
    pub channel: u8,
    pub ticks: u64,
}

/// Data port of a channel.
pub open spec fn spec_channel_port(channel: u8) -> u16 {
    if channel == 0 {
        CHANNEL0_IO_PORT
    } else if channel == 1 {
        CHANNEL1_IO_PORT
    } else {
        CHANNEL2_IO_PORT
    }
}

/// The mode command byte for `channel`: lobyte/hibyte access, rate generator
/// (mode 2), 16-bit binary counting.
pub open spec fn spec_command(channel: u8) -> u8 {
    (channel * 64 + 0x34) as u8
}

/// The sequence that programs `channel` with `divisor`: the mode command
/// byte to the command port, then the divisor's low and high byte to the
/// channel's data port.
pub open spec fn program_sequence(channel: u8, divisor: u16) -> Seq<PortWrite> {
    seq![
        PortWrite { port: COMMAND_PORT, value: spec_command(channel) },
        PortWrite { port: spec_channel_port(channel), value: (divisor % 256) as u8 },
        PortWrite { port: spec_channel_port(channel), value: (divisor / 256) as u8 },
    ]
}

/// Returns the data port of `channel`.
pub fn channel_port(channel: u8) -> (r: u16)
    requires
        channel <= 2,
    ensures
        r == spec_channel_port(channel),
{
    if channel == 0 {
        CHANNEL0_IO_PORT
    } else if channel == 1 {
        CHANNEL1_IO_PORT
    } else {
        CHANNEL2_IO_PORT
    }
}

/// Builds the mode command byte for `channel`.
pub fn gen_command(channel: u8) -> (r: u8)
    requires
        channel <= 2,
    ensures
        r == spec_command(channel),
        r == channel * 64 + 0x34,
{
    let r: u8 = 0b11000000 & channel << 6 |  // channel
    0b00110000 & 0b11 << 4 |  // lobyte/hibyte
    0b00001110 & 0b010 << 1 |  // rate generator
    0b00000001 & 0b0;  // 16-bit binary mode
    assert(0b11000000 & channel << 6 | 0b00110000 & 0b11u8 << 4 | 0b00001110 & 0b010u8 << 1
        | 0b00000001 & 0b0u8 == channel * 64 + 0x34) by (bit_vector)
        requires
            channel <= 2,
    ;
    r
}

/// Every divisor gives a frequency of at least 18 Hz.
proof fn lemma_frequency_positive(divisor: u16)
    requires
        divisor > 0,
    ensures
        BASE_FREQUENCY / divisor as u32 >= 18,
{
    assert(BASE_FREQUENCY / (divisor as u32) >= BASE_FREQUENCY / 65535) by (nonlinear_arith)
        requires
            0 < divisor <= 65535,
    ;
}

/// Creates a clock on `channel` whose counter divides the base frequency by
/// `divisor`.
pub fn new(channel: u8, divisor: u16) -> (p: Pit)
    requires
        channel <= 2,
        divisor > 0,
    ensures
        p.clock_wf(),
        p.frequency == BASE_FREQUENCY / divisor as u32,
        p.resolution == NSEC_MULTIPLIER / p.frequency as u64,
        p.channel == channel,
        p.divisor == divisor,
        p.ticks == 0,
{
    let freq = BASE_FREQUENCY / (divisor as u32);
    proof {
        lemma_frequency_positive(divisor);
    }
    Pit {
        frequency: freq,
        divisor: divisor,
        resolution: NSEC_MULTIPLIER / freq as u64,
        channel: channel,
        ticks: 0,
    }
}

impl Pit {
    /// Whether the clock's fields are consistent, as `new` leaves them.
    pub fn is_valid(&self) -> (r: bool)
        ensures
            r == self.clock_wf(),
    {
        if self.channel > 2 || self.divisor == 0 {
            return false;
        }
        if self.frequency != BASE_FREQUENCY / self.divisor as u32 {
            return false;
        }
        proof {
            lemma_frequency_positive(self.divisor);
        }
        self.resolution == NSEC_MULTIPLIER / self.frequency as u64
    }

    /// Converts a tick count into the time it stands for at this clock's rate.
    fn duration_of(&self, ticks: u64) -> (d: Duration)
        requires
            self.clock_wf(),
        ensures
            d == elapsed(ticks, self.frequency, self.resolution),
            d.valid(),
    {
        proof {
            lemma_frequency_positive(self.divisor);
        }
        let freq = self.frequency as u64;
        let res = self.resolution;
        let sec = ticks / freq;
        proof {
            assert(sec * freq <= ticks) by (nonlinear_arith)
                requires
                    sec == ticks / freq,
                    freq > 0,
            ;
            assert(ticks - sec * freq == ticks % freq) by (nonlinear_arith)
                requires
                    sec == ticks / freq,
                    freq > 0,
            ;
            assert((ticks % freq) * res < NSEC_MULTIPLIER) by (nonlinear_arith)
                requires
                    freq > 0,
                    res == NSEC_MULTIPLIER / freq,
                    ticks % freq < freq,
            ;
        }
        let nsec = (ticks - sec * freq) * res;
        Duration { sec: sec, nsec: nsec }
    }
}

impl Clock for Pit {
    open spec fn clock_wf(&self) -> bool {
        &&& self.channel <= 2
        &&& self.divisor > 0
        &&& self.frequency == BASE_FREQUENCY / self.divisor as u32
        &&& self.resolution == NSEC_MULTIPLIER / self.frequency as u64
    }

    open spec fn spec_frequency(&self) -> Frequency {
        self.frequency
    }

    open spec fn spec_resolution(&self) -> u64 {
        self.resolution
    }

    open spec fn tick_count(&self) -> u64 {
        self.ticks
    }

    open spec fn start_sequence(&self) -> Seq<PortWrite> {
        program_sequence(self.channel, self.divisor)
    }

    fn start(&self) -> (r: Vec<PortWrite>) {
        let divisor = self.divisor;
        let lobyte = (divisor & 0xFF) as u8;
        let hibyte = ((divisor >> 8) & 0xFF) as u8;
        assert(divisor & 0xFF == divisor % 256) by (bit_vector);
        assert((divisor >> 8) & 0xFF == divisor / 256) by (bit_vector);
        let port = channel_port(self.channel);
        let r = vec![
            PortWrite { port: COMMAND_PORT, value: gen_command(self.channel) },
            PortWrite { port: port, value: lobyte },
            PortWrite { port: port, value: hibyte },
        ];
        assert(r@ =~= self.start_sequence());
        r
    }

    fn frequency(&self) -> (r: SimpleResult<Frequency>) {
        Ok(self.frequency)
    }

    fn tick(&mut self) {
        self.ticks = self.ticks.wrapping_add(1);
    }

    fn ticks(&self) -> (r: SimpleResult<(u64, Duration)>) {
        let ticks = self.ticks;
        Ok((ticks, self.duration_of(ticks)))
    }

    fn uptime(&self) -> (r: SimpleResult<Duration>) {
        Ok(self.duration_of(self.ticks))
    }
}

/// For every clock and every tick count, the elapsed time splits the count
/// back exactly: `sec * frequency + nsec / resolution` equals the count.
pub proof fn lemma_elapsed_reconstructs_ticks(p: Pit, ticks: u64)
    requires
        p.clock_wf(),
    ensures
        elapsed(ticks, p.frequency, p.resolution).sec * p.frequency
            + elapsed(ticks, p.frequency, p.resolution).nsec / p.resolution == ticks,
{
    lemma_frequency_positive(p.divisor);
    let f = p.frequency as int;
    let r = p.resolution as int;
    let t = ticks as int;
    assert(r > 0) by (nonlinear_arith)
        requires
            18 <= f <= BASE_FREQUENCY,
            r == NSEC_MULTIPLIER as int / f,
    ;
    assert((t % f) * r < NSEC_MULTIPLIER as int) by (nonlinear_arith)
        requires
            f > 0,
            r == NSEC_MULTIPLIER as int / f,
            0 <= t % f < f,
    ;
    assert(((t % f) * r) / r == t % f) by (nonlinear_arith)
        requires
            r > 0,
            t % f >= 0,
    ;
    assert((t / f) * f + t % f == t) by (nonlinear_arith)
        requires
            f > 0,
    ;
}

/// Counting: a clock that starts at zero and is ticked `k` times (fewer
/// than 2^64) reports `k` ticks.
///
/// `clocks[j]` is the clock after `j` calls of `tick`.
pub proof fn lemma_ticks_count_calls(clocks: Seq<Pit>)
    requires
        clocks.len() > 0,
        clocks.len() <= 0x1_0000_0000_0000_0000,
        clocks[0].ticks == 0,
        forall|j: int|
            0 <= j < clocks.len() - 1 ==> (#[trigger] clocks[j + 1]).ticks as int == (clocks[j].ticks
                + 1) % 0x1_0000_0000_0000_0000,
    ensures
        forall|j: int| 0 <= j < clocks.len() ==> (#[trigger] clocks[j]).ticks == j,
{
    assert forall|j: int| 0 <= j < clocks.len() implies (#[trigger] clocks[j]).ticks == j by {
        lemma_ticks_prefix(clocks, j);
    }
}

proof fn lemma_ticks_prefix(clocks: Seq<Pit>, j: int)
    requires
        clocks.len() <= 0x1_0000_0000_0000_0000,
        clocks[0].ticks == 0,
        forall|j: int|
            0 <= j < clocks.len() - 1 ==> (#[trigger] clocks[j + 1]).ticks as int == (clocks[j].ticks
                + 1) % 0x1_0000_0000_0000_0000,
        0 <= j < clocks.len(),
    ensures
        clocks[j].ticks == j,
    decreases j,
{
    if j > 0 {
        lemma_ticks_prefix(clocks, j - 1);
        assert(clocks[j].ticks as int == (clocks[j - 1].ticks + 1) % 0x1_0000_0000_0000_0000);
    }
}

} // verus!
