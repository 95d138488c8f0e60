//! The tick scheduler: a repeating timer that asks for one step per period.

use vstd::prelude::*;

use crate::input::InputAction;

verus! {

pub const DEFAULT_TICKS_PER_SECOND: i32 = 4;

pub const MIN_TICKS_PER_SECOND: i32 = 1;

pub const MAX_TICKS_PER_SECOND: i32 = 64;

pub const NANOS_PER_SECOND: u64 = 1_000_000_000;

/// `t` brought into `[MIN_TICKS_PER_SECOND, MAX_TICKS_PER_SECOND]`.
pub open spec fn clamped_rate(t: int) -> int {
    if t < MIN_TICKS_PER_SECOND {
        MIN_TICKS_PER_SECOND as int
    } else if t > MAX_TICKS_PER_SECOND {
        MAX_TICKS_PER_SECOND as int
    } else {
        t
    }
}

/// The configured speed of the simulation.
#[derive(Clone, Copy, PartialEq, Eq, Structural, Debug)]
pub struct SimulationConfig {
    pub ticks_per_second: i32,
}

/// A repeating timer, in nanoseconds.
#[derive(Clone, Copy, PartialEq, Eq, Structural, Debug)]
pub struct SimulationUpdateTimer {
    pub period_nanos: u64,
    pub elapsed_nanos: u64,
}

impl SimulationUpdateTimer {
    /// A timer that fires `ticks_per_second` times a second, with nothing
    /// elapsed yet.
    pub fn from_ticks_per_second(ticks_per_second: i32) -> (r: SimulationUpdateTimer)
        requires
            ticks_per_second > 0,
        ensures
            r.period_nanos == NANOS_PER_SECOND as int / (ticks_per_second as int),
            r.elapsed_nanos == 0,
    {
        SimulationUpdateTimer {
            period_nanos: NANOS_PER_SECOND / (ticks_per_second as u64),
            elapsed_nanos: 0,
        }
    }

    /// Adds `delta_nanos` to the elapsed time. When a whole period has
    /// elapsed the timer fires once, however many periods that was, and keeps
    /// only the remainder below one period.
    pub fn tick(&mut self, delta_nanos: u64) -> (finished: bool)
        ensures
            final(self).period_nanos == old(self).period_nanos,
            ({
                let total = if old(self).elapsed_nanos + delta_nanos > u64::MAX {
                    u64::MAX as int
                } else {
                    old(self).elapsed_nanos + delta_nanos
                };
                &&& finished == (total >= old(self).period_nanos)
                &&& final(self).elapsed_nanos == if !finished {
                    total
                } else if old(self).period_nanos > 0 {
                    total % (old(self).period_nanos as int)
                } else {
                    0
                }
            }),
    {
        self.elapsed_nanos = self.elapsed_nanos.saturating_add(delta_nanos);
        let finished = self.elapsed_nanos >= self.period_nanos;
        if finished {
            self.elapsed_nanos = match self.elapsed_nanos.checked_rem(self.period_nanos) {
                Some(rest) => rest,
                None => 0,
            };
        }
        finished
    }

    /// Starts the current period over.
    pub fn reset(&mut self)
        ensures
            final(self).period_nanos == old(self).period_nanos,
            final(self).elapsed_nanos == 0,
    {
        self.elapsed_nanos = 0;
    }
}

/// Advances the timer by the frame's elapsed time; asks for one step when it
/// fires.
pub fn tick_simulation_update_timer(timer: &mut SimulationUpdateTimer, delta_nanos: u64) -> (r:
    Option<InputAction>)
    ensures
        ({
            let total = if old(timer).elapsed_nanos + delta_nanos > u64::MAX {
                u64::MAX as int
            } else {
                old(timer).elapsed_nanos + delta_nanos
            };
            let fired = total >= old(timer).period_nanos;
            &&& r == if fired {
                Some(InputAction::AdvanceSimulation)
            } else {
                None
            }
            &&& final(timer).period_nanos == old(timer).period_nanos
            &&& final(timer).elapsed_nanos == if !fired {
                total
            } else if old(timer).period_nanos > 0 {
                total % (old(timer).period_nanos as int)
            } else {
                0
            }
        }),
{
    if timer.tick(delta_nanos) {
        Some(InputAction::AdvanceSimulation)
    } else {
        None
    }
}

/// Starts the timer's period over, so that resuming does not fire at once.
pub fn reset_simulation_update_timer(timer: &mut SimulationUpdateTimer)
    ensures
        final(timer).period_nanos == old(timer).period_nanos,
        final(timer).elapsed_nanos == 0,
{
    timer.reset();
}

/// Sets the speed to `ticks_per_second`, brought into the allowed range.
/// When the speed changes the timer is rebuilt for it, its phase lost.
pub fn set_simulation_rate(
    config: &mut SimulationConfig,
    timer: &mut SimulationUpdateTimer,
    ticks_per_second: i32,
)
    ensures
        final(config).ticks_per_second == clamped_rate(ticks_per_second as int),
        clamped_rate(ticks_per_second as int) == old(config).ticks_per_second ==> *final(timer)
            == *old(timer),
        clamped_rate(ticks_per_second as int) != old(config).ticks_per_second ==> {
            &&& final(timer).period_nanos == NANOS_PER_SECOND as int / clamped_rate(
                ticks_per_second as int,
            )
            &&& final(timer).elapsed_nanos == 0
        },
{
    let tps = if ticks_per_second < MIN_TICKS_PER_SECOND {
        MIN_TICKS_PER_SECOND
    } else if ticks_per_second > MAX_TICKS_PER_SECOND {
        MAX_TICKS_PER_SECOND
    } else {
        ticks_per_second
    };
    if tps != config.ticks_per_second {
        config.ticks_per_second = tps;
        *timer = SimulationUpdateTimer::from_ticks_per_second(tps);
    }
}

/// Slows the simulation by one tick per second on `decrease`, speeds it up by
/// one on `increase`, within the allowed range.
pub fn change_simulation_rate(
    config: &mut SimulationConfig,
    timer: &mut SimulationUpdateTimer,
    decrease: bool,
    increase: bool,
)
    ensures
        ({
            let wanted = old(config).ticks_per_second - (if decrease {
                1int
            } else {
                0int
            }) + (if increase {
                1int
            } else {
                0int
            });
            let tps = clamped_rate(wanted);
            &&& final(config).ticks_per_second == tps
            &&& tps == old(config).ticks_per_second ==> *final(timer) == *old(timer)
            &&& tps != old(config).ticks_per_second ==> final(timer).period_nanos
                == NANOS_PER_SECOND as int / tps && final(timer).elapsed_nanos == 0
        }),
{
    let mut wanted = config.ticks_per_second as i64;
    if decrease {
        wanted = wanted - 1;
    }
    if increase {
        wanted = wanted + 1;
    }
    let tps = if wanted < MIN_TICKS_PER_SECOND as i64 {
        MIN_TICKS_PER_SECOND
    } else if wanted > MAX_TICKS_PER_SECOND as i64 {
        MAX_TICKS_PER_SECOND
    } else {
        wanted as i32
    };
    set_simulation_rate(config, timer, tps);
}

} // verus!
