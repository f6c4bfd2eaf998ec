//! The refresh scheduler: the per-tick decision and the lifecycle of the
//! repeating timer, kept apart from the timer and UI runtime that drive it.

use vstd::prelude::*;
use crate::clock::{sample_time, time_sample_of, ClockReading, TimeSample, TimeSampleView};
use crate::probe::{usage_sample_of, SystemProbe, UsageSample, UsageSampleView};

verus! {

/// The deployment profile of the scheduler: how often the timer fires
/// and whether a tick samples resource usage besides the clock.
#[derive(Clone, Copy, PartialEq, Eq, Structural, Debug)]
pub struct SchedulerConfig {
    pub interval_ms: u64,
    pub sample_usage: bool,
}

impl SchedulerConfig {
    /// The clock-only profile: a one-second tick that rewrites only the
    /// time fields.
    pub fn clock_only() -> (c: SchedulerConfig)
        ensures
            c.interval_ms == 1000,
            !c.sample_usage,
    {
        SchedulerConfig { interval_ms: 1000, sample_usage: false }
    }

    /// The clock-and-usage profile: a half-second tick that rewrites the
    /// time and the usage fields.
    pub fn clock_and_usage() -> (c: SchedulerConfig)
        ensures
            c.interval_ms == 500,
            c.sample_usage,
    {
        SchedulerConfig { interval_ms: 500, sample_usage: true }
    }
}

/// The writes one tick hands to the UI state sink: the time fields
/// always, the usage fields only in the usage-sampling profile.
pub struct TickWrites {
    pub time: TimeSample,
    pub usage: Option<UsageSample>,
}

/// Where the scheduler stands in its lifetime: it is armed once and
/// disarmed at most once, at process shutdown.
#[derive(Clone, Copy, PartialEq, Eq, Structural, Debug)]
pub enum SchedulerState {
    NotStarted,
    Running,
    Stopped,
}

/// The repeating refresh driver: owns the probe, plans each tick, and
/// leaves the timer itself and the UI writes to the host.
pub struct RefreshScheduler {
    pub config: SchedulerConfig,
    pub state: SchedulerState,
    pub probe: SystemProbe,
}

impl RefreshScheduler {
    /// The probe's recorded core count matches its handle.
    pub closed spec fn wf(&self) -> bool {
        self.probe.wf()
    }

    /// The number of logical cores every usage sample covers.
    pub closed spec fn core_count(&self) -> nat {
        self.probe.core_count()
    }

    /// Creates a scheduler in its not-started state, with a freshly
    /// initialized probe.
    pub fn new(config: SchedulerConfig) -> (s: RefreshScheduler)
        ensures
            s.wf(),
            s.state == SchedulerState::NotStarted,
            s.config == config,
    {
        RefreshScheduler { config, state: SchedulerState::NotStarted, probe: SystemProbe::new() }
    }

    /// Arms the scheduler; the host then arms a repeating timer with the
    /// configured interval and calls `tick` on each firing.
    pub fn start(&mut self)
        requires
            old(self).wf(),
        ensures
            final(self).wf(),
            final(self).state == SchedulerState::Running,
            final(self).config == old(self).config,
            final(self).core_count() == old(self).core_count(),
    {
        self.state = SchedulerState::Running;
    }

    /// Disarms the scheduler. Idempotent, and safe even if the scheduler
    /// was never started.
    pub fn stop(&mut self)
        requires
            old(self).wf(),
        ensures
            final(self).wf(),
            final(self).state == SchedulerState::Stopped,
            final(self).config == old(self).config,
            final(self).core_count() == old(self).core_count(),
    {
        self.state = SchedulerState::Stopped;
    }

    /// One timer tick. The host first tests whether the UI layer is
    /// still alive; a dead UI layer yields no writes and leaves the
    /// scheduler untouched. A live one yields the time fields derived
    /// from a well-formed clock reading and, in the usage-sampling
    /// profile, the sample the refreshed probe projects to, with one
    /// entry per core.
    pub fn tick(&mut self, ui_alive: bool) -> (w: Option<TickWrites>)
        requires
            old(self).wf(),
            old(self).state == SchedulerState::Running,
        ensures
            final(self).wf(),
            final(self).config == old(self).config,
            final(self).state == old(self).state,
            final(self).core_count() == old(self).core_count(),
            !ui_alive ==> w is None && *final(self) == *old(self),
            ui_alive ==> w is Some,
            w matches Some(tw) ==> {
                &&& tw.time.wf()
                &&& exists|c: ClockReading| c.wf() && tw.time@ == time_sample_of(c)
                &&& (tw.usage is Some <==> old(self).config.sample_usage)
                &&& (tw.usage matches Some(u) ==> u.wf() && u.per_core@.len()
                    == old(self).core_count() && u@ == final(self).probe.usage_view())
            },
    {
        if !ui_alive {
            return None;
        }
        let time = sample_time();
        let usage = if self.config.sample_usage {
            self.probe.refresh();
            Some(self.probe.read())
        } else {
            None
        };
        Some(TickWrites { time, usage })
    }
}

/// Law: the derived display values are functions of the raw readings
/// alone, so ticks over an unchanged clock reading and unchanged counter
/// readings derive identical time and usage values.
pub proof fn lemma_tick_derivation_deterministic(
    c: ClockReading,
    per_core_raw: Seq<u64>,
    used_mem: int,
    total_mem: int,
    used_swap: int,
    total_swap: int,
    t1: TimeSampleView,
    t2: TimeSampleView,
    u1: UsageSampleView,
    u2: UsageSampleView,
)
    requires
        t1 == time_sample_of(c),
        t2 == time_sample_of(c),
        u1 == usage_sample_of(per_core_raw, used_mem, total_mem, used_swap, total_swap),
        u2 == usage_sample_of(per_core_raw, used_mem, total_mem, used_swap, total_swap),
    ensures
        t1 == t2,
        u1 == u2,
{
}

} // verus!
