//! Task records and deadline status derivation.
//!
//! Time is an absolute number of seconds (a `u64`); the current time is always
//! passed in by the caller, never read from a clock, so status derivation is a
//! pure function of a task's deadline and the given time.

use vstd::prelude::*;

use crate::text::dec_digits;
use crate::text::u64_to_string;

verus! {

/// Seconds added to the current time by the fixed deadline presets.
pub const THIRTY_MINUTES_SECS: u64 = 1800;

/// Seconds in one hour.
pub const ONE_HOUR_SECS: u64 = 3600;

/// Seconds in two hours.
pub const TWO_HOURS_SECS: u64 = 7200;

/// Derived state of a task with respect to its deadline. A terminated task
/// leaves the registry at once, so `Terminated` never lingers on a stored
/// task; it exists for consumers that label a task right as it goes.
#[derive(Clone, Copy, Debug, PartialEq, Eq, Structural)]
pub enum ProcessStatus {
    Running,
    Terminated,
    DeadlineReached,
}

/// A deadline specification: one of the fixed presets, relative to the current
/// time, or an absolute timestamp in seconds.
#[derive(Clone, Copy, Debug, PartialEq, Eq, Structural)]
pub enum TimeInterval {
    ThirtyMinutes,
    OneHour,
    TwoHours,
    Custom(u64),
}

/// One observed OS process, as reconciled by the registry.
///
/// `cpu_usage` is in hundredths of a percent and `memory_usage` in bytes, both
/// point-in-time counters from the latest snapshot. `icon` is an opaque token
/// handed in by an external icon collaborator; it is carried, never read.
/// `deadline` is an absolute time in seconds; `None` means the task is not
/// subject to automatic termination.
#[derive(Clone, Debug)]
pub struct Task {
    pub name: String,
    pub pid: u32,
    pub cpu_usage: u32,
    pub memory_usage: u64,
    pub icon: Option<u64>,
    pub deadline: Option<u64>,
}

/// Status as a function of a deadline and the current time: `Running` when no
/// deadline is set or `now` has not passed it, `DeadlineReached` otherwise.
pub open spec fn spec_status(deadline: Option<u64>, now: u64) -> ProcessStatus {
    match deadline {
        Option::Some(d) => if now > d {
            ProcessStatus::DeadlineReached
        } else {
            ProcessStatus::Running
        },
        Option::None => ProcessStatus::Running,
    }
}

/// The absolute deadline an interval denotes at time `now`.
pub open spec fn spec_deadline_for(interval: TimeInterval, now: u64) -> int {
    match interval {
        TimeInterval::ThirtyMinutes => now + THIRTY_MINUTES_SECS,
        TimeInterval::OneHour => now + ONE_HOUR_SECS,
        TimeInterval::TwoHours => now + TWO_HOURS_SECS,
        TimeInterval::Custom(t) => t as int,
    }
}

/// The absolute deadline an interval denotes at time `now`.
pub fn deadline_for(interval: TimeInterval, now: u64) -> (r: u64)
    requires
        now <= u64::MAX - TWO_HOURS_SECS,
    ensures
        r == spec_deadline_for(interval, now),
{
    match interval {
        TimeInterval::ThirtyMinutes => now + THIRTY_MINUTES_SECS,
        TimeInterval::OneHour => now + ONE_HOUR_SECS,
        TimeInterval::TwoHours => now + TWO_HOURS_SECS,
        TimeInterval::Custom(t) => t,
    }
}

/// The absolute deadline `minutes` whole minutes after `now`, clamped to the
/// largest representable time when the sum does not fit.
pub fn deadline_in_minutes(now: u64, minutes: u64) -> (r: u64)
    ensures
        r == (if now + minutes * 60 > u64::MAX {
            u64::MAX
        } else {
            (now + minutes * 60) as u64
        }),
{
    let secs: u64 = if minutes > u64::MAX / 60 {
        u64::MAX
    } else {
        minutes * 60
    };
    now.saturating_add(secs)
}

impl Task {
    /// A task first observed in a snapshot: counters from the snapshot, no
    /// deadline set.
    pub fn new(name: String, pid: u32, cpu_usage: u32, memory_usage: u64, icon: Option<u64>) -> (r: Task)
        ensures
            r.name == name,
            r.pid == pid,
            r.cpu_usage == cpu_usage,
            r.memory_usage == memory_usage,
            r.icon == icon,
            r.deadline is None,
    {
        Task { name, pid, cpu_usage, memory_usage, icon, deadline: None }
    }

    /// The task's status at time `now`.
    pub fn get_status(&self, now: u64) -> (r: ProcessStatus)
        ensures
            r == spec_status(self.deadline, now),
    {
        match self.deadline {
            Some(d) => if now > d {
                ProcessStatus::DeadlineReached
            } else {
                ProcessStatus::Running
            },
            None => ProcessStatus::Running,
        }
    }
}

/// The label shown for a deadline at time `now`: `"None"` without a deadline,
/// `"Expired"` once `now` has passed it, and otherwise the remaining time as
/// `"{m}m {s}s left"` when whole minutes remain, else `"{s}s left"`.
pub open spec fn spec_remaining_label(deadline: Option<u64>, now: u64) -> Seq<char> {
    match deadline {
        Option::None => "None"@,
        Option::Some(d) => if now > d {
            "Expired"@
        } else {
            let rem = d - now;
            if rem / 60 > 0 {
                dec_digits(rem / 60) + "m "@ + dec_digits(rem % 60) + "s left"@
            } else {
                dec_digits(rem % 60) + "s left"@
            }
        },
    }
}

impl Task {
    /// The remaining-time label of the task at time `now`.
    pub fn format_deadline(&self, now: u64) -> (r: String)
        ensures
            r@ == spec_remaining_label(self.deadline, now),
    {
        match self.deadline {
            None => String::from_str("None"),
            Some(d) => {
                if now > d {
                    String::from_str("Expired")
                } else {
                    let rem = d - now;
                    let minutes = rem / 60;
                    let seconds = rem % 60;
                    if minutes > 0 {
                        let mut out = u64_to_string(minutes);
                        out.append("m ");
                        let secs = u64_to_string(seconds);
                        out.append(secs.as_str());
                        out.append("s left");
                        proof {
                            assert(out@ =~= spec_remaining_label(self.deadline, now));
                        }
                        out
                    } else {
                        let mut out = u64_to_string(seconds);
                        out.append("s left");
                        proof {
                            assert(out@ =~= spec_remaining_label(self.deadline, now));
                        }
                        out
                    }
                }
            },
        }
    }
}

/// A task with no deadline set is `Running` at every time.
pub proof fn lemma_no_deadline_always_running(now: u64)
    ensures
        spec_status(None, now) == ProcessStatus::Running,
{
}

/// Once `now` has passed a deadline, the status is `DeadlineReached` at every
/// later time as well: with the deadline unchanged, the status never reverts
/// to `Running`. Only replacing or clearing the deadline can change it.
pub proof fn lemma_deadline_reached_monotonic(d: u64, t1: u64, t2: u64)
    requires
        spec_status(Some(d), t1) == ProcessStatus::DeadlineReached,
        t1 <= t2,
    ensures
        spec_status(Some(d), t2) == ProcessStatus::DeadlineReached,
{
}

/// Setting a thirty-minute deadline at time `now` leaves the task `Running`
/// when checked at `now`, and `DeadlineReached` at any time past the deadline.
pub proof fn lemma_set_deadline_then_check(now: u64, later: u64)
    requires
        now <= u64::MAX - TWO_HOURS_SECS,
    ensures
        spec_status(
            Some((now + THIRTY_MINUTES_SECS) as u64),
            now,
        ) == ProcessStatus::Running,
        later > now + THIRTY_MINUTES_SECS ==> spec_status(
            Some((now + THIRTY_MINUTES_SECS) as u64),
            later,
        ) == ProcessStatus::DeadlineReached,
{
}

} // verus!
