use tasktide::task::deadline_for;
use tasktide::task::deadline_in_minutes;
use tasktide::task::ProcessStatus;
use tasktide::task::Task;
use tasktide::task::TimeInterval;

fn task(pid: u32, name: &str, deadline: Option<u64>) -> Task {
    Task {
        name: name.to_string(),
        pid,
        cpu_usage: 0,
        memory_usage: 0,
        icon: None,
        deadline,
    }
}

#[test]
fn new_task_has_no_deadline_and_runs() {
    let t = Task::new("notepad.exe".to_string(), 42, 1_250, 4_096, Some(9));
    assert_eq!(t.name, "notepad.exe");
    assert_eq!(t.pid, 42);
    assert_eq!(t.cpu_usage, 1_250);
    assert_eq!(t.memory_usage, 4_096);
    assert_eq!(t.icon, Some(9));
    assert!(t.deadline.is_none());
    assert_eq!(t.get_status(0), ProcessStatus::Running);
}

#[test]
fn no_deadline_is_always_running() {
    let t = task(1, "chrome.exe", None);
    assert_eq!(t.get_status(0), ProcessStatus::Running);
    assert_eq!(t.get_status(1_000), ProcessStatus::Running);
    assert_eq!(t.get_status(u64::MAX), ProcessStatus::Running);
}

#[test]
fn status_at_and_past_deadline() {
    let t = task(1, "notepad.exe", Some(100));
    assert_eq!(t.get_status(99), ProcessStatus::Running);
    assert_eq!(t.get_status(100), ProcessStatus::Running);
    assert_eq!(t.get_status(101), ProcessStatus::DeadlineReached);
}

#[test]
fn deadline_reached_stays_reached_as_time_advances() {
    let t = task(1, "notepad.exe", Some(100));
    assert_eq!(t.get_status(101), ProcessStatus::DeadlineReached);
    assert_eq!(t.get_status(500), ProcessStatus::DeadlineReached);
    assert_eq!(t.get_status(u64::MAX), ProcessStatus::DeadlineReached);
}

#[test]
fn thirty_minute_deadline_runs_until_clock_passes_it() {
    let now: u64 = 10_000;
    let d = deadline_for(TimeInterval::ThirtyMinutes, now);
    assert_eq!(d, now + 1800);
    let t = task(7, "WINWORD.EXE", Some(d));
    // Immediately after setting the deadline the task is still running.
    assert_eq!(t.get_status(now), ProcessStatus::Running);
    // Advancing a controllable clock past the deadline flips the status.
    assert_eq!(t.get_status(d + 1), ProcessStatus::DeadlineReached);
}

#[test]
fn deadline_presets() {
    assert_eq!(deadline_for(TimeInterval::ThirtyMinutes, 0), 1800);
    assert_eq!(deadline_for(TimeInterval::OneHour, 50), 3650);
    assert_eq!(deadline_for(TimeInterval::TwoHours, 1), 7201);
    assert_eq!(deadline_for(TimeInterval::Custom(424242), 999), 424242);
}

#[test]
fn deadline_in_minutes_exact_and_clamped() {
    assert_eq!(deadline_in_minutes(1_000, 30), 1_000 + 1800);
    assert_eq!(deadline_in_minutes(0, 0), 0);
    assert_eq!(deadline_in_minutes(u64::MAX - 10, 1), u64::MAX);
    assert_eq!(deadline_in_minutes(5, u64::MAX), u64::MAX);
}

#[test]
fn format_none_and_expired() {
    let t = task(1, "a", None);
    assert_eq!(t.format_deadline(123), "None");
    let t = task(1, "a", Some(100));
    assert_eq!(t.format_deadline(101), "Expired");
}

#[test]
fn format_minutes_and_seconds() {
    // 5 minutes 3 seconds remaining.
    let t = task(1, "a", Some(1000 + 303));
    assert_eq!(t.format_deadline(1000), "5m 3s left");
    // Under a minute only seconds are shown.
    let t = task(1, "a", Some(1000 + 45));
    assert_eq!(t.format_deadline(1000), "45s left");
    // Exactly at the deadline the task is not yet expired.
    let t = task(1, "a", Some(1000));
    assert_eq!(t.format_deadline(1000), "0s left");
    // Minutes are total minutes, not capped at an hour.
    let t = task(1, "a", Some(7200 + 59));
    assert_eq!(t.format_deadline(0), "120m 59s left");
}
