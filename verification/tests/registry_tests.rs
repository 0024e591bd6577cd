use tasktide::manager::Message;
use tasktide::manager::ProcRecord;
use tasktide::manager::TaskManager;
use tasktide::manager::UpdateAction;
use tasktide::task::ProcessStatus;
use tasktide::task::TimeInterval;

fn rec(pid: u32, name: &str, cpu: u32, mem: u64) -> ProcRecord {
    ProcRecord {
        pid,
        name: name.to_string(),
        cpu_usage: cpu,
        memory_usage: mem,
        icon: None,
    }
}

fn pids(m: &TaskManager) -> Vec<u32> {
    m.tasks.iter().map(|t| t.pid).collect()
}

#[test]
fn refresh_creates_updates_and_drops_tasks() {
    let mut m = TaskManager::new();
    m.refresh(&vec![rec(1, "chrome.exe", 100, 10), rec(2, "explorer.exe", 200, 20)]);
    assert_eq!(pids(&m), vec![1, 2]);
    assert_eq!(m.tasks[0].cpu_usage, 100);

    // Pid 1 survives with fresh counters, pid 2 is gone, pid 3 is new.
    m.refresh(&vec![rec(1, "chrome.exe", 150, 15), rec(3, "code.exe", 50, 5)]);
    assert_eq!(pids(&m), vec![1, 3]);
    assert_eq!(m.tasks[0].cpu_usage, 150);
    assert_eq!(m.tasks[0].memory_usage, 15);
    assert_eq!(m.tasks[1].name, "code.exe");
    assert!(m.tasks[1].deadline.is_none());
}

#[test]
fn refresh_preserves_name_deadline_and_icon() {
    let mut m = TaskManager::new();
    let mut first = rec(1, "chrome.exe", 100, 10);
    first.icon = Some(77);
    m.refresh(&vec![first]);
    m.set_deadline(1, TimeInterval::Custom(5_000), 0);

    // The update reports another name and no icon; name, deadline and the
    // cached icon are carried forward, counters are refreshed.
    m.refresh(&vec![rec(1, "renamed.exe", 1, 2)]);
    assert_eq!(m.tasks[0].name, "chrome.exe");
    assert_eq!(m.tasks[0].deadline, Some(5_000));
    assert_eq!(m.tasks[0].icon, Some(77));
    assert_eq!(m.tasks[0].cpu_usage, 1);

    // A fresh icon replaces the cached one.
    let mut third = rec(1, "chrome.exe", 1, 2);
    third.icon = Some(88);
    m.refresh(&vec![third]);
    assert_eq!(m.tasks[0].icon, Some(88));
}

#[test]
fn search_filter_keeps_only_matching_tasks() {
    let mut m = TaskManager::new();
    m.refresh(&vec![rec(1, "chrome.exe", 0, 0), rec(2, "explorer.exe", 0, 0)]);
    assert_eq!(m.tasks.len(), 2);

    m.set_search("chrome".to_string());
    m.refresh(&vec![rec(1, "chrome.exe", 0, 0), rec(2, "explorer.exe", 0, 0)]);
    assert_eq!(pids(&m), vec![1]);
    assert_eq!(m.tasks[0].name, "chrome.exe");
}

#[test]
fn search_filter_is_case_insensitive() {
    let mut m = TaskManager::new();
    m.set_search("CHROME".to_string());
    m.refresh(&vec![rec(1, "chrome.exe", 0, 0), rec(2, "explorer.exe", 0, 0)]);
    assert_eq!(pids(&m), vec![1]);
}

#[test]
fn selection_survives_refresh_while_task_lives() {
    let mut m = TaskManager::new();
    m.refresh(&vec![rec(1, "a.exe", 0, 0)]);
    m.select(1);
    m.refresh(&vec![rec(1, "a.exe", 0, 0)]);
    assert_eq!(m.selected_task, Some(1));
}

#[test]
fn selection_cleared_when_task_vanishes_or_is_filtered_out() {
    let mut m = TaskManager::new();
    m.refresh(&vec![rec(1, "a.exe", 0, 0)]);
    m.select(1);
    m.refresh(&vec![rec(2, "b.exe", 0, 0)]);
    assert_eq!(m.selected_task, None);

    m.refresh(&vec![rec(1, "a.exe", 0, 0), rec(2, "b.exe", 0, 0)]);
    m.select(1);
    m.set_search("b.exe".to_string());
    m.refresh(&vec![rec(1, "a.exe", 0, 0), rec(2, "b.exe", 0, 0)]);
    assert_eq!(m.selected_task, None);
}

#[test]
fn set_and_clear_deadline() {
    let mut m = TaskManager::new();
    m.refresh(&vec![rec(1, "a.exe", 0, 0)]);
    m.set_deadline(1, TimeInterval::ThirtyMinutes, 1_000);
    assert_eq!(m.tasks[0].deadline, Some(2_800));
    assert_eq!(m.status_of(1, 1_000), Some(ProcessStatus::Running));
    assert_eq!(m.status_of(1, 2_801), Some(ProcessStatus::DeadlineReached));

    // Setting again overwrites.
    m.set_deadline(1, TimeInterval::Custom(9_999), 1_000);
    assert_eq!(m.tasks[0].deadline, Some(9_999));

    // Clearing re-derives the status to Running whatever came before.
    m.clear_deadline(1);
    assert_eq!(m.tasks[0].deadline, None);
    assert_eq!(m.status_of(1, u64::MAX), Some(ProcessStatus::Running));
}

#[test]
fn clear_deadline_after_expiry_yields_running() {
    let mut m = TaskManager::new();
    m.refresh(&vec![rec(1, "a.exe", 0, 0)]);
    m.set_deadline(1, TimeInterval::Custom(10), 0);
    assert_eq!(m.status_of(1, 100), Some(ProcessStatus::DeadlineReached));
    m.clear_deadline(1);
    assert_eq!(m.status_of(1, 100), Some(ProcessStatus::Running));
}

#[test]
fn deadline_ops_on_absent_pid_change_nothing() {
    let mut m = TaskManager::new();
    m.refresh(&vec![rec(1, "a.exe", 0, 0)]);
    m.set_deadline(99, TimeInterval::OneHour, 0);
    m.clear_deadline(99);
    assert_eq!(pids(&m), vec![1]);
    assert_eq!(m.tasks[0].deadline, None);
    assert_eq!(m.status_of(99, 0), None);
}

#[test]
fn terminate_request_for_absent_pid_is_a_successful_no_op() {
    let m = TaskManager::new();
    // No task with this pid: the request reports nothing to do, so no OS
    // surface is ever touched for it.
    assert!(m.terminate_request(123).is_none());
}

#[test]
fn terminate_request_reports_name_and_save_applicability() {
    let mut m = TaskManager::new();
    m.refresh(&vec![rec(1, "WINWORD.EXE", 0, 0), rec(2, "svchost.exe", 0, 0)]);
    let start = m.terminate_request(1).unwrap();
    assert_eq!(start.name, "WINWORD.EXE");
    assert!(start.attempt_save);
    let start = m.terminate_request(2).unwrap();
    assert_eq!(start.name, "svchost.exe");
    assert!(!start.attempt_save);
}

#[test]
fn finish_terminate_success_removes_task_and_clears_selection() {
    let mut m = TaskManager::new();
    m.refresh(&vec![rec(1, "a.exe", 0, 0), rec(2, "b.exe", 0, 0)]);
    m.select(1);
    m.finish_terminate(1, true);
    assert_eq!(pids(&m), vec![2]);
    assert_eq!(m.selected_task, None);
}

#[test]
fn finish_terminate_keeps_unrelated_selection() {
    let mut m = TaskManager::new();
    m.refresh(&vec![rec(1, "a.exe", 0, 0), rec(2, "b.exe", 0, 0)]);
    m.select(2);
    m.finish_terminate(1, true);
    assert_eq!(pids(&m), vec![2]);
    assert_eq!(m.selected_task, Some(2));
}

#[test]
fn finish_terminate_failure_leaves_registry_untouched() {
    let mut m = TaskManager::new();
    m.refresh(&vec![rec(1, "a.exe", 0, 0)]);
    m.set_deadline(1, TimeInterval::Custom(10), 0);
    m.select(1);
    m.finish_terminate(1, false);
    assert_eq!(pids(&m), vec![1]);
    assert_eq!(m.tasks[0].deadline, Some(10));
    assert_eq!(m.selected_task, Some(1));
    // Still past its deadline, the task is collected again on the next tick.
    assert_eq!(m.expired_pids(100), vec![1]);
}

#[test]
fn expired_pids_collects_exactly_the_overdue_tasks() {
    let mut m = TaskManager::new();
    m.refresh(&vec![rec(1, "a.exe", 0, 0), rec(2, "b.exe", 0, 0), rec(3, "c.exe", 0, 0)]);
    m.set_deadline(1, TimeInterval::Custom(10), 0);
    m.set_deadline(3, TimeInterval::Custom(500), 0);
    assert_eq!(m.expired_pids(100), vec![1]);
    assert_eq!(m.expired_pids(501), vec![1, 3]);
    assert_eq!(m.expired_pids(5), Vec::<u32>::new());
}

#[test]
fn tick_removes_expired_task_and_clears_its_selection() {
    // Task pid 100 with a deadline one second out; one tick at simulated
    // t = 2 s later finds it expired, its termination succeeds, and it is
    // gone, selection included.
    let mut m = TaskManager::new();
    m.refresh(&vec![rec(100, "a.exe", 0, 0)]);
    m.select(100);
    m.set_deadline(100, TimeInterval::Custom(1), 0);

    let expired = m.tick(&vec![rec(100, "a.exe", 0, 0)], 2);
    assert_eq!(expired, vec![100]);
    for pid in expired {
        if m.terminate_request(pid).is_some() {
            // The protocol ran against the OS and succeeded.
            m.finish_terminate(pid, true);
        }
    }
    assert!(pids(&m).is_empty());
    assert_eq!(m.selected_task, None);
}

#[test]
fn two_deadlines_in_one_tick_both_terminate() {
    let mut m = TaskManager::new();
    let snapshot = vec![rec(1, "a.exe", 0, 0), rec(2, "b.exe", 0, 0)];
    m.refresh(&snapshot);
    m.set_deadline(1, TimeInterval::Custom(5), 0);
    m.set_deadline(2, TimeInterval::Custom(6), 0);

    // Both deadlines fall inside the same tick; the tick collects both and
    // each termination completes before the tick is over.
    let expired = m.tick(&snapshot, 7);
    assert_eq!(expired, vec![1, 2]);
    for pid in expired {
        if m.terminate_request(pid).is_some() {
            m.finish_terminate(pid, true);
        }
    }
    assert!(pids(&m).is_empty());
}

#[test]
fn expired_task_already_gone_is_a_silent_no_op() {
    let mut m = TaskManager::new();
    m.refresh(&vec![rec(1, "a.exe", 0, 0)]);
    m.set_deadline(1, TimeInterval::Custom(1), 0);
    let expired = m.expired_pids(10);
    assert_eq!(expired, vec![1]);
    // The process exits on its own before the protocol starts: the next
    // refresh drops it, and the termination attempt finds nothing to do.
    m.refresh(&Vec::new());
    for pid in expired {
        assert!(m.terminate_request(pid).is_none());
    }
}

#[test]
fn update_dispatches_commands() {
    let mut m = TaskManager::new();
    m.refresh(&vec![rec(1, "a.exe", 0, 0)]);

    assert_eq!(m.update(Message::TaskSelected(1), 0), UpdateAction::Handled);
    assert_eq!(m.selected_task, Some(1));

    assert_eq!(m.update(Message::SetDeadline(1, TimeInterval::OneHour), 100), UpdateAction::Handled);
    assert_eq!(m.tasks[0].deadline, Some(3_700));

    assert_eq!(m.update(Message::ClearDeadline(1), 0), UpdateAction::Handled);
    assert_eq!(m.tasks[0].deadline, None);

    assert_eq!(m.update(Message::Tick, 0), UpdateAction::RunTick);
    assert_eq!(m.update(Message::CheckDeadlines, 0), UpdateAction::RunTick);
    assert_eq!(m.update(Message::TerminateTask(1), 0), UpdateAction::RunTerminate(1));

    assert_eq!(m.update(Message::SearchInput("chr".to_string()), 0), UpdateAction::RunTick);
    assert_eq!(m.search_query, "chr");

    assert_eq!(
        m.update(Message::CustomDeadlineInput("45".to_string()), 0),
        UpdateAction::Handled
    );
    assert_eq!(m.custom_deadline, "45");
    assert_eq!(m.custom_minutes(), 45);
}

#[test]
fn custom_minutes_defaults_to_thirty() {
    let mut m = TaskManager::new();
    m.set_custom_deadline_input("".to_string());
    assert_eq!(m.custom_minutes(), 30);
    m.set_custom_deadline_input("abc".to_string());
    assert_eq!(m.custom_minutes(), 30);
    m.set_custom_deadline_input("90".to_string());
    assert_eq!(m.custom_minutes(), 90);
    m.set_custom_deadline_input("99999999999999999999999".to_string());
    assert_eq!(m.custom_minutes(), 30);
}
