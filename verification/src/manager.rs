//! The task registry and deadline scheduler.
//!
//! `TaskManager` owns the authoritative pid-to-task set. `refresh` reconciles
//! an OS process snapshot against it: counters are refreshed, name, deadline
//! and icon are carried forward, tasks absent from the snapshot are dropped,
//! and a non-empty search query excludes tasks whose name does not contain it
//! (ASCII case-insensitively). The selection is cleared whenever the selected
//! task disappears, on every refresh and every successful termination.
//!
//! The OS surfaces stay with the caller: the snapshot, the current time, and
//! the outcome of each termination attempt are plain values handed in.

use vstd::prelude::*;

use crate::targets::should_attempt_save;
use crate::targets::spec_should_attempt_save;
use crate::task::ProcessStatus;
use crate::task::Task;
use crate::task::TimeInterval;
use crate::task::TWO_HOURS_SECS;
use crate::task::deadline_for;
use crate::task::spec_deadline_for;
use crate::task::spec_status;
use crate::text::contains_ci;
use crate::text::spec_contains_ci;

verus! {

/// One record of an OS process snapshot: the pid, the executable name, the
/// point-in-time resource counters (`cpu_usage` in hundredths of a percent,
/// `memory_usage` in bytes), and an optional icon token resolved best-effort
/// by the external icon collaborator.
#[derive(Clone, Debug)]
pub struct ProcRecord {
    pub pid: u32,
    pub name: String,
    pub cpu_usage: u32,
    pub memory_usage: u64,
    pub icon: Option<u64>,
}

/// No two tasks share a pid.
pub open spec fn distinct_pids(tasks: Seq<Task>) -> bool {
    forall|i: int, j: int| 0 <= i < j < tasks.len() ==> tasks[i].pid != tasks[j].pid
}

/// No two snapshot records share a pid. A snapshot enumerates the processes
/// alive at one point in time, so the OS reports each pid at most once.
pub open spec fn records_distinct(snap: Seq<ProcRecord>) -> bool {
    forall|i: int, j: int| 0 <= i < j < snap.len() ==> snap[i].pid != snap[j].pid
}

/// Some task carries this pid.
pub open spec fn has_pid(tasks: Seq<Task>, pid: u32) -> bool {
    exists|i: int| 0 <= i < tasks.len() && tasks[i].pid == pid
}

/// The first task carrying this pid, if any.
pub open spec fn find_task(tasks: Seq<Task>, pid: u32) -> Option<Task>
    decreases tasks.len(),
{
    if tasks.len() == 0 {
        None
    } else if tasks[0].pid == pid {
        Some(tasks[0])
    } else {
        find_task(tasks.drop_first(), pid)
    }
}

/// `find_task` yields a task exactly when the pid is present, and then a task
/// of the sequence carrying that pid.
pub proof fn lemma_find_task(tasks: Seq<Task>, pid: u32)
    ensures
        find_task(tasks, pid) is Some <==> has_pid(tasks, pid),
        find_task(tasks, pid) matches Some(t) ==> t.pid == pid && exists|i: int|
            0 <= i < tasks.len() && tasks[i] == t,
    decreases tasks.len(),
{
    if tasks.len() == 0 {
    } else if tasks[0].pid == pid {
        assert(tasks[0].pid == pid);
    } else {
        lemma_find_task(tasks.drop_first(), pid);
        if has_pid(tasks, pid) {
            let i = choose|i: int| 0 <= i < tasks.len() && tasks[i].pid == pid;
            assert(tasks.drop_first()[i - 1] == tasks[i]);
            assert(has_pid(tasks.drop_first(), pid));
        }
        match find_task(tasks.drop_first(), pid) {
            Option::Some(t) => {
                let i = choose|i: int|
                    0 <= i < tasks.drop_first().len() && tasks.drop_first()[i] == t;
                assert(tasks[i + 1] == tasks.drop_first()[i]);
            },
            Option::None => {},
        }
        if has_pid(tasks.drop_first(), pid) {
            let i = choose|i: int|
                0 <= i < tasks.drop_first().len() && tasks.drop_first()[i].pid == pid;
            assert(tasks[i + 1] == tasks.drop_first()[i]);
            assert(has_pid(tasks, pid));
        }
    }
}

/// The search filter admits a task name when the filter is empty or occurs in
/// the name up to ASCII case.
pub open spec fn matches_filter(name: Seq<char>, filter: Seq<char>) -> bool {
    filter.len() == 0 || spec_contains_ci(name, filter)
}

/// The task a snapshot record reconciles to: an existing task with this pid
/// keeps its name, deadline and (absent a fresh one) icon and takes the
/// record's counters; an unknown pid founds a new task with no deadline.
pub open spec fn merged_task(old_tasks: Seq<Task>, r: ProcRecord) -> Task {
    match find_task(old_tasks, r.pid) {
        Option::Some(t) => Task {
            name: t.name,
            pid: r.pid,
            cpu_usage: r.cpu_usage,
            memory_usage: r.memory_usage,
            icon: if r.icon is Some {
                r.icon
            } else {
                t.icon
            },
            deadline: t.deadline,
        },
        Option::None => Task {
            name: r.name,
            pid: r.pid,
            cpu_usage: r.cpu_usage,
            memory_usage: r.memory_usage,
            icon: r.icon,
            deadline: None,
        },
    }
}

/// The task set a refresh produces: one reconciled task per snapshot record
/// whose name passes the filter, in snapshot order. Tasks whose pid the
/// snapshot lacks are gone.
pub open spec fn spec_refresh(
    old_tasks: Seq<Task>,
    snap: Seq<ProcRecord>,
    filter: Seq<char>,
) -> Seq<Task>
    decreases snap.len(),
{
    if snap.len() == 0 {
        Seq::empty()
    } else {
        let prefix = spec_refresh(old_tasks, snap.drop_last(), filter);
        if matches_filter(snap.last().name@, filter) {
            prefix.push(merged_task(old_tasks, snap.last()))
        } else {
            prefix
        }
    }
}

/// Every refreshed task stems from a snapshot record that passes the filter,
/// and distinct snapshot pids give distinct task pids.
pub proof fn lemma_refresh_sound(old_tasks: Seq<Task>, snap: Seq<ProcRecord>, filter: Seq<char>)
    requires
        records_distinct(snap),
    ensures
        forall|k: int|
            #![trigger spec_refresh(old_tasks, snap, filter)[k]]
            0 <= k < spec_refresh(old_tasks, snap, filter).len() ==> exists|j: int|
                #![auto]
                0 <= j < snap.len() && matches_filter(snap[j].name@, filter) && spec_refresh(
                    old_tasks,
                    snap,
                    filter,
                )[k] == merged_task(old_tasks, snap[j]),
        distinct_pids(spec_refresh(old_tasks, snap, filter)),
    decreases snap.len(),
{
    if snap.len() > 0 {
        let result = spec_refresh(old_tasks, snap, filter);
        let prefix = spec_refresh(old_tasks, snap.drop_last(), filter);
        assert(records_distinct(snap.drop_last()));
        lemma_refresh_sound(old_tasks, snap.drop_last(), filter);
        assert forall|k: int| #![trigger result[k]] 0 <= k < result.len() implies exists|j: int|
            #![auto]
            0 <= j < snap.len() && matches_filter(snap[j].name@, filter) && result[k]
                == merged_task(old_tasks, snap[j]) by {
            if k < prefix.len() {
                let j = choose|j: int|
                    0 <= j < snap.drop_last().len() && matches_filter(
                        snap.drop_last()[j].name@,
                        filter,
                    ) && prefix[k] == merged_task(old_tasks, snap.drop_last()[j]);
                assert(snap.drop_last()[j] == snap[j]);
                assert(result[k] == prefix[k]);
            } else {
                assert(matches_filter(snap.last().name@, filter));
                assert(result[k] == merged_task(old_tasks, snap.last()));
                assert(snap.last() == snap[snap.len() - 1]);
            }
        }
        assert forall|a: int, b: int| 0 <= a < b < result.len() implies result[a].pid
            != result[b].pid by {
            let ja = choose|j: int|
                0 <= j < snap.len() && matches_filter(snap[j].name@, filter) && result[a]
                    == merged_task(old_tasks, snap[j]);
            let jb = choose|j: int|
                0 <= j < snap.len() && matches_filter(snap[j].name@, filter) && result[b]
                    == merged_task(old_tasks, snap[j]);
            if b < prefix.len() {
                assert(prefix[a].pid != prefix[b].pid);
            } else {
                // `b` is the pushed task; `a` stems from a strictly earlier
                // record, whose pid differs by snapshot distinctness.
                assert(result[b] == merged_task(old_tasks, snap.last()));
                if a < prefix.len() {
                    assert(result[a] == prefix[a]);
                    if ja < snap.len() - 1 {
                        assert(snap[ja].pid != snap[snap.len() - 1].pid);
                    } else {
                        // The earlier task would stem from the last record;
                        // show it in fact stems from a prefix record.
                        let jp = choose|j: int|
                            0 <= j < snap.drop_last().len() && matches_filter(
                                snap.drop_last()[j].name@,
                                filter,
                            ) && prefix[a] == merged_task(old_tasks, snap.drop_last()[j]);
                        assert(snap.drop_last()[jp] == snap[jp]);
                        assert(result[a] == merged_task(old_tasks, snap[jp]));
                        assert(snap[jp].pid != snap[snap.len() - 1].pid);
                        assert(merged_task(old_tasks, snap[jp]).pid == snap[jp].pid);
                    }
                }
            }
        }
    }
}

/// A pid is in the refreshed set exactly when the snapshot holds a record
/// with that pid whose name passes the filter.
pub proof fn lemma_refresh_membership(
    old_tasks: Seq<Task>,
    snap: Seq<ProcRecord>,
    filter: Seq<char>,
    pid: u32,
)
    ensures
        has_pid(spec_refresh(old_tasks, snap, filter), pid) <==> exists|j: int|
            0 <= j < snap.len() && snap[j].pid == pid && matches_filter(snap[j].name@, filter),
    decreases snap.len(),
{
    let result = spec_refresh(old_tasks, snap, filter);
    if snap.len() == 0 {
    } else {
        let prefix = spec_refresh(old_tasks, snap.drop_last(), filter);
        lemma_refresh_membership(old_tasks, snap.drop_last(), filter, pid);
        if has_pid(result, pid) {
            let i = choose|i: int| 0 <= i < result.len() && result[i].pid == pid;
            if matches_filter(snap.last().name@, filter) && i == result.len() - 1 {
                assert(result[i] == merged_task(old_tasks, snap.last()));
                assert(snap[snap.len() - 1] == snap.last());
            } else {
                assert(result[i] == prefix[i]);
                assert(has_pid(prefix, pid));
                let j = choose|j: int|
                    0 <= j < snap.drop_last().len() && snap.drop_last()[j].pid == pid
                        && matches_filter(snap.drop_last()[j].name@, filter);
                assert(snap.drop_last()[j] == snap[j]);
            }
        }
        if exists|j: int|
            0 <= j < snap.len() && snap[j].pid == pid && matches_filter(
                snap[j].name@,
                filter,
            ) {
            let j = choose|j: int|
                0 <= j < snap.len() && snap[j].pid == pid && matches_filter(
                    snap[j].name@,
                    filter,
                );
            if j == snap.len() - 1 {
                assert(snap.last() == snap[j]);
                assert(result[result.len() - 1] == merged_task(old_tasks, snap.last()));
                assert(has_pid(result, pid));
            } else {
                assert(snap.drop_last()[j] == snap[j]);
                assert(has_pid(prefix, pid));
                let i = choose|i: int| 0 <= i < prefix.len() && prefix[i].pid == pid;
                assert(result[i] == prefix[i]);
                assert(has_pid(result, pid));
            }
        }
    }
}

/// A refresh never invents or changes a deadline: a task that survives keeps
/// the deadline it had, and a newly founded task has none.
pub proof fn lemma_refresh_preserves_deadlines(
    old_tasks: Seq<Task>,
    snap: Seq<ProcRecord>,
    filter: Seq<char>,
)
    ensures
        forall|k: int|
            #![trigger spec_refresh(old_tasks, snap, filter)[k]]
            0 <= k < spec_refresh(old_tasks, snap, filter).len() ==> {
                let t = spec_refresh(old_tasks, snap, filter)[k];
                &&& (find_task(old_tasks, t.pid) matches Some(o) ==> t.deadline == o.deadline)
                &&& (find_task(old_tasks, t.pid) is None ==> t.deadline is None)
            },
    decreases snap.len(),
{
    let result = spec_refresh(old_tasks, snap, filter);
    if snap.len() > 0 {
        let prefix = spec_refresh(old_tasks, snap.drop_last(), filter);
        lemma_refresh_preserves_deadlines(old_tasks, snap.drop_last(), filter);
        assert forall|k: int| #![trigger result[k]] 0 <= k < result.len() implies {
            let t = result[k];
            &&& (find_task(old_tasks, t.pid) matches Some(o) ==> t.deadline == o.deadline)
            &&& (find_task(old_tasks, t.pid) is None ==> t.deadline is None)
        } by {
            if k < prefix.len() {
                assert(result[k] == prefix[k]);
            } else {
                assert(result[k] == merged_task(old_tasks, snap.last()));
            }
        }
    }
}

/// Once a deadline is set it survives any number of refreshes unchanged: the
/// task found under a pid after a refresh carries the very deadline the task
/// under that pid carried before, and a task the registry did not know has
/// none. Only `set_deadline` and `clear_deadline` replace a deadline.
pub proof fn lemma_refresh_keeps_deadline(
    old_tasks: Seq<Task>,
    snap: Seq<ProcRecord>,
    filter: Seq<char>,
    pid: u32,
)
    ensures
        match (find_task(spec_refresh(old_tasks, snap, filter), pid), find_task(old_tasks, pid)) {
            (Option::Some(t), Option::Some(o)) => t.deadline == o.deadline,
            (Option::Some(t), Option::None) => t.deadline is None,
            _ => true,
        },
{
    let result = spec_refresh(old_tasks, snap, filter);
    lemma_refresh_preserves_deadlines(old_tasks, snap, filter);
    lemma_find_task(result, pid);
    match find_task(result, pid) {
        Option::Some(t) => {
            let i = choose|i: int| 0 <= i < result.len() && result[i] == t;
            assert(result[i] == t && t.pid == pid);
        },
        Option::None => {},
    }
}

/// The pids whose tasks have reached their deadline at time `now`, in task
/// order.
pub open spec fn spec_expired(tasks: Seq<Task>, now: u64) -> Seq<u32>
    decreases tasks.len(),
{
    if tasks.len() == 0 {
        Seq::empty()
    } else {
        let prefix = spec_expired(tasks.drop_last(), now);
        if spec_status(tasks.last().deadline, now) == ProcessStatus::DeadlineReached {
            prefix.push(tasks.last().pid)
        } else {
            prefix
        }
    }
}

/// The task set with every task of this pid removed, order kept.
pub open spec fn spec_remove(tasks: Seq<Task>, pid: u32) -> Seq<Task>
    decreases tasks.len(),
{
    if tasks.len() == 0 {
        Seq::empty()
    } else {
        let prefix = spec_remove(tasks.drop_last(), pid);
        if tasks.last().pid == pid {
            prefix
        } else {
            prefix.push(tasks.last())
        }
    }
}

/// Every task of this pid is gone from `spec_remove`, and every other task
/// survives.
pub proof fn lemma_remove_membership(tasks: Seq<Task>, pid: u32, other: u32)
    ensures
        !has_pid(spec_remove(tasks, pid), pid),
        other != pid ==> (has_pid(spec_remove(tasks, pid), other) <==> has_pid(tasks, other)),
    decreases tasks.len(),
{
    let result = spec_remove(tasks, pid);
    if tasks.len() == 0 {
    } else {
        let prefix = spec_remove(tasks.drop_last(), pid);
        lemma_remove_membership(tasks.drop_last(), pid, other);
        if has_pid(result, pid) {
            let i = choose|i: int| 0 <= i < result.len() && result[i].pid == pid;
            if tasks.last().pid != pid && i == result.len() - 1 {
                assert(result[i] == tasks.last());
            } else {
                assert(result[i] == prefix[i]);
                assert(has_pid(prefix, pid));
            }
        }
        if other != pid {
            if has_pid(result, other) {
                let i = choose|i: int| 0 <= i < result.len() && result[i].pid == other;
                if tasks.last().pid != pid && i == result.len() - 1 {
                    assert(tasks.last() == tasks[tasks.len() - 1]);
                    assert(has_pid(tasks, other));
                } else {
                    assert(result[i] == prefix[i]);
                    let j = choose|j: int|
                        0 <= j < tasks.drop_last().len() && tasks.drop_last()[j].pid == other;
                    assert(tasks.drop_last()[j] == tasks[j]);
                    assert(has_pid(tasks, other));
                }
            }
            if has_pid(tasks, other) {
                let i = choose|i: int| 0 <= i < tasks.len() && tasks[i].pid == other;
                if i == tasks.len() - 1 {
                    assert(result[result.len() - 1] == tasks.last());
                    assert(has_pid(result, other));
                } else {
                    assert(tasks.drop_last()[i] == tasks[i]);
                    assert(has_pid(tasks.drop_last(), other));
                    let j = choose|j: int| 0 <= j < prefix.len() && prefix[j].pid == other;
                    assert(result[j] == prefix[j]);
                    assert(has_pid(result, other));
                }
            }
        }
    }
}

/// Every task of the sequence, with the deadline of those carrying `pid`
/// replaced by `d`.
pub open spec fn set_deadline_all(tasks: Seq<Task>, pid: u32, d: Option<u64>) -> Seq<Task> {
    tasks.map(
        |i: int, t: Task|
            if t.pid == pid {
                Task { deadline: d, ..t }
            } else {
                t
            },
    )
}

/// The custom-deadline text parsed as whole minutes: its decimal value when
/// it is a non-empty string of digits whose value fits, thirty minutes
/// otherwise.
pub open spec fn spec_custom_minutes(s: Seq<char>) -> int {
    if s.len() > 0 && crate::text::all_digits(s) && crate::text::dec_value(s) <= u64::MAX {
        crate::text::dec_value(s)
    } else {
        30
    }
}

/// What the process to be terminated looks like when the termination protocol
/// is to run: its current name and whether a save attempt applies to it.
pub struct TerminateStart {
    pub name: String,
    pub attempt_save: bool,
}

/// A command accepted by the engine, one per user or timer input.
pub enum Message {
    TaskSelected(u32),
    TerminateTask(u32),
    SetDeadline(u32, TimeInterval),
    ClearDeadline(u32),
    Tick,
    SearchInput(String),
    CheckDeadlines,
    CustomDeadlineInput(String),
}

/// What the caller must do after handing a message to `update`: nothing more,
/// run a tick (snapshot refresh plus deadline processing), or run the
/// termination protocol for one pid.
#[derive(Clone, Copy, Debug, PartialEq, Eq, Structural)]
pub enum UpdateAction {
    Handled,
    RunTick,
    RunTerminate(u32),
}

/// The registry and scheduler state: the authoritative task set, the active
/// selection, the search query, and the custom-deadline input text.
pub struct TaskManager {
    pub tasks: Vec<Task>,
    pub selected_task: Option<u32>,
    pub search_query: String,
    pub custom_deadline: String,
}

fn find_index(tasks: &Vec<Task>, pid: u32) -> (r: Option<usize>)
    ensures
        match r {
            Option::Some(i) => 0 <= i < tasks@.len() && tasks@[i as int].pid == pid && find_task(
                tasks@,
                pid,
            ) == Some(tasks@[i as int]),
            Option::None => !has_pid(tasks@, pid) && find_task(tasks@, pid) is None,
        },
{
    let n = tasks.len();
    let mut i: usize = 0;
    proof {
        assert(tasks@.skip(0) =~= tasks@);
    }
    while i < n
        invariant
            n == tasks@.len(),
            i <= n,
            find_task(tasks@, pid) == find_task(tasks@.skip(i as int), pid),
            forall|k: int| 0 <= k < i ==> tasks@[k].pid != pid,
        decreases n - i,
    {
        proof {
            assert(tasks@.skip(i as int)[0] == tasks@[i as int]);
            assert(tasks@.skip(i as int).drop_first() =~= tasks@.skip(i + 1));
        }
        if tasks[i].pid == pid {
            return Some(i);
        }
        i += 1;
    }
    proof {
        assert(tasks@.skip(n as int) =~= Seq::<Task>::empty());
    }
    None
}

impl TaskManager {
    /// An empty registry: no tasks, no selection, empty search query and
    /// custom-deadline text.
    pub fn new() -> (r: TaskManager)
        ensures
            r.tasks@ =~= Seq::<Task>::empty(),
            r.selected_task is None,
            r.search_query@ =~= Seq::<char>::empty(),
            r.custom_deadline@ =~= Seq::<char>::empty(),
    {
        TaskManager {
            tasks: Vec::new(),
            selected_task: None,
            search_query: String::new(),
            custom_deadline: String::new(),
        }
    }

    /// Record the active selection. Selecting the same pid again changes
    /// nothing further.
    pub fn select(&mut self, pid: u32)
        ensures
            final(self).selected_task == Some(pid),
            final(self).tasks == old(self).tasks,
            final(self).search_query == old(self).search_query,
            final(self).custom_deadline == old(self).custom_deadline,
    {
        self.selected_task = Some(pid);
    }

    /// Replace the search query. The new query takes effect at the next
    /// refresh.
    pub fn set_search(&mut self, query: String)
        ensures
            final(self).search_query == query,
            final(self).tasks == old(self).tasks,
            final(self).selected_task == old(self).selected_task,
            final(self).custom_deadline == old(self).custom_deadline,
    {
        self.search_query = query;
    }

    /// Replace the custom-deadline input text.
    pub fn set_custom_deadline_input(&mut self, text: String)
        ensures
            final(self).custom_deadline == text,
            final(self).tasks == old(self).tasks,
            final(self).selected_task == old(self).selected_task,
            final(self).search_query == old(self).search_query,
    {
        self.custom_deadline = text;
    }

    /// The custom-deadline input as whole minutes, thirty when the text is
    /// not a plain decimal number.
    pub fn custom_minutes(&self) -> (r: u64)
        ensures
            r == spec_custom_minutes(self.custom_deadline@),
    {
        match crate::text::parse_u64(self.custom_deadline.as_str()) {
            Some(v) => v,
            None => 30,
        }
    }

    /// Reconcile a snapshot into the registry: see `spec_refresh`. The
    /// selection survives exactly when the selected task does; the query and
    /// the custom-deadline text are untouched. The resulting task set has
    /// distinct pids.
    pub fn refresh(&mut self, snapshot: &Vec<ProcRecord>)
        requires
            records_distinct(snapshot@),
        ensures
            final(self).tasks@ == spec_refresh(old(self).tasks@, snapshot@, old(self).search_query@),
            distinct_pids(final(self).tasks@),
            final(self).selected_task == match old(self).selected_task {
                Option::Some(p) => if has_pid(final(self).tasks@, p) {
                    Some(p)
                } else {
                    None
                },
                Option::None => None::<u32>,
            },
            final(self).search_query == old(self).search_query,
            final(self).custom_deadline == old(self).custom_deadline,
    {
        let ghost old_tasks = self.tasks@;
        let ghost filter = self.search_query@;
        let n = snapshot.len();
        let mut new_tasks: Vec<Task> = Vec::new();
        let mut i: usize = 0;
        proof {
            assert(snapshot@.take(0) =~= Seq::<ProcRecord>::empty());
        }
        while i < n
            invariant
                n == snapshot@.len(),
                i <= n,
                old_tasks == self.tasks@,
                filter == self.search_query@,
                new_tasks@ == spec_refresh(old_tasks, snapshot@.take(i as int), filter),
            decreases n - i,
        {
            proof {
                assert(snapshot@.take(i + 1).drop_last() =~= snapshot@.take(i as int));
                assert(snapshot@.take(i + 1).last() == snapshot@[i as int]);
            }
            let keep = self.search_query.as_str().is_empty() || contains_ci(
                snapshot[i].name.as_str(),
                self.search_query.as_str(),
            );
            if keep {
                let merged = match find_index(&self.tasks, snapshot[i].pid) {
                    Some(j) => Task {
                        name: self.tasks[j].name.clone(),
                        pid: snapshot[i].pid,
                        cpu_usage: snapshot[i].cpu_usage,
                        memory_usage: snapshot[i].memory_usage,
                        icon: match snapshot[i].icon {
                            Some(x) => Some(x),
                            None => self.tasks[j].icon,
                        },
                        deadline: self.tasks[j].deadline,
                    },
                    None => Task {
                        name: snapshot[i].name.clone(),
                        pid: snapshot[i].pid,
                        cpu_usage: snapshot[i].cpu_usage,
                        memory_usage: snapshot[i].memory_usage,
                        icon: snapshot[i].icon,
                        deadline: None,
                    },
                };
                proof {
                    assert(merged == merged_task(old_tasks, snapshot@[i as int]));
                }
                new_tasks.push(merged);
            }
            i += 1;
        }
        proof {
            assert(snapshot@.take(n as int) =~= snapshot@);
            lemma_refresh_sound(old_tasks, snapshot@, filter);
        }
        self.tasks = new_tasks;
        match self.selected_task {
            Some(p) => {
                if find_index(&self.tasks, p).is_none() {
                    self.selected_task = None;
                }
            },
            None => {},
        }
    }

    /// Set or overwrite the deadline of the task with this pid; a pid not in
    /// the registry changes nothing. The deadline is the absolute time the
    /// interval denotes at `now`.
    pub fn set_deadline(&mut self, pid: u32, interval: TimeInterval, now: u64)
        requires
            now <= u64::MAX - TWO_HOURS_SECS,
        ensures
            interval matches TimeInterval::Custom(t) ==> final(self).tasks@ == set_deadline_all(
                old(self).tasks@,
                pid,
                Some(t),
            ),
            !(interval is Custom) ==> final(self).tasks@ == set_deadline_all(
                old(self).tasks@,
                pid,
                Some((spec_deadline_for(interval, now)) as u64),
            ),
            final(self).selected_task == old(self).selected_task,
            final(self).search_query == old(self).search_query,
            final(self).custom_deadline == old(self).custom_deadline,
    {
        let d = deadline_for(interval, now);
        self.replace_deadline(pid, Some(d));
    }

    /// Remove the deadline of the task with this pid, if any: its status
    /// re-derives to `Running` at every time. A pid not in the registry
    /// changes nothing.
    pub fn clear_deadline(&mut self, pid: u32)
        ensures
            final(self).tasks@ == set_deadline_all(old(self).tasks@, pid, None),
            forall|k: int, at: u64|
                0 <= k < final(self).tasks@.len() && final(self).tasks@[k].pid == pid ==> #[trigger] spec_status(
                    final(self).tasks@[k].deadline,
                    at,
                ) == ProcessStatus::Running,
            final(self).selected_task == old(self).selected_task,
            final(self).search_query == old(self).search_query,
            final(self).custom_deadline == old(self).custom_deadline,
    {
        self.replace_deadline(pid, None);
    }

    fn replace_deadline(&mut self, pid: u32, d: Option<u64>)
        ensures
            final(self).tasks@ == set_deadline_all(old(self).tasks@, pid, d),
            final(self).selected_task == old(self).selected_task,
            final(self).search_query == old(self).search_query,
            final(self).custom_deadline == old(self).custom_deadline,
    {
        let n = self.tasks.len();
        let mut j: usize = 0;
        while j < n
            invariant
                n == self.tasks@.len(),
                j <= n,
                old(self).tasks@.len() == n,
                forall|k: int| 0 <= k < j ==> self.tasks@[k] == set_deadline_all(
                    old(self).tasks@,
                    pid,
                    d,
                )[k],
                forall|k: int| j <= k < n ==> self.tasks@[k] == old(self).tasks@[k],
                self.selected_task == old(self).selected_task,
                self.search_query == old(self).search_query,
                self.custom_deadline == old(self).custom_deadline,
            decreases n - j,
        {
            if self.tasks[j].pid == pid {
                let updated = Task {
                    name: self.tasks[j].name.clone(),
                    pid: self.tasks[j].pid,
                    cpu_usage: self.tasks[j].cpu_usage,
                    memory_usage: self.tasks[j].memory_usage,
                    icon: self.tasks[j].icon,
                    deadline: d,
                };
                self.tasks[j] = updated;
            }
            j += 1;
        }
        proof {
            assert(self.tasks@ =~= set_deadline_all(old(self).tasks@, pid, d));
        }
    }

    /// The status of the task with this pid at time `now`, or nothing for a
    /// pid not in the registry.
    pub fn status_of(&self, pid: u32, now: u64) -> (r: Option<ProcessStatus>)
        ensures
            r is Some <==> has_pid(self.tasks@, pid),
            r matches Some(s) ==> s == spec_status(find_task(self.tasks@, pid).unwrap().deadline, now),
    {
        match find_index(&self.tasks, pid) {
            Some(i) => Some(self.tasks[i].get_status(now)),
            None => None,
        }
    }

    /// The pids of all tasks whose deadline has passed at time `now`, in task
    /// order.
    pub fn expired_pids(&self, now: u64) -> (r: Vec<u32>)
        ensures
            r@ == spec_expired(self.tasks@, now),
    {
        let n = self.tasks.len();
        let mut out: Vec<u32> = Vec::new();
        let mut i: usize = 0;
        proof {
            assert(self.tasks@.take(0) =~= Seq::<Task>::empty());
        }
        while i < n
            invariant
                n == self.tasks@.len(),
                i <= n,
                out@ == spec_expired(self.tasks@.take(i as int), now),
            decreases n - i,
        {
            proof {
                assert(self.tasks@.take(i + 1).drop_last() =~= self.tasks@.take(i as int));
                assert(self.tasks@.take(i + 1).last() == self.tasks@[i as int]);
            }
            let status = self.tasks[i].get_status(now);
            if status == ProcessStatus::DeadlineReached {
                out.push(self.tasks[i].pid);
            }
            i += 1;
        }
        proof {
            assert(self.tasks@.take(n as int) =~= self.tasks@);
        }
        out
    }

    /// One scheduler tick: reconcile the snapshot, then collect the pids due
    /// for termination at time `now`. The caller runs the termination
    /// protocol for each returned pid, strictly one after another, and feeds
    /// each outcome back through `finish_terminate` before the tick is over.
    pub fn tick(&mut self, snapshot: &Vec<ProcRecord>, now: u64) -> (expired: Vec<u32>)
        requires
            records_distinct(snapshot@),
        ensures
            final(self).tasks@ == spec_refresh(old(self).tasks@, snapshot@, old(self).search_query@),
            distinct_pids(final(self).tasks@),
            final(self).selected_task == match old(self).selected_task {
                Option::Some(p) => if has_pid(final(self).tasks@, p) {
                    Some(p)
                } else {
                    None
                },
                Option::None => None::<u32>,
            },
            final(self).search_query == old(self).search_query,
            final(self).custom_deadline == old(self).custom_deadline,
            expired@ == spec_expired(final(self).tasks@, now),
    {
        self.refresh(snapshot);
        self.expired_pids(now)
    }

    /// Begin terminating the task with this pid. For a pid absent from the
    /// registry the result is `None`: the attempt is a benign no-op that
    /// counts as success, and no OS surface is to be touched. Otherwise the
    /// result carries the task's current name and whether a save attempt
    /// applies, and the caller drives the termination protocol with them.
    pub fn terminate_request(&self, pid: u32) -> (r: Option<TerminateStart>)
        ensures
            r is Some <==> has_pid(self.tasks@, pid),
            r matches Some(start) ==> {
                let t = find_task(self.tasks@, pid).unwrap();
                &&& start.name == t.name
                &&& start.attempt_save == spec_should_attempt_save(t.name@)
            },
    {
        match find_index(&self.tasks, pid) {
            Some(i) => {
                let name = self.tasks[i].name.clone();
                let attempt_save = should_attempt_save(name.as_str());
                Some(TerminateStart { name, attempt_save })
            },
            None => None,
        }
    }

    /// Record a termination protocol's outcome. On success the task leaves
    /// the registry and the selection is cleared if it referenced this pid;
    /// on failure the registry is untouched, so a task still past its
    /// deadline is collected again on the next tick.
    pub fn finish_terminate(&mut self, pid: u32, success: bool)
        ensures
            success ==> final(self).tasks@ == spec_remove(old(self).tasks@, pid),
            success ==> final(self).selected_task == (if old(self).selected_task == Some(pid) {
                None
            } else {
                old(self).selected_task
            }),
            !success ==> final(self).tasks == old(self).tasks && final(self).selected_task == old(self).selected_task,
            final(self).search_query == old(self).search_query,
            final(self).custom_deadline == old(self).custom_deadline,
    {
        if !success {
            return ;
        }
        let n = self.tasks.len();
        let mut kept: Vec<Task> = Vec::new();
        let mut i: usize = 0;
        proof {
            assert(self.tasks@.take(0) =~= Seq::<Task>::empty());
        }
        while i < n
            invariant
                n == self.tasks@.len(),
                i <= n,
                self.tasks == old(self).tasks,
                kept@ == spec_remove(self.tasks@.take(i as int), pid),
            decreases n - i,
        {
            proof {
                assert(self.tasks@.take(i + 1).drop_last() =~= self.tasks@.take(i as int));
                assert(self.tasks@.take(i + 1).last() == self.tasks@[i as int]);
            }
            if self.tasks[i].pid != pid {
                let t = &self.tasks[i];
                kept.push(
                    Task {
                        name: t.name.clone(),
                        pid: t.pid,
                        cpu_usage: t.cpu_usage,
                        memory_usage: t.memory_usage,
                        icon: t.icon,
                        deadline: t.deadline,
                    },
                );
            }
            i += 1;
        }
        proof {
            assert(self.tasks@.take(n as int) =~= self.tasks@);
        }
        self.tasks = kept;
        match self.selected_task {
            Some(p) => {
                if p == pid {
                    self.selected_task = None;
                }
            },
            None => {},
        }
    }

    /// Dispatch one command. Commands that only touch owned state are applied
    /// here; commands that need an OS surface (a snapshot, or the termination
    /// protocol) come back as the action the caller must run.
    pub fn update(&mut self, message: Message, now: u64) -> (r: UpdateAction)
        requires
            now <= u64::MAX - TWO_HOURS_SECS,
        ensures
            match message {
                Message::TaskSelected(pid) => r == UpdateAction::Handled && final(self).selected_task
                    == Some(pid) && final(self).tasks == old(self).tasks && final(self).search_query == old(self).search_query && final(self).custom_deadline == old(self).custom_deadline,
                Message::TerminateTask(pid) => r == UpdateAction::RunTerminate(pid) && *final(self) == *old(self),
                Message::SetDeadline(pid, interval) => r == UpdateAction::Handled && (
                interval matches TimeInterval::Custom(t) ==> final(self).tasks@ == set_deadline_all(
                    old(self).tasks@,
                    pid,
                    Some(t),
                )) && (!(interval is Custom) ==> final(self).tasks@ == set_deadline_all(
                    old(self).tasks@,
                    pid,
                    Some((spec_deadline_for(interval, now)) as u64),
                )) && final(self).selected_task == old(self).selected_task && final(self).search_query == old(self).search_query && final(self).custom_deadline == old(self).custom_deadline,
                Message::ClearDeadline(pid) => r == UpdateAction::Handled && final(self).tasks@
                    == set_deadline_all(old(self).tasks@, pid, None) && final(self).selected_task == old(self).selected_task && final(self).search_query == old(self).search_query
                    && final(self).custom_deadline == old(self).custom_deadline,
                Message::Tick => r == UpdateAction::RunTick && *final(self) == *old(self),
                Message::SearchInput(query) => r == UpdateAction::RunTick && final(self).search_query
                    == query && final(self).tasks == old(self).tasks && final(self).selected_task == old(self).selected_task && final(self).custom_deadline == old(self).custom_deadline,
                Message::CheckDeadlines => r == UpdateAction::RunTick && *final(self) == *old(self),
                Message::CustomDeadlineInput(text) => r == UpdateAction::Handled
                    && final(self).custom_deadline == text && final(self).tasks == old(self).tasks
                    && final(self).selected_task == old(self).selected_task && final(self).search_query == old(self).search_query,
            },
    {
        match message {
            Message::TaskSelected(pid) => {
                self.select(pid);
                UpdateAction::Handled
            },
            Message::TerminateTask(pid) => UpdateAction::RunTerminate(pid),
            Message::SetDeadline(pid, interval) => {
                self.set_deadline(pid, interval, now);
                UpdateAction::Handled
            },
            Message::ClearDeadline(pid) => {
                self.clear_deadline(pid);
                UpdateAction::Handled
            },
            Message::Tick => UpdateAction::RunTick,
            Message::SearchInput(query) => {
                self.set_search(query);
                UpdateAction::RunTick
            },
            Message::CheckDeadlines => UpdateAction::RunTick,
            Message::CustomDeadlineInput(text) => {
                self.set_custom_deadline_input(text);
                UpdateAction::Handled
            },
        }
    }
}

} // verus!
