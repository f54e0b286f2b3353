//! Periodic subscription updates: when each subscription is due, what
//! starting and finishing an update does to its task, the table of tasks,
//! and how waiting times are shown.
//!
//! Instants are milliseconds on a monotonic clock that the caller reads;
//! durations are milliseconds.

use vstd::prelude::*;
use crate::config::{index_of_key, keys_distinct, lemma_index_of_key, table_view, ProviderConfig};
use crate::text::{decimal, opt_view, owned, push_str, str_eq, views_of, write_decimal};

verus! {

/// Milliseconds in a second.
pub const MS_PER_SEC: u64 = 1000;

/// The interval a subscription gets when the configuration names none
/// (one day, in seconds).
pub const DEFAULT_INTERVAL_SECS: u64 = 86400;

/// The update schedule of one subscription.
#[derive(Debug)]
pub struct UpdateTask {
    pub provider_name: String,
    pub url: String,
    /// Time between updates.
    pub interval: u64,
    /// When the last update finished.
    pub last_update: Option<u64>,
    /// When the next update is due.
    pub next_update: u64,
    pub is_updating: bool,
    pub last_error: Option<String>,
}

/// A task as plain values.
pub struct UpdateTaskView {
    pub provider_name: Seq<char>,
    pub url: Seq<char>,
    pub interval: u64,
    pub last_update: Option<u64>,
    pub next_update: u64,
    pub is_updating: bool,
    pub last_error: Option<Seq<char>>,
}

impl View for UpdateTask {
    type V = UpdateTaskView;

    open spec fn view(&self) -> UpdateTaskView {
        UpdateTaskView {
            provider_name: self.provider_name@,
            url: self.url@,
            interval: self.interval,
            last_update: self.last_update,
            next_update: self.next_update,
            is_updating: self.is_updating,
            last_error: opt_view(self.last_error),
        }
    }
}

/// Whether a task is due at `now`: not running, and its time has come.
pub open spec fn is_due(t: UpdateTaskView, now: u64) -> bool {
    !t.is_updating && now >= t.next_update
}

/// Time left until a task is due, zero when it is.
pub open spec fn time_left(t: UpdateTaskView, now: u64) -> u64 {
    if t.next_update > now {
        (t.next_update - now) as u64
    } else {
        0
    }
}

/// The task after an update finished at `now`.
pub open spec fn completed(t: UpdateTaskView, success: bool, error: Option<Seq<char>>, now: u64) -> UpdateTaskView {
    UpdateTaskView {
        is_updating: false,
        last_update: Some(now),
        next_update: (now + t.interval) as u64,
        last_error: if success {
            None
        } else {
            error
        },
        ..t
    }
}

impl UpdateTask {
    /// A task for subscription `name`, first due one interval after `now`.
    pub fn new(name: String, url: String, interval_secs: u64, now: u64) -> (r: UpdateTask)
        requires
            now + interval_secs * MS_PER_SEC <= u64::MAX,
        ensures
            r@ == (UpdateTaskView {
                provider_name: name@,
                url: url@,
                interval: (interval_secs * MS_PER_SEC) as u64,
                last_update: None,
                next_update: (now + interval_secs * MS_PER_SEC) as u64,
                is_updating: false,
                last_error: None,
            }),
    {
        assert(interval_secs * MS_PER_SEC <= u64::MAX) by (nonlinear_arith)
            requires
                now + interval_secs * MS_PER_SEC <= u64::MAX,
        ;
        let interval = interval_secs * MS_PER_SEC;
        UpdateTask {
            provider_name: name,
            url,
            interval,
            last_update: None,
            next_update: now + interval,
            is_updating: false,
            last_error: None,
        }
    }

    /// Whether the task is due at `now`.
    pub fn should_update(&self, now: u64) -> (r: bool)
        ensures
            r == is_due(self@, now),
    {
        !self.is_updating && now >= self.next_update
    }

    /// Marks the task as running.
    pub fn mark_updating(&mut self)
        ensures
            final(self)@ == (UpdateTaskView { is_updating: true, ..old(self)@ }),
    {
        self.is_updating = true;
    }

    /// Records an update that finished at `now`: the task is no longer
    /// running, is next due one interval later, and keeps the error of a
    /// failed update (a successful one clears it).
    pub fn mark_completed(&mut self, success: bool, error: Option<String>, now: u64)
        requires
            now + old(self).interval <= u64::MAX,
        ensures
            final(self)@ == completed(old(self)@, success, opt_view(error), now),
    {
        self.is_updating = false;
        self.last_update = Some(now);
        self.next_update = now + self.interval;
        if !success {
            self.last_error = error;
        } else {
            self.last_error = None;
        }
    }

    /// Time left at `now` until the task is due; zero once it is.
    pub fn time_until_next(&self, now: u64) -> (r: u64)
        ensures
            r == time_left(self@, now),
    {
        if self.next_update > now {
            self.next_update - now
        } else {
            0
        }
    }
}

/// A task is due exactly when it is not running and no time is left.
pub proof fn law_due_iff_no_time_left(t: UpdateTaskView, now: u64)
    ensures
        is_due(t, now) <==> (!t.is_updating && time_left(t, now) == 0),
{
}

/// A running task is never due; once it completes at `now` it is not due
/// again before a whole interval has passed.
pub proof fn law_completed_waits_an_interval(
    t: UpdateTaskView,
    success: bool,
    error: Option<Seq<char>>,
    now: u64,
    later: u64,
)
    requires
        now + t.interval <= u64::MAX,
        later < now + t.interval,
    ensures
        !is_due(UpdateTaskView { is_updating: true, ..t }, later),
        !is_due(completed(t, success, error, now), later),
        time_left(completed(t, success, error, now), now) == t.interval,
{
}

// ---------------------------------------------------------------- display

/// A duration in whole seconds, in its largest unit: `45s`, `3m`, `2h`,
/// `5d` (rounded down).
pub open spec fn short_duration(secs: nat) -> Seq<char> {
    if secs < 60 {
        decimal(secs) + "s"@
    } else if secs < 3600 {
        decimal(secs / 60) + "m"@
    } else if secs < 86400 {
        decimal(secs / 3600) + "h"@
    } else {
        decimal(secs / 86400) + "d"@
    }
}

/// A duration in whole seconds in days and hours, or hours and minutes, or
/// hours, minutes and seconds under an hour; zero parts are left out, and
/// nothing left reads `即将` ("soon").
pub open spec fn detailed_duration(secs: nat) -> Seq<char> {
    let days = secs / 86400;
    let hours = (secs % 86400) / 3600;
    let minutes = (secs % 3600) / 60;
    let seconds = secs % 60;
    let parts = (if days > 0 {
        decimal(days) + "天"@
    } else {
        Seq::empty()
    }) + (if hours > 0 {
        decimal(hours) + "小时"@
    } else {
        Seq::empty()
    }) + (if minutes > 0 && days == 0 {
        decimal(minutes) + "分"@
    } else {
        Seq::empty()
    }) + (if seconds > 0 && days == 0 && hours == 0 {
        decimal(seconds) + "秒"@
    } else {
        Seq::empty()
    });
    if days == 0 && hours == 0 && minutes == 0 && seconds == 0 {
        "即将"@
    } else {
        parts
    }
}

/// A duration given in milliseconds, shown in its largest unit.
pub fn format_duration_short(duration: u64) -> (r: String)
    ensures
        r@ == short_duration((duration / MS_PER_SEC) as nat),
{
    let secs = duration / MS_PER_SEC;
    let mut r = String::new();
    if secs < 60 {
        write_decimal(&mut r, secs);
        push_str(&mut r, "s");
    } else if secs < 3600 {
        write_decimal(&mut r, secs / 60);
        push_str(&mut r, "m");
    } else if secs < 86400 {
        write_decimal(&mut r, secs / 3600);
        push_str(&mut r, "h");
    } else {
        write_decimal(&mut r, secs / 86400);
        push_str(&mut r, "d");
    }
    r
}

/// A duration given in milliseconds, shown in days, hours, minutes and
/// seconds (see `detailed_duration`).
pub fn format_duration_detailed(duration: u64) -> (r: String)
    ensures
        r@ == detailed_duration((duration / MS_PER_SEC) as nat),
{
    let secs = duration / MS_PER_SEC;
    let days = secs / 86400;
    let hours = (secs % 86400) / 3600;
    let minutes = (secs % 3600) / 60;
    let seconds = secs % 60;
    if days == 0 && hours == 0 && minutes == 0 && seconds == 0 {
        return owned("即将");
    }
    let mut r = String::new();
    let ghost e = Seq::<char>::empty();
    if days > 0 {
        write_decimal(&mut r, days);
        push_str(&mut r, "天");
    }
    let ghost p1 = r@;
    if hours > 0 {
        write_decimal(&mut r, hours);
        push_str(&mut r, "小时");
    }
    let ghost p2 = r@;
    if minutes > 0 && days == 0 {
        write_decimal(&mut r, minutes);
        push_str(&mut r, "分");
    }
    let ghost p3 = r@;
    if seconds > 0 && days == 0 && hours == 0 {
        write_decimal(&mut r, seconds);
        push_str(&mut r, "秒");
    }
    proof {
        let s = secs as nat;
        assert(days as nat == s / 86400);
        assert(hours as nat == (s % 86400) / 3600);
        assert(minutes as nat == (s % 3600) / 60);
        assert(seconds as nat == s % 60);
        assert(r@ =~= detailed_duration(s));
    }
    r
}

// ---------------------------------------------------------------- the table

/// What the scheduler reports of an update: that it started, that it
/// finished (name, success, error message), or a step of it.
#[derive(Debug)]
pub enum SchedulerEvent {
    Started(String),
    Completed(String, bool, Option<String>),
    Progress(String, String),
}

/// The update tasks, one per subscription name, in the order they were
/// added.
#[derive(Debug)]
pub struct TaskTable {
    pub tasks: Vec<(String, UpdateTask)>,
}

/// A task table as plain values.
pub open spec fn task_view(v: Seq<(String, UpdateTask)>) -> Seq<(Seq<char>, UpdateTaskView)> {
    Seq::new(v.len(), |i: int| (v[i].0@, v[i].1@))
}

impl View for TaskTable {
    type V = Seq<(Seq<char>, UpdateTaskView)>;

    open spec fn view(&self) -> Seq<(Seq<char>, UpdateTaskView)> {
        task_view(self.tasks@)
    }
}

/// The names of the tasks due at `now`, in table order.
pub open spec fn due_names(t: Seq<(Seq<char>, UpdateTaskView)>, now: u64) -> Seq<Seq<char>>
    decreases t.len(),
{
    if t.len() == 0 {
        Seq::empty()
    } else if is_due(t.last().1, now) {
        due_names(t.drop_last(), now).push(t.last().0)
    } else {
        due_names(t.drop_last(), now)
    }
}

/// The task `t` as a plain entry `name => task` when set at `now` with
/// interval `secs`.
pub open spec fn fresh_task(name: Seq<char>, url: Seq<char>, secs: u64, now: u64) -> UpdateTaskView {
    UpdateTaskView {
        provider_name: name,
        url: url,
        interval: (secs * MS_PER_SEC) as u64,
        last_update: None,
        next_update: (now + secs * MS_PER_SEC) as u64,
        is_updating: false,
        last_error: None,
    }
}

/// `t` with key `k` set to `v`: replaced in place when present, appended
/// otherwise.
pub open spec fn task_insert(t: Seq<(Seq<char>, UpdateTaskView)>, k: Seq<char>, v: UpdateTaskView) -> Seq<(Seq<char>, UpdateTaskView)> {
    match index_of_key(t, k) {
        Some(i) => t.update(i, (k, v)),
        None => t.push((k, v)),
    }
}

/// `t` with the task under `k` changed by `f`, when there is one.
pub open spec fn task_changed(
    t: Seq<(Seq<char>, UpdateTaskView)>,
    k: Seq<char>,
    f: spec_fn(UpdateTaskView) -> UpdateTaskView,
) -> Seq<(Seq<char>, UpdateTaskView)> {
    match index_of_key(t, k) {
        Some(i) => t.update(i, (k, f(t[i].1))),
        None => t,
    }
}

/// The interval of a subscription, in seconds: the configured one, else a
/// day.
pub open spec fn interval_of(p: Option<u32>) -> u64 {
    match p {
        Some(i) => i as u64,
        None => DEFAULT_INTERVAL_SECS,
    }
}

impl TaskTable {
    /// An empty table.
    pub fn new() -> (r: TaskTable)
        ensures
            r@ == Seq::<(Seq<char>, UpdateTaskView)>::empty(),
    {
        let r = TaskTable { tasks: Vec::new() };
        assert(r@ =~= Seq::<(Seq<char>, UpdateTaskView)>::empty());
        r
    }

    /// Position of the task for `name`.
    fn find(&self, name: &str) -> (r: Option<usize>)
        ensures
            match r {
                Some(i) => index_of_key(self@, name@) == Some(i as int) && i < self.tasks@.len(),
                None => index_of_key(self@, name@) is None,
            },
    {
        let ghost tv = self@;
        proof {
            lemma_index_of_key(tv, name@);
        }
        let mut i: usize = 0;
        assert(tv.subrange(0, tv.len() as int) =~= tv);
        while i < self.tasks.len()
            invariant
                i <= self.tasks@.len(),
                tv == self@,
                index_of_key(tv, name@) == match index_of_key(tv.subrange(i as int, tv.len() as int), name@) {
                    Some(j) => Some(j + i),
                    None => None::<int>,
                },
            decreases self.tasks@.len() - i,
        {
            assert(tv.subrange(i as int, tv.len() as int).drop_first() =~= tv.subrange(i + 1, tv.len() as int));
            if str_eq(self.tasks[i].0.as_str(), name) {
                return Some(i);
            }
            i = i + 1;
        }
        None
    }

    /// Schedules subscription `name` every `interval_secs`, first due one
    /// interval after `now`; an existing task for it is replaced.
    pub fn add_task(&mut self, name: &str, url: &str, interval_secs: u64, now: u64)
        requires
            now + interval_secs * MS_PER_SEC <= u64::MAX,
        ensures
            final(self)@ == task_insert(old(self)@, name@, fresh_task(name@, url@, interval_secs, now)),
    {
        let task = UpdateTask::new(owned(name), owned(url), interval_secs, now);
        let ghost tv = self@;
        match self.find(name) {
            Some(i) => {
                self.tasks.set(i, (owned(name), task));
                assert(self@ =~= tv.update(i as int, (name@, fresh_task(name@, url@, interval_secs, now))));
            },
            None => {
                self.tasks.push((owned(name), task));
                assert(self@ =~= tv.push((name@, fresh_task(name@, url@, interval_secs, now))));
            },
        }
    }

    /// Schedules every subscription of the configuration with its interval
    /// (a day when it has none), first due one interval after `now`.
    pub fn load_tasks(&mut self, providers: &Vec<(String, ProviderConfig)>, now: u64)
        requires
            now + (u32::MAX as u64) * MS_PER_SEC <= u64::MAX,
        ensures
            final(self)@ == loaded(old(self)@, table_view(providers@), now),
    {
        let ghost t0 = self@;
        let ghost pv = table_view(providers@);
        let mut i: usize = 0;
        while i < providers.len()
            invariant
                i <= providers@.len(),
                pv == table_view(providers@),
                now + (u32::MAX as u64) * MS_PER_SEC <= u64::MAX,
                self@ == loaded(t0, pv.take(i as int), now),
            decreases providers@.len() - i,
        {
            assert(pv.take(i + 1).drop_last() =~= pv.take(i as int));
            assert(pv.take(i + 1).last() == pv[i as int]);
            let secs: u64 = match providers[i].1.interval {
                Some(n) => n as u64,
                None => DEFAULT_INTERVAL_SECS,
            };
            assert(now + secs * MS_PER_SEC <= u64::MAX) by (nonlinear_arith)
                requires
                    now + (u32::MAX as u64) * MS_PER_SEC <= u64::MAX,
                    secs <= u32::MAX,
            ;
            self.add_task(providers[i].0.as_str(), providers[i].1.url.as_str(), secs, now);
            i = i + 1;
        }
        assert(pv.take(providers@.len() as int) =~= pv);
    }

    /// Drops the task for `name`.
    pub fn remove_task(&mut self, name: &str)
        ensures
            final(self)@ == match index_of_key(old(self)@, name@) {
                Some(i) => old(self)@.remove(i),
                None => old(self)@,
            },
    {
        let ghost tv = self@;
        match self.find(name) {
            Some(i) => {
                self.tasks.remove(i);
                assert(self@ =~= tv.remove(i as int));
            },
            None => {},
        }
    }

    /// Gives the task for `name` a new interval, counted from `now`.
    pub fn update_task_interval(&mut self, name: &str, interval_secs: u64, now: u64)
        requires
            now + interval_secs * MS_PER_SEC <= u64::MAX,
        ensures
            final(self)@ == task_changed(
                old(self)@,
                name@,
                |t: UpdateTaskView| UpdateTaskView {
                    interval: (interval_secs * MS_PER_SEC) as u64,
                    next_update: (now + interval_secs * MS_PER_SEC) as u64,
                    ..t
                },
            ),
    {
        let ghost tv = self@;
        match self.find(name) {
            Some(i) => {
                assert(interval_secs * MS_PER_SEC <= u64::MAX) by (nonlinear_arith)
                    requires
                        now + interval_secs * MS_PER_SEC <= u64::MAX,
                ;
                let interval = interval_secs * MS_PER_SEC;
                let mut entry = (String::new(), UpdateTask::new(String::new(), String::new(), 0, 0));
                self.tasks.set_and_swap(i, &mut entry);
                let (key, mut task) = entry;
                proof {
                    lemma_index_of_key(tv, name@);
                }
                assert(key@ == name@);
                assert(task@ == tv[i as int].1);
                task.interval = interval;
                task.next_update = now + interval;
                self.tasks.set(i, (key, task));
                assert(self@ =~= task_changed(
                    tv,
                    name@,
                    |t: UpdateTaskView| UpdateTaskView {
                        interval: (interval_secs * MS_PER_SEC) as u64,
                        next_update: (now + interval_secs * MS_PER_SEC) as u64,
                        ..t
                    },
                ));
            },
            None => {},
        }
    }

    /// Makes the task for `name` due at `now`.
    pub fn force_due(&mut self, name: &str, now: u64)
        ensures
            final(self)@ == task_changed(old(self)@, name@, |t: UpdateTaskView| UpdateTaskView { next_update: now, ..t }),
    {
        let ghost tv = self@;
        match self.find(name) {
            Some(i) => {
                let mut entry = (String::new(), UpdateTask::new(String::new(), String::new(), 0, 0));
                self.tasks.set_and_swap(i, &mut entry);
                let (key, mut task) = entry;
                proof {
                    lemma_index_of_key(tv, name@);
                }
                assert(key@ == name@);
                assert(task@ == tv[i as int].1);
                task.next_update = now;
                self.tasks.set(i, (key, task));
                assert(self@ =~= task_changed(tv, name@, |t: UpdateTaskView| UpdateTaskView { next_update: now, ..t }));
            },
            None => {},
        }
    }

    /// Marks the task for `name` as running.
    pub fn mark_updating(&mut self, name: &str)
        ensures
            final(self)@ == task_changed(old(self)@, name@, |t: UpdateTaskView| UpdateTaskView { is_updating: true, ..t }),
    {
        let ghost tv = self@;
        match self.find(name) {
            Some(i) => {
                let mut entry = (String::new(), UpdateTask::new(String::new(), String::new(), 0, 0));
                self.tasks.set_and_swap(i, &mut entry);
                let (key, mut task) = entry;
                proof {
                    lemma_index_of_key(tv, name@);
                }
                assert(key@ == name@);
                assert(task@ == tv[i as int].1);
                task.mark_updating();
                self.tasks.set(i, (key, task));
                assert(self@ =~= task_changed(tv, name@, |t: UpdateTaskView| UpdateTaskView { is_updating: true, ..t }));
            },
            None => {},
        }
    }

    /// Records that the update of `name` finished at `now`.
    pub fn mark_completed(&mut self, name: &str, success: bool, error: Option<String>, now: u64)
        requires
            index_of_key(old(self)@, name@) matches Some(i) ==> now + old(self)@[i].1.interval <= u64::MAX,
        ensures
            final(self)@ == task_changed(old(self)@, name@, |t: UpdateTaskView| completed(t, success, opt_view(error), now)),
    {
        let ghost tv = self@;
        let ghost ev = opt_view(error);
        match self.find(name) {
            Some(i) => {
                let mut entry = (String::new(), UpdateTask::new(String::new(), String::new(), 0, 0));
                self.tasks.set_and_swap(i, &mut entry);
                let (key, mut task) = entry;
                proof {
                    lemma_index_of_key(tv, name@);
                }
                assert(key@ == name@);
                assert(task@ == tv[i as int].1);
                assert(now + old(self)@[i as int].1.interval <= u64::MAX);
                task.mark_completed(success, error, now);
                self.tasks.set(i, (key, task));
                assert(self@ =~= task_changed(tv, name@, |t: UpdateTaskView| completed(t, success, ev, now)));
            },
            None => {},
        }
    }

    /// The names of the tasks due at `now`, in table order.
    pub fn due_tasks(&self, now: u64) -> (r: Vec<String>)
        ensures
            views_of(r@) == due_names(self@, now),
    {
        let ghost tv = self@;
        let mut r: Vec<String> = Vec::new();
        let mut i: usize = 0;
        while i < self.tasks.len()
            invariant
                i <= self.tasks@.len(),
                tv == self@,
                views_of(r@) == due_names(tv.take(i as int), now),
            decreases self.tasks@.len() - i,
        {
            assert(tv.take(i + 1).drop_last() =~= tv.take(i as int));
            assert(tv.take(i + 1).last() == tv[i as int]);
            if self.tasks[i].1.should_update(now) {
                r.push(self.tasks[i].0.clone());
                assert(views_of(r@) =~= due_names(tv.take(i as int), now).push(tv[i as int].0));
            }
            i = i + 1;
        }
        assert(tv.take(self.tasks@.len() as int) =~= tv);
        r
    }

    /// The names of all tasks, in table order.
    pub fn names(&self) -> (r: Vec<String>)
        ensures
            views_of(r@) == self@.map_values(|e: (Seq<char>, UpdateTaskView)| e.0),
    {
        let mut r: Vec<String> = Vec::new();
        let mut i: usize = 0;
        while i < self.tasks.len()
            invariant
                i <= self.tasks@.len(),
                r@.len() == i,
                forall|j: int| 0 <= j < i ==> r@[j]@ == self.tasks@[j].0@,
            decreases self.tasks@.len() - i,
        {
            r.push(self.tasks[i].0.clone());
            i = i + 1;
        }
        assert(views_of(r@) =~= self@.map_values(|e: (Seq<char>, UpdateTaskView)| e.0));
        r
    }
}

/// The table after scheduling each subscription of `providers` in order.
pub open spec fn loaded(
    t: Seq<(Seq<char>, UpdateTaskView)>,
    providers: Seq<(Seq<char>, crate::config::ProviderView)>,
    now: u64,
) -> Seq<(Seq<char>, UpdateTaskView)>
    decreases providers.len(),
{
    if providers.len() == 0 {
        t
    } else {
        let p = providers.last();
        task_insert(
            loaded(t, providers.drop_last(), now),
            p.0,
            fresh_task(p.0, p.1.url, interval_of(p.1.interval), now),
        )
    }
}

/// Scheduling tasks keeps one task per name.
pub proof fn law_task_insert_distinct(t: Seq<(Seq<char>, UpdateTaskView)>, k: Seq<char>, v: UpdateTaskView)
    requires
        keys_distinct(t),
    ensures
        keys_distinct(task_insert(t, k, v)),
{
    lemma_index_of_key(t, k);
}

/// A task just scheduled is not due before its first interval has passed,
/// and a task made due is due (unless it is running).
pub proof fn law_scheduling_and_forcing(name: Seq<char>, url: Seq<char>, secs: u64, now: u64, later: u64)
    requires
        now + secs * MS_PER_SEC <= u64::MAX,
        later < now + secs * MS_PER_SEC,
    ensures
        !is_due(fresh_task(name, url, secs, now), later),
        is_due(UpdateTaskView { next_update: now, ..fresh_task(name, url, secs, now) }, now),
{
}

} // verus!
