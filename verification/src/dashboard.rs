//! What the dashboard decides between its outside work: which input mode
//! applies, how answers of the core, speed tests and subscription updates
//! change the state, what is logged, when a message disappears, and what a
//! submitted form asks for. The caller talks to the core and the clock.

use vstd::prelude::*;
use vstd::string::*;
use crate::commands::command::Command;
use crate::commands::registry::AppModeKind;
use crate::context::{UiState, UiView};
use crate::config::{
    find_provider, lookup, resolved_path, table_view, ClashConfig, ConfigManager, ProviderConfig,
};
use crate::sort::{same_per_key, sorted_by_key, stable_sort};
use crate::state::{
    AppState, Config, ConnectionsResponse, Memory, Provider, Proxy, ProxyHistory, Rule, Traffic, Version,
};
use crate::text::{
    lowercased, opt_view, owned, push_str, str_eq, to_lowercase, truncate_chars, truncated, views_of,
};
use crate::ui::{Popup, PopupView};
use crate::updater::UpdateEvent;

verus! {

// ---------------------------------------------------------------- modes

/// The input mode the interface is in.
pub open spec fn mode_of(search_active: bool, popup: PopupView) -> AppModeKind {
    if search_active {
        AppModeKind::Search
    } else {
        match popup {
            PopupView::Hidden => AppModeKind::Normal,
            PopupView::AddProvider => AppModeKind::Form,
            PopupView::EditProvider => AppModeKind::Form,
            PopupView::DeleteConfirm => AppModeKind::Popup,
            PopupView::ProxyNodes { .. } => AppModeKind::ProxyNodes,
        }
    }
}

/// The input mode: the search line while it is open, else by popup.
pub fn current_mode(ui: &UiState) -> (r: AppModeKind)
    ensures
        r == mode_of(ui@.search_active, ui@.popup),
{
    if ui.search_active {
        return AppModeKind::Search;
    }
    match ui.popup {
        Popup::Hidden => AppModeKind::Normal,
        Popup::AddProvider | Popup::EditProvider => AppModeKind::Form,
        Popup::DeleteConfirm => AppModeKind::Popup,
        Popup::ProxyNodes { .. } => AppModeKind::ProxyNodes,
    }
}

// ---------------------------------------------------------------- name sets

/// `v` with `x` added unless it is there.
pub open spec fn name_added(v: Seq<Seq<char>>, x: Seq<char>) -> Seq<Seq<char>> {
    if v.contains(x) {
        v
    } else {
        v.push(x)
    }
}

/// `v` without `x`.
pub open spec fn name_removed(v: Seq<Seq<char>>, x: Seq<char>) -> Seq<Seq<char>> {
    v.filter(|s: Seq<char>| s != x)
}

/// Adds `x` to a set of names.
pub fn insert_name(v: &mut Vec<String>, x: &str)
    ensures
        views_of(final(v)@) == name_added(views_of(old(v)@), x@),
{
    let ghost before = views_of(v@);
    let mut i: usize = 0;
    while i < v.len()
        invariant
            i <= v@.len(),
            before == views_of(v@),
            forall|j: int| 0 <= j < i ==> before[j] != x@,
        decreases v@.len() - i,
    {
        if str_eq(v[i].as_str(), x) {
            assert(before[i as int] == x@);
            return;
        }
        i = i + 1;
    }
    v.push(owned(x));
    assert(views_of(v@) =~= before.push(x@));
}

/// Removes `x` from a set of names.
pub fn remove_name(v: &mut Vec<String>, x: &str)
    ensures
        views_of(final(v)@) == name_removed(views_of(old(v)@), x@),
{
    let ghost before = views_of(v@);
    let mut kept: Vec<String> = Vec::new();
    let mut i: usize = 0;
    while i < v.len()
        invariant
            i <= v@.len(),
            before == views_of(v@),
            views_of(kept@) == name_removed(before.take(i as int), x@),
        decreases v@.len() - i,
    {
        let ghost prefix = before.take(i as int);
        assert(before.take(i + 1) =~= prefix.push(before[i as int]));
        proof {
            prefix.lemma_filter_push(before[i as int], |s: Seq<char>| s != x@);
        }
        if !str_eq(v[i].as_str(), x) {
            kept.push(v[i].clone());
            assert(views_of(kept@) =~= name_removed(prefix, x@).push(before[i as int]));
        }
        i = i + 1;
    }
    assert(before.take(v@.len() as int) =~= before);
    *v = kept;
}

// ---------------------------------------------------------------- logs

/// How many log lines are kept.
pub const MAX_LOGS: usize = 500;

/// How many characters of a log line are kept.
pub const MAX_LOG_CHARS: usize = 400;

/// The log after `msg` was added: shortened to its first characters, and
/// the oldest line dropped once the log is over its size.
pub open spec fn logged(logs: Seq<Seq<char>>, msg: Seq<char>) -> Seq<Seq<char>> {
    let l = logs.push(truncated(msg, MAX_LOG_CHARS as nat));
    if l.len() > MAX_LOGS {
        l.drop_first()
    } else {
        l
    }
}

/// Adds a line to the log.
pub fn add_log(state: &mut AppState, message: &str)
    ensures
        views_of(final(state).logs@) == logged(views_of(old(state).logs@), message@),
        *final(state) == (AppState { logs: final(state).logs, ..*old(state) }),
{
    let ghost before = views_of(state.logs@);
    state.logs.push(truncate_chars(message, MAX_LOG_CHARS));
    assert(views_of(state.logs@) =~= before.push(truncated(message@, MAX_LOG_CHARS as nat)));
    if state.logs.len() > MAX_LOGS {
        state.logs.remove(0);
        assert(views_of(state.logs@) =~= before.push(truncated(message@, MAX_LOG_CHARS as nat)).drop_first());
    }
}

/// The log never grows past its size once it is within it.
pub proof fn law_log_stays_bounded(logs: Seq<Seq<char>>, msg: Seq<char>)
    requires
        logs.len() <= MAX_LOGS,
    ensures
        logged(logs, msg).len() <= MAX_LOGS,
        logged(logs, msg).last() == truncated(msg, MAX_LOG_CHARS as nat),
        truncated(msg, MAX_LOG_CHARS as nat).len() <= MAX_LOG_CHARS + 3,
{
}

// ---------------------------------------------------------------- messages

/// How long a message stays up, in milliseconds.
pub const TOAST_MS: u64 = 5000;

/// The message shown: the error, else the success message.
pub open spec fn shown_message(error: Option<Seq<char>>, success: Option<Seq<char>>) -> Option<Seq<char>> {
    match error {
        Some(e) => Some(e),
        None => success,
    }
}

/// What the message timer does at `now`: a new message starts it, and a
/// message shown for longer than five seconds is cleared.
pub open spec fn toast_step(
    error: Option<Seq<char>>,
    success: Option<Seq<char>>,
    text: Option<Seq<char>>,
    set_at: Option<u64>,
    now: u64,
) -> (Option<Seq<char>>, Option<Seq<char>>, Option<Seq<char>>, Option<u64>) {
    match shown_message(error, success) {
        None => (error, success, None, None),
        Some(cur) => if text != Some(cur) {
            (error, success, Some(cur), Some(now))
        } else {
            match set_at {
                Some(t) => if now > t && now - t > TOAST_MS {
                    (None, None, None, None)
                } else {
                    (error, success, text, set_at)
                },
                None => (error, success, text, set_at),
            }
        },
    }
}

/// Runs the message timer at `now` (milliseconds on a monotonic clock).
pub fn expire_toast(ui: &mut UiState, now: u64)
    ensures
        ({
            let (e, s, t, a) = toast_step(
                old(ui)@.error_message,
                old(ui)@.success_message,
                old(ui)@.toast_text,
                old(ui)@.toast_set_at,
                now,
            );
            final(ui)@ == (UiView {
                error_message: e,
                success_message: s,
                toast_text: t,
                toast_set_at: a,
                ..old(ui)@
            })
        }),
{
    let current = match &ui.error_message {
        Some(e) => Some(e.clone()),
        None => match &ui.success_message {
            Some(s) => Some(s.clone()),
            None => None,
        },
    };
    let cur = match current {
        Some(c) => c,
        None => {
            ui.toast_text = None;
            ui.toast_set_at = None;
            return;
        },
    };
    let same = match &ui.toast_text {
        Some(t) => str_eq(t.as_str(), cur.as_str()),
        None => false,
    };
    if !same {
        ui.toast_text = Some(cur);
        ui.toast_set_at = Some(now);
        return;
    }
    match ui.toast_set_at {
        Some(t) => {
            if now > t && now - t > TOAST_MS {
                ui.success_message = None;
                ui.error_message = None;
                ui.toast_text = None;
                ui.toast_set_at = None;
            }
        },
        None => {},
    }
}

/// A message is cleared only after it was shown unchanged for more than
/// five seconds: while the timer has just started, nothing is cleared.
pub proof fn law_toast_not_cleared_early(
    error: Option<Seq<char>>,
    success: Option<Seq<char>>,
    set_at: u64,
    now: u64,
)
    requires
        shown_message(error, success) is Some,
        now <= set_at + TOAST_MS,
    ensures
        toast_step(error, success, shown_message(error, success), Some(set_at), now) == (
            error,
            success,
            shown_message(error, success),
            Some(set_at),
        ),
{
}

// ---------------------------------------------------------------- delays

/// A delay measurement taken at `time`.
pub open spec fn is_measurement(h: ProxyHistory, delay: u32, time: Seq<char>) -> bool {
    h.delay == delay && h.mean_delay is None && h.time@ == time
}

/// `b` is `a` with a new delay: the latest measurement replaced (or the
/// first one added) and nothing else changed.
pub open spec fn delay_recorded(a: Proxy, b: Proxy, delay: u32, time: Seq<char>) -> bool {
    &&& b.name == a.name
    &&& b.proxy_type == a.proxy_type
    &&& b.now == a.now
    &&& b.all == a.all
    &&& b.udp == a.udp
    &&& b.xudp == a.xudp
    &&& b.tfo == a.tfo
    &&& b.mptcp == a.mptcp
    &&& b.icon == a.icon
    &&& b.history@.len() == if a.history@.len() > 0 {
        a.history@.len()
    } else {
        1
    }
    &&& is_measurement(b.history@[0], delay, time)
    &&& forall|j: int| 1 <= j < a.history@.len() ==> b.history@[j] == a.history@[j]
}

/// Records a delay measured at `time`.
pub fn set_proxy_delay_at(proxy: &mut Proxy, delay: u32, time: &str)
    ensures
        delay_recorded(*old(proxy), *final(proxy), delay, time@),
{
    let h = ProxyHistory { time: owned(time), delay, mean_delay: None };
    if proxy.history.len() > 0 {
        proxy.history.set(0, h);
    } else {
        proxy.history.push(h);
    }
}

/// Records a delay measured now.
pub fn set_proxy_delay(proxy: &mut Proxy, delay: u32)
    ensures
        exists|time: Seq<char>| delay_recorded(*old(proxy), *final(proxy), delay, time),
{
    let time = crate::clock::local_timestamp_now();
    set_proxy_delay_at(proxy, delay, time.as_str());
}

/// Index of the first proxy named `name`.
pub open spec fn first_named(ps: Seq<Proxy>, name: Seq<char>) -> Option<int>
    decreases ps.len(),
{
    if ps.len() == 0 {
        None
    } else if ps[0].name@ == name {
        Some(0)
    } else {
        match first_named(ps.drop_first(), name) {
            Some(i) => Some(i + 1),
            None => None,
        }
    }
}

/// Position of the first proxy named `name`.
pub fn find_named(ps: &Vec<Proxy>, name: &str) -> (r: Option<usize>)
    ensures
        match r {
            Some(i) => first_named(ps@, name@) == Some(i as int) && i < ps@.len(),
            None => first_named(ps@, name@) is None,
        },
{
    let mut i: usize = 0;
    assert(ps@.subrange(0, ps@.len() as int) =~= ps@);
    while i < ps.len()
        invariant
            i <= ps@.len(),
            first_named(ps@, name@) == match first_named(ps@.subrange(i as int, ps@.len() as int), name@) {
                Some(j) => Some(j + i),
                None => None::<int>,
            },
        decreases ps@.len() - i,
    {
        assert(ps@.subrange(i as int, ps@.len() as int).drop_first() =~= ps@.subrange(i + 1, ps@.len() as int));
        if str_eq(ps[i].name.as_str(), name) {
            return Some(i);
        }
        i = i + 1;
    }
    None
}

/// The proxy list after the first proxy named `name` changed from `a` to
/// `b` by `rel`, everything else kept.
pub open spec fn changed_at(old_ps: Seq<Proxy>, new_ps: Seq<Proxy>, i: int) -> bool {
    &&& new_ps.len() == old_ps.len()
    &&& forall|j: int| 0 <= j < old_ps.len() && j != i ==> new_ps[j] == old_ps[j]
}

/// Records a delay measured at `time` for the first proxy named `name`.
pub fn update_proxy_delay_at(proxies: &mut Vec<Proxy>, name: &str, delay: u32, time: &str)
    ensures
        match first_named(old(proxies)@, name@) {
            Some(i) => changed_at(old(proxies)@, final(proxies)@, i) && delay_recorded(
                old(proxies)@[i],
                final(proxies)@[i],
                delay,
                time@,
            ),
            None => final(proxies)@ == old(proxies)@,
        },
{
    match find_named(proxies, name) {
        Some(i) => {
            let mut p = Proxy::placeholder();
            proxies.set_and_swap(i, &mut p);
            set_proxy_delay_at(&mut p, delay, time);
            proxies.set(i, p);
        },
        None => {},
    }
}

/// Records a delay measured at `time` for the proxy under key `name`.
pub fn update_entry_delay_at(entries: &mut Vec<(String, Proxy)>, name: &str, delay: u32, time: &str)
    ensures
        match crate::state::first_key_index(old(entries)@, name@) {
            Some(i) => final(entries)@.len() == old(entries)@.len() && (forall|j: int|
                0 <= j < old(entries)@.len() && j != i ==> final(entries)@[j] == old(entries)@[j])
                && final(entries)@[i].0 == old(entries)@[i].0 && delay_recorded(
                old(entries)@[i].1,
                final(entries)@[i].1,
                delay,
                time@,
            ),
            None => final(entries)@ == old(entries)@,
        },
{
    match crate::state::find_proxy_entry(entries, name) {
        Some(i) => {
            let mut e = (String::new(), Proxy::placeholder());
            entries.set_and_swap(i, &mut e);
            let (k, mut p) = e;
            set_proxy_delay_at(&mut p, delay, time);
            entries.set(i, (k, p));
        },
        None => {},
    }
}

impl Proxy {
    /// A proxy with every field empty, used while an entry is edited in
    /// place.
    pub fn placeholder() -> (r: Proxy)
        ensures
            r.name@.len() == 0,
            r.proxy_type@.len() == 0,
            r.now is None,
            r.all is None,
            r.history@.len() == 0,
            r.udp is None,
            r.xudp is None,
            r.tfo is None,
            r.mptcp is None,
            r.icon is None,
    {
        Proxy {
            name: String::new(),
            proxy_type: String::new(),
            now: None,
            all: None,
            history: Vec::new(),
            udp: None,
            xudp: None,
            tfo: None,
            mptcp: None,
            icon: None,
        }
    }
}

/// The proxy list after a delay measured at `time` was recorded for the
/// first proxy named `name`; unchanged without one.
pub open spec fn delay_recorded_in(old_ps: Seq<Proxy>, new_ps: Seq<Proxy>, name: Seq<char>, delay: u32, time: Seq<char>) -> bool {
    match first_named(old_ps, name) {
        Some(i) => changed_at(old_ps, new_ps, i) && delay_recorded(old_ps[i], new_ps[i], delay, time),
        None => new_ps == old_ps,
    }
}

/// The full proxy list after a delay measured at `time` was recorded under
/// the first key `name`; unchanged without one.
pub open spec fn delay_recorded_under(
    old_e: Seq<(String, Proxy)>,
    new_e: Seq<(String, Proxy)>,
    name: Seq<char>,
    delay: u32,
    time: Seq<char>,
) -> bool {
    match crate::state::first_key_index(old_e, name) {
        Some(i) => new_e.len() == old_e.len() && (forall|j: int|
            0 <= j < old_e.len() && j != i ==> new_e[j] == old_e[j]) && new_e[i].0 == old_e[i].0
            && delay_recorded(old_e[i].1, new_e[i].1, delay, time),
        None => new_e == old_e,
    }
}

/// The state after a speed test of `name` finished with `result` at
/// `time`: a delay is recorded in both proxy lists; nothing else changes.
pub open spec fn state_after_speed_test(
    st: AppState,
    st2: AppState,
    name: Seq<char>,
    result: Result<u32, Seq<char>>,
    time: Seq<char>,
) -> bool {
    &&& st2 == (AppState { proxies: st2.proxies, all_proxies: st2.all_proxies, ..st })
    &&& match result {
        Ok(delay) => delay_recorded_in(st.proxies@, st2.proxies@, name, delay, time)
            && delay_recorded_under(st.all_proxies@, st2.all_proxies@, name, delay, time),
        Err(_) => st2.proxies@ == st.proxies@ && st2.all_proxies@ == st.all_proxies@,
    }
}

/// Applies the result of a speed test of `name` measured at `time`: the
/// test is no longer running; a delay is recorded in both proxy lists; the
/// last test to finish reports `测速完成` ("speed test done") or its error.
pub fn handle_speed_test_result_at(
    state: &mut AppState,
    ui: &mut UiState,
    name: &str,
    result: Result<u32, String>,
    time: &str,
)
    ensures
        ui_after_speed_test(old(ui)@, final(ui)@, name@, result_view(result)),
        state_after_speed_test(*old(state), *final(state), name@, result_view(result), time@),
{
    remove_name(&mut ui.testing_proxies, name);
    match result {
        Ok(delay) => {
            update_proxy_delay_at(&mut state.proxies, name, delay, time);
            update_entry_delay_at(&mut state.all_proxies, name, delay, time);
            if ui.testing_proxies.len() == 0 {
                ui.success_message = Some(owned("测速完成"));
            }
        },
        Err(e) => {
            if ui.testing_proxies.len() == 0 {
                let mut m = owned("测速失败: ");
                push_str(&mut m, e.as_str());
                ui.error_message = Some(m);
            }
        },
    }
}

/// Applies the result of a speed test that finished now.
pub fn handle_speed_test_result(state: &mut AppState, ui: &mut UiState, name: &str, result: Result<u32, String>)
    ensures
        ui_after_speed_test(old(ui)@, final(ui)@, name@, result_view(result)),
        exists|time: Seq<char>| state_after_speed_test(*old(state), *final(state), name@, result_view(result), time),
{
    let time = crate::clock::local_timestamp_now();
    handle_speed_test_result_at(state, ui, name, result, time.as_str());
}

/// A result with its error as plain characters.
pub open spec fn result_view(r: Result<u32, String>) -> Result<u32, Seq<char>> {
    match r {
        Ok(d) => Ok(d),
        Err(e) => Err(e@),
    }
}

/// The interface after a speed test of `name` finished with `result`.
pub open spec fn ui_after_speed_test(
    u: crate::context::UiView,
    v: crate::context::UiView,
    name: Seq<char>,
    result: Result<u32, Seq<char>>,
) -> bool {
    let left = name_removed(u.testing_proxies, name);
    v == match result {
        Ok(_) => UiView {
            testing_proxies: left,
            success_message: if left.len() == 0 {
                Some("测速完成"@)
            } else {
                u.success_message
            },
            ..u
        },
        Err(e) => UiView {
            testing_proxies: left,
            error_message: if left.len() == 0 {
                Some("测速失败: "@ + e)
            } else {
                u.error_message
            },
            ..u
        },
    }
}

// ---------------------------------------------------------------- updates

/// The log line and messages of an update event, at clock time `clock`.
pub open spec fn update_log_line(e: UpdateEvent, clock: Seq<char>) -> Seq<char> {
    match e {
        UpdateEvent::Started(n) => "["@ + clock + "] 开始更新订阅 '"@ + n@ + "'..."@,
        UpdateEvent::Completed(n, ok, err) => if ok {
            "["@ + clock + "] 订阅 '"@ + n@ + "' 更新成功"@
        } else {
            "["@ + clock + "] 订阅 '"@ + n@ + "' 更新失败: "@ + failure_text(opt_view(err))
        },
        UpdateEvent::Progress(n, m) => "["@ + clock + "] 订阅 '"@ + n@ + "' - "@ + m@,
    }
}

/// The error text of a failed update.
pub open spec fn failure_text(err: Option<Seq<char>>) -> Seq<char> {
    match err {
        Some(e) => e,
        None => "未知错误"@,
    }
}

/// The interface after an update event.
pub open spec fn ui_after_update(u: crate::context::UiView, v: crate::context::UiView, e: UpdateEvent) -> bool {
    v == match e {
        UpdateEvent::Started(n) => UiView { updating_providers: name_added(u.updating_providers, n@), ..u },
        UpdateEvent::Progress(n, _) => UiView { updating_providers: name_added(u.updating_providers, n@), ..u },
        UpdateEvent::Completed(n, ok, err) => if ok {
            UiView {
                updating_providers: name_removed(u.updating_providers, n@),
                success_message: Some("订阅 '"@ + n@ + "' 更新成功"@),
                ..u
            }
        } else {
            UiView {
                updating_providers: name_removed(u.updating_providers, n@),
                error_message: Some("订阅 '"@ + n@ + "' 更新失败: "@ + failure_text(opt_view(err))),
                ..u
            }
        },
    }
}

/// Applies an update event at clock time `clock`; says whether the data
/// must be refreshed (after an update finished).
pub fn handle_update_event_at(ui: &mut UiState, state: &mut AppState, event: UpdateEvent, clock: &str) -> (r: bool)
    ensures
        ui_after_update(old(ui)@, final(ui)@, event),
        views_of(final(state).logs@) == logged(views_of(old(state).logs@), update_log_line(event, clock@)),
        *final(state) == (AppState { logs: final(state).logs, ..*old(state) }),
        r == (event is Completed),
{
    let ghost ev = event;
    let mut line = owned("[");
    push_str(&mut line, clock);
    match event {
        UpdateEvent::Started(name) => {
            insert_name(&mut ui.updating_providers, name.as_str());
            push_str(&mut line, "] 开始更新订阅 '");
            push_str(&mut line, name.as_str());
            push_str(&mut line, "'...");
            add_log(state, line.as_str());
            false
        },
        UpdateEvent::Completed(name, success, error) => {
            remove_name(&mut ui.updating_providers, name.as_str());
            push_str(&mut line, "] 订阅 '");
            push_str(&mut line, name.as_str());
            let mut msg = owned("订阅 '");
            push_str(&mut msg, name.as_str());
            if success {
                push_str(&mut line, "' 更新成功");
                push_str(&mut msg, "' 更新成功");
                add_log(state, line.as_str());
                ui.success_message = Some(msg);
            } else {
                let err = match error {
                    Some(e) => e,
                    None => owned("未知错误"),
                };
                push_str(&mut line, "' 更新失败: ");
                push_str(&mut line, err.as_str());
                push_str(&mut msg, "' 更新失败: ");
                push_str(&mut msg, err.as_str());
                add_log(state, line.as_str());
                ui.error_message = Some(msg);
            }
            true
        },
        UpdateEvent::Progress(name, m) => {
            insert_name(&mut ui.updating_providers, name.as_str());
            push_str(&mut line, "] 订阅 '");
            push_str(&mut line, name.as_str());
            push_str(&mut line, "' - ");
            push_str(&mut line, m.as_str());
            add_log(state, line.as_str());
            false
        },
    }
}

/// Applies an update event now; says whether the data must be refreshed.
pub fn handle_update_event(ui: &mut UiState, state: &mut AppState, event: UpdateEvent) -> (r: bool)
    ensures
        ui_after_update(old(ui)@, final(ui)@, event),
        exists|clock: Seq<char>|
            views_of(final(state).logs@) == logged(views_of(old(state).logs@), update_log_line(event, clock)),
        *final(state) == (AppState { logs: final(state).logs, ..*old(state) }),
        r == (event is Completed),
{
    let clock = crate::clock::local_clock_now();
    handle_update_event_at(ui, state, event, clock.as_str())
}


// ---------------------------------------------------------------- subscriptions in the state

/// `p` is the entry shown for configured subscription `name` before the
/// core reports it: a proxy provider with the configured vehicle and path.
pub open spec fn is_configured_provider(p: Provider, name: Seq<char>, c: ProviderConfig) -> bool {
    &&& p.name@ == name
    &&& p.provider_type@ == "Proxy"@
    &&& p.vehicle_type@ == c.provider_type@
    &&& opt_view(p.path) == opt_view(c.path)
    &&& p.proxies@.len() == 0
    &&& p.updated_at is None
    &&& p.subscription_info is None
    &&& p.health_check is None
}

/// Whether a provider named `n` is among `ps`.
pub open spec fn has_named(ps: Seq<Provider>, n: Seq<char>) -> bool {
    exists|i: int| 0 <= i < ps.len() && ps[i].name@ == n
}

/// The configured entries (by index) that are added to `ps`: those whose
/// name is neither in `ps` nor among the entries added before them.
pub open spec fn added_entries(ps: Seq<Provider>, cfg: Seq<(String, ProviderConfig)>) -> Seq<int>
    decreases cfg.len(),
{
    if cfg.len() == 0 {
        Seq::empty()
    } else {
        let prev = added_entries(ps, cfg.drop_last());
        let n = cfg.last().0@;
        if has_named(ps, n) || exists|m: int| 0 <= m < prev.len() && cfg[prev[m]].0@ == n {
            prev
        } else {
            prev.push(cfg.len() - 1)
        }
    }
}

/// `out` is `ps` followed by an entry for each configured subscription
/// that `added_entries` picks, in order.
pub open spec fn merged(ps: Seq<Provider>, cfg: Seq<(String, ProviderConfig)>, out: Seq<Provider>) -> bool {
    let add = added_entries(ps, cfg);
    &&& out.len() == ps.len() + add.len()
    &&& forall|j: int| 0 <= j < ps.len() ==> out[j] == ps[j]
    &&& forall|m: int|
        0 <= m < add.len() ==> is_configured_provider(
            #[trigger] out[ps.len() + m],
            cfg[add[m]].0@,
            cfg[add[m]].1,
        )
}

/// The selection kept within a list of `len` items.
pub open spec fn clamped(sel: usize, len: nat) -> usize {
    if len == 0 {
        0
    } else if sel < len {
        sel
    } else {
        (len - 1) as usize
    }
}

/// The expansion flags of a list of `len` items: kept when they fit,
/// else all closed.
pub open spec fn flags_for(flags: Seq<bool>, len: nat) -> Seq<bool> {
    if flags.len() == len {
        flags
    } else {
        Seq::new(len, |i: int| false)
    }
}

/// The entry shown for a configured subscription.
fn configured_provider(name: &String, c: &ProviderConfig) -> (r: Provider)
    ensures
        is_configured_provider(r, name@, *c),
{
    Provider {
        name: name.clone(),
        provider_type: owned("Proxy"),
        vehicle_type: c.provider_type.clone(),
        proxies: Vec::new(),
        updated_at: None,
        subscription_info: None,
        path: match &c.path {
            Some(p) => Some(p.clone()),
            None => None,
        },
        health_check: None,
    }
}

/// Whether a provider named `n` is in the list.
fn has_named_exec(ps: &Vec<Provider>, n: &str) -> (r: bool)
    ensures
        r == has_named(ps@, n@),
{
    let mut i: usize = 0;
    while i < ps.len()
        invariant
            i <= ps@.len(),
            forall|j: int| 0 <= j < i ==> ps@[j].name@ != n@,
        decreases ps@.len() - i,
    {
        if str_eq(ps[i].name.as_str(), n) {
            return true;
        }
        i = i + 1;
    }
    false
}

/// A list of `len` closed flags.
fn closed_flags(len: usize) -> (r: Vec<bool>)
    ensures
        r@ == Seq::new(len as nat, |i: int| false),
{
    let mut r: Vec<bool> = Vec::new();
    let mut i: usize = 0;
    while i < len
        invariant
            i <= len,
            r@ == Seq::new(i as nat, |k: int| false),
        decreases len - i,
    {
        r.push(false);
        i = i + 1;
        assert(r@ =~= Seq::new(i as nat, |k: int| false));
    }
    r
}

/// Shows the configured subscriptions the core has not reported yet, then
/// orders the list by name and keeps the selection and the expansion flags
/// within it.
pub fn merge_config_providers_into_state(
    state: &mut AppState,
    ui: &mut UiState,
    configured: &Vec<(String, ProviderConfig)>,
)
    ensures
        exists|appended: Seq<Provider>|
            merged(old(state).providers@, configured@, appended) && sorted_by_key(
                final(state).providers@,
                true,
            ) && same_per_key(final(state).providers@, appended) && final(state).providers@.len()
                == appended.len(),
        final(ui)@ == (crate::context::UiView {
            provider_selected: clamped(old(ui)@.provider_selected, final(state).providers@.len()),
            provider_expanded: flags_for(old(ui)@.provider_expanded, final(state).providers@.len()),
            ..old(ui)@
        }),
        *final(state) == (AppState { providers: final(state).providers, ..*old(state) }),
{
    let ghost ps0 = state.providers@;
    let ghost cfg = configured@;
    let mut list: Vec<Provider> = Vec::new();
    std::mem::swap(&mut list, &mut state.providers);
    let ghost mut add: Seq<int> = Seq::empty();
    let mut i: usize = 0;
    while i < configured.len()
        invariant
            i <= cfg.len(),
            cfg == configured@,
            add == added_entries(ps0, cfg.take(i as int)),
            merged(ps0, cfg.take(i as int), list@),
            forall|m: int| 0 <= m < add.len() ==> 0 <= #[trigger] add[m] < i,
            forall|m: int|
                0 <= m < add.len() ==> is_configured_provider(
                    #[trigger] list@[ps0.len() + m],
                    cfg[add[m]].0@,
                    cfg[add[m]].1,
                ),
            forall|n: Seq<char>| has_named(list@, n) <==> (has_named(ps0, n) || exists|m: int|
                0 <= m < add.len() && cfg[add[m]].0@ == n),
        decreases cfg.len() - i,
    {
        let ghost pre = cfg.take(i as int);
        let ghost next = cfg.take(i + 1);
        let ghost add_prev = add;
        let ghost list_prev = list@;
        assert(has_named(list@, cfg[i as int].0@) == (has_named(ps0, cfg[i as int].0@) || exists|m: int|
            0 <= m < add.len() && cfg[add[m]].0@ == cfg[i as int].0@));
        assert(next.drop_last() =~= pre);
        assert(next.last() == cfg[i as int]);
        assert forall|m: int| 0 <= m < add.len() implies next[add[m]] == cfg[add[m]] && pre[add[m]] == cfg[add[m]] by {}
        if !has_named_exec(&list, configured[i].0.as_str()) {
            let ghost before = list@;
            let ghost add_prev = add;
            let p = configured_provider(&configured[i].0, &configured[i].1);
            let ghost pv = p;
            list.push(p);
            proof {
                add = add.push(i as int);
                assert(list@[before.len() as int] == pv);
                assert forall|n: Seq<char>| has_named(list@, n) implies (has_named(ps0, n) || exists|m: int|
                    0 <= m < add.len() && cfg[add[m]].0@ == n) by {
                    let j = choose|j: int| 0 <= j < list@.len() && list@[j].name@ == n;
                    if j < before.len() {
                        assert(before[j] == list@[j]);
                        assert(has_named(before, n));
                        if !has_named(ps0, n) {
                            let m = choose|m: int| 0 <= m < add_prev.len() && cfg[add_prev[m]].0@ == n;
                            assert(add[m] == add_prev[m]);
                        }
                    } else {
                        assert(add[add.len() - 1] == i);
                        assert(cfg[add[add.len() - 1]].0@ == n);
                    }
                }
                assert forall|n: Seq<char>| (has_named(ps0, n) || exists|m: int|
                    0 <= m < add.len() && cfg[add[m]].0@ == n) implies has_named(list@, n) by {
                    if has_named(ps0, n) {
                        assert(has_named(before, n));
                        let j = choose|j: int| 0 <= j < before.len() && before[j].name@ == n;
                        assert(list@[j] == before[j]);
                    } else {
                        let m = choose|m: int| 0 <= m < add.len() && cfg[add[m]].0@ == n;
                        if m < add.len() - 1 {
                            assert(add[m] == add_prev[m]);
                            assert(0 <= m < add_prev.len() && cfg[add_prev[m]].0@ == n);
                            assert(has_named(before, n));
                            let j = choose|j: int| 0 <= j < before.len() && before[j].name@ == n;
                            assert(list@[j] == before[j]);
                        } else {
                            assert(list@[before.len() as int].name@ == n);
                        }
                    }
                }
                assert forall|m: int| 0 <= m < add.len() implies is_configured_provider(
                    #[trigger] list@[ps0.len() + m],
                    cfg[add[m]].0@,
                    cfg[add[m]].1,
                ) by {
                    if m < add.len() - 1 {
                        assert(list@[ps0.len() + m] == before[ps0.len() + m]);
                        assert(add[m] == add_prev[m]);
                    }
                }
            }
        }
        proof {
            let n = cfg[i as int].0@;
            let present = has_named(list_prev, n);
            assert(present == (has_named(ps0, n) || exists|m: int| 0 <= m < add_prev.len() && cfg[add_prev[m]].0@ == n));
            if exists|m: int| 0 <= m < add_prev.len() && cfg[add_prev[m]].0@ == n {
                let m = choose|m: int| 0 <= m < add_prev.len() && cfg[add_prev[m]].0@ == n;
                assert(next[add_prev[m]] == cfg[add_prev[m]]);
            }
            if exists|m: int| 0 <= m < add_prev.len() && next[add_prev[m]].0@ == n {
                let m = choose|m: int| 0 <= m < add_prev.len() && next[add_prev[m]].0@ == n;
                assert(next[add_prev[m]] == cfg[add_prev[m]]);
            }
            assert(added_entries(ps0, next.drop_last()) == add_prev);
            assert(added_entries(ps0, next) == if present {
                add_prev
            } else {
                add_prev.push(i as int)
            });
            assert(add == added_entries(ps0, next));
            assert forall|m: int| 0 <= m < add.len() implies next[add[m]] == cfg[add[m]] by {}
            assert forall|m: int| 0 <= m < add.len() implies is_configured_provider(
                #[trigger] list@[ps0.len() + m],
                next[add[m]].0@,
                next[add[m]].1,
            ) by {
                assert(next[add[m]] == cfg[add[m]]);
            }
        }
        i = i + 1;
    }
    assert(cfg.take(cfg.len() as int) =~= cfg);
    let ghost appended = list@;
    let sorted = stable_sort(list, true);
    state.providers = sorted;
    let len = state.providers.len();
    if len == 0 {
        ui.provider_selected = 0;
    } else if ui.provider_selected >= len {
        ui.provider_selected = len - 1;
    }
    if ui.provider_expanded.len() != len {
        ui.provider_expanded = closed_flags(len);
    }
}


// ---------------------------------------------------------------- refresh

/// What one refresh got from the core: its version, and when that came,
/// the rest of its data; each part with its error.
#[derive(Debug)]
pub struct RefreshResult {
    pub version: Result<Version, String>,
    pub data: Option<RefreshData>,
}

/// The data parts of a refresh.
#[derive(Debug)]
pub struct RefreshData {
    pub config: Result<Config, String>,
    pub memory: Result<Memory, String>,
    pub proxies: Result<Vec<Proxy>, String>,
    pub all_proxies: Result<Vec<(String, Proxy)>, String>,
    pub providers: Result<Vec<Provider>, String>,
    pub connections: Result<ConnectionsResponse, String>,
    pub rules: Result<Vec<Rule>, String>,
}

/// How many traffic samples are kept.
pub const TRAFFIC_SAMPLES: usize = 60;

/// Index of the first mode that equals `mode` ignoring case.
pub open spec fn mode_index(modes: Seq<Seq<char>>, mode: Seq<char>) -> Option<int>
    decreases modes.len(),
{
    if modes.len() == 0 {
        None
    } else if lowercased(modes[0]) == lowercased(mode) {
        Some(0)
    } else {
        match mode_index(modes.drop_first(), mode) {
            Some(i) => Some(i + 1),
            None => None,
        }
    }
}

/// `a - b`, or zero when `b` is larger.
pub open spec fn minus_or_zero(a: u64, b: u64) -> u64 {
    if a >= b {
        (a - b) as u64
    } else {
        0
    }
}

/// The traffic samples after `(up, down)` was taken: the oldest dropped
/// once there are more than sixty.
pub open spec fn sampled(h: Seq<(u64, u64)>, up: u64, down: u64) -> Seq<(u64, u64)> {
    let l = h.push((up, down));
    if l.len() > TRAFFIC_SAMPLES {
        l.drop_first()
    } else {
        l
    }
}

/// The providers after configured subscriptions were merged in and the
/// list ordered by name.
pub open spec fn merged_sorted(before: Seq<Provider>, cfg: Seq<(String, ProviderConfig)>, after: Seq<Provider>) -> bool {
    exists|appended: Seq<Provider>|
        merged(before, cfg, appended) && sorted_by_key(after, true) && same_per_key(after, appended)
            && after.len() == appended.len()
}

/// Position of the first mode equal to `mode` ignoring case.
fn find_mode(modes: &Vec<String>, mode: &str) -> (r: Option<usize>)
    ensures
        match r {
            Some(i) => mode_index(views_of(modes@), mode@) == Some(i as int) && i < modes@.len(),
            None => mode_index(views_of(modes@), mode@) is None,
        },
{
    let ghost mv = views_of(modes@);
    let target = to_lowercase(mode);
    let mut i: usize = 0;
    assert(mv.subrange(0, mv.len() as int) =~= mv);
    while i < modes.len()
        invariant
            i <= modes@.len(),
            mv == views_of(modes@),
            target@ == lowercased(mode@),
            mode_index(mv, mode@) == match mode_index(mv.subrange(i as int, mv.len() as int), mode@) {
                Some(j) => Some(j + i),
                None => None::<int>,
            },
        decreases modes@.len() - i,
    {
        assert(mv.subrange(i as int, mv.len() as int).drop_first() =~= mv.subrange(i + 1, mv.len() as int));
        let m = to_lowercase(modes[i].as_str());
        if str_eq(m.as_str(), target.as_str()) {
            return Some(i);
        }
        i = i + 1;
    }
    None
}

/// Takes the core's configuration, and selects its mode among the modes
/// the dashboard cycles through.
fn apply_config(state: &mut AppState, ui: &mut UiState, c: Config)
    ensures
        *final(state) == (AppState { config: Some(c), ..*old(state) }),
        final(ui)@ == (crate::context::UiView {
            current_mode_index: match mode_index(old(ui)@.modes, c.mode@) {
                Some(i) => i as usize,
                None => old(ui)@.current_mode_index,
            },
            ..old(ui)@
        }),
{
    match find_mode(&ui.modes, c.mode.as_str()) {
        Some(i) => {
            ui.current_mode_index = i;
        },
        None => {},
    }
    state.config = Some(c);
}

/// Takes the core's connections: totals, the traffic since the last
/// refresh, and a new traffic sample.
fn apply_connections(state: &mut AppState, ui: &mut UiState, c: ConnectionsResponse)
    ensures
        *final(state) == (AppState {
            connections: c.connections,
            download_total: c.download_total,
            upload_total: c.upload_total,
            traffic: Traffic {
                up: minus_or_zero(c.upload_total, old(state).upload_total),
                down: minus_or_zero(c.download_total, old(state).download_total),
            },
            ..*old(state)
        }),
        final(ui)@ == (crate::context::UiView {
            traffic_history: sampled(
                old(ui)@.traffic_history,
                minus_or_zero(c.upload_total, old(state).upload_total),
                minus_or_zero(c.download_total, old(state).download_total),
            ),
            ..old(ui)@
        }),
{
    let up = if c.upload_total >= state.upload_total {
        c.upload_total - state.upload_total
    } else {
        0
    };
    let down = if c.download_total >= state.download_total {
        c.download_total - state.download_total
    } else {
        0
    };
    state.connections = c.connections;
    state.download_total = c.download_total;
    state.upload_total = c.upload_total;
    state.traffic = Traffic { up, down };
    ui.traffic_history.push((up, down));
    if ui.traffic_history.len() > TRAFFIC_SAMPLES {
        ui.traffic_history.remove(0);
    }
}

/// The error shown after a refresh whose version came back: a failed
/// subscription list, else a failed proxy list, else none.
pub open spec fn refresh_error(d: RefreshData) -> Option<Seq<char>> {
    match d.providers {
        Err(e) => Some("订阅刷新失败: "@ + e@),
        Ok(_) => match d.proxies {
            Err(e) => Some("代理组刷新失败: "@ + e@),
            Ok(_) => None,
        },
    }
}

/// Applies a finished refresh. When the version could not be read the
/// core counts as disconnected (saying so when it was connected) and
/// nothing else changes. Otherwise the core is connected, each part that
/// came is taken over, configured subscriptions are merged in (when the
/// configuration could be read, `configured`), and failed proxy or
/// subscription lists are reported.
pub fn apply_refresh_result(
    state: &mut AppState,
    ui: &mut UiState,
    connected: &mut bool,
    result: RefreshResult,
    configured: Option<&Vec<(String, ProviderConfig)>>,
)
    ensures
        match result.version {
            Err(e) => !*final(connected) && *final(state) == *old(state) && final(ui)@ == (crate::context::UiView {
                error_message: if *old(connected) {
                    Some("与核心断开连接: "@ + e@)
                } else {
                    old(ui)@.error_message
                },
                ..old(ui)@
            }),
            Ok(v) => *final(connected) && final(state).version == Some(v) && match result.data {
                None => final(ui)@ == (crate::context::UiView { error_message: None, ..old(ui)@ })
                    && *final(state) == (AppState { version: final(state).version, ..*old(state) }),
                Some(d) => refreshed(*old(state), old(ui)@, d, configured, *final(state), final(ui)@),
            },
        },
{
    let data = match result.version {
        Ok(v) => {
            state.version = Some(v);
            *connected = true;
            ui.error_message = None;
            result.data
        },
        Err(err) => {
            if *connected {
                let mut m = owned("与核心断开连接: ");
                push_str(&mut m, err.as_str());
                ui.error_message = Some(m);
            }
            *connected = false;
            return;
        },
    };
    let d = match data {
        Some(d) => d,
        None => {
            return;
        },
    };
    let ghost d0 = d;
    apply_refresh_data(state, ui, d, configured);
}

/// What a refresh with data does to the state and the interface.
pub open spec fn refreshed(
    st: AppState,
    u: crate::context::UiView,
    d: RefreshData,
    configured: Option<&Vec<(String, ProviderConfig)>>,
    st2: AppState,
    u2: crate::context::UiView,
) -> bool {
    let providers_before = match d.providers {
        Ok(p) => p@,
        Err(_) => st.providers@,
    };
    &&& st2.config == match d.config {
        Ok(c) => Some(c),
        Err(_) => st.config,
    }
    &&& u2.current_mode_index == match d.config {
        Ok(c) => match mode_index(u.modes, c.mode@) {
            Some(i) => i as usize,
            None => u.current_mode_index,
        },
        Err(_) => u.current_mode_index,
    }
    &&& st2.memory == match d.memory {
        Ok(m) => Some(m),
        Err(_) => st.memory,
    }
    &&& st2.proxies == match d.proxies {
        Ok(p) => p,
        Err(_) => st.proxies,
    }
    &&& u2.proxy_expanded == match d.proxies {
        Ok(p) => flags_for(u.proxy_expanded, p@.len()),
        Err(_) => u.proxy_expanded,
    }
    &&& st2.all_proxies == match d.all_proxies {
        Ok(a) => a,
        Err(_) => st.all_proxies,
    }
    &&& match configured {
        Some(cfg) => merged_sorted(providers_before, cfg@, st2.providers@)
            && u2.provider_selected == clamped(u.provider_selected, st2.providers@.len())
            && u2.provider_expanded == flags_for(u.provider_expanded, st2.providers@.len()),
        None => st2.providers@ == providers_before && u2.provider_selected == u.provider_selected
            && u2.provider_expanded == u.provider_expanded,
    }
    &&& u2.error_message == refresh_error(d)
    &&& match d.connections {
        Ok(c) => st2.connections == c.connections && st2.download_total == c.download_total
            && st2.upload_total == c.upload_total && st2.traffic == (Traffic {
            up: minus_or_zero(c.upload_total, st.upload_total),
            down: minus_or_zero(c.download_total, st.download_total),
        }) && u2.traffic_history == sampled(
            u.traffic_history,
            minus_or_zero(c.upload_total, st.upload_total),
            minus_or_zero(c.download_total, st.download_total),
        ),
        Err(_) => st2.connections == st.connections && st2.download_total == st.download_total
            && st2.upload_total == st.upload_total && st2.traffic == st.traffic && u2.traffic_history
            == u.traffic_history,
    }
    &&& st2.rules == match d.rules {
        Ok(r) => r,
        Err(_) => st.rules,
    }
    &&& st2.api_url == st.api_url
    &&& st2.config_path == st.config_path
    &&& st2.proxy_config == st.proxy_config
    &&& st2.logs == st.logs
    &&& u2 == (crate::context::UiView {
        current_mode_index: u2.current_mode_index,
        proxy_expanded: u2.proxy_expanded,
        provider_selected: u2.provider_selected,
        provider_expanded: u2.provider_expanded,
        error_message: u2.error_message,
        traffic_history: u2.traffic_history,
        ..u
    })
}

/// Takes over the proxy list, or reports why it failed.
fn apply_proxies(state: &mut AppState, ui: &mut UiState, proxies: Result<Vec<Proxy>, String>)
    ensures
        match proxies {
            Ok(p) => *final(state) == (AppState { proxies: p, ..*old(state) }) && final(ui)@ == (crate::context::UiView {
                proxy_expanded: flags_for(old(ui)@.proxy_expanded, p@.len()),
                ..old(ui)@
            }),
            Err(e) => *final(state) == *old(state) && final(ui)@ == (crate::context::UiView {
                error_message: Some("代理组刷新失败: "@ + e@),
                ..old(ui)@
            }),
        },
{
    match proxies {
        Ok(p) => {
            state.proxies = p;
            if ui.proxy_expanded.len() != state.proxies.len() {
                ui.proxy_expanded = closed_flags(state.proxies.len());
            }
        },
        Err(e) => {
            let mut m = owned("代理组刷新失败: ");
            push_str(&mut m, e.as_str());
            ui.error_message = Some(m);
        },
    }
}

/// Takes over the subscription list, or reports why it failed.
fn apply_providers(state: &mut AppState, ui: &mut UiState, providers: Result<Vec<Provider>, String>)
    ensures
        match providers {
            Ok(p) => *final(state) == (AppState { providers: p, ..*old(state) }) && final(ui)@ == old(ui)@,
            Err(e) => *final(state) == *old(state) && final(ui)@ == (crate::context::UiView {
                error_message: Some("订阅刷新失败: "@ + e@),
                ..old(ui)@
            }),
        },
{
    match providers {
        Ok(p) => {
            state.providers = p;
        },
        Err(e) => {
            let mut m = owned("订阅刷新失败: ");
            push_str(&mut m, e.as_str());
            ui.error_message = Some(m);
        },
    }
}

/// Takes over the configuration, memory and proxy lists of a refresh.
fn apply_refresh_head(
    state: &mut AppState,
    ui: &mut UiState,
    config: Result<Config, String>,
    memory: Result<Memory, String>,
    proxies: Result<Vec<Proxy>, String>,
    all_proxies: Result<Vec<(String, Proxy)>, String>,
)
    ensures
        *final(state) == (AppState {
            config: match config {
                Ok(c) => Some(c),
                Err(_) => old(state).config,
            },
            memory: match memory {
                Ok(m) => Some(m),
                Err(_) => old(state).memory,
            },
            proxies: match proxies {
                Ok(p) => p,
                Err(_) => old(state).proxies,
            },
            all_proxies: match all_proxies {
                Ok(a) => a,
                Err(_) => old(state).all_proxies,
            },
            ..*old(state)
        }),
        final(ui)@ == (crate::context::UiView {
            current_mode_index: match config {
                Ok(c) => match mode_index(old(ui)@.modes, c.mode@) {
                    Some(i) => i as usize,
                    None => old(ui)@.current_mode_index,
                },
                Err(_) => old(ui)@.current_mode_index,
            },
            proxy_expanded: match proxies {
                Ok(p) => flags_for(old(ui)@.proxy_expanded, p@.len()),
                Err(_) => old(ui)@.proxy_expanded,
            },
            error_message: match proxies {
                Ok(_) => old(ui)@.error_message,
                Err(e) => Some("代理组刷新失败: "@ + e@),
            },
            ..old(ui)@
        }),
{
    match config {
        Ok(c) => apply_config(state, ui, c),
        Err(_) => {},
    }
    match memory {
        Ok(m) => {
            state.memory = Some(m);
        },
        Err(_) => {},
    }
    apply_proxies(state, ui, proxies);
    match all_proxies {
        Ok(a) => {
            state.all_proxies = a;
        },
        Err(_) => {},
    }
}

/// Takes over the subscriptions of a refresh and merges in the configured
/// ones.
fn apply_refresh_providers(
    state: &mut AppState,
    ui: &mut UiState,
    providers: Result<Vec<Provider>, String>,
    configured: Option<&Vec<(String, ProviderConfig)>>,
)
    ensures
        ({
            let before = match providers {
                Ok(p) => p@,
                Err(_) => old(state).providers@,
            };
            &&& *final(state) == (AppState { providers: final(state).providers, ..*old(state) })
            &&& match configured {
                Some(cfg) => merged_sorted(before, cfg@, final(state).providers@) && final(ui)@ == (
                crate::context::UiView {
                    provider_selected: clamped(old(ui)@.provider_selected, final(state).providers@.len()),
                    provider_expanded: flags_for(old(ui)@.provider_expanded, final(state).providers@.len()),
                    error_message: final(ui)@.error_message,
                    ..old(ui)@
                }),
                None => final(state).providers@ == before && final(ui)@ == (crate::context::UiView {
                    error_message: final(ui)@.error_message,
                    ..old(ui)@
                }),
            }
            &&& final(ui)@.error_message == match providers {
                Ok(_) => old(ui)@.error_message,
                Err(e) => Some("订阅刷新失败: "@ + e@),
            }
        }),
{
    apply_providers(state, ui, providers);
    match configured {
        Some(cfg) => merge_config_providers_into_state(state, ui, cfg),
        None => {},
    }
}

/// Takes over the connections and rules of a refresh.
fn apply_refresh_tail(
    state: &mut AppState,
    ui: &mut UiState,
    connections: Result<ConnectionsResponse, String>,
    rules: Result<Vec<Rule>, String>,
)
    ensures
        match connections {
            Ok(c) => *final(state) == (AppState {
                connections: c.connections,
                download_total: c.download_total,
                upload_total: c.upload_total,
                traffic: Traffic {
                    up: minus_or_zero(c.upload_total, old(state).upload_total),
                    down: minus_or_zero(c.download_total, old(state).download_total),
                },
                rules: match rules {
                    Ok(r) => r,
                    Err(_) => old(state).rules,
                },
                ..*old(state)
            }) && final(ui)@ == (crate::context::UiView {
                traffic_history: sampled(
                    old(ui)@.traffic_history,
                    minus_or_zero(c.upload_total, old(state).upload_total),
                    minus_or_zero(c.download_total, old(state).download_total),
                ),
                ..old(ui)@
            }),
            Err(_) => *final(state) == (AppState {
                rules: match rules {
                    Ok(r) => r,
                    Err(_) => old(state).rules,
                },
                ..*old(state)
            }) && final(ui)@ == old(ui)@,
        },
{
    match connections {
        Ok(c) => apply_connections(state, ui, c),
        Err(_) => {},
    }
    match rules {
        Ok(r) => {
            state.rules = r;
        },
        Err(_) => {},
    }
}

/// Takes over each part of a refresh that came.
#[verifier::rlimit(40)]
fn apply_refresh_data(
    state: &mut AppState,
    ui: &mut UiState,
    d: RefreshData,
    configured: Option<&Vec<(String, ProviderConfig)>>,
)
    requires
        old(ui)@.error_message is None,
    ensures
        refreshed(*old(state), old(ui)@, d, configured, *final(state), final(ui)@),
        final(state).version == old(state).version,
{
    let RefreshData { config, memory, proxies, all_proxies, providers, connections, rules } = d;
    apply_refresh_head(state, ui, config, memory, proxies, all_proxies);
    apply_refresh_providers(state, ui, providers, configured);
    apply_refresh_tail(state, ui, connections, rules);
}


// ---------------------------------------------------------------- modes and proxies

/// Moves to the next proxy mode (wrapping around), shows it in the core's
/// configuration in lower case, and says so; returns the mode to send to
/// the core, in lower case.
pub fn cycle_mode(state: &mut AppState, ui: &mut UiState) -> (r: String)
    requires
        old(ui)@.modes.len() > 0,
    ensures
        ({
            let i = ((old(ui)@.current_mode_index + 1) % (old(ui)@.modes.len() as int)) as usize;
            let mode = old(ui)@.modes[i as int];
            &&& r@ == lowercased(mode)
            &&& final(ui)@ == (crate::context::UiView {
                current_mode_index: i,
                success_message: Some("正在切换为 "@ + mode),
                ..old(ui)@
            })
            &&& match old(state).config {
                Some(c) => final(state).config matches Some(c2) && c2 == (Config { mode: c2.mode, ..c })
                    && c2.mode@ == lowercased(mode),
                None => final(state).config is None,
            }
            &&& *final(state) == (AppState { config: final(state).config, ..*old(state) })
        }),
{
    let n = ui.modes.len();
    let i = (ui.current_mode_index % n + 1) % n;
    proof {
        let a = ui.current_mode_index as int;
        let m = n as int;
        assert((a % m + 1) % m == (a + 1) % m) by (nonlinear_arith)
            requires
                m > 0,
                a >= 0,
        ;
    }
    ui.current_mode_index = i;
    let mode = ui.modes[i].clone();
    let lower = to_lowercase(mode.as_str());
    match &mut state.config {
        Some(c) => {
            c.mode = lower.clone();
        },
        None => {},
    }
    let mut m = owned("正在切换为 ");
    push_str(&mut m, mode.as_str());
    ui.success_message = Some(m);
    lower
}

/// `b` is `a` switched to node `node`.
pub open spec fn switched(a: Proxy, b: Proxy, node: Seq<char>) -> bool {
    &&& b == (Proxy { now: b.now, ..a })
    &&& opt_view(b.now) == Some(node)
}

/// Shows group `group` switched to `node` in both proxy lists and says
/// so.
pub fn switch_proxy_to(state: &mut AppState, ui: &mut UiState, group: &str, node: &str)
    ensures
        match first_named(old(state).proxies@, group@) {
            Some(i) => changed_at(old(state).proxies@, final(state).proxies@, i) && switched(
                old(state).proxies@[i],
                final(state).proxies@[i],
                node@,
            ),
            None => final(state).proxies@ == old(state).proxies@,
        },
        match crate::state::first_key_index(old(state).all_proxies@, group@) {
            Some(i) => final(state).all_proxies@.len() == old(state).all_proxies@.len() && (forall|j: int|
                0 <= j < old(state).all_proxies@.len() && j != i ==> final(state).all_proxies@[j]
                    == old(state).all_proxies@[j]) && final(state).all_proxies@[i].0
                == old(state).all_proxies@[i].0 && switched(
                old(state).all_proxies@[i].1,
                final(state).all_proxies@[i].1,
                node@,
            ),
            None => final(state).all_proxies@ == old(state).all_proxies@,
        },
        final(ui)@ == (crate::context::UiView { success_message: Some("已切换到 "@ + node@), ..old(ui)@ }),
        *final(state) == (AppState {
            proxies: final(state).proxies,
            all_proxies: final(state).all_proxies,
            ..*old(state)
        }),
{
    match find_named(&state.proxies, group) {
        Some(i) => {
            let mut p = Proxy::placeholder();
            state.proxies.set_and_swap(i, &mut p);
            p.now = Some(owned(node));
            state.proxies.set(i, p);
        },
        None => {},
    }
    match crate::state::find_proxy_entry(&state.all_proxies, group) {
        Some(i) => {
            let mut e = (String::new(), Proxy::placeholder());
            state.all_proxies.set_and_swap(i, &mut e);
            let (k, mut p) = e;
            p.now = Some(owned(node));
            state.all_proxies.set(i, (k, p));
        },
        None => {},
    }
    let mut m = owned("已切换到 ");
    push_str(&mut m, node);
    ui.success_message = Some(m);
}

/// Index of the first member equal to `now`.
pub open spec fn member_index(all: Seq<Seq<char>>, now: Seq<char>) -> Option<int>
    decreases all.len(),
{
    if all.len() == 0 {
        None
    } else if all[0] == now {
        Some(0)
    } else {
        match member_index(all.drop_first(), now) {
            Some(i) => Some(i + 1),
            None => None,
        }
    }
}

/// Position of the member the group uses now, the first member when it
/// uses none of them.
pub open spec fn current_member(all: Seq<Seq<char>>, now: Option<Seq<char>>) -> int {
    match now {
        Some(n) => match member_index(all, n) {
            Some(i) => i,
            None => 0,
        },
        None => 0,
    }
}

/// Position of `now` among the members.
fn find_member(all: &Vec<String>, now: &str) -> (r: Option<usize>)
    ensures
        match r {
            Some(i) => member_index(views_of(all@), now@) == Some(i as int) && i < all@.len(),
            None => member_index(views_of(all@), now@) is None,
        },
{
    let ghost v = views_of(all@);
    let mut i: usize = 0;
    assert(v.subrange(0, v.len() as int) =~= v);
    while i < all.len()
        invariant
            i <= all@.len(),
            v == views_of(all@),
            member_index(v, now@) == match member_index(v.subrange(i as int, v.len() as int), now@) {
                Some(j) => Some(j + i),
                None => None::<int>,
            },
        decreases all@.len() - i,
    {
        assert(v.subrange(i as int, v.len() as int).drop_first() =~= v.subrange(i + 1, v.len() as int));
        if str_eq(all[i].as_str(), now) {
            return Some(i);
        }
        i = i + 1;
    }
    None
}

/// The member a step from the current one goes to: back one (not past
/// the first) when `back`, else forward one (not past the last).
pub open spec fn stepped_member(cur: int, len: int, back: bool) -> int {
    if back {
        if cur > 0 {
            cur - 1
        } else {
            0
        }
    } else if cur + 1 < len - 1 {
        cur + 1
    } else {
        len - 1
    }
}

/// A name is found at the first position that holds it.
proof fn lemma_member_index_first(all: Seq<Seq<char>>, now: Seq<char>, i: int)
    requires
        0 <= i < all.len(),
        all[i] == now,
        forall|j: int| 0 <= j < i ==> all[j] != now,
    ensures
        member_index(all, now) == Some(i),
    decreases i,
{
    if i > 0 {
        assert(all[0] != now);
        assert forall|j: int| 0 <= j < i - 1 implies all.drop_first()[j] != now by {
            assert(all.drop_first()[j] == all[j + 1]);
        }
        lemma_member_index_first(all.drop_first(), now, i - 1);
    }
}

/// Stepping a group whose current node is member `i` (its first
/// occurrence): back goes to member `i - 1`, or stays on the first member;
/// forward goes to member `i + 1`, or stays on the last member.
pub proof fn law_step_goes_to_neighbouring_member(all: Seq<Seq<char>>, now: Seq<char>, i: int)
    requires
        0 <= i < all.len(),
        all[i] == now,
        forall|j: int| 0 <= j < i ==> all[j] != now,
    ensures
        current_member(all, Some(now)) == i,
        stepped_member(current_member(all, Some(now)), all.len() as int, true) == if i > 0 {
            i - 1
        } else {
            i
        },
        stepped_member(current_member(all, Some(now)), all.len() as int, false) == if i + 1 < all.len() {
            i + 1
        } else {
            i
        },
{
    lemma_member_index_first(all, now, i);
}

/// Stepping the selected group back (`delta < 0`) while its current node
/// is member `i > 0` (its first occurrence) asks the core to switch the
/// group to member `i - 1`; stepping forward from a member before the last
/// asks for member `i + 1`.
pub proof fn law_switch_steps_to_neighbouring_node(
    st: AppState,
    u: crate::context::UiView,
    delta: isize,
    r: Option<(String, String)>,
    st2: AppState,
    u2: crate::context::UiView,
    i: int,
)
    requires
        switched_by(st, u, delta, r, st2, u2),
        u.proxy_selected < st.proxies@.len(),
        st.proxies@[u.proxy_selected as int].all is Some,
        0 <= i < st.proxies@[u.proxy_selected as int].all->Some_0@.len(),
        opt_view(st.proxies@[u.proxy_selected as int].now) == Some(
            st.proxies@[u.proxy_selected as int].all->Some_0@[i]@,
        ),
        forall|j: int|
            0 <= j < i ==> st.proxies@[u.proxy_selected as int].all->Some_0@[j]@
                != st.proxies@[u.proxy_selected as int].all->Some_0@[i]@,
    ensures
        delta < 0 && i > 0 ==> r is Some && r->Some_0.0@ == st.proxies@[u.proxy_selected as int].name@
            && r->Some_0.1@ == st.proxies@[u.proxy_selected as int].all->Some_0@[i - 1]@,
        delta >= 0 && i + 1 < st.proxies@[u.proxy_selected as int].all->Some_0@.len() ==> r is Some
            && r->Some_0.0@ == st.proxies@[u.proxy_selected as int].name@
            && r->Some_0.1@ == st.proxies@[u.proxy_selected as int].all->Some_0@[i + 1]@,
{
    let p = st.proxies@[u.proxy_selected as int];
    let a = p.all->Some_0@;
    let all = views_of(a);
    assert(all.len() == a.len());
    assert forall|j: int| 0 <= j < i implies all[j] != all[i] by {
        assert(all[j] == a[j]@ && all[i] == a[i]@);
    }
    law_step_goes_to_neighbouring_member(all, all[i], i);
}

/// A group with no current node, or one that is not a member, steps as if
/// on the first member.
pub proof fn law_step_from_unknown_node_starts_at_first(all: Seq<Seq<char>>, now: Option<Seq<char>>)
    requires
        all.len() > 0,
        match now {
            Some(n) => forall|j: int| 0 <= j < all.len() ==> all[j] != n,
            None => true,
        },
    ensures
        current_member(all, now) == 0,
        stepped_member(current_member(all, now), all.len() as int, true) == 0,
        stepped_member(current_member(all, now), all.len() as int, false) == if all.len() > 1 {
            1int
        } else {
            0
        },
{
    if let Some(n) = now {
        lemma_member_index_absent(all, n);
    }
}

/// A name held nowhere is not found.
proof fn lemma_member_index_absent(all: Seq<Seq<char>>, now: Seq<char>)
    requires
        forall|j: int| 0 <= j < all.len() ==> all[j] != now,
    ensures
        member_index(all, now) is None,
    decreases all.len(),
{
    if all.len() > 0 {
        assert forall|j: int| 0 <= j < all.len() - 1 implies all.drop_first()[j] != now by {
            assert(all.drop_first()[j] == all[j + 1]);
        }
        lemma_member_index_absent(all.drop_first(), now);
    }
}

/// What stepping the selected group by `delta` does (see
/// `switch_selected_proxy_by`): with no such group, or one without
/// members, nothing changes but the error shown; when the step stays on
/// the current member nothing changes; otherwise the group and the member
/// stepped to are asked for.
pub open spec fn switched_by(
    st: AppState,
    u: crate::context::UiView,
    delta: isize,
    r: Option<(String, String)>,
    st2: AppState,
    u2: crate::context::UiView,
) -> bool {
    let sel = u.proxy_selected as int;
    let ps = st.proxies@;
    if sel >= ps.len() {
        r is None && st2 == st && u2 == (crate::context::UiView {
            error_message: Some("没有可切换的代理组"@),
            ..u
        })
    } else {
        let all = match ps[sel].all {
            Some(a) => views_of(a@),
            None => Seq::empty(),
        };
        if all.len() == 0 {
            r is None && st2 == st && u2 == (crate::context::UiView {
                error_message: Some("当前代理组没有可选节点"@),
                ..u
            })
        } else {
            let cur = current_member(all, opt_view(ps[sel].now));
            let next = stepped_member(cur, all.len() as int, delta < 0);
            if next == cur {
                r is None && st2 == st && u2 == u
            } else {
                r matches Some((g, n)) && g@ == ps[sel].name@ && n@ == all[next]
            }
        }
    }
}

/// Steps the selected group to the previous (`delta < 0`) or next node.
/// Returns the group and node to ask the core for, when the group moved;
/// a missing group or one without members is reported.
pub fn switch_selected_proxy_by(state: &mut AppState, ui: &mut UiState, delta: isize) -> (r: Option<(String, String)>)
    ensures
        switched_by(*old(state), old(ui)@, delta, r, *final(state), final(ui)@),
{
    if ui.proxy_selected >= state.proxies.len() {
        ui.error_message = Some(owned("没有可切换的代理组"));
        return None;
    }
    let sel = ui.proxy_selected;
    let empty = match &state.proxies[sel].all {
        Some(a) => a.len() == 0,
        None => true,
    };
    if empty {
        ui.error_message = Some(owned("当前代理组没有可选节点"));
        return None;
    }
    let (group, node) = {
        let proxy = &state.proxies[sel];
        let all = match &proxy.all {
            Some(a) => a,
            None => {
                return None;
            },
        };
        let cur: usize = match &proxy.now {
            Some(n) => match find_member(all, n.as_str()) {
                Some(i) => i,
                None => 0,
            },
            None => 0,
        };
        let next: usize = if delta < 0 {
            if cur > 0 {
                cur - 1
            } else {
                0
            }
        } else if cur + 1 < all.len() - 1 {
            cur + 1
        } else {
            all.len() - 1
        };
        if next == cur {
            return None;
        }
        assert(views_of(all@)[next as int] == all@[next as int]@);
        (proxy.name.clone(), all[next].clone())
    };
    switch_proxy_to(state, ui, group.as_str(), node.as_str());
    Some((group, node))
}

/// The group and node chosen in the node picker: member `selected` of the
/// first group named `proxy_name`.
pub fn chosen_node(state: &AppState, proxy_name: &str, selected: usize) -> (r: Option<(String, String)>)
    ensures
        match first_named(state.proxies@, proxy_name@) {
            Some(i) => match state.proxies@[i].all {
                Some(a) => if selected < a@.len() {
                    r matches Some((g, n)) && g@ == state.proxies@[i].name@ && n@ == a@[selected as int]@
                } else {
                    r is None
                },
                None => r is None,
            },
            None => r is None,
        },
{
    match find_named(&state.proxies, proxy_name) {
        Some(i) => match &state.proxies[i].all {
            Some(a) => {
                if selected < a.len() {
                    Some((state.proxies[i].name.clone(), a[selected].clone()))
                } else {
                    None
                }
            },
            None => None,
        },
        None => None,
    }
}

// ---------------------------------------------------------------- the form

/// What a submitted form asks for.
#[derive(Debug)]
pub enum FormRequest {
    /// Nothing to do (no form open, or no subscription selected to edit).
    Nothing,
    /// The input was refused; the reason is shown.
    Invalid,
    /// Add subscription `name` at `url`, updated every `interval` seconds.
    Add { name: String, url: String, interval: u32 },
    /// Give subscription `name` a new address and interval.
    Update { name: String, url: String, interval: u32 },
}

/// The interval typed in the form, a day when it is not a number.
pub open spec fn form_interval(s: Seq<char>) -> u32 {
    match crate::text::parse_u32_spec(s) {
        Some(n) => n,
        None => 86400,
    }
}

/// An address the form accepts: it starts with `http`.
pub open spec fn is_http(u: Seq<char>) -> bool {
    4 <= u.len() && u.subrange(0, 4) == "http"@
}

/// Reads the open subscription form. Adding needs a name and an address
/// starting with `http`; editing changes the selected subscription and
/// needs such an address. Refused input is reported and changes nothing
/// else.
pub fn submit_form(state: &AppState, ui: &mut UiState) -> (r: FormRequest)
    requires
        old(ui)@.input_fields.len() >= 3,
    ensures
        ({
            let f = old(ui)@.input_fields;
            let name = crate::text::trimmed(f[0]);
            let url = crate::text::trimmed(f[1]);
            let interval = form_interval(f[2]);
            match old(ui)@.popup {
                PopupView::AddProvider => if name.len() == 0 {
                    r is Invalid && final(ui)@ == (crate::context::UiView {
                        error_message: Some("订阅名称不能为空"@),
                        ..old(ui)@
                    })
                } else if !is_http(url) {
                    r is Invalid && final(ui)@ == (crate::context::UiView {
                        error_message: Some("请输入有效的 URL"@),
                        ..old(ui)@
                    })
                } else {
                    final(ui)@ == old(ui)@ && (r matches FormRequest::Add { name: n, url: u, interval: i }
                        && n@ == name && u@ == url && i == interval)
                },
                PopupView::EditProvider => if old(ui)@.provider_selected < state.providers@.len() {
                    if !is_http(url) {
                        r is Invalid && final(ui)@ == (crate::context::UiView {
                            error_message: Some("请输入有效的 URL"@),
                            ..old(ui)@
                        })
                    } else {
                        final(ui)@ == old(ui)@ && (r matches FormRequest::Update { name: n, url: u, interval: i }
                            && n@ == state.providers@[old(ui)@.provider_selected as int].name@ && u@ == url
                            && i == interval)
                    }
                } else {
                    r is Nothing && final(ui)@ == old(ui)@
                },
                _ => r is Nothing && final(ui)@ == old(ui)@,
            }
        }),
{
    let ghost f = ui@.input_fields;
    assert(ui.input_fields@[0]@ == f[0] && ui.input_fields@[1]@ == f[1] && ui.input_fields@[2]@ == f[2]);
    proof {
        reveal_strlit("http");
    }
    match ui.popup {
        Popup::AddProvider => {
            let name = crate::text::trim(ui.input_fields[0].as_str());
            let url = crate::text::trim(ui.input_fields[1].as_str());
            let interval = match crate::text::parse_u32(ui.input_fields[2].as_str()) {
                Some(n) => n,
                None => 86400,
            };
            if name.as_str().unicode_len() == 0 {
                ui.error_message = Some(owned("订阅名称不能为空"));
                return FormRequest::Invalid;
            }
            if !crate::text::starts_with(url.as_str(), "http") {
                ui.error_message = Some(owned("请输入有效的 URL"));
                return FormRequest::Invalid;
            }
            FormRequest::Add { name, url, interval }
        },
        Popup::EditProvider => {
            if ui.provider_selected < state.providers.len() {
                let name = state.providers[ui.provider_selected].name.clone();
                let url = crate::text::trim(ui.input_fields[1].as_str());
                let interval = match crate::text::parse_u32(ui.input_fields[2].as_str()) {
                    Some(n) => n,
                    None => 86400,
                };
                if !crate::text::starts_with(url.as_str(), "http") {
                    ui.error_message = Some(owned("请输入有效的 URL"));
                    return FormRequest::Invalid;
                }
                FormRequest::Update { name, url, interval }
            } else {
                FormRequest::Nothing
            }
        },
        _ => FormRequest::Nothing,
    }
}

// ---------------------------------------------------------------- local configuration

/// `r` is the running configuration shown for file configuration `c`
/// before the core reports its own: the file's ports, its mode (`rule`
/// when unset), LAN access (off when unset), bind address and log level
/// (empty when unset), and no TUN settings.
pub open spec fn is_runtime_of(r: Config, c: ClashConfig) -> bool {
    &&& r.port == c.port
    &&& r.socks_port == c.socks_port
    &&& r.redir_port == c.redir_port
    &&& r.tproxy_port == c.tproxy_port
    &&& r.mixed_port == c.mixed_port
    &&& r.tun is None
    &&& r.mode@ == match c.mode {
        Some(m) => m@,
        None => "rule"@,
    }
    &&& r.allow_lan == match c.allow_lan {
        Some(b) => b,
        None => false,
    }
    &&& r.bind_address@ == match c.bind_address {
        Some(b) => b@,
        None => Seq::empty(),
    }
    &&& r.log_level@ == match c.log_level {
        Some(l) => l@,
        None => Seq::empty(),
    }
}

/// The running configuration shown before the core reports its own (see
/// `is_runtime_of`).
pub fn local_config_to_runtime_config(config: &ClashConfig) -> (r: Config)
    ensures
        is_runtime_of(r, *config),
{
    Config {
        port: config.port,
        socks_port: config.socks_port,
        redir_port: config.redir_port,
        tproxy_port: config.tproxy_port,
        mixed_port: config.mixed_port,
        tun: None,
        mode: match &config.mode {
            Some(m) => m.clone(),
            None => owned("rule"),
        },
        log_level: match &config.log_level {
            Some(l) => l.clone(),
            None => String::new(),
        },
        allow_lan: match config.allow_lan {
            Some(b) => b,
            None => false,
        },
        bind_address: match &config.bind_address {
            Some(b) => b.clone(),
            None => String::new(),
        },
    }
}

/// Shows the local configuration: the control address and file, and,
/// when the file could be read, its settings as the proxy configuration
/// (and as the running one until the core reports its own).
pub fn load_local_config_info(state: &mut AppState, api_url: String, config_path: String, config: Option<&ClashConfig>)
    ensures
        final(state).api_url == api_url,
        final(state).config_path == config_path,
        match config {
            Some(c) => (final(state).proxy_config matches Some(p) && is_runtime_of(p, *c)) && (old(
                state,
            ).config is Some ==> final(state).config == old(state).config) && (old(state).config is None
                ==> (final(state).config matches Some(q) && is_runtime_of(q, *c))),
            None => final(state).proxy_config == old(state).proxy_config && final(state).config == old(state).config,
        },
        *final(state) == (AppState {
            api_url: final(state).api_url,
            config_path: final(state).config_path,
            proxy_config: final(state).proxy_config,
            config: final(state).config,
            ..*old(state)
        }),
{
    state.api_url = api_url;
    state.config_path = config_path;
    match config {
        Some(c) => {
            state.proxy_config = Some(local_config_to_runtime_config(c));
            if state.config.is_none() {
                state.config = Some(local_config_to_runtime_config(c));
            }
        },
        None => {},
    }
}

/// Holds of the providers not named `name`.
pub open spec fn not_named(name: Seq<char>) -> spec_fn(Provider) -> bool {
    |p: Provider| p.name@ != name
}

/// The interface after subscription `name` was deleted: it leaves the
/// list, the flags close, the selection stays within the list, the core's
/// reload error (if any) is shown, and the popup closes.
pub fn after_provider_deleted(state: &mut AppState, ui: &mut UiState, name: &str, reload_error: Option<String>)
    ensures
        final(state).providers@ == old(state).providers@.filter(not_named(name@)),
        final(ui)@ == (crate::context::UiView {
            provider_expanded: Seq::new(final(state).providers@.len(), |i: int| false),
            provider_selected: clamped(old(ui)@.provider_selected, final(state).providers@.len()),
            error_message: match reload_error {
                Some(e) => Some("配置已删除但核心重载失败: "@ + e@),
                None => None,
            },
            success_message: Some("订阅 '"@ + name@ + "' 已删除"@),
            popup: PopupView::Hidden,
            ..old(ui)@
        }),
        *final(state) == (AppState { providers: final(state).providers, ..*old(state) }),
{
    let ghost before = state.providers@;
    let mut list: Vec<Provider> = Vec::new();
    std::mem::swap(&mut list, &mut state.providers);
    let mut kept: Vec<Provider> = Vec::new();
    let ghost keep = not_named(name@);
    assert(before.subrange(0, 0).filter(keep) =~= Seq::<Provider>::empty());
    assert(before.subrange(0, before.len() as int) =~= before);
    while list.len() > 0
        invariant
            list@.len() <= before.len(),
            list@ == before.subrange(before.len() - list@.len(), before.len() as int),
            kept@ == before.subrange(0, before.len() - list@.len()).filter(keep),
            keep == not_named(name@),
        decreases list@.len(),
    {
        let ghost done = before.len() - list@.len();
        assert(list@[0] == before[done]);
        let p = list.remove(0);
        proof {
            before.subrange(0, done).lemma_filter_push(before[done], keep);
            assert(before.subrange(0, done + 1) =~= before.subrange(0, done).push(before[done]));
            assert(list@ =~= before.subrange(done + 1, before.len() as int));
        }
        if !str_eq(p.name.as_str(), name) {
            kept.push(p);
        }
    }
    state.providers = kept;
    let len = state.providers.len();
    ui.provider_expanded = closed_flags(len);
    if len == 0 {
        ui.provider_selected = 0;
    } else if ui.provider_selected >= len {
        ui.provider_selected = len - 1;
    }
    ui.error_message = match reload_error {
        Some(e) => {
            let mut m = owned("配置已删除但核心重载失败: ");
            push_str(&mut m, e.as_str());
            Some(m)
        },
        None => None,
    };
    let mut m = owned("订阅 '");
    push_str(&mut m, name);
    push_str(&mut m, "' 已删除");
    ui.success_message = Some(m);
    ui.popup = Popup::Hidden;
}

/// Fills the edit form of subscription `name` from the configuration: its
/// address, and its interval when it has one (the form keeps its other
/// fields otherwise).
pub fn fill_edit_form(ui: &mut UiState, providers: &Vec<(String, ProviderConfig)>, name: &str)
    requires
        old(ui)@.input_fields.len() >= 3,
        old(ui)@.input_field_index < 3,
        old(ui)@.input_cursor == 0,
    ensures
        match crate::config::index_of_key(crate::config::table_view(providers@), name@) {
            Some(i) => {
                let pv = crate::config::table_view(providers@)[i].1;
                final(ui)@ == (crate::context::UiView {
                    input_fields: old(ui)@.input_fields.update(1, pv.url).update(
                        2,
                        match pv.interval {
                            Some(n) => crate::text::decimal(n as nat),
                            None => old(ui)@.input_fields[2],
                        },
                    ),
                    ..old(ui)@
                })
            },
            None => final(ui)@ == old(ui)@,
        },
        old(ui)@.wf() ==> final(ui)@.wf(),
{
    match crate::config::find_provider(providers, name) {
        Some(i) => {
            let ghost before = ui@.input_fields;
            ui.input_fields.set(1, providers[i].1.url.clone());
            match providers[i].1.interval {
                Some(n) => {
                    ui.input_fields.set(2, crate::text::u64_to_string(n as u64));
                },
                None => {},
            }
            assert(views_of(ui.input_fields@) =~= before.update(1, crate::config::table_view(providers@)[i as int].1.url).update(
                2,
                match crate::config::table_view(providers@)[i as int].1.interval {
                    Some(n) => crate::text::decimal(n as nat),
                    None => before[2],
                },
            ));
        },
        None => {},
    }
}

// ---------------------------------------------------------------- after a command

/// The group and node the node picker points at: member `selected` of the
/// first group named `proxy_name`.
pub open spec fn picked_node(state: AppState, proxy_name: Seq<char>, selected: usize) -> Option<(Seq<char>, Seq<char>)> {
    match first_named(state.proxies@, proxy_name) {
        Some(i) => match state.proxies@[i].all {
            Some(a) => if selected < a@.len() {
                Some((state.proxies@[i].name@, a@[selected as int]@))
            } else {
                None
            },
            None => None,
        },
        None => None,
    }
}

/// The outside work the dashboard starts after a command, once the
/// executor has applied it.
pub enum FollowUp {
    Nothing,
    StartRefresh,
    CycleMode,
    DeleteSelectedProvider,
    /// Switch the group to the node, then tell the core.
    SwitchNode(String, String),
    SubmitForm,
    /// Move the selected group's node by this many places.
    StepProxy(isize),
    SpeedTestSelected,
    SpeedTestAll,
    UpdateSelectedProvider,
    UpdateAllProviders,
    HealthCheckSelectedProvider,
}

/// The interface with the search line closed and emptied.
pub open spec fn search_closed(u: UiView) -> UiView {
    UiView { search_active: false, search_query: Seq::empty(), ..u }
}

/// What the dashboard does after the executor has applied `cmd`: the few
/// changes of the interface that belong to the dashboard (a refresh is
/// announced, the search line opens or closes, the node picker closes),
/// and the outside work to start.
pub fn follow_up(state: &AppState, ui: &mut UiState, cmd: Command) -> (r: FollowUp)
    ensures
        match cmd {
            Command::Refresh => r is StartRefresh && final(ui)@ == (UiView {
                success_message: Some("正在刷新"@),
                ..old(ui)@
            }),
            Command::CycleMode => r is CycleMode && final(ui)@ == old(ui)@,
            Command::ToggleSearch => r is Nothing && final(ui)@ == (UiView {
                search_active: true,
                search_query: Seq::empty(),
                ..old(ui)@
            }),
            Command::Confirm => match old(ui)@.popup {
                PopupView::DeleteConfirm => r is DeleteSelectedProvider && final(ui)@ == old(ui)@,
                PopupView::ProxyNodes { proxy_name, selected } => final(ui)@ == (UiView {
                    popup: PopupView::Hidden,
                    ..old(ui)@
                }) && match picked_node(*state, proxy_name, selected) {
                    Some((g, n)) => r matches FollowUp::SwitchNode(g2, n2) && g2@ == g && n2@ == n,
                    None => r is Nothing,
                },
                _ => r is Nothing && final(ui)@ == old(ui)@,
            },
            Command::Cancel => r is Nothing && final(ui)@ == search_closed(
                UiView { popup: PopupView::Hidden, ..old(ui)@ },
            ),
            Command::FormSubmit => r is SubmitForm && final(ui)@ == old(ui)@,
            Command::SearchCancel => r is Nothing && final(ui)@ == search_closed(old(ui)@),
            Command::ProxyPrev => (r matches FollowUp::StepProxy(d) && d == -1) && final(ui)@ == old(ui)@,
            Command::ProxyNext => (r matches FollowUp::StepProxy(d) && d == 1) && final(ui)@ == old(ui)@,
            Command::ProxySpeedTest => r is SpeedTestSelected && final(ui)@ == old(ui)@,
            Command::ProxySpeedTestAll => r is SpeedTestAll && final(ui)@ == old(ui)@,
            Command::ProviderUpdate => r is UpdateSelectedProvider && final(ui)@ == old(ui)@,
            Command::ProviderUpdateAll => r is UpdateAllProviders && final(ui)@ == old(ui)@,
            Command::ProviderHealthCheck => r is HealthCheckSelectedProvider && final(ui)@ == old(ui)@,
            _ => r is Nothing && final(ui)@ == old(ui)@,
        },
{
    match cmd {
        Command::Refresh => {
            ui.success_message = Some(owned("正在刷新"));
            FollowUp::StartRefresh
        },
        Command::CycleMode => FollowUp::CycleMode,
        Command::ToggleSearch => {
            ui.search_active = true;
            ui.search_query = String::new();
            FollowUp::Nothing
        },
        Command::Confirm => {
            let choice = match &ui.popup {
                Popup::DeleteConfirm => {
                    return FollowUp::DeleteSelectedProvider;
                },
                Popup::ProxyNodes { proxy_name, selected } => chosen_node(state, proxy_name.as_str(), *selected),
                _ => {
                    return FollowUp::Nothing;
                },
            };
            ui.popup = Popup::Hidden;
            match choice {
                Some((g, n)) => FollowUp::SwitchNode(g, n),
                None => FollowUp::Nothing,
            }
        },
        Command::Cancel => {
            ui.popup = Popup::Hidden;
            ui.search_active = false;
            ui.search_query = String::new();
            FollowUp::Nothing
        },
        Command::FormSubmit => FollowUp::SubmitForm,
        Command::SearchCancel => {
            ui.search_active = false;
            ui.search_query = String::new();
            FollowUp::Nothing
        },
        Command::ProxyPrev => FollowUp::StepProxy(-1),
        Command::ProxyNext => FollowUp::StepProxy(1),
        Command::ProxySpeedTest => FollowUp::SpeedTestSelected,
        Command::ProxySpeedTestAll => FollowUp::SpeedTestAll,
        Command::ProviderUpdate => FollowUp::UpdateSelectedProvider,
        Command::ProviderUpdateAll => FollowUp::UpdateAllProviders,
        Command::ProviderHealthCheck => FollowUp::HealthCheckSelectedProvider,
        _ => FollowUp::Nothing,
    }
}

// ---------------------------------------------------------------- outcomes

/// What an outside step of the dashboard came to; each is shown as a
/// message. Names are subscription names; the other texts are the outside
/// errors.
pub enum Outcome {
    RepairFailed(String),
    CacheRepairFailed(String),
    Connected,
    ReloadFailedOnConnect(String),
    RepairedAndReloaded,
    CoreNotRunning,
    AddFailed(String),
    SavedReloadFailed(String),
    Saved(String),
    EditFailed(String),
    EditedReloadFailed(String),
    Edited(String),
    DeleteFailed(String),
    NothingToUpdate,
    UpdateQueued(String),
    UpdateDone(String),
    UpdateFailed(String, String),
    AllUpdatesQueued,
    AllUpdatesDone,
    NothingToCheck,
    CheckStarted(String),
    CheckFailed(String, String),
}

/// `'name'` after `订阅 `.
pub open spec fn sub_named(name: Seq<char>) -> Seq<char> {
    "订阅 '"@ + name + "'"@
}

/// The interface once `o` is reported: the message it shows, and for the
/// end of a form, the form closed.
pub open spec fn reported(u: UiView, o: Outcome) -> UiView {
    match o {
        Outcome::RepairFailed(e) => UiView { error_message: Some("配置自动修复失败: "@ + e@), ..u },
        Outcome::CacheRepairFailed(e) => UiView { error_message: Some("订阅缓存自动修复失败: "@ + e@), ..u },
        Outcome::Connected => UiView { success_message: Some("已连接到 Clash/Mihomo"@), ..u },
        Outcome::ReloadFailedOnConnect(e) => UiView {
            error_message: Some("核心已连接但配置重载失败: "@ + e@),
            ..u
        },
        Outcome::RepairedAndReloaded => UiView { success_message: Some("配置已自动修复并重载"@), ..u },
        Outcome::CoreNotRunning => UiView { error_message: Some("未检测到运行中的 Clash/Mihomo 核心"@), ..u },
        Outcome::AddFailed(e) => UiView { error_message: Some("添加失败: "@ + e@), ..u },
        Outcome::SavedReloadFailed(e) => UiView {
            error_message: Some("配置已保存但核心重载失败: "@ + e@),
            popup: PopupView::Hidden,
            ..u
        },
        Outcome::Saved(n) => UiView {
            success_message: Some(sub_named(n@) + " 已保存，正在更新"@),
            popup: PopupView::Hidden,
            ..u
        },
        Outcome::EditFailed(e) => UiView { error_message: Some("更新失败: "@ + e@), ..u },
        Outcome::EditedReloadFailed(e) => UiView {
            error_message: Some("配置已更新但核心重载失败: "@ + e@),
            popup: PopupView::Hidden,
            ..u
        },
        Outcome::Edited(n) => UiView {
            success_message: Some(sub_named(n@) + " 更新成功"@),
            popup: PopupView::Hidden,
            ..u
        },
        Outcome::DeleteFailed(e) => UiView { error_message: Some("删除失败: "@ + e@), ..u },
        Outcome::NothingToUpdate => UiView { error_message: Some("没有可更新的订阅"@), ..u },
        Outcome::UpdateQueued(n) => UiView { success_message: Some(sub_named(n@) + " 正在更新"@), ..u },
        Outcome::UpdateDone(n) => UiView { success_message: Some(sub_named(n@) + " 更新完成"@), ..u },
        Outcome::UpdateFailed(n, e) => UiView {
            error_message: Some(sub_named(n@) + " 更新失败: "@ + e@),
            ..u
        },
        Outcome::AllUpdatesQueued => UiView { success_message: Some("所有订阅正在更新"@), ..u },
        Outcome::AllUpdatesDone => UiView { success_message: Some("所有订阅更新完成"@), ..u },
        Outcome::NothingToCheck => UiView { error_message: Some("没有可检查的订阅"@), ..u },
        Outcome::CheckStarted(n) => UiView {
            success_message: Some(sub_named(n@) + " 健康检查已开始"@),
            ..u
        },
        Outcome::CheckFailed(n, e) => UiView {
            error_message: Some(sub_named(n@) + " 健康检查失败: "@ + e@),
            ..u
        },
    }
}

fn sub_named_text(name: &str) -> (r: String)
    ensures
        r@ == sub_named(name@),
{
    let mut r = owned("订阅 '");
    push_str(&mut r, name);
    push_str(&mut r, "'");
    r
}

fn joined(a: &str, b: &str) -> (r: String)
    ensures
        r@ == a@ + b@,
{
    let mut r = owned(a);
    push_str(&mut r, b);
    r
}

fn named_joined(name: &str, rest: &str) -> (r: String)
    ensures
        r@ == sub_named(name@) + rest@,
{
    let mut r = sub_named_text(name);
    push_str(&mut r, rest);
    r
}

/// Shows what an outside step came to.
pub fn report(ui: &mut UiState, o: Outcome)
    ensures
        final(ui)@ == reported(old(ui)@, o),
{
    match o {
        Outcome::RepairFailed(e) => ui.error_message = Some(joined("配置自动修复失败: ", e.as_str())),
        Outcome::CacheRepairFailed(e) => ui.error_message = Some(joined("订阅缓存自动修复失败: ", e.as_str())),
        Outcome::Connected => ui.success_message = Some(owned("已连接到 Clash/Mihomo")),
        Outcome::ReloadFailedOnConnect(e) => ui.error_message = Some(
            joined("核心已连接但配置重载失败: ", e.as_str()),
        ),
        Outcome::RepairedAndReloaded => ui.success_message = Some(owned("配置已自动修复并重载")),
        Outcome::CoreNotRunning => ui.error_message = Some(owned("未检测到运行中的 Clash/Mihomo 核心")),
        Outcome::AddFailed(e) => ui.error_message = Some(joined("添加失败: ", e.as_str())),
        Outcome::SavedReloadFailed(e) => {
            ui.error_message = Some(joined("配置已保存但核心重载失败: ", e.as_str()));
            ui.popup = Popup::Hidden;
        },
        Outcome::Saved(n) => {
            ui.success_message = Some(named_joined(n.as_str(), " 已保存，正在更新"));
            ui.popup = Popup::Hidden;
        },
        Outcome::EditFailed(e) => ui.error_message = Some(joined("更新失败: ", e.as_str())),
        Outcome::EditedReloadFailed(e) => {
            ui.error_message = Some(joined("配置已更新但核心重载失败: ", e.as_str()));
            ui.popup = Popup::Hidden;
        },
        Outcome::Edited(n) => {
            ui.success_message = Some(named_joined(n.as_str(), " 更新成功"));
            ui.popup = Popup::Hidden;
        },
        Outcome::DeleteFailed(e) => ui.error_message = Some(joined("删除失败: ", e.as_str())),
        Outcome::NothingToUpdate => ui.error_message = Some(owned("没有可更新的订阅")),
        Outcome::UpdateQueued(n) => ui.success_message = Some(named_joined(n.as_str(), " 正在更新")),
        Outcome::UpdateDone(n) => ui.success_message = Some(named_joined(n.as_str(), " 更新完成")),
        Outcome::UpdateFailed(n, e) => {
            let mut m = named_joined(n.as_str(), " 更新失败: ");
            push_str(&mut m, e.as_str());
            ui.error_message = Some(m);
        },
        Outcome::AllUpdatesQueued => ui.success_message = Some(owned("所有订阅正在更新")),
        Outcome::AllUpdatesDone => ui.success_message = Some(owned("所有订阅更新完成")),
        Outcome::NothingToCheck => ui.error_message = Some(owned("没有可检查的订阅")),
        Outcome::CheckStarted(n) => ui.success_message = Some(named_joined(n.as_str(), " 健康检查已开始")),
        Outcome::CheckFailed(n, e) => {
            let mut m = named_joined(n.as_str(), " 健康检查失败: ");
            push_str(&mut m, e.as_str());
            ui.error_message = Some(m);
        },
    }
}

/// The name of the selected subscription, if one is selected.
pub fn selected_provider(state: &AppState, ui: &UiState) -> (r: Option<String>)
    ensures
        match r {
            Some(n) => ui.provider_selected < state.providers@.len() && n@
                == state.providers@[ui.provider_selected as int].name@,
            None => ui.provider_selected >= state.providers@.len(),
        },
{
    if ui.provider_selected < state.providers.len() {
        Some(state.providers[ui.provider_selected].name.clone())
    } else {
        None
    }
}

/// The names of all proxy groups, in order.
pub open spec fn group_names(ps: Seq<Proxy>) -> Seq<Seq<char>> {
    Seq::new(ps.len(), |i: int| ps[i].name@)
}

/// `names` added to a set of names, in order.
pub open spec fn names_added(v: Seq<Seq<char>>, names: Seq<Seq<char>>) -> Seq<Seq<char>>
    decreases names.len(),
{
    if names.len() == 0 {
        v
    } else {
        name_added(names_added(v, names.drop_last()), names.last())
    }
}

/// Starts speed tests: of every group when `all`, else of the selected
/// one. Returns the groups to test, marked as being tested and announced;
/// with none to test, an error is shown and nothing is returned.
pub fn begin_speed_tests(state: &AppState, ui: &mut UiState, all: bool) -> (r: Vec<String>)
    ensures
        ({
            let targets = if all {
                group_names(state.proxies@)
            } else if old(ui)@.proxy_selected < state.proxies@.len() {
                seq![state.proxies@[old(ui)@.proxy_selected as int].name@]
            } else {
                Seq::empty()
            };
            &&& views_of(r@) == targets
            &&& final(ui)@ == if targets.len() == 0 {
                UiView { error_message: Some("没有可测速的代理组"@), ..old(ui)@ }
            } else {
                UiView {
                    testing_proxies: names_added(old(ui)@.testing_proxies, targets),
                    success_message: Some(
                        if all {
                            "正在测速 "@ + crate::text::decimal(targets.len()) + " 个代理组"@
                        } else {
                            "正在测速 "@ + targets[0]
                        },
                    ),
                    ..old(ui)@
                }
            }
        }),
{
    let mut names: Vec<String> = Vec::new();
    if all {
        let mut i: usize = 0;
        while i < state.proxies.len()
            invariant
                i <= state.proxies@.len(),
                views_of(names@) == group_names(state.proxies@).take(i as int),
            decreases state.proxies@.len() - i,
        {
            let ghost prev = views_of(names@);
            names.push(state.proxies[i].name.clone());
            assert(views_of(names@) =~= prev.push(state.proxies@[i as int].name@));
            i = i + 1;
            assert(views_of(names@) =~= group_names(state.proxies@).take(i as int));
        }
        assert(group_names(state.proxies@).take(state.proxies@.len() as int) =~= group_names(state.proxies@));
    } else if ui.proxy_selected < state.proxies.len() {
        names.push(state.proxies[ui.proxy_selected].name.clone());
        assert(views_of(names@) =~= seq![state.proxies@[ui.proxy_selected as int].name@]);
    } else {
        assert(views_of(names@) =~= Seq::<Seq<char>>::empty());
    }
    if names.len() == 0 {
        ui.error_message = Some(owned("没有可测速的代理组"));
        return names;
    }
    let ghost start = ui@;
    let mut j: usize = 0;
    while j < names.len()
        invariant
            j <= names@.len(),
            ui@ == (UiView { testing_proxies: names_added(start.testing_proxies, views_of(names@).take(j as int)), ..start }),
        decreases names@.len() - j,
    {
        assert(views_of(names@).take(j + 1).drop_last() =~= views_of(names@).take(j as int));
        insert_name(&mut ui.testing_proxies, names[j].as_str());
        j = j + 1;
    }
    assert(views_of(names@).take(names@.len() as int) =~= views_of(names@));
    if all {
        let mut m = owned("正在测速 ");
        crate::text::write_decimal(&mut m, names.len() as u64);
        push_str(&mut m, " 个代理组");
        ui.success_message = Some(m);
    } else {
        ui.success_message = Some(joined("正在测速 ", names[0].as_str()));
    }
    names
}

/// The log line for `count` subscription caches repaired at clock time
/// `clock`.
pub open spec fn caches_repaired_line(count: usize, clock: Seq<char>) -> Seq<char> {
    "["@ + clock + "] 已修复 "@ + crate::text::decimal(count as nat) + " 个订阅缓存"@
}

/// Logs, at clock time `clock`, that `count` subscription caches were
/// repaired.
pub fn note_caches_repaired_at(state: &mut AppState, count: usize, clock: &str)
    ensures
        views_of(final(state).logs@) == logged(views_of(old(state).logs@), caches_repaired_line(count, clock@)),
        *final(state) == (AppState { logs: final(state).logs, ..*old(state) }),
{
    let mut line = owned("[");
    push_str(&mut line, clock);
    push_str(&mut line, "] 已修复 ");
    crate::text::write_decimal(&mut line, count as u64);
    push_str(&mut line, " 个订阅缓存");
    add_log(state, line.as_str());
}

/// Logs, at the current local time, that `count` subscription caches
/// were repaired.
pub fn note_caches_repaired(state: &mut AppState, count: usize)
    ensures
        exists|clock: Seq<char>|
            views_of(final(state).logs@) == logged(views_of(old(state).logs@), caches_repaired_line(count, clock)),
        *final(state) == (AppState { logs: final(state).logs, ..*old(state) }),
{
    let clock = crate::clock::local_clock_now();
    note_caches_repaired_at(state, count, clock.as_str());
}

/// The path of the cache file that goes with subscription `name`: the
/// path the configuration gives it, else the one the core reported.
pub open spec fn cache_path_of(
    configured: Seq<(Seq<char>, crate::config::ProviderView)>,
    reported: Option<Seq<char>>,
    name: Seq<char>,
) -> Option<Seq<char>> {
    match lookup(configured, name) {
        Some(pv) => match pv.path {
            Some(p) => Some(p),
            None => reported,
        },
        None => reported,
    }
}

/// The cache file to remove with subscription `name`, resolved against
/// the configuration's directory (see `cache_path_of`).
pub fn cache_file_to_remove(
    manager: &ConfigManager,
    configured: &Vec<(String, ProviderConfig)>,
    reported: &Option<String>,
    name: &str,
) -> (r: Option<String>)
    ensures
        match cache_path_of(table_view(configured@), opt_view(*reported), name@) {
            Some(p) => r matches Some(f) && f@ == resolved_path(manager.config_path@, p),
            None => r is None,
        },
{
    let chosen: Option<&String> = match find_provider(configured, name) {
        Some(i) => match &configured[i].1.path {
            Some(p) => Some(p),
            None => match reported {
                Some(p) => Some(p),
                None => None,
            },
        },
        None => match reported {
            Some(p) => Some(p),
            None => None,
        },
    };
    match chosen {
        Some(p) => Some(manager.resolve_provider_path(p.as_str())),
        None => None,
    }
}

/// The interface once a refresh has been applied at time `now`: the time
/// is kept, and the refresh notice, if it is still shown, goes away.
pub fn finish_refresh(ui: &mut UiState, now: u64)
    ensures
        final(ui)@ == (UiView {
            last_refresh_at: Some(now),
            success_message: if old(ui)@.success_message == Some("正在刷新"@) {
                None
            } else {
                old(ui)@.success_message
            },
            ..old(ui)@
        }),
{
    ui.last_refresh_at = Some(now);
    let notice = match &ui.success_message {
        Some(m) => str_eq(m.as_str(), "正在刷新"),
        None => false,
    };
    if notice {
        ui.success_message = None;
    }
}

} // verus!
