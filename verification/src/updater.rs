//! The decisions of a subscription update: what to download for a
//! subscription, and whether the core has loaded it after a reload.
//! Downloading, writing the cache and asking the core are done by the
//! caller, which hands the outcomes back here.

use vstd::prelude::*;
use vstd::string::*;
use crate::config::{index_of_key, table_view, ProviderConfig};
use crate::scheduler::MS_PER_SEC;
use crate::subscription::comma_joined;
use crate::text::{decimal, owned, push_str, str_eq, views_of, write_decimal};

verus! {

/// The update schedule of one subscription, as the updater keeps it.
/// Instants and durations are milliseconds on a monotonic clock.
#[derive(Debug)]
pub struct UpdateTask {
    pub name: String,
    pub url: String,
    pub interval: u64,
    pub last_update: Option<u64>,
    pub next_update: u64,
    pub is_updating: bool,
    pub last_error: Option<String>,
}

impl UpdateTask {
    /// A task for subscription `name`, first due one interval after `now`.
    pub fn new(name: String, url: String, interval_secs: u64, now: u64) -> (r: UpdateTask)
        requires
            now + interval_secs * MS_PER_SEC <= u64::MAX,
        ensures
            r.name@ == name@,
            r.url@ == url@,
            r.interval == interval_secs * MS_PER_SEC,
            r.last_update is None,
            r.next_update == now + interval_secs * MS_PER_SEC,
            !r.is_updating,
            r.last_error is None,
    {
        assert(interval_secs * MS_PER_SEC <= u64::MAX) by (nonlinear_arith)
            requires
                now + interval_secs * MS_PER_SEC <= u64::MAX,
        ;
        let interval = interval_secs * MS_PER_SEC;
        UpdateTask {
            name,
            url,
            interval,
            last_update: None,
            next_update: now + interval,
            is_updating: false,
            last_error: None,
        }
    }

    /// Whether the task is due at `now`: not running, and its time has
    /// come.
    pub fn should_update(&self, now: u64) -> (r: bool)
        ensures
            r == (!self.is_updating && now >= self.next_update),
    {
        !self.is_updating && now >= self.next_update
    }
}

/// What the updater reports while it works.
#[derive(Debug)]
pub enum UpdateEvent {
    /// An update of the named subscription started.
    Started(String),
    /// An update finished: name, whether it succeeded, its error.
    Completed(String, bool, Option<String>),
    /// A step of an update: name, message.
    Progress(String, String),
}

/// Why an update could not start.
#[derive(Debug)]
pub enum UpdateError {
    /// No subscription of that name in the configuration.
    NotFound(String),
    /// The subscription names no cache file.
    MissingPath(String),
}

impl UpdateError {
    /// The message reported for the error.
    pub fn message(&self) -> (r: String)
        ensures
            r@ == match self {
                UpdateError::NotFound(n) => "provider '"@ + n@ + "' not found in config"@,
                UpdateError::MissingPath(n) => "provider '"@ + n@ + "' missing path"@,
            },
    {
        match self {
            UpdateError::NotFound(n) => {
                let mut r = owned("provider '");
                push_str(&mut r, n.as_str());
                push_str(&mut r, "' not found in config");
                r
            },
            UpdateError::MissingPath(n) => {
                let mut r = owned("provider '");
                push_str(&mut r, n.as_str());
                push_str(&mut r, "' missing path");
                r
            },
        }
    }
}

/// What an update of `name` downloads and where it keeps it: the address
/// and cache path of the subscription, when it has both.
pub fn update_target(providers: &Vec<(String, ProviderConfig)>, name: &str) -> (r: Result<(String, String), UpdateError>)
    ensures
        match index_of_key(table_view(providers@), name@) {
            Some(i) => match table_view(providers@)[i].1.path {
                Some(p) => r matches Ok((u, q)) && u@ == table_view(providers@)[i].1.url && q@ == p,
                None => r matches Err(UpdateError::MissingPath(n)) && n@ == name@,
            },
            None => r matches Err(UpdateError::NotFound(n)) && n@ == name@,
        },
{
    match crate::config::find_provider(providers, name) {
        Some(i) => match &providers[i].1.path {
            Some(p) => Ok((providers[i].1.url.clone(), p.clone())),
            None => Err(UpdateError::MissingPath(owned(name))),
        },
        None => Err(UpdateError::NotFound(owned(name))),
    }
}

/// A path as shown to the user.
pub fn display_path(path: &str) -> (r: String)
    ensures
        r@ == path@,
{
    owned(path)
}

/// What one look at the core's subscriptions found.
#[derive(Debug)]
pub enum LoadCheck {
    /// The subscription is loaded with this many proxies.
    Loaded(usize),
    /// Not yet; what was seen instead.
    Waiting(String),
}

/// The proxy count the core reports for `name`, if it lists it.
pub open spec fn reported_count(counts: Seq<(Seq<char>, usize)>, name: Seq<char>) -> Option<usize> {
    match index_of_key(counts, name) {
        Some(i) => Some(counts[i].1),
        None => None,
    }
}

/// The names the core listed, joined by commas.
pub open spec fn listed_names(counts: Seq<(Seq<char>, usize)>) -> Seq<char> {
    comma_joined(counts.map_values(|e: (Seq<char>, usize)| e.0))
}

/// Judges one answer of the core (subscription names with their proxy
/// counts, or the error of asking): loaded when `name` has proxies, else
/// a description of what was seen.
pub fn check_loaded(counts: Result<Vec<(String, usize)>, String>, name: &str) -> (r: LoadCheck)
    ensures
        match counts {
            Ok(c) => {
                let cv = c@.map_values(|e: (String, usize)| (e.0@, e.1));
                match reported_count(cv, name@) {
                    Some(n) => if n > 0 {
                        r matches LoadCheck::Loaded(k) && k == n
                    } else {
                        r matches LoadCheck::Waiting(m) && m@ == "核心已看到订阅 '"@ + name@ + "'，但节点数为 0"@
                    },
                    None => r matches LoadCheck::Waiting(m) && m@ == if listed_names(cv).len() == 0 {
                        "核心返回的订阅列表为空"@
                    } else {
                        "核心当前订阅："@ + listed_names(cv)
                    },
                }
            },
            Err(e) => r matches LoadCheck::Waiting(m) && m@ == "查询核心订阅失败："@ + e@,
        },
{
    match counts {
        Ok(c) => {
            let ghost cv = c@.map_values(|e: (String, usize)| (e.0@, e.1));
            proof {
                crate::config::lemma_index_of_key(cv, name@);
            }
            let mut names: Vec<String> = Vec::new();
            let mut found: Option<usize> = None;
            let mut i: usize = 0;
            while i < c.len()
                invariant
                    i <= c@.len(),
                    cv == c@.map_values(|e: (String, usize)| (e.0@, e.1)),
                    names@.len() == i,
                    forall|j: int| 0 <= j < i ==> names@[j]@ == c@[j].0@,
                    match found {
                        Some(k) => index_of_key(cv, name@) == Some(k as int) && k < i,
                        None => forall|j: int| 0 <= j < i ==> cv[j].0 != name@,
                    },
                decreases c@.len() - i,
            {
                if found.is_none() && str_eq(c[i].0.as_str(), name) {
                    found = Some(i);
                    proof {
                        assert(cv[i as int].0 == c@[i as int].0@);
                        crate::config_laws::lemma_index_of_key_first(cv, name@, i as int);
                    }
                }
                names.push(c[i].0.clone());
                i = i + 1;
            }
            assert(views_of(names@) =~= cv.map_values(|e: (Seq<char>, usize)| e.0));
            match found {
                Some(k) => {
                    let n = c[k].1;
                    if n > 0 {
                        LoadCheck::Loaded(n)
                    } else {
                        let mut m = owned("核心已看到订阅 '");
                        push_str(&mut m, name);
                        push_str(&mut m, "'，但节点数为 0");
                        LoadCheck::Waiting(m)
                    }
                },
                None => {
                    proof {
                        if let Some(j) = index_of_key(cv, name@) {
                            assert(cv[j].0 == name@);
                        }
                    }
                    let joined = crate::subscription::join_with_commas(&names);
                    if joined.as_str().unicode_len() == 0 {
                        LoadCheck::Waiting(owned("核心返回的订阅列表为空"))
                    } else {
                        let mut m = owned("核心当前订阅：");
                        push_str(&mut m, joined.as_str());
                        LoadCheck::Waiting(m)
                    }
                },
            }
        },
        Err(e) => {
            let mut m = owned("查询核心订阅失败：");
            push_str(&mut m, e.as_str());
            LoadCheck::Waiting(m)
        },
    }
}

/// The error of an update whose subscription never became usable.
pub fn not_usable_message(name: &str, last_seen: &str) -> (r: String)
    ensures
        r@ == "provider '"@ + name@ + "' was not usable after reload: "@ + last_seen@,
{
    let mut r = owned("provider '");
    push_str(&mut r, name);
    push_str(&mut r, "' was not usable after reload: ");
    push_str(&mut r, last_seen);
    r
}

/// How many times the core is asked whether it loaded a subscription.
pub const LOAD_POLLS: u32 = 10;

/// The pause after each ask that did not find it loaded, in milliseconds.
pub const LOAD_POLL_PAUSE_MS: u64 = 500;

/// What to do after one ask of the core.
#[derive(Debug)]
pub enum LoadPoll {
    /// The subscription is loaded with this many proxies.
    Ready(usize),
    /// Pause this many milliseconds, then ask again.
    AskAgain(u64),
    /// Pause this many milliseconds, then fail with this message.
    GiveUp(u64, String),
}

/// Decides, after the `asked`-th ask of the core about subscription
/// `name` found `check`, whether the update is done, asks again after a
/// pause, or gives up after the last ask with what was last seen.
pub fn after_load_check(asked: u32, check: LoadCheck, name: &str) -> (r: LoadPoll)
    requires
        1 <= asked <= LOAD_POLLS,
    ensures
        match check {
            LoadCheck::Loaded(n) => r matches LoadPoll::Ready(k) && k == n,
            LoadCheck::Waiting(seen) => if asked < LOAD_POLLS {
                r matches LoadPoll::AskAgain(p) && p == LOAD_POLL_PAUSE_MS
            } else {
                r matches LoadPoll::GiveUp(p, m) && p == LOAD_POLL_PAUSE_MS && m@
                    == "provider '"@ + name@ + "' was not usable after reload: "@ + seen@
            },
        },
{
    match check {
        LoadCheck::Loaded(n) => LoadPoll::Ready(n),
        LoadCheck::Waiting(seen) => {
            if asked < LOAD_POLLS {
                LoadPoll::AskAgain(LOAD_POLL_PAUSE_MS)
            } else {
                LoadPoll::GiveUp(LOAD_POLL_PAUSE_MS, not_usable_message(name, seen.as_str()))
            }
        },
    }
}

/// The progress message after the core loaded `count` proxies.
pub fn verified_message(count: usize) -> (r: String)
    ensures
        r@ == "验证通过：核心已加载 "@ + decimal(count as nat) + " 个节点"@,
{
    let mut r = owned("验证通过：核心已加载 ");
    write_decimal(&mut r, count as u64);
    push_str(&mut r, " 个节点");
    r
}

/// A step of an update, as reported while it runs.
#[derive(Debug)]
pub enum Progress {
    Downloading,
    /// Downloaded this many bytes.
    Downloaded(usize),
    /// Found this many usable proxies.
    Parsed(usize),
    /// Wrote the cache file at this path.
    Cached(String),
    Reloading,
    Reloaded,
}

/// The message of a step of an update.
pub open spec fn progress_text(p: Progress) -> Seq<char> {
    match p {
        Progress::Downloading => "开始下载"@,
        Progress::Downloaded(n) => "下载完成："@ + decimal(n as nat) + " bytes"@,
        Progress::Parsed(n) => "解析完成：发现 "@ + decimal(n as nat) + " 个节点"@,
        Progress::Cached(path) => "已写入缓存："@ + path@,
        Progress::Reloading => "正在重载核心配置"@,
        Progress::Reloaded => "核心配置已重载，正在验证节点"@,
    }
}

/// The message of a step of an update.
pub fn progress_message(p: &Progress) -> (r: String)
    ensures
        r@ == progress_text(*p),
{
    match p {
        Progress::Downloading => owned("开始下载"),
        Progress::Downloaded(n) => {
            let mut r = owned("下载完成：");
            write_decimal(&mut r, *n as u64);
            push_str(&mut r, " bytes");
            r
        },
        Progress::Parsed(n) => {
            let mut r = owned("解析完成：发现 ");
            write_decimal(&mut r, *n as u64);
            push_str(&mut r, " 个节点");
            r
        },
        Progress::Cached(path) => {
            let mut r = owned("已写入缓存：");
            let shown = display_path(path.as_str());
            push_str(&mut r, shown.as_str());
            r
        },
        Progress::Reloading => owned("正在重载核心配置"),
        Progress::Reloaded => owned("核心配置已重载，正在验证节点"),
    }
}

} // verus!
