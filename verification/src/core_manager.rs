//! The proxy core the dashboard runs: its state, where its control API
//! answers, the configuration it starts from, and the decisions made
//! while it starts.

use vstd::prelude::*;
use crate::config::{joined_path, opt_str_view};
use crate::text::{owned, strip_prefix};
use crate::yaml::{
    find_key, key_index, lemma_mapping_view, mapping_view, replace_core, untag, Yaml, YamlView,
};

verus! {

/// How often the dashboard asks whether a starting core answers.
pub const START_ATTEMPTS: u32 = 120;

/// The state of the core.
#[derive(Debug)]
pub enum CoreState {
    Stopped,
    Starting,
    Running,
    Error(String),
}

impl CoreState {
    /// Whether the core runs.
    pub fn is_running(&self) -> (r: bool)
        ensures
            r == (*self is Running),
    {
        match self {
            CoreState::Running => true,
            _ => false,
        }
    }
}

/// The address of the core's control API.
pub fn core_api_url() -> (r: String)
    ensures
        r@ == "http://127.0.0.1:9090"@,
{
    owned("http://127.0.0.1:9090")
}

/// The configuration written when there is none: a mixed port, the
/// control API, rule mode, a `Proxy` group over `DIRECT`, and a direct
/// default route.
pub fn default_config_text() -> (r: String)
    ensures
        r@ == "# clash-rs 默认配置\nmixed-port: 7890\nexternal-controller: 127.0.0.1:9090\nlog-level: info\nmode: rule\n\nproxy-providers: {}\n\nproxy-groups:\n  - name: Proxy\n    type: select\n    proxies:\n      - DIRECT\n\nrules:\n  - MATCH,DIRECT\n"@,
{
    owned(
        "# clash-rs 默认配置\nmixed-port: 7890\nexternal-controller: 127.0.0.1:9090\nlog-level: info\nmode: rule\n\nproxy-providers: {}\n\nproxy-groups:\n  - name: Proxy\n    type: select\n    proxies:\n      - DIRECT\n\nrules:\n  - MATCH,DIRECT\n",
    )
}

/// `m` with string key `k` set to `v`: replaced in place when present,
/// appended otherwise.
pub open spec fn entry_set(m: Seq<(YamlView, YamlView)>, k: Seq<char>, v: YamlView) -> Seq<(YamlView, YamlView)> {
    match key_index(m, k) {
        Some(i) => m.update(i, (m[i].0, v)),
        None => m.push((YamlView::Str(k), v)),
    }
}

/// The configuration with the core's own logging off: a top-level
/// `log-level: off` (through tags), other documents unchanged.
pub open spec fn logging_off(doc: YamlView) -> YamlView {
    match untag(doc) {
        YamlView::Mapping(m) => replace_core(
            doc,
            YamlView::Mapping(entry_set(m, "log-level"@, YamlView::Str("off"@))),
        ),
        _ => doc,
    }
}

/// Turns the core's own logging off in its configuration, so that it does
/// not write over the terminal.
pub fn with_log_off(doc: Yaml) -> (r: Yaml)
    ensures
        r@ == logging_off(doc@),
    decreases doc,
{
    match doc {
        Yaml::Tagged(t, b) => {
            let inner = with_log_off(*b);
            Yaml::Tagged(t, Box::new(inner))
        },
        Yaml::Mapping(m) => {
            proof {
                lemma_mapping_view(m);
            }
            let ghost mv = mapping_view(m@);
            let mut m = m;
            let off = Yaml::Str(owned("off"));
            match find_key(&m, "log-level") {
                Some(i) => {
                    let mut entry = (Yaml::Null, Yaml::Null);
                    m.set_and_swap(i, &mut entry);
                    let (k, _) = entry;
                    m.set(i, (k, off));
                    assert(mapping_view(m@) =~= mv.update(i as int, (mv[i as int].0, YamlView::Str("off"@))));
                },
                None => {
                    m.push((Yaml::Str(owned("log-level")), off));
                    assert(mapping_view(m@) =~= mv.push((YamlView::Str("log-level"@), YamlView::Str("off"@))));
                },
            }
            proof {
                lemma_mapping_view(m);
            }
            Yaml::Mapping(m)
        },
        other => other,
    }
}

/// What a start request does first: nothing when the core already runs
/// (`None`), else the core is starting.
pub fn begin_start(state: &CoreState) -> (r: Option<CoreState>)
    ensures
        match r {
            None => *state is Running,
            Some(s) => !(*state is Running) && s is Starting,
        },
{
    if state.is_running() {
        None
    } else {
        Some(CoreState::Starting)
    }
}

/// What one look at a starting core decides.
#[derive(Debug, Clone, Copy, PartialEq, Eq, Structural)]
pub enum StartPoll {
    /// The API answers: the core runs.
    Ready,
    /// Look again after a pause.
    Wait,
    /// Stop waiting: a shutdown was asked for, or time is up.
    GiveUp,
}

/// Judges look number `attempt` (counting from zero) at a starting core.
pub fn poll_start(attempt: u32, api_ready: bool, shutdown_requested: bool) -> (r: StartPoll)
    ensures
        r == if api_ready {
            StartPoll::Ready
        } else if shutdown_requested || attempt + 1 >= START_ATTEMPTS {
            StartPoll::GiveUp
        } else {
            StartPoll::Wait
        },
{
    if api_ready {
        StartPoll::Ready
    } else if shutdown_requested || attempt >= START_ATTEMPTS - 1 {
        StartPoll::GiveUp
    } else {
        StartPoll::Wait
    }
}

/// The state after a start ended: running when the API answered, else an
/// error saying it timed out.
pub fn start_outcome(ready: bool) -> (r: CoreState)
    ensures
        ready ==> r is Running,
        !ready ==> (r matches CoreState::Error(m) && m@ == "启动超时"@),
{
    if ready {
        CoreState::Running
    } else {
        CoreState::Error(owned("启动超时"))
    }
}

/// `path` with a leading `~/` replaced by the home directory, when there
/// is one.
pub open spec fn tilde_expanded(path: Seq<char>, home: Option<Seq<char>>) -> Seq<char> {
    if path.len() >= 2 && path.subrange(0, 2) == "~/"@ && home is Some {
        joined_path(home->0, path.subrange(2, path.len() as int))
    } else {
        path
    }
}

/// Expands a leading `~/` to the home directory.
pub fn expand_tilde(path: &str, home: Option<&str>) -> (r: String)
    ensures
        r@ == tilde_expanded(path@, opt_str_view(home)),
{
    proof {
        reveal_strlit("~/");
    }
    match strip_prefix(path, "~/") {
        Some(rest) => match home {
            Some(h) => crate::config::join_path(h, rest.as_str()),
            None => owned(path),
        },
        None => owned(path),
    }
}

/// The dashboard's own configuration file, under the user's configuration
/// directory (`config.yaml` when there is none).
pub fn get_default_config_path(config_dir: Option<&str>) -> (r: String)
    ensures
        r@ == crate::config::app_config_path(opt_str_view(config_dir)),
{
    match config_dir {
        Some(d) => {
            let x = crate::config::join_path(d, "clash-tui");
            crate::config::join_path(x.as_str(), "config.yaml")
        },
        None => owned("config.yaml"),
    }
}

} // verus!
