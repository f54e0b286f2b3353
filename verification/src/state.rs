//! Data reported by the core's HTTP API, and the dashboard's copy of it.

use vstd::prelude::*;
use crate::sort::{char_codes, lex_lt, str_lt, SortKey};

verus! {

/// Core version.
#[derive(Debug)]
pub struct Version {
    pub version: String,
    pub premium: bool,
    pub meta: Option<bool>,
}

/// Core memory use in bytes.
#[derive(Debug, Clone, Copy, PartialEq, Eq, Structural)]
pub struct Memory {
    pub inuse: u64,
    pub os_limit: u64,
}

/// One delay measurement of a proxy.
#[derive(Debug)]
pub struct ProxyHistory {
    pub time: String,
    pub delay: u32,
    pub mean_delay: Option<u32>,
}

/// A proxy or proxy group.
#[derive(Debug)]
pub struct Proxy {
    pub name: String,
    pub proxy_type: String,
    pub now: Option<String>,
    pub all: Option<Vec<String>>,
    pub history: Vec<ProxyHistory>,
    pub udp: Option<bool>,
    pub xudp: Option<bool>,
    pub tfo: Option<bool>,
    pub mptcp: Option<bool>,
    pub icon: Option<String>,
}

/// All proxies by name.
#[derive(Debug)]
pub struct ProxiesResponse {
    pub proxies: Vec<(String, Proxy)>,
}

/// Traffic quota of a subscription.
#[derive(Debug, Clone, Copy, PartialEq, Eq, Structural)]
pub struct SubscriptionInfo {
    pub upload: u64,
    pub download: u64,
    pub total: u64,
    pub expire: u64,
}

/// Health-check settings of a provider.
#[derive(Debug)]
pub struct HealthCheck {
    pub enable: bool,
    pub url: String,
    pub interval: u32,
}

/// A proxy provider (subscription) as the core reports it.
#[derive(Debug)]
pub struct Provider {
    pub name: String,
    pub provider_type: String,
    pub vehicle_type: String,
    pub proxies: Vec<Proxy>,
    pub updated_at: Option<String>,
    pub subscription_info: Option<SubscriptionInfo>,
    pub path: Option<String>,
    pub health_check: Option<HealthCheck>,
}

/// Active connections and totals.
#[derive(Debug)]
pub struct ConnectionsResponse {
    pub download_total: u64,
    pub upload_total: u64,
    pub connections: Vec<Connection>,
    pub memory: Option<u64>,
}

/// One active connection.
#[derive(Debug)]
pub struct Connection {
    pub id: String,
    pub metadata: ConnectionMetadata,
    pub upload: u64,
    pub download: u64,
    pub start: String,
    pub chains: Vec<String>,
    pub rule: String,
    pub rule_payload: String,
    pub process_path: Option<String>,
    pub process: Option<String>,
    pub source_port: Option<String>,
}

/// Where a connection comes from and goes to.
#[derive(Debug)]
pub struct ConnectionMetadata {
    pub network: String,
    pub conn_type: String,
    pub source_ip: String,
    pub destination_ip: Option<String>,
    pub source_port: String,
    pub destination_port: String,
    pub host: Option<String>,
    pub dns_mode: Option<String>,
    pub process: Option<String>,
    pub process_path: Option<String>,
    pub inbound_ip: Option<String>,
    pub inbound_port: Option<String>,
    pub inbound_name: Option<String>,
}

/// Routing rules.
#[derive(Debug)]
pub struct RulesResponse {
    pub rules: Vec<Rule>,
}

/// One routing rule.
#[derive(Debug)]
pub struct Rule {
    pub rule_type: String,
    pub payload: String,
    pub proxy: String,
    pub size: Option<u32>,
}

/// The core's running configuration.
#[derive(Debug)]
pub struct Config {
    pub port: Option<u16>,
    pub socks_port: Option<u16>,
    pub redir_port: Option<u16>,
    pub tproxy_port: Option<u16>,
    pub mixed_port: Option<u16>,
    pub tun: Option<TunConfig>,
    pub mode: String,
    pub log_level: String,
    pub allow_lan: bool,
    pub bind_address: String,
}

/// TUN device settings.
#[derive(Debug)]
pub struct TunConfig {
    pub enable: bool,
    pub device: String,
    pub stack: String,
    pub dns_hijack: Vec<String>,
    pub auto_route: bool,
    pub auto_detect_interface: bool,
}

/// Configuration answer of the core.
#[derive(Debug)]
pub struct ConfigData {
    pub path: String,
    pub config: Config,
}

/// Bytes moved since the previous refresh.
#[derive(Debug, Clone, Copy, PartialEq, Eq, Structural)]
pub struct Traffic {
    pub up: u64,
    pub down: u64,
}

/// A proxy group as the core reports it on its own: its name, kind,
/// current choice and members.
#[derive(Debug)]
pub struct Group {
    pub name: String,
    pub group_type: String,
    pub now: String,
    pub all: Vec<String>,
}

/// An entry of the core's cache: key, value and expiry time.
#[derive(Debug)]
pub struct Cache {
    pub key: String,
    pub value: String,
    pub expire: u64,
}

/// Everything the dashboard knows about the core.
#[derive(Debug)]
pub struct AppState {
    pub version: Option<Version>,
    pub config: Option<Config>,
    pub proxy_config: Option<Config>,
    pub api_url: String,
    pub config_path: String,
    pub memory: Option<Memory>,
    pub proxies: Vec<Proxy>,
    pub all_proxies: Vec<(String, Proxy)>,
    pub providers: Vec<Provider>,
    pub connections: Vec<Connection>,
    pub download_total: u64,
    pub upload_total: u64,
    pub rules: Vec<Rule>,
    pub traffic: Traffic,
    pub logs: Vec<String>,
}

impl AppState {
    /// A state that knows nothing yet.
    pub fn new() -> (r: AppState)
        ensures
            r.version is None,
            r.config is None,
            r.proxy_config is None,
            r.api_url@.len() == 0,
            r.config_path@.len() == 0,
            r.memory is None,
            r.proxies@.len() == 0,
            r.all_proxies@.len() == 0,
            r.providers@.len() == 0,
            r.connections@.len() == 0,
            r.download_total == 0,
            r.upload_total == 0,
            r.rules@.len() == 0,
            r.traffic == (Traffic { up: 0, down: 0 }),
            r.logs@.len() == 0,
    {
        AppState {
            version: None,
            config: None,
            proxy_config: None,
            api_url: String::new(),
            config_path: String::new(),
            memory: None,
            proxies: Vec::new(),
            all_proxies: Vec::new(),
            providers: Vec::new(),
            connections: Vec::new(),
            download_total: 0,
            upload_total: 0,
            rules: Vec::new(),
            traffic: Traffic { up: 0, down: 0 },
            logs: Vec::new(),
        }
    }
}

/// Index of the first entry with key `key`.
pub open spec fn first_key_index(entries: Seq<(String, Proxy)>, key: Seq<char>) -> Option<int>
    decreases entries.len(),
{
    if entries.len() == 0 {
        None
    } else if entries[0].0@ == key {
        Some(0)
    } else {
        match first_key_index(entries.drop_first(), key) {
            Some(i) => Some(i + 1),
            None => None,
        }
    }
}

/// Finds the first entry with key `key`, as a map lookup does.
pub fn find_proxy_entry(entries: &Vec<(String, Proxy)>, key: &str) -> (r: Option<usize>)
    ensures
        match r {
            Some(i) => first_key_index(entries@, key@) == Some(i as int),
            None => first_key_index(entries@, key@) is None,
        },
        r matches Some(i) ==> i < entries@.len() && entries@[i as int].0@ == key@,
{
    let mut i: usize = 0;
    assert(entries@.subrange(0, entries@.len() as int) =~= entries@);
    while i < entries.len()
        invariant
            i <= entries@.len(),
            first_key_index(entries@, key@) == match first_key_index(
                entries@.subrange(i as int, entries@.len() as int),
                key@,
            ) {
                Some(j) => Some(j + i),
                None => None::<int>,
            },
        decreases entries@.len() - i,
    {
        let ghost rest = entries@.subrange(i as int, entries@.len() as int);
        assert(rest.drop_first() =~= entries@.subrange(i + 1, entries@.len() as int));
        if crate::text::str_eq(entries[i].0.as_str(), key) {
            return Some(i);
        }
        i = i + 1;
    }
    None
}


/// Delay used to order proxies: the latest measurement, or the largest
/// value when there is none.
pub open spec fn delay_key(p: Proxy) -> u32 {
    if p.history@.len() > 0 {
        p.history@[0].delay
    } else {
        u32::MAX
    }
}

impl Proxy {
    /// The latest measured delay, or `u32::MAX` when untested.
    pub fn sort_delay(&self) -> (r: u32)
        ensures
            r == delay_key(*self),
    {
        if self.history.len() > 0 {
            self.history[0].delay
        } else {
            u32::MAX
        }
    }
}

impl SortKey for Proxy {
    open spec fn sort_key(&self) -> Seq<int> {
        seq![delay_key(*self) as int]
    }

    fn key_lt(&self, other: &Self) -> (r: bool) {
        proof {
            reveal_with_fuel(lex_lt, 2);
        }
        self.sort_delay() < other.sort_delay()
    }
}

impl SortKey for Provider {
    open spec fn sort_key(&self) -> Seq<int> {
        char_codes(self.name@)
    }

    fn key_lt(&self, other: &Self) -> (r: bool) {
        str_lt(self.name.as_str(), other.name.as_str())
    }
}

impl SortKey for Connection {
    open spec fn sort_key(&self) -> Seq<int> {
        seq![self.download as int]
    }

    fn key_lt(&self, other: &Self) -> (r: bool) {
        proof {
            reveal_with_fuel(lex_lt, 2);
        }
        self.download < other.download
    }
}

impl SortKey for Rule {
    open spec fn sort_key(&self) -> Seq<int> {
        char_codes(self.rule_type@)
    }

    fn key_lt(&self, other: &Self) -> (r: bool) {
        str_lt(self.rule_type.as_str(), other.rule_type.as_str())
    }
}

} // verus!
