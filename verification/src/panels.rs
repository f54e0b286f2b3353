//! What each tab of the dashboard shows: the rows that match the search,
//! the text of each cell and the colour it is drawn in. Drawing them is
//! left to the terminal front end.

use vstd::prelude::*;
use crate::dashboard::clamped;
use crate::state::{
    first_key_index, find_proxy_entry, AppState, Config, Connection, Memory, Provider, Proxy, Rule,
    Version,
};
use crate::text::{
    contains_seq, contains_str, decimal, first_index_of, index_of_str, lowercased, owned,
    push_str, str_eq, to_lowercase, to_uppercase, uppercased, views_of, write_decimal,
    compact_path, compacted_path, trimmed,
};
use crate::ui::{delay_color, delay_color_spec, rule_color_spec, rule_type_color, Color, Tab};
use crate::view::{api_addr, bind_label, proxy_host, proxy_host_of, without_scheme};

verus! {

// ---------------------------------------------------------------- search

/// Whether a text matches the search: every text matches an empty query,
/// otherwise the lower-cased query must occur in the lower-cased text.
pub open spec fn text_matches(text: Seq<char>, query: Seq<char>) -> bool {
    query.len() == 0 || contains_seq(lowercased(text), lowercased(query))
}

/// Whether `text` matches the search `query`.
pub fn matches_query(text: &str, query: &str) -> (r: bool)
    ensures
        r == text_matches(text@, query@),
{
    if query.unicode_len() == 0 {
        return true;
    }
    let t = to_lowercase(text);
    let q = to_lowercase(query);
    contains_str(t.as_str(), q.as_str())
}

/// The positions below `n` that `keep` holds of, in increasing order.
pub open spec fn positions_where(n: int, keep: spec_fn(int) -> bool) -> Seq<usize>
    decreases n,
{
    if n <= 0 {
        Seq::empty()
    } else {
        let rest = positions_where(n - 1, keep);
        if keep(n - 1) {
            rest.push((n - 1) as usize)
        } else {
            rest
        }
    }
}

/// Keeps a selection inside a list of `count` rows.
pub fn clamp_selected(selected: usize, count: usize) -> (r: usize)
    ensures
        r == clamped(selected, count as nat),
{
    let last = if count == 0 {
        0
    } else {
        count - 1
    };
    if selected < last {
        selected
    } else {
        last
    }
}

/// `ms` after the decimal notation of a delay.
pub open spec fn ms_text(delay: u32) -> Seq<char> {
    decimal(delay as nat) + "ms"@
}

fn delay_text(delay: u32) -> (r: String)
    ensures
        r@ == ms_text(delay),
{
    let mut r = String::new();
    write_decimal(&mut r, delay as u64);
    push_str(&mut r, "ms");
    r
}

/// The text of an optional value, `-` when it is missing.
pub open spec fn or_dash(o: Option<String>) -> Seq<char> {
    match o {
        Some(s) => s@,
        None => "-"@,
    }
}

fn text_or_dash(o: &Option<String>) -> (r: String)
    ensures
        r@ == or_dash(*o),
{
    match o {
        Some(s) => s.clone(),
        None => owned("-"),
    }
}

// ---------------------------------------------------------------- proxies

/// Whether a proxy group matches the search by its name.
pub open spec fn proxy_matches(p: Proxy, query: Seq<char>) -> bool {
    text_matches(p.name@, query)
}

/// The positions of the proxy groups whose name matches the search.
pub fn matching_proxies(proxies: &Vec<Proxy>, query: &str) -> (r: Vec<usize>)
    ensures
        r@ == positions_where(proxies@.len() as int, |i: int| proxy_matches(proxies@[i], query@)),
{
    let ghost keep = |i: int| proxy_matches(proxies@[i], query@);
    let mut r: Vec<usize> = Vec::new();
    let mut i: usize = 0;
    while i < proxies.len()
        invariant
            i <= proxies@.len(),
            keep == (|i: int| proxy_matches(proxies@[i], query@)),
            r@ == positions_where(i as int, keep),
        decreases proxies@.len() - i,
    {
        if matches_query(proxies[i].name.as_str(), query) {
            r.push(i);
        }
        i = i + 1;
    }
    r
}

/// The delay a proxy was last measured at, zero when never.
pub open spec fn last_delay(p: Proxy) -> u32 {
    if p.history.len() == 0 {
        0
    } else {
        p.history@[0].delay
    }
}

/// A row of the proxy group table.
pub struct ProxyRow {
    pub name: String,
    pub kind: String,
    pub current: String,
    pub delay: String,
    pub delay_color: Color,
    pub members: String,
}

/// The number of members the full proxy list gives a group, `-` when it
/// lists none.
pub open spec fn member_count(all: Seq<(String, Proxy)>, name: Seq<char>) -> Seq<char> {
    match first_key_index(all, name) {
        Some(i) => match all[i].1.all {
            Some(a) => decimal(a@.len()),
            None => "-"@,
        },
        None => "-"@,
    }
}

/// What a row of the proxy group table shows for group `p`.
pub open spec fn proxy_row_shows(row: ProxyRow, p: Proxy, all: Seq<(String, Proxy)>) -> bool {
    &&& row.name@ == p.name@
    &&& row.kind@ == p.proxy_type@
    &&& row.current@ == or_dash(p.now)
    &&& row.delay@ == if p.history.len() == 0 {
        "-"@
    } else {
        ms_text(p.history@[0].delay)
    }
    &&& row.delay_color == delay_color_spec(last_delay(p))
    &&& row.members@ == member_count(all, p.name@)
}

/// The row of the proxy group table for group `p`.
pub fn proxy_row(p: &Proxy, all: &Vec<(String, Proxy)>) -> (r: ProxyRow)
    ensures
        proxy_row_shows(r, *p, all@),
{
    let delay = if p.history.len() == 0 {
        owned("-")
    } else {
        delay_text(p.history[0].delay)
    };
    let last = if p.history.len() == 0 {
        0
    } else {
        p.history[0].delay
    };
    let members = match find_proxy_entry(all, p.name.as_str()) {
        Some(i) => match &all[i].1.all {
            Some(a) => {
                let mut s = String::new();
                write_decimal(&mut s, a.len() as u64);
                s
            },
            None => owned("-"),
        },
        None => owned("-"),
    };
    ProxyRow {
        name: p.name.clone(),
        kind: p.proxy_type.clone(),
        current: text_or_dash(&p.now),
        delay,
        delay_color: delay_color(last),
        members,
    }
}

/// A row of the node list of a group.
pub struct NodeRow {
    pub text: String,
    pub delay: String,
    pub delay_color: Color,
    pub current: bool,
}

/// The members of group `name` as the full proxy list gives them.
pub open spec fn group_members(all: Seq<(String, Proxy)>, name: Seq<char>) -> Seq<String> {
    match first_key_index(all, name) {
        Some(i) => match all[i].1.all {
            Some(a) => a@,
            None => Seq::empty(),
        },
        None => Seq::empty(),
    }
}

/// The delay the full proxy list last measured for `node`, zero when none.
pub open spec fn node_delay(all: Seq<(String, Proxy)>, node: Seq<char>) -> u32 {
    match first_key_index(all, node) {
        Some(i) => last_delay(all[i].1),
        None => 0,
    }
}

/// What a row of the node list shows for `node` of group `p`.
pub open spec fn node_row_shows(row: NodeRow, p: Proxy, all: Seq<(String, Proxy)>, node: Seq<char>) -> bool {
    let current = match p.now {
        Some(n) => n@ == node,
        None => false,
    };
    let delay = node_delay(all, node);
    &&& row.current == current
    &&& row.text@ == (if current {
        "● "@
    } else {
        "  "@
    }) + node
    &&& row.delay@ == if delay > 0 {
        ms_text(delay)
    } else {
        "-"@
    }
    &&& row.delay_color == delay_color_spec(delay)
}

fn node_row(p: &Proxy, all: &Vec<(String, Proxy)>, node: &String) -> (r: NodeRow)
    ensures
        node_row_shows(r, *p, all@, node@),
{
    let current = match &p.now {
        Some(n) => crate::text::str_eq(n.as_str(), node.as_str()),
        None => false,
    };
    let delay: u32 = match find_proxy_entry(all, node.as_str()) {
        Some(i) => if all[i].1.history.len() == 0 {
            0
        } else {
            all[i].1.history[0].delay
        },
        None => 0,
    };
    let mut text = if current {
        owned("● ")
    } else {
        owned("  ")
    };
    push_str(&mut text, node.as_str());
    NodeRow {
        text,
        delay: if delay > 0 {
            delay_text(delay)
        } else {
            owned("-")
        },
        delay_color: delay_color(delay),
        current,
    }
}

/// The rows of the node list of group `p`, one per member in order.
pub fn node_rows(p: &Proxy, all: &Vec<(String, Proxy)>) -> (r: Vec<NodeRow>)
    ensures
        r@.len() == group_members(all@, p.name@).len(),
        forall|i: int|
            0 <= i < r@.len() ==> node_row_shows(#[trigger] r@[i], *p, all@, group_members(all@, p.name@)[i]@),
{
    let mut r: Vec<NodeRow> = Vec::new();
    match find_proxy_entry(all, p.name.as_str()) {
        Some(k) => match &all[k].1.all {
            Some(members) => {
                let mut i: usize = 0;
                while i < members.len()
                    invariant
                        i <= members@.len(),
                        group_members(all@, p.name@) == members@,
                        r@.len() == i,
                        forall|j: int|
                            0 <= j < i ==> node_row_shows(#[trigger] r@[j], *p, all@, members@[j]@),
                    decreases members@.len() - i,
                {
                    r.push(node_row(p, all, &members[i]));
                    i = i + 1;
                }
            },
            None => {},
        },
        None => {},
    }
    r
}

// ---------------------------------------------------------------- connections

/// The host of a connection: its host name, else its destination address.
pub open spec fn conn_host(c: Connection) -> Option<Seq<char>> {
    match c.metadata.host {
        Some(h) => Some(h@),
        None => match c.metadata.destination_ip {
            Some(d) => Some(d@),
            None => None,
        },
    }
}

/// Whether a connection matches the search by its host (a connection
/// without one matches as the empty text).
pub open spec fn connection_matches(c: Connection, query: Seq<char>) -> bool {
    text_matches(
        match conn_host(c) {
            Some(h) => h,
            None => Seq::empty(),
        },
        query,
    )
}

fn host_of(c: &Connection) -> (r: Option<&String>)
    ensures
        match r {
            Some(h) => conn_host(*c) == Some(h@),
            None => conn_host(*c) is None,
        },
{
    match &c.metadata.host {
        Some(h) => Some(h),
        None => match &c.metadata.destination_ip {
            Some(d) => Some(d),
            None => None,
        },
    }
}

/// The positions of the connections whose host matches the search.
pub fn matching_connections(conns: &Vec<Connection>, query: &str) -> (r: Vec<usize>)
    ensures
        r@ == positions_where(conns@.len() as int, |i: int| connection_matches(conns@[i], query@)),
{
    let ghost keep = |i: int| connection_matches(conns@[i], query@);
    let mut r: Vec<usize> = Vec::new();
    let mut i: usize = 0;
    while i < conns.len()
        invariant
            i <= conns@.len(),
            keep == (|i: int| connection_matches(conns@[i], query@)),
            r@ == positions_where(i as int, keep),
        decreases conns@.len() - i,
    {
        let m = match host_of(&conns[i]) {
            Some(h) => matches_query(h.as_str(), query),
            None => {
                let empty = String::new();
                matches_query(empty.as_str(), query)
            },
        };
        if m {
            r.push(i);
        }
        i = i + 1;
    }
    r
}

/// A row of a connection table; traffic and age are drawn by the caller.
pub struct ConnectionRow {
    pub host: String,
    pub target: String,
    pub network: String,
    pub process: String,
}

/// What a row of a connection table shows for connection `c`: the host
/// (`-` without one), the last proxy of its chain (`-` when the chain is
/// empty), the network and the process (`-` without one).
pub open spec fn connection_row_shows(row: ConnectionRow, c: Connection) -> bool {
    &&& row.host@ == match conn_host(c) {
        Some(h) => h,
        None => "-"@,
    }
    &&& row.target@ == if c.chains.len() == 0 {
        "-"@
    } else {
        c.chains@.last()@
    }
    &&& row.network@ == c.metadata.network@
    &&& row.process@ == or_dash(c.metadata.process)
}

/// The row of a connection table for connection `c`.
pub fn connection_row(c: &Connection) -> (r: ConnectionRow)
    ensures
        connection_row_shows(r, *c),
{
    let host = match host_of(c) {
        Some(h) => h.clone(),
        None => owned("-"),
    };
    let n = c.chains.len();
    let target = if n == 0 {
        owned("-")
    } else {
        c.chains[n - 1].clone()
    };
    ConnectionRow {
        host,
        target,
        network: c.metadata.network.clone(),
        process: text_or_dash(&c.metadata.process),
    }
}

// ---------------------------------------------------------------- rules

/// Whether a rule matches the search by its payload, kind or target.
pub open spec fn rule_matches(r: Rule, query: Seq<char>) -> bool {
    text_matches(r.payload@, query) || text_matches(r.rule_type@, query) || text_matches(
        r.proxy@,
        query,
    )
}

/// The positions of the rules that match the search.
pub fn matching_rules(rules: &Vec<Rule>, query: &str) -> (r: Vec<usize>)
    ensures
        r@ == positions_where(rules@.len() as int, |i: int| rule_matches(rules@[i], query@)),
{
    let ghost keep = |i: int| rule_matches(rules@[i], query@);
    let mut r: Vec<usize> = Vec::new();
    let mut i: usize = 0;
    while i < rules.len()
        invariant
            i <= rules@.len(),
            keep == (|i: int| rule_matches(rules@[i], query@)),
            r@ == positions_where(i as int, keep),
        decreases rules@.len() - i,
    {
        let by_payload = matches_query(rules[i].payload.as_str(), query);
        let by_kind = matches_query(rules[i].rule_type.as_str(), query);
        let by_target = matches_query(rules[i].proxy.as_str(), query);
        if by_payload || by_kind || by_target {
            r.push(i);
        }
        i = i + 1;
    }
    r
}

/// A row of the rule table.
pub struct RuleRow {
    pub number: String,
    pub badge: String,
    pub badge_color: Color,
    pub payload: String,
    pub proxy: String,
}

/// What the row at `position` (counted from zero) of the rule table shows
/// for rule `r`: its number counted from one, its kind upper-cased between
/// spaces in the kind's colour, its payload and its target.
pub open spec fn rule_row_shows(row: RuleRow, r: Rule, position: nat) -> bool {
    &&& row.number@ == decimal(position + 1)
    &&& row.badge@ == " "@ + uppercased(r.rule_type@) + " "@
    &&& row.badge_color == rule_color_spec(lowercased(r.rule_type@))
    &&& row.payload@ == r.payload@
    &&& row.proxy@ == r.proxy@
}

/// The row at `position` of the rule table for rule `r`.
pub fn rule_row(r: &Rule, position: usize) -> (row: RuleRow)
    requires
        position < usize::MAX,
    ensures
        rule_row_shows(row, *r, position as nat),
{
    let mut number = String::new();
    write_decimal(&mut number, (position + 1) as u64);
    let mut badge = owned(" ");
    let upper = to_uppercase(r.rule_type.as_str());
    push_str(&mut badge, upper.as_str());
    push_str(&mut badge, " ");
    RuleRow {
        number,
        badge,
        badge_color: rule_type_color(r.rule_type.as_str()),
        payload: r.payload.clone(),
        proxy: r.proxy.clone(),
    }
}

// ---------------------------------------------------------------- logs

/// The level a log line is shown with.
#[derive(Debug, Clone, Copy, PartialEq, Eq, Structural)]
pub enum LogLevel {
    Error,
    Warn,
    Info,
    Debug,
    Plain,
}

/// The level of a log line, by the first of its markers it holds.
pub open spec fn log_level_of(line: Seq<char>) -> LogLevel {
    if contains_seq(line, "[ERROR]"@) || contains_seq(line, " error "@) {
        LogLevel::Error
    } else if contains_seq(line, "[WARN]"@) || contains_seq(line, " warn "@) {
        LogLevel::Warn
    } else if contains_seq(line, "[INFO]"@) || contains_seq(line, " info "@) {
        LogLevel::Info
    } else if contains_seq(line, "[DEBUG]"@) || contains_seq(line, " debug "@) {
        LogLevel::Debug
    } else {
        LogLevel::Plain
    }
}

/// The level of a log line.
pub fn log_level(line: &str) -> (r: LogLevel)
    ensures
        r == log_level_of(line@),
{
    if contains_str(line, "[ERROR]") || contains_str(line, " error ") {
        LogLevel::Error
    } else if contains_str(line, "[WARN]") || contains_str(line, " warn ") {
        LogLevel::Warn
    } else if contains_str(line, "[INFO]") || contains_str(line, " info ") {
        LogLevel::Info
    } else if contains_str(line, "[DEBUG]") || contains_str(line, " debug ") {
        LogLevel::Debug
    } else {
        LogLevel::Plain
    }
}

/// The badge and colour of a level; a plain line has no badge and is gray.
pub open spec fn level_badge_of(l: LogLevel) -> (Seq<char>, Color) {
    match l {
        LogLevel::Error => ("ERR"@, Color::Red),
        LogLevel::Warn => ("WRN"@, Color::Yellow),
        LogLevel::Info => ("INF"@, Color::Green),
        LogLevel::Debug => ("DBG"@, Color::Blue),
        LogLevel::Plain => (Seq::empty(), Color::Gray),
    }
}

/// The badge and colour of a level.
pub fn level_badge(l: LogLevel) -> (r: (String, Color))
    ensures
        r.0@ == level_badge_of(l).0,
        r.1 == level_badge_of(l).1,
{
    match l {
        LogLevel::Error => (owned("ERR"), Color::Red),
        LogLevel::Warn => (owned("WRN"), Color::Yellow),
        LogLevel::Info => (owned("INF"), Color::Green),
        LogLevel::Debug => (owned("DBG"), Color::Blue),
        LogLevel::Plain => (String::new(), Color::Gray),
    }
}

/// Index of the first space of a line.
pub open spec fn first_space(line: Seq<char>) -> Option<int>
    decreases line.len(),
{
    if line.len() == 0 {
        None
    } else if line[0] == ' ' {
        Some(0)
    } else {
        match first_space(line.drop_first()) {
            Some(i) => Some(i + 1),
            None => None,
        }
    }
}

/// What a log line shows after its badge: the text after its first space,
/// nothing when it has none.
pub open spec fn log_rest_of(line: Seq<char>) -> Seq<char> {
    match first_space(line) {
        Some(i) => line.subrange(i + 1, line.len() as int),
        None => Seq::empty(),
    }
}

/// The text a log line shows after its badge.
pub fn log_rest(line: &str) -> (r: String)
    ensures
        r@ == log_rest_of(line@),
{
    let n = line.unicode_len();
    let mut i: usize = 0;
    assert(line@.subrange(0, n as int) =~= line@);
    while i < n
        invariant
            i <= n,
            n == line@.len(),
            forall|j: int| 0 <= j < i ==> line@[j] != ' ',
            first_space(line@) == match first_space(line@.subrange(i as int, n as int)) {
                Some(k) => Some(k + i),
                None => None::<int>,
            },
        decreases n - i,
    {
        let ghost rest = line@.subrange(i as int, n as int);
        assert(rest.drop_first() =~= line@.subrange(i + 1, n as int));
        if line.get_char(i) == ' ' {
            return owned(line.substring_char(i + 1, n));
        }
        i = i + 1;
    }
    String::new()
}

// ---------------------------------------------------------------- providers

/// Whether a subscription is listed: it reports traffic or has a vehicle.
pub open spec fn provider_listed(p: Provider) -> bool {
    p.subscription_info is Some || p.vehicle_type@.len() > 0
}

/// The positions of the listed subscriptions.
pub fn listed_providers(providers: &Vec<Provider>) -> (r: Vec<usize>)
    ensures
        r@ == positions_where(providers@.len() as int, |i: int| provider_listed(providers@[i])),
{
    let ghost keep = |i: int| provider_listed(providers@[i]);
    let mut r: Vec<usize> = Vec::new();
    let mut i: usize = 0;
    while i < providers.len()
        invariant
            i <= providers@.len(),
            keep == (|i: int| provider_listed(providers@[i])),
            r@ == positions_where(i as int, keep),
        decreases providers@.len() - i,
    {
        if providers[i].subscription_info.is_some() || providers[i].vehicle_type.as_str().unicode_len() > 0 {
            r.push(i);
        }
        i = i + 1;
    }
    r
}

/// The state of a subscription: being updated, holding nodes, never
/// updated, or updated without nodes.
pub open spec fn provider_status_of(p: Provider, updating: Seq<Seq<char>>) -> (Seq<char>, Color) {
    if first_index_of(updating, p.name@) is Some {
        ("更新中"@, Color::Cyan)
    } else if p.proxies.len() > 0 {
        ("正常"@, Color::Green)
    } else if match p.updated_at {
        Some(u) => u@.len() == 0,
        None => true,
    } {
        ("待更新"@, Color::Yellow)
    } else {
        ("无节点"@, Color::Red)
    }
}

/// A row of the subscription table; traffic and age are drawn by the
/// caller.
pub struct ProviderRow {
    pub name: String,
    pub vehicle: String,
    pub status: String,
    pub status_color: Color,
    pub count: String,
    pub traffic: Option<(u64, u64)>,
}

/// What a row of the subscription table shows for subscription `p`: its
/// name, vehicle, state, number of nodes, and traffic used (upload plus
/// download) against the total when it reports them.
pub open spec fn provider_row_shows(row: ProviderRow, p: Provider, updating: Seq<Seq<char>>) -> bool {
    &&& row.name@ == p.name@
    &&& row.vehicle@ == p.vehicle_type@
    &&& (row.status@, row.status_color) == provider_status_of(p, updating)
    &&& row.count@ == decimal(p.proxies@.len())
    &&& row.traffic == match p.subscription_info {
        Some(info) => Some(((info.upload + info.download) as u64, info.total)),
        None => None,
    }
}

/// The row of the subscription table for subscription `p`.
pub fn provider_row(p: &Provider, updating: &Vec<String>) -> (r: ProviderRow)
    requires
        p.subscription_info matches Some(info) ==> info.upload + info.download <= u64::MAX,
    ensures
        provider_row_shows(r, *p, views_of(updating@)),
{
    let (status, status_color) = if index_of_str(updating, p.name.as_str()).is_some() {
        (owned("更新中"), Color::Cyan)
    } else if p.proxies.len() > 0 {
        (owned("正常"), Color::Green)
    } else if match &p.updated_at {
        Some(u) => u.as_str().unicode_len() == 0,
        None => true,
    } {
        (owned("待更新"), Color::Yellow)
    } else {
        (owned("无节点"), Color::Red)
    };
    let mut count = String::new();
    write_decimal(&mut count, p.proxies.len() as u64);
    let traffic = match &p.subscription_info {
        Some(info) => Some((info.upload + info.download, info.total)),
        None => None,
    };
    ProviderRow {
        name: p.name.clone(),
        vehicle: p.vehicle_type.clone(),
        status,
        status_color,
        count,
        traffic,
    }
}

// ---------------------------------------------------------------- overview

/// A line of the system panel of the overview.
pub enum InfoLine {
    /// A label and its value, drawn in the given colour.
    Entry { label: String, value: String, color: Color },
    /// Memory in use, in bytes; drawn with its gauge.
    Memory(u64),
    Blank,
    Heading(String),
}

/// A line of the system panel as plain values.
pub enum InfoLineView {
    Entry(Seq<char>, Seq<char>, Color),
    Memory(u64),
    Blank,
    Heading(Seq<char>),
}

impl View for InfoLine {
    type V = InfoLineView;

    open spec fn view(&self) -> InfoLineView {
        match self {
            InfoLine::Entry { label, value, color } => InfoLineView::Entry(label@, value@, *color),
            InfoLine::Memory(m) => InfoLineView::Memory(*m),
            InfoLine::Blank => InfoLineView::Blank,
            InfoLine::Heading(h) => InfoLineView::Heading(h@),
        }
    }
}

/// The lines of a panel as plain values.
pub open spec fn lines_view(v: Seq<InfoLine>) -> Seq<InfoLineView> {
    Seq::new(v.len(), |i: int| v[i]@)
}

/// A labelled value.
pub open spec fn entry(label: Seq<char>, value: Seq<char>, color: Color) -> InfoLineView {
    InfoLineView::Entry(label, value, color)
}

/// The core's kind and version, or that it is not reached.
pub open spec fn version_lines(v: Option<Version>) -> Seq<InfoLineView> {
    match v {
        Some(ver) => seq![
            entry("内核: "@, if ver.meta == Some(true) { "Meta"@ } else { "Clash"@ }, Color::White),
            entry("版本: "@, ver.version@, Color::White),
        ],
        None => seq![entry("状态: "@, "未连接"@, Color::Red)],
    }
}

/// The memory line, when the core reports its memory.
pub open spec fn memory_lines(m: Option<Memory>) -> Seq<InfoLineView> {
    match m {
        Some(mem) => seq![InfoLineView::Memory(mem.inuse)],
        None => Seq::empty(),
    }
}

/// `host:port`.
pub open spec fn address(host: Seq<char>, port: u16) -> Seq<char> {
    host + ":"@ + decimal(port as nat)
}

/// The line of a listening port, when it is set.
pub open spec fn port_lines(label: Seq<char>, port: Option<u16>, host: Seq<char>) -> Seq<InfoLineView> {
    match port {
        Some(p) => seq![entry(label, address(host, p), Color::White)],
        None => Seq::empty(),
    }
}

/// The bind label of an address (see `bind_label`).
pub open spec fn bind_label_of(b: Seq<char>) -> Seq<char> {
    if trimmed(b).len() == 0 {
        Seq::empty()
    } else {
        "bind="@ + trimmed(b)
    }
}

/// The mixed port line (or that it is off) and what it is for.
pub open spec fn mixed_lines(c: Config) -> Seq<InfoLineView> {
    match c.mixed_port {
        Some(p) => seq![
            entry("Mixed: "@, address(proxy_host_of(c.allow_lan, c.bind_address@), p), Color::Green),
            entry("用途: "@, "系统/浏览器代理"@, Color::Gray),
        ],
        None => seq![entry("Mixed: "@, "未启用"@, Color::Yellow)],
    }
}

/// The lines of the other ports that are set.
pub open spec fn other_port_lines(c: Config) -> Seq<InfoLineView> {
    let host = proxy_host_of(c.allow_lan, c.bind_address@);
    port_lines("HTTP: "@, c.port, host) + port_lines("SOCKS: "@, c.socks_port, host) + port_lines(
        "Redir: "@,
        c.redir_port,
        host,
    ) + port_lines("TProxy: "@, c.tproxy_port, host)
}

/// Whether LAN access is on, and the bind address.
pub open spec fn lan_line(c: Config) -> InfoLineView {
    entry(
        "局域网: "@,
        (if c.allow_lan { "允许"@ } else { "关闭"@ }) + " "@ + bind_label_of(c.bind_address@),
        if c.allow_lan { Color::Green } else { Color::Gray },
    )
}

/// The entry points a configuration opens: the mixed port (or that it is
/// off), the other ports that are set, and LAN access.
pub open spec fn entry_lines(c: Config) -> Seq<InfoLineView> {
    (mixed_lines(c) + other_port_lines(c)).push(lan_line(c))
}

/// The width left for the configuration path in a panel `inner_width`
/// wide.
pub open spec fn path_width(inner_width: nat) -> nat {
    if inner_width > 12 {
        (inner_width - 12) as nat
    } else {
        0
    }
}

/// The core, its memory, and the heading of the entry points.
pub open spec fn head_lines(s: AppState) -> Seq<InfoLineView> {
    version_lines(s.version) + memory_lines(s.memory) + seq![
        InfoLineView::Blank,
        InfoLineView::Heading("代理入口"@),
    ]
}

/// The entry points of the configuration the proxies were started with,
/// else of the running one, else that it is still loading.
pub open spec fn shown_lines(s: AppState) -> Seq<InfoLineView> {
    match s.proxy_config {
        Some(c) => entry_lines(c),
        None => match s.config {
            Some(c) => entry_lines(c),
            None => seq![entry("Mixed: "@, "等待配置加载"@, Color::Yellow)],
        },
    }
}

/// The control API and the configuration file, when known.
pub open spec fn location_lines(s: AppState, inner_width: nat) -> Seq<InfoLineView> {
    (if s.api_url@.len() > 0 {
        seq![entry("控制 API: "@, without_scheme(s.api_url@), Color::Gray)]
    } else {
        Seq::empty()
    }) + (if s.config_path@.len() > 0 {
        seq![
            entry(
                "配置文件: "@,
                compacted_path(s.config_path@, path_width(inner_width)),
                Color::DarkGray,
            ),
        ]
    } else {
        Seq::empty()
    })
}

/// The counts of connections, proxies and rules, after a blank line.
pub open spec fn count_lines(s: AppState) -> Seq<InfoLineView> {
    seq![
        InfoLineView::Blank,
        entry("活跃连接: "@, decimal(s.connections@.len()), Color::White),
        entry("代理节点: "@, decimal(s.all_proxies@.len()), Color::White),
        entry("规则数量: "@, decimal(s.rules@.len()), Color::White),
    ]
}

/// The system panel of the overview, `inner_width` columns wide: the
/// core, its memory, the entry points of the configuration the proxies
/// were started with (else the running one), the control API, the
/// configuration file, and the counts of connections, proxies and rules.
pub open spec fn info_panel(s: AppState, inner_width: nat) -> Seq<InfoLineView> {
    head_lines(s) + shown_lines(s) + location_lines(s, inner_width) + count_lines(s)
}

fn push_line(lines: &mut Vec<InfoLine>, line: InfoLine)
    ensures
        lines_view(final(lines)@) == lines_view(old(lines)@).push(line@),
{
    lines.push(line);
    assert(lines_view(lines@) =~= lines_view(old(lines)@).push(line@));
}

fn push_entry(lines: &mut Vec<InfoLine>, label: &str, value: String, color: Color)
    ensures
        lines_view(final(lines)@) == lines_view(old(lines)@).push(entry(label@, value@, color)),
{
    push_line(lines, InfoLine::Entry { label: owned(label), value, color });
}

fn address_text(host: &String, port: u16) -> (r: String)
    ensures
        r@ == address(host@, port),
{
    let mut r = host.clone();
    push_str(&mut r, ":");
    write_decimal(&mut r, port as u64);
    r
}

fn push_port(lines: &mut Vec<InfoLine>, label: &str, port: Option<u16>, host: &String)
    ensures
        lines_view(final(lines)@) == lines_view(old(lines)@) + port_lines(label@, port, host@),
{
    match port {
        Some(p) => push_entry(lines, label, address_text(host, p), Color::White),
        None => {
            assert(lines_view(lines@) =~= lines_view(lines@) + Seq::<InfoLineView>::empty());
        },
    }
}

fn push_mixed(lines: &mut Vec<InfoLine>, c: &Config, host: &String)
    requires
        host@ == proxy_host_of(c.allow_lan, c.bind_address@),
    ensures
        lines_view(final(lines)@) == lines_view(old(lines)@) + mixed_lines(*c),
{
    let ghost before = lines_view(lines@);
    match c.mixed_port {
        Some(p) => {
            push_entry(lines, "Mixed: ", address_text(host, p), Color::Green);
            push_entry(lines, "用途: ", owned("系统/浏览器代理"), Color::Gray);
        },
        None => {
            push_entry(lines, "Mixed: ", owned("未启用"), Color::Yellow);
        },
    }
    assert(lines_view(lines@) =~= before + mixed_lines(*c));
}

fn push_other_ports(lines: &mut Vec<InfoLine>, c: &Config, host: &String)
    requires
        host@ == proxy_host_of(c.allow_lan, c.bind_address@),
    ensures
        lines_view(final(lines)@) == lines_view(old(lines)@) + other_port_lines(*c),
{
    let ghost v0 = lines_view(lines@);
    push_port(lines, "HTTP: ", c.port, host);
    let ghost v1 = lines_view(lines@);
    push_port(lines, "SOCKS: ", c.socks_port, host);
    let ghost v2 = lines_view(lines@);
    push_port(lines, "Redir: ", c.redir_port, host);
    let ghost v3 = lines_view(lines@);
    push_port(lines, "TProxy: ", c.tproxy_port, host);
    proof {
        let h = host@;
        let a = port_lines("HTTP: "@, c.port, h);
        let b = port_lines("SOCKS: "@, c.socks_port, h);
        let d = port_lines("Redir: "@, c.redir_port, h);
        let e = port_lines("TProxy: "@, c.tproxy_port, h);
        assert(v3 =~= v0 + (a + b + d));
        assert(lines_view(lines@) =~= v0 + (a + b + d + e));
    }
}

fn lan_entry(c: &Config) -> (r: String)
    ensures
        lan_line(*c) == entry("局域网: "@, r@, if c.allow_lan { Color::Green } else { Color::Gray }),
{
    let mut lan = if c.allow_lan {
        owned("允许")
    } else {
        owned("关闭")
    };
    push_str(&mut lan, " ");
    let label = bind_label(c.bind_address.as_str());
    push_str(&mut lan, label.as_str());
    lan
}

fn push_entry_points(lines: &mut Vec<InfoLine>, c: &Config)
    ensures
        lines_view(final(lines)@) == lines_view(old(lines)@) + entry_lines(*c),
{
    let ghost before = lines_view(lines@);
    let host = proxy_host(c);
    push_mixed(lines, c, &host);
    push_other_ports(lines, c, &host);
    let lan = lan_entry(c);
    push_entry(
        lines,
        "局域网: ",
        lan,
        if c.allow_lan {
            Color::Green
        } else {
            Color::Gray
        },
    );
    proof {
        let m = mixed_lines(*c);
        let o = other_port_lines(*c);
        assert(lines_view(lines@) =~= (before + (m + o)).push(lan_line(*c)));
        assert(lines_view(lines@) =~= before + entry_lines(*c));
    }
}

fn push_head(lines: &mut Vec<InfoLine>, state: &AppState)
    ensures
        lines_view(final(lines)@) == lines_view(old(lines)@) + head_lines(*state),
{
    let ghost before = lines_view(lines@);
    match &state.version {
        Some(ver) => {
            let kind = match ver.meta {
                Some(true) => owned("Meta"),
                _ => owned("Clash"),
            };
            push_entry(lines, "内核: ", kind, Color::White);
            push_entry(lines, "版本: ", ver.version.clone(), Color::White);
        },
        None => {
            push_entry(lines, "状态: ", owned("未连接"), Color::Red);
        },
    }
    assert(lines_view(lines@) =~= before + version_lines(state.version));
    let ghost v1 = lines_view(lines@);
    if let Some(mem) = &state.memory {
        push_line(lines, InfoLine::Memory(mem.inuse));
    }
    assert(lines_view(lines@) =~= v1 + memory_lines(state.memory));
    let ghost v2 = lines_view(lines@);
    push_line(lines, InfoLine::Blank);
    push_line(lines, InfoLine::Heading(owned("代理入口")));
    assert(lines_view(lines@) =~= before + head_lines(*state));
}

fn push_shown(lines: &mut Vec<InfoLine>, state: &AppState)
    ensures
        lines_view(final(lines)@) == lines_view(old(lines)@) + shown_lines(*state),
{
    let ghost before = lines_view(lines@);
    match &state.proxy_config {
        Some(c) => push_entry_points(lines, c),
        None => match &state.config {
            Some(c) => push_entry_points(lines, c),
            None => {
                push_entry(lines, "Mixed: ", owned("等待配置加载"), Color::Yellow);
                assert(lines_view(lines@) =~= before + shown_lines(*state));
            },
        },
    }
}

fn push_locations(lines: &mut Vec<InfoLine>, state: &AppState, inner_width: usize)
    ensures
        lines_view(final(lines)@) == lines_view(old(lines)@) + location_lines(*state, inner_width as nat),
{
    let ghost before = lines_view(lines@);
    if state.api_url.as_str().unicode_len() > 0 {
        push_entry(lines, "控制 API: ", api_addr(state.api_url.as_str()), Color::Gray);
    }
    let ghost v1 = lines_view(lines@);
    if state.config_path.as_str().unicode_len() > 0 {
        let width = if inner_width > 12 {
            inner_width - 12
        } else {
            0
        };
        push_entry(lines, "配置文件: ", compact_path(state.config_path.as_str(), width), Color::DarkGray);
    }
    assert(lines_view(lines@) =~= before + location_lines(*state, inner_width as nat));
}

fn push_counts(lines: &mut Vec<InfoLine>, state: &AppState)
    ensures
        lines_view(final(lines)@) == lines_view(old(lines)@) + count_lines(*state),
{
    let ghost before = lines_view(lines@);
    push_line(lines, InfoLine::Blank);
    let mut n = String::new();
    write_decimal(&mut n, state.connections.len() as u64);
    push_entry(lines, "活跃连接: ", n, Color::White);
    let mut n = String::new();
    write_decimal(&mut n, state.all_proxies.len() as u64);
    push_entry(lines, "代理节点: ", n, Color::White);
    let mut n = String::new();
    write_decimal(&mut n, state.rules.len() as u64);
    push_entry(lines, "规则数量: ", n, Color::White);
    assert(lines_view(lines@) =~= before + count_lines(*state));
}

/// The system panel of the overview, `inner_width` columns wide.
pub fn info_panel_lines(state: &AppState, inner_width: usize) -> (r: Vec<InfoLine>)
    ensures
        lines_view(r@) == info_panel(*state, inner_width as nat),
{
    let mut lines: Vec<InfoLine> = Vec::new();
    assert(lines_view(lines@) =~= Seq::<InfoLineView>::empty());
    push_head(&mut lines, state);
    push_shown(&mut lines, state);
    push_locations(&mut lines, state, inner_width);
    push_counts(&mut lines, state);
    proof {
        let h = head_lines(*state);
        let sh = shown_lines(*state);
        let l = location_lines(*state, inner_width as nat);
        let c = count_lines(*state);
        assert(Seq::<InfoLineView>::empty() + h =~= h);
        assert(lines_view(lines@) =~= h + sh + l + c);
    }
    lines
}

/// The highest traffic figure of the history (uploads when `upload`,
/// downloads otherwise), at least one.
pub open spec fn peak_of(h: Seq<(u64, u64)>, upload: bool) -> u64
    decreases h.len(),
{
    if h.len() == 0 {
        1
    } else {
        let rest = peak_of(h.drop_last(), upload);
        let v = if upload {
            h.last().0
        } else {
            h.last().1
        };
        if v > rest {
            v
        } else {
            rest
        }
    }
}

/// The top of the traffic chart: the highest figure of the history, at
/// least one.
pub fn traffic_peak(history: &Vec<(u64, u64)>, upload: bool) -> (r: u64)
    ensures
        r == peak_of(history@, upload),
{
    let mut best: u64 = 1;
    let mut i: usize = 0;
    assert(history@.take(0) =~= Seq::<(u64, u64)>::empty());
    while i < history.len()
        invariant
            i <= history@.len(),
            best == peak_of(history@.take(i as int), upload),
        decreases history@.len() - i,
    {
        assert(history@.take(i + 1).drop_last() =~= history@.take(i as int));
        let v = if upload {
            history[i].0
        } else {
            history[i].1
        };
        if v > best {
            best = v;
        }
        i = i + 1;
    }
    assert(history@.take(history@.len() as int) =~= history@);
    best
}

// ---------------------------------------------------------------- header and footer

/// The mode the header shows: the current one, `Rule` when it is unknown.
pub open spec fn mode_shown(modes: Seq<Seq<char>>, idx: usize) -> Seq<char> {
    if idx < modes.len() {
        modes[idx as int]
    } else {
        "Rule"@
    }
}

/// The colour of a mode badge.
pub open spec fn mode_color_of(m: Seq<char>) -> Color {
    if m == "Global"@ {
        Color::Magenta
    } else if m == "Rule"@ {
        Color::Green
    } else if m == "Direct"@ {
        Color::Blue
    } else if m == "Reject"@ {
        Color::Red
    } else {
        Color::Gray
    }
}

/// The mode badge of the header: the mode between spaces, and its colour.
pub fn mode_badge(modes: &Vec<String>, idx: usize) -> (r: (String, Color))
    ensures
        r.0@ == " "@ + mode_shown(views_of(modes@), idx) + " "@,
        r.1 == mode_color_of(mode_shown(views_of(modes@), idx)),
{
    let mode: &str = if idx < modes.len() {
        modes[idx].as_str()
    } else {
        "Rule"
    };
    let color = if str_eq(mode, "Global") {
        Color::Magenta
    } else if str_eq(mode, "Rule") {
        Color::Green
    } else if str_eq(mode, "Direct") {
        Color::Blue
    } else if str_eq(mode, "Reject") {
        Color::Red
    } else {
        Color::Gray
    };
    let mut text = owned(" ");
    push_str(&mut text, mode);
    push_str(&mut text, " ");
    (text, color)
}

/// The memory badge of the header: whole mebibytes in use.
pub fn memory_badge(inuse: u64) -> (r: String)
    ensures
        r@ == " "@ + decimal((inuse / 1024 / 1024) as nat) + "MB "@,
{
    let mut r = owned(" ");
    write_decimal(&mut r, inuse / 1024 / 1024);
    push_str(&mut r, "MB ");
    r
}

/// The search line of the header: the query after a slash, then the
/// cursor.
pub fn search_line(query: &str) -> (r: String)
    ensures
        r@ == "/"@ + query@ + "█"@,
{
    let mut r = owned("/");
    push_str(&mut r, query);
    push_str(&mut r, "█");
    r
}

/// The key hints of a tab's footer.
pub open spec fn shortcuts_of(t: Tab) -> Seq<char> {
    match t {
        Tab::Overview => "q退出 r刷新 m模式 F1帮助"@,
        Tab::Proxies => "↑↓选择 Enter切换节点 s测速 F4排序 /搜索 F1帮助"@,
        Tab::Providers => "↑↓选择 a添加 e编辑 d删除 u更新 h检查 F4排序 /搜索 F1帮助"@,
        Tab::Connections => "↑↓选择 d关闭 c关闭全部 F9关闭 F4排序 /搜索 F1帮助"@,
        Tab::Rules => "↑↓选择 F4排序 /搜索 F1帮助"@,
        Tab::Logs => "↑↓滚动 jk滚动 PgUp/PgDn翻页 c清空 /搜索 F1帮助"@,
    }
}

/// The key hints of a tab's footer.
pub fn shortcuts(t: Tab) -> (r: &'static str)
    ensures
        r@ == shortcuts_of(t),
{
    match t {
        Tab::Overview => "q退出 r刷新 m模式 F1帮助",
        Tab::Proxies => "↑↓选择 Enter切换节点 s测速 F4排序 /搜索 F1帮助",
        Tab::Providers => "↑↓选择 a添加 e编辑 d删除 u更新 h检查 F4排序 /搜索 F1帮助",
        Tab::Connections => "↑↓选择 d关闭 c关闭全部 F9关闭 F4排序 /搜索 F1帮助",
        Tab::Rules => "↑↓选择 F4排序 /搜索 F1帮助",
        Tab::Logs => "↑↓滚动 jk滚动 PgUp/PgDn翻页 c清空 /搜索 F1帮助",
    }
}

/// The message shown above the tab: the success message when there is
/// one (`true`), else the error (`false`).
pub fn toast_message(success: &Option<String>, error: &Option<String>) -> (r: Option<(String, bool)>)
    ensures
        match r {
            Some((m, ok)) => match *success {
                Some(s) => ok && m@ == s@,
                None => !ok && (*error matches Some(e) && m@ == e@),
            },
            None => success is None && error is None,
        },
{
    match success {
        Some(s) => Some((s.clone(), true)),
        None => match error {
            Some(e) => Some((e.clone(), false)),
            None => None,
        },
    }
}

// ---------------------------------------------------------------- popups

/// A form field with the cursor drawn as `|` at character `cursor`, or at
/// the end when it lies beyond.
pub open spec fn with_cursor(v: Seq<char>, cursor: nat) -> Seq<char> {
    let k = if cursor < v.len() {
        cursor as int
    } else {
        v.len() as int
    };
    v.take(k) + "|"@ + v.skip(k)
}

/// The text of a form field: the active one shows the cursor.
pub fn field_text(value: &str, active: bool, cursor: usize) -> (r: String)
    ensures
        r@ == if active {
            with_cursor(value@, cursor as nat)
        } else {
            value@
        },
{
    if !active {
        return owned(value);
    }
    let n = value.unicode_len();
    let k = if cursor < n {
        cursor
    } else {
        n
    };
    let mut r = owned(value.substring_char(0, k));
    push_str(&mut r, "|");
    push_str(&mut r, value.substring_char(k, n));
    assert(r@ =~= with_cursor(value@, cursor as nat));
    r
}

/// The popup listing a group's nodes on a screen `width` by `height`:
/// three fifths of the width kept between 30 and 60 columns, four rows
/// more than the nodes but four less than the screen, centred. Returns
/// `(x, y, width, height)`.
pub fn nodes_popup_area(width: u16, height: u16, count: usize) -> (r: (u16, u16, u16, u16))
    requires
        width * 3 <= u16::MAX,
        height >= 4,
        (count as u16) + 4 <= u16::MAX,
        width >= if width * 3 / 5 < 30 {
            30
        } else if width * 3 / 5 > 60 {
            60
        } else {
            width * 3 / 5
        },
    ensures
        r.2 == if width * 3 / 5 < 30 {
            30
        } else if width * 3 / 5 > 60 {
            60
        } else {
            width * 3 / 5
        },
        r.3 == if (count as u16) + 4 < height - 4 {
            (count as u16) + 4
        } else {
            height - 4
        },
        r.0 == (width - r.2) / 2,
        r.1 == (height - r.3) / 2,
{
    let third = width * 3 / 5;
    let w: u16 = if third < 30 {
        30
    } else if third > 60 {
        60
    } else {
        third
    };
    let rows = (count as u16) + 4;
    let h: u16 = if rows < height - 4 {
        rows
    } else {
        height - 4
    };
    ((width - w) / 2, (height - h) / 2, w, h)
}

} // verus!
