//! Tabs, popups and the display classifications used by the screens.

use vstd::prelude::*;
use crate::text::{
    decimal, lowercased, owned, parse_i64, parse_i64_spec, push_str, str_eq, to_lowercase,
    u64_to_string,
};

verus! {

/// The screens of the dashboard, in display order.
#[derive(Debug, Clone, Copy, PartialEq, Eq, Hash, Structural)]
pub enum Tab {
    Overview,
    Proxies,
    Providers,
    Connections,
    Rules,
    Logs,
}

/// Number of tabs.
pub const TAB_COUNT: usize = 6;

/// Position of a tab in display order.
pub open spec fn tab_index_of(t: Tab) -> nat {
    match t {
        Tab::Overview => 0,
        Tab::Proxies => 1,
        Tab::Providers => 2,
        Tab::Connections => 3,
        Tab::Rules => 4,
        Tab::Logs => 5,
    }
}

/// The tab at a position; positions past the end give the last tab.
pub open spec fn tab_at(idx: nat) -> Tab {
    if idx == 0 {
        Tab::Overview
    } else if idx == 1 {
        Tab::Proxies
    } else if idx == 2 {
        Tab::Providers
    } else if idx == 3 {
        Tab::Connections
    } else if idx == 4 {
        Tab::Rules
    } else {
        Tab::Logs
    }
}

/// Title of a tab.
pub open spec fn tab_title(t: Tab) -> Seq<char> {
    match t {
        Tab::Overview => "概览"@,
        Tab::Proxies => "代理"@,
        Tab::Providers => "订阅"@,
        Tab::Connections => "连接"@,
        Tab::Rules => "规则"@,
        Tab::Logs => "日志"@,
    }
}

impl Tab {
    /// The tab's title.
    pub fn title(&self) -> (r: &'static str)
        ensures
            r@ == tab_title(*self),
    {
        match self {
            Tab::Overview => "概览",
            Tab::Proxies => "代理",
            Tab::Providers => "订阅",
            Tab::Connections => "连接",
            Tab::Rules => "规则",
            Tab::Logs => "日志",
        }
    }

    /// The tab at position `idx`; indices past the end give the logs tab.
    pub fn from_index(idx: usize) -> (r: Tab)
        ensures
            r == tab_at(idx as nat),
    {
        match idx {
            0 => Tab::Overview,
            1 => Tab::Proxies,
            2 => Tab::Providers,
            3 => Tab::Connections,
            4 => Tab::Rules,
            _ => Tab::Logs,
        }
    }

    /// Position of the tab in display order.
    pub fn index(&self) -> (r: usize)
        ensures
            r as nat == tab_index_of(*self),
            r < TAB_COUNT,
    {
        match self {
            Tab::Overview => 0,
            Tab::Proxies => 1,
            Tab::Providers => 2,
            Tab::Connections => 3,
            Tab::Rules => 4,
            Tab::Logs => 5,
        }
    }
}

/// A tab's position leads back to the tab, and every position below the
/// count leads to a tab at that position.
pub proof fn lemma_tab_index_roundtrip(t: Tab, i: nat)
    ensures
        tab_at(tab_index_of(t)) == t,
        tab_index_of(t) < TAB_COUNT,
        i < TAB_COUNT ==> tab_index_of(tab_at(i)) == i,
{
}

/// The overlay shown above the current tab.
#[derive(Debug)]
pub enum Popup {
    Hidden,
    AddProvider,
    EditProvider,
    DeleteConfirm,
    ProxyNodes { proxy_name: String, selected: usize },
}

/// A popup as plain values.
pub enum PopupView {
    Hidden,
    AddProvider,
    EditProvider,
    DeleteConfirm,
    ProxyNodes { proxy_name: Seq<char>, selected: usize },
}

impl View for Popup {
    type V = PopupView;

    open spec fn view(&self) -> PopupView {
        match self {
            Popup::Hidden => PopupView::Hidden,
            Popup::AddProvider => PopupView::AddProvider,
            Popup::EditProvider => PopupView::EditProvider,
            Popup::DeleteConfirm => PopupView::DeleteConfirm,
            Popup::ProxyNodes { proxy_name, selected } => PopupView::ProxyNodes {
                proxy_name: proxy_name@,
                selected: *selected,
            },
        }
    }
}

// ---------------------------------------------------------------- colours

/// Display colours of the dashboard.
#[derive(Debug, Clone, Copy, PartialEq, Eq, Structural)]
pub enum Color {
    Gray,
    DarkGray,
    Green,
    Yellow,
    Red,
    Cyan,
    Blue,
    Magenta,
    White,
    Rgb(u8, u8, u8),
}

/// Colour of a measured delay in milliseconds.
pub open spec fn delay_color_spec(delay: u32) -> Color {
    if delay == 0 {
        Color::Gray
    } else if delay <= 200 {
        Color::Green
    } else if delay <= 500 {
        Color::Yellow
    } else if delay <= 1000 {
        Color::Rgb(255, 140, 0)
    } else {
        Color::Red
    }
}

/// Colour of a measured delay: grey when untested, green up to 200 ms,
/// yellow up to 500 ms, orange up to a second, red beyond.
pub fn delay_color(delay: u32) -> (r: Color)
    ensures
        r == delay_color_spec(delay),
{
    if delay == 0 {
        Color::Gray
    } else if delay <= 200 {
        Color::Green
    } else if delay <= 500 {
        Color::Yellow
    } else if delay <= 1000 {
        Color::Rgb(255, 140, 0)
    } else {
        Color::Red
    }
}

/// Colour of a rule type already in lower case.
pub open spec fn rule_color_spec(t: Seq<char>) -> Color {
    if t == "domain"@ || t == "domain-suffix"@ || t == "domain-keyword"@ {
        Color::Cyan
    } else if t == "ip-cidr"@ || t == "ip-cidr6"@ || t == "geoip"@ {
        Color::Blue
    } else if t == "src-ip-cidr"@ {
        Color::Magenta
    } else if t == "dst-port"@ || t == "src-port"@ {
        Color::Yellow
    } else if t == "process-name"@ || t == "process-path"@ {
        Color::Green
    } else if t == "match"@ || t == "final"@ {
        Color::Red
    } else {
        Color::Gray
    }
}

/// Colour of a rule type given in lower case.
pub fn rule_color_for_lowercase(t: &str) -> (r: Color)
    ensures
        r == rule_color_spec(t@),
{
    if str_eq(t, "domain") || str_eq(t, "domain-suffix") || str_eq(t, "domain-keyword") {
        Color::Cyan
    } else if str_eq(t, "ip-cidr") || str_eq(t, "ip-cidr6") || str_eq(t, "geoip") {
        Color::Blue
    } else if str_eq(t, "src-ip-cidr") {
        Color::Magenta
    } else if str_eq(t, "dst-port") || str_eq(t, "src-port") {
        Color::Yellow
    } else if str_eq(t, "process-name") || str_eq(t, "process-path") {
        Color::Green
    } else if str_eq(t, "match") || str_eq(t, "final") {
        Color::Red
    } else {
        Color::Gray
    }
}

/// Colour of a rule type, compared without regard to case.
pub fn rule_type_color(kind_name: &str) -> (r: Color)
    ensures
        r == rule_color_spec(lowercased(kind_name@)),
{
    let lower = to_lowercase(kind_name);
    rule_color_for_lowercase(lower.as_str())
}

/// Colour of a proxy type already in lower case.
pub open spec fn proxy_color_spec(t: Seq<char>) -> Color {
    if t == "selector"@ {
        Color::Cyan
    } else if t == "url-test"@ {
        Color::Green
    } else if t == "fallback"@ {
        Color::Yellow
    } else if t == "load-balance"@ {
        Color::Magenta
    } else if t == "relay"@ {
        Color::Blue
    } else if t == "direct"@ {
        Color::Gray
    } else if t == "reject"@ {
        Color::Red
    } else {
        Color::White
    }
}

/// Colour of a proxy type given in lower case.
pub fn proxy_color_for_lowercase(t: &str) -> (r: Color)
    ensures
        r == proxy_color_spec(t@),
{
    if str_eq(t, "selector") {
        Color::Cyan
    } else if str_eq(t, "url-test") {
        Color::Green
    } else if str_eq(t, "fallback") {
        Color::Yellow
    } else if str_eq(t, "load-balance") {
        Color::Magenta
    } else if str_eq(t, "relay") {
        Color::Blue
    } else if str_eq(t, "direct") {
        Color::Gray
    } else if str_eq(t, "reject") {
        Color::Red
    } else {
        Color::White
    }
}

/// Colour of a proxy type, compared without regard to case.
pub fn proxy_color(kind_name: &str) -> (r: Color)
    ensures
        r == proxy_color_spec(lowercased(kind_name@)),
{
    let lower = to_lowercase(kind_name);
    proxy_color_for_lowercase(lower.as_str())
}

// ------------------------------------------------------------ relative time

/// How long ago a timestamp lies, as shown in the provider table: `-` for
/// nothing, the text itself when it is not a number, else the age in the
/// largest whole unit.
pub open spec fn relative_time(s: Seq<char>, now: i64) -> Seq<char> {
    if s.len() == 0 {
        "-"@
    } else {
        match parse_i64_spec(s) {
            Some(ts) => {
                let diff = now - ts;
                if diff < 60 {
                    "刚刚"@
                } else if diff < 3600 {
                    decimal((diff / 60) as nat) + "分钟前"@
                } else if diff < 86400 {
                    decimal((diff / 3600) as nat) + "小时前"@
                } else {
                    decimal((diff / 86400) as nat) + "天前"@
                }
            },
            None => s,
        }
    }
}

/// A timestamp `ts` read at `now` is shown by its age in the largest whole
/// unit: under a minute is `刚刚`, then whole minutes, whole hours, whole
/// days; text that is no number is shown as written, and empty text as
/// `-`.
pub proof fn law_relative_time_uses_largest_whole_unit(s: Seq<char>, now: i64, ts: i64)
    requires
        s.len() > 0,
        parse_i64_spec(s) == Some(ts),
    ensures
        now - ts < 60 ==> relative_time(s, now) == "刚刚"@,
        60 <= now - ts < 3600 ==> relative_time(s, now) == decimal(((now - ts) / 60) as nat) + "分钟前"@,
        3600 <= now - ts < 86400 ==> relative_time(s, now) == decimal(((now - ts) / 3600) as nat)
            + "小时前"@,
        86400 <= now - ts ==> relative_time(s, now) == decimal(((now - ts) / 86400) as nat) + "天前"@,
{
}

/// Text that is no number is shown as written, and empty text as `-`.
pub proof fn law_relative_time_of_other_text(s: Seq<char>, now: i64)
    ensures
        s.len() == 0 ==> relative_time(s, now) == "-"@,
        s.len() > 0 && parse_i64_spec(s) is None ==> relative_time(s, now) == s,
{
}

/// Renders a UNIX timestamp text relative to `now` (seconds).
pub fn format_duration_at(s: &str, now: i64) -> (r: String)
    requires
        parse_i64_spec(s@) matches Some(ts) ==> i64::MIN <= now - ts <= i64::MAX,
    ensures
        r@ == relative_time(s@, now),
{
    if s.unicode_len() == 0 {
        return owned("-");
    }
    match parse_i64(s) {
        Some(ts) => {
            let diff = now - ts;
            if diff < 60 {
                owned("刚刚")
            } else if diff < 3600 {
                let mut r = u64_to_string((diff / 60) as u64);
                push_str(&mut r, "分钟前");
                r
            } else if diff < 86400 {
                let mut r = u64_to_string((diff / 3600) as u64);
                push_str(&mut r, "小时前");
                r
            } else {
                let mut r = u64_to_string((diff / 86400) as u64);
                push_str(&mut r, "天前");
                r
            }
        },
        None => owned(s),
    }
}

/// The age of timestamp text `s` at `now` fits in 64 bits (or `s` is no
/// number).
pub open spec fn age_fits(s: Seq<char>, now: i64) -> bool {
    parse_i64_spec(s) matches Some(ts) ==> i64::MIN <= now - ts <= i64::MAX
}

/// How timestamp text `s` is shown given a clock reading: relative to it
/// when the age fits in 64 bits; as written when it does not, or when
/// there is no reading (`-` for empty text either way).
pub open spec fn duration_text(s: Seq<char>, now: Option<i64>) -> Seq<char> {
    match now {
        Some(n) => if age_fits(s, n) {
            relative_time(s, n)
        } else {
            s
        },
        None => if s.len() == 0 {
            "-"@
        } else {
            s
        },
    }
}

/// Renders a UNIX timestamp text against the clock reading `now` (see
/// `duration_text`).
pub fn format_duration_with(s: &str, now: Option<i64>) -> (r: String)
    ensures
        r@ == duration_text(s@, now),
{
    match now {
        Some(n) => match parse_i64(s) {
            Some(ts) => {
                let fits = if ts >= 0 {
                    n >= i64::MIN + ts
                } else {
                    n <= i64::MAX + ts
                };
                if fits {
                    format_duration_at(s, n)
                } else {
                    owned(s)
                }
            },
            None => format_duration_at(s, n),
        },
        None => {
            if s.unicode_len() == 0 {
                owned("-")
            } else {
                owned(s)
            }
        },
    }
}

/// Renders a UNIX timestamp text relative to the current time (see
/// `duration_text`): empty text is `-`; other text is shown against the
/// system clock when it reads a time from 1970 on, and as written when it
/// cannot be read.
pub fn format_duration(s: &str) -> (r: String)
    ensures
        s@.len() == 0 ==> r@ == "-"@,
        exists|now: Option<i64>| (now matches Some(n) ==> n >= 0) && r@ == duration_text(s@, now),
{
    let now = crate::clock::unix_seconds();
    format_duration_with(s, now)
}

} // verus!
