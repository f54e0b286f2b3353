//! The core's JSON answers and how proxies, subscriptions and their parts
//! are read from them, with a fallback for each missing field.

use vstd::prelude::*;
use crate::config::{index_of_key, lemma_index_of_key};
use crate::sort::{char_codes, stable_sort, str_lt, SortKey};
use vstd::string::*;
use crate::state::{HealthCheck, Provider, Proxy, ProxyHistory, SubscriptionInfo};
use crate::text::{decimal, opt_view, owned, parse_u64, parse_u64_spec, push_str, str_eq, write_decimal};

verus! {

/// A JSON value. Numbers keep their value when it is a whole number that
/// fits in a `u64`, and nothing else.
#[derive(Debug)]
pub enum Json {
    Null,
    Bool(bool),
    Number(Option<u64>),
    Str(String),
    Array(Vec<Json>),
    Object(Vec<(String, Json)>),
}

/// A JSON value as plain values.
pub enum JsonView {
    Null,
    Bool(bool),
    Number(Option<u64>),
    Str(Seq<char>),
    Array(Seq<JsonView>),
    Object(Seq<(Seq<char>, JsonView)>),
}

/// The plain value of a JSON value.
pub open spec fn json_view(j: Json) -> JsonView
    decreases j,
{
    match j {
        Json::Null => JsonView::Null,
        Json::Bool(b) => JsonView::Bool(b),
        Json::Number(n) => JsonView::Number(n),
        Json::Str(s) => JsonView::Str(s@),
        Json::Array(v) => JsonView::Array(
            Seq::new(v@.len(), |i: int| if 0 <= i < v@.len() { json_view(v@[i]) } else { JsonView::Null }),
        ),
        Json::Object(v) => JsonView::Object(
            Seq::new(
                v@.len(),
                |i: int|
                    if 0 <= i < v@.len() {
                        (v@[i].0@, json_view(v@[i].1))
                    } else {
                        (Seq::empty(), JsonView::Null)
                    },
            ),
        ),
    }
}

impl View for Json {
    type V = JsonView;

    open spec fn view(&self) -> JsonView {
        json_view(*self)
    }
}

/// Plain values of a list of JSON values.
pub open spec fn items_view(v: Seq<Json>) -> Seq<JsonView> {
    Seq::new(v.len(), |i: int| v[i]@)
}

/// Plain values of the entries of a JSON object.
pub open spec fn entries_view(v: Seq<(String, Json)>) -> Seq<(Seq<char>, JsonView)> {
    Seq::new(v.len(), |i: int| (v[i].0@, v[i].1@))
}

proof fn lemma_array_view(v: Vec<Json>)
    ensures
        Json::Array(v)@ == JsonView::Array(items_view(v@)),
{
    if let JsonView::Array(s) = json_view(Json::Array(v)) {
        assert(s =~= items_view(v@));
    }
}

proof fn lemma_object_view(v: Vec<(String, Json)>)
    ensures
        Json::Object(v)@ == JsonView::Object(entries_view(v@)),
{
    if let JsonView::Object(s) = json_view(Json::Object(v)) {
        assert(s =~= entries_view(v@));
    }
}

// ---------------------------------------------------------------- access

/// The member `k` of an object; nothing for other values.
pub open spec fn jget(v: JsonView, k: Seq<char>) -> Option<JsonView> {
    match v {
        JsonView::Object(m) => match index_of_key(m, k) {
            Some(i) => Some(m[i].1),
            None => None,
        },
        _ => None,
    }
}

/// The string of a string value.
pub open spec fn jstr(v: Option<JsonView>) -> Option<Seq<char>> {
    match v {
        Some(JsonView::Str(s)) => Some(s),
        _ => None,
    }
}

/// The truth value of a boolean value.
pub open spec fn jbool(v: Option<JsonView>) -> Option<bool> {
    match v {
        Some(JsonView::Bool(b)) => Some(b),
        _ => None,
    }
}

/// A whole number, or a string holding one.
pub open spec fn number_or_text(v: Option<JsonView>) -> Option<u64> {
    match v {
        Some(JsonView::Number(Some(n))) => Some(n),
        Some(JsonView::Str(s)) => parse_u64_spec(s),
        _ => None,
    }
}

/// Member `k` of a JSON value.
pub fn get<'a>(v: &'a Json, k: &str) -> (r: Option<&'a Json>)
    ensures
        match r {
            Some(x) => jget(v@, k@) == Some(x@),
            None => jget(v@, k@) is None,
        },
{
    match v {
        Json::Object(m) => {
            proof {
                lemma_object_view(*m);
                lemma_index_of_key(entries_view(m@), k@);
            }
            let ghost mv = entries_view(m@);
            let mut i: usize = 0;
            assert(mv.subrange(0, mv.len() as int) =~= mv);
            while i < m.len()
                invariant
                    i <= m@.len(),
                    mv == entries_view(m@),
                    v@ == JsonView::Object(mv),
                    index_of_key(mv, k@) == match index_of_key(mv.subrange(i as int, mv.len() as int), k@) {
                        Some(j) => Some(j + i),
                        None => None::<int>,
                    },
                decreases m@.len() - i,
            {
                assert(mv.subrange(i as int, mv.len() as int).drop_first() =~= mv.subrange(i + 1, mv.len() as int));
                if str_eq(m[i].0.as_str(), k) {
                    assert(mv[i as int].1 == m@[i as int].1@);
                    return Some(&m[i].1);
                }
                i = i + 1;
            }
            None
        },
        _ => None,
    }
}

/// The string of a value, if it is one.
pub fn as_str(v: Option<&Json>) -> (r: Option<&String>)
    ensures
        opt_view_ref(r) == jstr(opt_json(v)),
{
    match v {
        Some(Json::Str(s)) => Some(s),
        _ => None,
    }
}

/// The truth value of a value, if it is a boolean.
pub fn as_bool(v: Option<&Json>) -> (r: Option<bool>)
    ensures
        r == jbool(opt_json(v)),
{
    match v {
        Some(Json::Bool(b)) => Some(*b),
        _ => None,
    }
}

/// A whole number, or a string holding one.
pub fn as_number_or_text(v: Option<&Json>) -> (r: Option<u64>)
    ensures
        r == number_or_text(opt_json(v)),
{
    match v {
        Some(Json::Number(Some(n))) => Some(*n),
        Some(Json::Str(s)) => parse_u64(s.as_str()),
        _ => None,
    }
}

/// The plain value of an optional reference.
pub open spec fn opt_json(v: Option<&Json>) -> Option<JsonView> {
    match v {
        Some(x) => Some(x@),
        None => None,
    }
}

/// The characters of an optional string reference.
pub open spec fn opt_view_ref(v: Option<&String>) -> Option<Seq<char>> {
    match v {
        Some(s) => Some(s@),
        None => None,
    }
}

/// A copy of an optional string.
fn owned_opt(v: Option<&String>) -> (r: Option<String>)
    ensures
        opt_view(r) == opt_view_ref(v),
{
    match v {
        Some(s) => Some(s.clone()),
        None => None,
    }
}

// ---------------------------------------------------------------- delay history

/// A `u32` number.
pub open spec fn u32_of(v: JsonView) -> Option<u32> {
    match v {
        JsonView::Number(Some(n)) => if n <= u32::MAX {
            Some(n as u32)
        } else {
            None
        },
        _ => None,
    }
}

/// A delay measurement as plain values: time, delay, mean delay.
pub type HistoryView = (Seq<char>, u32, Option<u32>);

/// Reads the time of a measurement: a string, empty when missing.
pub open spec fn time_field(v: Option<JsonView>) -> Option<Seq<char>> {
    match v {
        None => Some(Seq::empty()),
        Some(JsonView::Str(s)) => Some(s),
        Some(_) => None,
    }
}

/// Reads the delay of a measurement: a `u32`, zero when missing.
pub open spec fn delay_field(v: Option<JsonView>) -> Option<u32> {
    match v {
        None => Some(0),
        Some(x) => u32_of(x),
    }
}

/// Reads the mean delay of a measurement: a `u32`, none when missing or
/// null.
pub open spec fn mean_field(v: Option<JsonView>) -> Option<Option<u32>> {
    match v {
        None => Some(None),
        Some(JsonView::Null) => Some(None),
        Some(x) => match u32_of(x) {
            Some(n) => Some(Some(n)),
            None => None,
        },
    }
}

/// One measurement of a proxy's delay history: an object with `time`,
/// `delay` and `meanDelay`, or an array of at most three of them in that
/// order; missing parts take their defaults, and anything of the wrong
/// kind makes the entry unreadable.
pub open spec fn history_entry(v: JsonView) -> Option<HistoryView> {
    let parts = match v {
        JsonView::Object(_) => Some((jget(v, "time"@), jget(v, "delay"@), jget(v, "meanDelay"@))),
        JsonView::Array(items) => if items.len() <= 3 {
            Some((
                if items.len() > 0 { Some(items[0]) } else { None },
                if items.len() > 1 { Some(items[1]) } else { None },
                if items.len() > 2 { Some(items[2]) } else { None },
            ))
        } else {
            None
        },
        _ => None,
    };
    match parts {
        Some((t, d, m)) => match (time_field(t), delay_field(d), mean_field(m)) {
            (Some(t), Some(d), Some(m)) => Some((t, d, m)),
            _ => None,
        },
        None => None,
    }
}

/// The readable measurements of a history list, in order.
pub open spec fn history_of(items: Seq<JsonView>) -> Seq<HistoryView>
    decreases items.len(),
{
    if items.len() == 0 {
        Seq::empty()
    } else {
        let rest = history_of(items.drop_last());
        match history_entry(items.last()) {
            Some(h) => rest.push(h),
            None => rest,
        }
    }
}

/// Measurements as plain values.
pub open spec fn history_view(h: Seq<ProxyHistory>) -> Seq<HistoryView> {
    Seq::new(h.len(), |i: int| (h[i].time@, h[i].delay, h[i].mean_delay))
}

fn u32_of_exec(v: &Json) -> (r: Option<u32>)
    ensures
        r == u32_of(v@),
{
    match v {
        Json::Number(Some(n)) => if *n <= 0xffff_ffff {
            Some(*n as u32)
        } else {
            None
        },
        _ => None,
    }
}

fn time_field_exec(v: Option<&Json>) -> (r: Option<String>)
    ensures
        opt_view(r) == time_field(opt_json(v)),
{
    match v {
        None => Some(String::new()),
        Some(Json::Str(s)) => Some(s.clone()),
        Some(_) => None,
    }
}

fn delay_field_exec(v: Option<&Json>) -> (r: Option<u32>)
    ensures
        r == delay_field(opt_json(v)),
{
    match v {
        None => Some(0),
        Some(x) => u32_of_exec(x),
    }
}

fn mean_field_exec(v: Option<&Json>) -> (r: Option<Option<u32>>)
    ensures
        r == mean_field(opt_json(v)),
{
    match v {
        None => Some(None),
        Some(Json::Null) => Some(None),
        Some(x) => match u32_of_exec(x) {
            Some(n) => Some(Some(n)),
            None => None,
        },
    }
}

/// Reads one measurement (see `history_entry`).
pub fn parse_history_entry(v: &Json) -> (r: Option<ProxyHistory>)
    ensures
        match r {
            Some(h) => history_entry(v@) == Some((h.time@, h.delay, h.mean_delay)),
            None => history_entry(v@) is None,
        },
{
    let (t, d, m) = match v {
        Json::Object(_) => (get(v, "time"), get(v, "delay"), get(v, "meanDelay")),
        Json::Array(items) => {
            proof {
                lemma_array_view(*items);
            }
            if items.len() <= 3 {
                (
                    if items.len() > 0 { Some(&items[0]) } else { None },
                    if items.len() > 1 { Some(&items[1]) } else { None },
                    if items.len() > 2 { Some(&items[2]) } else { None },
                )
            } else {
                return None;
            }
        },
        _ => {
            return None;
        },
    };
    match (time_field_exec(t), delay_field_exec(d), mean_field_exec(m)) {
        (Some(time), Some(delay), Some(mean_delay)) => Some(ProxyHistory { time, delay, mean_delay }),
        _ => None,
    }
}

/// Reads the measurements of a history list, skipping unreadable ones.
fn parse_history(items: &Vec<Json>) -> (r: Vec<ProxyHistory>)
    ensures
        history_view(r@) == history_of(items_view(items@)),
{
    let ghost iv = items_view(items@);
    let mut r: Vec<ProxyHistory> = Vec::new();
    let mut i: usize = 0;
    while i < items.len()
        invariant
            i <= items@.len(),
            iv == items_view(items@),
            history_view(r@) == history_of(iv.take(i as int)),
        decreases items@.len() - i,
    {
        assert(iv.take(i + 1).drop_last() =~= iv.take(i as int));
        assert(iv.take(i + 1).last() == items@[i as int]@);
        match parse_history_entry(&items[i]) {
            Some(h) => {
                let ghost before = r@;
                r.push(h);
                assert(history_view(r@) =~= history_view(before).push((h.time@, h.delay, h.mean_delay)));
            },
            None => {},
        }
        i = i + 1;
    }
    assert(iv.take(items@.len() as int) =~= iv);
    r
}

// ---------------------------------------------------------------- proxies

/// The strings among a list of values, in order.
pub open spec fn strings_of(items: Seq<JsonView>) -> Seq<Seq<char>>
    decreases items.len(),
{
    if items.len() == 0 {
        Seq::empty()
    } else {
        let rest = strings_of(items.drop_last());
        match items.last() {
            JsonView::Str(s) => rest.push(s),
            _ => rest,
        }
    }
}

/// The items of an array value.
pub open spec fn jarray(v: Option<JsonView>) -> Option<Seq<JsonView>> {
    match v {
        Some(JsonView::Array(items)) => Some(items),
        _ => None,
    }
}

/// `p` is what the proxy value `v` under key `name` reads as: its own name
/// (else `name`), its type (else empty), current member, string members,
/// readable history, flags and icon.
pub open spec fn proxy_read(p: Proxy, name: Seq<char>, v: JsonView) -> bool {
    &&& p.name@ == match jstr(jget(v, "name"@)) {
        Some(s) => s,
        None => name,
    }
    &&& p.proxy_type@ == match jstr(jget(v, "type"@)) {
        Some(s) => s,
        None => Seq::empty(),
    }
    &&& opt_view(p.now) == jstr(jget(v, "now"@))
    &&& match jarray(jget(v, "all"@)) {
        Some(items) => p.all matches Some(a) && crate::text::views_of(a@) == strings_of(items),
        None => p.all is None,
    }
    &&& history_view(p.history@) == match jarray(jget(v, "history"@)) {
        Some(items) => history_of(items),
        None => Seq::empty(),
    }
    &&& p.udp == jbool(jget(v, "udp"@))
    &&& p.xudp == jbool(jget(v, "xudp"@))
    &&& p.tfo == jbool(jget(v, "tfo"@))
    &&& p.mptcp == jbool(jget(v, "mptcp"@))
    &&& opt_view(p.icon) == jstr(jget(v, "icon"@))
}

/// The items of an array value, if it is one.
fn as_array(v: Option<&Json>) -> (r: Option<&Vec<Json>>)
    ensures
        match r {
            Some(items) => jarray(opt_json(v)) == Some(items_view(items@)),
            None => jarray(opt_json(v)) is None,
        },
{
    match v {
        Some(Json::Array(items)) => {
            proof {
                lemma_array_view(*items);
            }
            Some(items)
        },
        _ => None,
    }
}

/// The strings among a list of values.
fn strings_in(items: &Vec<Json>) -> (r: Vec<String>)
    ensures
        crate::text::views_of(r@) == strings_of(items_view(items@)),
{
    let ghost iv = items_view(items@);
    let mut r: Vec<String> = Vec::new();
    let mut i: usize = 0;
    while i < items.len()
        invariant
            i <= items@.len(),
            iv == items_view(items@),
            crate::text::views_of(r@) == strings_of(iv.take(i as int)),
        decreases items@.len() - i,
    {
        assert(iv.take(i + 1).drop_last() =~= iv.take(i as int));
        assert(iv.take(i + 1).last() == items@[i as int]@);
        match &items[i] {
            Json::Str(s) => {
                let ghost before = r@;
                r.push(s.clone());
                assert(crate::text::views_of(r@) =~= crate::text::views_of(before).push(s@));
            },
            _ => {},
        }
        i = i + 1;
    }
    assert(iv.take(items@.len() as int) =~= iv);
    r
}

/// Reads a proxy the core reports under key `name` (see `proxy_read`).
pub fn parse_proxy(name: &str, v: &Json) -> (r: Proxy)
    ensures
        proxy_read(r, name@, v@),
{
    let proxy_name = match as_str(get(v, "name")) {
        Some(s) => s.clone(),
        None => owned(name),
    };
    let proxy_type = match as_str(get(v, "type")) {
        Some(s) => s.clone(),
        None => String::new(),
    };
    let all = match as_array(get(v, "all")) {
        Some(items) => Some(strings_in(items)),
        None => None,
    };
    let history = match as_array(get(v, "history")) {
        Some(items) => parse_history(items),
        None => {
            let h: Vec<ProxyHistory> = Vec::new();
            assert(history_view(h@) =~= Seq::<HistoryView>::empty());
            h
        },
    };
    Proxy {
        name: proxy_name,
        proxy_type,
        now: owned_opt(as_str(get(v, "now"))),
        all,
        history,
        udp: as_bool(get(v, "udp")),
        xudp: as_bool(get(v, "xudp")),
        tfo: as_bool(get(v, "tfo")),
        mptcp: as_bool(get(v, "mptcp")),
        icon: owned_opt(as_str(get(v, "icon"))),
    }
}

// ---------------------------------------------------------------- subscriptions

/// The first of two members that is present.
pub open spec fn either(v: JsonView, a: Seq<char>, b: Seq<char>) -> Option<JsonView> {
    match jget(v, a) {
        Some(x) => Some(x),
        None => jget(v, b),
    }
}

/// The traffic quota read from a value: an object with `upload`,
/// `download` and `total` (or their capitalised forms), each a whole
/// number or a string holding one, and an optional `expire` (zero when
/// missing or unreadable).
pub open spec fn quota_of(v: Option<JsonView>) -> Option<SubscriptionInfo> {
    match v {
        Some(o) => match o {
            JsonView::Object(_) => match (
                number_or_text(either(o, "upload"@, "Upload"@)),
                number_or_text(either(o, "download"@, "Download"@)),
                number_or_text(either(o, "total"@, "Total"@)),
            ) {
                (Some(u), Some(d), Some(t)) => Some(
                    SubscriptionInfo {
                        upload: u,
                        download: d,
                        total: t,
                        expire: match number_or_text(either(o, "expire"@, "Expire"@)) {
                            Some(e) => e,
                            None => 0,
                        },
                    },
                ),
                _ => None,
            },
            _ => None,
        },
        None => None,
    }
}

/// A measurement object is read member for member: its time is the string
/// under `time`, its delay the number under `delay`, and its mean delay
/// the number under `meanDelay` (none when that member is missing).
pub proof fn law_history_entry_reads_each_member(o: JsonView, t: Seq<char>, d: u64, m: Option<u64>)
    requires
        o is Object,
        jget(o, "time"@) == Some(JsonView::Str(t)),
        jget(o, "delay"@) == Some(JsonView::Number(Some(d))),
        d <= u32::MAX,
        match m {
            Some(x) => x <= u32::MAX && jget(o, "meanDelay"@) == Some(JsonView::Number(Some(x))),
            None => jget(o, "meanDelay"@) is None,
        },
    ensures
        history_entry(o) is Some,
        history_entry(o)->Some_0.0 == t,
        history_entry(o)->Some_0.1 == d,
        history_entry(o)->Some_0.2 == match m {
            Some(x) => Some(x as u32),
            None => None::<u32>,
        },
{
}

/// A proxy read from the core's answer takes each field from its own
/// member: the name under `name` (the key when there is none), the type
/// under `type`, the current node under `now`, the flags under `udp`,
/// `xudp`, `tfo` and `mptcp`, and the icon under `icon`.
pub proof fn law_proxy_reads_each_member(p: Proxy, key: Seq<char>, v: JsonView)
    requires
        proxy_read(p, key, v),
    ensures
        forall|s: Seq<char>| jget(v, "name"@) == Some(JsonView::Str(s)) ==> p.name@ == s,
        jget(v, "name"@) is None ==> p.name@ == key,
        forall|s: Seq<char>| jget(v, "type"@) == Some(JsonView::Str(s)) ==> p.proxy_type@ == s,
        forall|s: Seq<char>| jget(v, "now"@) == Some(JsonView::Str(s)) ==> p.now is Some && p.now->Some_0@ == s,
        jget(v, "now"@) is None ==> p.now is None,
        forall|b: bool| jget(v, "udp"@) == Some(JsonView::Bool(b)) ==> p.udp == Some(b),
        forall|b: bool| jget(v, "xudp"@) == Some(JsonView::Bool(b)) ==> p.xudp == Some(b),
        forall|b: bool| jget(v, "tfo"@) == Some(JsonView::Bool(b)) ==> p.tfo == Some(b),
        forall|b: bool| jget(v, "mptcp"@) == Some(JsonView::Bool(b)) ==> p.mptcp == Some(b),
        forall|s: Seq<char>| jget(v, "icon"@) == Some(JsonView::Str(s)) ==> p.icon is Some && p.icon->Some_0@ == s,
{
}

/// A subscription read from the core's answer takes each field from its
/// own member: the name under `name` (the key when there is none), the
/// type under `type`, the vehicle type under `vehicleType` and the cache
/// path under `path`.
pub proof fn law_provider_reads_each_member(p: Provider, key: Seq<char>, v: JsonView)
    requires
        provider_read(p, key, v),
    ensures
        forall|s: Seq<char>| jget(v, "name"@) == Some(JsonView::Str(s)) ==> p.name@ == s,
        jget(v, "name"@) is None ==> p.name@ == key,
        forall|s: Seq<char>| jget(v, "type"@) == Some(JsonView::Str(s)) ==> p.provider_type@ == s,
        forall|s: Seq<char>| jget(v, "vehicleType"@) == Some(JsonView::Str(s)) ==> p.vehicle_type@ == s,
        forall|s: Seq<char>| jget(v, "path"@) == Some(JsonView::Str(s)) ==> p.path is Some && p.path->Some_0@ == s,
        jget(v, "path"@) is None ==> p.path is None,
{
}

/// A quota object with whole numbers under `upload`, `download` and
/// `total` is read member for member: its upload is the number under
/// `upload`, its download the number under `download`, its total the
/// number under `total`, and its expiry the number under `expire` (zero
/// when it has none).
pub proof fn law_quota_reads_each_member(o: JsonView, u: u64, d: u64, t: u64)
    requires
        o is Object,
        jget(o, "upload"@) == Some(JsonView::Number(Some(u))),
        jget(o, "download"@) == Some(JsonView::Number(Some(d))),
        jget(o, "total"@) == Some(JsonView::Number(Some(t))),
    ensures
        quota_of(Some(o)) is Some,
        quota_of(Some(o))->Some_0.upload == u,
        quota_of(Some(o))->Some_0.download == d,
        quota_of(Some(o))->Some_0.total == t,
        jget(o, "expire"@) is None && jget(o, "Expire"@) is None ==> quota_of(Some(o))->Some_0.expire == 0,
        forall|e: u64| jget(o, "expire"@) == Some(JsonView::Number(Some(e))) ==> quota_of(Some(o))->Some_0.expire
            == e,
{
}

/// The capitalised members are read when the lower-case ones are missing:
/// the upload is the number under `Upload`, the download the number under
/// `Download`, the total the number under `Total`, the expiry the number
/// under `Expire`.
pub proof fn law_quota_reads_capitalised_members(o: JsonView, u: u64, d: u64, t: u64, e: u64)
    requires
        o is Object,
        jget(o, "upload"@) is None && jget(o, "Upload"@) == Some(JsonView::Number(Some(u))),
        jget(o, "download"@) is None && jget(o, "Download"@) == Some(JsonView::Number(Some(d))),
        jget(o, "total"@) is None && jget(o, "Total"@) == Some(JsonView::Number(Some(t))),
        jget(o, "expire"@) is None && jget(o, "Expire"@) == Some(JsonView::Number(Some(e))),
    ensures
        quota_of(Some(o)) == Some(SubscriptionInfo { upload: u, download: d, total: t, expire: e }),
{
}

/// A subscription read from the core's answer carries the quota under its
/// `subscriptionInfo` member, upload as upload and download as download.
pub proof fn law_provider_quota_keeps_upload_and_download(p: Provider, name: Seq<char>, v: JsonView, o: JsonView, u: u64, d: u64, t: u64)
    requires
        provider_read(p, name, v),
        jget(v, "subscriptionInfo"@) == Some(o),
        o is Object,
        either(o, "upload"@, "Upload"@) == Some(JsonView::Number(Some(u))),
        either(o, "download"@, "Download"@) == Some(JsonView::Number(Some(d))),
        either(o, "total"@, "Total"@) == Some(JsonView::Number(Some(t))),
    ensures
        p.subscription_info is Some,
        p.subscription_info->Some_0.upload == u,
        p.subscription_info->Some_0.download == d,
        p.subscription_info->Some_0.total == t,
{
}

/// The member `a`, else `b`.
fn either_exec<'a>(v: &'a Json, a: &str, b: &str) -> (r: Option<&'a Json>)
    ensures
        opt_json(r) == either(v@, a@, b@),
{
    match get(v, a) {
        Some(x) => Some(x),
        None => get(v, b),
    }
}

/// Reads a traffic quota (see `quota_of`).
pub fn parse_subscription_info(v: Option<&Json>) -> (r: Option<SubscriptionInfo>)
    ensures
        r == quota_of(opt_json(v)),
{
    let o = match v {
        Some(o) => o,
        None => {
            return None;
        },
    };
    match o {
        Json::Object(_) => {},
        _ => {
            return None;
        },
    }
    let upload = match as_number_or_text(either_exec(o, "upload", "Upload")) {
        Some(n) => n,
        None => {
            return None;
        },
    };
    let download = match as_number_or_text(either_exec(o, "download", "Download")) {
        Some(n) => n,
        None => {
            return None;
        },
    };
    let total = match as_number_or_text(either_exec(o, "total", "Total")) {
        Some(n) => n,
        None => {
            return None;
        },
    };
    let expire = match as_number_or_text(either_exec(o, "expire", "Expire")) {
        Some(n) => n,
        None => 0,
    };
    Some(SubscriptionInfo { upload, download, total, expire })
}

/// The health check read from an object: `enable` (off unless true),
/// `url` (empty unless a string) and `interval` (a whole number or a
/// string holding one, its low 32 bits; zero otherwise).
pub open spec fn health_check_read(h: HealthCheck, o: JsonView) -> bool {
    &&& h.enable == match jbool(jget(o, "enable"@)) {
        Some(b) => b,
        None => false,
    }
    &&& h.url@ == match jstr(jget(o, "url"@)) {
        Some(s) => s,
        None => Seq::empty(),
    }
    &&& h.interval == match number_or_text(jget(o, "interval"@)) {
        Some(n) => n as u32,
        None => 0,
    }
}

/// Reads health-check settings: none unless the value is an object.
pub fn parse_health_check(v: Option<&Json>) -> (r: Option<HealthCheck>)
    ensures
        match opt_json(v) {
            Some(o) => match o {
                JsonView::Object(_) => r matches Some(h) && health_check_read(h, o),
                _ => r is None,
            },
            None => r is None,
        },
{
    let o = match v {
        Some(o) => o,
        None => {
            return None;
        },
    };
    match o {
        Json::Object(_) => {},
        _ => {
            return None;
        },
    }
    let enable = match as_bool(get(o, "enable")) {
        Some(b) => b,
        None => false,
    };
    let url = match as_str(get(o, "url")) {
        Some(s) => s.clone(),
        None => String::new(),
    };
    let interval: u32 = match as_number_or_text(get(o, "interval")) {
        Some(n) => n as u32,
        None => 0,
    };
    Some(HealthCheck { enable, url, interval })
}

/// The key under which the `i`th proxy of subscription `name` is read.
pub open spec fn member_key(name: Seq<char>, i: nat) -> Seq<char> {
    name + "#"@ + decimal(i)
}

/// `p` is what the subscription value `v` under key `name` reads as: its
/// own name (else `name`), type, vehicle (`unknown` when unreadable), its
/// proxies each under `name#index`, update time, path, quota and health
/// check.
pub open spec fn provider_read(p: Provider, name: Seq<char>, v: JsonView) -> bool {
    &&& p.name@ == match jstr(jget(v, "name"@)) {
        Some(s) => s,
        None => name,
    }
    &&& p.provider_type@ == match jstr(jget(v, "type"@)) {
        Some(s) => s,
        None => Seq::empty(),
    }
    &&& p.vehicle_type@ == match jstr(either(v, "vehicleType"@, "vehicle_type"@)) {
        Some(s) => s,
        None => "unknown"@,
    }
    &&& match jarray(jget(v, "proxies"@)) {
        Some(items) => p.proxies@.len() == items.len() && forall|i: int|
            0 <= i < items.len() ==> proxy_read(#[trigger] p.proxies@[i], member_key(name, i as nat), items[i]),
        None => p.proxies@.len() == 0,
    }
    &&& opt_view(p.updated_at) == jstr(either(v, "updatedAt"@, "updated_at"@))
    &&& opt_view(p.path) == jstr(jget(v, "path"@))
    &&& p.subscription_info == quota_of(either(v, "subscriptionInfo"@, "subscription_info"@))
    &&& match either(v, "healthCheck"@, "health_check"@) {
        Some(o) => match o {
            JsonView::Object(_) => p.health_check matches Some(h) && health_check_read(h, o),
            _ => p.health_check is None,
        },
        None => p.health_check is None,
    }
}

/// Reads a subscription the core reports under key `name` (see
/// `provider_read`).
pub fn parse_provider(name: &str, v: &Json) -> (r: Provider)
    ensures
        provider_read(r, name@, v@),
{
    let provider_name = match as_str(get(v, "name")) {
        Some(s) => s.clone(),
        None => owned(name),
    };
    let provider_type = match as_str(get(v, "type")) {
        Some(s) => s.clone(),
        None => String::new(),
    };
    let vehicle_type = match as_str(either_exec(v, "vehicleType", "vehicle_type")) {
        Some(s) => s.clone(),
        None => owned("unknown"),
    };
    let mut proxies: Vec<Proxy> = Vec::new();
    match as_array(get(v, "proxies")) {
        Some(items) => {
            let ghost iv = items_view(items@);
            let mut i: usize = 0;
            while i < items.len()
                invariant
                    i <= items@.len(),
                    iv == items_view(items@),
                    proxies@.len() == i,
                    forall|j: int| 0 <= j < i ==> proxy_read(#[trigger] proxies@[j], member_key(name@, j as nat), iv[j]),
                decreases items@.len() - i,
            {
                let mut key = owned(name);
                push_str(&mut key, "#");
                write_decimal(&mut key, i as u64);
                proxies.push(parse_proxy(key.as_str(), &items[i]));
                i = i + 1;
            }
        },
        None => {},
    }
    Provider {
        name: provider_name,
        provider_type,
        vehicle_type,
        proxies,
        updated_at: owned_opt(as_str(either_exec(v, "updatedAt", "updated_at"))),
        subscription_info: parse_subscription_info(either_exec(v, "subscriptionInfo", "subscription_info")),
        path: owned_opt(as_str(get(v, "path"))),
        health_check: parse_health_check(either_exec(v, "healthCheck", "health_check")),
    }
}

// ---------------------------------------------------------------- whole answers

/// The entries of the object under member `k`.
fn object_member<'a>(data: &'a Json, k: &str) -> (r: Option<&'a Vec<(String, Json)>>)
    ensures
        match r {
            Some(m) => jget(data@, k@) == Some(JsonView::Object(entries_view(m@))),
            None => !(jget(data@, k@) matches Some(JsonView::Object(_))),
        },
{
    match get(data, k) {
        Some(Json::Object(m)) => {
            proof {
                lemma_object_view(*m);
            }
            Some(m)
        },
        _ => None,
    }
}

/// The number of proxies of each subscription in the core's answer: the
/// length of its `proxies` list, zero when it has none. `None` when the
/// answer has no `providers` object.
pub fn provider_proxy_counts(data: &Json) -> (r: Option<Vec<(String, usize)>>)
    ensures
        match jget(data@, "providers"@) {
            Some(JsonView::Object(m)) => r matches Some(c) && c@.len() == m.len() && forall|i: int|
                0 <= i < m.len() ==> (#[trigger] c@[i]).0@ == m[i].0 && c@[i].1 == match jarray(
                    jget(m[i].1, "proxies"@),
                ) {
                    Some(items) => items.len(),
                    None => 0,
                },
            _ => r is None,
        },
{
    let m = match object_member(data, "providers") {
        Some(m) => m,
        None => {
            return None;
        },
    };
    let ghost mv = entries_view(m@);
    let mut r: Vec<(String, usize)> = Vec::new();
    let mut i: usize = 0;
    while i < m.len()
        invariant
            i <= m@.len(),
            mv == entries_view(m@),
            r@.len() == i,
            forall|j: int|
                0 <= j < i ==> (#[trigger] r@[j]).0@ == mv[j].0 && r@[j].1 == match jarray(jget(mv[j].1, "proxies"@)) {
                    Some(items) => items.len(),
                    None => 0,
                },
        decreases m@.len() - i,
    {
        let count = match as_array(get(&m[i].1, "proxies")) {
            Some(items) => items.len(),
            None => 0,
        };
        r.push((m[i].0.clone(), count));
        i = i + 1;
    }
    Some(r)
}

/// Every proxy of the core's answer, by key. `None` when the answer has
/// no `proxies` object.
pub fn proxies_response(data: &Json) -> (r: Option<Vec<(String, Proxy)>>)
    ensures
        match jget(data@, "proxies"@) {
            Some(JsonView::Object(m)) => r matches Some(c) && c@.len() == m.len() && forall|i: int|
                0 <= i < m.len() ==> (#[trigger] c@[i]).0@ == m[i].0 && proxy_read(c@[i].1, m[i].0, m[i].1),
            _ => r is None,
        },
{
    let m = match object_member(data, "proxies") {
        Some(m) => m,
        None => {
            return None;
        },
    };
    let ghost mv = entries_view(m@);
    let mut r: Vec<(String, Proxy)> = Vec::new();
    let mut i: usize = 0;
    while i < m.len()
        invariant
            i <= m@.len(),
            mv == entries_view(m@),
            r@.len() == i,
            forall|j: int| 0 <= j < i ==> (#[trigger] r@[j]).0@ == mv[j].0 && proxy_read(r@[j].1, mv[j].0, mv[j].1),
        decreases m@.len() - i,
    {
        let p = parse_proxy(m[i].0.as_str(), &m[i].1);
        r.push((m[i].0.clone(), p));
        i = i + 1;
    }
    Some(r)
}

/// A proxy group ordered by its name.
pub struct ByName(pub Proxy);

impl SortKey for ByName {
    open spec fn sort_key(&self) -> Seq<int> {
        char_codes(self.0.name@)
    }

    fn key_lt(&self, other: &Self) -> (r: bool) {
        str_lt(self.0.name.as_str(), other.0.name.as_str())
    }
}

/// The proxies that have a member list (the groups), in order.
pub open spec fn with_members(all: Seq<(String, Proxy)>) -> Seq<Proxy>
    decreases all.len(),
{
    if all.len() == 0 {
        Seq::empty()
    } else {
        let rest = with_members(all.drop_last());
        if all.last().1.all is Some {
            rest.push(all.last().1)
        } else {
            rest
        }
    }
}

/// Groups wrapped for ordering by name.
pub open spec fn groups_keyed(g: Seq<Proxy>) -> Seq<ByName> {
    Seq::new(g.len(), |i: int| ByName(g[i]))
}

/// The proxy groups among all proxies (those with a member list), ordered
/// by name, keeping their order among equal names.
pub fn proxy_groups(all: Vec<(String, Proxy)>) -> (r: Vec<Proxy>)
    ensures
        crate::sort::sorted_by_key(groups_keyed(r@), true),
        crate::sort::same_per_key(groups_keyed(r@), groups_keyed(with_members(all@))),
        r@.len() == with_members(all@).len(),
{
    let ghost a0 = all@;
    let mut all = all;
    let mut keyed: Vec<ByName> = Vec::new();
    assert(a0.take(0) =~= Seq::<(String, Proxy)>::empty());
    assert(groups_keyed(with_members(a0.take(0))) =~= keyed@);
    assert(a0.subrange(0, a0.len() as int) =~= a0);
    while all.len() > 0
        invariant
            all@.len() <= a0.len(),
            all@ == a0.subrange(a0.len() - all@.len(), a0.len() as int),
            keyed@ == groups_keyed(with_members(a0.take(a0.len() - all@.len()))),
        decreases all@.len(),
    {
        let ghost k = a0.len() - all@.len();
        assert(all@[0] == a0[k]);
        assert(a0.take(k + 1).drop_last() =~= a0.take(k));
        assert(a0.take(k + 1).last() == a0[k]);
        let (_, p) = all.remove(0);
        assert(all@ =~= a0.subrange(k + 1, a0.len() as int));
        if p.all.is_some() {
            let ghost before = keyed@;
            keyed.push(ByName(p));
            assert(keyed@ =~= groups_keyed(with_members(a0.take(k + 1))));
        } else {
            assert(keyed@ =~= groups_keyed(with_members(a0.take(k + 1))));
        }
    }
    assert(a0.take(a0.len() as int) =~= a0);
    let sorted = stable_sort(keyed, true);
    let ghost s = sorted@;
    let mut sorted = sorted;
    let mut out: Vec<Proxy> = Vec::new();
    assert(s.subrange(0, s.len() as int) =~= s);
    while sorted.len() > 0
        invariant
            out@.len() + sorted@.len() == s.len(),
            forall|j: int| 0 <= j < out@.len() ==> ByName(#[trigger] out@[j]) == s[j],
            sorted@ == s.subrange(out@.len() as int, s.len() as int),
        decreases sorted@.len(),
    {
        assert(sorted@[0] == s[out@.len() as int]);
        let ByName(p) = sorted.remove(0);
        out.push(p);
        assert(sorted@ =~= s.subrange(out@.len() as int, s.len() as int));
    }
    assert(groups_keyed(out@) =~= s);
    out
}

/// Every subscription of the core's answer, read under its key, in the
/// answer's order. `None` when the answer has no `providers` object.
pub fn providers_read(data: &Json) -> (r: Option<Vec<Provider>>)
    ensures
        match jget(data@, "providers"@) {
            Some(JsonView::Object(m)) => r matches Some(c) && c@.len() == m.len() && forall|i: int|
                0 <= i < m.len() ==> provider_read(#[trigger] c@[i], m[i].0, m[i].1),
            _ => r is None,
        },
{
    let m = match object_member(data, "providers") {
        Some(m) => m,
        None => {
            return None;
        },
    };
    let ghost mv = entries_view(m@);
    let mut r: Vec<Provider> = Vec::new();
    let mut i: usize = 0;
    while i < m.len()
        invariant
            i <= m@.len(),
            mv == entries_view(m@),
            r@.len() == i,
            forall|j: int| 0 <= j < i ==> provider_read(#[trigger] r@[j], mv[j].0, mv[j].1),
        decreases m@.len() - i,
    {
        r.push(parse_provider(m[i].0.as_str(), &m[i].1));
        i = i + 1;
    }
    Some(r)
}

// ---------------------------------------------------------------- answer text

/// The value `serde_json` reads from `text`, as plain values; nothing
/// when the text is not JSON.
pub uninterp spec fn json_read(text: Seq<char>) -> Option<JsonView>;

#[verifier::external_type_specification]
#[verifier::external_body]
pub struct ExJsonValue(serde_json::Value);

/// A `serde_json::Value` as a JSON value, one variant for another: a
/// number keeps `as_u64`, its value when it is a whole number that fits in
/// a `u64`. No contract: it is the conversion half of `parse_json`.
#[verifier::external_body]
fn json_of_value(v: &serde_json::Value) -> Json {
    match v {
        serde_json::Value::Null => Json::Null,
        serde_json::Value::Bool(b) => Json::Bool(*b),
        serde_json::Value::Number(n) => Json::Number(n.as_u64()),
        serde_json::Value::String(s) => Json::Str(s.clone()),
        serde_json::Value::Array(items) => Json::Array(items.iter().map(json_of_value).collect()),
        serde_json::Value::Object(map) => Json::Object(
            map.iter().map(|(k, v)| (k.clone(), json_of_value(v))).collect(),
        ),
    }
}

/// Reads JSON text with `serde_json::from_str` into a
/// `serde_json::Value` and gives it as a JSON value: the value `json_read`
/// names, or, when there is none, `serde_json`'s error message.
#[verifier::external_body]
pub(crate) fn parse_json(text: &str) -> (r: Result<Json, String>)
    ensures
        match r {
            Ok(d) => json_read(text@) == Some(d@),
            Err(_) => json_read(text@) is None,
        },
{
    match serde_json::from_str::<serde_json::Value>(text) {
        Ok(v) => Ok(json_of_value(&v)),
        Err(e) => Err(e.to_string()),
    }
}

/// Why an answer of the core could not be read.
#[derive(Debug)]
pub enum AnswerError {
    /// The answer is not JSON; holds the reader's message.
    NotJson(String),
    /// The answer lacks the object the request is for.
    Missing,
}

/// `c` reads each subscription of the core's `providers` object `m`, in
/// order.
pub open spec fn providers_listed(c: Seq<Provider>, m: Seq<(Seq<char>, JsonView)>) -> bool {
    &&& c.len() == m.len()
    &&& forall|i: int| 0 <= i < m.len() ==> provider_read(#[trigger] c[i], m[i].0, m[i].1)
}

/// The subscriptions of the core's answer text, ordered by name and, among
/// equal names, as the answer lists them.
pub fn providers_answer(body: &str) -> (r: Result<Vec<Provider>, AnswerError>)
    ensures
        match json_read(body@) {
            None => r matches Err(AnswerError::NotJson(_)),
            Some(d) => match jget(d, "providers"@) {
                Some(JsonView::Object(m)) => r matches Ok(ps) && exists|c: Seq<Provider>|
                    providers_listed(c, m) && crate::sort::sorted_by_key(ps@, true)
                        && crate::sort::same_per_key(ps@, c),
                _ => r matches Err(AnswerError::Missing),
            },
        },
{
    let data = match parse_json(body) {
        Ok(d) => d,
        Err(e) => {
            return Err(AnswerError::NotJson(e));
        },
    };
    match providers_read(&data) {
        Some(c) => {
            let ghost read = c@;
            let ps = stable_sort(c, true);
            assert(providers_listed(read, jget(data@, "providers"@)->Some_0->Object_0));
            Ok(ps)
        },
        None => Err(AnswerError::Missing),
    }
}

/// The number of proxies of each subscription in the core's answer text
/// (see `provider_proxy_counts`).
pub fn provider_counts_answer(body: &str) -> (r: Result<Vec<(String, usize)>, AnswerError>)
    ensures
        match json_read(body@) {
            None => r matches Err(AnswerError::NotJson(_)),
            Some(d) => match jget(d, "providers"@) {
                Some(JsonView::Object(m)) => r matches Ok(c) && c@.len() == m.len() && forall|i: int|
                    0 <= i < m.len() ==> (#[trigger] c@[i]).0@ == m[i].0 && c@[i].1 == match jarray(
                        jget(m[i].1, "proxies"@),
                    ) {
                        Some(items) => items.len(),
                        None => 0,
                    },
                _ => r matches Err(AnswerError::Missing),
            },
        },
{
    match parse_json(body) {
        Ok(data) => match provider_proxy_counts(&data) {
            Some(c) => Ok(c),
            None => Err(AnswerError::Missing),
        },
        Err(e) => Err(AnswerError::NotJson(e)),
    }
}

/// Every proxy of the core's answer text, by key (see `proxies_response`).
pub fn proxies_answer(body: &str) -> (r: Result<Vec<(String, Proxy)>, AnswerError>)
    ensures
        match json_read(body@) {
            None => r matches Err(AnswerError::NotJson(_)),
            Some(d) => match jget(d, "proxies"@) {
                Some(JsonView::Object(m)) => r matches Ok(c) && c@.len() == m.len() && forall|i: int|
                    0 <= i < m.len() ==> (#[trigger] c@[i]).0@ == m[i].0 && proxy_read(c@[i].1, m[i].0, m[i].1),
                _ => r matches Err(AnswerError::Missing),
            },
        },
{
    match parse_json(body) {
        Ok(data) => match proxies_response(&data) {
            Some(c) => Ok(c),
            None => Err(AnswerError::Missing),
        },
        Err(e) => Err(AnswerError::NotJson(e)),
    }
}

/// The delay in the core's answer text to a delay test: its `delay`
/// member as a whole number cut to 32 bits, zero when there is none.
pub fn delay_answer(body: &str) -> (r: Result<u32, AnswerError>)
    ensures
        match json_read(body@) {
            None => r matches Err(AnswerError::NotJson(_)),
            Some(d) => r matches Ok(v) && v == match jget(d, "delay"@) {
                Some(JsonView::Number(Some(n))) => n as u32,
                _ => 0u32,
            },
        },
{
    match parse_json(body) {
        Ok(data) => match get(&data, "delay") {
            Some(Json::Number(Some(n))) => Ok(*n as u32),
            _ => Ok(0),
        },
        Err(e) => Err(AnswerError::NotJson(e)),
    }
}

} // verus!
