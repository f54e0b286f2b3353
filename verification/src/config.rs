//! The local configuration file: its model and the edits the dashboard
//! makes to it.

use vstd::prelude::*;
use crate::text::{opt_view, owned, push_str, str_eq, views_of};
use crate::yaml::{
    add_to_entry_list, clone_list, entry_with_item, list_eq, yaml_clone, yaml_eq, key_index, lemma_list_view, lemma_mapping_view,
    list_node_without, list_view, map_get, mapping_view, node_mapping, node_str,
    remove_from_list_node, replace_core, str_of, untag, yaml_str, find_key, Yaml, YamlView,
};

verus! {

/// Where the configuration file lives, and whether the user named it.
#[derive(Debug)]
pub struct ConfigManager {
    pub config_path: String,
    pub explicit_config: bool,
}

/// Health-check settings of a subscription in the configuration file.
#[derive(Debug)]
pub struct HealthCheckConfig {
    pub enable: bool,
    pub interval: Option<u32>,
    pub url: Option<String>,
}

/// A subscription (`proxy-providers` entry) in the configuration file.
#[derive(Debug)]
pub struct ProviderConfig {
    pub provider_type: String,
    pub url: String,
    pub interval: Option<u32>,
    pub path: Option<String>,
    pub health_check: Option<HealthCheckConfig>,
    pub extra: Vec<(String, Yaml)>,
}

/// The configuration file. Keys the dashboard does not know are kept in
/// `extra`; tables are lists of (key, value) in file order with distinct
/// keys.
#[derive(Debug)]
pub struct ClashConfig {
    pub port: Option<u16>,
    pub socks_port: Option<u16>,
    pub redir_port: Option<u16>,
    pub tproxy_port: Option<u16>,
    pub mixed_port: Option<u16>,
    pub external_controller: Option<String>,
    pub secret: Option<String>,
    pub mode: Option<String>,
    pub allow_lan: Option<bool>,
    pub bind_address: Option<String>,
    pub log_level: Option<String>,
    pub proxy_providers: Option<Vec<(String, ProviderConfig)>>,
    pub proxy_groups: Option<Vec<Yaml>>,
    pub proxies: Option<Vec<Yaml>>,
    pub extra: Vec<(String, Yaml)>,
}

/// Health-check settings as plain values.
pub struct HealthCheckView {
    pub enable: bool,
    pub interval: Option<u32>,
    pub url: Option<Seq<char>>,
}

/// A subscription as plain values.
pub struct ProviderView {
    pub provider_type: Seq<char>,
    pub url: Seq<char>,
    pub interval: Option<u32>,
    pub path: Option<Seq<char>>,
    pub health_check: Option<HealthCheckView>,
    pub extra: Seq<(Seq<char>, YamlView)>,
}

/// The configuration as plain values.
pub struct ClashConfigView {
    pub port: Option<u16>,
    pub socks_port: Option<u16>,
    pub redir_port: Option<u16>,
    pub tproxy_port: Option<u16>,
    pub mixed_port: Option<u16>,
    pub external_controller: Option<Seq<char>>,
    pub secret: Option<Seq<char>>,
    pub mode: Option<Seq<char>>,
    pub allow_lan: Option<bool>,
    pub bind_address: Option<Seq<char>>,
    pub log_level: Option<Seq<char>>,
    pub proxy_providers: Option<Seq<(Seq<char>, ProviderView)>>,
    pub proxy_groups: Option<Seq<YamlView>>,
    pub proxies: Option<Seq<YamlView>>,
    pub extra: Seq<(Seq<char>, YamlView)>,
}

/// Plain values of a string-keyed table of nodes.
pub open spec fn extra_view(v: Seq<(String, Yaml)>) -> Seq<(Seq<char>, YamlView)> {
    Seq::new(v.len(), |i: int| (v[i].0@, v[i].1@))
}

impl View for HealthCheckConfig {
    type V = HealthCheckView;

    open spec fn view(&self) -> HealthCheckView {
        HealthCheckView { enable: self.enable, interval: self.interval, url: opt_view(self.url) }
    }
}

impl View for ProviderConfig {
    type V = ProviderView;

    open spec fn view(&self) -> ProviderView {
        ProviderView {
            provider_type: self.provider_type@,
            url: self.url@,
            interval: self.interval,
            path: opt_view(self.path),
            health_check: match self.health_check {
                Some(h) => Some(h@),
                None => None,
            },
            extra: extra_view(self.extra@),
        }
    }
}

/// Plain values of the subscription table.
pub open spec fn table_view(v: Seq<(String, ProviderConfig)>) -> Seq<(Seq<char>, ProviderView)> {
    Seq::new(v.len(), |i: int| (v[i].0@, v[i].1@))
}

/// Plain values of an optional list of nodes.
pub open spec fn opt_list_view(o: Option<Vec<Yaml>>) -> Option<Seq<YamlView>> {
    match o {
        Some(v) => Some(list_view(v@)),
        None => None,
    }
}

impl View for ClashConfig {
    type V = ClashConfigView;

    open spec fn view(&self) -> ClashConfigView {
        ClashConfigView {
            port: self.port,
            socks_port: self.socks_port,
            redir_port: self.redir_port,
            tproxy_port: self.tproxy_port,
            mixed_port: self.mixed_port,
            external_controller: opt_view(self.external_controller),
            secret: opt_view(self.secret),
            mode: opt_view(self.mode),
            allow_lan: self.allow_lan,
            bind_address: opt_view(self.bind_address),
            log_level: opt_view(self.log_level),
            proxy_providers: match self.proxy_providers {
                Some(t) => Some(table_view(t@)),
                None => None,
            },
            proxy_groups: opt_list_view(self.proxy_groups),
            proxies: opt_list_view(self.proxies),
            extra: extra_view(self.extra@),
        }
    }
}

// ---------------------------------------------------------------- tables

/// Index of the first entry with key `k` in a string-keyed table.
pub open spec fn index_of_key<V>(t: Seq<(Seq<char>, V)>, k: Seq<char>) -> Option<int>
    decreases t.len(),
{
    if t.len() == 0 {
        None
    } else if t[0].0 == k {
        Some(0)
    } else {
        match index_of_key(t.drop_first(), k) {
            Some(i) => Some(i + 1),
            None => None,
        }
    }
}

/// The value under key `k`.
pub open spec fn lookup<V>(t: Seq<(Seq<char>, V)>, k: Seq<char>) -> Option<V> {
    match index_of_key(t, k) {
        Some(i) => Some(t[i].1),
        None => None,
    }
}

/// No key occurs twice.
pub open spec fn keys_distinct<V>(t: Seq<(Seq<char>, V)>) -> bool {
    forall|i: int, j: int| 0 <= i < j < t.len() ==> t[i].0 != t[j].0
}

/// `t` with key `k` set to `v`: replaced in place when present, appended
/// otherwise.
pub open spec fn table_insert<V>(t: Seq<(Seq<char>, V)>, k: Seq<char>, v: V) -> Seq<(Seq<char>, V)> {
    match index_of_key(t, k) {
        Some(i) => t.update(i, (k, v)),
        None => t.push((k, v)),
    }
}

/// `t` without the entry with key `k`.
pub open spec fn table_remove<V>(t: Seq<(Seq<char>, V)>, k: Seq<char>) -> Seq<(Seq<char>, V)> {
    match index_of_key(t, k) {
        Some(i) => t.remove(i),
        None => t,
    }
}

/// Where `index_of_key` points, the key is there, and nowhere before it.
pub proof fn lemma_index_of_key<V>(t: Seq<(Seq<char>, V)>, k: Seq<char>)
    ensures
        match index_of_key(t, k) {
            Some(i) => 0 <= i < t.len() && t[i].0 == k && forall|j: int|
                0 <= j < i ==> t[j].0 != k,
            None => forall|j: int| 0 <= j < t.len() ==> t[j].0 != k,
        },
    decreases t.len(),
{
    if t.len() > 0 {
        lemma_index_of_key(t.drop_first(), k);
        if t[0].0 != k {
            assert forall|j: int| 0 < j < t.len() implies t[j].0 == t.drop_first()[j - 1].0 by {}
        }
    }
}

/// Setting a key keeps the keys of a table distinct.
pub proof fn lemma_table_insert_distinct<V>(t: Seq<(Seq<char>, V)>, k: Seq<char>, v: V)
    requires
        keys_distinct(t),
    ensures
        keys_distinct(table_insert(t, k, v)),
{
    lemma_index_of_key(t, k);
    let t2 = table_insert(t, k, v);
    assert forall|i: int, j: int| 0 <= i < j < t2.len() implies t2[i].0 != t2[j].0 by {
        if index_of_key(t, k) is None && j == t.len() {
            assert(t2[i] == t[i]);
        }
    }
}

/// Removing a key keeps the keys of a table distinct.
pub proof fn lemma_table_remove_distinct<V>(t: Seq<(Seq<char>, V)>, k: Seq<char>)
    requires
        keys_distinct(t),
    ensures
        keys_distinct(table_remove(t, k)),
{
    if let Some(x) = index_of_key(t, k) {
        lemma_index_of_key(t, k);
        let t2 = t.remove(x);
        assert forall|i: int, j: int| 0 <= i < j < t2.len() implies t2[i].0 != t2[j].0 by {
            let a = if i < x { i } else { i + 1 };
            let b = if j < x { j } else { j + 1 };
            assert(t2[i] == t[a] && t2[j] == t[b]);
        }
    }
}

/// Fixing the default route keeps the top-level keys distinct: the
/// `rules` entry is replaced in place, or added when there is none.
pub proof fn lemma_route_fixed_distinct(extra: Seq<(Seq<char>, YamlView)>)
    requires
        keys_distinct(extra),
    ensures
        keys_distinct(route_fixed(extra)),
{
    lemma_index_of_key(extra, "rules"@);
    let e2 = route_fixed(extra);
    assert forall|i: int, j: int| 0 <= i < j < e2.len() implies e2[i].0 != e2[j].0 by {
        if index_of_key(extra, "rules"@) is None && j == extra.len() {
            assert(e2[i] == extra[i]);
        } else {
            assert(e2[i].0 == extra[i].0 && e2[j].0 == extra[j].0);
        }
    }
}

/// Position of the entry with key `k` in the subscription table.
pub fn find_provider(t: &Vec<(String, ProviderConfig)>, k: &str) -> (r: Option<usize>)
    ensures
        match r {
            Some(i) => index_of_key(table_view(t@), k@) == Some(i as int),
            None => index_of_key(table_view(t@), k@) is None,
        },
        r matches Some(i) ==> i < t@.len(),
{
    let ghost tv = table_view(t@);
    proof {
        lemma_index_of_key(tv, k@);
    }
    let mut i: usize = 0;
    assert(tv.subrange(0, tv.len() as int) =~= tv);
    while i < t.len()
        invariant
            i <= t@.len(),
            tv == table_view(t@),
            index_of_key(tv, k@) == match index_of_key(tv.subrange(i as int, tv.len() as int), k@) {
                Some(j) => Some(j + i),
                None => None::<int>,
            },
        decreases t@.len() - i,
    {
        let ghost rest = tv.subrange(i as int, tv.len() as int);
        assert(rest.drop_first() =~= tv.subrange(i + 1, tv.len() as int));
        if str_eq(t[i].0.as_str(), k) {
            return Some(i);
        }
        i = i + 1;
    }
    None
}

/// Position of the entry with key `k` in a table of nodes.
fn find_extra(t: &Vec<(String, Yaml)>, k: &str) -> (r: Option<usize>)
    ensures
        match r {
            Some(i) => index_of_key(extra_view(t@), k@) == Some(i as int),
            None => index_of_key(extra_view(t@), k@) is None,
        },
        r matches Some(i) ==> i < t@.len(),
{
    let ghost tv = extra_view(t@);
    proof {
        lemma_index_of_key(tv, k@);
    }
    let mut i: usize = 0;
    assert(tv.subrange(0, tv.len() as int) =~= tv);
    while i < t.len()
        invariant
            i <= t@.len(),
            tv == extra_view(t@),
            index_of_key(tv, k@) == match index_of_key(tv.subrange(i as int, tv.len() as int), k@) {
                Some(j) => Some(j + i),
                None => None::<int>,
            },
        decreases t@.len() - i,
    {
        let ghost rest = tv.subrange(i as int, tv.len() as int);
        assert(rest.drop_first() =~= tv.subrange(i + 1, tv.len() as int));
        if str_eq(t[i].0.as_str(), k) {
            return Some(i);
        }
        i = i + 1;
    }
    None
}


// ---------------------------------------------------------------- groups

/// The name every subscription is routed through.
pub open spec fn proxy_name() -> Seq<char> {
    "Proxy"@
}

/// A group whose core is a mapping named `Proxy`.
pub open spec fn is_proxy_group(g: YamlView) -> bool {
    match untag(g) {
        YamlView::Mapping(m) => match map_get(m, "name"@) {
            Some(n) => str_of(n) == Some(proxy_name()),
            None => false,
        },
        _ => false,
    }
}

/// Index of the first `Proxy` group.
pub open spec fn proxy_group_index(gs: Seq<YamlView>) -> Option<int>
    decreases gs.len(),
{
    if gs.len() == 0 {
        None
    } else if is_proxy_group(gs[0]) {
        Some(0)
    } else {
        match proxy_group_index(gs.drop_first()) {
            Some(i) => Some(i + 1),
            None => None,
        }
    }
}

/// Where `proxy_group_index` points there is a `Proxy` group, and none
/// before it.
pub proof fn lemma_proxy_group_index(gs: Seq<YamlView>)
    ensures
        match proxy_group_index(gs) {
            Some(i) => 0 <= i < gs.len() && is_proxy_group(gs[i]) && forall|j: int|
                0 <= j < i ==> !is_proxy_group(gs[j]),
            None => forall|j: int| 0 <= j < gs.len() ==> !is_proxy_group(gs[j]),
        },
    decreases gs.len(),
{
    if gs.len() > 0 {
        lemma_proxy_group_index(gs.drop_first());
        if !is_proxy_group(gs[0]) {
            assert forall|j: int| 0 < j < gs.len() implies gs[j] == gs.drop_first()[j - 1] by {}
        }
    }
}

/// The fallback node every `Proxy` group offers.
pub open spec fn direct() -> Seq<char> {
    "DIRECT"@
}

/// A group mapping that also offers `DIRECT`.
pub open spec fn with_direct(m: Seq<(YamlView, YamlView)>) -> Seq<(YamlView, YamlView)> {
    entry_with_item(m, "proxies"@, YamlView::Str(direct()))
}

/// The `Proxy` group with subscription `p` in its `use` list and `DIRECT`
/// among its proxies.
pub open spec fn group_using(g: YamlView, p: Seq<char>) -> YamlView {
    match untag(g) {
        YamlView::Mapping(m) => replace_core(
            g,
            YamlView::Mapping(with_direct(entry_with_item(m, "use"@, YamlView::Str(p)))),
        ),
        _ => g,
    }
}

/// A new `Proxy` group: a selector over `DIRECT` and subscription `p`.
pub open spec fn new_proxy_group(p: Seq<char>) -> YamlView {
    YamlView::Mapping(
        seq![
            (YamlView::Str("name"@), YamlView::Str(proxy_name())),
            (YamlView::Str("type"@), YamlView::Str("select"@)),
            (YamlView::Str("proxies"@), YamlView::List(seq![YamlView::Str(direct())])),
            (YamlView::Str("use"@), YamlView::List(seq![YamlView::Str(p)])),
        ],
    )
}

/// The groups after subscription `p` is routed through the first `Proxy`
/// group, which is created when there is none.
pub open spec fn groups_using(gs: Seq<YamlView>, p: Seq<char>) -> Seq<YamlView> {
    match proxy_group_index(gs) {
        Some(i) => gs.update(i, group_using(gs[i], p)),
        None => gs.push(new_proxy_group(p)),
    }
}

/// A group with subscription `p` dropped from its `use` list.
pub open spec fn group_without(g: YamlView, p: Seq<char>) -> YamlView {
    match untag(g) {
        YamlView::Mapping(m) => match key_index(m, "use"@) {
            Some(i) => replace_core(
                g,
                YamlView::Mapping(
                    m.update(i, (m[i].0, list_node_without(m[i].1, YamlView::Str(p)))),
                ),
            ),
            None => g,
        },
        _ => g,
    }
}

/// Every group with subscription `p` dropped from its `use` list.
pub open spec fn groups_without(gs: Seq<YamlView>, p: Seq<char>) -> Seq<YamlView> {
    Seq::new(gs.len(), |i: int| group_without(gs[i], p))
}

/// Whether `g` is a `Proxy` group.
fn is_proxy_group_node(g: &Yaml) -> (r: bool)
    ensures
        r == is_proxy_group(g@),
{
    match node_mapping(g) {
        Some(m) => match find_key(m, "name") {
            Some(i) => {
                proof {
                    lemma_mapping_view(*m);
                }
                match node_str(&m[i].1) {
                    Some(n) => str_eq(n.as_str(), "Proxy"),
                    None => false,
                }
            },
            None => false,
        },
        None => false,
    }
}

/// Position of the first `Proxy` group.
fn find_proxy_group(gs: &Vec<Yaml>) -> (r: Option<usize>)
    ensures
        match r {
            Some(i) => proxy_group_index(list_view(gs@)) == Some(i as int),
            None => proxy_group_index(list_view(gs@)) is None,
        },
        r matches Some(i) ==> i < gs@.len(),
{
    let ghost gv = list_view(gs@);
    proof {
        lemma_proxy_group_index(gv);
    }
    let mut i: usize = 0;
    assert(gv.subrange(0, gv.len() as int) =~= gv);
    while i < gs.len()
        invariant
            i <= gs@.len(),
            gv == list_view(gs@),
            proxy_group_index(gv) == match proxy_group_index(gv.subrange(i as int, gv.len() as int)) {
                Some(j) => Some(j + i),
                None => None::<int>,
            },
        decreases gs@.len() - i,
    {
        let ghost rest = gv.subrange(i as int, gv.len() as int);
        assert(rest.drop_first() =~= gv.subrange(i + 1, gv.len() as int));
        if is_proxy_group_node(&gs[i]) {
            return Some(i);
        }
        i = i + 1;
    }
    None
}

/// Makes sure a group offers the `DIRECT` fallback.
fn ensure_group_has_direct_fallback(mapping: &mut Vec<(Yaml, Yaml)>)
    ensures
        mapping_view(final(mapping)@) == with_direct(mapping_view(old(mapping)@)),
{
    add_to_entry_list(mapping, "proxies", "DIRECT");
}

/// Routes subscription `p` through the group under `g`'s tags when it is a
/// mapping.
fn use_provider_in_group(g: Yaml, p: &str) -> (r: Yaml)
    ensures
        r@ == group_using(g@, p@),
    decreases g,
{
    match g {
        Yaml::Tagged(t, b) => {
            let inner = use_provider_in_group(*b, p);
            Yaml::Tagged(t, Box::new(inner))
        },
        Yaml::Mapping(m) => {
            proof {
                lemma_mapping_view(m);
            }
            let mut m = m;
            add_to_entry_list(&mut m, "use", p);
            ensure_group_has_direct_fallback(&mut m);
            proof {
                lemma_mapping_view(m);
            }
            Yaml::Mapping(m)
        },
        other => other,
    }
}

/// A new `Proxy` group over `DIRECT` and subscription `p`.
fn make_proxy_group(p: &str) -> (r: Yaml)
    ensures
        r@ == new_proxy_group(p@),
{
    let mut proxies: Vec<Yaml> = Vec::new();
    proxies.push(yaml_str("DIRECT"));
    let mut uses: Vec<Yaml> = Vec::new();
    uses.push(yaml_str(p));
    proof {
        lemma_list_view(proxies);
        lemma_list_view(uses);
        assert(list_view(proxies@) =~= seq![YamlView::Str(direct())]);
        assert(list_view(uses@) =~= seq![YamlView::Str(p@)]);
    }
    let mut m: Vec<(Yaml, Yaml)> = Vec::new();
    m.push((yaml_str("name"), yaml_str("Proxy")));
    m.push((yaml_str("type"), yaml_str("select")));
    m.push((yaml_str("proxies"), Yaml::List(proxies)));
    m.push((yaml_str("use"), Yaml::List(uses)));
    proof {
        lemma_mapping_view(m);
        assert(mapping_view(m@) =~= seq![
            (YamlView::Str("name"@), YamlView::Str(proxy_name())),
            (YamlView::Str("type"@), YamlView::Str("select"@)),
            (YamlView::Str("proxies"@), YamlView::List(seq![YamlView::Str(direct())])),
            (YamlView::Str("use"@), YamlView::List(seq![YamlView::Str(p@)])),
        ]);
    }
    Yaml::Mapping(m)
}

/// The groups, or none.
pub open spec fn groups_or_empty(c: ClashConfigView) -> Seq<YamlView> {
    match c.proxy_groups {
        Some(g) => g,
        None => Seq::empty(),
    }
}

/// Routes subscription `p` through the `Proxy` group, creating the group
/// when there is none.
pub fn ensure_proxy_group_uses_provider(config: &mut ClashConfig, p: &str)
    ensures
        final(config)@ == (ClashConfigView {
            proxy_groups: Some(groups_using(groups_or_empty(old(config)@), p@)),
            ..old(config)@
        }),
{
    let mut groups = match config.proxy_groups.take() {
        Some(g) => g,
        None => Vec::new(),
    };
    let ghost gv = list_view(groups@);
    assert(gv == groups_or_empty(old(config)@));
    match find_proxy_group(&groups) {
        Some(i) => {
            let mut g = Yaml::Null;
            groups.set_and_swap(i, &mut g);
            assert(g@ == gv[i as int]);
            let g = use_provider_in_group(g, p);
            groups.set(i, g);
            assert(list_view(groups@) =~= gv.update(i as int, group_using(gv[i as int], p@)));
            assert(list_view(groups@) =~= groups_using(gv, p@));
        },
        None => {
            groups.push(make_proxy_group(p));
            assert(list_view(groups@) =~= gv.push(new_proxy_group(p@)));
            assert(list_view(groups@) =~= groups_using(gv, p@));
        },
    }
    config.proxy_groups = Some(groups);
}

/// Drops subscription `p` from the `use` list of the group under `g`'s tags.
fn drop_provider_from_group(g: Yaml, p: &str) -> (r: Yaml)
    ensures
        r@ == group_without(g@, p@),
    decreases g,
{
    match g {
        Yaml::Tagged(t, b) => {
            let inner = drop_provider_from_group(*b, p);
            Yaml::Tagged(t, Box::new(inner))
        },
        Yaml::Mapping(m) => {
            proof {
                lemma_mapping_view(m);
            }
            let ghost mv = mapping_view(m@);
            let mut m = m;
            match find_key(&m, "use") {
                Some(i) => {
                    let mut entry = (Yaml::Null, Yaml::Null);
                    m.set_and_swap(i, &mut entry);
                    let (key, value) = entry;
                    let value = remove_from_list_node(value, p);
                    m.set(i, (key, value));
                    assert(mapping_view(m@) =~= mv.update(
                        i as int,
                        (mv[i as int].0, list_node_without(mv[i as int].1, YamlView::Str(p@))),
                    ));
                },
                None => {},
            }
            proof {
                lemma_mapping_view(m);
            }
            Yaml::Mapping(m)
        },
        other => other,
    }
}

/// Drops subscription `p` from every group's `use` list.
pub fn remove_provider_from_proxy_groups(config: &mut ClashConfig, p: &str)
    ensures
        final(config)@ == (ClashConfigView {
            proxy_groups: match old(config)@.proxy_groups {
                Some(gs) => Some(groups_without(gs, p@)),
                None => None,
            },
            ..old(config)@
        }),
{
    let mut groups = match config.proxy_groups.take() {
        Some(g) => g,
        None => {
            return ;
        },
    };
    let ghost gv = list_view(groups@);
    let mut i: usize = 0;
    while i < groups.len()
        invariant
            i <= groups@.len(),
            groups@.len() == gv.len(),
            forall|j: int| 0 <= j < i ==> list_view(groups@)[j] == group_without(gv[j], p@),
            forall|j: int| i <= j < gv.len() ==> list_view(groups@)[j] == gv[j],
        decreases groups@.len() - i,
    {
        let ghost head = groups@;
        let mut g = Yaml::Null;
        groups.set_and_swap(i, &mut g);
        assert(g@ == gv[i as int]);
        let g = drop_provider_from_group(g, p);
        let ghost before = groups@;
        let ghost gnew = g@;
        assert(gnew == group_without(gv[i as int], p@));
        groups.set(i, g);
        assert(list_view(groups@)[i as int] == gnew);
        assert forall|j: int| 0 <= j < i implies list_view(groups@)[j] == group_without(gv[j], p@) by {
            assert(groups@[j] == head[j]);
            assert(list_view(head)[j] == head[j]@);
        }
        assert forall|j: int| 0 <= j < gv.len() && j != i implies list_view(groups@)[j] == list_view(before)[j] by {}
        i = i + 1;
    }
    assert(list_view(groups@) =~= groups_without(gv, p@));
    config.proxy_groups = Some(groups);
}

// ---------------------------------------------------------------- routing

/// The rule that sends all remaining traffic through `Proxy`.
pub open spec fn match_proxy() -> Seq<char> {
    "MATCH,Proxy"@
}

/// The top-level `rules` made to end in the `Proxy` group: a missing list is
/// created, an empty one filled, and a lone direct fallback replaced.
pub open spec fn route_fixed(extra: Seq<(Seq<char>, YamlView)>) -> Seq<(Seq<char>, YamlView)> {
    let fixed = YamlView::List(seq![YamlView::Str(match_proxy())]);
    match index_of_key(extra, "rules"@) {
        Some(i) => match extra[i].1 {
            YamlView::List(l) => if l.len() == 0 || (l.len() == 1 && (str_of(l[0]) == Some(
                "MATCH,DIRECT"@,
            ) || str_of(l[0]) == Some("FINAL,DIRECT"@))) {
                extra.update(i, (extra[i].0, fixed))
            } else {
                extra
            },
            _ => extra,
        },
        None => extra.push(("rules"@, fixed)),
    }
}

fn match_proxy_rules() -> (r: Yaml)
    ensures
        r@ == YamlView::List(seq![YamlView::Str(match_proxy())]),
{
    let mut l: Vec<Yaml> = Vec::new();
    l.push(yaml_str("MATCH,Proxy"));
    proof {
        lemma_list_view(l);
        assert(list_view(l@) =~= seq![YamlView::Str(match_proxy())]);
    }
    Yaml::List(l)
}

/// Whether the rule list needs the `Proxy` route.
fn rules_need_fix(v: &Yaml) -> (r: bool)
    ensures
        r == (match v@ {
            YamlView::List(l) => l.len() == 0 || (l.len() == 1 && (str_of(l[0]) == Some(
                "MATCH,DIRECT"@,
            ) || str_of(l[0]) == Some("FINAL,DIRECT"@))),
            _ => false,
        }),
{
    match v {
        Yaml::List(l) => {
            proof {
                lemma_list_view(*l);
            }
            if l.len() == 0 {
                true
            } else if l.len() == 1 {
                match node_str(&l[0]) {
                    Some(s) => str_eq(s.as_str(), "MATCH,DIRECT") || str_eq(
                        s.as_str(),
                        "FINAL,DIRECT",
                    ),
                    None => false,
                }
            } else {
                false
            }
        },
        _ => false,
    }
}

/// Makes the default route go through `Proxy`.
pub fn ensure_default_route_uses_proxy(config: &mut ClashConfig)
    ensures
        final(config)@ == (ClashConfigView { extra: route_fixed(old(config)@.extra), ..old(config)@ }),
{
    let ghost ev = extra_view(config.extra@);
    match find_extra(&config.extra, "rules") {
        Some(i) => {
            if rules_need_fix(&config.extra[i].1) {
                let mut entry = (String::new(), Yaml::Null);
                config.extra.set_and_swap(i, &mut entry);
                let (key, _) = entry;
                let rules = match_proxy_rules();
                assert(key@ == ev[i as int].0);
                config.extra.set(i, (key, rules));
                assert(extra_view(config.extra@) =~= ev.update(i as int, (ev[i as int].0, rules@)));
                assert(extra_view(config.extra@) =~= route_fixed(ev));
            }
        },
        None => {
            config.extra.push((owned("rules"), match_proxy_rules()));
            assert(extra_view(config.extra@) =~= route_fixed(ev));
        },
    }
}


// ---------------------------------------------------------------- subscriptions

/// Health-check settings every new subscription gets.
pub open spec fn default_health_check() -> HealthCheckView {
    HealthCheckView {
        enable: true,
        interval: Some(600u32),
        url: Some("http://www.gstatic.com/generate_204"@),
    }
}

/// Where the cache of subscription `name` is kept, relative to the
/// configuration file.
pub open spec fn provider_cache_path(name: Seq<char>) -> Seq<char> {
    "./providers/"@ + name + ".yaml"@
}

/// The table entry a new subscription gets.
pub open spec fn new_provider(name: Seq<char>, url: Seq<char>, interval: u32) -> ProviderView {
    ProviderView {
        provider_type: "http"@,
        url: url,
        interval: Some(interval),
        path: Some(provider_cache_path(name)),
        health_check: Some(default_health_check()),
        extra: Seq::empty(),
    }
}

/// The subscription table, or none.
pub open spec fn providers_or_empty(c: ClashConfigView) -> Seq<(Seq<char>, ProviderView)> {
    match c.proxy_providers {
        Some(t) => t,
        None => Seq::empty(),
    }
}

/// `c` with its subscription table set to `t`.
pub open spec fn with_table(c: ClashConfigView, t: Seq<(Seq<char>, ProviderView)>) -> ClashConfigView {
    ClashConfigView { proxy_providers: Some(t), ..c }
}

/// `c` with subscription `p` routed through the `Proxy` group.
pub open spec fn routed(c: ClashConfigView, p: Seq<char>) -> ClashConfigView {
    ClashConfigView { proxy_groups: Some(groups_using(groups_or_empty(c), p)), ..c }
}

/// `c` with its default route sent through `Proxy`.
pub open spec fn default_routed(c: ClashConfigView) -> ClashConfigView {
    ClashConfigView { extra: route_fixed(c.extra), ..c }
}

/// The configuration after subscription `name` was added (or replaced).
pub open spec fn with_provider(c: ClashConfigView, name: Seq<char>, url: Seq<char>, interval: u32) -> ClashConfigView {
    default_routed(
        routed(
            with_table(c, table_insert(providers_or_empty(c), name, new_provider(name, url, interval))),
            name,
        ),
    )
}

/// The configuration after subscription `name` was removed.
pub open spec fn without_provider(c: ClashConfigView, name: Seq<char>) -> ClashConfigView {
    ClashConfigView {
        proxy_providers: match c.proxy_providers {
            Some(t) => Some(table_remove(t, name)),
            None => None,
        },
        proxy_groups: match c.proxy_groups {
            Some(gs) => Some(groups_without(gs, name)),
            None => None,
        },
        ..c
    }
}

/// A subscription with a new address and/or interval.
pub open spec fn provider_updated(pv: ProviderView, url: Option<Seq<char>>, interval: Option<u32>) -> ProviderView {
    ProviderView {
        url: match url {
            Some(u) => u,
            None => pv.url,
        },
        interval: match interval {
            Some(i) => Some(i),
            None => pv.interval,
        },
        ..pv
    }
}

/// The configuration after subscription `name` was edited; nothing
/// changes when there is no such subscription.
pub open spec fn with_update(c: ClashConfigView, name: Seq<char>, url: Option<Seq<char>>, interval: Option<u32>) -> ClashConfigView {
    match c.proxy_providers {
        Some(t) => match index_of_key(t, name) {
            Some(i) => with_table(c, t.update(i, (t[i].0, provider_updated(t[i].1, url, interval)))),
            None => c,
        },
        None => c,
    }
}

impl HealthCheckConfig {
    /// The health check new subscriptions get.
    pub fn default_for_provider() -> (r: HealthCheckConfig)
        ensures
            r@ == default_health_check(),
    {
        HealthCheckConfig {
            enable: true,
            interval: Some(600),
            url: Some(owned("http://www.gstatic.com/generate_204")),
        }
    }
}

/// A new subscription entry.
fn make_provider(name: &str, url: &str, interval: u32) -> (r: ProviderConfig)
    ensures
        r@ == new_provider(name@, url@, interval),
{
    let mut path = owned("./providers/");
    push_str(&mut path, name);
    push_str(&mut path, ".yaml");
    let extra: Vec<(String, Yaml)> = Vec::new();
    let r = ProviderConfig {
        provider_type: owned("http"),
        url: owned(url),
        interval: Some(interval),
        path: Some(path),
        health_check: Some(HealthCheckConfig::default_for_provider()),
        extra: extra,
    };
    assert(extra_view(r.extra@) =~= Seq::<(Seq<char>, YamlView)>::empty());
    r
}

/// Sets key `k` of the subscription table to `v`.
fn table_set(t: &mut Vec<(String, ProviderConfig)>, k: &str, v: ProviderConfig)
    ensures
        table_view(final(t)@) == table_insert(table_view(old(t)@), k@, v@),
{
    let ghost tv = table_view(t@);
    match find_provider(t, k) {
        Some(i) => {
            t.set(i, (owned(k), v));
            assert(table_view(t@) =~= tv.update(i as int, (k@, v@)));
        },
        None => {
            t.push((owned(k), v));
            assert(table_view(t@) =~= tv.push((k@, v@)));
        },
    }
}

impl ConfigManager {
    /// Adds (or replaces) subscription `name` with its cache under
    /// `./providers/`, routes it through the `Proxy` group and sends the
    /// default route through that group.
    pub fn add_provider(config: &mut ClashConfig, name: &str, url: &str, interval: u32)
        ensures
            final(config)@ == with_provider(old(config)@, name@, url@, interval),
            keys_distinct(providers_or_empty(old(config)@)) ==> keys_distinct(
                providers_or_empty(final(config)@),
            ),
            keys_distinct(old(config)@.extra) ==> keys_distinct(final(config)@.extra),
    {
        proof {
            if keys_distinct(old(config)@.extra) {
                lemma_route_fixed_distinct(old(config)@.extra);
            }
            if keys_distinct(providers_or_empty(old(config)@)) {
                lemma_table_insert_distinct(
                    providers_or_empty(old(config)@),
                    name@,
                    new_provider(name@, url@, interval),
                );
            }
        }
        let mut table = match config.proxy_providers.take() {
            Some(t) => t,
            None => Vec::new(),
        };
        assert(table_view(table@) == providers_or_empty(old(config)@));
        table_set(&mut table, name, make_provider(name, url, interval));
        config.proxy_providers = Some(table);
        ensure_proxy_group_uses_provider(config, name);
        ensure_default_route_uses_proxy(config);
    }

    /// Removes subscription `name` and drops it from every group's `use`
    /// list.
    pub fn remove_provider(config: &mut ClashConfig, name: &str)
        ensures
            final(config)@ == without_provider(old(config)@, name@),
            keys_distinct(providers_or_empty(old(config)@)) ==> keys_distinct(
                providers_or_empty(final(config)@),
            ),
    {
        proof {
            if keys_distinct(providers_or_empty(old(config)@)) {
                lemma_table_remove_distinct(providers_or_empty(old(config)@), name@);
            }
        }
        match config.proxy_providers.take() {
            Some(mut t) => {
                let ghost tv = table_view(t@);
                match find_provider(&t, name) {
                    Some(i) => {
                        t.remove(i);
                        assert(table_view(t@) =~= tv.remove(i as int));
                    },
                    None => {},
                }
                config.proxy_providers = Some(t);
            },
            None => {},
        }
        remove_provider_from_proxy_groups(config, name);
    }

    /// Gives subscription `name` a new address and/or interval.
    pub fn update_provider(config: &mut ClashConfig, name: &str, url: Option<&str>, interval: Option<u32>)
        ensures
            final(config)@ == with_update(old(config)@, name@, opt_str_view(url), interval),
            keys_distinct(providers_or_empty(old(config)@)) ==> keys_distinct(
                providers_or_empty(final(config)@),
            ),
    {
        proof {
            let t = providers_or_empty(old(config)@);
            if let Some(i) = index_of_key(t, name@) {
                lemma_index_of_key(t, name@);
                let t2 = t.update(i, (t[i].0, provider_updated(t[i].1, opt_str_view(url), interval)));
                assert forall|a: int| 0 <= a < t.len() implies #[trigger] t2[a].0 == t[a].0 by {}
            }
        }
        match config.proxy_providers.take() {
            Some(mut t) => {
                let ghost tv = table_view(t@);
                match find_provider(&t, name) {
                    Some(i) => {
                        let mut entry = (String::new(), ProviderConfig::empty());
                        t.set_and_swap(i, &mut entry);
                        let (key, mut pc) = entry;
                        assert(key@ == tv[i as int].0 && pc@ == tv[i as int].1);
                        match url {
                            Some(u) => {
                                pc.url = owned(u);
                            },
                            None => {},
                        }
                        match interval {
                            Some(n) => {
                                pc.interval = Some(n);
                            },
                            None => {},
                        }
                        assert(pc@ == provider_updated(tv[i as int].1, opt_str_view(url), interval));
                        t.set(i, (key, pc));
                        assert(table_view(t@) =~= tv.update(
                            i as int,
                            (tv[i as int].0, provider_updated(tv[i as int].1, opt_str_view(url), interval)),
                        ));
                    },
                    None => {},
                }
                config.proxy_providers = Some(t);
            },
            None => {},
        }
    }

    /// The subscription table of `config`, empty when it has none.
    pub fn get_providers(config: ClashConfig) -> (r: Vec<(String, ProviderConfig)>)
        ensures
            table_view(r@) == providers_or_empty(config@),
    {
        match config.proxy_providers {
            Some(t) => t,
            None => {
                let t: Vec<(String, ProviderConfig)> = Vec::new();
                assert(table_view(t@) =~= Seq::<(Seq<char>, ProviderView)>::empty());
                t
            },
        }
    }
}

impl ProviderConfig {
    /// A subscription entry with every field empty.
    pub fn empty() -> (r: ProviderConfig)
        ensures
            r@ == (ProviderView {
                provider_type: Seq::empty(),
                url: Seq::empty(),
                interval: None,
                path: None,
                health_check: None,
                extra: Seq::empty(),
            }),
    {
        let extra: Vec<(String, Yaml)> = Vec::new();
        let r = ProviderConfig {
            provider_type: String::new(),
            url: String::new(),
            interval: None,
            path: None,
            health_check: None,
            extra: extra,
        };
        assert(extra_view(r.extra@) =~= Seq::<(Seq<char>, YamlView)>::empty());
        r
    }
}

/// The characters of an optional string.
pub open spec fn opt_str_view(o: Option<&str>) -> Option<Seq<char>> {
    match o {
        Some(s) => Some(s@),
        None => None,
    }
}


// ---------------------------------------------------------------- paths

/// A name for what `std::path::Path::join` gives for `base` and `rel`.
pub uninterp spec fn joined_path(base: Seq<char>, rel: Seq<char>) -> Seq<char>;

/// A name for what `std::path::Path::parent` gives for `p`.
pub uninterp spec fn parent_path(p: Seq<char>) -> Option<Seq<char>>;

/// A name for what `std::path::Path::is_absolute` says of `p`.
pub uninterp spec fn is_absolute_path(p: Seq<char>) -> bool;

/// A name for what `==` on `std::path::Path` says of `a` and `b`.
pub uninterp spec fn same_path(a: Seq<char>, b: Seq<char>) -> bool;

/// Wraps `std::path::Path::join`: `rel` appended to `base` (or `rel` itself
/// when it is absolute). The contract only names the result.
#[verifier::external_body]
pub(crate) fn join_path(base: &str, rel: &str) -> (r: String)
    ensures
        r@ == joined_path(base@, rel@),
{
    std::path::Path::new(base).join(rel).to_string_lossy().into_owned()
}

/// Wraps `std::path::Path::parent`: the path without its last component,
/// none for a root or an empty path. The contract only names the result.
#[verifier::external_body]
fn path_parent(p: &str) -> (r: Option<String>)
    ensures
        opt_view(r) == parent_path(p@),
{
    match std::path::Path::new(p).parent() {
        Some(q) => Some(q.to_string_lossy().into_owned()),
        None => None,
    }
}

/// Wraps `std::path::Path::is_absolute`. The contract only names the
/// result.
#[verifier::external_body]
fn path_is_absolute(p: &str) -> (r: bool)
    ensures
        r == is_absolute_path(p@),
{
    std::path::Path::new(p).is_absolute()
}

/// Wraps `==` on `std::path::Path`, which compares paths component by
/// component. The contract only names the result.
#[verifier::external_body]
fn paths_equal(a: &str, b: &str) -> (r: bool)
    ensures
        r == same_path(a@, b@),
{
    std::path::Path::new(a) == std::path::Path::new(b)
}

/// The dashboard's own configuration file.
pub open spec fn app_config_path(config_dir: Option<Seq<char>>) -> Seq<char> {
    match config_dir {
        Some(d) => joined_path(joined_path(d, "clash-tui"@), "config.yaml"@),
        None => "config.yaml"@,
    }
}

/// The places searched for a configuration file, in order: the
/// dashboard's own file under the configuration directory, then
/// `config.yaml` in the working directory.
pub open spec fn config_candidates_spec(config_dir: Option<Seq<char>>) -> Seq<Seq<char>> {
    seq![app_config_path(config_dir), "config.yaml"@]
}

/// Index of the first candidate that exists.
pub open spec fn first_existing(exists: Seq<bool>) -> Option<int>
    decreases exists.len(),
{
    if exists.len() == 0 {
        None
    } else if exists[0] {
        Some(0)
    } else {
        match first_existing(exists.drop_first()) {
            Some(i) => Some(i + 1),
            None => None,
        }
    }
}

/// The configuration file chosen among `candidates`: the first that
/// exists, else the first candidate.
pub open spec fn chosen_config_path(candidates: Seq<Seq<char>>, exists: Seq<bool>) -> Seq<char> {
    match first_existing(exists) {
        Some(i) => candidates[i],
        None => candidates[0],
    }
}

impl ConfigManager {
    /// A manager for `config_path` when one is given (the user named it),
    /// else for `discovered`, the path `find_config_path` chose.
    pub fn new(config_path: Option<String>, discovered: String) -> (r: ConfigManager)
        ensures
            r.explicit_config == config_path.is_some(),
            r.config_path@ == match config_path {
                Some(p) => p@,
                None => discovered@,
            },
    {
        let explicit_config = config_path.is_some();
        let path = match config_path {
            Some(p) => p,
            None => discovered,
        };
        ConfigManager { config_path: path, explicit_config }
    }

    /// The configuration file this manager reads and writes.
    pub fn config_path(&self) -> (r: &String)
        ensures
            r@ == self.config_path@,
    {
        &self.config_path
    }

    /// Whether the user named the configuration file.
    pub fn is_explicit(&self) -> (r: bool)
        ensures
            r == self.explicit_config,
    {
        self.explicit_config
    }

    /// The places searched for a configuration file, given the user's
    /// configuration directory (see `config_candidates_spec`).
    pub fn config_candidates(config_dir: Option<&str>) -> (r: Vec<String>)
        ensures
            views_of(r@) == config_candidates_spec(opt_str_view(config_dir)),
    {
        let mut r: Vec<String> = Vec::new();
        let app = match config_dir {
            Some(d) => {
                let x = join_path(d, "clash-tui");
                join_path(x.as_str(), "config.yaml")
            },
            None => owned("config.yaml"),
        };
        r.push(app);
        r.push(owned("config.yaml"));
        assert(views_of(r@) =~= config_candidates_spec(opt_str_view(config_dir)));
        r
    }

    /// The configuration file to use: the first candidate that exists, else
    /// the first candidate (the dashboard's own file).
    pub fn find_config_path(candidates: &Vec<String>, exists: &Vec<bool>) -> (r: String)
        requires
            candidates@.len() > 0,
            exists@.len() == candidates@.len(),
        ensures
            r@ == chosen_config_path(views_of(candidates@), exists@),
    {
        let ghost ev = exists@;
        let mut i: usize = 0;
        assert(ev.subrange(0, ev.len() as int) =~= ev);
        while i < exists.len()
            invariant
                i <= ev.len(),
                ev == exists@,
                exists@.len() == candidates@.len(),
                first_existing(ev) == match first_existing(ev.subrange(i as int, ev.len() as int)) {
                    Some(j) => Some(j + i),
                    None => None::<int>,
                },
            decreases ev.len() - i,
        {
            assert(ev.subrange(i as int, ev.len() as int).drop_first() =~= ev.subrange(i + 1, ev.len() as int));
            if exists[i] {
                return candidates[i].clone();
            }
            i = i + 1;
        }
        candidates[0].clone()
    }

    /// The file to copy into place from `legacy_paths` (whose existence is
    /// `legacy_exists`) when the configuration file is missing: the first
    /// legacy file that exists and is not the configuration file itself.
    /// Nothing is copied when the user named the file or it exists.
    pub fn migrate_legacy_config_from(
        &self,
        target_exists: bool,
        legacy_paths: &Vec<String>,
        legacy_exists: &Vec<bool>,
    ) -> (r: Option<usize>)
        requires
            legacy_exists@.len() == legacy_paths@.len(),
        ensures
            match r {
                Some(j) => !self.explicit_config && !target_exists && j < legacy_paths@.len()
                    && legacy_source_ok(legacy_paths@, legacy_exists@, self.config_path@, j as int)
                    && forall|k: int| 0 <= k < j ==> !legacy_source_ok(legacy_paths@, legacy_exists@, self.config_path@, k),
                None => self.explicit_config || target_exists || forall|k: int|
                    0 <= k < legacy_paths@.len() ==> !legacy_source_ok(legacy_paths@, legacy_exists@, self.config_path@, k),
            },
    {
        if self.explicit_config || target_exists {
            return None;
        }
        let mut i: usize = 0;
        while i < legacy_paths.len()
            invariant
                i <= legacy_paths@.len(),
                legacy_exists@.len() == legacy_paths@.len(),
                !self.explicit_config && !target_exists,
                forall|k: int| 0 <= k < i ==> !legacy_source_ok(legacy_paths@, legacy_exists@, self.config_path@, k),
            decreases legacy_paths@.len() - i,
        {
            if legacy_exists[i] && !paths_equal(legacy_paths[i].as_str(), self.config_path.as_str()) {
                return Some(i);
            }
            i = i + 1;
        }
        None
    }

    /// The legacy files next to the program: `config.yaml`, then
    /// `clash.yaml`.
    pub fn legacy_local_paths() -> (r: Vec<String>)
        ensures
            r@.len() == 2,
            views_of(r@) == seq!["config.yaml"@, "clash.yaml"@],
    {
        let mut r: Vec<String> = Vec::new();
        r.push(owned("config.yaml"));
        r.push(owned("clash.yaml"));
        assert(views_of(r@) =~= seq!["config.yaml"@, "clash.yaml"@]);
        r
    }

    /// The legacy file to copy into place when the configuration file is
    /// missing, among `config.yaml` and `clash.yaml` (whose existence is
    /// given).
    pub fn migrate_legacy_local_config_if_needed(
        &self,
        target_exists: bool,
        config_yaml_exists: bool,
        clash_yaml_exists: bool,
    ) -> (r: Option<String>)
        ensures
            ({
                let ok0 = config_yaml_exists && !same_path("config.yaml"@, self.config_path@);
                let ok1 = clash_yaml_exists && !same_path("clash.yaml"@, self.config_path@);
                match r {
                    Some(p) => !self.explicit_config && !target_exists && ((ok0 && p@ == "config.yaml"@) || (
                    !ok0 && ok1 && p@ == "clash.yaml"@)),
                    None => self.explicit_config || target_exists || (!ok0 && !ok1),
                }
            }),
    {
        let paths = ConfigManager::legacy_local_paths();
        let mut exists: Vec<bool> = Vec::new();
        exists.push(config_yaml_exists);
        exists.push(clash_yaml_exists);
        proof {
            assert(exists@ =~= seq![config_yaml_exists, clash_yaml_exists]);
            assert(paths@[0]@ == views_of(paths@)[0]);
            assert(paths@[1]@ == views_of(paths@)[1]);
            assert(legacy_source_ok(paths@, exists@, self.config_path@, 0) == (config_yaml_exists
                && !same_path("config.yaml"@, self.config_path@)));
            assert(legacy_source_ok(paths@, exists@, self.config_path@, 1) == (clash_yaml_exists
                && !same_path("clash.yaml"@, self.config_path@)));
        }
        match self.migrate_legacy_config_from(target_exists, &paths, &exists) {
            Some(j) => {
                assert(paths@[j as int]@ == views_of(paths@)[j as int]);
                Some(paths[j].clone())
            },
            None => None,
        }
    }

    /// The address of the core's control API: `http://` and the
    /// `external-controller` of the configuration, `127.0.0.1:9090` when
    /// there is none (or no configuration could be read).
    pub fn get_api_url(config: Option<&ClashConfig>) -> (r: String)
        ensures
            r@ == "http://"@ + match config {
                Some(c) => match c.external_controller {
                    Some(ctrl) => ctrl@,
                    None => "127.0.0.1:9090"@,
                },
                None => "127.0.0.1:9090"@,
            },
    {
        let mut r = owned("http://");
        match config {
            Some(c) => match &c.external_controller {
                Some(ctrl) => push_str(&mut r, ctrl.as_str()),
                None => push_str(&mut r, "127.0.0.1:9090"),
            },
            None => push_str(&mut r, "127.0.0.1:9090"),
        }
        r
    }

    /// Where a subscription cache path points: an absolute path as it is,
    /// a relative one under the configuration file's directory (`.` when
    /// it has none).
    pub fn resolve_provider_path(&self, path: &str) -> (r: String)
        ensures
            r@ == resolved_path(self.config_path@, path@),
    {
        if path_is_absolute(path) {
            owned(path)
        } else {
            match path_parent(self.config_path.as_str()) {
                Some(dir) => join_path(dir.as_str(), path),
                None => join_path(".", path),
            }
        }
    }
}

/// Where a subscription cache path points, for configuration file `config`.
pub open spec fn resolved_path(config: Seq<char>, p: Seq<char>) -> Seq<char> {
    if is_absolute_path(p) {
        p
    } else {
        match parent_path(config) {
            Some(dir) => joined_path(dir, p),
            None => joined_path("."@, p),
        }
    }
}

/// Legacy file `j` may be copied into place: it exists and is not the
/// configuration file itself.
pub open spec fn legacy_source_ok(paths: Seq<String>, exists: Seq<bool>, config: Seq<char>, j: int) -> bool {
    exists[j] && !same_path(paths[j]@, config)
}


// ---------------------------------------------------------------- repair

/// The names of the subscriptions, in table order.
pub open spec fn provider_names(c: ClashConfigView) -> Seq<Seq<char>> {
    providers_or_empty(c).map_values(|e: (Seq<char>, ProviderView)| e.0)
}

/// `c` with each of `names` routed through the `Proxy` group, in order.
pub open spec fn routed_all(c: ClashConfigView, names: Seq<Seq<char>>) -> ClashConfigView
    decreases names.len(),
{
    if names.len() == 0 {
        c
    } else {
        routed(routed_all(c, names.drop_last()), names.last())
    }
}

/// The configuration the dashboard needs: every subscription routed
/// through the `Proxy` group and the default route through that group.
pub open spec fn repaired(c: ClashConfigView) -> ClashConfigView {
    default_routed(routed_all(c, provider_names(c)))
}

/// Routing subscriptions only touches the groups.
pub proof fn lemma_routed_all_fields(c: ClashConfigView, names: Seq<Seq<char>>)
    ensures
        routed_all(c, names) == (ClashConfigView { proxy_groups: routed_all(c, names).proxy_groups, ..c }),
    decreases names.len(),
{
    if names.len() > 0 {
        lemma_routed_all_fields(c, names.drop_last());
    }
}

/// An empty configuration: no field set.
pub open spec fn empty_config() -> ClashConfigView {
    ClashConfigView {
        port: None,
        socks_port: None,
        redir_port: None,
        tproxy_port: None,
        mixed_port: None,
        external_controller: None,
        secret: None,
        mode: None,
        allow_lan: None,
        bind_address: None,
        log_level: None,
        proxy_providers: None,
        proxy_groups: None,
        proxies: None,
        extra: Seq::empty(),
    }
}

impl Default for ClashConfig {
    /// The configuration used when there is no file yet.
    fn default() -> (r: ClashConfig)
        ensures
            r@ == empty_config(),
    {
        let extra: Vec<(String, Yaml)> = Vec::new();
        let r = ClashConfig {
            port: None,
            socks_port: None,
            redir_port: None,
            tproxy_port: None,
            mixed_port: None,
            external_controller: None,
            secret: None,
            mode: None,
            allow_lan: None,
            bind_address: None,
            log_level: None,
            proxy_providers: None,
            proxy_groups: None,
            proxies: None,
            extra: extra,
        };
        assert(extra_view(r.extra@) =~= Seq::<(Seq<char>, YamlView)>::empty());
        r
    }
}

/// The names of the subscriptions.
fn table_keys(t: &Vec<(String, ProviderConfig)>) -> (r: Vec<String>)
    ensures
        views_of(r@) == table_view(t@).map_values(|e: (Seq<char>, ProviderView)| e.0),
{
    let mut r: Vec<String> = Vec::new();
    let mut i: usize = 0;
    while i < t.len()
        invariant
            i <= t@.len(),
            r@.len() == i,
            forall|j: int| 0 <= j < i ==> r@[j]@ == t@[j].0@,
        decreases t@.len() - i,
    {
        r.push(t[i].0.clone());
        i = i + 1;
    }
    assert(views_of(r@) =~= table_view(t@).map_values(|e: (Seq<char>, ProviderView)| e.0));
    r
}

/// A copy of a table of nodes.
fn clone_extra(t: &Vec<(String, Yaml)>) -> (r: Vec<(String, Yaml)>)
    ensures
        extra_view(r@) == extra_view(t@),
{
    let mut r: Vec<(String, Yaml)> = Vec::new();
    let mut i: usize = 0;
    while i < t.len()
        invariant
            i <= t@.len(),
            r@.len() == i,
            forall|j: int| 0 <= j < i ==> r@[j].0@ == t@[j].0@ && r@[j].1@ == t@[j].1@,
        decreases t@.len() - i,
    {
        r.push((t[i].0.clone(), yaml_clone(&t[i].1)));
        i = i + 1;
    }
    assert(extra_view(r@) =~= extra_view(t@));
    r
}

/// Whether two tables of nodes are equal.
fn extra_eq(a: &Vec<(String, Yaml)>, b: &Vec<(String, Yaml)>) -> (r: bool)
    ensures
        r == (extra_view(a@) == extra_view(b@)),
{
    if a.len() != b.len() {
        assert(extra_view(a@).len() != extra_view(b@).len());
        return false;
    }
    let mut i: usize = 0;
    while i < a.len()
        invariant
            i <= a@.len(),
            a@.len() == b@.len(),
            forall|j: int| 0 <= j < i ==> a@[j].0@ == b@[j].0@ && a@[j].1@ == b@[j].1@,
        decreases a@.len() - i,
    {
        if !str_eq(a[i].0.as_str(), b[i].0.as_str()) || !yaml_eq(&a[i].1, &b[i].1) {
            assert(extra_view(a@)[i as int] != extra_view(b@)[i as int]);
            return false;
        }
        i = i + 1;
    }
    assert(extra_view(a@) =~= extra_view(b@));
    true
}

impl ConfigManager {
    /// Brings a configuration into the shape the dashboard needs (see
    /// `repaired`) and says whether anything changed.
    pub fn repair_for_tui(config: &mut ClashConfig) -> (r: bool)
        ensures
            final(config)@ == repaired(old(config)@),
            r == (final(config)@ != old(config)@),
            keys_distinct(old(config)@.extra) ==> keys_distinct(final(config)@.extra),
    {
        proof {
            lemma_routed_all_fields(config@, provider_names(config@));
            if keys_distinct(config@.extra) {
                lemma_route_fixed_distinct(config@.extra);
            }
        }
        let ghost c0 = config@;
        let before_groups: Option<Vec<Yaml>> = match &config.proxy_groups {
            Some(g) => Some(clone_list(g)),
            None => None,
        };
        let before_extra = clone_extra(&config.extra);
        let names = match &config.proxy_providers {
            Some(t) => table_keys(t),
            None => {
                let v: Vec<String> = Vec::new();
                v
            },
        };
        let ghost ns = views_of(names@);
        assert(ns == provider_names(c0));
        let mut i: usize = 0;
        assert(ns.take(0) =~= Seq::<Seq<char>>::empty());
        while i < names.len()
            invariant
                i <= names@.len(),
                ns == views_of(names@),
                config@ == routed_all(c0, ns.take(i as int)),
            decreases names@.len() - i,
        {
            assert(ns.take(i + 1).drop_last() =~= ns.take(i as int));
            assert(ns.take(i + 1).last() == names@[i as int]@);
            ensure_proxy_group_uses_provider(config, names[i].as_str());
            i = i + 1;
        }
        assert(ns.take(names@.len() as int) =~= ns);
        ensure_default_route_uses_proxy(config);
        proof {
            lemma_routed_all_fields(c0, ns);
        }
        let same_groups = match (&before_groups, &config.proxy_groups) {
            (Some(a), Some(b)) => list_eq(a, b),
            (None, None) => true,
            _ => false,
        };
        let same = same_groups && extra_eq(&before_extra, &config.extra);
        proof {
            if same {
                assert(config@ =~= c0);
            }
        }
        !same
    }
}

} // verus!
