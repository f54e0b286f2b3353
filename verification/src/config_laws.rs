//! What the subscription edits promise of the configuration, proved over
//! the models in `config` and `yaml`.

use vstd::prelude::*;
use crate::config::{
    group_using, group_without, groups_or_empty, groups_using, groups_without, index_of_key,
    is_proxy_group, keys_distinct, lemma_index_of_key, lemma_proxy_group_index, lookup,
    new_provider, new_proxy_group, providers_or_empty, proxy_group_index, table_insert,
    table_remove, with_direct, with_provider, with_update, without_provider, provider_updated,
    route_fixed, ClashConfigView,
};
use crate::yaml::{
    differs_from, entry_with_item, key_index, lemma_key_index, list_node_without,
    map_get, replace_core, str_of, untag, with_item, without_item, YamlView,
};

verus! {

// ---------------------------------------------------------------- tables

/// A key is found at the first position that holds it.
pub proof fn lemma_index_of_key_first<V>(t: Seq<(Seq<char>, V)>, k: Seq<char>, i: int)
    requires
        0 <= i < t.len(),
        t[i].0 == k,
        forall|j: int| 0 <= j < i ==> t[j].0 != k,
    ensures
        index_of_key(t, k) == Some(i),
{
    lemma_index_of_key(t, k);
}

/// A key held nowhere is not found.
pub proof fn lemma_index_of_key_absent<V>(t: Seq<(Seq<char>, V)>, k: Seq<char>)
    requires
        forall|j: int| 0 <= j < t.len() ==> t[j].0 != k,
    ensures
        index_of_key(t, k) is None,
{
    lemma_index_of_key(t, k);
}

/// Setting a key and then looking it up gives the value set.
pub proof fn law_table_insert_lookup<V>(t: Seq<(Seq<char>, V)>, k: Seq<char>, v: V)
    ensures
        lookup(table_insert(t, k, v), k) == Some(v),
{
    lemma_index_of_key(t, k);
    match index_of_key(t, k) {
        Some(i) => lemma_index_of_key_first(table_insert(t, k, v), k, i),
        None => lemma_index_of_key_first(table_insert(t, k, v), k, t.len() as int),
    }
}

/// Setting a key leaves every other key's value as it was.
pub proof fn law_table_insert_other<V>(t: Seq<(Seq<char>, V)>, k: Seq<char>, v: V, other: Seq<char>)
    requires
        other != k,
    ensures
        lookup(table_insert(t, k, v), other) == lookup(t, other),
{
    let t2 = table_insert(t, k, v);
    lemma_index_of_key(t, k);
    lemma_index_of_key(t, other);
    lemma_index_of_key(t2, other);
    match index_of_key(t, other) {
        Some(i) => {
            lemma_index_of_key_first(t2, other, i);
        },
        None => {
            lemma_index_of_key_absent(t2, other);
        },
    }
}

/// Setting a key keeps the keys distinct.
pub proof fn law_table_insert_distinct<V>(t: Seq<(Seq<char>, V)>, k: Seq<char>, v: V)
    requires
        keys_distinct(t),
    ensures
        keys_distinct(table_insert(t, k, v)),
{
    lemma_index_of_key(t, k);
}

/// In a table with distinct keys, a removed key is no longer found.
pub proof fn law_table_remove_lookup<V>(t: Seq<(Seq<char>, V)>, k: Seq<char>)
    requires
        keys_distinct(t),
    ensures
        lookup(table_remove(t, k), k) is None,
        keys_distinct(table_remove(t, k)),
{
    lemma_index_of_key(t, k);
    match index_of_key(t, k) {
        Some(i) => {
            let t2 = t.remove(i);
            assert forall|j: int| 0 <= j < t2.len() implies t2[j].0 != k by {
                if j < i {
                    assert(t2[j] == t[j]);
                } else {
                    assert(t2[j] == t[j + 1]);
                }
            }
            lemma_index_of_key_absent(t2, k);
        },
        None => {},
    }
}

/// Adding a key that was absent and removing it again gives back the
/// table.
pub proof fn law_table_insert_remove<V>(t: Seq<(Seq<char>, V)>, k: Seq<char>, v: V)
    requires
        lookup(t, k) is None,
    ensures
        table_remove(table_insert(t, k, v), k) == t,
{
    let t2 = t.push((k, v));
    lemma_index_of_key(t, k);
    lemma_index_of_key_first(t2, k, t.len() as int);
    assert(t2.remove(t.len() as int) =~= t);
}

// ---------------------------------------------------------------- mappings

/// A string key is found at the first entry that holds it.
pub proof fn lemma_key_index_first(m: Seq<(YamlView, YamlView)>, k: Seq<char>, i: int)
    requires
        0 <= i < m.len(),
        m[i].0 == YamlView::Str(k),
        forall|j: int| 0 <= j < i ==> m[j].0 != YamlView::Str(k),
    ensures
        key_index(m, k) == Some(i),
{
    lemma_key_index(m, k);
}

/// Two mappings with the same keys find a key at the same place.
pub proof fn lemma_key_index_same_keys(
    m: Seq<(YamlView, YamlView)>,
    m2: Seq<(YamlView, YamlView)>,
    k: Seq<char>,
)
    requires
        m.len() == m2.len(),
        forall|j: int| 0 <= j < m.len() ==> m[j].0 == m2[j].0,
    ensures
        key_index(m2, k) == key_index(m, k),
{
    lemma_key_index(m, k);
    lemma_key_index(m2, k);
    match key_index(m, k) {
        Some(i) => lemma_key_index_first(m2, k, i),
        None => {},
    }
}

/// Editing the list under one key leaves the value under any other key
/// as it was.
pub proof fn lemma_entry_with_item_other(
    m: Seq<(YamlView, YamlView)>,
    k: Seq<char>,
    x: YamlView,
    other: Seq<char>,
)
    requires
        other != k,
    ensures
        map_get(entry_with_item(m, k, x), other) == map_get(m, other),
{
    let m2 = entry_with_item(m, k, x);
    lemma_key_index(m, k);
    lemma_key_index(m, other);
    lemma_key_index(m2, other);
    match key_index(m, k) {
        Some(i) => {
            lemma_key_index_same_keys(m, m2, other);
        },
        None => {
            match key_index(m, other) {
                Some(j) => lemma_key_index_first(m2, other, j),
                None => {},
            }
        },
    }
}

/// Under key `k`, the edited mapping holds a list with `x` in it, when the
/// value there was a list or missing.
pub proof fn lemma_entry_with_item_same(m: Seq<(YamlView, YamlView)>, k: Seq<char>, x: YamlView)
    requires
        match map_get(m, k) {
            Some(u) => untag(u) is List,
            None => true,
        },
    ensures
        match map_get(entry_with_item(m, k, x), k) {
            Some(u) => match untag(u) {
                YamlView::List(l) => l.contains(x),
                _ => false,
            },
            None => false,
        },
{
    let m2 = entry_with_item(m, k, x);
    lemma_key_index(m, k);
    match key_index(m, k) {
        Some(i) => {
            lemma_key_index_same_keys(m, m2, k);
            if let YamlView::List(l) = untag(m[i].1) {
                lemma_untag_replace_core(m[i].1, YamlView::List(with_item(l, x)));
                if !l.contains(x) {
                    assert(l.push(x)[l.len() as int] == x);
                }
            }
        },
        None => {
            lemma_key_index_first(m2, k, m.len() as int);
            assert(seq![x][0] == x);
        },
    }
}

// ---------------------------------------------------------------- groups

/// Replacing the core of a node and looking through its tags again gives
/// the new core.
pub proof fn lemma_untag_replace_core(v: YamlView, core: YamlView)
    requires
        !(core is Tagged),
    ensures
        untag(replace_core(v, core)) == core,
    decreases v,
{
    if let YamlView::Tagged(_, b) = v {
        lemma_untag_replace_core(*b, core);
    }
}

/// The group at `i` is found as the first `Proxy` group when it is one and
/// none before it is.
pub proof fn lemma_proxy_group_index_first(gs: Seq<YamlView>, i: int)
    requires
        0 <= i < gs.len(),
        is_proxy_group(gs[i]),
        forall|j: int| 0 <= j < i ==> !is_proxy_group(gs[j]),
    ensures
        proxy_group_index(gs) == Some(i),
{
    lemma_proxy_group_index(gs);
}

/// A group's `use` list holds subscription `p`.
pub open spec fn group_uses(g: YamlView, p: Seq<char>) -> bool {
    match untag(g) {
        YamlView::Mapping(m) => match map_get(m, "use"@) {
            Some(u) => match untag(u) {
                YamlView::List(l) => l.contains(YamlView::Str(p)),
                _ => false,
            },
            None => false,
        },
        _ => false,
    }
}

/// The group's `use` entry, if it has one, is a list.
pub open spec fn use_entry_is_list(g: YamlView) -> bool {
    match untag(g) {
        YamlView::Mapping(m) => match map_get(m, "use"@) {
            Some(u) => untag(u) is List,
            None => true,
        },
        _ => true,
    }
}

/// The first `Proxy` group uses subscription `p`.
pub open spec fn proxy_group_uses(gs: Seq<YamlView>, p: Seq<char>) -> bool {
    match proxy_group_index(gs) {
        Some(i) => group_uses(gs[i], p),
        None => false,
    }
}

/// The first `Proxy` group, if any, keeps its subscriptions in a list.
pub open spec fn proxy_group_use_is_list(gs: Seq<YamlView>) -> bool {
    match proxy_group_index(gs) {
        Some(i) => use_entry_is_list(gs[i]),
        None => true,
    }
}

proof fn lemma_distinct_literals()
    ensures
        "use"@ != "name"@,
        "use"@ != "proxies"@,
        "name"@ != "proxies"@,
        "use"@ != "type"@,
{
    reveal_strlit("use");
    reveal_strlit("name");
    reveal_strlit("proxies");
    reveal_strlit("type");
    assert("use"@.len() != "name"@.len());
    assert("use"@.len() != "proxies"@.len());
    assert("name"@.len() != "proxies"@.len());
    assert("use"@[0] != "type"@[0]);
}

/// After subscription `p` is routed through the `Proxy` group, that group
/// is the first `Proxy` group and lists `p` among the subscriptions it
/// uses, unless the existing group kept its `use` entry as something other
/// than a list.
pub proof fn law_routed_provider_is_used(gs: Seq<YamlView>, p: Seq<char>)
    requires
        proxy_group_use_is_list(gs),
    ensures
        proxy_group_uses(groups_using(gs, p), p),
{
    lemma_distinct_literals();
    lemma_proxy_group_index(gs);
    match proxy_group_index(gs) {
        Some(i) => {
            let g = gs[i];
            if let YamlView::Mapping(m) = untag(g) {
                let m1 = entry_with_item(m, "use"@, YamlView::Str(p));
                let m2 = with_direct(m1);
                let g2 = group_using(g, p);
                lemma_untag_replace_core(g, YamlView::Mapping(m2));
                assert(untag(g2) == YamlView::Mapping(m2));
                lemma_entry_with_item_other(m, "use"@, YamlView::Str(p), "name"@);
                lemma_entry_with_item_other(m1, "proxies"@, YamlView::Str("DIRECT"@), "name"@);
                lemma_entry_with_item_other(m1, "proxies"@, YamlView::Str("DIRECT"@), "use"@);
                lemma_entry_with_item_same(m, "use"@, YamlView::Str(p));
                assert(is_proxy_group(g2));
                let gs2 = gs.update(i, g2);
                lemma_proxy_group_index_first(gs2, i);
                assert(group_uses(gs2[i], p));
            }
        },
        None => {
            let g = new_proxy_group(p);
            let gs2 = gs.push(g);
            if let YamlView::Mapping(m) = g {
                lemma_key_index_first(m, "name"@, 0);
                lemma_key_index_first(m, "use"@, 3);
                assert(seq![YamlView::Str(p)][0] == YamlView::Str(p));
            }
            assert(is_proxy_group(g));
            lemma_proxy_group_index_first(gs2, gs.len() as int);
            assert(gs2[gs.len() as int] == g);
        },
    }
}

/// After subscription `p` is dropped from every group, no group uses it.
pub proof fn law_dropped_provider_is_unused(gs: Seq<YamlView>, p: Seq<char>, i: int)
    requires
        0 <= i < gs.len(),
    ensures
        !group_uses(groups_without(gs, p)[i], p),
{
    let g = gs[i];
    let g2 = group_without(g, p);
    assert(groups_without(gs, p)[i] == g2);
    if let YamlView::Mapping(m) = untag(g) {
        lemma_key_index(m, "use"@);
        match key_index(m, "use"@) {
            Some(j) => {
                let v = m[j].1;
                let v2 = list_node_without(v, YamlView::Str(p));
                let m2 = m.update(j, (m[j].0, v2));
                lemma_untag_replace_core(g, YamlView::Mapping(m2));
                lemma_key_index_same_keys(m, m2, "use"@);
                if let YamlView::List(l) = untag(v) {
                    let kept = without_item(l, YamlView::Str(p));
                    lemma_untag_replace_core(v, YamlView::List(kept));
                    if kept.contains(YamlView::Str(p)) {
                        let k = choose|k: int| 0 <= k < kept.len() && kept[k] == YamlView::Str(p);
                        l.lemma_filter_pred(differs_from(YamlView::Str(p)), k);
                    }
                }
            },
            None => {},
        }
    }
}

// ---------------------------------------------------------------- the whole file

/// After a subscription is added, looking it up gives the entry made for
/// it: type `http`, the given address and interval, its cache under
/// `./providers/`, and the default health check.
pub proof fn law_added_provider_is_found(c: ClashConfigView, name: Seq<char>, url: Seq<char>, interval: u32)
    ensures
        lookup(providers_or_empty(with_provider(c, name, url, interval)), name) == Some(
            new_provider(name, url, interval),
        ),
{
    law_table_insert_lookup(providers_or_empty(c), name, new_provider(name, url, interval));
}

/// Adding a subscription leaves the other subscriptions as they were.
pub proof fn law_add_keeps_other_providers(
    c: ClashConfigView,
    name: Seq<char>,
    url: Seq<char>,
    interval: u32,
    other: Seq<char>,
)
    requires
        other != name,
    ensures
        lookup(providers_or_empty(with_provider(c, name, url, interval)), other) == lookup(
            providers_or_empty(c),
            other,
        ),
{
    law_table_insert_other(providers_or_empty(c), name, new_provider(name, url, interval), other);
}

/// After a subscription is added, the `Proxy` group uses it, unless that
/// group already kept its `use` entry as something other than a list.
pub proof fn law_added_provider_is_routed(c: ClashConfigView, name: Seq<char>, url: Seq<char>, interval: u32)
    requires
        proxy_group_use_is_list(groups_or_empty(c)),
    ensures
        proxy_group_uses(groups_or_empty(with_provider(c, name, url, interval)), name),
{
    law_routed_provider_is_used(groups_or_empty(c), name);
}

/// After a subscription is removed it is gone from the table and from
/// every group's `use` list.
pub proof fn law_removed_provider_is_gone(c: ClashConfigView, name: Seq<char>, i: int)
    requires
        keys_distinct(providers_or_empty(c)),
        0 <= i < groups_or_empty(without_provider(c, name)).len(),
    ensures
        lookup(providers_or_empty(without_provider(c, name)), name) is None,
        !group_uses(groups_or_empty(without_provider(c, name))[i], name),
{
    law_table_remove_lookup(providers_or_empty(c), name);
    law_dropped_provider_is_unused(groups_or_empty(c), name, i);
}

/// Adding a new subscription and removing it again leaves the subscription
/// table as it was.
pub proof fn law_add_then_remove_restores_table(
    c: ClashConfigView,
    name: Seq<char>,
    url: Seq<char>,
    interval: u32,
)
    requires
        lookup(providers_or_empty(c), name) is None,
    ensures
        providers_or_empty(without_provider(with_provider(c, name, url, interval), name))
            == providers_or_empty(c),
{
    law_table_insert_remove(providers_or_empty(c), name, new_provider(name, url, interval));
}

/// After a subscription is edited, looking it up gives the old entry with
/// the new address and interval (each kept when not given); a name that
/// is not there leaves the configuration as it was.
pub proof fn law_edited_provider_is_found(
    c: ClashConfigView,
    name: Seq<char>,
    url: Option<Seq<char>>,
    interval: Option<u32>,
)
    ensures
        match lookup(providers_or_empty(c), name) {
            Some(pv) => lookup(providers_or_empty(with_update(c, name, url, interval)), name) == Some(
                provider_updated(pv, url, interval),
            ),
            None => with_update(c, name, url, interval) == c,
        },
{
    let t = providers_or_empty(c);
    lemma_index_of_key(t, name);
    match index_of_key(t, name) {
        Some(i) => {
            let t2 = t.update(i, (t[i].0, provider_updated(t[i].1, url, interval)));
            lemma_index_of_key_first(t2, name, i);
        },
        None => {},
    }
}

/// Editing a subscription leaves the other subscriptions as they were.
pub proof fn law_edit_keeps_other_providers(
    c: ClashConfigView,
    name: Seq<char>,
    url: Option<Seq<char>>,
    interval: Option<u32>,
    other: Seq<char>,
)
    requires
        other != name,
    ensures
        lookup(providers_or_empty(with_update(c, name, url, interval)), other) == lookup(
            providers_or_empty(c),
            other,
        ),
{
    let t = providers_or_empty(c);
    lemma_index_of_key(t, name);
    lemma_index_of_key(t, other);
    match index_of_key(t, name) {
        Some(i) => {
            let t2 = t.update(i, (t[i].0, provider_updated(t[i].1, url, interval)));
            lemma_index_of_key(t2, other);
            match index_of_key(t, other) {
                Some(j) => lemma_index_of_key_first(t2, other, j),
                None => lemma_index_of_key_absent(t2, other),
            }
        },
        None => {},
    }
}

// ---------------------------------------------------------------- the default route

/// The rule list the default route is set to.
pub open spec fn proxy_fallback() -> YamlView {
    YamlView::List(seq![YamlView::Str("MATCH,Proxy"@)])
}

/// Fixing the default route keeps the user's rules: with `rules` first
/// found at entry `i`, a list of two or more rules, a single rule that is
/// not a direct fallback, or a value that is no list stays as it is; only
/// an empty list or a lone `MATCH,DIRECT` or `FINAL,DIRECT` is replaced,
/// by `MATCH,Proxy`.
pub proof fn law_route_fix_keeps_user_rules(extra: Seq<(Seq<char>, YamlView)>, i: int)
    requires
        0 <= i < extra.len(),
        extra[i].0 == "rules"@,
        forall|j: int| 0 <= j < i ==> extra[j].0 != "rules"@,
    ensures
        !(extra[i].1 is List) ==> route_fixed(extra) == extra,
        extra[i].1 is List && extra[i].1->List_0.len() >= 2 ==> route_fixed(extra) == extra,
        extra[i].1 is List && extra[i].1->List_0.len() == 1 && str_of(extra[i].1->List_0[0]) != Some(
            "MATCH,DIRECT"@,
        ) && str_of(extra[i].1->List_0[0]) != Some("FINAL,DIRECT"@) ==> route_fixed(extra) == extra,
        extra[i].1 is List && (extra[i].1->List_0.len() == 0 || (extra[i].1->List_0.len() == 1 && (
        str_of(extra[i].1->List_0[0]) == Some("MATCH,DIRECT"@) || str_of(extra[i].1->List_0[0])
            == Some("FINAL,DIRECT"@)))) ==> route_fixed(extra) == extra.update(i, ("rules"@, proxy_fallback())),
{
    reveal_strlit("rules");
    reveal_strlit("MATCH,Proxy");
    lemma_index_of_key_first(extra, "rules"@, i);
}

/// Without a `rules` entry, fixing the default route adds one that sends
/// everything through `Proxy`.
pub proof fn law_route_fix_adds_missing_rules(extra: Seq<(Seq<char>, YamlView)>)
    requires
        forall|j: int| 0 <= j < extra.len() ==> extra[j].0 != "rules"@,
    ensures
        route_fixed(extra) == extra.push(("rules"@, proxy_fallback())),
{
    reveal_strlit("MATCH,Proxy");
    lemma_index_of_key_absent(extra, "rules"@);
}

/// Adding a subscription keeps a configuration's own rule list of two or
/// more rules, and every other top-level entry, as they are.
pub proof fn law_add_keeps_user_rules(c: ClashConfigView, name: Seq<char>, url: Seq<char>, interval: u32, i: int)
    requires
        0 <= i < c.extra.len(),
        c.extra[i].0 == "rules"@,
        forall|j: int| 0 <= j < i ==> c.extra[j].0 != "rules"@,
        c.extra[i].1 is List,
        c.extra[i].1->List_0.len() >= 2,
    ensures
        with_provider(c, name, url, interval).extra == c.extra,
{
    law_route_fix_keeps_user_rules(c.extra, i);
}

} // verus!
