//! Repairing a configuration for the dashboard twice changes nothing the
//! second time, and neither does adding the same subscription twice.

use vstd::prelude::*;
use crate::config::{
    default_routed, direct, group_using, groups_or_empty, groups_using, index_of_key,
    is_proxy_group, lemma_index_of_key, lemma_proxy_group_index, lemma_routed_all_fields,
    match_proxy, new_provider, new_proxy_group, provider_names, providers_or_empty,
    proxy_group_index, repaired, route_fixed, routed, routed_all, table_insert, with_direct,
    with_provider, with_table, ClashConfigView,
};
use crate::config_laws::{
    lemma_entry_with_item_other, lemma_index_of_key_first, lemma_key_index_first,
    lemma_proxy_group_index_first, lemma_untag_replace_core,
};
use crate::yaml::{
    entry_with_item, key_index, lemma_key_index, list_node_with, map_get, replace_core, str_of,
    untag, with_item, YamlView,
};

verus! {

// ---------------------------------------------------------------- lists under keys

/// The list under key `k` already holds `x`, or the value there is no list
/// (and adding to it leaves it as it is).
pub open spec fn holds_item(m: Seq<(YamlView, YamlView)>, k: Seq<char>, x: YamlView) -> bool {
    match map_get(m, k) {
        Some(u) => match untag(u) {
            YamlView::List(l) => l.contains(x),
            _ => true,
        },
        None => false,
    }
}

/// A node is its own core put back under its tags.
proof fn lemma_replace_core_untag(v: YamlView)
    ensures
        replace_core(v, untag(v)) == v,
    decreases v,
{
    if let YamlView::Tagged(t, b) = v {
        lemma_replace_core_untag(*b);
    }
}

/// Adding an item the entry already holds changes nothing.
proof fn lemma_entry_with_item_held(m: Seq<(YamlView, YamlView)>, k: Seq<char>, x: YamlView)
    requires
        holds_item(m, k, x),
    ensures
        entry_with_item(m, k, x) == m,
{
    lemma_key_index(m, k);
    let i = key_index(m, k)->0;
    let v = m[i].1;
    if let YamlView::List(l) = untag(v) {
        lemma_replace_core_untag(v);
        assert(with_item(l, x) == l);
    }
    assert(list_node_with(v, x) == v);
    assert(m.update(i, (m[i].0, v)) =~= m);
}

/// After an item is added under a key, that key holds it.
proof fn lemma_entry_with_item_holds(m: Seq<(YamlView, YamlView)>, k: Seq<char>, x: YamlView)
    ensures
        holds_item(entry_with_item(m, k, x), k, x),
{
    let m2 = entry_with_item(m, k, x);
    lemma_key_index(m, k);
    match key_index(m, k) {
        Some(i) => {
            lemma_key_index_first(m2, k, i);
            let v = m[i].1;
            if let YamlView::List(l) = untag(v) {
                lemma_untag_replace_core(v, YamlView::List(with_item(l, x)));
                if !l.contains(x) {
                    assert(l.push(x)[l.len() as int] == x);
                }
            }
        },
        None => {
            lemma_key_index_first(m2, k, m.len() as int);
            assert(seq![x][0] == x);
        },
    }
}

/// Adding another item under the same key keeps what it held.
proof fn lemma_entry_with_item_keeps(
    m: Seq<(YamlView, YamlView)>,
    k: Seq<char>,
    x: YamlView,
    y: YamlView,
)
    requires
        holds_item(m, k, x),
    ensures
        holds_item(entry_with_item(m, k, y), k, x),
{
    let m2 = entry_with_item(m, k, y);
    lemma_key_index(m, k);
    let i = key_index(m, k)->0;
    lemma_key_index_first(m2, k, i);
    let v = m[i].1;
    if let YamlView::List(l) = untag(v) {
        lemma_untag_replace_core(v, YamlView::List(with_item(l, y)));
        if !l.contains(y) {
            let j = choose|j: int| 0 <= j < l.len() && l[j] == x;
            assert(l.push(y)[j] == x);
        }
    }
}

// ---------------------------------------------------------------- groups

/// The group is a mapping whose `use` list holds subscription `p` and
/// whose `proxies` list holds `DIRECT`.
pub open spec fn group_has(g: YamlView, p: Seq<char>) -> bool {
    match untag(g) {
        YamlView::Mapping(m) => holds_item(m, "use"@, YamlView::Str(p)) && holds_item(
            m,
            "proxies"@,
            YamlView::Str(direct()),
        ),
        _ => false,
    }
}

proof fn lemma_distinct_keys()
    ensures
        "use"@ != "name"@,
        "use"@ != "proxies"@,
        "name"@ != "proxies"@,
        "use"@ != "type"@,
        "proxies"@ != "type"@,
{
    reveal_strlit("use");
    reveal_strlit("name");
    reveal_strlit("proxies");
    reveal_strlit("type");
    assert("use"@.len() != "type"@.len());
    assert("proxies"@.len() != "type"@.len());
    assert("use"@.len() != "name"@.len());
    assert("use"@.len() != "proxies"@.len());
    assert("name"@.len() != "proxies"@.len());
}

/// Routing a subscription a group already has changes nothing.
proof fn lemma_group_using_held(g: YamlView, p: Seq<char>)
    requires
        group_has(g, p),
    ensures
        group_using(g, p) == g,
{
    if let YamlView::Mapping(m) = untag(g) {
        lemma_entry_with_item_held(m, "use"@, YamlView::Str(p));
        lemma_entry_with_item_held(m, "proxies"@, YamlView::Str(direct()));
        lemma_replace_core_untag(g);
    }
}

/// Routing subscription `q` through a group keeps its name, and the group
/// then has `q`, and every subscription it had before.
proof fn lemma_group_using_effect(g: YamlView, p: Seq<char>, q: Seq<char>)
    requires
        untag(g) is Mapping,
    ensures
        group_has(group_using(g, q), q),
        group_has(g, p) ==> group_has(group_using(g, q), p),
        is_proxy_group(g) ==> is_proxy_group(group_using(g, q)),
{
    lemma_distinct_keys();
    if let YamlView::Mapping(m) = untag(g) {
        let d = YamlView::Str(direct());
        let m1 = entry_with_item(m, "use"@, YamlView::Str(q));
        let m2 = with_direct(m1);
        lemma_untag_replace_core(g, YamlView::Mapping(m2));
        // q, and DIRECT
        lemma_entry_with_item_holds(m, "use"@, YamlView::Str(q));
        lemma_entry_with_item_other(m1, "proxies"@, d, "use"@);
        lemma_entry_with_item_holds(m1, "proxies"@, d);
        // the name
        lemma_entry_with_item_other(m, "use"@, YamlView::Str(q), "name"@);
        lemma_entry_with_item_other(m1, "proxies"@, d, "name"@);
        if group_has(g, p) {
            lemma_entry_with_item_keeps(m, "use"@, YamlView::Str(p), YamlView::Str(q));
            lemma_entry_with_item_other(m, "use"@, YamlView::Str(q), "proxies"@);
            lemma_entry_with_item_keeps(m1, "proxies"@, d, d);
        }
    }
}

/// The first `Proxy` group has subscription `p`.
pub open spec fn groups_have(gs: Seq<YamlView>, p: Seq<char>) -> bool {
    match proxy_group_index(gs) {
        Some(i) => group_has(gs[i], p),
        None => false,
    }
}

/// Routing subscription `q` leaves the first `Proxy` group where it was,
/// or puts a new one at the end when there was none; that group then has
/// `q` and every subscription it had before.
proof fn lemma_groups_using_effect(gs: Seq<YamlView>, p: Seq<char>, q: Seq<char>)
    ensures
        groups_have(groups_using(gs, q), q),
        groups_have(gs, p) ==> groups_have(groups_using(gs, q), p),
{
    lemma_distinct_keys();
    lemma_proxy_group_index(gs);
    match proxy_group_index(gs) {
        Some(i) => {
            let g2 = group_using(gs[i], q);
            lemma_group_using_effect(gs[i], p, q);
            let gs2 = gs.update(i, g2);
            lemma_proxy_group_index_first(gs2, i);
        },
        None => {
            let g = new_proxy_group(q);
            let gs2 = gs.push(g);
            if let YamlView::Mapping(m) = g {
                lemma_key_index_first(m, "name"@, 0);
                lemma_key_index_first(m, "proxies"@, 2);
                lemma_key_index_first(m, "use"@, 3);
                assert(seq![YamlView::Str(q)][0] == YamlView::Str(q));
                assert(seq![YamlView::Str(direct())][0] == YamlView::Str(direct()));
            }
            assert(is_proxy_group(g));
            lemma_proxy_group_index_first(gs2, gs.len() as int);
            assert(gs2[gs.len() as int] == g);
        },
    }
}

/// Routing a subscription the first `Proxy` group already has changes
/// nothing.
proof fn lemma_groups_using_held(gs: Seq<YamlView>, p: Seq<char>)
    requires
        groups_have(gs, p),
    ensures
        groups_using(gs, p) == gs,
{
    let i = proxy_group_index(gs)->0;
    lemma_proxy_group_index(gs);
    lemma_group_using_held(gs[i], p);
    assert(gs.update(i, gs[i]) =~= gs);
}

// ---------------------------------------------------------------- configurations

/// After every name is routed, the first `Proxy` group has each of them.
proof fn lemma_routed_all_has(c: ClashConfigView, names: Seq<Seq<char>>)
    ensures
        forall|j: int|
            0 <= j < names.len() ==> groups_have(
                groups_or_empty(routed_all(c, names)),
                #[trigger] names[j],
            ),
    decreases names.len(),
{
    if names.len() > 0 {
        let front = names.drop_last();
        let last = names.last();
        lemma_routed_all_has(c, front);
        let gs = groups_or_empty(routed_all(c, front));
        assert forall|j: int| 0 <= j < names.len() implies groups_have(
            groups_or_empty(routed_all(c, names)),
            #[trigger] names[j],
        ) by {
            lemma_groups_using_effect(gs, names[j], last);
            if j < names.len() - 1 {
                assert(front[j] == names[j]);
            }
        }
    }
}

/// Routing names the groups already have changes nothing.
proof fn lemma_routed_all_held(c: ClashConfigView, names: Seq<Seq<char>>)
    requires
        forall|j: int| 0 <= j < names.len() ==> groups_have(groups_or_empty(c), #[trigger] names[j]),
    ensures
        routed_all(c, names) == c,
    decreases names.len(),
{
    if names.len() > 0 {
        let front = names.drop_last();
        assert forall|j: int| 0 <= j < front.len() implies groups_have(
            groups_or_empty(c),
            #[trigger] front[j],
        ) by {
            assert(front[j] == names[j]);
        }
        lemma_routed_all_held(c, front);
        let last = names.last();
        assert(groups_have(groups_or_empty(c), names[names.len() - 1]));
        lemma_groups_using_held(groups_or_empty(c), last);
        assert(c.proxy_groups is Some);
        assert(routed(c, last) == c);
    }
}

/// Fixing the default route twice is fixing it once.
proof fn lemma_route_fixed_twice(extra: Seq<(Seq<char>, YamlView)>)
    ensures
        route_fixed(route_fixed(extra)) == route_fixed(extra),
{
    reveal_strlit("MATCH,Proxy");
    reveal_strlit("MATCH,DIRECT");
    reveal_strlit("FINAL,DIRECT");
    reveal_strlit("rules");
    let fixed = YamlView::List(seq![YamlView::Str(match_proxy())]);
    let e2 = route_fixed(extra);
    lemma_index_of_key(extra, "rules"@);
    let k = match index_of_key(extra, "rules"@) {
        Some(i) => i,
        None => extra.len() as int,
    };
    if e2 != extra {
        assert(e2[k] == ("rules"@, fixed));
        assert forall|j: int| 0 <= j < k implies e2[j].0 != "rules"@ by {
            assert(e2[j] == extra[j]);
        }
        lemma_index_of_key_first(e2, "rules"@, k);
        assert(seq![YamlView::Str(match_proxy())][0] == YamlView::Str(match_proxy()));
        assert(str_of(YamlView::Str(match_proxy())) == Some(match_proxy()));
        assert(match_proxy().len() != "MATCH,DIRECT"@.len());
        assert(match_proxy().len() != "FINAL,DIRECT"@.len());
    }
}

/// Repairing a configuration that was already repaired changes nothing:
/// every subscription is already routed through the `Proxy` group and the
/// default route already goes through it.
pub proof fn law_repair_is_idempotent(c: ClashConfigView)
    ensures
        repaired(repaired(c)) == repaired(c),
{
    let names = provider_names(c);
    let r = routed_all(c, names);
    let d = default_routed(r);
    lemma_routed_all_fields(c, names);
    assert(provider_names(d) == names);
    lemma_routed_all_has(c, names);
    assert(groups_or_empty(d) == groups_or_empty(r));
    lemma_routed_all_held(d, names);
    lemma_route_fixed_twice(r.extra);
}

/// Setting a key to the value it was just set to changes nothing.
proof fn lemma_table_insert_twice<V>(t: Seq<(Seq<char>, V)>, k: Seq<char>, v: V)
    ensures
        table_insert(table_insert(t, k, v), k, v) == table_insert(t, k, v),
{
    let t1 = table_insert(t, k, v);
    lemma_index_of_key(t, k);
    let j = match index_of_key(t, k) {
        Some(i) => i,
        None => t.len() as int,
    };
    lemma_index_of_key_first(t1, k, j);
    assert(t1.update(j, (k, v)) =~= t1);
}

/// Adding the same subscription a second time leaves the configuration as
/// the first addition left it: the table entry is replaced by an equal
/// one, the `Proxy` group already uses the name, and the default route is
/// already fixed.
pub proof fn law_add_twice_is_add_once(c: ClashConfigView, name: Seq<char>, url: Seq<char>, interval: u32)
    ensures
        with_provider(with_provider(c, name, url, interval), name, url, interval)
            == with_provider(c, name, url, interval),
{
    let v = new_provider(name, url, interval);
    let t1 = table_insert(providers_or_empty(c), name, v);
    let r1 = routed(with_table(c, t1), name);
    let c1 = with_provider(c, name, url, interval);
    lemma_table_insert_twice(providers_or_empty(c), name, v);
    assert(with_table(c1, table_insert(providers_or_empty(c1), name, v)) == c1);
    let gs1 = groups_or_empty(c1);
    lemma_groups_using_effect(groups_or_empty(with_table(c, t1)), name, name);
    lemma_groups_using_held(gs1, name);
    assert(routed(c1, name) == c1);
    lemma_route_fixed_twice(r1.extra);
}

} // verus!
