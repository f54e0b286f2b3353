//! A YAML document tree, and the reads and edits the configuration code
//! makes on it.

use vstd::prelude::*;
use crate::text::{owned, str_eq};
use serde_yaml::value::{Tag, TaggedValue};
use serde_yaml::Value;

verus! {

/// A node of a YAML document. Numbers keep their written form, and tags
/// the form `serde_yaml` prints them in, with their leading `!`.
#[derive(Debug)]
pub enum Yaml {
    Null,
    Bool(bool),
    Number(String),
    Str(String),
    List(Vec<Yaml>),
    Mapping(Vec<(Yaml, Yaml)>),
    Tagged(String, Box<Yaml>),
}

/// A YAML node as plain values.
pub enum YamlView {
    Null,
    Bool(bool),
    Number(Seq<char>),
    Str(Seq<char>),
    List(Seq<YamlView>),
    Mapping(Seq<(YamlView, YamlView)>),
    Tagged(Seq<char>, Box<YamlView>),
}

/// The plain value of a node.
pub open spec fn yaml_view(y: Yaml) -> YamlView
    decreases y,
{
    match y {
        Yaml::Null => YamlView::Null,
        Yaml::Bool(b) => YamlView::Bool(b),
        Yaml::Number(s) => YamlView::Number(s@),
        Yaml::Str(s) => YamlView::Str(s@),
        Yaml::List(v) => YamlView::List(
            Seq::new(
                v@.len(),
                |i: int|
                    if 0 <= i < v@.len() {
                        yaml_view(v@[i])
                    } else {
                        YamlView::Null
                    },
            ),
        ),
        Yaml::Mapping(v) => YamlView::Mapping(
            Seq::new(
                v@.len(),
                |i: int|
                    if 0 <= i < v@.len() {
                        (yaml_view(v@[i].0), yaml_view(v@[i].1))
                    } else {
                        (YamlView::Null, YamlView::Null)
                    },
            ),
        ),
        Yaml::Tagged(t, b) => YamlView::Tagged(t@, Box::new(yaml_view(*b))),
    }
}

impl View for Yaml {
    type V = YamlView;

    open spec fn view(&self) -> YamlView {
        yaml_view(*self)
    }
}

/// Plain values of a list of nodes.
pub open spec fn list_view(v: Seq<Yaml>) -> Seq<YamlView> {
    Seq::new(v.len(), |i: int| v[i]@)
}

/// Plain values of the entries of a mapping.
pub open spec fn mapping_view(v: Seq<(Yaml, Yaml)>) -> Seq<(YamlView, YamlView)> {
    Seq::new(v.len(), |i: int| (v[i].0@, v[i].1@))
}

/// The view of a list node is the list of its items' views.
pub proof fn lemma_list_view(v: Vec<Yaml>)
    ensures
        Yaml::List(v)@ == YamlView::List(list_view(v@)),
{
    if let YamlView::List(s) = yaml_view(Yaml::List(v)) {
        assert(s =~= list_view(v@));
    }
}

/// The view of a mapping node is the list of its entries' views.
pub proof fn lemma_mapping_view(v: Vec<(Yaml, Yaml)>)
    ensures
        Yaml::Mapping(v)@ == YamlView::Mapping(mapping_view(v@)),
{
    if let YamlView::Mapping(s) = yaml_view(Yaml::Mapping(v)) {
        assert(s =~= mapping_view(v@));
    }
}

/// A node with its tags removed.
pub open spec fn untag(v: YamlView) -> YamlView
    decreases v,
{
    match v {
        YamlView::Tagged(_, b) => untag(*b),
        _ => v,
    }
}

/// `v` with the node under its tags replaced by `core`.
pub open spec fn replace_core(v: YamlView, core: YamlView) -> YamlView
    decreases v,
{
    match v {
        YamlView::Tagged(t, b) => YamlView::Tagged(t, Box::new(replace_core(*b, core))),
        _ => core,
    }
}

/// The string of a node, looking through tags.
pub open spec fn str_of(v: YamlView) -> Option<Seq<char>> {
    match untag(v) {
        YamlView::Str(s) => Some(s),
        _ => None,
    }
}

/// Index of the first entry whose key is the string `k`.
pub open spec fn key_index(m: Seq<(YamlView, YamlView)>, k: Seq<char>) -> Option<int>
    decreases m.len(),
{
    if m.len() == 0 {
        None
    } else if m[0].0 == YamlView::Str(k) {
        Some(0)
    } else {
        match key_index(m.drop_first(), k) {
            Some(i) => Some(i + 1),
            None => None,
        }
    }
}

/// The value under key `k`.
pub open spec fn map_get(m: Seq<(YamlView, YamlView)>, k: Seq<char>) -> Option<YamlView> {
    match key_index(m, k) {
        Some(i) => Some(m[i].1),
        None => None,
    }
}

/// Where `key_index` points, the key is there, and nowhere before it.
pub proof fn lemma_key_index(m: Seq<(YamlView, YamlView)>, k: Seq<char>)
    ensures
        match key_index(m, k) {
            Some(i) => 0 <= i < m.len() && m[i].0 == YamlView::Str(k) && forall|j: int|
                0 <= j < i ==> m[j].0 != YamlView::Str(k),
            None => forall|j: int| 0 <= j < m.len() ==> m[j].0 != YamlView::Str(k),
        },
    decreases m.len(),
{
    if m.len() > 0 {
        lemma_key_index(m.drop_first(), k);
        if m[0].0 != YamlView::Str(k) {
            assert forall|j: int| 0 < j < m.len() implies m[j].0 == m.drop_first()[j - 1].0 by {}
        }
    }
}

/// A string node.
pub fn yaml_str(s: &str) -> (r: Yaml)
    ensures
        r@ == YamlView::Str(s@),
{
    Yaml::Str(owned(s))
}

/// Whether `v` is exactly the string node `s`.
pub fn is_str_node(v: &Yaml, s: &str) -> (r: bool)
    ensures
        r == (v@ == YamlView::Str(s@)),
{
    match v {
        Yaml::Str(t) => str_eq(t.as_str(), s),
        _ => false,
    }
}

/// The string under a node's tags, if it is one.
pub fn node_str(v: &Yaml) -> (r: Option<&String>)
    ensures
        match r {
            Some(s) => str_of(v@) == Some(s@),
            None => str_of(v@) is None,
        },
    decreases v,
{
    match v {
        Yaml::Tagged(_, b) => node_str(b),
        Yaml::Str(s) => Some(s),
        _ => None,
    }
}

/// Position of the entry with string key `k`.
pub fn find_key(m: &Vec<(Yaml, Yaml)>, k: &str) -> (r: Option<usize>)
    ensures
        match r {
            Some(i) => key_index(mapping_view(m@), k@) == Some(i as int),
            None => key_index(mapping_view(m@), k@) is None,
        },
        r matches Some(i) ==> i < m@.len(),
{
    let ghost mv = mapping_view(m@);
    proof {
        lemma_key_index(mv, k@);
    }
    let mut i: usize = 0;
    assert(mv.subrange(0, mv.len() as int) =~= mv);
    while i < m.len()
        invariant
            i <= m@.len(),
            mv == mapping_view(m@),
            key_index(mv, k@) == match key_index(mv.subrange(i as int, mv.len() as int), k@) {
                Some(j) => Some(j + i),
                None => None::<int>,
            },
        decreases m@.len() - i,
    {
        let ghost rest = mv.subrange(i as int, mv.len() as int);
        assert(rest.drop_first() =~= mv.subrange(i + 1, mv.len() as int));
        assert(rest[0].0 == m@[i as int].0@);
        if is_str_node(&m[i].0, k) {
            return Some(i);
        }
        i = i + 1;
    }
    None
}

/// Whether the list holds the string node `s`.
pub fn list_has_str(l: &Vec<Yaml>, s: &str) -> (r: bool)
    ensures
        r == list_view(l@).contains(YamlView::Str(s@)),
{
    let mut i: usize = 0;
    while i < l.len()
        invariant
            i <= l@.len(),
            forall|j: int| 0 <= j < i ==> list_view(l@)[j] != YamlView::Str(s@),
        decreases l@.len() - i,
    {
        if is_str_node(&l[i], s) {
            assert(list_view(l@)[i as int] == YamlView::Str(s@));
            return true;
        }
        i = i + 1;
    }
    false
}

/// `l` with `x` appended unless it is already there.
pub open spec fn with_item(l: Seq<YamlView>, x: YamlView) -> Seq<YamlView> {
    if l.contains(x) {
        l
    } else {
        l.push(x)
    }
}

/// A node whose core is a list gets `x` appended unless present; other
/// nodes are left as they are.
pub open spec fn list_node_with(v: YamlView, x: YamlView) -> YamlView {
    match untag(v) {
        YamlView::List(l) => replace_core(v, YamlView::List(with_item(l, x))),
        _ => v,
    }
}

/// Adds the string `x` to the list under `v`'s tags unless present.
pub fn add_to_list_node(v: Yaml, x: &str) -> (r: Yaml)
    ensures
        r@ == list_node_with(v@, YamlView::Str(x@)),
    decreases v,
{
    match v {
        Yaml::Tagged(t, b) => {
            let inner = add_to_list_node(*b, x);
            Yaml::Tagged(t, Box::new(inner))
        },
        Yaml::List(l) => {
            proof {
                lemma_list_view(l);
            }
            let mut l = l;
            if !list_has_str(&l, x) {
                let ghost before = l@;
                l.push(yaml_str(x));
                assert(list_view(l@) =~= list_view(before).push(YamlView::Str(x@)));
            }
            proof {
                lemma_list_view(l);
            }
            Yaml::List(l)
        },
        other => other,
    }
}

/// `m` with string `x` in the list under key `k`: a missing key is added
/// with a list of just `x`; a value that is not a list is left alone.
pub open spec fn entry_with_item(m: Seq<(YamlView, YamlView)>, k: Seq<char>, x: YamlView) -> Seq<
    (YamlView, YamlView),
> {
    match key_index(m, k) {
        Some(i) => m.update(i, (m[i].0, list_node_with(m[i].1, x))),
        None => m.push((YamlView::Str(k), YamlView::List(seq![x]))),
    }
}

/// Makes sure the list under key `k` holds the string `x`.
pub fn add_to_entry_list(m: &mut Vec<(Yaml, Yaml)>, k: &str, x: &str)
    ensures
        mapping_view(final(m)@) == entry_with_item(mapping_view(old(m)@), k@, YamlView::Str(x@)),
{
    let ghost before = mapping_view(m@);
    match find_key(m, k) {
        Some(i) => {
            let mut entry = (Yaml::Null, Yaml::Null);
            m.set_and_swap(i, &mut entry);
            let (key, value) = entry;
            let value = add_to_list_node(value, x);
            m.set(i, (key, value));
            assert(mapping_view(m@) =~= before.update(
                i as int,
                (before[i as int].0, list_node_with(before[i as int].1, YamlView::Str(x@))),
            ));
        },
        None => {
            let mut items: Vec<Yaml> = Vec::new();
            items.push(yaml_str(x));
            proof {
                lemma_list_view(items);
                assert(list_view(items@) =~= seq![YamlView::Str(x@)]);
            }
            m.push((yaml_str(k), Yaml::List(items)));
            assert(mapping_view(m@) =~= before.push(
                (YamlView::Str(k@), YamlView::List(seq![YamlView::Str(x@)])),
            ));
        },
    }
}


/// The entries of a mapping under a node's tags, if it is one.
pub fn node_mapping(v: &Yaml) -> (r: Option<&Vec<(Yaml, Yaml)>>)
    ensures
        match r {
            Some(m) => untag(v@) == YamlView::Mapping(mapping_view(m@)),
            None => !(untag(v@) is Mapping),
        },
    decreases v,
{
    match v {
        Yaml::Tagged(_, b) => node_mapping(b),
        Yaml::Mapping(m) => {
            proof {
                lemma_mapping_view(*m);
            }
            Some(m)
        },
        _ => None,
    }
}

/// The items of a list under a node's tags, if it is one.
pub fn node_list(v: &Yaml) -> (r: Option<&Vec<Yaml>>)
    ensures
        match r {
            Some(l) => untag(v@) == YamlView::List(list_view(l@)),
            None => !(untag(v@) is List),
        },
    decreases v,
{
    match v {
        Yaml::Tagged(_, b) => node_list(b),
        Yaml::List(l) => {
            proof {
                lemma_list_view(*l);
            }
            Some(l)
        },
        _ => None,
    }
}

/// `l` without the items equal to `x`.
pub open spec fn without_item(l: Seq<YamlView>, x: YamlView) -> Seq<YamlView> {
    l.filter(differs_from(x))
}

/// Holds of the values other than `x`.
pub open spec fn differs_from(x: YamlView) -> spec_fn(YamlView) -> bool {
    |y: YamlView| y != x
}

/// A node whose core is a list loses the items equal to `x`; other nodes
/// are left as they are.
pub open spec fn list_node_without(v: YamlView, x: YamlView) -> YamlView {
    match untag(v) {
        YamlView::List(l) => replace_core(v, YamlView::List(without_item(l, x))),
        _ => v,
    }
}

/// Removes the string `x` from the list under `v`'s tags.
pub fn remove_from_list_node(v: Yaml, x: &str) -> (r: Yaml)
    ensures
        r@ == list_node_without(v@, YamlView::Str(x@)),
    decreases v,
{
    match v {
        Yaml::Tagged(t, b) => {
            let inner = remove_from_list_node(*b, x);
            Yaml::Tagged(t, Box::new(inner))
        },
        Yaml::List(l) => {
            proof {
                lemma_list_view(l);
            }
            let ghost target = YamlView::Str(x@);
            let ghost orig = l@;
            let n = l.len();
            let mut src = l;
            let mut kept: Vec<Yaml> = Vec::new();
            assert(list_view(orig.subrange(n as int, n as int)) =~= Seq::<YamlView>::empty());
            while src.len() > 0
                invariant
                    target == YamlView::Str(x@),
                    n == orig.len(),
                    src@.len() <= n,
                    src@ == orig.subrange(0, src@.len() as int),
                    list_view(kept@) == without_item(
                        list_view(orig.subrange(src@.len() as int, n as int)),
                        target,
                    ),
                decreases src.len(),
            {
                let ghost m = src@.len();
                let item = src.pop().unwrap();
                assert(item == orig[m - 1]);
                let ghost rest = list_view(orig.subrange(m as int, n as int));
                let ghost kept_before = list_view(kept@);
                assert(list_view(orig.subrange(m - 1, n as int)) =~= seq![item@] + rest);
                proof {
                    rest.lemma_filter_prepend(item@, differs_from(target));
                }
                if !is_str_node(&item, x) {
                    assert(differs_from(target)(item@));
                    let ghost before = kept@;
                    kept.insert(0, item);
                    assert(list_view(kept@) =~= seq![list_view(kept@)[0]] + list_view(before));
                    assert(list_view(kept@) == seq![item@] + kept_before);
                } else {
                    assert(!differs_from(target)(item@));
                    assert(Seq::<YamlView>::empty() + kept_before =~= kept_before);
                }
            }
            assert(orig.subrange(0, n as int) =~= orig);
            proof {
                lemma_list_view(kept);
            }
            Yaml::List(kept)
        },
        other => other,
    }
}


/// A copy of a node.
pub fn yaml_clone(y: &Yaml) -> (r: Yaml)
    ensures
        r@ == y@,
    decreases y,
{
    match y {
        Yaml::Null => Yaml::Null,
        Yaml::Bool(b) => Yaml::Bool(*b),
        Yaml::Number(s) => Yaml::Number(s.clone()),
        Yaml::Str(s) => Yaml::Str(s.clone()),
        Yaml::List(l) => {
            proof {
                lemma_list_view(*l);
            }
            let mut out: Vec<Yaml> = Vec::new();
            let mut i: usize = 0;
            while i < l.len()
                invariant
                    *y == Yaml::List(*l),
                    i <= l@.len(),
                    out@.len() == i,
                    forall|j: int| 0 <= j < i ==> out@[j]@ == l@[j]@,
                decreases l@.len() - i,
            {
                assert(decreases_to!(*y => (*y)->List_0));
                assert(decreases_to!(*l => l@));
                assert(decreases_to!(l@ => l@[i as int]));
                out.push(yaml_clone(&l[i]));
                i = i + 1;
            }
            proof {
                lemma_list_view(out);
                assert(list_view(out@) =~= list_view(l@));
            }
            Yaml::List(out)
        },
        Yaml::Mapping(m) => {
            proof {
                lemma_mapping_view(*m);
            }
            let mut out: Vec<(Yaml, Yaml)> = Vec::new();
            let mut i: usize = 0;
            while i < m.len()
                invariant
                    *y == Yaml::Mapping(*m),
                    i <= m@.len(),
                    out@.len() == i,
                    forall|j: int| 0 <= j < i ==> out@[j].0@ == m@[j].0@ && out@[j].1@ == m@[j].1@,
                decreases m@.len() - i,
            {
                assert(decreases_to!(*y => (*y)->Mapping_0));
                assert(decreases_to!(*m => m@));
                assert(decreases_to!(m@ => m@[i as int]));
                assert(decreases_to!(m@[i as int] => m@[i as int].0));
                assert(decreases_to!(m@[i as int] => m@[i as int].1));
                let k = yaml_clone(&m[i].0);
                let v = yaml_clone(&m[i].1);
                out.push((k, v));
                i = i + 1;
            }
            proof {
                lemma_mapping_view(out);
                assert(mapping_view(out@) =~= mapping_view(m@));
            }
            Yaml::Mapping(out)
        },
        Yaml::Tagged(t, b) => Yaml::Tagged(t.clone(), Box::new(yaml_clone(b))),
    }
}

/// Whether two nodes are equal.
pub fn yaml_eq(a: &Yaml, b: &Yaml) -> (r: bool)
    ensures
        r == (a@ == b@),
    decreases a,
{
    match (a, b) {
        (Yaml::Null, Yaml::Null) => true,
        (Yaml::Bool(x), Yaml::Bool(y)) => *x == *y,
        (Yaml::Number(x), Yaml::Number(y)) => str_eq(x.as_str(), y.as_str()),
        (Yaml::Str(x), Yaml::Str(y)) => str_eq(x.as_str(), y.as_str()),
        (Yaml::List(x), Yaml::List(y)) => {
            proof {
                lemma_list_view(*x);
                lemma_list_view(*y);
            }
            if x.len() != y.len() {
                assert(list_view(x@).len() != list_view(y@).len());
                return false;
            }
            let mut i: usize = 0;
            while i < x.len()
                invariant
                    *a == Yaml::List(*x),
                    a@ == YamlView::List(list_view(x@)),
                    b@ == YamlView::List(list_view(y@)),
                    i <= x@.len(),
                    x@.len() == y@.len(),
                    forall|j: int| 0 <= j < i ==> x@[j]@ == y@[j]@,
                decreases x@.len() - i,
            {
                assert(decreases_to!(*a => (*a)->List_0));
                assert(decreases_to!(*x => x@));
                assert(decreases_to!(x@ => x@[i as int]));
                if !yaml_eq(&x[i], &y[i]) {
                    assert(list_view(x@)[i as int] != list_view(y@)[i as int]);
                    return false;
                }
                i = i + 1;
            }
            assert(list_view(x@) =~= list_view(y@));
            true
        },
        (Yaml::Mapping(x), Yaml::Mapping(y)) => {
            proof {
                lemma_mapping_view(*x);
                lemma_mapping_view(*y);
            }
            if x.len() != y.len() {
                assert(mapping_view(x@).len() != mapping_view(y@).len());
                return false;
            }
            let mut i: usize = 0;
            while i < x.len()
                invariant
                    *a == Yaml::Mapping(*x),
                    a@ == YamlView::Mapping(mapping_view(x@)),
                    b@ == YamlView::Mapping(mapping_view(y@)),
                    i <= x@.len(),
                    x@.len() == y@.len(),
                    forall|j: int| 0 <= j < i ==> x@[j].0@ == y@[j].0@ && x@[j].1@ == y@[j].1@,
                decreases x@.len() - i,
            {
                assert(decreases_to!(*a => (*a)->Mapping_0));
                assert(decreases_to!(*x => x@));
                assert(decreases_to!(x@ => x@[i as int]));
                assert(decreases_to!(x@[i as int] => x@[i as int].0));
                assert(decreases_to!(x@[i as int] => x@[i as int].1));
                if !yaml_eq(&x[i].0, &y[i].0) || !yaml_eq(&x[i].1, &y[i].1) {
                    assert(mapping_view(x@)[i as int] != mapping_view(y@)[i as int]);
                    return false;
                }
                i = i + 1;
            }
            assert(mapping_view(x@) =~= mapping_view(y@));
            true
        },
        (Yaml::Tagged(t, x), Yaml::Tagged(u, y)) => str_eq(t.as_str(), u.as_str()) && yaml_eq(x, y),
        _ => false,
    }
}


/// A copy of a list of nodes.
pub fn clone_list(l: &Vec<Yaml>) -> (r: Vec<Yaml>)
    ensures
        list_view(r@) == list_view(l@),
{
    let mut r: Vec<Yaml> = Vec::new();
    let mut i: usize = 0;
    while i < l.len()
        invariant
            i <= l@.len(),
            r@.len() == i,
            forall|j: int| 0 <= j < i ==> r@[j]@ == l@[j]@,
        decreases l@.len() - i,
    {
        r.push(yaml_clone(&l[i]));
        i = i + 1;
    }
    assert(list_view(r@) =~= list_view(l@));
    r
}

/// Whether two lists of nodes are equal.
pub fn list_eq(a: &Vec<Yaml>, b: &Vec<Yaml>) -> (r: bool)
    ensures
        r == (list_view(a@) == list_view(b@)),
{
    if a.len() != b.len() {
        assert(list_view(a@).len() != list_view(b@).len());
        return false;
    }
    let mut i: usize = 0;
    while i < a.len()
        invariant
            i <= a@.len(),
            a@.len() == b@.len(),
            forall|j: int| 0 <= j < i ==> a@[j]@ == b@[j]@,
        decreases a@.len() - i,
    {
        if !yaml_eq(&a[i], &b[i]) {
            assert(list_view(a@)[i as int] != list_view(b@)[i as int]);
            return false;
        }
        i = i + 1;
    }
    assert(list_view(a@) =~= list_view(b@));
    true
}

// ---------------------------------------------------------------- text

/// The document `serde_yaml` reads from `text`, as plain values; nothing
/// when the text is not YAML.
pub uninterp spec fn yaml_read(text: Seq<char>) -> Option<YamlView>;

/// The text `serde_yaml` writes for document `doc`; nothing when it
/// refuses to.
pub uninterp spec fn yaml_written(doc: YamlView) -> Option<Seq<char>>;

#[verifier::external_type_specification]
#[verifier::external_body]
pub struct ExYamlValue(serde_yaml::Value);

/// `serde_yaml` reads text `t` as a number (`serde_yaml::Number`'s
/// `FromStr`).
pub uninterp spec fn yaml_number_text(t: Seq<char>) -> bool;

/// Whether `serde_yaml` reads `text` as a number; wraps
/// `text.parse::<serde_yaml::Number>()`.
#[verifier::external_body]
fn reads_as_number(text: &str) -> (r: bool)
    ensures
        r == yaml_number_text(text@),
{
    text.parse::<serde_yaml::Number>().is_ok()
}

/// Every number of `y` is text `serde_yaml` reads as a number, and every
/// tag is non-empty: what `serde_yaml` is handed can be built from it.
pub open spec fn is_writable(y: YamlView) -> bool
    decreases y,
{
    match y {
        YamlView::Number(n) => yaml_number_text(n),
        YamlView::List(l) => forall|i: int| 0 <= i < l.len() ==> is_writable(#[trigger] l[i]),
        YamlView::Mapping(m) => forall|i: int|
            0 <= i < m.len() ==> is_writable(#[trigger] m[i].0) && is_writable(m[i].1),
        YamlView::Tagged(t, b) => t.len() > 0 && is_writable(*b),
        _ => true,
    }
}

/// A node made writable: a number `serde_yaml` does not read as one is
/// written as a string, and a node under an empty tag is written untagged.
pub open spec fn writable_view(y: YamlView) -> YamlView
    decreases y,
{
    match y {
        YamlView::Number(n) => if yaml_number_text(n) {
            y
        } else {
            YamlView::Str(n)
        },
        YamlView::List(l) => YamlView::List(
            Seq::new(l.len(), |i: int| if 0 <= i < l.len() { writable_view(l[i]) } else { YamlView::Null }),
        ),
        YamlView::Mapping(m) => YamlView::Mapping(
            Seq::new(
                m.len(),
                |i: int|
                    if 0 <= i < m.len() {
                        (writable_view(m[i].0), writable_view(m[i].1))
                    } else {
                        (YamlView::Null, YamlView::Null)
                    },
            ),
        ),
        YamlView::Tagged(t, b) => if t.len() > 0 {
            YamlView::Tagged(t, Box::new(writable_view(*b)))
        } else {
            writable_view(*b)
        },
        _ => y,
    }
}

/// The writable form of a node (see `writable_view`).
pub fn writable(y: &Yaml) -> (r: Yaml)
    ensures
        r@ == writable_view(y@),
        is_writable(r@),
    decreases y,
{
    match y {
        Yaml::Null => Yaml::Null,
        Yaml::Bool(b) => Yaml::Bool(*b),
        Yaml::Number(s) => if reads_as_number(s.as_str()) {
            Yaml::Number(s.clone())
        } else {
            Yaml::Str(s.clone())
        },
        Yaml::Str(s) => Yaml::Str(s.clone()),
        Yaml::List(l) => {
            proof {
                lemma_list_view(*l);
            }
            let ghost lv = list_view(l@);
            let mut out: Vec<Yaml> = Vec::new();
            let mut i: usize = 0;
            while i < l.len()
                invariant
                    *y == Yaml::List(*l),
                    lv == list_view(l@),
                    i <= l@.len(),
                    out@.len() == i,
                    forall|j: int| 0 <= j < i ==> out@[j]@ == writable_view(lv[j]) && is_writable(out@[j]@),
                decreases l@.len() - i,
            {
                assert(decreases_to!(*y => (*y)->List_0));
                assert(decreases_to!(*l => l@));
                assert(decreases_to!(l@ => l@[i as int]));
                out.push(writable(&l[i]));
                i = i + 1;
            }
            proof {
                lemma_list_view(out);
                assert(list_view(out@) =~= writable_view(y@)->List_0);
                assert forall|j: int| 0 <= j < list_view(out@).len() implies is_writable(
                    #[trigger] list_view(out@)[j],
                ) by {
                    assert(list_view(out@)[j] == out@[j]@);
                }
            }
            Yaml::List(out)
        },
        Yaml::Mapping(m) => {
            proof {
                lemma_mapping_view(*m);
            }
            let ghost mv = mapping_view(m@);
            let mut out: Vec<(Yaml, Yaml)> = Vec::new();
            let mut i: usize = 0;
            while i < m.len()
                invariant
                    *y == Yaml::Mapping(*m),
                    mv == mapping_view(m@),
                    i <= m@.len(),
                    out@.len() == i,
                    forall|j: int|
                        0 <= j < i ==> out@[j].0@ == writable_view(mv[j].0) && out@[j].1@ == writable_view(mv[j].1)
                            && is_writable(out@[j].0@) && is_writable(out@[j].1@),
                decreases m@.len() - i,
            {
                assert(decreases_to!(*y => (*y)->Mapping_0));
                assert(decreases_to!(*m => m@));
                assert(decreases_to!(m@ => m@[i as int]));
                assert(decreases_to!(m@[i as int] => m@[i as int].0));
                assert(decreases_to!(m@[i as int] => m@[i as int].1));
                let k = writable(&m[i].0);
                let v = writable(&m[i].1);
                out.push((k, v));
                i = i + 1;
            }
            proof {
                lemma_mapping_view(out);
                assert(mapping_view(out@) =~= writable_view(y@)->Mapping_0);
                assert forall|j: int| 0 <= j < mapping_view(out@).len() implies is_writable(
                    #[trigger] mapping_view(out@)[j].0,
                ) && is_writable(mapping_view(out@)[j].1) by {
                    assert(mapping_view(out@)[j] == (out@[j].0@, out@[j].1@));
                }
            }
            Yaml::Mapping(out)
        },
        Yaml::Tagged(t, b) => {
            let inner = writable(b);
            if t.as_str().unicode_len() > 0 {
                Yaml::Tagged(t.clone(), Box::new(inner))
            } else {
                inner
            }
        },
    }
}

/// A `serde_yaml::Value` as a node, one variant for another: numbers and
/// tags in their printed form. No contract: it is the conversion half of
/// `parse_yaml`.
#[verifier::external_body]
fn node_of_value(v: &Value) -> Yaml {
    match v {
        Value::Null => Yaml::Null,
        Value::Bool(b) => Yaml::Bool(*b),
        Value::Number(n) => Yaml::Number(n.to_string()),
        Value::String(s) => Yaml::Str(s.clone()),
        Value::Sequence(l) => Yaml::List(l.iter().map(node_of_value).collect()),
        Value::Mapping(m) => Yaml::Mapping(m.iter().map(|(k, v)| (node_of_value(k), node_of_value(v))).collect()),
        Value::Tagged(t) => Yaml::Tagged(t.tag.to_string(), Box::new(node_of_value(&t.value))),
    }
}

/// A writable node as a `serde_yaml::Value`, one variant for another; its
/// numbers are read back with `FromStr` (they all read, by the
/// `requires`) and its tags made with `Tag::new` (they are all non-empty,
/// so it does not panic). No contract: it is the conversion half of
/// `write_yaml`.
#[verifier::external_body]
fn value_of_node(y: &Yaml) -> Value
    requires
        is_writable(y@),
{
    match y {
        Yaml::Null => Value::Null,
        Yaml::Bool(b) => Value::Bool(*b),
        Yaml::Number(n) => Value::Number(n.parse().unwrap()),
        Yaml::Str(s) => Value::String(s.clone()),
        Yaml::List(l) => Value::Sequence(l.iter().map(value_of_node).collect()),
        Yaml::Mapping(m) => Value::Mapping(m.iter().map(|(k, v)| (value_of_node(k), value_of_node(v))).collect()),
        Yaml::Tagged(t, v) => Value::Tagged(Box::new(TaggedValue { tag: Tag::new(t.clone()), value: value_of_node(v) })),
    }
}

/// Reads YAML text with `serde_yaml::from_str` into a `serde_yaml::Value`
/// and gives it as a node: the document `yaml_read` names, or, when there
/// is none, `serde_yaml`'s error message.
#[verifier::external_body]
pub(crate) fn parse_yaml(text: &str) -> (r: Result<Yaml, String>)
    ensures
        match r {
            Ok(d) => yaml_read(text@) == Some(d@),
            Err(_) => yaml_read(text@) is None,
        },
{
    match serde_yaml::from_str::<Value>(text) {
        Ok(v) => Ok(node_of_value(&v)),
        Err(e) => Err(e.to_string()),
    }
}

/// Writes a writable node as YAML text with `serde_yaml::to_string`: the text
/// `yaml_written` names, or, when there is none, `serde_yaml`'s error
/// message.
#[verifier::external_body]
pub(crate) fn write_yaml(doc: &Yaml) -> (r: Result<String, String>)
    requires
        is_writable(doc@),
    ensures
        match r {
            Ok(t) => yaml_written(doc@) == Some(t@),
            Err(_) => yaml_written(doc@) is None,
        },
{
    match serde_yaml::to_string(&value_of_node(doc)) {
        Ok(t) => Ok(t),
        Err(e) => Err(e.to_string()),
    }
}

} // verus!
