//! Subscription documents: finding the proxy list in a downloaded or cached
//! YAML document and reducing it to a provider file with only `proxies`.

use vstd::prelude::*;
use vstd::string::*;
use crate::text::{owned, push_str, str_eq, trim, trimmed, views_of};
use crate::yaml::{
    clone_list, find_key, lemma_list_view, lemma_mapping_view, list_view, map_get, mapping_view, node_list,
    node_mapping, node_str, parse_yaml, str_of, untag, writable, writable_view, write_yaml, yaml_read,
    yaml_written, Yaml, YamlView,
};

verus! {

/// The mapping under `m`'s key `k` is a string (through tags).
pub open spec fn has_str_entry(m: Seq<(YamlView, YamlView)>, k: Seq<char>) -> bool {
    match map_get(m, k) {
        Some(v) => str_of(v) is Some,
        None => false,
    }
}

/// A proxy the core can use: a mapping with a string `name` and `type`.
pub open spec fn is_usable_proxy(p: YamlView) -> bool {
    match untag(p) {
        YamlView::Mapping(m) => has_str_entry(m, "name"@) && has_str_entry(m, "type"@),
        _ => false,
    }
}

/// How many proxies of `l` are usable.
pub open spec fn usable_count(l: Seq<YamlView>) -> nat
    decreases l.len(),
{
    if l.len() == 0 {
        0
    } else {
        usable_count(l.drop_last()) + if is_usable_proxy(l.last()) {
            1nat
        } else {
            0nat
        }
    }
}

/// The proxy list of a document: the list under a top-level `proxies`
/// key of a mapping, or the document itself when it is a list.
pub open spec fn proxies_list(doc: YamlView) -> Option<Seq<YamlView>> {
    match doc {
        YamlView::Mapping(m) => match map_get(m, "proxies"@) {
            Some(v) => match untag(v) {
                YamlView::List(l) => Some(l),
                _ => None,
            },
            None => None,
        },
        YamlView::List(l) => Some(l),
        _ => None,
    }
}

/// The provider document holding just the list `l` under `proxies`.
pub open spec fn provider_document(l: Seq<YamlView>) -> YamlView {
    YamlView::Mapping(seq![(YamlView::Str("proxies"@), YamlView::List(l))])
}

/// Normalizing a normalized subscription gives it back: the proxy list
/// found in a provider document is the list it was made from, so the same
/// document and count come out again.
pub proof fn law_normalized_document_is_stable(l: Seq<YamlView>)
    ensures
        proxies_list(provider_document(l)) == Some(l),
{
    let m = seq![(YamlView::Str("proxies"@), YamlView::List(l))];
    assert(m[0].0 == YamlView::Str("proxies"@));
    assert(map_get(m, "proxies"@) == Some(YamlView::List(l)));
}

/// The string keys of a mapping, in order.
pub open spec fn string_keys(m: Seq<(YamlView, YamlView)>) -> Seq<Seq<char>>
    decreases m.len(),
{
    if m.len() == 0 {
        Seq::empty()
    } else {
        let rest = string_keys(m.drop_last());
        match str_of(m.last().0) {
            Some(s) => rest.push(s),
            None => rest,
        }
    }
}

/// The strings of `ks` joined by `", "`.
pub open spec fn comma_joined(ks: Seq<Seq<char>>) -> Seq<char>
    decreases ks.len(),
{
    if ks.len() == 0 {
        Seq::empty()
    } else if ks.len() == 1 {
        ks[0]
    } else {
        comma_joined(ks.drop_last()) + ", "@ + ks.last()
    }
}

/// Why a subscription could not be used.
#[derive(Debug)]
pub enum SubscriptionError {
    /// The text is not YAML; holds the reader's message.
    NotYaml(String),
    /// The provider document could not be written; holds the writer's
    /// message.
    Unwritable(String),
    /// A mapping without a `proxies` list; holds its string keys.
    MissingProxies(Vec<String>),
    /// Neither a mapping nor a list.
    UnsupportedShape,
    /// No proxy has both a `name` and a `type`.
    NoUsableProxies,
}

/// A subscription document reduced to its proxies.
#[derive(Debug)]
pub struct NormalizedDocument {
    /// The provider document: a mapping with just `proxies`.
    pub document: Yaml,
    /// How many proxies have a `name` and a `type`.
    pub proxy_count: usize,
}

/// A downloaded subscription reduced to provider text.
#[derive(Debug)]
pub struct NormalizedSubscription {
    /// The provider document as YAML text.
    pub body: String,
    /// How many proxies have a `name` and a `type`.
    pub proxy_count: usize,
}

/// Why a provider cache file could not be used.
#[derive(Debug, Clone, Copy, PartialEq, Eq, Structural)]
pub enum CacheError {
    /// The file is not YAML.
    Unreadable,
    /// The reduced document could not be written.
    Unwritable,
    MissingProxies,
    UnsupportedShape,
    NoUsableProxies,
}

/// The message shown for a missing proxy list.
pub open spec fn missing_proxies_message(keys: Seq<Seq<char>>) -> Seq<char> {
    "订阅 YAML 缺少顶层 proxies 列表，现有字段："@ + if comma_joined(keys).len() == 0 {
        "<none>"@
    } else {
        comma_joined(keys)
    }
}

impl SubscriptionError {
    /// The message shown to the user.
    pub fn message(&self) -> (r: String)
        ensures
            r@ == match self {
                SubscriptionError::NotYaml(_) => "订阅内容不是 Clash YAML；请使用 Clash/Mihomo YAML 订阅或带 target=clash 的转换链接"@,
                SubscriptionError::Unwritable(_) => "serialize normalized provider yaml"@,
                SubscriptionError::MissingProxies(keys) => missing_proxies_message(views_of(keys@)),
                SubscriptionError::UnsupportedShape => "订阅 YAML 格式不支持，必须是包含 proxies 的映射或节点列表"@,
                SubscriptionError::NoUsableProxies => "订阅里没有可识别节点：每个节点至少需要 name 和 type"@,
            },
    {
        match self {
            SubscriptionError::NotYaml(_) => owned(
                "订阅内容不是 Clash YAML；请使用 Clash/Mihomo YAML 订阅或带 target=clash 的转换链接",
            ),
            SubscriptionError::Unwritable(_) => owned("serialize normalized provider yaml"),
            SubscriptionError::MissingProxies(keys) => {
                let joined = join_with_commas(keys);
                let mut r = owned("订阅 YAML 缺少顶层 proxies 列表，现有字段：");
                if joined.as_str().unicode_len() == 0 {
                    push_str(&mut r, "<none>");
                } else {
                    push_str(&mut r, joined.as_str());
                }
                r
            },
            SubscriptionError::UnsupportedShape => owned(
                "订阅 YAML 格式不支持，必须是包含 proxies 的映射或节点列表",
            ),
            SubscriptionError::NoUsableProxies => owned(
                "订阅里没有可识别节点：每个节点至少需要 name 和 type",
            ),
        }
    }
}

impl CacheError {
    /// The message logged for a cache that is skipped.
    pub fn message(&self) -> (r: String)
        ensures
            r@ == match self {
                CacheError::Unreadable => "parse provider cache yaml"@,
                CacheError::Unwritable => "serialize provider cache"@,
                CacheError::MissingProxies => "missing top-level proxies list"@,
                CacheError::UnsupportedShape => "unsupported provider cache yaml shape"@,
                CacheError::NoUsableProxies => "provider cache has no usable proxies"@,
            },
    {
        match self {
            CacheError::Unreadable => owned("parse provider cache yaml"),
            CacheError::Unwritable => owned("serialize provider cache"),
            CacheError::MissingProxies => owned("missing top-level proxies list"),
            CacheError::UnsupportedShape => owned("unsupported provider cache yaml shape"),
            CacheError::NoUsableProxies => owned("provider cache has no usable proxies"),
        }
    }
}

/// The strings joined by `", "`.
pub fn join_with_commas(ks: &Vec<String>) -> (r: String)
    ensures
        r@ == comma_joined(views_of(ks@)),
{
    let mut r = String::new();
    let mut i: usize = 0;
    while i < ks.len()
        invariant
            i <= ks@.len(),
            r@ == comma_joined(views_of(ks@).take(i as int)),
        decreases ks@.len() - i,
    {
        let ghost before = views_of(ks@).take(i as int);
        assert(views_of(ks@).take(i + 1).drop_last() =~= before);
        if i > 0 {
            push_str(&mut r, ", ");
        }
        push_str(&mut r, ks[i].as_str());
        i = i + 1;
        assert(views_of(ks@).take(i as int).last() == ks@[i - 1]@);
        if i == 1 {
            assert(views_of(ks@).take(1) =~= seq![ks@[0]@]);
            assert(r@ =~= ks@[0]@);
        }
    }
    assert(views_of(ks@).take(ks@.len() as int) =~= views_of(ks@));
    r
}

/// The string keys of a mapping, in order.
fn mapping_string_keys(m: &Vec<(Yaml, Yaml)>) -> (r: Vec<String>)
    ensures
        views_of(r@) == string_keys(mapping_view(m@)),
{
    let ghost mv = mapping_view(m@);
    let mut r: Vec<String> = Vec::new();
    let mut i: usize = 0;
    while i < m.len()
        invariant
            i <= m@.len(),
            mv == mapping_view(m@),
            views_of(r@) == string_keys(mv.take(i as int)),
        decreases m@.len() - i,
    {
        assert(mv.take(i + 1).drop_last() =~= mv.take(i as int));
        assert(mv.take(i + 1).last() == mv[i as int]);
        match node_str(&m[i].0) {
            Some(s) => {
                r.push(s.clone());
                assert(views_of(r@) =~= string_keys(mv.take(i as int)).push(s@));
            },
            None => {},
        }
        i = i + 1;
    }
    assert(mv.take(m@.len() as int) =~= mv);
    r
}

/// Whether the entry under `k` is a string.
fn has_str_entry_exec(m: &Vec<(Yaml, Yaml)>, k: &str) -> (r: bool)
    ensures
        r == has_str_entry(mapping_view(m@), k@),
{
    match find_key(m, k) {
        Some(i) => {
            proof {
                lemma_mapping_view(*m);
            }
            node_str(&m[i].1).is_some()
        },
        None => false,
    }
}

/// Whether a proxy has a string `name` and `type`.
fn is_usable_proxy_exec(p: &Yaml) -> (r: bool)
    ensures
        r == is_usable_proxy(p@),
{
    match node_mapping(p) {
        Some(m) => has_str_entry_exec(m, "name") && has_str_entry_exec(m, "type"),
        None => false,
    }
}

/// How many proxies of `l` have a string `name` and `type`.
pub fn count_usable_proxies(l: &Vec<Yaml>) -> (r: usize)
    ensures
        r == usable_count(list_view(l@)),
{
    let ghost lv = list_view(l@);
    let mut count: usize = 0;
    let mut i: usize = 0;
    while i < l.len()
        invariant
            i <= l@.len(),
            lv == list_view(l@),
            count == usable_count(lv.take(i as int)),
            count <= i,
        decreases l@.len() - i,
    {
        assert(lv.take(i + 1).drop_last() =~= lv.take(i as int));
        assert(lv.take(i + 1).last() == l@[i as int]@);
        if is_usable_proxy_exec(&l[i]) {
            count = count + 1;
        }
        i = i + 1;
    }
    assert(lv.take(l@.len() as int) =~= lv);
    count
}

/// Where the proxy list of a document failed to be found.
enum ProxyListFault {
    Missing(Vec<String>),
    Unsupported,
}

/// The proxy list of a document.
fn extract_proxies(doc: &Yaml) -> (r: Result<Vec<Yaml>, ProxyListFault>)
    ensures
        match r {
            Ok(l) => proxies_list(doc@) == Some(list_view(l@)),
            Err(ProxyListFault::Missing(keys)) => doc@ is Mapping && proxies_list(doc@) is None
                && views_of(keys@) == string_keys(doc@->Mapping_0),
            Err(ProxyListFault::Unsupported) => !(doc@ is Mapping) && !(doc@ is List),
        },
{
    match doc {
        Yaml::Mapping(m) => {
            proof {
                lemma_mapping_view(*m);
            }
            match find_key(m, "proxies") {
                Some(i) => match node_list(&m[i].1) {
                    Some(l) => Ok(clone_list(l)),
                    None => Err(ProxyListFault::Missing(mapping_string_keys(m))),
                },
                None => Err(ProxyListFault::Missing(mapping_string_keys(m))),
            }
        },
        Yaml::List(l) => {
            proof {
                lemma_list_view(*l);
            }
            Ok(clone_list(l))
        },
        _ => Err(ProxyListFault::Unsupported),
    }
}

/// The provider document over a proxy list.
fn make_provider_document(l: Vec<Yaml>) -> (r: Yaml)
    ensures
        r@ == provider_document(list_view(l@)),
{
    let mut m: Vec<(Yaml, Yaml)> = Vec::new();
    proof {
        lemma_list_view(l);
    }
    let ghost lv = list_view(l@);
    m.push((Yaml::Str(owned("proxies")), Yaml::List(l)));
    proof {
        lemma_mapping_view(m);
        assert(mapping_view(m@) =~= seq![(YamlView::Str("proxies"@), YamlView::List(lv))]);
    }
    Yaml::Mapping(m)
}

/// Reduces a subscription document to a provider document with only its
/// proxies, and counts the usable ones.
pub fn normalize_subscription_doc(doc: &Yaml) -> (r: Result<NormalizedDocument, SubscriptionError>)
    ensures
        match r {
            Ok(n) => proxies_list(doc@) matches Some(l) && usable_count(l) > 0
                && n.document@ == provider_document(l) && n.proxy_count == usable_count(l),
            Err(SubscriptionError::NotYaml(_)) => false,
            Err(SubscriptionError::Unwritable(_)) => false,
            Err(SubscriptionError::MissingProxies(keys)) => doc@ is Mapping && proxies_list(doc@) is None
                && views_of(keys@) == string_keys(doc@->Mapping_0),
            Err(SubscriptionError::UnsupportedShape) => !(doc@ is Mapping) && !(doc@ is List),
            Err(SubscriptionError::NoUsableProxies) => proxies_list(doc@) matches Some(l)
                && usable_count(l) == 0,
        },
{
    match extract_proxies(doc) {
        Ok(l) => {
            let n = count_usable_proxies(&l);
            if n == 0 {
                Err(SubscriptionError::NoUsableProxies)
            } else {
                Ok(NormalizedDocument { document: make_provider_document(l), proxy_count: n })
            }
        },
        Err(ProxyListFault::Missing(keys)) => Err(SubscriptionError::MissingProxies(keys)),
        Err(ProxyListFault::Unsupported) => Err(SubscriptionError::UnsupportedShape),
    }
}

/// Reduces a cached provider document to one with only its proxies.
pub fn normalize_provider_cache_doc(doc: &Yaml) -> (r: Result<Yaml, CacheError>)
    ensures
        match r {
            Ok(d) => proxies_list(doc@) matches Some(l) && usable_count(l) > 0
                && d@ == provider_document(l),
            Err(CacheError::Unreadable) => false,
            Err(CacheError::Unwritable) => false,
            Err(CacheError::MissingProxies) => doc@ is Mapping && proxies_list(doc@) is None,
            Err(CacheError::UnsupportedShape) => !(doc@ is Mapping) && !(doc@ is List),
            Err(CacheError::NoUsableProxies) => proxies_list(doc@) matches Some(l) && usable_count(l)
                == 0,
        },
{
    match extract_proxies(doc) {
        Ok(l) => {
            if count_usable_proxies(&l) == 0 {
                Err(CacheError::NoUsableProxies)
            } else {
                Ok(make_provider_document(l))
            }
        },
        Err(ProxyListFault::Missing(_)) => Err(CacheError::MissingProxies),
        Err(ProxyListFault::Unsupported) => Err(CacheError::UnsupportedShape),
    }
}

/// Whether a cache file must be rewritten: its text differs from the
/// normalized text apart from surrounding white space.
pub fn cache_needs_rewrite(body: &str, normalized: &str) -> (r: bool)
    ensures
        r == (trimmed(body@) != trimmed(normalized@)),
{
    let a = trim(body);
    let b = trim(normalized);
    !str_eq(a.as_str(), b.as_str())
}

/// Reduces downloaded subscription text to provider text: read as YAML,
/// cut down to its proxies as `normalize_subscription_doc` does, and
/// written out again.
pub fn normalize_subscription(body: &str) -> (r: Result<NormalizedSubscription, SubscriptionError>)
    ensures
        match yaml_read(body@) {
            None => r matches Err(SubscriptionError::NotYaml(_)),
            Some(doc) => match r {
                Ok(n) => proxies_list(doc) matches Some(l) && usable_count(l) > 0
                    && provider_text(l) == Some(n.body@)
                    && n.proxy_count == usable_count(l),
                Err(SubscriptionError::NotYaml(_)) => false,
                Err(SubscriptionError::Unwritable(_)) => proxies_list(doc) matches Some(l)
                    && usable_count(l) > 0 && provider_text(l) is None,
                Err(SubscriptionError::MissingProxies(keys)) => doc is Mapping && proxies_list(doc) is None
                    && views_of(keys@) == string_keys(doc->Mapping_0),
                Err(SubscriptionError::UnsupportedShape) => !(doc is Mapping) && !(doc is List),
                Err(SubscriptionError::NoUsableProxies) => proxies_list(doc) matches Some(l)
                    && usable_count(l) == 0,
            },
        },
{
    let doc = match parse_yaml(body) {
        Ok(d) => d,
        Err(e) => {
            return Err(SubscriptionError::NotYaml(e));
        },
    };
    let n = normalize_subscription_doc(&doc)?;
    match write_yaml(&writable(&n.document)) {
        Ok(t) => Ok(NormalizedSubscription { body: t, proxy_count: n.proxy_count }),
        Err(e) => Err(SubscriptionError::Unwritable(e)),
    }
}

/// The text written for the provider document with proxies `l`, in its
/// writable form (see `writable_view`); nothing when `serde_yaml` refuses.
pub open spec fn provider_text(l: Seq<YamlView>) -> Option<Seq<char>> {
    yaml_written(writable_view(provider_document(l)))
}

/// `o` is what becomes of cache text `body` when the reduced document was
/// written as `written`: that text when it differs from `body` apart from
/// surrounding white space, else nothing.
pub open spec fn rewrite_of(body: Seq<char>, written: Option<Seq<char>>, o: Option<String>) -> bool {
    match written {
        Some(t) => match o {
            Some(s) => s@ == t && trimmed(body) != trimmed(t),
            None => trimmed(body) == trimmed(t),
        },
        None => false,
    }
}

/// Reduces the text of a cached provider file to provider text: the new
/// text when it differs from the old apart from surrounding white space,
/// nothing when the file can stay as it is.
pub fn normalize_provider_cache(body: &str) -> (r: Result<Option<String>, CacheError>)
    ensures
        match yaml_read(body@) {
            None => r == Err::<Option<String>, CacheError>(CacheError::Unreadable),
            Some(doc) => match r {
                Ok(o) => proxies_list(doc) matches Some(l) && usable_count(l) > 0
                    && rewrite_of(body@, provider_text(l), o),
                Err(CacheError::Unreadable) => false,
                Err(CacheError::Unwritable) => proxies_list(doc) matches Some(l) && usable_count(l) > 0
                    && provider_text(l) is None,
                Err(CacheError::MissingProxies) => doc is Mapping && proxies_list(doc) is None,
                Err(CacheError::UnsupportedShape) => !(doc is Mapping) && !(doc is List),
                Err(CacheError::NoUsableProxies) => proxies_list(doc) matches Some(l)
                    && usable_count(l) == 0,
            },
        },
{
    let doc = match parse_yaml(body) {
        Ok(d) => d,
        Err(_) => {
            return Err(CacheError::Unreadable);
        },
    };
    let reduced = normalize_provider_cache_doc(&doc)?;
    match write_yaml(&writable(&reduced)) {
        Ok(t) => if cache_needs_rewrite(body, t.as_str()) {
            Ok(Some(t))
        } else {
            Ok(None)
        },
        Err(_) => Err(CacheError::Unwritable),
    }
}

} // verus!
