//! What the screens show, as text and positions: which rows of a list
//! are in view, and how addresses are labelled.

use vstd::prelude::*;
use crate::state::Config;
use crate::text::{owned, push_str, str_eq, strip_prefix, trim, trimmed};

verus! {

/// The first row shown of a list of `total` rows in a window of
/// `visible` rows, keeping the selected row near the middle.
pub open spec fn first_visible(selected: nat, visible: nat, total: nat) -> nat {
    if visible == 0 || total <= visible {
        0
    } else {
        let want = if selected >= visible / 2 {
            (selected - visible / 2) as nat
        } else {
            0
        };
        let last = (total - visible) as nat;
        if want < last {
            want
        } else {
            last
        }
    }
}

/// The first row shown of a list (see `first_visible`).
pub fn visible_start(selected: usize, visible_rows: usize, total_rows: usize) -> (r: usize)
    ensures
        r == first_visible(selected as nat, visible_rows as nat, total_rows as nat),
{
    if visible_rows == 0 || total_rows <= visible_rows {
        return 0;
    }
    let half_page = visible_rows / 2;
    let want = if selected >= half_page {
        selected - half_page
    } else {
        0
    };
    let last = total_rows - visible_rows;
    if want < last {
        want
    } else {
        last
    }
}

/// The selected row is always in view when the list fits its window or
/// the selection is within the list.
pub proof fn law_selection_in_view(selected: nat, visible: nat, total: nat)
    requires
        visible > 0,
        selected < total,
    ensures
        first_visible(selected, visible, total) <= selected,
        selected < first_visible(selected, visible, total) + visible,
        first_visible(selected, visible, total) + visible <= total || total <= visible,
{
}

/// The host that local proxies are reached at: the bind address when LAN
/// access is on and it names one host, else `127.0.0.1`.
pub open spec fn proxy_host_of(allow_lan: bool, bind: Seq<char>) -> Seq<char> {
    let b = trimmed(bind);
    if allow_lan && b.len() > 0 && b != "*"@ && b != "0.0.0.0"@ {
        b
    } else {
        "127.0.0.1"@
    }
}

/// The host that local proxies are reached at.
pub fn proxy_host(config: &Config) -> (r: String)
    ensures
        r@ == proxy_host_of(config.allow_lan, config.bind_address@),
{
    if config.allow_lan {
        let bind = trim(config.bind_address.as_str());
        if bind.as_str().unicode_len() > 0 && !str_eq(bind.as_str(), "*") && !str_eq(bind.as_str(), "0.0.0.0") {
            bind
        } else {
            owned("127.0.0.1")
        }
    } else {
        owned("127.0.0.1")
    }
}

/// The bind address label: `bind=` and the address, nothing when unset.
pub fn bind_label(bind_address: &str) -> (r: String)
    ensures
        r@ == if trimmed(bind_address@).len() == 0 {
            Seq::empty()
        } else {
            "bind="@ + trimmed(bind_address@)
        },
{
    let bind = trim(bind_address);
    if bind.as_str().unicode_len() == 0 {
        String::new()
    } else {
        let mut r = owned("bind=");
        push_str(&mut r, bind.as_str());
        r
    }
}

/// An address without its `http://` or `https://` scheme.
pub open spec fn without_scheme(url: Seq<char>) -> Seq<char> {
    if url.len() >= 7 && url.subrange(0, 7) == "http://"@ {
        url.subrange(7, url.len() as int)
    } else if url.len() >= 8 && url.subrange(0, 8) == "https://"@ {
        url.subrange(8, url.len() as int)
    } else {
        url
    }
}

/// The control API's address without its scheme.
pub fn api_addr(api_url: &str) -> (r: String)
    ensures
        r@ == without_scheme(api_url@),
{
    proof {
        reveal_strlit("http://");
        reveal_strlit("https://");
    }
    match strip_prefix(api_url, "http://") {
        Some(rest) => rest,
        None => match strip_prefix(api_url, "https://") {
            Some(rest) => rest,
            None => owned(api_url),
        },
    }
}

} // verus!
