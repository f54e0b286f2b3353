//! What commands promise across calls, proved over the models in
//! `executor`.

use vstd::prelude::*;
use crate::commands::executor::{
    backspaced, current_field, cursor_left, cursor_right, next_field, next_tab_of, prev_field,
    prev_tab_of, typed,
};
use crate::commands::executor::{group_size, sort_outcome, ui_outcome};
use crate::commands::Command;
use crate::context::UiView;
use crate::sort::{char_codes, lex_lt, SortKey};
use crate::state::AppState;
use crate::ui::{tab_at, PopupView, Tab};

verus! {

/// Typing a character and then deleting it with backspace gives back the
/// form as it was.
pub proof fn law_type_then_backspace_restores(u: UiView, c: char)
    requires
        u.wf(),
        u.input_cursor < usize::MAX,
    ensures
        backspaced(typed(u, c)) == u,
{
    let f = current_field(u);
    let i = u.input_field_index as int;
    let t = typed(u, c);
    assert(current_field(t) == f.insert(u.input_cursor as int, c));
    assert(f.insert(u.input_cursor as int, c).remove(u.input_cursor as int) =~= f);
    assert(t.input_cursor == u.input_cursor + 1);
    assert(u.input_fields.update(i, f.insert(u.input_cursor as int, c)).update(i, f) =~= u.input_fields);
}

/// Moving to the next field and back returns to the same field, with the
/// cursor at its end.
pub proof fn law_next_then_prev_field(u: UiView)
    requires
        u.wf(),
        u.input_fields.len() <= usize::MAX,
    ensures
        prev_field(next_field(u)).input_field_index == u.input_field_index,
        prev_field(next_field(u)).input_cursor == u.input_fields[u.input_field_index as int].len() as usize,
        prev_field(next_field(u)).input_fields == u.input_fields,
{
    let n = u.input_fields.len() as int;
    let i = u.input_field_index as int;
    let nx = next_field(u);
    if i + 1 < n {
        assert((i + 1) % n == i + 1) by (nonlinear_arith)
            requires
                0 <= i + 1 < n,
        ;
        assert(nx.input_field_index == i + 1);
    } else {
        assert((i + 1) % n == 0) by (nonlinear_arith)
            requires
                i + 1 == n,
                n > 0,
        ;
        assert(nx.input_field_index == 0);
    }
    assert(nx.input_fields == u.input_fields);
}

/// Moving the cursor right and then left comes back, unless it was at the
/// end of the field.
pub proof fn law_right_then_left(u: UiView)
    requires
        u.wf(),
        u.input_cursor < current_field(u).len(),
        u.input_cursor < usize::MAX,
    ensures
        cursor_left(cursor_right(u)) == u,
{
    assert(cursor_right(u).input_cursor == u.input_cursor + 1);
}

/// The next tab and then the previous one gives back the tab.
pub proof fn law_next_then_prev_tab(u: UiView)
    requires
        u.wf(),
    ensures
        prev_tab_of(next_tab_of(u)).current_tab == u.current_tab,
        prev_tab_of(next_tab_of(u)).tab_index == u.tab_index,
        next_tab_of(prev_tab_of(u)).current_tab == u.current_tab,
{
    let i = u.tab_index as nat;
    crate::ui::lemma_tab_index_roundtrip(u.current_tab, i);
    let j = ((i + 1) % 6) as nat;
    crate::ui::lemma_tab_index_roundtrip(tab_at(j), j);
    let k = if i == 0 { 5nat } else { (i - 1) as nat };
    crate::ui::lemma_tab_index_roundtrip(tab_at(k), k);
}

// ---------------------------------------------------------------- sorting

/// After `CycleSort` on the Connections tab the connections are ordered by
/// the bytes each downloaded: never fewer than the one before when the
/// order turned ascending, never more when it turned descending.
pub proof fn law_cycle_sort_orders_connections_by_download(u: UiView, st: AppState, v: UiView, st2: AppState)
    requires
        u.current_tab == Tab::Connections,
        sort_outcome(u, st, v, st2),
    ensures
        v.connection_sort_asc == !u.connection_sort_asc,
        forall|i: int, j: int|
            #![trigger st2.connections@[i], st2.connections@[j]]
            0 <= i < j < st2.connections@.len() ==> if v.connection_sort_asc {
                st2.connections@[i].download <= st2.connections@[j].download
            } else {
                st2.connections@[i].download >= st2.connections@[j].download
            },
{
    reveal_with_fuel(lex_lt, 2);
    let c = st2.connections@;
    assert forall|i: int, j: int| #![trigger c[i], c[j]] 0 <= i < j < c.len() implies if v.connection_sort_asc {
        c[i].download <= c[j].download
    } else {
        c[i].download >= c[j].download
    } by {
        let (ki, kj) = (c[i].sort_key(), c[j].sort_key());
        assert(ki[0] == c[i].download && kj[0] == c[j].download);
        assert(ki.drop_first().len() == 0 && kj.drop_first().len() == 0);
    }
}

/// After `CycleSort` on the Proxies tab the proxies are ordered by their
/// latest measured delay, an untested proxy counting as the largest delay.
pub proof fn law_cycle_sort_orders_proxies_by_delay(u: UiView, st: AppState, v: UiView, st2: AppState)
    requires
        u.current_tab == Tab::Proxies,
        sort_outcome(u, st, v, st2),
    ensures
        v.proxy_sort_asc == !u.proxy_sort_asc,
        forall|i: int, j: int|
            #![trigger st2.proxies@[i], st2.proxies@[j]]
            0 <= i < j < st2.proxies@.len() ==> {
                let di = if st2.proxies@[i].history@.len() > 0 {
                    st2.proxies@[i].history@[0].delay
                } else {
                    u32::MAX
                };
                let dj = if st2.proxies@[j].history@.len() > 0 {
                    st2.proxies@[j].history@[0].delay
                } else {
                    u32::MAX
                };
                if v.proxy_sort_asc {
                    di <= dj
                } else {
                    di >= dj
                }
            },
{
    reveal_with_fuel(lex_lt, 2);
    let c = st2.proxies@;
    assert forall|i: int, j: int| #![trigger c[i], c[j]] 0 <= i < j < c.len() implies {
        let di = if c[i].history@.len() > 0 { c[i].history@[0].delay } else { u32::MAX };
        let dj = if c[j].history@.len() > 0 { c[j].history@[0].delay } else { u32::MAX };
        if v.proxy_sort_asc {
            di <= dj
        } else {
            di >= dj
        }
    } by {
        let (ki, kj) = (c[i].sort_key(), c[j].sort_key());
        assert(ki.drop_first().len() == 0 && kj.drop_first().len() == 0);
    }
}

/// After `CycleSort` on the Subscriptions tab the subscriptions are
/// ordered by name, character by character: no name comes before the
/// name ahead of it (ascending), or after it (descending).
pub proof fn law_cycle_sort_orders_providers_by_name(u: UiView, st: AppState, v: UiView, st2: AppState)
    requires
        u.current_tab == Tab::Providers,
        sort_outcome(u, st, v, st2),
    ensures
        v.provider_sort_asc == !u.provider_sort_asc,
        forall|i: int, j: int|
            #![trigger st2.providers@[i], st2.providers@[j]]
            0 <= i < j < st2.providers@.len() ==> if v.provider_sort_asc {
                !lex_lt(char_codes(st2.providers@[j].name@), char_codes(st2.providers@[i].name@))
            } else {
                !lex_lt(char_codes(st2.providers@[i].name@), char_codes(st2.providers@[j].name@))
            },
{
    let c = st2.providers@;
    assert forall|i: int, j: int| #![trigger c[i], c[j]] 0 <= i < j < c.len() implies if v.provider_sort_asc {
        !lex_lt(char_codes(c[j].name@), char_codes(c[i].name@))
    } else {
        !lex_lt(char_codes(c[i].name@), char_codes(c[j].name@))
    } by {
        let (ki, kj) = (c[i].sort_key(), c[j].sort_key());
    }
}

/// After `CycleSort` on the Rules tab the rules are ordered by their type,
/// character by character.
pub proof fn law_cycle_sort_orders_rules_by_type(u: UiView, st: AppState, v: UiView, st2: AppState)
    requires
        u.current_tab == Tab::Rules,
        sort_outcome(u, st, v, st2),
    ensures
        v.rule_sort_asc == !u.rule_sort_asc,
        forall|i: int, j: int|
            #![trigger st2.rules@[i], st2.rules@[j]]
            0 <= i < j < st2.rules@.len() ==> if v.rule_sort_asc {
                !lex_lt(char_codes(st2.rules@[j].rule_type@), char_codes(st2.rules@[i].rule_type@))
            } else {
                !lex_lt(char_codes(st2.rules@[i].rule_type@), char_codes(st2.rules@[j].rule_type@))
            },
{
    let c = st2.rules@;
    assert forall|i: int, j: int| #![trigger c[i], c[j]] 0 <= i < j < c.len() implies if v.rule_sort_asc {
        !lex_lt(char_codes(c[j].rule_type@), char_codes(c[i].rule_type@))
    } else {
        !lex_lt(char_codes(c[i].rule_type@), char_codes(c[j].rule_type@))
    } by {
        let (ki, kj) = (c[i].sort_key(), c[j].sort_key());
    }
}

// ---------------------------------------------------------------- moving in lists

/// `MoveDown` with no node picker open selects the next row of the current
/// tab's list, and stays on the last row; the Overview tab has no list.
pub proof fn law_move_down_selects_next_row(u: UiView, st: AppState, v: UiView)
    requires
        ui_outcome(Command::MoveDown, u, st, v),
        !(u.popup is ProxyNodes),
    ensures
        u.current_tab == Tab::Proxies ==> v.proxy_selected == if u.proxy_selected + 1 < st.proxies@.len() {
            u.proxy_selected + 1
        } else {
            u.proxy_selected as int
        },
        u.current_tab == Tab::Providers ==> v.provider_selected == if u.provider_selected + 1
            < st.providers@.len() {
            u.provider_selected + 1
        } else {
            u.provider_selected as int
        },
        u.current_tab == Tab::Connections ==> v.connection_selected == if u.connection_selected + 1
            < st.connections@.len() {
            u.connection_selected + 1
        } else {
            u.connection_selected as int
        },
        u.current_tab == Tab::Rules ==> v.rule_selected == if u.rule_selected + 1 < st.rules@.len() {
            u.rule_selected + 1
        } else {
            u.rule_selected as int
        },
        u.current_tab == Tab::Logs ==> v.log_scroll == if u.log_scroll + 1 < st.logs@.len() {
            u.log_scroll + 1
        } else {
            u.log_scroll as int
        },
        u.current_tab == Tab::Overview ==> v == u,
        v.current_tab == u.current_tab && v.popup == u.popup,
{
    assert(st.proxies.len() == st.proxies@.len());
    assert(st.providers.len() == st.providers@.len());
    assert(st.connections.len() == st.connections@.len());
    assert(st.rules.len() == st.rules@.len());
    assert(st.logs.len() == st.logs@.len());
}

/// `MoveDown` in the node picker selects the next member of the group, and
/// stays on the last one.
pub proof fn law_move_down_in_node_picker(u: UiView, st: AppState, v: UiView, name: Seq<char>, sel: usize)
    requires
        ui_outcome(Command::MoveDown, u, st, v),
        u.popup == (PopupView::ProxyNodes { proxy_name: name, selected: sel }),
    ensures
        v.popup == (PopupView::ProxyNodes {
            proxy_name: name,
            selected: if sel + 1 < group_size(st, name) {
                (sel + 1) as usize
            } else {
                sel
            },
        }),
{
    if let Some(i) = crate::state::first_key_index(st.all_proxies@, name) {
        if let Some(a) = st.all_proxies@[i].1.all {
            assert(a.len() == a@.len());
        }
    }
}

/// `MoveUp` with no node picker open selects the previous row of the
/// current tab's list, and stays on the first row.
pub proof fn law_move_up_selects_previous_row(u: UiView, st: AppState, v: UiView)
    requires
        ui_outcome(Command::MoveUp, u, st, v),
        !(u.popup is ProxyNodes),
    ensures
        u.current_tab == Tab::Proxies ==> v.proxy_selected == if u.proxy_selected > 0 {
            u.proxy_selected - 1
        } else {
            0
        },
        u.current_tab == Tab::Providers ==> v.provider_selected == if u.provider_selected > 0 {
            u.provider_selected - 1
        } else {
            0
        },
        u.current_tab == Tab::Connections ==> v.connection_selected == if u.connection_selected > 0 {
            u.connection_selected - 1
        } else {
            0
        },
        u.current_tab == Tab::Rules ==> v.rule_selected == if u.rule_selected > 0 {
            u.rule_selected - 1
        } else {
            0
        },
        u.current_tab == Tab::Logs ==> v.log_scroll == if u.log_scroll > 0 {
            u.log_scroll - 1
        } else {
            0
        },
        u.current_tab == Tab::Overview ==> v == u,
        v.current_tab == u.current_tab && v.popup == u.popup,
{
}

/// `MoveUp` in the node picker selects the previous member, and stays on
/// the first one.
pub proof fn law_move_up_in_node_picker(u: UiView, st: AppState, v: UiView, name: Seq<char>, sel: usize)
    requires
        ui_outcome(Command::MoveUp, u, st, v),
        u.popup == (PopupView::ProxyNodes { proxy_name: name, selected: sel }),
    ensures
        v.popup == (PopupView::ProxyNodes {
            proxy_name: name,
            selected: if sel > 0 {
                (sel - 1) as usize
            } else {
                0
            },
        }),
{
}

/// `Home` selects the first row and `End` the last row of the current
/// tab's list (the first when it is empty).
pub proof fn law_home_and_end_select_first_and_last_rows(u: UiView, st: AppState, h: UiView, e: UiView)
    requires
        ui_outcome(Command::Home, u, st, h),
        ui_outcome(Command::End, u, st, e),
        !(u.popup is ProxyNodes),
    ensures
        u.current_tab == Tab::Proxies ==> h.proxy_selected == 0 && e.proxy_selected == if st.proxies@.len()
            > 0 {
            st.proxies@.len() - 1
        } else {
            0
        },
        u.current_tab == Tab::Providers ==> h.provider_selected == 0 && e.provider_selected == if st.providers@.len()
            > 0 {
            st.providers@.len() - 1
        } else {
            0
        },
        u.current_tab == Tab::Connections ==> h.connection_selected == 0 && e.connection_selected
            == if st.connections@.len() > 0 {
            st.connections@.len() - 1
        } else {
            0
        },
        u.current_tab == Tab::Rules ==> h.rule_selected == 0 && e.rule_selected == if st.rules@.len() > 0 {
            st.rules@.len() - 1
        } else {
            0
        },
        u.current_tab == Tab::Logs ==> h.log_scroll == 0 && e.log_scroll == if st.logs@.len() > 0 {
            st.logs@.len() - 1
        } else {
            0
        },
{
    assert(st.proxies.len() == st.proxies@.len());
    assert(st.providers.len() == st.providers@.len());
    assert(st.connections.len() == st.connections@.len());
    assert(st.rules.len() == st.rules@.len());
    assert(st.logs.len() == st.logs@.len());
}

/// `PageDown` on the Logs tab scrolls ten lines down, stopping at the last
/// line, and `PageUp` ten lines up, stopping at the first.
pub proof fn law_page_down_and_up_move_ten_lines(u: UiView, st: AppState, d: UiView, p: UiView)
    requires
        u.current_tab == Tab::Logs,
        ui_outcome(Command::PageDown, u, st, d),
        ui_outcome(Command::PageUp, u, st, p),
    ensures
        d.log_scroll == if u.log_scroll + 10 < st.logs@.len() {
            u.log_scroll + 10
        } else if st.logs@.len() > 0 {
            st.logs@.len() - 1
        } else {
            0
        },
        p.log_scroll == if u.log_scroll >= 10 {
            u.log_scroll - 10
        } else {
            0
        },
{
    assert(st.proxies.len() == st.proxies@.len());
    assert(st.providers.len() == st.providers@.len());
    assert(st.connections.len() == st.connections@.len());
    assert(st.rules.len() == st.rules@.len());
    assert(st.logs.len() == st.logs@.len());
}

} // verus!
