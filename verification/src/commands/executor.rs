//! What each command does to the dashboard state.

use vstd::prelude::*;
use crate::commands::Command;
use crate::context::{blank_form, blank_form_fields, AppContext, UiState, UiView};
use crate::sort::{same_per_key, sorted_by_key, stable_sort};
use crate::state::{first_key_index, find_proxy_entry, AppState};
use crate::text::{opt_view, owned, push_char, push_str, views_of};
use crate::ui::{lemma_tab_index_roundtrip, tab_at, tab_index_of, Popup, PopupView, Tab};

verus! {

// ------------------------------------------------------------ the model

/// One less, but not below zero.
pub open spec fn dec(x: usize) -> usize {
    if x > 0 {
        (x - 1) as usize
    } else {
        0
    }
}

/// Index of the last of `len` items, or zero when there are none.
pub open spec fn last_index(len: nat) -> usize {
    if len > 0 {
        (len - 1) as usize
    } else {
        0
    }
}

/// Number of members of the group `name` among all proxies.
pub open spec fn group_size(st: AppState, name: Seq<char>) -> nat {
    match first_key_index(st.all_proxies@, name) {
        Some(i) => match st.all_proxies@[i].1.all {
            Some(a) => a@.len(),
            None => 0,
        },
        None => 0,
    }
}

/// The interface with the proxy-nodes popup moved to `selected`.
pub open spec fn with_node(u: UiView, name: Seq<char>, selected: usize) -> UiView {
    UiView { popup: PopupView::ProxyNodes { proxy_name: name, selected }, ..u }
}

/// `MoveUp`: one row up in the popup or the current list.
pub open spec fn moved_up(u: UiView) -> UiView {
    match u.popup {
        PopupView::ProxyNodes { proxy_name, selected } => if selected > 0 {
            with_node(u, proxy_name, (selected - 1) as usize)
        } else {
            u
        },
        _ => match u.current_tab {
            Tab::Proxies => UiView { proxy_selected: dec(u.proxy_selected), ..u },
            Tab::Providers => UiView { provider_selected: dec(u.provider_selected), ..u },
            Tab::Connections => UiView { connection_selected: dec(u.connection_selected), ..u },
            Tab::Rules => UiView { rule_selected: dec(u.rule_selected), ..u },
            Tab::Logs => UiView { log_scroll: dec(u.log_scroll), ..u },
            Tab::Overview => u,
        },
    }
}

/// `MoveDown`: one row down in the popup or the current list, stopping at
/// the last row.
pub open spec fn moved_down(u: UiView, st: AppState) -> UiView {
    match u.popup {
        PopupView::ProxyNodes { proxy_name, selected } => if selected < last_index(
            group_size(st, proxy_name),
        ) {
            with_node(u, proxy_name, (selected + 1) as usize)
        } else {
            u
        },
        _ => match u.current_tab {
            Tab::Proxies => if u.proxy_selected < last_index(st.proxies@.len()) {
                UiView { proxy_selected: (u.proxy_selected + 1) as usize, ..u }
            } else {
                u
            },
            Tab::Providers => if u.provider_selected < last_index(st.providers@.len()) {
                UiView { provider_selected: (u.provider_selected + 1) as usize, ..u }
            } else {
                u
            },
            Tab::Connections => if u.connection_selected < last_index(st.connections@.len()) {
                UiView { connection_selected: (u.connection_selected + 1) as usize, ..u }
            } else {
                u
            },
            Tab::Rules => if u.rule_selected < last_index(st.rules@.len()) {
                UiView { rule_selected: (u.rule_selected + 1) as usize, ..u }
            } else {
                u
            },
            Tab::Logs => if u.log_scroll < last_index(st.logs@.len()) {
                UiView { log_scroll: (u.log_scroll + 1) as usize, ..u }
            } else {
                u
            },
            Tab::Overview => u,
        },
    }
}

/// `PageUp`: ten lines up in the logs.
pub open spec fn paged_up(u: UiView) -> UiView {
    if u.current_tab == Tab::Logs {
        UiView { log_scroll: if u.log_scroll >= 10 { (u.log_scroll - 10) as usize } else { 0 }, ..u }
    } else {
        u
    }
}

/// `PageDown`: ten lines down in the logs, stopping at the last line.
pub open spec fn paged_down(u: UiView, st: AppState) -> UiView {
    if u.current_tab == Tab::Logs {
        let max = last_index(st.logs@.len());
        UiView {
            log_scroll: if u.log_scroll + 10 <= max { (u.log_scroll + 10) as usize } else { max },
            ..u
        }
    } else {
        u
    }
}

/// `Home`: first row of the popup or the current list.
pub open spec fn went_home(u: UiView) -> UiView {
    match u.popup {
        PopupView::ProxyNodes { proxy_name, selected } => with_node(u, proxy_name, 0),
        _ => match u.current_tab {
            Tab::Proxies => UiView { proxy_selected: 0, ..u },
            Tab::Providers => UiView { provider_selected: 0, ..u },
            Tab::Connections => UiView { connection_selected: 0, ..u },
            Tab::Rules => UiView { rule_selected: 0, ..u },
            Tab::Logs => UiView { log_scroll: 0, ..u },
            Tab::Overview => u,
        },
    }
}

/// `End`: last row of the popup or the current list.
pub open spec fn went_end(u: UiView, st: AppState) -> UiView {
    match u.popup {
        PopupView::ProxyNodes { proxy_name, selected } => with_node(
            u,
            proxy_name,
            last_index(group_size(st, proxy_name)),
        ),
        _ => match u.current_tab {
            Tab::Proxies => UiView { proxy_selected: last_index(st.proxies@.len()), ..u },
            Tab::Providers => UiView { provider_selected: last_index(st.providers@.len()), ..u },
            Tab::Connections => UiView {
                connection_selected: last_index(st.connections@.len()),
                ..u
            },
            Tab::Rules => UiView { rule_selected: last_index(st.rules@.len()), ..u },
            Tab::Logs => UiView { log_scroll: last_index(st.logs@.len()), ..u },
            Tab::Overview => u,
        },
    }
}

/// Showing tab `t` closes any popup and clears the search.
pub open spec fn switched_to(u: UiView, t: Tab) -> UiView {
    UiView {
        current_tab: t,
        tab_index: tab_index_of(t) as usize,
        popup: PopupView::Hidden,
        search_query: Seq::empty(),
        ..u
    }
}

/// `NextTab`: the following tab, wrapping around.
pub open spec fn next_tab_of(u: UiView) -> UiView {
    switched_to(u, tab_at(((u.tab_index + 1) % 6) as nat))
}

/// `PrevTab`: the preceding tab, wrapping around.
pub open spec fn prev_tab_of(u: UiView) -> UiView {
    switched_to(u, tab_at(if u.tab_index == 0 { 5 } else { (u.tab_index - 1) as nat }))
}

/// The field under edit.
pub open spec fn current_field(u: UiView) -> Seq<char> {
    u.input_fields[u.input_field_index as int]
}

/// The interface with the field under edit replaced and the cursor moved.
pub open spec fn edited(u: UiView, field: Seq<char>, cursor: usize) -> UiView {
    UiView {
        input_fields: u.input_fields.update(u.input_field_index as int, field),
        input_cursor: cursor,
        ..u
    }
}

/// `FormChar(c)`: `c` is inserted at the cursor, which moves past it.
pub open spec fn typed(u: UiView, c: char) -> UiView {
    edited(u, current_field(u).insert(u.input_cursor as int, c), (u.input_cursor + 1) as usize)
}

/// `FormBackspace`: the character before the cursor is removed.
pub open spec fn backspaced(u: UiView) -> UiView {
    if u.input_cursor > 0 {
        edited(
            u,
            current_field(u).remove(u.input_cursor - 1),
            (u.input_cursor - 1) as usize,
        )
    } else {
        u
    }
}

/// `FormDelete`: the character under the cursor is removed.
pub open spec fn deleted(u: UiView) -> UiView {
    if u.input_cursor < current_field(u).len() {
        edited(u, current_field(u).remove(u.input_cursor as int), u.input_cursor)
    } else {
        u
    }
}

/// `FormLeft`.
pub open spec fn cursor_left(u: UiView) -> UiView {
    UiView { input_cursor: dec(u.input_cursor), ..u }
}

/// `FormRight`.
pub open spec fn cursor_right(u: UiView) -> UiView {
    if u.input_cursor < current_field(u).len() {
        UiView { input_cursor: (u.input_cursor + 1) as usize, ..u }
    } else {
        u
    }
}

/// Moving to field `i` puts the cursor at its end.
pub open spec fn at_field(u: UiView, i: usize) -> UiView {
    UiView { input_field_index: i, input_cursor: u.input_fields[i as int].len() as usize, ..u }
}

/// `FormNextField`, wrapping around.
pub open spec fn next_field(u: UiView) -> UiView {
    at_field(u, ((u.input_field_index + 1) % (u.input_fields.len() as int)) as usize)
}

/// `FormPrevField`, wrapping around.
pub open spec fn prev_field(u: UiView) -> UiView {
    at_field(
        u,
        if u.input_field_index == 0 {
            (u.input_fields.len() - 1) as usize
        } else {
            (u.input_field_index - 1) as usize
        },
    )
}

/// The form emptied, its first field under edit.
pub open spec fn form_reset(u: UiView) -> UiView {
    UiView { input_fields: blank_form(), input_field_index: 0, input_cursor: 0, ..u }
}

/// The log view back at its first line.
pub open spec fn scrolled_to_top(u: UiView) -> UiView {
    UiView { log_scroll: 0, ..u }
}

/// `Cancel`: the popup closes and the form is emptied.
pub open spec fn cancelled(u: UiView) -> UiView {
    UiView {
        popup: PopupView::Hidden,
        input_fields: blank_form(),
        input_field_index: 0,
        input_cursor: 0,
        ..u
    }
}

/// `ProviderAdd`: an empty form opens for a new subscription.
pub open spec fn add_form_opened(u: UiView) -> UiView {
    UiView {
        popup: PopupView::AddProvider,
        input_fields: blank_form(),
        input_field_index: 0,
        input_cursor: 0,
        error_message: None,
        success_message: None,
        ..u
    }
}

/// `ProviderEdit`: the form opens on the selected subscription's name, with
/// the URL field focused.
pub open spec fn edit_form_opened(u: UiView, st: AppState) -> UiView {
    if u.provider_selected < st.providers@.len() {
        UiView {
            popup: PopupView::EditProvider,
            input_fields: blank_form().update(
                0,
                st.providers@[u.provider_selected as int].name@,
            ),
            input_field_index: 1,
            input_cursor: 0,
            error_message: None,
            success_message: None,
            ..u
        }
    } else {
        u
    }
}

/// `ProviderDelete`: confirmation is asked when a subscription is selected.
pub open spec fn delete_asked(u: UiView, st: AppState) -> UiView {
    if u.provider_selected < st.providers@.len() {
        UiView {
            popup: PopupView::DeleteConfirm,
            error_message: None,
            success_message: None,
            ..u
        }
    } else {
        u
    }
}

/// `ProviderToggleExpand`.
pub open spec fn expand_toggled(u: UiView) -> UiView {
    if u.provider_selected < u.provider_expanded.len() {
        UiView {
            provider_expanded: u.provider_expanded.update(
                u.provider_selected as int,
                !u.provider_expanded[u.provider_selected as int],
            ),
            ..u
        }
    } else {
        u
    }
}

/// Message shown after `ToggleAutoUpdate`.
pub open spec fn auto_update_message(on: bool) -> Seq<char> {
    if on {
        "自动更新已开启"@
    } else {
        "自动更新已关闭"@
    }
}

/// `ToggleAutoUpdate`.
pub open spec fn auto_update_toggled(u: UiView) -> UiView {
    UiView {
        auto_update: !u.auto_update,
        success_message: Some(auto_update_message(!u.auto_update)),
        ..u
    }
}

/// Node preselected when the node popup of a group opens: the group's
/// current node, else the first.
pub open spec fn preselected_node(all: Seq<Seq<char>>, now: Option<Seq<char>>) -> usize {
    match now {
        Some(n) => match crate::text::first_index_of(all, n) {
            Some(i) => i as usize,
            None => 0,
        },
        None => 0,
    }
}

/// The members of a group, as names.
pub open spec fn members_of(all: Option<Vec<String>>) -> Seq<Seq<char>> {
    match all {
        Some(a) => views_of(a@),
        None => Seq::empty(),
    }
}

/// `ProxySelect`: the node popup opens for the selected group.
pub open spec fn nodes_opened(u: UiView, st: AppState) -> UiView {
    if u.proxy_selected < st.proxies@.len() {
        let p = st.proxies@[u.proxy_selected as int];
        with_node(u, p.name@, preselected_node(members_of(p.all), opt_view(p.now)))
    } else {
        u
    }
}

/// `ToggleSearch`.
pub open spec fn search_started(u: UiView) -> UiView {
    UiView { search_active: true, search_query: Seq::empty(), ..u }
}

/// `SearchChar(c)`.
pub open spec fn search_typed(u: UiView, c: char) -> UiView {
    UiView { search_query: u.search_query.push(c), ..u }
}

/// `SearchBackspace`.
pub open spec fn search_backspaced(u: UiView) -> UiView {
    if u.search_query.len() > 0 {
        UiView { search_query: u.search_query.drop_last(), ..u }
    } else {
        u
    }
}

/// `SearchCancel`.
pub open spec fn search_cleared(u: UiView) -> UiView {
    UiView { search_query: Seq::empty(), ..u }
}

/// Work a command leaves to the caller.
#[derive(Debug)]
pub enum CommandEffect {
    /// Nothing to do.
    Nothing,
    /// Close the connection with this id.
    CloseConnection(String),
    /// Close every connection.
    CloseAllConnections,
    /// Fill the edit form from the stored settings of this subscription.
    LoadProviderForm(String),
}

/// The dashboard apart from its interface state is left as it was.
pub open spec fn only_ui_changed(old: &AppContext, new: &AppContext) -> bool {
    &&& new.state == old.state
    &&& new.config_manager == old.config_manager
    &&& new.running == old.running
    &&& new.connected == old.connected
}

// ------------------------------------------------------------ the code

fn move_up(ctx: &mut AppContext)
    requires
        old(ctx).ui@.wf(),
    ensures
        old(ctx).ui@.wf() ==> final(ctx).ui@.wf(),
        final(ctx).ui@ == moved_up(old(ctx).ui@),
        only_ui_changed(old(ctx), final(ctx)),
{
    if let Popup::ProxyNodes { proxy_name, selected } = &ctx.ui.popup {
        let name = proxy_name.clone();
        let s = *selected;
        if s > 0 {
            ctx.ui.popup = Popup::ProxyNodes { proxy_name: name, selected: s - 1 };
        }
        return ;
    }
    match ctx.ui.current_tab {
        Tab::Proxies => {
            if ctx.ui.proxy_selected > 0 {
                ctx.ui.proxy_selected = ctx.ui.proxy_selected - 1;
            }
        },
        Tab::Providers => {
            if ctx.ui.provider_selected > 0 {
                ctx.ui.provider_selected = ctx.ui.provider_selected - 1;
            }
        },
        Tab::Connections => {
            if ctx.ui.connection_selected > 0 {
                ctx.ui.connection_selected = ctx.ui.connection_selected - 1;
            }
        },
        Tab::Rules => {
            if ctx.ui.rule_selected > 0 {
                ctx.ui.rule_selected = ctx.ui.rule_selected - 1;
            }
        },
        Tab::Logs => {
            if ctx.ui.log_scroll > 0 {
                ctx.ui.log_scroll = ctx.ui.log_scroll - 1;
            }
        },
        Tab::Overview => {},
    }
}

/// Number of members of the group `name`.
fn group_len(st: &AppState, name: &str) -> (r: usize)
    ensures
        r as nat == group_size(*st, name@),
{
    match find_proxy_entry(&st.all_proxies, name) {
        Some(i) => match &st.all_proxies[i].1.all {
            Some(a) => a.len(),
            None => 0,
        },
        None => 0,
    }
}

fn last_of(len: usize) -> (r: usize)
    ensures
        r == last_index(len as nat),
{
    if len > 0 {
        len - 1
    } else {
        0
    }
}

fn move_down(ctx: &mut AppContext)
    requires
        old(ctx).ui@.wf(),
    ensures
        old(ctx).ui@.wf() ==> final(ctx).ui@.wf(),
        final(ctx).ui@ == moved_down(old(ctx).ui@, old(ctx).state),
        only_ui_changed(old(ctx), final(ctx)),
{
    if let Popup::ProxyNodes { proxy_name, selected } = &ctx.ui.popup {
        let name = proxy_name.clone();
        let s = *selected;
        let max = last_of(group_len(&ctx.state, name.as_str()));
        if s < max {
            ctx.ui.popup = Popup::ProxyNodes { proxy_name: name, selected: s + 1 };
        }
        return ;
    }
    match ctx.ui.current_tab {
        Tab::Proxies => {
            if ctx.ui.proxy_selected < last_of(ctx.state.proxies.len()) {
                ctx.ui.proxy_selected = ctx.ui.proxy_selected + 1;
            }
        },
        Tab::Providers => {
            if ctx.ui.provider_selected < last_of(ctx.state.providers.len()) {
                ctx.ui.provider_selected = ctx.ui.provider_selected + 1;
            }
        },
        Tab::Connections => {
            if ctx.ui.connection_selected < last_of(ctx.state.connections.len()) {
                ctx.ui.connection_selected = ctx.ui.connection_selected + 1;
            }
        },
        Tab::Rules => {
            if ctx.ui.rule_selected < last_of(ctx.state.rules.len()) {
                ctx.ui.rule_selected = ctx.ui.rule_selected + 1;
            }
        },
        Tab::Logs => {
            if ctx.ui.log_scroll < last_of(ctx.state.logs.len()) {
                ctx.ui.log_scroll = ctx.ui.log_scroll + 1;
            }
        },
        Tab::Overview => {},
    }
}

fn page_up(ctx: &mut AppContext)
    ensures
        old(ctx).ui@.wf() ==> final(ctx).ui@.wf(),
        final(ctx).ui@ == paged_up(old(ctx).ui@),
        only_ui_changed(old(ctx), final(ctx)),
{
    if ctx.ui.current_tab == Tab::Logs {
        ctx.ui.log_scroll = if ctx.ui.log_scroll >= 10 {
            ctx.ui.log_scroll - 10
        } else {
            0
        };
    }
}

fn page_down(ctx: &mut AppContext)
    requires
        old(ctx).ui.log_scroll + 10 <= usize::MAX,
    ensures
        old(ctx).ui@.wf() ==> final(ctx).ui@.wf(),
        final(ctx).ui@ == paged_down(old(ctx).ui@, old(ctx).state),
        only_ui_changed(old(ctx), final(ctx)),
{
    if ctx.ui.current_tab == Tab::Logs {
        let max = last_of(ctx.state.logs.len());
        let next = ctx.ui.log_scroll + 10;
        ctx.ui.log_scroll = if next <= max {
            next
        } else {
            max
        };
    }
}

fn home(ctx: &mut AppContext)
    ensures
        old(ctx).ui@.wf() ==> final(ctx).ui@.wf(),
        final(ctx).ui@ == went_home(old(ctx).ui@),
        only_ui_changed(old(ctx), final(ctx)),
{
    if let Popup::ProxyNodes { proxy_name, selected } = &ctx.ui.popup {
        let name = proxy_name.clone();
        ctx.ui.popup = Popup::ProxyNodes { proxy_name: name, selected: 0 };
        return ;
    }
    match ctx.ui.current_tab {
        Tab::Proxies => ctx.ui.proxy_selected = 0,
        Tab::Providers => ctx.ui.provider_selected = 0,
        Tab::Connections => ctx.ui.connection_selected = 0,
        Tab::Rules => ctx.ui.rule_selected = 0,
        Tab::Logs => ctx.ui.log_scroll = 0,
        Tab::Overview => {},
    }
}

fn end(ctx: &mut AppContext)
    ensures
        old(ctx).ui@.wf() ==> final(ctx).ui@.wf(),
        final(ctx).ui@ == went_end(old(ctx).ui@, old(ctx).state),
        only_ui_changed(old(ctx), final(ctx)),
{
    if let Popup::ProxyNodes { proxy_name, selected } = &ctx.ui.popup {
        let name = proxy_name.clone();
        let max = last_of(group_len(&ctx.state, name.as_str()));
        ctx.ui.popup = Popup::ProxyNodes { proxy_name: name, selected: max };
        return ;
    }
    match ctx.ui.current_tab {
        Tab::Proxies => ctx.ui.proxy_selected = last_of(ctx.state.proxies.len()),
        Tab::Providers => ctx.ui.provider_selected = last_of(ctx.state.providers.len()),
        Tab::Connections => ctx.ui.connection_selected = last_of(ctx.state.connections.len()),
        Tab::Rules => ctx.ui.rule_selected = last_of(ctx.state.rules.len()),
        Tab::Logs => ctx.ui.log_scroll = last_of(ctx.state.logs.len()),
        Tab::Overview => {},
    }
}

fn switch_tab(ctx: &mut AppContext, tab: Tab)
    ensures
        old(ctx).ui@.wf() ==> final(ctx).ui@.wf(),
        final(ctx).ui@ == switched_to(old(ctx).ui@, tab),
        only_ui_changed(old(ctx), final(ctx)),
{
    proof {
        lemma_tab_index_roundtrip(tab, 0);
    }
    ctx.ui.current_tab = tab;
    ctx.ui.tab_index = tab.index();
    ctx.ui.popup = Popup::Hidden;
    ctx.ui.search_query = String::new();
}

fn next_tab(ctx: &mut AppContext)
    requires
        old(ctx).ui@.wf(),
    ensures
        old(ctx).ui@.wf() ==> final(ctx).ui@.wf(),
        final(ctx).ui@ == next_tab_of(old(ctx).ui@),
        only_ui_changed(old(ctx), final(ctx)),
{
    let i = (ctx.ui.tab_index + 1) % 6;
    let t = Tab::from_index(i);
    proof {
        lemma_tab_index_roundtrip(t, i as nat);
    }
    switch_tab(ctx, t);
}

fn prev_tab(ctx: &mut AppContext)
    requires
        old(ctx).ui@.wf(),
    ensures
        old(ctx).ui@.wf() ==> final(ctx).ui@.wf(),
        final(ctx).ui@ == prev_tab_of(old(ctx).ui@),
        only_ui_changed(old(ctx), final(ctx)),
{
    let i = if ctx.ui.tab_index == 0 {
        5
    } else {
        ctx.ui.tab_index - 1
    };
    let t = Tab::from_index(i);
    proof {
        lemma_tab_index_roundtrip(t, i as nat);
    }
    switch_tab(ctx, t);
}

/// Replaces the field under edit and moves the cursor.
fn set_current_field(ui: &mut UiState, field: String, cursor: usize)
    requires
        old(ui)@.wf(),
    ensures
        final(ui)@ == edited(old(ui)@, field@, cursor),
{
    let idx = ui.input_field_index;
    ui.input_fields.set(idx, field);
    ui.input_cursor = cursor;
    assert(views_of(ui.input_fields@) =~= views_of(old(ui).input_fields@).update(
        idx as int,
        field@,
    ));
}

fn form_char(ctx: &mut AppContext, c: char)
    requires
        old(ctx).ui@.wf(),
        current_field(old(ctx).ui@).len() < usize::MAX,
    ensures
        old(ctx).ui@.wf() ==> final(ctx).ui@.wf(),
        final(ctx).ui@ == typed(old(ctx).ui@, c),
        only_ui_changed(old(ctx), final(ctx)),
{
    let idx = ctx.ui.input_field_index;
    let cur = ctx.ui.input_cursor;
    assert(ctx.ui@.input_fields[idx as int] == ctx.ui.input_fields@[idx as int]@);
    let f = ctx.ui.input_fields[idx].as_str();
    let n = f.unicode_len();
    let mut s = owned(f.substring_char(0, cur));
    push_char(&mut s, c);
    push_str(&mut s, f.substring_char(cur, n));
    assert(s@ =~= f@.insert(cur as int, c));
    set_current_field(&mut ctx.ui, s, cur + 1);
}

fn form_backspace(ctx: &mut AppContext)
    requires
        old(ctx).ui@.wf(),
    ensures
        old(ctx).ui@.wf() ==> final(ctx).ui@.wf(),
        final(ctx).ui@ == backspaced(old(ctx).ui@),
        only_ui_changed(old(ctx), final(ctx)),
{
    let cur = ctx.ui.input_cursor;
    if cur > 0 {
        let idx = ctx.ui.input_field_index;
        assert(ctx.ui@.input_fields[idx as int] == ctx.ui.input_fields@[idx as int]@);
        let f = ctx.ui.input_fields[idx].as_str();
        let n = f.unicode_len();
        let mut s = owned(f.substring_char(0, cur - 1));
        push_str(&mut s, f.substring_char(cur, n));
        assert(s@ =~= f@.remove(cur - 1));
        set_current_field(&mut ctx.ui, s, cur - 1);
    }
}

fn form_delete(ctx: &mut AppContext)
    requires
        old(ctx).ui@.wf(),
    ensures
        old(ctx).ui@.wf() ==> final(ctx).ui@.wf(),
        final(ctx).ui@ == deleted(old(ctx).ui@),
        only_ui_changed(old(ctx), final(ctx)),
{
    let cur = ctx.ui.input_cursor;
    let idx = ctx.ui.input_field_index;
    assert(ctx.ui@.input_fields[idx as int] == ctx.ui.input_fields@[idx as int]@);
    let f = ctx.ui.input_fields[idx].as_str();
    let n = f.unicode_len();
    if cur < n {
        let mut s = owned(f.substring_char(0, cur));
        push_str(&mut s, f.substring_char(cur + 1, n));
        assert(s@ =~= f@.remove(cur as int));
        set_current_field(&mut ctx.ui, s, cur);
    }
}

fn form_right(ctx: &mut AppContext)
    requires
        old(ctx).ui@.wf(),
    ensures
        old(ctx).ui@.wf() ==> final(ctx).ui@.wf(),
        final(ctx).ui@ == cursor_right(old(ctx).ui@),
        only_ui_changed(old(ctx), final(ctx)),
{
    let idx = ctx.ui.input_field_index;
    assert(ctx.ui@.input_fields[idx as int] == ctx.ui.input_fields@[idx as int]@);
    let n = ctx.ui.input_fields[idx].as_str().unicode_len();
    if ctx.ui.input_cursor < n {
        ctx.ui.input_cursor = ctx.ui.input_cursor + 1;
    }
}

fn go_to_field(ui: &mut UiState, i: usize)
    requires
        i < old(ui).input_fields@.len(),
    ensures
        old(ui)@.wf() ==> final(ui)@.wf(),
        final(ui)@ == at_field(old(ui)@, i),
{
    ui.input_field_index = i;
    assert(ui@.input_fields[i as int] == ui.input_fields@[i as int]@);
    ui.input_cursor = ui.input_fields[i].as_str().unicode_len();
}

fn reset_form(ui: &mut UiState)
    ensures
        old(ui)@.wf() ==> final(ui)@.wf(),
        final(ui)@ == form_reset(old(ui)@),
{
    ui.input_fields = blank_form_fields();
    ui.input_field_index = 0;
    ui.input_cursor = 0;
}

fn open_edit_form(ctx: &mut AppContext) -> (r: CommandEffect)
    ensures
        old(ctx).ui@.wf() ==> final(ctx).ui@.wf(),
        final(ctx).ui@ == edit_form_opened(old(ctx).ui@, old(ctx).state),
        only_ui_changed(old(ctx), final(ctx)),
        match r {
            CommandEffect::LoadProviderForm(name) => old(ctx).ui.provider_selected
                < old(ctx).state.providers@.len() && name@ == old(ctx).state.providers@[old(
                ctx,
            ).ui.provider_selected as int].name@,
            CommandEffect::Nothing => old(ctx).ui.provider_selected
                >= old(ctx).state.providers@.len(),
            _ => false,
        },
{
    let sel = ctx.ui.provider_selected;
    if sel < ctx.state.providers.len() {
        let name = ctx.state.providers[sel].name.clone();
        let mut fields = blank_form_fields();
        fields.set(0, name.clone());
        assert(views_of(fields@) =~= blank_form().update(0, name@));
        ctx.ui.popup = Popup::EditProvider;
        ctx.ui.input_fields = fields;
        ctx.ui.input_field_index = 1;
        ctx.ui.input_cursor = 0;
        ctx.ui.error_message = None;
        ctx.ui.success_message = None;
        CommandEffect::LoadProviderForm(name)
    } else {
        CommandEffect::Nothing
    }
}

fn open_nodes(ctx: &mut AppContext)
    ensures
        old(ctx).ui@.wf() ==> final(ctx).ui@.wf(),
        final(ctx).ui@ == nodes_opened(old(ctx).ui@, old(ctx).state),
        only_ui_changed(old(ctx), final(ctx)),
{
    let sel = ctx.ui.proxy_selected;
    if sel < ctx.state.proxies.len() {
        let name = ctx.state.proxies[sel].name.clone();
        let selected = match &ctx.state.proxies[sel].now {
            Some(n) => match &ctx.state.proxies[sel].all {
                Some(all) => match crate::text::index_of_str(all, n.as_str()) {
                    Some(i) => i,
                    None => 0,
                },
                None => {
                    assert(members_of(ctx.state.proxies@[sel as int].all) =~= Seq::empty());
                    0
                },
            },
            None => 0,
        };
        ctx.ui.popup = Popup::ProxyNodes { proxy_name: name, selected };
    }
}

fn toggle_expand(ctx: &mut AppContext)
    ensures
        old(ctx).ui@.wf() ==> final(ctx).ui@.wf(),
        final(ctx).ui@ == expand_toggled(old(ctx).ui@),
        only_ui_changed(old(ctx), final(ctx)),
{
    let idx = ctx.ui.provider_selected;
    if idx < ctx.ui.provider_expanded.len() {
        let v = ctx.ui.provider_expanded[idx];
        ctx.ui.provider_expanded.set(idx, !v);
    }
}

fn toggle_auto_update(ctx: &mut AppContext)
    ensures
        old(ctx).ui@.wf() ==> final(ctx).ui@.wf(),
        final(ctx).ui@ == auto_update_toggled(old(ctx).ui@),
        only_ui_changed(old(ctx), final(ctx)),
{
    ctx.ui.auto_update = !ctx.ui.auto_update;
    let msg = if ctx.ui.auto_update {
        owned("自动更新已开启")
    } else {
        owned("自动更新已关闭")
    };
    ctx.ui.success_message = Some(msg);
}

fn search_backspace(ctx: &mut AppContext)
    ensures
        old(ctx).ui@.wf() ==> final(ctx).ui@.wf(),
        final(ctx).ui@ == search_backspaced(old(ctx).ui@),
        only_ui_changed(old(ctx), final(ctx)),
{
    let n = ctx.ui.search_query.as_str().unicode_len();
    if n > 0 {
        let s = owned(ctx.ui.search_query.as_str().substring_char(0, n - 1));
        ctx.ui.search_query = s;
    }
}

/// The machine limits a command must stay within: a typed character must
/// not make the field longer than a `usize` counts, nor paging the log
/// scroll past it.
pub open spec fn command_fits(cmd: Command, u: UiView) -> bool {
    &&& (cmd matches Command::FormChar(_)) ==> current_field(u).len() < usize::MAX
    &&& cmd == Command::PageDown ==> u.log_scroll + 10 <= usize::MAX
}

/// `LogClear` empties the log and touches nothing else of the state.
#[verifier::opaque]
pub open spec fn logs_cleared(old: AppState, new: AppState) -> bool {
    &&& new.logs@.len() == 0
    &&& new == (AppState { logs: new.logs, ..old })
}

/// The interface after a command.
pub open spec fn ui_outcome(cmd: Command, u: UiView, st: AppState, v: UiView) -> bool {
    match cmd {
        Command::SwitchTab(t) => v == switched_to(u, t),
        Command::NextTab => v == next_tab_of(u),
        Command::PrevTab => v == prev_tab_of(u),
        Command::ToggleAutoUpdate => v == auto_update_toggled(u),
        Command::ToggleSearch => v == search_started(u),
        Command::MoveUp => v == moved_up(u),
        Command::MoveDown => v == moved_down(u, st),
        Command::PageUp => v == paged_up(u),
        Command::PageDown => v == paged_down(u, st),
        Command::Home => v == went_home(u),
        Command::End => v == went_end(u, st),
        Command::ProxySelect => v == nodes_opened(u, st),
        Command::ProviderToggleExpand => v == expand_toggled(u),
        Command::ProviderAdd => v == add_form_opened(u),
        Command::ProviderEdit => v == edit_form_opened(u, st),
        Command::ProviderDelete => v == delete_asked(u, st),
        Command::LogClear => v == scrolled_to_top(u),
        Command::Cancel => v == cancelled(u),
        Command::FormNextField => v == next_field(u),
        Command::FormPrevField => v == prev_field(u),
        Command::FormChar(c) => v == typed(u, c),
        Command::FormBackspace => v == backspaced(u),
        Command::FormDelete => v == deleted(u),
        Command::FormLeft => v == cursor_left(u),
        Command::FormRight => v == cursor_right(u),
        Command::SearchChar(c) => v == search_typed(u, c),
        Command::SearchBackspace => v == search_backspaced(u),
        Command::SearchCancel => v == search_cleared(u),
        Command::CycleSort => true,
        _ => v == u,
    }
}

/// The outside work a command asks for: closing the selected connection or
/// all of them, or loading the stored settings of the subscription opened
/// for editing.
pub open spec fn effect_of(cmd: Command, u: UiView, st: AppState, r: CommandEffect) -> bool {
    let conn = u.connection_selected < st.connections@.len();
    let prov = u.provider_selected < st.providers@.len();
    match r {
        CommandEffect::Nothing => !(cmd == Command::ConnCloseAll) && !(cmd == Command::ConnClose
            && conn) && !(cmd == Command::ProviderEdit && prov),
        CommandEffect::CloseConnection(id) => cmd == Command::ConnClose && conn && id@
            == st.connections@[u.connection_selected as int].id@,
        CommandEffect::CloseAllConnections => cmd == Command::ConnCloseAll,
        CommandEffect::LoadProviderForm(name) => cmd == Command::ProviderEdit && prov && name@
            == st.providers@[u.provider_selected as int].name@,
    }
}

/// Message shown after the list of tab `t` is sorted.
pub open spec fn sort_message(t: Tab, asc: bool) -> Seq<char> {
    match t {
        Tab::Proxies => if asc {
            "代理按延迟排序 ↑"@
        } else {
            "代理按延迟排序 ↓"@
        },
        Tab::Providers => if asc {
            "订阅按名称排序 ↑"@
        } else {
            "订阅按名称排序 ↓"@
        },
        Tab::Connections => if asc {
            "连接按下载排序 ↑"@
        } else {
            "连接按下载排序 ↓"@
        },
        _ => if asc {
            "规则按类型排序 ↑"@
        } else {
            "规则按类型排序 ↓"@
        },
    }
}

/// The interface after sorting with direction `asc` on the current tab.
pub open spec fn sort_flagged(u: UiView, asc: bool) -> UiView {
    match u.current_tab {
        Tab::Proxies => UiView {
            proxy_sort_asc: asc,
            success_message: Some(sort_message(Tab::Proxies, asc)),
            ..u
        },
        Tab::Providers => UiView {
            provider_sort_asc: asc,
            success_message: Some(sort_message(Tab::Providers, asc)),
            ..u
        },
        Tab::Connections => UiView {
            connection_sort_asc: asc,
            success_message: Some(sort_message(Tab::Connections, asc)),
            ..u
        },
        _ => UiView {
            rule_sort_asc: asc,
            success_message: Some(sort_message(Tab::Rules, asc)),
            ..u
        },
    }
}

/// `CycleSort` flips the sort direction of the current tab's list and
/// sorts it stably that way: proxies by latest delay, subscriptions by name,
/// connections by bytes downloaded, rules by type. Other tabs are left
/// alone.
pub open spec fn sort_outcome(u: UiView, st: AppState, v: UiView, st2: AppState) -> bool {
    match u.current_tab {
        Tab::Proxies => {
            let asc = !u.proxy_sort_asc;
            &&& v == sort_flagged(u, asc)
            &&& sorted_by_key(st2.proxies@, asc)
            &&& same_per_key(st2.proxies@, st.proxies@)
            &&& st2 == (AppState { proxies: st2.proxies, ..st })
        },
        Tab::Providers => {
            let asc = !u.provider_sort_asc;
            &&& v == sort_flagged(u, asc)
            &&& sorted_by_key(st2.providers@, asc)
            &&& same_per_key(st2.providers@, st.providers@)
            &&& st2 == (AppState { providers: st2.providers, ..st })
        },
        Tab::Connections => {
            let asc = !u.connection_sort_asc;
            &&& v == sort_flagged(u, asc)
            &&& sorted_by_key(st2.connections@, asc)
            &&& same_per_key(st2.connections@, st.connections@)
            &&& st2 == (AppState { connections: st2.connections, ..st })
        },
        Tab::Rules => {
            let asc = !u.rule_sort_asc;
            &&& v == sort_flagged(u, asc)
            &&& sorted_by_key(st2.rules@, asc)
            &&& same_per_key(st2.rules@, st.rules@)
            &&& st2 == (AppState { rules: st2.rules, ..st })
        },
        _ => v == u && st2 == st,
    }
}

fn sort_message_text(t: Tab, asc: bool) -> (r: String)
    ensures
        r@ == sort_message(t, asc),
{
    match t {
        Tab::Proxies => if asc {
            owned("代理按延迟排序 ↑")
        } else {
            owned("代理按延迟排序 ↓")
        },
        Tab::Providers => if asc {
            owned("订阅按名称排序 ↑")
        } else {
            owned("订阅按名称排序 ↓")
        },
        Tab::Connections => if asc {
            owned("连接按下载排序 ↑")
        } else {
            owned("连接按下载排序 ↓")
        },
        _ => if asc {
            owned("规则按类型排序 ↑")
        } else {
            owned("规则按类型排序 ↓")
        },
    }
}

fn sort_proxies(ctx: &mut AppContext)
    requires
        old(ctx).ui.current_tab == Tab::Proxies,
    ensures
        old(ctx).ui@.wf() ==> final(ctx).ui@.wf(),
        final(ctx).ui@ == sort_flagged(old(ctx).ui@, !old(ctx).ui.proxy_sort_asc),
        sorted_by_key(final(ctx).state.proxies@, !old(ctx).ui.proxy_sort_asc),
        same_per_key(final(ctx).state.proxies@, old(ctx).state.proxies@),
        final(ctx).state == (AppState { proxies: final(ctx).state.proxies, ..old(ctx).state }),
        final(ctx).config_manager == old(ctx).config_manager,
        final(ctx).running == old(ctx).running,
        final(ctx).connected == old(ctx).connected,
{
    let asc = !ctx.ui.proxy_sort_asc;
    ctx.ui.proxy_sort_asc = asc;
    let mut v = Vec::new();
    std::mem::swap(&mut v, &mut ctx.state.proxies);
    ctx.state.proxies = stable_sort(v, asc);
    ctx.ui.success_message = Some(sort_message_text(Tab::Proxies, asc));
}

fn sort_providers(ctx: &mut AppContext)
    requires
        old(ctx).ui.current_tab == Tab::Providers,
    ensures
        old(ctx).ui@.wf() ==> final(ctx).ui@.wf(),
        final(ctx).ui@ == sort_flagged(old(ctx).ui@, !old(ctx).ui.provider_sort_asc),
        sorted_by_key(final(ctx).state.providers@, !old(ctx).ui.provider_sort_asc),
        same_per_key(final(ctx).state.providers@, old(ctx).state.providers@),
        final(ctx).state == (AppState { providers: final(ctx).state.providers, ..old(ctx).state }),
        final(ctx).config_manager == old(ctx).config_manager,
        final(ctx).running == old(ctx).running,
        final(ctx).connected == old(ctx).connected,
{
    let asc = !ctx.ui.provider_sort_asc;
    ctx.ui.provider_sort_asc = asc;
    let mut v = Vec::new();
    std::mem::swap(&mut v, &mut ctx.state.providers);
    ctx.state.providers = stable_sort(v, asc);
    ctx.ui.success_message = Some(sort_message_text(Tab::Providers, asc));
}

fn sort_connections(ctx: &mut AppContext)
    requires
        old(ctx).ui.current_tab == Tab::Connections,
    ensures
        old(ctx).ui@.wf() ==> final(ctx).ui@.wf(),
        final(ctx).ui@ == sort_flagged(old(ctx).ui@, !old(ctx).ui.connection_sort_asc),
        sorted_by_key(final(ctx).state.connections@, !old(ctx).ui.connection_sort_asc),
        same_per_key(final(ctx).state.connections@, old(ctx).state.connections@),
        final(ctx).state == (AppState { connections: final(ctx).state.connections, ..old(ctx).state }),
        final(ctx).config_manager == old(ctx).config_manager,
        final(ctx).running == old(ctx).running,
        final(ctx).connected == old(ctx).connected,
{
    let asc = !ctx.ui.connection_sort_asc;
    ctx.ui.connection_sort_asc = asc;
    let mut v = Vec::new();
    std::mem::swap(&mut v, &mut ctx.state.connections);
    ctx.state.connections = stable_sort(v, asc);
    ctx.ui.success_message = Some(sort_message_text(Tab::Connections, asc));
}

fn sort_rules(ctx: &mut AppContext)
    requires
        old(ctx).ui.current_tab == Tab::Rules,
    ensures
        old(ctx).ui@.wf() ==> final(ctx).ui@.wf(),
        final(ctx).ui@ == sort_flagged(old(ctx).ui@, !old(ctx).ui.rule_sort_asc),
        sorted_by_key(final(ctx).state.rules@, !old(ctx).ui.rule_sort_asc),
        same_per_key(final(ctx).state.rules@, old(ctx).state.rules@),
        final(ctx).state == (AppState { rules: final(ctx).state.rules, ..old(ctx).state }),
        final(ctx).config_manager == old(ctx).config_manager,
        final(ctx).running == old(ctx).running,
        final(ctx).connected == old(ctx).connected,
{
    let asc = !ctx.ui.rule_sort_asc;
    ctx.ui.rule_sort_asc = asc;
    let mut v = Vec::new();
    std::mem::swap(&mut v, &mut ctx.state.rules);
    ctx.state.rules = stable_sort(v, asc);
    ctx.ui.success_message = Some(sort_message_text(Tab::Rules, asc));
}

fn cycle_sort(ctx: &mut AppContext)
    ensures
        old(ctx).ui@.wf() ==> final(ctx).ui@.wf(),
        sort_outcome(old(ctx).ui@, old(ctx).state, final(ctx).ui@, final(ctx).state),
        final(ctx).config_manager == old(ctx).config_manager,
        final(ctx).running == old(ctx).running,
        final(ctx).connected == old(ctx).connected,
{
    match ctx.ui.current_tab {
        Tab::Proxies => sort_proxies(ctx),
        Tab::Providers => sort_providers(ctx),
        Tab::Connections => sort_connections(ctx),
        Tab::Rules => sort_rules(ctx),
        _ => {},
    }
}

/// Commands that move between tabs or rows.
pub open spec fn is_navigation(cmd: Command) -> bool {
    ||| cmd matches Command::SwitchTab(_)
    ||| cmd == Command::NextTab
    ||| cmd == Command::PrevTab
    ||| cmd == Command::MoveUp
    ||| cmd == Command::MoveDown
    ||| cmd == Command::PageUp
    ||| cmd == Command::PageDown
    ||| cmd == Command::Home
    ||| cmd == Command::End
}

/// Commands that open, close or edit the subscription form.
pub open spec fn is_form_edit(cmd: Command) -> bool {
    ||| cmd == Command::ProviderAdd
    ||| cmd == Command::Cancel
    ||| cmd == Command::FormNextField
    ||| cmd == Command::FormPrevField
    ||| cmd matches Command::FormChar(_)
    ||| cmd == Command::FormBackspace
    ||| cmd == Command::FormDelete
    ||| cmd == Command::FormLeft
    ||| cmd == Command::FormRight
}

fn provider_add(ctx: &mut AppContext)
    ensures
        old(ctx).ui@.wf() ==> final(ctx).ui@.wf(),
        final(ctx).ui@ == add_form_opened(old(ctx).ui@),
        only_ui_changed(old(ctx), final(ctx)),
{
    ctx.ui.popup = Popup::AddProvider;
    reset_form(&mut ctx.ui);
    ctx.ui.error_message = None;
    ctx.ui.success_message = None;
}

fn cancel(ctx: &mut AppContext)
    ensures
        old(ctx).ui@.wf() ==> final(ctx).ui@.wf(),
        final(ctx).ui@ == cancelled(old(ctx).ui@),
        only_ui_changed(old(ctx), final(ctx)),
{
    ctx.ui.popup = Popup::Hidden;
    reset_form(&mut ctx.ui);
}

fn form_next_field(ctx: &mut AppContext)
    requires
        old(ctx).ui@.wf(),
    ensures
        final(ctx).ui@.wf(),
        final(ctx).ui@ == next_field(old(ctx).ui@),
        only_ui_changed(old(ctx), final(ctx)),
{
    let len = ctx.ui.input_fields.len();
    let i = (ctx.ui.input_field_index + 1) % len;
    go_to_field(&mut ctx.ui, i);
}

fn form_prev_field(ctx: &mut AppContext)
    requires
        old(ctx).ui@.wf(),
    ensures
        final(ctx).ui@.wf(),
        final(ctx).ui@ == prev_field(old(ctx).ui@),
        only_ui_changed(old(ctx), final(ctx)),
{
    let len = ctx.ui.input_fields.len();
    let i = if ctx.ui.input_field_index == 0 {
        len - 1
    } else {
        ctx.ui.input_field_index - 1
    };
    go_to_field(&mut ctx.ui, i);
}

fn form_left(ctx: &mut AppContext)
    ensures
        old(ctx).ui@.wf() ==> final(ctx).ui@.wf(),
        final(ctx).ui@ == cursor_left(old(ctx).ui@),
        only_ui_changed(old(ctx), final(ctx)),
{
    if ctx.ui.input_cursor > 0 {
        ctx.ui.input_cursor = ctx.ui.input_cursor - 1;
    }
}

fn quit(ctx: &mut AppContext)
    ensures
        *final(ctx) == (AppContext { running: false, ..*old(ctx) }),
{
    ctx.running = false;
}

fn start_search(ctx: &mut AppContext)
    ensures
        old(ctx).ui@.wf() ==> final(ctx).ui@.wf(),
        final(ctx).ui@ == search_started(old(ctx).ui@),
        only_ui_changed(old(ctx), final(ctx)),
{
    ctx.ui.search_active = true;
    ctx.ui.search_query = String::new();
}

fn ask_delete(ctx: &mut AppContext)
    ensures
        old(ctx).ui@.wf() ==> final(ctx).ui@.wf(),
        final(ctx).ui@ == delete_asked(old(ctx).ui@, old(ctx).state),
        only_ui_changed(old(ctx), final(ctx)),
{
    if ctx.ui.provider_selected < ctx.state.providers.len() {
        ctx.ui.popup = Popup::DeleteConfirm;
        ctx.ui.error_message = None;
        ctx.ui.success_message = None;
    }
}

fn close_selected(ctx: &AppContext) -> (r: CommandEffect)
    ensures
        effect_of(Command::ConnClose, ctx.ui@, ctx.state, r),
{
    let idx = ctx.ui.connection_selected;
    if idx < ctx.state.connections.len() {
        CommandEffect::CloseConnection(ctx.state.connections[idx].id.clone())
    } else {
        CommandEffect::Nothing
    }
}

fn clear_logs(ctx: &mut AppContext)
    ensures
        old(ctx).ui@.wf() ==> final(ctx).ui@.wf(),
        final(ctx).ui@ == scrolled_to_top(old(ctx).ui@),
        logs_cleared(old(ctx).state, final(ctx).state),
        final(ctx).config_manager == old(ctx).config_manager,
        final(ctx).running == old(ctx).running,
        final(ctx).connected == old(ctx).connected,
{
    ctx.state.logs = Vec::new();
    ctx.ui.log_scroll = 0;
    proof {
        reveal(logs_cleared);
    }
}

fn search_char(ctx: &mut AppContext, c: char)
    ensures
        old(ctx).ui@.wf() ==> final(ctx).ui@.wf(),
        final(ctx).ui@ == search_typed(old(ctx).ui@, c),
        only_ui_changed(old(ctx), final(ctx)),
{
    push_char(&mut ctx.ui.search_query, c);
}

fn search_cancel(ctx: &mut AppContext)
    ensures
        old(ctx).ui@.wf() ==> final(ctx).ui@.wf(),
        final(ctx).ui@ == search_cleared(old(ctx).ui@),
        only_ui_changed(old(ctx), final(ctx)),
{
    ctx.ui.search_query = String::new();
}

/// Commands that change only what the dashboard shows, with no outside work.
pub open spec fn is_plain(cmd: Command) -> bool {
    ||| cmd == Command::Quit
    ||| cmd == Command::ToggleAutoUpdate
    ||| cmd == Command::ToggleSearch
    ||| cmd == Command::ProxySelect
    ||| cmd == Command::ProviderToggleExpand
    ||| cmd == Command::ProviderDelete
    ||| cmd == Command::LogClear
    ||| cmd matches Command::SearchChar(_)
    ||| cmd == Command::SearchBackspace
    ||| cmd == Command::SearchCancel
}

/// Commands that ask the caller for outside work.
pub open spec fn is_request(cmd: Command) -> bool {
    ||| cmd == Command::ProviderEdit
    ||| cmd == Command::ConnClose
    ||| cmd == Command::ConnCloseAll
}

fn plain(cmd: &Command) -> (r: bool)
    ensures
        r == is_plain(*cmd),
{
    match cmd {
        Command::Quit | Command::ToggleAutoUpdate | Command::ToggleSearch | Command::ProxySelect
        | Command::ProviderToggleExpand | Command::ProviderDelete | Command::LogClear
        | Command::SearchChar(_) | Command::SearchBackspace | Command::SearchCancel => true,
        _ => false,
    }
}

fn requesting(cmd: &Command) -> (r: bool)
    ensures
        r == is_request(*cmd),
{
    match cmd {
        Command::ProviderEdit | Command::ConnClose | Command::ConnCloseAll => true,
        _ => false,
    }
}

fn navigation(cmd: &Command) -> (r: bool)
    ensures
        r == is_navigation(*cmd),
{
    match cmd {
        Command::SwitchTab(_) | Command::NextTab | Command::PrevTab | Command::MoveUp
        | Command::MoveDown | Command::PageUp | Command::PageDown | Command::Home
        | Command::End => true,
        _ => false,
    }
}

fn form_edit(cmd: &Command) -> (r: bool)
    ensures
        r == is_form_edit(*cmd),
{
    match cmd {
        Command::ProviderAdd | Command::Cancel | Command::FormNextField | Command::FormPrevField
        | Command::FormChar(_) | Command::FormBackspace | Command::FormDelete | Command::FormLeft
        | Command::FormRight => true,
        _ => false,
    }
}

/// What a command does to the dashboard: the interface stays well formed
/// and changes as `ui_outcome` says; the configuration file and the
/// connection flag stay; the dashboard keeps running unless the command
/// is `Quit`; the state changes only by sorting (`CycleSort`) or clearing
/// the log (`LogClear`).
pub open spec fn executed(cmd: Command, before: AppContext, after: AppContext) -> bool {
    &&& after.ui@.wf()
    &&& after.config_manager == before.config_manager
    &&& after.connected == before.connected
    &&& after.running == (before.running && cmd != Command::Quit)
    &&& cmd != Command::LogClear && cmd != Command::CycleSort ==> after.state == before.state
    &&& cmd == Command::CycleSort ==> sort_outcome(before.ui@, before.state, after.ui@, after.state)
    &&& cmd == Command::LogClear ==> logs_cleared(before.state, after.state)
    &&& ui_outcome(cmd, before.ui@, before.state, after.ui@)
}

/// Applies user commands to the dashboard.
pub struct CommandExecutor;

impl CommandExecutor {
    /// Applies `cmd` to `ctx`, and returns the outside work it asks for.
    pub fn execute(cmd: &Command, ctx: &mut AppContext) -> (r: CommandEffect)
        requires
            old(ctx).ui@.wf(),
            command_fits(*cmd, old(ctx).ui@),
        ensures
            executed(*cmd, *old(ctx), *final(ctx)),
            effect_of(*cmd, old(ctx).ui@, old(ctx).state, r),
    {
        proof {
            lemma_tab_index_roundtrip(ctx.ui.current_tab, 0);
        }
        if navigation(cmd) {
            Self::navigate(cmd, ctx);
            CommandEffect::Nothing
        } else if form_edit(cmd) {
            Self::edit_form(cmd, ctx);
            CommandEffect::Nothing
        } else if plain(cmd) {
            Self::act(cmd, ctx);
            CommandEffect::Nothing
        } else if requesting(cmd) {
            Self::request(cmd, ctx)
        } else if *cmd == Command::CycleSort {
            cycle_sort(ctx);
            CommandEffect::Nothing
        } else {
            CommandEffect::Nothing
        }
    }

    fn navigate(cmd: &Command, ctx: &mut AppContext)
        requires
            old(ctx).ui@.wf(),
            command_fits(*cmd, old(ctx).ui@),
            is_navigation(*cmd),
        ensures
            executed(*cmd, *old(ctx), *final(ctx)),
    {
        match cmd {
            Command::SwitchTab(tab) => switch_tab(ctx, *tab),
            Command::NextTab => next_tab(ctx),
            Command::PrevTab => prev_tab(ctx),
            Command::MoveUp => move_up(ctx),
            Command::MoveDown => move_down(ctx),
            Command::PageUp => page_up(ctx),
            Command::PageDown => page_down(ctx),
            Command::Home => home(ctx),
            _ => end(ctx),
        }
    }

    fn edit_form(cmd: &Command, ctx: &mut AppContext)
        requires
            old(ctx).ui@.wf(),
            command_fits(*cmd, old(ctx).ui@),
            is_form_edit(*cmd),
        ensures
            executed(*cmd, *old(ctx), *final(ctx)),
    {
        match cmd {
            Command::ProviderAdd => provider_add(ctx),
            Command::Cancel => cancel(ctx),
            Command::FormNextField => form_next_field(ctx),
            Command::FormPrevField => form_prev_field(ctx),
            Command::FormChar(c) => form_char(ctx, *c),
            Command::FormBackspace => form_backspace(ctx),
            Command::FormDelete => form_delete(ctx),
            Command::FormLeft => form_left(ctx),
            _ => form_right(ctx),
        }
    }

    fn act(cmd: &Command, ctx: &mut AppContext)
        requires
            old(ctx).ui@.wf(),
            is_plain(*cmd),
        ensures
            executed(*cmd, *old(ctx), *final(ctx)),
    {
        match cmd {
            Command::Quit => quit(ctx),
            Command::ToggleAutoUpdate => toggle_auto_update(ctx),
            Command::ToggleSearch => start_search(ctx),
            Command::ProxySelect => open_nodes(ctx),
            Command::ProviderToggleExpand => toggle_expand(ctx),
            Command::LogClear => clear_logs(ctx),
            _ => Self::act_more(cmd, ctx),
        }
    }

    fn act_more(cmd: &Command, ctx: &mut AppContext)
        requires
            old(ctx).ui@.wf(),
            is_plain(*cmd),
            *cmd != Command::Quit,
            *cmd != Command::ToggleAutoUpdate,
            *cmd != Command::ToggleSearch,
            *cmd != Command::ProxySelect,
            *cmd != Command::ProviderToggleExpand,
            *cmd != Command::LogClear,
        ensures
            executed(*cmd, *old(ctx), *final(ctx)),
    {
        match cmd {
            Command::ProviderDelete => ask_delete(ctx),
            Command::SearchChar(c) => search_char(ctx, *c),
            Command::SearchBackspace => search_backspace(ctx),
            _ => search_cancel(ctx),
        }
    }

    fn request(cmd: &Command, ctx: &mut AppContext) -> (r: CommandEffect)
        requires
            old(ctx).ui@.wf(),
            is_request(*cmd),
        ensures
            executed(*cmd, *old(ctx), *final(ctx)),
            effect_of(*cmd, old(ctx).ui@, old(ctx).state, r),
    {
        match cmd {
            Command::ProviderEdit => open_edit_form(ctx),
            Command::ConnClose => close_selected(ctx),
            _ => CommandEffect::CloseAllConnections,
        }
    }
}

} // verus!
