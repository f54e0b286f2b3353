//! The dashboard's interface state, and the context that commands act on.

use vstd::prelude::*;
use crate::config::ConfigManager;
use crate::state::AppState;
use crate::text::{opt_view, owned, views_of};
use crate::ui::{tab_at, Popup, PopupView, Tab, TAB_COUNT};

verus! {

/// Interface state: selection, popups, form input and messages.
#[derive(Debug)]
pub struct UiState {
    pub current_tab: Tab,
    pub tab_index: usize,
    pub proxy_selected: usize,
    pub provider_selected: usize,
    pub connection_selected: usize,
    pub rule_selected: usize,
    pub log_scroll: usize,
    pub proxy_expanded: Vec<bool>,
    pub provider_expanded: Vec<bool>,
    pub search_query: String,
    pub popup: Popup,
    pub error_message: Option<String>,
    pub success_message: Option<String>,
    pub input_fields: Vec<String>,
    pub input_field_index: usize,
    pub input_cursor: usize,
    pub modes: Vec<String>,
    pub current_mode_index: usize,
    pub auto_update: bool,
    pub search_active: bool,
    pub help_active: bool,
    pub traffic_history: Vec<(u64, u64)>,
    pub proxy_sort_asc: bool,
    pub provider_sort_asc: bool,
    pub connection_sort_asc: bool,
    pub rule_sort_asc: bool,
    pub refresh_in_progress: bool,
    pub last_refresh_at: Option<u64>,
    pub updating_providers: Vec<String>,
    pub testing_proxies: Vec<String>,
    pub toast_text: Option<String>,
    pub toast_set_at: Option<u64>,
}

/// Interface state as plain values.
pub struct UiView {
    pub current_tab: Tab,
    pub tab_index: usize,
    pub proxy_selected: usize,
    pub provider_selected: usize,
    pub connection_selected: usize,
    pub rule_selected: usize,
    pub log_scroll: usize,
    pub proxy_expanded: Seq<bool>,
    pub provider_expanded: Seq<bool>,
    pub search_query: Seq<char>,
    pub popup: PopupView,
    pub error_message: Option<Seq<char>>,
    pub success_message: Option<Seq<char>>,
    pub input_fields: Seq<Seq<char>>,
    pub input_field_index: usize,
    pub input_cursor: usize,
    pub modes: Seq<Seq<char>>,
    pub current_mode_index: usize,
    pub auto_update: bool,
    pub search_active: bool,
    pub help_active: bool,
    pub traffic_history: Seq<(u64, u64)>,
    pub proxy_sort_asc: bool,
    pub provider_sort_asc: bool,
    pub connection_sort_asc: bool,
    pub rule_sort_asc: bool,
    pub refresh_in_progress: bool,
    pub last_refresh_at: Option<u64>,
    pub updating_providers: Seq<Seq<char>>,
    pub testing_proxies: Seq<Seq<char>>,
    pub toast_text: Option<Seq<char>>,
    pub toast_set_at: Option<u64>,
}

impl View for UiState {
    type V = UiView;

    open spec fn view(&self) -> UiView {
        UiView {
            current_tab: self.current_tab,
            tab_index: self.tab_index,
            proxy_selected: self.proxy_selected,
            provider_selected: self.provider_selected,
            connection_selected: self.connection_selected,
            rule_selected: self.rule_selected,
            log_scroll: self.log_scroll,
            proxy_expanded: self.proxy_expanded@,
            provider_expanded: self.provider_expanded@,
            search_query: self.search_query@,
            popup: self.popup@,
            error_message: opt_view(self.error_message),
            success_message: opt_view(self.success_message),
            input_fields: views_of(self.input_fields@),
            input_field_index: self.input_field_index,
            input_cursor: self.input_cursor,
            modes: views_of(self.modes@),
            current_mode_index: self.current_mode_index,
            auto_update: self.auto_update,
            search_active: self.search_active,
            help_active: self.help_active,
            traffic_history: self.traffic_history@,
            proxy_sort_asc: self.proxy_sort_asc,
            provider_sort_asc: self.provider_sort_asc,
            connection_sort_asc: self.connection_sort_asc,
            rule_sort_asc: self.rule_sort_asc,
            refresh_in_progress: self.refresh_in_progress,
            last_refresh_at: self.last_refresh_at,
            updating_providers: views_of(self.updating_providers@),
            testing_proxies: views_of(self.testing_proxies@),
            toast_text: opt_view(self.toast_text),
            toast_set_at: self.toast_set_at,
        }
    }
}

/// The interval, in seconds, that a new subscription form proposes.
pub open spec fn default_interval_text() -> Seq<char> {
    "86400"@
}

/// The fields of an empty subscription form: name, URL and interval.
pub open spec fn blank_form() -> Seq<Seq<char>> {
    seq![Seq::<char>::empty(), Seq::<char>::empty(), default_interval_text()]
}

/// The proxy modes the dashboard cycles through.
pub open spec fn default_modes() -> Seq<Seq<char>> {
    seq!["Global"@, "Rule"@, "Direct"@, "Reject"@]
}

impl UiView {
    /// The state's internal consistency: the tab index names the current
    /// tab, the form has a field under the cursor, and a mode is selected.
    pub open spec fn wf(self) -> bool {
        &&& self.tab_index < TAB_COUNT
        &&& self.current_tab == tab_at(self.tab_index as nat)
        &&& self.input_fields.len() > 0
        &&& self.input_field_index < self.input_fields.len()
        &&& self.input_cursor <= self.input_fields[self.input_field_index as int].len()
        &&& self.modes.len() > 0
        &&& self.current_mode_index < self.modes.len()
    }
}

/// A blank subscription form.
pub fn blank_form_fields() -> (r: Vec<String>)
    ensures
        views_of(r@) == blank_form(),
        r@.len() == 3,
{
    let mut v: Vec<String> = Vec::new();
    v.push(String::new());
    v.push(String::new());
    v.push(owned("86400"));
    assert(views_of(v@) =~= blank_form());
    v
}

impl UiState {
    /// The interface as it starts: overview tab, nothing selected, a blank
    /// form, rule mode, automatic updates on, every sort ascending.
    pub fn default() -> (r: UiState)
        ensures
            r@.wf(),
            r@.current_tab == Tab::Overview,
            r@.tab_index == 0,
            r@.proxy_selected == 0,
            r@.provider_selected == 0,
            r@.connection_selected == 0,
            r@.rule_selected == 0,
            r@.log_scroll == 0,
            r@.proxy_expanded.len() == 0,
            r@.provider_expanded.len() == 0,
            r@.search_query.len() == 0,
            r@.popup == PopupView::Hidden,
            r@.error_message is None,
            r@.success_message is None,
            r@.input_fields == blank_form(),
            r@.input_field_index == 0,
            r@.input_cursor == 0,
            r@.modes == default_modes(),
            r@.current_mode_index == 1,
            r@.auto_update,
            !r@.search_active,
            !r@.help_active,
            r@.traffic_history.len() == 0,
            r@.proxy_sort_asc,
            r@.provider_sort_asc,
            r@.connection_sort_asc,
            r@.rule_sort_asc,
            !r@.refresh_in_progress,
            r@.last_refresh_at is None,
            r@.updating_providers.len() == 0,
            r@.testing_proxies.len() == 0,
            r@.toast_text is None,
            r@.toast_set_at is None,
    {
        let mut modes: Vec<String> = Vec::new();
        modes.push(owned("Global"));
        modes.push(owned("Rule"));
        modes.push(owned("Direct"));
        modes.push(owned("Reject"));
        assert(views_of(modes@) =~= default_modes());
        let r = UiState {
            current_tab: Tab::Overview,
            tab_index: 0,
            proxy_selected: 0,
            provider_selected: 0,
            connection_selected: 0,
            rule_selected: 0,
            log_scroll: 0,
            proxy_expanded: Vec::new(),
            provider_expanded: Vec::new(),
            search_query: String::new(),
            popup: Popup::Hidden,
            error_message: None,
            success_message: None,
            input_fields: blank_form_fields(),
            input_field_index: 0,
            input_cursor: 0,
            modes,
            current_mode_index: 1,
            auto_update: true,
            search_active: false,
            help_active: false,
            traffic_history: Vec::new(),
            proxy_sort_asc: true,
            provider_sort_asc: true,
            connection_sort_asc: true,
            rule_sort_asc: true,
            refresh_in_progress: false,
            last_refresh_at: None,
            updating_providers: Vec::new(),
            testing_proxies: Vec::new(),
            toast_text: None,
            toast_set_at: None,
        };
        assert(r@.input_fields[0].len() == 0);
        r
    }
}

/// What commands act on: the core's data, the interface, and the run flags.
pub struct AppContext {
    pub state: AppState,
    pub ui: UiState,
    pub config_manager: ConfigManager,
    pub running: bool,
    pub connected: bool,
}

} // verus!
