//! Which command a key press issues, by input mode and tab.

use vstd::prelude::*;
use crate::commands::command::Command;
use crate::ui::Tab;

verus! {

/// A key of the keyboard, as far as the dashboard tells keys apart.
#[derive(Debug, Clone, Copy, PartialEq, Eq, Structural)]
pub enum Key {
    Char(char),
    F(u8),
    Esc,
    Tab,
    BackTab,
    Enter,
    Up,
    Down,
    Left,
    Right,
    Home,
    End,
    PageUp,
    PageDown,
    Backspace,
    Delete,
    /// Any key the dashboard does not use.
    Other,
}

/// What the keyboard is currently typed into.
#[derive(Debug, Clone, Copy, PartialEq, Eq, Structural)]
pub enum AppModeKind {
    Normal,
    Search,
    Form,
    Popup,
    ProxyNodes,
}

/// A key press: the key and whether Ctrl was held.
#[derive(Debug, Clone, Copy, PartialEq, Eq, Structural)]
pub struct KeyPress {
    pub key: Key,
    pub ctrl: bool,
}

/// The command bound to `k` in a table of bindings: the first binding of
/// `k`.
pub open spec fn binding(t: Seq<(Key, Command)>, k: Key) -> Option<Command>
    decreases t.len(),
{
    if t.len() == 0 {
        None
    } else if t[0].0 == k {
        Some(t[0].1)
    } else {
        binding(t.drop_first(), k)
    }
}

/// Keys that work in every tab of the normal mode.
pub open spec fn global_keys() -> Seq<(Key, Command)> {
    seq![
        (Key::Char('q'), Command::Quit),
        (Key::Esc, Command::Quit),
        (Key::Char('1'), Command::SwitchTab(Tab::Overview)),
        (Key::Char('2'), Command::SwitchTab(Tab::Proxies)),
        (Key::Char('3'), Command::SwitchTab(Tab::Providers)),
        (Key::Char('4'), Command::SwitchTab(Tab::Connections)),
        (Key::Char('5'), Command::SwitchTab(Tab::Rules)),
        (Key::Char('6'), Command::SwitchTab(Tab::Logs)),
        (Key::Char('r'), Command::Refresh),
        (Key::Char('R'), Command::Refresh),
        (Key::Char('m'), Command::CycleMode),
        (Key::Char('A'), Command::ToggleAutoUpdate),
        (Key::Tab, Command::NextTab),
        (Key::BackTab, Command::PrevTab),
        (Key::Char('/'), Command::ToggleSearch),
        (Key::F(4), Command::CycleSort),
        (Key::F(5), Command::Refresh),
        (Key::F(6), Command::CycleMode),
        (Key::F(10), Command::Quit),
    ]
}

/// Keys of the proxies tab.
pub open spec fn proxy_keys() -> Seq<(Key, Command)> {
    seq![
        (Key::Up, Command::MoveUp),
        (Key::Down, Command::MoveDown),
        (Key::Home, Command::Home),
        (Key::End, Command::End),
        (Key::Enter, Command::ProxySelect),
        (Key::Char(' '), Command::ProxySelect),
        (Key::Char('s'), Command::ProxySpeedTest),
        (Key::Char('S'), Command::ProxySpeedTestAll),
        (Key::Left, Command::ProxyPrev),
        (Key::Right, Command::ProxyNext),
    ]
}

/// Keys of the subscriptions tab.
pub open spec fn provider_keys() -> Seq<(Key, Command)> {
    seq![
        (Key::Up, Command::MoveUp),
        (Key::Down, Command::MoveDown),
        (Key::Home, Command::Home),
        (Key::End, Command::End),
        (Key::Enter, Command::ProviderToggleExpand),
        (Key::Char(' '), Command::ProviderToggleExpand),
        (Key::Char('a'), Command::ProviderAdd),
        (Key::Char('e'), Command::ProviderEdit),
        (Key::Char('d'), Command::ProviderDelete),
        (Key::Char('D'), Command::ProviderDelete),
        (Key::Char('u'), Command::ProviderUpdate),
        (Key::Char('U'), Command::ProviderUpdateAll),
        (Key::Char('h'), Command::ProviderHealthCheck),
    ]
}

/// Keys of the connections tab.
pub open spec fn connection_keys() -> Seq<(Key, Command)> {
    seq![
        (Key::Up, Command::MoveUp),
        (Key::Down, Command::MoveDown),
        (Key::Home, Command::Home),
        (Key::End, Command::End),
        (Key::Char('c'), Command::ConnCloseAll),
        (Key::Char('C'), Command::ConnCloseAll),
        (Key::Char('d'), Command::ConnClose),
        (Key::Char('D'), Command::ConnClose),
        (Key::F(9), Command::ConnClose),
    ]
}

/// Keys of the rules tab.
pub open spec fn rule_keys() -> Seq<(Key, Command)> {
    seq![
        (Key::Up, Command::MoveUp),
        (Key::Down, Command::MoveDown),
        (Key::Home, Command::Home),
        (Key::End, Command::End),
    ]
}

/// Keys of the log tab.
pub open spec fn log_keys() -> Seq<(Key, Command)> {
    seq![
        (Key::Up, Command::MoveUp),
        (Key::Down, Command::MoveDown),
        (Key::Char('j'), Command::MoveUp),
        (Key::Char('k'), Command::MoveDown),
        (Key::PageUp, Command::PageUp),
        (Key::PageDown, Command::PageDown),
        (Key::Char('c'), Command::LogClear),
        (Key::Char('C'), Command::LogClear),
    ]
}

/// Keys of a confirmation popup.
pub open spec fn popup_keys() -> Seq<(Key, Command)> {
    seq![
        (Key::Enter, Command::Confirm),
        (Key::Esc, Command::Cancel),
        (Key::Char('q'), Command::Cancel),
    ]
}

/// Keys of the node picker.
pub open spec fn proxy_node_keys() -> Seq<(Key, Command)> {
    seq![
        (Key::Up, Command::MoveUp),
        (Key::Down, Command::MoveDown),
        (Key::Home, Command::Home),
        (Key::End, Command::End),
        (Key::Enter, Command::Confirm),
        (Key::Esc, Command::Cancel),
        (Key::Char(' '), Command::Confirm),
        (Key::Char('q'), Command::Cancel),
    ]
}

/// Keys of the subscription form.
pub open spec fn form_keys() -> Seq<(Key, Command)> {
    seq![
        (Key::Esc, Command::Cancel),
        (Key::Tab, Command::FormNextField),
        (Key::BackTab, Command::FormPrevField),
        (Key::Enter, Command::FormSubmit),
        (Key::Left, Command::FormLeft),
        (Key::Right, Command::FormRight),
        (Key::Backspace, Command::FormBackspace),
        (Key::Delete, Command::FormDelete),
    ]
}

/// Keys of the search line.
pub open spec fn search_keys() -> Seq<(Key, Command)> {
    seq![
        (Key::Esc, Command::SearchCancel),
        (Key::Enter, Command::SearchCancel),
        (Key::Backspace, Command::SearchBackspace),
    ]
}

/// The keys of a tab.
pub open spec fn tab_keys(tab: Tab) -> Seq<(Key, Command)> {
    match tab {
        Tab::Overview => Seq::empty(),
        Tab::Proxies => proxy_keys(),
        Tab::Providers => provider_keys(),
        Tab::Connections => connection_keys(),
        Tab::Rules => rule_keys(),
        Tab::Logs => log_keys(),
    }
}

/// The commands a key press issues: Ctrl+C always quits; in the search
/// line and the form other characters are typed; otherwise the mode's
/// keys apply, and in the normal mode the global keys before the tab's.
pub open spec fn resolved(press: KeyPress, tab: Tab, mode: AppModeKind) -> Seq<Command> {
    if press.key == Key::Char('c') && press.ctrl {
        seq![Command::Quit]
    } else {
        let found = match mode {
            AppModeKind::Search => match binding(search_keys(), press.key) {
                Some(c) => Some(c),
                None => match press.key {
                    Key::Char(ch) => Some(Command::SearchChar(ch)),
                    _ => None,
                },
            },
            AppModeKind::Form => match binding(form_keys(), press.key) {
                Some(c) => Some(c),
                None => match press.key {
                    Key::Char(ch) => Some(Command::FormChar(ch)),
                    _ => None,
                },
            },
            AppModeKind::Popup => binding(popup_keys(), press.key),
            AppModeKind::ProxyNodes => binding(proxy_node_keys(), press.key),
            AppModeKind::Normal => match binding(global_keys(), press.key) {
                Some(c) => Some(c),
                None => binding(tab_keys(tab), press.key),
            },
        };
        match found {
            Some(c) => seq![c],
            None => Seq::empty(),
        }
    }
}

/// The key tables.
#[derive(Debug)]
pub struct CommandRegistry {
    pub global: Vec<(Key, Command)>,
    pub proxies: Vec<(Key, Command)>,
    pub providers: Vec<(Key, Command)>,
    pub connections: Vec<(Key, Command)>,
    pub rules: Vec<(Key, Command)>,
    pub logs: Vec<(Key, Command)>,
    pub popup: Vec<(Key, Command)>,
    pub proxy_nodes: Vec<(Key, Command)>,
    pub form: Vec<(Key, Command)>,
    pub search: Vec<(Key, Command)>,
}

/// The tables hold the dashboard's bindings.
pub open spec fn registry_wf(r: CommandRegistry) -> bool {
    &&& r.global@ == global_keys()
    &&& r.proxies@ == proxy_keys()
    &&& r.providers@ == provider_keys()
    &&& r.connections@ == connection_keys()
    &&& r.rules@ == rule_keys()
    &&& r.logs@ == log_keys()
    &&& r.popup@ == popup_keys()
    &&& r.proxy_nodes@ == proxy_node_keys()
    &&& r.form@ == form_keys()
    &&& r.search@ == search_keys()
}

/// A table from a list of bindings, built one push at a time.
fn table_from(pairs: &[(Key, Command)]) -> (r: Vec<(Key, Command)>)
    ensures
        r@ == pairs@,
{
    let mut r: Vec<(Key, Command)> = Vec::new();
    let mut i: usize = 0;
    while i < pairs.len()
        invariant
            i <= pairs@.len(),
            r@ == pairs@.take(i as int),
        decreases pairs@.len() - i,
    {
        r.push(pairs[i]);
        i = i + 1;
        assert(r@ =~= pairs@.take(i as int));
    }
    assert(pairs@.take(pairs@.len() as int) =~= pairs@);
    r
}

/// The first command bound to `k` in `t`.
fn lookup(t: &Vec<(Key, Command)>, k: Key) -> (r: Option<Command>)
    ensures
        r == binding(t@, k),
{
    let mut i: usize = 0;
    assert(t@.subrange(0, t@.len() as int) =~= t@);
    while i < t.len()
        invariant
            i <= t@.len(),
            binding(t@, k) == binding(t@.subrange(i as int, t@.len() as int), k),
        decreases t@.len() - i,
    {
        assert(t@.subrange(i as int, t@.len() as int).drop_first() =~= t@.subrange(i + 1, t@.len() as int));
        if t[i].0 == k {
            return Some(t[i].1);
        }
        i = i + 1;
    }
    None
}

impl CommandRegistry {
    /// The dashboard's key bindings.
    pub fn new() -> (r: CommandRegistry)
        ensures
            registry_wf(r),
    {
        let global = table_from(
            &[
                (Key::Char('q'), Command::Quit),
                (Key::Esc, Command::Quit),
                (Key::Char('1'), Command::SwitchTab(Tab::Overview)),
                (Key::Char('2'), Command::SwitchTab(Tab::Proxies)),
                (Key::Char('3'), Command::SwitchTab(Tab::Providers)),
                (Key::Char('4'), Command::SwitchTab(Tab::Connections)),
                (Key::Char('5'), Command::SwitchTab(Tab::Rules)),
                (Key::Char('6'), Command::SwitchTab(Tab::Logs)),
                (Key::Char('r'), Command::Refresh),
                (Key::Char('R'), Command::Refresh),
                (Key::Char('m'), Command::CycleMode),
                (Key::Char('A'), Command::ToggleAutoUpdate),
                (Key::Tab, Command::NextTab),
                (Key::BackTab, Command::PrevTab),
                (Key::Char('/'), Command::ToggleSearch),
                (Key::F(4), Command::CycleSort),
                (Key::F(5), Command::Refresh),
                (Key::F(6), Command::CycleMode),
                (Key::F(10), Command::Quit),
            ],
        );
        let proxies = table_from(
            &[
                (Key::Up, Command::MoveUp),
                (Key::Down, Command::MoveDown),
                (Key::Home, Command::Home),
                (Key::End, Command::End),
                (Key::Enter, Command::ProxySelect),
                (Key::Char(' '), Command::ProxySelect),
                (Key::Char('s'), Command::ProxySpeedTest),
                (Key::Char('S'), Command::ProxySpeedTestAll),
                (Key::Left, Command::ProxyPrev),
                (Key::Right, Command::ProxyNext),
            ],
        );
        let providers = table_from(
            &[
                (Key::Up, Command::MoveUp),
                (Key::Down, Command::MoveDown),
                (Key::Home, Command::Home),
                (Key::End, Command::End),
                (Key::Enter, Command::ProviderToggleExpand),
                (Key::Char(' '), Command::ProviderToggleExpand),
                (Key::Char('a'), Command::ProviderAdd),
                (Key::Char('e'), Command::ProviderEdit),
                (Key::Char('d'), Command::ProviderDelete),
                (Key::Char('D'), Command::ProviderDelete),
                (Key::Char('u'), Command::ProviderUpdate),
                (Key::Char('U'), Command::ProviderUpdateAll),
                (Key::Char('h'), Command::ProviderHealthCheck),
            ],
        );
        let connections = table_from(
            &[
                (Key::Up, Command::MoveUp),
                (Key::Down, Command::MoveDown),
                (Key::Home, Command::Home),
                (Key::End, Command::End),
                (Key::Char('c'), Command::ConnCloseAll),
                (Key::Char('C'), Command::ConnCloseAll),
                (Key::Char('d'), Command::ConnClose),
                (Key::Char('D'), Command::ConnClose),
                (Key::F(9), Command::ConnClose),
            ],
        );
        let rules = table_from(
            &[
                (Key::Up, Command::MoveUp),
                (Key::Down, Command::MoveDown),
                (Key::Home, Command::Home),
                (Key::End, Command::End),
            ],
        );
        let logs = table_from(
            &[
                (Key::Up, Command::MoveUp),
                (Key::Down, Command::MoveDown),
                (Key::Char('j'), Command::MoveUp),
                (Key::Char('k'), Command::MoveDown),
                (Key::PageUp, Command::PageUp),
                (Key::PageDown, Command::PageDown),
                (Key::Char('c'), Command::LogClear),
                (Key::Char('C'), Command::LogClear),
            ],
        );
        let popup = table_from(
            &[(Key::Enter, Command::Confirm), (Key::Esc, Command::Cancel), (Key::Char('q'), Command::Cancel)],
        );
        let proxy_nodes = table_from(
            &[
                (Key::Up, Command::MoveUp),
                (Key::Down, Command::MoveDown),
                (Key::Home, Command::Home),
                (Key::End, Command::End),
                (Key::Enter, Command::Confirm),
                (Key::Esc, Command::Cancel),
                (Key::Char(' '), Command::Confirm),
                (Key::Char('q'), Command::Cancel),
            ],
        );
        let form = table_from(
            &[
                (Key::Esc, Command::Cancel),
                (Key::Tab, Command::FormNextField),
                (Key::BackTab, Command::FormPrevField),
                (Key::Enter, Command::FormSubmit),
                (Key::Left, Command::FormLeft),
                (Key::Right, Command::FormRight),
                (Key::Backspace, Command::FormBackspace),
                (Key::Delete, Command::FormDelete),
            ],
        );
        let search = table_from(
            &[
                (Key::Esc, Command::SearchCancel),
                (Key::Enter, Command::SearchCancel),
                (Key::Backspace, Command::SearchBackspace),
            ],
        );
        let r = CommandRegistry {
            global,
            proxies,
            providers,
            connections,
            rules,
            logs,
            popup,
            proxy_nodes,
            form,
            search,
        };
        assert(r.global@ =~= global_keys());
        assert(r.proxies@ =~= proxy_keys());
        assert(r.providers@ =~= provider_keys());
        assert(r.connections@ =~= connection_keys());
        assert(r.rules@ =~= rule_keys());
        assert(r.logs@ =~= log_keys());
        assert(r.popup@ =~= popup_keys());
        assert(r.proxy_nodes@ =~= proxy_node_keys());
        assert(r.form@ =~= form_keys());
        assert(r.search@ =~= search_keys());
        r
    }

    /// The table of a tab's keys.
    fn tab_table(&self, tab: Tab) -> (r: Option<&Vec<(Key, Command)>>)
        requires
            registry_wf(*self),
        ensures
            match r {
                Some(t) => t@ == tab_keys(tab),
                None => tab_keys(tab).len() == 0,
            },
    {
        match tab {
            Tab::Overview => None,
            Tab::Proxies => Some(&self.proxies),
            Tab::Providers => Some(&self.providers),
            Tab::Connections => Some(&self.connections),
            Tab::Rules => Some(&self.rules),
            Tab::Logs => Some(&self.logs),
        }
    }

    /// The commands issued by a key press in `tab` and `mode`.
    pub fn resolve(&self, press: KeyPress, tab: Tab, mode: AppModeKind) -> (r: Vec<Command>)
        requires
            registry_wf(*self),
        ensures
            r@ == resolved(press, tab, mode),
    {
        let mut cmds: Vec<Command> = Vec::new();
        if press.key == Key::Char('c') && press.ctrl {
            cmds.push(Command::Quit);
            assert(cmds@ =~= seq![Command::Quit]);
            return cmds;
        }
        let found = match mode {
            AppModeKind::Search => match lookup(&self.search, press.key) {
                Some(c) => Some(c),
                None => match press.key {
                    Key::Char(ch) => Some(Command::SearchChar(ch)),
                    _ => None,
                },
            },
            AppModeKind::Form => match lookup(&self.form, press.key) {
                Some(c) => Some(c),
                None => match press.key {
                    Key::Char(ch) => Some(Command::FormChar(ch)),
                    _ => None,
                },
            },
            AppModeKind::Popup => lookup(&self.popup, press.key),
            AppModeKind::ProxyNodes => lookup(&self.proxy_nodes, press.key),
            AppModeKind::Normal => match lookup(&self.global, press.key) {
                Some(c) => Some(c),
                None => match self.tab_table(tab) {
                    Some(t) => lookup(t, press.key),
                    None => None,
                },
            },
        };
        match found {
            Some(c) => {
                cmds.push(c);
                assert(cmds@ =~= seq![c]);
            },
            None => {
                assert(cmds@ =~= Seq::<Command>::empty());
            },
        }
        cmds
    }
}

/// Ctrl+C quits, whatever the tab and mode.
pub proof fn law_ctrl_c_always_quits(tab: Tab, mode: AppModeKind)
    ensures
        resolved(KeyPress { key: Key::Char('c'), ctrl: true }, tab, mode) == seq![Command::Quit],
{
}

/// In the search line and the form, a character with no binding is typed.
pub proof fn law_unbound_characters_are_typed(ch: char, tab: Tab)
    requires
        binding(search_keys(), Key::Char(ch)) is None,
        binding(form_keys(), Key::Char(ch)) is None,
    ensures
        resolved(KeyPress { key: Key::Char(ch), ctrl: false }, tab, AppModeKind::Search) == seq![
            Command::SearchChar(ch),
        ],
        resolved(KeyPress { key: Key::Char(ch), ctrl: false }, tab, AppModeKind::Form) == seq![
            Command::FormChar(ch),
        ],
{
}

/// A key press issues at most one command.
pub proof fn law_at_most_one_command(press: KeyPress, tab: Tab, mode: AppModeKind)
    ensures
        resolved(press, tab, mode).len() <= 1,
{
}

} // verus!
