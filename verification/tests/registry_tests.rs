use clash_tui::commands::command::Command;
use clash_tui::commands::registry::{AppModeKind, CommandRegistry, Key, KeyPress};
use clash_tui::ui::Tab;

fn press(key: Key) -> KeyPress {
    KeyPress { key, ctrl: false }
}

#[test]
fn ctrl_c_quits_in_every_mode() {
    let r = CommandRegistry::new();
    let ctrl_c = KeyPress { key: Key::Char('c'), ctrl: true };
    for mode in [
        AppModeKind::Normal,
        AppModeKind::Search,
        AppModeKind::Form,
        AppModeKind::Popup,
        AppModeKind::ProxyNodes,
    ] {
        assert_eq!(r.resolve(ctrl_c, Tab::Connections, mode), vec![Command::Quit]);
    }
}

#[test]
fn digits_switch_tabs_in_normal_mode() {
    let r = CommandRegistry::new();
    assert_eq!(
        r.resolve(press(Key::Char('3')), Tab::Overview, AppModeKind::Normal),
        vec![Command::SwitchTab(Tab::Providers)]
    );
    assert_eq!(
        r.resolve(press(Key::Char('6')), Tab::Rules, AppModeKind::Normal),
        vec![Command::SwitchTab(Tab::Logs)]
    );
}

#[test]
fn tab_keys_depend_on_the_tab() {
    let r = CommandRegistry::new();
    assert_eq!(
        r.resolve(press(Key::Char('d')), Tab::Providers, AppModeKind::Normal),
        vec![Command::ProviderDelete]
    );
    assert_eq!(
        r.resolve(press(Key::Char('d')), Tab::Connections, AppModeKind::Normal),
        vec![Command::ConnClose]
    );
    assert_eq!(
        r.resolve(press(Key::Char('c')), Tab::Logs, AppModeKind::Normal),
        vec![Command::LogClear]
    );
    assert!(r.resolve(press(Key::Char('d')), Tab::Overview, AppModeKind::Normal).is_empty());
    // Global keys come first.
    assert_eq!(
        r.resolve(press(Key::Char('q')), Tab::Logs, AppModeKind::Normal),
        vec![Command::Quit]
    );
}

#[test]
fn typing_in_form_and_search() {
    let r = CommandRegistry::new();
    assert_eq!(
        r.resolve(press(Key::Char('q')), Tab::Providers, AppModeKind::Form),
        vec![Command::FormChar('q')]
    );
    assert_eq!(
        r.resolve(press(Key::Esc), Tab::Providers, AppModeKind::Form),
        vec![Command::Cancel]
    );
    assert_eq!(
        r.resolve(press(Key::Char('x')), Tab::Proxies, AppModeKind::Search),
        vec![Command::SearchChar('x')]
    );
    assert_eq!(
        r.resolve(press(Key::Enter), Tab::Proxies, AppModeKind::Search),
        vec![Command::SearchCancel]
    );
    assert!(r.resolve(press(Key::Up), Tab::Proxies, AppModeKind::Search).is_empty());
}

#[test]
fn popups_take_only_their_keys() {
    let r = CommandRegistry::new();
    assert_eq!(
        r.resolve(press(Key::Enter), Tab::Providers, AppModeKind::Popup),
        vec![Command::Confirm]
    );
    assert!(r.resolve(press(Key::Char('1')), Tab::Providers, AppModeKind::Popup).is_empty());
    assert_eq!(
        r.resolve(press(Key::Char(' ')), Tab::Proxies, AppModeKind::ProxyNodes),
        vec![Command::Confirm]
    );
    assert_eq!(
        r.resolve(press(Key::Home), Tab::Proxies, AppModeKind::ProxyNodes),
        vec![Command::Home]
    );
}

#[test]
fn log_keys_scroll_as_the_help_says() {
    let r = CommandRegistry::new();
    assert_eq!(r.resolve(press(Key::Char('j')), Tab::Logs, AppModeKind::Normal), vec![Command::MoveUp]);
    assert_eq!(r.resolve(press(Key::Char('k')), Tab::Logs, AppModeKind::Normal), vec![Command::MoveDown]);
}

#[test]
fn left_and_right_switch_nodes_on_the_proxies_tab() {
    let r = CommandRegistry::new();
    assert_eq!(r.resolve(press(Key::Left), Tab::Proxies, AppModeKind::Normal), vec![Command::ProxyPrev]);
    assert_eq!(r.resolve(press(Key::Right), Tab::Proxies, AppModeKind::Normal), vec![Command::ProxyNext]);
}
