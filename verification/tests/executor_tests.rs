use clash_tui::commands::command::Command;
use clash_tui::commands::executor::CommandExecutor;
use clash_tui::config::ConfigManager;
use clash_tui::context::{AppContext, UiState};
use clash_tui::state::AppState;
use clash_tui::ui::{Popup, Tab};

fn test_context() -> AppContext {
    AppContext {
        state: AppState::new(),
        ui: UiState::default(),
        config_manager: ConfigManager::new(Some("config.yaml".to_string()), String::new()),
        running: true,
        connected: false,
    }
}

#[test]
fn test_provider_add_sets_up_form() {
    let mut ctx = test_context();
    CommandExecutor::execute(&Command::ProviderAdd, &mut ctx);

    assert!(matches!(ctx.ui.popup, Popup::AddProvider));
    assert_eq!(ctx.ui.input_fields.len(), 3);
    assert_eq!(ctx.ui.input_fields[0], "");
    assert_eq!(ctx.ui.input_fields[1], "");
    assert_eq!(ctx.ui.input_fields[2], "86400");
    assert_eq!(ctx.ui.input_field_index, 0);
    assert_eq!(ctx.ui.input_cursor, 0);
}

#[test]
fn test_form_char_inserts_at_cursor() {
    let mut ctx = test_context();
    CommandExecutor::execute(&Command::ProviderAdd, &mut ctx);

    CommandExecutor::execute(&Command::FormChar('h'), &mut ctx);
    CommandExecutor::execute(&Command::FormChar('e'), &mut ctx);
    CommandExecutor::execute(&Command::FormChar('l'), &mut ctx);
    CommandExecutor::execute(&Command::FormChar('l'), &mut ctx);
    CommandExecutor::execute(&Command::FormChar('o'), &mut ctx);

    assert_eq!(ctx.ui.input_fields[0], "hello");
    assert_eq!(ctx.ui.input_cursor, 5);
}

#[test]
fn test_form_char_inserts_in_middle() {
    let mut ctx = test_context();
    CommandExecutor::execute(&Command::ProviderAdd, &mut ctx);

    CommandExecutor::execute(&Command::FormChar('a'), &mut ctx);
    CommandExecutor::execute(&Command::FormChar('c'), &mut ctx);
    CommandExecutor::execute(&Command::FormLeft, &mut ctx);
    CommandExecutor::execute(&Command::FormChar('b'), &mut ctx);

    assert_eq!(ctx.ui.input_fields[0], "abc");
    assert_eq!(ctx.ui.input_cursor, 2);
}

#[test]
fn test_form_backspace_deletes() {
    let mut ctx = test_context();
    CommandExecutor::execute(&Command::ProviderAdd, &mut ctx);

    CommandExecutor::execute(&Command::FormChar('a'), &mut ctx);
    CommandExecutor::execute(&Command::FormChar('b'), &mut ctx);
    CommandExecutor::execute(&Command::FormChar('c'), &mut ctx);
    CommandExecutor::execute(&Command::FormBackspace, &mut ctx);

    assert_eq!(ctx.ui.input_fields[0], "ab");
    assert_eq!(ctx.ui.input_cursor, 2);
}

#[test]
fn test_form_backspace_at_start_does_nothing() {
    let mut ctx = test_context();
    CommandExecutor::execute(&Command::ProviderAdd, &mut ctx);

    CommandExecutor::execute(&Command::FormBackspace, &mut ctx);

    assert_eq!(ctx.ui.input_fields[0], "");
    assert_eq!(ctx.ui.input_cursor, 0);
}

#[test]
fn test_form_next_prev_field_cycles() {
    let mut ctx = test_context();
    CommandExecutor::execute(&Command::ProviderAdd, &mut ctx);

    assert_eq!(ctx.ui.input_field_index, 0);

    CommandExecutor::execute(&Command::FormNextField, &mut ctx);
    assert_eq!(ctx.ui.input_field_index, 1);

    CommandExecutor::execute(&Command::FormNextField, &mut ctx);
    assert_eq!(ctx.ui.input_field_index, 2);

    CommandExecutor::execute(&Command::FormNextField, &mut ctx);
    assert_eq!(ctx.ui.input_field_index, 0);

    CommandExecutor::execute(&Command::FormPrevField, &mut ctx);
    assert_eq!(ctx.ui.input_field_index, 2);
}

#[test]
fn test_form_cursor_left_right() {
    let mut ctx = test_context();
    CommandExecutor::execute(&Command::ProviderAdd, &mut ctx);

    CommandExecutor::execute(&Command::FormChar('a'), &mut ctx);
    CommandExecutor::execute(&Command::FormChar('b'), &mut ctx);
    assert_eq!(ctx.ui.input_cursor, 2);

    CommandExecutor::execute(&Command::FormLeft, &mut ctx);
    assert_eq!(ctx.ui.input_cursor, 1);

    CommandExecutor::execute(&Command::FormRight, &mut ctx);
    assert_eq!(ctx.ui.input_cursor, 2);

    // Can't go past end
    CommandExecutor::execute(&Command::FormRight, &mut ctx);
    assert_eq!(ctx.ui.input_cursor, 2);

    // Can't go before start
    CommandExecutor::execute(&Command::FormLeft, &mut ctx);
    CommandExecutor::execute(&Command::FormLeft, &mut ctx);
    CommandExecutor::execute(&Command::FormLeft, &mut ctx);
    assert_eq!(ctx.ui.input_cursor, 0);
}

#[test]
fn test_form_multibyte_characters() {
    let mut ctx = test_context();
    CommandExecutor::execute(&Command::ProviderAdd, &mut ctx);

    CommandExecutor::execute(&Command::FormChar('中'), &mut ctx);
    CommandExecutor::execute(&Command::FormChar('文'), &mut ctx);

    assert_eq!(ctx.ui.input_fields[0], "中文");
    assert_eq!(ctx.ui.input_cursor, 2);

    CommandExecutor::execute(&Command::FormLeft, &mut ctx);
    assert_eq!(ctx.ui.input_cursor, 1);

    CommandExecutor::execute(&Command::FormChar('A'), &mut ctx);
    assert_eq!(ctx.ui.input_fields[0], "中A文");
    assert_eq!(ctx.ui.input_cursor, 2);

    CommandExecutor::execute(&Command::FormBackspace, &mut ctx);
    assert_eq!(ctx.ui.input_fields[0], "中文");
    assert_eq!(ctx.ui.input_cursor, 1);
}

#[test]
fn test_form_delete_removes_forward() {
    let mut ctx = test_context();
    CommandExecutor::execute(&Command::ProviderAdd, &mut ctx);

    CommandExecutor::execute(&Command::FormChar('a'), &mut ctx);
    CommandExecutor::execute(&Command::FormChar('b'), &mut ctx);
    CommandExecutor::execute(&Command::FormChar('c'), &mut ctx);

    CommandExecutor::execute(&Command::FormLeft, &mut ctx);
    CommandExecutor::execute(&Command::FormLeft, &mut ctx);
    CommandExecutor::execute(&Command::FormLeft, &mut ctx);
    assert_eq!(ctx.ui.input_cursor, 0);

    CommandExecutor::execute(&Command::FormDelete, &mut ctx);
    assert_eq!(ctx.ui.input_fields[0], "bc");
    assert_eq!(ctx.ui.input_cursor, 0);
}

#[test]
fn test_cancel_resets_form() {
    let mut ctx = test_context();
    CommandExecutor::execute(&Command::ProviderAdd, &mut ctx);
    CommandExecutor::execute(&Command::FormChar('x'), &mut ctx);

    CommandExecutor::execute(&Command::Cancel, &mut ctx);

    assert!(matches!(ctx.ui.popup, Popup::Hidden));
    assert_eq!(ctx.ui.input_fields[0], "");
    assert_eq!(ctx.ui.input_field_index, 0);
    assert_eq!(ctx.ui.input_cursor, 0);
}

#[test]
fn typing_then_backspace_restores_the_field() {
    let mut ctx = test_context();
    CommandExecutor::execute(&Command::ProviderAdd, &mut ctx);
    CommandExecutor::execute(&Command::FormChar('a'), &mut ctx);
    CommandExecutor::execute(&Command::FormChar('b'), &mut ctx);
    CommandExecutor::execute(&Command::FormLeft, &mut ctx);
    let before = ctx.ui.input_fields[0].clone();
    let cursor = ctx.ui.input_cursor;
    CommandExecutor::execute(&Command::FormChar('z'), &mut ctx);
    assert_eq!(ctx.ui.input_fields[0], "azb");
    CommandExecutor::execute(&Command::FormBackspace, &mut ctx);
    assert_eq!(ctx.ui.input_fields[0], before);
    assert_eq!(ctx.ui.input_cursor, cursor);
}

#[test]
fn next_then_previous_tab_comes_back() {
    let mut ctx = test_context();
    CommandExecutor::execute(&Command::SwitchTab(Tab::Logs), &mut ctx);
    assert_eq!(ctx.ui.current_tab, Tab::Logs);
    assert_eq!(ctx.ui.tab_index, 5);
    CommandExecutor::execute(&Command::NextTab, &mut ctx);
    assert_eq!(ctx.ui.current_tab, Tab::Overview);
    assert_eq!(ctx.ui.tab_index, 0);
    CommandExecutor::execute(&Command::PrevTab, &mut ctx);
    assert_eq!(ctx.ui.current_tab, Tab::Logs);
}

#[test]
fn quit_stops_the_dashboard() {
    let mut ctx = test_context();
    assert!(ctx.running);
    CommandExecutor::execute(&Command::Quit, &mut ctx);
    assert!(!ctx.running);
}
