use easytier_tui::model::{Action, Key, MenuPage};
use easytier_tui::state::AppState;

fn fresh() -> AppState {
    AppState::new(None, "1.2.3".to_string())
}

#[test]
fn refresh_asks_for_what_the_menu_entry_asked_for() {
    for sel in 4..=12 {
        let mut s = fresh();
        s.selected = sel;
        let on_enter = s.enter();
        let on_refresh = s.handle_key(Key::Char('r'));
        assert_ne!(on_enter, Action::Nothing);
        assert_eq!(on_enter, on_refresh);
    }
}

#[test]
fn cursor_stays_on_the_menu_along_a_key_run() {
    let mut s = fresh();
    let keys = [
        Key::Up, Key::Down, Key::Down, Key::Enter, Key::Esc, Key::Char('z'), Key::Down,
        Key::Down, Key::Down, Key::Down, Key::Down, Key::Down, Key::Down, Key::Down, Key::Down,
        Key::Down, Key::Down, Key::Down, Key::Down, Key::Down, Key::Down, Key::Backspace,
        Key::Char('r'), Key::Up, Key::Other,
    ];
    for k in keys {
        s.handle_key(k);
        assert!(s.selected < s.items.len());
        assert_eq!(s.items.len(), 14);
    }
    assert_eq!(s.selected, 12);
}

#[test]
fn key_presses_leave_loaded_data_alone() {
    let mut s = fresh();
    s.config_content = "cfg".to_string();
    s.service_running = true;
    for k in [Key::Down, Key::Enter, Key::Esc, Key::Char('b'), Key::Up, Key::Char('q')] {
        s.handle_key(k);
        assert_eq!(s.config_content, "cfg");
        assert!(s.service_running);
        assert_eq!(s.install_path, "~/..easytier");
    }
}

#[test]
fn going_back_twice_is_going_back_once() {
    let mut s = fresh();
    s.current_page = MenuPage::Notes;
    s.back();
    let (page, status) = (s.current_page, s.status_message.clone());
    s.back();
    assert_eq!(s.current_page, page);
    assert_eq!(s.status_message, status);
}

#[test]
fn enter_then_back_keeps_cursor() {
    let mut s = fresh();
    s.selected = 7;
    s.enter();
    assert_eq!(s.current_page, MenuPage::NodeInfo);
    s.back();
    assert_eq!(s.selected, 7);
    assert_eq!(s.current_page, MenuPage::Main);
}

#[test]
fn up_then_down_returns() {
    let mut s = fresh();
    s.selected = 5;
    s.up();
    s.down();
    assert_eq!(s.selected, 5);
    s.selected = 0;
    s.down();
    s.up();
    assert_eq!(s.selected, 0);
}

#[test]
fn typing_then_erasing_restores_the_input() {
    let mut s = fresh();
    s.input_value = "ab".to_string();
    s.handle_input('c');
    s.handle_backspace();
    assert_eq!(s.input_value, "ab");
}

#[test]
fn submitting_then_back_lands_on_main_menu() {
    let mut s = fresh();
    s.selected = 3;
    s.enter();
    for c in "easytier://abc".chars() {
        s.handle_input(c);
    }
    s.submit_input();
    s.back();
    assert_eq!(s.current_page, MenuPage::Main);
    assert_eq!(s.input_value, "");
    assert_eq!(s.status_message, "返回主菜单");
}
