use dio::app::{App, InputMode, Key, PROGRESS_SCALE};
use dio::list::{ListName, StatefulList};
use dio::store::DB;
use dio::tabs::{default_tabs, TabMode, TabsState};

fn demo_db() -> DB {
    let facts: Vec<(u32, String)> = (1..=12u32)
        .map(|i| (i, format!("Fact number {i}. More detail follows")))
        .collect();
    let principles: Vec<(u32, String)> = (1..=14u32)
        .map(|i| (i, format!("Principle number {i}. More detail follows")))
        .collect();
    DB { facts, principles }
}

fn demo_app() -> App {
    let db = demo_db();
    App::new(String::from("Dio App"), &db, true)
}

#[test]
fn tab_cycle_returns_to_start() {
    // Advancing through n tabs n times is the identity, for each start.
    let mut tabs: TabsState<TabMode> = TabsState::new(default_tabs());
    for start in 0..3usize {
        tabs.index = start;
        for _ in 0..3 {
            tabs.next();
        }
        assert_eq!(tabs.index, start);
    }
}

#[test]
fn select_next_cycles_through_list() {
    // From no selection, n steps land on the last index and n + 1 return to 0.
    let items: Vec<u8> = vec![0u8; 5];
    let mut list: StatefulList<u8> = StatefulList::with_items(items, ListName::Facts);
    for _ in 0..5 {
        list.next();
    }
    assert_eq!(list.selected, Some(4));
    list.next();
    assert_eq!(list.selected, Some(0));
    list.previous();
    assert_eq!(list.selected, Some(4));
}

#[test]
fn empty_list_cursor_is_a_no_op() {
    let items: Vec<u8> = Vec::new();
    let mut list: StatefulList<u8> = StatefulList::with_items(items, ListName::Principles);
    list.next();
    assert_eq!(list.selected, None);
    list.previous();
    assert_eq!(list.selected, None);
    list.unselect();
    assert_eq!(list.selected, None);
}

#[test]
fn previous_tab_then_next_twice_lands_on_facts() {
    // 3 tabs [Home, Facts, Principles], starting index 0.
    let mut app = demo_app();
    assert_eq!(app.tabs.index, 0);
    app.on_left();
    assert_eq!(app.tabs.index, 2);
    app.on_right();
    app.on_right();
    assert_eq!(app.tabs.index, 1);
    assert_eq!(app.current_tab_mode(), TabMode::Facts);
    assert_eq!(app.selected_list, ListName::Facts);
}

#[test]
fn select_previous_on_facts_updates_preview() {
    // Moving the cursor on the facts list mirrors the selected item into the
    // preview; retreating from the first index wraps to the last.
    let mut app = demo_app();
    app.on_right();
    assert_eq!(app.current_tab_mode(), TabMode::Facts);
    assert_eq!(app.list_facts.items.len(), 12);
    assert_eq!(app.list_facts.selected, None);
    app.on_up();
    assert_eq!(app.list_facts.selected, Some(0));
    assert_eq!(app.preview_item, app.list_facts.items[0]);
    app.on_up();
    assert_eq!(app.list_facts.selected, Some(11));
    assert_eq!(app.preview_item, "Fact number 12. More detail follows");
}

#[test]
fn popup_toggle_restores_active_list() {
    // Popup closed, active list Facts; toggling opens the popup on the help
    // list, Escape closes it and restores Facts.
    let mut app = demo_app();
    app.on_right();
    assert_eq!(app.selected_list, ListName::Facts);
    app.on_key('?');
    assert!(app.show_help_popup);
    assert_eq!(app.selected_list, ListName::Help);
    app.escape();
    assert!(!app.show_help_popup);
    assert_eq!(app.selected_list, ListName::Facts);
}

#[test]
fn popup_toggled_twice_restores_active_list() {
    let mut app = demo_app();
    app.on_right();
    app.on_right();
    assert_eq!(app.selected_list, ListName::Principles);
    app.toggle_popup();
    app.toggle_popup();
    assert!(!app.show_help_popup);
    assert_eq!(app.selected_list, ListName::Principles);
}

#[test]
fn tab_change_closes_popup() {
    let mut app = demo_app();
    app.toggle_popup();
    assert!(app.show_help_popup);
    app.on_right();
    assert!(!app.show_help_popup);
}

#[test]
fn popup_routes_cursor_to_help_list() {
    let mut app = demo_app();
    app.toggle_popup();
    app.on_down();
    assert_eq!(app.list_help.selected, Some(0));
    app.on_down();
    assert_eq!(app.list_help.selected, Some(1));
    app.on_up();
    assert_eq!(app.list_help.selected, Some(0));
    assert_eq!(app.list_facts.selected, None);
}

#[test]
fn editing_mode_records_message() {
    // Editing mode, empty buffer: type 'h', 'i', then Enter.
    let mut app = demo_app();
    app.on_key_event(Key::Char('e'));
    assert_eq!(app.input_mode, InputMode::Editing);
    assert_eq!(app.input, "");
    app.on_key_event(Key::Char('h'));
    app.on_key_event(Key::Char('i'));
    assert_eq!(app.input, "hi");
    app.on_key_event(Key::Enter);
    assert!(app.messages.contains(&String::from("hi")));
    assert_eq!(app.input, "");
}

#[test]
fn editing_backspace_and_escape() {
    let mut app = demo_app();
    app.on_key_event(Key::Char('e'));
    app.on_key_event(Key::Char('h'));
    app.on_key_event(Key::Char('i'));
    app.on_key_event(Key::Backspace);
    assert_eq!(app.input, "h");
    app.on_key_event(Key::Esc);
    assert_eq!(app.input_mode, InputMode::Normal);
    assert_eq!(app.input, "h");
    app.on_key_event(Key::Backspace);
    assert_eq!(app.input, "h");
}

#[test]
fn quit_key_sets_flag() {
    let mut app = demo_app();
    assert!(!app.should_quit);
    app.on_key_event(Key::Char('q'));
    assert!(app.should_quit);
}

#[test]
fn vi_bindings_navigate_tabs() {
    let mut app = demo_app();
    app.on_key_event(Key::Char('l'));
    assert_eq!(app.tabs.index, 1);
    app.on_key_event(Key::Char('h'));
    assert_eq!(app.tabs.index, 0);
    app.on_key_event(Key::Char('j'));
    assert_eq!(app.list_tabs.selected, Some(0));
    app.on_key_event(Key::Char('k'));
    assert_eq!(app.list_tabs.selected, Some(2));
}

#[test]
fn enter_jumps_to_selected_tab() {
    let mut app = demo_app();
    assert_eq!(app.current_tab_mode(), TabMode::Home);
    app.on_key_event(Key::Down);
    app.on_key_event(Key::Down);
    assert_eq!(app.list_tabs.selected, Some(1));
    app.on_key_event(Key::Enter);
    assert_eq!(app.tabs.index, 1);
    assert_eq!(app.current_tab_mode(), TabMode::Facts);
}

#[test]
fn escape_unselects_active_list() {
    let mut app = demo_app();
    app.on_right();
    app.on_down();
    assert_eq!(app.list_facts.selected, Some(0));
    app.on_key_event(Key::Esc);
    assert_eq!(app.list_facts.selected, None);
}

#[test]
fn escape_without_active_list_is_a_no_op() {
    let mut app = demo_app();
    assert_eq!(app.selected_list, ListName::NoList);
    app.escape();
    assert_eq!(app.selected_list, ListName::NoList);
    assert!(!app.should_quit);
}

#[test]
fn new_app_starts_clean() {
    let app = demo_app();
    assert_eq!(app.title, "Dio App");
    assert!(!app.should_quit);
    assert!(!app.show_help_popup);
    assert_eq!(app.tabs.index, 0);
    assert_eq!(app.list_tabs.items, vec!["Home", "Facts", "Principles"]);
    assert_eq!(app.list_help.items.len(), 5);
    assert_eq!(app.list_help.items[0], "q - Exit");
    assert_eq!(app.list_help.items[4], "Right - Next tab");
    assert_eq!(app.selected_list, ListName::NoList);
    assert_eq!(app.progress, 0);
    assert!(app.messages.is_empty());
    assert!(app.enhanced_graphics);
}

#[test]
fn thousand_ticks_wrap_progress_to_start() {
    // With the fixed step of one thousandth, 1000 ticks add exactly one full
    // scale: progress returns to (1000 * step) mod scale == 0 and stays in
    // range throughout.
    let mut app = demo_app();
    for _ in 0..1000 {
        app.on_tick();
        assert!(app.progress < PROGRESS_SCALE);
    }
    assert_eq!(app.progress, 0);
    for _ in 0..250 {
        app.on_tick();
    }
    assert_eq!(app.progress, 250);
}

#[test]
fn tick_refreshes_local_time() {
    let mut app = demo_app();
    assert_eq!(app.time_local, "");
    app.on_tick();
    assert!(!app.time_local.is_empty());
}

#[test]
fn tab_labels() {
    assert_eq!(TabMode::Home.label(), "Home");
    assert_eq!(TabMode::Facts.label(), "Facts");
    assert_eq!(TabMode::Principles.label(), "Principles");
    assert_eq!(TabMode::Input.label(), "Input");
    assert_eq!(TabMode::PopupHelp.label(), "Help");
}

#[test]
fn cur_list_item_idx_reports_tab_index() {
    let mut tabs: TabsState<TabMode> = TabsState::new(default_tabs());
    tabs.next();
    assert_eq!(tabs.cur_list_item_idx(), 1);
}
