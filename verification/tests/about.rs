use compact_bar::about::{
    App, BareKey, CommandQuery, Event, KeyPress, Mouse, PaneCoordinates, Reaction, TabSize,
    UI_COLUMNS, UI_ROWS,
};
use compact_bar::prefix::InputMode;

fn loaded(is_release_notes: Option<&str>) -> App {
    let mut app = App::default();
    app.load(is_release_notes, 7, "0.43.1".to_string());
    app
}

fn press(bare_key: BareKey, has_modifiers: bool) -> KeyPress {
    KeyPress { bare_key, has_modifiers }
}

#[test]
fn new_pane_knows_nothing_yet() {
    let app = App::default();
    assert_eq!(
        app,
        App {
            link_executable: String::new(),
            zellij_version: String::new(),
            base_mode: InputMode::Normal,
            tab_rows: 0,
            tab_columns: 0,
            own_plugin_id: None,
            is_release_notes: false,
            is_main_screen: true,
        }
    );
    assert_eq!(app.change_own_title(), None);
}

#[test]
fn release_notes_are_shown_only_where_the_setting_reads_true() {
    assert!(loaded(Some("true")).is_release_notes);
    assert!(!loaded(Some("True")).is_release_notes);
    assert!(!loaded(Some("false")).is_release_notes);
    assert!(!loaded(Some("")).is_release_notes);
    assert!(!loaded(None).is_release_notes);
}

#[test]
fn loading_takes_the_number_and_the_version() {
    let mut app = App::default();
    app.page_changed(false);
    app.load(None, 7, "0.43.1".to_string());
    assert_eq!(app.own_plugin_id, Some(7));
    assert_eq!(app.zellij_version, "0.43.1");
    assert!(app.is_main_screen);
}

#[test]
fn title_tells_the_release_notes_from_the_rest() {
    assert_eq!(loaded(None).change_own_title(), Some((7, "About Zellij".to_string())));
    assert_eq!(
        loaded(Some("true")).change_own_title(),
        Some((7, "Release Notes 0.43.1".to_string()))
    );
}

#[test]
fn two_commands_are_asked_for_the_program_that_opens_links() {
    assert_eq!(
        App::default().query_link_executable(),
        vec![
            CommandQuery { command: "xdg-open", argument: "--help", context_key: "xdg_open_cli" },
            CommandQuery { command: "open", argument: "--help", context_key: "open_cli" },
        ]
    );
}

#[test]
fn link_executable_is_taken_as_given() {
    let mut app = loaded(None);
    app.update_link_executable("open".to_string());
    assert_eq!(app, App { link_executable: "open".to_string(), ..loaded(None) });
}

#[test]
fn base_mode_is_drawn_again_only_when_it_changes() {
    let mut app = loaded(None);
    assert!(!app.update_base_mode(InputMode::Normal));
    assert!(app.update_base_mode(InputMode::Locked));
    assert_eq!(app.base_mode, InputMode::Locked);
    assert!(!app.update_base_mode(InputMode::Locked));
    assert_eq!(app.update(Event::ModeUpdate(Some(InputMode::Pane))), Reaction::Render);
    assert_eq!(app.update(Event::ModeUpdate(Some(InputMode::Pane))), Reaction::Idle);
    assert_eq!(app.update(Event::ModeUpdate(None)), Reaction::Idle);
    assert_eq!(app.base_mode, InputMode::Pane);
}

#[test]
fn click_and_hover_go_to_the_page() {
    let app = loaded(None);
    assert_eq!(
        app.handle_mouse_event(Mouse::LeftClick(3, 14)),
        Reaction::ClickOnPage { column: 14, line: 3 }
    );
    assert_eq!(
        app.handle_mouse_event(Mouse::Hover(0, 2)),
        Reaction::HoverOnPage { column: 2, line: 0 }
    );
    assert_eq!(app.handle_mouse_event(Mouse::Other), Reaction::Idle);
}

#[test]
fn negative_line_wraps_around() {
    let app = loaded(None);
    assert_eq!(
        app.handle_mouse_event(Mouse::LeftClick(-1, 5)),
        Reaction::ClickOnPage { column: 5, line: usize::MAX }
    );
    assert_eq!(
        app.handle_mouse_event(Mouse::Hover(isize::MIN, 5)),
        Reaction::HoverOnPage { column: 5, line: isize::MIN as usize }
    );
    assert_eq!(
        app.handle_mouse_event(Mouse::Hover(-20, 5)),
        Reaction::HoverOnPage { column: 5, line: -20isize as usize }
    );
}

#[test]
fn enter_selects_and_escape_closes_or_leads_back() {
    let mut app = loaded(None);
    assert_eq!(app.handle_key(press(BareKey::Enter, false)), Reaction::SelectOnPage);
    assert_eq!(app.handle_key(press(BareKey::Esc, false)), Reaction::CloseSelf);
    app.page_changed(false);
    assert_eq!(app.handle_key(press(BareKey::Enter, false)), Reaction::SelectOnPage);
    assert!(!app.is_main_screen);
    assert_eq!(app.handle_key(press(BareKey::Esc, false)), Reaction::ShowMainScreen);
    assert!(app.is_main_screen);
    assert_eq!(app.handle_key(press(BareKey::Esc, false)), Reaction::CloseSelf);
}

#[test]
fn keys_with_modifiers_and_other_keys_go_to_the_page() {
    let mut app = loaded(None);
    assert_eq!(app.handle_key(press(BareKey::Enter, true)), Reaction::KeyToPage);
    assert_eq!(app.handle_key(press(BareKey::Esc, true)), Reaction::KeyToPage);
    assert_eq!(app.handle_key(press(BareKey::Other, false)), Reaction::KeyToPage);
    assert_eq!(app.update(Event::Key(press(BareKey::Other, true))), Reaction::KeyToPage);
    assert_eq!(app, loaded(None));
}

#[test]
fn pane_is_put_in_the_middle_when_the_size_changes() {
    let mut app = loaded(None);
    let moved = app.center_own_pane(Some(TabSize { columns: 200, rows: 50 }));
    assert_eq!(moved, Some(PaneCoordinates { x: 55, y: 15, width: 90, height: 20 }));
    assert_eq!((app.tab_columns, app.tab_rows), (200, 50));
    assert_eq!(app.center_own_pane(Some(TabSize { columns: 200, rows: 50 })), None);
    assert_eq!(
        app.center_own_pane(Some(TabSize { columns: 200, rows: 51 })),
        Some(PaneCoordinates { x: 55, y: 15, width: 90, height: 20 })
    );
    assert_eq!(app.center_own_pane(None), None);
    assert_eq!((app.tab_columns, app.tab_rows), (200, 51));
    assert_eq!((UI_COLUMNS, UI_ROWS), (90, 20));
}

#[test]
fn small_tab_puts_the_pane_at_the_corner() {
    let mut app = loaded(None);
    assert_eq!(
        app.update(Event::TabUpdate(Some(TabSize { columns: 80, rows: 21 }))),
        Reaction::MovePane(PaneCoordinates { x: 0, y: 0, width: 90, height: 20 })
    );
    assert_eq!(
        app.update(Event::TabUpdate(Some(TabSize { columns: 93, rows: 24 }))),
        Reaction::MovePane(PaneCoordinates { x: 1, y: 2, width: 90, height: 20 })
    );
    assert_eq!(app.update(Event::TabUpdate(Some(TabSize { columns: 93, rows: 24 }))), Reaction::Idle);
    assert_eq!(app.update(Event::TabUpdate(None)), Reaction::Idle);
}

#[test]
fn successful_query_tells_the_program_that_opens_links() {
    let mut app = loaded(None);
    let ended = |exit_code, is_xdg_open, is_open| Event::RunCommandResult {
        exit_code,
        is_xdg_open,
        is_open,
    };
    assert_eq!(app.update(ended(Some(1), true, false)), Reaction::Idle);
    assert_eq!(app.link_executable, "");
    assert_eq!(app.update(ended(None, false, true)), Reaction::Idle);
    assert_eq!(app.link_executable, "");
    assert_eq!(app.update(ended(Some(0), false, false)), Reaction::Idle);
    assert_eq!(app.link_executable, "");
    assert_eq!(app.update(ended(Some(0), false, true)), Reaction::Idle);
    assert_eq!(app.link_executable, "open");
    assert_eq!(app.update(ended(Some(0), true, true)), Reaction::Idle);
    assert_eq!(app.link_executable, "xdg-open");
    assert_eq!(app.update(ended(Some(2), true, true)), Reaction::Idle);
    assert_eq!(app.link_executable, "xdg-open");
}

#[test]
fn mouse_and_other_events_change_nothing() {
    let mut app = loaded(None);
    assert_eq!(
        app.update(Event::Mouse(Mouse::LeftClick(1, 2))),
        Reaction::ClickOnPage { column: 2, line: 1 }
    );
    assert_eq!(app.update(Event::Other), Reaction::Idle);
    assert_eq!(app, loaded(None));
}
