use hank_tui::chatlog::{Message, RemoteMessage, Role};
use hank_tui::client::{App, Focus};
use hank_tui::dispatch::{Action, Key, KeyCode};
use hank_tui::session::{ConnectionStatus, RequestLifecycle};

fn banner() -> Message {
    Message {
        role: Role::System,
        content: "connected".to_string(),
        created_at: "00:00:00".to_string(),
        created_at_ms: Some(1),
    }
}

fn fresh_app() -> App {
    App::new("http://localhost:8080".to_string(), true, Vec::new(), banner(), 0)
}

fn key(code: KeyCode) -> Key {
    Key { code, ctrl: false, alt: false, shift: false }
}

fn ctrl(code: KeyCode) -> Key {
    Key { code, ctrl: true, alt: false, shift: false }
}

fn type_text(app: &mut App, text: &str) {
    for c in text.chars() {
        app.insert_char(c);
    }
}

fn is_idle(app: &App) -> bool {
    matches!(app.session.lifecycle, RequestLifecycle::Idle)
}

fn is_sending(app: &App) -> bool {
    matches!(app.session.lifecycle, RequestLifecycle::Sending)
}

#[test]
fn submit_appends_user_message_and_success_returns_to_idle() {
    let mut app = fresh_app();
    type_text(&mut app, "hi");
    let sent = app.submit();
    assert_eq!(sent, Some("hi".to_string()));
    assert!(is_sending(&app));
    let last = app.log.messages.last().unwrap();
    assert_eq!(last.role, Role::User);
    assert_eq!(last.content, "hi");
    assert!(last.created_at_ms.is_some());

    app.settle_send(Ok("hey".to_string()));
    app.resolve_settled();
    assert!(is_idle(&app));
    let last = app.log.messages.last().unwrap();
    assert_eq!(last.role, Role::Assistant);
    assert_eq!(last.content, "hey");
    assert!(matches!(app.connection_status, ConnectionStatus::Connected));
}

#[test]
fn failed_send_surfaces_an_error_message() {
    let mut app = fresh_app();
    type_text(&mut app, "hi");
    app.submit().unwrap();
    app.settle_send(Err("Connection error: refused".to_string()));
    app.resolve_settled();
    assert!(is_idle(&app));
    let last = app.log.messages.last().unwrap();
    assert_eq!(last.role, Role::Error);
    assert_eq!(last.content, "Connection error: refused");
    assert_eq!(app.last_error, Some("Connection error: refused".to_string()));
    assert!(matches!(app.connection_status, ConnectionStatus::Error));
}

#[test]
fn submit_trims_whitespace() {
    let mut app = fresh_app();
    type_text(&mut app, "  hi there \n");
    let sent = app.submit();
    assert_eq!(sent, Some("hi there".to_string()));
}

#[test]
fn blank_submit_is_rejected() {
    let mut app = fresh_app();
    type_text(&mut app, "   \n  ");
    let before = app.log.messages.len();
    assert_eq!(app.submit(), None);
    assert!(is_idle(&app));
    assert_eq!(app.log.messages.len(), before);
    assert_eq!(app.buffer.content_string(), "   \n  ");
}

#[test]
fn submit_is_rejected_while_sending() {
    let mut app = fresh_app();
    type_text(&mut app, "first");
    app.submit().unwrap();
    type_text(&mut app, "second");
    assert_eq!(app.submit(), None);
    assert_eq!(app.buffer.content_string(), "second");
}

#[test]
fn submit_clears_buffer_and_scroll() {
    let mut app = fresh_app();
    type_text(&mut app, "line one\nline two\nline three");
    app.update_input_scroll(40, 2);
    assert_eq!(app.scroller.input_scroll, 1);
    app.submit().unwrap();
    assert_eq!(app.buffer.content_string(), "");
    assert_eq!(app.scroller.input_scroll, 0);
    assert!(app.scroller.auto_scroll);
}

#[test]
fn poll_scenario_watermark_is_strictly_greater() {
    let mut app = fresh_app();
    assert_eq!(app.session.watermark, 1);
    app.session.record_watermark(100);
    let at_watermark = vec![RemoteMessage {
        role: Role::Assistant,
        content: "stale".to_string(),
        timestamp: 100,
    }];
    let before = app.log.messages.len();
    assert_eq!(app.ingest_poll(&at_watermark), 0);
    assert_eq!(app.log.messages.len(), before);
    assert_eq!(app.session.watermark, 100);

    let newer = vec![RemoteMessage {
        role: Role::Assistant,
        content: "fresh".to_string(),
        timestamp: 101,
    }];
    assert_eq!(app.ingest_poll(&newer), 1);
    assert_eq!(app.session.watermark, 101);
    let last = app.log.messages.last().unwrap();
    assert_eq!(last.content, "fresh");
    assert_eq!(last.created_at_ms, Some(101));
}

#[test]
fn poll_is_gated_on_idle_and_interval() {
    let mut app = fresh_app();
    assert!(!app.should_poll(1999));
    assert!(app.should_poll(2000));
    let since = app.begin_poll(2000);
    assert_eq!(since, 1);
    assert!(!app.should_poll(3999));
    assert!(app.should_poll(4000));

    type_text(&mut app, "hi");
    app.submit().unwrap();
    assert!(!app.should_poll(10_000));
}

#[test]
fn history_navigation_round_trip() {
    let mut app = fresh_app();
    for text in ["one", "two"] {
        type_text(&mut app, text);
        app.submit().unwrap();
        app.settle_send(Ok("ok".to_string()));
        app.resolve_settled();
    }
    app.navigate_history_up();
    assert_eq!(app.buffer.content_string(), "two");
    app.navigate_history_up();
    assert_eq!(app.buffer.content_string(), "one");
    app.navigate_history_up();
    assert_eq!(app.buffer.content_string(), "one");
    app.navigate_history_down();
    assert_eq!(app.buffer.content_string(), "two");
    app.navigate_history_down();
    assert_eq!(app.buffer.content_string(), "");
    assert_eq!(app.history.index, None);
}

#[test]
fn history_navigation_on_empty_history_does_nothing() {
    let mut app = fresh_app();
    type_text(&mut app, "draft");
    app.navigate_history_up();
    assert_eq!(app.buffer.content_string(), "draft");
    app.navigate_history_down();
    assert_eq!(app.buffer.content_string(), "draft");
}

#[test]
fn auto_scroll_offset_shows_the_newest_line() {
    let mut app = fresh_app();
    assert_eq!(app.scroller.chat_offset(10, 5), 5);
    assert_eq!(app.scroller.chat_offset(3, 5), 0);
    app.scroll_up();
    assert!(!app.scroller.auto_scroll);
    assert_eq!(app.scroller.chat_offset(10, 5), 4);
    app.scroll_down();
    assert!(app.scroller.auto_scroll);
    assert_eq!(app.scroller.chat_offset(10, 5), 5);
}

#[test]
fn update_input_scroll_keeps_cursor_visible_minimally() {
    let mut app = fresh_app();
    type_text(&mut app, "a\nb\nc\nd\ne");
    app.update_input_scroll(40, 3);
    assert_eq!(app.scroller.input_scroll, 2);
    app.cursor_up(40);
    app.update_input_scroll(40, 3);
    assert_eq!(app.scroller.input_scroll, 2);
    for _ in 0..3 {
        app.cursor_up(40);
    }
    app.update_input_scroll(40, 3);
    assert_eq!(app.scroller.input_scroll, 0);
}

#[test]
fn paste_splices_at_the_cursor() {
    let mut app = fresh_app();
    type_text(&mut app, "ad");
    app.cursor_left();
    app.paste("bc");
    assert_eq!(app.buffer.content_string(), "abcd");
}

#[test]
fn wrap_text_for_display_matches_cursor_line_col() {
    let mut app = fresh_app();
    type_text(&mut app, "hello world!");
    assert_eq!(app.wrap_text_for_display(10), "hello worl\nd!");
    assert_eq!(app.input_total_lines(10), 2);
    assert_eq!(app.cursor_line_col(10), (1, 2));
}

#[test]
fn new_app_picks_up_the_highest_known_timestamp() {
    let loaded = vec![
        Message {
            role: Role::User,
            content: "old".to_string(),
            created_at: "00:00:00".to_string(),
            created_at_ms: Some(42),
        },
        Message {
            role: Role::System,
            content: "no stamp".to_string(),
            created_at: "00:00:00".to_string(),
            created_at_ms: None,
        },
    ];
    let app = App::new("http://h:1".to_string(), true, loaded, banner(), 7);
    assert_eq!(app.log.messages.len(), 3);
    assert_eq!(app.session.watermark, 42);
    assert_eq!(app.session.last_poll_ms, 7);
    assert!(matches!(app.focus, Focus::Input));
}

#[test]
fn help_is_modal_and_any_key_closes_it() {
    let mut app = fresh_app();
    app.toggle_help();
    assert!(matches!(app.focus, Focus::Help));
    let a = app.handle_key(key(KeyCode::Char('x')), 40);
    assert!(matches!(a, Action::Stay));
    assert!(matches!(app.focus, Focus::Input));
    assert_eq!(app.buffer.content_string(), "");
}

#[test]
fn tab_toggles_between_input_and_chat_never_from_help() {
    let mut app = fresh_app();
    app.handle_key(key(KeyCode::Tab), 40);
    assert!(matches!(app.focus, Focus::Chat));
    app.handle_key(key(KeyCode::Tab), 40);
    assert!(matches!(app.focus, Focus::Input));
    app.toggle_help();
    app.handle_key(key(KeyCode::Tab), 40);
    assert!(matches!(app.focus, Focus::Input));
}

#[test]
fn exit_keys_work_even_while_sending() {
    let mut app = fresh_app();
    type_text(&mut app, "hi");
    app.handle_key(ctrl(KeyCode::Char('s')), 40);
    assert!(is_sending(&app));
    let a = app.handle_key(key(KeyCode::Char('x')), 40);
    assert!(matches!(a, Action::Stay));
    assert_eq!(app.buffer.content_string(), "");
    let a = app.handle_key(key(KeyCode::Esc), 40);
    assert!(matches!(a, Action::Exit));
    let a = app.handle_key(ctrl(KeyCode::Char('c')), 40);
    assert!(matches!(a, Action::Exit));
}

#[test]
fn enter_submits_and_shift_enter_inserts_newline() {
    let mut app = fresh_app();
    type_text(&mut app, "line");
    let a = app.handle_key(
        Key { code: KeyCode::Enter, ctrl: false, alt: false, shift: true },
        40,
    );
    assert!(matches!(a, Action::Stay));
    assert_eq!(app.buffer.content_string(), "line\n");
    type_text(&mut app, "two");
    let a = app.handle_key(key(KeyCode::Enter), 40);
    match a {
        Action::Send(text) => assert_eq!(text, "line\ntwo"),
        _ => panic!("enter should submit"),
    }
    assert!(is_sending(&app));
}

#[test]
fn editing_keys_only_reach_the_buffer_from_input_focus() {
    let mut app = fresh_app();
    app.toggle_focus();
    app.handle_key(key(KeyCode::Char('x')), 40);
    app.handle_key(key(KeyCode::Backspace), 40);
    assert_eq!(app.buffer.content_string(), "");
    app.handle_key(key(KeyCode::Up), 40);
    assert!(!app.scroller.auto_scroll);
    assert_eq!(app.scroller.scrolled_back, 1);
    app.handle_key(key(KeyCode::Down), 40);
    assert!(app.scroller.auto_scroll);
}

#[test]
fn page_and_alt_scrolls_act_from_any_focus() {
    let mut app = fresh_app();
    app.handle_key(key(KeyCode::PageUp), 40);
    assert_eq!(app.scroller.scrolled_back, 10);
    assert!(!app.scroller.auto_scroll);
    app.handle_key(key(KeyCode::PageDown), 40);
    assert_eq!(app.scroller.scrolled_back, 0);
    assert!(app.scroller.auto_scroll);
    app.handle_key(
        Key { code: KeyCode::Up, ctrl: false, alt: true, shift: false },
        40,
    );
    assert_eq!(app.scroller.scrolled_back, 1);
    app.handle_key(
        Key { code: KeyCode::Down, ctrl: false, alt: true, shift: false },
        40,
    );
    assert_eq!(app.scroller.scrolled_back, 0);
}

#[test]
fn chat_focus_home_and_end_jump() {
    let mut app = fresh_app();
    app.toggle_focus();
    app.handle_key(key(KeyCode::Home), 40);
    assert_eq!(app.scroller.scrolled_back, 10000);
    assert!(!app.scroller.auto_scroll);
    app.handle_key(key(KeyCode::End), 40);
    assert_eq!(app.scroller.scrolled_back, 0);
    assert!(app.scroller.auto_scroll);
}

#[test]
fn ctrl_l_clears_the_chat_to_a_banner() {
    let mut app = fresh_app();
    type_text(&mut app, "hi");
    app.handle_key(key(KeyCode::Enter), 40);
    let a = app.handle_key(ctrl(KeyCode::Char('l')), 40);
    assert!(matches!(a, Action::Stay));
    assert!(is_sending(&app));
    app.settle_send(Ok("hey".to_string()));
    app.resolve_settled();
    let a = app.handle_key(ctrl(KeyCode::Char('l')), 40);
    assert!(matches!(a, Action::Stay));
    assert_eq!(app.log.messages.len(), 1);
    assert_eq!(app.log.messages[0].role, Role::System);
    assert_eq!(
        app.log.messages[0].content,
        "Chat gelöscht. Verbunden mit http://localhost:8080"
    );
}

#[test]
fn history_file_deletion_routes_by_enablement() {
    let mut app = fresh_app();
    let combo = Key { code: KeyCode::Char('D'), ctrl: true, alt: false, shift: true };
    let a = app.handle_key(combo, 40);
    assert!(matches!(a, Action::DeleteHistoryFile));
    app.history_file_deleted(Ok(()));
    assert_eq!(app.log.messages.len(), 1);
    assert_eq!(app.log.messages[0].content, "Chat Historie gelöscht.");
    app.history_file_deleted(Err("kaputt".to_string()));
    assert_eq!(app.last_error, Some("Fehler beim Löschen: kaputt".to_string()));

    let mut disabled = App::new("http://h:1".to_string(), false, Vec::new(), banner(), 0);
    let a = disabled.handle_key(combo, 40);
    assert!(matches!(a, Action::Stay));
    assert_eq!(
        disabled.last_error,
        Some("History ist deaktiviert (--no-history)".to_string())
    );
}

#[test]
fn ctrl_v_requests_paste_only_from_input_focus() {
    let mut app = fresh_app();
    let a = app.handle_key(ctrl(KeyCode::Char('v')), 40);
    assert!(matches!(a, Action::RequestPaste));
    app.toggle_focus();
    let a = app.handle_key(ctrl(KeyCode::Char('v')), 40);
    assert!(matches!(a, Action::Stay));
}

#[test]
fn ctrl_up_navigates_history_only_from_input_focus() {
    let mut app = fresh_app();
    type_text(&mut app, "sent");
    app.handle_key(ctrl(KeyCode::Char('s')), 40);
    app.settle_send(Ok("ok".to_string()));
    app.resolve_settled();
    app.handle_key(ctrl(KeyCode::Up), 40);
    assert_eq!(app.buffer.content_string(), "sent");
    app.handle_key(ctrl(KeyCode::Down), 40);
    assert_eq!(app.buffer.content_string(), "");
    app.toggle_focus();
    app.handle_key(ctrl(KeyCode::Up), 40);
    assert_eq!(app.buffer.content_string(), "");
}

#[test]
fn question_mark_opens_help_from_chat_but_types_in_input() {
    let mut app = fresh_app();
    app.handle_key(key(KeyCode::Char('?')), 40);
    assert_eq!(app.buffer.content_string(), "?");
    assert!(matches!(app.focus, Focus::Input));
    app.toggle_focus();
    app.handle_key(key(KeyCode::Char('?')), 40);
    assert!(matches!(app.focus, Focus::Help));
}

#[test]
fn f1_toggles_help() {
    let mut app = fresh_app();
    app.handle_key(key(KeyCode::F(1)), 40);
    assert!(matches!(app.focus, Focus::Help));
    app.handle_key(key(KeyCode::F(1)), 40);
    assert!(matches!(app.focus, Focus::Input));
}

#[test]
fn trim_for_persistence_reads_through_the_app() {
    let mut app = fresh_app();
    for i in 0..4u64 {
        type_text(&mut app, &i.to_string());
        app.handle_key(key(KeyCode::Enter), 40);
        app.settle_send(Ok("r".to_string()));
        app.resolve_settled();
    }
    let kept = app.trim_for_persistence(3);
    assert_eq!(kept.len(), 3);
    assert_eq!(kept[2].content, app.log.messages.last().unwrap().content);
}

#[test]
fn timestamps_render_as_wall_clock_time() {
    let shown = hank_tui::time::format_timestamp(hank_tui::time::now_ms());
    assert_eq!(shown.chars().count(), 8);
    assert_eq!(shown.chars().nth(2), Some(':'));
    assert_eq!(shown.chars().nth(5), Some(':'));
}
