use bp_ntex::command::CommandType;
use bp_ntex::console::{InputMode, RatApp};

#[test]
fn new_console_is_empty() {
    let app = RatApp::new();
    assert_eq!(app.input(), "");
    assert_eq!(app.char_idx(), 0);
    assert_eq!(*app.input_mode(), InputMode::Normal);
    assert!(app.bot_log().is_empty());
    assert!(app.server_msgs().is_empty());
}

#[test]
fn typing_and_moving_the_cursor() {
    let mut app = RatApp::new();
    app.enter_char('a');
    app.enter_char('c');
    app.move_cursor_left();
    app.enter_char('b');
    assert_eq!(app.input(), "abc");
    assert_eq!(app.char_idx(), 2);
    app.move_cursor_right();
    app.move_cursor_right();
    assert_eq!(app.char_idx(), 3);
    app.move_cursor_left();
    app.move_cursor_left();
    app.move_cursor_left();
    app.move_cursor_left();
    assert_eq!(app.char_idx(), 0);
}

#[test]
fn multibyte_characters_count_as_one() {
    let mut app = RatApp::new();
    app.enter_char('é');
    app.enter_char('ß');
    app.move_cursor_left();
    app.enter_char('✓');
    assert_eq!(app.input(), "é✓ß");
    assert_eq!(app.char_idx(), 2);
    app.delete_char();
    assert_eq!(app.input(), "éß");
    assert_eq!(app.char_idx(), 1);
}

#[test]
fn delete_at_start_does_nothing() {
    let mut app = RatApp::new();
    app.enter_char('x');
    app.move_cursor_left();
    app.delete_char();
    assert_eq!(app.input(), "x");
    assert_eq!(app.char_idx(), 0);
}

#[test]
fn clamp_keeps_the_cursor_in_the_line() {
    let mut app = RatApp::new();
    app.enter_char('a');
    app.enter_char('b');
    assert_eq!(app.clamp_cursor(1), 1);
    assert_eq!(app.clamp_cursor(7), 2);
}

#[test]
fn submit_logs_and_clears_the_line() {
    let mut app = RatApp::new();
    app.set_input_mode(InputMode::Insert);
    for c in "chat hello".chars() {
        app.enter_char(c);
    }
    assert_eq!(app.process_command(), Some(CommandType::Chat("hello".to_string())));
    let command = app.submit_msg();
    assert_eq!(command, Some(CommandType::Chat("hello".to_string())));
    assert_eq!(app.bot_log(), &vec!["chat hello".to_string()]);
    assert_eq!(app.input(), "");
    assert_eq!(app.char_idx(), 0);
    assert_eq!(*app.input_mode(), InputMode::Insert);
    app.push_server_msg("welcome".to_string());
    assert_eq!(app.server_msgs(), &vec!["welcome".to_string()]);
}

#[test]
fn reset_cursor_keeps_text() {
    let mut app = RatApp::new();
    app.enter_char('q');
    app.reset_cursor();
    assert_eq!(app.char_idx(), 0);
    assert_eq!(app.input(), "q");
}

#[test]
fn submitting_plain_text_sends_no_command() {
    let mut app = RatApp::new();
    for c in "hello there".chars() {
        app.enter_char(c);
    }
    assert_eq!(app.submit_msg(), None);
    assert_eq!(app.bot_log(), &vec!["hello there".to_string()]);
}
