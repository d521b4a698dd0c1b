use reqtui::components::request::body::Body;
use reqtui::components::request::query::Query;
use reqtui::components::ComponentState;
use reqtui::event::{Event, Key};
use reqtui::text_buffer::TextBuffer;

fn line(buffer: &TextBuffer, i: usize) -> String {
    buffer.data[i].iter().collect()
}

#[test]
fn insert_and_move_and_backspace() {
    let mut buffer = TextBuffer::new();
    for c in ['a', 'b', 'c'] {
        buffer.insert_char(c);
    }
    assert_eq!(line(&buffer, 0), "abc");
    assert_eq!(buffer.x_data_editing_at, 3);
    buffer.move_left();
    buffer.backspace();
    assert_eq!(line(&buffer, 0), "ac");
    assert_eq!(buffer.x_data_editing_at, 1);
}

#[test]
fn newline_splits_and_backspace_merges() {
    let mut buffer = TextBuffer::new();
    for c in ['a', 'b', 'c', 'd'] {
        buffer.insert_char(c);
    }
    buffer.move_left();
    buffer.move_left();
    buffer.insert_newline();
    assert_eq!(buffer.data.len(), 2);
    assert_eq!(line(&buffer, 0), "ab");
    assert_eq!(line(&buffer, 1), "cd");
    assert_eq!((buffer.y_data_editing_at, buffer.x_data_editing_at), (1, 0));
    // Backspace at column zero merges back and lands the cursor at the
    // former end of the previous line.
    buffer.backspace();
    assert_eq!(buffer.data.len(), 1);
    assert_eq!(line(&buffer, 0), "abcd");
    assert_eq!((buffer.y_data_editing_at, buffer.x_data_editing_at), (0, 2));
}

#[test]
fn cursor_never_leaves_the_buffer() {
    let mut buffer = TextBuffer::new();
    for c in ['l', 'o', 'n', 'g', 'e', 'r'] {
        buffer.insert_char(c);
    }
    buffer.insert_newline();
    buffer.insert_char('x');
    // Up from the short line keeps the column; down clamps it again.
    for _ in 0..5 {
        buffer.move_up();
        buffer.move_down();
        buffer.move_right();
        buffer.move_left();
    }
    for _ in 0..10 {
        buffer.move_up();
    }
    assert!(buffer.y_data_editing_at < buffer.data.len());
    assert!(buffer.x_data_editing_at <= buffer.data[buffer.y_data_editing_at].len());
    for _ in 0..10 {
        buffer.move_down();
        buffer.move_right();
    }
    assert!(buffer.y_data_editing_at < buffer.data.len());
    assert!(buffer.x_data_editing_at <= buffer.data[buffer.y_data_editing_at].len());
}

#[test]
fn up_down_clamp_column_to_shorter_line() {
    let mut buffer = TextBuffer::new();
    buffer.insert_char('a');
    buffer.insert_newline();
    for c in ['b', 'c', 'd'] {
        buffer.insert_char(c);
    }
    assert_eq!((buffer.y_data_editing_at, buffer.x_data_editing_at), (1, 3));
    buffer.move_up();
    // The first line only has one character, so the column clamps to 1.
    assert_eq!((buffer.y_data_editing_at, buffer.x_data_editing_at), (0, 1));
}

#[test]
fn set_lines_then_joined_round_trips() {
    let mut buffer = TextBuffer::new();
    buffer.set_lines(vec![vec!['a', '=', '1'], vec!['b', '=', '2']]);
    let joined: String = buffer.joined('&').iter().collect();
    assert_eq!(joined, "a=1&b=2");
}

#[test]
fn query_set_data_then_joined_round_trips() {
    let mut query = Query::default();
    let text: Vec<char> = "a=1&b=2&".chars().collect();
    query.set_data(&text);
    assert_eq!(query.editor.data.len(), 3);
    let joined: String = query.editor.joined('&').iter().collect();
    assert_eq!(joined, "a=1&b=2&");
}

#[test]
fn auto_pair_brace_then_quote() {
    let mut body = Body::default();
    body.set_state(ComponentState::Editing);
    let mut events: Vec<Event> = Vec::new();
    body.key_handle(Key::Char('{'), &mut events);
    let first: String = body.editor.data[0].iter().collect();
    assert_eq!(first, "{}");
    assert_eq!(body.editor.x_data_editing_at, 1);
    body.key_handle(Key::Char('"'), &mut events);
    let second: String = body.editor.data[0].iter().collect();
    assert_eq!(second, "{\"\"}");
    assert_eq!(body.editor.x_data_editing_at, 2);
    assert!(events.is_empty());
}

#[test]
fn body_editing_collects_typed_text() {
    let mut body = Body::default();
    body.set_state(ComponentState::Editing);
    let mut events: Vec<Event> = Vec::new();
    body.key_handle(Key::Char('{'), &mut events);
    for c in ['"', 'k', '"'] {
        // Typing inside the auto-closed quote pair: the quote itself pairs,
        // the letter goes between, the closing quote key moves nothing.
        body.key_handle(Key::Char(c), &mut events);
    }
    let text = body.get_data();
    assert_eq!(text, "{\"k\"\"\"}");
}

#[test]
fn url_buffer_rejects_control_characters() {
    let mut url = reqtui::components::request::url::Url::default();
    let mut events: Vec<Event> = Vec::new();
    url.key_handle(Key::Char('\n'), &mut events);
    url.key_handle(Key::Char('a'), &mut events);
    url.key_handle(Key::Char('\t'), &mut events);
    url.key_handle(Key::Char('\u{7}'), &mut events);
    assert_eq!(url.get_data(), "a");
}
