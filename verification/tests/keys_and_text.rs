use reqtui::components::request::url::Url;
use reqtui::components::response::ResponseComponents;
use reqtui::components::{ComponentPosition, ComponentState};
use reqtui::event::{Config, Event, Key};
use reqtui::http_request::body_lines;
use reqtui::text::{chars_to_string, find_char, join_vec, split_vec, str_to_chars};
use reqtui::ui::default_key_handle::default_key_handle;

#[test]
fn default_bindings_emit_their_events() {
    let cases: Vec<(Key, Option<Event>)> = vec![
        (Key::Ctrl('c'), Some(Event::Quit)),
        (Key::Ctrl('s'), Some(Event::Request)),
        (
            Key::Char('m'),
            Some(Event::ChangeFocus(ComponentPosition::RequestMethod)),
        ),
        (
            Key::Char('u'),
            Some(Event::ChangeFocus(ComponentPosition::RequestUrl)),
        ),
        (
            Key::Char('q'),
            Some(Event::ChangeFocus(ComponentPosition::RequestQuery)),
        ),
        (
            Key::Char('r'),
            Some(Event::ChangeFocus(ComponentPosition::RequestBody)),
        ),
        (
            Key::Char('b'),
            Some(Event::ChangeFocus(ComponentPosition::Response(
                ResponseComponents::Body,
            ))),
        ),
        (
            Key::Char('h'),
            Some(Event::ChangeFocus(ComponentPosition::Response(
                ResponseComponents::Header,
            ))),
        ),
        (Key::Char('z'), None),
        (Key::Esc, None),
    ];
    for (key, expected) in cases {
        let mut events: Vec<Event> = Vec::new();
        default_key_handle(key, &mut events);
        match expected {
            None => assert!(events.is_empty()),
            Some(want) => {
                assert_eq!(events.len(), 1);
                match (&events[0], &want) {
                    (Event::Quit, Event::Quit) => {}
                    (Event::Request, Event::Request) => {}
                    (Event::ChangeFocus(got), Event::ChangeFocus(expected_position)) => {
                        assert_eq!(got, expected_position)
                    }
                    _ => panic!("wrong event for {:?}", key),
                }
            }
        }
    }
}

#[test]
fn split_and_join_round_trip() {
    for text in ["", "a", "a=1&b=2", "&", "a&&b", "trailing&"] {
        let chars: Vec<char> = text.chars().collect();
        let parts = split_vec(&chars, '&');
        let joined = join_vec(&parts, '&');
        assert_eq!(joined, chars, "round trip broke on {:?}", text);
    }
    let double: Vec<char> = "a&&b".chars().collect();
    let parts = split_vec(&double, '&');
    assert_eq!(parts.len(), 3);
    assert!(parts[1].is_empty());
}

#[test]
fn find_char_reports_the_first_occurrence() {
    let chars: Vec<char> = "ab?cd?e".chars().collect();
    assert_eq!(find_char(&chars, '?'), Some(2));
    assert_eq!(find_char(&chars, 'z'), None);
    let empty: Vec<char> = Vec::new();
    assert_eq!(find_char(&empty, '?'), None);
}

#[test]
fn string_conversions_round_trip() {
    let text = "wide あ and narrow a";
    let chars = str_to_chars(text);
    assert_eq!(chars.len(), text.chars().count());
    assert_eq!(chars_to_string(&chars), text);
}

#[test]
fn body_lines_pretty_prints_json() {
    let lines = body_lines("{\"a\":1,\"b\":2}");
    assert_eq!(
        lines,
        vec![
            "{".to_string(),
            "  \"a\": 1,".to_string(),
            "  \"b\": 2".to_string(),
            "}".to_string(),
        ]
    );
    // The formatter expects valid JSON but does not validate: other text
    // still comes back as display lines.
    assert!(!body_lines("plain text").is_empty());
    assert!(!body_lines("").is_empty());
}

#[test]
fn cursor_screen_column_counts_display_widths() {
    let mut url = Url::default();
    url.data = "aあb".chars().collect();
    url.state = ComponentState::Editing;
    url.x_data_editing_at = 0;
    assert_eq!(url.x_cursor_postion(), 0);
    url.x_data_editing_at = 1;
    assert_eq!(url.x_cursor_postion(), 1);
    // The wide glyph takes two columns on screen.
    url.x_data_editing_at = 2;
    assert_eq!(url.x_cursor_postion(), 3);
    url.x_data_editing_at = 3;
    assert_eq!(url.x_cursor_postion(), 4);
}

#[test]
fn default_tick_rate_is_a_quarter_second() {
    let config = Config::default();
    assert_eq!(config.tick_rate, 250);
}
