use reqtui::app::{App, Directive};
use reqtui::components::response::ResponseComponents;
use reqtui::components::{ComponentPosition, ComponentState};
use reqtui::event::{Event, Key};
use reqtui::http_request::{HttpMethod, Response};

fn focused_leaf_count(app: &App) -> usize {
    [
        app.request.method.is_focused(),
        app.request.url.is_focused(),
        app.request.query.is_focused(),
        app.request.body.is_focused(),
        app.response.body.is_focused(),
        app.response.header.is_focused(),
    ]
    .iter()
    .filter(|focused| **focused)
    .count()
}

fn sample_response() -> Response {
    Response {
        status: 200,
        header: vec![
            ("content-type".to_string(), "application/json".to_string()),
            ("server".to_string(), "test".to_string()),
        ],
        body: vec!["{".to_string(), "  \"ok\": true".to_string(), "}".to_string()],
        delay_ms: 42,
    }
}

#[test]
fn exactly_one_field_is_focused_at_all_times() {
    let mut app = App::default();
    assert_eq!(focused_leaf_count(&app), 1);
    let mut events: Vec<Event> = Vec::new();
    for position in [
        ComponentPosition::RequestMethod,
        ComponentPosition::Response(ResponseComponents::Header),
        ComponentPosition::RequestBody,
        ComponentPosition::Response(ResponseComponents::Body),
        ComponentPosition::RequestQuery,
        ComponentPosition::RequestUrl,
    ] {
        app.change_focus(position);
        assert_eq!(focused_leaf_count(&app), 1);
    }
    // Keys never change how many fields are focused, whatever they do.
    for k in [
        Key::Char('\n'),
        Key::Char('x'),
        Key::Backspace,
        Key::Left,
        Key::Esc,
        Key::Char('j'),
        Key::Ctrl('s'),
    ] {
        app.key_handle(k, &mut events);
        assert_eq!(focused_leaf_count(&app), 1);
    }
}

#[test]
fn container_focus_follows_its_children() {
    let mut app = App::default();
    assert!(app.request.is_focused());
    assert!(!app.response.is_focused());
    app.change_focus(ComponentPosition::Response(ResponseComponents::Header));
    assert!(!app.request.is_focused());
    assert!(app.response.is_focused());
    assert!(app.response.header.is_focused());
    assert_eq!(app.response.selected, ResponseComponents::Header);
}

#[test]
fn method_cycles_through_the_four_methods() {
    let mut app = App::default();
    let mut events: Vec<Event> = Vec::new();
    app.change_focus(ComponentPosition::RequestMethod);
    let expected = [
        HttpMethod::Post,
        HttpMethod::Put,
        HttpMethod::Delete,
        HttpMethod::Get,
        HttpMethod::Post,
    ];
    for want in expected {
        app.key_handle(Key::Char('\n'), &mut events);
        assert_eq!(app.request.get_method(), want);
    }
    assert_eq!(app.request.get_method().as_str(), "POST");
    assert!(events.is_empty());
}

#[test]
fn submit_derives_the_call_and_leaves_the_form_alone() {
    let mut app = App::default();
    let mut events: Vec<Event> = Vec::new();
    app.key_handle(Key::Char('\n'), &mut events); // URL field starts focused
    for c in "http://x/?a=1".chars() {
        app.key_handle(Key::Char(c), &mut events);
    }
    let url_before = app.request.get_url();
    let d = app.dispatch(Event::Request, &mut events);
    match d {
        Directive::Submit(method, url, body) => {
            assert_eq!(method, HttpMethod::Get);
            assert_eq!(url, "http://x/?a=1");
            assert_eq!(body, "");
        }
        _ => panic!("a submit event must derive the outgoing call"),
    }
    assert_eq!(app.request.get_url(), url_before);
    assert_eq!(app.request.get_method(), HttpMethod::Get);
    assert!(app.response.status.data.is_none());

    // The completed call replaces the whole response model at once.
    let d = app.dispatch(Event::Response(sample_response()), &mut events);
    assert!(matches!(d, Directive::Continue));
    assert_eq!(app.response.status.data, Some(200));
    assert_eq!(app.response.delay.data, Some(42));
    assert_eq!(app.response.body.data.len(), 3);
    assert_eq!(app.response.header.data[0].0, "content-type");
    // And the request half still reads as before.
    assert_eq!(app.request.get_url(), url_before);
}

#[test]
fn response_scroll_clamps_to_its_lines() {
    let mut app = App::default();
    let mut events: Vec<Event> = Vec::new();
    app.response_handle(sample_response());
    app.change_focus(ComponentPosition::Response(ResponseComponents::Body));
    for _ in 0..10 {
        app.key_handle(Key::Char('j'), &mut events);
    }
    assert_eq!(app.response.body.data_display_from, 2);
    for _ in 0..10 {
        app.key_handle(Key::Char('k'), &mut events);
    }
    assert_eq!(app.response.body.data_display_from, 0);
    // A fresh response scrolls back to the top.
    for _ in 0..2 {
        app.key_handle(Key::Char('j'), &mut events);
    }
    app.response_handle(sample_response());
    assert_eq!(app.response.body.data_display_from, 0);
}

#[test]
fn tick_and_quit_directives() {
    let mut app = App::default();
    let mut events: Vec<Event> = Vec::new();
    assert!(matches!(app.dispatch(Event::Tick, &mut events), Directive::Continue));
    assert!(matches!(app.dispatch(Event::Quit, &mut events), Directive::Quit));
    assert!(events.is_empty());
}

#[test]
fn change_focus_event_moves_the_focus() {
    let mut app = App::default();
    let mut events: Vec<Event> = Vec::new();
    let d = app.dispatch(
        Event::ChangeFocus(ComponentPosition::RequestBody),
        &mut events,
    );
    assert!(matches!(d, Directive::Continue));
    assert!(app.request.body.is_focused());
    assert_eq!(focused_leaf_count(&app), 1);
}
