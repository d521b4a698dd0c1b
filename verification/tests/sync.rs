use reqtui::app::{App, Directive};
use reqtui::components::request::url::Url;
use reqtui::components::{ComponentPosition, ComponentState};
use reqtui::event::{Event, Key};

fn type_text(app: &mut App, text: &str, events: &mut Vec<Event>) {
    for c in text.chars() {
        app.key_handle(Key::Char(c), events);
    }
}

fn url_of(app: &App) -> String {
    app.request.url.get_data()
}

fn query_lines(app: &App) -> Vec<String> {
    app.request
        .query
        .editor
        .data
        .iter()
        .map(|l| l.iter().collect())
        .collect()
}

#[test]
fn url_query_extraction() {
    let mut url = Url::default();
    assert_eq!(url.get_query(), None);
    url.data = "http://x/?a=1&b=2".chars().collect();
    assert_eq!(url.get_query(), Some("a=1&b=2".chars().collect::<Vec<char>>()));
    url.data = "http://x/?".chars().collect();
    assert_eq!(url.get_query(), Some(Vec::new()));
    url.data = "http://x/".chars().collect();
    assert_eq!(url.get_query(), None);
}

#[test]
fn set_query_rewrites_and_short_circuits() {
    let mut url = Url::default();
    url.data = "http://x/?a=1".chars().collect();
    let q: Vec<char> = "a=1&b=2".chars().collect();
    url.set_query(&q);
    assert_eq!(url.get_data(), "http://x/?a=1&b=2");
    assert_eq!(url.x_data_editing_at, url.data.len());
    // Writing the same query again must change nothing, cursor included.
    url.x_data_editing_at = 0;
    url.set_query(&q);
    assert_eq!(url.get_data(), "http://x/?a=1&b=2");
    assert_eq!(url.x_data_editing_at, 0);
}

#[test]
fn url_to_query_derivation_is_idempotent() {
    // Typing a URL with a query emits SetQuery messages; handling the last
    // one puts the form in a state where deriving again changes nothing
    // and emits nothing new.
    let mut app = App::default();
    let mut events: Vec<Event> = Vec::new();
    app.key_handle(Key::Char('\n'), &mut events); // URL field starts focused
    type_text(&mut app, "http://x/?a=1&b=2", &mut events);
    let last_set_query = events
        .iter()
        .rev()
        .find_map(|e| match e {
            Event::SetQuery(q) => Some(q.clone()),
            _ => None,
        })
        .expect("typing a query must emit a SetQuery");
    assert_eq!(last_set_query.iter().collect::<String>(), "a=1&b=2");

    app.set_query_handle(last_set_query.clone());
    assert_eq!(url_of(&app), "http://x/?a=1&b=2");
    assert_eq!(query_lines(&app), vec!["a=1".to_string(), "b=2".to_string()]);

    // Second derivation with no intervening edit: both sides already
    // agree, so nothing changes and no further update is needed.
    let derived_again = app.request.url.get_query().expect("the URL still has a query");
    assert_eq!(derived_again, last_set_query);
    let before_lines = query_lines(&app);
    let before_url = url_of(&app);
    app.set_query_handle(derived_again);
    assert_eq!(query_lines(&app), before_lines);
    assert_eq!(url_of(&app), before_url);
}

#[test]
fn query_edit_updates_url_without_retriggering() {
    let mut app = App::default();
    let mut events: Vec<Event> = Vec::new();
    app.key_handle(Key::Char('\n'), &mut events);
    type_text(&mut app, "http://x/?a=1&b=2", &mut events);
    events.clear();
    app.set_query_handle("a=1&b=2".chars().collect());

    // Move into the query field and append a new `c=3` segment.
    app.change_focus(ComponentPosition::RequestQuery);
    app.key_handle(Key::Char('\n'), &mut events); // enter editing
    app.key_handle(Key::Down, &mut events);
    for _ in 0..3 {
        app.key_handle(Key::Right, &mut events);
    }
    app.key_handle(Key::Char('\n'), &mut events); // new segment line
    events.clear();

    // Type the new segment, letting the loop consume each synchronizer
    // message right after the key that produced it, as the channel
    // delivers them.
    for c in ['c', '=', '3'] {
        app.key_handle(Key::Char(c), &mut events);
        let pending: Vec<Event> = events.drain(..).collect();
        for e in pending {
            let d = app.dispatch(e, &mut events);
            assert!(matches!(d, Directive::Continue));
        }
    }
    assert!(url_of(&app).ends_with("?a=1&b=2&c=3"));
    assert_eq!(
        query_lines(&app),
        vec!["a=1".to_string(), "b=2".to_string(), "c=3".to_string()]
    );
    // The write-back did not reset the query editor's cursor: the edit was
    // not re-triggered.
    assert_eq!(app.request.query.editor.y_data_editing_at, 2);
    assert_eq!(app.request.query.editor.x_data_editing_at, 3);
    // And no further SetQuery is pending.
    assert!(events.iter().all(|e| !matches!(e, Event::SetQuery(_))));
}

#[test]
fn query_field_keeps_editing_state_through_sync() {
    let mut app = App::default();
    let mut events: Vec<Event> = Vec::new();
    app.change_focus(ComponentPosition::RequestQuery);
    app.key_handle(Key::Char('\n'), &mut events);
    assert_eq!(app.request.query.state, ComponentState::Editing);
    app.set_query_handle("x=9".chars().collect());
    assert_eq!(app.request.query.state, ComponentState::Editing);
}
