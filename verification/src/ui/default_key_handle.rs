use vstd::prelude::*;

use crate::components::response::ResponseComponents;
use crate::components::ComponentPosition;
use crate::event::{events_view, send, Event, EventView, Key};

verus! {

/// The events the global default handler enqueues for a key: the quit and
/// submit chords and the direct focus shortcuts; every other key is ignored.
pub open spec fn default_events(k: Key) -> Seq<EventView> {
    if k == Key::Ctrl('c') {
        seq![EventView::Quit]
    } else if k == Key::Ctrl('s') {
        seq![EventView::Request]
    } else if k == Key::Char('m') {
        seq![EventView::ChangeFocus(ComponentPosition::RequestMethod)]
    } else if k == Key::Char('u') {
        seq![EventView::ChangeFocus(ComponentPosition::RequestUrl)]
    } else if k == Key::Char('q') {
        seq![EventView::ChangeFocus(ComponentPosition::RequestQuery)]
    } else if k == Key::Char('r') {
        seq![EventView::ChangeFocus(ComponentPosition::RequestBody)]
    } else if k == Key::Char('b') {
        seq![EventView::ChangeFocus(ComponentPosition::Response(ResponseComponents::Body))]
    } else if k == Key::Char('h') {
        seq![EventView::ChangeFocus(ComponentPosition::Response(ResponseComponents::Header))]
    } else {
        Seq::empty()
    }
}

/// Handle a key no focused field consumed: globally bound keys enqueue
/// their event, anything else is silently dropped.
pub fn default_key_handle(k: Key, events: &mut Vec<Event>)
    ensures
        events_view(final(events)@) == events_view(old(events)@) + default_events(k),
{
    let ghost before = events_view(old(events)@);
    match k {
        Key::Ctrl('c') => send(events, Event::Quit),
        Key::Ctrl('s') => send(events, Event::Request),
        Key::Char('m') => {
            send(events, Event::ChangeFocus(ComponentPosition::RequestMethod));
        },
        Key::Char('u') => {
            send(events, Event::ChangeFocus(ComponentPosition::RequestUrl));
        },
        Key::Char('q') => {
            send(events, Event::ChangeFocus(ComponentPosition::RequestQuery));
        },
        Key::Char('r') => {
            send(events, Event::ChangeFocus(ComponentPosition::RequestBody));
        },
        Key::Char('b') => {
            send(
                events,
                Event::ChangeFocus(ComponentPosition::Response(ResponseComponents::Body)),
            );
        },
        Key::Char('h') => {
            send(
                events,
                Event::ChangeFocus(ComponentPosition::Response(ResponseComponents::Header)),
            );
        },
        _ => {},
    }
    proof {
        assert(events_view(events@) =~= before + default_events(k));
    }
}

} // verus!
