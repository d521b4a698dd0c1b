use vstd::prelude::*;

use crate::components::ComponentPosition;
use crate::http_request;
use crate::http_request::ResponseView;

verus! {

/// One keypress, as the main loop sees it.  The terminal reader translates
/// whatever the terminal delivered into this closed set; anything the form
/// has no binding for arrives as `Other` and is ignored everywhere.
#[derive(Clone, Copy, Debug, PartialEq, Eq, Structural)]
pub enum Key {
    Char(char),
    Ctrl(char),
    Backspace,
    Left,
    Right,
    Up,
    Down,
    Esc,
    Other,
}

/// One item of the single ordered queue every producer feeds and the main
/// loop alone consumes: produced once, consumed once, never retained.
pub enum Event {
    KeyInput(Key),
    Tick,
    Quit,
    SetQuery(Vec<char>),
    Request,
    Response(http_request::Response),
    ChangeFocus(ComponentPosition),
}

/// The mathematical content of an `Event`.
pub enum EventView {
    KeyInput(Key),
    Tick,
    Quit,
    SetQuery(Seq<char>),
    Request,
    Response(ResponseView),
    ChangeFocus(ComponentPosition),
}

impl View for Event {
    type V = EventView;

    open spec fn view(&self) -> EventView {
        match self {
            Event::KeyInput(k) => EventView::KeyInput(*k),
            Event::Tick => EventView::Tick,
            Event::Quit => EventView::Quit,
            Event::SetQuery(q) => EventView::SetQuery(q@),
            Event::Request => EventView::Request,
            Event::Response(resp) => EventView::Response(resp@),
            Event::ChangeFocus(p) => EventView::ChangeFocus(*p),
        }
    }
}

/// The contents of a queue of pending events.
pub open spec fn events_view(s: Seq<Event>) -> Seq<EventView> {
    s.map_values(|e: Event| e@)
}

pub proof fn lemma_events_view_push(s: Seq<Event>, e: Event)
    ensures
        events_view(s.push(e)) == events_view(s).push(e@),
{
    assert(events_view(s.push(e)) =~= events_view(s).push(e@));
}

/// Enqueue one event.
pub fn send(events: &mut Vec<Event>, e: Event)
    ensures
        events_view(final(events)@) == events_view(old(events)@).push(e@),
{
    let ghost v = events@;
    let ghost ee = e;
    events.push(e);
    proof {
        lemma_events_view_push(v, ee);
    }
}

/// How often the ticker fires, in milliseconds.
#[derive(Clone, Copy, Debug, PartialEq, Eq, Structural)]
pub struct Config {
    pub tick_rate: u64,
}

impl Default for Config {
    /// One tick every quarter second.
    fn default() -> (r: Config)
        ensures
            r.tick_rate == 250,
    {
        Config { tick_rate: 250 }
    }
}

} // verus!
