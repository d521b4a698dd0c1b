use vstd::prelude::*;

use crate::components::{is_active, ComponentState};
use crate::event::{events_view, Event, EventView, Key};
use crate::http_request::HttpMethod;
use crate::ui::default_key_handle::{default_events, default_key_handle};

verus! {

/// The method field: a fixed choice among the four methods, never text
/// edited; the activation key cycles to the next method, wrapping after
/// the last.
pub struct Method {
    pub data: HttpMethod,
    pub selected_method_index: usize,
    pub state: ComponentState,
}

/// The method field's reaction to one key.
pub open spec fn method_step(m: Method, k: Key) -> Method {
    match m.state {
        ComponentState::UnFocused => m,
        ComponentState::Focused => if k == Key::Char('\n') {
            let next = ((m.selected_method_index + 1) % 4) as usize;
            Method {
                data: HttpMethod::at_index(next as int),
                selected_method_index: next,
                ..m
            }
        } else {
            m
        },
        ComponentState::Editing => if k == Key::Esc {
            Method { state: ComponentState::Focused, ..m }
        } else {
            m
        },
    }
}

/// The events the method field enqueues for one key: only what the
/// default handler sends for a key the field does not consume.
pub open spec fn method_emits(m: Method, k: Key) -> Seq<EventView> {
    match m.state {
        ComponentState::UnFocused => Seq::empty(),
        ComponentState::Focused => if k == Key::Char('\n') {
            Seq::empty()
        } else {
            default_events(k)
        },
        ComponentState::Editing => if k == Key::Esc {
            Seq::empty()
        } else {
            default_events(k)
        },
    }
}

impl Method {
    /// The shown method always is the one the cycling index selects.
    pub open spec fn wf(self) -> bool {
        &&& self.selected_method_index < 4
        &&& self.data == HttpMethod::at_index(self.selected_method_index as int)
    }

    /// The first method of the cycling order, unfocused.
    pub fn default() -> (r: Method)
        ensures
            r.wf(),
            r.data == HttpMethod::Get,
            r.selected_method_index == 0,
            r.state == ComponentState::UnFocused,
    {
        Method {
            data: HttpMethod::Get,
            selected_method_index: 0,
            state: ComponentState::UnFocused,
        }
    }

    pub fn key_handle(&mut self, k: Key, events: &mut Vec<Event>)
        requires
            old(self).wf(),
        ensures
            final(self).wf(),
            *final(self) == method_step(*old(self), k),
            events_view(final(events)@) == events_view(old(events)@) + method_emits(
                *old(self),
                k,
            ),
    {
        let ghost ev0 = events_view(events@);
        match self.state {
            ComponentState::Focused => match k {
                Key::Char('\n') => {
                    let next = if self.selected_method_index >= 3 {
                        0
                    } else {
                        self.selected_method_index + 1
                    };
                    self.selected_method_index = next;
                    self.data = match next {
                        0 => HttpMethod::Get,
                        1 => HttpMethod::Post,
                        2 => HttpMethod::Put,
                        _ => HttpMethod::Delete,
                    };
                    proof {
                        assert(events_view(events@) =~= ev0 + Seq::<EventView>::empty());
                    }
                },
                _ => {
                    default_key_handle(k, events);
                },
            },
            ComponentState::Editing => match k {
                Key::Esc => {
                    self.state = ComponentState::Focused;
                    proof {
                        assert(events_view(events@) =~= ev0 + Seq::<EventView>::empty());
                    }
                },
                _ => {
                    default_key_handle(k, events);
                },
            },
            ComponentState::UnFocused => {
                proof {
                    assert(events_view(events@) =~= ev0 + Seq::<EventView>::empty());
                }
            },
        }
    }

    pub fn set_state(&mut self, state: ComponentState)
        ensures
            *final(self) == (Method { state, ..*old(self) }),
            final(self).wf() == old(self).wf(),
    {
        self.state = state;
    }

    pub fn is_focused(&self) -> (r: bool)
        ensures
            r == is_active(self.state),
    {
        self.state.is_focused()
    }

    /// The method the form would submit with.
    pub fn get_data(&self) -> (r: HttpMethod)
        ensures
            r == self.data,
    {
        self.data
    }
}

} // verus!
