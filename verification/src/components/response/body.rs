use vstd::prelude::*;

use crate::components::{is_active, ComponentState};
use crate::event::{events_view, Event, EventView, Key};
use crate::text::strings_view;
use crate::ui::default_key_handle::{default_events, default_key_handle};

verus! {

/// The response body view: a read-only scroll window over the display
/// lines of the last response.
pub struct Body {
    pub data: Vec<String>,
    pub data_display_from: usize,
    pub state: ComponentState,
}

/// The mathematical content of the response body view.
#[verifier::ext_equal]
pub struct BodyView {
    pub data: Seq<Seq<char>>,
    pub data_display_from: int,
    pub state: ComponentState,
}

impl View for Body {
    type V = BodyView;

    open spec fn view(&self) -> BodyView {
        BodyView {
            data: strings_view(self.data@),
            data_display_from: self.data_display_from as int,
            state: self.state,
        }
    }
}

/// One scroll key applied to the window: down and up one row, clamped to
/// the lines that exist.
pub open spec fn resp_body_step(v: BodyView, k: Key) -> BodyView {
    if k == Key::Char('j') {
        if v.data_display_from + 1 < v.data.len() {
            BodyView { data_display_from: v.data_display_from + 1, ..v }
        } else {
            v
        }
    } else if k == Key::Char('k') {
        if v.data_display_from > 0 {
            BodyView { data_display_from: v.data_display_from - 1, ..v }
        } else {
            v
        }
    } else {
        v
    }
}

/// The events the response body view enqueues: only what the default
/// handler sends for a key it does not consume.
pub open spec fn resp_body_emits(k: Key) -> Seq<EventView> {
    if k == Key::Char('j') || k == Key::Char('k') {
        Seq::empty()
    } else {
        default_events(k)
    }
}

impl Body {
    /// The scroll position names an existing line, or the very top of an
    /// empty body.
    pub open spec fn wf(self) -> bool {
        self.data_display_from == 0 || (self.data_display_from as int) < self.data@.len()
    }

    /// An empty body view, unfocused, scrolled to the top.
    pub fn default() -> (r: Body)
        ensures
            r.wf(),
            r@.data == Seq::<Seq<char>>::empty(),
            r@.data_display_from == 0,
            r@.state == ComponentState::UnFocused,
    {
        let r = Body { data: Vec::new(), data_display_from: 0, state: ComponentState::UnFocused };
        proof {
            assert(r@.data =~= Seq::<Seq<char>>::empty());
        }
        r
    }

    /// Replace the shown lines wholesale, scrolling back to the top.
    pub fn set_data(&mut self, data: Vec<String>)
        ensures
            final(self).wf(),
            final(self)@ == (BodyView {
                data: strings_view(data@),
                data_display_from: 0,
                ..old(self)@
            }),
    {
        self.data = data;
        self.data_display_from = 0;
        proof {
            assert(self@ =~= (BodyView {
                data: strings_view(self.data@),
                data_display_from: 0,
                ..old(self)@
            }));
        }
    }

    pub fn key_handle(&mut self, k: Key, events: &mut Vec<Event>)
        requires
            old(self).wf(),
        ensures
            final(self).wf(),
            final(self)@ == resp_body_step(old(self)@, k),
            events_view(final(events)@) == events_view(old(events)@) + resp_body_emits(k),
    {
        let ghost ev0 = events_view(events@);
        match k {
            Key::Char('j') => {
                let n = self.data.len();
                if self.data_display_from + 1 < n {
                    self.data_display_from = self.data_display_from + 1;
                }
                proof {
                    assert(self@ =~= resp_body_step(old(self)@, k));
                    assert(events_view(events@) =~= ev0 + Seq::<EventView>::empty());
                }
            },
            Key::Char('k') => {
                if self.data_display_from > 0 {
                    self.data_display_from = self.data_display_from - 1;
                }
                proof {
                    assert(self@ =~= resp_body_step(old(self)@, k));
                    assert(events_view(events@) =~= ev0 + Seq::<EventView>::empty());
                }
            },
            _ => {
                default_key_handle(k, events);
                proof {
                    assert(self@ =~= resp_body_step(old(self)@, k));
                }
            },
        }
    }

    pub fn set_state(&mut self, state: ComponentState)
        ensures
            final(self)@ == (BodyView { state, ..old(self)@ }),
            final(self).wf() == old(self).wf(),
    {
        self.state = state;
        proof {
            assert(self@ =~= (BodyView { state, ..old(self)@ }));
        }
    }

    pub fn is_focused(&self) -> (r: bool)
        ensures
            r == is_active(self.state),
    {
        self.state.is_focused()
    }
}

} // verus!
