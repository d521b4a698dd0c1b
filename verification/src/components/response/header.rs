use vstd::prelude::*;

use crate::components::{is_active, ComponentState};
use crate::event::{events_view, Event, EventView, Key};
use crate::ui::default_key_handle::{default_events, default_key_handle};

verus! {

/// The texts of a list of header name/value pairs.
pub open spec fn pairs_view(v: Seq<(String, String)>) -> Seq<(Seq<char>, Seq<char>)> {
    v.map_values(|p: (String, String)| (p.0@, p.1@))
}

/// The response header view: a read-only scroll window over the header
/// pairs of the last response, in receipt order.
pub struct Header {
    pub data: Vec<(String, String)>,
    pub data_display_from: usize,
    pub state: ComponentState,
}

/// The mathematical content of the response header view.
#[verifier::ext_equal]
pub struct HeaderView {
    pub data: Seq<(Seq<char>, Seq<char>)>,
    pub data_display_from: int,
    pub state: ComponentState,
}

impl View for Header {
    type V = HeaderView;

    open spec fn view(&self) -> HeaderView {
        HeaderView {
            data: pairs_view(self.data@),
            data_display_from: self.data_display_from as int,
            state: self.state,
        }
    }
}

/// One scroll key applied to the window: down and up one row, clamped to
/// the pairs that exist.
pub open spec fn header_step(v: HeaderView, k: Key) -> HeaderView {
    if k == Key::Char('j') {
        if v.data_display_from + 1 < v.data.len() {
            HeaderView { data_display_from: v.data_display_from + 1, ..v }
        } else {
            v
        }
    } else if k == Key::Char('k') {
        if v.data_display_from > 0 {
            HeaderView { data_display_from: v.data_display_from - 1, ..v }
        } else {
            v
        }
    } else {
        v
    }
}

/// The events the response header view enqueues: only what the default
/// handler sends for a key it does not consume.
pub open spec fn header_emits(k: Key) -> Seq<EventView> {
    if k == Key::Char('j') || k == Key::Char('k') {
        Seq::empty()
    } else {
        default_events(k)
    }
}

impl Header {
    /// The scroll position names an existing pair, or the very top of an
    /// empty list.
    pub open spec fn wf(self) -> bool {
        self.data_display_from == 0 || (self.data_display_from as int) < self.data@.len()
    }

    /// An empty header view, unfocused, scrolled to the top.
    pub fn default() -> (r: Header)
        ensures
            r.wf(),
            r@.data == Seq::<(Seq<char>, Seq<char>)>::empty(),
            r@.data_display_from == 0,
            r@.state == ComponentState::UnFocused,
    {
        let r = Header {
            data: Vec::new(),
            data_display_from: 0,
            state: ComponentState::UnFocused,
        };
        proof {
            assert(r@.data =~= Seq::<(Seq<char>, Seq<char>)>::empty());
        }
        r
    }

    /// Replace the shown pairs wholesale, scrolling back to the top.
    pub fn set_data(&mut self, data: Vec<(String, String)>)
        ensures
            final(self).wf(),
            final(self)@ == (HeaderView {
                data: pairs_view(data@),
                data_display_from: 0,
                ..old(self)@
            }),
    {
        self.data = data;
        self.data_display_from = 0;
        proof {
            assert(self@ =~= (HeaderView {
                data: pairs_view(self.data@),
                data_display_from: 0,
                ..old(self)@
            }));
        }
    }

    pub fn key_handle(&mut self, k: Key, events: &mut Vec<Event>)
        requires
            old(self).wf(),
        ensures
            final(self).wf(),
            final(self)@ == header_step(old(self)@, k),
            events_view(final(events)@) == events_view(old(events)@) + header_emits(k),
    {
        let ghost ev0 = events_view(events@);
        match k {
            Key::Char('j') => {
                let n = self.data.len();
                if self.data_display_from + 1 < n {
                    self.data_display_from = self.data_display_from + 1;
                }
                proof {
                    assert(self@ =~= header_step(old(self)@, k));
                    assert(events_view(events@) =~= ev0 + Seq::<EventView>::empty());
                }
            },
            Key::Char('k') => {
                if self.data_display_from > 0 {
                    self.data_display_from = self.data_display_from - 1;
                }
                proof {
                    assert(self@ =~= header_step(old(self)@, k));
                    assert(events_view(events@) =~= ev0 + Seq::<EventView>::empty());
                }
            },
            _ => {
                default_key_handle(k, events);
                proof {
                    assert(self@ =~= header_step(old(self)@, k));
                }
            },
        }
    }

    pub fn set_state(&mut self, state: ComponentState)
        ensures
            final(self)@ == (HeaderView { state, ..old(self)@ }),
            final(self).wf() == old(self).wf(),
    {
        self.state = state;
        proof {
            assert(self@ =~= (HeaderView { state, ..old(self)@ }));
        }
    }

    pub fn is_focused(&self) -> (r: bool)
        ensures
            r == is_active(self.state),
    {
        self.state.is_focused()
    }
}

} // verus!
