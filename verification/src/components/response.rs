use vstd::prelude::*;

pub mod body;
pub mod delay;
pub mod header;
pub mod status;
pub mod tab;

use crate::components::{is_active, ComponentState};
use crate::event::{events_view, Event, EventView, Key};
use crate::http_request;
use body::{resp_body_emits, resp_body_step, Body, BodyView};
use delay::Delay;
use header::{header_emits, header_step, Header, HeaderView};
use status::Status;
use tab::Tab;

verus! {

/// The two read-only views of a response that can take the focus.
#[derive(Clone, Copy, Debug, PartialEq, Eq, Structural)]
pub enum ResponseComponents {
    Body,
    Header,
}

/// The response half of the form: the body and header views with their
/// tab strip, and the status and latency lines.
pub struct Response {
    pub tab: Tab,
    pub body: Body,
    pub header: Header,
    pub status: Status,
    pub delay: Delay,
    pub state: ComponentState,
    pub selected: ResponseComponents,
}

/// The mathematical content of the response half.
#[verifier::ext_equal]
pub struct ResponseView {
    pub body: BodyView,
    pub header: HeaderView,
    pub status: Status,
    pub delay: Delay,
    pub state: ComponentState,
    pub selected: ResponseComponents,
}

impl View for Response {
    type V = ResponseView;

    open spec fn view(&self) -> ResponseView {
        ResponseView {
            body: self.body@,
            header: self.header@,
            status: self.status,
            delay: self.delay,
            state: self.state,
            selected: self.selected,
        }
    }
}

impl ResponseView {
    /// How many of the two response views hold the focus.
    pub open spec fn focus_count(self) -> int {
        (if is_active(self.body.state) {
            1int
        } else {
            0int
        }) + (if is_active(self.header.state) {
            1int
        } else {
            0int
        })
    }
}

/// One key routed to whichever response view holds the focus.
pub open spec fn response_step(v: ResponseView, k: Key) -> ResponseView {
    if is_active(v.body.state) {
        ResponseView { body: resp_body_step(v.body, k), ..v }
    } else if is_active(v.header.state) {
        ResponseView { header: header_step(v.header, k), ..v }
    } else {
        v
    }
}

/// The events the focused response view enqueues for one key.
pub open spec fn response_emits(v: ResponseView, k: Key) -> Seq<EventView> {
    if is_active(v.body.state) {
        resp_body_emits(k)
    } else if is_active(v.header.state) {
        header_emits(k)
    } else {
        Seq::empty()
    }
}

impl Response {
    pub open spec fn wf(self) -> bool {
        &&& self.body.wf()
        &&& self.header.wf()
    }

    /// An empty response half: nothing received yet, nothing focused, the
    /// body tab selected.
    pub fn default() -> (r: Response)
        ensures
            r.wf(),
            r@.body.data == Seq::<Seq<char>>::empty(),
            r@.body.data_display_from == 0,
            r@.body.state == ComponentState::UnFocused,
            r@.header.data == Seq::<(Seq<char>, Seq<char>)>::empty(),
            r@.header.data_display_from == 0,
            r@.header.state == ComponentState::UnFocused,
            r@.status.data is None,
            r@.delay.data is None,
            r@.state == ComponentState::UnFocused,
            r@.selected == ResponseComponents::Body,
    {
        Response {
            tab: Tab::default(),
            body: Body::default(),
            header: Header::default(),
            status: Status::default(),
            delay: Delay::default(),
            state: ComponentState::UnFocused,
            selected: ResponseComponents::Body,
        }
    }

    /// Replace the whole response model atomically from one completed
    /// call: body lines, header pairs, status and latency together.
    pub fn set_data(&mut self, resp: http_request::Response)
        ensures
            final(self).wf(),
            final(self)@ == (ResponseView {
                body: (body::BodyView {
                    data: resp@.body,
                    data_display_from: 0,
                    ..old(self)@.body
                }),
                header: (header::HeaderView {
                    data: resp@.header,
                    data_display_from: 0,
                    ..old(self)@.header
                }),
                status: (Status { data: Some(resp@.status) }),
                delay: (Delay { data: Some(resp@.delay_ms) }),
                ..old(self)@
            }),
    {
        let http_request::Response { status, header, body, delay_ms } = resp;
        self.body.set_data(body);
        self.header.set_data(header);
        self.status.set_data(status);
        self.delay.set_data(delay_ms);
        proof {
            assert(self@ =~= (ResponseView {
                body: (body::BodyView {
                    data: resp@.body,
                    data_display_from: 0,
                    ..old(self)@.body
                }),
                header: (header::HeaderView {
                    data: resp@.header,
                    data_display_from: 0,
                    ..old(self)@.header
                }),
                status: (Status { data: Some(resp@.status) }),
                delay: (Delay { data: Some(resp@.delay_ms) }),
                ..old(self)@
            }));
        }
    }

    pub fn is_focused(&self) -> (r: bool)
        ensures
            r == is_active(self.state),
    {
        self.state.is_focused()
    }

    /// Take the focus away from the container and both views in it.
    pub fn unfocused(&mut self)
        ensures
            final(self)@ == (ResponseView {
                body: (body::BodyView { state: ComponentState::UnFocused, ..old(self)@.body }),
                header: (header::HeaderView {
                    state: ComponentState::UnFocused,
                    ..old(self)@.header
                }),
                state: ComponentState::UnFocused,
                ..old(self)@
            }),
            final(self).wf() == old(self).wf(),
    {
        self.set_state(ComponentState::UnFocused);
        self.body.set_state(ComponentState::UnFocused);
        self.header.set_state(ComponentState::UnFocused);
        proof {
            assert(self@ =~= (ResponseView {
                body: (body::BodyView { state: ComponentState::UnFocused, ..old(self)@.body }),
                header: (header::HeaderView {
                    state: ComponentState::UnFocused,
                    ..old(self)@.header
                }),
                state: ComponentState::UnFocused,
                ..old(self)@
            }));
        }
    }

    pub fn key_handle(&mut self, k: Key, events: &mut Vec<Event>)
        requires
            old(self).wf(),
        ensures
            final(self).wf(),
            final(self)@ == response_step(old(self)@, k),
            events_view(final(events)@) == events_view(old(events)@) + response_emits(
                old(self)@,
                k,
            ),
    {
        let ghost ev0 = events_view(events@);
        if self.body.is_focused() {
            self.body.key_handle(k, events);
        } else if self.header.is_focused() {
            self.header.key_handle(k, events);
        } else {
            proof {
                assert(events_view(events@) =~= ev0 + Seq::<EventView>::empty());
            }
        }
        proof {
            assert(self@ =~= response_step(old(self)@, k));
        }
    }

    pub fn set_state(&mut self, state: ComponentState)
        ensures
            final(self)@ == (ResponseView { state, ..old(self)@ }),
            final(self).wf() == old(self).wf(),
    {
        self.state = state;
        proof {
            assert(self@ =~= (ResponseView { state, ..old(self)@ }));
        }
    }

    /// Select which response view the tab strip shows and narrow the
    /// focus to it.
    pub fn focus_component(&mut self, component: ResponseComponents)
        requires
            old(self).wf(),
        ensures
            final(self).wf(),
            final(self)@ == (ResponseView {
                body: (body::BodyView {
                    state: if component is Body {
                        ComponentState::Focused
                    } else {
                        ComponentState::UnFocused
                    },
                    ..old(self)@.body
                }),
                header: (header::HeaderView {
                    state: if component is Header {
                        ComponentState::Focused
                    } else {
                        ComponentState::UnFocused
                    },
                    ..old(self)@.header
                }),
                state: ComponentState::Focused,
                selected: component,
                ..old(self)@
            }),
    {
        self.body.set_state(ComponentState::UnFocused);
        self.header.set_state(ComponentState::UnFocused);
        self.state = ComponentState::Focused;
        self.selected = component;
        match component {
            ResponseComponents::Body => self.body.set_state(ComponentState::Focused),
            ResponseComponents::Header => self.header.set_state(ComponentState::Focused),
        }
        proof {
            assert(self@ =~= (ResponseView {
                body: (body::BodyView {
                    state: if component is Body {
                        ComponentState::Focused
                    } else {
                        ComponentState::UnFocused
                    },
                    ..old(self)@.body
                }),
                header: (header::HeaderView {
                    state: if component is Header {
                        ComponentState::Focused
                    } else {
                        ComponentState::UnFocused
                    },
                    ..old(self)@.header
                }),
                state: ComponentState::Focused,
                selected: component,
                ..old(self)@
            }));
        }
    }
}

} // verus!
