use vstd::prelude::*;

pub mod body;
pub mod method;
pub mod query;
pub mod url;

use crate::components::{is_active, ComponentState};
use crate::event::{events_view, Event, EventView, Key};
use crate::http_request::HttpMethod;
use crate::text::concat_texts;
use body::{body_emits, body_step, Body, BodyView};
use method::{method_emits, method_step, Method};
use query::{query_emits, query_step, Query, QueryView};
use url::{url_emits, url_step, Url, UrlView};

verus! {

/// The request half of the form: the method, URL, query and body fields
/// under one container.
pub struct Request {
    pub method: Method,
    pub url: Url,
    pub query: Query,
    pub body: Body,
    pub state: ComponentState,
}

/// The mathematical content of the request half.
#[verifier::ext_equal]
pub struct RequestView {
    pub method: Method,
    pub url: UrlView,
    pub query: QueryView,
    pub body: BodyView,
    pub state: ComponentState,
}

impl View for Request {
    type V = RequestView;

    open spec fn view(&self) -> RequestView {
        RequestView {
            method: self.method,
            url: self.url@,
            query: self.query@,
            body: self.body@,
            state: self.state,
        }
    }
}

impl RequestView {
    /// How many of the four request fields hold the focus.
    pub open spec fn focus_count(self) -> int {
        (if is_active(self.method.state) {
            1int
        } else {
            0int
        }) + (if is_active(self.url.state) {
            1int
        } else {
            0int
        }) + (if is_active(self.query.state) {
            1int
        } else {
            0int
        }) + (if is_active(self.body.state) {
            1int
        } else {
            0int
        })
    }
}

/// One key routed to whichever request field holds the focus.
pub open spec fn request_step(v: RequestView, k: Key) -> RequestView {
    if is_active(v.method.state) {
        RequestView { method: method_step(v.method, k), ..v }
    } else if is_active(v.url.state) {
        RequestView { url: url_step(v.url, k), ..v }
    } else if is_active(v.query.state) {
        RequestView { query: query_step(v.query, k), ..v }
    } else if is_active(v.body.state) {
        RequestView { body: body_step(v.body, k), ..v }
    } else {
        v
    }
}

/// The events the focused request field enqueues for one key.
pub open spec fn request_emits(v: RequestView, k: Key) -> Seq<EventView> {
    if is_active(v.method.state) {
        method_emits(v.method, k)
    } else if is_active(v.url.state) {
        url_emits(v.url, k)
    } else if is_active(v.query.state) {
        query_emits(v.query, k)
    } else if is_active(v.body.state) {
        body_emits(v.body, k)
    } else {
        Seq::empty()
    }
}

impl Request {
    pub open spec fn wf(self) -> bool {
        &&& self.method.wf()
        &&& self.url.wf()
        &&& self.query.wf()
        &&& self.body.wf()
    }

    /// A fresh request form: every field empty, the URL field focused.
    pub fn default() -> (r: Request)
        ensures
            r.wf(),
            r@.method == (Method {
                data: HttpMethod::Get,
                selected_method_index: 0,
                state: ComponentState::UnFocused,
            }),
            r@.url.data == Seq::<char>::empty(),
            r@.url.state == ComponentState::Focused,
            r@.query.editor.texts == seq![Seq::<char>::empty()],
            r@.query.state == ComponentState::UnFocused,
            r@.body.editor.texts == seq![Seq::<char>::empty()],
            r@.body.state == ComponentState::UnFocused,
            r@.state == ComponentState::Focused,
            r@.focus_count() == 1,
    {
        Request {
            method: Method::default(),
            url: Url::default(),
            query: Query::default(),
            body: Body::default(),
            state: ComponentState::Focused,
        }
    }

    pub fn is_focused(&self) -> (r: bool)
        ensures
            r == is_active(self.state),
    {
        self.state.is_focused()
    }

    /// Take the focus away from the container and every field in it.
    pub fn unfocused(&mut self)
        ensures
            final(self)@ == (RequestView {
                method: (Method { state: ComponentState::UnFocused, ..old(self)@.method }),
                url: (UrlView { state: ComponentState::UnFocused, ..old(self)@.url }),
                query: (QueryView { state: ComponentState::UnFocused, ..old(self)@.query }),
                body: (BodyView { state: ComponentState::UnFocused, ..old(self)@.body }),
                state: ComponentState::UnFocused,
            }),
            final(self).wf() == old(self).wf(),
    {
        self.set_state(ComponentState::UnFocused);
        self.url.set_state(ComponentState::UnFocused);
        self.method.set_state(ComponentState::UnFocused);
        self.query.set_state(ComponentState::UnFocused);
        self.body.set_state(ComponentState::UnFocused);
        proof {
            assert(self@ =~= (RequestView {
                method: (Method { state: ComponentState::UnFocused, ..old(self)@.method }),
                url: (UrlView { state: ComponentState::UnFocused, ..old(self)@.url }),
                query: (QueryView { state: ComponentState::UnFocused, ..old(self)@.query }),
                body: (BodyView { state: ComponentState::UnFocused, ..old(self)@.body }),
                state: ComponentState::UnFocused,
            }));
        }
    }

    /// The method the form would submit with.
    pub fn get_method(&self) -> (r: HttpMethod)
        ensures
            r == self@.method.data,
    {
        self.method.get_data()
    }

    /// The URL the form would submit to.
    pub fn get_url(&self) -> (r: String)
        ensures
            r@ == self@.url.data,
    {
        self.url.get_data()
    }

    /// The body the form would submit.
    pub fn get_body(&self) -> (r: String)
        ensures
            r@ == concat_texts(self@.body.editor.texts),
    {
        self.body.get_data()
    }

    pub fn key_handle(&mut self, k: Key, events: &mut Vec<Event>)
        requires
            old(self).wf(),
        ensures
            final(self).wf(),
            final(self)@ == request_step(old(self)@, k),
            events_view(final(events)@) == events_view(old(events)@) + request_emits(
                old(self)@,
                k,
            ),
    {
        let ghost ev0 = events_view(events@);
        if self.method.is_focused() {
            self.method.key_handle(k, events);
        } else if self.url.is_focused() {
            self.url.key_handle(k, events);
        } else if self.query.is_focused() {
            self.query.key_handle(k, events);
        } else if self.body.is_focused() {
            self.body.key_handle(k, events);
        } else {
            proof {
                assert(events_view(events@) =~= ev0 + Seq::<EventView>::empty());
            }
        }
        proof {
            assert(self@ =~= request_step(old(self)@, k));
        }
    }

    pub fn set_state(&mut self, state: ComponentState)
        ensures
            final(self)@ == (RequestView { state, ..old(self)@ }),
            final(self).wf() == old(self).wf(),
    {
        self.state = state;
        proof {
            assert(self@ =~= (RequestView { state, ..old(self)@ }));
        }
    }
}

} // verus!
