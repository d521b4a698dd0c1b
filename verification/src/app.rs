use vstd::prelude::*;

use crate::components::help_message::HelpMessage;
use crate::components::request::body::BodyView;
use crate::components::request::query::{query_set_data, query_text, QueryView};
use crate::components::request::url::{query_of, url_set_query, UrlView};
use crate::components::request::method::Method;
use crate::components::request::{request_emits, request_step, Request, RequestView};
use crate::components::response::body as resp_body;
use crate::components::response::header as resp_header;
use crate::components::response::delay::Delay;
use crate::components::response::status::Status;
use crate::components::response::{response_emits, response_step, Response, ResponseComponents,
    ResponseView};
use crate::components::{is_active, ComponentPosition, ComponentState};
use crate::event::{events_view, Event, EventView, Key};
use crate::http_request;
use crate::http_request::HttpMethod;
use crate::text::{concat_texts, lemma_join_split};

verus! {

/// The whole form: the request half, the response half and the help line,
/// with one single focus across all of it.
pub struct App {
    pub help_message: HelpMessage,
    pub request: Request,
    pub response: Response,
}

/// The mathematical content of the whole form.
#[verifier::ext_equal]
pub struct AppView {
    pub request: RequestView,
    pub response: ResponseView,
}

impl View for App {
    type V = AppView;

    open spec fn view(&self) -> AppView {
        AppView { request: self.request@, response: self.response@ }
    }
}

impl AppView {
    /// How many fields across the whole form hold the focus.
    pub open spec fn focus_count(self) -> int {
        self.request.focus_count() + self.response.focus_count()
    }

    /// The single-focus invariant: exactly one field of the whole form is
    /// focused or editing, each container is focused exactly when the
    /// focused field is one of its children, and containers themselves
    /// are never in the editing state.
    pub open spec fn focus_wf(self) -> bool {
        &&& self.focus_count() == 1
        &&& is_active(self.request.state) <==> self.request.focus_count() == 1
        &&& is_active(self.response.state) <==> self.response.focus_count() == 1
        &&& !(self.request.state is Editing)
        &&& !(self.response.state is Editing)
    }
}

/// One key routed to whichever half of the form holds the focus.
pub open spec fn app_key_step(v: AppView, k: Key) -> AppView {
    if is_active(v.request.state) {
        AppView { request: request_step(v.request, k), ..v }
    } else if is_active(v.response.state) {
        AppView { response: response_step(v.response, k), ..v }
    } else {
        v
    }
}

/// The events one key makes the focused half enqueue.
pub open spec fn app_key_emits(v: AppView, k: Key) -> Seq<EventView> {
    if is_active(v.request.state) {
        request_emits(v.request, k)
    } else if is_active(v.response.state) {
        response_emits(v.response, k)
    } else {
        Seq::empty()
    }
}

/// The form with every field unfocused: the state change_focus passes
/// through before focusing the target.
pub open spec fn app_unfocused(v: AppView) -> AppView {
    AppView {
        request: RequestView {
            method: (Method { state: ComponentState::UnFocused, ..v.request.method }),
            url: (UrlView { state: ComponentState::UnFocused, ..v.request.url }),
            query: (QueryView { state: ComponentState::UnFocused, ..v.request.query }),
            body: (BodyView { state: ComponentState::UnFocused, ..v.request.body }),
            state: ComponentState::UnFocused,
        },
        response: ResponseView {
            body: (resp_body::BodyView {
                state: ComponentState::UnFocused,
                ..v.response.body
            }),
            header: (resp_header::HeaderView {
                state: ComponentState::UnFocused,
                ..v.response.header
            }),
            state: ComponentState::UnFocused,
            ..v.response
        },
    }
}

/// The atomic focus change: the whole previous focus chain is cleared,
/// then the target field and its container are focused; a response target
/// additionally selects its tab.
pub open spec fn app_change_focus(v: AppView, position: ComponentPosition) -> AppView {
    let c = app_unfocused(v);
    match position {
        ComponentPosition::RequestMethod => AppView {
            request: RequestView {
                method: (Method { state: ComponentState::Focused, ..c.request.method }),
                state: ComponentState::Focused,
                ..c.request
            },
            ..c
        },
        ComponentPosition::RequestUrl => AppView {
            request: RequestView {
                url: (UrlView { state: ComponentState::Focused, ..c.request.url }),
                state: ComponentState::Focused,
                ..c.request
            },
            ..c
        },
        ComponentPosition::RequestQuery => AppView {
            request: RequestView {
                query: (QueryView { state: ComponentState::Focused, ..c.request.query }),
                state: ComponentState::Focused,
                ..c.request
            },
            ..c
        },
        ComponentPosition::RequestBody => AppView {
            request: RequestView {
                body: (BodyView { state: ComponentState::Focused, ..c.request.body }),
                state: ComponentState::Focused,
                ..c.request
            },
            ..c
        },
        ComponentPosition::Response(component) => AppView {
            response: ResponseView {
                body: (resp_body::BodyView {
                    state: if component is Body {
                        ComponentState::Focused
                    } else {
                        ComponentState::UnFocused
                    },
                    ..c.response.body
                }),
                header: (resp_header::HeaderView {
                    state: if component is Header {
                        ComponentState::Focused
                    } else {
                        ComponentState::UnFocused
                    },
                    ..c.response.header
                }),
                state: ComponentState::Focused,
                selected: component,
                ..c.response
            },
            ..c
        },
    }
}

/// One synchronizer message applied to the form: the query field's lines
/// are rebuilt from the text and the URL's query substring is rewritten to
/// it, each side skipping the write when it already reads so.
pub open spec fn app_set_query(v: AppView, q: Seq<char>) -> AppView {
    AppView {
        request: RequestView {
            query: query_set_data(v.request.query, q),
            url: url_set_query(v.request.url, q),
            ..v.request
        },
        ..v
    }
}

/// One completed call applied to the form: the whole response model is
/// replaced, nothing else moves.
pub open spec fn app_response(v: AppView, resp: http_request::ResponseView) -> AppView {
    AppView {
        response: ResponseView {
            body: (resp_body::BodyView {
                data: resp.body,
                data_display_from: 0,
                ..v.response.body
            }),
            header: (resp_header::HeaderView {
                data: resp.header,
                data_display_from: 0,
                ..v.response.header
            }),
            status: (Status { data: Some(resp.status) }),
            delay: (Delay { data: Some(resp.delay_ms) }),
            ..v.response
        },
        ..v
    }
}

/// What the main loop must do after one event is dispatched: go on (and
/// render), perform the derived outgoing call, or stop.
pub enum Directive {
    Continue,
    Quit,
    Submit(HttpMethod, String, String),
}

impl App {
    /// Form well-formedness: every buffer's cursor in range and the single
    /// focus invariant.
    pub open spec fn wf(self) -> bool {
        &&& self.request.wf()
        &&& self.response.wf()
        &&& self@.focus_wf()
    }

    /// A fresh form: everything empty, the URL field holding the focus.
    pub fn default() -> (r: App)
        ensures
            r.wf(),
            r@.request.url.state == ComponentState::Focused,
            r@.request.url.data == Seq::<char>::empty(),
            r@.request.method.data == HttpMethod::Get,
            r@.request.query.editor.texts == seq![Seq::<char>::empty()],
            r@.request.body.editor.texts == seq![Seq::<char>::empty()],
            r@.response.status.data is None,
            r@.response.delay.data is None,
            r@.response.selected == ResponseComponents::Body,
    {
        App {
            help_message: HelpMessage {  },
            request: Request::default(),
            response: Response::default(),
        }
    }

    /// Route one keypress to whichever half of the form holds the focus.
    pub fn key_handle(&mut self, k: Key, events: &mut Vec<Event>)
        requires
            old(self).wf(),
        ensures
            final(self).wf(),
            final(self)@ == app_key_step(old(self)@, k),
            events_view(final(events)@) == events_view(old(events)@) + app_key_emits(
                old(self)@,
                k,
            ),
    {
        let ghost ev0 = events_view(events@);
        if self.request.is_focused() {
            self.request.key_handle(k, events);
        } else if self.response.is_focused() {
            self.response.key_handle(k, events);
        } else {
            proof {
                assert(events_view(events@) =~= ev0 + Seq::<EventView>::empty());
            }
        }
        proof {
            assert(self@ =~= app_key_step(old(self)@, k));
        }
    }

    /// Move the single focus to `position`, unfocusing the previous focus
    /// chain entirely first.
    pub fn change_focus(&mut self, position: ComponentPosition)
        requires
            old(self).wf(),
        ensures
            final(self).wf(),
            final(self)@ == app_change_focus(old(self)@, position),
    {
        self.response.unfocused();
        self.request.unfocused();
        match position {
            ComponentPosition::RequestMethod => {
                self.request.set_state(ComponentState::Focused);
                self.request.method.set_state(ComponentState::Focused);
            },
            ComponentPosition::RequestUrl => {
                self.request.set_state(ComponentState::Focused);
                self.request.url.set_state(ComponentState::Focused);
            },
            ComponentPosition::RequestQuery => {
                self.request.set_state(ComponentState::Focused);
                self.request.query.set_state(ComponentState::Focused);
            },
            ComponentPosition::RequestBody => {
                self.request.set_state(ComponentState::Focused);
                self.request.body.set_state(ComponentState::Focused);
            },
            ComponentPosition::Response(response_component) => {
                self.response.focus_component(response_component);
            },
        }
        proof {
            assert(self@ =~= app_change_focus(old(self)@, position));
        }
    }

    /// Apply one synchronizer message to both sides of the derivation.
    pub fn set_query_handle(&mut self, query: Vec<char>)
        requires
            old(self).wf(),
        ensures
            final(self).wf(),
            final(self)@ == app_set_query(old(self)@, query@),
    {
        self.request.query.set_data(&query);
        self.request.url.set_query(&query);
        proof {
            assert(self@ =~= app_set_query(old(self)@, query@));
        }
    }

    /// Replace the response model from one completed call.
    pub fn response_handle(&mut self, resp: http_request::Response)
        requires
            old(self).wf(),
        ensures
            final(self).wf(),
            final(self)@ == app_response(old(self)@, resp@),
    {
        self.response.set_data(resp);
        proof {
            assert(self@ =~= app_response(old(self)@, resp@));
        }
    }

    /// Derive the outgoing call from the current field values; the caller
    /// performs it and feeds the result back as a response event.
    pub fn request_handle(&self) -> (r: (HttpMethod, String, String))
        ensures
            r.0 == self@.request.method.data,
            r.1@ == self@.request.url.data,
            r.2@ == concat_texts(self@.request.body.editor.texts),
    {
        (self.request.get_method(), self.request.get_url(), self.request.get_body())
    }

    /// Dispatch one event from the queue, mutating the form and telling
    /// the main loop what outside work, if any, comes next.  A tick
    /// changes nothing (it only triggers a render); a quit stops the loop;
    /// a submit derives the outgoing call and leaves the form untouched.
    pub fn dispatch(&mut self, e: Event, events: &mut Vec<Event>) -> (r: Directive)
        requires
            old(self).wf(),
        ensures
            final(self).wf(),
            e@ matches EventView::KeyInput(k) ==> {
                &&& final(self)@ == app_key_step(old(self)@, k)
                &&& events_view(final(events)@) == events_view(old(events)@) + app_key_emits(
                    old(self)@,
                    k,
                )
                &&& r is Continue
            },
            e@ is Tick ==> final(self)@ == old(self)@ && events_view(final(events)@)
                == events_view(old(events)@) && r is Continue,
            e@ is Quit ==> final(self)@ == old(self)@ && events_view(final(events)@)
                == events_view(old(events)@) && r is Quit,
            e@ matches EventView::SetQuery(q) ==> final(self)@ == app_set_query(old(self)@, q)
                && events_view(final(events)@) == events_view(old(events)@) && r is Continue,
            e@ is Request ==> final(self)@ == old(self)@ && events_view(final(events)@)
                == events_view(old(events)@) && (r matches Directive::Submit(m, u, b) ==> m == old(
                self,
            )@.request.method.data && u@ == old(self)@.request.url.data && b@ == concat_texts(
                old(self)@.request.body.editor.texts,
            )) && (r is Submit),
            e@ matches EventView::Response(resp) ==> final(self)@ == app_response(
                old(self)@,
                resp,
            ) && events_view(final(events)@) == events_view(old(events)@) && r is Continue,
            e@ matches EventView::ChangeFocus(p) ==> final(self)@ == app_change_focus(
                old(self)@,
                p,
            ) && events_view(final(events)@) == events_view(old(events)@) && r is Continue,
    {
        match e {
            Event::KeyInput(k) => {
                self.key_handle(k, events);
                Directive::Continue
            },
            Event::Tick => Directive::Continue,
            Event::Quit => Directive::Quit,
            Event::SetQuery(query) => {
                self.set_query_handle(query);
                Directive::Continue
            },
            Event::Request => {
                let (method, url, body) = self.request_handle();
                Directive::Submit(method, url, body)
            },
            Event::Response(resp) => {
                self.response_handle(resp);
                Directive::Continue
            },
            Event::ChangeFocus(position) => {
                self.change_focus(position);
                Directive::Continue
            },
        }
    }
}

/// Synchronizer idempotence: once one SetQuery message has been handled,
/// the URL carries exactly the message's text as its query, the query
/// field's lines join back to exactly that text, and handling the same
/// message again changes nothing — so the derivation cannot oscillate.
pub proof fn lemma_synchronizer_idempotent(v: AppView, q: Seq<char>)
    ensures
        query_of(app_set_query(v, q).request.url.data) == Some(q),
        query_text(app_set_query(v, q).request.query) == q,
        app_set_query(app_set_query(v, q), q) == app_set_query(v, q),
{
    let w = app_set_query(v, q);
    crate::components::request::url::lemma_query_of_with_query(v.request.url.data, q);
    lemma_join_split(q, '&');
    assert(app_set_query(w, q) =~= w);
}

} // verus!
