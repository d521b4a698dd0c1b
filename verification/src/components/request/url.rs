use vstd::prelude::*;

use crate::components::{is_active, ComponentState};
use crate::event::{events_view, send, Event, EventView, Key};
use crate::text::{chars_equal, chars_to_string, display_cols, find_char, first_pos,
    lemma_first_pos_at, lemma_first_pos_found, lemma_first_pos_none, subvec, clamp_u16, cols};
use crate::ui::default_key_handle::{default_events, default_key_handle};

verus! {

/// Whether a character is an ASCII control character; the URL field rejects
/// these as literal input.
pub open spec fn is_ctl(c: char) -> bool {
    (c as u32) < 32 || (c as u32) == 127
}

fn is_control_char(c: char) -> (r: bool)
    ensures
        r == is_ctl(c),
{
    let u = c as u32;
    u < 32 || u == 127
}

/// The query string of a URL text: everything after the first '?', or
/// nothing when no '?' occurs.  A URL ending in '?' has an empty query.
pub open spec fn query_of(s: Seq<char>) -> Option<Seq<char>> {
    let i = first_pos(s, '?');
    if i == -1 {
        None
    } else {
        Some(s.skip(i + 1))
    }
}

/// The URL text rewritten to carry `q` as its query string: everything up
/// to the first '?' is kept, then '?' and `q`.
pub open spec fn with_query(s: Seq<char>, q: Seq<char>) -> Seq<char> {
    let i = first_pos(s, '?');
    let base = if i == -1 {
        s
    } else {
        s.take(i)
    };
    base + seq!['?'] + q
}

/// After rewriting, the URL's query string reads back as exactly `q`.
pub proof fn lemma_query_of_with_query(s: Seq<char>, q: Seq<char>)
    ensures
        query_of(with_query(s, q)) == Some(q),
{
    let i = first_pos(s, '?');
    let base = if i == -1 {
        s
    } else {
        s.take(i)
    };
    if i == -1 {
        lemma_first_pos_none(s, '?');
    } else {
        lemma_first_pos_found(s, '?');
    }
    let w = with_query(s, q);
    assert(w[base.len() as int] == '?');
    assert forall|j: int| 0 <= j < base.len() implies w[j] != '?' by {
        assert(w[j] == base[j]);
    }
    lemma_first_pos_at(w, '?', base.len() as int);
    assert(w.skip(base.len() as int + 1) =~= q);
}

/// The URL field: a single editable line holding the request target.
pub struct Url {
    pub data: Vec<char>,
    pub x_data_editing_at: usize,
    pub state: ComponentState,
}

/// The mathematical content of the URL field.
#[verifier::ext_equal]
pub struct UrlView {
    pub data: Seq<char>,
    pub x_data_editing_at: int,
    pub state: ComponentState,
}

impl View for Url {
    type V = UrlView;

    open spec fn view(&self) -> UrlView {
        UrlView {
            data: self.data@,
            x_data_editing_at: self.x_data_editing_at as int,
            state: self.state,
        }
    }
}

/// The synchronizer's message after an edit of the URL: the query string
/// read out of the URL, or nothing when the URL has no query.
pub open spec fn url_sync_events(data: Seq<char>) -> Seq<EventView> {
    match query_of(data) {
        Some(q) => seq![EventView::SetQuery(q)],
        None => Seq::empty(),
    }
}

/// Writing a query into the URL: a no-op when the URL already carries
/// exactly that query, otherwise the query substring is rewritten and the
/// cursor moves to the end of the line.
pub open spec fn url_set_query(v: UrlView, q: Seq<char>) -> UrlView {
    if query_of(v.data) == Some(q) {
        v
    } else {
        UrlView { data: with_query(v.data, q), x_data_editing_at: with_query(v.data, q).len() as int, ..v }
    }
}

/// The URL field's reaction to one key.
pub open spec fn url_step(v: UrlView, k: Key) -> UrlView {
    match v.state {
        ComponentState::UnFocused => v,
        ComponentState::Focused => if k == Key::Char('\n') {
            UrlView { state: ComponentState::Editing, ..v }
        } else {
            v
        },
        ComponentState::Editing => match k {
            Key::Char(c) => if !is_ctl(c) && v.x_data_editing_at < usize::MAX {
                UrlView {
                    data: v.data.insert(v.x_data_editing_at, c),
                    x_data_editing_at: v.x_data_editing_at + 1,
                    ..v
                }
            } else {
                v
            },
            Key::Backspace => if v.x_data_editing_at > 0 {
                UrlView {
                    data: v.data.remove(v.x_data_editing_at - 1),
                    x_data_editing_at: v.x_data_editing_at - 1,
                    ..v
                }
            } else {
                v
            },
            Key::Left => if v.x_data_editing_at > 0 {
                UrlView { x_data_editing_at: v.x_data_editing_at - 1, ..v }
            } else {
                v
            },
            Key::Right => if v.x_data_editing_at < v.data.len() {
                UrlView { x_data_editing_at: v.x_data_editing_at + 1, ..v }
            } else {
                v
            },
            Key::Esc => UrlView { state: ComponentState::Focused, ..v },
            _ => v,
        },
    }
}

/// The events the URL field enqueues for one key: the synchronizer's
/// message after a mutating edit, or whatever the default handler sends for
/// a key the field does not consume.
pub open spec fn url_emits(v: UrlView, k: Key) -> Seq<EventView> {
    match v.state {
        ComponentState::UnFocused => Seq::empty(),
        ComponentState::Focused => if k == Key::Char('\n') {
            Seq::empty()
        } else {
            default_events(k)
        },
        ComponentState::Editing => match k {
            Key::Char(c) => if !is_ctl(c) {
                if v.x_data_editing_at < usize::MAX {
                    url_sync_events(url_step(v, k).data)
                } else {
                    Seq::empty()
                }
            } else {
                default_events(k)
            },
            Key::Backspace => if v.x_data_editing_at > 0 {
                url_sync_events(url_step(v, k).data)
            } else {
                Seq::empty()
            },
            Key::Left | Key::Right | Key::Esc => Seq::empty(),
            _ => default_events(k),
        },
    }
}

impl Url {
    /// Cursor well-formedness: the column never exceeds the line's length.
    pub open spec fn wf(self) -> bool {
        self.x_data_editing_at as int <= self.data@.len()
    }

    /// An empty URL line, focused, cursor at its start.
    pub fn default() -> (r: Url)
        ensures
            r.wf(),
            r@.data == Seq::<char>::empty(),
            r@.x_data_editing_at == 0,
            r@.state == ComponentState::Focused,
    {
        Url { data: Vec::new(), x_data_editing_at: 0, state: ComponentState::Focused }
    }

    pub fn key_handle(&mut self, k: Key, events: &mut Vec<Event>)
        requires
            old(self).wf(),
        ensures
            final(self).wf(),
            final(self)@ == url_step(old(self)@, k),
            events_view(final(events)@) == events_view(old(events)@) + url_emits(old(self)@, k),
    {
        let ghost ev0 = events_view(events@);
        match self.state {
            ComponentState::Focused => match k {
                Key::Char('\n') => {
                    self.state = ComponentState::Editing;
                    proof {
                        assert(self@ =~= url_step(old(self)@, k));
                        assert(events_view(events@) =~= ev0 + url_emits(old(self)@, k));
                    }
                },
                _ => {
                    default_key_handle(k, events);
                    proof {
                        assert(self@ =~= url_step(old(self)@, k));
                    }
                },
            },
            ComponentState::Editing => match k {
                Key::Char(c) => {
                    if !is_control_char(c) {
                        if self.x_data_editing_at < usize::MAX {
                            self.data.insert(self.x_data_editing_at, c);
                            self.x_data_editing_at = self.x_data_editing_at + 1;
                            self.send_set_query_event(events);
                        } else {
                            proof {
                                assert(events_view(events@) =~= ev0 + Seq::<EventView>::empty());
                            }
                        }
                    } else {
                        default_key_handle(k, events);
                    }
                    proof {
                        assert(self@ =~= url_step(old(self)@, k));
                    }
                },
                Key::Backspace => {
                    if self.x_data_editing_at > 0 {
                        self.data.remove(self.x_data_editing_at - 1);
                        self.x_data_editing_at = self.x_data_editing_at - 1;
                        self.send_set_query_event(events);
                    } else {
                        proof {
                            assert(events_view(events@) =~= ev0 + Seq::<EventView>::empty());
                        }
                    }
                    proof {
                        assert(self@ =~= url_step(old(self)@, k));
                    }
                },
                Key::Left => {
                    if self.x_data_editing_at > 0 {
                        self.x_data_editing_at = self.x_data_editing_at - 1;
                    }
                    proof {
                        assert(self@ =~= url_step(old(self)@, k));
                        assert(events_view(events@) =~= ev0 + Seq::<EventView>::empty());
                    }
                },
                Key::Right => {
                    if self.x_data_editing_at < self.data.len() {
                        self.x_data_editing_at = self.x_data_editing_at + 1;
                    }
                    proof {
                        assert(self@ =~= url_step(old(self)@, k));
                        assert(events_view(events@) =~= ev0 + Seq::<EventView>::empty());
                    }
                },
                Key::Esc => {
                    self.state = ComponentState::Focused;
                    proof {
                        assert(self@ =~= url_step(old(self)@, k));
                        assert(events_view(events@) =~= ev0 + Seq::<EventView>::empty());
                    }
                },
                _ => {
                    default_key_handle(k, events);
                    proof {
                        assert(self@ =~= url_step(old(self)@, k));
                    }
                },
            },
            ComponentState::UnFocused => {
                proof {
                    assert(self@ =~= url_step(old(self)@, k));
                    assert(events_view(events@) =~= ev0 + Seq::<EventView>::empty());
                }
            },
        }
    }

    /// The screen column of the cursor: the summed display width of the
    /// characters left of it.
    pub fn x_cursor_postion(&self) -> (r: u16)
        requires
            self.wf(),
        ensures
            r as int == clamp_u16(cols(self.data@.take(self.x_data_editing_at as int))),
    {
        display_cols(&self.data, self.x_data_editing_at)
    }

    /// The URL's query string, if it carries one.
    pub fn get_query(&self) -> (r: Option<Vec<char>>)
        ensures
            match r {
                Some(q) => query_of(self.data@) == Some(q@),
                None => query_of(self.data@) is None,
            },
    {
        match find_char(&self.data, '?') {
            None => None,
            Some(i) => {
                let n = self.data.len();
                proof {
                    lemma_first_pos_found(self.data@, '?');
                    assert(i < n);
                }
                let q = subvec(&self.data, i + 1, n);
                proof {
                    assert(q@ =~= self.data@.skip(i + 1));
                }
                Some(q)
            },
        }
    }

    /// Enqueue the synchronizer's message for the current URL text.
    fn send_set_query_event(&self, events: &mut Vec<Event>)
        ensures
            events_view(final(events)@) == events_view(old(events)@) + url_sync_events(
                self.data@,
            ),
    {
        let ghost ev0 = events_view(events@);
        match self.get_query() {
            Some(query) => {
                let ghost qv = query@;
                send(events, Event::SetQuery(query));
                proof {
                    assert(events_view(events@) =~= ev0 + seq![EventView::SetQuery(qv)]);
                }
            },
            None => {
                proof {
                    assert(events_view(events@) =~= ev0 + Seq::<EventView>::empty());
                }
            },
        }
    }

    /// Rewrite the URL's query substring to `query`, unless it already
    /// reads exactly so (the synchronizer's feedback guard).
    pub fn set_query(&mut self, query: &Vec<char>)
        requires
            old(self).wf(),
        ensures
            final(self).wf(),
            final(self)@ == url_set_query(old(self)@, query@),
    {
        let already = match self.get_query() {
            Some(old_query) => chars_equal(&old_query, query),
            None => false,
        };
        if already {
            return;
        }
        proof {
            assert(query_of(old(self)@.data) != Some(query@));
        }
        let cut = match find_char(&self.data, '?') {
            Some(i) => i,
            None => self.data.len(),
        };
        proof {
            if first_pos(self.data@, '?') != -1 {
                lemma_first_pos_found(self.data@, '?');
            }
        }
        self.data.truncate(cut);
        self.data.push('?');
        let n = query.len();
        let mut i: usize = 0;
        let ghost base = if first_pos(old(self)@.data, '?') == -1 {
            old(self)@.data
        } else {
            old(self)@.data.take(first_pos(old(self)@.data, '?'))
        };
        proof {
            assert(old(self)@.data.take(old(self)@.data.len() as int) =~= old(self)@.data);
            assert(self.data@ =~= base + seq!['?'] + query@.take(0));
        }
        while i < n
            invariant
                i <= n,
                n == query@.len(),
                self.data@ == base + seq!['?'] + query@.take(i as int),
                self.state == old(self).state,
            decreases n - i,
        {
            self.data.push(query[i]);
            proof {
                assert((base + seq!['?'] + query@.take(i as int)).push(query@[i as int]) =~= base
                    + seq!['?'] + query@.take(i + 1));
            }
            i = i + 1;
        }
        self.x_data_editing_at = self.data.len();
        proof {
            assert(query@.take(n as int) =~= query@);
            assert(self@ =~= url_set_query(old(self)@, query@));
        }
    }

    /// The URL as one string.
    pub fn get_data(&self) -> (r: String)
        ensures
            r@ == self.data@,
    {
        chars_to_string(&self.data)
    }

    pub fn set_state(&mut self, state: ComponentState)
        ensures
            final(self)@ == (UrlView { state, ..old(self)@ }),
            final(self).wf() == old(self).wf(),
    {
        self.state = state;
        proof {
            assert(self@ =~= UrlView { state, ..old(self)@ });
        }
    }

    pub fn is_focused(&self) -> (r: bool)
        ensures
            r == is_active(self.state),
    {
        self.state.is_focused()
    }
}

} // verus!
