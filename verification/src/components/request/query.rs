use vstd::prelude::*;

use crate::components::{is_active, ComponentState};
use crate::event::{events_view, send, Event, EventView, Key};
use crate::text::{clamp_u16, cols, join_with, lines_equal, split_at_char, split_vec};
use crate::text_buffer::{tb_backspace, tb_insert_char, tb_insert_newline, tb_move_down,
    tb_move_left, tb_move_right, tb_move_up, TextBuffer, TextBufferView};
use crate::ui::default_key_handle::{default_events, default_key_handle};

verus! {

/// The query field: a multi-line editor holding one `key=value` segment of
/// the URL's query string per line.
pub struct Query {
    pub editor: TextBuffer,
    pub state: ComponentState,
}

/// The mathematical content of the query field.
#[verifier::ext_equal]
pub struct QueryView {
    pub editor: TextBufferView,
    pub state: ComponentState,
}

impl View for Query {
    type V = QueryView;

    open spec fn view(&self) -> QueryView {
        QueryView { editor: self.editor@, state: self.state }
    }
}

/// The query text this field stands for: its lines joined with '&'.
pub open spec fn query_text(v: QueryView) -> Seq<char> {
    join_with(v.editor.texts, '&')
}

/// The query field's reaction to one key.
pub open spec fn query_step(v: QueryView, k: Key) -> QueryView {
    match v.state {
        ComponentState::UnFocused => v,
        ComponentState::Focused => if k == Key::Char('\n') {
            QueryView { state: ComponentState::Editing, ..v }
        } else {
            v
        },
        ComponentState::Editing => match k {
            Key::Char(c) => if c == '\n' {
                QueryView { editor: tb_insert_newline(v.editor), ..v }
            } else {
                QueryView { editor: tb_insert_char(v.editor, c), ..v }
            },
            Key::Backspace => QueryView { editor: tb_backspace(v.editor), ..v },
            Key::Up => QueryView { editor: tb_move_up(v.editor), ..v },
            Key::Down => QueryView { editor: tb_move_down(v.editor), ..v },
            Key::Left => QueryView { editor: tb_move_left(v.editor), ..v },
            Key::Right => QueryView { editor: tb_move_right(v.editor), ..v },
            Key::Esc => QueryView { state: ComponentState::Focused, ..v },
            _ => v,
        },
    }
}

/// The events the query field enqueues for one key: after a character
/// insertion or a deletion the synchronizer's message carrying the new
/// joined query text; otherwise whatever the default handler sends for a
/// key the field does not consume.
pub open spec fn query_emits(v: QueryView, k: Key) -> Seq<EventView> {
    match v.state {
        ComponentState::UnFocused => Seq::empty(),
        ComponentState::Focused => if k == Key::Char('\n') {
            Seq::empty()
        } else {
            default_events(k)
        },
        ComponentState::Editing => match k {
            Key::Char(c) => if c == '\n' {
                Seq::empty()
            } else {
                seq![EventView::SetQuery(query_text(query_step(v, k)))]
            },
            Key::Backspace => seq![EventView::SetQuery(query_text(query_step(v, k)))],
            Key::Up | Key::Down | Key::Left | Key::Right | Key::Esc => Seq::empty(),
            _ => default_events(k),
        },
    }
}

/// Replacing the field's text from a query string: the string is cut at
/// every '&' into lines; when the lines already read so, nothing changes
/// (the synchronizer's feedback guard), otherwise the cursor returns to
/// the buffer's start.
pub open spec fn query_set_data(v: QueryView, d: Seq<char>) -> QueryView {
    if v.editor.texts == split_at_char(d, '&') {
        v
    } else {
        QueryView {
            editor: TextBufferView {
                texts: split_at_char(d, '&'),
                x_data_editing_at: 0,
                y_data_editing_at: 0,
            },
            ..v
        }
    }
}

/// Round trip: setting the field's text from a string and reading it back
/// joined reproduces the string exactly; replacing text never auto-pairs,
/// so nothing is added or lost.
pub proof fn lemma_set_get_round_trip(v: QueryView, d: Seq<char>)
    ensures
        query_text(query_set_data(v, d)) == d,
{
    crate::text::lemma_join_split(d, '&');
}

impl Query {
    pub open spec fn wf(self) -> bool {
        self.editor.wf()
    }

    /// An empty query editor, unfocused.
    pub fn default() -> (r: Query)
        ensures
            r.wf(),
            r@.editor.texts == seq![Seq::<char>::empty()],
            r@.editor.x_data_editing_at == 0,
            r@.editor.y_data_editing_at == 0,
            r@.state == ComponentState::UnFocused,
    {
        Query { editor: TextBuffer::new(), state: ComponentState::UnFocused }
    }

    pub fn key_handle(&mut self, k: Key, events: &mut Vec<Event>)
        requires
            old(self).wf(),
        ensures
            final(self).wf(),
            final(self)@ == query_step(old(self)@, k),
            events_view(final(events)@) == events_view(old(events)@) + query_emits(old(self)@, k),
    {
        let ghost ev0 = events_view(events@);
        match self.state {
            ComponentState::Focused => match k {
                Key::Char('\n') => {
                    self.state = ComponentState::Editing;
                    proof {
                        assert(self@ =~= query_step(old(self)@, k));
                        assert(events_view(events@) =~= ev0 + query_emits(old(self)@, k));
                    }
                },
                _ => {
                    default_key_handle(k, events);
                    proof {
                        assert(self@ =~= query_step(old(self)@, k));
                    }
                },
            },
            ComponentState::Editing => match k {
                Key::Char(c) => {
                    if c == '\n' {
                        self.editor.insert_newline();
                        proof {
                            assert(events_view(events@) =~= ev0 + Seq::<EventView>::empty());
                        }
                    } else {
                        self.editor.insert_char(c);
                        self.send_set_query_event(events);
                    }
                    proof {
                        assert(self@ =~= query_step(old(self)@, k));
                    }
                },
                Key::Backspace => {
                    self.editor.backspace();
                    self.send_set_query_event(events);
                    proof {
                        assert(self@ =~= query_step(old(self)@, k));
                    }
                },
                Key::Up => {
                    self.editor.move_up();
                    proof {
                        assert(self@ =~= query_step(old(self)@, k));
                        assert(events_view(events@) =~= ev0 + Seq::<EventView>::empty());
                    }
                },
                Key::Down => {
                    self.editor.move_down();
                    proof {
                        assert(self@ =~= query_step(old(self)@, k));
                        assert(events_view(events@) =~= ev0 + Seq::<EventView>::empty());
                    }
                },
                Key::Left => {
                    self.editor.move_left();
                    proof {
                        assert(self@ =~= query_step(old(self)@, k));
                        assert(events_view(events@) =~= ev0 + Seq::<EventView>::empty());
                    }
                },
                Key::Right => {
                    self.editor.move_right();
                    proof {
                        assert(self@ =~= query_step(old(self)@, k));
                        assert(events_view(events@) =~= ev0 + Seq::<EventView>::empty());
                    }
                },
                Key::Esc => {
                    self.state = ComponentState::Focused;
                    proof {
                        assert(self@ =~= query_step(old(self)@, k));
                        assert(events_view(events@) =~= ev0 + Seq::<EventView>::empty());
                    }
                },
                _ => {
                    default_key_handle(k, events);
                    proof {
                        assert(self@ =~= query_step(old(self)@, k));
                    }
                },
            },
            ComponentState::UnFocused => {
                proof {
                    assert(self@ =~= query_step(old(self)@, k));
                    assert(events_view(events@) =~= ev0 + Seq::<EventView>::empty());
                }
            },
        }
    }

    /// Enqueue the synchronizer's message carrying the field's current
    /// joined query text.
    fn send_set_query_event(&self, events: &mut Vec<Event>)
        ensures
            events_view(final(events)@) == events_view(old(events)@) + seq![
                EventView::SetQuery(query_text(self@)),
            ],
    {
        let ghost ev0 = events_view(events@);
        let joined = self.editor.joined('&');
        let ghost jv = joined@;
        send(events, Event::SetQuery(joined));
        proof {
            assert(events_view(events@) =~= ev0 + seq![EventView::SetQuery(jv)]);
        }
    }

    /// The screen column of the cursor: the summed display width of the
    /// characters left of it on its line.
    pub fn x_cursor_postion(&self) -> (r: u16)
        requires
            self.wf(),
        ensures
            r as int == clamp_u16(
                cols(self@.editor.cur_line().take(self@.editor.x_data_editing_at)),
            ),
    {
        crate::text::display_cols(
            &self.editor.data[self.editor.y_data_editing_at],
            self.editor.x_data_editing_at,
        )
    }

    /// The screen row of the cursor, saturating at the largest screen
    /// coordinate.
    pub fn y_cursor_postion(&self) -> (r: u16)
        ensures
            r as int == clamp_u16(self.editor.y_data_editing_at as nat),
    {
        if self.editor.y_data_editing_at > 65535 {
            65535
        } else {
            self.editor.y_data_editing_at as u16
        }
    }

    pub fn set_state(&mut self, state: ComponentState)
        ensures
            final(self)@ == (QueryView { state, ..old(self)@ }),
            final(self).wf() == old(self).wf(),
    {
        self.state = state;
        proof {
            assert(self@ =~= (QueryView { state, ..old(self)@ }));
        }
    }

    /// Replace the field's lines from a query string, unless they already
    /// read exactly so.
    pub fn set_data(&mut self, data: &Vec<char>)
        requires
            old(self).wf(),
        ensures
            final(self).wf(),
            final(self)@ == query_set_data(old(self)@, data@),
    {
        let new_data = split_vec(data, '&');
        if !lines_equal(&self.editor.data, &new_data) {
            self.editor.set_lines(new_data);
        }
        proof {
            assert(self@ =~= query_set_data(old(self)@, data@));
        }
    }

    pub fn is_focused(&self) -> (r: bool)
        ensures
            r == is_active(self.state),
    {
        self.state.is_focused()
    }
}

} // verus!
