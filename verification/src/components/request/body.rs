use vstd::prelude::*;

use crate::components::{is_active, ComponentState};
use crate::event::{events_view, Event, EventView, Key};
use crate::text::{chars_to_string, clamp_u16, cols, concat_texts, flatten_vec};
use crate::text_buffer::{tb_backspace, tb_insert_char, tb_insert_newline, tb_insert_pair,
    tb_move_down, tb_move_left, tb_move_right, tb_move_up, TextBuffer, TextBufferView};
use crate::ui::default_key_handle::{default_events, default_key_handle};

verus! {

/// The request body field: a multi-line editor with auto-pairing, so that
/// typing '{' or '"' also inserts the matching closer just after the
/// cursor.
pub struct Body {
    pub editor: TextBuffer,
    pub state: ComponentState,
}

/// The mathematical content of the body field.
#[verifier::ext_equal]
pub struct BodyView {
    pub editor: TextBufferView,
    pub state: ComponentState,
}

impl View for Body {
    type V = BodyView;

    open spec fn view(&self) -> BodyView {
        BodyView { editor: self.editor@, state: self.state }
    }
}

/// The body field's reaction to one key.
pub open spec fn body_step(v: BodyView, k: Key) -> BodyView {
    match v.state {
        ComponentState::UnFocused => v,
        ComponentState::Focused => if k == Key::Char('\n') {
            BodyView { state: ComponentState::Editing, ..v }
        } else {
            v
        },
        ComponentState::Editing => match k {
            Key::Char(c) => if c == '\n' {
                BodyView { editor: tb_insert_newline(v.editor), ..v }
            } else if c == '{' {
                BodyView { editor: tb_insert_pair(v.editor, '{', '}'), ..v }
            } else if c == '"' {
                BodyView { editor: tb_insert_pair(v.editor, '"', '"'), ..v }
            } else {
                BodyView { editor: tb_insert_char(v.editor, c), ..v }
            },
            Key::Backspace => BodyView { editor: tb_backspace(v.editor), ..v },
            Key::Up => BodyView { editor: tb_move_up(v.editor), ..v },
            Key::Down => BodyView { editor: tb_move_down(v.editor), ..v },
            Key::Left => BodyView { editor: tb_move_left(v.editor), ..v },
            Key::Right => BodyView { editor: tb_move_right(v.editor), ..v },
            Key::Esc => BodyView { state: ComponentState::Focused, ..v },
            _ => v,
        },
    }
}

/// The events the body field enqueues for one key: only what the default
/// handler sends for a key the field does not consume; the body has no
/// synchronizer.
pub open spec fn body_emits(v: BodyView, k: Key) -> Seq<EventView> {
    match v.state {
        ComponentState::UnFocused => Seq::empty(),
        ComponentState::Focused => if k == Key::Char('\n') {
            Seq::empty()
        } else {
            default_events(k)
        },
        ComponentState::Editing => match k {
            Key::Char(_c) => Seq::empty(),
            Key::Backspace | Key::Up | Key::Down | Key::Left | Key::Right | Key::Esc
                => Seq::empty(),
            _ => default_events(k),
        },
    }
}

impl Body {
    pub open spec fn wf(self) -> bool {
        self.editor.wf()
    }

    /// An empty body editor, unfocused.
    pub fn default() -> (r: Body)
        ensures
            r.wf(),
            r@.editor.texts == seq![Seq::<char>::empty()],
            r@.editor.x_data_editing_at == 0,
            r@.editor.y_data_editing_at == 0,
            r@.state == ComponentState::UnFocused,
    {
        Body { editor: TextBuffer::new(), state: ComponentState::UnFocused }
    }

    pub fn key_handle(&mut self, k: Key, events: &mut Vec<Event>)
        requires
            old(self).wf(),
        ensures
            final(self).wf(),
            final(self)@ == body_step(old(self)@, k),
            events_view(final(events)@) == events_view(old(events)@) + body_emits(old(self)@, k),
    {
        let ghost ev0 = events_view(events@);
        match self.state {
            ComponentState::Focused => match k {
                Key::Char('\n') => {
                    self.state = ComponentState::Editing;
                    proof {
                        assert(self@ =~= body_step(old(self)@, k));
                        assert(events_view(events@) =~= ev0 + body_emits(old(self)@, k));
                    }
                },
                _ => {
                    default_key_handle(k, events);
                    proof {
                        assert(self@ =~= body_step(old(self)@, k));
                    }
                },
            },
            ComponentState::Editing => match k {
                Key::Char(c) => {
                    if c == '\n' {
                        self.editor.insert_newline();
                    } else if c == '{' {
                        self.editor.insert_pair('{', '}');
                    } else if c == '"' {
                        self.editor.insert_pair('"', '"');
                    } else {
                        self.editor.insert_char(c);
                    }
                    proof {
                        assert(self@ =~= body_step(old(self)@, k));
                        assert(events_view(events@) =~= ev0 + Seq::<EventView>::empty());
                    }
                },
                Key::Backspace => {
                    self.editor.backspace();
                    proof {
                        assert(self@ =~= body_step(old(self)@, k));
                        assert(events_view(events@) =~= ev0 + Seq::<EventView>::empty());
                    }
                },
                Key::Up => {
                    self.editor.move_up();
                    proof {
                        assert(self@ =~= body_step(old(self)@, k));
                        assert(events_view(events@) =~= ev0 + Seq::<EventView>::empty());
                    }
                },
                Key::Down => {
                    self.editor.move_down();
                    proof {
                        assert(self@ =~= body_step(old(self)@, k));
                        assert(events_view(events@) =~= ev0 + Seq::<EventView>::empty());
                    }
                },
                Key::Left => {
                    self.editor.move_left();
                    proof {
                        assert(self@ =~= body_step(old(self)@, k));
                        assert(events_view(events@) =~= ev0 + Seq::<EventView>::empty());
                    }
                },
                Key::Right => {
                    self.editor.move_right();
                    proof {
                        assert(self@ =~= body_step(old(self)@, k));
                        assert(events_view(events@) =~= ev0 + Seq::<EventView>::empty());
                    }
                },
                Key::Esc => {
                    self.state = ComponentState::Focused;
                    proof {
                        assert(self@ =~= body_step(old(self)@, k));
                        assert(events_view(events@) =~= ev0 + Seq::<EventView>::empty());
                    }
                },
                _ => {
                    default_key_handle(k, events);
                    proof {
                        assert(self@ =~= body_step(old(self)@, k));
                    }
                },
            },
            ComponentState::UnFocused => {
                proof {
                    assert(self@ =~= body_step(old(self)@, k));
                    assert(events_view(events@) =~= ev0 + Seq::<EventView>::empty());
                }
            },
        }
    }

    /// The screen column of the cursor: the summed display width of the
    /// characters left of it on its line.
    pub fn x_cursor_postion(&self) -> (r: u16)
        requires
            self.wf(),
        ensures
            r as int == clamp_u16(
                cols(self@.editor.cur_line().take(self@.editor.x_data_editing_at)),
            ),
    {
        crate::text::display_cols(
            &self.editor.data[self.editor.y_data_editing_at],
            self.editor.x_data_editing_at,
        )
    }

    /// The screen row of the cursor, saturating at the largest screen
    /// coordinate.
    pub fn y_cursor_postion(&self) -> (r: u16)
        ensures
            r as int == clamp_u16(self.editor.y_data_editing_at as nat),
    {
        if self.editor.y_data_editing_at > 65535 {
            65535
        } else {
            self.editor.y_data_editing_at as u16
        }
    }

    pub fn set_state(&mut self, state: ComponentState)
        ensures
            final(self)@ == (BodyView { state, ..old(self)@ }),
            final(self).wf() == old(self).wf(),
    {
        self.state = state;
        proof {
            assert(self@ =~= (BodyView { state, ..old(self)@ }));
        }
    }

    pub fn is_focused(&self) -> (r: bool)
        ensures
            r == is_active(self.state),
    {
        self.state.is_focused()
    }

    /// The whole body as one string: the lines' characters one after
    /// another, as the request is sent.
    pub fn get_data(&self) -> (r: String)
        ensures
            r@ == concat_texts(self@.editor.texts),
    {
        let flat = flatten_vec(&self.editor.data);
        chars_to_string(&flat)
    }
}

} // verus!
