//! The input-mode state machine: one keystroke and the current state give the
//! next state and what the surrounding loop has to do.

use vstd::prelude::*;
use crate::store::{
    add_spec, delete_spec, edit_description_spec, edit_title_spec, move_down_spec, move_up_spec,
    toggle_spec, App, AppView, Mode,
};
use crate::text::{pop_char, push_char, trim_of, trim_text};

verus! {

/// A keystroke, as the state machine distinguishes them.
#[derive(Clone, Copy, Debug, PartialEq, Eq, Structural)]
pub enum Key {
    Up,
    Down,
    Delete,
    Esc,
    Enter,
    Backspace,
    /// A character typed without the control modifier.
    Char(char),
    /// A character typed with the control modifier held.
    Ctrl(char),
    /// Any other key; it is ignored.
    Other,
}

/// What the loop does after a keystroke.
#[derive(Clone, Copy, Debug, PartialEq, Eq, Structural)]
pub enum Outcome {
    /// Nothing to store; wait for the next key.
    Continue,
    /// The task list changed: store it, then wait for the next key.
    Persist,
    /// End the session.
    Quit,
}

/// The character of a key in command mode, where the control modifier does not
/// matter.
pub open spec fn command_char(k: Key) -> Option<char> {
    match k {
        Key::Char(c) => Some(c),
        Key::Ctrl(c) => Some(c),
        _ => None,
    }
}

/// `s` back in command mode with an empty buffer.
pub open spec fn to_normal(s: AppView) -> AppView {
    AppView { mode: Mode::Normal, buffer: Seq::empty(), ..s }
}

/// The outcome of a store operation that only acts on a valid selection.
pub open spec fn on_selection(s: AppView) -> Outcome {
    if s.selected < s.tasks.len() {
        Outcome::Persist
    } else {
        Outcome::Continue
    }
}

/// A key in command mode.
pub open spec fn normal_step(s: AppView, k: Key) -> (AppView, Outcome) {
    match k {
        Key::Up => (move_up_spec(s), Outcome::Continue),
        Key::Down => (move_down_spec(s), Outcome::Continue),
        Key::Delete => (delete_spec(s), on_selection(s)),
        _ => match command_char(k) {
            Some(c) => if c == 'q' || c == 'Q' {
                (s, Outcome::Quit)
            } else if c == ' ' {
                (toggle_spec(s), on_selection(s))
            } else if c == 'a' || c == 'A' {
                (AppView { mode: Mode::AddTitle, buffer: Seq::empty(), ..s }, Outcome::Continue)
            } else if (c == 'e' || c == 'E') && s.tasks.len() > 0 {
                (
                    AppView { mode: Mode::EditTitle, buffer: s.tasks[s.selected as int].title, ..s },
                    Outcome::Continue,
                )
            } else if (c == 'd' || c == 'D') && s.tasks.len() > 0 {
                (
                    AppView {
                        mode: Mode::EditDescription,
                        buffer: s.tasks[s.selected as int].description,
                        ..s
                    },
                    Outcome::Continue,
                )
            } else {
                (s, Outcome::Continue)
            },
            None => (s, Outcome::Continue),
        },
    }
}

/// Enter in a text mode: a buffer that is blank once trimmed is discarded,
/// anything else is committed trimmed to the field that the mode edits.
pub open spec fn enter_step(s: AppView) -> (AppView, Outcome) {
    let text = trim_of(s.buffer);
    let base = to_normal(s);
    if text.len() == 0 {
        (base, Outcome::Continue)
    } else {
        match s.mode {
            Mode::AddTitle => (add_spec(base, text, Seq::empty()), Outcome::Persist),
            Mode::EditTitle => (edit_title_spec(base, text), on_selection(s)),
            Mode::EditDescription => (edit_description_spec(base, text), on_selection(s)),
            Mode::Normal => (base, Outcome::Continue),
        }
    }
}

/// A key in one of the text modes.
pub open spec fn text_step(s: AppView, k: Key) -> (AppView, Outcome) {
    match k {
        Key::Esc => (to_normal(s), Outcome::Continue),
        Key::Enter => enter_step(s),
        Key::Backspace => if s.buffer.len() > 0 {
            (AppView { buffer: s.buffer.drop_last(), ..s }, Outcome::Continue)
        } else {
            (s, Outcome::Continue)
        },
        Key::Char(c) => (AppView { buffer: s.buffer.push(c), ..s }, Outcome::Continue),
        Key::Ctrl(c) => if c == 'c' {
            (s, Outcome::Quit)
        } else {
            (s, Outcome::Continue)
        },
        _ => (s, Outcome::Continue),
    }
}

/// The transition table: the next state and the outcome of key `k` in state `s`.
pub open spec fn step(s: AppView, k: Key) -> (AppView, Outcome) {
    if s.mode == Mode::Normal {
        normal_step(s, k)
    } else {
        text_step(s, k)
    }
}

impl App {
    /// Interprets one keystroke in the current mode.
    pub fn handle_key(&mut self, key: Key) -> (r: Outcome)
        requires
            old(self).wf(),
            old(self).mode == Mode::AddTitle && key == Key::Enter ==> old(self).next_id < usize::MAX,
        ensures
            (final(self)@, r) == step(old(self)@, key),
            final(self).wf(),
    {
        if self.mode == Mode::Normal {
            self.handle_command(key)
        } else {
            self.handle_text(key)
        }
    }

    fn handle_command(&mut self, key: Key) -> (r: Outcome)
        requires
            old(self).wf(),
            old(self).mode == Mode::Normal,
        ensures
            (final(self)@, r) == normal_step(old(self)@, key),
            final(self).wf(),
    {
        let valid = self.selected_index < self.tasks.len();
        match key {
            Key::Up => {
                self.move_up();
                Outcome::Continue
            },
            Key::Down => {
                self.move_down();
                Outcome::Continue
            },
            Key::Delete => {
                self.delete_task();
                if valid {
                    Outcome::Persist
                } else {
                    Outcome::Continue
                }
            },
            Key::Char(c) | Key::Ctrl(c) => {
                if c == 'q' || c == 'Q' {
                    Outcome::Quit
                } else if c == ' ' {
                    self.toggle_task();
                    if valid {
                        Outcome::Persist
                    } else {
                        Outcome::Continue
                    }
                } else if c == 'a' || c == 'A' {
                    self.mode = Mode::AddTitle;
                    self.input_buffer = String::new();
                    proof {
                        assert(self@.buffer =~= Seq::<char>::empty());
                    }
                    Outcome::Continue
                } else if (c == 'e' || c == 'E') && !self.tasks.is_empty() {
                    self.mode = Mode::EditTitle;
                    self.input_buffer = self.tasks[self.selected_index].title.clone();
                    Outcome::Continue
                } else if (c == 'd' || c == 'D') && !self.tasks.is_empty() {
                    self.mode = Mode::EditDescription;
                    self.input_buffer = self.tasks[self.selected_index].description.clone();
                    Outcome::Continue
                } else {
                    Outcome::Continue
                }
            },
            _ => Outcome::Continue,
        }
    }

    fn handle_text(&mut self, key: Key) -> (r: Outcome)
        requires
            old(self).wf(),
            old(self).mode != Mode::Normal,
            old(self).mode == Mode::AddTitle && key == Key::Enter ==> old(self).next_id < usize::MAX,
        ensures
            (final(self)@, r) == text_step(old(self)@, key),
            final(self).wf(),
    {
        match key {
            Key::Esc => {
                self.mode = Mode::Normal;
                self.input_buffer = String::new();
                proof {
                    assert(self@ =~= to_normal(old(self)@));
                }
                Outcome::Continue
            },
            Key::Enter => self.commit(),
            Key::Backspace => {
                pop_char(&mut self.input_buffer);
                Outcome::Continue
            },
            Key::Char(c) => {
                push_char(&mut self.input_buffer, c);
                Outcome::Continue
            },
            Key::Ctrl(c) => {
                if c == 'c' {
                    Outcome::Quit
                } else {
                    Outcome::Continue
                }
            },
            _ => Outcome::Continue,
        }
    }

    fn commit(&mut self) -> (r: Outcome)
        requires
            old(self).wf(),
            old(self).mode != Mode::Normal,
            old(self).mode == Mode::AddTitle ==> old(self).next_id < usize::MAX,
        ensures
            (final(self)@, r) == enter_step(old(self)@),
            final(self).wf(),
    {
        let text = trim_text(self.input_buffer.as_str());
        let mode = self.mode;
        let valid = self.selected_index < self.tasks.len();
        self.mode = Mode::Normal;
        self.input_buffer = String::new();
        proof {
            assert(self@ =~= to_normal(old(self)@));
        }
        if text.as_str().unicode_len() == 0 {
            return Outcome::Continue;
        }
        match mode {
            Mode::AddTitle => {
                let empty = String::new();
                proof {
                    assert(empty@ =~= Seq::<char>::empty());
                }
                self.add_task(text, empty);
                Outcome::Persist
            },
            Mode::EditTitle => {
                self.edit_current_task(text);
                if valid {
                    Outcome::Persist
                } else {
                    Outcome::Continue
                }
            },
            Mode::EditDescription => {
                self.edit_current_description(text);
                if valid {
                    Outcome::Persist
                } else {
                    Outcome::Continue
                }
            },
            Mode::Normal => Outcome::Continue,
        }
    }
}

} // verus!
