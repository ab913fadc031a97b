//! A one-line text field: its text, its cursor and the keys that edit it.

use vstd::prelude::*;
use vstd::string::StringExecFns;
use crate::event::{KeyCode, KeyModifiers};
use crate::text::opt_chars;

verus! {

/// The text field widget. It has no state of its own.
pub struct Textbox {}

/// The state of a text field. `cursor_pos` counts characters from the
/// start of `text`.
#[derive(Debug)]
pub struct TextboxState {
    pub cursor_pos: usize,
    pub text: String,
    pub hint_text: Option<String>,
}

/// The mathematical value of a text field.
pub struct TextboxView {
    pub cursor_pos: int,
    pub text: Seq<char>,
    pub hint_text: Option<Seq<char>>,
}

impl View for TextboxState {
    type V = TextboxView;

    open spec fn view(&self) -> TextboxView {
        TextboxView {
            cursor_pos: self.cursor_pos as int,
            text: self.text@,
            hint_text: opt_chars(self.hint_text),
        }
    }
}

/// Whether a key asks for the clipboard to be pasted: control and `v`.
pub open spec fn is_paste(key_code: KeyCode, key_modifiers: KeyModifiers) -> bool {
    key_code == KeyCode::Char('v') && key_modifiers.is_control()
}

/// The field after a key.
///
/// Left and right move the cursor within the text. Backspace removes the
/// character before the cursor, delete the one under it; after a delete at
/// the end of a text that is not empty the cursor steps back onto the last
/// character. A character is put in at the cursor, which moves past it. The
/// paste key and every other key leave the field as it is.
pub open spec fn typed(v: TextboxView, key_code: KeyCode, key_modifiers: KeyModifiers)
    -> TextboxView {
    match key_code {
        KeyCode::Left => TextboxView {
            cursor_pos: if v.cursor_pos > 0 {
                v.cursor_pos - 1
            } else {
                v.cursor_pos
            },
            ..v
        },
        KeyCode::Right => TextboxView {
            cursor_pos: if v.cursor_pos < v.text.len() {
                v.cursor_pos + 1
            } else {
                v.text.len() as int
            },
            ..v
        },
        KeyCode::Backspace => if v.cursor_pos > 0 {
            TextboxView {
                cursor_pos: v.cursor_pos - 1,
                text: v.text.remove(v.cursor_pos - 1),
                ..v
            }
        } else {
            v
        },
        KeyCode::Delete => if v.cursor_pos < v.text.len() {
            let text = v.text.remove(v.cursor_pos);
            TextboxView {
                cursor_pos: if v.cursor_pos == text.len() && text.len() > 0 {
                    v.cursor_pos - 1
                } else {
                    v.cursor_pos
                },
                text,
                ..v
            }
        } else {
            v
        },
        KeyCode::Char(c) => if is_paste(key_code, key_modifiers) {
            v
        } else {
            TextboxView { cursor_pos: v.cursor_pos + 1, text: v.text.insert(v.cursor_pos, c), ..v }
        },
        _ => v,
    }
}

/// The field after `content` is pasted: the content stands at the cursor,
/// and the cursor behind it.
pub open spec fn pasted(v: TextboxView, content: Seq<char>) -> TextboxView {
    TextboxView {
        cursor_pos: v.cursor_pos + content.len(),
        text: v.text.subrange(0, v.cursor_pos) + content + v.text.subrange(
            v.cursor_pos,
            v.text.len() as int,
        ),
        ..v
    }
}

/// Appends one character with `String::push`, which puts the character
/// behind the last one and leaves the others as they are.
#[verifier::external_body]
fn push_char(s: &mut String, c: char)
    ensures
        final(s)@ == old(s)@.push(c),
{
    s.push(c)
}

impl TextboxState {
    /// A field whose cursor stands within its text or right behind it.
    pub open spec fn wf(&self) -> bool {
        self.cursor_pos <= self.text@.len()
    }

    /// Reacts to a key, and says whether the key asks for a paste. Where it
    /// does, the field is unchanged and `paste` takes the clipboard's content.
    pub fn handle_events(&mut self, key_code: KeyCode, key_modifiers: KeyModifiers) -> (r: bool)
        requires
            old(self).wf(),
        ensures
            final(self).wf(),
            r == is_paste(key_code, key_modifiers),
            final(self)@ == typed(old(self)@, key_code, key_modifiers),
    {
        let len = self.text.as_str().unicode_len();
        let at = self.cursor_pos;
        match key_code {
            KeyCode::Left => {
                if at > 0 {
                    self.cursor_pos = at - 1;
                }
                false
            },
            KeyCode::Right => {
                self.cursor_pos = if at < len {
                    at + 1
                } else {
                    len
                };
                false
            },
            KeyCode::Backspace => {
                if at > 0 {
                    let mut text = String::from_str(self.text.as_str().substring_char(0, at - 1));
                    text.append(self.text.as_str().substring_char(at, len));
                    assert(text@ == self.text@.remove(at - 1));
                    self.text = text;
                    self.cursor_pos = at - 1;
                }
                false
            },
            KeyCode::Delete => {
                if at < len {
                    let mut text = String::from_str(self.text.as_str().substring_char(0, at));
                    text.append(self.text.as_str().substring_char(at + 1, len));
                    assert(text@ == self.text@.remove(at as int));
                    self.text = text;
                    if at == len - 1 && len - 1 > 0 {
                        self.cursor_pos = at - 1;
                    }
                }
                false
            },
            KeyCode::Char(c) => {
                if c == 'v' && key_modifiers.control_only() {
                    true
                } else {
                    let mut text = String::from_str(self.text.as_str().substring_char(0, at));
                    push_char(&mut text, c);
                    text.append(self.text.as_str().substring_char(at, len));
                    assert(text@ == self.text@.insert(at as int, c));
                    let grown = text.as_str().unicode_len();
                    assert(grown == len + 1);
                    self.text = text;
                    self.cursor_pos = at + 1;
                    false
                }
            },
            _ => false,
        }
    }

    /// Pastes `content` at the cursor.
    pub fn paste(&mut self, content: &str)
        requires
            old(self).wf(),
        ensures
            final(self).wf(),
            final(self)@ == pasted(old(self)@, content@),
    {
        let len = self.text.as_str().unicode_len();
        let at = self.cursor_pos;
        let mut text = String::from_str(self.text.as_str().substring_char(0, at));
        text.append(content);
        text.append(self.text.as_str().substring_char(at, len));
        let grown = text.as_str().unicode_len();
        assert(grown == len + content@.len());
        self.text = text;
        self.cursor_pos = at + content.unicode_len();
    }
}

impl Default for TextboxState {
    /// An empty field with the hint of the stream dialog.
    fn default() -> (r: Self)
        ensures
            r.wf(),
            r@ == (TextboxView {
                cursor_pos: 0,
                text: Seq::empty(),
                hint_text: Some("<enter stream address>"@),
            }),
    {
        TextboxState {
            cursor_pos: 0,
            text: String::new(),
            hint_text: Some("<enter stream address>".to_owned()),
        }
    }
}

impl Textbox {
    /// The line that the field shows: its text, or its hint where the text
    /// is empty and a hint is set, or nothing. The flag says that the line is
    /// the hint.
    pub fn line(state: &TextboxState) -> (r: (String, bool))
        ensures
            r.0@ == (if state@.text.len() > 0 {
                state@.text
            } else {
                match state@.hint_text {
                    Some(hint) => hint,
                    None => Seq::empty(),
                }
            }),
            r.1 == (state@.text.len() == 0 && state@.hint_text is Some),
    {
        if !state.text.as_str().is_empty() {
            (state.text.clone(), false)
        } else {
            match &state.hint_text {
                Some(hint) => (hint.clone(), true),
                None => (String::new(), false),
            }
        }
    }

    /// The character under the cursor, or a blank where the cursor stands
    /// behind the text.
    pub fn cursor_char(state: &TextboxState) -> (r: char)
        ensures
            r == (if state@.cursor_pos < state@.text.len() {
                state@.text[state@.cursor_pos]
            } else {
                ' '
            }),
    {
        if state.cursor_pos < state.text.as_str().unicode_len() {
            state.text.as_str().get_char(state.cursor_pos)
        } else {
            ' '
        }
    }
}

} // verus!
