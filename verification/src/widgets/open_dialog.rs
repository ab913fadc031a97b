//! The dialog that asks for an address.

use vstd::prelude::*;
use crate::event::{KeyCode, KeyModifiers};
use crate::textbox::{TextboxState, TextboxView, is_paste, pasted, typed};
use crate::widgets::rect::Rect;

verus! {

/// The state of the dialog: the text field in it.
#[derive(Debug)]
pub struct OpenDialogState {
    textbox_state: TextboxState,
}

impl View for OpenDialogState {
    type V = TextboxView;

    closed spec fn view(&self) -> TextboxView {
        self.textbox_state@
    }
}

impl OpenDialogState {
    /// The cursor of the field stands within its text or right behind it.
    pub open spec fn wf(&self) -> bool {
        0 <= self@.cursor_pos <= self@.text.len()
    }

    /// Hands a key to the field, and says whether the key asks for a
    /// paste.
    pub fn handle_events(&mut self, key_code: KeyCode, key_modifiers: KeyModifiers) -> (r: bool)
        requires
            old(self).wf(),
        ensures
            final(self).wf(),
            r == is_paste(key_code, key_modifiers),
            final(self)@ == typed(old(self)@, key_code, key_modifiers),
    {
        self.textbox_state.handle_events(key_code, key_modifiers)
    }

    /// Pastes `content` at the cursor of the field.
    pub fn paste(&mut self, content: &str)
        requires
            old(self).wf(),
        ensures
            final(self).wf(),
            final(self)@ == pasted(old(self)@, content@),
    {
        self.textbox_state.paste(content)
    }

    /// The field of the dialog.
    pub fn textbox(&self) -> (r: &TextboxState)
        ensures
            r@ == self@,
            r.wf() == self.wf(),
    {
        &self.textbox_state
    }

    /// The text of the field.
    pub fn text(&self) -> (r: String)
        ensures
            r@ == self@.text,
    {
        self.textbox_state.text.clone()
    }

    /// Empties the field and puts the cursor at its start. The hint stays.
    pub fn clear(&mut self)
        ensures
            final(self).wf(),
            final(self)@ == (TextboxView { cursor_pos: 0, text: Seq::empty(), ..old(self)@ }),
    {
        self.textbox_state.text = String::new();
        self.textbox_state.cursor_pos = 0;
    }
}

impl Default for OpenDialogState {
    /// An empty dialog with the hint of the address field.
    fn default() -> (r: Self)
        ensures
            r.wf(),
            r@ == (TextboxView {
                cursor_pos: 0,
                text: Seq::empty(),
                hint_text: Some("<enter address...>"@),
            }),
    {
        let mut textbox_state = TextboxState::default();
        textbox_state.hint_text = Some("<enter address...>".to_owned());
        OpenDialogState { textbox_state }
    }
}

/// The dialog widget.
#[derive(Debug)]
pub struct OpenDialog {
    pub title: String,
}

/// The height of the dialog.
pub const DIALOG_HEIGHT: u16 = 8;

impl OpenDialog {
    /// A dialog with the given title.
    pub fn new(title: String) -> (r: OpenDialog)
        ensures
            r.title == title,
    {
        OpenDialog { title }
    }

    /// The place of the dialog on a screen of the size of `area`: five
    /// cells narrower than the screen and centred, eight lines high, a third
    /// of the way down the lines that are left.
    pub fn dialog_area(area: Rect) -> (r: Rect)
        requires
            area.width >= 5,
            area.height >= DIALOG_HEIGHT,
        ensures
            r == (Rect {
                x: 2,
                y: ((area.height - DIALOG_HEIGHT) / 3) as u16,
                width: (area.width - 5) as u16,
                height: DIALOG_HEIGHT,
            }),
    {
        let width = area.width - 5;
        let x = (area.width - width) / 2;
        let y = (area.height - DIALOG_HEIGHT) / 3;
        Rect { x, y, width, height: DIALOG_HEIGHT }
    }

    /// The place of the text field in a dialog: one line, inside the
    /// border of its first line.
    pub fn text_box_area(dialog: Rect) -> (r: Rect)
        requires
            dialog.x + 1 <= u16::MAX,
            dialog.y + 1 <= u16::MAX,
            dialog.width >= 2,
        ensures
            r == (Rect {
                x: (dialog.x + 1) as u16,
                y: (dialog.y + 1) as u16,
                width: (dialog.width - 2) as u16,
                height: 1,
            }),
    {
        Rect { x: dialog.x + 1, y: dialog.y + 1, width: dialog.width - 2, height: 1 }
    }

    /// The place of the two lines of help in a dialog: from its third
    /// line on.
    pub fn help_area(dialog: Rect) -> (r: Rect)
        requires
            dialog.x + 1 <= u16::MAX,
            dialog.y + 3 <= u16::MAX,
        ensures
            r == (Rect {
                x: (dialog.x + 1) as u16,
                y: (dialog.y + 3) as u16,
                width: dialog.width,
                height: dialog.height,
            }),
    {
        Rect { x: dialog.x + 1, y: dialog.y + 3, width: dialog.width, height: dialog.height }
    }
}

} // verus!
