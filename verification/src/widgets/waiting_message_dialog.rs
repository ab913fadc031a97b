//! The dialog that is up while a refresh is under way.

use vstd::prelude::*;
use crate::widgets::rect::Rect;

verus! {

/// The waiting dialog: a message under a turning mark.
#[derive(Debug)]
pub struct WaitingMessageDialog {
    pub message: String,
}

/// The marks that turn, one for each second.
pub open spec fn marks() -> Seq<char> {
    seq!['|', '/', '-', '\\']
}

/// The width of the dialog: the message and its border, but not more than
/// the area less four cells.
pub open spec fn dialog_width(area_width: int, message_len: int) -> int {
    if area_width - 4 < message_len + 2 {
        area_width - 4
    } else {
        message_len + 2
    }
}

impl WaitingMessageDialog {
    /// A dialog with the given message.
    pub fn new(message: String) -> (r: WaitingMessageDialog)
        ensures
            r.message == message,
    {
        WaitingMessageDialog { message }
    }

    /// The mark that shows after `seconds` seconds of waiting.
    pub fn mark(seconds: u64) -> (r: char)
        ensures
            r == marks()[seconds as int % 4],
    {
        let turn = seconds % 4;
        if turn == 0 {
            '|'
        } else if turn == 1 {
            '/'
        } else if turn == 2 {
            '-'
        } else {
            '\\'
        }
    }

    /// The place of the dialog in `area`, for a message of `message_len`
    /// bytes: three cells in and three lines down, three lines high.
    pub fn dialog_area(area: Rect, message_len: u16) -> (r: Rect)
        requires
            area.x + 3 <= u16::MAX,
            area.y + 3 <= u16::MAX,
            area.width >= 4,
            message_len + 2 <= u16::MAX,
        ensures
            r == (Rect {
                x: (area.x + 3) as u16,
                y: (area.y + 3) as u16,
                width: dialog_width(area.width as int, message_len as int) as u16,
                height: 3,
            }),
    {
        let width = if area.width - 4 < message_len + 2 {
            area.width - 4
        } else {
            message_len + 2
        };
        Rect { x: area.x + 3, y: area.y + 3, width, height: 3 }
    }
}

} // verus!
