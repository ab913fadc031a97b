//! What the widgets compute before they draw.

pub mod item_details;
pub mod open_dialog;
pub mod rect;
pub mod simple_list;
pub mod waiting_message_dialog;
