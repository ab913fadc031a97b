//! Work that the models leave to their surroundings: the player, the
//! background runtime, the clipboard and the configuration.

use vstd::prelude::*;
use crate::coordinator::{AsyncAction, AsyncActionView};
use crate::entity::listening_state::Position;

verus! {

/// What the player reports when a key arrives.
#[derive(Debug, Clone, Copy, PartialEq, Eq, Structural)]
pub struct PlayerStatus {
    pub paused: bool,
    pub position: Position,
}

/// Work that a key leaves to the surroundings of the model.
#[derive(Debug)]
pub enum Command {
    /// Start a background refresh of the channel from its feed address.
    Refresh { podcast_url: String, channel_id: i32 },
    /// Move the player 30 seconds forward.
    SeekForward,
    /// Move the player 10 seconds backward.
    SeekBackward,
    /// Go on playing.
    Resume,
    /// Stop playing.
    Pause,
    /// Open the enclosure, play it and, where a position is given, go
    /// there.
    Open { enclosure: String, seek: Option<Position> },
    /// Turn the volume up.
    IncreaseVolume,
    /// Turn the volume down.
    DecreaseVolume,
    /// Post a message to the foreground's queue.
    Send(AsyncAction),
    /// Read the clipboard and paste its content into the dialog.
    ReadClipboard,
    /// Replace the player by a new one that plays nothing.
    ResetPlayer,
    /// Write the stream addresses to the configuration.
    SaveStreams(Vec<String>),
}

/// The mathematical value of a command.
pub enum CommandView {
    Refresh { podcast_url: Seq<char>, channel_id: i32 },
    SeekForward,
    SeekBackward,
    Resume,
    Pause,
    Open { enclosure: Seq<char>, seek: Option<Position> },
    IncreaseVolume,
    DecreaseVolume,
    Send(AsyncActionView),
    ReadClipboard,
    ResetPlayer,
    SaveStreams(Seq<Seq<char>>),
}

impl View for Command {
    type V = CommandView;

    open spec fn view(&self) -> CommandView {
        match self {
            Command::Refresh { podcast_url, channel_id } => CommandView::Refresh {
                podcast_url: podcast_url@,
                channel_id: *channel_id,
            },
            Command::SeekForward => CommandView::SeekForward,
            Command::SeekBackward => CommandView::SeekBackward,
            Command::Resume => CommandView::Resume,
            Command::Pause => CommandView::Pause,
            Command::Open { enclosure, seek } => CommandView::Open {
                enclosure: enclosure@,
                seek: *seek,
            },
            Command::IncreaseVolume => CommandView::IncreaseVolume,
            Command::DecreaseVolume => CommandView::DecreaseVolume,
            Command::Send(action) => CommandView::Send(action@),
            Command::ReadClipboard => CommandView::ReadClipboard,
            Command::ResetPlayer => CommandView::ResetPlayer,
            Command::SaveStreams(streams) => CommandView::SaveStreams(streams.deep_view()),
        }
    }
}

impl DeepView for Command {
    type V = CommandView;

    open spec fn deep_view(&self) -> CommandView {
        self@
    }
}

} // verus!
