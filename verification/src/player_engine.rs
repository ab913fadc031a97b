//! What the player engine remembers: the address it plays and whether it
//! is playing.

use vstd::prelude::*;
use crate::text::{clone_opt, opt_chars};

verus! {

/// The seconds that the player moves forward on a seek.
pub const SEEK_FORWARD_SECONDS: i32 = 30;

/// The seconds that the player moves backward on a seek.
pub const SEEK_BACKWARD_SECONDS: i32 = 10;

/// The state of the player engine.
#[derive(Debug)]
pub struct PlayerEngine {
    stream_addr: Option<String>,
    playing: bool,
}

impl PlayerEngine {
    /// Whether the engine is playing.
    pub closed spec fn playing(&self) -> bool {
        self.playing
    }

    /// The address that the engine has taken up.
    pub closed spec fn address(&self) -> Option<Seq<char>> {
        opt_chars(self.stream_addr)
    }

    /// Returns the address that the engine has taken up.
    pub fn stream_addr(&self) -> (r: Option<String>)
        ensures
            opt_chars(r) == self.address(),
    {
        clone_opt(&self.stream_addr)
    }

    /// An engine that has no address and does not play.
    pub fn new() -> (r: PlayerEngine)
        ensures
            r.address() is None,
            !r.playing(),
    {
        PlayerEngine { stream_addr: None, playing: false }
    }

    /// Takes up the address and plays it.
    pub fn open(&mut self, stream_addr: &str)
        ensures
            final(self).address() == Some(stream_addr@),
            final(self).playing(),
    {
        self.stream_addr = Some(stream_addr.to_owned());
        self.playing = true;
    }

    /// Plays the address again where there is one, and says whether there
    /// is.
    pub fn play(&mut self) -> (r: bool)
        ensures
            r == (old(self).address() is Some),
            final(self).address() == old(self).address(),
            final(self).playing() == (old(self).playing() || r),
    {
        if self.stream_addr.is_some() {
            self.playing = true;
            true
        } else {
            false
        }
    }

    /// Whether the engine is paused: it is whenever it does not play.
    pub fn is_paused(&self) -> (r: bool)
        ensures
            r == !self.playing(),
    {
        !self.playing
    }

    /// Stops playing.
    pub fn pause(&mut self)
        ensures
            !final(self).playing(),
            final(self).address() == old(self).address(),
    {
        self.playing = false;
    }

    /// Goes on playing.
    pub fn resume(&mut self)
        ensures
            final(self).playing(),
            final(self).address() == old(self).address(),
    {
        self.playing = true;
    }
}

impl Default for PlayerEngine {
    fn default() -> (r: Self)
        ensures
            r.address() is None,
            !r.playing(),
    {
        PlayerEngine::new()
    }
}

} // verus!
