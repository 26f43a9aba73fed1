//! Media playback around a recording: playback that this session paused is
//! resumed when the recording ends, and only then.

use vstd::prelude::*;

verus! {

/// What a probe of the media player found.
#[derive(Clone, Copy, Debug, PartialEq, Eq, Structural)]
pub enum PlayerStatus {
    /// The player application is not running.
    NotRunning,
    /// It runs and is not playing.
    Idle,
    /// It runs and is playing.
    Playing,
}

/// Remembers whether this session paused the player.
pub struct MediaManager {
    was_playing: bool,
}

impl MediaManager {
    /// Whether playback was paused by this session and not resumed since.
    pub closed spec fn was_playing(&self) -> bool {
        self.was_playing
    }

    pub fn new() -> (r: Self)
        ensures
            !r.was_playing(),
    {
        MediaManager { was_playing: false }
    }

    /// Given what a probe of the player found, returns whether the player
    /// must be paused: exactly when it plays.
    pub fn pause_spotify(&self, status: PlayerStatus) -> (pause: bool)
        ensures
            pause == (status == PlayerStatus::Playing),
    {
        match status {
            PlayerStatus::Playing => true,
            PlayerStatus::NotRunning | PlayerStatus::Idle => false,
        }
    }

    /// The player was paused: it is resumed by the next `play_spotify`.
    pub fn record_pause(&mut self)
        ensures
            final(self).was_playing(),
    {
        self.was_playing = true;
    }

    /// Returns whether the player must be resumed: exactly when this session
    /// paused it. Afterwards nothing is remembered.
    pub fn play_spotify(&mut self) -> (play: bool)
        ensures
            play == old(self).was_playing(),
            !final(self).was_playing(),
    {
        let play = self.was_playing;
        self.was_playing = false;
        play
    }
}

} // verus!
