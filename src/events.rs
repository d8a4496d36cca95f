//! Changes in the player's state that may call for a new notification.
use vstd::prelude::*;
use crate::track::Track;

verus! {

/// Whether the player plays, pauses or stands still.
#[derive(Clone, Copy, Debug, PartialEq, Eq, Structural)]
pub enum TrackStatus {
    Playing,
    Paused,
    Stopped,
}

/// The shuffle mode of the player.
#[derive(Clone, Copy, Debug, PartialEq, Eq, Structural)]
pub enum Shuffle {
    Off,
    Tracks,
    Albums,
}

/// What the player advances through automatically: all tracks, the album,
/// or the artist.
#[derive(Clone, Copy, Debug, PartialEq, Eq, Structural)]
pub enum AAAMode {
    All,
    Album,
    Artist,
}

/// One change between two successive states of the player.
pub enum CmusEvent {
    StatusChanged(TrackStatus),
    TrackChanged(Track),
    VolumeChanged { left: u8, right: u8 },
    PositionChanged(u32),
    ShuffleChanged(Shuffle),
    RepeatChanged(bool),
    AAAMode(AAAMode),
}

} // verus!
