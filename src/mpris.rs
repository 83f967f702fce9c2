use vstd::prelude::*;

verus! {

/// A command from the operating system's media-control bridge.
#[derive(Debug, Clone, Copy, PartialEq, Eq, Structural)]
pub enum MprisState {
    Play,
    Pause,
    PlayPause,
    Next,
    Previous,
    Shuffle(bool),
    Loop,
    Metadata,
    /// Output volume in percent.
    Volume(u32),
    /// Move by this many seconds from the current position.
    Seek(i64),
    Stop,
    /// Move to this many seconds from the start of the track.
    Position(i64),
}

} // verus!
